use quick_launch::blink::{BlinkTicker, TickOutcome, BLINK_INTERVAL_MS};
use quick_launch::placement::{Size, BASE_HEIGHT, EXPANDED_HEIGHT, PANEL_WIDTH};
use quick_launch::search::{SearchItem, SearchQuery, SearchResponse};
use quick_launch::view::{KeyAction, ReplyPoll, View, ViewRef, CLOSE_KEY};
use std::path::PathBuf;
use std::sync::mpsc;

fn new_view(id: u64) -> (View, mpsc::Receiver<SearchQuery>) {
    let (tx, rx) = mpsc::channel();
    (View::new(ViewRef { id }, tx), rx)
}

fn one_match() -> SearchResponse {
    SearchResponse {
        results: vec![SearchItem {
            name: "Safari".to_string(),
            path: PathBuf::from("/Applications/Safari.app"),
        }],
    }
}

const BASE: Size = Size { width: 650, height: 75 };

#[test]
fn new_view_is_empty_and_idle() {
    let (view, _rx) = new_view(4);
    assert_eq!(view.id(), ViewRef { id: 4 });
    assert!(view.is_input_empty());
    assert_eq!(view.content(), "");
    assert_eq!(view.blink_epoch(), 0);
    assert!(view.cursor_visible());
    assert!(view.results().is_empty());
    assert_eq!(view.selected(), 0);
    assert!(!view.is_waiting());
    assert!(view.can_advance());
    assert_eq!(view.window_size(), BASE);
}

#[test]
fn window_grows_with_text_and_shrinks_without() {
    let (mut view, _rx) = new_view(0);
    assert_eq!(view.window_size(), Size { width: PANEL_WIDTH, height: BASE_HEIGHT });
    let size = view.set_content("a".to_string());
    assert_eq!(size, Size { width: PANEL_WIDTH, height: EXPANDED_HEIGHT });
    assert_eq!(view.window_size(), size);
    assert!(!view.is_input_empty());
    let size = view.set_content("ab".to_string());
    assert_eq!(size, Size { width: PANEL_WIDTH, height: EXPANDED_HEIGHT });
    let size = view.set_content(String::new());
    assert_eq!(size, BASE);
    assert_eq!(view.window_size(), BASE);
    assert!(view.is_input_empty());
}

#[test]
fn every_content_change_moves_the_epoch_and_shows_the_cursor() {
    let (mut view, _rx) = new_view(0);
    let mut ticker = BlinkTicker::spawn(&view);
    assert_eq!(ticker.wake(Some(&mut view)), TickOutcome::Toggled);
    assert!(!view.cursor_visible());
    view.set_content("a".to_string());
    assert_eq!(view.blink_epoch(), 1);
    assert!(view.cursor_visible());
    assert_eq!(view.content(), "a");
    // the same content again is a change all the same
    view.set_content("a".to_string());
    assert_eq!(view.blink_epoch(), 2);
    view.reset_cursor();
    assert_eq!(view.blink_epoch(), 3);
    assert!(view.cursor_visible());
    assert_eq!(view.content(), "a");
}

#[test]
fn epoch_does_not_go_down() {
    let (mut view, _rx) = new_view(0);
    let mut last = view.blink_epoch();
    for round in 0..20u32 {
        match round % 5 {
            0 => {
                view.set_content(format!("{}", round));
            }
            1 => {
                view.submit();
            }
            2 => {
                view.blink(last);
            }
            3 => {
                view.apply_reply(ReplyPoll::Ready(one_match()));
            }
            _ => view.reset_cursor(),
        }
        assert!(view.blink_epoch() >= last);
        last = view.blink_epoch();
    }
    assert_eq!(last, 8);
}

#[test]
fn blink_flips_the_cursor_on_the_recorded_epoch_only() {
    let (mut view, _rx) = new_view(0);
    assert!(view.blink(0));
    assert!(!view.cursor_visible());
    assert!(view.blink(0));
    assert!(view.cursor_visible());
    assert!(!view.blink(1));
    assert!(view.cursor_visible());
    view.reset_cursor();
    assert!(!view.blink(0));
    assert!(view.cursor_visible());
    assert!(view.blink(1));
    assert!(!view.cursor_visible());
    assert_eq!(view.blink_epoch(), 1);
}

#[test]
fn ticker_flips_until_the_epoch_moves_on() {
    let (mut view, _rx) = new_view(0);
    let mut ticker = BlinkTicker::spawn(&view);
    assert_eq!(ticker.owner(), ViewRef { id: 0 });
    assert_eq!(ticker.captured(), 0);
    assert!(!ticker.is_retired());
    assert_eq!(ticker.wake(Some(&mut view)), TickOutcome::Toggled);
    assert!(!view.cursor_visible());
    assert_eq!(ticker.wake(Some(&mut view)), TickOutcome::Toggled);
    assert!(view.cursor_visible());
    assert_eq!(ticker.wake(Some(&mut view)), TickOutcome::Toggled);
    assert!(!view.cursor_visible());

    view.set_content("a".to_string());
    assert!(view.cursor_visible());
    assert_eq!(ticker.wake(Some(&mut view)), TickOutcome::Retired);
    assert!(ticker.is_retired());
    assert!(view.cursor_visible());
    assert_eq!(view.blink_epoch(), 1);
}

#[test]
fn retired_ticker_never_flips_again() {
    let (mut view, _rx) = new_view(0);
    view.reset_cursor();
    let mut ticker = BlinkTicker::spawn(&view);
    assert_eq!(ticker.captured(), 1);
    view.reset_cursor();
    assert_eq!(ticker.wake(Some(&mut view)), TickOutcome::Retired);
    // a fresh view of the same name at the recorded epoch does not revive it
    let (mut other, _other_rx) = new_view(0);
    other.reset_cursor();
    assert_eq!(other.blink_epoch(), ticker.captured());
    assert_eq!(ticker.wake(Some(&mut other)), TickOutcome::Retired);
    assert!(other.cursor_visible());
    assert_eq!(ticker.wake(None), TickOutcome::Retired);
    assert!(ticker.is_retired());
}

#[test]
fn ticker_retires_when_its_view_is_gone() {
    let (view, _rx) = new_view(0);
    let mut ticker = BlinkTicker::spawn(&view);
    drop(view);
    assert_eq!(ticker.wake(None), TickOutcome::Retired);
    assert!(ticker.is_retired());
}

#[test]
fn ticker_leaves_another_view_alone() {
    let (first, _first_rx) = new_view(0);
    let mut ticker = BlinkTicker::spawn(&first);
    let (mut second, _second_rx) = new_view(1);
    assert_eq!(second.blink_epoch(), ticker.captured());
    assert_eq!(ticker.wake(Some(&mut second)), TickOutcome::Retired);
    assert!(second.cursor_visible());
    assert!(ticker.is_retired());
}

#[test]
fn blink_interval_is_half_a_second() {
    assert_eq!(BLINK_INTERVAL_MS, 500);
}

#[test]
fn close_key_closes_and_other_keys_do_not() {
    let (view, _rx) = new_view(0);
    assert_eq!(CLOSE_KEY, "escape");
    assert_eq!(view.on_key_down("escape"), KeyAction::Close);
    assert_eq!(view.on_key_down("Escape"), KeyAction::Ignore);
    assert_eq!(view.on_key_down("enter"), KeyAction::Ignore);
    assert_eq!(view.on_key_down("a"), KeyAction::Ignore);
    assert_eq!(view.on_key_down(""), KeyAction::Ignore);
    assert_eq!(view.on_key_down("escape "), KeyAction::Ignore);
}

#[test]
fn submit_queues_the_current_input() {
    let (mut view, rx) = new_view(0);
    view.set_content("Saf".to_string());
    assert!(view.submit());
    assert!(view.is_waiting());
    let query = rx.try_recv().expect("a query");
    assert_eq!(query.query, "Saf");
    assert!(rx.try_recv().is_err());
    assert_eq!(view.content(), "Saf");
    assert_eq!(view.blink_epoch(), 1);
}

#[test]
fn submit_reports_a_coordinator_that_is_gone() {
    let (mut view, rx) = new_view(0);
    drop(rx);
    assert!(!view.submit());
    assert!(view.is_waiting());
    // the query was dropped with its sender: the view learns that no answer will come
    assert!(!view.poll_reply());
    assert!(!view.is_waiting());
}

#[test]
fn prepare_query_hands_out_the_given_sender() {
    let (mut view, _rx) = new_view(0);
    view.set_content("Saf".to_string());
    let (tx, rx) = oneshot::channel();
    let query = view.prepare_query(tx, rx);
    assert_eq!(query.query, "Saf");
    assert!(view.is_waiting());
    assert!(query.response_tx.send(one_match()).is_ok());
    assert!(view.poll_reply());
    assert_eq!(*view.results(), one_match());
}

#[test]
fn content_change_submits_a_query() {
    let (mut view, rx) = new_view(0);
    let size = view.on_content_changed("S".to_string());
    assert_eq!(size, Size { width: 650, height: EXPANDED_HEIGHT });
    assert_eq!(rx.try_recv().expect("a query").query, "S");
    let size = view.on_content_changed(String::new());
    assert_eq!(size, BASE);
    assert_eq!(rx.try_recv().expect("a query").query, "");
    assert_eq!(view.blink_epoch(), 2);
    assert!(view.is_waiting());
}

#[test]
fn answer_replaces_what_is_on_display() {
    let (mut view, _rx) = new_view(0);
    view.set_content("Saf".to_string());
    assert!(view.apply_reply(ReplyPoll::Ready(one_match())));
    assert_eq!(view.results().len(), 1);
    assert_eq!(view.selected(), 0);
    assert!(!view.is_waiting());
    assert!(view.apply_reply(ReplyPoll::Ready(SearchResponse::empty())));
    assert!(view.results().is_empty());
    assert_eq!(view.blink_epoch(), 1);
    assert_eq!(view.content(), "Saf");
}

#[test]
fn pending_and_superseded_keep_what_is_on_display() {
    let (mut view, _rx) = new_view(0);
    view.apply_reply(ReplyPoll::Ready(one_match()));
    view.submit();
    assert!(!view.apply_reply(ReplyPoll::Pending));
    assert!(view.is_waiting());
    assert_eq!(view.results().len(), 1);
    assert!(!view.apply_reply(ReplyPoll::Superseded));
    assert!(!view.is_waiting());
    assert_eq!(view.results().len(), 1);
}

#[test]
fn poll_reply_sees_pending_then_the_answer() {
    let (mut view, rx) = new_view(0);
    assert!(!view.poll_reply());
    view.on_content_changed("Saf".to_string());
    let query = rx.try_recv().expect("a query");
    assert!(!view.poll_reply());
    assert!(view.is_waiting());
    assert!(query.response_tx.send(one_match()).is_ok());
    assert!(view.poll_reply());
    assert!(!view.is_waiting());
    assert_eq!(view.results().results[0].name, "Safari");
    assert!(!view.poll_reply());
}

#[test]
fn poll_reply_forgets_a_superseded_query() {
    let (mut view, rx) = new_view(0);
    view.apply_reply(ReplyPoll::Ready(one_match()));
    view.on_content_changed("x".to_string());
    let query = rx.try_recv().expect("a query");
    drop(query);
    assert!(!view.poll_reply());
    assert!(!view.is_waiting());
    assert_eq!(view.results().len(), 1);
}

#[test]
fn newer_submit_gives_up_the_older_answer() {
    let (mut view, rx) = new_view(0);
    view.on_content_changed("S".to_string());
    view.on_content_changed("Sa".to_string());
    let first = rx.try_recv().expect("first query");
    let second = rx.try_recv().expect("second query");
    assert_eq!((first.query.as_str(), second.query.as_str()), ("S", "Sa"));
    // nobody listens for the first answer any more
    assert!(first.response_tx.send(SearchResponse::empty()).is_err());
    assert!(second.response_tx.send(one_match()).is_ok());
    assert!(view.poll_reply());
    assert_eq!(view.results().len(), 1);
}
