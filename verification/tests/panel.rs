use quick_launch::blink::TickOutcome;
use quick_launch::coordinator::PollStatus;
use quick_launch::hotkey::{HotkeyState, HOTKEY_POLL_INTERVAL_MS};
use quick_launch::panel::{Launch, Panel, PanelState, Toggled, WindowRef};
use quick_launch::placement::{Bounds, Display, Placement, Point, Size, EXPANDED_HEIGHT};
use quick_launch::search::NativeItem;
use quick_launch::view::{KeyAction, ViewRef};

fn displays() -> Vec<Display> {
    vec![Display { id: 7, x: 0, y: 0, width: 1440, height: 900 }]
}

const POINTER: Point = Point { x: 10, y: 10 };

fn open(panel: &mut Panel) -> Launch {
    match panel.toggle(POINTER, &displays()) {
        Toggled::Opened(launch) => launch,
        Toggled::Closed(_) => panic!("the panel was shown"),
    }
}

fn close(panel: &mut Panel) -> WindowRef {
    match panel.toggle(POINTER, &displays()) {
        Toggled::Closed(window) => window,
        Toggled::Opened(_) => panic!("the panel was hidden"),
    }
}

#[test]
fn new_panel_is_hidden() {
    let panel = Panel::new();
    assert_eq!(panel.state(), PanelState::Hidden);
    assert!(panel.is_hidden());
    assert!(panel.can_open());
    assert!(!panel.is_live(ViewRef { id: 0 }));
}

#[test]
fn toggle_twice_is_hidden_again_and_leaves_no_task() {
    let mut panel = Panel::new();
    let Launch { window, mut view, mut coordinator, mut ticker, .. } = open(&mut panel);
    assert_eq!(panel.state(), PanelState::Shown(WindowRef { id: 0 }, ViewRef { id: 0 }));
    assert_eq!(window, WindowRef { id: 0 });
    assert!(panel.is_live(view.id()));
    assert_eq!(ticker.wake(Some(&mut view)), TickOutcome::Toggled);
    assert!(!coordinator.drain().exit);

    assert_eq!(close(&mut panel), window);
    assert_eq!(panel.state(), PanelState::Hidden);
    assert!(!panel.is_live(view.id()));

    // both tasks look their view up at the next wake, find it gone, and end
    assert!(!panel.is_live(ticker.owner()));
    assert_eq!(ticker.wake(None), TickOutcome::Retired);
    assert!(ticker.is_retired());
    let alive = panel.is_live(coordinator.owner());
    assert!(!alive);
    assert!(coordinator.wake(alive).exit);
    // the one flip from before the hide is all that the ticker did
    assert!(!view.cursor_visible());
}

#[test]
fn window_opens_at_base_height_and_follows_the_input() {
    let mut panel = Panel::new();
    let Launch { placement, mut view, .. } = open(&mut panel);
    assert_eq!(
        placement,
        Placement::OnDisplay {
            display: 7,
            bounds: Bounds { x: 395, y: 180, size: Size { width: 650, height: 75 } },
        }
    );
    assert!(view.is_input_empty());
    assert_eq!(view.window_size(), Size { width: 650, height: 75 });
    assert_eq!(
        view.on_content_changed("a".to_string()),
        Size { width: 650, height: EXPANDED_HEIGHT }
    );
    assert_eq!(view.on_content_changed(String::new()), Size { width: 650, height: 75 });
}

#[test]
fn escape_hides_and_ends_the_tasks() {
    let mut panel = Panel::new();
    let Launch { window, mut view, mut coordinator, mut ticker, .. } = open(&mut panel);
    view.on_content_changed("Saf".to_string());
    let commands = coordinator.drain();
    assert_eq!(commands.start.expect("a search").handle, 0);

    assert_eq!(view.on_key_down("escape"), KeyAction::Close);
    assert_eq!(panel.hide_window(), Some(window));
    assert_eq!(panel.state(), PanelState::Hidden);
    assert!(!panel.is_live(view.id()));
    assert!(!panel.is_live(ticker.owner()));
    assert!(!panel.is_live(coordinator.owner()));
    drop(view);

    // one wake each, and both are done
    assert_eq!(ticker.wake(None), TickOutcome::Retired);
    let commands = coordinator.wake(panel.is_live(coordinator.owner()));
    assert!(commands.exit);
    assert_eq!(commands.cancel, Some(0));
    assert_eq!(coordinator.poll_target(), None);
    let late = PollStatus::Complete(vec![NativeItem {
        display_name: "Safari".to_string(),
        path: "/Applications/Safari.app".to_string(),
    }]);
    assert!(coordinator.complete(0, late).is_none());
}

#[test]
fn every_show_makes_a_new_window_and_view() {
    let mut panel = Panel::new();
    let first = open(&mut panel);
    close(&mut panel);
    let second = open(&mut panel);
    assert_eq!(first.window, WindowRef { id: 0 });
    assert_eq!(second.window, WindowRef { id: 1 });
    assert_eq!(second.view.id(), ViewRef { id: 1 });
    assert!(panel.is_live(second.view.id()));
    assert!(!panel.is_live(first.view.id()));
    assert_eq!(second.view.blink_epoch(), 0);
    assert!(second.view.is_input_empty());
    assert!(!second.view.is_waiting());
    assert_eq!(second.coordinator.poll_target(), None);
    assert_eq!(second.ticker.captured(), 0);
    assert_eq!(second.ticker.owner(), ViewRef { id: 1 });
    assert_eq!(second.coordinator.owner(), ViewRef { id: 1 });
    assert_eq!(first.coordinator.owner(), ViewRef { id: 0 });
}

#[test]
fn task_of_an_earlier_window_cannot_touch_the_new_view() {
    let mut panel = Panel::new();
    let Launch { view: old_view, ticker: mut old_ticker, .. } = open(&mut panel);
    close(&mut panel);
    drop(old_view);
    let Launch { mut view, .. } = open(&mut panel);
    assert_eq!(view.blink_epoch(), old_ticker.captured());
    assert_eq!(old_ticker.wake(Some(&mut view)), TickOutcome::Retired);
    assert!(view.cursor_visible());
}

#[test]
fn queries_of_the_new_view_do_not_reach_the_old_coordinator() {
    let mut panel = Panel::new();
    let Launch { view: old_view, coordinator: mut old_coordinator, .. } = open(&mut panel);
    close(&mut panel);
    drop(old_view);
    let Launch { mut view, mut coordinator, .. } = open(&mut panel);
    view.on_content_changed("Saf".to_string());
    assert!(old_coordinator.drain().exit);
    assert_eq!(coordinator.drain().start.expect("a search").handle, 0);
}

#[test]
fn hiding_a_hidden_panel_does_nothing() {
    let mut panel = Panel::new();
    assert_eq!(panel.hide_window(), None);
    assert!(panel.is_hidden());
    let launch = open(&mut panel);
    assert_eq!(panel.hide_window(), Some(launch.window));
    assert_eq!(panel.hide_window(), None);
    assert!(panel.is_hidden());
}

#[test]
fn show_opens_from_hidden() {
    let mut panel = Panel::new();
    assert!(panel.is_hidden() && panel.can_open());
    let launch = panel.show(Point { x: 5000, y: 0 }, &displays());
    assert_eq!(launch.placement, Placement::Centered { size: Size { width: 650, height: 75 } });
    assert_eq!(launch.window, WindowRef { id: 0 });
    assert!(!panel.is_hidden());
    assert!(panel.is_live(launch.view.id()));
}

#[test]
fn losing_activation_hides_the_window_on_screen_only() {
    let mut panel = Panel::new();
    let first = open(&mut panel);
    close(&mut panel);
    let second = open(&mut panel);
    assert!(!panel.on_deactivated(first.window));
    assert!(!panel.is_hidden());
    assert!(panel.on_deactivated(second.window));
    assert!(panel.is_hidden());
    assert!(!panel.on_deactivated(second.window));
    assert!(panel.is_hidden());
}

#[test]
fn each_press_is_one_toggle() {
    let mut panel = Panel::new();
    assert!(panel.on_hotkey(HotkeyState::Released, POINTER, &displays()).is_none());
    assert!(panel.is_hidden());
    let opened = panel.on_hotkey(HotkeyState::Pressed, POINTER, &displays());
    assert!(matches!(opened, Some(Toggled::Opened(_))));
    assert!(!panel.is_hidden());
    assert!(panel.on_hotkey(HotkeyState::Released, POINTER, &displays()).is_none());
    assert!(!panel.is_hidden());
    let closed = panel.on_hotkey(HotkeyState::Pressed, POINTER, &displays());
    assert!(matches!(closed, Some(Toggled::Closed(WindowRef { id: 0 }))));
    assert!(panel.is_hidden());
}

#[test]
fn two_rapid_presses_show_and_hide() {
    let mut panel = Panel::new();
    for round in 0..4u64 {
        let first = panel.on_hotkey(HotkeyState::Pressed, POINTER, &displays());
        let second = panel.on_hotkey(HotkeyState::Pressed, POINTER, &displays());
        match (first, second) {
            (Some(Toggled::Opened(launch)), Some(Toggled::Closed(window))) => {
                assert_eq!(launch.window, window);
                assert_eq!(window.id, round);
            }
            _ => panic!("a press did not toggle"),
        }
        assert!(panel.is_hidden());
    }
}

#[test]
fn hotkey_is_polled_every_twenty_milliseconds() {
    assert_eq!(HOTKEY_POLL_INTERVAL_MS, 20);
}
