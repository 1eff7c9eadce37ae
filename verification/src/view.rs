//! The view: the input, the cursor, and the answer that is shown.
//!
//! All of the view's state changes on the foreground. Background tasks
//! reach it only through messages: the blink ticker asks the view to flip
//! the cursor and is turned away once the epoch has moved on, and the
//! query coordinator answers on a reply channel that the view polls.

use crate::channels::{enqueue_query, poll_reply_channel, reply_channel};
use crate::epoch::EpochGuard;
use crate::placement::{base_size, expanded_size, Size, BASE_HEIGHT, EXPANDED_HEIGHT, PANEL_WIDTH};
use crate::search::{SearchItemView, SearchQuery, SearchResponse};
use vstd::prelude::*;
use vstd::view::View as _;
use vstd::string::*;

verus! {

/// The key that closes the panel.
pub const CLOSE_KEY: &'static str = "escape";

/// Names one view. A background task keeps the reference of the view that
/// it was started for and is turned away by every other view.
#[derive(Clone, Copy, Debug, PartialEq, Eq)]
pub struct ViewRef {
    pub id: u64,
}

/// What one look at a reply channel found.
pub enum ReplyPoll {
    /// The query is still being worked on.
    Pending,
    /// The reply sender was dropped: a newer query took the place of this
    /// one. That is no error, and there will be no answer.
    Superseded,
    /// The answer.
    Ready(SearchResponse),
}

/// What a [`ReplyPoll`] holds.
pub enum ReplyPollView {
    Pending,
    Superseded,
    Ready(Seq<SearchItemView>),
}

impl vstd::view::View for ReplyPoll {
    type V = ReplyPollView;

    open spec fn view(&self) -> ReplyPollView {
        match *self {
            ReplyPoll::Pending => ReplyPollView::Pending,
            ReplyPoll::Superseded => ReplyPollView::Superseded,
            ReplyPoll::Ready(response) => ReplyPollView::Ready(response@),
        }
    }
}

/// What the view makes of a key press.
#[derive(Clone, Copy, Debug, PartialEq, Eq)]
pub enum KeyAction {
    /// Hide the panel.
    Close,
    /// Not the view's business.
    Ignore,
}

/// The view as the contracts see it.
pub struct ViewState {
    pub id: ViewRef,
    /// The content of the input.
    pub input: Seq<char>,
    /// The blink epoch.
    pub epoch: nat,
    pub cursor_visible: bool,
    /// The matches on display.
    pub results: Seq<SearchItemView>,
    /// The index of the selected match.
    pub selected: nat,
    /// Where the answer to the latest query is expected.
    pub pending: Option<oneshot::Receiver<SearchResponse>>,
    /// The sending end of the query channel.
    pub outbox: std::sync::mpsc::Sender<SearchQuery>,
}

impl ViewState {
    /// A new view: empty input, epoch zero, cursor visible, nothing
    /// shown and nothing asked.
    pub open spec fn fresh(id: ViewRef, outbox: std::sync::mpsc::Sender<SearchQuery>) -> Self {
        ViewState {
            id,
            input: Seq::empty(),
            epoch: 0,
            cursor_visible: true,
            results: Seq::empty(),
            selected: 0,
            pending: None,
            outbox,
        }
    }

    /// The extent that the window should have: the base size while the
    /// input is empty, the expanded size while it holds text.
    pub open spec fn window_size(self) -> Size {
        if self.input.len() == 0 {
            base_size()
        } else {
            expanded_size()
        }
    }

    /// The view after the cursor was reset: it is visible, and the epoch
    /// has moved on.
    pub open spec fn with_cursor_reset(self) -> Self {
        ViewState { epoch: self.epoch + 1, cursor_visible: true, ..self }
    }

    /// The view after the input changed: it holds the new text, and the
    /// cursor was reset.
    pub open spec fn with_content(self, text: Seq<char>) -> Self {
        ViewState { input: text, ..self.with_cursor_reset() }
    }

    /// The view once it waits for an answer on `rx`.
    pub open spec fn awaiting(self, rx: oneshot::Receiver<SearchResponse>) -> Self {
        ViewState { pending: Some(rx), ..self }
    }

    /// The view after one look at the reply channel: an answer is put on
    /// display with its first match selected; a superseded query is
    /// forgotten and what was on display stays; a pending one changes
    /// nothing.
    pub open spec fn after_reply(self, outcome: ReplyPollView) -> Self {
        match outcome {
            ReplyPollView::Pending => self,
            ReplyPollView::Superseded => ViewState { pending: None, ..self },
            ReplyPollView::Ready(results) => ViewState {
                results,
                selected: 0,
                pending: None,
                ..self
            },
        }
    }

    /// The view after a blink ticker that recorded `captured` asked for a
    /// flip: the cursor flips if that is still the epoch, else nothing
    /// changes.
    pub open spec fn blinked(self, captured: nat) -> Self {
        if self.epoch == captured {
            ViewState { cursor_visible: !self.cursor_visible, ..self }
        } else {
            self
        }
    }
}

/// One thing that happens to a view.
pub enum ViewEvent {
    /// A keystroke left the input with this content.
    ContentChanged(Seq<char>),
    /// The cursor was reset.
    CursorReset,
    /// A query was submitted; its answer is expected here.
    Awaiting(oneshot::Receiver<SearchResponse>),
    /// The reply channel was looked at.
    Reply(ReplyPollView),
    /// A blink ticker that recorded this epoch asked for a flip.
    Blink(nat),
}

impl ViewState {
    /// The view after an event.
    pub open spec fn apply(self, event: ViewEvent) -> Self {
        match event {
            ViewEvent::ContentChanged(text) => self.with_content(text),
            ViewEvent::CursorReset => self.with_cursor_reset(),
            ViewEvent::Awaiting(rx) => self.awaiting(rx),
            ViewEvent::Reply(outcome) => self.after_reply(outcome),
            ViewEvent::Blink(captured) => self.blinked(captured),
        }
    }
}

/// The view after a sequence of events.
pub open spec fn view_after(start: ViewState, events: Seq<ViewEvent>) -> ViewState
    decreases events.len(),
{
    if events.len() == 0 {
        start
    } else {
        view_after(start, events.drop_last()).apply(events.last())
    }
}

/// The blink epoch never decreases over the life of a view: whatever
/// happens to the view, a later epoch is at least an earlier one.
pub proof fn lemma_epoch_never_decreases(start: ViewState, events: Seq<ViewEvent>, i: int, j: int)
    requires
        0 <= i <= j <= events.len(),
    ensures
        view_after(start, events.take(i)).epoch <= view_after(start, events.take(j)).epoch,
    decreases j - i,
{
    if i < j {
        lemma_epoch_never_decreases(start, events, i, j - 1);
        assert(events.take(j).drop_last() =~= events.take(j - 1));
    }
}

/// Every keystroke and every cursor reset moves the epoch on.
pub proof fn lemma_keystroke_moves_epoch(view: ViewState, event: ViewEvent)
    requires
        event is ContentChanged || event is CursorReset,
    ensures
        view.apply(event).epoch == view.epoch + 1,
        view.apply(event).cursor_visible,
{
}

/// The view of the panel.
pub struct View {
    id: ViewRef,
    cur_idx: usize,
    input: String,
    blink_epoch: EpochGuard,
    cursor_visible: bool,
    results: SearchResponse,
    pending: Option<oneshot::Receiver<SearchResponse>>,
    query_tx: std::sync::mpsc::Sender<SearchQuery>,
}

impl vstd::view::View for View {
    type V = ViewState;

    closed spec fn view(&self) -> ViewState {
        ViewState {
            id: self.id,
            input: self.input@,
            epoch: self.blink_epoch@,
            cursor_visible: self.cursor_visible,
            results: self.results@,
            selected: self.cur_idx as nat,
            pending: self.pending,
            outbox: self.query_tx,
        }
    }
}

impl View {
    /// A new view that submits its queries on `query_tx`.
    pub fn new(id: ViewRef, query_tx: std::sync::mpsc::Sender<SearchQuery>) -> (view: Self)
        ensures
            view@ == ViewState::fresh(id, query_tx),
    {
        View {
            id,
            cur_idx: 0,
            input: String::new(),
            blink_epoch: EpochGuard::new(),
            cursor_visible: true,
            results: SearchResponse::empty(),
            pending: None,
            query_tx,
        }
    }

    /// The view's reference.
    pub fn id(&self) -> (id: ViewRef)
        ensures
            id == self@.id,
    {
        self.id
    }

    /// The content of the input.
    pub fn content(&self) -> (text: &str)
        ensures
            text@ == self@.input,
    {
        self.input.as_str()
    }

    /// Whether the input is empty.
    pub fn is_input_empty(&self) -> (empty: bool)
        ensures
            empty == (self@.input.len() == 0),
    {
        self.input.as_str().is_empty()
    }

    /// The blink epoch.
    pub fn blink_epoch(&self) -> (epoch: u64)
        ensures
            epoch as nat == self@.epoch,
    {
        self.blink_epoch.current()
    }

    /// Whether the cursor is drawn.
    pub fn cursor_visible(&self) -> (visible: bool)
        ensures
            visible == self@.cursor_visible,
    {
        self.cursor_visible
    }

    /// The matches on display.
    pub fn results(&self) -> (results: &SearchResponse)
        ensures
            results@ == self@.results,
    {
        &self.results
    }

    /// The index of the selected match.
    pub fn selected(&self) -> (index: usize)
        ensures
            index as nat == self@.selected,
    {
        self.cur_idx
    }

    /// Whether the view waits for an answer.
    pub fn is_waiting(&self) -> (waiting: bool)
        ensures
            waiting == (self@.pending is Some),
    {
        self.pending.is_some()
    }

    /// Whether the epoch can move on once more.
    pub fn can_advance(&self) -> (room: bool)
        ensures
            room == (self@.epoch < u64::MAX),
    {
        self.blink_epoch.can_bump()
    }

    /// The extent that the window should have.
    pub fn window_size(&self) -> (size: Size)
        ensures
            size == self@.window_size(),
    {
        if self.is_input_empty() {
            Size { width: PANEL_WIDTH, height: BASE_HEIGHT }
        } else {
            Size { width: PANEL_WIDTH, height: EXPANDED_HEIGHT }
        }
    }

    /// Shows the cursor and moves the epoch on, so that no blink that was
    /// scheduled before lands after this.
    pub fn reset_cursor(&mut self)
        requires
            old(self)@.epoch < u64::MAX,
        ensures
            final(self)@ == old(self)@.with_cursor_reset(),
            final(self)@.epoch > old(self)@.epoch,
    {
        self.blink_epoch.bump();
        self.cursor_visible = true;
    }

    /// Takes the new content of the input after a keystroke, resets the
    /// cursor, and returns the extent that the window should now have.
    pub fn set_content(&mut self, text: String) -> (size: Size)
        requires
            old(self)@.epoch < u64::MAX,
        ensures
            final(self)@ == old(self)@.with_content(text@),
            final(self)@.epoch > old(self)@.epoch,
            size == final(self)@.window_size(),
    {
        self.input = text;
        self.reset_cursor();
        self.window_size()
    }

    /// Makes the query for the current input, to be answered on `tx`, and
    /// from now on waits for the answer on `rx`. An older answer that was
    /// still awaited is given up.
    pub fn prepare_query(
        &mut self,
        tx: oneshot::Sender<SearchResponse>,
        rx: oneshot::Receiver<SearchResponse>,
    ) -> (query: SearchQuery)
        ensures
            query.query@ == old(self)@.input,
            query.response_tx == tx,
            final(self)@ == old(self)@.awaiting(rx),
    {
        self.pending = Some(rx);
        SearchQuery { query: self.input.clone(), response_tx: tx }
    }

    /// Submits the current input as a query: opens a fresh reply channel,
    /// queues the query for the coordinator and waits for the answer on
    /// the new channel. Returns whether the query was queued; it is not
    /// when the coordinator is gone.
    pub fn submit(&mut self) -> (queued: bool)
        ensures
            final(self)@.pending is Some,
            final(self)@ == old(self)@.awaiting(final(self)@.pending->0),
    {
        let (tx, rx) = reply_channel();
        let query = self.prepare_query(tx, rx);
        enqueue_query(&self.query_tx, query)
    }

    /// Takes the new content of the input and submits it as a query.
    /// Returns the extent that the window should now have.
    pub fn on_content_changed(&mut self, text: String) -> (size: Size)
        requires
            old(self)@.epoch < u64::MAX,
        ensures
            final(self)@.pending is Some,
            final(self)@ == old(self)@.with_content(text@).awaiting(final(self)@.pending->0),
            final(self)@.epoch > old(self)@.epoch,
            size == final(self)@.window_size(),
    {
        let size = self.set_content(text);
        let _ = self.submit();
        size
    }

    /// Takes what one look at the reply channel found. Returns whether
    /// the matches on display were replaced, so that the view is to be
    /// drawn again.
    pub fn apply_reply(&mut self, outcome: ReplyPoll) -> (redraw: bool)
        ensures
            final(self)@ == old(self)@.after_reply(outcome@),
            final(self)@.epoch == old(self)@.epoch,
            redraw == (outcome is Ready),
    {
        match outcome {
            ReplyPoll::Pending => false,
            ReplyPoll::Superseded => {
                self.pending = None;
                false
            },
            ReplyPoll::Ready(response) => {
                self.results = response;
                self.cur_idx = 0;
                self.pending = None;
                true
            },
        }
    }

    /// Looks once, without blocking, whether the awaited answer has come,
    /// and takes it if so. A view that awaits nothing stays as it is.
    /// Returns whether the view is to be drawn again.
    pub fn poll_reply(&mut self) -> (redraw: bool)
        ensures
            old(self)@.pending is None ==> final(self)@ == old(self)@ && !redraw,
            old(self)@.pending is Some ==> exists|outcome: ReplyPollView|
                final(self)@ == #[trigger] old(self)@.after_reply(outcome) && redraw == (outcome
                    is Ready),
            final(self)@.epoch == old(self)@.epoch,
    {
        let outcome = match &self.pending {
            Some(rx) => poll_reply_channel(rx),
            None => {
                return false;
            },
        };
        let ghost seen = outcome@;
        let redraw = self.apply_reply(outcome);
        assert(self@ == old(self)@.after_reply(seen));
        redraw
    }

    /// Flips the cursor for a blink ticker that recorded the epoch
    /// `captured`, if that is still the epoch. Returns whether it
    /// flipped.
    pub fn blink(&mut self, captured: u64) -> (flipped: bool)
        ensures
            final(self)@ == old(self)@.blinked(captured as nat),
            final(self)@.epoch == old(self)@.epoch,
            flipped == (old(self)@.epoch == captured),
    {
        if self.blink_epoch.is_current(captured) {
            self.cursor_visible = !self.cursor_visible;
            true
        } else {
            false
        }
    }

    /// What a key press means to the view: the close key hides the
    /// panel, every other key is left to the input.
    pub fn on_key_down(&self, key: &str) -> (action: KeyAction)
        ensures
            action is Close <==> key@ == CLOSE_KEY@,
    {
        if String::from_str(key) == String::from_str(CLOSE_KEY) {
            KeyAction::Close
        } else {
            KeyAction::Ignore
        }
    }
}

} // verus!
