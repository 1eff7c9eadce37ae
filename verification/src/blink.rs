//! The blink ticker: a periodic task that flips the cursor of the view it
//! was started for, until the view's epoch moves on or the view is gone.
//!
//! The ticker records the view's epoch when it starts. At every wake it
//! compares; a mismatch means that the user has typed or the cursor was
//! reset since, and the ticker stops for good. It does not try again.

use crate::view::{lemma_epoch_never_decreases, view_after, View, ViewEvent, ViewRef, ViewState};
use vstd::prelude::*;
use vstd::view::View as _;

verus! {

/// The time between two wakes of a blink ticker, in milliseconds.
pub const BLINK_INTERVAL_MS: u64 = 500;

/// What a wake of the ticker came to.
#[derive(Clone, Copy, Debug, PartialEq, Eq)]
pub enum TickOutcome {
    /// The cursor was flipped: draw the view again and sleep once more.
    Toggled,
    /// The ticker is done: leave its loop.
    Retired,
}

/// The ticker as the contracts see it.
pub struct TickerState {
    /// The view that the ticker was started for.
    pub owner: ViewRef,
    /// That view's epoch at the time.
    pub captured: nat,
    /// Whether the ticker has stopped.
    pub retired: bool,
}

impl TickerState {
    /// Whether a wake with this view flips its cursor: the ticker has not
    /// stopped, the view is its own, and the epoch is the recorded one.
    pub open spec fn applies_to(self, view: ViewState) -> bool {
        !self.retired && view.id == self.owner && view.epoch == self.captured
    }

    /// Whether a wake flips a cursor, given the view that was found, if
    /// any.
    pub open spec fn fires(self, found: Option<ViewState>) -> bool {
        found matches Some(view) && self.applies_to(view)
    }
}

/// Once a ticker's recorded epoch has been left behind, the ticker never
/// flips the cursor again: whatever happens to the view afterwards, a
/// wake leaves the view as it is.
///
/// `start` is the view at or after the time the ticker recorded its
/// epoch; step `i` is when the mismatch shows, step `j` any later time.
pub proof fn lemma_stale_ticker_never_flips(
    ticker: TickerState,
    start: ViewState,
    events: Seq<ViewEvent>,
    i: int,
    j: int,
)
    requires
        ticker.captured <= start.epoch,
        0 <= i <= j <= events.len(),
        view_after(start, events.take(i)).epoch != ticker.captured,
    ensures
        !ticker.applies_to(view_after(start, events.take(j))),
        view_after(start, events.take(j)).blinked(ticker.captured) == view_after(
            start,
            events.take(j),
        ),
{
    lemma_epoch_never_decreases(start, events, 0, i);
    lemma_epoch_never_decreases(start, events, i, j);
    assert(events.take(0) =~= Seq::<ViewEvent>::empty());
}

/// A ticker that has stopped stays stopped and flips nothing, whatever
/// view it is woken with.
pub proof fn lemma_retired_is_final(ticker: TickerState, found: Option<ViewState>)
    requires
        ticker.retired,
    ensures
        !ticker.fires(found),
{
}

/// A blink ticker.
pub struct BlinkTicker {
    owner: ViewRef,
    captured: u64,
    retired: bool,
}

impl vstd::view::View for BlinkTicker {
    type V = TickerState;

    closed spec fn view(&self) -> TickerState {
        TickerState { owner: self.owner, captured: self.captured as nat, retired: self.retired }
    }
}

impl BlinkTicker {
    /// A ticker for `view`, with the view's current epoch recorded.
    pub fn spawn(view: &View) -> (ticker: Self)
        ensures
            ticker@ == (TickerState { owner: view@.id, captured: view@.epoch, retired: false }),
    {
        BlinkTicker { owner: view.id(), captured: view.blink_epoch(), retired: false }
    }

    /// The view that the ticker was started for.
    pub fn owner(&self) -> (owner: ViewRef)
        ensures
            owner == self@.owner,
    {
        self.owner
    }

    /// The epoch that the ticker recorded.
    pub fn captured(&self) -> (epoch: u64)
        ensures
            epoch as nat == self@.captured,
    {
        self.captured
    }

    /// Whether the ticker has stopped.
    pub fn is_retired(&self) -> (retired: bool)
        ensures
            retired == self@.retired,
    {
        self.retired
    }

    /// One wake. `view` is what looking up the ticker's view found:
    /// `None` when the view is gone.
    ///
    /// The cursor is flipped if the ticker is still running, the view is
    /// the ticker's own and its epoch is the recorded one. In every other
    /// case the view is left exactly as it was and the ticker has stopped.
    pub fn wake(&mut self, view: Option<&mut View>) -> (outcome: TickOutcome)
        ensures
            final(self)@ == (TickerState {
                retired: !old(self)@.fires(
                    match view {
                        Some(v) => Some(v@),
                        None => None,
                    },
                ),
                ..old(self)@
            }),
            outcome is Toggled <==> !final(self)@.retired,
            view matches Some(v) ==> final(v)@ == (if old(self)@.applies_to(v@) {
                v@.blinked(old(self)@.captured)
            } else {
                v@
            }),
    {
        if !self.retired {
            if let Some(v) = view {
                if v.id().id == self.owner.id && v.blink(self.captured) {
                    return TickOutcome::Toggled;
                }
            }
        }
        self.retired = true;
        TickOutcome::Retired
    }
}

} // verus!
