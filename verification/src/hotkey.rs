//! The hotkey bridge: what an event of the global hotkey does to the
//! panel.
//!
//! The bridge's loop polls the event source at a fixed interval and hands
//! each event to the panel's `on_hotkey`. There is no debouncing: every
//! press is one toggle, so two presses in a row show the panel and hide
//! it again, or the other way round.

use crate::panel::{panel_after, PanelEvent, PanelModel};
use vstd::prelude::*;

verus! {

/// The time between two looks at the hotkey's event source, in
/// milliseconds.
pub const HOTKEY_POLL_INTERVAL_MS: u64 = 20;

/// What happened to the hotkey.
#[derive(Clone, Copy, Debug, PartialEq, Eq)]
pub enum HotkeyState {
    Pressed,
    Released,
}

/// A run of `n` presses, as the panel sees it.
pub open spec fn presses(n: nat) -> Seq<PanelEvent> {
    Seq::new(n, |i: int| PanelEvent::Toggle)
}

/// Every press counts: after an even number of presses the panel is
/// hidden if it was hidden and shown if it was shown, and after an odd
/// number it is the other way round.
pub proof fn lemma_presses_alternate(start: PanelModel, n: nat)
    ensures
        (panel_after(start, presses(n)).shown is None) == (if n % 2 == 0 {
            start.shown is None
        } else {
            start.shown is Some
        }),
    decreases n,
{
    if n > 0 {
        lemma_presses_alternate(start, (n - 1) as nat);
        assert(presses(n).drop_last() =~= presses((n - 1) as nat));
    }
}

} // verus!
