//! The panel's lifecycle: hidden or shown, flipped by the hotkey, hidden by
//! the close key or when the window loses its activation.
//!
//! Showing never reveals an old window. Every show makes a new window, a
//! new view, a new query coordinator and a new blink ticker, so nothing
//! that ran for an earlier window can touch the new one.

use crate::blink::{BlinkTicker, TickerState};
use crate::channels::query_channel;
use crate::coordinator::{Coordinator, CoordinatorState, IncomingView};
use crate::hotkey::HotkeyState;
use crate::placement::{place, placement_for, Display, Placement, Point};
use crate::search::SearchQuery;
use crate::view::{View, ViewRef, ViewState};
use vstd::prelude::*;
use vstd::view::View as _;

verus! {

/// Names one window.
#[derive(Clone, Copy, Debug, PartialEq, Eq)]
pub struct WindowRef {
    pub id: u64,
}

/// Whether the panel is on screen, and if so with which window and view.
#[derive(Clone, Copy, Debug, PartialEq, Eq)]
pub enum PanelState {
    Hidden,
    Shown(WindowRef, ViewRef),
}

/// The panel as the contracts see it.
pub struct PanelModel {
    /// The number of the window on screen, if there is one.
    pub shown: Option<nat>,
    /// How many windows were opened so far. Windows are numbered in the
    /// order of their opening, from zero.
    pub opened: nat,
}

impl PanelModel {
    /// The panel at start: hidden, no window opened yet.
    pub open spec fn init() -> Self {
        PanelModel { shown: None, opened: 0 }
    }

    /// The window on screen is one that was opened.
    pub open spec fn wf(self) -> bool {
        self.shown matches Some(id) ==> id < self.opened
    }

    /// Whether the window with this number is on screen. A background
    /// task may go on only while the window it was started for is.
    pub open spec fn is_live(self, id: nat) -> bool {
        self.shown == Some(id)
    }

    /// The panel after a show: a window with the next number is on
    /// screen.
    pub open spec fn after_show(self) -> Self {
        PanelModel { shown: Some(self.opened), opened: self.opened + 1 }
    }

    /// The panel after a hide: nothing is on screen.
    pub open spec fn after_hide(self) -> Self {
        PanelModel { shown: None, opened: self.opened }
    }

    /// The panel after a toggle: hidden if it was shown, shown if it was
    /// hidden.
    pub open spec fn after_toggle(self) -> Self {
        if self.shown is Some {
            self.after_hide()
        } else {
            self.after_show()
        }
    }
}

/// What a show hands to its caller: where to open the window, the view to
/// put into it, and the two background tasks to start for it.
pub struct Launch {
    pub window: WindowRef,
    pub placement: Placement,
    pub view: View,
    pub coordinator: Coordinator,
    pub ticker: BlinkTicker,
}

impl Launch {
    /// Whether this is what a show hands out for the window numbered
    /// `id`: the window carries that number and is placed under the
    /// pointer, the view is new and carries the window's number, the
    /// coordinator has seen no query and works for that view, and the
    /// ticker runs for that view on epoch zero.
    pub open spec fn is_fresh(self, id: nat, pointer: Point, displays: Seq<Display>) -> bool {
        &&& self.window.id as nat == id
        &&& self.placement == placement_for(pointer, displays)
        &&& self.view@ == ViewState::fresh(ViewRef { id: self.window.id }, self.view@.outbox)
        &&& self.coordinator@ == CoordinatorState::init()
        &&& self.coordinator.owner_ref() == (ViewRef { id: self.window.id })
        &&& self.ticker@ == (TickerState {
            owner: ViewRef { id: self.window.id },
            captured: 0,
            retired: false,
        })
    }
}

/// What a toggle did.
pub enum Toggled {
    /// The panel was hidden and is now shown.
    Opened(Launch),
    /// The panel was shown and is now hidden: tear this window down, with
    /// its view.
    Closed(WindowRef),
}

/// The panel.
pub struct Panel {
    state: PanelState,
    opened: u64,
}

impl vstd::view::View for Panel {
    type V = PanelModel;

    closed spec fn view(&self) -> PanelModel {
        PanelModel {
            shown: match self.state {
                PanelState::Shown(window, _) => Some(window.id as nat),
                PanelState::Hidden => None,
            },
            opened: self.opened as nat,
        }
    }
}

impl Panel {
    /// In a shown panel the window and the view carry the same number,
    /// and it is the number of a window that was opened.
    #[verifier::type_invariant]
    spec fn paired(&self) -> bool {
        self.state matches PanelState::Shown(window, view) ==> window.id == view.id && window.id
            < self.opened
    }

    /// A hidden panel that has opened no window yet.
    pub fn new() -> (panel: Self)
        ensures
            panel@ == PanelModel::init(),
            panel@.wf(),
    {
        Panel { state: PanelState::Hidden, opened: 0 }
    }

    /// The panel's state.
    pub fn state(&self) -> (state: PanelState)
        ensures
            state is Hidden <==> self@.shown is None,
            state matches PanelState::Shown(window, view) ==> self@.shown == Some(window.id as nat)
                && view.id == window.id,
            self@.wf(),
    {
        proof {
            use_type_invariant(self);
        }
        self.state
    }

    /// Whether the panel is hidden.
    pub fn is_hidden(&self) -> (hidden: bool)
        ensures
            hidden == (self@.shown is None),
    {
        match self.state {
            PanelState::Hidden => true,
            PanelState::Shown(_, _) => false,
        }
    }

    /// Whether another window can be numbered.
    pub fn can_open(&self) -> (room: bool)
        ensures
            room == (self@.opened < u64::MAX),
    {
        self.opened < u64::MAX
    }

    /// Whether `view` is the view on screen. This is the lookup that a
    /// background task makes at every wake: once it fails, the task's view
    /// is gone and the task ends.
    pub fn is_live(&self, view: ViewRef) -> (live: bool)
        ensures
            live == self@.is_live(view.id as nat),
            self@.wf(),
    {
        proof {
            use_type_invariant(self);
        }
        match self.state {
            PanelState::Shown(window, _) => window.id == view.id,
            PanelState::Hidden => false,
        }
    }

    /// Shows the panel with a view that submits on `query_tx` and a
    /// coordinator that reads from `query_rx`: numbers a new window, places
    /// it on the display under the pointer, and makes the view, the
    /// coordinator and a blink ticker on the view's first epoch.
    pub fn show_with(
        &mut self,
        pointer: Point,
        displays: &Vec<Display>,
        query_tx: std::sync::mpsc::Sender<SearchQuery>,
        query_rx: std::sync::mpsc::Receiver<SearchQuery>,
    ) -> (launch: Launch)
        requires
            old(self)@.shown is None,
            old(self)@.opened < u64::MAX,
        ensures
            final(self)@ == old(self)@.after_show(),
            final(self)@.wf(),
            launch.is_fresh(old(self)@.opened, pointer, displays@),
            launch.view@.outbox == query_tx,
            launch.coordinator.inbox() == query_rx,
    {
        let id = self.opened;
        let window = WindowRef { id };
        let view_ref = ViewRef { id };
        let view = View::new(view_ref, query_tx);
        let ticker = BlinkTicker::spawn(&view);
        let coordinator = Coordinator::new(view_ref, query_rx);
        let placement = place(pointer, displays);
        self.opened = id + 1;
        self.state = PanelState::Shown(window, view_ref);
        Launch { window, placement, view, coordinator, ticker }
    }

    /// Shows the panel: opens a new query channel and shows the panel
    /// with its two ends, as [`Panel::show_with`] says. Every show is a
    /// full reconstruction: nothing of an earlier window is used again.
    pub fn show(&mut self, pointer: Point, displays: &Vec<Display>) -> (launch: Launch)
        requires
            old(self)@.shown is None,
            old(self)@.opened < u64::MAX,
        ensures
            final(self)@ == old(self)@.after_show(),
            final(self)@.wf(),
            launch.is_fresh(old(self)@.opened, pointer, displays@),
    {
        let (query_tx, query_rx) = query_channel();
        self.show_with(pointer, displays, query_tx, query_rx)
    }

    /// Hides the panel. Returns the window to tear down, with its view;
    /// a hidden panel stays hidden and has none.
    pub fn hide_window(&mut self) -> (closed: Option<WindowRef>)
        ensures
            final(self)@ == old(self)@.after_hide(),
            final(self)@.wf(),
            (match closed {
                Some(window) => Some(window.id as nat),
                None => None,
            }) == old(self)@.shown,
    {
        proof {
            use_type_invariant(&*self);
        }
        let closed = match self.state {
            PanelState::Shown(window, _) => Some(window),
            PanelState::Hidden => None,
        };
        self.state = PanelState::Hidden;
        closed
    }

    /// Flips the panel: hides it if it is shown, shows it if it is hidden.
    pub fn toggle(&mut self, pointer: Point, displays: &Vec<Display>) -> (toggled: Toggled)
        requires
            old(self)@.shown is None ==> old(self)@.opened < u64::MAX,
        ensures
            final(self)@ == old(self)@.after_toggle(),
            final(self)@.wf(),
            toggled is Closed <==> old(self)@.shown is Some,
            toggled matches Toggled::Closed(window) ==> old(self)@.shown == Some(window.id as nat),
            toggled matches Toggled::Opened(launch) ==> launch.is_fresh(
                old(self)@.opened,
                pointer,
                displays@,
            ),
    {
        match self.hide_window() {
            Some(window) => Toggled::Closed(window),
            None => Toggled::Opened(self.show(pointer, displays)),
        }
    }

    /// Takes one event of the hotkey: a press toggles the panel, a
    /// release does nothing.
    pub fn on_hotkey(
        &mut self,
        state: HotkeyState,
        pointer: Point,
        displays: &Vec<Display>,
    ) -> (toggled: Option<Toggled>)
        requires
            state is Pressed && old(self)@.shown is None ==> old(self)@.opened < u64::MAX,
        ensures
            toggled is Some <==> state is Pressed,
            final(self)@ == (if state is Pressed {
                old(self)@.after_toggle()
            } else {
                old(self)@
            }),
            final(self)@.wf(),
            toggled matches Some(Toggled::Closed(window)) ==> old(self)@.shown == Some(
                window.id as nat,
            ),
            toggled matches Some(Toggled::Opened(launch)) ==> old(self)@.shown is None
                && launch.is_fresh(old(self)@.opened, pointer, displays@),
    {
        proof {
            use_type_invariant(&*self);
        }
        match state {
            HotkeyState::Pressed => Some(self.toggle(pointer, displays)),
            HotkeyState::Released => None,
        }
    }

    /// The window lost its activation: the panel hides if that window is
    /// the one on screen. Word from a window that was closed before
    /// changes nothing.
    pub fn on_deactivated(&mut self, window: WindowRef) -> (closed: bool)
        ensures
            closed == old(self)@.is_live(window.id as nat),
            final(self)@ == (if closed {
                old(self)@.after_hide()
            } else {
                old(self)@
            }),
            final(self)@.wf(),
    {
        proof {
            use_type_invariant(&*self);
        }
        let live = match self.state {
            PanelState::Shown(current, _) => current.id == window.id,
            PanelState::Hidden => false,
        };
        if live {
            self.state = PanelState::Hidden;
        }
        live
    }
}

/// One thing that happens to the panel.
pub enum PanelEvent {
    Show,
    Hide,
    Toggle,
}

impl PanelModel {
    /// The panel after an event.
    pub open spec fn apply(self, event: PanelEvent) -> Self {
        match event {
            PanelEvent::Show => self.after_show(),
            PanelEvent::Hide => self.after_hide(),
            PanelEvent::Toggle => self.after_toggle(),
        }
    }
}

/// The panel after a sequence of events.
pub open spec fn panel_after(start: PanelModel, events: Seq<PanelEvent>) -> PanelModel
    decreases events.len(),
{
    if events.len() == 0 {
        start
    } else {
        panel_after(start, events.drop_last()).apply(events.last())
    }
}

/// Whatever happens to a panel, the window on screen is one that was
/// opened, and the count of opened windows does not go down.
pub proof fn lemma_panel_stays_wf(start: PanelModel, events: Seq<PanelEvent>)
    requires
        start.wf(),
    ensures
        panel_after(start, events).wf(),
        start.opened <= panel_after(start, events).opened,
    decreases events.len(),
{
    if events.len() > 0 {
        lemma_panel_stays_wf(start, events.drop_last());
    }
}

/// Two toggles bring the panel back to where it was: a hidden panel is
/// hidden again, a shown one is shown again. From hidden, the window that
/// was on screen in between is gone.
pub proof fn lemma_toggle_twice(panel: PanelModel)
    requires
        panel.wf(),
    ensures
        panel.after_toggle().after_toggle().shown is None <==> panel.shown is None,
        panel.shown is None ==> panel.after_toggle().is_live(panel.opened) && !panel.after_toggle().after_toggle().is_live(
            panel.opened,
        ),
{
}

/// What a background task finds when it looks up its view: the view, if
/// it is the one on screen, else nothing.
pub open spec fn lookup(panel: PanelModel, view: ViewState) -> Option<ViewState> {
    if panel.is_live(view.id.id as nat) {
        Some(view)
    } else {
        None
    }
}

/// After a hide no window is on screen: every background task finds its
/// view gone at its next wake.
pub proof fn lemma_hide_orphans_all(panel: PanelModel, id: nat)
    ensures
        !panel.after_hide().is_live(id),
{
}

/// After a hide both background tasks end at their next wake, whatever
/// state they are in: the blink ticker flips nothing and has stopped, and
/// the coordinator cancels the search in flight, keeps nothing in flight
/// and leaves its loop.
pub proof fn lemma_tasks_end_after_hide(
    panel: PanelModel,
    view: ViewState,
    ticker: TickerState,
    coordinator: CoordinatorState,
)
    ensures
        lookup(panel.after_hide(), view) is None,
        !ticker.fires(lookup(panel.after_hide(), view)),
        coordinator.commands(IncomingView::Disconnected).exit,
        coordinator.commands(IncomingView::Disconnected).cancel == coordinator.in_flight(),
        coordinator.accept(IncomingView::Disconnected).current is None,
{
}

/// A window that was closed never comes back: whatever happens to the
/// panel afterwards, the tasks that were started for it find their view
/// gone. A later show opens a window with a new number.
pub proof fn lemma_closed_stays_closed(start: PanelModel, events: Seq<PanelEvent>, id: nat)
    requires
        start.wf(),
        id < start.opened,
        !start.is_live(id),
    ensures
        !panel_after(start, events).is_live(id),
    decreases events.len(),
{
    if events.len() > 0 {
        lemma_closed_stays_closed(start, events.drop_last(), id);
        lemma_panel_stays_wf(start, events.drop_last());
    }
}

} // verus!
