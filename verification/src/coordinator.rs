//! The query coordinator: at most one search in flight, the newest query
//! always wins.
//!
//! The coordinator runs on a background task. Each round it looks once at
//! the query channel, tells its caller which provider search to cancel and
//! which to start, and, once the caller has asked the provider how the
//! search in flight is doing, decides whether there is an answer to send.
//! The provider itself is outside: the caller performs what [`Commands`]
//! says and reports back with a [`PollStatus`].

use crate::channels::{poll_queries, send_reply};
use crate::predicate::{build_predicate, substring_pattern, Predicate, PREDICATE_FORMAT};
use crate::search::{
    items_of, native_views, NativeItem, NativeItemView, SearchItemView, SearchQuery, SearchResponse,
};
use crate::view::ViewRef;
use vstd::prelude::*;

verus! {

/// The time between two rounds of the coordinator, in milliseconds:
/// short, so that an answer is not held back for long, and not zero, so
/// that the task does not spin.
pub const PROVIDER_POLL_INTERVAL_MS: u64 = 10;

/// What one look at the query channel found.
pub enum Incoming {
    /// No query is waiting.
    Idle,
    /// The next query.
    Query(SearchQuery),
    /// The view that owned the sending end is gone.
    Disconnected,
}

/// What an [`Incoming`] holds.
pub enum IncomingView {
    Idle,
    Query { text: Seq<char>, reply: oneshot::Sender<SearchResponse> },
    Disconnected,
}

impl View for Incoming {
    type V = IncomingView;

    open spec fn view(&self) -> IncomingView {
        match *self {
            Incoming::Idle => IncomingView::Idle,
            Incoming::Query(q) => IncomingView::Query { text: q.query@, reply: q.response_tx },
            Incoming::Disconnected => IncomingView::Disconnected,
        }
    }
}

/// What the provider says of a search when it is polled.
pub enum PollStatus {
    /// Still gathering matches.
    Gathering,
    /// The search could not be started or broke off.
    Failed,
    /// Done, with these matches.
    Complete(Vec<NativeItem>),
}

/// What a [`PollStatus`] holds.
pub enum PollView {
    Gathering,
    Failed,
    Complete(Seq<NativeItemView>),
}

impl View for PollStatus {
    type V = PollView;

    open spec fn view(&self) -> PollView {
        match *self {
            PollStatus::Gathering => PollView::Gathering,
            PollStatus::Failed => PollView::Failed,
            PollStatus::Complete(items) => PollView::Complete(native_views(items@)),
        }
    }
}

/// A provider search to start.
pub struct Search {
    /// The handle under which the coordinator will ask for it.
    pub handle: u64,
    pub predicate: Predicate,
}

/// What a [`Search`] holds.
pub struct SearchView {
    pub handle: nat,
    pub format: Seq<char>,
    pub pattern: Seq<char>,
}

impl View for Search {
    type V = SearchView;

    open spec fn view(&self) -> SearchView {
        SearchView {
            handle: self.handle as nat,
            format: self.predicate.format@,
            pattern: self.predicate.pattern@,
        }
    }
}

/// An answer that is ready to go out.
pub struct Reply {
    /// The number of the query that it answers, counted from zero in the
    /// order in which the coordinator accepted them.
    pub ticket: u64,
    pub tx: oneshot::Sender<SearchResponse>,
    pub response: SearchResponse,
}

/// What a [`Reply`] holds.
pub struct ReplyView {
    pub ticket: nat,
    pub tx: oneshot::Sender<SearchResponse>,
    pub response: Seq<SearchItemView>,
}

impl View for Reply {
    type V = ReplyView;

    open spec fn view(&self) -> ReplyView {
        ReplyView { ticket: self.ticket as nat, tx: self.tx, response: self.response@ }
    }
}

impl Reply {
    /// Sends the answer. The send fails when the view has stopped
    /// waiting for it; the answer then comes back as it was.
    pub fn deliver(self) -> (sent: Result<(), SearchResponse>)
        ensures
            sent matches Err(returned) ==> returned == self.response,
    {
        send_reply(self.tx, self.response)
    }
}

/// What the caller is to do after the coordinator looked at the query
/// channel, in this order: cancel, start, send the reply, leave the loop.
pub struct Commands {
    /// The provider search to cancel.
    pub cancel: Option<u64>,
    /// The provider search to start.
    pub start: Option<Search>,
    /// The answer to send: a query without a filter is answered at once.
    pub reply: Option<Reply>,
    /// Whether the coordinator's task is over.
    pub exit: bool,
}

/// What [`Commands`] hold.
pub struct CommandsView {
    pub cancel: Option<nat>,
    pub start: Option<SearchView>,
    pub reply: Option<ReplyView>,
    pub exit: bool,
}

impl View for Commands {
    type V = CommandsView;

    open spec fn view(&self) -> CommandsView {
        CommandsView {
            cancel: match self.cancel {
                Some(handle) => Some(handle as nat),
                None => None,
            },
            start: match self.start {
                Some(search) => Some(search@),
                None => None,
            },
            reply: match self.reply {
                Some(reply) => Some(reply@),
                None => None,
            },
            exit: self.exit,
        }
    }
}

/// The search in flight: its provider handle, which is the ticket of the
/// query that it serves, and where the answer goes.
pub struct Flight {
    pub handle: nat,
    pub reply: oneshot::Sender<SearchResponse>,
}

/// The coordinator as the contracts see it.
pub struct CoordinatorState {
    /// The search in flight, if there is one.
    pub current: Option<Flight>,
    /// How many queries were accepted so far.
    pub accepted: nat,
}

impl CoordinatorState {
    /// A coordinator that has seen no query.
    pub open spec fn init() -> Self {
        CoordinatorState { current: None, accepted: 0 }
    }

    /// The search in flight serves the query that was accepted last.
    pub open spec fn wf(self) -> bool {
        self.current matches Some(flight) ==> flight.handle + 1 == self.accepted
    }

    /// The handle of the search in flight.
    pub open spec fn in_flight(self) -> Option<nat> {
        match self.current {
            Some(flight) => Some(flight.handle),
            None => None,
        }
    }

    /// The state after one look at the query channel. A query replaces
    /// the search in flight; one with an empty text leaves none in flight.
    /// When the view is gone nothing stays in flight.
    pub open spec fn accept(self, incoming: IncomingView) -> Self {
        match incoming {
            IncomingView::Idle => self,
            IncomingView::Query { text, reply } => CoordinatorState {
                current: if text.len() == 0 {
                    None
                } else {
                    Some(Flight { handle: self.accepted, reply })
                },
                accepted: self.accepted + 1,
            },
            IncomingView::Disconnected => CoordinatorState { current: None, accepted: self.accepted },
        }
    }

    /// What the caller is told after one look at the query channel.
    pub open spec fn commands(self, incoming: IncomingView) -> CommandsView {
        match incoming {
            IncomingView::Idle => CommandsView { cancel: None, start: None, reply: None, exit: false },
            IncomingView::Query { text, reply } => CommandsView {
                cancel: self.in_flight(),
                start: if text.len() == 0 {
                    None
                } else {
                    Some(
                        SearchView {
                            handle: self.accepted,
                            format: PREDICATE_FORMAT@,
                            pattern: substring_pattern(text),
                        },
                    )
                },
                reply: if text.len() == 0 {
                    Some(ReplyView { ticket: self.accepted, tx: reply, response: Seq::empty() })
                } else {
                    None
                },
                exit: false,
            },
            IncomingView::Disconnected => CommandsView {
                cancel: self.in_flight(),
                start: None,
                reply: None,
                exit: true,
            },
        }
    }

    /// Whether a poll of `handle` with this status ends the search in
    /// flight: it is the search in flight that was polled, and the
    /// provider is no longer gathering.
    pub open spec fn settles(self, handle: nat, status: PollView) -> bool {
        self.in_flight() == Some(handle) && !(status is Gathering)
    }

    /// The state after the provider was polled.
    pub open spec fn complete(self, handle: nat, status: PollView) -> Self {
        if self.settles(handle, status) {
            CoordinatorState { current: None, accepted: self.accepted }
        } else {
            self
        }
    }

    /// The answer that goes out after the provider was polled: the
    /// matches of the search in flight once it is done, no matches when it
    /// failed, and none while it gathers or when another search was
    /// polled.
    pub open spec fn answer(self, handle: nat, status: PollView) -> Option<ReplyView> {
        if self.settles(handle, status) {
            Some(
                ReplyView {
                    ticket: handle,
                    tx: self.current->0.reply,
                    response: match status {
                        PollView::Complete(items) => items_of(items),
                        _ => Seq::empty(),
                    },
                },
            )
        } else {
            None
        }
    }
}

struct CurrentQuery {
    handle: u64,
    tx: oneshot::Sender<SearchResponse>,
}

/// Takes the search in flight out of its slot.
fn take_current(slot: &mut Option<CurrentQuery>) -> (taken: Option<CurrentQuery>)
    ensures
        taken == *old(slot),
        *final(slot) is None,
    no_unwind
{
    let mut taken = None;
    core::mem::swap(slot, &mut taken);
    taken
}

/// The coordinator's own state, the view that it works for, and the
/// receiving end of the query channel.
pub struct Coordinator {
    owner: ViewRef,
    query_rx: std::sync::mpsc::Receiver<SearchQuery>,
    cur: Option<CurrentQuery>,
    accepted: u64,
}

impl View for Coordinator {
    type V = CoordinatorState;

    closed spec fn view(&self) -> CoordinatorState {
        CoordinatorState {
            current: match self.cur {
                Some(c) => Some(Flight { handle: c.handle as nat, reply: c.tx }),
                None => None,
            },
            accepted: self.accepted as nat,
        }
    }
}

impl Coordinator {
    /// The search in flight serves the query that was accepted last.
    #[verifier::type_invariant]
    spec fn latest_in_flight(&self) -> bool {
        self.cur matches Some(c) ==> c.handle + 1 == self.accepted
    }

    /// The receiving end of the query channel.
    pub closed spec fn inbox(&self) -> std::sync::mpsc::Receiver<SearchQuery> {
        self.query_rx
    }

    /// The view that the coordinator works for.
    pub closed spec fn owner_ref(&self) -> ViewRef {
        self.owner
    }

    /// A coordinator for the view `owner` that reads its queries from
    /// `query_rx` and has seen none yet.
    pub fn new(owner: ViewRef, query_rx: std::sync::mpsc::Receiver<SearchQuery>) -> (coordinator:
        Self)
        ensures
            coordinator@ == CoordinatorState::init(),
            coordinator@.wf(),
            coordinator.owner_ref() == owner,
            coordinator.inbox() == query_rx,
    {
        Coordinator { owner, query_rx, cur: None, accepted: 0 }
    }

    /// The view that the coordinator works for.
    pub fn owner(&self) -> (owner: ViewRef)
        ensures
            owner == self.owner_ref(),
    {
        self.owner
    }

    /// The provider search to poll this round: the one in flight, which
    /// is always the search for the query that was accepted last.
    pub fn poll_target(&self) -> (handle: Option<u64>)
        ensures
            handle is Some <==> self@.current is Some,
            handle matches Some(h) ==> self@.in_flight() == Some(h as nat),
            self@.wf(),
    {
        proof {
            use_type_invariant(self);
        }
        match &self.cur {
            Some(c) => Some(c.handle),
            None => None,
        }
    }

    /// Whether another query can be numbered.
    pub fn has_capacity(&self) -> (room: bool)
        ensures
            room == (self@.accepted < u64::MAX),
    {
        self.accepted < u64::MAX
    }

    /// Takes what one look at the query channel found.
    ///
    /// A query supersedes the search in flight: that search is cancelled
    /// and its reply sender dropped unused. A query with an empty text is
    /// answered "no matches" without a provider search. When the view is
    /// gone the search in flight is cancelled and the task ends.
    pub fn accept(&mut self, incoming: Incoming) -> (commands: Commands)
        requires
            incoming is Query ==> old(self)@.accepted < u64::MAX,
        ensures
            final(self)@ == old(self)@.accept(incoming@),
            commands@ == old(self)@.commands(incoming@),
            final(self)@.wf(),
            final(self).inbox() == old(self).inbox(),
            final(self).owner_ref() == old(self).owner_ref(),
    {
        proof {
            use_type_invariant(&*self);
        }
        match incoming {
            Incoming::Idle => Commands { cancel: None, start: None, reply: None, exit: false },
            Incoming::Disconnected => {
                let cancel = self.poll_target();
                self.cur = None;
                Commands { cancel, start: None, reply: None, exit: true }
            },
            Incoming::Query(query) => {
                let cancel = self.poll_target();
                let ticket = self.accepted;
                self.cur = None;
                self.accepted = ticket + 1;
                let SearchQuery { query: text, response_tx } = query;
                match build_predicate(text.as_str()) {
                    Some(predicate) => {
                        self.cur = Some(CurrentQuery { handle: ticket, tx: response_tx });
                        Commands {
                            cancel,
                            start: Some(Search { handle: ticket, predicate }),
                            reply: None,
                            exit: false,
                        }
                    },
                    None => Commands {
                            cancel,
                            start: None,
                            reply: Some(
                                Reply {
                                    ticket,
                                    tx: response_tx,
                                    response: SearchResponse::empty(),
                                },
                            ),
                            exit: false,
                        },
                }
            },
        }
    }

    /// Looks once at the query channel, without blocking, and takes what
    /// is there. Whatever the channel held, the coordinator has moved as
    /// [`Coordinator::accept`] says for it.
    pub fn drain(&mut self) -> (commands: Commands)
        requires
            old(self)@.accepted < u64::MAX,
        ensures
            exists|incoming: IncomingView|
                final(self)@ == #[trigger] old(self)@.accept(incoming) && commands@ == old(
                    self,
                )@.commands(incoming),
            final(self)@.wf(),
            final(self).inbox() == old(self).inbox(),
            final(self).owner_ref() == old(self).owner_ref(),
    {
        let incoming = poll_queries(&self.query_rx);
        let ghost seen = incoming@;
        let commands = self.accept(incoming);
        assert(self@ == old(self)@.accept(seen));
        commands
    }

    /// The first half of a round. `owner_alive` is what looking up the
    /// coordinator's view found. While the view is there the coordinator
    /// looks at the query channel as [`Coordinator::drain`] says. Once it
    /// is gone the search in flight is cancelled and the task ends, with
    /// no look at the channel.
    pub fn wake(&mut self, owner_alive: bool) -> (commands: Commands)
        requires
            owner_alive ==> old(self)@.accepted < u64::MAX,
        ensures
            owner_alive ==> exists|incoming: IncomingView|
                final(self)@ == #[trigger] old(self)@.accept(incoming) && commands@ == old(
                    self,
                )@.commands(incoming),
            !owner_alive ==> final(self)@ == old(self)@.accept(IncomingView::Disconnected)
                && commands@ == old(self)@.commands(IncomingView::Disconnected),
            final(self)@.wf(),
            final(self).inbox() == old(self).inbox(),
            final(self).owner_ref() == old(self).owner_ref(),
    {
        if owner_alive {
            self.drain()
        } else {
            self.accept(Incoming::Disconnected)
        }
    }

    /// Takes what the provider said of the search `handle`.
    ///
    /// Only the search in flight counts: a status for any other handle
    /// changes nothing and answers nothing. While the provider gathers the
    /// search stays in flight. Once it is done its matches go out as the
    /// answer; a failed search is answered "no matches". Either way
    /// nothing is in flight afterwards.
    pub fn complete(&mut self, handle: u64, status: PollStatus) -> (reply: Option<Reply>)
        ensures
            final(self)@ == old(self)@.complete(handle as nat, status@),
            (match reply {
                Some(r) => Some(r@),
                None => None,
            }) == old(self)@.answer(handle as nat, status@),
            final(self)@.wf(),
            final(self).inbox() == old(self).inbox(),
            final(self).owner_ref() == old(self).owner_ref(),
    {
        proof {
            use_type_invariant(&*self);
        }
        match take_current(&mut self.cur) {
            Some(current) => {
                if current.handle != handle {
                    self.cur = Some(current);
                    return None;
                }
                match status {
                    PollStatus::Gathering => {
                        self.cur = Some(current);
                        None
                    },
                    PollStatus::Failed => Some(
                        Reply { ticket: handle, tx: current.tx, response: SearchResponse::empty() },
                    ),
                    PollStatus::Complete(items) => Some(
                        Reply {
                            ticket: handle,
                            tx: current.tx,
                            response: SearchResponse::from_native(items),
                        },
                    ),
                }
            },
            None => None,
        }
    }
}

} // verus!
