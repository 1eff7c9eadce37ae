//! What holds of every run of the query coordinator.
//!
//! A run is the sequence of what the coordinator was given, round after
//! round: what it found on the query channel and what the provider said
//! when polled. The lemmas here speak of all such sequences, whatever the
//! view submits and however the provider behaves.

use crate::coordinator::{CoordinatorState, IncomingView, PollView, ReplyView};
use crate::search::SearchResponse;
use vstd::prelude::*;

verus! {

/// One thing given to the coordinator.
pub enum Event {
    /// One look at the query channel.
    Drained(IncomingView),
    /// The provider's word on the search with this handle.
    Polled(nat, PollView),
}

/// A query as it was submitted.
pub struct Submitted {
    pub text: Seq<char>,
    pub reply: oneshot::Sender<SearchResponse>,
}

/// The coordinator's state after an event.
pub open spec fn step(state: CoordinatorState, event: Event) -> CoordinatorState {
    match event {
        Event::Drained(incoming) => state.accept(incoming),
        Event::Polled(handle, status) => state.complete(handle, status),
    }
}

/// The answer that an event makes the coordinator send.
pub open spec fn reply_of(state: CoordinatorState, event: Event) -> Option<ReplyView> {
    match event {
        Event::Drained(incoming) => state.commands(incoming).reply,
        Event::Polled(handle, status) => state.answer(handle, status),
    }
}

/// The coordinator's state after a run from the initial state.
pub open spec fn run(events: Seq<Event>) -> CoordinatorState
    decreases events.len(),
{
    if events.len() == 0 {
        CoordinatorState::init()
    } else {
        step(run(events.drop_last()), events.last())
    }
}

/// The queries submitted during a run, in order. The ticket of a query
/// is its index here.
pub open spec fn queries(events: Seq<Event>) -> Seq<Submitted>
    decreases events.len(),
{
    if events.len() == 0 {
        Seq::empty()
    } else {
        let before = queries(events.drop_last());
        match events.last() {
            Event::Drained(IncomingView::Query { text, reply }) => before.push(
                Submitted { text, reply },
            ),
            _ => before,
        }
    }
}

/// The answer sent at step `i` of a run.
pub open spec fn reply_at(events: Seq<Event>, i: int) -> Option<ReplyView> {
    reply_of(run(events.take(i)), events[i])
}

/// One more than the ticket answered last, or zero when nothing was
/// answered yet.
pub open spec fn answered(events: Seq<Event>) -> nat
    decreases events.len(),
{
    if events.len() == 0 {
        0
    } else {
        match reply_of(run(events.drop_last()), events.last()) {
            Some(reply) => reply.ticket + 1,
            None => answered(events.drop_last()),
        }
    }
}

/// The ticket that the next answer would carry if nothing else were
/// submitted first.
pub open spec fn open_ticket(state: CoordinatorState) -> nat {
    match state.current {
        Some(flight) => flight.handle,
        None => state.accepted,
    }
}

/// After every run the coordinator has counted the queries submitted,
/// the search in flight serves the last of them and answers on its
/// sender, and no ticket at or above the open one has been answered.
pub proof fn lemma_run_invariant(events: Seq<Event>)
    ensures
        run(events).wf(),
        run(events).accepted == queries(events).len(),
        run(events).current matches Some(flight) ==> queries(events).len() > 0 && flight.reply
            == queries(events).last().reply,
        answered(events) <= open_ticket(run(events)),
    decreases events.len(),
{
    if events.len() > 0 {
        lemma_run_invariant(events.drop_last());
    }
}

/// Cutting a run one step later appends that step.
proof fn lemma_take_next(events: Seq<Event>, i: int)
    requires
        0 <= i < events.len(),
    ensures
        events.take(i + 1).drop_last() == events.take(i),
        events.take(i + 1).last() == events[i],
{
    assert(events.take(i + 1).drop_last() =~= events.take(i));
}

/// The count of answered tickets never goes down along a run.
proof fn lemma_answered_monotone(events: Seq<Event>, i: int, j: int)
    requires
        0 <= i <= j <= events.len(),
    ensures
        answered(events.take(i)) <= answered(events.take(j)),
    decreases j - i,
{
    if i < j {
        lemma_answered_monotone(events, i, j - 1);
        lemma_take_next(events, j - 1);
        lemma_run_invariant(events.take(j - 1));
    }
}

/// An answer is always for the query submitted last, and goes out on the
/// sender that came with that query.
pub proof fn lemma_reply_answers_latest(events: Seq<Event>, i: int)
    requires
        0 <= i < events.len(),
        reply_at(events, i) is Some,
    ensures
        queries(events.take(i + 1)).len() > 0,
        reply_at(events, i)->0.ticket == queries(events.take(i + 1)).len() - 1,
        reply_at(events, i)->0.tx == queries(events.take(i + 1)).last().reply,
{
    lemma_take_next(events, i);
    lemma_run_invariant(events.take(i));
}

/// A query that a newer one has superseded is never answered.
pub proof fn lemma_superseded_never_answered(events: Seq<Event>, ticket: nat, i: int)
    requires
        0 <= i < events.len(),
        ticket + 1 < queries(events.take(i + 1)).len(),
    ensures
        reply_at(events, i) matches Some(reply) ==> reply.ticket != ticket,
{
    if reply_at(events, i) is Some {
        lemma_reply_answers_latest(events, i);
    }
}

/// No query is answered twice: along a run the tickets of the answers
/// go strictly up.
pub proof fn lemma_one_reply_per_query(events: Seq<Event>, i: int, j: int)
    requires
        0 <= i < j < events.len(),
        reply_at(events, i) is Some,
        reply_at(events, j) is Some,
    ensures
        reply_at(events, i)->0.ticket < reply_at(events, j)->0.ticket,
{
    lemma_take_next(events, i);
    lemma_answered_monotone(events, i + 1, j);
    lemma_run_invariant(events.take(j));
}

/// Between two queries at most one answer goes out: after an answer
/// nothing is in flight, so nothing more is answered until the next query
/// arrives.
pub proof fn lemma_idle_after_reply(events: Seq<Event>, i: int)
    requires
        0 <= i < events.len(),
        reply_at(events, i) is Some,
    ensures
        run(events.take(i + 1)).current is None,
{
    lemma_take_next(events, i);
}

} // verus!
