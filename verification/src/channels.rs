//! The calls that move messages: into and out of the query channel, and
//! into and out of the single-use reply channels.
//!
//! The bodies are not verified. What a call returns depends on what the
//! other end of the channel has done, so no function here says which
//! outcome comes: the callers are verified for every one of them.

use crate::coordinator::Incoming;
use crate::search::{SearchQuery, SearchResponse};
use crate::view::ReplyPoll;
use vstd::prelude::*;

verus! {

/// Calls `std::sync::mpsc::channel`: a new query channel.
#[verifier::external_body]
pub(crate) fn query_channel() -> (ends: (
    std::sync::mpsc::Sender<SearchQuery>,
    std::sync::mpsc::Receiver<SearchQuery>,
)) {
    std::sync::mpsc::channel()
}

/// Calls `std::sync::mpsc::Sender::send`, which does not block. Returns
/// whether the query was queued; it is not when the receiver is gone.
#[verifier::external_body]
pub(crate) fn enqueue_query(
    tx: &std::sync::mpsc::Sender<SearchQuery>,
    query: SearchQuery,
) -> (queued: bool) {
    tx.send(query).is_ok()
}

/// Calls `std::sync::mpsc::Receiver::try_recv`, which does not block, and
/// hands on what it found: a query, nothing yet, or that every sender is
/// gone.
#[verifier::external_body]
pub(crate) fn poll_queries(rx: &std::sync::mpsc::Receiver<SearchQuery>) -> (incoming: Incoming) {
    match rx.try_recv() {
        Ok(query) => Incoming::Query(query),
        Err(std::sync::mpsc::TryRecvError::Empty) => Incoming::Idle,
        Err(std::sync::mpsc::TryRecvError::Disconnected) => Incoming::Disconnected,
    }
}

/// Calls `oneshot::channel`: a new reply channel.
#[verifier::external_body]
pub(crate) fn reply_channel() -> (ends: (
    oneshot::Sender<SearchResponse>,
    oneshot::Receiver<SearchResponse>,
)) {
    oneshot::channel()
}

/// Calls `oneshot::Sender::send`, which does not block. The send fails
/// when the receiver was dropped. Trusted: a failed send hands back, by
/// `SendError::into_inner`, the answer that it was given.
#[verifier::external_body]
pub(crate) fn send_reply(
    tx: oneshot::Sender<SearchResponse>,
    response: SearchResponse,
) -> (sent: Result<(), SearchResponse>)
    ensures
        sent matches Err(returned) ==> returned == response,
{
    match tx.send(response) {
        Ok(()) => Ok(()),
        Err(error) => Err(error.into_inner()),
    }
}

/// Calls `oneshot::Receiver::try_recv`, which does not block, and hands on
/// what it found: the answer, nothing yet, or that the sender was dropped
/// without answering.
#[verifier::external_body]
pub(crate) fn poll_reply_channel(rx: &oneshot::Receiver<SearchResponse>) -> (outcome: ReplyPoll) {
    match rx.try_recv() {
        Ok(response) => ReplyPoll::Ready(response),
        Err(oneshot::TryRecvError::Empty) => ReplyPoll::Pending,
        Err(oneshot::TryRecvError::Disconnected) => ReplyPoll::Superseded,
    }
}

} // verus!
