//! The channel endpoints and the path type that the panel's messages are
//! made of, as far as the verifier needs to know them.
//!
//! Nothing in this module is proved. Each item says in its comment what is
//! taken on trust from the code it stands for.

use std::path::PathBuf;
use vstd::prelude::*;

verus! {

/// `oneshot::Sender`, the sending end of a single-use channel, as an
/// opaque value.
#[verifier::external_type_specification]
#[verifier::external_body]
#[verifier::reject_recursive_types(T)]
pub struct ExReplySender<T>(oneshot::Sender<T>);

/// `oneshot::Receiver`, the receiving end of a single-use channel, as an
/// opaque value.
#[verifier::external_type_specification]
#[verifier::external_body]
#[verifier::reject_recursive_types(T)]
pub struct ExReplyReceiver<T>(oneshot::Receiver<T>);

/// `oneshot::RecvError`, which the receiver's impl of `Future` names. No
/// function of this crate handles a value of it.
#[verifier::external_type_specification]
#[verifier::external_body]
pub struct ExReplyRecvError(oneshot::RecvError);

/// `std::sync::mpsc::Sender`, as an opaque value.
#[verifier::external_type_specification]
#[verifier::external_body]
#[verifier::reject_recursive_types(T)]
pub struct ExQuerySender<T>(std::sync::mpsc::Sender<T>);

/// `std::sync::mpsc::Receiver`, as an opaque value.
#[verifier::external_type_specification]
#[verifier::external_body]
#[verifier::reject_recursive_types(T)]
pub struct ExQueryReceiver<T>(std::sync::mpsc::Receiver<T>);

/// `std::path::PathBuf`, as an opaque value.
#[verifier::external_type_specification]
#[verifier::external_body]
pub struct ExPathBuf(std::path::PathBuf);

/// The path that `PathBuf::from` makes of a string with the given
/// characters.
pub uninterp spec fn path_from_text(text: Seq<char>) -> PathBuf;

/// Calls `PathBuf::from` on a `String`. Trusted: the result depends on the
/// characters of the string alone.
#[verifier::external_body]
pub(crate) fn path_from_string(text: String) -> (path: PathBuf)
    ensures
        path == path_from_text(text@),
{
    PathBuf::from(text)
}

} // verus!
