//! The error envelope every forum operation reports.

use vstd::prelude::*;

verus! {

/// A refused forum request, as the HTTP layer renders it.
#[derive(Debug, Clone, PartialEq, Eq)]
pub enum ForumError {
    BadRequest(String),
    Unauthorized,
    Forbidden,
    NotFound,
    Conflict(String),
    RateLimited,
    OptimisticLockConflict { current_version: i64 },
    Internal(String),
    /// A reply names a parent comment that is not available in the thread.
    CommentMissing,
}

/// `e` is a `BadRequest` carrying exactly the message `msg`.
pub open spec fn is_bad_request(e: ForumError, msg: Seq<char>) -> bool {
    e is BadRequest && e->BadRequest_0@ == msg
}

/// `e` is a `Conflict` carrying exactly the message `msg`.
pub open spec fn is_conflict(e: ForumError, msg: Seq<char>) -> bool {
    e is Conflict && e->Conflict_0@ == msg
}

pub fn bad_request(msg: &str) -> (e: ForumError)
    ensures
        is_bad_request(e, msg@),
{
    ForumError::BadRequest(String::from_str(msg))
}

pub fn conflict(msg: &str) -> (e: ForumError)
    ensures
        is_conflict(e, msg@),
{
    ForumError::Conflict(String::from_str(msg))
}

} // verus!
