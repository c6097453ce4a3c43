//! One vote per account and post: what a vote changes in the counters and in
//! the voter's activity credit.

use vstd::prelude::*;
use crate::error::{bad_request, is_bad_request, ForumError};
use crate::text::str_eq;

verus! {

/// Materialized vote result plus the transition needed for notifications.
#[derive(Debug, Clone, Copy, PartialEq, Eq, Structural)]
pub struct VoteOutcome {
    pub vote_count: i32,
    pub post_author_id: Option<i64>,
    pub became_upvote: bool,
}

/// What a vote does to the voter's "like" activity credit.
#[derive(Debug, Clone, Copy, PartialEq, Eq, Structural)]
pub enum ContributionChange {
    Activate,
    Deactivate,
    Unchanged,
}

/// Everything a vote changes besides the stored vote itself.
#[derive(Debug, Clone, Copy, PartialEq, Eq, Structural)]
pub struct VoteTransition {
    /// Change of the voter's activity credit.
    pub contribution: ContributionChange,
    /// Whether this is the voter's first vote on the post (`votes_cast` + 1).
    pub first_vote: bool,
    /// Change of the author's `votes_received` (upvotes only).
    pub received_delta: i32,
    /// Whether the vote turned into an upvote (notifies the author).
    pub became_upvote: bool,
}

/// An upvote counts 1 toward what an author received; anything else 0.
pub open spec fn upvote_weight(v: Option<int>) -> int {
    if v == Some(1int) { 1 } else { 0 }
}

/// The stored value of a vote request: `up` is +1, `down` is -1; only
/// threads and comments can be voted on.
pub fn parse_vote(post_type: &str, value: &str) -> (r: Result<i32, ForumError>)
    ensures
        !(value@ == "up"@ || value@ == "down"@) ==> (r matches Err(e) && is_bad_request(e, "vote value must be 'up' or 'down'"@)),
        (value@ == "up"@ || value@ == "down"@) && !(post_type@ == "thread"@ || post_type@ == "comment"@) ==> (r matches Err(e)
            && is_bad_request(e, "post_type must be 'thread' or 'comment'"@)),
        (post_type@ == "thread"@ || post_type@ == "comment"@) && value@ == "up"@ ==> r == Ok::<i32, ForumError>(1),
        (post_type@ == "thread"@ || post_type@ == "comment"@) && value@ == "down"@ ==> r == Ok::<i32, ForumError>(-1i32),
{
    proof {
        reveal_strlit("up");
        assert("up"@ =~= seq!['u', 'p']);
        reveal_strlit("down");
        assert("down"@ =~= seq!['d', 'o', 'w', 'n']);
        reveal_strlit("thread");
        assert("thread"@ =~= seq!['t', 'h', 'r', 'e', 'a', 'd']);
        reveal_strlit("comment");
        assert("comment"@ =~= seq!['c', 'o', 'm', 'm', 'e', 'n', 't']);
    }
    let delta: i32 = if str_eq(value, "up") {
        1
    } else if str_eq(value, "down") {
        -1
    } else {
        return Err(bad_request("vote value must be 'up' or 'down'"));
    };
    if !str_eq(post_type, "thread") && !str_eq(post_type, "comment") {
        return Err(bad_request("post_type must be 'thread' or 'comment'"));
    }
    Ok(delta)
}

/// Authors cannot vote on their own content.
pub fn check_not_own_post(post_author_id: Option<i64>, account_id: i64) -> (r: Result<(), ForumError>)
    ensures
        post_author_id == Some(account_id) ==> (r matches Err(e) && is_bad_request(e, "cannot vote on your own content"@)),
        post_author_id != Some(account_id) ==> r is Ok,
{
    if post_author_id == Some(account_id) {
        return Err(bad_request("cannot vote on your own content"));
    }
    Ok(())
}

pub open spec fn spec_vote_transition(previous: Option<i16>, delta: i32) -> VoteTransition {
    VoteTransition {
        contribution: if delta == 1 && previous != Some(1i16) {
            ContributionChange::Activate
        } else if delta == -1 && previous == Some(1i16) {
            ContributionChange::Deactivate
        } else {
            ContributionChange::Unchanged
        },
        first_vote: previous is None,
        received_delta: if previous == Some(1i16) && delta == -1 {
            -1i32
        } else if (previous == Some(-1i16) || previous is None) && delta == 1 {
            1
        } else {
            0
        },
        became_upvote: delta == 1 && previous != Some(1i16),
    }
}

/// The side effects of replacing the voter's previous value (if any) with `delta`.
pub fn vote_transition(previous: Option<i16>, delta: i32) -> (t: VoteTransition)
    requires
        delta == 1 || delta == -1,
    ensures
        t == spec_vote_transition(previous, delta),
{
    let contribution = if delta == 1 && previous != Some(1i16) {
        ContributionChange::Activate
    } else if delta == -1 && previous == Some(1i16) {
        ContributionChange::Deactivate
    } else {
        ContributionChange::Unchanged
    };
    let received_delta: i32 = match (previous, delta) {
        (Some(1), -1) => -1,
        (Some(-1), 1) | (None, 1) => 1,
        _ => 0,
    };
    VoteTransition {
        contribution,
        first_vote: previous.is_none(),
        received_delta,
        became_upvote: delta == 1 && previous != Some(1i16),
    }
}

/// The result reported to the voter.
pub fn vote_outcome(vote_count: i32, post_author_id: Option<i64>, transition: &VoteTransition) -> (o: VoteOutcome)
    ensures
        o == (VoteOutcome { vote_count, post_author_id, became_upvote: transition.became_upvote }),
{
    VoteOutcome { vote_count, post_author_id, became_upvote: transition.became_upvote }
}

/// An author's received-vote counter moves by the change in upvotes, and the
/// activity credit is granted exactly when a vote becomes an upvote and
/// revoked exactly when an upvote is turned down.
pub proof fn lemma_vote_transition_accounting(previous: Option<i16>, delta: i32)
    requires
        delta == 1 || delta == -1,
        previous matches Some(p) ==> (p == 1 || p == -1),
    ensures
        spec_vote_transition(previous, delta).received_delta == upvote_weight(Some(delta as int)) - upvote_weight(
            match previous { Some(p) => Some(p as int), None => None },
        ),
        (spec_vote_transition(previous, delta).contribution == ContributionChange::Activate)
            == spec_vote_transition(previous, delta).became_upvote,
        (spec_vote_transition(previous, delta).contribution == ContributionChange::Deactivate) == (previous == Some(1i16)
            && delta == -1),
{
}

/// Casting the same vote again changes nothing besides the stored value.
pub proof fn lemma_repeat_vote_is_neutral(delta: i32)
    requires
        delta == 1 || delta == -1,
    ensures
        spec_vote_transition(Some(delta as i16), delta) == (VoteTransition {
            contribution: ContributionChange::Unchanged,
            first_vote: false,
            received_delta: 0,
            became_upvote: false,
        }),
{
}

/// The author's `votes_received` after applying a change; it never drops below zero.
pub fn apply_received_delta(current: i32, received_delta: i32) -> (r: i32)
    requires
        -1 <= received_delta <= 1,
        i32::MIN < current < i32::MAX,
    ensures
        r == (if current + received_delta < 0 { 0 } else { current + received_delta }),
{
    let v = current + received_delta;
    if v < 0 { 0 } else { v }
}

} // verus!
