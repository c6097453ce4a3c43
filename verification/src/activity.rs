//! The activity projection: which contribution each piece of content and
//! each upvote keeps, and the keys contributions are filed under.

use vstd::prelude::*;
use crate::number::{decimal_text, i64_to_string};

verus! {

/// What a state transition does to a contribution.
#[derive(Clone, Copy, Debug, PartialEq, Eq)]
pub enum ContributionAction {
    /// Credit the account.
    Activate(i64),
    /// Withdraw the credit.
    Deactivate,
    /// Nothing to credit (the author's account is gone).
    Nothing,
}

/// Visible content credits its author (when the account still exists);
/// content that is no longer visible loses its credit.
pub fn content_contribution(is_visible: bool, author_id: Option<i64>) -> (a: ContributionAction)
    ensures
        is_visible && author_id is Some ==> a == ContributionAction::Activate(author_id->0),
        is_visible && author_id is None ==> a == ContributionAction::Nothing,
        !is_visible ==> a == ContributionAction::Deactivate,
{
    if is_visible {
        match author_id {
            Some(a) => ContributionAction::Activate(a),
            None => ContributionAction::Nothing,
        }
    } else {
        ContributionAction::Deactivate
    }
}

/// An upvote on visible content credits the voter; otherwise it is withdrawn.
pub fn vote_contribution(is_visible: bool, voter_id: i64) -> (a: ContributionAction)
    ensures
        a == (if is_visible { ContributionAction::Activate(voter_id) } else { ContributionAction::Deactivate }),
{
    if is_visible {
        ContributionAction::Activate(voter_id)
    } else {
        ContributionAction::Deactivate
    }
}

/// `forum_thread:{id}`.
pub fn thread_source_key(thread_id: i64) -> (s: String)
    ensures
        s@ == "forum_thread:"@ + decimal_text(thread_id as int),
{
    let mut s = String::from_str("forum_thread:");
    s.append(i64_to_string(thread_id).as_str());
    s
}

/// `forum_comment:{id}`.
pub fn comment_source_key(comment_id: i64) -> (s: String)
    ensures
        s@ == "forum_comment:"@ + decimal_text(comment_id as int),
{
    let mut s = String::from_str("forum_comment:");
    s.append(i64_to_string(comment_id).as_str());
    s
}

/// `forum_vote:{post type}:{post id}:{voter}`.
pub fn vote_source_key(post_type: &str, post_id: i64, account_id: i64) -> (s: String)
    ensures
        s@ == "forum_vote:"@ + post_type@ + ":"@ + decimal_text(post_id as int) + ":"@ + decimal_text(account_id as int),
{
    let mut s = String::from_str("forum_vote:");
    s.append(post_type);
    s.append(":");
    s.append(i64_to_string(post_id).as_str());
    s.append(":");
    s.append(i64_to_string(account_id).as_str());
    s
}

/// Threads without activity for ninety days are archived.
pub open spec fn stale_after_micros() -> int {
    7_776_000_000_000
}

/// Whether an open, undeleted thread has gone stale.
pub fn is_stale(last_activity_at_micros: i64, now_micros: i64) -> (b: bool)
    ensures
        b == (last_activity_at_micros < now_micros - stale_after_micros()),
{
    (last_activity_at_micros as i128) < (now_micros as i128) - 7_776_000_000_000i128
}

} // verus!
