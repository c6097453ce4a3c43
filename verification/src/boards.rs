//! Boards and their posting gates.

use vstd::prelude::*;
use crate::error::ForumError;
use crate::posting::{sorted_accounts, strictly_increasing};

verus! {

/// A board as stored.
pub struct BoardRow {
    pub id: i64,
    pub slug: String,
    pub name: String,
    pub parent_id: Option<i64>,
    pub description: Option<String>,
    pub position: i32,
    pub is_locked: bool,
    pub is_qa: bool,
    pub min_trust_to_post: i16,
    pub thread_count: i32,
}

/// The viewer facts the posting gates read.
#[derive(Clone, Copy, Debug)]
pub struct BoardPostingActor {
    pub trust_level: i16,
    pub can_bypass_board_gates: bool,
}

/// The first gate that keeps a viewer from starting a thread on a board.
#[derive(Clone, Copy, Debug, PartialEq, Eq)]
pub enum BoardPostingRestriction {
    LoginRequired,
    BoardLocked,
    TrustLevel,
}

impl BoardPostingRestriction {
    pub open spec fn spec_as_str(self) -> Seq<char> {
        match self {
            BoardPostingRestriction::LoginRequired => "login_required"@,
            BoardPostingRestriction::BoardLocked => "board_locked"@,
            BoardPostingRestriction::TrustLevel => "trust_level"@,
        }
    }

    pub fn as_str(self) -> (s: &'static str)
        ensures
            s@ == self.spec_as_str(),
    {
        match self {
            BoardPostingRestriction::LoginRequired => "login_required",
            BoardPostingRestriction::BoardLocked => "board_locked",
            BoardPostingRestriction::TrustLevel => "trust_level",
        }
    }
}

/// Anonymous viewers must log in; staff who bypass board gates always
/// post; otherwise a locked board, then a trust level below the board's
/// minimum, stops the viewer.
pub open spec fn spec_posting_restriction(is_locked: bool, min_trust_to_post: i16, actor: Option<BoardPostingActor>) -> Option<BoardPostingRestriction> {
    match actor {
        None => Some(BoardPostingRestriction::LoginRequired),
        Some(a) => if a.can_bypass_board_gates {
            None
        } else if is_locked {
            Some(BoardPostingRestriction::BoardLocked)
        } else if a.trust_level < min_trust_to_post {
            Some(BoardPostingRestriction::TrustLevel)
        } else {
            None
        },
    }
}

pub fn posting_restriction(board: &BoardRow, actor: Option<BoardPostingActor>) -> (r: Option<BoardPostingRestriction>)
    ensures
        r == spec_posting_restriction(board.is_locked, board.min_trust_to_post, actor),
{
    let actor = match actor {
        Some(a) => a,
        None => return Some(BoardPostingRestriction::LoginRequired),
    };
    if actor.can_bypass_board_gates {
        return None;
    }
    if board.is_locked {
        return Some(BoardPostingRestriction::BoardLocked);
    }
    if actor.trust_level < board.min_trust_to_post {
        return Some(BoardPostingRestriction::TrustLevel);
    }
    None
}

/// A signed-in viewer posts exactly when no gate stops them; a locked
/// board or a low trust level is forbidden.
pub fn require_posting_access(board: &BoardRow, actor: BoardPostingActor) -> (r: Result<(), ForumError>)
    ensures
        r is Ok <==> spec_posting_restriction(board.is_locked, board.min_trust_to_post, Some(actor)) is None,
        r matches Err(e) ==> e is Forbidden,
{
    match posting_restriction(board, Some(actor)) {
        None => Ok(()),
        Some(BoardPostingRestriction::BoardLocked) => Err(ForumError::Forbidden),
        Some(BoardPostingRestriction::TrustLevel) => Err(ForumError::Forbidden),
        Some(BoardPostingRestriction::LoginRequired) => Err(ForumError::Unauthorized),
    }
}

/// A viewer who bypasses board gates is never stopped, and a signed-in
/// viewer is never asked to log in.
pub proof fn lemma_bypass_always_posts(is_locked: bool, min_trust_to_post: i16, actor: BoardPostingActor)
    ensures
        actor.can_bypass_board_gates ==> spec_posting_restriction(is_locked, min_trust_to_post, Some(actor)) is None,
        spec_posting_restriction(is_locked, min_trust_to_post, Some(actor)) != Some(BoardPostingRestriction::LoginRequired),
{
}

/// The boards to lock before a thread-count change: each once, in
/// increasing id order (the lock order every transaction follows).
pub fn board_lock_order(board_ids: &Vec<i64>) -> (r: Vec<i64>)
    ensures
        strictly_increasing(r@),
        forall|x: i64| r@.contains(x) <==> board_ids@.contains(x),
{
    let mut candidates: Vec<Option<i64>> = Vec::new();
    let mut i: usize = 0;
    while i < board_ids.len()
        invariant
            i <= board_ids@.len(),
            candidates@.len() == i,
            forall|j: int| 0 <= j < i ==> #[trigger] candidates@[j] == Some(board_ids@[j]),
        decreases board_ids.len() - i,
    {
        candidates.push(Some(board_ids[i]));
        i = i + 1;
    }
    let r = sorted_accounts(&candidates, None);
    proof {
        assert forall|x: i64| candidates@.contains(Some(x)) <==> board_ids@.contains(x) by {
            if candidates@.contains(Some(x)) {
                let k = choose|k: int| 0 <= k < candidates@.len() && #[trigger] candidates@[k] == Some(x);
                assert(board_ids@[k] == x);
            }
            if board_ids@.contains(x) {
                let k = choose|k: int| 0 <= k < board_ids@.len() && #[trigger] board_ids@[k] == x;
                assert(candidates@[k] == Some(x));
            }
        }
    }
    r
}

/// Every requested board must have been found and locked.
pub fn check_boards_locked(locked: usize, requested: usize) -> (r: Result<(), ForumError>)
    ensures
        r is Ok <==> locked == requested,
        r matches Err(e) ==> e is NotFound,
{
    if locked != requested {
        Err(ForumError::NotFound)
    } else {
        Ok(())
    }
}

} // verus!
