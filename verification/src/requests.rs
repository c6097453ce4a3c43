//! Request-level checks shared by the forum endpoints: ids in paths and
//! bodies, enumerated fields, per-action rate buckets, and who may mark an
//! answer solved or delete a thread.

use vstd::prelude::*;
use crate::error::{is_bad_request, ForumError};
use crate::number::{parse_i64, spec_parse_i64, IntErrorKind};
use crate::posting::{is_bucket, RateBucket};
use crate::text::{opt_str_view, str_eq};

verus! {

/// An id in the request path; anything unparsable names nothing.
pub fn parse_path_id(s: &str) -> (r: Result<i64, ForumError>)
    ensures
        match spec_parse_i64(s@) {
            Ok(v) => r == Ok::<i64, ForumError>(v),
            Err(_) => r matches Err(e) && e is NotFound,
        },
{
    match parse_i64(s) {
        Ok(v) => Ok(v),
        Err(_) => Err(ForumError::NotFound),
    }
}

/// A required id field of a request body; unparsable is refused with `msg`.
pub fn parse_body_id(s: &str, msg: &str) -> (r: Result<i64, ForumError>)
    ensures
        match spec_parse_i64(s@) {
            Ok(v) => r == Ok::<i64, ForumError>(v),
            Err(_) => r matches Err(e) && is_bad_request(e, msg@),
        },
{
    match parse_i64(s) {
        Ok(v) => Ok(v),
        Err(_) => Err(ForumError::BadRequest(String::from_str(msg))),
    }
}

/// An optional id field; when present it must parse, else `msg`.
pub fn parse_optional_id(s: Option<&str>, msg: &str) -> (r: Result<Option<i64>, ForumError>)
    ensures
        match s {
            None => r == Ok::<Option<i64>, ForumError>(None),
            Some(t) => match spec_parse_i64(t@) {
                Ok(v) => r == Ok::<Option<i64>, ForumError>(Some(v)),
                Err(_) => r matches Err(e) && is_bad_request(e, msg@),
            },
        },
{
    match s {
        None => Ok(None),
        Some(t) => match parse_i64(t) {
            Ok(v) => Ok(Some(v)),
            Err(_) => Err(ForumError::BadRequest(String::from_str(msg))),
        },
    }
}

/// Votes and reports target a thread or a comment.
pub fn require_post_type(post_type: &str) -> (r: Result<(), ForumError>)
    ensures
        r is Ok <==> (post_type@ == "thread"@ || post_type@ == "comment"@),
        r matches Err(e) ==> is_bad_request(e, "postType must be thread/comment"@),
{
    proof {
        reveal_strlit("thread");
        assert("thread"@ =~= seq!['t', 'h', 'r', 'e', 'a', 'd']);
        reveal_strlit("comment");
        assert("comment"@ =~= seq!['c', 'o', 'm', 'm', 'e', 'n', 't']);
    }
    if str_eq(post_type, "thread") || str_eq(post_type, "comment") {
        Ok(())
    } else {
        Err(ForumError::BadRequest(String::from_str("postType must be thread/comment")))
    }
}

/// Vote budget per minute: thirty at trust level 0, sixty otherwise.
pub fn vote_bucket(trust_level: i16) -> (b: RateBucket)
    ensures
        trust_level == 0 ==> is_bucket(b, "vote_tl0"@, 30, 60),
        trust_level != 0 ==> is_bucket(b, "vote"@, 60, 60),
{
    proof {
        reveal_strlit("vote");
        assert("vote"@ =~= seq!['v', 'o', 't', 'e']);
    }
    if trust_level == 0 {
        RateBucket { name: String::from_str("vote_tl0"), capacity: 30, window_seconds: 60 }
    } else {
        RateBucket { name: String::from_str("vote"), capacity: 60, window_seconds: 60 }
    }
}

/// Subscription changes: thirty a minute.
pub fn subscription_bucket() -> (b: RateBucket)
    ensures
        is_bucket(b, "subscription_change"@, 30, 60),
{
    RateBucket { name: String::from_str("subscription_change"), capacity: 30, window_seconds: 60 }
}

/// Poll votes: sixty a minute.
pub fn poll_vote_bucket() -> (b: RateBucket)
    ensures
        is_bucket(b, "poll_vote"@, 60, 60),
{
    RateBucket { name: String::from_str("poll_vote"), capacity: 60, window_seconds: 60 }
}

/// Read-position reports: sixty a minute.
pub fn read_report_bucket() -> (b: RateBucket)
    ensures
        is_bucket(b, "read_report"@, 60, 60),
{
    RateBucket { name: String::from_str("read_report"), capacity: 60, window_seconds: 60 }
}

/// A subscription request: what it targets and at which level.
pub struct SubscriptionChange {
    pub target_type: String,
    pub target_id: i64,
    pub level: String,
}

/// Subscriptions target a board or a thread, at level `watching`,
/// `tracking` or `muted`, with a numeric target id.
pub fn validate_subscription(target_type: &str, level: &str, target_id: &str) -> (r: Result<SubscriptionChange, ForumError>)
    ensures
        !(target_type@ == "board"@ || target_type@ == "thread"@)
            ==> (r matches Err(e) && is_bad_request(e, "targetType must be 'board' or 'thread'"@)),
        (target_type@ == "board"@ || target_type@ == "thread"@) && !(level@ == "watching"@ || level@ == "tracking"@ || level@ == "muted"@)
            ==> (r matches Err(e) && is_bad_request(e, "level must be 'watching', 'tracking', or 'muted'"@)),
        (target_type@ == "board"@ || target_type@ == "thread"@) && (level@ == "watching"@ || level@ == "tracking"@ || level@ == "muted"@)
            ==> match spec_parse_i64(target_id@) {
                Ok(v) => r matches Ok(c) && c.target_type@ == target_type@ && c.level@ == level@ && c.target_id == v,
                Err(_) => r matches Err(e) && is_bad_request(e, "invalid targetId"@),
            },
{
    proof {
        reveal_strlit("board");
        assert("board"@ =~= seq!['b', 'o', 'a', 'r', 'd']);
        reveal_strlit("thread");
        assert("thread"@ =~= seq!['t', 'h', 'r', 'e', 'a', 'd']);
        reveal_strlit("watching");
        assert("watching"@ =~= seq!['w', 'a', 't', 'c', 'h', 'i', 'n', 'g']);
        reveal_strlit("tracking");
        assert("tracking"@ =~= seq!['t', 'r', 'a', 'c', 'k', 'i', 'n', 'g']);
        reveal_strlit("muted");
        assert("muted"@ =~= seq!['m', 'u', 't', 'e', 'd']);
        reveal_strlit("invalid targetId");
        assert("invalid targetId"@ =~= seq!['i', 'n', 'v', 'a', 'l', 'i', 'd', ' ', 't', 'a', 'r', 'g', 'e', 't', 'I', 'd']);
    }
    if !(str_eq(target_type, "board") || str_eq(target_type, "thread")) {
        return Err(ForumError::BadRequest(String::from_str("targetType must be 'board' or 'thread'")));
    }
    if !(str_eq(level, "watching") || str_eq(level, "tracking") || str_eq(level, "muted")) {
        return Err(ForumError::BadRequest(String::from_str("level must be 'watching', 'tracking', or 'muted'")));
    }
    let id = parse_body_id(target_id, "invalid targetId")?;
    Ok(SubscriptionChange { target_type: String::from_str(target_type), target_id: id, level: String::from_str(level) })
}

/// Ignoring: a numeric account id other than one's own.
pub fn check_ignore_target(account_id: i64, target: &str) -> (r: Result<i64, ForumError>)
    ensures
        match spec_parse_i64(target@) {
            Ok(v) => if v == account_id {
                r matches Err(e) && is_bad_request(e, "cannot ignore yourself"@)
            } else {
                r == Ok::<i64, ForumError>(v)
            },
            Err(_) => r matches Err(e) && is_bad_request(e, "invalid accountId"@),
        },
{
    let id = parse_body_id(target, "invalid accountId")?;
    if id == account_id {
        return Err(ForumError::BadRequest(String::from_str("cannot ignore yourself")));
    }
    Ok(id)
}

/// A page size with a default, clamped to 1..=100.
pub fn clamp_limit(limit: Option<i64>, default: i64) -> (n: i64)
    requires
        1 <= default <= 100,
    ensures
        n == (match limit {
            Some(l) => if l < 1 { 1 } else if l > 100 { 100 } else { l },
            None => default,
        }),
{
    match limit {
        Some(l) => if l < 1 {
            1
        } else if l > 100 {
            100
        } else {
            l
        },
        None => default,
    }
}

/// Staff roles.
pub open spec fn is_staff(role: Seq<char>) -> bool {
    role == "mod"@ || role == "admin"@
}

pub fn staff_role(role: &str) -> (b: bool)
    ensures
        b == is_staff(role@),
{
    str_eq(role, "mod") || str_eq(role, "admin")
}

/// Marking a solved answer: only on a Q&A board, only by the thread's
/// author or staff, and never one's own comment. Returns whether staff
/// acted (staff actions are logged).
pub fn check_mark_solved(board_is_qa: bool, thread_author_id: i64, comment_author_id: i64, actor_id: i64, role: &str) -> (r: Result<bool, ForumError>)
    ensures
        !board_is_qa ==> (r matches Err(e) && is_bad_request(e, "board is not a Q&A board"@)),
        board_is_qa && thread_author_id != actor_id && !is_staff(role@) ==> (r matches Err(e) && e is Forbidden),
        board_is_qa && (thread_author_id == actor_id || is_staff(role@)) && comment_author_id == actor_id
            ==> (r matches Err(e) && is_bad_request(e, "cannot mark own comment as the solved answer"@)),
        r is Ok <==> (board_is_qa && (thread_author_id == actor_id || is_staff(role@)) && comment_author_id != actor_id),
        r matches Ok(m) ==> m == is_staff(role@),
{
    proof {
        reveal_strlit("board is not a Q&A board");
        assert("board is not a Q&A board"@ =~= seq!['b', 'o', 'a', 'r', 'd', ' ', 'i', 's', ' ', 'n', 'o', 't', ' ', 'a', ' ', 'Q', '&', 'A', ' ', 'b', 'o', 'a', 'r', 'd']);
    }
    if !board_is_qa {
        return Err(ForumError::BadRequest(String::from_str("board is not a Q&A board")));
    }
    let is_mod = staff_role(role);
    if thread_author_id != actor_id && !is_mod {
        return Err(ForumError::Forbidden);
    }
    if comment_author_id == actor_id {
        return Err(ForumError::BadRequest(String::from_str("cannot mark own comment as the solved answer")));
    }
    Ok(is_mod)
}

/// Clearing a solved answer: the thread's author or staff. Returns whether
/// staff acted.
pub fn check_unmark_solved(thread_author_id: i64, actor_id: i64, role: &str) -> (r: Result<bool, ForumError>)
    ensures
        r is Ok <==> (thread_author_id == actor_id || is_staff(role@)),
        r matches Err(e) ==> e is Forbidden,
        r matches Ok(m) ==> m == is_staff(role@),
{
    let is_mod = staff_role(role);
    if thread_author_id != actor_id && !is_mod {
        return Err(ForumError::Forbidden);
    }
    Ok(is_mod)
}

/// Only the author deletes their thread.
pub fn check_thread_delete(author_id: Option<i64>, actor_id: i64) -> (r: Result<(), ForumError>)
    ensures
        r is Ok <==> author_id == Some(actor_id),
        r matches Err(e) ==> e is Forbidden,
{
    if author_id != Some(actor_id) {
        Err(ForumError::Forbidden)
    } else {
        Ok(())
    }
}

/// A bookmark targets a thread or a comment, with a note of at most 500
/// characters.
pub fn validate_bookmark(target_type: &str, note: Option<&str>) -> (r: Result<(), ForumError>)
    ensures
        !(target_type@ == "thread"@ || target_type@ == "comment"@) ==> (r matches Err(e) && is_bad_request(e, "postType must be thread/comment"@)),
        (target_type@ == "thread"@ || target_type@ == "comment"@) && (note matches Some(n) && n@.len() > 500)
            ==> (r matches Err(e) && is_bad_request(e, "note must be at most 500 characters"@)),
        r is Ok <==> ((target_type@ == "thread"@ || target_type@ == "comment"@) && !(note matches Some(n) && n@.len() > 500)),
{
    require_post_type(target_type)?;
    match note {
        Some(n) => if crate::text::char_count(n) > 500 {
            return Err(ForumError::BadRequest(String::from_str("note must be at most 500 characters")));
        },
        None => {},
    }
    Ok(())
}

/// A draft save matches only the version the client read; otherwise
/// another session changed it first.
pub fn draft_saved<T>(row: Option<T>) -> (r: Result<T, ForumError>)
    ensures
        match row {
            Some(v) => r matches Ok(w) && w == v,
            None => r matches Err(e) && crate::error::is_conflict(e, "draft changed in another session"@),
        },
{
    match row {
        Some(v) => Ok(v),
        None => Err(ForumError::Conflict(String::from_str("draft changed in another session"))),
    }
}

/// A message is reported once per reporter.
pub fn message_report_inserted(report_id: Option<i64>) -> (r: Result<i64, ForumError>)
    ensures
        match report_id {
            Some(id) => r == Ok::<i64, ForumError>(id),
            None => r matches Err(e) && crate::error::is_conflict(e, "message already reported"@),
        },
{
    match report_id {
        Some(id) => Ok(id),
        None => Err(ForumError::Conflict(String::from_str("message already reported"))),
    }
}

} // verus!
