//! Cross-device drafts: the shape of a draft key and the bounds of what a
//! draft may hold.

use vstd::prelude::*;
use crate::error::{is_bad_request, is_conflict, ForumError};
use crate::number::{parse_i64_chars, spec_parse_i64};
use crate::text::{chars_equal, chars_of, contains_control, has_control};
use crate::watched_words::string_views;

verus! {

/// Drafts one account may keep.
pub open spec fn max_drafts() -> int {
    50
}

/// A positive decimal id.
pub open spec fn spec_positive_id(s: Seq<char>) -> bool {
    spec_parse_i64(s) matches Ok(v) && v > 0
}

fn positive_id_chars(v: &Vec<char>) -> (b: bool)
    ensures
        b == spec_positive_id(v@),
{
    match parse_i64_chars(v) {
        Ok(id) => id > 0,
        Err(_) => false,
    }
}

pub fn positive_id(value: &str) -> (b: bool)
    ensures
        b == spec_positive_id(value@),
{
    positive_id_chars(&chars_of(value))
}

/// What a draft holds: a thread being written, or a comment on a thread.
pub enum DraftPayload {
    Thread {
        board_id: Option<String>,
        title: String,
        body: String,
        tags: Vec<String>,
        poll_question: String,
        poll_options: Vec<String>,
    },
    Comment {
        thread_id: String,
        body: String,
        parent_id: Option<String>,
    },
}

pub open spec fn has_prefix(s: Seq<char>, p: Seq<char>) -> bool {
    s.len() >= p.len() && s.take(p.len() as int) == p
}

/// Some text is empty or longer than `max` characters.
pub open spec fn any_bad_len(v: Seq<Seq<char>>, allow_empty: bool, max: int) -> bool {
    exists|i: int| 0 <= i < v.len() && ((!allow_empty && #[trigger] v[i].len() == 0) || v[i].len() > max)
}

/// The refusal message for a draft, or `None` when it is acceptable. The
/// key is non-empty, at most 96 characters and free of control characters;
/// a thread draft is keyed `thread:new` or `thread:{board}`, a comment
/// draft `comment:{thread}`; ids are positive; text is bounded.
pub open spec fn spec_draft_problem(key: Seq<char>, payload: DraftPayload) -> Option<Seq<char>> {
    if key.len() == 0 || key.len() > 96 || has_control(key) {
        Some("invalid draftKey"@)
    } else {
        match payload {
            DraftPayload::Thread { board_id, title, body, tags, poll_question, poll_options } => {
                if !has_prefix(key, "thread:"@) {
                    Some("thread draftKey must start with thread:"@)
                } else {
                    let target = key.skip(7);
                    if target != "new"@ && !spec_positive_id(target) {
                        Some("invalid thread draftKey target"@)
                    } else if board_id matches Some(b) && !spec_positive_id(b@) {
                        Some("invalid draft boardId"@)
                    } else if board_id matches Some(b) && target != "new"@ && target != b@ {
                        Some("draftKey does not match boardId"@)
                    } else if title@.len() > 120 || body@.len() > 50_000 {
                        Some("thread draft exceeds content limits"@)
                    } else if tags@.len() > 3 || any_bad_len(string_views(tags@), false, 32) || poll_question@.len() > 300
                        || poll_options@.len() > 20 || any_bad_len(string_views(poll_options@), true, 200) {
                        Some("thread draft metadata exceeds limits"@)
                    } else {
                        None
                    }
                }
            },
            DraftPayload::Comment { thread_id, body, parent_id } => {
                if !has_prefix(key, "comment:"@) {
                    Some("comment draftKey must start with comment:"@)
                } else {
                    let target = key.skip(8);
                    if !spec_positive_id(thread_id@) || target != thread_id@ {
                        Some("draftKey does not match threadId"@)
                    } else if parent_id matches Some(p) && !spec_positive_id(p@) {
                        Some("invalid draft parentId"@)
                    } else if body@.len() > 16_000 {
                        Some("comment draft exceeds content limits"@)
                    } else {
                        None
                    }
                }
            },
        }
    }
}

/// The characters after `prefix`, when `s` starts with it.
fn strip_prefix_chars(s: &Vec<char>, prefix: &str) -> (r: Option<Vec<char>>)
    ensures
        match r {
            Some(t) => has_prefix(s@, prefix@) && t@ == s@.skip(prefix@.len() as int),
            None => !has_prefix(s@, prefix@),
        },
{
    let p = chars_of(prefix);
    if s.len() < p.len() {
        return None;
    }
    let mut i: usize = 0;
    while i < p.len()
        invariant
            p@ == prefix@,
            p@.len() <= s@.len(),
            i <= p@.len(),
            forall|j: int| 0 <= j < i ==> s@[j] == p@[j],
        decreases p.len() - i,
    {
        if s[i] != p[i] {
            assert(s@.take(p@.len() as int)[i as int] != p@[i as int]);
            return None;
        }
        i = i + 1;
    }
    assert(s@.take(p@.len() as int) =~= p@);
    let mut rest: Vec<char> = Vec::new();
    let mut k: usize = p.len();
    while k < s.len()
        invariant
            p@.len() <= k <= s@.len(),
            rest@ == s@.subrange(p@.len() as int, k as int),
        decreases s.len() - k,
    {
        rest.push(s[k]);
        k = k + 1;
        assert(rest@ =~= s@.subrange(p@.len() as int, k as int));
    }
    Some(rest)
}

fn any_bad_len_exec(v: &Vec<String>, allow_empty: bool, max: usize) -> (b: bool)
    ensures
        b == any_bad_len(string_views(v@), allow_empty, max as int),
{
    let mut i: usize = 0;
    while i < v.len()
        invariant
            i <= v@.len(),
            forall|j: int| 0 <= j < i ==> !((!allow_empty && #[trigger] string_views(v@)[j].len() == 0) || string_views(v@)[j].len() > max),
        decreases v.len() - i,
    {
        let n = crate::text::char_count(v[i].as_str());
        if (!allow_empty && n == 0) || n > max {
            assert(string_views(v@)[i as int] == v@[i as int]@);
            return true;
        }
        i = i + 1;
    }
    false
}

pub fn validate_draft(draft_key: &str, payload: &DraftPayload) -> (r: Result<(), ForumError>)
    ensures
        r is Ok <==> spec_draft_problem(draft_key@, *payload) is None,
        r matches Err(e) ==> (spec_draft_problem(draft_key@, *payload) matches Some(m) && is_bad_request(e, m)),
{
    proof {
        reveal_strlit("thread:");
        reveal_strlit("comment:");
        assert("thread:"@.len() == 7);
        assert("comment:"@.len() == 8);
    }
    let key = chars_of(draft_key);
    if key.len() == 0 || key.len() > 96 || contains_control(&key) {
        return Err(ForumError::BadRequest(String::from_str("invalid draftKey")));
    }
    let new_target = chars_of("new");
    match payload {
        DraftPayload::Thread { board_id, title, body, tags, poll_question, poll_options } => {
            let target = match strip_prefix_chars(&key, "thread:") {
                Some(t) => t,
                None => return Err(ForumError::BadRequest(String::from_str("thread draftKey must start with thread:"))),
            };
            let is_new = chars_equal(&target, &new_target);
            if !is_new && !positive_id_chars(&target) {
                return Err(ForumError::BadRequest(String::from_str("invalid thread draftKey target")));
            }
            match board_id {
                Some(b) => {
                    let bc = chars_of(b.as_str());
                    if !positive_id_chars(&bc) {
                        return Err(ForumError::BadRequest(String::from_str("invalid draft boardId")));
                    }
                    if !is_new && !chars_equal(&target, &bc) {
                        return Err(ForumError::BadRequest(String::from_str("draftKey does not match boardId")));
                    }
                },
                None => {},
            }
            if crate::text::char_count(title.as_str()) > 120 || crate::text::char_count(body.as_str()) > 50_000 {
                return Err(ForumError::BadRequest(String::from_str("thread draft exceeds content limits")));
            }
            if tags.len() > 3 || any_bad_len_exec(tags, false, 32) || crate::text::char_count(poll_question.as_str()) > 300
                || poll_options.len() > 20 || any_bad_len_exec(poll_options, true, 200) {
                return Err(ForumError::BadRequest(String::from_str("thread draft metadata exceeds limits")));
            }
            Ok(())
        },
        DraftPayload::Comment { thread_id, body, parent_id } => {
            let target = match strip_prefix_chars(&key, "comment:") {
                Some(t) => t,
                None => return Err(ForumError::BadRequest(String::from_str("comment draftKey must start with comment:"))),
            };
            let tc = chars_of(thread_id.as_str());
            if !positive_id_chars(&tc) || !chars_equal(&target, &tc) {
                return Err(ForumError::BadRequest(String::from_str("draftKey does not match threadId")));
            }
            match parent_id {
                Some(p) => if !positive_id(p.as_str()) {
                    return Err(ForumError::BadRequest(String::from_str("invalid draft parentId")));
                },
                None => {},
            }
            if crate::text::char_count(body.as_str()) > 16_000 {
                return Err(ForumError::BadRequest(String::from_str("comment draft exceeds content limits")));
            }
            Ok(())
        },
    }
}

/// A save names the version it last read; it cannot be negative.
pub fn check_draft_version(expected_version: i64) -> (r: Result<(), ForumError>)
    ensures
        r is Ok <==> expected_version >= 0,
        r matches Err(e) ==> is_bad_request(e, "expectedVersion cannot be negative"@),
{
    if expected_version < 0 {
        Err(ForumError::BadRequest(String::from_str("expectedVersion cannot be negative")))
    } else {
        Ok(())
    }
}

/// A new draft (version 0) must not exist yet, and the account must have
/// room for it.
pub fn check_new_draft(exists: bool, draft_count: i64) -> (r: Result<(), ForumError>)
    ensures
        exists ==> (r matches Err(e) && is_conflict(e, "draft already exists"@)),
        !exists && draft_count >= max_drafts() ==> (r matches Err(e) && is_bad_request(e, "draft limit of 50 reached"@)),
        r is Ok <==> (!exists && draft_count < max_drafts()),
{
    if exists {
        return Err(ForumError::Conflict(String::from_str("draft already exists")));
    }
    if draft_count >= 50 {
        return Err(ForumError::BadRequest(String::from_str("draft limit of 50 reached")));
    }
    Ok(())
}

} // verus!
