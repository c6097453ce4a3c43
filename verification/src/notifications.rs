//! The notification inbox: where a notification links to, and the checks
//! on listing and marking notifications read.

use vstd::prelude::*;
use crate::error::{is_bad_request, ForumError};
use crate::notification_delivery::{dm_event, is_dm_event};
use crate::number::{decimal_digits, decimal_text, i64_to_string, is_digit, lemma_decimal_digits_are_digits, parse_i64, spec_parse_i64};
use crate::payload::{get_str, numeric_payload_id, spec_numeric_payload_id, str_member, JsonObject, JsonScalar};
use crate::text::{chars_of, contains_control, has_control, is_control_char, str_eq};

verus! {

/// Page size when the request names none.
pub fn default_limit() -> (n: i64)
    ensures
        n == 20,
{
    20
}

/// An explicit target is kept only when it is a path on this site: it
/// starts with one `/` (not `//`), has no backslash and no control character.
pub open spec fn is_internal_target(t: Seq<char>) -> bool {
    &&& t.len() > 0 && t[0] == '/'
    &&& !(t.len() >= 2 && t[1] == '/')
    &&& !t.contains('\\')
    &&& !has_control(t)
}

/// Where a notification links to: a safe explicit `targetUrl`; for message
/// events the conversation (request view for requests); otherwise the
/// thread; for a thread vote the voted thread.
pub open spec fn spec_target_url(notification_type: Seq<char>, payload: Seq<(String, JsonScalar)>) -> Option<Seq<char>> {
    match str_member(payload, "targetUrl"@) {
        Some(t) if is_internal_target(t) => Some(t),
        _ => if is_dm_event(notification_type) {
            match spec_numeric_payload_id(payload, "conversationId"@) {
                Some(id) => if notification_type == "dm_request"@ {
                    Some("/messages?view=requests&conversation="@ + decimal_text(id as int))
                } else {
                    Some("/messages?conversation="@ + decimal_text(id as int))
                },
                None => None,
            }
        } else {
            match spec_numeric_payload_id(payload, "threadId"@) {
                Some(id) => Some("/forum/threads/"@ + decimal_text(id as int)),
                None => if notification_type == "vote"@ && str_member(payload, "postType"@) == Some("thread"@) {
                    match spec_numeric_payload_id(payload, "postId"@) {
                        Some(id) => Some("/forum/threads/"@ + decimal_text(id as int)),
                        None => None,
                    }
                } else {
                    None
                },
            }
        },
    }
}

fn internal_target(t: &str) -> (b: bool)
    ensures
        b == is_internal_target(t@),
{
    let c = chars_of(t);
    if c.len() == 0 || c[0] != '/' {
        return false;
    }
    if c.len() >= 2 && c[1] == '/' {
        return false;
    }
    let mut i: usize = 0;
    while i < c.len()
        invariant
            c@ == t@,
            i <= c@.len(),
            forall|j: int| 0 <= j < i ==> c@[j] != '\\',
        decreases c.len() - i,
    {
        if c[i] == '\\' {
            assert(t@[i as int] == '\\');
            return false;
        }
        i = i + 1;
    }
    !contains_control(&c)
}

fn prefixed_id(prefix: &str, id: i64) -> (s: String)
    ensures
        s@ == prefix@ + decimal_text(id as int),
{
    let mut s = String::from_str(prefix);
    s.append(i64_to_string(id).as_str());
    s
}

pub fn notification_target_url(notification_type: &str, payload: &JsonObject) -> (r: Option<String>)
    ensures
        match r {
            Some(s) => spec_target_url(notification_type@, payload.fields@) == Some(s@),
            None => spec_target_url(notification_type@, payload.fields@) is None,
        },
{
    match get_str(payload, "targetUrl") {
        Some(t) => if internal_target(t) {
            return Some(String::from_str(t));
        },
        None => {},
    }
    if dm_event(notification_type) {
        return match numeric_payload_id(payload, "conversationId") {
            Some(id) => if str_eq(notification_type, "dm_request") {
                Some(prefixed_id("/messages?view=requests&conversation=", id))
            } else {
                Some(prefixed_id("/messages?conversation=", id))
            },
            None => None,
        };
    }
    match numeric_payload_id(payload, "threadId") {
        Some(id) => Some(prefixed_id("/forum/threads/", id)),
        None => {
            let on_thread = match get_str(payload, "postType") {
                Some(t) => str_eq(t, "thread"),
                None => false,
            };
            if str_eq(notification_type, "vote") && on_thread {
                match numeric_payload_id(payload, "postId") {
                    Some(id) => Some(prefixed_id("/forum/threads/", id)),
                    None => None,
                }
            } else {
                None
            }
        },
    }
}

/// A list cursor is the id of the last notification seen.
pub fn notification_cursor(cursor: Option<&str>) -> (r: Result<Option<i64>, ForumError>)
    ensures
        cursor is None ==> r == Ok::<Option<i64>, ForumError>(None),
        cursor matches Some(c) ==> match spec_parse_i64(c@) {
            Ok(v) => r == Ok::<Option<i64>, ForumError>(Some(v)),
            Err(_) => r matches Err(e) && is_bad_request(e, "invalid cursor"@),
        },
{
    match cursor {
        None => Ok(None),
        Some(c) => match parse_i64(c) {
            Ok(v) => Ok(Some(v)),
            Err(_) => Err(ForumError::BadRequest(String::from_str("invalid cursor"))),
        },
    }
}

/// A page holds between 1 and 100 notifications.
pub fn check_notification_limit(limit: i64) -> (r: Result<(), ForumError>)
    ensures
        r is Ok <==> 1 <= limit <= 100,
        r matches Err(e) ==> is_bad_request(e, "limit must be between 1 and 100"@),
{
    if 1 <= limit && limit <= 100 {
        Ok(())
    } else {
        Err(ForumError::BadRequest(String::from_str("limit must be between 1 and 100")))
    }
}

/// What a mark-read request asks for.
pub enum MarkReadRequest {
    /// Mark these notifications read.
    Ids(Vec<i64>),
    /// Mark every notification read.
    All,
}

/// Every id is a positive decimal number.
pub open spec fn all_positive_ids(ids: Seq<String>) -> bool {
    forall|i: int| 0 <= i < ids.len() ==> (spec_parse_i64(#[trigger] ids[i]@) matches Ok(v) && v > 0)
}

/// A request names either between 1 and 100 positive ids or nothing (or
/// `all: true`), never both.
pub fn mark_read_request(ids: Option<Vec<String>>, all: Option<bool>) -> (r: Result<MarkReadRequest, ForumError>)
    ensures
        ids is Some && all is Some ==> (r matches Err(e) && is_bad_request(e, "all and ids cannot be combined"@)),
        ids is None && all == Some(false) ==> (r matches Err(e) && is_bad_request(e, "all must be true"@)),
        ids is None && all != Some(false) ==> (r matches Ok(MarkReadRequest::All)),
        (ids matches Some(v) && all is None) ==> {
            let v = ids->0@;
            if v.len() == 0 || v.len() > 100 {
                r matches Err(e) && is_bad_request(e, "ids must contain between 1 and 100 items"@)
            } else if !all_positive_ids(v) {
                r matches Err(e) && is_bad_request(e, "invalid notification id"@)
            } else {
                r matches Ok(MarkReadRequest::Ids(parsed)) && parsed@.len() == v.len()
                    && forall|i: int| 0 <= i < v.len() ==> spec_parse_i64(#[trigger] v[i]@) == Ok::<i64, crate::number::IntErrorKind>(parsed@[i])
            }
        },
{
    match (ids, all) {
        (Some(_), Some(_)) => Err(ForumError::BadRequest(String::from_str("all and ids cannot be combined"))),
        (None, Some(false)) => Err(ForumError::BadRequest(String::from_str("all must be true"))),
        (None, _) => Ok(MarkReadRequest::All),
        (Some(v), None) => {
            if v.len() == 0 || v.len() > 100 {
                return Err(ForumError::BadRequest(String::from_str("ids must contain between 1 and 100 items")));
            }
            let mut parsed: Vec<i64> = Vec::new();
            let mut i: usize = 0;
            while i < v.len()
                invariant
                    all is None,
                    ids is Some,
                    ids->0@ == v@,
                    1 <= v@.len() <= 100,
                    i <= v@.len(),
                    parsed@.len() == i,
                    forall|j: int| 0 <= j < i ==> spec_parse_i64(#[trigger] v@[j]@) == Ok::<i64, crate::number::IntErrorKind>(parsed@[j]) && parsed@[j] > 0,
                decreases v.len() - i,
            {
                match parse_i64(v[i].as_str()) {
                    Ok(id) => {
                        if id <= 0 {
                            return Err(ForumError::BadRequest(String::from_str("invalid notification id")));
                        }
                        parsed.push(id);
                    },
                    Err(_) => return Err(ForumError::BadRequest(String::from_str("invalid notification id"))),
                }
                i = i + 1;
            }
            Ok(MarkReadRequest::Ids(parsed))
        },
    }
}

/// Printable ASCII other than the backslash.
pub open spec fn plain_ascii(s: Seq<char>) -> bool {
    forall|i: int| 0 <= i < s.len() ==> 0x20 <= (#[trigger] s[i]) as u32 && (s[i] as u32) < 0x7f && s[i] != '\\'
}

proof fn lemma_plain_concat(a: Seq<char>, b: Seq<char>)
    requires
        plain_ascii(a),
        plain_ascii(b),
    ensures
        plain_ascii(a + b),
{
    assert forall|i: int| 0 <= i < (a + b).len() implies 0x20 <= (#[trigger] (a + b)[i]) as u32 && ((a + b)[i] as u32) < 0x7f && (a + b)[i] != '\\' by {
        if i < a.len() {
            assert((a + b)[i] == a[i]);
        } else {
            assert((a + b)[i] == b[i - a.len()]);
        }
    }
}

proof fn lemma_positive_id_plain(id: i64)
    requires
        id > 0,
    ensures
        plain_ascii(decimal_text(id as int)),
{
    lemma_decimal_digits_are_digits(id as nat);
    let d = decimal_digits(id as nat);
    assert forall|i: int| 0 <= i < d.len() implies 0x20 <= (#[trigger] d[i]) as u32 && (d[i] as u32) < 0x7f && d[i] != '\\' by {
        assert(is_digit(d[i]));
    }
}

/// A plain text starting with `/` but not `//` is an internal target.
proof fn lemma_plain_path_internal(prefix: Seq<char>, rest: Seq<char>)
    requires
        plain_ascii(prefix),
        plain_ascii(rest),
        prefix.len() >= 2,
        prefix[0] == '/',
        prefix[1] != '/',
    ensures
        is_internal_target(prefix + rest),
{
    lemma_plain_concat(prefix, rest);
    let u = prefix + rest;
    assert(u[0] == '/');
    assert(u[1] == prefix[1]);
    if u.contains('\\') {
        let k = choose|k: int| 0 <= k < u.len() && u[k] == '\\';
        assert(u[k] != '\\');
    }
    if has_control(u) {
        let k = choose|k: int| 0 <= k < u.len() && is_control_char(#[trigger] u[k]);
        assert(0x20 <= u[k] as u32 && (u[k] as u32) < 0x7f);
    }
}

/// Every link a notification gets is a path on this site: an explicit
/// target only when it is internal, and the generated conversation and
/// thread links by construction.
pub proof fn lemma_targets_are_internal(notification_type: Seq<char>, payload: Seq<(String, JsonScalar)>)
    ensures
        spec_target_url(notification_type, payload) matches Some(u) ==> is_internal_target(u),
{
    reveal_strlit("/forum/threads/");
    reveal_strlit("/messages?conversation=");
    reveal_strlit("/messages?view=requests&conversation=");
    let threads = "/forum/threads/"@;
    let conv = "/messages?conversation="@;
    let req = "/messages?view=requests&conversation="@;
    assert(threads =~= seq!['/', 'f', 'o', 'r', 'u', 'm', '/', 't', 'h', 'r', 'e', 'a', 'd', 's', '/']);
    assert(conv =~= seq!['/', 'm', 'e', 's', 's', 'a', 'g', 'e', 's', '?', 'c', 'o', 'n', 'v', 'e', 'r', 's', 'a', 't', 'i', 'o', 'n', '=']);
    assert(req =~= seq!['/', 'm', 'e', 's', 's', 'a', 'g', 'e', 's', '?', 'v', 'i', 'e', 'w', '=', 'r', 'e', 'q', 'u', 'e', 's', 't', 's', '&', 'c', 'o', 'n', 'v', 'e', 'r', 's', 'a', 't', 'i', 'o', 'n', '=']);
    assert(plain_ascii(threads));
    assert(plain_ascii(conv));
    assert(plain_ascii(req));
    if is_dm_event(notification_type) {
        match spec_numeric_payload_id(payload, "conversationId"@) {
            Some(id) => {
                lemma_positive_id_plain(id);
                lemma_plain_path_internal(conv, decimal_text(id as int));
                lemma_plain_path_internal(req, decimal_text(id as int));
            },
            None => {},
        }
    } else {
        match spec_numeric_payload_id(payload, "threadId"@) {
            Some(id) => {
                lemma_positive_id_plain(id);
                lemma_plain_path_internal(threads, decimal_text(id as int));
            },
            None => {
                match spec_numeric_payload_id(payload, "postId"@) {
                    Some(id) => {
                        lemma_positive_id_plain(id);
                        lemma_plain_path_internal(threads, decimal_text(id as int));
                    },
                    None => {},
                }
            },
        }
    }
}

} // verus!
