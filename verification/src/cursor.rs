//! Opaque pagination cursors: base64 over small `|`-separated texts.

use vstd::prelude::*;
use crate::codec::{base64_decode_str, base64_encode_str, spec_decode_str, spec_encode_str};
use crate::error::{bad_request, is_bad_request, ForumError};
use crate::number::{decimal_text, i64_decimal_chars, lemma_parse_decimal_text, parse_i64_chars, spec_parse_i64, IntErrorKind};
use crate::text::{chars_of, string_from_chars};

verus! {

/// Cursor text of an integer key.
pub open spec fn spec_encode_i64(val: i64) -> Seq<char> {
    spec_encode_str(decimal_text(val as int))
}

pub fn base64_encode_i64(val: i64) -> (r: String)
    ensures
        r@ == spec_encode_i64(val),
{
    let digits = i64_decimal_chars(val);
    let text = string_from_chars(&digits);
    base64_encode_str(text.as_str())
}

/// The number a cursor text decodes to, `None` for a malformed cursor.
pub open spec fn spec_decode_i64(s: Seq<char>) -> Option<i64> {
    match spec_decode_str(s) {
        Some(t) => match spec_parse_i64(t) {
            Ok(v) => Some(v),
            Err(_) => None,
        },
        None => None,
    }
}

/// Decode an integer cursor; the error carries the underlying reason.
pub fn base64_decode_i64(s: &str) -> (r: Result<i64, String>)
    ensures
        r is Ok <==> (spec_decode_str(s@) matches Some(t) && spec_parse_i64(t) is Ok),
        r matches Ok(v) ==> (spec_decode_str(s@) matches Some(t) && spec_parse_i64(t) == Ok::<i64, IntErrorKind>(v)),
        forall|val: i64| #[trigger] spec_encode_i64(val) == s@ ==> r == Ok::<i64, String>(val),
{
    let decoded = base64_decode_str(s);
    match decoded {
        Err(e) => Err(e),
        Ok(text) => {
            let chars = chars_of(text.as_str());
            proof {
                assert forall|val: i64| #[trigger] spec_encode_i64(val) == s@ implies spec_parse_i64(chars@) == Ok::<i64, IntErrorKind>(val) by {
                    lemma_parse_decimal_text(val);
                }
            }
            match parse_i64_chars(&chars) {
                Ok(v) => Ok(v),
                Err(kind) => Err(kind.message()),
            }
        },
    }
}


/// `str::split(sep)`: the pieces between separators, always at least one.
pub open spec fn split_segments(s: Seq<char>, sep: char) -> Seq<Seq<char>>
    decreases s.len(),
{
    if s.len() == 0 {
        seq![Seq::<char>::empty()]
    } else {
        let prev = split_segments(s.drop_last(), sep);
        if s.last() == sep {
            prev.push(Seq::<char>::empty())
        } else {
            prev.update(prev.len() - 1, prev.last().push(s.last()))
        }
    }
}

pub proof fn lemma_split_nonempty(s: Seq<char>, sep: char)
    ensures
        split_segments(s, sep).len() >= 1,
    decreases s.len(),
{
    if s.len() > 0 {
        lemma_split_nonempty(s.drop_last(), sep);
    }
}

/// Text without the separator is a single piece.
pub proof fn lemma_split_single(s: Seq<char>, sep: char)
    requires
        forall|i: int| 0 <= i < s.len() ==> #[trigger] s[i] != sep,
    ensures
        split_segments(s, sep) == seq![s],
    decreases s.len(),
{
    if s.len() > 0 {
        lemma_split_single(s.drop_last(), sep);
        assert(s.drop_last().push(s.last()) =~= s);
        assert(split_segments(s, sep) =~= seq![s]);
    } else {
        assert(s =~= Seq::<char>::empty());
    }
}

/// Joining two texts with the separator joins their pieces.
pub proof fn lemma_split_concat(a: Seq<char>, sep: char, b: Seq<char>)
    ensures
        split_segments(a.push(sep) + b, sep) == split_segments(a, sep) + split_segments(b, sep),
    decreases b.len(),
{
    let whole = a.push(sep) + b;
    lemma_split_nonempty(a, sep);
    if b.len() == 0 {
        assert(whole =~= a.push(sep));
        assert(whole.drop_last() =~= a);
        assert(split_segments(a, sep).push(Seq::<char>::empty()) =~= split_segments(a, sep) + seq![Seq::<char>::empty()]);
    } else {
        lemma_split_concat(a, sep, b.drop_last());
        lemma_split_nonempty(b.drop_last(), sep);
        assert(whole.drop_last() =~= a.push(sep) + b.drop_last());
        assert(whole.last() == b.last());
        let x = split_segments(a, sep);
        let y = split_segments(b.drop_last(), sep);
        if b.last() == sep {
            assert((x + y).push(Seq::<char>::empty()) =~= x + y.push(Seq::<char>::empty()));
        } else {
            assert((x + y).update((x + y).len() - 1, (x + y).last().push(b.last()))
                =~= x + y.update(y.len() - 1, y.last().push(b.last())));
        }
    }
}

fn split_exec(s: &Vec<char>, sep: char) -> (r: Vec<Vec<char>>)
    ensures
        r@.len() == split_segments(s@, sep).len(),
        forall|i: int| 0 <= i < r@.len() ==> #[trigger] r@[i]@ == split_segments(s@, sep)[i],
{
    let mut done: Vec<Vec<char>> = Vec::new();
    let mut current: Vec<char> = Vec::new();
    let mut i: usize = 0;
    while i < s.len()
        invariant
            i <= s@.len(),
            split_segments(s@.take(i as int), sep).len() == done@.len() + 1,
            forall|j: int| 0 <= j < done@.len() ==> #[trigger] done@[j]@ == split_segments(s@.take(i as int), sep)[j],
            current@ == split_segments(s@.take(i as int), sep).last(),
        decreases s.len() - i,
    {
        let c = s[i];
        assert(s@.take(i as int + 1).drop_last() =~= s@.take(i as int));
        assert(s@.take(i as int + 1).last() == c);
        if c == sep {
            let finished = current;
            done.push(finished);
            current = Vec::new();
            assert(current@ =~= Seq::<char>::empty());
        } else {
            current.push(c);
        }
        i = i + 1;
    }
    assert(s@.take(s@.len() as int) =~= s@);
    done.push(current);
    done
}

/// The text of a three-part cursor: `{micros}|{kind}|{id}`.
pub open spec fn keyed_cursor_text(micros: i64, kind: Seq<char>, id: i64) -> Seq<char> {
    decimal_text(micros as int).push('|') + kind.push('|') + decimal_text(id as int)
}

/// Whether chrono can represent the instant `micros` microseconds after the
/// Unix epoch as a `DateTime<Utc>`: from the first instant of year -262143
/// to the last microsecond of year 262142 (`NaiveDate::MIN` and
/// `NaiveDate::MAX`).
pub open spec fn chrono_micros_representable(micros: i64) -> bool {
    -8_334_601_228_800_000_000 <= micros <= 8_210_266_876_799_999_999
}

/// Calls `chrono::DateTime::from_timestamp_micros` and reports whether it
/// returned a value. The contract claims the range that chrono's source
/// gives: `from_timestamp` succeeds exactly for the days of
/// `NaiveDate::MIN..=NaiveDate::MAX`.
#[verifier::external_body]
pub(crate) fn micros_representable(micros: i64) -> (ok: bool)
    ensures
        ok == chrono_micros_representable(micros),
{
    chrono::DateTime::from_timestamp_micros(micros).is_some()
}

/// What a three-part cursor decodes to, or `None` when it is invalid.
pub open spec fn spec_decode_keyed(
    cursor: Seq<char>,
    kind_a: Seq<char>,
    kind_b: Seq<char>,
    require_positive_id: bool,
) -> Option<(i64, Seq<char>, i64)> {
    match spec_decode_str(cursor) {
        None => None,
        Some(text) => {
            let parts = split_segments(text, '|');
            if parts.len() == 3 && spec_parse_i64(parts[0]) is Ok && (parts[1] == kind_a || parts[1]
                == kind_b) && spec_parse_i64(parts[2]) is Ok && (require_positive_id ==> spec_parse_i64(
                parts[2],
            )->Ok_0 > 0) && chrono_micros_representable(spec_parse_i64(parts[0])->Ok_0) {
                Some((spec_parse_i64(parts[0])->Ok_0, parts[1], spec_parse_i64(parts[2])->Ok_0))
            } else {
                None
            }
        },
    }
}

fn encode_keyed_cursor(micros: i64, kind: &str, id: i64) -> (r: String)
    ensures
        r@ == spec_encode_str(keyed_cursor_text(micros, kind@, id)),
{
    let mut text = i64_decimal_chars(micros);
    text.push('|');
    let kind_chars = chars_of(kind);
    let mut i: usize = 0;
    let ghost before = text@;
    while i < kind_chars.len()
        invariant
            i <= kind_chars@.len(),
            text@ == before + kind_chars@.take(i as int),
        decreases kind_chars.len() - i,
    {
        text.push(kind_chars[i]);
        i = i + 1;
        assert(text@ =~= before + kind_chars@.take(i as int));
    }
    text.push('|');
    let id_chars = i64_decimal_chars(id);
    let ghost middle = text@;
    let mut j: usize = 0;
    while j < id_chars.len()
        invariant
            j <= id_chars@.len(),
            text@ == middle + id_chars@.take(j as int),
        decreases id_chars.len() - j,
    {
        text.push(id_chars[j]);
        j = j + 1;
        assert(text@ =~= middle + id_chars@.take(j as int));
    }
    assert(kind_chars@.take(kind_chars@.len() as int) =~= kind_chars@);
    assert(id_chars@.take(id_chars@.len() as int) =~= id_chars@);
    assert(text@ =~= keyed_cursor_text(micros, kind@, id));
    let s = string_from_chars(&text);
    base64_encode_str(s.as_str())
}

fn decode_keyed_cursor(cursor: &str, kind_a: &str, kind_b: &str, require_positive_id: bool) -> (r: Result<(i64, String, i64), ForumError>)
    ensures
        match spec_decode_keyed(cursor@, kind_a@, kind_b@, require_positive_id) {
            Some((micros, kind, id)) => r matches Ok((m, k, i)) && m == micros && k@ == kind && i == id,
            None => r matches Err(e) && is_bad_request(e, "invalid cursor"@),
        },
        forall|micros: i64, kind: Seq<char>, id: i64|
            #[trigger] spec_encode_str(keyed_cursor_text(micros, kind, id)) == cursor@
                && (kind == kind_a@ || kind == kind_b@)
                && (forall|i: int| 0 <= i < kind.len() ==> kind[i] != '|')
                && (require_positive_id ==> id > 0)
                && chrono_micros_representable(micros)
            ==> r is Ok && r->Ok_0.0 == micros && r->Ok_0.1@ == kind && r->Ok_0.2 == id,
{
    proof {
        assert forall|micros: i64, kind: Seq<char>, id: i64|
            #[trigger] spec_encode_str(keyed_cursor_text(micros, kind, id)) == cursor@
                && (forall|i: int| 0 <= i < kind.len() ==> kind[i] != '|')
            implies split_segments(keyed_cursor_text(micros, kind, id), '|') == seq![
                decimal_text(micros as int),
                kind,
                decimal_text(id as int),
            ] && spec_parse_i64(decimal_text(micros as int)) == Ok::<i64, IntErrorKind>(micros)
              && spec_parse_i64(decimal_text(id as int)) == Ok::<i64, IntErrorKind>(id) by {
            lemma_keyed_roundtrip(micros, kind, id);
        }
    }
    let decoded = match base64_decode_str(cursor) {
        Ok(text) => text,
        Err(_) => return Err(bad_request("invalid cursor")),
    };
    let chars = chars_of(decoded.as_str());
    let parts = split_exec(&chars, '|');
    if parts.len() != 3 {
        return Err(bad_request("invalid cursor"));
    }
    let micros = match parse_i64_chars(&parts[0]) {
        Ok(v) => v,
        Err(_) => return Err(bad_request("invalid cursor")),
    };
    let a = chars_of(kind_a);
    let b = chars_of(kind_b);
    let matches_a = crate::text::chars_equal(&parts[1], &a);
    let matches_b = crate::text::chars_equal(&parts[1], &b);
    if !matches_a && !matches_b {
        return Err(bad_request("invalid cursor"));
    }
    let id = match parse_i64_chars(&parts[2]) {
        Ok(v) => v,
        Err(_) => return Err(bad_request("invalid cursor")),
    };
    if require_positive_id && id <= 0 {
        return Err(bad_request("invalid cursor"));
    }
    if !micros_representable(micros) {
        return Err(bad_request("invalid cursor"));
    }
    let kind = string_from_chars(&parts[1]);
    Ok((micros, kind, id))
}

proof fn lemma_keyed_roundtrip(micros: i64, kind: Seq<char>, id: i64)
    requires
        forall|i: int| 0 <= i < kind.len() ==> #[trigger] kind[i] != '|',
    ensures
        split_segments(keyed_cursor_text(micros, kind, id), '|') == seq![
            decimal_text(micros as int),
            kind,
            decimal_text(id as int),
        ],
        spec_parse_i64(decimal_text(micros as int)) == Ok::<i64, IntErrorKind>(micros),
        spec_parse_i64(decimal_text(id as int)) == Ok::<i64, IntErrorKind>(id),
{
    let m = decimal_text(micros as int);
    let d = decimal_text(id as int);
    lemma_decimal_text_no_bar(micros as int);
    lemma_decimal_text_no_bar(id as int);
    lemma_split_single(m, '|');
    lemma_split_single(kind, '|');
    lemma_split_single(d, '|');
    lemma_split_concat(kind, '|', d);
    lemma_split_concat(m, '|', kind.push('|') + d);
    assert(m.push('|') + kind.push('|') + d =~= m.push('|') + (kind.push('|') + d));
    lemma_parse_decimal_text(micros);
    lemma_parse_decimal_text(id);
}

proof fn lemma_decimal_digits_no_bar(n: nat)
    ensures
        forall|i: int| 0 <= i < crate::number::decimal_digits(n).len() ==> #[trigger] crate::number::decimal_digits(n)[i] != '|',
    decreases n,
{
    let d = crate::number::decimal_digits(n);
    if n >= 10 {
        lemma_decimal_digits_no_bar(n / 10);
        assert forall|i: int| 0 <= i < d.len() implies #[trigger] d[i] != '|' by {
            if i < d.len() - 1 {
                assert(d[i] == crate::number::decimal_digits(n / 10)[i]);
            } else {
                assert(d[i] as int == (n % 10) + 48);
            }
        }
    } else {
        assert(d[0] as int == n + 48);
    }
}

pub proof fn lemma_decimal_text_no_bar(v: int)
    ensures
        forall|i: int| 0 <= i < decimal_text(v).len() ==> #[trigger] decimal_text(v)[i] != '|',
{
    if v < 0 {
        lemma_decimal_digits_no_bar((-v) as nat);
        let t = decimal_text(v);
        assert forall|i: int| 0 <= i < t.len() implies #[trigger] t[i] != '|' by {
            if i > 0 {
                assert(t[i] == crate::number::decimal_digits((-v) as nat)[i - 1]);
            }
        }
    } else {
        lemma_decimal_digits_no_bar(v as nat);
    }
}


/// Encode a bookmark-list cursor from the last row's creation instant and key.
pub fn encode_bookmark_cursor(created_at_micros: i64, target_type: &str, target_id: i64) -> (r: String)
    ensures
        r@ == spec_encode_str(keyed_cursor_text(created_at_micros, target_type@, target_id)),
{
    encode_keyed_cursor(created_at_micros, target_type, target_id)
}

/// Decode a bookmark-list cursor; the kind must be `thread` or `comment`.
pub fn decode_bookmark_cursor(cursor: &str) -> (r: Result<(i64, String, i64), ForumError>)
    ensures
        match spec_decode_keyed(cursor@, "thread"@, "comment"@, false) {
            Some((micros, kind, id)) => r matches Ok((m, k, i)) && m == micros && k@ == kind && i == id,
            None => r matches Err(e) && is_bad_request(e, "invalid cursor"@),
        },
        forall|micros: i64, kind: Seq<char>, id: i64|
            #[trigger] spec_encode_str(keyed_cursor_text(micros, kind, id)) == cursor@
                && (kind == "thread"@ || kind == "comment"@) && chrono_micros_representable(micros)
            ==> r is Ok && r->Ok_0.0 == micros && r->Ok_0.1@ == kind && r->Ok_0.2 == id,
{
    proof { lemma_kind_literals(); }
    decode_keyed_cursor(cursor, "thread", "comment", false)
}

/// Encode a subscription-list cursor from the last row's creation instant and key.
pub fn encode_subscription_cursor(created_at_micros: i64, target_type: &str, target_id: i64) -> (r: String)
    ensures
        r@ == spec_encode_str(keyed_cursor_text(created_at_micros, target_type@, target_id)),
{
    encode_keyed_cursor(created_at_micros, target_type, target_id)
}

/// Decode a subscription-list cursor; the kind must be `board` or `thread`.
pub fn decode_subscription_cursor(cursor: &str) -> (r: Result<(i64, String, i64), ForumError>)
    ensures
        match spec_decode_keyed(cursor@, "board"@, "thread"@, false) {
            Some((micros, kind, id)) => r matches Ok((m, k, i)) && m == micros && k@ == kind && i == id,
            None => r matches Err(e) && is_bad_request(e, "invalid cursor"@),
        },
        forall|micros: i64, kind: Seq<char>, id: i64|
            #[trigger] spec_encode_str(keyed_cursor_text(micros, kind, id)) == cursor@
                && (kind == "board"@ || kind == "thread"@) && chrono_micros_representable(micros)
            ==> r is Ok && r->Ok_0.0 == micros && r->Ok_0.1@ == kind && r->Ok_0.2 == id,
{
    proof { lemma_kind_literals(); }
    decode_keyed_cursor(cursor, "board", "thread", false)
}

/// Encode a profile-content cursor from the last row's activity instant and key.
pub fn encode_profile_content_cursor(activity_at_micros: i64, target_type: &str, id: i64) -> (r: String)
    ensures
        r@ == spec_encode_str(keyed_cursor_text(activity_at_micros, target_type@, id)),
{
    encode_keyed_cursor(activity_at_micros, target_type, id)
}

/// Decode a profile-content cursor; the kind must be `thread` or `comment`
/// and the id positive.
pub fn decode_profile_content_cursor(cursor: &str) -> (r: Result<(i64, String, i64), ForumError>)
    ensures
        match spec_decode_keyed(cursor@, "thread"@, "comment"@, true) {
            Some((micros, kind, id)) => r matches Ok((m, k, i)) && m == micros && k@ == kind && i == id,
            None => r matches Err(e) && is_bad_request(e, "invalid cursor"@),
        },
        forall|micros: i64, kind: Seq<char>, id: i64|
            #[trigger] spec_encode_str(keyed_cursor_text(micros, kind, id)) == cursor@
                && (kind == "thread"@ || kind == "comment"@) && id > 0 && chrono_micros_representable(micros)
            ==> r is Ok && r->Ok_0.0 == micros && r->Ok_0.1@ == kind && r->Ok_0.2 == id,
{
    proof { lemma_kind_literals(); }
    decode_keyed_cursor(cursor, "thread", "comment", true)
}

/// The text of a two-part cursor: `{micros}|{id}`.
pub open spec fn pair_cursor_text(micros: i64, id: i64) -> Seq<char> {
    decimal_text(micros as int).push('|') + decimal_text(id as int)
}

/// What a two-part cursor decodes to, or `None` when it is invalid.
pub open spec fn spec_decode_pair(cursor: Seq<char>) -> Option<(i64, i64)> {
    match spec_decode_str(cursor) {
        None => None,
        Some(text) => {
            let parts = split_segments(text, '|');
            if parts.len() == 2 && spec_parse_i64(parts[0]) is Ok && spec_parse_i64(parts[1]) is Ok
                && chrono_micros_representable(spec_parse_i64(parts[0])->Ok_0) {
                Some((spec_parse_i64(parts[0])->Ok_0, spec_parse_i64(parts[1])->Ok_0))
            } else {
                None
            }
        },
    }
}

fn encode_pair_cursor(micros: i64, id: i64) -> (r: String)
    ensures
        r@ == spec_encode_str(pair_cursor_text(micros, id)),
{
    let mut text = i64_decimal_chars(micros);
    text.push('|');
    let id_chars = i64_decimal_chars(id);
    let ghost before = text@;
    let mut j: usize = 0;
    while j < id_chars.len()
        invariant
            j <= id_chars@.len(),
            text@ == before + id_chars@.take(j as int),
        decreases id_chars.len() - j,
    {
        text.push(id_chars[j]);
        j = j + 1;
        assert(text@ =~= before + id_chars@.take(j as int));
    }
    assert(id_chars@.take(id_chars@.len() as int) =~= id_chars@);
    let s = string_from_chars(&text);
    base64_encode_str(s.as_str())
}

/// Decoding splits at the first `|`: the instant before it, the id after it.
fn decode_pair_cursor(cursor: &str) -> (r: Result<(i64, i64), ForumError>)
    ensures
        match spec_decode_pair(cursor@) {
            Some((micros, id)) => r == Ok::<(i64, i64), ForumError>((micros, id)),
            None => r matches Err(e) && is_bad_request(e, "invalid cursor"@),
        },
        forall|micros: i64, id: i64|
            #[trigger] spec_encode_str(pair_cursor_text(micros, id)) == cursor@ && chrono_micros_representable(micros)
            ==> r == Ok::<(i64, i64), ForumError>((micros, id)),
{
    proof {
        assert forall|micros: i64, id: i64|
            #[trigger] spec_encode_str(pair_cursor_text(micros, id)) == cursor@
            implies split_segments(pair_cursor_text(micros, id), '|') == seq![
                decimal_text(micros as int),
                decimal_text(id as int),
            ] && spec_parse_i64(decimal_text(micros as int)) == Ok::<i64, IntErrorKind>(micros)
              && spec_parse_i64(decimal_text(id as int)) == Ok::<i64, IntErrorKind>(id) by {
            let m = decimal_text(micros as int);
            let d = decimal_text(id as int);
            lemma_decimal_text_no_bar(micros as int);
            lemma_decimal_text_no_bar(id as int);
            lemma_split_single(m, '|');
            lemma_split_single(d, '|');
            lemma_split_concat(m, '|', d);
            lemma_parse_decimal_text(micros);
            lemma_parse_decimal_text(id);
        }
    }
    let decoded = match base64_decode_str(cursor) {
        Ok(text) => text,
        Err(_) => return Err(bad_request("invalid cursor")),
    };
    let chars = chars_of(decoded.as_str());
    let parts = split_exec(&chars, '|');
    if parts.len() != 2 {
        return Err(bad_request("invalid cursor"));
    }
    let micros = match parse_i64_chars(&parts[0]) {
        Ok(v) => v,
        Err(_) => return Err(bad_request("invalid cursor")),
    };
    if !micros_representable(micros) {
        return Err(bad_request("invalid cursor"));
    }
    match parse_i64_chars(&parts[1]) {
        Ok(id) => Ok((micros, id)),
        Err(_) => Err(bad_request("invalid cursor")),
    }
}

/// Encode the following-feed cursor from the last thread's creation instant and id.
pub fn encode_following_feed_cursor(created_at_micros: i64, thread_id: i64) -> (r: String)
    ensures
        r@ == spec_encode_str(pair_cursor_text(created_at_micros, thread_id)),
{
    encode_pair_cursor(created_at_micros, thread_id)
}

/// Decode the following-feed cursor into its instant and thread id.
pub fn decode_following_feed_cursor(cursor: &str) -> (r: Result<(i64, i64), ForumError>)
    ensures
        match spec_decode_pair(cursor@) {
            Some((micros, id)) => r == Ok::<(i64, i64), ForumError>((micros, id)),
            None => r matches Err(e) && is_bad_request(e, "invalid cursor"@),
        },
        forall|micros: i64, id: i64|
            #[trigger] spec_encode_str(pair_cursor_text(micros, id)) == cursor@ && chrono_micros_representable(micros)
            ==> r == Ok::<(i64, i64), ForumError>((micros, id)),
{
    decode_pair_cursor(cursor)
}

/// Encode the subscription-feed cursor from the last thread's activity instant and id.
pub fn encode_subscription_feed_cursor(last_activity_micros: i64, thread_id: i64) -> (r: String)
    ensures
        r@ == spec_encode_str(pair_cursor_text(last_activity_micros, thread_id)),
{
    encode_pair_cursor(last_activity_micros, thread_id)
}

/// Decode the subscription-feed cursor into its instant and thread id.
pub fn decode_subscription_feed_cursor(cursor: &str) -> (r: Result<(i64, i64), ForumError>)
    ensures
        match spec_decode_pair(cursor@) {
            Some((micros, id)) => r == Ok::<(i64, i64), ForumError>((micros, id)),
            None => r matches Err(e) && is_bad_request(e, "invalid cursor"@),
        },
        forall|micros: i64, id: i64|
            #[trigger] spec_encode_str(pair_cursor_text(micros, id)) == cursor@ && chrono_micros_representable(micros)
            ==> r == Ok::<(i64, i64), ForumError>((micros, id)),
{
    decode_pair_cursor(cursor)
}

/// Parse an optional decimal id cursor of a public profile list.
pub fn parse_cursor(cursor: Option<&str>) -> (r: Result<Option<i64>, ForumError>)
    ensures
        match cursor {
            None => r == Ok::<Option<i64>, ForumError>(None),
            Some(c) => match spec_parse_i64(c@) {
                Ok(v) => r == Ok::<Option<i64>, ForumError>(Some(v)),
                Err(_) => r matches Err(e) && is_bad_request(e, "invalid cursor"@),
            },
        },
{
    match cursor {
        None => Ok(None),
        Some(c) => match crate::number::parse_i64(c) {
            Ok(v) => Ok(Some(v)),
            Err(_) => Err(bad_request("invalid cursor")),
        },
    }
}

proof fn lemma_kind_literals()
    ensures
        forall|i: int| 0 <= i < "thread"@.len() ==> "thread"@[i] != '|',
        forall|i: int| 0 <= i < "comment"@.len() ==> "comment"@[i] != '|',
        forall|i: int| 0 <= i < "board"@.len() ==> "board"@[i] != '|',
{
    reveal_strlit("thread");
    reveal_strlit("comment");
    reveal_strlit("board");
}

} // verus!
