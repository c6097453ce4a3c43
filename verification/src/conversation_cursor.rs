//! The cursor of the conversation list: the last message's instant as
//! RFC 3339 text and the conversation id, `{instant}|{id}`, in base64.

use vstd::prelude::*;
use crate::codec::{base64_decode_str, base64_encode_str, spec_decode_str, spec_encode_str};
use crate::cursor::{chrono_micros_representable, micros_representable};
use crate::error::{is_bad_request, ForumError};
use crate::number::{decimal_text, i64_decimal_chars, lemma_parse_decimal_text, parse_i64_chars, spec_parse_i64};
use crate::cursor::lemma_decimal_text_no_bar;
use crate::text::{chars_of, string_from_chars};

verus! {

/// The RFC 3339 text chrono writes for the instant `micros` microseconds
/// after the epoch (`DateTime::<Utc>::to_rfc3339`).
pub uninterp spec fn rfc3339_of_micros(micros: i64) -> Seq<char>;

/// The instant, in microseconds after the epoch, that chrono reads from an
/// RFC 3339 text (`DateTime::parse_from_rfc3339`), or `None` when it
/// refuses the text.
pub uninterp spec fn rfc3339_parsed_micros(text: Seq<char>) -> Option<i64>;

/// The instants of years 0 to 9999, the years RFC 3339 writes with four
/// digits.
pub open spec fn in_four_digit_years(micros: i64) -> bool {
    -62_167_219_200_000_000 <= micros <= 253_402_300_799_999_999
}

/// Calls `chrono::DateTime::from_timestamp_micros` (which succeeds, by the
/// `requires`) and `to_rfc3339`. The contract claims that the text is a
/// function of the instant, that it holds no `|` (chrono writes digits,
/// `-`, `T`, `:`, `.` and the `+00:00` offset), and that for an instant of
/// years 0 to 9999 `parse_from_rfc3339` reads the same instant back (the
/// year takes four digits, the fraction is written exactly with 0, 3, 6 or
/// 9 digits, and the parser accepts that shape).
#[verifier::external_body]
fn rfc3339_text(micros: i64) -> (s: String)
    requires
        chrono_micros_representable(micros),
    ensures
        s@ == rfc3339_of_micros(micros),
        forall|i: int| 0 <= i < s@.len() ==> s@[i] != '|',
        in_four_digit_years(micros) ==> rfc3339_parsed_micros(s@) == Some(micros),
{
    chrono::DateTime::from_timestamp_micros(micros).expect("representable instant").to_rfc3339()
}

/// Calls `chrono::DateTime::parse_from_rfc3339` and converts an accepted
/// instant to microseconds after the epoch; the contract claims only that
/// the answer is a function of the text.
#[verifier::external_body]
fn rfc3339_micros(text: &str) -> (r: Option<i64>)
    ensures
        r == rfc3339_parsed_micros(text@),
{
    chrono::DateTime::parse_from_rfc3339(text).ok().map(|t| t.with_timezone(&chrono::Utc).timestamp_micros())
}

/// The text of a conversation cursor before encoding.
pub open spec fn conversation_cursor_text(micros: i64, id: i64) -> Seq<char> {
    rfc3339_of_micros(micros).push('|') + decimal_text(id as int)
}

/// The conversation cursor after the conversation `id` whose last message
/// came at `micros`.
pub fn encode_conversation_cursor(last_message_at_micros: i64, id: i64) -> (c: String)
    requires
        chrono_micros_representable(last_message_at_micros),
    ensures
        c@ == spec_encode_str(conversation_cursor_text(last_message_at_micros, id)),
        in_four_digit_years(last_message_at_micros)
            ==> spec_decode_conversation_cursor(c@) == Some((last_message_at_micros, id)),
{
    let stamp = rfc3339_text(last_message_at_micros);
    let mut text = chars_of(stamp.as_str());
    text.push('|');
    let mut digits = i64_decimal_chars(id);
    text.append(&mut digits);
    let s = string_from_chars(&text);
    let c = base64_encode_str(s.as_str());
    proof {
        let whole = conversation_cursor_text(last_message_at_micros, id);
        let digits_text = decimal_text(id as int);
        assert(s@ =~= whole);
        lemma_decimal_text_no_bar(id as int);
        lemma_last_index_after(stamp@, '|', digits_text);
        assert(whole.take(stamp@.len() as int) =~= stamp@);
        assert(whole.skip(stamp@.len() as int + 1) =~= digits_text);
        lemma_parse_decimal_text(id);
    }
    c
}

/// The cursor for an instant chrono can represent; `None` otherwise.
pub fn try_encode_conversation_cursor(last_message_at_micros: i64, id: i64) -> (c: Option<String>)
    ensures
        chrono_micros_representable(last_message_at_micros)
            ==> (c matches Some(s) && s@ == spec_encode_str(conversation_cursor_text(last_message_at_micros, id))),
        !chrono_micros_representable(last_message_at_micros) ==> c is None,
        in_four_digit_years(last_message_at_micros) ==> (c matches Some(s)
            && spec_decode_conversation_cursor(s@) == Some((last_message_at_micros, id))),
{
    if micros_representable(last_message_at_micros) {
        Some(encode_conversation_cursor(last_message_at_micros, id))
    } else {
        None
    }
}

/// The index of the last `c` in `s`.
pub open spec fn last_index_of(s: Seq<char>, c: char) -> Option<int>
    decreases s.len(),
{
    if s.len() == 0 {
        None
    } else if s.last() == c {
        Some(s.len() - 1)
    } else {
        last_index_of(s.drop_last(), c)
    }
}

/// What a conversation cursor decodes to: the text after the last `|` is
/// the id, the text before it an RFC 3339 instant.
pub open spec fn spec_decode_conversation_cursor(cursor: Seq<char>) -> Option<(i64, i64)> {
    match spec_decode_str(cursor) {
        None => None,
        Some(text) => match last_index_of(text, '|') {
            None => None,
            Some(k) => match rfc3339_parsed_micros(text.take(k)) {
                None => None,
                Some(m) => match spec_parse_i64(text.skip(k + 1)) {
                    Ok(id) => Some((m, id)),
                    Err(_) => None,
                },
            },
        },
    }
}

proof fn lemma_last_index_after(a: Seq<char>, c: char, b: Seq<char>)
    requires
        forall|i: int| 0 <= i < b.len() ==> #[trigger] b[i] != c,
    ensures
        last_index_of(a.push(c) + b, c) == Some(a.len() as int),
    decreases b.len(),
{
    let s = a.push(c) + b;
    if b.len() == 0 {
        assert(s =~= a.push(c));
    } else {
        assert(s.last() == b.last());
        assert(s.drop_last() =~= a.push(c) + b.drop_last());
        assert forall|i: int| 0 <= i < b.drop_last().len() implies #[trigger] b.drop_last()[i] != c by {
            assert(b.drop_last()[i] == b[i]);
        }
        lemma_last_index_after(a, c, b.drop_last());
    }
}

fn find_last(s: &Vec<char>, c: char) -> (r: Option<usize>)
    ensures
        match r {
            Some(k) => last_index_of(s@, c) == Some(k as int) && k < s@.len(),
            None => last_index_of(s@, c) is None,
        },
{
    let mut k: usize = s.len();
    assert(s@.take(k as int) =~= s@);
    while k > 0
        invariant
            k <= s@.len(),
            last_index_of(s@, c) == last_index_of(s@.take(k as int), c),
        decreases k,
    {
        assert(s@.take(k as int).last() == s@[k - 1]);
        assert(s@.take(k as int).drop_last() =~= s@.take(k - 1));
        if s[k - 1] == c {
            return Some(k - 1);
        }
        k = k - 1;
    }
    assert(s@.take(0) =~= Seq::<char>::empty());
    None
}

fn slice_chars(s: &Vec<char>, from: usize, to: usize) -> (r: Vec<char>)
    requires
        from <= to <= s@.len(),
    ensures
        r@ == s@.subrange(from as int, to as int),
{
    let mut out: Vec<char> = Vec::new();
    let mut i: usize = from;
    while i < to
        invariant
            from <= i <= to,
            to <= s@.len(),
            out@ == s@.subrange(from as int, i as int),
        decreases to - i,
    {
        out.push(s[i]);
        i = i + 1;
        assert(out@ =~= s@.subrange(from as int, i as int));
    }
    out
}

/// Decode a conversation cursor; every malformation is the same error.
pub fn decode_conversation_cursor(cursor: &str) -> (r: Result<(i64, i64), ForumError>)
    ensures
        r is Ok <==> spec_decode_conversation_cursor(cursor@) is Some,
        r matches Ok(v) ==> spec_decode_conversation_cursor(cursor@) == Some(v),
        r matches Err(e) ==> is_bad_request(e, "invalid conversation cursor"@),
{
    let decoded_result = base64_decode_str(cursor);
    let decoded = match decoded_result {
        Ok(d) => d,
        Err(_) => return Err(ForumError::BadRequest(String::from_str("invalid conversation cursor"))),
    };
    let text = chars_of(decoded.as_str());
    let k = match find_last(&text, '|') {
        Some(k) => k,
        None => return Err(ForumError::BadRequest(String::from_str("invalid conversation cursor"))),
    };
    let stamp = slice_chars(&text, 0, k);
    let id_text = slice_chars(&text, k + 1, text.len());
    assert(stamp@ =~= text@.take(k as int));
    assert(id_text@ =~= text@.skip(k as int + 1));
    let stamp_str = string_from_chars(&stamp);
    let micros = match rfc3339_micros(stamp_str.as_str()) {
        Some(m) => m,
        None => return Err(ForumError::BadRequest(String::from_str("invalid conversation cursor"))),
    };
    match parse_i64_chars(&id_text) {
        Ok(id) => Ok((micros, id)),
        Err(_) => Err(ForumError::BadRequest(String::from_str("invalid conversation cursor"))),
    }
}

} // verus!
