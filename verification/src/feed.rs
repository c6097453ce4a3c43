//! Thread feeds: which listing a feed request selects, how a page is cut
//! from an over-fetched result, and the keys feeds are cached under.

use vstd::prelude::*;
use crate::cursor::{base64_decode_i64, base64_encode_i64, spec_encode_i64};
use crate::error::{is_bad_request, ForumError};
use crate::number::{decimal_text, i64_to_string, parse_i64, spec_parse_i64, IntErrorKind};
use crate::text::str_eq;

verus! {

/// A cursor that parses as a number, ignored otherwise.
pub open spec fn lenient_cursor(cursor: Option<Seq<char>>) -> Option<i64> {
    match cursor {
        Some(c) => match spec_parse_i64(c) {
            Ok(v) => Some(v),
            Err(_) => None,
        },
        None => None,
    }
}

pub fn parse_lenient(cursor: Option<&str>) -> (r: Option<i64>)
    ensures
        r == lenient_cursor(crate::text::opt_str_view(cursor)),
{
    match cursor {
        Some(c) => match parse_i64(c) {
            Ok(v) => Some(v),
            Err(_) => None,
        },
        None => None,
    }
}

/// The listing a feed request selects.
#[derive(Clone, Copy, Debug, PartialEq, Eq)]
pub enum FeedRoute {
    /// The signed-in reader's unread threads, after a thread-id cursor.
    Unread(Option<i64>),
    /// Threads by accounts the signed-in reader follows.
    Following(Option<i64>),
    /// A board's (or every board's) threads by the sort; the global hot
    /// feed's first page is first tried from the ranking cache.
    General { board_id: Option<i64>, try_hot_cache: bool },
}

pub open spec fn spec_feed_route(sort: Seq<char>, board: Option<Seq<char>>, cursor: Option<Seq<char>>) -> FeedRoute {
    if sort == "unread"@ {
        FeedRoute::Unread(lenient_cursor(cursor))
    } else if sort == "following"@ {
        FeedRoute::Following(lenient_cursor(cursor))
    } else {
        FeedRoute::General {
            board_id: lenient_cursor(board),
            try_hot_cache: sort == "hot"@ && board is None && cursor is None,
        }
    }
}

pub fn feed_route(sort: &str, board: Option<&str>, cursor: Option<&str>) -> (r: FeedRoute)
    ensures
        r == spec_feed_route(sort@, crate::text::opt_str_view(board), crate::text::opt_str_view(cursor)),
{
    if str_eq(sort, "unread") {
        FeedRoute::Unread(parse_lenient(cursor))
    } else if str_eq(sort, "following") {
        FeedRoute::Following(parse_lenient(cursor))
    } else {
        FeedRoute::General {
            board_id: parse_lenient(board),
            try_hot_cache: str_eq(sort, "hot") && board.is_none() && cursor.is_none(),
        }
    }
}

/// The next cursor of the cached hot feed's first page: the page size, when
/// the cache filled the page.
pub fn hot_cache_next_cursor(ids_len: usize, limit: i64) -> (r: Option<String>)
    ensures
        ids_len >= limit ==> (r matches Some(s) && s@ == spec_encode_i64(limit)),
        ids_len < limit ==> r is None,
{
    if ids_len as i128 >= limit as i128 {
        Some(base64_encode_i64(limit))
    } else {
        None
    }
}

/// `None` or `Some(n)`, as `{:?}` prints an optional number.
pub open spec fn debug_opt_i64(v: Option<i64>) -> Seq<char> {
    match v {
        Some(n) => "Some("@ + decimal_text(n as int) + ")"@,
        None => "None"@,
    }
}

/// The cache entry of an anonymous feed page:
/// `v{generation}:{sort}:{board:?}:{cursor}`.
pub open spec fn spec_feed_cache_id(generation: i64, sort: Seq<char>, board_id: Option<i64>, cursor: Option<Seq<char>>) -> Seq<char> {
    "v"@ + decimal_text(generation as int) + ":"@ + sort + ":"@ + debug_opt_i64(board_id) + ":"@
        + (match cursor {
        Some(c) => c,
        None => Seq::<char>::empty(),
    })
}

pub fn feed_cache_id(generation: i64, sort: &str, board_id: Option<i64>, cursor: Option<&str>) -> (s: String)
    ensures
        s@ == spec_feed_cache_id(generation, sort@, board_id, crate::text::opt_str_view(cursor)),
{
    let mut s = String::from_str("v");
    s.append(i64_to_string(generation).as_str());
    s.append(":");
    s.append(sort);
    s.append(":");
    match board_id {
        Some(n) => {
            s.append("Some(");
            s.append(i64_to_string(n).as_str());
            s.append(")");
        },
        None => {
            s.append("None");
        },
    }
    s.append(":");
    match cursor {
        Some(c) => {
            s.append(c);
        },
        None => {},
    }
    s
}

/// The order of a general listing: `hot` by score, anything else newest first.
#[derive(Clone, Copy, Debug, PartialEq, Eq)]
pub enum FeedOrder {
    Hot,
    New,
}

pub fn feed_order(sort: &str) -> (o: FeedOrder)
    ensures
        o == (if sort@ == "hot"@ { FeedOrder::Hot } else { FeedOrder::New }),
{
    if str_eq(sort, "hot") {
        FeedOrder::Hot
    } else {
        FeedOrder::New
    }
}

/// A newest-first cursor names the last thread seen.
pub fn decode_id_cursor(cursor: Option<&str>) -> (r: Result<Option<i64>, ForumError>)
    ensures
        cursor is None ==> r == Ok::<Option<i64>, ForumError>(None),
        cursor matches Some(c) ==> (r is Ok <==> crate::cursor::spec_decode_i64(c@) is Some),
        cursor matches Some(c) ==> (r matches Ok(v) ==> v == crate::cursor::spec_decode_i64(c@)),
        r matches Err(e) ==> is_bad_request(e, "invalid cursor"@),
{
    match cursor {
        None => Ok(None),
        Some(c) => match base64_decode_i64(c) {
            Ok(v) => Ok(Some(v)),
            Err(_) => Err(ForumError::BadRequest(String::from_str("invalid cursor"))),
        },
    }
}

/// Listing pages hold between 1 and 100 rows.
pub fn page_size(limit: i64) -> (n: i64)
    ensures
        n == (if limit < 1 { 1 } else if limit > 100 { 100 } else { limit }),
{
    if limit < 1 {
        1
    } else if limit > 100 {
        100
    } else {
        limit
    }
}

/// Cut a page from rows fetched one past the page size: the rows beyond
/// the page are dropped, and their existence means there is a next page.
pub fn split_page<T>(rows: Vec<T>, size: usize) -> (r: (Vec<T>, bool))
    ensures
        r.1 == (rows@.len() > size),
        r.0@ == (if rows@.len() > size { rows@.take(size as int) } else { rows@ }),
{
    let has_more = rows.len() > size;
    let mut items = rows;
    if has_more {
        items.truncate(size);
    }
    (items, has_more)
}

/// The next-page cursor of an id-keyed listing: the last id of a full page.
pub fn next_id_cursor(has_more: bool, last_id: Option<i64>) -> (r: Option<String>)
    ensures
        (has_more && last_id is Some) ==> (r matches Some(s) && s@ == spec_encode_i64(last_id->0)),
        !(has_more && last_id is Some) ==> r is None,
{
    if has_more {
        match last_id {
            Some(id) => Some(base64_encode_i64(id)),
            None => None,
        }
    } else {
        None
    }
}

/// The position of the first `x` in `s`.
pub open spec fn first_index(s: Seq<i64>, x: i64) -> Option<int>
    decreases s.len(),
{
    if s.len() == 0 {
        None
    } else if s[0] == x {
        Some(0)
    } else {
        match first_index(s.drop_first(), x) {
            Some(k) => Some(k + 1),
            None => None,
        }
    }
}

/// For each requested id in order, the position of the first fetched row
/// with that id; ids with no fetched row are skipped.
pub open spec fn requested_order(ids: Seq<i64>, row_ids: Seq<i64>) -> Seq<usize>
    decreases ids.len(),
{
    if ids.len() == 0 {
        Seq::empty()
    } else {
        let before = requested_order(ids.drop_last(), row_ids);
        match first_index(row_ids, ids.last()) {
            Some(k) => before.push(k as usize),
            None => before,
        }
    }
}

fn find_first(s: &Vec<i64>, x: i64) -> (r: Option<usize>)
    ensures
        match first_index(s@, x) {
            Some(k) => r matches Some(p) && p as int == k && k < s@.len(),
            None => r is None,
        },
{
    let mut i: usize = 0;
    assert(s@.skip(0) =~= s@);
    while i < s.len()
        invariant
            i <= s@.len(),
            first_index(s@, x) == (match first_index(s@.skip(i as int), x) {
                Some(k) => Some(k + i),
                None => None::<int>,
            }),
        decreases s.len() - i,
    {
        assert(s@.skip(i as int).drop_first() =~= s@.skip(i as int + 1));
        assert(s@.skip(i as int)[0] == s@[i as int]);
        if s[i] == x {
            return Some(i);
        }
        i = i + 1;
    }
    None
}

/// Fetched rows come back in the order of the requested ids (the order of
/// the ranking), as positions into the fetched rows.
pub fn order_by_requested_ids(ids: &Vec<i64>, row_ids: &Vec<i64>) -> (r: Vec<usize>)
    ensures
        r@ == requested_order(ids@, row_ids@),
        forall|k: int| 0 <= k < r@.len() ==> (#[trigger] r@[k] as int) < row_ids@.len(),
{
    let mut out: Vec<usize> = Vec::new();
    let mut i: usize = 0;
    while i < ids.len()
        invariant
            i <= ids@.len(),
            out@ == requested_order(ids@.take(i as int), row_ids@),
            forall|k: int| 0 <= k < out@.len() ==> (#[trigger] out@[k] as int) < row_ids@.len(),
        decreases ids.len() - i,
    {
        proof {
            assert(ids@.take(i as int + 1).drop_last() =~= ids@.take(i as int));
            assert(ids@.take(i as int + 1).last() == ids@[i as int]);
        }
        match find_first(row_ids, ids[i]) {
            Some(pos) => {
                out.push(pos);
            },
            None => {},
        }
        i = i + 1;
    }
    assert(ids@.take(ids@.len() as int) =~= ids@);
    out
}

/// The cache entry a feed page is read through: only anonymous requests use
/// the shared cache, since a signed-in reader's page is their own.
pub fn feed_cache_entry(viewer_id: Option<i64>, generation: i64, sort: &str, board_id: Option<i64>, cursor: Option<&str>) -> (r: Option<String>)
    ensures
        viewer_id is Some ==> r is None,
        viewer_id is None ==> (r matches Some(s)
            && s@ == spec_feed_cache_id(generation, sort@, board_id, crate::text::opt_str_view(cursor))),
{
    match viewer_id {
        Some(_) => None,
        None => Some(feed_cache_id(generation, sort, board_id, cursor)),
    }
}

/// The cached hot ranking serves only the first page of the global hot
/// feed: a request that carries a cursor, names a board or asks for another
/// order is always read from the database.
pub proof fn lemma_hot_cache_only_for_first_global_page(sort: Seq<char>, board: Option<Seq<char>>, cursor: Option<Seq<char>>)
    ensures
        (spec_feed_route(sort, board, cursor) matches FeedRoute::General { try_hot_cache: true, .. })
            ==> cursor is None && board is None && sort == "hot"@,
        cursor is Some ==> !(spec_feed_route(sort, board, cursor) matches FeedRoute::General { try_hot_cache: true, .. }),
        board is Some ==> !(spec_feed_route(sort, board, cursor) matches FeedRoute::General { try_hot_cache: true, .. }),
{
}
} // verus!
