//! A profile's public threads and comments, as one timeline: which ids
//! each kind of lookup needs, which items are shown, and how each is shown.

use vstd::prelude::*;
use crate::dto::{clone_opt_string, spec_unix_seconds, unix_seconds};
use crate::number::{decimal_text, i64_to_string};
use crate::queries::PostViewerState;
use crate::text::{opt_string_view, str_eq};

verus! {

/// The ids of the timeline items of one kind, in timeline order.
pub open spec fn ids_of_kind(items: Seq<(String, i64)>, kind: Seq<char>) -> Seq<i64>
    decreases items.len(),
{
    if items.len() == 0 {
        Seq::empty()
    } else {
        let before = ids_of_kind(items.drop_last(), kind);
        if items.last().0@ == kind {
            before.push(items.last().1)
        } else {
            before
        }
    }
}

/// Split the timeline's (type, id) pairs into thread ids and comment ids.
pub fn partition_targets(items: &Vec<(String, i64)>) -> (r: (Vec<i64>, Vec<i64>))
    ensures
        r.0@ == ids_of_kind(items@, "thread"@),
        r.1@ == ids_of_kind(items@, "comment"@),
{
    let mut threads: Vec<i64> = Vec::new();
    let mut comments: Vec<i64> = Vec::new();
    let mut i: usize = 0;
    while i < items.len()
        invariant
            i <= items@.len(),
            threads@ == ids_of_kind(items@.take(i as int), "thread"@),
            comments@ == ids_of_kind(items@.take(i as int), "comment"@),
        decreases items.len() - i,
    {
        proof {
            assert(items@.take(i as int + 1).drop_last() =~= items@.take(i as int));
            assert(items@.take(i as int + 1).last() == items@[i as int]);
        }
        if str_eq(items[i].0.as_str(), "thread") {
            threads.push(items[i].1);
        }
        if str_eq(items[i].0.as_str(), "comment") {
            comments.push(items[i].1);
        }
        i = i + 1;
    }
    assert(items@.take(items@.len() as int) =~= items@);
    (threads, comments)
}

/// A timeline excerpt is shown only when it is not empty.
pub fn shown_excerpt(projected: Option<String>) -> (r: Option<String>)
    ensures
        match projected {
            Some(p) => if p@.len() == 0 { r is None } else { r == Some(p) },
            None => r is None,
        },
{
    match projected {
        Some(p) => if crate::text::char_count(p.as_str()) == 0 {
            None
        } else {
            Some(p)
        },
        None => None,
    }
}

/// The positions of the timeline rows whose author is among the accounts
/// the lookup found, in timeline order; rows of other authors are dropped.
pub open spec fn kept_rows(row_authors: Seq<i64>, found_authors: Seq<i64>) -> Seq<usize>
    decreases row_authors.len(),
{
    if row_authors.len() == 0 {
        Seq::empty()
    } else {
        let before = kept_rows(row_authors.drop_last(), found_authors);
        if found_authors.contains(row_authors.last()) {
            before.push((row_authors.len() - 1) as usize)
        } else {
            before
        }
    }
}

fn contains_id(ids: &Vec<i64>, x: i64) -> (b: bool)
    ensures
        b == ids@.contains(x),
{
    let mut i: usize = 0;
    while i < ids.len()
        invariant
            i <= ids@.len(),
            forall|j: int| 0 <= j < i ==> ids@[j] != x,
        decreases ids.len() - i,
    {
        if ids[i] == x {
            assert(ids@[i as int] == x);
            return true;
        }
        i = i + 1;
    }
    false
}

/// Which timeline rows are shown: those whose author the public account
/// lookup found (`row_authors[i]` is the author of row `i`).
pub fn shown_rows(row_authors: &Vec<i64>, found_authors: &Vec<i64>) -> (r: Vec<usize>)
    ensures
        r@ == kept_rows(row_authors@, found_authors@),
{
    let mut out: Vec<usize> = Vec::new();
    let mut i: usize = 0;
    while i < row_authors.len()
        invariant
            i <= row_authors@.len(),
            out@ == kept_rows(row_authors@.take(i as int), found_authors@),
        decreases row_authors.len() - i,
    {
        proof {
            assert(row_authors@.take(i as int + 1).drop_last() =~= row_authors@.take(i as int));
            assert(row_authors@.take(i as int + 1).last() == row_authors@[i as int]);
        }
        if contains_id(found_authors, row_authors[i]) {
            out.push(i);
        }
        i = i + 1;
    }
    assert(row_authors@.take(row_authors@.len() as int) =~= row_authors@);
    out
}

/// Every shown position names a row whose author was found, and the
/// positions increase, so the timeline keeps its order.
pub proof fn lemma_shown_rows_keep_order(row_authors: Seq<i64>, found_authors: Seq<i64>)
    requires
        row_authors.len() <= usize::MAX,
    ensures
        forall|k: int| 0 <= k < kept_rows(row_authors, found_authors).len() ==> {
            let p = #[trigger] kept_rows(row_authors, found_authors)[k];
            &&& (p as int) < row_authors.len()
            &&& found_authors.contains(row_authors[p as int])
        },
        forall|a: int, b: int| 0 <= a < b < kept_rows(row_authors, found_authors).len()
            ==> #[trigger] kept_rows(row_authors, found_authors)[a] < #[trigger] kept_rows(row_authors, found_authors)[b],
        forall|i: int| 0 <= i < row_authors.len() && found_authors.contains(#[trigger] row_authors[i])
            ==> kept_rows(row_authors, found_authors).contains(i as usize),
    decreases row_authors.len(),
{
    if row_authors.len() > 0 {
        let prev = row_authors.drop_last();
        lemma_shown_rows_keep_order(prev, found_authors);
        let before = kept_rows(prev, found_authors);
        let all = kept_rows(row_authors, found_authors);
        let last = (row_authors.len() - 1) as usize;
        assert(last as int == row_authors.len() - 1);
        assert forall|k: int| 0 <= k < all.len() implies {
            let p = #[trigger] all[k];
            &&& (p as int) < row_authors.len()
            &&& found_authors.contains(row_authors[p as int])
        } by {
            if k < before.len() {
                assert(all[k] == before[k]);
                assert(prev[before[k] as int] == row_authors[before[k] as int]);
            }
        }
        assert forall|a: int, b: int| 0 <= a < b < all.len() implies #[trigger] all[a] < #[trigger] all[b] by {
            if b < before.len() {
                assert(all[a] == before[a] && all[b] == before[b]);
            } else {
                assert(all[a] == before[a]);
                assert((before[a] as int) < prev.len());
            }
        }
        assert forall|i: int| 0 <= i < row_authors.len() && found_authors.contains(#[trigger] row_authors[i])
            implies all.contains(i as usize) by {
            if i < row_authors.len() - 1 {
                assert(prev[i] == row_authors[i]);
                assert(before.contains(i as usize));
                let k = choose|k: int| 0 <= k < before.len() && before[k] == i as usize;
                assert(all[k] == i as usize);
            } else {
                assert(all[all.len() - 1] == i as usize);
            }
        }
    }
}

/// The format of a shown body.
#[derive(Clone, Copy, Debug, PartialEq, Eq, Structural)]
pub enum ContentFormat {
    /// Plain text, as timelines show every body.
    PlainV1,
}

/// A timeline row as the store returns it, with its body already projected
/// to plain text (`projected_body`).
pub struct ProfileContentRow {
    pub target_type: String,
    pub id: i64,
    pub thread_id: i64,
    pub title: String,
    pub projected_body: Option<String>,
    pub board_slug: String,
    pub author_id: i64,
    pub reply_count: i32,
    pub vote_count: i32,
    pub created_at_micros: i64,
    pub activity_at_micros: i64,
}

/// The public account of a row's author.
pub struct ProfileAuthor {
    pub id: i64,
    pub handle: String,
    pub display_name: Option<String>,
}

/// A shown timeline item; `A` is an attachment view.
pub struct ProfileContentItem<A> {
    pub target_type: String,
    pub id: String,
    pub thread_id: String,
    pub title: String,
    pub body: Option<String>,
    pub content_format: ContentFormat,
    pub board_slug: String,
    pub author_handle: String,
    pub author_display_name: Option<String>,
    pub reply_count: i32,
    pub vote_count: i32,
    pub viewer_vote: Option<String>,
    pub is_bookmarked: bool,
    pub attachments: Vec<A>,
    pub created_at: i64,
    pub activity_at: i64,
}

/// The position of the first viewer state recorded for `id`.
pub open spec fn first_state_of(states: Seq<(i64, PostViewerState)>, id: i64) -> Option<int>
    decreases states.len(),
{
    if states.len() == 0 {
        None
    } else if states[0].0 == id {
        Some(0)
    } else {
        match first_state_of(states.drop_first(), id) {
            Some(k) => Some(k + 1),
            None => None,
        }
    }
}

/// Where the viewer's vote and bookmark on post `id` stand among the
/// looked-up states; an anonymous viewer has none.
pub fn viewer_state_position(has_viewer: bool, states: &Vec<(i64, PostViewerState)>, id: i64) -> (r: Option<usize>)
    ensures
        !has_viewer ==> r is None,
        has_viewer ==> match first_state_of(states@, id) {
            Some(k) => r == Some(k as usize) && k < states@.len(),
            None => r is None,
        },
{
    if !has_viewer {
        return None;
    }
    let mut i: usize = 0;
    assert(states@.skip(0) =~= states@);
    while i < states.len()
        invariant
            has_viewer,
            i <= states@.len(),
            first_state_of(states@, id) == (match first_state_of(states@.skip(i as int), id) {
                Some(k) => Some(k + i),
                None => None::<int>,
            }),
        decreases states.len() - i,
    {
        assert(states@.skip(i as int).drop_first() =~= states@.skip(i as int + 1));
        assert(states@.skip(i as int)[0] == states@[i as int]);
        if states[i].0 == id {
            return Some(i);
        }
        i = i + 1;
    }
    None
}

/// The shown item: ids as text, the projected body when it is not empty,
/// always in plain text, the author's public names, the viewer's vote and
/// bookmark when there is a viewer state, and the projected attachments
/// only when they match the references the stored body makes.
pub fn profile_item<A>(
    row: &ProfileContentRow,
    author: &ProfileAuthor,
    viewer_state: Option<&PostViewerState>,
    attachments_match: bool,
    projected_attachments: Vec<A>,
) -> (item: ProfileContentItem<A>)
    ensures
        item.target_type@ == row.target_type@,
        item.id@ == decimal_text(row.id as int),
        item.thread_id@ == decimal_text(row.thread_id as int),
        item.title@ == row.title@,
        match row.projected_body {
            Some(b) => if b@.len() == 0 { item.body is None } else { item.body matches Some(t) && t@ == b@ },
            None => item.body is None,
        },
        item.content_format == ContentFormat::PlainV1,
        item.board_slug@ == row.board_slug@,
        item.author_handle@ == author.handle@,
        opt_string_view(item.author_display_name) == opt_string_view(author.display_name),
        item.reply_count == row.reply_count,
        item.vote_count == row.vote_count,
        match viewer_state {
            Some(v) => opt_string_view(item.viewer_vote) == opt_string_view(v.vote) && item.is_bookmarked == v.is_bookmarked,
            None => item.viewer_vote is None && !item.is_bookmarked,
        },
        item.attachments@ == (if attachments_match { projected_attachments@ } else { Seq::empty() }),
        item.created_at == spec_unix_seconds(row.created_at_micros),
        item.activity_at == spec_unix_seconds(row.activity_at_micros),
{
    let body = shown_excerpt(clone_opt_string(&row.projected_body));
    let (viewer_vote, is_bookmarked) = match viewer_state {
        Some(v) => (clone_opt_string(&v.vote), v.is_bookmarked),
        None => (None, false),
    };
    let attachments = if attachments_match { projected_attachments } else { Vec::new() };
    ProfileContentItem {
        target_type: row.target_type.clone(),
        id: i64_to_string(row.id),
        thread_id: i64_to_string(row.thread_id),
        title: row.title.clone(),
        body,
        content_format: ContentFormat::PlainV1,
        board_slug: row.board_slug.clone(),
        author_handle: author.handle.clone(),
        author_display_name: clone_opt_string(&author.display_name),
        reply_count: row.reply_count,
        vote_count: row.vote_count,
        viewer_vote,
        is_bookmarked,
        attachments,
        created_at: unix_seconds(row.created_at_micros),
        activity_at: unix_seconds(row.activity_at_micros),
    }
}

} // verus!
