//! Thread search: the search index only proposes ranked candidates; the
//! documents shown are rebuilt from the store's public rows, in the
//! candidates' rank.

use vstd::prelude::*;
use crate::dto::{spec_unix_seconds, unix_seconds};
use crate::number::{decimal_text, i64_to_string, parse_i64, spec_parse_i64};
use crate::payload::{find_member, lookup, JsonObject, JsonScalar};
use crate::text::{trim, trimmed};

verus! {

/// The search index the forum writes to.
pub fn forum_threads_index() -> (s: &'static str)
    ensures
        s@ == "forum_threads"@,
{
    "forum_threads"
}

/// The API key, trimmed; a blank key means no key.
pub fn meili_api_key(api_key: &str) -> (r: Option<String>)
    ensures
        trimmed(api_key@).len() == 0 ==> r is None,
        trimmed(api_key@).len() != 0 ==> (r matches Some(k) && k@ == trimmed(api_key@)),
{
    let t = trim(api_key);
    if crate::text::char_count(t.as_str()) == 0 {
        None
    } else {
        Some(t)
    }
}

/// A public thread as indexed.
#[derive(Debug, PartialEq, Eq)]
pub struct ForumThreadDoc {
    pub id: String,
    pub title: String,
    pub body_excerpt: String,
    pub board: String,
    pub tags: Vec<String>,
    pub author_handle: String,
    pub reply_count: i32,
    pub vote_count: i32,
    pub created_at: i64,
    pub status: String,
}

/// A public thread row with its board slug and tag slugs.
pub struct ForumThreadDocumentRow {
    pub id: i64,
    pub title: String,
    pub board: String,
    pub tags: Vec<String>,
    pub author_handle: String,
    pub reply_count: i32,
    pub vote_count: i32,
    pub created_at_micros: i64,
    pub status: String,
}

/// The document of a public thread row, with the body excerpt already
/// projected to plain text.
pub fn thread_doc_from_row(row: ForumThreadDocumentRow, body_excerpt: String) -> (d: ForumThreadDoc)
    ensures
        d.id@ == decimal_text(row.id as int),
        d.title == row.title,
        d.body_excerpt == body_excerpt,
        d.board == row.board,
        d.tags == row.tags,
        d.author_handle == row.author_handle,
        d.reply_count == row.reply_count,
        d.vote_count == row.vote_count,
        d.created_at == spec_unix_seconds(row.created_at_micros),
        d.status == row.status,
{
    ForumThreadDoc {
        id: i64_to_string(row.id),
        title: row.title,
        body_excerpt,
        board: row.board,
        tags: row.tags,
        author_handle: row.author_handle,
        reply_count: row.reply_count,
        vote_count: row.vote_count,
        created_at: unix_seconds(row.created_at_micros),
        status: row.status,
    }
}

/// The id a search hit names: an integer, or a decimal string.
pub open spec fn hit_id(hit: Seq<(String, JsonScalar)>) -> Option<i64> {
    match lookup(hit, "id"@) {
        Some(JsonScalar::Int(v)) => Some(v),
        Some(JsonScalar::Str(s)) => match spec_parse_i64(s@) {
            Ok(v) => Some(v),
            Err(_) => None,
        },
        _ => None,
    }
}

/// The candidate thread ids of the hits, in rank order: positive ids only,
/// each at its first occurrence.
pub open spec fn spec_candidates(hits: Seq<JsonObject>) -> Seq<i64>
    decreases hits.len(),
{
    if hits.len() == 0 {
        Seq::empty()
    } else {
        let before = spec_candidates(hits.drop_last());
        match hit_id(hits.last().fields@) {
            Some(v) => if v > 0 && !before.contains(v) {
                before.push(v)
            } else {
                before
            },
            None => before,
        }
    }
}

fn hit_id_exec(hit: &JsonObject) -> (r: Option<i64>)
    ensures
        r == hit_id(hit.fields@),
{
    match find_member(&hit.fields, "id") {
        Some(i) => match &hit.fields[i].1 {
            JsonScalar::Int(v) => Some(*v),
            JsonScalar::Str(s) => match parse_i64(s.as_str()) {
                Ok(v) => Some(v),
                Err(_) => None,
            },
            _ => None,
        },
        None => None,
    }
}

fn contains_id(v: &Vec<i64>, x: i64) -> (b: bool)
    ensures
        b == v@.contains(x),
{
    let mut i: usize = 0;
    while i < v.len()
        invariant
            i <= v@.len(),
            forall|j: int| 0 <= j < i ==> v@[j] != x,
        decreases v.len() - i,
    {
        if v[i] == x {
            assert(v@[i as int] == x);
            return true;
        }
        i = i + 1;
    }
    false
}

pub fn candidate_thread_ids(hits: &Vec<JsonObject>) -> (ids: Vec<i64>)
    ensures
        ids@ == spec_candidates(hits@),
{
    let mut out: Vec<i64> = Vec::new();
    let mut i: usize = 0;
    while i < hits.len()
        invariant
            i <= hits@.len(),
            out@ == spec_candidates(hits@.take(i as int)),
        decreases hits.len() - i,
    {
        proof {
            assert(hits@.take(i as int + 1).drop_last() =~= hits@.take(i as int));
            assert(hits@.take(i as int + 1).last() == hits@[i as int]);
        }
        match hit_id_exec(&hits[i]) {
            Some(v) => {
                if v > 0 && !contains_id(&out, v) {
                    out.push(v);
                }
            },
            None => {},
        }
        i = i + 1;
    }
    assert(hits@.take(hits@.len() as int) =~= hits@);
    out
}

/// A document's thread id, when its id text parses.
pub open spec fn doc_id(d: ForumThreadDoc) -> Option<i64> {
    match spec_parse_i64(d.id@) {
        Ok(v) => Some(v),
        Err(_) => None,
    }
}

/// The last document with this id (documents are keyed by id, so a later
/// one replaces an earlier one).
pub open spec fn last_doc_with_id(docs: Seq<ForumThreadDoc>, id: i64) -> Option<ForumThreadDoc>
    decreases docs.len(),
{
    if docs.len() == 0 {
        None
    } else if doc_id(docs.last()) == Some(id) {
        Some(docs.last())
    } else {
        last_doc_with_id(docs.drop_last(), id)
    }
}

proof fn lemma_contains_push(s: Seq<i64>, x: i64, y: i64)
    ensures
        s.push(x).contains(y) == (s.contains(y) || x == y),
{
    if s.push(x).contains(y) {
        let k = choose|k: int| 0 <= k < s.push(x).len() && #[trigger] s.push(x)[k] == y;
        if k < s.len() {
            assert(s[k] == y);
        }
    }
    if s.contains(y) {
        let k = choose|k: int| 0 <= k < s.len() && #[trigger] s[k] == y;
        assert(s.push(x)[k] == y);
    }
    if x == y {
        assert(s.push(x)[s.len() as int] == y);
    }
}

/// The documents in candidate order: each candidate at its first
/// occurrence, when a public document exists for it.
pub open spec fn spec_picked(cands: Seq<i64>, docs: Seq<ForumThreadDoc>) -> Seq<ForumThreadDoc>
    decreases cands.len(),
{
    if cands.len() == 0 {
        Seq::empty()
    } else {
        let before = spec_picked(cands.drop_last(), docs);
        let id = cands.last();
        if cands.drop_last().contains(id) {
            before
        } else {
            match last_doc_with_id(docs, id) {
                Some(d) => before.push(d),
                None => before,
            }
        }
    }
}

/// At most `limit` documents, in candidate rank.
pub open spec fn spec_ordered_documents(cands: Seq<i64>, docs: Seq<ForumThreadDoc>, limit: usize) -> Seq<ForumThreadDoc> {
    let p = spec_picked(cands, docs);
    if p.len() <= limit { p } else { p.take(limit as int) }
}

fn copy_strings(v: &Vec<String>) -> (r: Vec<String>)
    ensures
        r@ == v@,
{
    let mut out: Vec<String> = Vec::new();
    let mut i: usize = 0;
    while i < v.len()
        invariant
            i <= v@.len(),
            out@ == v@.take(i as int),
        decreases v.len() - i,
    {
        out.push(v[i].clone());
        i = i + 1;
        assert(out@ =~= v@.take(i as int));
    }
    assert(v@.take(v@.len() as int) =~= v@);
    out
}

/// The same document, field by field.
pub open spec fn same_doc(a: ForumThreadDoc, b: ForumThreadDoc) -> bool {
    &&& a.id@ == b.id@ && a.title@ == b.title@ && a.body_excerpt@ == b.body_excerpt@
    &&& a.board@ == b.board@ && a.tags@ == b.tags@ && a.author_handle@ == b.author_handle@
    &&& a.reply_count == b.reply_count && a.vote_count == b.vote_count
    &&& a.created_at == b.created_at && a.status@ == b.status@
}

/// Element-wise the same documents.
pub open spec fn same_docs(a: Seq<ForumThreadDoc>, b: Seq<ForumThreadDoc>) -> bool {
    a.len() == b.len() && forall|i: int| 0 <= i < a.len() ==> same_doc(#[trigger] a[i], b[i])
}

fn copy_doc(d: &ForumThreadDoc) -> (r: ForumThreadDoc)
    ensures
        same_doc(r, *d),
{
    ForumThreadDoc {
        id: d.id.clone(),
        title: d.title.clone(),
        body_excerpt: d.body_excerpt.clone(),
        board: d.board.clone(),
        tags: copy_strings(&d.tags),
        author_handle: d.author_handle.clone(),
        reply_count: d.reply_count,
        vote_count: d.vote_count,
        created_at: d.created_at,
        status: d.status.clone(),
    }
}

fn doc_id_exec(d: &ForumThreadDoc) -> (r: Option<i64>)
    ensures
        r == doc_id(*d),
{
    match parse_i64(d.id.as_str()) {
        Ok(v) => Some(v),
        Err(_) => None,
    }
}

proof fn lemma_last_doc_step(docs: Seq<ForumThreadDoc>, id: i64, k: int)
    requires
        0 <= k < docs.len(),
        doc_id(docs[k]) != Some(id),
    ensures
        last_doc_with_id(docs.take(k + 1), id) == last_doc_with_id(docs.take(k), id),
{
    assert(docs.take(k + 1).drop_last() =~= docs.take(k));
}

fn find_last_doc(docs: &Vec<ForumThreadDoc>, id: i64) -> (r: Option<usize>)
    ensures
        match r {
            Some(k) => k < docs@.len() && last_doc_with_id(docs@, id) == Some(docs@[k as int]),
            None => last_doc_with_id(docs@, id) is None,
        },
{
    let mut k: usize = docs.len();
    assert(docs@.take(k as int) =~= docs@);
    while k > 0
        invariant
            k <= docs@.len(),
            last_doc_with_id(docs@, id) == last_doc_with_id(docs@.take(k as int), id),
        decreases k,
    {
        assert(docs@.take(k as int).last() == docs@[k - 1]);
        if doc_id_exec(&docs[k - 1]) == Some(id) {
            return Some(k - 1);
        }
        proof {
            lemma_last_doc_step(docs@, id, k - 1);
        }
        k = k - 1;
    }
    assert(docs@.take(0) =~= Seq::<ForumThreadDoc>::empty());
    None
}

/// The public documents in the candidates' rank, at most `limit` of them;
/// candidates without a public document are left out.
pub fn order_public_documents(candidate_ids: &Vec<i64>, documents: Vec<ForumThreadDoc>, limit: usize) -> (r: Vec<ForumThreadDoc>)
    ensures
        same_docs(r@, spec_ordered_documents(candidate_ids@, documents@, limit)),
{
    let mut out: Vec<ForumThreadDoc> = Vec::new();
    let mut i: usize = 0;
    while i < candidate_ids.len()
        invariant
            i <= candidate_ids@.len(),
            same_docs(out@, spec_picked(candidate_ids@.take(i as int), documents@)),
        decreases candidate_ids.len() - i,
    {
        let id = candidate_ids[i];
        let ghost pre = candidate_ids@.take(i as int);
        proof {
            assert(candidate_ids@.take(i as int + 1).drop_last() =~= pre);
            assert(candidate_ids@.take(i as int + 1).last() == id);
        }
        let mut seen = false;
        let mut j: usize = 0;
        while j < i
            invariant
                j <= i,
                i < candidate_ids@.len(),
                pre == candidate_ids@.take(i as int),
                seen == pre.take(j as int).contains(id),
            decreases i - j,
        {
            proof {
                assert(pre.take(j as int + 1) =~= pre.take(j as int).push(pre[j as int]));
                lemma_contains_push(pre.take(j as int), pre[j as int], id);
            }
            assert(pre[j as int] == candidate_ids@[j as int]);
            if candidate_ids[j] == id {
                seen = true;
            }
            j = j + 1;
        }
        assert(pre.take(i as int) =~= pre);
        if !seen {
            match find_last_doc(&documents, id) {
                Some(k) => {
                    out.push(copy_doc(&documents[k]));
                },
                None => {},
            }
        }
        i = i + 1;
    }
    assert(candidate_ids@.take(candidate_ids@.len() as int) =~= candidate_ids@);
    let ghost full = out@;
    if out.len() > limit {
        out.truncate(limit);
        assert(out@ =~= full.take(limit as int));
    }
    out
}

/// How many candidates to ask the index for: four per shown result, at
/// most a thousand.
pub fn candidate_limit(limit: usize) -> (n: usize)
    ensures
        n == (if limit * 4 > 1000 { 1000 } else { limit * 4 }),
{
    if limit > 250 {
        1000
    } else {
        limit * 4
    }
}

/// A step of rebuilding the index.
#[derive(Clone, Copy, Debug, PartialEq, Eq)]
pub enum ReindexStep {
    Clear,
    Add,
}

/// Rebuilding always clears the index first, and adds the public documents
/// only when there are some.
pub fn reindex_plan(has_documents: bool) -> (steps: Vec<ReindexStep>)
    ensures
        steps@.len() >= 1,
        steps@[0] == ReindexStep::Clear,
        has_documents ==> steps@ == seq![ReindexStep::Clear, ReindexStep::Add],
        !has_documents ==> steps@ == seq![ReindexStep::Clear],
{
    if has_documents {
        vec![ReindexStep::Clear, ReindexStep::Add]
    } else {
        vec![ReindexStep::Clear]
    }
}

/// The candidates are positive and each appears once.
pub proof fn lemma_candidates_unique_positive(hits: Seq<JsonObject>)
    ensures
        forall|i: int| 0 <= i < spec_candidates(hits).len() ==> #[trigger] spec_candidates(hits)[i] > 0,
        forall|i: int, j: int| 0 <= i < j < spec_candidates(hits).len()
            ==> #[trigger] spec_candidates(hits)[i] != #[trigger] spec_candidates(hits)[j],
    decreases hits.len(),
{
    if hits.len() > 0 {
        lemma_candidates_unique_positive(hits.drop_last());
        let before = spec_candidates(hits.drop_last());
        let c = spec_candidates(hits);
        match hit_id(hits.last().fields@) {
            Some(v) => if v > 0 && !before.contains(v) {
                assert forall|i: int, j: int| 0 <= i < j < c.len() implies #[trigger] c[i] != #[trigger] c[j] by {
                    if j == c.len() - 1 {
                        assert(c[i] == before[i]);
                        assert(before.contains(before[i]));
                    } else {
                        assert(c[i] == before[i] && c[j] == before[j]);
                    }
                }
                assert forall|i: int| 0 <= i < c.len() implies #[trigger] c[i] > 0 by {
                    if i < before.len() {
                        assert(c[i] == before[i]);
                    }
                }
            },
            None => {},
        }
    }
}

proof fn lemma_last_doc_has_id(docs: Seq<ForumThreadDoc>, id: i64)
    ensures
        last_doc_with_id(docs, id) matches Some(d) ==> doc_id(d) == Some(id),
    decreases docs.len(),
{
    if docs.len() > 0 {
        lemma_last_doc_has_id(docs.drop_last(), id);
    }
}

/// The ordered documents are documents of candidates, each thread at most once.
pub proof fn lemma_picked_distinct(cands: Seq<i64>, docs: Seq<ForumThreadDoc>)
    ensures
        forall|i: int| 0 <= i < spec_picked(cands, docs).len()
            ==> (#[trigger] doc_id(spec_picked(cands, docs)[i]) matches Some(id) && cands.contains(id)),
        forall|i: int, j: int| 0 <= i < j < spec_picked(cands, docs).len()
            ==> #[trigger] doc_id(spec_picked(cands, docs)[i]) != #[trigger] doc_id(spec_picked(cands, docs)[j]),
    decreases cands.len(),
{
    if cands.len() > 0 {
        let prefix = cands.drop_last();
        lemma_picked_distinct(prefix, docs);
        let before = spec_picked(prefix, docs);
        let p = spec_picked(cands, docs);
        let id = cands.last();
        assert forall|x: i64| prefix.contains(x) implies cands.contains(x) by {
            let k = choose|k: int| 0 <= k < prefix.len() && prefix[k] == x;
            assert(cands[k] == x);
        }
        assert(cands.contains(id)) by {
            assert(cands[cands.len() - 1] == id);
        }
        if !prefix.contains(id) {
            lemma_last_doc_has_id(docs, id);
            match last_doc_with_id(docs, id) {
                Some(d) => {
                    assert forall|i: int| 0 <= i < p.len() implies (#[trigger] doc_id(p[i]) matches Some(x) && cands.contains(x)) by {
                        if i < before.len() {
                            assert(p[i] == before[i]);
                        }
                    }
                    assert forall|i: int, j: int| 0 <= i < j < p.len() implies #[trigger] doc_id(p[i]) != #[trigger] doc_id(p[j]) by {
                        if j == p.len() - 1 {
                            assert(p[i] == before[i]);
                            assert(doc_id(before[i]) matches Some(x) && prefix.contains(x));
                        } else {
                            assert(p[i] == before[i] && p[j] == before[j]);
                        }
                    }
                },
                None => {},
            }
        }
    }
}

} // verus!
