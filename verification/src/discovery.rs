//! User search results under current privacy and relationship policy, tip
//! targets, and mention notices.

use vstd::prelude::*;
use crate::number::{decimal_text, i64_to_string};
use crate::payload::{JsonObject, JsonScalar};
use crate::relationships::audience_allows;
use crate::text::{opt_str_view, str_eq, take_chars};

verus! {

/// A candidate account with the facts search filters on.
pub struct SearchAccount {
    pub id: i64,
    pub handle: String,
    pub display_name: Option<String>,
    pub avatar_url: Option<String>,
    pub role: String,
    pub is_campus_verified: bool,
    pub discoverable: bool,
    pub profile_visibility: String,
}

/// An account may be found by search only when it is campus-verified,
/// discoverable, and its profile is visible to the viewer (an `only_me`
/// profile only to its owner).
pub open spec fn spec_searchable(a: SearchAccount, viewer_id: Option<i64>) -> bool {
    a.is_campus_verified && a.discoverable
        && (audience_allows(a.profile_visibility@, viewer_id)
            || (a.profile_visibility@ == "only_me"@ && viewer_id == Some(a.id)))
}

pub fn searchable(a: &SearchAccount, viewer_id: Option<i64>) -> (b: bool)
    ensures
        b == spec_searchable(*a, viewer_id),
{
    a.is_campus_verified && a.discoverable && (
        str_eq(a.profile_visibility.as_str(), "public")
        || (str_eq(a.profile_visibility.as_str(), "campus") && viewer_id.is_some())
        || (str_eq(a.profile_visibility.as_str(), "only_me") && viewer_id == Some(a.id)))
}

/// One search result.
pub struct UserSearchHit {
    pub id: String,
    pub handle: String,
    pub display_name: Option<String>,
    pub avatar_url: Option<String>,
    pub role: String,
    pub follower_count: i32,
    pub following: bool,
}

/// The index of the last searchable account with this id.
pub open spec fn account_index(accounts: Seq<SearchAccount>, viewer_id: Option<i64>, id: i64) -> Option<int>
    decreases accounts.len(),
{
    if accounts.len() == 0 {
        None
    } else if accounts.last().id == id && spec_searchable(accounts.last(), viewer_id) {
        Some(accounts.len() - 1)
    } else {
        account_index(accounts.drop_last(), viewer_id, id)
    }
}

/// The follower count recorded last for the account, 0 when none.
pub open spec fn follower_count_of(counts: Seq<(i64, i32)>, id: i64) -> i32
    decreases counts.len(),
{
    if counts.len() == 0 {
        0
    } else if counts.last().0 == id {
        counts.last().1
    } else {
        follower_count_of(counts.drop_last(), id)
    }
}

/// The candidates shown, in rank order: skipping those that hide from the
/// viewer and those not searchable, and stopping after `limit`.
pub open spec fn spec_ranked(cands: Seq<i64>, accounts: Seq<SearchAccount>, viewer_id: Option<i64>, hidden: Seq<i64>, limit: usize) -> Seq<i64>
    decreases cands.len(),
{
    if cands.len() == 0 {
        Seq::empty()
    } else {
        let before = spec_ranked(cands.drop_last(), accounts, viewer_id, hidden, limit);
        let c = cands.last();
        if before.len() >= limit || hidden.contains(c) || account_index(accounts, viewer_id, c) is None {
            before
        } else {
            before.push(c)
        }
    }
}

fn find_account(accounts: &Vec<SearchAccount>, viewer_id: Option<i64>, id: i64) -> (r: Option<usize>)
    ensures
        match r {
            Some(k) => account_index(accounts@, viewer_id, id) == Some(k as int) && k < accounts@.len(),
            None => account_index(accounts@, viewer_id, id) is None,
        },
{
    let mut k: usize = accounts.len();
    assert(accounts@.take(k as int) =~= accounts@);
    while k > 0
        invariant
            k <= accounts@.len(),
            account_index(accounts@, viewer_id, id) == account_index(accounts@.take(k as int), viewer_id, id),
        decreases k,
    {
        let ghost pre = accounts@.take(k as int);
        assert(pre.last() == accounts@[k - 1]);
        assert(pre.drop_last() =~= accounts@.take(k - 1));
        if accounts[k - 1].id == id && searchable(&accounts[k - 1], viewer_id) {
            return Some(k - 1);
        }
        k = k - 1;
    }
    assert(accounts@.take(0) =~= Seq::<SearchAccount>::empty());
    None
}

fn follower_count(counts: &Vec<(i64, i32)>, id: i64) -> (n: i32)
    ensures
        n == follower_count_of(counts@, id),
{
    let mut k: usize = counts.len();
    assert(counts@.take(k as int) =~= counts@);
    while k > 0
        invariant
            k <= counts@.len(),
            follower_count_of(counts@, id) == follower_count_of(counts@.take(k as int), id),
        decreases k,
    {
        let ghost pre = counts@.take(k as int);
        assert(pre.last() == counts@[k - 1]);
        assert(pre.drop_last() =~= counts@.take(k - 1));
        if counts[k - 1].0 == id {
            return counts[k - 1].1;
        }
        k = k - 1;
    }
    assert(counts@.take(0) =~= Seq::<(i64, i32)>::empty());
    0
}

fn contains_i64(v: &Vec<i64>, x: i64) -> (b: bool)
    ensures
        b == v@.contains(x),
{
    let mut i: usize = 0;
    while i < v.len()
        invariant
            i <= v@.len(),
            forall|j: int| 0 <= j < i ==> v@[j] != x,
        decreases v.len() - i,
    {
        if v[i] == x {
            assert(v@[i as int] == x);
            return true;
        }
        i = i + 1;
    }
    false
}

fn clone_opt(o: &Option<String>) -> (r: Option<String>)
    ensures
        r == *o,
{
    match o {
        Some(s) => Some(s.clone()),
        None => None,
    }
}

/// The result shown for a searchable account.
pub open spec fn is_hit_for(h: UserSearchHit, a: SearchAccount, follower_count: i32, following: bool) -> bool {
    &&& h.id@ == decimal_text(a.id as int)
    &&& h.handle == a.handle && h.display_name == a.display_name && h.avatar_url == a.avatar_url
    &&& h.role == a.role
    &&& h.follower_count == follower_count
    &&& h.following == following
}

/// At most `limit` candidates are shown, in rank order of first appearance.
proof fn lemma_ranked_within_limit(cands: Seq<i64>, accounts: Seq<SearchAccount>, viewer_id: Option<i64>, hidden: Seq<i64>, limit: usize)
    ensures
        spec_ranked(cands, accounts, viewer_id, hidden, limit).len() <= limit,
    decreases cands.len(),
{
    if cands.len() > 0 {
        lemma_ranked_within_limit(cands.drop_last(), accounts, viewer_id, hidden, limit);
    }
}

/// Lists read for the viewer (hidden and followed accounts) count only
/// when there is a viewer.
pub open spec fn for_viewer(viewer_id: Option<i64>, ids: Seq<i64>) -> Seq<i64> {
    if viewer_id is Some {
        ids
    } else {
        Seq::empty()
    }
}

/// Search results for ranked candidates: the candidates shown (see
/// [`spec_ranked`]), each with its account, its follower count and whether
/// the viewer follows it. The hidden and followed lists are read only for
/// a signed-in viewer: without one nothing is hidden by relationship and
/// no hit is marked as followed.
pub fn load_user_hits(
    candidate_ids: &Vec<i64>,
    viewer_id: Option<i64>,
    limit: usize,
    accounts: &Vec<SearchAccount>,
    hidden_ids: &Vec<i64>,
    follower_counts: &Vec<(i64, i32)>,
    following_ids: &Vec<i64>,
) -> (hits: Vec<UserSearchHit>)
    ensures
        hits@.len() == spec_ranked(candidate_ids@, accounts@, viewer_id, for_viewer(viewer_id, hidden_ids@), limit).len(),
        forall|i: int| 0 <= i < hits@.len() ==> {
            let id = #[trigger] spec_ranked(candidate_ids@, accounts@, viewer_id, for_viewer(viewer_id, hidden_ids@), limit)[i];
            &&& account_index(accounts@, viewer_id, id) is Some
            &&& is_hit_for(hits@[i], accounts@[account_index(accounts@, viewer_id, id)->0],
                follower_count_of(follower_counts@, id), for_viewer(viewer_id, following_ids@).contains(id))
        },
        viewer_id is None ==> forall|i: int| 0 <= i < hits@.len() ==> !(#[trigger] hits@[i]).following,
        hits@.len() <= limit,
        candidate_ids@.len() == 0 || limit == 0 ==> hits@.len() == 0,
        forall|i: int| 0 <= i < hits@.len() ==> {
            let id = #[trigger] spec_ranked(candidate_ids@, accounts@, viewer_id, for_viewer(viewer_id, hidden_ids@), limit)[i];
            let a = accounts@[account_index(accounts@, viewer_id, id)->0];
            &&& a.id == id && a.discoverable && a.is_campus_verified
            &&& hits@[i].id@ == decimal_text(id as int)
        },
{
    proof {
        lemma_ranked_within_limit(candidate_ids@, accounts@, viewer_id, for_viewer(viewer_id, hidden_ids@), limit);
    }
    let has_viewer = viewer_id.is_some();
    let ghost hidden = for_viewer(viewer_id, hidden_ids@);
    let ghost followed = for_viewer(viewer_id, following_ids@);
    let mut items: Vec<UserSearchHit> = Vec::new();
    let ghost mut ids: Seq<i64> = Seq::empty();
    let mut i: usize = 0;
    while i < candidate_ids.len()
        invariant
            has_viewer == viewer_id is Some,
            hidden == for_viewer(viewer_id, hidden_ids@),
            followed == for_viewer(viewer_id, following_ids@),
            i <= candidate_ids@.len(),
            ids == spec_ranked(candidate_ids@.take(i as int), accounts@, viewer_id, hidden, limit),
            items@.len() == ids.len(),
            forall|j: int| 0 <= j < items@.len() ==> {
                &&& account_index(accounts@, viewer_id, #[trigger] ids[j]) is Some
                &&& is_hit_for(items@[j], accounts@[account_index(accounts@, viewer_id, ids[j])->0],
                    follower_count_of(follower_counts@, ids[j]), followed.contains(ids[j]))
            },
        decreases candidate_ids.len() - i,
    {
        let id = candidate_ids[i];
        proof {
            assert(candidate_ids@.take(i as int + 1).drop_last() =~= candidate_ids@.take(i as int));
            assert(candidate_ids@.take(i as int + 1).last() == id);
        }
        let is_hidden = has_viewer && contains_i64(hidden_ids, id);
        if items.len() < limit && !is_hidden {
            match find_account(accounts, viewer_id, id) {
                Some(k) => {
                    let a = &accounts[k];
                    let following = has_viewer && contains_i64(following_ids, id);
                    items.push(UserSearchHit {
                        id: i64_to_string(a.id),
                        handle: a.handle.clone(),
                        display_name: clone_opt(&a.display_name),
                        avatar_url: clone_opt(&a.avatar_url),
                        role: a.role.clone(),
                        follower_count: follower_count(follower_counts, id),
                        following,
                    });
                    proof {
                        ids = ids.push(id);
                    }
                },
                None => {},
            }
        }
        i = i + 1;
    }
    assert(candidate_ids@.take(candidate_ids@.len() as int) =~= candidate_ids@);
    proof {
        assert forall|j: int| 0 <= j < items@.len() implies ({
            let a = accounts@[account_index(accounts@, viewer_id, #[trigger] ids[j])->0];
            &&& a.id == ids[j] && a.discoverable && a.is_campus_verified
            &&& items@[j].id@ == decimal_text(ids[j] as int)
        }) by {
            lemma_found_account_is_searchable(accounts@, viewer_id, ids[j]);
        }
        if viewer_id is None {
            assert forall|j: int| 0 <= j < items@.len() implies !(#[trigger] items@[j]).following by {
                assert(!followed.contains(ids[j]));
            }
        }
    }
    items
}

/// What a tip can be given for.
#[derive(Clone, Copy, Debug, PartialEq, Eq)]
pub enum TipKind {
    Thread,
    Comment,
}

/// A visible tip target and its author.
#[derive(Clone, Copy, Debug, PartialEq, Eq)]
pub struct TipTarget {
    pub kind: TipKind,
    pub canonical_id: i64,
    pub author_id: i64,
}

impl TipTarget {
    pub open spec fn spec_canonical_type(self) -> Seq<char> {
        match self.kind {
            TipKind::Thread => "thread"@,
            TipKind::Comment => "comment"@,
        }
    }

    pub fn canonical_type(&self) -> (s: &'static str)
        ensures
            s@ == self.spec_canonical_type(),
    {
        match self.kind {
            TipKind::Thread => "thread",
            TipKind::Comment => "comment",
        }
    }
}

/// Only threads and comments take tips.
pub fn tip_kind(target_type: &str) -> (k: Option<TipKind>)
    ensures
        target_type@ == "thread"@ ==> k == Some(TipKind::Thread),
        target_type@ == "comment"@ ==> k == Some(TipKind::Comment),
        !(target_type@ == "thread"@ || target_type@ == "comment"@) ==> k is None,
{
    proof {
        reveal_strlit("thread");
        assert("thread"@ =~= seq!['t', 'h', 'r', 'e', 'a', 'd']);
        reveal_strlit("comment");
        assert("comment"@ =~= seq!['c', 'o', 'm', 'm', 'e', 'n', 't']);
    }
    if str_eq(target_type, "thread") {
        Some(TipKind::Thread)
    } else if str_eq(target_type, "comment") {
        Some(TipKind::Comment)
    } else {
        None
    }
}

/// The target, when the visible content was found with its author.
pub fn tip_target(kind: TipKind, target_id: i64, author_id: Option<i64>) -> (t: Option<TipTarget>)
    ensures
        match author_id {
            Some(a) => t == Some(TipTarget { kind, canonical_id: target_id, author_id: a }),
            None => t is None,
        },
{
    match author_id {
        Some(a) => Some(TipTarget { kind, canonical_id: target_id, author_id: a }),
        None => None,
    }
}

/// What a mention notice is about.
pub struct MentionContext {
    pub thread_id: i64,
    pub comment_id: Option<i64>,
    pub author_handle: String,
    pub body_excerpt: String,
}

/// A notice shows at most the first hundred characters of the body.
pub open spec fn excerpt_of(body: Option<Seq<char>>) -> Seq<char> {
    match body {
        Some(b) => if b.len() <= 100 { b } else { b.take(100) },
        None => Seq::empty(),
    }
}

impl MentionContext {
    /// The context of a mention in a post by `author_handle`; a post
    /// without a body gives an empty excerpt.
    pub fn new(thread_id: i64, comment_id: Option<i64>, author_handle: String, body: Option<&str>) -> (c: Self)
        ensures
            c.thread_id == thread_id,
            c.comment_id == comment_id,
            c.author_handle == author_handle,
            c.body_excerpt@ == excerpt_of(opt_str_view(body)),
    {
        let body_excerpt = match body {
            Some(b) => take_chars(b, 100),
            None => String::new(),
        };
        MentionContext { thread_id, comment_id, author_handle, body_excerpt }
    }
}

/// The payload of a mention notice: the thread, the author and the
/// mentioned handle, an excerpt, and the comment when there is one.
pub fn mention_payload(context: &MentionContext, handle: &str) -> (p: JsonObject)
    ensures
        p.is_object,
        p.fields@.len() == (if context.comment_id is Some { 5int } else { 4int }),
        p.fields@[0].0@ == "threadId"@ && (p.fields@[0].1 matches JsonScalar::Str(s) && s@ == decimal_text(context.thread_id as int)),
        p.fields@[1].0@ == "authorHandle"@ && (p.fields@[1].1 matches JsonScalar::Str(s) && s@ == context.author_handle@),
        p.fields@[2].0@ == "handle"@ && (p.fields@[2].1 matches JsonScalar::Str(s) && s@ == handle@),
        p.fields@[3].0@ == "bodyExcerpt"@ && (p.fields@[3].1 matches JsonScalar::Str(s) && s@ == context.body_excerpt@),
        context.comment_id matches Some(c) ==> (p.fields@[4].0@ == "commentId"@
            && (p.fields@[4].1 matches JsonScalar::Str(s) && s@ == decimal_text(c as int))),
{
    let mut fields: Vec<(String, JsonScalar)> = Vec::new();
    fields.push((String::from_str("threadId"), JsonScalar::Str(i64_to_string(context.thread_id))));
    fields.push((String::from_str("authorHandle"), JsonScalar::Str(context.author_handle.clone())));
    fields.push((String::from_str("handle"), JsonScalar::Str(String::from_str(handle))));
    fields.push((String::from_str("bodyExcerpt"), JsonScalar::Str(context.body_excerpt.clone())));
    match context.comment_id {
        Some(c) => {
            fields.push((String::from_str("commentId"), JsonScalar::Str(i64_to_string(c))));
        },
        None => {},
    }
    JsonObject { is_object: true, fields }
}

/// Nobody is told of mentioning themselves.
pub fn mention_candidates(actor_id: i64, target_ids: &Vec<i64>) -> (r: Vec<i64>)
    ensures
        r@ == target_ids@.filter(|t: i64| t != actor_id),
{
    let mut out: Vec<i64> = Vec::new();
    let mut i: usize = 0;
    while i < target_ids.len()
        invariant
            i <= target_ids@.len(),
            out@ == target_ids@.take(i as int).filter(|t: i64| t != actor_id),
        decreases target_ids.len() - i,
    {
        proof {
            assert(target_ids@.take(i as int + 1).drop_last() =~= target_ids@.take(i as int));
            reveal(Seq::filter);
        }
        if target_ids[i] != actor_id {
            out.push(target_ids[i]);
        }
        i = i + 1;
    }
    assert(target_ids@.take(target_ids@.len() as int) =~= target_ids@);
    out
}

/// Search never shows an account that switched discovery off or is not
/// campus-verified, whoever is looking.
pub proof fn lemma_unlisted_accounts_never_searchable(a: SearchAccount, viewer_id: Option<i64>)
    ensures
        !a.discoverable ==> !spec_searchable(a, viewer_id),
        !a.is_campus_verified ==> !spec_searchable(a, viewer_id),
{
}

/// The account a hit is built from has the candidate's id and is
/// searchable by the viewer (so it is discoverable and campus-verified).
pub proof fn lemma_found_account_is_searchable(accounts: Seq<SearchAccount>, viewer_id: Option<i64>, id: i64)
    ensures
        account_index(accounts, viewer_id, id) matches Some(k) ==> {
            &&& 0 <= k < accounts.len()
            &&& accounts[k].id == id
            &&& accounts[k].discoverable
            &&& accounts[k].is_campus_verified
            &&& spec_searchable(accounts[k], viewer_id)
        },
    decreases accounts.len(),
{
    if accounts.len() > 0 {
        lemma_found_account_is_searchable(accounts.drop_last(), viewer_id, id);
        match account_index(accounts.drop_last(), viewer_id, id) {
            Some(k) => {
                assert(accounts.drop_last()[k] == accounts[k]);
            },
            None => {},
        }
    }
}
} // verus!
