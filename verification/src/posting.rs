//! Rules for publishing and editing threads and comments: whether the
//! thread accepts the post, who is told about it, and the per-account rate
//! buckets.

use vstd::prelude::*;
use crate::error::{is_bad_request, is_conflict, ForumError};
use crate::number::{decimal_text, i64_to_string};
use crate::payload::{text_field, text_member, JsonObject, JsonScalar};

verus! {

/// The moderation state of a thread, as read under its row lock.
pub struct ThreadPostingState {
    pub author_id: Option<i64>,
    pub deleted: bool,
    pub hidden: bool,
    pub closed: bool,
    pub archived: bool,
}

/// A token bucket: at most `capacity` actions per `window_seconds`.
pub struct RateBucket {
    pub name: String,
    pub capacity: i64,
    pub window_seconds: i64,
}

pub open spec fn is_bucket(b: RateBucket, name: Seq<char>, capacity: int, window: int) -> bool {
    b.name@ == name && b.capacity == capacity && b.window_seconds == window
}

fn bucket(name: &str, capacity: i64, window_seconds: i64) -> (b: RateBucket)
    ensures
        is_bucket(b, name@, capacity as int, window_seconds as int),
{
    RateBucket { name: String::from_str(name), capacity, window_seconds }
}

/// Comment creation budget: trust level 0 gets five a day, others twenty a minute.
pub fn comment_create_bucket(trust_level: i16) -> (b: RateBucket)
    ensures
        trust_level == 0 ==> is_bucket(b, "comment_create_tl0"@, 5, 86400),
        trust_level != 0 ==> is_bucket(b, "comment_create"@, 20, 60),
{
    proof {
        reveal_strlit("comment_create");
        assert("comment_create"@ =~= seq!['c', 'o', 'm', 'm', 'e', 'n', 't', '_', 'c', 'r', 'e', 'a', 't', 'e']);
    }
    if trust_level == 0 {
        bucket("comment_create_tl0", 5, 86400)
    } else {
        bucket("comment_create", 20, 60)
    }
}

/// Thread creation budget: trust level 0 gets two a day, others five a minute.
pub fn thread_create_bucket(trust_level: i16) -> (b: RateBucket)
    ensures
        trust_level == 0 ==> is_bucket(b, "thread_create_tl0"@, 2, 86400),
        trust_level != 0 ==> is_bucket(b, "thread_create"@, 5, 60),
{
    proof {
        reveal_strlit("thread_create");
        assert("thread_create"@ =~= seq!['t', 'h', 'r', 'e', 'a', 'd', '_', 'c', 'r', 'e', 'a', 't', 'e']);
    }
    if trust_level == 0 {
        bucket("thread_create_tl0", 2, 86400)
    } else {
        bucket("thread_create", 5, 60)
    }
}

/// Edit budget shared by thread edits: ten a minute.
pub fn edit_bucket() -> (b: RateBucket)
    ensures
        is_bucket(b, "edit"@, 10, 60),
{
    proof {
        reveal_strlit("edit");
        assert("edit"@ =~= seq!['e', 'd', 'i', 't']);
    }
    bucket("edit", 10, 60)
}

/// A new comment is refused on a removed thread (as if it did not exist),
/// and on an archived or closed one.
pub fn check_thread_accepts_comment(state: &ThreadPostingState) -> (r: Result<(), ForumError>)
    ensures
        (state.deleted || state.hidden) ==> (r matches Err(e) && e is NotFound),
        !(state.deleted || state.hidden) && state.archived ==> (r matches Err(e) && is_conflict(e, "thread is archived"@)),
        !(state.deleted || state.hidden) && !state.archived && state.closed ==> (r matches Err(e) && is_conflict(e, "thread is closed"@)),
        r is Ok <==> !(state.deleted || state.hidden || state.archived || state.closed),
{
    proof {
        reveal_strlit("thread is archived");
        assert("thread is archived"@ =~= seq!['t', 'h', 'r', 'e', 'a', 'd', ' ', 'i', 's', ' ', 'a', 'r', 'c', 'h', 'i', 'v', 'e', 'd']);
        reveal_strlit("thread is closed");
        assert("thread is closed"@ =~= seq!['t', 'h', 'r', 'e', 'a', 'd', ' ', 'i', 's', ' ', 'c', 'l', 'o', 's', 'e', 'd']);
    }
    if state.deleted || state.hidden {
        Err(ForumError::NotFound)
    } else if state.archived {
        Err(ForumError::Conflict(String::from_str("thread is archived")))
    } else if state.closed {
        Err(ForumError::Conflict(String::from_str("thread is closed")))
    } else {
        Ok(())
    }
}

/// Editing a comment is refused on a removed or archived thread; a closed
/// thread still accepts edits.
pub fn check_thread_accepts_comment_edit(state: &ThreadPostingState) -> (r: Result<(), ForumError>)
    ensures
        (state.deleted || state.hidden) ==> (r matches Err(e) && e is NotFound),
        !(state.deleted || state.hidden) && state.archived ==> (r matches Err(e) && is_conflict(e, "thread is archived"@)),
        r is Ok <==> !(state.deleted || state.hidden || state.archived),
{
    proof {
        reveal_strlit("thread is archived");
        assert("thread is archived"@ =~= seq!['t', 'h', 'r', 'e', 'a', 'd', ' ', 'i', 's', ' ', 'a', 'r', 'c', 'h', 'i', 'v', 'e', 'd']);
    }
    if state.deleted || state.hidden {
        Err(ForumError::NotFound)
    } else if state.archived {
        Err(ForumError::Conflict(String::from_str("thread is archived")))
    } else {
        Ok(())
    }
}

/// The quoted comment must exist, be visible and belong to the thread; its
/// author (if the account still exists) is returned.
pub fn quoted_author(found: Option<Option<i64>>) -> (r: Result<Option<i64>, ForumError>)
    ensures
        found is None ==> (r matches Err(e) && is_bad_request(e, "quoted comment must be an available comment in this thread"@)),
        found matches Some(a) ==> r == Ok::<Option<i64>, ForumError>(a),
{
    match found {
        Some(a) => Ok(a),
        None => Err(ForumError::BadRequest(String::from_str("quoted comment must be an available comment in this thread"))),
    }
}

/// A reply needs its parent comment, visible and in the same thread.
pub fn require_parent_path(path: Option<String>) -> (r: Result<String, ForumError>)
    ensures
        path is None ==> (r matches Err(e) && e is CommentMissing),
        path matches Some(p) ==> (r matches Ok(q) && q@ == p@),
{
    match path {
        Some(p) => Ok(p),
        None => Err(ForumError::CommentMissing),
    }
}

/// Strictly increasing, hence without repeats.
pub open spec fn strictly_increasing(s: Seq<i64>) -> bool {
    forall|a: int, b: int| 0 <= a < b < s.len() ==> #[trigger] s[a] < #[trigger] s[b]
}

/// The accounts among `candidates`, other than `excluded`, each once and in
/// increasing order.
pub open spec fn is_sorted_set_of(r: Seq<i64>, candidates: Seq<Option<i64>>, excluded: Option<i64>) -> bool {
    &&& strictly_increasing(r)
    &&& forall|x: i64| r.contains(x) <==> (Some(x) != excluded && candidates.contains(Some(x)))
}

/// Insert `x` into a strictly increasing vector unless it is already there.
fn insert_sorted(v: Vec<i64>, x: i64) -> (r: Vec<i64>)
    requires
        strictly_increasing(v@),
    ensures
        strictly_increasing(r@),
        forall|y: i64| r@.contains(y) <==> (v@.contains(y) || y == x),
{
    let mut j: usize = 0;
    while j < v.len() && v[j] < x
        invariant
            j <= v@.len(),
            forall|k: int| 0 <= k < j ==> #[trigger] v@[k] < x,
        decreases v.len() - j,
    {
        j = j + 1;
    }
    if j < v.len() && v[j] == x {
        assert(v@.contains(x)) by {
            assert(v@[j as int] == x);
        }
        return v;
    }
    let ghost before = v@;
    let mut out = v;
    out.insert(j, x);
    proof {
        assert(out@ == before.insert(j as int, x));
        assert forall|a: int, b: int| 0 <= a < b < out@.len() implies #[trigger] out@[a] < #[trigger] out@[b] by {
            if b == j {
                assert(out@[a] == before[a]);
            } else if a == j {
                assert(out@[b] == before[b - 1]);
                assert(before[j as int] > x);
                if b - 1 > j {
                    assert(before[j as int] < before[b - 1]);
                }
            } else if a < j && b > j {
                assert(out@[a] == before[a]);
                assert(out@[b] == before[b - 1]);
            } else if b < j {
                assert(out@[a] == before[a]);
                assert(out@[b] == before[b]);
            } else {
                assert(out@[a] == before[a - 1]);
                assert(out@[b] == before[b - 1]);
            }
        }
        assert forall|y: i64| #[trigger] out@.contains(y) == (before.contains(y) || y == x) by {
            if out@.contains(y) {
                let k = choose|k: int| 0 <= k < out@.len() && #[trigger] out@[k] == y;
                if k < j {
                    assert(before[k] == y);
                } else if k > j {
                    assert(before[k - 1] == y);
                }
            }
            if before.contains(y) {
                let k = choose|k: int| 0 <= k < before.len() && #[trigger] before[k] == y;
                if k < j {
                    assert(out@[k] == y);
                } else {
                    assert(out@[k + 1] == y);
                }
            }
            if y == x {
                assert(out@[j as int] == x);
            }
        }
    }
    out
}

/// Sorted, deduplicated accounts among `candidates` other than `excluded`.
pub fn sorted_accounts(candidates: &Vec<Option<i64>>, excluded: Option<i64>) -> (r: Vec<i64>)
    ensures
        is_sorted_set_of(r@, candidates@, excluded),
{
    let mut out: Vec<i64> = Vec::new();
    let mut i: usize = 0;
    while i < candidates.len()
        invariant
            i <= candidates@.len(),
            is_sorted_set_of(out@, candidates@.take(i as int), excluded),
        decreases candidates.len() - i,
    {
        let ghost pre = candidates@.take(i as int);
        let ghost post = candidates@.take(i as int + 1);
        assert(post =~= pre.push(candidates@[i as int]));
        match candidates[i] {
            Some(x) => {
                if Some(x) != excluded {
                    out = insert_sorted(out, x);
                }
            },
            None => {},
        }
        proof {
            assert forall|y: i64| out@.contains(y) <==> (Some(y) != excluded && post.contains(Some(y))) by {
                if post.contains(Some(y)) {
                    let k = choose|k: int| 0 <= k < post.len() && #[trigger] post[k] == Some(y);
                    if k < i {
                        assert(pre[k] == Some(y));
                    }
                }
                if pre.contains(Some(y)) {
                    let k = choose|k: int| 0 <= k < pre.len() && #[trigger] pre[k] == Some(y);
                    assert(post[k] == Some(y));
                }
                if candidates@[i as int] == Some(y) {
                    assert(post[i as int] == Some(y));
                }
            }
        }
        i = i + 1;
    }
    assert(candidates@.take(candidates@.len() as int) =~= candidates@);
    out
}

/// The people a new comment directly concerns (thread author, quoted
/// author, parent author), without the commenter, each once, in increasing
/// order: the pairs whose block state is checked before posting.
pub fn direct_recipients(author_id: i64, thread_author: Option<i64>, quoted_author: Option<i64>, parent_author: Option<i64>) -> (r: Vec<i64>)
    ensures
        strictly_increasing(r@),
        forall|x: i64| r@.contains(x) <==> (x != author_id
            && (thread_author == Some(x) || quoted_author == Some(x) || parent_author == Some(x))),
{
    let candidates = vec![thread_author, quoted_author, parent_author];
    let r = sorted_accounts(&candidates, Some(author_id));
    proof {
        assert forall|x: i64| candidates@.contains(Some(x)) <==> (thread_author == Some(x) || quoted_author == Some(x) || parent_author == Some(x)) by {
            if candidates@.contains(Some(x)) {
                let k = choose|k: int| 0 <= k < candidates@.len() && #[trigger] candidates@[k] == Some(x);
            }
            if thread_author == Some(x) {
                assert(candidates@[0] == Some(x));
            }
            if quoted_author == Some(x) {
                assert(candidates@[1] == Some(x));
            }
            if parent_author == Some(x) {
                assert(candidates@[2] == Some(x));
            }
        }
    }
    r
}

/// Accounts that never get the "watching" notice for a new comment: the
/// commenter and everyone told directly.
pub fn watcher_exclusions(author_id: i64, thread_author: Option<i64>, parent_author: Option<i64>, quoted_author: Option<i64>) -> (r: Vec<i64>)
    ensures
        strictly_increasing(r@),
        forall|x: i64| r@.contains(x) <==> (x == author_id || thread_author == Some(x) || parent_author == Some(x) || quoted_author == Some(x)),
{
    let candidates = vec![Some(author_id), thread_author, parent_author, quoted_author];
    let r = sorted_accounts(&candidates, None);
    proof {
        assert forall|x: i64| candidates@.contains(Some(x)) <==> (x == author_id || thread_author == Some(x) || parent_author == Some(x) || quoted_author == Some(x)) by {
            if candidates@.contains(Some(x)) {
                let k = choose|k: int| 0 <= k < candidates@.len() && #[trigger] candidates@[k] == Some(x);
            }
            if x == author_id {
                assert(candidates@[0] == Some(x));
            }
            if thread_author == Some(x) {
                assert(candidates@[1] == Some(x));
            }
            if parent_author == Some(x) {
                assert(candidates@[2] == Some(x));
            }
            if quoted_author == Some(x) {
                assert(candidates@[3] == Some(x));
            }
        }
    }
    r
}

/// Why an account is told about a new comment.
#[derive(Clone, Copy, Debug, PartialEq, Eq)]
pub enum CommentNoticeKind {
    /// A reply in the account's thread.
    Reply,
    /// A reply to the account's comment.
    ParentReply,
    /// A quote of the account's comment.
    Quote,
    /// A reply in a thread the account watches.
    Watching,
    /// A mention of the account's handle.
    Mention,
}

impl CommentNoticeKind {
    /// The segment of the outbox deduplication key.
    pub open spec fn spec_key_segment(self) -> Seq<char> {
        match self {
            CommentNoticeKind::Reply => "reply"@,
            CommentNoticeKind::ParentReply => "parent-reply"@,
            CommentNoticeKind::Quote => "quote"@,
            CommentNoticeKind::Watching => "watching"@,
            CommentNoticeKind::Mention => "mention"@,
        }
    }

    /// The notification type the outbox stores.
    pub open spec fn spec_notification_type(self) -> Seq<char> {
        match self {
            CommentNoticeKind::Reply => "reply"@,
            CommentNoticeKind::ParentReply => "reply"@,
            CommentNoticeKind::Quote => "quote"@,
            CommentNoticeKind::Watching => "watching"@,
            CommentNoticeKind::Mention => "mention"@,
        }
    }

    pub fn key_segment(&self) -> (s: String)
        ensures
            s@ == self.spec_key_segment(),
    {
        match self {
            CommentNoticeKind::Reply => String::from_str("reply"),
            CommentNoticeKind::ParentReply => String::from_str("parent-reply"),
            CommentNoticeKind::Quote => String::from_str("quote"),
            CommentNoticeKind::Watching => String::from_str("watching"),
            CommentNoticeKind::Mention => String::from_str("mention"),
        }
    }

    pub fn notification_type(&self) -> (s: String)
        ensures
            s@ == self.spec_notification_type(),
    {
        match self {
            CommentNoticeKind::Reply => String::from_str("reply"),
            CommentNoticeKind::ParentReply => String::from_str("reply"),
            CommentNoticeKind::Quote => String::from_str("quote"),
            CommentNoticeKind::Watching => String::from_str("watching"),
            CommentNoticeKind::Mention => String::from_str("mention"),
        }
    }
}

/// One notification to enqueue for a new comment.
pub struct CommentNotice {
    pub kind: CommentNoticeKind,
    pub recipient_id: i64,
    pub dedupe_key: String,
}

/// `forum-comment:{comment}:{segment}:{recipient}`.
pub open spec fn comment_notice_key(comment_id: i64, kind: CommentNoticeKind, recipient_id: i64) -> Seq<char> {
    "forum-comment:"@ + decimal_text(comment_id as int) + ":"@ + kind.spec_key_segment() + ":"@ + decimal_text(recipient_id as int)
}

pub open spec fn is_notice(n: CommentNotice, comment_id: i64, kind: CommentNoticeKind, recipient_id: i64) -> bool {
    n.kind == kind && n.recipient_id == recipient_id && n.dedupe_key@ == comment_notice_key(comment_id, kind, recipient_id)
}

/// The notice of kind `kind` for `recipient_id` about comment `comment_id`.
pub fn comment_notice(comment_id: i64, kind: CommentNoticeKind, recipient_id: i64) -> (n: CommentNotice)
    ensures
        is_notice(n, comment_id, kind, recipient_id),
{
    let mut key = String::from_str("forum-comment:");
    key.append(i64_to_string(comment_id).as_str());
    key.append(":");
    key.append(kind.key_segment().as_str());
    key.append(":");
    key.append(i64_to_string(recipient_id).as_str());
    CommentNotice { kind, recipient_id, dedupe_key: key }
}

/// The direct notices for a published comment, in order: the thread author
/// (reply), the parent comment's author unless already told as thread
/// author (parent reply), and the quoted comment's author (quote); never
/// the commenter.
pub open spec fn direct_notices_spec(author_id: i64, thread_author: Option<i64>, parent_author: Option<i64>, quoting: bool, quoted_author: Option<i64>) -> Seq<(CommentNoticeKind, i64)> {
    let reply: Seq<(CommentNoticeKind, i64)> = match thread_author {
        Some(t) => if t != author_id { seq![(CommentNoticeKind::Reply, t)] } else { seq![] },
        None => seq![],
    };
    let parent: Seq<(CommentNoticeKind, i64)> = match parent_author {
        Some(p) => if p != author_id && Some(p) != thread_author { seq![(CommentNoticeKind::ParentReply, p)] } else { seq![] },
        None => seq![],
    };
    let quote: Seq<(CommentNoticeKind, i64)> = match quoted_author {
        Some(q) => if quoting && q != author_id { seq![(CommentNoticeKind::Quote, q)] } else { seq![] },
        None => seq![],
    };
    reply + parent + quote
}

pub fn direct_comment_notices(
    comment_id: i64,
    author_id: i64,
    thread_author: Option<i64>,
    parent_author: Option<i64>,
    quoted_comment_id: Option<i64>,
    quoted_author: Option<i64>,
) -> (r: Vec<CommentNotice>)
    ensures
        r@.len() == direct_notices_spec(author_id, thread_author, parent_author, quoted_comment_id is Some, quoted_author).len(),
        forall|i: int| 0 <= i < r@.len() ==> #[trigger] is_notice(r@[i], comment_id,
            direct_notices_spec(author_id, thread_author, parent_author, quoted_comment_id is Some, quoted_author)[i].0,
            direct_notices_spec(author_id, thread_author, parent_author, quoted_comment_id is Some, quoted_author)[i].1),
{
    let ghost plan = direct_notices_spec(author_id, thread_author, parent_author, quoted_comment_id is Some, quoted_author);
    let mut out: Vec<CommentNotice> = Vec::new();
    let ghost mut kinds: Seq<(CommentNoticeKind, i64)> = seq![];
    match thread_author {
        Some(t) => {
            if t != author_id {
                out.push(comment_notice(comment_id, CommentNoticeKind::Reply, t));
                proof { kinds = kinds.push((CommentNoticeKind::Reply, t)); }
            }
        },
        None => {},
    }
    match parent_author {
        Some(p) => {
            if p != author_id && Some(p) != thread_author {
                out.push(comment_notice(comment_id, CommentNoticeKind::ParentReply, p));
                proof { kinds = kinds.push((CommentNoticeKind::ParentReply, p)); }
            }
        },
        None => {},
    }
    match quoted_author {
        Some(q) => {
            if quoted_comment_id.is_some() && q != author_id {
                out.push(comment_notice(comment_id, CommentNoticeKind::Quote, q));
                proof { kinds = kinds.push((CommentNoticeKind::Quote, q)); }
            }
        },
        None => {},
    }
    assert(kinds =~= plan);
    out
}

/// The sequence without the occurrences of `x`.
pub open spec fn excluding(s: Seq<i64>, x: i64) -> Seq<i64> {
    s.filter(|t: i64| t != x)
}

/// The commenter is never mentioned-notified about their own comment.
pub fn mention_notices(comment_id: i64, author_id: i64, targets: &Vec<i64>) -> (r: Vec<CommentNotice>)
    ensures
        r@.len() == excluding(targets@, author_id).len(),
        forall|i: int| 0 <= i < r@.len() ==> #[trigger] is_notice(r@[i], comment_id, CommentNoticeKind::Mention,
            excluding(targets@, author_id)[i]),
{
    let mut out: Vec<CommentNotice> = Vec::new();
    let mut i: usize = 0;
    while i < targets.len()
        invariant
            i <= targets@.len(),
            out@.len() == excluding(targets@.take(i as int), author_id).len(),
            forall|k: int| 0 <= k < out@.len() ==> #[trigger] is_notice(out@[k], comment_id, CommentNoticeKind::Mention,
                excluding(targets@.take(i as int), author_id)[k]),
        decreases targets.len() - i,
    {
        let t = targets[i];
        proof {
            assert(targets@.take(i as int + 1).drop_last() =~= targets@.take(i as int));
            reveal(Seq::filter);
        }
        if t != author_id {
            out.push(comment_notice(comment_id, CommentNoticeKind::Mention, t));
        }
        i = i + 1;
    }
    assert(targets@.take(targets@.len() as int) =~= targets@);
    out
}

/// Watchers get the "watching" notice, grouped per thread.
pub fn watching_notices(comment_id: i64, watchers: &Vec<i64>) -> (r: Vec<CommentNotice>)
    ensures
        r@.len() == watchers@.len(),
        forall|i: int| 0 <= i < r@.len() ==> #[trigger] is_notice(r@[i], comment_id, CommentNoticeKind::Watching, watchers@[i]),
{
    let mut out: Vec<CommentNotice> = Vec::new();
    let mut i: usize = 0;
    while i < watchers.len()
        invariant
            i <= watchers@.len(),
            out@.len() == i,
            forall|k: int| 0 <= k < i ==> #[trigger] is_notice(out@[k], comment_id, CommentNoticeKind::Watching, watchers@[k]),
        decreases watchers.len() - i,
    {
        out.push(comment_notice(comment_id, CommentNoticeKind::Watching, watchers[i]));
        i = i + 1;
    }
    out
}

/// Every notice a published comment sends, in order: the direct notices,
/// then one per watcher, then one per mentioned account other than the
/// commenter.
pub open spec fn planned_notices(
    author_id: i64,
    thread_author: Option<i64>,
    parent_author: Option<i64>,
    quoting: bool,
    quoted_author: Option<i64>,
    watchers: Seq<i64>,
    mention_targets: Seq<i64>,
) -> Seq<(CommentNoticeKind, i64)> {
    direct_notices_spec(author_id, thread_author, parent_author, quoting, quoted_author)
        + watchers.map_values(|w: i64| (CommentNoticeKind::Watching, w))
        + excluding(mention_targets, author_id).map_values(|m: i64| (CommentNoticeKind::Mention, m))
}

/// The notices of a new comment. A comment that waits hidden for staff
/// review sends none; a published one sends the planned notices.
pub fn published_comment_notices(
    is_hidden: bool,
    comment_id: i64,
    author_id: i64,
    thread_author: Option<i64>,
    parent_author: Option<i64>,
    quoted_comment_id: Option<i64>,
    quoted_author: Option<i64>,
    watchers: &Vec<i64>,
    mention_targets: &Vec<i64>,
) -> (r: Vec<CommentNotice>)
    ensures
        is_hidden ==> r@.len() == 0,
        !is_hidden ==> r@.len() == planned_notices(author_id, thread_author, parent_author, quoted_comment_id is Some,
            quoted_author, watchers@, mention_targets@).len(),
        !is_hidden ==> forall|i: int| 0 <= i < r@.len() ==> #[trigger] is_notice(r@[i], comment_id,
            planned_notices(author_id, thread_author, parent_author, quoted_comment_id is Some, quoted_author, watchers@,
                mention_targets@)[i].0,
            planned_notices(author_id, thread_author, parent_author, quoted_comment_id is Some, quoted_author, watchers@,
                mention_targets@)[i].1),
{
    if is_hidden {
        return Vec::new();
    }
    let ghost plan = planned_notices(author_id, thread_author, parent_author, quoted_comment_id is Some, quoted_author,
        watchers@, mention_targets@);
    let ghost d_plan = direct_notices_spec(author_id, thread_author, parent_author, quoted_comment_id is Some, quoted_author);
    let ghost w_plan = watchers@.map_values(|w: i64| (CommentNoticeKind::Watching, w));
    let ghost m_plan = excluding(mention_targets@, author_id).map_values(|m: i64| (CommentNoticeKind::Mention, m));
    let mut out = direct_comment_notices(comment_id, author_id, thread_author, parent_author, quoted_comment_id, quoted_author);
    let mut w = watching_notices(comment_id, watchers);
    let mut m = mention_notices(comment_id, author_id, mention_targets);
    let ghost d_seq = out@;
    let ghost w_seq = w@;
    let ghost m_seq = m@;
    out.append(&mut w);
    out.append(&mut m);
    assert(out@ =~= d_seq + w_seq + m_seq);
    assert forall|i: int| 0 <= i < out@.len() implies #[trigger] is_notice(out@[i], comment_id, plan[i].0, plan[i].1) by {
        if i < d_seq.len() {
            assert(out@[i] == d_seq[i]);
            assert(plan[i] == d_plan[i]);
        } else if i < d_seq.len() + w_seq.len() {
            let j = i - d_seq.len();
            assert(out@[i] == w_seq[j]);
            assert(plan[i] == w_plan[j]);
        } else {
            let j = i - d_seq.len() - w_seq.len();
            assert(out@[i] == m_seq[j]);
            assert(plan[i] == m_plan[j]);
        }
    }
    out
}

/// What publishing a comment does besides notifying: it counts as a reply,
/// credits the author's activity, and offers the first-comment achievement
/// under its deduplication key. A hidden comment does none of these.
pub struct CommentPublication {
    pub counts_reply: bool,
    pub credits_activity: bool,
    pub achievement_key: Option<String>,
}

pub fn comment_publication(comment_id: i64, is_hidden: bool) -> (p: CommentPublication)
    ensures
        p.counts_reply == !is_hidden,
        p.credits_activity == !is_hidden,
        is_hidden ==> p.achievement_key is None,
        !is_hidden ==> (p.achievement_key matches Some(k)
            && k@ == "forum-comment:"@ + decimal_text(comment_id as int) + ":achievement:first-comment"@),
{
    if is_hidden {
        CommentPublication { counts_reply: false, credits_activity: false, achievement_key: None }
    } else {
        let mut key = String::from_str("forum-comment:");
        key.append(i64_to_string(comment_id).as_str());
        key.append(":achievement:first-comment");
        CommentPublication { counts_reply: true, credits_activity: true, achievement_key: Some(key) }
    }
}

/// `watching:{thread}`: the aggregation group of watching notices.
pub fn watching_group_key(thread_id: i64) -> (s: String)
    ensures
        s@ == "watching:"@ + decimal_text(thread_id as int),
{
    let mut s = String::from_str("watching:");
    s.append(i64_to_string(thread_id).as_str());
    s
}

/// The edited comment as stored, for the author's compare-and-swap edit.
pub struct CommentEditState {
    pub author_id: i64,
    pub deleted: bool,
    pub hidden: bool,
    pub content_version: i64,
    pub created_at_micros: i64,
}

/// Only the author edits, only a visible comment, and only the version the
/// editor last saw.
pub fn check_comment_edit(existing: &CommentEditState, editor_id: i64, expected_version: i64) -> (r: Result<(), ForumError>)
    ensures
        existing.author_id != editor_id ==> (r matches Err(e) && e is Forbidden),
        existing.author_id == editor_id && (existing.deleted || existing.hidden) ==> (r matches Err(e) && e is NotFound),
        existing.author_id == editor_id && !(existing.deleted || existing.hidden) && expected_version != existing.content_version
            ==> (r matches Err(e) && e == ForumError::OptimisticLockConflict { current_version: existing.content_version }),
        r is Ok <==> (existing.author_id == editor_id && !existing.deleted && !existing.hidden && expected_version == existing.content_version),
{
    if existing.author_id != editor_id {
        Err(ForumError::Forbidden)
    } else if existing.deleted || existing.hidden {
        Err(ForumError::NotFound)
    } else if expected_version != existing.content_version {
        Err(ForumError::OptimisticLockConflict { current_version: existing.content_version })
    } else {
        Ok(())
    }
}

/// Edits within five minutes of posting replace the content without keeping
/// a revision.
pub open spec fn revision_grace_micros() -> int {
    300_000_000
}

/// A revision of the old content is kept when the content changes after
/// the grace period.
pub fn edit_needs_revision(body_changed: bool, created_at_micros: i64, now_micros: i64) -> (r: bool)
    ensures
        r == (body_changed && !(created_at_micros > now_micros - revision_grace_micros())),
{
    let within_grace = (created_at_micros as i128) > (now_micros as i128) - 300_000_000i128;
    body_changed && !within_grace
}

/// `expectedVersion` must be positive.
pub fn check_expected_version(expected_version: i64) -> (r: Result<(), ForumError>)
    ensures
        r is Ok <==> expected_version >= 1,
        r matches Err(e) ==> is_bad_request(e, "expectedVersion must be a positive integer"@),
{
    if expected_version < 1 {
        Err(ForumError::BadRequest(String::from_str("expectedVersion must be a positive integer")))
    } else {
        Ok(())
    }
}

/// Only the author deletes a comment, and only once.
pub fn check_comment_delete(author_id: i64, already_deleted: bool, actor_id: i64) -> (r: Result<(), ForumError>)
    ensures
        author_id != actor_id ==> (r matches Err(e) && e is Forbidden),
        author_id == actor_id && already_deleted ==> (r matches Err(e) && is_conflict(e, "comment is already deleted"@)),
        r is Ok <==> (author_id == actor_id && !already_deleted),
{
    if author_id != actor_id {
        Err(ForumError::Forbidden)
    } else if already_deleted {
        Err(ForumError::Conflict(String::from_str("comment is already deleted")))
    } else {
        Ok(())
    }
}

/// A comment's author is never notified directly about it, and the parent
/// comment's author hears of a reply as parent author only when they are
/// not the thread's author (who already hears of every reply).
pub proof fn lemma_direct_notices_skip_author(author_id: i64, thread_author: Option<i64>, parent_author: Option<i64>, quoting: bool, quoted_author: Option<i64>)
    ensures
        forall|i: int| 0 <= i < direct_notices_spec(author_id, thread_author, parent_author, quoting, quoted_author).len()
            ==> (#[trigger] direct_notices_spec(author_id, thread_author, parent_author, quoting, quoted_author)[i]).1 != author_id,
        forall|i: int| 0 <= i < direct_notices_spec(author_id, thread_author, parent_author, quoting, quoted_author).len()
            && (#[trigger] direct_notices_spec(author_id, thread_author, parent_author, quoting, quoted_author)[i]).0 == CommentNoticeKind::ParentReply
            ==> Some(direct_notices_spec(author_id, thread_author, parent_author, quoting, quoted_author)[i].1) != thread_author,
{
}

/// The title a notice of this kind shows.
pub open spec fn comment_notice_title(kind: CommentNoticeKind, author_handle: Seq<char>) -> Seq<char> {
    match kind {
        CommentNoticeKind::Reply => author_handle + " 回复了你的主题"@,
        CommentNoticeKind::ParentReply => author_handle + " 回复了你的评论"@,
        CommentNoticeKind::Quote => author_handle + " 引用了你的评论"@,
        CommentNoticeKind::Watching => "你订阅的主题有新回复"@,
        CommentNoticeKind::Mention => author_handle + " 提及了你"@,
    }
}

/// The members of a comment notice's payload, in order: the thread and the
/// comment, the quoted comment (quotes only), the author, the mentioned
/// handle (mentions only), the excerpt and the title.
pub open spec fn comment_payload_members(
    kind: CommentNoticeKind,
    thread_id: i64,
    comment_id: i64,
    author_handle: Seq<char>,
    body_excerpt: Seq<char>,
    quoted_comment_id: i64,
    mentioned_handle: Seq<char>,
) -> Seq<(Seq<char>, Seq<char>)> {
    let head = seq![("threadId"@, decimal_text(thread_id as int)), ("commentId"@, decimal_text(comment_id as int))];
    let quote: Seq<(Seq<char>, Seq<char>)> = if kind == CommentNoticeKind::Quote {
        seq![("quotedCommentId"@, decimal_text(quoted_comment_id as int))]
    } else {
        seq![]
    };
    let mention: Seq<(Seq<char>, Seq<char>)> = if kind == CommentNoticeKind::Mention {
        seq![("handle"@, mentioned_handle)]
    } else {
        seq![]
    };
    head + quote + seq![("authorHandle"@, author_handle)] + mention
        + seq![("bodyExcerpt"@, body_excerpt), ("title"@, comment_notice_title(kind, author_handle))]
}

fn comment_notice_title_text(kind: CommentNoticeKind, author_handle: &str) -> (s: String)
    ensures
        s@ == comment_notice_title(kind, author_handle@),
{
    let suffix = match kind {
        CommentNoticeKind::Reply => " 回复了你的主题",
        CommentNoticeKind::ParentReply => " 回复了你的评论",
        CommentNoticeKind::Quote => " 引用了你的评论",
        CommentNoticeKind::Watching => {
            return String::from_str("你订阅的主题有新回复");
        },
        CommentNoticeKind::Mention => " 提及了你",
    };
    let mut s = String::from_str(author_handle);
    s.append(suffix);
    s
}

/// The payload of a comment notice. `quoted_comment_id` is read for quotes
/// and `mentioned_handle` for mentions only.
pub fn comment_notice_payload(
    kind: CommentNoticeKind,
    thread_id: i64,
    comment_id: i64,
    author_handle: &str,
    body_excerpt: &str,
    quoted_comment_id: i64,
    mentioned_handle: &str,
) -> (p: JsonObject)
    ensures
        p.is_object,
        p.fields@.len() == comment_payload_members(kind, thread_id, comment_id, author_handle@, body_excerpt@,
            quoted_comment_id, mentioned_handle@).len(),
        forall|i: int| 0 <= i < p.fields@.len() ==> #[trigger] text_member(p, i,
            comment_payload_members(kind, thread_id, comment_id, author_handle@, body_excerpt@, quoted_comment_id, mentioned_handle@)[i].0,
            comment_payload_members(kind, thread_id, comment_id, author_handle@, body_excerpt@, quoted_comment_id, mentioned_handle@)[i].1),
{
    let ghost members = comment_payload_members(kind, thread_id, comment_id, author_handle@, body_excerpt@,
        quoted_comment_id, mentioned_handle@);
    let mut fields: Vec<(String, JsonScalar)> = Vec::new();
    fields.push(text_field("threadId", i64_to_string(thread_id)));
    fields.push(text_field("commentId", i64_to_string(comment_id)));
    if matches!(kind, CommentNoticeKind::Quote) {
        fields.push(text_field("quotedCommentId", i64_to_string(quoted_comment_id)));
    }
    fields.push(text_field("authorHandle", String::from_str(author_handle)));
    if matches!(kind, CommentNoticeKind::Mention) {
        fields.push(text_field("handle", String::from_str(mentioned_handle)));
    }
    fields.push(text_field("bodyExcerpt", String::from_str(body_excerpt)));
    fields.push(text_field("title", comment_notice_title_text(kind, author_handle)));
    let p = JsonObject { is_object: true, fields };
    assert(p.fields@.len() == members.len());
    assert forall|i: int| 0 <= i < p.fields@.len() implies #[trigger] text_member(p, i, members[i].0, members[i].1) by {
        if kind == CommentNoticeKind::Quote {
            assert(members =~= seq![
                ("threadId"@, decimal_text(thread_id as int)),
                ("commentId"@, decimal_text(comment_id as int)),
                ("quotedCommentId"@, decimal_text(quoted_comment_id as int)),
                ("authorHandle"@, author_handle@),
                ("bodyExcerpt"@, body_excerpt@),
                ("title"@, comment_notice_title(kind, author_handle@)),
            ]);
        } else if kind == CommentNoticeKind::Mention {
            assert(members =~= seq![
                ("threadId"@, decimal_text(thread_id as int)),
                ("commentId"@, decimal_text(comment_id as int)),
                ("authorHandle"@, author_handle@),
                ("handle"@, mentioned_handle@),
                ("bodyExcerpt"@, body_excerpt@),
                ("title"@, comment_notice_title(kind, author_handle@)),
            ]);
        } else {
            assert(members =~= seq![
                ("threadId"@, decimal_text(thread_id as int)),
                ("commentId"@, decimal_text(comment_id as int)),
                ("authorHandle"@, author_handle@),
                ("bodyExcerpt"@, body_excerpt@),
                ("title"@, comment_notice_title(kind, author_handle@)),
            ]);
        }
    }
    p
}

/// Whoever wrote the quoted comment hears of the quote, unless they wrote
/// the new comment themselves, whatever else they are told (the thread's
/// author still gets both the reply and the quote notice); the thread's
/// author hears of every reply by someone else; and nobody hears of a quote
/// in a comment that quotes nothing.
pub proof fn lemma_direct_notices_reach_their_recipients(
    author_id: i64,
    thread_author: Option<i64>,
    parent_author: Option<i64>,
    quoting: bool,
    quoted_author: Option<i64>,
)
    ensures
        quoting && quoted_author is Some && quoted_author->0 != author_id ==> direct_notices_spec(author_id,
            thread_author, parent_author, quoting, quoted_author).contains((CommentNoticeKind::Quote, quoted_author->0)),
        thread_author is Some && thread_author->0 != author_id ==> direct_notices_spec(author_id, thread_author,
            parent_author, quoting, quoted_author).contains((CommentNoticeKind::Reply, thread_author->0)),
        !quoting ==> forall|i: int| 0 <= i < direct_notices_spec(author_id, thread_author, parent_author, quoting,
            quoted_author).len() ==> (#[trigger] direct_notices_spec(author_id, thread_author, parent_author, quoting,
            quoted_author)[i]).0 != CommentNoticeKind::Quote,
{
    let s = direct_notices_spec(author_id, thread_author, parent_author, quoting, quoted_author);
    if quoting && quoted_author is Some && quoted_author->0 != author_id {
        assert(s[s.len() - 1] == (CommentNoticeKind::Quote, quoted_author->0));
    }
    if thread_author is Some && thread_author->0 != author_id {
        assert(s[0] == (CommentNoticeKind::Reply, thread_author->0));
    }
}
} // verus!
