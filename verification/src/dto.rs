//! Rows as the store returns them, and their API views.
//!
//! Instants are unix microseconds; the API shows unix seconds. A hot score
//! is carried as the bit pattern of its `f64`, which the API layer turns
//! back into the number.

use vstd::prelude::*;
use crate::boards::{posting_restriction, spec_posting_restriction, BoardPostingActor, BoardRow};
use crate::number::{decimal_text, i64_to_string};
use crate::polls::PollDto;
use crate::text::opt_string_view;

verus! {

/// Unix seconds of an instant given in unix microseconds, rounding toward
/// the past (as `DateTime::timestamp` does).
pub open spec fn spec_unix_seconds(micros: i64) -> int {
    micros as int / 1_000_000
}

pub fn unix_seconds(micros: i64) -> (s: i64)
    ensures
        s == spec_unix_seconds(micros),
{
    match micros.checked_div_euclid(1_000_000) {
        Some(s) => s,
        None => 0,
    }
}

pub fn opt_unix_seconds(micros: Option<i64>) -> (s: Option<i64>)
    ensures
        match micros {
            Some(m) => s == Some(spec_unix_seconds(m) as i64),
            None => s is None,
        },
{
    match micros {
        Some(m) => Some(unix_seconds(m)),
        None => None,
    }
}

pub fn clone_opt_string(o: &Option<String>) -> (r: Option<String>)
    ensures
        opt_string_view(r) == opt_string_view(*o),
{
    match o {
        Some(s) => Some(s.clone()),
        None => None,
    }
}

pub fn opt_id_string(o: Option<i64>) -> (r: Option<String>)
    ensures
        match o {
            Some(v) => r matches Some(s) && s@ == decimal_text(v as int),
            None => r is None,
        },
{
    match o {
        Some(v) => Some(i64_to_string(v)),
        None => None,
    }
}

/// A thread joined with its author, as listed.
pub struct ThreadRowJoined {
    pub id: i64,
    pub board_id: i64,
    pub author_id: i64,
    pub title: String,
    pub body: Option<String>,
    pub content_version: i64,
    pub reply_count: i32,
    pub vote_count: i32,
    pub hot_score_bits: Option<u64>,
    pub status: String,
    pub created_at_micros: i64,
    pub last_activity_at_micros: i64,
    pub author_handle: String,
    pub author_display_name: Option<String>,
}

/// A thread in a list.
pub struct ThreadDto {
    pub id: String,
    pub board_id: String,
    pub author_handle: String,
    pub author_display_name: Option<String>,
    pub author_avatar: Option<String>,
    pub title: String,
    pub body_excerpt: Option<String>,
    pub content_version: i64,
    pub reply_count: i32,
    pub vote_count: i32,
    pub hot_score_bits: Option<u64>,
    pub status: String,
    pub tags: Vec<String>,
    pub created_at: i64,
    pub last_activity_at: i64,
    pub viewer_vote: Option<i16>,
    pub is_bookmarked: bool,
    pub can_edit: bool,
    pub can_delete: bool,
    pub can_moderate: bool,
    pub unread_count: Option<i64>,
}

/// The listed view of a thread row, before viewer-specific hydration: ids
/// as decimal text, instants in seconds, no tags, and every viewer flag off.
pub open spec fn is_thread_dto_of(d: ThreadDto, row: ThreadRowJoined) -> bool {
    &&& d.id@ == decimal_text(row.id as int)
    &&& d.board_id@ == decimal_text(row.board_id as int)
    &&& d.author_handle@ == row.author_handle@
    &&& opt_string_view(d.author_display_name) == opt_string_view(row.author_display_name)
    &&& d.author_avatar is None
    &&& d.title@ == row.title@
    &&& d.body_excerpt is None
    &&& d.content_version == row.content_version
    &&& d.reply_count == row.reply_count
    &&& d.vote_count == row.vote_count
    &&& d.hot_score_bits == row.hot_score_bits
    &&& d.status@ == row.status@
    &&& d.tags@.len() == 0
    &&& d.created_at == spec_unix_seconds(row.created_at_micros)
    &&& d.last_activity_at == spec_unix_seconds(row.last_activity_at_micros)
    &&& d.viewer_vote is None
    &&& !d.is_bookmarked && !d.can_edit && !d.can_delete && !d.can_moderate
    &&& d.unread_count is None
}

pub fn thread_to_dto(row: &ThreadRowJoined) -> (d: ThreadDto)
    ensures
        is_thread_dto_of(d, *row),
{
    ThreadDto {
        id: i64_to_string(row.id),
        board_id: i64_to_string(row.board_id),
        author_handle: row.author_handle.clone(),
        author_display_name: clone_opt_string(&row.author_display_name),
        author_avatar: None,
        title: row.title.clone(),
        body_excerpt: None,
        content_version: row.content_version,
        reply_count: row.reply_count,
        vote_count: row.vote_count,
        hot_score_bits: row.hot_score_bits,
        status: row.status.clone(),
        tags: Vec::new(),
        created_at: unix_seconds(row.created_at_micros),
        last_activity_at: unix_seconds(row.last_activity_at_micros),
        viewer_vote: None,
        is_bookmarked: false,
        can_edit: false,
        can_delete: false,
        can_moderate: false,
        unread_count: None,
    }
}

/// The unread feed shows each thread with its unread count.
pub fn unread_thread_dto(row: &ThreadRowJoined, unread_count: i64) -> (d: ThreadDto)
    ensures
        d.unread_count == Some(unread_count),
        is_thread_dto_of((ThreadDto { unread_count: None, ..d }), *row),
{
    let mut d = thread_to_dto(row);
    d.unread_count = Some(unread_count);
    d
}

/// A thread with every state column, as opened.
pub struct ThreadRowJoinedFull {
    pub id: i64,
    pub board_id: i64,
    pub author_id: i64,
    pub title: String,
    pub body: Option<String>,
    pub content_format: String,
    pub content_version: i64,
    pub reply_count: i32,
    pub vote_count: i32,
    pub hot_score_bits: Option<u64>,
    pub status: String,
    pub pinned_at_micros: Option<i64>,
    pub pinned_globally: bool,
    pub featured_at_micros: Option<i64>,
    pub closed_at_micros: Option<i64>,
    pub archived_at_micros: Option<i64>,
    pub deleted_at_micros: Option<i64>,
    pub deleted_by: Option<i64>,
    pub edited_at_micros: Option<i64>,
    pub hidden_at_micros: Option<i64>,
    pub created_at_micros: i64,
    pub last_activity_at_micros: i64,
    pub solved_answer_id: Option<i64>,
    pub author_handle: String,
    pub author_display_name: Option<String>,
}

/// An opened thread.
pub struct ThreadDetailDto {
    pub id: String,
    pub board_id: String,
    pub author_handle: String,
    pub author_display_name: Option<String>,
    pub author_avatar: Option<String>,
    pub author_id: String,
    pub title: String,
    pub body: Option<String>,
    pub content_format: String,
    pub content_version: i64,
    pub reply_count: i32,
    pub vote_count: i32,
    pub hot_score_bits: Option<u64>,
    pub tags: Vec<String>,
    pub status: String,
    pub pinned_at: Option<i64>,
    pub pinned_globally: bool,
    pub featured_at: Option<i64>,
    pub closed_at: Option<i64>,
    pub archived_at: Option<i64>,
    pub deleted_at: Option<i64>,
    pub edited_at: Option<i64>,
    pub hidden_at: Option<i64>,
    pub created_at: i64,
    pub last_activity_at: i64,
    pub solved_answer_id: Option<String>,
    pub viewer_vote: Option<i16>,
    pub is_bookmarked: bool,
    pub my_last_read_comment_id: Option<String>,
    pub my_subscription_level: Option<String>,
    /// The thread's poll; the opened view carries none until hydrated.
    pub poll: Option<PollDto>,
    pub can_edit: bool,
    pub can_delete: bool,
    pub can_moderate: bool,
}

pub open spec fn opt_seconds(m: Option<i64>) -> Option<int> {
    match m {
        Some(v) => Some(spec_unix_seconds(v)),
        None => None,
    }
}

pub open spec fn opt_i64_int(m: Option<i64>) -> Option<int> {
    match m {
        Some(v) => Some(v as int),
        None => None,
    }
}

/// The opened view of a thread row, before viewer-specific hydration.
pub open spec fn is_thread_detail_of(d: ThreadDetailDto, row: ThreadRowJoinedFull) -> bool {
    &&& d.id@ == decimal_text(row.id as int)
    &&& d.board_id@ == decimal_text(row.board_id as int)
    &&& d.author_handle@ == row.author_handle@
    &&& opt_string_view(d.author_display_name) == opt_string_view(row.author_display_name)
    &&& d.author_avatar is None
    &&& d.author_id@ == decimal_text(row.author_id as int)
    &&& d.title@ == row.title@
    &&& opt_string_view(d.body) == opt_string_view(row.body)
    &&& d.content_format@ == row.content_format@
    &&& d.content_version == row.content_version
    &&& d.reply_count == row.reply_count
    &&& d.vote_count == row.vote_count
    &&& d.hot_score_bits == row.hot_score_bits
    &&& d.tags@.len() == 0
    &&& d.status@ == row.status@
    &&& opt_i64_int(d.pinned_at) == opt_seconds(row.pinned_at_micros)
    &&& d.pinned_globally == row.pinned_globally
    &&& opt_i64_int(d.featured_at) == opt_seconds(row.featured_at_micros)
    &&& opt_i64_int(d.closed_at) == opt_seconds(row.closed_at_micros)
    &&& opt_i64_int(d.archived_at) == opt_seconds(row.archived_at_micros)
    &&& opt_i64_int(d.deleted_at) == opt_seconds(row.deleted_at_micros)
    &&& opt_i64_int(d.edited_at) == opt_seconds(row.edited_at_micros)
    &&& opt_i64_int(d.hidden_at) == opt_seconds(row.hidden_at_micros)
    &&& d.created_at == spec_unix_seconds(row.created_at_micros)
    &&& d.last_activity_at == spec_unix_seconds(row.last_activity_at_micros)
    &&& (match row.solved_answer_id {
        Some(v) => d.solved_answer_id matches Some(s) && s@ == decimal_text(v as int),
        None => d.solved_answer_id is None,
    })
    &&& d.viewer_vote is None && !d.is_bookmarked
    &&& d.my_last_read_comment_id is None && d.my_subscription_level is None
    &&& d.poll is None
    &&& !d.can_edit && !d.can_delete && !d.can_moderate
}

pub fn thread_to_detail_dto(row: &ThreadRowJoinedFull) -> (d: ThreadDetailDto)
    ensures
        is_thread_detail_of(d, *row),
{
    ThreadDetailDto {
        id: i64_to_string(row.id),
        board_id: i64_to_string(row.board_id),
        author_handle: row.author_handle.clone(),
        author_display_name: clone_opt_string(&row.author_display_name),
        author_avatar: None,
        author_id: i64_to_string(row.author_id),
        title: row.title.clone(),
        body: clone_opt_string(&row.body),
        content_format: row.content_format.clone(),
        content_version: row.content_version,
        reply_count: row.reply_count,
        vote_count: row.vote_count,
        hot_score_bits: row.hot_score_bits,
        tags: Vec::new(),
        status: row.status.clone(),
        pinned_at: opt_unix_seconds(row.pinned_at_micros),
        pinned_globally: row.pinned_globally,
        featured_at: opt_unix_seconds(row.featured_at_micros),
        closed_at: opt_unix_seconds(row.closed_at_micros),
        archived_at: opt_unix_seconds(row.archived_at_micros),
        deleted_at: opt_unix_seconds(row.deleted_at_micros),
        edited_at: opt_unix_seconds(row.edited_at_micros),
        hidden_at: opt_unix_seconds(row.hidden_at_micros),
        created_at: unix_seconds(row.created_at_micros),
        last_activity_at: unix_seconds(row.last_activity_at_micros),
        solved_answer_id: opt_id_string(row.solved_answer_id),
        viewer_vote: None,
        is_bookmarked: false,
        my_last_read_comment_id: None,
        my_subscription_level: None,
        poll: None,
        can_edit: false,
        can_delete: false,
        can_moderate: false,
    }
}

/// A comment joined with its author.
pub struct CommentRowJoined {
    pub id: i64,
    pub thread_id: i64,
    pub parent_id: Option<i64>,
    pub path: Option<String>,
    pub author_id: i64,
    pub body: String,
    pub content_format: String,
    pub content_version: i64,
    pub vote_count: i32,
    pub deleted_at_micros: Option<i64>,
    pub hidden_at_micros: Option<i64>,
    pub edited_at_micros: Option<i64>,
    pub created_at_micros: i64,
    pub author_handle: String,
    pub author_display_name: Option<String>,
    pub quoted_comment_id: Option<i64>,
}

/// A comment as shown.
pub struct CommentDto {
    pub id: String,
    pub thread_id: String,
    pub parent_id: Option<String>,
    pub path: String,
    pub author_handle: String,
    pub author_display_name: Option<String>,
    pub author_avatar: Option<String>,
    pub author_id: String,
    pub body: String,
    pub content_format: String,
    pub content_version: i64,
    pub vote_count: i32,
    pub viewer_vote: Option<i16>,
    pub is_bookmarked: bool,
    pub is_deleted: bool,
    pub is_hidden: bool,
    pub edited_at: Option<i64>,
    pub created_at: i64,
    pub quoted_comment_id: Option<String>,
    pub is_solved: bool,
    pub can_edit: bool,
    pub can_delete: bool,
    pub can_moderate: bool,
}

/// The shown view of a comment row; it is marked solved when it is the
/// thread's accepted answer.
pub open spec fn is_comment_dto_of(d: CommentDto, row: CommentRowJoined, solved_comment_id: Option<i64>) -> bool {
    &&& d.id@ == decimal_text(row.id as int)
    &&& d.thread_id@ == decimal_text(row.thread_id as int)
    &&& (match row.parent_id {
        Some(p) => d.parent_id matches Some(s) && s@ == decimal_text(p as int),
        None => d.parent_id is None,
    })
    &&& d.path@ == (match row.path {
        Some(p) => p@,
        None => Seq::<char>::empty(),
    })
    &&& d.author_handle@ == row.author_handle@
    &&& opt_string_view(d.author_display_name) == opt_string_view(row.author_display_name)
    &&& d.author_avatar is None
    &&& d.author_id@ == decimal_text(row.author_id as int)
    &&& d.body@ == row.body@
    &&& d.content_format@ == row.content_format@
    &&& d.content_version == row.content_version
    &&& d.vote_count == row.vote_count
    &&& d.viewer_vote is None && !d.is_bookmarked
    &&& d.is_deleted == row.deleted_at_micros is Some
    &&& d.is_hidden == row.hidden_at_micros is Some
    &&& opt_i64_int(d.edited_at) == opt_seconds(row.edited_at_micros)
    &&& d.created_at == spec_unix_seconds(row.created_at_micros)
    &&& (match row.quoted_comment_id {
        Some(q) => d.quoted_comment_id matches Some(s) && s@ == decimal_text(q as int),
        None => d.quoted_comment_id is None,
    })
    &&& d.is_solved == (solved_comment_id == Some(row.id))
    &&& !d.can_edit && !d.can_delete && !d.can_moderate
}

pub fn comment_to_dto(row: &CommentRowJoined, solved_comment_id: Option<i64>) -> (d: CommentDto)
    ensures
        is_comment_dto_of(d, *row, solved_comment_id),
{
    CommentDto {
        id: i64_to_string(row.id),
        thread_id: i64_to_string(row.thread_id),
        parent_id: opt_id_string(row.parent_id),
        path: match &row.path {
            Some(p) => p.clone(),
            None => String::new(),
        },
        author_handle: row.author_handle.clone(),
        author_display_name: clone_opt_string(&row.author_display_name),
        author_avatar: None,
        author_id: i64_to_string(row.author_id),
        body: row.body.clone(),
        content_format: row.content_format.clone(),
        content_version: row.content_version,
        vote_count: row.vote_count,
        viewer_vote: None,
        is_bookmarked: false,
        is_deleted: row.deleted_at_micros.is_some(),
        is_hidden: row.hidden_at_micros.is_some(),
        edited_at: opt_unix_seconds(row.edited_at_micros),
        created_at: unix_seconds(row.created_at_micros),
        quoted_comment_id: opt_id_string(row.quoted_comment_id),
        is_solved: solved_comment_id == Some(row.id),
        can_edit: false,
        can_delete: false,
        can_moderate: false,
    }
}

/// A board as listed, with whether the viewer may start a thread there.
pub struct BoardDto {
    pub id: String,
    pub slug: String,
    pub name: String,
    pub parent_id: Option<String>,
    pub description: Option<String>,
    pub position: i32,
    pub is_locked: bool,
    pub min_trust_to_post: i16,
    pub is_qa: bool,
    pub thread_count: i32,
    pub can_post: bool,
    pub posting_restriction: Option<String>,
}

pub fn board_to_dto(row: &BoardRow, actor: Option<BoardPostingActor>) -> (d: BoardDto)
    ensures
        d.id@ == decimal_text(row.id as int),
        d.slug@ == row.slug@,
        d.name@ == row.name@,
        (match row.parent_id {
            Some(p) => d.parent_id matches Some(s) && s@ == decimal_text(p as int),
            None => d.parent_id is None,
        }),
        opt_string_view(d.description) == opt_string_view(row.description),
        d.position == row.position,
        d.is_locked == row.is_locked,
        d.min_trust_to_post == row.min_trust_to_post,
        d.is_qa == row.is_qa,
        d.thread_count == row.thread_count,
        d.can_post == spec_posting_restriction(row.is_locked, row.min_trust_to_post, actor) is None,
        (match spec_posting_restriction(row.is_locked, row.min_trust_to_post, actor) {
            Some(x) => d.posting_restriction matches Some(s) && s@ == x.spec_as_str(),
            None => d.posting_restriction is None,
        }),
{
    let restriction = posting_restriction(row, actor);
    BoardDto {
        id: i64_to_string(row.id),
        slug: row.slug.clone(),
        name: row.name.clone(),
        parent_id: opt_id_string(row.parent_id),
        description: clone_opt_string(&row.description),
        position: row.position,
        is_locked: row.is_locked,
        min_trust_to_post: row.min_trust_to_post,
        is_qa: row.is_qa,
        thread_count: row.thread_count,
        can_post: restriction.is_none(),
        posting_restriction: match restriction {
            Some(x) => Some(String::from_str(x.as_str())),
            None => None,
        },
    }
}

/// The default feed order.
pub fn default_sort() -> (s: String)
    ensures
        s@ == "new"@,
{
    String::from_str("new")
}

} // verus!
