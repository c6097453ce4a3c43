//! Query parameters of the listing endpoints, with the defaults a missing
//! parameter takes, and small response shapes.

use vstd::prelude::*;
use crate::feed::{feed_route, spec_feed_route, FeedRoute};
use crate::text::{opt_str_view, opt_string_view};
use crate::error::{is_bad_request, ForumError};
use crate::number::spec_parse_i64;
use crate::relationships::relationship_page;

verus! {

/// A missing page size means 20.
pub open spec fn limit_or_default(limit: Option<i64>) -> i64 {
    match limit {
        Some(l) => l,
        None => 20,
    }
}

fn limit_default(limit: Option<i64>) -> (n: i64)
    ensures
        n == limit_or_default(limit),
{
    match limit {
        Some(l) => l,
        None => 20,
    }
}

fn as_opt_str(o: &Option<String>) -> (r: Option<&str>)
    ensures
        opt_str_view(r) == opt_string_view(*o),
{
    match o {
        Some(s) => Some(s.as_str()),
        None => None,
    }
}

/// Bookmarks page.
pub struct BookmarkListQuery {
    pub cursor: Option<String>,
    pub limit: i64,
}

impl BookmarkListQuery {
    pub fn new(cursor: Option<String>, limit: Option<i64>) -> (q: Self)
        ensures
            q.cursor == cursor,
            q.limit == limit_or_default(limit),
    {
        BookmarkListQuery { cursor, limit: limit_default(limit) }
    }
}

/// Which kind of post a bookmark removal names.
pub struct BookmarkDeleteQuery {
    pub post_type: String,
}

/// Comments page of a thread.
pub struct CommentListQuery {
    pub cursor: Option<String>,
    pub limit: i64,
}

impl CommentListQuery {
    pub fn new(cursor: Option<String>, limit: Option<i64>) -> (q: Self)
        ensures
            q.cursor == cursor,
            q.limit == limit_or_default(limit),
    {
        CommentListQuery { cursor, limit: limit_default(limit) }
    }
}

/// Conversation list: view, search text, cursor and page size.
pub struct DmConversationListQuery {
    pub view: Option<String>,
    pub q: Option<String>,
    pub cursor: Option<String>,
    pub limit: i64,
}

impl DmConversationListQuery {
    pub fn new(view: Option<String>, q: Option<String>, cursor: Option<String>, limit: Option<i64>) -> (r: Self)
        ensures
            r.view == view && r.q == q && r.cursor == cursor,
            r.limit == limit_or_default(limit),
    {
        DmConversationListQuery { view, q, cursor, limit: limit_default(limit) }
    }
}

/// Messages page of a conversation.
pub struct DmMessageListQuery {
    pub cursor: Option<String>,
    pub limit: i64,
}

impl DmMessageListQuery {
    pub fn new(cursor: Option<String>, limit: Option<i64>) -> (q: Self)
        ensures
            q.cursor == cursor,
            q.limit == limit_or_default(limit),
    {
        DmMessageListQuery { cursor, limit: limit_default(limit) }
    }
}

/// Message reports page, by status.
pub struct DmReportListQuery {
    pub status: Option<String>,
    pub cursor: Option<String>,
    pub limit: i64,
}

impl DmReportListQuery {
    pub fn new(status: Option<String>, cursor: Option<String>, limit: Option<i64>) -> (q: Self)
        ensures
            q.status == status && q.cursor == cursor,
            q.limit == limit_or_default(limit),
    {
        DmReportListQuery { status, cursor, limit: limit_default(limit) }
    }
}

/// Ignored accounts page (the page size defaults later, to 30).
pub struct IgnoreListQuery {
    pub cursor: Option<String>,
    pub limit: Option<i64>,
}

/// An ignored account as listed.
pub struct IgnoreUserDto {
    pub account_id: String,
    pub handle: String,
    pub avatar_url: Option<String>,
    pub created_at: i64,
}

/// Which option a poll-vote removal names.
pub struct PollVoteDeleteQuery {
    pub option_id: String,
}

/// A page of a profile's public posts.
pub struct PublicPostPageQuery {
    pub cursor: Option<String>,
    pub limit: Option<i64>,
}

/// Unread threads page.
pub struct ReadTrackingQuery {
    pub cursor: Option<String>,
    pub limit: i64,
}

impl ReadTrackingQuery {
    pub fn new(cursor: Option<String>, limit: Option<i64>) -> (q: Self)
        ensures
            q.cursor == cursor,
            q.limit == limit_or_default(limit),
    {
        ReadTrackingQuery { cursor, limit: limit_default(limit) }
    }
}

/// Subscriptions page, optionally of one target type.
pub struct SubscriptionsQuery {
    pub target_type: Option<String>,
    pub cursor: Option<String>,
    pub limit: i64,
}

impl SubscriptionsQuery {
    pub fn new(target_type: Option<String>, cursor: Option<String>, limit: Option<i64>) -> (q: Self)
        ensures
            q.target_type == target_type && q.cursor == cursor,
            q.limit == limit_or_default(limit),
    {
        SubscriptionsQuery { target_type, cursor, limit: limit_default(limit) }
    }
}

/// A missing sort means `new`.
pub open spec fn sort_or_default(sort: Option<Seq<char>>) -> Seq<char> {
    match sort {
        Some(s) => s,
        None => "new"@,
    }
}

fn sort_default(sort: Option<String>) -> (s: String)
    ensures
        s@ == sort_or_default(opt_string_view(sort)),
{
    match sort {
        Some(s) => s,
        None => String::from_str("new"),
    }
}

/// A board's thread page.
pub struct ThreadListQuery {
    pub sort: String,
    pub cursor: Option<String>,
    pub limit: i64,
}

impl ThreadListQuery {
    pub fn new(sort: Option<String>, cursor: Option<String>, limit: Option<i64>) -> (q: Self)
        ensures
            q.sort@ == sort_or_default(opt_string_view(sort)),
            q.cursor == cursor,
            q.limit == limit_or_default(limit),
    {
        ThreadListQuery { sort: sort_default(sort), cursor, limit: limit_default(limit) }
    }
}

/// The thread feed: board, sort, cursor and page size.
pub struct ThreadFeedQuery {
    pub board: Option<String>,
    pub sort: String,
    pub cursor: Option<String>,
    pub limit: i64,
}

impl ThreadFeedQuery {
    pub fn new(board: Option<String>, sort: Option<String>, cursor: Option<String>, limit: Option<i64>) -> (q: Self)
        ensures
            q.board == board && q.cursor == cursor,
            q.sort@ == sort_or_default(opt_string_view(sort)),
            q.limit == limit_or_default(limit),
    {
        ThreadFeedQuery { board, sort: sort_default(sort), cursor, limit: limit_default(limit) }
    }

    /// The listing this feed request selects.
    pub fn route(&self) -> (r: FeedRoute)
        ensures
            r == spec_feed_route(self.sort@, opt_string_view(self.board), opt_string_view(self.cursor)),
    {
        feed_route(self.sort.as_str(), as_opt_str(&self.board), as_opt_str(&self.cursor))
    }
}

/// A follower or following list page, as the request gave it.
pub struct RelationshipListQuery {
    pub cursor: Option<String>,
    pub limit: Option<i64>,
}

impl RelationshipListQuery {
    /// The cursor as a number and the page size (20 by default, clamped
    /// to 1..=100); a cursor that is no integer is refused.
    pub fn page(&self) -> (r: Result<(Option<i64>, i64), ForumError>)
        ensures
            match self.cursor {
                Some(c) => match spec_parse_i64(c@) {
                    Ok(v) => r matches Ok(p) && p.0 == Some(v),
                    Err(_) => r matches Err(e) && is_bad_request(e, "invalid cursor"@),
                },
                None => r matches Ok(p) && p.0 is None,
            },
            r matches Ok(p) ==> p.1 == (match self.limit {
                Some(l) => if l < 1 { 1 } else if l > 100 { 100 } else { l },
                None => 20,
            }),
    {
        relationship_page(as_opt_str(&self.cursor), self.limit)
    }
}

/// Which kind of post a vote removal names.
pub struct VoteDeleteQuery {
    pub post_type: String,
}

/// A poll option as stored.
pub struct PollOptionRow {
    pub id: i64,
    pub poll_id: i64,
    pub position: i32,
    pub label: String,
    pub vote_count: i32,
}

/// The count of unread notifications.
pub struct UnreadCountDto {
    pub count: i64,
}

/// The notification list: cursor, unread-only flag and page size.
pub struct NotificationListQuery {
    pub cursor: Option<String>,
    pub unread: bool,
    pub limit: i64,
}

impl NotificationListQuery {
    /// A missing `unread` means all notifications; a missing limit, 20.
    pub fn new(cursor: Option<String>, unread: Option<bool>, limit: Option<i64>) -> (q: Self)
        ensures
            q.cursor == cursor,
            q.unread == (unread == Some(true)),
            q.limit == limit_or_default(limit),
    {
        NotificationListQuery { cursor, unread: unread == Some(true), limit: limit_default(limit) }
    }
}

/// What a mark-read request carries.
pub struct MarkReadInput {
    pub ids: Option<Vec<String>>,
    pub all: Option<bool>,
}

/// Public posting statistics of a profile.
#[derive(Clone, Copy, Debug)]
pub struct PublicProfileStats {
    pub thread_count: i32,
    pub comment_count: i32,
    pub votes_received: i32,
}

impl Default for PublicProfileStats {
    fn default() -> (s: PublicProfileStats)
        ensures
            s.thread_count == 0 && s.comment_count == 0 && s.votes_received == 0,
    {
        PublicProfileStats { thread_count: 0, comment_count: 0, votes_received: 0 }
    }
}

/// The viewer's own vote and bookmark on a post.
pub struct PostViewerState {
    pub vote: Option<String>,
    pub is_bookmarked: bool,
}

impl Default for PostViewerState {
    fn default() -> (s: PostViewerState)
        ensures
            s.vote is None && !s.is_bookmarked,
    {
        PostViewerState { vote: None, is_bookmarked: false }
    }
}

} // verus!
