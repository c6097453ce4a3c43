//! The following feed scans candidate threads in batches until a page is
//! full, the candidates run out, or a thousand candidates were looked at;
//! and the rules for editing a thread.

use vstd::prelude::*;
use crate::error::{is_conflict, ForumError};

verus! {

/// Candidates looked at for one page, at most.
pub open spec fn max_candidates_per_page() -> int {
    1000
}

/// The progress of a following-feed page.
#[derive(Clone, Copy, Debug, PartialEq, Eq)]
pub struct FollowingScan {
    /// Threads the page shows (clamped to 1..=100).
    pub page_size: usize,
    /// Rows collected so far (one more than the page size means more exist).
    pub collected: usize,
    /// Candidates looked at so far.
    pub scanned: usize,
    /// The key (creation instant, id) of the last candidate looked at.
    pub cursor: Option<(i64, i64)>,
    /// No further batch is fetched.
    pub done: bool,
}

impl FollowingScan {
    /// The scan invariant: page size in range, at most a thousand scanned.
    pub open spec fn wf(self) -> bool {
        1 <= self.page_size <= 100 && self.scanned <= max_candidates_per_page() && self.collected <= self.page_size + 1000
    }
}

/// A fresh scan from the request's page size and decoded cursor.
pub fn following_scan_start(limit: i64, cursor: Option<(i64, i64)>) -> (s: FollowingScan)
    ensures
        s.wf(),
        s.page_size == (if limit < 1 { 1 } else if limit > 100 { 100 } else { limit }),
        s.collected == 0 && s.scanned == 0 && !s.done,
        s.cursor == cursor,
{
    let page_size: usize = if limit < 1 {
        1
    } else if limit > 100 {
        100
    } else {
        limit as usize
    };
    FollowingScan { page_size, collected: 0, scanned: 0, cursor, done: false }
}

/// How many candidates the next batch asks for: four per missing row,
/// between 20 and 100, and never past the thousand; `None` once the page
/// is over-full, the budget is spent, or the scan is done.
pub open spec fn spec_next_batch(s: FollowingScan) -> Option<int> {
    if s.done || s.collected > s.page_size || s.scanned >= max_candidates_per_page() {
        None
    } else {
        let remaining = s.page_size + 1 - s.collected;
        let wanted = if remaining * 4 < 20 { 20 } else if remaining * 4 > 100 { 100 } else { remaining * 4 };
        let left = max_candidates_per_page() - s.scanned;
        Some(if wanted < left { wanted } else { left })
    }
}

pub fn following_next_batch(s: &FollowingScan) -> (n: Option<usize>)
    requires
        s.wf(),
    ensures
        match spec_next_batch(*s) {
            Some(k) => n == Some(k as usize) && k >= 1,
            None => n is None,
        },
{
    if s.done || s.collected > s.page_size || s.scanned >= 1000 {
        return None;
    }
    let remaining = s.page_size + 1 - s.collected;
    let wanted: usize = if remaining < 5 {
        20
    } else if remaining > 25 {
        100
    } else {
        remaining * 4
    };
    let left = 1000 - s.scanned;
    Some(if wanted < left { wanted } else { left })
}

/// The scan after a batch of `fetched` candidates (asked for `requested`),
/// of which `joined` had a public author, the last with key `last_key`:
/// an empty batch ends the scan; otherwise the candidates count as
/// scanned, the cursor moves to the last one, and a short batch ends it.
pub open spec fn spec_after_batch(s: FollowingScan, requested: usize, fetched: usize, joined: usize, last_key: Option<(i64, i64)>) -> FollowingScan {
    if fetched == 0 {
        FollowingScan { done: true, ..s }
    } else {
        FollowingScan {
            page_size: s.page_size,
            collected: (s.collected + joined) as usize,
            scanned: (s.scanned + fetched) as usize,
            cursor: last_key,
            done: fetched < requested,
        }
    }
}

pub fn following_after_batch(s: FollowingScan, requested: usize, fetched: usize, joined: usize, last_key: Option<(i64, i64)>) -> (t: FollowingScan)
    requires
        s.wf(),
        spec_next_batch(s) == Some(requested as int),
        fetched <= requested,
        joined <= fetched,
    ensures
        t.wf(),
        t == spec_after_batch(s, requested, fetched, joined, last_key),
        fetched > 0 ==> t.scanned == s.scanned + fetched && t.collected == s.collected + joined,
{
    if fetched == 0 {
        return FollowingScan { done: true, ..s };
    }
    FollowingScan {
        page_size: s.page_size,
        collected: s.collected + joined,
        scanned: s.scanned + fetched,
        cursor: last_key,
        done: fetched < requested,
    }
}

/// The scan always ends: every batch it asks for either ends it or looks
/// at new candidates, and it never looks at more than a thousand.
pub proof fn lemma_following_scan_progress(s: FollowingScan, requested: usize, fetched: usize, joined: usize, last_key: Option<(i64, i64)>)
    requires
        s.wf(),
        spec_next_batch(s) == Some(requested as int),
        fetched <= requested,
        joined <= fetched,
    ensures
        spec_after_batch(s, requested, fetched, joined, last_key).done
            || spec_after_batch(s, requested, fetched, joined, last_key).scanned > s.scanned,
        s.scanned + requested <= max_candidates_per_page(),
        spec_after_batch(s, requested, fetched, joined, last_key).scanned <= max_candidates_per_page(),
{
}

/// How a finished scan becomes a page.
#[derive(Clone, Copy, Debug, PartialEq, Eq)]
pub struct FollowingPage {
    /// Rows the page keeps.
    pub keep: usize,
    /// The key the next-page cursor encodes, if any.
    pub next: Option<(i64, i64)>,
}

/// With more rows than the page holds, the page is cut and continues after
/// its last row; a scan stopped by the thousand-candidate budget continues
/// after the last candidate looked at; otherwise the feed ends.
pub fn following_finish(s: &FollowingScan, last_kept_key: Option<(i64, i64)>) -> (p: FollowingPage)
    ensures
        p.keep == (if s.collected > s.page_size { s.page_size } else { s.collected }),
        s.collected > s.page_size ==> p.next == last_kept_key,
        s.collected <= s.page_size && s.scanned >= max_candidates_per_page() ==> p.next == s.cursor,
        s.collected <= s.page_size && s.scanned < max_candidates_per_page() ==> p.next is None,
{
    if s.collected > s.page_size {
        FollowingPage { keep: s.page_size, next: last_kept_key }
    } else if s.scanned >= 1000 {
        FollowingPage { keep: s.collected, next: s.cursor }
    } else {
        FollowingPage { keep: s.collected, next: None }
    }
}

/// A thread as locked for its author's edit.
pub struct ThreadEditState {
    pub author_id: i64,
    pub deleted: bool,
    pub hidden: bool,
    pub archived: bool,
    pub content_version: i64,
}

/// Only the author edits, a visible, unarchived thread, at the version
/// the editor last saw.
pub fn check_thread_edit(existing: &ThreadEditState, editor_id: i64, expected_version: i64) -> (r: Result<(), ForumError>)
    ensures
        existing.author_id != editor_id ==> (r matches Err(e) && e is Forbidden),
        existing.author_id == editor_id && (existing.deleted || existing.hidden) ==> (r matches Err(e) && e is NotFound),
        existing.author_id == editor_id && !(existing.deleted || existing.hidden) && existing.archived
            ==> (r matches Err(e) && is_conflict(e, "thread is archived"@)),
        existing.author_id == editor_id && !(existing.deleted || existing.hidden) && !existing.archived
            && expected_version != existing.content_version
            ==> (r matches Err(e) && e == ForumError::OptimisticLockConflict { current_version: existing.content_version }),
        r is Ok <==> (existing.author_id == editor_id && !existing.deleted && !existing.hidden && !existing.archived
            && expected_version == existing.content_version),
{
    if existing.author_id != editor_id {
        Err(ForumError::Forbidden)
    } else if existing.deleted || existing.hidden {
        Err(ForumError::NotFound)
    } else if existing.archived {
        Err(ForumError::Conflict(String::from_str("thread is archived")))
    } else if expected_version != existing.content_version {
        Err(ForumError::OptimisticLockConflict { current_version: existing.content_version })
    } else {
        Ok(())
    }
}

/// A thread's content changes when a new title, body or format differs
/// from the stored one (fields left out change nothing).
pub fn thread_content_changed(
    new_title: Option<&str>,
    old_title: &str,
    new_body: Option<&str>,
    old_body: Option<&str>,
    new_format: Option<&str>,
    old_format: &str,
) -> (changed: bool)
    ensures
        changed == ((new_title matches Some(t) && t@ != old_title@)
            || (new_body matches Some(b) && !(old_body matches Some(o) && o@ == b@))
            || (new_format matches Some(f) && f@ != old_format@)),
{
    let title_changed = match new_title {
        Some(t) => !crate::text::str_eq(t, old_title),
        None => false,
    };
    let body_changed = match new_body {
        Some(b) => match old_body {
            Some(o) => !crate::text::str_eq(o, b),
            None => true,
        },
        None => false,
    };
    let format_changed = match new_format {
        Some(f) => !crate::text::str_eq(f, old_format),
        None => false,
    };
    title_changed || body_changed || format_changed
}

} // verus!
