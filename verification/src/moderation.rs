//! Community reports ("flags"): who may report, how much a report weighs,
//! when reported content hides itself, and how staff resolve a report.
//!
//! Report weights are counted in half points (a weight of 1.5 is 3), which
//! represents every weight the forum uses exactly.

use vstd::prelude::*;
use crate::error::{is_bad_request, is_conflict, ForumError};
use crate::posting::{is_bucket, RateBucket};
use crate::text::{char_count, opt_str_view, opt_string_view, str_eq, trim, trimmed};

verus! {

/// Report weight on the unified 1–6 trust scale, in half points: level 1
/// weighs 0.5, 2 weighs 1.0, 3 weighs 1.5, 4 to 6 weigh 2.0, and any other
/// value stays at the conservative 0.5.
pub open spec fn spec_flag_weight(trust_level: i16) -> u8 {
    if trust_level == 1 {
        1
    } else if trust_level == 2 {
        2
    } else if trust_level == 3 {
        3
    } else if 4 <= trust_level <= 6 {
        4
    } else {
        1
    }
}

/// The weight a filed report carries for the reporter's trust level, in
/// half points.
pub fn flag_weight(trust_level: i16) -> (halves: u8)
    ensures
        halves == spec_flag_weight(trust_level),
{
    match trust_level {
        1 => 1,
        2 => 2,
        3 => 3,
        4..=6 => 4,
        _ => 1,
    }
}

/// The open-report score, in half points, at which content hides itself (3.0).
pub open spec fn auto_hide_threshold() -> int {
    6
}

/// Reported content hides itself once the open reports weigh at least 3.0,
/// unless it is already hidden or deleted.
pub fn should_auto_hide(score_halves: i64, already_hidden: bool, deleted: bool) -> (hide: bool)
    ensures
        hide == (score_halves >= auto_hide_threshold() && !already_hidden && !deleted),
{
    score_halves >= 6 && !already_hidden && !deleted
}

/// Two automatic hides of an author's content within a day silence the author.
pub fn should_auto_silence(recent_auto_hides: i64) -> (silence: bool)
    ensures
        silence == (recent_auto_hides >= 2),
{
    recent_auto_hides >= 2
}

/// Staff do not file community reports.
pub fn require_member_reporter(role: &str) -> (r: Result<(), ForumError>)
    ensures
        r is Ok <==> !(role@ == "mod"@ || role@ == "admin"@),
        r matches Err(e) ==> e is Forbidden,
{
    proof {
        reveal_strlit("mod");
        assert("mod"@ =~= seq!['m', 'o', 'd']);
        reveal_strlit("admin");
        assert("admin"@ =~= seq!['a', 'd', 'm', 'i', 'n']);
    }
    if str_eq(role, "mod") || str_eq(role, "admin") {
        Err(ForumError::Forbidden)
    } else {
        Ok(())
    }
}

/// Daily report budget: five for trust level 0, fifteen otherwise.
pub fn flag_bucket(trust_level: i16) -> (b: RateBucket)
    ensures
        trust_level == 0 ==> is_bucket(b, "flag_tl0"@, 5, 86400),
        trust_level != 0 ==> is_bucket(b, "flag"@, 15, 86400),
{
    proof {
        reveal_strlit("flag");
        assert("flag"@ =~= seq!['f', 'l', 'a', 'g']);
    }
    if trust_level == 0 {
        RateBucket { name: String::from_str("flag_tl0"), capacity: 5, window_seconds: 86400 }
    } else {
        RateBucket { name: String::from_str("flag"), capacity: 15, window_seconds: 86400 }
    }
}

pub open spec fn is_flag_reason(r: Seq<char>) -> bool {
    r == "spam"@ || r == "abuse"@ || r == "off_topic"@ || r == "illegal"@ || r == "other"@
}

pub open spec fn is_post_type(t: Seq<char>) -> bool {
    t == "thread"@ || t == "comment"@
}

/// The note as stored: trimmed, and absent when blank.
pub open spec fn stored_note(note: Option<Seq<char>>) -> Option<Seq<char>> {
    match note {
        Some(n) => if trimmed(n).len() == 0 { None } else { Some(trimmed(n)) },
        None => None,
    }
}

/// A validated report: its reason, its note and the kind of post reported.
pub struct FlagInput {
    pub reason: String,
    pub note: Option<String>,
    pub post_type: String,
}

/// Check a report: a known reason, a note of at most 1000 characters after
/// trimming, and a thread or comment target.
pub fn validate_flag_input(reason: &str, note: Option<&str>, post_type: &str) -> (r: Result<FlagInput, ForumError>)
    ensures
        !is_flag_reason(reason@) ==> (r matches Err(e) && is_bad_request(e, "invalid flag reason"@)),
        is_flag_reason(reason@) && (stored_note(opt_str_view(note)) matches Some(n) && n.len() > 1000)
            ==> (r matches Err(e) && is_bad_request(e, "flag note must not exceed 1000 characters"@)),
        is_flag_reason(reason@) && !(stored_note(opt_str_view(note)) matches Some(n) && n.len() > 1000) && !is_post_type(post_type@)
            ==> (r matches Err(e) && is_bad_request(e, "postType must be thread/comment"@)),
        r is Ok <==> (is_flag_reason(reason@) && !(stored_note(opt_str_view(note)) matches Some(n) && n.len() > 1000) && is_post_type(post_type@)),
        r matches Ok(f) ==> f.reason@ == reason@ && f.post_type@ == post_type@
            && opt_string_view(f.note) == stored_note(opt_str_view(note)),
{
    proof {
        reveal_strlit("invalid flag reason");
        assert("invalid flag reason"@ =~= seq!['i', 'n', 'v', 'a', 'l', 'i', 'd', ' ', 'f', 'l', 'a', 'g', ' ', 'r', 'e', 'a', 's', 'o', 'n']);
    }
    if !(str_eq(reason, "spam") || str_eq(reason, "abuse") || str_eq(reason, "off_topic") || str_eq(reason, "illegal") || str_eq(reason, "other")) {
        return Err(ForumError::BadRequest(String::from_str("invalid flag reason")));
    }
    let stored: Option<String> = match note {
        Some(n) => {
            let t = trim(n);
            if char_count(t.as_str()) == 0 {
                None
            } else {
                Some(t)
            }
        },
        None => None,
    };
    let too_long = match &stored {
        Some(t) => char_count(t.as_str()) > 1000,
        None => false,
    };
    if too_long {
        return Err(ForumError::BadRequest(String::from_str("flag note must not exceed 1000 characters")));
    }
    if !(str_eq(post_type, "thread") || str_eq(post_type, "comment")) {
        return Err(ForumError::BadRequest(String::from_str("postType must be thread/comment")));
    }
    Ok(FlagInput { reason: String::from_str(reason), note: stored, post_type: String::from_str(post_type) })
}

/// What a report can target.
#[derive(Clone, Copy, Debug, PartialEq, Eq)]
pub enum FlagTargetKind {
    Thread,
    Comment,
}

impl FlagTargetKind {
    pub open spec fn spec_subject_type(self) -> Seq<char> {
        match self {
            FlagTargetKind::Thread => "forum_thread"@,
            FlagTargetKind::Comment => "forum_comment"@,
        }
    }

    /// The subject type of the notice the author gets when the content hides.
    pub fn subject_type(&self) -> (s: String)
        ensures
            s@ == self.spec_subject_type(),
    {
        match self {
            FlagTargetKind::Thread => String::from_str("forum_thread"),
            FlagTargetKind::Comment => String::from_str("forum_comment"),
        }
    }
}

/// The target kind named by a report's stored type.
pub fn flag_target_kind(target_type: &str) -> (r: Result<FlagTargetKind, ForumError>)
    ensures
        target_type@ == "thread"@ ==> r == Ok::<FlagTargetKind, ForumError>(FlagTargetKind::Thread),
        target_type@ == "comment"@ ==> r == Ok::<FlagTargetKind, ForumError>(FlagTargetKind::Comment),
        !is_post_type(target_type@) ==> (r matches Err(e) && is_bad_request(e, "postType must be thread/comment"@)),
{
    proof {
        reveal_strlit("thread");
        assert("thread"@ =~= seq!['t', 'h', 'r', 'e', 'a', 'd']);
        reveal_strlit("comment");
        assert("comment"@ =~= seq!['c', 'o', 'm', 'm', 'e', 'n', 't']);
    }
    if str_eq(target_type, "thread") {
        Ok(FlagTargetKind::Thread)
    } else if str_eq(target_type, "comment") {
        Ok(FlagTargetKind::Comment)
    } else {
        Err(ForumError::BadRequest(String::from_str("postType must be thread/comment")))
    }
}

/// Nobody reports their own content.
pub fn check_not_own_content(author_id: Option<i64>, reporter_id: i64) -> (r: Result<(), ForumError>)
    ensures
        r is Ok <==> author_id != Some(reporter_id),
        r matches Err(e) ==> is_bad_request(e, "users cannot flag their own content"@),
{
    if author_id == Some(reporter_id) {
        Err(ForumError::BadRequest(String::from_str("users cannot flag their own content")))
    } else {
        Ok(())
    }
}

/// The reported content and where it lives.
pub struct FlagTarget {
    pub author_id: Option<i64>,
    pub thread_id: i64,
    pub board_id: i64,
    pub deleted: bool,
    pub hidden: bool,
}

/// What filing a report did.
pub struct FlagInsertOutcome {
    pub auto_hidden: bool,
    pub author_id: Option<i64>,
    pub thread_id: i64,
    pub board_id: i64,
}

/// The outcome of a filed report: it hid the content exactly when the hide
/// statement took effect.
pub fn flag_insert_outcome(target: &FlagTarget, hid: bool) -> (o: FlagInsertOutcome)
    ensures
        o.auto_hidden == hid,
        o.author_id == target.author_id,
        o.thread_id == target.thread_id,
        o.board_id == target.board_id,
{
    FlagInsertOutcome { auto_hidden: hid, author_id: target.author_id, thread_id: target.thread_id, board_id: target.board_id }
}

/// Only an auto-hide that struck an author with an account can silence.
pub fn silence_candidate(outcome: &FlagInsertOutcome) -> (r: Option<i64>)
    ensures
        r == (if outcome.auto_hidden { outcome.author_id } else { None::<i64> }),
{
    if outcome.auto_hidden {
        outcome.author_id
    } else {
        None
    }
}

/// How staff close a report case.
#[derive(Clone, Copy, Debug, PartialEq, Eq)]
pub enum FlagAction {
    Uphold,
    Reject,
    Ignore,
}

impl FlagAction {
    pub open spec fn spec_terminal_status(self) -> Seq<char> {
        match self {
            FlagAction::Uphold => "upheld"@,
            FlagAction::Reject => "rejected"@,
            FlagAction::Ignore => "ignored"@,
        }
    }

    /// The status every open report of the case ends in.
    pub fn terminal_status(&self) -> (s: String)
        ensures
            s@ == self.spec_terminal_status(),
    {
        match self {
            FlagAction::Uphold => String::from_str("upheld"),
            FlagAction::Reject => String::from_str("rejected"),
            FlagAction::Ignore => String::from_str("ignored"),
        }
    }
}

/// The resolution action named in the request.
pub fn parse_flag_action(action: &str) -> (r: Result<FlagAction, ForumError>)
    ensures
        action@ == "uphold"@ ==> r == Ok::<FlagAction, ForumError>(FlagAction::Uphold),
        action@ == "reject"@ ==> r == Ok::<FlagAction, ForumError>(FlagAction::Reject),
        action@ == "ignore"@ ==> r == Ok::<FlagAction, ForumError>(FlagAction::Ignore),
        !(action@ == "uphold"@ || action@ == "reject"@ || action@ == "ignore"@)
            ==> (r matches Err(e) && is_bad_request(e, "action must be uphold/reject/ignore"@)),
{
    proof {
        reveal_strlit("uphold");
        assert("uphold"@ =~= seq!['u', 'p', 'h', 'o', 'l', 'd']);
        reveal_strlit("reject");
        assert("reject"@ =~= seq!['r', 'e', 'j', 'e', 'c', 't']);
        reveal_strlit("ignore");
        assert("ignore"@ =~= seq!['i', 'g', 'n', 'o', 'r', 'e']);
    }
    if str_eq(action, "uphold") {
        Ok(FlagAction::Uphold)
    } else if str_eq(action, "reject") {
        Ok(FlagAction::Reject)
    } else if str_eq(action, "ignore") {
        Ok(FlagAction::Ignore)
    } else {
        Err(ForumError::BadRequest(String::from_str("action must be uphold/reject/ignore")))
    }
}

/// Only an open report can be resolved.
pub fn check_flag_open(status: &str) -> (r: Result<(), ForumError>)
    ensures
        r is Ok <==> status@ == "open"@,
        r matches Err(e) ==> is_conflict(e, "flag is already resolved"@),
{
    proof {
        reveal_strlit("open");
        assert("open"@ =~= seq!['o', 'p', 'e', 'n']);
        reveal_strlit("flag is already resolved");
        assert("flag is already resolved"@ =~= seq!['f', 'l', 'a', 'g', ' ', 'i', 's', ' ', 'a', 'l', 'r', 'e', 'a', 'd', 'y', ' ', 'r', 'e', 's', 'o', 'l', 'v', 'e', 'd']);
    }
    if str_eq(status, "open") {
        Ok(())
    } else {
        Err(ForumError::Conflict(String::from_str("flag is already resolved")))
    }
}

/// The content changes a resolution makes.
pub struct ResolutionPlan {
    /// Upholding deletes the reported content.
    pub delete_target: bool,
    /// Rejecting or ignoring lifts an automatic hide.
    pub lift_auto_hide: bool,
    /// Board thread counts are recomputed when the target is a thread.
    pub recount_board: bool,
}

pub fn resolution_plan(action: FlagAction, kind: FlagTargetKind, auto_hidden: bool) -> (p: ResolutionPlan)
    ensures
        p.delete_target == (action == FlagAction::Uphold),
        p.lift_auto_hide == (action != FlagAction::Uphold && auto_hidden),
        p.recount_board == (kind == FlagTargetKind::Thread),
{
    let uphold = match action {
        FlagAction::Uphold => true,
        _ => false,
    };
    let thread = match kind {
        FlagTargetKind::Thread => true,
        FlagTargetKind::Comment => false,
    };
    ResolutionPlan { delete_target: uphold, lift_auto_hide: !uphold && auto_hidden, recount_board: thread }
}

/// The follow-up of an upheld report's deletion.
pub struct DeletionFollowUp {
    /// Attachments are released from deleted content.
    pub detach_assets: bool,
    /// A deleted comment no longer counts as a reply.
    pub decrement_replies: bool,
    /// The author's upheld-report tally grows.
    pub count_against_author: Option<i64>,
}

/// Only a deletion that took effect now has follow-up.
pub fn deletion_follow_up(kind: FlagTargetKind, newly_deleted: bool, author_id: Option<i64>) -> (f: DeletionFollowUp)
    ensures
        f.detach_assets == newly_deleted,
        f.decrement_replies == (newly_deleted && kind == FlagTargetKind::Comment),
        f.count_against_author == (if newly_deleted { author_id } else { None::<i64> }),
{
    let comment = match kind {
        FlagTargetKind::Thread => false,
        FlagTargetKind::Comment => true,
    };
    DeletionFollowUp {
        detach_assets: newly_deleted,
        decrement_replies: newly_deleted && comment,
        count_against_author: if newly_deleted { author_id } else { None },
    }
}

} // verus!
