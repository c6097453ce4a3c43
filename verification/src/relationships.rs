//! Follow, mute and block relationships, and who may see a profile, its
//! content, its activity and its follow lists.

use vstd::prelude::*;
use crate::error::{is_bad_request, ForumError};
use crate::number::{decimal_text, i64_to_string, parse_i64, spec_parse_i64};
use crate::text::str_eq;

verus! {

/// What holds between a viewer and another account.
#[derive(Clone, Copy, Debug)]
pub struct RelationshipState {
    pub following: bool,
    pub followed_by: bool,
    pub muted: bool,
    pub blocked_by_me: bool,
    pub blocked_me: bool,
}

impl RelationshipState {
    /// No relationship at all (how an account stands to itself).
    pub fn none() -> (r: RelationshipState)
        ensures
            !r.following && !r.followed_by && !r.muted && !r.blocked_by_me && !r.blocked_me,
    {
        RelationshipState { following: false, followed_by: false, muted: false, blocked_by_me: false, blocked_me: false }
    }
}

impl Default for RelationshipState {
    fn default() -> (r: RelationshipState)
        ensures
            !r.following && !r.followed_by && !r.muted && !r.blocked_by_me && !r.blocked_me,
    {
        RelationshipState::none()
    }
}

/// Follow counts of an account.
#[derive(Clone, Copy, Debug)]
pub struct SocialCounts {
    pub follower_count: i32,
    pub following_count: i32,
}

impl Default for SocialCounts {
    fn default() -> (c: SocialCounts)
        ensures
            c.follower_count == 0 && c.following_count == 0,
    {
        SocialCounts { follower_count: 0, following_count: 0 }
    }
}

/// The privacy settings of an account.
pub struct ProfileAccount {
    pub id: i64,
    pub profile_visibility: String,
    pub activity_visibility: String,
    pub followers_visibility: String,
    pub following_visibility: String,
    pub dm_policy: String,
    pub mention_policy: String,
    pub discoverable: bool,
}

/// A visibility setting of `public`, `campus` (signed-in viewers) or
/// `only_me`; anything else hides.
pub open spec fn audience_allows(setting: Seq<char>, viewer_id: Option<i64>) -> bool {
    setting == "public"@ || (setting == "campus"@ && viewer_id is Some)
}

pub open spec fn blocked_me(r: Option<RelationshipState>) -> bool {
    r matches Some(s) && s.blocked_me
}

pub open spec fn blocked_either(r: Option<RelationshipState>) -> bool {
    r matches Some(s) && (s.blocked_by_me || s.blocked_me)
}

/// The owner sees their profile; an account that blocked the viewer hides
/// it; otherwise the profile setting decides.
pub open spec fn spec_profile_visible(account_id: i64, profile_visibility: Seq<char>, viewer_id: Option<i64>, r: Option<RelationshipState>) -> bool {
    if viewer_id == Some(account_id) {
        true
    } else if blocked_me(r) {
        false
    } else {
        audience_allows(profile_visibility, viewer_id)
    }
}

fn audience(setting: &str, viewer_id: Option<i64>) -> (b: bool)
    ensures
        b == audience_allows(setting@, viewer_id),
{
    str_eq(setting, "public") || (str_eq(setting, "campus") && viewer_id.is_some())
}

pub fn profile_is_visible(account: &ProfileAccount, viewer_id: Option<i64>, relationship: Option<RelationshipState>) -> (b: bool)
    ensures
        b == spec_profile_visible(account.id, account.profile_visibility@, viewer_id, relationship),
{
    if viewer_id == Some(account.id) {
        return true;
    }
    match relationship {
        Some(s) => if s.blocked_me {
            return false;
        },
        None => {},
    }
    audience(account.profile_visibility.as_str(), viewer_id)
}

/// Content of a visible profile is hidden across a block in either direction.
pub open spec fn spec_content_visible(account_id: i64, profile_visibility: Seq<char>, viewer_id: Option<i64>, r: Option<RelationshipState>) -> bool {
    spec_profile_visible(account_id, profile_visibility, viewer_id, r) && !blocked_either(r)
}

pub fn profile_content_is_visible(account: &ProfileAccount, viewer_id: Option<i64>, relationship: Option<RelationshipState>) -> (b: bool)
    ensures
        b == spec_content_visible(account.id, account.profile_visibility@, viewer_id, relationship),
{
    let blocked = match relationship {
        Some(s) => s.blocked_by_me || s.blocked_me,
        None => false,
    };
    profile_is_visible(account, viewer_id, relationship) && !blocked
}

/// Activity needs visible content, and then the owner or the activity
/// setting's audience.
pub open spec fn spec_activity_visible(account_id: i64, profile_visibility: Seq<char>, activity_visibility: Seq<char>, viewer_id: Option<i64>, r: Option<RelationshipState>) -> bool {
    spec_content_visible(account_id, profile_visibility, viewer_id, r)
        && (viewer_id == Some(account_id) || audience_allows(activity_visibility, viewer_id))
}

pub fn activity_is_visible(account: &ProfileAccount, viewer_id: Option<i64>, relationship: Option<RelationshipState>) -> (b: bool)
    ensures
        b == spec_activity_visible(account.id, account.profile_visibility@, account.activity_visibility@, viewer_id, relationship),
{
    if !profile_content_is_visible(account, viewer_id, relationship) {
        return false;
    }
    if viewer_id == Some(account.id) {
        return true;
    }
    audience(account.activity_visibility.as_str(), viewer_id)
}

/// A follow list is shown to its owner, never across a block, and
/// otherwise by its setting, which may also be `followers` (viewers who
/// follow the owner).
pub open spec fn spec_list_visible(policy: Seq<char>, account_id: i64, viewer_id: Option<i64>, r: Option<RelationshipState>) -> bool {
    if viewer_id == Some(account_id) {
        true
    } else if blocked_either(r) {
        false
    } else {
        audience_allows(policy, viewer_id) || (policy == "followers"@ && (r matches Some(s) && s.following))
    }
}

pub fn list_is_visible(policy: &str, account_id: i64, viewer_id: Option<i64>, relationship: Option<RelationshipState>) -> (b: bool)
    ensures
        b == spec_list_visible(policy@, account_id, viewer_id, relationship),
{
    if viewer_id == Some(account_id) {
        return true;
    }
    match relationship {
        Some(s) => if s.blocked_by_me || s.blocked_me {
            return false;
        },
        None => {},
    }
    if audience(policy, viewer_id) {
        return true;
    }
    if str_eq(policy, "followers") {
        match relationship {
            Some(s) => s.following,
            None => false,
        }
    } else {
        false
    }
}

/// Visibility narrows from profile to content to activity: whatever shows
/// an account's activity shows its content, and whatever shows its content
/// shows its profile.
pub proof fn lemma_visibility_narrows(account_id: i64, profile_visibility: Seq<char>, activity_visibility: Seq<char>, viewer_id: Option<i64>, r: Option<RelationshipState>)
    ensures
        spec_activity_visible(account_id, profile_visibility, activity_visibility, viewer_id, r)
            ==> spec_content_visible(account_id, profile_visibility, viewer_id, r),
        spec_content_visible(account_id, profile_visibility, viewer_id, r)
            ==> spec_profile_visible(account_id, profile_visibility, viewer_id, r),
{
}

/// An owner, viewing without a block recorded against themselves, sees
/// their whole profile, content, activity and follow lists whatever the settings.
pub proof fn lemma_owner_sees_everything(account_id: i64, profile_visibility: Seq<char>, activity_visibility: Seq<char>, list_policy: Seq<char>, r: Option<RelationshipState>)
    requires
        !blocked_either(r),
    ensures
        spec_profile_visible(account_id, profile_visibility, Some(account_id), r),
        spec_content_visible(account_id, profile_visibility, Some(account_id), r),
        spec_activity_visible(account_id, profile_visibility, activity_visibility, Some(account_id), r),
        spec_list_visible(list_policy, account_id, Some(account_id), r),
{
}

/// A block in either direction hides content, activity and follow lists
/// from everyone but the owner.
pub proof fn lemma_block_hides(account_id: i64, profile_visibility: Seq<char>, activity_visibility: Seq<char>, list_policy: Seq<char>, viewer_id: Option<i64>, r: Option<RelationshipState>)
    requires
        blocked_either(r),
        viewer_id != Some(account_id),
    ensures
        !spec_content_visible(account_id, profile_visibility, viewer_id, r),
        !spec_activity_visible(account_id, profile_visibility, activity_visibility, viewer_id, r),
        !spec_list_visible(list_policy, account_id, viewer_id, r),
{
}

/// A reach policy (`everyone`, `following`, `nobody`): `following` lets in
/// accounts the target follows.
pub open spec fn reach_allows(policy: Seq<char>, followed_by: bool) -> bool {
    policy == "everyone"@ || (policy == "following"@ && followed_by)
}

fn reach(policy: &str, followed_by: bool) -> (b: bool)
    ensures
        b == reach_allows(policy@, followed_by),
{
    str_eq(policy, "everyone") || (str_eq(policy, "following") && followed_by)
}

/// How the viewer stands to an account, and what they may do.
pub struct UserRelationshipView {
    pub is_self: bool,
    pub following: bool,
    pub followed_by: bool,
    pub muted: bool,
    pub blocked_by_me: bool,
    pub blocked_me: bool,
    pub can_follow: bool,
    pub can_start_conversation: bool,
    pub can_mention: bool,
}

/// The relationship view: an `only_me` profile is not found by others; an
/// account stands in no relationship to itself; across a block nothing is
/// allowed; conversations and mentions follow the target's policies.
pub fn relationship_view(viewer_id: i64, target: &ProfileAccount, stored: RelationshipState) -> (r: Result<UserRelationshipView, ForumError>)
    ensures
        (viewer_id != target.id && target.profile_visibility@ == "only_me"@) ==> (r matches Err(e) && e is NotFound),
        !(viewer_id != target.id && target.profile_visibility@ == "only_me"@) ==> (r matches Ok(v) && {
            let s = if viewer_id == target.id {
                RelationshipState { following: false, followed_by: false, muted: false, blocked_by_me: false, blocked_me: false }
            } else {
                stored
            };
            let blocked = s.blocked_by_me || s.blocked_me;
            &&& v.is_self == (viewer_id == target.id)
            &&& v.following == s.following && v.followed_by == s.followed_by && v.muted == s.muted
            &&& v.blocked_by_me == s.blocked_by_me && v.blocked_me == s.blocked_me
            &&& v.can_follow == (!v.is_self && !blocked)
            &&& v.can_start_conversation == (!v.is_self && !blocked && reach_allows(target.dm_policy@, s.followed_by))
            &&& v.can_mention == (!v.is_self && !blocked && reach_allows(target.mention_policy@, s.followed_by))
        }),
{
    let is_self = viewer_id == target.id;
    let s = if is_self {
        RelationshipState::none()
    } else {
        stored
    };
    if !is_self && str_eq(target.profile_visibility.as_str(), "only_me") {
        return Err(ForumError::NotFound);
    }
    let blocked = s.blocked_by_me || s.blocked_me;
    Ok(UserRelationshipView {
        is_self,
        following: s.following,
        followed_by: s.followed_by,
        muted: s.muted,
        blocked_by_me: s.blocked_by_me,
        blocked_me: s.blocked_me,
        can_follow: !is_self && !blocked,
        can_start_conversation: !is_self && !blocked && reach(target.dm_policy.as_str(), s.followed_by),
        can_mention: !is_self && !blocked && reach(target.mention_policy.as_str(), s.followed_by),
    })
}

/// Nobody follows, mutes or blocks themselves.
#[derive(Clone, Copy, Debug, PartialEq, Eq)]
pub enum SocialAction {
    Follow,
    Mute,
    Block,
}

pub open spec fn self_action_message(a: SocialAction) -> Seq<char> {
    match a {
        SocialAction::Follow => "cannot follow yourself"@,
        SocialAction::Mute => "cannot mute yourself"@,
        SocialAction::Block => "cannot block yourself"@,
    }
}

pub fn check_not_self(action: SocialAction, account_id: i64, target_id: i64) -> (r: Result<(), ForumError>)
    ensures
        r is Ok <==> account_id != target_id,
        r matches Err(e) ==> is_bad_request(e, self_action_message(action)),
{
    if account_id == target_id {
        Err(ForumError::BadRequest(String::from_str(match action {
            SocialAction::Follow => "cannot follow yourself",
            SocialAction::Mute => "cannot mute yourself",
            SocialAction::Block => "cannot block yourself",
        })))
    } else {
        Ok(())
    }
}

/// Direct interaction is refused across a block in either direction (an
/// account never blocks itself, so it is always allowed with itself).
pub fn check_pair_unblocked(account_a: i64, account_b: i64, blocked: bool) -> (r: Result<(), ForumError>)
    ensures
        r is Ok <==> (account_a == account_b || !blocked),
        r matches Err(e) ==> e is Forbidden,
{
    if account_a == account_b {
        return Ok(());
    }
    if blocked {
        Err(ForumError::Forbidden)
    } else {
        Ok(())
    }
}

/// The lock serializing relationship changes of a pair, the same whichever
/// side acts: `forum-social:{low}:{high}`.
pub fn pair_lock_key(account_a: i64, account_b: i64) -> (s: String)
    ensures
        s@ == "forum-social:"@ + decimal_text((if account_a <= account_b { account_a } else { account_b }) as int)
            + ":"@ + decimal_text((if account_a <= account_b { account_b } else { account_a }) as int),
{
    let low = if account_a <= account_b { account_a } else { account_b };
    let high = if account_a <= account_b { account_b } else { account_a };
    let mut s = String::from_str("forum-social:");
    s.append(i64_to_string(low).as_str());
    s.append(":");
    s.append(i64_to_string(high).as_str());
    s
}

/// Both sides of a pair lock the same key.
pub proof fn lemma_pair_lock_symmetric(a: i64, b: i64)
    ensures
        (if a <= b { a } else { b }) == (if b <= a { b } else { a }),
        (if a <= b { b } else { a }) == (if b <= a { a } else { b }),
{
}

/// A follow-list page: a numeric cursor, and a page size of 20 by default,
/// clamped to 1..=100.
pub fn relationship_page(cursor: Option<&str>, limit: Option<i64>) -> (r: Result<(Option<i64>, i64), ForumError>)
    ensures
        match cursor {
            Some(c) => match spec_parse_i64(c@) {
                Ok(v) => r matches Ok(p) && p.0 == Some(v),
                Err(_) => r matches Err(e) && is_bad_request(e, "invalid cursor"@),
            },
            None => r matches Ok(p) && p.0 is None,
        },
        r matches Ok(p) ==> p.1 == (match limit {
            Some(l) => if l < 1 { 1 } else if l > 100 { 100 } else { l },
            None => 20,
        }),
{
    let c = match cursor {
        Some(c) => match parse_i64(c) {
            Ok(v) => Some(v),
            Err(_) => return Err(ForumError::BadRequest(String::from_str("invalid cursor"))),
        },
        None => None,
    };
    let l = match limit {
        Some(l) => if l < 1 {
            1
        } else if l > 100 {
            100
        } else {
            l
        },
        None => 20,
    };
    Ok((c, l))
}

/// Which accounts a follow list shows: all to its owner; otherwise an
/// account shows to itself and when it is discoverable.
pub fn list_member_shown(list_owner_id: i64, viewer_id: Option<i64>, member_id: i64, discoverable: bool) -> (b: bool)
    ensures
        b == (viewer_id == Some(list_owner_id) || viewer_id == Some(member_id) || discoverable),
{
    viewer_id == Some(list_owner_id) || viewer_id == Some(member_id) || discoverable
}

} // verus!
