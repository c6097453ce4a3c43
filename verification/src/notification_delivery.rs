//! Delivery of outbox notification events: which preference governs an
//! event, whether it reaches its recipient, whether its source still holds,
//! and how the stored payload and aggregation count are formed.

use vstd::prelude::*;
use crate::error::ForumError;
use crate::payload::{bool_member, get_bool, get_str, int_member, lookup, numeric_payload_id, spec_numeric_payload_id, str_member, JsonObject, JsonScalar};
use crate::text::{opt_str_view, str_eq};

verus! {

/// The in-app preference category of an event type; events without one
/// are always delivered.
pub open spec fn spec_in_app_category(t: Seq<char>) -> Option<Seq<char>> {
    if t == "reply"@ {
        Some("replies"@)
    } else if t == "mention"@ {
        Some("mentions"@)
    } else if t == "quote"@ {
        Some("quotes"@)
    } else if t == "vote"@ {
        Some("votes"@)
    } else if is_profile_event(t) {
        Some("badges"@)
    } else if t == "watching"@ {
        Some("subscriptions"@)
    } else if t == "follow"@ {
        Some("follows"@)
    } else if is_dm_event(t) {
        Some("directMessages"@)
    } else {
        None
    }
}

/// Events about the recipient's own profile (badges, achievements,
/// verification).
pub open spec fn is_profile_event(t: Seq<char>) -> bool {
    t == "badge"@ || t == "achievement_awarded"@ || t == "achievement_revoked"@
        || t == "verification_granted"@ || t == "verification_revoked"@ || t == "verification_expired"@
}

/// Direct-message events.
pub open spec fn is_dm_event(t: Seq<char>) -> bool {
    t == "dm"@ || t == "dm_request"@ || t == "dm_request_accepted"@
}

pub fn profile_event(t: &str) -> (b: bool)
    ensures
        b == is_profile_event(t@),
{
    str_eq(t, "badge") || str_eq(t, "achievement_awarded") || str_eq(t, "achievement_revoked")
        || str_eq(t, "verification_granted") || str_eq(t, "verification_revoked") || str_eq(t, "verification_expired")
}

pub fn dm_event(t: &str) -> (b: bool)
    ensures
        b == is_dm_event(t@),
{
    str_eq(t, "dm") || str_eq(t, "dm_request") || str_eq(t, "dm_request_accepted")
}

pub fn in_app_category(event_type: &str) -> (r: Option<&'static str>)
    ensures
        opt_str_view(r) == spec_in_app_category(event_type@),
{
    if str_eq(event_type, "reply") {
        Some("replies")
    } else if str_eq(event_type, "mention") {
        Some("mentions")
    } else if str_eq(event_type, "quote") {
        Some("quotes")
    } else if str_eq(event_type, "vote") {
        Some("votes")
    } else if profile_event(event_type) {
        Some("badges")
    } else if str_eq(event_type, "watching") {
        Some("subscriptions")
    } else if str_eq(event_type, "follow") {
        Some("follows")
    } else if dm_event(event_type) {
        Some("directMessages")
    } else {
        None
    }
}

/// A stored notification preference document: its top-level members, and
/// the members of its `inApp` object (none when absent or not an object).
pub struct NotificationPrefs {
    pub top: JsonObject,
    pub in_app: JsonObject,
}

/// An event is enabled unless its category is switched off: the `inApp`
/// category setting wins, then a legacy per-type setting, and a missing
/// setting leaves it on.
pub open spec fn preference_enabled_for(prefs: Option<NotificationPrefs>, event_type: Seq<char>, category: Option<Seq<char>>) -> bool {
    match category {
        None => true,
        Some(c) => match prefs {
            None => true,
            Some(p) => match bool_member(p.in_app.fields@, c) {
                Some(b) => b,
                None => match bool_member(p.top.fields@, event_type) {
                    Some(b) => b,
                    None => true,
                },
            },
        },
    }
}

pub fn preference_is_enabled(prefs: Option<&NotificationPrefs>, event_type: &str) -> (enabled: bool)
    ensures
        enabled == preference_enabled_for(match prefs { Some(p) => Some(*p), None => None }, event_type@, spec_in_app_category(event_type@)),
{
    let category = match in_app_category(event_type) {
        Some(c) => c,
        None => return true,
    };
    match prefs {
        None => true,
        Some(p) => match get_bool(&p.in_app, category) {
            Some(b) => b,
            None => match get_bool(&p.top, event_type) {
                Some(b) => b,
                None => true,
            },
        },
    }
}

/// Events that only make sense with an acting account.
pub open spec fn spec_event_requires_actor(t: Seq<char>) -> bool {
    t == "reply"@ || t == "mention"@ || t == "quote"@ || t == "vote"@ || t == "watching"@ || t == "follow"@
        || is_dm_event(t)
}

pub fn event_requires_actor(event_type: &str) -> (b: bool)
    ensures
        b == spec_event_requires_actor(event_type@),
{
    str_eq(event_type, "reply") || str_eq(event_type, "mention") || str_eq(event_type, "quote")
        || str_eq(event_type, "vote") || str_eq(event_type, "watching") || str_eq(event_type, "follow")
        || dm_event(event_type)
}

/// Why a notification event was (or was not) stored.
#[derive(Clone, Copy, Debug, PartialEq, Eq)]
pub enum DeliveryOutcome {
    RecipientUnavailable,
    PreferenceDisabled,
    ActorUnavailable,
    RelationshipHidden,
    MentionDisallowed,
    ConversationMuted,
    ContentUnavailable,
    Delivered,
}

impl DeliveryOutcome {
    pub open spec fn spec_as_str(self) -> Seq<char> {
        match self {
            DeliveryOutcome::RecipientUnavailable => "recipient_unavailable"@,
            DeliveryOutcome::PreferenceDisabled => "preference_disabled"@,
            DeliveryOutcome::ActorUnavailable => "actor_unavailable"@,
            DeliveryOutcome::RelationshipHidden => "relationship_hidden"@,
            DeliveryOutcome::MentionDisallowed => "mention_disallowed"@,
            DeliveryOutcome::ConversationMuted => "conversation_muted"@,
            DeliveryOutcome::ContentUnavailable => "content_unavailable"@,
            DeliveryOutcome::Delivered => "delivered"@,
        }
    }

    /// The receipt's outcome text.
    pub fn as_str(&self) -> (s: &'static str)
        ensures
            s@ == self.spec_as_str(),
    {
        match self {
            DeliveryOutcome::RecipientUnavailable => "recipient_unavailable",
            DeliveryOutcome::PreferenceDisabled => "preference_disabled",
            DeliveryOutcome::ActorUnavailable => "actor_unavailable",
            DeliveryOutcome::RelationshipHidden => "relationship_hidden",
            DeliveryOutcome::MentionDisallowed => "mention_disallowed",
            DeliveryOutcome::ConversationMuted => "conversation_muted",
            DeliveryOutcome::ContentUnavailable => "content_unavailable",
            DeliveryOutcome::Delivered => "delivered",
        }
    }
}

/// The order in which the recipient and a distinct actor are locked:
/// lower account id first.
pub fn account_lock_order(recipient_id: i64, actor_id: i64) -> (r: (i64, i64))
    ensures
        r.0 < r.1 || recipient_id == actor_id,
        (r.0 == recipient_id && r.1 == actor_id) || (r.0 == actor_id && r.1 == recipient_id),
        r.0 <= r.1,
{
    if recipient_id < actor_id {
        (recipient_id, actor_id)
    } else {
        (actor_id, recipient_id)
    }
}

/// Whether the event's actor is available: a distinct actor must still be
/// a notifiable account, an actor who is the recipient is as available as
/// the recipient, and an event without actor is fine unless its type needs one.
pub open spec fn spec_actor_available(event_type: Seq<char>, recipient_id: i64, actor_id: Option<i64>, recipient_found: bool, actor_found: bool) -> bool {
    match actor_id {
        Some(a) => if a != recipient_id { actor_found } else { recipient_found },
        None => !spec_event_requires_actor(event_type),
    }
}

/// What the delivery transaction read about an event's parties.
pub struct DeliveryFacts {
    /// The recipient is a notifiable account.
    pub recipient_found: bool,
    /// A distinct actor is a notifiable account.
    pub actor_found: bool,
    /// The pair hides each other (block or ignore).
    pub relationship_hidden: bool,
    /// The recipient's preferences allow the event.
    pub preference_enabled: bool,
    /// The recipient's mention policy allows this actor.
    pub mention_allowed: bool,
    /// The recipient muted the conversation of a message event.
    pub conversation_muted: bool,
}

pub open spec fn spec_delivery_outcome(event_type: Seq<char>, recipient_id: i64, actor_id: Option<i64>, f: DeliveryFacts) -> DeliveryOutcome {
    let actor_ok = spec_actor_available(event_type, recipient_id, actor_id, f.recipient_found, f.actor_found);
    if !f.recipient_found {
        DeliveryOutcome::RecipientUnavailable
    } else if !f.preference_enabled {
        DeliveryOutcome::PreferenceDisabled
    } else if !actor_ok {
        DeliveryOutcome::ActorUnavailable
    } else if actor_id is Some && f.relationship_hidden {
        DeliveryOutcome::RelationshipHidden
    } else if actor_id is Some && event_type == "mention"@ && !f.mention_allowed {
        DeliveryOutcome::MentionDisallowed
    } else if is_dm_event(event_type) && f.conversation_muted {
        DeliveryOutcome::ConversationMuted
    } else {
        DeliveryOutcome::Delivered
    }
}

/// The delivery decision for an event, checked in order: recipient,
/// preference, actor, relationship, mention policy, muted conversation.
pub fn delivery_outcome(event_type: &str, recipient_id: i64, actor_id: Option<i64>, facts: &DeliveryFacts) -> (o: DeliveryOutcome)
    ensures
        o == spec_delivery_outcome(event_type@, recipient_id, actor_id, *facts),
{
    let actor_ok = match actor_id {
        Some(a) => if a != recipient_id {
            facts.actor_found
        } else {
            facts.recipient_found
        },
        None => !event_requires_actor(event_type),
    };
    if !facts.recipient_found {
        DeliveryOutcome::RecipientUnavailable
    } else if !facts.preference_enabled {
        DeliveryOutcome::PreferenceDisabled
    } else if !actor_ok {
        DeliveryOutcome::ActorUnavailable
    } else if actor_id.is_some() && facts.relationship_hidden {
        DeliveryOutcome::RelationshipHidden
    } else if actor_id.is_some() && str_eq(event_type, "mention") && !facts.mention_allowed {
        DeliveryOutcome::MentionDisallowed
    } else if dm_event(event_type) && facts.conversation_muted {
        DeliveryOutcome::ConversationMuted
    } else {
        DeliveryOutcome::Delivered
    }
}

/// A mention reaches the recipient under policy `everyone`, under
/// `following` only from accounts the recipient follows, and never otherwise.
pub fn mention_allowed(policy: &str, recipient_follows_actor: bool) -> (b: bool)
    ensures
        b == (policy@ == "everyone"@ || (policy@ == "following"@ && recipient_follows_actor)),
{
    if str_eq(policy, "everyone") {
        true
    } else if str_eq(policy, "following") {
        recipient_follows_actor
    } else {
        false
    }
}

/// A delivered event still lapses when its source or its content is gone.
pub fn settle_outcome(outcome: DeliveryOutcome, source_available: bool, content_available: bool) -> (o: DeliveryOutcome)
    ensures
        o == (if outcome == DeliveryOutcome::Delivered && !(source_available && content_available) {
            DeliveryOutcome::ContentUnavailable
        } else {
            outcome
        }),
{
    match outcome {
        DeliveryOutcome::Delivered => if source_available && content_available {
            outcome
        } else {
            DeliveryOutcome::ContentUnavailable
        },
        _ => outcome,
    }
}

/// The consumer only handles the notification topic.
pub fn check_notification_topic(topic: &str) -> (r: Result<(), ForumError>)
    ensures
        r is Ok <==> topic@ == "notification"@,
        r matches Err(e) ==> e is Internal && e->Internal_0@ == "notification consumer received a different outbox topic"@,
{
    if str_eq(topic, "notification") {
        Ok(())
    } else {
        Err(ForumError::Internal(String::from_str("notification consumer received a different outbox topic")))
    }
}

/// What the consumer does with a claimed outbox event before deciding its
/// outcome.
#[derive(Clone, Copy, Debug, PartialEq, Eq, Structural)]
pub enum ReceiptStep {
    /// Another worker holds the claim: leave the event alone.
    Release,
    /// A receipt exists: mark the event done and deliver nothing again.
    AlreadyDelivered,
    /// Decide the outcome, write it down and mark the event done.
    Deliver,
}

/// An event of another topic is refused; an event whose claim is lost is
/// left alone; an event that already has a delivery receipt is only marked
/// done, so it is never delivered twice.
pub fn receipt_step(topic: &str, claim_held: bool, already_delivered: bool) -> (r: Result<ReceiptStep, ForumError>)
    ensures
        topic@ != "notification"@ ==> (r matches Err(e) && e is Internal
            && e->Internal_0@ == "notification consumer received a different outbox topic"@),
        topic@ == "notification"@ ==> r == Ok::<ReceiptStep, ForumError>(
            if !claim_held { ReceiptStep::Release }
            else if already_delivered { ReceiptStep::AlreadyDelivered }
            else { ReceiptStep::Deliver }),
{
    check_notification_topic(topic)?;
    if !claim_held {
        Ok(ReceiptStep::Release)
    } else if already_delivered {
        Ok(ReceiptStep::AlreadyDelivered)
    } else {
        Ok(ReceiptStep::Deliver)
    }
}

/// The thread (and comment) an event is about, which must still be visible.
pub struct ContentRef {
    pub thread_id: Option<i64>,
    pub comment_id: Option<i64>,
}

/// The content an event points at: its `threadId`, and its `commentId`, or
/// for a vote on a comment its `postId`.
pub open spec fn spec_content_ref(event_type: Seq<char>, payload: Seq<(String, JsonScalar)>) -> (Option<i64>, Option<i64>) {
    (spec_numeric_payload_id(payload, "threadId"@), match spec_numeric_payload_id(payload, "commentId"@) {
        Some(c) => Some(c),
        None => if event_type == "vote"@ && str_member(payload, "postType"@) == Some("comment"@) {
            spec_numeric_payload_id(payload, "postId"@)
        } else {
            None
        },
    })
}

pub fn content_ref(event_type: &str, payload: &JsonObject) -> (r: ContentRef)
    ensures
        (r.thread_id, r.comment_id) == spec_content_ref(event_type@, payload.fields@),
{
    let thread_id = numeric_payload_id(payload, "threadId");
    let comment_id = match numeric_payload_id(payload, "commentId") {
        Some(c) => Some(c),
        None => {
            let on_comment = match get_str(payload, "postType") {
                Some(t) => str_eq(t, "comment"),
                None => false,
            };
            if str_eq(event_type, "vote") && on_comment {
                numeric_payload_id(payload, "postId")
            } else {
                None
            }
        },
    };
    ContentRef { thread_id, comment_id }
}

/// Content availability: no thread reference means nothing to check; a
/// referenced thread must be visible, and a referenced comment too.
pub fn content_available(r: &ContentRef, thread_visible: bool, comment_visible: bool) -> (b: bool)
    ensures
        b == (r.thread_id is None || (thread_visible && (r.comment_id is None || comment_visible))),
{
    match r.thread_id {
        None => true,
        Some(_) => thread_visible && (r.comment_id.is_none() || comment_visible),
    }
}

/// Which source record an event must still match.
#[derive(Clone, Copy, Debug, PartialEq, Eq)]
pub enum SourceKind {
    VerificationExpiry,
    Follow,
    Vote,
    Watching,
    DirectMessage,
    Unchecked,
}

pub fn source_kind(event_type: &str) -> (k: SourceKind)
    ensures
        event_type@ == "verification_expired"@ ==> k == SourceKind::VerificationExpiry,
        event_type@ == "follow"@ ==> k == SourceKind::Follow,
        event_type@ == "vote"@ ==> k == SourceKind::Vote,
        event_type@ == "watching"@ ==> k == SourceKind::Watching,
        is_dm_event(event_type@) ==> k == SourceKind::DirectMessage,
        !(event_type@ == "verification_expired"@ || event_type@ == "follow"@ || event_type@ == "vote"@
            || event_type@ == "watching"@ || is_dm_event(event_type@)) ==> k == SourceKind::Unchecked,
{
    proof {
        reveal_strlit("verification_expired");
        assert("verification_expired"@ =~= seq!['v', 'e', 'r', 'i', 'f', 'i', 'c', 'a', 't', 'i', 'o', 'n', '_', 'e', 'x', 'p', 'i', 'r', 'e', 'd']);
        reveal_strlit("follow");
        assert("follow"@ =~= seq!['f', 'o', 'l', 'l', 'o', 'w']);
        reveal_strlit("vote");
        assert("vote"@ =~= seq!['v', 'o', 't', 'e']);
        reveal_strlit("watching");
        assert("watching"@ =~= seq!['w', 'a', 't', 'c', 'h', 'i', 'n', 'g']);
        reveal_strlit("dm");
        assert("dm"@ =~= seq!['d', 'm']);
        reveal_strlit("dm_request");
        assert("dm_request"@ =~= seq!['d', 'm', '_', 'r', 'e', 'q', 'u', 'e', 's', 't']);
        reveal_strlit("dm_request_accepted");
        assert("dm_request_accepted"@.len() == 19);
    }
    if str_eq(event_type, "verification_expired") {
        SourceKind::VerificationExpiry
    } else if str_eq(event_type, "follow") {
        SourceKind::Follow
    } else if str_eq(event_type, "vote") {
        SourceKind::Vote
    } else if str_eq(event_type, "watching") {
        SourceKind::Watching
    } else if dm_event(event_type) {
        SourceKind::DirectMessage
    } else {
        SourceKind::Unchecked
    }
}

/// A follow notice stands while the follow it announced (same follower,
/// same creation time) still exists.
pub fn follow_source_current(actor_id: Option<i64>, announced_micros: Option<i64>, stored_micros: Option<i64>) -> (b: bool)
    ensures
        b == (actor_id is Some && announced_micros is Some && stored_micros is Some && stored_micros == announced_micros),
{
    match (actor_id, announced_micros, stored_micros) {
        (Some(_), Some(a), Some(s)) => a == s,
        _ => false,
    }
}

/// The vote a vote notice announced.
pub struct VoteSourceKey {
    pub voter_id: i64,
    pub on_comment: bool,
    pub post_id: i64,
    pub updated_at_micros: i64,
}

/// The announced vote, when the payload names it consistently: the voter
/// is the actor, the post type is thread or comment, and post id and vote
/// time are given.
pub open spec fn spec_vote_source_key(actor_id: Option<i64>, payload: Seq<(String, JsonScalar)>) -> Option<(i64, bool, i64, i64)> {
    match actor_id {
        None => None,
        Some(voter) => if spec_numeric_payload_id(payload, "voterId"@) != Some(voter) {
            None
        } else {
            match str_member(payload, "postType"@) {
                Some(t) => if t == "thread"@ || t == "comment"@ {
                    match (spec_numeric_payload_id(payload, "postId"@), spec_numeric_payload_id(payload, "voteUpdatedAtMicros"@)) {
                        (Some(p), Some(u)) => Some((voter, t == "comment"@, p, u)),
                        _ => None,
                    }
                } else {
                    None
                },
                None => None,
            }
        },
    }
}

pub fn vote_source_key(actor_id: Option<i64>, payload: &JsonObject) -> (r: Option<VoteSourceKey>)
    ensures
        match r {
            Some(k) => spec_vote_source_key(actor_id, payload.fields@) == Some((k.voter_id, k.on_comment, k.post_id, k.updated_at_micros)),
            None => spec_vote_source_key(actor_id, payload.fields@) is None,
        },
{
    let voter = match actor_id {
        Some(v) => v,
        None => return None,
    };
    if numeric_payload_id(payload, "voterId") != Some(voter) {
        return None;
    }
    let t = match get_str(payload, "postType") {
        Some(t) => t,
        None => return None,
    };
    let on_thread = str_eq(t, "thread");
    let on_comment = str_eq(t, "comment");
    if !(on_thread || on_comment) {
        return None;
    }
    match (numeric_payload_id(payload, "postId"), numeric_payload_id(payload, "voteUpdatedAtMicros")) {
        (Some(p), Some(u)) => Some(VoteSourceKey { voter_id: voter, on_comment, post_id: p, updated_at_micros: u }),
        _ => None,
    }
}

/// A vote notice stands while the announced upvote is unchanged.
pub fn vote_source_current(key: &VoteSourceKey, stored: Option<(i16, i64)>) -> (b: bool)
    ensures
        b == (stored matches Some(s) && s.0 == 1 && s.1 == key.updated_at_micros),
{
    match stored {
        Some((value, updated)) => value == 1 && updated == key.updated_at_micros,
        None => false,
    }
}

/// A watching notice stands while the recipient watches the thread: its
/// own thread setting decides, else the board's.
pub fn watching_source_current(thread_level: Option<&str>, board_level: Option<&str>) -> (b: bool)
    ensures
        b == (match thread_level {
            Some(l) => l@ == "watching"@,
            None => board_level matches Some(l) && l@ == "watching"@,
        }),
{
    match thread_level {
        Some(l) => str_eq(l, "watching"),
        None => match board_level {
            Some(l) => str_eq(l, "watching"),
            None => false,
        },
    }
}

/// The request state of a conversation, as locked for a message event.
pub struct DmSourceState {
    pub request_status: String,
    pub request_sender_id: Option<i64>,
    pub request_recipient_id: Option<i64>,
    pub requested_at_micros: Option<i64>,
}

/// What remains to check of a message event's source.
#[derive(Clone, Copy, Debug, PartialEq, Eq)]
pub enum DmSourceCheck {
    /// The source no longer matches.
    Lapsed,
    /// The source matches.
    Current,
    /// Both participants must still be in the conversation.
    Participants,
    /// The message must exist, and both participants be in the conversation.
    MessageAndParticipants(i64),
}

pub open spec fn spec_dm_source_check(event_type: Seq<char>, payload: Seq<(String, JsonScalar)>, actor_id: i64, recipient_id: i64, s: DmSourceState) -> DmSourceCheck {
    if event_type == "dm_request"@ {
        match spec_numeric_payload_id(payload, "requestedAtMicros"@) {
            None => DmSourceCheck::Lapsed,
            Some(at) => if s.request_status@ == "pending"@ && s.request_sender_id == Some(actor_id)
                && s.request_recipient_id == Some(recipient_id) && s.requested_at_micros == Some(at) {
                DmSourceCheck::Current
            } else {
                DmSourceCheck::Lapsed
            },
        }
    } else if event_type == "dm_request_accepted"@ {
        match spec_numeric_payload_id(payload, "requestedAtMicros"@) {
            None => DmSourceCheck::Lapsed,
            Some(at) => if s.request_status@ == "accepted"@ && s.request_sender_id == Some(recipient_id)
                && s.request_recipient_id == Some(actor_id) && s.requested_at_micros == Some(at) {
                DmSourceCheck::Participants
            } else {
                DmSourceCheck::Lapsed
            },
        }
    } else if event_type == "dm"@ {
        match spec_numeric_payload_id(payload, "messageId"@) {
            None => DmSourceCheck::Lapsed,
            Some(m) => if s.request_status@ == "accepted"@ {
                DmSourceCheck::MessageAndParticipants(m)
            } else {
                DmSourceCheck::Lapsed
            },
        }
    } else {
        DmSourceCheck::Lapsed
    }
}

/// The source check of a message event against its conversation: a request
/// notice needs the same pending request, an acceptance notice the same
/// accepted request, and a message notice an accepted conversation.
pub fn dm_source_check(event_type: &str, payload: &JsonObject, actor_id: i64, recipient_id: i64, state: &DmSourceState) -> (c: DmSourceCheck)
    ensures
        c == spec_dm_source_check(event_type@, payload.fields@, actor_id, recipient_id, *state),
{
    if str_eq(event_type, "dm_request") {
        match numeric_payload_id(payload, "requestedAtMicros") {
            None => DmSourceCheck::Lapsed,
            Some(at) => if str_eq(state.request_status.as_str(), "pending") && state.request_sender_id == Some(actor_id)
                && state.request_recipient_id == Some(recipient_id) && state.requested_at_micros == Some(at) {
                DmSourceCheck::Current
            } else {
                DmSourceCheck::Lapsed
            },
        }
    } else if str_eq(event_type, "dm_request_accepted") {
        match numeric_payload_id(payload, "requestedAtMicros") {
            None => DmSourceCheck::Lapsed,
            Some(at) => if str_eq(state.request_status.as_str(), "accepted") && state.request_sender_id == Some(recipient_id)
                && state.request_recipient_id == Some(actor_id) && state.requested_at_micros == Some(at) {
                DmSourceCheck::Participants
            } else {
                DmSourceCheck::Lapsed
            },
        }
    } else if str_eq(event_type, "dm") {
        match numeric_payload_id(payload, "messageId") {
            None => DmSourceCheck::Lapsed,
            Some(m) => if str_eq(state.request_status.as_str(), "accepted") {
                DmSourceCheck::MessageAndParticipants(m)
            } else {
                DmSourceCheck::Lapsed
            },
        }
    } else {
        DmSourceCheck::Lapsed
    }
}

/// Both (distinct) participants are present and have not left.
pub fn dm_participants_available(account_a: i64, account_b: i64, participants: &Vec<(i64, bool)>) -> (b: bool)
    ensures
        b == (account_a != account_b && participants@.len() == 2
            && forall|i: int| 0 <= i < 2 ==> #[trigger] participants@[i].1),
{
    if account_a == account_b || participants.len() != 2 {
        return false;
    }
    participants[0].1 && participants[1].1
}

/// Profile events link to the recipient's profile, unless the payload
/// already names a target.
pub fn with_profile_target(event_type: &str, payload: JsonObject, recipient_handle: Option<&str>) -> (r: JsonObject)
    ensures
        r.is_object == payload.is_object,
        (is_profile_event(event_type@) && recipient_handle is Some && payload.is_object
            && lookup(payload.fields@, "targetUrl"@) is None)
            ==> (r.fields@.len() == payload.fields@.len() + 1
                && r.fields@.take(payload.fields@.len() as int) == payload.fields@
                && r.fields@.last().0@ == "targetUrl"@
                && (r.fields@.last().1 matches JsonScalar::Str(u) && u@ == "/profile/"@ + recipient_handle->0@)),
        !(is_profile_event(event_type@) && recipient_handle is Some && payload.is_object
            && lookup(payload.fields@, "targetUrl"@) is None) ==> r.fields@ == payload.fields@,
{
    let mut payload = payload;
    if profile_event(event_type) && payload.is_object {
        match recipient_handle {
            Some(handle) => {
                if crate::payload::find_member(&payload.fields, "targetUrl").is_none() {
                    let mut url = String::from_str("/profile/");
                    url.append(handle);
                    let ghost before = payload.fields@;
                    payload.fields.push((String::from_str("targetUrl"), JsonScalar::Str(url)));
                    assert(payload.fields@.take(before.len() as int) =~= before);
                }
            },
            None => {},
        }
    }
    payload
}

/// The count an aggregated notification shows after one more event: the
/// stored count (1 when absent) plus one.
pub fn aggregated_count(stored: Option<i64>) -> (c: i64)
    requires
        stored != Some(i64::MAX),
    ensures
        c == (match stored { Some(n) => n, None => 1 }) + 1,
{
    match stored {
        Some(n) => n + 1,
        None => 2,
    }
}

/// The stored count of an existing aggregated notification.
pub fn stored_count(existing: &JsonObject) -> (c: Option<i64>)
    ensures
        c == int_member(existing.fields@, "count"@),
{
    crate::payload::get_int(existing, "count")
}

/// The refresh hint of a stored notification.
pub struct DeliveryHint {
    pub account_id: i64,
    pub event_type: String,
}

pub fn delivery_hint(notification_id: Option<i64>, recipient_id: i64, event_type: &str) -> (h: Option<DeliveryHint>)
    ensures
        h is Some <==> notification_id is Some,
        h matches Some(x) ==> x.account_id == recipient_id && x.event_type@ == event_type@,
{
    match notification_id {
        Some(_) => Some(DeliveryHint { account_id: recipient_id, event_type: String::from_str(event_type) }),
        None => None,
    }
}

/// A delivered event reached an available recipient whose preferences allow
/// it, came from an available actor (or needed none), and crossed no block.
pub proof fn lemma_delivered_requirements(event_type: Seq<char>, recipient_id: i64, actor_id: Option<i64>, f: DeliveryFacts)
    ensures
        spec_delivery_outcome(event_type, recipient_id, actor_id, f) == DeliveryOutcome::Delivered ==> {
            &&& f.recipient_found
            &&& f.preference_enabled
            &&& spec_actor_available(event_type, recipient_id, actor_id, f.recipient_found, f.actor_found)
            &&& (actor_id is Some ==> !f.relationship_hidden)
            &&& (actor_id is None ==> !spec_event_requires_actor(event_type))
            &&& (is_dm_event(event_type) ==> !f.conversation_muted)
        },
{
}

/// The interaction events that each have a preference of their own.
pub open spec fn is_interaction_event(t: Seq<char>) -> bool {
    t == "reply"@ || t == "mention"@ || t == "quote"@ || t == "vote"@ || t == "watching"@ || t == "follow"@
}

/// Each interaction event has its own in-app preference: no two of them
/// share a category, the category of a mention, quote, vote or follow is
/// the event's name in the plural, and switching that category off in the
/// in-app settings silences the event whatever else is stored.
pub proof fn lemma_interaction_preferences_are_separate(t: Seq<char>, u: Seq<char>, prefs: NotificationPrefs)
    ensures
        is_interaction_event(t) ==> spec_in_app_category(t) is Some,
        is_interaction_event(t) && is_interaction_event(u) && t != u ==> spec_in_app_category(t) != spec_in_app_category(u),
        (t == "mention"@ || t == "quote"@ || t == "vote"@ || t == "follow"@) ==> spec_in_app_category(t) == Some(t + "s"@),
        t == "reply"@ ==> spec_in_app_category(t) == Some("replies"@),
        spec_in_app_category(t) matches Some(c) && bool_member(prefs.in_app.fields@, c) == Some(false)
            ==> !preference_enabled_for(Some(prefs), t, spec_in_app_category(t)),
{
    reveal_strlit("achievement_awarded");
    reveal_strlit("achievement_revoked");
    reveal_strlit("badge");
    reveal_strlit("badges");
    reveal_strlit("directMessages");
    reveal_strlit("dm");
    reveal_strlit("dm_request");
    reveal_strlit("dm_request_accepted");
    reveal_strlit("follow");
    reveal_strlit("follows");
    reveal_strlit("mention");
    reveal_strlit("mentions");
    reveal_strlit("quote");
    reveal_strlit("quotes");
    reveal_strlit("replies");
    reveal_strlit("reply");
    reveal_strlit("s");
    reveal_strlit("subscriptions");
    reveal_strlit("verification_expired");
    reveal_strlit("verification_granted");
    reveal_strlit("verification_revoked");
    reveal_strlit("vote");
    reveal_strlit("votes");
    reveal_strlit("watching");
    assert("badges"@ != "directMessages"@) by { assert("badges"@.len() != "directMessages"@.len()); }
    assert("follow"@ != "achievement_awarded"@) by { assert("follow"@.len() != "achievement_awarded"@.len()); }
    assert("follow"@ != "achievement_revoked"@) by { assert("follow"@.len() != "achievement_revoked"@.len()); }
    assert("follow"@ != "badge"@) by { assert("follow"@.len() != "badge"@.len()); }
    assert("follow"@ != "dm"@) by { assert("follow"@.len() != "dm"@.len()); }
    assert("follow"@ != "dm_request"@) by { assert("follow"@.len() != "dm_request"@.len()); }
    assert("follow"@ != "dm_request_accepted"@) by { assert("follow"@.len() != "dm_request_accepted"@.len()); }
    assert("follow"@ != "verification_expired"@) by { assert("follow"@.len() != "verification_expired"@.len()); }
    assert("follow"@ != "verification_granted"@) by { assert("follow"@.len() != "verification_granted"@.len()); }
    assert("follow"@ != "verification_revoked"@) by { assert("follow"@.len() != "verification_revoked"@.len()); }
    assert("follows"@ != "badges"@) by { assert("follows"@.len() != "badges"@.len()); }
    assert("follows"@ != "directMessages"@) by { assert("follows"@.len() != "directMessages"@.len()); }
    assert("mention"@ != "achievement_awarded"@) by { assert("mention"@.len() != "achievement_awarded"@.len()); }
    assert("mention"@ != "achievement_revoked"@) by { assert("mention"@.len() != "achievement_revoked"@.len()); }
    assert("mention"@ != "badge"@) by { assert("mention"@.len() != "badge"@.len()); }
    assert("mention"@ != "dm"@) by { assert("mention"@.len() != "dm"@.len()); }
    assert("mention"@ != "dm_request"@) by { assert("mention"@.len() != "dm_request"@.len()); }
    assert("mention"@ != "dm_request_accepted"@) by { assert("mention"@.len() != "dm_request_accepted"@.len()); }
    assert("mention"@ != "follow"@) by { assert("mention"@.len() != "follow"@.len()); }
    assert("mention"@ != "quote"@) by { assert("mention"@.len() != "quote"@.len()); }
    assert("mention"@ != "verification_expired"@) by { assert("mention"@.len() != "verification_expired"@.len()); }
    assert("mention"@ != "verification_granted"@) by { assert("mention"@.len() != "verification_granted"@.len()); }
    assert("mention"@ != "verification_revoked"@) by { assert("mention"@.len() != "verification_revoked"@.len()); }
    assert("mention"@ != "vote"@) by { assert("mention"@.len() != "vote"@.len()); }
    assert("mention"@ != "watching"@) by { assert("mention"@.len() != "watching"@.len()); }
    assert("mentions"@ != "badges"@) by { assert("mentions"@.len() != "badges"@.len()); }
    assert("mentions"@ != "directMessages"@) by { assert("mentions"@.len() != "directMessages"@.len()); }
    assert("mentions"@ != "follows"@) by { assert("mentions"@.len() != "follows"@.len()); }
    assert("mentions"@ != "quotes"@) by { assert("mentions"@.len() != "quotes"@.len()); }
    assert("mentions"@ != "subscriptions"@) by { assert("mentions"@.len() != "subscriptions"@.len()); }
    assert("mentions"@ != "votes"@) by { assert("mentions"@.len() != "votes"@.len()); }
    assert("quote"@ != "achievement_awarded"@) by { assert("quote"@.len() != "achievement_awarded"@.len()); }
    assert("quote"@ != "achievement_revoked"@) by { assert("quote"@.len() != "achievement_revoked"@.len()); }
    assert("quote"@ != "badge"@) by { assert("quote"@[0] != "badge"@[0]); }
    assert("quote"@ != "dm"@) by { assert("quote"@.len() != "dm"@.len()); }
    assert("quote"@ != "dm_request"@) by { assert("quote"@.len() != "dm_request"@.len()); }
    assert("quote"@ != "dm_request_accepted"@) by { assert("quote"@.len() != "dm_request_accepted"@.len()); }
    assert("quote"@ != "follow"@) by { assert("quote"@.len() != "follow"@.len()); }
    assert("quote"@ != "verification_expired"@) by { assert("quote"@.len() != "verification_expired"@.len()); }
    assert("quote"@ != "verification_granted"@) by { assert("quote"@.len() != "verification_granted"@.len()); }
    assert("quote"@ != "verification_revoked"@) by { assert("quote"@.len() != "verification_revoked"@.len()); }
    assert("quote"@ != "vote"@) by { assert("quote"@.len() != "vote"@.len()); }
    assert("quote"@ != "watching"@) by { assert("quote"@.len() != "watching"@.len()); }
    assert("quotes"@ != "badges"@) by { assert("quotes"@[0] != "badges"@[0]); }
    assert("quotes"@ != "directMessages"@) by { assert("quotes"@.len() != "directMessages"@.len()); }
    assert("quotes"@ != "follows"@) by { assert("quotes"@.len() != "follows"@.len()); }
    assert("quotes"@ != "subscriptions"@) by { assert("quotes"@.len() != "subscriptions"@.len()); }
    assert("quotes"@ != "votes"@) by { assert("quotes"@.len() != "votes"@.len()); }
    assert("replies"@ != "badges"@) by { assert("replies"@.len() != "badges"@.len()); }
    assert("replies"@ != "directMessages"@) by { assert("replies"@.len() != "directMessages"@.len()); }
    assert("replies"@ != "follows"@) by { assert("replies"@[0] != "follows"@[0]); }
    assert("replies"@ != "mentions"@) by { assert("replies"@.len() != "mentions"@.len()); }
    assert("replies"@ != "quotes"@) by { assert("replies"@.len() != "quotes"@.len()); }
    assert("replies"@ != "subscriptions"@) by { assert("replies"@.len() != "subscriptions"@.len()); }
    assert("replies"@ != "votes"@) by { assert("replies"@.len() != "votes"@.len()); }
    assert("reply"@ != "achievement_awarded"@) by { assert("reply"@.len() != "achievement_awarded"@.len()); }
    assert("reply"@ != "achievement_revoked"@) by { assert("reply"@.len() != "achievement_revoked"@.len()); }
    assert("reply"@ != "badge"@) by { assert("reply"@[0] != "badge"@[0]); }
    assert("reply"@ != "dm"@) by { assert("reply"@.len() != "dm"@.len()); }
    assert("reply"@ != "dm_request"@) by { assert("reply"@.len() != "dm_request"@.len()); }
    assert("reply"@ != "dm_request_accepted"@) by { assert("reply"@.len() != "dm_request_accepted"@.len()); }
    assert("reply"@ != "follow"@) by { assert("reply"@.len() != "follow"@.len()); }
    assert("reply"@ != "mention"@) by { assert("reply"@.len() != "mention"@.len()); }
    assert("reply"@ != "quote"@) by { assert("reply"@[0] != "quote"@[0]); }
    assert("reply"@ != "verification_expired"@) by { assert("reply"@.len() != "verification_expired"@.len()); }
    assert("reply"@ != "verification_granted"@) by { assert("reply"@.len() != "verification_granted"@.len()); }
    assert("reply"@ != "verification_revoked"@) by { assert("reply"@.len() != "verification_revoked"@.len()); }
    assert("reply"@ != "vote"@) by { assert("reply"@.len() != "vote"@.len()); }
    assert("reply"@ != "watching"@) by { assert("reply"@.len() != "watching"@.len()); }
    assert("subscriptions"@ != "badges"@) by { assert("subscriptions"@.len() != "badges"@.len()); }
    assert("subscriptions"@ != "directMessages"@) by { assert("subscriptions"@.len() != "directMessages"@.len()); }
    assert("subscriptions"@ != "follows"@) by { assert("subscriptions"@.len() != "follows"@.len()); }
    assert("vote"@ != "achievement_awarded"@) by { assert("vote"@.len() != "achievement_awarded"@.len()); }
    assert("vote"@ != "achievement_revoked"@) by { assert("vote"@.len() != "achievement_revoked"@.len()); }
    assert("vote"@ != "badge"@) by { assert("vote"@.len() != "badge"@.len()); }
    assert("vote"@ != "dm"@) by { assert("vote"@.len() != "dm"@.len()); }
    assert("vote"@ != "dm_request"@) by { assert("vote"@.len() != "dm_request"@.len()); }
    assert("vote"@ != "dm_request_accepted"@) by { assert("vote"@.len() != "dm_request_accepted"@.len()); }
    assert("vote"@ != "follow"@) by { assert("vote"@.len() != "follow"@.len()); }
    assert("vote"@ != "verification_expired"@) by { assert("vote"@.len() != "verification_expired"@.len()); }
    assert("vote"@ != "verification_granted"@) by { assert("vote"@.len() != "verification_granted"@.len()); }
    assert("vote"@ != "verification_revoked"@) by { assert("vote"@.len() != "verification_revoked"@.len()); }
    assert("vote"@ != "watching"@) by { assert("vote"@.len() != "watching"@.len()); }
    assert("votes"@ != "badges"@) by { assert("votes"@.len() != "badges"@.len()); }
    assert("votes"@ != "directMessages"@) by { assert("votes"@.len() != "directMessages"@.len()); }
    assert("votes"@ != "follows"@) by { assert("votes"@.len() != "follows"@.len()); }
    assert("votes"@ != "subscriptions"@) by { assert("votes"@.len() != "subscriptions"@.len()); }
    assert("watching"@ != "achievement_awarded"@) by { assert("watching"@.len() != "achievement_awarded"@.len()); }
    assert("watching"@ != "achievement_revoked"@) by { assert("watching"@.len() != "achievement_revoked"@.len()); }
    assert("watching"@ != "badge"@) by { assert("watching"@.len() != "badge"@.len()); }
    assert("watching"@ != "dm"@) by { assert("watching"@.len() != "dm"@.len()); }
    assert("watching"@ != "dm_request"@) by { assert("watching"@.len() != "dm_request"@.len()); }
    assert("watching"@ != "dm_request_accepted"@) by { assert("watching"@.len() != "dm_request_accepted"@.len()); }
    assert("watching"@ != "follow"@) by { assert("watching"@.len() != "follow"@.len()); }
    assert("watching"@ != "verification_expired"@) by { assert("watching"@.len() != "verification_expired"@.len()); }
    assert("watching"@ != "verification_granted"@) by { assert("watching"@.len() != "verification_granted"@.len()); }
    assert("watching"@ != "verification_revoked"@) by { assert("watching"@.len() != "verification_revoked"@.len()); }
    assert("mention"@ + "s"@ =~= "mentions"@);
    assert("quote"@ + "s"@ =~= "quotes"@);
    assert("vote"@ + "s"@ =~= "votes"@);
    assert("follow"@ + "s"@ =~= "follows"@);
}
} // verus!
