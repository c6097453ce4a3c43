use forum::notification_delivery::{
    account_lock_order, aggregated_count, check_notification_topic, content_available, content_ref,
    delivery_hint, delivery_outcome, dm_participants_available, dm_source_check, event_requires_actor,
    follow_source_current, in_app_category, mention_allowed, preference_is_enabled, settle_outcome,
    source_kind, vote_source_current, vote_source_key, watching_source_current, with_profile_target,
    DeliveryFacts, DeliveryOutcome, DmSourceCheck, DmSourceState, NotificationPrefs, SourceKind,
    receipt_step, ReceiptStep,
};
use forum::notification_hooks;
use forum::notifications::{
    check_notification_limit, default_limit, mark_read_request, notification_cursor,
    notification_target_url, MarkReadRequest,
};
use forum::payload::{numeric_payload_id, JsonObject, JsonScalar};
use forum::error::ForumError;

fn obj(fields: Vec<(&str, JsonScalar)>) -> JsonObject {
    JsonObject { is_object: true, fields: fields.into_iter().map(|(k, v)| (k.to_string(), v)).collect() }
}

fn s(v: &str) -> JsonScalar {
    JsonScalar::Str(v.to_string())
}

fn facts() -> DeliveryFacts {
    DeliveryFacts {
        recipient_found: true,
        actor_found: true,
        relationship_hidden: false,
        preference_enabled: true,
        mention_allowed: true,
        conversation_muted: false,
    }
}

#[test]
fn maps_every_optional_interaction_to_one_preference() {
    assert_eq!(in_app_category("follow"), Some("follows"));
    assert_eq!(in_app_category("verification_expired"), Some("badges"));
    assert_eq!(in_app_category("dm_request"), Some("directMessages"));
    assert_eq!(in_app_category("security"), None);
    assert!(event_requires_actor("follow"));
    assert!(!event_requires_actor("verification_granted"));
}

#[test]
fn legacy_missing_follow_preference_remains_enabled() {
    let prefs = NotificationPrefs {
        top: obj(vec![("inApp", JsonScalar::Other)]),
        in_app: obj(vec![("replies", JsonScalar::Bool(false))]),
    };
    assert!(!preference_is_enabled(Some(&prefs), "reply"));
    assert!(preference_is_enabled(Some(&prefs), "follow"));
}

#[test]
fn maps_only_optional_interaction_events_to_user_preferences() {
    assert_eq!(notification_hooks::in_app_category("reply"), Some("replies"));
    assert_eq!(notification_hooks::in_app_category("dm"), Some("directMessages"));
    assert_eq!(notification_hooks::in_app_category("dm_request"), Some("directMessages"));
    assert_eq!(notification_hooks::in_app_category("content_moderated"), None);
    assert_eq!(notification_hooks::in_app_category("security"), None);
}

#[test]
fn builds_only_internal_notification_targets() {
    assert_eq!(
        notification_target_url("reply", &obj(vec![("threadId", s("42"))])),
        Some("/forum/threads/42".into())
    );
    assert_eq!(
        notification_target_url("dm", &obj(vec![("conversationId", s("7"))])),
        Some("/messages?conversation=7".into())
    );
    assert_eq!(
        notification_target_url("dm_request", &obj(vec![("conversationId", s("8"))])),
        Some("/messages?view=requests&conversation=8".into())
    );
    assert_eq!(
        notification_target_url("system", &obj(vec![("targetUrl", s("/settings"))])),
        Some("/settings".into())
    );
    assert_eq!(
        notification_target_url("system", &obj(vec![("targetUrl", s("//attacker.example"))])),
        None
    );
    assert_eq!(
        notification_target_url("system", &obj(vec![("targetUrl", s("/\\attacker.example"))])),
        None
    );
}

#[test]
fn vote_on_thread_links_to_the_thread_and_bad_ids_link_nowhere() {
    let payload = obj(vec![("postType", s("thread")), ("postId", s("9"))]);
    assert_eq!(notification_target_url("vote", &payload), Some("/forum/threads/9".into()));
    let comment_vote = obj(vec![("postType", s("comment")), ("postId", s("9"))]);
    assert_eq!(notification_target_url("vote", &comment_vote), None);
    assert_eq!(notification_target_url("reply", &obj(vec![("threadId", s("0"))])), None);
    assert_eq!(notification_target_url("dm", &obj(vec![("threadId", s("3"))])), None);
    assert_eq!(
        notification_target_url("system", &obj(vec![("targetUrl", s("/a\u{7}b"))])),
        None
    );
}

#[test]
fn explicit_preference_and_legacy_type_setting() {
    let prefs = NotificationPrefs {
        top: obj(vec![("mention", JsonScalar::Bool(false)), ("vote", JsonScalar::Bool(false))]),
        in_app: obj(vec![("votes", JsonScalar::Bool(true))]),
    };
    assert!(!preference_is_enabled(Some(&prefs), "mention"));
    assert!(preference_is_enabled(Some(&prefs), "vote"));
    assert!(preference_is_enabled(Some(&prefs), "security"));
    assert!(preference_is_enabled(None, "reply"));
    assert!(!notification_hooks::notification_enabled(Some(&prefs), "mention"));
    assert!(notification_hooks::notification_enabled(Some(&prefs), "follow"));
}

#[test]
fn delivery_outcome_checks_in_order() {
    let mut f = facts();
    assert_eq!(delivery_outcome("reply", 1, Some(2), &f), DeliveryOutcome::Delivered);
    f.recipient_found = false;
    assert_eq!(delivery_outcome("reply", 1, Some(2), &f), DeliveryOutcome::RecipientUnavailable);
    let mut f = facts();
    f.preference_enabled = false;
    f.actor_found = false;
    assert_eq!(delivery_outcome("reply", 1, Some(2), &f), DeliveryOutcome::PreferenceDisabled);
    let mut f = facts();
    f.actor_found = false;
    assert_eq!(delivery_outcome("reply", 1, Some(2), &f), DeliveryOutcome::ActorUnavailable);
    let mut f = facts();
    f.relationship_hidden = true;
    assert_eq!(delivery_outcome("reply", 1, Some(2), &f), DeliveryOutcome::RelationshipHidden);
    let mut f = facts();
    f.mention_allowed = false;
    assert_eq!(delivery_outcome("mention", 1, Some(2), &f), DeliveryOutcome::MentionDisallowed);
    assert_eq!(delivery_outcome("reply", 1, Some(2), &f), DeliveryOutcome::Delivered);
    let mut f = facts();
    f.conversation_muted = true;
    assert_eq!(delivery_outcome("dm", 1, Some(2), &f), DeliveryOutcome::ConversationMuted);
    let f = facts();
    assert_eq!(delivery_outcome("reply", 1, None, &f), DeliveryOutcome::ActorUnavailable);
    assert_eq!(delivery_outcome("badge", 1, None, &f), DeliveryOutcome::Delivered);
    let mut f = facts();
    f.actor_found = false;
    assert_eq!(delivery_outcome("reply", 1, Some(1), &f), DeliveryOutcome::Delivered);
    assert_eq!(DeliveryOutcome::ConversationMuted.as_str(), "conversation_muted");
    assert_eq!(settle_outcome(DeliveryOutcome::Delivered, true, false), DeliveryOutcome::ContentUnavailable);
    assert_eq!(settle_outcome(DeliveryOutcome::ActorUnavailable, false, false), DeliveryOutcome::ActorUnavailable);
}

#[test]
fn mention_policy_and_lock_order() {
    assert!(mention_allowed("everyone", false));
    assert!(mention_allowed("following", true));
    assert!(!mention_allowed("following", false));
    assert!(!mention_allowed("nobody", true));
    assert_eq!(account_lock_order(9, 3), (3, 9));
    assert_eq!(account_lock_order(3, 9), (3, 9));
}

#[test]
fn sources_must_still_match() {
    assert_eq!(source_kind("follow"), SourceKind::Follow);
    assert_eq!(source_kind("dm_request_accepted"), SourceKind::DirectMessage);
    assert_eq!(source_kind("reply"), SourceKind::Unchecked);
    assert!(follow_source_current(Some(4), Some(100), Some(100)));
    assert!(!follow_source_current(Some(4), Some(100), Some(101)));
    assert!(!follow_source_current(None, Some(100), Some(100)));
    let payload = obj(vec![
        ("voterId", s("4")),
        ("postType", s("comment")),
        ("postId", s("12")),
        ("voteUpdatedAtMicros", s("555")),
    ]);
    let key = vote_source_key(Some(4), &payload).expect("consistent vote payload");
    assert!(key.on_comment);
    assert_eq!(key.post_id, 12);
    assert!(vote_source_current(&key, Some((1, 555))));
    assert!(!vote_source_current(&key, Some((-1, 555))));
    assert!(vote_source_key(Some(5), &payload).is_none());
    assert!(watching_source_current(Some("watching"), None));
    assert!(!watching_source_current(Some("tracking"), Some("watching")));
    assert!(watching_source_current(None, Some("watching")));
    let dm_payload = obj(vec![("requestedAtMicros", s("77")), ("messageId", s("5"))]);
    let pending = DmSourceState {
        request_status: "pending".into(),
        request_sender_id: Some(2),
        request_recipient_id: Some(1),
        requested_at_micros: Some(77),
    };
    assert_eq!(dm_source_check("dm_request", &dm_payload, 2, 1, &pending), DmSourceCheck::Current);
    assert_eq!(dm_source_check("dm", &dm_payload, 2, 1, &pending), DmSourceCheck::Lapsed);
    let accepted = DmSourceState { request_status: "accepted".into(), ..pending };
    assert_eq!(dm_source_check("dm", &dm_payload, 2, 1, &accepted), DmSourceCheck::MessageAndParticipants(5));
    assert!(dm_participants_available(1, 2, &vec![(1, true), (2, true)]));
    assert!(!dm_participants_available(1, 2, &vec![(1, true), (2, false)]));
    assert!(!dm_participants_available(1, 1, &vec![(1, true), (1, true)]));
}

#[test]
fn content_reference_and_availability() {
    let vote = obj(vec![("threadId", s("3")), ("postType", s("comment")), ("postId", s("8"))]);
    let r = content_ref("vote", &vote);
    assert_eq!((r.thread_id, r.comment_id), (Some(3), Some(8)));
    assert!(!content_available(&r, true, false));
    assert!(content_available(&r, true, true));
    let none = content_ref("badge", &obj(vec![]));
    assert!(content_available(&none, false, false));
}

#[test]
fn profile_events_get_a_profile_link_once() {
    let payload = with_profile_target("badge", obj(vec![("title", s("x"))]), Some("ann"));
    assert_eq!(payload.fields.len(), 2);
    assert_eq!(payload.fields[1].0, "targetUrl");
    match &payload.fields[1].1 {
        JsonScalar::Str(u) => assert_eq!(u, "/profile/ann"),
        _ => panic!("target is text"),
    }
    let kept = with_profile_target("badge", obj(vec![("targetUrl", s("/x"))]), Some("ann"));
    assert_eq!(kept.fields.len(), 1);
    let reply = with_profile_target("reply", obj(vec![]), Some("ann"));
    assert_eq!(reply.fields.len(), 0);
}

#[test]
fn aggregation_count_and_hint_and_topic() {
    assert_eq!(aggregated_count(None), 2);
    assert_eq!(aggregated_count(Some(5)), 6);
    assert!(delivery_hint(None, 1, "reply").is_none());
    let hint = delivery_hint(Some(3), 1, "reply").expect("stored");
    assert_eq!((hint.account_id, hint.event_type.as_str()), (1, "reply"));
    assert!(check_notification_topic("notification").is_ok());
    assert!(matches!(check_notification_topic("mail"), Err(ForumError::Internal(_))));
}

#[test]
fn numeric_ids_are_positive_decimal_strings() {
    let p = obj(vec![("a", s("12")), ("b", s("-3")), ("c", JsonScalar::Int(4)), ("d", s("x"))]);
    assert_eq!(numeric_payload_id(&p, "a"), Some(12));
    assert_eq!(numeric_payload_id(&p, "b"), None);
    assert_eq!(numeric_payload_id(&p, "c"), None);
    assert_eq!(numeric_payload_id(&p, "d"), None);
    assert_eq!(numeric_payload_id(&p, "e"), None);
}

#[test]
fn inbox_request_checks() {
    assert_eq!(default_limit(), 20);
    assert!(check_notification_limit(1).is_ok());
    assert!(check_notification_limit(100).is_ok());
    assert_eq!(
        check_notification_limit(0),
        Err(ForumError::BadRequest("limit must be between 1 and 100".into()))
    );
    assert_eq!(notification_cursor(Some("15")), Ok(Some(15)));
    assert_eq!(notification_cursor(None), Ok(None));
    assert_eq!(notification_cursor(Some("x")), Err(ForumError::BadRequest("invalid cursor".into())));
    assert!(matches!(mark_read_request(None, None), Ok(MarkReadRequest::All)));
    assert!(matches!(mark_read_request(None, Some(true)), Ok(MarkReadRequest::All)));
    match mark_read_request(Some(vec!["4".into(), "9".into()]), None) {
        Ok(MarkReadRequest::Ids(ids)) => assert_eq!(ids, vec![4, 9]),
        _ => panic!("ids accepted"),
    }
    assert!(matches!(
        mark_read_request(None, Some(false)),
        Err(ForumError::BadRequest(m)) if m == "all must be true"
    ));
    assert!(matches!(
        mark_read_request(Some(vec!["1".into()]), Some(true)),
        Err(ForumError::BadRequest(m)) if m == "all and ids cannot be combined"
    ));
    assert!(matches!(
        mark_read_request(Some(vec![]), None),
        Err(ForumError::BadRequest(m)) if m == "ids must contain between 1 and 100 items"
    ));
    assert!(matches!(
        mark_read_request(Some(vec!["0".into()]), None),
        Err(ForumError::BadRequest(m)) if m == "invalid notification id"
    ));
    assert!(matches!(
        mark_read_request(Some(vec!["a".into()]), None),
        Err(ForumError::BadRequest(m)) if m == "invalid notification id"
    ));
}

#[test]
fn a_delivered_event_is_never_delivered_again() {
    assert_eq!(receipt_step("notification", true, false), Ok(ReceiptStep::Deliver));
    assert_eq!(receipt_step("notification", true, true), Ok(ReceiptStep::AlreadyDelivered));
    assert_eq!(receipt_step("notification", false, false), Ok(ReceiptStep::Release));
    assert_eq!(
        receipt_step("email", true, false),
        Err(ForumError::Internal("notification consumer received a different outbox topic".to_string()))
    );
}
