use forum::activity::{
    comment_source_key, content_contribution, is_stale, thread_source_key, vote_contribution, vote_source_key,
    ContributionAction,
};
use forum::dm_notices::{dm_message_notice, dm_request_accepted_notice, dm_request_notice};
use forum::payload::JsonScalar;
use forum::dm_views::{conversation_to_dto, report_to_dto, DmConversationListRow, DmMessageReportRow};
use forum::discovery::MentionContext;
use forum::error::ForumError;
use forum::profile_content::{
    profile_item, shown_rows, viewer_state_position, ContentFormat, ProfileAuthor, ProfileContentRow,
};
use forum::polls::{poll_dto, vote_replaces_previous, PollRow};
use forum::queries::{PollOptionRow, PostViewerState, RelationshipListQuery};

fn option(id: i64, position: i32, label: &str, votes: i32) -> PollOptionRow {
    PollOptionRow { id, poll_id: 5, position, label: label.to_string(), vote_count: votes }
}

#[test]
fn poll_results_keep_option_order_and_viewer_votes() {
    let poll = PollRow { id: 5, question: "Tabs?".to_string(), multi_select: false, closes_at_micros: Some(1_500_000) };
    let options = vec![option(11, 0, "yes", 3), option(12, 1, "no", 0)];
    let d = poll_dto(&poll, &options, &vec![12]);
    assert_eq!(d.id, "5");
    assert_eq!(d.question, "Tabs?");
    assert!(!d.multi_select);
    assert_eq!(d.closes_at, Some(1));
    assert_eq!(d.options.len(), 2);
    assert_eq!(d.options[0].id, "11");
    assert_eq!(d.options[0].label, "yes");
    assert_eq!(d.options[0].vote_count, 3);
    assert_eq!(d.options[1].id, "12");
    assert_eq!(d.options[1].position, 1);
    assert_eq!(d.my_votes, vec!["12".to_string()]);
}

#[test]
fn open_ended_poll_has_no_closing_instant() {
    let poll = PollRow { id: 1, question: "q".to_string(), multi_select: true, closes_at_micros: None };
    let d = poll_dto(&poll, &Vec::new(), &Vec::new());
    assert_eq!(d.closes_at, None);
    assert!(d.options.is_empty());
    assert!(d.my_votes.is_empty());
}

#[test]
fn single_choice_votes_replace_earlier_ones() {
    assert!(vote_replaces_previous(false));
    assert!(!vote_replaces_previous(true));
}

#[test]
fn contributions_follow_visibility() {
    assert_eq!(content_contribution(true, Some(7)), ContributionAction::Activate(7));
    assert_eq!(content_contribution(true, None), ContributionAction::Nothing);
    assert_eq!(content_contribution(false, Some(7)), ContributionAction::Deactivate);
    assert_eq!(vote_contribution(true, 3), ContributionAction::Activate(3));
    assert_eq!(vote_contribution(false, 3), ContributionAction::Deactivate);
}

#[test]
fn contribution_source_keys() {
    assert_eq!(thread_source_key(42), "forum_thread:42");
    assert_eq!(comment_source_key(-3), "forum_comment:-3");
    assert_eq!(vote_source_key("comment", 9, 2), "forum_vote:comment:9:2");
}

#[test]
fn threads_go_stale_after_ninety_days() {
    let day: i64 = 86_400_000_000;
    let now: i64 = 200 * day;
    assert!(is_stale(now - 90 * day - 1, now));
    assert!(!is_stale(now - 90 * day, now));
    assert!(!is_stale(now, now));
    assert!(is_stale(i64::MIN, i64::MAX));
}

#[test]
fn conversation_rows_become_wire_shapes() {
    let row = DmConversationListRow {
        id: 31,
        other_account_id: 8,
        other_handle: "kim".to_string(),
        other_avatar_url: None,
        last_message_excerpt: Some("hi".to_string()),
        last_message_at_micros: 2_999_999,
        unread_count: 4,
        is_archived: true,
        is_muted: false,
        is_deleted: false,
        created_at_micros: -1,
    };
    let d = conversation_to_dto(&row);
    assert_eq!(d.id, "31");
    assert_eq!(d.participant_id, "8");
    assert_eq!(d.participant_handle, "kim");
    assert_eq!(d.participant_avatar_url, None);
    assert_eq!(d.last_message_excerpt, Some("hi".to_string()));
    assert_eq!(d.last_message_at, 2);
    assert_eq!(d.unread_count, 4);
    assert!(d.is_archived && !d.is_muted && !d.is_deleted);
    assert_eq!(d.created_at, -1);
}

#[test]
fn message_reports_become_wire_shapes() {
    let row = DmMessageReportRow {
        id: 1,
        message_id: 2,
        conversation_id: 3,
        reported_by: 4,
        reporter_handle: "ann".to_string(),
        sender_id: 5,
        sender_handle: "bob".to_string(),
        message_excerpt: "spam".to_string(),
        reason: "spam".to_string(),
        note: None,
        status: "resolved".to_string(),
        handled_by: Some(6),
        handled_at_micros: Some(7_000_000),
        created_at_micros: 1_000_000,
    };
    let d = report_to_dto(&row);
    assert_eq!(d.id, "1");
    assert_eq!(d.message_id, "2");
    assert_eq!(d.conversation_id, "3");
    assert_eq!(d.reporter_id, "4");
    assert_eq!(d.sender_id, "5");
    assert_eq!(d.handled_by, Some("6".to_string()));
    assert_eq!(d.handled_at, Some(7));
    assert_eq!(d.created_at, 1);
    assert_eq!(d.status, "resolved");
}

#[test]
fn relationship_list_query_pages() {
    let q = RelationshipListQuery { cursor: Some("15".to_string()), limit: Some(500) };
    assert_eq!(q.page(), Ok((Some(15), 100)));
    let q = RelationshipListQuery { cursor: None, limit: None };
    assert_eq!(q.page(), Ok((None, 20)));
    let q = RelationshipListQuery { cursor: None, limit: Some(0) };
    assert_eq!(q.page(), Ok((None, 1)));
    let q = RelationshipListQuery { cursor: Some("x".to_string()), limit: None };
    assert_eq!(q.page(), Err(ForumError::BadRequest("invalid cursor".to_string())));
}

#[test]
fn mention_excerpts_keep_the_first_hundred_characters() {
    let body: String = "é".repeat(150);
    let c = MentionContext::new(3, None, "ann".to_string(), Some(&body));
    assert_eq!(c.body_excerpt.chars().count(), 100);
    assert!(c.body_excerpt.chars().all(|ch| ch == 'é'));
    let short = MentionContext::new(3, Some(4), "ann".to_string(), Some("hi @bob"));
    assert_eq!(short.body_excerpt, "hi @bob");
    assert_eq!(short.comment_id, Some(4));
    let none = MentionContext::new(3, None, "ann".to_string(), None);
    assert_eq!(none.body_excerpt, "");
}

fn text_of(fields: &[(String, JsonScalar)], name: &str) -> Option<String> {
    fields.iter().find(|(k, _)| k == name).and_then(|(_, v)| match v {
        JsonScalar::Str(s) => Some(s.clone()),
        _ => None,
    })
}

#[test]
fn dm_request_notice_names_the_request() {
    let n = dm_request_notice(12, 1_700_000_000_000_001, "ann");
    assert_eq!(n.dedupe_key, "dm-request:12:1700000000000001");
    assert_eq!(n.event_type, "dm_request");
    assert!(n.payload.is_object);
    assert_eq!(text_of(&n.payload.fields, "conversationId"), Some("12".to_string()));
    assert_eq!(text_of(&n.payload.fields, "requestedAtMicros"), Some("1700000000000001".to_string()));
    assert_eq!(text_of(&n.payload.fields, "senderHandle"), Some("ann".to_string()));
    assert_eq!(text_of(&n.payload.fields, "title"), Some("ann 发来消息请求".to_string()));
}

#[test]
fn dm_message_notice_carries_an_excerpt() {
    let body = "x".repeat(120);
    let n = dm_message_notice(12, 99, "bob", &body);
    assert_eq!(n.dedupe_key, "dm-message:99");
    assert_eq!(n.event_type, "dm");
    assert_eq!(n.payload.fields.len(), 5);
    assert_eq!(text_of(&n.payload.fields, "messageId"), Some("99".to_string()));
    assert_eq!(text_of(&n.payload.fields, "title"), Some("bob 发来私信".to_string()));
    assert_eq!(text_of(&n.payload.fields, "bodyExcerpt"), Some("x".repeat(100)));
}

#[test]
fn dm_request_accepted_notice_is_keyed_like_the_request() {
    let n = dm_request_accepted_notice(12, 5);
    assert_eq!(n.dedupe_key, "dm-request-accepted:12:5");
    assert_eq!(n.event_type, "dm_request_accepted");
    assert_eq!(n.payload.fields.len(), 3);
    assert_eq!(text_of(&n.payload.fields, "title"), Some("对方已接受你的消息请求".to_string()));
}

#[test]
fn profile_timeline_drops_rows_of_unlisted_authors() {
    assert_eq!(shown_rows(&vec![5, 6, 5, 7], &vec![7, 5]), vec![0, 2, 3]);
    assert_eq!(shown_rows(&vec![5, 6], &Vec::new()), Vec::<usize>::new());
    assert_eq!(shown_rows(&Vec::new(), &vec![1]), Vec::<usize>::new());
}

fn timeline_row(target_type: &str, id: i64, body: Option<&str>) -> ProfileContentRow {
    ProfileContentRow {
        target_type: target_type.to_string(),
        id,
        thread_id: 40,
        title: "Title".to_string(),
        projected_body: body.map(|b| b.to_string()),
        board_slug: "general".to_string(),
        author_id: 7,
        reply_count: 2,
        vote_count: 5,
        created_at_micros: 3_000_000,
        activity_at_micros: 9_500_000,
    }
}

#[test]
fn profile_items_are_plain_text_with_the_viewer_state() {
    let author = ProfileAuthor { id: 7, handle: "ann".to_string(), display_name: Some("Ann".to_string()) };
    let state = PostViewerState { vote: Some("up".to_string()), is_bookmarked: true };
    let item = profile_item(&timeline_row("comment", 41, Some("hello")), &author, Some(&state), true, vec![1u8, 2]);
    assert_eq!(item.target_type, "comment");
    assert_eq!(item.id, "41");
    assert_eq!(item.thread_id, "40");
    assert_eq!(item.body, Some("hello".to_string()));
    assert_eq!(item.content_format, ContentFormat::PlainV1);
    assert_eq!(item.author_handle, "ann");
    assert_eq!(item.author_display_name, Some("Ann".to_string()));
    assert_eq!(item.viewer_vote, Some("up".to_string()));
    assert!(item.is_bookmarked);
    assert_eq!(item.attachments, vec![1, 2]);
    assert_eq!((item.created_at, item.activity_at), (3, 9));

    let anonymous = profile_item(&timeline_row("thread", 40, Some("")), &author, None, false, vec![1u8]);
    assert_eq!(anonymous.body, None);
    assert_eq!(anonymous.viewer_vote, None);
    assert!(!anonymous.is_bookmarked);
    assert!(anonymous.attachments.is_empty());
}

#[test]
fn viewer_states_exist_only_for_a_viewer() {
    let states = vec![
        (3, PostViewerState { vote: None, is_bookmarked: true }),
        (9, PostViewerState { vote: Some("up".to_string()), is_bookmarked: false }),
        (9, PostViewerState { vote: None, is_bookmarked: false }),
    ];
    assert_eq!(viewer_state_position(true, &states, 9), Some(1));
    assert_eq!(viewer_state_position(true, &states, 4), None);
    assert_eq!(viewer_state_position(false, &states, 9), None);
}
