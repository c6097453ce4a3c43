use forum::boards::{board_lock_order, check_boards_locked, posting_restriction, require_posting_access, BoardPostingActor, BoardPostingRestriction, BoardRow};
use forum::conversation_cursor::{decode_conversation_cursor, try_encode_conversation_cursor};
use forum::cursor::{
    base64_decode_i64, base64_encode_i64, decode_bookmark_cursor, decode_following_feed_cursor, encode_bookmark_cursor,
    encode_following_feed_cursor, parse_cursor,
};
use forum::discovery::{load_user_hits, mention_candidates, mention_payload, searchable, tip_kind, tip_target, MentionContext, SearchAccount, TipKind};
use forum::dm::{
    check_request_budget, conversation_pair, decline_cooldown_minutes, replay_send, replay_start, start_mode_for_policy,
    validate_limit, DmStartMode, SentMessageRecord, StartReplayRecord,
};
use forum::drafts::{check_draft_version, check_new_draft, positive_id, validate_draft, DraftPayload};
use forum::dto::{board_to_dto, comment_to_dto, default_sort, thread_to_detail_dto, thread_to_dto, unix_seconds, CommentRowJoined, ThreadRowJoined, ThreadRowJoinedFull};
use forum::error::ForumError;
use forum::feed::{decode_id_cursor, feed_cache_id, feed_order, feed_route, hot_cache_next_cursor, next_id_cursor, page_size, split_page, FeedOrder, FeedRoute};
use forum::payload::JsonScalar;
use forum::queries::{NotificationListQuery, ThreadFeedQuery};
use forum::relationships::{
    activity_is_visible, check_not_self, check_pair_unblocked, list_is_visible, list_member_shown, pair_lock_key,
    profile_content_is_visible, profile_is_visible, relationship_page, relationship_view, ProfileAccount, RelationshipState, SocialAction,
};
use forum::requests::{check_ignore_target, check_mark_solved, check_thread_delete, check_unmark_solved, clamp_limit, parse_optional_id, parse_path_id, require_post_type, validate_subscription, vote_bucket};
use forum::votes::{check_not_own_post, parse_vote, vote_transition, ContributionChange};

fn bad(m: &str) -> ForumError {
    ForumError::BadRequest(m.to_string())
}

#[test]
fn id_cursors_round_trip() {
    for v in [0i64, 7, -3, i64::MAX, i64::MIN] {
        assert_eq!(base64_decode_i64(&base64_encode_i64(v)), Ok(v));
    }
    assert_eq!(base64_encode_i64(20), "MjA");
    assert!(base64_decode_i64("!!").is_err());
    assert_eq!(parse_cursor(Some("12")), Ok(Some(12)));
    assert_eq!(parse_cursor(None), Ok(None));
}

#[test]
fn keyed_cursors_round_trip() {
    let c = encode_bookmark_cursor(1_700_000_000_000_000, "thread", 42);
    assert_eq!(decode_bookmark_cursor(&c), Ok((1_700_000_000_000_000, "thread".to_string(), 42)));
    let f = encode_following_feed_cursor(5, 9);
    assert_eq!(decode_following_feed_cursor(&f), Ok((5, 9)));
    assert!(decode_bookmark_cursor("bm90IGEgY3Vyc29y").is_err());
}

#[test]
fn conversation_cursor_round_trip_on_ordinary_instants() {
    let c = try_encode_conversation_cursor(1_700_000_000_123_456, 77).expect("representable");
    assert_eq!(decode_conversation_cursor(&c), Ok((1_700_000_000_123_456, 77)));
    assert_eq!(decode_conversation_cursor("@@"), Err(bad("invalid conversation cursor")));
    assert!(try_encode_conversation_cursor(i64::MAX, 1).is_none());
}

#[test]
fn conversation_cursor_round_trip_at_the_four_digit_year_edges() {
    for (micros, id) in [(-62_167_219_200_000_000i64, -5i64), (253_402_300_799_999_999, i64::MAX), (0, 0), (-1, 3)] {
        let c = try_encode_conversation_cursor(micros, id).expect("representable");
        assert_eq!(decode_conversation_cursor(&c), Ok((micros, id)));
    }
}

#[test]
fn conversation_cursors_exist_exactly_for_chrono_instants() {
    assert!(try_encode_conversation_cursor(-8_334_601_228_800_000_000, 1).is_some());
    assert!(try_encode_conversation_cursor(-8_334_601_228_800_000_001, 1).is_none());
    assert!(try_encode_conversation_cursor(8_210_266_876_799_999_999, 1).is_some());
    assert!(try_encode_conversation_cursor(8_210_266_876_800_000_000, 1).is_none());
}

#[test]
fn dm_start_rules() {
    assert_eq!(conversation_pair(9, 4), Ok((4, 9)));
    assert_eq!(conversation_pair(4, 4), Err(bad("cannot start a conversation with yourself")));
    assert_eq!(start_mode_for_policy("everyone", false), Ok(DmStartMode::Request));
    assert_eq!(start_mode_for_policy("following", true), Ok(DmStartMode::Direct));
    assert_eq!(start_mode_for_policy("following", false), Err(ForumError::Forbidden));
    assert_eq!(start_mode_for_policy("nobody", true), Err(ForumError::Forbidden));
    assert_eq!(check_request_budget(10), Err(ForumError::RateLimited));
    assert!(check_request_budget(9).is_ok());
    assert_eq!(decline_cooldown_minutes(3, 3), 43200);
    assert_eq!(decline_cooldown_minutes(3, 4), 5);
    assert_eq!(validate_limit(0), Err(bad("limit must be between 1 and 100")));
}

#[test]
fn vote_rules() {
    assert_eq!(parse_vote("thread", "up"), Ok(1));
    assert_eq!(parse_vote("comment", "down"), Ok(-1));
    assert_eq!(parse_vote("thread", "sideways"), Err(bad("vote value must be 'up' or 'down'")));
    assert_eq!(parse_vote("board", "up"), Err(bad("post_type must be 'thread' or 'comment'")));
    assert_eq!(check_not_own_post(Some(2), 2), Err(bad("cannot vote on your own content")));
    let t = vote_transition(None, 1);
    assert_eq!((t.contribution, t.received_delta, t.first_vote), (ContributionChange::Activate, 1, true));
    let t = vote_transition(Some(1), 1);
    assert_eq!((t.contribution, t.received_delta), (ContributionChange::Unchanged, 0));
    let t = vote_transition(Some(1), -1);
    assert_eq!((t.contribution, t.received_delta), (ContributionChange::Deactivate, -1));
}

fn account(visibility: &str) -> ProfileAccount {
    ProfileAccount {
        id: 1,
        profile_visibility: visibility.into(),
        activity_visibility: "only_me".into(),
        followers_visibility: "followers".into(),
        following_visibility: "public".into(),
        dm_policy: "following".into(),
        mention_policy: "everyone".into(),
        discoverable: true,
    }
}

fn rel(following: bool, blocked_by_me: bool, blocked_me: bool) -> RelationshipState {
    RelationshipState { following, followed_by: true, muted: false, blocked_by_me, blocked_me }
}

#[test]
fn visibility_narrows_and_blocks_hide() {
    let a = account("campus");
    assert!(profile_is_visible(&a, Some(2), None));
    assert!(!profile_is_visible(&a, None, None));
    assert!(profile_is_visible(&a, Some(1), None));
    assert!(!profile_is_visible(&a, Some(2), Some(rel(false, false, true))));
    assert!(profile_is_visible(&a, Some(2), Some(rel(false, true, false))));
    assert!(!profile_content_is_visible(&a, Some(2), Some(rel(false, true, false))));
    assert!(!activity_is_visible(&a, Some(2), None));
    assert!(activity_is_visible(&a, Some(1), None));
    assert!(list_is_visible("followers", 1, Some(2), Some(rel(true, false, false))));
    assert!(!list_is_visible("followers", 1, Some(2), Some(rel(false, false, false))));
    assert!(!list_is_visible("public", 1, Some(2), Some(rel(true, true, false))));
    assert!(list_is_visible("only_me", 1, Some(1), None));
    assert!(list_member_shown(1, Some(1), 5, false));
    assert!(!list_member_shown(1, Some(2), 5, false));
}

#[test]
fn relationship_view_and_social_checks() {
    let a = account("public");
    let v = relationship_view(2, &a, rel(true, false, false)).expect("visible");
    assert!(!v.is_self && v.can_follow && v.can_start_conversation && v.can_mention);
    let v = relationship_view(1, &a, rel(true, true, true)).expect("self");
    assert!(v.is_self && !v.following && !v.can_follow);
    let hidden = account("only_me");
    assert!(matches!(relationship_view(2, &hidden, rel(false, false, false)), Err(ForumError::NotFound)));
    assert_eq!(check_not_self(SocialAction::Mute, 3, 3), Err(bad("cannot mute yourself")));
    assert!(check_not_self(SocialAction::Follow, 3, 4).is_ok());
    assert_eq!(check_pair_unblocked(1, 2, true), Err(ForumError::Forbidden));
    assert!(check_pair_unblocked(2, 2, true).is_ok());
    assert_eq!(pair_lock_key(9, 3), "forum-social:3:9");
    assert_eq!(pair_lock_key(3, 9), pair_lock_key(9, 3));
    assert_eq!(relationship_page(Some("x"), None), Err(bad("invalid cursor")));
    assert_eq!(relationship_page(None, Some(500)), Ok((None, 100)));
    assert_eq!(relationship_page(Some("4"), None), Ok((Some(4), 20)));
}

fn board(locked: bool, min_trust: i16) -> BoardRow {
    BoardRow {
        id: 3,
        slug: "general".into(),
        name: "General".into(),
        parent_id: None,
        description: None,
        position: 1,
        is_locked: locked,
        is_qa: false,
        min_trust_to_post: min_trust,
        thread_count: 10,
    }
}

#[test]
fn board_gates() {
    let actor = BoardPostingActor { trust_level: 1, can_bypass_board_gates: false };
    let staff = BoardPostingActor { trust_level: 0, can_bypass_board_gates: true };
    assert_eq!(posting_restriction(&board(false, 0), None), Some(BoardPostingRestriction::LoginRequired));
    assert_eq!(posting_restriction(&board(true, 0), Some(actor)), Some(BoardPostingRestriction::BoardLocked));
    assert_eq!(posting_restriction(&board(false, 2), Some(actor)), Some(BoardPostingRestriction::TrustLevel));
    assert_eq!(posting_restriction(&board(true, 5), Some(staff)), None);
    assert_eq!(require_posting_access(&board(true, 0), actor), Err(ForumError::Forbidden));
    assert!(require_posting_access(&board(false, 1), actor).is_ok());
    assert_eq!(BoardPostingRestriction::TrustLevel.as_str(), "trust_level");
    let dto = board_to_dto(&board(false, 2), Some(actor));
    assert!(!dto.can_post);
    assert_eq!(dto.posting_restriction.as_deref(), Some("trust_level"));
    assert_eq!(dto.id, "3");
    assert_eq!(board_lock_order(&vec![5, 2, 5, 1]), vec![1, 2, 5]);
    assert_eq!(check_boards_locked(2, 3), Err(ForumError::NotFound));
}

#[test]
fn row_views() {
    assert_eq!(unix_seconds(1_500_000), 1);
    assert_eq!(unix_seconds(-1), -1);
    let row = ThreadRowJoined {
        id: 12,
        board_id: 3,
        author_id: 7,
        title: "Hello".into(),
        body: None,
        content_version: 2,
        reply_count: 4,
        vote_count: 5,
        hot_score_bits: Some(1.5f64.to_bits()),
        status: "visible".into(),
        created_at_micros: 10_000_000,
        last_activity_at_micros: 20_500_000,
        author_handle: "ann".into(),
        author_display_name: Some("Ann".into()),
    };
    let dto = thread_to_dto(&row);
    assert_eq!((dto.id.as_str(), dto.board_id.as_str(), dto.created_at, dto.last_activity_at), ("12", "3", 10, 20));
    assert_eq!(dto.hot_score_bits.map(f64::from_bits), Some(1.5));
    assert!(dto.tags.is_empty() && dto.unread_count.is_none());
    let full = ThreadRowJoinedFull {
        id: 12,
        board_id: 3,
        author_id: 7,
        title: "Hello".into(),
        body: Some("text".into()),
        content_format: "markdown_v1".into(),
        content_version: 2,
        reply_count: 4,
        vote_count: 5,
        hot_score_bits: None,
        status: "visible".into(),
        pinned_at_micros: Some(3_000_000),
        pinned_globally: false,
        featured_at_micros: None,
        closed_at_micros: None,
        archived_at_micros: None,
        deleted_at_micros: None,
        deleted_by: None,
        edited_at_micros: None,
        hidden_at_micros: None,
        created_at_micros: 0,
        last_activity_at_micros: 0,
        solved_answer_id: Some(99),
        author_handle: "ann".into(),
        author_display_name: None,
    };
    let d = thread_to_detail_dto(&full);
    assert_eq!((d.author_id.as_str(), d.pinned_at, d.solved_answer_id.as_deref()), ("7", Some(3), Some("99")));
    assert!(d.poll.is_none() && !d.can_edit);
    let comment = CommentRowJoined {
        id: 8,
        thread_id: 12,
        parent_id: Some(6),
        path: None,
        author_id: 7,
        body: "hi".into(),
        content_format: "plain_v1".into(),
        content_version: 1,
        vote_count: 0,
        deleted_at_micros: None,
        hidden_at_micros: Some(1),
        edited_at_micros: None,
        created_at_micros: 2_000_000,
        author_handle: "ann".into(),
        author_display_name: None,
        quoted_comment_id: None,
    };
    let c = comment_to_dto(&comment, Some(8));
    assert!(c.is_solved && c.is_hidden && !c.is_deleted);
    assert_eq!((c.path.as_str(), c.parent_id.as_deref(), c.created_at), ("", Some("6"), 2));
    assert!(!comment_to_dto(&comment, None).is_solved);
    assert_eq!(default_sort(), "new");
}

#[test]
fn draft_rules() {
    assert!(positive_id("12"));
    assert!(!positive_id("0"));
    assert!(!positive_id("x"));
    let thread = |board: Option<&str>, tags: Vec<&str>| DraftPayload::Thread {
        board_id: board.map(String::from),
        title: "t".into(),
        body: "b".into(),
        tags: tags.into_iter().map(String::from).collect(),
        poll_question: String::new(),
        poll_options: vec![],
    };
    assert!(validate_draft("thread:new", &thread(Some("4"), vec!["a"])).is_ok());
    assert!(validate_draft("thread:4", &thread(Some("4"), vec![])).is_ok());
    assert_eq!(validate_draft("thread:5", &thread(Some("4"), vec![])), Err(bad("draftKey does not match boardId")));
    assert_eq!(validate_draft("thread:x", &thread(None, vec![])), Err(bad("invalid thread draftKey target")));
    assert_eq!(validate_draft("", &thread(None, vec![])), Err(bad("invalid draftKey")));
    assert_eq!(validate_draft("comment:4", &thread(None, vec![])), Err(bad("thread draftKey must start with thread:")));
    assert_eq!(validate_draft("thread:new", &thread(Some("0"), vec![])), Err(bad("invalid draft boardId")));
    assert_eq!(
        validate_draft("thread:new", &thread(None, vec!["a", "b", "c", "d"])),
        Err(bad("thread draft metadata exceeds limits"))
    );
    assert_eq!(validate_draft("thread:new", &thread(None, vec![""])), Err(bad("thread draft metadata exceeds limits")));
    let comment = |thread_id: &str, parent: Option<&str>| DraftPayload::Comment {
        thread_id: thread_id.into(),
        body: "b".into(),
        parent_id: parent.map(String::from),
    };
    assert!(validate_draft("comment:7", &comment("7", Some("3"))).is_ok());
    assert_eq!(validate_draft("comment:7", &comment("8", None)), Err(bad("draftKey does not match threadId")));
    assert_eq!(validate_draft("comment:7", &comment("7", Some("-1"))), Err(bad("invalid draft parentId")));
    assert_eq!(validate_draft("thread:7", &comment("7", None)), Err(bad("comment draftKey must start with comment:")));
    assert_eq!(check_draft_version(-1), Err(bad("expectedVersion cannot be negative")));
    assert_eq!(check_new_draft(true, 0), Err(ForumError::Conflict("draft already exists".into())));
    assert_eq!(check_new_draft(false, 50), Err(bad("draft limit of 50 reached")));
    assert!(check_new_draft(false, 49).is_ok());
}

#[test]
fn feed_selection_and_pages() {
    assert_eq!(feed_route("unread", None, Some("9")), FeedRoute::Unread(Some(9)));
    assert_eq!(feed_route("following", None, Some("x")), FeedRoute::Following(None));
    assert_eq!(feed_route("hot", None, None), FeedRoute::General { board_id: None, try_hot_cache: true });
    assert_eq!(feed_route("hot", Some("3"), None), FeedRoute::General { board_id: Some(3), try_hot_cache: false });
    assert_eq!(feed_route("new", Some("b"), None), FeedRoute::General { board_id: None, try_hot_cache: false });
    assert_eq!(hot_cache_next_cursor(20, 20), Some(base64_encode_i64(20)));
    assert_eq!(hot_cache_next_cursor(3, 20), None);
    assert_eq!(feed_cache_id(4, "hot", Some(3), None), "v4:hot:Some(3):");
    assert_eq!(feed_cache_id(4, "new", None, Some("abc")), "v4:new:None:abc");
    assert_eq!(feed_order("hot"), FeedOrder::Hot);
    assert_eq!(feed_order("anything"), FeedOrder::New);
    assert_eq!(decode_id_cursor(Some(&base64_encode_i64(5))), Ok(Some(5)));
    assert_eq!(decode_id_cursor(Some("@")), Err(bad("invalid cursor")));
    assert_eq!((page_size(0), page_size(50), page_size(1000)), (1, 50, 100));
    assert_eq!(split_page(vec![1, 2, 3], 2), (vec![1, 2], true));
    assert_eq!(split_page(vec![1, 2], 2), (vec![1, 2], false));
    assert_eq!(next_id_cursor(true, Some(8)), Some(base64_encode_i64(8)));
    assert_eq!(next_id_cursor(false, Some(8)), None);
    let q = ThreadFeedQuery::new(None, None, None, None);
    assert_eq!((q.sort.as_str(), q.limit), ("new", 20));
    assert_eq!(q.route(), FeedRoute::General { board_id: None, try_hot_cache: false });
    let n = NotificationListQuery::new(None, None, Some(5));
    assert!(!n.unread && n.limit == 5);
}

#[test]
fn request_checks() {
    assert_eq!(parse_path_id("x"), Err(ForumError::NotFound));
    assert_eq!(parse_path_id("5"), Ok(5));
    assert_eq!(parse_optional_id(Some("z"), "invalid parentId"), Err(bad("invalid parentId")));
    assert_eq!(parse_optional_id(None, "invalid parentId"), Ok(None));
    assert_eq!(require_post_type("board"), Err(bad("postType must be thread/comment")));
    let b = vote_bucket(0);
    assert_eq!((b.name.as_str(), b.capacity, b.window_seconds), ("vote_tl0", 30, 60));
    assert!(matches!(validate_subscription("tag", "watching", "1"), Err(e) if e == bad("targetType must be 'board' or 'thread'")));
    assert!(matches!(validate_subscription("board", "loud", "1"), Err(e) if e == bad("level must be 'watching', 'tracking', or 'muted'")));
    assert!(matches!(validate_subscription("board", "muted", "q"), Err(e) if e == bad("invalid targetId")));
    let ok = validate_subscription("thread", "watching", "42").expect("valid");
    assert_eq!((ok.target_type.as_str(), ok.target_id, ok.level.as_str()), ("thread", 42, "watching"));
    assert_eq!(check_ignore_target(3, "3"), Err(bad("cannot ignore yourself")));
    assert_eq!(check_ignore_target(3, "x"), Err(bad("invalid accountId")));
    assert_eq!(check_ignore_target(3, "4"), Ok(4));
    assert_eq!(clamp_limit(None, 30), 30);
    assert_eq!(clamp_limit(Some(0), 30), 1);
    assert_eq!(check_mark_solved(false, 1, 2, 1, "user"), Err(bad("board is not a Q&A board")));
    assert_eq!(check_mark_solved(true, 1, 2, 3, "user"), Err(ForumError::Forbidden));
    assert_eq!(check_mark_solved(true, 1, 1, 1, "user"), Err(bad("cannot mark own comment as the solved answer")));
    assert_eq!(check_mark_solved(true, 1, 2, 3, "mod"), Ok(true));
    assert_eq!(check_mark_solved(true, 1, 2, 1, "user"), Ok(false));
    assert_eq!(check_unmark_solved(1, 2, "admin"), Ok(true));
    assert_eq!(check_unmark_solved(1, 2, "user"), Err(ForumError::Forbidden));
    assert_eq!(check_thread_delete(None, 2), Err(ForumError::Forbidden));
    assert!(check_thread_delete(Some(2), 2).is_ok());
}

fn search_account(id: i64, visibility: &str) -> SearchAccount {
    SearchAccount {
        id,
        handle: format!("u{id}"),
        display_name: None,
        avatar_url: None,
        role: "user".into(),
        is_campus_verified: true,
        discoverable: true,
        profile_visibility: visibility.into(),
    }
}

#[test]
fn user_search_respects_privacy_rank_and_limit() {
    assert!(searchable(&search_account(1, "only_me"), Some(1)));
    assert!(!searchable(&search_account(1, "only_me"), Some(2)));
    assert!(!searchable(&search_account(1, "campus"), None));
    let accounts = vec![search_account(1, "public"), search_account(2, "public"), search_account(3, "campus"), search_account(4, "public")];
    let hits = load_user_hits(&vec![4, 3, 2, 1], Some(9), 3, &accounts, &vec![2], &vec![(4, 10)], &vec![1]);
    assert_eq!(hits.iter().map(|h| h.id.as_str()).collect::<Vec<_>>(), vec!["4", "3", "1"]);
    assert_eq!((hits[0].follower_count, hits[0].following), (10, false));
    assert_eq!((hits[2].follower_count, hits[2].following), (0, true));
    // Without a viewer the relationship lists are not consulted.
    let anonymous = load_user_hits(&vec![4, 3, 2, 1], None, 2, &accounts, &vec![2], &vec![(4, 10)], &vec![1, 4]);
    assert_eq!(anonymous.iter().map(|h| h.id.as_str()).collect::<Vec<_>>(), vec!["4", "2"]);
    assert!(anonymous.iter().all(|h| !h.following));
    assert!(load_user_hits(&vec![1], None, 0, &accounts, &vec![], &vec![], &vec![]).is_empty());
}

#[test]
fn tips_and_mentions() {
    assert_eq!(tip_kind("comment"), Some(TipKind::Comment));
    assert_eq!(tip_kind("board"), None);
    let t = tip_target(TipKind::Thread, 5, Some(9)).expect("author known");
    assert_eq!((t.canonical_type(), t.canonical_id, t.author_id), ("thread", 5, 9));
    assert!(tip_target(TipKind::Thread, 5, None).is_none());
    assert_eq!(mention_candidates(2, &vec![1, 2, 3, 2]), vec![1, 3]);
    let ctx = MentionContext { thread_id: 4, comment_id: Some(6), author_handle: "ann".into(), body_excerpt: "hey".into() };
    let p = mention_payload(&ctx, "bob");
    assert_eq!(p.fields.len(), 5);
    assert_eq!(p.fields[4].0, "commentId");
    assert!(matches!(&p.fields[4].1, JsonScalar::Str(s) if s == "6"));
}

#[test]
fn replayed_starts_and_sends_return_what_was_stored() {
    let rec = StartReplayRecord { request_hash: "h1".to_string(), conversation_id: 31, request_status: "pending".to_string() };
    let again = replay_start(Some(&rec), "h1").expect("same request").expect("replayed");
    assert_eq!(again.conversation_id, 31);
    assert_eq!(again.request_status, "pending");
    assert!(!again.request_created && !again.message_created);
    assert_eq!(
        replay_start(Some(&rec), "h2").err(),
        Some(ForumError::Conflict("idempotency key was already used for another message request".to_string()))
    );
    assert!(replay_start(None, "h1").expect("fresh key").is_none());

    let sent = SentMessageRecord { id: 5, conversation_id: 31, body: "hi".to_string(), created_at_micros: 77 };
    assert_eq!(replay_send(Some(&sent), 31, "hi"), Ok(Some((5, 77))));
    assert_eq!(
        replay_send(Some(&sent), 31, "hello"),
        Err(ForumError::Conflict("client message identity was already used for another message".to_string()))
    );
    assert_eq!(replay_send(Some(&sent), 32, "hi").is_err(), true);
    assert_eq!(replay_send(None, 31, "hi"), Ok(None));
}
