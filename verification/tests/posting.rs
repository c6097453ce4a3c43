use forum::comments::{new_comment_path, next_sibling_index};
use forum::error::ForumError;
use forum::posting::{
    check_comment_delete, check_comment_edit, comment_publication, published_comment_notices, check_expected_version, check_thread_accepts_comment,
    check_thread_accepts_comment_edit, comment_create_bucket, comment_notice, comment_notice_payload, direct_comment_notices,
    direct_recipients, edit_bucket, edit_needs_revision, mention_notices, quoted_author, require_parent_path,
    thread_create_bucket, watcher_exclusions, watching_group_key, watching_notices, CommentEditState,
    CommentNoticeKind, ThreadPostingState,
};
use forum::mentions::thread_mention_handles;
use forum::payload::{JsonObject, JsonScalar};

fn state(deleted: bool, hidden: bool, closed: bool, archived: bool) -> ThreadPostingState {
    ThreadPostingState { author_id: Some(1), deleted, hidden, closed, archived }
}

#[test]
fn comment_paths_follow_siblings() {
    assert_eq!(next_sibling_index("0003.0007", "0003"), 8);
    assert_eq!(next_sibling_index("", ""), 1);
    assert_eq!(next_sibling_index("000a", ""), 11);
    assert_eq!(new_comment_path("0003", "0003.0007"), "0003.0008");
    assert_eq!(new_comment_path("", "0009"), "000a");
}

#[test]
fn thread_state_gates_comments() {
    assert_eq!(check_thread_accepts_comment(&state(true, false, false, false)), Err(ForumError::NotFound));
    assert_eq!(
        check_thread_accepts_comment(&state(false, false, true, true)),
        Err(ForumError::Conflict("thread is archived".into()))
    );
    assert_eq!(
        check_thread_accepts_comment(&state(false, false, true, false)),
        Err(ForumError::Conflict("thread is closed".into()))
    );
    assert!(check_thread_accepts_comment(&state(false, false, false, false)).is_ok());
    assert!(check_thread_accepts_comment_edit(&state(false, false, true, false)).is_ok());
    assert_eq!(check_thread_accepts_comment_edit(&state(false, true, false, false)), Err(ForumError::NotFound));
}

#[test]
fn buckets_by_trust_level() {
    let b = comment_create_bucket(0);
    assert_eq!((b.name.as_str(), b.capacity, b.window_seconds), ("comment_create_tl0", 5, 86400));
    let b = comment_create_bucket(2);
    assert_eq!((b.name.as_str(), b.capacity, b.window_seconds), ("comment_create", 20, 60));
    let b = thread_create_bucket(0);
    assert_eq!((b.name.as_str(), b.capacity), ("thread_create_tl0", 2));
    let b = thread_create_bucket(1);
    assert_eq!((b.name.as_str(), b.capacity), ("thread_create", 5));
    let b = edit_bucket();
    assert_eq!((b.name.as_str(), b.capacity, b.window_seconds), ("edit", 10, 60));
}

#[test]
fn direct_recipients_are_sorted_unique_and_exclude_the_author() {
    assert_eq!(direct_recipients(5, Some(9), Some(2), Some(9)), vec![2, 9]);
    assert_eq!(direct_recipients(5, Some(5), None, Some(5)), Vec::<i64>::new());
    assert_eq!(watcher_exclusions(5, Some(9), Some(2), None), vec![2, 5, 9]);
}

#[test]
fn comment_notices_in_order() {
    let n = direct_comment_notices(77, 5, Some(1), Some(1), Some(30), Some(2));
    assert_eq!(n.len(), 2);
    assert_eq!((n[0].kind, n[0].recipient_id, n[0].dedupe_key.as_str()), (CommentNoticeKind::Reply, 1, "forum-comment:77:reply:1"));
    assert_eq!((n[1].kind, n[1].recipient_id, n[1].dedupe_key.as_str()), (CommentNoticeKind::Quote, 2, "forum-comment:77:quote:2"));
    let n = direct_comment_notices(77, 5, Some(5), Some(3), None, Some(2));
    assert_eq!(n.len(), 1);
    assert_eq!(n[0].dedupe_key, "forum-comment:77:parent-reply:3");
    assert_eq!(comment_notice(1, CommentNoticeKind::Watching, 4).dedupe_key, "forum-comment:1:watching:4");
    assert_eq!(watching_group_key(12), "watching:12");
    let m = mention_notices(9, 5, &vec![5, 6, 7]);
    assert_eq!(m.iter().map(|x| x.recipient_id).collect::<Vec<_>>(), vec![6, 7]);
    assert_eq!(m[0].kind.notification_type(), "mention");
    assert_eq!(watching_notices(9, &vec![3]).len(), 1);
    assert_eq!(CommentNoticeKind::ParentReply.notification_type(), "reply");
}

#[test]
fn comment_edit_rules() {
    let existing = CommentEditState { author_id: 1, deleted: false, hidden: false, content_version: 3, created_at_micros: 0 };
    assert!(check_comment_edit(&existing, 1, 3).is_ok());
    assert_eq!(check_comment_edit(&existing, 2, 3), Err(ForumError::Forbidden));
    assert_eq!(check_comment_edit(&existing, 1, 2), Err(ForumError::OptimisticLockConflict { current_version: 3 }));
    let gone = CommentEditState { hidden: true, ..existing };
    assert_eq!(check_comment_edit(&gone, 1, 3), Err(ForumError::NotFound));
    assert!(edit_needs_revision(true, 0, 300_000_000));
    assert!(!edit_needs_revision(true, 1, 300_000_000));
    assert!(!edit_needs_revision(false, 0, 900_000_000));
    assert_eq!(
        check_expected_version(0),
        Err(ForumError::BadRequest("expectedVersion must be a positive integer".into()))
    );
    assert!(check_expected_version(1).is_ok());
    assert_eq!(check_comment_delete(1, false, 2), Err(ForumError::Forbidden));
    assert_eq!(check_comment_delete(1, true, 1), Err(ForumError::Conflict("comment is already deleted".into())));
    assert!(check_comment_delete(1, false, 1).is_ok());
}

#[test]
fn quoted_and_parent_lookups() {
    assert_eq!(quoted_author(Some(Some(4))), Ok(Some(4)));
    assert_eq!(quoted_author(Some(None)), Ok(None));
    assert_eq!(
        quoted_author(None),
        Err(ForumError::BadRequest("quoted comment must be an available comment in this thread".into()))
    );
    assert_eq!(require_parent_path(None), Err(ForumError::CommentMissing));
    assert_eq!(require_parent_path(Some("0001".into())), Ok("0001".to_string()));
}

#[test]
fn thread_mentions_skip_self_and_stop_at_ten() {
    assert_eq!(thread_mention_handles("hi @ann and @bob, also @me", "me"), vec!["ann".to_string(), "bob".to_string()]);
    let many: String = (0..12).map(|i| format!("@u{i} ")).collect();
    assert_eq!(thread_mention_handles(&many, "x").len(), 10);
    assert_eq!(thread_mention_handles("no mentions", "x"), Vec::<String>::new());
}

fn member_names(p: &JsonObject) -> Vec<String> {
    p.fields.iter().map(|(k, _)| k.clone()).collect()
}

fn member_text(p: &JsonObject, name: &str) -> Option<String> {
    p.fields.iter().find(|(k, _)| k == name).and_then(|(_, v)| match v {
        JsonScalar::Str(s) => Some(s.clone()),
        _ => None,
    })
}

#[test]
fn comment_notice_payloads_by_kind() {
    let quote = comment_notice_payload(CommentNoticeKind::Quote, 4, 9, "ann", "hello", 7, "ignored");
    assert!(quote.is_object);
    assert_eq!(member_names(&quote), vec!["threadId", "commentId", "quotedCommentId", "authorHandle", "bodyExcerpt", "title"]);
    assert_eq!(member_text(&quote, "quotedCommentId"), Some("7".to_string()));
    assert_eq!(member_text(&quote, "title"), Some("ann 引用了你的评论".to_string()));

    let mention = comment_notice_payload(CommentNoticeKind::Mention, 4, 9, "ann", "hi @bob", 0, "bob");
    assert_eq!(member_names(&mention), vec!["threadId", "commentId", "authorHandle", "handle", "bodyExcerpt", "title"]);
    assert_eq!(member_text(&mention, "handle"), Some("bob".to_string()));
    assert_eq!(member_text(&mention, "title"), Some("ann 提及了你".to_string()));

    let reply = comment_notice_payload(CommentNoticeKind::Reply, 4, 9, "ann", "x", 0, "");
    assert_eq!(member_names(&reply), vec!["threadId", "commentId", "authorHandle", "bodyExcerpt", "title"]);
    assert_eq!(member_text(&reply, "threadId"), Some("4".to_string()));
    assert_eq!(member_text(&reply, "title"), Some("ann 回复了你的主题".to_string()));
    let parent = comment_notice_payload(CommentNoticeKind::ParentReply, 4, 9, "ann", "x", 0, "");
    assert_eq!(member_text(&parent, "title"), Some("ann 回复了你的评论".to_string()));
    let watching = comment_notice_payload(CommentNoticeKind::Watching, 4, 9, "ann", "x", 0, "");
    assert_eq!(member_text(&watching, "title"), Some("你订阅的主题有新回复".to_string()));
}

#[test]
fn hidden_comments_notify_nobody_and_earn_nothing() {
    let hidden = published_comment_notices(true, 77, 9, Some(1), Some(3), Some(5), Some(2), &vec![4], &vec![6]);
    assert!(hidden.is_empty());
    let p = comment_publication(77, true);
    assert!(!p.counts_reply && !p.credits_activity && p.achievement_key.is_none());

    let shown = published_comment_notices(false, 77, 9, Some(1), Some(3), Some(5), Some(2), &vec![4], &vec![6, 9]);
    let got: Vec<(CommentNoticeKind, i64)> = shown.iter().map(|n| (n.kind, n.recipient_id)).collect();
    assert_eq!(
        got,
        vec![
            (CommentNoticeKind::Reply, 1),
            (CommentNoticeKind::ParentReply, 3),
            (CommentNoticeKind::Quote, 2),
            (CommentNoticeKind::Watching, 4),
            (CommentNoticeKind::Mention, 6),
        ]
    );
    let p = comment_publication(77, false);
    assert!(p.counts_reply && p.credits_activity);
    assert_eq!(p.achievement_key.as_deref(), Some("forum-comment:77:achievement:first-comment"));
}

#[test]
fn sibling_index_saturates_at_the_largest_index() {
    assert_eq!(next_sibling_index("0003.ffffffff", "0003"), u32::MAX);
    assert_eq!(next_sibling_index("ffffffff", ""), u32::MAX);
    assert_eq!(next_sibling_index("0003.000a", "0003"), 11);
    assert_eq!(next_sibling_index("", "0003"), 1);
    assert_eq!(new_comment_path("0003", "0003.fffffffe"), "0003.ffffffff");
}
