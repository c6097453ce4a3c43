use forum::feed::{feed_cache_entry, order_by_requested_ids};
use forum::error::ForumError;
use forum::following::{
    check_thread_edit, following_after_batch, following_finish, following_next_batch, following_scan_start,
    thread_content_changed, ThreadEditState,
};
use forum::profile_content::{partition_targets, shown_excerpt};

#[test]
fn following_scan_fills_a_page_in_batches() {
    let s = following_scan_start(10, None);
    assert_eq!(s.page_size, 10);
    let n = following_next_batch(&s).expect("first batch");
    assert_eq!(n, 44);
    let s = following_after_batch(s, n, 44, 12, Some((5, 9)));
    assert_eq!((s.collected, s.scanned, s.cursor, s.done), (12, 44, Some((5, 9)), false));
    assert_eq!(following_next_batch(&s), None);
    let page = following_finish(&s, Some((7, 3)));
    assert_eq!((page.keep, page.next), (10, Some((7, 3))));
}

#[test]
fn following_scan_stops_on_short_or_empty_batches_and_budget() {
    let s = following_scan_start(0, Some((1, 1)));
    assert_eq!(s.page_size, 1);
    assert_eq!(following_next_batch(&s), Some(20));
    let t = following_after_batch(s, 20, 0, 0, None);
    assert!(t.done);
    assert_eq!(following_finish(&t, None).next, None);
    let t = following_after_batch(s, 20, 3, 0, Some((0, 4)));
    assert!(t.done);
    let mut s = following_scan_start(100, None);
    while let Some(n) = following_next_batch(&s) {
        s = following_after_batch(s, n, n, 0, Some((0, s.scanned as i64)));
    }
    assert_eq!(s.scanned, 1000);
    let page = following_finish(&s, None);
    assert_eq!((page.keep, page.next), (0, Some((0, 900))));
}

#[test]
fn thread_edit_rules() {
    let e = ThreadEditState { author_id: 1, deleted: false, hidden: false, archived: false, content_version: 4 };
    assert!(check_thread_edit(&e, 1, 4).is_ok());
    assert_eq!(check_thread_edit(&e, 2, 4), Err(ForumError::Forbidden));
    assert_eq!(check_thread_edit(&e, 1, 3), Err(ForumError::OptimisticLockConflict { current_version: 4 }));
    let archived = ThreadEditState { archived: true, ..e };
    assert_eq!(check_thread_edit(&archived, 1, 4), Err(ForumError::Conflict("thread is archived".into())));
    assert!(thread_content_changed(Some("new"), "old", None, None, None, "markdown"));
    assert!(!thread_content_changed(Some("same"), "same", Some("b"), Some("b"), Some("md"), "md"));
    assert!(thread_content_changed(None, "t", Some(""), None, None, "md"));
}

#[test]
fn profile_timeline_partition() {
    let items = vec![("thread".to_string(), 1), ("comment".to_string(), 2), ("thread".to_string(), 3), ("poll".to_string(), 4)];
    assert_eq!(partition_targets(&items), (vec![1, 3], vec![2]));
    assert_eq!(shown_excerpt(Some(String::new())), None);
    assert_eq!(shown_excerpt(Some("x".into())), Some("x".to_string()));
}

#[test]
fn fetched_threads_follow_the_ranking_order() {
    assert_eq!(order_by_requested_ids(&vec![30, 10, 99, 20], &vec![10, 20, 30]), vec![2, 0, 1]);
    assert_eq!(order_by_requested_ids(&vec![], &vec![1]), Vec::<usize>::new());
    assert_eq!(order_by_requested_ids(&vec![5, 5], &vec![5]), vec![0, 0]);
}

#[test]
fn only_anonymous_feeds_use_the_cache() {
    assert_eq!(feed_cache_entry(Some(3), 2, "new", None, None), None);
    assert_eq!(feed_cache_entry(None, 2, "new", Some(5), Some("abc")), Some("v2:new:Some(5):abc".to_string()));
    assert_eq!(feed_cache_entry(None, 0, "hot", None, None), Some("v0:hot:None:".to_string()));
}
