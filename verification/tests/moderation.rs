use forum::censor::canonicalize_censor_ranges;
use forum::error::ForumError;
use forum::moderation::{
    check_flag_open, check_not_own_content, deletion_follow_up, flag_bucket, flag_target_kind, flag_weight,
    parse_flag_action, require_member_reporter, resolution_plan, should_auto_hide,
    should_auto_silence, validate_flag_input, FlagAction, FlagTargetKind,
};
use forum::watched_words::{moderate_text, WatchedWords};

fn bad(m: &str) -> ForumError {
    ForumError::BadRequest(m.to_string())
}

#[test]
fn overlapping_censor_matches_hide_the_full_union() {
    let canonical = canonicalize_censor_ranges("abcdef", vec![(0, 3), (1, 5)]);

    assert_eq!(canonical, "▇▇▇▇▇f");
}

#[test]
fn censoring_counts_characters_not_bytes() {
    let canonical = canonicalize_censor_ranges("héllo wörld", vec![(7, 13), (0, 3)]);
    assert_eq!(canonical, "▇▇llo ▇▇▇▇▇");
    assert_eq!(canonicalize_censor_ranges("abc", vec![]), "abc");
    assert_eq!(canonicalize_censor_ranges("abcdef", vec![(1, 2), (2, 3), (5, 5)]), "a▇▇def");
}

#[test]
fn report_weights_match_unified_trust_scale() {
    let w = |t: i16| f32::from(flag_weight(t)) / 2.0;
    assert_eq!(w(1), 0.5);
    assert_eq!(w(2), 1.0);
    assert_eq!(w(3), 1.5);
    assert_eq!(w(4), 2.0);
    assert_eq!(w(5), 2.0);
    assert_eq!(w(6), 2.0);
    // Unregistered or out-of-range values are conservative (same as Lv.1).
    assert_eq!(w(0), 0.5);
    assert_eq!(w(-1), 0.5);
    assert_eq!(w(99), 0.5);
}

#[test]
fn report_weights_and_thresholds() {
    assert_eq!(flag_weight(0), 1);
    assert_eq!(flag_weight(3), 3);
    assert_eq!(flag_weight(6), 4);
    assert_eq!(flag_weight(7), 1);
    assert!(should_auto_hide(6, false, false));
    assert!(!should_auto_hide(5, false, false));
    assert!(!should_auto_hide(9, true, false));
    assert!(!should_auto_hide(9, false, true));
    assert!(should_auto_silence(2));
    assert!(!should_auto_silence(1));
}

#[test]
fn report_input_rules() {
    let ok = validate_flag_input("spam", Some("  too many links  "), "thread").expect("valid report");
    assert_eq!(ok.note.as_deref(), Some("too many links"));
    assert_eq!(validate_flag_input("abuse", Some("   "), "comment").expect("valid").note, None);
    assert!(matches!(validate_flag_input("rude", None, "thread"), Err(e) if e == bad("invalid flag reason")));
    let long = "x".repeat(1001);
    assert!(matches!(
        validate_flag_input("other", Some(&long), "thread"),
        Err(e) if e == bad("flag note must not exceed 1000 characters")
    ));
    assert!(validate_flag_input("other", Some(&"x".repeat(1000)), "thread").is_ok());
    assert!(matches!(validate_flag_input("spam", None, "board"), Err(e) if e == bad("postType must be thread/comment")));
    assert_eq!(require_member_reporter("mod"), Err(ForumError::Forbidden));
    assert!(require_member_reporter("user").is_ok());
    let b = flag_bucket(0);
    assert_eq!((b.name.as_str(), b.capacity, b.window_seconds), ("flag_tl0", 5, 86400));
    let b = flag_bucket(2);
    assert_eq!((b.name.as_str(), b.capacity), ("flag", 15));
    assert!(matches!(check_not_own_content(Some(3), 3), Err(e) if e == bad("users cannot flag their own content")));
    assert!(check_not_own_content(None, 3).is_ok());
}

#[test]
fn resolving_reports() {
    assert_eq!(parse_flag_action("uphold"), Ok(FlagAction::Uphold));
    assert_eq!(FlagAction::Reject.terminal_status(), "rejected");
    assert!(matches!(parse_flag_action("delete"), Err(e) if e == bad("action must be uphold/reject/ignore")));
    assert!(check_flag_open("open").is_ok());
    assert_eq!(check_flag_open("upheld"), Err(ForumError::Conflict("flag is already resolved".into())));
    assert_eq!(flag_target_kind("comment"), Ok(FlagTargetKind::Comment));
    assert_eq!(FlagTargetKind::Thread.subject_type(), "forum_thread");
    let plan = resolution_plan(FlagAction::Ignore, FlagTargetKind::Thread, true);
    assert!(!plan.delete_target && plan.lift_auto_hide && plan.recount_board);
    let plan = resolution_plan(FlagAction::Uphold, FlagTargetKind::Comment, true);
    assert!(plan.delete_target && !plan.lift_auto_hide && !plan.recount_board);
    let f = deletion_follow_up(FlagTargetKind::Comment, true, Some(8));
    assert!(f.detach_assets && f.decrement_replies);
    assert_eq!(f.count_against_author, Some(8));
    let f = deletion_follow_up(FlagTargetKind::Comment, false, Some(8));
    assert!(!f.detach_assets && !f.decrement_replies && f.count_against_author.is_none());
}

fn words(rows: &[(&str, &str)]) -> WatchedWords {
    WatchedWords::new(rows.iter().map(|(w, a)| (w.to_string(), a.to_string())).collect()).expect("matcher builds")
}

#[test]
fn watched_words_block_queue_and_censor() {
    let list = words(&[("spam", "censor"), ("scam", "queue"), ("evil", "block")]);
    let m = moderate_text(&list, "buy spam now").expect("not blocked");
    assert_eq!(m.canonical, "buy ▇▇▇▇ now");
    assert!(!m.is_queued);
    let m = moderate_text(&list, "a scam with spam").expect("not blocked");
    assert!(m.is_queued);
    assert_eq!(m.canonical, "a scam with ▇▇▇▇");
    assert_eq!(
        moderate_text(&list, "spam is evil").err(),
        Some(bad("content contains blocked words"))
    );
    let m = moderate_text(&list, "clean").expect("clean text");
    assert_eq!(m.canonical, "clean");
}

#[test]
fn later_watched_word_row_decides_the_action() {
    let list = words(&[("spam", "block"), ("spam", "censor")]);
    let m = moderate_text(&list, "spam").expect("censor wins");
    assert_eq!(m.canonical, "▇▇▇▇");
}

#[test]
fn overlapping_watched_words_censor_their_union() {
    let list = words(&[("abc", "censor"), ("bcd", "censor")]);
    let m = moderate_text(&list, "xabcdy").expect("not blocked");
    assert_eq!(m.canonical, "x▇▇▇▇y");
}

#[test]
fn watched_words_censor_whole_characters_of_any_script() {
    let list = words(&[("ö", "censor"), ("禁止", "censor")]);
    let m = moderate_text(&list, "wörld 禁止了").expect("not blocked");
    assert_eq!(m.canonical, "w▇rld ▇▇了");
    assert!(!m.is_queued);
}
