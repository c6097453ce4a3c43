use forum::payload::{JsonObject, JsonScalar};
use forum::search::{candidate_limit, candidate_thread_ids, meili_api_key, order_public_documents, reindex_plan, ForumThreadDoc, ReindexStep};

fn document(id: i64, title: &str) -> ForumThreadDoc {
    ForumThreadDoc {
        id: id.to_string(),
        title: title.into(),
        body_excerpt: String::new(),
        board: "general".into(),
        tags: Vec::new(),
        author_handle: "author".into(),
        reply_count: 0,
        vote_count: 0,
        created_at: 0,
        status: "visible".into(),
    }
}

fn hit(key: &str, value: JsonScalar) -> JsonObject {
    JsonObject { is_object: true, fields: vec![(key.to_string(), value)] }
}

#[test]
fn candidate_ids_reject_malformed_and_duplicate_hits() {
    let hits = vec![
        hit("id", JsonScalar::Str("3".into())),
        hit("id", JsonScalar::Int(2)),
        hit("id", JsonScalar::Str("3".into())),
        hit("id", JsonScalar::Int(0)),
        hit("id", JsonScalar::Str("not-an-id".into())),
        hit("title", JsonScalar::Str("missing id".into())),
    ];

    assert_eq!(candidate_thread_ids(&hits), vec![3, 2]);
}

#[test]
fn public_documents_keep_candidate_rank_and_omit_missing_rows() {
    let ordered = order_public_documents(
        &vec![30, 20, 10],
        vec![document(10, "ten"), document(30, "thirty")],
        10,
    );

    assert_eq!(ordered, vec![document(30, "thirty"), document(10, "ten")]);
}

#[test]
fn reindex_plan_always_clears_before_optional_addition() {
    assert_eq!(reindex_plan(false), &[ReindexStep::Clear]);
    assert_eq!(reindex_plan(true), &[ReindexStep::Clear, ReindexStep::Add]);
}

#[test]
fn ordered_documents_respect_the_limit_and_repeated_candidates() {
    let ordered = order_public_documents(
        &vec![10, 30, 10, 20],
        vec![document(10, "ten"), document(20, "twenty"), document(30, "thirty")],
        2,
    );
    assert_eq!(ordered, vec![document(10, "ten"), document(30, "thirty")]);
}

#[test]
fn later_document_with_the_same_id_wins() {
    let ordered = order_public_documents(&vec![5], vec![document(5, "old"), document(5, "new")], 10);
    assert_eq!(ordered, vec![document(5, "new")]);
}

#[test]
fn candidate_ids_skip_negative_and_keep_rank() {
    let hits = vec![
        hit("id", JsonScalar::Int(-4)),
        hit("id", JsonScalar::Str("7".into())),
        hit("id", JsonScalar::Int(5)),
        hit("id", JsonScalar::Int(7)),
        hit("id", JsonScalar::Other),
    ];
    assert_eq!(candidate_thread_ids(&hits), vec![7, 5]);
}

#[test]
fn blank_meili_key_means_no_key() {
    assert_eq!(meili_api_key("  "), None);
    assert_eq!(meili_api_key(""), None);
    assert_eq!(meili_api_key(" secret\n"), Some("secret".to_string()));
}

#[test]
fn candidate_limit_is_four_per_result_capped() {
    assert_eq!(candidate_limit(5), 20);
    assert_eq!(candidate_limit(250), 1000);
    assert_eq!(candidate_limit(400), 1000);
    assert_eq!(candidate_limit(0), 0);
}
