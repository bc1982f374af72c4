use appbase_backend::content::{
    add_available_tag, create_pending_post, delete_available_tag, delete_pending_post, delete_post, draft_metadata,
    move_published_to_pending, publish_post, read_pending_post, read_post, read_post_summary_by_id,
    update_pending_post, update_post, MetaRead, PostRows, ShelfRows,
};
use appbase_backend::error::BackendError;
use appbase_backend::ident::PostId;
use appbase_backend::kv::{KvWrite, Shelf};
use appbase_backend::model::{PostMetadata, Timestamp};

const ID: &str = "550e8400-e29b-41d4-a716-446655440000";

fn id() -> PostId {
    PostId::parse(ID).unwrap()
}

fn at(secs: i64) -> Timestamp {
    Timestamp { secs, nanos: 7 }
}

fn meta(created: i64, tags: &[&str]) -> PostMetadata {
    PostMetadata {
        title: "Old".to_string(),
        created_at: at(created),
        last_updated_at: None,
        summary: "S".to_string(),
        tags: tags.iter().map(|t| t.to_string()).collect(),
        cover_image: Some("c.png".to_string()),
        has_call_to_action: None,
        search_keywords: None,
    }
}

fn absent() -> ShelfRows {
    ShelfRows { content: None, metadata: MetaRead::Absent }
}

fn found(content: &str, m: PostMetadata) -> ShelfRows {
    ShelfRows { content: Some(content.to_string()), metadata: MetaRead::Found(m) }
}

/// A short name for each write, in order.
fn shape(writes: &[KvWrite]) -> Vec<String> {
    writes
        .iter()
        .map(|w| match w {
            KvWrite::PutContent { shelf, content, .. } => format!("put-content {:?} {}", shelf, content),
            KvWrite::PutMetadata { shelf, metadata, .. } => format!("put-metadata {:?} {}", shelf, metadata.title),
            KvWrite::RemoveContent { shelf, .. } => format!("remove-content {:?}", shelf),
            KvWrite::RemoveMetadata { shelf, .. } => format!("remove-metadata {:?}", shelf),
            KvWrite::AddTagEntry { key } => format!("add-tag {} {}", key.token, key.inv_time),
            KvWrite::RemoveTagEntry { key } => format!("remove-tag {} {}", key.token, key.inv_time),
            KvWrite::AddKeywordEntry { key } => format!("add-keyword {} {}", key.token, key.inv_time),
            KvWrite::RemoveKeywordEntry { key } => format!("remove-keyword {} {}", key.token, key.inv_time),
            KvWrite::AddChronoEntry { entry } => format!("add-chrono {}", entry.inv_time),
            KvWrite::RemoveChronoEntry { entry } => format!("remove-chrono {}", entry.inv_time),
            KvWrite::AddAvailableTag { tag } => format!("add-available {}", tag),
            KvWrite::RemoveAvailableTag { tag } => format!("remove-available {}", tag),
        })
        .collect()
}

#[test]
fn drafted_metadata_keeps_fields_and_splits_lists() {
    let m = draft_metadata(at(5), Some(at(9)), "T", "S", " A , b/c ,", "K1,,k2", Some("img"), Some(false));
    assert_eq!(m.title, "T");
    assert_eq!(m.summary, "S");
    assert_eq!(m.tags, vec!["A", "b/c"]);
    assert_eq!(m.search_keywords, Some(vec!["K1".to_string(), "k2".to_string()]));
    assert_eq!(m.cover_image.as_deref(), Some("img"));
    assert_eq!(m.has_call_to_action, Some(false));
    assert_eq!((m.created_at, m.last_updated_at), (at(5), Some(at(9))));
}

#[test]
fn creating_writes_both_pending_rows_only() {
    let out = create_pending_post(id(), at(5), "T", "S", "body", "a", "k", None, None);
    assert_eq!(shape(&out), vec!["put-content Pending body", "put-metadata Pending T"]);
    match &out[1] {
        KvWrite::PutMetadata { id: i, metadata, .. } => {
            assert_eq!(*i, id());
            assert_eq!(metadata.created_at, at(5));
            assert_eq!(metadata.last_updated_at, None);
            assert_eq!(metadata.cover_image, None);
        }
        other => panic!("unexpected write {:?}", other),
    }
}

#[test]
fn deleting_pending_removes_both_rows() {
    assert_eq!(shape(&delete_pending_post(id())), vec!["remove-content Pending", "remove-metadata Pending"]);
}

#[test]
fn updating_pending_keeps_creation_time() {
    let rows = PostRows { published: absent(), pending: found("old", meta(100, &["x"])) };
    let out = update_pending_post(&rows, id(), at(200), "New", "S2", "new", "y", "", Some("i"), Some(true)).unwrap();
    assert_eq!(shape(&out), vec!["put-content Pending new", "put-metadata Pending New"]);
    match &out[1] {
        KvWrite::PutMetadata { metadata, .. } => {
            assert_eq!(metadata.created_at, at(100));
            assert_eq!(metadata.last_updated_at, Some(at(200)));
            assert_eq!(metadata.tags, vec!["y"]);
            assert_eq!(metadata.search_keywords, Some(Vec::new()));
            assert_eq!(metadata.cover_image.as_deref(), Some("i"));
        }
        other => panic!("unexpected write {:?}", other),
    }
}

#[test]
fn updating_pending_needs_both_rows() {
    let none = PostRows { published: found("p", meta(1, &[])), pending: absent() };
    assert_eq!(update_pending_post(&none, id(), at(2), "", "", "", "", "", None, None).err(), Some(BackendError::NotFound));
    let no_content = PostRows {
        published: absent(),
        pending: ShelfRows { content: None, metadata: MetaRead::Found(meta(1, &[])) },
    };
    assert_eq!(
        update_pending_post(&no_content, id(), at(2), "", "", "", "", "", None, None).err(),
        Some(BackendError::NotFound)
    );
    let no_meta = PostRows {
        published: absent(),
        pending: ShelfRows { content: Some("c".to_string()), metadata: MetaRead::Absent },
    };
    assert_eq!(
        update_pending_post(&no_meta, id(), at(2), "", "", "", "", "", None, None).err(),
        Some(BackendError::NotFound)
    );
    let corrupt = PostRows {
        published: absent(),
        pending: ShelfRows { content: Some("c".to_string()), metadata: MetaRead::Corrupt },
    };
    assert_eq!(
        update_pending_post(&corrupt, id(), at(2), "", "", "", "", "", None, None).err(),
        Some(BackendError::StoreError)
    );
}

#[test]
fn publishing_writes_rows_then_index_entries() {
    let mut m = meta(100, &["a/b"]);
    m.search_keywords = Some(vec!["K".to_string()]);
    let out = publish_post(id(), "body".to_string(), m);
    let s = shape(&out);
    assert_eq!(&s[..3], &["put-content Published body", "put-metadata Published Old", "add-chrono -100"]);
    let mut rest: Vec<String> = s[3..].to_vec();
    rest.sort();
    assert_eq!(rest, vec!["add-keyword k -100", "add-tag a -100", "add-tag a/b -100", "add-tag b -100"]);
}

#[test]
fn moving_to_pending_copies_rows_and_removes_index_entries() {
    let rows = PostRows { published: found("body", meta(100, &["a"])), pending: absent() };
    let out = move_published_to_pending(rows, id()).unwrap();
    assert_eq!(
        shape(&out),
        vec![
            "put-content Pending body",
            "put-metadata Pending Old",
            "remove-content Published",
            "remove-metadata Published",
            "remove-chrono -100",
            "remove-tag a -100",
        ]
    );
}

#[test]
fn moving_to_pending_needs_a_published_post() {
    let rows = PostRows { published: absent(), pending: found("p", meta(1, &[])) };
    assert_eq!(move_published_to_pending(rows, id()).err(), Some(BackendError::NotFound));
    let rows = PostRows {
        published: ShelfRows { content: Some("c".to_string()), metadata: MetaRead::Corrupt },
        pending: absent(),
    };
    assert_eq!(move_published_to_pending(rows, id()).err(), Some(BackendError::StoreError));
}

#[test]
fn updating_published_removes_old_entries_before_adding_new() {
    let rows = PostRows { published: found("old", meta(100, &["x/y"])), pending: absent() };
    let out = update_post(&rows, id(), at(300), "New", "S", "new", "z", "kw", None, None).unwrap();
    let s = shape(&out);
    let put = s.iter().position(|w| w.starts_with("put-content")).unwrap();
    let mut removed: Vec<String> = s[..put].to_vec();
    removed.sort();
    assert_eq!(
        removed,
        vec!["remove-chrono -100", "remove-tag x -100", "remove-tag x/y -100", "remove-tag y -100"]
    );
    assert_eq!(&s[put..put + 2], &["put-content Published new", "put-metadata Published New"]);
    let mut added: Vec<String> = s[put + 2..].to_vec();
    added.sort();
    assert_eq!(added, vec!["add-chrono -100", "add-keyword kw -100", "add-tag z -100"]);
    match &out[put + 1] {
        KvWrite::PutMetadata { shelf, metadata, .. } => {
            assert_eq!(*shelf, Shelf::Published);
            assert_eq!(metadata.created_at, at(100));
            assert_eq!(metadata.last_updated_at, Some(at(300)));
        }
        other => panic!("unexpected write {:?}", other),
    }
}

#[test]
fn updating_published_needs_a_published_post() {
    let rows = PostRows { published: absent(), pending: absent() };
    assert_eq!(update_post(&rows, id(), at(1), "", "", "", "", "", None, None).err(), Some(BackendError::NotFound));
}

#[test]
fn deleting_published_removes_entries_where_metadata_is_readable() {
    let rows = PostRows { published: found("b", meta(100, &["a"])), pending: absent() };
    assert_eq!(
        shape(&delete_post(&rows, id())),
        vec!["remove-chrono -100", "remove-tag a -100", "remove-content Published", "remove-metadata Published"]
    );
    let rows = PostRows {
        published: ShelfRows { content: Some("b".to_string()), metadata: MetaRead::Corrupt },
        pending: absent(),
    };
    assert_eq!(shape(&delete_post(&rows, id())), vec!["remove-content Published", "remove-metadata Published"]);
    let rows = PostRows { published: absent(), pending: absent() };
    assert_eq!(shape(&delete_post(&rows, id())), vec!["remove-content Published", "remove-metadata Published"]);
}

#[test]
fn reading_gives_post_under_the_text_asked_for() {
    let post = read_post("550E8400-E29B-41D4-A716-446655440000", found("body", meta(1, &["t"]))).unwrap();
    assert_eq!(post.id, "550E8400-E29B-41D4-A716-446655440000");
    assert_eq!(post.content, "body");
    assert_eq!(post.metadata.title, "Old");
    let post = read_pending_post(ID, found("body", meta(1, &["t"]))).unwrap();
    assert_eq!(post.id, ID);
}

#[test]
fn reading_needs_identifier_and_both_rows() {
    assert!(read_post("nope", found("body", meta(1, &[]))).is_none());
    assert!(read_post(ID, absent()).is_none());
    assert!(read_post(ID, ShelfRows { content: Some("c".to_string()), metadata: MetaRead::Absent }).is_none());
    assert!(read_post(ID, ShelfRows { content: Some("c".to_string()), metadata: MetaRead::Corrupt }).is_none());
    assert!(read_pending_post(ID, ShelfRows { content: None, metadata: MetaRead::Found(meta(1, &[])) }).is_none());
}

#[test]
fn summary_by_identifier_treats_bad_text_as_absent() {
    assert!(matches!(read_post_summary_by_id("nope", MetaRead::Found(meta(1, &[]))), Ok(None)));
    assert!(matches!(read_post_summary_by_id(ID, MetaRead::Absent), Ok(None)));
    assert!(matches!(read_post_summary_by_id(ID, MetaRead::Corrupt), Err(BackendError::StoreError)));
    let s = read_post_summary_by_id(ID, MetaRead::Found(meta(1, &[]))).unwrap().unwrap();
    assert_eq!(s.id, ID);
    assert_eq!(s.metadata.title, "Old");
}

#[test]
fn registry_tags_are_trimmed_and_lower_case() {
    assert_eq!(shape(&add_available_tag("  Rust ")), vec!["add-available rust"]);
    assert_eq!(shape(&delete_available_tag(" RUST")), vec!["remove-available rust"]);
}
