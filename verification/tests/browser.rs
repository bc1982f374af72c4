use appbase_backend::browser::{
    cell_text, clean_table_with_auth, delete_redb_rows, delete_sqlite_rows, delete_table_rows,
    dependencies_to_probe, find_table, found_dependency, get_paginated_table_data, get_row_dependencies,
    get_table_data, last_page, page_offset, relational_row, set_metadata_field, table_row, update_redb_cell,
    update_sqlite_cell, update_table_cell, Cell, DeleteRowRequest, DeletionPlan, DependentToDelete, Probe,
    SqlValue,
};
use appbase_backend::content::MetaRead;
use appbase_backend::error::BackendError;
use appbase_backend::ident::PostId;
use appbase_backend::kv::{KvWrite, Shelf};
use appbase_backend::model::{PostMetadata, Timestamp};
use appbase_backend::schema::{get_db_structure, DbSelection, LogicalTable};

const ID: &str = "550e8400-e29b-41d4-a716-446655440000";

fn meta() -> PostMetadata {
    PostMetadata {
        title: "The title".to_string(),
        created_at: Timestamp { secs: 1431648000, nanos: 0 },
        last_updated_at: None,
        summary: "Sum".to_string(),
        tags: vec!["Rust".to_string(), "Systems/Storage".to_string()],
        cover_image: None,
        has_call_to_action: None,
        search_keywords: None,
    }
}

fn pairs(row: &[Cell]) -> Vec<(&str, &str)> {
    row.iter().map(|c| (c.column.as_str(), c.value.as_str())).collect()
}

fn dep(table: &str, row: &str) -> DependentToDelete {
    DependentToDelete { table_name: table.to_string(), row_id: row.to_string() }
}

#[test]
fn schema_lists_both_stores() {
    let s = get_db_structure();
    assert_eq!(s.databases.len(), 2);
    let posts = &s.databases[0];
    assert_eq!((posts.id.as_str(), posts.name.as_str()), ("postsdb", "Posts DB (posts.db)"));
    let listed: Vec<(&str, bool, Vec<&str>)> = posts
        .tables
        .iter()
        .map(|t| (t.name.as_str(), t.cleanable, t.dependencies.iter().map(|d| d.as_str()).collect()))
        .collect();
    assert_eq!(
        listed,
        vec![
            ("posts", false, vec!["metadata"]),
            ("metadata", false, vec!["posts"]),
            ("pending_posts", true, vec!["pending_metadata"]),
            ("pending_metadata", true, vec!["pending_posts"]),
        ]
    );
    let contributors = &s.databases[1];
    assert_eq!(
        (contributors.id.as_str(), contributors.name.as_str()),
        ("contributordb", "Contributors DB (contributors.db)")
    );
    let listed: Vec<(&str, bool, usize)> =
        contributors.tables.iter().map(|t| (t.name.as_str(), t.cleanable, t.dependencies.len())).collect();
    assert_eq!(
        listed,
        vec![
            ("users", false, 0),
            ("settings", false, 0),
            ("post_ownership", true, 0),
            ("pending_post_ownership", true, 0),
            ("media_attachments", true, 0),
        ]
    );
}

#[test]
fn schema_lists_editable_cells() {
    let s = get_db_structure();
    let cells: Vec<(&str, Vec<&str>)> =
        s.editable_cells.iter().map(|c| (c.table.as_str(), c.columns.iter().map(|x| x.as_str()).collect())).collect();
    assert_eq!(
        cells,
        vec![
            ("settings", vec!["value"]),
            ("users", vec!["username"]),
            ("posts", vec!["value"]),
            ("pending_posts", vec!["value"]),
            ("metadata", vec!["title", "summary", "tags", "cover_image"]),
            ("pending_metadata", vec!["title", "summary", "tags", "cover_image"]),
        ]
    );
}

#[test]
fn tables_are_found_by_name_in_their_store() {
    for db in [DbSelection::PostsDb, DbSelection::ContributorDb] {
        for t in db.tables() {
            assert_eq!(LogicalTable::from_name(t.name()), Some(t));
            assert_eq!(t.store(), db);
            assert_eq!(find_table(db, t.name()), Some(t));
        }
    }
    assert_eq!(find_table(DbSelection::PostsDb, "users"), None);
    assert_eq!(find_table(DbSelection::ContributorDb, "posts"), None);
    assert_eq!(LogicalTable::from_name("tag_index"), None);
    assert_eq!(LogicalTable::from_name("Posts"), None);
    assert_eq!(DbSelection::from_id("postsdb"), Some(DbSelection::PostsDb));
    assert_eq!(DbSelection::from_id("contributordb"), Some(DbSelection::ContributorDb));
    assert_eq!(DbSelection::from_id("other"), None);
}

#[test]
fn relational_rows_are_addressed_by_their_key_column() {
    assert_eq!(LogicalTable::Users.key_column(), "id");
    assert_eq!(LogicalTable::PostOwnership.key_column(), "post_id");
    assert_eq!(LogicalTable::Settings.key_column(), "post_id");
}

#[test]
fn offsets_count_pages_from_one() {
    assert_eq!(page_offset(1, 20), 0);
    assert_eq!(page_offset(3, 20), 40);
    assert_eq!(page_offset(0, 20), 0);
    assert_eq!(page_offset(5, 0), 0);
    assert_eq!(page_offset(u32::MAX, u32::MAX), u32::MAX);
    assert_eq!(page_offset(65537, 65536), u32::MAX);
    assert_eq!(page_offset(65536, 65536), 65535 * 65536);
}

#[test]
fn last_page_rounds_up() {
    assert_eq!(last_page(0, 20), 0);
    assert_eq!(last_page(1, 20), 1);
    assert_eq!(last_page(20, 20), 1);
    assert_eq!(last_page(21, 20), 2);
    assert_eq!(last_page(u32::MAX, 1), u32::MAX);
    assert_eq!(last_page(u32::MAX, u32::MAX), 1);
    assert_eq!(last_page(u32::MAX, 2), 2147483648);
    assert_eq!(last_page(5, 0), u32::MAX);
    assert_eq!(last_page(0, 0), 0);
}

#[test]
fn content_rows_are_shown_raw() {
    let id = PostId::parse(ID).unwrap();
    let row = table_row(LogicalTable::Posts, id, "body".to_string(), &MetaRead::Absent);
    assert_eq!(pairs(&row), vec![("id", ID), ("value", "body")]);
    let row = table_row(LogicalTable::PendingPosts, id, "{}".to_string(), &MetaRead::Found(meta()));
    assert_eq!(pairs(&row), vec![("id", ID), ("value", "{}")]);
}

#[test]
fn metadata_rows_are_shown_by_field() {
    let id = PostId::parse(ID).unwrap();
    let row = table_row(LogicalTable::Metadata, id, "{...}".to_string(), &MetaRead::Found(meta()));
    assert_eq!(
        pairs(&row),
        vec![
            ("id", ID),
            ("title", "The title"),
            ("summary", "Sum"),
            ("tags", "Rust, Systems/Storage"),
            ("cover_image", ""),
            ("created_at", "2015-05-15 00:00:00 UTC"),
        ]
    );
    let row = table_row(LogicalTable::PendingMetadata, id, "garbage".to_string(), &MetaRead::Corrupt);
    assert_eq!(pairs(&row), vec![("id", ID)]);
}

#[test]
fn pages_carry_rows_and_last_page() {
    let id = PostId::parse(ID).unwrap();
    let rows = vec![table_row(LogicalTable::Posts, id, "body".to_string(), &MetaRead::Absent)];
    let page = get_paginated_table_data(rows, 41, 20);
    assert_eq!(page.last_page, 3);
    assert_eq!(page.data.len(), 1);
    assert_eq!(pairs(&page.data[0]), vec![("id", ID), ("value", "body")]);
}

#[test]
fn dependencies_come_from_the_schema() {
    assert_eq!(dependencies_to_probe(DbSelection::PostsDb, "metadata", ID), Ok(vec![LogicalTable::Posts]));
    assert_eq!(
        dependencies_to_probe(DbSelection::PostsDb, "pending_posts", ID),
        Ok(vec![LogicalTable::PendingMetadata])
    );
    assert_eq!(dependencies_to_probe(DbSelection::ContributorDb, "users", "5"), Ok(vec![]));
    assert_eq!(dependencies_to_probe(DbSelection::PostsDb, "users", ID), Err(BackendError::NotFound));
    assert_eq!(dependencies_to_probe(DbSelection::PostsDb, "nothing", ID), Err(BackendError::NotFound));
    assert_eq!(dependencies_to_probe(DbSelection::PostsDb, "posts", "nope"), Err(BackendError::InvalidInput));
}

#[test]
fn previews_are_short() {
    let long: String = std::iter::repeat('ä').take(150).collect();
    let d = found_dependency(LogicalTable::Posts, ID, &long, &MetaRead::Absent);
    assert_eq!(d.preview.chars().count(), 103);
    assert!(d.preview.ends_with("ä..."));
    let d = found_dependency(LogicalTable::PendingPosts, ID, "short", &MetaRead::Absent);
    assert_eq!(d.preview, "short...");
    let d = found_dependency(LogicalTable::PendingMetadata, ID, "x", &MetaRead::Found(meta()));
    assert_eq!((d.table_name.as_str(), d.row_id.as_str(), d.preview.as_str()), ("pending_metadata", ID, "Title: The title"));
    let d = found_dependency(LogicalTable::Metadata, ID, "x", &MetaRead::Corrupt);
    assert_eq!(d.preview, "Invalid Metadata JSON");
}

#[test]
fn deletion_plans_exactly_the_chosen_rows() {
    let other = "00000000-0000-0000-0000-000000000002";
    let out = delete_redb_rows("posts", ID, &vec![dep("metadata", ID), dep("pending_posts", other)]).unwrap();
    assert_eq!(out.len(), 3);
    assert!(matches!(&out[0], KvWrite::RemoveContent { shelf: Shelf::Published, id } if id.to_text() == ID));
    assert!(matches!(&out[1], KvWrite::RemoveMetadata { shelf: Shelf::Published, id } if id.to_text() == ID));
    assert!(matches!(&out[2], KvWrite::RemoveContent { shelf: Shelf::Pending, id } if id.to_text() == other));
    let out = delete_redb_rows("pending_metadata", ID, &Vec::new()).unwrap();
    assert_eq!(out.len(), 1);
    assert!(matches!(&out[0], KvWrite::RemoveMetadata { shelf: Shelf::Pending, .. }));
}

#[test]
fn deletion_is_refused_as_a_whole() {
    assert_eq!(delete_redb_rows("posts", "bad", &Vec::new()).err(), Some(BackendError::InvalidInput));
    assert_eq!(delete_redb_rows("users", ID, &Vec::new()).err(), Some(BackendError::NotFound));
    assert_eq!(delete_redb_rows("posts", ID, &vec![dep("metadata", "bad")]).err(), Some(BackendError::InvalidInput));
    assert_eq!(delete_redb_rows("posts", ID, &vec![dep("tag_index", ID)]).err(), Some(BackendError::NotFound));
    assert_eq!(delete_sqlite_rows("posts", "1", &Vec::new()).err(), Some(BackendError::InvalidInput));
    assert_eq!(
        delete_sqlite_rows("users", "1", &vec![dep("users; DROP TABLE users", "1")]).err(),
        Some(BackendError::InvalidInput)
    );
}

#[test]
fn relational_deletion_names_tables_and_rows() {
    let out = delete_sqlite_rows("users", "5", &vec![dep("post_ownership", ID)]).unwrap();
    let rows: Vec<(LogicalTable, &str)> = out.iter().map(|r| (r.table, r.row_id.as_str())).collect();
    assert_eq!(rows, vec![(LogicalTable::Users, "5"), (LogicalTable::PostOwnership, ID)]);
}

#[test]
fn deletion_request_goes_to_its_store() {
    let request = DeleteRowRequest {
        db_selection: DbSelection::PostsDb,
        table_name: "posts".to_string(),
        row_id: ID.to_string(),
        dependents: vec![dep("metadata", ID)],
    };
    assert!(matches!(delete_table_rows(&request), Ok(DeletionPlan::Content { writes }) if writes.len() == 2));
    let request = DeleteRowRequest {
        db_selection: DbSelection::ContributorDb,
        table_name: "users".to_string(),
        row_id: "3".to_string(),
        dependents: Vec::new(),
    };
    assert!(matches!(delete_table_rows(&request), Ok(DeletionPlan::Relational { rows }) if rows.len() == 1));
    let request = DeleteRowRequest {
        db_selection: DbSelection::ContributorDb,
        table_name: "posts".to_string(),
        row_id: "3".to_string(),
        dependents: Vec::new(),
    };
    assert!(matches!(delete_table_rows(&request), Err(BackendError::InvalidInput)));
}

#[test]
fn emptying_needs_the_password_again() {
    let hash = bcrypt::hash("pw", 4).unwrap();
    let db = DbSelection::PostsDb;
    assert_eq!(clean_table_with_auth(Some(&hash), "wrong", db, "pending_posts", false), Err(BackendError::InvalidCredentials));
    assert_eq!(clean_table_with_auth(None, "pw", db, "pending_posts", false), Err(BackendError::InvalidCredentials));
    assert_eq!(clean_table_with_auth(Some("junk"), "pw", db, "pending_posts", false), Err(BackendError::InvalidCredentials));
    assert_eq!(clean_table_with_auth(Some(&hash), "wrong", db, "posts", false), Err(BackendError::InvalidCredentials));
    assert_eq!(clean_table_with_auth(Some(&hash), "pw", db, "pending_posts", false), Ok(vec![LogicalTable::PendingPosts]));
}

#[test]
fn emptying_is_for_cleanable_tables_only() {
    let hash = bcrypt::hash("pw", 4).unwrap();
    let h = Some(hash.as_str());
    assert_eq!(clean_table_with_auth(h, "pw", DbSelection::PostsDb, "posts", true), Err(BackendError::Forbidden));
    assert_eq!(clean_table_with_auth(h, "pw", DbSelection::PostsDb, "metadata", false), Err(BackendError::Forbidden));
    assert_eq!(clean_table_with_auth(h, "pw", DbSelection::ContributorDb, "users", false), Err(BackendError::Forbidden));
    assert_eq!(clean_table_with_auth(h, "pw", DbSelection::ContributorDb, "settings", false), Err(BackendError::Forbidden));
    assert_eq!(clean_table_with_auth(h, "pw", DbSelection::PostsDb, "no_table", false), Err(BackendError::Forbidden));
    assert_eq!(
        clean_table_with_auth(h, "pw", DbSelection::PostsDb, "post_ownership", false),
        Err(BackendError::NotFound)
    );
    assert_eq!(
        clean_table_with_auth(h, "pw", DbSelection::PostsDb, "pending_metadata", true),
        Ok(vec![LogicalTable::PendingMetadata, LogicalTable::PendingPosts])
    );
    assert_eq!(
        clean_table_with_auth(h, "pw", DbSelection::ContributorDb, "media_attachments", true),
        Ok(vec![LogicalTable::MediaAttachments])
    );
}

#[test]
fn cell_edits_must_be_on_the_list() {
    assert_eq!(update_table_cell(DbSelection::PostsDb, "metadata", "title"), Ok(LogicalTable::Metadata));
    assert_eq!(update_table_cell(DbSelection::ContributorDb, "users", "username"), Ok(LogicalTable::Users));
    assert_eq!(update_table_cell(DbSelection::ContributorDb, "users", "password_hash"), Err(BackendError::Forbidden));
    assert_eq!(update_table_cell(DbSelection::PostsDb, "metadata", "created_at"), Err(BackendError::Forbidden));
    assert_eq!(update_table_cell(DbSelection::PostsDb, "post_ownership", "user_id"), Err(BackendError::Forbidden));
    assert_eq!(update_table_cell(DbSelection::PostsDb, "nothing", "value"), Err(BackendError::Forbidden));
    assert_eq!(update_table_cell(DbSelection::ContributorDb, "posts", "value"), Err(BackendError::NotFound));
}

#[test]
fn metadata_fields_are_set() {
    let m = set_metadata_field(meta(), "title", "New").unwrap();
    assert_eq!((m.title.as_str(), m.summary.as_str()), ("New", "Sum"));
    let m = set_metadata_field(meta(), "summary", "Other").unwrap();
    assert_eq!((m.title.as_str(), m.summary.as_str()), ("The title", "Other"));
    let m = set_metadata_field(meta(), "tags", " a , ,b/c ").unwrap();
    assert_eq!(m.tags, vec!["a", "", "b/c"]);
    let m = set_metadata_field(meta(), "cover_image", "x.png").unwrap();
    assert_eq!(m.cover_image.as_deref(), Some("x.png"));
    let m = set_metadata_field(m, "cover_image", "").unwrap();
    assert_eq!(m.cover_image, None);
    assert_eq!(set_metadata_field(meta(), "created_at", "1").err(), Some(BackendError::InvalidInput));
    assert_eq!(m.created_at, Timestamp { secs: 1431648000, nanos: 0 });
}

#[test]
fn key_value_cell_edit_writes_one_row_and_no_index_entry() {
    let w = update_redb_cell(LogicalTable::Metadata, ID, "tags", "x, y", true, MetaRead::Found(meta())).unwrap();
    match w {
        KvWrite::PutMetadata { shelf, id, metadata } => {
            assert_eq!(shelf, Shelf::Published);
            assert_eq!(id.to_text(), ID);
            assert_eq!(metadata.tags, vec!["x", "y"]);
            assert_eq!(metadata.title, "The title");
        }
        other => panic!("unexpected write {:?}", other),
    }
    let w = update_redb_cell(LogicalTable::PendingPosts, ID, "value", "new body", true, MetaRead::Absent).unwrap();
    assert!(matches!(w, KvWrite::PutContent { shelf: Shelf::Pending, content, .. } if content == "new body"));
}

#[test]
fn key_value_cell_edit_refusals() {
    let found = || MetaRead::Found(meta());
    assert_eq!(update_redb_cell(LogicalTable::Metadata, "bad", "title", "x", true, found()).err(), Some(BackendError::InvalidInput));
    assert_eq!(update_redb_cell(LogicalTable::Users, ID, "username", "x", true, found()).err(), Some(BackendError::NotFound));
    assert_eq!(update_redb_cell(LogicalTable::Metadata, ID, "title", "x", false, MetaRead::Absent).err(), Some(BackendError::NotFound));
    assert_eq!(update_redb_cell(LogicalTable::Metadata, ID, "title", "x", true, MetaRead::Corrupt).err(), Some(BackendError::StoreError));
    assert_eq!(update_redb_cell(LogicalTable::Metadata, ID, "value", "x", true, found()).err(), Some(BackendError::InvalidInput));
    assert_eq!(update_redb_cell(LogicalTable::Posts, ID, "title", "x", true, MetaRead::Absent).err(), Some(BackendError::InvalidInput));
}

#[test]
fn relational_cell_edit_names_key_column() {
    let u = update_sqlite_cell("users", "5", "username", "ann").unwrap();
    assert_eq!(
        (u.table, u.column.as_str(), u.key_column.as_str(), u.row_id.as_str(), u.value.as_str()),
        (LogicalTable::Users, "username", "id", "5", "ann")
    );
    let u = update_sqlite_cell("settings", "k", "value", "v").unwrap();
    assert_eq!(u.key_column, "post_id");
    assert_eq!(update_sqlite_cell("users", "5", "role", "admin").err(), Some(BackendError::InvalidInput));
    assert_eq!(update_sqlite_cell("posts", ID, "value", "x").err(), Some(BackendError::InvalidInput));
    assert_eq!(update_sqlite_cell("users; --", "5", "username", "x").err(), Some(BackendError::InvalidInput));
}

#[test]
fn relational_values_are_shown_as_text() {
    assert_eq!(cell_text(SqlValue::Null), "");
    assert_eq!(cell_text(SqlValue::Integer(0)), "0");
    assert_eq!(cell_text(SqlValue::Integer(7)), "7");
    assert_eq!(cell_text(SqlValue::Integer(-42)), "-42");
    assert_eq!(cell_text(SqlValue::Integer(1234567890)), "1234567890");
    assert_eq!(cell_text(SqlValue::Integer(i64::MAX)), i64::MAX.to_string());
    assert_eq!(cell_text(SqlValue::Integer(i64::MIN)), i64::MIN.to_string());
    assert_eq!(cell_text(SqlValue::Real("1.5".to_string())), "1.5");
    assert_eq!(cell_text(SqlValue::Text("héllo".to_string())), "héllo");
    assert_eq!(cell_text(SqlValue::Blob), "[BLOB]");
    let names = vec!["id".to_string(), "username".to_string(), "last_login_time".to_string()];
    let row = relational_row(&names, vec![SqlValue::Integer(3), SqlValue::Text("ann".to_string()), SqlValue::Null]);
    assert_eq!(pairs(&row), vec![("id", "3"), ("username", "ann"), ("last_login_time", "")]);
    let row = relational_row(&names, vec![SqlValue::Integer(3)]);
    assert_eq!(pairs(&row), vec![("id", "3")]);
}

#[test]
fn table_requests_are_checked_against_the_schema() {
    let q = get_table_data(DbSelection::ContributorDb, "users", 3, 20, Some("5")).unwrap();
    assert_eq!((q.table, q.limit, q.offset, q.search_id.as_deref()), (LogicalTable::Users, 20, 40, Some("5")));
    let q = get_table_data(DbSelection::PostsDb, "metadata", 1, 10, None).unwrap();
    assert_eq!((q.table, q.limit, q.offset, q.search_id), (LogicalTable::Metadata, 10, 0, None));
    assert_eq!(get_table_data(DbSelection::PostsDb, "posts", 1, 10, Some("bad")).err(), Some(BackendError::InvalidInput));
    assert_eq!(get_table_data(DbSelection::PostsDb, "users", 1, 10, None).err(), Some(BackendError::NotFound));
    assert_eq!(
        get_table_data(DbSelection::ContributorDb, "users; DROP", 1, 10, None).err(),
        Some(BackendError::InvalidInput)
    );
}

#[test]
fn dependents_are_listed_for_rows_that_exist() {
    let probes = vec![
        Probe { table: LogicalTable::Metadata, value: Some("{}".to_string()), decoded: MetaRead::Found(meta()) },
        Probe { table: LogicalTable::Posts, value: None, decoded: MetaRead::Absent },
        Probe { table: LogicalTable::PendingPosts, value: Some("text".to_string()), decoded: MetaRead::Absent },
    ];
    let found = get_row_dependencies(ID, &probes);
    let listed: Vec<(&str, &str, &str)> =
        found.iter().map(|d| (d.table_name.as_str(), d.row_id.as_str(), d.preview.as_str())).collect();
    assert_eq!(listed, vec![("metadata", ID, "Title: The title"), ("pending_posts", ID, "text...")]);
    assert!(get_row_dependencies(ID, &Vec::new()).is_empty());
}
