//! The declarative schema of both stores: which logical tables there are,
//! where each lives, whether it may be emptied, which tables may hold rows
//! that depend on it, and which of its cells may be edited.
//!
//! The tables are a closed enumeration. A table name that is not in it
//! cannot reach a store.

use vstd::prelude::*;
use crate::text::{same_text, texts};

verus! {

/// One of the two stores.
#[derive(Clone, Copy, Debug, PartialEq, Eq, Structural)]
pub enum DbSelection {
    /// The key-value store of posts.
    PostsDb,
    /// The relational store of contributors.
    ContributorDb,
}

/// A table of one of the two stores.
#[derive(Clone, Copy, Debug, PartialEq, Eq, Structural)]
pub enum LogicalTable {
    Posts,
    Metadata,
    PendingPosts,
    PendingMetadata,
    Users,
    Settings,
    PostOwnership,
    PendingPostOwnership,
    MediaAttachments,
}

/// The name of a table.
pub open spec fn name_of(t: LogicalTable) -> Seq<char> {
    match t {
        LogicalTable::Posts => "posts"@,
        LogicalTable::Metadata => "metadata"@,
        LogicalTable::PendingPosts => "pending_posts"@,
        LogicalTable::PendingMetadata => "pending_metadata"@,
        LogicalTable::Users => "users"@,
        LogicalTable::Settings => "settings"@,
        LogicalTable::PostOwnership => "post_ownership"@,
        LogicalTable::PendingPostOwnership => "pending_post_ownership"@,
        LogicalTable::MediaAttachments => "media_attachments"@,
    }
}

/// The table with a given name, if there is one.
pub open spec fn table_named(name: Seq<char>) -> Option<LogicalTable> {
    if name == "posts"@ {
        Some(LogicalTable::Posts)
    } else if name == "metadata"@ {
        Some(LogicalTable::Metadata)
    } else if name == "pending_posts"@ {
        Some(LogicalTable::PendingPosts)
    } else if name == "pending_metadata"@ {
        Some(LogicalTable::PendingMetadata)
    } else if name == "users"@ {
        Some(LogicalTable::Users)
    } else if name == "settings"@ {
        Some(LogicalTable::Settings)
    } else if name == "post_ownership"@ {
        Some(LogicalTable::PostOwnership)
    } else if name == "pending_post_ownership"@ {
        Some(LogicalTable::PendingPostOwnership)
    } else if name == "media_attachments"@ {
        Some(LogicalTable::MediaAttachments)
    } else {
        None
    }
}

/// The store that a table lives in.
pub open spec fn store_of(t: LogicalTable) -> DbSelection {
    match t {
        LogicalTable::Posts => DbSelection::PostsDb,
        LogicalTable::Metadata => DbSelection::PostsDb,
        LogicalTable::PendingPosts => DbSelection::PostsDb,
        LogicalTable::PendingMetadata => DbSelection::PostsDb,
        _ => DbSelection::ContributorDb,
    }
}

/// Whether a table may be emptied as a whole.
pub open spec fn is_cleanable(t: LogicalTable) -> bool {
    match t {
        LogicalTable::PendingPosts => true,
        LogicalTable::PendingMetadata => true,
        LogicalTable::PostOwnership => true,
        LogicalTable::PendingPostOwnership => true,
        LogicalTable::MediaAttachments => true,
        _ => false,
    }
}

/// The tables that may hold rows which depend on a row of `t`.
pub open spec fn dependencies_of(t: LogicalTable) -> Seq<LogicalTable> {
    match t {
        LogicalTable::Posts => seq![LogicalTable::Metadata],
        LogicalTable::Metadata => seq![LogicalTable::Posts],
        LogicalTable::PendingPosts => seq![LogicalTable::PendingMetadata],
        LogicalTable::PendingMetadata => seq![LogicalTable::PendingPosts],
        _ => Seq::empty(),
    }
}

/// Whether a table holds post metadata, which is shown and edited by field.
pub open spec fn holds_metadata(t: LogicalTable) -> bool {
    t == LogicalTable::Metadata || t == LogicalTable::PendingMetadata
}

/// The columns of `t` whose cells may be edited.
pub open spec fn editable_columns_of(t: LogicalTable) -> Seq<Seq<char>> {
    match t {
        LogicalTable::Settings => seq!["value"@],
        LogicalTable::Users => seq!["username"@],
        LogicalTable::Posts => seq!["value"@],
        LogicalTable::PendingPosts => seq!["value"@],
        LogicalTable::Metadata => seq!["title"@, "summary"@, "tags"@, "cover_image"@],
        LogicalTable::PendingMetadata => seq!["title"@, "summary"@, "tags"@, "cover_image"@],
        _ => Seq::empty(),
    }
}

/// The column by which the rows of a relational table are addressed.
pub open spec fn key_column_of(t: LogicalTable) -> Seq<char> {
    if t == LogicalTable::Users {
        "id"@
    } else {
        "post_id"@
    }
}

/// The tables of a store, in the order in which they are shown.
pub open spec fn tables_of(db: DbSelection) -> Seq<LogicalTable> {
    match db {
        DbSelection::PostsDb => seq![
            LogicalTable::Posts,
            LogicalTable::Metadata,
            LogicalTable::PendingPosts,
            LogicalTable::PendingMetadata,
        ],
        DbSelection::ContributorDb => seq![
            LogicalTable::Users,
            LogicalTable::Settings,
            LogicalTable::PostOwnership,
            LogicalTable::PendingPostOwnership,
            LogicalTable::MediaAttachments,
        ],
    }
}

/// The tables that have editable cells, in the order in which they are listed.
pub open spec fn editable_tables() -> Seq<LogicalTable> {
    seq![
        LogicalTable::Settings,
        LogicalTable::Users,
        LogicalTable::Posts,
        LogicalTable::PendingPosts,
        LogicalTable::Metadata,
        LogicalTable::PendingMetadata,
    ]
}

/// The identifier of a store in requests.
pub open spec fn db_id(db: DbSelection) -> Seq<char> {
    match db {
        DbSelection::PostsDb => "postsdb"@,
        DbSelection::ContributorDb => "contributordb"@,
    }
}

/// The title under which a store is shown.
pub open spec fn db_title(db: DbSelection) -> Seq<char> {
    match db {
        DbSelection::PostsDb => "Posts DB (posts.db)"@,
        DbSelection::ContributorDb => "Contributors DB (contributors.db)"@,
    }
}

/// The names of a list of tables.
pub open spec fn names_of(tables: Seq<LogicalTable>) -> Seq<Seq<char>> {
    Seq::new(tables.len(), |i: int| name_of(tables[i]))
}

impl DbSelection {
    /// The identifier of the store in requests.
    pub fn id(&self) -> (r: &'static str)
        ensures
            r@ == db_id(*self),
    {
        match self {
            DbSelection::PostsDb => "postsdb",
            DbSelection::ContributorDb => "contributordb",
        }
    }

    /// The title under which the store is shown.
    pub fn title(&self) -> (r: &'static str)
        ensures
            r@ == db_title(*self),
    {
        match self {
            DbSelection::PostsDb => "Posts DB (posts.db)",
            DbSelection::ContributorDb => "Contributors DB (contributors.db)",
        }
    }

    /// The store that a request names by `"postsdb"` or `"contributordb"`.
    pub fn from_id(id: &str) -> (r: Option<DbSelection>)
        ensures
            r == if id@ == db_id(DbSelection::PostsDb) {
                Some(DbSelection::PostsDb)
            } else if id@ == db_id(DbSelection::ContributorDb) {
                Some(DbSelection::ContributorDb)
            } else {
                None
            },
    {
        if same_text(id, "postsdb") {
            Some(DbSelection::PostsDb)
        } else if same_text(id, "contributordb") {
            Some(DbSelection::ContributorDb)
        } else {
            None
        }
    }

    /// The tables of the store, in the order in which they are shown.
    pub fn tables(&self) -> (r: Vec<LogicalTable>)
        ensures
            r@ == tables_of(*self),
    {
        let mut r: Vec<LogicalTable> = Vec::new();
        match self {
            DbSelection::PostsDb => {
                r.push(LogicalTable::Posts);
                r.push(LogicalTable::Metadata);
                r.push(LogicalTable::PendingPosts);
                r.push(LogicalTable::PendingMetadata);
            },
            DbSelection::ContributorDb => {
                r.push(LogicalTable::Users);
                r.push(LogicalTable::Settings);
                r.push(LogicalTable::PostOwnership);
                r.push(LogicalTable::PendingPostOwnership);
                r.push(LogicalTable::MediaAttachments);
            },
        }
        assert(r@ =~= tables_of(*self));
        r
    }
}

impl LogicalTable {
    /// The name of the table.
    pub fn name(&self) -> (r: &'static str)
        ensures
            r@ == name_of(*self),
    {
        match self {
            LogicalTable::Posts => "posts",
            LogicalTable::Metadata => "metadata",
            LogicalTable::PendingPosts => "pending_posts",
            LogicalTable::PendingMetadata => "pending_metadata",
            LogicalTable::Users => "users",
            LogicalTable::Settings => "settings",
            LogicalTable::PostOwnership => "post_ownership",
            LogicalTable::PendingPostOwnership => "pending_post_ownership",
            LogicalTable::MediaAttachments => "media_attachments",
        }
    }

    /// The table with the given name, if there is one.
    pub fn from_name(name: &str) -> (r: Option<LogicalTable>)
        ensures
            r == table_named(name@),
    {
        if same_text(name, "posts") {
            Some(LogicalTable::Posts)
        } else if same_text(name, "metadata") {
            Some(LogicalTable::Metadata)
        } else if same_text(name, "pending_posts") {
            Some(LogicalTable::PendingPosts)
        } else if same_text(name, "pending_metadata") {
            Some(LogicalTable::PendingMetadata)
        } else if same_text(name, "users") {
            Some(LogicalTable::Users)
        } else if same_text(name, "settings") {
            Some(LogicalTable::Settings)
        } else if same_text(name, "post_ownership") {
            Some(LogicalTable::PostOwnership)
        } else if same_text(name, "pending_post_ownership") {
            Some(LogicalTable::PendingPostOwnership)
        } else if same_text(name, "media_attachments") {
            Some(LogicalTable::MediaAttachments)
        } else {
            None
        }
    }

    /// The store that the table lives in.
    pub fn store(&self) -> (r: DbSelection)
        ensures
            r == store_of(*self),
    {
        match self {
            LogicalTable::Posts => DbSelection::PostsDb,
            LogicalTable::Metadata => DbSelection::PostsDb,
            LogicalTable::PendingPosts => DbSelection::PostsDb,
            LogicalTable::PendingMetadata => DbSelection::PostsDb,
            _ => DbSelection::ContributorDb,
        }
    }

    /// Whether the table may be emptied as a whole.
    pub fn cleanable(&self) -> (r: bool)
        ensures
            r == is_cleanable(*self),
    {
        match self {
            LogicalTable::PendingPosts => true,
            LogicalTable::PendingMetadata => true,
            LogicalTable::PostOwnership => true,
            LogicalTable::PendingPostOwnership => true,
            LogicalTable::MediaAttachments => true,
            _ => false,
        }
    }

    /// The tables that may hold rows which depend on a row of this table.
    pub fn dependencies(&self) -> (r: Vec<LogicalTable>)
        ensures
            r@ == dependencies_of(*self),
    {
        let mut r: Vec<LogicalTable> = Vec::new();
        match self {
            LogicalTable::Posts => {
                r.push(LogicalTable::Metadata);
            },
            LogicalTable::Metadata => {
                r.push(LogicalTable::Posts);
            },
            LogicalTable::PendingPosts => {
                r.push(LogicalTable::PendingMetadata);
            },
            LogicalTable::PendingMetadata => {
                r.push(LogicalTable::PendingPosts);
            },
            _ => {},
        }
        assert(r@ =~= dependencies_of(*self));
        r
    }

    /// Whether the table holds post metadata.
    pub fn is_metadata(&self) -> (r: bool)
        ensures
            r == holds_metadata(*self),
    {
        match self {
            LogicalTable::Metadata => true,
            LogicalTable::PendingMetadata => true,
            _ => false,
        }
    }

    /// The columns whose cells may be edited.
    pub fn editable_columns(&self) -> (r: Vec<&'static str>)
        ensures
            r@.len() == editable_columns_of(*self).len(),
            forall|i: int| 0 <= i < r@.len() ==> (#[trigger] r@[i])@ == editable_columns_of(*self)[i],
    {
        let mut r: Vec<&'static str> = Vec::new();
        match self {
            LogicalTable::Settings => {
                r.push("value");
            },
            LogicalTable::Users => {
                r.push("username");
            },
            LogicalTable::Posts => {
                r.push("value");
            },
            LogicalTable::PendingPosts => {
                r.push("value");
            },
            LogicalTable::Metadata => {
                r.push("title");
                r.push("summary");
                r.push("tags");
                r.push("cover_image");
            },
            LogicalTable::PendingMetadata => {
                r.push("title");
                r.push("summary");
                r.push("tags");
                r.push("cover_image");
            },
            _ => {},
        }
        r
    }

    /// Whether the cells of `column` may be edited.
    pub fn allows_edit(&self, column: &str) -> (r: bool)
        ensures
            r == editable_columns_of(*self).contains(column@),
    {
        let columns = self.editable_columns();
        let mut i: usize = 0;
        while i < columns.len()
            invariant
                i <= columns.len(),
                columns@.len() == editable_columns_of(*self).len(),
                forall|k: int|
                    0 <= k < columns@.len() ==> (#[trigger] columns@[k])@ == editable_columns_of(
                        *self,
                    )[k],
                forall|k: int| 0 <= k < i ==> editable_columns_of(*self)[k] != column@,
            decreases columns.len() - i,
        {
            if same_text(columns[i], column) {
                assert(editable_columns_of(*self)[i as int] == column@);
                return true;
            }
            i += 1;
        }
        false
    }

    /// The column by which the rows of a relational table are addressed.
    pub fn key_column(&self) -> (r: &'static str)
        ensures
            r@ == key_column_of(*self),
    {
        match self {
            LogicalTable::Users => "id",
            _ => "post_id",
        }
    }
}

/// A table as the administration interface lists it.
#[derive(Debug)]
pub struct TableInfo {
    pub name: String,
    pub cleanable: bool,
    /// The names of the tables that may hold dependent rows.
    pub dependencies: Vec<String>,
}

/// A store as the administration interface lists it.
#[derive(Debug)]
pub struct DbInfo {
    pub id: String,
    pub name: String,
    pub tables: Vec<TableInfo>,
}

/// The editable columns of one table.
#[derive(Debug)]
pub struct EditableCells {
    pub table: String,
    pub columns: Vec<String>,
}

/// The whole schema as the administration interface lists it.
#[derive(Debug)]
pub struct DbStructureResponse {
    pub databases: Vec<DbInfo>,
    pub editable_cells: Vec<EditableCells>,
}

/// Whether `info` lists table `t`.
pub open spec fn describes(info: TableInfo, t: LogicalTable) -> bool {
    info.name@ == name_of(t) && info.cleanable == is_cleanable(t) && texts(info.dependencies@)
        == names_of(dependencies_of(t))
}

/// Whether `info` lists store `db` with all its tables in order.
pub open spec fn lists(info: DbInfo, db: DbSelection) -> bool {
    &&& info.id@ == db_id(db)
    &&& info.name@ == db_title(db)
    &&& info.tables@.len() == tables_of(db).len()
    &&& forall|i: int|
        0 <= i < info.tables@.len() ==> describes(#[trigger] info.tables@[i], tables_of(db)[i])
}

/// Whether `cells` lists the editable columns of table `t`.
pub open spec fn allows(cells: EditableCells, t: LogicalTable) -> bool {
    cells.table@ == name_of(t) && texts(cells.columns@) == editable_columns_of(t)
}

/// Whether `r` is the schema: both stores, and the editable cells of every
/// table that has any.
pub open spec fn is_schema(r: DbStructureResponse) -> bool {
    &&& r.databases@.len() == 2
    &&& lists(r.databases@[0], DbSelection::PostsDb)
    &&& lists(r.databases@[1], DbSelection::ContributorDb)
    &&& r.editable_cells@.len() == editable_tables().len()
    &&& forall|i: int|
        0 <= i < r.editable_cells@.len() ==> allows(
            #[trigger] r.editable_cells@[i],
            editable_tables()[i],
        )
}

fn table_info(t: LogicalTable) -> (info: TableInfo)
    ensures
        describes(info, t),
{
    let deps = t.dependencies();
    let mut dependencies: Vec<String> = Vec::new();
    let mut i: usize = 0;
    while i < deps.len()
        invariant
            i <= deps.len(),
            dependencies@.len() == i,
            forall|k: int| 0 <= k < i ==> (#[trigger] dependencies@[k])@ == name_of(deps@[k]),
        decreases deps.len() - i,
    {
        dependencies.push(deps[i].name().to_owned());
        i += 1;
    }
    assert(texts(dependencies@) =~= names_of(dependencies_of(t)));
    TableInfo { name: t.name().to_owned(), cleanable: t.cleanable(), dependencies }
}

fn db_info(db: DbSelection) -> (info: DbInfo)
    ensures
        lists(info, db),
{
    let all = db.tables();
    let mut tables: Vec<TableInfo> = Vec::new();
    let mut i: usize = 0;
    while i < all.len()
        invariant
            i <= all.len(),
            all@ == tables_of(db),
            tables@.len() == i,
            forall|k: int| 0 <= k < i ==> describes(#[trigger] tables@[k], tables_of(db)[k]),
        decreases all.len() - i,
    {
        tables.push(table_info(all[i]));
        i += 1;
    }
    DbInfo { id: db.id().to_owned(), name: db.title().to_owned(), tables }
}

fn editable_cells(t: LogicalTable) -> (cells: EditableCells)
    ensures
        allows(cells, t),
{
    let all = t.editable_columns();
    let mut columns: Vec<String> = Vec::new();
    let mut i: usize = 0;
    while i < all.len()
        invariant
            i <= all.len(),
            all@.len() == editable_columns_of(t).len(),
            forall|k: int| 0 <= k < all@.len() ==> (#[trigger] all@[k])@ == editable_columns_of(t)[k],
            columns@.len() == i,
            forall|k: int| 0 <= k < i ==> (#[trigger] columns@[k])@ == editable_columns_of(t)[k],
        decreases all.len() - i,
    {
        columns.push(all[i].to_owned());
        i += 1;
    }
    assert(texts(columns@) =~= editable_columns_of(t));
    EditableCells { table: t.name().to_owned(), columns }
}

/// The schema of both stores.
pub fn get_db_structure_definition() -> (r: DbStructureResponse)
    ensures
        is_schema(r),
{
    let mut databases: Vec<DbInfo> = Vec::new();
    databases.push(db_info(DbSelection::PostsDb));
    databases.push(db_info(DbSelection::ContributorDb));
    let mut cells: Vec<EditableCells> = Vec::new();
    cells.push(editable_cells(LogicalTable::Settings));
    cells.push(editable_cells(LogicalTable::Users));
    cells.push(editable_cells(LogicalTable::Posts));
    cells.push(editable_cells(LogicalTable::PendingPosts));
    cells.push(editable_cells(LogicalTable::Metadata));
    cells.push(editable_cells(LogicalTable::PendingMetadata));
    DbStructureResponse { databases, editable_cells: cells }
}

/// The schema of both stores, for the administration interface.
pub fn get_db_structure() -> (r: DbStructureResponse)
    ensures
        is_schema(r),
{
    get_db_structure_definition()
}

/// The name of every table leads back to the table, so no two tables share a
/// name.
pub proof fn lemma_names_are_distinct(t: LogicalTable)
    ensures
        table_named(name_of(t)) == Some(t),
{
    reveal_strlit("posts");
    reveal_strlit("metadata");
    reveal_strlit("pending_posts");
    reveal_strlit("pending_metadata");
    reveal_strlit("users");
    reveal_strlit("settings");
    reveal_strlit("post_ownership");
    reveal_strlit("pending_post_ownership");
    reveal_strlit("media_attachments");
    let name = name_of(t);
    if t != LogicalTable::Posts {
        assert(name.len() != 5 || name[0] != 'p');
    }
    if t != LogicalTable::Metadata && t != LogicalTable::Settings {
        assert(name.len() != 8);
    }
    if t == LogicalTable::Settings {
        assert(name[0] == 's');
    }
    if t != LogicalTable::PendingPosts {
        assert(name.len() != 13);
    }
    if t != LogicalTable::PendingMetadata {
        assert(name.len() != 16);
    }
    if t != LogicalTable::Users {
        assert(name.len() != 5 || name[0] != 'u');
    }
    if t != LogicalTable::PostOwnership {
        assert(name.len() != 14);
    }
    if t != LogicalTable::PendingPostOwnership {
        assert(name.len() != 22);
    }
}

/// Every dependency that the schema declares lives in the same store as the
/// table it depends on, and the declaration is mutual.
pub proof fn lemma_dependencies_stay_in_store(t: LogicalTable, i: int)
    requires
        0 <= i < dependencies_of(t).len(),
    ensures
        store_of(dependencies_of(t)[i]) == store_of(t),
        dependencies_of(dependencies_of(t)[i]).contains(t),
        is_cleanable(dependencies_of(t)[i]) == is_cleanable(t),
{
    let d = dependencies_of(t)[i];
    assert(dependencies_of(d)[0] == t);
}

} // verus!
