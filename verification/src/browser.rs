//! The generic table browser: paging through a table of either store,
//! finding the rows that depend on a row, deleting rows, emptying a table
//! and editing a cell, all driven by the schema.
//!
//! Every check is made before a store is written: an operation that is
//! refused plans nothing.

use vstd::prelude::*;
use crate::clock::{show_time, shown_time};
use crate::content::{MetaRead, MetaReadView};
use crate::credentials::{accepts, password_matches};
use crate::error::BackendError;
use crate::ident::{canonical_text, parsed_uuid, PostId};
use crate::kv::{batch, push_write, KvWrite, KvWriteView, Shelf};
use crate::model::{opt_text, MetadataView, PostMetadata};
use crate::text::{decimal, decimal_chars, string_of};
use vstd::std_specs::iter::IteratorSpec;
use crate::schema::{
    dependencies_of, editable_columns_of, holds_metadata, is_cleanable, key_column_of, name_of,
    store_of, table_named, DbSelection, LogicalTable,
};
use crate::text::{join, join_spec, prefix, prefix_spec, same_text, split_trimmed, trimmed_pieces};

verus! {

/// One cell of a row: the name of its column and its value as text.
#[derive(Debug)]
pub struct Cell {
    pub column: String,
    pub value: String,
}

/// One page of a table.
#[derive(Debug)]
pub struct PaginatedResponse {
    /// The rows of the page, each a list of cells.
    pub data: Vec<Vec<Cell>>,
    /// The number of the last page.
    pub last_page: u32,
}

/// A dependent row that the caller chose to delete with the main row.
#[derive(Debug)]
pub struct DependentToDelete {
    pub table_name: String,
    pub row_id: String,
}

/// A request to delete a row and chosen dependents.
#[derive(Debug)]
pub struct DeleteRowRequest {
    pub db_selection: DbSelection,
    pub table_name: String,
    pub row_id: String,
    pub dependents: Vec<DependentToDelete>,
}

/// A request to empty a table.
#[derive(Debug)]
pub struct CleanTableRequest {
    pub db_selection: DbSelection,
    pub table_name: String,
    pub admin_password: String,
    pub clean_dependents: bool,
}

/// A request to change one cell.
#[derive(Debug)]
pub struct UpdateCellRequest {
    pub db_selection: DbSelection,
    pub table_name: String,
    pub row_id: String,
    pub column_name: String,
    pub value: String,
}

/// A row that depends on another, with a short preview of what it holds.
#[derive(Debug)]
pub struct FoundDependency {
    pub table_name: String,
    pub row_id: String,
    pub preview: String,
}

/// How many rows stand before page `page` where a page has `size` rows.
/// Pages are counted from 1; page 0 is page 1. The result stops at the
/// largest number there is.
pub open spec fn offset_of(page: u32, size: u32) -> u32 {
    let before = if page == 0 {
        0int
    } else {
        (page - 1) * size
    };
    if before > u32::MAX {
        u32::MAX
    } else {
        before as u32
    }
}

/// The number of the last page of `total_rows` rows in pages of `size`
/// rows: the number of pages, rounded up. With pages of no rows there is no
/// last page to reach: it is 0 for an empty table and the largest number
/// otherwise.
pub open spec fn last_page_of(total_rows: u32, size: u32) -> u32 {
    if size == 0 {
        if total_rows == 0 {
            0
        } else {
            u32::MAX
        }
    } else {
        ((total_rows + size - 1) / (size as int)) as u32
    }
}

/// The number of rows to skip for page `page`.
pub fn page_offset(page: u32, size: u32) -> (r: u32)
    ensures
        r == offset_of(page, size),
{
    let before: u64 = if page == 0 {
        0
    } else {
        proof {
            assert((page - 1) * size <= 0xffff_ffff * 0xffff_ffff) by (nonlinear_arith)
                requires
                    0 <= page - 1 <= 0xffff_ffff,
                    0 <= size <= 0xffff_ffff,
            ;
        }
        (page - 1) as u64 * (size as u64)
    };
    if before > 0xffff_ffff {
        0xffff_ffff
    } else {
        before as u32
    }
}

/// The number of the last page.
pub fn last_page(total_rows: u32, size: u32) -> (r: u32)
    ensures
        r == last_page_of(total_rows, size),
{
    if size == 0 {
        if total_rows == 0 {
            0
        } else {
            0xffff_ffff
        }
    } else {
        let pages: u64 = (total_rows as u64 + size as u64 - 1) / (size as u64);
        proof {
            assert((total_rows + size - 1) / (size as int) <= total_rows) by (nonlinear_arith)
                requires
                    size >= 1,
                    total_rows >= 0,
            ;
        }
        pages as u32
    }
}

/// The cells of a row.
pub open spec fn cells(row: Seq<Cell>) -> Seq<(Seq<char>, Seq<char>)> {
    Seq::new(row.len(), |i: int| (row[i].column@, row[i].value@))
}

/// The text under which tags are shown in one cell.
pub open spec fn shown_tags(meta: MetadataView) -> Seq<char> {
    join_spec(meta.tags, ", "@)
}

/// The cells under which a row of a key-value table is shown. A row of a
/// metadata table is shown by field, or by its identifier alone where it
/// cannot be read; any other row is shown as identifier and raw value.
pub open spec fn shown_row(
    table: LogicalTable,
    id: PostId,
    value: Seq<char>,
    decoded: MetaReadView,
) -> Seq<(Seq<char>, Seq<char>)> {
    if holds_metadata(table) {
        match decoded {
            MetaReadView::Found(m) => seq![
                ("id"@, canonical_text(id.value)),
                ("title"@, m.title),
                ("summary"@, m.summary),
                ("tags"@, shown_tags(m)),
                ("cover_image"@, match m.cover_image {
                    Some(c) => c,
                    None => Seq::empty(),
                }),
                ("created_at"@, shown_time(m.created_at)),
            ],
            _ => seq![("id"@, canonical_text(id.value))],
        }
    } else {
        seq![("id"@, canonical_text(id.value)), ("value"@, value)]
    }
}

fn cell(column: &str, value: String) -> (c: Cell)
    ensures
        c.column@ == column@,
        c.value@ == value@,
{
    Cell { column: column.to_owned(), value }
}

/// Builds the cells under which a row of a key-value table is shown.
/// `decoded` is the metadata that the value holds, for a metadata table.
pub fn table_row(table: LogicalTable, id: PostId, value: String, decoded: &MetaRead) -> (row: Vec<Cell>)
    ensures
        cells(row@) == shown_row(table, id, value@, decoded@),
{
    let mut row: Vec<Cell> = Vec::new();
    row.push(cell("id", id.to_text()));
    if table.is_metadata() {
        match decoded {
            MetaRead::Found(m) => {
                row.push(cell("title", m.title.clone()));
                row.push(cell("summary", m.summary.clone()));
                row.push(cell("tags", join(&m.tags, ", ")));
                let cover = match &m.cover_image {
                    Some(c) => c.clone(),
                    None => String::new(),
                };
                row.push(cell("cover_image", cover));
                row.push(cell("created_at", show_time(m.created_at)));
            },
            _ => {},
        }
    } else {
        row.push(cell("value", value));
    }
    assert(cells(row@) =~= shown_row(table, id, value@, decoded@));
    row
}

/// One page of a table with the number of its last page, which is counted
/// from all `total_rows` rows of the table.
pub fn get_paginated_table_data(data: Vec<Vec<Cell>>, total_rows: u32, size: u32) -> (r: PaginatedResponse)
    ensures
        r.data == data,
        r.last_page == last_page_of(total_rows, size),
{
    PaginatedResponse { data, last_page: last_page(total_rows, size) }
}

/// The table that a request names in a store, if the store has it.
pub open spec fn table_in(db: DbSelection, name: Seq<char>) -> Option<LogicalTable> {
    match table_named(name) {
        Some(t) => if store_of(t) == db {
            Some(t)
        } else {
            None
        },
        None => None,
    }
}

/// Finds the table that a request names in a store.
pub fn find_table(db: DbSelection, name: &str) -> (r: Option<LogicalTable>)
    ensures
        r == table_in(db, name@),
{
    match LogicalTable::from_name(name) {
        Some(t) => if t.store() == db {
            Some(t)
        } else {
            None
        },
        None => None,
    }
}

/// The tables to probe for rows that depend on row `row_id` of a table: the
/// dependencies that the schema declares for it. A table that the store
/// does not have is `NotFound`; where there is something to probe in the
/// key-value store, a row identifier that is none is `InvalidInput`.
pub open spec fn probes(db: DbSelection, table_name: Seq<char>, row_id: Seq<char>) -> Result<
    Seq<LogicalTable>,
    BackendError,
> {
    match table_in(db, table_name) {
        None => Err(BackendError::NotFound),
        Some(t) => if dependencies_of(t).len() == 0 || db == DbSelection::ContributorDb {
            Ok(Seq::empty())
        } else if parsed_uuid(row_id) is None {
            Err(BackendError::InvalidInput)
        } else {
            Ok(dependencies_of(t))
        },
    }
}

/// Decides which tables to probe for dependents of a row.
pub fn dependencies_to_probe(db_selection: DbSelection, table_name: &str, row_id: &str) -> (r: Result<
    Vec<LogicalTable>,
    BackendError,
>)
    ensures
        match r {
            Ok(tables) => probes(db_selection, table_name@, row_id@) == Ok::<
                Seq<LogicalTable>,
                BackendError,
            >(tables@),
            Err(e) => probes(db_selection, table_name@, row_id@) == Err::<
                Seq<LogicalTable>,
                BackendError,
            >(e),
        },
{
    match find_table(db_selection, table_name) {
        None => Err(BackendError::NotFound),
        Some(t) => {
            let deps = t.dependencies();
            if deps.len() == 0 || db_selection == DbSelection::ContributorDb {
                Ok(Vec::new())
            } else if PostId::parse(row_id).is_err() {
                Err(BackendError::InvalidInput)
            } else {
                Ok(deps)
            }
        },
    }
}

/// The preview of a dependent row: the title for metadata, a remark where
/// the metadata cannot be read, and for any other row the first hundred
/// characters of its value, followed by three dots.
pub open spec fn preview_of(table: LogicalTable, value: Seq<char>, decoded: MetaReadView) -> Seq<char> {
    if holds_metadata(table) {
        match decoded {
            MetaReadView::Found(m) => "Title: "@ + m.title,
            _ => "Invalid Metadata JSON"@,
        }
    } else {
        prefix_spec(value, 100) + "..."@
    }
}

/// Describes a dependent row that a probe found.
pub fn found_dependency(table: LogicalTable, row_id: &str, value: &str, decoded: &MetaRead) -> (r: FoundDependency)
    ensures
        r.table_name@ == name_of(table),
        r.row_id@ == row_id@,
        r.preview@ == preview_of(table, value@, decoded@),
{
    let preview = if table.is_metadata() {
        match decoded {
            MetaRead::Found(m) => {
                let mut p = "Title: ".to_owned();
                p.append(m.title.as_str());
                p
            },
            _ => "Invalid Metadata JSON".to_owned(),
        }
    } else {
        let mut p = prefix(value, 100);
        p.append("...");
        p
    };
    FoundDependency { table_name: table.name().to_owned(), row_id: row_id.to_owned(), preview }
}

/// What a probe of one table found under the row identifier.
#[derive(Debug)]
pub struct Probe {
    pub table: LogicalTable,
    /// The value of the row, where there is a row.
    pub value: Option<String>,
    /// The metadata that the value holds, for a metadata table.
    pub decoded: MetaRead,
}

/// The dependents among the probed rows, in the order of the probes, each
/// as its table name, its row identifier and its preview. A probe that
/// found no row adds nothing.
pub open spec fn dependents_found(row_id: Seq<char>, probes: Seq<Probe>) -> Seq<
    (Seq<char>, Seq<char>, Seq<char>),
>
    decreases probes.len(),
{
    if probes.len() == 0 {
        Seq::empty()
    } else {
        let before = dependents_found(row_id, probes.drop_last());
        let probe = probes.last();
        match probe.value {
            Some(v) => before.push(
                (name_of(probe.table), row_id, preview_of(probe.table, v@, probe.decoded@)),
            ),
            None => before,
        }
    }
}

/// The values of a list of dependents.
pub open spec fn dependents(v: Seq<FoundDependency>) -> Seq<(Seq<char>, Seq<char>, Seq<char>)> {
    Seq::new(v.len(), |i: int| (v[i].table_name@, v[i].row_id@, v[i].preview@))
}

/// Lists the rows that depend on row `row_id`, from what the probes of the
/// declared dependency tables found.
pub fn get_row_dependencies(row_id: &str, probes: &Vec<Probe>) -> (out: Vec<FoundDependency>)
    ensures
        dependents(out@) == dependents_found(row_id@, probes@),
{
    let mut out: Vec<FoundDependency> = Vec::new();
    let mut i: usize = 0;
    assert(dependents(out@) =~= dependents_found(row_id@, probes@.take(0)));
    while i < probes.len()
        invariant
            i <= probes.len(),
            dependents(out@) == dependents_found(row_id@, probes@.take(i as int)),
        decreases probes.len() - i,
    {
        let probe = &probes[i];
        proof {
            let next = probes@.take(i + 1);
            assert(next.drop_last() == probes@.take(i as int));
            assert(next.last() == *probe);
        }
        match &probe.value {
            Some(v) => {
                let ghost before = dependents(out@);
                let d = found_dependency(probe.table, row_id, v.as_str(), &probe.decoded);
                let ghost dv = (d.table_name@, d.row_id@, d.preview@);
                out.push(d);
                assert(dependents(out@) =~= before.push(dv));
            },
            None => {},
        }
        i += 1;
    }
    assert(probes@.take(probes@.len() as int) == probes@);
    out
}

/// What to read for one page of a table.
#[derive(Debug)]
pub struct TableQuery {
    pub table: LogicalTable,
    /// The number of rows to read.
    pub limit: u32,
    /// The number of rows to skip.
    pub offset: u32,
    /// The one row to show instead of a page, where a row was asked for.
    pub search_id: Option<String>,
}

/// The table, row limit and row offset of a request for page `page` of a
/// table, or why the request is refused: a table that the chosen store does
/// not have is `NotFound` in the key-value store and `InvalidInput` in the
/// relational store, and a row identifier that is none is `InvalidInput` in
/// the key-value store.
pub open spec fn table_query(
    db: DbSelection,
    table_name: Seq<char>,
    page: u32,
    size: u32,
    search_id: Option<Seq<char>>,
) -> Result<(LogicalTable, u32, u32), BackendError> {
    match table_in(db, table_name) {
        None => Err(
            if db == DbSelection::PostsDb {
                BackendError::NotFound
            } else {
                BackendError::InvalidInput
            },
        ),
        Some(t) => if db == DbSelection::PostsDb && search_id is Some && parsed_uuid(search_id->0)
            is None {
            Err(BackendError::InvalidInput)
        } else {
            Ok((t, size, offset_of(page, size)))
        },
    }
}

/// Decides what to read for one page of a table.
pub fn get_table_data(db_selection: DbSelection, table_name: &str, page: u32, size: u32, search_id: Option<&str>) -> (r: Result<
    TableQuery,
    BackendError,
>)
    ensures
        match r {
            Ok(q) => table_query(
                db_selection,
                table_name@,
                page,
                size,
                crate::content::opt_str(search_id),
            ) == Ok::<(LogicalTable, u32, u32), BackendError>((q.table, q.limit, q.offset))
                && opt_text(q.search_id) == crate::content::opt_str(search_id),
            Err(e) => table_query(
                db_selection,
                table_name@,
                page,
                size,
                crate::content::opt_str(search_id),
            ) == Err::<(LogicalTable, u32, u32), BackendError>(e),
        },
{
    let table = match find_table(db_selection, table_name) {
        Some(t) => t,
        None => {
            return Err(
                if db_selection == DbSelection::PostsDb {
                    BackendError::NotFound
                } else {
                    BackendError::InvalidInput
                },
            );
        },
    };
    let search = match search_id {
        Some(text) => {
            if db_selection == DbSelection::PostsDb && PostId::parse(text).is_err() {
                return Err(BackendError::InvalidInput);
            }
            Some(text.to_owned())
        },
        None => None,
    };
    Ok(TableQuery { table, limit: size, offset: page_offset(page, size), search_id: search })
}

/// A row of a table, by its identifier as text.
#[derive(Debug)]
pub struct RowRef {
    pub table: LogicalTable,
    pub row_id: String,
}

/// What a deletion of rows does to the stores.
#[derive(Debug)]
pub enum DeletionPlan {
    /// One key-value write transaction.
    Content { writes: Vec<KvWrite> },
    /// One relational transaction that deletes these rows.
    Relational { rows: Vec<RowRef> },
}

/// The removal of one row of a content table.
pub open spec fn row_removal(t: LogicalTable, id: PostId) -> KvWriteView {
    match t {
        LogicalTable::Posts => KvWriteView::RemoveContent { shelf: Shelf::Published, id },
        LogicalTable::Metadata => KvWriteView::RemoveMetadata { shelf: Shelf::Published, id },
        LogicalTable::PendingPosts => KvWriteView::RemoveContent { shelf: Shelf::Pending, id },
        _ => KvWriteView::RemoveMetadata { shelf: Shelf::Pending, id },
    }
}

/// Why a row of the key-value store cannot be deleted: its identifier is
/// none (`InvalidInput`) or the store has no such table (`NotFound`).
pub open spec fn content_row_refusal(table_name: Seq<char>, row_id: Seq<char>) -> Option<BackendError> {
    if parsed_uuid(row_id) is None {
        Some(BackendError::InvalidInput)
    } else if table_in(DbSelection::PostsDb, table_name) is None {
        Some(BackendError::NotFound)
    } else {
        None
    }
}

/// The removal of a row of the key-value store that can be deleted.
pub open spec fn content_row_removal(table_name: Seq<char>, row_id: Seq<char>) -> KvWriteView {
    row_removal(
        table_in(DbSelection::PostsDb, table_name)->0,
        PostId { value: parsed_uuid(row_id)->0 },
    )
}

fn plan_content_removal(table_name: &str, row_id: &str) -> (r: Result<KvWrite, BackendError>)
    ensures
        match r {
            Ok(w) => content_row_refusal(table_name@, row_id@) is None && w@ == content_row_removal(
                table_name@,
                row_id@,
            ),
            Err(e) => content_row_refusal(table_name@, row_id@) == Some(e),
        },
{
    let id = match PostId::parse(row_id) {
        Ok(id) => id,
        Err(_) => {
            return Err(BackendError::InvalidInput);
        },
    };
    match find_table(DbSelection::PostsDb, table_name) {
        Some(LogicalTable::Posts) => Ok(KvWrite::RemoveContent { shelf: Shelf::Published, id }),
        Some(LogicalTable::Metadata) => Ok(KvWrite::RemoveMetadata { shelf: Shelf::Published, id }),
        Some(LogicalTable::PendingPosts) => Ok(KvWrite::RemoveContent { shelf: Shelf::Pending, id }),
        Some(_) => Ok(KvWrite::RemoveMetadata { shelf: Shelf::Pending, id }),
        None => Err(BackendError::NotFound),
    }
}

/// The names and identifiers of the rows to delete: the main row first,
/// then the dependents in the order in which the caller chose them.
pub open spec fn targets(table_name: Seq<char>, row_id: Seq<char>, dependents: Seq<DependentToDelete>) -> Seq<
    (Seq<char>, Seq<char>),
> {
    seq![(table_name, row_id)] + Seq::new(
        dependents.len(),
        |i: int| (dependents[i].table_name@, dependents[i].row_id@),
    )
}

/// Plans the deletion of a row of the key-value store and of exactly the
/// dependents that the caller chose, as one transaction. Nothing is deleted
/// unless every row can be.
pub fn delete_redb_rows(main_table: &str, main_row_id: &str, dependents: &Vec<DependentToDelete>) -> (r: Result<
    Vec<KvWrite>,
    BackendError,
>)
    ensures
        match r {
            Ok(out) => {
                let all = targets(main_table@, main_row_id@, dependents@);
                &&& batch(out@).len() == all.len()
                &&& forall|i: int|
                    0 <= i < all.len() ==> content_row_refusal(all[i].0, all[i].1) is None
                        && #[trigger] batch(out@)[i] == content_row_removal(all[i].0, all[i].1)
            },
            Err(e) => {
                let all = targets(main_table@, main_row_id@, dependents@);
                exists|i: int|
                    0 <= i < all.len() && #[trigger] content_row_refusal(all[i].0, all[i].1)
                        == Some(e) && forall|k: int|
                        0 <= k < i ==> content_row_refusal(all[k].0, all[k].1) is None
            },
        },
{
    let ghost all = targets(main_table@, main_row_id@, dependents@);
    let mut out: Vec<KvWrite> = Vec::new();
    match plan_content_removal(main_table, main_row_id) {
        Ok(w) => {
            push_write(&mut out, w);
        },
        Err(e) => {
            assert(content_row_refusal(all[0].0, all[0].1) == Some(e));
            return Err(e);
        },
    }
    let mut i: usize = 0;
    while i < dependents.len()
        invariant
            i <= dependents.len(),
            all == targets(main_table@, main_row_id@, dependents@),
            batch(out@).len() == i + 1,
            forall|k: int|
                0 <= k < i + 1 ==> #[trigger] content_row_refusal(all[k].0, all[k].1) is None,
            forall|k: int|
                0 <= k < i + 1 ==> #[trigger] batch(out@)[k] == content_row_removal(
                    all[k].0,
                    all[k].1,
                ),
        decreases dependents.len() - i,
    {
        let dep = &dependents[i];
        assert(all[i + 1] == (dep.table_name@, dep.row_id@));
        match plan_content_removal(dep.table_name.as_str(), dep.row_id.as_str()) {
            Ok(w) => {
                push_write(&mut out, w);
            },
            Err(e) => {
                assert(content_row_refusal(all[i + 1].0, all[i + 1].1) == Some(e));
                return Err(e);
            },
        }
        i += 1;
    }
    Ok(out)
}

/// Plans the deletion of a row of the relational store and of exactly the
/// dependents that the caller chose, as one transaction. A table that the
/// relational store does not have is `InvalidInput`, and then nothing is
/// deleted.
pub fn delete_sqlite_rows(main_table: &str, main_row_id: &str, dependents: &Vec<DependentToDelete>) -> (r: Result<
    Vec<RowRef>,
    BackendError,
>)
    ensures
        match r {
            Ok(out) => {
                let all = targets(main_table@, main_row_id@, dependents@);
                &&& out@.len() == all.len()
                &&& forall|i: int|
                    0 <= i < all.len() ==> table_in(DbSelection::ContributorDb, all[i].0) == Some(
                        (#[trigger] out@[i]).table,
                    ) && out@[i].row_id@ == all[i].1
            },
            Err(e) => {
                let all = targets(main_table@, main_row_id@, dependents@);
                e == BackendError::InvalidInput && exists|i: int|
                    0 <= i < all.len() && #[trigger] table_in(DbSelection::ContributorDb, all[i].0)
                        is None
            },
        },
{
    let ghost all = targets(main_table@, main_row_id@, dependents@);
    let mut out: Vec<RowRef> = Vec::new();
    match find_table(DbSelection::ContributorDb, main_table) {
        Some(table) => {
            out.push(RowRef { table, row_id: main_row_id.to_owned() });
        },
        None => {
            assert(table_in(DbSelection::ContributorDb, all[0].0) is None);
            return Err(BackendError::InvalidInput);
        },
    }
    let mut i: usize = 0;
    while i < dependents.len()
        invariant
            i <= dependents.len(),
            all == targets(main_table@, main_row_id@, dependents@),
            out@.len() == i + 1,
            forall|k: int|
                0 <= k < i + 1 ==> table_in(DbSelection::ContributorDb, all[k].0) == Some(
                    (#[trigger] out@[k]).table,
                ) && out@[k].row_id@ == all[k].1,
        decreases dependents.len() - i,
    {
        let dep = &dependents[i];
        assert(all[i + 1] == (dep.table_name@, dep.row_id@));
        match find_table(DbSelection::ContributorDb, dep.table_name.as_str()) {
            Some(table) => {
                out.push(RowRef { table, row_id: dep.row_id.clone() });
            },
            None => {
                assert(table_in(DbSelection::ContributorDb, all[i + 1].0) is None);
                return Err(BackendError::InvalidInput);
            },
        }
        i += 1;
    }
    Ok(out)
}

/// Whether `out` removes exactly the rows `all` of the key-value store, in
/// their order.
pub open spec fn removes_rows(out: Seq<KvWriteView>, all: Seq<(Seq<char>, Seq<char>)>) -> bool {
    &&& out.len() == all.len()
    &&& forall|i: int|
        0 <= i < all.len() ==> content_row_refusal(all[i].0, all[i].1) is None && #[trigger] out[i]
            == content_row_removal(all[i].0, all[i].1)
}

/// Whether `e` is why the first of the rows `all` that cannot be deleted
/// from the key-value store cannot be.
pub open spec fn refuses_rows(e: BackendError, all: Seq<(Seq<char>, Seq<char>)>) -> bool {
    exists|i: int|
        0 <= i < all.len() && #[trigger] content_row_refusal(all[i].0, all[i].1) == Some(e)
            && forall|k: int| 0 <= k < i ==> content_row_refusal(all[k].0, all[k].1) is None
}

/// Whether `rows` addresses exactly the rows `all` of the relational store,
/// in their order.
pub open spec fn addresses_rows(rows: Seq<RowRef>, all: Seq<(Seq<char>, Seq<char>)>) -> bool {
    &&& rows.len() == all.len()
    &&& forall|i: int|
        0 <= i < all.len() ==> table_in(DbSelection::ContributorDb, all[i].0) == Some(
            (#[trigger] rows[i]).table,
        ) && rows[i].row_id@ == all[i].1
}

/// Whether one of the rows `all` names a table that the relational store
/// does not have.
pub open spec fn names_foreign_table(all: Seq<(Seq<char>, Seq<char>)>) -> bool {
    exists|i: int|
        0 <= i < all.len() && #[trigger] table_in(DbSelection::ContributorDb, all[i].0) is None
}

/// Plans the deletion of a row and of exactly the dependents that the
/// caller chose, in the store that the request names. The browser never
/// adds a dependent of its own, and it deletes nothing unless every row
/// can be deleted.
pub fn delete_table_rows(request: &DeleteRowRequest) -> (r: Result<DeletionPlan, BackendError>)
    ensures
        ({
            let all = targets(request.table_name@, request.row_id@, request.dependents@);
            match (request.db_selection, r) {
                (DbSelection::PostsDb, Ok(DeletionPlan::Content { writes })) => removes_rows(
                    batch(writes@),
                    all,
                ),
                (DbSelection::PostsDb, Err(e)) => refuses_rows(e, all),
                (DbSelection::ContributorDb, Ok(DeletionPlan::Relational { rows })) => addresses_rows(
                    rows@,
                    all,
                ),
                (DbSelection::ContributorDb, Err(e)) => e == BackendError::InvalidInput
                    && names_foreign_table(all),
                _ => false,
            }
        }),
{
    match request.db_selection {
        DbSelection::PostsDb => {
            match delete_redb_rows(
                request.table_name.as_str(),
                request.row_id.as_str(),
                &request.dependents,
            ) {
                Ok(writes) => Ok(DeletionPlan::Content { writes }),
                Err(e) => Err(e),
            }
        },
        DbSelection::ContributorDb => {
            match delete_sqlite_rows(
                request.table_name.as_str(),
                request.row_id.as_str(),
                &request.dependents,
            ) {
                Ok(rows) => Ok(DeletionPlan::Relational { rows }),
                Err(e) => Err(e),
            }
        },
    }
}

/// The tables that a request to empty a table empties, or why it is
/// refused. The administrator's password is checked again first: no
/// account or a password that its hash does not accept is
/// `InvalidCredentials`. A table that the schema does not mark as cleanable
/// is `Forbidden`, and so is a name that is no table. A table of the other
/// store is `NotFound`. With `clean_dependents` the declared dependencies
/// follow the table.
pub open spec fn cleaning(
    stored_hash: Option<Seq<char>>,
    password: Seq<char>,
    db: DbSelection,
    table_name: Seq<char>,
    clean_dependents: bool,
) -> Result<Seq<LogicalTable>, BackendError> {
    if !(stored_hash matches Some(h) && accepts(password, h)) {
        Err(BackendError::InvalidCredentials)
    } else {
        match table_named(table_name) {
            None => Err(BackendError::Forbidden),
            Some(t) => if !is_cleanable(t) {
                Err(BackendError::Forbidden)
            } else if store_of(t) != db {
                Err(BackendError::NotFound)
            } else if clean_dependents {
                Ok(seq![t] + dependencies_of(t))
            } else {
                Ok(seq![t])
            },
        }
    }
}

/// Decides a request to empty a table. `stored_hash` is the password hash
/// of the requesting administrator's account, where there is such an
/// account.
pub fn clean_table_with_auth(
    stored_hash: Option<&str>,
    admin_password_attempt: &str,
    db_selection: DbSelection,
    table_name: &str,
    clean_dependents: bool,
) -> (r: Result<Vec<LogicalTable>, BackendError>)
    ensures
        match r {
            Ok(tables) => cleaning(
                crate::content::opt_str(stored_hash),
                admin_password_attempt@,
                db_selection,
                table_name@,
                clean_dependents,
            ) == Ok::<Seq<LogicalTable>, BackendError>(tables@),
            Err(e) => cleaning(
                crate::content::opt_str(stored_hash),
                admin_password_attempt@,
                db_selection,
                table_name@,
                clean_dependents,
            ) == Err::<Seq<LogicalTable>, BackendError>(e),
        },
{
    let valid = match stored_hash {
        Some(h) => password_matches(admin_password_attempt, h),
        None => false,
    };
    if !valid {
        return Err(BackendError::InvalidCredentials);
    }
    match LogicalTable::from_name(table_name) {
        None => Err(BackendError::Forbidden),
        Some(t) => {
            if !t.cleanable() {
                Err(BackendError::Forbidden)
            } else if t.store() != db_selection {
                Err(BackendError::NotFound)
            } else {
                let mut tables: Vec<LogicalTable> = Vec::new();
                tables.push(t);
                if clean_dependents {
                    let mut deps = t.dependencies();
                    tables.append(&mut deps);
                }
                assert(tables@ =~= if clean_dependents {
                    seq![t] + dependencies_of(t)
                } else {
                    seq![t]
                });
                Ok(tables)
            }
        },
    }
}

/// Whether the schema allows the cell of `column` in table `table_name` to
/// be edited.
pub open spec fn editable(table_name: Seq<char>, column: Seq<char>) -> bool {
    table_named(table_name) matches Some(t) && editable_columns_of(t).contains(column)
}

/// Admits a request to change a cell: the table and column must be on the
/// schema's list of editable cells, or the request is `Forbidden`; a table
/// of the other store is `NotFound`.
pub fn update_table_cell(db_selection: DbSelection, table_name: &str, column_name: &str) -> (r: Result<
    LogicalTable,
    BackendError,
>)
    ensures
        match r {
            Ok(t) => editable(table_name@, column_name@) && table_named(table_name@) == Some(t)
                && store_of(t) == db_selection,
            Err(e) => if !editable(table_name@, column_name@) {
                e == BackendError::Forbidden
            } else {
                e == BackendError::NotFound && store_of(table_named(table_name@)->0)
                    != db_selection
            },
        },
{
    match LogicalTable::from_name(table_name) {
        None => Err(BackendError::Forbidden),
        Some(t) => {
            if !t.allows_edit(column_name) {
                Err(BackendError::Forbidden)
            } else if t.store() != db_selection {
                Err(BackendError::NotFound)
            } else {
                Ok(t)
            }
        },
    }
}

/// The metadata after the field `column` is set to `value`, for the four
/// fields that can be set: title, summary, tags and cover image. Tags are
/// split on commas and trimmed; an empty cover image is no cover image.
pub open spec fn field_set(meta: MetadataView, column: Seq<char>, value: Seq<char>) -> Option<MetadataView> {
    if column == "title"@ {
        Some(MetadataView { title: value, ..meta })
    } else if column == "summary"@ {
        Some(MetadataView { summary: value, ..meta })
    } else if column == "tags"@ {
        Some(MetadataView { tags: trimmed_pieces(value, ','), ..meta })
    } else if column == "cover_image"@ {
        Some(
            MetadataView {
                cover_image: if value.len() > 0 {
                    Some(value)
                } else {
                    None
                },
                ..meta
            },
        )
    } else {
        None
    }
}

/// Sets one field of a post's metadata. A column that is none of the four
/// is `InvalidInput`.
pub fn set_metadata_field(metadata: PostMetadata, column_name: &str, new_value: &str) -> (r: Result<
    PostMetadata,
    BackendError,
>)
    ensures
        match r {
            Ok(m) => field_set(metadata@, column_name@, new_value@) == Some(m@),
            Err(e) => e == BackendError::InvalidInput && field_set(
                metadata@,
                column_name@,
                new_value@,
            ) is None,
        },
{
    let mut m = metadata;
    if same_text(column_name, "title") {
        m.title = new_value.to_owned();
        Ok(m)
    } else if same_text(column_name, "summary") {
        m.summary = new_value.to_owned();
        Ok(m)
    } else if same_text(column_name, "tags") {
        m.tags = split_trimmed(new_value, ',');
        Ok(m)
    } else if same_text(column_name, "cover_image") {
        m.cover_image = if new_value.is_empty() {
            None
        } else {
            Some(new_value.to_owned())
        };
        Ok(m)
    } else {
        Err(BackendError::InvalidInput)
    }
}

/// The shelf of a content or metadata table.
pub open spec fn shelf_of(t: LogicalTable) -> Shelf {
    if t == LogicalTable::Posts || t == LogicalTable::Metadata {
        Shelf::Published
    } else {
        Shelf::Pending
    }
}

/// The write that a cell edit in the key-value store makes, or why it is
/// refused: an identifier that is none and an edit target that is not
/// supported are `InvalidInput`; a table of the other store and a missing
/// row are `NotFound`; metadata that cannot be read is `StoreError`. An edit
/// of tags writes the metadata only: the tag index is not touched.
pub open spec fn cell_edit(
    table: LogicalTable,
    row_id: Seq<char>,
    column: Seq<char>,
    value: Seq<char>,
    present: bool,
    decoded: MetaReadView,
) -> Result<KvWriteView, BackendError> {
    let id = PostId { value: parsed_uuid(row_id)->0 };
    if parsed_uuid(row_id) is None {
        Err(BackendError::InvalidInput)
    } else if store_of(table) != DbSelection::PostsDb {
        Err(BackendError::NotFound)
    } else if !present {
        Err(BackendError::NotFound)
    } else if holds_metadata(table) {
        match decoded {
            MetaReadView::Found(m) => match field_set(m, column, value) {
                Some(edited) => Ok(
                    KvWriteView::PutMetadata { shelf: shelf_of(table), id, metadata: edited },
                ),
                None => Err(BackendError::InvalidInput),
            },
            MetaReadView::Corrupt => Err(BackendError::StoreError),
            MetaReadView::Absent => Err(BackendError::NotFound),
        }
    } else if column == "value"@ {
        Ok(KvWriteView::PutContent { shelf: shelf_of(table), id, content: value })
    } else {
        Err(BackendError::InvalidInput)
    }
}

fn shelf(t: LogicalTable) -> (s: Shelf)
    ensures
        s == shelf_of(t),
{
    match t {
        LogicalTable::Posts => Shelf::Published,
        LogicalTable::Metadata => Shelf::Published,
        _ => Shelf::Pending,
    }
}

/// Plans a cell edit in the key-value store. `present` says whether the row
/// is there, and `decoded` is the metadata it holds, for a metadata table.
pub fn update_redb_cell(
    table: LogicalTable,
    row_id: &str,
    column_name: &str,
    new_value: &str,
    present: bool,
    decoded: MetaRead,
) -> (r: Result<KvWrite, BackendError>)
    ensures
        match r {
            Ok(w) => cell_edit(table, row_id@, column_name@, new_value@, present, decoded@) == Ok::<
                KvWriteView,
                BackendError,
            >(w@),
            Err(e) => cell_edit(table, row_id@, column_name@, new_value@, present, decoded@)
                == Err::<KvWriteView, BackendError>(e),
        },
{
    let id = match PostId::parse(row_id) {
        Ok(id) => id,
        Err(_) => {
            return Err(BackendError::InvalidInput);
        },
    };
    if table.store() != DbSelection::PostsDb || !present {
        return Err(BackendError::NotFound);
    }
    if table.is_metadata() {
        match decoded {
            MetaRead::Found(m) => match set_metadata_field(m, column_name, new_value) {
                Ok(metadata) => Ok(KvWrite::PutMetadata { shelf: shelf(table), id, metadata }),
                Err(e) => Err(e),
            },
            MetaRead::Corrupt => Err(BackendError::StoreError),
            MetaRead::Absent => Err(BackendError::NotFound),
        }
    } else if same_text(column_name, "value") {
        Ok(KvWrite::PutContent { shelf: shelf(table), id, content: new_value.to_owned() })
    } else {
        Err(BackendError::InvalidInput)
    }
}

/// A cell of the relational store to set.
#[derive(Debug)]
pub struct CellUpdate {
    pub table: LogicalTable,
    pub column: String,
    /// The column by which the row is addressed.
    pub key_column: String,
    pub row_id: String,
    pub value: String,
}

/// Plans a cell edit in the relational store. The table and the column must
/// be on the schema's list of editable cells, so that no other name reaches
/// the store; anything else is `InvalidInput`.
pub fn update_sqlite_cell(table_name: &str, row_id: &str, column_name: &str, value: &str) -> (r: Result<
    CellUpdate,
    BackendError,
>)
    ensures
        match r {
            Ok(u) => table_in(DbSelection::ContributorDb, table_name@) == Some(u.table)
                && editable_columns_of(u.table).contains(column_name@) && u.column@ == column_name@
                && u.key_column@ == key_column_of(u.table) && u.row_id@ == row_id@ && u.value@
                == value@,
            Err(e) => e == BackendError::InvalidInput && !(table_in(
                DbSelection::ContributorDb,
                table_name@,
            ) matches Some(t) && editable_columns_of(t).contains(column_name@)),
        },
{
    match find_table(DbSelection::ContributorDb, table_name) {
        Some(table) => {
            if table.allows_edit(column_name) {
                Ok(
                    CellUpdate {
                        table,
                        column: column_name.to_owned(),
                        key_column: table.key_column().to_owned(),
                        row_id: row_id.to_owned(),
                        value: value.to_owned(),
                    },
                )
            } else {
                Err(BackendError::InvalidInput)
            }
        },
        None => Err(BackendError::InvalidInput),
    }
}

/// A value of the relational store.
#[derive(Debug)]
pub enum SqlValue {
    Null,
    Integer(i64),
    /// A floating-point number, as the store's driver writes it.
    Real(String),
    Text(String),
    /// Binary data, which is not shown.
    Blob,
}

/// A whole number written in decimal, with a minus sign where it is
/// negative.
pub open spec fn integer_text(i: i64) -> Seq<char> {
    if i < 0 {
        seq!['-'] + decimal((0 - i) as nat)
    } else {
        decimal(i as nat)
    }
}

/// The text under which a value of the relational store is shown: nothing
/// for a missing value, a remark for binary data.
pub open spec fn shown_value(value: SqlValue) -> Seq<char> {
    match value {
        SqlValue::Null => Seq::empty(),
        SqlValue::Integer(i) => integer_text(i),
        SqlValue::Real(text) => text@,
        SqlValue::Text(text) => text@,
        SqlValue::Blob => "[BLOB]"@,
    }
}

/// Writes a value of the relational store for display.
pub fn cell_text(value: SqlValue) -> (out: String)
    ensures
        out@ == shown_value(value),
{
    match value {
        SqlValue::Null => String::new(),
        SqlValue::Integer(i) => {
            if i < 0 {
                let magnitude: u64 = (0 - (i as i128)) as u64;
                let mut out: Vec<char> = Vec::new();
                out.push('-');
                let mut digits = decimal_chars(magnitude);
                out.append(&mut digits);
                assert(out@ =~= seq!['-'] + decimal((0 - i) as nat));
                string_of(&out)
            } else {
                string_of(&decimal_chars(i as u64))
            }
        },
        SqlValue::Real(text) => text,
        SqlValue::Text(text) => text,
        SqlValue::Blob => "[BLOB]".to_owned(),
    }
}

/// The cells of a row of the relational store: each value under the name
/// of its column, for as many columns as have both.
pub open spec fn named_cells(names: Seq<String>, values: Seq<SqlValue>) -> Seq<(Seq<char>, Seq<char>)> {
    Seq::new(
        if names.len() <= values.len() {
            names.len()
        } else {
            values.len()
        },
        |i: int| (names[i]@, shown_value(values[i])),
    )
}

/// Builds the cells of a row of the relational store.
pub fn relational_row(names: &Vec<String>, values: Vec<SqlValue>) -> (row: Vec<Cell>)
    ensures
        cells(row@) == named_cells(names@, values@),
{
    let mut row: Vec<Cell> = Vec::new();
    for value in it: values
        invariant
            it.seq() == values@,
            row@.len() == if it.index() <= names@.len() {
                it.index() as int
            } else {
                names@.len() as int
            },
            forall|k: int|
                0 <= k < row@.len() ==> (#[trigger] row@[k]).column@ == names@[k]@ && row@[k].value@
                    == shown_value(values@[k]),
    {
        let at = row.len();
        if at < names.len() {
            let text = cell_text(value);
            row.push(Cell { column: names[at].clone(), value: text });
        }
    }
    assert(cells(row@) =~= named_cells(names@, values@));
    row
}

/// A request to empty a table that is not marked as cleanable is refused
/// whatever the password.
pub proof fn lemma_uncleanable_table_is_never_emptied(
    stored_hash: Option<Seq<char>>,
    password: Seq<char>,
    db: DbSelection,
    table_name: Seq<char>,
    clean_dependents: bool,
)
    requires
        table_named(table_name) matches Some(t) ==> !is_cleanable(t),
    ensures
        cleaning(stored_hash, password, db, table_name, clean_dependents) is Err,
{
}

/// Every table that a request empties is cleanable and lives in the chosen
/// store.
pub proof fn lemma_emptied_tables_are_cleanable(
    stored_hash: Option<Seq<char>>,
    password: Seq<char>,
    db: DbSelection,
    table_name: Seq<char>,
    clean_dependents: bool,
    i: int,
)
    requires
        cleaning(stored_hash, password, db, table_name, clean_dependents) is Ok,
        0 <= i < cleaning(stored_hash, password, db, table_name, clean_dependents)->Ok_0.len(),
    ensures
        is_cleanable(cleaning(stored_hash, password, db, table_name, clean_dependents)->Ok_0[i]),
        store_of(cleaning(stored_hash, password, db, table_name, clean_dependents)->Ok_0[i]) == db,
{
    let t = table_named(table_name)->0;
    if i > 0 {
        crate::schema::lemma_dependencies_stay_in_store(t, i - 1);
    }
}

} // verus!
