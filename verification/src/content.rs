//! The content store adapter: each operation on the four content tables as
//! one planned transaction.
//!
//! The caller opens a transaction, reads the rows of the post, hands them to
//! the operation, applies the writes it gets back and commits. An operation
//! that refuses returns an error and plans nothing, so nothing is written.

use vstd::prelude::*;
use crate::error::BackendError;
use crate::ident::{parsed_uuid, PostId};
use crate::index::{add_to_indices, remove_from_indices};
use crate::kv::{batch, push_write, KvState, KvWrite, KvWriteView, Shelf};
use crate::model::{FullPost, FullPostView, MetadataView, PostMetadata, PostSummary, SummaryView, Timestamp};
use crate::tags::{display_tags, display_tokens};
use crate::text::{chars_of, lowercase, string_of, to_lower, trim_chars, trim_spec};

verus! {

/// What a read of a metadata table found under one identifier.
#[derive(Debug)]
pub enum MetaRead {
    /// No row.
    Absent,
    /// A row whose text could not be decoded.
    Corrupt,
    /// A row, decoded.
    Found(PostMetadata),
}

/// The rows of one post in one pair of tables.
#[derive(Debug)]
pub struct ShelfRows {
    pub content: Option<String>,
    pub metadata: MetaRead,
}

/// The rows of one post in the four content tables, as one transaction sees
/// them.
#[derive(Debug)]
pub struct PostRows {
    pub published: ShelfRows,
    pub pending: ShelfRows,
}

/// The value of a `MetaRead`.
pub enum MetaReadView {
    Absent,
    Corrupt,
    Found(MetadataView),
}

impl View for MetaRead {
    type V = MetaReadView;

    open spec fn view(&self) -> MetaReadView {
        match *self {
            MetaRead::Absent => MetaReadView::Absent,
            MetaRead::Corrupt => MetaReadView::Corrupt,
            MetaRead::Found(m) => MetaReadView::Found(m@),
        }
    }
}

/// The value of a `ShelfRows`.
pub struct ShelfRowsView {
    pub content: Option<Seq<char>>,
    pub metadata: MetaReadView,
}

impl View for ShelfRows {
    type V = ShelfRowsView;

    open spec fn view(&self) -> ShelfRowsView {
        ShelfRowsView { content: crate::model::opt_text(self.content), metadata: self.metadata@ }
    }
}

impl KvState {
    /// The rows that a read of `shelf` finds for `id`.
    pub open spec fn rows(self, shelf: Shelf, id: PostId) -> ShelfRowsView {
        ShelfRowsView {
            content: if self.contents(shelf).contains_key(id) {
                Some(self.contents(shelf)[id])
            } else {
                None
            },
            metadata: if self.metas(shelf).contains_key(id) {
                MetaReadView::Found(self.metas(shelf)[id])
            } else {
                MetaReadView::Absent
            },
        }
    }
}

impl ShelfRows {
    /// Whether these rows are what `s` holds for `id` on `shelf`.
    pub open spec fn reflects(self, s: KvState, shelf: Shelf, id: PostId) -> bool {
        &&& match self.content {
            Some(c) => s.contents(shelf).contains_key(id) && s.contents(shelf)[id] == c@,
            None => !s.contents(shelf).contains_key(id),
        }
        &&& match self.metadata {
            MetaRead::Found(m) => s.metas(shelf).contains_key(id) && s.metas(shelf)[id] == m@,
            MetaRead::Absent => !s.metas(shelf).contains_key(id),
            MetaRead::Corrupt => false,
        }
    }

    /// Whether content and metadata are both there and readable.
    pub open spec fn complete(self) -> bool {
        self.content is Some && self.metadata is Found
    }
}

impl PostRows {
    /// Whether these rows are what `s` holds for `id`.
    pub open spec fn reflects(self, s: KvState, id: PostId) -> bool {
        self.published.reflects(s, Shelf::Published, id) && self.pending.reflects(
            s,
            Shelf::Pending,
            id,
        )
    }
}

impl KvState {
    /// The state with content and metadata of `id` stored on `shelf`.
    pub open spec fn put(self, shelf: Shelf, id: PostId, content: Seq<char>, meta: MetadataView) -> KvState {
        self.with_contents(shelf, self.contents(shelf).insert(id, content)).with_metas(
            shelf,
            self.metas(shelf).insert(id, meta),
        )
    }

    /// The state with content and metadata of `id` removed from `shelf`.
    pub open spec fn without(self, shelf: Shelf, id: PostId) -> KvState {
        self.with_contents(shelf, self.contents(shelf).remove(id)).with_metas(
            shelf,
            self.metas(shelf).remove(id),
        )
    }
}

/// The value of an optional string slice.
pub open spec fn opt_str(s: Option<&str>) -> Option<Seq<char>> {
    match s {
        Some(t) => Some(t@),
        None => None,
    }
}

/// The metadata that a submission or an edit gives a post. Tags and keywords
/// are kept as written: split on commas, trimmed, empty ones dropped.
pub open spec fn drafted(
    created_at: Timestamp,
    last_updated_at: Option<Timestamp>,
    title: Seq<char>,
    summary: Seq<char>,
    tags_str: Seq<char>,
    search_keywords_str: Seq<char>,
    cover_image: Option<Seq<char>>,
    has_call_to_action: Option<bool>,
) -> MetadataView {
    MetadataView {
        title,
        created_at,
        last_updated_at,
        summary,
        tags: display_tokens(tags_str),
        cover_image,
        has_call_to_action,
        search_keywords: Some(display_tokens(search_keywords_str)),
    }
}

/// Builds the metadata that a submission or an edit gives a post.
pub fn draft_metadata(
    created_at: Timestamp,
    last_updated_at: Option<Timestamp>,
    title: &str,
    summary: &str,
    tags_str: &str,
    search_keywords_str: &str,
    cover_image: Option<&str>,
    has_call_to_action: Option<bool>,
) -> (out: PostMetadata)
    ensures
        out@ == drafted(
            created_at,
            last_updated_at,
            title@,
            summary@,
            tags_str@,
            search_keywords_str@,
            opt_str(cover_image),
            has_call_to_action,
        ),
{
    let cover = match cover_image {
        Some(c) => Some(c.to_owned()),
        None => None,
    };
    PostMetadata {
        title: title.to_owned(),
        created_at,
        last_updated_at,
        summary: summary.to_owned(),
        tags: display_tags(tags_str),
        cover_image: cover,
        has_call_to_action,
        search_keywords: Some(display_tags(search_keywords_str)),
    }
}

/// Plans the two writes that store a post on a shelf.
fn push_post(out: &mut Vec<KvWrite>, shelf: Shelf, id: PostId, content: String, metadata: PostMetadata)
    ensures
        forall|s: KvState| #[trigger]
            s.apply_all(batch(final(out)@)) == s.apply_all(batch(old(out)@)).put(
                shelf,
                id,
                content@,
                metadata@,
            ),
{
    let ghost c = content@;
    let ghost m = metadata@;
    let ghost start = batch(out@);
    push_write(out, KvWrite::PutContent { shelf, id, content });
    let ghost mid = batch(out@);
    push_write(out, KvWrite::PutMetadata { shelf, id, metadata });
    assert forall|s: KvState| #[trigger]
        s.apply_all(batch(out@)) == s.apply_all(start).put(shelf, id, c, m) by {
        let base = s.apply_all(start);
        assert(s.apply_all(mid) == base.apply(KvWriteView::PutContent { shelf, id, content: c }));
        assert(s.apply_all(batch(out@)) =~= base.put(shelf, id, c, m));
    }
}

/// Plans the two writes that remove a post from a shelf.
fn push_removal(out: &mut Vec<KvWrite>, shelf: Shelf, id: PostId)
    ensures
        forall|s: KvState| #[trigger]
            s.apply_all(batch(final(out)@)) == s.apply_all(batch(old(out)@)).without(shelf, id),
{
    let ghost start = batch(out@);
    push_write(out, KvWrite::RemoveContent { shelf, id });
    let ghost mid = batch(out@);
    push_write(out, KvWrite::RemoveMetadata { shelf, id });
    assert forall|s: KvState| #[trigger]
        s.apply_all(batch(out@)) == s.apply_all(start).without(shelf, id) by {
        let base = s.apply_all(start);
        assert(s.apply_all(mid) == base.apply(KvWriteView::RemoveContent { shelf, id }));
        assert(s.apply_all(batch(out@)) =~= base.without(shelf, id));
    }
}

/// An empty batch, which changes nothing.
fn new_batch() -> (out: Vec<KvWrite>)
    ensures
        out@.len() == 0,
        forall|s: KvState| #[trigger] s.apply_all(batch(out@)) == s,
{
    Vec::new()
}

/// Plans the creation of a pending post: content and metadata go to the
/// pending tables. Pending posts are never indexed.
pub fn create_pending_post(
    post_id: PostId,
    created_at: Timestamp,
    title: &str,
    summary: &str,
    content: &str,
    tags_str: &str,
    search_keywords_str: &str,
    cover_image: Option<&str>,
    has_call_to_action: Option<bool>,
) -> (out: Vec<KvWrite>)
    ensures
        forall|s: KvState| #[trigger]
            s.apply_all(batch(out@)) == s.put(
                Shelf::Pending,
                post_id,
                content@,
                drafted(
                    created_at,
                    None,
                    title@,
                    summary@,
                    tags_str@,
                    search_keywords_str@,
                    opt_str(cover_image),
                    has_call_to_action,
                ),
            ),
{
    let metadata = draft_metadata(
        created_at,
        None,
        title,
        summary,
        tags_str,
        search_keywords_str,
        cover_image,
        has_call_to_action,
    );
    let mut out = new_batch();
    push_post(&mut out, Shelf::Pending, post_id, content.to_owned(), metadata);
    out
}

/// Plans the removal of a pending post. A post that is not there is no error.
pub fn delete_pending_post(post_id: PostId) -> (out: Vec<KvWrite>)
    ensures
        forall|s: KvState| #[trigger]
            s.apply_all(batch(out@)) == s.without(Shelf::Pending, post_id),
{
    let mut out = new_batch();
    push_removal(&mut out, Shelf::Pending, post_id);
    out
}

/// When an edit of the post on `shelf` is refused, and why: a missing row is
/// `NotFound`, metadata that cannot be read is `StoreError`.
pub open spec fn edit_refusal(rows: ShelfRows) -> Option<BackendError> {
    if rows.content is None || rows.metadata is Absent {
        Some(BackendError::NotFound)
    } else if rows.metadata is Corrupt {
        Some(BackendError::StoreError)
    } else {
        None
    }
}

/// Plans an edit of a pending post. The creation time of the stored metadata
/// is kept and `now` becomes the time of the last update.
pub fn update_pending_post(
    rows: &PostRows,
    post_id: PostId,
    now: Timestamp,
    title: &str,
    summary: &str,
    content: &str,
    tags_str: &str,
    search_keywords_str: &str,
    cover_image: Option<&str>,
    has_call_to_action: Option<bool>,
) -> (r: Result<Vec<KvWrite>, BackendError>)
    ensures
        match r {
            Ok(out) => rows.pending.metadata matches MetaRead::Found(old) && edit_refusal(
                rows.pending,
            ) is None && forall|s: KvState| #[trigger]
                s.apply_all(batch(out@)) == s.put(
                    Shelf::Pending,
                    post_id,
                    content@,
                    drafted(
                        old@.created_at,
                        Some(now),
                        title@,
                        summary@,
                        tags_str@,
                        search_keywords_str@,
                        opt_str(cover_image),
                        has_call_to_action,
                    ),
                ),
            Err(e) => edit_refusal(rows.pending) == Some(e),
        },
{
    if rows.pending.content.is_none() {
        return Err(BackendError::NotFound);
    }
    match &rows.pending.metadata {
        MetaRead::Absent => Err(BackendError::NotFound),
        MetaRead::Corrupt => Err(BackendError::StoreError),
        MetaRead::Found(old) => {
            let metadata = draft_metadata(
                old.created_at,
                Some(now),
                title,
                summary,
                tags_str,
                search_keywords_str,
                cover_image,
                has_call_to_action,
            );
            let mut out = new_batch();
            push_post(&mut out, Shelf::Pending, post_id, content.to_owned(), metadata);
            Ok(out)
        },
    }
}

/// The post that a read of one shelf gives: its content with its metadata,
/// under the identifier text that was asked for. There is no post where the
/// text is no identifier, a row is missing or the metadata cannot be read.
pub open spec fn post_read(id: Seq<char>, rows: ShelfRows) -> Option<FullPostView> {
    match (parsed_uuid(id), rows.content, rows.metadata) {
        (Some(_), Some(c), MetaRead::Found(m)) => Some(
            FullPostView { id, metadata: m@, content: c@ },
        ),
        _ => None,
    }
}

fn assemble(id: &str, rows: ShelfRows) -> (r: Option<FullPost>)
    ensures
        match r {
            Some(post) => post_read(id@, rows) == Some(post@),
            None => post_read(id@, rows) is None,
        },
{
    if PostId::parse(id).is_err() {
        return None;
    }
    match rows.content {
        Some(content) => match rows.metadata {
            MetaRead::Found(metadata) => Some(FullPost { id: id.to_owned(), metadata, content }),
            _ => None,
        },
        None => None,
    }
}

/// The pending post `id`, from its rows in the pending tables.
pub fn read_pending_post(id: &str, rows: ShelfRows) -> (r: Option<FullPost>)
    ensures
        match r {
            Some(post) => post_read(id@, rows) == Some(post@),
            None => post_read(id@, rows) is None,
        },
{
    assemble(id, rows)
}

/// The published post `id`, from its rows in the published tables.
pub fn read_post(id: &str, rows: ShelfRows) -> (r: Option<FullPost>)
    ensures
        match r {
            Some(post) => post_read(id@, rows) == Some(post@),
            None => post_read(id@, rows) is None,
        },
{
    assemble(id, rows)
}

/// What a lookup of one published post by identifier text answers. Text that
/// is no identifier and a missing row are both "no such post"; metadata that
/// cannot be read is a store error.
pub open spec fn summary_read(id: Seq<char>, metadata: MetaRead) -> Result<Option<SummaryView>, BackendError> {
    if parsed_uuid(id) is None {
        Ok(None)
    } else {
        match metadata {
            MetaRead::Absent => Ok(None),
            MetaRead::Corrupt => Err(BackendError::StoreError),
            MetaRead::Found(m) => Ok(Some(SummaryView { id, metadata: m@ })),
        }
    }
}

/// The summary of the published post `id`, from its metadata row.
pub fn read_post_summary_by_id(id: &str, metadata: MetaRead) -> (r: Result<Option<PostSummary>, BackendError>)
    ensures
        match r {
            Ok(Some(p)) => summary_read(id@, metadata) == Ok::<Option<SummaryView>, BackendError>(Some(p@)),
            Ok(None) => summary_read(id@, metadata) == Ok::<Option<SummaryView>, BackendError>(None),
            Err(e) => summary_read(id@, metadata) == Err::<Option<SummaryView>, BackendError>(e),
        },
{
    if PostId::parse(id).is_err() {
        return Ok(None);
    }
    match metadata {
        MetaRead::Absent => Ok(None),
        MetaRead::Corrupt => Err(BackendError::StoreError),
        MetaRead::Found(m) => Ok(Some(PostSummary { id: id.to_owned(), metadata: m })),
    }
}

impl KvState {
    /// The state after a post is published: content and metadata in the
    /// published tables, and every index entry of the post added.
    pub open spec fn published(self, id: PostId, content: Seq<char>, meta: MetadataView) -> KvState {
        self.put(Shelf::Published, id, content, meta).indexed(id, meta)
    }

    /// The state after a published post is taken back for editing: content
    /// and metadata in the pending tables, gone from the published tables,
    /// and every index entry of the post removed.
    pub open spec fn withdrawn(self, id: PostId, content: Seq<char>, meta: MetadataView) -> KvState {
        self.put(Shelf::Pending, id, content, meta).without(Shelf::Published, id).unindexed(
            id,
            meta,
        )
    }

    /// The state after a published post is edited in place: the index
    /// entries of the old metadata removed, the new rows stored, the index
    /// entries of the new metadata added.
    pub open spec fn republished(
        self,
        id: PostId,
        old: MetadataView,
        content: Seq<char>,
        meta: MetadataView,
    ) -> KvState {
        self.unindexed(id, old).put(Shelf::Published, id, content, meta).indexed(id, meta)
    }

    /// The state after a published post is deleted. Its index entries are
    /// removed where its metadata could be read.
    pub open spec fn deleted(self, id: PostId, old: Option<MetadataView>) -> KvState {
        match old {
            Some(m) => self.unindexed(id, m).without(Shelf::Published, id),
            None => self.without(Shelf::Published, id),
        }
    }
}

/// Plans the publication of a post: content and metadata go to the published
/// tables and every index entry is built, as one transaction.
pub fn publish_post(post_id: PostId, content: String, metadata: PostMetadata) -> (out: Vec<KvWrite>)
    ensures
        forall|s: KvState| #[trigger]
            s.apply_all(batch(out@)) == s.published(post_id, content@, metadata@),
{
    let ghost c = content@;
    let ghost m = metadata@;
    let copy = metadata.duplicate();
    let mut out = new_batch();
    push_post(&mut out, Shelf::Published, post_id, content, metadata);
    add_to_indices(post_id, &copy, &mut out);
    out
}

/// Plans the move of a published post back to the pending tables: the rows
/// are copied to the pending tables and removed from the published ones,
/// together with every index entry of the post.
pub fn move_published_to_pending(rows: PostRows, post_id: PostId) -> (r: Result<Vec<KvWrite>, BackendError>)
    ensures
        match r {
            Ok(out) => rows.published.content matches Some(c) && rows.published.metadata matches MetaRead::Found(
                m,
            ) && forall|s: KvState| #[trigger]
                s.apply_all(batch(out@)) == s.withdrawn(post_id, c@, m@),
            Err(e) => edit_refusal(rows.published) == Some(e),
        },
{
    let content = match rows.published.content {
        Some(c) => c,
        None => {
            return Err(BackendError::NotFound);
        },
    };
    match rows.published.metadata {
        MetaRead::Absent => Err(BackendError::NotFound),
        MetaRead::Corrupt => Err(BackendError::StoreError),
        MetaRead::Found(metadata) => {
            let copy = metadata.duplicate();
            let mut out = new_batch();
            push_post(&mut out, Shelf::Pending, post_id, content, metadata);
            push_removal(&mut out, Shelf::Published, post_id);
            remove_from_indices(post_id, &copy, &mut out);
            Ok(out)
        },
    }
}

/// Plans an edit of a published post in place. The index entries of the
/// stored metadata are removed before those of the new metadata are added;
/// the creation time is kept and `now` becomes the time of the last update.
pub fn update_post(
    rows: &PostRows,
    post_id: PostId,
    now: Timestamp,
    title: &str,
    summary: &str,
    content: &str,
    tags_str: &str,
    search_keywords_str: &str,
    cover_image: Option<&str>,
    has_call_to_action: Option<bool>,
) -> (r: Result<Vec<KvWrite>, BackendError>)
    ensures
        match r {
            Ok(out) => rows.published.metadata matches MetaRead::Found(old) && edit_refusal(
                rows.published,
            ) is None && forall|s: KvState| #[trigger]
                s.apply_all(batch(out@)) == s.republished(
                    post_id,
                    old@,
                    content@,
                    drafted(
                        old@.created_at,
                        Some(now),
                        title@,
                        summary@,
                        tags_str@,
                        search_keywords_str@,
                        opt_str(cover_image),
                        has_call_to_action,
                    ),
                ),
            Err(e) => edit_refusal(rows.published) == Some(e),
        },
{
    if rows.published.content.is_none() {
        return Err(BackendError::NotFound);
    }
    match &rows.published.metadata {
        MetaRead::Absent => Err(BackendError::NotFound),
        MetaRead::Corrupt => Err(BackendError::StoreError),
        MetaRead::Found(old) => {
            let metadata = draft_metadata(
                old.created_at,
                Some(now),
                title,
                summary,
                tags_str,
                search_keywords_str,
                cover_image,
                has_call_to_action,
            );
            let copy = metadata.duplicate();
            let mut out = new_batch();
            remove_from_indices(post_id, old, &mut out);
            push_post(&mut out, Shelf::Published, post_id, content.to_owned(), metadata);
            add_to_indices(post_id, &copy, &mut out);
            Ok(out)
        },
    }
}

/// The metadata of a read, where it could be read.
pub open spec fn readable(metadata: MetaRead) -> Option<MetadataView> {
    match metadata {
        MetaRead::Found(m) => Some(m@),
        _ => None,
    }
}

/// Plans the deletion of a published post: its rows and, where its metadata
/// can be read, every index entry. A post that is not there is no error.
pub fn delete_post(rows: &PostRows, post_id: PostId) -> (out: Vec<KvWrite>)
    ensures
        forall|s: KvState| #[trigger]
            s.apply_all(batch(out@)) == s.deleted(post_id, readable(rows.published.metadata)),
{
    let mut out = new_batch();
    match &rows.published.metadata {
        MetaRead::Found(old) => {
            remove_from_indices(post_id, old, &mut out);
        },
        _ => {},
    }
    push_removal(&mut out, Shelf::Published, post_id);
    out
}

/// A tag as the registry of suggested tags holds it: trimmed and lower-cased.
pub open spec fn registry_form(tag: Seq<char>) -> Seq<char> {
    lowercase(trim_spec(tag))
}

fn registry_tag(tag: &str) -> (out: String)
    ensures
        out@ == registry_form(tag@),
{
    let chars = chars_of(tag);
    let trimmed = string_of(&trim_chars(&chars));
    to_lower(trimmed.as_str())
}

/// Plans the addition of a tag to the registry of suggested tags.
pub fn add_available_tag(tag: &str) -> (out: Vec<KvWrite>)
    ensures
        forall|s: KvState| #[trigger]
            s.apply_all(batch(out@)) == (KvState {
                available_tags: s.available_tags.insert(registry_form(tag@)),
                ..s
            }),
{
    let mut out = new_batch();
    push_write(&mut out, KvWrite::AddAvailableTag { tag: registry_tag(tag) });
    out
}

/// Plans the removal of a tag from the registry of suggested tags.
pub fn delete_available_tag(tag: &str) -> (out: Vec<KvWrite>)
    ensures
        forall|s: KvState| #[trigger]
            s.apply_all(batch(out@)) == (KvState {
                available_tags: s.available_tags.remove(registry_form(tag@)),
                ..s
            }),
{
    let mut out = new_batch();
    push_write(&mut out, KvWrite::RemoveAvailableTag { tag: registry_tag(tag) });
    out
}

} // verus!
