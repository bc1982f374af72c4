//! The layout of the key-value store and the writes that change it.
//!
//! The backend never touches the store itself. It plans a batch of writes,
//! which its caller applies inside one write transaction. What a batch does
//! is defined here on `KvState`, the mathematical content of the store's
//! tables, and every planning function is specified by the state its batch
//! leads to.

use vstd::prelude::*;
use crate::ident::PostId;
use crate::model::{MetadataView, PostMetadata};

verus! {

/// Which pair of content and metadata tables a row lives in.
#[derive(Clone, Copy, Debug, PartialEq, Eq, Structural)]
pub enum Shelf {
    /// `posts` and `metadata`.
    Published,
    /// `pending_posts` and `pending_metadata`.
    Pending,
}

/// A key of the tag index or of the keyword index.
#[derive(Debug)]
pub struct TokenKey {
    pub token: String,
    /// The creation time in seconds, negated: see `inverted`.
    pub inv_time: i64,
    pub id: PostId,
}

/// The value of a `TokenKey`.
pub struct TokenKeyView {
    pub token: Seq<char>,
    pub inv_time: i64,
    pub id: PostId,
}

impl View for TokenKey {
    type V = TokenKeyView;

    open spec fn view(&self) -> TokenKeyView {
        TokenKeyView { token: self.token@, inv_time: self.inv_time, id: self.id }
    }
}

/// A key of the chronological index.
#[derive(Clone, Copy, Debug, PartialEq, Eq, Structural)]
pub struct ChronoKey {
    /// The creation time in seconds, negated: see `inverted`.
    pub inv_time: i64,
    pub id: PostId,
}

/// One write inside a key-value transaction.
#[derive(Debug)]
pub enum KvWrite {
    PutContent { shelf: Shelf, id: PostId, content: String },
    PutMetadata { shelf: Shelf, id: PostId, metadata: PostMetadata },
    RemoveContent { shelf: Shelf, id: PostId },
    RemoveMetadata { shelf: Shelf, id: PostId },
    AddTagEntry { key: TokenKey },
    RemoveTagEntry { key: TokenKey },
    AddKeywordEntry { key: TokenKey },
    RemoveKeywordEntry { key: TokenKey },
    AddChronoEntry { entry: ChronoKey },
    RemoveChronoEntry { entry: ChronoKey },
    AddAvailableTag { tag: String },
    RemoveAvailableTag { tag: String },
}

/// The value of a `KvWrite`.
pub enum KvWriteView {
    PutContent { shelf: Shelf, id: PostId, content: Seq<char> },
    PutMetadata { shelf: Shelf, id: PostId, metadata: MetadataView },
    RemoveContent { shelf: Shelf, id: PostId },
    RemoveMetadata { shelf: Shelf, id: PostId },
    AddTagEntry { key: TokenKeyView },
    RemoveTagEntry { key: TokenKeyView },
    AddKeywordEntry { key: TokenKeyView },
    RemoveKeywordEntry { key: TokenKeyView },
    AddChronoEntry { entry: ChronoKey },
    RemoveChronoEntry { entry: ChronoKey },
    AddAvailableTag { tag: Seq<char> },
    RemoveAvailableTag { tag: Seq<char> },
}

impl View for KvWrite {
    type V = KvWriteView;

    open spec fn view(&self) -> KvWriteView {
        match *self {
            KvWrite::PutContent { shelf, id, content } => KvWriteView::PutContent {
                shelf,
                id,
                content: content@,
            },
            KvWrite::PutMetadata { shelf, id, metadata } => KvWriteView::PutMetadata {
                shelf,
                id,
                metadata: metadata@,
            },
            KvWrite::RemoveContent { shelf, id } => KvWriteView::RemoveContent { shelf, id },
            KvWrite::RemoveMetadata { shelf, id } => KvWriteView::RemoveMetadata { shelf, id },
            KvWrite::AddTagEntry { key } => KvWriteView::AddTagEntry { key: key@ },
            KvWrite::RemoveTagEntry { key } => KvWriteView::RemoveTagEntry { key: key@ },
            KvWrite::AddKeywordEntry { key } => KvWriteView::AddKeywordEntry { key: key@ },
            KvWrite::RemoveKeywordEntry { key } => KvWriteView::RemoveKeywordEntry { key: key@ },
            KvWrite::AddChronoEntry { entry } => KvWriteView::AddChronoEntry { entry },
            KvWrite::RemoveChronoEntry { entry } => KvWriteView::RemoveChronoEntry { entry },
            KvWrite::AddAvailableTag { tag } => KvWriteView::AddAvailableTag { tag: tag@ },
            KvWrite::RemoveAvailableTag { tag } => KvWriteView::RemoveAvailableTag { tag: tag@ },
        }
    }
}

/// The values of a batch of writes.
pub open spec fn batch(v: Seq<KvWrite>) -> Seq<KvWriteView> {
    Seq::new(v.len(), |i: int| v[i]@)
}

/// The content of the key-value store's eight tables.
#[verifier::ext_equal]
pub struct KvState {
    pub posts: Map<PostId, Seq<char>>,
    pub metadata: Map<PostId, MetadataView>,
    pub pending_posts: Map<PostId, Seq<char>>,
    pub pending_metadata: Map<PostId, MetadataView>,
    pub tag_index: Set<TokenKeyView>,
    pub keyword_index: Set<TokenKeyView>,
    pub chrono_index: Set<ChronoKey>,
    pub available_tags: Set<Seq<char>>,
}

impl KvState {
    /// A store with empty tables.
    pub open spec fn empty() -> KvState {
        KvState {
            posts: Map::empty(),
            metadata: Map::empty(),
            pending_posts: Map::empty(),
            pending_metadata: Map::empty(),
            tag_index: Set::empty(),
            keyword_index: Set::empty(),
            chrono_index: Set::empty(),
            available_tags: Set::empty(),
        }
    }

    /// The content table of a shelf.
    pub open spec fn contents(self, shelf: Shelf) -> Map<PostId, Seq<char>> {
        match shelf {
            Shelf::Published => self.posts,
            Shelf::Pending => self.pending_posts,
        }
    }

    /// The metadata table of a shelf.
    pub open spec fn metas(self, shelf: Shelf) -> Map<PostId, MetadataView> {
        match shelf {
            Shelf::Published => self.metadata,
            Shelf::Pending => self.pending_metadata,
        }
    }

    /// The state with the content table of `shelf` replaced.
    pub open spec fn with_contents(self, shelf: Shelf, table: Map<PostId, Seq<char>>) -> KvState {
        match shelf {
            Shelf::Published => KvState { posts: table, ..self },
            Shelf::Pending => KvState { pending_posts: table, ..self },
        }
    }

    /// The state with the metadata table of `shelf` replaced.
    pub open spec fn with_metas(self, shelf: Shelf, table: Map<PostId, MetadataView>) -> KvState {
        match shelf {
            Shelf::Published => KvState { metadata: table, ..self },
            Shelf::Pending => KvState { pending_metadata: table, ..self },
        }
    }

    /// The state after one write.
    pub open spec fn apply(self, w: KvWriteView) -> KvState {
        match w {
            KvWriteView::PutContent { shelf, id, content } => self.with_contents(
                shelf,
                self.contents(shelf).insert(id, content),
            ),
            KvWriteView::PutMetadata { shelf, id, metadata } => self.with_metas(
                shelf,
                self.metas(shelf).insert(id, metadata),
            ),
            KvWriteView::RemoveContent { shelf, id } => self.with_contents(
                shelf,
                self.contents(shelf).remove(id),
            ),
            KvWriteView::RemoveMetadata { shelf, id } => self.with_metas(
                shelf,
                self.metas(shelf).remove(id),
            ),
            KvWriteView::AddTagEntry { key } => KvState {
                tag_index: self.tag_index.insert(key),
                ..self
            },
            KvWriteView::RemoveTagEntry { key } => KvState {
                tag_index: self.tag_index.remove(key),
                ..self
            },
            KvWriteView::AddKeywordEntry { key } => KvState {
                keyword_index: self.keyword_index.insert(key),
                ..self
            },
            KvWriteView::RemoveKeywordEntry { key } => KvState {
                keyword_index: self.keyword_index.remove(key),
                ..self
            },
            KvWriteView::AddChronoEntry { entry } => KvState {
                chrono_index: self.chrono_index.insert(entry),
                ..self
            },
            KvWriteView::RemoveChronoEntry { entry } => KvState {
                chrono_index: self.chrono_index.remove(entry),
                ..self
            },
            KvWriteView::AddAvailableTag { tag } => KvState {
                available_tags: self.available_tags.insert(tag),
                ..self
            },
            KvWriteView::RemoveAvailableTag { tag } => KvState {
                available_tags: self.available_tags.remove(tag),
                ..self
            },
        }
    }

    /// The state after a batch of writes, applied in order.
    pub open spec fn apply_all(self, ws: Seq<KvWriteView>) -> KvState
        decreases ws.len(),
    {
        if ws.len() == 0 {
            self
        } else {
            self.apply_all(ws.drop_last()).apply(ws.last())
        }
    }
}

/// Applying a batch with one more write at its end.
pub proof fn lemma_apply_push(s: KvState, ws: Seq<KvWriteView>, w: KvWriteView)
    ensures
        s.apply_all(ws.push(w)) == s.apply_all(ws).apply(w),
{
    assert(ws.push(w).drop_last() == ws);
    assert(ws.push(w).last() == w);
}

/// Adds `w` to the end of `out`.
pub fn push_write(out: &mut Vec<KvWrite>, w: KvWrite)
    ensures
        batch(final(out)@) == batch(old(out)@).push(w@),
        forall|s: KvState| #[trigger]
            s.apply_all(batch(final(out)@)) == s.apply_all(batch(old(out)@)).apply(w@),
{
    let ghost before = batch(out@);
    out.push(w);
    assert(batch(out@) =~= before.push(w@));
    assert forall|s: KvState| #[trigger]
        s.apply_all(batch(out@)) == s.apply_all(before).apply(w@) by {
        lemma_apply_push(s, before, w@);
    }
}

} // verus!
