//! Key-value transactions as values: what a workflow asks the store to do in
//! one write transaction, and what that does to the store.

use vstd::prelude::*;
use crate::content::{
    create_pending_post, delete_pending_post, delete_post, drafted, edit_refusal,
    move_published_to_pending, publish_post, update_pending_post, update_post, PostRows,
};
use crate::error::BackendError;
use crate::ident::PostId;
use crate::kv::{batch, KvState, KvWrite, Shelf};
use crate::model::{opt_text, MetadataView, PostMetadata, Timestamp};

verus! {

/// What an author submits for a post: the fields as typed.
#[derive(Debug)]
pub struct PostDraft {
    pub title: String,
    pub summary: String,
    pub content: String,
    /// Comma-separated tags.
    pub tags: String,
    /// Comma-separated search keywords.
    pub search_keywords: String,
    pub cover_image: Option<String>,
    pub has_call_to_action: Option<bool>,
}

/// The value of a `PostDraft`.
pub struct PostDraftView {
    pub title: Seq<char>,
    pub summary: Seq<char>,
    pub content: Seq<char>,
    pub tags: Seq<char>,
    pub search_keywords: Seq<char>,
    pub cover_image: Option<Seq<char>>,
    pub has_call_to_action: Option<bool>,
}

impl View for PostDraft {
    type V = PostDraftView;

    open spec fn view(&self) -> PostDraftView {
        PostDraftView {
            title: self.title@,
            summary: self.summary@,
            content: self.content@,
            tags: self.tags@,
            search_keywords: self.search_keywords@,
            cover_image: opt_text(self.cover_image),
            has_call_to_action: self.has_call_to_action,
        }
    }
}

impl PostDraftView {
    /// The metadata that this draft gives a post created at `created_at` and
    /// last updated at `last_updated_at`.
    pub open spec fn metadata(self, created_at: Timestamp, last_updated_at: Option<Timestamp>) -> MetadataView {
        drafted(
            created_at,
            last_updated_at,
            self.title,
            self.summary,
            self.tags,
            self.search_keywords,
            self.cover_image,
            self.has_call_to_action,
        )
    }
}

/// Content and metadata of one post.
#[derive(Debug)]
pub struct StoredPost {
    pub content: String,
    pub metadata: PostMetadata,
}

/// The value of a `StoredPost`.
pub struct StoredPostView {
    pub content: Seq<char>,
    pub metadata: MetadataView,
}

impl View for StoredPost {
    type V = StoredPostView;

    open spec fn view(&self) -> StoredPostView {
        StoredPostView { content: self.content@, metadata: self.metadata@ }
    }
}

/// One write transaction on the content tables.
#[derive(Debug)]
pub enum ContentJob {
    CreatePending { id: PostId, created_at: Timestamp, draft: PostDraft },
    UpdatePending { id: PostId, now: Timestamp, draft: PostDraft },
    DeletePending { id: PostId },
    Publish { id: PostId, post: StoredPost },
    MoveToPending { id: PostId },
    UpdatePublished { id: PostId, now: Timestamp, draft: PostDraft },
    DeletePublished { id: PostId },
}

/// The value of a `ContentJob`.
pub enum ContentJobView {
    CreatePending { id: PostId, created_at: Timestamp, draft: PostDraftView },
    UpdatePending { id: PostId, now: Timestamp, draft: PostDraftView },
    DeletePending { id: PostId },
    Publish { id: PostId, post: StoredPostView },
    MoveToPending { id: PostId },
    UpdatePublished { id: PostId, now: Timestamp, draft: PostDraftView },
    DeletePublished { id: PostId },
}

impl View for ContentJob {
    type V = ContentJobView;

    open spec fn view(&self) -> ContentJobView {
        match *self {
            ContentJob::CreatePending { id, created_at, draft } => ContentJobView::CreatePending {
                id,
                created_at,
                draft: draft@,
            },
            ContentJob::UpdatePending { id, now, draft } => ContentJobView::UpdatePending {
                id,
                now,
                draft: draft@,
            },
            ContentJob::DeletePending { id } => ContentJobView::DeletePending { id },
            ContentJob::Publish { id, post } => ContentJobView::Publish { id, post: post@ },
            ContentJob::MoveToPending { id } => ContentJobView::MoveToPending { id },
            ContentJob::UpdatePublished { id, now, draft } => ContentJobView::UpdatePublished {
                id,
                now,
                draft: draft@,
            },
            ContentJob::DeletePublished { id } => ContentJobView::DeletePublished { id },
        }
    }
}

impl ContentJobView {
    /// The post that the transaction is about.
    pub open spec fn post_id(self) -> PostId {
        match self {
            ContentJobView::CreatePending { id, .. } => id,
            ContentJobView::UpdatePending { id, .. } => id,
            ContentJobView::DeletePending { id } => id,
            ContentJobView::Publish { id, .. } => id,
            ContentJobView::MoveToPending { id } => id,
            ContentJobView::UpdatePublished { id, .. } => id,
            ContentJobView::DeletePublished { id } => id,
        }
    }

    /// When the transaction is refused for the rows it finds, and why. A
    /// refused transaction writes nothing.
    pub open spec fn refusal(self, rows: PostRows) -> Option<BackendError> {
        match self {
            ContentJobView::UpdatePending { .. } => edit_refusal(rows.pending),
            ContentJobView::MoveToPending { .. } => edit_refusal(rows.published),
            ContentJobView::UpdatePublished { .. } => edit_refusal(rows.published),
            _ => None,
        }
    }
}

impl KvState {
    /// Whether both rows of the post are on the shelf.
    pub open spec fn holds(self, shelf: Shelf, id: PostId) -> bool {
        self.contents(shelf).contains_key(id) && self.metas(shelf).contains_key(id)
    }

    /// The state that the transaction leaves, or why it is refused. An edit
    /// or a move of a post whose rows are not both there is `NotFound`.
    pub open spec fn outcome(self, job: ContentJobView) -> Result<KvState, BackendError> {
        match job {
            ContentJobView::CreatePending { id, created_at, draft } => Ok(
                self.put(Shelf::Pending, id, draft.content, draft.metadata(created_at, None)),
            ),
            ContentJobView::UpdatePending { id, now, draft } => if self.holds(Shelf::Pending, id) {
                Ok(
                    self.put(
                        Shelf::Pending,
                        id,
                        draft.content,
                        draft.metadata(self.pending_metadata[id].created_at, Some(now)),
                    ),
                )
            } else {
                Err(BackendError::NotFound)
            },
            ContentJobView::DeletePending { id } => Ok(self.without(Shelf::Pending, id)),
            ContentJobView::Publish { id, post } => Ok(
                self.published(id, post.content, post.metadata),
            ),
            ContentJobView::MoveToPending { id } => if self.holds(Shelf::Published, id) {
                Ok(self.withdrawn(id, self.posts[id], self.metadata[id]))
            } else {
                Err(BackendError::NotFound)
            },
            ContentJobView::UpdatePublished { id, now, draft } => if self.holds(
                Shelf::Published,
                id,
            ) {
                Ok(
                    self.republished(
                        id,
                        self.metadata[id],
                        draft.content,
                        draft.metadata(self.metadata[id].created_at, Some(now)),
                    ),
                )
            } else {
                Err(BackendError::NotFound)
            },
            ContentJobView::DeletePublished { id } => Ok(
                self.deleted(
                    id,
                    if self.metadata.contains_key(id) {
                        Some(self.metadata[id])
                    } else {
                        None
                    },
                ),
            ),
        }
    }
}

fn as_opt_str(s: &Option<String>) -> (r: Option<&str>)
    ensures
        crate::content::opt_str(r) == opt_text(*s),
{
    match s {
        Some(t) => Some(t.as_str()),
        None => None,
    }
}

impl ContentJob {
    /// The post that the transaction is about.
    pub fn post_id(&self) -> (id: PostId)
        ensures
            id == self@.post_id(),
    {
        match self {
            ContentJob::CreatePending { id, .. } => *id,
            ContentJob::UpdatePending { id, .. } => *id,
            ContentJob::DeletePending { id } => *id,
            ContentJob::Publish { id, .. } => *id,
            ContentJob::MoveToPending { id } => *id,
            ContentJob::UpdatePublished { id, .. } => *id,
            ContentJob::DeletePublished { id } => *id,
        }
    }

    /// Plans the writes of the transaction from the rows that it finds for
    /// its post. On every store that holds those rows, applying the writes
    /// gives the state that the transaction is defined to leave.
    pub fn plan(self, rows: PostRows) -> (r: Result<Vec<KvWrite>, BackendError>)
        ensures
            match r {
                Ok(out) => self@.refusal(rows) is None && forall|s: KvState|
                    rows.reflects(s, self@.post_id()) ==> #[trigger] s.apply_all(batch(out@)) == s.outcome(
                        self@,
                    )->Ok_0 && s.outcome(self@) is Ok,
                Err(e) => self@.refusal(rows) == Some(e) && forall|s: KvState|
                    rows.reflects(s, self@.post_id()) ==> #[trigger] s.outcome(self@) == Err::<
                        KvState,
                        BackendError,
                    >(e),
            },
    {
        match self {
            ContentJob::CreatePending { id, created_at, draft } => Ok(
                create_pending_post(
                    id,
                    created_at,
                    draft.title.as_str(),
                    draft.summary.as_str(),
                    draft.content.as_str(),
                    draft.tags.as_str(),
                    draft.search_keywords.as_str(),
                    as_opt_str(&draft.cover_image),
                    draft.has_call_to_action,
                ),
            ),
            ContentJob::UpdatePending { id, now, draft } => update_pending_post(
                &rows,
                id,
                now,
                draft.title.as_str(),
                draft.summary.as_str(),
                draft.content.as_str(),
                draft.tags.as_str(),
                draft.search_keywords.as_str(),
                as_opt_str(&draft.cover_image),
                draft.has_call_to_action,
            ),
            ContentJob::DeletePending { id } => Ok(delete_pending_post(id)),
            ContentJob::Publish { id, post } => Ok(publish_post(id, post.content, post.metadata)),
            ContentJob::MoveToPending { id } => move_published_to_pending(rows, id),
            ContentJob::UpdatePublished { id, now, draft } => update_post(
                &rows,
                id,
                now,
                draft.title.as_str(),
                draft.summary.as_str(),
                draft.content.as_str(),
                draft.tags.as_str(),
                draft.search_keywords.as_str(),
                as_opt_str(&draft.cover_image),
                draft.has_call_to_action,
            ),
            ContentJob::DeletePublished { id } => Ok(delete_post(&rows, id)),
        }
    }
}

} // verus!
