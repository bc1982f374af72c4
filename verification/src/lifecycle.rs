//! The lifecycle of a post across the two stores.
//!
//! The stores share no transaction, so each operation is a short sequence of
//! store calls with a decision after each: what to do next, when to stop, and
//! what to undo when a later step fails. A `Workflow` holds where such a
//! sequence stands. Its caller performs the request it is given, hands back
//! the store's reply and gets the next request, until the request is
//! `Finish`.
//!
//! The order of the calls is part of the design. A relational failure stops
//! an operation before the key-value store is written. Approval writes the
//! ownership row first, so that a failed publication is undone by deleting
//! one row. Deletion of a published post removes the ownership row first, so
//! that a crash leaves content nobody can reach rather than a right to
//! content that is gone.

use vstd::prelude::*;
use crate::clock::current_time;
use crate::content::{MetaRead, MetaReadView, ShelfRows, ShelfRowsView};
use crate::error::BackendError;
use crate::ident::{parsed_uuid, PostId};
use crate::jobs::{ContentJob, ContentJobView, PostDraft, PostDraftView, StoredPost, StoredPostView};
use crate::model::{log_entries, EditLogEntry, EditLogEntryView, Timestamp};
use crate::ownership::{append_to_edit_log, log_appended, RelWrite, RelWriteView};

verus! {

/// What a workflow asks its caller to do next.
#[derive(Debug)]
pub enum StoreRequest {
    /// Read the pending rows of the post in one read transaction.
    ReadPending { id: PostId },
    /// Run the job as one key-value write transaction.
    Transact { job: ContentJob },
    /// Look up the user of the post's pending-ownership row.
    FindPendingOwner { id: PostId },
    /// Look up the user of the post's ownership row.
    FindOwner { id: PostId },
    /// Read the edit log of the post's ownership row.
    ReadEditLog { id: PostId },
    /// Carry out one relational write.
    Relational { write: RelWrite },
    /// Nothing more: the operation ended with `outcome`.
    Finish { outcome: Result<PostId, BackendError> },
}

/// The value of a `StoreRequest`.
pub enum StoreRequestView {
    ReadPending { id: PostId },
    Transact { job: ContentJobView },
    FindPendingOwner { id: PostId },
    FindOwner { id: PostId },
    ReadEditLog { id: PostId },
    Relational { write: RelWriteView },
    Finish { outcome: Result<PostId, BackendError> },
}

impl View for StoreRequest {
    type V = StoreRequestView;

    open spec fn view(&self) -> StoreRequestView {
        match *self {
            StoreRequest::ReadPending { id } => StoreRequestView::ReadPending { id },
            StoreRequest::Transact { job } => StoreRequestView::Transact { job: job@ },
            StoreRequest::FindPendingOwner { id } => StoreRequestView::FindPendingOwner { id },
            StoreRequest::FindOwner { id } => StoreRequestView::FindOwner { id },
            StoreRequest::ReadEditLog { id } => StoreRequestView::ReadEditLog { id },
            StoreRequest::Relational { write } => StoreRequestView::Relational { write: write@ },
            StoreRequest::Finish { outcome } => StoreRequestView::Finish { outcome },
        }
    }
}

/// What a store answered.
#[derive(Debug)]
pub enum StoreReply {
    /// The rows that a read found.
    Rows { rows: ShelfRows },
    /// The write transaction was committed.
    Committed,
    /// The job refused the rows it found; nothing was written.
    Refused { error: BackendError },
    /// The user that an ownership lookup found, if any.
    Owner { user_id: Option<i32> },
    /// The edit log of the ownership row, or `None` where there is no row.
    /// A row without a stored log has the empty log.
    EditLog { log: Option<Vec<EditLogEntry>> },
    /// The relational write was carried out; `changed` says whether a row
    /// was inserted, updated or deleted.
    Written { changed: bool },
    /// The store reported a failure.
    Failed,
}

/// The value of a `StoreReply`.
pub enum StoreReplyView {
    Rows { rows: ShelfRowsView },
    Committed,
    Refused { error: BackendError },
    Owner { user_id: Option<i32> },
    EditLog { log: Option<Seq<EditLogEntryView>> },
    Written { changed: bool },
    Failed,
}

/// The value of an optional edit log.
pub open spec fn opt_log(log: Option<Vec<EditLogEntry>>) -> Option<Seq<EditLogEntryView>> {
    match log {
        Some(l) => Some(log_entries(l@)),
        None => None,
    }
}

impl View for StoreReply {
    type V = StoreReplyView;

    open spec fn view(&self) -> StoreReplyView {
        match *self {
            StoreReply::Rows { rows } => StoreReplyView::Rows { rows: rows@ },
            StoreReply::Committed => StoreReplyView::Committed,
            StoreReply::Refused { error } => StoreReplyView::Refused { error },
            StoreReply::Owner { user_id } => StoreReplyView::Owner { user_id },
            StoreReply::EditLog { log } => StoreReplyView::EditLog { log: opt_log(log) },
            StoreReply::Written { changed } => StoreReplyView::Written { changed },
            StoreReply::Failed => StoreReplyView::Failed,
        }
    }
}

impl StoreReplyView {
    /// The error that a reply other than the expected one stands for: the
    /// job's own refusal, or else a store failure.
    pub open spec fn failure(self) -> BackendError {
        match self {
            StoreReplyView::Refused { error } => error,
            _ => BackendError::StoreError,
        }
    }
}

impl StoreReply {
    /// The error that a reply other than the expected one stands for.
    pub fn failure(&self) -> (e: BackendError)
        ensures
            e == self@.failure(),
    {
        match self {
            StoreReply::Refused { error } => *error,
            _ => BackendError::StoreError,
        }
    }
}

/// Where an operation stands: the call it waits for, and what it has to
/// remember for the calls that follow.
#[derive(Debug)]
pub enum Workflow {
    /// Submission: the pending rows are being written.
    SubmitStoring { id: PostId, user_id: i32 },
    /// Submission: the pending-ownership row is being written.
    SubmitRecordingOwner { id: PostId },
    /// Approval: the pending rows are being read.
    ApproveReading { id: PostId },
    /// Approval: the pending-ownership row is being looked up.
    ApproveFindingPendingOwner { id: PostId, post: StoredPost },
    /// Approval: no pending-ownership row; the ownership row is looked up.
    ApproveFindingOwner { id: PostId, post: StoredPost },
    /// Approval: the ownership row is being inserted unless it is there.
    ApproveRecordingOwner { id: PostId, post: StoredPost },
    /// Approval: the post is being published; `inserted` says whether this
    /// approval wrote the ownership row.
    ApprovePublishing { id: PostId, inserted: bool },
    /// Approval: publication failed with `error` and the ownership row that
    /// this approval wrote is being deleted again.
    ApproveCompensating { error: BackendError },
    /// Approval: the pending rows are being removed.
    ApproveClearingPending { id: PostId },
    /// Approval: the pending-ownership row is being removed.
    ApproveClearingPendingOwner { id: PostId },
    /// Re-submission: the edit log is being read.
    ResubmitReadingLog { id: PostId, editor: String, now: Timestamp, draft: PostDraft },
    /// Re-submission: the edit log with its new entry is being stored.
    ResubmitStoringLog { id: PostId, now: Timestamp, draft: PostDraft },
    /// Re-submission: the post is being moved to the pending tables.
    ResubmitMoving { id: PostId, now: Timestamp, draft: PostDraft },
    /// Re-submission: the new field values are being applied.
    ResubmitUpdating { id: PostId },
    /// Deletion of a published post: the ownership row is being deleted.
    DeleteReleasing { id: PostId },
    /// Deletion of a published post: rows and index entries are being removed.
    DeleteRemoving { id: PostId },
    /// Deletion of a pending post: the pending rows are being removed.
    DiscardRemoving { id: PostId },
    /// Deletion of a pending post: the pending-ownership row is being removed.
    DiscardReleasing { id: PostId },
    /// The operation has ended.
    Finished,
}

/// The value of a `Workflow`.
pub enum WorkflowView {
    SubmitStoring { id: PostId, user_id: i32 },
    SubmitRecordingOwner { id: PostId },
    ApproveReading { id: PostId },
    ApproveFindingPendingOwner { id: PostId, post: StoredPostView },
    ApproveFindingOwner { id: PostId, post: StoredPostView },
    ApproveRecordingOwner { id: PostId, post: StoredPostView },
    ApprovePublishing { id: PostId, inserted: bool },
    ApproveCompensating { error: BackendError },
    ApproveClearingPending { id: PostId },
    ApproveClearingPendingOwner { id: PostId },
    ResubmitReadingLog { id: PostId, editor: Seq<char>, now: Timestamp, draft: PostDraftView },
    ResubmitStoringLog { id: PostId, now: Timestamp, draft: PostDraftView },
    ResubmitMoving { id: PostId, now: Timestamp, draft: PostDraftView },
    ResubmitUpdating { id: PostId },
    DeleteReleasing { id: PostId },
    DeleteRemoving { id: PostId },
    DiscardRemoving { id: PostId },
    DiscardReleasing { id: PostId },
    Finished,
}

impl View for Workflow {
    type V = WorkflowView;

    open spec fn view(&self) -> WorkflowView {
        match *self {
            Workflow::SubmitStoring { id, user_id } => WorkflowView::SubmitStoring { id, user_id },
            Workflow::SubmitRecordingOwner { id } => WorkflowView::SubmitRecordingOwner { id },
            Workflow::ApproveReading { id } => WorkflowView::ApproveReading { id },
            Workflow::ApproveFindingPendingOwner { id, post } => WorkflowView::ApproveFindingPendingOwner {
                id,
                post: post@,
            },
            Workflow::ApproveFindingOwner { id, post } => WorkflowView::ApproveFindingOwner {
                id,
                post: post@,
            },
            Workflow::ApproveRecordingOwner { id, post } => WorkflowView::ApproveRecordingOwner {
                id,
                post: post@,
            },
            Workflow::ApprovePublishing { id, inserted } => WorkflowView::ApprovePublishing {
                id,
                inserted,
            },
            Workflow::ApproveCompensating { error } => WorkflowView::ApproveCompensating { error },
            Workflow::ApproveClearingPending { id } => WorkflowView::ApproveClearingPending { id },
            Workflow::ApproveClearingPendingOwner { id } => WorkflowView::ApproveClearingPendingOwner {
                id,
            },
            Workflow::ResubmitReadingLog { id, editor, now, draft } => WorkflowView::ResubmitReadingLog {
                id,
                editor: editor@,
                now,
                draft: draft@,
            },
            Workflow::ResubmitStoringLog { id, now, draft } => WorkflowView::ResubmitStoringLog {
                id,
                now,
                draft: draft@,
            },
            Workflow::ResubmitMoving { id, now, draft } => WorkflowView::ResubmitMoving {
                id,
                now,
                draft: draft@,
            },
            Workflow::ResubmitUpdating { id } => WorkflowView::ResubmitUpdating { id },
            Workflow::DeleteReleasing { id } => WorkflowView::DeleteReleasing { id },
            Workflow::DeleteRemoving { id } => WorkflowView::DeleteRemoving { id },
            Workflow::DiscardRemoving { id } => WorkflowView::DiscardRemoving { id },
            Workflow::DiscardReleasing { id } => WorkflowView::DiscardReleasing { id },
            Workflow::Finished => WorkflowView::Finished,
        }
    }
}

/// The end of an operation with `error`.
pub open spec fn stop(error: BackendError) -> (WorkflowView, StoreRequestView) {
    (WorkflowView::Finished, StoreRequestView::Finish { outcome: Err(error) })
}

/// The end of an operation on post `id` without error.
pub open spec fn done(id: PostId) -> (WorkflowView, StoreRequestView) {
    (WorkflowView::Finished, StoreRequestView::Finish { outcome: Ok(id) })
}

/// The step of an approval that knows the author: the ownership row is
/// inserted unless it is there already, so that an approval can be repeated.
pub open spec fn record_owner(id: PostId, post: StoredPostView, user_id: i32) -> (
    WorkflowView,
    StoreRequestView,
) {
    (
        WorkflowView::ApproveRecordingOwner { id, post },
        StoreRequestView::Relational {
            write: RelWriteView::InsertOwnershipIfAbsent { post_id: id, user_id },
        },
    )
}

/// The next stage and request of an operation at `stage` that got `reply`.
/// A reply that the stage does not expect ends the operation with the
/// failure it stands for.
pub open spec fn next(stage: WorkflowView, reply: StoreReplyView) -> (WorkflowView, StoreRequestView) {
    match stage {
        WorkflowView::SubmitStoring { id, user_id } => match reply {
            StoreReplyView::Committed => (
                WorkflowView::SubmitRecordingOwner { id },
                StoreRequestView::Relational {
                    write: RelWriteView::InsertPendingOwnership { post_id: id, user_id },
                },
            ),
            _ => stop(reply.failure()),
        },
        WorkflowView::SubmitRecordingOwner { id } => match reply {
            StoreReplyView::Written { changed } => done(id),
            _ => stop(reply.failure()),
        },
        WorkflowView::ApproveReading { id } => match reply {
            StoreReplyView::Rows { rows } => match (rows.content, rows.metadata) {
                (Some(content), MetaReadView::Found(metadata)) => (
                    WorkflowView::ApproveFindingPendingOwner {
                        id,
                        post: StoredPostView { content, metadata },
                    },
                    StoreRequestView::FindPendingOwner { id },
                ),
                (Some(content), MetaReadView::Corrupt) => stop(BackendError::StoreError),
                _ => stop(BackendError::NotFound),
            },
            _ => stop(reply.failure()),
        },
        WorkflowView::ApproveFindingPendingOwner { id, post } => match reply {
            StoreReplyView::Owner { user_id: Some(u) } => record_owner(id, post, u),
            StoreReplyView::Owner { user_id: None } => (
                WorkflowView::ApproveFindingOwner { id, post },
                StoreRequestView::FindOwner { id },
            ),
            _ => stop(reply.failure()),
        },
        WorkflowView::ApproveFindingOwner { id, post } => match reply {
            StoreReplyView::Owner { user_id: Some(u) } => record_owner(id, post, u),
            StoreReplyView::Owner { user_id: None } => stop(BackendError::NotFound),
            _ => stop(reply.failure()),
        },
        WorkflowView::ApproveRecordingOwner { id, post } => match reply {
            StoreReplyView::Written { changed } => (
                WorkflowView::ApprovePublishing { id, inserted: changed },
                StoreRequestView::Transact { job: ContentJobView::Publish { id, post } },
            ),
            _ => stop(reply.failure()),
        },
        WorkflowView::ApprovePublishing { id, inserted } => match reply {
            StoreReplyView::Committed => (
                WorkflowView::ApproveClearingPending { id },
                StoreRequestView::Transact { job: ContentJobView::DeletePending { id } },
            ),
            _ => if inserted {
                (
                    WorkflowView::ApproveCompensating { error: reply.failure() },
                    StoreRequestView::Relational {
                        write: RelWriteView::DeleteOwnership { post_id: id },
                    },
                )
            } else {
                stop(reply.failure())
            },
        },
        WorkflowView::ApproveCompensating { error } => stop(error),
        WorkflowView::ApproveClearingPending { id } => match reply {
            StoreReplyView::Committed => (
                WorkflowView::ApproveClearingPendingOwner { id },
                StoreRequestView::Relational {
                    write: RelWriteView::DeletePendingOwnership { post_id: id },
                },
            ),
            _ => stop(reply.failure()),
        },
        WorkflowView::ApproveClearingPendingOwner { id } => match reply {
            StoreReplyView::Written { changed } => done(id),
            _ => stop(reply.failure()),
        },
        WorkflowView::ResubmitReadingLog { id, editor, now, draft } => match reply {
            StoreReplyView::EditLog { log: Some(log) } => (
                WorkflowView::ResubmitStoringLog { id, now, draft },
                StoreRequestView::Relational {
                    write: RelWriteView::StoreEditLog {
                        post_id: id,
                        log: log_appended(log, editor, now),
                    },
                },
            ),
            StoreReplyView::EditLog { log: None } => stop(BackendError::NotFound),
            _ => stop(reply.failure()),
        },
        WorkflowView::ResubmitStoringLog { id, now, draft } => match reply {
            StoreReplyView::Written { changed } => (
                WorkflowView::ResubmitMoving { id, now, draft },
                StoreRequestView::Transact { job: ContentJobView::MoveToPending { id } },
            ),
            _ => stop(reply.failure()),
        },
        WorkflowView::ResubmitMoving { id, now, draft } => match reply {
            StoreReplyView::Committed => (
                WorkflowView::ResubmitUpdating { id },
                StoreRequestView::Transact { job: ContentJobView::UpdatePending { id, now, draft } },
            ),
            _ => stop(reply.failure()),
        },
        WorkflowView::ResubmitUpdating { id } => match reply {
            StoreReplyView::Committed => done(id),
            _ => stop(reply.failure()),
        },
        WorkflowView::DeleteReleasing { id } => match reply {
            StoreReplyView::Written { changed } => (
                WorkflowView::DeleteRemoving { id },
                StoreRequestView::Transact { job: ContentJobView::DeletePublished { id } },
            ),
            _ => stop(reply.failure()),
        },
        WorkflowView::DeleteRemoving { id } => match reply {
            StoreReplyView::Committed => done(id),
            _ => stop(reply.failure()),
        },
        WorkflowView::DiscardRemoving { id } => match reply {
            StoreReplyView::Committed => (
                WorkflowView::DiscardReleasing { id },
                StoreRequestView::Relational {
                    write: RelWriteView::DeletePendingOwnership { post_id: id },
                },
            ),
            _ => stop(reply.failure()),
        },
        WorkflowView::DiscardReleasing { id } => match reply {
            StoreReplyView::Written { changed } => done(id),
            _ => stop(reply.failure()),
        },
        WorkflowView::Finished => stop(BackendError::StoreError),
    }
}

fn stop_with(error: BackendError) -> (r: (Workflow, StoreRequest))
    ensures
        (r.0@, r.1@) == stop(error),
{
    (Workflow::Finished, StoreRequest::Finish { outcome: Err(error) })
}

fn done_with(id: PostId) -> (r: (Workflow, StoreRequest))
    ensures
        (r.0@, r.1@) == done(id),
{
    (Workflow::Finished, StoreRequest::Finish { outcome: Ok(id) })
}

fn record_owner_of(id: PostId, post: StoredPost, user_id: i32) -> (r: (Workflow, StoreRequest))
    ensures
        (r.0@, r.1@) == record_owner(id, post@, user_id),
{
    (
        Workflow::ApproveRecordingOwner { id, post },
        StoreRequest::Relational { write: RelWrite::InsertOwnershipIfAbsent { post_id: id, user_id } },
    )
}

impl Workflow {
    /// Whether the operation has ended.
    pub fn is_finished(&self) -> (b: bool)
        ensures
            b == (self@ is Finished),
    {
        match self {
            Workflow::Finished => true,
            _ => false,
        }
    }

    /// Takes the store's reply to the last request and gives the next stage
    /// with the next request.
    pub fn advance(self, reply: StoreReply) -> (r: (Workflow, StoreRequest))
        ensures
            (r.0@, r.1@) == next(self@, reply@),
    {
        let failure = reply.failure();
        match self {
            Workflow::SubmitStoring { id, user_id } => match reply {
                StoreReply::Committed => (
                    Workflow::SubmitRecordingOwner { id },
                    StoreRequest::Relational {
                        write: RelWrite::InsertPendingOwnership { post_id: id, user_id },
                    },
                ),
                _ => stop_with(failure),
            },
            Workflow::SubmitRecordingOwner { id } => match reply {
                StoreReply::Written { changed } => done_with(id),
                _ => stop_with(failure),
            },
            Workflow::ApproveReading { id } => match reply {
                StoreReply::Rows { rows } => match rows.content {
                    Some(content) => match rows.metadata {
                        MetaRead::Found(metadata) => (
                            Workflow::ApproveFindingPendingOwner {
                                id,
                                post: StoredPost { content, metadata },
                            },
                            StoreRequest::FindPendingOwner { id },
                        ),
                        MetaRead::Corrupt => stop_with(BackendError::StoreError),
                        MetaRead::Absent => stop_with(BackendError::NotFound),
                    },
                    None => stop_with(BackendError::NotFound),
                },
                _ => stop_with(failure),
            },
            Workflow::ApproveFindingPendingOwner { id, post } => match reply {
                StoreReply::Owner { user_id: Some(u) } => record_owner_of(id, post, u),
                StoreReply::Owner { user_id: None } => (
                    Workflow::ApproveFindingOwner { id, post },
                    StoreRequest::FindOwner { id },
                ),
                _ => stop_with(failure),
            },
            Workflow::ApproveFindingOwner { id, post } => match reply {
                StoreReply::Owner { user_id: Some(u) } => record_owner_of(id, post, u),
                StoreReply::Owner { user_id: None } => stop_with(BackendError::NotFound),
                _ => stop_with(failure),
            },
            Workflow::ApproveRecordingOwner { id, post } => match reply {
                StoreReply::Written { changed } => (
                    Workflow::ApprovePublishing { id, inserted: changed },
                    StoreRequest::Transact { job: ContentJob::Publish { id, post } },
                ),
                _ => stop_with(failure),
            },
            Workflow::ApprovePublishing { id, inserted } => match reply {
                StoreReply::Committed => (
                    Workflow::ApproveClearingPending { id },
                    StoreRequest::Transact { job: ContentJob::DeletePending { id } },
                ),
                _ => if inserted {
                    (
                        Workflow::ApproveCompensating { error: failure },
                        StoreRequest::Relational { write: RelWrite::DeleteOwnership { post_id: id } },
                    )
                } else {
                    stop_with(failure)
                },
            },
            Workflow::ApproveCompensating { error } => stop_with(error),
            Workflow::ApproveClearingPending { id } => match reply {
                StoreReply::Committed => (
                    Workflow::ApproveClearingPendingOwner { id },
                    StoreRequest::Relational {
                        write: RelWrite::DeletePendingOwnership { post_id: id },
                    },
                ),
                _ => stop_with(failure),
            },
            Workflow::ApproveClearingPendingOwner { id } => match reply {
                StoreReply::Written { changed } => done_with(id),
                _ => stop_with(failure),
            },
            Workflow::ResubmitReadingLog { id, editor, now, draft } => match reply {
                StoreReply::EditLog { log: Some(log) } => (
                    Workflow::ResubmitStoringLog { id, now, draft },
                    StoreRequest::Relational {
                        write: RelWrite::StoreEditLog {
                            post_id: id,
                            log: append_to_edit_log(log, editor.as_str(), now),
                        },
                    },
                ),
                StoreReply::EditLog { log: None } => stop_with(BackendError::NotFound),
                _ => stop_with(failure),
            },
            Workflow::ResubmitStoringLog { id, now, draft } => match reply {
                StoreReply::Written { changed } => (
                    Workflow::ResubmitMoving { id, now, draft },
                    StoreRequest::Transact { job: ContentJob::MoveToPending { id } },
                ),
                _ => stop_with(failure),
            },
            Workflow::ResubmitMoving { id, now, draft } => match reply {
                StoreReply::Committed => (
                    Workflow::ResubmitUpdating { id },
                    StoreRequest::Transact { job: ContentJob::UpdatePending { id, now, draft } },
                ),
                _ => stop_with(failure),
            },
            Workflow::ResubmitUpdating { id } => match reply {
                StoreReply::Committed => done_with(id),
                _ => stop_with(failure),
            },
            Workflow::DeleteReleasing { id } => match reply {
                StoreReply::Written { changed } => (
                    Workflow::DeleteRemoving { id },
                    StoreRequest::Transact { job: ContentJob::DeletePublished { id } },
                ),
                _ => stop_with(failure),
            },
            Workflow::DeleteRemoving { id } => match reply {
                StoreReply::Committed => done_with(id),
                _ => stop_with(failure),
            },
            Workflow::DiscardRemoving { id } => match reply {
                StoreReply::Committed => (
                    Workflow::DiscardReleasing { id },
                    StoreRequest::Relational {
                        write: RelWrite::DeletePendingOwnership { post_id: id },
                    },
                ),
                _ => stop_with(failure),
            },
            Workflow::DiscardReleasing { id } => match reply {
                StoreReply::Written { changed } => done_with(id),
                _ => stop_with(failure),
            },
            Workflow::Finished => stop_with(BackendError::StoreError),
        }
    }
}

/// How the submission of `draft` by user `user_id` starts once the post has
/// its identifier and its creation time: with the transaction that stores
/// the pending rows. Pending posts are not indexed.
pub open spec fn submission(id: PostId, created_at: Timestamp, user_id: i32, draft: PostDraftView) -> (
    WorkflowView,
    StoreRequestView,
) {
    (
        WorkflowView::SubmitStoring { id, user_id },
        StoreRequestView::Transact { job: ContentJobView::CreatePending { id, created_at, draft } },
    )
}

/// Starts the submission of a post under a given identifier and creation
/// time. The draft is cleaned before it goes to the store.
pub fn submit_post_as(id: PostId, created_at: Timestamp, user_id: i32, draft: PostDraft) -> (r: (
    Workflow,
    StoreRequest,
))
    ensures
        (r.0@, r.1@) == submission(id, created_at, user_id, draft@.sanitized()),
{
    (
        Workflow::SubmitStoring { id, user_id },
        StoreRequest::Transact {
            job: ContentJob::CreatePending { id, created_at, draft: draft.sanitize() },
        },
    )
}

/// Starts the submission of a post for approval: the post gets a fresh
/// random identifier and the current time as its creation time.
pub fn submit_post_for_approval(user_id: i32, draft: PostDraft) -> (r: (Workflow, StoreRequest))
    ensures
        exists|id: PostId, created_at: Timestamp|
            crate::ident::is_random_layout(id.value) && (r.0@, r.1@) == submission(
                id,
                created_at,
                user_id,
                draft@.sanitized(),
            ),
{
    let id = PostId::generate();
    let now = current_time();
    submit_post_as(id, now, user_id, draft)
}

/// The identifier that `text` names, where it names one.
pub open spec fn named_id(text: Seq<char>) -> PostId {
    PostId { value: parsed_uuid(text)->0 }
}

/// How an operation on the post named by `text` starts: with `first`, or,
/// where the text is no identifier, with its end as `InvalidInput`, before
/// any store is touched.
pub open spec fn opening(text: Seq<char>, first: (WorkflowView, StoreRequestView)) -> (
    WorkflowView,
    StoreRequestView,
) {
    if parsed_uuid(text) is Some {
        first
    } else {
        stop(BackendError::InvalidInput)
    }
}

/// The first step of an approval.
pub open spec fn approval(id: PostId) -> (WorkflowView, StoreRequestView) {
    (WorkflowView::ApproveReading { id }, StoreRequestView::ReadPending { id })
}

/// The first step of a re-submission for edit.
pub open spec fn resubmission(id: PostId, editor: Seq<char>, now: Timestamp, draft: PostDraftView) -> (
    WorkflowView,
    StoreRequestView,
) {
    (
        WorkflowView::ResubmitReadingLog { id, editor, now, draft },
        StoreRequestView::ReadEditLog { id },
    )
}

/// The first step of the deletion of a published post.
pub open spec fn deletion(id: PostId) -> (WorkflowView, StoreRequestView) {
    (
        WorkflowView::DeleteReleasing { id },
        StoreRequestView::Relational { write: RelWriteView::DeleteOwnership { post_id: id } },
    )
}

/// The first step of the deletion of a pending post.
pub open spec fn discarding(id: PostId) -> (WorkflowView, StoreRequestView) {
    (
        WorkflowView::DiscardRemoving { id },
        StoreRequestView::Transact { job: ContentJobView::DeletePending { id } },
    )
}

/// Starts the approval of the pending post `post_id`.
pub fn approve_post(post_id: &str) -> (r: (Workflow, StoreRequest))
    ensures
        (r.0@, r.1@) == opening(post_id@, approval(named_id(post_id@))),
{
    match PostId::parse(post_id) {
        Ok(id) => (Workflow::ApproveReading { id }, StoreRequest::ReadPending { id }),
        Err(_) => stop_with(BackendError::InvalidInput),
    }
}

/// Starts the re-submission of the published post `post_id` at a given time:
/// the edit by `editor` is logged, the post is taken back to the pending
/// tables, and the cleaned `draft` is applied to it there.
pub fn re_submit_at(post_id: &str, editor: String, now: Timestamp, draft: PostDraft) -> (r: (
    Workflow,
    StoreRequest,
))
    ensures
        (r.0@, r.1@) == opening(
            post_id@,
            resubmission(named_id(post_id@), editor@, now, draft@.sanitized()),
        ),
{
    match PostId::parse(post_id) {
        Ok(id) => (
            Workflow::ResubmitReadingLog { id, editor, now, draft: draft.sanitize() },
            StoreRequest::ReadEditLog { id },
        ),
        Err(_) => stop_with(BackendError::InvalidInput),
    }
}

/// Starts the re-submission of the published post `post_id` for approval,
/// with the current time as the time of the edit.
pub fn re_submit_for_approval(post_id: &str, editor: String, draft: PostDraft) -> (r: (
    Workflow,
    StoreRequest,
))
    ensures
        exists|now: Timestamp|
            (r.0@, r.1@) == opening(
                post_id@,
                #[trigger] resubmission(named_id(post_id@), editor@, now, draft@.sanitized()),
            ),
{
    let now = current_time();
    re_submit_at(post_id, editor, now, draft)
}

/// The one step of an edit of a pending post by its author.
pub open spec fn pending_edit(id: PostId, now: Timestamp, draft: PostDraftView) -> (
    WorkflowView,
    StoreRequestView,
) {
    (
        WorkflowView::ResubmitUpdating { id },
        StoreRequestView::Transact { job: ContentJobView::UpdatePending { id, now, draft } },
    )
}

/// Starts the edit of the pending post `post_id` at a given time: the
/// cleaned `draft` replaces its fields, its creation time stays.
pub fn update_pending_post_at(post_id: &str, now: Timestamp, draft: PostDraft) -> (r: (
    Workflow,
    StoreRequest,
))
    ensures
        (r.0@, r.1@) == opening(
            post_id@,
            pending_edit(named_id(post_id@), now, draft@.sanitized()),
        ),
{
    match PostId::parse(post_id) {
        Ok(id) => (
            Workflow::ResubmitUpdating { id },
            StoreRequest::Transact {
                job: ContentJob::UpdatePending { id, now, draft: draft.sanitize() },
            },
        ),
        Err(_) => stop_with(BackendError::InvalidInput),
    }
}

/// Starts the edit of the pending post `post_id`, with the current time as
/// the time of the edit.
pub fn update_pending_post(post_id: &str, draft: PostDraft) -> (r: (Workflow, StoreRequest))
    ensures
        exists|now: Timestamp|
            (r.0@, r.1@) == opening(
                post_id@,
                #[trigger] pending_edit(named_id(post_id@), now, draft@.sanitized()),
            ),
{
    let now = current_time();
    update_pending_post_at(post_id, now, draft)
}

/// Starts the deletion of the published post `post_id`.
pub fn delete_post(post_id: &str) -> (r: (Workflow, StoreRequest))
    ensures
        (r.0@, r.1@) == opening(post_id@, deletion(named_id(post_id@))),
{
    match PostId::parse(post_id) {
        Ok(id) => (
            Workflow::DeleteReleasing { id },
            StoreRequest::Relational { write: RelWrite::DeleteOwnership { post_id: id } },
        ),
        Err(_) => stop_with(BackendError::InvalidInput),
    }
}

/// Starts the deletion of the pending post `post_id`.
pub fn delete_pending_post(post_id: &str) -> (r: (Workflow, StoreRequest))
    ensures
        (r.0@, r.1@) == opening(post_id@, discarding(named_id(post_id@))),
{
    match PostId::parse(post_id) {
        Ok(id) => (
            Workflow::DiscardRemoving { id },
            StoreRequest::Transact { job: ContentJob::DeletePending { id } },
        ),
        Err(_) => stop_with(BackendError::InvalidInput),
    }
}

} // verus!
