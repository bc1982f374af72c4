//! What the lifecycle does to the two stores: the laws of the backend.
//!
//! A `World` is the content of both stores. `serve` says how stores that do
//! not fail answer a request, `run` carries a workflow through to its end,
//! and the lemmas state what every such run leaves behind.

use vstd::prelude::*;
use crate::error::BackendError;
use crate::ident::{parsed_uuid, PostId};
use crate::index::{
    chrono_entry, inverted, keyword_entries, lemma_range_selects_token, range_end, range_start,
    tag_entries, tag_source,
};
use crate::tags::{all_tags, lemma_path_tag_found_under};
use crate::text::{is_space, lowercase};
use crate::jobs::{ContentJobView, PostDraftView, StoredPostView};
use crate::kv::{ChronoKey, KvState, Shelf, TokenKeyView};
use crate::lifecycle::{
    approval, deletion, discarding, named_id, next, opening, resubmission, submission,
    StoreReplyView, StoreRequestView, WorkflowView,
};
use crate::model::Timestamp;
use crate::ownership::{author_of, log_appended, OwnershipRow, RelState, RelWriteView};

verus! {

/// The content of both stores.
#[verifier::ext_equal]
pub struct World {
    pub kv: KvState,
    pub rel: RelState,
}

/// How the stores answer `request`, and what they hold afterwards, when the
/// key-value store is up (`kv_up`) and when its write transactions fail.
/// A failed or refused transaction writes nothing.
pub open spec fn serve(w: World, request: StoreRequestView, kv_up: bool) -> (World, StoreReplyView) {
    match request {
        StoreRequestView::ReadPending { id } => (
            w,
            StoreReplyView::Rows { rows: w.kv.rows(Shelf::Pending, id) },
        ),
        StoreRequestView::Transact { job } => if !kv_up {
            (w, StoreReplyView::Failed)
        } else {
            match w.kv.outcome(job) {
                Ok(kv) => (World { kv, rel: w.rel }, StoreReplyView::Committed),
                Err(error) => (w, StoreReplyView::Refused { error }),
            }
        },
        StoreRequestView::FindPendingOwner { id } => (
            w,
            StoreReplyView::Owner { user_id: w.rel.pending_owner(id) },
        ),
        StoreRequestView::FindOwner { id } => (w, StoreReplyView::Owner { user_id: w.rel.owner(id) }),
        StoreRequestView::ReadEditLog { id } => (
            w,
            StoreReplyView::EditLog { log: w.rel.edit_log(id) },
        ),
        StoreRequestView::Relational { write } => if w.rel.accepts(write) {
            (
                World { kv: w.kv, rel: w.rel.apply(write) },
                StoreReplyView::Written { changed: w.rel.changes(write) },
            )
        } else {
            (w, StoreReplyView::Failed)
        },
        StoreRequestView::Finish { outcome } => (w, StoreReplyView::Failed),
    }
}

/// The stores and the outcome once the workflow at `stage`, which asks for
/// `request`, has been carried on for at most `steps` requests. There is no
/// outcome where the workflow has not ended by then.
pub open spec fn run(
    w: World,
    stage: WorkflowView,
    request: StoreRequestView,
    steps: nat,
    kv_up: bool,
) -> (World, Option<Result<PostId, BackendError>>)
    decreases steps,
{
    match request {
        StoreRequestView::Finish { outcome } => (w, Some(outcome)),
        _ => if steps == 0 {
            (w, None)
        } else {
            let served = serve(w, request, kv_up);
            let then = next(stage, served.1);
            run(served.0, then.0, then.1, (steps - 1) as nat, kv_up)
        },
    }
}

/// A workflow from its first step to its end.
pub open spec fn complete(w: World, start: (WorkflowView, StoreRequestView), kv_up: bool) -> (
    World,
    Option<Result<PostId, BackendError>>,
) {
    run(w, start.0, start.1, 8, kv_up)
}

impl World {
    /// Whether the post is pending: both rows are in the pending tables.
    pub open spec fn is_pending(self, id: PostId) -> bool {
        self.kv.holds(Shelf::Pending, id)
    }

    /// Whether the post is published: both rows are in the published tables.
    pub open spec fn is_published(self, id: PostId) -> bool {
        self.kv.holds(Shelf::Published, id)
    }

    /// The author that an approval finds for a pending post.
    pub open spec fn author(self, id: PostId) -> Option<i32> {
        author_of(self.rel.pending_owner(id), self.rel.owner(id))
    }

    /// What a successful approval of the pending post `id` leaves: the post
    /// published with the content and metadata it had while pending and
    /// fully indexed, its pending rows gone, an ownership row for its author
    /// unless it had one, no pending-ownership row.
    pub open spec fn approved(self, id: PostId) -> World {
        World {
            kv: self.kv.published(
                id,
                self.kv.pending_posts[id],
                self.kv.pending_metadata[id],
            ).without(Shelf::Pending, id),
            rel: RelState {
                ownership: if self.rel.ownership.contains_key(id) {
                    self.rel.ownership
                } else {
                    self.rel.ownership.insert(
                        id,
                        OwnershipRow { user_id: self.author(id)->0, edit_log: Seq::empty() },
                    )
                },
                pending_ownership: self.rel.pending_ownership.remove(id),
            },
        }
    }

    /// What a successful re-submission of the published post `id` leaves:
    /// the edit logged, the post in the pending tables with the draft
    /// applied and its creation time kept, gone from the published tables
    /// and from every index. The ownership row stays.
    pub open spec fn resubmitted(self, id: PostId, editor: Seq<char>, now: Timestamp, draft: PostDraftView) -> World {
        World {
            kv: self.kv.withdrawn(id, self.kv.posts[id], self.kv.metadata[id]).put(
                Shelf::Pending,
                id,
                draft.content,
                draft.metadata(self.kv.metadata[id].created_at, Some(now)),
            ),
            rel: RelState {
                ownership: self.rel.ownership.insert(
                    id,
                    OwnershipRow {
                        user_id: self.rel.ownership[id].user_id,
                        edit_log: log_appended(self.rel.ownership[id].edit_log, editor, now),
                    },
                ),
                pending_ownership: self.rel.pending_ownership,
            },
        }
    }

    /// What the deletion of the published post `id` leaves: no ownership
    /// row, no published rows, no index entries.
    pub open spec fn deleted(self, id: PostId) -> World {
        World {
            kv: self.kv.deleted(
                id,
                if self.kv.metadata.contains_key(id) {
                    Some(self.kv.metadata[id])
                } else {
                    None
                },
            ),
            rel: RelState {
                ownership: self.rel.ownership.remove(id),
                pending_ownership: self.rel.pending_ownership,
            },
        }
    }

    /// What the deletion of the pending post `id` leaves: no pending rows
    /// and no pending-ownership row. An ownership row is not touched.
    pub open spec fn discarded(self, id: PostId) -> World {
        World {
            kv: self.kv.without(Shelf::Pending, id),
            rel: RelState {
                ownership: self.rel.ownership,
                pending_ownership: self.rel.pending_ownership.remove(id),
            },
        }
    }

    /// What a successful submission leaves: the post in the pending tables
    /// and a pending-ownership row for its author.
    pub open spec fn submitted(self, id: PostId, created_at: Timestamp, user_id: i32, draft: PostDraftView) -> World {
        World {
            kv: self.kv.put(Shelf::Pending, id, draft.content, draft.metadata(created_at, None)),
            rel: RelState {
                ownership: self.rel.ownership,
                pending_ownership: self.rel.pending_ownership.insert(id, user_id),
            },
        }
    }

    /// The invariant of the stores. Content and metadata come in pairs; no
    /// post is published and pending at once; the three indices hold exactly
    /// the entries of the published posts; every published post has an
    /// ownership row, every pending post has a pending-ownership row or an
    /// ownership row, and a pending-ownership row belongs to a pending post.
    pub open spec fn sound(self) -> bool {
        &&& forall|id: PostId| #[trigger]
            self.kv.posts.contains_key(id) <==> self.kv.metadata.contains_key(id)
        &&& forall|id: PostId| #[trigger]
            self.kv.pending_posts.contains_key(id) <==> self.kv.pending_metadata.contains_key(id)
        &&& forall|id: PostId|
            !(#[trigger] self.kv.posts.contains_key(id) && self.kv.pending_posts.contains_key(id))
        &&& forall|k: TokenKeyView| #[trigger]
            self.kv.tag_index.contains(k) <==> self.kv.metadata.contains_key(k.id) && tag_entries(
                k.id,
                self.kv.metadata[k.id],
            ).contains(k)
        &&& forall|k: TokenKeyView| #[trigger]
            self.kv.keyword_index.contains(k) <==> self.kv.metadata.contains_key(k.id)
                && keyword_entries(k.id, self.kv.metadata[k.id]).contains(k)
        &&& forall|k: ChronoKey| #[trigger]
            self.kv.chrono_index.contains(k) <==> self.kv.metadata.contains_key(k.id) && k
                == chrono_entry(k.id, self.kv.metadata[k.id])
        &&& forall|id: PostId| #[trigger]
            self.kv.posts.contains_key(id) ==> self.rel.ownership.contains_key(id)
        &&& forall|id: PostId| #[trigger]
            self.kv.pending_posts.contains_key(id) ==> self.rel.pending_ownership.contains_key(id)
                || self.rel.ownership.contains_key(id)
        &&& forall|id: PostId| #[trigger]
            self.rel.pending_ownership.contains_key(id) ==> self.kv.pending_posts.contains_key(id)
    }
}

/// Stores that hold nothing keep the invariant.
pub proof fn lemma_empty_stores_are_sound()
    ensures
        (World {
            kv: KvState::empty(),
            rel: RelState { ownership: Map::empty(), pending_ownership: Map::empty() },
        }).sound(),
{
}

/// An approval of a pending post whose author can be found succeeds, and
/// leaves the post published with the content it had while pending, absent
/// from the pending tables, owned by its author.
pub proof fn lemma_approval_publishes(w: World, text: Seq<char>)
    requires
        parsed_uuid(text) is Some,
        w.is_pending(named_id(text)),
        w.author(named_id(text)) is Some,
    ensures
        complete(w, opening(text, approval(named_id(text))), true) == (
            w.approved(named_id(text)),
            Some(Ok::<PostId, BackendError>(named_id(text))),
        ),
        w.approved(named_id(text)).is_published(named_id(text)),
        !w.approved(named_id(text)).kv.pending_posts.contains_key(named_id(text)),
        !w.approved(named_id(text)).kv.pending_metadata.contains_key(named_id(text)),
        w.approved(named_id(text)).kv.posts[named_id(text)] == w.kv.pending_posts[named_id(text)],
        w.approved(named_id(text)).kv.metadata[named_id(text)] == w.kv.pending_metadata[named_id(
            text,
        )],
        w.approved(named_id(text)).rel.owner(named_id(text)) is Some,
        w.approved(named_id(text)).rel.pending_owner(named_id(text)) is None,
{
    let id = named_id(text);
    let post = StoredPostView { content: w.kv.pending_posts[id], metadata: w.kv.pending_metadata[id] };
    let author = w.author(id)->0;
    let start = approval(id);
    reveal_with_fuel(run, 9);
    // the pending rows are read
    let s1 = serve(w, start.1, true);
    let n1 = next(start.0, s1.1);
    assert(n1.1 == StoreRequestView::FindPendingOwner { id });
    // the author is found in one of the two ownership tables
    let s2 = serve(s1.0, n1.1, true);
    let n2 = next(n1.0, s2.1);
    let ask = StoreRequestView::Relational {
        write: RelWriteView::InsertOwnershipIfAbsent { post_id: id, user_id: author },
    };
    let recording = WorkflowView::ApproveRecordingOwner { id, post };
    if w.rel.pending_owner(id) is Some {
        assert(n2 == (recording, ask));
        lemma_approval_from_owner(w, id, post, author);
    } else {
        assert(n2.1 == StoreRequestView::FindOwner { id });
        let s3 = serve(s2.0, n2.1, true);
        let n3 = next(n2.0, s3.1);
        assert(n3 == (recording, ask));
        lemma_approval_from_owner(w, id, post, author);
    }
    assert(w.approved(id).kv.posts[id] == w.kv.pending_posts[id]);
}

/// The second half of an approval, from the insertion of the ownership row.
proof fn lemma_approval_from_owner(w: World, id: PostId, post: StoredPostView, author: i32)
    requires
        w.is_pending(id),
        w.author(id) == Some(author),
        post == (StoredPostView {
            content: w.kv.pending_posts[id],
            metadata: w.kv.pending_metadata[id],
        }),
    ensures
        run(
            w,
            WorkflowView::ApproveRecordingOwner { id, post },
            StoreRequestView::Relational {
                write: RelWriteView::InsertOwnershipIfAbsent { post_id: id, user_id: author },
            },
            5,
            true,
        ) == (w.approved(id), Some(Ok::<PostId, BackendError>(id))),
{
    reveal_with_fuel(run, 6);
    let stage = WorkflowView::ApproveRecordingOwner { id, post };
    let ask = StoreRequestView::Relational {
        write: RelWriteView::InsertOwnershipIfAbsent { post_id: id, user_id: author },
    };
    let s1 = serve(w, ask, true);
    let n1 = next(stage, s1.1);
    assert(n1.1 == StoreRequestView::Transact { job: ContentJobView::Publish { id, post } });
    let s2 = serve(s1.0, n1.1, true);
    let n2 = next(n1.0, s2.1);
    assert(n2.1 == StoreRequestView::Transact { job: ContentJobView::DeletePending { id } });
    let s3 = serve(s2.0, n2.1, true);
    let n3 = next(n2.0, s3.1);
    assert(n3.1 == StoreRequestView::Relational {
        write: RelWriteView::DeletePendingOwnership { post_id: id },
    });
    let s4 = serve(s3.0, n3.1, true);
    let n4 = next(n3.0, s4.1);
    assert(n4.1 == StoreRequestView::Finish { outcome: Ok(id) });
    assert(s4.0.kv =~= w.approved(id).kv);
    assert(s4.0.rel =~= w.approved(id).rel);
    assert(s4.0 =~= w.approved(id));
}

/// After an approval the tag index holds, for the post, exactly one entry
/// for each tag the post is found under, and likewise the keyword index and
/// the chronological index; the entries of other posts are as before.
pub proof fn lemma_approval_indexes(w: World, id: PostId)
    requires
        w.sound(),
        w.is_pending(id),
    ensures
        w.approved(id).kv.tag_entries_of(id) == tag_entries(id, w.kv.pending_metadata[id]),
        w.approved(id).kv.keyword_entries_of(id) == keyword_entries(
            id,
            w.kv.pending_metadata[id],
        ),
        w.approved(id).kv.chrono_entries_of(id) == set![chrono_entry(id, w.kv.pending_metadata[id])],
        forall|other: PostId|
            other != id ==> #[trigger] w.approved(id).kv.tag_entries_of(other)
                == w.kv.tag_entries_of(other),
{
    let after = w.approved(id).kv;
    let meta = w.kv.pending_metadata[id];
    assert(!w.kv.posts.contains_key(id));
    assert(!w.kv.metadata.contains_key(id));
    assert(after.tag_entries_of(id) =~= tag_entries(id, meta));
    assert(after.keyword_entries_of(id) =~= keyword_entries(id, meta));
    assert(after.chrono_entries_of(id) =~= set![chrono_entry(id, meta)]);
    assert forall|other: PostId| other != id implies #[trigger] after.tag_entries_of(other)
        == w.kv.tag_entries_of(other) by {
        assert(after.tag_entries_of(other) =~= w.kv.tag_entries_of(other));
    }
}

/// An approval keeps the invariant of the stores.
pub proof fn lemma_approval_keeps_sound(w: World, id: PostId)
    requires
        w.sound(),
        w.is_pending(id),
        w.author(id) is Some,
    ensures
        w.approved(id).sound(),
{
    let a = w.approved(id);
    assert(!w.kv.posts.contains_key(id));
    assert(!w.kv.metadata.contains_key(id));
    assert forall|k: TokenKeyView| #[trigger]
        a.kv.tag_index.contains(k) <==> a.kv.metadata.contains_key(k.id) && tag_entries(
            k.id,
            a.kv.metadata[k.id],
        ).contains(k) by {
        assert(w.kv.tag_index.contains(k) <==> w.kv.metadata.contains_key(k.id) && tag_entries(
            k.id,
            w.kv.metadata[k.id],
        ).contains(k));
    }
    assert forall|k: TokenKeyView| #[trigger]
        a.kv.keyword_index.contains(k) <==> a.kv.metadata.contains_key(k.id) && keyword_entries(
            k.id,
            a.kv.metadata[k.id],
        ).contains(k) by {
        assert(w.kv.keyword_index.contains(k) <==> w.kv.metadata.contains_key(k.id)
            && keyword_entries(k.id, w.kv.metadata[k.id]).contains(k));
    }
    assert forall|k: ChronoKey| #[trigger]
        a.kv.chrono_index.contains(k) <==> a.kv.metadata.contains_key(k.id) && k == chrono_entry(
            k.id,
            a.kv.metadata[k.id],
        ) by {
        assert(w.kv.chrono_index.contains(k) <==> w.kv.metadata.contains_key(k.id) && k
            == chrono_entry(k.id, w.kv.metadata[k.id]));
    }
}

/// Approving again a post that already has its ownership row, as a repeated
/// request does after a failure past the ownership step, succeeds and leaves
/// the ownership table exactly as it was: no second row, no changed row.
pub proof fn lemma_repeated_approval_keeps_ownership(w: World, text: Seq<char>)
    requires
        parsed_uuid(text) is Some,
        w.is_pending(named_id(text)),
        w.rel.ownership.contains_key(named_id(text)),
    ensures
        complete(w, opening(text, approval(named_id(text))), true).1 == Some(
            Ok::<PostId, BackendError>(named_id(text)),
        ),
        complete(w, opening(text, approval(named_id(text))), true).0.rel.ownership
            == w.rel.ownership,
{
    lemma_approval_publishes(w, text);
}

/// An approval whose publication fails leaves both stores as they were: the
/// ownership row that the approval wrote is deleted again, and a row that
/// was there before is not touched. The failure is reported.
pub proof fn lemma_failed_publication_is_undone(w: World, text: Seq<char>)
    requires
        parsed_uuid(text) is Some,
        w.is_pending(named_id(text)),
        w.author(named_id(text)) is Some,
    ensures
        complete(w, opening(text, approval(named_id(text))), false) == (
            w,
            Some(Err::<PostId, BackendError>(BackendError::StoreError)),
        ),
{
    let id = named_id(text);
    let post = StoredPostView { content: w.kv.pending_posts[id], metadata: w.kv.pending_metadata[id] };
    let author = w.author(id)->0;
    let start = approval(id);
    reveal_with_fuel(run, 9);
    let s1 = serve(w, start.1, false);
    let n1 = next(start.0, s1.1);
    assert(n1.1 == StoreRequestView::FindPendingOwner { id });
    let s2 = serve(s1.0, n1.1, false);
    let n2 = next(n1.0, s2.1);
    let ask = StoreRequestView::Relational {
        write: RelWriteView::InsertOwnershipIfAbsent { post_id: id, user_id: author },
    };
    let recording = WorkflowView::ApproveRecordingOwner { id, post };
    if w.rel.pending_owner(id) is Some {
        assert(n2 == (recording, ask));
    } else {
        let s3 = serve(s2.0, n2.1, false);
        let n3 = next(n2.0, s3.1);
        assert(n3 == (recording, ask));
    }
    let s4 = serve(w, ask, false);
    let n4 = next(recording, s4.1);
    let s5 = serve(s4.0, n4.1, false);
    let n5 = next(n4.0, s5.1);
    if w.rel.ownership.contains_key(id) {
        assert(n5.1 == StoreRequestView::Finish { outcome: Err(BackendError::StoreError) });
        assert(s5.0 =~= w);
    } else {
        let s6 = serve(s5.0, n5.1, false);
        let n6 = next(n5.0, s6.1);
        assert(n6.1 == StoreRequestView::Finish { outcome: Err(BackendError::StoreError) });
        assert(s6.0.rel =~= w.rel);
        assert(s6.0 =~= w);
    }
}

/// An approval of a post that is not pending ends with `NotFound` and
/// changes nothing.
pub proof fn lemma_approval_needs_pending_rows(w: World, text: Seq<char>)
    requires
        parsed_uuid(text) is Some,
        !w.kv.pending_posts.contains_key(named_id(text)) || !w.kv.pending_metadata.contains_key(
            named_id(text),
        ),
    ensures
        complete(w, opening(text, approval(named_id(text))), true) == (
            w,
            Some(Err::<PostId, BackendError>(BackendError::NotFound)),
        ),
{
    reveal_with_fuel(run, 3);
}

/// An operation on text that is no identifier ends with `InvalidInput`
/// before any store is asked.
pub proof fn lemma_malformed_identifier_is_refused(
    w: World,
    text: Seq<char>,
    first: (WorkflowView, StoreRequestView),
    kv_up: bool,
)
    requires
        parsed_uuid(text) is None,
    ensures
        complete(w, opening(text, first), kv_up) == (
            w,
            Some(Err::<PostId, BackendError>(BackendError::InvalidInput)),
        ),
{
    reveal_with_fuel(run, 2);
}

/// A re-submission of a published post that has its ownership row succeeds
/// and leaves the post pending with the draft applied, logged as edited.
pub proof fn lemma_resubmission_withdraws(
    w: World,
    text: Seq<char>,
    editor: Seq<char>,
    now: Timestamp,
    draft: PostDraftView,
)
    requires
        parsed_uuid(text) is Some,
        w.is_published(named_id(text)),
        w.rel.ownership.contains_key(named_id(text)),
    ensures
        complete(w, opening(text, resubmission(named_id(text), editor, now, draft)), true) == (
            w.resubmitted(named_id(text), editor, now, draft),
            Some(Ok::<PostId, BackendError>(named_id(text))),
        ),
        w.resubmitted(named_id(text), editor, now, draft).is_pending(named_id(text)),
        !w.resubmitted(named_id(text), editor, now, draft).kv.posts.contains_key(named_id(text)),
        !w.resubmitted(named_id(text), editor, now, draft).kv.metadata.contains_key(
            named_id(text),
        ),
        w.resubmitted(named_id(text), editor, now, draft).kv.pending_metadata[named_id(
            text,
        )].created_at == w.kv.metadata[named_id(text)].created_at,
        w.resubmitted(named_id(text), editor, now, draft).rel.owner(named_id(text))
            == w.rel.owner(named_id(text)),
{
    let id = named_id(text);
    let start = resubmission(id, editor, now, draft);
    reveal_with_fuel(run, 6);
    let s1 = serve(w, start.1, true);
    let n1 = next(start.0, s1.1);
    let s2 = serve(s1.0, n1.1, true);
    let n2 = next(n1.0, s2.1);
    assert(n2.1 == StoreRequestView::Transact { job: ContentJobView::MoveToPending { id } });
    let s3 = serve(s2.0, n2.1, true);
    let n3 = next(n2.0, s3.1);
    assert(s3.0.kv == w.kv.withdrawn(id, w.kv.posts[id], w.kv.metadata[id]));
    assert(s3.0.kv.holds(Shelf::Pending, id));
    assert(n3.1 == StoreRequestView::Transact { job: ContentJobView::UpdatePending { id, now, draft } });
    let s4 = serve(s3.0, n3.1, true);
    let n4 = next(n3.0, s4.1);
    assert(n4.1 == StoreRequestView::Finish { outcome: Ok(id) });
    let goal = w.resubmitted(id, editor, now, draft);
    assert(s4.0.kv =~= goal.kv);
    assert(s4.0.rel =~= goal.rel);
    assert(s4.0 =~= goal);
}

/// A re-submission keeps the invariant of the stores.
pub proof fn lemma_resubmission_keeps_sound(
    w: World,
    id: PostId,
    editor: Seq<char>,
    now: Timestamp,
    draft: PostDraftView,
)
    requires
        w.sound(),
        w.is_published(id),
    ensures
        w.resubmitted(id, editor, now, draft).sound(),
{
    let a = w.resubmitted(id, editor, now, draft);
    assert forall|k: TokenKeyView| #[trigger]
        a.kv.tag_index.contains(k) <==> a.kv.metadata.contains_key(k.id) && tag_entries(
            k.id,
            a.kv.metadata[k.id],
        ).contains(k) by {
        assert(w.kv.tag_index.contains(k) <==> w.kv.metadata.contains_key(k.id) && tag_entries(
            k.id,
            w.kv.metadata[k.id],
        ).contains(k));
    }
    assert forall|k: TokenKeyView| #[trigger]
        a.kv.keyword_index.contains(k) <==> a.kv.metadata.contains_key(k.id) && keyword_entries(
            k.id,
            a.kv.metadata[k.id],
        ).contains(k) by {
        assert(w.kv.keyword_index.contains(k) <==> w.kv.metadata.contains_key(k.id)
            && keyword_entries(k.id, w.kv.metadata[k.id]).contains(k));
    }
    assert forall|k: ChronoKey| #[trigger]
        a.kv.chrono_index.contains(k) <==> a.kv.metadata.contains_key(k.id) && k == chrono_entry(
            k.id,
            a.kv.metadata[k.id],
        ) by {
        assert(w.kv.chrono_index.contains(k) <==> w.kv.metadata.contains_key(k.id) && k
            == chrono_entry(k.id, w.kv.metadata[k.id]));
    }
}

/// The deletion of a pending post succeeds and leaves neither its pending
/// rows nor its pending-ownership row.
pub proof fn lemma_discarding_removes(w: World, text: Seq<char>)
    requires
        parsed_uuid(text) is Some,
    ensures
        complete(w, opening(text, discarding(named_id(text))), true) == (
            w.discarded(named_id(text)),
            Some(Ok::<PostId, BackendError>(named_id(text))),
        ),
        !w.discarded(named_id(text)).kv.pending_posts.contains_key(named_id(text)),
        !w.discarded(named_id(text)).kv.pending_metadata.contains_key(named_id(text)),
        w.discarded(named_id(text)).rel.pending_owner(named_id(text)) is None,
        w.discarded(named_id(text)).rel.ownership == w.rel.ownership,
        w.discarded(named_id(text)).kv.posts == w.kv.posts,
        w.discarded(named_id(text)).kv.metadata == w.kv.metadata,
{
    let id = named_id(text);
    let start = discarding(id);
    reveal_with_fuel(run, 4);
    let s1 = serve(w, start.1, true);
    let n1 = next(start.0, s1.1);
    let s2 = serve(s1.0, n1.1, true);
    let n2 = next(n1.0, s2.1);
    assert(n2.1 == StoreRequestView::Finish { outcome: Ok(id) });
    assert(s2.0.rel =~= w.discarded(id).rel);
    assert(s2.0 =~= w.discarded(id));
}

/// The deletion of a pending post keeps the invariant of the stores.
pub proof fn lemma_discarding_keeps_sound(w: World, id: PostId)
    requires
        w.sound(),
    ensures
        w.discarded(id).sound(),
{
}

/// Taking a published post back for editing and then deleting the pending
/// post leaves the ownership row of the post in place, with the edit in its
/// log: only the pending rows disappear.
pub proof fn lemma_ownership_survives_discarded_edit(
    w: World,
    text: Seq<char>,
    editor: Seq<char>,
    now: Timestamp,
    draft: PostDraftView,
)
    requires
        parsed_uuid(text) is Some,
        w.is_published(named_id(text)),
        w.rel.ownership.contains_key(named_id(text)),
    ensures
        ({
            let id = named_id(text);
            let edited = complete(w, opening(text, resubmission(id, editor, now, draft)), true).0;
            let last = complete(edited, opening(text, discarding(id)), true);
            &&& last.1 == Some(Ok::<PostId, BackendError>(id))
            &&& last.0.rel.ownership.contains_key(id)
            &&& last.0.rel.ownership[id].user_id == w.rel.ownership[id].user_id
            &&& last.0.rel.ownership[id].edit_log == log_appended(
                w.rel.ownership[id].edit_log,
                editor,
                now,
            )
            &&& !last.0.kv.pending_posts.contains_key(id)
            &&& !last.0.kv.pending_metadata.contains_key(id)
            &&& !last.0.kv.posts.contains_key(id)
        }),
{
    let id = named_id(text);
    lemma_resubmission_withdraws(w, text, editor, now, draft);
    lemma_discarding_removes(w.resubmitted(id, editor, now, draft), text);
}

/// The deletion of a published post succeeds and leaves no ownership row,
/// no published rows and no index entry of the post.
pub proof fn lemma_deletion_removes(w: World, text: Seq<char>)
    requires
        parsed_uuid(text) is Some,
    ensures
        complete(w, opening(text, deletion(named_id(text))), true) == (
            w.deleted(named_id(text)),
            Some(Ok::<PostId, BackendError>(named_id(text))),
        ),
        !w.deleted(named_id(text)).kv.posts.contains_key(named_id(text)),
        !w.deleted(named_id(text)).kv.metadata.contains_key(named_id(text)),
        w.deleted(named_id(text)).rel.owner(named_id(text)) is None,
{
    let id = named_id(text);
    let start = deletion(id);
    reveal_with_fuel(run, 4);
    let s1 = serve(w, start.1, true);
    let n1 = next(start.0, s1.1);
    let s2 = serve(s1.0, n1.1, true);
    let n2 = next(n1.0, s2.1);
    assert(n2.1 == StoreRequestView::Finish { outcome: Ok(id) });
    assert(s2.0.rel =~= w.deleted(id).rel);
    assert(s2.0 =~= w.deleted(id));
}

/// The deletion of a published post keeps the invariant of the stores, and
/// leaves no index entry of the post.
pub proof fn lemma_deletion_keeps_sound(w: World, id: PostId)
    requires
        w.sound(),
        w.is_published(id),
    ensures
        w.deleted(id).sound(),
        w.deleted(id).kv.tag_entries_of(id) == Set::<TokenKeyView>::empty(),
        w.deleted(id).kv.keyword_entries_of(id) == Set::<TokenKeyView>::empty(),
        w.deleted(id).kv.chrono_entries_of(id) == Set::<ChronoKey>::empty(),
{
    let a = w.deleted(id);
    assert forall|k: TokenKeyView| #[trigger]
        a.kv.tag_index.contains(k) <==> a.kv.metadata.contains_key(k.id) && tag_entries(
            k.id,
            a.kv.metadata[k.id],
        ).contains(k) by {
        assert(w.kv.tag_index.contains(k) <==> w.kv.metadata.contains_key(k.id) && tag_entries(
            k.id,
            w.kv.metadata[k.id],
        ).contains(k));
    }
    assert forall|k: TokenKeyView| #[trigger]
        a.kv.keyword_index.contains(k) <==> a.kv.metadata.contains_key(k.id) && keyword_entries(
            k.id,
            a.kv.metadata[k.id],
        ).contains(k) by {
        assert(w.kv.keyword_index.contains(k) <==> w.kv.metadata.contains_key(k.id)
            && keyword_entries(k.id, w.kv.metadata[k.id]).contains(k));
    }
    assert forall|k: ChronoKey| #[trigger]
        a.kv.chrono_index.contains(k) <==> a.kv.metadata.contains_key(k.id) && k == chrono_entry(
            k.id,
            a.kv.metadata[k.id],
        ) by {
        assert(w.kv.chrono_index.contains(k) <==> w.kv.metadata.contains_key(k.id) && k
            == chrono_entry(k.id, w.kv.metadata[k.id]));
    }
    assert(a.kv.tag_entries_of(id) =~= Set::<TokenKeyView>::empty());
    assert(a.kv.keyword_entries_of(id) =~= Set::<TokenKeyView>::empty());
    assert(a.kv.chrono_entries_of(id) =~= Set::<ChronoKey>::empty());
}

/// A submission under an identifier that no table knows succeeds, leaves the
/// post pending and owned by its author, and keeps the invariant.
pub proof fn lemma_submission_stores(
    w: World,
    id: PostId,
    created_at: Timestamp,
    user_id: i32,
    draft: PostDraftView,
)
    requires
        w.sound(),
        !w.kv.posts.contains_key(id),
        !w.kv.pending_posts.contains_key(id),
    ensures
        complete(w, submission(id, created_at, user_id, draft), true) == (
            w.submitted(id, created_at, user_id, draft),
            Some(Ok::<PostId, BackendError>(id)),
        ),
        w.submitted(id, created_at, user_id, draft).is_pending(id),
        w.submitted(id, created_at, user_id, draft).author(id) == Some(user_id),
        w.submitted(id, created_at, user_id, draft).sound(),
        w.submitted(id, created_at, user_id, draft).kv.tag_index == w.kv.tag_index,
{
    let start = submission(id, created_at, user_id, draft);
    reveal_with_fuel(run, 4);
    let s1 = serve(w, start.1, true);
    let n1 = next(start.0, s1.1);
    assert(!w.rel.pending_ownership.contains_key(id));
    let s2 = serve(s1.0, n1.1, true);
    let n2 = next(n1.0, s2.1);
    assert(n2.1 == StoreRequestView::Finish { outcome: Ok(id) });
    assert(s2.0.rel =~= w.submitted(id, created_at, user_id, draft).rel);
    assert(s2.0 =~= w.submitted(id, created_at, user_id, draft));
}

/// A post that is submitted and then approved is published with the content
/// of its draft, and the tag index holds for it exactly one entry for each
/// tag that its tags expand to.
pub proof fn lemma_submit_then_approve(
    w: World,
    text: Seq<char>,
    created_at: Timestamp,
    user_id: i32,
    draft: PostDraftView,
)
    requires
        w.sound(),
        parsed_uuid(text) is Some,
        !w.kv.posts.contains_key(named_id(text)),
        !w.kv.pending_posts.contains_key(named_id(text)),
        !w.rel.ownership.contains_key(named_id(text)),
    ensures
        ({
            let id = named_id(text);
            let meta = draft.metadata(created_at, None);
            let pending = complete(w, submission(id, created_at, user_id, draft), true).0;
            let last = complete(pending, opening(text, approval(id)), true);
            &&& last.1 == Some(Ok::<PostId, BackendError>(id))
            &&& last.0.sound()
            &&& !last.0.kv.pending_posts.contains_key(id)
            &&& !last.0.kv.pending_metadata.contains_key(id)
            &&& last.0.kv.posts.contains_key(id)
            &&& last.0.kv.posts[id] == draft.content
            &&& last.0.kv.metadata[id] == meta
            &&& last.0.kv.tag_entries_of(id) == tag_entries(id, meta)
            &&& last.0.rel.owner(id) == Some(user_id)
        }),
{
    let id = named_id(text);
    lemma_submission_stores(w, id, created_at, user_id, draft);
    let pending = w.submitted(id, created_at, user_id, draft);
    lemma_approval_publishes(pending, text);
    lemma_approval_keeps_sound(pending, id);
    lemma_approval_indexes(pending, id);
}

/// Editing a published post in place twice leaves, for that post, exactly
/// the index entries of the second edit: nothing of the first is left over.
pub proof fn lemma_second_edit_replaces_first(
    w: World,
    id: PostId,
    first: PostDraftView,
    at_first: Timestamp,
    second: PostDraftView,
    at_second: Timestamp,
)
    requires
        w.sound(),
        w.is_published(id),
    ensures
        ({
            let once = w.kv.outcome(ContentJobView::UpdatePublished { id, now: at_first, draft: first });
            let twice = once->Ok_0.outcome(
                ContentJobView::UpdatePublished { id, now: at_second, draft: second },
            );
            let meta = second.metadata(w.kv.metadata[id].created_at, Some(at_second));
            &&& once is Ok
            &&& twice is Ok
            &&& twice->Ok_0.metadata[id] == meta
            &&& twice->Ok_0.tag_entries_of(id) == tag_entries(id, meta)
            &&& twice->Ok_0.keyword_entries_of(id) == keyword_entries(id, meta)
            &&& twice->Ok_0.chrono_entries_of(id) == set![chrono_entry(id, meta)]
            &&& (World { kv: twice->Ok_0, rel: w.rel }).sound()
        }),
{
    let job1 = ContentJobView::UpdatePublished { id, now: at_first, draft: first };
    let job2 = ContentJobView::UpdatePublished { id, now: at_second, draft: second };
    lemma_edit_keeps_sound(w, id, first, at_first);
    let mid = World { kv: w.kv.outcome(job1)->Ok_0, rel: w.rel };
    assert(mid.kv.metadata[id].created_at == w.kv.metadata[id].created_at);
    lemma_edit_keeps_sound(mid, id, second, at_second);
}

/// An edit of a published post in place keeps the invariant of the stores
/// and leaves, for that post, exactly the index entries of its new metadata.
pub proof fn lemma_edit_keeps_sound(w: World, id: PostId, draft: PostDraftView, now: Timestamp)
    requires
        w.sound(),
        w.is_published(id),
    ensures
        ({
            let after = w.kv.outcome(ContentJobView::UpdatePublished { id, now, draft });
            let meta = draft.metadata(w.kv.metadata[id].created_at, Some(now));
            &&& after is Ok
            &&& after->Ok_0.holds(Shelf::Published, id)
            &&& after->Ok_0.metadata[id] == meta
            &&& after->Ok_0.tag_entries_of(id) == tag_entries(id, meta)
            &&& after->Ok_0.keyword_entries_of(id) == keyword_entries(id, meta)
            &&& after->Ok_0.chrono_entries_of(id) == set![chrono_entry(id, meta)]
            &&& (World { kv: after->Ok_0, rel: w.rel }).sound()
        }),
{
    let after = w.kv.outcome(ContentJobView::UpdatePublished { id, now, draft })->Ok_0;
    let meta = draft.metadata(w.kv.metadata[id].created_at, Some(now));
    let a = World { kv: after, rel: w.rel };
    assert forall|k: TokenKeyView| #[trigger]
        a.kv.tag_index.contains(k) <==> a.kv.metadata.contains_key(k.id) && tag_entries(
            k.id,
            a.kv.metadata[k.id],
        ).contains(k) by {
        assert(w.kv.tag_index.contains(k) <==> w.kv.metadata.contains_key(k.id) && tag_entries(
            k.id,
            w.kv.metadata[k.id],
        ).contains(k));
    }
    assert forall|k: TokenKeyView| #[trigger]
        a.kv.keyword_index.contains(k) <==> a.kv.metadata.contains_key(k.id) && keyword_entries(
            k.id,
            a.kv.metadata[k.id],
        ).contains(k) by {
        assert(w.kv.keyword_index.contains(k) <==> w.kv.metadata.contains_key(k.id)
            && keyword_entries(k.id, w.kv.metadata[k.id]).contains(k));
    }
    assert forall|k: ChronoKey| #[trigger]
        a.kv.chrono_index.contains(k) <==> a.kv.metadata.contains_key(k.id) && k == chrono_entry(
            k.id,
            a.kv.metadata[k.id],
        ) by {
        assert(w.kv.chrono_index.contains(k) <==> w.kv.metadata.contains_key(k.id) && k
            == chrono_entry(k.id, w.kv.metadata[k.id]));
    }
    assert(after.tag_entries_of(id) =~= tag_entries(id, meta));
    assert(after.keyword_entries_of(id) =~= keyword_entries(id, meta));
    assert(after.chrono_entries_of(id) =~= set![chrono_entry(id, meta)]);
}

/// After a store has failed, an operation asks for no further key-value
/// transaction: it ends with the failure, or it first deletes the ownership
/// row that it wrote and then ends.
pub proof fn lemma_failure_stops_writing(stage: WorkflowView)
    ensures
        next(stage, StoreReplyView::Failed).1 is Finish || (stage is ApprovePublishing && next(
            stage,
            StoreReplyView::Failed,
        ) == (
            WorkflowView::ApproveCompensating { error: BackendError::StoreError },
            StoreRequestView::Relational {
                write: RelWriteView::DeleteOwnership { post_id: stage->ApprovePublishing_id },
            },
        )),
        next(stage, StoreReplyView::Failed).1 matches StoreRequestView::Finish { outcome }
            ==> outcome is Err,
{
}

/// A refusal or a failure never ends an operation as a success.
pub proof fn lemma_success_needs_success(stage: WorkflowView, reply: StoreReplyView)
    requires
        reply is Failed || reply is Refused,
    ensures
        next(stage, reply).1 matches StoreRequestView::Finish { outcome } ==> outcome is Err,
{
}

/// How many requests an operation at `stage` makes at most before it ends,
/// the one that it waits for included.
pub open spec fn requests_left(stage: WorkflowView) -> nat {
    match stage {
        WorkflowView::SubmitStoring { .. } => 2,
        WorkflowView::SubmitRecordingOwner { .. } => 1,
        WorkflowView::ApproveReading { .. } => 7,
        WorkflowView::ApproveFindingPendingOwner { .. } => 6,
        WorkflowView::ApproveFindingOwner { .. } => 5,
        WorkflowView::ApproveRecordingOwner { .. } => 4,
        WorkflowView::ApprovePublishing { .. } => 3,
        WorkflowView::ApproveCompensating { .. } => 1,
        WorkflowView::ApproveClearingPending { .. } => 2,
        WorkflowView::ApproveClearingPendingOwner { .. } => 1,
        WorkflowView::ResubmitReadingLog { .. } => 4,
        WorkflowView::ResubmitStoringLog { .. } => 3,
        WorkflowView::ResubmitMoving { .. } => 2,
        WorkflowView::ResubmitUpdating { .. } => 1,
        WorkflowView::DeleteReleasing { .. } => 2,
        WorkflowView::DeleteRemoving { .. } => 1,
        WorkflowView::DiscardRemoving { .. } => 2,
        WorkflowView::DiscardReleasing { .. } => 1,
        WorkflowView::Finished => 1,
    }
}

/// Every reply brings an operation nearer to its end.
pub proof fn lemma_every_reply_is_progress(stage: WorkflowView, reply: StoreReplyView)
    ensures
        next(stage, reply).1 is Finish || requests_left(next(stage, reply).0) < requests_left(
            stage,
        ),
{
}

/// An operation that is carried on for as many requests as it has left
/// comes to its end, whatever the stores hold and answer.
pub proof fn lemma_run_ends(
    w: World,
    stage: WorkflowView,
    request: StoreRequestView,
    steps: nat,
    kv_up: bool,
)
    requires
        steps >= requests_left(stage),
    ensures
        run(w, stage, request, steps, kv_up).1 is Some,
    decreases steps,
{
    if !(request is Finish) {
        let served = serve(w, request, kv_up);
        let then = next(stage, served.1);
        lemma_every_reply_is_progress(stage, served.1);
        if then.1 is Finish {
            assert(run(served.0, then.0, then.1, (steps - 1) as nat, kv_up).1 is Some);
        } else {
            lemma_run_ends(served.0, then.0, then.1, (steps - 1) as nat, kv_up);
        }
    }
}

/// Every operation ends within eight requests, whatever the stores hold and
/// whether or not the key-value store takes writes.
pub proof fn lemma_operations_end(
    w: World,
    text: Seq<char>,
    editor: Seq<char>,
    now: Timestamp,
    draft: PostDraftView,
    user_id: i32,
    kv_up: bool,
)
    ensures
        complete(w, opening(text, approval(named_id(text))), kv_up).1 is Some,
        complete(w, opening(text, resubmission(named_id(text), editor, now, draft)), kv_up).1
            is Some,
        complete(w, opening(text, deletion(named_id(text))), kv_up).1 is Some,
        complete(w, opening(text, discarding(named_id(text))), kv_up).1 is Some,
        complete(w, submission(named_id(text), now, user_id, draft), kv_up).1 is Some,
{
    let id = named_id(text);
    let a = opening(text, approval(id));
    lemma_run_ends(w, a.0, a.1, 8, kv_up);
    let r = opening(text, resubmission(id, editor, now, draft));
    lemma_run_ends(w, r.0, r.1, 8, kv_up);
    let d = opening(text, deletion(id));
    lemma_run_ends(w, d.0, d.1, 8, kv_up);
    let p = opening(text, discarding(id));
    lemma_run_ends(w, p.0, p.1, 8, kv_up);
    let s = submission(id, now, user_id, draft);
    lemma_run_ends(w, s.0, s.1, 8, kv_up);
}

impl KvState {
    /// Whether a scan of the tag index over the key interval of `tag` meets
    /// an entry of post `id`.
    pub open spec fn found_under(self, tag: Seq<char>, id: PostId) -> bool {
        exists|k: TokenKeyView|
            #[trigger] self.tag_index.contains(k) && k.within(range_start(tag), range_end(tag))
                && k.id == id
    }
}

/// A published post is found by a scan for a tag exactly if the tag is one
/// of those that the tags of the post expand to.
pub proof fn lemma_lookup_by_tag(w: World, id: PostId, tag: Seq<char>)
    requires
        w.sound(),
        w.kv.metadata.contains_key(id),
    ensures
        w.kv.found_under(tag, id) <==> all_tags(tag_source(w.kv.metadata[id])).contains(tag),
{
    let meta = w.kv.metadata[id];
    if w.kv.found_under(tag, id) {
        let k = choose|k: TokenKeyView|
            #[trigger] w.kv.tag_index.contains(k) && k.within(range_start(tag), range_end(tag))
                && k.id == id;
        lemma_range_selects_token(tag, k);
        assert(tag_entries(id, meta).contains(k));
    }
    if all_tags(tag_source(meta)).contains(tag) {
        let k = TokenKeyView { token: tag, inv_time: inverted(meta.created_at.secs), id };
        assert(tag_entries(id, meta).contains(k));
        assert(w.kv.tag_index.contains(k));
        lemma_range_selects_token(tag, k);
    }
}

/// A published post with the one tag `a/b` is found by a scan for `a`, for
/// `b` and for `a/b`, and not by a scan for `a/c` with another segment `c`.
///
/// `a` and `b` are segments as the index holds them: not empty, trimmed,
/// without slash or comma, and `a/b` is its own lower-case form.
pub proof fn lemma_path_tag_lookup(w: World, id: PostId, a: Seq<char>, b: Seq<char>)
    requires
        w.sound(),
        w.kv.metadata.contains_key(id),
        w.kv.metadata[id].tags == seq![a + seq!['/'] + b],
        a.len() > 0,
        b.len() > 0,
        !a.contains('/'),
        !b.contains('/'),
        !a.contains(','),
        !b.contains(','),
        !is_space(a.first()),
        !is_space(a.last()),
        !is_space(b.first()),
        !is_space(b.last()),
        lowercase(a + seq!['/'] + b) == a + seq!['/'] + b,
    ensures
        w.kv.found_under(a, id),
        w.kv.found_under(b, id),
        w.kv.found_under(a + seq!['/'] + b, id),
        forall|c: Seq<char>| c != b ==> !w.kv.found_under(a + seq!['/'] + c, id),
{
    let tag = a + seq!['/'] + b;
    let meta = w.kv.metadata[id];
    assert(tag_source(meta) == tag);
    lemma_path_tag_found_under(a, b);
    lemma_lookup_by_tag(w, id, a);
    lemma_lookup_by_tag(w, id, b);
    lemma_lookup_by_tag(w, id, tag);
    assert forall|c: Seq<char>| c != b implies !w.kv.found_under(a + seq!['/'] + c, id) by {
        lemma_lookup_by_tag(w, id, a + seq!['/'] + c);
    }
}

} // verus!
