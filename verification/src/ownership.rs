//! The ownership and permission store adapter: who owns a post, who may
//! change it, and the writes that keep the relational tables in step.

use vstd::prelude::*;
use crate::ident::PostId;
use crate::model::{log_entries, Contributor, EditLogEntry, EditLogEntryView, PostAction, Timestamp};

verus! {

/// Whether the account has the administrator role.
pub open spec fn is_admin(role: Seq<char>) -> bool {
    role == seq!['a', 'd', 'm', 'i', 'n']
}

/// Whether `user` has the administrator role.
pub fn has_admin_role(user: &Contributor) -> (b: bool)
    ensures
        b == is_admin(user.role@),
{
    proof {
        reveal_strlit("admin");
        assert("admin"@ =~= seq!['a', 'd', 'm', 'i', 'n']);
    }
    crate::text::same_text(user.role.as_str(), "admin")
}

/// Whether `user` is the recorded owner. A post without ownership row has no
/// owner.
pub open spec fn owns(user_id: i32, owner: Option<i32>) -> bool {
    owner == Some(user_id)
}

/// Whether `user` may do `action` to a published post whose ownership row
/// names `owner`. Administrators always may; anyone else may if they own the
/// post and may change their own posts, or if they hold the blanket right
/// for the action.
pub open spec fn permits(user: Contributor, owner: Option<i32>, action: PostAction) -> bool {
    is_admin(user.role@) || (owns(user.id, owner) && user.can_edit_and_delete_own_posts)
        || match action {
        PostAction::Edit => user.can_edit_any_post,
        PostAction::Delete => user.can_delete_any_post,
    }
}

/// Whether `user` may do `action` to a pending post whose pending-ownership
/// row names `owner`. Only the owner edits a draft, administrators included;
/// the owner, an administrator or a user who may approve posts may discard it.
pub open spec fn permits_pending(user: Contributor, owner: Option<i32>, action: PostAction) -> bool {
    match action {
        PostAction::Edit => owns(user.id, owner),
        PostAction::Delete => owns(user.id, owner) || is_admin(user.role@)
            || user.can_approve_posts,
    }
}

fn is_owner(user: &Contributor, owner: Option<i32>) -> (b: bool)
    ensures
        b == owns(user.id, owner),
{
    match owner {
        Some(id) => id == user.id,
        None => false,
    }
}

/// Decides whether `user` may do `action` to a published post. `owner` is
/// the user named by the post's ownership row, if there is one.
pub fn check_permission(user: &Contributor, owner: Option<i32>, action: PostAction) -> (b: bool)
    ensures
        b == permits(*user, owner, action),
{
    if has_admin_role(user) {
        return true;
    }
    let own = is_owner(user, owner) && user.can_edit_and_delete_own_posts;
    match action {
        PostAction::Edit => own || user.can_edit_any_post,
        PostAction::Delete => own || user.can_delete_any_post,
    }
}

/// Decides whether `user` may do `action` to a pending post. `owner` is the
/// user named by the post's pending-ownership row, if there is one.
pub fn check_pending_permission(user: &Contributor, owner: Option<i32>, action: PostAction) -> (b: bool)
    ensures
        b == permits_pending(*user, owner, action),
{
    let own = is_owner(user, owner);
    match action {
        PostAction::Edit => own,
        PostAction::Delete => own || has_admin_role(user) || user.can_approve_posts,
    }
}

/// An owner without the right to change their own posts, and without a
/// blanket right, may neither edit nor delete their own published post.
pub proof fn lemma_owner_without_rights_is_refused(user: Contributor, action: PostAction)
    requires
        !is_admin(user.role@),
        !user.can_edit_and_delete_own_posts,
        !user.can_edit_any_post,
        !user.can_delete_any_post,
    ensures
        !permits(user, Some(user.id), action),
{
}

/// No blanket right and no role lets anyone but the owner edit a pending post.
pub proof fn lemma_only_owner_edits_pending(user: Contributor, owner: Option<i32>)
    ensures
        permits_pending(user, owner, PostAction::Edit) <==> owner == Some(user.id),
{
}

/// The number of the next entry of a log with `len` entries: entries are
/// counted from 1, and the count stops at the largest number there is.
pub open spec fn next_edit_number(len: nat) -> u32 {
    if len < u32::MAX {
        (len + 1) as u32
    } else {
        u32::MAX
    }
}

/// The log with one more entry at its end.
pub open spec fn log_appended(
    log: Seq<EditLogEntryView>,
    editor: Seq<char>,
    now: Timestamp,
) -> Seq<EditLogEntryView> {
    log.push(
        EditLogEntryView {
            edit_number: next_edit_number(log.len()),
            editor_username: editor,
            edited_at: now,
        },
    )
}

/// Appends an entry for an edit by `editor_username` at `now` to `log`, the
/// current edit log of a published post (empty where none is stored).
pub fn append_to_edit_log(log: Vec<EditLogEntry>, editor_username: &str, now: Timestamp) -> (out: Vec<
    EditLogEntry,
>)
    ensures
        log_entries(out@) == log_appended(log_entries(log@), editor_username@, now),
{
    let ghost before = log_entries(log@);
    let mut out = log;
    let edit_number: u32 = if out.len() < 0xffff_ffff {
        (out.len() + 1) as u32
    } else {
        0xffff_ffff
    };
    out.push(EditLogEntry { edit_number, editor_username: editor_username.to_owned(), edited_at: now });
    assert(log_entries(out@) =~= log_appended(before, editor_username@, now));
    out
}

/// One write to the relational store.
#[derive(Debug)]
pub enum RelWrite {
    /// Insert an ownership row unless the post has one.
    InsertOwnershipIfAbsent { post_id: PostId, user_id: i32 },
    DeleteOwnership { post_id: PostId },
    /// Insert a pending-ownership row; the store refuses a second one.
    InsertPendingOwnership { post_id: PostId, user_id: i32 },
    DeletePendingOwnership { post_id: PostId },
    /// Replace the edit log of the post's ownership row.
    StoreEditLog { post_id: PostId, log: Vec<EditLogEntry> },
}

/// The value of a `RelWrite`.
pub enum RelWriteView {
    InsertOwnershipIfAbsent { post_id: PostId, user_id: i32 },
    DeleteOwnership { post_id: PostId },
    InsertPendingOwnership { post_id: PostId, user_id: i32 },
    DeletePendingOwnership { post_id: PostId },
    StoreEditLog { post_id: PostId, log: Seq<EditLogEntryView> },
}

impl View for RelWrite {
    type V = RelWriteView;

    open spec fn view(&self) -> RelWriteView {
        match *self {
            RelWrite::InsertOwnershipIfAbsent { post_id, user_id } => RelWriteView::InsertOwnershipIfAbsent {
                post_id,
                user_id,
            },
            RelWrite::DeleteOwnership { post_id } => RelWriteView::DeleteOwnership { post_id },
            RelWrite::InsertPendingOwnership { post_id, user_id } => RelWriteView::InsertPendingOwnership {
                post_id,
                user_id,
            },
            RelWrite::DeletePendingOwnership { post_id } => RelWriteView::DeletePendingOwnership {
                post_id,
            },
            RelWrite::StoreEditLog { post_id, log } => RelWriteView::StoreEditLog {
                post_id,
                log: log_entries(log@),
            },
        }
    }
}

/// One row of the ownership table.
pub struct OwnershipRow {
    pub user_id: i32,
    pub edit_log: Seq<EditLogEntryView>,
}

/// The content of the two ownership tables. A table holds at most one row
/// for a post.
#[verifier::ext_equal]
pub struct RelState {
    pub ownership: Map<PostId, OwnershipRow>,
    pub pending_ownership: Map<PostId, i32>,
}

impl RelState {
    /// Whether the store carries out `w`. It refuses a second
    /// pending-ownership row for a post.
    pub open spec fn accepts(self, w: RelWriteView) -> bool {
        match w {
            RelWriteView::InsertPendingOwnership { post_id, user_id } => !self.pending_ownership.contains_key(
                post_id,
            ),
            _ => true,
        }
    }

    /// Whether `w` changes a row.
    pub open spec fn changes(self, w: RelWriteView) -> bool {
        match w {
            RelWriteView::InsertOwnershipIfAbsent { post_id, user_id } => !self.ownership.contains_key(
                post_id,
            ),
            RelWriteView::DeleteOwnership { post_id } => self.ownership.contains_key(post_id),
            RelWriteView::InsertPendingOwnership { post_id, user_id } => !self.pending_ownership.contains_key(
                post_id,
            ),
            RelWriteView::DeletePendingOwnership { post_id } => self.pending_ownership.contains_key(
                post_id,
            ),
            RelWriteView::StoreEditLog { post_id, log } => self.ownership.contains_key(post_id),
        }
    }

    /// The state after `w`. A write that changes no row leaves the state as
    /// it is.
    pub open spec fn apply(self, w: RelWriteView) -> RelState {
        if !self.changes(w) {
            self
        } else {
            match w {
                RelWriteView::InsertOwnershipIfAbsent { post_id, user_id } => RelState {
                    ownership: self.ownership.insert(
                        post_id,
                        OwnershipRow { user_id, edit_log: Seq::empty() },
                    ),
                    ..self
                },
                RelWriteView::DeleteOwnership { post_id } => RelState {
                    ownership: self.ownership.remove(post_id),
                    ..self
                },
                RelWriteView::InsertPendingOwnership { post_id, user_id } => RelState {
                    pending_ownership: self.pending_ownership.insert(post_id, user_id),
                    ..self
                },
                RelWriteView::DeletePendingOwnership { post_id } => RelState {
                    pending_ownership: self.pending_ownership.remove(post_id),
                    ..self
                },
                RelWriteView::StoreEditLog { post_id, log } => RelState {
                    ownership: self.ownership.insert(
                        post_id,
                        OwnershipRow { user_id: self.ownership[post_id].user_id, edit_log: log },
                    ),
                    ..self
                },
            }
        }
    }

    /// The user that the pending-ownership table names for the post.
    pub open spec fn pending_owner(self, id: PostId) -> Option<i32> {
        if self.pending_ownership.contains_key(id) {
            Some(self.pending_ownership[id])
        } else {
            None
        }
    }

    /// The user that the ownership table names for the post.
    pub open spec fn owner(self, id: PostId) -> Option<i32> {
        if self.ownership.contains_key(id) {
            Some(self.ownership[id].user_id)
        } else {
            None
        }
    }

    /// The edit log of the post's ownership row.
    pub open spec fn edit_log(self, id: PostId) -> Option<Seq<EditLogEntryView>> {
        if self.ownership.contains_key(id) {
            Some(self.ownership[id].edit_log)
        } else {
            None
        }
    }
}

/// The author of a pending post: the user of its pending-ownership row and,
/// where there is none because the post was published before and taken back
/// for editing, the user of its ownership row.
pub open spec fn author_of(pending_owner: Option<i32>, owner: Option<i32>) -> Option<i32> {
    match pending_owner {
        Some(u) => Some(u),
        None => owner,
    }
}

/// Resolves the author of a pending post from the two ownership lookups.
pub fn get_pending_post_owner_id(pending_owner: Option<i32>, owner: Option<i32>) -> (r: Option<i32>)
    ensures
        r == author_of(pending_owner, owner),
{
    match pending_owner {
        Some(u) => Some(u),
        None => owner,
    }
}

} // verus!
