//! The records that the backend stores and hands out, each with the
//! mathematical value that contracts speak of.

use vstd::prelude::*;
use crate::text::texts;

verus! {

/// A point in time: whole seconds since the Unix epoch and the nanoseconds
/// within that second.
#[derive(Clone, Copy, Debug, PartialEq, Eq, Structural)]
pub struct Timestamp {
    pub secs: i64,
    pub nanos: u32,
}

impl Timestamp {
    /// Whether `self` is strictly later than `other`.
    pub open spec fn later_than(self, other: Timestamp) -> bool {
        self.secs > other.secs || (self.secs == other.secs && self.nanos > other.nanos)
    }

    /// Whether `self` is strictly later than `other`.
    pub fn is_later_than(&self, other: &Timestamp) -> (b: bool)
        ensures
            b == self.later_than(*other),
    {
        self.secs > other.secs || (self.secs == other.secs && self.nanos > other.nanos)
    }
}

/// What is known of a post besides its content.
#[derive(Debug)]
pub struct PostMetadata {
    pub title: String,
    pub created_at: Timestamp,
    pub last_updated_at: Option<Timestamp>,
    pub summary: String,
    /// Tags as the author wrote them, in order.
    pub tags: Vec<String>,
    pub cover_image: Option<String>,
    pub has_call_to_action: Option<bool>,
    pub search_keywords: Option<Vec<String>>,
}

/// The value of a `PostMetadata`.
pub struct MetadataView {
    pub title: Seq<char>,
    pub created_at: Timestamp,
    pub last_updated_at: Option<Timestamp>,
    pub summary: Seq<char>,
    pub tags: Seq<Seq<char>>,
    pub cover_image: Option<Seq<char>>,
    pub has_call_to_action: Option<bool>,
    pub search_keywords: Option<Seq<Seq<char>>>,
}

/// The value of an optional string.
pub open spec fn opt_text(s: Option<String>) -> Option<Seq<char>> {
    match s {
        Some(t) => Some(t@),
        None => None,
    }
}

/// The value of an optional list of strings.
pub open spec fn opt_texts(s: Option<Vec<String>>) -> Option<Seq<Seq<char>>> {
    match s {
        Some(v) => Some(texts(v@)),
        None => None,
    }
}

impl View for PostMetadata {
    type V = MetadataView;

    open spec fn view(&self) -> MetadataView {
        MetadataView {
            title: self.title@,
            created_at: self.created_at,
            last_updated_at: self.last_updated_at,
            summary: self.summary@,
            tags: texts(self.tags@),
            cover_image: opt_text(self.cover_image),
            has_call_to_action: self.has_call_to_action,
            search_keywords: opt_texts(self.search_keywords),
        }
    }
}

/// A copy of a list of strings.
pub fn copy_texts(v: &Vec<String>) -> (out: Vec<String>)
    ensures
        texts(out@) == texts(v@),
{
    let mut out: Vec<String> = Vec::new();
    let mut i: usize = 0;
    while i < v.len()
        invariant
            i <= v.len(),
            out@.len() == i,
            forall|k: int| 0 <= k < i ==> (#[trigger] out@[k])@ == v@[k]@,
        decreases v.len() - i,
    {
        out.push(v[i].clone());
        i += 1;
    }
    assert(texts(out@) =~= texts(v@));
    out
}

impl PostMetadata {
    /// A copy with the same value.
    pub fn duplicate(&self) -> (out: PostMetadata)
        ensures
            out@ == self@,
    {
        let cover_image = match &self.cover_image {
            Some(c) => Some(c.clone()),
            None => None,
        };
        let search_keywords = match &self.search_keywords {
            Some(k) => Some(copy_texts(k)),
            None => None,
        };
        PostMetadata {
            title: self.title.clone(),
            created_at: self.created_at,
            last_updated_at: self.last_updated_at,
            summary: self.summary.clone(),
            tags: copy_texts(&self.tags),
            cover_image,
            has_call_to_action: self.has_call_to_action,
            search_keywords,
        }
    }
}

/// A post with its content.
#[derive(Debug)]
pub struct FullPost {
    pub id: String,
    pub metadata: PostMetadata,
    pub content: String,
}

/// The value of a `FullPost`.
pub struct FullPostView {
    pub id: Seq<char>,
    pub metadata: MetadataView,
    pub content: Seq<char>,
}

impl View for FullPost {
    type V = FullPostView;

    open spec fn view(&self) -> FullPostView {
        FullPostView { id: self.id@, metadata: self.metadata@, content: self.content@ }
    }
}

/// A post without its content, as listings show it.
#[derive(Debug)]
pub struct PostSummary {
    pub id: String,
    pub metadata: PostMetadata,
}

/// The value of a `PostSummary`.
pub struct SummaryView {
    pub id: Seq<char>,
    pub metadata: MetadataView,
}

impl View for PostSummary {
    type V = SummaryView;

    open spec fn view(&self) -> SummaryView {
        SummaryView { id: self.id@, metadata: self.metadata@ }
    }
}

/// The values of a list of summaries.
pub open spec fn summaries(v: Seq<PostSummary>) -> Seq<SummaryView> {
    Seq::new(v.len(), |i: int| v[i]@)
}

/// A pending post's summary together with its author's name.
#[derive(Debug)]
pub struct PendingPostSummaryWithOwner {
    pub post_summary: PostSummary,
    pub author_name: String,
}

/// One line of a published post's edit log.
#[derive(Debug)]
pub struct EditLogEntry {
    /// Position in the log, counted from 1.
    pub edit_number: u32,
    pub editor_username: String,
    pub edited_at: Timestamp,
}

/// The value of an `EditLogEntry`.
pub struct EditLogEntryView {
    pub edit_number: u32,
    pub editor_username: Seq<char>,
    pub edited_at: Timestamp,
}

impl View for EditLogEntry {
    type V = EditLogEntryView;

    open spec fn view(&self) -> EditLogEntryView {
        EditLogEntryView {
            edit_number: self.edit_number,
            editor_username: self.editor_username@,
            edited_at: self.edited_at,
        }
    }
}

/// The values of an edit log.
pub open spec fn log_entries(v: Seq<EditLogEntry>) -> Seq<EditLogEntryView> {
    Seq::new(v.len(), |i: int| v[i]@)
}

/// A user account, without its password hash.
#[derive(Debug)]
pub struct Contributor {
    pub id: i32,
    pub username: String,
    /// `"admin"` or `"contributor"`.
    pub role: String,
    pub is_active: bool,
    pub can_edit_and_delete_own_posts: bool,
    pub can_edit_any_post: bool,
    pub can_delete_any_post: bool,
    pub can_approve_posts: bool,
    pub last_login_time: Option<String>,
}

/// A message for the user interface to show once.
#[derive(Debug)]
pub struct Notification {
    pub message: String,
    /// `"success"` or `"error"`.
    pub kind: String,
}

/// What a user wants to do with a post.
#[derive(Clone, Copy, Debug, PartialEq, Eq, Structural)]
pub enum PostAction {
    Edit,
    Delete,
}

} // verus!
