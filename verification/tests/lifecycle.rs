use std::collections::{BTreeMap, BTreeSet};

use appbase_backend::browser::{dependencies_to_probe, found_dependency};
use appbase_backend::content::{MetaRead, PostRows, ShelfRows};
use appbase_backend::error::BackendError;
use appbase_backend::ident::PostId;
use appbase_backend::jobs::{ContentJob, PostDraft};
use appbase_backend::kv::{ChronoKey, KvWrite, Shelf};
use appbase_backend::lifecycle::{
    approve_post, delete_pending_post, delete_post, re_submit_at, re_submit_for_approval,
    submit_post_as, submit_post_for_approval, StoreReply, StoreRequest, Workflow,
};
use appbase_backend::model::{EditLogEntry, PostMetadata, Timestamp};
use appbase_backend::ownership::RelWrite;
use appbase_backend::query::read_latest_post_summaries;
use appbase_backend::schema::{DbSelection, LogicalTable};
use appbase_backend::tags::generate_all_tags;

/// Both stores in memory, with switches that make them fail.
#[derive(Default)]
struct Stores {
    posts: BTreeMap<u128, String>,
    metadata: BTreeMap<u128, PostMetadata>,
    pending_posts: BTreeMap<u128, String>,
    pending_metadata: BTreeMap<u128, PostMetadata>,
    tag_index: BTreeSet<(String, i64, u128)>,
    keyword_index: BTreeSet<(String, i64, u128)>,
    chrono_index: BTreeSet<(i64, u128)>,
    available_tags: BTreeSet<String>,
    ownership: BTreeMap<u128, (i32, Vec<(u32, String, Timestamp)>)>,
    pending_ownership: BTreeMap<u128, i32>,
    /// Fail the write transaction with this number, counted from 1.
    fail_transaction: Option<usize>,
    transactions: usize,
    relational_down: bool,
    requests: Vec<String>,
}

fn read(content: Option<&String>, metadata: Option<&PostMetadata>) -> ShelfRows {
    ShelfRows {
        content: content.cloned(),
        metadata: match metadata {
            Some(m) => MetaRead::Found(m.duplicate()),
            None => MetaRead::Absent,
        },
    }
}

impl Stores {
    fn rows(&self, id: PostId) -> PostRows {
        PostRows {
            published: read(self.posts.get(&id.value), self.metadata.get(&id.value)),
            pending: read(self.pending_posts.get(&id.value), self.pending_metadata.get(&id.value)),
        }
    }

    fn apply(&mut self, w: KvWrite) {
        match w {
            KvWrite::PutContent { shelf: Shelf::Published, id, content } => {
                self.posts.insert(id.value, content);
            }
            KvWrite::PutContent { shelf: Shelf::Pending, id, content } => {
                self.pending_posts.insert(id.value, content);
            }
            KvWrite::PutMetadata { shelf: Shelf::Published, id, metadata } => {
                self.metadata.insert(id.value, metadata);
            }
            KvWrite::PutMetadata { shelf: Shelf::Pending, id, metadata } => {
                self.pending_metadata.insert(id.value, metadata);
            }
            KvWrite::RemoveContent { shelf: Shelf::Published, id } => {
                self.posts.remove(&id.value);
            }
            KvWrite::RemoveContent { shelf: Shelf::Pending, id } => {
                self.pending_posts.remove(&id.value);
            }
            KvWrite::RemoveMetadata { shelf: Shelf::Published, id } => {
                self.metadata.remove(&id.value);
            }
            KvWrite::RemoveMetadata { shelf: Shelf::Pending, id } => {
                self.pending_metadata.remove(&id.value);
            }
            KvWrite::AddTagEntry { key } => {
                self.tag_index.insert((key.token, key.inv_time, key.id.value));
            }
            KvWrite::RemoveTagEntry { key } => {
                self.tag_index.remove(&(key.token, key.inv_time, key.id.value));
            }
            KvWrite::AddKeywordEntry { key } => {
                self.keyword_index.insert((key.token, key.inv_time, key.id.value));
            }
            KvWrite::RemoveKeywordEntry { key } => {
                self.keyword_index.remove(&(key.token, key.inv_time, key.id.value));
            }
            KvWrite::AddChronoEntry { entry } => {
                self.chrono_index.insert((entry.inv_time, entry.id.value));
            }
            KvWrite::RemoveChronoEntry { entry } => {
                self.chrono_index.remove(&(entry.inv_time, entry.id.value));
            }
            KvWrite::AddAvailableTag { tag } => {
                self.available_tags.insert(tag);
            }
            KvWrite::RemoveAvailableTag { tag } => {
                self.available_tags.remove(&tag);
            }
        }
    }

    fn transact(&mut self, job: ContentJob) -> StoreReply {
        self.transactions += 1;
        if self.fail_transaction == Some(self.transactions) {
            return StoreReply::Failed;
        }
        let rows = self.rows(job.post_id());
        match job.plan(rows) {
            Ok(writes) => {
                for w in writes {
                    self.apply(w);
                }
                StoreReply::Committed
            }
            Err(error) => StoreReply::Refused { error },
        }
    }

    fn write(&mut self, w: RelWrite) -> StoreReply {
        if self.relational_down {
            return StoreReply::Failed;
        }
        match w {
            RelWrite::InsertOwnershipIfAbsent { post_id, user_id } => {
                let absent = !self.ownership.contains_key(&post_id.value);
                if absent {
                    self.ownership.insert(post_id.value, (user_id, Vec::new()));
                }
                StoreReply::Written { changed: absent }
            }
            RelWrite::DeleteOwnership { post_id } => {
                StoreReply::Written { changed: self.ownership.remove(&post_id.value).is_some() }
            }
            RelWrite::InsertPendingOwnership { post_id, user_id } => {
                if self.pending_ownership.contains_key(&post_id.value) {
                    StoreReply::Failed
                } else {
                    self.pending_ownership.insert(post_id.value, user_id);
                    StoreReply::Written { changed: true }
                }
            }
            RelWrite::DeletePendingOwnership { post_id } => {
                StoreReply::Written { changed: self.pending_ownership.remove(&post_id.value).is_some() }
            }
            RelWrite::StoreEditLog { post_id, log } => match self.ownership.get_mut(&post_id.value) {
                Some(row) => {
                    row.1 = log.into_iter().map(|e| (e.edit_number, e.editor_username, e.edited_at)).collect();
                    StoreReply::Written { changed: true }
                }
                None => StoreReply::Written { changed: false },
            },
        }
    }

    fn serve(&mut self, request: StoreRequest) -> StoreReply {
        self.requests.push(format!("{:?}", request).split(' ').next().unwrap().to_string());
        match request {
            StoreRequest::ReadPending { id } => StoreReply::Rows { rows: self.rows(id).pending },
            StoreRequest::Transact { job } => self.transact(job),
            StoreRequest::FindPendingOwner { id } => {
                if self.relational_down {
                    StoreReply::Failed
                } else {
                    StoreReply::Owner { user_id: self.pending_ownership.get(&id.value).copied() }
                }
            }
            StoreRequest::FindOwner { id } => {
                if self.relational_down {
                    StoreReply::Failed
                } else {
                    StoreReply::Owner { user_id: self.ownership.get(&id.value).map(|r| r.0) }
                }
            }
            StoreRequest::ReadEditLog { id } => {
                if self.relational_down {
                    StoreReply::Failed
                } else {
                    StoreReply::EditLog {
                        log: self.ownership.get(&id.value).map(|r| {
                            r.1.iter()
                                .map(|e| EditLogEntry {
                                    edit_number: e.0,
                                    editor_username: e.1.clone(),
                                    edited_at: e.2,
                                })
                                .collect()
                        }),
                    }
                }
            }
            StoreRequest::Relational { write } => self.write(write),
            StoreRequest::Finish { .. } => unreachable!(),
        }
    }

    fn run(&mut self, start: (Workflow, StoreRequest)) -> Result<PostId, BackendError> {
        let (mut stage, mut request) = start;
        for _ in 0..20 {
            if let StoreRequest::Finish { outcome } = request {
                assert!(stage.is_finished());
                return outcome;
            }
            let reply = self.serve(request);
            let next = stage.advance(reply);
            stage = next.0;
            request = next.1;
        }
        panic!("the workflow did not end");
    }

    fn tags_of(&self, id: PostId) -> Vec<String> {
        self.tag_index.iter().filter(|k| k.2 == id.value).map(|k| k.0.clone()).collect()
    }

    fn found_under(&self, tag: &str) -> Vec<u128> {
        self.tag_index.iter().filter(|k| k.0 == tag).map(|k| k.2).collect()
    }

    fn latest(&self, limit: u32, offset: u32) -> Vec<PostId> {
        let entries: Vec<ChronoKey> =
            self.chrono_index.iter().map(|k| ChronoKey { inv_time: k.0, id: PostId { value: k.1 } }).collect();
        read_latest_post_summaries(&entries, limit, offset)
    }
}

fn draft(title: &str, content: &str, tags: &str, keywords: &str) -> PostDraft {
    PostDraft {
        title: title.to_string(),
        summary: "a summary".to_string(),
        content: content.to_string(),
        tags: tags.to_string(),
        search_keywords: keywords.to_string(),
        cover_image: None,
        has_call_to_action: Some(true),
    }
}

fn at(secs: i64) -> Timestamp {
    Timestamp { secs, nanos: 0 }
}

fn submit(stores: &mut Stores, id: u128, created: i64, user: i32, d: PostDraft) -> PostId {
    stores.run(submit_post_as(PostId { value: id }, at(created), user, d)).unwrap()
}

fn sorted(mut v: Vec<String>) -> Vec<String> {
    v.sort();
    v
}

#[test]
fn submission_stores_pending_rows_and_owner() {
    let mut s = Stores::default();
    let id = submit(&mut s, 1, 100, 7, draft("Title", "Body", "Rust, Systems/Storage", "Fast"));
    assert_eq!(id, PostId { value: 1 });
    assert_eq!(s.pending_posts.get(&1).unwrap(), "Body");
    let m = s.pending_metadata.get(&1).unwrap();
    assert_eq!(m.title, "Title");
    assert_eq!(m.tags, vec!["Rust", "Systems/Storage"]);
    assert_eq!(m.search_keywords, Some(vec!["Fast".to_string()]));
    assert_eq!(m.created_at, at(100));
    assert_eq!(m.last_updated_at, None);
    assert_eq!(m.has_call_to_action, Some(true));
    assert_eq!(s.pending_ownership.get(&1), Some(&7));
    assert!(s.posts.is_empty() && s.tag_index.is_empty() && s.chrono_index.is_empty());
    assert_eq!(s.requests, vec!["Transact", "Relational"]);
}

#[test]
fn submission_gets_a_fresh_identifier() {
    let mut s = Stores::default();
    let a = s.run(submit_post_for_approval(3, draft("A", "a", "", ""))).unwrap();
    let b = s.run(submit_post_for_approval(3, draft("B", "b", "", ""))).unwrap();
    assert_ne!(a, b);
    assert_eq!(s.pending_posts.len(), 2);
    assert_eq!(s.pending_ownership.get(&a.value), Some(&3));
    assert!(s.pending_metadata.get(&a.value).unwrap().created_at.secs > 1_600_000_000);
}

#[test]
fn approval_publishes_and_indexes() {
    let mut s = Stores::default();
    let id = submit(&mut s, 1, 100, 7, draft("Title", "Body", "Rust, Systems/Storage", "Fast, safe"));
    let text = id.to_text();
    assert_eq!(s.run(approve_post(&text)), Ok(id));
    assert!(s.pending_posts.is_empty() && s.pending_metadata.is_empty());
    assert!(s.pending_ownership.is_empty());
    assert_eq!(s.posts.get(&1).unwrap(), "Body");
    assert_eq!(s.metadata.get(&1).unwrap().title, "Title");
    assert_eq!(s.ownership.get(&1).unwrap().0, 7);
    assert_eq!(sorted(s.tags_of(id)), sorted(generate_all_tags("Rust, Systems/Storage")));
    assert_eq!(sorted(s.tags_of(id)), vec!["rust", "storage", "systems", "systems/storage"]);
    assert_eq!(
        s.keyword_index.iter().cloned().collect::<Vec<_>>(),
        vec![("fast".to_string(), -100, 1), ("safe".to_string(), -100, 1)]
    );
    assert_eq!(s.chrono_index.iter().cloned().collect::<Vec<_>>(), vec![(-100, 1)]);
    assert_eq!(
        s.requests,
        vec!["Transact", "Relational", "ReadPending", "FindPendingOwner", "Relational", "Transact", "Transact", "Relational"]
    );
}

#[test]
fn path_tag_is_found_under_segments_and_path() {
    let mut s = Stores::default();
    let id = submit(&mut s, 5, 100, 7, draft("T", "B", "a/b", ""));
    s.run(approve_post(&id.to_text())).unwrap();
    assert_eq!(s.found_under("a"), vec![5]);
    assert_eq!(s.found_under("a/b"), vec![5]);
    assert_eq!(s.found_under("b"), vec![5]);
    assert!(s.found_under("a/c").is_empty());
}

#[test]
fn approval_of_unknown_post_is_not_found() {
    let mut s = Stores::default();
    assert_eq!(s.run(approve_post("550e8400-e29b-41d4-a716-446655440000")), Err(BackendError::NotFound));
    assert_eq!(s.requests, vec!["ReadPending"]);
}

#[test]
fn second_approval_of_an_approved_post_is_not_found() {
    let mut s = Stores::default();
    let id = submit(&mut s, 1, 100, 7, draft("T", "B", "x", ""));
    s.run(approve_post(&id.to_text())).unwrap();
    assert_eq!(s.run(approve_post(&id.to_text())), Err(BackendError::NotFound));
    assert_eq!(s.ownership.len(), 1);
}

#[test]
fn malformed_identifier_touches_no_store() {
    let mut s = Stores::default();
    assert_eq!(s.run(approve_post("nonsense")), Err(BackendError::InvalidInput));
    assert_eq!(s.run(delete_post("nonsense")), Err(BackendError::InvalidInput));
    assert_eq!(s.run(delete_pending_post("nonsense")), Err(BackendError::InvalidInput));
    assert_eq!(
        s.run(re_submit_for_approval("nonsense", "ed".to_string(), draft("", "", "", ""))),
        Err(BackendError::InvalidInput)
    );
    assert!(s.requests.is_empty());
}

#[test]
fn approval_without_any_owner_is_not_found() {
    let mut s = Stores::default();
    let id = submit(&mut s, 1, 100, 7, draft("T", "B", "x", ""));
    s.pending_ownership.clear();
    assert_eq!(s.run(approve_post(&id.to_text())), Err(BackendError::NotFound));
    assert!(s.posts.is_empty() && s.ownership.is_empty());
    assert_eq!(s.pending_posts.len(), 1);
}

#[test]
fn repeated_approval_after_late_failure_keeps_one_ownership_row() {
    let mut s = Stores::default();
    let id = submit(&mut s, 1, 100, 7, draft("T", "B", "x", ""));
    // the first transaction was the submission; the third removes the pending rows
    s.fail_transaction = Some(3);
    assert_eq!(s.run(approve_post(&id.to_text())), Err(BackendError::StoreError));
    assert!(s.posts.contains_key(&1) && s.pending_posts.contains_key(&1));
    assert_eq!(s.ownership.get(&1).unwrap().0, 7);
    s.fail_transaction = None;
    assert_eq!(s.run(approve_post(&id.to_text())), Ok(id));
    assert_eq!(s.ownership.len(), 1);
    assert_eq!(s.ownership.get(&1).unwrap().0, 7);
    assert!(s.pending_posts.is_empty() && s.pending_ownership.is_empty());
    assert_eq!(s.tags_of(id), vec!["x"]);
    assert_eq!(s.chrono_index.len(), 1);
}

#[test]
fn failed_publication_removes_the_new_ownership_row() {
    let mut s = Stores::default();
    let id = submit(&mut s, 1, 100, 7, draft("T", "B", "x", ""));
    s.fail_transaction = Some(2);
    assert_eq!(s.run(approve_post(&id.to_text())), Err(BackendError::StoreError));
    assert!(s.ownership.is_empty());
    assert!(s.posts.is_empty() && s.tag_index.is_empty());
    assert_eq!(s.pending_posts.len(), 1);
    assert_eq!(s.pending_ownership.get(&1), Some(&7));
    assert_eq!(s.requests.last().unwrap(), "Relational");
}

#[test]
fn failed_republication_keeps_the_old_ownership_row() {
    let mut s = Stores::default();
    let id = submit(&mut s, 1, 100, 7, draft("T", "B", "x", ""));
    s.run(approve_post(&id.to_text())).unwrap();
    s.run(re_submit_at(&id.to_text(), "ed".to_string(), at(200), draft("T2", "B2", "y", ""))).unwrap();
    let failing = s.transactions + 1;
    s.fail_transaction = Some(failing);
    assert_eq!(s.run(approve_post(&id.to_text())), Err(BackendError::StoreError));
    assert_eq!(s.ownership.get(&1).unwrap().0, 7);
    assert_eq!(s.ownership.get(&1).unwrap().1.len(), 1);
    assert!(s.pending_posts.contains_key(&1));
}

#[test]
fn relational_failure_stops_before_the_key_value_store_is_written() {
    let mut s = Stores::default();
    let id = submit(&mut s, 1, 100, 7, draft("T", "B", "x", ""));
    s.run(approve_post(&id.to_text())).unwrap();
    s.relational_down = true;
    let before = s.transactions;
    assert_eq!(s.run(delete_post(&id.to_text())), Err(BackendError::StoreError));
    assert_eq!(
        s.run(re_submit_at(&id.to_text(), "ed".to_string(), at(200), draft("", "", "", ""))),
        Err(BackendError::StoreError)
    );
    assert_eq!(s.transactions, before);
    assert!(s.posts.contains_key(&1));
}

#[test]
fn resubmission_moves_post_to_pending_and_logs_the_edit() {
    let mut s = Stores::default();
    let id = submit(&mut s, 1, 100, 7, draft("Title", "Body", "a/b", "k"));
    s.run(approve_post(&id.to_text())).unwrap();
    let r = s.run(re_submit_at(&id.to_text(), "editor".to_string(), at(200), draft("New", "New body", "c", "")));
    assert_eq!(r, Ok(id));
    assert!(s.posts.is_empty() && s.metadata.is_empty());
    assert!(s.tag_index.is_empty() && s.keyword_index.is_empty() && s.chrono_index.is_empty());
    assert_eq!(s.pending_posts.get(&1).unwrap(), "New body");
    let m = s.pending_metadata.get(&1).unwrap();
    assert_eq!(m.title, "New");
    assert_eq!(m.tags, vec!["c"]);
    assert_eq!(m.created_at, at(100));
    assert_eq!(m.last_updated_at, Some(at(200)));
    assert!(s.pending_ownership.is_empty());
    assert_eq!(s.ownership.get(&1).unwrap(), &(7, vec![(1, "editor".to_string(), at(200))]));
}

#[test]
fn resubmitted_post_is_approved_for_its_first_owner() {
    let mut s = Stores::default();
    let id = submit(&mut s, 1, 100, 7, draft("Title", "Body", "a/b", "k"));
    s.run(approve_post(&id.to_text())).unwrap();
    s.run(re_submit_at(&id.to_text(), "editor".to_string(), at(200), draft("New", "New body", "c", ""))).unwrap();
    s.requests.clear();
    assert_eq!(s.run(approve_post(&id.to_text())), Ok(id));
    assert_eq!(
        s.requests,
        vec!["ReadPending", "FindPendingOwner", "FindOwner", "Relational", "Transact", "Transact", "Relational"]
    );
    assert_eq!(s.ownership.get(&1).unwrap().0, 7);
    assert_eq!(s.ownership.get(&1).unwrap().1.len(), 1);
    assert_eq!(s.tags_of(id), vec!["c"]);
    assert_eq!(s.posts.get(&1).unwrap(), "New body");
    assert_eq!(s.chrono_index.iter().cloned().collect::<Vec<_>>(), vec![(-100, 1)]);
}

#[test]
fn resubmission_of_unpublished_post_changes_nothing_but_needs_an_ownership_row() {
    let mut s = Stores::default();
    let r = s.run(re_submit_at(&PostId { value: 9 }.to_text(), "e".to_string(), at(1), draft("", "", "", "")));
    assert_eq!(r, Err(BackendError::NotFound));
    assert_eq!(s.requests, vec!["ReadEditLog"]);
}

#[test]
fn resubmission_then_discard_keeps_the_ownership_row() {
    let mut s = Stores::default();
    let id = submit(&mut s, 1, 100, 7, draft("Title", "Body", "a/b", "k"));
    s.run(approve_post(&id.to_text())).unwrap();
    s.run(re_submit_at(&id.to_text(), "editor".to_string(), at(200), draft("New", "New body", "c", ""))).unwrap();
    assert_eq!(s.run(delete_pending_post(&id.to_text())), Ok(id));
    assert!(s.pending_posts.is_empty() && s.pending_metadata.is_empty());
    assert!(s.posts.is_empty());
    assert_eq!(s.ownership.get(&1).unwrap(), &(7, vec![(1, "editor".to_string(), at(200))]));
}

#[test]
fn edit_log_numbers_count_up() {
    let mut s = Stores::default();
    let id = submit(&mut s, 1, 100, 7, draft("Title", "Body", "a", ""));
    s.run(approve_post(&id.to_text())).unwrap();
    for (n, who) in ["x", "y", "z"].iter().enumerate() {
        s.run(re_submit_at(&id.to_text(), who.to_string(), at(200 + n as i64), draft("T", "B", "a", ""))).unwrap();
        s.run(approve_post(&id.to_text())).unwrap();
    }
    let log = &s.ownership.get(&1).unwrap().1;
    assert_eq!(
        log,
        &vec![(1, "x".to_string(), at(200)), (2, "y".to_string(), at(201)), (3, "z".to_string(), at(202))]
    );
}

#[test]
fn deleting_a_published_post_removes_rows_indices_and_ownership() {
    let mut s = Stores::default();
    let id = submit(&mut s, 1, 100, 7, draft("Title", "Body", "a/b", "k"));
    let other = submit(&mut s, 2, 150, 8, draft("Other", "Body", "a", "k"));
    s.run(approve_post(&id.to_text())).unwrap();
    s.run(approve_post(&other.to_text())).unwrap();
    s.requests.clear();
    assert_eq!(s.run(delete_post(&id.to_text())), Ok(id));
    assert_eq!(s.requests, vec!["Relational", "Transact"]);
    assert!(!s.posts.contains_key(&1) && !s.metadata.contains_key(&1) && !s.ownership.contains_key(&1));
    assert!(s.tags_of(id).is_empty());
    assert_eq!(s.tags_of(other), vec!["a"]);
    assert_eq!(s.keyword_index.len(), 1);
    assert_eq!(s.chrono_index.iter().cloned().collect::<Vec<_>>(), vec![(-150, 2)]);
    assert!(s.posts.contains_key(&2) && s.ownership.contains_key(&2));
}

#[test]
fn deleting_a_pending_post_removes_rows_and_pending_owner() {
    let mut s = Stores::default();
    let id = submit(&mut s, 1, 100, 7, draft("Title", "Body", "a/b", "k"));
    s.requests.clear();
    assert_eq!(s.run(delete_pending_post(&id.to_text())), Ok(id));
    assert_eq!(s.requests, vec!["Transact", "Relational"]);
    assert!(s.pending_posts.is_empty() && s.pending_metadata.is_empty() && s.pending_ownership.is_empty());
}

#[test]
fn deleting_what_is_not_there_succeeds() {
    let mut s = Stores::default();
    let text = PostId { value: 3 }.to_text();
    assert!(s.run(delete_post(&text)).is_ok());
    assert!(s.run(delete_pending_post(&text)).is_ok());
}

#[test]
fn editing_in_place_twice_leaves_only_the_second_tags() {
    let mut s = Stores::default();
    let id = submit(&mut s, 1, 100, 7, draft("Title", "Body", "old", "k0"));
    s.run(approve_post(&id.to_text())).unwrap();
    let first = ContentJob::UpdatePublished { id, now: at(200), draft: draft("T1", "B1", "a/b, c", "k1") };
    assert!(matches!(s.transact(first), StoreReply::Committed));
    assert_eq!(sorted(s.tags_of(id)), vec!["a", "a/b", "b", "c"]);
    let second = ContentJob::UpdatePublished { id, now: at(300), draft: draft("T2", "B2", "a/d", "k2") };
    assert!(matches!(s.transact(second), StoreReply::Committed));
    assert_eq!(sorted(s.tags_of(id)), sorted(generate_all_tags("a/d")));
    assert_eq!(sorted(s.tags_of(id)), vec!["a", "a/d", "d"]);
    assert_eq!(s.keyword_index.iter().cloned().collect::<Vec<_>>(), vec![("k2".to_string(), -100, 1)]);
    assert_eq!(s.chrono_index.iter().cloned().collect::<Vec<_>>(), vec![(-100, 1)]);
    let m = s.metadata.get(&1).unwrap();
    assert_eq!((m.title.as_str(), m.created_at, m.last_updated_at), ("T2", at(100), Some(at(300))));
    assert_eq!(s.posts.get(&1).unwrap(), "B2");
}

#[test]
fn editing_what_is_not_there_is_refused_and_writes_nothing() {
    let mut s = Stores::default();
    let id = PostId { value: 4 };
    let job = ContentJob::UpdatePublished { id, now: at(1), draft: draft("", "", "t", "") };
    assert!(matches!(s.transact(job), StoreReply::Refused { error: BackendError::NotFound }));
    let job = ContentJob::UpdatePending { id, now: at(1), draft: draft("", "", "t", "") };
    assert!(matches!(s.transact(job), StoreReply::Refused { error: BackendError::NotFound }));
    let job = ContentJob::MoveToPending { id };
    assert!(matches!(s.transact(job), StoreReply::Refused { error: BackendError::NotFound }));
    assert!(s.posts.is_empty() && s.pending_posts.is_empty() && s.tag_index.is_empty());
}

#[test]
fn latest_posts_come_newest_first() {
    let mut s = Stores::default();
    let a = submit(&mut s, 11, 1000, 7, draft("first", "B", "", ""));
    let b = submit(&mut s, 5, 2000, 7, draft("second", "B", "", ""));
    let c = submit(&mut s, 8, 3000, 7, draft("third", "B", "", ""));
    for id in [a, b, c] {
        s.run(approve_post(&id.to_text())).unwrap();
    }
    assert_eq!(s.latest(2, 0), vec![c, b]);
    assert_eq!(s.latest(2, 2), vec![a]);
}

#[test]
fn dependents_of_a_published_post_are_found_with_previews() {
    let mut s = Stores::default();
    let id = submit(&mut s, 1, 100, 7, draft("Storage engines", "# Storage engines\n\nText", "Rust, Systems/Storage", ""));
    s.run(approve_post(&id.to_text())).unwrap();
    let text = id.to_text();

    let tables = dependencies_to_probe(DbSelection::PostsDb, "metadata", &text).unwrap();
    assert_eq!(tables, vec![LogicalTable::Posts]);
    let value = s.posts.get(&1).unwrap();
    let found = found_dependency(tables[0], &text, value, &MetaRead::Absent);
    assert_eq!(found.table_name, "posts");
    assert_eq!(found.row_id, text);
    assert!(found.preview.contains("Storage engines"));
    assert_eq!(found.preview, "# Storage engines\n\nText...");

    let tables = dependencies_to_probe(DbSelection::PostsDb, "posts", &text).unwrap();
    assert_eq!(tables, vec![LogicalTable::Metadata]);
    let decoded = MetaRead::Found(s.metadata.get(&1).unwrap().duplicate());
    let found = found_dependency(tables[0], &text, "{}", &decoded);
    assert_eq!(found.table_name, "metadata");
    assert_eq!(found.preview, "Title: Storage engines");
}

#[test]
fn submitted_drafts_are_cleaned() {
    let mut s = Stores::default();
    let id = submit(&mut s, 1, 100, 7, draft("<b>Title</b>", "1 < 2 ```<raw>```", "<i>a</i>/b", "k"));
    assert_eq!(s.pending_posts.get(&1).unwrap(), "1 &lt; 2 ```<raw>```");
    let m = s.pending_metadata.get(&1).unwrap();
    assert_eq!(m.title, "Title");
    assert_eq!(m.tags, vec!["a/b"]);
    s.run(approve_post(&id.to_text())).unwrap();
    assert_eq!(sorted(s.tags_of(id)), vec!["a", "a/b", "b"]);
}

#[test]
fn pending_post_is_edited_in_one_transaction() {
    let mut s = Stores::default();
    let id = submit(&mut s, 1, 100, 7, draft("Title", "Body", "a", "k"));
    s.requests.clear();
    let r = s.run(appbase_backend::lifecycle::update_pending_post_at(
        &id.to_text(),
        at(150),
        draft("<u>New</u>", "x > y", "b", ""),
    ));
    assert_eq!(r, Ok(id));
    assert_eq!(s.requests, vec!["Transact"]);
    assert_eq!(s.pending_posts.get(&1).unwrap(), "x &gt; y");
    let m = s.pending_metadata.get(&1).unwrap();
    assert_eq!((m.title.as_str(), m.created_at, m.last_updated_at), ("New", at(100), Some(at(150))));
    assert_eq!(s.pending_ownership.get(&1), Some(&7));
    let missing = PostId { value: 2 }.to_text();
    let r = s.run(appbase_backend::lifecycle::update_pending_post_at(&missing, at(1), draft("", "", "", "")));
    assert_eq!(r, Err(BackendError::NotFound));
    let r = s.run(appbase_backend::lifecycle::update_pending_post("bad", draft("", "", "", "")));
    assert_eq!(r, Err(BackendError::InvalidInput));
}
