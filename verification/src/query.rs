//! Reading posts: pages of an index scan, listings sorted by recency, and
//! the table scans that search by title, look for similar posts and
//! intersect tags.
//!
//! The caller scans the store and hands over what it found; the functions
//! here decide what is shown and in which order.

use vstd::prelude::*;
use vstd::std_specs::iter::IteratorSpec;
use crate::content::MetaRead;
use crate::ident::{canonical_text, parsed_uuid, PostId};
use crate::kv::{ChronoKey, TokenKey};
use crate::model::{summaries, PendingPostSummaryWithOwner, PostSummary, SummaryView};
use crate::tags::{index_tokens, normalize_tags, text_set};
use crate::text::{chars_of, contains_chars, contains_spec, lowercase, same_text, texts, to_lower};

verus! {

/// Where a page of `limit` items after the first `offset` items begins in a
/// list of `len` items.
pub open spec fn page_start(len: nat, offset: u32) -> int {
    if offset <= len {
        offset as int
    } else {
        len as int
    }
}

/// Where that page ends.
pub open spec fn page_end(len: nat, limit: u32, offset: u32) -> int {
    if offset + limit <= len {
        offset + limit
    } else {
        len as int
    }
}

/// The page of `limit` items after the first `offset` items of `items`.
pub open spec fn page<T>(items: Seq<T>, limit: u32, offset: u32) -> Seq<T> {
    items.subrange(page_start(items.len(), offset), page_end(items.len(), limit, offset))
}

/// The bounds of a page in a list of `len` items.
pub fn page_window(len: usize, limit: u32, offset: u32) -> (r: (usize, usize))
    ensures
        r.0 == page_start(len as nat, offset),
        r.1 == page_end(len as nat, limit, offset),
        r.0 <= r.1 <= len,
{
    let start: usize = if (offset as u64) <= (len as u64) {
        offset as usize
    } else {
        len
    };
    let wanted: u64 = offset as u64 + limit as u64;
    let end: usize = if wanted <= (len as u64) {
        wanted as usize
    } else {
        len
    };
    (start, end)
}

/// Takes the page of `limit` items after the first `offset` items.
pub fn take_page<T>(items: Vec<T>, limit: u32, offset: u32) -> (out: Vec<T>)
    ensures
        out@ == page(items@, limit, offset),
{
    let (start, end) = page_window(items.len(), limit, offset);
    let mut head = items;
    let mut tail = head.split_off(start);
    tail.truncate(end - start);
    assert(tail@ =~= page(items@, limit, offset));
    tail
}

/// The posts of a run of chronological index entries.
pub open spec fn chrono_ids(entries: Seq<ChronoKey>) -> Seq<PostId> {
    Seq::new(entries.len(), |i: int| entries[i].id)
}

/// The posts of a run of tag or keyword index entries.
pub open spec fn token_ids(entries: Seq<TokenKey>) -> Seq<PostId> {
    Seq::new(entries.len(), |i: int| entries[i].id)
}

/// Whether the entries come as a scan of the chronological index gives
/// them: none is kept before one that stands before it.
pub open spec fn in_key_order(entries: Seq<ChronoKey>) -> bool {
    forall|i: int, j: int|
        0 <= i < j < entries.len() ==> !(#[trigger] entries[j]).before(#[trigger] entries[i])
}

/// A page of a scan in key order is in key order, so that its posts come
/// newest first: a post never stands behind one with a larger negated
/// creation time.
pub proof fn lemma_page_is_newest_first(entries: Seq<ChronoKey>, limit: u32, offset: u32)
    requires
        in_key_order(entries),
    ensures
        in_key_order(page(entries, limit, offset)),
        forall|i: int, j: int|
            0 <= i < j < page(entries, limit, offset).len() ==> (#[trigger] page(
                entries,
                limit,
                offset,
            )[i]).inv_time <= (#[trigger] page(entries, limit, offset)[j]).inv_time,
{
    let shown = page(entries, limit, offset);
    let start = page_start(entries.len(), offset);
    assert forall|i: int, j: int| 0 <= i < j < shown.len() implies !(#[trigger] shown[j]).before(
        #[trigger] shown[i],
    ) by {
        assert(shown[i] == entries[start + i]);
        assert(shown[j] == entries[start + j]);
    }
}

/// The posts of one page of the chronological index, newest first, where
/// `entries` are the index entries in the store's key order.
pub fn read_latest_post_summaries(entries: &Vec<ChronoKey>, limit: u32, offset: u32) -> (out: Vec<
    PostId,
>)
    ensures
        out@ == page(chrono_ids(entries@), limit, offset),
{
    let (start, end) = page_window(entries.len(), limit, offset);
    let mut out: Vec<PostId> = Vec::new();
    let mut i: usize = start;
    while i < end
        invariant
            start <= i <= end <= entries.len(),
            out@ == chrono_ids(entries@).subrange(start as int, i as int),
        decreases end - i,
    {
        out.push(entries[i].id);
        assert(out@ =~= chrono_ids(entries@).subrange(start as int, i + 1));
        i += 1;
    }
    out
}

/// The posts of one page of the scan of the tag index for one tag, newest
/// first, where `entries` are the entries of the scanned key interval in key
/// order.
pub fn read_post_summaries_by_tag(entries: &Vec<TokenKey>, limit: u32, offset: u32) -> (out: Vec<
    PostId,
>)
    ensures
        out@ == page(token_ids(entries@), limit, offset),
{
    token_page(entries, limit, offset)
}

/// The posts of one page of the scan of the keyword index for one keyword,
/// newest first, where `entries` are the entries of the scanned key interval
/// in key order.
pub fn read_post_summaries_by_keyword(entries: &Vec<TokenKey>, limit: u32, offset: u32) -> (out: Vec<
    PostId,
>)
    ensures
        out@ == page(token_ids(entries@), limit, offset),
{
    token_page(entries, limit, offset)
}

fn token_page(entries: &Vec<TokenKey>, limit: u32, offset: u32) -> (out: Vec<PostId>)
    ensures
        out@ == page(token_ids(entries@), limit, offset),
{
    let (start, end) = page_window(entries.len(), limit, offset);
    let mut out: Vec<PostId> = Vec::new();
    let mut i: usize = start;
    while i < end
        invariant
            start <= i <= end <= entries.len(),
            out@ == token_ids(entries@).subrange(start as int, i as int),
        decreases end - i,
    {
        out.push(entries[i].id);
        assert(out@ =~= token_ids(entries@).subrange(start as int, i + 1));
        i += 1;
    }
    out
}

/// One metadata row as a scan or a lookup found it.
#[derive(Debug)]
pub struct MetaRow {
    pub id: PostId,
    pub metadata: MetaRead,
}

/// The summaries of the rows that could be read, in the order of the rows.
/// A row that is missing or cannot be read is left out.
pub open spec fn readable_rows(rows: Seq<MetaRow>) -> Seq<SummaryView>
    decreases rows.len(),
{
    if rows.len() == 0 {
        Seq::empty()
    } else {
        let before = readable_rows(rows.drop_last());
        match rows.last().metadata {
            MetaRead::Found(m) => before.push(
                SummaryView { id: canonical_text(rows.last().id.value), metadata: m@ },
            ),
            _ => before,
        }
    }
}

/// Builds the summaries of the rows that could be read.
pub fn summaries_of(rows: Vec<MetaRow>) -> (out: Vec<PostSummary>)
    ensures
        summaries(out@) == readable_rows(rows@),
{
    let mut out: Vec<PostSummary> = Vec::new();
    assert(summaries(out@) =~= readable_rows(rows@.take(0)));
    for row in it: rows
        invariant
            it.seq() == rows@,
            summaries(out@) == readable_rows(rows@.take(it.index() as int)),
    {
        proof {
            let next = rows@.take(it.index() + 1);
            assert(next.drop_last() == rows@.take(it.index() as int));
            assert(next.last() == row);
        }
        match row.metadata {
            MetaRead::Found(metadata) => {
                let ghost before = summaries(out@);
                let p = PostSummary { id: row.id.to_text(), metadata };
                out.push(p);
                assert(summaries(out@) =~= before.push(p@));
            },
            _ => {},
        }
    }
    assert(rows@.take(rows@.len() as int) == rows@);
    out
}

/// Whether a listing shows the newest post first: no post is later than one
/// that stands before it.
pub open spec fn newest_first(posts: Seq<SummaryView>) -> bool {
    forall|i: int, j: int|
        0 <= i < j < posts.len() ==> !(#[trigger] posts[j]).metadata.created_at.later_than(
            (#[trigger] posts[i]).metadata.created_at,
        )
}

/// Where a post goes into a listing that shows the newest first: before the
/// first post that it is later than, and so behind every post of its own
/// time.
pub open spec fn slot(sorted: Seq<SummaryView>, p: SummaryView) -> int
    decreases sorted.len(),
{
    if sorted.len() == 0 {
        0
    } else if p.metadata.created_at.later_than(sorted.first().metadata.created_at) {
        0
    } else {
        1 + slot(sorted.drop_first(), p)
    }
}

/// The listing of `posts` sorted by creation time, newest first, with posts
/// of one time in the order in which they came.
pub open spec fn by_recency(posts: Seq<SummaryView>) -> Seq<SummaryView>
    decreases posts.len(),
{
    if posts.len() == 0 {
        Seq::empty()
    } else {
        let before = by_recency(posts.drop_last());
        before.insert(slot(before, posts.last()), posts.last())
    }
}

/// The slot of a post is the one place behind every post that it is not
/// later than and before a post that it is later than.
pub proof fn lemma_slot(sorted: Seq<SummaryView>, p: SummaryView, at: int)
    requires
        0 <= at <= sorted.len(),
        forall|k: int|
            0 <= k < at ==> !p.metadata.created_at.later_than(
                (#[trigger] sorted[k]).metadata.created_at,
            ),
        at < sorted.len() ==> p.metadata.created_at.later_than(sorted[at].metadata.created_at),
    ensures
        slot(sorted, p) == at,
    decreases sorted.len(),
{
    if sorted.len() > 0 {
        if at == 0 {
            assert(sorted.first() == sorted[0]);
        } else {
            assert(sorted.first() == sorted[0]);
            let rest = sorted.drop_first();
            assert forall|k: int| 0 <= k < at - 1 implies !p.metadata.created_at.later_than(
                (#[trigger] rest[k]).metadata.created_at,
            ) by {
                assert(rest[k] == sorted[k + 1]);
            }
            if at - 1 < rest.len() {
                assert(rest[at - 1] == sorted[at]);
            }
            lemma_slot(rest, p, at - 1);
        }
    }
}

/// The slot of a post lies in the listing or at its end, behind every post
/// that the post is not later than, and before a post that it is later than.
pub proof fn lemma_slot_is_found(sorted: Seq<SummaryView>, p: SummaryView)
    ensures
        0 <= slot(sorted, p) <= sorted.len(),
        forall|k: int|
            0 <= k < slot(sorted, p) ==> !p.metadata.created_at.later_than(
                (#[trigger] sorted[k]).metadata.created_at,
            ),
        slot(sorted, p) < sorted.len() ==> p.metadata.created_at.later_than(
            sorted[slot(sorted, p)].metadata.created_at,
        ),
    decreases sorted.len(),
{
    if sorted.len() > 0 && !p.metadata.created_at.later_than(sorted.first().metadata.created_at) {
        let rest = sorted.drop_first();
        lemma_slot_is_found(rest, p);
        assert forall|k: int| 0 <= k < slot(sorted, p) implies !p.metadata.created_at.later_than(
            (#[trigger] sorted[k]).metadata.created_at,
        ) by {
            if k > 0 {
                assert(sorted[k] == rest[k - 1]);
            }
        }
        if slot(sorted, p) < sorted.len() {
            assert(sorted[slot(sorted, p)] == rest[slot(rest, p)]);
        }
    }
}

/// Sorting by recency gives a listing that shows the newest post first and
/// holds the same posts, each as often as before.
pub proof fn lemma_by_recency_sorts(posts: Seq<SummaryView>)
    ensures
        newest_first(by_recency(posts)),
        by_recency(posts).to_multiset() == posts.to_multiset(),
        by_recency(posts).len() == posts.len(),
    decreases posts.len(),
{
    if posts.len() == 0 {
        assert(posts =~= Seq::<SummaryView>::empty());
        assert(by_recency(posts) =~= posts);
    } else {
        let head = posts.drop_last();
        let p = posts.last();
        lemma_by_recency_sorts(head);
        let before = by_recency(head);
        let at = slot(before, p);
        lemma_slot_is_found(before, p);
        let after = before.insert(at, p);
        assert(by_recency(posts) == after);
        vstd::seq_lib::to_multiset_insert(before, at, p);
        assert(after.to_multiset() =~= before.to_multiset().insert(p));
        assert(posts =~= head.push(p));
        vstd::seq_lib::to_multiset_build(head, p);
        assert(posts.to_multiset() =~= head.to_multiset().insert(p));
        assert forall|i: int, j: int| 0 <= i < j < after.len() implies !(#[trigger] after[j]).metadata.created_at.later_than(
            (#[trigger] after[i]).metadata.created_at,
        ) by {
            if j < at {
                assert(after[i] == before[i] && after[j] == before[j]);
            } else if j == at {
                assert(after[i] == before[i]);
            } else if i < at {
                assert(after[i] == before[i] && after[j] == before[j - 1]);
            } else if i == at {
                assert(after[j] == before[j - 1]);
                assert(before[at] == after[at + 1]);
            } else {
                assert(after[i] == before[i - 1] && after[j] == before[j - 1]);
            }
        }
    }
}

/// Posts of one time keep the order in which they came: of two posts with
/// the same creation time, the one that came first stands first.
pub proof fn lemma_by_recency_keeps_ties(first: SummaryView, second: SummaryView)
    requires
        first.metadata.created_at == second.metadata.created_at,
    ensures
        by_recency(seq![first, second]) == seq![first, second],
{
    let both = seq![first, second];
    assert(both.drop_last() =~= seq![first]);
    assert(seq![first].drop_last() =~= Seq::<SummaryView>::empty());
    assert(by_recency(Seq::<SummaryView>::empty()) =~= Seq::<SummaryView>::empty());
    assert(by_recency(seq![first]) =~= seq![first]) by {
        assert(seq![first].last() == first);
        assert(Seq::<SummaryView>::empty().insert(0, first) =~= seq![first]);
    }
    assert(seq![first].drop_first() =~= Seq::<SummaryView>::empty());
    assert(seq![first].first() == first);
    assert(slot(Seq::<SummaryView>::empty(), second) == 0);
    assert(slot(seq![first], second) == 1);
    assert(seq![first].insert(1, second) =~= both);
}

/// Sorts a listing by creation time, newest first, keeping posts of one
/// time in the order in which they came. The listing keeps its posts, each
/// as often as it was there.
pub fn sort_newest_first(posts: Vec<PostSummary>) -> (out: Vec<PostSummary>)
    ensures
        summaries(out@) == by_recency(summaries(posts@)),
        newest_first(summaries(out@)),
        summaries(out@).to_multiset() == summaries(posts@).to_multiset(),
{
    let mut out: Vec<PostSummary> = Vec::new();
    assert(summaries(posts@).take(0) =~= Seq::<SummaryView>::empty());
    assert(summaries(out@) =~= Seq::<SummaryView>::empty());
    for p in it: posts
        invariant
            it.seq() == posts@,
            summaries(out@) == by_recency(summaries(posts@).take(it.index() as int)),
            newest_first(summaries(out@)),
            summaries(out@).to_multiset() == summaries(posts@).take(it.index() as int).to_multiset(),
    {
        let mut at: usize = 0;
        while at < out.len() && !p.metadata.created_at.is_later_than(&out[at].metadata.created_at)
            invariant
                at <= out.len(),
                forall|k: int|
                    0 <= k < at ==> !p.metadata.created_at.later_than(
                        (#[trigger] out@[k]).metadata.created_at,
                    ),
            decreases out.len() - at,
        {
            at += 1;
        }
        let ghost before = summaries(out@);
        let ghost pv = p@;
        assert forall|k: int| 0 <= k < at implies !pv.metadata.created_at.later_than(
            (#[trigger] before[k]).metadata.created_at,
        ) by {
            assert(before[k] == out@[k]@);
        }
        out.insert(at, p);
        proof {
            let after = summaries(out@);
            assert(after =~= before.insert(at as int, pv));
            vstd::seq_lib::to_multiset_insert(before, at as int, pv);
            let seen = summaries(posts@).take(it.index() as int);
            let more = summaries(posts@).take(it.index() + 1);
            assert(more =~= seen.push(pv));
            vstd::seq_lib::to_multiset_build(seen, pv);
            assert(more.drop_last() == seen);
            assert(more.last() == pv);
            lemma_slot(before, pv, at as int);
            assert forall|i: int, j: int| 0 <= i < j < after.len() implies !(#[trigger] after[j]).metadata.created_at.later_than(
                (#[trigger] after[i]).metadata.created_at,
            ) by {
                if j < at {
                    assert(after[i] == before[i] && after[j] == before[j]);
                } else if j == at {
                    assert(after[i] == before[i]);
                } else if i < at {
                    assert(after[i] == before[i] && after[j] == before[j - 1]);
                } else if i == at {
                    assert(after[j] == before[j - 1]);
                    if at < before.len() {
                        assert(before[at as int] == after[at + 1]);
                    }
                } else {
                    assert(after[i] == before[i - 1] && after[j] == before[j - 1]);
                }
            }
        }
    }
    assert(summaries(posts@).take(posts@.len() as int) =~= summaries(posts@));
    out
}

/// The posts of `posts` that `keep` accepts, in their order.
pub open spec fn kept(posts: Seq<SummaryView>, keep: spec_fn(SummaryView) -> bool) -> Seq<SummaryView>
    decreases posts.len(),
{
    if posts.len() == 0 {
        Seq::empty()
    } else {
        let before = kept(posts.drop_last(), keep);
        if keep(posts.last()) {
            before.push(posts.last())
        } else {
            before
        }
    }
}

/// Whether a post's title holds the query, letter case aside.
pub open spec fn title_holds(query: Seq<char>) -> spec_fn(SummaryView) -> bool {
    |p: SummaryView| contains_spec(lowercase(p.metadata.title), lowercase(query))
}

/// The posts whose title holds `title_query`, letter case aside, in their
/// order.
pub fn filter_by_title(posts: Vec<PostSummary>, title_query: &str) -> (out: Vec<PostSummary>)
    ensures
        summaries(out@) == kept(summaries(posts@), title_holds(title_query@)),
{
    let needle = chars_of(to_lower(title_query).as_str());
    let ghost all = summaries(posts@);
    let ghost keep = title_holds(title_query@);
    let mut out: Vec<PostSummary> = Vec::new();
    assert(summaries(out@) =~= kept(all.take(0), keep));
    for p in it: posts
        invariant
            it.seq() == posts@,
            all == summaries(posts@),
            keep == title_holds(title_query@),
            needle@ == lowercase(title_query@),
            summaries(out@) == kept(all.take(it.index() as int), keep),
    {
        proof {
            let next = all.take(it.index() + 1);
            assert(next.drop_last() == all.take(it.index() as int));
            assert(next.last() == p@);
        }
        let title = chars_of(to_lower(p.metadata.title.as_str()).as_str());
        if contains_chars(&title, &needle) {
            let ghost before = summaries(out@);
            let ghost pv = p@;
            out.push(p);
            assert(summaries(out@) =~= before.push(pv));
        }
    }
    assert(all.take(all.len() as int) == all);
    out
}

/// One page of the published posts whose title holds `title_query`, newest
/// first. `rows` is the whole metadata table.
pub fn read_post_summaries_by_title(rows: Vec<MetaRow>, title_query: &str, limit: u32, offset: u32) -> (out: Vec<
    PostSummary,
>)
    ensures
        summaries(out@) == page(
            by_recency(kept(readable_rows(rows@), title_holds(title_query@))),
            limit,
            offset,
        ),
{
    let found = filter_by_title(summaries_of(rows), title_query);
    let sorted = sort_newest_first(found);
    let ghost all = summaries(sorted@);
    let out = take_page(sorted, limit, offset);
    assert(summaries(out@) =~= page(all, limit, offset));
    out
}

/// One page of all pending posts, newest first. `rows` is the whole pending
/// metadata table.
pub fn read_all_pending_post_summaries_paginated(rows: Vec<MetaRow>, limit: u32, offset: u32) -> (out: Vec<
    PostSummary,
>)
    ensures
        summaries(out@) == page(by_recency(readable_rows(rows@)), limit, offset),
{
    let sorted = sort_newest_first(summaries_of(rows));
    let ghost all = summaries(sorted@);
    let out = take_page(sorted, limit, offset);
    assert(summaries(out@) =~= page(all, limit, offset));
    out
}

/// One page of the posts that carry all of the tags asked for, newest first.
/// `rows` are the metadata rows of the posts that `intersect_ids` found.
pub fn read_post_summaries_by_tags_intersection(rows: Vec<MetaRow>, limit: u32, offset: u32) -> (out: Vec<
    PostSummary,
>)
    ensures
        summaries(out@) == page(by_recency(readable_rows(rows@)), limit, offset),
{
    let sorted = sort_newest_first(summaries_of(rows));
    let ghost all = summaries(sorted@);
    let out = take_page(sorted, limit, offset);
    assert(summaries(out@) =~= page(all, limit, offset));
    out
}

/// The posts of one user, newest first. `rows` are the metadata rows of the
/// posts that the ownership table lists for the user.
pub fn read_post_summaries_by_user(rows: Vec<MetaRow>) -> (out: Vec<PostSummary>)
    ensures
        summaries(out@) == by_recency(readable_rows(rows@)),
{
    sort_newest_first(summaries_of(rows))
}

/// The identifiers among `texts`, in their order; text that is no identifier
/// is left out.
pub open spec fn parsed_ids(list: Seq<Seq<char>>) -> Seq<PostId>
    decreases list.len(),
{
    if list.len() == 0 {
        Seq::empty()
    } else {
        let before = parsed_ids(list.drop_last());
        match parsed_uuid(list.last()) {
            Some(value) => before.push(PostId { value }),
            None => before,
        }
    }
}

/// Reads the post identifiers that the ownership table lists as text.
pub fn parse_post_ids(list: &Vec<String>) -> (out: Vec<PostId>)
    ensures
        out@ == parsed_ids(texts(list@)),
{
    let mut out: Vec<PostId> = Vec::new();
    let ghost all = texts(list@);
    let mut i: usize = 0;
    assert(all.take(0) =~= Seq::<Seq<char>>::empty());
    while i < list.len()
        invariant
            i <= list.len(),
            all == texts(list@),
            out@ == parsed_ids(all.take(i as int)),
        decreases list.len() - i,
    {
        proof {
            let next = all.take(i + 1);
            assert(next.drop_last() == all.take(i as int));
            assert(next.last() == list@[i as int]@);
        }
        match PostId::parse(list[i].as_str()) {
            Ok(id) => {
                out.push(id);
            },
            Err(_) => {},
        }
        i += 1;
    }
    assert(all.take(all.len() as int) == all);
    out
}

/// Whether `list` holds `id`.
fn holds_id(list: &Vec<PostId>, id: PostId) -> (b: bool)
    ensures
        b == list@.contains(id),
{
    let mut i: usize = 0;
    while i < list.len()
        invariant
            i <= list.len(),
            forall|k: int| 0 <= k < i ==> list@[k] != id,
        decreases list.len() - i,
    {
        if list[i].value == id.value {
            return true;
        }
        i += 1;
    }
    false
}

/// The posts that every one of the scans in `per_tag` found. With no scan
/// at all there is no post.
pub open spec fn in_every(per_tag: Seq<Vec<PostId>>, id: PostId) -> bool {
    per_tag.len() > 0 && forall|k: int| 0 <= k < per_tag.len() ==> (#[trigger] per_tag[k])@.contains(id)
}

/// The posts that carry all of the tags: `per_tag` holds, for each tag, the
/// posts that the scan of the tag index found for it.
pub fn intersect_ids(per_tag: &Vec<Vec<PostId>>) -> (out: Vec<PostId>)
    ensures
        out@.no_duplicates(),
        forall|id: PostId| out@.contains(id) <==> in_every(per_tag@, id),
{
    let mut out: Vec<PostId> = Vec::new();
    if per_tag.len() == 0 {
        return out;
    }
    let first = &per_tag[0];
    let mut i: usize = 0;
    while i < first.len()
        invariant
            i <= first.len(),
            per_tag@.len() > 0,
            first == &per_tag@[0],
            out@.no_duplicates(),
            forall|id: PostId|
                out@.contains(id) <==> in_every(per_tag@, id) && first@.take(i as int).contains(id),
        decreases first.len() - i,
    {
        let id = first[i];
        let mut everywhere = !holds_id(&out, id);
        let mut k: usize = 1;
        while everywhere && k < per_tag.len()
            invariant
                1 <= k <= per_tag.len(),
                first == &per_tag@[0],
                i < first.len(),
                id == first@[i as int],
                everywhere ==> !out@.contains(id),
                everywhere ==> forall|j: int| 0 <= j < k ==> (#[trigger] per_tag@[j])@.contains(id),
                !everywhere ==> out@.contains(id) || !in_every(per_tag@, id),
            decreases per_tag.len() - k, everywhere as int,
        {
            if !holds_id(&per_tag[k], id) {
                everywhere = false;
            } else {
                k += 1;
            }
        }
        proof {
            let seen = first@.take(i as int);
            let more = first@.take(i + 1);
            assert(more =~= seen.push(id));
            assert forall|x: PostId| more.contains(x) <==> seen.contains(x) || x == id by {
                if more.contains(x) {
                    let j = choose|j: int| 0 <= j < more.len() && more[j] == x;
                    if j < i {
                        assert(seen[j] == x);
                    }
                }
                if seen.contains(x) {
                    let j = choose|j: int| 0 <= j < seen.len() && seen[j] == x;
                    assert(more[j] == x);
                }
                assert(more[i as int] == id);
            }
        }
        let ghost before = out@;
        if everywhere {
            out.push(id);
            proof {
                assert forall|x: PostId| out@.contains(x) <==> before.contains(x) || x == id by {
                    if out@.contains(x) {
                        let j = choose|j: int| 0 <= j < out@.len() && out@[j] == x;
                        if j < before.len() {
                            assert(before[j] == x);
                        }
                    }
                    if before.contains(x) {
                        let j = choose|j: int| 0 <= j < before.len() && before[j] == x;
                        assert(out@[j] == x);
                    }
                    assert(out@[before.len() as int] == id);
                }
                assert(in_every(per_tag@, id));
            }
        }
        proof {
            let seen = first@.take(i as int);
            let more = first@.take(i + 1);
            assert forall|x: PostId|
                out@.contains(x) <==> in_every(per_tag@, x) && more.contains(x) by {
                assert(before.contains(x) <==> in_every(per_tag@, x) && seen.contains(x));
                assert(more.contains(x) <==> seen.contains(x) || x == id);
                if x == id {
                    if everywhere {
                        assert(out@.contains(x));
                    } else {
                        assert(out@ == before);
                    }
                }
            }
        }
        i += 1;
    }
    proof {
        assert(first@.take(first@.len() as int) == first@);
        assert forall|id: PostId| in_every(per_tag@, id) implies first@.contains(id) by {
            assert(per_tag@[0]@.contains(id));
        }
    }
    out
}

/// What a search for similar posts compares.
#[derive(Clone, Copy, Debug, PartialEq, Eq, Structural)]
pub struct SimilarityCheck {
    pub by_title: bool,
    pub by_tags: bool,
}

/// The comparison that a check type asks for: `"title"`, `"tags"` or
/// `"both"`; any other text asks for none.
pub open spec fn check_kind(check_type: Seq<char>) -> SimilarityCheck {
    SimilarityCheck {
        by_title: check_type == seq!['t', 'i', 't', 'l', 'e'] || check_type == seq![
            'b',
            'o',
            't',
            'h',
        ],
        by_tags: check_type == seq!['t', 'a', 'g', 's'] || check_type == seq!['b', 'o', 't', 'h'],
    }
}

/// Reads the check type of a search for similar posts.
pub fn similarity_check(check_type: &str) -> (r: SimilarityCheck)
    ensures
        r == check_kind(check_type@),
{
    proof {
        reveal_strlit("title");
        reveal_strlit("tags");
        reveal_strlit("both");
        assert("title"@ =~= seq!['t', 'i', 't', 'l', 'e']);
        assert("tags"@ =~= seq!['t', 'a', 'g', 's']);
        assert("both"@ =~= seq!['b', 'o', 't', 'h']);
    }
    let both = same_text(check_type, "both");
    SimilarityCheck {
        by_title: same_text(check_type, "title") || both,
        by_tags: same_text(check_type, "tags") || both,
    }
}

/// Whether one of `tags`, lower-cased, is among `wanted`.
pub open spec fn shares_tag(tags: Seq<Seq<char>>, wanted: Set<Seq<char>>) -> bool {
    exists|i: int| 0 <= i < tags.len() && wanted.contains(lowercase(#[trigger] tags[i]))
}

/// Whether a post is similar to a title and a set of tags under `check`.
/// An empty title or an empty set of tags matches nothing. Where both are
/// compared, both must match.
pub open spec fn is_similar(
    post: SummaryView,
    title: Seq<char>,
    wanted: Set<Seq<char>>,
    wanted_len: nat,
    check: SimilarityCheck,
) -> bool {
    let title_matches = lowercase(title).len() > 0 && lowercase(post.metadata.title) == lowercase(
        title,
    );
    let tags_match = wanted_len > 0 && shares_tag(post.metadata.tags, wanted);
    if check.by_title && check.by_tags {
        title_matches && tags_match
    } else if check.by_title {
        title_matches
    } else if check.by_tags {
        tags_match
    } else {
        false
    }
}

/// Whether a post is similar and is not the post to leave out.
pub open spec fn similar_to(
    title: Seq<char>,
    wanted: Seq<Seq<char>>,
    check: SimilarityCheck,
    exclude: Option<Seq<char>>,
) -> spec_fn(SummaryView) -> bool {
    |p: SummaryView|
        is_similar(p, title, wanted.to_set(), wanted.len(), check) && !(exclude is Some
            && parsed_uuid(exclude->0) is Some && parsed_uuid(exclude->0) == parsed_uuid(p.id))
}

fn post_shares_tag(tags: &Vec<String>, wanted: &Vec<String>) -> (b: bool)
    ensures
        b == shares_tag(texts(tags@), text_set(wanted@)),
{
    let mut i: usize = 0;
    while i < tags.len()
        invariant
            i <= tags.len(),
            forall|k: int|
                0 <= k < i ==> !text_set(wanted@).contains(lowercase(#[trigger] texts(tags@)[k])),
        decreases tags.len() - i,
    {
        let lower = to_lower(tags[i].as_str());
        let mut j: usize = 0;
        while j < wanted.len()
            invariant
                j <= wanted.len(),
                i < tags.len(),
                lower@ == lowercase(texts(tags@)[i as int]),
                forall|k: int| 0 <= k < j ==> texts(wanted@)[k] != lower@,
            decreases wanted.len() - j,
        {
            if wanted[j] == lower {
                assert(texts(wanted@)[j as int] == lower@);
                return true;
            }
            j += 1;
        }
        i += 1;
    }
    false
}

/// The published posts that are similar to a title and a list of tags,
/// newest first. `tags_to_check` holds lower-case tags; `exclude_id` names a
/// post to leave out, such as the one being edited.
pub fn find_similar_posts(
    posts: Vec<PostSummary>,
    title_to_check: &str,
    tags_to_check: &Vec<String>,
    check: SimilarityCheck,
    exclude_id: Option<&str>,
) -> (out: Vec<PostSummary>)
    ensures
        summaries(out@) == by_recency(
            kept(
                summaries(posts@),
                similar_to(
                    title_to_check@,
                    texts(tags_to_check@),
                    check,
                    crate::content::opt_str(exclude_id),
                ),
            ),
        ),
{
    let title = to_lower(title_to_check);
    let excluded: Option<PostId> = match exclude_id {
        Some(text) => match PostId::parse(text) {
            Ok(id) => Some(id),
            Err(_) => None,
        },
        None => None,
    };
    let ghost all = summaries(posts@);
    let ghost keep = similar_to(
        title_to_check@,
        texts(tags_to_check@),
        check,
        crate::content::opt_str(exclude_id),
    );
    let mut found: Vec<PostSummary> = Vec::new();
    assert(summaries(found@) =~= kept(all.take(0), keep));
    for p in it: posts
        invariant
            it.seq() == posts@,
            all == summaries(posts@),
            keep == similar_to(
                title_to_check@,
                texts(tags_to_check@),
                check,
                crate::content::opt_str(exclude_id),
            ),
            title@ == lowercase(title_to_check@),
            match excluded {
                Some(id) => exclude_id is Some && parsed_uuid(exclude_id->0@) == Some(id.value),
                None => exclude_id is None || parsed_uuid(exclude_id->0@) is None,
            },
            summaries(found@) == kept(all.take(it.index() as int), keep),
    {
        proof {
            let next = all.take(it.index() + 1);
            assert(next.drop_last() == all.take(it.index() as int));
            assert(next.last() == p@);
        }
        let left_out = match excluded {
            Some(id) => match PostId::parse(p.id.as_str()) {
                Ok(own) => own.value == id.value,
                Err(_) => false,
            },
            None => false,
        };
        let title_matches = check.by_title && !title.as_str().is_empty() && to_lower(
            p.metadata.title.as_str(),
        ) == title;
        let tags_match = check.by_tags && tags_to_check.len() > 0 && post_shares_tag(
            &p.metadata.tags,
            tags_to_check,
        );
        let similar = if check.by_title && check.by_tags {
            title_matches && tags_match
        } else if check.by_title {
            title_matches
        } else if check.by_tags {
            tags_match
        } else {
            false
        };
        if similar && !left_out {
            let ghost before = summaries(found@);
            let ghost pv = p@;
            found.push(p);
            assert(summaries(found@) =~= before.push(pv));
        }
    }
    assert(all.take(all.len() as int) == all);
    sort_newest_first(found)
}

/// The published posts that are similar to a title and to comma-separated
/// tags, as the check type asks. A check type that asks for no comparison
/// finds nothing.
pub fn check_similar_posts(
    posts: Vec<PostSummary>,
    title: &str,
    tags_str: &str,
    check_type: &str,
    exclude_id: Option<&str>,
) -> (out: Vec<PostSummary>)
    ensures
        summaries(out@) == by_recency(
            kept(
                summaries(posts@),
                similar_to(
                    title@,
                    index_tokens(tags_str@),
                    check_kind(check_type@),
                    crate::content::opt_str(exclude_id),
                ),
            ),
        ),
{
    let wanted = normalize_tags(tags_str);
    let check = similarity_check(check_type);
    find_similar_posts(posts, title, &wanted, check, exclude_id)
}

/// How a search of the published posts looks them up.
#[derive(Clone, Copy, Debug, PartialEq, Eq, Structural)]
pub enum SearchKind {
    /// By identifier: at most one post.
    PostId,
    /// By a scan of the tag index for the lower-cased query.
    Tag,
    /// By a scan of all titles.
    Title,
    /// By a scan of the keyword index for the lower-cased query.
    Keyword,
}

/// The lookup that a search type names; any other text names none, and the
/// search finds nothing.
pub open spec fn search_kind_of(search_type: Seq<char>) -> Option<SearchKind> {
    if search_type == seq!['p', 'o', 's', 't', '_', 'i', 'd'] {
        Some(SearchKind::PostId)
    } else if search_type == seq!['t', 'a', 'g'] {
        Some(SearchKind::Tag)
    } else if search_type == seq!['t', 'i', 't', 'l', 'e'] {
        Some(SearchKind::Title)
    } else if search_type == seq!['k', 'e', 'y', 'w', 'o', 'r', 'd'] {
        Some(SearchKind::Keyword)
    } else {
        None
    }
}

/// Reads the search type of a search of the published posts.
pub fn search_posts(search_type: &str) -> (r: Option<SearchKind>)
    ensures
        r == search_kind_of(search_type@),
{
    proof {
        reveal_strlit("post_id");
        reveal_strlit("tag");
        reveal_strlit("title");
        reveal_strlit("keyword");
        assert("post_id"@ =~= seq!['p', 'o', 's', 't', '_', 'i', 'd']);
        assert("tag"@ =~= seq!['t', 'a', 'g']);
        assert("title"@ =~= seq!['t', 'i', 't', 'l', 'e']);
        assert("keyword"@ =~= seq!['k', 'e', 'y', 'w', 'o', 'r', 'd']);
    }
    if same_text(search_type, "post_id") {
        Some(SearchKind::PostId)
    } else if same_text(search_type, "tag") {
        Some(SearchKind::Tag)
    } else if same_text(search_type, "title") {
        Some(SearchKind::Title)
    } else if same_text(search_type, "keyword") {
        Some(SearchKind::Keyword)
    } else {
        None
    }
}

/// A pending post as the approval queue found it: its summary, and the name of
/// its author where the author is known and the account could be read.
#[derive(Debug)]
pub struct QueuedPost {
    pub summary: PostSummary,
    /// Whether an owner was found for the post.
    pub has_owner: bool,
    /// The user name of the owner, where the account could be read.
    pub author_name: Option<String>,
}

/// The name that the queue shows for an author whose account cannot be read.
pub open spec fn unknown_author() -> Seq<char> {
    seq!['U', 'n', 'k', 'n', 'o', 'w', 'n']
}

/// The lines of the approval queue: a post without owner is left out, and an
/// owner whose account cannot be read is shown as "Unknown".
pub open spec fn queue_lines(found: Seq<QueuedPost>) -> Seq<(SummaryView, Seq<char>)>
    decreases found.len(),
{
    if found.len() == 0 {
        Seq::empty()
    } else {
        let before = queue_lines(found.drop_last());
        let q = found.last();
        if q.has_owner {
            before.push(
                (
                    q.summary@,
                    match q.author_name {
                        Some(name) => name@,
                        None => unknown_author(),
                    },
                ),
            )
        } else {
            before
        }
    }
}

/// The values of the lines of a approval queue.
pub open spec fn lines(v: Seq<PendingPostSummaryWithOwner>) -> Seq<(SummaryView, Seq<char>)> {
    Seq::new(v.len(), |i: int| (v[i].post_summary@, v[i].author_name@))
}

/// Builds the approval queue from the pending posts and what was found of
/// their owners.
pub fn fetch_pending_posts_with_owners(found: Vec<QueuedPost>) -> (out: Vec<PendingPostSummaryWithOwner>)
    ensures
        lines(out@) == queue_lines(found@),
{
    proof {
        reveal_strlit("Unknown");
        assert("Unknown"@ =~= unknown_author());
    }
    let mut out: Vec<PendingPostSummaryWithOwner> = Vec::new();
    assert(lines(out@) =~= queue_lines(found@.take(0)));
    for q in it: found
        invariant
            it.seq() == found@,
            "Unknown"@ == unknown_author(),
            lines(out@) == queue_lines(found@.take(it.index() as int)),
    {
        proof {
            let next = found@.take(it.index() + 1);
            assert(next.drop_last() == found@.take(it.index() as int));
            assert(next.last() == q);
        }
        if q.has_owner {
            let author_name = match q.author_name {
                Some(name) => name,
                None => "Unknown".to_owned(),
            };
            let ghost before = lines(out@);
            let line = PendingPostSummaryWithOwner { post_summary: q.summary, author_name };
            let ghost lv = (line.post_summary@, line.author_name@);
            out.push(line);
            assert(lines(out@) =~= before.push(lv));
        }
    }
    assert(found@.take(found@.len() as int) == found@);
    out
}

} // verus!
