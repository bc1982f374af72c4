//! The three secondary indices: by tag, by keyword and by recency.
//!
//! An index entry is a key without a value. The creation time is stored
//! negated, so that the store's ascending key order is newest first and a
//! forward scan serves "latest posts". Equal times are ordered by identifier.

use vstd::prelude::*;
use crate::ident::PostId;
use crate::kv::{batch, push_write, ChronoKey, KvState, KvWrite, TokenKey, TokenKeyView};
use crate::model::{MetadataView, PostMetadata, Timestamp};
use crate::tags::{all_tags, generate_all_tags, index_tokens, process_keywords, text_set};
use crate::text::{chars_of, join, join_spec, texts, to_lower, lowercase};

verus! {

/// The negated creation time that index keys hold. The one value that has no
/// negation is mapped to the largest key.
pub open spec fn inverted(secs: i64) -> i64 {
    if secs == i64::MIN {
        i64::MAX
    } else {
        (0 - secs) as i64
    }
}

/// The negated creation time of `created_at`, in seconds.
pub fn inverted_timestamp(created_at: &Timestamp) -> (inv: i64)
    ensures
        inv == inverted(created_at.secs),
{
    if created_at.secs == i64::MIN {
        i64::MAX
    } else {
        0 - created_at.secs
    }
}

impl ChronoKey {
    /// Whether the store keeps `self` strictly before `other`.
    pub open spec fn before(self, other: ChronoKey) -> bool {
        self.inv_time < other.inv_time || (self.inv_time == other.inv_time && self.id.value
            < other.id.value)
    }

    /// Whether the store keeps `self` strictly before `other`.
    pub fn sorts_before(&self, other: &ChronoKey) -> (b: bool)
        ensures
            b == self.before(*other),
    {
        self.inv_time < other.inv_time || (self.inv_time == other.inv_time && self.id.value
            < other.id.value)
    }
}

/// Whether text `a` stands strictly before text `b` in the store's order of
/// strings: character by character, a proper prefix first.
pub open spec fn text_before(a: Seq<char>, b: Seq<char>) -> bool
    decreases a.len(),
{
    if b.len() == 0 {
        false
    } else if a.len() == 0 {
        true
    } else if a.first() != b.first() {
        (a.first() as int) < (b.first() as int)
    } else {
        text_before(a.drop_first(), b.drop_first())
    }
}

/// No text stands before itself.
pub proof fn lemma_text_order_irreflexive(a: Seq<char>)
    ensures
        !text_before(a, a),
    decreases a.len(),
{
    if a.len() > 0 {
        lemma_text_order_irreflexive(a.drop_first());
    }
}

/// Of two different texts one stands before the other.
pub proof fn lemma_text_order_total(a: Seq<char>, b: Seq<char>)
    ensures
        a == b || text_before(a, b) || text_before(b, a),
        !(text_before(a, b) && text_before(b, a)),
    decreases a.len(),
{
    if a.len() == 0 || b.len() == 0 {
        if a.len() == 0 && b.len() == 0 {
            assert(a =~= b);
        }
    } else if a.first() == b.first() {
        lemma_text_order_total(a.drop_first(), b.drop_first());
        if a.drop_first() == b.drop_first() {
            assert(a =~= seq![a.first()] + a.drop_first());
            assert(b =~= seq![b.first()] + b.drop_first());
        }
    }
}

/// The code point of `c`.
fn code_of(c: char) -> (n: u32)
    ensures
        n as int == c as int,
{
    c as u32
}

/// Whether `a` stands strictly before `b` in the store's order of strings.
pub fn text_sorts_before(a: &str, b: &str) -> (r: bool)
    ensures
        r == text_before(a@, b@),
{
    let x = chars_of(a);
    let y = chars_of(b);
    let mut i: usize = 0;
    assert(x@.skip(0) == x@ && y@.skip(0) == y@);
    while i < x.len() && i < y.len()
        invariant
            i <= x.len(),
            i <= y.len(),
            x@ == a@,
            y@ == b@,
            text_before(x@, y@) == text_before(x@.skip(i as int), y@.skip(i as int)),
        decreases x.len() - i,
    {
        proof {
            let p = x@.skip(i as int);
            let q = y@.skip(i as int);
            assert(p.first() == x@[i as int]);
            assert(q.first() == y@[i as int]);
            assert(p.drop_first() == x@.skip(i + 1));
            assert(q.drop_first() == y@.skip(i + 1));
        }
        let c: char = x[i];
        let d: char = y[i];
        if c != d {
            return code_of(c) < code_of(d);
        }
        i += 1;
    }
    i < y.len()
}

impl TokenKeyView {
    /// Whether the store keeps `self` strictly before `other`: by token,
    /// then by negated time, then by identifier.
    pub open spec fn before(self, other: TokenKeyView) -> bool {
        text_before(self.token, other.token) || (self.token == other.token && (self.inv_time
            < other.inv_time || (self.inv_time == other.inv_time && self.id.value
            < other.id.value)))
    }

    /// Whether `self` lies in the closed key interval from `lo` to `hi`.
    pub open spec fn within(self, lo: TokenKeyView, hi: TokenKeyView) -> bool {
        !self.before(lo) && !hi.before(self)
    }
}

impl TokenKey {
    /// Whether the store keeps `self` strictly before `other`.
    pub fn sorts_before(&self, other: &TokenKey) -> (b: bool)
        ensures
            b == self@.before(other@),
    {
        if text_sorts_before(self.token.as_str(), other.token.as_str()) {
            true
        } else if self.token == other.token {
            self.inv_time < other.inv_time || (self.inv_time == other.inv_time && self.id.value
                < other.id.value)
        } else {
            false
        }
    }
}

/// The smallest key that an index can hold for `token`.
pub open spec fn range_start(token: Seq<char>) -> TokenKeyView {
    TokenKeyView { token, inv_time: i64::MIN, id: PostId { value: 0 } }
}

/// The largest key that an index can hold for `token`.
pub open spec fn range_end(token: Seq<char>) -> TokenKeyView {
    TokenKeyView { token, inv_time: i64::MAX, id: PostId { value: u128::MAX } }
}

/// The closed key interval to scan for the posts found under `query`. The
/// query is lower-cased, as index tokens are.
pub fn token_range(query: &str) -> (r: (TokenKey, TokenKey))
    ensures
        r.0@ == range_start(lowercase(query@)),
        r.1@ == range_end(lowercase(query@)),
{
    let lo = TokenKey { token: to_lower(query), inv_time: i64::MIN, id: PostId { value: 0 } };
    let hi = TokenKey {
        token: to_lower(query),
        inv_time: i64::MAX,
        id: PostId { value: u128::MAX },
    };
    (lo, hi)
}

/// The scan interval for a token holds exactly the keys with that token.
pub proof fn lemma_range_selects_token(token: Seq<char>, key: TokenKeyView)
    ensures
        key.within(range_start(token), range_end(token)) <==> key.token == token,
{
    lemma_text_order_total(key.token, token);
    lemma_text_order_irreflexive(token);
}

/// Ascending key order is descending creation time: a post created in a
/// later second sorts before one created earlier.
pub proof fn lemma_newer_sorts_first(newer: Timestamp, older: Timestamp, a: PostId, b: PostId)
    requires
        newer.secs > older.secs,
        older.secs > i64::MIN,
    ensures
        (ChronoKey { inv_time: inverted(newer.secs), id: a }).before(
            ChronoKey { inv_time: inverted(older.secs), id: b },
        ),
{
}

/// Posts created in the same second are ordered by identifier.
pub proof fn lemma_same_second_by_id(t: Timestamp, u: Timestamp, a: PostId, b: PostId)
    requires
        t.secs == u.secs,
    ensures
        (ChronoKey { inv_time: inverted(t.secs), id: a }).before(
            ChronoKey { inv_time: inverted(u.secs), id: b },
        ) <==> a.value < b.value,
{
}

/// The tag text that the index entries of a post are computed from: its
/// display tags joined by a comma and a blank.
pub open spec fn tag_source(meta: MetadataView) -> Seq<char> {
    join_spec(meta.tags, seq![',', ' '])
}

/// The keyword text that the index entries of a post are computed from.
pub open spec fn keyword_source(meta: MetadataView) -> Seq<char> {
    match meta.search_keywords {
        Some(k) => join_spec(k, seq![',', ' ']),
        None => join_spec(Seq::empty(), seq![',', ' ']),
    }
}

/// The keys that carry the tokens of `tokens` for one post.
pub open spec fn keys_for(tokens: Set<Seq<char>>, inv_time: i64, id: PostId) -> Set<TokenKeyView> {
    Set::new(|k: TokenKeyView| k.inv_time == inv_time && k.id == id && tokens.contains(k.token))
}

/// The tag-index entries of a post: one for each tag it is found under.
pub open spec fn tag_entries(id: PostId, meta: MetadataView) -> Set<TokenKeyView> {
    keys_for(all_tags(tag_source(meta)), inverted(meta.created_at.secs), id)
}

/// The keyword-index entries of a post: one for each of its keywords.
pub open spec fn keyword_entries(id: PostId, meta: MetadataView) -> Set<TokenKeyView> {
    keys_for(index_tokens(keyword_source(meta)).to_set(), inverted(meta.created_at.secs), id)
}

/// The chronological-index entry of a post.
pub open spec fn chrono_entry(id: PostId, meta: MetadataView) -> ChronoKey {
    ChronoKey { inv_time: inverted(meta.created_at.secs), id }
}

impl KvState {
    /// The state with every index entry of the post added.
    pub open spec fn indexed(self, id: PostId, meta: MetadataView) -> KvState {
        KvState {
            tag_index: self.tag_index.union(tag_entries(id, meta)),
            keyword_index: self.keyword_index.union(keyword_entries(id, meta)),
            chrono_index: self.chrono_index.insert(chrono_entry(id, meta)),
            ..self
        }
    }

    /// The state with every index entry of the post removed.
    pub open spec fn unindexed(self, id: PostId, meta: MetadataView) -> KvState {
        KvState {
            tag_index: self.tag_index.difference(tag_entries(id, meta)),
            keyword_index: self.keyword_index.difference(keyword_entries(id, meta)),
            chrono_index: self.chrono_index.remove(chrono_entry(id, meta)),
            ..self
        }
    }

    /// The tag-index entries that belong to post `id`.
    pub open spec fn tag_entries_of(self, id: PostId) -> Set<TokenKeyView> {
        self.tag_index.filter(|k: TokenKeyView| k.id == id)
    }

    /// The keyword-index entries that belong to post `id`.
    pub open spec fn keyword_entries_of(self, id: PostId) -> Set<TokenKeyView> {
        self.keyword_index.filter(|k: TokenKeyView| k.id == id)
    }

    /// The chronological-index entries that belong to post `id`.
    pub open spec fn chrono_entries_of(self, id: PostId) -> Set<ChronoKey> {
        self.chrono_index.filter(|k: ChronoKey| k.id == id)
    }
}

/// Which index a run of entries goes to, and whether it is added or removed.
#[derive(Clone, Copy, PartialEq, Eq, Structural)]
enum Entries {
    AddTags,
    RemoveTags,
    AddKeywords,
    RemoveKeywords,
}

/// The state after the entries `keys` are added or removed as `kind` says.
spec fn with_entries(s: KvState, kind: Entries, keys: Set<TokenKeyView>) -> KvState {
    match kind {
        Entries::AddTags => KvState { tag_index: s.tag_index.union(keys), ..s },
        Entries::RemoveTags => KvState { tag_index: s.tag_index.difference(keys), ..s },
        Entries::AddKeywords => KvState { keyword_index: s.keyword_index.union(keys), ..s },
        Entries::RemoveKeywords => KvState { keyword_index: s.keyword_index.difference(keys), ..s },
    }
}

proof fn lemma_take_set(tokens: Seq<Seq<char>>, i: int)
    requires
        0 <= i < tokens.len(),
    ensures
        tokens.take(i + 1).to_set() == tokens.take(i).to_set().insert(tokens[i]),
{
    let more = tokens.take(i + 1);
    let less = tokens.take(i);
    let a = more.to_set();
    let b = less.to_set().insert(tokens[i]);
    assert forall|t: Seq<char>| a.contains(t) implies b.contains(t) by {
        let k = choose|k: int| 0 <= k < more.len() && more[k] == t;
        if k < i {
            assert(less[k] == t);
        }
    }
    assert forall|t: Seq<char>| b.contains(t) implies a.contains(t) by {
        if t == tokens[i] {
            assert(more[i] == t);
        } else {
            let k = choose|k: int| 0 <= k < less.len() && less[k] == t;
            assert(more[k] == t);
        }
    }
    assert(a =~= b);
}

/// Plans one write per token.
fn push_entries(out: &mut Vec<KvWrite>, tokens: &Vec<String>, inv_time: i64, id: PostId, kind: Entries)
    ensures
        forall|s: KvState| #[trigger]
            s.apply_all(batch(final(out)@)) == with_entries(
                s.apply_all(batch(old(out)@)),
                kind,
                keys_for(text_set(tokens@), inv_time, id),
            ),
{
    let ghost start = batch(out@);
    let ghost toks = texts(tokens@);
    let mut i: usize = 0;
    proof {
        assert(toks.take(0).to_set() =~= Set::<Seq<char>>::empty());
        assert(keys_for(toks.take(0).to_set(), inv_time, id) =~= Set::<TokenKeyView>::empty());
        assert forall|s: KvState| #[trigger]
            s.apply_all(batch(out@)) == with_entries(
                s.apply_all(start),
                kind,
                keys_for(toks.take(0).to_set(), inv_time, id),
            ) by {
            let base = s.apply_all(start);
            assert(with_entries(base, kind, Set::<TokenKeyView>::empty()) =~= base);
        }
    }
    while i < tokens.len()
        invariant
            i <= tokens.len(),
            toks == texts(tokens@),
            forall|s: KvState| #[trigger]
                s.apply_all(batch(out@)) == with_entries(
                    s.apply_all(start),
                    kind,
                    keys_for(toks.take(i as int).to_set(), inv_time, id),
                ),
        decreases tokens.len() - i,
    {
        let key = TokenKey { token: tokens[i].clone(), inv_time, id };
        let ghost before = batch(out@);
        let w = match kind {
            Entries::AddTags => KvWrite::AddTagEntry { key },
            Entries::RemoveTags => KvWrite::RemoveTagEntry { key },
            Entries::AddKeywords => KvWrite::AddKeywordEntry { key },
            Entries::RemoveKeywords => KvWrite::RemoveKeywordEntry { key },
        };
        push_write(out, w);
        proof {
            lemma_take_set(toks, i as int);
            let small = keys_for(toks.take(i as int).to_set(), inv_time, id);
            let large = keys_for(toks.take(i + 1).to_set(), inv_time, id);
            let k = TokenKeyView { token: toks[i as int], inv_time, id };
            assert(large =~= small.insert(k));
            assert forall|s: KvState| #[trigger]
                s.apply_all(batch(out@)) == with_entries(s.apply_all(start), kind, large) by {
                let base = s.apply_all(start);
                assert(s.apply_all(before) == with_entries(base, kind, small));
                assert(s.apply_all(batch(out@)) == s.apply_all(before).apply(w@));
                assert(with_entries(base, kind, small).apply(w@) =~= with_entries(
                    base,
                    kind,
                    large,
                ));
            }
        }
        i += 1;
    }
    proof {
        assert(toks.take(toks.len() as int) == toks);
    }
}

/// The tag text of `metadata`, from which its tag entries are computed.
fn tag_source_of(metadata: &PostMetadata) -> (out: String)
    ensures
        out@ == tag_source(metadata@),
{
    proof {
        reveal_strlit(", ");
        assert(", "@ =~= seq![',', ' ']);
    }
    join(&metadata.tags, ", ")
}

/// The keyword text of `metadata`, from which its keyword entries are computed.
fn keyword_source_of(metadata: &PostMetadata) -> (out: String)
    ensures
        out@ == keyword_source(metadata@),
{
    proof {
        reveal_strlit(", ");
        assert(", "@ =~= seq![',', ' ']);
    }
    match &metadata.search_keywords {
        Some(k) => join(k, ", "),
        None => {
            let none: Vec<String> = Vec::new();
            assert(texts(none@) =~= Seq::<Seq<char>>::empty());
            join(&none, ", ")
        },
    }
}

/// Plans the writes that add every index entry of a post to the caller's
/// transaction: one chronological entry, one tag entry for each tag the post
/// is found under, one keyword entry for each keyword.
pub fn add_to_indices(id: PostId, metadata: &PostMetadata, out: &mut Vec<KvWrite>)
    ensures
        forall|s: KvState| #[trigger]
            s.apply_all(batch(final(out)@)) == s.apply_all(batch(old(out)@)).indexed(
                id,
                metadata@,
            ),
{
    let ghost start = batch(out@);
    let inv_time = inverted_timestamp(&metadata.created_at);
    push_write(out, KvWrite::AddChronoEntry { entry: ChronoKey { inv_time, id } });
    let ghost first = batch(out@);
    let tags = generate_all_tags(tag_source_of(metadata).as_str());
    push_entries(out, &tags, inv_time, id, Entries::AddTags);
    let ghost second = batch(out@);
    let keywords = process_keywords(keyword_source_of(metadata).as_str());
    push_entries(out, &keywords, inv_time, id, Entries::AddKeywords);
    proof {
        assert forall|s: KvState| #[trigger]
            s.apply_all(batch(out@)) == s.apply_all(start).indexed(id, metadata@) by {
            let base = s.apply_all(start);
            assert(s.apply_all(first) == base.apply(
                crate::kv::KvWriteView::AddChronoEntry { entry: chrono_entry(id, metadata@) },
            ));
            assert(s.apply_all(second) == with_entries(
                s.apply_all(first),
                Entries::AddTags,
                tag_entries(id, metadata@),
            ));
            assert(s.apply_all(batch(out@)) == with_entries(
                s.apply_all(second),
                Entries::AddKeywords,
                keyword_entries(id, metadata@),
            ));
            assert(s.apply_all(batch(out@)) =~= base.indexed(id, metadata@));
        }
    }
}

/// Plans the writes that remove every index entry of a post, computed from
/// the metadata under which the entries were added.
pub fn remove_from_indices(id: PostId, metadata: &PostMetadata, out: &mut Vec<KvWrite>)
    ensures
        forall|s: KvState| #[trigger]
            s.apply_all(batch(final(out)@)) == s.apply_all(batch(old(out)@)).unindexed(
                id,
                metadata@,
            ),
{
    let ghost start = batch(out@);
    let inv_time = inverted_timestamp(&metadata.created_at);
    push_write(out, KvWrite::RemoveChronoEntry { entry: ChronoKey { inv_time, id } });
    let ghost first = batch(out@);
    let tags = generate_all_tags(tag_source_of(metadata).as_str());
    push_entries(out, &tags, inv_time, id, Entries::RemoveTags);
    let ghost second = batch(out@);
    let keywords = process_keywords(keyword_source_of(metadata).as_str());
    push_entries(out, &keywords, inv_time, id, Entries::RemoveKeywords);
    proof {
        assert forall|s: KvState| #[trigger]
            s.apply_all(batch(out@)) == s.apply_all(start).unindexed(id, metadata@) by {
            let base = s.apply_all(start);
            assert(s.apply_all(first) == base.apply(
                crate::kv::KvWriteView::RemoveChronoEntry { entry: chrono_entry(id, metadata@) },
            ));
            assert(s.apply_all(second) == with_entries(
                s.apply_all(first),
                Entries::RemoveTags,
                tag_entries(id, metadata@),
            ));
            assert(s.apply_all(batch(out@)) == with_entries(
                s.apply_all(second),
                Entries::RemoveKeywords,
                keyword_entries(id, metadata@),
            ));
            assert(s.apply_all(batch(out@)) =~= base.unindexed(id, metadata@));
        }
    }
}

} // verus!
