//! Tags and keywords: from comma-separated free text to canonical tokens,
//! and from path-style tags to every tag under which a post is found.

use vstd::prelude::*;
use crate::text::{
    chars_of, is_space, join_spec, lemma_split_append, lemma_split_plain, lowercase, split_chars,
    split_spec, split_trimmed, string_of, texts, to_lower, trim_chars, trim_spec, trimmed_pieces,
};

verus! {

/// One piece of comma-separated input, trimmed and, for indexing, lower-cased.
pub open spec fn clean_piece(piece: Seq<char>, fold_case: bool) -> Seq<char> {
    if fold_case {
        lowercase(trim_spec(piece))
    } else {
        trim_spec(piece)
    }
}

/// The cleaned pieces that are not empty, in their order.
pub open spec fn clean_pieces(pieces: Seq<Seq<char>>, fold_case: bool) -> Seq<Seq<char>>
    decreases pieces.len(),
{
    if pieces.len() == 0 {
        Seq::empty()
    } else {
        let before = clean_pieces(pieces.drop_last(), fold_case);
        let token = clean_piece(pieces.last(), fold_case);
        if token.len() > 0 {
            before.push(token)
        } else {
            before
        }
    }
}

/// The tokens of `raw` as the author wrote them: split on commas, trimmed,
/// empty ones dropped.
pub open spec fn display_tokens(raw: Seq<char>) -> Seq<Seq<char>> {
    clean_pieces(split_spec(raw, ','), false)
}

/// The tokens of `raw` as the indices hold them: split on commas, trimmed,
/// lower-cased, empty ones dropped.
pub open spec fn index_tokens(raw: Seq<char>) -> Seq<Seq<char>> {
    clean_pieces(split_spec(raw, ','), true)
}

/// The segments of a tag between slashes, each trimmed.
pub open spec fn segments(tag: Seq<char>) -> Seq<Seq<char>> {
    trimmed_pieces(tag, '/')
}

/// The first `n` segments written as a path.
pub open spec fn prefix_path(segs: Seq<Seq<char>>, n: int) -> Seq<char> {
    join_spec(segs.take(n), seq!['/'])
}

/// Whether a post tagged `tag` is found under `t`: `t` is the tag itself, one
/// of its segments, or one of its prefix paths.
pub open spec fn expands_to(tag: Seq<char>, t: Seq<char>) -> bool {
    t == tag || exists|i: int|
        0 <= i < segments(tag).len() && (t == #[trigger] segments(tag)[i] || t == prefix_path(
            segments(tag),
            i + 1,
        ))
}

/// Every tag under which a post with the tag text `raw` is found.
pub open spec fn all_tags(raw: Seq<char>) -> Set<Seq<char>> {
    Set::new(
        |t: Seq<char>|
            exists|k: int|
                0 <= k < index_tokens(raw).len() && expands_to(#[trigger] index_tokens(raw)[k], t),
    )
}

/// The texts of a list of strings, as a set.
pub open spec fn text_set(v: Seq<String>) -> Set<Seq<char>> {
    texts(v).to_set()
}

fn tokens(raw: &str, fold_case: bool) -> (out: Vec<String>)
    ensures
        texts(out@) == clean_pieces(split_spec(raw@, ','), fold_case),
{
    let chars = chars_of(raw);
    let pieces = split_chars(&chars, ',');
    let ghost all = split_spec(raw@, ',');
    let mut out: Vec<String> = Vec::new();
    let mut i: usize = 0;
    assert(texts(out@) =~= clean_pieces(all.take(0), fold_case));
    while i < pieces.len()
        invariant
            i <= pieces.len(),
            pieces@.len() == all.len(),
            forall|k: int| 0 <= k < pieces@.len() ==> (#[trigger] pieces@[k])@ == all[k],
            texts(out@) == clean_pieces(all.take(i as int), fold_case),
        decreases pieces.len() - i,
    {
        let trimmed = trim_chars(&pieces[i]);
        let text = string_of(&trimmed);
        let token = if fold_case {
            to_lower(text.as_str())
        } else {
            text
        };
        proof {
            let next = all.take(i + 1);
            assert(next.drop_last() == all.take(i as int));
            assert(next.last() == pieces@[i as int]@);
            assert(token@ == clean_piece(next.last(), fold_case));
        }
        if !token.as_str().is_empty() {
            let ghost before = texts(out@);
            out.push(token);
            assert(texts(out@) =~= before.push(token@));
        }
        i += 1;
    }
    assert(all.take(all.len() as int) == all);
    out
}

/// The tags of `raw` for display: split on commas, trimmed, original case
/// kept, empty ones dropped.
pub fn display_tags(raw: &str) -> (out: Vec<String>)
    ensures
        texts(out@) == display_tokens(raw@),
{
    tokens(raw, false)
}

/// The tags of `raw` for indexing: split on commas, trimmed, lower-cased,
/// empty ones dropped.
pub fn normalize_tags(raw: &str) -> (out: Vec<String>)
    ensures
        texts(out@) == index_tokens(raw@),
{
    tokens(raw, true)
}

/// The search keywords of `raw`: split on commas, trimmed, lower-cased, empty
/// ones dropped. Keywords have no hierarchy.
pub fn process_keywords(keywords_str: &str) -> (out: Vec<String>)
    ensures
        texts(out@) == index_tokens(keywords_str@),
{
    tokens(keywords_str, true)
}

/// Whether `list` holds a string with the text of `s`.
fn holds(list: &Vec<String>, s: &String) -> (b: bool)
    ensures
        b == text_set(list@).contains(s@),
{
    let mut i: usize = 0;
    while i < list.len()
        invariant
            i <= list.len(),
            forall|k: int| 0 <= k < i ==> texts(list@)[k] != s@,
        decreases list.len() - i,
    {
        if list[i] == *s {
            assert(texts(list@)[i as int] == s@);
            return true;
        }
        i += 1;
    }
    false
}

/// Adds `s` to `list` unless a string with the same text is there already.
fn insert_unique(list: &mut Vec<String>, s: String)
    requires
        texts(old(list)@).no_duplicates(),
    ensures
        texts(final(list)@).no_duplicates(),
        text_set(final(list)@) == text_set(old(list)@).insert(s@),
{
    if !holds(list, &s) {
        let ghost before = texts(list@);
        list.push(s);
        assert(texts(list@) =~= before.push(s@));
        assert(before.push(s@).to_set() =~= before.to_set().insert(s@)) by {
            assert forall|t: Seq<char>| before.push(s@).to_set().contains(t) implies before.to_set().insert(
                s@,
            ).contains(t) by {
                let k = choose|k: int| 0 <= k < before.len() + 1 && before.push(s@)[k] == t;
                if k < before.len() {
                    assert(before[k] == t);
                }
            }
            assert forall|t: Seq<char>| before.to_set().insert(s@).contains(t) implies before.push(
                s@,
            ).to_set().contains(t) by {
                if t == s@ {
                    assert(before.push(s@)[before.len() as int] == t);
                } else {
                    let k = choose|k: int| 0 <= k < before.len() && before[k] == t;
                    assert(before.push(s@)[k] == t);
                }
            }
        }
    } else {
        assert(text_set(list@).insert(s@) =~= text_set(list@));
    }
}

/// The segments of `tag`, each trimmed.
fn segments_of(tag: &str) -> (out: Vec<String>)
    ensures
        texts(out@) == segments(tag@),
{
    split_trimmed(tag, '/')
}

/// What the expansion of `tag` adds once its first `n` segments are handled.
pub open spec fn expands_within(tag: Seq<char>, n: int, t: Seq<char>) -> bool {
    t == tag || exists|i: int|
        0 <= i < n && (t == #[trigger] segments(tag)[i] || t == prefix_path(segments(tag), i + 1))
}

/// What the first `n` tokens of `raw` expand to.
pub open spec fn tags_within(raw: Seq<char>, n: int) -> Set<Seq<char>> {
    Set::new(
        |t: Seq<char>|
            exists|k: int| 0 <= k < n && expands_to(#[trigger] index_tokens(raw)[k], t),
    )
}

/// Every tag under which a post with the tag text `tags_str` is found, each
/// once: the normalized tags themselves and, for a path-style tag, each of
/// its segments and each of its prefix paths.
pub fn generate_all_tags(tags_str: &str) -> (out: Vec<String>)
    ensures
        texts(out@).no_duplicates(),
        text_set(out@) == all_tags(tags_str@),
{
    let initial = normalize_tags(tags_str);
    let ghost toks = index_tokens(tags_str@);
    let mut out: Vec<String> = Vec::new();
    let mut k: usize = 0;
    assert(text_set(out@) =~= tags_within(tags_str@, 0));
    while k < initial.len()
        invariant
            k <= initial.len(),
            texts(initial@) == toks,
            toks == index_tokens(tags_str@),
            texts(out@).no_duplicates(),
            text_set(out@) == tags_within(tags_str@, k as int),
        decreases initial.len() - k,
    {
        let tag = &initial[k];
        let ghost base = text_set(out@);
        assert(tag@ == toks[k as int]);
        insert_unique(&mut out, tag.clone());
        let parts = segments_of(tag.as_str());
        let mut path = String::new();
        let mut i: usize = 0;
        assert(text_set(out@) =~= base.union(Set::new(|t: Seq<char>| expands_within(tag@, 0, t))));
        while i < parts.len()
            invariant
                i <= parts.len(),
                texts(parts@) == segments(tag@),
                texts(out@).no_duplicates(),
                path@ == prefix_path(segments(tag@), i as int),
                text_set(out@) == base.union(
                    Set::new(|t: Seq<char>| expands_within(tag@, i as int, t)),
                ),
            decreases parts.len() - i,
        {
            let ghost segs = segments(tag@);
            let ghost before = text_set(out@);
            assert(parts@[i as int]@ == segs[i as int]);
            insert_unique(&mut out, parts[i].clone());
            if i > 0 {
                path.append("/");
            }
            path.append(parts[i].as_str());
            proof {
                reveal_strlit("/");
                assert("/"@ =~= seq!['/']);
                let next = segs.take(i + 1);
                assert(next.drop_last() == segs.take(i as int));
                assert(next.last() == segs[i as int]);
                if i == 0 {
                    assert(next[0] == segs[0]);
                    assert(Seq::<char>::empty() + segs[0] == segs[0]);
                    assert(segs.take(0).len() == 0);
                }
                assert(path@ == prefix_path(segs, i + 1));
            }
            insert_unique(&mut out, path.clone());
            proof {
                let after = text_set(out@);
                let goal = base.union(Set::new(|t: Seq<char>| expands_within(tag@, i + 1, t)));
                assert forall|t: Seq<char>| after.contains(t) implies goal.contains(t) by {
                    if t == segs[i as int] || t == prefix_path(segs, i + 1) {
                        assert(expands_within(tag@, i + 1, t));
                    } else {
                        assert(before.contains(t));
                        if !base.contains(t) {
                            assert(expands_within(tag@, i as int, t));
                            assert(expands_within(tag@, i + 1, t));
                        }
                    }
                }
                assert forall|t: Seq<char>| goal.contains(t) implies after.contains(t) by {
                    if !base.contains(t) {
                        assert(expands_within(tag@, i + 1, t));
                        if t != tag@ {
                            let j = choose|j: int|
                                0 <= j < i + 1 && (t == #[trigger] segs[j] || t == prefix_path(
                                    segs,
                                    j + 1,
                                ));
                            if j < i {
                                assert(expands_within(tag@, i as int, t));
                            }
                        } else {
                            assert(expands_within(tag@, i as int, t));
                        }
                    }
                }
                assert(after =~= goal);
            }
            i += 1;
        }
        proof {
            let after = text_set(out@);
            let goal = tags_within(tags_str@, k + 1);
            assert forall|t: Seq<char>| after.contains(t) implies goal.contains(t) by {
                if base.contains(t) {
                    let j = choose|j: int| 0 <= j < k && expands_to(#[trigger] toks[j], t);
                    assert(expands_to(toks[j], t));
                } else {
                    assert(expands_within(tag@, parts@.len() as int, t));
                    assert(expands_to(toks[k as int], t));
                }
            }
            assert forall|t: Seq<char>| goal.contains(t) implies after.contains(t) by {
                let j = choose|j: int| 0 <= j < k + 1 && expands_to(#[trigger] toks[j], t);
                if j < k {
                    assert(tags_within(tags_str@, k as int).contains(t));
                } else {
                    assert(expands_within(tag@, parts@.len() as int, t));
                }
            }
            assert(after =~= goal);
        }
        k += 1;
    }
    assert(tags_within(tags_str@, toks.len() as int) =~= all_tags(tags_str@));
    out
}

/// A text that is already trimmed and lower-case, and holds no comma, is its
/// own single token.
pub proof fn lemma_single_token(tag: Seq<char>)
    requires
        tag.len() > 0,
        !tag.contains(','),
        trim_spec(tag) == tag,
        lowercase(tag) == tag,
    ensures
        index_tokens(tag) == seq![tag],
{
    lemma_split_plain(tag, ',');
    let pieces = seq![tag];
    assert(pieces.drop_last() == Seq::<Seq<char>>::empty());
    assert(clean_pieces(pieces.drop_last(), true) == Seq::<Seq<char>>::empty());
    assert(pieces.last() == tag);
    assert(Seq::<Seq<char>>::empty().push(tag) =~= seq![tag]);
}

/// A post tagged with the path `a/b` is found under `a`, under `b` and under
/// `a/b`, and under nothing else; in particular not under `a/c` for another
/// segment `c`.
///
/// `a` and `b` are segments as the index holds them: not empty, trimmed,
/// without slash or comma, and `a/b` is its own lower-case form.
pub proof fn lemma_path_tag_found_under(a: Seq<char>, b: Seq<char>)
    requires
        a.len() > 0,
        b.len() > 0,
        !a.contains('/'),
        !b.contains('/'),
        !a.contains(','),
        !b.contains(','),
        !is_space(a.first()),
        !is_space(a.last()),
        !is_space(b.first()),
        !is_space(b.last()),
        lowercase(a + seq!['/'] + b) == a + seq!['/'] + b,
    ensures
        all_tags(a + seq!['/'] + b) == set![a, b, a + seq!['/'] + b],
        forall|c: Seq<char>| c != b ==> !all_tags(a + seq!['/'] + b).contains(a + seq!['/'] + c),
{
    let tag = a + seq!['/'] + b;
    assert(tag.first() == a.first());
    assert(tag.last() == b.last());
    assert(!tag.contains(',')) by {
        if tag.contains(',') {
            let i = choose|i: int| 0 <= i < tag.len() && tag[i] == ',';
            if i < a.len() {
                assert(a[i] == ',');
            } else if i > a.len() {
                assert(b[i - a.len() - 1] == ',');
            }
        }
    }
    lemma_single_token(tag);
    lemma_split_plain(a, '/');
    lemma_split_append(a, b, '/');
    let pieces = split_spec(tag, '/');
    assert(pieces == seq![a].push(b));
    let segs = segments(tag);
    assert(segs =~= seq![a, b]);
    assert(segs.take(1) =~= seq![a]);
    assert(segs.take(2) =~= segs);
    assert(prefix_path(segs, 1) == a);
    assert(prefix_path(segs, 2) == tag) by {
        assert(segs.drop_last() =~= seq![a]);
        assert(segs.last() == b);
    }
    let found = all_tags(tag);
    let want = set![a, b, tag];
    assert forall|t: Seq<char>| found.contains(t) implies want.contains(t) by {
        let k = choose|k: int|
            0 <= k < index_tokens(tag).len() && expands_to(#[trigger] index_tokens(tag)[k], t);
        assert(index_tokens(tag)[k] == tag);
        if t != tag {
            let i = choose|i: int|
                0 <= i < segs.len() && (t == #[trigger] segs[i] || t == prefix_path(segs, i + 1));
            assert(i == 0 || i == 1);
        }
    }
    assert forall|t: Seq<char>| want.contains(t) implies found.contains(t) by {
        assert(index_tokens(tag)[0] == tag);
        if t == a {
            assert(segs[0] == a);
            assert(expands_to(tag, t));
        } else if t == b {
            assert(segs[1] == b);
            assert(expands_to(tag, t));
        } else {
            assert(expands_to(tag, t));
        }
    }
    assert(found =~= want);
    assert forall|c: Seq<char>| c != b implies !found.contains(a + seq!['/'] + c) by {
        let other = a + seq!['/'] + c;
        assert(other[a.len() as int] == '/');
        assert(other != a);
        if other == b {
            assert(b[a.len() as int] == '/');
        }
        if other == tag {
            assert(other.subrange(a.len() as int + 1, other.len() as int) =~= c);
            assert(tag.subrange(a.len() as int + 1, tag.len() as int) =~= b);
        }
    }
}

} // verus!
