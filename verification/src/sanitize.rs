//! Cleaning what authors type before it is stored.
//!
//! Titles, summaries, tags and keywords lose all markup. Post content is
//! Markdown: what stands outside fenced code blocks has its HTML escaped,
//! and fenced code blocks are kept letter for letter.

use vstd::prelude::*;
use crate::jobs::{PostDraft, PostDraftView};
use crate::text::{chars_of, decimal, decimal_chars, string_of};

verus! {

/// The text that `ammonia` leaves of `text` when no tag is allowed.
pub uninterp spec fn html_stripped(text: Seq<char>) -> Seq<char>;

/// The text that `html_escape::decode_html_entities` makes of `text`.
pub uninterp spec fn entities_decoded(text: Seq<char>) -> Seq<char>;

/// What stands for one character in escaped text.
pub open spec fn escaped_char(c: char) -> Seq<char> {
    if c == '&' {
        seq!['&', 'a', 'm', 'p', ';']
    } else if c == '<' {
        seq!['&', 'l', 't', ';']
    } else if c == '>' {
        seq!['&', 'g', 't', ';']
    } else {
        seq![c]
    }
}

/// Text with `&`, `<` and `>` written as entities.
pub open spec fn escaped(text: Seq<char>) -> Seq<char>
    decreases text.len(),
{
    if text.len() == 0 {
        Seq::empty()
    } else {
        escaped(text.drop_last()) + escaped_char(text.last())
    }
}

/// Calls `ammonia::Builder::clean` on a builder whose set of allowed tags is
/// empty, and writes the cleaned document out. The contract names the
/// result.
#[verifier::external_body]
fn clean_html(input: &str) -> (out: String)
    ensures
        out@ == html_stripped(input@),
{
    ammonia::Builder::new().tags(std::collections::HashSet::new()).clean(input).to_string()
}

/// Calls `html_escape::decode_html_entities`, which replaces character
/// references that end in `;` by the characters they stand for. The
/// contract names the result.
#[verifier::external_body]
fn decode_entities(text: &str) -> (out: String)
    ensures
        out@ == entities_decoded(text@),
{
    html_escape::decode_html_entities(text).into_owned()
}

/// Calls `html_escape::encode_text`, which writes every `&` as `&amp;`,
/// every `<` as `&lt;` and every `>` as `&gt;` and leaves the rest.
#[verifier::external_body]
fn encode_text(text: &str) -> (out: String)
    ensures
        out@ == escaped(text@),
{
    html_escape::encode_text(text).into_owned()
}

/// Strips all markup from a text, leaving the plain text.
pub fn strip_all_html(input: &str) -> (out: String)
    ensures
        out@ == html_stripped(input@),
{
    clean_html(input)
}

/// Whether `pat` stands in `s` at position `i`.
pub open spec fn occurs_at(s: Seq<char>, pat: Seq<char>, i: int) -> bool {
    0 <= i && i + pat.len() <= s.len() && s.subrange(i, i + pat.len()) == pat
}

/// The first position at or after `from` at which `pat` stands in `s`.
pub open spec fn first_occurrence(s: Seq<char>, pat: Seq<char>, from: int) -> Option<int>
    decreases s.len() - from,
{
    if from < 0 || from + pat.len() > s.len() {
        None
    } else if occurs_at(s, pat, from) {
        Some(from)
    } else if from >= s.len() {
        None
    } else {
        first_occurrence(s, pat, from + 1)
    }
}

fn stands_at(s: &Vec<char>, pat: &Vec<char>, at: usize) -> (b: bool)
    requires
        at + pat.len() <= s.len(),
    ensures
        b == occurs_at(s@, pat@, at as int),
{
    let mut j: usize = 0;
    while j < pat.len()
        invariant
            j <= pat.len(),
            at + pat.len() <= s.len(),
            s@.subrange(at as int, at + j) == pat@.take(j as int),
        decreases pat.len() - j,
    {
        if s[at + j] != pat[j] {
            proof {
                let window = s@.subrange(at as int, at + pat.len());
                assert(window[j as int] == s@[at + j]);
            }
            return false;
        }
        proof {
            assert(s@.subrange(at as int, at + j + 1) == s@.subrange(at as int, at + j).push(
                s@[at + j],
            ));
            assert(pat@.take(j + 1) == pat@.take(j as int).push(pat@[j as int]));
        }
        j += 1;
    }
    proof {
        assert(pat@.take(pat@.len() as int) == pat@);
    }
    true
}

/// Finds the first position at or after `from` at which `pat` stands.
#[verifier::loop_isolation(false)]
pub fn find_from(s: &Vec<char>, pat: &Vec<char>, from: usize) -> (r: Option<usize>)
    ensures
        match r {
            Some(i) => first_occurrence(s@, pat@, from as int) == Some(i as int) && from <= i && i
                + pat.len() <= s.len() && occurs_at(s@, pat@, i as int),
            None => first_occurrence(s@, pat@, from as int) is None,
        },
{
    if pat.len() > s.len() || from > s.len() - pat.len() {
        return None;
    }
    let last: usize = s.len() - pat.len();
    let mut i: usize = from;
    while i < last
        invariant
            from <= i <= last,
            first_occurrence(s@, pat@, i as int) == first_occurrence(s@, pat@, from as int),
        decreases last - i,
    {
        if stands_at(s, pat, i) {
            return Some(i);
        }
        i += 1;
    }
    if stands_at(s, pat, last) {
        Some(last)
    } else {
        assert(first_occurrence(s@, pat@, last + 1) is None);
        None
    }
}

/// The mark of a fenced code block: three backticks.
pub open spec fn fence() -> Seq<char> {
    seq!['`', '`', '`']
}

/// The text that stands in for the `n`-th code block while the rest of the
/// content is escaped.
pub open spec fn placeholder(n: nat) -> Seq<char> {
    "__CODE_BLOCK_PLACEHOLDER_"@ + decimal(n) + "__"@
}

fn placeholder_chars(n: usize) -> (out: Vec<char>)
    ensures
        out@ == placeholder(n as nat),
{
    let mut out = chars_of("__CODE_BLOCK_PLACEHOLDER_");
    let mut digits = decimal_chars(n as u64);
    out.append(&mut digits);
    let mut tail = chars_of("__");
    out.append(&mut tail);
    out
}

/// The first fenced code block at or after `from`: it runs from a fence to
/// the end of the next fence behind it. A fence without a later fence opens
/// no block.
pub open spec fn first_block(s: Seq<char>, from: int) -> Option<(int, int)> {
    match first_occurrence(s, fence(), from) {
        Some(i) => match first_occurrence(s, fence(), i + 3) {
            Some(j) => Some((i, j + 3)),
            None => None,
        },
        None => None,
    }
}

/// The content from `from` on with each fenced code block replaced by its
/// placeholder, the blocks numbered from `n`.
pub open spec fn masked(s: Seq<char>, from: int, n: nat) -> Seq<char>
    decreases s.len() - from,
{
    match first_block(s, from) {
        Some((i, end)) => if from <= i && i < end && end <= s.len() {
            s.subrange(from, i) + placeholder(n) + masked(s, end, n + 1)
        } else {
            s.subrange(from, s.len() as int)
        },
        None => s.subrange(from, s.len() as int),
    }
}

/// The fenced code blocks from `from` on, in their order.
pub open spec fn blocks_from(s: Seq<char>, from: int) -> Seq<Seq<char>>
    decreases s.len() - from,
{
    match first_block(s, from) {
        Some((i, end)) => if from <= i && i < end && end <= s.len() {
            seq![s.subrange(i, end)] + blocks_from(s, end)
        } else {
            Seq::empty()
        },
        None => Seq::empty(),
    }
}

/// The views of a list of character vectors.
pub open spec fn pieces(v: Seq<Vec<char>>) -> Seq<Seq<char>> {
    Seq::new(v.len(), |i: int| v[i]@)
}

fn push_range(out: &mut Vec<char>, s: &Vec<char>, lo: usize, hi: usize)
    requires
        lo <= hi <= s.len(),
    ensures
        final(out)@ == old(out)@ + s@.subrange(lo as int, hi as int),
{
    let ghost start = out@;
    let mut i: usize = lo;
    while i < hi
        invariant
            lo <= i <= hi <= s.len(),
            out@ == start + s@.subrange(lo as int, i as int),
        decreases hi - i,
    {
        out.push(s[i]);
        assert(out@ =~= start + s@.subrange(lo as int, i + 1));
        i += 1;
    }
    assert(out@ =~= start + s@.subrange(lo as int, hi as int));
}

/// Takes the fenced code blocks out of the content and leaves a numbered
/// placeholder for each.
pub fn mask_code_blocks(s: &Vec<char>) -> (r: (Vec<char>, Vec<Vec<char>>))
    ensures
        r.0@ == masked(s@, 0, 0),
        pieces(r.1@) == blocks_from(s@, 0),
{
    let mut out: Vec<char> = Vec::new();
    let mut blocks: Vec<Vec<char>> = Vec::new();
    let mut pos: usize = 0;
    let mut mark: Vec<char> = Vec::new();
    mark.push('`');
    mark.push('`');
    mark.push('`');
    assert(mark@ =~= fence());
    assert(out@ + masked(s@, 0, 0) =~= masked(s@, 0, 0));
    assert(pieces(blocks@) + blocks_from(s@, 0) =~= blocks_from(s@, 0));
    loop
        invariant
            pos <= s.len(),
            mark@ == fence(),
            out@ + masked(s@, pos as int, blocks@.len()) == masked(s@, 0, 0),
            pieces(blocks@) + blocks_from(s@, pos as int) == blocks_from(s@, 0),
        ensures
            pos <= s.len(),
            first_block(s@, pos as int) is None,
            out@ + masked(s@, pos as int, blocks@.len()) == masked(s@, 0, 0),
            pieces(blocks@) + blocks_from(s@, pos as int) == blocks_from(s@, 0),
        decreases s.len() - pos,
    {
        let open = match find_from(s, &mark, pos) {
            Some(i) => i,
            None => {
                break ;
            },
        };
        let close = match find_from(s, &mark, open + 3) {
            Some(j) => j,
            None => {
                break ;
            },
        };
        let end: usize = close + 3;
        let ghost n = blocks@.len();
        let ghost before = out@;
        let ghost before_blocks = pieces(blocks@);
        assert(first_block(s@, pos as int) == Some((open as int, end as int)));
        push_range(&mut out, s, pos, open);
        let mut stand_in = placeholder_chars(blocks.len());
        out.append(&mut stand_in);
        let mut block: Vec<char> = Vec::new();
        push_range(&mut block, s, open, end);
        assert(block@ =~= s@.subrange(open as int, end as int));
        blocks.push(block);
        proof {
            let rest = masked(s@, end as int, n + 1);
            assert(out@ + rest =~= before + (s@.subrange(pos as int, open as int) + placeholder(n)
                + rest));
            let more = blocks_from(s@, end as int);
            assert(pieces(blocks@) =~= before_blocks.push(s@.subrange(open as int, end as int)));
            assert(pieces(blocks@) + more =~= before_blocks + (seq![
                s@.subrange(open as int, end as int),
            ] + more));
        }
        pos = end;
    }
    let ghost before = out@;
    push_range(&mut out, s, pos, s.len());
    proof {
        assert(masked(s@, pos as int, blocks@.len()) == s@.subrange(pos as int, s@.len() as int));
        assert(blocks_from(s@, pos as int) =~= Seq::<Seq<char>>::empty());
        assert(pieces(blocks@) + Seq::<Seq<char>>::empty() =~= pieces(blocks@));
    }
    (out, blocks)
}

/// `text` with the first occurrence of `pat` replaced by `with`; unchanged
/// where `pat` does not occur.
pub open spec fn replace_first(text: Seq<char>, pat: Seq<char>, with: Seq<char>) -> Seq<char> {
    match first_occurrence(text, pat, 0) {
        Some(i) => text.subrange(0, i) + with + text.subrange(i + pat.len(), text.len() as int),
        None => text,
    }
}

/// Replaces the first occurrence of `pat` in `text` by `with`.
pub fn replace_first_in(text: Vec<char>, pat: &Vec<char>, with: &Vec<char>) -> (out: Vec<char>)
    ensures
        out@ == replace_first(text@, pat@, with@),
{
    match find_from(&text, pat, 0) {
        Some(i) => {
            let mut out: Vec<char> = Vec::new();
            push_range(&mut out, &text, 0, i);
            push_range(&mut out, with, 0, with.len());
            assert(with@.subrange(0, with@.len() as int) =~= with@);
            push_range(&mut out, &text, i + pat.len(), text.len());
            out
        },
        None => text,
    }
}

/// `text` after the first `k` code blocks are put back, each in place of
/// the first occurrence of its placeholder.
pub open spec fn restored(text: Seq<char>, blocks: Seq<Seq<char>>, k: nat) -> Seq<char>
    decreases k,
{
    if k == 0 {
        text
    } else {
        replace_first(
            restored(text, blocks, (k - 1) as nat),
            placeholder((k - 1) as nat),
            blocks[k - 1],
        )
    }
}

/// Markdown content made safe to store: the fenced code blocks are kept as
/// they are; in the rest, character references are decoded and then `&`,
/// `<` and `>` are written as entities, so that nothing is escaped twice.
pub open spec fn sanitized_markdown(s: Seq<char>) -> Seq<char> {
    let blocks = blocks_from(s, 0);
    restored(escaped(entities_decoded(masked(s, 0, 0))), blocks, blocks.len())
}

/// Makes Markdown content safe to store.
pub fn sanitize_markdown_content(markdown_input: &str) -> (out: String)
    ensures
        out@ == sanitized_markdown(markdown_input@),
{
    let chars = chars_of(markdown_input);
    let (with_placeholders, blocks) = mask_code_blocks(&chars);
    let decoded = decode_entities(string_of(&with_placeholders).as_str());
    let escaped_text = encode_text(decoded.as_str());
    let mut text = chars_of(escaped_text.as_str());
    let ghost start = text@;
    let mut k: usize = 0;
    while k < blocks.len()
        invariant
            k <= blocks.len(),
            text@ == restored(start, pieces(blocks@), k as nat),
        decreases blocks.len() - k,
    {
        let stand_in = placeholder_chars(k);
        text = replace_first_in(text, &stand_in, &blocks[k]);
        k += 1;
    }
    string_of(&text)
}

impl PostDraftView {
    /// The draft as it is stored: markup stripped from every short field,
    /// and the content made safe.
    pub open spec fn sanitized(self) -> PostDraftView {
        PostDraftView {
            title: html_stripped(self.title),
            summary: html_stripped(self.summary),
            content: sanitized_markdown(self.content),
            tags: html_stripped(self.tags),
            search_keywords: html_stripped(self.search_keywords),
            cover_image: match self.cover_image {
                Some(c) => Some(html_stripped(c)),
                None => None,
            },
            has_call_to_action: self.has_call_to_action,
        }
    }
}

impl PostDraft {
    /// Cleans every field of the draft before it is stored.
    pub fn sanitize(self) -> (out: PostDraft)
        ensures
            out@ == self@.sanitized(),
    {
        let cover_image = match &self.cover_image {
            Some(c) => Some(strip_all_html(c.as_str())),
            None => None,
        };
        PostDraft {
            title: strip_all_html(self.title.as_str()),
            summary: strip_all_html(self.summary.as_str()),
            content: sanitize_markdown_content(self.content.as_str()),
            tags: strip_all_html(self.tags.as_str()),
            search_keywords: strip_all_html(self.search_keywords.as_str()),
            cover_image,
            has_call_to_action: self.has_call_to_action,
        }
    }
}

} // verus!
