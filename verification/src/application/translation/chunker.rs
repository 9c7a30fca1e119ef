use vstd::prelude::*;

use vstd::seq_lib::lemma_flatten_concat;
use vstd::string::StringSliceAdditionalSpecFns;
use vstd::utf8::{encode_scalar, encode_utf8};

use crate::segmentation::{grapheme_clusters, grapheme_count, graphemes};
use crate::text::{chars_of, is_white_space, is_white_space_spec, push_str, string_of};

verus! {

broadcast use vstd::seq::Seq::group_seq_flatten;

/// One contiguous, source-ordered text range.
#[derive(Clone, Debug, PartialEq, Eq)]
pub struct TextChunk {
    index: usize,
    source: String,
    source_start: usize,
    source_end: usize,
    paragraph_id: usize,
}

impl TextChunk {
    pub closed spec fn index_spec(&self) -> usize {
        self.index
    }

    pub closed spec fn source_spec(&self) -> Seq<char> {
        self.source@
    }

    /// Byte offset of the chunk's first character in the planned source.
    pub closed spec fn source_start_spec(&self) -> usize {
        self.source_start
    }

    /// Byte offset just past the chunk's last character in the planned source.
    pub closed spec fn source_end_spec(&self) -> usize {
        self.source_end
    }

    pub closed spec fn paragraph_id_spec(&self) -> usize {
        self.paragraph_id
    }

    pub fn index(&self) -> (index: usize)
        ensures
            index == self.index_spec(),
    {
        self.index
    }

    pub fn source(&self) -> (source: &str)
        ensures
            source@ == self.source_spec(),
    {
        self.source.as_str()
    }

    /// The byte range of the chunk in the planned source.
    pub fn source_range(&self) -> (range: std::ops::Range<usize>)
        ensures
            range.start == self.source_start_spec(),
            range.end == self.source_end_spec(),
    {
        self.source_start..self.source_end
    }

    pub fn paragraph_id(&self) -> (paragraph_id: usize)
        ensures
            paragraph_id == self.paragraph_id_spec(),
    {
        self.paragraph_id
    }
}

/// The texts of a sequence of chunks.
pub open spec fn chunk_sources(chunks: Seq<TextChunk>) -> Seq<Seq<char>> {
    chunks.map_values(|chunk: TextChunk| chunk.source_spec())
}

/// The character position where chunk `i` starts: the total length of the chunks before it.
pub open spec fn char_start(chunks: Seq<TextChunk>, i: int) -> int {
    chunk_sources(chunks.take(i)).flatten().len() as int
}

/// The character position just past chunk `i`.
pub open spec fn char_end(chunks: Seq<TextChunk>, i: int) -> int {
    char_start(chunks, i) + chunks[i].source_spec().len()
}

/// Non-overlapping occurrences of an empty line (`"\n\n"`), counted left to right.
pub open spec fn newline_pair_count(text: Seq<char>) -> nat
    decreases text.len(),
{
    if text.len() < 2 {
        0
    } else if text[0] == '\n' && text[1] == '\n' {
        1 + newline_pair_count(text.skip(2))
    } else {
        newline_pair_count(text.skip(1))
    }
}

/// The UTF-8 byte offset of character position `k` of `text`.
pub open spec fn utf8_offset(text: Seq<char>, k: int) -> nat {
    encode_utf8(text.take(k)).len()
}

/// Chunk `i` is numbered `i`, is not empty, and carries the byte range and paragraph
/// number of the place where it starts in `source`.
pub open spec fn chunk_fits_source(chunks: Seq<TextChunk>, source: Seq<char>, i: int) -> bool {
    let start = char_start(chunks, i);
    let chunk = chunks[i];
    &&& chunk.index_spec() == i
    &&& chunk.source_spec().len() > 0
    &&& chunk.source_start_spec() == utf8_offset(source, start)
    &&& chunk.source_end_spec() == utf8_offset(source, start + chunk.source_spec().len())
    &&& chunk.paragraph_id_spec() == newline_pair_count(source.take(start))
}

/// The chunks, read in order, spell out exactly the first `covered` characters of `source`.
pub open spec fn covers_prefix(chunks: Seq<TextChunk>, source: Seq<char>, covered: int) -> bool {
    &&& chunk_sources(chunks).flatten() == source.take(covered)
    &&& forall|i: int| 0 <= i < chunks.len() ==> #[trigger] chunk_fits_source(chunks, source, i)
}

proof fn lemma_encode_utf8_concat(a: Seq<char>, b: Seq<char>)
    ensures
        encode_utf8(a + b) == encode_utf8(a) + encode_utf8(b),
    decreases a.len(),
{
    if a.len() == 0 {
        assert(a + b =~= b);
        assert(encode_utf8(a) =~= Seq::<u8>::empty());
        assert(encode_utf8(a) + encode_utf8(b) =~= encode_utf8(b));
    } else {
        assert((a + b).drop_first() =~= a.drop_first() + b);
        lemma_encode_utf8_concat(a.drop_first(), b);
        assert(encode_utf8(a + b) =~= encode_scalar(a[0] as u32) + encode_utf8(a.drop_first() + b));
        assert(encode_utf8(a) + encode_utf8(b) =~= encode_scalar(a[0] as u32) + (encode_utf8(
            a.drop_first(),
        ) + encode_utf8(b)));
    }
}

proof fn lemma_utf8_offset_step(text: Seq<char>, k: int)
    requires
        0 <= k < text.len(),
    ensures
        utf8_offset(text, k + 1) == utf8_offset(text, k) + encode_scalar(text[k] as u32).len(),
{
    assert(text.take(k + 1) =~= text.take(k) + seq![text[k]]);
    lemma_encode_utf8_concat(text.take(k), seq![text[k]]);
    let one = seq![text[k]];
    assert(one.drop_first() =~= Seq::<char>::empty());
    assert(encode_utf8(one) == encode_scalar(one[0] as u32) + encode_utf8(one.drop_first()));
    assert(encode_utf8(Seq::<char>::empty()) == Seq::<u8>::empty());
    assert(encode_utf8(one) =~= encode_scalar(text[k] as u32));
}

proof fn lemma_utf8_offset_bounded(text: Seq<char>, k: int)
    requires
        0 <= k <= text.len(),
    ensures
        utf8_offset(text, k) <= encode_utf8(text).len(),
{
    assert(text =~= text.take(k) + text.skip(k));
    lemma_encode_utf8_concat(text.take(k), text.skip(k));
}

fn utf8_width(c: char) -> (width: usize)
    ensures
        width == encode_scalar(c as u32).len(),
{
    let v = c as u32;
    if v <= 0x7f {
        1
    } else if v <= 0x7ff {
        2
    } else if v <= 0xffff {
        3
    } else {
        4
    }
}

/// The UTF-8 byte offset of character position `k`.
fn utf8_offset_exec(text: &[char], k: usize) -> (offset: usize)
    requires
        k <= text@.len(),
        encode_utf8(text@).len() <= usize::MAX,
    ensures
        offset == utf8_offset(text@, k as int),
{
    let mut offset: usize = 0;
    let mut i: usize = 0;
    assert(text@.take(0) =~= Seq::<char>::empty());
    while i < k
        invariant
            i <= k <= text@.len(),
            encode_utf8(text@).len() <= usize::MAX,
            offset == utf8_offset(text@, i as int),
        decreases k - i,
    {
        proof {
            lemma_utf8_offset_step(text@, i as int);
            lemma_utf8_offset_bounded(text@, i + 1);
        }
        offset = offset + utf8_width(text[i]);
        i = i + 1;
    }
    offset
}

/// The number of empty lines that start before character position `k`.
fn newline_pairs_before(text: &[char], k: usize) -> (count: usize)
    requires
        k <= text@.len(),
    ensures
        count == newline_pair_count(text@.take(k as int)),
{
    let ghost prefix = text@.take(k as int);
    let mut count: usize = 0;
    let mut i: usize = 0;
    assert(prefix.skip(0) =~= prefix);
    while i < k && k - i >= 2
        invariant
            i <= k <= text@.len(),
            prefix == text@.take(k as int),
            count <= i,
            newline_pair_count(prefix) == count + newline_pair_count(prefix.skip(i as int)),
        decreases k - i,
    {
        if text[i] == '\n' && text[i + 1] == '\n' {
            assert(prefix.skip(i as int).skip(2) =~= prefix.skip(i + 2));
            count = count + 1;
            i = i + 2;
        } else {
            assert(prefix.skip(i as int).skip(1) =~= prefix.skip(i + 1));
            i = i + 1;
        }
    }
    count
}

/// The characters `text[from..to]`.
fn chars_between(text: &[char], from: usize, to: usize) -> (chars: Vec<char>)
    requires
        from <= to <= text@.len(),
    ensures
        chars@ == text@.subrange(from as int, to as int),
{
    let mut chars: Vec<char> = Vec::new();
    let mut i: usize = from;
    while i < to
        invariant
            from <= i <= to <= text@.len(),
            chars@ == text@.subrange(from as int, i as int),
        decreases to - i,
    {
        chars.push(text[i]);
        i = i + 1;
        assert(chars@ =~= text@.subrange(from as int, i as int));
    }
    chars
}

proof fn lemma_covers_push(
    chunks: Seq<TextChunk>,
    source: Seq<char>,
    from: int,
    to: int,
    chunk: TextChunk,
)
    requires
        covers_prefix(chunks, source, from),
        0 <= from < to <= source.len(),
        chunk.source_spec() == source.subrange(from, to),
        chunk.index_spec() == chunks.len(),
        chunk.source_start_spec() == utf8_offset(source, from),
        chunk.source_end_spec() == utf8_offset(source, to),
        chunk.paragraph_id_spec() == newline_pair_count(source.take(from)),
    ensures
        covers_prefix(chunks.push(chunk), source, to),
{
    let pushed = chunks.push(chunk);
    assert(chunk_sources(pushed) =~= chunk_sources(chunks).push(chunk.source_spec()));
    assert(chunk_sources(pushed).flatten() =~= source.take(to));
    assert forall|i: int| 0 <= i < pushed.len() implies #[trigger] chunk_fits_source(
        pushed,
        source,
        i,
    ) by {
        if i < chunks.len() {
            assert(pushed.take(i) =~= chunks.take(i));
            assert(chunk_fits_source(chunks, source, i));
        } else {
            assert(pushed.take(i) =~= chunks);
        }
    }
}

/// Appends the chunk `source[from..to]`, holding `text`.
fn push_chunk(
    chunks: &mut Vec<TextChunk>,
    source: &[char],
    from: usize,
    to: usize,
    text: String,
)
    requires
        covers_prefix(old(chunks)@, source@, from as int),
        from < to <= source@.len(),
        text@ == source@.subrange(from as int, to as int),
        encode_utf8(source@).len() <= usize::MAX,
    ensures
        covers_prefix(final(chunks)@, source@, to as int),
        final(chunks)@.len() == old(chunks)@.len() + 1,
        final(chunks)@.take(old(chunks)@.len() as int) == old(chunks)@,
        chunk_sources(final(chunks)@) == chunk_sources(old(chunks)@).push(text@),
{
    proof {
        lemma_utf8_offset_bounded(source@, to as int);
    }
    let chunk = TextChunk {
        index: chunks.len(),
        source: text,
        source_start: utf8_offset_exec(source, from),
        source_end: utf8_offset_exec(source, to),
        paragraph_id: newline_pairs_before(source, from),
    };
    proof {
        lemma_covers_push(chunks@, source@, from as int, to as int, chunk);
    }
    chunks.push(chunk);
    assert(chunks@.take(old(chunks)@.len() as int) =~= old(chunks)@);
    assert(chunk_sources(chunks@) =~= chunk_sources(old(chunks)@).push(text@));
}

proof fn lemma_flatten_split(parts: Seq<Seq<char>>, k: int)
    requires
        0 <= k < parts.len(),
    ensures
        parts.flatten() == parts.take(k).flatten() + parts[k] + parts.skip(k + 1).flatten(),
        parts.take(k + 1).flatten() == parts.take(k).flatten() + parts[k],
{
    assert(parts =~= parts.take(k + 1) + parts.skip(k + 1));
    lemma_flatten_concat(parts.take(k + 1), parts.skip(k + 1));
    assert(parts.take(k + 1) =~= parts.take(k).push(parts[k]));
}

/// Positions in a chunk sequence only grow, and each chunk ends where the next starts.
proof fn lemma_char_positions(chunks: Seq<TextChunk>, i: int, j: int)
    requires
        0 <= i <= j <= chunks.len(),
    ensures
        char_start(chunks, i) <= char_start(chunks, j),
        i < chunks.len() ==> char_end(chunks, i) == char_start(chunks, i + 1),
        char_start(chunks, chunks.len() as int) == chunk_sources(chunks).flatten().len(),
{
    let sj = chunk_sources(chunks.take(j));
    assert(sj =~= chunk_sources(chunks.take(i)) + sj.skip(i));
    lemma_flatten_concat(chunk_sources(chunks.take(i)), sj.skip(i));
    if i < chunks.len() {
        assert(chunks.take(i + 1) =~= chunks.take(i).push(chunks[i]));
        assert(chunk_sources(chunks.take(i + 1)) =~= chunk_sources(chunks.take(i)).push(
            chunks[i].source_spec(),
        ));
    }
    assert(chunks.take(chunks.len() as int) =~= chunks);
}

/// Chunks appended after a covered prefix lie between the old and the new coverage, and
/// the chunks that were already there keep their positions.
proof fn lemma_extension_positions(
    before: Seq<TextChunk>,
    after: Seq<TextChunk>,
    source: Seq<char>,
    from: int,
    to: int,
)
    requires
        covers_prefix(before, source, from),
        covers_prefix(after, source, to),
        0 <= from <= to <= source.len(),
        after.len() >= before.len(),
        after.take(before.len() as int) == before,
    ensures
        forall|i: int|
            0 <= i < before.len() ==> char_start(after, i) == char_start(before, i) && char_end(
                after,
                i,
            ) == char_end(before, i),
        forall|i: int|
            before.len() <= i < after.len() ==> from <= char_start(after, i) && char_end(after, i)
                <= to,
{
    assert forall|i: int| 0 <= i < before.len() implies char_start(after, i) == char_start(
        before,
        i,
    ) && char_end(after, i) == char_end(before, i) by {
        assert(after.take(i) =~= before.take(i)) by {
            assert(after.take(i) =~= after.take(before.len() as int).take(i));
        }
        assert(after[i] == after.take(before.len() as int)[i]);
    }
    lemma_char_positions(before, before.len() as int, before.len() as int);
    lemma_char_positions(after, before.len() as int, after.len() as int);
    assert(char_start(after, before.len() as int) == from) by {
        assert(after.take(before.len() as int) == before);
        assert(before.take(before.len() as int) =~= before);
    }
    assert forall|i: int| before.len() <= i < after.len() implies from <= char_start(after, i)
        && char_end(after, i) <= to by {
        lemma_char_positions(after, before.len() as int, i);
        lemma_char_positions(after, i, i);
        lemma_char_positions(after, i + 1, after.len() as int);
    }
}

/// A partition of `from..to` into consecutive non-empty ranges.
pub open spec fn partitions(ranges: Seq<(usize, usize)>, from: int, to: int) -> bool {
    &&& ranges.len() == 0 ==> from == to
    &&& ranges.len() > 0 ==> ranges[0].0 == from && ranges.last().1 == to
    &&& forall|i: int| 0 <= i < ranges.len() ==> (#[trigger] ranges[i]).0 < ranges[i].1
    &&& forall|i: int| 0 <= i < ranges.len() - 1 ==> (#[trigger] ranges[i]).1 == ranges[i + 1].0
}

proof fn lemma_partition_lower(ranges: Seq<(usize, usize)>, from: int, to: int, j: int)
    requires
        partitions(ranges, from, to),
        0 <= j < ranges.len(),
    ensures
        from <= ranges[j].0,
    decreases j,
{
    if j > 0 {
        lemma_partition_lower(ranges, from, to, j - 1);
        assert(ranges[j - 1].1 == ranges[j].0);
        assert(ranges[j - 1].0 < ranges[j - 1].1);
    }
}

proof fn lemma_partition_upper(ranges: Seq<(usize, usize)>, from: int, to: int, j: int)
    requires
        partitions(ranges, from, to),
        0 <= j < ranges.len(),
    ensures
        ranges[j].1 <= to,
    decreases ranges.len() - j,
{
    if j < ranges.len() - 1 {
        lemma_partition_upper(ranges, from, to, j + 1);
        assert(ranges[j].1 == ranges[j + 1].0);
        assert(ranges[j + 1].0 < ranges[j + 1].1);
    }
}

proof fn lemma_partition_bounds(ranges: Seq<(usize, usize)>, from: int, to: int, j: int)
    requires
        partitions(ranges, from, to),
        0 <= j < ranges.len(),
    ensures
        from <= ranges[j].0,
        ranges[j].1 <= to,
{
    lemma_partition_lower(ranges, from, to, j);
    lemma_partition_upper(ranges, from, to, j);
}

/// Sentence-final punctuation, Latin and full-width.
pub open spec fn is_sentence_terminal(c: char) -> bool {
    c == '.' || c == '!' || c == '?' || c == '\u{3002}' || c == '\u{ff01}' || c == '\u{ff1f}'
}

/// The sentence pieces of `text[start..to]` still to be cut when the scan is at `i`: a
/// piece ends after each white-space character that follows sentence-final punctuation,
/// except that a line break followed by another line break waits for the last one.
pub open spec fn sentence_scan(text: Seq<char>, to: int, start: int, i: int, after_terminal: bool) -> Seq<
    (int, int),
>
    decreases to - i,
{
    if i >= to {
        if start < to {
            seq![(start, to)]
        } else {
            Seq::empty()
        }
    } else if is_white_space_spec(text[i]) && after_terminal {
        if text[i] == '\n' && i + 1 < to && text[i + 1] == '\n' {
            sentence_scan(text, to, start, i + 1, after_terminal)
        } else {
            seq![(start, i + 1)] + sentence_scan(text, to, i + 1, i + 1, false)
        }
    } else {
        sentence_scan(text, to, start, i + 1, is_sentence_terminal(text[i]))
    }
}

/// The sentence pieces of `text[from..to]`.
pub open spec fn sentences_of(text: Seq<char>, from: int, to: int) -> Seq<(int, int)> {
    sentence_scan(text, to, from, from, false)
}

/// Sentence-final punctuation as the planner cuts after it: `.`, `!`, `?` and their
/// full-width forms `。`, `！`, `？`.
pub open spec fn ends_a_sentence(c: char) -> bool {
    c == '.' || c == '!' || c == '?' || c == '\u{3002}' || c == '\u{ff01}' || c == '\u{ff1f}'
}

proof fn lemma_scan_cuts_after(
    text: Seq<char>,
    to: int,
    start: int,
    j: int,
    after_terminal: bool,
    i: int,
)
    requires
        0 <= j <= i,
        i + 1 < to <= text.len(),
        ends_a_sentence(text[i]),
        is_white_space_spec(text[i + 1]),
        !(text[i + 1] == '\n' && i + 2 < to && text[i + 2] == '\n'),
    ensures
        exists|k: int|
            0 <= k < sentence_scan(text, to, start, j, after_terminal).len()
                && (#[trigger] sentence_scan(text, to, start, j, after_terminal)[k]).1 == i + 2,
    decreases to - j,
{
    let scan = sentence_scan(text, to, start, j, after_terminal);
    if j == i {
        assert(!is_white_space_spec(text[i]));
        assert(is_sentence_terminal(text[i]));
        let next = sentence_scan(text, to, start, i + 1, true);
        assert(scan == next);
        assert(next == seq![(start, i + 2)] + sentence_scan(text, to, i + 2, i + 2, false));
        assert(next[0].1 == i + 2);
    } else if is_white_space_spec(text[j]) && after_terminal {
        if text[j] == '\n' && j + 1 < to && text[j + 1] == '\n' {
            lemma_scan_cuts_after(text, to, start, j + 1, after_terminal, i);
        } else {
            let rest = sentence_scan(text, to, j + 1, j + 1, false);
            lemma_scan_cuts_after(text, to, j + 1, j + 1, false, i);
            let k = choose|k: int| 0 <= k < rest.len() && (#[trigger] rest[k]).1 == i + 2;
            assert(scan == seq![(start, j + 1)] + rest);
            assert(scan[k + 1] == rest[k]);
        }
    } else {
        lemma_scan_cuts_after(text, to, start, j + 1, is_sentence_terminal(text[j]), i);
    }
}

/// Law: in a range cut into sentences, a piece ends right after each white-space character
/// that follows sentence-final punctuation (`.`, `!`, `?`, `。`, `！`, `？`), except a line
/// break followed by another line break, which waits for the last one.
pub proof fn law_sentences_end_after_final_punctuation(text: Seq<char>, from: int, to: int, i: int)
    requires
        0 <= from <= i,
        i + 1 < to <= text.len(),
        ends_a_sentence(text[i]),
        is_white_space_spec(text[i + 1]),
        !(text[i + 1] == '\n' && i + 2 < to && text[i + 2] == '\n'),
    ensures
        exists|k: int|
            0 <= k < sentences_of(text, from, to).len() && (#[trigger] sentences_of(
                text,
                from,
                to,
            )[k]).1 == i + 2,
{
    lemma_scan_cuts_after(text, to, from, from, false, i);
    let pieces = sentence_scan(text, to, from, from, false);
    assert(sentences_of(text, from, to) == pieces);
    let k = choose|k: int| 0 <= k < pieces.len() && (#[trigger] pieces[k]).1 == i + 2;
    assert(sentences_of(text, from, to)[k].1 == i + 2);
}

/// Position ranges as integers.
pub open spec fn range_pairs(ranges: Seq<(usize, usize)>) -> Seq<(int, int)> {
    ranges.map_values(|range: (usize, usize)| (range.0 as int, range.1 as int))
}

/// Splits `source[from..to]` after each white-space character that follows sentence-final
/// punctuation (a line break followed by another line break waits for the last one).
fn sentence_ranges(source: &[char], from: usize, to: usize) -> (ranges: Vec<(usize, usize)>)
    requires
        from < to <= source@.len(),
    ensures
        partitions(ranges@, from as int, to as int),
        range_pairs(ranges@) == sentences_of(source@, from as int, to as int),
{
    let mut ranges: Vec<(usize, usize)> = Vec::new();
    let mut start: usize = from;
    let mut previous_was_terminal = false;
    let mut i: usize = from;
    while i < to
        invariant
            from <= start <= i <= to <= source@.len(),
            partitions(ranges@, from as int, start as int),
            range_pairs(ranges@) + sentence_scan(
                source@,
                to as int,
                start as int,
                i as int,
                previous_was_terminal,
            ) == sentences_of(source@, from as int, to as int),
        decreases to - i,
    {
        let c = source[i];
        if is_white_space(c) && previous_was_terminal {
            if c == '\n' && i + 1 < to && source[i + 1] == '\n' {
                i = i + 1;
                continue;
            }
            let end = i + 1;
            let ghost before = ranges@;
            ranges.push((start, end));
            proof {
                assert(range_pairs(ranges@) =~= range_pairs(before).push((start as int, end as int)));
                assert(range_pairs(ranges@) + sentence_scan(source@, to as int, end as int, end as int, false)
                    =~= range_pairs(before) + sentence_scan(
                    source@,
                    to as int,
                    start as int,
                    i as int,
                    true,
                ));
            }
            start = end;
            previous_was_terminal = false;
        } else {
            previous_was_terminal = c == '.' || c == '!' || c == '?' || c == '\u{3002}' || c
                == '\u{ff01}' || c == '\u{ff1f}';
        }
        i = i + 1;
    }
    if start < to {
        let ghost before = ranges@;
        ranges.push((start, to));
        assert(range_pairs(ranges@) =~= range_pairs(before).push((start as int, to as int)));
    } else {
        assert(range_pairs(ranges@) + Seq::<(int, int)>::empty() =~= range_pairs(ranges@));
    }
    assert(range_pairs(ranges@) =~= sentences_of(source@, from as int, to as int));
    ranges
}


/// The runs an over-budget range is cut into, given its grapheme clusters still to be
/// placed and the open run `current`: a run is closed, before the next cluster is added,
/// once the segmentation counts `budget` clusters in it; the last open run is kept when it
/// is not empty.
pub open spec fn cluster_runs(clusters: Seq<Seq<char>>, budget: int, current: Seq<char>) -> Seq<
    Seq<char>,
>
    decreases clusters.len(),
{
    if clusters.len() == 0 {
        if current.len() > 0 {
            seq![current]
        } else {
            Seq::empty()
        }
    } else if grapheme_clusters(current).len() == budget {
        seq![current] + cluster_runs(clusters.drop_first(), budget, clusters[0])
    } else {
        cluster_runs(clusters.drop_first(), budget, current + clusters[0])
    }
}

/// The runs of grapheme clusters that `text[from..to]` is cut into.
pub open spec fn range_runs(text: Seq<char>, from: int, to: int, budget: int) -> Seq<Seq<char>> {
    cluster_runs(grapheme_clusters(text.subrange(from, to)), budget, Seq::empty())
}

/// The runs of the sentence pieces `pieces`, in order.
pub open spec fn sentence_runs(text: Seq<char>, pieces: Seq<(int, int)>, budget: int) -> Seq<
    Seq<char>,
>
    decreases pieces.len(),
{
    if pieces.len() == 0 {
        Seq::empty()
    } else {
        sentence_runs(text, pieces.drop_last(), budget) + range_runs(
            text,
            pieces.last().0,
            pieces.last().1,
            budget,
        )
    }
}

/// The chunk texts of one structural segment: none when it is empty; the whole segment when
/// it is atomic or within the budget; else its runs, sentence by sentence when it holds
/// several sentences.
pub open spec fn segment_sources(text: Seq<char>, segment: Segment, budget: int) -> Seq<Seq<char>> {
    let piece = text.subrange(segment.0, segment.1);
    if segment.0 >= segment.1 {
        Seq::empty()
    } else if segment.2 || grapheme_clusters(piece).len() <= budget {
        seq![piece]
    } else if sentences_of(text, segment.0, segment.1).len() > 1 {
        sentence_runs(text, sentences_of(text, segment.0, segment.1), budget)
    } else {
        range_runs(text, segment.0, segment.1, budget)
    }
}

/// The character position just past the line that starts at `p` (after its line break,
/// or at the end of the text): the pieces of `str::split_inclusive('\n')`.
pub open spec fn line_end(text: Seq<char>, p: int) -> int
    decreases text.len() - p,
{
    if p < 0 || p >= text.len() {
        text.len() as int
    } else if text[p] == '\n' {
        p + 1
    } else {
        line_end(text, p + 1)
    }
}

pub proof fn lemma_line_end_bounds(text: Seq<char>, p: int)
    requires
        0 <= p < text.len(),
    ensures
        p < line_end(text, p) <= text.len(),
        forall|i: int| p <= i < line_end(text, p) - 1 ==> text[i] != '\n',
    decreases text.len() - p,
{
    if text[p] != '\n' {
        if p + 1 < text.len() {
            lemma_line_end_bounds(text, p + 1);
        } else {
            assert(line_end(text, p + 1) == text.len());
        }
        assert(line_end(text, p) == line_end(text, p + 1));
    }
}

/// The line `text[p..end]` opens or closes a fenced code block: without its line break it
/// starts with three backticks.
pub open spec fn is_fence_line(text: Seq<char>, p: int, end: int) -> bool {
    let content_end = if text[end - 1] == '\n' {
        end - 1
    } else {
        end
    };
    p + 3 <= content_end && text[p] == '`' && text[p + 1] == '`' && text[p + 2] == '`'
}

/// The first position in `q..end` that is not a space or tab (`end` if there is none).
pub open spec fn skip_indent(text: Seq<char>, q: int, end: int) -> int
    decreases end - q,
{
    if q >= end {
        end
    } else if text[q] == ' ' || text[q] == '\t' {
        skip_indent(text, q + 1, end)
    } else {
        q
    }
}

/// The first position in `q..end` that holds a full stop (`end` if there is none).
pub open spec fn first_full_stop(text: Seq<char>, q: int, end: int) -> int
    decreases end - q,
{
    if q >= end {
        end
    } else if text[q] == '.' {
        q
    } else {
        first_full_stop(text, q + 1, end)
    }
}

/// The line `text[p..end]` is a list item: after its indentation it starts with `-`, `*` or
/// `+` and a space, or with decimal digits, a full stop and a space.
pub open spec fn is_list_item(text: Seq<char>, p: int, end: int) -> bool {
    let q = skip_indent(text, p, end);
    let stop = first_full_stop(text, q, end);
    ||| q + 1 < end && (text[q] == '-' || text[q] == '*' || text[q] == '+') && text[q + 1] == ' '
    ||| q < stop && stop + 1 < end && text[stop + 1] == ' ' && forall|i: int|
        q <= i < stop ==> '0' <= #[trigger] text[i] && text[i] <= '9'
}

/// A structural segment `(start, end, atomic)` of character positions.
pub type Segment = (int, int, bool);

/// The structural segments of `text` from line position `p` on, given the start of the
/// pending prose and the start of an open fenced block: prose runs between structures, each
/// fenced block (to its closing fence, or to the end) and each list item outside a fenced
/// block is atomic.
pub open spec fn scan_segments(text: Seq<char>, prose_start: int, fence_start: Option<int>, p: int) -> Seq<
    Segment,
>
    decreases text.len() - p,
{
    if p < 0 || p >= text.len() {
        match fence_start {
            Some(block_start) => seq![(block_start, text.len() as int, true)],
            None => seq![(prose_start, text.len() as int, false)],
        }
    } else {
        let end = line_end(text, p);
        proof {
            lemma_line_end_bounds(text, p);
        }
        if is_fence_line(text, p, end) {
            match fence_start {
                Some(block_start) => seq![(block_start, end, true)] + scan_segments(
                    text,
                    end,
                    None,
                    end,
                ),
                None => seq![(prose_start, p, false)] + scan_segments(
                    text,
                    prose_start,
                    Some(p),
                    end,
                ),
            }
        } else if fence_start is None && is_list_item(text, p, end) {
            seq![(prose_start, p, false), (p, end, true)] + scan_segments(text, end, None, end)
        } else {
            scan_segments(text, prose_start, fence_start, end)
        }
    }
}

/// The structural segments of a whole text, in order.
pub open spec fn line_segments(text: Seq<char>) -> Seq<Segment> {
    scan_segments(text, 0, None, 0)
}

/// The chunk texts of a sequence of structural segments, in order.
pub open spec fn segments_sources(text: Seq<char>, segments: Seq<Segment>, budget: int) -> Seq<
    Seq<char>,
>
    decreases segments.len(),
{
    if segments.len() == 0 {
        Seq::empty()
    } else {
        segments_sources(text, segments.drop_last(), budget) + segment_sources(
            text,
            segments.last(),
            budget,
        )
    }
}

/// The texts of the chunks that planning `text` under a grapheme cluster budget makes.
pub open spec fn planned_sources(text: Seq<char>, budget: int) -> Seq<Seq<char>> {
    segments_sources(text, line_segments(text), budget)
}

/// Chunk `i` lies inside `segment`.
pub open spec fn chunk_in_segment(chunks: Seq<TextChunk>, i: int, segment: Segment) -> bool {
    segment.0 <= char_start(chunks, i) && char_end(chunks, i) <= segment.1
}

/// Some chunk spans exactly `segment`.
pub open spec fn segment_is_one_chunk(chunks: Seq<TextChunk>, segment: Segment) -> bool {
    exists|i: int|
        0 <= i < chunks.len() && #[trigger] char_start(chunks, i) == segment.0 && char_end(chunks, i)
            == segment.1
}

/// A non-empty segment that is atomic, or within the grapheme cluster budget, stays whole.
pub open spec fn stays_whole(text: Seq<char>, segment: Segment, budget: int) -> bool {
    segment.0 < segment.1 && (segment.2 || grapheme_clusters(text.subrange(segment.0, segment.1)).len()
        <= budget)
}

/// Chunk `i` lies inside one of the segments.
pub open spec fn chunk_has_segment(chunks: Seq<TextChunk>, i: int, segments: Seq<Segment>) -> bool {
    exists|k: int| 0 <= k < segments.len() && #[trigger] chunk_in_segment(chunks, i, segments[k])
}

/// No chunk crosses a segment boundary, and every segment that stays whole is one chunk.
pub open spec fn respects_segments(
    chunks: Seq<TextChunk>,
    text: Seq<char>,
    segments: Seq<Segment>,
    budget: int,
) -> bool {
    &&& forall|i: int| 0 <= i < chunks.len() ==> #[trigger] chunk_has_segment(chunks, i, segments)
    &&& forall|k: int|
        0 <= k < segments.len() && stays_whole(text, #[trigger] segments[k], budget)
            ==> segment_is_one_chunk(chunks, segments[k])
}

/// `chunks` is a plan of `text` for a grapheme cluster budget: read in order the chunks
/// spell out the text exactly; each is numbered by its position, carries its UTF-8 byte
/// range and the number of empty lines before it; and chunks follow the structural
/// segments (fenced blocks and list items whole, short prose whole).
pub open spec fn is_chunk_plan_of(chunks: Seq<TextChunk>, text: Seq<char>, budget: int) -> bool {
    &&& covers_prefix(chunks, text, text.len() as int)
    &&& respects_segments(chunks, text, line_segments(text), budget)
}

proof fn lemma_respects_extension(
    before: Seq<TextChunk>,
    after: Seq<TextChunk>,
    text: Seq<char>,
    segments: Seq<Segment>,
    budget: int,
    segment: Segment,
)
    requires
        respects_segments(before, text, segments, budget),
        covers_prefix(before, text, segment.0),
        covers_prefix(after, text, segment.1),
        0 <= segment.0 <= segment.1 <= text.len(),
        after.len() >= before.len(),
        after.take(before.len() as int) == before,
        stays_whole(text, segment, budget) ==> after.len() == before.len() + 1,
    ensures
        respects_segments(after, text, segments.push(segment), budget),
{
    lemma_extension_positions(before, after, text, segment.0, segment.1);
    let pushed = segments.push(segment);
    assert forall|i: int| 0 <= i < after.len() implies #[trigger] chunk_has_segment(
        after,
        i,
        pushed,
    ) by {
        if i < before.len() {
            assert(chunk_has_segment(before, i, segments));
            let k = choose|k: int|
                0 <= k < segments.len() && #[trigger] chunk_in_segment(before, i, segments[k]);
            assert(pushed[k] == segments[k]);
            assert(chunk_in_segment(after, i, pushed[k]));
        } else {
            assert(pushed[segments.len() as int] == segment);
            assert(chunk_in_segment(after, i, pushed[segments.len() as int]));
        }
    }
    assert forall|k: int|
        0 <= k < pushed.len() && stays_whole(text, #[trigger] pushed[k], budget) implies segment_is_one_chunk(
        after,
        pushed[k],
    ) by {
        if k < segments.len() {
            assert(pushed[k] == segments[k]);
            let i = choose|i: int|
                0 <= i < before.len() && #[trigger] char_start(before, i) == segments[k].0
                    && char_end(before, i) == segments[k].1;
            assert(char_start(after, i) == pushed[k].0);
        } else {
            let i = before.len() as int;
            lemma_char_positions(after, i, after.len() as int);
            lemma_char_positions(before, i, i);
            assert(after.take(i) == before);
            assert(before.take(i) =~= before);
            assert(char_start(after, i) == segment.0);
            assert(char_end(after, i) == segment.1);
        }
    }
}


fn line_end_exec(text: &[char], p: usize) -> (end: usize)
    requires
        p < text@.len(),
    ensures
        end == line_end(text@, p as int),
{
    let mut i: usize = p;
    while i < text.len() && text[i] != '\n'
        invariant
            p <= i <= text@.len(),
            line_end(text@, p as int) == line_end(text@, i as int),
        decreases text@.len() - i,
    {
        i = i + 1;
    }
    if i < text.len() {
        i + 1
    } else {
        i
    }
}

fn is_fence_line_exec(text: &[char], p: usize, end: usize) -> (fence: bool)
    requires
        p < end <= text@.len(),
    ensures
        fence == is_fence_line(text@, p as int, end as int),
{
    let content_end = if text[end - 1] == '\n' {
        end - 1
    } else {
        end
    };
    content_end >= 3 && p <= content_end - 3 && text[p] == '`' && text[p + 1] == '`' && text[p
        + 2] == '`'
}

fn is_list_item_exec(text: &[char], p: usize, end: usize) -> (item: bool)
    requires
        p < end <= text@.len(),
    ensures
        item == is_list_item(text@, p as int, end as int),
{
    let mut q: usize = p;
    while q < end && (text[q] == ' ' || text[q] == '\t')
        invariant
            p <= q <= end <= text@.len(),
            skip_indent(text@, p as int, end as int) == skip_indent(text@, q as int, end as int),
        decreases end - q,
    {
        q = q + 1;
    }
    if q < end && end - q > 1 && (text[q] == '-' || text[q] == '*' || text[q] == '+') && text[q + 1] == ' ' {
        return true;
    }
    let mut stop: usize = q;
    let mut digits = true;
    while stop < end && text[stop] != '.'
        invariant
            q <= stop <= end <= text@.len(),
            first_full_stop(text@, q as int, end as int) == first_full_stop(
                text@,
                stop as int,
                end as int,
            ),
            digits == forall|i: int| q <= i < stop ==> '0' <= #[trigger] text@[i] && text@[i] <= '9',
        decreases end - stop,
    {
        if !('0' <= text[stop] && text[stop] <= '9') {
            digits = false;
        }
        stop = stop + 1;
    }
    q < stop && stop < end && end - stop > 1 && text[stop + 1] == ' ' && digits
}

/// A validated immutable plan for translating long text without changing its source.
#[derive(Clone, Debug, PartialEq, Eq)]
pub struct ChunkPlan {
    chunks: Vec<TextChunk>,
}

impl ChunkPlan {
    pub closed spec fn chunks_spec(&self) -> Seq<TextChunk> {
        self.chunks@
    }

    pub fn chunks(&self) -> (chunks: &[TextChunk])
        ensures
            chunks@ == self.chunks_spec(),
    {
        self.chunks.as_slice()
    }

    pub fn len(&self) -> (len: usize)
        ensures
            len == self.chunks_spec().len(),
    {
        self.chunks.len()
    }

    pub fn is_empty(&self) -> (empty: bool)
        ensures
            empty == (self.chunks_spec().len() == 0),
    {
        self.chunks.len() == 0
    }

    /// The chunk texts concatenated in order.
    pub fn reconstruct_source(&self) -> (source: String)
        ensures
            source@ == chunk_sources(self.chunks_spec()).flatten(),
    {
        let mut source = String::new();
        let mut i: usize = 0;
        assert(chunk_sources(self.chunks@.take(0)) =~= Seq::<Seq<char>>::empty());
        while i < self.chunks.len()
            invariant
                i <= self.chunks@.len(),
                source@ == chunk_sources(self.chunks@.take(i as int)).flatten(),
            decreases self.chunks@.len() - i,
        {
            push_str(&mut source, self.chunks[i].source());
            assert(chunk_sources(self.chunks@.take(i + 1)) =~= chunk_sources(
                self.chunks@.take(i as int),
            ).push(self.chunks@[i as int].source_spec()));
            i = i + 1;
        }
        assert(self.chunks@.take(i as int) =~= self.chunks@);
        source
    }
}

/// A plan spells out its source exactly: reconstructing a plan gives back the text planned.
pub proof fn lemma_plan_reconstructs_source(chunks: Seq<TextChunk>, text: Seq<char>, budget: int)
    requires
        is_chunk_plan_of(chunks, text, budget),
    ensures
        chunk_sources(chunks).flatten() == text,
{
    assert(text.take(text.len() as int) =~= text);
}

/// Law: in a plan, each chunk's byte range of the planned text's UTF-8 encoding holds
/// exactly the encoding of the chunk's text.
pub proof fn law_chunk_range_holds_its_text(
    chunks: Seq<TextChunk>,
    text: Seq<char>,
    budget: int,
    i: int,
)
    requires
        is_chunk_plan_of(chunks, text, budget),
        0 <= i < chunks.len(),
    ensures
        chunks[i].source_start_spec() <= chunks[i].source_end_spec() <= encode_utf8(text).len(),
        encode_utf8(text).subrange(
            chunks[i].source_start_spec() as int,
            chunks[i].source_end_spec() as int,
        ) == encode_utf8(chunks[i].source_spec()),
{
    let parts = chunk_sources(chunks);
    assert(chunk_fits_source(chunks, text, i));
    lemma_flatten_split(parts, i);
    assert(chunk_sources(chunks.take(i)) =~= parts.take(i));
    let start = char_start(chunks, i);
    let end = char_end(chunks, i);
    let head = parts.take(i).flatten();
    let tail = parts.skip(i + 1).flatten();
    assert(text.take(text.len() as int) =~= text);
    assert(text == head + parts[i] + tail);
    assert(head.len() == start);
    assert(text.take(start) =~= head);
    assert(text.subrange(start, end) =~= parts[i]);
    assert(text.take(end) =~= head + parts[i]);
    assert(text =~= text.take(end) + text.skip(end));
    lemma_encode_utf8_concat(head, parts[i]);
    lemma_encode_utf8_concat(text.take(end), text.skip(end));
    let encoded = encode_utf8(text);
    let a = encode_utf8(head);
    let b = encode_utf8(parts[i]);
    assert(encoded == a + b + encode_utf8(text.skip(end)));
    assert(encoded.subrange(a.len() as int, (a.len() + b.len()) as int) =~= b);
}

/// Deterministically partitions text at paragraph boundaries before any provider request.
#[derive(Clone, Copy, Debug, PartialEq, Eq, Structural)]
pub struct ChunkPlanner {
    maximum_graphemes: usize,
}

#[derive(Clone, Copy, Debug, PartialEq, Eq, Structural)]
pub enum ChunkPlanError {
    ZeroMaximum,
}

impl ChunkPlanner {
    #[verifier::type_invariant]
    spec fn budget_is_positive(self) -> bool {
        self.maximum_graphemes > 0
    }

    /// The per-request grapheme cluster budget.
    pub closed spec fn maximum_graphemes_spec(self) -> usize {
        self.maximum_graphemes
    }

    /// Creates a planner with a non-zero per-request grapheme budget.
    pub fn new(maximum_graphemes: usize) -> (planner: Result<Self, ChunkPlanError>)
        ensures
            maximum_graphemes == 0 ==> planner == Err::<Self, ChunkPlanError>(
                ChunkPlanError::ZeroMaximum,
            ),
            maximum_graphemes > 0 ==> (planner matches Ok(p) && p.maximum_graphemes_spec()
                == maximum_graphemes),
    {
        if maximum_graphemes == 0 {
            return Err(ChunkPlanError::ZeroMaximum);
        }
        Ok(ChunkPlanner { maximum_graphemes })
    }

    /// Plans contiguous chunks while preserving every source character exactly.
    pub fn plan(&self, source: &str) -> (plan: Result<ChunkPlan, ChunkPlanError>)
        ensures
            plan matches Ok(p) && is_chunk_plan_of(
                p.chunks_spec(),
                source@,
                self.maximum_graphemes_spec() as int,
            ) && chunk_sources(p.chunks_spec()) == planned_sources(
                source@,
                self.maximum_graphemes_spec() as int,
            ),
    {
        proof {
            use_type_invariant(self);
        }
        let text = chars_of(source);
        let byte_len = source.as_bytes().len();
        assert(encode_utf8(text@).len() <= usize::MAX) by {
            assert(source.spec_bytes() == encode_utf8(source@));
        }
        let n = text.len();
        let mut chunks: Vec<TextChunk> = Vec::new();
        let mut prose_start: usize = 0;
        let mut fence_start: Option<usize> = None;
        let mut p: usize = 0;
        let ghost mut emitted: Seq<Segment> = Seq::empty();
        assert(text@.take(0) =~= Seq::<char>::empty());
        assert(chunk_sources(chunks@) =~= Seq::<Seq<char>>::empty());
        assert(emitted + scan_segments(text@, 0, None, 0) =~= line_segments(text@));
        while p < n
            invariant
                n == text@.len(),
                text@ == source@,
                encode_utf8(text@).len() <= usize::MAX,
                self.maximum_graphemes_spec() > 0,
                prose_start <= p <= n,
                fence_start matches Some(b) ==> b <= p,
                covers_prefix(
                    chunks@,
                    text@,
                    match fence_start {
                        Some(b) => b as int,
                        None => prose_start as int,
                    },
                ),
                line_segments(text@) == emitted + scan_segments(
                    text@,
                    prose_start as int,
                    match fence_start {
                        Some(b) => Some(b as int),
                        None => None,
                    },
                    p as int,
                ),
                respects_segments(
                    chunks@,
                    text@,
                    emitted,
                    self.maximum_graphemes_spec() as int,
                ),
                chunk_sources(chunks@) == segments_sources(
                    text@,
                    emitted,
                    self.maximum_graphemes_spec() as int,
                ),
            decreases n - p,
        {
            let end = line_end_exec(text.as_slice(), p);
            proof {
                lemma_line_end_bounds(text@, p as int);
            }
            let ghost rest = scan_segments(text@, end as int, None, end as int);
            if is_fence_line_exec(text.as_slice(), p, end) {
                match fence_start {
                    Some(block_start) => {
                        let ghost before = chunks@;
                        self.append_range(text.as_slice(), block_start, end, &mut chunks, true);
                        proof {
                            let segment = (block_start as int, end as int, true);
                            lemma_respects_extension(
                                before,
                                chunks@,
                                text@,
                                emitted,
                                self.maximum_graphemes_spec() as int,
                                segment,
                            );
                            assert(emitted + scan_segments(
                                text@,
                                prose_start as int,
                                Some(block_start as int),
                                p as int,
                            ) =~= emitted.push(segment) + rest);
                            assert(emitted.push(segment).drop_last() =~= emitted);
                            assert(emitted.push(segment).drop_last() =~= emitted);
                    emitted = emitted.push(segment);
                        }
                        prose_start = end;
                        fence_start = None;
                    },
                    None => {
                        let ghost before = chunks@;
                        self.append_range(text.as_slice(), prose_start, p, &mut chunks, false);
                        proof {
                            let segment = (prose_start as int, p as int, false);
                            lemma_respects_extension(
                                before,
                                chunks@,
                                text@,
                                emitted,
                                self.maximum_graphemes_spec() as int,
                                segment,
                            );
                            let rest_open = scan_segments(
                                text@,
                                prose_start as int,
                                Some(p as int),
                                end as int,
                            );
                            assert(emitted + scan_segments(
                                text@,
                                prose_start as int,
                                None,
                                p as int,
                            ) =~= emitted.push(segment) + rest_open);
                            assert(emitted.push(segment).drop_last() =~= emitted);
                            assert(emitted.push(segment).drop_last() =~= emitted);
                    emitted = emitted.push(segment);
                        }
                        fence_start = Some(p);
                    },
                }
            } else if fence_start.is_none() && is_list_item_exec(text.as_slice(), p, end) {
                let ghost before = chunks@;
                self.append_range(text.as_slice(), prose_start, p, &mut chunks, false);
                let ghost middle = chunks@;
                proof {
                    let segment = (prose_start as int, p as int, false);
                    lemma_respects_extension(
                        before,
                        chunks@,
                        text@,
                        emitted,
                        self.maximum_graphemes_spec() as int,
                        segment,
                    );
                }
                self.append_range(text.as_slice(), p, end, &mut chunks, true);
                proof {
                    let first = (prose_start as int, p as int, false);
                    let second = (p as int, end as int, true);
                    lemma_respects_extension(
                        middle,
                        chunks@,
                        text@,
                        emitted.push(first),
                        self.maximum_graphemes_spec() as int,
                        second,
                    );
                    assert(emitted + scan_segments(text@, prose_start as int, None, p as int)
                        =~= emitted.push(first).push(second) + rest);
                    let budget = self.maximum_graphemes_spec() as int;
                    assert(emitted.push(first).drop_last() =~= emitted);
                    assert(emitted.push(first).push(second).drop_last() =~= emitted.push(first));
                    assert(segments_sources(text@, emitted.push(first), budget)
                        == segments_sources(text@, emitted, budget) + segment_sources(
                        text@,
                        first,
                        budget,
                    ));
                    assert(segments_sources(text@, emitted.push(first).push(second), budget)
                        == segments_sources(text@, emitted.push(first), budget) + segment_sources(
                        text@,
                        second,
                        budget,
                    ));
                    assert(chunk_sources(chunks@) =~= segments_sources(
                        text@,
                        emitted.push(first).push(second),
                        budget,
                    ));
                    emitted = emitted.push(first).push(second);
                }
                prose_start = end;
            } else {
                proof {
                    assert(scan_segments(
                        text@,
                        prose_start as int,
                        match fence_start {
                            Some(b) => Some(b as int),
                            None => None,
                        },
                        p as int,
                    ) == scan_segments(
                        text@,
                        prose_start as int,
                        match fence_start {
                            Some(b) => Some(b as int),
                            None => None,
                        },
                        end as int,
                    ));
                }
            }
            p = end;
        }
        let ghost before = chunks@;
        match fence_start {
            Some(block_start) => {
                self.append_range(text.as_slice(), block_start, n, &mut chunks, true);
                proof {
                    let segment = (block_start as int, n as int, true);
                    lemma_respects_extension(
                        before,
                        chunks@,
                        text@,
                        emitted,
                        self.maximum_graphemes_spec() as int,
                        segment,
                    );
                    assert(emitted.push(segment).drop_last() =~= emitted);
                    emitted = emitted.push(segment);
                }
            },
            None => {
                self.append_range(text.as_slice(), prose_start, n, &mut chunks, false);
                proof {
                    let segment = (prose_start as int, n as int, false);
                    lemma_respects_extension(
                        before,
                        chunks@,
                        text@,
                        emitted,
                        self.maximum_graphemes_spec() as int,
                        segment,
                    );
                    assert(emitted.push(segment).drop_last() =~= emitted);
                    emitted = emitted.push(segment);
                }
            },
        }
        assert(emitted =~= line_segments(text@));
        Ok(ChunkPlan { chunks })
    }

    /// Appends `source[from..to]` cut into runs of grapheme clusters; a run is closed
    /// once it holds as many clusters as the budget allows.
    fn append_graphemes(self, source: &[char], from: usize, to: usize, chunks: &mut Vec<TextChunk>)
        requires
            covers_prefix(old(chunks)@, source@, from as int),
            from < to <= source@.len(),
            encode_utf8(source@).len() <= usize::MAX,
            self.maximum_graphemes_spec() > 0,
        ensures
            covers_prefix(final(chunks)@, source@, to as int),
            final(chunks)@.len() >= old(chunks)@.len(),
            final(chunks)@.take(old(chunks)@.len() as int) == old(chunks)@,
            chunk_sources(final(chunks)@) == chunk_sources(old(chunks)@) + range_runs(
                source@,
                from as int,
                to as int,
                self.maximum_graphemes_spec() as int,
            ),
    {
        let range = chars_between(source, from, to);
        let text = string_of(range.as_slice());
        let clusters = graphemes(text.as_str());
        let ghost parts = clusters@.map_values(|cluster: String| cluster@);
        let ghost old_chunks = chunks@;
        let mut current = String::new();
        let mut current_start: usize = from;
        let mut current_end: usize = from;
        let mut k: usize = 0;
        assert(parts.take(0) =~= Seq::<Seq<char>>::empty());
        assert(source@.subrange(from as int, from as int) =~= current@);
        assert(parts.skip(0) =~= parts);
        assert(current@ =~= Seq::<char>::empty());
        while k < clusters.len()
            invariant
                covers_prefix(chunks@, source@, current_start as int),
                chunks@.len() >= old_chunks.len(),
                chunks@.take(old_chunks.len() as int) == old_chunks,
                from <= current_start <= current_end <= to <= source@.len(),
                current@ == source@.subrange(current_start as int, current_end as int),
                k <= clusters@.len(),
                parts == clusters@.map_values(|cluster: String| cluster@),
                parts.flatten() == source@.subrange(from as int, to as int),
                current_end == from + parts.take(k as int).flatten().len(),
                encode_utf8(source@).len() <= usize::MAX,
                self.maximum_graphemes_spec() > 0,
                chunk_sources(chunks@) + cluster_runs(
                    parts.skip(k as int),
                    self.maximum_graphemes_spec() as int,
                    current@,
                ) == chunk_sources(old_chunks) + cluster_runs(
                    parts,
                    self.maximum_graphemes_spec() as int,
                    Seq::empty(),
                ),
            decreases clusters@.len() - k,
        {
            let ghost budget = self.maximum_graphemes_spec() as int;
            let ghost open_run = current@;
            assert(parts.skip(k as int).drop_first() =~= parts.skip(k + 1));
            assert(parts.skip(k as int)[0] == parts[k as int]);
            if grapheme_count(current.as_str()) == self.maximum_graphemes {
                let ghost before = chunks@;
                push_chunk(chunks, source, current_start, current_end, current.clone());
                assert(chunk_sources(chunks@) + cluster_runs(parts.skip(k + 1), budget, parts[k as int])
                    =~= chunk_sources(before) + cluster_runs(parts.skip(k as int), budget, open_run));
                assert(chunks@.take(old_chunks.len() as int) =~= old_chunks) by {
                    assert(chunks@.take(old_chunks.len() as int) =~= chunks@.take(
                        before.len() as int,
                    ).take(old_chunks.len() as int));
                }
                current = String::new();
                current_start = current_end;
                assert(source@.subrange(current_start as int, current_end as int) =~= current@);
            }
            proof {
                lemma_flatten_split(parts, k as int);
                assert(parts[k as int] == clusters@[k as int]@);
                let whole = source@.subrange(from as int, to as int);
                let head = parts.take(k as int).flatten();
                let piece = parts[k as int];
                let tail = parts.skip(k + 1).flatten();
                assert(whole == head + piece + tail);
                assert(whole.len() == head.len() + piece.len() + tail.len());
                assert forall|i: int| 0 <= i < piece.len() implies piece[i] == source@[current_end
                    + i] by {
                    assert((head + piece + tail)[head.len() + i] == piece[i]);
                    assert(whole[head.len() + i] == source@[from + head.len() + i]);
                }
                assert(piece =~= source@.subrange(current_end as int, current_end + piece.len()));
            }
            let cluster_chars = chars_of(clusters[k].as_str());
            push_str(&mut current, clusters[k].as_str());
            current_end = current_end + cluster_chars.len();
            assert(current@ =~= source@.subrange(current_start as int, current_end as int));
            k = k + 1;
        }
        assert(parts.take(k as int) =~= parts);
        assert(parts.skip(k as int) =~= Seq::<Seq<char>>::empty());
        assert(parts == grapheme_clusters(source@.subrange(from as int, to as int)));
        if current_start < current_end {
            let ghost before = chunks@;
            push_chunk(chunks, source, current_start, current_end, current);
            assert(chunks@.take(old_chunks.len() as int) =~= chunks@.take(before.len() as int).take(
                old_chunks.len() as int,
            ));
        } else {
            assert(chunk_sources(chunks@) + Seq::<Seq<char>>::empty() =~= chunk_sources(chunks@));
        }
    }

    /// Appends `source[from..to]`: whole when it is atomic or within the budget, else cut at
    /// sentence boundaries (when there are several sentences) and then into grapheme runs.
    fn append_range(
        self,
        source: &[char],
        from: usize,
        to: usize,
        chunks: &mut Vec<TextChunk>,
        atomic: bool,
    )
        requires
            covers_prefix(old(chunks)@, source@, from as int),
            from <= to <= source@.len(),
            encode_utf8(source@).len() <= usize::MAX,
            self.maximum_graphemes_spec() > 0,
        ensures
            covers_prefix(final(chunks)@, source@, to as int),
            final(chunks)@.len() >= old(chunks)@.len(),
            final(chunks)@.take(old(chunks)@.len() as int) == old(chunks)@,
            from < to && (atomic || grapheme_clusters(source@.subrange(from as int, to as int)).len()
                <= self.maximum_graphemes_spec()) ==> final(chunks)@.len() == old(chunks)@.len()
                + 1,
            chunk_sources(final(chunks)@) == chunk_sources(old(chunks)@) + segment_sources(
                source@,
                (from as int, to as int, atomic),
                self.maximum_graphemes_spec() as int,
            ),
    {
        if from == to {
            assert(chunks@.take(chunks@.len() as int) =~= chunks@);
            assert(chunk_sources(chunks@) + Seq::<Seq<char>>::empty() =~= chunk_sources(chunks@));
            return;
        }
        let range = chars_between(source, from, to);
        let text = string_of(range.as_slice());
        if atomic || grapheme_count(text.as_str()) <= self.maximum_graphemes {
            push_chunk(chunks, source, from, to, text);
            return;
        }
        let sentences = sentence_ranges(source, from, to);
        if sentences.len() > 1 {
            let ghost old_chunks = chunks@;
            let mut j: usize = 0;
            assert(chunks@.take(old_chunks.len() as int) =~= old_chunks);
            assert(range_pairs(sentences@).take(0) =~= Seq::<(int, int)>::empty());
            assert(chunk_sources(chunks@) + Seq::<Seq<char>>::empty() =~= chunk_sources(chunks@));
            while j < sentences.len()
                invariant
                    partitions(sentences@, from as int, to as int),
                    sentences@.len() > 1,
                    j <= sentences@.len(),
                    j == 0 ==> covers_prefix(chunks@, source@, from as int),
                    j > 0 ==> covers_prefix(chunks@, source@, sentences@[j - 1].1 as int),
                    to <= source@.len(),
                    chunks@.len() >= old_chunks.len(),
                    chunks@.take(old_chunks.len() as int) == old_chunks,
                    encode_utf8(source@).len() <= usize::MAX,
                    self.maximum_graphemes_spec() > 0,
                    range_pairs(sentences@) == sentences_of(source@, from as int, to as int),
                    chunk_sources(chunks@) == chunk_sources(old_chunks) + sentence_runs(
                        source@,
                        range_pairs(sentences@).take(j as int),
                        self.maximum_graphemes_spec() as int,
                    ),
                decreases sentences@.len() - j,
            {
                let (start, end) = sentences[j];
                assert(j > 0 ==> sentences@[j - 1].1 == sentences@[j as int].0);
                assert(sentences@[j as int].0 < sentences@[j as int].1);
                proof {
                    lemma_partition_bounds(sentences@, from as int, to as int, j as int);
                }
                let ghost before = chunks@;
                self.append_graphemes(source, start, end, chunks);
                assert(chunks@.take(old_chunks.len() as int) =~= chunks@.take(
                    before.len() as int,
                ).take(old_chunks.len() as int));
                proof {
                    let pairs = range_pairs(sentences@);
                    assert(pairs.take(j + 1).drop_last() =~= pairs.take(j as int));
                    assert(pairs.take(j + 1).last() == (start as int, end as int));
                }
                j = j + 1;
            }
            assert(range_pairs(sentences@).take(j as int) =~= range_pairs(sentences@));
        } else {
            self.append_graphemes(source, from, to, chunks);
        }
    }
}


/// Failure from the all-or-nothing long-text executor.
#[derive(Debug, PartialEq, Eq)]
pub enum ChunkExecutionError<E> {
    Translation(E),
    Cancelled,
    Join,
}

/// What the long-text executor does next.
#[derive(Clone, Copy, Debug, PartialEq, Eq, Structural)]
pub enum ChunkStep {
    /// Start translating the chunk with this index.
    Start(usize),
    /// Wait for a running chunk to complete.
    Wait,
    /// Every chunk is complete.
    Finish,
    /// The execution stopped (the parent request was cancelled or a chunk failed): stop
    /// every running chunk and start none.
    Cancel,
}

/// The most chunks translated at once.
pub const MAXIMUM_RUNNING_CHUNKS: usize = 2;

/// The bookkeeping of a plan's execution: chunks start in source order, at most two run at
/// once, and outputs are kept by chunk index whatever order they complete in.
pub struct ChunkExecution<T> {
    started: usize,
    running: Vec<usize>,
    outputs: Vec<Option<T>>,
    stopped: bool,
}

impl<T> ChunkExecution<T> {
    /// Chunks start in order, at most two run, and exactly the started chunks that are not
    /// running have an output.
    pub closed spec fn is_consistent(&self) -> bool {
        &&& self.started <= self.outputs@.len()
        &&& self.running@.len() <= MAXIMUM_RUNNING_CHUNKS
        &&& self.running@.no_duplicates()
        &&& forall|k: int|
            0 <= k < self.running@.len() ==> (#[trigger] self.running@[k]) < self.started
                && self.outputs@[self.running@[k] as int] is None
        &&& forall|i: int|
            0 <= i < self.started ==> (#[trigger] self.outputs@[i]) is Some
                || self.running@.contains(i as usize)
        &&& forall|i: int| self.started <= i < self.outputs@.len() ==> (#[trigger] self.outputs@[i]) is None
    }

    /// The number of chunks.
    pub closed spec fn total_spec(&self) -> nat {
        self.outputs@.len()
    }

    /// How many chunks have been started, in source order.
    pub closed spec fn started_spec(&self) -> nat {
        self.started as nat
    }

    /// The chunks running now.
    pub closed spec fn running_spec(&self) -> Seq<usize> {
        self.running@
    }

    /// The output of each chunk, once it completed.
    pub closed spec fn outputs_spec(&self) -> Seq<Option<T>> {
        self.outputs@
    }

    /// The execution stopped: the request was cancelled or a chunk failed, so no chunk
    /// starts any more and no output is handed out.
    pub closed spec fn stopped_spec(&self) -> bool {
        self.stopped
    }

    /// The execution of `total` chunks, none started.
    pub fn new(total: usize) -> (execution: Self)
        ensures
            execution.is_consistent(),
            execution.total_spec() == total,
            execution.started_spec() == 0,
            execution.running_spec().len() == 0,
            !execution.stopped_spec(),
    {
        let mut outputs: Vec<Option<T>> = Vec::new();
        let mut i: usize = 0;
        while i < total
            invariant
                i <= total,
                outputs@.len() == i,
                forall|j: int| 0 <= j < i ==> (#[trigger] outputs@[j]) is None,
            decreases total - i,
        {
            outputs.push(None);
            i = i + 1;
        }
        ChunkExecution { started: 0, running: Vec::new(), outputs, stopped: false }
    }

    /// Decides the next step: stop when the parent request is cancelled; else start the
    /// next chunk while fewer than two run, else wait for a running chunk, and finish once
    /// every chunk completed.
    pub fn next_step(&mut self, cancelled: bool) -> (step: ChunkStep)
        requires
            old(self).is_consistent(),
        ensures
            final(self).is_consistent(),
            final(self).total_spec() == old(self).total_spec(),
            final(self).outputs_spec() == old(self).outputs_spec(),
            final(self).running_spec().len() <= MAXIMUM_RUNNING_CHUNKS,
            (step == ChunkStep::Cancel) == (cancelled || old(self).stopped_spec()),
            final(self).stopped_spec() == (cancelled || old(self).stopped_spec()),
            match step {
                ChunkStep::Cancel => final(self).started_spec() == old(self).started_spec()
                    && final(self).running_spec() == old(self).running_spec(),
                ChunkStep::Start(index) => {
                    &&& old(self).running_spec().len() < MAXIMUM_RUNNING_CHUNKS
                    &&& index == old(self).started_spec()
                    &&& index < old(self).total_spec()
                    &&& final(self).started_spec() == old(self).started_spec() + 1
                    &&& final(self).running_spec() == old(self).running_spec().push(index)
                },
                ChunkStep::Wait => {
                    &&& old(self).running_spec().len() > 0
                    &&& (old(self).running_spec().len() == MAXIMUM_RUNNING_CHUNKS
                        || old(self).started_spec() == old(self).total_spec())
                    &&& final(self).started_spec() == old(self).started_spec()
                    &&& final(self).running_spec() == old(self).running_spec()
                },
                ChunkStep::Finish => {
                    &&& old(self).running_spec().len() == 0
                    &&& old(self).started_spec() == old(self).total_spec()
                    &&& final(self).started_spec() == old(self).started_spec()
                    &&& final(self).running_spec() == old(self).running_spec()
                    &&& forall|i: int| 0 <= i < old(self).total_spec() ==> (#[trigger] old(self).outputs_spec()[i]) is Some
                },
            },
    {
        if cancelled || self.stopped {
            self.stopped = true;
            return ChunkStep::Cancel;
        }
        if self.running.len() < MAXIMUM_RUNNING_CHUNKS && self.started < self.outputs.len() {
            let index = self.started;
            self.running.push(index);
            let ghost running = self.running;
            proof {
                assert forall|a: int, b: int| 0 <= a < running@.len() && 0 <= b < running@.len() && a != b implies running@[a] != running@[b] by {
                    if a < running@.len() - 1 && b < running@.len() - 1 {
                        assert(old(self).running@.no_duplicates());
                    }
                }
                assert forall|i: int| 0 <= i < index + 1 implies (#[trigger] self.outputs@[i]) is Some
                    || running@.contains(i as usize) by {
                    if i == index {
                        assert(running@[running@.len() - 1] == index);
                    } else if !(self.outputs@[i] is Some) {
                        assert(old(self).running@.contains(i as usize));
                        let k = choose|k: int| 0 <= k < old(self).running@.len() && old(self).running@[k] == i as usize;
                        assert(running@[k] == i as usize);
                    }
                }
            }
            self.started = index + 1;
            return ChunkStep::Start(index);
        }
        if self.running.len() > 0 {
            return ChunkStep::Wait;
        }
        proof {
            assert forall|i: int| 0 <= i < self.outputs@.len() implies (#[trigger] self.outputs@[i]) is Some by {
                if !(self.outputs@[i] is Some) {
                    assert(self.running@.contains(i as usize));
                }
            }
        }
        ChunkStep::Finish
    }

    /// Records the output of a running chunk.
    pub fn complete(&mut self, index: usize, output: T)
        requires
            old(self).is_consistent(),
            old(self).running_spec().contains(index),
        ensures
            final(self).is_consistent(),
            final(self).total_spec() == old(self).total_spec(),
            final(self).started_spec() == old(self).started_spec(),
            final(self).running_spec().len() + 1 == old(self).running_spec().len(),
            final(self).running_spec().to_set() == old(self).running_spec().to_set().remove(index),
            final(self).outputs_spec() == old(self).outputs_spec().update(index as int, Some(output)),
            final(self).stopped_spec() == old(self).stopped_spec(),
    {
        let mut k: usize = 0;
        while k < self.running.len() && self.running[k] != index
            invariant
                k <= self.running@.len(),
                forall|j: int| 0 <= j < k ==> self.running@[j] != index,
            decreases self.running@.len() - k,
        {
            k = k + 1;
        }
        assert(k < self.running@.len()) by {
            if k == self.running@.len() {
                let j = choose|j: int| 0 <= j < self.running@.len() && self.running@[j] == index;
                assert(self.running@[j] != index);
            }
        }
        let started = self.started;
        let ghost before = self.running@;
        self.running.remove(k);
        self.outputs.set(index, Some(output));
        let ghost running = self.running;
        let ghost outputs = self.outputs;
        proof {
            assert(running@ =~= before.remove(k as int));
            assert forall|a: int, b: int| 0 <= a < running@.len() && 0 <= b < running@.len() && a != b implies running@[a] != running@[b] by {
                let a2 = if a < k { a } else { a + 1 };
                let b2 = if b < k { b } else { b + 1 };
                assert(running@[a] == before[a2]);
                assert(running@[b] == before[b2]);
            }
            assert forall|j: int| 0 <= j < running@.len() implies (#[trigger] running@[j]) < started && outputs@[running@[j] as int] is None by {
                let j2 = if j < k { j } else { j + 1 };
                assert(running@[j] == before[j2]);
                assert(before[j2] != before[k as int]);
            }
            assert forall|i: int| 0 <= i < started implies (#[trigger] outputs@[i]) is Some || running@.contains(i as usize) by {
                if i != index && !(outputs@[i] is Some) {
                    assert(before.contains(i as usize));
                    let j = choose|j: int| 0 <= j < before.len() && before[j] == i as usize;
                    assert(j != k);
                    let j2 = if j < k { j } else { j - 1 };
                    assert(running@[j2] == i as usize);
                }
            }
            assert(running@.to_set() =~= before.to_set().remove(index)) by {
                assert forall|x: usize| running@.to_set().contains(x) == before.to_set().remove(index).contains(x) by {
                    if running@.contains(x) {
                        let j = choose|j: int| 0 <= j < running@.len() && running@[j] == x;
                        let j2 = if j < k { j } else { j + 1 };
                        assert(before[j2] == x);
                        assert(j2 != k);
                    }
                    if before.contains(x) && x != index {
                        let j = choose|j: int| 0 <= j < before.len() && before[j] == x;
                        let j2 = if j < k { j } else { j - 1 };
                        assert(running@[j2] == x);
                    }
                }
            }
        }
    }

    /// Whether a chunk is running now.
    pub fn is_running(&self, index: usize) -> (running: bool)
        ensures
            running == self.running_spec().contains(index),
    {
        let mut k: usize = 0;
        while k < self.running.len()
            invariant
                k <= self.running@.len(),
                forall|j: int| 0 <= j < k ==> self.running@[j] != index,
            decreases self.running@.len() - k,
        {
            if self.running[k] == index {
                assert(self.running@[k as int] == index);
                return true;
            }
            k = k + 1;
        }
        false
    }

    /// A running chunk failed with `error`: the execution stops, whatever else completed;
    /// the failure is the answer of the whole execution, no chunk starts any more and no
    /// output is handed out.
    pub fn fail<E>(&mut self, index: usize, error: E) -> (failure: ChunkExecutionError<E>)
        requires
            old(self).is_consistent(),
            old(self).running_spec().contains(index),
        ensures
            final(self).is_consistent(),
            final(self).stopped_spec(),
            final(self).total_spec() == old(self).total_spec(),
            final(self).started_spec() == old(self).started_spec(),
            final(self).running_spec() == old(self).running_spec(),
            final(self).outputs_spec() == old(self).outputs_spec(),
            failure == ChunkExecutionError::Translation(error),
    {
        self.stopped = true;
        ChunkExecutionError::Translation(error)
    }

    /// A running chunk's task was lost before it answered: the execution stops as for a
    /// failure, and the whole execution fails as lost.
    pub fn lose<E>(&mut self) -> (failure: ChunkExecutionError<E>)
        requires
            old(self).is_consistent(),
        ensures
            final(self).is_consistent(),
            final(self).stopped_spec(),
            final(self).total_spec() == old(self).total_spec(),
            final(self).started_spec() == old(self).started_spec(),
            final(self).running_spec() == old(self).running_spec(),
            final(self).outputs_spec() == old(self).outputs_spec(),
            failure == ChunkExecutionError::<E>::Join,
    {
        self.stopped = true;
        ChunkExecutionError::Join
    }

    /// The outputs in source order, once every chunk completed and nothing stopped the
    /// execution.
    pub fn into_outputs(self) -> (outputs: Vec<T>)
        requires
            !self.stopped_spec(),
            forall|i: int| 0 <= i < self.total_spec() ==> (#[trigger] self.outputs_spec()[i]) is Some,
        ensures
            outputs@.len() == self.total_spec(),
            forall|i: int| 0 <= i < outputs@.len() ==> Some(#[trigger] outputs@[i]) == self.outputs_spec()[i],
    {
        let ghost all = self.outputs_spec();
        let ChunkExecution { started: _, running: _, outputs: slots, stopped: _ } = self;
        assert(slots@ == all);
        let mut slots = slots;
        let mut outputs: Vec<T> = Vec::new();
        let mut i: usize = 0;
        while i < slots.len()
            invariant
                i <= slots@.len(),
                slots@.len() == all.len(),
                forall|j: int| 0 <= j < all.len() ==> (#[trigger] all[j]) is Some,
                forall|j: int| i <= j < slots@.len() ==> slots@[j] == all[j],
                outputs@.len() == i,
                forall|j: int| 0 <= j < i ==> Some(#[trigger] outputs@[j]) == all[j],
            decreases slots@.len() - i,
        {
            let mut slot: Option<T> = None;
            assert(all[i as int] is Some);
            assert(slots@[i as int] == all[i as int]);
            slots.set_and_swap(i, &mut slot);
            match slot {
                Some(output) => outputs.push(output),
                None => {
                    assert(false);
                    return outputs;
                },
            }
            i = i + 1;
        }
        outputs
    }
}

} // verus!
