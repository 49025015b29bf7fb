//! Texts as lines: what it means for a line to begin with a word, and how
//! that carries over when lines are joined.

use vstd::prelude::*;

verus! {

/// The line feed that stands between two lines, as a text of its own.
pub open spec fn line_feed() -> Seq<char> {
    seq!['\n']
}

/// The lines joined into one text, a line feed between each two of them and
/// none after the last.
pub open spec fn join_lines(lines: Seq<Seq<char>>) -> Seq<char>
    decreases lines.len(),
{
    if lines.len() == 0 {
        Seq::empty()
    } else if lines.len() == 1 {
        lines[0]
    } else {
        join_lines(lines.drop_last()) + line_feed() + lines.last()
    }
}

/// `word` stands in `text` at position `at`.
pub open spec fn reads_at(text: Seq<char>, word: Seq<char>, at: int) -> bool {
    &&& 0 <= at
    &&& at + word.len() <= text.len()
    &&& text.subrange(at, at + word.len()) == word
}

/// A line of `text` begins at position `at`: the text begins there, or a
/// line feed stands right before.
pub open spec fn line_begins_at(text: Seq<char>, at: int) -> bool {
    at == 0 || (0 < at <= text.len() && text[at - 1] == '\n')
}

/// At position `at` of `text` begins a line, and that line begins with
/// `word`.
pub open spec fn line_reads_at(text: Seq<char>, word: Seq<char>, at: int) -> bool {
    line_begins_at(text, at) && reads_at(text, word, at)
}

/// Some line of `text` begins with `word`.
pub open spec fn has_line(text: Seq<char>, word: Seq<char>) -> bool {
    exists|at: int| line_reads_at(text, word, at)
}

/// Some line of `text` after its first begins with `word`.
pub open spec fn has_later_line(text: Seq<char>, word: Seq<char>) -> bool {
    exists|at: int| at > 0 && line_reads_at(text, word, at)
}

/// A word that fits on a line: it is not empty and holds no line feed.
pub open spec fn is_line_word(word: Seq<char>) -> bool {
    word.len() > 0 && !word.contains('\n')
}

/// Where line `k` begins in the joined text: behind the lines before it and
/// the line feed after each of them.
pub open spec fn line_offset(lines: Seq<Seq<char>>, k: int) -> int
    decreases k,
{
    if k <= 0 {
        0
    } else {
        line_offset(lines, k - 1) + lines[k - 1].len() + 1
    }
}

/// Line `k` of `lines` begins with `word` at the place that is position `at`
/// of the joined text.
pub open spec fn joined_line_reads_at(
    lines: Seq<Seq<char>>,
    k: int,
    word: Seq<char>,
    at: int,
) -> bool {
    0 <= k < lines.len() && line_reads_at(lines[k], word, at - line_offset(lines, k))
}

/// Where two texts are joined by a line feed, a line begins with `word` at
/// the places where one did in either text, and nowhere else: those of the
/// second text have moved behind the first text and the line feed.
pub proof fn lemma_joined_line_reads(a: Seq<char>, b: Seq<char>, word: Seq<char>, at: int)
    requires
        is_line_word(word),
    ensures
        line_reads_at(a + line_feed() + b, word, at) <==> (line_reads_at(a, word, at)
            || line_reads_at(b, word, at - a.len() - 1)),
{
    let text = a + line_feed() + b;
    let n = word.len() as int;
    let moved = at - a.len() - 1;
    if line_reads_at(text, word, at) {
        if at + n <= a.len() {
            assert(a.subrange(at, at + n) =~= text.subrange(at, at + n));
        } else if at > a.len() {
            assert(b.subrange(moved, moved + n) =~= text.subrange(at, at + n));
        } else {
            // The line feed between the two texts would stand inside the word.
            assert(text.subrange(at, at + n)[a.len() - at] == '\n');
            assert(word[a.len() - at] == '\n');
            assert(false);
        }
    }
    if line_reads_at(a, word, at) {
        assert(text.subrange(at, at + n) =~= a.subrange(at, at + n));
    }
    if line_reads_at(b, word, moved) {
        assert(text.subrange(at, at + n) =~= b.subrange(moved, moved + n));
    }
}

/// A line is made of a fixed beginning and a field value.  Where the
/// beginning holds no line feed and differs from `word` in its character
/// `clash`, a line begins with `word` only inside the value, after a line
/// feed of the value's own.
pub proof fn lemma_prefixed_line_reads(
    prefix: Seq<char>,
    value: Seq<char>,
    word: Seq<char>,
    clash: int,
    at: int,
)
    requires
        !prefix.contains('\n'),
        0 <= clash < prefix.len(),
        clash < word.len(),
        prefix[clash] != word[clash],
    ensures
        line_reads_at(prefix + value, word, at) <==> (at > prefix.len() && line_reads_at(
            value,
            word,
            at - prefix.len(),
        )),
{
    let text = prefix + value;
    let n = word.len() as int;
    let moved = at - prefix.len();
    if line_reads_at(text, word, at) {
        if at == 0 {
            assert(text.subrange(0, n)[clash] == prefix[clash]);
            assert(false);
        }
        if at <= prefix.len() {
            assert(prefix[at - 1] == '\n');
            assert(false);
        }
        assert(value.subrange(moved, moved + n) =~= text.subrange(at, at + n));
    }
    if at > prefix.len() && line_reads_at(value, word, moved) {
        assert(text.subrange(at, at + n) =~= value.subrange(moved, moved + n));
    }
}

/// Where a line begins depends on the lines before it alone.
pub proof fn lemma_line_offset_agrees(a: Seq<Seq<char>>, b: Seq<Seq<char>>, k: int)
    requires
        k <= a.len(),
        k <= b.len(),
        forall|j: int| 0 <= j < k ==> a[j] == b[j],
    ensures
        line_offset(a, k) == line_offset(b, k),
    decreases k,
{
    if k > 0 {
        lemma_line_offset_agrees(a, b, k - 1);
    }
}

/// The joined text ends with its last line.
pub proof fn lemma_join_lines_len(lines: Seq<Seq<char>>)
    requires
        lines.len() > 0,
    ensures
        join_lines(lines).len() == line_offset(lines, lines.len() - 1) + lines.last().len(),
    decreases lines.len(),
{
    if lines.len() > 1 {
        lemma_join_lines_len(lines.drop_last());
        lemma_line_offset_agrees(lines, lines.drop_last(), lines.len() - 2);
    }
}

/// Joining does not make or lose lines: a line of the joined text begins
/// with `word` exactly where one of the lines does.
pub proof fn lemma_join_lines_line_reads(lines: Seq<Seq<char>>, word: Seq<char>, at: int)
    requires
        is_line_word(word),
    ensures
        line_reads_at(join_lines(lines), word, at) <==> exists|k: int|
            joined_line_reads_at(lines, k, word, at),
    decreases lines.len(),
{
    let last = lines.len() - 1;
    if lines.len() == 1 {
        if line_reads_at(join_lines(lines), word, at) {
            assert(joined_line_reads_at(lines, 0, word, at));
        }
    } else if lines.len() > 1 {
        let front = lines.drop_last();
        lemma_join_lines_line_reads(front, word, at);
        lemma_joined_line_reads(join_lines(front), lines.last(), word, at);
        lemma_join_lines_len(front);
        lemma_line_offset_agrees(lines, front, last - 1);
        assert(line_offset(lines, last) == join_lines(front).len() + 1);
        if line_reads_at(join_lines(lines), word, at) {
            if line_reads_at(join_lines(front), word, at) {
                let k = choose|k: int| joined_line_reads_at(front, k, word, at);
                lemma_line_offset_agrees(lines, front, k);
                assert(joined_line_reads_at(lines, k, word, at));
            } else {
                assert(joined_line_reads_at(lines, last, word, at));
            }
        }
        if exists|k: int| joined_line_reads_at(lines, k, word, at) {
            let k = choose|k: int| joined_line_reads_at(lines, k, word, at);
            if k < last {
                lemma_line_offset_agrees(lines, front, k);
                assert(joined_line_reads_at(front, k, word, at));
            }
        }
    }
}

/// Joining two lists of lines in a row is joining each and then the two
/// texts.
pub proof fn lemma_join_lines_concat(a: Seq<Seq<char>>, b: Seq<Seq<char>>)
    requires
        a.len() > 0,
        b.len() > 0,
    ensures
        join_lines(a + b) == join_lines(a) + line_feed() + join_lines(b),
    decreases b.len(),
{
    assert((a + b).drop_last() =~= a + b.drop_last());
    if b.len() == 1 {
        assert(a + b.drop_last() =~= a);
    } else {
        lemma_join_lines_concat(a, b.drop_last());
    }
    assert(join_lines(a + b) =~= join_lines(a) + line_feed() + join_lines(b));
}

} // verus!
