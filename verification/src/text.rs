//! Text as sequences of characters: finding a character, splitting on a
//! separator, and cutting a text into lines.

use vstd::prelude::*;

verus! {

/// Index of the first `c` in `s`; the length of `s` where it holds none.
pub open spec fn first_index_of(s: Seq<char>, c: char) -> nat
    decreases s.len(),
{
    if s.len() == 0 || s[0] == c {
        0
    } else {
        1 + first_index_of(s.drop_first(), c)
    }
}

/// The pieces of `s` between the occurrences of `sep`. There is always at
/// least one piece; a piece may be empty.
pub open spec fn split_on(s: Seq<char>, sep: char) -> Seq<Seq<char>>
    decreases s.len(),
{
    let at = first_index_of(s, sep) as int;
    if at >= s.len() {
        seq![s]
    } else {
        seq![s.take(at)] + split_on(s.skip(at + 1), sep)
    }
}

/// A line without the carriage return that stood before its line feed.
pub open spec fn strip_cr(line: Seq<char>) -> Seq<char> {
    if line.len() > 0 && line.last() == '\r' {
        line.drop_last()
    } else {
        line
    }
}

/// The lines of a text. A line ends at a line feed, or at a carriage return
/// directly followed by one; neither belongs to the line. The last line
/// needs no line ending, and a text that ends in one has no further, empty
/// line after it.
pub open spec fn lines_of(text: Seq<char>) -> Seq<Seq<char>>
    decreases text.len(),
{
    let at = first_index_of(text, '\n') as int;
    if text.len() == 0 {
        Seq::empty()
    } else if at >= text.len() {
        seq![text]
    } else {
        seq![strip_cr(text.take(at))] + lines_of(text.skip(at + 1))
    }
}

/// `first_index_of` is the one index that holds `c` and has no `c` before
/// it, or the length where `c` does not occur.
pub proof fn lemma_first_index_of(s: Seq<char>, c: char, k: int)
    requires
        0 <= k <= s.len(),
        forall|j: int| 0 <= j < k ==> s[j] != c,
        k == s.len() || s[k] == c,
    ensures
        first_index_of(s, c) == k,
    decreases s.len(),
{
    if k > 0 {
        let rest = s.drop_first();
        assert forall|j: int| 0 <= j < k - 1 implies rest[j] != c by {
            assert(rest[j] == s[j + 1]);
        }
        lemma_first_index_of(rest, c, k - 1);
    }
}

/// `first_index_of` stays within the sequence, points at `c` where it is
/// inside, and has no `c` before it.
pub proof fn lemma_first_index_of_bounds(s: Seq<char>, c: char)
    ensures
        first_index_of(s, c) <= s.len(),
        first_index_of(s, c) < s.len() ==> s[first_index_of(s, c) as int] == c,
        forall|j: int| 0 <= j < first_index_of(s, c) ==> s[j] != c,
    decreases s.len(),
{
    if !(s.len() == 0 || s[0] == c) {
        let rest = s.drop_first();
        lemma_first_index_of_bounds(rest, c);
        assert forall|j: int| 0 <= j < first_index_of(s, c) implies s[j] != c by {
            if j > 0 {
                assert(s[j] == rest[j - 1]);
            }
        }
    }
}

/// Whether `c` occurs nowhere in `s`.
pub open spec fn free_of(s: Seq<char>, c: char) -> bool {
    forall|i: int| 0 <= i < s.len() ==> s[i] != c
}

/// The pieces put together again, with `sep` between each two.
pub open spec fn join(pieces: Seq<Seq<char>>, sep: char) -> Seq<char>
    decreases pieces.len(),
{
    if pieces.len() == 0 {
        Seq::empty()
    } else if pieces.len() == 1 {
        pieces[0]
    } else {
        pieces[0] + seq![sep] + join(pieces.drop_first(), sep)
    }
}

/// Splitting loses nothing and leaves no separator behind: no piece holds
/// the separator, and the pieces joined by it are the text that was split.
pub proof fn lemma_split_on_join(s: Seq<char>, sep: char)
    ensures
        split_on(s, sep).len() >= 1,
        forall|i: int| 0 <= i < split_on(s, sep).len() ==> free_of(#[trigger] split_on(s, sep)[i], sep),
        join(split_on(s, sep), sep) == s,
    decreases s.len(),
{
    let at = first_index_of(s, sep) as int;
    lemma_first_index_of_bounds(s, sep);
    if at < s.len() {
        let head = s.take(at);
        let tail = s.skip(at + 1);
        let rest = split_on(tail, sep);
        let pieces = seq![head] + rest;
        lemma_split_on_join(tail, sep);
        assert(pieces.drop_first() =~= rest);
        assert(pieces[0] == head);
        assert(join(pieces, sep) == head + seq![sep] + join(rest, sep));
        assert(head + seq![sep] + tail =~= s);
        assert forall|i: int| 0 <= i < pieces.len() implies free_of(#[trigger] pieces[i], sep) by {
            if i > 0 {
                assert(pieces[i] == rest[i - 1]);
            }
        }
    }
}

/// A text without the separator is its own single piece.
pub proof fn lemma_split_on_whole(s: Seq<char>, sep: char)
    requires
        free_of(s, sep),
    ensures
        split_on(s, sep) == seq![s],
{
    lemma_first_index_of(s, sep, s.len() as int);
}

/// No line holds a line feed, and a text without one is its own single
/// line unless it is empty.
pub proof fn lemma_lines_of(text: Seq<char>)
    ensures
        forall|i: int| 0 <= i < lines_of(text).len() ==> free_of(#[trigger] lines_of(text)[i], '\n'),
        free_of(text, '\n') && text.len() > 0 ==> lines_of(text) == seq![text],
        text.len() == 0 ==> lines_of(text).len() == 0,
    decreases text.len(),
{
    let at = first_index_of(text, '\n') as int;
    lemma_first_index_of_bounds(text, '\n');
    if text.len() > 0 && at < text.len() {
        let head = strip_cr(text.take(at));
        let rest = lines_of(text.skip(at + 1));
        let lines = seq![head] + rest;
        lemma_lines_of(text.skip(at + 1));
        assert forall|i: int| 0 <= i < lines.len() implies free_of(#[trigger] lines[i], '\n') by {
            if i > 0 {
                assert(lines[i] == rest[i - 1]);
            }
        }
    } else if text.len() > 0 {
        lemma_first_index_of(text, '\n', text.len() as int);
    }
}

/// The characters of a text, one by one.
pub fn collect_chars(text: &str) -> (chars: Vec<char>)
    ensures
        chars@ == text@,
{
    let mut chars: Vec<char> = Vec::new();
    for c in it: text.chars()
        invariant
            it.seq() == text@,
            chars@ == it.seq().take(it.index()),
    {
        chars.push(c);
    }
    chars
}

/// `String::push` appends the character to the text: what std documents of
/// it, and not proved here.
pub assume_specification[ String::push ](text: &mut String, ch: char)
    ensures
        final(text)@ == old(text)@.push(ch),
;

/// Index of the first `c` in `chars[start..end]`, or `end` where that range
/// holds none.
pub(crate) fn find_from(chars: &Vec<char>, start: usize, end: usize, c: char) -> (at: usize)
    requires
        start <= end <= chars.len(),
    ensures
        at == start + first_index_of(chars@.subrange(start as int, end as int), c),
        start <= at <= end,
{
    let mut at: usize = start;
    while at < end && chars[at] != c
        invariant
            start <= at <= end <= chars.len(),
            forall|j: int| start <= j < at ==> chars@[j] != c,
        decreases end - at,
    {
        at += 1;
    }
    proof {
        let range = chars@.subrange(start as int, end as int);
        lemma_first_index_of(range, c, at - start);
    }
    at
}

/// The text made of `chars[start..end]`.
pub(crate) fn string_of(chars: &Vec<char>, start: usize, end: usize) -> (text: String)
    requires
        start <= end <= chars.len(),
    ensures
        text@ == chars@.subrange(start as int, end as int),
{
    let mut text = String::new();
    let mut i: usize = start;
    while i < end
        invariant
            start <= i <= end <= chars.len(),
            text@ == chars@.subrange(start as int, i as int),
        decreases end - i,
    {
        text.push(chars[i]);
        i += 1;
        assert(chars@.subrange(start as int, i as int) =~= chars@.subrange(
            start as int,
            i - 1,
        ).push(chars@[i - 1]));
    }
    text
}

} // verus!
