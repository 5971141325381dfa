//! Character-level operations on strings: comparison, splitting at a
//! separator and joining with one.

use vstd::prelude::*;
use vstd::std_specs::iter::IteratorSpec;

verus! {

/// The pieces of `s` between occurrences of `sep`, in order.  Two adjacent
/// separators enclose an empty piece, as do a separator at either end and the
/// end of the text, so there is always one piece more than there are
/// separators.
pub open spec fn split(s: Seq<char>, sep: char) -> Seq<Seq<char>>
    decreases s.len(),
{
    if s.len() == 0 {
        seq![Seq::empty()]
    } else {
        let before = split(s.drop_last(), sep);
        if s.last() == sep {
            before.push(Seq::empty())
        } else {
            before.drop_last().push(before.last().push(s.last()))
        }
    }
}

/// The pieces written one after another with `sep` between neighbours.
pub open spec fn join(parts: Seq<Seq<char>>, sep: Seq<char>) -> Seq<char>
    decreases parts.len(),
{
    if parts.len() == 0 {
        Seq::empty()
    } else if parts.len() == 1 {
        parts[0]
    } else {
        join(parts.drop_last(), sep) + sep + parts.last()
    }
}

/// Whether `piece` holds no `sep`.
pub open spec fn lacks(piece: Seq<char>, sep: char) -> bool {
    forall|j: int| 0 <= j < piece.len() ==> piece[j] != sep
}

/// Splitting never yields an empty list.
pub proof fn lemma_split_nonempty(s: Seq<char>, sep: char)
    ensures
        split(s, sep).len() >= 1,
    decreases s.len(),
{
    if s.len() > 0 {
        lemma_split_nonempty(s.drop_last(), sep);
    }
}

/// No piece of a split holds the separator.
pub proof fn lemma_split_pieces_lack_separator(s: Seq<char>, sep: char)
    ensures
        forall|k: int| 0 <= k < split(s, sep).len() ==> lacks(#[trigger] split(s, sep)[k], sep),
    decreases s.len(),
{
    if s.len() > 0 {
        lemma_split_nonempty(s.drop_last(), sep);
        lemma_split_pieces_lack_separator(s.drop_last(), sep);
    }
}

/// Joining the pieces of a split with the separator gives the text back.
pub proof fn lemma_join_of_split(s: Seq<char>, sep: char)
    ensures
        join(split(s, sep), seq![sep]) == s,
    decreases s.len(),
{
    if s.len() > 0 {
        let head = s.drop_last();
        let before = split(head, sep);
        lemma_split_nonempty(head, sep);
        lemma_join_of_split(head, sep);
        if s.last() == sep {
            assert(before.push(Seq::empty()).drop_last() == before);
        } else {
            let grown = before.last().push(s.last());
            assert(before.drop_last().push(grown).drop_last() == before.drop_last());
            assert(head.push(s.last()) == s);
        }
    }
}

/// Appending text without the separator lengthens the last piece.
pub proof fn lemma_split_append(s: Seq<char>, tail: Seq<char>, sep: char)
    requires
        lacks(tail, sep),
    ensures
        split(s + tail, sep) == split(s, sep).drop_last().push(split(s, sep).last() + tail),
    decreases tail.len(),
{
    lemma_split_nonempty(s, sep);
    if tail.len() > 0 {
        let shorter = tail.drop_last();
        lemma_split_append(s, shorter, sep);
        assert((s + tail).drop_last() =~= s + shorter);
        assert((split(s, sep).last() + shorter).push(tail.last()) =~= split(s, sep).last() + tail);
    }
}

/// Splitting undoes joining: pieces without the separator, at least one of
/// them, come out of their joined text as they went in.  With
/// `lemma_join_of_split` this says that a split is the one way to cut a
/// text into such pieces.
pub proof fn lemma_split_of_join(pieces: Seq<Seq<char>>, sep: char)
    requires
        pieces.len() >= 1,
        forall|k: int| 0 <= k < pieces.len() ==> lacks(#[trigger] pieces[k], sep),
    ensures
        split(join(pieces, seq![sep]), sep) == pieces,
    decreases pieces.len(),
{
    if pieces.len() == 1 {
        lemma_split_without_separator(pieces[0], sep);
    } else {
        let front = pieces.drop_last();
        lemma_split_of_join(front, sep);
        let opened = join(front, seq![sep]) + seq![sep];
        assert(opened.drop_last() =~= join(front, seq![sep]));
        lemma_split_append(opened, pieces.last(), sep);
    }
}

/// A text without the separator is its own single piece.
pub proof fn lemma_split_without_separator(s: Seq<char>, sep: char)
    requires
        lacks(s, sep),
    ensures
        split(s, sep) == seq![s],
{
    lemma_split_append(Seq::empty(), s, sep);
}

/// Whether two strings hold the same characters.
pub fn same_text(a: &str, b: &str) -> (same: bool)
    ensures
        same == (a@ == b@),
{
    let mut rest = b.chars();
    for c in it: a.chars()
        invariant
            it.seq() == a@,
            rest.obeys_prophetic_iter_laws(),
            it.index() <= b@.len(),
            rest.remaining() == b@.skip(it.index()),
            a@.take(it.index()) == b@.take(it.index()),
    {
        match rest.next() {
            None => {
                return false;
            },
            Some(d) => {
                if c != d {
                    return false;
                }
            },
        }
    }
    assert(a@.take(a@.len() as int) == a@);
    let more = rest.next();
    proof {
        if more is None {
            assert(b@.take(a@.len() as int) == b@);
        }
    }
    more.is_none()
}

/// Whether the first character of `s` is `c`.
pub fn starts_with(s: &str, c: char) -> (yes: bool)
    ensures
        yes == (s@.len() > 0 && s@[0] == c),
{
    !s.is_empty() && s.get_char(0) == c
}

/// Owned copies of the strings of `list`.
pub fn copy_all(list: &Vec<String>) -> (copy: Vec<String>)
    ensures
        copy.deep_view() == list.deep_view(),
{
    let mut copy: Vec<String> = Vec::new();
    let n = list.len();
    let mut i: usize = 0;
    while i < n
        invariant
            i <= n,
            n == list.len(),
            copy.deep_view() == list.deep_view().take(i as int),
        decreases n - i,
    {
        let ghost before = copy.deep_view();
        copy.push(list[i].clone());
        assert(list.deep_view().take(i + 1) =~= before.push(list[i as int]@));
        i = i + 1;
    }
    copy
}

/// The text of `a` followed by that of `b`.
pub fn glue(a: &str, b: &str) -> (both: String)
    ensures
        both@ == a@ + b@,
{
    let mut both = a.to_owned();
    both.append(b);
    both
}

/// Splits `s` at every occurrence of `sep`.
pub fn split_on(s: &str, sep: char) -> (parts: Vec<String>)
    ensures
        parts.deep_view() == split(s@, sep),
{
    let len = s.unicode_len();
    let mut parts: Vec<String> = Vec::new();
    let mut start: usize = 0;
    let mut i: usize = 0;
    for c in it: s.chars()
        invariant
            it.seq() == s@,
            i == it.index(),
            start <= i <= len,
            len == s@.len(),
            split(s@.take(i as int), sep).len() >= 1,
            parts.deep_view() == split(s@.take(i as int), sep).drop_last(),
            split(s@.take(i as int), sep).last() == s@.subrange(start as int, i as int),
    {
        assert(s@.take(i + 1).drop_last() == s@.take(i as int));
        if c == sep {
            let piece = s.substring_char(start, i);
            let ghost before = parts.deep_view();
            parts.push(piece.to_owned());
            start = i + 1;
            assert(split(s@.take(i as int), sep) =~= before.push(piece@));
        }
        i = i + 1;
    }
    let piece = s.substring_char(start, len);
    let ghost before = parts.deep_view();
    parts.push(piece.to_owned());
    proof {
        assert(s@.take(i as int) == s@);
        assert(split(s@, sep) =~= before.push(piece@));
    }
    parts
}

/// Joins `parts` with `sep` between neighbours.
pub fn join_with(parts: &Vec<String>, sep: &str) -> (joined: String)
    ensures
        joined@ == join(parts.deep_view(), sep@),
{
    let mut joined = String::new();
    let n = parts.len();
    let mut i: usize = 0;
    while i < n
        invariant
            i <= n,
            n == parts.len(),
            joined@ == join(parts.deep_view().take(i as int), sep@),
        decreases n - i,
    {
        let ghost upto = parts.deep_view().take(i + 1);
        assert(upto.drop_last() =~= parts.deep_view().take(i as int));
        if i > 0 {
            joined.append(sep);
        }
        joined.append(parts[i].as_str());
        i = i + 1;
    }
    assert(parts.deep_view().take(n as int) =~= parts.deep_view());
    joined
}

} // verus!
