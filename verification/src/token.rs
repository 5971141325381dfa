//! Splitting an input line into tokens at white space.

use vstd::prelude::*;

verus! {

/// Whether `c` is white space: a character with the Unicode property
/// `White_Space`.
pub open spec fn is_space(c: char) -> bool {
    ||| '\u{9}' <= c <= '\u{d}'
    ||| c == ' '
    ||| c == '\u{85}'
    ||| c == '\u{a0}'
    ||| c == '\u{1680}'
    ||| '\u{2000}' <= c <= '\u{200a}'
    ||| c == '\u{2028}'
    ||| c == '\u{2029}'
    ||| c == '\u{202f}'
    ||| c == '\u{205f}'
    ||| c == '\u{3000}'
}

/// The tokens of a line: its maximal runs of characters that are not white
/// space, in order.
pub open spec fn tokens(line: Seq<char>) -> Seq<Seq<char>>
    decreases line.len(),
{
    if line.len() == 0 {
        Seq::empty()
    } else {
        let before = tokens(line.drop_last());
        if is_space(line.last()) {
            before
        } else if line.len() >= 2 && !is_space(line[line.len() - 2]) {
            before.drop_last().push(before.last().push(line.last()))
        } else {
            before.push(seq![line.last()])
        }
    }
}

/// Whether `text` holds no white space.
pub open spec fn space_free(text: Seq<char>) -> bool {
    forall|i: int| 0 <= i < text.len() ==> !is_space(#[trigger] text[i])
}

/// Every token holds at least one character and no white space, and a line
/// that ends in a token character ends in its last token.
pub proof fn lemma_tokens_are_words(line: Seq<char>)
    ensures
        forall|k: int|
            0 <= k < tokens(line).len() ==> (#[trigger] tokens(line)[k]).len() > 0 && space_free(
                tokens(line)[k],
            ),
        line.len() > 0 && !is_space(line.last()) ==> tokens(line).len() > 0,
    decreases line.len(),
{
    if line.len() > 0 {
        let head = line.drop_last();
        let before = tokens(head);
        let c = line.last();
        lemma_tokens_are_words(head);
        if !is_space(c) {
            if line.len() >= 2 && !is_space(line[line.len() - 2]) {
                assert(head.last() == line[line.len() - 2]);
                assert(space_free(before.last()));
                assert(space_free(before.last().push(c)));
            } else {
                assert(space_free(seq![c]));
            }
        }
    }
}

/// A line has no tokens exactly when it holds nothing but white space.
pub proof fn lemma_blank_line_has_no_tokens(line: Seq<char>)
    ensures
        tokens(line).len() == 0 <==> forall|i: int| 0 <= i < line.len() ==> is_space(
            #[trigger] line[i],
        ),
    decreases line.len(),
{
    if line.len() > 0 {
        let head = line.drop_last();
        lemma_blank_line_has_no_tokens(head);
        lemma_tokens_are_words(head);
        if is_space(line.last()) {
            if tokens(line).len() == 0 {
                assert forall|i: int| 0 <= i < line.len() implies is_space(#[trigger] line[i]) by {
                    if i < head.len() {
                        assert(head[i] == line[i]);
                    }
                }
            }
        }
    }
}

/// The tokens of two lines with white space between them are the tokens of
/// the one followed by those of the other: how much white space parts two
/// tokens is of no account.
pub proof fn lemma_tokens_around_space(left: Seq<char>, space: char, right: Seq<char>)
    requires
        is_space(space),
    ensures
        tokens(left + seq![space] + right) == tokens(left) + tokens(right),
    decreases right.len(),
{
    let all = left + seq![space] + right;
    if right.len() == 0 {
        assert(all.drop_last() =~= left);
    } else {
        let head = right.drop_last();
        lemma_tokens_around_space(left, space, head);
        lemma_tokens_are_words(head);
        assert(all.drop_last() =~= left + seq![space] + head);
    }
}

/// Whether `gap` is a run of white space, one character or more.
pub open spec fn is_gap(gap: Seq<char>) -> bool {
    gap.len() > 0 && forall|i: int| 0 <= i < gap.len() ==> is_space(#[trigger] gap[i])
}

/// However much white space stands between two lines, the tokens are those
/// of the one followed by those of the other.
pub proof fn lemma_tokens_around_gap(left: Seq<char>, gap: Seq<char>, right: Seq<char>)
    requires
        is_gap(gap),
    ensures
        tokens(left + gap + right) == tokens(left) + tokens(right),
    decreases gap.len(),
{
    let first = gap[0];
    let more = gap.skip(1);
    assert(is_space(first));
    if more.len() == 0 {
        assert(gap =~= seq![first]);
        lemma_tokens_around_space(left, first, right);
    } else {
        assert(is_gap(more)) by {
            assert forall|i: int| 0 <= i < more.len() implies is_space(#[trigger] more[i]) by {
                assert(more[i] == gap[i + 1]);
            }
        }
        assert(left + gap + right =~= left + seq![first] + (more + right));
        lemma_tokens_around_space(left, first, more + right);
        assert(more + right =~= Seq::<char>::empty() + more + right);
        lemma_tokens_around_gap(Seq::empty(), more, right);
        assert(tokens(Seq::<char>::empty()) + tokens(right) =~= tokens(right));
    }
}

/// Whether `c` is white space.
pub fn is_whitespace(c: char) -> (space: bool)
    ensures
        space == is_space(c),
{
    ('\u{9}' <= c && c <= '\u{d}') || c == ' ' || c == '\u{85}' || c == '\u{a0}' || c
        == '\u{1680}' || ('\u{2000}' <= c && c <= '\u{200a}') || c == '\u{2028}' || c
        == '\u{2029}' || c == '\u{202f}' || c == '\u{205f}' || c == '\u{3000}'
}

/// Splits a line into its tokens.
pub fn tokenize<'a>(line: &'a str) -> (words: Vec<&'a str>)
    ensures
        words.deep_view() == tokens(line@),
{
    let len = line.unicode_len();
    let mut words: Vec<&'a str> = Vec::new();
    let mut inside = false;
    let mut start: usize = 0;
    let mut i: usize = 0;
    for c in it: line.chars()
        invariant
            it.seq() == line@,
            i == it.index(),
            i <= len,
            len == line@.len(),
            inside ==> i > 0 && start < i && !is_space(line@[i - 1]) && tokens(
                line@.take(i as int),
            ).len() > 0 && words.deep_view() == tokens(line@.take(i as int)).drop_last() && tokens(
                line@.take(i as int),
            ).last() == line@.subrange(start as int, i as int),
            !inside ==> (i == 0 || is_space(line@[i - 1])) && words.deep_view() == tokens(
                line@.take(i as int),
            ),
    {
        assert(line@.take(i + 1).drop_last() =~= line@.take(i as int));
        if is_whitespace(c) {
            if inside {
                let word = line.substring_char(start, i);
                let ghost before = words.deep_view();
                words.push(word);
                inside = false;
                assert(tokens(line@.take(i as int)) =~= before.push(word@));
            }
        } else if !inside {
            inside = true;
            start = i;
        }
        i = i + 1;
    }
    assert(line@.take(i as int) == line@);
    if inside {
        let word = line.substring_char(start, len);
        let ghost before = words.deep_view();
        words.push(word);
        assert(tokens(line@) =~= before.push(word@));
    }
    words
}

} // verus!
