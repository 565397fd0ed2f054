//! Words: maximal runs of ASCII letters and digits, and how far a word-wise
//! move of the cursor reaches.
//!
//! A word-wise move to the left first passes the separators that stand
//! directly before the cursor and then the word before them. A move to the
//! right does the same in the other direction.

use vstd::prelude::*;

verus! {

/// A word character is an ASCII letter or an ASCII digit.
pub open spec fn is_word_char(c: char) -> bool {
    ('0' <= c && c <= '9') || ('a' <= c && c <= 'z') || ('A' <= c && c <= 'Z')
}

/// Whether `c` separates words: everything but ASCII letters and digits does.
pub fn not_word_char(c: char) -> (boundary: bool)
    ensures
        boundary == !is_word_char(c),
{
    !(('0' <= c && c <= '9') || ('a' <= c && c <= 'z') || ('A' <= c && c <= 'Z'))
}

/// The position reached from `i` by walking left over separators.
pub open spec fn back_over_separators(s: Seq<char>, i: int) -> int
    decreases i,
{
    if i <= 0 {
        0
    } else if is_word_char(s[i - 1]) {
        i
    } else {
        back_over_separators(s, i - 1)
    }
}

/// The position reached from `i` by walking left over word characters.
pub open spec fn back_over_word(s: Seq<char>, i: int) -> int
    decreases i,
{
    if i <= 0 {
        0
    } else if !is_word_char(s[i - 1]) {
        i
    } else {
        back_over_word(s, i - 1)
    }
}

/// The position reached from `i` by walking right over separators.
pub open spec fn forward_over_separators(s: Seq<char>, i: int) -> int
    decreases s.len() - i,
{
    if i >= s.len() {
        s.len() as int
    } else if is_word_char(s[i]) {
        i
    } else {
        forward_over_separators(s, i + 1)
    }
}

/// The position reached from `i` by walking right over word characters.
pub open spec fn forward_over_word(s: Seq<char>, i: int) -> int
    decreases s.len() - i,
{
    if i >= s.len() {
        s.len() as int
    } else if !is_word_char(s[i]) {
        i
    } else {
        forward_over_word(s, i + 1)
    }
}

/// Where a word-wise move to the left lands, for a cursor at the end of `s`.
pub open spec fn word_left(s: Seq<char>) -> int {
    back_over_word(s, back_over_separators(s, s.len() as int))
}

/// Where a word-wise move to the right lands, for a cursor at the start of `s`.
pub open spec fn word_right(s: Seq<char>) -> int {
    forward_over_word(s, forward_over_separators(s, 0))
}

/// Every character of `s` from `from` up to `to` is a separator.
pub open spec fn all_separators(s: Seq<char>, from: int, to: int) -> bool {
    forall|k: int| from <= k < to ==> !is_word_char(#[trigger] s[k])
}

/// Every character of `s` from `from` up to `to` is a word character.
pub open spec fn all_word_chars(s: Seq<char>, from: int, to: int) -> bool {
    forall|k: int| from <= k < to ==> is_word_char(#[trigger] s[k])
}

/// `j` is where the separators that end at `i` begin.
pub open spec fn separators_begin_at(s: Seq<char>, j: int, i: int) -> bool {
    &&& 0 <= j <= i
    &&& all_separators(s, j, i)
    &&& j == 0 || is_word_char(s[j - 1])
}

/// `j` is where the word characters that end at `i` begin.
pub open spec fn word_begins_at(s: Seq<char>, j: int, i: int) -> bool {
    &&& 0 <= j <= i
    &&& all_word_chars(s, j, i)
    &&& j == 0 || !is_word_char(s[j - 1])
}

/// `j` is where the separators that begin at `i` end.
pub open spec fn separators_end_at(s: Seq<char>, i: int, j: int) -> bool {
    &&& i <= j <= s.len()
    &&& all_separators(s, i, j)
    &&& j == s.len() || is_word_char(s[j])
}

/// `j` is where the word characters that begin at `i` end.
pub open spec fn word_ends_at(s: Seq<char>, i: int, j: int) -> bool {
    &&& i <= j <= s.len()
    &&& all_word_chars(s, i, j)
    &&& j == s.len() || !is_word_char(s[j])
}

/// Walking left over separators stops at the one position where the run of
/// separators before `i` begins.
pub proof fn lemma_back_over_separators(s: Seq<char>, i: int, j: int)
    requires
        0 <= i <= s.len(),
    ensures
        separators_begin_at(s, back_over_separators(s, i), i),
        separators_begin_at(s, j, i) ==> j == back_over_separators(s, i),
    decreases i,
{
    if i > 0 && !is_word_char(s[i - 1]) {
        lemma_back_over_separators(s, i - 1, j);
        if separators_begin_at(s, j, i) && j == i {
            assert(is_word_char(s[j - 1]));
        }
    } else if separators_begin_at(s, j, i) && j < i {
        assert(!is_word_char(s[i - 1]));
    }
}

/// Walking left over word characters stops at the one position where the
/// word before `i` begins.
pub proof fn lemma_back_over_word(s: Seq<char>, i: int, j: int)
    requires
        0 <= i <= s.len(),
    ensures
        word_begins_at(s, back_over_word(s, i), i),
        word_begins_at(s, j, i) ==> j == back_over_word(s, i),
    decreases i,
{
    if i > 0 && is_word_char(s[i - 1]) {
        lemma_back_over_word(s, i - 1, j);
        if word_begins_at(s, j, i) && j == i {
            assert(!is_word_char(s[j - 1]));
        }
    } else if word_begins_at(s, j, i) && j < i {
        assert(is_word_char(s[i - 1]));
    }
}

/// Walking right over separators stops at the one position where the run
/// of separators from `i` on ends.
pub proof fn lemma_forward_over_separators(s: Seq<char>, i: int, j: int)
    requires
        0 <= i <= s.len(),
    ensures
        separators_end_at(s, i, forward_over_separators(s, i)),
        separators_end_at(s, i, j) ==> j == forward_over_separators(s, i),
    decreases s.len() - i,
{
    if i < s.len() && !is_word_char(s[i]) {
        lemma_forward_over_separators(s, i + 1, j);
        if separators_end_at(s, i, j) && j == i {
            assert(is_word_char(s[j]));
        }
    } else if separators_end_at(s, i, j) && j > i {
        assert(!is_word_char(s[i]));
    }
}

/// Walking right over word characters stops at the one position where the
/// word from `i` on ends.
pub proof fn lemma_forward_over_word(s: Seq<char>, i: int, j: int)
    requires
        0 <= i <= s.len(),
    ensures
        word_ends_at(s, i, forward_over_word(s, i)),
        word_ends_at(s, i, j) ==> j == forward_over_word(s, i),
    decreases s.len() - i,
{
    if i < s.len() && is_word_char(s[i]) {
        lemma_forward_over_word(s, i + 1, j);
        if word_ends_at(s, i, j) && j == i {
            assert(!is_word_char(s[j]));
        }
    } else if word_ends_at(s, i, j) && j > i {
        assert(is_word_char(s[i]));
    }
}

/// The position before the cursor at the end of `line` where a word-wise
/// move to the left lands.
pub fn word_start(line: &Vec<char>) -> (start: usize)
    ensures
        start as int == word_left(line@),
        start <= line@.len(),
{
    let mut end: usize = line.len();
    while end > 0 && not_word_char(line[end - 1])
        invariant
            end <= line@.len(),
            back_over_separators(line@, end as int) == back_over_separators(
                line@,
                line@.len() as int,
            ),
        decreases end,
    {
        end -= 1;
    }
    let mut start: usize = end;
    while start > 0 && !not_word_char(line[start - 1])
        invariant
            start <= end,
            end <= line@.len(),
            back_over_word(line@, start as int) == back_over_word(line@, end as int),
        decreases start,
    {
        start -= 1;
    }
    start
}

/// The position after the cursor at the start of `line` where a word-wise
/// move to the right lands.
pub fn word_end(line: &Vec<char>) -> (end: usize)
    ensures
        end as int == word_right(line@),
        end <= line@.len(),
{
    let mut start: usize = 0;
    while start < line.len() && not_word_char(line[start])
        invariant
            start <= line@.len(),
            forward_over_separators(line@, start as int) == forward_over_separators(line@, 0),
        decreases line@.len() - start,
    {
        start += 1;
    }
    let mut end: usize = start;
    while end < line.len() && !not_word_char(line[end])
        invariant
            start <= end,
            end <= line@.len(),
            forward_over_word(line@, end as int) == forward_over_word(line@, start as int),
        decreases line@.len() - end,
    {
        end += 1;
    }
    end
}

} // verus!
