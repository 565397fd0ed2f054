//! Lines of text as sequences of characters: blank lines, and the `String`
//! that holds the characters of a line.

use vstd::prelude::*;

verus! {

/// Whether `c` is whitespace as Unicode defines it (`White_Space`): the
/// controls from tab to carriage return, the space, next line, the
/// no-break spaces, the Ogham space mark, the spaces of fixed width, the
/// line and paragraph separators, the medium mathematical space and the
/// ideographic space.
pub open spec fn is_whitespace(c: char) -> bool {
    ||| ('\u{9}' <= c && c <= '\u{d}')
    ||| c == ' '
    ||| c == '\u{85}'
    ||| c == '\u{a0}'
    ||| c == '\u{1680}'
    ||| ('\u{2000}' <= c && c <= '\u{200a}')
    ||| ('\u{2028}' <= c && c <= '\u{2029}')
    ||| c == '\u{202f}'
    ||| c == '\u{205f}'
    ||| c == '\u{3000}'
}

/// A line is blank when it is empty or holds nothing but whitespace.
pub open spec fn is_blank(line: Seq<char>) -> bool {
    forall|i: int| 0 <= i < line.len() ==> is_whitespace(#[trigger] line[i])
}

/// Calls `char::is_whitespace`, which answers whether a character has
/// Unicode's `White_Space`. The contract lists the characters that have it.
#[verifier::external_body]
fn char_is_whitespace(c: char) -> (white: bool)
    ensures
        white == is_whitespace(c),
{
    c.is_whitespace()
}

/// Calls `String::push`, which appends one character to the end of the
/// string.
#[verifier::external_body]
fn string_push(text: &mut String, c: char)
    ensures
        final(text)@ == old(text)@.push(c),
{
    text.push(c)
}

/// Whether `line` is empty or holds nothing but whitespace.
pub fn blank(line: &Vec<char>) -> (yes: bool)
    ensures
        yes == is_blank(line@),
{
    let mut i: usize = 0;
    while i < line.len()
        invariant
            i <= line@.len(),
            forall|k: int| 0 <= k < i ==> is_whitespace(#[trigger] line@[k]),
        decreases line@.len() - i,
    {
        if !char_is_whitespace(line[i]) {
            return false;
        }
        i += 1;
    }
    true
}

/// The string that holds the characters of `line`, in their order.
pub fn to_string(line: &Vec<char>) -> (text: String)
    ensures
        text@ == line@,
{
    let mut text = String::new();
    let mut i: usize = 0;
    while i < line.len()
        invariant
            i <= line@.len(),
            text@ == line@.subrange(0, i as int),
        decreases line@.len() - i,
    {
        string_push(&mut text, line[i]);
        proof {
            assert(line@.subrange(0, i + 1) =~= line@.subrange(0, i as int).push(line@[i as int]));
        }
        i += 1;
    }
    proof {
        assert(line@.subrange(0, line@.len() as int) =~= line@);
    }
    text
}

/// The strings that hold the lines of `lines`, in their order.
pub fn to_strings(lines: &Vec<Vec<char>>) -> (texts: Vec<String>)
    ensures
        texts.deep_view() == lines.deep_view(),
{
    let mut texts: Vec<String> = Vec::new();
    let mut i: usize = 0;
    while i < lines.len()
        invariant
            i <= lines@.len(),
            texts@.len() == i,
            forall|k: int| 0 <= k < i ==> (#[trigger] texts@[k])@ == lines@[k]@,
        decreases lines@.len() - i,
    {
        let text = to_string(&lines[i]);
        texts.push(text);
        i += 1;
    }
    proof {
        assert(texts.deep_view() =~~= lines.deep_view());
    }
    texts
}

} // verus!
