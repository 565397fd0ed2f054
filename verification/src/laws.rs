//! What holds of the editor whatever was typed before.

use crate::key::{completes_line, stroke, typed, Key, KeyInput};
use crate::model::{not_blank, typing, Editor};
use crate::text::is_blank;
use crate::words::{
    all_separators, back_over_separators, forward_over_separators, is_word_char,
    lemma_back_over_separators, lemma_back_over_word, lemma_forward_over_separators,
    lemma_forward_over_word, word_left, word_right,
};
use vstd::prelude::*;

verus! {

/// Typing appends to the text before the cursor and changes nothing else.
pub proof fn lemma_typing_appends(start: Editor, text: Seq<char>)
    ensures
        start.run(typing(text)) == start.with_line(start.before + text, start.after),
    decreases text.len(),
{
    if text.len() == 0 {
        assert(start.before + text =~= start.before);
    } else {
        let head = text.drop_last();
        lemma_typing_appends(start, head);
        assert(typing(text).drop_last() =~= typing(head));
        assert((start.before + head).push(text.last()) =~= start.before + text);
    }
}

/// Typed into an empty line, character by character, a text is the line,
/// and the cursor stands at its end.
pub proof fn lemma_typing_into_empty_line(start: Editor, text: Seq<char>)
    requires
        start.line().len() == 0,
    ensures
        start.run(typing(text)).line() == text,
        start.run(typing(text)).cursor() == text.len(),
{
    lemma_typing_appends(start, text);
    assert(start.before + text + start.after =~= text);
    assert(start.before + text =~= text);
}

/// Backspace undoes the typing of a character: the editor is as it was.
pub proof fn lemma_backspace_undoes_typing(start: Editor, c: char)
    ensures
        start.step(typed(c)).0.step(stroke(Key::Backspace, false, false)).0 == start,
{
    assert(start.before.push(c).drop_last() =~= start.before);
}

/// Delete undoes the typing of a character once the cursor has stepped back
/// over it: the editor is as it was.
pub proof fn lemma_delete_undoes_typing(start: Editor, c: char)
    ensures
        start.step(typed(c)).0.step(stroke(Key::Left, false, false)).0.step(
            stroke(Key::Delete, false, false),
        ).0 == start,
{
    assert(start.before.push(c).drop_last() =~= start.before);
    assert((seq![c] + start.after).drop_first() =~= start.after);
}

/// The lines from which a word-wise move to the left and then one to the
/// right lead back to the same split: the cursor stands at the end of a
/// word and no word character follows it, or nothing follows it and no
/// word stands before it.
pub open spec fn at_word_end(editor: Editor) -> bool {
    ||| editor.before.len() > 0 && is_word_char(editor.before.last()) && (editor.after.len() == 0
        || !is_word_char(editor.after[0]))
    ||| editor.after.len() == 0 && all_separators(editor.before, 0, editor.before.len() as int)
}

/// A word-wise move to the left followed by one to the right restores the
/// split, the history and the future exactly where the cursor stood at the
/// end of a word, and nowhere else.
pub proof fn lemma_word_jumps_round_trip(start: Editor)
    ensures
        at_word_end(start) <==> start.step(stroke(Key::Left, true, false)).0.step(
            stroke(Key::Right, true, false),
        ).0 == start,
{
    let b = start.before;
    let a = start.after;
    let len = b.len() as int;
    let t = back_over_separators(b, len);
    let k = word_left(b);
    lemma_back_over_separators(b, len, 0);
    lemma_back_over_word(b, t, 0);
    let moved = b.subrange(k, len) + a;
    let left = start.jump_left();
    assert(left.after == moved);
    let u = forward_over_separators(moved, 0);
    let r = word_right(moved);
    lemma_forward_over_separators(moved, 0, 0);
    lemma_forward_over_word(moved, u, 0);
    let back = left.jump_right();
    assert forall|i: int| 0 <= i < len - k implies moved[i] == b[k + i] by {}
    assert forall|i: int| 0 <= i < a.len() implies moved[len - k + i] == a[i] by {}
    if back == start {
        assert(back.before.len() == k + r);
        assert(r == len - k);
    }
    if r == len - k {
        assert(back.before =~= b);
        assert(back.after =~= a);
    }
    if t == 0 {
        assert(k == 0);
        if a.len() == 0 {
            assert(moved =~= b);
            lemma_forward_over_separators(moved, 0, len);
            lemma_forward_over_word(moved, len, len);
        } else {
            if u < len {
                assert(is_word_char(moved[u]));
                assert(!is_word_char(b[u]));
            }
            if len > 0 {
                assert(!is_word_char(b[len - 1]));
            }
        }
    } else {
        assert(is_word_char(b[t - 1]));
        assert(k < t);
        assert(is_word_char(moved[0]));
        assert(u == 0);
        if t < len {
            assert(!is_word_char(b[len - 1]));
            assert(!is_word_char(moved[t - k]));
            lemma_forward_over_word(moved, 0, t - k);
        } else {
            if a.len() == 0 || !is_word_char(a[0]) {
                lemma_forward_over_word(moved, 0, len - k);
            } else {
                assert(moved[len - k] == a[0]);
            }
        }
    }
}

/// Recalling the older line and then the newer one restores the line, the
/// history and the future, and leaves the cursor at the end of the line.
/// This holds wherever there is an older line, and where there is neither
/// an older nor a newer one.
pub proof fn lemma_recall_round_trip(start: Editor)
    requires
        start.history.len() > 0 || start.future.len() == 0,
    ensures
        ({
            let back = start.step(stroke(Key::Up, false, false)).0.step(
                stroke(Key::Down, false, false),
            ).0;
            &&& back.line() == start.line()
            &&& back.history == start.history
            &&& back.future == start.future
            &&& start.history.len() > 0 ==> back.cursor() == start.line().len()
        }),
{
    if start.history.len() > 0 {
        let up = start.older();
        let back = up.newer();
        assert(up.future.drop_last() =~= start.future);
        assert(up.line() =~= start.history.last());
        assert(up.history.push(up.line()) =~= start.history);
        assert(back.line() =~= start.line());
    }
}

/// After a line has been submitted and a text typed, recalling the older
/// line and then the newer one restores the typed text, the history and
/// the empty future.
pub proof fn lemma_recall_round_trip_after_submit(earlier: Editor, text: Seq<char>)
    ensures
        ({
            let fresh = earlier.step(stroke(Key::Enter, false, false)).0;
            let edited = fresh.run(typing(text));
            let back = edited.step(stroke(Key::Up, false, false)).0.step(
                stroke(Key::Down, false, false),
            ).0;
            &&& fresh.line().len() == 0
            &&& fresh.future.len() == 0
            &&& edited.line() == text
            &&& back.line() == text
            &&& back.history == edited.history
            &&& back.future == edited.future
        }),
{
    let fresh = earlier.step(stroke(Key::Enter, false, false)).0;
    lemma_typing_appends(fresh, text);
    lemma_typing_into_empty_line(fresh, text);
    lemma_recall_round_trip(fresh.run(typing(text)));
}

/// A key stroke ends with a completed line exactly when it is a press of
/// Enter, whatever the editor holds.
pub proof fn lemma_only_enter_completes_the_line(editor: Editor, input: KeyInput)
    ensures
        editor.step(input).1 is Submit <==> completes_line(input),
{
}

/// A line that is not blank, submitted while the future is empty, is stored
/// once, at the end of the history; a blank one leaves the history as it is.
pub proof fn lemma_submit_stores_the_line(start: Editor)
    requires
        start.future.len() == 0,
    ensures
        start.step(stroke(Key::Enter, false, false)).0.history == if is_blank(start.line()) {
            start.history
        } else {
            start.history.push(start.line())
        },
{
    reveal(Seq::filter);
    let next = start.commit();
    assert(start.future.reverse() =~= Seq::empty());
    assert(next.history =~= if is_blank(start.line()) {
        start.history
    } else {
        start.history.push(start.line())
    });
}

/// Submitting a line keeps the history that was there and adds no blank
/// line to it, but for the submitted line itself, and that only as the
/// first line added and only where the future was not empty.
pub proof fn lemma_commit_adds_no_blank_line(start: Editor)
    ensures
        ({
            let next = start.step(stroke(Key::Enter, false, false)).0;
            let old_len = start.history.len() as int;
            &&& next.history.len() >= old_len
            &&& next.history.subrange(0, old_len) == start.history
            &&& forall|i: int|
                old_len <= i < next.history.len() && is_blank(#[trigger] next.history[i]) ==> i
                    == old_len && start.future.len() > 0 && next.history[i] == start.line()
        }),
{
    let next = start.commit();
    let old_len = start.history.len() as int;
    let kept = start.future.reverse().filter(not_blank());
    assert(next.history.subrange(0, old_len) =~= start.history);
    let lead: int = if start.future.len() > 0 {
        1
    } else {
        0
    };
    assert forall|i: int|
        old_len <= i < next.history.len() && is_blank(#[trigger] next.history[i]) implies i
        == old_len && start.future.len() > 0 && next.history[i] == start.line() by {
        let j = i - old_len - lead;
        if 0 <= j < kept.len() {
            start.future.reverse().lemma_filter_pred(not_blank(), j);
            assert(next.history[i] == kept[j]);
        }
    }
}

} // verus!
