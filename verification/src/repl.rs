//! The line editor: the state that the key strokes change.

use crate::key::{decoded, Key, KeyInput};
use crate::model::{not_blank, Editor, Effect};
use crate::text::{blank, to_string, to_strings};
use crate::words::{word_end, word_left, word_right, word_start};
use crossterm::event::KeyEvent;
use vstd::prelude::*;

verus! {

/// The lines that `lines` holds, each as its sequence of characters.
pub open spec fn lines_of(lines: Seq<Vec<char>>) -> Seq<Seq<char>> {
    Seq::new(lines.len(), |i: int| lines[i]@)
}

/// What the caller is to do after a key stroke.
#[derive(Debug, PartialEq, Eq)]
pub enum Action {
    /// Nothing: the screen is up to date.
    Idle,
    /// Paint the line again.
    Render,
    /// The line is complete: this is its text.
    Submit(String),
    /// The user asked to leave.
    Interrupt,
}

impl View for Action {
    type V = Effect;

    open spec fn view(&self) -> Effect {
        match self {
            Action::Idle => Effect::Idle,
            Action::Render => Effect::Render,
            Action::Submit(line) => Effect::Submit(line@),
            Action::Interrupt => Effect::Interrupt,
        }
    }
}

/// A line editor: the line under edit, split at the cursor, the history of
/// earlier lines and the lines left behind while recalling them.
pub struct Repl {
    before: Vec<char>,
    after: Vec<char>,
    history: Vec<Vec<char>>,
    future: Vec<Vec<char>>,
}

impl View for Repl {
    type V = Editor;

    closed spec fn view(&self) -> Editor {
        Editor {
            before: self.before@,
            after: self.after@,
            history: lines_of(self.history@),
            future: lines_of(self.future@),
        }
    }
}

impl Repl {
    /// An editor with an empty line and no earlier lines.
    pub fn new() -> (repl: Repl)
        ensures
            repl@ == Editor::initial(),
    {
        let repl = Repl {
            before: Vec::new(),
            after: Vec::new(),
            history: Vec::new(),
            future: Vec::new(),
        };
        proof {
            assert(lines_of(repl.history@) =~= Seq::empty());
            assert(lines_of(repl.future@) =~= Seq::empty());
        }
        repl
    }

    /// Cuts the separators before the cursor and the word before them out
    /// of the line.
    fn cut_word_left(&mut self) -> (word: Vec<char>)
        ensures
            word@ == old(self)@.before.subrange(
                word_left(old(self)@.before),
                old(self)@.before.len() as int,
            ),
            final(self)@ == old(self)@.delete_word_left(),
    {
        let at = word_start(&self.before);
        self.before.split_off(at)
    }

    /// Cuts the separators after the cursor and the word after them out of
    /// the line.
    fn cut_word_right(&mut self) -> (word: Vec<char>)
        ensures
            word@ == old(self)@.after.subrange(0, word_right(old(self)@.after)),
            final(self)@ == old(self)@.delete_word_right(),
    {
        let at = word_end(&self.after);
        let mut word = self.after.split_off(at);
        core::mem::swap(&mut word, &mut self.after);
        word
    }

    /// Takes the separators before the cursor and the word before them out
    /// of the line and returns them as text.
    pub fn jump_word_left(&mut self) -> (word: String)
        ensures
            word@ == old(self)@.before.subrange(
                word_left(old(self)@.before),
                old(self)@.before.len() as int,
            ),
            final(self)@ == old(self)@.delete_word_left(),
    {
        let word = self.cut_word_left();
        to_string(&word)
    }

    /// Takes the separators after the cursor and the word after them out of
    /// the line and returns them as text.
    pub fn jump_word_right(&mut self) -> (word: String)
        ensures
            word@ == old(self)@.after.subrange(0, word_right(old(self)@.after)),
            final(self)@ == old(self)@.delete_word_right(),
    {
        let word = self.cut_word_right();
        to_string(&word)
    }

    /// Takes the whole line out of the editor, which is left with an empty
    /// line and the cursor at its start.
    fn take_line(&mut self) -> (line: Vec<char>)
        ensures
            line@ == old(self)@.line(),
            final(self)@ == old(self)@.with_line(Seq::empty(), Seq::empty()),
    {
        let mut line: Vec<char> = Vec::new();
        core::mem::swap(&mut line, &mut self.before);
        line.append(&mut self.after);
        line
    }

    /// Returns the whole line and leaves the editor with an empty one. The
    /// history and the future stay as they are.
    pub fn finish_line(&mut self) -> (line: String)
        ensures
            line@ == old(self)@.line(),
            final(self)@ == old(self)@.with_line(Seq::empty(), Seq::empty()),
    {
        let line = self.take_line();
        to_string(&line)
    }

    /// Recalls the most recent line of the history, if there is one.
    fn recall_older(&mut self) -> (action: Action)
        ensures
            final(self)@ == old(self)@.older(),
            action@ == if old(self)@.history.len() == 0 {
                Effect::Idle
            } else {
                Effect::Render
            },
    {
        match self.history.pop() {
            None => Action::Idle,
            Some(entry) => {
                let line = self.take_line();
                self.future.push(line);
                self.before = entry;
                proof {
                    assert(lines_of(self.history@) =~= old(self)@.history.drop_last());
                    assert(lines_of(self.future@) =~= old(self)@.future.push(old(self)@.line()));
                }
                Action::Render
            },
        }
    }

    /// Recalls the most recent line of the future, if there is one.
    fn recall_newer(&mut self) -> (action: Action)
        ensures
            final(self)@ == old(self)@.newer(),
            action@ == if old(self)@.future.len() == 0 {
                Effect::Idle
            } else {
                Effect::Render
            },
    {
        match self.future.pop() {
            None => Action::Idle,
            Some(entry) => {
                let line = self.take_line();
                self.history.push(line);
                self.before = entry;
                proof {
                    assert(lines_of(self.future@) =~= old(self)@.future.drop_last());
                    assert(lines_of(self.history@) =~= old(self)@.history.push(old(self)@.line()));
                }
                Action::Render
            },
        }
    }
    /// Submits the line: returns it, writes it and the lines of the future
    /// into the history, and leaves the editor with an empty line and an
    /// empty future.
    fn commit(&mut self) -> (line: Vec<char>)
        ensures
            line@ == old(self)@.line(),
            final(self)@ == old(self)@.commit(),
    {
        let ghost start = self@;
        let line = self.take_line();
        if !self.future.is_empty() {
            self.history.push(line.clone());
        }
        let ghost base = lines_of(self.history@);
        proof {
            assert(base =~= start.history + if start.future.len() > 0 {
                seq![start.line()]
            } else {
                Seq::empty()
            });
            assert(start.future.subrange(start.future.len() as int, start.future.len() as int)
                =~= Seq::empty());
            reveal(Seq::filter);
        }
        while self.future.len() > 0
            invariant
                self.before@ == Seq::<char>::empty(),
                self.after@ == Seq::<char>::empty(),
                self.future@.len() <= start.future.len(),
                lines_of(self.future@) == start.future.subrange(0, self.future@.len() as int),
                lines_of(self.history@) == base + start.future.subrange(
                    self.future@.len() as int,
                    start.future.len() as int,
                ).reverse().filter(not_blank()),
            decreases self.future@.len(),
        {
            let ghost n = self.future@.len() as int;
            let ghost done = start.future.subrange(n, start.future.len() as int).reverse();
            let ghost before_push = lines_of(self.history@);
            let ghost rest = lines_of(self.future@);
            let entry = self.future.pop();
            match entry {
                Some(entry) => {
                    proof {
                        assert(entry@ == rest[n - 1]);
                        assert(start.future.subrange(n - 1, start.future.len() as int).reverse()
                            =~= done.push(entry@));
                        done.lemma_filter_push(entry@, not_blank());
                        assert(lines_of(self.future@) =~= start.future.subrange(0, n - 1));
                    }
                    if !blank(&entry) {
                        self.history.push(entry);
                        proof {
                            assert(lines_of(self.history@) =~= before_push.push(entry@));
                            assert(base + done.filter(not_blank()).push(entry@) =~= (base
                                + done.filter(not_blank())).push(entry@));
                        }
                    }
                },
                None => {},
            }
        }
        let ghost kept = start.future.reverse().filter(not_blank());
        proof {
            assert(start.future.subrange(0, start.future.len() as int) =~= start.future);
            assert(lines_of(self.future@) =~= Seq::empty());
        }
        if !blank(&line) {
            self.history.push(line.clone());
            proof {
                assert(lines_of(self.history@) =~= (base + kept).push(line@));
            }
        }
        proof {
            assert(lines_of(self.history@) =~= start.history + start.committed());
        }
        line
    }
    /// What a press of a character key does, given the modifiers held.
    fn type_char(&mut self, c: char, ctrl: bool, alt: bool) -> (action: Action)
        ensures
            (final(self)@, action@) == old(self)@.type_char(c, ctrl, alt),
    {
        if ctrl && (c == 'h' || c == 'w') {
            let _ = self.cut_word_left();
            Action::Render
        } else if alt && c == 'd' {
            let mut word = self.cut_word_right();
            self.before.append(&mut word);
            Action::Render
        } else if ctrl && c == 'c' {
            Action::Interrupt
        } else if !ctrl && !alt {
            self.before.push(c);
            Action::Render
        } else {
            Action::Idle
        }
    }

    /// Takes one key stroke: changes the line, the history and the future as
    /// the stroke asks, and tells the caller what to do next. `Submit`
    /// carries the completed line, `Render` asks for a repaint, `Interrupt`
    /// reports Control with `c`.
    pub fn process_key(&mut self, input: KeyInput) -> (action: Action)
        ensures
            (final(self)@, action@) == old(self)@.step(input),
    {
        if !input.pressed {
            return Action::Idle;
        }
        match input.key {
            Key::Up => self.recall_older(),
            Key::Down => self.recall_newer(),
            Key::Left => {
                if input.ctrl {
                    let mut word = self.cut_word_left();
                    word.append(&mut self.after);
                    self.after = word;
                    Action::Render
                } else {
                    match self.before.pop() {
                        None => Action::Idle,
                        Some(c) => {
                            self.after.insert(0, c);
                            proof {
                                assert(self.after@ =~= seq![c] + old(self)@.after);
                                assert(self.before@ =~= old(self)@.before.drop_last());
                            }
                            Action::Render
                        },
                    }
                }
            },
            Key::Right => {
                if input.ctrl {
                    let mut word = self.cut_word_right();
                    self.before.append(&mut word);
                    Action::Render
                } else if self.after.is_empty() {
                    Action::Idle
                } else {
                    let c = self.after.remove(0);
                    self.before.push(c);
                    proof {
                        assert(self.after@ =~= old(self)@.after.drop_first());
                    }
                    Action::Render
                }
            },
            Key::Backspace => {
                if input.ctrl {
                    let _ = self.cut_word_left();
                    Action::Render
                } else {
                    match self.before.pop() {
                        None => Action::Idle,
                        Some(_) => {
                            proof {
                                assert(self.before@ =~= old(self)@.before.drop_last());
                            }
                            Action::Render
                        },
                    }
                }
            },
            Key::Delete => {
                if input.ctrl {
                    let _ = self.cut_word_right();
                    Action::Render
                } else if self.after.is_empty() {
                    Action::Idle
                } else {
                    let _ = self.after.remove(0);
                    proof {
                        assert(self.after@ =~= old(self)@.after.drop_first());
                    }
                    Action::Render
                }
            },
            Key::Enter => {
                let line = self.commit();
                Action::Submit(to_string(&line))
            },
            Key::Char(c) => self.type_char(c, input.ctrl, input.alt),
            Key::Other => Action::Idle,
        }
    }

    /// Takes one key event of the terminal: decodes it and handles the key
    /// stroke that it stands for, as `process_key` does.
    pub fn process_event(&mut self, event: KeyEvent) -> (action: Action)
        ensures
            (final(self)@, action@) == old(self)@.step(decoded(event)),
    {
        let input = KeyInput::decode(&event);
        self.process_key(input)
    }

    /// The text before the cursor.
    pub fn before_cursor(&self) -> (text: String)
        ensures
            text@ == self@.before,
    {
        to_string(&self.before)
    }

    /// The text after the cursor.
    pub fn after_cursor(&self) -> (text: String)
        ensures
            text@ == self@.after,
    {
        to_string(&self.after)
    }

    /// The cursor's place: the number of characters before it.
    pub fn cursor(&self) -> (at: usize)
        ensures
            at == self@.cursor(),
            at <= self@.line().len(),
    {
        self.before.len()
    }

    /// The earlier lines, oldest first.
    pub fn history(&self) -> (lines: Vec<String>)
        ensures
            lines.deep_view() == self@.history,
    {
        let lines = to_strings(&self.history);
        proof {
            assert(self.history.deep_view() =~~= lines_of(self.history@));
        }
        lines
    }

    /// The lines left behind while recalling older ones, the first one left
    /// first.
    pub fn future(&self) -> (lines: Vec<String>)
        ensures
            lines.deep_view() == self@.future,
    {
        let lines = to_strings(&self.future);
        proof {
            assert(self.future.deep_view() =~~= lines_of(self.future@));
        }
        lines
    }
}

impl Default for Repl {
    fn default() -> (repl: Repl)
        ensures
            repl@ == Editor::initial(),
    {
        Repl::new()
    }
}

} // verus!
