//! The editor as a mathematical state, and what each key stroke does to it.

use crate::key::{typed, Key, KeyInput};
use crate::text::is_blank;
use crate::words::{word_left, word_right};
use vstd::prelude::*;

verus! {

/// The state of the editor: the line under edit, split at the cursor, and
/// the two stacks of lines, each with its most recent line last.
pub struct Editor {
    /// The text before the cursor.
    pub before: Seq<char>,
    /// The text after the cursor.
    pub after: Seq<char>,
    /// Earlier lines, oldest first.
    pub history: Seq<Seq<char>>,
    /// Lines left behind while recalling older ones.
    pub future: Seq<Seq<char>>,
}

/// What the caller is to do after a key stroke.
pub enum Effect {
    /// Nothing: the screen is up to date.
    Idle,
    /// Paint the line again.
    Render,
    /// The line is complete.
    Submit(Seq<char>),
    /// The user asked to leave.
    Interrupt,
}

/// The key strokes that type `text`: one press of a character key for each
/// character, with no modifier held.
pub open spec fn typing(text: Seq<char>) -> Seq<KeyInput> {
    Seq::new(text.len(), |i: int| typed(text[i]))
}

/// The test that keeps the lines that are not blank.
pub open spec fn not_blank() -> spec_fn(Seq<char>) -> bool {
    |line: Seq<char>| !is_blank(line)
}

impl Editor {
    /// The editor before anything was typed.
    pub open spec fn initial() -> Editor {
        Editor {
            before: Seq::empty(),
            after: Seq::empty(),
            history: Seq::empty(),
            future: Seq::empty(),
        }
    }

    /// The whole line, whatever the cursor's place.
    pub open spec fn line(self) -> Seq<char> {
        self.before + self.after
    }

    /// The cursor's place: the number of characters before it.
    pub open spec fn cursor(self) -> nat {
        self.before.len()
    }

    /// This editor with another line under edit.
    pub open spec fn with_line(self, before: Seq<char>, after: Seq<char>) -> Editor {
        Editor { before, after, history: self.history, future: self.future }
    }

    /// `c` typed at the cursor.
    pub open spec fn insert(self, c: char) -> Editor {
        self.with_line(self.before.push(c), self.after)
    }

    /// The cursor one character to the left, if there is one.
    pub open spec fn move_left(self) -> Editor {
        if self.before.len() == 0 {
            self
        } else {
            self.with_line(self.before.drop_last(), seq![self.before.last()] + self.after)
        }
    }

    /// The cursor one character to the right, if there is one.
    pub open spec fn move_right(self) -> Editor {
        if self.after.len() == 0 {
            self
        } else {
            self.with_line(self.before.push(self.after.first()), self.after.drop_first())
        }
    }

    /// The cursor moved left over the separators before it and the word
    /// before them.
    pub open spec fn jump_left(self) -> Editor {
        let at = word_left(self.before);
        self.with_line(
            self.before.subrange(0, at),
            self.before.subrange(at, self.before.len() as int) + self.after,
        )
    }

    /// The cursor moved right over the separators after it and the word
    /// after them.
    pub open spec fn jump_right(self) -> Editor {
        let at = word_right(self.after);
        self.with_line(
            self.before + self.after.subrange(0, at),
            self.after.subrange(at, self.after.len() as int),
        )
    }

    /// The character before the cursor deleted, if there is one.
    pub open spec fn backspace(self) -> Editor {
        if self.before.len() == 0 {
            self
        } else {
            self.with_line(self.before.drop_last(), self.after)
        }
    }

    /// The character after the cursor deleted, if there is one.
    pub open spec fn delete(self) -> Editor {
        if self.after.len() == 0 {
            self
        } else {
            self.with_line(self.before, self.after.drop_first())
        }
    }

    /// The word before the cursor deleted, with the separators between it
    /// and the cursor.
    pub open spec fn delete_word_left(self) -> Editor {
        self.with_line(self.before.subrange(0, word_left(self.before)), self.after)
    }

    /// The word after the cursor deleted, with the separators between the
    /// cursor and it.
    pub open spec fn delete_word_right(self) -> Editor {
        self.with_line(
            self.before,
            self.after.subrange(word_right(self.after), self.after.len() as int),
        )
    }

    /// The most recent line of the history recalled: the line under edit
    /// goes onto the future, the cursor to the end of the recalled line.
    /// Nothing changes where the history is empty.
    pub open spec fn older(self) -> Editor {
        if self.history.len() == 0 {
            self
        } else {
            Editor {
                before: self.history.last(),
                after: Seq::empty(),
                history: self.history.drop_last(),
                future: self.future.push(self.line()),
            }
        }
    }

    /// The most recent line of the future recalled: the line under edit goes
    /// onto the history, the cursor to the end of the recalled line. Nothing
    /// changes where the future is empty.
    pub open spec fn newer(self) -> Editor {
        if self.future.len() == 0 {
            self
        } else {
            Editor {
                before: self.future.last(),
                after: Seq::empty(),
                history: self.history.push(self.line()),
                future: self.future.drop_last(),
            }
        }
    }

    /// What a submitted line adds to the history: the line itself where the
    /// future is not empty, blank or not; then the lines of the future that
    /// are not blank, the last one first; then the line once more, unless it
    /// is blank.
    pub open spec fn committed(self) -> Seq<Seq<char>> {
        let line = self.line();
        let browsed = if self.future.len() > 0 {
            seq![line]
        } else {
            Seq::empty()
        };
        let submitted = if is_blank(line) {
            Seq::empty()
        } else {
            seq![line]
        };
        browsed + self.future.reverse().filter(not_blank()) + submitted
    }

    /// The line submitted: the history grows by `committed`, the future and
    /// the line under edit become empty.
    pub open spec fn commit(self) -> Editor {
        Editor {
            before: Seq::empty(),
            after: Seq::empty(),
            history: self.history + self.committed(),
            future: Seq::empty(),
        }
    }

    /// The editor after the key events of `inputs`, one after the other.
    pub open spec fn run(self, inputs: Seq<KeyInput>) -> Editor
        decreases inputs.len(),
    {
        if inputs.len() == 0 {
            self
        } else {
            self.run(inputs.drop_last()).step(inputs.last()).0
        }
    }

    /// What a character key does, given the modifiers held with it.
    pub open spec fn type_char(self, c: char, ctrl: bool, alt: bool) -> (Editor, Effect) {
        if ctrl && (c == 'h' || c == 'w') {
            (self.delete_word_left(), Effect::Render)
        } else if alt && c == 'd' {
            (self.jump_right(), Effect::Render)
        } else if ctrl && c == 'c' {
            (self, Effect::Interrupt)
        } else if !ctrl && !alt {
            (self.insert(c), Effect::Render)
        } else {
            (self, Effect::Idle)
        }
    }

    /// The editor after one key event, and what the caller is to do. Only a
    /// press changes anything; a stroke that changes nothing and moves
    /// nothing asks for no repaint.
    pub open spec fn step(self, input: KeyInput) -> (Editor, Effect) {
        if !input.pressed {
            (self, Effect::Idle)
        } else {
            match input.key {
                Key::Up => if self.history.len() == 0 {
                    (self, Effect::Idle)
                } else {
                    (self.older(), Effect::Render)
                },
                Key::Down => if self.future.len() == 0 {
                    (self, Effect::Idle)
                } else {
                    (self.newer(), Effect::Render)
                },
                Key::Left => if input.ctrl {
                    (self.jump_left(), Effect::Render)
                } else if self.before.len() == 0 {
                    (self, Effect::Idle)
                } else {
                    (self.move_left(), Effect::Render)
                },
                Key::Right => if input.ctrl {
                    (self.jump_right(), Effect::Render)
                } else if self.after.len() == 0 {
                    (self, Effect::Idle)
                } else {
                    (self.move_right(), Effect::Render)
                },
                Key::Backspace => if input.ctrl {
                    (self.delete_word_left(), Effect::Render)
                } else if self.before.len() == 0 {
                    (self, Effect::Idle)
                } else {
                    (self.backspace(), Effect::Render)
                },
                Key::Delete => if input.ctrl {
                    (self.delete_word_right(), Effect::Render)
                } else if self.after.len() == 0 {
                    (self, Effect::Idle)
                } else {
                    (self.delete(), Effect::Render)
                },
                Key::Enter => (self.commit(), Effect::Submit(self.line())),
                Key::Char(c) => self.type_char(c, input.ctrl, input.alt),
                Key::Other => (self, Effect::Idle),
            }
        }
    }
}

} // verus!
