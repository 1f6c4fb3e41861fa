//! The editor session: one buffer, one cursor and one mode, changed only by
//! key events, with the cursor kept inside the buffer after every change.
use vstd::prelude::*;
use crate::buffer::{char_inserted, deleted_before, line_split, position_in, TextBuffer};
use crate::cursor::{min_int, Cursor};
use crate::mode::{
    insert_mode_step, insert_transition, mode_step, normal_mode_step, normal_transition,
    transition, Action, Key, KeyEvent, Mode,
};

verus! {

/// An editor as plain values: its lines, the cursor's row and column, and
/// the mode.
pub struct EditorState {
    pub lines: Seq<Seq<char>>,
    pub row: int,
    pub col: int,
    pub mode: Mode,
}

/// The buffer has a line and the cursor lies in it.
pub open spec fn valid_state(s: EditorState) -> bool {
    s.lines.len() >= 1 && position_in(s.lines, s.row, s.col)
}

/// `s` with the cursor at `(row, col)`.
pub open spec fn moved_to(s: EditorState, row: int, col: int) -> EditorState {
    EditorState { lines: s.lines, row, col, mode: s.mode }
}

/// What `a` does to the lines and the cursor; the mode is left alone.
pub open spec fn apply_action(s: EditorState, a: Action) -> EditorState {
    match a {
        Action::MoveLeft => if s.col > 0 {
            moved_to(s, s.row, s.col - 1)
        } else {
            s
        },
        Action::MoveRight => if s.col < s.lines[s.row].len() {
            moved_to(s, s.row, s.col + 1)
        } else {
            s
        },
        Action::MoveUp => if s.row > 0 {
            moved_to(s, s.row - 1, min_int(s.col, s.lines[s.row - 1].len() as int))
        } else {
            s
        },
        Action::MoveDown => if s.row + 1 < s.lines.len() {
            moved_to(s, s.row + 1, min_int(s.col, s.lines[s.row + 1].len() as int))
        } else {
            s
        },
        Action::InsertChar(c) => EditorState {
            lines: char_inserted(s.lines, s.row, s.col, c),
            row: s.row,
            col: s.col + 1,
            mode: s.mode,
        },
        Action::SplitLine => EditorState {
            lines: line_split(s.lines, s.row, s.col),
            row: s.row + 1,
            col: 0,
            mode: s.mode,
        },
        Action::DeleteBefore => {
            let lines = deleted_before(s.lines, s.row, s.col);
            if s.col > 0 {
                EditorState { lines, row: s.row, col: s.col - 1, mode: s.mode }
            } else if s.row > 0 {
                EditorState {
                    lines,
                    row: s.row - 1,
                    col: s.lines[s.row - 1].len() as int,
                    mode: s.mode,
                }
            } else {
                s
            }
        },
        Action::Nothing => s,
        Action::Quit => s,
    }
}

/// `s` after the action `t.1`, in the mode `t.0`.
pub open spec fn take_step(s: EditorState, t: (Mode, Action)) -> EditorState {
    let after = apply_action(s, t.1);
    EditorState { lines: after.lines, row: after.row, col: after.col, mode: t.0 }
}

/// `s` after the key press `ev`.
pub open spec fn step(s: EditorState, ev: KeyEvent) -> EditorState {
    take_step(s, transition(s.mode, ev))
}

/// Whether the host loop should go on after a key press.
#[derive(Clone, Copy, Debug, PartialEq, Eq, Structural)]
pub enum KeyOutcome {
    Continue,
    Quit,
}

/// The outcome of the action `a`.
pub open spec fn outcome_of(a: Action) -> KeyOutcome {
    if a == Action::Quit {
        KeyOutcome::Quit
    } else {
        KeyOutcome::Continue
    }
}

pub struct Editor {
    mode: Mode,
    buffer: TextBuffer,
    cursor: Cursor,
}

impl View for Editor {
    type V = EditorState;

    closed spec fn view(&self) -> EditorState {
        EditorState {
            lines: self.buffer@,
            row: self.cursor.row as int,
            col: self.cursor.col as int,
            mode: self.mode,
        }
    }
}

impl Editor {
    pub open spec fn wf(&self) -> bool {
        valid_state(self@)
    }

    /// One empty line, the cursor at its start, Normal mode.
    pub fn new() -> (r: Editor)
        ensures
            r.wf(),
            r@ == (EditorState {
                lines: seq![Seq::<char>::empty()],
                row: 0,
                col: 0,
                mode: Mode::Normal,
            }),
    {
        Editor { mode: Mode::Normal, buffer: TextBuffer::new(), cursor: Cursor::new() }
    }

    /// An editor holding `lines` with the cursor at `(row, col)` in `mode`,
    /// or `None` when that position is not in the lines.
    pub fn with_content(lines: Vec<Vec<char>>, row: usize, col: usize, mode: Mode) -> (r: Option<
        Editor,
    >)
        ensures
            r is Some <==> position_in(
                lines@.map_values(|l: Vec<char>| l@),
                row as int,
                col as int,
            ),
            r matches Some(e) ==> e.wf() && e@ == (EditorState {
                lines: lines@.map_values(|l: Vec<char>| l@),
                row: row as int,
                col: col as int,
                mode,
            }),
    {
        match TextBuffer::from_lines(lines) {
            None => None,
            Some(buffer) => {
                if row < buffer.line_count() && col <= buffer.line_len(row) {
                    Some(Editor { mode, buffer, cursor: Cursor { row, col } })
                } else {
                    None
                }
            },
        }
    }

    /// The lines, top to bottom, for display.
    pub fn lines(&self) -> (r: &Vec<Vec<char>>)
        ensures
            r@.map_values(|l: Vec<char>| l@) == self@.lines,
    {
        self.buffer.lines()
    }

    pub fn line_count(&self) -> (r: usize)
        ensures
            r == self@.lines.len(),
    {
        self.buffer.line_count()
    }

    pub fn cursor(&self) -> (r: Cursor)
        ensures
            r.row == self@.row && r.col == self@.col,
    {
        self.cursor
    }

    pub fn mode(&self) -> (r: Mode)
        ensures
            r == self@.mode,
    {
        self.mode
    }

    pub fn move_cursor_left(&mut self)
        requires
            old(self).wf(),
        ensures
            final(self).wf(),
            final(self)@ == apply_action(old(self)@, Action::MoveLeft),
    {
        self.cursor.move_left();
    }

    pub fn move_cursor_right(&mut self)
        requires
            old(self).wf(),
        ensures
            final(self).wf(),
            final(self)@ == apply_action(old(self)@, Action::MoveRight),
    {
        self.cursor.move_right(&self.buffer);
    }

    pub fn move_cursor_up(&mut self)
        requires
            old(self).wf(),
        ensures
            final(self).wf(),
            final(self)@ == apply_action(old(self)@, Action::MoveUp),
    {
        self.cursor.move_up(&self.buffer);
    }

    pub fn move_cursor_down(&mut self)
        requires
            old(self).wf(),
        ensures
            final(self).wf(),
            final(self)@ == apply_action(old(self)@, Action::MoveDown),
    {
        self.cursor.move_down(&self.buffer);
    }

    /// Inserts `c` at the cursor and steps past it.
    pub fn insert_char(&mut self, c: char)
        requires
            old(self).wf(),
        ensures
            final(self).wf(),
            final(self)@ == apply_action(old(self)@, Action::InsertChar(c)),
    {
        self.buffer.insert_char(self.cursor.row, self.cursor.col, c);
        proof {
            self.buffer.lemma_sizes_fit();
            assert(self.buffer@[self.cursor.row as int].len() == old(self).buffer@[
                self.cursor.row as int].len() + 1);
        }
        self.cursor.advance_after_insert();
    }

    /// Splits the line at the cursor and goes to the start of the new line.
    pub fn insert_newline(&mut self)
        requires
            old(self).wf(),
        ensures
            final(self).wf(),
            final(self)@ == apply_action(old(self)@, Action::SplitLine),
    {
        self.buffer.split_line(self.cursor.row, self.cursor.col);
        proof {
            self.buffer.lemma_sizes_fit();
        }
        self.cursor.advance_after_split();
    }

    /// Deletes the character before the cursor, or joins the line to the
    /// one above when the cursor is at its start; nothing at the start of
    /// the first line.
    pub fn handle_backspace(&mut self)
        requires
            old(self).wf(),
        ensures
            final(self).wf(),
            final(self)@ == apply_action(old(self)@, Action::DeleteBefore),
    {
        proof {
            self.buffer.lemma_sizes_fit();
        }
        match self.buffer.delete_char_before(self.cursor.row, self.cursor.col) {
            Some(previous_line_len) => self.cursor.retreat_after_join(previous_line_len),
            None => self.cursor.move_left(),
        }
    }

    /// Carries out `a` on the buffer and the cursor.
    pub fn perform(&mut self, a: Action)
        requires
            old(self).wf(),
        ensures
            final(self).wf(),
            final(self)@ == apply_action(old(self)@, a),
    {
        match a {
            Action::MoveLeft => self.move_cursor_left(),
            Action::MoveRight => self.move_cursor_right(),
            Action::MoveUp => self.move_cursor_up(),
            Action::MoveDown => self.move_cursor_down(),
            Action::InsertChar(c) => self.insert_char(c),
            Action::SplitLine => self.insert_newline(),
            Action::DeleteBefore => self.handle_backspace(),
            Action::Nothing => {},
            Action::Quit => {},
        }
    }

    fn follow(&mut self, t: (Mode, Action)) -> (r: KeyOutcome)
        requires
            old(self).wf(),
        ensures
            final(self).wf(),
            final(self)@ == take_step(old(self)@, t),
            r == outcome_of(t.1),
    {
        let (mode, action) = t;
        self.perform(action);
        self.mode = mode;
        if matches!(action, Action::Quit) {
            KeyOutcome::Quit
        } else {
            KeyOutcome::Continue
        }
    }

    /// Handles `ev` by the Normal-mode table. The mode changes only on `i`,
    /// which enters Insert; otherwise it stays as it was.
    pub fn handle_normal_mode(&mut self, ev: KeyEvent) -> (r: KeyOutcome)
        requires
            old(self).wf(),
        ensures
            final(self).wf(),
            final(self)@ == take_step(
                old(self)@,
                (
                    if ev.key == Key::Char('i') {
                        Mode::Insert
                    } else {
                        old(self)@.mode
                    },
                    normal_transition(ev).1,
                ),
            ),
            r == outcome_of(normal_transition(ev).1),
    {
        let (next, action) = normal_mode_step(ev);
        let mode = if next == Mode::Insert {
            next
        } else {
            self.mode
        };
        self.follow((mode, action))
    }

    /// Handles `ev` by the Insert-mode table. The mode changes only on
    /// Escape, which returns to Normal; otherwise it stays as it was.
    pub fn handle_insert_mode(&mut self, ev: KeyEvent) -> (r: KeyOutcome)
        requires
            old(self).wf(),
        ensures
            final(self).wf(),
            final(self)@ == take_step(
                old(self)@,
                (
                    if ev.key == Key::Esc {
                        Mode::Normal
                    } else {
                        old(self)@.mode
                    },
                    insert_transition(ev).1,
                ),
            ),
            r == outcome_of(insert_transition(ev).1),
    {
        let (next, action) = insert_mode_step(ev);
        let mode = if next == Mode::Normal {
            next
        } else {
            self.mode
        };
        self.follow((mode, action))
    }

    /// Handles one key press in the current mode; `Quit` when the host
    /// should stop.
    pub fn handle_keypress(&mut self, ev: KeyEvent) -> (r: KeyOutcome)
        requires
            old(self).wf(),
        ensures
            final(self).wf(),
            final(self)@ == step(old(self)@, ev),
            r == outcome_of(transition(old(self)@.mode, ev).1),
    {
        self.follow(mode_step(self.mode, ev))
    }
}

} // verus!
