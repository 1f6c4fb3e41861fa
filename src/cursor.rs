//! The cursor: a `(row, col)` position in a text buffer, moved only in ways
//! that keep it inside the buffer.
use vstd::prelude::*;
use crate::buffer::{position_in, TextBuffer};

verus! {

/// `col` may equal the length of line `row`: the point just past its end.
#[derive(Clone, Copy, Debug, PartialEq, Eq, Structural)]
pub struct Cursor {
    pub row: usize,
    pub col: usize,
}

/// The smaller of two integers.
pub open spec fn min_int(a: int, b: int) -> int {
    if a <= b {
        a
    } else {
        b
    }
}

impl Cursor {
    /// The cursor lies inside `lines`.
    pub open spec fn valid_in(&self, lines: Seq<Seq<char>>) -> bool {
        position_in(lines, self.row as int, self.col as int)
    }

    /// The top left corner.
    pub fn new() -> (r: Cursor)
        ensures
            r.row == 0 && r.col == 0,
    {
        Cursor { row: 0, col: 0 }
    }

    /// One column left; nothing at the start of a line.
    pub fn move_left(&mut self)
        ensures
            final(self).row == old(self).row,
            final(self).col == if old(self).col > 0 {
                old(self).col - 1
            } else {
                old(self).col as int
            },
    {
        if self.col > 0 {
            self.col -= 1;
        }
    }

    /// One column right; nothing at the end of a line.
    pub fn move_right(&mut self, buffer: &TextBuffer)
        requires
            old(self).valid_in(buffer@),
        ensures
            final(self).valid_in(buffer@),
            final(self).row == old(self).row,
            final(self).col == if old(self).col < buffer@[old(self).row as int].len() {
                old(self).col + 1
            } else {
                old(self).col as int
            },
    {
        if self.col < buffer.line_len(self.row) {
            self.col += 1;
        }
    }

    /// One row up, the column clamped to that line's length; nothing on the
    /// first line.
    pub fn move_up(&mut self, buffer: &TextBuffer)
        requires
            old(self).valid_in(buffer@),
        ensures
            final(self).valid_in(buffer@),
            old(self).row > 0 ==> final(self).row == old(self).row - 1 && final(self).col
                == min_int(old(self).col as int, buffer@[old(self).row - 1].len() as int),
            old(self).row == 0 ==> *final(self) == *old(self),
    {
        if self.row > 0 {
            self.row -= 1;
            let len = buffer.line_len(self.row);
            if len < self.col {
                self.col = len;
            }
        }
    }

    /// One row down, the column clamped to that line's length; nothing on
    /// the last line.
    pub fn move_down(&mut self, buffer: &TextBuffer)
        requires
            old(self).valid_in(buffer@),
        ensures
            final(self).valid_in(buffer@),
            old(self).row + 1 < buffer@.len() ==> final(self).row == old(self).row + 1
                && final(self).col == min_int(
                old(self).col as int,
                buffer@[old(self).row + 1].len() as int,
            ),
            old(self).row + 1 >= buffer@.len() ==> *final(self) == *old(self),
    {
        proof {
            buffer.lemma_sizes_fit();
        }
        if self.row + 1 < buffer.line_count() {
            self.row += 1;
            let len = buffer.line_len(self.row);
            if len < self.col {
                self.col = len;
            }
        }
    }

    /// Steps past a character just inserted at the cursor.
    pub fn advance_after_insert(&mut self)
        requires
            old(self).col < usize::MAX,
        ensures
            final(self).row == old(self).row,
            final(self).col == old(self).col + 1,
    {
        self.col += 1;
    }

    /// Goes to the start of the line just split off below.
    pub fn advance_after_split(&mut self)
        requires
            old(self).row < usize::MAX,
        ensures
            final(self).row == old(self).row + 1,
            final(self).col == 0,
    {
        self.row += 1;
        self.col = 0;
    }

    /// Goes to the join point after the line was appended to the one above,
    /// whose length was `previous_line_len`.
    pub fn retreat_after_join(&mut self, previous_line_len: usize)
        requires
            old(self).row > 0,
        ensures
            final(self).row == old(self).row - 1,
            final(self).col == previous_line_len,
    {
        self.row -= 1;
        self.col = previous_line_len;
    }
}

} // verus!
