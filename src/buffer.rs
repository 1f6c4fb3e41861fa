//! The text buffer: an ordered, never-empty sequence of lines, each an
//! ordered sequence of characters, with the edits that the editor performs.
use vstd::prelude::*;

verus! {

/// The lines after inserting `c` at column `col` of line `row`.
pub open spec fn char_inserted(lines: Seq<Seq<char>>, row: int, col: int, c: char) -> Seq<
    Seq<char>,
> {
    lines.update(row, lines[row].insert(col, c))
}

/// The lines after removing the character at column `col` of line `row`.
pub open spec fn char_removed(lines: Seq<Seq<char>>, row: int, col: int) -> Seq<Seq<char>> {
    lines.update(row, lines[row].remove(col))
}

/// The lines after line `row` is cut at column `col`: the head stays at
/// `row`, the tail becomes a new line right after it.
pub open spec fn line_split(lines: Seq<Seq<char>>, row: int, col: int) -> Seq<Seq<char>> {
    lines.update(row, lines[row].take(col)).insert(row + 1, lines[row].skip(col))
}

/// The lines after line `row` is appended to line `row - 1` and removed.
pub open spec fn lines_joined(lines: Seq<Seq<char>>, row: int) -> Seq<Seq<char>> {
    lines.update(row - 1, lines[row - 1] + lines[row]).remove(row)
}

/// What `delete_char_before(row, col)` does to the lines.
pub open spec fn deleted_before(lines: Seq<Seq<char>>, row: int, col: int) -> Seq<Seq<char>> {
    if col > 0 {
        char_removed(lines, row, col - 1)
    } else if row > 0 {
        lines_joined(lines, row)
    } else {
        lines
    }
}

/// The position `(row, col)` lies in `lines`; `col` may equal the line's length.
pub open spec fn position_in(lines: Seq<Seq<char>>, row: int, col: int) -> bool {
    0 <= row < lines.len() && 0 <= col <= lines[row].len()
}

pub struct TextBuffer {
    lines: Vec<Vec<char>>,
}

impl View for TextBuffer {
    type V = Seq<Seq<char>>;

    closed spec fn view(&self) -> Seq<Seq<char>> {
        self.lines@.map_values(|l: Vec<char>| l@)
    }
}

impl TextBuffer {
    /// The buffer never runs out of lines.
    pub open spec fn wf(&self) -> bool {
        self@.len() >= 1
    }

    /// A buffer that holds a single empty line.
    pub fn new() -> (r: TextBuffer)
        ensures
            r.wf(),
            r@ == seq![Seq::<char>::empty()],
    {
        let mut lines: Vec<Vec<char>> = Vec::new();
        lines.push(Vec::new());
        let r = TextBuffer { lines };
        assert(r@ =~= seq![Seq::<char>::empty()]);
        r
    }

    /// A buffer holding `lines`, or `None` when there are none.
    pub fn from_lines(lines: Vec<Vec<char>>) -> (r: Option<TextBuffer>)
        ensures
            lines@.len() == 0 <==> r is None,
            r matches Some(b) ==> b.wf() && b@ == lines@.map_values(|l: Vec<char>| l@),
    {
        if lines.len() == 0 {
            None
        } else {
            Some(TextBuffer { lines })
        }
    }

    /// The number of lines, and each line's length, fit in a `usize`.
    pub proof fn lemma_sizes_fit(&self)
        ensures
            self@.len() <= usize::MAX,
            forall|i: int| 0 <= i < self@.len() ==> #[trigger] self@[i].len() <= usize::MAX,
    {
        assert(self.lines@.len() == self.lines.len());
        assert forall|i: int| 0 <= i < self@.len() implies #[trigger] self@[i].len() <= usize::MAX by {
            let line = self.lines@[i];
            assert(line@.len() == line.len());
        }
    }

    pub fn line_count(&self) -> (r: usize)
        ensures
            r == self@.len(),
    {
        self.lines.len()
    }

    pub fn line_len(&self, row: usize) -> (r: usize)
        requires
            row < self@.len(),
        ensures
            r == self@[row as int].len(),
    {
        self.lines[row].len()
    }

    /// The lines, top to bottom, for display.
    pub fn lines(&self) -> (r: &Vec<Vec<char>>)
        ensures
            r@.map_values(|l: Vec<char>| l@) == self@,
    {
        &self.lines
    }

    /// Inserts `c` at column `col` of line `row`; later characters shift right.
    pub fn insert_char(&mut self, row: usize, col: usize, c: char)
        requires
            position_in(old(self)@, row as int, col as int),
        ensures
            final(self)@ == char_inserted(old(self)@, row as int, col as int, c),
    {
        self.lines[row].insert(col, c);
        assert(self@ =~= char_inserted(old(self)@, row as int, col as int, c));
    }

    /// Removes the character before column `col` of line `row`; at the start
    /// of a line that is not the first, appends the line to the one above
    /// and removes it. At the start of the first line nothing changes.
    /// Returns the former length of the line above when lines were joined.
    pub fn delete_char_before(&mut self, row: usize, col: usize) -> (joined: Option<usize>)
        requires
            old(self).wf(),
            position_in(old(self)@, row as int, col as int),
        ensures
            final(self).wf(),
            final(self)@ == deleted_before(old(self)@, row as int, col as int),
            joined == (if col == 0 && row > 0 {
                Some(old(self)@[row - 1].len() as usize)
            } else {
                None
            }),
    {
        if col > 0 {
            self.lines[row].remove(col - 1);
            assert(self@ =~= char_removed(old(self)@, row as int, col - 1));
            None
        } else if row > 0 {
            let mut current = self.lines.remove(row);
            let previous_len = self.lines[row - 1].len();
            self.lines[row - 1].append(&mut current);
            assert(self@ =~= lines_joined(old(self)@, row as int));
            Some(previous_len)
        } else {
            None
        }
    }

    /// Cuts line `row` at column `col`; the rest of it becomes a new line
    /// right below.
    pub fn split_line(&mut self, row: usize, col: usize)
        requires
            position_in(old(self)@, row as int, col as int),
        ensures
            final(self)@ == line_split(old(self)@, row as int, col as int),
            final(self)@.len() == old(self)@.len() + 1,
    {
        assert(row < self.lines.len());
        let rest = self.lines[row].split_off(col);
        self.lines.insert(row + 1, rest);
        assert(self@ =~= line_split(old(self)@, row as int, col as int));
    }
}

} // verus!
