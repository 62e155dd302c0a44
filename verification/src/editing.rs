//! Editing at the cursor.
//!
//! The cursor stands on a line and before one of its grapheme clusters, or
//! behind the last. Keys that only move it may leave it anywhere, until
//! `clamp_cursor` brings it back into the text. An operation that works on
//! the text asks that the cursor stands where it can work.

use vstd::prelude::*;
use vstd::string::StringExecFns;
use crate::buffer::{texts, without_line, Buffer, Highlight};
use crate::text::{char_string, graphemes, join, joined, split_graphemes};

verus! {

/// A buffer as editing sees it: its text, what lies over it, and where the
/// cursor stands.
pub struct Page {
    pub lines: Seq<Seq<char>>,
    pub highlights: Seq<Highlight>,
    pub modified: bool,
    pub row: usize,
    pub col: usize,
}

impl Page {
    /// The page with the cursor brought back into the text: onto the last
    /// line if it stood below it, and behind the last cluster of its line
    /// if it stood further right.
    pub open spec fn clamped(self) -> Page {
        let row = if self.row < self.lines.len() {
            self.row
        } else {
            (self.lines.len() - 1) as usize
        };
        let cells = graphemes(self.lines[row as int]).len();
        Page { row, col: if self.col <= cells { self.col } else { cells as usize }, ..self }
    }

    /// The grapheme clusters of the line that the cursor stands on.
    pub open spec fn cells(self) -> Seq<Seq<char>> {
        graphemes(self.lines[self.row as int])
    }

    /// Whether the cursor stands on a line of the text.
    pub open spec fn on_text(self) -> bool {
        self.row < self.lines.len()
    }

    /// Whether the cursor stands in the text: on a line of it, and before
    /// one of its clusters or behind the last.
    pub open spec fn in_text(self) -> bool {
        self.on_text() && self.col <= self.cells().len()
    }

    /// The number of clusters of the cursor's line that stand before the
    /// cursor: all of them where the cursor stands right of the line.
    pub open spec fn reach(self) -> int {
        if self.col <= self.cells().len() {
            self.col as int
        } else {
            self.cells().len() as int
        }
    }

    /// The page after line `line` was edited: the highlights of that line
    /// are gone and the page counts as modified.
    pub open spec fn edited(self, line: usize) -> Page {
        Page { highlights: without_line(self.highlights, line), modified: true, ..self }
    }

    /// The page with the text of the cursor's line replaced.
    pub open spec fn with_line(self, text: Seq<char>) -> Page {
        Page { lines: self.lines.update(self.row as int, text), ..self }
    }

    /// The cursor one cluster to the left, if there is one.
    pub open spec fn left(self) -> Page {
        Page { col: if self.col > 0 { (self.col - 1) as usize } else { 0 }, ..self }
    }

    /// The cursor one column to the right, wherever that is.
    pub open spec fn right(self) -> Page {
        Page { col: (self.col + 1) as usize, ..self }
    }

    /// The cursor one line up, if there is one.
    pub open spec fn up(self) -> Page {
        Page { row: if self.row > 0 { (self.row - 1) as usize } else { 0 }, ..self }
    }

    /// The cursor one line down, wherever that is.
    pub open spec fn down(self) -> Page {
        Page { row: (self.row + 1) as usize, ..self }
    }

    /// The page without the cluster under the cursor. Behind the last
    /// cluster there is nothing to delete.
    pub open spec fn delete_cell(self) -> Page {
        if self.col < self.cells().len() {
            self.with_line(joined(self.cells().remove(self.col as int))).edited(self.row)
        } else {
            self
        }
    }

    /// The page without the cursor's line. The cursor stays on its row, or
    /// on the last line if its row is gone. The only line of a page is
    /// emptied instead.
    pub open spec fn delete_line(self) -> Page {
        if self.lines.len() > 1 {
            let lines = self.lines.remove(self.row as int);
            let row = if self.row >= lines.len() {
                (lines.len() - 1) as usize
            } else {
                self.row
            };
            Page { lines, row, ..self }.edited(row)
        } else {
            Page { lines: seq![Seq::<char>::empty()], row: 0, ..self }.edited(0)
        }
    }

    /// The page with an empty line below the cursor's line, and the cursor
    /// at its start.
    pub open spec fn open_below(self) -> Page {
        let row = (self.row + 1) as usize;
        Page { lines: self.lines.insert(row as int, Seq::empty()), row, col: 0, ..self }.edited(
            row,
        )
    }

    /// The page with an empty line in place of the cursor's line, which
    /// moves down, and the cursor at the start of the empty line.
    pub open spec fn open_above(self) -> Page {
        Page { lines: self.lines.insert(self.row as int, Seq::empty()), col: 0, ..self }.edited(
            self.row,
        )
    }

    /// The page with the cursor's line broken before the cursor: what
    /// stands before it stays, what stands from it on becomes the next
    /// line, and the cursor goes to the start of that line. A cursor right
    /// of its line breaks the line at its end.
    pub open spec fn split(self) -> Page {
        let before = joined(self.cells().take(self.reach()));
        let after = joined(self.cells().skip(self.reach()));
        Page {
            lines: self.lines.update(self.row as int, before).insert(self.row + 1, after),
            row: (self.row + 1) as usize,
            col: 0,
            ..self
        }
    }

    /// Whether the page can take a backspace: the cursor stands in the
    /// text, or where a backspace does nothing.
    pub open spec fn can_backspace(self) -> bool {
        if self.col > 0 {
            self.in_text()
        } else {
            self.row > 0 ==> self.on_text()
        }
    }

    /// The page without the cluster before the cursor. At the start of a
    /// line, the line is joined to the one above and the cursor stands
    /// where they meet. At the start of the text nothing happens.
    pub open spec fn backspace(self) -> Page {
        if self.col > 0 {
            Page { col: (self.col - 1) as usize, ..self }.with_line(
                joined(self.cells().remove(self.col - 1)),
            )
        } else if self.row > 0 {
            let above = self.lines[self.row - 1];
            Page {
                lines: self.lines.remove(self.row as int).update(
                    self.row - 1,
                    above + self.lines[self.row as int],
                ),
                row: (self.row - 1) as usize,
                col: graphemes(above).len() as usize,
                ..self
            }
        } else {
            self
        }
    }

    /// The page with `c` put in before the cursor, and the cursor behind
    /// it.
    pub open spec fn insert(self, c: char) -> Page {
        Page { col: (self.col + 1) as usize, ..self }.with_line(
            joined(self.cells().insert(self.col as int, seq![c])),
        )
    }
}

impl Buffer {
    /// The buffer as editing sees it.
    pub open spec fn page(&self) -> Page {
        Page {
            lines: texts(self.lines@),
            highlights: self.highlights@,
            modified: self.modified,
            row: self.row,
            col: self.col,
        }
    }

    /// Whether `other` has the file name and the scroll position of this
    /// buffer.
    pub open spec fn same_file(&self, other: &Buffer) -> bool {
        self.filename == other.filename && self.top_row == other.top_row
    }

    /// Brings the cursor back into the text and hands out the grapheme
    /// clusters of the line it then stands on.
    pub fn clamp_cursor(&mut self) -> (cells: Vec<String>)
        requires
            old(self).wf(),
        ensures
            final(self).wf(),
            final(self).page() == old(self).page().clamped(),
            final(self).same_file(old(self)),
            final(self).lines == old(self).lines,
            final(self).page().in_text(),
            texts(cells@) == final(self).page().cells(),
    {
        if self.row >= self.lines.len() {
            self.row = self.lines.len() - 1;
        }
        let cells = split_graphemes(self.lines[self.row].as_str());
        if self.col > cells.len() {
            self.col = cells.len();
        }
        assert(texts(cells@).len() == cells@.len());
        cells
    }

    /// Moves the cursor one cluster to the left, if there is one.
    pub fn move_left(&mut self)
        requires
            old(self).wf(),
        ensures
            final(self).wf(),
            final(self).page() == old(self).page().left(),
            final(self).same_file(old(self)),
    {
        if self.col > 0 {
            self.col -= 1;
        }
    }

    /// Moves the cursor one column to the right, be it past the end of the
    /// line.
    pub fn move_right(&mut self)
        requires
            old(self).wf(),
            old(self).col < usize::MAX,
        ensures
            final(self).wf(),
            final(self).page() == old(self).page().right(),
            final(self).same_file(old(self)),
    {
        self.col += 1;
    }

    /// Moves the cursor one line up, if there is one.
    pub fn move_up(&mut self)
        requires
            old(self).wf(),
        ensures
            final(self).wf(),
            final(self).page() == old(self).page().up(),
            final(self).same_file(old(self)),
    {
        if self.row > 0 {
            self.row -= 1;
        }
    }

    /// Moves the cursor one line down, be it below the last line.
    pub fn move_down(&mut self)
        requires
            old(self).wf(),
            old(self).row < usize::MAX,
        ensures
            final(self).wf(),
            final(self).page() == old(self).page().down(),
            final(self).same_file(old(self)),
    {
        self.row += 1;
    }

    /// Deletes the cluster under the cursor, and says whether there was
    /// one. The line then counts as edited. The cursor stays where it is.
    pub fn delete_cell(&mut self) -> (deleted: bool)
        requires
            old(self).wf(),
            old(self).page().on_text(),
        ensures
            final(self).wf(),
            final(self).page() == old(self).page().delete_cell(),
            final(self).same_file(old(self)),
            deleted == (old(self).col < old(self).page().cells().len()),
    {
        let mut cells = split_graphemes(self.lines[self.row].as_str());
        assert(texts(cells@).len() == cells@.len());
        if self.col < cells.len() {
            let ghost before = texts(cells@);
            let _ = cells.remove(self.col);
            assert(texts(cells@) =~= before.remove(self.col as int));
            assert(texts(cells@).subrange(0, cells@.len() as int) =~= texts(cells@));
            let text = join(&cells, 0, cells.len());
            let row = self.row;
            self.lines[row] = text;
            assert(texts(self.lines@) =~= texts(old(self).lines@).update(row as int, text@));
            self.mark_line_as_modified(row);
            true
        } else {
            false
        }
    }

    /// Deletes the cursor's line. The line that takes its place counts as
    /// edited. The cursor keeps its column.
    pub fn delete_line(&mut self)
        requires
            old(self).wf(),
            old(self).lines@.len() > 1 ==> old(self).page().on_text(),
        ensures
            final(self).wf(),
            final(self).page() == old(self).page().delete_line(),
            final(self).same_file(old(self)),
    {
        if self.lines.len() > 1 {
            let _ = self.lines.remove(self.row);
            assert(texts(self.lines@) =~= texts(old(self).lines@).remove(self.row as int));
            if self.row >= self.lines.len() {
                self.row = self.lines.len() - 1;
            }
        } else {
            let mut lines: Vec<String> = Vec::new();
            lines.push(String::new());
            self.lines = lines;
            self.row = 0;
            assert(texts(self.lines@) =~= seq![Seq::<char>::empty()]);
        }
        let row = self.row;
        self.mark_line_as_modified(row);
    }

    /// Opens an empty line below the cursor's line and puts the cursor on
    /// it.
    pub fn open_below(&mut self)
        requires
            old(self).wf(),
            old(self).page().on_text(),
        ensures
            final(self).wf(),
            final(self).page() == old(self).page().open_below(),
            final(self).same_file(old(self)),
    {
        let count = self.lines.len();
        self.row += 1;
        let row = self.row;
        self.lines.insert(row, String::new());
        assert(texts(self.lines@) =~= texts(old(self).lines@).insert(row as int, Seq::empty()));
        self.col = 0;
        self.mark_line_as_modified(row);
    }

    /// Opens an empty line above the cursor's line and puts the cursor on
    /// it. A cursor just below the last line gets its line there.
    pub fn open_above(&mut self)
        requires
            old(self).wf(),
            old(self).row <= old(self).lines@.len(),
        ensures
            final(self).wf(),
            final(self).page() == old(self).page().open_above(),
            final(self).same_file(old(self)),
    {
        let row = self.row;
        self.lines.insert(row, String::new());
        assert(texts(self.lines@) =~= texts(old(self).lines@).insert(row as int, Seq::empty()));
        self.col = 0;
        self.mark_line_as_modified(row);
    }

    /// Breaks the cursor's line before the cursor.
    pub fn split_line(&mut self)
        requires
            old(self).wf(),
            old(self).page().on_text(),
        ensures
            final(self).wf(),
            final(self).page() == old(self).page().split(),
            final(self).same_file(old(self)),
    {
        let row = self.row;
        let count = self.lines.len();
        let cells = split_graphemes(self.lines[row].as_str());
        assert(texts(cells@).len() == cells@.len());
        let at = if self.col <= cells.len() {
            self.col
        } else {
            cells.len()
        };
        let before = join(&cells, 0, at);
        let after = join(&cells, at, cells.len());
        proof {
            assert(texts(cells@).subrange(0, at as int) =~= texts(cells@).take(at as int));
            assert(texts(cells@).subrange(at as int, cells@.len() as int) =~= texts(cells@).skip(
                at as int,
            ));
        }
        self.lines[row] = before;
        self.lines.insert(row + 1, after);
        assert(texts(self.lines@) =~= texts(old(self).lines@).update(row as int, before@).insert(
            row + 1,
            after@,
        ));
        self.row = row + 1;
        self.col = 0;
    }

    /// Deletes the cluster before the cursor, or joins the cursor's line to
    /// the one above.
    pub fn backspace(&mut self)
        requires
            old(self).wf(),
            old(self).page().can_backspace(),
        ensures
            final(self).wf(),
            final(self).page() == old(self).page().backspace(),
            final(self).same_file(old(self)),
    {
        if self.col > 0 {
            let mut cells = split_graphemes(self.lines[self.row].as_str());
            assert(texts(cells@).len() == cells@.len());
            self.col -= 1;
            let ghost before = texts(cells@);
            let _ = cells.remove(self.col);
            assert(texts(cells@) =~= before.remove(self.col as int));
            assert(texts(cells@).subrange(0, cells@.len() as int) =~= texts(cells@));
            let text = join(&cells, 0, cells.len());
            let row = self.row;
            self.lines[row] = text;
            assert(texts(self.lines@) =~= texts(old(self).lines@).update(row as int, text@));
        } else if self.row > 0 {
            let ghost start = texts(self.lines@);
            let below = self.lines.remove(self.row);
            self.row -= 1;
            let row = self.row;
            let above = split_graphemes(self.lines[row].as_str());
            self.col = above.len();
            let mut text = self.lines[row].clone();
            text.append(below.as_str());
            self.lines[row] = text;
            assert(texts(above@).len() == above@.len());
            assert(texts(self.lines@) =~= start.remove(row + 1).update(
                row as int,
                start[row as int] + start[row + 1],
            ));
        }
    }

    /// Puts `c` in before the cursor.
    pub fn insert_char(&mut self, c: char)
        requires
            old(self).wf(),
            old(self).page().in_text(),
        ensures
            final(self).wf(),
            final(self).page() == old(self).page().insert(c),
            final(self).same_file(old(self)),
    {
        let mut cells = split_graphemes(self.lines[self.row].as_str());
        assert(texts(cells@).len() == cells@.len());
        let ghost before = texts(cells@);
        cells.insert(self.col, char_string(c));
        assert(texts(cells@) =~= before.insert(self.col as int, seq![c]));
        assert(texts(cells@).subrange(0, cells@.len() as int) =~= texts(cells@));
        let text = join(&cells, 0, cells.len());
        let row = self.row;
        self.lines[row] = text;
        assert(texts(self.lines@) =~= texts(old(self).lines@).update(row as int, text@));
        self.col += 1;
    }
}

} // verus!
