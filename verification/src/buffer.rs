//! A text buffer: its lines, its cursor, and the highlights laid over it.

use vstd::prelude::*;
use vstd::utf8::encode_utf8;
use crate::style::SpanStyle;

verus! {

/// A styled byte range on one line. Offsets count UTF-8 bytes from the start
/// of the line.
#[derive(Clone, Copy, Debug, PartialEq, Eq)]
pub struct Highlight {
    pub line: usize,
    pub start_byte: usize,
    pub end_byte: usize,
    pub style: SpanStyle,
}

impl Highlight {
    /// A range runs forward: it may be empty, never inverted.
    pub open spec fn wf(&self) -> bool {
        self.start_byte <= self.end_byte
    }
}

/// The text of each line, as characters.
pub open spec fn texts(lines: Seq<String>) -> Seq<Seq<char>> {
    Seq::new(lines.len(), |i: int| lines[i]@)
}

/// The highlights of `all` that do not lie on `line`, in their order.
pub open spec fn without_line(all: Seq<Highlight>, line: usize) -> Seq<Highlight>
    decreases all.len(),
{
    if all.len() == 0 {
        all
    } else if all.last().line != line {
        without_line(all.drop_last(), line).push(all.last())
    } else {
        without_line(all.drop_last(), line)
    }
}

/// The highlights of `all` that lie on `line`, in their order.
pub open spec fn on_line(all: Seq<Highlight>, line: usize) -> Seq<Highlight>
    decreases all.len(),
{
    if all.len() == 0 {
        all
    } else if all.last().line == line {
        on_line(all.drop_last(), line).push(all.last())
    } else {
        on_line(all.drop_last(), line)
    }
}

/// What a buffer holds, apart from where its cursor stands: the text of its
/// lines, the highlights over them in the order in which they came, and
/// whether it was edited since it was last saved.
pub struct Content {
    pub lines: Seq<Seq<char>>,
    pub highlights: Seq<Highlight>,
    pub modified: bool,
}

impl Content {
    /// The text of line `n`, if there is such a line.
    pub open spec fn line(self, n: usize) -> Option<Seq<char>> {
        if n < self.lines.len() {
            Some(self.lines[n as int])
        } else {
            None
        }
    }

    /// The number of bytes that line `n` takes as UTF-8, if there is such a
    /// line.
    pub open spec fn line_len(self, n: usize) -> Option<nat> {
        match self.line(n) {
            Some(text) => Some(encode_utf8(text).len()),
            None => None,
        }
    }

    /// The content without the highlights of line `n`.
    pub open spec fn invalidate_line(self, n: usize) -> Content {
        Content { highlights: without_line(self.highlights, n), ..self }
    }

    /// The content after line `n` was edited: its highlights are gone and
    /// the content counts as modified.
    pub open spec fn mark_line_as_modified(self, n: usize) -> Content {
        Content { highlights: without_line(self.highlights, n), modified: true, ..self }
    }

    /// The content with line `n` replaced by `text`, which counts as an edit
    /// of that line. Without a line `n` the content is unchanged.
    pub open spec fn set_line(self, n: usize, text: Seq<char>) -> Content {
        if n < self.lines.len() {
            Content { lines: self.lines.update(n as int, text), ..self }.mark_line_as_modified(n)
        } else {
            self
        }
    }

    /// The content with `h` laid over it. A range that runs backwards covers
    /// nothing and is not kept.
    pub open spec fn add_highlight(self, h: Highlight) -> Content {
        if h.wf() {
            Content { highlights: self.highlights.push(h), ..self }
        } else {
            self
        }
    }

    /// The content without any highlight.
    pub open spec fn clear_highlights(self) -> Content {
        Content { highlights: Seq::empty(), ..self }
    }
}

/// One text with its file name, its cursor, the first row that is shown,
/// and the highlights that plugins have laid over it. Lines hold no line
/// endings.
pub struct Buffer {
    pub filename: Option<String>,
    pub lines: Vec<String>,
    pub row: usize,
    pub col: usize,
    pub top_row: usize,
    pub modified: bool,
    pub highlights: Vec<Highlight>,
}

impl View for Buffer {
    type V = Content;

    open spec fn view(&self) -> Content {
        Content {
            lines: texts(self.lines@),
            highlights: self.highlights@,
            modified: self.modified,
        }
    }
}

impl Buffer {
    /// A buffer always has a line for the cursor to stand on, and every
    /// highlight it holds runs forward.
    pub open spec fn wf(&self) -> bool {
        &&& self.lines@.len() > 0
        &&& forall|i: int|
            0 <= i < self.highlights@.len() ==> (#[trigger] self.highlights@[i]).wf()
    }

    /// Whether `other` has the cursor where this buffer has it, and the same
    /// file name.
    pub open spec fn same_place(&self, other: &Buffer) -> bool {
        &&& self.filename == other.filename
        &&& self.row == other.row
        &&& self.col == other.col
        &&& self.top_row == other.top_row
    }

    /// A buffer of one empty line, unmodified, with the cursor at its start.
    pub fn new(filename: Option<String>) -> (buffer: Buffer)
        ensures
            buffer.wf(),
            buffer.filename == filename,
            buffer@.lines == seq![Seq::<char>::empty()],
            buffer@.highlights.len() == 0,
            !buffer@.modified,
            buffer.row == 0,
            buffer.col == 0,
            buffer.top_row == 0,
    {
        let mut lines: Vec<String> = Vec::new();
        lines.push(String::new());
        let buffer = Buffer {
            filename,
            lines,
            row: 0,
            col: 0,
            top_row: 0,
            modified: false,
            highlights: Vec::new(),
        };
        assert(texts(buffer.lines@) =~= seq![Seq::<char>::empty()]);
        buffer
    }

    /// The byte length of line `n`; `None` where the buffer has no such line.
    pub fn line_len(&self, n: usize) -> (len: Option<usize>)
        ensures
            match self@.line_len(n) {
                Some(l) => len == Some(l as usize) && l <= usize::MAX,
                None => len is None,
            },
    {
        if n < self.lines.len() {
            Some(self.lines[n].as_str().as_bytes().len())
        } else {
            None
        }
    }

    /// A copy of line `n`; `None` where the buffer has no such line.
    pub fn line_text(&self, n: usize) -> (text: Option<String>)
        ensures
            match self@.line(n) {
                Some(t) => text matches Some(s) && s@ == t,
                None => text is None,
            },
    {
        if n < self.lines.len() {
            Some(self.lines[n].clone())
        } else {
            None
        }
    }

    /// The highlights that lie on `line`, in the order in which they came.
    pub fn line_highlights(&self, line: usize) -> (found: Vec<Highlight>)
        ensures
            found@ == on_line(self@.highlights, line),
    {
        let mut found: Vec<Highlight> = Vec::new();
        let mut i: usize = 0;
        proof {
            assert(self.highlights@.take(0) =~= Seq::<Highlight>::empty());
        }
        while i < self.highlights.len()
            invariant
                i <= self.highlights@.len(),
                found@ == on_line(self.highlights@.take(i as int), line),
            decreases self.highlights@.len() - i,
        {
            let h = self.highlights[i];
            proof {
                assert(self.highlights@.take(i + 1).drop_last() =~= self.highlights@.take(
                    i as int,
                ));
                assert(self.highlights@.take(i + 1).last() == h);
            }
            if h.line == line {
                found.push(h);
            }
            i += 1;
        }
        proof {
            assert(self.highlights@.take(i as int) =~= self.highlights@);
        }
        found
    }

    /// Drops every highlight of line `line`. The others stay, in their order.
    pub fn invalidate_line(&mut self, line: usize)
        ensures
            final(self)@ == old(self)@.invalidate_line(line),
            final(self).lines == old(self).lines,
            final(self).same_place(old(self)),
            old(self).wf() ==> final(self).wf(),
    {
        let mut kept: Vec<Highlight> = Vec::new();
        let mut i: usize = 0;
        proof {
            assert(self.highlights@.take(0) =~= Seq::<Highlight>::empty());
        }
        while i < self.highlights.len()
            invariant
                i <= self.highlights@.len(),
                kept@ == without_line(self.highlights@.take(i as int), line),
                self.wf() ==> forall|k: int| 0 <= k < kept@.len() ==> (#[trigger] kept@[k]).wf(),
            decreases self.highlights@.len() - i,
        {
            let h = self.highlights[i];
            proof {
                assert(self.highlights@.take(i + 1).drop_last() =~= self.highlights@.take(
                    i as int,
                ));
                assert(self.highlights@.take(i + 1).last() == h);
            }
            if h.line != line {
                kept.push(h);
            }
            i += 1;
        }
        proof {
            assert(self.highlights@.take(i as int) =~= self.highlights@);
        }
        self.highlights = kept;
    }

    /// Records that line `line_idx` was edited: its highlights are stale and
    /// go, and the buffer counts as modified.
    pub fn mark_line_as_modified(&mut self, line_idx: usize)
        ensures
            final(self)@ == old(self)@.mark_line_as_modified(line_idx),
            final(self).lines == old(self).lines,
            final(self).same_place(old(self)),
            old(self).wf() ==> final(self).wf(),
    {
        self.invalidate_line(line_idx);
        self.modified = true;
    }

    /// Replaces line `n` by `text`. The line counts as edited: its highlights
    /// go and the buffer is modified. Where the buffer has no line `n`,
    /// nothing changes.
    pub fn set_line(&mut self, n: usize, text: String) -> (done: bool)
        ensures
            done == (n < old(self)@.lines.len()),
            final(self)@ == old(self)@.set_line(n, text@),
            final(self).same_place(old(self)),
            final(self).lines@.len() == old(self).lines@.len(),
            old(self).wf() ==> final(self).wf(),
    {
        if n < self.lines.len() {
            self.lines[n] = text;
            assert(texts(self.lines@) =~= texts(old(self).lines@).update(n as int, text@));
            self.mark_line_as_modified(n);
            true
        } else {
            false
        }
    }

    /// Lays `h` over the buffer, after the highlights already there. A range
    /// that runs backwards covers nothing and is not kept.
    pub fn add_highlight(&mut self, h: Highlight)
        ensures
            final(self)@ == old(self)@.add_highlight(h),
            final(self).lines == old(self).lines,
            final(self).same_place(old(self)),
            old(self).wf() ==> final(self).wf(),
    {
        if h.start_byte <= h.end_byte {
            self.highlights.push(h);
        }
    }

    /// Drops every highlight of the buffer.
    pub fn clear_highlights(&mut self)
        ensures
            final(self)@ == old(self)@.clear_highlights(),
            final(self).lines == old(self).lines,
            final(self).same_place(old(self)),
            old(self).wf() ==> final(self).wf(),
    {
        self.highlights.clear();
    }
}

} // verus!
