//! How the highlights of one line are resolved for display.
//!
//! Highlights may overlap, run past the end of the line, or cut a character
//! in two. Drawing needs a clean cut of the line into pieces, each plain or of
//! one style. The highlights are taken in draw order: earlier start first,
//! and of two that start together the longer first; where all that is equal,
//! the one reported first. Going through them from left to right, one is
//! drawn if something of it is left after clamping to the line, if it starts
//! at or after the end of the last one drawn, and if both its ends fall
//! between characters. The others are passed over.

use vstd::prelude::*;
use vstd::string::StringSliceAdditionalSpecFns;
use vstd::utf8::{encode_utf8, is_char_boundary};
use crate::buffer::{on_line, Buffer, Content, Highlight};
use crate::style::SpanStyle;

verus! {

/// One piece of a line: the bytes from `start` up to `end`, drawn in `style`,
/// or plain where `style` is `None`.
#[derive(Clone, Copy, Debug, PartialEq, Eq)]
pub struct Segment {
    pub start: usize,
    pub end: usize,
    pub style: Option<SpanStyle>,
}

/// `a` is drawn strictly before `b`: it starts earlier, or starts at the same
/// byte and ends later.
pub open spec fn precedes(a: Highlight, b: Highlight) -> bool {
    a.start_byte < b.start_byte || (a.start_byte == b.start_byte && a.end_byte > b.end_byte)
}

/// `sorted` with `h` put behind every highlight that `h` does not strictly
/// precede.
pub open spec fn insert_span(sorted: Seq<Highlight>, h: Highlight) -> Seq<Highlight>
    decreases sorted.len(),
{
    if sorted.len() > 0 && precedes(h, sorted.last()) {
        insert_span(sorted.drop_last(), h).push(sorted.last())
    } else {
        sorted.push(h)
    }
}

/// The highlights in draw order. Highlights that neither precedes the other
/// keep the order in which they were reported.
pub open spec fn draw_order(spans: Seq<Highlight>) -> Seq<Highlight>
    decreases spans.len(),
{
    if spans.len() == 0 {
        spans
    } else {
        insert_span(draw_order(spans.drop_last()), spans.last())
    }
}

/// `offset`, or the length of the line where `offset` lies behind its end.
pub open spec fn clamp(offset: usize, len: nat) -> nat {
    if offset <= len {
        offset as nat
    } else {
        len
    }
}

/// Whether `h` is drawn on a line of bytes `bytes` when everything before
/// `cursor` is already drawn.
pub open spec fn visible(h: Highlight, bytes: Seq<u8>, cursor: nat) -> bool {
    let start = clamp(h.start_byte, bytes.len());
    let end = clamp(h.end_byte, bytes.len());
    &&& start < end
    &&& cursor <= start
    &&& is_char_boundary(bytes, start as int)
    &&& is_char_boundary(bytes, end as int)
}

/// The plain piece from `start` to `end`, or nothing where that is empty.
pub open spec fn plain(start: nat, end: nat) -> Seq<Segment> {
    if start < end {
        seq![Segment { start: start as usize, end: end as usize, style: None }]
    } else {
        seq![]
    }
}

/// The pieces from `cursor` to the end of the line, given the highlights that
/// are still to come, in draw order.
pub open spec fn lay_out(ordered: Seq<Highlight>, bytes: Seq<u8>, cursor: nat) -> Seq<Segment>
    decreases ordered.len(),
{
    if ordered.len() == 0 {
        plain(cursor, bytes.len())
    } else if visible(ordered.first(), bytes, cursor) {
        let h = ordered.first();
        let start = clamp(h.start_byte, bytes.len());
        let end = clamp(h.end_byte, bytes.len());
        plain(cursor, start) + seq![
            Segment { start: start as usize, end: end as usize, style: Some(h.style) },
        ] + lay_out(ordered.drop_first(), bytes, end)
    } else {
        lay_out(ordered.drop_first(), bytes, cursor)
    }
}

/// The pieces into which a line of bytes `bytes` falls under the highlights
/// `spans` reported for it.
pub open spec fn partition(spans: Seq<Highlight>, bytes: Seq<u8>) -> Seq<Segment> {
    lay_out(draw_order(spans), bytes, 0)
}

proof fn lemma_insert_at(sorted: Seq<Highlight>, h: Highlight, at: int)
    requires
        0 <= at <= sorted.len(),
        forall|k: int| at <= k < sorted.len() ==> precedes(h, #[trigger] sorted[k]),
        at == 0 || !precedes(h, sorted[at - 1]),
    ensures
        insert_span(sorted, h) == sorted.insert(at, h),
    decreases sorted.len(),
{
    if at < sorted.len() {
        assert(precedes(h, sorted[sorted.len() - 1]));
        lemma_insert_at(sorted.drop_last(), h, at);
        assert(sorted.drop_last().insert(at, h).push(sorted.last()) =~= sorted.insert(at, h));
    } else {
        assert(sorted.push(h) =~= sorted.insert(at, h));
    }
}

fn comes_before(a: &Highlight, b: &Highlight) -> (r: bool)
    ensures
        r == precedes(*a, *b),
{
    a.start_byte < b.start_byte || (a.start_byte == b.start_byte && a.end_byte > b.end_byte)
}

/// Puts highlights into draw order.
pub fn sort_for_drawing(spans: &Vec<Highlight>) -> (ordered: Vec<Highlight>)
    ensures
        ordered@ == draw_order(spans@),
{
    let mut ordered: Vec<Highlight> = Vec::new();
    let mut i: usize = 0;
    proof {
        assert(spans@.take(0) =~= Seq::<Highlight>::empty());
    }
    while i < spans.len()
        invariant
            i <= spans@.len(),
            ordered@ == draw_order(spans@.take(i as int)),
            ordered@.len() == i,
        decreases spans@.len() - i,
    {
        let h = spans[i];
        let mut at: usize = ordered.len();
        while at > 0 && comes_before(&h, &ordered[at - 1])
            invariant
                at <= ordered@.len(),
                forall|k: int| at <= k < ordered@.len() ==> precedes(h, #[trigger] ordered@[k]),
            decreases at,
        {
            at -= 1;
        }
        proof {
            lemma_insert_at(ordered@, h, at as int);
            assert(spans@.take(i + 1).drop_last() =~= spans@.take(i as int));
            assert(spans@.take(i + 1).last() == h);
        }
        ordered.insert(at, h);
        i += 1;
    }
    proof {
        assert(spans@.take(i as int) =~= spans@);
    }
    ordered
}

/// Cuts `line` into the pieces in which it is drawn under the highlights
/// `spans` reported for it.
pub fn partition_line(spans: &Vec<Highlight>, line: &str) -> (segments: Vec<Segment>)
    ensures
        segments@ == partition(spans@, line.spec_bytes()),
{
    let ordered = sort_for_drawing(spans);
    let len = line.as_bytes().len();
    let ghost bytes = line.spec_bytes();
    let mut segments: Vec<Segment> = Vec::new();
    let mut cursor: usize = 0;
    let mut i: usize = 0;
    proof {
        assert(ordered@.skip(0) =~= ordered@);
    }
    while i < ordered.len()
        invariant
            i <= ordered@.len(),
            bytes == line.spec_bytes(),
            len == bytes.len(),
            cursor <= len,
            segments@ + lay_out(ordered@.skip(i as int), bytes, cursor as nat) == lay_out(
                ordered@,
                bytes,
                0,
            ),
        decreases ordered@.len() - i,
    {
        let h = ordered[i];
        let start = if h.start_byte <= len { h.start_byte } else { len };
        let end = if h.end_byte <= len { h.end_byte } else { len };
        let ghost before = segments@;
        let ghost rest = ordered@.skip(i as int);
        proof {
            assert(rest.first() == h);
            assert(rest.drop_first() =~= ordered@.skip(i + 1));
        }
        if start < end && cursor <= start && line.is_char_boundary(start) && line.is_char_boundary(
            end,
        ) {
            if cursor < start {
                segments.push(Segment { start: cursor, end: start, style: None });
            }
            segments.push(Segment { start, end, style: Some(h.style) });
            proof {
                assert(visible(h, bytes, cursor as nat));
                assert(segments@ =~= before + (plain(cursor as nat, start as nat) + seq![
                    Segment { start, end, style: Some(h.style) },
                ]));
                assert(segments@ + lay_out(ordered@.skip(i + 1), bytes, end as nat) =~= before
                    + lay_out(rest, bytes, cursor as nat));
            }
            cursor = end;
        } else {
            proof {
                assert(!visible(h, bytes, cursor as nat));
            }
        }
        i += 1;
    }
    if cursor < len {
        segments.push(Segment { start: cursor, end: len, style: None });
    }
    proof {
        assert(ordered@.skip(i as int) =~= Seq::<Highlight>::empty());
    }
    segments
}

impl Content {
    /// The pieces in which line `n` is drawn.
    pub open spec fn segments(self, n: usize) -> Seq<Segment> {
        partition(on_line(self.highlights, n), encode_utf8(self.lines[n as int]))
    }
}

impl Buffer {
    /// The pieces in which line `n` is drawn.
    pub fn line_segments(&self, n: usize) -> (segments: Vec<Segment>)
        requires
            n < self.lines@.len(),
        ensures
            segments@ == self@.segments(n),
    {
        let spans = self.line_highlights(n);
        partition_line(&spans, self.lines[n].as_str())
    }
}

} // verus!
