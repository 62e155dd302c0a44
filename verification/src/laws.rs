//! What holds of the bridge as a whole.
//!
//! Each law is proved from the definitions that the contracts of the
//! library speak in, for all the values it is stated of.

use vstd::prelude::*;
use vstd::utf8::{
    decode_utf8, encode_utf8, encode_utf8_decode_utf8, encode_utf8_valid_utf8, is_char_boundary,
    is_char_boundary_start_end_of_seq, valid_utf8,
};
use crate::abi::{data_code, delivered, len_code, QUERY_FAILED};
use crate::bridge::PluginEffect;
use crate::buffer::{on_line, without_line, Content, Highlight};
use crate::editor::Shared;
use crate::marshal::in_bounds;
use crate::render::{
    clamp, draw_order, insert_span, lay_out, partition, plain, precedes, visible, Segment,
};
use crate::runtime::spliced;

verus! {

/// A line that a plugin has set reads back as the same text, byte for byte:
/// once the editor has applied `set_buffer_line` with `text` for an
/// existing line, that line is `text` and has the length of its bytes, and a
/// `get_buffer_line_data` for it into a room that is large enough and lies
/// within the guest's memory answers with that length and leaves exactly
/// the bytes of `text` in the room, from which `text` is read again. The
/// memory keeps its size, and every byte outside the room is as it was.
pub proof fn law_line_round_trip(
    state: Shared,
    line: usize,
    text: Seq<char>,
    ptr: i32,
    capacity: i32,
    memory: Seq<u8>,
)
    requires
        state.line(line) is Some,
        encode_utf8(text).len() <= capacity,
        in_bounds(ptr as int, capacity as int, memory.len()),
    ensures
        state.set_line(line, text).line(line) == Some(text),
        state.set_line(line, text).line_len(line) == Some(encode_utf8(text).len()),
        data_code(Some(encode_utf8(text)), true, ptr, capacity, memory.len()) == encode_utf8(
            text,
        ).len(),
        spliced(memory, ptr as int, encode_utf8(text)).subrange(
            ptr as int,
            ptr + encode_utf8(text).len(),
        ) == encode_utf8(text),
        valid_utf8(encode_utf8(text)),
        decode_utf8(encode_utf8(text)) == text,
        delivered(
            memory,
            Some(encode_utf8(text)),
            ptr,
            data_code(Some(encode_utf8(text)), true, ptr, capacity, memory.len()),
        ) == spliced(memory, ptr as int, encode_utf8(text)),
        spliced(memory, ptr as int, encode_utf8(text)).len() == memory.len(),
        forall|at: int|
            0 <= at < memory.len() && !(ptr <= at < ptr + encode_utf8(text).len()) ==> spliced(
                memory,
                ptr as int,
                encode_utf8(text),
            )[at] == memory[at],
{
    let sent = encode_utf8(text);
    encode_utf8_valid_utf8(text);
    encode_utf8_decode_utf8(text);
    assert(spliced(memory, ptr as int, sent).subrange(ptr as int, ptr + sent.len()) =~= sent);
}

/// What is set is what the next effect finds: applying `SetBufferLine` for
/// an existing line leaves that line with the text of the effect, whatever
/// was applied before.
pub proof fn law_set_line_is_seen(state: Shared, before: Seq<PluginEffect>, effect: PluginEffect)
    requires
        effect matches PluginEffect::SetBufferLine { line_num, .. } && state.apply_all(
            before,
        ).line(line_num) is Some,
    ensures
        effect matches PluginEffect::SetBufferLine { line_num, text, .. } && state.apply_all(
            before.push(effect),
        ).line(line_num) == Some(text@),
{
    assert(before.push(effect).drop_last() =~= before);
}

/// A line that does not exist cannot be queried: where the active buffer
/// has no line `line`, or there is no active buffer, the editor has neither
/// a length nor a text for it, and both queries answer with `QUERY_FAILED`,
/// whatever pointer and room the guest gave. The guest's memory stays as
/// it is.
pub proof fn law_missing_line_fails(
    state: Shared,
    line: usize,
    has_memory: bool,
    ptr: i32,
    capacity: i32,
    memory: Seq<u8>,
)
    requires
        state.active_content() matches Some(content) ==> line >= content.lines.len(),
    ensures
        state.line_len(line) is None,
        state.line(line) is None,
        len_code(None) == QUERY_FAILED,
        data_code(None, has_memory, ptr, capacity, memory.len()) == QUERY_FAILED,
        delivered(memory, None, ptr, QUERY_FAILED) == memory,
        QUERY_FAILED == -1,
{
}

/// The answer to a length query tells failure from success: it is
/// `QUERY_FAILED` where there was no reply or the length is more than a
/// guest integer can say, and else the length itself, which is not
/// negative.
pub proof fn law_length_tells_failure_apart(answer: Option<usize>)
    ensures
        len_code(answer) == QUERY_FAILED <==> (answer matches Some(len) ==> len > i32::MAX),
        answer matches Some(len) ==> (len <= i32::MAX ==> len_code(answer) == len),
{
}

/// A query that is not answered fails: without a reply, be it that the
/// editor is gone or that it did not answer in time, the length query
/// answers with `QUERY_FAILED`, and so does the request for a line,
/// whatever pointer and room the guest gave. The guest's memory stays as
/// it is.
pub proof fn law_unanswered_query_fails(
    has_memory: bool,
    ptr: i32,
    capacity: i32,
    memory: Seq<u8>,
)
    ensures
        len_code(None) == QUERY_FAILED,
        data_code(None, has_memory, ptr, capacity, memory.len()) == QUERY_FAILED,
        delivered(memory, None, ptr, QUERY_FAILED) == memory,
{
}

/// An edited line has no highlights: after a line was replaced, nothing
/// lies over it any more, and it is drawn plain.
pub proof fn law_edit_invalidates_highlights(content: Content, line: usize, text: Seq<char>)
    requires
        line < content.lines.len(),
    ensures
        on_line(content.set_line(line, text).highlights, line).len() == 0,
        content.set_line(line, text).segments(line) == plain(0, encode_utf8(text).len()),
{
    lemma_none_left_on_line(content.highlights, line);
    assert(draw_order(Seq::<Highlight>::empty()) =~= Seq::<Highlight>::empty());
}

proof fn lemma_none_left_on_line(all: Seq<Highlight>, line: usize)
    ensures
        on_line(without_line(all, line), line) =~= Seq::<Highlight>::empty(),
    decreases all.len(),
{
    if all.len() > 0 {
        lemma_none_left_on_line(all.drop_last(), line);
        if all.last().line != line {
            let kept = without_line(all.drop_last(), line);
            assert(kept.push(all.last()).drop_last() =~= kept);
        }
    }
}

/// Whether `pieces` cut the bytes from `from` up to `to` of a line into
/// consecutive, non-empty pieces whose ends fall between characters.
pub open spec fn tiles(pieces: Seq<Segment>, bytes: Seq<u8>, from: nat, to: nat) -> bool
    decreases pieces.len(),
{
    if pieces.len() == 0 {
        from == to
    } else {
        &&& pieces[0].start == from
        &&& from < pieces[0].end <= to
        &&& is_char_boundary(bytes, pieces[0].end as int)
        &&& tiles(pieces.drop_first(), bytes, pieces[0].end as nat, to)
    }
}

proof fn lemma_tiles_join(
    a: Seq<Segment>,
    b: Seq<Segment>,
    bytes: Seq<u8>,
    from: nat,
    mid: nat,
    to: nat,
)
    requires
        tiles(a, bytes, from, mid),
        tiles(b, bytes, mid, to),
    ensures
        tiles(a + b, bytes, from, to),
    decreases a.len(),
{
    if a.len() == 0 {
        assert(a + b =~= b);
    } else {
        lemma_tiles_join(a.drop_first(), b, bytes, a[0].end as nat, mid, to);
        assert((a + b).drop_first() =~= a.drop_first() + b);
    }
}

proof fn lemma_tiles_reach(pieces: Seq<Segment>, bytes: Seq<u8>, from: nat, to: nat)
    requires
        tiles(pieces, bytes, from, to),
    ensures
        from <= to,
        forall|i: int| 0 <= i < pieces.len() ==> from <= (#[trigger] pieces[i]).start < pieces[i].end <= to,
    decreases pieces.len(),
{
    if pieces.len() > 0 {
        lemma_tiles_reach(pieces.drop_first(), bytes, pieces[0].end as nat, to);
        assert forall|i: int| 0 <= i < pieces.len() implies from <= (#[trigger] pieces[i]).start
            < pieces[i].end <= to by {
            if i > 0 {
                assert(pieces[i] == pieces.drop_first()[i - 1]);
            }
        }
    }
}

proof fn lemma_plain_tiles(bytes: Seq<u8>, from: nat, to: nat)
    requires
        valid_utf8(bytes),
        from <= to <= usize::MAX,
        is_char_boundary(bytes, to as int),
    ensures
        tiles(plain(from, to), bytes, from, to),
{
    reveal_with_fuel(tiles, 2);
    if from < to {
        assert(plain(from, to).drop_first() =~= Seq::<Segment>::empty());
    }
}

proof fn lemma_lay_out_tiles(ordered: Seq<Highlight>, bytes: Seq<u8>, cursor: nat)
    requires
        valid_utf8(bytes),
        bytes.len() <= usize::MAX,
        cursor <= bytes.len(),
    ensures
        tiles(lay_out(ordered, bytes, cursor), bytes, cursor, bytes.len()),
    decreases ordered.len(),
{
    is_char_boundary_start_end_of_seq(bytes);
    if ordered.len() == 0 {
        lemma_plain_tiles(bytes, cursor, bytes.len());
    } else if visible(ordered.first(), bytes, cursor) {
        let h = ordered.first();
        let start = clamp(h.start_byte, bytes.len());
        let end = clamp(h.end_byte, bytes.len());
        let styled = seq![
            Segment { start: start as usize, end: end as usize, style: Some(h.style) },
        ];
        lemma_plain_tiles(bytes, cursor, start);
        lemma_lay_out_tiles(ordered.drop_first(), bytes, end);
        assert(tiles(styled, bytes, start, end)) by {
            reveal_with_fuel(tiles, 2);
            assert(styled.drop_first() =~= Seq::<Segment>::empty());
        }
        lemma_tiles_join(plain(cursor, start), styled, bytes, cursor, start, end);
        lemma_tiles_join(
            plain(cursor, start) + styled,
            lay_out(ordered.drop_first(), bytes, end),
            bytes,
            cursor,
            end,
            bytes.len(),
        );
    } else {
        lemma_lay_out_tiles(ordered.drop_first(), bytes, cursor);
    }
}

/// Drawing never reaches past the end of a line, whatever the highlights
/// say: the pieces of a line cut it from its first byte to its last into
/// consecutive, non-empty pieces, each of which ends between two characters
/// and none of which ends behind the line.
pub proof fn law_pieces_tile_the_line(spans: Seq<Highlight>, text: Seq<char>)
    requires
        encode_utf8(text).len() <= usize::MAX,
    ensures
        tiles(partition(spans, encode_utf8(text)), encode_utf8(text), 0, encode_utf8(text).len()),
        forall|i: int|
            0 <= i < partition(spans, encode_utf8(text)).len() ==> (#[trigger] partition(
                spans,
                encode_utf8(text),
            )[i]).start < partition(spans, encode_utf8(text))[i].end <= encode_utf8(text).len(),
{
    let bytes = encode_utf8(text);
    encode_utf8_valid_utf8(text);
    lemma_lay_out_tiles(draw_order(spans), bytes, 0);
    lemma_tiles_reach(partition(spans, bytes), bytes, 0, bytes.len());
}

/// A highlight is cut off at the end of its line: one that is drawn is
/// drawn from its start to its end or to the end of the line, whichever
/// comes first.
pub proof fn law_drawn_span_is_clamped(ordered: Seq<Highlight>, bytes: Seq<u8>, cursor: nat)
    requires
        ordered.len() > 0,
        visible(ordered.first(), bytes, cursor),
        cursor == clamp(ordered.first().start_byte, bytes.len()),
    ensures
        lay_out(ordered, bytes, cursor).first() == (Segment {
            start: ordered.first().start_byte,
            end: if ordered.first().end_byte <= bytes.len() {
                ordered.first().end_byte
            } else {
                bytes.len() as usize
            },
            style: Some(ordered.first().style),
        }),
{
}

proof fn lemma_insert_somewhere(sorted: Seq<Highlight>, h: Highlight) -> (at: int)
    ensures
        0 <= at <= sorted.len(),
        insert_span(sorted, h) == sorted.insert(at, h),
    decreases sorted.len(),
{
    if sorted.len() > 0 && precedes(h, sorted.last()) {
        let at = lemma_insert_somewhere(sorted.drop_last(), h);
        assert(sorted.drop_last().insert(at, h).push(sorted.last()) =~= sorted.insert(at, h));
        at
    } else {
        assert(sorted.push(h) =~= sorted.insert(sorted.len() as int, h));
        sorted.len() as int
    }
}

proof fn lemma_unseen_span_is_skipped(
    ordered: Seq<Highlight>,
    at: int,
    h: Highlight,
    bytes: Seq<u8>,
    cursor: nat,
)
    requires
        0 <= at <= ordered.len(),
        clamp(h.start_byte, bytes.len()) >= clamp(h.end_byte, bytes.len()),
    ensures
        lay_out(ordered.insert(at, h), bytes, cursor) == lay_out(ordered, bytes, cursor),
    decreases at,
{
    let with = ordered.insert(at, h);
    if at == 0 {
        assert(with.drop_first() =~= ordered);
    } else {
        assert(with.first() == ordered.first());
        assert(with.drop_first() =~= ordered.drop_first().insert(at - 1, h));
        let next = if visible(ordered.first(), bytes, cursor) {
            clamp(ordered.first().end_byte, bytes.len())
        } else {
            cursor
        };
        lemma_unseen_span_is_skipped(ordered.drop_first(), at - 1, h, bytes, next);
    }
}

/// A highlight of which nothing is left within the line changes nothing of
/// how the line is drawn: one of no width, one that runs backwards, one
/// that starts at or behind the end of the line.
pub proof fn law_empty_span_is_not_drawn(spans: Seq<Highlight>, h: Highlight, bytes: Seq<u8>)
    requires
        clamp(h.start_byte, bytes.len()) >= clamp(h.end_byte, bytes.len()),
    ensures
        partition(spans.push(h), bytes) == partition(spans, bytes),
{
    assert(spans.push(h).drop_last() =~= spans);
    let at = lemma_insert_somewhere(draw_order(spans), h);
    lemma_unseen_span_is_skipped(draw_order(spans), at, h, bytes, 0);
}

proof fn lemma_insert_keeps_order(sorted: Seq<Highlight>, h: Highlight)
    requires
        forall|i: int, j: int| 0 <= i < j < sorted.len() ==> !precedes(sorted[j], sorted[i]),
    ensures
        forall|i: int, j: int|
            0 <= i < j < insert_span(sorted, h).len() ==> !precedes(
                insert_span(sorted, h)[j],
                insert_span(sorted, h)[i],
            ),
        insert_span(sorted, h).len() == sorted.len() + 1,
        insert_span(sorted, h).to_multiset() == sorted.to_multiset().insert(h),
        forall|i: int| 0 <= i < insert_span(sorted, h).len() ==> insert_span(sorted, h)[i] == h
            || sorted.contains(#[trigger] insert_span(sorted, h)[i]),
    decreases sorted.len(),
{
    broadcast use vstd::seq_lib::group_to_multiset_ensures;

    let out = insert_span(sorted, h);
    if sorted.len() > 0 && precedes(h, sorted.last()) {
        let rest = sorted.drop_last();
        let inner = insert_span(rest, h);
        lemma_insert_keeps_order(rest, h);
        assert(out == inner.push(sorted.last()));
        assert forall|i: int, j: int| 0 <= i < j < out.len() implies !precedes(out[j], out[i]) by {
            if j == out.len() - 1 {
                if inner[i] != h {
                    assert(rest.contains(inner[i]));
                    let k = choose|k: int| 0 <= k < rest.len() && rest[k] == inner[i];
                    assert(sorted[k] == inner[i]);
                    assert(!precedes(sorted[sorted.len() - 1], sorted[k]));
                }
            }
        }
        assert(sorted =~= rest.push(sorted.last()));
        assert(out.to_multiset() =~= sorted.to_multiset().insert(h));
        assert forall|i: int| 0 <= i < out.len() implies out[i] == h || sorted.contains(
            #[trigger] out[i],
        ) by {
            if i == out.len() - 1 {
                assert(sorted[sorted.len() - 1] == out[i]);
            } else if inner[i] != h {
                let k = choose|k: int| 0 <= k < rest.len() && rest[k] == inner[i];
                assert(sorted[k] == out[i]);
            }
        }
    } else {
        assert(out == sorted.push(h));
        assert forall|i: int, j: int| 0 <= i < j < out.len() implies !precedes(out[j], out[i]) by {
            if j == out.len() - 1 && sorted.len() > 0 {
                assert(!precedes(h, sorted[sorted.len() - 1]));
                if i < sorted.len() - 1 {
                    assert(!precedes(sorted[sorted.len() - 1], sorted[i]));
                }
            }
        }
        assert forall|i: int| 0 <= i < out.len() implies out[i] == h || sorted.contains(
            #[trigger] out[i],
        ) by {
            if i < sorted.len() {
                assert(sorted[i] == out[i]);
            }
        }
    }
}

/// The draw order is an order: it holds the highlights that were reported,
/// each as often as it was reported, and none of them strictly precedes one
/// that stands before it.
pub proof fn law_draw_order_sorts(spans: Seq<Highlight>)
    ensures
        draw_order(spans).len() == spans.len(),
        draw_order(spans).to_multiset() == spans.to_multiset(),
        forall|i: int, j: int|
            0 <= i < j < draw_order(spans).len() ==> !precedes(
                draw_order(spans)[j],
                draw_order(spans)[i],
            ),
    decreases spans.len(),
{
    broadcast use vstd::seq_lib::group_to_multiset_ensures;

    if spans.len() > 0 {
        law_draw_order_sorts(spans.drop_last());
        lemma_insert_keeps_order(draw_order(spans.drop_last()), spans.last());
        assert(spans =~= spans.drop_last().push(spans.last()));
    }
}

} // verus!
