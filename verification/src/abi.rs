//! The functions that a guest can call.
//!
//! Guests import them from the module `host`. Their arguments are guest
//! integers and nothing about them is taken for granted: an index may be
//! negative, a pointer may point anywhere, a length may be absurd. Each
//! function decodes what it is given, moves bytes through the checked
//! operations of [`GuestMemory`], and turns the rest into an effect for the
//! editor. A function that returns a number reports failure by a negative
//! one; a function that returns nothing fails by doing nothing.

use vstd::prelude::*;
use vstd::string::StringSliceAdditionalSpecFns;
use vstd::utf8::encode_utf8;
use crossbeam_channel::Sender;
use wasmtime::Caller;
use crate::bridge::{
    ask_add_highlight, ask_clear_highlights, ask_line_data, ask_line_len, ask_set_line, post,
    PluginEffect,
};
use crate::marshal::{in_bounds, GuestMemory};
use crate::runtime::{caller_memory, spliced};

verus! {

/// A query was not answered: the line does not exist, or the editor did not
/// reply in time.
pub const QUERY_FAILED: i32 = -1;

/// The guest exports no memory to write into.
pub const NO_MEMORY: i32 = -2;

/// The line is longer than the room that the guest offers.
pub const CAPACITY_TOO_SMALL: i32 = -3;

/// The guest's buffer does not lie within its memory.
pub const WRITE_FAILED: i32 = -4;

/// The index that a guest integer stands for. A negative integer stands for
/// the same bits read without a sign, an index far beyond any buffer.
pub open spec fn index_of(raw: i32) -> usize {
    raw as usize
}

/// The colour channel that a guest integer stands for: its lowest byte.
pub open spec fn channel_of(raw: i32) -> u8 {
    raw as u8
}

/// The colour that three guest integers stand for. A negative red says that
/// no colour is given.
pub open spec fn color_of(r: i32, g: i32, b: i32) -> Option<(u8, u8, u8)> {
    if r >= 0 {
        Some((channel_of(r), channel_of(g), channel_of(b)))
    } else {
        None
    }
}

/// The number that answers a length query.
pub open spec fn len_code(answer: Option<usize>) -> i32 {
    match answer {
        Some(len) => if len <= i32::MAX {
            len as i32
        } else {
            QUERY_FAILED
        },
        None => QUERY_FAILED,
    }
}

/// The number that answers a line request once the line is at hand: the
/// length of `text` if it fits the guest's room and the room lies within the
/// guest's memory of `size` bytes.
pub open spec fn copy_code(text: Seq<u8>, ptr: i32, capacity: i32, size: nat) -> i32 {
    if text.len() > capacity {
        CAPACITY_TOO_SMALL
    } else if !in_bounds(ptr as int, text.len() as int, size) {
        WRITE_FAILED
    } else {
        text.len() as i32
    }
}

/// The number that answers a line request: what the editor replied decides
/// first, then whether the guest has a memory, then `copy_code`.
pub open spec fn data_code(
    answer: Option<Seq<u8>>,
    has_memory: bool,
    ptr: i32,
    capacity: i32,
    size: nat,
) -> i32 {
    match answer {
        None => QUERY_FAILED,
        Some(text) => if has_memory {
            copy_code(text, ptr, capacity, size)
        } else {
            NO_MEMORY
        },
    }
}

/// The UTF-8 form of a reply, if there is one.
pub open spec fn reply_bytes(answer: Option<String>) -> Option<Seq<u8>> {
    match answer {
        Some(text) => Some(encode_utf8(text@)),
        None => None,
    }
}

/// Decodes a guest integer as an index.
pub fn decode_index(raw: i32) -> (index: usize)
    ensures
        index == index_of(raw),
        raw >= 0 ==> index == raw,
{
    #[verifier::truncate]
    (raw as usize)
}

/// Decodes three guest integers as a colour.
pub fn decode_color(r: i32, g: i32, b: i32) -> (color: Option<(u8, u8, u8)>)
    ensures
        color == color_of(r, g, b),
{
    if r >= 0 {
        Some((
            #[verifier::truncate]
            (r as u8),
            #[verifier::truncate]
            (g as u8),
            #[verifier::truncate]
            (b as u8),
        ))
    } else {
        None
    }
}

/// Encodes the answer to a length query. A length that a guest integer
/// cannot say counts as a failure.
pub fn encode_len(answer: Option<usize>) -> (code: i32)
    ensures
        code == len_code(answer),
        code >= QUERY_FAILED,
{
    match answer {
        Some(len) => if len <= i32::MAX as usize {
            len as i32
        } else {
            QUERY_FAILED
        },
        None => QUERY_FAILED,
    }
}

/// Copies a line into the room that the guest offers for it, `capacity`
/// bytes from `ptr` on, and answers with the number of bytes written or with
/// the reason why none were. Unless the answer is a length, the guest's
/// memory stays as it is.
pub fn copy_line_out(
    guest: &mut GuestMemory<'_>,
    text: &str,
    ptr: i32,
    capacity: i32,
) -> (code: i32)
    requires
        old(guest).wf(),
    ensures
        final(guest).wf(),
        code == copy_code(text.spec_bytes(), ptr, capacity, old(guest)@.len()),
        code >= 0 ==> final(guest)@ == spliced(old(guest)@, ptr as int, text.spec_bytes()),
        code < 0 ==> final(guest)@ == old(guest)@,
{
    let bytes = text.as_bytes();
    if capacity < 0 || bytes.len() > capacity as usize {
        return CAPACITY_TOO_SMALL;
    }
    match guest.write_bytes(ptr, bytes) {
        Ok(()) => bytes.len() as i32,
        Err(_) => WRITE_FAILED,
    }
}

/// The number of bytes in the memory that was found, none where none was.
pub open spec fn room(found: Option<GuestMemory<'_>>) -> nat {
    match found {
        Some(guest) => guest@.len(),
        None => 0,
    }
}

/// The bytes of the memory that was found after a line request was
/// answered with `code`: the line lies at `ptr` if the answer is a length,
/// and nothing has changed if it is not.
pub open spec fn delivered(before: Seq<u8>, answer: Option<Seq<u8>>, ptr: i32, code: i32) -> Seq<
    u8,
> {
    match answer {
        Some(text) => if code >= 0 {
            spliced(before, ptr as int, text)
        } else {
            before
        },
        None => before,
    }
}

/// Answers a line request with what the editor replied and what memory the
/// guest was found to have. Without a reply the request failed, and the
/// memory stays untouched; with one, the line goes to the guest if the
/// guest has a memory and room.
pub fn answer_line_request(
    found: &mut Option<GuestMemory<'_>>,
    answer: Option<String>,
    ptr: i32,
    capacity: i32,
) -> (code: i32)
    requires
        *old(found) matches Some(guest) ==> guest.wf(),
    ensures
        code == data_code(
            reply_bytes(answer),
            *old(found) is Some,
            ptr,
            capacity,
            room(*old(found)),
        ),
        *final(found) is Some <==> *old(found) is Some,
        *old(found) matches Some(before) ==> (*final(found) matches Some(after) && after.wf()
            && after@ == delivered(before@, reply_bytes(answer), ptr, code)),
{
    let text = match answer {
        Some(text) => text,
        None => {
            return QUERY_FAILED;
        },
    };
    match found {
        None => NO_MEMORY,
        Some(guest) => copy_line_out(guest, text.as_str(), ptr, capacity),
    }
}

/// Answers a line request with what the editor replied, in the memory that
/// the calling guest exports as `memory`.
pub fn deliver_line_data(
    caller: &mut Caller<'_, ()>,
    answer: Option<String>,
    ptr: i32,
    capacity: i32,
) -> (code: i32)
    ensures
        exists|has_memory: bool, size: nat|
            code == data_code(reply_bytes(answer), has_memory, ptr, capacity, size),
        answer is None ==> code == QUERY_FAILED,
        code >= WRITE_FAILED,
{
    let mut found = match caller_memory(caller, "memory") {
        None => None,
        Some((ctx, memory)) => Some(GuestMemory { ctx, memory }),
    };
    let ghost size = room(found);
    let ghost has_memory = found is Some;
    let code = answer_line_request(&mut found, answer, ptr, capacity);
    assert(code == data_code(reply_bytes(answer), has_memory, ptr, capacity, size));
    code
}

/// `emit_message(ptr, len)`: shows the guest's text as a status message. A
/// range outside the guest's memory, or bytes that are not UTF-8, are
/// dropped without a word.
pub fn emit_message(
    caller: &mut Caller<'_, ()>,
    effects: &Sender<PluginEffect>,
    ptr: i32,
    len: i32,
) {
    if let Some((ctx, memory)) = caller_memory(caller, "memory") {
        let guest = GuestMemory { ctx, memory };
        if let Ok(message) = guest.read_utf8(ptr, len) {
            let _ = post(effects, PluginEffect::Echo(message));
        }
    }
}

/// `get_buffer_line_len(line)`: the byte length of a line of the active
/// buffer, or `QUERY_FAILED`.
pub fn get_buffer_line_len(effects: &Sender<PluginEffect>, line: i32) -> (code: i32)
    ensures
        exists|answer: Option<usize>| code == len_code(answer),
        code >= QUERY_FAILED,
{
    encode_len(ask_line_len(effects, decode_index(line)))
}

/// `get_buffer_line_data(line, ptr, capacity)`: copies a line of the active
/// buffer into the guest's memory and answers with the number of bytes
/// written, or with one of the four failure codes.
pub fn get_buffer_line_data(
    caller: &mut Caller<'_, ()>,
    effects: &Sender<PluginEffect>,
    line: i32,
    ptr: i32,
    capacity: i32,
) -> (code: i32)
    ensures
        exists|answer: Option<Seq<u8>>, has_memory: bool, size: nat|
            code == data_code(answer, has_memory, ptr, capacity, size),
        code >= WRITE_FAILED,
{
    let answer = ask_line_data(effects, decode_index(line));
    deliver_line_data(caller, answer, ptr, capacity)
}

/// `set_buffer_line(line, ptr, len)`: replaces a line of the active buffer
/// by the guest's text, and comes back when the editor has done so. Text
/// that cannot be read from the guest changes nothing.
pub fn set_buffer_line(
    caller: &mut Caller<'_, ()>,
    effects: &Sender<PluginEffect>,
    line: i32,
    ptr: i32,
    len: i32,
) {
    if let Some((ctx, memory)) = caller_memory(caller, "memory") {
        let guest = GuestMemory { ctx, memory };
        if let Ok(text) = guest.read_utf8(ptr, len) {
            let _ = ask_set_line(effects, decode_index(line), text);
        }
    }
}

/// `add_highlight(line, start, end, fg_r, fg_g, fg_b, bg_r, bg_g, bg_b)`:
/// lays colours over a byte range and comes back when the editor has done
/// so. A negative red leaves that side without a colour.
pub fn add_highlight(
    effects: &Sender<PluginEffect>,
    line: i32,
    start: i32,
    end: i32,
    fg_r: i32,
    fg_g: i32,
    fg_b: i32,
    bg_r: i32,
    bg_g: i32,
    bg_b: i32,
) {
    let fg = decode_color(fg_r, fg_g, fg_b);
    let bg = decode_color(bg_r, bg_g, bg_b);
    let _ = ask_add_highlight(
        effects,
        decode_index(line),
        decode_index(start),
        decode_index(end),
        fg,
        bg,
    );
}

/// `apply_text_style(line, start_byte, end_byte, style_id)`: reports a
/// computed style. Nothing is waited for.
pub fn apply_text_style(
    effects: &Sender<PluginEffect>,
    line: u32,
    start_byte: u32,
    end_byte: u32,
    style_id: u32,
) {
    let _ = post(effects, PluginEffect::ApplyTextStyle { line, start_byte, end_byte, style_id });
}

/// `clear_highlights()`: drops all highlights of the active buffer and comes
/// back when the editor has done so.
pub fn clear_highlights(effects: &Sender<PluginEffect>) {
    let _ = ask_clear_highlights(effects);
}

} // verus!
