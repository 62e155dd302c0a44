//! Requests from plugins to the owner of the buffers.
//!
//! A plugin never touches a buffer. Each thing it asks for is an effect: a
//! message that is queued for the editor's own thread. A notification is
//! queued and forgotten. A query carries the sending end of a channel made
//! for this one answer, and the plugin's call waits on the other end, for a
//! bounded time.

use vstd::prelude::*;
use crossbeam_channel::Sender;
use crate::channel::{open_channel, receive_within, send};

verus! {

/// How long a query waits for its answer, in milliseconds.
pub const QUERY_TIMEOUT_MS: u64 = 500;

/// One request. Payloads are plain values; the `sender` of a query answers
/// that query and nothing else.
#[allow(inconsistent_fields)]
#[derive(Debug)]
pub enum PluginEffect {
    /// Show a status message.
    Echo(String),
    /// Report a computed style for a byte range of a line.
    ApplyTextStyle { line: u32, start_byte: u32, end_byte: u32, style_id: u32 },
    /// Ask for the byte length of a line.
    GetBufferLineLen { line_num: usize, sender: Sender<Option<usize>> },
    /// Ask for the text of a line.
    GetBufferLineData { line_num: usize, sender: Sender<Option<String>> },
    /// Replace the text of a line.
    SetBufferLine { line_num: usize, text: String, sender: Sender<()> },
    /// Lay explicit colours over a byte range of a line.
    AddHighlight {
        line: usize,
        start: usize,
        end: usize,
        fg: Option<(u8, u8, u8)>,
        bg: Option<(u8, u8, u8)>,
        sender: Sender<()>,
    },
    /// Drop all highlights of the active buffer.
    ClearHighlights(Sender<()>),
}

/// What a query comes to, given what came back for it in time: the answer,
/// where there was a reply and the reply holds one.
pub fn settled<T>(reply: Option<Option<T>>) -> (answer: Option<T>)
    ensures
        answer == match reply {
            Some(Some(value)) => Some(value),
            _ => None,
        },
{
    match reply {
        Some(Some(value)) => Some(value),
        _ => None,
    }
}

/// Queues a notification, without waiting. The answer is `false` where
/// nobody is left to read the queue, or the queue is full.
pub fn post(effects: &Sender<PluginEffect>, effect: PluginEffect) -> (queued: bool) {
    send(effects, effect)
}

/// Asks for the byte length of line `line_num` and waits for the answer.
/// `None` stands for every failure alike: the line does not exist, the
/// editor is gone, or no answer came in time.
pub fn ask_line_len(effects: &Sender<PluginEffect>, line_num: usize) -> (answer: Option<usize>) {
    let (sender, reply) = open_channel::<Option<usize>>();
    if !send(effects, PluginEffect::GetBufferLineLen { line_num, sender }) {
        return None;
    }
    settled(receive_within(&reply, QUERY_TIMEOUT_MS))
}

/// Asks for the text of line `line_num` and waits for the answer. `None`
/// stands for every failure alike.
pub fn ask_line_data(effects: &Sender<PluginEffect>, line_num: usize) -> (answer: Option<String>) {
    let (sender, reply) = open_channel::<Option<String>>();
    if !send(effects, PluginEffect::GetBufferLineData { line_num, sender }) {
        return None;
    }
    settled(receive_within(&reply, QUERY_TIMEOUT_MS))
}

/// Asks for line `line_num` to be replaced by `text` and waits until the
/// editor has done so, so that whatever the plugin asks next sees the new
/// text. The answer is `false` where no acknowledgement came in time.
pub fn ask_set_line(
    effects: &Sender<PluginEffect>,
    line_num: usize,
    text: String,
) -> (acknowledged: bool) {
    let (sender, reply) = open_channel::<()>();
    if !send(effects, PluginEffect::SetBufferLine { line_num, text, sender }) {
        return false;
    }
    receive_within(&reply, QUERY_TIMEOUT_MS).is_some()
}

/// Asks for a coloured highlight and waits for the acknowledgement.
pub fn ask_add_highlight(
    effects: &Sender<PluginEffect>,
    line: usize,
    start: usize,
    end: usize,
    fg: Option<(u8, u8, u8)>,
    bg: Option<(u8, u8, u8)>,
) -> (acknowledged: bool) {
    let (sender, reply) = open_channel::<()>();
    if !send(effects, PluginEffect::AddHighlight { line, start, end, fg, bg, sender }) {
        return false;
    }
    receive_within(&reply, QUERY_TIMEOUT_MS).is_some()
}

/// Asks for all highlights to be dropped and waits for the acknowledgement.
pub fn ask_clear_highlights(effects: &Sender<PluginEffect>) -> (acknowledged: bool) {
    let (sender, reply) = open_channel::<()>();
    if !send(effects, PluginEffect::ClearHighlights(sender)) {
        return false;
    }
    receive_within(&reply, QUERY_TIMEOUT_MS).is_some()
}

} // verus!
