//! What a small plugin does with the answers of the host.
//!
//! The sample plugin shows line 0 of the active buffer on the status line
//! when it is loaded. It asks for the length of the line, then for the line
//! itself, into a scratch area of fixed size that it owns. This file holds
//! what it decides from the numbers that the host functions return; the
//! calls themselves are guest code.

use vstd::prelude::*;
use vstd::slice::{slice_subrange, slice_to_vec};
use vstd::utf8::{encode_utf8, valid_utf8};
use crate::marshal::string_from_utf8;
use crate::text::labelled;

verus! {

/// The size of the plugin's scratch area, in bytes.
pub const SCRATCH_SIZE: usize = 1024;

/// Why the plugin has no line to show.
#[derive(Clone, Copy, Debug, PartialEq, Eq, Structural)]
pub enum LineError {
    /// The host did not tell the length of the line.
    NoLength,
    /// The line does not fit the scratch area.
    TooLong,
    /// The host did not hand out the line.
    NoData,
    /// What the host handed out is not UTF-8.
    NotUtf8,
}

impl LineError {
    /// The error in words.
    pub open spec fn text(&self) -> Seq<char> {
        match *self {
            LineError::NoLength => "API Error: Could not get line length."@,
            LineError::TooLong => "Error: Line is too long to fit in the buffer."@,
            LineError::NoData => "API Error: Could not get line data."@,
            LineError::NotUtf8 => "Error: Line contains invalid UTF-8."@,
        }
    }

    /// The error in words, for the status line.
    pub fn message(&self) -> (text: &'static str)
        ensures
            text@ == self.text(),
    {
        match self {
            LineError::NoLength => "API Error: Could not get line length.",
            LineError::TooLong => "Error: Line is too long to fit in the buffer.",
            LineError::NoData => "API Error: Could not get line data.",
            LineError::NotUtf8 => "Error: Line contains invalid UTF-8.",
        }
    }
}

/// What to do once the host has answered the length query with `len`: give
/// up, take the line for empty without asking further, or ask for the line
/// into a room of that many bytes.
pub fn plan_line(len: i32) -> (plan: Result<Option<i32>, LineError>)
    ensures
        plan == if len < 0 {
            Err::<Option<i32>, LineError>(LineError::NoLength)
        } else if len > SCRATCH_SIZE {
            Err(LineError::TooLong)
        } else if len == 0 {
            Ok(None)
        } else {
            Ok(Some(len))
        },
{
    if len < 0 {
        Err(LineError::NoLength)
    } else if len as usize > SCRATCH_SIZE {
        Err(LineError::TooLong)
    } else if len == 0 {
        Ok(None)
    } else {
        Ok(Some(len))
    }
}

/// The line that stands in `scratch` once the host has answered the
/// request for it with `written`: the first `written` bytes, as text.
pub fn take_line(written: i32, scratch: &[u8]) -> (line: Result<String, LineError>)
    ensures
        match line {
            Ok(text) => 0 <= written <= scratch@.len() && encode_utf8(text@)
                == scratch@.subrange(0, written as int),
            Err(e) => e == if written < 0 || written > scratch@.len() {
                LineError::NoData
            } else {
                LineError::NotUtf8
            } && (e == LineError::NotUtf8 ==> !valid_utf8(scratch@.subrange(0, written as int))),
        },
{
    if written < 0 || written as usize > scratch.len() {
        return Err(LineError::NoData);
    }
    let bytes = slice_to_vec(slice_subrange(scratch, 0, written as usize));
    match string_from_utf8(bytes) {
        Some(text) => Ok(text),
        None => Err(LineError::NotUtf8),
    }
}

/// What the plugin shows of line 0.
pub open spec fn report_text(line: Result<String, LineError>) -> Seq<char> {
    match line {
        Ok(text) => if "Line 0: "@.len() + encode_utf8(text@).len() > SCRATCH_SIZE {
            "Error: Combined message is too long."@
        } else {
            "Line 0: "@ + text@
        },
        Err(e) => e.text(),
    }
}

/// Composes what the plugin shows: the line behind its label, if both fit
/// the scratch area, or what went wrong.
pub fn line_report(line: Result<String, LineError>) -> (report: String)
    ensures
        report@ == report_text(line),
{
    match line {
        Ok(text) => {
            proof {
                reveal_strlit("Line 0: ");
            }
            if text.as_str().as_bytes().len() > SCRATCH_SIZE - 8 {
                "Error: Combined message is too long.".to_owned()
            } else {
                labelled("Line 0: ", text.as_str())
            }
        },
        Err(e) => e.message().to_owned(),
    }
}

} // verus!
