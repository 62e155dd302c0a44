//! How a highlighted range is to be drawn.

use vstd::prelude::*;
use crate::syntax::SyntaxStyle;

verus! {

/// Emphasis that the editor itself puts on text, as opposed to what plugins
/// report.
#[derive(Clone, Copy, Debug, PartialEq, Eq, Hash, Structural)]
pub enum HighlightType {
    Selection,
    SearchResult,
}

/// The style of one highlighted range: a semantic class, or explicit colours.
/// In `Color`, an absent channel triple leaves that side of the cell as it is.
#[derive(Clone, Copy, Debug, PartialEq, Eq)]
pub enum SpanStyle {
    Syntax(SyntaxStyle),
    Color { fg: Option<(u8, u8, u8)>, bg: Option<(u8, u8, u8)> },
}

} // verus!
