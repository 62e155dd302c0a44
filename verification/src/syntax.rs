//! Semantic style classes that a plugin can attach to a byte range of a line.

use vstd::prelude::*;

verus! {

/// The closed set of semantic styles.
#[derive(Debug, Clone, Copy, PartialEq, Eq, Hash, Structural)]
pub enum SyntaxStyle {
    Default,
    Keyword,
    Comment,
    String,
    Number,
    Type,
}

/// The style that a numeric style id stands for. Ids that name no style stand
/// for `Default`.
pub open spec fn style_of_id(id: u32) -> SyntaxStyle {
    if id == 1 {
        SyntaxStyle::Keyword
    } else if id == 2 {
        SyntaxStyle::Comment
    } else if id == 3 {
        SyntaxStyle::String
    } else if id == 4 {
        SyntaxStyle::Number
    } else if id == 5 {
        SyntaxStyle::Type
    } else {
        SyntaxStyle::Default
    }
}

impl SyntaxStyle {
    /// Decodes a style id as it crosses the plugin boundary.
    pub fn from_u32(id: u32) -> (style: SyntaxStyle)
        ensures
            style == style_of_id(id),
    {
        match id {
            1 => SyntaxStyle::Keyword,
            2 => SyntaxStyle::Comment,
            3 => SyntaxStyle::String,
            4 => SyntaxStyle::Number,
            5 => SyntaxStyle::Type,
            _ => SyntaxStyle::Default,
        }
    }
}

} // verus!
