//! Text as the editor handles it: cut into what a reader takes for one
//! character, measured in screen columns, split into words and lines.
//!
//! The cutting and measuring follow the Unicode tables and are taken on
//! trust from the crates that hold them; what the editor does with the
//! pieces is proved.

use vstd::prelude::*;
use vstd::string::StringExecFns;
use unicode_segmentation::UnicodeSegmentation;
use unicode_width::UnicodeWidthStr;
use crate::buffer::texts;

verus! {

/// The extended grapheme clusters of a text, in order: the pieces that a
/// reader takes for one character each.
pub uninterp spec fn graphemes(text: Seq<char>) -> Seq<Seq<char>>;

/// The number of screen columns that a text takes.
pub uninterp spec fn display_width(text: Seq<char>) -> nat;

/// The words of a text: what stands between runs of white space.
pub uninterp spec fn words(text: Seq<char>) -> Seq<Seq<char>>;

/// `UnicodeSegmentation::graphemes`, extended: the grapheme clusters of
/// `text`, each as a string of its own.
#[verifier::external_body]
pub(crate) fn split_graphemes(text: &str) -> (parts: Vec<String>)
    ensures
        texts(parts@) == graphemes(text@),
{
    text.graphemes(true).map(|part| part.to_string()).collect()
}

/// `UnicodeWidthStr::width`: the displayed width of `text` in columns.
#[verifier::external_body]
pub(crate) fn text_width(text: &str) -> (width: usize)
    ensures
        width == display_width(text@),
{
    UnicodeWidthStr::width(text)
}

/// `str::split_whitespace`: the words of `text`, each as a string of its
/// own.
#[verifier::external_body]
pub(crate) fn split_words(text: &str) -> (parts: Vec<String>)
    ensures
        texts(parts@) == words(text@),
{
    text.split_whitespace().map(|part| part.to_string()).collect()
}

/// `str::lines`: the lines of `text`, without their line endings.
#[verifier::external_body]
pub(crate) fn split_lines(text: &str) -> (parts: Vec<String>)
    ensures
        texts(parts@) == lines_of(text@),
{
    text.lines().map(|part| part.to_string()).collect()
}

/// `String::push`: `c` is put behind the text.
#[verifier::external_body]
pub(crate) fn push_char(text: &mut String, c: char)
    ensures
        final(text)@ == old(text)@.push(c),
{
    text.push(c)
}

/// `String::pop`: the last character goes, if there is one.
#[verifier::external_body]
pub(crate) fn pop_char(text: &mut String)
    ensures
        final(text)@ == if old(text)@.len() > 0 { old(text)@.drop_last() } else { old(text)@ },
{
    let _ = text.pop();
}

/// The index of the first line feed in `text`, or its length if there is
/// none.
pub open spec fn line_end(text: Seq<char>) -> nat
    decreases text.len(),
{
    if text.len() == 0 || text.first() == '\n' {
        0
    } else {
        1 + line_end(text.drop_first())
    }
}

/// `line` without a carriage return at its end.
pub open spec fn without_return(line: Seq<char>) -> Seq<char> {
    if line.len() > 0 && line.last() == '\r' {
        line.drop_last()
    } else {
        line
    }
}

/// The lines of a text. A line ends at a line feed, or at a carriage return
/// followed by one; neither belongs to the line. What follows the last line
/// feed is a line if it is not empty, and is kept as it stands.
pub open spec fn lines_of(text: Seq<char>) -> Seq<Seq<char>>
    decreases text.len(),
{
    if text.len() == 0 {
        seq![]
    } else if line_end(text) < text.len() {
        seq![without_return(text.take(line_end(text) as int))] + lines_of(
            text.skip(line_end(text) as int + 1),
        )
    } else {
        seq![text]
    }
}

/// The texts of `parts`, one behind the other.
pub open spec fn joined(parts: Seq<Seq<char>>) -> Seq<char>
    decreases parts.len(),
{
    if parts.len() == 0 {
        seq![]
    } else {
        joined(parts.drop_last()) + parts.last()
    }
}

/// The texts of `parts`, one behind the other, with `between` between each
/// two of them.
pub open spec fn joined_with(parts: Seq<Seq<char>>, between: Seq<char>) -> Seq<char>
    decreases parts.len(),
{
    if parts.len() == 0 {
        seq![]
    } else if parts.len() == 1 {
        parts.last()
    } else {
        joined_with(parts.drop_last(), between) + between + parts.last()
    }
}

/// Puts the strings `parts[from..to]` one behind the other.
pub fn join(parts: &Vec<String>, from: usize, to: usize) -> (text: String)
    requires
        from <= to <= parts@.len(),
    ensures
        text@ == joined(texts(parts@).subrange(from as int, to as int)),
{
    let mut text = String::new();
    let mut i: usize = from;
    proof {
        assert(texts(parts@).subrange(from as int, from as int) =~= Seq::<Seq<char>>::empty());
    }
    while i < to
        invariant
            from <= i <= to <= parts@.len(),
            text@ == joined(texts(parts@).subrange(from as int, i as int)),
        decreases to - i,
    {
        proof {
            let next = texts(parts@).subrange(from as int, i + 1);
            assert(next.drop_last() =~= texts(parts@).subrange(from as int, i as int));
            assert(next.last() == parts@[i as int]@);
        }
        text.append(parts[i].as_str());
        i += 1;
    }
    text
}

/// Puts the strings `parts` one behind the other, with `between` between
/// each two of them.
pub fn join_with(parts: &Vec<String>, between: &str) -> (text: String)
    ensures
        text@ == joined_with(texts(parts@), between@),
{
    let mut text = String::new();
    let mut i: usize = 0;
    proof {
        assert(texts(parts@).take(0) =~= Seq::<Seq<char>>::empty());
    }
    while i < parts.len()
        invariant
            i <= parts@.len(),
            text@ == joined_with(texts(parts@).take(i as int), between@),
        decreases parts@.len() - i,
    {
        proof {
            let next = texts(parts@).take(i + 1);
            assert(next.drop_last() =~= texts(parts@).take(i as int));
            assert(next.last() == parts@[i as int]@);
        }
        if i > 0 {
            text.append(between);
        }
        text.append(parts[i].as_str());
        i += 1;
    }
    proof {
        assert(texts(parts@).take(i as int) =~= texts(parts@));
    }
    text
}

/// Whether `dirs` holds `path`.
pub fn holds(dirs: &Vec<String>, path: &String) -> (found: bool)
    ensures
        found == texts(dirs@).contains(path@),
{
    let mut i: usize = 0;
    while i < dirs.len()
        invariant
            i <= dirs@.len(),
            forall|k: int| 0 <= k < i ==> texts(dirs@)[k] != path@,
        decreases dirs@.len() - i,
    {
        if dirs[i] == *path {
            assert(texts(dirs@)[i as int] == path@);
            return true;
        }
        i += 1;
    }
    false
}

/// `label` followed by `detail`.
pub fn labelled(label: &str, detail: &str) -> (text: String)
    ensures
        text@ == label@ + detail@,
{
    let mut text = label.to_owned();
    text.append(detail);
    text
}

/// The string of the one character `c`.
pub fn char_string(c: char) -> (text: String)
    ensures
        text@ == seq![c],
{
    let mut text = String::new();
    push_char(&mut text, c);
    assert(text@ =~= seq![c]);
    text
}

} // verus!
