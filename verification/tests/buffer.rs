use rust_editor::buffer::{Buffer, Highlight};
use rust_editor::style::SpanStyle;
use rust_editor::syntax::SyntaxStyle;

fn keyword(line: usize, start_byte: usize, end_byte: usize) -> Highlight {
    Highlight { line, start_byte, end_byte, style: SpanStyle::Syntax(SyntaxStyle::Keyword) }
}

fn three_lines() -> Buffer {
    let mut buffer = Buffer::new(None);
    buffer.lines = vec!["alpha".to_string(), "größe".to_string(), String::new()];
    buffer
}

#[test]
fn a_new_buffer_has_one_empty_line() {
    let buffer = Buffer::new(Some("notes.txt".to_string()));
    assert_eq!(buffer.filename, Some("notes.txt".to_string()));
    assert_eq!(buffer.lines, vec![String::new()]);
    assert_eq!((buffer.row, buffer.col, buffer.top_row), (0, 0, 0));
    assert!(!buffer.modified);
    assert!(buffer.highlights.is_empty());
}

#[test]
fn line_len_counts_bytes_not_characters() {
    let buffer = three_lines();
    assert_eq!(buffer.line_len(0), Some(5));
    assert_eq!(buffer.line_len(1), Some(7));
    assert_eq!(buffer.line_len(2), Some(0));
}

#[test]
fn lines_beyond_the_end_have_no_length_and_no_text() {
    let buffer = three_lines();
    assert_eq!(buffer.line_len(3), None);
    assert_eq!(buffer.line_text(3), None);
    assert_eq!(buffer.line_len(usize::MAX), None);
    assert_eq!(buffer.line_text(usize::MAX), None);
}

#[test]
fn line_text_copies_the_line() {
    let buffer = three_lines();
    assert_eq!(buffer.line_text(1), Some("größe".to_string()));
}

#[test]
fn set_line_replaces_text_and_reads_back() {
    let mut buffer = three_lines();
    assert!(buffer.set_line(1, "int x;".to_string()));
    assert_eq!(buffer.line_text(1), Some("int x;".to_string()));
    assert_eq!(buffer.line_len(1), Some(6));
    assert_eq!(buffer.lines.len(), 3);
    assert!(buffer.modified);
}

#[test]
fn set_line_beyond_the_end_changes_nothing() {
    let mut buffer = three_lines();
    buffer.add_highlight(keyword(0, 0, 2));
    assert!(!buffer.set_line(3, "x".to_string()));
    assert_eq!(buffer.lines, three_lines().lines);
    assert!(!buffer.modified);
    assert_eq!(buffer.highlights, vec![keyword(0, 0, 2)]);
}

#[test]
fn set_line_drops_the_highlights_of_that_line_only() {
    let mut buffer = three_lines();
    buffer.add_highlight(keyword(0, 0, 2));
    buffer.add_highlight(keyword(1, 0, 3));
    buffer.add_highlight(keyword(0, 3, 4));
    buffer.add_highlight(keyword(2, 0, 0));
    buffer.set_line(0, "beta".to_string());
    assert_eq!(buffer.highlights, vec![keyword(1, 0, 3), keyword(2, 0, 0)]);
}

#[test]
fn mark_line_as_modified_drops_stale_highlights() {
    let mut buffer = three_lines();
    buffer.add_highlight(keyword(1, 0, 3));
    buffer.add_highlight(keyword(2, 0, 1));
    buffer.mark_line_as_modified(1);
    assert!(buffer.modified);
    assert_eq!(buffer.highlights, vec![keyword(2, 0, 1)]);
    assert_eq!(buffer.lines, three_lines().lines);
}

#[test]
fn highlights_keep_the_order_in_which_they_came() {
    let mut buffer = three_lines();
    buffer.add_highlight(keyword(1, 4, 5));
    buffer.add_highlight(keyword(0, 1, 2));
    buffer.add_highlight(keyword(1, 0, 1));
    assert_eq!(buffer.line_highlights(1), vec![keyword(1, 4, 5), keyword(1, 0, 1)]);
    assert_eq!(buffer.line_highlights(0), vec![keyword(0, 1, 2)]);
    assert_eq!(buffer.line_highlights(2), vec![]);
}

#[test]
fn a_highlight_that_runs_backwards_is_not_kept() {
    let mut buffer = three_lines();
    buffer.add_highlight(keyword(0, 3, 2));
    assert!(buffer.highlights.is_empty());
    buffer.add_highlight(keyword(0, 3, 3));
    assert_eq!(buffer.highlights, vec![keyword(0, 3, 3)]);
}

#[test]
fn clear_highlights_drops_all_of_them() {
    let mut buffer = three_lines();
    buffer.add_highlight(keyword(0, 0, 1));
    buffer.add_highlight(keyword(2, 0, 1));
    buffer.clear_highlights();
    assert!(buffer.highlights.is_empty());
    assert!(!buffer.modified);
}

#[test]
fn invalidate_line_leaves_the_modified_flag_alone() {
    let mut buffer = three_lines();
    buffer.add_highlight(keyword(0, 0, 1));
    buffer.invalidate_line(0);
    assert!(buffer.highlights.is_empty());
    assert!(!buffer.modified);
}
