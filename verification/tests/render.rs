use rust_editor::buffer::{Buffer, Highlight};
use rust_editor::render::{partition_line, sort_for_drawing, Segment};
use rust_editor::style::SpanStyle;
use rust_editor::syntax::SyntaxStyle;

fn span(start_byte: usize, end_byte: usize, style: SyntaxStyle) -> Highlight {
    Highlight { line: 0, start_byte, end_byte, style: SpanStyle::Syntax(style) }
}

fn plain(start: usize, end: usize) -> Segment {
    Segment { start, end, style: None }
}

fn styled(start: usize, end: usize, style: SyntaxStyle) -> Segment {
    Segment { start, end, style: Some(SpanStyle::Syntax(style)) }
}

#[test]
fn a_line_without_highlights_is_one_plain_piece() {
    assert_eq!(partition_line(&vec![], "int main()"), vec![plain(0, 10)]);
}

#[test]
fn an_empty_line_has_no_pieces() {
    assert_eq!(partition_line(&vec![], ""), vec![]);
    assert_eq!(partition_line(&vec![span(0, 4, SyntaxStyle::Keyword)], ""), vec![]);
}

#[test]
fn the_keyword_of_int_main_is_styled() {
    let spans = vec![span(0, 3, SyntaxStyle::Keyword)];
    assert_eq!(
        partition_line(&spans, "int main()"),
        vec![styled(0, 3, SyntaxStyle::Keyword), plain(3, 10)]
    );
}

#[test]
fn a_highlight_past_the_end_is_cut_at_the_end() {
    let spans = vec![span(4, 1000, SyntaxStyle::String)];
    assert_eq!(
        partition_line(&spans, "int main()"),
        vec![plain(0, 4), styled(4, 10, SyntaxStyle::String)]
    );
    let spans = vec![span(4, usize::MAX, SyntaxStyle::String)];
    assert_eq!(
        partition_line(&spans, "int main()"),
        vec![plain(0, 4), styled(4, 10, SyntaxStyle::String)]
    );
}

#[test]
fn a_highlight_that_starts_past_the_end_is_not_drawn() {
    let spans = vec![span(10, 12, SyntaxStyle::String), span(50, 60, SyntaxStyle::Type)];
    assert_eq!(partition_line(&spans, "int main()"), vec![plain(0, 10)]);
}

#[test]
fn a_zero_width_highlight_is_not_drawn() {
    let spans = vec![span(5, 5, SyntaxStyle::Keyword)];
    assert_eq!(partition_line(&spans, "int main()"), vec![plain(0, 10)]);
}

#[test]
fn a_zero_width_highlight_on_line_two_leaves_the_line_plain() {
    let mut buffer = Buffer::new(None);
    buffer.lines = vec!["a".to_string(), "b".to_string(), "0123456789".to_string()];
    buffer.add_highlight(Highlight {
        line: 2,
        start_byte: 5,
        end_byte: 5,
        style: SpanStyle::Color { fg: Some((255, 0, 0)), bg: None },
    });
    assert_eq!(buffer.highlights.len(), 1);
    assert_eq!(buffer.line_segments(2), vec![plain(0, 10)]);
}

#[test]
fn the_earlier_highlight_wins_an_overlap() {
    let spans = vec![span(2, 6, SyntaxStyle::Comment), span(0, 3, SyntaxStyle::Keyword)];
    assert_eq!(
        partition_line(&spans, "int main()"),
        vec![styled(0, 3, SyntaxStyle::Keyword), plain(3, 10)]
    );
}

#[test]
fn of_two_highlights_that_start_together_the_longer_wins() {
    let spans = vec![span(0, 3, SyntaxStyle::Keyword), span(0, 8, SyntaxStyle::Type)];
    assert_eq!(
        partition_line(&spans, "int main()"),
        vec![styled(0, 8, SyntaxStyle::Type), plain(8, 10)]
    );
}

#[test]
fn of_two_equal_ranges_the_one_reported_first_wins() {
    let spans = vec![span(0, 3, SyntaxStyle::Number), span(0, 3, SyntaxStyle::Keyword)];
    assert_eq!(
        partition_line(&spans, "int main()"),
        vec![styled(0, 3, SyntaxStyle::Number), plain(3, 10)]
    );
}

#[test]
fn highlights_that_touch_are_both_drawn() {
    let spans = vec![span(3, 4, SyntaxStyle::Default), span(0, 3, SyntaxStyle::Keyword)];
    assert_eq!(
        partition_line(&spans, "int main()"),
        vec![
            styled(0, 3, SyntaxStyle::Keyword),
            styled(3, 4, SyntaxStyle::Default),
            plain(4, 10)
        ]
    );
}

#[test]
fn pieces_tile_the_line_from_start_to_end() {
    let spans = vec![
        span(8, 20, SyntaxStyle::Comment),
        span(4, 8, SyntaxStyle::Type),
        span(0, 3, SyntaxStyle::Keyword),
        span(1, 2, SyntaxStyle::Number),
    ];
    let line = "int main()";
    let pieces = partition_line(&spans, line);
    let mut at: usize = 0;
    for piece in &pieces {
        assert_eq!(piece.start, at);
        assert!(piece.start < piece.end);
        assert!(line.is_char_boundary(piece.end));
        at = piece.end;
    }
    assert_eq!(at, line.len());
    assert_eq!(
        pieces,
        vec![
            styled(0, 3, SyntaxStyle::Keyword),
            plain(3, 4),
            styled(4, 8, SyntaxStyle::Type),
            styled(8, 10, SyntaxStyle::Comment)
        ]
    );
}

#[test]
fn a_highlight_that_cuts_a_character_in_two_is_not_drawn() {
    let line = "größe";
    assert_eq!(line.len(), 7);
    let spans = vec![span(0, 3, SyntaxStyle::Keyword)];
    assert_eq!(partition_line(&spans, line), vec![plain(0, 7)]);
    let spans = vec![span(3, 4, SyntaxStyle::Keyword)];
    assert_eq!(partition_line(&spans, line), vec![plain(0, 7)]);
    let spans = vec![span(2, 4, SyntaxStyle::Keyword)];
    assert_eq!(
        partition_line(&spans, line),
        vec![plain(0, 2), styled(2, 4, SyntaxStyle::Keyword), plain(4, 7)]
    );
}

#[test]
fn draw_order_is_by_start_then_by_length() {
    let spans = vec![
        span(5, 6, SyntaxStyle::Default),
        span(0, 2, SyntaxStyle::Keyword),
        span(0, 9, SyntaxStyle::Comment),
        span(5, 6, SyntaxStyle::Type),
        span(3, 3, SyntaxStyle::Number),
    ];
    assert_eq!(
        sort_for_drawing(&spans),
        vec![
            span(0, 9, SyntaxStyle::Comment),
            span(0, 2, SyntaxStyle::Keyword),
            span(3, 3, SyntaxStyle::Number),
            span(5, 6, SyntaxStyle::Default),
            span(5, 6, SyntaxStyle::Type),
        ]
    );
}

#[test]
fn line_segments_take_the_highlights_of_their_line_only() {
    let mut buffer = Buffer::new(None);
    buffer.lines = vec!["int main()".to_string(), "return 0;".to_string()];
    buffer.add_highlight(Highlight {
        line: 1,
        start_byte: 0,
        end_byte: 6,
        style: SpanStyle::Syntax(SyntaxStyle::Keyword),
    });
    buffer.add_highlight(Highlight {
        line: 0,
        start_byte: 0,
        end_byte: 3,
        style: SpanStyle::Syntax(SyntaxStyle::Type),
    });
    assert_eq!(buffer.line_segments(0), vec![styled(0, 3, SyntaxStyle::Type), plain(3, 10)]);
    assert_eq!(buffer.line_segments(1), vec![styled(0, 6, SyntaxStyle::Keyword), plain(6, 9)]);
}
