use crossbeam_channel::unbounded;
use rust_editor::bridge::PluginEffect;
use rust_editor::buffer::Highlight;
use rust_editor::editor::{Editor, Mode, Reply};
use rust_editor::style::SpanStyle;
use rust_editor::syntax::SyntaxStyle;

fn editor_with(lines: &[&str]) -> Editor {
    let mut editor = Editor::new(".".to_string()).unwrap();
    editor.setup();
    editor.buffers[0].lines = lines.iter().map(|line| line.to_string()).collect();
    editor
}

#[test]
fn a_new_editor_has_no_buffer_yet() {
    let mut editor = Editor::new("/work".to_string()).unwrap();
    assert!(editor.buffers.is_empty());
    assert!(editor.expanded_dirs.is_empty());
    assert!(editor.active_buffer().is_none());
    assert_eq!(editor.handle_plugin_events(), 0);
}

#[test]
fn setup_opens_an_empty_buffer_and_unfolds_the_directory() {
    let mut editor = Editor::new("/work".to_string()).unwrap();
    editor.setup();
    assert_eq!(editor.buffers.len(), 1);
    assert_eq!(editor.active_buffer_index, 0);
    assert_eq!(editor.buffers[0].lines, vec![String::new()]);
    assert_eq!(editor.buffers[0].filename, None);
    assert!(!editor.buffers[0].modified);
    assert_eq!(editor.mode, Mode::Normal);
    assert_eq!(editor.command_message, "");
    assert_eq!(editor.command_input, "");
    assert!(!editor.should_exit);
    assert!(editor.tree_visible);
    assert!(editor.tree_view_active);
    assert_eq!(editor.tree_width, 30);
    assert_eq!(editor.current_path, "/work");
    assert_eq!(editor.expanded_dirs, vec!["/work".to_string()]);
    assert!(editor.plugin_manager.plugins.is_empty());
    assert_eq!(editor.mode_str(), "NORMAL");
}

#[test]
fn setting_up_twice_opens_a_second_buffer_and_unfolds_nothing_more() {
    let mut editor = Editor::new("/work".to_string()).unwrap();
    editor.setup();
    editor.command_message = "note".to_string();
    editor.setup();
    assert_eq!(editor.buffers.len(), 2);
    assert_eq!(editor.active_buffer_index, 1);
    assert_eq!(editor.expanded_dirs, vec!["/work".to_string()]);
    assert_eq!(editor.command_message, "");
}

#[test]
fn the_active_buffer_can_be_changed_in_place() {
    let mut editor = editor_with(&["one"]);
    editor.active_buffer().unwrap().lines[0].push_str(" more");
    assert_eq!(editor.buffers[0].lines, vec!["one more".to_string()]);
    editor.active_buffer_index = 1;
    assert!(editor.active_buffer().is_none());
}

#[test]
fn echo_sets_the_status_message() {
    let mut editor = editor_with(&["one"]);
    editor.dispatch(PluginEffect::Echo("Line 0: one".to_string()));
    assert_eq!(editor.command_message, "Line 0: one");
    assert_eq!(editor.buffers[0].lines, vec!["one".to_string()]);
}

#[test]
fn a_length_query_is_answered_with_the_byte_length() {
    let mut editor = editor_with(&["größe", ""]);
    let (tx, rx) = unbounded();
    editor.dispatch(PluginEffect::GetBufferLineLen { line_num: 0, sender: tx });
    assert_eq!(rx.try_recv(), Ok(Some(7)));
    let (tx, rx) = unbounded();
    editor.dispatch(PluginEffect::GetBufferLineLen { line_num: 1, sender: tx });
    assert_eq!(rx.try_recv(), Ok(Some(0)));
}

#[test]
fn queries_for_a_line_beyond_the_end_are_answered_with_nothing() {
    let mut editor = editor_with(&["one", "two"]);
    for line_num in [2, 3, 1000, usize::MAX] {
        let (tx, rx) = unbounded();
        editor.dispatch(PluginEffect::GetBufferLineLen { line_num, sender: tx });
        assert_eq!(rx.try_recv(), Ok(None));
        let (tx, rx) = unbounded();
        editor.dispatch(PluginEffect::GetBufferLineData { line_num, sender: tx });
        assert_eq!(rx.try_recv(), Ok(None));
    }
}

#[test]
fn queries_without_an_active_buffer_are_answered_with_nothing() {
    let mut editor = editor_with(&["one"]);
    editor.active_buffer_index = 5;
    let (tx, rx) = unbounded();
    editor.dispatch(PluginEffect::GetBufferLineLen { line_num: 0, sender: tx });
    assert_eq!(rx.try_recv(), Ok(None));
    let (tx, rx) = unbounded();
    editor.dispatch(PluginEffect::SetBufferLine { line_num: 0, text: "x".to_string(), sender: tx });
    assert_eq!(rx.try_recv(), Ok(()));
    assert_eq!(editor.buffers[0].lines, vec!["one".to_string()]);
}

#[test]
fn a_line_that_was_set_reads_back_exactly() {
    let mut editor = editor_with(&["old", "other"]);
    let (tx, rx) = unbounded();
    editor.dispatch(PluginEffect::SetBufferLine {
        line_num: 0,
        text: "int x; // größe".to_string(),
        sender: tx,
    });
    assert_eq!(rx.try_recv(), Ok(()));
    let (tx, rx) = unbounded();
    editor.dispatch(PluginEffect::GetBufferLineData { line_num: 0, sender: tx });
    assert_eq!(rx.try_recv(), Ok(Some("int x; // größe".to_string())));
    let (tx, rx) = unbounded();
    editor.dispatch(PluginEffect::GetBufferLineLen { line_num: 0, sender: tx });
    assert_eq!(rx.try_recv(), Ok(Some(17)));
    assert!(editor.buffers[0].modified);
    assert_eq!(editor.buffers[0].lines[1], "other");
}

#[test]
fn setting_a_line_beyond_the_end_is_acknowledged_and_changes_nothing() {
    let mut editor = editor_with(&["one"]);
    let (tx, rx) = unbounded();
    editor.dispatch(PluginEffect::SetBufferLine { line_num: 1, text: "x".to_string(), sender: tx });
    assert_eq!(rx.try_recv(), Ok(()));
    assert_eq!(editor.buffers[0].lines, vec!["one".to_string()]);
    assert!(!editor.buffers[0].modified);
}

#[test]
fn setting_a_line_drops_its_highlights() {
    let mut editor = editor_with(&["int main()", "return 0;"]);
    editor.dispatch(PluginEffect::ApplyTextStyle { line: 0, start_byte: 0, end_byte: 3, style_id: 1 });
    editor.dispatch(PluginEffect::ApplyTextStyle { line: 1, start_byte: 0, end_byte: 6, style_id: 1 });
    let (tx, _rx) = unbounded();
    editor.dispatch(PluginEffect::SetBufferLine { line_num: 0, text: "x".to_string(), sender: tx });
    assert_eq!(
        editor.buffers[0].highlights,
        vec![Highlight {
            line: 1,
            start_byte: 0,
            end_byte: 6,
            style: SpanStyle::Syntax(SyntaxStyle::Keyword)
        }]
    );
}

#[test]
fn a_style_report_for_int_becomes_a_keyword_highlight() {
    let mut editor = editor_with(&["int main()"]);
    editor.dispatch(PluginEffect::ApplyTextStyle { line: 0, start_byte: 0, end_byte: 3, style_id: 1 });
    assert_eq!(
        editor.buffers[0].highlights,
        vec![Highlight {
            line: 0,
            start_byte: 0,
            end_byte: 3,
            style: SpanStyle::Syntax(SyntaxStyle::Keyword)
        }]
    );
}

#[test]
fn a_style_report_with_an_unknown_id_is_default() {
    let mut editor = editor_with(&["int main()"]);
    editor.dispatch(PluginEffect::ApplyTextStyle { line: 0, start_byte: 4, end_byte: 8, style_id: 77 });
    assert_eq!(editor.buffers[0].highlights[0].style, SpanStyle::Syntax(SyntaxStyle::Default));
}

#[test]
fn a_colour_request_becomes_a_colour_highlight() {
    let mut editor = editor_with(&["a", "b", "0123456789"]);
    let (tx, rx) = unbounded();
    editor.dispatch(PluginEffect::AddHighlight {
        line: 2,
        start: 5,
        end: 8,
        fg: Some((1, 2, 3)),
        bg: None,
        sender: tx,
    });
    assert_eq!(rx.try_recv(), Ok(()));
    assert_eq!(
        editor.buffers[0].highlights,
        vec![Highlight {
            line: 2,
            start_byte: 5,
            end_byte: 8,
            style: SpanStyle::Color { fg: Some((1, 2, 3)), bg: None }
        }]
    );
}

#[test]
fn clear_highlights_is_acknowledged_and_drops_all() {
    let mut editor = editor_with(&["int main()"]);
    editor.dispatch(PluginEffect::ApplyTextStyle { line: 0, start_byte: 0, end_byte: 3, style_id: 1 });
    let (tx, rx) = unbounded();
    editor.dispatch(PluginEffect::ClearHighlights(tx));
    assert_eq!(rx.try_recv(), Ok(()));
    assert!(editor.buffers[0].highlights.is_empty());
}

#[test]
fn what_was_answered_is_handed_back() {
    let mut editor = editor_with(&["größe"]);
    assert_eq!(editor.dispatch(PluginEffect::Echo("hi".to_string())), Reply::Nothing);
    assert_eq!(
        editor.dispatch(PluginEffect::ApplyTextStyle {
            line: 0,
            start_byte: 0,
            end_byte: 1,
            style_id: 1
        }),
        Reply::Nothing
    );
    let (tx, _rx) = unbounded();
    assert_eq!(
        editor.dispatch(PluginEffect::GetBufferLineLen { line_num: 0, sender: tx }),
        Reply::Len(Some(7))
    );
    let (tx, _rx) = unbounded();
    assert_eq!(
        editor.dispatch(PluginEffect::GetBufferLineLen { line_num: 1, sender: tx }),
        Reply::Len(None)
    );
    let (tx, _rx) = unbounded();
    assert_eq!(
        editor.dispatch(PluginEffect::GetBufferLineData { line_num: 0, sender: tx }),
        Reply::Data(Some("größe".to_string()))
    );
    let (tx, _rx) = unbounded();
    assert_eq!(
        editor.dispatch(PluginEffect::GetBufferLineData { line_num: 9, sender: tx }),
        Reply::Data(None)
    );
    let (tx, _rx) = unbounded();
    assert_eq!(
        editor.dispatch(PluginEffect::SetBufferLine {
            line_num: 9,
            text: String::new(),
            sender: tx
        }),
        Reply::Done
    );
    let (tx, _rx) = unbounded();
    assert_eq!(editor.dispatch(PluginEffect::ClearHighlights(tx)), Reply::Done);
}

#[test]
fn an_answer_that_nobody_waits_for_is_dropped() {
    let mut editor = editor_with(&["one"]);
    let (tx, rx) = unbounded();
    drop(rx);
    editor.dispatch(PluginEffect::GetBufferLineLen { line_num: 0, sender: tx });
    let (tx, rx) = unbounded();
    drop(rx);
    editor.dispatch(PluginEffect::SetBufferLine { line_num: 0, text: "two".to_string(), sender: tx });
    assert_eq!(editor.buffers[0].lines, vec!["two".to_string()]);
}

#[test]
fn queued_effects_are_applied_in_order() {
    let mut editor = editor_with(&["old"]);
    let (ack, _acks) = unbounded();
    let (tx, rx) = unbounded();
    let sender = editor.plugin_event_sender.clone();
    sender.send(PluginEffect::Echo("first".to_string())).unwrap();
    sender
        .send(PluginEffect::SetBufferLine { line_num: 0, text: "int x;".to_string(), sender: ack })
        .unwrap();
    sender.send(PluginEffect::GetBufferLineData { line_num: 0, sender: tx }).unwrap();
    sender.send(PluginEffect::Echo("last".to_string())).unwrap();
    assert_eq!(editor.handle_plugin_events(), 4);
    assert_eq!(rx.try_recv(), Ok(Some("int x;".to_string())));
    assert_eq!(editor.command_message, "last");
    assert_eq!(editor.handle_plugin_events(), 0);
}

#[test]
fn an_empty_queue_changes_nothing() {
    let mut editor = editor_with(&["one"]);
    assert_eq!(editor.handle_plugin_events(), 0);
    assert_eq!(editor.buffers[0].lines, vec!["one".to_string()]);
    assert_eq!(editor.command_message, "");
}
