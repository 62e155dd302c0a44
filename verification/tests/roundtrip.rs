use crossbeam_channel::{unbounded, RecvTimeoutError};
use crossbeam_utils::thread::scope;
use rust_editor::buffer::Highlight;
use rust_editor::editor::Editor;
use rust_editor::loader::{instantiate_plugin, LoadError, WasmPlugin};
use rust_editor::style::SpanStyle;
use std::time::Duration;

const SETS_AND_READS_BACK: &str = r#"
(module
  (import "host" "emit_message" (func $emit (param i32 i32)))
  (import "host" "get_buffer_line_data" (func $data (param i32 i32 i32) (result i32)))
  (import "host" "set_buffer_line" (func $set (param i32 i32 i32)))
  (memory (export "memory") 1)
  (data (i32.const 0) "int x; // gr\c3\b6\c3\9fe")
  (func (export "init")
    (local $written i32)
    (call $set (i32.const 1) (i32.const 0) (i32.const 17))
    (local.set $written (call $data (i32.const 1) (i32.const 512) (i32.const 17)))
    (if (i32.eq (local.get $written) (i32.const 17))
      (then (call $emit (i32.const 512) (local.get $written)))))
)
"#;

const MEASURES: &str = r#"
(module
  (import "host" "emit_message" (func $emit (param i32 i32)))
  (import "host" "get_buffer_line_len" (func $len (param i32) (result i32)))
  (import "host" "get_buffer_line_data" (func $data (param i32 i32 i32) (result i32)))
  (import "host" "add_highlight" (func $add (param i32 i32 i32 i32 i32 i32 i32 i32 i32)))
  (import "host" "clear_highlights" (func $clear))
  (memory (export "memory") 1)
  (data (i32.const 0) "0123456789-")
  (func $digit (param $n i32)
    (call $emit (i32.add (i32.const 0) (local.get $n)) (i32.const 1)))
  (func (export "init")
    (call $add (i32.const 0) (i32.const 1) (i32.const 2)
               (i32.const 1) (i32.const 2) (i32.const 3)
               (i32.const -1) (i32.const 0) (i32.const 0))
    (call $clear)
    (call $add (i32.const 0) (i32.const 2) (i32.const 4)
               (i32.const -1) (i32.const 0) (i32.const 0)
               (i32.const 300) (i32.const 0) (i32.const 255))
    (if (i32.and
          (i32.and
            (i32.eq (call $len (i32.const 0)) (i32.const 7))
            (i32.eq (call $len (i32.const 1)) (i32.const 0)))
          (i32.and
            (i32.and
              (i32.eq (call $len (i32.const 2)) (i32.const -1))
              (i32.eq (call $len (i32.const -1)) (i32.const -1)))
            (i32.and
              (i32.eq (call $data (i32.const 2) (i32.const 64) (i32.const 8)) (i32.const -1))
              (i32.and
                (i32.eq (call $data (i32.const 0) (i32.const 64) (i32.const 6)) (i32.const -3))
                (i32.eq (call $data (i32.const 0) (i32.const 65530) (i32.const 8)) (i32.const -4))))))
      (then (call $digit (i32.const 1)))
      (else (call $digit (i32.const 10)))))
)
"#;

fn editor_with(lines: &[&str]) -> Editor {
    let mut editor = Editor::new(".".to_string()).unwrap();
    editor.setup();
    editor.buffers[0].lines = lines.iter().map(|line| line.to_string()).collect();
    editor
}

/// Loads `module` on a thread of its own while the editor answers.
fn load_while_answering(editor: &mut Editor, module: &str) -> Result<WasmPlugin, LoadError> {
    let engine = editor.plugin_manager.engine.clone();
    let effects = editor.plugin_event_sender.clone();
    let (done, outcome) = unbounded();
    scope(|threads| {
        threads.spawn(|_| {
            done.send(instantiate_plugin(&engine, module.as_bytes(), &effects)).unwrap();
        });
        loop {
            editor.handle_plugin_events();
            match outcome.recv_timeout(Duration::from_millis(1)) {
                Ok(loaded) => {
                    editor.handle_plugin_events();
                    return loaded;
                }
                Err(RecvTimeoutError::Timeout) => {}
                Err(RecvTimeoutError::Disconnected) => panic!("the loader is gone"),
            }
        }
    })
    .unwrap()
}

#[test]
fn a_line_set_by_a_guest_is_read_back_by_it_byte_for_byte() {
    let mut editor = editor_with(&["first", "second"]);
    let loaded = load_while_answering(&mut editor, SETS_AND_READS_BACK);
    assert!(loaded.is_ok());
    assert_eq!(editor.buffers[0].lines, vec!["first".to_string(), "int x; // größe".to_string()]);
    assert_eq!(editor.command_message, "int x; // größe");
    assert!(editor.buffers[0].modified);
}

#[test]
fn a_guest_gets_answers_while_the_editor_runs() {
    let mut editor = editor_with(&["größe", ""]);
    let loaded = load_while_answering(&mut editor, MEASURES);
    assert!(loaded.is_ok());
    assert_eq!(editor.command_message, "1");
    assert_eq!(
        editor.buffers[0].highlights,
        vec![Highlight {
            line: 0,
            start_byte: 2,
            end_byte: 4,
            style: SpanStyle::Color { fg: None, bg: Some((44, 0, 255)) }
        }]
    );
}
