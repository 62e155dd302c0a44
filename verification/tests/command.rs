use rust_editor::command::{command_of, toggle_dir, Action, Command, FileProbe, FileState, SaveJob};
use rust_editor::editor::{Editor, Mode, TreeItem};
use rust_editor::keys::Key;

fn editor_with(lines: &[&str]) -> Editor {
    let mut editor = Editor::new(".".to_string()).unwrap();
    editor.setup();
    editor.buffers[0].lines = lines.iter().map(|line| line.to_string()).collect();
    editor
}

fn words(parts: &[&str]) -> Vec<String> {
    parts.iter().map(|part| part.to_string()).collect()
}

fn item(path: &str, is_dir: bool) -> TreeItem {
    TreeItem { path: path.to_string(), prefix: String::new(), is_dir }
}

fn probe(canonical: Option<&str>, open: &[Option<&str>], found: FileState) -> FileProbe {
    FileProbe {
        canonical: canonical.map(|name| name.to_string()),
        open_canonicals: open.iter().map(|name| name.map(|name| name.to_string())).collect(),
        found,
    }
}

#[test]
fn words_spell_commands() {
    assert_eq!(command_of(&words(&[])), Command::Nothing);
    assert_eq!(command_of(&words(&["q"])), Command::Quit);
    assert_eq!(command_of(&words(&["q!"])), Command::ForceQuit);
    assert_eq!(command_of(&words(&["w"])), Command::Write(None));
    assert_eq!(command_of(&words(&["w", "a.txt"])), Command::Write(Some("a.txt".to_string())));
    assert_eq!(command_of(&words(&["wq", "a.txt", "b"])), Command::WriteQuit(Some("a.txt".to_string())));
    assert_eq!(command_of(&words(&["e"])), Command::Edit(None));
    assert_eq!(command_of(&words(&["e", "x"])), Command::Edit(Some("x".to_string())));
    assert_eq!(command_of(&words(&["bn"])), Command::NextBuffer);
    assert_eq!(command_of(&words(&["bp"])), Command::PreviousBuffer);
    assert_eq!(command_of(&words(&["tt"])), Command::ToggleTree);
    assert_eq!(command_of(&words(&["Q"])), Command::Unknown("Q".to_string()));
    assert_eq!(command_of(&words(&["quit", "now"])), Command::Unknown("quit".to_string()));
}

#[test]
fn an_empty_command_does_nothing() {
    let mut editor = editor_with(&["a"]);
    editor.command_message = "kept".to_string();
    assert_eq!(editor.execute_command("   "), Action::Nothing);
    assert_eq!(editor.execute_command(""), Action::Nothing);
    assert_eq!(editor.command_message, "kept");
    assert!(!editor.should_exit);
}

#[test]
fn q_ends_the_editor_unless_there_are_unsaved_changes() {
    let mut editor = editor_with(&["a"]);
    assert_eq!(editor.execute_command("q"), Action::Nothing);
    assert!(editor.should_exit);
    let mut editor = editor_with(&["a"]);
    editor.buffers[0].modified = true;
    assert_eq!(editor.execute_command("q"), Action::Nothing);
    assert!(!editor.should_exit);
    assert_eq!(editor.command_message, "Unsaved changes. Use q! to force quit.");
    assert_eq!(editor.execute_command(" q! "), Action::Nothing);
    assert!(editor.should_exit);
}

#[test]
fn w_asks_for_the_buffer_to_be_written() {
    let mut editor = editor_with(&["one", "two", ""]);
    assert_eq!(
        editor.execute_command("w out.txt"),
        Action::Save(SaveJob {
            path: "out.txt".to_string(),
            text: "one\ntwo\n".to_string(),
            then_quit: false
        })
    );
    editor.buffers[0].filename = Some("named.txt".to_string());
    assert_eq!(
        editor.execute_command("w"),
        Action::Save(SaveJob {
            path: "named.txt".to_string(),
            text: "one\ntwo\n".to_string(),
            then_quit: false
        })
    );
    assert_eq!(
        editor.execute_command("wq other.txt"),
        Action::Save(SaveJob {
            path: "other.txt".to_string(),
            text: "one\ntwo\n".to_string(),
            then_quit: true
        })
    );
    assert!(!editor.should_exit);
}

#[test]
fn a_buffer_without_a_name_cannot_be_written() {
    let mut editor = editor_with(&["one"]);
    editor.buffers[0].modified = true;
    assert_eq!(editor.execute_command("w"), Action::Nothing);
    assert_eq!(editor.command_message, "No filename. Use :w <filename>");
    assert_eq!(editor.execute_command("wq"), Action::Nothing);
    assert!(!editor.should_exit);
    editor.buffers[0].modified = false;
    assert_eq!(editor.execute_command("wq"), Action::Nothing);
    assert!(editor.should_exit);
}

#[test]
fn a_written_buffer_has_its_name_and_no_unsaved_changes() {
    let mut editor = editor_with(&["one"]);
    editor.buffers[0].modified = true;
    editor.file_saved("out.txt".to_string(), false, Ok(()));
    assert_eq!(editor.buffers[0].filename, Some("out.txt".to_string()));
    assert!(!editor.buffers[0].modified);
    assert_eq!(editor.command_message, "Saved to out.txt");
    assert!(!editor.should_exit);
    editor.buffers[0].modified = true;
    editor.file_saved("out.txt".to_string(), true, Ok(()));
    assert!(editor.should_exit);
}

#[test]
fn a_failed_write_is_told_and_keeps_the_changes() {
    let mut editor = editor_with(&["one"]);
    editor.buffers[0].modified = true;
    editor.file_saved("/out.txt".to_string(), true, Err("read-only".to_string()));
    assert_eq!(editor.buffers[0].filename, None);
    assert!(editor.buffers[0].modified);
    assert_eq!(editor.command_message, "Error saving /out.txt: read-only");
    assert!(!editor.should_exit);
    editor.buffers[0].modified = false;
    editor.file_saved("/out.txt".to_string(), true, Err("read-only".to_string()));
    assert!(editor.should_exit);
}

#[test]
fn e_asks_for_a_file_to_be_opened() {
    let mut editor = editor_with(&["one"]);
    assert_eq!(editor.execute_command("e src/main.rs"), Action::Open("src/main.rs".to_string()));
    assert_eq!(editor.command_message, "");
    assert_eq!(editor.execute_command("e"), Action::Nothing);
    assert_eq!(editor.command_message, "Filename needed for :e");
}

#[test]
fn bn_and_bp_go_round_the_buffers() {
    let mut editor = editor_with(&["one"]);
    editor.open_file_in_new_buffer(None, FileState::Missing);
    editor.open_file_in_new_buffer(None, FileState::Missing);
    assert_eq!(editor.active_buffer_index, 2);
    editor.execute_command("bn");
    assert_eq!(editor.active_buffer_index, 0);
    editor.execute_command("bn");
    assert_eq!(editor.active_buffer_index, 1);
    editor.execute_command("bp");
    assert_eq!(editor.active_buffer_index, 0);
    editor.execute_command("bp");
    assert_eq!(editor.active_buffer_index, 2);
    editor.buffers.clear();
    editor.execute_command("bn");
    editor.execute_command("bp");
    assert_eq!(editor.active_buffer_index, 2);
}

#[test]
fn tt_hides_and_shows_the_tree() {
    let mut editor = editor_with(&["one"]);
    assert!(editor.tree_visible && editor.tree_view_active);
    editor.execute_command("tt");
    assert!(!editor.tree_visible && !editor.tree_view_active);
    editor.execute_command("tt");
    assert!(editor.tree_visible && !editor.tree_view_active);
}

#[test]
fn an_unknown_command_is_told() {
    let mut editor = editor_with(&["one"]);
    assert_eq!(editor.execute_command("frobnicate now"), Action::Nothing);
    assert_eq!(editor.command_message, "Unknown command: frobnicate");
}

#[test]
fn the_command_line_is_typed_and_carried_out() {
    let mut editor = editor_with(&["one"]);
    editor.mode = Mode::Command;
    assert_eq!(editor.handle_command_mode_key(Key::Char('q')), (Mode::Command, Action::Nothing));
    assert_eq!(editor.handle_command_mode_key(Key::Char('x')), (Mode::Command, Action::Nothing));
    assert_eq!(editor.command_input, "qx");
    assert_eq!(editor.handle_command_mode_key(Key::Backspace), (Mode::Command, Action::Nothing));
    assert_eq!(editor.command_input, "q");
    assert_eq!(editor.handle_command_mode_key(Key::Tab), (Mode::Command, Action::Nothing));
    assert_eq!(editor.handle_command_mode_key(Key::Enter), (Mode::Normal, Action::Nothing));
    assert_eq!(editor.command_input, "");
    assert!(editor.should_exit);
}

#[test]
fn backspace_on_an_empty_command_line_does_nothing() {
    let mut editor = editor_with(&["one"]);
    assert_eq!(editor.handle_command_mode_key(Key::Backspace), (Mode::Command, Action::Nothing));
    assert_eq!(editor.command_input, "");
}

#[test]
fn escape_gives_the_command_up() {
    let mut editor = editor_with(&["one"]);
    editor.command_input = "wq".to_string();
    editor.command_message = "note".to_string();
    assert_eq!(editor.handle_command_mode_key(Key::Esc), (Mode::Normal, Action::Nothing));
    assert_eq!(editor.command_input, "");
    assert_eq!(editor.command_message, "");
    assert!(!editor.should_exit);
}

#[test]
fn enter_on_the_command_line_hands_the_action_on() {
    let mut editor = editor_with(&["one"]);
    editor.command_input = "  e  notes.txt ".to_string();
    assert_eq!(
        editor.handle_command_mode_key(Key::Enter),
        (Mode::Normal, Action::Open("notes.txt".to_string()))
    );
    assert_eq!(editor.command_input, "");
}

#[test]
fn a_new_buffer_without_a_name_is_empty() {
    let mut editor = editor_with(&["one"]);
    editor.open_file_in_new_buffer(None, FileState::Text("ignored".to_string()));
    assert_eq!(editor.buffers.len(), 2);
    assert_eq!(editor.active_buffer_index, 1);
    assert_eq!(editor.buffers[1].lines, vec![String::new()]);
    assert_eq!(editor.buffers[1].filename, None);
    assert_eq!(editor.command_message, "Opened new buffer");
}

#[test]
fn a_file_is_opened_with_its_lines() {
    let mut editor = editor_with(&["one"]);
    editor.open_file_in_new_buffer(
        Some("a.txt".to_string()),
        FileState::Text("first\r\nsecond\n\nlast\r".to_string()),
    );
    assert_eq!(editor.buffers[1].lines, words(&["first", "second", "", "last\r"]));
    assert_eq!(editor.buffers[1].filename, Some("a.txt".to_string()));
    assert!(!editor.buffers[1].modified);
    assert_eq!(editor.command_message, "Opened a.txt");
    editor.open_file_in_new_buffer(Some("b.txt".to_string()), FileState::Text(String::new()));
    assert_eq!(editor.buffers[2].lines, vec![String::new()]);
    editor.open_file_in_new_buffer(Some("c.txt".to_string()), FileState::Text("x\n".to_string()));
    assert_eq!(editor.buffers[3].lines, words(&["x"]));
    editor.open_file_in_new_buffer(Some("d.txt".to_string()), FileState::Text("\n".to_string()));
    assert_eq!(editor.buffers[4].lines, words(&[""]));
}

#[test]
fn a_missing_or_unreadable_file_gives_an_empty_buffer() {
    let mut editor = editor_with(&["one"]);
    editor.open_file_in_new_buffer(Some("new.txt".to_string()), FileState::Missing);
    assert_eq!(editor.command_message, "New file: new.txt");
    assert_eq!(editor.buffers[1].lines, vec![String::new()]);
    assert_eq!(editor.buffers[1].filename, Some("new.txt".to_string()));
    editor.open_file_in_new_buffer(
        Some("secret".to_string()),
        FileState::Unreadable("permission denied".to_string()),
    );
    assert_eq!(editor.command_message, "Error loading secret: permission denied");
    assert_eq!(editor.buffers[2].lines, vec![String::new()]);
    assert_eq!(editor.active_buffer_index, 2);
}

#[test]
fn a_file_that_is_open_is_switched_to() {
    let mut editor = editor_with(&["one"]);
    editor.open_file_in_new_buffer(Some("a.txt".to_string()), FileState::Missing);
    editor.open_file_in_new_buffer(Some("./a.txt".to_string()), FileState::Missing);
    editor.active_buffer_index = 0;
    let found = probe(
        Some("/work/a.txt"),
        &[None, Some("/work/a.txt"), Some("/work/a.txt")],
        FileState::Text("x".to_string()),
    );
    assert_eq!(editor.open_file("a.txt".to_string(), found), Some(1));
    assert_eq!(editor.active_buffer_index, 1);
    assert_eq!(editor.buffers.len(), 3);
    assert_eq!(editor.command_message, "Switched to buffer /work/a.txt");
}

#[test]
fn a_file_that_is_not_open_gets_a_new_buffer() {
    let mut editor = editor_with(&["one"]);
    let found = probe(Some("/work/b.txt"), &[Some("/work/a.txt")], FileState::Text("x\ny".to_string()));
    assert_eq!(editor.open_file("b.txt".to_string(), found), None);
    assert_eq!(editor.buffers.len(), 2);
    assert_eq!(editor.buffers[1].lines, words(&["x", "y"]));
    assert_eq!(editor.command_message, "Opened b.txt");
    let found = probe(None, &[None, None], FileState::Missing);
    assert_eq!(editor.open_file("c.txt".to_string(), found), None);
    assert_eq!(editor.buffers.len(), 3);
    assert_eq!(editor.command_message, "New file: c.txt");
    let found = probe(Some("/x"), &[None, None, None, Some("/x")], FileState::Missing);
    assert_eq!(editor.open_file("x".to_string(), found), None);
    assert_eq!(editor.buffers.len(), 4);
}

#[test]
fn directories_fold_and_unfold() {
    let mut dirs = words(&["/a", "/b"]);
    toggle_dir(&mut dirs, "/c".to_string());
    assert_eq!(dirs, words(&["/a", "/b", "/c"]));
    toggle_dir(&mut dirs, "/a".to_string());
    assert_eq!(dirs, words(&["/b", "/c"]));
    let mut dirs = words(&["/a", "/b", "/a"]);
    toggle_dir(&mut dirs, "/a".to_string());
    assert_eq!(dirs, words(&["/b"]));
    toggle_dir(&mut dirs, "/b".to_string());
    assert_eq!(dirs, words(&[]));
    toggle_dir(&mut dirs, "/b".to_string());
    toggle_dir(&mut dirs, "/a".to_string());
    assert_eq!(dirs, words(&["/b", "/a"]));
}

#[test]
fn the_choice_moves_within_the_tree() {
    let mut editor = editor_with(&["one"]);
    editor.update_tree_items(vec![item("/a", true), item("/b", false), item("/c", false)]);
    assert_eq!(editor.handle_tree_view_key(Key::Char('j')), Action::Nothing);
    assert_eq!(editor.selected_item_index, 1);
    editor.handle_tree_view_key(Key::Down);
    editor.handle_tree_view_key(Key::Down);
    assert_eq!(editor.selected_item_index, 2);
    editor.handle_tree_view_key(Key::Char('k'));
    editor.handle_tree_view_key(Key::Up);
    editor.handle_tree_view_key(Key::Up);
    assert_eq!(editor.selected_item_index, 0);
    editor.update_tree_items(vec![]);
    editor.handle_tree_view_key(Key::Down);
    assert_eq!(editor.selected_item_index, 0);
    assert_eq!(editor.handle_tree_view_key(Key::Enter), Action::Nothing);
}

#[test]
fn a_shorter_tree_pulls_the_choice_up() {
    let mut editor = editor_with(&["one"]);
    editor.update_tree_items(vec![item("/a", true), item("/b", false), item("/c", false)]);
    editor.selected_item_index = 2;
    editor.update_tree_items(vec![item("/a", true), item("/b", false)]);
    assert_eq!(editor.selected_item_index, 1);
    assert_eq!(editor.tree_items.len(), 2);
    editor.update_tree_items(vec![]);
    assert_eq!(editor.selected_item_index, 0);
}

#[test]
fn enter_on_a_directory_folds_it_and_asks_for_a_new_listing() {
    let mut editor = editor_with(&["one"]);
    editor.update_tree_items(vec![item("/a", true), item("/b", false)]);
    assert_eq!(editor.handle_tree_view_key(Key::Enter), Action::RefreshTree);
    assert_eq!(editor.expanded_dirs, words(&[".", "/a"]));
    assert!(editor.tree_view_active);
    assert_eq!(editor.handle_tree_view_key(Key::Enter), Action::RefreshTree);
    assert_eq!(editor.expanded_dirs, words(&["."]));
}

#[test]
fn enter_on_a_file_asks_for_it_and_gives_the_keys_to_the_text() {
    let mut editor = editor_with(&["one"]);
    editor.update_tree_items(vec![item("/a", true), item("/b", false)]);
    editor.selected_item_index = 1;
    assert_eq!(editor.handle_tree_view_key(Key::Enter), Action::Open("/b".to_string()));
    assert!(!editor.tree_view_active);
}

#[test]
fn tab_and_escape_give_the_keys_to_the_text() {
    let mut editor = editor_with(&["one"]);
    assert_eq!(editor.handle_tree_view_key(Key::Tab), Action::Nothing);
    assert!(!editor.tree_view_active);
    editor.tree_view_active = true;
    assert_eq!(editor.handle_tree_view_key(Key::Esc), Action::Nothing);
    assert!(!editor.tree_view_active);
    editor.tree_view_active = true;
    assert_eq!(editor.handle_tree_view_key(Key::Char('x')), Action::Nothing);
    assert!(editor.tree_view_active);
}
