//! What keys do in normal and in insert mode.

use vstd::prelude::*;
use crate::buffer::Buffer;
use crate::editing::Page;
use crate::editor::{Editor, Mode};

verus! {

/// A key, as far as the editor tells keys apart.
#[derive(Clone, Copy, Debug, PartialEq, Eq, Structural)]
pub enum Key {
    Char(char),
    Enter,
    Esc,
    Backspace,
    Left,
    Right,
    Up,
    Down,
    Tab,
    Other,
}

/// Whether `key` completes the command `dd` that `pending` began.
pub open spec fn completes_delete(pending: Option<char>, key: Key) -> bool {
    pending == Some('d') && key == Key::Char('d')
}

/// The page of the active buffer after `key` in normal mode, where
/// `pending` is the first key of a command of two keys, if one was typed.
pub open spec fn normal_page(page: Page, pending: Option<char>, key: Key) -> Page {
    if pending is Some {
        if completes_delete(pending, key) {
            page.delete_line()
        } else {
            page
        }
    } else if key == Key::Char('h') || key == Key::Left {
        page.left()
    } else if key == Key::Char('l') || key == Key::Right {
        page.right()
    } else if key == Key::Char('j') || key == Key::Down {
        page.down()
    } else if key == Key::Char('k') || key == Key::Up {
        page.up()
    } else if key == Key::Char('x') {
        page.delete_cell()
    } else if key == Key::Char('o') {
        page.open_below()
    } else if key == Key::Char('O') {
        page.open_above()
    } else {
        page
    }
}

/// Whether the cursor stands where `key` can be taken in normal mode: on a
/// line of the text for a key that works on the line, and short of the
/// largest number for a key that counts up.
pub open spec fn normal_takes(page: Page, pending: Option<char>, key: Key) -> bool {
    if pending is Some {
        completes_delete(pending, key) && page.lines.len() > 1 ==> page.on_text()
    } else if key == Key::Char('l') || key == Key::Right {
        page.col < usize::MAX
    } else if key == Key::Char('j') || key == Key::Down {
        page.row < usize::MAX
    } else if key == Key::Char('x') || key == Key::Char('o') {
        page.on_text()
    } else if key == Key::Char('O') {
        page.row <= page.lines.len()
    } else {
        true
    }
}

/// Whether the cursor stands where `key` can be taken in insert mode.
pub open spec fn insert_takes(page: Page, key: Key) -> bool {
    match key {
        Key::Enter => page.on_text(),
        Key::Backspace => page.can_backspace(),
        Key::Right => page.col < usize::MAX,
        Key::Down => page.row < usize::MAX,
        Key::Char(_) => page.in_text(),
        _ => true,
    }
}

/// The mode after `key` in normal mode.
pub open spec fn normal_mode(pending: Option<char>, key: Key) -> Mode {
    if pending is Some {
        Mode::Normal
    } else if key == Key::Char('i') || key == Key::Char('o') || key == Key::Char('O') {
        Mode::Insert
    } else if key == Key::Char(':') {
        Mode::Command
    } else {
        Mode::Normal
    }
}

/// Whether `key` in normal mode changes the text of the active buffer.
pub open spec fn normal_edits(page: Page, pending: Option<char>, key: Key) -> bool {
    if pending is Some {
        completes_delete(pending, key)
    } else if key == Key::Char('x') {
        page.col < page.cells().len()
    } else {
        key == Key::Char('o') || key == Key::Char('O')
    }
}

/// The page of the active buffer after `key` in insert mode. Whatever the
/// key, the cursor's line counts as edited; a key that means nothing to
/// the editor then takes the mark of modification off the buffer.
pub open spec fn insert_page(page: Page, key: Key) -> Page {
    let marked = page.edited(page.row);
    match key {
        Key::Esc => marked,
        Key::Enter => marked.split(),
        Key::Backspace => marked.backspace(),
        Key::Left => marked.left(),
        Key::Right => marked.right(),
        Key::Up => marked.up(),
        Key::Down => marked.down(),
        Key::Char(c) => marked.insert(c),
        _ => Page { modified: false, ..marked },
    }
}

impl Editor {
    /// Whether there is an active buffer.
    pub open spec fn has_active(&self) -> bool {
        self.active_buffer_index < self.buffers@.len()
    }

    /// The active buffer.
    pub open spec fn active(&self) -> Buffer {
        self.buffers@[self.active_buffer_index as int]
    }

    /// Whether `other` differs from this editor at most in its active
    /// buffer, which has kept its file name and scroll position, in the
    /// command line, in the status message, in whether a command is pending
    /// and in which pane has the keys.
    pub open spec fn same_but_editing(&self, other: &Editor) -> bool {
        &&& self.buffers@.len() == other.buffers@.len()
        &&& forall|i: int|
            0 <= i < self.buffers@.len() && i != self.active_buffer_index ==> self.buffers@[i]
                == other.buffers@[i]
        &&& self.has_active() ==> self.active().same_file(&other.active())
        &&& self.active_buffer_index == other.active_buffer_index
        &&& self.mode == other.mode
        &&& self.scroll_offset_col == other.scroll_offset_col
        &&& self.should_exit == other.should_exit
        &&& self.plugin_manager == other.plugin_manager
        &&& self.plugin_event_receiver == other.plugin_event_receiver
        &&& self.plugin_event_sender == other.plugin_event_sender
        &&& self.tree_visible == other.tree_visible
        &&& self.tree_width == other.tree_width
        &&& self.current_path == other.current_path
        &&& self.tree_scroll_pos == other.tree_scroll_pos
        &&& self.selected_item_index == other.selected_item_index
        &&& self.expanded_dirs == other.expanded_dirs
        &&& self.tree_items == other.tree_items
    }

    /// Whether this editor is `before` after `key` in normal mode, with
    /// `mode` the mode that the key leads to.
    pub open spec fn after_normal_key(&self, before: &Editor, key: Key, mode: Mode) -> bool {
        let pending = before.pending_command_prefix;
        &&& self.same_but_editing(before)
        &&& mode == normal_mode(pending, key)
        &&& self.pending_command_prefix == if pending is None && key == Key::Char('d') {
            Some('d')
        } else {
            None
        }
        &&& before.has_active() ==> self.active().page() == normal_page(
            before.active().page(),
            pending,
            key,
        )
        &&& if pending is None && key == Key::Char(':') {
            self.command_input@.len() == 0 && self.command_message@.len() == 0
        } else {
            self.command_input == before.command_input && self.command_message
                == before.command_message
        }
        &&& self.tree_view_active == (before.tree_view_active || (pending is None && key
            == Key::Tab && before.tree_visible))
    }

    /// Whether this editor is `before` after `key` in insert mode, with
    /// `mode` the mode that the key leads to. Without an active buffer no
    /// key does anything, not even the one that leaves the mode.
    pub open spec fn after_insert_key(&self, before: &Editor, key: Key, mode: Mode) -> bool {
        &&& self.same_but_editing(before)
        &&& mode == if before.has_active() && key == Key::Esc {
            Mode::Normal
        } else {
            Mode::Insert
        }
        &&& before.has_active() ==> self.active().page() == insert_page(
            before.active().page(),
            key,
        )
        &&& self.pending_command_prefix == before.pending_command_prefix
        &&& self.command_input == before.command_input
        &&& self.command_message == before.command_message
        &&& self.tree_view_active == before.tree_view_active
    }

    /// Whether the cursor of the active buffer stands where `key` can be
    /// taken in normal mode.
    pub open spec fn takes_normal_key(&self, key: Key) -> bool {
        self.has_active() ==> normal_takes(self.active().page(), self.pending_command_prefix, key)
    }

    /// Whether the cursor of the active buffer stands where `key` can be
    /// taken in insert mode.
    pub open spec fn takes_insert_key(&self, key: Key) -> bool {
        self.has_active() ==> insert_takes(self.active().page(), key)
    }

    /// Whether the cursor of the active buffer, if there is one, stands in
    /// its text.
    pub open spec fn cursor_in_text(&self) -> bool {
        self.has_active() ==> self.active().page().in_text()
    }

    /// Brings the cursor of the active buffer back into its text.
    pub fn clamp_cursor_position(&mut self)
        requires
            old(self).wf(),
        ensures
            final(self).wf(),
            final(self).same_but_editing(old(self)),
            final(self).cursor_in_text(),
            old(self).has_active() ==> final(self).active().page() == old(self).active().page().clamped(),
            final(self).pending_command_prefix == old(self).pending_command_prefix,
            final(self).command_input == old(self).command_input,
            final(self).command_message == old(self).command_message,
            final(self).tree_view_active == old(self).tree_view_active,
    {
        if self.active_buffer_index < self.buffers.len() {
            let buffer = &mut self.buffers[self.active_buffer_index];
            let _ = buffer.clamp_cursor();
        }
    }

    /// Takes a key in normal mode and says whether the text of the active
    /// buffer changed by it.
    pub fn normal_key(&mut self, key: Key) -> (taken: (Mode, bool))
        requires
            old(self).wf(),
            old(self).takes_normal_key(key),
        ensures
            final(self).wf(),
            final(self).after_normal_key(old(self), key, taken.0),
            taken.1 == (old(self).has_active() && normal_edits(
                old(self).active().page(),
                old(self).pending_command_prefix,
                key,
            )),
    {
        let pending = self.pending_command_prefix;
        self.pending_command_prefix = None;
        let active = self.active_buffer_index < self.buffers.len();
        if let Some(prefix) = pending {
            let mut edited = false;
            if prefix == 'd' {
                if let Key::Char('d') = key {
                    if active {
                        let buffer = &mut self.buffers[self.active_buffer_index];
                        buffer.delete_line();
                        edited = true;
                    }
                }
            }
            return (Mode::Normal, edited);
        }
        match key {
            Key::Char('i') => (Mode::Insert, false),
            Key::Char(':') => {
                self.command_input = String::new();
                self.command_message = String::new();
                (Mode::Command, false)
            },
            Key::Char('h') | Key::Left => {
                if active {
                    let buffer = &mut self.buffers[self.active_buffer_index];
                    buffer.move_left();
                }
                (Mode::Normal, false)
            },
            Key::Char('l') | Key::Right => {
                if active {
                    let buffer = &mut self.buffers[self.active_buffer_index];
                    buffer.move_right();
                }
                (Mode::Normal, false)
            },
            Key::Char('j') | Key::Down => {
                if active {
                    let buffer = &mut self.buffers[self.active_buffer_index];
                    buffer.move_down();
                }
                (Mode::Normal, false)
            },
            Key::Char('k') | Key::Up => {
                if active {
                    let buffer = &mut self.buffers[self.active_buffer_index];
                    buffer.move_up();
                }
                (Mode::Normal, false)
            },
            Key::Char('x') => {
                let mut edited = false;
                if active {
                    let buffer = &mut self.buffers[self.active_buffer_index];
                    edited = buffer.delete_cell();
                }
                (Mode::Normal, edited)
            },
            Key::Char('d') => {
                self.pending_command_prefix = Some('d');
                (Mode::Normal, false)
            },
            Key::Char('o') => {
                if active {
                    let buffer = &mut self.buffers[self.active_buffer_index];
                    buffer.open_below();
                }
                (Mode::Insert, active)
            },
            Key::Char('O') => {
                if active {
                    let buffer = &mut self.buffers[self.active_buffer_index];
                    buffer.open_above();
                }
                (Mode::Insert, active)
            },
            Key::Tab => {
                if self.tree_visible {
                    self.tree_view_active = true;
                }
                (Mode::Normal, false)
            },
            _ => (Mode::Normal, false),
        }
    }

    /// Takes a key in normal mode: moves the cursor, edits the text, or
    /// changes the mode, which is the answer.
    pub fn handle_normal_mode_key(&mut self, key: Key) -> (mode: Mode)
        requires
            old(self).wf(),
            old(self).takes_normal_key(key),
        ensures
            final(self).wf(),
            final(self).after_normal_key(old(self), key, mode),
    {
        self.normal_key(key).0
    }

    /// Takes a key in insert mode: edits the text at the cursor, moves the
    /// cursor, or leaves the mode; the mode is the answer.
    pub fn handle_insert_mode_key(&mut self, key: Key) -> (mode: Mode)
        requires
            old(self).wf(),
            old(self).takes_insert_key(key),
        ensures
            final(self).wf(),
            final(self).after_insert_key(old(self), key, mode),
    {
        if self.active_buffer_index >= self.buffers.len() {
            return Mode::Insert;
        }
        let buffer = &mut self.buffers[self.active_buffer_index];
        let row = buffer.row;
        buffer.mark_line_as_modified(row);
        match key {
            Key::Esc => {
                return Mode::Normal;
            },
            Key::Enter => {
                buffer.split_line();
            },
            Key::Backspace => {
                buffer.backspace();
            },
            Key::Left => {
                buffer.move_left();
            },
            Key::Right => {
                buffer.move_right();
            },
            Key::Up => {
                buffer.move_up();
            },
            Key::Down => {
                buffer.move_down();
            },
            Key::Char(c) => {
                buffer.insert_char(c);
            },
            _ => {
                buffer.modified = false;
            },
        }
        Mode::Insert
    }
}

} // verus!
