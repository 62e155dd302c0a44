//! One key at a time.
//!
//! The editor is driven from outside: whoever has the terminal reads a key,
//! hands it to `on_key`, and does what the answer asks for. A key goes to
//! the file tree while that has the keys, and else to the mode that the
//! editor is in. Where the key has changed a line, the plugins are told of
//! the line as it now reads.

use vstd::prelude::*;
use crate::bridge::PluginEffect;
use crate::command::Action;
use crate::editor::{Editor, Mode};
use crate::keys::{normal_edits, Key};
use crate::loader::CallError;

verus! {

impl Editor {
    /// Whether the file tree takes the keys.
    pub open spec fn tree_has_keys(&self) -> bool {
        self.tree_view_active && self.tree_visible
    }

    /// Whether this editor is `before` with the status message taken off,
    /// as every key does that is not typed on the command line.
    pub open spec fn cleared_from(&self, before: &Editor) -> bool {
        &&& *self == (Editor { command_message: self.command_message, ..*before })
        &&& self.command_message@ == if before.mode == Mode::Command {
            before.command_message@
        } else {
            Seq::empty()
        }
    }

    /// Whether this editor is `start` after `key` went to the pane and the
    /// mode that had the keys, with `mode` the mode that it leads to and
    /// `action` what is to be done.
    pub open spec fn handled_from(
        &self,
        start: &Editor,
        key: Key,
        mode: Mode,
        action: Action,
    ) -> bool {
        if start.tree_has_keys() {
            self.after_tree_key(start, key, action) && mode == start.mode
        } else {
            match start.mode {
                Mode::Normal => self.after_normal_key(start, key, mode) && action
                    == Action::Nothing,
                Mode::Insert => self.after_insert_key(start, key, mode) && action
                    == Action::Nothing,
                Mode::Command => self.after_command_key(start, key, (mode, action)),
            }
        }
    }

    /// Whether `key` changes a line of `start` so that plugins are to see
    /// it: every key in insert mode may, and in normal mode those that
    /// edit.
    pub open spec fn wants_highlight(start: &Editor, key: Key) -> bool {
        &&& !start.tree_has_keys()
        &&& start.mode == Mode::Insert || (start.mode == Mode::Normal && start.has_active()
            && normal_edits(start.active().page(), start.pending_command_prefix, key))
    }

    /// Whether this editor is `before` after line `line` of its active
    /// buffer was highlighted afresh, with `failure` what a plugin failed
    /// by and `effects` what was found queued.
    pub open spec fn after_highlight(
        &self,
        before: &Editor,
        line: usize,
        failure: Option<CallError>,
        effects: Seq<PluginEffect>,
    ) -> bool {
        &&& self.same_frame(before)
        &&& self.plugin_manager.plugins@.len() == before.plugin_manager.plugins@.len()
        &&& self@ == before@.rehighlight(line, failure, effects)
    }

    /// Whether this editor is `before` after the lines `rows` of its active
    /// buffer were highlighted afresh, the first and then, if it is
    /// another, the second, by way of the state `between`.
    pub open spec fn after_highlights(
        &self,
        before: &Editor,
        rows: (usize, usize),
        between: &Editor,
        first: (Option<CallError>, Seq<PluginEffect>),
        second: (Option<CallError>, Seq<PluginEffect>),
    ) -> bool {
        &&& between.after_highlight(before, rows.0, first.0, first.1)
        &&& if rows.1 != rows.0 {
            self.after_highlight(between, rows.1, second.0, second.1)
        } else {
            *self == *between
        }
    }

    /// Whether this editor is `before` after `key`, by way of the states
    /// in between: `start`, with the status message taken off; `handled`,
    /// after the key was taken; `moded`, in the mode that the key leads
    /// to; and from there, if the key changed a line, after the line that
    /// the cursor stood on and the line that it stands on now were
    /// highlighted afresh.
    pub open spec fn key_chain(
        &self,
        before: &Editor,
        start: &Editor,
        handled: &Editor,
        moded: &Editor,
        between: &Editor,
        mode: Mode,
        key: Key,
        action: Action,
        first: (Option<CallError>, Seq<PluginEffect>),
        second: (Option<CallError>, Seq<PluginEffect>),
    ) -> bool {
        &&& start.cleared_from(before)
        &&& handled.handled_from(start, key, mode, action)
        &&& *moded == (Editor { mode, ..*handled })
        &&& if Editor::wants_highlight(start, key) && start.has_active() {
            self.after_highlights(
                moded,
                (start.active().row, moded.active().row),
                between,
                first,
                second,
            )
        } else {
            *self == *moded
        }
    }

    /// Whether the cursor of the active buffer stands where `key` can be
    /// taken by the mode that has the keys. In the file tree and on the
    /// command line every key can.
    pub open spec fn takes(&self, key: Key) -> bool {
        !self.tree_has_keys() ==> match self.mode {
            Mode::Normal => self.takes_normal_key(key),
            Mode::Insert => self.takes_insert_key(key),
            Mode::Command => true,
        }
    }

    /// A cursor that stands in its text, and whose column can still be
    /// counted up, can take every key: after `clamp_cursor_position` no
    /// key is refused.
    pub proof fn lemma_cursor_in_text_takes_every_key(&self, key: Key)
        requires
            self.wf(),
            self.cursor_in_text(),
            self.has_active() ==> self.active().col < usize::MAX,
        ensures
            self.takes(key),
    {
        if self.has_active() {
            assert(self.active().lines.len() == self.active().lines@.len());
        }
    }

    /// Takes a key and says what is to be done outside the editor.
    pub fn on_key(&mut self, key: Key) -> (action: Action)
        requires
            old(self).wf(),
            old(self).takes(key),
        ensures
            final(self).wf(),
            exists|
                start: Editor,
                handled: Editor,
                moded: Editor,
                between: Editor,
                mode: Mode,
                first: (Option<CallError>, Seq<PluginEffect>),
                second: (Option<CallError>, Seq<PluginEffect>),
            | #[trigger]
                final(self).key_chain(
                    old(self),
                    &start,
                    &handled,
                    &moded,
                    &between,
                    mode,
                    key,
                    action,
                    first,
                    second,
                ),
    {
        match self.mode {
            Mode::Command => {},
            _ => {
                self.command_message = String::new();
            },
        }
        let ghost start = *self;
        let active = self.active_buffer_index < self.buffers.len();
        let mut row_before: usize = 0;
        if active {
            row_before = self.buffers[self.active_buffer_index].row;
        }
        let mut highlight = false;
        let mut action = Action::Nothing;
        let mut mode = self.mode;
        if self.tree_view_active && self.tree_visible {
            action = self.handle_tree_view_key(key);
        } else {
            match self.mode {
                Mode::Normal => {
                    let (next, edited) = self.normal_key(key);
                    mode = next;
                    highlight = edited;
                },
                Mode::Insert => {
                    mode = self.handle_insert_mode_key(key);
                    highlight = true;
                },
                Mode::Command => {
                    let (next, asked) = self.handle_command_mode_key(key);
                    mode = next;
                    action = asked;
                },
            }
        }
        let ghost handled = *self;
        self.mode = mode;
        let ghost moded = *self;
        let ghost mut between = *self;
        let ghost mut first: (Option<CallError>, Seq<PluginEffect>) = (None, Seq::empty());
        let ghost mut second: (Option<CallError>, Seq<PluginEffect>) = (None, Seq::empty());
        if highlight && active {
            let row_after = self.buffers[self.active_buffer_index].row;
            self.trigger_highlighting_for_line(row_before);
            proof {
                between = *self;
                first = choose|found: (Option<CallError>, Seq<PluginEffect>)|
                    self@ == #[trigger] moded@.rehighlight(row_before, found.0, found.1);
            }
            if row_after != row_before {
                self.trigger_highlighting_for_line(row_after);
                proof {
                    second = choose|found: (Option<CallError>, Seq<PluginEffect>)|
                        self@ == #[trigger] between@.rehighlight(row_after, found.0, found.1);
                }
            }
        }
        proof {
            assert(self.key_chain(
                old(self),
                &start,
                &handled,
                &moded,
                &between,
                mode,
                key,
                action,
                first,
                second,
            ));
        }
        action
    }
}

} // verus!
