//! The command line, the file tree, and the files behind the buffers.
//!
//! The editor does not touch the disk. Where a command needs a file read or
//! written, or the tree listed again, it says so by the `Action` that it
//! returns; whoever drives the editor does it and hands back what came of
//! it.

use vstd::prelude::*;
use vstd::string::StringExecFns;
use crate::buffer::{texts, Buffer};
use crate::editor::{Editor, Mode, TreeItem};
use crate::keys::Key;
use crate::text::{
    holds, join_with, joined_with, labelled, lines_of, pop_char, push_char, split_lines, split_words, words,
};

verus! {

/// What is to be written where.
#[derive(Clone, Debug, PartialEq, Eq)]
pub struct SaveJob {
    pub path: String,
    pub text: String,
    /// Whether the editor is to end once the buffer is saved.
    pub then_quit: bool,
}

/// What the driver of the editor is to do after a key.
#[derive(Clone, Debug, PartialEq, Eq)]
pub enum Action {
    /// Nothing.
    Nothing,
    /// List the file tree again, and hand it to `update_tree_items`.
    RefreshTree,
    /// Look at the file of this name, and hand what is found to
    /// `open_file`.
    Open(String),
    /// Write the text to the file, and hand the outcome to `file_saved`.
    Save(SaveJob),
}

/// A command, as typed behind the colon.
#[derive(Clone, Debug, PartialEq, Eq)]
pub enum Command {
    Nothing,
    Quit,
    ForceQuit,
    Write(Option<String>),
    WriteQuit(Option<String>),
    Edit(Option<String>),
    NextBuffer,
    PreviousBuffer,
    ToggleTree,
    Unknown(String),
}

/// What is known of a file that is to be opened.
#[derive(Clone, Debug, PartialEq, Eq)]
pub enum FileState {
    /// There is no such file.
    Missing,
    /// There is one, but it could not be read; the text says why.
    Unreadable(String),
    /// The text of the file.
    Text(String),
}

/// What was found out about a file that is to be opened: the one form of
/// its name under which files are told apart, if the name leads anywhere;
/// that form for each buffer, in their order, where a buffer has a file
/// name that leads anywhere; and the state of the file.
#[derive(Clone, Debug, PartialEq, Eq)]
pub struct FileProbe {
    pub canonical: Option<String>,
    pub open_canonicals: Vec<Option<String>>,
    pub found: FileState,
}

/// The text of a string that may be missing.
pub open spec fn text_of(s: Option<String>) -> Option<Seq<char>> {
    match s {
        Some(s) => Some(s@),
        None => None,
    }
}

/// The first argument of a command, if it has one.
pub open spec fn first_argument(words: Seq<Seq<char>>) -> Option<Seq<char>> {
    if words.len() > 1 {
        Some(words[1])
    } else {
        None
    }
}

impl Command {
    /// Whether this is the command that `words` spell.
    pub open spec fn spelled_by(&self, words: Seq<Seq<char>>) -> bool {
        if words.len() == 0 {
            *self == Command::Nothing
        } else if words[0] == "q"@ {
            *self == Command::Quit
        } else if words[0] == "q!"@ {
            *self == Command::ForceQuit
        } else if words[0] == "w"@ {
            *self matches Command::Write(a) && text_of(a) == first_argument(words)
        } else if words[0] == "wq"@ {
            *self matches Command::WriteQuit(a) && text_of(a) == first_argument(words)
        } else if words[0] == "e"@ {
            *self matches Command::Edit(a) && text_of(a) == first_argument(words)
        } else if words[0] == "bn"@ {
            *self == Command::NextBuffer
        } else if words[0] == "bp"@ {
            *self == Command::PreviousBuffer
        } else if words[0] == "tt"@ {
            *self == Command::ToggleTree
        } else {
            *self matches Command::Unknown(name) && name@ == words[0]
        }
    }
}

/// Whether `s` reads `literal`.
fn reads(s: &String, literal: &str) -> (same: bool)
    ensures
        same == (s@ == literal@),
{
    let other = literal.to_owned();
    *s == other
}

/// The command that the words of a command line spell: the first word
/// names it, the second is its argument, the rest is ignored.
pub fn command_of(words: &Vec<String>) -> (command: Command)
    ensures
        command.spelled_by(texts(words@)),
{
    if words.len() == 0 {
        return Command::Nothing;
    }
    let name = &words[0];
    let argument = if words.len() > 1 {
        Some(words[1].clone())
    } else {
        None
    };
    if reads(name, "q") {
        Command::Quit
    } else if reads(name, "q!") {
        Command::ForceQuit
    } else if reads(name, "w") {
        Command::Write(argument)
    } else if reads(name, "wq") {
        Command::WriteQuit(argument)
    } else if reads(name, "e") {
        Command::Edit(argument)
    } else if reads(name, "bn") {
        Command::NextBuffer
    } else if reads(name, "bp") {
        Command::PreviousBuffer
    } else if reads(name, "tt") {
        Command::ToggleTree
    } else {
        Command::Unknown(name.clone())
    }
}

/// The index behind `index` among `count` buffers, going round.
pub open spec fn next_index(index: usize, count: nat) -> usize {
    if count == 0 {
        index
    } else if index % (count as usize) + 1 == count {
        0
    } else {
        (index % (count as usize) + 1) as usize
    }
}

/// The index before `index` among `count` buffers, going round.
pub open spec fn previous_index(index: usize, count: nat) -> usize {
    if count == 0 {
        index
    } else if index % (count as usize) == 0 {
        (count - 1) as usize
    } else {
        (index % (count as usize) - 1) as usize
    }
}

/// `dirs` without any `path`, in their order.
pub open spec fn without_dir(dirs: Seq<Seq<char>>, path: Seq<char>) -> Seq<Seq<char>>
    decreases dirs.len(),
{
    if dirs.len() == 0 {
        dirs
    } else if dirs.last() == path {
        without_dir(dirs.drop_last(), path)
    } else {
        without_dir(dirs.drop_last(), path).push(dirs.last())
    }
}

/// `dirs` without `path` if it holds it, and with it behind the others if
/// not.
pub open spec fn toggled(dirs: Seq<Seq<char>>, path: Seq<char>) -> Seq<Seq<char>> {
    if dirs.contains(path) {
        without_dir(dirs, path)
    } else {
        dirs.push(path)
    }
}

/// The text that a file holds for a buffer: its lines, or one empty line
/// where it has none.
pub open spec fn file_lines(text: Seq<char>) -> Seq<Seq<char>> {
    if lines_of(text).len() == 0 {
        seq![Seq::<char>::empty()]
    } else {
        lines_of(text)
    }
}

/// Whether buffer `i` holds the file that is looked for.
pub open spec fn is_open_at(
    canonical: Option<Seq<char>>,
    open: Seq<Option<String>>,
    count: nat,
    i: int,
) -> bool {
    0 <= i < count && i < open.len() && canonical is Some && text_of(open[i]) == canonical
}

/// Taking a directory out leaves only directories that were there, none of
/// them twice if none was there twice, and not the one taken out.
pub proof fn lemma_without_dir(dirs: Seq<Seq<char>>, path: Seq<char>)
    ensures
        !without_dir(dirs, path).contains(path),
        forall|other: Seq<char>|
            other != path ==> (#[trigger] without_dir(dirs, path).contains(other)
                <==> dirs.contains(other)),
        dirs.no_duplicates() ==> without_dir(dirs, path).no_duplicates(),
    decreases dirs.len(),
{
    if dirs.len() > 0 {
        let rest = dirs.drop_last();
        let kept = without_dir(rest, path);
        lemma_without_dir(rest, path);
        assert(dirs =~= rest.push(dirs.last()));
        assert forall|other: Seq<char>| other != path implies (#[trigger] without_dir(
            dirs,
            path,
        ).contains(other) <==> dirs.contains(other)) by {
            let out = without_dir(dirs, path);
            if out.contains(other) {
                let k = choose|k: int| 0 <= k < out.len() && out[k] == other;
                if k < kept.len() {
                    assert(kept[k] == other);
                    assert(kept.contains(other));
                    let j = choose|j: int| 0 <= j < rest.len() && rest[j] == other;
                    assert(dirs[j] == other);
                } else {
                    assert(dirs[dirs.len() - 1] == other);
                }
            }
            if dirs.contains(other) {
                let j = choose|j: int| 0 <= j < dirs.len() && dirs[j] == other;
                if j < rest.len() {
                    assert(rest[j] == other);
                    assert(rest.contains(other));
                    assert(kept.contains(other));
                    let k = choose|k: int| 0 <= k < kept.len() && kept[k] == other;
                    assert(out[k] == other);
                } else {
                    assert(out[out.len() - 1] == other);
                }
            }
        }
        if dirs.last() != path {
            let out = kept.push(dirs.last());
            assert(!out.contains(path)) by {
                if out.contains(path) {
                    let k = choose|k: int| 0 <= k < out.len() && out[k] == path;
                    assert(kept[k] == path);
                }
            }
            if dirs.no_duplicates() {
                assert(rest.no_duplicates());
                assert(!kept.contains(dirs.last())) by {
                    if kept.contains(dirs.last()) {
                        assert(rest.contains(dirs.last()));
                        let j = choose|j: int| 0 <= j < rest.len() && rest[j] == dirs.last();
                        assert(dirs[j] == dirs[dirs.len() - 1]);
                    }
                }
                assert forall|i: int, j: int|
                    0 <= i < out.len() && 0 <= j < out.len() && i != j implies out[i]
                    != out[j] by {
                    if i == out.len() - 1 {
                        assert(kept[j] == out[j]);
                        assert(kept.contains(out[j]));
                    } else if j == out.len() - 1 {
                        assert(kept[i] == out[i]);
                        assert(kept.contains(out[i]));
                    } else {
                        assert(kept[i] == out[i] && kept[j] == out[j]);
                    }
                }
            }
        } else if dirs.no_duplicates() {
            assert(rest.no_duplicates());
        }
    }
}

/// Folds or unfolds a directory of the file tree: a directory that is
/// held as unfolded is taken out, another is put behind those that are
/// held. Where no directory was held twice, none is afterwards.
pub fn toggle_dir(dirs: &mut Vec<String>, path: String)
    ensures
        texts(final(dirs)@) == toggled(texts(old(dirs)@), path@),
        texts(old(dirs)@).no_duplicates() ==> texts(final(dirs)@).no_duplicates(),
{
    proof {
        lemma_without_dir(texts(dirs@), path@);
    }
    let mut kept: Vec<String> = Vec::new();
    let mut found = false;
    let mut i: usize = 0;
    proof {
        assert(texts(dirs@).take(0) =~= Seq::<Seq<char>>::empty());
    }
    while i < dirs.len()
        invariant
            i <= dirs@.len(),
            dirs@ == old(dirs)@,
            texts(kept@) == without_dir(texts(dirs@).take(i as int), path@),
            found == texts(dirs@).take(i as int).contains(path@),
        decreases dirs@.len() - i,
    {
        proof {
            let next = texts(dirs@).take(i + 1);
            let so_far = texts(dirs@).take(i as int);
            assert(next.drop_last() =~= so_far);
            assert(next.last() == dirs@[i as int]@);
            if so_far.contains(path@) {
                let k = choose|k: int| 0 <= k < so_far.len() && so_far[k] == path@;
                assert(next[k] == path@);
            }
            if next.contains(path@) && next.last() != path@ {
                let k = choose|k: int| 0 <= k < next.len() && next[k] == path@;
                assert(so_far[k] == path@);
            }
        }
        if dirs[i] == path {
            found = true;
            assert(texts(dirs@).take(i + 1)[i as int] == path@);
        } else {
            let ghost before = texts(kept@);
            kept.push(dirs[i].clone());
            assert(texts(kept@) =~= before.push(dirs@[i as int]@));
        }
        i += 1;
    }
    proof {
        assert(texts(dirs@).take(i as int) =~= texts(dirs@));
    }
    if found {
        *dirs = kept;
    } else {
        let ghost before = texts(dirs@);
        dirs.push(path);
        assert(texts(dirs@) =~= before.push(path@));
    }
}

impl Editor {
    /// Whether `other` has what no key and no command changes: the plugins,
    /// the queue of their effects, the directory, and the measures of the
    /// screen.
    pub open spec fn same_plumbing(&self, other: &Editor) -> bool {
        &&& self.scroll_offset_col == other.scroll_offset_col
        &&& self.plugin_manager == other.plugin_manager
        &&& self.plugin_event_receiver == other.plugin_event_receiver
        &&& self.plugin_event_sender == other.plugin_event_sender
        &&& self.tree_width == other.tree_width
        &&& self.current_path == other.current_path
        &&& self.tree_scroll_pos == other.tree_scroll_pos
        &&& self.pending_command_prefix == other.pending_command_prefix
        &&& self.mode == other.mode
    }

    /// Whether `other` has the file tree in the state in which this editor
    /// has it.
    pub open spec fn same_tree(&self, other: &Editor) -> bool {
        &&& self.tree_visible == other.tree_visible
        &&& self.tree_view_active == other.tree_view_active
        &&& self.selected_item_index == other.selected_item_index
        &&& self.expanded_dirs == other.expanded_dirs
        &&& self.tree_items == other.tree_items
    }

    /// Whether `other` has the buffers of this editor, and the same one
    /// active.
    pub open spec fn same_buffers(&self, other: &Editor) -> bool {
        self.buffers == other.buffers && self.active_buffer_index == other.active_buffer_index
    }

    /// Whether `other` differs from this editor at most in the file name
    /// and the mark of modification of its active buffer, in the status
    /// message and in whether to end.
    pub open spec fn same_but_saved(&self, other: &Editor) -> bool {
        &&& self.same_plumbing(other)
        &&& self.same_tree(other)
        &&& self.command_input == other.command_input
        &&& self.active_buffer_index == other.active_buffer_index
        &&& self.buffers@.len() == other.buffers@.len()
        &&& forall|i: int|
            0 <= i < self.buffers@.len() && i != self.active_buffer_index ==> self.buffers@[i]
                == other.buffers@[i]
        &&& self.has_active() ==> {
            &&& self.active().lines == other.active().lines
            &&& self.active().highlights == other.active().highlights
            &&& self.active().row == other.active().row
            &&& self.active().col == other.active().col
            &&& self.active().top_row == other.active().top_row
        }
    }

    /// Whether this editor is `before` after it was asked to write its
    /// active buffer, and `action` what is to be done about it.
    pub open spec fn after_save_request(
        &self,
        before: &Editor,
        filename: Option<String>,
        then_quit: bool,
        action: Action,
    ) -> bool {
        &&& self.same_plumbing(before)
        &&& self.same_tree(before)
        &&& self.same_buffers(before)
        &&& self.command_input == before.command_input
        &&& match action {
            Action::Save(job) => {
                &&& before.has_active()
                &&& Some(job.path@) == if filename is Some {
                    text_of(filename)
                } else {
                    text_of(before.active().filename)
                }
                &&& job.text@ == joined_with(before.active()@.lines, "\n"@)
                &&& job.then_quit == then_quit
                &&& self.command_message == before.command_message
                &&& self.should_exit == before.should_exit
            },
            Action::Nothing => {
                &&& before.has_active() ==> filename is None && before.active().filename is None
                    && self.command_message@ == "No filename. Use :w <filename>"@
                &&& !before.has_active() ==> self.command_message == before.command_message
                &&& self.should_exit == (before.should_exit || (then_quit && before.has_active()
                    && !before.active().modified))
            },
            _ => false,
        }
    }

    /// Whether this editor is `before` after `command`, and `action` what
    /// is to be done about it.
    pub open spec fn after_command(
        &self,
        before: &Editor,
        command: Command,
        action: Action,
    ) -> bool {
        match command {
            Command::Write(filename) => self.after_save_request(before, filename, false, action),
            Command::WriteQuit(filename) => self.after_save_request(before, filename, true, action),
            _ => {
                &&& self.same_plumbing(before)
                &&& self.buffers == before.buffers
                &&& self.command_input == before.command_input
                &&& self.selected_item_index == before.selected_item_index
                &&& self.expanded_dirs == before.expanded_dirs
                &&& self.tree_items == before.tree_items
                &&& match command {
                    Command::Edit(Some(path)) => action matches Action::Open(p) && p@ == path@,
                    _ => action == Action::Nothing,
                }
                &&& self.command_message@ == match command {
                    Command::Quit => if before.has_active() && before.active().modified {
                        "Unsaved changes. Use q! to force quit."@
                    } else {
                        before.command_message@
                    },
                    Command::Edit(None) => "Filename needed for :e"@,
                    Command::Unknown(name) => "Unknown command: "@ + name@,
                    _ => before.command_message@,
                }
                &&& self.should_exit == match command {
                    Command::Quit => before.should_exit || !(before.has_active()
                        && before.active().modified),
                    Command::ForceQuit => true,
                    _ => before.should_exit,
                }
                &&& self.active_buffer_index == match command {
                    Command::NextBuffer => next_index(
                        before.active_buffer_index,
                        before.buffers@.len(),
                    ),
                    Command::PreviousBuffer => previous_index(
                        before.active_buffer_index,
                        before.buffers@.len(),
                    ),
                    _ => before.active_buffer_index,
                }
                &&& self.tree_visible == match command {
                    Command::ToggleTree => !before.tree_visible,
                    _ => before.tree_visible,
                }
                &&& self.tree_view_active == if command is ToggleTree {
                    before.tree_view_active && self.tree_visible
                } else {
                    before.tree_view_active
                }
            },
        }
    }

    /// Asks for the active buffer to be written: to `filename`, or to the
    /// file that it has if none is given. A buffer without a name cannot be
    /// written, and the status line says so. With `then_quit`, the editor
    /// is to end if the buffer is, or comes to be, without unsaved changes.
    pub fn save_file(&mut self, filename: Option<String>, then_quit: bool) -> (action: Action)
        requires
            old(self).wf(),
        ensures
            final(self).wf(),
            final(self).after_save_request(old(self), filename, then_quit, action),
    {
        if self.active_buffer_index >= self.buffers.len() {
            return Action::Nothing;
        }
        let buffer = &self.buffers[self.active_buffer_index];
        let target = match filename {
            Some(path) => Some(path),
            None => match &buffer.filename {
                Some(path) => Some(path.clone()),
                None => None,
            },
        };
        match target {
            Some(path) => {
                let text = join_with(&buffer.lines, "\n");
                Action::Save(SaveJob { path, text, then_quit })
            },
            None => {
                if then_quit && !buffer.modified {
                    self.should_exit = true;
                }
                self.command_message = "No filename. Use :w <filename>".to_owned();
                Action::Nothing
            },
        }
    }

    /// Takes in the outcome of writing the active buffer to `path`. Once
    /// written, the buffer has that file name and no unsaved changes; a
    /// failure is told on the status line with its reason. With
    /// `then_quit`, the editor ends if the buffer is without unsaved
    /// changes now.
    pub fn file_saved(&mut self, path: String, then_quit: bool, outcome: Result<(), String>)
        requires
            old(self).wf(),
        ensures
            final(self).wf(),
            final(self).same_but_saved(old(self)),
            !old(self).has_active() ==> final(self).command_message == old(self).command_message
                && final(self).should_exit == old(self).should_exit,
            old(self).has_active() ==> match outcome {
                Ok(()) => {
                    &&& text_of(final(self).active().filename) == Some(path@)
                    &&& !final(self).active().modified
                    &&& final(self).command_message@ == "Saved to "@ + path@
                    &&& final(self).should_exit == (old(self).should_exit || then_quit)
                },
                Err(reason) => {
                    &&& final(self).active().filename == old(self).active().filename
                    &&& final(self).active().modified == old(self).active().modified
                    &&& final(self).command_message@ == "Error saving "@ + path@ + ": "@
                        + reason@
                    &&& final(self).should_exit == (old(self).should_exit || (then_quit
                        && !old(self).active().modified))
                },
            },
    {
        if self.active_buffer_index >= self.buffers.len() {
            return ;
        }
        let buffer = &mut self.buffers[self.active_buffer_index];
        match outcome {
            Ok(()) => {
                self.command_message = labelled("Saved to ", path.as_str());
                buffer.filename = Some(path);
                buffer.modified = false;
            },
            Err(reason) => {
                let mut message = labelled("Error saving ", path.as_str());
                message.append(": ");
                message.append(reason.as_str());
                self.command_message = message;
            },
        }
        if then_quit && !buffer.modified {
            self.should_exit = true;
        }
    }

    /// Carries out a command.
    pub fn run_command(&mut self, command: Command) -> (action: Action)
        requires
            old(self).wf(),
        ensures
            final(self).wf(),
            final(self).after_command(old(self), command, action),
    {
        match command {
            Command::Nothing => Action::Nothing,
            Command::Quit => {
                if self.active_buffer_index < self.buffers.len()
                    && self.buffers[self.active_buffer_index].modified {
                    self.command_message = "Unsaved changes. Use q! to force quit.".to_owned();
                } else {
                    self.should_exit = true;
                }
                Action::Nothing
            },
            Command::ForceQuit => {
                self.should_exit = true;
                Action::Nothing
            },
            Command::Write(filename) => self.save_file(filename, false),
            Command::WriteQuit(filename) => self.save_file(filename, true),
            Command::Edit(Some(path)) => Action::Open(path),
            Command::Edit(None) => {
                self.command_message = "Filename needed for :e".to_owned();
                Action::Nothing
            },
            Command::NextBuffer => {
                let count = self.buffers.len();
                if count > 0 {
                    let at = self.active_buffer_index % count;
                    self.active_buffer_index = if at + 1 == count {
                        0
                    } else {
                        at + 1
                    };
                }
                Action::Nothing
            },
            Command::PreviousBuffer => {
                let count = self.buffers.len();
                if count > 0 {
                    let at = self.active_buffer_index % count;
                    self.active_buffer_index = if at == 0 {
                        count - 1
                    } else {
                        at - 1
                    };
                }
                Action::Nothing
            },
            Command::ToggleTree => {
                self.tree_visible = !self.tree_visible;
                if !self.tree_visible {
                    self.tree_view_active = false;
                }
                Action::Nothing
            },
            Command::Unknown(name) => {
                self.command_message = labelled("Unknown command: ", name.as_str());
                Action::Nothing
            },
        }
    }

    /// Carries out the command that `command` spells.
    pub fn execute_command(&mut self, command: &str) -> (action: Action)
        requires
            old(self).wf(),
        ensures
            final(self).wf(),
            exists|spelled: Command|
                spelled.spelled_by(words(command@)) && #[trigger] final(self).after_command(
                    old(self),
                    spelled,
                    action,
                ),
    {
        let spelled = command_of(&split_words(command));
        self.run_command(spelled)
    }

    /// Whether this editor is `before` after `key` on the command line,
    /// with `taken` the mode that the key leads to and what is to be done.
    pub open spec fn after_command_key(
        &self,
        before: &Editor,
        key: Key,
        taken: (Mode, Action),
    ) -> bool {
        match key {
            Key::Enter => {
                &&& taken.0 == Mode::Normal
                &&& exists|mid: Editor, spelled: Command|
                    spelled.spelled_by(words(before.command_input@)) && #[trigger] mid.after_command(
                        before,
                        spelled,
                        taken.1,
                    ) && self.command_input@.len() == 0 && self.after_prompt(&mid)
            },
            _ => {
                &&& taken.1 == Action::Nothing
                &&& taken.0 == if key == Key::Esc {
                    Mode::Normal
                } else {
                    Mode::Command
                }
                &&& self.after_prompt(before)
                &&& self.command_input@ == match key {
                    Key::Esc => Seq::empty(),
                    Key::Backspace => if before.command_input@.len() > 0 {
                        before.command_input@.drop_last()
                    } else {
                        before.command_input@
                    },
                    Key::Char(c) => before.command_input@.push(c),
                    _ => before.command_input@,
                }
                &&& self.command_message@ == if key == Key::Esc {
                    Seq::empty()
                } else {
                    before.command_message@
                }
            },
        }
    }

    /// Whether `other` differs from this editor at most in the command
    /// line and, where a command was not carried out, in the status
    /// message.
    pub open spec fn after_prompt(&self, other: &Editor) -> bool {
        &&& self.same_plumbing(other)
        &&& self.same_tree(other)
        &&& self.same_buffers(other)
        &&& self.should_exit == other.should_exit
    }

    /// Takes a key on the command line: edits the line, gives it up, or
    /// carries out the command that it spells. The answer is the mode that
    /// the key leads to, and what is to be done.
    pub fn handle_command_mode_key(&mut self, key: Key) -> (taken: (Mode, Action))
        requires
            old(self).wf(),
        ensures
            final(self).wf(),
            final(self).after_command_key(old(self), key, taken),
    {
        match key {
            Key::Esc => {
                self.command_input = String::new();
                self.command_message = String::new();
                (Mode::Normal, Action::Nothing)
            },
            Key::Enter => {
                let command = self.command_input.clone();
                let action = self.execute_command(command.as_str());
                let ghost mid = *self;
                self.command_input = String::new();
                proof {
                    let spelled = choose|spelled: Command|
                        spelled.spelled_by(words(command@)) && #[trigger] mid.after_command(
                            old(self),
                            spelled,
                            action,
                        );
                    assert(self.after_prompt(&mid) && self.command_message == mid.command_message);
                }
                (Mode::Normal, action)
            },
            Key::Backspace => {
                pop_char(&mut self.command_input);
                (Mode::Command, Action::Nothing)
            },
            Key::Char(c) => {
                push_char(&mut self.command_input, c);
                (Mode::Command, Action::Nothing)
            },
            _ => (Mode::Command, Action::Nothing),
        }
    }

    /// Whether this editor is `before` with the tree listed anew as
    /// `items`: the choice stays where it was, or on the last row if the
    /// tree has grown shorter.
    pub open spec fn after_tree_update(&self, before: &Editor, items: Vec<TreeItem>) -> bool {
        &&& self.same_plumbing(before)
        &&& self.same_buffers(before)
        &&& self.command_input == before.command_input
        &&& self.command_message == before.command_message
        &&& self.should_exit == before.should_exit
        &&& self.tree_visible == before.tree_visible
        &&& self.tree_view_active == before.tree_view_active
        &&& self.expanded_dirs == before.expanded_dirs
        &&& self.tree_items == items
        &&& self.selected_item_index == if before.selected_item_index < items@.len() {
            before.selected_item_index
        } else if items@.len() > 0 {
            (items@.len() - 1) as usize
        } else {
            0
        }
    }

    /// Takes in a fresh listing of the file tree.
    pub fn update_tree_items(&mut self, items: Vec<TreeItem>)
        ensures
            final(self).after_tree_update(old(self), items),
            old(self).wf() ==> final(self).wf(),
    {
        let count = items.len();
        self.tree_items = items;
        if self.selected_item_index >= count {
            self.selected_item_index = if count > 0 {
                count - 1
            } else {
                0
            };
        }
    }

    /// Whether this editor is `before` after `key` in the file tree, and
    /// `action` what is to be done about it.
    pub open spec fn after_tree_key(&self, before: &Editor, key: Key, action: Action) -> bool {
        let chosen = before.selected_item_index < before.tree_items@.len();
        let item = before.tree_items@[before.selected_item_index as int];
        let enters = key == Key::Enter && chosen;
        &&& self.same_plumbing(before)
        &&& self.same_buffers(before)
        &&& self.command_input == before.command_input
        &&& self.command_message == before.command_message
        &&& self.should_exit == before.should_exit
        &&& self.tree_visible == before.tree_visible
        &&& self.tree_items == before.tree_items
        &&& self.selected_item_index == if key == Key::Char('j') || key == Key::Down {
            if before.selected_item_index + 1 < before.tree_items@.len() {
                (before.selected_item_index + 1) as usize
            } else if before.tree_items@.len() > 0 {
                (before.tree_items@.len() - 1) as usize
            } else {
                0
            }
        } else if key == Key::Char('k') || key == Key::Up {
            if before.selected_item_index > 0 {
                (before.selected_item_index - 1) as usize
            } else {
                0
            }
        } else {
            before.selected_item_index
        }
        &&& texts(self.expanded_dirs@) == if enters && item.is_dir {
            toggled(texts(before.expanded_dirs@), item.path@)
        } else {
            texts(before.expanded_dirs@)
        }
        &&& self.tree_view_active == (before.tree_view_active && !(key == Key::Tab || key
            == Key::Esc || (enters && !item.is_dir)))
        &&& if enters && item.is_dir {
            action == Action::RefreshTree
        } else if enters {
            action matches Action::Open(path) && path@ == item.path@
        } else {
            action == Action::Nothing
        }
    }

    /// Takes a key in the file tree: moves the choice, folds or unfolds
    /// the directory chosen, asks for the file chosen to be opened, or
    /// gives the keys back to the text.
    pub fn handle_tree_view_key(&mut self, key: Key) -> (action: Action)
        requires
            old(self).wf(),
        ensures
            final(self).wf(),
            final(self).after_tree_key(old(self), key, action),
    {
        match key {
            Key::Char('j') | Key::Down => {
                let count = self.tree_items.len();
                if self.selected_item_index < count && self.selected_item_index + 1 < count {
                    self.selected_item_index += 1;
                } else if count > 0 {
                    self.selected_item_index = count - 1;
                } else {
                    self.selected_item_index = 0;
                }
                Action::Nothing
            },
            Key::Char('k') | Key::Up => {
                if self.selected_item_index > 0 {
                    self.selected_item_index -= 1;
                }
                Action::Nothing
            },
            Key::Enter => {
                if self.selected_item_index < self.tree_items.len() {
                    let path = self.tree_items[self.selected_item_index].path.clone();
                    if self.tree_items[self.selected_item_index].is_dir {
                        toggle_dir(&mut self.expanded_dirs, path);
                        Action::RefreshTree
                    } else {
                        self.tree_view_active = false;
                        Action::Open(path)
                    }
                } else {
                    Action::Nothing
                }
            },
            Key::Tab | Key::Esc => {
                self.tree_view_active = false;
                Action::Nothing
            },
            _ => Action::Nothing,
        }
    }

    /// Whether this editor is `before` with a new buffer for the file
    /// `filename` behind the others, and active.
    pub open spec fn after_new_buffer(
        &self,
        before: &Editor,
        filename: Option<String>,
        found: FileState,
    ) -> bool {
        let opened = self.buffers@.last();
        &&& self.same_plumbing(before)
        &&& self.same_tree(before)
        &&& self.command_input == before.command_input
        &&& self.should_exit == before.should_exit
        &&& self.buffers@.len() == before.buffers@.len() + 1
        &&& self.buffers@.drop_last() == before.buffers@
        &&& self.active_buffer_index == before.buffers@.len()
        &&& text_of(opened.filename) == text_of(filename)
        &&& opened.row == 0 && opened.col == 0 && opened.top_row == 0
        &&& !opened@.modified
        &&& opened@.highlights.len() == 0
        &&& opened@.lines == match (filename, found) {
            (Some(_), FileState::Text(text)) => file_lines(text@),
            _ => seq![Seq::<char>::empty()],
        }
        &&& self.command_message@ == match filename {
            None => "Opened new buffer"@,
            Some(path) => match found {
                FileState::Text(_) => "Opened "@ + path@,
                FileState::Unreadable(reason) => "Error loading "@ + path@ + ": "@ + reason@,
                FileState::Missing => "New file: "@ + path@,
            },
        }
    }

    /// Opens a new buffer and makes it the active one. With a file name,
    /// the buffer is for that file and holds its text if the file is there
    /// and could be read; the status line says which it was.
    pub fn open_file_in_new_buffer(&mut self, filename: Option<String>, found: FileState)
        requires
            old(self).wf(),
        ensures
            final(self).wf(),
            final(self).after_new_buffer(old(self), filename, found),
    {
        let mut message = "Opened new buffer".to_owned();
        let mut lines: Vec<String> = Vec::new();
        if let Some(path) = &filename {
            match found {
                FileState::Text(text) => {
                    lines = split_lines(text.as_str());
                    message = labelled("Opened ", path.as_str());
                },
                FileState::Unreadable(reason) => {
                    message = labelled("Error loading ", path.as_str());
                    message.append(": ");
                    message.append(reason.as_str());
                },
                FileState::Missing => {
                    message = labelled("New file: ", path.as_str());
                },
            }
        }
        if lines.len() == 0 {
            lines.push(String::new());
            assert(texts(lines@) =~= seq![Seq::<char>::empty()]);
        }
        let mut opened = Buffer::new(filename);
        opened.lines = lines;
        self.buffers.push(opened);
        self.active_buffer_index = self.buffers.len() - 1;
        self.command_message = message;
        assert(self.buffers@.drop_last() =~= old(self).buffers@);
    }

    /// Whether this editor is `before` made ready for use.
    pub open spec fn after_setup(&self, before: &Editor) -> bool {
        let opened = self.buffers@.last();
        &&& self.same_plumbing(before)
        &&& self.command_input == before.command_input
        &&& self.should_exit == before.should_exit
        &&& self.tree_visible == before.tree_visible
        &&& self.tree_view_active == before.tree_view_active
        &&& self.selected_item_index == before.selected_item_index
        &&& self.tree_items == before.tree_items
        &&& texts(self.expanded_dirs@) == if texts(before.expanded_dirs@).contains(
            before.current_path@,
        ) {
            texts(before.expanded_dirs@)
        } else {
            texts(before.expanded_dirs@).push(before.current_path@)
        }
        &&& self.buffers@.len() == before.buffers@.len() + 1
        &&& self.buffers@.drop_last() == before.buffers@
        &&& self.active_buffer_index == before.buffers@.len()
        &&& opened.filename is None
        &&& opened.row == 0 && opened.col == 0 && opened.top_row == 0
        &&& !opened@.modified
        &&& opened@.highlights.len() == 0
        &&& opened@.lines == seq![Seq::<char>::empty()]
        &&& self.command_message@.len() == 0
    }

    /// Makes the editor ready for use: the directory of the editor is
    /// unfolded in the file tree, an empty buffer without a name is opened
    /// and made the active one, and the status line is empty.
    pub fn setup(&mut self)
        requires
            old(self).wf(),
        ensures
            final(self).wf(),
            final(self).after_setup(old(self)),
    {
        if !holds(&self.expanded_dirs, &self.current_path) {
            let ghost before = texts(self.expanded_dirs@);
            self.expanded_dirs.push(self.current_path.clone());
            assert(texts(self.expanded_dirs@) =~= before.push(self.current_path@));
        }
        self.open_file_in_new_buffer(None, FileState::Missing);
        self.command_message = String::new();
    }

    /// Opens the file `filename`. If a buffer already holds that file, the
    /// first such buffer becomes the active one and the answer is its
    /// index; else the file is opened in a new buffer.
    pub fn open_file(&mut self, filename: String, probe: FileProbe) -> (switched: Option<usize>)
        requires
            old(self).wf(),
        ensures
            final(self).wf(),
            match switched {
                Some(at) => {
                    &&& is_open_at(
                        text_of(probe.canonical),
                        probe.open_canonicals@,
                        old(self).buffers@.len(),
                        at as int,
                    )
                    &&& forall|i: int|
                        0 <= i < at ==> !is_open_at(
                            text_of(probe.canonical),
                            probe.open_canonicals@,
                            old(self).buffers@.len(),
                            i,
                        )
                    &&& final(self).same_plumbing(old(self))
                    &&& final(self).same_tree(old(self))
                    &&& final(self).buffers == old(self).buffers
                    &&& final(self).command_input == old(self).command_input
                    &&& final(self).should_exit == old(self).should_exit
                    &&& final(self).active_buffer_index == at
                    &&& probe.canonical matches Some(name) && final(self).command_message@
                        == "Switched to buffer "@ + name@
                },
                None => {
                    &&& forall|i: int|
                        !is_open_at(
                            text_of(probe.canonical),
                            probe.open_canonicals@,
                            old(self).buffers@.len(),
                            i,
                        )
                    &&& final(self).after_new_buffer(old(self), Some(filename), probe.found)
                },
            },
    {
        if let Some(name) = &probe.canonical {
            let mut i: usize = 0;
            while i < self.buffers.len() && i < probe.open_canonicals.len()
                invariant
                    *self == *old(self),
                    self.wf(),
                    probe.canonical == Some(*name),
                    forall|k: int|
                        0 <= k < i ==> !is_open_at(
                            text_of(probe.canonical),
                            probe.open_canonicals@,
                            self.buffers@.len(),
                            k,
                        ),
                decreases self.buffers@.len() - i,
            {
                let same = match &probe.open_canonicals[i] {
                    Some(open) => *open == *name,
                    None => false,
                };
                if same {
                    self.active_buffer_index = i;
                    self.command_message = labelled("Switched to buffer ", name.as_str());
                    return Some(i);
                }
                i += 1;
            }
        }
        self.open_file_in_new_buffer(Some(filename), probe.found);
        None
    }
}

} // verus!
