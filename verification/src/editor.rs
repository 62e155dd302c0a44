//! The editor's state, and what plugins may do to it.

use vstd::prelude::*;
use vstd::utf8::encode_utf8;
use crossbeam_channel::{Receiver, Sender};
use crate::bridge::PluginEffect;
use crate::buffer::{texts, Buffer, Content, Highlight};
use crate::channel::{open_channel, receive_now, send};
use crate::loader::{instantiate_plugin, CallError, LoadError, PluginManager, WasmPlugin};
use crate::text::labelled;
use crate::style::SpanStyle;
use crate::syntax::{style_of_id, SyntaxStyle};

verus! {

/// What keys mean at the moment.
#[derive(Clone, Copy, Debug, PartialEq, Eq, Structural)]
pub enum Mode {
    Normal,
    Insert,
    Command,
}

/// One row of the file tree.
#[derive(Clone, Debug, PartialEq, Eq)]
pub struct TreeItem {
    pub path: String,
    pub prefix: String,
    pub is_dir: bool,
}

/// What was found where the plugin module is looked for.
#[derive(Clone, Debug, PartialEq, Eq)]
pub enum PluginFile {
    /// There is no such file.
    Missing,
    /// There is one, but it could not be read; the text says why.
    Unreadable(String),
    /// The bytes of the file.
    Module(Vec<u8>),
}

/// Where the plugin module is looked for, relative to the working
/// directory.
pub fn plugin_path() -> (path: &'static str)
    ensures
        path@ == "./plugin.wasm"@,
{
    "./plugin.wasm"
}

/// What a query is answered with.
#[derive(Clone, Debug, PartialEq, Eq)]
pub enum Reply {
    /// The effect was a notification; nobody waits for an answer.
    Nothing,
    /// The byte length of the line, if there is such a line.
    Len(Option<usize>),
    /// The text of the line, if there is such a line.
    Data(Option<String>),
    /// The change was made.
    Done,
}

/// A reply in plain values.
pub enum Answer {
    Nothing,
    Len(Option<nat>),
    Data(Option<Seq<char>>),
    Done,
}

impl View for Reply {
    type V = Answer;

    open spec fn view(&self) -> Answer {
        match *self {
            Reply::Nothing => Answer::Nothing,
            Reply::Len(Some(len)) => Answer::Len(Some(len as nat)),
            Reply::Len(None) => Answer::Len(None),
            Reply::Data(Some(text)) => Answer::Data(Some(text@)),
            Reply::Data(None) => Answer::Data(None),
            Reply::Done => Answer::Done,
        }
    }
}

/// What plugins can see and change of an editor: the content of its
/// buffers, which of them is active, and the status message.
pub struct Shared {
    pub buffers: Seq<Content>,
    pub active: usize,
    pub message: Seq<char>,
}

/// The highlight that a style report stands for.
pub open spec fn styled_span(
    line: u32,
    start_byte: u32,
    end_byte: u32,
    style_id: u32,
) -> Highlight {
    Highlight {
        line: line as usize,
        start_byte: start_byte as usize,
        end_byte: end_byte as usize,
        style: SpanStyle::Syntax(style_of_id(style_id)),
    }
}

/// The highlight that a colour request stands for.
pub open spec fn colored_span(
    line: usize,
    start: usize,
    end: usize,
    fg: Option<(u8, u8, u8)>,
    bg: Option<(u8, u8, u8)>,
) -> Highlight {
    Highlight { line, start_byte: start, end_byte: end, style: SpanStyle::Color { fg, bg } }
}

impl Shared {
    /// The content of the active buffer, if there is one.
    pub open spec fn active_content(self) -> Option<Content> {
        if self.active < self.buffers.len() {
            Some(self.buffers[self.active as int])
        } else {
            None
        }
    }

    /// The state with the content of the active buffer replaced. Without an
    /// active buffer the state is unchanged.
    pub open spec fn with_active(self, content: Content) -> Shared {
        if self.active < self.buffers.len() {
            Shared { buffers: self.buffers.update(self.active as int, content), ..self }
        } else {
            self
        }
    }

    /// The text of line `n` of the active buffer, if there is such a line.
    pub open spec fn line(self, n: usize) -> Option<Seq<char>> {
        match self.active_content() {
            Some(content) => content.line(n),
            None => None,
        }
    }

    /// The byte length of line `n` of the active buffer, if there is such a
    /// line.
    pub open spec fn line_len(self, n: usize) -> Option<nat> {
        match self.active_content() {
            Some(content) => content.line_len(n),
            None => None,
        }
    }

    /// The state after line `n` of the active buffer was replaced by `text`.
    pub open spec fn set_line(self, n: usize, text: Seq<char>) -> Shared {
        match self.active_content() {
            Some(content) => self.with_active(content.set_line(n, text)),
            None => self,
        }
    }

    /// The state after `h` was laid over the active buffer.
    pub open spec fn add_highlight(self, h: Highlight) -> Shared {
        match self.active_content() {
            Some(content) => self.with_active(content.add_highlight(h)),
            None => self,
        }
    }

    /// The state after the highlights of the active buffer were dropped.
    pub open spec fn clear_highlights(self) -> Shared {
        match self.active_content() {
            Some(content) => self.with_active(content.clear_highlights()),
            None => self,
        }
    }

    /// The state with the failure `e` of a plugin on the status line.
    pub open spec fn highlight_failed(self, e: CallError) -> Shared {
        Shared { message: "Highlight error: "@ + e.text(), ..self }
    }

    /// The state after line `n` of the active buffer was highlighted afresh:
    /// its highlights went, the plugins ran, with `failure` if one of them
    /// failed, and `effects` were found queued and applied.
    pub open spec fn rehighlight(
        self,
        n: usize,
        failure: Option<CallError>,
        effects: Seq<PluginEffect>,
    ) -> Shared {
        match failure {
            Some(e) => self.invalidate_line(n).highlight_failed(e).apply_all(effects),
            None => self.invalidate_line(n).apply_all(effects),
        }
    }

    /// The state without the highlights of line `n` of the active buffer.
    pub open spec fn invalidate_line(self, n: usize) -> Shared {
        match self.active_content() {
            Some(content) => self.with_active(content.invalidate_line(n)),
            None => self,
        }
    }

    /// The state after one effect was applied. Queries for a line change
    /// nothing.
    pub open spec fn apply(self, effect: PluginEffect) -> Shared {
        match effect {
            PluginEffect::Echo(message) => Shared { message: message@, ..self },
            PluginEffect::ApplyTextStyle { line, start_byte, end_byte, style_id } => {
                self.add_highlight(styled_span(line, start_byte, end_byte, style_id))
            },
            PluginEffect::GetBufferLineLen { .. } => self,
            PluginEffect::GetBufferLineData { .. } => self,
            PluginEffect::SetBufferLine { line_num, text, .. } => self.set_line(line_num, text@),
            PluginEffect::AddHighlight { line, start, end, fg, bg, .. } => {
                self.add_highlight(colored_span(line, start, end, fg, bg))
            },
            PluginEffect::ClearHighlights(_) => self.clear_highlights(),
        }
    }

    /// What an effect is answered with, in the state in which it is
    /// applied.
    pub open spec fn answer(self, effect: PluginEffect) -> Answer {
        match effect {
            PluginEffect::Echo(_) => Answer::Nothing,
            PluginEffect::ApplyTextStyle { .. } => Answer::Nothing,
            PluginEffect::GetBufferLineLen { line_num, .. } => Answer::Len(self.line_len(line_num)),
            PluginEffect::GetBufferLineData { line_num, .. } => Answer::Data(self.line(line_num)),
            PluginEffect::SetBufferLine { .. } => Answer::Done,
            PluginEffect::AddHighlight { .. } => Answer::Done,
            PluginEffect::ClearHighlights(_) => Answer::Done,
        }
    }

    /// The state after a run of effects was applied, one after the other.
    pub open spec fn apply_all(self, effects: Seq<PluginEffect>) -> Shared
        decreases effects.len(),
    {
        if effects.len() == 0 {
            self
        } else {
            self.apply_all(effects.drop_last()).apply(effects.last())
        }
    }
}

/// The failure in how a round of highlighting ended, if there is one.
pub open spec fn failure_of(outcome: Result<(), CallError>) -> Option<CallError> {
    match outcome {
        Ok(_) => None,
        Err(e) => Some(e),
    }
}

/// The content of each buffer.
pub open spec fn contents(buffers: Seq<Buffer>) -> Seq<Content> {
    Seq::new(buffers.len(), |i: int| buffers[i]@)
}

/// The editor: its buffers and which of them is active, the mode and the
/// command line, the plugins with the queue of their effects, and the file
/// tree.
pub struct Editor {
    pub buffers: Vec<Buffer>,
    pub active_buffer_index: usize,
    pub mode: Mode,
    pub command_input: String,
    pub command_message: String,
    pub scroll_offset_col: usize,
    pub should_exit: bool,
    pub pending_command_prefix: Option<char>,
    pub plugin_manager: PluginManager,
    pub plugin_event_receiver: Receiver<PluginEffect>,
    pub plugin_event_sender: Sender<PluginEffect>,
    pub tree_visible: bool,
    pub tree_view_active: bool,
    pub tree_width: u16,
    pub current_path: String,
    pub tree_scroll_pos: usize,
    pub selected_item_index: usize,
    pub expanded_dirs: Vec<String>,
    pub tree_items: Vec<TreeItem>,
}

impl View for Editor {
    type V = Shared;

    open spec fn view(&self) -> Shared {
        Shared {
            buffers: contents(self.buffers@),
            active: self.active_buffer_index,
            message: self.command_message@,
        }
    }
}

impl Editor {
    /// Every buffer and every plugin is well formed, and no directory is
    /// held twice among the unfolded ones.
    pub open spec fn wf(&self) -> bool {
        &&& self.plugin_manager.wf()
        &&& forall|i: int| 0 <= i < self.buffers@.len() ==> (#[trigger] self.buffers@[i]).wf()
        &&& texts(self.expanded_dirs@).no_duplicates()
    }

    /// Whether `other` differs from this editor at most in what plugins can
    /// change: the content of buffers and the status message. Every buffer
    /// keeps its cursor, its file name and its number of lines.
    pub open spec fn same_session(&self, other: &Editor) -> bool {
        &&& self.same_frame(other)
        &&& self.plugin_manager == other.plugin_manager
    }

    /// As `same_session`, but the plugins may have run.
    pub open spec fn same_frame(&self, other: &Editor) -> bool {
        &&& self.buffers@.len() == other.buffers@.len()
        &&& forall|i: int|
            0 <= i < self.buffers@.len() ==> (#[trigger] self.buffers@[i]).same_place(
                &other.buffers@[i],
            ) && self.buffers@[i].lines@.len() == other.buffers@[i].lines@.len()
        &&& self.active_buffer_index == other.active_buffer_index
        &&& self.mode == other.mode
        &&& self.command_input == other.command_input
        &&& self.scroll_offset_col == other.scroll_offset_col
        &&& self.should_exit == other.should_exit
        &&& self.pending_command_prefix == other.pending_command_prefix
        &&& self.plugin_event_receiver == other.plugin_event_receiver
        &&& self.plugin_event_sender == other.plugin_event_sender
        &&& self.tree_visible == other.tree_visible
        &&& self.tree_view_active == other.tree_view_active
        &&& self.tree_width == other.tree_width
        &&& self.current_path == other.current_path
        &&& self.tree_scroll_pos == other.tree_scroll_pos
        &&& self.selected_item_index == other.selected_item_index
        &&& self.expanded_dirs == other.expanded_dirs
        &&& self.tree_items == other.tree_items
    }

    /// An editor in normal mode without a buffer, with the file tree shown
    /// and focused but nothing in it, no plugin loaded, and a fresh queue
    /// for the effects of plugins. `setup` makes it ready for use. Where
    /// the runtime for plugins cannot be had, that is a `Runtime` error.
    pub fn new(current_path: String) -> (made: Result<Editor, LoadError>)
        ensures
            made matches Err(e) ==> e is Runtime,
            made matches Ok(editor) ==> {
                &&& editor.wf()
                &&& editor.buffers@.len() == 0
                &&& editor.active_buffer_index == 0
                &&& editor.command_message@.len() == 0
                &&& editor.mode == Mode::Normal
                &&& editor.command_input@.len() == 0
                &&& !editor.should_exit
                &&& editor.pending_command_prefix is None
                &&& editor.plugin_manager.plugins@.len() == 0
                &&& editor.tree_visible
                &&& editor.tree_view_active
                &&& editor.tree_width == 30
                &&& editor.current_path@ == current_path@
                &&& editor.expanded_dirs@.len() == 0
                &&& editor.tree_items@.len() == 0
                &&& editor.scroll_offset_col == 0
                &&& editor.tree_scroll_pos == 0
                &&& editor.selected_item_index == 0
            },
    {
        let plugin_manager = match PluginManager::new() {
            Ok(manager) => manager,
            Err(e) => {
                return Err(e);
            },
        };
        let (plugin_event_sender, plugin_event_receiver) = open_channel::<PluginEffect>();
        let editor = Editor {
            buffers: Vec::new(),
            active_buffer_index: 0,
            mode: Mode::Normal,
            command_input: String::new(),
            command_message: String::new(),
            scroll_offset_col: 0,
            should_exit: false,
            pending_command_prefix: None,
            plugin_manager,
            plugin_event_receiver,
            plugin_event_sender,
            tree_visible: true,
            tree_view_active: true,
            tree_width: 30,
            current_path,
            tree_scroll_pos: 0,
            selected_item_index: 0,
            expanded_dirs: Vec::new(),
            tree_items: Vec::new(),
        };
        Ok(editor)
    }

    /// The active buffer, if there is one.
    pub fn active_buffer(&mut self) -> (buffer: Option<&mut Buffer>)
        ensures
            match buffer {
                Some(active) => {
                    &&& old(self).active_buffer_index < old(self).buffers@.len()
                    &&& *active == old(self).buffers@[old(self).active_buffer_index as int]
                    &&& *final(self) == (Editor {
                        buffers: final(self).buffers,
                        ..*old(self)
                    })
                    &&& final(self).buffers@ == old(self).buffers@.update(
                        old(self).active_buffer_index as int,
                        *final(active),
                    )
                },
                None => old(self).active_buffer_index >= old(self).buffers@.len() && *final(self)
                    == *old(self),
            },
    {
        if self.active_buffer_index < self.buffers.len() {
            Some(&mut self.buffers[self.active_buffer_index])
        } else {
            None
        }
    }

    /// The name of the current mode, as the status bar shows it.
    pub fn mode_str(&self) -> (name: &'static str)
        ensures
            name@ == match self.mode {
                Mode::Normal => "NORMAL"@,
                Mode::Insert => "INSERT"@,
                Mode::Command => "COMMAND"@,
            },
    {
        match self.mode {
            Mode::Normal => "NORMAL",
            Mode::Insert => "INSERT",
            Mode::Command => "COMMAND",
        }
    }

    /// The byte length of line `line_num` of the active buffer; `None` where
    /// there is no such line.
    pub fn line_len(&self, line_num: usize) -> (len: Option<usize>)
        ensures
            match self@.line_len(line_num) {
                Some(l) => len == Some(l as usize) && l <= usize::MAX,
                None => len is None,
            },
    {
        if self.active_buffer_index < self.buffers.len() {
            self.buffers[self.active_buffer_index].line_len(line_num)
        } else {
            None
        }
    }

    /// A copy of line `line_num` of the active buffer; `None` where there is
    /// no such line.
    pub fn line_data(&self, line_num: usize) -> (text: Option<String>)
        ensures
            match self@.line(line_num) {
                Some(t) => text matches Some(s) && s@ == t,
                None => text is None,
            },
    {
        if self.active_buffer_index < self.buffers.len() {
            self.buffers[self.active_buffer_index].line_text(line_num)
        } else {
            None
        }
    }

    /// Replaces line `line_num` of the active buffer by `text`. The
    /// highlights of that line go with its old text. Without such a line
    /// nothing changes.
    pub fn set_line(&mut self, line_num: usize, text: String)
        ensures
            final(self)@ == old(self)@.set_line(line_num, text@),
            final(self).same_session(old(self)),
            old(self).wf() ==> final(self).wf(),
    {
        if self.active_buffer_index < self.buffers.len() {
            let buffer = &mut self.buffers[self.active_buffer_index];
            let _ = buffer.set_line(line_num, text);
            assert(contents(self.buffers@) =~= contents(old(self).buffers@).update(
                self.active_buffer_index as int,
                self.buffers@[self.active_buffer_index as int]@,
            ));
        }
    }

    /// Lays `h` over the active buffer, if there is one.
    pub fn add_highlight(&mut self, h: Highlight)
        ensures
            final(self)@ == old(self)@.add_highlight(h),
            final(self).same_session(old(self)),
            old(self).wf() ==> final(self).wf(),
    {
        if self.active_buffer_index < self.buffers.len() {
            let buffer = &mut self.buffers[self.active_buffer_index];
            buffer.add_highlight(h);
            assert(contents(self.buffers@) =~= contents(old(self).buffers@).update(
                self.active_buffer_index as int,
                self.buffers@[self.active_buffer_index as int]@,
            ));
        }
    }

    /// Drops the highlights of the active buffer, if there is one.
    pub fn clear_highlights(&mut self)
        ensures
            final(self)@ == old(self)@.clear_highlights(),
            final(self).same_session(old(self)),
            old(self).wf() ==> final(self).wf(),
    {
        if self.active_buffer_index < self.buffers.len() {
            let buffer = &mut self.buffers[self.active_buffer_index];
            buffer.clear_highlights();
            assert(contents(self.buffers@) =~= contents(old(self).buffers@).update(
                self.active_buffer_index as int,
                self.buffers@[self.active_buffer_index as int]@,
            ));
        }
    }

    /// Whether this editor is `before` with `plugin` registered behind the
    /// plugins that `before` has, and the status line as it was.
    pub open spec fn registered(&self, before: &Editor, plugin: WasmPlugin) -> bool {
        &&& self.plugin_manager.plugins@ == before.plugin_manager.plugins@.push(plugin)
        &&& self.command_message == before.command_message
    }

    /// Whether this editor is `before` with the failure `e` on the status
    /// line, and the plugins as they were.
    pub open spec fn load_failed(&self, before: &Editor, e: LoadError) -> bool {
        &&& self.plugin_manager == before.plugin_manager
        &&& self.command_message@ == "Failed to load plugin: "@ + e.text()
    }

    /// Takes in the outcome of loading a plugin: a plugin is registered
    /// behind those already there, a failure is told on the status line.
    pub fn plugin_loaded(&mut self, outcome: Result<WasmPlugin, LoadError>)
        requires
            old(self).wf(),
            outcome matches Ok(plugin) ==> plugin.wf(),
        ensures
            final(self).wf(),
            final(self).same_frame(old(self)),
            contents(final(self).buffers@) == contents(old(self).buffers@),
            final(self).plugin_manager.engine == old(self).plugin_manager.engine,
            outcome matches Ok(plugin) ==> final(self).registered(old(self), plugin),
            outcome matches Err(e) ==> final(self).load_failed(old(self), e),
    {
        match outcome {
            Ok(plugin) => {
                self.plugin_manager.register(plugin);
            },
            Err(e) => {
                self.command_message = labelled("Failed to load plugin: ", e.message().as_str());
            },
        }
    }

    /// Loads the plugin module, given what was found at `plugin_path()`. A
    /// missing file is no error: loading is skipped and the status line says
    /// so. A module that loads is registered; one that does not leaves the
    /// registry as it is and its failure on the status line.
    pub fn load_plugins(&mut self, found: PluginFile)
        requires
            old(self).wf(),
        ensures
            final(self).wf(),
            final(self).same_frame(old(self)),
            contents(final(self).buffers@) == contents(old(self).buffers@),
            final(self).plugin_manager.engine == old(self).plugin_manager.engine,
            found is Missing ==> final(self).plugin_manager == old(self).plugin_manager,
            found is Missing ==> final(self).command_message@
                == "plugin.wasm not found. Skipping plugin load."@,
            found matches PluginFile::Unreadable(reason) ==> final(self).load_failed(
                old(self),
                LoadError::Unreadable(reason),
            ),
            found is Module ==> (exists|plugin: WasmPlugin|
                final(self).registered(old(self), plugin)) || (exists|e: LoadError|
                final(self).load_failed(old(self), e)),
    {
        match found {
            PluginFile::Missing => {
                self.command_message = "plugin.wasm not found. Skipping plugin load.".to_owned();
            },
            PluginFile::Unreadable(reason) => {
                self.plugin_loaded(Err(LoadError::Unreadable(reason)));
            },
            PluginFile::Module(wasm) => {
                let outcome = instantiate_plugin(
                    &self.plugin_manager.engine,
                    wasm.as_slice(),
                    &self.plugin_event_sender,
                );
                self.plugin_loaded(outcome);
            },
        }
    }

    /// Whether line `n` of the active buffer is there and has text.
    pub open spec fn has_text(&self, n: usize) -> bool {
        self@.line(n) matches Some(text) && text.len() > 0
    }

    /// Whether a round of highlighting that ended with `failure` is one
    /// that line `n` of this editor can have: no plugin fails unless the
    /// line has text and some plugin is told of edited lines; the line
    /// number is refused exactly where it is beyond what a guest can be
    /// told, and the text only where it is longer than that.
    pub open spec fn can_fail_with(&self, n: usize, failure: Option<CallError>) -> bool {
        &&& failure is Some ==> self.has_text(n) && !self.plugin_manager.no_callbacks()
        &&& failure == Some(CallError::LineTooLarge) <==> self.has_text(n)
            && !self.plugin_manager.no_callbacks() && n > u32::MAX
        &&& failure == Some(CallError::TextTooLong) ==> (self@.line(n) matches Some(text)
            && encode_utf8(text).len() > i32::MAX)
    }

    /// Takes in how a round of highlighting ended: a failure is told on the
    /// status line, and nothing else changes.
    pub fn highlight_finished(&mut self, outcome: Result<(), CallError>)
        ensures
            final(self).same_session(old(self)),
            final(self).buffers == old(self).buffers,
            outcome is Ok ==> *final(self) == *old(self),
            outcome matches Err(e) ==> final(self)@ == old(self)@.highlight_failed(e),
    {
        if let Err(e) = outcome {
            self.command_message = labelled("Highlight error: ", e.message().as_str());
        }
    }

    /// Has line `line_idx` of the active buffer highlighted afresh: its old
    /// highlights go; then, if the line has text, every plugin is told of
    /// it; then the effects that are queued are applied, so that what the
    /// plugins reported lies over the line. A plugin that fails is told on
    /// the status line and stays loaded: the plugins are those that there
    /// were, in their order, each with its handles.
    pub fn trigger_highlighting_for_line(&mut self, line_idx: usize)
        requires
            old(self).wf(),
        ensures
            final(self).wf(),
            final(self).same_frame(old(self)),
            final(self).plugin_manager.same_plugins(&old(self).plugin_manager),
            !old(self).has_text(line_idx) ==> final(self).plugin_manager == old(
                self,
            ).plugin_manager,
            exists|found: (Option<CallError>, Seq<PluginEffect>)|
                final(self)@ == #[trigger] old(self)@.rehighlight(line_idx, found.0, found.1)
                    && old(self).can_fail_with(line_idx, found.0),
    {
        let mut content: Option<String> = None;
        if self.active_buffer_index < self.buffers.len() {
            let buffer = &mut self.buffers[self.active_buffer_index];
            buffer.invalidate_line(line_idx);
            content = buffer.line_text(line_idx);
            assert(contents(self.buffers@) =~= contents(old(self).buffers@).update(
                self.active_buffer_index as int,
                self.buffers@[self.active_buffer_index as int]@,
            ));
        }
        assert(self@ == old(self)@.invalidate_line(line_idx));
        assert(self@.line(line_idx) == old(self)@.line(line_idx));
        let mut outcome: Result<(), CallError> = Ok(());
        if let Some(text) = content {
            if text.as_str().as_bytes().len() > 0 {
                outcome = self.plugin_manager.trigger_highlight(line_idx, text.as_str());
            }
        }
        let ghost failure = failure_of(outcome);
        self.highlight_finished(outcome);
        let ghost before = self@;
        let handled = self.handle_plugin_events();
        proof {
            let effects = choose|effects: Seq<PluginEffect>|
                effects.len() == handled && self@ == before.apply_all(effects);
            let found = (failure, effects);
            assert(self@ == old(self)@.rehighlight(line_idx, found.0, found.1));
            assert(old(self).can_fail_with(line_idx, found.0));
        }
    }

    /// Applies one effect and, where it is a query, answers it. What was
    /// answered is handed back as well. An answer that nobody waits for any
    /// more is dropped.
    pub fn dispatch(&mut self, effect: PluginEffect) -> (reply: Reply)
        ensures
            final(self)@ == old(self)@.apply(effect),
            reply@ == old(self)@.answer(effect),
            final(self).same_session(old(self)),
            old(self).wf() ==> final(self).wf(),
    {
        match effect {
            PluginEffect::Echo(message) => {
                self.command_message = message;
                Reply::Nothing
            },
            PluginEffect::ApplyTextStyle { line, start_byte, end_byte, style_id } => {
                self.add_highlight(
                    Highlight {
                        line: line as usize,
                        start_byte: start_byte as usize,
                        end_byte: end_byte as usize,
                        style: SpanStyle::Syntax(SyntaxStyle::from_u32(style_id)),
                    },
                );
                Reply::Nothing
            },
            PluginEffect::GetBufferLineLen { line_num, sender } => {
                let len = self.line_len(line_num);
                let _ = send(&sender, len);
                Reply::Len(len)
            },
            PluginEffect::GetBufferLineData { line_num, sender } => {
                let text = self.line_data(line_num);
                let copy = match &text {
                    Some(line) => Some(line.clone()),
                    None => None,
                };
                let _ = send(&sender, copy);
                Reply::Data(text)
            },
            PluginEffect::SetBufferLine { line_num, text, sender } => {
                self.set_line(line_num, text);
                let _ = send(&sender, ());
                Reply::Done
            },
            PluginEffect::AddHighlight { line, start, end, fg, bg, sender } => {
                self.add_highlight(
                    Highlight {
                        line,
                        start_byte: start,
                        end_byte: end,
                        style: SpanStyle::Color { fg, bg },
                    },
                );
                let _ = send(&sender, ());
                Reply::Done
            },
            PluginEffect::ClearHighlights(sender) => {
                self.clear_highlights();
                let _ = send(&sender, ());
                Reply::Done
            },
        }
    }

    /// Applies the effects that are queued, in the order in which they were
    /// queued, and comes back when the queue is found empty. It never waits.
    /// The editor changes by those effects and by nothing else.
    pub fn handle_plugin_events(&mut self) -> (handled: usize)
        ensures
            exists|effects: Seq<PluginEffect>|
                effects.len() == handled && final(self)@ == old(self)@.apply_all(effects),
            final(self).same_session(old(self)),
            old(self).wf() ==> final(self).wf(),
    {
        let ghost mut applied: Seq<PluginEffect> = Seq::empty();
        let mut handled: usize = 0;
        while handled < usize::MAX
            invariant
                applied.len() == handled,
                self@ == old(self)@.apply_all(applied),
                self.same_session(old(self)),
                old(self).wf() ==> self.wf(),
            decreases usize::MAX - handled,
        {
            let effect = match receive_now(&self.plugin_event_receiver) {
                Some(effect) => effect,
                None => {
                    break ;
                },
            };
            proof {
                let before = applied;
                applied = before.push(effect);
                assert(applied.drop_last() =~= before);
            }
            let _ = self.dispatch(effect);
            handled += 1;
        }
        handled
    }
}

} // verus!
