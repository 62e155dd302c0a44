//! Loading plugins and calling into them.
//!
//! A plugin is a WebAssembly module that imports the host functions and
//! exports `init`. It may also export `highlight_line`, to be told of edited
//! lines, and `alloc`, through which the editor hands it the text of a line.

use vstd::prelude::*;
use vstd::string::StringSliceAdditionalSpecFns;
use crossbeam_channel::Sender;
use wasmtime::{Engine, Instance, Linker, Store, StoreContextMut, TypedFunc};
use crate::bridge::PluginEffect;
use crate::linkage::{
    link_add_highlight, link_apply_text_style, link_clear_highlights, link_emit_message,
    link_get_buffer_line_data, link_get_buffer_line_len, link_set_buffer_line,
};
use crate::marshal::{GuestMemory, PlaceError};
use crate::text::labelled;
use crate::runtime::{
    allocator_home, call_callback, call_entry, callback_home, context_home, engine_new,
    entry_home, error_text, export_allocator, export_callback, export_deallocator, export_entry,
    export_memory, instance_home, instantiate, linker_engine, linker_for, linker_names,
    module_new, store_context, store_home, store_new,
};

verus! {

/// The address space that the memory of a plugin is given at first, in
/// bytes. It is kept small, so that the editor runs where address space is
/// scarce; a memory that outgrows it is moved.
pub const MEMORY_RESERVATION: u64 = 10_485_760;

/// The address space that the memory of a plugin is given to grow into when
/// it has to be moved, in bytes.
pub const GROWTH_RESERVATION: u64 = 1_048_576;

/// The guard region behind the memory of a plugin, in bytes.
pub const GUARD_SIZE: u64 = 65_536;

/// Why a module did not become a plugin. The texts are the runtime's own
/// account of what went wrong.
#[derive(Clone, Debug, PartialEq, Eq)]
pub enum LoadError {
    /// The module's file could not be read.
    Unreadable(String),
    /// The runtime could not be set up on this machine.
    Runtime(String),
    /// A host function could not be defined.
    Link(String),
    /// The bytes are not a module that the runtime accepts.
    Compile(String),
    /// The module could not be instantiated: it imports what the host does
    /// not offer, or its start function trapped.
    Instantiate(String),
    /// The module does not export `init` as a function without parameters
    /// and results.
    MissingEntryPoint,
    /// `init` trapped.
    InitFailed(String),
}

/// Why a call into a plugin had no effect. The plugin stays loaded.
#[derive(Clone, Debug, PartialEq, Eq)]
pub enum CallError {
    /// The line number is more than a guest integer can say.
    LineTooLarge,
    /// The plugin exports no memory.
    MissingMemory,
    /// The plugin exports no allocator.
    MissingAllocator,
    /// The text is longer than a guest integer can say.
    TextTooLong,
    /// The plugin's allocator pointed outside the plugin's memory.
    OutOfBounds,
    /// Guest code trapped.
    Trap(String),
}

impl LoadError {
    /// Whether this is an error that making a plugin of a module can end
    /// in: any but that of the file that could not be read, which is behind
    /// by then.
    pub open spec fn of_loading(&self) -> bool {
        !(*self is Unreadable)
    }

    /// The error in words.
    pub open spec fn text(&self) -> Seq<char> {
        match *self {
            LoadError::Unreadable(detail) => "cannot read the module: "@ + detail@,
            LoadError::Runtime(detail) => "cannot start the runtime: "@ + detail@,
            LoadError::Link(detail) => "cannot define a host function: "@ + detail@,
            LoadError::Compile(detail) => "cannot compile the module: "@ + detail@,
            LoadError::Instantiate(detail) => "cannot instantiate the module: "@ + detail@,
            LoadError::MissingEntryPoint => "the module exports no `init` function"@,
            LoadError::InitFailed(detail) => "`init` failed: "@ + detail@,
        }
    }

    /// The error in words, for the status line.
    pub fn message(&self) -> (text: String)
        ensures
            text@ == self.text(),
    {
        match self {
            LoadError::Unreadable(detail) => labelled("cannot read the module: ", detail.as_str()),
            LoadError::Runtime(detail) => labelled("cannot start the runtime: ", detail.as_str()),
            LoadError::Link(detail) => labelled("cannot define a host function: ", detail.as_str()),
            LoadError::Compile(detail) => labelled("cannot compile the module: ", detail.as_str()),
            LoadError::Instantiate(detail) => labelled(
                "cannot instantiate the module: ",
                detail.as_str(),
            ),
            LoadError::MissingEntryPoint => "the module exports no `init` function".to_owned(),
            LoadError::InitFailed(detail) => labelled("`init` failed: ", detail.as_str()),
        }
    }
}

impl CallError {
    /// The error in words.
    pub open spec fn text(&self) -> Seq<char> {
        match *self {
            CallError::LineTooLarge => "the line number is too large for a plugin"@,
            CallError::MissingMemory => "the plugin exports no memory"@,
            CallError::MissingAllocator => "the plugin exports no `alloc` function"@,
            CallError::TextTooLong => "the line is too long for a plugin"@,
            CallError::OutOfBounds => "the plugin allocated outside its memory"@,
            CallError::Trap(detail) => "the plugin trapped: "@ + detail@,
        }
    }

    /// The error in words, for the status line.
    pub fn message(&self) -> (text: String)
        ensures
            text@ == self.text(),
    {
        match self {
            CallError::LineTooLarge => "the line number is too large for a plugin".to_owned(),
            CallError::MissingMemory => "the plugin exports no memory".to_owned(),
            CallError::MissingAllocator => "the plugin exports no `alloc` function".to_owned(),
            CallError::TextTooLong => "the line is too long for a plugin".to_owned(),
            CallError::OutOfBounds => "the plugin allocated outside its memory".to_owned(),
            CallError::Trap(detail) => labelled("the plugin trapped: ", detail.as_str()),
        }
    }
}

/// What becomes of a failed attempt to hand a string to a plugin.
pub open spec fn call_error_of(e: PlaceError) -> CallError {
    match e {
        PlaceError::MissingAllocator => CallError::MissingAllocator,
        PlaceError::TextTooLong => CallError::TextTooLong,
        PlaceError::AllocatorTrapped(detail) => CallError::Trap(detail),
        PlaceError::OutOfBounds => CallError::OutOfBounds,
    }
}

fn place_failed(e: PlaceError) -> (error: CallError)
    ensures
        error == call_error_of(e),
{
    match e {
        PlaceError::MissingAllocator => CallError::MissingAllocator,
        PlaceError::TextTooLong => CallError::TextTooLong,
        PlaceError::AllocatorTrapped(detail) => CallError::Trap(detail),
        PlaceError::OutOfBounds => CallError::OutOfBounds,
    }
}

/// One loaded plugin: its store, its instance in that store, and the
/// optional exports that were found when it was loaded.
pub struct WasmPlugin {
    pub instance: Instance,
    pub store: Store<()>,
    pub highlight_line_func: Option<TypedFunc<(u32, i32, i32), ()>>,
    pub alloc_func: Option<TypedFunc<i32, i32>>,
    pub dealloc_func: Option<TypedFunc<(i32, i32), ()>>,
}

impl WasmPlugin {
    /// Instance and exports are of the plugin's own store.
    pub open spec fn wf(&self) -> bool {
        &&& instance_home(self.instance) == store_home(self.store)
        &&& self.highlight_line_func matches Some(f) ==> callback_home(f) == store_home(self.store)
        &&& self.alloc_func matches Some(f) ==> allocator_home(f) == store_home(self.store)
    }

    /// Whether `other` is this plugin as far as its handles go: the same
    /// instance and exports, in the same store.
    pub open spec fn same_handles(&self, other: &WasmPlugin) -> bool {
        &&& self.instance == other.instance
        &&& self.highlight_line_func == other.highlight_line_func
        &&& self.alloc_func == other.alloc_func
        &&& self.dealloc_func == other.dealloc_func
        &&& store_home(self.store) == store_home(other.store)
    }

    /// Tells the plugin that line `line_idx` now reads `line_content`: the
    /// text is handed to the plugin through its allocator, and its
    /// `highlight_line` is called with what `callback_arguments` makes of
    /// the line number, the place of the text and the text. A plugin
    /// without `highlight_line` is left alone. Whatever happens, the plugin
    /// keeps its handles.
    pub fn highlight(
        &mut self,
        line_idx: usize,
        line_content: &str,
    ) -> (done: Result<(), CallError>)
        requires
            old(self).wf(),
        ensures
            final(self).wf(),
            final(self).same_handles(old(self)),
            old(self).highlight_line_func is None ==> done is Ok && *final(self) == *old(self),
            done == Err::<(), CallError>(CallError::LineTooLarge) <==> old(
                self,
            ).highlight_line_func is Some && line_idx > u32::MAX,
            done == Err::<(), CallError>(CallError::MissingAllocator) ==> old(
                self,
            ).highlight_line_func is Some && line_idx <= u32::MAX && old(self).alloc_func is None,
            done == Err::<(), CallError>(CallError::TextTooLong) ==> old(
                self,
            ).highlight_line_func is Some && line_idx <= u32::MAX && old(self).alloc_func is Some
                && line_content.spec_bytes().len() > i32::MAX,
            old(self).highlight_line_func is Some && line_idx <= u32::MAX
                && old(self).alloc_func is None ==> done == Err::<(), CallError>(
                CallError::MissingMemory,
            ) || done == Err::<(), CallError>(CallError::MissingAllocator),
            old(self).highlight_line_func is Some && line_idx <= u32::MAX
                && old(self).alloc_func is Some && line_content.spec_bytes().len() > i32::MAX
                ==> done == Err::<(), CallError>(CallError::MissingMemory) || done == Err::<
                (),
                CallError,
            >(CallError::TextTooLong),
    {
        let callback = match &self.highlight_line_func {
            Some(callback) => callback,
            None => {
                return Ok(());
            },
        };
        if line_idx > u32::MAX as usize {
            return Err(CallError::LineTooLarge);
        }
        let mut ctx = store_context(&mut self.store);
        let found = match export_memory(&mut ctx, &self.instance, "memory") {
            Some(memory) => Some(GuestMemory { ctx, memory }),
            None => None,
        };
        tell_guest(found, self.alloc_func.as_ref(), callback, line_idx, line_content)
    }
}

/// Tells a guest of a line, given the memory that was found for it: the
/// text is handed over through the allocator, and the callback is called
/// with what `callback_arguments` makes of the line number, the place of
/// the text and the text. Without a memory nothing can be handed over,
/// nor without an allocator, nor a text longer than a guest integer can
/// say; apart from these, only the guest can fail the call.
pub fn tell_guest(
    found: Option<GuestMemory<'_>>,
    allocator: Option<&TypedFunc<i32, i32>>,
    callback: &TypedFunc<(u32, i32, i32), ()>,
    line_idx: usize,
    text: &str,
) -> (done: Result<(), CallError>)
    requires
        line_idx <= u32::MAX,
        found matches Some(guest) ==> guest.wf() && callback_home(*callback) == context_home(
            guest.ctx,
        ) && (allocator matches Some(f) ==> allocator_home(*f) == context_home(guest.ctx)),
    ensures
        done == Err::<(), CallError>(CallError::MissingMemory) <==> found is None,
        done == Err::<(), CallError>(CallError::MissingAllocator) <==> found is Some
            && allocator is None,
        done == Err::<(), CallError>(CallError::TextTooLong) <==> found is Some
            && allocator is Some && text.spec_bytes().len() > i32::MAX,
        done != Err::<(), CallError>(CallError::LineTooLarge),
{
    let mut guest = match found {
        Some(guest) => guest,
        None => {
            return Err(CallError::MissingMemory);
        },
    };
    let ptr = match guest.place_string_in_guest(allocator, text) {
        Ok(ptr) => ptr,
        Err(e) => {
            return Err(place_failed(e));
        },
    };
    let (line, at, len) = callback_arguments(line_idx, ptr, text);
    match call_callback(&mut guest.ctx, callback, line, at, len) {
        Ok(()) => Ok(()),
        Err(trap) => Err(CallError::Trap(error_text(&trap))),
    }
}

/// What `highlight_line` is called with for line `line_idx`, whose text of
/// `len` bytes stands at `ptr` in the guest.
pub open spec fn callback_call(line_idx: usize, ptr: i32, len: nat) -> (u32, i32, i32) {
    (line_idx as u32, ptr, len as i32)
}

/// Makes the arguments of `highlight_line`: the line number, where the text
/// stands in the guest, and how many bytes it has.
pub fn callback_arguments(line_idx: usize, ptr: i32, text: &str) -> (arguments: (u32, i32, i32))
    requires
        line_idx <= u32::MAX,
        text.spec_bytes().len() <= i32::MAX,
    ensures
        arguments == callback_call(line_idx, ptr, text.spec_bytes().len()),
        arguments.0 == line_idx,
        arguments.1 == ptr,
        arguments.2 == text.spec_bytes().len(),
{
    (line_idx as u32, ptr, text.as_bytes().len() as i32)
}

/// How the entry point of a module fared.
#[derive(Clone, Debug, PartialEq, Eq)]
pub enum EntryOutcome {
    /// The module exports no entry point.
    Missing,
    /// The entry point trapped; the text is the runtime's account.
    Trapped(String),
    /// The entry point ran and came back.
    Returned,
}

/// Runs the entry point of a module, if it has one.
fn run_entry(
    ctx: &mut StoreContextMut<'_, ()>,
    entry: &Option<TypedFunc<(), ()>>,
) -> (outcome: EntryOutcome)
    requires
        entry matches Some(f) ==> entry_home(*f) == context_home(*old(ctx)),
    ensures
        context_home(*final(ctx)) == context_home(*old(ctx)),
        outcome is Missing <==> entry is None,
{
    match entry {
        None => EntryOutcome::Missing,
        Some(init) => match call_entry(ctx, init) {
            Ok(()) => EntryOutcome::Returned,
            Err(trap) => EntryOutcome::Trapped(error_text(&trap)),
        },
    }
}

/// Makes a plugin of an instance, the exports that were found in it, and
/// how its entry point fared. The entry point is required: a module
/// without one is no plugin, and neither is one whose entry point trapped.
/// The other exports are not: the plugin holds those that were found.
pub fn assemble_plugin(
    store: Store<()>,
    instance: Instance,
    highlight_line_func: Option<TypedFunc<(u32, i32, i32), ()>>,
    alloc_func: Option<TypedFunc<i32, i32>>,
    dealloc_func: Option<TypedFunc<(i32, i32), ()>>,
    entry: EntryOutcome,
) -> (loaded: Result<WasmPlugin, LoadError>)
    ensures
        match entry {
            EntryOutcome::Missing => loaded == Err::<WasmPlugin, LoadError>(
                LoadError::MissingEntryPoint,
            ),
            EntryOutcome::Trapped(detail) => loaded == Err::<WasmPlugin, LoadError>(
                LoadError::InitFailed(detail),
            ),
            EntryOutcome::Returned => loaded == Ok::<WasmPlugin, LoadError>(
                WasmPlugin { instance, store, highlight_line_func, alloc_func, dealloc_func },
            ),
        },
{
    match entry {
        EntryOutcome::Missing => Err(LoadError::MissingEntryPoint),
        EntryOutcome::Trapped(detail) => Err(LoadError::InitFailed(detail)),
        EntryOutcome::Returned => Ok(
            WasmPlugin { instance, store, highlight_line_func, alloc_func, dealloc_func },
        ),
    }
}

/// The names of the host functions, as guests import them: all from the
/// module `host`.
pub open spec fn host_functions() -> Set<(Seq<char>, Seq<char>)> {
    set![
        ("host"@, "emit_message"@),
        ("host"@, "get_buffer_line_len"@),
        ("host"@, "get_buffer_line_data"@),
        ("host"@, "set_buffer_line"@),
        ("host"@, "add_highlight"@),
        ("host"@, "apply_text_style"@),
        ("host"@, "clear_highlights"@),
    ]
}

/// Defines the seven host functions in `linker`, under the names by which
/// guests import them. When all is well, the linker holds these beside what
/// it held. The first name that the runtime refuses ends the work with a
/// `Link` error; the linker then holds some of them, and nothing else that
/// is new.
fn define_host_functions(
    linker: &mut Linker<()>,
    effects: &Sender<PluginEffect>,
) -> (defined: Result<(), LoadError>)
    ensures
        linker_engine(*final(linker)) == linker_engine(*old(linker)),
        defined is Ok ==> linker_names(*final(linker)) == linker_names(*old(linker)).union(
            host_functions(),
        ),
        defined matches Err(e) ==> e is Link,
        linker_names(*old(linker)).subset_of(linker_names(*final(linker))),
        linker_names(*final(linker)).subset_of(
            linker_names(*old(linker)).union(host_functions()),
        ),
{
    if let Err(e) = link_emit_message(linker, "host", "emit_message", effects) {
        return Err(LoadError::Link(error_text(&e)));
    }
    if let Err(e) = link_get_buffer_line_len(linker, "host", "get_buffer_line_len", effects) {
        return Err(LoadError::Link(error_text(&e)));
    }
    if let Err(e) = link_get_buffer_line_data(linker, "host", "get_buffer_line_data", effects) {
        return Err(LoadError::Link(error_text(&e)));
    }
    if let Err(e) = link_set_buffer_line(linker, "host", "set_buffer_line", effects) {
        return Err(LoadError::Link(error_text(&e)));
    }
    if let Err(e) = link_add_highlight(linker, "host", "add_highlight", effects) {
        return Err(LoadError::Link(error_text(&e)));
    }
    if let Err(e) = link_apply_text_style(linker, "host", "apply_text_style", effects) {
        return Err(LoadError::Link(error_text(&e)));
    }
    if let Err(e) = link_clear_highlights(linker, "host", "clear_highlights", effects) {
        return Err(LoadError::Link(error_text(&e)));
    }
    assert(linker_names(*linker) =~= linker_names(*old(linker)).union(host_functions()));
    Ok(())
}

/// Makes a plugin of the module `wasm`: compiles it, instantiates it in a
/// store of its own against the host functions, finds its exports and runs
/// its `init`. Host functions that the plugin calls send their effects to
/// `effects`. The runtime decides whether a step goes well; the first that
/// does not ends the load with the error of that step. What the exports
/// and the entry point come to is for `assemble_plugin` to say.
pub fn instantiate_plugin(
    engine: &Engine,
    wasm: &[u8],
    effects: &Sender<PluginEffect>,
) -> (loaded: Result<WasmPlugin, LoadError>)
    ensures
        loaded matches Ok(plugin) ==> plugin.wf(),
        loaded matches Err(e) ==> e.of_loading(),
{
    let mut store = match store_new(engine) {
        Ok(store) => store,
        Err(e) => {
            return Err(LoadError::Runtime(error_text(&e)));
        },
    };
    let mut linker = linker_for(&store);
    if let Err(e) = define_host_functions(&mut linker, effects) {
        return Err(e);
    }
    let module = match module_new(engine, wasm) {
        Ok(module) => module,
        Err(e) => {
            return Err(LoadError::Compile(error_text(&e)));
        },
    };
    let instance = match instantiate(&linker, &mut store, &module) {
        Ok(instance) => instance,
        Err(e) => {
            return Err(LoadError::Instantiate(error_text(&e)));
        },
    };
    let mut ctx = store_context(&mut store);
    let init = export_entry(&mut ctx, &instance, "init");
    let highlight_line_func = export_callback(&mut ctx, &instance, "highlight_line");
    let alloc_func = export_allocator(&mut ctx, &instance, "alloc");
    let dealloc_func = export_deallocator(&mut ctx, &instance, "dealloc_str");
    let entry = run_entry(&mut ctx, &init);
    assemble_plugin(store, instance, highlight_line_func, alloc_func, dealloc_func, entry)
}

/// The plugins of one editor, in the order in which they were loaded.
pub struct PluginManager {
    pub engine: Engine,
    pub plugins: Vec<WasmPlugin>,
}

impl PluginManager {
    /// Every plugin is well formed.
    pub open spec fn wf(&self) -> bool {
        forall|i: int| 0 <= i < self.plugins@.len() ==> (#[trigger] self.plugins@[i]).wf()
    }

    /// A manager without plugins, with an engine of its own. Where the
    /// runtime cannot give it one, that is a `Runtime` error.
    pub fn new() -> (made: Result<PluginManager, LoadError>)
        ensures
            made matches Ok(manager) ==> manager.wf() && manager.plugins@.len() == 0,
            made matches Err(e) ==> e is Runtime,
    {
        match engine_new(MEMORY_RESERVATION, GROWTH_RESERVATION, GUARD_SIZE) {
            Ok(engine) => Ok(PluginManager { engine, plugins: Vec::new() }),
            Err(e) => Err(LoadError::Runtime(error_text(&e))),
        }
    }

    /// Registers a plugin behind the plugins already there.
    pub fn register(&mut self, plugin: WasmPlugin)
        requires
            old(self).wf(),
            plugin.wf(),
        ensures
            final(self).wf(),
            final(self).plugins@ == old(self).plugins@.push(plugin),
            final(self).engine == old(self).engine,
    {
        self.plugins.push(plugin);
    }

    /// Takes in the outcome of making a plugin: a plugin is registered
    /// behind those already there, and a failure is handed on with the
    /// registry as it was.
    pub fn take_in(&mut self, outcome: Result<WasmPlugin, LoadError>) -> (loaded: Result<
        (),
        LoadError,
    >)
        requires
            old(self).wf(),
            outcome matches Ok(plugin) ==> plugin.wf(),
        ensures
            final(self).wf(),
            final(self).engine == old(self).engine,
            match outcome {
                Ok(plugin) => loaded is Ok && final(self).plugins@ == old(self).plugins@.push(
                    plugin,
                ),
                Err(e) => loaded == Err::<(), LoadError>(e) && final(self).plugins@ == old(
                    self,
                ).plugins@,
            },
    {
        match outcome {
            Ok(plugin) => {
                self.register(plugin);
                Ok(())
            },
            Err(e) => Err(e),
        }
    }

    /// Loads the module `wasm` and, if that goes well, registers it behind
    /// the plugins already there. A module that fails to load leaves the
    /// registry as it is. How the outcome of the load is taken in is for
    /// `take_in` to say.
    pub fn load_plugin(
        &mut self,
        wasm: &[u8],
        effect_sender: &Sender<PluginEffect>,
    ) -> (loaded: Result<(), LoadError>)
        requires
            old(self).wf(),
        ensures
            final(self).wf(),
            final(self).engine == old(self).engine,
            loaded is Ok ==> final(self).plugins@.len() == old(self).plugins@.len() + 1,
            loaded is Ok ==> final(self).plugins@.drop_last() == old(self).plugins@,
            loaded is Err ==> final(self).plugins@ == old(self).plugins@,
            loaded matches Err(e) ==> e.of_loading(),
    {
        let outcome = instantiate_plugin(&self.engine, wasm, effect_sender);
        let loaded = self.take_in(outcome);
        proof {
            if loaded is Ok {
                assert(self.plugins@.drop_last() =~= old(self).plugins@);
            }
        }
        loaded
    }

    /// Whether `other` holds the plugins of this manager: as many, in the
    /// same order, each with the same handles, under the same engine.
    pub open spec fn same_plugins(&self, other: &PluginManager) -> bool {
        &&& self.engine == other.engine
        &&& self.plugins@.len() == other.plugins@.len()
        &&& forall|i: int|
            0 <= i < self.plugins@.len() ==> (#[trigger] self.plugins@[i]).same_handles(
                &other.plugins@[i],
            )
    }

    /// Whether no plugin is told of edited lines.
    pub open spec fn no_callbacks(&self) -> bool {
        forall|i: int|
            0 <= i < self.plugins@.len() ==> (#[trigger] self.plugins@[i]).highlight_line_func
                is None
    }

    /// Tells every plugin, in the order of loading, that line `line_idx` now
    /// reads `line_content`. A plugin without `highlight_line` is passed
    /// over and stays as it is. The first plugin that fails ends the round,
    /// and its error is the answer. All plugins stay loaded, each with its
    /// handles.
    pub fn trigger_highlight(
        &mut self,
        line_idx: usize,
        line_content: &str,
    ) -> (done: Result<(), CallError>)
        requires
            old(self).wf(),
        ensures
            final(self).wf(),
            final(self).same_plugins(old(self)),
            forall|i: int|
                0 <= i < old(self).plugins@.len() && (#[trigger] old(
                    self,
                ).plugins@[i]).highlight_line_func is None ==> final(self).plugins@[i] == old(
                    self,
                ).plugins@[i],
            old(self).no_callbacks() ==> done is Ok,
            done == Err::<(), CallError>(CallError::LineTooLarge) <==> line_idx > u32::MAX && !old(
                self,
            ).no_callbacks(),
            line_idx > u32::MAX ==> done is Ok || done == Err::<(), CallError>(
                CallError::LineTooLarge,
            ),
            done == Err::<(), CallError>(CallError::TextTooLong)
                ==> line_content.spec_bytes().len() > i32::MAX,
    {
        let mut i: usize = 0;
        while i < self.plugins.len()
            invariant
                i <= self.plugins@.len(),
                self.wf(),
                self.same_plugins(old(self)),
                forall|k: int|
                    0 <= k < old(self).plugins@.len() && (#[trigger] old(
                        self,
                    ).plugins@[k]).highlight_line_func is None ==> self.plugins@[k] == old(
                        self,
                    ).plugins@[k],
                line_idx > u32::MAX ==> forall|k: int|
                    0 <= k < i ==> (#[trigger] old(self).plugins@[k]).highlight_line_func is None,
            decreases self.plugins@.len() - i,
        {
            let ghost before = *self;
            let plugin = &mut self.plugins[i];
            let outcome = plugin.highlight(line_idx, line_content);
            proof {
                assert(old(self).plugins@[i as int].highlight_line_func
                    == before.plugins@[i as int].highlight_line_func);
                assert forall|k: int| 0 <= k < self.plugins@.len() implies (
                #[trigger] self.plugins@[k]).same_handles(&old(self).plugins@[k]) by {
                    assert(before.plugins@[k].same_handles(&old(self).plugins@[k]));
                }
            }
            if let Err(e) = outcome {
                return Err(e);
            }
            i += 1;
        }
        Ok(())
    }
}

} // verus!
