//! The WebAssembly runtime as the library sees it.
//!
//! Everything in this file is taken on trust: the runtime's types are opaque,
//! and each function here makes one call into the runtime and says what that
//! call is documented to do. Nothing else in the library calls the runtime.
//!
//! The runtime ties every handle (an instance, a memory, a function) to the
//! store it was made in, and panics where a handle meets another store. The
//! `*_home` functions name that tie, so that the calls below can ask for it.

use vstd::prelude::*;
use wasmtime::{
    AsContextMut, Caller, Config, Engine, Extern, Instance, Linker, Memory, Module, Store,
    StoreContextMut, TypedFunc,
};

verus! {

/// `wasmtime::Engine`: what compiles modules and runs them. Opaque.
#[verifier::external_type_specification]
#[verifier::external_body]
pub struct ExEngine(Engine);

/// `wasmtime::Module`: a compiled module. Opaque.
#[verifier::external_type_specification]
#[verifier::external_body]
pub struct ExModule(Module);

/// `wasmtime::Store`: what owns the instances of one plugin and their
/// memories. Opaque.
#[verifier::external_type_specification]
#[verifier::external_body]
#[verifier::reject_recursive_types(T)]
pub struct ExStore<T: 'static>(Store<T>);

/// `wasmtime::StoreContextMut`: access to a store for the time of a borrow.
/// Opaque.
#[verifier::external_type_specification]
#[verifier::external_body]
#[verifier::reject_recursive_types(T)]
pub struct ExStoreContextMut<'a, T: 'static>(StoreContextMut<'a, T>);

/// `wasmtime::Caller`: what a host function is handed when a guest calls it.
/// Opaque.
#[verifier::external_type_specification]
#[verifier::external_body]
#[verifier::reject_recursive_types(T)]
pub struct ExCaller<'a, T: 'static>(Caller<'a, T>);

/// `wasmtime::Linker`: the functions that guests can import, by name. Opaque.
#[verifier::external_type_specification]
#[verifier::external_body]
#[verifier::reject_recursive_types(T)]
pub struct ExLinker<T>(Linker<T>);

/// `wasmtime::Instance`: a handle to an instantiated module. Opaque.
#[verifier::external_type_specification]
#[verifier::external_body]
pub struct ExInstance(Instance);

/// `wasmtime::Memory`: a handle to a linear memory. Opaque.
#[verifier::external_type_specification]
#[verifier::external_body]
pub struct ExMemory(Memory);

/// `wasmtime::TypedFunc`: a handle to a guest function of a known type.
/// Opaque.
#[verifier::external_type_specification]
#[verifier::external_body]
#[verifier::reject_recursive_types(Params)]
#[verifier::reject_recursive_types(Results)]
pub struct ExTypedFunc<Params, Results>(TypedFunc<Params, Results>);

/// `wasmtime::Error`: what the runtime fails with. Opaque.
#[verifier::external_type_specification]
#[verifier::external_body]
pub struct ExError(wasmtime::Error);

/// The store that a store context gives access to.
pub uninterp spec fn context_home(ctx: StoreContextMut<()>) -> int;

/// The identity of a store.
pub uninterp spec fn store_home(store: Store<()>) -> int;

/// The engine that a store was made for.
pub uninterp spec fn store_engine(store: Store<()>) -> int;

/// The engine that a linker defines its functions for.
pub uninterp spec fn linker_engine(linker: Linker<()>) -> int;

/// The names under which a linker has functions for guests to import, each
/// as the module and the name within it.
pub uninterp spec fn linker_names(linker: Linker<()>) -> Set<(Seq<char>, Seq<char>)>;

/// The store that an instance lives in.
pub uninterp spec fn instance_home(instance: Instance) -> int;

/// The store that a memory lives in.
pub uninterp spec fn memory_home(memory: Memory) -> int;

/// The store of the instance that exports this entry point.
pub uninterp spec fn entry_home(entry: TypedFunc<(), ()>) -> int;

/// The store of the instance that exports this line callback.
pub uninterp spec fn callback_home(callback: TypedFunc<(u32, i32, i32), ()>) -> int;

/// The store of the instance that exports this allocator.
pub uninterp spec fn allocator_home(allocator: TypedFunc<i32, i32>) -> int;

/// The bytes that a linear memory holds, seen through a context of its store.
pub uninterp spec fn memory_bytes(ctx: StoreContextMut<()>, memory: Memory) -> Seq<u8>;

/// `memory` with the bytes from `offset` on replaced by `bytes`.
pub open spec fn spliced(memory: Seq<u8>, offset: int, bytes: Seq<u8>) -> Seq<u8> {
    memory.subrange(0, offset) + bytes + memory.subrange(
        offset + bytes.len(),
        memory.len() as int,
    )
}

/// `Engine::new`, with the runtime's default configuration but for the
/// address space that a linear memory is given: `reservation` bytes at
/// first, `growth` bytes more when it has to move, and `guard` bytes behind
/// it that trap when touched. The numbers change how a memory is laid out,
/// not what guest code computes. It fails where the machine cannot run the
/// configuration.
#[verifier::external_body]
pub(crate) fn engine_new(
    reservation: u64,
    growth: u64,
    guard: u64,
) -> (engine: Result<Engine, wasmtime::Error>) {
    let mut config = Config::new();
    config.memory_reservation(reservation);
    config.memory_reservation_for_growth(growth);
    config.memory_guard_size(guard);
    Engine::new(&config)
}

/// `Store::try_new`, with no host data. It fails only where memory runs out.
#[verifier::external_body]
pub(crate) fn store_new(engine: &Engine) -> (store: Result<Store<()>, wasmtime::Error>) {
    Store::try_new(engine, ())
}

/// `Linker::new`, for the engine of `store`: the linker can instantiate into
/// that store, and nothing is defined in it yet.
#[verifier::external_body]
pub(crate) fn linker_for(store: &Store<()>) -> (linker: Linker<()>)
    ensures
        linker_engine(linker) == store_engine(*store),
        linker_names(linker) == Set::<(Seq<char>, Seq<char>)>::empty(),
{
    Linker::new(store.engine())
}

/// `Module::new`: decodes, validates and compiles a module. What it accepts
/// is the runtime's business; it fails with the runtime's description.
#[verifier::external_body]
pub(crate) fn module_new(
    engine: &Engine,
    wasm: &[u8],
) -> (module: Result<Module, wasmtime::Error>) {
    Module::new(engine, wasm)
}

/// `Linker::instantiate`: resolves the module's imports against the linker,
/// makes an instance in the store and runs the module's start function. The
/// runtime panics where linker and store are of different engines. The
/// instance lives in the store it was made in.
#[verifier::external_body]
pub(crate) fn instantiate(
    linker: &Linker<()>,
    store: &mut Store<()>,
    module: &Module,
) -> (instance: Result<Instance, wasmtime::Error>)
    requires
        linker_engine(*linker) == store_engine(*old(store)),
    ensures
        store_home(*final(store)) == store_home(*old(store)),
        store_engine(*final(store)) == store_engine(*old(store)),
        instance matches Ok(i) ==> instance_home(i) == store_home(*old(store)),
{
    linker.instantiate(store, module)
}

/// `AsContextMut::as_context_mut` of a store: a context of that store. The
/// store is the same store when the context is given back.
#[verifier::external_body]
pub(crate) fn store_context<'a>(store: &'a mut Store<()>) -> (ctx: StoreContextMut<'a, ()>)
    ensures
        context_home(ctx) == store_home(*old(store)),
        store_home(*final(store)) == store_home(*old(store)),
        store_engine(*final(store)) == store_engine(*old(store)),
{
    store.as_context_mut()
}

/// `Instance::get_typed_func` at the type of the entry point: the export of
/// that name, if it is a function without parameters and results. The
/// runtime panics where the instance is not of this store.
#[verifier::external_body]
pub(crate) fn export_entry(
    ctx: &mut StoreContextMut<'_, ()>,
    instance: &Instance,
    name: &str,
) -> (entry: Option<TypedFunc<(), ()>>)
    requires
        instance_home(*instance) == context_home(*old(ctx)),
    ensures
        context_home(*final(ctx)) == context_home(*old(ctx)),
        entry matches Some(f) ==> entry_home(f) == context_home(*old(ctx)),
{
    instance.get_typed_func::<(), ()>(ctx, name).ok()
}

/// `Instance::get_typed_func` at the type of the line callback: the export
/// of that name, if it is a function from a line number, a pointer and a
/// length to nothing.
#[verifier::external_body]
pub(crate) fn export_callback(
    ctx: &mut StoreContextMut<'_, ()>,
    instance: &Instance,
    name: &str,
) -> (callback: Option<TypedFunc<(u32, i32, i32), ()>>)
    requires
        instance_home(*instance) == context_home(*old(ctx)),
    ensures
        context_home(*final(ctx)) == context_home(*old(ctx)),
        callback matches Some(f) ==> callback_home(f) == context_home(*old(ctx)),
{
    instance.get_typed_func::<(u32, i32, i32), ()>(ctx, name).ok()
}

/// `Instance::get_typed_func` at the type of the allocator: the export of
/// that name, if it is a function from a size to a pointer.
#[verifier::external_body]
pub(crate) fn export_allocator(
    ctx: &mut StoreContextMut<'_, ()>,
    instance: &Instance,
    name: &str,
) -> (allocator: Option<TypedFunc<i32, i32>>)
    requires
        instance_home(*instance) == context_home(*old(ctx)),
    ensures
        context_home(*final(ctx)) == context_home(*old(ctx)),
        allocator matches Some(f) ==> allocator_home(f) == context_home(*old(ctx)),
{
    instance.get_typed_func::<i32, i32>(ctx, name).ok()
}

/// `Instance::get_typed_func` at the type of the deallocator: the export of
/// that name, if it is a function from a pointer and a size to nothing.
#[verifier::external_body]
pub(crate) fn export_deallocator(
    ctx: &mut StoreContextMut<'_, ()>,
    instance: &Instance,
    name: &str,
) -> (deallocator: Option<TypedFunc<(i32, i32), ()>>)
    requires
        instance_home(*instance) == context_home(*old(ctx)),
    ensures
        context_home(*final(ctx)) == context_home(*old(ctx)),
{
    instance.get_typed_func::<(i32, i32), ()>(ctx, name).ok()
}

/// `Instance::get_memory`: the export of that name, if it is a memory. It
/// lives in the instance's store.
#[verifier::external_body]
pub(crate) fn export_memory(
    ctx: &mut StoreContextMut<'_, ()>,
    instance: &Instance,
    name: &str,
) -> (memory: Option<Memory>)
    requires
        instance_home(*instance) == context_home(*old(ctx)),
    ensures
        context_home(*final(ctx)) == context_home(*old(ctx)),
        memory matches Some(m) ==> memory_home(m) == context_home(*old(ctx)),
{
    instance.get_memory(ctx, name)
}

/// `TypedFunc::call` of an entry point. Guest code runs: it may change the
/// guest's memory in any way, and the call comes back when the guest returns
/// or traps, which is then the error. The runtime panics where the function
/// is not of this store.
#[verifier::external_body]
pub(crate) fn call_entry(
    ctx: &mut StoreContextMut<'_, ()>,
    entry: &TypedFunc<(), ()>,
) -> (done: Result<(), wasmtime::Error>)
    requires
        entry_home(*entry) == context_home(*old(ctx)),
    ensures
        context_home(*final(ctx)) == context_home(*old(ctx)),
{
    entry.call(ctx, ())
}

/// `TypedFunc::call` of a line callback, under the same terms as
/// `call_entry`.
#[verifier::external_body]
pub(crate) fn call_callback(
    ctx: &mut StoreContextMut<'_, ()>,
    callback: &TypedFunc<(u32, i32, i32), ()>,
    line: u32,
    ptr: i32,
    len: i32,
) -> (done: Result<(), wasmtime::Error>)
    requires
        callback_home(*callback) == context_home(*old(ctx)),
    ensures
        context_home(*final(ctx)) == context_home(*old(ctx)),
{
    callback.call(ctx, (line, ptr, len))
}

/// `TypedFunc::call` of an allocator, under the same terms as `call_entry`.
/// Which pointer the guest hands back is the guest's business.
#[verifier::external_body]
pub(crate) fn call_allocator(
    ctx: &mut StoreContextMut<'_, ()>,
    allocator: &TypedFunc<i32, i32>,
    size: i32,
) -> (ptr: Result<i32, wasmtime::Error>)
    requires
        allocator_home(*allocator) == context_home(*old(ctx)),
    ensures
        context_home(*final(ctx)) == context_home(*old(ctx)),
{
    allocator.call(ctx, size)
}

/// `Caller::get_export`, taken as a memory: the memory that the calling
/// instance exports under that name, with a context of the caller's store,
/// in which it lives.
#[verifier::external_body]
pub(crate) fn caller_memory<'a>(
    caller: &'a mut Caller<'_, ()>,
    name: &str,
) -> (found: Option<(StoreContextMut<'a, ()>, Memory)>)
    ensures
        found matches Some(pair) ==> memory_home(pair.1) == context_home(pair.0),
{
    match caller.get_export(name) {
        Some(Extern::Memory(memory)) => Some((caller.as_context_mut(), memory)),
        _ => None,
    }
}

/// `Memory::data_size`: the number of bytes that the memory holds now. The
/// runtime panics where the memory is not of this store.
#[verifier::external_body]
pub(crate) fn memory_size(ctx: &StoreContextMut<'_, ()>, memory: &Memory) -> (size: usize)
    requires
        memory_home(*memory) == context_home(*ctx),
    ensures
        size == memory_bytes(*ctx, *memory).len(),
{
    memory.data_size(ctx)
}

/// `Memory::read`: a copy of `len` bytes from `offset` on. The range is
/// asked to lie within the memory, so the copy is made.
#[verifier::external_body]
pub(crate) fn memory_read(
    ctx: &StoreContextMut<'_, ()>,
    memory: &Memory,
    offset: usize,
    len: usize,
) -> (bytes: Option<Vec<u8>>)
    requires
        memory_home(*memory) == context_home(*ctx),
        offset + len <= memory_bytes(*ctx, *memory).len(),
    ensures
        bytes is Some,
        bytes matches Some(b) ==> b@ == memory_bytes(*ctx, *memory).subrange(offset as int, offset + len),
{
    let mut buffer = vec![0u8; len];
    memory.read(ctx, offset, &mut buffer).ok().map(|_| buffer)
}

/// `Memory::write`: puts `bytes` at `offset`. Where the range runs past the
/// end of the memory nothing is written, and the answer is `false`.
#[verifier::external_body]
pub(crate) fn memory_write(
    ctx: &mut StoreContextMut<'_, ()>,
    memory: &Memory,
    offset: usize,
    bytes: &[u8],
) -> (written: bool)
    requires
        memory_home(*memory) == context_home(*old(ctx)),
    ensures
        context_home(*final(ctx)) == context_home(*old(ctx)),
        written == (offset + bytes@.len() <= memory_bytes(*old(ctx), *memory).len()),
        written ==> memory_bytes(*final(ctx), *memory) == spliced(memory_bytes(*old(ctx), *memory), offset as int, bytes@),
        !written ==> memory_bytes(*final(ctx), *memory) == memory_bytes(*old(ctx), *memory),
{
    memory.write(ctx, offset, bytes).is_ok()
}

/// `Display::fmt` of the runtime's error, through `format!`: the runtime's
/// description of what went wrong.
#[verifier::external_body]
pub(crate) fn error_text(error: &wasmtime::Error) -> (text: String) {
    format!("{}", error)
}

} // verus!
