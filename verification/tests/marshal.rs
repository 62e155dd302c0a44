use rust_editor::abi::{answer_line_request, copy_line_out, deliver_line_data};
use rust_editor::loader::PluginManager;
use rust_editor::marshal::{GuestMemory, MemoryError, PlaceError};
use wasmtime::{AsContextMut, Caller, Engine, Instance, Linker, Memory, Module, Store};

const DATA: &str = r#"
(module
  (memory (export "memory") 1)
  (data (i32.const 8) "gr\c3\b6\c3\9fe")
  (data (i32.const 32) "\ff\fe")
  (global $next (mut i32) (i32.const 1024))
  (func (export "alloc") (param $size i32) (result i32)
    (local $at i32)
    (local.set $at (global.get $next))
    (global.set $next (i32.add (global.get $next) (local.get $size)))
    (local.get $at))
  (func (export "alloc_at_end") (param i32) (result i32) (i32.const 65534))
  (func (export "alloc_traps") (param i32) (result i32) unreachable)
  (func (export "alloc_grows") (param i32) (result i32)
    (drop (memory.grow (i32.const 1)))
    (i32.const 65536))
)
"#;

const FETCHER: &str = r#"
(module
  (import "test" "fetch" (func $fetch (param i32 i32) (result i32)))
  (import "test" "fetch_nothing" (func $nothing (param i32 i32) (result i32)))
  (memory (export "memory") 1)
  (func (export "run") (param i32 i32) (result i32)
    (call $fetch (local.get 0) (local.get 1)))
  (func (export "run_nothing") (param i32 i32) (result i32)
    (call $nothing (local.get 0) (local.get 1)))
)
"#;

const FETCHER_WITHOUT_MEMORY: &str = r#"
(module
  (import "test" "fetch" (func $fetch (param i32 i32) (result i32)))
  (func (export "run") (param i32 i32) (result i32)
    (call $fetch (local.get 0) (local.get 1)))
)
"#;

fn engine() -> Engine {
    PluginManager::new().unwrap().engine
}

fn data_instance() -> (Store<()>, Instance, Memory) {
    let engine = engine();
    let mut store = Store::new(&engine, ());
    let module = Module::new(&engine, DATA).unwrap();
    let instance = Instance::new(&mut store, &module, &[]).unwrap();
    let memory = instance.get_memory(&mut store, "memory").unwrap();
    (store, instance, memory)
}

fn fetcher(text: &str) -> (Store<()>, Instance) {
    let engine = engine();
    let mut store = Store::new(&engine, ());
    let mut linker: Linker<()> = Linker::new(&engine);
    linker
        .func_wrap("test", "fetch", |mut caller: Caller<'_, ()>, ptr: i32, capacity: i32| -> i32 {
            deliver_line_data(&mut caller, Some("größe".to_string()), ptr, capacity)
        })
        .unwrap();
    linker
        .func_wrap(
            "test",
            "fetch_nothing",
            |mut caller: Caller<'_, ()>, ptr: i32, capacity: i32| -> i32 {
                deliver_line_data(&mut caller, None, ptr, capacity)
            },
        )
        .unwrap();
    let module = Module::new(&engine, text).unwrap();
    let instance = linker.instantiate(&mut store, &module).unwrap();
    (store, instance)
}

fn run(store: &mut Store<()>, instance: &Instance, name: &str, ptr: i32, capacity: i32) -> i32 {
    let function = instance.get_typed_func::<(i32, i32), i32>(&mut *store, name).unwrap();
    function.call(&mut *store, (ptr, capacity)).unwrap()
}

#[test]
fn the_size_is_the_size_of_the_memory() {
    let (mut store, _instance, memory) = data_instance();
    let guest = GuestMemory { ctx: store.as_context_mut(), memory };
    assert_eq!(guest.size(), 65536);
}

#[test]
fn bytes_are_read_from_where_the_guest_says() {
    let (mut store, _instance, memory) = data_instance();
    let guest = GuestMemory { ctx: store.as_context_mut(), memory };
    assert_eq!(guest.read_bytes(8, 7), Ok("größe".as_bytes().to_vec()));
    assert_eq!(guest.read_bytes(9, 2), Ok(vec![b'r', 0xc3]));
    assert_eq!(guest.read_bytes(32, 2), Ok(vec![0xff, 0xfe]));
    assert_eq!(guest.read_bytes(0, 0), Ok(vec![]));
    assert_eq!(guest.read_bytes(65535, 1), Ok(vec![0]));
    assert_eq!(guest.read_bytes(65536, 0), Ok(vec![]));
}

#[test]
fn a_range_outside_the_memory_is_not_read() {
    let (mut store, _instance, memory) = data_instance();
    let guest = GuestMemory { ctx: store.as_context_mut(), memory };
    assert_eq!(guest.read_bytes(65535, 2), Err(MemoryError::OutOfBounds));
    assert_eq!(guest.read_bytes(65536, 1), Err(MemoryError::OutOfBounds));
    assert_eq!(guest.read_bytes(65537, 0), Err(MemoryError::OutOfBounds));
    assert_eq!(guest.read_bytes(0, 65537), Err(MemoryError::OutOfBounds));
    assert_eq!(guest.read_bytes(-1, 1), Err(MemoryError::OutOfBounds));
    assert_eq!(guest.read_bytes(0, -1), Err(MemoryError::OutOfBounds));
    assert_eq!(guest.read_bytes(i32::MAX, i32::MAX), Err(MemoryError::OutOfBounds));
    assert_eq!(guest.read_bytes(i32::MIN, i32::MIN), Err(MemoryError::OutOfBounds));
}

#[test]
fn text_is_read_as_utf8() {
    let (mut store, _instance, memory) = data_instance();
    let guest = GuestMemory { ctx: store.as_context_mut(), memory };
    assert_eq!(guest.read_utf8(8, 7), Ok("größe".to_string()));
    assert_eq!(guest.read_utf8(8, 0), Ok(String::new()));
    assert_eq!(guest.read_utf8(8, 4), Ok("grö".to_string()));
}

#[test]
fn bytes_that_are_not_utf8_are_refused() {
    let (mut store, _instance, memory) = data_instance();
    let guest = GuestMemory { ctx: store.as_context_mut(), memory };
    assert_eq!(guest.read_utf8(32, 2), Err(MemoryError::InvalidUtf8));
    assert_eq!(guest.read_utf8(8, 3), Err(MemoryError::InvalidUtf8));
    assert_eq!(guest.read_utf8(11, 2), Err(MemoryError::InvalidUtf8));
    assert_eq!(guest.read_utf8(65535, 2), Err(MemoryError::OutOfBounds));
    assert_eq!(guest.read_utf8(-3, 2), Err(MemoryError::OutOfBounds));
}

#[test]
fn bytes_are_written_to_where_the_guest_says() {
    let (mut store, _instance, memory) = data_instance();
    let mut guest = GuestMemory { ctx: store.as_context_mut(), memory };
    assert_eq!(guest.write_bytes(100, b"abc"), Ok(()));
    assert_eq!(guest.read_bytes(99, 5), Ok(vec![0, b'a', b'b', b'c', 0]));
    assert_eq!(guest.write_bytes(65533, b"xyz"), Ok(()));
    assert_eq!(guest.read_bytes(65533, 3), Ok(b"xyz".to_vec()));
    assert_eq!(guest.write_bytes(65536, b""), Ok(()));
    assert_eq!(guest.read_utf8(8, 7), Ok("größe".to_string()));
}

#[test]
fn a_write_outside_the_memory_writes_nothing() {
    let (mut store, _instance, memory) = data_instance();
    let mut guest = GuestMemory { ctx: store.as_context_mut(), memory };
    assert_eq!(guest.write_bytes(65534, b"abc"), Err(MemoryError::OutOfBounds));
    assert_eq!(guest.read_bytes(65534, 2), Ok(vec![0, 0]));
    assert_eq!(guest.write_bytes(-4, b"abc"), Err(MemoryError::OutOfBounds));
    assert_eq!(guest.write_bytes(65537, b""), Err(MemoryError::OutOfBounds));
    assert_eq!(guest.write_bytes(i32::MAX, b"a"), Err(MemoryError::OutOfBounds));
}

#[test]
fn a_string_is_placed_where_the_allocator_points() {
    let (mut store, instance, memory) = data_instance();
    let alloc = instance.get_typed_func::<i32, i32>(&mut store, "alloc").unwrap();
    let mut guest = GuestMemory { ctx: store.as_context_mut(), memory };
    assert_eq!(guest.place_string_in_guest(Some(&alloc), "int x;"), Ok(1024));
    assert_eq!(guest.place_string_in_guest(Some(&alloc), "größe"), Ok(1030));
    assert_eq!(guest.place_string_in_guest(Some(&alloc), ""), Ok(1037));
    assert_eq!(guest.read_utf8(1024, 13), Ok("int x;größe".to_string()));
}

#[test]
fn a_string_cannot_be_placed_without_an_allocator() {
    let (mut store, _instance, memory) = data_instance();
    let mut guest = GuestMemory { ctx: store.as_context_mut(), memory };
    assert_eq!(guest.place_string_in_guest(None, "int x;"), Err(PlaceError::MissingAllocator));
}

#[test]
fn a_string_is_not_placed_outside_the_memory() {
    let (mut store, instance, memory) = data_instance();
    let alloc = instance.get_typed_func::<i32, i32>(&mut store, "alloc_at_end").unwrap();
    let mut guest = GuestMemory { ctx: store.as_context_mut(), memory };
    assert_eq!(guest.place_string_in_guest(Some(&alloc), "abc"), Err(PlaceError::OutOfBounds));
    assert_eq!(guest.place_string_in_guest(Some(&alloc), "ab"), Ok(65534));
    assert_eq!(guest.read_bytes(65534, 2), Ok(b"ab".to_vec()));
}

#[test]
fn a_trap_in_the_allocator_is_reported() {
    let (mut store, instance, memory) = data_instance();
    let alloc = instance.get_typed_func::<i32, i32>(&mut store, "alloc_traps").unwrap();
    let mut guest = GuestMemory { ctx: store.as_context_mut(), memory };
    match guest.place_string_in_guest(Some(&alloc), "abc") {
        Err(PlaceError::AllocatorTrapped(_)) => {}
        other => panic!("expected a trap, got {:?}", other),
    }
}

#[test]
fn an_allocator_may_grow_the_memory() {
    let (mut store, instance, memory) = data_instance();
    let alloc = instance.get_typed_func::<i32, i32>(&mut store, "alloc_grows").unwrap();
    let mut guest = GuestMemory { ctx: store.as_context_mut(), memory };
    assert_eq!(guest.place_string_in_guest(Some(&alloc), "abc"), Ok(65536));
    assert_eq!(guest.size(), 131072);
    assert_eq!(guest.read_bytes(65536, 3), Ok(b"abc".to_vec()));
}

#[test]
fn a_line_is_copied_into_the_room_that_the_guest_offers() {
    let (mut store, _instance, memory) = data_instance();
    let mut guest = GuestMemory { ctx: store.as_context_mut(), memory };
    assert_eq!(copy_line_out(&mut guest, "int x;", 200, 64), 6);
    assert_eq!(guest.read_bytes(199, 8), Ok(b"\0int x;\0".to_vec()));
    assert_eq!(copy_line_out(&mut guest, "größe", 300, 7), 7);
    assert_eq!(guest.read_utf8(300, 7), Ok("größe".to_string()));
    assert_eq!(copy_line_out(&mut guest, "", 400, 0), 0);
}

#[test]
fn a_line_that_does_not_fit_is_not_copied() {
    let (mut store, _instance, memory) = data_instance();
    let mut guest = GuestMemory { ctx: store.as_context_mut(), memory };
    assert_eq!(copy_line_out(&mut guest, "int x;", 200, 5), -3);
    assert_eq!(copy_line_out(&mut guest, "größe", 200, 5), -3);
    assert_eq!(copy_line_out(&mut guest, "int x;", 200, -1), -3);
    assert_eq!(copy_line_out(&mut guest, "", 200, -1), -3);
    assert_eq!(guest.read_bytes(200, 6), Ok(vec![0; 6]));
}

#[test]
fn a_room_outside_the_memory_is_not_written() {
    let (mut store, _instance, memory) = data_instance();
    let mut guest = GuestMemory { ctx: store.as_context_mut(), memory };
    assert_eq!(copy_line_out(&mut guest, "int x;", 65531, 64), -4);
    assert_eq!(copy_line_out(&mut guest, "int x;", -6, 64), -4);
    assert_eq!(copy_line_out(&mut guest, "int x;", 65530, 64), 6);
    assert_eq!(guest.read_bytes(65530, 6), Ok(b"int x;".to_vec()));
}

#[test]
fn a_reply_is_delivered_to_the_calling_guest() {
    let (mut store, instance) = fetcher(FETCHER);
    assert_eq!(run(&mut store, &instance, "run", 64, 16), 7);
    let memory = instance.get_memory(&mut store, "memory").unwrap();
    assert_eq!(&memory.data(&store)[64..71], "größe".as_bytes());
    assert_eq!(memory.data(&store)[63], 0);
    assert_eq!(memory.data(&store)[71], 0);
}

#[test]
fn delivery_fails_with_the_documented_codes() {
    let (mut store, instance) = fetcher(FETCHER);
    assert_eq!(run(&mut store, &instance, "run_nothing", 64, 16), -1);
    assert_eq!(run(&mut store, &instance, "run", 64, 6), -3);
    assert_eq!(run(&mut store, &instance, "run", 64, -1), -3);
    assert_eq!(run(&mut store, &instance, "run", 65530, 16), -4);
    assert_eq!(run(&mut store, &instance, "run", -1, 16), -4);
    let memory = instance.get_memory(&mut store, "memory").unwrap();
    assert!(memory.data(&store).iter().all(|byte| *byte == 0));
    let (mut store, instance) = fetcher(FETCHER_WITHOUT_MEMORY);
    assert_eq!(run(&mut store, &instance, "run", 64, 16), -2);
    assert_eq!(run(&mut store, &instance, "run", 64, 1), -2);
}

#[test]
fn without_a_memory_a_line_request_is_answered_by_a_code() {
    let mut found: Option<GuestMemory<'_>> = None;
    assert_eq!(answer_line_request(&mut found, Some("x".to_string()), 0, 8), -2);
    assert_eq!(answer_line_request(&mut found, None, 0, 8), -1);
    assert!(found.is_none());
}

#[test]
fn a_line_request_is_answered_in_the_memory_that_was_found() {
    let (mut store, _instance, memory) = data_instance();
    {
        let mut found = Some(GuestMemory { ctx: store.as_context_mut(), memory });
        assert_eq!(answer_line_request(&mut found, Some("größe".to_string()), 64, 16), 7);
        assert_eq!(answer_line_request(&mut found, None, 80, 16), -1);
        assert_eq!(answer_line_request(&mut found, Some("abc".to_string()), 90, 2), -3);
        assert_eq!(answer_line_request(&mut found, Some("abc".to_string()), 65534, 8), -4);
        assert!(found.is_some());
    }
    assert_eq!(&memory.data(&store)[64..71], "größe".as_bytes());
    assert!(memory.data(&store)[71..1024].iter().all(|byte| *byte == 0));
    assert!(memory.data(&store)[65530..].iter().all(|byte| *byte == 0));
}

#[test]
fn text_is_copied_to_where_the_allocator_pointed() {
    let (mut store, _instance, memory) = data_instance();
    let mut guest = GuestMemory { ctx: store.as_context_mut(), memory };
    assert_eq!(guest.place_at(200, "größe"), Ok(200));
    assert_eq!(guest.read_utf8(200, 7), Ok("größe".to_string()));
    assert_eq!(guest.read_bytes(199, 1), Ok(vec![0]));
    assert_eq!(guest.read_bytes(207, 1), Ok(vec![0]));
    assert_eq!(guest.place_at(65530, "größe"), Err(PlaceError::OutOfBounds));
    assert_eq!(guest.read_bytes(65530, 6), Ok(vec![0; 6]));
    assert_eq!(guest.place_at(-1, "a"), Err(PlaceError::OutOfBounds));
    assert_eq!(guest.place_at(65536, ""), Ok(65536));
    assert_eq!(guest.place_at(65529, "größe"), Ok(65529));
}
