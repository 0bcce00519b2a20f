use wasm_plugin::buffer::{BufferScheme, MessageBuffer, Placement};
use wasm_plugin::call::{
    check_protocol_version, exported_name, imported_name, Action, CallPhase, Event, HostCall,
    PROTOCOL_VERSION,
};
use wasm_plugin::codec::{Deserializable, Serializable};
use wasm_plugin::error::WasmPluginError;
use wasm_plugin::guest::{
    allocate_message_buffer, export_with_argument, export_without_argument, free_message_buffer,
    import_argument,
    locator_of, read_message, read_returned, write_message, GuestHeap,
};
use wasm_plugin::import::{handle_encoded, FnShape, ImportAction, ImportCall, ImportEvent};
use wasm_plugin::locator::FatPointer;
use wasm_plugin::memory::LinearMemory;
use wasm_plugin::registry::ImportTable;

/// Carries out an import call's actions against the guest heap, with
/// `handler` standing for the host function.
fn run_import(
    heap: &mut GuestHeap,
    buffer: &mut MessageBuffer,
    shape: FnShape,
    ptr: u32,
    len: u32,
    handler: &dyn Fn(&[u8]) -> Vec<u8>,
    actions: &mut Vec<&'static str>,
) -> u64 {
    let mut call = ImportCall::new(shape, ptr, len);
    let mut event = ImportEvent::Begin;
    loop {
        let size = heap.memory().size();
        match call.step(event, size, buffer) {
            ImportAction::Read(loc) => {
                actions.push("read");
                event = ImportEvent::Bytes(heap.memory().read(loc.ptr(), loc.len()).unwrap());
            }
            ImportAction::Handle(bytes) => {
                actions.push("handle");
                event = ImportEvent::Handled(handler(&bytes));
            }
            ImportAction::Allocate(n) => {
                actions.push("allocate");
                event = ImportEvent::Allocated(allocate_message_buffer(heap, n).unwrap());
            }
            ImportAction::Write(loc, bytes) => {
                actions.push("write");
                heap.write_memory(loc.ptr(), &bytes).unwrap();
                event = ImportEvent::Completed;
            }
            ImportAction::Return(w) => return w,
            ImportAction::Fail(e) => panic!("import failed: {:?}", e),
        }
    }
}

/// The example guest: `hello`, `echo`, `favorite_numbers`, `shout` (which
/// calls the host's `capitalize`), `nothing` (no return value) and `spawn`
/// (calls the host's `make_item` `n` times).
fn guest_dispatch(
    name: &str,
    heap: &mut GuestHeap,
    buffer: &mut MessageBuffer,
    arg: Option<FatPointer>,
    imports: &mut Vec<&'static str>,
) -> u64 {
    if name == exported_name("hello") {
        export_without_argument(heap, &|| "Hello, Host!".to_string()).unwrap()
    } else if name == exported_name("echo") {
        let a = arg.unwrap();
        export_with_argument(heap, &|s: String| s, a.ptr(), a.len()).unwrap()
    } else if name == exported_name("favorite_numbers") {
        export_without_argument(heap, &|| vec![1i32, 2, 43]).unwrap()
    } else if name == exported_name("nothing") {
        export_without_argument(heap, &|| ()).unwrap()
    } else if name == exported_name("shout") {
        let a = arg.unwrap();
        let s: String = read_message(heap, a.ptr() as usize, a.len() as usize).unwrap();
        let (p, l) = write_message(heap, &s).unwrap();
        let shape = FnShape { has_arg: true, has_return: true };
        let capitalize = |bytes: &[u8]| {
            handle_encoded(&|s: String| s.to_uppercase(), bytes).unwrap()
        };
        let w = run_import(heap, buffer, shape, p as u32, l as u32, &capitalize, imports);
        let shouted: String = read_returned(heap, w).unwrap();
        locator_of(write_message(heap, &shouted).unwrap())
    } else if name == exported_name("spawn") {
        let a = arg.unwrap();
        let n: u32 = read_message(heap, a.ptr() as usize, a.len() as usize).unwrap();
        let shape = FnShape { has_arg: false, has_return: true };
        let make_item = |_: &[u8]| 7u32.serialize().unwrap();
        let mut total = 0u32;
        for _ in 0..n {
            let w = run_import(heap, buffer, shape, 0, 0, &make_item, imports);
            let item: u32 = read_returned(heap, w).unwrap();
            total += item;
        }
        locator_of(write_message(heap, &total).unwrap())
    } else {
        panic!("no export {}", name)
    }
}

struct Outcome {
    result: Result<Vec<u8>, WasmPluginError>,
    actions: Vec<&'static str>,
    frees: usize,
}

/// Carries out a host call's actions against the guest heap.
fn run_call(heap: &mut GuestHeap, buffer: &mut MessageBuffer, mut call: HostCall) -> Outcome {
    let mut actions = Vec::new();
    let mut frees = 0;
    let mut event = Event::Begin;
    loop {
        let size = heap.memory().size();
        match call.step(event, size, buffer) {
            Action::Allocate(n) => {
                actions.push("allocate");
                event = Event::Allocated(allocate_message_buffer(heap, n).unwrap());
            }
            Action::Write(loc, bytes) => {
                actions.push("write");
                heap.write_memory(loc.ptr(), &bytes).unwrap();
                event = Event::Completed;
            }
            Action::Invoke(name, arg) => {
                actions.push("invoke");
                let w = guest_dispatch(&name, heap, buffer, arg, &mut actions);
                event = Event::Returned(w);
            }
            Action::Read(loc) => {
                actions.push("read");
                event = Event::Bytes(heap.memory().read(loc.ptr(), loc.len()).unwrap());
            }
            Action::Free(loc) => {
                actions.push("free");
                assert!(free_message_buffer(heap, loc.ptr(), loc.len()));
                frees += 1;
                event = Event::Completed;
            }
            Action::Finish(bytes) => {
                assert_eq!(call.phase(), CallPhase::Over);
                return Outcome { result: Ok(bytes), actions, frees };
            }
            Action::Fail(e) => {
                return Outcome { result: Err(e), actions, frees };
            }
        }
    }
}

fn call_function<T: Deserializable>(heap: &mut GuestHeap, buffer: &mut MessageBuffer, name: &str) -> Result<T, WasmPluginError> {
    let out = run_call(heap, buffer, HostCall::new(name));
    T::deserialize(&out.result?)
}

fn call_function_with_argument<T: Deserializable, A: Serializable>(
    heap: &mut GuestHeap,
    buffer: &mut MessageBuffer,
    name: &str,
    arg: &A,
) -> Result<T, WasmPluginError> {
    let out = run_call(heap, buffer, HostCall::with_argument(name, arg)?);
    T::deserialize(&out.result?)
}

#[test]
fn hello_returns_greeting() {
    let mut heap = GuestHeap::new(4096);
    let mut buffer = MessageBuffer::new(BufferScheme::Dynamic);
    let r: String = call_function(&mut heap, &mut buffer, "hello").unwrap();
    assert_eq!(r, "Hello, Host!");
    assert_eq!(heap.live_count(), 0);
    assert_eq!(buffer.pending(), 0);
}

#[test]
fn echo_returns_its_argument() {
    let mut heap = GuestHeap::new(4096);
    let mut buffer = MessageBuffer::new(BufferScheme::Dynamic);
    let r: String =
        call_function_with_argument(&mut heap, &mut buffer, "echo", &"Hello, Guest!".to_string()).unwrap();
    assert_eq!(r, "Hello, Guest!");
    assert_eq!(heap.live_count(), 0);
}

#[test]
fn shout_uses_the_host_import() {
    let mut heap = GuestHeap::new(4096);
    let mut buffer = MessageBuffer::new(BufferScheme::Dynamic);
    let out = run_call(&mut heap, &mut buffer, HostCall::with_argument("shout", &"abc".to_string()).unwrap());
    assert_eq!(String::deserialize(&out.result.unwrap()), Ok("ABC".to_string()));
    // the argument, the import's result and the call's result
    assert_eq!(out.frees, 3);
    assert_eq!(buffer.pending(), 0);
}

#[test]
fn favorite_numbers_in_order() {
    let mut heap = GuestHeap::new(4096);
    let mut buffer = MessageBuffer::new(BufferScheme::Dynamic);
    let r: Vec<i32> = call_function(&mut heap, &mut buffer, "favorite_numbers").unwrap();
    assert_eq!(r, vec![1, 2, 43]);
}

#[test]
fn nested_imports_are_all_released() {
    for n in [0u32, 1, 3] {
        let mut heap = GuestHeap::new(4096);
        let mut buffer = MessageBuffer::new(BufferScheme::Dynamic);
        let out = run_call(&mut heap, &mut buffer, HostCall::with_argument("spawn", &n).unwrap());
        assert_eq!(u32::deserialize(&out.result.unwrap()), Ok(7 * n));
        // n import results, the argument and the call's own result
        assert_eq!(out.frees, n as usize + 2);
        assert_eq!(buffer.pending(), 0);
        assert_eq!(heap.live_count(), 0);
    }
}

#[test]
fn no_return_value_is_never_read() {
    let mut heap = GuestHeap::new(4096);
    let mut buffer = MessageBuffer::new(BufferScheme::Dynamic);
    let out = run_call(&mut heap, &mut buffer, HostCall::new("nothing"));
    assert_eq!(out.result, Ok(Vec::new()));
    assert_eq!(out.actions, vec!["invoke"]);
    assert_eq!(out.frees, 0);
}

#[test]
fn import_without_return_gives_zero_locator() {
    let mut heap = GuestHeap::new(64);
    let mut buffer = MessageBuffer::new(BufferScheme::Dynamic);
    let (p, l) = write_message(&mut heap, &5u32).unwrap();
    let mut actions = Vec::new();
    let shape = FnShape { has_arg: true, has_return: false };
    let w = run_import(&mut heap, &mut buffer, shape, p as u32, l as u32, &|_: &[u8]| Vec::new(), &mut actions);
    assert_eq!(w, 0);
    assert_eq!(actions, vec!["read", "handle"]);
    assert_eq!(buffer.pending(), 0);
}

#[test]
fn import_unit_result_gives_zero_locator() {
    let mut heap = GuestHeap::new(64);
    let mut buffer = MessageBuffer::new(BufferScheme::Dynamic);
    let mut actions = Vec::new();
    let shape = FnShape { has_arg: false, has_return: true };
    let unit = |_: &[u8]| ().serialize().unwrap();
    let w = run_import(&mut heap, &mut buffer, shape, 0, 0, &unit, &mut actions);
    assert_eq!(w, 0);
    assert_eq!(actions, vec!["handle"]);
}

#[test]
fn static_buffer_overflow_is_refused() {
    let mut heap = GuestHeap::new(64);
    let mut buffer = MessageBuffer::new(BufferScheme::Static { addr: 16, capacity: 8 });
    let before = heap.memory().as_slice().to_vec();
    let out = run_call(
        &mut heap,
        &mut buffer,
        HostCall::with_argument("echo", &"longer than eight".to_string()).unwrap(),
    );
    assert_eq!(out.result, Err(WasmPluginError::BufferOverflow));
    assert!(out.actions.is_empty());
    assert_eq!(heap.memory().as_slice(), &before[..]);
}

#[test]
fn static_buffer_takes_a_small_message_in_place() {
    let mut buffer = MessageBuffer::new(BufferScheme::Static { addr: 16, capacity: 8 });
    assert_eq!(buffer.placement(8), Ok(Placement::At(16)));
    assert_eq!(buffer.placement(9), Err(WasmPluginError::BufferOverflow));
    let loc = buffer.stage(64, 16, 8).unwrap();
    assert_eq!((loc.ptr(), loc.len()), (16, 8));
    assert_eq!(buffer.pending(), 0);
    assert_eq!(buffer.stage(64, 16, 9), Err(WasmPluginError::BufferOverflow));
    assert_eq!(buffer.stage(20, 16, 8), Err(WasmPluginError::OutOfBounds));
}

#[test]
fn dynamic_staging_is_logged_and_drained() {
    let mut buffer = MessageBuffer::new(BufferScheme::Dynamic);
    assert_eq!(buffer.placement(5), Ok(Placement::Allocate(5)));
    let a = buffer.stage(100, 10, 5).unwrap();
    let b = buffer.stage(100, 40, 3).unwrap();
    let empty = buffer.stage(100, 90, 0).unwrap();
    assert_eq!(empty.len(), 0);
    assert_eq!(buffer.pending(), 2);
    let result = FatPointer::new(60, 4);
    assert_eq!(buffer.drain_for_release(result), vec![a, b, result]);
    assert_eq!(buffer.pending(), 0);
    assert_eq!(buffer.drain_for_release(FatPointer::empty()), Vec::<FatPointer>::new());
}

#[test]
fn result_outside_memory_is_refused() {
    let mut buffer = MessageBuffer::new(BufferScheme::Dynamic);
    let mut call = HostCall::new("hello");
    assert!(matches!(call.step(Event::Begin, 32, &mut buffer), Action::Invoke(_, None)));
    let outside = FatPointer::new(30, 4).0;
    assert!(matches!(
        call.step(Event::Returned(outside), 32, &mut buffer),
        Action::Fail(WasmPluginError::OutOfBounds)
    ));
    assert_eq!(call.phase(), CallPhase::Over);
}

#[test]
fn trap_fails_the_call() {
    let mut buffer = MessageBuffer::new(BufferScheme::Dynamic);
    let mut call = HostCall::new("hello");
    call.step(Event::Begin, 32, &mut buffer);
    assert!(matches!(
        call.step(Event::Trapped, 32, &mut buffer),
        Action::Fail(WasmPluginError::WasmerRuntimeError)
    ));
    assert!(matches!(
        call.step(Event::Completed, 32, &mut buffer),
        Action::Fail(WasmPluginError::WasmerRuntimeError)
    ));
}

#[test]
fn empty_argument_is_not_staged() {
    let mut buffer = MessageBuffer::new(BufferScheme::Dynamic);
    let mut call = HostCall::with_argument("f", &()).unwrap();
    match call.step(Event::Begin, 32, &mut buffer) {
        Action::Invoke(name, Some(loc)) => {
            assert_eq!(name, "wasm_plugin_exported__f");
            assert_eq!(loc.0, 0);
        }
        _ => panic!("expected an invoke"),
    }
}

#[test]
fn mangled_names() {
    assert_eq!(exported_name("hello"), "wasm_plugin_exported__hello");
    assert_eq!(imported_name("capitalize"), "wasm_plugin_imported__capitalize");
}

#[test]
fn locator_packs_address_low_and_length_high() {
    let f = FatPointer::new(5, 7);
    assert_eq!(f.0, (7u64 << 32) | 5);
    assert_eq!((f.ptr(), f.len()), (5, 7));
    let mut g = f;
    g.set_ptr(9);
    g.set_len(u32::MAX);
    assert_eq!((g.ptr(), g.len()), (9, u32::MAX));
    assert!(FatPointer::empty().is_empty());
}

#[test]
fn memory_reads_and_writes_are_bounds_checked() {
    let mut m = LinearMemory::new(8);
    assert_eq!(m.write(6, &[1, 2]), Ok(()));
    assert_eq!(m.as_slice(), &[0, 0, 0, 0, 0, 0, 1, 2]);
    assert_eq!(m.write(7, &[1, 2]), Err(WasmPluginError::OutOfBounds));
    assert_eq!(m.read(5, 3), Ok(vec![0, 1, 2]));
    assert_eq!(m.read(5, 4), Err(WasmPluginError::OutOfBounds));
    assert_eq!(m.read(u32::MAX, 2), Err(WasmPluginError::OutOfBounds));
    assert_eq!(m.fetch(FatPointer::new(100, 0)), Ok(vec![]));
    m.grow(4);
    assert_eq!(m.size(), 12);
    assert_eq!(m.read(7, 5), Ok(vec![2, 0, 0, 0, 0]));
}

#[test]
fn guest_heap_allocates_and_frees() {
    let mut heap = GuestHeap::new(16);
    assert_eq!(allocate_message_buffer(&mut heap, 10), Some(0));
    assert_eq!(allocate_message_buffer(&mut heap, 7), None);
    assert_eq!(allocate_message_buffer(&mut heap, 6), Some(10));
    assert!(free_message_buffer(&mut heap, 0, 10));
    assert!(!free_message_buffer(&mut heap, 0, 10));
    assert_eq!(heap.live_count(), 1);
}

#[test]
fn guest_message_round_trip() {
    let mut heap = GuestHeap::new(64);
    let (p, l) = write_message(&mut heap, &vec![3i32, -4]).unwrap();
    assert_eq!((p, l), (0, 16));
    let back: Vec<i32> = read_message(&heap, p, l).unwrap();
    assert_eq!(back, vec![3, -4]);
    assert_eq!(read_message::<u32>(&heap, 60, 8), Err(WasmPluginError::OutOfBounds));
    assert_eq!(read_message::<u32>(&heap, p, l), Err(WasmPluginError::DeserializationError));
    assert_eq!(write_message(&mut heap, &vec![0u64; 10]), Err(WasmPluginError::BufferOverflow));
}

#[test]
fn handler_rejects_malformed_argument() {
    let r = handle_encoded(&|s: String| s, &[1, 2, 3]);
    assert_eq!(r, Err(WasmPluginError::DeserializationError));
}

#[test]
fn zero_locator_reads_as_unit() {
    let heap = GuestHeap::new(8);
    assert_eq!(read_returned::<()>(&heap, 0), Ok(()));
    assert_eq!(read_returned::<u32>(&heap, 0), Err(WasmPluginError::DeserializationError));
    assert_eq!(read_returned::<u32>(&heap, FatPointer::new(6, 4).0), Err(WasmPluginError::OutOfBounds));
}

#[test]
fn errors_describe_themselves() {
    assert_eq!(
        WasmPluginError::SerializationError.message(),
        "There was a problem serializing the argument to the function call"
    );
    assert!(WasmPluginError::DeserializationError.message().starts_with("There was a problem deserializing"));
    assert!(!WasmPluginError::BufferOverflow.message().is_empty());
}

#[test]
fn registered_imports_are_found_by_mangled_name() {
    let mut table = ImportTable::new();
    let with_arg = FnShape { has_arg: true, has_return: true };
    let without = FnShape { has_arg: false, has_return: false };
    table.register("capitalize", with_arg);
    table.provide("abort".to_string(), without);
    assert_eq!(table.lookup("wasm_plugin_imported__capitalize"), Some(with_arg));
    assert_eq!(table.lookup("capitalize"), None);
    assert_eq!(table.lookup("abort"), Some(without));
    table.register("capitalize", without);
    assert_eq!(table.lookup("wasm_plugin_imported__capitalize"), Some(without));
    let declared = vec!["abort".to_string(), "wasm_plugin_imported__capitalize".to_string()];
    assert_eq!(table.check_declared(&declared), Ok(()));
    let missing = vec!["wasm_plugin_imported__shout".to_string()];
    assert_eq!(table.check_declared(&missing), Err(WasmPluginError::WasmerInstantiationError));
    assert_eq!(table.check_declared(&Vec::new()), Ok(()));
}

#[test]
fn engine_failure_ends_the_call_with_its_reason() {
    let mut buffer = MessageBuffer::new(BufferScheme::Dynamic);
    let mut call = HostCall::new("missing");
    assert!(matches!(call.step(Event::Begin, 32, &mut buffer), Action::Invoke(_, None)));
    assert!(matches!(
        call.step(Event::Failed(WasmPluginError::FunctionNotFound), 32, &mut buffer),
        Action::Fail(WasmPluginError::FunctionNotFound)
    ));
    assert_eq!(call.phase(), CallPhase::Over);
}

#[test]
fn unexpected_event_fails_the_call() {
    let mut buffer = MessageBuffer::new(BufferScheme::Dynamic);
    let mut call = HostCall::new("hello");
    assert!(matches!(
        call.step(Event::Returned(0), 32, &mut buffer),
        Action::Fail(WasmPluginError::WasmerRuntimeError)
    ));
}

#[test]
fn import_handler_failure_is_reported() {
    let mut heap = GuestHeap::new(64);
    let mut buffer = MessageBuffer::new(BufferScheme::Dynamic);
    let (p, l) = import_argument(&mut heap, &vec![0xffu8, 0xfe]).unwrap();
    assert_eq!((p, l), (0, 10));
    let mut call = ImportCall::new(FnShape { has_arg: true, has_return: true }, p, l);
    let size = heap.memory().size();
    let bytes = match call.step(ImportEvent::Begin, size, &mut buffer) {
        ImportAction::Read(loc) => heap.memory().read(loc.ptr(), loc.len()).unwrap(),
        _ => panic!("expected a read"),
    };
    let message = match call.step(ImportEvent::Bytes(bytes), size, &mut buffer) {
        ImportAction::Handle(m) => m,
        _ => panic!("expected the handler"),
    };
    let e = handle_encoded(&|s: String| s, &message).unwrap_err();
    assert!(matches!(
        call.step(ImportEvent::Failed(e), size, &mut buffer),
        ImportAction::Fail(WasmPluginError::DeserializationError)
    ));
    assert_eq!(buffer.pending(), 0);
}

#[test]
fn result_bytes_survive_the_frees() {
    let mut buffer = MessageBuffer::new(BufferScheme::Dynamic);
    let mut call = HostCall::with_argument("f", &5u32).unwrap();
    assert!(matches!(call.step(Event::Begin, 64, &mut buffer), Action::Allocate(4)));
    assert!(matches!(call.step(Event::Allocated(8), 64, &mut buffer), Action::Write(_, _)));
    assert!(matches!(call.step(Event::Completed, 64, &mut buffer), Action::Invoke(_, Some(_))));
    let r = FatPointer::new(20, 3);
    assert!(matches!(call.step(Event::Returned(r.0), 64, &mut buffer), Action::Read(_)));
    let a1 = call.step(Event::Bytes(vec![7, 8, 9]), 64, &mut buffer);
    assert!(matches!(a1, Action::Free(l) if l == FatPointer::new(8, 4)));
    let a2 = call.step(Event::Completed, 64, &mut buffer);
    assert!(matches!(a2, Action::Free(l) if l == r));
    match call.step(Event::Completed, 64, &mut buffer) {
        Action::Finish(b) => assert_eq!(b, vec![7, 8, 9]),
        _ => panic!("expected the result"),
    }
}

#[test]
fn static_staging_uses_the_fixed_address() {
    let mut buffer = MessageBuffer::new(BufferScheme::Static { addr: 16, capacity: 8 });
    let loc = buffer.stage(64, 40, 4).unwrap();
    assert_eq!((loc.ptr(), loc.len()), (16, 4));
}

#[test]
fn freeing_the_top_buffer_reuses_its_room() {
    let mut heap = GuestHeap::new(16);
    assert_eq!(allocate_message_buffer(&mut heap, 4), Some(0));
    assert_eq!(allocate_message_buffer(&mut heap, 8), Some(4));
    assert!(free_message_buffer(&mut heap, 4, 8));
    assert_eq!(allocate_message_buffer(&mut heap, 12), Some(4));
}

#[test]
fn protocol_version_is_checked() {
    assert_eq!(check_protocol_version(PROTOCOL_VERSION), Ok(()));
    assert_eq!(check_protocol_version(PROTOCOL_VERSION + 1), Err(WasmPluginError::ProtocolMismatch));
}

#[test]
fn message_buffer_writes_only_what_fits() {
    let mut memory = LinearMemory::new(32);
    let mut buffer = MessageBuffer::new(BufferScheme::Static { addr: 8, capacity: 4 });
    assert_eq!(buffer.write_message(&mut memory, 0, &[1, 2, 3, 4, 5]), Err(WasmPluginError::BufferOverflow));
    assert_eq!(memory.as_slice(), &[0u8; 32][..]);
    let loc = buffer.write_message(&mut memory, 0, &[1, 2, 3]).unwrap();
    assert_eq!((loc.ptr(), loc.len()), (8, 3));
    assert_eq!(buffer.read_message(&memory, loc), Ok(vec![1, 2, 3]));
    assert_eq!(buffer.pending(), 0);
    let mut dynamic = MessageBuffer::new(BufferScheme::Dynamic);
    assert_eq!(dynamic.write_message(&mut memory, 30, &[9, 9, 9]), Err(WasmPluginError::OutOfBounds));
    let loc = dynamic.write_message(&mut memory, 20, &[9, 9, 9]).unwrap();
    assert_eq!(dynamic.read_message(&memory, loc), Ok(vec![9, 9, 9]));
    assert_eq!(dynamic.drain_for_release(FatPointer::empty()), vec![loc]);
}

#[test]
fn import_argument_that_does_not_fit_is_refused() {
    let mut heap = GuestHeap::new(8);
    assert_eq!(import_argument(&mut heap, &"too long".to_string()), Err(WasmPluginError::BufferOverflow));
    assert_eq!(heap.live_count(), 0);
    assert_eq!(import_argument(&mut heap, &7u32), Ok((0, 4)));
}
