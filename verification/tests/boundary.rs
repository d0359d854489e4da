use wasm_boundary::counter::CounterCell;
use wasm_boundary::errors::BoundaryError;
use wasm_boundary::exports::ExportTable;
use wasm_boundary::guest::{
    add_one, exit_early, increment_counter_loop, throw_wasm_error, BufferGuest,
    WASM_MEMORY_BUFFER_SIZE,
};
use wasm_boundary::imports::{ImportFunc, ImportTable};
use wasm_boundary::memory::GuestMemory;
use wasm_boundary::outcome::{absorb_host_outcome, HostOutcome};
use wasm_boundary::values::{Signature, Value, ValueType};

fn i32_to_i32() -> Signature {
    Signature { params: vec![ValueType::I32], results: vec![ValueType::I32] }
}

fn none_to_i32() -> Signature {
    Signature { params: vec![], results: vec![ValueType::I32] }
}

#[test]
fn add_one_returns_forty_three() {
    assert_eq!(add_one(42), 43);
}

#[test]
fn exit_early_always_aborts() {
    let r = exit_early(HostOutcome::Abort("interrupting execution".to_owned()));
    match r {
        Err(BoundaryError::HostAbort { reason }) => {
            assert_eq!(reason, "interrupting execution");
        }
        other => panic!("expected a host abort, got {:?}", other),
    }
}

#[test]
fn exit_early_returns_when_import_continues() {
    let r = exit_early(HostOutcome::Continue(0));
    assert_eq!(r.unwrap(), 24);
}

#[test]
fn trapping_export_never_returns_a_value() {
    match throw_wasm_error("unreachable executed".to_owned()) {
        Err(BoundaryError::Trap { message }) => assert_eq!(message, "unreachable executed"),
        other => panic!("expected a trap, got {:?}", other),
    }
}

#[test]
fn absorb_host_outcome_continue_passes_value() {
    assert_eq!(absorb_host_outcome(HostOutcome::Continue(7)).unwrap(), 7);
}

#[test]
fn counter_loop_reaches_n() {
    // Register the two imported functions the guest requires, then run
    // the exported loop against a cell starting at zero.
    let mut imports = ImportTable::new();
    assert!(imports.register(ImportFunc {
        namespace: "env".to_owned(),
        name: "get_counter".to_owned(),
        sig: none_to_i32(),
    }));
    assert!(imports.register(ImportFunc {
        namespace: "env".to_owned(),
        name: "add_to_counter".to_owned(),
        sig: i32_to_i32(),
    }));
    let required = vec![
        ImportFunc {
            namespace: "env".to_owned(),
            name: "get_counter".to_owned(),
            sig: none_to_i32(),
        },
        ImportFunc {
            namespace: "env".to_owned(),
            name: "add_to_counter".to_owned(),
            sig: i32_to_i32(),
        },
    ];
    assert!(imports.check_instantiation(&required).is_ok());

    let number_of_times_to_loop: i32 = 5;
    let mut counter = CounterCell::new(0);
    let result = increment_counter_loop(&mut counter, number_of_times_to_loop);
    assert_eq!(counter.value, number_of_times_to_loop);
    assert_eq!(result, counter.value);
}

#[test]
fn counter_loop_nonpositive_leaves_cell() {
    let mut counter = CounterCell::new(9);
    let result = increment_counter_loop(&mut counter, 0);
    assert_eq!(counter.value, 9);
    assert_eq!(result, 9);
}

#[test]
fn counter_imports_read_and_add() {
    let mut counter = CounterCell::new(3);
    assert_eq!(counter.get_counter(), 3);
    assert_eq!(counter.add_to_counter(4), 7);
    assert_eq!(counter.value, 7);
}

#[test]
fn missing_import_detected() {
    let mut imports = ImportTable::new();
    assert!(imports.register(ImportFunc {
        namespace: "env".to_owned(),
        name: "get_counter".to_owned(),
        sig: none_to_i32(),
    }));
    // The guest asks for the same name under another namespace.
    let required = vec![ImportFunc {
        namespace: "host".to_owned(),
        name: "get_counter".to_owned(),
        sig: none_to_i32(),
    }];
    match imports.check_instantiation(&required) {
        Err(BoundaryError::MissingImport { namespace, name }) => {
            assert_eq!(namespace, "host");
            assert_eq!(name, "get_counter");
        }
        other => panic!("expected a missing import, got {:?}", other),
    }
}

#[test]
fn mismatched_import_signature_detected() {
    let mut imports = ImportTable::new();
    assert!(imports.register(ImportFunc {
        namespace: "env".to_owned(),
        name: "add_to_counter".to_owned(),
        sig: none_to_i32(),
    }));
    let required = vec![ImportFunc {
        namespace: "env".to_owned(),
        name: "add_to_counter".to_owned(),
        sig: i32_to_i32(),
    }];
    assert!(matches!(
        imports.check_instantiation(&required),
        Err(BoundaryError::MissingImport { .. })
    ));
}

#[test]
fn duplicate_import_provider_refused() {
    let mut imports = ImportTable::new();
    assert!(imports.register(ImportFunc {
        namespace: "env".to_owned(),
        name: "get_counter".to_owned(),
        sig: none_to_i32(),
    }));
    assert!(!imports.register(ImportFunc {
        namespace: "env".to_owned(),
        name: "get_counter".to_owned(),
        sig: i32_to_i32(),
    }));
}

#[test]
fn resolve_finds_export() {
    let mut exports = ExportTable::new();
    assert!(exports.declare("add_one".to_owned(), i32_to_i32()));
    let r = exports.resolve(&"add_one".to_owned(), &i32_to_i32());
    assert_eq!(r.unwrap(), 0);
}

#[test]
fn resolve_missing_export_is_not_found() {
    let mut exports = ExportTable::new();
    assert!(exports.declare("add_one".to_owned(), i32_to_i32()));
    match exports.resolve(&"subtract_one".to_owned(), &i32_to_i32()) {
        Err(BoundaryError::NotFound { name }) => assert_eq!(name, "subtract_one"),
        other => panic!("expected not found, got {:?}", other),
    }
}

#[test]
fn resolve_wrong_signature_is_mismatch() {
    let mut exports = ExportTable::new();
    assert!(exports.declare("add_one".to_owned(), i32_to_i32()));
    match exports.resolve(&"add_one".to_owned(), &none_to_i32()) {
        Err(BoundaryError::SignatureMismatch { name }) => assert_eq!(name, "add_one"),
        other => panic!("expected a signature mismatch, got {:?}", other),
    }
}

#[test]
fn duplicate_export_name_refused() {
    let mut exports = ExportTable::new();
    assert!(exports.declare("add_one".to_owned(), i32_to_i32()));
    assert!(!exports.declare("add_one".to_owned(), none_to_i32()));
    assert_eq!(exports.len(), 1);
}

#[test]
fn memory_write_then_read_round_trip() {
    let mut memory = GuestMemory::new(64);
    let data = vec![10u8, 20u8, 30u8];
    assert!(memory.write_bytes(5, &data).is_ok());
    assert_eq!(memory.read_bytes(5, 3).unwrap(), data);
    // Bytes around the region are untouched.
    assert_eq!(memory.read_bytes(4, 1).unwrap(), vec![0u8]);
    assert_eq!(memory.read_bytes(8, 1).unwrap(), vec![0u8]);
}

#[test]
fn memory_write_out_of_bounds_changes_nothing() {
    let mut memory = GuestMemory::new(4);
    let data = vec![1u8, 2u8, 3u8];
    assert!(matches!(memory.write_bytes(2, &data), Err(BoundaryError::OutOfBounds)));
    assert_eq!(memory.read_bytes(0, 4).unwrap(), vec![0u8; 4]);
}

#[test]
fn memory_read_out_of_bounds_rejected() {
    let memory = GuestMemory::new(4);
    assert!(matches!(memory.read_bytes(3, 2), Err(BoundaryError::OutOfBounds)));
    assert!(matches!(memory.read_string(5, 0), Err(BoundaryError::OutOfBounds)));
}

#[test]
fn memory_read_string_rejects_invalid_utf8() {
    let mut memory = GuestMemory::new(4);
    assert!(memory.write_bytes(0, &[0xff, 0xfe]).is_ok());
    assert!(matches!(memory.read_string(0, 2), Err(BoundaryError::InvalidEncoding)));
}

#[test]
fn memory_read_string_decodes_utf8() {
    let mut memory = GuestMemory::new(8);
    assert!(memory.write_bytes(1, "héllo".as_bytes()).is_ok());
    assert_eq!(memory.read_string(1, 6).unwrap(), "héllo");
}

#[test]
fn buffer_round_trip_appends_phrase() {
    let mut guest = BufferGuest::instantiate(0);
    let original_string = "Did you know";
    let pointer = guest.get_wasm_memory_buffer_pointer();
    assert_eq!(pointer, 0);
    assert!(guest.write_buffer(original_string.as_bytes()).is_ok());
    let new_length = guest.add_wasm_is_cool(original_string.len()).unwrap();
    // Fetch the pointer again before reading: an earlier pointer is
    // invalidated by any intervening guest call.
    let pointer = guest.get_wasm_memory_buffer_pointer();
    assert_eq!(pointer, 0);
    let new_string = guest.read_buffer_string(new_length).unwrap();
    assert_eq!(new_string, "Did you know Wasm is cool!");
}

#[test]
fn buffer_round_trip_away_from_origin() {
    let mut guest = BufferGuest::instantiate(32);
    assert_eq!(guest.get_wasm_memory_buffer_pointer(), 32);
    assert!(guest.write_buffer("hi".as_bytes()).is_ok());
    let new_length = guest.add_wasm_is_cool(2).unwrap();
    assert_eq!(new_length, 16);
    assert_eq!(guest.read_buffer_string(new_length).unwrap(), "hi Wasm is cool!");
}

#[test]
fn buffer_write_past_capacity_rejected() {
    let mut guest = BufferGuest::instantiate(0);
    let too_long = vec![7u8; WASM_MEMORY_BUFFER_SIZE + 1];
    assert!(matches!(guest.write_buffer(&too_long), Err(BoundaryError::OutOfBounds)));
    // Nothing was written: the buffer still holds its zeroed bytes.
    let bytes = guest.memory.read_bytes(0, WASM_MEMORY_BUFFER_SIZE).unwrap();
    assert_eq!(bytes, vec![0u8; WASM_MEMORY_BUFFER_SIZE]);
}

#[test]
fn buffer_append_past_capacity_rejected() {
    let mut guest = BufferGuest::instantiate(0);
    let filler = vec![97u8; WASM_MEMORY_BUFFER_SIZE];
    assert!(guest.write_buffer(&filler).is_ok());
    assert!(matches!(
        guest.add_wasm_is_cool(WASM_MEMORY_BUFFER_SIZE),
        Err(BoundaryError::OutOfBounds)
    ));
    // The failed append changed nothing.
    let bytes = guest.memory.read_bytes(0, WASM_MEMORY_BUFFER_SIZE).unwrap();
    assert_eq!(bytes, filler);
}

#[test]
fn buffer_append_rejects_invalid_utf8() {
    let mut guest = BufferGuest::instantiate(0);
    assert!(guest.write_buffer(&[0xc0, 0x80]).is_ok());
    assert!(matches!(guest.add_wasm_is_cool(2), Err(BoundaryError::InvalidEncoding)));
}

#[test]
fn buffer_append_checks_encoding_before_append_capacity() {
    // A full buffer of invalid bytes: the guest reads and interprets the
    // passed string first, so the encoding failure wins over the fact
    // that the appended string could not fit either.
    let mut guest = BufferGuest::instantiate(0);
    let filler = vec![0xc0u8; WASM_MEMORY_BUFFER_SIZE];
    assert!(guest.write_buffer(&filler).is_ok());
    assert!(matches!(
        guest.add_wasm_is_cool(WASM_MEMORY_BUFFER_SIZE),
        Err(BoundaryError::InvalidEncoding)
    ));
    // The failed call changed nothing.
    let bytes = guest.memory.read_bytes(0, WASM_MEMORY_BUFFER_SIZE).unwrap();
    assert_eq!(bytes, filler);
}

#[test]
fn buffer_append_rejects_length_past_capacity() {
    let mut guest = BufferGuest::instantiate(0);
    assert!(matches!(
        guest.add_wasm_is_cool(WASM_MEMORY_BUFFER_SIZE + 1),
        Err(BoundaryError::OutOfBounds)
    ));
}

#[test]
fn value_types_match_signature() {
    let sig = i32_to_i32();
    assert!(sig.accepts_arguments(&vec![Value::I32(42)]));
    assert!(!sig.accepts_arguments(&vec![Value::I64(42)]));
    assert!(!sig.accepts_arguments(&vec![]));
    assert_eq!(Value::I32(43), Value::I32(43));
}

#[test]
fn signature_comparison_is_exact() {
    assert!(i32_to_i32().matches(&i32_to_i32()));
    assert!(!i32_to_i32().matches(&none_to_i32()));
    let longer = Signature {
        params: vec![ValueType::I32, ValueType::I32],
        results: vec![ValueType::I32],
    };
    assert!(!i32_to_i32().matches(&longer));
}
