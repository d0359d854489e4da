use wasm_boundary::errors::BoundaryError;
use wasm_boundary::module::load_module;

/// A minimal module binary exporting `add_one: (i32) -> i32`, written out
/// section by section.
fn add_one_module() -> Vec<u8> {
    let mut bytes: Vec<u8> = Vec::new();
    // Magic and version.
    bytes.extend_from_slice(&[0x00, 0x61, 0x73, 0x6d, 0x01, 0x00, 0x00, 0x00]);
    // Type section: one type, (i32) -> i32.
    bytes.extend_from_slice(&[0x01, 0x06, 0x01, 0x60, 0x01, 0x7f, 0x01, 0x7f]);
    // Function section: one function of type 0.
    bytes.extend_from_slice(&[0x03, 0x02, 0x01, 0x00]);
    // Export section: "add_one" as function 0.
    bytes.extend_from_slice(&[0x07, 0x0b, 0x01, 0x07]);
    bytes.extend_from_slice(b"add_one");
    bytes.extend_from_slice(&[0x00, 0x00]);
    // Code section: local.get 0; i32.const 1; i32.add; end.
    bytes.extend_from_slice(&[0x0a, 0x09, 0x01, 0x07, 0x00, 0x20, 0x00, 0x41, 0x01, 0x6a, 0x0b]);
    bytes
}

#[test]
fn load_module_accepts_well_formed_binary() {
    let bytes = add_one_module();
    let module = load_module(bytes.clone()).expect("the engine accepts this binary");
    assert_eq!(module.as_bytes(), &bytes);
}

#[test]
fn load_module_rejects_garbage() {
    let r = load_module(b"not a wasm binary".to_vec());
    assert!(matches!(r, Err(BoundaryError::ModuleLoadFailure)));
}

#[test]
fn load_module_rejects_truncated_binary() {
    let mut bytes = add_one_module();
    bytes.truncate(bytes.len() - 3);
    assert!(matches!(load_module(bytes), Err(BoundaryError::ModuleLoadFailure)));
}

#[test]
fn load_module_rejects_wrong_version() {
    let mut bytes = add_one_module();
    bytes[4] = 0x02;
    assert!(matches!(load_module(bytes), Err(BoundaryError::ModuleLoadFailure)));
}
