use ledboard::matrix::{MATRIX_HEIGHT, MATRIX_WIDTH};
use ledboard::wasm_module::{payload_in_bounds, Metadata, WasmError, WasmModule};
use wasmer::sys::{BaseTunables, NativeEngineExt};
use wasmer::{Engine, Imports, Pages, Store};
use wasmer_compiler_singlepass::Singlepass;

/// A store whose memories use the dynamic style: the default static style
/// reserves gigabytes of address space per memory, more than the test
/// runner's address-space budget allows.
fn fresh_store() -> Store {
    let mut engine: Engine = Singlepass::default().into();
    engine.set_tunables(BaseTunables {
        static_memory_bound: Pages(0),
        static_memory_offset_guard_size: 0x1000,
        dynamic_memory_offset_guard_size: 0x1000,
    });
    Store::new(engine)
}

/// Appends a `metadata` custom section with the given payload to a binary
/// module. A custom section is valid at the end of a module.
fn with_metadata_section(mut module: Vec<u8>, payload: &[u8]) -> Vec<u8> {
    let name = b"metadata";
    let mut content = Vec::new();
    content.push(name.len() as u8);
    content.extend_from_slice(name);
    content.extend_from_slice(payload);
    assert!(content.len() < 128, "single-byte section size only");
    module.push(0x00);
    module.push(content.len() as u8);
    module.extend_from_slice(&content);
    module
}

fn load_err(bytes: &Vec<u8>) -> WasmError {
    match WasmModule::load(fresh_store(), bytes, &Imports::new()) {
        Ok(_) => panic!("expected the load to fail"),
        Err(err) => err,
    }
}

fn compile_wat(wat: &[u8]) -> Vec<u8> {
    wasmer::wat2wasm(wat).unwrap().to_vec()
}

fn empty_module() -> Vec<u8> {
    compile_wat(b"(module)")
}

const GOOD_METADATA: &[u8] = br#"{"name":"widget","width":2,"height":2}"#;

#[test]
fn module_without_metadata_fails_to_load() {
    let bytes = empty_module();
    let err = load_err(&bytes);
    assert_eq!(err, WasmError::NoCustomSection);
}

#[test]
fn module_with_unparseable_metadata_fails_to_load() {
    let bytes = with_metadata_section(empty_module(), b"not json at all");
    let err = load_err(&bytes);
    assert_eq!(err, WasmError::InvalidCustomSection);
}

#[test]
fn module_with_incomplete_metadata_fails_to_load() {
    let bytes = with_metadata_section(empty_module(), br#"{"width":3}"#);
    let err = load_err(&bytes);
    assert_eq!(err, WasmError::InvalidCustomSection);
}

#[test]
fn module_with_wrongly_typed_metadata_fails_to_load() {
    let bytes = with_metadata_section(
        empty_module(),
        br#"{"name":"widget","width":"2","height":2}"#,
    );
    let err = load_err(&bytes);
    assert_eq!(err, WasmError::InvalidCustomSection);
}

#[test]
fn module_with_valid_metadata_loads() {
    let bytes = with_metadata_section(
        empty_module(),
        br#"{"name":"clock","width":5,"height":7}"#,
    );
    let module = WasmModule::load(fresh_store(), &bytes, &Imports::new()).unwrap();
    assert_eq!(module.metadata().width, 5);
    assert_eq!(module.metadata().height, 7);
    assert_eq!(module.metadata().name, "clock");
}

#[test]
fn module_that_does_not_compile_fails_to_load() {
    let bytes = vec![0u8; 4];
    let err = load_err(&bytes);
    assert_eq!(err, WasmError::CompileFailure);
}

#[test]
fn module_requiring_unknown_import_fails_to_instantiate() {
    let bytes = with_metadata_section(
        compile_wat(br#"(module (import "env" "nope" (func)))"#),
        GOOD_METADATA,
    );
    let err = load_err(&bytes);
    assert_eq!(err, WasmError::InstantiationFailure);
}

#[test]
fn render_copies_the_declared_payload() {
    let wat = br#"(module
        (memory (export "memory") 1)
        (data (i32.const 16) "\01\02\03\04")
        (func (export "draw") (result i32) i32.const 16))"#;
    let bytes = with_metadata_section(compile_wat(wat), GOOD_METADATA);
    let mut module = WasmModule::load(fresh_store(), &bytes, &Imports::new()).unwrap();
    let frame = module.render().unwrap();
    assert_eq!(frame.get_el(0, 0), 1);
    assert_eq!(frame.get_el(0, 1), 2);
    assert_eq!(frame.get_el(1, 0), 3);
    assert_eq!(frame.get_el(1, 1), 4);
    for row in 0..MATRIX_HEIGHT {
        for col in 0..MATRIX_WIDTH {
            if row >= 2 || col >= 2 {
                assert_eq!(frame.get_el(row, col), 0);
            }
        }
    }
}

#[test]
fn render_rejects_out_of_bounds_pointer() {
    // one page of memory is 65536 bytes; the pointer puts the declared
    // payload past its end
    let wat = br#"(module
        (memory (export "memory") 1)
        (func (export "draw") (result i32) i32.const 70000))"#;
    let bytes = with_metadata_section(compile_wat(wat), GOOD_METADATA);
    let mut module = WasmModule::load(fresh_store(), &bytes, &Imports::new()).unwrap();
    let err = module.render().unwrap_err();
    assert_eq!(err, WasmError::PictureOutOfBounds);
}

#[test]
fn render_rejects_payload_straddling_the_memory_end() {
    let wat = br#"(module
        (memory (export "memory") 1)
        (func (export "draw") (result i32) i32.const 65533))"#;
    let bytes = with_metadata_section(compile_wat(wat), GOOD_METADATA);
    let mut module = WasmModule::load(fresh_store(), &bytes, &Imports::new()).unwrap();
    let err = module.render().unwrap_err();
    assert_eq!(err, WasmError::PictureOutOfBounds);
}

#[test]
fn render_fails_without_draw_export() {
    let wat = br#"(module (memory (export "memory") 1))"#;
    let bytes = with_metadata_section(compile_wat(wat), GOOD_METADATA);
    let mut module = WasmModule::load(fresh_store(), &bytes, &Imports::new()).unwrap();
    let err = module.render().unwrap_err();
    assert_eq!(err, WasmError::MissingDrawExport);
}

#[test]
fn render_fails_when_draw_traps() {
    let wat = br#"(module
        (memory (export "memory") 1)
        (func (export "draw") (result i32) unreachable))"#;
    let bytes = with_metadata_section(compile_wat(wat), GOOD_METADATA);
    let mut module = WasmModule::load(fresh_store(), &bytes, &Imports::new()).unwrap();
    let err = module.render().unwrap_err();
    assert_eq!(err, WasmError::RenderFailure);
}

#[test]
fn render_fails_without_memory_export() {
    let wat = br#"(module
        (func (export "draw") (result i32) i32.const 0))"#;
    let bytes = with_metadata_section(compile_wat(wat), GOOD_METADATA);
    let mut module = WasmModule::load(fresh_store(), &bytes, &Imports::new()).unwrap();
    let err = module.render().unwrap_err();
    assert_eq!(err, WasmError::MissingMemoryExport);
}

#[test]
fn payload_bounds_check_is_exact() {
    assert!(payload_in_bounds(0, 2, 2, 65536));
    assert!(payload_in_bounds(65532, 2, 2, 65536));
    assert!(!payload_in_bounds(65533, 2, 2, 65536));
    assert!(!payload_in_bounds(70000, 2, 2, 65536));
    assert!(payload_in_bounds(65536, 0, 5, 65536));
    assert!(!payload_in_bounds(0, usize::MAX, usize::MAX, u64::MAX));
}

#[test]
fn metadata_requires_all_three_fields() {
    let ok = Metadata::from_values(Some(3), Some(4), Some("widget".to_string())).unwrap();
    assert_eq!(ok.width, 3);
    assert_eq!(ok.height, 4);
    assert_eq!(ok.name, "widget");
    for (w, h, n) in [
        (None, Some(4), Some("widget".to_string())),
        (Some(3), None, Some("widget".to_string())),
        (Some(3), Some(4), None),
    ] {
        assert_eq!(
            Metadata::from_values(w, h, n).unwrap_err(),
            WasmError::InvalidCustomSection
        );
    }
}

#[test]
fn metadata_section_decodes_to_its_declared_values() {
    let section = br#"{"name":"gauge","width":9,"height":12}"#.to_vec();
    let m = Metadata::from_section(&section).unwrap();
    assert_eq!(m.width, 9);
    assert_eq!(m.height, 12);
    assert_eq!(m.name, "gauge");

    let broken = br#"["not","an","object"]"#.to_vec();
    assert_eq!(
        Metadata::from_section(&broken).unwrap_err(),
        WasmError::InvalidCustomSection
    );
}
