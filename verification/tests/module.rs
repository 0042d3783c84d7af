use easy::module::types::{FuncType, Limits, MemType, NumType, ValType};
use easy::module::{magic_header, wasm_version, Module};
use easy::{DecodeError, New};

/// A small but complete module: the preamble, a type section with one
/// `i32 -> i32` signature, a function section binding one function to it,
/// a memory section, and a code section with the function's body.
fn example_module() -> Vec<u8> {
    vec![
        0x00, 0x61, 0x73, 0x6D, 0x01, 0x00, 0x00, 0x00, // preamble
        0x01, 0x06, 0x01, 0x60, 0x01, 0x7F, 0x01, 0x7F, // type section
        0x03, 0x02, 0x01, 0x00, // function section
        0x05, 0x03, 0x01, 0x00, 0x00, // memory section
        0x0A, 0x06, 0x01, 0x04, 0x00, 0x20, 0x00, 0x0B, // code section
    ]
}

#[test]
fn test_module_from_bytes() {
    let bytes = example_module();
    assert!(Module::new(&bytes as &[u8]).is_some());
}

#[test]
fn test_module_decode() {
    let bytes = example_module();
    assert!(Module::decode(&bytes).is_ok());
}

#[test]
fn test_magic_header() {
    let magic: &[u8] = &[0x00, 0x61, 0x73, 0x6D];
    let not_magic: &[u8] = &[0x01, 0x61, 0x73, 0x6D];
    assert_eq!(magic_header(magic, 0), Ok(4));
    assert!(magic_header(not_magic, 0).is_err());
}

#[test]
fn test_wasm_version() {
    let version: &[u8] = &[0x01, 0x00, 0x00, 0x00];
    let not_version: &[u8] = &[0x02, 0x00, 0x00, 0x00];
    assert_eq!(wasm_version(version, 0), Ok(4));
    assert!(wasm_version(not_version, 0).is_err());
}

#[test]
fn preamble_alone_is_empty_module() {
    let bytes: &[u8] = &[0x00, 0x61, 0x73, 0x6D, 0x01, 0x00, 0x00, 0x00];
    let m = Module::decode(bytes).unwrap();
    assert_eq!(m.types, vec![]);
    assert_eq!(m.imports, vec![]);
    assert_eq!(m.functions, vec![]);
    assert_eq!(m.tables, vec![]);
    assert_eq!(m.memories, vec![]);
    assert_eq!(m.globals, vec![]);
    assert_eq!(m.exports, vec![]);
    assert_eq!(m.start, None);
    assert_eq!(m.elements, vec![]);
    assert_eq!(m.code, vec![]);
    assert_eq!(m.data, vec![]);
    assert_eq!(m.data_count, None);
}

#[test]
fn one_type_section_module() {
    let bytes: &[u8] = &[
        0x00, 0x61, 0x73, 0x6D, 0x01, 0x00, 0x00, 0x00, 0x01, 0x06, 0x01, 0x60, 0x01, 0x7F, 0x01,
        0x7F,
    ];
    let m = Module::decode(bytes).unwrap();
    assert_eq!(
        m.types,
        vec![FuncType {
            rt1: vec![ValType::NumType(NumType::I32)],
            rt2: vec![ValType::NumType(NumType::I32)],
        }]
    );
}

#[test]
fn one_memory_section_module() {
    let bytes: &[u8] = &[
        0x00, 0x61, 0x73, 0x6D, 0x01, 0x00, 0x00, 0x00, 0x05, 0x03, 0x01, 0x00, 0x00,
    ];
    let m = Module::decode(bytes).unwrap();
    assert_eq!(m.memories.len(), 1);
    assert_eq!(
        m.memories[0].mt,
        MemType {
            lim: Limits { min: 0, max: None }
        }
    );
}

#[test]
fn unknown_section_id_fails_module() {
    let bytes: &[u8] = &[0x00, 0x61, 0x73, 0x6D, 0x01, 0x00, 0x00, 0x00, 0xFF];
    assert_eq!(Module::decode(bytes), Err(DecodeError::MalformedEncoding));
}

#[test]
fn bad_magic_fails() {
    let bytes: &[u8] = &[0x01, 0x61, 0x73, 0x6D, 0x01, 0x00, 0x00, 0x00];
    assert_eq!(Module::decode(bytes), Err(DecodeError::MalformedEncoding));
    assert_eq!(Module::decode(&[]), Err(DecodeError::MalformedEncoding));
}

#[test]
fn unsupported_version_fails() {
    let bytes: &[u8] = &[0x00, 0x61, 0x73, 0x6D, 0x02, 0x00, 0x00, 0x00];
    assert_eq!(Module::decode(bytes), Err(DecodeError::UnsupportedVersion));
    // a truncated version field is malformed, not unsupported
    let short: &[u8] = &[0x00, 0x61, 0x73, 0x6D, 0x01, 0x00];
    assert_eq!(Module::decode(short), Err(DecodeError::MalformedEncoding));
}

#[test]
fn trailing_partial_section_fails() {
    let bytes: &[u8] = &[0x00, 0x61, 0x73, 0x6D, 0x01, 0x00, 0x00, 0x00, 0x01];
    assert_eq!(Module::decode(bytes), Err(DecodeError::MalformedEncoding));
}

#[test]
fn decode_is_deterministic() {
    let bytes = example_module();
    assert_eq!(Module::decode(&bytes), Module::decode(&bytes));
}

#[test]
fn later_section_overwrites_earlier() {
    let bytes: &[u8] = &[
        0x00, 0x61, 0x73, 0x6D, 0x01, 0x00, 0x00, 0x00, // preamble
        0x03, 0x02, 0x01, 0x07, // function section: [7]
        0x03, 0x02, 0x01, 0x09, // function section again: [9]
    ];
    let m = Module::decode(bytes).unwrap();
    assert_eq!(m.functions, vec![9]);
}

#[test]
fn custom_sections_do_not_affect_module() {
    let bytes: &[u8] = &[
        0x00, 0x61, 0x73, 0x6D, 0x01, 0x00, 0x00, 0x00, // preamble
        0x00, 0x03, 0x01, 0xAA, 0x55, // custom section
    ];
    let m = Module::decode(bytes).unwrap();
    assert_eq!(m.types, vec![]);
    assert_eq!(m.functions, vec![]);
}

#[test]
fn validate_accepts_decoded_module() {
    let bytes = example_module();
    let m = Module::decode(&bytes).unwrap();
    assert!(m.validate().is_ok());
}
