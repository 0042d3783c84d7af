use easy::module::import::{Import, ImportDescriptor};
use easy::module::memory::Memory;
use easy::module::section::Section;
use easy::module::table::Table;
use easy::module::types::{FuncType, Limits, MemType, NumType, RefType, TableType, ValType};
use easy::{Decode, Name};

#[test]
fn test_custom_section() {
    let input = &[0x00, 0x05, 0x01, 0xAA, 0x01, 0x02, 0x03];
    let section = Section::decode(input, 0);
    assert_eq!(
        section,
        Ok((
            Section::CustomSection((Name(vec![0xAA]), vec![0x01, 0x02, 0x03])),
            7
        ))
    )
}

#[test]
fn test_type_section() {
    let input = &[0x01, 0x6, 0x01, 0x60, 0x01, 0x7F, 0x01, 0x7F];
    let section = Section::decode(input, 0);
    assert_eq!(
        section,
        Ok((
            Section::TypeSection(vec![FuncType {
                rt1: vec![ValType::NumType(NumType::I32)],
                rt2: vec![ValType::NumType(NumType::I32)],
            }]),
            8
        ))
    )
}

#[test]
fn test_import_section() {
    let input = &[0x02, 0x07, 0x01, 0x01, 0xAA, 0x01, 0xAB, 0x00, 0x00];
    let section = Section::decode(input, 0);
    assert_eq!(
        section,
        Ok((
            Section::ImportSection(vec![Import {
                module: Name(vec![0xAA]),
                name: Name(vec![0xAB]),
                descriptor: ImportDescriptor::Func(0)
            }]),
            9
        ))
    )
}

#[test]
fn test_function_section() {
    let input = &[0x03, 0x03, 0x02, 0x00, 0x01];
    let section = Section::decode(input, 0);
    assert_eq!(section, Ok((Section::FunctionSection(vec![0, 1]), 5)))
}

#[test]
fn test_table_section() {
    let input = &[0x04, 0x5, 0x01, 0x70, 0x01, 0x00, 0x01];
    let section = Section::decode(input, 0);
    assert_eq!(
        section,
        Ok((
            Section::TableSection(vec![Table {
                tt: TableType {
                    lim: Limits {
                        min: 0,
                        max: Some(1),
                    },
                    et: RefType::FuncRef
                }
            }]),
            7
        ))
    )
}

#[test]
fn test_memory_section() {
    let input = &[0x05, 0x03, 0x01, 0x00, 0x00];
    let section = Section::decode(input, 0);
    assert_eq!(
        section,
        Ok((
            Section::MemorySection(vec![Memory {
                mt: MemType {
                    lim: Limits { min: 0, max: None }
                }
            }]),
            5
        ))
    )
}

#[test]
fn custom_section_length_mismatch_fails() {
    // declared length 1 is shorter than the name alone
    assert!(Section::decode(&[0x00, 0x01, 0x01, 0xAA, 0x01], 0).is_err());
    // declared length runs past the end of the input
    assert!(Section::decode(&[0x00, 0x09, 0x01, 0xAA, 0x01, 0x02, 0x03], 0).is_err());
}

#[test]
fn custom_section_exact_accounting() {
    // declared length 2: a one-byte name field and a one-byte payload
    assert_eq!(
        Section::decode(&[0x00, 0x02, 0x00, 0x07], 0),
        Ok((Section::CustomSection((Name(vec![]), vec![0x07])), 4))
    );
}

#[test]
fn start_and_data_count_sections() {
    assert_eq!(
        Section::decode(&[0x08, 0x01, 0x02], 0),
        Ok((Section::StartSection(Some(2)), 3))
    );
    assert_eq!(
        Section::decode(&[0x0C, 0x01, 0x03], 0),
        Ok((Section::DataCountSection(Some(3)), 3))
    );
}

#[test]
fn unknown_section_id_fails() {
    assert!(Section::decode(&[0x0D, 0x00], 0).is_err());
    assert!(Section::decode(&[0xFF, 0x00], 0).is_err());
}
