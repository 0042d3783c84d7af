use easy::instructions::numeric::NumericInstruction;
use easy::instructions::{Expression, Instruction};
use easy::module::code::{Code, Func, Local};
use easy::module::data::Data;
use easy::module::element::{Element, ElementKind};
use easy::module::export::{Export, ExportDescriptor};
use easy::module::global::Global;
use easy::module::import::{Import, ImportDescriptor};
use easy::module::memory::Memory;
use easy::module::table::Table;
use easy::module::types::{
    GlobalType, Limits, MemType, Mutability, NumType, RefType, TableType, ValType,
};
use easy::{Decode, Name};

#[test]
fn test_code() {
    assert!(Code::decode(&[0x06, 0x01, 0x02, 0x7F, 0xC0, 0xC0, 0x0B], 0).is_ok());
    assert!(Code::decode(&[0xFF], 0).is_err());
}

#[test]
fn test_func() {
    assert!(Func::decode(&[0x01, 0x02, 0x7F, 0xC0, 0xC0, 0x0B], 0).is_ok());
    assert!(Func::decode(&[0xFF], 0).is_err());
}

#[test]
fn test_local() {
    assert_eq!(
        Local::decode(&[0x02, 0x7F], 0),
        Ok((
            Local {
                count: 2,
                value_type: ValType::NumType(NumType::I32)
            },
            2
        ))
    );
    assert!(Local::decode(&[0xFF], 0).is_err());
}

#[test]
fn test_export() {
    assert_eq!(
        Export::decode(&[0x01, 0xAA, 0x00, 0x00], 0),
        Ok((
            Export {
                name: Name(vec![0xAA]),
                descriptor: ExportDescriptor::Func(0)
            },
            4
        ))
    );
    assert!(Export::decode(&[0x7A], 0).is_err());
}

#[test]
fn test_export_descriptor() {
    assert_eq!(
        ExportDescriptor::decode(&[0x00, 0x00], 0),
        Ok((ExportDescriptor::Func(0), 2))
    );
    assert!(ExportDescriptor::decode(&[0x7A], 0).is_err());
}

#[test]
fn test_import() {
    assert_eq!(
        Import::decode(&[0x01, 0xAA, 0x01, 0xBB, 0x00, 0x00], 0),
        Ok((
            Import {
                module: Name(vec![0xAA]),
                name: Name(vec![0xBB]),
                descriptor: ImportDescriptor::Func(0)
            },
            6
        ))
    );
    assert!(Import::decode(&[0x7A], 0).is_err());
}

#[test]
fn test_import_descriptor() {
    assert_eq!(
        ImportDescriptor::decode(&[0x00, 0x00], 0),
        Ok((ImportDescriptor::Func(0), 2))
    );
    assert!(ImportDescriptor::decode(&[0x7A], 0).is_err());
}

#[test]
fn test_memory() {
    assert_eq!(
        Memory::decode(&[0x00, 0x00], 0),
        Ok((
            Memory {
                mt: MemType {
                    lim: Limits { min: 0, max: None }
                }
            },
            2
        ))
    );
    assert!(Memory::decode(&[0x7A], 0).is_err());
}

#[test]
fn test_table() {
    assert_eq!(
        Table::decode(&[0x70, 0x01, 0x00, 0x01], 0),
        Ok((
            Table {
                tt: TableType {
                    lim: Limits {
                        min: 0,
                        max: Some(1)
                    },
                    et: RefType::FuncRef
                }
            },
            4
        ))
    );
    assert!(Table::decode(&[0x7A], 0).is_err());
}

#[test]
fn code_size_mismatch_fails() {
    assert!(Code::decode(&[0x07, 0x01, 0x02, 0x7F, 0xC0, 0xC0, 0x0B], 0).is_err());
    assert!(Code::decode(&[0x05, 0x01, 0x02, 0x7F, 0xC0, 0xC0, 0x0B], 0).is_err());
}

#[test]
fn global_record() {
    assert_eq!(
        Global::decode(&[0x7F, 0x00, 0x41, 0x2A, 0x0B], 0),
        Ok((
            Global {
                gt: GlobalType {
                    m: Mutability::Const,
                    t: ValType::NumType(NumType::I32),
                },
                init: Expression(vec![Instruction::Numeric(NumericInstruction::I32Const(42))]),
            },
            5
        ))
    );
    assert!(Global::decode(&[0x7F, 0x00, 0x41, 0x2A], 0).is_err());
}

#[test]
fn element_kind_record() {
    assert_eq!(ElementKind::decode(&[0x00], 0), Ok((ElementKind::FuncRef, 1)));
    assert!(ElementKind::decode(&[0x01], 0).is_err());
}

#[test]
fn element_active_index() {
    assert_eq!(
        Element::decode(&[0x00, 0x41, 0x01, 0x0B, 0x02, 0x03, 0x04], 0),
        Ok((
            Element::ActiveIndex(
                Expression(vec![Instruction::Numeric(NumericInstruction::I32Const(1))]),
                vec![3, 4]
            ),
            7
        ))
    );
}

#[test]
fn element_passive_and_declarative() {
    assert_eq!(
        Element::decode(&[0x01, 0x00, 0x01, 0x05], 0),
        Ok((Element::PassiveIndex(ElementKind::FuncRef, vec![5]), 4))
    );
    assert_eq!(
        Element::decode(&[0x03, 0x00, 0x00], 0),
        Ok((Element::DeclarativeIndex(ElementKind::FuncRef, vec![]), 3))
    );
    assert_eq!(
        Element::decode(&[0x05, 0x70, 0x00], 0),
        Ok((Element::PassiveExpression(RefType::FuncRef, vec![]), 3))
    );
}

#[test]
fn element_explicit_table() {
    assert_eq!(
        Element::decode(&[0x02, 0x01, 0x41, 0x00, 0x0B, 0x00, 0x01, 0x07], 0),
        Ok((
            Element::ActiveExplicitIndex(
                1,
                Expression(vec![Instruction::Numeric(NumericInstruction::I32Const(0))]),
                ElementKind::FuncRef,
                vec![7]
            ),
            8
        ))
    );
    assert_eq!(
        Element::decode(&[0x06, 0x02, 0x41, 0x00, 0x0B, 0x70, 0x01, 0x0B], 0),
        Ok((
            Element::ActiveExplicitExpression(
                2,
                Expression(vec![Instruction::Numeric(NumericInstruction::I32Const(0))]),
                RefType::FuncRef,
                vec![Expression(vec![])]
            ),
            8
        ))
    );
}

#[test]
fn element_expression_variants() {
    assert_eq!(
        Element::decode(&[0x04, 0x41, 0x00, 0x0B, 0x01, 0x0B], 0),
        Ok((
            Element::ActiveExpression(
                Expression(vec![Instruction::Numeric(NumericInstruction::I32Const(0))]),
                vec![Expression(vec![])]
            ),
            6
        ))
    );
    assert_eq!(
        Element::decode(&[0x07, 0x6F, 0x00], 0),
        Ok((Element::DeclarativeExpression(RefType::ExternRef, vec![]), 3))
    );
}

#[test]
fn element_flag_out_of_range_fails() {
    assert!(Element::decode(&[0x08], 0).is_err());
}

#[test]
fn data_records() {
    assert_eq!(
        Data::decode(&[0x00, 0x41, 0x00, 0x0B, 0x02, 0xAA, 0xBB], 0),
        Ok((
            Data::Active(
                Expression(vec![Instruction::Numeric(NumericInstruction::I32Const(0))]),
                vec![0xAA, 0xBB]
            ),
            7
        ))
    );
    assert_eq!(
        Data::decode(&[0x01, 0x01, 0xCC], 0),
        Ok((Data::Passive(vec![0xCC]), 3))
    );
    assert_eq!(
        Data::decode(&[0x02, 0x01, 0x41, 0x00, 0x0B, 0x00], 0),
        Ok((
            Data::ActiveExplicit(
                1,
                Expression(vec![Instruction::Numeric(NumericInstruction::I32Const(0))]),
                vec![]
            ),
            6
        ))
    );
    assert!(Data::decode(&[0x03], 0).is_err());
}
