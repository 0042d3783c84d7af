use easy::instructions::numeric::{NumericInstruction, SaturatingTruncationInstruction};
use easy::instructions::parametric::ParametricInstruction;
use easy::instructions::reference::ReferenceInstruction;
use easy::instructions::variable::VariableInstruction;
use easy::instructions::{Expression, Instruction};
use easy::module::types::{RefType, ValType};
use easy::Decode;

#[test]
fn test_expression() {
    assert_eq!(
        Expression::decode(&[0xC0, 0xC0, 0x0B], 0),
        Ok((
            Expression(vec![
                Instruction::Numeric(NumericInstruction::I32Extend8S),
                Instruction::Numeric(NumericInstruction::I32Extend8S)
            ]),
            3
        ))
    );
    assert!(Expression::decode(&[0xFF], 0).is_err());
}

#[test]
fn test_instruction() {
    assert_eq!(
        Instruction::decode(&[0xC0], 0),
        Ok((Instruction::Numeric(NumericInstruction::I32Extend8S), 1))
    );
    assert!(Instruction::decode(&[0xFF], 0).is_err());
}

#[test]
fn test_numeric_instruction() {
    assert_eq!(
        NumericInstruction::decode(&[0xC0], 0),
        Ok((NumericInstruction::I32Extend8S, 1))
    );
    assert_eq!(
        NumericInstruction::decode(&[0x41, 0x08], 0),
        Ok((NumericInstruction::I32Const(8), 2))
    );
    assert!(NumericInstruction::decode(&[0xFF], 0).is_err());
}

#[test]
fn test_saturating_instruction() {
    assert_eq!(
        SaturatingTruncationInstruction::decode(&[0xFC, 0x00], 0),
        Ok((SaturatingTruncationInstruction::I32TruncSatF32S, 2))
    );
    assert!(SaturatingTruncationInstruction::decode(&[0xFF], 0).is_err());
}

#[test]
fn parametric_test_parametric_instruction() {
    assert_eq!(
        ParametricInstruction::decode(&[0x1A], 0),
        Ok((ParametricInstruction::Drop, 1))
    );
    assert_eq!(
        ParametricInstruction::decode(&[0x1C, 0x01, 0x70], 0),
        Ok((
            ParametricInstruction::SelectTyped(vec![ValType::RefType(RefType::FuncRef)]),
            3
        ))
    );
    assert!(ParametricInstruction::decode(&[0xFF], 0).is_err());
}

#[test]
fn test_reference_instruction() {
    assert_eq!(
        ReferenceInstruction::decode(&[0xD1], 0),
        Ok((ReferenceInstruction::IsNull, 1))
    );
    assert_eq!(
        ReferenceInstruction::decode(&[0xD0, 0x70], 0),
        Ok((ReferenceInstruction::Null(RefType::FuncRef), 2))
    );
    assert!(ReferenceInstruction::decode(&[0xFF], 0).is_err());
}

#[test]
fn variable_test_parametric_instruction() {
    assert_eq!(
        VariableInstruction::decode(&[0x20, 0x01], 0),
        Ok((VariableInstruction::LocalGet(1), 2))
    );
    assert!(VariableInstruction::decode(&[0xFF], 0).is_err());
}

#[test]
fn empty_expression() {
    assert_eq!(Expression::decode(&[0x0B], 0), Ok((Expression(vec![]), 1)));
}

#[test]
fn expression_missing_terminator_fails() {
    assert!(Expression::decode(&[0xC0, 0xC0], 0).is_err());
    assert!(Expression::decode(&[], 0).is_err());
}

#[test]
fn reference_func_instruction() {
    assert_eq!(
        ReferenceInstruction::decode(&[0xD2, 0x03], 0),
        Ok((ReferenceInstruction::Func(3), 2))
    );
}

#[test]
fn variable_instruction_globals() {
    assert_eq!(
        VariableInstruction::decode(&[0x23, 0x05], 0),
        Ok((VariableInstruction::GlobalGet(5), 2))
    );
    assert_eq!(
        VariableInstruction::decode(&[0x24, 0x06], 0),
        Ok((VariableInstruction::GlobalSet(6), 2))
    );
    assert!(VariableInstruction::decode(&[0x20], 0).is_err());
}

#[test]
fn saturating_subopcode_out_of_range_fails() {
    assert!(SaturatingTruncationInstruction::decode(&[0xFC, 0x08], 0).is_err());
    assert_eq!(
        SaturatingTruncationInstruction::decode(&[0xFC, 0x07], 0),
        Ok((SaturatingTruncationInstruction::I64TruncSatF64U, 2))
    );
}

#[test]
fn float_const_instructions_carry_bit_patterns() {
    let one_f32 = 1.0f32.to_le_bytes();
    let bytes = [0x43, one_f32[0], one_f32[1], one_f32[2], one_f32[3]];
    assert_eq!(
        NumericInstruction::decode(&bytes, 0),
        Ok((NumericInstruction::F32Const(1.0f32.to_bits()), 5))
    );
    let one_f64 = 1.0f64.to_le_bytes();
    let mut bytes64 = vec![0x44];
    bytes64.extend_from_slice(&one_f64);
    assert_eq!(
        NumericInstruction::decode(&bytes64, 0),
        Ok((NumericInstruction::F64Const(1.0f64.to_bits()), 9))
    );
    assert!(NumericInstruction::decode(&[0x43, 0x00, 0x00], 0).is_err());
}

#[test]
fn i64_const_instruction() {
    assert_eq!(
        NumericInstruction::decode(&[0x42, 0x7F], 0),
        Ok((NumericInstruction::I64Const(-1), 2))
    );
}
