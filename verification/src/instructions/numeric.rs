use vstd::prelude::*;

use crate::values::{decode_le_bits32, decode_le_bits64, lemma_leb_signed_bound, spec_le_bits32,
    spec_le_bits64, Decode};
use crate::DecodeError;

verus! {

/// Instructions that operate on numeric values: constants, comparisons,
/// arithmetic, conversions, reinterpretations and sign extensions.  Every
/// variant but the four constants is a single opcode byte with no payload;
/// the constants carry their literal operand.
///
/// The two float constants carry the four- or eight-byte little-endian bit
/// pattern of their operand as plain bits; interpreting the pattern as a
/// floating-point number is a concern of consumers of the decoded tree,
/// and no canonicalization is applied.
#[derive(Debug, PartialEq, Eq, Clone, Copy)]
pub enum NumericInstruction {
    I32Const(i32),
    I64Const(i64),
    F32Const(u32),
    F64Const(u64),
    I32Eqz,
    I32Eq,
    I32Ne,
    I32LtS,
    I32NeU,
    I32GtS,
    I32GtU,
    I32LeS,
    I32LeU,
    I32GeS,
    I32GeU,
    I64Eqz,
    I64Eq,
    I64Ne,
    I64LtS,
    I64NeU,
    I64GtS,
    I64GtU,
    I64LeS,
    I64LeU,
    I64GeS,
    I64GeU,
    F32Eq,
    F32Ne,
    F32Lt,
    F32Gt,
    F32Le,
    F32Ge,
    F64Eq,
    F64Ne,
    F64Lt,
    F64Gt,
    F64Le,
    F64Ge,
    I32Clz,
    I32Ctz,
    I32Popcnt,
    I32Add,
    I32Sub,
    I32Mul,
    I32DivS,
    I32DivU,
    I32RemS,
    I32RemU,
    I32And,
    I32Or,
    I32Xor,
    I32Shl,
    I32ShrS,
    I32ShrU,
    I32Rotl,
    I32Rotr,
    I64Clz,
    I64Ctz,
    I64Popcnt,
    I64Add,
    I64Sub,
    I64Mul,
    I64DivS,
    I64DivU,
    I64RemS,
    I64RemU,
    I64And,
    I64Or,
    I64Xor,
    I64Shl,
    I64ShrS,
    I64ShrU,
    I64Rotl,
    I64Rotr,
    F32Abs,
    F32Neg,
    F32Ceil,
    F32Floor,
    F32Trunc,
    F32Nearest,
    F32Sqrt,
    F32Add,
    F32Sub,
    F32Mul,
    F32Div,
    F32Min,
    F32Max,
    F32CopySign,
    F64Abs,
    F64Neg,
    F64Ceil,
    F64Floor,
    F64Trunc,
    F64Nearest,
    F64Sqrt,
    F64Add,
    F64Sub,
    F64Mul,
    F64Div,
    F64Min,
    F64Max,
    F64CopySign,
    I32WrapI64,
    I32TruncF32S,
    I32TruncF32U,
    I32TruncF64S,
    I32TruncF64U,
    I64ExtendI32S,
    I64ExtendI32U,
    I64TruncF32S,
    I64TruncF32U,
    I64TruncF64S,
    I64TruncF64U,
    F32ConvertI32S,
    F32ConvertI32U,
    F32ConvertI64S,
    F32ConvertI64u,
    F32DemoteF64,
    F64ConvertI32S,
    F64ConvertI32U,
    F64ConvertI64S,
    F64ConvertI64u,
    F64PromoteF32,
    I32ReinterpretF32,
    I64ReinterpretF64,
    F32ReinterpretI32,
    F64ReinterpretI64,
    I32Extend8S,
    I32Extend16S,
    I64Extend8S,
    I64Extend16S,
    I64Extend32S,
}

/// The opcode table of the numeric instructions that carry no operand:
/// the single production selected by the byte `b`, if any.
pub open spec fn spec_numeric_op(b: u8) -> Option<NumericInstruction> {
    if b == 0x45 {
        Some(NumericInstruction::I32Eqz)
    } else if b == 0x46 {
        Some(NumericInstruction::I32Eq)
    } else if b == 0x47 {
        Some(NumericInstruction::I32Ne)
    } else if b == 0x48 {
        Some(NumericInstruction::I32LtS)
    } else if b == 0x49 {
        Some(NumericInstruction::I32NeU)
    } else if b == 0x4A {
        Some(NumericInstruction::I32GtS)
    } else if b == 0x4B {
        Some(NumericInstruction::I32GtU)
    } else if b == 0x4C {
        Some(NumericInstruction::I32LeS)
    } else if b == 0x4D {
        Some(NumericInstruction::I32LeU)
    } else if b == 0x4E {
        Some(NumericInstruction::I32GeS)
    } else if b == 0x4F {
        Some(NumericInstruction::I32GeU)
    } else if b == 0x50 {
        Some(NumericInstruction::I64Eqz)
    } else if b == 0x51 {
        Some(NumericInstruction::I64Eq)
    } else if b == 0x52 {
        Some(NumericInstruction::I64Ne)
    } else if b == 0x53 {
        Some(NumericInstruction::I64LtS)
    } else if b == 0x54 {
        Some(NumericInstruction::I64NeU)
    } else if b == 0x55 {
        Some(NumericInstruction::I64GtS)
    } else if b == 0x56 {
        Some(NumericInstruction::I64GtU)
    } else if b == 0x57 {
        Some(NumericInstruction::I64LeS)
    } else if b == 0x58 {
        Some(NumericInstruction::I64LeU)
    } else if b == 0x59 {
        Some(NumericInstruction::I64GeS)
    } else if b == 0x5A {
        Some(NumericInstruction::I64GeU)
    } else if b == 0x5B {
        Some(NumericInstruction::F32Eq)
    } else if b == 0x5C {
        Some(NumericInstruction::F32Ne)
    } else if b == 0x5D {
        Some(NumericInstruction::F32Lt)
    } else if b == 0x5E {
        Some(NumericInstruction::F32Gt)
    } else if b == 0x5F {
        Some(NumericInstruction::F32Le)
    } else if b == 0x60 {
        Some(NumericInstruction::F32Ge)
    } else if b == 0x61 {
        Some(NumericInstruction::F64Eq)
    } else if b == 0x62 {
        Some(NumericInstruction::F64Ne)
    } else if b == 0x63 {
        Some(NumericInstruction::F64Lt)
    } else if b == 0x64 {
        Some(NumericInstruction::F64Gt)
    } else if b == 0x65 {
        Some(NumericInstruction::F64Le)
    } else if b == 0x66 {
        Some(NumericInstruction::F64Ge)
    } else if b == 0x67 {
        Some(NumericInstruction::I32Clz)
    } else if b == 0x68 {
        Some(NumericInstruction::I32Ctz)
    } else if b == 0x69 {
        Some(NumericInstruction::I32Popcnt)
    } else if b == 0x6A {
        Some(NumericInstruction::I32Add)
    } else if b == 0x6B {
        Some(NumericInstruction::I32Sub)
    } else if b == 0x6C {
        Some(NumericInstruction::I32Mul)
    } else if b == 0x6D {
        Some(NumericInstruction::I32DivS)
    } else if b == 0x6E {
        Some(NumericInstruction::I32DivU)
    } else if b == 0x6F {
        Some(NumericInstruction::I32RemS)
    } else if b == 0x70 {
        Some(NumericInstruction::I32RemU)
    } else if b == 0x71 {
        Some(NumericInstruction::I32And)
    } else if b == 0x72 {
        Some(NumericInstruction::I32Or)
    } else if b == 0x73 {
        Some(NumericInstruction::I32Xor)
    } else if b == 0x74 {
        Some(NumericInstruction::I32Shl)
    } else if b == 0x75 {
        Some(NumericInstruction::I32ShrS)
    } else if b == 0x76 {
        Some(NumericInstruction::I32ShrU)
    } else if b == 0x77 {
        Some(NumericInstruction::I32Rotl)
    } else if b == 0x78 {
        Some(NumericInstruction::I32Rotr)
    } else if b == 0x79 {
        Some(NumericInstruction::I64Clz)
    } else if b == 0x7A {
        Some(NumericInstruction::I64Ctz)
    } else if b == 0x7B {
        Some(NumericInstruction::I64Popcnt)
    } else if b == 0x7C {
        Some(NumericInstruction::I64Add)
    } else if b == 0x7D {
        Some(NumericInstruction::I64Sub)
    } else if b == 0x7E {
        Some(NumericInstruction::I64Mul)
    } else if b == 0x7F {
        Some(NumericInstruction::I64DivS)
    } else if b == 0x80 {
        Some(NumericInstruction::I64DivU)
    } else if b == 0x81 {
        Some(NumericInstruction::I64RemS)
    } else if b == 0x82 {
        Some(NumericInstruction::I64RemU)
    } else if b == 0x83 {
        Some(NumericInstruction::I64And)
    } else if b == 0x84 {
        Some(NumericInstruction::I64Or)
    } else if b == 0x85 {
        Some(NumericInstruction::I64Xor)
    } else if b == 0x86 {
        Some(NumericInstruction::I64Shl)
    } else if b == 0x87 {
        Some(NumericInstruction::I64ShrS)
    } else if b == 0x88 {
        Some(NumericInstruction::I64ShrU)
    } else if b == 0x89 {
        Some(NumericInstruction::I64Rotl)
    } else if b == 0x8A {
        Some(NumericInstruction::I64Rotr)
    } else if b == 0x8B {
        Some(NumericInstruction::F32Abs)
    } else if b == 0x8C {
        Some(NumericInstruction::F32Neg)
    } else if b == 0x8D {
        Some(NumericInstruction::F32Ceil)
    } else if b == 0x8E {
        Some(NumericInstruction::F32Floor)
    } else if b == 0x8F {
        Some(NumericInstruction::F32Trunc)
    } else if b == 0x90 {
        Some(NumericInstruction::F32Nearest)
    } else if b == 0x91 {
        Some(NumericInstruction::F32Sqrt)
    } else if b == 0x92 {
        Some(NumericInstruction::F32Add)
    } else if b == 0x93 {
        Some(NumericInstruction::F32Sub)
    } else if b == 0x94 {
        Some(NumericInstruction::F32Mul)
    } else if b == 0x95 {
        Some(NumericInstruction::F32Div)
    } else if b == 0x96 {
        Some(NumericInstruction::F32Min)
    } else if b == 0x97 {
        Some(NumericInstruction::F32Max)
    } else if b == 0x98 {
        Some(NumericInstruction::F32CopySign)
    } else if b == 0x99 {
        Some(NumericInstruction::F64Abs)
    } else if b == 0x9A {
        Some(NumericInstruction::F64Neg)
    } else if b == 0x9B {
        Some(NumericInstruction::F64Ceil)
    } else if b == 0x9C {
        Some(NumericInstruction::F64Floor)
    } else if b == 0x9D {
        Some(NumericInstruction::F64Trunc)
    } else if b == 0x9E {
        Some(NumericInstruction::F64Nearest)
    } else if b == 0x9F {
        Some(NumericInstruction::F64Sqrt)
    } else if b == 0xA0 {
        Some(NumericInstruction::F64Add)
    } else if b == 0xA1 {
        Some(NumericInstruction::F64Sub)
    } else if b == 0xA2 {
        Some(NumericInstruction::F64Mul)
    } else if b == 0xA3 {
        Some(NumericInstruction::F64Div)
    } else if b == 0xA4 {
        Some(NumericInstruction::F64Min)
    } else if b == 0xA5 {
        Some(NumericInstruction::F64Max)
    } else if b == 0xA6 {
        Some(NumericInstruction::F64CopySign)
    } else if b == 0xA7 {
        Some(NumericInstruction::I32WrapI64)
    } else if b == 0xA8 {
        Some(NumericInstruction::I32TruncF32S)
    } else if b == 0xA9 {
        Some(NumericInstruction::I32TruncF32U)
    } else if b == 0xAA {
        Some(NumericInstruction::I32TruncF64S)
    } else if b == 0xAB {
        Some(NumericInstruction::I32TruncF64U)
    } else if b == 0xAC {
        Some(NumericInstruction::I64ExtendI32S)
    } else if b == 0xAD {
        Some(NumericInstruction::I64ExtendI32U)
    } else if b == 0xAE {
        Some(NumericInstruction::I64TruncF32S)
    } else if b == 0xAF {
        Some(NumericInstruction::I64TruncF32U)
    } else if b == 0xB0 {
        Some(NumericInstruction::I64TruncF64S)
    } else if b == 0xB1 {
        Some(NumericInstruction::I64TruncF64U)
    } else if b == 0xB2 {
        Some(NumericInstruction::F32ConvertI32S)
    } else if b == 0xB3 {
        Some(NumericInstruction::F32ConvertI32U)
    } else if b == 0xB4 {
        Some(NumericInstruction::F32ConvertI64S)
    } else if b == 0xB5 {
        Some(NumericInstruction::F32ConvertI64u)
    } else if b == 0xB6 {
        Some(NumericInstruction::F32DemoteF64)
    } else if b == 0xB7 {
        Some(NumericInstruction::F64ConvertI32S)
    } else if b == 0xB8 {
        Some(NumericInstruction::F64ConvertI32U)
    } else if b == 0xB9 {
        Some(NumericInstruction::F64ConvertI64S)
    } else if b == 0xBA {
        Some(NumericInstruction::F64ConvertI64u)
    } else if b == 0xBB {
        Some(NumericInstruction::F64PromoteF32)
    } else if b == 0xBC {
        Some(NumericInstruction::I32ReinterpretF32)
    } else if b == 0xBD {
        Some(NumericInstruction::I64ReinterpretF64)
    } else if b == 0xBE {
        Some(NumericInstruction::F32ReinterpretI32)
    } else if b == 0xBF {
        Some(NumericInstruction::F64ReinterpretI64)
    } else if b == 0xC0 {
        Some(NumericInstruction::I32Extend8S)
    } else if b == 0xC1 {
        Some(NumericInstruction::I32Extend16S)
    } else if b == 0xC2 {
        Some(NumericInstruction::I64Extend8S)
    } else if b == 0xC3 {
        Some(NumericInstruction::I64Extend16S)
    } else if b == 0xC4 {
        Some(NumericInstruction::I64Extend32S)
    } else {
        None
    }
}

/// Looks up the byte `b` in the opcode table of the operand-free numeric
/// instructions.
fn numeric_op(b: u8) -> (r: Option<NumericInstruction>)
    ensures
        r == spec_numeric_op(b),
{
    if b == 0x45 {
        Some(NumericInstruction::I32Eqz)
    } else if b == 0x46 {
        Some(NumericInstruction::I32Eq)
    } else if b == 0x47 {
        Some(NumericInstruction::I32Ne)
    } else if b == 0x48 {
        Some(NumericInstruction::I32LtS)
    } else if b == 0x49 {
        Some(NumericInstruction::I32NeU)
    } else if b == 0x4A {
        Some(NumericInstruction::I32GtS)
    } else if b == 0x4B {
        Some(NumericInstruction::I32GtU)
    } else if b == 0x4C {
        Some(NumericInstruction::I32LeS)
    } else if b == 0x4D {
        Some(NumericInstruction::I32LeU)
    } else if b == 0x4E {
        Some(NumericInstruction::I32GeS)
    } else if b == 0x4F {
        Some(NumericInstruction::I32GeU)
    } else if b == 0x50 {
        Some(NumericInstruction::I64Eqz)
    } else if b == 0x51 {
        Some(NumericInstruction::I64Eq)
    } else if b == 0x52 {
        Some(NumericInstruction::I64Ne)
    } else if b == 0x53 {
        Some(NumericInstruction::I64LtS)
    } else if b == 0x54 {
        Some(NumericInstruction::I64NeU)
    } else if b == 0x55 {
        Some(NumericInstruction::I64GtS)
    } else if b == 0x56 {
        Some(NumericInstruction::I64GtU)
    } else if b == 0x57 {
        Some(NumericInstruction::I64LeS)
    } else if b == 0x58 {
        Some(NumericInstruction::I64LeU)
    } else if b == 0x59 {
        Some(NumericInstruction::I64GeS)
    } else if b == 0x5A {
        Some(NumericInstruction::I64GeU)
    } else if b == 0x5B {
        Some(NumericInstruction::F32Eq)
    } else if b == 0x5C {
        Some(NumericInstruction::F32Ne)
    } else if b == 0x5D {
        Some(NumericInstruction::F32Lt)
    } else if b == 0x5E {
        Some(NumericInstruction::F32Gt)
    } else if b == 0x5F {
        Some(NumericInstruction::F32Le)
    } else if b == 0x60 {
        Some(NumericInstruction::F32Ge)
    } else if b == 0x61 {
        Some(NumericInstruction::F64Eq)
    } else if b == 0x62 {
        Some(NumericInstruction::F64Ne)
    } else if b == 0x63 {
        Some(NumericInstruction::F64Lt)
    } else if b == 0x64 {
        Some(NumericInstruction::F64Gt)
    } else if b == 0x65 {
        Some(NumericInstruction::F64Le)
    } else if b == 0x66 {
        Some(NumericInstruction::F64Ge)
    } else if b == 0x67 {
        Some(NumericInstruction::I32Clz)
    } else if b == 0x68 {
        Some(NumericInstruction::I32Ctz)
    } else if b == 0x69 {
        Some(NumericInstruction::I32Popcnt)
    } else if b == 0x6A {
        Some(NumericInstruction::I32Add)
    } else if b == 0x6B {
        Some(NumericInstruction::I32Sub)
    } else if b == 0x6C {
        Some(NumericInstruction::I32Mul)
    } else if b == 0x6D {
        Some(NumericInstruction::I32DivS)
    } else if b == 0x6E {
        Some(NumericInstruction::I32DivU)
    } else if b == 0x6F {
        Some(NumericInstruction::I32RemS)
    } else if b == 0x70 {
        Some(NumericInstruction::I32RemU)
    } else if b == 0x71 {
        Some(NumericInstruction::I32And)
    } else if b == 0x72 {
        Some(NumericInstruction::I32Or)
    } else if b == 0x73 {
        Some(NumericInstruction::I32Xor)
    } else if b == 0x74 {
        Some(NumericInstruction::I32Shl)
    } else if b == 0x75 {
        Some(NumericInstruction::I32ShrS)
    } else if b == 0x76 {
        Some(NumericInstruction::I32ShrU)
    } else if b == 0x77 {
        Some(NumericInstruction::I32Rotl)
    } else if b == 0x78 {
        Some(NumericInstruction::I32Rotr)
    } else if b == 0x79 {
        Some(NumericInstruction::I64Clz)
    } else if b == 0x7A {
        Some(NumericInstruction::I64Ctz)
    } else if b == 0x7B {
        Some(NumericInstruction::I64Popcnt)
    } else if b == 0x7C {
        Some(NumericInstruction::I64Add)
    } else if b == 0x7D {
        Some(NumericInstruction::I64Sub)
    } else if b == 0x7E {
        Some(NumericInstruction::I64Mul)
    } else if b == 0x7F {
        Some(NumericInstruction::I64DivS)
    } else if b == 0x80 {
        Some(NumericInstruction::I64DivU)
    } else if b == 0x81 {
        Some(NumericInstruction::I64RemS)
    } else if b == 0x82 {
        Some(NumericInstruction::I64RemU)
    } else if b == 0x83 {
        Some(NumericInstruction::I64And)
    } else if b == 0x84 {
        Some(NumericInstruction::I64Or)
    } else if b == 0x85 {
        Some(NumericInstruction::I64Xor)
    } else if b == 0x86 {
        Some(NumericInstruction::I64Shl)
    } else if b == 0x87 {
        Some(NumericInstruction::I64ShrS)
    } else if b == 0x88 {
        Some(NumericInstruction::I64ShrU)
    } else if b == 0x89 {
        Some(NumericInstruction::I64Rotl)
    } else if b == 0x8A {
        Some(NumericInstruction::I64Rotr)
    } else if b == 0x8B {
        Some(NumericInstruction::F32Abs)
    } else if b == 0x8C {
        Some(NumericInstruction::F32Neg)
    } else if b == 0x8D {
        Some(NumericInstruction::F32Ceil)
    } else if b == 0x8E {
        Some(NumericInstruction::F32Floor)
    } else if b == 0x8F {
        Some(NumericInstruction::F32Trunc)
    } else if b == 0x90 {
        Some(NumericInstruction::F32Nearest)
    } else if b == 0x91 {
        Some(NumericInstruction::F32Sqrt)
    } else if b == 0x92 {
        Some(NumericInstruction::F32Add)
    } else if b == 0x93 {
        Some(NumericInstruction::F32Sub)
    } else if b == 0x94 {
        Some(NumericInstruction::F32Mul)
    } else if b == 0x95 {
        Some(NumericInstruction::F32Div)
    } else if b == 0x96 {
        Some(NumericInstruction::F32Min)
    } else if b == 0x97 {
        Some(NumericInstruction::F32Max)
    } else if b == 0x98 {
        Some(NumericInstruction::F32CopySign)
    } else if b == 0x99 {
        Some(NumericInstruction::F64Abs)
    } else if b == 0x9A {
        Some(NumericInstruction::F64Neg)
    } else if b == 0x9B {
        Some(NumericInstruction::F64Ceil)
    } else if b == 0x9C {
        Some(NumericInstruction::F64Floor)
    } else if b == 0x9D {
        Some(NumericInstruction::F64Trunc)
    } else if b == 0x9E {
        Some(NumericInstruction::F64Nearest)
    } else if b == 0x9F {
        Some(NumericInstruction::F64Sqrt)
    } else if b == 0xA0 {
        Some(NumericInstruction::F64Add)
    } else if b == 0xA1 {
        Some(NumericInstruction::F64Sub)
    } else if b == 0xA2 {
        Some(NumericInstruction::F64Mul)
    } else if b == 0xA3 {
        Some(NumericInstruction::F64Div)
    } else if b == 0xA4 {
        Some(NumericInstruction::F64Min)
    } else if b == 0xA5 {
        Some(NumericInstruction::F64Max)
    } else if b == 0xA6 {
        Some(NumericInstruction::F64CopySign)
    } else if b == 0xA7 {
        Some(NumericInstruction::I32WrapI64)
    } else if b == 0xA8 {
        Some(NumericInstruction::I32TruncF32S)
    } else if b == 0xA9 {
        Some(NumericInstruction::I32TruncF32U)
    } else if b == 0xAA {
        Some(NumericInstruction::I32TruncF64S)
    } else if b == 0xAB {
        Some(NumericInstruction::I32TruncF64U)
    } else if b == 0xAC {
        Some(NumericInstruction::I64ExtendI32S)
    } else if b == 0xAD {
        Some(NumericInstruction::I64ExtendI32U)
    } else if b == 0xAE {
        Some(NumericInstruction::I64TruncF32S)
    } else if b == 0xAF {
        Some(NumericInstruction::I64TruncF32U)
    } else if b == 0xB0 {
        Some(NumericInstruction::I64TruncF64S)
    } else if b == 0xB1 {
        Some(NumericInstruction::I64TruncF64U)
    } else if b == 0xB2 {
        Some(NumericInstruction::F32ConvertI32S)
    } else if b == 0xB3 {
        Some(NumericInstruction::F32ConvertI32U)
    } else if b == 0xB4 {
        Some(NumericInstruction::F32ConvertI64S)
    } else if b == 0xB5 {
        Some(NumericInstruction::F32ConvertI64u)
    } else if b == 0xB6 {
        Some(NumericInstruction::F32DemoteF64)
    } else if b == 0xB7 {
        Some(NumericInstruction::F64ConvertI32S)
    } else if b == 0xB8 {
        Some(NumericInstruction::F64ConvertI32U)
    } else if b == 0xB9 {
        Some(NumericInstruction::F64ConvertI64S)
    } else if b == 0xBA {
        Some(NumericInstruction::F64ConvertI64u)
    } else if b == 0xBB {
        Some(NumericInstruction::F64PromoteF32)
    } else if b == 0xBC {
        Some(NumericInstruction::I32ReinterpretF32)
    } else if b == 0xBD {
        Some(NumericInstruction::I64ReinterpretF64)
    } else if b == 0xBE {
        Some(NumericInstruction::F32ReinterpretI32)
    } else if b == 0xBF {
        Some(NumericInstruction::F64ReinterpretI64)
    } else if b == 0xC0 {
        Some(NumericInstruction::I32Extend8S)
    } else if b == 0xC1 {
        Some(NumericInstruction::I32Extend16S)
    } else if b == 0xC2 {
        Some(NumericInstruction::I64Extend8S)
    } else if b == 0xC3 {
        Some(NumericInstruction::I64Extend16S)
    } else if b == 0xC4 {
        Some(NumericInstruction::I64Extend32S)
    } else {
        None
    }
}

impl DeepView for NumericInstruction {
    type V = NumericInstruction;

    open spec fn deep_view(&self) -> NumericInstruction {
        *self
    }
}

impl Decode for NumericInstruction {
    open spec fn spec_decode(input: Seq<u8>, pos: int) -> Option<(NumericInstruction, int)> {
        match u8::spec_decode(input, pos) {
            Some(bp) => if bp.0 == 0x41 {
                match i32::spec_decode(input, bp.1) {
                    Some(vp) => Some((NumericInstruction::I32Const(vp.0), vp.1)),
                    None => None,
                }
            } else if bp.0 == 0x42 {
                match i64::spec_decode(input, bp.1) {
                    Some(vp) => Some((NumericInstruction::I64Const(vp.0), vp.1)),
                    None => None,
                }
            } else if bp.0 == 0x43 {
                match spec_le_bits32(input, bp.1) {
                    Some(vp) => Some((NumericInstruction::F32Const(vp.0), vp.1)),
                    None => None,
                }
            } else if bp.0 == 0x44 {
                match spec_le_bits64(input, bp.1) {
                    Some(vp) => Some((NumericInstruction::F64Const(vp.0), vp.1)),
                    None => None,
                }
            } else {
                match spec_numeric_op(bp.0) {
                    Some(op) => Some((op, bp.1)),
                    None => None,
                }
            },
            None => None,
        }
    }

    fn decode(input: &[u8], pos: usize) -> (r: Result<(Self, usize), DecodeError>) {
        let (b, p) = u8::decode(input, pos)?;
        if b == 0x41 {
            let (v, p1) = i32::decode(input, p)?;
            Ok((NumericInstruction::I32Const(v), p1))
        } else if b == 0x42 {
            let (v, p1) = i64::decode(input, p)?;
            Ok((NumericInstruction::I64Const(v), p1))
        } else if b == 0x43 {
            let (v, p1) = decode_le_bits32(input, p)?;
            Ok((NumericInstruction::F32Const(v), p1))
        } else if b == 0x44 {
            let (v, p1) = decode_le_bits64(input, p)?;
            Ok((NumericInstruction::F64Const(v), p1))
        } else {
            match numeric_op(b) {
                Some(op) => Ok((op, p)),
                None => Err(DecodeError::MalformedEncoding),
            }
        }
    }

    proof fn lemma_spec_decode_bound(input: Seq<u8>, pos: int) {
        if let Some(bp) = u8::spec_decode(input, pos) {
            lemma_leb_signed_bound(input, bp.1, 32);
            lemma_leb_signed_bound(input, bp.1, 64);
        }
    }
}

/// The eight saturating truncation instructions, selected by the prefix
/// byte `0xFC` and an unsigned sub-opcode restricted to the range zero to
/// seven.
#[derive(Debug, PartialEq, Eq, Clone, Copy)]
pub enum SaturatingTruncationInstruction {
    I32TruncSatF32S,
    I32TruncSatF32U,
    I32TruncSatF64S,
    I32TruncSatF64U,
    I64TruncSatF32S,
    I64TruncSatF32U,
    I64TruncSatF64S,
    I64TruncSatF64U,
}

/// The saturating truncation selected by the sub-opcode `k`, if any.
pub open spec fn spec_saturating_op(k: u32) -> Option<SaturatingTruncationInstruction> {
    if k == 0 {
        Some(SaturatingTruncationInstruction::I32TruncSatF32S)
    } else if k == 1 {
        Some(SaturatingTruncationInstruction::I32TruncSatF32U)
    } else if k == 2 {
        Some(SaturatingTruncationInstruction::I32TruncSatF64S)
    } else if k == 3 {
        Some(SaturatingTruncationInstruction::I32TruncSatF64U)
    } else if k == 4 {
        Some(SaturatingTruncationInstruction::I64TruncSatF32S)
    } else if k == 5 {
        Some(SaturatingTruncationInstruction::I64TruncSatF32U)
    } else if k == 6 {
        Some(SaturatingTruncationInstruction::I64TruncSatF64S)
    } else if k == 7 {
        Some(SaturatingTruncationInstruction::I64TruncSatF64U)
    } else {
        None
    }
}

impl DeepView for SaturatingTruncationInstruction {
    type V = SaturatingTruncationInstruction;

    open spec fn deep_view(&self) -> SaturatingTruncationInstruction {
        *self
    }
}

impl Decode for SaturatingTruncationInstruction {
    open spec fn spec_decode(input: Seq<u8>, pos: int) -> Option<
        (SaturatingTruncationInstruction, int),
    > {
        match u8::spec_decode(input, pos) {
            Some(bp) => if bp.0 == 0xFC {
                match u32::spec_decode(input, bp.1) {
                    Some(kp) => match spec_saturating_op(kp.0) {
                        Some(op) => Some((op, kp.1)),
                        None => None,
                    },
                    None => None,
                }
            } else {
                None
            },
            None => None,
        }
    }

    fn decode(input: &[u8], pos: usize) -> (r: Result<(Self, usize), DecodeError>) {
        let (b, p) = u8::decode(input, pos)?;
        if b != 0xFC {
            return Err(DecodeError::MalformedEncoding);
        }
        let (k, p1) = u32::decode(input, p)?;
        if k == 0 {
            Ok((SaturatingTruncationInstruction::I32TruncSatF32S, p1))
        } else if k == 1 {
            Ok((SaturatingTruncationInstruction::I32TruncSatF32U, p1))
        } else if k == 2 {
            Ok((SaturatingTruncationInstruction::I32TruncSatF64S, p1))
        } else if k == 3 {
            Ok((SaturatingTruncationInstruction::I32TruncSatF64U, p1))
        } else if k == 4 {
            Ok((SaturatingTruncationInstruction::I64TruncSatF32S, p1))
        } else if k == 5 {
            Ok((SaturatingTruncationInstruction::I64TruncSatF32U, p1))
        } else if k == 6 {
            Ok((SaturatingTruncationInstruction::I64TruncSatF64S, p1))
        } else if k == 7 {
            Ok((SaturatingTruncationInstruction::I64TruncSatF64U, p1))
        } else {
            Err(DecodeError::MalformedEncoding)
        }
    }

    proof fn lemma_spec_decode_bound(input: Seq<u8>, pos: int) {
        if let Some(bp) = u8::spec_decode(input, pos) {
            crate::values::lemma_u32_decode_bounds(input, bp.1);
        }
    }
}

} // verus!
