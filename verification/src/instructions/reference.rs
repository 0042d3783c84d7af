use vstd::prelude::*;

use crate::module::indices::FuncIdx;
use crate::module::types::RefType;
use crate::values::Decode;
use crate::DecodeError;

verus! {

/// Instructions that produce or test first-class references: a typed null
/// reference, a null test, and a reference to a function by index.
#[derive(Debug, PartialEq, Eq, Clone, Copy)]
pub enum ReferenceInstruction {
    Null(RefType),
    IsNull,
    Func(FuncIdx),
}

impl DeepView for ReferenceInstruction {
    type V = ReferenceInstruction;

    open spec fn deep_view(&self) -> ReferenceInstruction {
        *self
    }
}

impl Decode for ReferenceInstruction {
    open spec fn spec_decode(input: Seq<u8>, pos: int) -> Option<(ReferenceInstruction, int)> {
        match u8::spec_decode(input, pos) {
            Some(bp) => if bp.0 == 0xD0 {
                match RefType::spec_decode(input, bp.1) {
                    Some(tp) => Some((ReferenceInstruction::Null(tp.0), tp.1)),
                    None => None,
                }
            } else if bp.0 == 0xD1 {
                Some((ReferenceInstruction::IsNull, bp.1))
            } else if bp.0 == 0xD2 {
                match u32::spec_decode(input, bp.1) {
                    Some(ip) => Some((ReferenceInstruction::Func(ip.0), ip.1)),
                    None => None,
                }
            } else {
                None
            },
            None => None,
        }
    }

    fn decode(input: &[u8], pos: usize) -> (r: Result<(Self, usize), DecodeError>) {
        let (b, p) = u8::decode(input, pos)?;
        if b == 0xD0 {
            let (t, p1) = RefType::decode(input, p)?;
            Ok((ReferenceInstruction::Null(t), p1))
        } else if b == 0xD1 {
            Ok((ReferenceInstruction::IsNull, p))
        } else if b == 0xD2 {
            let (i, p1) = u32::decode(input, p)?;
            Ok((ReferenceInstruction::Func(i), p1))
        } else {
            Err(DecodeError::MalformedEncoding)
        }
    }

    proof fn lemma_spec_decode_bound(input: Seq<u8>, pos: int) {
        if let Some(bp) = u8::spec_decode(input, pos) {
            crate::values::lemma_u32_decode_bounds(input, bp.1);
        }
    }
}

} // verus!
