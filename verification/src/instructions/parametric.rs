use vstd::prelude::*;

use crate::module::types::ValType;
use crate::values::Decode;
use crate::DecodeError;

verus! {

/// Instructions that operate on operands of any value type: dropping the
/// top of the stack, and selecting between two operands, optionally with
/// an explicit list of value types.
#[derive(Debug, PartialEq, Eq, Clone)]
pub enum ParametricInstruction {
    Drop,
    Select,
    SelectTyped(Vec<ValType>),
}

/// The deep view of a parametric instruction: the typed select carries
/// its value types as a sequence.
pub enum ParametricInstructionV {
    Drop,
    Select,
    SelectTyped(Seq<ValType>),
}

impl DeepView for ParametricInstruction {
    type V = ParametricInstructionV;

    open spec fn deep_view(&self) -> ParametricInstructionV {
        match self {
            ParametricInstruction::Drop => ParametricInstructionV::Drop,
            ParametricInstruction::Select => ParametricInstructionV::Select,
            ParametricInstruction::SelectTyped(ts) => ParametricInstructionV::SelectTyped(
                ts.deep_view(),
            ),
        }
    }
}

impl Decode for ParametricInstruction {
    open spec fn spec_decode(input: Seq<u8>, pos: int) -> Option<(ParametricInstructionV, int)> {
        match u8::spec_decode(input, pos) {
            Some(bp) => if bp.0 == 0x1A {
                Some((ParametricInstructionV::Drop, bp.1))
            } else if bp.0 == 0x1B {
                Some((ParametricInstructionV::Select, bp.1))
            } else if bp.0 == 0x1C {
                match <Vec<ValType> as Decode>::spec_decode(input, bp.1) {
                    Some(tp) => Some((ParametricInstructionV::SelectTyped(tp.0), tp.1)),
                    None => None,
                }
            } else {
                None
            },
            None => None,
        }
    }

    fn decode(input: &[u8], pos: usize) -> (r: Result<(Self, usize), DecodeError>) {
        let (b, p) = u8::decode(input, pos)?;
        if b == 0x1A {
            Ok((ParametricInstruction::Drop, p))
        } else if b == 0x1B {
            Ok((ParametricInstruction::Select, p))
        } else if b == 0x1C {
            let (ts, p1) = <Vec<ValType> as Decode>::decode(input, p)?;
            Ok((ParametricInstruction::SelectTyped(ts), p1))
        } else {
            Err(DecodeError::MalformedEncoding)
        }
    }

    proof fn lemma_spec_decode_bound(input: Seq<u8>, pos: int) {
        if let Some(bp) = u8::spec_decode(input, pos) {
            if bp.0 == 0x1C {
                <Vec<ValType> as Decode>::lemma_spec_decode_bound(input, bp.1);
            }
        }
    }
}

} // verus!
