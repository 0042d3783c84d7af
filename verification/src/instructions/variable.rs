use vstd::prelude::*;

use crate::module::indices::{GlobalIdx, LocalIdx};
use crate::values::Decode;
use crate::DecodeError;

verus! {

/// Instructions that read or write local and global variables, each
/// carrying the index of the variable it touches.
#[derive(Debug, PartialEq, Eq, Clone, Copy)]
pub enum VariableInstruction {
    LocalGet(LocalIdx),
    LocalSet(LocalIdx),
    LocalTee(LocalIdx),
    GlobalGet(GlobalIdx),
    GlobalSet(GlobalIdx),
}

impl DeepView for VariableInstruction {
    type V = VariableInstruction;

    open spec fn deep_view(&self) -> VariableInstruction {
        *self
    }
}

impl Decode for VariableInstruction {
    open spec fn spec_decode(input: Seq<u8>, pos: int) -> Option<(VariableInstruction, int)> {
        match u8::spec_decode(input, pos) {
            Some(bp) => match u32::spec_decode(input, bp.1) {
                Some(ip) => if bp.0 == 0x20 {
                    Some((VariableInstruction::LocalGet(ip.0), ip.1))
                } else if bp.0 == 0x21 {
                    Some((VariableInstruction::LocalSet(ip.0), ip.1))
                } else if bp.0 == 0x22 {
                    Some((VariableInstruction::LocalTee(ip.0), ip.1))
                } else if bp.0 == 0x23 {
                    Some((VariableInstruction::GlobalGet(ip.0), ip.1))
                } else if bp.0 == 0x24 {
                    Some((VariableInstruction::GlobalSet(ip.0), ip.1))
                } else {
                    None
                },
                None => None,
            },
            None => None,
        }
    }

    fn decode(input: &[u8], pos: usize) -> (r: Result<(Self, usize), DecodeError>) {
        let (b, p) = u8::decode(input, pos)?;
        if b < 0x20 || b > 0x24 {
            return Err(DecodeError::MalformedEncoding);
        }
        let (i, p1) = u32::decode(input, p)?;
        if b == 0x20 {
            Ok((VariableInstruction::LocalGet(i), p1))
        } else if b == 0x21 {
            Ok((VariableInstruction::LocalSet(i), p1))
        } else if b == 0x22 {
            Ok((VariableInstruction::LocalTee(i), p1))
        } else if b == 0x23 {
            Ok((VariableInstruction::GlobalGet(i), p1))
        } else {
            Ok((VariableInstruction::GlobalSet(i), p1))
        }
    }

    proof fn lemma_spec_decode_bound(input: Seq<u8>, pos: int) {
        if let Some(bp) = u8::spec_decode(input, pos) {
            crate::values::lemma_u32_decode_bounds(input, bp.1);
        }
    }
}

} // verus!
