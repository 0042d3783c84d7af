use vstd::prelude::*;

use crate::module::types::MemType;
use crate::values::Decode;
use crate::DecodeError;

verus! {

/// One entry of the memory section: the memory's type.
#[derive(Debug, PartialEq, Eq, Clone, Copy)]
pub struct Memory {
    pub mt: MemType,
}

impl DeepView for Memory {
    type V = Memory;

    open spec fn deep_view(&self) -> Memory {
        *self
    }
}

impl Decode for Memory {
    open spec fn spec_decode(input: Seq<u8>, pos: int) -> Option<(Memory, int)> {
        match MemType::spec_decode(input, pos) {
            Some(mp) => Some((Memory { mt: mp.0 }, mp.1)),
            None => None,
        }
    }

    fn decode(input: &[u8], pos: usize) -> (r: Result<(Self, usize), DecodeError>) {
        let (mt, p) = MemType::decode(input, pos)?;
        Ok((Memory { mt }, p))
    }

    proof fn lemma_spec_decode_bound(input: Seq<u8>, pos: int) {
        MemType::lemma_spec_decode_bound(input, pos);
    }
}

} // verus!
