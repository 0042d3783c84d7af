use vstd::prelude::*;

use crate::instructions::{Expression, InstructionV};
use crate::module::types::GlobalType;
use crate::values::Decode;
use crate::DecodeError;

verus! {

/// The deep view of a global: its type and its initializer instructions.
pub struct GlobalV {
    pub gt: GlobalType,
    pub init: Seq<InstructionV>,
}

/// One entry of the global section: the global's type, then the
/// expression that initializes it.
#[derive(Debug, PartialEq, Eq)]
pub struct Global {
    pub gt: GlobalType,
    pub init: Expression,
}

impl DeepView for Global {
    type V = GlobalV;

    open spec fn deep_view(&self) -> GlobalV {
        GlobalV { gt: self.gt.deep_view(), init: self.init.deep_view() }
    }
}

impl Decode for Global {
    open spec fn spec_decode(input: Seq<u8>, pos: int) -> Option<(GlobalV, int)> {
        match GlobalType::spec_decode(input, pos) {
            Some(gp) => match Expression::spec_decode(input, gp.1) {
                Some(ep) => Some((GlobalV { gt: gp.0, init: ep.0 }, ep.1)),
                None => None,
            },
            None => None,
        }
    }

    fn decode(input: &[u8], pos: usize) -> (r: Result<(Self, usize), DecodeError>) {
        let (gt, p0) = GlobalType::decode(input, pos)?;
        let (init, p1) = Expression::decode(input, p0)?;
        Ok((Global { gt, init }, p1))
    }

    proof fn lemma_spec_decode_bound(input: Seq<u8>, pos: int) {
        GlobalType::lemma_spec_decode_bound(input, pos);
        if let Some(gp) = GlobalType::spec_decode(input, pos) {
            Expression::lemma_spec_decode_bound(input, gp.1);
        }
    }
}

} // verus!
