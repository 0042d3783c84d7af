use vstd::prelude::*;

use crate::instructions::{Expression, InstructionV};
use crate::module::indices::MemIdx;
use crate::values::{lemma_u32_decode_bounds, Decode};
use crate::DecodeError;

verus! {

/// The deep view of a data segment.
pub enum DataV {
    Active(Seq<InstructionV>, Seq<u8>),
    Passive(Seq<u8>),
    ActiveExplicit(MemIdx, Seq<InstructionV>, Seq<u8>),
}

/// One entry of the data section.  A leading flag selects the variant:
/// `0` active in memory zero with an offset expression, `1` passive,
/// `2` active in an explicitly named memory.  All carry a
/// length-prefixed byte payload; any other flag value is a malformed
/// encoding.
#[derive(Debug, PartialEq, Eq)]
pub enum Data {
    Active(Expression, Vec<u8>),
    Passive(Vec<u8>),
    ActiveExplicit(MemIdx, Expression, Vec<u8>),
}

impl DeepView for Data {
    type V = DataV;

    open spec fn deep_view(&self) -> DataV {
        match self {
            Data::Active(e, bs) => DataV::Active(e.deep_view(), bs.deep_view()),
            Data::Passive(bs) => DataV::Passive(bs.deep_view()),
            Data::ActiveExplicit(m, e, bs) => DataV::ActiveExplicit(
                *m,
                e.deep_view(),
                bs.deep_view(),
            ),
        }
    }
}

impl Decode for Data {
    open spec fn spec_decode(input: Seq<u8>, pos: int) -> Option<(DataV, int)> {
        match u32::spec_decode(input, pos) {
            Some(fp) => if fp.0 == 0 {
                match Expression::spec_decode(input, fp.1) {
                    Some(ep) => match <Vec<u8> as Decode>::spec_decode(input, ep.1) {
                        Some(bp) => Some((DataV::Active(ep.0, bp.0), bp.1)),
                        None => None,
                    },
                    None => None,
                }
            } else if fp.0 == 1 {
                match <Vec<u8> as Decode>::spec_decode(input, fp.1) {
                    Some(bp) => Some((DataV::Passive(bp.0), bp.1)),
                    None => None,
                }
            } else if fp.0 == 2 {
                match u32::spec_decode(input, fp.1) {
                    Some(mp) => match Expression::spec_decode(input, mp.1) {
                        Some(ep) => match <Vec<u8> as Decode>::spec_decode(input, ep.1) {
                            Some(bp) => Some((DataV::ActiveExplicit(mp.0, ep.0, bp.0), bp.1)),
                            None => None,
                        },
                        None => None,
                    },
                    None => None,
                }
            } else {
                None
            },
            None => None,
        }
    }

    fn decode(input: &[u8], pos: usize) -> (r: Result<(Self, usize), DecodeError>) {
        let (flag, p) = u32::decode(input, pos)?;
        if flag == 0 {
            let (e, p1) = Expression::decode(input, p)?;
            let (bs, p2) = <Vec<u8> as Decode>::decode(input, p1)?;
            Ok((Data::Active(e, bs), p2))
        } else if flag == 1 {
            let (bs, p1) = <Vec<u8> as Decode>::decode(input, p)?;
            Ok((Data::Passive(bs), p1))
        } else if flag == 2 {
            let (m, p1) = u32::decode(input, p)?;
            let (e, p2) = Expression::decode(input, p1)?;
            let (bs, p3) = <Vec<u8> as Decode>::decode(input, p2)?;
            Ok((Data::ActiveExplicit(m, e, bs), p3))
        } else {
            Err(DecodeError::MalformedEncoding)
        }
    }

    proof fn lemma_spec_decode_bound(input: Seq<u8>, pos: int) {
        lemma_u32_decode_bounds(input, pos);
        if let Some(fp) = u32::spec_decode(input, pos) {
            Expression::lemma_spec_decode_bound(input, fp.1);
            <Vec<u8> as Decode>::lemma_spec_decode_bound(input, fp.1);
            lemma_u32_decode_bounds(input, fp.1);
            if let Some(ep) = Expression::spec_decode(input, fp.1) {
                <Vec<u8> as Decode>::lemma_spec_decode_bound(input, ep.1);
            }
            if let Some(mp) = u32::spec_decode(input, fp.1) {
                Expression::lemma_spec_decode_bound(input, mp.1);
                if let Some(ep) = Expression::spec_decode(input, mp.1) {
                    <Vec<u8> as Decode>::lemma_spec_decode_bound(input, ep.1);
                }
            }
        }
    }
}

} // verus!
