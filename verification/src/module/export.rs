use vstd::prelude::*;

use crate::module::indices::{FuncIdx, GlobalIdx, MemIdx, TableIdx};
use crate::values::{lemma_u32_decode_bounds, Decode, Name};
use crate::DecodeError;

verus! {

/// What an export makes visible to the host environment: an entity of
/// one of the four kinds, by its index.  Tag byte `0x00` function,
/// `0x01` table, `0x02` memory, `0x03` global.
#[derive(Debug, PartialEq, Eq, Clone, Copy)]
pub enum ExportDescriptor {
    Func(FuncIdx),
    Table(TableIdx),
    Mem(MemIdx),
    Global(GlobalIdx),
}

impl DeepView for ExportDescriptor {
    type V = ExportDescriptor;

    open spec fn deep_view(&self) -> ExportDescriptor {
        *self
    }
}

impl Decode for ExportDescriptor {
    open spec fn spec_decode(input: Seq<u8>, pos: int) -> Option<(ExportDescriptor, int)> {
        match u8::spec_decode(input, pos) {
            Some(bp) => match u32::spec_decode(input, bp.1) {
                Some(ip) => if bp.0 == 0x00 {
                    Some((ExportDescriptor::Func(ip.0), ip.1))
                } else if bp.0 == 0x01 {
                    Some((ExportDescriptor::Table(ip.0), ip.1))
                } else if bp.0 == 0x02 {
                    Some((ExportDescriptor::Mem(ip.0), ip.1))
                } else if bp.0 == 0x03 {
                    Some((ExportDescriptor::Global(ip.0), ip.1))
                } else {
                    None
                },
                None => None,
            },
            None => None,
        }
    }

    fn decode(input: &[u8], pos: usize) -> (r: Result<(Self, usize), DecodeError>) {
        let (b, p) = u8::decode(input, pos)?;
        if b > 0x03 {
            return Err(DecodeError::MalformedEncoding);
        }
        let (i, p1) = u32::decode(input, p)?;
        if b == 0x00 {
            Ok((ExportDescriptor::Func(i), p1))
        } else if b == 0x01 {
            Ok((ExportDescriptor::Table(i), p1))
        } else if b == 0x02 {
            Ok((ExportDescriptor::Mem(i), p1))
        } else {
            Ok((ExportDescriptor::Global(i), p1))
        }
    }

    proof fn lemma_spec_decode_bound(input: Seq<u8>, pos: int) {
        if let Some(bp) = u8::spec_decode(input, pos) {
            lemma_u32_decode_bounds(input, bp.1);
        }
    }
}

/// The deep view of an export: its name bytes and its descriptor.
pub struct ExportV {
    pub name: Seq<u8>,
    pub descriptor: ExportDescriptor,
}

/// One entry of the export section: a name, then the descriptor naming
/// what it refers to.
#[derive(Debug, PartialEq, Eq)]
pub struct Export {
    pub name: Name,
    pub descriptor: ExportDescriptor,
}

impl DeepView for Export {
    type V = ExportV;

    open spec fn deep_view(&self) -> ExportV {
        ExportV { name: self.name.deep_view(), descriptor: self.descriptor.deep_view() }
    }
}

impl Decode for Export {
    open spec fn spec_decode(input: Seq<u8>, pos: int) -> Option<(ExportV, int)> {
        match Name::spec_decode(input, pos) {
            Some(np) => match ExportDescriptor::spec_decode(input, np.1) {
                Some(dp) => Some((ExportV { name: np.0, descriptor: dp.0 }, dp.1)),
                None => None,
            },
            None => None,
        }
    }

    fn decode(input: &[u8], pos: usize) -> (r: Result<(Self, usize), DecodeError>) {
        let (name, p0) = Name::decode(input, pos)?;
        let (descriptor, p1) = ExportDescriptor::decode(input, p0)?;
        Ok((Export { name, descriptor }, p1))
    }

    proof fn lemma_spec_decode_bound(input: Seq<u8>, pos: int) {
        Name::lemma_spec_decode_bound(input, pos);
        if let Some(np) = Name::spec_decode(input, pos) {
            ExportDescriptor::lemma_spec_decode_bound(input, np.1);
        }
    }
}

} // verus!
