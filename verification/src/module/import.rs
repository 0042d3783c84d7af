use vstd::prelude::*;

use crate::module::indices::TypeIdx;
use crate::module::types::{GlobalType, MemType, TableType};
use crate::values::{lemma_u32_decode_bounds, Decode, Name};
use crate::DecodeError;

verus! {

/// What an import requires of the host environment: a function given by
/// its type index, or a full table, memory or global descriptor.  Tag
/// byte `0x00` function, `0x01` table, `0x02` memory, `0x03` global.
#[derive(Debug, PartialEq, Eq, Clone, Copy)]
pub enum ImportDescriptor {
    Func(TypeIdx),
    Table(TableType),
    Mem(MemType),
    Global(GlobalType),
}

impl DeepView for ImportDescriptor {
    type V = ImportDescriptor;

    open spec fn deep_view(&self) -> ImportDescriptor {
        *self
    }
}

impl Decode for ImportDescriptor {
    open spec fn spec_decode(input: Seq<u8>, pos: int) -> Option<(ImportDescriptor, int)> {
        match u8::spec_decode(input, pos) {
            Some(bp) => if bp.0 == 0x00 {
                match u32::spec_decode(input, bp.1) {
                    Some(ip) => Some((ImportDescriptor::Func(ip.0), ip.1)),
                    None => None,
                }
            } else if bp.0 == 0x01 {
                match TableType::spec_decode(input, bp.1) {
                    Some(tp) => Some((ImportDescriptor::Table(tp.0), tp.1)),
                    None => None,
                }
            } else if bp.0 == 0x02 {
                match MemType::spec_decode(input, bp.1) {
                    Some(mp) => Some((ImportDescriptor::Mem(mp.0), mp.1)),
                    None => None,
                }
            } else if bp.0 == 0x03 {
                match GlobalType::spec_decode(input, bp.1) {
                    Some(gp) => Some((ImportDescriptor::Global(gp.0), gp.1)),
                    None => None,
                }
            } else {
                None
            },
            None => None,
        }
    }

    fn decode(input: &[u8], pos: usize) -> (r: Result<(Self, usize), DecodeError>) {
        let (b, p) = u8::decode(input, pos)?;
        if b == 0x00 {
            let (i, p1) = u32::decode(input, p)?;
            Ok((ImportDescriptor::Func(i), p1))
        } else if b == 0x01 {
            let (t, p1) = TableType::decode(input, p)?;
            Ok((ImportDescriptor::Table(t), p1))
        } else if b == 0x02 {
            let (m, p1) = MemType::decode(input, p)?;
            Ok((ImportDescriptor::Mem(m), p1))
        } else if b == 0x03 {
            let (g, p1) = GlobalType::decode(input, p)?;
            Ok((ImportDescriptor::Global(g), p1))
        } else {
            Err(DecodeError::MalformedEncoding)
        }
    }

    proof fn lemma_spec_decode_bound(input: Seq<u8>, pos: int) {
        if let Some(bp) = u8::spec_decode(input, pos) {
            lemma_u32_decode_bounds(input, bp.1);
            TableType::lemma_spec_decode_bound(input, bp.1);
            MemType::lemma_spec_decode_bound(input, bp.1);
            GlobalType::lemma_spec_decode_bound(input, bp.1);
        }
    }
}

/// The deep view of an import: the module and entity names as byte
/// sequences, and the descriptor.
pub struct ImportV {
    pub module: Seq<u8>,
    pub name: Seq<u8>,
    pub descriptor: ImportDescriptor,
}

/// One entry of the import section: the providing module's name, the
/// imported entity's name, then the descriptor of what is required.
#[derive(Debug, PartialEq, Eq)]
pub struct Import {
    pub module: Name,
    pub name: Name,
    pub descriptor: ImportDescriptor,
}

impl DeepView for Import {
    type V = ImportV;

    open spec fn deep_view(&self) -> ImportV {
        ImportV {
            module: self.module.deep_view(),
            name: self.name.deep_view(),
            descriptor: self.descriptor.deep_view(),
        }
    }
}

impl Decode for Import {
    open spec fn spec_decode(input: Seq<u8>, pos: int) -> Option<(ImportV, int)> {
        match Name::spec_decode(input, pos) {
            Some(mp) => match Name::spec_decode(input, mp.1) {
                Some(np) => match ImportDescriptor::spec_decode(input, np.1) {
                    Some(dp) => Some(
                        (ImportV { module: mp.0, name: np.0, descriptor: dp.0 }, dp.1),
                    ),
                    None => None,
                },
                None => None,
            },
            None => None,
        }
    }

    fn decode(input: &[u8], pos: usize) -> (r: Result<(Self, usize), DecodeError>) {
        let (module, p0) = Name::decode(input, pos)?;
        let (name, p1) = Name::decode(input, p0)?;
        let (descriptor, p2) = ImportDescriptor::decode(input, p1)?;
        Ok((Import { module, name, descriptor }, p2))
    }

    proof fn lemma_spec_decode_bound(input: Seq<u8>, pos: int) {
        Name::lemma_spec_decode_bound(input, pos);
        if let Some(mp) = Name::spec_decode(input, pos) {
            Name::lemma_spec_decode_bound(input, mp.1);
            if let Some(np) = Name::spec_decode(input, mp.1) {
                ImportDescriptor::lemma_spec_decode_bound(input, np.1);
            }
        }
    }
}

} // verus!
