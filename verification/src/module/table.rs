use vstd::prelude::*;

use crate::module::types::TableType;
use crate::values::Decode;
use crate::DecodeError;

verus! {

/// One entry of the table section: the table's type.
#[derive(Debug, PartialEq, Eq, Clone, Copy)]
pub struct Table {
    pub tt: TableType,
}

impl DeepView for Table {
    type V = Table;

    open spec fn deep_view(&self) -> Table {
        *self
    }
}

impl Decode for Table {
    open spec fn spec_decode(input: Seq<u8>, pos: int) -> Option<(Table, int)> {
        match TableType::spec_decode(input, pos) {
            Some(tp) => Some((Table { tt: tp.0 }, tp.1)),
            None => None,
        }
    }

    fn decode(input: &[u8], pos: usize) -> (r: Result<(Self, usize), DecodeError>) {
        let (tt, p) = TableType::decode(input, pos)?;
        Ok((Table { tt }, p))
    }

    proof fn lemma_spec_decode_bound(input: Seq<u8>, pos: int) {
        TableType::lemma_spec_decode_bound(input, pos);
    }
}

} // verus!
