use vstd::prelude::*;

use crate::values::Decode;
use crate::DecodeError;

verus! {

/// Classifies numeric values.  One tag byte, no payload.
#[derive(Debug, PartialEq, Eq, Clone, Copy)]
pub enum NumType {
    I32,
    I64,
    F32,
    F64,
}

impl DeepView for NumType {
    type V = NumType;

    open spec fn deep_view(&self) -> NumType {
        *self
    }
}

impl Decode for NumType {
    open spec fn spec_decode(input: Seq<u8>, pos: int) -> Option<(NumType, int)> {
        match u8::spec_decode(input, pos) {
            Some(bp) => if bp.0 == 0x7F {
                Some((NumType::I32, bp.1))
            } else if bp.0 == 0x7E {
                Some((NumType::I64, bp.1))
            } else if bp.0 == 0x7D {
                Some((NumType::F32, bp.1))
            } else if bp.0 == 0x7C {
                Some((NumType::F64, bp.1))
            } else {
                None
            },
            None => None,
        }
    }

    fn decode(input: &[u8], pos: usize) -> (r: Result<(Self, usize), DecodeError>) {
        let (b, p) = u8::decode(input, pos)?;
        if b == 0x7F {
            Ok((NumType::I32, p))
        } else if b == 0x7E {
            Ok((NumType::I64, p))
        } else if b == 0x7D {
            Ok((NumType::F32, p))
        } else if b == 0x7C {
            Ok((NumType::F64, p))
        } else {
            Err(DecodeError::MalformedEncoding)
        }
    }

    proof fn lemma_spec_decode_bound(input: Seq<u8>, pos: int) {
    }
}

/// Classifies vectors of numeric values processed by vector instructions.
/// One tag byte, no payload.
#[derive(Debug, PartialEq, Eq, Clone, Copy)]
pub enum VecType {
    V128,
}

impl DeepView for VecType {
    type V = VecType;

    open spec fn deep_view(&self) -> VecType {
        *self
    }
}

impl Decode for VecType {
    open spec fn spec_decode(input: Seq<u8>, pos: int) -> Option<(VecType, int)> {
        match u8::spec_decode(input, pos) {
            Some(bp) => if bp.0 == 0x7B {
                Some((VecType::V128, bp.1))
            } else {
                None
            },
            None => None,
        }
    }

    fn decode(input: &[u8], pos: usize) -> (r: Result<(Self, usize), DecodeError>) {
        let (b, p) = u8::decode(input, pos)?;
        if b == 0x7B {
            Ok((VecType::V128, p))
        } else {
            Err(DecodeError::MalformedEncoding)
        }
    }

    proof fn lemma_spec_decode_bound(input: Seq<u8>, pos: int) {
    }
}

/// Classifies first-class references to objects in the runtime store.
/// One tag byte, no payload.
#[derive(Debug, PartialEq, Eq, Clone, Copy)]
pub enum RefType {
    FuncRef,
    ExternRef,
}

impl DeepView for RefType {
    type V = RefType;

    open spec fn deep_view(&self) -> RefType {
        *self
    }
}

impl Decode for RefType {
    open spec fn spec_decode(input: Seq<u8>, pos: int) -> Option<(RefType, int)> {
        match u8::spec_decode(input, pos) {
            Some(bp) => if bp.0 == 0x70 {
                Some((RefType::FuncRef, bp.1))
            } else if bp.0 == 0x6F {
                Some((RefType::ExternRef, bp.1))
            } else {
                None
            },
            None => None,
        }
    }

    fn decode(input: &[u8], pos: usize) -> (r: Result<(Self, usize), DecodeError>) {
        let (b, p) = u8::decode(input, pos)?;
        if b == 0x70 {
            Ok((RefType::FuncRef, p))
        } else if b == 0x6F {
            Ok((RefType::ExternRef, p))
        } else {
            Err(DecodeError::MalformedEncoding)
        }
    }

    proof fn lemma_spec_decode_bound(input: Seq<u8>, pos: int) {
    }
}

/// Classifies the individual values that code computes with: a number
/// type, a vector type or a reference type, recognized in that order.
#[derive(Debug, PartialEq, Eq, Clone, Copy)]
pub enum ValType {
    NumType(NumType),
    VecType(VecType),
    RefType(RefType),
}

impl DeepView for ValType {
    type V = ValType;

    open spec fn deep_view(&self) -> ValType {
        *self
    }
}

impl Decode for ValType {
    open spec fn spec_decode(input: Seq<u8>, pos: int) -> Option<(ValType, int)> {
        match NumType::spec_decode(input, pos) {
            Some(vp) => Some((ValType::NumType(vp.0), vp.1)),
            None => match VecType::spec_decode(input, pos) {
                Some(vp) => Some((ValType::VecType(vp.0), vp.1)),
                None => match RefType::spec_decode(input, pos) {
                    Some(vp) => Some((ValType::RefType(vp.0), vp.1)),
                    None => None,
                },
            },
        }
    }

    fn decode(input: &[u8], pos: usize) -> (r: Result<(Self, usize), DecodeError>) {
        match NumType::decode(input, pos) {
            Ok(vp) => Ok((ValType::NumType(vp.0), vp.1)),
            Err(_) => match VecType::decode(input, pos) {
                Ok(vp) => Ok((ValType::VecType(vp.0), vp.1)),
                Err(_) => match RefType::decode(input, pos) {
                    Ok(vp) => Ok((ValType::RefType(vp.0), vp.1)),
                    Err(e) => Err(e),
                },
            },
        }
    }

    proof fn lemma_spec_decode_bound(input: Seq<u8>, pos: int) {
    }
}

/// Classifies the result of executing instructions or functions: a
/// sequence of value types.
pub type ResultType = Vec<ValType>;

/// The deep view of a function signature: parameter types, then result
/// types.
pub struct FuncTypeV {
    pub rt1: Seq<ValType>,
    pub rt2: Seq<ValType>,
}

/// Classifies the signature of functions, mapping a vector of parameters
/// to a vector of results.  Tag byte `0x60`, then the two result types.
#[derive(Debug, PartialEq, Eq, Clone)]
pub struct FuncType {
    pub rt1: ResultType,
    pub rt2: ResultType,
}

impl DeepView for FuncType {
    type V = FuncTypeV;

    open spec fn deep_view(&self) -> FuncTypeV {
        FuncTypeV { rt1: self.rt1.deep_view(), rt2: self.rt2.deep_view() }
    }
}

impl Decode for FuncType {
    open spec fn spec_decode(input: Seq<u8>, pos: int) -> Option<(FuncTypeV, int)> {
        match u8::spec_decode(input, pos) {
            Some(bp) => if bp.0 == 0x60 {
                match <Vec<ValType> as Decode>::spec_decode(input, bp.1) {
                    Some(rp1) => match <Vec<ValType> as Decode>::spec_decode(input, rp1.1) {
                        Some(rp2) => Some((FuncTypeV { rt1: rp1.0, rt2: rp2.0 }, rp2.1)),
                        None => None,
                    },
                    None => None,
                }
            } else {
                None
            },
            None => None,
        }
    }

    fn decode(input: &[u8], pos: usize) -> (r: Result<(Self, usize), DecodeError>) {
        let (b, p0) = u8::decode(input, pos)?;
        if b != 0x60 {
            return Err(DecodeError::MalformedEncoding);
        }
        let (rt1, p1) = <Vec<ValType> as Decode>::decode(input, p0)?;
        let (rt2, p2) = <Vec<ValType> as Decode>::decode(input, p1)?;
        Ok((FuncType { rt1, rt2 }, p2))
    }

    proof fn lemma_spec_decode_bound(input: Seq<u8>, pos: int) {
        if let Some(bp) = u8::spec_decode(input, pos) {
            if bp.0 == 0x60 {
                <Vec<ValType> as Decode>::lemma_spec_decode_bound(input, bp.1);
                if let Some(rp1) = <Vec<ValType> as Decode>::spec_decode(input, bp.1) {
                    <Vec<ValType> as Decode>::lemma_spec_decode_bound(input, rp1.1);
                }
            }
        }
    }
}

/// Classifies the size range of resizable storage: a required minimum and
/// an optional maximum.  Flag byte `0x00` for min only, `0x01` for min
/// and max.
#[derive(Debug, PartialEq, Eq, Clone, Copy)]
pub struct Limits {
    pub min: u32,
    pub max: Option<u32>,
}

impl DeepView for Limits {
    type V = Limits;

    open spec fn deep_view(&self) -> Limits {
        *self
    }
}

impl Decode for Limits {
    open spec fn spec_decode(input: Seq<u8>, pos: int) -> Option<(Limits, int)> {
        match u8::spec_decode(input, pos) {
            Some(bp) => if bp.0 == 0x00 {
                match u32::spec_decode(input, bp.1) {
                    Some(mp) => Some((Limits { min: mp.0, max: None }, mp.1)),
                    None => None,
                }
            } else if bp.0 == 0x01 {
                match u32::spec_decode(input, bp.1) {
                    Some(mp) => match u32::spec_decode(input, mp.1) {
                        Some(xp) => Some((Limits { min: mp.0, max: Some(xp.0) }, xp.1)),
                        None => None,
                    },
                    None => None,
                }
            } else {
                None
            },
            None => None,
        }
    }

    fn decode(input: &[u8], pos: usize) -> (r: Result<(Self, usize), DecodeError>) {
        let (b, p0) = u8::decode(input, pos)?;
        if b == 0x00 {
            let (min, p1) = u32::decode(input, p0)?;
            Ok((Limits { min, max: None }, p1))
        } else if b == 0x01 {
            let (min, p1) = u32::decode(input, p0)?;
            let (max, p2) = u32::decode(input, p1)?;
            Ok((Limits { min, max: Some(max) }, p2))
        } else {
            Err(DecodeError::MalformedEncoding)
        }
    }

    proof fn lemma_spec_decode_bound(input: Seq<u8>, pos: int) {
        if let Some(bp) = u8::spec_decode(input, pos) {
            crate::values::lemma_u32_decode_bounds(input, bp.1);
            if let Some(mp) = u32::spec_decode(input, bp.1) {
                crate::values::lemma_u32_decode_bounds(input, mp.1);
            }
        }
    }
}

/// Classifies linear memories and their size range.
#[derive(Debug, PartialEq, Eq, Clone, Copy)]
pub struct MemType {
    pub lim: Limits,
}

impl DeepView for MemType {
    type V = MemType;

    open spec fn deep_view(&self) -> MemType {
        *self
    }
}

impl Decode for MemType {
    open spec fn spec_decode(input: Seq<u8>, pos: int) -> Option<(MemType, int)> {
        match Limits::spec_decode(input, pos) {
            Some(lp) => Some((MemType { lim: lp.0 }, lp.1)),
            None => None,
        }
    }

    fn decode(input: &[u8], pos: usize) -> (r: Result<(Self, usize), DecodeError>) {
        let (lim, p) = Limits::decode(input, pos)?;
        Ok((MemType { lim }, p))
    }

    proof fn lemma_spec_decode_bound(input: Seq<u8>, pos: int) {
        Limits::lemma_spec_decode_bound(input, pos);
    }
}

/// Classifies tables over elements of reference type within a size range:
/// the element type, then the limits.
#[derive(Debug, PartialEq, Eq, Clone, Copy)]
pub struct TableType {
    pub lim: Limits,
    pub et: RefType,
}

impl DeepView for TableType {
    type V = TableType;

    open spec fn deep_view(&self) -> TableType {
        *self
    }
}

impl Decode for TableType {
    open spec fn spec_decode(input: Seq<u8>, pos: int) -> Option<(TableType, int)> {
        match RefType::spec_decode(input, pos) {
            Some(ep) => match Limits::spec_decode(input, ep.1) {
                Some(lp) => Some((TableType { lim: lp.0, et: ep.0 }, lp.1)),
                None => None,
            },
            None => None,
        }
    }

    fn decode(input: &[u8], pos: usize) -> (r: Result<(Self, usize), DecodeError>) {
        let (et, p0) = RefType::decode(input, pos)?;
        let (lim, p1) = Limits::decode(input, p0)?;
        Ok((TableType { lim, et }, p1))
    }

    proof fn lemma_spec_decode_bound(input: Seq<u8>, pos: int) {
        if let Some(ep) = RefType::spec_decode(input, pos) {
            Limits::lemma_spec_decode_bound(input, ep.1);
        }
    }
}

/// Classifies whether a value may be written after it is defined.  Flag
/// byte `0x00` for constant, `0x01` for mutable.
#[derive(Debug, PartialEq, Eq, Clone, Copy)]
pub enum Mutability {
    Const,
    Var,
}

impl DeepView for Mutability {
    type V = Mutability;

    open spec fn deep_view(&self) -> Mutability {
        *self
    }
}

impl Decode for Mutability {
    open spec fn spec_decode(input: Seq<u8>, pos: int) -> Option<(Mutability, int)> {
        match u8::spec_decode(input, pos) {
            Some(bp) => if bp.0 == 0x00 {
                Some((Mutability::Const, bp.1))
            } else if bp.0 == 0x01 {
                Some((Mutability::Var, bp.1))
            } else {
                None
            },
            None => None,
        }
    }

    fn decode(input: &[u8], pos: usize) -> (r: Result<(Self, usize), DecodeError>) {
        let (b, p) = u8::decode(input, pos)?;
        if b == 0x00 {
            Ok((Mutability::Const, p))
        } else if b == 0x01 {
            Ok((Mutability::Var, p))
        } else {
            Err(DecodeError::MalformedEncoding)
        }
    }

    proof fn lemma_spec_decode_bound(input: Seq<u8>, pos: int) {
    }
}

/// Classifies global variables, which hold a value of one type and are
/// either mutable or immutable: the value type, then the mutability.
#[derive(Debug, PartialEq, Eq, Clone, Copy)]
pub struct GlobalType {
    pub m: Mutability,
    pub t: ValType,
}

impl DeepView for GlobalType {
    type V = GlobalType;

    open spec fn deep_view(&self) -> GlobalType {
        *self
    }
}

impl Decode for GlobalType {
    open spec fn spec_decode(input: Seq<u8>, pos: int) -> Option<(GlobalType, int)> {
        match ValType::spec_decode(input, pos) {
            Some(tp) => match Mutability::spec_decode(input, tp.1) {
                Some(mp) => Some((GlobalType { m: mp.0, t: tp.0 }, mp.1)),
                None => None,
            },
            None => None,
        }
    }

    fn decode(input: &[u8], pos: usize) -> (r: Result<(Self, usize), DecodeError>) {
        let (t, p0) = ValType::decode(input, pos)?;
        let (m, p1) = Mutability::decode(input, p0)?;
        Ok((GlobalType { m, t }, p1))
    }

    proof fn lemma_spec_decode_bound(input: Seq<u8>, pos: int) {
    }
}

} // verus!
