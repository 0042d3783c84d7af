use vstd::prelude::*;

use crate::instructions::{Expression, InstructionV};
use crate::module::types::ValType;
use crate::values::{lemma_u32_decode_bounds, Decode};
use crate::DecodeError;

verus! {

/// A run of consecutive locals of one value type inside a function body:
/// a run length, then the type.
#[derive(Debug, PartialEq, Eq, Clone, Copy)]
pub struct Local {
    pub count: u32,
    pub value_type: ValType,
}

impl DeepView for Local {
    type V = Local;

    open spec fn deep_view(&self) -> Local {
        *self
    }
}

impl Decode for Local {
    open spec fn spec_decode(input: Seq<u8>, pos: int) -> Option<(Local, int)> {
        match u32::spec_decode(input, pos) {
            Some(cp) => match ValType::spec_decode(input, cp.1) {
                Some(tp) => Some((Local { count: cp.0, value_type: tp.0 }, tp.1)),
                None => None,
            },
            None => None,
        }
    }

    fn decode(input: &[u8], pos: usize) -> (r: Result<(Self, usize), DecodeError>) {
        let (count, p0) = u32::decode(input, pos)?;
        let (value_type, p1) = ValType::decode(input, p0)?;
        Ok((Local { count, value_type }, p1))
    }

    proof fn lemma_spec_decode_bound(input: Seq<u8>, pos: int) {
        lemma_u32_decode_bounds(input, pos);
    }
}

/// The deep view of a function body: its local declarations, then its
/// instructions.
pub struct FuncV {
    pub locals: Seq<Local>,
    pub body: Seq<InstructionV>,
}

/// The contents of one code entry: the local declarations, then the body
/// expression.
#[derive(Debug, PartialEq, Eq, Clone)]
pub struct Func {
    pub locals: Vec<Local>,
    pub body: Expression,
}

impl DeepView for Func {
    type V = FuncV;

    open spec fn deep_view(&self) -> FuncV {
        FuncV { locals: self.locals.deep_view(), body: self.body.deep_view() }
    }
}

impl Decode for Func {
    open spec fn spec_decode(input: Seq<u8>, pos: int) -> Option<(FuncV, int)> {
        match <Vec<Local> as Decode>::spec_decode(input, pos) {
            Some(lp) => match Expression::spec_decode(input, lp.1) {
                Some(bp) => Some((FuncV { locals: lp.0, body: bp.0 }, bp.1)),
                None => None,
            },
            None => None,
        }
    }

    fn decode(input: &[u8], pos: usize) -> (r: Result<(Self, usize), DecodeError>) {
        let (locals, p0) = <Vec<Local> as Decode>::decode(input, pos)?;
        let (body, p1) = Expression::decode(input, p0)?;
        Ok((Func { locals, body }, p1))
    }

    proof fn lemma_spec_decode_bound(input: Seq<u8>, pos: int) {
        <Vec<Local> as Decode>::lemma_spec_decode_bound(input, pos);
        if let Some(lp) = <Vec<Local> as Decode>::spec_decode(input, pos) {
            Expression::lemma_spec_decode_bound(input, lp.1);
        }
    }
}

/// The deep view of a code entry.
pub struct CodeV {
    pub size: u32,
    pub code: FuncV,
}

/// One entry of the code section: a declared byte size, then the function
/// it frames.  The declared size must equal the number of bytes the
/// function actually occupies; a mismatch is a malformed encoding.
#[derive(Debug, PartialEq, Eq, Clone)]
pub struct Code {
    pub size: u32,
    pub code: Func,
}

impl DeepView for Code {
    type V = CodeV;

    open spec fn deep_view(&self) -> CodeV {
        CodeV { size: self.size, code: self.code.deep_view() }
    }
}

impl Decode for Code {
    open spec fn spec_decode(input: Seq<u8>, pos: int) -> Option<(CodeV, int)> {
        match u32::spec_decode(input, pos) {
            Some(sp) => match Func::spec_decode(input, sp.1) {
                Some(fp) => if fp.1 - sp.1 == sp.0 {
                    Some((CodeV { size: sp.0, code: fp.0 }, fp.1))
                } else {
                    None
                },
                None => None,
            },
            None => None,
        }
    }

    fn decode(input: &[u8], pos: usize) -> (r: Result<(Self, usize), DecodeError>) {
        let (size, p0) = u32::decode(input, pos)?;
        let (code, p1) = Func::decode(input, p0)?;
        if p1 - p0 == size as usize {
            Ok((Code { size, code }, p1))
        } else {
            Err(DecodeError::MalformedEncoding)
        }
    }

    proof fn lemma_spec_decode_bound(input: Seq<u8>, pos: int) {
        lemma_u32_decode_bounds(input, pos);
        if let Some(sp) = u32::spec_decode(input, pos) {
            Func::lemma_spec_decode_bound(input, sp.1);
        }
    }
}

} // verus!
