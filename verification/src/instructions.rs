use vstd::prelude::*;

pub mod numeric;
pub mod parametric;
pub mod reference;
pub mod variable;

use crate::values::{lemma_deep_view_push, Decode};
use crate::DecodeError;
use numeric::{NumericInstruction, SaturatingTruncationInstruction};
use parametric::{ParametricInstruction, ParametricInstructionV};
use reference::ReferenceInstruction;
use variable::VariableInstruction;

verus! {

/// One decoded instruction: a closed union over the instruction
/// categories.  Each opcode byte selects exactly one category, and the
/// category decoder then selects exactly one production:
/// `0x1A`..`0x1C` parametric, `0x20`..`0x24` variable, `0x41`..`0xC4`
/// numeric, `0xD0`..`0xD2` reference, and `0xFC` with its sub-opcode the
/// saturating truncations.
#[derive(Debug, PartialEq, Eq, Clone)]
pub enum Instruction {
    Reference(ReferenceInstruction),
    Parametric(ParametricInstruction),
    Variable(VariableInstruction),
    Numeric(NumericInstruction),
    Saturating(SaturatingTruncationInstruction),
}

/// The deep view of an instruction.
pub enum InstructionV {
    Reference(ReferenceInstruction),
    Parametric(ParametricInstructionV),
    Variable(VariableInstruction),
    Numeric(NumericInstruction),
    Saturating(SaturatingTruncationInstruction),
}

impl DeepView for Instruction {
    type V = InstructionV;

    open spec fn deep_view(&self) -> InstructionV {
        match self {
            Instruction::Reference(i) => InstructionV::Reference(i.deep_view()),
            Instruction::Parametric(i) => InstructionV::Parametric(i.deep_view()),
            Instruction::Variable(i) => InstructionV::Variable(i.deep_view()),
            Instruction::Numeric(i) => InstructionV::Numeric(i.deep_view()),
            Instruction::Saturating(i) => InstructionV::Saturating(i.deep_view()),
        }
    }
}

impl Decode for Instruction {
    open spec fn spec_decode(input: Seq<u8>, pos: int) -> Option<(InstructionV, int)> {
        match u8::spec_decode(input, pos) {
            Some(bp) => if 0xD0 <= bp.0 <= 0xD2 {
                match ReferenceInstruction::spec_decode(input, pos) {
                    Some(ip) => Some((InstructionV::Reference(ip.0), ip.1)),
                    None => None,
                }
            } else if 0x1A <= bp.0 <= 0x1C {
                match ParametricInstruction::spec_decode(input, pos) {
                    Some(ip) => Some((InstructionV::Parametric(ip.0), ip.1)),
                    None => None,
                }
            } else if 0x20 <= bp.0 <= 0x24 {
                match VariableInstruction::spec_decode(input, pos) {
                    Some(ip) => Some((InstructionV::Variable(ip.0), ip.1)),
                    None => None,
                }
            } else if 0x41 <= bp.0 <= 0xC4 {
                match NumericInstruction::spec_decode(input, pos) {
                    Some(ip) => Some((InstructionV::Numeric(ip.0), ip.1)),
                    None => None,
                }
            } else if bp.0 == 0xFC {
                match SaturatingTruncationInstruction::spec_decode(input, pos) {
                    Some(ip) => Some((InstructionV::Saturating(ip.0), ip.1)),
                    None => None,
                }
            } else {
                None
            },
            None => None,
        }
    }

    fn decode(input: &[u8], pos: usize) -> (r: Result<(Self, usize), DecodeError>) {
        let (b, _p) = u8::decode(input, pos)?;
        if 0xD0 <= b && b <= 0xD2 {
            let (i, p1) = ReferenceInstruction::decode(input, pos)?;
            Ok((Instruction::Reference(i), p1))
        } else if 0x1A <= b && b <= 0x1C {
            let (i, p1) = ParametricInstruction::decode(input, pos)?;
            Ok((Instruction::Parametric(i), p1))
        } else if 0x20 <= b && b <= 0x24 {
            let (i, p1) = VariableInstruction::decode(input, pos)?;
            Ok((Instruction::Variable(i), p1))
        } else if 0x41 <= b && b <= 0xC4 {
            let (i, p1) = NumericInstruction::decode(input, pos)?;
            Ok((Instruction::Numeric(i), p1))
        } else if b == 0xFC {
            let (i, p1) = SaturatingTruncationInstruction::decode(input, pos)?;
            Ok((Instruction::Saturating(i), p1))
        } else {
            Err(DecodeError::MalformedEncoding)
        }
    }

    proof fn lemma_spec_decode_bound(input: Seq<u8>, pos: int) {
        lemma_instruction_progress(input, pos);
    }
}

/// Every successfully decoded instruction consumes at least its opcode
/// byte and never reads past the end of the input.
pub proof fn lemma_instruction_progress(input: Seq<u8>, pos: int)
    requires
        0 <= pos <= input.len(),
    ensures
        Instruction::spec_decode(input, pos) matches Some(ip) ==> pos < ip.1 <= input.len(),
{
    if let Some(bp) = u8::spec_decode(input, pos) {
        ReferenceInstruction::lemma_spec_decode_bound(input, pos);
        ParametricInstruction::lemma_spec_decode_bound(input, pos);
        VariableInstruction::lemma_spec_decode_bound(input, pos);
        NumericInstruction::lemma_spec_decode_bound(input, pos);
        SaturatingTruncationInstruction::lemma_spec_decode_bound(input, pos);
        crate::values::lemma_u32_decode_bounds(input, pos + 1);
        crate::values::lemma_leb_signed_bound(input, pos + 1, 32);
        crate::values::lemma_leb_signed_bound(input, pos + 1, 64);
        if 0x1C == bp.0 {
            <Vec<crate::module::types::ValType> as Decode>::lemma_spec_decode_bound(
                input,
                pos + 1,
            );
        }
    }
}

/// The instruction sequence of an expression: instructions decoded one
/// after another until the terminator byte `0x0B`, which is consumed but
/// not kept.  The condition that each instruction moves the cursor
/// forward always holds (`lemma_instruction_progress`); stating it in the
/// recursion makes it well founded.
pub open spec fn spec_decode_instr_seq(input: Seq<u8>, pos: int) -> Option<(Seq<InstructionV>, int)>
    decreases input.len() - pos,
{
    if pos < 0 || pos >= input.len() {
        None
    } else if input[pos] == 0x0B {
        Some((Seq::empty(), pos + 1))
    } else {
        match Instruction::spec_decode(input, pos) {
            Some(ip) => if pos < ip.1 <= input.len() {
                match spec_decode_instr_seq(input, ip.1) {
                    Some(rest) => Some((seq![ip.0] + rest.0, rest.1)),
                    None => None,
                }
            } else {
                None
            },
            None => None,
        }
    }
}

/// A successfully decoded instruction sequence consumes at least its
/// terminator and never reads past the end of the input.
pub proof fn lemma_instr_seq_bound(input: Seq<u8>, pos: int)
    ensures
        spec_decode_instr_seq(input, pos) matches Some(sp) ==> pos < sp.1 <= input.len(),
    decreases input.len() - pos,
{
    if 0 <= pos < input.len() && input[pos] != 0x0B {
        if let Some(ip) = Instruction::spec_decode(input, pos) {
            if pos < ip.1 <= input.len() {
                lemma_instr_seq_bound(input, ip.1);
            }
        }
    }
}

/// The byte just before the end of a successfully decoded expression is
/// always the terminator `0x0B`: no expression ends without one.
pub proof fn lemma_expression_terminated(input: Seq<u8>, pos: int)
    ensures
        spec_decode_instr_seq(input, pos) matches Some(sp) ==> {
            &&& pos < sp.1 <= input.len()
            &&& input[sp.1 - 1] == 0x0B
        },
    decreases input.len() - pos,
{
    lemma_instr_seq_bound(input, pos);
    if 0 <= pos < input.len() && input[pos] != 0x0B {
        if let Some(ip) = Instruction::spec_decode(input, pos) {
            if pos < ip.1 <= input.len() {
                lemma_expression_terminated(input, ip.1);
            }
        }
    }
}

/// A sequence of instructions terminated by the sentinel byte `0x0B` in
/// the byte stream; the sentinel is consumed but not stored.  Expressions
/// appear wherever a constant-time initializer is required.  An empty
/// body is legal.
#[derive(Debug, PartialEq, Eq, Clone)]
pub struct Expression(pub Vec<Instruction>);

impl DeepView for Expression {
    type V = Seq<InstructionV>;

    open spec fn deep_view(&self) -> Seq<InstructionV> {
        self.0.deep_view()
    }
}

impl Decode for Expression {
    open spec fn spec_decode(input: Seq<u8>, pos: int) -> Option<(Seq<InstructionV>, int)> {
        spec_decode_instr_seq(input, pos)
    }

    fn decode(input: &[u8], pos: usize) -> (r: Result<(Self, usize), DecodeError>) {
        let mut cur = pos;
        let mut out: Vec<Instruction> = Vec::new();
        while cur < input.len()
            invariant
                pos <= cur <= input@.len(),
                ({
                    let whole = spec_decode_instr_seq(input@, pos as int);
                    match spec_decode_instr_seq(input@, cur as int) {
                        Some(rest) => whole == Some((out.deep_view() + rest.0, rest.1)),
                        None => whole is None,
                    }
                }),
            decreases input@.len() - cur,
        {
            let b = input[cur];
            if b == 0x0B {
                assert(out.deep_view() + Seq::<InstructionV>::empty() =~= out.deep_view());
                return Ok((Expression(out), cur + 1));
            }
            let ip = match Instruction::decode(input, cur) {
                Ok(ip) => ip,
                Err(e) => {
                    return Err(e);
                },
            };
            proof {
                lemma_instruction_progress(input@, cur as int);
            }
            let ghost prev = out;
            out.push(ip.0);
            proof {
                lemma_deep_view_push(prev, out, ip.0);
                if let Some(rest) = spec_decode_instr_seq(input@, ip.1 as int) {
                    assert(prev.deep_view() + (seq![ip.0.deep_view()] + rest.0) =~= out.deep_view()
                        + rest.0);
                }
            }
            cur = ip.1;
        }
        Err(DecodeError::MalformedEncoding)
    }

    proof fn lemma_spec_decode_bound(input: Seq<u8>, pos: int) {
        lemma_instr_seq_bound(input, pos);
    }
}

} // verus!
