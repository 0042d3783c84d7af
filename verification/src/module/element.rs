use vstd::prelude::*;

use crate::instructions::{Expression, InstructionV};
use crate::module::indices::{FuncIdx, TableIdx};
use crate::module::types::RefType;
use crate::values::{lemma_u32_decode_bounds, Decode};
use crate::DecodeError;

verus! {

/// The kind of the elements of a segment given in index form.  One tag
/// byte, `0x00` for function references.
#[derive(Debug, PartialEq, Eq, Clone, Copy)]
pub enum ElementKind {
    FuncRef,
}

impl DeepView for ElementKind {
    type V = ElementKind;

    open spec fn deep_view(&self) -> ElementKind {
        *self
    }
}

impl Decode for ElementKind {
    open spec fn spec_decode(input: Seq<u8>, pos: int) -> Option<(ElementKind, int)> {
        match u8::spec_decode(input, pos) {
            Some(bp) => if bp.0 == 0x00 {
                Some((ElementKind::FuncRef, bp.1))
            } else {
                None
            },
            None => None,
        }
    }

    fn decode(input: &[u8], pos: usize) -> (r: Result<(Self, usize), DecodeError>) {
        let (b, p) = u8::decode(input, pos)?;
        if b == 0x00 {
            Ok((ElementKind::FuncRef, p))
        } else {
            Err(DecodeError::MalformedEncoding)
        }
    }

    proof fn lemma_spec_decode_bound(input: Seq<u8>, pos: int) {
    }
}

/// The deep view of an element segment.
pub enum ElementV {
    ActiveIndex(Seq<InstructionV>, Seq<FuncIdx>),
    PassiveIndex(ElementKind, Seq<FuncIdx>),
    ActiveExplicitIndex(TableIdx, Seq<InstructionV>, ElementKind, Seq<FuncIdx>),
    DeclarativeIndex(ElementKind, Seq<FuncIdx>),
    ActiveExpression(Seq<InstructionV>, Seq<Seq<InstructionV>>),
    PassiveExpression(RefType, Seq<Seq<InstructionV>>),
    ActiveExplicitExpression(TableIdx, Seq<InstructionV>, RefType, Seq<Seq<InstructionV>>),
    DeclarativeExpression(RefType, Seq<Seq<InstructionV>>),
}

/// One entry of the element section.  A leading unsigned flag in the
/// range zero to seven selects among active, passive and declarative
/// segments, with initializers given either as function indices or as
/// full expressions, and with the target table either implicit or
/// explicit.  Active variants carry the offset expression; any other flag
/// value is a malformed encoding.
#[derive(Debug, PartialEq, Eq)]
pub enum Element {
    ActiveIndex(Expression, Vec<FuncIdx>),
    PassiveIndex(ElementKind, Vec<FuncIdx>),
    ActiveExplicitIndex(TableIdx, Expression, ElementKind, Vec<FuncIdx>),
    DeclarativeIndex(ElementKind, Vec<FuncIdx>),
    ActiveExpression(Expression, Vec<Expression>),
    PassiveExpression(RefType, Vec<Expression>),
    ActiveExplicitExpression(TableIdx, Expression, RefType, Vec<Expression>),
    DeclarativeExpression(RefType, Vec<Expression>),
}

impl DeepView for Element {
    type V = ElementV;

    open spec fn deep_view(&self) -> ElementV {
        match self {
            Element::ActiveIndex(e, fs) => ElementV::ActiveIndex(e.deep_view(), fs.deep_view()),
            Element::PassiveIndex(k, fs) => ElementV::PassiveIndex(k.deep_view(), fs.deep_view()),
            Element::ActiveExplicitIndex(t, e, k, fs) => ElementV::ActiveExplicitIndex(
                *t,
                e.deep_view(),
                k.deep_view(),
                fs.deep_view(),
            ),
            Element::DeclarativeIndex(k, fs) => ElementV::DeclarativeIndex(
                k.deep_view(),
                fs.deep_view(),
            ),
            Element::ActiveExpression(e, es) => ElementV::ActiveExpression(
                e.deep_view(),
                es.deep_view(),
            ),
            Element::PassiveExpression(t, es) => ElementV::PassiveExpression(
                t.deep_view(),
                es.deep_view(),
            ),
            Element::ActiveExplicitExpression(t, e, rt, es) => ElementV::ActiveExplicitExpression(
                *t,
                e.deep_view(),
                rt.deep_view(),
                es.deep_view(),
            ),
            Element::DeclarativeExpression(t, es) => ElementV::DeclarativeExpression(
                t.deep_view(),
                es.deep_view(),
            ),
        }
    }
}

impl Decode for Element {
    open spec fn spec_decode(input: Seq<u8>, pos: int) -> Option<(ElementV, int)> {
        match u32::spec_decode(input, pos) {
            Some(fp) => if fp.0 == 0 {
                match Expression::spec_decode(input, fp.1) {
                    Some(ep) => match <Vec<FuncIdx> as Decode>::spec_decode(input, ep.1) {
                        Some(vp) => Some((ElementV::ActiveIndex(ep.0, vp.0), vp.1)),
                        None => None,
                    },
                    None => None,
                }
            } else if fp.0 == 1 {
                match ElementKind::spec_decode(input, fp.1) {
                    Some(kp) => match <Vec<FuncIdx> as Decode>::spec_decode(input, kp.1) {
                        Some(vp) => Some((ElementV::PassiveIndex(kp.0, vp.0), vp.1)),
                        None => None,
                    },
                    None => None,
                }
            } else if fp.0 == 2 {
                match u32::spec_decode(input, fp.1) {
                    Some(tp) => match Expression::spec_decode(input, tp.1) {
                        Some(ep) => match ElementKind::spec_decode(input, ep.1) {
                            Some(kp) => match <Vec<FuncIdx> as Decode>::spec_decode(input, kp.1) {
                                Some(vp) => Some(
                                    (ElementV::ActiveExplicitIndex(tp.0, ep.0, kp.0, vp.0), vp.1),
                                ),
                                None => None,
                            },
                            None => None,
                        },
                        None => None,
                    },
                    None => None,
                }
            } else if fp.0 == 3 {
                match ElementKind::spec_decode(input, fp.1) {
                    Some(kp) => match <Vec<FuncIdx> as Decode>::spec_decode(input, kp.1) {
                        Some(vp) => Some((ElementV::DeclarativeIndex(kp.0, vp.0), vp.1)),
                        None => None,
                    },
                    None => None,
                }
            } else if fp.0 == 4 {
                match Expression::spec_decode(input, fp.1) {
                    Some(ep) => match <Vec<Expression> as Decode>::spec_decode(input, ep.1) {
                        Some(vp) => Some((ElementV::ActiveExpression(ep.0, vp.0), vp.1)),
                        None => None,
                    },
                    None => None,
                }
            } else if fp.0 == 5 {
                match RefType::spec_decode(input, fp.1) {
                    Some(tp) => match <Vec<Expression> as Decode>::spec_decode(input, tp.1) {
                        Some(vp) => Some((ElementV::PassiveExpression(tp.0, vp.0), vp.1)),
                        None => None,
                    },
                    None => None,
                }
            } else if fp.0 == 6 {
                match u32::spec_decode(input, fp.1) {
                    Some(tp) => match Expression::spec_decode(input, tp.1) {
                        Some(ep) => match RefType::spec_decode(input, ep.1) {
                            Some(rp) => match <Vec<Expression> as Decode>::spec_decode(
                                input,
                                rp.1,
                            ) {
                                Some(vp) => Some(
                                    (
                                        ElementV::ActiveExplicitExpression(
                                            tp.0,
                                            ep.0,
                                            rp.0,
                                            vp.0,
                                        ),
                                        vp.1,
                                    ),
                                ),
                                None => None,
                            },
                            None => None,
                        },
                        None => None,
                    },
                    None => None,
                }
            } else if fp.0 == 7 {
                match RefType::spec_decode(input, fp.1) {
                    Some(tp) => match <Vec<Expression> as Decode>::spec_decode(input, tp.1) {
                        Some(vp) => Some((ElementV::DeclarativeExpression(tp.0, vp.0), vp.1)),
                        None => None,
                    },
                    None => None,
                }
            } else {
                None
            },
            None => None,
        }
    }

    fn decode(input: &[u8], pos: usize) -> (r: Result<(Self, usize), DecodeError>) {
        let (flag, p) = u32::decode(input, pos)?;
        if flag == 0 {
            let (e, p1) = Expression::decode(input, p)?;
            let (fs, p2) = <Vec<FuncIdx> as Decode>::decode(input, p1)?;
            Ok((Element::ActiveIndex(e, fs), p2))
        } else if flag == 1 {
            let (k, p1) = ElementKind::decode(input, p)?;
            let (fs, p2) = <Vec<FuncIdx> as Decode>::decode(input, p1)?;
            Ok((Element::PassiveIndex(k, fs), p2))
        } else if flag == 2 {
            let (t, p1) = u32::decode(input, p)?;
            let (e, p2) = Expression::decode(input, p1)?;
            let (k, p3) = ElementKind::decode(input, p2)?;
            let (fs, p4) = <Vec<FuncIdx> as Decode>::decode(input, p3)?;
            Ok((Element::ActiveExplicitIndex(t, e, k, fs), p4))
        } else if flag == 3 {
            let (k, p1) = ElementKind::decode(input, p)?;
            let (fs, p2) = <Vec<FuncIdx> as Decode>::decode(input, p1)?;
            Ok((Element::DeclarativeIndex(k, fs), p2))
        } else if flag == 4 {
            let (e, p1) = Expression::decode(input, p)?;
            let (es, p2) = <Vec<Expression> as Decode>::decode(input, p1)?;
            Ok((Element::ActiveExpression(e, es), p2))
        } else if flag == 5 {
            let (t, p1) = RefType::decode(input, p)?;
            let (es, p2) = <Vec<Expression> as Decode>::decode(input, p1)?;
            Ok((Element::PassiveExpression(t, es), p2))
        } else if flag == 6 {
            let (t, p1) = u32::decode(input, p)?;
            let (e, p2) = Expression::decode(input, p1)?;
            let (rt, p3) = RefType::decode(input, p2)?;
            let (es, p4) = <Vec<Expression> as Decode>::decode(input, p3)?;
            Ok((Element::ActiveExplicitExpression(t, e, rt, es), p4))
        } else if flag == 7 {
            let (t, p1) = RefType::decode(input, p)?;
            let (es, p2) = <Vec<Expression> as Decode>::decode(input, p1)?;
            Ok((Element::DeclarativeExpression(t, es), p2))
        } else {
            Err(DecodeError::MalformedEncoding)
        }
    }

    proof fn lemma_spec_decode_bound(input: Seq<u8>, pos: int) {
        lemma_u32_decode_bounds(input, pos);
        if let Some(fp) = u32::spec_decode(input, pos) {
            Expression::lemma_spec_decode_bound(input, fp.1);
            ElementKind::lemma_spec_decode_bound(input, fp.1);
            RefType::lemma_spec_decode_bound(input, fp.1);
            lemma_u32_decode_bounds(input, fp.1);
            if let Some(ep) = Expression::spec_decode(input, fp.1) {
                <Vec<FuncIdx> as Decode>::lemma_spec_decode_bound(input, ep.1);
                <Vec<Expression> as Decode>::lemma_spec_decode_bound(input, ep.1);
            }
            if let Some(kp) = ElementKind::spec_decode(input, fp.1) {
                <Vec<FuncIdx> as Decode>::lemma_spec_decode_bound(input, kp.1);
            }
            if let Some(rp) = RefType::spec_decode(input, fp.1) {
                <Vec<Expression> as Decode>::lemma_spec_decode_bound(input, rp.1);
            }
            if let Some(tp) = u32::spec_decode(input, fp.1) {
                Expression::lemma_spec_decode_bound(input, tp.1);
                if let Some(ep) = Expression::spec_decode(input, tp.1) {
                    ElementKind::lemma_spec_decode_bound(input, ep.1);
                    RefType::lemma_spec_decode_bound(input, ep.1);
                    if let Some(kp) = ElementKind::spec_decode(input, ep.1) {
                        <Vec<FuncIdx> as Decode>::lemma_spec_decode_bound(input, kp.1);
                    }
                    if let Some(rp) = RefType::spec_decode(input, ep.1) {
                        <Vec<Expression> as Decode>::lemma_spec_decode_bound(input, rp.1);
                    }
                }
            }
        }
    }
}

} // verus!
