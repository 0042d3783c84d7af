use vstd::prelude::*;

use crate::module::code::{Code, CodeV};
use crate::module::data::{Data, DataV};
use crate::module::element::{Element, ElementV};
use crate::module::export::{Export, ExportV};
use crate::module::global::{Global, GlobalV};
use crate::module::import::{Import, ImportV};
use crate::module::indices::{FuncIdx, TypeIdx};
use crate::module::memory::Memory;
use crate::module::table::Table;
use crate::module::types::{FuncType, FuncTypeV};
use crate::values::{lemma_deep_view_push, lemma_u32_decode_bounds, Decode, Name};
use crate::DecodeError;

verus! {

/// Reads exactly `n` raw bytes, with no framing of their own, as the
/// opaque payload of a custom section.
fn read_raw(input: &[u8], pos: usize, n: usize) -> (r: Result<(Vec<u8>, usize), DecodeError>)
    requires
        pos <= input@.len(),
    ensures
        match r {
            Ok(vp) => {
                &&& pos + n <= input@.len()
                &&& vp.1 == pos + n
                &&& vp.0.deep_view() == input@.subrange(pos as int, pos + n)
            },
            Err(e) => {
                &&& pos + n > input@.len()
                &&& e == DecodeError::MalformedEncoding
            },
        },
{
    if n > input.len() - pos {
        return Err(DecodeError::MalformedEncoding);
    }
    let mut out: Vec<u8> = Vec::new();
    let mut j: usize = 0;
    while j < n
        invariant
            pos + n <= input@.len(),
            input@.len() <= usize::MAX,
            j <= n,
            out.deep_view() == input@.subrange(pos as int, pos + j),
        decreases n - j,
    {
        let ghost prev = out;
        out.push(input[pos + j]);
        proof {
            lemma_deep_view_push(prev, out, input@[pos + j]);
            assert(input@.subrange(pos as int, pos + j + 1) =~= input@.subrange(
                pos as int,
                pos + j,
            ).push(input@[pos + j]));
        }
        j = j + 1;
    }
    Ok((out, pos + n))
}

/// The deep view of a section.
pub enum SectionV {
    CustomSection((Seq<u8>, Seq<u8>)),
    TypeSection(Seq<FuncTypeV>),
    ImportSection(Seq<ImportV>),
    FunctionSection(Seq<TypeIdx>),
    TableSection(Seq<Table>),
    MemorySection(Seq<Memory>),
    GlobalSection(Seq<GlobalV>),
    ExportSection(Seq<ExportV>),
    StartSection(Option<FuncIdx>),
    ElementSection(Seq<ElementV>),
    CodeSection(Seq<CodeV>),
    DataSection(Seq<DataV>),
    DataCountSection(Option<u32>),
}

/// One length-framed component of a module: a tag byte giving the
/// section id, an unsigned 32-bit declared byte length, then the
/// section's records.
///
/// The custom section (id 0) is the only one whose internal shape is not
/// statically known: its name is decoded and the rest of the declared
/// length is taken as raw payload, so the byte accounting must be exact,
/// and a declared length shorter than the name is a malformed encoding.
/// Ids 1 to 12 carry the record sequences named below; an id above 12 is
/// a malformed encoding.
#[derive(Debug, PartialEq, Eq)]
pub enum Section {
    /// Intended for debugging or third-party extensions; ignored by
    /// module assembly.
    CustomSection((Name, Vec<u8>)),
    /// The function signatures found in the module.
    TypeSection(Vec<FuncType>),
    /// Imports required for instantiation.
    ImportSection(Vec<Import>),
    /// The signature, by type index, of each function of the module.
    FunctionSection(Vec<TypeIdx>),
    /// Tables for indirection.
    TableSection(Vec<Table>),
    /// Linear memories.
    MemorySection(Vec<Memory>),
    /// Globally accessible variables.
    GlobalSection(Vec<Global>),
    /// Exports accessible to the host environment.
    ExportSection(Vec<Export>),
    /// The index of a start function invoked automatically.
    StartSection(Option<FuncIdx>),
    /// Element segments that initialize tables.
    ElementSection(Vec<Element>),
    /// The bodies of the module's functions.
    CodeSection(Vec<Code>),
    /// Data segments that initialize memories.
    DataSection(Vec<Data>),
    /// The declared number of data segments.
    DataCountSection(Option<u32>),
}

impl DeepView for Section {
    type V = SectionV;

    open spec fn deep_view(&self) -> SectionV {
        match self {
            Section::CustomSection(t) => SectionV::CustomSection(
                (t.0.deep_view(), t.1.deep_view()),
            ),
            Section::TypeSection(v) => SectionV::TypeSection(v.deep_view()),
            Section::ImportSection(v) => SectionV::ImportSection(v.deep_view()),
            Section::FunctionSection(v) => SectionV::FunctionSection(v.deep_view()),
            Section::TableSection(v) => SectionV::TableSection(v.deep_view()),
            Section::MemorySection(v) => SectionV::MemorySection(v.deep_view()),
            Section::GlobalSection(v) => SectionV::GlobalSection(v.deep_view()),
            Section::ExportSection(v) => SectionV::ExportSection(v.deep_view()),
            Section::StartSection(v) => SectionV::StartSection(v.deep_view()),
            Section::ElementSection(v) => SectionV::ElementSection(v.deep_view()),
            Section::CodeSection(v) => SectionV::CodeSection(v.deep_view()),
            Section::DataSection(v) => SectionV::DataSection(v.deep_view()),
            Section::DataCountSection(v) => SectionV::DataCountSection(v.deep_view()),
        }
    }
}

impl Decode for Section {
    open spec fn spec_decode(input: Seq<u8>, pos: int) -> Option<(SectionV, int)> {
        match u8::spec_decode(input, pos) {
            Some(idp) => match u32::spec_decode(input, idp.1) {
                Some(szp) => if idp.0 == 0 {
                    match Name::spec_decode(input, szp.1) {
                        Some(np) => if np.1 - szp.1 <= szp.0 && szp.1 + szp.0 <= input.len() {
                            Some(
                                (
                                    SectionV::CustomSection(
                                        (np.0, input.subrange(np.1, szp.1 + szp.0)),
                                    ),
                                    szp.1 + szp.0,
                                ),
                            )
                        } else {
                            None
                        },
                        None => None,
                    }
                } else if idp.0 == 1 {
                    match <Vec<FuncType> as Decode>::spec_decode(input, szp.1) {
                        Some(vp) => Some((SectionV::TypeSection(vp.0), vp.1)),
                        None => None,
                    }
                } else if idp.0 == 2 {
                    match <Vec<Import> as Decode>::spec_decode(input, szp.1) {
                        Some(vp) => Some((SectionV::ImportSection(vp.0), vp.1)),
                        None => None,
                    }
                } else if idp.0 == 3 {
                    match <Vec<TypeIdx> as Decode>::spec_decode(input, szp.1) {
                        Some(vp) => Some((SectionV::FunctionSection(vp.0), vp.1)),
                        None => None,
                    }
                } else if idp.0 == 4 {
                    match <Vec<Table> as Decode>::spec_decode(input, szp.1) {
                        Some(vp) => Some((SectionV::TableSection(vp.0), vp.1)),
                        None => None,
                    }
                } else if idp.0 == 5 {
                    match <Vec<Memory> as Decode>::spec_decode(input, szp.1) {
                        Some(vp) => Some((SectionV::MemorySection(vp.0), vp.1)),
                        None => None,
                    }
                } else if idp.0 == 6 {
                    match <Vec<Global> as Decode>::spec_decode(input, szp.1) {
                        Some(vp) => Some((SectionV::GlobalSection(vp.0), vp.1)),
                        None => None,
                    }
                } else if idp.0 == 7 {
                    match <Vec<Export> as Decode>::spec_decode(input, szp.1) {
                        Some(vp) => Some((SectionV::ExportSection(vp.0), vp.1)),
                        None => None,
                    }
                } else if idp.0 == 8 {
                    match <Option<FuncIdx> as Decode>::spec_decode(input, szp.1) {
                        Some(vp) => Some((SectionV::StartSection(vp.0), vp.1)),
                        None => None,
                    }
                } else if idp.0 == 9 {
                    match <Vec<Element> as Decode>::spec_decode(input, szp.1) {
                        Some(vp) => Some((SectionV::ElementSection(vp.0), vp.1)),
                        None => None,
                    }
                } else if idp.0 == 10 {
                    match <Vec<Code> as Decode>::spec_decode(input, szp.1) {
                        Some(vp) => Some((SectionV::CodeSection(vp.0), vp.1)),
                        None => None,
                    }
                } else if idp.0 == 11 {
                    match <Vec<Data> as Decode>::spec_decode(input, szp.1) {
                        Some(vp) => Some((SectionV::DataSection(vp.0), vp.1)),
                        None => None,
                    }
                } else if idp.0 == 12 {
                    match <Option<u32> as Decode>::spec_decode(input, szp.1) {
                        Some(vp) => Some((SectionV::DataCountSection(vp.0), vp.1)),
                        None => None,
                    }
                } else {
                    None
                },
                None => None,
            },
            None => None,
        }
    }

    fn decode(input: &[u8], pos: usize) -> (r: Result<(Self, usize), DecodeError>) {
        let (id, p0) = u8::decode(input, pos)?;
        let (size, p) = u32::decode(input, p0)?;
        if id == 0 {
            if size as usize > input.len() - p {
                return Err(DecodeError::MalformedEncoding);
            }
            let (name, pn) = Name::decode(input, p)?;
            if pn - p > size as usize {
                return Err(DecodeError::MalformedEncoding);
            }
            let (payload, pe) = read_raw(input, pn, size as usize - (pn - p))?;
            Ok((Section::CustomSection((name, payload)), pe))
        } else if id == 1 {
            let (v, p1) = <Vec<FuncType> as Decode>::decode(input, p)?;
            Ok((Section::TypeSection(v), p1))
        } else if id == 2 {
            let (v, p1) = <Vec<Import> as Decode>::decode(input, p)?;
            Ok((Section::ImportSection(v), p1))
        } else if id == 3 {
            let (v, p1) = <Vec<TypeIdx> as Decode>::decode(input, p)?;
            Ok((Section::FunctionSection(v), p1))
        } else if id == 4 {
            let (v, p1) = <Vec<Table> as Decode>::decode(input, p)?;
            Ok((Section::TableSection(v), p1))
        } else if id == 5 {
            let (v, p1) = <Vec<Memory> as Decode>::decode(input, p)?;
            Ok((Section::MemorySection(v), p1))
        } else if id == 6 {
            let (v, p1) = <Vec<Global> as Decode>::decode(input, p)?;
            Ok((Section::GlobalSection(v), p1))
        } else if id == 7 {
            let (v, p1) = <Vec<Export> as Decode>::decode(input, p)?;
            Ok((Section::ExportSection(v), p1))
        } else if id == 8 {
            let (v, p1) = <Option<FuncIdx> as Decode>::decode(input, p)?;
            Ok((Section::StartSection(v), p1))
        } else if id == 9 {
            let (v, p1) = <Vec<Element> as Decode>::decode(input, p)?;
            Ok((Section::ElementSection(v), p1))
        } else if id == 10 {
            let (v, p1) = <Vec<Code> as Decode>::decode(input, p)?;
            Ok((Section::CodeSection(v), p1))
        } else if id == 11 {
            let (v, p1) = <Vec<Data> as Decode>::decode(input, p)?;
            Ok((Section::DataSection(v), p1))
        } else if id == 12 {
            let (v, p1) = <Option<u32> as Decode>::decode(input, p)?;
            Ok((Section::DataCountSection(v), p1))
        } else {
            Err(DecodeError::MalformedEncoding)
        }
    }

    proof fn lemma_spec_decode_bound(input: Seq<u8>, pos: int) {
        lemma_section_progress(input, pos);
    }
}

/// Every successfully decoded section consumes at least its id byte and
/// never reads past the end of the input.
pub proof fn lemma_section_progress(input: Seq<u8>, pos: int)
    requires
        0 <= pos <= input.len(),
    ensures
        Section::spec_decode(input, pos) matches Some(sp) ==> pos < sp.1 <= input.len(),
{
    if let Some(idp) = u8::spec_decode(input, pos) {
        lemma_u32_decode_bounds(input, idp.1);
        if let Some(szp) = u32::spec_decode(input, idp.1) {
            Name::lemma_spec_decode_bound(input, szp.1);
            <Vec<FuncType> as Decode>::lemma_spec_decode_bound(input, szp.1);
            <Vec<Import> as Decode>::lemma_spec_decode_bound(input, szp.1);
            <Vec<TypeIdx> as Decode>::lemma_spec_decode_bound(input, szp.1);
            <Vec<Table> as Decode>::lemma_spec_decode_bound(input, szp.1);
            <Vec<Memory> as Decode>::lemma_spec_decode_bound(input, szp.1);
            <Vec<Global> as Decode>::lemma_spec_decode_bound(input, szp.1);
            <Vec<Export> as Decode>::lemma_spec_decode_bound(input, szp.1);
            <Option<FuncIdx> as Decode>::lemma_spec_decode_bound(input, szp.1);
            <Vec<Element> as Decode>::lemma_spec_decode_bound(input, szp.1);
            <Vec<Code> as Decode>::lemma_spec_decode_bound(input, szp.1);
            <Vec<Data> as Decode>::lemma_spec_decode_bound(input, szp.1);
            <Option<u32> as Decode>::lemma_spec_decode_bound(input, szp.1);
        }
    }
}

/// The byte accounting of the custom section is exact: with declared
/// length L, the section occupies its id byte, its length field, and
/// then exactly L bytes, of which the name takes its encoded length and
/// the raw payload the rest; a declared length shorter than the name
/// never decodes.
pub proof fn lemma_custom_section_accounting(input: Seq<u8>, pos: int)
    requires
        0 <= pos < input.len(),
        input[pos] == 0x00,
    ensures
        Section::spec_decode(input, pos) matches Some(sp) ==> {
            &&& u32::spec_decode(input, pos + 1) matches Some(szp)
            &&& sp.1 == szp.1 + szp.0
            &&& Name::spec_decode(input, szp.1) matches Some(np)
            &&& sp.0 matches SectionV::CustomSection(nb)
            &&& (np.1 - szp.1) + nb.1.len() == szp.0
        },
{
    if let Some(idp) = u8::spec_decode(input, pos) {
        lemma_u32_decode_bounds(input, idp.1);
        if let Some(szp) = u32::spec_decode(input, idp.1) {
            Name::lemma_spec_decode_bound(input, szp.1);
            if let Some(np) = Name::spec_decode(input, szp.1) {
                if np.1 - szp.1 <= szp.0 && szp.1 + szp.0 <= input.len() {
                    assert(input.subrange(np.1, szp.1 + szp.0).len() == szp.1 + szp.0 - np.1);
                }
            }
        }
    }
}

} // verus!
