use vstd::prelude::*;

pub mod code;
pub mod data;
pub mod element;
pub mod export;
pub mod global;
pub mod import;
pub mod indices;
pub mod memory;
pub mod section;
pub mod table;
pub mod types;

use crate::values::Decode;
use crate::DecodeError;
use code::{Code, CodeV};
use data::{Data, DataV};
use element::{Element, ElementV};
use export::{Export, ExportV};
use global::{Global, GlobalV};
use import::{Import, ImportV};
use indices::{FuncIdx, TypeIdx};
use memory::Memory;
use section::{lemma_section_progress, Section, SectionV};
use table::Table;
use types::{FuncType, FuncTypeV};

verus! {

/// The deep view of a module.
#[verifier::ext_equal]
pub struct ModuleV {
    pub types: Seq<FuncTypeV>,
    pub imports: Seq<ImportV>,
    pub functions: Seq<TypeIdx>,
    pub tables: Seq<Table>,
    pub memories: Seq<Memory>,
    pub globals: Seq<GlobalV>,
    pub exports: Seq<ExportV>,
    pub start: Option<FuncIdx>,
    pub elements: Seq<ElementV>,
    pub code: Seq<CodeV>,
    pub data: Seq<DataV>,
    pub data_count: Option<u32>,
}

/// A decoded module: the root artifact of a decode, assembled by folding
/// the decoded sections, in the order encountered, into one value.
/// `functions[i]` indexes into `types`, and `code[i]` is the body for
/// `functions[i]`; that the two sequences have equal length is a
/// validation concern, not checked at decode time.
#[derive(Debug, PartialEq, Eq)]
pub struct Module {
    pub types: Vec<FuncType>,
    pub imports: Vec<Import>,
    pub functions: Vec<TypeIdx>,
    pub tables: Vec<Table>,
    pub memories: Vec<Memory>,
    pub globals: Vec<Global>,
    pub exports: Vec<Export>,
    pub start: Option<FuncIdx>,
    pub elements: Vec<Element>,
    pub code: Vec<Code>,
    pub data: Vec<Data>,
    pub data_count: Option<u32>,
}

impl DeepView for Module {
    type V = ModuleV;

    open spec fn deep_view(&self) -> ModuleV {
        ModuleV {
            types: self.types.deep_view(),
            imports: self.imports.deep_view(),
            functions: self.functions.deep_view(),
            tables: self.tables.deep_view(),
            memories: self.memories.deep_view(),
            globals: self.globals.deep_view(),
            exports: self.exports.deep_view(),
            start: self.start.deep_view(),
            elements: self.elements.deep_view(),
            code: self.code.deep_view(),
            data: self.data.deep_view(),
            data_count: self.data_count.deep_view(),
        }
    }
}

/// The module with every field at its zero value, from which section
/// folding starts.
pub open spec fn spec_empty_module() -> ModuleV {
    ModuleV {
        types: Seq::empty(),
        imports: Seq::empty(),
        functions: Seq::empty(),
        tables: Seq::empty(),
        memories: Seq::empty(),
        globals: Seq::empty(),
        exports: Seq::empty(),
        start: None,
        elements: Seq::empty(),
        code: Seq::empty(),
        data: Seq::empty(),
        data_count: None,
    }
}

/// One step of the fold: the section's records replace the matching
/// field, so a later section of the same category overwrites an earlier
/// one; a custom section leaves the module untouched.
pub open spec fn spec_apply_section(m: ModuleV, s: SectionV) -> ModuleV {
    match s {
        SectionV::CustomSection(_) => m,
        SectionV::TypeSection(types) => ModuleV { types, ..m },
        SectionV::ImportSection(imports) => ModuleV { imports, ..m },
        SectionV::FunctionSection(functions) => ModuleV { functions, ..m },
        SectionV::TableSection(tables) => ModuleV { tables, ..m },
        SectionV::MemorySection(memories) => ModuleV { memories, ..m },
        SectionV::GlobalSection(globals) => ModuleV { globals, ..m },
        SectionV::ExportSection(exports) => ModuleV { exports, ..m },
        SectionV::StartSection(start) => ModuleV { start, ..m },
        SectionV::ElementSection(elements) => ModuleV { elements, ..m },
        SectionV::CodeSection(code) => ModuleV { code, ..m },
        SectionV::DataSection(data) => ModuleV { data, ..m },
        SectionV::DataCountSection(data_count) => ModuleV { data_count, ..m },
    }
}

/// The fold of a sequence of sections into a module, applied in order.
pub open spec fn spec_fold_sections(m: ModuleV, ss: Seq<SectionV>) -> ModuleV
    decreases ss.len(),
{
    if ss.len() == 0 {
        m
    } else {
        spec_fold_sections(spec_apply_section(m, ss[0]), ss.drop_first())
    }
}

/// The sections of a module body: sections decoded one after another
/// until the input is exhausted.  A trailing partial section makes the
/// whole sequence undecodable.  The condition that each section moves
/// the cursor forward always holds (`lemma_section_progress`); stating
/// it in the recursion makes it well founded.
pub open spec fn spec_decode_section_seq(input: Seq<u8>, pos: int) -> Option<(Seq<SectionV>, int)>
    decreases input.len() - pos,
{
    if pos == input.len() {
        Some((Seq::empty(), pos))
    } else if pos < 0 || pos > input.len() {
        None
    } else {
        match Section::spec_decode(input, pos) {
            Some(sp) => if pos < sp.1 <= input.len() {
                match spec_decode_section_seq(input, sp.1) {
                    Some(rest) => Some((seq![sp.0] + rest.0, rest.1)),
                    None => None,
                }
            } else {
                None
            },
            None => None,
        }
    }
}

/// The four magic bytes that open every module, at position `pos`.
pub open spec fn spec_magic(input: Seq<u8>, pos: int) -> bool {
    &&& 0 <= pos
    &&& pos + 4 <= input.len()
    &&& input[pos] == 0x00
    &&& input[pos + 1] == 0x61
    &&& input[pos + 2] == 0x73
    &&& input[pos + 3] == 0x6D
}

/// The four bytes of the one supported format version, at position
/// `pos`.
pub open spec fn spec_version(input: Seq<u8>, pos: int) -> bool {
    &&& 0 <= pos
    &&& pos + 4 <= input.len()
    &&& input[pos] == 0x01
    &&& input[pos + 1] == 0x00
    &&& input[pos + 2] == 0x00
    &&& input[pos + 3] == 0x00
}

/// What decoding a whole module yields: the magic cookie, then the
/// version, then sections until the input is exhausted, folded in order
/// into one module value.  A wrong cookie, a truncated preamble, or any
/// undecodable section body is a malformed encoding; a cookie that
/// matches with a version that does not is an unsupported version.
pub open spec fn spec_decode_module(input: Seq<u8>) -> Result<ModuleV, DecodeError> {
    if !spec_magic(input, 0) {
        Err(DecodeError::MalformedEncoding)
    } else if input.len() < 8 {
        Err(DecodeError::MalformedEncoding)
    } else if !spec_version(input, 4) {
        Err(DecodeError::UnsupportedVersion)
    } else {
        match spec_decode_section_seq(input, 8) {
            Some(sp) => Ok(spec_fold_sections(spec_empty_module(), sp.0)),
            None => Err(DecodeError::MalformedEncoding),
        }
    }
}

/// Decoding is deterministic: it is a function of the input bytes alone,
/// so the same bytes always decode to the same module.
pub proof fn lemma_decode_deterministic(first: Seq<u8>, second: Seq<u8>)
    requires
        first == second,
    ensures
        spec_decode_module(first) == spec_decode_module(second),
{
}

/// Recognizes the magic cookie that opens every module.
pub fn magic_header(input: &[u8], pos: usize) -> (r: Result<usize, DecodeError>)
    requires
        pos <= input@.len(),
    ensures
        match r {
            Ok(p) => p == pos + 4 && spec_magic(input@, pos as int),
            Err(e) => !spec_magic(input@, pos as int) && e == DecodeError::MalformedEncoding,
        },
{
    if input.len() - pos >= 4 && input[pos] == 0x00 && input[pos + 1] == 0x61 && input[pos + 2]
        == 0x73 && input[pos + 3] == 0x6D {
        Ok(pos + 4)
    } else {
        Err(DecodeError::MalformedEncoding)
    }
}

/// Recognizes the format version this crate reads.  Four bytes that are
/// present but differ are an unsupported version; a truncated field is a
/// malformed encoding.
pub fn wasm_version(input: &[u8], pos: usize) -> (r: Result<usize, DecodeError>)
    requires
        pos <= input@.len(),
    ensures
        match r {
            Ok(p) => p == pos + 4 && spec_version(input@, pos as int),
            Err(e) => {
                &&& !spec_version(input@, pos as int)
                &&& e == (if pos + 4 <= input@.len() {
                    DecodeError::UnsupportedVersion
                } else {
                    DecodeError::MalformedEncoding
                })
            },
        },
{
    if input.len() - pos < 4 {
        Err(DecodeError::MalformedEncoding)
    } else if input[pos] == 0x01 && input[pos + 1] == 0x00 && input[pos + 2] == 0x00 && input[pos
        + 3] == 0x00 {
        Ok(pos + 4)
    } else {
        Err(DecodeError::UnsupportedVersion)
    }
}

/// Replaces the matching field of `m` with the section's records;
/// a custom section changes nothing.
fn apply_section(m: Module, s: Section) -> (r: Module)
    ensures
        r.deep_view() == spec_apply_section(m.deep_view(), s.deep_view()),
{
    let mut m = m;
    match s {
        Section::CustomSection(_) => {},
        Section::TypeSection(types) => m.types = types,
        Section::ImportSection(imports) => m.imports = imports,
        Section::FunctionSection(functions) => m.functions = functions,
        Section::TableSection(tables) => m.tables = tables,
        Section::MemorySection(memories) => m.memories = memories,
        Section::GlobalSection(globals) => m.globals = globals,
        Section::ExportSection(exports) => m.exports = exports,
        Section::StartSection(start) => m.start = start,
        Section::ElementSection(elements) => m.elements = elements,
        Section::CodeSection(code) => m.code = code,
        Section::DataSection(data) => m.data = data,
        Section::DataCountSection(data_count) => m.data_count = data_count,
    }
    m
}

impl Module {
    /// Decodes one whole module from `input`: the eight-byte preamble,
    /// then sections until the input is exhausted, folded in order.
    /// Succeeds exactly when `spec_decode_module` does, with the module
    /// it gives; fails with exactly the error it gives.
    pub fn decode(input: &[u8]) -> (r: Result<Module, DecodeError>)
        ensures
            match r {
                Ok(m) => spec_decode_module(input@) == Ok::<ModuleV, DecodeError>(m.deep_view()),
                Err(e) => spec_decode_module(input@) == Err::<ModuleV, DecodeError>(e),
            },
    {
        let p = match magic_header(input, 0) {
            Ok(p) => p,
            Err(e) => {
                return Err(e);
            },
        };
        let p = match wasm_version(input, p) {
            Ok(p) => p,
            Err(e) => {
                return Err(e);
            },
        };
        let mut m = Module {
            types: Vec::new(),
            imports: Vec::new(),
            functions: Vec::new(),
            tables: Vec::new(),
            memories: Vec::new(),
            globals: Vec::new(),
            exports: Vec::new(),
            start: None,
            elements: Vec::new(),
            code: Vec::new(),
            data: Vec::new(),
            data_count: None,
        };
        assert(m.deep_view() =~~= spec_empty_module());
        let mut cur = p;
        while cur < input.len()
            invariant
                8 <= cur <= input@.len(),
                spec_magic(input@, 0),
                spec_version(input@, 4),
                ({
                    match spec_decode_section_seq(input@, cur as int) {
                        Some(rest) => spec_decode_module(input@) == Ok::<ModuleV, DecodeError>(
                            spec_fold_sections(m.deep_view(), rest.0),
                        ),
                        None => spec_decode_module(input@) == Err::<ModuleV, DecodeError>(
                            DecodeError::MalformedEncoding,
                        ),
                    }
                }),
            decreases input@.len() - cur,
        {
            let sp = match Section::decode(input, cur) {
                Ok(sp) => sp,
                Err(e) => {
                    return Err(e);
                },
            };
            proof {
                lemma_section_progress(input@, cur as int);
                if let Some(rest) = spec_decode_section_seq(input@, sp.1 as int) {
                    let whole = seq![sp.0.deep_view()] + rest.0;
                    assert(whole.drop_first() =~= rest.0);
                }
            }
            m = apply_section(m, sp.0);
            cur = sp.1;
        }
        Ok(m)
    }
}

} // verus!
