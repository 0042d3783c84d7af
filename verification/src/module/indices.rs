use vstd::prelude::*;

verus! {

/// Position of a function signature in the module's `types` sequence.
pub type TypeIdx = u32;

/// Position of a function among the module's (imported then local)
/// functions.
pub type FuncIdx = u32;

/// Position of a table among the module's tables.
pub type TableIdx = u32;

/// Position of a linear memory among the module's memories.
pub type MemIdx = u32;

/// Position of a global among the module's globals.
pub type GlobalIdx = u32;

/// Position of an element segment among the module's element segments.
pub type ElemIdx = u32;

/// Position of a data segment among the module's data segments.
pub type DataIdx = u32;

/// Position of a local (parameters first) within a function body.
pub type LocalIdx = u32;

} // verus!
