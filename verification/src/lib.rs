//! A decoder for the binary serialization of WebAssembly modules: from a
//! byte sequence to an in-memory `Module`, by recursive descent over the
//! format's grammar — primitive integers and bit patterns, length-prefixed
//! containers, the type grammar, instructions and expressions, the per-entity
//! records, and the section framing that assembles the module.  Every decoder
//! is specified by a spec-level grammar function and proved to agree with it
//! exactly, on success and on failure alike.

use vstd::prelude::*;

pub mod instructions;
pub mod module;
pub mod values;

pub use module::Module;
pub use values::Decode;
pub use values::Name;

use module::{spec_decode_module, ModuleV};

verus! {

/// How a decode can fail, as surfaced uniformly by every decoder in this
/// crate: either the bytes match no production at the current position, or
/// the module preamble names a format version this crate does not read.
#[derive(Clone, Copy, Debug, PartialEq, Eq, Structural)]
pub enum DecodeError {
    MalformedEncoding,
    UnsupportedVersion,
}

/// Building a module from an input, collapsing any decode failure into an
/// absent result.  The primary contract, with its diagnostic detail, is
/// `Module::decode`.
pub trait New<T>: Sized {
    /// The module the input decodes to, if any.
    spec fn spec_new(input: T) -> Option<ModuleV>;

    fn new(input: T) -> (r: Option<Module>)
        ensures
            match r {
                Some(m) => Self::spec_new(input) == Some(m.deep_view()),
                None => Self::spec_new(input) is None,
            },
    ;
}

impl<'a> New<&'a [u8]> for Module {
    /// A byte sequence yields a module exactly when it decodes as one.
    open spec fn spec_new(input: &'a [u8]) -> Option<ModuleV> {
        match spec_decode_module(input@) {
            Ok(m) => Some(m),
            Err(_) => None,
        }
    }

    /// Creates a module from a byte sequence.
    fn new(input: &'a [u8]) -> (r: Option<Module>) {
        match Module::decode(input) {
            Ok(m) => Some(m),
            Err(_) => None,
        }
    }
}

impl Module {
    /// The post-decode validation hook handed to external collaborators:
    /// takes the assembled module and reports whether it is well formed.
    /// Type-checking the decoded structure is outside the decoder's
    /// scope, so every module is currently accepted.
    pub fn validate(&self) -> (r: Result<(), &'static str>)
        ensures
            r is Ok,
    {
        Ok(())
    }
}

} // verus!
