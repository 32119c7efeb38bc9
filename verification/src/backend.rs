//! The closed set of compilation strategies.

use vstd::prelude::*;

verus! {

/// A compilation strategy. A value is chosen once per run and never changes.
#[derive(Clone, Copy, Debug, PartialEq, Eq, Structural)]
pub enum Backend {
    /// The fast single-pass baseline compiler.
    Singlepass,
    /// The optimizing compiler.
    Cranelift,
    /// The heavyweight optimizing compiler.
    LLVM,
    /// The ahead-of-time path that compiles a module to a shared object.
    Lucet,
}

/// The character that separates the components of a cache path.
pub open spec fn separator() -> char {
    '/'
}

impl Backend {
    /// The name of the directory that holds this backend's cache entries.
    pub open spec fn spec_name(self) -> Seq<char> {
        match self {
            Backend::Singlepass => "singlepass"@,
            Backend::Cranelift => "cranelift"@,
            Backend::LLVM => "llvm"@,
            Backend::Lucet => "lucet"@,
        }
    }

    /// The name of the directory that holds this backend's cache entries.
    pub fn name(self) -> (s: &'static str)
        ensures
            s@ == self.spec_name(),
    {
        match self {
            Backend::Singlepass => "singlepass",
            Backend::Cranelift => "cranelift",
            Backend::LLVM => "llvm",
            Backend::Lucet => "lucet",
        }
    }

    /// No backend name holds a path separator, and no two backends share a
    /// name or even the length of one.
    pub proof fn lemma_names(a: Backend, b: Backend)
        ensures
            !a.spec_name().contains(separator()),
            a.spec_name().len() > 0,
            a != b ==> a.spec_name().len() != b.spec_name().len(),
            a != b ==> a.spec_name() != b.spec_name(),
    {
        reveal_strlit("singlepass");
        reveal_strlit("cranelift");
        reveal_strlit("llvm");
        reveal_strlit("lucet");
    }
}

} // verus!
