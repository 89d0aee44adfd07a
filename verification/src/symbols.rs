//! Canonical names of the tool's own annotations, kept in one place so
//! the parsers recognize them consistently and pass every other
//! annotation through untouched.

use vstd::prelude::*;

verus! {

/// An interned annotation name.
#[derive(Clone, Copy, Debug)]
pub struct Symbol(&'static str);

impl View for Symbol {
    type V = Seq<char>;

    closed spec fn view(&self) -> Seq<char> {
        self.0@
    }
}

impl Symbol {
    /// The text of the name.
    pub fn value(&self) -> (r: &'static str)
        ensures
            r@ == self@,
    {
        self.0
    }
}

/// The container annotation that configures this tool: `ref_cast`.
pub fn ref_cast_symbol() -> (r: Symbol)
    ensures
        r@ == "ref_cast"@,
{
    Symbol("ref_cast")
}

/// The argument naming a support-library override: `crate`.
pub fn crate_symbol() -> (r: Symbol)
    ensures
        r@ == "crate"@,
{
    Symbol("crate")
}

} // verus!
