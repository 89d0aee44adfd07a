//! Compile-time validation and synthesis of reference-cast accessors.
//!
//! The crate decides which struct declarations may reinterpret a reference
//! to their single significant field as a reference to the struct itself,
//! and describes the accessor code to be emitted for the eligible ones.
//! Declarations and function stubs are modelled as plain syntax values;
//! every rule that accepts or rejects them is stated in a contract.

use vstd::prelude::*;

pub mod ast;
pub mod attr;
pub mod check;
pub mod classify;
pub mod custom;
pub mod diag;
pub mod expand;
pub mod layout;
pub mod paths;
pub mod seal;
pub mod symbols;
pub mod trivial;

pub use crate::trivial::assert_trivial;
pub use crate::trivial::Trivial;

verus! {

/// Safely cast a reference to a struct's single significant field into a
/// reference to the struct itself. Implementations are produced by the
/// synthesizer for validated declarations; the two accessors reinterpret
/// the same memory in both directions.
pub trait RefCast {
    type From: ?Sized;

    fn ref_cast(from: &Self::From) -> &Self;

    fn ref_cast_mut(from: &mut Self::From) -> &mut Self;
}

} // verus!
