//! The trait relationships behind the custom path's compile-time
//! checks: the witness produced by a declaration that opted in, and the
//! sealed relation the generated lifetime check constrains.

use vstd::prelude::*;

verus! {

/// The witness that a declaration opted into the custom path for casts
/// from `From`. Produced only by the declaration-side synthesizer, never
/// written by hand; its `CurrentCrate` type is the capability seal owned
/// by the defining compilation unit.
pub trait RefCastCustom<From: ?Sized> {
    type CurrentCrate;

    fn __static_assert() {
    }
}

/// The casting relation the generated lifetime check constrains: a
/// reference type that may be produced from a reference to `From`,
/// carrying the target's capability seal. Sealed: only the two
/// reference forms below ever satisfy it.
pub trait RefCastOkay<From>: Sealed<From> {
    type CurrentCrate;

    type Target: ?Sized;
}

impl<'a, From, To> RefCastOkay<&'a From> for &'a To where
    From: ?Sized,
    To: ?Sized + RefCastCustom<From>,
 {
    type CurrentCrate = To::CurrentCrate;

    type Target = To;
}

impl<'a, From, To> RefCastOkay<&'a mut From> for &'a mut To where
    From: ?Sized,
    To: ?Sized + RefCastCustom<From>,
 {
    type CurrentCrate = To::CurrentCrate;

    type Target = To;
}

/// The seal that keeps the casting relation closed to this crate.
pub trait Sealed<From> {

}

impl<'a, From, To> Sealed<&'a From> for &'a To where From: ?Sized, To: ?Sized + RefCastCustom<From> {

}

impl<'a, From, To> Sealed<&'a mut From> for &'a mut To where
    From: ?Sized,
    To: ?Sized + RefCastCustom<From>,
 {

}

/// The generated capability check's handle on the target's seal. The
/// seal is a non-exhaustive marker struct, so a struct literal of this
/// alias compiles only inside the compilation unit that produced the
/// seal: any other unit's stub is rejected by its own compiler.
pub type CurrentCrate<From, To> = <To as RefCastOkay<From>>::CurrentCrate;

/// The generated lifetime check: a discarded call of this function
/// rejects a stub whose declared return lifetime cannot be justified by
/// its parameter's lifetime under the casting relation.
pub fn ref_cast_custom<From, To>(_arg: From) where To: RefCastOkay<From> {
}

} // verus!
