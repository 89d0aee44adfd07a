//! The marker trait satisfied by field types that contribute no size or
//! alignment to their container, so that the layout argument for the cast
//! may ignore them.

use vstd::prelude::*;

verus! {

/// Types that occupy no space and impose no alignment. The synthesizer
/// emits a compile-time demand that every field classified trivial have a
/// type implementing this trait, catching types the name-based heuristic
/// wrongly accepted.
pub trait Trivial {
}

impl Trivial for () {
}

impl<T: ?Sized> Trivial for core::marker::PhantomData<T> {
}

/// Relies on core::marker::PhantomPinned being a zero-size marker type,
/// as its documentation states; declared only so the marker-trait impl
/// below may name it.
#[verifier::external_type_specification]
pub struct ExPhantomPinned(core::marker::PhantomPinned);

impl Trivial for core::marker::PhantomPinned {
}

/// Compiles only when `T` is known to be layout-trivial; generated code
/// places a never-executed call for each field classified trivial.
pub fn assert_trivial<T: Trivial>() {
}

} // verus!
