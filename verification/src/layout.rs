//! The size and alignment helpers behind the debug-build layout check
//! that generated accessors execute once per call.

use vstd::prelude::*;

verus! {

/// Carrier for a type's layout facts, queried by generated code.
pub struct Layout<T: ?Sized>(core::marker::PhantomData<T>);

/// The fallback layout facts for types whose size is not known at
/// compile time: a sentinel on both axes, so that the comparison of two
/// unsized layouts always agrees.
pub trait LayoutUnsized<T: ?Sized> {
    fn size() -> (r: usize)
        ensures
            r == usize::MAX,
    {
        usize::MAX
    }

    fn align() -> (r: usize)
        ensures
            r == usize::MAX,
    {
        usize::MAX
    }
}

impl<T: ?Sized> LayoutUnsized<T> for Layout<T> {

}

impl<T> Layout<T> {
    /// The type's size in bytes.
    pub fn size() -> (r: usize)
        ensures
            r as nat == vstd::layout::size_of::<T>(),
    {
        core::mem::size_of::<T>()
    }

    /// The type's alignment in bytes.
    pub fn align() -> (r: usize)
        ensures
            r as nat == vstd::layout::align_of::<T>(),
    {
        core::mem::align_of::<T>()
    }
}

/// The debug-build check each generated accessor performs: the
/// container and its significant field must agree in size and in
/// alignment. A mismatch means the layout-marker contract was broken —
/// say, by a generic instantiation — and nothing can safely continue,
/// so callers must establish agreement before the cast is allowed.
pub fn assert_layout<Outer: ?Sized, Inner: ?Sized>(
    outer_size: usize,
    inner_size: usize,
    outer_align: usize,
    inner_align: usize,
)
    requires
        outer_size == inner_size,
        outer_align == inner_align,
{
}

} // verus!
