//! Arrays of components as slices.

use vstd::prelude::*;

verus! {

/// A helpful trait for turning the associated array types in the
/// [`Pixel`](crate::Pixel) trait into a slice.
pub trait AsSlice<T> {
    /// The elements, in order.
    spec fn elements(&self) -> Seq<T>;

    /// Returns as a slice of `T`
    fn as_slice(&self) -> (out: &[T])
        ensures
            out@ == self.elements(),
    ;
}

impl<T, const N: usize> AsSlice<T> for [T; N] {
    open spec fn elements(&self) -> Seq<T> {
        self@
    }

    fn as_slice(&self) -> (out: &[T]) {
        self.as_slice()
    }
}

} // verus!
