use vstd::prelude::*;

verus! {

/// A `Grayscale+Alpha` pixel.
///
/// The component type can be `u8`, `u16`, or any other type (but simple
/// copyable types are recommended).
///
/// You can specify a different type for alpha, but it's only for special cases:
/// the traits of this crate are there for pixels whose components all have
/// one type.
#[derive(Copy, Clone, Debug, Default, Eq, PartialEq, Ord, PartialOrd, Hash)]
pub struct GrayAlpha<T, A = T> {
    /// Grayscale Component
    pub gray: T,
    /// Alpha Component
    pub a: A,
}

} // verus!
