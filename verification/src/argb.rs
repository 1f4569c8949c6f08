use vstd::prelude::*;

verus! {

/// An `ARGB` pixel.
///
/// The component type can be `u8`, `u16`, or any other type (but simple
/// copyable types are recommended).
///
/// You can specify a different type for alpha, but it's only for special cases:
/// the traits of this crate are there for pixels whose components all have
/// one type.
#[derive(Copy, Clone, Debug, Default, Eq, PartialEq, Ord, PartialOrd, Hash)]
pub struct Argb<T, A = T> {
    /// Alpha Component
    pub a: A,
    /// Red Component
    pub r: T,
    /// Green Component
    pub g: T,
    /// Blue Component
    pub b: T,
}

} // verus!
