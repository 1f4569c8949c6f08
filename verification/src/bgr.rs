use vstd::prelude::*;

verus! {

/// A `BGR` pixel.
///
/// The component type can be `u8`, `u16`, or any other type (but simple
/// copyable types are recommended).
#[derive(Copy, Clone, Debug, Default, Eq, PartialEq, Ord, PartialOrd, Hash)]
pub struct Bgr<T> {
    /// Blue Component
    pub b: T,
    /// Green Component
    pub g: T,
    /// Red Component
    pub r: T,
}

} // verus!
