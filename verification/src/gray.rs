use vstd::prelude::*;

verus! {

/// A `Grayscale` pixel.
///
/// The component type can be `u8`, `u16`, or any other type (but simple
/// copyable types are recommended).
#[derive(Copy, Clone, Debug, Default, Eq, PartialEq, Ord, PartialOrd, Hash)]
pub struct Gray<T> {
    /// Grayscale Component
    pub gray: T,
}

} // verus!
