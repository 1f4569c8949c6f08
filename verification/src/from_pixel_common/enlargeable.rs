//! Component types with a larger type beside them to compute in.

use crate::pixel::num_cast::{
    i128_from_i64, i128_from_isize, i16_from_i32, i32_from_i16, i32_from_i64, i32_from_i8,
    i64_from_i128, i64_from_i32, i8_from_i32, isize_from_i128, u128_from_u64, u128_from_usize,
    u16_from_u32, u32_from_u16, u32_from_u64, u32_from_u8, u64_from_u128, u64_from_u32, u8_from_u32,
    usize_from_u128,
};
use crate::pixel::pixel_component::{BoundedComponent, PixelComponent};
use vstd::prelude::*;

verus! {

/// `n` where it lies between `lo` and `hi`, else the nearer of the two.
pub open spec fn clamp_to_range(n: int, lo: int, hi: int) -> int {
    if n > hi {
        hi
    } else if n < lo {
        lo
    } else {
        n
    }
}

/// A component type with a larger type beside it, in which a weighted sum of
/// components can be computed without overflow.
pub trait Enlargeable: PixelComponent {
    /// The larger type.
    type Larger: PixelComponent;

    /// The larger type holds zero, ten thousand, and ten thousand times any
    /// component: room for every sum of components whose weights are not
    /// negative and add up to at most ten thousand.
    proof fn lemma_room()
        ensures
            Self::Larger::min_value() <= 10000 * Self::min_value(),
            Self::Larger::min_value() <= 0,
            10000 * Self::max_value() <= Self::Larger::max_value(),
            10000 <= Self::Larger::max_value(),
    ;

    /// Clamps back into `Self` from `Self::Larger`: the same number where
    /// `Self` can hold it, else the nearer end of the range of `Self`.
    fn clamp_from(n: Self::Larger) -> (out: Self)
        ensures
            out.value() == clamp_to_range(
                n.value(),
                Self::min_value(),
                Self::max_value(),
            ),
    ;

    /// Converts `self` to the `Self::Larger` type: the same number.
    fn to_larger(self) -> (out: Self::Larger)
        ensures
            out.value() == self.value(),
    ;
}

impl Enlargeable for u8 {
    type Larger = u32;

    proof fn lemma_room() {
    }

    fn clamp_from(n: u32) -> (out: u8) {
        proof {
            Self::lemma_range(Self::COMPONENT_MIN);
        }
        if n > Self::COMPONENT_MAX.to_larger() {
            Self::COMPONENT_MAX
        } else if n < Self::COMPONENT_MIN.to_larger() {
            Self::COMPONENT_MIN
        } else {
            u8_from_u32(n).unwrap()
        }
    }

    fn to_larger(self) -> (out: u32) {
        u32_from_u8(self).unwrap()
    }
}

impl Enlargeable for u16 {
    type Larger = u32;

    proof fn lemma_room() {
    }

    fn clamp_from(n: u32) -> (out: u16) {
        proof {
            Self::lemma_range(Self::COMPONENT_MIN);
        }
        if n > Self::COMPONENT_MAX.to_larger() {
            Self::COMPONENT_MAX
        } else if n < Self::COMPONENT_MIN.to_larger() {
            Self::COMPONENT_MIN
        } else {
            u16_from_u32(n).unwrap()
        }
    }

    fn to_larger(self) -> (out: u32) {
        u32_from_u16(self).unwrap()
    }
}

impl Enlargeable for u32 {
    type Larger = u64;

    proof fn lemma_room() {
    }

    fn clamp_from(n: u64) -> (out: u32) {
        proof {
            Self::lemma_range(Self::COMPONENT_MIN);
        }
        if n > Self::COMPONENT_MAX.to_larger() {
            Self::COMPONENT_MAX
        } else if n < Self::COMPONENT_MIN.to_larger() {
            Self::COMPONENT_MIN
        } else {
            u32_from_u64(n).unwrap()
        }
    }

    fn to_larger(self) -> (out: u64) {
        u64_from_u32(self).unwrap()
    }
}

impl Enlargeable for u64 {
    type Larger = u128;

    proof fn lemma_room() {
    }

    fn clamp_from(n: u128) -> (out: u64) {
        proof {
            Self::lemma_range(Self::COMPONENT_MIN);
        }
        if n > Self::COMPONENT_MAX.to_larger() {
            Self::COMPONENT_MAX
        } else if n < Self::COMPONENT_MIN.to_larger() {
            Self::COMPONENT_MIN
        } else {
            u64_from_u128(n).unwrap()
        }
    }

    fn to_larger(self) -> (out: u128) {
        u128_from_u64(self).unwrap()
    }
}

impl Enlargeable for usize {
    type Larger = u128;

    proof fn lemma_room() {
    }

    fn clamp_from(n: u128) -> (out: usize) {
        proof {
            Self::lemma_range(Self::COMPONENT_MIN);
        }
        if n > Self::COMPONENT_MAX.to_larger() {
            Self::COMPONENT_MAX
        } else if n < Self::COMPONENT_MIN.to_larger() {
            Self::COMPONENT_MIN
        } else {
            usize_from_u128(n).unwrap()
        }
    }

    fn to_larger(self) -> (out: u128) {
        u128_from_usize(self).unwrap()
    }
}

impl Enlargeable for i8 {
    type Larger = i32;

    proof fn lemma_room() {
    }

    fn clamp_from(n: i32) -> (out: i8) {
        proof {
            Self::lemma_range(Self::COMPONENT_MIN);
        }
        if n > Self::COMPONENT_MAX.to_larger() {
            Self::COMPONENT_MAX
        } else if n < Self::COMPONENT_MIN.to_larger() {
            Self::COMPONENT_MIN
        } else {
            i8_from_i32(n).unwrap()
        }
    }

    fn to_larger(self) -> (out: i32) {
        i32_from_i8(self).unwrap()
    }
}

impl Enlargeable for i16 {
    type Larger = i32;

    proof fn lemma_room() {
    }

    fn clamp_from(n: i32) -> (out: i16) {
        proof {
            Self::lemma_range(Self::COMPONENT_MIN);
        }
        if n > Self::COMPONENT_MAX.to_larger() {
            Self::COMPONENT_MAX
        } else if n < Self::COMPONENT_MIN.to_larger() {
            Self::COMPONENT_MIN
        } else {
            i16_from_i32(n).unwrap()
        }
    }

    fn to_larger(self) -> (out: i32) {
        i32_from_i16(self).unwrap()
    }
}

impl Enlargeable for i32 {
    type Larger = i64;

    proof fn lemma_room() {
    }

    fn clamp_from(n: i64) -> (out: i32) {
        proof {
            Self::lemma_range(Self::COMPONENT_MIN);
        }
        if n > Self::COMPONENT_MAX.to_larger() {
            Self::COMPONENT_MAX
        } else if n < Self::COMPONENT_MIN.to_larger() {
            Self::COMPONENT_MIN
        } else {
            i32_from_i64(n).unwrap()
        }
    }

    fn to_larger(self) -> (out: i64) {
        i64_from_i32(self).unwrap()
    }
}

impl Enlargeable for i64 {
    type Larger = i128;

    proof fn lemma_room() {
    }

    fn clamp_from(n: i128) -> (out: i64) {
        proof {
            Self::lemma_range(Self::COMPONENT_MIN);
        }
        if n > Self::COMPONENT_MAX.to_larger() {
            Self::COMPONENT_MAX
        } else if n < Self::COMPONENT_MIN.to_larger() {
            Self::COMPONENT_MIN
        } else {
            i64_from_i128(n).unwrap()
        }
    }

    fn to_larger(self) -> (out: i128) {
        i128_from_i64(self).unwrap()
    }
}

impl Enlargeable for isize {
    type Larger = i128;

    proof fn lemma_room() {
    }

    fn clamp_from(n: i128) -> (out: isize) {
        proof {
            Self::lemma_range(Self::COMPONENT_MIN);
        }
        if n > Self::COMPONENT_MAX.to_larger() {
            Self::COMPONENT_MAX
        } else if n < Self::COMPONENT_MIN.to_larger() {
            Self::COMPONENT_MIN
        } else {
            isize_from_i128(n).unwrap()
        }
    }

    fn to_larger(self) -> (out: i128) {
        i128_from_isize(self).unwrap()
    }
}

} // verus!
