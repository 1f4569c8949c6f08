//! The numeric range model: which values a component can take, and how a
//! component stands for a number.

use crate::pixel::num_cast::{
    i128_from_u16, i16_from_u16, i32_from_u16, i64_from_u16, i8_from_u16, isize_from_u16,
    u128_from_u16, u16_from_u16, u32_from_u16, u64_from_u16, u8_from_u16, usize_from_u16,
};
use std::ops::{Add, Div, Mul};
use vstd::prelude::*;
use vstd::std_specs::ops::{AddSpec, DivSpec, MulSpec};

verus! {

/// The quotient of `n` by a positive `d`, rounded toward zero: what `/`
/// computes on the signed and unsigned integer types.
pub open spec fn div_toward_zero(n: int, d: int) -> int {
    if n >= 0 {
        n / d
    } else {
        -((-n) / d)
    }
}

/// The range pair of a component type: the least and the greatest value
/// that a component can take.
pub trait BoundedComponent: Sized {
    /// The least value of a component: for an integer type its `MIN`.
    const COMPONENT_MIN: Self;

    /// The greatest value of a component: for an integer type its `MAX`.
    const COMPONENT_MAX: Self;
}

/// A numeric type that can serve as the component of a pixel.
///
/// A component stands for an integer, its [`value`](PixelComponent::value),
/// between the values of `COMPONENT_MIN` and `COMPONENT_MAX`, and every
/// integer in that range is the value of exactly one component. `+`, `*`
/// and `/` compute on values wherever the result is in range.
pub trait PixelComponent: Copy + BoundedComponent + Add<Output = Self> + Mul<Output = Self> + Div<
    Output = Self,
> {
    /// The integer that the component stands for.
    spec fn value(self) -> int;

    /// The component that stands for `value`, where `value` is in range.
    spec fn of(value: int) -> Self;

    /// The value of `COMPONENT_MIN`.
    spec fn min_value() -> int;

    /// The value of `COMPONENT_MAX`.
    spec fn max_value() -> int;

    /// Every component lies within the range pair, the range is not a
    /// single point, and its width fits a `u128`.
    proof fn lemma_range(component: Self)
        ensures
            Self::COMPONENT_MIN.value() == Self::min_value(),
            Self::COMPONENT_MAX.value() == Self::max_value(),
            Self::min_value() <= component.value() <= Self::max_value(),
            Self::min_value() < Self::max_value(),
            Self::max_value() - Self::min_value() <= u128::MAX,
    ;

    /// `of` and `value` are inverse to each other on the range.
    proof fn lemma_of(component: Self, value: int)
        ensures
            Self::of(component.value()) == component,
            Self::min_value() <= value <= Self::max_value() ==> Self::of(
                value,
            ).value() == value,
    ;

    /// `+`, `*` and `/` are defined wherever the exact result is in range
    /// (for `/`: wherever the divisor is positive), and give that result;
    /// `/` rounds toward zero.
    proof fn lemma_arithmetic(a: Self, b: Self)
        ensures
            Self::obeys_add_spec(),
            Self::obeys_mul_spec(),
            Self::obeys_div_spec(),
            Self::min_value() <= a.value() + b.value() <= Self::max_value()
                ==> a.add_req(b) && a.add_spec(b).value() == a.value() + b.value(),
            Self::min_value() <= a.value() * b.value() <= Self::max_value()
                ==> a.mul_req(b) && a.mul_spec(b).value() == a.value() * b.value(),
            b.value() > 0 ==> a.div_req(b) && a.div_spec(b).value() == div_toward_zero(
                a.value(),
                b.value(),
            ),
    ;

    /// How far the component lies above `COMPONENT_MIN`.
    fn to_level(self) -> (level: u128)
        ensures
            level == self.value() - Self::min_value(),
    ;

    /// The component that lies `level` above `COMPONENT_MIN`, and
    /// `COMPONENT_MAX` where `level` is beyond the range.
    fn from_level(level: u128) -> (out: Self)
        ensures
            out.value() == if level <= Self::max_value() - Self::min_value() {
                Self::min_value() + level
            } else {
                Self::max_value()
            },
    ;

    /// The component that stands for `n`, where the type has one.
    fn from_u16(n: u16) -> (out: Option<Self>)
        ensures
            out == if Self::min_value() <= n <= Self::max_value() {
                Some(Self::of(n as int))
            } else {
                None
            },
    ;
}

/// Half the width of the `u128` range: what lies between `i128::MIN` and zero.
const HALF_OF_U128: u128 = 0x8000_0000_0000_0000_0000_0000_0000_0000;

impl BoundedComponent for u8 {
    const COMPONENT_MIN: u8 = u8::MIN;

    const COMPONENT_MAX: u8 = u8::MAX;
}

impl PixelComponent for u8 {
    open spec fn value(self) -> int {
        self as int
    }

    open spec fn of(value: int) -> u8 {
        value as u8
    }

    open spec fn min_value() -> int {
        u8::MIN as int
    }

    open spec fn max_value() -> int {
        u8::MAX as int
    }

    proof fn lemma_range(component: u8) {
    }

    proof fn lemma_of(component: u8, value: int) {
    }

    proof fn lemma_arithmetic(a: u8, b: u8) {
    }

    fn to_level(self) -> (level: u128) {
        self as u128
    }

    fn from_level(level: u128) -> (out: u8) {
        if level >= u8::MAX as u128 {
            u8::MAX
        } else {
            level as u8
        }
    }

    fn from_u16(n: u16) -> (out: Option<u8>) {
        u8_from_u16(n)
    }
}

impl BoundedComponent for u16 {
    const COMPONENT_MIN: u16 = u16::MIN;

    const COMPONENT_MAX: u16 = u16::MAX;
}

impl PixelComponent for u16 {
    open spec fn value(self) -> int {
        self as int
    }

    open spec fn of(value: int) -> u16 {
        value as u16
    }

    open spec fn min_value() -> int {
        u16::MIN as int
    }

    open spec fn max_value() -> int {
        u16::MAX as int
    }

    proof fn lemma_range(component: u16) {
    }

    proof fn lemma_of(component: u16, value: int) {
    }

    proof fn lemma_arithmetic(a: u16, b: u16) {
    }

    fn to_level(self) -> (level: u128) {
        self as u128
    }

    fn from_level(level: u128) -> (out: u16) {
        if level >= u16::MAX as u128 {
            u16::MAX
        } else {
            level as u16
        }
    }

    fn from_u16(n: u16) -> (out: Option<u16>) {
        u16_from_u16(n)
    }
}

impl BoundedComponent for u32 {
    const COMPONENT_MIN: u32 = u32::MIN;

    const COMPONENT_MAX: u32 = u32::MAX;
}

impl PixelComponent for u32 {
    open spec fn value(self) -> int {
        self as int
    }

    open spec fn of(value: int) -> u32 {
        value as u32
    }

    open spec fn min_value() -> int {
        u32::MIN as int
    }

    open spec fn max_value() -> int {
        u32::MAX as int
    }

    proof fn lemma_range(component: u32) {
    }

    proof fn lemma_of(component: u32, value: int) {
    }

    proof fn lemma_arithmetic(a: u32, b: u32) {
    }

    fn to_level(self) -> (level: u128) {
        self as u128
    }

    fn from_level(level: u128) -> (out: u32) {
        if level >= u32::MAX as u128 {
            u32::MAX
        } else {
            level as u32
        }
    }

    fn from_u16(n: u16) -> (out: Option<u32>) {
        u32_from_u16(n)
    }
}

impl BoundedComponent for u64 {
    const COMPONENT_MIN: u64 = u64::MIN;

    const COMPONENT_MAX: u64 = u64::MAX;
}

impl PixelComponent for u64 {
    open spec fn value(self) -> int {
        self as int
    }

    open spec fn of(value: int) -> u64 {
        value as u64
    }

    open spec fn min_value() -> int {
        u64::MIN as int
    }

    open spec fn max_value() -> int {
        u64::MAX as int
    }

    proof fn lemma_range(component: u64) {
    }

    proof fn lemma_of(component: u64, value: int) {
    }

    proof fn lemma_arithmetic(a: u64, b: u64) {
    }

    fn to_level(self) -> (level: u128) {
        self as u128
    }

    fn from_level(level: u128) -> (out: u64) {
        if level >= u64::MAX as u128 {
            u64::MAX
        } else {
            level as u64
        }
    }

    fn from_u16(n: u16) -> (out: Option<u64>) {
        u64_from_u16(n)
    }
}

impl BoundedComponent for u128 {
    const COMPONENT_MIN: u128 = u128::MIN;

    const COMPONENT_MAX: u128 = u128::MAX;
}

impl PixelComponent for u128 {
    open spec fn value(self) -> int {
        self as int
    }

    open spec fn of(value: int) -> u128 {
        value as u128
    }

    open spec fn min_value() -> int {
        u128::MIN as int
    }

    open spec fn max_value() -> int {
        u128::MAX as int
    }

    proof fn lemma_range(component: u128) {
    }

    proof fn lemma_of(component: u128, value: int) {
    }

    proof fn lemma_arithmetic(a: u128, b: u128) {
    }

    fn to_level(self) -> (level: u128) {
        self
    }

    fn from_level(level: u128) -> (out: u128) {
        level
    }

    fn from_u16(n: u16) -> (out: Option<u128>) {
        u128_from_u16(n)
    }
}

impl BoundedComponent for usize {
    const COMPONENT_MIN: usize = usize::MIN;

    const COMPONENT_MAX: usize = usize::MAX;
}

impl PixelComponent for usize {
    open spec fn value(self) -> int {
        self as int
    }

    open spec fn of(value: int) -> usize {
        value as usize
    }

    open spec fn min_value() -> int {
        usize::MIN as int
    }

    open spec fn max_value() -> int {
        usize::MAX as int
    }

    proof fn lemma_range(component: usize) {
    }

    proof fn lemma_of(component: usize, value: int) {
    }

    proof fn lemma_arithmetic(a: usize, b: usize) {
    }

    fn to_level(self) -> (level: u128) {
        self as u128
    }

    fn from_level(level: u128) -> (out: usize) {
        if level >= usize::MAX as u128 {
            usize::MAX
        } else {
            level as usize
        }
    }

    fn from_u16(n: u16) -> (out: Option<usize>) {
        usize_from_u16(n)
    }
}

impl BoundedComponent for i8 {
    const COMPONENT_MIN: i8 = i8::MIN;

    const COMPONENT_MAX: i8 = i8::MAX;
}

impl PixelComponent for i8 {
    open spec fn value(self) -> int {
        self as int
    }

    open spec fn of(value: int) -> i8 {
        value as i8
    }

    open spec fn min_value() -> int {
        i8::MIN as int
    }

    open spec fn max_value() -> int {
        i8::MAX as int
    }

    proof fn lemma_range(component: i8) {
    }

    proof fn lemma_of(component: i8, value: int) {
    }

    proof fn lemma_arithmetic(a: i8, b: i8) {
    }

    fn to_level(self) -> (level: u128) {
        (self as i128 - i8::MIN as i128) as u128
    }

    fn from_level(level: u128) -> (out: i8) {
        let span: u128 = (i8::MAX as i128 - i8::MIN as i128) as u128;
        if level >= span {
            i8::MAX
        } else {
            (level as i128 + i8::MIN as i128) as i8
        }
    }

    fn from_u16(n: u16) -> (out: Option<i8>) {
        i8_from_u16(n)
    }
}

impl BoundedComponent for i16 {
    const COMPONENT_MIN: i16 = i16::MIN;

    const COMPONENT_MAX: i16 = i16::MAX;
}

impl PixelComponent for i16 {
    open spec fn value(self) -> int {
        self as int
    }

    open spec fn of(value: int) -> i16 {
        value as i16
    }

    open spec fn min_value() -> int {
        i16::MIN as int
    }

    open spec fn max_value() -> int {
        i16::MAX as int
    }

    proof fn lemma_range(component: i16) {
    }

    proof fn lemma_of(component: i16, value: int) {
    }

    proof fn lemma_arithmetic(a: i16, b: i16) {
    }

    fn to_level(self) -> (level: u128) {
        (self as i128 - i16::MIN as i128) as u128
    }

    fn from_level(level: u128) -> (out: i16) {
        let span: u128 = (i16::MAX as i128 - i16::MIN as i128) as u128;
        if level >= span {
            i16::MAX
        } else {
            (level as i128 + i16::MIN as i128) as i16
        }
    }

    fn from_u16(n: u16) -> (out: Option<i16>) {
        i16_from_u16(n)
    }
}

impl BoundedComponent for i32 {
    const COMPONENT_MIN: i32 = i32::MIN;

    const COMPONENT_MAX: i32 = i32::MAX;
}

impl PixelComponent for i32 {
    open spec fn value(self) -> int {
        self as int
    }

    open spec fn of(value: int) -> i32 {
        value as i32
    }

    open spec fn min_value() -> int {
        i32::MIN as int
    }

    open spec fn max_value() -> int {
        i32::MAX as int
    }

    proof fn lemma_range(component: i32) {
    }

    proof fn lemma_of(component: i32, value: int) {
    }

    proof fn lemma_arithmetic(a: i32, b: i32) {
    }

    fn to_level(self) -> (level: u128) {
        (self as i128 - i32::MIN as i128) as u128
    }

    fn from_level(level: u128) -> (out: i32) {
        let span: u128 = (i32::MAX as i128 - i32::MIN as i128) as u128;
        if level >= span {
            i32::MAX
        } else {
            (level as i128 + i32::MIN as i128) as i32
        }
    }

    fn from_u16(n: u16) -> (out: Option<i32>) {
        i32_from_u16(n)
    }
}

impl BoundedComponent for i64 {
    const COMPONENT_MIN: i64 = i64::MIN;

    const COMPONENT_MAX: i64 = i64::MAX;
}

impl PixelComponent for i64 {
    open spec fn value(self) -> int {
        self as int
    }

    open spec fn of(value: int) -> i64 {
        value as i64
    }

    open spec fn min_value() -> int {
        i64::MIN as int
    }

    open spec fn max_value() -> int {
        i64::MAX as int
    }

    proof fn lemma_range(component: i64) {
    }

    proof fn lemma_of(component: i64, value: int) {
    }

    proof fn lemma_arithmetic(a: i64, b: i64) {
    }

    fn to_level(self) -> (level: u128) {
        (self as i128 - i64::MIN as i128) as u128
    }

    fn from_level(level: u128) -> (out: i64) {
        let span: u128 = (i64::MAX as i128 - i64::MIN as i128) as u128;
        if level >= span {
            i64::MAX
        } else {
            (level as i128 + i64::MIN as i128) as i64
        }
    }

    fn from_u16(n: u16) -> (out: Option<i64>) {
        i64_from_u16(n)
    }
}

impl BoundedComponent for i128 {
    const COMPONENT_MIN: i128 = i128::MIN;

    const COMPONENT_MAX: i128 = i128::MAX;
}

impl PixelComponent for i128 {
    open spec fn value(self) -> int {
        self as int
    }

    open spec fn of(value: int) -> i128 {
        value as i128
    }

    open spec fn min_value() -> int {
        i128::MIN as int
    }

    open spec fn max_value() -> int {
        i128::MAX as int
    }

    proof fn lemma_range(component: i128) {
    }

    proof fn lemma_of(component: i128, value: int) {
    }

    proof fn lemma_arithmetic(a: i128, b: i128) {
    }

    fn to_level(self) -> (level: u128) {
        if self >= 0 {
            self as u128 + HALF_OF_U128
        } else {
            (self - i128::MIN) as u128
        }
    }

    fn from_level(level: u128) -> (out: i128) {
        if level >= HALF_OF_U128 {
            (level - HALF_OF_U128) as i128
        } else {
            level as i128 + i128::MIN
        }
    }

    fn from_u16(n: u16) -> (out: Option<i128>) {
        i128_from_u16(n)
    }
}

impl BoundedComponent for isize {
    const COMPONENT_MIN: isize = isize::MIN;

    const COMPONENT_MAX: isize = isize::MAX;
}

impl PixelComponent for isize {
    open spec fn value(self) -> int {
        self as int
    }

    open spec fn of(value: int) -> isize {
        value as isize
    }

    open spec fn min_value() -> int {
        isize::MIN as int
    }

    open spec fn max_value() -> int {
        isize::MAX as int
    }

    proof fn lemma_range(component: isize) {
    }

    proof fn lemma_of(component: isize, value: int) {
    }

    proof fn lemma_arithmetic(a: isize, b: isize) {
    }

    fn to_level(self) -> (level: u128) {
        (self as i128 - isize::MIN as i128) as u128
    }

    fn from_level(level: u128) -> (out: isize) {
        let span: u128 = (isize::MAX as i128 - isize::MIN as i128) as u128;
        if level >= span {
            isize::MAX
        } else {
            (level as i128 + isize::MIN as i128) as isize
        }
    }

    fn from_u16(n: u16) -> (out: Option<isize>) {
        isize_from_u16(n)
    }
}

} // verus!
