//! The conversion of a single component between two component types.

use crate::from_pixel_common::scale::{
    lemma_round_div_is_nearest, lemma_scaled_bounds, lemma_scaled_ends, lemma_scaled_monotonic,
    lemma_scaled_same_span, mul_div_round, round_div, scaled,
};
use crate::pixel::pixel_component::{BoundedComponent, PixelComponent};
use vstd::arithmetic::div_mod::lemma_fundamental_div_mod_converse;
use vstd::prelude::*;

verus! {

/// Convert between pixel component types using common component ranges:
/// an integer type ranges over all its values.
pub trait FromComponentCommon<T>: Sized {
    /// What `from_component_common` makes of `component`.
    spec fn converted(component: T) -> Self;

    /// Converts to this type from the input component type.
    fn from_component_common(component: T) -> (out: Self)
        ensures
            out == Self::converted(component),
    ;
}

/// To its own type a component converts unchanged.
impl<T> FromComponentCommon<T> for T {
    open spec fn converted(component: T) -> T {
        component
    }

    fn from_component_common(component: T) -> (out: T) {
        component
    }
}

/// The component of type `D` that lies as far along the range of `D` as
/// `component` lies along the range of `S`, to the nearest value of `D`.
pub open spec fn rescaled<S: PixelComponent, D: PixelComponent>(component: S) -> D {
    D::of(
        D::min_value() + scaled(
            component.value() - S::min_value(),
            S::max_value() - S::min_value(),
            D::max_value() - D::min_value(),
        ),
    )
}

/// What `rescaled` names is a component of `D`: its value is the scaled
/// level above the minimum of `D`, and lies within the range of `D`.
pub proof fn lemma_rescaled_value<S: PixelComponent, D: PixelComponent>(component: S)
    ensures
        rescaled::<S, D>(component).value() == D::min_value() + scaled(
            component.value() - S::min_value(),
            S::max_value() - S::min_value(),
            D::max_value() - D::min_value(),
        ),
        D::min_value() <= rescaled::<S, D>(component).value() <= D::max_value(),
{
    S::lemma_range(component);
    D::lemma_range(D::COMPONENT_MIN);
    lemma_scaled_bounds(
        component.value() - S::min_value(),
        S::max_value() - S::min_value(),
        D::max_value() - D::min_value(),
    );
    D::lemma_of(
        D::COMPONENT_MIN,
        D::min_value() + scaled(
            component.value() - S::min_value(),
            S::max_value() - S::min_value(),
            D::max_value() - D::min_value(),
        ),
    );
}

/// Converts a component between two types by its place in the range: the
/// level above the minimum of `S`, scaled by the widths of the two ranges in
/// exact arithmetic and rounded to the nearest level of `D`.
pub fn rescale<S: PixelComponent, D: PixelComponent>(component: S) -> (out: D)
    ensures
        out == rescaled::<S, D>(component),
{
    proof {
        S::lemma_range(component);
        D::lemma_range(D::COMPONENT_MIN);
        lemma_rescaled_value::<S, D>(component);
    }
    let level: u128 = component.to_level();
    let from_span: u128 = S::COMPONENT_MAX.to_level();
    let to_span: u128 = D::COMPONENT_MAX.to_level();
    let out = D::from_level(mul_div_round(level, to_span, from_span));
    proof {
        D::lemma_of(out, out.value());
    }
    out
}

/// The 8-bit range maps into the 16-bit range by repeating the byte.
impl FromComponentCommon<u8> for u16 {
    open spec fn converted(component: u8) -> u16 {
        rescaled::<u8, u16>(component)
    }

    fn from_component_common(component: u8) -> (out: u16) {
        let x: u16 = component as u16;
        assert((x << 8) | x == x * 257) by (bit_vector)
            requires
                x < 256,
        ;
        proof {
            lemma_u8_to_u16_repeats_the_byte(component);
        }
        (x << 8) | x
    }
}

/// The 16-bit range maps into the 8-bit range by a division that rounds to
/// the nearest byte.
impl FromComponentCommon<u16> for u8 {
    open spec fn converted(component: u16) -> u8 {
        rescaled::<u16, u8>(component)
    }

    fn from_component_common(component: u16) -> (out: u8) {
        proof {
            lemma_u16_to_u8_rounds_to_nearest(component);
        }
        ((component as u32 + 128) / 257) as u8
    }
}

/// The ends of the range of `S` convert to the ends of the range of `D`.
pub proof fn lemma_rescaled_ends<S: PixelComponent, D: PixelComponent>()
    ensures
        rescaled::<S, D>(S::COMPONENT_MIN) == D::COMPONENT_MIN,
        rescaled::<S, D>(S::COMPONENT_MAX) == D::COMPONENT_MAX,
{
    S::lemma_range(S::COMPONENT_MIN);
    D::lemma_range(D::COMPONENT_MIN);
    lemma_scaled_ends(S::max_value() - S::min_value(), D::max_value() - D::min_value());
    D::lemma_of(D::COMPONENT_MIN, 0);
    D::lemma_of(D::COMPONENT_MAX, 0);
}

/// Within one type the scaling moves nothing: it agrees with the rule that
/// a component converts to its own type unchanged.
pub proof fn lemma_rescaled_same_type<T: PixelComponent>(component: T)
    ensures
        rescaled::<T, T>(component) == component,
{
    T::lemma_range(component);
    lemma_scaled_same_span(component.value() - T::min_value(), T::max_value() - T::min_value());
    T::lemma_of(component, 0);
}

/// The scaling keeps the order of components.
pub proof fn lemma_rescaled_monotonic<S: PixelComponent, D: PixelComponent>(low: S, high: S)
    requires
        low.value() <= high.value(),
    ensures
        rescaled::<S, D>(low).value() <= rescaled::<S, D>(high).value(),
{
    S::lemma_range(low);
    S::lemma_range(high);
    D::lemma_range(D::COMPONENT_MIN);
    lemma_rescaled_value::<S, D>(low);
    lemma_rescaled_value::<S, D>(high);
    lemma_scaled_monotonic(
        low.value() - S::min_value(),
        high.value() - S::min_value(),
        S::max_value() - S::min_value(),
        D::max_value() - D::min_value(),
    );
}

/// The scaled component is a nearest one: twice its distance from the exact
/// place, measured in units of the source range, is at most one step of the
/// target range.
pub proof fn lemma_rescaled_is_nearest<S: PixelComponent, D: PixelComponent>(component: S)
    ensures
        ({
            let from_span = S::max_value() - S::min_value();
            let to_span = D::max_value() - D::min_value();
            let level = component.value() - S::min_value();
            let out_level = rescaled::<S, D>(component).value() - D::min_value();
            -from_span <= 2 * (out_level * from_span - level * to_span) <= from_span
        }),
{
    S::lemma_range(component);
    D::lemma_range(D::COMPONENT_MIN);
    lemma_rescaled_value::<S, D>(component);
    let from_span = S::max_value() - S::min_value();
    let to_span = D::max_value() - D::min_value();
    let level = component.value() - S::min_value();
    assert(0 <= level * to_span) by (nonlinear_arith)
        requires
            0 <= level,
            0 <= to_span,
    ;
    lemma_round_div_is_nearest(level * to_span, from_span);
}

/// Between two types whose ranges have one width a component keeps its
/// place exactly: the values differ by the distance between the two minima,
/// as between the signed and the unsigned type of one size.
pub proof fn lemma_rescaled_same_span<S: PixelComponent, D: PixelComponent>(component: S)
    requires
        S::max_value() - S::min_value() == D::max_value() - D::min_value(),
    ensures
        rescaled::<S, D>(component).value() - D::min_value() == component.value() - S::min_value(),
{
    S::lemma_range(component);
    lemma_rescaled_value::<S, D>(component);
    lemma_scaled_same_span(component.value() - S::min_value(), S::max_value() - S::min_value());
}

/// A component comes back unchanged from every type whose range is at least
/// as wide as its own.
pub proof fn lemma_rescaled_round_trip<S: PixelComponent, D: PixelComponent>(component: S)
    requires
        S::max_value() - S::min_value() <= D::max_value() - D::min_value(),
    ensures
        rescaled::<D, S>(rescaled::<S, D>(component)) == component,
{
    let narrow = S::max_value() - S::min_value();
    let wide = D::max_value() - D::min_value();
    let level = component.value() - S::min_value();
    let there = rescaled::<S, D>(component);
    let there_level = there.value() - D::min_value();
    S::lemma_range(component);
    D::lemma_range(there);
    lemma_rescaled_value::<S, D>(component);
    lemma_rescaled_value::<D, S>(there);
    lemma_rescaled_is_nearest::<S, D>(component);
    if narrow == wide {
        lemma_scaled_same_span(level, narrow);
        lemma_scaled_same_span(there_level, wide);
    } else {
        // there_level * narrow lies within half of `narrow` of level * wide,
        // which is less than half of `wide`
        let rest = there_level * narrow - level * wide;
        assert(2 * (there_level * narrow) + wide == level * (2 * wide) + (2 * rest + wide))
            by (nonlinear_arith)
            requires
                rest == there_level * narrow - level * wide,
        ;
        lemma_fundamental_div_mod_converse(
            2 * (there_level * narrow) + wide,
            2 * wide,
            level,
            2 * rest + wide,
        );
        assert(scaled(there_level, wide, narrow) == level);
    }
    S::lemma_of(component, 0);
}

/// From 8 to 16 bits the byte is repeated: `0xAB` becomes `0xABAB`.
pub proof fn lemma_u8_to_u16_repeats_the_byte(component: u8)
    ensures
        <u16 as FromComponentCommon<u8>>::converted(component) == component * 257,
{
    let x = component as int;
    assert(x * 65535 == 65535 * x) by (nonlinear_arith);
    lemma_fundamental_div_mod_converse(2 * (x * 65535) + 255, 510, 257 * x, 255);
    assert(scaled(x, 255, 65535) == 257 * x);
}

/// From 16 to 8 bits the result is `component * 255 / 65535` in exact
/// arithmetic, rounded to the nearest integer, which `(component + 128) / 257`
/// computes.
pub proof fn lemma_u16_to_u8_rounds_to_nearest(component: u16)
    ensures
        <u8 as FromComponentCommon<u16>>::converted(component) == round_div(component * 255, 65535),
        <u8 as FromComponentCommon<u16>>::converted(component) == (component + 128) / 257,
{
    let x = component as int;
    let q = (x + 128) / 257;
    let m = (x + 128) % 257;
    assert(x + 128 == 257 * q + m && 0 <= m < 257 && 0 <= q <= 255);
    assert(x * 255 == 255 * x) by (nonlinear_arith);
    assert(2 * (x * 255) + 65535 == q * 131070 + (510 * m + 255));
    lemma_fundamental_div_mod_converse(2 * (x * 255) + 65535, 131070, q, 510 * m + 255);
    assert(scaled(x, 65535, 255) == q);
}

/// Every 8-bit component comes back unchanged from the 16-bit range.
pub proof fn lemma_u8_u16_round_trip(component: u8)
    ensures
        <u8 as FromComponentCommon<u16>>::converted(
            <u16 as FromComponentCommon<u8>>::converted(component),
        ) == component,
{
    lemma_u8_to_u16_repeats_the_byte(component);
    let wide: u16 = (component * 257) as u16;
    lemma_u16_to_u8_rounds_to_nearest(wide);
    assert((257 * component + 128) / 257 == component as int) by {
        lemma_fundamental_div_mod_converse(257 * component + 128, 257, component as int, 128);
    }
}

impl FromComponentCommon<u8> for u32 {
    open spec fn converted(component: u8) -> u32 {
        rescaled::<u8, u32>(component)
    }

    fn from_component_common(component: u8) -> (out: u32) {
        rescale(component)
    }
}

impl FromComponentCommon<u32> for u8 {
    open spec fn converted(component: u32) -> u8 {
        rescaled::<u32, u8>(component)
    }

    fn from_component_common(component: u32) -> (out: u8) {
        rescale(component)
    }
}

impl FromComponentCommon<u8> for u64 {
    open spec fn converted(component: u8) -> u64 {
        rescaled::<u8, u64>(component)
    }

    fn from_component_common(component: u8) -> (out: u64) {
        rescale(component)
    }
}

impl FromComponentCommon<u64> for u8 {
    open spec fn converted(component: u64) -> u8 {
        rescaled::<u64, u8>(component)
    }

    fn from_component_common(component: u64) -> (out: u8) {
        rescale(component)
    }
}

impl FromComponentCommon<u8> for u128 {
    open spec fn converted(component: u8) -> u128 {
        rescaled::<u8, u128>(component)
    }

    fn from_component_common(component: u8) -> (out: u128) {
        rescale(component)
    }
}

impl FromComponentCommon<u128> for u8 {
    open spec fn converted(component: u128) -> u8 {
        rescaled::<u128, u8>(component)
    }

    fn from_component_common(component: u128) -> (out: u8) {
        rescale(component)
    }
}

impl FromComponentCommon<u8> for usize {
    open spec fn converted(component: u8) -> usize {
        rescaled::<u8, usize>(component)
    }

    fn from_component_common(component: u8) -> (out: usize) {
        rescale(component)
    }
}

impl FromComponentCommon<usize> for u8 {
    open spec fn converted(component: usize) -> u8 {
        rescaled::<usize, u8>(component)
    }

    fn from_component_common(component: usize) -> (out: u8) {
        rescale(component)
    }
}

impl FromComponentCommon<u8> for i8 {
    open spec fn converted(component: u8) -> i8 {
        rescaled::<u8, i8>(component)
    }

    fn from_component_common(component: u8) -> (out: i8) {
        rescale(component)
    }
}

impl FromComponentCommon<i8> for u8 {
    open spec fn converted(component: i8) -> u8 {
        rescaled::<i8, u8>(component)
    }

    fn from_component_common(component: i8) -> (out: u8) {
        rescale(component)
    }
}

impl FromComponentCommon<u8> for i16 {
    open spec fn converted(component: u8) -> i16 {
        rescaled::<u8, i16>(component)
    }

    fn from_component_common(component: u8) -> (out: i16) {
        rescale(component)
    }
}

impl FromComponentCommon<i16> for u8 {
    open spec fn converted(component: i16) -> u8 {
        rescaled::<i16, u8>(component)
    }

    fn from_component_common(component: i16) -> (out: u8) {
        rescale(component)
    }
}

impl FromComponentCommon<u8> for i32 {
    open spec fn converted(component: u8) -> i32 {
        rescaled::<u8, i32>(component)
    }

    fn from_component_common(component: u8) -> (out: i32) {
        rescale(component)
    }
}

impl FromComponentCommon<i32> for u8 {
    open spec fn converted(component: i32) -> u8 {
        rescaled::<i32, u8>(component)
    }

    fn from_component_common(component: i32) -> (out: u8) {
        rescale(component)
    }
}

impl FromComponentCommon<u8> for i64 {
    open spec fn converted(component: u8) -> i64 {
        rescaled::<u8, i64>(component)
    }

    fn from_component_common(component: u8) -> (out: i64) {
        rescale(component)
    }
}

impl FromComponentCommon<i64> for u8 {
    open spec fn converted(component: i64) -> u8 {
        rescaled::<i64, u8>(component)
    }

    fn from_component_common(component: i64) -> (out: u8) {
        rescale(component)
    }
}

impl FromComponentCommon<u8> for i128 {
    open spec fn converted(component: u8) -> i128 {
        rescaled::<u8, i128>(component)
    }

    fn from_component_common(component: u8) -> (out: i128) {
        rescale(component)
    }
}

impl FromComponentCommon<i128> for u8 {
    open spec fn converted(component: i128) -> u8 {
        rescaled::<i128, u8>(component)
    }

    fn from_component_common(component: i128) -> (out: u8) {
        rescale(component)
    }
}

impl FromComponentCommon<u8> for isize {
    open spec fn converted(component: u8) -> isize {
        rescaled::<u8, isize>(component)
    }

    fn from_component_common(component: u8) -> (out: isize) {
        rescale(component)
    }
}

impl FromComponentCommon<isize> for u8 {
    open spec fn converted(component: isize) -> u8 {
        rescaled::<isize, u8>(component)
    }

    fn from_component_common(component: isize) -> (out: u8) {
        rescale(component)
    }
}

impl FromComponentCommon<u16> for u32 {
    open spec fn converted(component: u16) -> u32 {
        rescaled::<u16, u32>(component)
    }

    fn from_component_common(component: u16) -> (out: u32) {
        rescale(component)
    }
}

impl FromComponentCommon<u32> for u16 {
    open spec fn converted(component: u32) -> u16 {
        rescaled::<u32, u16>(component)
    }

    fn from_component_common(component: u32) -> (out: u16) {
        rescale(component)
    }
}

impl FromComponentCommon<u16> for u64 {
    open spec fn converted(component: u16) -> u64 {
        rescaled::<u16, u64>(component)
    }

    fn from_component_common(component: u16) -> (out: u64) {
        rescale(component)
    }
}

impl FromComponentCommon<u64> for u16 {
    open spec fn converted(component: u64) -> u16 {
        rescaled::<u64, u16>(component)
    }

    fn from_component_common(component: u64) -> (out: u16) {
        rescale(component)
    }
}

impl FromComponentCommon<u16> for u128 {
    open spec fn converted(component: u16) -> u128 {
        rescaled::<u16, u128>(component)
    }

    fn from_component_common(component: u16) -> (out: u128) {
        rescale(component)
    }
}

impl FromComponentCommon<u128> for u16 {
    open spec fn converted(component: u128) -> u16 {
        rescaled::<u128, u16>(component)
    }

    fn from_component_common(component: u128) -> (out: u16) {
        rescale(component)
    }
}

impl FromComponentCommon<u16> for usize {
    open spec fn converted(component: u16) -> usize {
        rescaled::<u16, usize>(component)
    }

    fn from_component_common(component: u16) -> (out: usize) {
        rescale(component)
    }
}

impl FromComponentCommon<usize> for u16 {
    open spec fn converted(component: usize) -> u16 {
        rescaled::<usize, u16>(component)
    }

    fn from_component_common(component: usize) -> (out: u16) {
        rescale(component)
    }
}

impl FromComponentCommon<u16> for i8 {
    open spec fn converted(component: u16) -> i8 {
        rescaled::<u16, i8>(component)
    }

    fn from_component_common(component: u16) -> (out: i8) {
        rescale(component)
    }
}

impl FromComponentCommon<i8> for u16 {
    open spec fn converted(component: i8) -> u16 {
        rescaled::<i8, u16>(component)
    }

    fn from_component_common(component: i8) -> (out: u16) {
        rescale(component)
    }
}

impl FromComponentCommon<u16> for i16 {
    open spec fn converted(component: u16) -> i16 {
        rescaled::<u16, i16>(component)
    }

    fn from_component_common(component: u16) -> (out: i16) {
        rescale(component)
    }
}

impl FromComponentCommon<i16> for u16 {
    open spec fn converted(component: i16) -> u16 {
        rescaled::<i16, u16>(component)
    }

    fn from_component_common(component: i16) -> (out: u16) {
        rescale(component)
    }
}

impl FromComponentCommon<u16> for i32 {
    open spec fn converted(component: u16) -> i32 {
        rescaled::<u16, i32>(component)
    }

    fn from_component_common(component: u16) -> (out: i32) {
        rescale(component)
    }
}

impl FromComponentCommon<i32> for u16 {
    open spec fn converted(component: i32) -> u16 {
        rescaled::<i32, u16>(component)
    }

    fn from_component_common(component: i32) -> (out: u16) {
        rescale(component)
    }
}

impl FromComponentCommon<u16> for i64 {
    open spec fn converted(component: u16) -> i64 {
        rescaled::<u16, i64>(component)
    }

    fn from_component_common(component: u16) -> (out: i64) {
        rescale(component)
    }
}

impl FromComponentCommon<i64> for u16 {
    open spec fn converted(component: i64) -> u16 {
        rescaled::<i64, u16>(component)
    }

    fn from_component_common(component: i64) -> (out: u16) {
        rescale(component)
    }
}

impl FromComponentCommon<u16> for i128 {
    open spec fn converted(component: u16) -> i128 {
        rescaled::<u16, i128>(component)
    }

    fn from_component_common(component: u16) -> (out: i128) {
        rescale(component)
    }
}

impl FromComponentCommon<i128> for u16 {
    open spec fn converted(component: i128) -> u16 {
        rescaled::<i128, u16>(component)
    }

    fn from_component_common(component: i128) -> (out: u16) {
        rescale(component)
    }
}

impl FromComponentCommon<u16> for isize {
    open spec fn converted(component: u16) -> isize {
        rescaled::<u16, isize>(component)
    }

    fn from_component_common(component: u16) -> (out: isize) {
        rescale(component)
    }
}

impl FromComponentCommon<isize> for u16 {
    open spec fn converted(component: isize) -> u16 {
        rescaled::<isize, u16>(component)
    }

    fn from_component_common(component: isize) -> (out: u16) {
        rescale(component)
    }
}

impl FromComponentCommon<u32> for u64 {
    open spec fn converted(component: u32) -> u64 {
        rescaled::<u32, u64>(component)
    }

    fn from_component_common(component: u32) -> (out: u64) {
        rescale(component)
    }
}

impl FromComponentCommon<u64> for u32 {
    open spec fn converted(component: u64) -> u32 {
        rescaled::<u64, u32>(component)
    }

    fn from_component_common(component: u64) -> (out: u32) {
        rescale(component)
    }
}

impl FromComponentCommon<u32> for u128 {
    open spec fn converted(component: u32) -> u128 {
        rescaled::<u32, u128>(component)
    }

    fn from_component_common(component: u32) -> (out: u128) {
        rescale(component)
    }
}

impl FromComponentCommon<u128> for u32 {
    open spec fn converted(component: u128) -> u32 {
        rescaled::<u128, u32>(component)
    }

    fn from_component_common(component: u128) -> (out: u32) {
        rescale(component)
    }
}

impl FromComponentCommon<u32> for usize {
    open spec fn converted(component: u32) -> usize {
        rescaled::<u32, usize>(component)
    }

    fn from_component_common(component: u32) -> (out: usize) {
        rescale(component)
    }
}

impl FromComponentCommon<usize> for u32 {
    open spec fn converted(component: usize) -> u32 {
        rescaled::<usize, u32>(component)
    }

    fn from_component_common(component: usize) -> (out: u32) {
        rescale(component)
    }
}

impl FromComponentCommon<u32> for i8 {
    open spec fn converted(component: u32) -> i8 {
        rescaled::<u32, i8>(component)
    }

    fn from_component_common(component: u32) -> (out: i8) {
        rescale(component)
    }
}

impl FromComponentCommon<i8> for u32 {
    open spec fn converted(component: i8) -> u32 {
        rescaled::<i8, u32>(component)
    }

    fn from_component_common(component: i8) -> (out: u32) {
        rescale(component)
    }
}

impl FromComponentCommon<u32> for i16 {
    open spec fn converted(component: u32) -> i16 {
        rescaled::<u32, i16>(component)
    }

    fn from_component_common(component: u32) -> (out: i16) {
        rescale(component)
    }
}

impl FromComponentCommon<i16> for u32 {
    open spec fn converted(component: i16) -> u32 {
        rescaled::<i16, u32>(component)
    }

    fn from_component_common(component: i16) -> (out: u32) {
        rescale(component)
    }
}

impl FromComponentCommon<u32> for i32 {
    open spec fn converted(component: u32) -> i32 {
        rescaled::<u32, i32>(component)
    }

    fn from_component_common(component: u32) -> (out: i32) {
        rescale(component)
    }
}

impl FromComponentCommon<i32> for u32 {
    open spec fn converted(component: i32) -> u32 {
        rescaled::<i32, u32>(component)
    }

    fn from_component_common(component: i32) -> (out: u32) {
        rescale(component)
    }
}

impl FromComponentCommon<u32> for i64 {
    open spec fn converted(component: u32) -> i64 {
        rescaled::<u32, i64>(component)
    }

    fn from_component_common(component: u32) -> (out: i64) {
        rescale(component)
    }
}

impl FromComponentCommon<i64> for u32 {
    open spec fn converted(component: i64) -> u32 {
        rescaled::<i64, u32>(component)
    }

    fn from_component_common(component: i64) -> (out: u32) {
        rescale(component)
    }
}

impl FromComponentCommon<u32> for i128 {
    open spec fn converted(component: u32) -> i128 {
        rescaled::<u32, i128>(component)
    }

    fn from_component_common(component: u32) -> (out: i128) {
        rescale(component)
    }
}

impl FromComponentCommon<i128> for u32 {
    open spec fn converted(component: i128) -> u32 {
        rescaled::<i128, u32>(component)
    }

    fn from_component_common(component: i128) -> (out: u32) {
        rescale(component)
    }
}

impl FromComponentCommon<u32> for isize {
    open spec fn converted(component: u32) -> isize {
        rescaled::<u32, isize>(component)
    }

    fn from_component_common(component: u32) -> (out: isize) {
        rescale(component)
    }
}

impl FromComponentCommon<isize> for u32 {
    open spec fn converted(component: isize) -> u32 {
        rescaled::<isize, u32>(component)
    }

    fn from_component_common(component: isize) -> (out: u32) {
        rescale(component)
    }
}

impl FromComponentCommon<u64> for u128 {
    open spec fn converted(component: u64) -> u128 {
        rescaled::<u64, u128>(component)
    }

    fn from_component_common(component: u64) -> (out: u128) {
        rescale(component)
    }
}

impl FromComponentCommon<u128> for u64 {
    open spec fn converted(component: u128) -> u64 {
        rescaled::<u128, u64>(component)
    }

    fn from_component_common(component: u128) -> (out: u64) {
        rescale(component)
    }
}

impl FromComponentCommon<u64> for usize {
    open spec fn converted(component: u64) -> usize {
        rescaled::<u64, usize>(component)
    }

    fn from_component_common(component: u64) -> (out: usize) {
        rescale(component)
    }
}

impl FromComponentCommon<usize> for u64 {
    open spec fn converted(component: usize) -> u64 {
        rescaled::<usize, u64>(component)
    }

    fn from_component_common(component: usize) -> (out: u64) {
        rescale(component)
    }
}

impl FromComponentCommon<u64> for i8 {
    open spec fn converted(component: u64) -> i8 {
        rescaled::<u64, i8>(component)
    }

    fn from_component_common(component: u64) -> (out: i8) {
        rescale(component)
    }
}

impl FromComponentCommon<i8> for u64 {
    open spec fn converted(component: i8) -> u64 {
        rescaled::<i8, u64>(component)
    }

    fn from_component_common(component: i8) -> (out: u64) {
        rescale(component)
    }
}

impl FromComponentCommon<u64> for i16 {
    open spec fn converted(component: u64) -> i16 {
        rescaled::<u64, i16>(component)
    }

    fn from_component_common(component: u64) -> (out: i16) {
        rescale(component)
    }
}

impl FromComponentCommon<i16> for u64 {
    open spec fn converted(component: i16) -> u64 {
        rescaled::<i16, u64>(component)
    }

    fn from_component_common(component: i16) -> (out: u64) {
        rescale(component)
    }
}

impl FromComponentCommon<u64> for i32 {
    open spec fn converted(component: u64) -> i32 {
        rescaled::<u64, i32>(component)
    }

    fn from_component_common(component: u64) -> (out: i32) {
        rescale(component)
    }
}

impl FromComponentCommon<i32> for u64 {
    open spec fn converted(component: i32) -> u64 {
        rescaled::<i32, u64>(component)
    }

    fn from_component_common(component: i32) -> (out: u64) {
        rescale(component)
    }
}

impl FromComponentCommon<u64> for i64 {
    open spec fn converted(component: u64) -> i64 {
        rescaled::<u64, i64>(component)
    }

    fn from_component_common(component: u64) -> (out: i64) {
        rescale(component)
    }
}

impl FromComponentCommon<i64> for u64 {
    open spec fn converted(component: i64) -> u64 {
        rescaled::<i64, u64>(component)
    }

    fn from_component_common(component: i64) -> (out: u64) {
        rescale(component)
    }
}

impl FromComponentCommon<u64> for i128 {
    open spec fn converted(component: u64) -> i128 {
        rescaled::<u64, i128>(component)
    }

    fn from_component_common(component: u64) -> (out: i128) {
        rescale(component)
    }
}

impl FromComponentCommon<i128> for u64 {
    open spec fn converted(component: i128) -> u64 {
        rescaled::<i128, u64>(component)
    }

    fn from_component_common(component: i128) -> (out: u64) {
        rescale(component)
    }
}

impl FromComponentCommon<u64> for isize {
    open spec fn converted(component: u64) -> isize {
        rescaled::<u64, isize>(component)
    }

    fn from_component_common(component: u64) -> (out: isize) {
        rescale(component)
    }
}

impl FromComponentCommon<isize> for u64 {
    open spec fn converted(component: isize) -> u64 {
        rescaled::<isize, u64>(component)
    }

    fn from_component_common(component: isize) -> (out: u64) {
        rescale(component)
    }
}

impl FromComponentCommon<u128> for usize {
    open spec fn converted(component: u128) -> usize {
        rescaled::<u128, usize>(component)
    }

    fn from_component_common(component: u128) -> (out: usize) {
        rescale(component)
    }
}

impl FromComponentCommon<usize> for u128 {
    open spec fn converted(component: usize) -> u128 {
        rescaled::<usize, u128>(component)
    }

    fn from_component_common(component: usize) -> (out: u128) {
        rescale(component)
    }
}

impl FromComponentCommon<u128> for i8 {
    open spec fn converted(component: u128) -> i8 {
        rescaled::<u128, i8>(component)
    }

    fn from_component_common(component: u128) -> (out: i8) {
        rescale(component)
    }
}

impl FromComponentCommon<i8> for u128 {
    open spec fn converted(component: i8) -> u128 {
        rescaled::<i8, u128>(component)
    }

    fn from_component_common(component: i8) -> (out: u128) {
        rescale(component)
    }
}

impl FromComponentCommon<u128> for i16 {
    open spec fn converted(component: u128) -> i16 {
        rescaled::<u128, i16>(component)
    }

    fn from_component_common(component: u128) -> (out: i16) {
        rescale(component)
    }
}

impl FromComponentCommon<i16> for u128 {
    open spec fn converted(component: i16) -> u128 {
        rescaled::<i16, u128>(component)
    }

    fn from_component_common(component: i16) -> (out: u128) {
        rescale(component)
    }
}

impl FromComponentCommon<u128> for i32 {
    open spec fn converted(component: u128) -> i32 {
        rescaled::<u128, i32>(component)
    }

    fn from_component_common(component: u128) -> (out: i32) {
        rescale(component)
    }
}

impl FromComponentCommon<i32> for u128 {
    open spec fn converted(component: i32) -> u128 {
        rescaled::<i32, u128>(component)
    }

    fn from_component_common(component: i32) -> (out: u128) {
        rescale(component)
    }
}

impl FromComponentCommon<u128> for i64 {
    open spec fn converted(component: u128) -> i64 {
        rescaled::<u128, i64>(component)
    }

    fn from_component_common(component: u128) -> (out: i64) {
        rescale(component)
    }
}

impl FromComponentCommon<i64> for u128 {
    open spec fn converted(component: i64) -> u128 {
        rescaled::<i64, u128>(component)
    }

    fn from_component_common(component: i64) -> (out: u128) {
        rescale(component)
    }
}

impl FromComponentCommon<u128> for i128 {
    open spec fn converted(component: u128) -> i128 {
        rescaled::<u128, i128>(component)
    }

    fn from_component_common(component: u128) -> (out: i128) {
        rescale(component)
    }
}

impl FromComponentCommon<i128> for u128 {
    open spec fn converted(component: i128) -> u128 {
        rescaled::<i128, u128>(component)
    }

    fn from_component_common(component: i128) -> (out: u128) {
        rescale(component)
    }
}

impl FromComponentCommon<u128> for isize {
    open spec fn converted(component: u128) -> isize {
        rescaled::<u128, isize>(component)
    }

    fn from_component_common(component: u128) -> (out: isize) {
        rescale(component)
    }
}

impl FromComponentCommon<isize> for u128 {
    open spec fn converted(component: isize) -> u128 {
        rescaled::<isize, u128>(component)
    }

    fn from_component_common(component: isize) -> (out: u128) {
        rescale(component)
    }
}

impl FromComponentCommon<usize> for i8 {
    open spec fn converted(component: usize) -> i8 {
        rescaled::<usize, i8>(component)
    }

    fn from_component_common(component: usize) -> (out: i8) {
        rescale(component)
    }
}

impl FromComponentCommon<i8> for usize {
    open spec fn converted(component: i8) -> usize {
        rescaled::<i8, usize>(component)
    }

    fn from_component_common(component: i8) -> (out: usize) {
        rescale(component)
    }
}

impl FromComponentCommon<usize> for i16 {
    open spec fn converted(component: usize) -> i16 {
        rescaled::<usize, i16>(component)
    }

    fn from_component_common(component: usize) -> (out: i16) {
        rescale(component)
    }
}

impl FromComponentCommon<i16> for usize {
    open spec fn converted(component: i16) -> usize {
        rescaled::<i16, usize>(component)
    }

    fn from_component_common(component: i16) -> (out: usize) {
        rescale(component)
    }
}

impl FromComponentCommon<usize> for i32 {
    open spec fn converted(component: usize) -> i32 {
        rescaled::<usize, i32>(component)
    }

    fn from_component_common(component: usize) -> (out: i32) {
        rescale(component)
    }
}

impl FromComponentCommon<i32> for usize {
    open spec fn converted(component: i32) -> usize {
        rescaled::<i32, usize>(component)
    }

    fn from_component_common(component: i32) -> (out: usize) {
        rescale(component)
    }
}

impl FromComponentCommon<usize> for i64 {
    open spec fn converted(component: usize) -> i64 {
        rescaled::<usize, i64>(component)
    }

    fn from_component_common(component: usize) -> (out: i64) {
        rescale(component)
    }
}

impl FromComponentCommon<i64> for usize {
    open spec fn converted(component: i64) -> usize {
        rescaled::<i64, usize>(component)
    }

    fn from_component_common(component: i64) -> (out: usize) {
        rescale(component)
    }
}

impl FromComponentCommon<usize> for i128 {
    open spec fn converted(component: usize) -> i128 {
        rescaled::<usize, i128>(component)
    }

    fn from_component_common(component: usize) -> (out: i128) {
        rescale(component)
    }
}

impl FromComponentCommon<i128> for usize {
    open spec fn converted(component: i128) -> usize {
        rescaled::<i128, usize>(component)
    }

    fn from_component_common(component: i128) -> (out: usize) {
        rescale(component)
    }
}

impl FromComponentCommon<usize> for isize {
    open spec fn converted(component: usize) -> isize {
        rescaled::<usize, isize>(component)
    }

    fn from_component_common(component: usize) -> (out: isize) {
        rescale(component)
    }
}

impl FromComponentCommon<isize> for usize {
    open spec fn converted(component: isize) -> usize {
        rescaled::<isize, usize>(component)
    }

    fn from_component_common(component: isize) -> (out: usize) {
        rescale(component)
    }
}

impl FromComponentCommon<i8> for i16 {
    open spec fn converted(component: i8) -> i16 {
        rescaled::<i8, i16>(component)
    }

    fn from_component_common(component: i8) -> (out: i16) {
        rescale(component)
    }
}

impl FromComponentCommon<i16> for i8 {
    open spec fn converted(component: i16) -> i8 {
        rescaled::<i16, i8>(component)
    }

    fn from_component_common(component: i16) -> (out: i8) {
        rescale(component)
    }
}

impl FromComponentCommon<i8> for i32 {
    open spec fn converted(component: i8) -> i32 {
        rescaled::<i8, i32>(component)
    }

    fn from_component_common(component: i8) -> (out: i32) {
        rescale(component)
    }
}

impl FromComponentCommon<i32> for i8 {
    open spec fn converted(component: i32) -> i8 {
        rescaled::<i32, i8>(component)
    }

    fn from_component_common(component: i32) -> (out: i8) {
        rescale(component)
    }
}

impl FromComponentCommon<i8> for i64 {
    open spec fn converted(component: i8) -> i64 {
        rescaled::<i8, i64>(component)
    }

    fn from_component_common(component: i8) -> (out: i64) {
        rescale(component)
    }
}

impl FromComponentCommon<i64> for i8 {
    open spec fn converted(component: i64) -> i8 {
        rescaled::<i64, i8>(component)
    }

    fn from_component_common(component: i64) -> (out: i8) {
        rescale(component)
    }
}

impl FromComponentCommon<i8> for i128 {
    open spec fn converted(component: i8) -> i128 {
        rescaled::<i8, i128>(component)
    }

    fn from_component_common(component: i8) -> (out: i128) {
        rescale(component)
    }
}

impl FromComponentCommon<i128> for i8 {
    open spec fn converted(component: i128) -> i8 {
        rescaled::<i128, i8>(component)
    }

    fn from_component_common(component: i128) -> (out: i8) {
        rescale(component)
    }
}

impl FromComponentCommon<i8> for isize {
    open spec fn converted(component: i8) -> isize {
        rescaled::<i8, isize>(component)
    }

    fn from_component_common(component: i8) -> (out: isize) {
        rescale(component)
    }
}

impl FromComponentCommon<isize> for i8 {
    open spec fn converted(component: isize) -> i8 {
        rescaled::<isize, i8>(component)
    }

    fn from_component_common(component: isize) -> (out: i8) {
        rescale(component)
    }
}

impl FromComponentCommon<i16> for i32 {
    open spec fn converted(component: i16) -> i32 {
        rescaled::<i16, i32>(component)
    }

    fn from_component_common(component: i16) -> (out: i32) {
        rescale(component)
    }
}

impl FromComponentCommon<i32> for i16 {
    open spec fn converted(component: i32) -> i16 {
        rescaled::<i32, i16>(component)
    }

    fn from_component_common(component: i32) -> (out: i16) {
        rescale(component)
    }
}

impl FromComponentCommon<i16> for i64 {
    open spec fn converted(component: i16) -> i64 {
        rescaled::<i16, i64>(component)
    }

    fn from_component_common(component: i16) -> (out: i64) {
        rescale(component)
    }
}

impl FromComponentCommon<i64> for i16 {
    open spec fn converted(component: i64) -> i16 {
        rescaled::<i64, i16>(component)
    }

    fn from_component_common(component: i64) -> (out: i16) {
        rescale(component)
    }
}

impl FromComponentCommon<i16> for i128 {
    open spec fn converted(component: i16) -> i128 {
        rescaled::<i16, i128>(component)
    }

    fn from_component_common(component: i16) -> (out: i128) {
        rescale(component)
    }
}

impl FromComponentCommon<i128> for i16 {
    open spec fn converted(component: i128) -> i16 {
        rescaled::<i128, i16>(component)
    }

    fn from_component_common(component: i128) -> (out: i16) {
        rescale(component)
    }
}

impl FromComponentCommon<i16> for isize {
    open spec fn converted(component: i16) -> isize {
        rescaled::<i16, isize>(component)
    }

    fn from_component_common(component: i16) -> (out: isize) {
        rescale(component)
    }
}

impl FromComponentCommon<isize> for i16 {
    open spec fn converted(component: isize) -> i16 {
        rescaled::<isize, i16>(component)
    }

    fn from_component_common(component: isize) -> (out: i16) {
        rescale(component)
    }
}

impl FromComponentCommon<i32> for i64 {
    open spec fn converted(component: i32) -> i64 {
        rescaled::<i32, i64>(component)
    }

    fn from_component_common(component: i32) -> (out: i64) {
        rescale(component)
    }
}

impl FromComponentCommon<i64> for i32 {
    open spec fn converted(component: i64) -> i32 {
        rescaled::<i64, i32>(component)
    }

    fn from_component_common(component: i64) -> (out: i32) {
        rescale(component)
    }
}

impl FromComponentCommon<i32> for i128 {
    open spec fn converted(component: i32) -> i128 {
        rescaled::<i32, i128>(component)
    }

    fn from_component_common(component: i32) -> (out: i128) {
        rescale(component)
    }
}

impl FromComponentCommon<i128> for i32 {
    open spec fn converted(component: i128) -> i32 {
        rescaled::<i128, i32>(component)
    }

    fn from_component_common(component: i128) -> (out: i32) {
        rescale(component)
    }
}

impl FromComponentCommon<i32> for isize {
    open spec fn converted(component: i32) -> isize {
        rescaled::<i32, isize>(component)
    }

    fn from_component_common(component: i32) -> (out: isize) {
        rescale(component)
    }
}

impl FromComponentCommon<isize> for i32 {
    open spec fn converted(component: isize) -> i32 {
        rescaled::<isize, i32>(component)
    }

    fn from_component_common(component: isize) -> (out: i32) {
        rescale(component)
    }
}

impl FromComponentCommon<i64> for i128 {
    open spec fn converted(component: i64) -> i128 {
        rescaled::<i64, i128>(component)
    }

    fn from_component_common(component: i64) -> (out: i128) {
        rescale(component)
    }
}

impl FromComponentCommon<i128> for i64 {
    open spec fn converted(component: i128) -> i64 {
        rescaled::<i128, i64>(component)
    }

    fn from_component_common(component: i128) -> (out: i64) {
        rescale(component)
    }
}

impl FromComponentCommon<i64> for isize {
    open spec fn converted(component: i64) -> isize {
        rescaled::<i64, isize>(component)
    }

    fn from_component_common(component: i64) -> (out: isize) {
        rescale(component)
    }
}

impl FromComponentCommon<isize> for i64 {
    open spec fn converted(component: isize) -> i64 {
        rescaled::<isize, i64>(component)
    }

    fn from_component_common(component: isize) -> (out: i64) {
        rescale(component)
    }
}

impl FromComponentCommon<i128> for isize {
    open spec fn converted(component: i128) -> isize {
        rescaled::<i128, isize>(component)
    }

    fn from_component_common(component: i128) -> (out: isize) {
        rescale(component)
    }
}

impl FromComponentCommon<isize> for i128 {
    open spec fn converted(component: isize) -> i128 {
        rescaled::<isize, i128>(component)
    }

    fn from_component_common(component: isize) -> (out: i128) {
        rescale(component)
    }
}

} // verus!
