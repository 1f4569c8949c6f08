//! The plain conversions between formats of one component type: the
//! components keep their values and move to the places that the new format
//! has for them; an alpha that the new format has no place for is dropped.

use crate::abgr::Abgr;
use crate::argb::Argb;
use crate::bgr::Bgr;
use crate::bgra::Bgra;
use crate::gray::Gray;
use crate::gray_alpha::GrayAlpha;
use crate::grb::Grb;
use crate::rgb::Rgb;
use crate::rgba::Rgba;
use vstd::prelude::*;

verus! {

/// `From::from` of a type for itself, which the standard library has for
/// every type: it returns its argument unchanged.
pub assume_specification<Same>[ <Same as std::convert::From<Same>>::from ](t: Same) -> (out: Same)
    ensures
        out == t,
;

impl<T> From<Rgba<T>> for Rgb<T> {
    fn from(value: Rgba<T>) -> (out: Self) {
        Rgb { r: value.r, g: value.g, b: value.b }
    }
}

impl<T> vstd::std_specs::convert::FromSpecImpl<Rgba<T>> for Rgb<T> {
    open spec fn obeys_from_spec() -> bool {
        true
    }

    open spec fn from_spec(value: Rgba<T>) -> Self {
        Rgb { r: value.r, g: value.g, b: value.b }
    }
}

impl<T> From<Argb<T>> for Rgb<T> {
    fn from(value: Argb<T>) -> (out: Self) {
        Rgb { r: value.r, g: value.g, b: value.b }
    }
}

impl<T> vstd::std_specs::convert::FromSpecImpl<Argb<T>> for Rgb<T> {
    open spec fn obeys_from_spec() -> bool {
        true
    }

    open spec fn from_spec(value: Argb<T>) -> Self {
        Rgb { r: value.r, g: value.g, b: value.b }
    }
}

impl<T> From<Bgra<T>> for Rgb<T> {
    fn from(value: Bgra<T>) -> (out: Self) {
        Rgb { r: value.r, g: value.g, b: value.b }
    }
}

impl<T> vstd::std_specs::convert::FromSpecImpl<Bgra<T>> for Rgb<T> {
    open spec fn obeys_from_spec() -> bool {
        true
    }

    open spec fn from_spec(value: Bgra<T>) -> Self {
        Rgb { r: value.r, g: value.g, b: value.b }
    }
}

impl<T> From<Abgr<T>> for Rgb<T> {
    fn from(value: Abgr<T>) -> (out: Self) {
        Rgb { r: value.r, g: value.g, b: value.b }
    }
}

impl<T> vstd::std_specs::convert::FromSpecImpl<Abgr<T>> for Rgb<T> {
    open spec fn obeys_from_spec() -> bool {
        true
    }

    open spec fn from_spec(value: Abgr<T>) -> Self {
        Rgb { r: value.r, g: value.g, b: value.b }
    }
}

impl<T> From<Bgr<T>> for Rgb<T> {
    fn from(value: Bgr<T>) -> (out: Self) {
        Rgb { r: value.r, g: value.g, b: value.b }
    }
}

impl<T> vstd::std_specs::convert::FromSpecImpl<Bgr<T>> for Rgb<T> {
    open spec fn obeys_from_spec() -> bool {
        true
    }

    open spec fn from_spec(value: Bgr<T>) -> Self {
        Rgb { r: value.r, g: value.g, b: value.b }
    }
}

impl<T> From<Grb<T>> for Rgb<T> {
    fn from(value: Grb<T>) -> (out: Self) {
        Rgb { r: value.r, g: value.g, b: value.b }
    }
}

impl<T> vstd::std_specs::convert::FromSpecImpl<Grb<T>> for Rgb<T> {
    open spec fn obeys_from_spec() -> bool {
        true
    }

    open spec fn from_spec(value: Grb<T>) -> Self {
        Rgb { r: value.r, g: value.g, b: value.b }
    }
}

impl<T> From<Rgba<T>> for Bgr<T> {
    fn from(value: Rgba<T>) -> (out: Self) {
        Bgr { b: value.b, g: value.g, r: value.r }
    }
}

impl<T> vstd::std_specs::convert::FromSpecImpl<Rgba<T>> for Bgr<T> {
    open spec fn obeys_from_spec() -> bool {
        true
    }

    open spec fn from_spec(value: Rgba<T>) -> Self {
        Bgr { b: value.b, g: value.g, r: value.r }
    }
}

impl<T> From<Argb<T>> for Bgr<T> {
    fn from(value: Argb<T>) -> (out: Self) {
        Bgr { b: value.b, g: value.g, r: value.r }
    }
}

impl<T> vstd::std_specs::convert::FromSpecImpl<Argb<T>> for Bgr<T> {
    open spec fn obeys_from_spec() -> bool {
        true
    }

    open spec fn from_spec(value: Argb<T>) -> Self {
        Bgr { b: value.b, g: value.g, r: value.r }
    }
}

impl<T> From<Bgra<T>> for Bgr<T> {
    fn from(value: Bgra<T>) -> (out: Self) {
        Bgr { b: value.b, g: value.g, r: value.r }
    }
}

impl<T> vstd::std_specs::convert::FromSpecImpl<Bgra<T>> for Bgr<T> {
    open spec fn obeys_from_spec() -> bool {
        true
    }

    open spec fn from_spec(value: Bgra<T>) -> Self {
        Bgr { b: value.b, g: value.g, r: value.r }
    }
}

impl<T> From<Abgr<T>> for Bgr<T> {
    fn from(value: Abgr<T>) -> (out: Self) {
        Bgr { b: value.b, g: value.g, r: value.r }
    }
}

impl<T> vstd::std_specs::convert::FromSpecImpl<Abgr<T>> for Bgr<T> {
    open spec fn obeys_from_spec() -> bool {
        true
    }

    open spec fn from_spec(value: Abgr<T>) -> Self {
        Bgr { b: value.b, g: value.g, r: value.r }
    }
}

impl<T> From<Rgb<T>> for Bgr<T> {
    fn from(value: Rgb<T>) -> (out: Self) {
        Bgr { b: value.b, g: value.g, r: value.r }
    }
}

impl<T> vstd::std_specs::convert::FromSpecImpl<Rgb<T>> for Bgr<T> {
    open spec fn obeys_from_spec() -> bool {
        true
    }

    open spec fn from_spec(value: Rgb<T>) -> Self {
        Bgr { b: value.b, g: value.g, r: value.r }
    }
}

impl<T> From<Grb<T>> for Bgr<T> {
    fn from(value: Grb<T>) -> (out: Self) {
        Bgr { b: value.b, g: value.g, r: value.r }
    }
}

impl<T> vstd::std_specs::convert::FromSpecImpl<Grb<T>> for Bgr<T> {
    open spec fn obeys_from_spec() -> bool {
        true
    }

    open spec fn from_spec(value: Grb<T>) -> Self {
        Bgr { b: value.b, g: value.g, r: value.r }
    }
}

impl<T> From<Rgba<T>> for Grb<T> {
    fn from(value: Rgba<T>) -> (out: Self) {
        Grb { g: value.g, r: value.r, b: value.b }
    }
}

impl<T> vstd::std_specs::convert::FromSpecImpl<Rgba<T>> for Grb<T> {
    open spec fn obeys_from_spec() -> bool {
        true
    }

    open spec fn from_spec(value: Rgba<T>) -> Self {
        Grb { g: value.g, r: value.r, b: value.b }
    }
}

impl<T> From<Argb<T>> for Grb<T> {
    fn from(value: Argb<T>) -> (out: Self) {
        Grb { g: value.g, r: value.r, b: value.b }
    }
}

impl<T> vstd::std_specs::convert::FromSpecImpl<Argb<T>> for Grb<T> {
    open spec fn obeys_from_spec() -> bool {
        true
    }

    open spec fn from_spec(value: Argb<T>) -> Self {
        Grb { g: value.g, r: value.r, b: value.b }
    }
}

impl<T> From<Bgra<T>> for Grb<T> {
    fn from(value: Bgra<T>) -> (out: Self) {
        Grb { g: value.g, r: value.r, b: value.b }
    }
}

impl<T> vstd::std_specs::convert::FromSpecImpl<Bgra<T>> for Grb<T> {
    open spec fn obeys_from_spec() -> bool {
        true
    }

    open spec fn from_spec(value: Bgra<T>) -> Self {
        Grb { g: value.g, r: value.r, b: value.b }
    }
}

impl<T> From<Abgr<T>> for Grb<T> {
    fn from(value: Abgr<T>) -> (out: Self) {
        Grb { g: value.g, r: value.r, b: value.b }
    }
}

impl<T> vstd::std_specs::convert::FromSpecImpl<Abgr<T>> for Grb<T> {
    open spec fn obeys_from_spec() -> bool {
        true
    }

    open spec fn from_spec(value: Abgr<T>) -> Self {
        Grb { g: value.g, r: value.r, b: value.b }
    }
}

impl<T> From<Rgb<T>> for Grb<T> {
    fn from(value: Rgb<T>) -> (out: Self) {
        Grb { g: value.g, r: value.r, b: value.b }
    }
}

impl<T> vstd::std_specs::convert::FromSpecImpl<Rgb<T>> for Grb<T> {
    open spec fn obeys_from_spec() -> bool {
        true
    }

    open spec fn from_spec(value: Rgb<T>) -> Self {
        Grb { g: value.g, r: value.r, b: value.b }
    }
}

impl<T> From<Bgr<T>> for Grb<T> {
    fn from(value: Bgr<T>) -> (out: Self) {
        Grb { g: value.g, r: value.r, b: value.b }
    }
}

impl<T> vstd::std_specs::convert::FromSpecImpl<Bgr<T>> for Grb<T> {
    open spec fn obeys_from_spec() -> bool {
        true
    }

    open spec fn from_spec(value: Bgr<T>) -> Self {
        Grb { g: value.g, r: value.r, b: value.b }
    }
}

impl<T> From<Argb<T>> for Rgba<T> {
    fn from(value: Argb<T>) -> (out: Self) {
        Rgba { r: value.r, g: value.g, b: value.b, a: value.a }
    }
}

impl<T> vstd::std_specs::convert::FromSpecImpl<Argb<T>> for Rgba<T> {
    open spec fn obeys_from_spec() -> bool {
        true
    }

    open spec fn from_spec(value: Argb<T>) -> Self {
        Rgba { r: value.r, g: value.g, b: value.b, a: value.a }
    }
}

impl<T> From<Bgra<T>> for Rgba<T> {
    fn from(value: Bgra<T>) -> (out: Self) {
        Rgba { r: value.r, g: value.g, b: value.b, a: value.a }
    }
}

impl<T> vstd::std_specs::convert::FromSpecImpl<Bgra<T>> for Rgba<T> {
    open spec fn obeys_from_spec() -> bool {
        true
    }

    open spec fn from_spec(value: Bgra<T>) -> Self {
        Rgba { r: value.r, g: value.g, b: value.b, a: value.a }
    }
}

impl<T> From<Abgr<T>> for Rgba<T> {
    fn from(value: Abgr<T>) -> (out: Self) {
        Rgba { r: value.r, g: value.g, b: value.b, a: value.a }
    }
}

impl<T> vstd::std_specs::convert::FromSpecImpl<Abgr<T>> for Rgba<T> {
    open spec fn obeys_from_spec() -> bool {
        true
    }

    open spec fn from_spec(value: Abgr<T>) -> Self {
        Rgba { r: value.r, g: value.g, b: value.b, a: value.a }
    }
}

impl<T> From<Rgba<T>> for Argb<T> {
    fn from(value: Rgba<T>) -> (out: Self) {
        Argb { a: value.a, r: value.r, g: value.g, b: value.b }
    }
}

impl<T> vstd::std_specs::convert::FromSpecImpl<Rgba<T>> for Argb<T> {
    open spec fn obeys_from_spec() -> bool {
        true
    }

    open spec fn from_spec(value: Rgba<T>) -> Self {
        Argb { a: value.a, r: value.r, g: value.g, b: value.b }
    }
}

impl<T> From<Bgra<T>> for Argb<T> {
    fn from(value: Bgra<T>) -> (out: Self) {
        Argb { a: value.a, r: value.r, g: value.g, b: value.b }
    }
}

impl<T> vstd::std_specs::convert::FromSpecImpl<Bgra<T>> for Argb<T> {
    open spec fn obeys_from_spec() -> bool {
        true
    }

    open spec fn from_spec(value: Bgra<T>) -> Self {
        Argb { a: value.a, r: value.r, g: value.g, b: value.b }
    }
}

impl<T> From<Abgr<T>> for Argb<T> {
    fn from(value: Abgr<T>) -> (out: Self) {
        Argb { a: value.a, r: value.r, g: value.g, b: value.b }
    }
}

impl<T> vstd::std_specs::convert::FromSpecImpl<Abgr<T>> for Argb<T> {
    open spec fn obeys_from_spec() -> bool {
        true
    }

    open spec fn from_spec(value: Abgr<T>) -> Self {
        Argb { a: value.a, r: value.r, g: value.g, b: value.b }
    }
}

impl<T> From<Rgba<T>> for Bgra<T> {
    fn from(value: Rgba<T>) -> (out: Self) {
        Bgra { b: value.b, g: value.g, r: value.r, a: value.a }
    }
}

impl<T> vstd::std_specs::convert::FromSpecImpl<Rgba<T>> for Bgra<T> {
    open spec fn obeys_from_spec() -> bool {
        true
    }

    open spec fn from_spec(value: Rgba<T>) -> Self {
        Bgra { b: value.b, g: value.g, r: value.r, a: value.a }
    }
}

impl<T> From<Argb<T>> for Bgra<T> {
    fn from(value: Argb<T>) -> (out: Self) {
        Bgra { b: value.b, g: value.g, r: value.r, a: value.a }
    }
}

impl<T> vstd::std_specs::convert::FromSpecImpl<Argb<T>> for Bgra<T> {
    open spec fn obeys_from_spec() -> bool {
        true
    }

    open spec fn from_spec(value: Argb<T>) -> Self {
        Bgra { b: value.b, g: value.g, r: value.r, a: value.a }
    }
}

impl<T> From<Abgr<T>> for Bgra<T> {
    fn from(value: Abgr<T>) -> (out: Self) {
        Bgra { b: value.b, g: value.g, r: value.r, a: value.a }
    }
}

impl<T> vstd::std_specs::convert::FromSpecImpl<Abgr<T>> for Bgra<T> {
    open spec fn obeys_from_spec() -> bool {
        true
    }

    open spec fn from_spec(value: Abgr<T>) -> Self {
        Bgra { b: value.b, g: value.g, r: value.r, a: value.a }
    }
}

impl<T> From<Rgba<T>> for Abgr<T> {
    fn from(value: Rgba<T>) -> (out: Self) {
        Abgr { a: value.a, b: value.b, g: value.g, r: value.r }
    }
}

impl<T> vstd::std_specs::convert::FromSpecImpl<Rgba<T>> for Abgr<T> {
    open spec fn obeys_from_spec() -> bool {
        true
    }

    open spec fn from_spec(value: Rgba<T>) -> Self {
        Abgr { a: value.a, b: value.b, g: value.g, r: value.r }
    }
}

impl<T> From<Argb<T>> for Abgr<T> {
    fn from(value: Argb<T>) -> (out: Self) {
        Abgr { a: value.a, b: value.b, g: value.g, r: value.r }
    }
}

impl<T> vstd::std_specs::convert::FromSpecImpl<Argb<T>> for Abgr<T> {
    open spec fn obeys_from_spec() -> bool {
        true
    }

    open spec fn from_spec(value: Argb<T>) -> Self {
        Abgr { a: value.a, b: value.b, g: value.g, r: value.r }
    }
}

impl<T> From<Bgra<T>> for Abgr<T> {
    fn from(value: Bgra<T>) -> (out: Self) {
        Abgr { a: value.a, b: value.b, g: value.g, r: value.r }
    }
}

impl<T> vstd::std_specs::convert::FromSpecImpl<Bgra<T>> for Abgr<T> {
    open spec fn obeys_from_spec() -> bool {
        true
    }

    open spec fn from_spec(value: Bgra<T>) -> Self {
        Abgr { a: value.a, b: value.b, g: value.g, r: value.r }
    }
}

impl<T> From<GrayAlpha<T>> for Gray<T> {
    fn from(value: GrayAlpha<T>) -> (out: Self) {
        Gray { gray: value.gray }
    }
}

impl<T> vstd::std_specs::convert::FromSpecImpl<GrayAlpha<T>> for Gray<T> {
    open spec fn obeys_from_spec() -> bool {
        true
    }

    open spec fn from_spec(value: GrayAlpha<T>) -> Self {
        Gray { gray: value.gray }
    }
}

} // verus!
