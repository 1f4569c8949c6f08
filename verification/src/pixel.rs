//! What every pixel format offers: its components as a list, and the way
//! back from the list.

pub mod as_slice;
pub(crate) mod num_cast;
pub mod pixel_component;

use crate::abgr::Abgr;
use crate::argb::Argb;
use crate::bgr::Bgr;
use crate::bgra::Bgra;
use crate::gray::Gray;
use crate::gray_alpha::GrayAlpha;
use crate::grb::Grb;
use crate::pixel::as_slice::AsSlice;
use crate::rgb::Rgb;
use crate::rgba::Rgba;
use vstd::prelude::*;

verus! {

/// A Pixel made up of a compile-time known number of contiguously stored `T`s.
///
/// Usually `T` is a small copiable intrinsic type such as `u8`, `u16` or `f32`.
///
/// A pixel is known by the list of its components in the order in which its
/// format declares them. That list is made of the color components, in their
/// declared order, and of at most one alpha component, which the format has
/// or has not.
pub trait Pixel: Copy {
    /// The component type of the pixel used for both color and alpha components if any.
    type Component: Copy;

    /// The total number of components in the pixel.
    ///
    /// If the pixel contains an alpha components then this number should be equal to the number of
    /// color components + 1. That is, you cannot have more than 1 alpha components, but you can
    /// have 0.
    const COMPONENT_COUNT: u8;

    /// The array form of `Self`
    type Array: AsSlice<Self::Component>;

    /// The color array form of `Self`
    type ColorArray: AsSlice<Self::Component>;

    /// The number that `COMPONENT_COUNT` holds.
    spec fn component_count() -> nat;

    /// Whether the format has an alpha component.
    spec fn has_alpha() -> bool;

    /// The components in the order in which the format declares them.
    spec fn component_seq(self) -> Seq<Self::Component>;

    /// The color components in the order in which the format declares them.
    spec fn color_seq(self) -> Seq<Self::Component>;

    /// The alpha component, where the format has one.
    spec fn alpha(self) -> Option<Self::Component>;

    /// A pixel has as many components as its format counts: its color
    /// components, and one more where the format has an alpha component.
    proof fn lemma_shape(self)
        ensures
            Self::COMPONENT_COUNT == Self::component_count(),
            self.component_seq().len() == Self::component_count(),
            self.color_seq().len() + (if Self::has_alpha() {
                1nat
            } else {
                0nat
            }) == Self::component_count(),
            self.alpha().is_some() == Self::has_alpha(),
    ;

    /// Two pixels with the same components are the same pixel, and so are
    /// two with the same color components and the same alpha.
    proof fn lemma_determined(self, other: Self)
        ensures
            self.component_seq() == other.component_seq() ==> self == other,
            self.color_seq() == other.color_seq() && self.alpha() == other.alpha() ==> self
                == other,
    ;

    /// Converts an owned `Pixel` type to an array of its components.
    fn components(&self) -> (out: Self::Array)
        ensures
            out.elements() == self.component_seq(),
    ;

    /// Converts an owned `Pixel` type to an array of its color components.
    fn colors(&self) -> (out: Self::ColorArray)
        ensures
            out.elements() == self.color_seq(),
    ;

    /// Converts an array of components to a `Pixel`.
    fn from_components(components: Self::Array) -> (out: Self)
        ensures
            out.component_seq() == components.elements(),
    ;

    /// Create a new instance given an array of its color components and an alpha component.
    ///
    /// A format without an alpha component takes the alpha and drops it.
    fn from_colors_alpha(colors: Self::ColorArray, alpha: Self::Component) -> (out: Self)
        ensures
            out.color_seq() == colors.elements(),
            out.alpha() == if Self::has_alpha() {
                Some(alpha)
            } else {
                None
            },
    ;

    /// Map the pixel to the same outer pixel type with optionally different color components
    /// and the exact same alpha component.
    fn map_colors(&self, f: impl FnMut(Self::Component) -> Self::Component) -> (out: Self)
        requires
            forall|i: int|
                0 <= i < self.color_seq().len() ==> call_requires(
                    f,
                    (#[trigger] self.color_seq()[i],),
                ),
        ensures
            out.alpha() == self.alpha(),
            out.color_seq().len() == self.color_seq().len(),
            forall|i: int|
                0 <= i < self.color_seq().len() ==> call_ensures(
                    f,
                    (self.color_seq()[i],),
                    #[trigger] out.color_seq()[i],
                ),
    ;

    /// Map the pixel to the same outer pixel type with the exact same color components and an
    /// optionally different alpha component. A pixel without alpha stays as it is.
    fn map_alpha(&self, f: impl FnMut(Self::Component) -> Self::Component) -> (out: Self)
        requires
            self.alpha() matches Some(alpha) ==> call_requires(f, (alpha,)),
        ensures
            out.color_seq() == self.color_seq(),
            match self.alpha() {
                Some(alpha) => out.alpha() matches Some(mapped) && call_ensures(
                    f,
                    (alpha,),
                    mapped,
                ),
                None => out == *self,
            },
    ;
}

/// The same pixel format as `Self` at the component type `U`.
pub trait PixelMap<U: Copy>: Pixel {
    /// The same pixel type as `Self` but with a different generic component type.
    type SelfType: Pixel<Component = U>;

    /// The pixel whose components are those of `self` with `f` applied to each.
    spec fn mapped(self, f: spec_fn(Self::Component) -> U) -> Self::SelfType;

    /// The components of the mapped pixel are the mapped components.
    proof fn lemma_mapped(self, f: spec_fn(Self::Component) -> U)
        ensures
            self.mapped(f).component_seq() == self.component_seq().map_values(f),
    ;

    /// Map the pixel to the same outer pixel type with an optionally different inner type.
    fn map(&self, f: impl FnMut(Self::Component) -> U) -> (out: Self::SelfType)
        requires
            forall|i: int|
                0 <= i < self.component_seq().len() ==> call_requires(
                    f,
                    (#[trigger] self.component_seq()[i],),
                ),
        ensures
            out.component_seq().len() == self.component_seq().len(),
            forall|i: int|
                0 <= i < self.component_seq().len() ==> call_ensures(
                    f,
                    (self.component_seq()[i],),
                    #[trigger] out.component_seq()[i],
                ),
    ;
}

impl<T: Copy> Pixel for Rgb<T> {
    type Component = T;

    const COMPONENT_COUNT: u8 = 3;

    type Array = [T; 3];

    type ColorArray = [T; 3];

    open spec fn component_count() -> nat {
        3
    }

    open spec fn has_alpha() -> bool {
        false
    }

    open spec fn component_seq(self) -> Seq<T> {
        seq![self.r, self.g, self.b]
    }

    open spec fn color_seq(self) -> Seq<T> {
        seq![self.r, self.g, self.b]
    }

    open spec fn alpha(self) -> Option<T> {
        None
    }

    proof fn lemma_shape(self) {
    }

    proof fn lemma_determined(self, other: Self) {
        if self.component_seq() == other.component_seq() {
            assert(self.component_seq()[0] == self.r);
            assert(self.component_seq()[1] == self.g);
            assert(self.component_seq()[2] == self.b);
            assert(other.component_seq()[0] == other.r);
            assert(other.component_seq()[1] == other.g);
            assert(other.component_seq()[2] == other.b);
        }
        if self.color_seq() == other.color_seq() && self.alpha() == other.alpha() {
            assert(self.color_seq()[0] == self.r);
            assert(self.color_seq()[1] == self.g);
            assert(self.color_seq()[2] == self.b);
            assert(other.color_seq()[0] == other.r);
            assert(other.color_seq()[1] == other.g);
            assert(other.color_seq()[2] == other.b);
        }
    }

    fn components(&self) -> (out: [T; 3]) {
        [self.r, self.g, self.b]
    }

    fn colors(&self) -> (out: [T; 3]) {
        [self.r, self.g, self.b]
    }

    fn from_components(components: [T; 3]) -> (out: Self) {
        Rgb { r: components[0], g: components[1], b: components[2] }
    }

    fn from_colors_alpha(colors: [T; 3], _alpha: T) -> (out: Self) {
        Rgb { r: colors[0], g: colors[1], b: colors[2] }
    }

    fn map_colors(&self, mut f: impl FnMut(T) -> T) -> (out: Self) {
        assert(self.color_seq()[0] == self.r);
        assert(self.color_seq()[1] == self.g);
        assert(self.color_seq()[2] == self.b);
        let r = f(self.r);
        let g = f(self.g);
        let b = f(self.b);
        Rgb { r, g, b }
    }

    fn map_alpha(&self, _f: impl FnMut(T) -> T) -> (out: Self) {
        *self
    }
}

impl<T: Copy, U: Copy> PixelMap<U> for Rgb<T> {
    type SelfType = Rgb<U>;

    open spec fn mapped(self, f: spec_fn(T) -> U) -> Rgb<U> {
        Rgb { r: f(self.r), g: f(self.g), b: f(self.b) }
    }

    proof fn lemma_mapped(self, f: spec_fn(T) -> U) {
    }

    fn map(&self, mut f: impl FnMut(T) -> U) -> (out: Rgb<U>) {
        assert(self.component_seq()[0] == self.r);
        assert(self.component_seq()[1] == self.g);
        assert(self.component_seq()[2] == self.b);
        let r = f(self.r);
        let g = f(self.g);
        let b = f(self.b);
        Rgb { r, g, b }
    }
}

impl<T: Copy> Pixel for Bgr<T> {
    type Component = T;

    const COMPONENT_COUNT: u8 = 3;

    type Array = [T; 3];

    type ColorArray = [T; 3];

    open spec fn component_count() -> nat {
        3
    }

    open spec fn has_alpha() -> bool {
        false
    }

    open spec fn component_seq(self) -> Seq<T> {
        seq![self.b, self.g, self.r]
    }

    open spec fn color_seq(self) -> Seq<T> {
        seq![self.b, self.g, self.r]
    }

    open spec fn alpha(self) -> Option<T> {
        None
    }

    proof fn lemma_shape(self) {
    }

    proof fn lemma_determined(self, other: Self) {
        if self.component_seq() == other.component_seq() {
            assert(self.component_seq()[0] == self.b);
            assert(self.component_seq()[1] == self.g);
            assert(self.component_seq()[2] == self.r);
            assert(other.component_seq()[0] == other.b);
            assert(other.component_seq()[1] == other.g);
            assert(other.component_seq()[2] == other.r);
        }
        if self.color_seq() == other.color_seq() && self.alpha() == other.alpha() {
            assert(self.color_seq()[0] == self.b);
            assert(self.color_seq()[1] == self.g);
            assert(self.color_seq()[2] == self.r);
            assert(other.color_seq()[0] == other.b);
            assert(other.color_seq()[1] == other.g);
            assert(other.color_seq()[2] == other.r);
        }
    }

    fn components(&self) -> (out: [T; 3]) {
        [self.b, self.g, self.r]
    }

    fn colors(&self) -> (out: [T; 3]) {
        [self.b, self.g, self.r]
    }

    fn from_components(components: [T; 3]) -> (out: Self) {
        Bgr { b: components[0], g: components[1], r: components[2] }
    }

    fn from_colors_alpha(colors: [T; 3], _alpha: T) -> (out: Self) {
        Bgr { b: colors[0], g: colors[1], r: colors[2] }
    }

    fn map_colors(&self, mut f: impl FnMut(T) -> T) -> (out: Self) {
        assert(self.color_seq()[0] == self.b);
        assert(self.color_seq()[1] == self.g);
        assert(self.color_seq()[2] == self.r);
        let b = f(self.b);
        let g = f(self.g);
        let r = f(self.r);
        Bgr { b, g, r }
    }

    fn map_alpha(&self, _f: impl FnMut(T) -> T) -> (out: Self) {
        *self
    }
}

impl<T: Copy, U: Copy> PixelMap<U> for Bgr<T> {
    type SelfType = Bgr<U>;

    open spec fn mapped(self, f: spec_fn(T) -> U) -> Bgr<U> {
        Bgr { b: f(self.b), g: f(self.g), r: f(self.r) }
    }

    proof fn lemma_mapped(self, f: spec_fn(T) -> U) {
    }

    fn map(&self, mut f: impl FnMut(T) -> U) -> (out: Bgr<U>) {
        assert(self.component_seq()[0] == self.b);
        assert(self.component_seq()[1] == self.g);
        assert(self.component_seq()[2] == self.r);
        let b = f(self.b);
        let g = f(self.g);
        let r = f(self.r);
        Bgr { b, g, r }
    }
}

impl<T: Copy> Pixel for Grb<T> {
    type Component = T;

    const COMPONENT_COUNT: u8 = 3;

    type Array = [T; 3];

    type ColorArray = [T; 3];

    open spec fn component_count() -> nat {
        3
    }

    open spec fn has_alpha() -> bool {
        false
    }

    open spec fn component_seq(self) -> Seq<T> {
        seq![self.g, self.r, self.b]
    }

    open spec fn color_seq(self) -> Seq<T> {
        seq![self.g, self.r, self.b]
    }

    open spec fn alpha(self) -> Option<T> {
        None
    }

    proof fn lemma_shape(self) {
    }

    proof fn lemma_determined(self, other: Self) {
        if self.component_seq() == other.component_seq() {
            assert(self.component_seq()[0] == self.g);
            assert(self.component_seq()[1] == self.r);
            assert(self.component_seq()[2] == self.b);
            assert(other.component_seq()[0] == other.g);
            assert(other.component_seq()[1] == other.r);
            assert(other.component_seq()[2] == other.b);
        }
        if self.color_seq() == other.color_seq() && self.alpha() == other.alpha() {
            assert(self.color_seq()[0] == self.g);
            assert(self.color_seq()[1] == self.r);
            assert(self.color_seq()[2] == self.b);
            assert(other.color_seq()[0] == other.g);
            assert(other.color_seq()[1] == other.r);
            assert(other.color_seq()[2] == other.b);
        }
    }

    fn components(&self) -> (out: [T; 3]) {
        [self.g, self.r, self.b]
    }

    fn colors(&self) -> (out: [T; 3]) {
        [self.g, self.r, self.b]
    }

    fn from_components(components: [T; 3]) -> (out: Self) {
        Grb { g: components[0], r: components[1], b: components[2] }
    }

    fn from_colors_alpha(colors: [T; 3], _alpha: T) -> (out: Self) {
        Grb { g: colors[0], r: colors[1], b: colors[2] }
    }

    fn map_colors(&self, mut f: impl FnMut(T) -> T) -> (out: Self) {
        assert(self.color_seq()[0] == self.g);
        assert(self.color_seq()[1] == self.r);
        assert(self.color_seq()[2] == self.b);
        let g = f(self.g);
        let r = f(self.r);
        let b = f(self.b);
        Grb { g, r, b }
    }

    fn map_alpha(&self, _f: impl FnMut(T) -> T) -> (out: Self) {
        *self
    }
}

impl<T: Copy, U: Copy> PixelMap<U> for Grb<T> {
    type SelfType = Grb<U>;

    open spec fn mapped(self, f: spec_fn(T) -> U) -> Grb<U> {
        Grb { g: f(self.g), r: f(self.r), b: f(self.b) }
    }

    proof fn lemma_mapped(self, f: spec_fn(T) -> U) {
    }

    fn map(&self, mut f: impl FnMut(T) -> U) -> (out: Grb<U>) {
        assert(self.component_seq()[0] == self.g);
        assert(self.component_seq()[1] == self.r);
        assert(self.component_seq()[2] == self.b);
        let g = f(self.g);
        let r = f(self.r);
        let b = f(self.b);
        Grb { g, r, b }
    }
}

impl<T: Copy> Pixel for Gray<T> {
    type Component = T;

    const COMPONENT_COUNT: u8 = 1;

    type Array = [T; 1];

    type ColorArray = [T; 1];

    open spec fn component_count() -> nat {
        1
    }

    open spec fn has_alpha() -> bool {
        false
    }

    open spec fn component_seq(self) -> Seq<T> {
        seq![self.gray]
    }

    open spec fn color_seq(self) -> Seq<T> {
        seq![self.gray]
    }

    open spec fn alpha(self) -> Option<T> {
        None
    }

    proof fn lemma_shape(self) {
    }

    proof fn lemma_determined(self, other: Self) {
        if self.component_seq() == other.component_seq() {
            assert(self.component_seq()[0] == self.gray);
            assert(other.component_seq()[0] == other.gray);
        }
        if self.color_seq() == other.color_seq() && self.alpha() == other.alpha() {
            assert(self.color_seq()[0] == self.gray);
            assert(other.color_seq()[0] == other.gray);
        }
    }

    fn components(&self) -> (out: [T; 1]) {
        [self.gray]
    }

    fn colors(&self) -> (out: [T; 1]) {
        [self.gray]
    }

    fn from_components(components: [T; 1]) -> (out: Self) {
        Gray { gray: components[0] }
    }

    fn from_colors_alpha(colors: [T; 1], _alpha: T) -> (out: Self) {
        Gray { gray: colors[0] }
    }

    fn map_colors(&self, mut f: impl FnMut(T) -> T) -> (out: Self) {
        assert(self.color_seq()[0] == self.gray);
        let gray = f(self.gray);
        Gray { gray }
    }

    fn map_alpha(&self, _f: impl FnMut(T) -> T) -> (out: Self) {
        *self
    }
}

impl<T: Copy, U: Copy> PixelMap<U> for Gray<T> {
    type SelfType = Gray<U>;

    open spec fn mapped(self, f: spec_fn(T) -> U) -> Gray<U> {
        Gray { gray: f(self.gray) }
    }

    proof fn lemma_mapped(self, f: spec_fn(T) -> U) {
    }

    fn map(&self, mut f: impl FnMut(T) -> U) -> (out: Gray<U>) {
        assert(self.component_seq()[0] == self.gray);
        let gray = f(self.gray);
        Gray { gray }
    }
}

impl<T: Copy> Pixel for Rgba<T> {
    type Component = T;

    const COMPONENT_COUNT: u8 = 4;

    type Array = [T; 4];

    type ColorArray = [T; 3];

    open spec fn component_count() -> nat {
        4
    }

    open spec fn has_alpha() -> bool {
        true
    }

    open spec fn component_seq(self) -> Seq<T> {
        seq![self.r, self.g, self.b, self.a]
    }

    open spec fn color_seq(self) -> Seq<T> {
        seq![self.r, self.g, self.b]
    }

    open spec fn alpha(self) -> Option<T> {
        Some(self.a)
    }

    proof fn lemma_shape(self) {
    }

    proof fn lemma_determined(self, other: Self) {
        if self.component_seq() == other.component_seq() {
            assert(self.component_seq()[0] == self.r);
            assert(self.component_seq()[1] == self.g);
            assert(self.component_seq()[2] == self.b);
            assert(self.component_seq()[3] == self.a);
            assert(other.component_seq()[0] == other.r);
            assert(other.component_seq()[1] == other.g);
            assert(other.component_seq()[2] == other.b);
            assert(other.component_seq()[3] == other.a);
        }
        if self.color_seq() == other.color_seq() && self.alpha() == other.alpha() {
            assert(self.color_seq()[0] == self.r);
            assert(self.color_seq()[1] == self.g);
            assert(self.color_seq()[2] == self.b);
            assert(other.color_seq()[0] == other.r);
            assert(other.color_seq()[1] == other.g);
            assert(other.color_seq()[2] == other.b);
        }
    }

    fn components(&self) -> (out: [T; 4]) {
        [self.r, self.g, self.b, self.a]
    }

    fn colors(&self) -> (out: [T; 3]) {
        [self.r, self.g, self.b]
    }

    fn from_components(components: [T; 4]) -> (out: Self) {
        Rgba { r: components[0], g: components[1], b: components[2], a: components[3] }
    }

    fn from_colors_alpha(colors: [T; 3], alpha: T) -> (out: Self) {
        Rgba { r: colors[0], g: colors[1], b: colors[2], a: alpha }
    }

    fn map_colors(&self, mut f: impl FnMut(T) -> T) -> (out: Self) {
        assert(self.color_seq()[0] == self.r);
        assert(self.color_seq()[1] == self.g);
        assert(self.color_seq()[2] == self.b);
        let r = f(self.r);
        let g = f(self.g);
        let b = f(self.b);
        Rgba { r, g, b, a: self.a }
    }

    fn map_alpha(&self, mut f: impl FnMut(T) -> T) -> (out: Self) {
        let a = f(self.a);
        Rgba { r: self.r, g: self.g, b: self.b, a }
    }
}

impl<T: Copy, U: Copy> PixelMap<U> for Rgba<T> {
    type SelfType = Rgba<U>;

    open spec fn mapped(self, f: spec_fn(T) -> U) -> Rgba<U> {
        Rgba { r: f(self.r), g: f(self.g), b: f(self.b), a: f(self.a) }
    }

    proof fn lemma_mapped(self, f: spec_fn(T) -> U) {
    }

    fn map(&self, mut f: impl FnMut(T) -> U) -> (out: Rgba<U>) {
        assert(self.component_seq()[0] == self.r);
        assert(self.component_seq()[1] == self.g);
        assert(self.component_seq()[2] == self.b);
        assert(self.component_seq()[3] == self.a);
        let r = f(self.r);
        let g = f(self.g);
        let b = f(self.b);
        let a = f(self.a);
        Rgba { r, g, b, a }
    }
}

impl<T: Copy> Pixel for Argb<T> {
    type Component = T;

    const COMPONENT_COUNT: u8 = 4;

    type Array = [T; 4];

    type ColorArray = [T; 3];

    open spec fn component_count() -> nat {
        4
    }

    open spec fn has_alpha() -> bool {
        true
    }

    open spec fn component_seq(self) -> Seq<T> {
        seq![self.a, self.r, self.g, self.b]
    }

    open spec fn color_seq(self) -> Seq<T> {
        seq![self.r, self.g, self.b]
    }

    open spec fn alpha(self) -> Option<T> {
        Some(self.a)
    }

    proof fn lemma_shape(self) {
    }

    proof fn lemma_determined(self, other: Self) {
        if self.component_seq() == other.component_seq() {
            assert(self.component_seq()[0] == self.a);
            assert(self.component_seq()[1] == self.r);
            assert(self.component_seq()[2] == self.g);
            assert(self.component_seq()[3] == self.b);
            assert(other.component_seq()[0] == other.a);
            assert(other.component_seq()[1] == other.r);
            assert(other.component_seq()[2] == other.g);
            assert(other.component_seq()[3] == other.b);
        }
        if self.color_seq() == other.color_seq() && self.alpha() == other.alpha() {
            assert(self.color_seq()[0] == self.r);
            assert(self.color_seq()[1] == self.g);
            assert(self.color_seq()[2] == self.b);
            assert(other.color_seq()[0] == other.r);
            assert(other.color_seq()[1] == other.g);
            assert(other.color_seq()[2] == other.b);
        }
    }

    fn components(&self) -> (out: [T; 4]) {
        [self.a, self.r, self.g, self.b]
    }

    fn colors(&self) -> (out: [T; 3]) {
        [self.r, self.g, self.b]
    }

    fn from_components(components: [T; 4]) -> (out: Self) {
        Argb { a: components[0], r: components[1], g: components[2], b: components[3] }
    }

    fn from_colors_alpha(colors: [T; 3], alpha: T) -> (out: Self) {
        Argb { a: alpha, r: colors[0], g: colors[1], b: colors[2] }
    }

    fn map_colors(&self, mut f: impl FnMut(T) -> T) -> (out: Self) {
        assert(self.color_seq()[0] == self.r);
        assert(self.color_seq()[1] == self.g);
        assert(self.color_seq()[2] == self.b);
        let r = f(self.r);
        let g = f(self.g);
        let b = f(self.b);
        Argb { a: self.a, r, g, b }
    }

    fn map_alpha(&self, mut f: impl FnMut(T) -> T) -> (out: Self) {
        let a = f(self.a);
        Argb { a, r: self.r, g: self.g, b: self.b }
    }
}

impl<T: Copy, U: Copy> PixelMap<U> for Argb<T> {
    type SelfType = Argb<U>;

    open spec fn mapped(self, f: spec_fn(T) -> U) -> Argb<U> {
        Argb { a: f(self.a), r: f(self.r), g: f(self.g), b: f(self.b) }
    }

    proof fn lemma_mapped(self, f: spec_fn(T) -> U) {
    }

    fn map(&self, mut f: impl FnMut(T) -> U) -> (out: Argb<U>) {
        assert(self.component_seq()[0] == self.a);
        assert(self.component_seq()[1] == self.r);
        assert(self.component_seq()[2] == self.g);
        assert(self.component_seq()[3] == self.b);
        let a = f(self.a);
        let r = f(self.r);
        let g = f(self.g);
        let b = f(self.b);
        Argb { a, r, g, b }
    }
}

impl<T: Copy> Pixel for Bgra<T> {
    type Component = T;

    const COMPONENT_COUNT: u8 = 4;

    type Array = [T; 4];

    type ColorArray = [T; 3];

    open spec fn component_count() -> nat {
        4
    }

    open spec fn has_alpha() -> bool {
        true
    }

    open spec fn component_seq(self) -> Seq<T> {
        seq![self.b, self.g, self.r, self.a]
    }

    open spec fn color_seq(self) -> Seq<T> {
        seq![self.b, self.g, self.r]
    }

    open spec fn alpha(self) -> Option<T> {
        Some(self.a)
    }

    proof fn lemma_shape(self) {
    }

    proof fn lemma_determined(self, other: Self) {
        if self.component_seq() == other.component_seq() {
            assert(self.component_seq()[0] == self.b);
            assert(self.component_seq()[1] == self.g);
            assert(self.component_seq()[2] == self.r);
            assert(self.component_seq()[3] == self.a);
            assert(other.component_seq()[0] == other.b);
            assert(other.component_seq()[1] == other.g);
            assert(other.component_seq()[2] == other.r);
            assert(other.component_seq()[3] == other.a);
        }
        if self.color_seq() == other.color_seq() && self.alpha() == other.alpha() {
            assert(self.color_seq()[0] == self.b);
            assert(self.color_seq()[1] == self.g);
            assert(self.color_seq()[2] == self.r);
            assert(other.color_seq()[0] == other.b);
            assert(other.color_seq()[1] == other.g);
            assert(other.color_seq()[2] == other.r);
        }
    }

    fn components(&self) -> (out: [T; 4]) {
        [self.b, self.g, self.r, self.a]
    }

    fn colors(&self) -> (out: [T; 3]) {
        [self.b, self.g, self.r]
    }

    fn from_components(components: [T; 4]) -> (out: Self) {
        Bgra { b: components[0], g: components[1], r: components[2], a: components[3] }
    }

    fn from_colors_alpha(colors: [T; 3], alpha: T) -> (out: Self) {
        Bgra { b: colors[0], g: colors[1], r: colors[2], a: alpha }
    }

    fn map_colors(&self, mut f: impl FnMut(T) -> T) -> (out: Self) {
        assert(self.color_seq()[0] == self.b);
        assert(self.color_seq()[1] == self.g);
        assert(self.color_seq()[2] == self.r);
        let b = f(self.b);
        let g = f(self.g);
        let r = f(self.r);
        Bgra { b, g, r, a: self.a }
    }

    fn map_alpha(&self, mut f: impl FnMut(T) -> T) -> (out: Self) {
        let a = f(self.a);
        Bgra { b: self.b, g: self.g, r: self.r, a }
    }
}

impl<T: Copy, U: Copy> PixelMap<U> for Bgra<T> {
    type SelfType = Bgra<U>;

    open spec fn mapped(self, f: spec_fn(T) -> U) -> Bgra<U> {
        Bgra { b: f(self.b), g: f(self.g), r: f(self.r), a: f(self.a) }
    }

    proof fn lemma_mapped(self, f: spec_fn(T) -> U) {
    }

    fn map(&self, mut f: impl FnMut(T) -> U) -> (out: Bgra<U>) {
        assert(self.component_seq()[0] == self.b);
        assert(self.component_seq()[1] == self.g);
        assert(self.component_seq()[2] == self.r);
        assert(self.component_seq()[3] == self.a);
        let b = f(self.b);
        let g = f(self.g);
        let r = f(self.r);
        let a = f(self.a);
        Bgra { b, g, r, a }
    }
}

impl<T: Copy> Pixel for Abgr<T> {
    type Component = T;

    const COMPONENT_COUNT: u8 = 4;

    type Array = [T; 4];

    type ColorArray = [T; 3];

    open spec fn component_count() -> nat {
        4
    }

    open spec fn has_alpha() -> bool {
        true
    }

    open spec fn component_seq(self) -> Seq<T> {
        seq![self.a, self.b, self.g, self.r]
    }

    open spec fn color_seq(self) -> Seq<T> {
        seq![self.b, self.g, self.r]
    }

    open spec fn alpha(self) -> Option<T> {
        Some(self.a)
    }

    proof fn lemma_shape(self) {
    }

    proof fn lemma_determined(self, other: Self) {
        if self.component_seq() == other.component_seq() {
            assert(self.component_seq()[0] == self.a);
            assert(self.component_seq()[1] == self.b);
            assert(self.component_seq()[2] == self.g);
            assert(self.component_seq()[3] == self.r);
            assert(other.component_seq()[0] == other.a);
            assert(other.component_seq()[1] == other.b);
            assert(other.component_seq()[2] == other.g);
            assert(other.component_seq()[3] == other.r);
        }
        if self.color_seq() == other.color_seq() && self.alpha() == other.alpha() {
            assert(self.color_seq()[0] == self.b);
            assert(self.color_seq()[1] == self.g);
            assert(self.color_seq()[2] == self.r);
            assert(other.color_seq()[0] == other.b);
            assert(other.color_seq()[1] == other.g);
            assert(other.color_seq()[2] == other.r);
        }
    }

    fn components(&self) -> (out: [T; 4]) {
        [self.a, self.b, self.g, self.r]
    }

    fn colors(&self) -> (out: [T; 3]) {
        [self.b, self.g, self.r]
    }

    fn from_components(components: [T; 4]) -> (out: Self) {
        Abgr { a: components[0], b: components[1], g: components[2], r: components[3] }
    }

    fn from_colors_alpha(colors: [T; 3], alpha: T) -> (out: Self) {
        Abgr { a: alpha, b: colors[0], g: colors[1], r: colors[2] }
    }

    fn map_colors(&self, mut f: impl FnMut(T) -> T) -> (out: Self) {
        assert(self.color_seq()[0] == self.b);
        assert(self.color_seq()[1] == self.g);
        assert(self.color_seq()[2] == self.r);
        let b = f(self.b);
        let g = f(self.g);
        let r = f(self.r);
        Abgr { a: self.a, b, g, r }
    }

    fn map_alpha(&self, mut f: impl FnMut(T) -> T) -> (out: Self) {
        let a = f(self.a);
        Abgr { a, b: self.b, g: self.g, r: self.r }
    }
}

impl<T: Copy, U: Copy> PixelMap<U> for Abgr<T> {
    type SelfType = Abgr<U>;

    open spec fn mapped(self, f: spec_fn(T) -> U) -> Abgr<U> {
        Abgr { a: f(self.a), b: f(self.b), g: f(self.g), r: f(self.r) }
    }

    proof fn lemma_mapped(self, f: spec_fn(T) -> U) {
    }

    fn map(&self, mut f: impl FnMut(T) -> U) -> (out: Abgr<U>) {
        assert(self.component_seq()[0] == self.a);
        assert(self.component_seq()[1] == self.b);
        assert(self.component_seq()[2] == self.g);
        assert(self.component_seq()[3] == self.r);
        let a = f(self.a);
        let b = f(self.b);
        let g = f(self.g);
        let r = f(self.r);
        Abgr { a, b, g, r }
    }
}

impl<T: Copy> Pixel for GrayAlpha<T> {
    type Component = T;

    const COMPONENT_COUNT: u8 = 2;

    type Array = [T; 2];

    type ColorArray = [T; 1];

    open spec fn component_count() -> nat {
        2
    }

    open spec fn has_alpha() -> bool {
        true
    }

    open spec fn component_seq(self) -> Seq<T> {
        seq![self.gray, self.a]
    }

    open spec fn color_seq(self) -> Seq<T> {
        seq![self.gray]
    }

    open spec fn alpha(self) -> Option<T> {
        Some(self.a)
    }

    proof fn lemma_shape(self) {
    }

    proof fn lemma_determined(self, other: Self) {
        if self.component_seq() == other.component_seq() {
            assert(self.component_seq()[0] == self.gray);
            assert(self.component_seq()[1] == self.a);
            assert(other.component_seq()[0] == other.gray);
            assert(other.component_seq()[1] == other.a);
        }
        if self.color_seq() == other.color_seq() && self.alpha() == other.alpha() {
            assert(self.color_seq()[0] == self.gray);
            assert(other.color_seq()[0] == other.gray);
        }
    }

    fn components(&self) -> (out: [T; 2]) {
        [self.gray, self.a]
    }

    fn colors(&self) -> (out: [T; 1]) {
        [self.gray]
    }

    fn from_components(components: [T; 2]) -> (out: Self) {
        GrayAlpha { gray: components[0], a: components[1] }
    }

    fn from_colors_alpha(colors: [T; 1], alpha: T) -> (out: Self) {
        GrayAlpha { gray: colors[0], a: alpha }
    }

    fn map_colors(&self, mut f: impl FnMut(T) -> T) -> (out: Self) {
        assert(self.color_seq()[0] == self.gray);
        let gray = f(self.gray);
        GrayAlpha { gray, a: self.a }
    }

    fn map_alpha(&self, mut f: impl FnMut(T) -> T) -> (out: Self) {
        let a = f(self.a);
        GrayAlpha { gray: self.gray, a }
    }
}

impl<T: Copy, U: Copy> PixelMap<U> for GrayAlpha<T> {
    type SelfType = GrayAlpha<U>;

    open spec fn mapped(self, f: spec_fn(T) -> U) -> GrayAlpha<U> {
        GrayAlpha { gray: f(self.gray), a: f(self.a) }
    }

    proof fn lemma_mapped(self, f: spec_fn(T) -> U) {
    }

    fn map(&self, mut f: impl FnMut(T) -> U) -> (out: GrayAlpha<U>) {
        assert(self.component_seq()[0] == self.gray);
        assert(self.component_seq()[1] == self.a);
        let gray = f(self.gray);
        let a = f(self.a);
        GrayAlpha { gray, a }
    }
}

} // verus!
