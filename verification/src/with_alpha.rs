//! Adding an alpha component to a pixel, and dropping it.

use crate::abgr::Abgr;
use crate::argb::Argb;
use crate::bgr::Bgr;
use crate::bgra::Bgra;
use crate::gray::Gray;
use crate::gray_alpha::GrayAlpha;
use crate::grb::Grb;
use crate::pixel::pixel_component::{BoundedComponent, PixelComponent};
use crate::pixel::Pixel;
use crate::rgb::Rgb;
use crate::rgba::Rgba;
use vstd::prelude::*;

verus! {

/// The alpha of a pixel in the form that has one: the pixel's own alpha
/// where it has one, else `opaque`.
pub open spec fn alpha_or<C>(alpha: Option<C>, opaque: C) -> C {
    match alpha {
        Some(own) => own,
        None => opaque,
    }
}

/// A pixel format that has a form with an alpha component: itself where it
/// has an alpha component, else the format with the same colors and an alpha
/// component after them.
pub trait WithAlpha: Pixel<Component: BoundedComponent> {
    /// The form of the format that has an alpha component.
    type WithAlpha: Pixel<Component = Self::Component>;

    /// What `with_alpha` makes of `pixel`.
    spec fn alpha_added(pixel: Self) -> Self::WithAlpha;

    /// The pixel in the format with alpha: the colors are kept as they are,
    /// an alpha that is there is kept, and one that is not is set to the
    /// greatest value of the component type, which is fully opaque.
    fn with_alpha(pixel: Self) -> (out: Self::WithAlpha)
        ensures
            out == Self::alpha_added(pixel),
            out.color_seq() == pixel.color_seq(),
            out.alpha() == Some(alpha_or(pixel.alpha(), Self::Component::COMPONENT_MAX)),
    ;
}

/// A pixel format that has a form without an alpha component: itself where
/// it has no alpha component, else the format with the same colors alone.
pub trait WithoutAlpha: Pixel {
    /// The form of the format that has no alpha component.
    type WithoutAlpha: Pixel<Component = Self::Component>;

    /// What `without_alpha` makes of `pixel`.
    spec fn alpha_dropped(pixel: Self) -> Self::WithoutAlpha;

    /// The pixel in the format without alpha: the colors are kept as they
    /// are, and an alpha that is there is dropped.
    fn without_alpha(pixel: Self) -> (out: Self::WithoutAlpha)
        ensures
            out == Self::alpha_dropped(pixel),
            out.color_seq() == pixel.color_seq(),
            out.alpha().is_none(),
    ;
}

impl<T: PixelComponent> WithoutAlpha for Rgb<T> {
    type WithoutAlpha = Rgb<T>;

    open spec fn alpha_dropped(pixel: Self) -> Rgb<T> {
        pixel
    }

    fn without_alpha(pixel: Self) -> (out: Rgb<T>) {
        pixel
    }
}

impl<T: PixelComponent> WithoutAlpha for Bgr<T> {
    type WithoutAlpha = Bgr<T>;

    open spec fn alpha_dropped(pixel: Self) -> Bgr<T> {
        pixel
    }

    fn without_alpha(pixel: Self) -> (out: Bgr<T>) {
        pixel
    }
}

impl<T: PixelComponent> WithoutAlpha for Grb<T> {
    type WithoutAlpha = Grb<T>;

    open spec fn alpha_dropped(pixel: Self) -> Grb<T> {
        pixel
    }

    fn without_alpha(pixel: Self) -> (out: Grb<T>) {
        pixel
    }
}

impl<T: PixelComponent> WithoutAlpha for Gray<T> {
    type WithoutAlpha = Gray<T>;

    open spec fn alpha_dropped(pixel: Self) -> Gray<T> {
        pixel
    }

    fn without_alpha(pixel: Self) -> (out: Gray<T>) {
        pixel
    }
}

impl<T: PixelComponent> WithAlpha for Rgba<T> {
    type WithAlpha = Rgba<T>;

    open spec fn alpha_added(pixel: Self) -> Rgba<T> {
        pixel
    }

    fn with_alpha(pixel: Self) -> (out: Rgba<T>) {
        pixel
    }
}

impl<T: PixelComponent> WithAlpha for Argb<T> {
    type WithAlpha = Argb<T>;

    open spec fn alpha_added(pixel: Self) -> Argb<T> {
        pixel
    }

    fn with_alpha(pixel: Self) -> (out: Argb<T>) {
        pixel
    }
}

impl<T: PixelComponent> WithAlpha for Bgra<T> {
    type WithAlpha = Bgra<T>;

    open spec fn alpha_added(pixel: Self) -> Bgra<T> {
        pixel
    }

    fn with_alpha(pixel: Self) -> (out: Bgra<T>) {
        pixel
    }
}

impl<T: PixelComponent> WithAlpha for Abgr<T> {
    type WithAlpha = Abgr<T>;

    open spec fn alpha_added(pixel: Self) -> Abgr<T> {
        pixel
    }

    fn with_alpha(pixel: Self) -> (out: Abgr<T>) {
        pixel
    }
}

impl<T: PixelComponent> WithAlpha for GrayAlpha<T> {
    type WithAlpha = GrayAlpha<T>;

    open spec fn alpha_added(pixel: Self) -> GrayAlpha<T> {
        pixel
    }

    fn with_alpha(pixel: Self) -> (out: GrayAlpha<T>) {
        pixel
    }
}

impl<T: PixelComponent> WithAlpha for Rgb<T> {
    type WithAlpha = Rgba<T>;

    open spec fn alpha_added(pixel: Self) -> Rgba<T> {
        Rgba { r: pixel.r, g: pixel.g, b: pixel.b, a: T::COMPONENT_MAX }
    }

    fn with_alpha(pixel: Self) -> (out: Rgba<T>) {
        Rgba { r: pixel.r, g: pixel.g, b: pixel.b, a: T::COMPONENT_MAX }
    }
}

impl<T: PixelComponent> WithoutAlpha for Rgba<T> {
    type WithoutAlpha = Rgb<T>;

    open spec fn alpha_dropped(pixel: Self) -> Rgb<T> {
        Rgb { r: pixel.r, g: pixel.g, b: pixel.b }
    }

    fn without_alpha(pixel: Self) -> (out: Rgb<T>) {
        Rgb { r: pixel.r, g: pixel.g, b: pixel.b }
    }
}

impl<T: PixelComponent> WithAlpha for Bgr<T> {
    type WithAlpha = Bgra<T>;

    open spec fn alpha_added(pixel: Self) -> Bgra<T> {
        Bgra { b: pixel.b, g: pixel.g, r: pixel.r, a: T::COMPONENT_MAX }
    }

    fn with_alpha(pixel: Self) -> (out: Bgra<T>) {
        Bgra { b: pixel.b, g: pixel.g, r: pixel.r, a: T::COMPONENT_MAX }
    }
}

impl<T: PixelComponent> WithoutAlpha for Bgra<T> {
    type WithoutAlpha = Bgr<T>;

    open spec fn alpha_dropped(pixel: Self) -> Bgr<T> {
        Bgr { b: pixel.b, g: pixel.g, r: pixel.r }
    }

    fn without_alpha(pixel: Self) -> (out: Bgr<T>) {
        Bgr { b: pixel.b, g: pixel.g, r: pixel.r }
    }
}

impl<T: PixelComponent> WithAlpha for Gray<T> {
    type WithAlpha = GrayAlpha<T>;

    open spec fn alpha_added(pixel: Self) -> GrayAlpha<T> {
        GrayAlpha { gray: pixel.gray, a: T::COMPONENT_MAX }
    }

    fn with_alpha(pixel: Self) -> (out: GrayAlpha<T>) {
        GrayAlpha { gray: pixel.gray, a: T::COMPONENT_MAX }
    }
}

impl<T: PixelComponent> WithoutAlpha for GrayAlpha<T> {
    type WithoutAlpha = Gray<T>;

    open spec fn alpha_dropped(pixel: Self) -> Gray<T> {
        Gray { gray: pixel.gray }
    }

    fn without_alpha(pixel: Self) -> (out: Gray<T>) {
        Gray { gray: pixel.gray }
    }
}

/// A pixel that has no alpha gains one that is fully opaque: the greatest
/// value of its component type. Its colors stay as they are.
pub proof fn lemma_added_alpha_is_opaque<T: PixelComponent>(
    rgb: Rgb<T>,
    bgr: Bgr<T>,
    gray: Gray<T>,
)
    ensures
        <Rgb<T> as WithAlpha>::alpha_added(rgb) == (Rgba {
            r: rgb.r,
            g: rgb.g,
            b: rgb.b,
            a: T::COMPONENT_MAX,
        }),
        <Bgr<T> as WithAlpha>::alpha_added(bgr) == (Bgra {
            b: bgr.b,
            g: bgr.g,
            r: bgr.r,
            a: T::COMPONENT_MAX,
        }),
        <Gray<T> as WithAlpha>::alpha_added(gray) == (GrayAlpha {
            gray: gray.gray,
            a: T::COMPONENT_MAX,
        }),
        <Rgb<T> as WithAlpha>::alpha_added(rgb).a.value() == T::max_value(),
        <Bgr<T> as WithAlpha>::alpha_added(bgr).a.value() == T::max_value(),
        <Gray<T> as WithAlpha>::alpha_added(gray).a.value() == T::max_value(),
{
    T::lemma_range(T::COMPONENT_MAX);
}

/// A pixel that has an alpha already is left as it is.
pub proof fn lemma_with_alpha_keeps_alpha<T: PixelComponent>(
    rgba: Rgba<T>,
    argb: Argb<T>,
    bgra: Bgra<T>,
    abgr: Abgr<T>,
    gray_alpha: GrayAlpha<T>,
)
    ensures
        <Rgba<T> as WithAlpha>::alpha_added(rgba) == rgba,
        <Argb<T> as WithAlpha>::alpha_added(argb) == argb,
        <Bgra<T> as WithAlpha>::alpha_added(bgra) == bgra,
        <Abgr<T> as WithAlpha>::alpha_added(abgr) == abgr,
        <GrayAlpha<T> as WithAlpha>::alpha_added(gray_alpha) == gray_alpha,
{
}

/// Adding alpha a second time changes nothing.
pub proof fn lemma_with_alpha_twice<T: PixelComponent>(rgb: Rgb<T>, bgr: Bgr<T>, gray: Gray<T>)
    ensures
        <Rgba<T> as WithAlpha>::alpha_added(<Rgb<T> as WithAlpha>::alpha_added(rgb)) == <Rgb<
            T,
        > as WithAlpha>::alpha_added(rgb),
        <Bgra<T> as WithAlpha>::alpha_added(<Bgr<T> as WithAlpha>::alpha_added(bgr)) == <Bgr<
            T,
        > as WithAlpha>::alpha_added(bgr),
        <GrayAlpha<T> as WithAlpha>::alpha_added(<Gray<T> as WithAlpha>::alpha_added(gray))
            == <Gray<T> as WithAlpha>::alpha_added(gray),
{
}

/// A pixel that has no alpha is left as it is when alpha is dropped, and
/// dropping the alpha that was added gives the pixel back.
pub proof fn lemma_without_alpha<T: PixelComponent>(
    rgb: Rgb<T>,
    bgr: Bgr<T>,
    grb: Grb<T>,
    gray: Gray<T>,
)
    ensures
        <Rgb<T> as WithoutAlpha>::alpha_dropped(rgb) == rgb,
        <Bgr<T> as WithoutAlpha>::alpha_dropped(bgr) == bgr,
        <Grb<T> as WithoutAlpha>::alpha_dropped(grb) == grb,
        <Gray<T> as WithoutAlpha>::alpha_dropped(gray) == gray,
        <Rgba<T> as WithoutAlpha>::alpha_dropped(<Rgb<T> as WithAlpha>::alpha_added(rgb)) == rgb,
        <Bgra<T> as WithoutAlpha>::alpha_dropped(<Bgr<T> as WithAlpha>::alpha_added(bgr)) == bgr,
        <GrayAlpha<T> as WithoutAlpha>::alpha_dropped(<Gray<T> as WithAlpha>::alpha_added(gray))
            == gray,
{
}

} // verus!
