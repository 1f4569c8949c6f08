//! The conversion of a pixel of any format and component type into any
//! other.
//!
//! Which way a conversion takes depends on the two formats alone: between
//! formats of one kind the components are converted and laid out anew
//! ([`lossless`]); where the new format has an alpha that the old one lacks,
//! an opaque alpha is added after the components were converted
//! ([`lossless_with_alpha`]); from color to gray the luminance is taken first
//! ([`to_gray`], [`to_gray_with_alpha`]); and from gray to color the
//! luminance is repeated ([`to_rgb`], [`to_rgb_with_alpha`]).

pub mod enlargeable;
pub mod from_component_common;
pub mod scale;
pub mod to_gray;
pub mod to_rgb;

use crate::abgr::Abgr;
use crate::argb::Argb;
use crate::bgr::Bgr;
use crate::bgra::Bgra;
use crate::from_pixel_common::enlargeable::Enlargeable;
use crate::from_pixel_common::from_component_common::FromComponentCommon;
use crate::from_pixel_common::to_gray::{lemma_luma_of_equal_colors, luma, ToGray};
use crate::from_pixel_common::to_rgb::ToRgb;
use crate::gray::Gray;
use crate::gray_alpha::GrayAlpha;
use crate::grb::Grb;
use crate::pixel::pixel_component::{BoundedComponent, PixelComponent};
use crate::pixel::{Pixel, PixelMap};
use crate::rgb::Rgb;
use crate::rgba::Rgba;
use crate::with_alpha::WithAlpha;
use vstd::prelude::*;

verus! {

/// Convert between pixel types using the most common conversion method, this conversion can be
/// lossy, such as from [`Rgb`] to [`Gray`].
///
/// - Integers are considered to range between `MIN..=MAX`
/// - If gaining an alpha component it set to the maximum value of the above range
/// - If retaining an alpha component it stays at the same value
///
/// This trait can convert between the pixel types in this crate with any
/// integer component type on either side. What has no meaning is left out:
/// [`Grb`] converts to and from the formats that have no alpha component,
/// and a conversion to gray needs an [`Enlargeable`] component type.
///
/// # Examples
/// ```
/// use pixeli::{Bgr, FromPixelCommon, Gray, GrayAlpha, Rgb, Rgba};
///
/// let _: Rgb<i32> = Rgb::from_pixel_common(Gray::<u8> { gray: 100 });
/// let _: Rgba<u16> = Rgba::from_pixel_common(Gray::<i8> { gray: 100 });
/// let _: GrayAlpha<u8> = GrayAlpha::from_pixel_common(Bgr::<u16> { b: 300, g: 600, r: 900 });
/// let _: Gray<i8> = Gray::from_pixel_common(Rgba::<u64> { r: 4, g: 7, b: 7, a: 5 });
/// ```
pub trait FromPixelCommon<P>: Sized {
    /// What `from_pixel_common` makes of `pixel`.
    spec fn converted_pixel(pixel: P) -> Self;

    /// Converts the given pixel type to the `Self` type.
    fn from_pixel_common(pixel: P) -> (out: Self)
        ensures
            out == Self::converted_pixel(pixel),
    ;
}

/// The conversion of one component from `S` to `D`, as a function.
pub open spec fn component_conversion<S, D: FromComponentCommon<S>>() -> spec_fn(S) -> D {
    |component: S| D::converted(component)
}

/// Shared by the conversions below: `pixel` with each component converted
/// to `U`.
fn convert_components<P, U>(pixel: P) -> (out: P::SelfType) where
    P: PixelMap<U>,
    U: Copy + FromComponentCommon<P::Component>,

    ensures
        out == pixel.mapped(component_conversion::<P::Component, U>()),
{
    let out = pixel.map(U::from_component_common);
    proof {
        let f = component_conversion::<P::Component, U>();
        pixel.lemma_mapped(f);
        assert(out.component_seq() =~= pixel.component_seq().map_values(f));
        out.lemma_determined(pixel.mapped(f));
    }
    out
}

/// Converts between two formats of the same kind: each component is
/// converted, and the converted pixel is then laid out as `Q`.
pub fn lossless<P, Q>(pixel: P) -> (out: Q) where
    P: PixelMap<Q::Component>,
    Q: Pixel + From<P::SelfType>,
    Q::Component: FromComponentCommon<P::Component>,

    ensures
        call_ensures(
            <Q as From<P::SelfType>>::from,
            (pixel.mapped(component_conversion::<P::Component, Q::Component>()),),
            out,
        ),
{
    let converted = convert_components::<P, Q::Component>(pixel);
    Q::from(converted)
}

/// Converts a pixel without alpha into a format with alpha: each component
/// is converted, a fully opaque alpha is added, and the pixel is then laid
/// out as `Q`.
pub fn lossless_with_alpha<P, Q>(pixel: P) -> (out: Q) where
    P: PixelMap<Q::Component>,
    P::SelfType: WithAlpha,
    Q: Pixel + From<<P::SelfType as WithAlpha>::WithAlpha>,
    Q::Component: FromComponentCommon<P::Component>,

    ensures
        call_ensures(
            <Q as From<<P::SelfType as WithAlpha>::WithAlpha>>::from,
            (
                <P::SelfType as WithAlpha>::alpha_added(
                    pixel.mapped(component_conversion::<P::Component, Q::Component>()),
                ),
            ),
            out,
        ),
{
    let converted = convert_components::<P, Q::Component>(pixel);
    let with_alpha = <P::SelfType as WithAlpha>::with_alpha(converted);
    Q::from(with_alpha)
}

/// Converts a color pixel into a gray format: the colors are reduced to
/// their luminance, each component is converted, and the pixel is then laid
/// out as `Q`, which drops an alpha that `Q` has no place for.
pub fn to_gray<P, Q>(pixel: P) -> (out: Q) where
    P: ToGray,
    P::Gray: PixelMap<Q::Component>,
    Q: Pixel + From<<P::Gray as PixelMap<Q::Component>>::SelfType>,
    Q::Component: FromComponentCommon<<P::Gray as Pixel>::Component>,

    ensures
        call_ensures(
            <Q as From<<P::Gray as PixelMap<Q::Component>>::SelfType>>::from,
            (
                pixel.grayed().mapped(
                    component_conversion::<<P::Gray as Pixel>::Component, Q::Component>(),
                ),
            ),
            out,
        ),
{
    let gray = pixel.to_gray();
    let converted = convert_components::<P::Gray, Q::Component>(gray);
    Q::from(converted)
}

/// Converts a color pixel without alpha into a gray format with alpha: the
/// colors are reduced to their luminance, the luminance is converted, a
/// fully opaque alpha is added, and the pixel is then laid out as `Q`.
pub fn to_gray_with_alpha<P, Q>(pixel: P) -> (out: Q) where
    P: ToGray,
    P::Gray: PixelMap<Q::Component>,
    <P::Gray as PixelMap<Q::Component>>::SelfType: WithAlpha,
    Q: Pixel + From<<<P::Gray as PixelMap<Q::Component>>::SelfType as WithAlpha>::WithAlpha>,
    Q::Component: FromComponentCommon<<P::Gray as Pixel>::Component>,

    ensures
        call_ensures(
            <Q as From<
                <<P::Gray as PixelMap<Q::Component>>::SelfType as WithAlpha>::WithAlpha,
            >>::from,
            (
                <<P::Gray as PixelMap<Q::Component>>::SelfType as WithAlpha>::alpha_added(
                    pixel.grayed().mapped(
                        component_conversion::<<P::Gray as Pixel>::Component, Q::Component>(),
                    ),
                ),
            ),
            out,
        ),
{
    let gray = pixel.to_gray();
    let converted = convert_components::<P::Gray, Q::Component>(gray);
    let with_alpha = <<P::Gray as PixelMap<Q::Component>>::SelfType as WithAlpha>::with_alpha(
        converted,
    );
    Q::from(with_alpha)
}

/// Converts a gray pixel into a color format: the luminance becomes red,
/// green and blue, each component is converted, and the pixel is then laid
/// out as `Q`, which drops an alpha that `Q` has no place for.
pub fn to_rgb<P, Q>(pixel: P) -> (out: Q) where
    P: ToRgb,
    P::Rgb: PixelMap<Q::Component>,
    Q: Pixel + From<<P::Rgb as PixelMap<Q::Component>>::SelfType>,
    Q::Component: FromComponentCommon<<P::Rgb as Pixel>::Component>,

    ensures
        call_ensures(
            <Q as From<<P::Rgb as PixelMap<Q::Component>>::SelfType>>::from,
            (
                pixel.colored().mapped(
                    component_conversion::<<P::Rgb as Pixel>::Component, Q::Component>(),
                ),
            ),
            out,
        ),
{
    let rgb = pixel.to_rgb();
    let converted = convert_components::<P::Rgb, Q::Component>(rgb);
    Q::from(converted)
}

/// Converts a gray pixel without alpha into a color format with alpha: the
/// luminance becomes red, green and blue, each component is converted, a
/// fully opaque alpha is added, and the pixel is then laid out as `Q`.
pub fn to_rgb_with_alpha<P, Q>(pixel: P) -> (out: Q) where
    P: ToRgb,
    P::Rgb: PixelMap<Q::Component>,
    <P::Rgb as PixelMap<Q::Component>>::SelfType: WithAlpha,
    Q: Pixel + From<<<P::Rgb as PixelMap<Q::Component>>::SelfType as WithAlpha>::WithAlpha>,
    Q::Component: FromComponentCommon<<P::Rgb as Pixel>::Component>,

    ensures
        call_ensures(
            <Q as From<
                <<P::Rgb as PixelMap<Q::Component>>::SelfType as WithAlpha>::WithAlpha,
            >>::from,
            (
                <<P::Rgb as PixelMap<Q::Component>>::SelfType as WithAlpha>::alpha_added(
                    pixel.colored().mapped(
                        component_conversion::<<P::Rgb as Pixel>::Component, Q::Component>(),
                    ),
                ),
            ),
            out,
        ),
{
    let rgb = pixel.to_rgb();
    let converted = convert_components::<P::Rgb, Q::Component>(rgb);
    let with_alpha = <<P::Rgb as PixelMap<Q::Component>>::SelfType as WithAlpha>::with_alpha(
        converted,
    );
    Q::from(with_alpha)
}

impl<R, S> FromPixelCommon<Rgb<R>> for Rgb<S>
where
    R: PixelComponent,
    S: PixelComponent + FromComponentCommon<R>,
{
    open spec fn converted_pixel(pixel: Rgb<R>) -> Rgb<S> {
        Rgb {
            r: S::converted(pixel.r),
            g: S::converted(pixel.g),
            b: S::converted(pixel.b),
        }
    }

    fn from_pixel_common(pixel: Rgb<R>) -> (out: Rgb<S>) {
        lossless(pixel)
    }
}

impl<R, S> FromPixelCommon<Rgb<R>> for Bgr<S>
where
    R: PixelComponent,
    S: PixelComponent + FromComponentCommon<R>,
{
    open spec fn converted_pixel(pixel: Rgb<R>) -> Bgr<S> {
        Bgr {
            b: S::converted(pixel.b),
            g: S::converted(pixel.g),
            r: S::converted(pixel.r),
        }
    }

    fn from_pixel_common(pixel: Rgb<R>) -> (out: Bgr<S>) {
        lossless(pixel)
    }
}

impl<R, S> FromPixelCommon<Rgb<R>> for Grb<S>
where
    R: PixelComponent,
    S: PixelComponent + FromComponentCommon<R>,
{
    open spec fn converted_pixel(pixel: Rgb<R>) -> Grb<S> {
        Grb {
            g: S::converted(pixel.g),
            r: S::converted(pixel.r),
            b: S::converted(pixel.b),
        }
    }

    fn from_pixel_common(pixel: Rgb<R>) -> (out: Grb<S>) {
        lossless(pixel)
    }
}

impl<R, S> FromPixelCommon<Rgb<R>> for Rgba<S>
where
    R: PixelComponent,
    S: PixelComponent + FromComponentCommon<R>,
{
    open spec fn converted_pixel(pixel: Rgb<R>) -> Rgba<S> {
        Rgba {
            r: S::converted(pixel.r),
            g: S::converted(pixel.g),
            b: S::converted(pixel.b),
            a: S::COMPONENT_MAX,
        }
    }

    fn from_pixel_common(pixel: Rgb<R>) -> (out: Rgba<S>) {
        lossless_with_alpha(pixel)
    }
}

impl<R, S> FromPixelCommon<Rgb<R>> for Argb<S>
where
    R: PixelComponent,
    S: PixelComponent + FromComponentCommon<R>,
{
    open spec fn converted_pixel(pixel: Rgb<R>) -> Argb<S> {
        Argb {
            a: S::COMPONENT_MAX,
            r: S::converted(pixel.r),
            g: S::converted(pixel.g),
            b: S::converted(pixel.b),
        }
    }

    fn from_pixel_common(pixel: Rgb<R>) -> (out: Argb<S>) {
        lossless_with_alpha(pixel)
    }
}

impl<R, S> FromPixelCommon<Rgb<R>> for Bgra<S>
where
    R: PixelComponent,
    S: PixelComponent + FromComponentCommon<R>,
{
    open spec fn converted_pixel(pixel: Rgb<R>) -> Bgra<S> {
        Bgra {
            b: S::converted(pixel.b),
            g: S::converted(pixel.g),
            r: S::converted(pixel.r),
            a: S::COMPONENT_MAX,
        }
    }

    fn from_pixel_common(pixel: Rgb<R>) -> (out: Bgra<S>) {
        lossless_with_alpha(pixel)
    }
}

impl<R, S> FromPixelCommon<Rgb<R>> for Abgr<S>
where
    R: PixelComponent,
    S: PixelComponent + FromComponentCommon<R>,
{
    open spec fn converted_pixel(pixel: Rgb<R>) -> Abgr<S> {
        Abgr {
            a: S::COMPONENT_MAX,
            b: S::converted(pixel.b),
            g: S::converted(pixel.g),
            r: S::converted(pixel.r),
        }
    }

    fn from_pixel_common(pixel: Rgb<R>) -> (out: Abgr<S>) {
        lossless_with_alpha(pixel)
    }
}

impl<R, S> FromPixelCommon<Rgb<R>> for Gray<S>
where
    R: Enlargeable,
    S: PixelComponent + FromComponentCommon<R>,
{
    open spec fn converted_pixel(pixel: Rgb<R>) -> Gray<S> {
        Gray {
            gray: S::converted(luma(pixel.r, pixel.g, pixel.b)),
        }
    }

    fn from_pixel_common(pixel: Rgb<R>) -> (out: Gray<S>) {
        to_gray(pixel)
    }
}

impl<R, S> FromPixelCommon<Rgb<R>> for GrayAlpha<S>
where
    R: Enlargeable,
    S: PixelComponent + FromComponentCommon<R>,
{
    open spec fn converted_pixel(pixel: Rgb<R>) -> GrayAlpha<S> {
        GrayAlpha {
            gray: S::converted(luma(pixel.r, pixel.g, pixel.b)),
            a: S::COMPONENT_MAX,
        }
    }

    fn from_pixel_common(pixel: Rgb<R>) -> (out: GrayAlpha<S>) {
        to_gray_with_alpha(pixel)
    }
}

impl<R, S> FromPixelCommon<Bgr<R>> for Rgb<S>
where
    R: PixelComponent,
    S: PixelComponent + FromComponentCommon<R>,
{
    open spec fn converted_pixel(pixel: Bgr<R>) -> Rgb<S> {
        Rgb {
            r: S::converted(pixel.r),
            g: S::converted(pixel.g),
            b: S::converted(pixel.b),
        }
    }

    fn from_pixel_common(pixel: Bgr<R>) -> (out: Rgb<S>) {
        lossless(pixel)
    }
}

impl<R, S> FromPixelCommon<Bgr<R>> for Bgr<S>
where
    R: PixelComponent,
    S: PixelComponent + FromComponentCommon<R>,
{
    open spec fn converted_pixel(pixel: Bgr<R>) -> Bgr<S> {
        Bgr {
            b: S::converted(pixel.b),
            g: S::converted(pixel.g),
            r: S::converted(pixel.r),
        }
    }

    fn from_pixel_common(pixel: Bgr<R>) -> (out: Bgr<S>) {
        lossless(pixel)
    }
}

impl<R, S> FromPixelCommon<Bgr<R>> for Grb<S>
where
    R: PixelComponent,
    S: PixelComponent + FromComponentCommon<R>,
{
    open spec fn converted_pixel(pixel: Bgr<R>) -> Grb<S> {
        Grb {
            g: S::converted(pixel.g),
            r: S::converted(pixel.r),
            b: S::converted(pixel.b),
        }
    }

    fn from_pixel_common(pixel: Bgr<R>) -> (out: Grb<S>) {
        lossless(pixel)
    }
}

impl<R, S> FromPixelCommon<Bgr<R>> for Rgba<S>
where
    R: PixelComponent,
    S: PixelComponent + FromComponentCommon<R>,
{
    open spec fn converted_pixel(pixel: Bgr<R>) -> Rgba<S> {
        Rgba {
            r: S::converted(pixel.r),
            g: S::converted(pixel.g),
            b: S::converted(pixel.b),
            a: S::COMPONENT_MAX,
        }
    }

    fn from_pixel_common(pixel: Bgr<R>) -> (out: Rgba<S>) {
        lossless_with_alpha(pixel)
    }
}

impl<R, S> FromPixelCommon<Bgr<R>> for Argb<S>
where
    R: PixelComponent,
    S: PixelComponent + FromComponentCommon<R>,
{
    open spec fn converted_pixel(pixel: Bgr<R>) -> Argb<S> {
        Argb {
            a: S::COMPONENT_MAX,
            r: S::converted(pixel.r),
            g: S::converted(pixel.g),
            b: S::converted(pixel.b),
        }
    }

    fn from_pixel_common(pixel: Bgr<R>) -> (out: Argb<S>) {
        lossless_with_alpha(pixel)
    }
}

impl<R, S> FromPixelCommon<Bgr<R>> for Bgra<S>
where
    R: PixelComponent,
    S: PixelComponent + FromComponentCommon<R>,
{
    open spec fn converted_pixel(pixel: Bgr<R>) -> Bgra<S> {
        Bgra {
            b: S::converted(pixel.b),
            g: S::converted(pixel.g),
            r: S::converted(pixel.r),
            a: S::COMPONENT_MAX,
        }
    }

    fn from_pixel_common(pixel: Bgr<R>) -> (out: Bgra<S>) {
        lossless_with_alpha(pixel)
    }
}

impl<R, S> FromPixelCommon<Bgr<R>> for Abgr<S>
where
    R: PixelComponent,
    S: PixelComponent + FromComponentCommon<R>,
{
    open spec fn converted_pixel(pixel: Bgr<R>) -> Abgr<S> {
        Abgr {
            a: S::COMPONENT_MAX,
            b: S::converted(pixel.b),
            g: S::converted(pixel.g),
            r: S::converted(pixel.r),
        }
    }

    fn from_pixel_common(pixel: Bgr<R>) -> (out: Abgr<S>) {
        lossless_with_alpha(pixel)
    }
}

impl<R, S> FromPixelCommon<Bgr<R>> for Gray<S>
where
    R: Enlargeable,
    S: PixelComponent + FromComponentCommon<R>,
{
    open spec fn converted_pixel(pixel: Bgr<R>) -> Gray<S> {
        Gray {
            gray: S::converted(luma(pixel.r, pixel.g, pixel.b)),
        }
    }

    fn from_pixel_common(pixel: Bgr<R>) -> (out: Gray<S>) {
        to_gray(pixel)
    }
}

impl<R, S> FromPixelCommon<Bgr<R>> for GrayAlpha<S>
where
    R: Enlargeable,
    S: PixelComponent + FromComponentCommon<R>,
{
    open spec fn converted_pixel(pixel: Bgr<R>) -> GrayAlpha<S> {
        GrayAlpha {
            gray: S::converted(luma(pixel.r, pixel.g, pixel.b)),
            a: S::COMPONENT_MAX,
        }
    }

    fn from_pixel_common(pixel: Bgr<R>) -> (out: GrayAlpha<S>) {
        to_gray_with_alpha(pixel)
    }
}

impl<R, S> FromPixelCommon<Grb<R>> for Rgb<S>
where
    R: PixelComponent,
    S: PixelComponent + FromComponentCommon<R>,
{
    open spec fn converted_pixel(pixel: Grb<R>) -> Rgb<S> {
        Rgb {
            r: S::converted(pixel.r),
            g: S::converted(pixel.g),
            b: S::converted(pixel.b),
        }
    }

    fn from_pixel_common(pixel: Grb<R>) -> (out: Rgb<S>) {
        lossless(pixel)
    }
}

impl<R, S> FromPixelCommon<Grb<R>> for Bgr<S>
where
    R: PixelComponent,
    S: PixelComponent + FromComponentCommon<R>,
{
    open spec fn converted_pixel(pixel: Grb<R>) -> Bgr<S> {
        Bgr {
            b: S::converted(pixel.b),
            g: S::converted(pixel.g),
            r: S::converted(pixel.r),
        }
    }

    fn from_pixel_common(pixel: Grb<R>) -> (out: Bgr<S>) {
        lossless(pixel)
    }
}

impl<R, S> FromPixelCommon<Grb<R>> for Grb<S>
where
    R: PixelComponent,
    S: PixelComponent + FromComponentCommon<R>,
{
    open spec fn converted_pixel(pixel: Grb<R>) -> Grb<S> {
        Grb {
            g: S::converted(pixel.g),
            r: S::converted(pixel.r),
            b: S::converted(pixel.b),
        }
    }

    fn from_pixel_common(pixel: Grb<R>) -> (out: Grb<S>) {
        lossless(pixel)
    }
}

impl<R, S> FromPixelCommon<Grb<R>> for Gray<S>
where
    R: Enlargeable,
    S: PixelComponent + FromComponentCommon<R>,
{
    open spec fn converted_pixel(pixel: Grb<R>) -> Gray<S> {
        Gray {
            gray: S::converted(luma(pixel.r, pixel.g, pixel.b)),
        }
    }

    fn from_pixel_common(pixel: Grb<R>) -> (out: Gray<S>) {
        to_gray(pixel)
    }
}

impl<R, S> FromPixelCommon<Rgba<R>> for Rgb<S>
where
    R: PixelComponent,
    S: PixelComponent + FromComponentCommon<R>,
{
    open spec fn converted_pixel(pixel: Rgba<R>) -> Rgb<S> {
        Rgb {
            r: S::converted(pixel.r),
            g: S::converted(pixel.g),
            b: S::converted(pixel.b),
        }
    }

    fn from_pixel_common(pixel: Rgba<R>) -> (out: Rgb<S>) {
        lossless(pixel)
    }
}

impl<R, S> FromPixelCommon<Rgba<R>> for Bgr<S>
where
    R: PixelComponent,
    S: PixelComponent + FromComponentCommon<R>,
{
    open spec fn converted_pixel(pixel: Rgba<R>) -> Bgr<S> {
        Bgr {
            b: S::converted(pixel.b),
            g: S::converted(pixel.g),
            r: S::converted(pixel.r),
        }
    }

    fn from_pixel_common(pixel: Rgba<R>) -> (out: Bgr<S>) {
        lossless(pixel)
    }
}

impl<R, S> FromPixelCommon<Rgba<R>> for Rgba<S>
where
    R: PixelComponent,
    S: PixelComponent + FromComponentCommon<R>,
{
    open spec fn converted_pixel(pixel: Rgba<R>) -> Rgba<S> {
        Rgba {
            r: S::converted(pixel.r),
            g: S::converted(pixel.g),
            b: S::converted(pixel.b),
            a: S::converted(pixel.a),
        }
    }

    fn from_pixel_common(pixel: Rgba<R>) -> (out: Rgba<S>) {
        lossless(pixel)
    }
}

impl<R, S> FromPixelCommon<Rgba<R>> for Argb<S>
where
    R: PixelComponent,
    S: PixelComponent + FromComponentCommon<R>,
{
    open spec fn converted_pixel(pixel: Rgba<R>) -> Argb<S> {
        Argb {
            a: S::converted(pixel.a),
            r: S::converted(pixel.r),
            g: S::converted(pixel.g),
            b: S::converted(pixel.b),
        }
    }

    fn from_pixel_common(pixel: Rgba<R>) -> (out: Argb<S>) {
        lossless(pixel)
    }
}

impl<R, S> FromPixelCommon<Rgba<R>> for Bgra<S>
where
    R: PixelComponent,
    S: PixelComponent + FromComponentCommon<R>,
{
    open spec fn converted_pixel(pixel: Rgba<R>) -> Bgra<S> {
        Bgra {
            b: S::converted(pixel.b),
            g: S::converted(pixel.g),
            r: S::converted(pixel.r),
            a: S::converted(pixel.a),
        }
    }

    fn from_pixel_common(pixel: Rgba<R>) -> (out: Bgra<S>) {
        lossless(pixel)
    }
}

impl<R, S> FromPixelCommon<Rgba<R>> for Abgr<S>
where
    R: PixelComponent,
    S: PixelComponent + FromComponentCommon<R>,
{
    open spec fn converted_pixel(pixel: Rgba<R>) -> Abgr<S> {
        Abgr {
            a: S::converted(pixel.a),
            b: S::converted(pixel.b),
            g: S::converted(pixel.g),
            r: S::converted(pixel.r),
        }
    }

    fn from_pixel_common(pixel: Rgba<R>) -> (out: Abgr<S>) {
        lossless(pixel)
    }
}

impl<R, S> FromPixelCommon<Rgba<R>> for Gray<S>
where
    R: Enlargeable,
    S: PixelComponent + FromComponentCommon<R>,
{
    open spec fn converted_pixel(pixel: Rgba<R>) -> Gray<S> {
        Gray {
            gray: S::converted(luma(pixel.r, pixel.g, pixel.b)),
        }
    }

    fn from_pixel_common(pixel: Rgba<R>) -> (out: Gray<S>) {
        to_gray(pixel)
    }
}

impl<R, S> FromPixelCommon<Rgba<R>> for GrayAlpha<S>
where
    R: Enlargeable,
    S: PixelComponent + FromComponentCommon<R>,
{
    open spec fn converted_pixel(pixel: Rgba<R>) -> GrayAlpha<S> {
        GrayAlpha {
            gray: S::converted(luma(pixel.r, pixel.g, pixel.b)),
            a: S::converted(pixel.a),
        }
    }

    fn from_pixel_common(pixel: Rgba<R>) -> (out: GrayAlpha<S>) {
        to_gray(pixel)
    }
}

impl<R, S> FromPixelCommon<Argb<R>> for Rgb<S>
where
    R: PixelComponent,
    S: PixelComponent + FromComponentCommon<R>,
{
    open spec fn converted_pixel(pixel: Argb<R>) -> Rgb<S> {
        Rgb {
            r: S::converted(pixel.r),
            g: S::converted(pixel.g),
            b: S::converted(pixel.b),
        }
    }

    fn from_pixel_common(pixel: Argb<R>) -> (out: Rgb<S>) {
        lossless(pixel)
    }
}

impl<R, S> FromPixelCommon<Argb<R>> for Bgr<S>
where
    R: PixelComponent,
    S: PixelComponent + FromComponentCommon<R>,
{
    open spec fn converted_pixel(pixel: Argb<R>) -> Bgr<S> {
        Bgr {
            b: S::converted(pixel.b),
            g: S::converted(pixel.g),
            r: S::converted(pixel.r),
        }
    }

    fn from_pixel_common(pixel: Argb<R>) -> (out: Bgr<S>) {
        lossless(pixel)
    }
}

impl<R, S> FromPixelCommon<Argb<R>> for Rgba<S>
where
    R: PixelComponent,
    S: PixelComponent + FromComponentCommon<R>,
{
    open spec fn converted_pixel(pixel: Argb<R>) -> Rgba<S> {
        Rgba {
            r: S::converted(pixel.r),
            g: S::converted(pixel.g),
            b: S::converted(pixel.b),
            a: S::converted(pixel.a),
        }
    }

    fn from_pixel_common(pixel: Argb<R>) -> (out: Rgba<S>) {
        lossless(pixel)
    }
}

impl<R, S> FromPixelCommon<Argb<R>> for Argb<S>
where
    R: PixelComponent,
    S: PixelComponent + FromComponentCommon<R>,
{
    open spec fn converted_pixel(pixel: Argb<R>) -> Argb<S> {
        Argb {
            a: S::converted(pixel.a),
            r: S::converted(pixel.r),
            g: S::converted(pixel.g),
            b: S::converted(pixel.b),
        }
    }

    fn from_pixel_common(pixel: Argb<R>) -> (out: Argb<S>) {
        lossless(pixel)
    }
}

impl<R, S> FromPixelCommon<Argb<R>> for Bgra<S>
where
    R: PixelComponent,
    S: PixelComponent + FromComponentCommon<R>,
{
    open spec fn converted_pixel(pixel: Argb<R>) -> Bgra<S> {
        Bgra {
            b: S::converted(pixel.b),
            g: S::converted(pixel.g),
            r: S::converted(pixel.r),
            a: S::converted(pixel.a),
        }
    }

    fn from_pixel_common(pixel: Argb<R>) -> (out: Bgra<S>) {
        lossless(pixel)
    }
}

impl<R, S> FromPixelCommon<Argb<R>> for Abgr<S>
where
    R: PixelComponent,
    S: PixelComponent + FromComponentCommon<R>,
{
    open spec fn converted_pixel(pixel: Argb<R>) -> Abgr<S> {
        Abgr {
            a: S::converted(pixel.a),
            b: S::converted(pixel.b),
            g: S::converted(pixel.g),
            r: S::converted(pixel.r),
        }
    }

    fn from_pixel_common(pixel: Argb<R>) -> (out: Abgr<S>) {
        lossless(pixel)
    }
}

impl<R, S> FromPixelCommon<Argb<R>> for Gray<S>
where
    R: Enlargeable,
    S: PixelComponent + FromComponentCommon<R>,
{
    open spec fn converted_pixel(pixel: Argb<R>) -> Gray<S> {
        Gray {
            gray: S::converted(luma(pixel.r, pixel.g, pixel.b)),
        }
    }

    fn from_pixel_common(pixel: Argb<R>) -> (out: Gray<S>) {
        to_gray(pixel)
    }
}

impl<R, S> FromPixelCommon<Argb<R>> for GrayAlpha<S>
where
    R: Enlargeable,
    S: PixelComponent + FromComponentCommon<R>,
{
    open spec fn converted_pixel(pixel: Argb<R>) -> GrayAlpha<S> {
        GrayAlpha {
            gray: S::converted(luma(pixel.r, pixel.g, pixel.b)),
            a: S::converted(pixel.a),
        }
    }

    fn from_pixel_common(pixel: Argb<R>) -> (out: GrayAlpha<S>) {
        to_gray(pixel)
    }
}

impl<R, S> FromPixelCommon<Bgra<R>> for Rgb<S>
where
    R: PixelComponent,
    S: PixelComponent + FromComponentCommon<R>,
{
    open spec fn converted_pixel(pixel: Bgra<R>) -> Rgb<S> {
        Rgb {
            r: S::converted(pixel.r),
            g: S::converted(pixel.g),
            b: S::converted(pixel.b),
        }
    }

    fn from_pixel_common(pixel: Bgra<R>) -> (out: Rgb<S>) {
        lossless(pixel)
    }
}

impl<R, S> FromPixelCommon<Bgra<R>> for Bgr<S>
where
    R: PixelComponent,
    S: PixelComponent + FromComponentCommon<R>,
{
    open spec fn converted_pixel(pixel: Bgra<R>) -> Bgr<S> {
        Bgr {
            b: S::converted(pixel.b),
            g: S::converted(pixel.g),
            r: S::converted(pixel.r),
        }
    }

    fn from_pixel_common(pixel: Bgra<R>) -> (out: Bgr<S>) {
        lossless(pixel)
    }
}

impl<R, S> FromPixelCommon<Bgra<R>> for Rgba<S>
where
    R: PixelComponent,
    S: PixelComponent + FromComponentCommon<R>,
{
    open spec fn converted_pixel(pixel: Bgra<R>) -> Rgba<S> {
        Rgba {
            r: S::converted(pixel.r),
            g: S::converted(pixel.g),
            b: S::converted(pixel.b),
            a: S::converted(pixel.a),
        }
    }

    fn from_pixel_common(pixel: Bgra<R>) -> (out: Rgba<S>) {
        lossless(pixel)
    }
}

impl<R, S> FromPixelCommon<Bgra<R>> for Argb<S>
where
    R: PixelComponent,
    S: PixelComponent + FromComponentCommon<R>,
{
    open spec fn converted_pixel(pixel: Bgra<R>) -> Argb<S> {
        Argb {
            a: S::converted(pixel.a),
            r: S::converted(pixel.r),
            g: S::converted(pixel.g),
            b: S::converted(pixel.b),
        }
    }

    fn from_pixel_common(pixel: Bgra<R>) -> (out: Argb<S>) {
        lossless(pixel)
    }
}

impl<R, S> FromPixelCommon<Bgra<R>> for Bgra<S>
where
    R: PixelComponent,
    S: PixelComponent + FromComponentCommon<R>,
{
    open spec fn converted_pixel(pixel: Bgra<R>) -> Bgra<S> {
        Bgra {
            b: S::converted(pixel.b),
            g: S::converted(pixel.g),
            r: S::converted(pixel.r),
            a: S::converted(pixel.a),
        }
    }

    fn from_pixel_common(pixel: Bgra<R>) -> (out: Bgra<S>) {
        lossless(pixel)
    }
}

impl<R, S> FromPixelCommon<Bgra<R>> for Abgr<S>
where
    R: PixelComponent,
    S: PixelComponent + FromComponentCommon<R>,
{
    open spec fn converted_pixel(pixel: Bgra<R>) -> Abgr<S> {
        Abgr {
            a: S::converted(pixel.a),
            b: S::converted(pixel.b),
            g: S::converted(pixel.g),
            r: S::converted(pixel.r),
        }
    }

    fn from_pixel_common(pixel: Bgra<R>) -> (out: Abgr<S>) {
        lossless(pixel)
    }
}

impl<R, S> FromPixelCommon<Bgra<R>> for Gray<S>
where
    R: Enlargeable,
    S: PixelComponent + FromComponentCommon<R>,
{
    open spec fn converted_pixel(pixel: Bgra<R>) -> Gray<S> {
        Gray {
            gray: S::converted(luma(pixel.r, pixel.g, pixel.b)),
        }
    }

    fn from_pixel_common(pixel: Bgra<R>) -> (out: Gray<S>) {
        to_gray(pixel)
    }
}

impl<R, S> FromPixelCommon<Bgra<R>> for GrayAlpha<S>
where
    R: Enlargeable,
    S: PixelComponent + FromComponentCommon<R>,
{
    open spec fn converted_pixel(pixel: Bgra<R>) -> GrayAlpha<S> {
        GrayAlpha {
            gray: S::converted(luma(pixel.r, pixel.g, pixel.b)),
            a: S::converted(pixel.a),
        }
    }

    fn from_pixel_common(pixel: Bgra<R>) -> (out: GrayAlpha<S>) {
        to_gray(pixel)
    }
}

impl<R, S> FromPixelCommon<Abgr<R>> for Rgb<S>
where
    R: PixelComponent,
    S: PixelComponent + FromComponentCommon<R>,
{
    open spec fn converted_pixel(pixel: Abgr<R>) -> Rgb<S> {
        Rgb {
            r: S::converted(pixel.r),
            g: S::converted(pixel.g),
            b: S::converted(pixel.b),
        }
    }

    fn from_pixel_common(pixel: Abgr<R>) -> (out: Rgb<S>) {
        lossless(pixel)
    }
}

impl<R, S> FromPixelCommon<Abgr<R>> for Bgr<S>
where
    R: PixelComponent,
    S: PixelComponent + FromComponentCommon<R>,
{
    open spec fn converted_pixel(pixel: Abgr<R>) -> Bgr<S> {
        Bgr {
            b: S::converted(pixel.b),
            g: S::converted(pixel.g),
            r: S::converted(pixel.r),
        }
    }

    fn from_pixel_common(pixel: Abgr<R>) -> (out: Bgr<S>) {
        lossless(pixel)
    }
}

impl<R, S> FromPixelCommon<Abgr<R>> for Rgba<S>
where
    R: PixelComponent,
    S: PixelComponent + FromComponentCommon<R>,
{
    open spec fn converted_pixel(pixel: Abgr<R>) -> Rgba<S> {
        Rgba {
            r: S::converted(pixel.r),
            g: S::converted(pixel.g),
            b: S::converted(pixel.b),
            a: S::converted(pixel.a),
        }
    }

    fn from_pixel_common(pixel: Abgr<R>) -> (out: Rgba<S>) {
        lossless(pixel)
    }
}

impl<R, S> FromPixelCommon<Abgr<R>> for Argb<S>
where
    R: PixelComponent,
    S: PixelComponent + FromComponentCommon<R>,
{
    open spec fn converted_pixel(pixel: Abgr<R>) -> Argb<S> {
        Argb {
            a: S::converted(pixel.a),
            r: S::converted(pixel.r),
            g: S::converted(pixel.g),
            b: S::converted(pixel.b),
        }
    }

    fn from_pixel_common(pixel: Abgr<R>) -> (out: Argb<S>) {
        lossless(pixel)
    }
}

impl<R, S> FromPixelCommon<Abgr<R>> for Bgra<S>
where
    R: PixelComponent,
    S: PixelComponent + FromComponentCommon<R>,
{
    open spec fn converted_pixel(pixel: Abgr<R>) -> Bgra<S> {
        Bgra {
            b: S::converted(pixel.b),
            g: S::converted(pixel.g),
            r: S::converted(pixel.r),
            a: S::converted(pixel.a),
        }
    }

    fn from_pixel_common(pixel: Abgr<R>) -> (out: Bgra<S>) {
        lossless(pixel)
    }
}

impl<R, S> FromPixelCommon<Abgr<R>> for Abgr<S>
where
    R: PixelComponent,
    S: PixelComponent + FromComponentCommon<R>,
{
    open spec fn converted_pixel(pixel: Abgr<R>) -> Abgr<S> {
        Abgr {
            a: S::converted(pixel.a),
            b: S::converted(pixel.b),
            g: S::converted(pixel.g),
            r: S::converted(pixel.r),
        }
    }

    fn from_pixel_common(pixel: Abgr<R>) -> (out: Abgr<S>) {
        lossless(pixel)
    }
}

impl<R, S> FromPixelCommon<Abgr<R>> for Gray<S>
where
    R: Enlargeable,
    S: PixelComponent + FromComponentCommon<R>,
{
    open spec fn converted_pixel(pixel: Abgr<R>) -> Gray<S> {
        Gray {
            gray: S::converted(luma(pixel.r, pixel.g, pixel.b)),
        }
    }

    fn from_pixel_common(pixel: Abgr<R>) -> (out: Gray<S>) {
        to_gray(pixel)
    }
}

impl<R, S> FromPixelCommon<Abgr<R>> for GrayAlpha<S>
where
    R: Enlargeable,
    S: PixelComponent + FromComponentCommon<R>,
{
    open spec fn converted_pixel(pixel: Abgr<R>) -> GrayAlpha<S> {
        GrayAlpha {
            gray: S::converted(luma(pixel.r, pixel.g, pixel.b)),
            a: S::converted(pixel.a),
        }
    }

    fn from_pixel_common(pixel: Abgr<R>) -> (out: GrayAlpha<S>) {
        to_gray(pixel)
    }
}

impl<R, S> FromPixelCommon<Gray<R>> for Rgb<S>
where
    R: PixelComponent,
    S: PixelComponent + FromComponentCommon<R>,
{
    open spec fn converted_pixel(pixel: Gray<R>) -> Rgb<S> {
        Rgb {
            r: S::converted(pixel.gray),
            g: S::converted(pixel.gray),
            b: S::converted(pixel.gray),
        }
    }

    fn from_pixel_common(pixel: Gray<R>) -> (out: Rgb<S>) {
        to_rgb(pixel)
    }
}

impl<R, S> FromPixelCommon<Gray<R>> for Bgr<S>
where
    R: PixelComponent,
    S: PixelComponent + FromComponentCommon<R>,
{
    open spec fn converted_pixel(pixel: Gray<R>) -> Bgr<S> {
        Bgr {
            b: S::converted(pixel.gray),
            g: S::converted(pixel.gray),
            r: S::converted(pixel.gray),
        }
    }

    fn from_pixel_common(pixel: Gray<R>) -> (out: Bgr<S>) {
        to_rgb(pixel)
    }
}

impl<R, S> FromPixelCommon<Gray<R>> for Grb<S>
where
    R: PixelComponent,
    S: PixelComponent + FromComponentCommon<R>,
{
    open spec fn converted_pixel(pixel: Gray<R>) -> Grb<S> {
        Grb {
            g: S::converted(pixel.gray),
            r: S::converted(pixel.gray),
            b: S::converted(pixel.gray),
        }
    }

    fn from_pixel_common(pixel: Gray<R>) -> (out: Grb<S>) {
        to_rgb(pixel)
    }
}

impl<R, S> FromPixelCommon<Gray<R>> for Rgba<S>
where
    R: PixelComponent,
    S: PixelComponent + FromComponentCommon<R>,
{
    open spec fn converted_pixel(pixel: Gray<R>) -> Rgba<S> {
        Rgba {
            r: S::converted(pixel.gray),
            g: S::converted(pixel.gray),
            b: S::converted(pixel.gray),
            a: S::COMPONENT_MAX,
        }
    }

    fn from_pixel_common(pixel: Gray<R>) -> (out: Rgba<S>) {
        to_rgb_with_alpha(pixel)
    }
}

impl<R, S> FromPixelCommon<Gray<R>> for Argb<S>
where
    R: PixelComponent,
    S: PixelComponent + FromComponentCommon<R>,
{
    open spec fn converted_pixel(pixel: Gray<R>) -> Argb<S> {
        Argb {
            a: S::COMPONENT_MAX,
            r: S::converted(pixel.gray),
            g: S::converted(pixel.gray),
            b: S::converted(pixel.gray),
        }
    }

    fn from_pixel_common(pixel: Gray<R>) -> (out: Argb<S>) {
        to_rgb_with_alpha(pixel)
    }
}

impl<R, S> FromPixelCommon<Gray<R>> for Bgra<S>
where
    R: PixelComponent,
    S: PixelComponent + FromComponentCommon<R>,
{
    open spec fn converted_pixel(pixel: Gray<R>) -> Bgra<S> {
        Bgra {
            b: S::converted(pixel.gray),
            g: S::converted(pixel.gray),
            r: S::converted(pixel.gray),
            a: S::COMPONENT_MAX,
        }
    }

    fn from_pixel_common(pixel: Gray<R>) -> (out: Bgra<S>) {
        to_rgb_with_alpha(pixel)
    }
}

impl<R, S> FromPixelCommon<Gray<R>> for Abgr<S>
where
    R: PixelComponent,
    S: PixelComponent + FromComponentCommon<R>,
{
    open spec fn converted_pixel(pixel: Gray<R>) -> Abgr<S> {
        Abgr {
            a: S::COMPONENT_MAX,
            b: S::converted(pixel.gray),
            g: S::converted(pixel.gray),
            r: S::converted(pixel.gray),
        }
    }

    fn from_pixel_common(pixel: Gray<R>) -> (out: Abgr<S>) {
        to_rgb_with_alpha(pixel)
    }
}

impl<R, S> FromPixelCommon<Gray<R>> for Gray<S>
where
    R: PixelComponent,
    S: PixelComponent + FromComponentCommon<R>,
{
    open spec fn converted_pixel(pixel: Gray<R>) -> Gray<S> {
        Gray {
            gray: S::converted(pixel.gray),
        }
    }

    fn from_pixel_common(pixel: Gray<R>) -> (out: Gray<S>) {
        lossless(pixel)
    }
}

impl<R, S> FromPixelCommon<Gray<R>> for GrayAlpha<S>
where
    R: PixelComponent,
    S: PixelComponent + FromComponentCommon<R>,
{
    open spec fn converted_pixel(pixel: Gray<R>) -> GrayAlpha<S> {
        GrayAlpha {
            gray: S::converted(pixel.gray),
            a: S::COMPONENT_MAX,
        }
    }

    fn from_pixel_common(pixel: Gray<R>) -> (out: GrayAlpha<S>) {
        lossless_with_alpha(pixel)
    }
}

impl<R, S> FromPixelCommon<GrayAlpha<R>> for Rgb<S>
where
    R: PixelComponent,
    S: PixelComponent + FromComponentCommon<R>,
{
    open spec fn converted_pixel(pixel: GrayAlpha<R>) -> Rgb<S> {
        Rgb {
            r: S::converted(pixel.gray),
            g: S::converted(pixel.gray),
            b: S::converted(pixel.gray),
        }
    }

    fn from_pixel_common(pixel: GrayAlpha<R>) -> (out: Rgb<S>) {
        to_rgb(pixel)
    }
}

impl<R, S> FromPixelCommon<GrayAlpha<R>> for Bgr<S>
where
    R: PixelComponent,
    S: PixelComponent + FromComponentCommon<R>,
{
    open spec fn converted_pixel(pixel: GrayAlpha<R>) -> Bgr<S> {
        Bgr {
            b: S::converted(pixel.gray),
            g: S::converted(pixel.gray),
            r: S::converted(pixel.gray),
        }
    }

    fn from_pixel_common(pixel: GrayAlpha<R>) -> (out: Bgr<S>) {
        to_rgb(pixel)
    }
}

impl<R, S> FromPixelCommon<GrayAlpha<R>> for Rgba<S>
where
    R: PixelComponent,
    S: PixelComponent + FromComponentCommon<R>,
{
    open spec fn converted_pixel(pixel: GrayAlpha<R>) -> Rgba<S> {
        Rgba {
            r: S::converted(pixel.gray),
            g: S::converted(pixel.gray),
            b: S::converted(pixel.gray),
            a: S::converted(pixel.a),
        }
    }

    fn from_pixel_common(pixel: GrayAlpha<R>) -> (out: Rgba<S>) {
        to_rgb(pixel)
    }
}

impl<R, S> FromPixelCommon<GrayAlpha<R>> for Argb<S>
where
    R: PixelComponent,
    S: PixelComponent + FromComponentCommon<R>,
{
    open spec fn converted_pixel(pixel: GrayAlpha<R>) -> Argb<S> {
        Argb {
            a: S::converted(pixel.a),
            r: S::converted(pixel.gray),
            g: S::converted(pixel.gray),
            b: S::converted(pixel.gray),
        }
    }

    fn from_pixel_common(pixel: GrayAlpha<R>) -> (out: Argb<S>) {
        to_rgb(pixel)
    }
}

impl<R, S> FromPixelCommon<GrayAlpha<R>> for Bgra<S>
where
    R: PixelComponent,
    S: PixelComponent + FromComponentCommon<R>,
{
    open spec fn converted_pixel(pixel: GrayAlpha<R>) -> Bgra<S> {
        Bgra {
            b: S::converted(pixel.gray),
            g: S::converted(pixel.gray),
            r: S::converted(pixel.gray),
            a: S::converted(pixel.a),
        }
    }

    fn from_pixel_common(pixel: GrayAlpha<R>) -> (out: Bgra<S>) {
        to_rgb(pixel)
    }
}

impl<R, S> FromPixelCommon<GrayAlpha<R>> for Abgr<S>
where
    R: PixelComponent,
    S: PixelComponent + FromComponentCommon<R>,
{
    open spec fn converted_pixel(pixel: GrayAlpha<R>) -> Abgr<S> {
        Abgr {
            a: S::converted(pixel.a),
            b: S::converted(pixel.gray),
            g: S::converted(pixel.gray),
            r: S::converted(pixel.gray),
        }
    }

    fn from_pixel_common(pixel: GrayAlpha<R>) -> (out: Abgr<S>) {
        to_rgb(pixel)
    }
}

impl<R, S> FromPixelCommon<GrayAlpha<R>> for Gray<S>
where
    R: PixelComponent,
    S: PixelComponent + FromComponentCommon<R>,
{
    open spec fn converted_pixel(pixel: GrayAlpha<R>) -> Gray<S> {
        Gray {
            gray: S::converted(pixel.gray),
        }
    }

    fn from_pixel_common(pixel: GrayAlpha<R>) -> (out: Gray<S>) {
        lossless(pixel)
    }
}

impl<R, S> FromPixelCommon<GrayAlpha<R>> for GrayAlpha<S>
where
    R: PixelComponent,
    S: PixelComponent + FromComponentCommon<R>,
{
    open spec fn converted_pixel(pixel: GrayAlpha<R>) -> GrayAlpha<S> {
        GrayAlpha {
            gray: S::converted(pixel.gray),
            a: S::converted(pixel.a),
        }
    }

    fn from_pixel_common(pixel: GrayAlpha<R>) -> (out: GrayAlpha<S>) {
        lossless(pixel)
    }
}

/// A pixel converts to its own type unchanged, in every format and at every
/// component type.
pub proof fn lemma_same_type_is_identity<T: PixelComponent>(
    rgb: Rgb<T>,
    bgr: Bgr<T>,
    grb: Grb<T>,
    gray: Gray<T>,
    rgba: Rgba<T>,
    argb: Argb<T>,
    bgra: Bgra<T>,
    abgr: Abgr<T>,
    gray_alpha: GrayAlpha<T>,
)
    ensures
        <Rgb<T> as FromPixelCommon<Rgb<T>>>::converted_pixel(rgb) == rgb,
        <Bgr<T> as FromPixelCommon<Bgr<T>>>::converted_pixel(bgr) == bgr,
        <Grb<T> as FromPixelCommon<Grb<T>>>::converted_pixel(grb) == grb,
        <Gray<T> as FromPixelCommon<Gray<T>>>::converted_pixel(gray) == gray,
        <Rgba<T> as FromPixelCommon<Rgba<T>>>::converted_pixel(rgba) == rgba,
        <Argb<T> as FromPixelCommon<Argb<T>>>::converted_pixel(argb) == argb,
        <Bgra<T> as FromPixelCommon<Bgra<T>>>::converted_pixel(bgra) == bgra,
        <Abgr<T> as FromPixelCommon<Abgr<T>>>::converted_pixel(abgr) == abgr,
        <GrayAlpha<T> as FromPixelCommon<GrayAlpha<T>>>::converted_pixel(gray_alpha) == gray_alpha,
{
}

/// Where a pixel without alpha converts to a format with alpha, the alpha
/// it gains is fully opaque: the greatest value of the new component type.
pub proof fn lemma_gained_alpha_is_opaque<R, S>(rgb: Rgb<R>, bgr: Bgr<R>, gray: Gray<R>) where
    R: PixelComponent,
    S: PixelComponent + FromComponentCommon<R>,

    ensures
        <Rgba<S> as FromPixelCommon<Rgb<R>>>::converted_pixel(rgb).a == S::COMPONENT_MAX,
        <Argb<S> as FromPixelCommon<Rgb<R>>>::converted_pixel(rgb).a == S::COMPONENT_MAX,
        <Bgra<S> as FromPixelCommon<Rgb<R>>>::converted_pixel(rgb).a == S::COMPONENT_MAX,
        <Abgr<S> as FromPixelCommon<Rgb<R>>>::converted_pixel(rgb).a == S::COMPONENT_MAX,
        <Rgba<S> as FromPixelCommon<Bgr<R>>>::converted_pixel(bgr).a == S::COMPONENT_MAX,
        <Argb<S> as FromPixelCommon<Bgr<R>>>::converted_pixel(bgr).a == S::COMPONENT_MAX,
        <Bgra<S> as FromPixelCommon<Bgr<R>>>::converted_pixel(bgr).a == S::COMPONENT_MAX,
        <Abgr<S> as FromPixelCommon<Bgr<R>>>::converted_pixel(bgr).a == S::COMPONENT_MAX,
        <Rgba<S> as FromPixelCommon<Gray<R>>>::converted_pixel(gray).a == S::COMPONENT_MAX,
        <Argb<S> as FromPixelCommon<Gray<R>>>::converted_pixel(gray).a == S::COMPONENT_MAX,
        <Bgra<S> as FromPixelCommon<Gray<R>>>::converted_pixel(gray).a == S::COMPONENT_MAX,
        <Abgr<S> as FromPixelCommon<Gray<R>>>::converted_pixel(gray).a == S::COMPONENT_MAX,
        <GrayAlpha<S> as FromPixelCommon<Gray<R>>>::converted_pixel(gray).a == S::COMPONENT_MAX,
        S::COMPONENT_MAX.value() == S::max_value(),
{
    S::lemma_range(S::COMPONENT_MAX);
}

/// A color pixel without alpha that converts to gray with alpha gains a
/// fully opaque alpha too.
pub proof fn lemma_gained_gray_alpha_is_opaque<R, S>(rgb: Rgb<R>, bgr: Bgr<R>) where
    R: Enlargeable,
    S: PixelComponent + FromComponentCommon<R>,

    ensures
        <GrayAlpha<S> as FromPixelCommon<Rgb<R>>>::converted_pixel(rgb).a == S::COMPONENT_MAX,
        <GrayAlpha<S> as FromPixelCommon<Bgr<R>>>::converted_pixel(bgr).a == S::COMPONENT_MAX,
{
}

/// A pixel whose three colors are equal converts to the gray of that
/// brightness: a black pixel, all of whose colors are `COMPONENT_MIN`, to
/// gray `COMPONENT_MIN`, and a white one, all of whose colors are
/// `COMPONENT_MAX`, to gray `COMPONENT_MAX`.
pub proof fn lemma_equal_colors_convert_to_their_gray<T: Enlargeable>(color: T, alpha: T)
    ensures
        <Gray<T> as FromPixelCommon<Rgb<T>>>::converted_pixel(
            (Rgb { r: color, g: color, b: color }),
        ) == (Gray { gray: color }),
        <GrayAlpha<T> as FromPixelCommon<Rgb<T>>>::converted_pixel(
            (Rgb { r: color, g: color, b: color }),
        ) == (GrayAlpha { gray: color, a: T::COMPONENT_MAX }),
        <Gray<T> as FromPixelCommon<Bgr<T>>>::converted_pixel(
            (Bgr { b: color, g: color, r: color }),
        ) == (Gray { gray: color }),
        <GrayAlpha<T> as FromPixelCommon<Bgr<T>>>::converted_pixel(
            (Bgr { b: color, g: color, r: color }),
        ) == (GrayAlpha { gray: color, a: T::COMPONENT_MAX }),
        <Gray<T> as FromPixelCommon<Grb<T>>>::converted_pixel(
            (Grb { g: color, r: color, b: color }),
        ) == (Gray { gray: color }),
        <Gray<T> as FromPixelCommon<Rgba<T>>>::converted_pixel(
            (Rgba { r: color, g: color, b: color, a: alpha }),
        ) == (Gray { gray: color }),
        <GrayAlpha<T> as FromPixelCommon<Rgba<T>>>::converted_pixel(
            (Rgba { r: color, g: color, b: color, a: alpha }),
        ) == (GrayAlpha { gray: color, a: alpha }),
        <Gray<T> as FromPixelCommon<Argb<T>>>::converted_pixel(
            (Argb { a: alpha, r: color, g: color, b: color }),
        ) == (Gray { gray: color }),
        <GrayAlpha<T> as FromPixelCommon<Argb<T>>>::converted_pixel(
            (Argb { a: alpha, r: color, g: color, b: color }),
        ) == (GrayAlpha { gray: color, a: alpha }),
        <Gray<T> as FromPixelCommon<Bgra<T>>>::converted_pixel(
            (Bgra { b: color, g: color, r: color, a: alpha }),
        ) == (Gray { gray: color }),
        <GrayAlpha<T> as FromPixelCommon<Bgra<T>>>::converted_pixel(
            (Bgra { b: color, g: color, r: color, a: alpha }),
        ) == (GrayAlpha { gray: color, a: alpha }),
        <Gray<T> as FromPixelCommon<Abgr<T>>>::converted_pixel(
            (Abgr { a: alpha, b: color, g: color, r: color }),
        ) == (Gray { gray: color }),
        <GrayAlpha<T> as FromPixelCommon<Abgr<T>>>::converted_pixel(
            (Abgr { a: alpha, b: color, g: color, r: color }),
        ) == (GrayAlpha { gray: color, a: alpha }),
{
    lemma_luma_of_equal_colors(color);
}

} // verus!
