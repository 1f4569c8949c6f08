//! From color to luminance.

use crate::abgr::Abgr;
use crate::argb::Argb;
use crate::bgr::Bgr;
use crate::bgra::Bgra;
use crate::from_pixel_common::enlargeable::{clamp_to_range, Enlargeable};
use crate::gray::Gray;
use crate::gray_alpha::GrayAlpha;
use crate::grb::Grb;
use crate::pixel::pixel_component::{div_toward_zero, BoundedComponent, PixelComponent};
use crate::pixel::Pixel;
use crate::rgb::Rgb;
use crate::rgba::Rgba;
use vstd::prelude::*;

verus! {

/// Coefficients to transform from sRGB to a CIE Y (luminance) value: the
/// weights of red, green and blue, in ten-thousandths.
pub const SRGB_LUMA: [u16; 3] = [2126, 7152, 722];

/// What the coefficients of `SRGB_LUMA` add up to.
pub const SRGB_LUMA_DIV: u16 = 10000;

/// The luminance of the color values `r`, `g` and `b`: their weighted sum,
/// divided by the sum of the weights and rounded toward zero.
pub open spec fn luma_value(r: int, g: int, b: int) -> int {
    div_toward_zero(2126 * r + 7152 * g + 722 * b, 10000)
}

/// The luminance of the color components `r`, `g` and `b`, as a component
/// of their type.
pub open spec fn luma<T: Enlargeable>(r: T, g: T, b: T) -> T {
    T::of(
        clamp_to_range(luma_value(r.value(), g.value(), b.value()), T::min_value(), T::max_value()),
    )
}

/// The luminance lies between the least and the greatest of the three color
/// values, so it is the value of a component of their type, and clamping
/// leaves it as it is.
pub proof fn lemma_luma_in_range<T: Enlargeable>(r: T, g: T, b: T)
    ensures
        T::min_value() <= luma_value(r.value(), g.value(), b.value()) <= T::max_value(),
        luma(r, g, b).value() == luma_value(r.value(), g.value(), b.value()),
{
    T::lemma_range(r);
    T::lemma_range(g);
    T::lemma_range(b);
    T::lemma_of(r, luma_value(r.value(), g.value(), b.value()));
}

/// Computes the luminance of three color components: the weighted sum is
/// taken in the larger type, where it cannot overflow, and the quotient is
/// clamped back into the component type.
pub fn luminance<T: Enlargeable>(r: T, g: T, b: T) -> (out: T)
    ensures
        out == luma(r, g, b),
{
    proof {
        T::lemma_room();
        T::lemma_range(r);
        T::lemma_range(g);
        T::lemma_range(b);
        T::Larger::lemma_of(T::Larger::COMPONENT_MIN, 2126);
        T::Larger::lemma_of(T::Larger::COMPONENT_MIN, 7152);
        T::Larger::lemma_of(T::Larger::COMPONENT_MIN, 722);
        T::Larger::lemma_of(T::Larger::COMPONENT_MIN, 10000);
    }
    let weight_r = T::Larger::from_u16(SRGB_LUMA[0]).unwrap();
    let weight_g = T::Larger::from_u16(SRGB_LUMA[1]).unwrap();
    let weight_b = T::Larger::from_u16(SRGB_LUMA[2]).unwrap();
    let divisor = T::Larger::from_u16(SRGB_LUMA_DIV).unwrap();
    let large_r = r.to_larger();
    let large_g = g.to_larger();
    let large_b = b.to_larger();
    proof {
        T::Larger::lemma_arithmetic(weight_r, large_r);
        T::Larger::lemma_arithmetic(weight_g, large_g);
        T::Larger::lemma_arithmetic(weight_b, large_b);
    }
    let part_r = weight_r * large_r;
    let part_g = weight_g * large_g;
    let part_b = weight_b * large_b;
    proof {
        T::Larger::lemma_arithmetic(part_r, part_g);
    }
    let part_rg = part_r + part_g;
    proof {
        T::Larger::lemma_arithmetic(part_rg, part_b);
    }
    let l = part_rg + part_b;
    proof {
        T::Larger::lemma_arithmetic(l, divisor);
    }
    let out = T::clamp_from(l / divisor);
    proof {
        T::lemma_of(out, out.value());
    }
    out
}

/// A color pixel that can be reduced to its luminance, with the alpha kept
/// where there is one.
pub trait ToGray: Pixel {
    /// The gray format that the pixel is reduced to.
    type Gray: Pixel;

    /// What `to_gray` makes of the pixel.
    spec fn grayed(self) -> Self::Gray;

    /// Reduces the colors of the pixel to their luminance.
    fn to_gray(self) -> (out: Self::Gray)
        ensures
            out == self.grayed(),
    ;
}

impl<T: Enlargeable> ToGray for Rgb<T> {
    type Gray = Gray<T>;

    open spec fn grayed(self) -> Gray<T> {
        Gray { gray: luma(self.r, self.g, self.b) }
    }

    fn to_gray(self) -> (out: Gray<T>) {
        Gray { gray: luminance(self.r, self.g, self.b) }
    }
}

impl<T: Enlargeable> ToGray for Bgr<T> {
    type Gray = Gray<T>;

    open spec fn grayed(self) -> Gray<T> {
        Gray { gray: luma(self.r, self.g, self.b) }
    }

    fn to_gray(self) -> (out: Gray<T>) {
        Gray { gray: luminance(self.r, self.g, self.b) }
    }
}

impl<T: Enlargeable> ToGray for Grb<T> {
    type Gray = Gray<T>;

    open spec fn grayed(self) -> Gray<T> {
        Gray { gray: luma(self.r, self.g, self.b) }
    }

    fn to_gray(self) -> (out: Gray<T>) {
        Gray { gray: luminance(self.r, self.g, self.b) }
    }
}

impl<T: Enlargeable> ToGray for Rgba<T> {
    type Gray = GrayAlpha<T>;

    open spec fn grayed(self) -> GrayAlpha<T> {
        GrayAlpha { gray: luma(self.r, self.g, self.b), a: self.a }
    }

    fn to_gray(self) -> (out: GrayAlpha<T>) {
        GrayAlpha { gray: luminance(self.r, self.g, self.b), a: self.a }
    }
}

impl<T: Enlargeable> ToGray for Argb<T> {
    type Gray = GrayAlpha<T>;

    open spec fn grayed(self) -> GrayAlpha<T> {
        GrayAlpha { gray: luma(self.r, self.g, self.b), a: self.a }
    }

    fn to_gray(self) -> (out: GrayAlpha<T>) {
        GrayAlpha { gray: luminance(self.r, self.g, self.b), a: self.a }
    }
}

impl<T: Enlargeable> ToGray for Bgra<T> {
    type Gray = GrayAlpha<T>;

    open spec fn grayed(self) -> GrayAlpha<T> {
        GrayAlpha { gray: luma(self.r, self.g, self.b), a: self.a }
    }

    fn to_gray(self) -> (out: GrayAlpha<T>) {
        GrayAlpha { gray: luminance(self.r, self.g, self.b), a: self.a }
    }
}

impl<T: Enlargeable> ToGray for Abgr<T> {
    type Gray = GrayAlpha<T>;

    open spec fn grayed(self) -> GrayAlpha<T> {
        GrayAlpha { gray: luma(self.r, self.g, self.b), a: self.a }
    }

    fn to_gray(self) -> (out: GrayAlpha<T>) {
        GrayAlpha { gray: luminance(self.r, self.g, self.b), a: self.a }
    }
}

/// Three equal colors have that color as their luminance.
pub proof fn lemma_luma_of_equal_colors<T: Enlargeable>(color: T)
    ensures
        luma(color, color, color) == color,
{
    T::lemma_range(color);
    T::lemma_of(color, 0);
}

/// Black stays black and white stays white: colors that are all
/// `COMPONENT_MIN` have the luminance `COMPONENT_MIN`, and colors that are
/// all `COMPONENT_MAX` have the luminance `COMPONENT_MAX`.
pub proof fn lemma_luma_boundary<T: Enlargeable>()
    ensures
        luma(T::COMPONENT_MIN, T::COMPONENT_MIN, T::COMPONENT_MIN) == T::COMPONENT_MIN,
        luma(T::COMPONENT_MAX, T::COMPONENT_MAX, T::COMPONENT_MAX) == T::COMPONENT_MAX,
{
    lemma_luma_of_equal_colors(T::COMPONENT_MIN);
    lemma_luma_of_equal_colors(T::COMPONENT_MAX);
}

/// In every color format a pixel whose three colors are equal turns into
/// the gray pixel of that brightness, with its alpha kept: so a black pixel
/// turns into gray `COMPONENT_MIN`, and a white one into gray
/// `COMPONENT_MAX`.
pub proof fn lemma_gray_of_equal_colors<T: Enlargeable>(color: T, alpha: T)
    ensures
        (Rgb { r: color, g: color, b: color }).grayed() == (Gray { gray: color }),
        (Bgr { b: color, g: color, r: color }).grayed() == (Gray { gray: color }),
        (Grb { g: color, r: color, b: color }).grayed() == (Gray { gray: color }),
        (Rgba { r: color, g: color, b: color, a: alpha }).grayed() == (GrayAlpha {
            gray: color,
            a: alpha,
        }),
        (Argb { a: alpha, r: color, g: color, b: color }).grayed() == (GrayAlpha {
            gray: color,
            a: alpha,
        }),
        (Bgra { b: color, g: color, r: color, a: alpha }).grayed() == (GrayAlpha {
            gray: color,
            a: alpha,
        }),
        (Abgr { a: alpha, b: color, g: color, r: color }).grayed() == (GrayAlpha {
            gray: color,
            a: alpha,
        }),
{
    lemma_luma_of_equal_colors(color);
}

} // verus!
