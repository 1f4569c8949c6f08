//! From luminance back to color.

use crate::gray::Gray;
use crate::gray_alpha::GrayAlpha;
use crate::pixel::pixel_component::PixelComponent;
use crate::pixel::Pixel;
use crate::rgb::Rgb;
use crate::rgba::Rgba;
use vstd::prelude::*;

verus! {

/// ToRgb can also mean including alpha, for example from [`GrayAlpha`] -> [`Rgba`].
pub trait ToRgb: Pixel {
    /// The color format that the pixel is expanded to.
    type Rgb: Pixel;

    /// What `to_rgb` makes of the pixel.
    spec fn colored(self) -> Self::Rgb;

    /// Expands the luminance into red, green and blue, each of them the
    /// luminance as it is.
    fn to_rgb(self) -> (out: Self::Rgb)
        ensures
            out == self.colored(),
    ;
}

impl<T> ToRgb for Gray<T> where T: PixelComponent {
    type Rgb = Rgb<T>;

    open spec fn colored(self) -> Rgb<T> {
        Rgb { r: self.gray, g: self.gray, b: self.gray }
    }

    fn to_rgb(self) -> (out: Rgb<T>) {
        Rgb { r: self.gray, g: self.gray, b: self.gray }
    }
}

impl<T> ToRgb for GrayAlpha<T> where T: PixelComponent {
    type Rgb = Rgba<T>;

    open spec fn colored(self) -> Rgba<T> {
        Rgba { r: self.gray, g: self.gray, b: self.gray, a: self.a }
    }

    fn to_rgb(self) -> (out: Rgba<T>) {
        Rgba { r: self.gray, g: self.gray, b: self.gray, a: self.a }
    }
}

} // verus!
