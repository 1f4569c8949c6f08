//! Pixel formats of a fixed layout, and the conversions between them.
//!
//! A pixel is a small record of components of one numeric type: [`Rgb`],
//! [`Bgr`], [`Grb`], the four orderings with an alpha channel, [`Gray`] and
//! [`GrayAlpha`]. [`FromPixelCommon`] converts any of them into any other,
//! at any pair of component types, and [`FromComponentCommon`] is the
//! conversion of a single component that it is built on.
//!
//! The component types are the integer types, each ranging over all its
//! values ([`BoundedComponent`], [`PixelComponent`]). A component converts
//! by its place in the range: the least value of one type goes to the least
//! value of the other, the greatest to the greatest, and what lies between
//! to the nearest value at the same place ([`rescaled`]). A color pixel
//! turns gray by its luminance ([`luma`]), and a pixel that gains an alpha
//! component gains a fully opaque one.
mod abgr;
mod argb;
mod bgr;
mod bgra;
mod gray;
mod gray_alpha;
mod grb;
mod rgb;
mod rgba;

mod from;
mod from_pixel_common;
mod pixel;
mod with_alpha;

pub use abgr::Abgr;
pub use argb::Argb;
pub use bgr::Bgr;
pub use bgra::Bgra;
pub use gray::Gray;
pub use gray_alpha::GrayAlpha;
pub use grb::Grb;
pub use rgb::Rgb;
pub use rgba::Rgba;

pub use from_pixel_common::enlargeable::{clamp_to_range, Enlargeable};
pub use from_pixel_common::from_component_common::{
    lemma_rescaled_ends, lemma_rescaled_is_nearest, lemma_rescaled_monotonic,
    lemma_rescaled_round_trip, lemma_rescaled_same_span, lemma_rescaled_same_type,
    lemma_rescaled_value, lemma_u16_to_u8_rounds_to_nearest, lemma_u8_to_u16_repeats_the_byte,
    lemma_u8_u16_round_trip, rescale, rescaled, FromComponentCommon,
};
pub use from_pixel_common::scale::{
    lemma_round_div, lemma_round_div_has_no_ties, lemma_round_div_is_nearest,
    lemma_scaled_bounds, lemma_scaled_ends, lemma_scaled_monotonic, lemma_scaled_same_span,
    mul_div_round, round_div, scaled,
};
pub use from_pixel_common::to_gray::{
    lemma_gray_of_equal_colors, lemma_luma_boundary, lemma_luma_in_range,
    lemma_luma_of_equal_colors, luma, luma_value, luminance, ToGray, SRGB_LUMA, SRGB_LUMA_DIV,
};
pub use from_pixel_common::to_rgb::ToRgb;
pub use from_pixel_common::{
    component_conversion, lemma_equal_colors_convert_to_their_gray, lemma_gained_alpha_is_opaque,
    lemma_gained_gray_alpha_is_opaque, lemma_same_type_is_identity, lossless,
    lossless_with_alpha, to_gray, to_gray_with_alpha, to_rgb, to_rgb_with_alpha, FromPixelCommon,
};
pub use pixel::as_slice::AsSlice;
pub use pixel::pixel_component::{div_toward_zero, BoundedComponent, PixelComponent};
pub use pixel::{Pixel, PixelMap};
pub use with_alpha::{
    alpha_or, lemma_added_alpha_is_opaque, lemma_with_alpha_keeps_alpha, lemma_with_alpha_twice,
    lemma_without_alpha, WithAlpha, WithoutAlpha,
};
