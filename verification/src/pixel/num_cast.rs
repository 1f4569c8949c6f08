//! The casts between integer types that `num_traits` makes for the library.
//!
//! Each function here holds one call of `num_traits::NumCast::from`, which
//! returns the number in the new type where the new type can hold it, and
//! `None` where it cannot. What is stated of a call here is not proved: it
//! is what the source of `num_traits` shows.

use vstd::prelude::*;

verus! {

/// `num_traits::NumCast::from` with a `u16` for `u8`: the same number
/// where a `u8` can hold it, `None` where it cannot.
#[verifier::external_body]
pub(crate) fn u8_from_u16(n: u16) -> (out: Option<u8>)
    ensures
        out == if n <= u8::MAX {
            Some(n as u8)
        } else {
            None
        },
{
    <u8 as num_traits::NumCast>::from(n)
}

/// `num_traits::NumCast::from` with a `u16` for `u16`: always `Some`, of
/// the same number.
#[verifier::external_body]
pub(crate) fn u16_from_u16(n: u16) -> (out: Option<u16>)
    ensures
        out == Some(n),
{
    <u16 as num_traits::NumCast>::from(n)
}

/// `num_traits::NumCast::from` with a `u16` for `u32`: always `Some`, of
/// the same number.
#[verifier::external_body]
pub(crate) fn u32_from_u16(n: u16) -> (out: Option<u32>)
    ensures
        out == Some(n as u32),
{
    <u32 as num_traits::NumCast>::from(n)
}

/// `num_traits::NumCast::from` with a `u16` for `u64`: always `Some`, of
/// the same number.
#[verifier::external_body]
pub(crate) fn u64_from_u16(n: u16) -> (out: Option<u64>)
    ensures
        out == Some(n as u64),
{
    <u64 as num_traits::NumCast>::from(n)
}

/// `num_traits::NumCast::from` with a `u16` for `u128`: always `Some`, of
/// the same number.
#[verifier::external_body]
pub(crate) fn u128_from_u16(n: u16) -> (out: Option<u128>)
    ensures
        out == Some(n as u128),
{
    <u128 as num_traits::NumCast>::from(n)
}

/// `num_traits::NumCast::from` with a `u16` for `usize`: always `Some`, of
/// the same number.
#[verifier::external_body]
pub(crate) fn usize_from_u16(n: u16) -> (out: Option<usize>)
    ensures
        out == Some(n as usize),
{
    <usize as num_traits::NumCast>::from(n)
}

/// `num_traits::NumCast::from` with a `u16` for `i8`: the same number
/// where an `i8` can hold it, `None` where it cannot.
#[verifier::external_body]
pub(crate) fn i8_from_u16(n: u16) -> (out: Option<i8>)
    ensures
        out == if n <= i8::MAX {
            Some(n as i8)
        } else {
            None
        },
{
    <i8 as num_traits::NumCast>::from(n)
}

/// `num_traits::NumCast::from` with a `u16` for `i16`: the same number
/// where an `i16` can hold it, `None` where it cannot.
#[verifier::external_body]
pub(crate) fn i16_from_u16(n: u16) -> (out: Option<i16>)
    ensures
        out == if n <= i16::MAX {
            Some(n as i16)
        } else {
            None
        },
{
    <i16 as num_traits::NumCast>::from(n)
}

/// `num_traits::NumCast::from` with a `u16` for `i32`: always `Some`, of
/// the same number.
#[verifier::external_body]
pub(crate) fn i32_from_u16(n: u16) -> (out: Option<i32>)
    ensures
        out == Some(n as i32),
{
    <i32 as num_traits::NumCast>::from(n)
}

/// `num_traits::NumCast::from` with a `u16` for `i64`: always `Some`, of
/// the same number.
#[verifier::external_body]
pub(crate) fn i64_from_u16(n: u16) -> (out: Option<i64>)
    ensures
        out == Some(n as i64),
{
    <i64 as num_traits::NumCast>::from(n)
}

/// `num_traits::NumCast::from` with a `u16` for `i128`: always `Some`, of
/// the same number.
#[verifier::external_body]
pub(crate) fn i128_from_u16(n: u16) -> (out: Option<i128>)
    ensures
        out == Some(n as i128),
{
    <i128 as num_traits::NumCast>::from(n)
}

/// `num_traits::NumCast::from` with a `u16` for `isize`: the same number
/// where an `isize` can hold it, `None` where it cannot.
#[verifier::external_body]
pub(crate) fn isize_from_u16(n: u16) -> (out: Option<isize>)
    ensures
        out == if n <= isize::MAX {
            Some(n as isize)
        } else {
            None
        },
{
    <isize as num_traits::NumCast>::from(n)
}

/// `num_traits::NumCast::from` with a `u8` for `u32`: always `Some`, of
/// the same number.
#[verifier::external_body]
pub(crate) fn u32_from_u8(n: u8) -> (out: Option<u32>)
    ensures
        out == Some(n as u32),
{
    <u32 as num_traits::NumCast>::from(n)
}

/// `num_traits::NumCast::from` with a `u32` for `u64`: always `Some`, of
/// the same number.
#[verifier::external_body]
pub(crate) fn u64_from_u32(n: u32) -> (out: Option<u64>)
    ensures
        out == Some(n as u64),
{
    <u64 as num_traits::NumCast>::from(n)
}

/// `num_traits::NumCast::from` with a `u64` for `u128`: always `Some`, of
/// the same number.
#[verifier::external_body]
pub(crate) fn u128_from_u64(n: u64) -> (out: Option<u128>)
    ensures
        out == Some(n as u128),
{
    <u128 as num_traits::NumCast>::from(n)
}

/// `num_traits::NumCast::from` with a `usize` for `u128`: always `Some`, of
/// the same number.
#[verifier::external_body]
pub(crate) fn u128_from_usize(n: usize) -> (out: Option<u128>)
    ensures
        out == Some(n as u128),
{
    <u128 as num_traits::NumCast>::from(n)
}

/// `num_traits::NumCast::from` with a `i8` for `i32`: always `Some`, of
/// the same number.
#[verifier::external_body]
pub(crate) fn i32_from_i8(n: i8) -> (out: Option<i32>)
    ensures
        out == Some(n as i32),
{
    <i32 as num_traits::NumCast>::from(n)
}

/// `num_traits::NumCast::from` with a `i16` for `i32`: always `Some`, of
/// the same number.
#[verifier::external_body]
pub(crate) fn i32_from_i16(n: i16) -> (out: Option<i32>)
    ensures
        out == Some(n as i32),
{
    <i32 as num_traits::NumCast>::from(n)
}

/// `num_traits::NumCast::from` with a `i32` for `i64`: always `Some`, of
/// the same number.
#[verifier::external_body]
pub(crate) fn i64_from_i32(n: i32) -> (out: Option<i64>)
    ensures
        out == Some(n as i64),
{
    <i64 as num_traits::NumCast>::from(n)
}

/// `num_traits::NumCast::from` with a `i64` for `i128`: always `Some`, of
/// the same number.
#[verifier::external_body]
pub(crate) fn i128_from_i64(n: i64) -> (out: Option<i128>)
    ensures
        out == Some(n as i128),
{
    <i128 as num_traits::NumCast>::from(n)
}

/// `num_traits::NumCast::from` with a `isize` for `i128`: always `Some`, of
/// the same number.
#[verifier::external_body]
pub(crate) fn i128_from_isize(n: isize) -> (out: Option<i128>)
    ensures
        out == Some(n as i128),
{
    <i128 as num_traits::NumCast>::from(n)
}

/// `num_traits::NumCast::from` with a `u32` for `u8`: the same number
/// where a `u8` can hold it, `None` where it cannot.
#[verifier::external_body]
pub(crate) fn u8_from_u32(n: u32) -> (out: Option<u8>)
    ensures
        out == if n <= u8::MAX {
            Some(n as u8)
        } else {
            None
        },
{
    <u8 as num_traits::NumCast>::from(n)
}

/// `num_traits::NumCast::from` with a `u32` for `u16`: the same number
/// where a `u16` can hold it, `None` where it cannot.
#[verifier::external_body]
pub(crate) fn u16_from_u32(n: u32) -> (out: Option<u16>)
    ensures
        out == if n <= u16::MAX {
            Some(n as u16)
        } else {
            None
        },
{
    <u16 as num_traits::NumCast>::from(n)
}

/// `num_traits::NumCast::from` with a `u64` for `u32`: the same number
/// where a `u32` can hold it, `None` where it cannot.
#[verifier::external_body]
pub(crate) fn u32_from_u64(n: u64) -> (out: Option<u32>)
    ensures
        out == if n <= u32::MAX {
            Some(n as u32)
        } else {
            None
        },
{
    <u32 as num_traits::NumCast>::from(n)
}

/// `num_traits::NumCast::from` with a `u128` for `u64`: the same number
/// where a `u64` can hold it, `None` where it cannot.
#[verifier::external_body]
pub(crate) fn u64_from_u128(n: u128) -> (out: Option<u64>)
    ensures
        out == if n <= u64::MAX {
            Some(n as u64)
        } else {
            None
        },
{
    <u64 as num_traits::NumCast>::from(n)
}

/// `num_traits::NumCast::from` with a `u128` for `usize`: the same number
/// where a `usize` can hold it, `None` where it cannot.
#[verifier::external_body]
pub(crate) fn usize_from_u128(n: u128) -> (out: Option<usize>)
    ensures
        out == if n <= usize::MAX {
            Some(n as usize)
        } else {
            None
        },
{
    <usize as num_traits::NumCast>::from(n)
}

/// `num_traits::NumCast::from` with a `i32` for `i8`: the same number
/// where an `i8` can hold it, `None` where it cannot.
#[verifier::external_body]
pub(crate) fn i8_from_i32(n: i32) -> (out: Option<i8>)
    ensures
        out == if i8::MIN <= n <= i8::MAX {
            Some(n as i8)
        } else {
            None
        },
{
    <i8 as num_traits::NumCast>::from(n)
}

/// `num_traits::NumCast::from` with a `i32` for `i16`: the same number
/// where an `i16` can hold it, `None` where it cannot.
#[verifier::external_body]
pub(crate) fn i16_from_i32(n: i32) -> (out: Option<i16>)
    ensures
        out == if i16::MIN <= n <= i16::MAX {
            Some(n as i16)
        } else {
            None
        },
{
    <i16 as num_traits::NumCast>::from(n)
}

/// `num_traits::NumCast::from` with a `i64` for `i32`: the same number
/// where an `i32` can hold it, `None` where it cannot.
#[verifier::external_body]
pub(crate) fn i32_from_i64(n: i64) -> (out: Option<i32>)
    ensures
        out == if i32::MIN <= n <= i32::MAX {
            Some(n as i32)
        } else {
            None
        },
{
    <i32 as num_traits::NumCast>::from(n)
}

/// `num_traits::NumCast::from` with a `i128` for `i64`: the same number
/// where an `i64` can hold it, `None` where it cannot.
#[verifier::external_body]
pub(crate) fn i64_from_i128(n: i128) -> (out: Option<i64>)
    ensures
        out == if i64::MIN <= n <= i64::MAX {
            Some(n as i64)
        } else {
            None
        },
{
    <i64 as num_traits::NumCast>::from(n)
}

/// `num_traits::NumCast::from` with a `i128` for `isize`: the same number
/// where an `isize` can hold it, `None` where it cannot.
#[verifier::external_body]
pub(crate) fn isize_from_i128(n: i128) -> (out: Option<isize>)
    ensures
        out == if isize::MIN <= n <= isize::MAX {
            Some(n as isize)
        } else {
            None
        },
{
    <isize as num_traits::NumCast>::from(n)
}

} // verus!
