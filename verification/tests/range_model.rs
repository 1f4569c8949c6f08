use pixeli::{BoundedComponent, Enlargeable, PixelComponent};

#[test]
fn integers_range_over_all_their_values() {
    assert_eq!(<u8 as BoundedComponent>::COMPONENT_MIN, 0);
    assert_eq!(<u8 as BoundedComponent>::COMPONENT_MAX, 255);
    assert_eq!(<u16 as BoundedComponent>::COMPONENT_MIN, 0);
    assert_eq!(<u16 as BoundedComponent>::COMPONENT_MAX, 65535);
    assert_eq!(<u32 as BoundedComponent>::COMPONENT_MIN, u32::MIN);
    assert_eq!(<u32 as BoundedComponent>::COMPONENT_MAX, u32::MAX);
    assert_eq!(<u64 as BoundedComponent>::COMPONENT_MIN, u64::MIN);
    assert_eq!(<u64 as BoundedComponent>::COMPONENT_MAX, u64::MAX);
    assert_eq!(<u128 as BoundedComponent>::COMPONENT_MIN, u128::MIN);
    assert_eq!(<u128 as BoundedComponent>::COMPONENT_MAX, u128::MAX);
    assert_eq!(<usize as BoundedComponent>::COMPONENT_MIN, usize::MIN);
    assert_eq!(<usize as BoundedComponent>::COMPONENT_MAX, usize::MAX);
    assert_eq!(<i8 as BoundedComponent>::COMPONENT_MIN, -128);
    assert_eq!(<i8 as BoundedComponent>::COMPONENT_MAX, 127);
    assert_eq!(<i16 as BoundedComponent>::COMPONENT_MIN, -32768);
    assert_eq!(<i16 as BoundedComponent>::COMPONENT_MAX, 32767);
    assert_eq!(<i32 as BoundedComponent>::COMPONENT_MIN, i32::MIN);
    assert_eq!(<i32 as BoundedComponent>::COMPONENT_MAX, i32::MAX);
    assert_eq!(<i64 as BoundedComponent>::COMPONENT_MIN, i64::MIN);
    assert_eq!(<i64 as BoundedComponent>::COMPONENT_MAX, i64::MAX);
    assert_eq!(<i128 as BoundedComponent>::COMPONENT_MIN, i128::MIN);
    assert_eq!(<i128 as BoundedComponent>::COMPONENT_MAX, i128::MAX);
    assert_eq!(<isize as BoundedComponent>::COMPONENT_MIN, isize::MIN);
    assert_eq!(<isize as BoundedComponent>::COMPONENT_MAX, isize::MAX);
}

#[test]
fn level_of_unsigned() {
    assert_eq!(0u8.to_level(), 0);
    assert_eq!(200u8.to_level(), 200);
    assert_eq!(u8::MAX.to_level(), 255);
    assert_eq!(u16::MAX.to_level(), 65535);
    assert_eq!(7u32.to_level(), 7);
    assert_eq!(u64::MAX.to_level(), 18446744073709551615);
    assert_eq!(u128::MAX.to_level(), u128::MAX);
    assert_eq!(usize::MAX.to_level(), usize::MAX as u128);
}

#[test]
fn level_of_signed() {
    assert_eq!(i8::MIN.to_level(), 0);
    assert_eq!((-1i8).to_level(), 127);
    assert_eq!(0i8.to_level(), 128);
    assert_eq!(i8::MAX.to_level(), 255);
    assert_eq!(i16::MIN.to_level(), 0);
    assert_eq!(i16::MAX.to_level(), 65535);
    assert_eq!(0i32.to_level(), 2147483648);
    assert_eq!(i64::MAX.to_level(), 18446744073709551615);
    assert_eq!(i128::MIN.to_level(), 0);
    assert_eq!((-1i128).to_level(), (1u128 << 127) - 1);
    assert_eq!(0i128.to_level(), 1u128 << 127);
    assert_eq!(i128::MAX.to_level(), u128::MAX);
    assert_eq!(isize::MIN.to_level(), 0);
    assert_eq!(isize::MAX.to_level(), usize::MAX as u128);
}

#[test]
fn component_of_a_level() {
    assert_eq!(u8::from_level(0), 0);
    assert_eq!(u8::from_level(254), 254);
    assert_eq!(u8::from_level(255), 255);
    assert_eq!(u16::from_level(65534), 65534);
    assert_eq!(u32::from_level(12), 12);
    assert_eq!(u64::from_level(18446744073709551615), u64::MAX);
    assert_eq!(u128::from_level(u128::MAX), u128::MAX);
    assert_eq!(usize::from_level(5), 5);
    assert_eq!(i8::from_level(0), -128);
    assert_eq!(i8::from_level(127), -1);
    assert_eq!(i8::from_level(128), 0);
    assert_eq!(i8::from_level(254), 126);
    assert_eq!(i8::from_level(255), 127);
    assert_eq!(i16::from_level(0), i16::MIN);
    assert_eq!(i32::from_level(2147483648), 0);
    assert_eq!(i64::from_level(1), i64::MIN + 1);
    assert_eq!(i128::from_level(0), i128::MIN);
    assert_eq!(i128::from_level((1u128 << 127) - 1), -1);
    assert_eq!(i128::from_level(1u128 << 127), 0);
    assert_eq!(i128::from_level(u128::MAX), i128::MAX);
    assert_eq!(isize::from_level(0), isize::MIN);
}

#[test]
fn a_level_beyond_the_range_gives_the_maximum() {
    assert_eq!(u8::from_level(256), 255);
    assert_eq!(u8::from_level(u128::MAX), 255);
    assert_eq!(u16::from_level(65536), 65535);
    assert_eq!(u32::from_level(1 << 32), u32::MAX);
    assert_eq!(u64::from_level(1 << 64), u64::MAX);
    assert_eq!(usize::from_level(u128::MAX), usize::MAX);
    assert_eq!(i8::from_level(256), 127);
    assert_eq!(i16::from_level(65536), i16::MAX);
    assert_eq!(i32::from_level(1 << 32), i32::MAX);
    assert_eq!(i64::from_level(1 << 64), i64::MAX);
    assert_eq!(isize::from_level(u128::MAX), isize::MAX);
}

#[test]
fn level_and_component_are_inverse() {
    for v in 0..=u8::MAX {
        assert_eq!(u8::from_level(v.to_level()), v);
    }
    for v in i8::MIN..=i8::MAX {
        assert_eq!(i8::from_level(v.to_level()), v);
    }
    for v in [i64::MIN, -77, 0, 77, i64::MAX] {
        assert_eq!(i64::from_level(v.to_level()), v);
    }
    for v in [i128::MIN, -77, 0, 77, i128::MAX] {
        assert_eq!(i128::from_level(v.to_level()), v);
    }
    for v in [isize::MIN, -77, 0, 77, isize::MAX] {
        assert_eq!(isize::from_level(v.to_level()), v);
    }
}

#[test]
fn from_u16_into_u8() {
    assert_eq!(u8::from_u16(0), Some(0));
    assert_eq!(u8::from_u16(255), Some(255));
    assert_eq!(u8::from_u16(256), None);
    assert_eq!(u8::from_u16(10000), None);
}

#[test]
fn from_u16_into_u16() {
    assert_eq!(u16::from_u16(0), Some(0));
    assert_eq!(u16::from_u16(10000), Some(10000));
    assert_eq!(u16::from_u16(65535), Some(65535));
}

#[test]
fn from_u16_into_u32() {
    assert_eq!(u32::from_u16(2126), Some(2126));
    assert_eq!(u32::from_u16(65535), Some(65535));
}

#[test]
fn from_u16_into_u64() {
    assert_eq!(u64::from_u16(7152), Some(7152));
    assert_eq!(u64::from_u16(65535), Some(65535));
}

#[test]
fn from_u16_into_u128() {
    assert_eq!(u128::from_u16(722), Some(722));
    assert_eq!(u128::from_u16(65535), Some(65535));
}

#[test]
fn from_u16_into_usize() {
    assert_eq!(usize::from_u16(10000), Some(10000));
    assert_eq!(usize::from_u16(65535), Some(65535));
}

#[test]
fn from_u16_into_i8() {
    assert_eq!(i8::from_u16(0), Some(0));
    assert_eq!(i8::from_u16(127), Some(127));
    assert_eq!(i8::from_u16(128), None);
    assert_eq!(i8::from_u16(65535), None);
}

#[test]
fn from_u16_into_i16() {
    assert_eq!(i16::from_u16(10000), Some(10000));
    assert_eq!(i16::from_u16(32767), Some(32767));
    assert_eq!(i16::from_u16(32768), None);
    assert_eq!(i16::from_u16(65535), None);
}

#[test]
fn from_u16_into_i32() {
    assert_eq!(i32::from_u16(2126), Some(2126));
    assert_eq!(i32::from_u16(65535), Some(65535));
}

#[test]
fn from_u16_into_i64() {
    assert_eq!(i64::from_u16(7152), Some(7152));
    assert_eq!(i64::from_u16(65535), Some(65535));
}

#[test]
fn from_u16_into_i128() {
    assert_eq!(i128::from_u16(722), Some(722));
    assert_eq!(i128::from_u16(65535), Some(65535));
}

#[test]
fn from_u16_into_isize() {
    assert_eq!(isize::from_u16(10000), Some(10000));
    assert_eq!(isize::from_u16(65535), Some(65535));
}

#[test]
fn enlarge_u8() {
    assert_eq!(0u8.to_larger(), 0u32);
    assert_eq!(200u8.to_larger(), 200u32);
    assert_eq!(255u8.to_larger(), 255u32);
    assert_eq!(u8::clamp_from(0u32), 0);
    assert_eq!(u8::clamp_from(200u32), 200);
    assert_eq!(u8::clamp_from(255u32), 255);
    assert_eq!(u8::clamp_from(256u32), 255);
    assert_eq!(u8::clamp_from(u32::MAX), 255);
}

#[test]
fn enlarge_u16() {
    assert_eq!(40000u16.to_larger(), 40000u32);
    assert_eq!(u16::MAX.to_larger(), 65535u32);
    assert_eq!(u16::clamp_from(40000u32), 40000);
    assert_eq!(u16::clamp_from(65535u32), 65535);
    assert_eq!(u16::clamp_from(65536u32), 65535);
    assert_eq!(u16::clamp_from(u32::MAX), 65535);
}

#[test]
fn enlarge_u32() {
    assert_eq!(3000000000u32.to_larger(), 3000000000u64);
    assert_eq!(u32::MAX.to_larger(), 4294967295u64);
    assert_eq!(u32::clamp_from(3000000000u64), 3000000000);
    assert_eq!(u32::clamp_from(4294967295u64), u32::MAX);
    assert_eq!(u32::clamp_from(4294967296u64), u32::MAX);
    assert_eq!(u32::clamp_from(u64::MAX), u32::MAX);
}

#[test]
fn enlarge_u64() {
    assert_eq!(10000000000000000000u64.to_larger(), 10000000000000000000u128);
    assert_eq!(u64::MAX.to_larger(), 18446744073709551615u128);
    assert_eq!(u64::clamp_from(10000000000000000000u128), 10000000000000000000);
    assert_eq!(u64::clamp_from(18446744073709551615u128), u64::MAX);
    assert_eq!(u64::clamp_from(18446744073709551616u128), u64::MAX);
    assert_eq!(u64::clamp_from(u128::MAX), u64::MAX);
}

#[test]
fn enlarge_usize() {
    assert_eq!(123456usize.to_larger(), 123456u128);
    assert_eq!(usize::MAX.to_larger(), usize::MAX as u128);
    assert_eq!(usize::clamp_from(123456u128), 123456);
    assert_eq!(usize::clamp_from(usize::MAX as u128), usize::MAX);
    assert_eq!(usize::clamp_from(u128::MAX), usize::MAX);
}

#[test]
fn enlarge_i8() {
    assert_eq!((-128i8).to_larger(), -128i32);
    assert_eq!((-5i8).to_larger(), -5i32);
    assert_eq!(127i8.to_larger(), 127i32);
    assert_eq!(i8::clamp_from(-5i32), -5);
    assert_eq!(i8::clamp_from(-128i32), -128);
    assert_eq!(i8::clamp_from(-129i32), -128);
    assert_eq!(i8::clamp_from(i32::MIN), -128);
    assert_eq!(i8::clamp_from(127i32), 127);
    assert_eq!(i8::clamp_from(128i32), 127);
    assert_eq!(i8::clamp_from(i32::MAX), 127);
}

#[test]
fn enlarge_i16() {
    assert_eq!((-30000i16).to_larger(), -30000i32);
    assert_eq!(i16::MAX.to_larger(), 32767i32);
    assert_eq!(i16::clamp_from(-30000i32), -30000);
    assert_eq!(i16::clamp_from(-32769i32), i16::MIN);
    assert_eq!(i16::clamp_from(32768i32), i16::MAX);
    assert_eq!(i16::clamp_from(12345i32), 12345);
}

#[test]
fn enlarge_i32() {
    assert_eq!((-2000000000i32).to_larger(), -2000000000i64);
    assert_eq!(i32::MAX.to_larger(), 2147483647i64);
    assert_eq!(i32::clamp_from(-2000000000i64), -2000000000);
    assert_eq!(i32::clamp_from(-2147483649i64), i32::MIN);
    assert_eq!(i32::clamp_from(2147483648i64), i32::MAX);
    assert_eq!(i32::clamp_from(i64::MIN), i32::MIN);
}

#[test]
fn enlarge_i64() {
    assert_eq!((-9000000000000000000i64).to_larger(), -9000000000000000000i128);
    assert_eq!(i64::MAX.to_larger(), 9223372036854775807i128);
    assert_eq!(i64::clamp_from(-9000000000000000000i128), -9000000000000000000);
    assert_eq!(i64::clamp_from(-9223372036854775809i128), i64::MIN);
    assert_eq!(i64::clamp_from(9223372036854775808i128), i64::MAX);
    assert_eq!(i64::clamp_from(i128::MAX), i64::MAX);
}

#[test]
fn enlarge_isize() {
    assert_eq!((-123456isize).to_larger(), -123456i128);
    assert_eq!(isize::MIN.to_larger(), isize::MIN as i128);
    assert_eq!(isize::clamp_from(-123456i128), -123456);
    assert_eq!(isize::clamp_from(i128::MIN), isize::MIN);
    assert_eq!(isize::clamp_from(i128::MAX), isize::MAX);
}

#[test]
fn clamping_what_was_enlarged_gives_it_back() {
    for v in 0..=u8::MAX {
        assert_eq!(u8::clamp_from(v.to_larger()), v);
    }
    for v in i8::MIN..=i8::MAX {
        assert_eq!(i8::clamp_from(v.to_larger()), v);
    }
    for v in [u64::MIN, 1, 77, u64::MAX] {
        assert_eq!(u64::clamp_from(v.to_larger()), v);
    }
    for v in [i64::MIN, -1, 0, 77, i64::MAX] {
        assert_eq!(i64::clamp_from(v.to_larger()), v);
    }
}
