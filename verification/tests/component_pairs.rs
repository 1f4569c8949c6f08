use pixeli::FromComponentCommon;

#[test]
fn u8_to_u16() {
    assert_eq!(u16::from_component_common(0u8), 0u16);
    assert_eq!(u16::from_component_common(1u8), 257u16);
    assert_eq!(u16::from_component_common(127u8), 32639u16);
    assert_eq!(u16::from_component_common(128u8), 32896u16);
    assert_eq!(u16::from_component_common(165u8), 42405u16);
    assert_eq!(u16::from_component_common(254u8), 65278u16);
    assert_eq!(u16::from_component_common(u8::MAX), u16::MAX);
}

#[test]
fn u8_to_u32() {
    assert_eq!(u32::from_component_common(0u8), 0u32);
    assert_eq!(u32::from_component_common(1u8), 16843009u32);
    assert_eq!(u32::from_component_common(77u8), 1296911693u32);
    assert_eq!(u32::from_component_common(127u8), 2139062143u32);
    assert_eq!(u32::from_component_common(128u8), 2155905152u32);
    assert_eq!(u32::from_component_common(254u8), 4278124286u32);
    assert_eq!(u32::from_component_common(u8::MAX), u32::MAX);
}

#[test]
fn u8_to_u64() {
    assert_eq!(u64::from_component_common(0u8), 0u64);
    assert_eq!(u64::from_component_common(1u8), 72340172838076673u64);
    assert_eq!(u64::from_component_common(127u8), 9187201950435737471u64);
    assert_eq!(u64::from_component_common(128u8), 9259542123273814144u64);
    assert_eq!(u64::from_component_common(202u8), 14612714913291487946u64);
    assert_eq!(u64::from_component_common(254u8), 18374403900871474942u64);
    assert_eq!(u64::from_component_common(u8::MAX), u64::MAX);
}

#[test]
fn u8_to_u128() {
    assert_eq!(u128::from_component_common(0u8), 0u128);
    assert_eq!(u128::from_component_common(1u8), 1334440654591915542993625911497130241u128);
    assert_eq!(u128::from_component_common(24u8), 32026575710205973031847021875931125784u128);
    assert_eq!(u128::from_component_common(127u8), 169473963133173273960190490760135540607u128);
    assert_eq!(u128::from_component_common(128u8), 170808403787765189503184116671632670848u128);
    assert_eq!(u128::from_component_common(254u8), 338947926266346547920380981520271081214u128);
    assert_eq!(u128::from_component_common(u8::MAX), u128::MAX);
}

#[test]
fn u8_to_i8() {
    assert_eq!(i8::from_component_common(0u8), i8::MIN);
    assert_eq!(i8::from_component_common(1u8), -127i8);
    assert_eq!(i8::from_component_common(37u8), -91i8);
    assert_eq!(i8::from_component_common(127u8), -1i8);
    assert_eq!(i8::from_component_common(128u8), 0i8);
    assert_eq!(i8::from_component_common(254u8), 126i8);
    assert_eq!(i8::from_component_common(u8::MAX), i8::MAX);
}

#[test]
fn u8_to_i16() {
    assert_eq!(i16::from_component_common(0u8), i16::MIN);
    assert_eq!(i16::from_component_common(1u8), -32511i16);
    assert_eq!(i16::from_component_common(48u8), -20432i16);
    assert_eq!(i16::from_component_common(127u8), -129i16);
    assert_eq!(i16::from_component_common(128u8), 128i16);
    assert_eq!(i16::from_component_common(254u8), 32510i16);
    assert_eq!(i16::from_component_common(u8::MAX), i16::MAX);
}

#[test]
fn u8_to_i32() {
    assert_eq!(i32::from_component_common(0u8), i32::MIN);
    assert_eq!(i32::from_component_common(1u8), -2130640639i32);
    assert_eq!(i32::from_component_common(127u8), -8421505i32);
    assert_eq!(i32::from_component_common(128u8), 8421504i32);
    assert_eq!(i32::from_component_common(187u8), 1002159035i32);
    assert_eq!(i32::from_component_common(254u8), 2130640638i32);
    assert_eq!(i32::from_component_common(u8::MAX), i32::MAX);
}

#[test]
fn u8_to_i64() {
    assert_eq!(i64::from_component_common(0u8), i64::MIN);
    assert_eq!(i64::from_component_common(1u8), -9151031864016699135i64);
    assert_eq!(i64::from_component_common(29u8), -7125507024550552291i64);
    assert_eq!(i64::from_component_common(127u8), -36170086419038337i64);
    assert_eq!(i64::from_component_common(128u8), 36170086419038336i64);
    assert_eq!(i64::from_component_common(254u8), 9151031864016699134i64);
    assert_eq!(i64::from_component_common(u8::MAX), i64::MAX);
}

#[test]
fn u8_to_i128() {
    assert_eq!(i128::from_component_common(0u8), i128::MIN);
    assert_eq!(i128::from_component_common(1u8), -168806742805877316188693677804386975487i128);
    assert_eq!(i128::from_component_common(109u8), -24687152109950437545382079362696909459i128);
    assert_eq!(i128::from_component_common(127u8), -667220327295957771496812955748565121i128);
    assert_eq!(i128::from_component_common(128u8), 667220327295957771496812955748565120i128);
    assert_eq!(i128::from_component_common(254u8), 168806742805877316188693677804386975486i128);
    assert_eq!(i128::from_component_common(u8::MAX), i128::MAX);
}

#[test]
fn u16_to_u8() {
    assert_eq!(u8::from_component_common(0u16), 0u8);
    assert_eq!(u8::from_component_common(1u16), 0u8);
    assert_eq!(u8::from_component_common(4914u16), 19u8);
    assert_eq!(u8::from_component_common(32767u16), 127u8);
    assert_eq!(u8::from_component_common(32768u16), 128u8);
    assert_eq!(u8::from_component_common(65534u16), u8::MAX);
    assert_eq!(u8::from_component_common(u16::MAX), u8::MAX);
}

#[test]
fn u16_to_u32() {
    assert_eq!(u32::from_component_common(0u16), 0u32);
    assert_eq!(u32::from_component_common(1u16), 65537u32);
    assert_eq!(u32::from_component_common(11265u16), 738274305u32);
    assert_eq!(u32::from_component_common(32767u16), 2147450879u32);
    assert_eq!(u32::from_component_common(32768u16), 2147516416u32);
    assert_eq!(u32::from_component_common(65534u16), 4294901758u32);
    assert_eq!(u32::from_component_common(u16::MAX), u32::MAX);
}

#[test]
fn u16_to_u64() {
    assert_eq!(u64::from_component_common(0u16), 0u64);
    assert_eq!(u64::from_component_common(1u16), 281479271743489u64);
    assert_eq!(u64::from_component_common(32767u16), 9223231297218904063u64);
    assert_eq!(u64::from_component_common(32768u16), 9223512776490647552u64);
    assert_eq!(u64::from_component_common(56838u16), 15998718847356427782u64);
    assert_eq!(u64::from_component_common(65534u16), 18446462594437808126u64);
    assert_eq!(u64::from_component_common(u16::MAX), u64::MAX);
}

#[test]
fn u16_to_u128() {
    assert_eq!(u128::from_component_common(0u16), 0u128);
    assert_eq!(u128::from_component_common(1u16), 5192376087906286159508272029171713u128);
    assert_eq!(u128::from_component_common(32767u16), 170138587272425278588607549579869519871u128);
    assert_eq!(u128::from_component_common(32768u16), 170143779648513184874767057851898691584u128);
    assert_eq!(u128::from_component_common(54810u16), 284594133378143544402648389918901589530u128);
    assert_eq!(u128::from_component_common(65534u16), 340277174544850557177215099159739039742u128);
    assert_eq!(u128::from_component_common(u16::MAX), u128::MAX);
}

#[test]
fn u16_to_i8() {
    assert_eq!(i8::from_component_common(0u16), i8::MIN);
    assert_eq!(i8::from_component_common(1u16), i8::MIN);
    assert_eq!(i8::from_component_common(9156u16), -92i8);
    assert_eq!(i8::from_component_common(32767u16), -1i8);
    assert_eq!(i8::from_component_common(32768u16), 0i8);
    assert_eq!(i8::from_component_common(65534u16), i8::MAX);
    assert_eq!(i8::from_component_common(u16::MAX), i8::MAX);
}

#[test]
fn u16_to_i16() {
    assert_eq!(i16::from_component_common(0u16), i16::MIN);
    assert_eq!(i16::from_component_common(1u16), -32767i16);
    assert_eq!(i16::from_component_common(31544u16), -1224i16);
    assert_eq!(i16::from_component_common(32767u16), -1i16);
    assert_eq!(i16::from_component_common(32768u16), 0i16);
    assert_eq!(i16::from_component_common(65534u16), 32766i16);
    assert_eq!(i16::from_component_common(u16::MAX), i16::MAX);
}

#[test]
fn u16_to_i32() {
    assert_eq!(i32::from_component_common(0u16), i32::MIN);
    assert_eq!(i32::from_component_common(1u16), -2147418111i32);
    assert_eq!(i32::from_component_common(11889u16), -1368314255i32);
    assert_eq!(i32::from_component_common(32767u16), -32769i32);
    assert_eq!(i32::from_component_common(32768u16), 32768i32);
    assert_eq!(i32::from_component_common(65534u16), 2147418110i32);
    assert_eq!(i32::from_component_common(u16::MAX), i32::MAX);
}

#[test]
fn u16_to_i64() {
    assert_eq!(i64::from_component_common(0u16), i64::MIN);
    assert_eq!(i64::from_component_common(1u16), -9223090557583032319i64);
    assert_eq!(i64::from_component_common(32767u16), -140739635871745i64);
    assert_eq!(i64::from_component_common(32768u16), 140739635871744i64);
    assert_eq!(i64::from_component_common(55642u16), 6438697601496439130i64);
    assert_eq!(i64::from_component_common(65534u16), 9223090557583032318i64);
    assert_eq!(i64::from_component_common(u16::MAX), i64::MAX);
}

#[test]
fn u16_to_i128() {
    assert_eq!(i128::from_component_common(0u16), i128::MIN);
    assert_eq!(i128::from_component_common(1u16), -170135991084381325445527795443854934015i128);
    assert_eq!(i128::from_component_common(7747u16), -129915845907459232853976720305890845117i128);
    assert_eq!(i128::from_component_common(32767u16), -2596188043953143079754136014585857i128);
    assert_eq!(i128::from_component_common(32768u16), 2596188043953143079754136014585856i128);
    assert_eq!(i128::from_component_common(65534u16), 170135991084381325445527795443854934014i128);
    assert_eq!(i128::from_component_common(u16::MAX), i128::MAX);
}

#[test]
fn u32_to_u8() {
    assert_eq!(u8::from_component_common(0u32), 0u8);
    assert_eq!(u8::from_component_common(1u32), 0u8);
    assert_eq!(u8::from_component_common(2147483647u32), 127u8);
    assert_eq!(u8::from_component_common(2147483648u32), 128u8);
    assert_eq!(u8::from_component_common(4070378921u32), 242u8);
    assert_eq!(u8::from_component_common(4294967294u32), u8::MAX);
    assert_eq!(u8::from_component_common(u32::MAX), u8::MAX);
}

#[test]
fn u32_to_u16() {
    assert_eq!(u16::from_component_common(0u32), 0u16);
    assert_eq!(u16::from_component_common(1u32), 0u16);
    assert_eq!(u16::from_component_common(1703729684u32), 25996u16);
    assert_eq!(u16::from_component_common(2147483647u32), 32767u16);
    assert_eq!(u16::from_component_common(2147483648u32), 32768u16);
    assert_eq!(u16::from_component_common(4294967294u32), u16::MAX);
    assert_eq!(u16::from_component_common(u32::MAX), u16::MAX);
}

#[test]
fn u32_to_u64() {
    assert_eq!(u64::from_component_common(0u32), 0u64);
    assert_eq!(u64::from_component_common(1u32), 4294967297u64);
    assert_eq!(u64::from_component_common(2147483647u32), 9223372034707292159u64);
    assert_eq!(u64::from_component_common(2147483648u32), 9223372039002259456u64);
    assert_eq!(u64::from_component_common(4192983756u32), 18008728108872227532u64);
    assert_eq!(u64::from_component_common(4294967294u32), 18446744069414584318u64);
    assert_eq!(u64::from_component_common(u32::MAX), u64::MAX);
}

#[test]
fn u32_to_u128() {
    assert_eq!(u128::from_component_common(0u32), 0u128);
    assert_eq!(u128::from_component_common(1u32), 79228162532711081671548469249u128);
    assert_eq!(u128::from_component_common(2147483647u32), 170141183420855150465331762880109871103u128);
    assert_eq!(u128::from_component_common(2147483648u32), 170141183500083312998042844551658340352u128);
    assert_eq!(u128::from_component_common(3687093963u32), 292121679773941819254366309829879043787u128);
    assert_eq!(u128::from_component_common(4294967294u32), 340282366841710300930663525760219742206u128);
    assert_eq!(u128::from_component_common(u32::MAX), u128::MAX);
}

#[test]
fn u32_to_i8() {
    assert_eq!(i8::from_component_common(0u32), i8::MIN);
    assert_eq!(i8::from_component_common(1u32), i8::MIN);
    assert_eq!(i8::from_component_common(1243862422u32), -54i8);
    assert_eq!(i8::from_component_common(2147483647u32), -1i8);
    assert_eq!(i8::from_component_common(2147483648u32), 0i8);
    assert_eq!(i8::from_component_common(4294967294u32), i8::MAX);
    assert_eq!(i8::from_component_common(u32::MAX), i8::MAX);
}

#[test]
fn u32_to_i16() {
    assert_eq!(i16::from_component_common(0u32), i16::MIN);
    assert_eq!(i16::from_component_common(1u32), i16::MIN);
    assert_eq!(i16::from_component_common(776213899u32), -20924i16);
    assert_eq!(i16::from_component_common(2147483647u32), -1i16);
    assert_eq!(i16::from_component_common(2147483648u32), 0i16);
    assert_eq!(i16::from_component_common(4294967294u32), i16::MAX);
    assert_eq!(i16::from_component_common(u32::MAX), i16::MAX);
}

#[test]
fn u32_to_i32() {
    assert_eq!(i32::from_component_common(0u32), i32::MIN);
    assert_eq!(i32::from_component_common(1u32), -2147483647i32);
    assert_eq!(i32::from_component_common(2147483647u32), -1i32);
    assert_eq!(i32::from_component_common(2147483648u32), 0i32);
    assert_eq!(i32::from_component_common(2744112455u32), 596628807i32);
    assert_eq!(i32::from_component_common(4294967294u32), 2147483646i32);
    assert_eq!(i32::from_component_common(u32::MAX), i32::MAX);
}

#[test]
fn u32_to_i64() {
    assert_eq!(i64::from_component_common(0u32), i64::MIN);
    assert_eq!(i64::from_component_common(1u32), -9223372032559808511i64);
    assert_eq!(i64::from_component_common(1599435267u32), -2353849871421312509i64);
    assert_eq!(i64::from_component_common(2147483647u32), -2147483649i64);
    assert_eq!(i64::from_component_common(2147483648u32), 2147483648i64);
    assert_eq!(i64::from_component_common(4294967294u32), 9223372032559808510i64);
    assert_eq!(i64::from_component_common(u32::MAX), i64::MAX);
}

#[test]
fn u32_to_i128() {
    assert_eq!(i128::from_component_common(0u32), i128::MIN);
    assert_eq!(i128::from_component_common(1u32), -170141183381241069198976222044335636479i128);
    assert_eq!(i128::from_component_common(884585951u32), -100057063960488430943021931402663184929i128);
    assert_eq!(i128::from_component_common(2147483647u32), -39614081266355540835774234625i128);
    assert_eq!(i128::from_component_common(2147483648u32), 39614081266355540835774234624i128);
    assert_eq!(i128::from_component_common(4294967294u32), 170141183381241069198976222044335636478i128);
    assert_eq!(i128::from_component_common(u32::MAX), i128::MAX);
}

#[test]
fn u64_to_u8() {
    assert_eq!(u8::from_component_common(0u64), 0u8);
    assert_eq!(u8::from_component_common(1u64), 0u8);
    assert_eq!(u8::from_component_common(9223372036854775807u64), 127u8);
    assert_eq!(u8::from_component_common(9223372036854775808u64), 128u8);
    assert_eq!(u8::from_component_common(9808507260218814804u64), 136u8);
    assert_eq!(u8::from_component_common(18446744073709551614u64), u8::MAX);
    assert_eq!(u8::from_component_common(u64::MAX), u8::MAX);
}

#[test]
fn u64_to_u16() {
    assert_eq!(u16::from_component_common(0u64), 0u16);
    assert_eq!(u16::from_component_common(1u64), 0u16);
    assert_eq!(u16::from_component_common(5794992457191552792u64), 20588u16);
    assert_eq!(u16::from_component_common(9223372036854775807u64), 32767u16);
    assert_eq!(u16::from_component_common(9223372036854775808u64), 32768u16);
    assert_eq!(u16::from_component_common(18446744073709551614u64), u16::MAX);
    assert_eq!(u16::from_component_common(u64::MAX), u16::MAX);
}

#[test]
fn u64_to_u32() {
    assert_eq!(u32::from_component_common(0u64), 0u32);
    assert_eq!(u32::from_component_common(1u64), 0u32);
    assert_eq!(u32::from_component_common(9223372036854775807u64), 2147483647u32);
    assert_eq!(u32::from_component_common(9223372036854775808u64), 2147483648u32);
    assert_eq!(u32::from_component_common(17034486841352872401u64), 3966150535u32);
    assert_eq!(u32::from_component_common(18446744073709551614u64), u32::MAX);
    assert_eq!(u32::from_component_common(u64::MAX), u32::MAX);
}

#[test]
fn u64_to_u128() {
    assert_eq!(u128::from_component_common(0u64), 0u128);
    assert_eq!(u128::from_component_common(1u64), 18446744073709551617u128);
    assert_eq!(u128::from_component_common(5529725096132913496u64), 102005423646332802636086298426007923032u128);
    assert_eq!(u128::from_component_common(9223372036854775807u64), 170141183460469231722463931679029329919u128);
    assert_eq!(u128::from_component_common(9223372036854775808u64), 170141183460469231740910675752738881536u128);
    assert_eq!(u128::from_component_common(18446744073709551614u64), 340282366920938463444927863358058659838u128);
    assert_eq!(u128::from_component_common(u64::MAX), u128::MAX);
}

#[test]
fn u64_to_i8() {
    assert_eq!(i8::from_component_common(0u64), i8::MIN);
    assert_eq!(i8::from_component_common(1u64), i8::MIN);
    assert_eq!(i8::from_component_common(4502785970640448032u64), -66i8);
    assert_eq!(i8::from_component_common(9223372036854775807u64), -1i8);
    assert_eq!(i8::from_component_common(9223372036854775808u64), 0i8);
    assert_eq!(i8::from_component_common(18446744073709551614u64), i8::MAX);
    assert_eq!(i8::from_component_common(u64::MAX), i8::MAX);
}

#[test]
fn u64_to_i16() {
    assert_eq!(i16::from_component_common(0u64), i16::MIN);
    assert_eq!(i16::from_component_common(1u64), i16::MIN);
    assert_eq!(i16::from_component_common(9223372036854775807u64), -1i16);
    assert_eq!(i16::from_component_common(9223372036854775808u64), 0i16);
    assert_eq!(i16::from_component_common(16143437395134509574u64), 24584i16);
    assert_eq!(i16::from_component_common(18446744073709551614u64), i16::MAX);
    assert_eq!(i16::from_component_common(u64::MAX), i16::MAX);
}

#[test]
fn u64_to_i32() {
    assert_eq!(i32::from_component_common(0u64), i32::MIN);
    assert_eq!(i32::from_component_common(1u64), i32::MIN);
    assert_eq!(i32::from_component_common(8279529517580348704u64), -219755462i32);
    assert_eq!(i32::from_component_common(9223372036854775807u64), -1i32);
    assert_eq!(i32::from_component_common(9223372036854775808u64), 0i32);
    assert_eq!(i32::from_component_common(18446744073709551614u64), i32::MAX);
    assert_eq!(i32::from_component_common(u64::MAX), i32::MAX);
}

#[test]
fn u64_to_i64() {
    assert_eq!(i64::from_component_common(0u64), i64::MIN);
    assert_eq!(i64::from_component_common(1u64), -9223372036854775807i64);
    assert_eq!(i64::from_component_common(9223372036854775807u64), -1i64);
    assert_eq!(i64::from_component_common(9223372036854775808u64), 0i64);
    assert_eq!(i64::from_component_common(18081034654816976124u64), 8857662617962200316i64);
    assert_eq!(i64::from_component_common(18446744073709551614u64), 9223372036854775806i64);
    assert_eq!(i64::from_component_common(u64::MAX), i64::MAX);
}

#[test]
fn u64_to_i128() {
    assert_eq!(i128::from_component_common(0u64), i128::MIN);
    assert_eq!(i128::from_component_common(1u64), -170141183460469231713240559642174554111i128);
    assert_eq!(i128::from_component_common(9223372036854775807u64), -9223372036854775809i128);
    assert_eq!(i128::from_component_common(9223372036854775808u64), 9223372036854775808i128);
    assert_eq!(i128::from_component_common(9443493973184843536u64), 4060533024490148118256118782976691984i128);
    assert_eq!(i128::from_component_common(18446744073709551614u64), 170141183460469231713240559642174554110i128);
    assert_eq!(i128::from_component_common(u64::MAX), i128::MAX);
}

#[test]
fn u128_to_u8() {
    assert_eq!(u8::from_component_common(0u128), 0u8);
    assert_eq!(u8::from_component_common(1u128), 0u8);
    assert_eq!(u8::from_component_common(170141183460469231731687303715884105727u128), 127u8);
    assert_eq!(u8::from_component_common(170141183460469231731687303715884105728u128), 128u8);
    assert_eq!(u8::from_component_common(225999286425046781466511780747287379329u128), 169u8);
    assert_eq!(u8::from_component_common(340282366920938463463374607431768211454u128), u8::MAX);
    assert_eq!(u8::from_component_common(u128::MAX), u8::MAX);
}

#[test]
fn u128_to_u16() {
    assert_eq!(u16::from_component_common(0u128), 0u16);
    assert_eq!(u16::from_component_common(1u128), 0u16);
    assert_eq!(u16::from_component_common(170141183460469231731687303715884105727u128), 32767u16);
    assert_eq!(u16::from_component_common(170141183460469231731687303715884105728u128), 32768u16);
    assert_eq!(u16::from_component_common(279686511138821491670918039008949061811u128), 53865u16);
    assert_eq!(u16::from_component_common(340282366920938463463374607431768211454u128), u16::MAX);
    assert_eq!(u16::from_component_common(u128::MAX), u16::MAX);
}

#[test]
fn u128_to_u32() {
    assert_eq!(u32::from_component_common(0u128), 0u32);
    assert_eq!(u32::from_component_common(1u128), 0u32);
    assert_eq!(u32::from_component_common(157106765417748881393649734177086854717u128), 1982966162u32);
    assert_eq!(u32::from_component_common(170141183460469231731687303715884105727u128), 2147483647u32);
    assert_eq!(u32::from_component_common(170141183460469231731687303715884105728u128), 2147483648u32);
    assert_eq!(u32::from_component_common(340282366920938463463374607431768211454u128), u32::MAX);
    assert_eq!(u32::from_component_common(u128::MAX), u32::MAX);
}

#[test]
fn u128_to_u64() {
    assert_eq!(u64::from_component_common(0u128), 0u64);
    assert_eq!(u64::from_component_common(1u128), 0u64);
    assert_eq!(u64::from_component_common(167995021372227343817593106282618107878u128), 9107028356925881720u64);
    assert_eq!(u64::from_component_common(170141183460469231731687303715884105727u128), 9223372036854775807u64);
    assert_eq!(u64::from_component_common(170141183460469231731687303715884105728u128), 9223372036854775808u64);
    assert_eq!(u64::from_component_common(340282366920938463463374607431768211454u128), u64::MAX);
    assert_eq!(u64::from_component_common(u128::MAX), u64::MAX);
}

#[test]
fn u128_to_i8() {
    assert_eq!(i8::from_component_common(0u128), i8::MIN);
    assert_eq!(i8::from_component_common(1u128), i8::MIN);
    assert_eq!(i8::from_component_common(152850551139451024714351186974892298300u128), -13i8);
    assert_eq!(i8::from_component_common(170141183460469231731687303715884105727u128), -1i8);
    assert_eq!(i8::from_component_common(170141183460469231731687303715884105728u128), 0i8);
    assert_eq!(i8::from_component_common(340282366920938463463374607431768211454u128), i8::MAX);
    assert_eq!(i8::from_component_common(u128::MAX), i8::MAX);
}

#[test]
fn u128_to_i16() {
    assert_eq!(i16::from_component_common(0u128), i16::MIN);
    assert_eq!(i16::from_component_common(1u128), i16::MIN);
    assert_eq!(i16::from_component_common(51355725145958080048122182831389841865u128), -22877i16);
    assert_eq!(i16::from_component_common(170141183460469231731687303715884105727u128), -1i16);
    assert_eq!(i16::from_component_common(170141183460469231731687303715884105728u128), 0i16);
    assert_eq!(i16::from_component_common(340282366920938463463374607431768211454u128), i16::MAX);
    assert_eq!(i16::from_component_common(u128::MAX), i16::MAX);
}

#[test]
fn u128_to_i32() {
    assert_eq!(i32::from_component_common(0u128), i32::MIN);
    assert_eq!(i32::from_component_common(1u128), i32::MIN);
    assert_eq!(i32::from_component_common(170141183460469231731687303715884105727u128), -1i32);
    assert_eq!(i32::from_component_common(170141183460469231731687303715884105728u128), 0i32);
    assert_eq!(i32::from_component_common(224081613636909313185513148474963303152u128), 680823945i32);
    assert_eq!(i32::from_component_common(340282366920938463463374607431768211454u128), i32::MAX);
    assert_eq!(i32::from_component_common(u128::MAX), i32::MAX);
}

#[test]
fn u128_to_i64() {
    assert_eq!(i64::from_component_common(0u128), i64::MIN);
    assert_eq!(i64::from_component_common(1u128), i64::MIN);
    assert_eq!(i64::from_component_common(170141183460469231731687303715884105727u128), -1i64);
    assert_eq!(i64::from_component_common(170141183460469231731687303715884105728u128), 0i64);
    assert_eq!(i64::from_component_common(200468342318393224558118164065848561822u128), 1644038575953710126i64);
    assert_eq!(i64::from_component_common(340282366920938463463374607431768211454u128), i64::MAX);
    assert_eq!(i64::from_component_common(u128::MAX), i64::MAX);
}

#[test]
fn u128_to_i128() {
    assert_eq!(i128::from_component_common(0u128), i128::MIN);
    assert_eq!(i128::from_component_common(1u128), -170141183460469231731687303715884105727i128);
    assert_eq!(i128::from_component_common(49571107677468248356881999044391689413u128), -120570075783000983374805304671492416315i128);
    assert_eq!(i128::from_component_common(170141183460469231731687303715884105727u128), -1i128);
    assert_eq!(i128::from_component_common(170141183460469231731687303715884105728u128), 0i128);
    assert_eq!(i128::from_component_common(340282366920938463463374607431768211454u128), 170141183460469231731687303715884105726i128);
    assert_eq!(i128::from_component_common(u128::MAX), i128::MAX);
}

#[test]
fn i8_to_u8() {
    assert_eq!(u8::from_component_common(i8::MIN), 0u8);
    assert_eq!(u8::from_component_common(-127i8), 1u8);
    assert_eq!(u8::from_component_common(-1i8), 127u8);
    assert_eq!(u8::from_component_common(0i8), 128u8);
    assert_eq!(u8::from_component_common(1i8), 129u8);
    assert_eq!(u8::from_component_common(61i8), 189u8);
    assert_eq!(u8::from_component_common(126i8), 254u8);
    assert_eq!(u8::from_component_common(i8::MAX), u8::MAX);
}

#[test]
fn i8_to_u16() {
    assert_eq!(u16::from_component_common(i8::MIN), 0u16);
    assert_eq!(u16::from_component_common(-127i8), 257u16);
    assert_eq!(u16::from_component_common(-1i8), 32639u16);
    assert_eq!(u16::from_component_common(0i8), 32896u16);
    assert_eq!(u16::from_component_common(1i8), 33153u16);
    assert_eq!(u16::from_component_common(35i8), 41891u16);
    assert_eq!(u16::from_component_common(126i8), 65278u16);
    assert_eq!(u16::from_component_common(i8::MAX), u16::MAX);
}

#[test]
fn i8_to_u32() {
    assert_eq!(u32::from_component_common(i8::MIN), 0u32);
    assert_eq!(u32::from_component_common(-127i8), 16843009u32);
    assert_eq!(u32::from_component_common(-64i8), 1077952576u32);
    assert_eq!(u32::from_component_common(-1i8), 2139062143u32);
    assert_eq!(u32::from_component_common(0i8), 2155905152u32);
    assert_eq!(u32::from_component_common(1i8), 2172748161u32);
    assert_eq!(u32::from_component_common(126i8), 4278124286u32);
    assert_eq!(u32::from_component_common(i8::MAX), u32::MAX);
}

#[test]
fn i8_to_u64() {
    assert_eq!(u64::from_component_common(i8::MIN), 0u64);
    assert_eq!(u64::from_component_common(-127i8), 72340172838076673u64);
    assert_eq!(u64::from_component_common(-101i8), 1953184666628070171u64);
    assert_eq!(u64::from_component_common(-1i8), 9187201950435737471u64);
    assert_eq!(u64::from_component_common(0i8), 9259542123273814144u64);
    assert_eq!(u64::from_component_common(1i8), 9331882296111890817u64);
    assert_eq!(u64::from_component_common(126i8), 18374403900871474942u64);
    assert_eq!(u64::from_component_common(i8::MAX), u64::MAX);
}

#[test]
fn i8_to_u128() {
    assert_eq!(u128::from_component_common(i8::MIN), 0u128);
    assert_eq!(u128::from_component_common(-127i8), 1334440654591915542993625911497130241u128);
    assert_eq!(u128::from_component_common(-1i8), 169473963133173273960190490760135540607u128);
    assert_eq!(u128::from_component_common(0i8), 170808403787765189503184116671632670848u128);
    assert_eq!(u128::from_component_common(1i8), 172142844442357105046177742583129801089u128);
    assert_eq!(u128::from_component_common(105i8), 310924672519916321517514837378831346153u128);
    assert_eq!(u128::from_component_common(126i8), 338947926266346547920380981520271081214u128);
    assert_eq!(u128::from_component_common(i8::MAX), u128::MAX);
}

#[test]
fn i8_to_i16() {
    assert_eq!(i16::from_component_common(i8::MIN), i16::MIN);
    assert_eq!(i16::from_component_common(-127i8), -32511i16);
    assert_eq!(i16::from_component_common(-1i8), -129i16);
    assert_eq!(i16::from_component_common(0i8), 128i16);
    assert_eq!(i16::from_component_common(1i8), 385i16);
    assert_eq!(i16::from_component_common(72i8), 18632i16);
    assert_eq!(i16::from_component_common(126i8), 32510i16);
    assert_eq!(i16::from_component_common(i8::MAX), i16::MAX);
}

#[test]
fn i8_to_i32() {
    assert_eq!(i32::from_component_common(i8::MIN), i32::MIN);
    assert_eq!(i32::from_component_common(-127i8), -2130640639i32);
    assert_eq!(i32::from_component_common(-1i8), -8421505i32);
    assert_eq!(i32::from_component_common(0i8), 8421504i32);
    assert_eq!(i32::from_component_common(1i8), 25264513i32);
    assert_eq!(i32::from_component_common(75i8), 1271647179i32);
    assert_eq!(i32::from_component_common(126i8), 2130640638i32);
    assert_eq!(i32::from_component_common(i8::MAX), i32::MAX);
}

#[test]
fn i8_to_i64() {
    assert_eq!(i64::from_component_common(i8::MIN), i64::MIN);
    assert_eq!(i64::from_component_common(-127i8), -9151031864016699135i64);
    assert_eq!(i64::from_component_common(-1i8), -36170086419038337i64);
    assert_eq!(i64::from_component_common(0i8), 36170086419038336i64);
    assert_eq!(i64::from_component_common(1i8), 108510259257115009i64);
    assert_eq!(i64::from_component_common(76i8), 5534023222112865484i64);
    assert_eq!(i64::from_component_common(126i8), 9151031864016699134i64);
    assert_eq!(i64::from_component_common(i8::MAX), i64::MAX);
}

#[test]
fn i8_to_i128() {
    assert_eq!(i128::from_component_common(i8::MIN), i128::MIN);
    assert_eq!(i128::from_component_common(-127i8), -168806742805877316188693677804386975487i128);
    assert_eq!(i128::from_component_common(-1i8), -667220327295957771496812955748565121i128);
    assert_eq!(i128::from_component_common(0i8), 667220327295957771496812955748565120i128);
    assert_eq!(i128::from_component_common(1i8), 2001660981887873314490438867245695361i128);
    assert_eq!(i128::from_component_common(73i8), 98081388112505792410031504495039072713i128);
    assert_eq!(i128::from_component_common(126i8), 168806742805877316188693677804386975486i128);
    assert_eq!(i128::from_component_common(i8::MAX), i128::MAX);
}

#[test]
fn i16_to_u8() {
    assert_eq!(u8::from_component_common(i16::MIN), 0u8);
    assert_eq!(u8::from_component_common(-32767i16), 0u8);
    assert_eq!(u8::from_component_common(-19198i16), 53u8);
    assert_eq!(u8::from_component_common(-1i16), 127u8);
    assert_eq!(u8::from_component_common(0i16), 128u8);
    assert_eq!(u8::from_component_common(1i16), 128u8);
    assert_eq!(u8::from_component_common(32766i16), u8::MAX);
    assert_eq!(u8::from_component_common(i16::MAX), u8::MAX);
}

#[test]
fn i16_to_u16() {
    assert_eq!(u16::from_component_common(i16::MIN), 0u16);
    assert_eq!(u16::from_component_common(-32767i16), 1u16);
    assert_eq!(u16::from_component_common(-1i16), 32767u16);
    assert_eq!(u16::from_component_common(0i16), 32768u16);
    assert_eq!(u16::from_component_common(1i16), 32769u16);
    assert_eq!(u16::from_component_common(30346i16), 63114u16);
    assert_eq!(u16::from_component_common(32766i16), 65534u16);
    assert_eq!(u16::from_component_common(i16::MAX), u16::MAX);
}

#[test]
fn i16_to_u32() {
    assert_eq!(u32::from_component_common(i16::MIN), 0u32);
    assert_eq!(u32::from_component_common(-32767i16), 65537u32);
    assert_eq!(u32::from_component_common(-1i16), 2147450879u32);
    assert_eq!(u32::from_component_common(0i16), 2147516416u32);
    assert_eq!(u32::from_component_common(1i16), 2147581953u32);
    assert_eq!(u32::from_component_common(19718i16), 3439774982u32);
    assert_eq!(u32::from_component_common(32766i16), 4294901758u32);
    assert_eq!(u32::from_component_common(i16::MAX), u32::MAX);
}

#[test]
fn i16_to_u64() {
    assert_eq!(u64::from_component_common(i16::MIN), 0u64);
    assert_eq!(u64::from_component_common(-32767i16), 281479271743489u64);
    assert_eq!(u64::from_component_common(-24610i16), 2296307898883383262u64);
    assert_eq!(u64::from_component_common(-1i16), 9223231297218904063u64);
    assert_eq!(u64::from_component_common(0i16), 9223512776490647552u64);
    assert_eq!(u64::from_component_common(1i16), 9223794255762391041u64);
    assert_eq!(u64::from_component_common(32766i16), 18446462594437808126u64);
    assert_eq!(u64::from_component_common(i16::MAX), u64::MAX);
}

#[test]
fn i16_to_u128() {
    assert_eq!(u128::from_component_common(i16::MIN), 0u128);
    assert_eq!(u128::from_component_common(-32767i16), 5192376087906286159508272029171713u128);
    assert_eq!(u128::from_component_common(-7785i16), 129721131804162747122995160104796905879u128);
    assert_eq!(u128::from_component_common(-1i16), 170138587272425278588607549579869519871u128);
    assert_eq!(u128::from_component_common(0i16), 170143779648513184874767057851898691584u128);
    assert_eq!(u128::from_component_common(1i16), 170148972024601091160926566123927863297u128);
    assert_eq!(u128::from_component_common(32766i16), 340277174544850557177215099159739039742u128);
    assert_eq!(u128::from_component_common(i16::MAX), u128::MAX);
}

#[test]
fn i16_to_i8() {
    assert_eq!(i8::from_component_common(i16::MIN), i8::MIN);
    assert_eq!(i8::from_component_common(-32767i16), i8::MIN);
    assert_eq!(i8::from_component_common(-23941i16), -94i8);
    assert_eq!(i8::from_component_common(-1i16), -1i8);
    assert_eq!(i8::from_component_common(0i16), 0i8);
    assert_eq!(i8::from_component_common(1i16), 0i8);
    assert_eq!(i8::from_component_common(32766i16), i8::MAX);
    assert_eq!(i8::from_component_common(i16::MAX), i8::MAX);
}

#[test]
fn i16_to_i32() {
    assert_eq!(i32::from_component_common(i16::MIN), i32::MIN);
    assert_eq!(i32::from_component_common(-32767i16), -2147418111i32);
    assert_eq!(i32::from_component_common(-5405i16), -354194717i32);
    assert_eq!(i32::from_component_common(-1i16), -32769i32);
    assert_eq!(i32::from_component_common(0i16), 32768i32);
    assert_eq!(i32::from_component_common(1i16), 98305i32);
    assert_eq!(i32::from_component_common(32766i16), 2147418110i32);
    assert_eq!(i32::from_component_common(i16::MAX), i32::MAX);
}

#[test]
fn i16_to_i64() {
    assert_eq!(i64::from_component_common(i16::MIN), i64::MIN);
    assert_eq!(i64::from_component_common(-32767i16), -9223090557583032319i64);
    assert_eq!(i64::from_component_common(-1i16), -140739635871745i64);
    assert_eq!(i64::from_component_common(0i16), 140739635871744i64);
    assert_eq!(i64::from_component_common(1i16), 422218907615233i64);
    assert_eq!(i64::from_component_common(24985i16), 7032900344146944409i64);
    assert_eq!(i64::from_component_common(32766i16), 9223090557583032318i64);
    assert_eq!(i64::from_component_common(i16::MAX), i64::MAX);
}

#[test]
fn i16_to_i128() {
    assert_eq!(i128::from_component_common(i16::MIN), i128::MIN);
    assert_eq!(i128::from_component_common(-32767i16), -170135991084381325445527795443854934015i128);
    assert_eq!(i128::from_component_common(-11495i16), -59683766942438806260467832839314255079i128);
    assert_eq!(i128::from_component_common(-1i16), -2596188043953143079754136014585857i128);
    assert_eq!(i128::from_component_common(0i16), 2596188043953143079754136014585856i128);
    assert_eq!(i128::from_component_common(1i16), 7788564131859429239262408043757569i128);
    assert_eq!(i128::from_component_common(32766i16), 170135991084381325445527795443854934014i128);
    assert_eq!(i128::from_component_common(i16::MAX), i128::MAX);
}

#[test]
fn i32_to_u8() {
    assert_eq!(u8::from_component_common(i32::MIN), 0u8);
    assert_eq!(u8::from_component_common(-2147483647i32), 0u8);
    assert_eq!(u8::from_component_common(-1675345159i32), 28u8);
    assert_eq!(u8::from_component_common(-1i32), 127u8);
    assert_eq!(u8::from_component_common(0i32), 128u8);
    assert_eq!(u8::from_component_common(1i32), 128u8);
    assert_eq!(u8::from_component_common(2147483646i32), u8::MAX);
    assert_eq!(u8::from_component_common(i32::MAX), u8::MAX);
}

#[test]
fn i32_to_u16() {
    assert_eq!(u16::from_component_common(i32::MIN), 0u16);
    assert_eq!(u16::from_component_common(-2147483647i32), 0u16);
    assert_eq!(u16::from_component_common(-1i32), 32767u16);
    assert_eq!(u16::from_component_common(0i32), 32768u16);
    assert_eq!(u16::from_component_common(1i32), 32768u16);
    assert_eq!(u16::from_component_common(432620297i32), 39369u16);
    assert_eq!(u16::from_component_common(2147483646i32), u16::MAX);
    assert_eq!(u16::from_component_common(i32::MAX), u16::MAX);
}

#[test]
fn i32_to_u32() {
    assert_eq!(u32::from_component_common(i32::MIN), 0u32);
    assert_eq!(u32::from_component_common(-2147483647i32), 1u32);
    assert_eq!(u32::from_component_common(-1707766624i32), 439717024u32);
    assert_eq!(u32::from_component_common(-1i32), 2147483647u32);
    assert_eq!(u32::from_component_common(0i32), 2147483648u32);
    assert_eq!(u32::from_component_common(1i32), 2147483649u32);
    assert_eq!(u32::from_component_common(2147483646i32), 4294967294u32);
    assert_eq!(u32::from_component_common(i32::MAX), u32::MAX);
}

#[test]
fn i32_to_u64() {
    assert_eq!(u64::from_component_common(i32::MIN), 0u64);
    assert_eq!(u64::from_component_common(-2147483647i32), 4294967297u64);
    assert_eq!(u64::from_component_common(-1i32), 9223372034707292159u64);
    assert_eq!(u64::from_component_common(0i32), 9223372039002259456u64);
    assert_eq!(u64::from_component_common(1i32), 9223372043297226753u64);
    assert_eq!(u64::from_component_common(286833430i32), 10455312240538598166u64);
    assert_eq!(u64::from_component_common(2147483646i32), 18446744069414584318u64);
    assert_eq!(u64::from_component_common(i32::MAX), u64::MAX);
}

#[test]
fn i32_to_u128() {
    assert_eq!(u128::from_component_common(i32::MIN), 0u128);
    assert_eq!(u128::from_component_common(-2147483647i32), 79228162532711081671548469249u128);
    assert_eq!(u128::from_component_common(-1i32), 170141183420855150465331762880109871103u128);
    assert_eq!(u128::from_component_common(0i32), 170141183500083312998042844551658340352u128);
    assert_eq!(u128::from_component_common(1i32), 170141183579311475530753926223206809601u128);
    assert_eq!(u128::from_component_common(157276083i32), 182601878566515471294037080339787012019u128);
    assert_eq!(u128::from_component_common(2147483646i32), 340282366841710300930663525760219742206u128);
    assert_eq!(u128::from_component_common(i32::MAX), u128::MAX);
}

#[test]
fn i32_to_i8() {
    assert_eq!(i8::from_component_common(i32::MIN), i8::MIN);
    assert_eq!(i8::from_component_common(-2147483647i32), i8::MIN);
    assert_eq!(i8::from_component_common(-1i32), -1i8);
    assert_eq!(i8::from_component_common(0i32), 0i8);
    assert_eq!(i8::from_component_common(1i32), 0i8);
    assert_eq!(i8::from_component_common(1928220229i32), 114i8);
    assert_eq!(i8::from_component_common(2147483646i32), i8::MAX);
    assert_eq!(i8::from_component_common(i32::MAX), i8::MAX);
}

#[test]
fn i32_to_i16() {
    assert_eq!(i16::from_component_common(i32::MIN), i16::MIN);
    assert_eq!(i16::from_component_common(-2147483647i32), i16::MIN);
    assert_eq!(i16::from_component_common(-1i32), -1i16);
    assert_eq!(i16::from_component_common(0i32), 0i16);
    assert_eq!(i16::from_component_common(1i32), 0i16);
    assert_eq!(i16::from_component_common(488497824i32), 7453i16);
    assert_eq!(i16::from_component_common(2147483646i32), i16::MAX);
    assert_eq!(i16::from_component_common(i32::MAX), i16::MAX);
}

#[test]
fn i32_to_i64() {
    assert_eq!(i64::from_component_common(i32::MIN), i64::MIN);
    assert_eq!(i64::from_component_common(-2147483647i32), -9223372032559808511i64);
    assert_eq!(i64::from_component_common(-531590838i32), -2283165262447341238i64);
    assert_eq!(i64::from_component_common(-1i32), -2147483649i64);
    assert_eq!(i64::from_component_common(0i32), 2147483648i64);
    assert_eq!(i64::from_component_common(1i32), 6442450945i64);
    assert_eq!(i64::from_component_common(2147483646i32), 9223372032559808510i64);
    assert_eq!(i64::from_component_common(i32::MAX), i64::MAX);
}

#[test]
fn i32_to_i128() {
    assert_eq!(i128::from_component_common(i32::MIN), i128::MIN);
    assert_eq!(i128::from_component_common(-2147483647i32), -170141183381241069198976222044335636479i128);
    assert_eq!(i128::from_component_common(-1i32), -39614081266355540835774234625i128);
    assert_eq!(i128::from_component_common(0i32), 39614081266355540835774234624i128);
    assert_eq!(i128::from_component_common(1i32), 118842243799066622507322703873i128);
    assert_eq!(i128::from_component_common(577284743i32), 45737209485672427142367409318226602631i128);
    assert_eq!(i128::from_component_common(2147483646i32), 170141183381241069198976222044335636478i128);
    assert_eq!(i128::from_component_common(i32::MAX), i128::MAX);
}

#[test]
fn i64_to_u8() {
    assert_eq!(u8::from_component_common(i64::MIN), 0u8);
    assert_eq!(u8::from_component_common(-9223372036854775807i64), 0u8);
    assert_eq!(u8::from_component_common(-476821280453439320i64), 121u8);
    assert_eq!(u8::from_component_common(-1i64), 127u8);
    assert_eq!(u8::from_component_common(0i64), 128u8);
    assert_eq!(u8::from_component_common(1i64), 128u8);
    assert_eq!(u8::from_component_common(9223372036854775806i64), u8::MAX);
    assert_eq!(u8::from_component_common(i64::MAX), u8::MAX);
}

#[test]
fn i64_to_u16() {
    assert_eq!(u16::from_component_common(i64::MIN), 0u16);
    assert_eq!(u16::from_component_common(-9223372036854775807i64), 0u16);
    assert_eq!(u16::from_component_common(-1i64), 32767u16);
    assert_eq!(u16::from_component_common(0i64), 32768u16);
    assert_eq!(u16::from_component_common(1i64), 32768u16);
    assert_eq!(u16::from_component_common(6436750139914178243i64), 55635u16);
    assert_eq!(u16::from_component_common(9223372036854775806i64), u16::MAX);
    assert_eq!(u16::from_component_common(i64::MAX), u16::MAX);
}

#[test]
fn i64_to_u32() {
    assert_eq!(u32::from_component_common(i64::MIN), 0u32);
    assert_eq!(u32::from_component_common(-9223372036854775807i64), 0u32);
    assert_eq!(u32::from_component_common(-1i64), 2147483647u32);
    assert_eq!(u32::from_component_common(0i64), 2147483648u32);
    assert_eq!(u32::from_component_common(1i64), 2147483648u32);
    assert_eq!(u32::from_component_common(8814278549364800218i64), 4199717795u32);
    assert_eq!(u32::from_component_common(9223372036854775806i64), u32::MAX);
    assert_eq!(u32::from_component_common(i64::MAX), u32::MAX);
}

#[test]
fn i64_to_u64() {
    assert_eq!(u64::from_component_common(i64::MIN), 0u64);
    assert_eq!(u64::from_component_common(-9223372036854775807i64), 1u64);
    assert_eq!(u64::from_component_common(-298197949505393560i64), 8925174087349382248u64);
    assert_eq!(u64::from_component_common(-1i64), 9223372036854775807u64);
    assert_eq!(u64::from_component_common(0i64), 9223372036854775808u64);
    assert_eq!(u64::from_component_common(1i64), 9223372036854775809u64);
    assert_eq!(u64::from_component_common(9223372036854775806i64), 18446744073709551614u64);
    assert_eq!(u64::from_component_common(i64::MAX), u64::MAX);
}

#[test]
fn i64_to_u128() {
    assert_eq!(u128::from_component_common(i64::MIN), 0u128);
    assert_eq!(u128::from_component_common(-9223372036854775807i64), 18446744073709551617u128);
    assert_eq!(u128::from_component_common(-6564873480255534690i64), 49040642493912448079391551170249787806u128);
    assert_eq!(u128::from_component_common(-1i64), 170141183460469231722463931679029329919u128);
    assert_eq!(u128::from_component_common(0i64), 170141183460469231740910675752738881536u128);
    assert_eq!(u128::from_component_common(1i64), 170141183460469231759357419826448433153u128);
    assert_eq!(u128::from_component_common(9223372036854775806i64), 340282366920938463444927863358058659838u128);
    assert_eq!(u128::from_component_common(i64::MAX), u128::MAX);
}

#[test]
fn i64_to_i8() {
    assert_eq!(i8::from_component_common(i64::MIN), i8::MIN);
    assert_eq!(i8::from_component_common(-9223372036854775807i64), i8::MIN);
    assert_eq!(i8::from_component_common(-1i64), -1i8);
    assert_eq!(i8::from_component_common(0i64), 0i8);
    assert_eq!(i8::from_component_common(1i64), 0i8);
    assert_eq!(i8::from_component_common(521256991981020429i64), 7i8);
    assert_eq!(i8::from_component_common(9223372036854775806i64), i8::MAX);
    assert_eq!(i8::from_component_common(i64::MAX), i8::MAX);
}

#[test]
fn i64_to_i16() {
    assert_eq!(i16::from_component_common(i64::MIN), i16::MIN);
    assert_eq!(i16::from_component_common(-9223372036854775807i64), i16::MIN);
    assert_eq!(i16::from_component_common(-1i64), -1i16);
    assert_eq!(i16::from_component_common(0i64), 0i16);
    assert_eq!(i16::from_component_common(1i64), 0i16);
    assert_eq!(i16::from_component_common(6702163916888618658i64), 23810i16);
    assert_eq!(i16::from_component_common(9223372036854775806i64), i16::MAX);
    assert_eq!(i16::from_component_common(i64::MAX), i16::MAX);
}

#[test]
fn i64_to_i32() {
    assert_eq!(i32::from_component_common(i64::MIN), i32::MIN);
    assert_eq!(i32::from_component_common(-9223372036854775807i64), i32::MIN);
    assert_eq!(i32::from_component_common(-1i64), -1i32);
    assert_eq!(i32::from_component_common(0i64), 0i32);
    assert_eq!(i32::from_component_common(1i64), 0i32);
    assert_eq!(i32::from_component_common(6372383426048816071i64), 1483686134i32);
    assert_eq!(i32::from_component_common(9223372036854775806i64), i32::MAX);
    assert_eq!(i32::from_component_common(i64::MAX), i32::MAX);
}

#[test]
fn i64_to_i128() {
    assert_eq!(i128::from_component_common(i64::MIN), i128::MIN);
    assert_eq!(i128::from_component_common(-9223372036854775807i64), -170141183460469231713240559642174554111i128);
    assert_eq!(i128::from_component_common(-1i64), -9223372036854775809i128);
    assert_eq!(i128::from_component_common(0i64), 9223372036854775808i128);
    assert_eq!(i128::from_component_common(1i64), 27670116110564327425i128);
    assert_eq!(i128::from_component_common(49751302480077856i64), 917749544183707517092514877865468960i128);
    assert_eq!(i128::from_component_common(9223372036854775806i64), 170141183460469231713240559642174554110i128);
    assert_eq!(i128::from_component_common(i64::MAX), i128::MAX);
}

#[test]
fn i128_to_u8() {
    assert_eq!(u8::from_component_common(i128::MIN), 0u8);
    assert_eq!(u8::from_component_common(-170141183460469231731687303715884105727i128), 0u8);
    assert_eq!(u8::from_component_common(-2456211646215029304427088555933984411i128), 126u8);
    assert_eq!(u8::from_component_common(-1i128), 127u8);
    assert_eq!(u8::from_component_common(0i128), 128u8);
    assert_eq!(u8::from_component_common(1i128), 128u8);
    assert_eq!(u8::from_component_common(170141183460469231731687303715884105726i128), u8::MAX);
    assert_eq!(u8::from_component_common(i128::MAX), u8::MAX);
}

#[test]
fn i128_to_u16() {
    assert_eq!(u16::from_component_common(i128::MIN), 0u16);
    assert_eq!(u16::from_component_common(-170141183460469231731687303715884105727i128), 0u16);
    assert_eq!(u16::from_component_common(-95121742627039349591677396447335428022i128), 14448u16);
    assert_eq!(u16::from_component_common(-1i128), 32767u16);
    assert_eq!(u16::from_component_common(0i128), 32768u16);
    assert_eq!(u16::from_component_common(1i128), 32768u16);
    assert_eq!(u16::from_component_common(170141183460469231731687303715884105726i128), u16::MAX);
    assert_eq!(u16::from_component_common(i128::MAX), u16::MAX);
}

#[test]
fn i128_to_u32() {
    assert_eq!(u32::from_component_common(i128::MIN), 0u32);
    assert_eq!(u32::from_component_common(-170141183460469231731687303715884105727i128), 0u32);
    assert_eq!(u32::from_component_common(-55215073895698610323562019658262212228i128), 1450571437u32);
    assert_eq!(u32::from_component_common(-1i128), 2147483647u32);
    assert_eq!(u32::from_component_common(0i128), 2147483648u32);
    assert_eq!(u32::from_component_common(1i128), 2147483648u32);
    assert_eq!(u32::from_component_common(170141183460469231731687303715884105726i128), u32::MAX);
    assert_eq!(u32::from_component_common(i128::MAX), u32::MAX);
}

#[test]
fn i128_to_u64() {
    assert_eq!(u64::from_component_common(i128::MIN), 0u64);
    assert_eq!(u64::from_component_common(-170141183460469231731687303715884105727i128), 0u64);
    assert_eq!(u64::from_component_common(-1i128), 9223372036854775807u64);
    assert_eq!(u64::from_component_common(0i128), 9223372036854775808u64);
    assert_eq!(u64::from_component_common(1i128), 9223372036854775808u64);
    assert_eq!(u64::from_component_common(46224712266105717949775038732886579583i128), 11729218709926234015u64);
    assert_eq!(u64::from_component_common(170141183460469231731687303715884105726i128), u64::MAX);
    assert_eq!(u64::from_component_common(i128::MAX), u64::MAX);
}

#[test]
fn i128_to_u128() {
    assert_eq!(u128::from_component_common(i128::MIN), 0u128);
    assert_eq!(u128::from_component_common(-170141183460469231731687303715884105727i128), 1u128);
    assert_eq!(u128::from_component_common(-98327195177265567109930336094244649740i128), 71813988283203664621756967621639455988u128);
    assert_eq!(u128::from_component_common(-1i128), 170141183460469231731687303715884105727u128);
    assert_eq!(u128::from_component_common(0i128), 170141183460469231731687303715884105728u128);
    assert_eq!(u128::from_component_common(1i128), 170141183460469231731687303715884105729u128);
    assert_eq!(u128::from_component_common(170141183460469231731687303715884105726i128), 340282366920938463463374607431768211454u128);
    assert_eq!(u128::from_component_common(i128::MAX), u128::MAX);
}

#[test]
fn i128_to_i8() {
    assert_eq!(i8::from_component_common(i128::MIN), i8::MIN);
    assert_eq!(i8::from_component_common(-170141183460469231731687303715884105727i128), i8::MIN);
    assert_eq!(i8::from_component_common(-1i128), -1i8);
    assert_eq!(i8::from_component_common(0i128), 0i8);
    assert_eq!(i8::from_component_common(1i128), 0i8);
    assert_eq!(i8::from_component_common(395381988441969654844351430262275850i128), 0i8);
    assert_eq!(i8::from_component_common(170141183460469231731687303715884105726i128), i8::MAX);
    assert_eq!(i8::from_component_common(i128::MAX), i8::MAX);
}

#[test]
fn i128_to_i16() {
    assert_eq!(i16::from_component_common(i128::MIN), i16::MIN);
    assert_eq!(i16::from_component_common(-170141183460469231731687303715884105727i128), i16::MIN);
    assert_eq!(i16::from_component_common(-1i128), -1i16);
    assert_eq!(i16::from_component_common(0i128), 0i16);
    assert_eq!(i16::from_component_common(1i128), 0i16);
    assert_eq!(i16::from_component_common(5703417772057072137068476895554066526i128), 1098i16);
    assert_eq!(i16::from_component_common(170141183460469231731687303715884105726i128), i16::MAX);
    assert_eq!(i16::from_component_common(i128::MAX), i16::MAX);
}

#[test]
fn i128_to_i32() {
    assert_eq!(i32::from_component_common(i128::MIN), i32::MIN);
    assert_eq!(i32::from_component_common(-170141183460469231731687303715884105727i128), i32::MIN);
    assert_eq!(i32::from_component_common(-1i128), -1i32);
    assert_eq!(i32::from_component_common(0i128), 0i32);
    assert_eq!(i32::from_component_common(1i128), 0i32);
    assert_eq!(i32::from_component_common(561106989148533680644791069887655169i128), 7082165i32);
    assert_eq!(i32::from_component_common(170141183460469231731687303715884105726i128), i32::MAX);
    assert_eq!(i32::from_component_common(i128::MAX), i32::MAX);
}

#[test]
fn i128_to_i64() {
    assert_eq!(i64::from_component_common(i128::MIN), i64::MIN);
    assert_eq!(i64::from_component_common(-170141183460469231731687303715884105727i128), i64::MIN);
    assert_eq!(i64::from_component_common(-1i128), -1i64);
    assert_eq!(i64::from_component_common(0i128), 0i64);
    assert_eq!(i64::from_component_common(1i128), 0i64);
    assert_eq!(i64::from_component_common(3588964260341889115074067918569713238i128), 194558142401775385i64);
    assert_eq!(i64::from_component_common(170141183460469231731687303715884105726i128), i64::MAX);
    assert_eq!(i64::from_component_common(i128::MAX), i64::MAX);
}

