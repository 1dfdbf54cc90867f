use measure::Measure;

#[test]
fn distance_u8_concrete() {
    assert_eq!(5u8.distance(&10u8), 5u16);
    assert_eq!(10u8.distance(&5u8), 5u16);
}

#[test]
fn distance_mixed_sign_concrete() {
    assert_eq!((-5i8).distance(&10u8), 15u16);
    assert_eq!(10u8.distance(&-5i8), 15u16);
}

#[test]
fn distance_char_concrete() {
    assert_eq!('A'.distance(&'B'), 1u64);
    assert_eq!('A'.distance(&'Z'), 25u64);
}

#[test]
fn char_gap_formula_is_literal() {
    // The span from U+D7FF to U+E000 crosses the surrogate gap, so the
    // distance comes from the gap formula, not from the plain difference.
    let d = '\u{D7FF}'.distance(&'\u{E000}');
    assert_eq!(d, (0xE000 - 0xD000 + 1) + (0xD7FF - 0xD7FF));
    assert_eq!(d, 0x1001);
}

#[test]
fn char_gap_formula_other_pairs() {
    let d = 'a'.distance(&'\u{E000}');
    assert_eq!(d, (0xE000 - 0xD000 + 1) + (0xD7FF - 0x61));
    let d = '\u{0}'.distance(&'\u{10FFFF}');
    assert_eq!(d, (0x10FFFF - 0xD000 + 1) + 0xD7FF);
}

#[test]
fn char_distance_away_from_gap() {
    // Pairs on one side of the gap use the plain numeric difference.
    assert_eq!('\u{D7FE}'.distance(&'\u{D7FF}'), 1u64);
    assert_eq!('\u{E000}'.distance(&'\u{E010}'), 0x10u64);
}

#[test]
fn symmetry_concrete() {
    assert_eq!(3u16.distance(&60000u16), 60000u16.distance(&3u16));
    assert_eq!((-7i32).distance(&7i32), 7i32.distance(&-7i32));
    assert_eq!(250u8.distance(&-100i16), (-100i16).distance(&250u8));
    assert_eq!('z'.distance(&'\u{E001}'), '\u{E001}'.distance(&'z'));
}

#[test]
fn identity_is_zero() {
    assert_eq!(42u8.distance(&42u8), u16::default());
    assert_eq!((-42i64).distance(&-42i64), u64::default());
    assert_eq!('q'.distance(&'q'), u64::default());
    assert_eq!(7usize.distance(&7usize), u128::default());
}

#[test]
fn extremes_do_not_wrap() {
    assert_eq!(0u8.distance(&255u8), 255u16);
    assert_eq!((-128i8).distance(&127i8), 255u8);
    assert_eq!(0u64.distance(&u64::MAX), u64::MAX as u128);
    assert_eq!(i64::MIN.distance(&i64::MAX), u64::MAX);
    assert_eq!(
        u64::MAX.distance(&i64::MIN),
        u64::MAX as u128 + 9223372036854775808u128
    );
    assert_eq!(u32::MAX.distance(&i32::MIN), u32::MAX as u64 + 2147483648u64);
}

#[test]
fn cross_type_agreement() {
    // 200 - (-100) = 300, whichever side carries the signed operand.
    assert_eq!(200u8.distance(&-100i16), 300u16);
    assert_eq!((-100i16).distance(&200u8), 300u16);
    assert_eq!(1000u16.distance(&-24i8), 1024u32);
    assert_eq!((-24i8).distance(&1000u16), 1024u32);
}

#[test]
fn cross_width_same_sign() {
    assert_eq!(200u8.distance(&70000u32), 69800u64);
    assert_eq!(70000u32.distance(&200u8), 69800u64);
    assert_eq!(255u8.distance(&u64::MAX), (u64::MAX - 255) as u128);
    assert_eq!((-100i8).distance(&100000i32), 100100u32);
    assert_eq!(i64::MAX.distance(&-1i16), 9223372036854775808u64);
}

#[test]
fn native_width_distance() {
    assert_eq!(3usize.distance(&10usize), 7u128);
    assert_eq!(5usize.distance(&-3i32), 8u128);
    assert_eq!((-3i32).distance(&5usize), 8u128);
    assert_eq!(usize::MAX.distance(&0usize), usize::MAX as u128);
}

#[test]
fn len_is_the_domain_unit() {
    assert_eq!(<u8 as Measure>::len(&0u8), 1u16);
    assert_eq!(<i64 as Measure>::len(&i64::MIN), 1u64);
    assert_eq!(<char as Measure>::len(&'A'), 1u64);
    assert_eq!(<usize as Measure>::len(&7usize), 1u128);
}

#[test]
fn len_is_constant_across_values() {
    assert_eq!(<u8 as Measure>::len(&0u8), <u8 as Measure>::len(&255u8));
    assert_eq!(
        <char as Measure>::len(&'\u{0}'),
        <char as Measure>::len(&'\u{10FFFF}')
    );
    assert_eq!(
        <i8 as Measure<u8>>::len(&-128i8),
        <i8 as Measure<u8>>::len(&127i8)
    );
}

#[test]
fn widths_of_length_types() {
    // One pair of each family, pinning the designated length type.
    let _: u16 = 1u8.distance(&2u8);
    let _: u32 = 1u16.distance(&2u16);
    let _: u64 = 1u32.distance(&2u32);
    let _: u128 = 1u64.distance(&2u64);
    let _: u8 = 1i8.distance(&2i8);
    let _: u16 = 1i16.distance(&2i16);
    let _: u32 = 1i32.distance(&2i32);
    let _: u64 = 1i64.distance(&2i64);
    let _: u128 = 1usize.distance(&2usize);
    let _: u64 = 'a'.distance(&'b');
}
