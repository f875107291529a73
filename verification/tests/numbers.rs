use rjvm::arith::{
    branch_target, int_add, int_div, int_mul, int_neg, int_rem, int_shl, int_shr, int_sub,
    int_to_byte, int_to_char, int_to_short, int_ushr, long_add, long_compare, long_div, long_mul,
    long_neg, long_rem, long_shl, long_shr, long_sub, long_to_int, long_ushr,
};
use rjvm::bytes::{get_i16, get_i32, get_i64, get_i8, get_u16, get_u32, get_u64, get_u8};
use rjvm::text::{join, make_member_key, same_text};

#[test]
fn big_endian_reads_put_the_high_byte_first() {
    let buf = [0x01u8, 0x02, 0x03, 0x04, 0x05, 0x06, 0x07, 0x08, 0x09];
    assert_eq!(get_u8(&buf, 0), Some(1));
    assert_eq!(get_u16(&buf, 0), Some(0x0102));
    assert_eq!(get_u16(&buf, 1), Some(0x0203));
    assert_eq!(get_u32(&buf, 0), Some(0x0102_0304));
    assert_eq!(get_u32(&buf, 5), Some(0x0607_0809));
    assert_eq!(get_u64(&buf, 0), Some(0x0102_0304_0506_0708));
    assert_eq!(get_u64(&buf, 1), Some(0x0203_0405_0607_0809));
    assert_eq!(get_i16(&buf, 0), Some(0x0102));
    assert_eq!(get_i32(&buf, 0), Some(0x0102_0304));
    assert_eq!(get_i64(&buf, 0), Some(0x0102_0304_0506_0708));
}

#[test]
fn signed_reads_are_twos_complement() {
    let buf = [0xFFu8, 0xFE, 0xFF, 0xFF, 0xFF, 0xFF, 0xFF, 0xFD];
    assert_eq!(get_i8(&buf, 0), Some(-1));
    assert_eq!(get_i8(&buf, 1), Some(-2));
    assert_eq!(get_i16(&buf, 0), Some(-2));
    assert_eq!(get_u16(&buf, 0), Some(0xFFFE));
    assert_eq!(get_i32(&buf, 4), Some(-3));
    assert_eq!(get_i64(&buf, 0), Some(-0x0001_0000_0000_0003));
    assert_eq!(get_i32(&[0x80, 0, 0, 0], 0), Some(i32::MIN));
    assert_eq!(get_i16(&[0x7F, 0xFF], 0), Some(i16::MAX));
}

#[test]
fn reads_past_the_end_return_nothing() {
    let buf = [1u8, 2, 3];
    assert_eq!(get_u8(&buf, 3), None);
    assert_eq!(get_i8(&buf, 3), None);
    assert_eq!(get_u16(&buf, 2), None);
    assert_eq!(get_i16(&buf, 2), None);
    assert_eq!(get_u32(&buf, 0), None);
    assert_eq!(get_i32(&buf, 0), None);
    assert_eq!(get_u64(&buf, 0), None);
    assert_eq!(get_i64(&buf, 0), None);
    assert_eq!(get_u16(&buf, usize::MAX), None);
    assert_eq!(get_u16(&[], 0), None);
    assert_eq!(get_u16(&buf, 1), Some(0x0203));
}

#[test]
fn integer_arithmetic_wraps_around() {
    assert_eq!(int_add(i32::MAX, 1), i32::MIN);
    assert_eq!(int_add(2, 3), 5);
    assert_eq!(int_sub(i32::MIN, 1), i32::MAX);
    assert_eq!(int_mul(0x10000, 0x10000), 0);
    assert_eq!(int_mul(-7, 6), -42);
    assert_eq!(int_neg(i32::MIN), i32::MIN);
    assert_eq!(int_neg(5), -5);
    assert_eq!(long_add(i64::MAX, 1), i64::MIN);
    assert_eq!(long_sub(i64::MIN, 1), i64::MAX);
    assert_eq!(long_mul(1 << 62, 4), 0);
    assert_eq!(long_neg(i64::MIN), i64::MIN);
}

#[test]
fn division_rounds_towards_zero_and_refuses_zero() {
    assert_eq!(int_div(7, 2), Some(3));
    assert_eq!(int_div(-7, 2), Some(-3));
    assert_eq!(int_div(7, -2), Some(-3));
    assert_eq!(int_div(-7, -2), Some(3));
    assert_eq!(int_div(i32::MIN, -1), Some(i32::MIN));
    assert_eq!(int_div(1, 0), None);
    assert_eq!(int_rem(7, 2), Some(1));
    assert_eq!(int_rem(-7, 2), Some(-1));
    assert_eq!(int_rem(7, -2), Some(1));
    assert_eq!(int_rem(i32::MIN, -1), Some(0));
    assert_eq!(int_rem(1, 0), None);
    assert_eq!(long_div(-7, 2), Some(-3));
    assert_eq!(long_div(i64::MIN, -1), Some(i64::MIN));
    assert_eq!(long_div(1, 0), None);
    assert_eq!(long_rem(-7, 2), Some(-1));
    assert_eq!(long_rem(i64::MIN, -1), Some(0));
    assert_eq!(long_rem(1, 0), None);
}

#[test]
fn shift_counts_are_masked() {
    assert_eq!(int_shl(1, 31), i32::MIN);
    assert_eq!(int_shl(1, 32), 1);
    assert_eq!(int_shl(1, -1), i32::MIN);
    assert_eq!(int_shr(-8, 1), -4);
    assert_eq!(int_shr(-8, 33), -4);
    assert_eq!(int_ushr(-8, 1), 0x7FFF_FFFC);
    assert_eq!(int_ushr(-1, 31), 1);
    assert_eq!(int_ushr(-1, 32), -1);
    assert_eq!(long_shl(1, 63), i64::MIN);
    assert_eq!(long_shl(1, 64), 1);
    assert_eq!(long_shr(-8, 65), -4);
    assert_eq!(long_ushr(-1, 63), 1);
    assert_eq!(long_ushr(-1, 64), -1);
}

#[test]
fn narrowing_keeps_the_low_bits() {
    assert_eq!(long_to_int(0x1_0000_0001), 1);
    assert_eq!(long_to_int(0xFFFF_FFFF), -1);
    assert_eq!(long_to_int(-1), -1);
    assert_eq!(int_to_byte(0x80), -128);
    assert_eq!(int_to_byte(0x17F), 127);
    assert_eq!(int_to_short(0x8000), -32768);
    assert_eq!(int_to_short(-1), -1);
    assert_eq!(int_to_char(-1), 0xFFFF);
    assert_eq!(int_to_char(0x1_0041), 0x41);
}

#[test]
fn long_comparison_is_three_way() {
    assert_eq!(long_compare(i64::MIN, i64::MAX), -1);
    assert_eq!(long_compare(5, 5), 0);
    assert_eq!(long_compare(6, 5), 1);
}

#[test]
fn branch_targets_stay_within_the_code() {
    assert_eq!(branch_target(4, -4, 10), Some(0));
    assert_eq!(branch_target(4, 6, 10), Some(10));
    assert_eq!(branch_target(4, 7, 10), None);
    assert_eq!(branch_target(4, -5, 10), None);
    assert_eq!(branch_target(0, i32::MIN, 10), None);
    assert_eq!(branch_target(usize::MAX, 1, usize::MAX), None);
}

#[test]
fn texts_are_compared_and_joined() {
    assert!(same_text("Code", "Code"));
    assert!(!same_text("Code", "code"));
    assert!(!same_text("Code", "Codes"));
    assert!(same_text("", ""));
    assert!(same_text("h\u{e9}llo", "h\u{e9}llo"));
    assert_eq!(join("ab", "cd"), "abcd");
    assert_eq!(make_member_key("main", "()V"), "main:()V");
}
