//! Integer arithmetic of the instruction set, stated over mathematical
//! integers and computed on machine integers.
use vstd::prelude::*;

verus! {

/// The signed 32-bit number congruent to `x` modulo 2^32.
pub open spec fn wrap32(x: int) -> int {
    let m = x % 0x1_0000_0000;
    if m >= 0x8000_0000 { m - 0x1_0000_0000 } else { m }
}

/// The signed 64-bit number congruent to `x` modulo 2^64.
pub open spec fn wrap64(x: int) -> int {
    let m = x % 0x1_0000_0000_0000_0000;
    if m >= 0x8000_0000_0000_0000 { m - 0x1_0000_0000_0000_0000 } else { m }
}

/// The signed 16-bit number congruent to `x` modulo 2^16.
pub open spec fn wrap16(x: int) -> int {
    let m = x % 0x1_0000;
    if m >= 0x8000 { m - 0x1_0000 } else { m }
}

/// The signed 8-bit number congruent to `x` modulo 2^8.
pub open spec fn wrap8(x: int) -> int {
    let m = x % 0x100;
    if m >= 0x80 { m - 0x100 } else { m }
}

/// The quotient of `a` by `b` rounded towards zero; `b` is not zero.
pub open spec fn quotient(a: int, b: int) -> int {
    if a >= 0 && b > 0 {
        a / b
    } else if a < 0 && b > 0 {
        -((-a) / b)
    } else if a >= 0 && b < 0 {
        -(a / (-b))
    } else {
        (-a) / (-b)
    }
}

/// The remainder that goes with `quotient`: it has the sign of `a`.
pub open spec fn remainder(a: int, b: int) -> int {
    a - b * quotient(a, b)
}

/// Sum of two 32-bit integers, wrapping on overflow.
pub fn int_add(a: i32, b: i32) -> (r: i32)
    ensures
        r as int == wrap32(a + b),
{
    a.wrapping_add(b)
}

/// Difference of two 32-bit integers, wrapping on overflow.
pub fn int_sub(a: i32, b: i32) -> (r: i32)
    ensures
        r as int == wrap32(a - b),
{
    a.wrapping_sub(b)
}

/// Product of two 32-bit integers, wrapping on overflow.
pub fn int_mul(a: i32, b: i32) -> (r: i32)
    ensures
        r as int == wrap32(a * b),
{
    a.wrapping_mul(b)
}

/// Negation of a 32-bit integer, wrapping on overflow.
pub fn int_neg(a: i32) -> (r: i32)
    ensures
        r as int == wrap32(-a),
{
    if a == i32::MIN {
        a
    } else {
        -a
    }
}

/// Quotient of two 32-bit integers rounded towards zero, wrapping on
/// overflow; `None` when the divisor is zero.
pub fn int_div(a: i32, b: i32) -> (r: Option<i32>)
    ensures
        r is None <==> b == 0,
        r is Some ==> r->0 as int == wrap32(quotient(a as int, b as int)),
{
    if b == 0 {
        None
    } else if a == i32::MIN && b == -1 {
        Some(a)
    } else {
        let q = a.checked_div(b);
        assert(q is Some && q->0 as int == quotient(a as int, b as int)) by (nonlinear_arith)
            requires
                b != 0,
                !(a == i32::MIN && b == -1),
                q == a.checked_div(b),
        ;
        q
    }
}

/// Remainder of two 32-bit integers with the sign of the dividend; `None`
/// when the divisor is zero.
pub fn int_rem(a: i32, b: i32) -> (r: Option<i32>)
    ensures
        r is None <==> b == 0,
        r is Some ==> r->0 as int == wrap32(remainder(a as int, b as int)),
{
    if b == 0 {
        None
    } else if a == i32::MIN && b == -1 {
        assert(remainder(a as int, b as int) == 0) by (nonlinear_arith)
            requires
                b == -1,
                a < 0,
        ;
        Some(0)
    } else {
        let m = a.checked_rem(b);
        assert(m is Some && m->0 as int == remainder(a as int, b as int)) by (nonlinear_arith)
            requires
                b != 0,
                !(a == i32::MIN && b == -1),
                m == a.checked_rem(b),
        ;
        m
    }
}

/// `a` shifted left by the low five bits of `s`.
pub fn int_shl(a: i32, s: i32) -> (r: i32)
    ensures
        r == a << (s & 31),
{
    let n: i32 = s & 31;
    assert(0 <= n < 32) by (bit_vector)
        requires
            n == s & 31,
    ;
    a << n
}

/// `a` shifted right by the low five bits of `s`, keeping the sign.
pub fn int_shr(a: i32, s: i32) -> (r: i32)
    ensures
        r == a >> (s & 31),
{
    let n: i32 = s & 31;
    assert(0 <= n < 32) by (bit_vector)
        requires
            n == s & 31,
    ;
    a >> n
}

/// The bit pattern of `a` shifted right by the low five bits of `s`, with
/// zeroes coming in from the left.
pub fn int_ushr(a: i32, s: i32) -> (r: i32)
    ensures
        r == (((a as u32) >> ((s & 31) as u32)) as i32),
{
    let n: u32 = (s & 31) as u32;
    assert(n < 32) by (bit_vector)
        requires
            n == (s & 31) as u32,
    ;
    let u: u32 = a as u32;
    (u >> n) as i32
}

/// Bitwise and of two 32-bit integers.
pub fn int_and(a: i32, b: i32) -> (r: i32)
    ensures
        r == a & b,
{
    a & b
}

/// Bitwise or of two 32-bit integers.
pub fn int_or(a: i32, b: i32) -> (r: i32)
    ensures
        r == a | b,
{
    a | b
}

/// Bitwise exclusive or of two 32-bit integers.
pub fn int_xor(a: i32, b: i32) -> (r: i32)
    ensures
        r == a ^ b,
{
    a ^ b
}

/// Sum of two 64-bit integers, wrapping on overflow.
pub fn long_add(a: i64, b: i64) -> (r: i64)
    ensures
        r as int == wrap64(a + b),
{
    a.wrapping_add(b)
}

/// Difference of two 64-bit integers, wrapping on overflow.
pub fn long_sub(a: i64, b: i64) -> (r: i64)
    ensures
        r as int == wrap64(a - b),
{
    a.wrapping_sub(b)
}

/// Product of two 64-bit integers, wrapping on overflow.
pub fn long_mul(a: i64, b: i64) -> (r: i64)
    ensures
        r as int == wrap64(a * b),
{
    a.wrapping_mul(b)
}

/// Negation of a 64-bit integer, wrapping on overflow.
pub fn long_neg(a: i64) -> (r: i64)
    ensures
        r as int == wrap64(-a),
{
    if a == i64::MIN {
        a
    } else {
        -a
    }
}

/// Quotient of two 64-bit integers rounded towards zero, wrapping on
/// overflow; `None` when the divisor is zero.
pub fn long_div(a: i64, b: i64) -> (r: Option<i64>)
    ensures
        r is None <==> b == 0,
        r is Some ==> r->0 as int == wrap64(quotient(a as int, b as int)),
{
    if b == 0 {
        None
    } else if a == i64::MIN && b == -1 {
        Some(a)
    } else {
        let q = a.checked_div(b);
        assert(q is Some && q->0 as int == quotient(a as int, b as int)) by (nonlinear_arith)
            requires
                b != 0,
                !(a == i64::MIN && b == -1),
                q == a.checked_div(b),
        ;
        q
    }
}

/// Remainder of two 64-bit integers with the sign of the dividend; `None`
/// when the divisor is zero.
pub fn long_rem(a: i64, b: i64) -> (r: Option<i64>)
    ensures
        r is None <==> b == 0,
        r is Some ==> r->0 as int == wrap64(remainder(a as int, b as int)),
{
    if b == 0 {
        None
    } else if a == i64::MIN && b == -1 {
        assert(remainder(a as int, b as int) == 0) by (nonlinear_arith)
            requires
                b == -1,
                a < 0,
        ;
        Some(0)
    } else {
        let m = a.checked_rem(b);
        assert(m is Some && m->0 as int == remainder(a as int, b as int)) by (nonlinear_arith)
            requires
                b != 0,
                !(a == i64::MIN && b == -1),
                m == a.checked_rem(b),
        ;
        m
    }
}

/// `a` shifted left by the low six bits of `s`.
pub fn long_shl(a: i64, s: i32) -> (r: i64)
    ensures
        r == a << (s & 63),
{
    let n: i32 = s & 63;
    assert(0 <= n < 64) by (bit_vector)
        requires
            n == s & 63,
    ;
    a << n
}

/// `a` shifted right by the low six bits of `s`, keeping the sign.
pub fn long_shr(a: i64, s: i32) -> (r: i64)
    ensures
        r == a >> (s & 63),
{
    let n: i32 = s & 63;
    assert(0 <= n < 64) by (bit_vector)
        requires
            n == s & 63,
    ;
    a >> n
}

/// The bit pattern of `a` shifted right by the low six bits of `s`, with
/// zeroes coming in from the left.
pub fn long_ushr(a: i64, s: i32) -> (r: i64)
    ensures
        r == (((a as u64) >> ((s & 63) as u32)) as i64),
{
    let n: u32 = (s & 63) as u32;
    assert(n < 64) by (bit_vector)
        requires
            n == (s & 63) as u32,
    ;
    let u: u64 = a as u64;
    (u >> n) as i64
}

/// Bitwise and of two 64-bit integers.
pub fn long_and(a: i64, b: i64) -> (r: i64)
    ensures
        r == a & b,
{
    a & b
}

/// Bitwise or of two 64-bit integers.
pub fn long_or(a: i64, b: i64) -> (r: i64)
    ensures
        r == a | b,
{
    a | b
}

/// Bitwise exclusive or of two 64-bit integers.
pub fn long_xor(a: i64, b: i64) -> (r: i64)
    ensures
        r == a ^ b,
{
    a ^ b
}

/// The sign of `a - b`: -1, 0 or 1.
pub open spec fn sign_of_difference(a: int, b: int) -> int {
    if a < b { -1 } else if a == b { 0 } else { 1 }
}

/// Three-way comparison of two 64-bit integers.
pub fn long_compare(a: i64, b: i64) -> (r: i32)
    ensures
        r as int == sign_of_difference(a as int, b as int),
{
    if a < b {
        -1
    } else if a == b {
        0
    } else {
        1
    }
}

/// A 32-bit integer widened to 64 bits.
pub fn int_to_long(a: i32) -> (r: i64)
    ensures
        r == a,
{
    a as i64
}

/// The low 32 bits of a 64-bit integer, read as a signed number.
pub fn long_to_int(a: i64) -> (r: i32)
    ensures
        r as int == wrap32(a as int),
{
    let r: i32 = #[verifier::truncate] (a as i32);
    let u: u64 = a as u64;
    let low: u64 = u % 0x1_0000_0000u64;
    assert(u as int == if a < 0 { a + 0x1_0000_0000_0000_0000 } else { a as int }) by (bit_vector)
        requires
            u == a as u64,
    ;
    assert(r as int == if low >= 0x8000_0000u64 { low as int - 0x1_0000_0000 } else { low as int })
        by (bit_vector)
        requires
            low == (a as u64) % 0x1_0000_0000u64,
            r == #[verifier::truncate] (a as i32),
    ;
    r
}

/// The low 8 bits of a 32-bit integer, read as a signed number.
pub fn int_to_byte(a: i32) -> (r: i8)
    ensures
        r as int == wrap8(a as int),
{
    let r: i8 = #[verifier::truncate] (a as i8);
    let u: u32 = a as u32;
    let low: u32 = u % 0x100u32;
    assert(u as int == if a < 0 { a + 0x1_0000_0000 } else { a as int }) by (bit_vector)
        requires
            u == a as u32,
    ;
    assert(r as int == if low >= 0x80u32 { low as int - 0x100 } else { low as int }) by (bit_vector)
        requires
            low == (a as u32) % 0x100u32,
            r == #[verifier::truncate] (a as i8),
    ;
    r
}

/// The low 16 bits of a 32-bit integer, read as a signed number.
pub fn int_to_short(a: i32) -> (r: i16)
    ensures
        r as int == wrap16(a as int),
{
    let r: i16 = #[verifier::truncate] (a as i16);
    let u: u32 = a as u32;
    let low: u32 = u % 0x1_0000u32;
    assert(u as int == if a < 0 { a + 0x1_0000_0000 } else { a as int }) by (bit_vector)
        requires
            u == a as u32,
    ;
    assert(r as int == if low >= 0x8000u32 { low as int - 0x1_0000 } else { low as int })
        by (bit_vector)
        requires
            low == (a as u32) % 0x1_0000u32,
            r == #[verifier::truncate] (a as i16),
    ;
    r
}

/// The low 16 bits of a 32-bit integer, read as an unsigned number.
pub fn int_to_char(a: i32) -> (r: u16)
    ensures
        r as int == a as int % 0x1_0000,
{
    let r: u16 = #[verifier::truncate] (a as u16);
    let u: u32 = a as u32;
    let low: u32 = u % 0x1_0000u32;
    assert(u as int == if a < 0 { a + 0x1_0000_0000 } else { a as int }) by (bit_vector)
        requires
            u == a as u32,
    ;
    assert(r as int == low as int) by (bit_vector)
        requires
            low == (a as u32) % 0x1_0000u32,
            r == #[verifier::truncate] (a as u16),
    ;
    r
}

/// A signed byte widened to 32 bits.
pub fn byte_to_int(a: i8) -> (r: i32)
    ensures
        r == a,
{
    a as i32
}

/// A signed byte widened to 16 bits.
pub fn byte_to_short(a: i8) -> (r: i16)
    ensures
        r == a,
{
    a as i16
}

/// A signed 16-bit integer widened to 32 bits.
pub fn short_to_int(a: i16) -> (r: i32)
    ensures
        r == a,
{
    a as i32
}

/// An unsigned 16-bit integer widened to 32 bits.
pub fn char_to_int(a: u16) -> (r: i32)
    ensures
        r == a,
{
    a as i32
}

/// An unsigned byte widened to 16 bits.
pub fn u8_to_u16(a: u8) -> (r: u16)
    ensures
        r == a,
{
    a as u16
}

/// One for `true`, zero for `false`.
pub open spec fn truth(b: bool) -> int {
    if b {
        1
    } else {
        0
    }
}

/// One for `true`, zero for `false`.
pub fn bool_to_int(b: bool) -> (r: i32)
    ensures
        r == truth(b),
{
    if b {
        1
    } else {
        0
    }
}

/// An unsigned 16-bit integer as a machine index.
pub fn u16_to_usize(a: u16) -> (r: usize)
    ensures
        r == a,
{
    a as usize
}

/// The position `offset` bytes away from `pc`, when it lies within a code
/// buffer of `code_len` bytes or at its end.
pub open spec fn target_of(pc: int, offset: int, code_len: int) -> Option<int> {
    if 0 <= pc + offset <= code_len { Some(pc + offset) } else { None }
}

/// Computes `target_of` on machine integers.
pub fn branch_target(pc: usize, offset: i32, code_len: usize) -> (r: Option<usize>)
    ensures
        r is Some <==> target_of(pc as int, offset as int, code_len as int) is Some,
        r is Some ==> r->0 as int == pc + offset,
{
    let t: i128 = pc as i128 + offset as i128;
    if 0 <= t && t <= code_len as i128 {
        Some(t as usize)
    } else {
        None
    }
}

} // verus!
