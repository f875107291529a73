//! Big-endian integers in byte buffers.
//!
//! The spec functions say what the bytes at a position mean as a number and
//! how a number is laid out as bytes; the executable readers are thin,
//! bounds-checked entries into the `byteorder` crate.
use byteorder::{BigEndian, ByteOrder};
use vstd::prelude::*;

verus! {

/// The unsigned number held by the two bytes of `s` at `i`, high byte first.
pub open spec fn be_u16(s: Seq<u8>, i: int) -> int {
    s[i] as int * 0x100 + s[i + 1] as int
}

/// The unsigned number held by the four bytes of `s` at `i`, high byte first.
pub open spec fn be_u32(s: Seq<u8>, i: int) -> int {
    be_u16(s, i) * 0x1_0000 + be_u16(s, i + 2)
}

/// The unsigned number held by the eight bytes of `s` at `i`, high byte first.
pub open spec fn be_u64(s: Seq<u8>, i: int) -> int {
    be_u32(s, i) * 0x1_0000_0000 + be_u32(s, i + 4)
}

/// Two's-complement reading of an 8-bit pattern.
pub open spec fn signed8(u: int) -> int {
    if u >= 0x80 { u - 0x100 } else { u }
}

/// Two's-complement reading of a 16-bit pattern.
pub open spec fn signed16(u: int) -> int {
    if u >= 0x8000 { u - 0x1_0000 } else { u }
}

/// Two's-complement reading of a 32-bit pattern.
pub open spec fn signed32(u: int) -> int {
    if u >= 0x8000_0000 { u - 0x1_0000_0000 } else { u }
}

/// Two's-complement reading of a 64-bit pattern.
pub open spec fn signed64(u: int) -> int {
    if u >= 0x8000_0000_0000_0000 { u - 0x1_0000_0000_0000_0000 } else { u }
}

/// The 8-bit pattern of a signed byte.
pub open spec fn pattern8(v: int) -> int {
    if v < 0 { v + 0x100 } else { v }
}

/// The 16-bit pattern of a signed 16-bit number.
pub open spec fn pattern16(v: int) -> int {
    if v < 0 { v + 0x1_0000 } else { v }
}

/// The 32-bit pattern of a signed 32-bit number.
pub open spec fn pattern32(v: int) -> int {
    if v < 0 { v + 0x1_0000_0000 } else { v }
}

/// The 64-bit pattern of a signed 64-bit number.
pub open spec fn pattern64(v: int) -> int {
    if v < 0 { v + 0x1_0000_0000_0000_0000 } else { v }
}

/// The two bytes of a 16-bit pattern, high byte first.
pub open spec fn u16_bytes(v: int) -> Seq<u8> {
    seq![(v / 0x100) as u8, (v % 0x100) as u8]
}

/// The four bytes of a 32-bit pattern, high byte first.
pub open spec fn u32_bytes(v: int) -> Seq<u8> {
    u16_bytes(v / 0x1_0000) + u16_bytes(v % 0x1_0000)
}

/// The eight bytes of a 64-bit pattern, high byte first.
#[verifier::opaque]
pub open spec fn u64_bytes(v: int) -> Seq<u8> {
    u32_bytes(v / 0x1_0000_0000) + u32_bytes(v % 0x1_0000_0000)
}

/// The byte of a signed 8-bit number.
pub open spec fn i8_bytes(v: i8) -> Seq<u8> {
    seq![pattern8(v as int) as u8]
}

/// The two bytes of a signed 16-bit number, high byte first.
pub open spec fn i16_bytes(v: i16) -> Seq<u8> {
    u16_bytes(pattern16(v as int))
}

/// The four bytes of a signed 32-bit number, high byte first.
pub open spec fn i32_bytes(v: i32) -> Seq<u8> {
    u32_bytes(pattern32(v as int))
}

/// The eight bytes of a signed 64-bit number, high byte first.
pub open spec fn i64_bytes(v: i64) -> Seq<u8> {
    u64_bytes(pattern64(v as int))
}

/// The two bytes at `i` are the layout of the number they hold.
pub proof fn lemma_u16_bytes(s: Seq<u8>, i: int)
    requires
        0 <= i,
        i + 2 <= s.len(),
    ensures
        s.subrange(i, i + 2) == u16_bytes(be_u16(s, i)),
        0 <= be_u16(s, i) < 0x1_0000,
{
    let v = be_u16(s, i);
    assert(v / 0x100 == s[i] as int && v % 0x100 == s[i + 1] as int);
    assert(s.subrange(i, i + 2) =~= u16_bytes(v));
}

/// The four bytes at `i` are the layout of the number they hold.
pub proof fn lemma_u32_bytes(s: Seq<u8>, i: int)
    requires
        0 <= i,
        i + 4 <= s.len(),
    ensures
        s.subrange(i, i + 4) == u32_bytes(be_u32(s, i)),
        0 <= be_u32(s, i) < 0x1_0000_0000,
{
    lemma_u16_bytes(s, i);
    lemma_u16_bytes(s, i + 2);
    let v = be_u32(s, i);
    assert(v / 0x1_0000 == be_u16(s, i) && v % 0x1_0000 == be_u16(s, i + 2));
    assert(s.subrange(i, i + 4) =~= s.subrange(i, i + 2) + s.subrange(i + 2, i + 4));
}

/// The eight bytes at `i` are the layout of the number they hold.
pub proof fn lemma_u64_bytes(s: Seq<u8>, i: int)
    requires
        0 <= i,
        i + 8 <= s.len(),
    ensures
        s.subrange(i, i + 8) == u64_bytes(be_u64(s, i)),
        0 <= be_u64(s, i) < 0x1_0000_0000_0000_0000,
{
    reveal(u64_bytes);
    lemma_u32_bytes(s, i);
    lemma_u32_bytes(s, i + 4);
    let v = be_u64(s, i);
    assert(v / 0x1_0000_0000 == be_u32(s, i) && v % 0x1_0000_0000 == be_u32(s, i + 4));
    assert(s.subrange(i, i + 8) =~= s.subrange(i, i + 4) + s.subrange(i + 4, i + 8));
}

/// `byteorder::BigEndian::read_u16` on the bytes from `at` on: the first two
/// bytes as one number, high byte first.  The crate panics on fewer than two
/// bytes, which the precondition rules out.
#[verifier::external_body]
fn be_read_u16(buf: &[u8], at: usize) -> (r: u16)
    requires
        at + 2 <= buf@.len(),
    ensures
        r as int == be_u16(buf@, at as int),
{
    BigEndian::read_u16(&buf[at..])
}

/// `byteorder::BigEndian::read_u32` on the bytes from `at` on: the first four
/// bytes as one number, high byte first.  The crate panics on fewer than four
/// bytes, which the precondition rules out.
#[verifier::external_body]
fn be_read_u32(buf: &[u8], at: usize) -> (r: u32)
    requires
        at + 4 <= buf@.len(),
    ensures
        r as int == be_u32(buf@, at as int),
{
    BigEndian::read_u32(&buf[at..])
}

/// `byteorder::BigEndian::read_u64` on the bytes from `at` on: the first
/// eight bytes as one number, high byte first.  The crate panics on fewer
/// than eight bytes, which the precondition rules out.
#[verifier::external_body]
fn be_read_u64(buf: &[u8], at: usize) -> (r: u64)
    requires
        at + 8 <= buf@.len(),
    ensures
        r as int == be_u64(buf@, at as int),
{
    BigEndian::read_u64(&buf[at..])
}

/// `byteorder::ByteOrder::read_i16` for `BigEndian`: the 16-bit number of
/// `read_u16`, read as two's complement.
#[verifier::external_body]
fn be_read_i16(buf: &[u8], at: usize) -> (r: i16)
    requires
        at + 2 <= buf@.len(),
    ensures
        r as int == signed16(be_u16(buf@, at as int)),
{
    BigEndian::read_i16(&buf[at..])
}

/// `byteorder::ByteOrder::read_i32` for `BigEndian`: the 32-bit number of
/// `read_u32`, read as two's complement.
#[verifier::external_body]
fn be_read_i32(buf: &[u8], at: usize) -> (r: i32)
    requires
        at + 4 <= buf@.len(),
    ensures
        r as int == signed32(be_u32(buf@, at as int)),
{
    BigEndian::read_i32(&buf[at..])
}

/// `byteorder::ByteOrder::read_i64` for `BigEndian`: the 64-bit number of
/// `read_u64`, read as two's complement.
#[verifier::external_body]
fn be_read_i64(buf: &[u8], at: usize) -> (r: i64)
    requires
        at + 8 <= buf@.len(),
    ensures
        r as int == signed64(be_u64(buf@, at as int)),
{
    BigEndian::read_i64(&buf[at..])
}

/// True when `n` bytes are available in a buffer of length `len` from `at`.
pub open spec fn has_bytes(len: nat, at: int, n: int) -> bool {
    0 <= at && at + n <= len
}

/// The byte at `at`, if there is one.
pub fn get_u8(buf: &[u8], at: usize) -> (r: Option<u8>)
    ensures
        r is Some <==> has_bytes(buf@.len(), at as int, 1),
        r is Some ==> r->0 == buf@[at as int],
{
    if at < buf.len() {
        Some(buf[at])
    } else {
        None
    }
}

/// The byte at `at` read as a signed number, if there is one.
pub fn get_i8(buf: &[u8], at: usize) -> (r: Option<i8>)
    ensures
        r is Some <==> has_bytes(buf@.len(), at as int, 1),
        r is Some ==> r->0 as int == signed8(buf@[at as int] as int),
{
    if at < buf.len() {
        let b: u8 = buf[at];
        let v: i8 = #[verifier::truncate] (b as i8);
        assert(v as int == signed8(b as int)) by (bit_vector)
            requires
                v == #[verifier::truncate] (b as i8),
        ;
        Some(v)
    } else {
        None
    }
}

/// The big-endian unsigned 16-bit number at `at`, if two bytes are there.
pub fn get_u16(buf: &[u8], at: usize) -> (r: Option<u16>)
    ensures
        r is Some <==> has_bytes(buf@.len(), at as int, 2),
        r is Some ==> r->0 as int == be_u16(buf@, at as int),
{
    if buf.len() >= 2 && at <= buf.len() - 2 {
        Some(be_read_u16(buf, at))
    } else {
        None
    }
}

/// The big-endian signed 16-bit number at `at`, if two bytes are there.
pub fn get_i16(buf: &[u8], at: usize) -> (r: Option<i16>)
    ensures
        r is Some <==> has_bytes(buf@.len(), at as int, 2),
        r is Some ==> r->0 as int == signed16(be_u16(buf@, at as int)),
{
    if buf.len() >= 2 && at <= buf.len() - 2 {
        Some(be_read_i16(buf, at))
    } else {
        None
    }
}

/// The big-endian unsigned 32-bit number at `at`, if four bytes are there.
pub fn get_u32(buf: &[u8], at: usize) -> (r: Option<u32>)
    ensures
        r is Some <==> has_bytes(buf@.len(), at as int, 4),
        r is Some ==> r->0 as int == be_u32(buf@, at as int),
{
    if buf.len() >= 4 && at <= buf.len() - 4 {
        Some(be_read_u32(buf, at))
    } else {
        None
    }
}

/// The big-endian signed 32-bit number at `at`, if four bytes are there.
pub fn get_i32(buf: &[u8], at: usize) -> (r: Option<i32>)
    ensures
        r is Some <==> has_bytes(buf@.len(), at as int, 4),
        r is Some ==> r->0 as int == signed32(be_u32(buf@, at as int)),
{
    if buf.len() >= 4 && at <= buf.len() - 4 {
        Some(be_read_i32(buf, at))
    } else {
        None
    }
}

/// The big-endian unsigned 64-bit number at `at`, if eight bytes are there.
pub fn get_u64(buf: &[u8], at: usize) -> (r: Option<u64>)
    ensures
        r is Some <==> has_bytes(buf@.len(), at as int, 8),
        r is Some ==> r->0 as int == be_u64(buf@, at as int),
{
    if buf.len() >= 8 && at <= buf.len() - 8 {
        Some(be_read_u64(buf, at))
    } else {
        None
    }
}

/// The big-endian signed 64-bit number at `at`, if eight bytes are there.
pub fn get_i64(buf: &[u8], at: usize) -> (r: Option<i64>)
    ensures
        r is Some <==> has_bytes(buf@.len(), at as int, 8),
        r is Some ==> r->0 as int == signed64(be_u64(buf@, at as int)),
{
    if buf.len() >= 8 && at <= buf.len() - 8 {
        Some(be_read_i64(buf, at))
    } else {
        None
    }
}

} // verus!
