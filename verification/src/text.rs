//! Text: comparing, joining and converting strings.
use vstd::prelude::*;
use vstd::utf8::{decode_utf8, encode_utf8, encode_utf8_decode_utf8, valid_utf8};

verus! {

/// True when `a` and `b` hold the same characters.
pub fn same_text(a: &str, b: &str) -> (r: bool)
    ensures
        r == (a@ == b@),
{
    let x = a.as_bytes();
    let y = b.as_bytes();
    proof {
        encode_utf8_decode_utf8(a@);
        encode_utf8_decode_utf8(b@);
    }
    if x.len() != y.len() {
        return false;
    }
    let mut i: usize = 0;
    while i < x.len()
        invariant
            i <= x@.len(),
            x@.len() == y@.len(),
            x@ == encode_utf8(a@),
            y@ == encode_utf8(b@),
            forall|k: int| 0 <= k < i ==> x@[k] == y@[k],
        decreases x@.len() - i,
    {
        if x[i] != y[i] {
            return false;
        }
        i = i + 1;
    }
    assert(x@ =~= y@);
    true
}

/// `String::from_utf8`: the string whose UTF-8 encoding is `bytes`, or
/// `None` when `bytes` is not valid UTF-8.
#[verifier::external_body]
pub(crate) fn string_from_utf8(bytes: Vec<u8>) -> (r: Option<String>)
    ensures
        r is Some <==> valid_utf8(bytes@),
        r is Some ==> encode_utf8(r->0@) == bytes@,
{
    String::from_utf8(bytes).ok()
}

/// `a`, then `b`.
pub fn join(a: &str, b: &str) -> (r: String)
    ensures
        r@ == a@ + b@,
{
    let mut r = a.to_owned();
    r.append(b);
    r
}

/// The key under which a class keeps a member: its name, a colon and its
/// descriptor.
pub open spec fn member_key(name: Seq<char>, descriptor: Seq<char>) -> Seq<char> {
    name + seq![':'] + descriptor
}

/// Builds the key of a member.
pub fn make_member_key(name: &str, descriptor: &str) -> (r: String)
    ensures
        r@ == member_key(name@, descriptor@),
{
    proof {
        reveal_strlit(":");
        assert(":"@ =~= seq![':']);
    }
    let mut r = name.to_owned();
    r.append(":");
    r.append(descriptor);
    r
}

/// `s` with each dot replaced by a slash.
pub open spec fn slashed(s: Seq<char>) -> Seq<char> {
    s.map_values(|c: char| if c == '.' { '/' } else { c })
}

/// `str::replace` of the character `.` by the string `/`: every dot becomes
/// a slash, and every other character stays.
#[verifier::external_body]
pub(crate) fn replace_dots(name: &str) -> (r: String)
    ensures
        r@ == slashed(name@),
{
    name.replace('.', "/")
}

/// The UTF-16 code units of one character: the character itself below
/// U+10000, and else a high and a low surrogate.
pub open spec fn utf16_of_char(c: char) -> Seq<u16> {
    if (c as u32) < 0x1_0000 {
        seq![c as u32 as u16]
    } else {
        seq![
            (0xD800 + ((c as u32 - 0x1_0000) / 0x400)) as u16,
            (0xDC00 + ((c as u32 - 0x1_0000) % 0x400)) as u16,
        ]
    }
}

/// The UTF-16 code units of a text.
pub open spec fn utf16_of(s: Seq<char>) -> Seq<u16>
    decreases s.len(),
{
    if s.len() == 0 {
        Seq::empty()
    } else {
        utf16_of(s.drop_last()) + utf16_of_char(s.last())
    }
}

/// `str::encode_utf16`, collected: the UTF-16 code units of the text.
#[verifier::external_body]
pub(crate) fn encode_utf16(s: &str) -> (r: Vec<u16>)
    ensures
        r@ == utf16_of(s@),
{
    s.encode_utf16().collect()
}

} // verus!

