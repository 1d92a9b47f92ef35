use vstd::prelude::*;

verus! {

/// The packed `0x00BBGGRR` value of a colour, each channel taken modulo 256.
pub open spec fn rgb_value(r: u32, g: u32, b: u32) -> int {
    (b % 256) * 0x10000 + (g % 256) * 0x100 + (r % 256)
}

/// Converts rgb values into a single unsigned 32-bit integer laid out as
/// `0x00BBGGRR`; only the low byte of each channel is kept.
pub fn rgb(r: u32, g: u32, b: u32) -> (res: u32)
    ensures
        res == rgb_value(r, g, b),
{
    assert((((b & 0x0ff) << 16u32) | ((g & 0x0ff) << 8u32) | (r & 0x0ff)) == (b % 256) * 0x10000
        + (g % 256) * 0x100 + (r % 256)) by (bit_vector);
    ((b & 0x0ff) << 16u32) | ((g & 0x0ff) << 8u32) | (r & 0x0ff)
}

/// Like `rgb`, with the low byte of `a` placed in the top byte.
pub fn rgba(r: u32, g: u32, b: u32, a: u32) -> (res: u32)
    ensures
        res == (a % 256) * 0x1000000 + rgb_value(r, g, b),
{
    let c = rgb(r, g, b);
    assert(c < 0x1000000 ==> ((a << 24u32) | c) == (a % 256) * 0x1000000 + c) by (bit_vector);
    (a << 24u32) | c
}

/// The UTF-16 code units of one character.
pub open spec fn utf16_units(c: char) -> Seq<u16> {
    let v = c as u32;
    if v < 0x10000 {
        seq![v as u16]
    } else {
        let w = v - 0x10000;
        seq![(0xD800 + w / 0x400) as u16, (0xDC00 + w % 0x400) as u16]
    }
}

/// The UTF-16 encoding of a character sequence.
pub open spec fn utf16_of(s: Seq<char>) -> Seq<u16>
    decreases s.len(),
{
    if s.len() == 0 {
        Seq::empty()
    } else {
        utf16_units(s[0]) + utf16_of(s.drop_first())
    }
}

/// Relies on str::encode_utf16: it yields the UTF-16 code units of the
/// string's characters, in order.
#[verifier::external_body]
fn encode_utf16(s: &str) -> (r: Vec<u16>)
    ensures
        r@ == utf16_of(s@),
{
    s.encode_utf16().collect()
}

/// The UTF-16 encoding of `s` followed by a terminating zero unit.
pub fn str_to_utf16(s: &str) -> (r: Vec<u16>)
    ensures
        r@ == utf16_of(s@).push(0u16),
{
    let mut v = encode_utf16(s);
    v.push(0u16);
    v
}

/// The value of a 16-bit word read as a two's-complement signed number.
pub open spec fn signed16(w: int) -> int {
    if w < 0x8000 {
        w
    } else {
        w - 0x10000
    }
}

/// The lower 16 bits of a 32-bit value.
#[allow(non_snake_case)]
pub fn LOWORD(dword: u32) -> (r: u16)
    ensures
        r == dword % 0x10000,
{
    assert(dword as u16 == dword % 0x10000) by (bit_vector);
    dword as u16
}

/// The upper 16 bits of a 32-bit value.
#[allow(non_snake_case)]
pub fn HIWORD(dword: u32) -> (r: u16)
    ensures
        r == dword / 0x10000,
{
    assert((dword >> 16u32) as u16 == dword / 0x10000) by (bit_vector);
    (dword >> 16u32) as u16
}

/// The signed x coordinate packed in the low word of a message parameter.
#[allow(non_snake_case)]
pub fn GET_X_LPARAM(dword: u32) -> (r: i32)
    ensures
        r == signed16((dword % 0x10000) as int),
{
    let w = LOWORD(dword);
    assert(w as i16 as i32 == signed16(w as int)) by (bit_vector);
    w as i16 as i32
}

/// The signed y coordinate packed in the high word of a message parameter.
#[allow(non_snake_case)]
pub fn GET_Y_LPARAM(dword: u32) -> (r: i32)
    ensures
        r == signed16((dword / 0x10000) as int),
{
    let w = HIWORD(dword);
    assert(w as i16 as i32 == signed16(w as int)) by (bit_vector);
    w as i16 as i32
}

} // verus!
