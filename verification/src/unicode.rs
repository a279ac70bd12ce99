//! Scalar values to and from the units in which a backend delivers them:
//! UTF-8 bytes and UTF-16 code units.
//!
//! The UTF-8 side is stated over vstd's definitions of the encoding. The
//! UTF-16 side has its own, in plain arithmetic.
use vstd::prelude::*;
use vstd::utf8::{
    char_is_scalar, decode_first_scalar, encode_scalar, is_scalar, length_of_first_scalar,
    valid_first_scalar,
};

verus! {

/// `char::from_u32` of std: it gives a `char` exactly for the Unicode scalar
/// values, that is for the numbers up to 0x10FFFF outside the surrogate range,
/// and the `char` it gives has the number it was made from.
pub assume_specification[ char::from_u32 ](i: u32) -> (c: Option<char>)
    ensures
        c is Some <==> is_scalar(i),
        c is Some ==> c.unwrap() as u32 == i,
;

/// The bytes are the complete UTF-8 encoding of one scalar value: well formed,
/// not overlong, no surrogate, and nothing after it.
pub open spec fn is_one_scalar(bytes: Seq<u8>) -> bool {
    valid_first_scalar(bytes) && length_of_first_scalar(bytes) == bytes.len()
}

/// True for the code units that UTF-16 reserves for the first half of a pair.
pub open spec fn is_leading_surrogate(unit: u16) -> bool {
    0xD800 <= unit <= 0xDBFF
}

/// True for the code units that UTF-16 reserves for the second half of a pair.
pub open spec fn is_trailing_surrogate(unit: u16) -> bool {
    0xDC00 <= unit <= 0xDFFF
}

/// True for the code units that stand for no scalar value on their own.
pub open spec fn is_surrogate(unit: u16) -> bool {
    0xD800 <= unit <= 0xDFFF
}

/// The scalar value that a surrogate pair stands for.
pub open spec fn pair_scalar(leading: u16, trailing: u16) -> int {
    0x10000 + (leading - 0xD800) * 0x400 + (trailing - 0xDC00)
}

/// The UTF-16 encoding of a scalar value: the value itself below 0x10000, a
/// surrogate pair above.
pub open spec fn utf16_units(scalar: u32) -> Seq<u16> {
    if scalar < 0x10000 {
        seq![scalar as u16]
    } else {
        seq![
            (0xD800 + (scalar - 0x10000) / 0x400) as u16,
            (0xDC00 + (scalar - 0x10000) % 0x400) as u16,
        ]
    }
}

proof fn lemma_width_1(b0: u8)
    by (bit_vector)
    requires
        b0 <= 0x7f,
    ensures
        (b0 & 0x7F) as u32 <= 0x7F,
{
}

proof fn lemma_width_2(b0: u8, b1: u8)
    by (bit_vector)
    ensures
        ((b0 & 0x1F) as u32) << 6 | (b1 & 0x3f) as u32 <= 0x7FF,
{
}

proof fn lemma_width_3(b0: u8, b1: u8, b2: u8)
    by (bit_vector)
    ensures
        ((b0 & 0x0F) as u32) << 12 | ((b1 & 0x3f) as u32) << 6 | (b2 & 0x3f) as u32 <= 0xFFFF,
{
}

proof fn lemma_encoded_bytes(s: u32)
    by (bit_vector)
    ensures
        s & 0x7F <= 0xFF,
        (s >> 6) & 0x1F <= 0xFF,
        (s >> 12) & 0x0F <= 0xFF,
        (s >> 18) & 0x7 <= 0xFF,
        s & 0x3F <= 0xFF,
        (s >> 6) & 0x3F <= 0xFF,
        (s >> 12) & 0x3F <= 0xFF,
{
}

/// Decodes bytes that are the UTF-8 encoding of exactly one scalar value, and
/// gives `None` for all others.
pub fn decode_scalar(bytes: &[u8]) -> (c: Option<char>)
    ensures
        c is Some <==> is_one_scalar(bytes@),
        c is Some ==> c.unwrap() as u32 == decode_first_scalar(bytes@),
{
    let n = bytes.len();
    if n == 0 || n > 4 {
        return None;
    }
    let b0 = bytes[0];
    if b0 <= 0x7f {
        if n != 1 {
            return None;
        }
        let scalar: u32 = (b0 & 0x7F) as u32;
        proof {
            lemma_width_1(b0);
        }
        char::from_u32(scalar)
    } else if 0xc0 <= b0 && b0 <= 0xdf {
        if n != 2 {
            return None;
        }
        let b1 = bytes[1];
        if !(0x80 <= b1 && b1 <= 0xbf) {
            return None;
        }
        let scalar: u32 = (((b0 & 0x1F) as u32) << 6) | ((b1 & 0x3f) as u32);
        proof {
            lemma_width_2(b0, b1);
        }
        if scalar < 0x80 {
            return None;
        }
        char::from_u32(scalar)
    } else if 0xe0 <= b0 && b0 <= 0xef {
        if n != 3 {
            return None;
        }
        let b1 = bytes[1];
        let b2 = bytes[2];
        if !(0x80 <= b1 && b1 <= 0xbf) || !(0x80 <= b2 && b2 <= 0xbf) {
            return None;
        }
        let scalar: u32 = (((b0 & 0x0F) as u32) << 12) | (((b1 & 0x3f) as u32) << 6) | ((b2
            & 0x3f) as u32);
        proof {
            lemma_width_3(b0, b1, b2);
        }
        if scalar < 0x800 || (0xD800 <= scalar && scalar <= 0xDFFF) {
            return None;
        }
        char::from_u32(scalar)
    } else if 0xf0 <= b0 && b0 <= 0xf7 {
        if n != 4 {
            return None;
        }
        let b1 = bytes[1];
        let b2 = bytes[2];
        let b3 = bytes[3];
        if !(0x80 <= b1 && b1 <= 0xbf) || !(0x80 <= b2 && b2 <= 0xbf) || !(0x80 <= b3 && b3
            <= 0xbf) {
            return None;
        }
        let scalar: u32 = (((b0 & 0x07) as u32) << 18) | (((b1 & 0x3f) as u32) << 12) | (((b2
            & 0x3f) as u32) << 6) | ((b3 & 0x3f) as u32);
        if scalar < 0x10000 || scalar > 0x10ffff {
            return None;
        }
        char::from_u32(scalar)
    } else {
        None
    }
}

/// The UTF-8 encoding of a character, first byte first.
pub fn utf8_bytes(c: char) -> (bytes: Vec<u8>)
    ensures
        bytes@ == encode_scalar(c as u32),
{
    let s: u32 = c as u32;
    proof {
        lemma_encoded_bytes(s);
        char_is_scalar(c);
    }
    let mut bytes: Vec<u8> = Vec::new();
    if s <= 0x7F {
        bytes.push((s & 0x7F) as u8);
    } else if s <= 0x7FF {
        bytes.push(0xC0 | ((s >> 6) & 0x1F) as u8);
        bytes.push(0x80 | (s & 0x3F) as u8);
    } else if s <= 0xFFFF {
        bytes.push(0xE0 | ((s >> 12) & 0x0F) as u8);
        bytes.push(0x80 | ((s >> 6) & 0x3F) as u8);
        bytes.push(0x80 | (s & 0x3F) as u8);
    } else {
        bytes.push(0xF0 | ((s >> 18) & 0x7) as u8);
        bytes.push(0x80 | ((s >> 12) & 0x3F) as u8);
        bytes.push(0x80 | ((s >> 6) & 0x3F) as u8);
        bytes.push(0x80 | (s & 0x3F) as u8);
    }
    assert(bytes@ =~= encode_scalar(s));
    bytes
}

/// Decodes a code unit that stands for a scalar value on its own, and gives
/// `None` for a surrogate.
pub fn decode_unit(unit: u16) -> (c: Option<char>)
    ensures
        c is Some <==> !is_surrogate(unit),
        c is Some ==> c.unwrap() as u32 == unit,
{
    char::from_u32(unit as u32)
}

/// Decodes a leading surrogate followed by a trailing one, and gives `None`
/// for every other pair of code units.
pub fn decode_pair(leading: u16, trailing: u16) -> (c: Option<char>)
    ensures
        c is Some <==> is_leading_surrogate(leading) && is_trailing_surrogate(trailing),
        c is Some ==> c.unwrap() as u32 == pair_scalar(leading, trailing),
{
    if 0xD800 <= leading && leading <= 0xDBFF && 0xDC00 <= trailing && trailing <= 0xDFFF {
        let high: u32 = (leading - 0xD800) as u32;
        let low: u32 = (trailing - 0xDC00) as u32;
        char::from_u32(0x10000 + high * 0x400 + low)
    } else {
        None
    }
}

/// The UTF-16 encoding of a character, first unit first.
pub fn utf16_code_units(c: char) -> (units: Vec<u16>)
    ensures
        units@ == utf16_units(c as u32),
{
    let s: u32 = c as u32;
    proof {
        char_is_scalar(c);
    }
    let mut units: Vec<u16> = Vec::new();
    if s < 0x10000 {
        units.push(s as u16);
    } else {
        let rest: u32 = s - 0x10000;
        units.push((0xD800 + rest / 0x400) as u16);
        units.push((0xDC00 + rest % 0x400) as u16);
    }
    assert(units@ =~= utf16_units(s));
    units
}

} // verus!
