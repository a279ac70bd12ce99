use pancurses::unicode::{decode_pair, decode_scalar, decode_unit, utf16_code_units, utf8_bytes};

#[test]
fn utf8_bytes_exact_values() {
    assert_eq!(utf8_bytes('a'), vec![0x61]);
    assert_eq!(utf8_bytes('\0'), vec![0x00]);
    assert_eq!(utf8_bytes('\u{7f}'), vec![0x7f]);
    assert_eq!(utf8_bytes('\u{80}'), vec![0xC2, 0x80]);
    assert_eq!(utf8_bytes('ä'), vec![0xC3, 0xA4]);
    assert_eq!(utf8_bytes('\u{7ff}'), vec![0xDF, 0xBF]);
    assert_eq!(utf8_bytes('\u{800}'), vec![0xE0, 0xA0, 0x80]);
    assert_eq!(utf8_bytes('€'), vec![0xE2, 0x82, 0xAC]);
    assert_eq!(utf8_bytes('\u{ffff}'), vec![0xEF, 0xBF, 0xBF]);
    assert_eq!(utf8_bytes('\u{10000}'), vec![0xF0, 0x90, 0x80, 0x80]);
    assert_eq!(utf8_bytes('𐍈'), vec![0xF0, 0x90, 0x8D, 0x88]);
    assert_eq!(utf8_bytes('\u{10ffff}'), vec![0xF4, 0x8F, 0xBF, 0xBF]);
}

#[test]
fn utf8_bytes_agree_with_std() {
    for c in ['a', 'ä', '€', 'ᚠ', 'γ', 'б', 'ვ', 'இ', 'ಬ', '𤭢', '𐍈'] {
        let mut buffer = [0u8; 4];
        let expected = c.encode_utf8(&mut buffer).as_bytes().to_vec();
        assert_eq!(utf8_bytes(c), expected);
    }
}

#[test]
fn decode_scalar_exact_values() {
    assert_eq!(decode_scalar(&[0x61]), Some('a'));
    assert_eq!(decode_scalar(&[0xC3, 0xA4]), Some('ä'));
    assert_eq!(decode_scalar(&[0xE2, 0x82, 0xAC]), Some('€'));
    assert_eq!(decode_scalar(&[0xF0, 0x90, 0x8D, 0x88]), Some('𐍈'));
    assert_eq!(decode_scalar(&[0xF4, 0x8F, 0xBF, 0xBF]), Some('\u{10ffff}'));
}

#[test]
fn decode_scalar_rejects_what_is_no_single_scalar() {
    assert_eq!(decode_scalar(&[]), None);
    assert_eq!(decode_scalar(&[0x80]), None);
    assert_eq!(decode_scalar(&[0xFF]), None);
    assert_eq!(decode_scalar(&[0xC3]), None);
    assert_eq!(decode_scalar(&[0x61, 0x62]), None);
    assert_eq!(decode_scalar(&[0xC3, 0xA4, 0x61]), None);
    assert_eq!(decode_scalar(&[0xC3, 0x41]), None);
    assert_eq!(decode_scalar(&[0xC0, 0x80]), None);
    assert_eq!(decode_scalar(&[0xC1, 0xBF]), None);
    assert_eq!(decode_scalar(&[0xE0, 0x80, 0x80]), None);
    assert_eq!(decode_scalar(&[0xED, 0xA0, 0x80]), None);
    assert_eq!(decode_scalar(&[0xF0, 0x80, 0x80, 0x80]), None);
    assert_eq!(decode_scalar(&[0xF4, 0x90, 0x80, 0x80]), None);
    assert_eq!(decode_scalar(&[0xF8, 0x88, 0x80, 0x80]), None);
    assert_eq!(decode_scalar(&[0xF0, 0x90, 0x8D, 0x88, 0x61]), None);
}

#[test]
fn decode_scalar_inverts_utf8_bytes() {
    for c in ['\0', 'a', 'ä', '\u{7ff}', '\u{800}', '€', '\u{d7ff}', '\u{e000}', '𤭢', '\u{10ffff}'] {
        assert_eq!(decode_scalar(&utf8_bytes(c)), Some(c));
    }
}

#[test]
fn utf16_code_units_exact_values() {
    assert_eq!(utf16_code_units('a'), vec![0x61]);
    assert_eq!(utf16_code_units('€'), vec![0x20AC]);
    assert_eq!(utf16_code_units('\u{ffff}'), vec![0xFFFF]);
    assert_eq!(utf16_code_units('\u{10000}'), vec![0xD800, 0xDC00]);
    assert_eq!(utf16_code_units('𐍈'), vec![0xD800, 0xDF48]);
    assert_eq!(utf16_code_units('𤭢'), vec![0xD852, 0xDF62]);
    assert_eq!(utf16_code_units('\u{10ffff}'), vec![0xDBFF, 0xDFFF]);
}

#[test]
fn utf16_code_units_agree_with_std() {
    for c in ['a', 'ä', '€', 'ᚠ', '𤭢', '𐍈'] {
        let mut buffer = [0u16; 2];
        let expected = c.encode_utf16(&mut buffer).to_vec();
        assert_eq!(utf16_code_units(c), expected);
    }
}

#[test]
fn decode_unit_takes_all_but_surrogates() {
    assert_eq!(decode_unit(0x61), Some('a'));
    assert_eq!(decode_unit(0x20AC), Some('€'));
    assert_eq!(decode_unit(0xD7FF), Some('\u{d7ff}'));
    assert_eq!(decode_unit(0xD800), None);
    assert_eq!(decode_unit(0xDBFF), None);
    assert_eq!(decode_unit(0xDC00), None);
    assert_eq!(decode_unit(0xDFFF), None);
    assert_eq!(decode_unit(0xE000), Some('\u{e000}'));
    assert_eq!(decode_unit(0xFFFF), Some('\u{ffff}'));
}

#[test]
fn decode_pair_takes_a_leading_and_a_trailing_surrogate() {
    assert_eq!(decode_pair(0xD800, 0xDC00), Some('\u{10000}'));
    assert_eq!(decode_pair(0xD800, 0xDF48), Some('𐍈'));
    assert_eq!(decode_pair(0xDBFF, 0xDFFF), Some('\u{10ffff}'));
    assert_eq!(decode_pair(0xD800, 0xD800), None);
    assert_eq!(decode_pair(0xDC00, 0xDC00), None);
    assert_eq!(decode_pair(0xD800, 0x0041), None);
    assert_eq!(decode_pair(0x0041, 0xDC00), None);
}
