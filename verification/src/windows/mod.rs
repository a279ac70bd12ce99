//! The backend of 16-bit code units: PDCurses key codes, its attribute bits,
//! and input that arrives as UTF-16, one unit per read.
use vstd::prelude::*;
use crate::input::Input;
use crate::keytable::{
    find_code, key_code, lemma_contained_has_first_position, lemma_lookup_of_key_code,
    lemma_lookup_of_table_code, lookup, table_code, table_lookup,
};

pub mod acs;
pub mod constants;
pub mod layout;
pub mod reading;
pub mod settings;

pub use self::acs::{
    ACS_BBSS, ACS_BLOCK, ACS_BOARD, ACS_BSBS, ACS_BSSB, ACS_BSSS, ACS_BTEE, ACS_BULLET,
    ACS_CKBOARD, ACS_DARROW, ACS_DEGREE, ACS_DIAMOND, ACS_GEQUAL, ACS_HLINE, ACS_LANTERN,
    ACS_LARROW, ACS_LEQUAL, ACS_LLCORNER, ACS_LRCORNER, ACS_LTEE, ACS_NEQUAL, ACS_PI,
    ACS_PLMINUS, ACS_PLUS, ACS_RARROW, ACS_RTEE, ACS_S1, ACS_S3, ACS_S7, ACS_S9, ACS_SBBS,
    ACS_SBSB, ACS_SBSS, ACS_SSBB, ACS_SSBS, ACS_SSSB, ACS_SSSS, ACS_STERLING, ACS_TTEE,
    ACS_UARROW, ACS_ULCORNER, ACS_URCORNER, ACS_VLINE, alternative,
};
pub use self::constants::{
    A_ALTCHARSET, A_BLINK, A_BOLD, A_CHARTEXT, A_COLOR, A_DIM, A_INVIS, A_ITALIC, A_LEFTLINE,
    A_NORMAL, A_OVERLINE, A_REVERSE, A_RIGHTLINE, A_STRIKEOUT, A_UNDERLINE, COLOR_PAIR,
    KEY_F15, KEY_MOUSE, KEY_NUMPAD_ASTERISK, KEY_NUMPAD_DELETE, KEY_NUMPAD_DOWN,
    KEY_NUMPAD_END, KEY_NUMPAD_ENTER, KEY_NUMPAD_HOME, KEY_NUMPAD_INSERT, KEY_NUMPAD_LEFT,
    KEY_NUMPAD_MINUS, KEY_NUMPAD_PAGE_DOWN, KEY_NUMPAD_PAGE_UP, KEY_NUMPAD_PLUS,
    KEY_NUMPAD_RIGHT, KEY_NUMPAD_SLASH, KEY_NUMPAD_UP, KEY_OFFSET, KEY_RESIZE, KEY_UNDO,
    MAX_UNIT, PDC_CHARTEXT_BITS, PDC_COLOR_SHIFT, SPECIAL_KEY_CODES, color_pair_field,
};
pub use self::layout::{
    Attributes, Windows, attribute_mask, bit_of, lemma_attribute_isolation,
    lemma_distinct_flags_disjoint,
    lemma_mask_of_bit,
};
pub use self::reading::{
    Reading, can_unget, first_outcome, first_read, in_table_reach, lemma_character_round_trip,
    lemma_reads_bounded, lemma_special_key_round_trip, lemma_unknown_round_trip, low_unit,
    next_outcome, next_read, reads_after_unget, reads_outcome, reversed_codes, unget_codes,
    ungetch_codes,
};

verus! {

/// The input that the native code `raw` stands for. The codes for resize and
/// mouse events and those of the numeric keypad lie outside the table and are
/// looked at first; the keypad's keys give the same inputs as their
/// counterparts on the main block.
pub open spec fn decode_key(raw: int) -> Option<Input> {
    if raw == KEY_RESIZE {
        Some(Input::KeyResize)
    } else if raw == KEY_MOUSE {
        Some(Input::KeyMouse)
    } else if raw == KEY_NUMPAD_UP {
        Some(Input::KeyUp)
    } else if raw == KEY_NUMPAD_DOWN {
        Some(Input::KeyDown)
    } else if raw == KEY_NUMPAD_LEFT {
        Some(Input::KeyLeft)
    } else if raw == KEY_NUMPAD_RIGHT {
        Some(Input::KeyRight)
    } else if raw == KEY_NUMPAD_END {
        Some(Input::KeyEnd)
    } else if raw == KEY_NUMPAD_HOME {
        Some(Input::KeyHome)
    } else if raw == KEY_NUMPAD_PAGE_UP {
        Some(Input::KeyPPage)
    } else if raw == KEY_NUMPAD_PAGE_DOWN {
        Some(Input::KeyNPage)
    } else if raw == KEY_NUMPAD_INSERT {
        Some(Input::KeyIC)
    } else if raw == KEY_NUMPAD_DELETE {
        Some(Input::KeyDC)
    } else if raw == KEY_NUMPAD_ENTER {
        Some(Input::Character('\n'))
    } else if raw == KEY_NUMPAD_PLUS {
        Some(Input::Character('+'))
    } else if raw == KEY_NUMPAD_MINUS {
        Some(Input::Character('-'))
    } else if raw == KEY_NUMPAD_ASTERISK {
        Some(Input::Character('*'))
    } else if raw == KEY_NUMPAD_SLASH {
        Some(Input::Character('/'))
    } else {
        table_lookup(SPECIAL_KEY_CODES@, raw, KEY_OFFSET as int, KEY_F15 as int)
    }
}

/// True for the special keys that this backend has a native code for.
pub open spec fn has_keycode(key: Input) -> bool {
    key == Input::KeyResize || key == Input::KeyMouse || SPECIAL_KEY_CODES@.contains(key)
}

/// The native code of a special key that this backend knows.
pub open spec fn encode_key(key: Input) -> int {
    if key == Input::KeyResize {
        KEY_RESIZE as int
    } else if key == Input::KeyMouse {
        KEY_MOUSE as int
    } else {
        table_code(SPECIAL_KEY_CODES@, key, KEY_OFFSET as int, KEY_F15 as int)
    }
}

/// Converts an integer returned by a read to the input that it stands for, or
/// to `None` where neither the scattered codes nor the table have an entry for
/// it.
pub fn to_special_keycode(i: i32) -> (key: Option<Input>)
    ensures
        key == decode_key(i as int),
{
    if i == KEY_RESIZE {
        Some(Input::KeyResize)
    } else if i == KEY_MOUSE {
        Some(Input::KeyMouse)
    } else if i == KEY_NUMPAD_UP {
        Some(Input::KeyUp)
    } else if i == KEY_NUMPAD_DOWN {
        Some(Input::KeyDown)
    } else if i == KEY_NUMPAD_LEFT {
        Some(Input::KeyLeft)
    } else if i == KEY_NUMPAD_RIGHT {
        Some(Input::KeyRight)
    } else if i == KEY_NUMPAD_END {
        Some(Input::KeyEnd)
    } else if i == KEY_NUMPAD_HOME {
        Some(Input::KeyHome)
    } else if i == KEY_NUMPAD_PAGE_UP {
        Some(Input::KeyPPage)
    } else if i == KEY_NUMPAD_PAGE_DOWN {
        Some(Input::KeyNPage)
    } else if i == KEY_NUMPAD_INSERT {
        Some(Input::KeyIC)
    } else if i == KEY_NUMPAD_DELETE {
        Some(Input::KeyDC)
    } else if i == KEY_NUMPAD_ENTER {
        Some(Input::Character('\n'))
    } else if i == KEY_NUMPAD_PLUS {
        Some(Input::Character('+'))
    } else if i == KEY_NUMPAD_MINUS {
        Some(Input::Character('-'))
    } else if i == KEY_NUMPAD_ASTERISK {
        Some(Input::Character('*'))
    } else if i == KEY_NUMPAD_SLASH {
        Some(Input::Character('/'))
    } else {
        lookup(&SPECIAL_KEY_CODES, i, KEY_OFFSET, KEY_F15)
    }
}

/// The native code of a special key, or `None` for an input that this backend
/// has no code for.
pub fn special_keycode(key: Input) -> (code: Option<i32>)
    ensures
        code is Some <==> has_keycode(key),
        code is Some ==> code.unwrap() == encode_key(key),
{
    if key == Input::KeyResize {
        Some(KEY_RESIZE)
    } else if key == Input::KeyMouse {
        Some(KEY_MOUSE)
    } else {
        find_code(&SPECIAL_KEY_CODES, key, KEY_OFFSET, KEY_F15)
    }
}

/// The codes of the special keys lie between the offset and the resize code.
pub proof fn lemma_encode_key_range(key: Input)
    requires
        has_keycode(key),
    ensures
        KEY_OFFSET <= encode_key(key) <= KEY_RESIZE,
        key != Input::KeyResize && key != Input::KeyMouse ==> encode_key(key) < KEY_UNDO,
{
    if key != Input::KeyResize && key != Input::KeyMouse {
        lemma_contained_has_first_position(SPECIAL_KEY_CODES@, key);
    }
}

/// Round trip: the code of a special key that the backend knows maps back to
/// that key.
pub proof fn lemma_decode_encode(key: Input)
    requires
        has_keycode(key),
    ensures
        decode_key(encode_key(key)) == Some(key),
{
    if key != Input::KeyResize && key != Input::KeyMouse {
        lemma_encode_key_range(key);
        lemma_lookup_of_table_code(SPECIAL_KEY_CODES@, key, KEY_OFFSET as int, KEY_F15 as int);
    }
}

/// Table density: every index of the table has a code, the index past the
/// offset and, behind F15, past the gap as well, and that code maps to the
/// entry at the index.
pub proof fn lemma_table_dense(index: int)
    requires
        0 <= index < SPECIAL_KEY_CODES@.len(),
    ensures
        decode_key(key_code(index, KEY_OFFSET as int, KEY_F15 as int)) == Some(
            SPECIAL_KEY_CODES@[index],
        ),
{
    lemma_lookup_of_key_code(SPECIAL_KEY_CODES@, index, KEY_OFFSET as int, KEY_F15 as int);
}

} // verus!
