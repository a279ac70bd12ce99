//! The byte-oriented backend: ncurses key codes, its attribute bits, and
//! input that arrives as UTF-8, one byte per read.
use vstd::prelude::*;
use crate::input::Input;
use crate::keytable::{
    find_code, key_code, lemma_contained_has_first_position, lemma_lookup_of_key_code,
    lemma_lookup_of_table_code, lookup, table_code, table_lookup,
};

pub mod constants;
pub mod layout;
pub mod reading;

pub use self::constants::{
    A_ALTCHARSET, A_ATTRIBUTES, A_BLINK, A_BOLD, A_CHARTEXT, A_COLOR, A_DIM, A_INVIS, A_ITALIC,
    A_LEFTLINE, A_NORMAL, A_OVERLINE, A_REVERSE, A_RIGHTLINE, A_STANDOUT, A_STRIKEOUT,
    A_UNDERLINE, COLOR_PAIR, KEY_EVENT, KEY_F15, KEY_MOUSE, KEY_OFFSET, KEY_RESIZE, MAX_BYTE,
    MAX_BYTES, SPECIAL_KEY_CODES, color_pair_field,
};
pub use self::layout::{
    Attributes, Unix, attribute_mask, bit_of, lemma_attribute_isolation,
    lemma_distinct_flags_disjoint, lemma_mask_of_bit,
};
pub use self::reading::{
    Outcome, Reading, bytes_outcome, can_unget, first_outcome, first_read,
    lemma_character_round_trip, lemma_reads_bounded, lemma_special_key_round_trip,
    lemma_unknown_round_trip, low_byte, next_outcome, next_read, reads_after_unget,
    reads_outcome, reversed_codes, unget_codes, ungetch_codes,
};

verus! {

/// The special key that the native code `raw` stands for.
pub open spec fn decode_key(raw: int) -> Option<Input> {
    table_lookup(SPECIAL_KEY_CODES@, raw, KEY_OFFSET as int, KEY_F15 as int)
}

/// True for the special keys that this backend has a native code for.
pub open spec fn has_keycode(key: Input) -> bool {
    SPECIAL_KEY_CODES@.contains(key)
}

/// The native code of a special key that this backend knows.
pub open spec fn encode_key(key: Input) -> int {
    table_code(SPECIAL_KEY_CODES@, key, KEY_OFFSET as int, KEY_F15 as int)
}

/// Converts an integer returned by a read to the special key that it stands
/// for, or to `None` where the table has no entry for it.
pub fn to_special_keycode(i: i32) -> (key: Option<Input>)
    ensures
        key == decode_key(i as int),
{
    lookup(&SPECIAL_KEY_CODES, i, KEY_OFFSET, KEY_F15)
}

/// The native code of a special key, or `None` for an input that the table
/// does not hold.
pub fn special_keycode(key: Input) -> (code: Option<i32>)
    ensures
        code is Some <==> has_keycode(key),
        code is Some ==> code.unwrap() == encode_key(key),
{
    find_code(&SPECIAL_KEY_CODES, key, KEY_OFFSET, KEY_F15)
}

/// Round trip: the code of a special key that the backend knows maps back to
/// that key.
pub proof fn lemma_decode_encode(key: Input)
    requires
        has_keycode(key),
    ensures
        decode_key(encode_key(key)) == Some(key),
{
    lemma_lookup_of_table_code(SPECIAL_KEY_CODES@, key, KEY_OFFSET as int, KEY_F15 as int);
}

/// Table density: every index of the table has a code, the index past the
/// offset and, behind F15, past the gap as well, and that code maps to the
/// entry at the index.
pub proof fn lemma_table_dense(index: int)
    requires
        0 <= index < SPECIAL_KEY_CODES@.len(),
    ensures
        decode_key(key_code(index, KEY_OFFSET as int, KEY_F15 as int)) == Some(
            SPECIAL_KEY_CODES@[index],
        ),
{
    lemma_lookup_of_key_code(SPECIAL_KEY_CODES@, index, KEY_OFFSET as int, KEY_F15 as int);
}

/// The codes of the special keys lie above the bytes and fit the native
/// integer.
pub proof fn lemma_encode_key_range(key: Input)
    requires
        has_keycode(key),
    ensures
        MAX_BYTE < encode_key(key) <= KEY_EVENT,
{
    lemma_contained_has_first_position(SPECIAL_KEY_CODES@, key);
}

/// Switches blinking on or off. This backend has no such switch: nothing
/// happens, and the status is `OK`.
pub fn _set_blink(_enabled: bool) -> (status: i32)
    ensures
        status == crate::OK,
{
    0
}

/// Sets the title of the terminal window. This backend has no title to set:
/// nothing happens.
pub fn _set_title(_title: &str) {
}

} // verus!
