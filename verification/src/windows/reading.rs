//! Input on the backend of 16-bit code units: one event from up to two
//! reads, and the codes to push an event back.
use vstd::prelude::*;
use vstd::utf8::{char_is_scalar, char_u32_cast};
use crate::input::Input;
use crate::keytable::{in_reach, reaches};
use crate::unicode::{
    decode_pair, decode_unit, is_leading_surrogate, is_surrogate, is_trailing_surrogate,
    pair_scalar, utf16_code_units, utf16_units,
};
use crate::windows::constants::{KEY_OFFSET, MAX_UNIT, SPECIAL_KEY_CODES};
use crate::windows::{
    decode_key, encode_key, has_keycode, lemma_decode_encode, lemma_encode_key_range,
    special_keycode, to_special_keycode,
};

verus! {

/// Where the decoding of one input event stands after a read.
///
/// `Done` ends the event: with `None` where the backend had no input, with
/// the event otherwise. `More` asks for one more read and holds the leading
/// surrogate that was read; it goes back in with the next read.
#[derive(Copy, Clone, Debug, PartialEq, Eq, Structural)]
pub enum Reading {
    Done(Option<Input>),
    More(u16),
}

/// The code unit that a read contributes to a character: the low sixteen bits
/// of the native code.
pub open spec fn low_unit(raw: i32) -> u16 {
    (raw & 0xffff) as u16
}

/// True for the native codes that the table of special keys reaches, with or
/// without an entry for them.
pub open spec fn in_table_reach(raw: int) -> bool {
    in_reach(SPECIAL_KEY_CODES@.len(), raw, KEY_OFFSET as int)
}

/// What the first read of an event leads to: no event for a negative code;
/// the input for a code that the backend maps; an unknown input for another
/// code in the reach of the table; for another code that is a code unit, a
/// character, or a request for the second unit after a leading surrogate, or
/// an unknown input for a trailing surrogate, which can begin nothing; and an
/// unknown input for the rest.
pub open spec fn first_outcome(raw: i32) -> Reading {
    if raw < 0 {
        Reading::Done(None)
    } else if decode_key(raw as int) is Some {
        Reading::Done(decode_key(raw as int))
    } else if in_table_reach(raw as int) {
        Reading::Done(Some(Input::Unknown(raw)))
    } else if raw <= MAX_UNIT {
        if is_leading_surrogate(low_unit(raw)) {
            Reading::More(low_unit(raw))
        } else if is_trailing_surrogate(low_unit(raw)) {
            Reading::Done(Some(Input::Unknown(raw)))
        } else {
            Reading::Done(Some(Input::Character((low_unit(raw) as u32) as char)))
        }
    } else {
        Reading::Done(Some(Input::Unknown(raw)))
    }
}

/// What the second read leads to, given the unit that came first: the
/// character of the pair if the two make one, and an unknown input holding the
/// second read if not.
pub open spec fn next_outcome(pending: u16, raw: i32) -> Reading {
    if is_leading_surrogate(pending) && is_trailing_surrogate(low_unit(raw)) {
        Reading::Done(
            Some(Input::Character((pair_scalar(pending, low_unit(raw)) as u32) as char)),
        )
    } else {
        Reading::Done(Some(Input::Unknown(raw)))
    }
}

/// What a sequence of reads leads to when each is handed on until the event
/// is done; reads after that are not looked at.
pub open spec fn reads_outcome(reads: Seq<i32>) -> Option<Reading> {
    if reads.len() == 0 {
        None
    } else {
        match first_outcome(reads[0]) {
            Reading::More(pending) => if reads.len() == 1 {
                Some(Reading::More(pending))
            } else {
                Some(next_outcome(pending, reads[1]))
            },
            Reading::Done(event) => Some(Reading::Done(event)),
        }
    }
}

proof fn lemma_low_unit_bounds(raw: i32)
    by (bit_vector)
    ensures
        0 <= raw & 0xffff <= 0xffff,
{
}

proof fn lemma_low_unit_of_unit(raw: i32)
    by (bit_vector)
    requires
        0 <= raw <= 0xffff,
    ensures
        raw & 0xffff == raw,
{
}

fn take_low_unit(raw: i32) -> (unit: u16)
    ensures
        unit == low_unit(raw),
{
    let low: i32 = raw & 0xffff;
    proof {
        lemma_low_unit_bounds(raw);
    }
    low as u16
}

/// Takes the first read of an input event.
pub fn first_read(raw: i32) -> (step: Reading)
    ensures
        step == first_outcome(raw),
{
    if raw < 0 {
        return Reading::Done(None);
    }
    match to_special_keycode(raw) {
        Some(key) => Reading::Done(Some(key)),
        None => {
            if reaches(&SPECIAL_KEY_CODES, raw, KEY_OFFSET) || raw > MAX_UNIT {
                return Reading::Done(Some(Input::Unknown(raw)));
            }
            let unit = take_low_unit(raw);
            match decode_unit(unit) {
                Some(c) => {
                    proof {
                        char_u32_cast(c, unit as u32);
                    }
                    Reading::Done(Some(Input::Character(c)))
                },
                None => {
                    if unit <= 0xDBFF {
                        Reading::More(unit)
                    } else {
                        Reading::Done(Some(Input::Unknown(raw)))
                    }
                },
            }
        },
    }
}

/// Takes the second read of an input event whose first read was a leading
/// surrogate.
pub fn next_read(pending: u16, raw: i32) -> (step: Reading)
    ensures
        step == next_outcome(pending, raw),
{
    let trailing = take_low_unit(raw);
    match decode_pair(pending, trailing) {
        Some(c) => {
            proof {
                char_u32_cast(c, pair_scalar(pending, trailing) as u32);
            }
            Reading::Done(Some(Input::Character(c)))
        },
        None => Reading::Done(Some(Input::Unknown(raw))),
    }
}

/// True for the inputs that can be pushed back: characters, unknown inputs
/// and the special keys that the backend has a code for.
pub open spec fn can_unget(input: Input) -> bool {
    input is Character || input is Unknown || has_keycode(input)
}

/// The code units of a character as native codes, last unit first.
pub open spec fn reversed_codes(units: Seq<u16>) -> Seq<i32> {
    Seq::new(units.len(), |i: int| units[units.len() - 1 - i] as i32)
}

/// The native codes to push back for an input, in the order of the pushes.
/// What is pushed last is read first, so a character's code units go in from
/// the last to the first.
pub open spec fn unget_codes(input: Input) -> Seq<i32> {
    match input {
        Input::Character(c) => reversed_codes(utf16_units(c as u32)),
        Input::Unknown(raw) => seq![raw],
        key => seq![encode_key(key) as i32],
    }
}

/// The native codes to push back for an input, in the order of the pushes.
pub fn ungetch_codes(input: &Input) -> (codes: Vec<i32>)
    requires
        can_unget(*input),
    ensures
        codes@ == unget_codes(*input),
{
    let mut codes: Vec<i32> = Vec::new();
    match *input {
        Input::Character(c) => {
            let units = utf16_code_units(c);
            let mut i: usize = units.len();
            while i > 0
                invariant
                    i <= units@.len(),
                    codes@.len() == units@.len() - i,
                    forall|k: int|
                        0 <= k < codes@.len() ==> codes@[k] == units@[units@.len() - 1 - k] as i32,
                decreases i,
            {
                i -= 1;
                codes.push(units[i] as i32);
            }
            assert(codes@ =~= reversed_codes(units@));
        },
        Input::Unknown(raw) => {
            codes.push(raw);
            assert(codes@ =~= seq![raw]);
        },
        key => {
            match special_keycode(key) {
                Some(code) => {
                    codes.push(code);
                    assert(codes@ =~= seq![code]);
                },
                None => {
                    assert(false);
                },
            }
        },
    }
    codes
}

/// The codes pushed back for an input, in the order in which the reads that
/// follow hand them out: the last push first.
pub open spec fn reads_after_unget(input: Input) -> Seq<i32> {
    unget_codes(input).reverse()
}

/// Character round trip: after a character was pushed back, the reads that
/// follow decode to that character, unless its number is a native code that
/// the backend maps or the table reaches.
pub proof fn lemma_character_round_trip(c: char)
    requires
        decode_key(c as u32 as int) is None,
        !in_table_reach(c as u32 as int),
    ensures
        reads_outcome(reads_after_unget(Input::Character(c))) == Some(
            Reading::Done(Some(Input::Character(c))),
        ),
{
    let scalar = c as u32;
    let units = utf16_units(scalar);
    let reads = reads_after_unget(Input::Character(c));
    char_is_scalar(c);
    char_u32_cast(c, scalar);
    assert(reads.len() == units.len());
    assert(reads[0] == units[0] as i32);
    lemma_low_unit_of_unit(reads[0]);
    if scalar >= 0x10000 {
        assert(reads[1] == units[1] as i32);
        lemma_low_unit_of_unit(reads[1]);
        assert(pair_scalar(units[0], units[1]) == scalar);
    }
}

/// Special-key round trip: after a special key that the backend knows was
/// pushed back, the next read decodes to that key.
pub proof fn lemma_special_key_round_trip(key: Input)
    requires
        key.is_special_key(),
        has_keycode(key),
    ensures
        reads_outcome(reads_after_unget(key)) == Some(Reading::Done(Some(key))),
{
    lemma_decode_encode(key);
    lemma_encode_key_range(key);
    let reads = reads_after_unget(key);
    assert(reads.len() == 1);
    assert(reads[0] == encode_key(key) as i32);
}

/// Unknown passthrough: after an unknown input was pushed back, the next read
/// gives it again, provided that its code is none that stands for something
/// else: not negative, none that the backend maps, and no code unit that is
/// or begins a character.
pub proof fn lemma_unknown_round_trip(raw: i32)
    requires
        raw >= 0,
        decode_key(raw as int) is None,
        raw > MAX_UNIT || in_table_reach(raw as int) || is_trailing_surrogate(low_unit(raw)),
    ensures
        reads_outcome(reads_after_unget(Input::Unknown(raw))) == Some(
            Reading::Done(Some(Input::Unknown(raw))),
        ),
{
    let reads = reads_after_unget(Input::Unknown(raw));
    assert(reads.len() == 1);
    assert(reads[0] == raw);
}

/// One event takes at most two reads: the second always ends it.
pub proof fn lemma_reads_bounded(pending: u16, raw: i32)
    ensures
        next_outcome(pending, raw) is Done,
{
}

} // verus!
