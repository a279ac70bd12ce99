//! Input on the byte-oriented backend: one event from up to four reads, and
//! the codes to push an event back.
use vstd::prelude::*;
use vstd::utf8::{
    char_u32_cast, decode_first_scalar, encode_scalar, encode_utf8, encode_utf8_first_scalar,
};
use crate::input::Input;
use crate::unicode::{decode_scalar, is_one_scalar, utf8_bytes};
use crate::unix::constants::{MAX_BYTE, MAX_BYTES};
use crate::unix::{
    decode_key, encode_key, has_keycode, lemma_decode_encode, lemma_encode_key_range,
    special_keycode, to_special_keycode,
};

verus! {

/// Where the decoding of one input event stands after a read.
///
/// `Done` ends the event: with `None` where the backend had no input, with
/// the event otherwise. `More` asks for one more read and holds the bytes of
/// the unfinished character; they go back in with the next read.
#[derive(Clone, Debug, PartialEq, Eq)]
pub enum Reading {
    Done(Option<Input>),
    More(Vec<u8>),
}

/// What a [`Reading`] stands for in contracts.
pub ghost enum Outcome {
    Done(Option<Input>),
    More(Seq<u8>),
}

impl View for Reading {
    type V = Outcome;

    open spec fn view(&self) -> Outcome {
        match *self {
            Reading::Done(event) => Outcome::Done(event),
            Reading::More(bytes) => Outcome::More(bytes@),
        }
    }
}

/// The byte that a read contributes to a character: the low eight bits of the
/// native code.
pub open spec fn low_byte(raw: i32) -> u8 {
    (raw & 0xff) as u8
}

/// What the bytes read so far amount to, `raw` being the last read: a
/// character if they are the encoding of exactly one, an unknown input
/// holding the last read once the fourth byte has not completed one, and a
/// request for another byte otherwise.
pub open spec fn bytes_outcome(bytes: Seq<u8>, raw: i32) -> Outcome {
    if is_one_scalar(bytes) {
        Outcome::Done(Some(Input::Character(decode_first_scalar(bytes) as char)))
    } else if bytes.len() >= MAX_BYTES {
        Outcome::Done(Some(Input::Unknown(raw)))
    } else {
        Outcome::More(bytes)
    }
}

/// What the first read of an event leads to: no event for a negative code, the
/// special key for a code that the table maps, the start of a character for
/// another code that fits a byte, and an unknown input for the rest.
pub open spec fn first_outcome(raw: i32) -> Outcome {
    if raw < 0 {
        Outcome::Done(None)
    } else if decode_key(raw as int) is Some {
        Outcome::Done(decode_key(raw as int))
    } else if raw <= MAX_BYTE {
        bytes_outcome(seq![low_byte(raw)], raw)
    } else {
        Outcome::Done(Some(Input::Unknown(raw)))
    }
}

/// What a further read leads to, given the bytes of the unfinished character.
pub open spec fn next_outcome(pending: Seq<u8>, raw: i32) -> Outcome {
    bytes_outcome(pending.push(low_byte(raw)), raw)
}

/// What a sequence of reads leads to when each is handed on until the event
/// is done; reads after that are not looked at.
pub open spec fn reads_outcome(reads: Seq<i32>) -> Outcome
    decreases reads.len(),
{
    if reads.len() == 0 {
        Outcome::More(Seq::empty())
    } else if reads.len() == 1 {
        first_outcome(reads[0])
    } else {
        match reads_outcome(reads.drop_last()) {
            Outcome::More(pending) => next_outcome(pending, reads.last()),
            Outcome::Done(event) => Outcome::Done(event),
        }
    }
}

proof fn lemma_low_byte_bounds(raw: i32)
    by (bit_vector)
    ensures
        0 <= raw & 0xff <= 0xff,
{
}

proof fn lemma_low_byte_of_byte(raw: i32)
    by (bit_vector)
    requires
        0 <= raw <= 0xff,
    ensures
        raw & 0xff == raw,
{
}

fn take_low_byte(raw: i32) -> (byte: u8)
    ensures
        byte == low_byte(raw),
{
    let low: i32 = raw & 0xff;
    proof {
        lemma_low_byte_bounds(raw);
    }
    low as u8
}

fn weigh(bytes: Vec<u8>, raw: i32) -> (step: Reading)
    ensures
        step@ == bytes_outcome(bytes@, raw),
{
    match decode_scalar(bytes.as_slice()) {
        Some(c) => {
            proof {
                char_u32_cast(c, c as u32);
            }
            Reading::Done(Some(Input::Character(c)))
        },
        None => {
            if bytes.len() >= MAX_BYTES {
                Reading::Done(Some(Input::Unknown(raw)))
            } else {
                Reading::More(bytes)
            }
        },
    }
}

/// Takes the first read of an input event.
pub fn first_read(raw: i32) -> (step: Reading)
    ensures
        step@ == first_outcome(raw),
{
    if raw < 0 {
        return Reading::Done(None);
    }
    match to_special_keycode(raw) {
        Some(key) => Reading::Done(Some(key)),
        None => {
            if raw <= MAX_BYTE {
                let mut bytes: Vec<u8> = Vec::new();
                bytes.push(take_low_byte(raw));
                assert(bytes@ =~= seq![low_byte(raw)]);
                weigh(bytes, raw)
            } else {
                Reading::Done(Some(Input::Unknown(raw)))
            }
        },
    }
}

/// Takes a further read of an input event that [`first_read`] or a call of
/// this function has left unfinished.
pub fn next_read(pending: Vec<u8>, raw: i32) -> (step: Reading)
    ensures
        step@ == next_outcome(pending@, raw),
{
    let mut bytes = pending;
    bytes.push(take_low_byte(raw));
    weigh(bytes, raw)
}

/// True for the inputs that can be pushed back: characters, unknown inputs
/// and the special keys that the backend has a code for.
pub open spec fn can_unget(input: Input) -> bool {
    input is Character || input is Unknown || has_keycode(input)
}

/// The bytes of a character as native codes, last byte first.
pub open spec fn reversed_codes(bytes: Seq<u8>) -> Seq<i32> {
    Seq::new(bytes.len(), |i: int| bytes[bytes.len() - 1 - i] as i32)
}

/// The native codes to push back for an input, in the order of the pushes.
/// What is pushed last is read first, so a character's bytes go in from the
/// last to the first.
pub open spec fn unget_codes(input: Input) -> Seq<i32> {
    match input {
        Input::Character(c) => reversed_codes(encode_scalar(c as u32)),
        Input::Unknown(raw) => seq![raw],
        key => seq![encode_key(key) as i32],
    }
}

/// The native codes to push back for an input, in the order of the pushes.
pub fn ungetch_codes(input: &Input) -> (codes: Vec<i32>)
    requires
        can_unget(*input),
    ensures
        codes@ == unget_codes(*input),
{
    let mut codes: Vec<i32> = Vec::new();
    match *input {
        Input::Character(c) => {
            let bytes = utf8_bytes(c);
            let mut i: usize = bytes.len();
            while i > 0
                invariant
                    i <= bytes@.len(),
                    codes@.len() == bytes@.len() - i,
                    forall|k: int|
                        0 <= k < codes@.len() ==> codes@[k] == bytes@[bytes@.len() - 1 - k] as i32,
                decreases i,
            {
                i -= 1;
                codes.push(bytes[i] as i32);
            }
            assert(codes@ =~= reversed_codes(bytes@));
        },
        Input::Unknown(raw) => {
            codes.push(raw);
            assert(codes@ =~= seq![raw]);
        },
        key => {
            match special_keycode(key) {
                Some(code) => {
                    codes.push(code);
                    assert(codes@ =~= seq![code]);
                },
                None => {
                    assert(false);
                },
            }
        },
    }
    codes
}

/// The codes pushed back for an input, in the order in which the reads that
/// follow hand them out: the last push first.
pub open spec fn reads_after_unget(input: Input) -> Seq<i32> {
    unget_codes(input).reverse()
}

proof fn lemma_prefix_is_unfinished(bytes: Seq<u8>, k: int)
    requires
        is_one_scalar(bytes),
        1 <= k < bytes.len(),
    ensures
        !is_one_scalar(bytes.take(k)),
        bytes.take(k).len() < MAX_BYTES,
{
    assert(bytes.take(k)[0] == bytes[0]);
}

proof fn lemma_reads_of_one_scalar(bytes: Seq<u8>, reads: Seq<i32>, k: int)
    requires
        is_one_scalar(bytes),
        reads.len() == bytes.len(),
        forall|i: int| 0 <= i < bytes.len() ==> reads[i] == bytes[i] as i32,
        1 <= k <= bytes.len(),
    ensures
        reads_outcome(reads.take(k)) == bytes_outcome(bytes.take(k), reads[k - 1]),
    decreases k,
{
    let raw = reads[k - 1];
    lemma_low_byte_of_byte(raw);
    assert(low_byte(raw) == bytes[k - 1]);
    if k == 1 {
        assert(reads.take(1)[0] == reads[0]);
        assert(seq![low_byte(raw)] =~= bytes.take(1));
    } else {
        lemma_reads_of_one_scalar(bytes, reads, k - 1);
        lemma_prefix_is_unfinished(bytes, k - 1);
        assert(reads.take(k).drop_last() =~= reads.take(k - 1));
        assert(reads.take(k).last() == raw);
        assert(bytes.take(k - 1).push(low_byte(raw)) =~= bytes.take(k));
    }
}

/// Character round trip: after a character was pushed back, the reads that
/// follow decode to that character, for every character there is.
pub proof fn lemma_character_round_trip(c: char)
    ensures
        reads_outcome(reads_after_unget(Input::Character(c))) == Outcome::Done(
            Some(Input::Character(c)),
        ),
{
    let bytes = encode_scalar(c as u32);
    let reads = reads_after_unget(Input::Character(c));
    reveal_with_fuel(encode_utf8, 2);
    assert(encode_utf8(seq![c]) =~= bytes);
    encode_utf8_first_scalar(seq![c]);
    char_u32_cast(c, c as u32);
    assert(reads.len() == bytes.len());
    assert forall|i: int| 0 <= i < bytes.len() implies reads[i] == bytes[i] as i32 by {
    }
    lemma_reads_of_one_scalar(bytes, reads, bytes.len() as int);
    assert(reads.take(bytes.len() as int) =~= reads);
    assert(bytes.take(bytes.len() as int) =~= bytes);
}

/// Special-key round trip: after a special key that the backend knows was
/// pushed back, the next read decodes to that key.
pub proof fn lemma_special_key_round_trip(key: Input)
    requires
        key.is_special_key(),
        has_keycode(key),
    ensures
        reads_outcome(reads_after_unget(key)) == Outcome::Done(Some(key)),
{
    lemma_decode_encode(key);
    lemma_encode_key_range(key);
    let reads = reads_after_unget(key);
    assert(reads.len() == 1);
    assert(reads[0] == encode_key(key) as i32);
}

/// Unknown passthrough: after an unknown input was pushed back, the next read
/// gives it again, provided that its code is none that stands for something
/// else: not negative, no byte of text, and none that the table maps.
pub proof fn lemma_unknown_round_trip(raw: i32)
    requires
        raw > MAX_BYTE,
        decode_key(raw as int) is None,
    ensures
        reads_outcome(reads_after_unget(Input::Unknown(raw))) == Outcome::Done(
            Some(Input::Unknown(raw)),
        ),
{
    let reads = reads_after_unget(Input::Unknown(raw));
    assert(reads.len() == 1);
    assert(reads[0] == raw);
}

/// One event takes at most four reads: a fourth read always ends it, and each
/// read before adds one byte to the unfinished character.
pub proof fn lemma_reads_bounded(pending: Seq<u8>, raw: i32)
    ensures
        pending.len() + 1 >= MAX_BYTES ==> next_outcome(pending, raw) is Done,
        next_outcome(pending, raw) is More ==> next_outcome(pending, raw)->More_0.len()
            == pending.len() + 1,
        first_outcome(raw) is More ==> first_outcome(raw)->More_0.len() == 1,
{
}

} // verus!
