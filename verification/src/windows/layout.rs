//! Where PDCurses keeps each attribute and the color pair in its attribute
//! word.
use vstd::prelude::*;
use crate::attributes::{flag_set, lemma_flag_isolation, Attribute};
use crate::backend::{chtype, Backend};
use crate::windows::constants::{
    color_pair_field, A_ALTCHARSET, A_BLINK, A_BOLD, A_CHARTEXT, A_COLOR, A_DIM, A_INVIS,
    A_ITALIC, A_LEFTLINE, A_NORMAL, A_OVERLINE, A_REVERSE, A_RIGHTLINE, A_STRIKEOUT,
    A_UNDERLINE, COLOR_PAIR,
};

verus! {

/// The bits of an attribute in the native attribute word.
pub open spec fn attribute_mask(attribute: Attribute) -> chtype {
    match attribute {
        Attribute::AlternativeCharSet => A_ALTCHARSET,
        Attribute::Bold => A_BOLD,
        Attribute::Blink => A_BLINK,
        Attribute::CharText => A_CHARTEXT,
        Attribute::Dim => A_DIM,
        Attribute::Leftline => A_LEFTLINE,
        Attribute::Invisible => A_INVIS,
        Attribute::Italic => A_ITALIC,
        Attribute::Normal => A_NORMAL,
        Attribute::Overline => A_OVERLINE,
        Attribute::Reverse => A_REVERSE,
        Attribute::Rightline => A_RIGHTLINE,
        Attribute::Strikeout => A_STRIKEOUT,
        Attribute::Underline => A_UNDERLINE,
    }
}

/// The position of the bit of an attribute, for the attributes that have
/// exactly one. The others are the character bits and `Normal`.
pub open spec fn bit_of(attribute: Attribute) -> Option<u64> {
    match attribute {
        Attribute::AlternativeCharSet => Some(21),
        Attribute::Bold => Some(28),
        Attribute::Blink => Some(27),
        Attribute::CharText => None,
        Attribute::Dim => Some(31),
        Attribute::Leftline => Some(23),
        Attribute::Invisible => Some(24),
        Attribute::Italic => Some(24),
        Attribute::Normal => None,
        Attribute::Overline => Some(29),
        Attribute::Reverse => Some(26),
        Attribute::Rightline => Some(22),
        Attribute::Strikeout => Some(30),
        Attribute::Underline => Some(25),
    }
}

/// Selects this backend's layout for a set of attributes.
#[derive(Copy, Clone, Debug, PartialEq, Eq, Hash)]
pub struct Windows;

/// A set of attributes in this backend's layout.
pub type Attributes = crate::attributes::Attributes<Windows>;

proof fn lemma_field_cut(n: chtype)
    by (bit_vector)
    ensures
        ((n << 33) & 0xffff_fffe_0000_0000u64) & !0xffff_fffe_0000_0000u64 == 0,
{
}

proof fn lemma_one_bit_each()
    by (bit_vector)
    ensures
        0x20_0000 == 1u64 << 21,
        0x1000_0000 == 1u64 << 28,
        0x800_0000 == 1u64 << 27,
        0x8000_0000 == 1u64 << 31,
        0x80_0000 == 1u64 << 23,
        0x100_0000 == 1u64 << 24,
        0x2000_0000 == 1u64 << 29,
        0x400_0000 == 1u64 << 26,
        0x40_0000 == 1u64 << 22,
        0x4000_0000 == 1u64 << 30,
        0x200_0000 == 1u64 << 25,
{
}

proof fn lemma_bits_apart(i: u64, j: u64)
    by (bit_vector)
    requires
        i < 64,
        j < 64,
        i != j,
    ensures
        (1u64 << i) & (1u64 << j) == 0,
{
}

proof fn lemma_bit_outside_fields(i: u64)
    by (bit_vector)
    requires
        21 <= i < 33,
    ensures
        (1u64 << i) & 0x1f_ffffu64 == 0,
        0x1f_ffffu64 & (1u64 << i) == 0,
        (1u64 << i) & 0xffff_fffe_0000_0000u64 == 0,
        0x1f_ffffu64 & 0xffff_fffe_0000_0000u64 == 0,
{
}

proof fn lemma_no_bits(bits: chtype)
    by (bit_vector)
    ensures
        bits & 0 == 0,
        0 & bits == 0,
{
}

/// An attribute with one bit has that bit, at its position, for its mask.
pub proof fn lemma_mask_of_bit(attribute: Attribute)
    requires
        bit_of(attribute) is Some,
    ensures
        attribute_mask(attribute) == 1u64 << bit_of(attribute).unwrap(),
        21 <= bit_of(attribute).unwrap() < 33,
{
    lemma_one_bit_each();
}

impl Backend for Windows {
    open spec fn mask_of(attribute: Attribute) -> chtype {
        attribute_mask(attribute)
    }

    open spec fn color_mask() -> chtype {
        A_COLOR
    }

    open spec fn color_field(pair: u8) -> chtype {
        color_pair_field(pair as chtype)
    }

    fn backend() -> Self {
        Windows
    }

    fn mask(attribute: Attribute) -> (bits: chtype) {
        match attribute {
            Attribute::AlternativeCharSet => A_ALTCHARSET,
            Attribute::Bold => A_BOLD,
            Attribute::Blink => A_BLINK,
            Attribute::CharText => A_CHARTEXT,
            Attribute::Dim => A_DIM,
            Attribute::Leftline => A_LEFTLINE,
            Attribute::Invisible => A_INVIS,
            Attribute::Italic => A_ITALIC,
            Attribute::Normal => A_NORMAL,
            Attribute::Overline => A_OVERLINE,
            Attribute::Reverse => A_REVERSE,
            Attribute::Rightline => A_RIGHTLINE,
            Attribute::Strikeout => A_STRIKEOUT,
            Attribute::Underline => A_UNDERLINE,
        }
    }

    fn color() -> (bits: chtype) {
        A_COLOR
    }

    fn color_pair_bits(pair: u8) -> (bits: chtype) {
        COLOR_PAIR(pair as chtype)
    }

    proof fn lemma_one_value(a: Self, b: Self) {
    }

    proof fn lemma_normal_is_empty() {
    }

    proof fn lemma_color_field_in_mask(pair: u8) {
        lemma_field_cut(pair as chtype);
    }

    proof fn lemma_flags_outside_color(attribute: Attribute) {
        lemma_no_bits(A_COLOR);
        if bit_of(attribute) is Some {
            lemma_mask_of_bit(attribute);
            lemma_bit_outside_fields(bit_of(attribute).unwrap());
        } else {
            lemma_bit_outside_fields(21);
        }
    }
}

/// Two different attributes share no bit, but for italic and invisible, which
/// this backend keeps in one.
pub proof fn lemma_distinct_flags_disjoint(x: Attribute, y: Attribute)
    requires
        x != y,
        !(x == Attribute::Italic && y == Attribute::Invisible),
        !(x == Attribute::Invisible && y == Attribute::Italic),
    ensures
        attribute_mask(x) & attribute_mask(y) == 0,
{
    lemma_no_bits(attribute_mask(x));
    lemma_no_bits(attribute_mask(y));
    if bit_of(x) is Some {
        lemma_mask_of_bit(x);
        lemma_bit_outside_fields(bit_of(x).unwrap());
    }
    if bit_of(y) is Some {
        lemma_mask_of_bit(y);
        lemma_bit_outside_fields(bit_of(y).unwrap());
    }
    if bit_of(x) is Some && bit_of(y) is Some {
        lemma_bits_apart(bit_of(x).unwrap(), bit_of(y).unwrap());
    }
}

/// Attribute isolation: switching one attribute, on or off, leaves the bits of
/// every other attribute as they were. Italic and invisible, which are one
/// bit, go together.
pub proof fn lemma_attribute_isolation(bits: chtype, x: Attribute, y: Attribute, enabled: bool)
    requires
        x != y,
        !(x == Attribute::Italic && y == Attribute::Invisible),
        !(x == Attribute::Invisible && y == Attribute::Italic),
    ensures
        flag_set(bits, attribute_mask(x), enabled) & attribute_mask(y) == bits & attribute_mask(y),
{
    lemma_distinct_flags_disjoint(x, y);
    lemma_flag_isolation(bits, attribute_mask(x), attribute_mask(y), enabled);
}

} // verus!
