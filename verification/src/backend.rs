//! What the attribute layer asks of a terminal backend: where each flag and
//! the color pair sit in the native attribute word.
use vstd::prelude::*;
use crate::attributes::Attribute;

verus! {

/// The native attribute word. It is wide enough for either backend.
#[allow(non_camel_case_types)]
pub type chtype = u64;

/// The bit layout of one backend.
///
/// An attribute that a backend does not support has no bits, and neither has
/// `Normal`; setting such an attribute changes nothing. The color pair has a
/// field of its own, which no attribute reaches into.
pub trait Backend: Copy {
    /// The bits of an attribute.
    spec fn mask_of(attribute: Attribute) -> chtype;

    /// The field of the color pair.
    spec fn color_mask() -> chtype;

    /// The bits of a color pair.
    spec fn color_field(pair: u8) -> chtype;

    /// The value that selects this backend.
    fn backend() -> Self;

    /// The bits of an attribute.
    fn mask(attribute: Attribute) -> (bits: chtype)
        ensures
            bits == Self::mask_of(attribute),
    ;

    /// The field of the color pair.
    fn color() -> (bits: chtype)
        ensures
            bits == Self::color_mask(),
    ;

    /// The bits of a color pair.
    fn color_pair_bits(pair: u8) -> (bits: chtype)
        ensures
            bits == Self::color_field(pair),
    ;

    /// A backend is a name and holds nothing: it has one value.
    proof fn lemma_one_value(a: Self, b: Self)
        ensures
            a == b,
    ;

    /// `Normal` has no bits.
    proof fn lemma_normal_is_empty()
        ensures
            Self::mask_of(Attribute::Normal) == 0,
    ;

    /// The bits of a color pair lie inside the color field.
    proof fn lemma_color_field_in_mask(pair: u8)
        ensures
            Self::color_field(pair) & !Self::color_mask() == 0,
    ;

    /// No attribute has a bit inside the color field.
    proof fn lemma_flags_outside_color(attribute: Attribute)
        ensures
            Self::mask_of(attribute) & Self::color_mask() == 0,
    ;
}

} // verus!
