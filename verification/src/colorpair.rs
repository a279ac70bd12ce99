//! The color pair of a set of attributes.
use vstd::prelude::*;
use crate::attributes::{bits_with, Attribute, Attributes};
use crate::backend::{chtype, Backend};

verus! {

/// The number of a color pair.
#[derive(Copy, Clone, Debug, PartialEq, Eq, Hash, Structural)]
pub struct ColorPair(pub u8);

impl ColorPair {
    /// The bits of this color pair in the native attribute word.
    pub fn to_chtype<B: Backend>(self) -> (word: chtype)
        ensures
            word == B::color_field(self.0),
    {
        B::color_pair_bits(self.0)
    }

    /// The set that holds this color pair and one attribute. With `Normal`
    /// the word is empty, and the set still reports the pair.
    pub fn with_attribute<B: Backend>(self, attribute: Attribute) -> (set: Attributes<B>)
        ensures
            set.bits() == bits_with::<B>(B::color_field(self.0), attribute),
            set.color() == self,
    {
        let colored = Attributes::<B>::new().with_color_pair(self);
        proof {
            lemma_field_of_empty(colored.bits(), B::color_mask(), B::color_field(self.0));
        }
        colored.with_attribute(attribute)
    }
}

impl Attribute {
    /// The set that holds this attribute and a color pair.
    pub fn with_color_pair<B: Backend>(self, color_pair: ColorPair) -> (set: Attributes<B>)
        ensures
            set.bits() & B::color_mask() == B::color_field(color_pair.0),
            set.bits() & !B::color_mask() == bits_with::<B>(0, self) & !B::color_mask(),
            set.color() == color_pair,
    {
        Attributes::<B>::new().with_attribute(self).with_color_pair(color_pair)
    }
}

proof fn lemma_field_of_empty(bits: chtype, mask: chtype, field: chtype)
    by (bit_vector)
    requires
        bits & mask == field,
        bits & !mask == 0u64 & !mask,
    ensures
        bits == field,
{
}

} // verus!
