//! Attribute flags and the color pair that goes with them, held as the
//! native attribute word of a backend.
use core::ops::{BitOr, BitXor};
use vstd::prelude::*;
use vstd::std_specs::convert::FromSpecImpl;
use vstd::std_specs::ops::{BitOrSpecImpl, BitXorSpecImpl};
use crate::backend::{chtype, Backend};
use crate::colorpair::ColorPair;

verus! {

/// One display attribute. `Normal` stands for the absence of all of them.
#[derive(Copy, Clone, Debug, PartialEq, Eq, Hash, Structural)]
pub enum Attribute {
    AlternativeCharSet,
    Bold,
    Blink,
    CharText,
    Dim,
    Leftline,
    Invisible,
    Italic,
    Normal,
    Overline,
    Reverse,
    Rightline,
    Strikeout,
    Underline,
}

/// The word that results from switching a flag: its bits are set where
/// `enabled` is true, and flipped where it is false.
pub open spec fn flag_set(bits: chtype, mask: chtype, enabled: bool) -> chtype {
    if enabled {
        bits | mask
    } else {
        bits ^ mask
    }
}

/// The word that results from adding an attribute: all bits are cleared for
/// `Normal`, and the bits of the attribute are set for every other one.
pub open spec fn bits_with<B: Backend>(bits: chtype, attribute: Attribute) -> chtype {
    if attribute == Attribute::Normal {
        0
    } else {
        bits | B::mask_of(attribute)
    }
}

/// The word that results from toggling an attribute off: nothing changes for
/// `Normal`, and the bits of the attribute are flipped for every other one.
pub open spec fn bits_without<B: Backend>(bits: chtype, attribute: Attribute) -> chtype {
    if attribute == Attribute::Normal {
        bits
    } else {
        bits ^ B::mask_of(attribute)
    }
}

/// The word that results from replacing the color pair: the color field is
/// cleared and filled with the bits of the pair, and every other bit stays.
pub open spec fn bits_with_pair<B: Backend>(bits: chtype, pair: ColorPair) -> chtype {
    (bits & !B::color_mask()) | B::color_field(pair.0)
}

/// A set of attributes together with a color pair, in the layout of the
/// backend `B`.
#[derive(Copy, Clone, Debug, PartialEq, Eq, Hash)]
pub struct Attributes<B: Backend> {
    raw: chtype,
    color_pair: ColorPair,
    backend: B,
}

impl<B: Backend> Attributes<B> {
    /// The native attribute word.
    pub closed spec fn bits(&self) -> chtype {
        self.raw
    }

    /// The color pair that was set last.
    pub closed spec fn color(&self) -> ColorPair {
        self.color_pair
    }

    /// True where the attribute shows in the word: for `Normal`, where no bit
    /// is set at all; for every other attribute, where any of its bits is.
    pub open spec fn has(&self, attribute: Attribute) -> bool {
        if attribute == Attribute::Normal {
            self.bits() == 0
        } else {
            self.bits() & B::mask_of(attribute) != 0
        }
    }

    /// The empty set: no bit set, color pair 0.
    pub fn new() -> (set: Attributes<B>)
        ensures
            set.bits() == 0,
            set.color() == ColorPair(0),
    {
        Attributes { raw: 0, color_pair: ColorPair(0), backend: B::backend() }
    }

    /// The native attribute word, as the drawing calls of the backend take
    /// it.
    pub fn to_chtype(&self) -> (word: chtype)
        ensures
            word == self.bits(),
    {
        self.raw
    }

    /// True where any bit of the alternative character set is set.
    pub fn is_alternative_char_set(&self) -> (set: bool)
        ensures
            set == self.has(Attribute::AlternativeCharSet),
    {
        (self.raw & B::mask(Attribute::AlternativeCharSet)) > 0
    }

    /// Sets the bits of the alternative character set where `enabled` is true,
    /// and flips them where it is false.
    pub fn set_alternative_char_set(&mut self, enabled: bool)
        ensures
            final(self).bits() == flag_set(
                old(self).bits(),
                B::mask_of(Attribute::AlternativeCharSet),
                enabled,
            ),
            final(self).color() == old(self).color(),
    {
        let mask = B::mask(Attribute::AlternativeCharSet);
        if enabled {
            self.raw = self.raw | mask;
        } else {
            self.raw = self.raw ^ mask;
        }
    }

    /// True where any bit of bold is set.
    pub fn is_bold(&self) -> (set: bool)
        ensures
            set == self.has(Attribute::Bold),
    {
        (self.raw & B::mask(Attribute::Bold)) > 0
    }

    /// Sets the bits of bold where `enabled` is true, and flips them where it
    /// is false.
    pub fn set_bold(&mut self, enabled: bool)
        ensures
            final(self).bits() == flag_set(
                old(self).bits(),
                B::mask_of(Attribute::Bold),
                enabled,
            ),
            final(self).color() == old(self).color(),
    {
        let mask = B::mask(Attribute::Bold);
        if enabled {
            self.raw = self.raw | mask;
        } else {
            self.raw = self.raw ^ mask;
        }
    }

    /// True where any bit of blink is set.
    pub fn is_blink(&self) -> (set: bool)
        ensures
            set == self.has(Attribute::Blink),
    {
        (self.raw & B::mask(Attribute::Blink)) > 0
    }

    /// Sets the bits of blink where `enabled` is true, and flips them where it
    /// is false.
    pub fn set_blink(&mut self, enabled: bool)
        ensures
            final(self).bits() == flag_set(
                old(self).bits(),
                B::mask_of(Attribute::Blink),
                enabled,
            ),
            final(self).color() == old(self).color(),
    {
        let mask = B::mask(Attribute::Blink);
        if enabled {
            self.raw = self.raw | mask;
        } else {
            self.raw = self.raw ^ mask;
        }
    }

    /// True where any bit of the character bits is set.
    pub fn is_char_text(&self) -> (set: bool)
        ensures
            set == self.has(Attribute::CharText),
    {
        (self.raw & B::mask(Attribute::CharText)) > 0
    }

    /// Sets the bits of the character bits where `enabled` is true, and flips
    /// them where it is false.
    pub fn set_char_text(&mut self, enabled: bool)
        ensures
            final(self).bits() == flag_set(
                old(self).bits(),
                B::mask_of(Attribute::CharText),
                enabled,
            ),
            final(self).color() == old(self).color(),
    {
        let mask = B::mask(Attribute::CharText);
        if enabled {
            self.raw = self.raw | mask;
        } else {
            self.raw = self.raw ^ mask;
        }
    }

    /// True where any bit of dim is set.
    pub fn is_dim(&self) -> (set: bool)
        ensures
            set == self.has(Attribute::Dim),
    {
        (self.raw & B::mask(Attribute::Dim)) > 0
    }

    /// Sets the bits of dim where `enabled` is true, and flips them where it is
    /// false.
    pub fn set_dim(&mut self, enabled: bool)
        ensures
            final(self).bits() == flag_set(
                old(self).bits(),
                B::mask_of(Attribute::Dim),
                enabled,
            ),
            final(self).color() == old(self).color(),
    {
        let mask = B::mask(Attribute::Dim);
        if enabled {
            self.raw = self.raw | mask;
        } else {
            self.raw = self.raw ^ mask;
        }
    }

    /// True where any bit of the line on the left is set.
    pub fn is_leftline(&self) -> (set: bool)
        ensures
            set == self.has(Attribute::Leftline),
    {
        (self.raw & B::mask(Attribute::Leftline)) > 0
    }

    /// Sets the bits of the line on the left where `enabled` is true, and flips
    /// them where it is false.
    pub fn set_leftline(&mut self, enabled: bool)
        ensures
            final(self).bits() == flag_set(
                old(self).bits(),
                B::mask_of(Attribute::Leftline),
                enabled,
            ),
            final(self).color() == old(self).color(),
    {
        let mask = B::mask(Attribute::Leftline);
        if enabled {
            self.raw = self.raw | mask;
        } else {
            self.raw = self.raw ^ mask;
        }
    }

    /// True where any bit of invisible is set.
    pub fn is_invisible(&self) -> (set: bool)
        ensures
            set == self.has(Attribute::Invisible),
    {
        (self.raw & B::mask(Attribute::Invisible)) > 0
    }

    /// Sets the bits of invisible where `enabled` is true, and flips them where
    /// it is false.
    pub fn set_invisible(&mut self, enabled: bool)
        ensures
            final(self).bits() == flag_set(
                old(self).bits(),
                B::mask_of(Attribute::Invisible),
                enabled,
            ),
            final(self).color() == old(self).color(),
    {
        let mask = B::mask(Attribute::Invisible);
        if enabled {
            self.raw = self.raw | mask;
        } else {
            self.raw = self.raw ^ mask;
        }
    }

    /// True where any bit of italic is set.
    pub fn is_italic(&self) -> (set: bool)
        ensures
            set == self.has(Attribute::Italic),
    {
        (self.raw & B::mask(Attribute::Italic)) > 0
    }

    /// Sets the bits of italic where `enabled` is true, and flips them where it
    /// is false.
    pub fn set_italic(&mut self, enabled: bool)
        ensures
            final(self).bits() == flag_set(
                old(self).bits(),
                B::mask_of(Attribute::Italic),
                enabled,
            ),
            final(self).color() == old(self).color(),
    {
        let mask = B::mask(Attribute::Italic);
        if enabled {
            self.raw = self.raw | mask;
        } else {
            self.raw = self.raw ^ mask;
        }
    }

    /// True where any bit of the line above is set.
    pub fn is_overline(&self) -> (set: bool)
        ensures
            set == self.has(Attribute::Overline),
    {
        (self.raw & B::mask(Attribute::Overline)) > 0
    }

    /// Sets the bits of the line above where `enabled` is true, and flips them
    /// where it is false.
    pub fn set_overline(&mut self, enabled: bool)
        ensures
            final(self).bits() == flag_set(
                old(self).bits(),
                B::mask_of(Attribute::Overline),
                enabled,
            ),
            final(self).color() == old(self).color(),
    {
        let mask = B::mask(Attribute::Overline);
        if enabled {
            self.raw = self.raw | mask;
        } else {
            self.raw = self.raw ^ mask;
        }
    }

    /// True where any bit of reverse video is set.
    pub fn is_reverse(&self) -> (set: bool)
        ensures
            set == self.has(Attribute::Reverse),
    {
        (self.raw & B::mask(Attribute::Reverse)) > 0
    }

    /// Sets the bits of reverse video where `enabled` is true, and flips them
    /// where it is false.
    pub fn set_reverse(&mut self, enabled: bool)
        ensures
            final(self).bits() == flag_set(
                old(self).bits(),
                B::mask_of(Attribute::Reverse),
                enabled,
            ),
            final(self).color() == old(self).color(),
    {
        let mask = B::mask(Attribute::Reverse);
        if enabled {
            self.raw = self.raw | mask;
        } else {
            self.raw = self.raw ^ mask;
        }
    }

    /// True where any bit of the line on the right is set.
    pub fn is_rightline(&self) -> (set: bool)
        ensures
            set == self.has(Attribute::Rightline),
    {
        (self.raw & B::mask(Attribute::Rightline)) > 0
    }

    /// Sets the bits of the line on the right where `enabled` is true, and
    /// flips them where it is false.
    pub fn set_rightline(&mut self, enabled: bool)
        ensures
            final(self).bits() == flag_set(
                old(self).bits(),
                B::mask_of(Attribute::Rightline),
                enabled,
            ),
            final(self).color() == old(self).color(),
    {
        let mask = B::mask(Attribute::Rightline);
        if enabled {
            self.raw = self.raw | mask;
        } else {
            self.raw = self.raw ^ mask;
        }
    }

    /// True where any bit of strike-out is set.
    pub fn is_strikeout(&self) -> (set: bool)
        ensures
            set == self.has(Attribute::Strikeout),
    {
        (self.raw & B::mask(Attribute::Strikeout)) > 0
    }

    /// Sets the bits of strike-out where `enabled` is true, and flips them
    /// where it is false.
    pub fn set_strikeout(&mut self, enabled: bool)
        ensures
            final(self).bits() == flag_set(
                old(self).bits(),
                B::mask_of(Attribute::Strikeout),
                enabled,
            ),
            final(self).color() == old(self).color(),
    {
        let mask = B::mask(Attribute::Strikeout);
        if enabled {
            self.raw = self.raw | mask;
        } else {
            self.raw = self.raw ^ mask;
        }
    }

    /// True where any bit of underline is set.
    pub fn is_underline(&self) -> (set: bool)
        ensures
            set == self.has(Attribute::Underline),
    {
        (self.raw & B::mask(Attribute::Underline)) > 0
    }

    /// Sets the bits of underline where `enabled` is true, and flips them where
    /// it is false.
    pub fn set_underline(&mut self, enabled: bool)
        ensures
            final(self).bits() == flag_set(
                old(self).bits(),
                B::mask_of(Attribute::Underline),
                enabled,
            ),
            final(self).color() == old(self).color(),
    {
        let mask = B::mask(Attribute::Underline);
        if enabled {
            self.raw = self.raw | mask;
        } else {
            self.raw = self.raw ^ mask;
        }
    }

    /// True where no bit is set.
    pub fn is_normal(&self) -> (normal: bool)
        ensures
            normal == self.has(Attribute::Normal),
    {
        self.raw == 0
    }

    /// Clears every bit of the word, those of the color pair too. The color
    /// pair that [`Attributes::color_pair`] reports stays.
    pub fn set_normal(&mut self)
        ensures
            final(self).bits() == 0,
            final(self).color() == old(self).color(),
    {
        self.raw = 0
    }

    /// The color pair that was set last.
    pub fn color_pair(&self) -> (pair: ColorPair)
        ensures
            pair == self.color(),
    {
        self.color_pair
    }

    /// Replaces the color pair: the color field of the word is cleared and
    /// filled with the bits of `color_pair`, and every other bit stays.
    pub fn set_color_pair(&mut self, color_pair: ColorPair)
        ensures
            final(self).bits() == bits_with_pair::<B>(old(self).bits(), color_pair),
            final(self).bits() & B::color_mask() == B::color_field(color_pair.0),
            final(self).bits() & !B::color_mask() == old(self).bits() & !B::color_mask(),
            final(self).color() == color_pair,
    {
        let mask = B::color();
        let field = B::color_pair_bits(color_pair.0);
        proof {
            B::lemma_color_field_in_mask(color_pair.0);
            lemma_replace_field(self.raw, mask, field);
        }
        self.raw = (self.raw & !mask) | field;
        self.color_pair = color_pair;
    }

    /// This set with one attribute added. Adding `Normal` clears the word.
    pub fn with_attribute(self, attribute: Attribute) -> (set: Attributes<B>)
        ensures
            set.bits() == bits_with::<B>(self.bits(), attribute),
            set.color() == self.color(),
    {
        let mut set = self;
        match attribute {
            Attribute::AlternativeCharSet => set.set_alternative_char_set(true),
            Attribute::Bold => set.set_bold(true),
            Attribute::Blink => set.set_blink(true),
            Attribute::CharText => set.set_char_text(true),
            Attribute::Dim => set.set_dim(true),
            Attribute::Leftline => set.set_leftline(true),
            Attribute::Invisible => set.set_invisible(true),
            Attribute::Italic => set.set_italic(true),
            Attribute::Overline => set.set_overline(true),
            Attribute::Reverse => set.set_reverse(true),
            Attribute::Rightline => set.set_rightline(true),
            Attribute::Strikeout => set.set_strikeout(true),
            Attribute::Underline => set.set_underline(true),
            Attribute::Normal => set.set_normal(),
        }
        set
    }

    /// This set with the bits of one attribute flipped, which removes an
    /// attribute that is set. Toggling `Normal` changes nothing.
    pub fn toggle_attribute(self, attribute: Attribute) -> (set: Attributes<B>)
        ensures
            set.bits() == bits_without::<B>(self.bits(), attribute),
            set.color() == self.color(),
    {
        let mut set = self;
        match attribute {
            Attribute::AlternativeCharSet => set.set_alternative_char_set(false),
            Attribute::Bold => set.set_bold(false),
            Attribute::Blink => set.set_blink(false),
            Attribute::CharText => set.set_char_text(false),
            Attribute::Dim => set.set_dim(false),
            Attribute::Leftline => set.set_leftline(false),
            Attribute::Invisible => set.set_invisible(false),
            Attribute::Italic => set.set_italic(false),
            Attribute::Overline => set.set_overline(false),
            Attribute::Reverse => set.set_reverse(false),
            Attribute::Rightline => set.set_rightline(false),
            Attribute::Strikeout => set.set_strikeout(false),
            Attribute::Underline => set.set_underline(false),
            Attribute::Normal => (),
        }
        set
    }

    /// This set with a color pair. See [`Attributes::set_color_pair`].
    pub fn with_color_pair(self, color_pair: ColorPair) -> (set: Attributes<B>)
        ensures
            set.bits() == bits_with_pair::<B>(self.bits(), color_pair),
            set.bits() & B::color_mask() == B::color_field(color_pair.0),
            set.bits() & !B::color_mask() == self.bits() & !B::color_mask(),
            set.color() == color_pair,
    {
        let mut set = self;
        set.set_color_pair(color_pair);
        set
    }

    /// The union of two sets: the bitwise or of the two words, color fields
    /// included, and of the two color pairs. No pair takes precedence, so the
    /// result names a sensible pair only where at most one operand carries a
    /// pair other than 0, or both carry the same.
    pub fn union(self, other: Attributes<B>) -> (set: Attributes<B>)
        ensures
            set.bits() == self.bits() | other.bits(),
            set.color().0 == self.color().0 | other.color().0,
    {
        Attributes {
            raw: self.raw | other.raw,
            color_pair: ColorPair(self.color_pair.0 | other.color_pair.0),
            backend: self.backend,
        }
    }

    /// This set with every bit of `other` flipped, which removes the
    /// attributes of `other` that are set here and adds those that are not:
    /// the bitwise exclusive or of the two words and of the two color pairs.
    pub fn remove(self, other: Attributes<B>) -> (set: Attributes<B>)
        ensures
            set.bits() == self.bits() ^ other.bits(),
            set.color().0 == self.color().0 ^ other.color().0,
    {
        Attributes {
            raw: self.raw ^ other.raw,
            color_pair: ColorPair(self.color_pair.0 ^ other.color_pair.0),
            backend: self.backend,
        }
    }

    /// The set that holds one attribute.
    pub fn from_attribute(attribute: Attribute) -> (set: Attributes<B>)
        ensures
            set.bits() == bits_with::<B>(0, attribute),
            set.color() == ColorPair(0),
    {
        Attributes::new().with_attribute(attribute)
    }
}

/// `set | attribute` is [`Attributes::with_attribute`].
impl<B: Backend> BitOr<Attribute> for Attributes<B> {
    type Output = Attributes<B>;

    fn bitor(self, rhs: Attribute) -> (set: Attributes<B>)
        ensures
            set.bits() == bits_with::<B>(self.bits(), rhs),
            set.color() == self.color(),
    {
        let set = self.with_attribute(rhs);
        proof {
            B::lemma_one_value(set.backend, self.backend);
        }
        set
    }
}

impl<B: Backend> BitOrSpecImpl<Attribute> for Attributes<B> {
    open spec fn obeys_bitor_spec() -> bool {
        true
    }

    open spec fn bitor_req(self, rhs: Attribute) -> bool {
        true
    }

    closed spec fn bitor_spec(self, rhs: Attribute) -> Attributes<B> {
        Attributes {
            raw: bits_with::<B>(self.raw, rhs),
            color_pair: self.color_pair,
            backend: self.backend,
        }
    }
}

/// `set ^ attribute` is [`Attributes::toggle_attribute`].
impl<B: Backend> BitXor<Attribute> for Attributes<B> {
    type Output = Attributes<B>;

    fn bitxor(self, rhs: Attribute) -> (set: Attributes<B>)
        ensures
            set.bits() == bits_without::<B>(self.bits(), rhs),
            set.color() == self.color(),
    {
        let set = self.toggle_attribute(rhs);
        proof {
            B::lemma_one_value(set.backend, self.backend);
        }
        set
    }
}

impl<B: Backend> BitXorSpecImpl<Attribute> for Attributes<B> {
    open spec fn obeys_bitxor_spec() -> bool {
        true
    }

    open spec fn bitxor_req(self, rhs: Attribute) -> bool {
        true
    }

    closed spec fn bitxor_spec(self, rhs: Attribute) -> Attributes<B> {
        Attributes {
            raw: bits_without::<B>(self.raw, rhs),
            color_pair: self.color_pair,
            backend: self.backend,
        }
    }
}

/// `set | other` is [`Attributes::union`].
impl<B: Backend> BitOr for Attributes<B> {
    type Output = Attributes<B>;

    fn bitor(self, rhs: Attributes<B>) -> (set: Attributes<B>)
        ensures
            set.bits() == self.bits() | rhs.bits(),
            set.color().0 == self.color().0 | rhs.color().0,
    {
        let set = self.union(rhs);
        proof {
            B::lemma_one_value(set.backend, self.backend);
        }
        set
    }
}

impl<B: Backend> BitOrSpecImpl for Attributes<B> {
    open spec fn obeys_bitor_spec() -> bool {
        true
    }

    open spec fn bitor_req(self, rhs: Attributes<B>) -> bool {
        true
    }

    closed spec fn bitor_spec(self, rhs: Attributes<B>) -> Attributes<B> {
        Attributes {
            raw: self.raw | rhs.raw,
            color_pair: ColorPair(self.color_pair.0 | rhs.color_pair.0),
            backend: self.backend,
        }
    }
}

/// `set ^ other` is [`Attributes::remove`].
impl<B: Backend> BitXor for Attributes<B> {
    type Output = Attributes<B>;

    fn bitxor(self, rhs: Attributes<B>) -> (set: Attributes<B>)
        ensures
            set.bits() == self.bits() ^ rhs.bits(),
            set.color().0 == self.color().0 ^ rhs.color().0,
    {
        let set = self.remove(rhs);
        proof {
            B::lemma_one_value(set.backend, self.backend);
        }
        set
    }
}

impl<B: Backend> BitXorSpecImpl for Attributes<B> {
    open spec fn obeys_bitxor_spec() -> bool {
        true
    }

    open spec fn bitxor_req(self, rhs: Attributes<B>) -> bool {
        true
    }

    closed spec fn bitxor_spec(self, rhs: Attributes<B>) -> Attributes<B> {
        Attributes {
            raw: self.raw ^ rhs.raw,
            color_pair: ColorPair(self.color_pair.0 ^ rhs.color_pair.0),
            backend: self.backend,
        }
    }
}

/// `set | color_pair` is [`Attributes::with_color_pair`].
impl<B: Backend> BitOr<ColorPair> for Attributes<B> {
    type Output = Attributes<B>;

    fn bitor(self, rhs: ColorPair) -> (set: Attributes<B>)
        ensures
            set.bits() == bits_with_pair::<B>(self.bits(), rhs),
            set.color() == rhs,
    {
        let set = self.with_color_pair(rhs);
        proof {
            B::lemma_one_value(set.backend, self.backend);
        }
        set
    }
}

impl<B: Backend> BitOrSpecImpl<ColorPair> for Attributes<B> {
    open spec fn obeys_bitor_spec() -> bool {
        true
    }

    open spec fn bitor_req(self, rhs: ColorPair) -> bool {
        true
    }

    closed spec fn bitor_spec(self, rhs: ColorPair) -> Attributes<B> {
        Attributes {
            raw: bits_with_pair::<B>(self.raw, rhs),
            color_pair: rhs,
            backend: self.backend,
        }
    }
}

/// The set that holds one attribute: [`Attributes::from_attribute`].
impl<B: Backend> From<Attribute> for Attributes<B> {
    fn from(attribute: Attribute) -> (set: Attributes<B>)
        ensures
            set.bits() == bits_with::<B>(0, attribute),
            set.color() == ColorPair(0),
    {
        let set = Attributes::from_attribute(attribute);
        proof {
            B::lemma_one_value(set.backend, arbitrary());
        }
        set
    }
}

impl<B: Backend> FromSpecImpl<Attribute> for Attributes<B> {
    open spec fn obeys_from_spec() -> bool {
        true
    }

    closed spec fn from_spec(attribute: Attribute) -> Attributes<B> {
        Attributes {
            raw: bits_with::<B>(0, attribute),
            color_pair: ColorPair(0),
            backend: arbitrary(),
        }
    }
}

/// The native attribute word of a set: [`Attributes::to_chtype`].
impl<B: Backend> From<Attributes<B>> for chtype {
    fn from(attributes: Attributes<B>) -> (word: chtype) {
        attributes.to_chtype()
    }
}

impl<B: Backend> FromSpecImpl<Attributes<B>> for chtype {
    open spec fn obeys_from_spec() -> bool {
        true
    }

    open spec fn from_spec(attributes: Attributes<B>) -> chtype {
        attributes.bits()
    }
}

impl Attribute {
    /// The set that holds this attribute and another, added in that order.
    pub fn combine<B: Backend>(self, other: Attribute) -> (set: Attributes<B>)
        ensures
            set.bits() == bits_with::<B>(bits_with::<B>(0, self), other),
            set.color() == ColorPair(0),
    {
        Attributes::new().with_attribute(self).with_attribute(other)
    }

    /// The native attribute word of the set that holds this attribute alone.
    pub fn to_chtype<B: Backend>(self) -> (word: chtype)
        ensures
            word == bits_with::<B>(0, self),
    {
        Attributes::<B>::from_attribute(self).to_chtype()
    }
}

proof fn lemma_switch_apart(bits: chtype, changed: chtype, other: chtype)
    by (bit_vector)
    requires
        changed & other == 0,
    ensures
        (bits | changed) & other == bits & other,
        (bits ^ changed) & other == bits & other,
{
}

proof fn lemma_set_and_flip(bits: chtype, mask: chtype)
    by (bit_vector)
    requires
        bits & mask == 0,
    ensures
        (bits | mask) ^ mask == bits,
{
}

/// Attribute isolation: switching the bits of one attribute, on or off,
/// leaves the bits of every attribute that shares none with it as they were.
pub proof fn lemma_flag_isolation(bits: chtype, changed: chtype, other: chtype, enabled: bool)
    requires
        changed & other == 0,
    ensures
        flag_set(bits, changed, enabled) & other == bits & other,
{
    lemma_switch_apart(bits, changed, other);
}

/// Attribute isolation on sets: after one attribute was switched, a set has
/// every attribute that shares no bit with it exactly where it had it before.
/// `Normal`, which looks at the whole word, is no such attribute.
pub proof fn lemma_other_attribute_unaffected<B: Backend>(
    before: Attributes<B>,
    after: Attributes<B>,
    changed: Attribute,
    other: Attribute,
    enabled: bool,
)
    requires
        after.bits() == flag_set(before.bits(), B::mask_of(changed), enabled),
        B::mask_of(changed) & B::mask_of(other) == 0,
        other != Attribute::Normal,
    ensures
        after.has(other) == before.has(other),
{
    lemma_switch_apart(before.bits(), B::mask_of(changed), B::mask_of(other));
}

/// Setting an attribute that was not set and then toggling it off gives the
/// word back as it was.
pub proof fn lemma_set_then_remove(bits: chtype, mask: chtype)
    requires
        bits & mask == 0,
    ensures
        flag_set(flag_set(bits, mask, true), mask, false) == bits,
{
    lemma_set_and_flip(bits, mask);
}

/// Color-pair isolation: switching an attribute, on or off, leaves the color
/// field of the word as it was.
pub proof fn lemma_flag_keeps_color<B: Backend>(bits: chtype, attribute: Attribute, enabled: bool)
    ensures
        flag_set(bits, B::mask_of(attribute), enabled) & B::color_mask() == bits & B::color_mask(),
{
    B::lemma_flags_outside_color(attribute);
    lemma_switch_apart(bits, B::mask_of(attribute), B::color_mask());
}

/// An attribute without bits, as a backend has it for what it does not
/// support, is never reported and changes nothing when it is switched.
pub proof fn lemma_unsupported_is_inert(bits: chtype, enabled: bool)
    ensures
        flag_set(bits, 0, enabled) == bits,
        bits & 0 == 0,
{
    lemma_no_bits(bits);
}

proof fn lemma_no_bits(bits: chtype)
    by (bit_vector)
    ensures
        bits | 0 == bits,
        bits ^ 0 == bits,
        bits & 0 == 0,
{
}

proof fn lemma_replace_field(bits: chtype, mask: chtype, field: chtype)
    by (bit_vector)
    requires
        field & !mask == 0,
    ensures
        ((bits & !mask) | field) & mask == field,
        ((bits & !mask) | field) & !mask == bits & !mask,
{
}

} // verus!
