//! The symbols of the alternative character set of PDCurses.
use vstd::prelude::*;
use crate::backend::chtype;
use crate::windows::constants::A_ALTCHARSET;

verus! {

/// The word that draws `symbol` from the alternative character set.
pub open spec fn alternative(symbol: char) -> chtype {
    (symbol as chtype) | A_ALTCHARSET
}

fn from_alternative_set(symbol: char) -> (word: chtype)
    ensures
        word == alternative(symbol),
{
    (symbol as chtype) | A_ALTCHARSET
}

/// The word that draws the lower right corner.
#[allow(non_snake_case)]
pub fn ACS_LRCORNER() -> (word: chtype)
    ensures
        word == alternative('V'),
{
    from_alternative_set('V')
}

/// The word that draws the upper right corner.
#[allow(non_snake_case)]
pub fn ACS_URCORNER() -> (word: chtype)
    ensures
        word == alternative('W'),
{
    from_alternative_set('W')
}

/// The word that draws the upper left corner.
#[allow(non_snake_case)]
pub fn ACS_ULCORNER() -> (word: chtype)
    ensures
        word == alternative('X'),
{
    from_alternative_set('X')
}

/// The word that draws the lower left corner.
#[allow(non_snake_case)]
pub fn ACS_LLCORNER() -> (word: chtype)
    ensures
        word == alternative('Y'),
{
    from_alternative_set('Y')
}

/// The word that draws the crossing.
#[allow(non_snake_case)]
pub fn ACS_PLUS() -> (word: chtype)
    ensures
        word == alternative('Z'),
{
    from_alternative_set('Z')
}

/// The word that draws the tee pointing right.
#[allow(non_snake_case)]
pub fn ACS_LTEE() -> (word: chtype)
    ensures
        word == alternative('['),
{
    from_alternative_set('[')
}

/// The word that draws the tee pointing left.
#[allow(non_snake_case)]
pub fn ACS_RTEE() -> (word: chtype)
    ensures
        word == alternative('\\'),
{
    from_alternative_set('\\')
}

/// The word that draws the tee pointing up.
#[allow(non_snake_case)]
pub fn ACS_BTEE() -> (word: chtype)
    ensures
        word == alternative(']'),
{
    from_alternative_set(']')
}

/// The word that draws the tee pointing down.
#[allow(non_snake_case)]
pub fn ACS_TTEE() -> (word: chtype)
    ensures
        word == alternative('^'),
{
    from_alternative_set('^')
}

/// The word that draws the horizontal line.
#[allow(non_snake_case)]
pub fn ACS_HLINE() -> (word: chtype)
    ensures
        word == alternative('_'),
{
    from_alternative_set('_')
}

/// The word that draws the vertical line.
#[allow(non_snake_case)]
pub fn ACS_VLINE() -> (word: chtype)
    ensures
        word == alternative('`'),
{
    from_alternative_set('`')
}

/// The word that draws scan line 1.
#[allow(non_snake_case)]
pub fn ACS_S1() -> (word: chtype)
    ensures
        word == alternative('l'),
{
    from_alternative_set('l')
}

/// The word that draws scan line 9.
#[allow(non_snake_case)]
pub fn ACS_S9() -> (word: chtype)
    ensures
        word == alternative('o'),
{
    from_alternative_set('o')
}

/// The word that draws the diamond.
#[allow(non_snake_case)]
pub fn ACS_DIAMOND() -> (word: chtype)
    ensures
        word == alternative('j'),
{
    from_alternative_set('j')
}

/// The word that draws the stipple pattern.
#[allow(non_snake_case)]
pub fn ACS_CKBOARD() -> (word: chtype)
    ensures
        word == alternative('k'),
{
    from_alternative_set('k')
}

/// The word that draws the degree sign.
#[allow(non_snake_case)]
pub fn ACS_DEGREE() -> (word: chtype)
    ensures
        word == alternative('w'),
{
    from_alternative_set('w')
}

/// The word that draws the plus-minus sign.
#[allow(non_snake_case)]
pub fn ACS_PLMINUS() -> (word: chtype)
    ensures
        word == alternative('x'),
{
    from_alternative_set('x')
}

/// The word that draws the bullet.
#[allow(non_snake_case)]
pub fn ACS_BULLET() -> (word: chtype)
    ensures
        word == alternative('h'),
{
    from_alternative_set('h')
}

/// The word that draws the arrow pointing left.
#[allow(non_snake_case)]
pub fn ACS_LARROW() -> (word: chtype)
    ensures
        word == alternative('!'),
{
    from_alternative_set('!')
}

/// The word that draws the arrow pointing right.
#[allow(non_snake_case)]
pub fn ACS_RARROW() -> (word: chtype)
    ensures
        word == alternative(' '),
{
    from_alternative_set(' ')
}

/// The word that draws the arrow pointing down.
#[allow(non_snake_case)]
pub fn ACS_DARROW() -> (word: chtype)
    ensures
        word == alternative('#'),
{
    from_alternative_set('#')
}

/// The word that draws the arrow pointing up.
#[allow(non_snake_case)]
pub fn ACS_UARROW() -> (word: chtype)
    ensures
        word == alternative('"'),
{
    from_alternative_set('"')
}

/// The word that draws the board of squares.
#[allow(non_snake_case)]
pub fn ACS_BOARD() -> (word: chtype)
    ensures
        word == alternative('+'),
{
    from_alternative_set('+')
}

/// The word that draws the lantern.
#[allow(non_snake_case)]
pub fn ACS_LANTERN() -> (word: chtype)
    ensures
        word == alternative('z'),
{
    from_alternative_set('z')
}

/// The word that draws the solid block.
#[allow(non_snake_case)]
pub fn ACS_BLOCK() -> (word: chtype)
    ensures
        word == alternative('t'),
{
    from_alternative_set('t')
}

/// The word that draws scan line 3.
#[allow(non_snake_case)]
pub fn ACS_S3() -> (word: chtype)
    ensures
        word == alternative('m'),
{
    from_alternative_set('m')
}

/// The word that draws scan line 7.
#[allow(non_snake_case)]
pub fn ACS_S7() -> (word: chtype)
    ensures
        word == alternative('n'),
{
    from_alternative_set('n')
}

/// The word that draws less-than-or-equal.
#[allow(non_snake_case)]
pub fn ACS_LEQUAL() -> (word: chtype)
    ensures
        word == alternative('u'),
{
    from_alternative_set('u')
}

/// The word that draws greater-than-or-equal.
#[allow(non_snake_case)]
pub fn ACS_GEQUAL() -> (word: chtype)
    ensures
        word == alternative('v'),
{
    from_alternative_set('v')
}

/// The word that draws pi.
#[allow(non_snake_case)]
pub fn ACS_PI() -> (word: chtype)
    ensures
        word == alternative('$'),
{
    from_alternative_set('$')
}

/// The word that draws not-equal.
#[allow(non_snake_case)]
pub fn ACS_NEQUAL() -> (word: chtype)
    ensures
        word == alternative('%'),
{
    from_alternative_set('%')
}

/// The word that draws the pound sign.
#[allow(non_snake_case)]
pub fn ACS_STERLING() -> (word: chtype)
    ensures
        word == alternative('~'),
{
    from_alternative_set('~')
}

/// The word that draws the upper left corner, under the name that spells out its arms.
#[allow(non_snake_case)]
pub fn ACS_BSSB() -> (word: chtype)
    ensures
        word == alternative('X'),
{
    ACS_ULCORNER()
}

/// The word that draws the lower left corner, under the name that spells out its arms.
#[allow(non_snake_case)]
pub fn ACS_SSBB() -> (word: chtype)
    ensures
        word == alternative('Y'),
{
    ACS_LLCORNER()
}

/// The word that draws the upper right corner, under the name that spells out its arms.
#[allow(non_snake_case)]
pub fn ACS_BBSS() -> (word: chtype)
    ensures
        word == alternative('W'),
{
    ACS_URCORNER()
}

/// The word that draws the lower right corner, under the name that spells out its arms.
#[allow(non_snake_case)]
pub fn ACS_SBBS() -> (word: chtype)
    ensures
        word == alternative('V'),
{
    ACS_LRCORNER()
}

/// The word that draws the tee pointing left, under the name that spells out its arms.
#[allow(non_snake_case)]
pub fn ACS_SBSS() -> (word: chtype)
    ensures
        word == alternative('\\'),
{
    ACS_RTEE()
}

/// The word that draws the tee pointing right, under the name that spells out its arms.
#[allow(non_snake_case)]
pub fn ACS_SSSB() -> (word: chtype)
    ensures
        word == alternative('['),
{
    ACS_LTEE()
}

/// The word that draws the tee pointing up, under the name that spells out its arms.
#[allow(non_snake_case)]
pub fn ACS_SSBS() -> (word: chtype)
    ensures
        word == alternative(']'),
{
    ACS_BTEE()
}

/// The word that draws the tee pointing down, under the name that spells out its arms.
#[allow(non_snake_case)]
pub fn ACS_BSSS() -> (word: chtype)
    ensures
        word == alternative('^'),
{
    ACS_TTEE()
}

/// The word that draws the horizontal line, under the name that spells out its arms.
#[allow(non_snake_case)]
pub fn ACS_BSBS() -> (word: chtype)
    ensures
        word == alternative('_'),
{
    ACS_HLINE()
}

/// The word that draws the vertical line, under the name that spells out its arms.
#[allow(non_snake_case)]
pub fn ACS_SBSB() -> (word: chtype)
    ensures
        word == alternative('`'),
{
    ACS_VLINE()
}

/// The word that draws the crossing, under the name that spells out its arms.
#[allow(non_snake_case)]
pub fn ACS_SSSS() -> (word: chtype)
    ensures
        word == alternative('Z'),
{
    ACS_PLUS()
}

} // verus!
