//! The constants of the backend of 16-bit code units: the attribute bits and
//! key codes of PDCurses, and the table of its special keys.
use vstd::prelude::*;
use crate::backend::chtype;
use crate::input::Input;

verus! {

/// The bits of the native attribute word that hold the character.
pub const PDC_CHARTEXT_BITS: chtype = 21;

/// The bits below the color field.
pub const PDC_COLOR_SHIFT: chtype = PDC_CHARTEXT_BITS + 12;

/// The bit of the alternative character set attribute.
pub const A_ALTCHARSET: chtype = 0x20_0000;

/// The bit of the blink attribute.
pub const A_BLINK: chtype = 0x800_0000;

/// The bit of the bold attribute.
pub const A_BOLD: chtype = 0x1000_0000;

/// The bits that hold the character.
pub const A_CHARTEXT: chtype = 0x1f_ffff;

/// The field of the color pair.
pub const A_COLOR: chtype = 0xffff_fffe_0000_0000;

/// The bit of the dim attribute.
pub const A_DIM: chtype = 0x8000_0000;

/// The bit of the invisible attribute.
pub const A_INVIS: chtype = 0x100_0000;

/// The bit of the italic attribute: the one of the invisible attribute.
pub const A_ITALIC: chtype = A_INVIS;

/// The bit of the line on the left attribute.
pub const A_LEFTLINE: chtype = 0x80_0000;

/// No attribute at all.
pub const A_NORMAL: chtype = 0;

/// The bit of the line above attribute.
pub const A_OVERLINE: chtype = 0x2000_0000;

/// The bit of the reverse video attribute.
pub const A_REVERSE: chtype = 0x400_0000;

/// The bit of the line on the right attribute.
pub const A_RIGHTLINE: chtype = 0x40_0000;

/// The bit of the strike-out attribute.
pub const A_STRIKEOUT: chtype = 0x4000_0000;

/// The bit of the underline attribute.
pub const A_UNDERLINE: chtype = 0x200_0000;

/// The bits of the color pair `n` in the native attribute word: the number
/// shifted into the color field, and cut to it.
pub open spec fn color_pair_field(n: chtype) -> chtype {
    (n << 33) & A_COLOR
}

/// The bits of the color pair `n` in the native attribute word.
#[allow(non_snake_case)]
pub fn COLOR_PAIR(n: chtype) -> (bits: chtype)
    ensures
        bits == color_pair_field(n),
{
    (n << 33) & A_COLOR
}

/// The first native code that stands for a special key.
pub const KEY_OFFSET: i32 = 0xec00;

/// The native code of F15, the last function key that the table names.
pub const KEY_F15: i32 = KEY_OFFSET + 0x17;

/// The native code of the undo key, the last one that the table reaches.
pub const KEY_UNDO: i32 = KEY_OFFSET + 0x96;

/// The native code that reports that the terminal was resized.
pub const KEY_RESIZE: i32 = KEY_OFFSET + 0x122;

/// The native code that reports a mouse event.
pub const KEY_MOUSE: i32 = KEY_OFFSET + 0x11b;

/// The native code of the up arrow on the numeric keypad.
pub const KEY_NUMPAD_UP: i32 = KEY_OFFSET + 0xc2;

/// The native code of the down arrow on the numeric keypad.
pub const KEY_NUMPAD_DOWN: i32 = KEY_OFFSET + 0xc8;

/// The native code of the left arrow on the numeric keypad.
pub const KEY_NUMPAD_LEFT: i32 = KEY_OFFSET + 0xc4;

/// The native code of the right arrow on the numeric keypad.
pub const KEY_NUMPAD_RIGHT: i32 = KEY_OFFSET + 0xc6;

/// The native code of End on the numeric keypad.
pub const KEY_NUMPAD_END: i32 = KEY_OFFSET + 0xc7;

/// The native code of Home on the numeric keypad.
pub const KEY_NUMPAD_HOME: i32 = KEY_OFFSET + 0xc1;

/// The native code of Page Up on the numeric keypad.
pub const KEY_NUMPAD_PAGE_UP: i32 = KEY_OFFSET + 0xc3;

/// The native code of Page Down on the numeric keypad.
pub const KEY_NUMPAD_PAGE_DOWN: i32 = KEY_OFFSET + 0xc9;

/// The native code of Insert on the numeric keypad.
pub const KEY_NUMPAD_INSERT: i32 = KEY_OFFSET + 0xfa;

/// The native code of Delete on the numeric keypad.
pub const KEY_NUMPAD_DELETE: i32 = KEY_OFFSET + 0xce;

/// The native code of Enter on the numeric keypad.
pub const KEY_NUMPAD_ENTER: i32 = KEY_OFFSET + 0xcb;

/// The native code of plus on the numeric keypad.
pub const KEY_NUMPAD_PLUS: i32 = KEY_OFFSET + 0xd1;

/// The native code of minus on the numeric keypad.
pub const KEY_NUMPAD_MINUS: i32 = KEY_OFFSET + 0xd0;

/// The native code of the asterisk on the numeric keypad.
pub const KEY_NUMPAD_ASTERISK: i32 = KEY_OFFSET + 0xcf;

/// The native code of the slash on the numeric keypad.
pub const KEY_NUMPAD_SLASH: i32 = KEY_OFFSET + 0xca;

/// The special keys whose native codes follow one another, in the order of
/// those codes.
pub const SPECIAL_KEY_CODES: [Input; 102] = [
    Input::KeyCodeYes,
    Input::KeyBreak,
    Input::KeyDown,
    Input::KeyUp,
    Input::KeyLeft,
    Input::KeyRight,
    Input::KeyHome,
    Input::KeyBackspace,
    Input::KeyF0,
    Input::KeyF1,
    Input::KeyF2,
    Input::KeyF3,
    Input::KeyF4,
    Input::KeyF5,
    Input::KeyF6,
    Input::KeyF7,
    Input::KeyF8,
    Input::KeyF9,
    Input::KeyF10,
    Input::KeyF11,
    Input::KeyF12,
    Input::KeyF13,
    Input::KeyF14,
    Input::KeyF15,
    Input::KeyDL,
    Input::KeyIL,
    Input::KeyDC,
    Input::KeyIC,
    Input::KeyEIC,
    Input::KeyClear,
    Input::KeyEOS,
    Input::KeyEOL,
    Input::KeySF,
    Input::KeySR,
    Input::KeyNPage,
    Input::KeyPPage,
    Input::KeySTab,
    Input::KeyCTab,
    Input::KeyCATab,
    Input::KeyEnter,
    Input::KeySReset,
    Input::KeyReset,
    Input::KeyPrint,
    Input::KeyLL,
    Input::KeyAbort,
    Input::KeySHelp,
    Input::KeyLHelp,
    Input::KeyBTab,
    Input::KeyBeg,
    Input::KeyCancel,
    Input::KeyClose,
    Input::KeyCommand,
    Input::KeyCopy,
    Input::KeyCreate,
    Input::KeyEnd,
    Input::KeyExit,
    Input::KeyFind,
    Input::KeyHelp,
    Input::KeyMark,
    Input::KeyMessage,
    Input::KeyMove,
    Input::KeyNext,
    Input::KeyOpen,
    Input::KeyOptions,
    Input::KeyPrevious,
    Input::KeyRedo,
    Input::KeyReference,
    Input::KeyRefresh,
    Input::KeyReplace,
    Input::KeyRestart,
    Input::KeyResume,
    Input::KeySave,
    Input::KeySBeg,
    Input::KeySCancel,
    Input::KeySCommand,
    Input::KeySCopy,
    Input::KeySCreate,
    Input::KeySDC,
    Input::KeySDL,
    Input::KeySelect,
    Input::KeySEnd,
    Input::KeySEOL,
    Input::KeySExit,
    Input::KeySFind,
    Input::KeySHome,
    Input::KeySIC,
    Input::KeySLeft,
    Input::KeySMessage,
    Input::KeySMove,
    Input::KeySNext,
    Input::KeySOptions,
    Input::KeySPrevious,
    Input::KeySPrint,
    Input::KeySRedo,
    Input::KeySReplace,
    Input::KeySRight,
    Input::KeySResume,
    Input::KeySSave,
    Input::KeySSuspend,
    Input::KeySUndo,
    Input::KeySuspend,
    Input::KeyUndo,
];

/// The largest native code that is taken for one code unit of text.
pub const MAX_UNIT: i32 = 0xffff;

} // verus!
