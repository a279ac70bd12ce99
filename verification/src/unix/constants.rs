//! The constants of the byte-oriented backend: the attribute bits and key
//! codes of ncurses, and the table of its special keys.
use vstd::prelude::*;
use crate::backend::chtype;
use crate::input::Input;

verus! {

/// The bit of the alternative character set attribute.
pub const A_ALTCHARSET: chtype = 0x40_0000;

/// The bits that hold attributes and color.
pub const A_ATTRIBUTES: chtype = 0xffff_ff00;

/// The bit of the blink attribute.
pub const A_BLINK: chtype = 0x8_0000;

/// The bit of the bold attribute.
pub const A_BOLD: chtype = 0x20_0000;

/// The bits that hold the character.
pub const A_CHARTEXT: chtype = 0xff;

/// The field of the color pair.
pub const A_COLOR: chtype = 0xff00;

/// The bit of the dim attribute.
pub const A_DIM: chtype = 0x10_0000;

/// The bit of the invisible attribute.
pub const A_INVIS: chtype = 0x80_0000;

/// The bit of the italic attribute.
pub const A_ITALIC: chtype = 0x8000_0000;

/// The line on the left attribute, which this backend does not have: no bit.
pub const A_LEFTLINE: chtype = 0;

/// No attribute at all.
pub const A_NORMAL: chtype = 0;

/// The line above attribute, which this backend does not have: no bit.
pub const A_OVERLINE: chtype = 0;

/// The bit of the reverse video attribute.
pub const A_REVERSE: chtype = 0x4_0000;

/// The line on the right attribute, which this backend does not have: no bit.
pub const A_RIGHTLINE: chtype = 0;

/// The bit of the standout attribute.
pub const A_STANDOUT: chtype = 0x1_0000;

/// The strike-out attribute, which this backend does not have: no bit.
pub const A_STRIKEOUT: chtype = 0;

/// The bit of the underline attribute.
pub const A_UNDERLINE: chtype = 0x2_0000;

/// The bits of the color pair `n` in the native attribute word: the number
/// shifted into the color field, and cut to it.
pub open spec fn color_pair_field(n: chtype) -> chtype {
    (n << 8) & A_COLOR
}

/// The bits of the color pair `n` in the native attribute word.
#[allow(non_snake_case)]
pub fn COLOR_PAIR(n: chtype) -> (bits: chtype)
    ensures
        bits == color_pair_field(n),
{
    (n << 8) & A_COLOR
}

/// The first native code that stands for a special key.
pub const KEY_OFFSET: i32 = 0x100;

/// The native code of F15, the last function key that the table names.
pub const KEY_F15: i32 = KEY_OFFSET + 0x17;

/// The native code that reports a mouse event.
pub const KEY_MOUSE: i32 = 0x199;

/// The native code that reports that the terminal was resized.
pub const KEY_RESIZE: i32 = 0x19a;

/// The native code that reports another event.
pub const KEY_EVENT: i32 = 0x19b;

/// The special keys in the order of their native codes.
pub const SPECIAL_KEY_CODES: [Input; 108] = [
    Input::KeyCodeYes,
    Input::KeyBreak,
    Input::KeyDown,
    Input::KeyUp,
    Input::KeyLeft,
    Input::KeyRight,
    Input::KeyHome,
    Input::KeyBackspace,
    Input::KeyF0,
    Input::KeyF1,
    Input::KeyF2,
    Input::KeyF3,
    Input::KeyF4,
    Input::KeyF5,
    Input::KeyF6,
    Input::KeyF7,
    Input::KeyF8,
    Input::KeyF9,
    Input::KeyF10,
    Input::KeyF11,
    Input::KeyF12,
    Input::KeyF13,
    Input::KeyF14,
    Input::KeyF15,
    Input::KeyDL,
    Input::KeyIL,
    Input::KeyDC,
    Input::KeyIC,
    Input::KeyEIC,
    Input::KeyClear,
    Input::KeyEOS,
    Input::KeyEOL,
    Input::KeySF,
    Input::KeySR,
    Input::KeyNPage,
    Input::KeyPPage,
    Input::KeySTab,
    Input::KeyCTab,
    Input::KeyCATab,
    Input::KeyEnter,
    Input::KeySReset,
    Input::KeyReset,
    Input::KeyPrint,
    Input::KeyLL,
    Input::KeyA1,
    Input::KeyA3,
    Input::KeyB2,
    Input::KeyC1,
    Input::KeyC3,
    Input::KeyBTab,
    Input::KeyBeg,
    Input::KeyCancel,
    Input::KeyClose,
    Input::KeyCommand,
    Input::KeyCopy,
    Input::KeyCreate,
    Input::KeyEnd,
    Input::KeyExit,
    Input::KeyFind,
    Input::KeyHelp,
    Input::KeyMark,
    Input::KeyMessage,
    Input::KeyMove,
    Input::KeyNext,
    Input::KeyOpen,
    Input::KeyOptions,
    Input::KeyPrevious,
    Input::KeyRedo,
    Input::KeyReference,
    Input::KeyRefresh,
    Input::KeyReplace,
    Input::KeyRestart,
    Input::KeyResume,
    Input::KeySave,
    Input::KeySBeg,
    Input::KeySCancel,
    Input::KeySCommand,
    Input::KeySCopy,
    Input::KeySCreate,
    Input::KeySDC,
    Input::KeySDL,
    Input::KeySelect,
    Input::KeySEnd,
    Input::KeySEOL,
    Input::KeySExit,
    Input::KeySFind,
    Input::KeySHelp,
    Input::KeySHome,
    Input::KeySIC,
    Input::KeySLeft,
    Input::KeySMessage,
    Input::KeySMove,
    Input::KeySNext,
    Input::KeySOptions,
    Input::KeySPrevious,
    Input::KeySPrint,
    Input::KeySRedo,
    Input::KeySReplace,
    Input::KeySRight,
    Input::KeySResume,
    Input::KeySSave,
    Input::KeySSuspend,
    Input::KeySUndo,
    Input::KeySuspend,
    Input::KeyUndo,
    Input::KeyMouse,
    Input::KeyResize,
    Input::KeyEvent,
];

/// The largest native code that is taken for one byte of text.
pub const MAX_BYTE: i32 = 0xff;

/// The most bytes that are read for one character.
pub const MAX_BYTES: usize = 4;

} // verus!
