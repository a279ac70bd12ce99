use pancurses::keytable::{code_at, find_code, find_key, lookup, reaches};
use pancurses::unix;
use pancurses::windows;
use pancurses::Input;

#[test]
fn test_key_dl_to_special_keycode() {
    let key_dl = 0o510;
    assert_eq!(Input::KeyDL, unix::to_special_keycode(key_dl).unwrap());
}

#[test]
fn test_key_f15_to_input() {
    let key_f15 = 0o410 + 15;
    assert_eq!(Input::KeyF15, unix::to_special_keycode(key_f15).unwrap());
}

#[test]
fn test_key_up_to_input() {
    let key_up = 0o403;
    assert_eq!(Input::KeyUp, unix::to_special_keycode(key_up).unwrap());
}

#[test]
fn mod_test_key_dl_to_special_keycode() {
    assert_eq!(
        Input::KeyDL,
        windows::to_special_keycode(windows::KEY_OFFSET + 0x48).unwrap()
    );
}

#[test]
fn mod_test_key_f15_to_input() {
    assert_eq!(
        Input::KeyF15,
        windows::to_special_keycode(windows::KEY_OFFSET + 0x08 + 15).unwrap()
    );
}

#[test]
fn mod_test_key_up_to_input() {
    assert_eq!(
        Input::KeyUp,
        windows::to_special_keycode(windows::KEY_OFFSET + 3).unwrap()
    );
}

#[test]
fn unix_table_has_108_entries_and_windows_102() {
    assert_eq!(unix::SPECIAL_KEY_CODES.len(), 108);
    assert_eq!(windows::SPECIAL_KEY_CODES.len(), 102);
}

#[test]
fn unix_constants_have_the_native_values() {
    assert_eq!(unix::KEY_OFFSET, 0o400);
    assert_eq!(unix::KEY_F15, 0o427);
    assert_eq!(unix::KEY_MOUSE, 0o631);
    assert_eq!(unix::KEY_RESIZE, 0o632);
    assert_eq!(unix::KEY_EVENT, 0o633);
}

#[test]
fn windows_constants_have_the_native_values() {
    assert_eq!(windows::KEY_OFFSET, 0xec00);
    assert_eq!(windows::KEY_F15, 0xec17);
    assert_eq!(windows::KEY_UNDO, 0xec96);
    assert_eq!(windows::KEY_MOUSE, 0xed1b);
    assert_eq!(windows::KEY_RESIZE, 0xed22);
    assert_eq!(windows::KEY_NUMPAD_UP, 60610);
    assert_eq!(windows::KEY_NUMPAD_INSERT, 60666);
    assert_eq!(windows::KEY_NUMPAD_SLASH, 60618);
}

#[test]
fn unix_codes_outside_the_table_have_no_key() {
    assert_eq!(unix::to_special_keycode(unix::KEY_OFFSET - 1), None);
    assert_eq!(unix::to_special_keycode(0), None);
    assert_eq!(unix::to_special_keycode(97), None);
    assert_eq!(unix::to_special_keycode(-1), None);
    assert_eq!(unix::to_special_keycode(i32::MIN), None);
    assert_eq!(unix::to_special_keycode(i32::MAX), None);
    assert_eq!(unix::to_special_keycode(unix::KEY_EVENT + 1), None);
}

#[test]
fn unix_first_and_last_entries() {
    assert_eq!(unix::to_special_keycode(unix::KEY_OFFSET), Some(Input::KeyCodeYes));
    assert_eq!(unix::to_special_keycode(unix::KEY_MOUSE), Some(Input::KeyMouse));
    assert_eq!(unix::to_special_keycode(unix::KEY_RESIZE), Some(Input::KeyResize));
    assert_eq!(unix::to_special_keycode(unix::KEY_EVENT), Some(Input::KeyEvent));
    assert_eq!(unix::to_special_keycode(0o630), Some(Input::KeyUndo));
}

#[test]
fn codes_just_above_f15_have_no_key() {
    assert_eq!(unix::to_special_keycode(unix::KEY_F15 + 1), None);
    assert_eq!(unix::to_special_keycode(unix::KEY_F15 + 24), None);
    assert_eq!(windows::to_special_keycode(windows::KEY_F15 + 1), None);
}

#[test]
fn codes_in_the_gap_are_taken_48_lower() {
    assert_eq!(
        unix::to_special_keycode(unix::KEY_OFFSET + 48),
        Some(Input::KeyCodeYes)
    );
    assert_eq!(
        unix::to_special_keycode(unix::KEY_OFFSET + 48 + 3),
        Some(Input::KeyUp)
    );
}

#[test]
fn unix_density_every_index_decodes_to_its_entry() {
    for (index, key) in unix::SPECIAL_KEY_CODES.iter().enumerate() {
        let code = code_at(index, unix::KEY_OFFSET, unix::KEY_F15);
        let expected = if index <= 0x17 {
            unix::KEY_OFFSET + index as i32
        } else {
            unix::KEY_OFFSET + index as i32 + 48
        };
        assert_eq!(code, expected);
        assert_eq!(unix::to_special_keycode(code), Some(*key));
    }
}

#[test]
fn windows_density_every_index_decodes_to_its_entry() {
    for (index, key) in windows::SPECIAL_KEY_CODES.iter().enumerate() {
        let code = code_at(index, windows::KEY_OFFSET, windows::KEY_F15);
        assert_eq!(windows::to_special_keycode(code), Some(*key));
    }
}

#[test]
fn unix_round_trip_of_every_key_in_the_table() {
    for key in unix::SPECIAL_KEY_CODES.iter() {
        let code = unix::special_keycode(*key).unwrap();
        assert_eq!(unix::to_special_keycode(code), Some(*key));
    }
}

#[test]
fn windows_round_trip_of_every_key_it_knows() {
    for key in windows::SPECIAL_KEY_CODES.iter() {
        let code = windows::special_keycode(*key).unwrap();
        assert_eq!(windows::to_special_keycode(code), Some(*key));
    }
    assert_eq!(windows::special_keycode(Input::KeyResize), Some(windows::KEY_RESIZE));
    assert_eq!(windows::special_keycode(Input::KeyMouse), Some(windows::KEY_MOUSE));
    assert_eq!(
        windows::to_special_keycode(windows::KEY_RESIZE),
        Some(Input::KeyResize)
    );
    assert_eq!(
        windows::to_special_keycode(windows::KEY_MOUSE),
        Some(Input::KeyMouse)
    );
}

#[test]
fn special_keycode_exact_values() {
    assert_eq!(unix::special_keycode(Input::KeyUp), Some(0o403));
    assert_eq!(unix::special_keycode(Input::KeyF15), Some(0o427));
    assert_eq!(unix::special_keycode(Input::KeyDL), Some(0o510));
    assert_eq!(unix::special_keycode(Input::KeyMouse), Some(0o631));
    assert_eq!(windows::special_keycode(Input::KeyDL), Some(0xec48));
    assert_eq!(windows::special_keycode(Input::KeyF0), Some(0xec08));
}

#[test]
fn keys_without_a_code() {
    assert_eq!(unix::special_keycode(Input::KeyAbort), None);
    assert_eq!(unix::special_keycode(Input::KeyLHelp), None);
    assert_eq!(unix::special_keycode(Input::Character('a')), None);
    assert_eq!(unix::special_keycode(Input::Unknown(5)), None);
    assert_eq!(windows::special_keycode(Input::KeyA1), None);
    assert_eq!(windows::special_keycode(Input::KeyEvent), None);
    assert_eq!(windows::special_keycode(Input::Character('a')), None);
}

#[test]
fn windows_numpad_codes_give_the_keys_of_the_main_block() {
    assert_eq!(windows::to_special_keycode(windows::KEY_NUMPAD_UP), Some(Input::KeyUp));
    assert_eq!(windows::to_special_keycode(windows::KEY_NUMPAD_DOWN), Some(Input::KeyDown));
    assert_eq!(windows::to_special_keycode(windows::KEY_NUMPAD_LEFT), Some(Input::KeyLeft));
    assert_eq!(windows::to_special_keycode(windows::KEY_NUMPAD_RIGHT), Some(Input::KeyRight));
    assert_eq!(windows::to_special_keycode(windows::KEY_NUMPAD_END), Some(Input::KeyEnd));
    assert_eq!(windows::to_special_keycode(windows::KEY_NUMPAD_HOME), Some(Input::KeyHome));
    assert_eq!(windows::to_special_keycode(windows::KEY_NUMPAD_PAGE_UP), Some(Input::KeyPPage));
    assert_eq!(windows::to_special_keycode(windows::KEY_NUMPAD_PAGE_DOWN), Some(Input::KeyNPage));
    assert_eq!(windows::to_special_keycode(windows::KEY_NUMPAD_INSERT), Some(Input::KeyIC));
    assert_eq!(windows::to_special_keycode(windows::KEY_NUMPAD_DELETE), Some(Input::KeyDC));
    assert_eq!(
        windows::to_special_keycode(windows::KEY_NUMPAD_ENTER),
        Some(Input::Character('\n'))
    );
    assert_eq!(
        windows::to_special_keycode(windows::KEY_NUMPAD_PLUS),
        Some(Input::Character('+'))
    );
    assert_eq!(
        windows::to_special_keycode(windows::KEY_NUMPAD_MINUS),
        Some(Input::Character('-'))
    );
    assert_eq!(
        windows::to_special_keycode(windows::KEY_NUMPAD_ASTERISK),
        Some(Input::Character('*'))
    );
    assert_eq!(
        windows::to_special_keycode(windows::KEY_NUMPAD_SLASH),
        Some(Input::Character('/'))
    );
}

#[test]
fn windows_codes_outside_have_no_key() {
    assert_eq!(windows::to_special_keycode(windows::KEY_OFFSET - 1), None);
    assert_eq!(windows::to_special_keycode(97), None);
    assert_eq!(windows::to_special_keycode(-1), None);
    assert_eq!(windows::to_special_keycode(windows::KEY_UNDO), None);
    assert_eq!(windows::to_special_keycode(windows::KEY_UNDO - 1), Some(Input::KeyUndo));
}

#[test]
fn lookup_in_a_small_table() {
    let table = [Input::KeyUp, Input::KeyDown, Input::KeyLeft];
    assert_eq!(lookup(&table, 10, 10, 11), Some(Input::KeyUp));
    assert_eq!(lookup(&table, 11, 10, 11), Some(Input::KeyDown));
    assert_eq!(lookup(&table, 12, 10, 11), None);
    assert_eq!(lookup(&table, 60, 10, 11), Some(Input::KeyLeft));
    assert_eq!(lookup(&table, 61, 10, 11), None);
    assert_eq!(lookup(&table, 9, 10, 11), None);
}

#[test]
fn find_key_gives_the_first_position() {
    let table = [Input::KeyUp, Input::KeyDown, Input::KeyUp];
    assert_eq!(find_key(&table, Input::KeyUp), Some(0));
    assert_eq!(find_key(&table, Input::KeyDown), Some(1));
    assert_eq!(find_key(&table, Input::KeyLeft), None);
    assert_eq!(find_key(&[], Input::KeyLeft), None);
}

#[test]
fn find_code_adds_the_gap_behind_f15() {
    let table = [Input::KeyUp, Input::KeyDown, Input::KeyLeft];
    assert_eq!(find_code(&table, Input::KeyDown, 10, 11), Some(11));
    assert_eq!(find_code(&table, Input::KeyLeft, 10, 11), Some(60));
    assert_eq!(find_code(&table, Input::KeyRight, 10, 11), None);
}

#[test]
fn reach_of_a_table() {
    let table = [Input::KeyUp, Input::KeyDown, Input::KeyLeft];
    assert!(!reaches(&table, 9, 10));
    assert!(reaches(&table, 10, 10));
    assert!(reaches(&table, 12, 10));
    assert!(reaches(&table, 60, 10));
    assert!(!reaches(&table, 61, 10));
    assert!(!reaches(&table, i32::MIN, 10));
    assert!(!reaches(&table, i32::MAX, 10));
    assert!(reaches(&windows::SPECIAL_KEY_CODES, windows::KEY_UNDO - 1, windows::KEY_OFFSET));
    assert!(!reaches(&windows::SPECIAL_KEY_CODES, windows::KEY_UNDO, windows::KEY_OFFSET));
}
