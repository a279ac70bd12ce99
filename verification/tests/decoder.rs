use pancurses::unix;
use pancurses::windows;
use pancurses::{unget_status, Input, ERR, OK};

// A stand-in for the backend's input queue: what is pushed back last is read
// first, and a read from the empty queue reports that there is no input.
fn unix_unget(queue: &mut Vec<i32>, input: &Input) -> i32 {
    let codes = unix::ungetch_codes(input);
    let mut statuses = Vec::new();
    for code in codes.iter() {
        queue.push(*code);
        statuses.push(OK);
    }
    match input {
        Input::Character(_) => unget_status(&statuses),
        _ => statuses[0],
    }
}

fn unix_getch(queue: &mut Vec<i32>) -> Option<Input> {
    let mut step = unix::first_read(queue.pop().unwrap_or(ERR));
    loop {
        match step {
            unix::Reading::Done(event) => return event,
            unix::Reading::More(pending) => {
                step = unix::next_read(pending, queue.pop().unwrap_or(ERR));
            }
        }
    }
}

fn windows_unget(queue: &mut Vec<i32>, input: &Input) -> i32 {
    let codes = windows::ungetch_codes(input);
    let mut statuses = Vec::new();
    for code in codes.iter() {
        queue.push(*code);
        statuses.push(OK);
    }
    match input {
        Input::Character(_) => unget_status(&statuses),
        _ => statuses[0],
    }
}

fn windows_getch(queue: &mut Vec<i32>) -> Option<Input> {
    let mut step = windows::first_read(queue.pop().unwrap_or(ERR));
    loop {
        match step {
            windows::Reading::Done(event) => return event,
            windows::Reading::More(pending) => {
                step = windows::next_read(pending, queue.pop().unwrap_or(ERR));
            }
        }
    }
}

#[test]
fn test_ungetch() {
    let mut w: Vec<i32> = Vec::new();

    let chars = [
        'a', 'b', 'c', 'ä', 'ö', 'å', 'A', 'B', 'C', 'Ä', 'Ö', 'Å', '𤭢', '𐍈', '€', 'ᚠ', 'ᛇ', 'ᚻ',
        'þ', 'ð', 'γ', 'λ', 'ώ', 'б', 'е', 'р', 'ვ', 'ე', 'პ', 'ხ', 'இ', 'ங', 'க', 'ಬ', 'ಇ', 'ಲ',
        'ಸ',
    ];

    chars.iter().for_each(|c| {
        unix_unget(&mut w, &Input::Character(*c));
        assert_eq!(unix_getch(&mut w).unwrap(), Input::Character(*c));
    });

    unix::SPECIAL_KEY_CODES.iter().for_each(|i| {
        unix_unget(&mut w, i);
        assert_eq!(unix_getch(&mut w).unwrap(), *i);
    });

    assert!(w.is_empty());
}

#[test]
fn mod_test_ungetch() {
    let mut w: Vec<i32> = Vec::new();

    let chars = [
        'a', 'b', 'c', 'ä', 'ö', 'å', 'A', 'B', 'C', 'Ä', 'Ö', 'Å', '𤭢', '𐍈', '€', 'ᚠ', 'ᛇ', 'ᚻ',
        'þ', 'ð', 'γ', 'λ', 'ώ', 'б', 'е', 'р', 'ვ', 'ე', 'პ', 'ხ', 'இ', 'ங', 'க', 'ಬ', 'ಇ', 'ಲ',
        'ಸ',
    ];

    chars.iter().for_each(|c| {
        windows_unget(&mut w, &Input::Character(*c));
        assert_eq!(windows_getch(&mut w).unwrap(), Input::Character(*c));
    });

    windows::SPECIAL_KEY_CODES.iter().for_each(|i| {
        windows_unget(&mut w, i);
        assert_eq!(windows_getch(&mut w).unwrap(), *i);
    });

    assert!(w.is_empty());
}

#[test]
fn encode_of_the_letter_a_is_97() {
    assert_eq!(unix::ungetch_codes(&Input::Character('a')), vec![97]);
    assert_eq!(windows::ungetch_codes(&Input::Character('a')), vec![97]);
}

#[test]
fn unix_pushes_the_bytes_of_a_character_last_byte_first() {
    assert_eq!(
        unix::ungetch_codes(&Input::Character('€')),
        vec![0xAC, 0x82, 0xE2]
    );
    assert_eq!(unix::ungetch_codes(&Input::Character('ä')), vec![0xA4, 0xC3]);
    assert_eq!(
        unix::ungetch_codes(&Input::Character('𐍈')),
        vec![0x88, 0x8D, 0x90, 0xF0]
    );
}

#[test]
fn windows_pushes_the_units_of_a_character_last_unit_first() {
    assert_eq!(windows::ungetch_codes(&Input::Character('€')), vec![0x20AC]);
    assert_eq!(
        windows::ungetch_codes(&Input::Character('𐍈')),
        vec![0xDF48, 0xD800]
    );
}

#[test]
fn unknown_is_pushed_as_it_is() {
    assert_eq!(unix::ungetch_codes(&Input::Unknown(1000)), vec![1000]);
    assert_eq!(unix::ungetch_codes(&Input::Unknown(-7)), vec![-7]);
    assert_eq!(windows::ungetch_codes(&Input::Unknown(0x12345)), vec![0x12345]);
}

#[test]
fn special_keys_are_pushed_as_their_code() {
    assert_eq!(unix::ungetch_codes(&Input::KeyUp), vec![0o403]);
    assert_eq!(unix::ungetch_codes(&Input::KeyDL), vec![0o510]);
    assert_eq!(unix::ungetch_codes(&Input::KeyResize), vec![unix::KEY_RESIZE]);
    assert_eq!(windows::ungetch_codes(&Input::KeyResize), vec![windows::KEY_RESIZE]);
    assert_eq!(windows::ungetch_codes(&Input::KeyMouse), vec![windows::KEY_MOUSE]);
    assert_eq!(windows::ungetch_codes(&Input::KeyUp), vec![0xec03]);
}

#[test]
fn unknown_passes_through_on_unix() {
    let mut w: Vec<i32> = Vec::new();
    for raw in [0x118, 0x12f, 0x19c, 1000, 70000, i32::MAX] {
        unix_unget(&mut w, &Input::Unknown(raw));
        assert_eq!(unix_getch(&mut w), Some(Input::Unknown(raw)));
    }
}

#[test]
fn unknown_passes_through_on_windows() {
    let mut w: Vec<i32> = Vec::new();
    for raw in [0x10000, 0x12345, i32::MAX] {
        windows_unget(&mut w, &Input::Unknown(raw));
        assert_eq!(windows_getch(&mut w), Some(Input::Unknown(raw)));
    }
}

#[test]
fn no_input_is_no_event() {
    assert_eq!(unix::first_read(ERR), unix::Reading::Done(None));
    assert_eq!(unix::first_read(-5), unix::Reading::Done(None));
    assert_eq!(windows::first_read(ERR), windows::Reading::Done(None));
    let mut w: Vec<i32> = Vec::new();
    assert_eq!(unix_getch(&mut w), None);
    assert_eq!(windows_getch(&mut w), None);
}

#[test]
fn unix_first_read_of_a_key_or_an_ascii_byte_is_done() {
    assert_eq!(
        unix::first_read(0o403),
        unix::Reading::Done(Some(Input::KeyUp))
    );
    assert_eq!(
        unix::first_read(97),
        unix::Reading::Done(Some(Input::Character('a')))
    );
    assert_eq!(
        unix::first_read(0),
        unix::Reading::Done(Some(Input::Character('\0')))
    );
    assert_eq!(
        unix::first_read(0x7f),
        unix::Reading::Done(Some(Input::Character('\u{7f}')))
    );
}

#[test]
fn unix_reads_a_character_byte_by_byte() {
    assert_eq!(unix::first_read(0xE2), unix::Reading::More(vec![0xE2]));
    assert_eq!(
        unix::next_read(vec![0xE2], 0x82),
        unix::Reading::More(vec![0xE2, 0x82])
    );
    assert_eq!(
        unix::next_read(vec![0xE2, 0x82], 0xAC),
        unix::Reading::Done(Some(Input::Character('€')))
    );
}

#[test]
fn unix_gives_up_after_the_fourth_byte_with_the_last_read() {
    assert_eq!(unix::first_read(0xFF), unix::Reading::More(vec![0xFF]));
    assert_eq!(
        unix::next_read(vec![0xFF], 0x80),
        unix::Reading::More(vec![0xFF, 0x80])
    );
    assert_eq!(
        unix::next_read(vec![0xFF, 0x80], 0x81),
        unix::Reading::More(vec![0xFF, 0x80, 0x81])
    );
    assert_eq!(
        unix::next_read(vec![0xFF, 0x80, 0x81], 0x82),
        unix::Reading::Done(Some(Input::Unknown(0x82)))
    );
    let mut w: Vec<i32> = vec![0x41, 0x41, 0x41, 0xC0];
    assert_eq!(unix_getch(&mut w), Some(Input::Unknown(0x41)));
    assert!(w.is_empty());
}

#[test]
fn unix_takes_the_low_byte_of_a_further_read() {
    assert_eq!(
        unix::next_read(vec![0xC3], 0x1A4),
        unix::Reading::Done(Some(Input::Character('ä')))
    );
    assert_eq!(
        unix::next_read(vec![0xC3], ERR),
        unix::Reading::More(vec![0xC3, 0xFF])
    );
}

#[test]
fn unix_rejects_overlong_and_surrogate_encodings() {
    assert_eq!(
        unix::next_read(vec![0xC0], 0x80),
        unix::Reading::More(vec![0xC0, 0x80])
    );
    assert_eq!(
        unix::next_read(vec![0xED, 0xA0], 0x80),
        unix::Reading::More(vec![0xED, 0xA0, 0x80])
    );
    assert_eq!(
        unix::next_read(vec![0xF4, 0x90, 0x80], 0x80),
        unix::Reading::Done(Some(Input::Unknown(0x80)))
    );
}

#[test]
fn windows_first_read_of_a_unit() {
    assert_eq!(
        windows::first_read(97),
        windows::Reading::Done(Some(Input::Character('a')))
    );
    assert_eq!(
        windows::first_read(0x20AC),
        windows::Reading::Done(Some(Input::Character('€')))
    );
    assert_eq!(windows::first_read(0xD800), windows::Reading::More(0xD800));
    assert_eq!(windows::first_read(0xDBFF), windows::Reading::More(0xDBFF));
    assert_eq!(
        windows::first_read(0xDC00),
        windows::Reading::Done(Some(Input::Unknown(0xDC00)))
    );
    assert_eq!(
        windows::first_read(0xDF48),
        windows::Reading::Done(Some(Input::Unknown(0xDF48)))
    );
    assert_eq!(
        windows::first_read(0xec03),
        windows::Reading::Done(Some(Input::KeyUp))
    );
    assert_eq!(
        windows::first_read(windows::KEY_NUMPAD_PLUS),
        windows::Reading::Done(Some(Input::Character('+')))
    );
}

#[test]
fn windows_second_read_completes_a_pair_or_is_unknown() {
    assert_eq!(
        windows::next_read(0xD800, 0xDF48),
        windows::Reading::Done(Some(Input::Character('𐍈')))
    );
    assert_eq!(
        windows::next_read(0xD852, 0xDF62),
        windows::Reading::Done(Some(Input::Character('𤭢')))
    );
    assert_eq!(
        windows::next_read(0xD800, 0x41),
        windows::Reading::Done(Some(Input::Unknown(0x41)))
    );
    assert_eq!(
        windows::next_read(0xDF48, 0xD800),
        windows::Reading::Done(Some(Input::Unknown(0xD800)))
    );
    assert_eq!(
        windows::next_read(0xD800, ERR),
        windows::Reading::Done(Some(Input::Unknown(ERR)))
    );
}

#[test]
fn windows_codes_in_the_reach_of_the_table_without_an_entry_are_unknown() {
    assert_eq!(
        windows::first_read(windows::KEY_F15 + 1),
        windows::Reading::Done(Some(Input::Unknown(windows::KEY_F15 + 1)))
    );
    assert_eq!(
        windows::first_read(windows::KEY_UNDO - 1),
        windows::Reading::Done(Some(Input::KeyUndo))
    );
    assert_eq!(
        windows::first_read(windows::KEY_UNDO),
        windows::Reading::Done(Some(Input::Character('\u{ec96}')))
    );
    assert_eq!(
        windows::first_read(windows::KEY_OFFSET - 1),
        windows::Reading::Done(Some(Input::Character('\u{ebff}')))
    );
    let mut w: Vec<i32> = Vec::new();
    windows_unget(&mut w, &Input::Unknown(windows::KEY_F15 + 2));
    assert_eq!(windows_getch(&mut w), Some(Input::Unknown(windows::KEY_F15 + 2)));
    windows_unget(&mut w, &Input::Unknown(0xDC01));
    assert_eq!(windows_getch(&mut w), Some(Input::Unknown(0xDC01)));
}

#[test]
fn unix_codes_in_the_reach_of_the_table_without_an_entry_are_unknown() {
    assert_eq!(
        unix::first_read(unix::KEY_F15 + 1),
        unix::Reading::Done(Some(Input::Unknown(unix::KEY_F15 + 1)))
    );
    assert_eq!(
        unix::first_read(unix::KEY_EVENT + 1),
        unix::Reading::Done(Some(Input::Unknown(unix::KEY_EVENT + 1)))
    );
}

#[test]
fn a_character_that_is_a_key_code_on_windows_comes_back_as_the_key() {
    let mut w: Vec<i32> = Vec::new();
    windows_unget(&mut w, &Input::Character('\u{ec03}'));
    assert_eq!(windows_getch(&mut w), Some(Input::KeyUp));
}

#[test]
fn unget_status_is_the_least_status_and_at_most_ok() {
    assert_eq!(unget_status(&[]), 0);
    assert_eq!(unget_status(&[OK]), OK);
    assert_eq!(unget_status(&[OK, ERR, OK]), ERR);
    assert_eq!(unget_status(&[5, 3]), 0);
    assert_eq!(unget_status(&[-2, -9, -4]), -9);
    assert_eq!(OK, 0);
    assert_eq!(ERR, -1);
}

#[test]
fn unix_has_no_blink_switch_and_no_title() {
    assert_eq!(unix::_set_blink(true), 0);
    assert_eq!(unix::_set_blink(false), 0);
    unix::_set_title("title");
}
