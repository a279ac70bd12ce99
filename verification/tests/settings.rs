use pancurses::windows::settings::{join_fields, open_settings, program_name, split_fields};

fn bytes(text: &str) -> Vec<u8> {
    text.as_bytes().to_vec()
}

#[test]
fn open_settings_of_the_usual_value() {
    assert_eq!(
        open_settings(b"80x25,12,0,0,1;25,25,80,80:Courier New"),
        Some(bytes("80x25,12,0,0,0;2,2147483647,2,2147483647"))
    );
}

#[test]
fn open_settings_of_a_value_that_is_open_already() {
    assert_eq!(
        open_settings(b"80x25,12,312,312,1;2,2147483647,2,2147483647:Courier New"),
        Some(bytes("80x25,12,312,312,0;2,2147483647,2,2147483647"))
    );
}

#[test]
fn open_settings_keeps_what_it_does_not_replace() {
    assert_eq!(
        open_settings(b"a,b,c,d,1;9;x,5,6,7,8,9"),
        Some(bytes("a,b,c,d,0;2;x,2147483647,2,2147483647,8,9"))
    );
    assert_eq!(
        open_settings(b",,,,;,,,"),
        Some(bytes(",,,,0;2,2147483647,2,2147483647"))
    );
    assert_eq!(
        open_settings("ä,ö,å,€,1;2,3,4,5".as_bytes()),
        Some(bytes("ä,ö,å,€,0;2,2147483647,2,2147483647"))
    );
}

#[test]
fn open_settings_of_a_value_without_the_fields() {
    assert_eq!(open_settings(b""), None);
    assert_eq!(open_settings(b"80x25,12,0,0,1;25,25,80"), None);
    assert_eq!(open_settings(b"80x25,12,0,0,1,25,80,80,7"), None);
    assert_eq!(open_settings(b"80x25;12;0;0;1;25;25;80;80"), None);
}

#[test]
fn split_fields_exact_values() {
    assert_eq!(split_fields(b"a,b", b','), vec![bytes("a"), bytes("b")]);
    assert_eq!(split_fields(b"", b','), vec![bytes("")]);
    assert_eq!(split_fields(b"abc", b','), vec![bytes("abc")]);
    assert_eq!(
        split_fields(b"a,,b", b','),
        vec![bytes("a"), bytes(""), bytes("b")]
    );
    assert_eq!(
        split_fields(b",a,", b','),
        vec![bytes(""), bytes("a"), bytes("")]
    );
    assert_eq!(split_fields(b"1;25", b';'), vec![bytes("1"), bytes("25")]);
}

#[test]
fn split_fields_agrees_with_std() {
    for text in ["", ",", "a", "a,b,,c", ",,", "80x25,12,0,0,1;25,25,80,80:Courier New"] {
        let expected: Vec<Vec<u8>> = text.split(',').map(|field| bytes(field)).collect();
        assert_eq!(split_fields(text.as_bytes(), b','), expected);
    }
}

#[test]
fn join_fields_exact_values() {
    assert_eq!(join_fields(&vec![], b','), bytes(""));
    assert_eq!(join_fields(&vec![bytes("a")], b','), bytes("a"));
    assert_eq!(join_fields(&vec![bytes("")], b','), bytes(""));
    assert_eq!(join_fields(&vec![bytes("a"), bytes("b")], b','), bytes("a,b"));
    assert_eq!(
        join_fields(&vec![bytes(""), bytes("a"), bytes("")], b';'),
        bytes(";a;")
    );
}

#[test]
fn joining_the_fields_of_a_text_gives_it_back() {
    for text in ["", ",", "a", "a,b,,c", ",,", "80x25,12,0,0,1;25,25,80,80:Courier New"] {
        let fields = split_fields(text.as_bytes(), b',');
        assert_eq!(join_fields(&fields, b','), bytes(text));
    }
}

#[test]
fn program_name_is_the_file_name_up_to_the_last_dot() {
    assert_eq!(program_name(b"demo.exe"), bytes("demo"));
    assert_eq!(program_name(b"a.b.exe"), bytes("a.b"));
    assert_eq!(program_name(b"demo."), bytes("demo"));
    assert_eq!(program_name(b".exe"), bytes(""));
    assert_eq!(program_name(b"demo"), bytes(""));
    assert_eq!(program_name(b""), bytes(""));
}
