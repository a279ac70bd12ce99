//! The window settings that PDCurses keeps for a program.
//!
//! The settings are one line of text,
//! `<cols>x<rows>,<font_size>,<x_loc>,<y_loc>,<menu_shown>;<min_lines>,<max_lines>,<min_cols>,<max_cols>:<font_name>`,
//! for example `80x25,12,312,312,1;2,2147483647,2,2147483647:Courier New`.
//! [`open_settings`] gives the line that hides the menu and lets the window be
//! resized without limit. The line is kept under the name of the program,
//! which [`program_name`] takes from the name of its file. Both work on
//! bytes: the separators are ASCII, so the bytes of a field are the field.
use vstd::prelude::*;

verus! {

/// The fields of a text that `separator` divides. A text without the
/// separator is one field, and so is the empty text; a separator at an end
/// leaves an empty field there.
pub open spec fn split(text: Seq<u8>, separator: u8) -> Seq<Seq<u8>>
    decreases text.len(),
{
    if text.len() == 0 {
        seq![Seq::<u8>::empty()]
    } else {
        let before = split(text.drop_last(), separator);
        if text.last() == separator {
            before.push(Seq::empty())
        } else {
            before.update(before.len() - 1, before.last().push(text.last()))
        }
    }
}

/// The text that has the given fields, with `separator` between each two.
pub open spec fn join(fields: Seq<Seq<u8>>, separator: u8) -> Seq<u8>
    decreases fields.len(),
{
    if fields.len() == 0 {
        Seq::empty()
    } else if fields.len() == 1 {
        fields[0]
    } else {
        join(fields.drop_last(), separator).push(separator) + fields.last()
    }
}

/// What each of the given vectors holds.
pub open spec fn views(fields: Seq<Vec<u8>>) -> Seq<Seq<u8>> {
    Seq::new(fields.len(), |i: int| fields[i]@)
}

/// The text `0`: the menu is not shown.
pub open spec fn hidden() -> Seq<u8> {
    seq![0x30u8]
}

/// The text `2`: the least number of lines or columns.
pub open spec fn least() -> Seq<u8> {
    seq![0x32u8]
}

/// The text `2147483647`: the largest number of lines or columns.
pub open spec fn most() -> Seq<u8> {
    seq![0x32u8, 0x31u8, 0x34u8, 0x37u8, 0x34u8, 0x38u8, 0x33u8, 0x36u8, 0x34u8, 0x37u8]
}

/// True for the settings that have the eight fields and, in the fifth, the
/// two parts that [`opened`] replaces.
pub open spec fn can_open(settings: Seq<u8>) -> bool {
    &&& split(settings, 0x2cu8).len() >= 8
    &&& split(split(settings, 0x2cu8)[4], 0x3bu8).len() >= 2
}

/// The settings with the menu hidden and the limits on resizing lifted: the
/// two parts of the fifth field become `0` and `2`, and the three fields
/// after it `2147483647`, `2` and `2147483647`. The eighth field is replaced
/// whole, with the name of the font that follows the number in it.
pub open spec fn opened(settings: Seq<u8>) -> Seq<u8> {
    let fields = split(settings, 0x2cu8);
    let menu = split(fields[4], 0x3bu8).update(0, hidden()).update(1, least());
    join(
        fields.update(4, join(menu, 0x3bu8)).update(5, most()).update(6, least()).update(
            7,
            most(),
        ),
        0x2cu8,
    )
}

/// The name of a file up to its last `.`; nothing where it has none.
pub open spec fn stem(file_name: Seq<u8>) -> Seq<u8>
    decreases file_name.len(),
{
    if file_name.len() == 0 {
        file_name
    } else if file_name.last() == 0x2eu8 {
        file_name.drop_last()
    } else {
        stem(file_name.drop_last())
    }
}

/// The name under which the settings of a program are kept: the name of its
/// file up to the last `.`, and the empty name for a file name without one.
pub fn program_name(file_name: &[u8]) -> (name: Vec<u8>)
    ensures
        name@ == stem(file_name@),
{
    let mut end: usize = file_name.len();
    assert(file_name@.take(end as int) =~= file_name@);
    while end > 0 && file_name[end - 1] != 0x2eu8
        invariant
            end <= file_name@.len(),
            stem(file_name@) == stem(file_name@.take(end as int)),
        decreases end,
    {
        proof {
            assert(file_name@.take(end as int).drop_last() =~= file_name@.take(end - 1));
        }
        end -= 1;
    }
    let mut name: Vec<u8> = Vec::new();
    if end > 0 {
        let mut i: usize = 0;
        while i < end - 1
            invariant
                0 < end <= file_name@.len(),
                i <= end - 1,
                name@ == file_name@.take(i as int),
            decreases end - i,
        {
            name.push(file_name[i]);
            i += 1;
            assert(file_name@.take(i as int) =~= file_name@.take(i - 1).push(
                file_name@[i - 1],
            ));
        }
        proof {
            assert(file_name@.take(end as int).drop_last() =~= file_name@.take(end - 1));
        }
    } else {
        assert(file_name@.take(0) =~= Seq::<u8>::empty());
        assert(name@ =~= Seq::<u8>::empty());
    }
    name
}

/// Splitting never gives less than one field.
pub proof fn lemma_split_is_not_empty(text: Seq<u8>, separator: u8)
    ensures
        split(text, separator).len() >= 1,
    decreases text.len(),
{
    if text.len() > 0 {
        lemma_split_is_not_empty(text.drop_last(), separator);
    }
}

/// Joining the fields of a text gives the text back.
pub proof fn lemma_join_of_split(text: Seq<u8>, separator: u8)
    ensures
        join(split(text, separator), separator) == text,
    decreases text.len(),
{
    if text.len() == 0 {
        assert(join(split(text, separator), separator) =~= text);
    } else {
        let shorter = text.drop_last();
        let before = split(shorter, separator);
        lemma_join_of_split(shorter, separator);
        lemma_split_is_not_empty(shorter, separator);
        if text.last() == separator {
            let fields = before.push(Seq::empty());
            assert(fields.drop_last() =~= before);
            assert(join(fields, separator) =~= shorter.push(separator));
        } else {
            let grown = before.last().push(text.last());
            let fields = before.update(before.len() - 1, grown);
            if before.len() == 1 {
                assert(join(fields, separator) =~= shorter.push(text.last()));
            } else {
                assert(fields.drop_last() =~= before.drop_last());
                assert(join(fields, separator) =~= shorter.push(text.last()));
            }
        }
        assert(shorter.push(text.last()) =~= text);
    }
}

/// Divides `text` at each `separator`.
pub fn split_fields(text: &[u8], separator: u8) -> (fields: Vec<Vec<u8>>)
    ensures
        views(fields@) == split(text@, separator),
{
    let mut done: Vec<Vec<u8>> = Vec::new();
    let mut current: Vec<u8> = Vec::new();
    let mut i: usize = 0;
    assert(views(done@).push(current@) =~= split(text@.take(0), separator));
    while i < text.len()
        invariant
            i <= text@.len(),
            views(done@).push(current@) == split(text@.take(i as int), separator),
        decreases text@.len() - i,
    {
        let byte = text[i];
        let ghost before = views(done@).push(current@);
        let ghost done_before = done@;
        let ghost current_before = current@;
        proof {
            assert(text@.take(i + 1).drop_last() =~= text@.take(i as int));
            assert(text@.take(i + 1).last() == byte);
        }
        if byte == separator {
            done.push(current);
            current = Vec::new();
            assert(views(done@) =~= before);
            assert(views(done@).push(current@) =~= before.push(Seq::empty()));
        } else {
            current.push(byte);
            assert(views(done@).push(current@) =~= before.update(
                before.len() - 1,
                before.last().push(byte),
            ));
        }
        i += 1;
    }
    proof {
        assert(text@.take(i as int) =~= text@);
    }
    let ghost last = current@;
    let ghost sofar = views(done@);
    done.push(current);
    assert(views(done@) =~= sofar.push(last));
    done
}

/// Puts the fields together, with `separator` between each two.
pub fn join_fields(fields: &Vec<Vec<u8>>, separator: u8) -> (text: Vec<u8>)
    ensures
        text@ == join(views(fields@), separator),
{
    let mut text: Vec<u8> = Vec::new();
    let mut i: usize = 0;
    assert(views(fields@).take(0) =~= Seq::<Seq<u8>>::empty());
    while i < fields.len()
        invariant
            i <= fields@.len(),
            text@ == join(views(fields@).take(i as int), separator),
        decreases fields@.len() - i,
    {
        let ghost taken = views(fields@).take(i + 1);
        proof {
            assert(taken.drop_last() =~= views(fields@).take(i as int));
            assert(taken.last() == fields@[i as int]@);
        }
        if i > 0 {
            text.push(separator);
        }
        let ghost start = text@;
        let field = &fields[i];
        let mut j: usize = 0;
        while j < field.len()
            invariant
                j <= field@.len(),
                text@ == start + field@.take(j as int),
            decreases field@.len() - j,
        {
            text.push(field[j]);
            j += 1;
            assert(start + field@.take(j as int) =~= (start + field@.take(j - 1)).push(
                field@[j - 1],
            ));
        }
        proof {
            assert(field@.take(j as int) =~= field@);
            if i == 0 {
                assert(start + field@ =~= field@);
            }
        }
        i += 1;
    }
    proof {
        assert(views(fields@).take(i as int) =~= views(fields@));
    }
    text
}

fn hidden_text() -> (text: Vec<u8>)
    ensures
        text@ == hidden(),
{
    let mut text: Vec<u8> = Vec::new();
    text.push(0x30u8);
    assert(text@ =~= hidden());
    text
}

fn least_text() -> (text: Vec<u8>)
    ensures
        text@ == least(),
{
    let mut text: Vec<u8> = Vec::new();
    text.push(0x32u8);
    assert(text@ =~= least());
    text
}

fn most_text() -> (text: Vec<u8>)
    ensures
        text@ == most(),
{
    let mut text: Vec<u8> = Vec::new();
    text.push(0x32u8);
    text.push(0x31u8);
    text.push(0x34u8);
    text.push(0x37u8);
    text.push(0x34u8);
    text.push(0x38u8);
    text.push(0x33u8);
    text.push(0x36u8);
    text.push(0x34u8);
    text.push(0x37u8);
    assert(text@ =~= most());
    text
}

/// The settings with the menu hidden and the limits on resizing lifted, or
/// `None` for settings that lack a field to replace.
pub fn open_settings(settings: &[u8]) -> (changed: Option<Vec<u8>>)
    ensures
        changed is Some <==> can_open(settings@),
        changed is Some ==> changed.unwrap()@ == opened(settings@),
{
    let mut fields = split_fields(settings, 0x2cu8);
    if fields.len() < 8 {
        return None;
    }
    assert(views(fields@)[4] == fields@[4]@);
    let mut menu = split_fields(fields[4].as_slice(), 0x3bu8);
    if menu.len() < 2 {
        return None;
    }
    let ghost fields_before = views(fields@);
    let ghost menu_before = views(menu@);
    menu.set(0, hidden_text());
    menu.set(1, least_text());
    assert(views(menu@) =~= menu_before.update(0, hidden()).update(1, least()));
    let menu_text = join_fields(&menu, 0x3bu8);
    fields.set(4, menu_text);
    fields.set(5, most_text());
    fields.set(6, least_text());
    fields.set(7, most_text());
    assert(views(fields@) =~= fields_before.update(4, join(views(menu@), 0x3bu8)).update(
        5,
        most(),
    ).update(6, least()).update(7, most()));
    Some(join_fields(&fields, 0x2cu8))
}

} // verus!
