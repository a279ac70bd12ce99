//! Arithmetic shared by the backends' special-key tables.
//!
//! A backend numbers its special keys from an offset upwards, in the order of
//! its table. Both native libraries keep room for 64 function keys where the
//! tables name only F0 to F15, so the codes above F15 lie 48 further than the
//! table index alone would put them. Every function here takes the offset and
//! the code of F15 as arguments, and both directions use the same two
//! formulas, so a table and its codes cannot drift apart.
use vstd::prelude::*;
use crate::input::Input;

verus! {

/// Native codes that lie unused between F15 and the key that follows it in a
/// table.
pub const FUNCTION_KEY_GAP: i32 = 48;

/// The table index that a native code stands for: the distance from the
/// offset, less the gap for codes above F15. The result may lie outside the
/// table.
pub open spec fn key_index(raw: int, offset: int, f15: int) -> int {
    if raw <= f15 {
        raw - offset
    } else {
        raw - offset - FUNCTION_KEY_GAP as int
    }
}

/// The native code of the table entry at `index`: the inverse of
/// [`key_index`].
pub open spec fn key_code(index: int, offset: int, f15: int) -> int {
    if index + offset <= f15 {
        index + offset
    } else {
        index + offset + FUNCTION_KEY_GAP as int
    }
}

/// The special key that `raw` maps to, if its index falls inside the table.
pub open spec fn table_lookup(table: Seq<Input>, raw: int, offset: int, f15: int) -> Option<Input> {
    let index = key_index(raw, offset, f15);
    if 0 <= index < table.len() {
        Some(table[index])
    } else {
        None
    }
}

/// True for the native codes that a table of `length` entries reaches: from
/// the offset up to the code of the last entry. Not every code in reach has
/// an entry: those just above F15 have none.
pub open spec fn in_reach(length: nat, raw: int, offset: int) -> bool {
    offset <= raw < offset + length + FUNCTION_KEY_GAP as int
}

/// `position` is the first index at which `table` holds `key`.
pub open spec fn is_first_position(table: Seq<Input>, key: Input, position: int) -> bool {
    &&& 0 <= position < table.len()
    &&& table[position] == key
    &&& forall|j: int| 0 <= j < position ==> table[j] != key
}

/// The first index at which `table` holds `key`; meaningful only where the
/// table contains the key.
pub open spec fn first_position(table: Seq<Input>, key: Input) -> int {
    choose|position: int| is_first_position(table, key, position)
}

/// The native code under which `key` is pushed back: the code of its first
/// table entry.
pub open spec fn table_code(table: Seq<Input>, key: Input, offset: int, f15: int) -> int {
    key_code(first_position(table, key), offset, f15)
}

/// A key has at most one first position, so [`first_position`] is that one.
pub proof fn lemma_first_position_unique(table: Seq<Input>, key: Input, position: int)
    requires
        is_first_position(table, key, position),
    ensures
        first_position(table, key) == position,
{
    let chosen = first_position(table, key);
    assert(is_first_position(table, key, chosen));
    if chosen < position {
        assert(table[chosen] != key);
    } else if position < chosen {
        assert(table[position] != key);
    }
}

/// Every key that a table contains has a first position.
pub proof fn lemma_contained_has_first_position(table: Seq<Input>, key: Input)
    requires
        table.contains(key),
    ensures
        is_first_position(table, key, first_position(table, key)),
    decreases table.len(),
{
    let i = choose|i: int| 0 <= i < table.len() && table[i] == key;
    if exists|j: int| 0 <= j < i && table[j] == key {
        let j = choose|j: int| 0 <= j < i && table[j] == key;
        let shorter = table.subrange(0, i);
        assert(shorter[j] == key);
        lemma_contained_has_first_position(shorter, key);
        let p = first_position(shorter, key);
        assert(table[p] == shorter[p]);
        assert forall|k: int| 0 <= k < p implies table[k] != key by {
            assert(table[k] == shorter[k]);
        }
        assert(is_first_position(table, key, p));
    } else {
        assert(is_first_position(table, key, i));
    }
}

/// The index of a code computed from an index is that index again.
pub proof fn lemma_key_index_of_key_code(index: int, offset: int, f15: int)
    ensures
        key_index(key_code(index, offset, f15), offset, f15) == index,
{
}

/// Table density: the code of every index of a table maps to the entry at
/// that index.
pub proof fn lemma_lookup_of_key_code(table: Seq<Input>, index: int, offset: int, f15: int)
    requires
        0 <= index < table.len(),
    ensures
        table_lookup(table, key_code(index, offset, f15), offset, f15) == Some(table[index]),
{
}

/// Round trip: the code under which a contained key is pushed back maps to
/// that key.
pub proof fn lemma_lookup_of_table_code(table: Seq<Input>, key: Input, offset: int, f15: int)
    requires
        table.contains(key),
    ensures
        table_lookup(table, table_code(table, key, offset, f15), offset, f15) == Some(key),
{
    lemma_contained_has_first_position(table, key);
}

/// Where no key occurs twice in a table, a code that maps to a key is the
/// code under which that key is pushed back, unless the code lies in the gap
/// above F15.
pub proof fn lemma_table_code_of_lookup(table: Seq<Input>, raw: int, offset: int, f15: int)
    requires
        table.no_duplicates(),
        table_lookup(table, raw, offset, f15) is Some,
        raw <= f15 || raw > f15 + FUNCTION_KEY_GAP as int,
    ensures
        table_code(table, table_lookup(table, raw, offset, f15).unwrap(), offset, f15) == raw,
{
    let index = key_index(raw, offset, f15);
    let key = table[index];
    assert forall|j: int| 0 <= j < index implies table[j] != key by {
    }
    lemma_first_position_unique(table, key, index);
}

/// A code that maps to a key lies in the reach of the table.
pub proof fn lemma_lookup_in_reach(table: Seq<Input>, raw: int, offset: int, f15: int)
    requires
        offset <= f15,
        table_lookup(table, raw, offset, f15) is Some,
    ensures
        in_reach(table.len(), raw, offset),
{
}

/// Tells whether `raw` lies in the reach of `table`.
pub fn reaches(table: &[Input], raw: i32, offset: i32) -> (inside: bool)
    requires
        0 <= offset,
        table@.len() + offset + FUNCTION_KEY_GAP <= i32::MAX,
    ensures
        inside == in_reach(table@.len(), raw as int, offset as int),
{
    raw >= offset && raw - offset < table.len() as i32 + FUNCTION_KEY_GAP
}

/// Looks `raw` up in `table`.
pub fn lookup(table: &[Input], raw: i32, offset: i32, f15: i32) -> (found: Option<Input>)
    requires
        0 <= offset <= f15,
    ensures
        found == table_lookup(table@, raw as int, offset as int, f15 as int),
{
    if raw < offset {
        return None;
    }
    let index: i32 = if raw <= f15 {
        raw - offset
    } else {
        raw - offset - FUNCTION_KEY_GAP
    };
    if index < 0 || index as usize >= table.len() {
        None
    } else {
        Some(table[index as usize])
    }
}

/// Searches `table` from the front for `key`.
pub fn find_key(table: &[Input], key: Input) -> (found: Option<usize>)
    ensures
        match found {
            Some(position) => is_first_position(table@, key, position as int),
            None => !table@.contains(key),
        },
{
    let mut i: usize = 0;
    while i < table.len()
        invariant
            i <= table@.len(),
            forall|j: int| 0 <= j < i ==> table@[j] != key,
        decreases table@.len() - i,
    {
        if table[i] == key {
            return Some(i);
        }
        i += 1;
    }
    None
}

/// The native code of the table entry at `index`.
pub fn code_at(index: usize, offset: i32, f15: i32) -> (code: i32)
    requires
        0 <= offset <= f15,
        index + f15 + FUNCTION_KEY_GAP <= i32::MAX,
    ensures
        code == key_code(index as int, offset as int, f15 as int),
{
    let plain: i32 = index as i32 + offset;
    if plain <= f15 {
        plain
    } else {
        plain + FUNCTION_KEY_GAP
    }
}

/// The native code under which `key` is pushed back, or `None` for a key that
/// the table does not hold.
pub fn find_code(table: &[Input], key: Input, offset: i32, f15: i32) -> (code: Option<i32>)
    requires
        0 <= offset <= f15,
        table@.len() + f15 + FUNCTION_KEY_GAP <= i32::MAX,
    ensures
        code is Some <==> table@.contains(key),
        code is Some ==> code.unwrap() == table_code(table@, key, offset as int, f15 as int),
{
    match find_key(table, key) {
        Some(position) => {
            proof {
                lemma_first_position_unique(table@, key, position as int);
            }
            Some(code_at(position, offset, f15))
        },
        None => None,
    }
}

} // verus!
