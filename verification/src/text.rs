//! Operations on character sequences that the rest of the library is stated over.

use vstd::prelude::*;
use vstd::string::*;

verus! {

/// Finds the first occurrence of `needle` in `text`.
pub fn find_first(text: &str, needle: char) -> (found: Option<usize>)
    ensures
        match found {
            Some(index) => text@.index_of_first(needle) == Some(index as int),
            None => text@.index_of_first(needle) is None,
        },
{
    let length: usize = text.unicode_len();
    let mut index: usize = 0;
    for c in it: text.chars()
        invariant
            it.seq() == text@,
            length == text@.len(),
            index == it.index(),
            forall|j: int| 0 <= j < index ==> text@[j] != needle,
    {
        if c == needle {
            proof {
                text@.index_of_first_ensures(needle);
            }
            return Some(index);
        }
        index += 1;
    }
    proof {
        text@.index_of_first_ensures(needle);
    }
    None
}

/// Finds the last occurrence of `needle` in `text`.
pub fn find_last(text: &str, needle: char) -> (found: Option<usize>)
    ensures
        match found {
            Some(index) => text@.index_of_last(needle) == Some(index as int),
            None => text@.index_of_last(needle) is None,
        },
{
    let length: usize = text.unicode_len();
    let mut index: usize = 0;
    let mut found: Option<usize> = None;
    for c in it: text.chars()
        invariant
            it.seq() == text@,
            length == text@.len(),
            index == it.index(),
            match found {
                Some(last) => last < index && text@[last as int] == needle && forall|j: int|
                    last < j < index ==> text@[j] != needle,
                None => forall|j: int| 0 <= j < index ==> text@[j] != needle,
            },
    {
        if c == needle {
            found = Some(index);
        }
        index += 1;
    }
    proof {
        text@.index_of_last_ensures(needle);
    }
    found
}

/// `text` with every `from` replaced by `to`.
pub open spec fn replaced(text: Seq<char>, from: char, to: char) -> Seq<char> {
    text.map_values(|c: char| if c == from { to } else { c })
}

/// Copies `text`, writing `=` wherever a `:` stands.
pub fn replace_colons(text: &str) -> (out: String)
    ensures
        out@ == replaced(text@, ':', '='),
{
    proof {
        reveal_strlit("=");
    }
    let length: usize = text.unicode_len();
    let mut out: String = String::new();
    let mut start: usize = 0;
    let mut index: usize = 0;
    for c in it: text.chars()
        invariant
            it.seq() == text@,
            length == text@.len(),
            index == it.index(),
            start <= index,
            "="@ == seq!['='],
            out@ == replaced(text@.subrange(0, start as int), ':', '='),
            forall|j: int| start <= j < index ==> text@[j] != ':',
    {
        if c == ':' {
            out.append(text.substring_char(start, index));
            out.append("=");
            assert(out@ =~= replaced(text@.subrange(0, index + 1), ':', '='));
            start = index + 1;
        }
        index += 1;
    }
    out.append(text.substring_char(start, length));
    assert(out@ =~= replaced(text@, ':', '='));
    out
}

/// Whether `list` holds a string equal to `wanted`.
pub fn contains_text(list: &Vec<String>, wanted: &str) -> (found: bool)
    ensures
        found == list.deep_view().contains(wanted@),
{
    let needle: String = String::from_str(wanted);
    let mut index: usize = 0;
    while index < list.len()
        invariant
            index <= list.len(),
            needle@ == wanted@,
            forall|j: int| 0 <= j < index ==> (#[trigger] list.deep_view()[j]) != wanted@,
        decreases list.len() - index,
    {
        if list[index] == needle {
            assert(list.deep_view()[index as int] == wanted@);
            return true;
        }
        index += 1;
    }
    false
}

/// The character that writes the decimal digit `value`.
pub open spec fn digit(value: nat) -> char {
    if value == 0 {
        '0'
    } else if value == 1 {
        '1'
    } else if value == 2 {
        '2'
    } else if value == 3 {
        '3'
    } else if value == 4 {
        '4'
    } else if value == 5 {
        '5'
    } else if value == 6 {
        '6'
    } else if value == 7 {
        '7'
    } else if value == 8 {
        '8'
    } else {
        '9'
    }
}

/// The decimal numeral of `value`, without sign or leading zeros.
pub open spec fn decimal(value: nat) -> Seq<char>
    decreases value,
{
    if value < 10 {
        seq![digit(value)]
    } else {
        decimal(value / 10).push(digit(value % 10))
    }
}

fn digit_text(value: u64) -> (out: &'static str)
    requires
        value < 10,
    ensures
        out@ == seq![digit(value as nat)],
{
    proof {
        reveal_strlit("0");
        reveal_strlit("1");
        reveal_strlit("2");
        reveal_strlit("3");
        reveal_strlit("4");
        reveal_strlit("5");
        reveal_strlit("6");
        reveal_strlit("7");
        reveal_strlit("8");
        reveal_strlit("9");
    }
    let out: &'static str = if value == 0 {
        "0"
    } else if value == 1 {
        "1"
    } else if value == 2 {
        "2"
    } else if value == 3 {
        "3"
    } else if value == 4 {
        "4"
    } else if value == 5 {
        "5"
    } else if value == 6 {
        "6"
    } else if value == 7 {
        "7"
    } else if value == 8 {
        "8"
    } else {
        "9"
    };
    assert(out@ =~= seq![digit(value as nat)]);
    out
}

/// Writes `value` as a decimal numeral.
pub fn decimal_text(value: u64) -> (out: String)
    ensures
        out@ == decimal(value as nat),
    decreases value,
{
    if value < 10 {
        String::from_str(digit_text(value))
    } else {
        let mut out: String = decimal_text(value / 10);
        out.append(digit_text(value % 10));
        out
    }
}

} // verus!
