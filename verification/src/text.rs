//! Text helpers that the rest of the library shares: searching a text, and
//! writing numbers and names out.

use vstd::prelude::*;
use vstd::string::StrSliceExecFns;
use vstd::string::StringExecFns;

verus! {

/// `needle` occurs in `haystack` at position `at`.
pub open spec fn occurs_at(haystack: Seq<char>, needle: Seq<char>, at: int) -> bool {
    0 <= at && at + needle.len() <= haystack.len() && haystack.subrange(
        at,
        at + needle.len(),
    ) == needle
}

/// `needle` occurs somewhere in `haystack`.
pub open spec fn occurs_in(haystack: Seq<char>, needle: Seq<char>) -> bool {
    exists|at: int| occurs_at(haystack, needle, at)
}

/// Whether `needle` stands in `haystack` at the position `at`.
fn matches_at(haystack: &str, needle: &str, at: usize, length: usize) -> (same: bool)
    requires
        length == needle@.len(),
        at + length <= haystack@.len() <= usize::MAX,
    ensures
        same == occurs_at(haystack@, needle@, at as int),
{
    let mut i: usize = 0;
    while i < length
        invariant
            i <= length,
            length == needle@.len(),
            at + length <= haystack@.len() <= usize::MAX,
            forall|k: int| 0 <= k < i ==> haystack@[at + k] == needle@[k],
        decreases length - i,
    {
        if haystack.get_char(at + i) != needle.get_char(i) {
            assert(haystack@.subrange(at as int, at + length)[i as int] != needle@[i as int]);
            return false;
        }
        i = i + 1;
    }
    assert(haystack@.subrange(at as int, at + length) =~= needle@);
    true
}

/// Whether `needle` occurs somewhere in `haystack`.
pub fn contains(haystack: &str, needle: &str) -> (found: bool)
    ensures
        found == occurs_in(haystack@, needle@),
{
    let total = haystack.unicode_len();
    let length = needle.unicode_len();
    if length > total {
        return false;
    }
    let last = total - length;
    let mut at: usize = 0;
    loop
        invariant
            at <= last,
            total == haystack@.len(),
            length == needle@.len(),
            last == total - length,
            forall|k: int| 0 <= k < at ==> !occurs_at(haystack@, needle@, k),
        decreases last - at,
    {
        if matches_at(haystack, needle, at, length) {
            return true;
        }
        if at == last {
            return false;
        }
        at = at + 1;
    }
}

/// The digit of `value` in base sixteen, lower case.
pub open spec fn hex_digit(value: int) -> char {
    if value == 0 {
        '0'
    } else if value == 1 {
        '1'
    } else if value == 2 {
        '2'
    } else if value == 3 {
        '3'
    } else if value == 4 {
        '4'
    } else if value == 5 {
        '5'
    } else if value == 6 {
        '6'
    } else if value == 7 {
        '7'
    } else if value == 8 {
        '8'
    } else if value == 9 {
        '9'
    } else if value == 10 {
        'a'
    } else if value == 11 {
        'b'
    } else if value == 12 {
        'c'
    } else if value == 13 {
        'd'
    } else if value == 14 {
        'e'
    } else {
        'f'
    }
}

/// A number written in base sixteen, lower case, without prefix or
/// leading zeros.
pub open spec fn hex_digits(value: nat) -> Seq<char>
    decreases value,
{
    if value < 16 {
        seq![hex_digit(value as int)]
    } else {
        hex_digits(value / 16).push(hex_digit((value % 16) as int))
    }
}

/// A number written in base ten, without leading zeros.
pub open spec fn decimal_digits(value: nat) -> Seq<char>
    decreases value,
{
    if value < 10 {
        seq![hex_digit(value as int)]
    } else {
        decimal_digits(value / 10).push(hex_digit((value % 10) as int))
    }
}

/// One digit as text.
fn digit(value: u64) -> (text: &'static str)
    requires
        value < 16,
    ensures
        text@ == seq![hex_digit(value as int)],
{
    proof {
        reveal_strlit("0");
        reveal_strlit("1");
        reveal_strlit("2");
        reveal_strlit("3");
        reveal_strlit("4");
        reveal_strlit("5");
        reveal_strlit("6");
        reveal_strlit("7");
        reveal_strlit("8");
        reveal_strlit("9");
        reveal_strlit("a");
        reveal_strlit("b");
        reveal_strlit("c");
        reveal_strlit("d");
        reveal_strlit("e");
        reveal_strlit("f");
    }
    let text = match value {
        0 => "0",
        1 => "1",
        2 => "2",
        3 => "3",
        4 => "4",
        5 => "5",
        6 => "6",
        7 => "7",
        8 => "8",
        9 => "9",
        10 => "a",
        11 => "b",
        12 => "c",
        13 => "d",
        14 => "e",
        _ => "f",
    };
    assert(text@ =~= seq![hex_digit(value as int)]);
    text
}

/// Writes a number in base sixteen, lower case, without prefix or leading
/// zeros.
pub fn to_hex(value: u64) -> (text: String)
    ensures
        text@ == hex_digits(value as nat),
    decreases value,
{
    if value < 16 {
        String::from_str(digit(value))
    } else {
        let mut text = to_hex(value / 16);
        text.append(digit(value % 16));
        text
    }
}

/// Writes a number in base ten, without leading zeros.
pub fn to_decimal(value: usize) -> (text: String)
    ensures
        text@ == decimal_digits(value as nat),
    decreases value,
{
    if value < 10 {
        String::from_str(digit(value as u64))
    } else {
        let mut text = to_decimal(value / 10);
        text.append(digit((value % 10) as u64));
        text
    }
}

} // verus!
