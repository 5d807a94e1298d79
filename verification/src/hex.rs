//! Hexadecimal digits: the characters a log_id is made of, and their values.

use vstd::prelude::*;

verus! {

/// True of the characters that may stand in a hex position of a log_id:
/// the decimal digits and the hex letters of either case.
pub open spec fn is_hex_digit(c: char) -> bool {
    ||| c == '0' ||| c == '1' ||| c == '2' ||| c == '3' ||| c == '4'
    ||| c == '5' ||| c == '6' ||| c == '7' ||| c == '8' ||| c == '9'
    ||| c == 'a' ||| c == 'b' ||| c == 'c' ||| c == 'd' ||| c == 'e' ||| c == 'f'
    ||| c == 'A' ||| c == 'B' ||| c == 'C' ||| c == 'D' ||| c == 'E' ||| c == 'F'
}

/// The numeric value of a hex digit, case-insensitive.
pub open spec fn hex_digit_val(c: char) -> u8 {
    if c == '0' { 0 } else if c == '1' { 1 } else if c == '2' { 2 }
    else if c == '3' { 3 } else if c == '4' { 4 } else if c == '5' { 5 }
    else if c == '6' { 6 } else if c == '7' { 7 } else if c == '8' { 8 }
    else if c == '9' { 9 }
    else if c == 'a' || c == 'A' { 10 }
    else if c == 'b' || c == 'B' { 11 }
    else if c == 'c' || c == 'C' { 12 }
    else if c == 'd' || c == 'D' { 13 }
    else if c == 'e' || c == 'E' { 14 }
    else { 15 }
}

/// The lowercase hex digit that renders a value below 16.
pub open spec fn hex_digit_char(v: u8) -> char {
    if v == 0 { '0' } else if v == 1 { '1' } else if v == 2 { '2' }
    else if v == 3 { '3' } else if v == 4 { '4' } else if v == 5 { '5' }
    else if v == 6 { '6' } else if v == 7 { '7' } else if v == 8 { '8' }
    else if v == 9 { '9' } else if v == 10 { 'a' } else if v == 11 { 'b' }
    else if v == 12 { 'c' } else if v == 13 { 'd' } else if v == 14 { 'e' }
    else { 'f' }
}

/// Rendering a value below 16 always yields a hex digit, and reading that
/// digit back yields the value: the two spec functions invert each other.
pub proof fn lemma_hex_digit_round_trip(v: u8)
    requires
        v < 16,
    ensures
        is_hex_digit(hex_digit_char(v)),
        hex_digit_val(hex_digit_char(v)) == v,
{
}

/// Reads one character: its hex value where it is a hex digit, `None` elsewhere.
pub fn hex_val_of(c: char) -> (r: Option<u8>)
    ensures
        is_hex_digit(c) <==> r is Some,
        is_hex_digit(c) ==> r == Some(hex_digit_val(c)),
{
    match c {
        '0' => Some(0),
        '1' => Some(1),
        '2' => Some(2),
        '3' => Some(3),
        '4' => Some(4),
        '5' => Some(5),
        '6' => Some(6),
        '7' => Some(7),
        '8' => Some(8),
        '9' => Some(9),
        'a' | 'A' => Some(10),
        'b' | 'B' => Some(11),
        'c' | 'C' => Some(12),
        'd' | 'D' => Some(13),
        'e' | 'E' => Some(14),
        'f' | 'F' => Some(15),
        _ => None,
    }
}

/// Renders a value below 16 as a one-character string holding its lowercase
/// hex digit.
pub fn hex_char_str(v: u8) -> (r: &'static str)
    requires
        v < 16,
    ensures
        r@.len() == 1,
        r@[0] == hex_digit_char(v),
{
    proof {
        reveal_strlit("0");
        reveal_strlit("1");
        reveal_strlit("2");
        reveal_strlit("3");
        reveal_strlit("4");
        reveal_strlit("5");
        reveal_strlit("6");
        reveal_strlit("7");
        reveal_strlit("8");
        reveal_strlit("9");
        reveal_strlit("a");
        reveal_strlit("b");
        reveal_strlit("c");
        reveal_strlit("d");
        reveal_strlit("e");
        reveal_strlit("f");
    }
    match v {
        0 => "0",
        1 => "1",
        2 => "2",
        3 => "3",
        4 => "4",
        5 => "5",
        6 => "6",
        7 => "7",
        8 => "8",
        9 => "9",
        10 => "a",
        11 => "b",
        12 => "c",
        13 => "d",
        14 => "e",
        _ => "f",
    }
}

} // verus!
