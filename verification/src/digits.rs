//! Digits: hexadecimal in both directions, decimal for output.

use vstd::prelude::*;
use vstd::string::StringExecFns;

verus! {

/// The lowercase digit for a value below sixteen.
pub open spec fn hex_char(n: int) -> char {
    if n < 10 {
        ((48 + n) as u8) as char
    } else {
        ((87 + n) as u8) as char
    }
}

/// The two lowercase digits of a byte, high nibble first.
pub open spec fn hex_pair(b: u8) -> Seq<char> {
    seq![hex_char(b as int / 16), hex_char(b as int % 16)]
}

/// The decimal digits of `n`, most significant first, without leading zeros.
pub open spec fn decimal(n: nat) -> Seq<char>
    decreases n,
{
    if n < 10 {
        seq![hex_char(n as int)]
    } else {
        decimal(n / 10).push(hex_char((n % 10) as int))
    }
}

/// What a character is worth as a hexadecimal digit, in either case.
pub open spec fn digit_value(c: char) -> Option<int> {
    let code = c as u32 as int;
    if 48 <= code <= 57 {
        Some(code - 48)
    } else if 97 <= code <= 102 {
        Some(code - 87)
    } else if 65 <= code <= 70 {
        Some(code - 55)
    } else {
        None
    }
}

/// The digits by name: what `hex_char` and `digit_value` are at the ends of
/// each range of characters, and just outside.
pub proof fn lemma_digit_table()
    ensures
        hex_char(0) == '0',
        hex_char(9) == '9',
        hex_char(10) == 'a',
        hex_char(15) == 'f',
        digit_value('0') == Some(0int),
        digit_value('9') == Some(9int),
        digit_value('a') == Some(10int),
        digit_value('f') == Some(15int),
        digit_value('A') == Some(10int),
        digit_value('F') == Some(15int),
        digit_value('/') is None,
        digit_value(':') is None,
        digit_value('@') is None,
        digit_value('G') is None,
        digit_value('`') is None,
        digit_value('g') is None,
        digit_value(' ') is None,
{
}

/// Every value below sixteen has a digit, and that digit has this value.
pub proof fn lemma_hex_char_value(n: int)
    requires
        0 <= n < 16,
    ensures
        digit_value(hex_char(n)) == Some(n),
{
}

/// A one-character text holding the lowercase digit for `n`.
fn hex_digit_text(n: u8) -> (s: &'static str)
    requires
        n < 16,
    ensures
        s@ == seq![hex_char(n as int)],
{
    proof {
        reveal_strlit("0");
        reveal_strlit("1");
        reveal_strlit("2");
        reveal_strlit("3");
        reveal_strlit("4");
        reveal_strlit("5");
        reveal_strlit("6");
        reveal_strlit("7");
        reveal_strlit("8");
        reveal_strlit("9");
        reveal_strlit("a");
        reveal_strlit("b");
        reveal_strlit("c");
        reveal_strlit("d");
        reveal_strlit("e");
        reveal_strlit("f");
    }
    let s = match n {
        0 => "0",
        1 => "1",
        2 => "2",
        3 => "3",
        4 => "4",
        5 => "5",
        6 => "6",
        7 => "7",
        8 => "8",
        9 => "9",
        10 => "a",
        11 => "b",
        12 => "c",
        13 => "d",
        14 => "e",
        _ => "f",
    };
    assert(s@ =~= seq![hex_char(n as int)]);
    s
}

/// Appends the two digits of `b` to `out`.
pub fn push_hex_pair(out: &mut String, b: u8)
    ensures
        final(out)@ == old(out)@ + hex_pair(b),
{
    out.append(hex_digit_text(b / 16));
    out.append(hex_digit_text(b % 16));
    assert(out@ =~= old(out)@ + hex_pair(b));
}

/// Appends the decimal digits of `n` to `out`.
pub fn push_decimal(out: &mut String, n: u128)
    ensures
        final(out)@ == old(out)@ + decimal(n as nat),
    decreases n,
{
    if n >= 10 {
        push_decimal(out, n / 10);
    }
    out.append(hex_digit_text((n % 10) as u8));
    assert(out@ =~= old(out)@ + decimal(n as nat));
}

/// The value of one hexadecimal digit, if `c` is one.
pub fn hex_value(c: char) -> (v: Option<u8>)
    ensures
        match v {
            Some(d) => digit_value(c) == Some(d as int),
            None => digit_value(c) is None,
        },
{
    let code: u32 = c as u32;
    if 48 <= code && code <= 57 {
        Some((code - 48) as u8)
    } else if 97 <= code && code <= 102 {
        Some((code - 87) as u8)
    } else if 65 <= code && code <= 70 {
        Some((code - 55) as u8)
    } else {
        None
    }
}

} // verus!
