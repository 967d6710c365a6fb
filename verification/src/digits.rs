//! Numbers as text: decimal, and upper-case hexadecimal with or without
//! padding, each with the sequence of characters that it stands for.

use vstd::prelude::*;

verus! {

/// The character for one digit, `0` to `9` and then `A` to `F`.
pub open spec fn digit_char(d: int) -> char {
    if d == 0 {
        '0'
    } else if d == 1 {
        '1'
    } else if d == 2 {
        '2'
    } else if d == 3 {
        '3'
    } else if d == 4 {
        '4'
    } else if d == 5 {
        '5'
    } else if d == 6 {
        '6'
    } else if d == 7 {
        '7'
    } else if d == 8 {
        '8'
    } else if d == 9 {
        '9'
    } else if d == 10 {
        'A'
    } else if d == 11 {
        'B'
    } else if d == 12 {
        'C'
    } else if d == 13 {
        'D'
    } else if d == 14 {
        'E'
    } else {
        'F'
    }
}

/// `n` in decimal, most significant digit first, without leading zeros;
/// zero is the single digit `0`.
pub open spec fn dec_digits(n: nat) -> Seq<char>
    decreases n,
{
    if n < 10 {
        seq![digit_char(n as int)]
    } else {
        dec_digits(n / 10) + seq![digit_char((n % 10) as int)]
    }
}

/// `n` in upper-case hexadecimal, most significant digit first, without
/// leading zeros; zero is the single digit `0`.
pub open spec fn hex_digits(n: nat) -> Seq<char>
    decreases n,
{
    if n < 16 {
        seq![digit_char(n as int)]
    } else {
        hex_digits(n / 16) + seq![digit_char((n % 16) as int)]
    }
}

/// `k` times the character `0`.
pub open spec fn zeros(k: nat) -> Seq<char> {
    Seq::new(k, |i: int| '0')
}

/// `n` in upper-case hexadecimal, with zeros in front up to `width`
/// characters; a longer number is written in full.
pub open spec fn hex_padded(n: nat, width: nat) -> Seq<char> {
    let d = hex_digits(n);
    if d.len() >= width {
        d
    } else {
        zeros((width - d.len()) as nat) + d
    }
}

/// `n` in upper-case hexadecimal behind the prefix `0x`.
pub open spec fn hex_prefixed(n: nat) -> Seq<char> {
    "0x"@ + hex_digits(n)
}

fn digit_str(d: u32) -> (s: &'static str)
    requires
        d < 16,
    ensures
        s@ == seq![digit_char(d as int)],
{
    proof {
        reveal_strlit("0");
        reveal_strlit("1");
        reveal_strlit("2");
        reveal_strlit("3");
        reveal_strlit("4");
        reveal_strlit("5");
        reveal_strlit("6");
        reveal_strlit("7");
        reveal_strlit("8");
        reveal_strlit("9");
        reveal_strlit("A");
        reveal_strlit("B");
        reveal_strlit("C");
        reveal_strlit("D");
        reveal_strlit("E");
        reveal_strlit("F");
    }
    match d {
        0 => "0",
        1 => "1",
        2 => "2",
        3 => "3",
        4 => "4",
        5 => "5",
        6 => "6",
        7 => "7",
        8 => "8",
        9 => "9",
        10 => "A",
        11 => "B",
        12 => "C",
        13 => "D",
        14 => "E",
        _ => "F",
    }
}

/// `n` in decimal.
pub fn dec_string(n: u32) -> (s: String)
    ensures
        s@ == dec_digits(n as nat),
    decreases n,
{
    if n < 10 {
        String::from_str(digit_str(n))
    } else {
        let mut s: String = dec_string(n / 10);
        s.append(digit_str(n % 10));
        s
    }
}

/// `n` in upper-case hexadecimal, without padding.
pub fn hex_string(n: u32) -> (s: String)
    ensures
        s@ == hex_digits(n as nat),
    decreases n,
{
    if n < 16 {
        String::from_str(digit_str(n))
    } else {
        let mut s: String = hex_string(n / 16);
        s.append(digit_str(n % 16));
        s
    }
}

/// `n` in upper-case hexadecimal behind `0x`.
pub fn hex_prefixed_string(n: u32) -> (s: String)
    ensures
        s@ == hex_prefixed(n as nat),
{
    let mut s: String = String::from_str("0x");
    s.append(hex_string(n).as_str());
    s
}

/// `n` in upper-case hexadecimal, padded with zeros to `width` characters.
pub fn hex_padded_string(n: u32, width: usize) -> (s: String)
    ensures
        s@ == hex_padded(n as nat, width as nat),
{
    let digits: String = hex_string(n);
    let len: usize = digits.as_str().unicode_len();
    let mut s: String = String::new();
    let mut i: usize = len;
    while i < width
        invariant
            len <= i,
            i <= width || i == len,
            s@ == zeros((i - len) as nat),
        decreases width - i,
    {
        proof {
            reveal_strlit("0");
        }
        s.append("0");
        i = i + 1;
    }
    s.append(digits.as_str());
    s
}

} // verus!
