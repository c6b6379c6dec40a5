use vstd::prelude::*;

use vstd::string::StringExecFns;

verus! {

/// The upper-case hexadecimal digit of a nibble.
pub open spec fn hex_digit(n: u8) -> &'static str {
    match n {
        0 => "0",
        1 => "1",
        2 => "2",
        3 => "3",
        4 => "4",
        5 => "5",
        6 => "6",
        7 => "7",
        8 => "8",
        9 => "9",
        10 => "A",
        11 => "B",
        12 => "C",
        13 => "D",
        14 => "E",
        _ => "F",
    }
}

/// Two upper-case hexadecimal digits of a byte.
pub open spec fn hex2(v: u8) -> Seq<char> {
    hex_digit(v / 16)@ + hex_digit(v % 16)@
}

/// Four upper-case hexadecimal digits of a word.
pub open spec fn hex4(v: u16) -> Seq<char> {
    hex2((v / 256) as u8) + hex2((v % 256) as u8)
}

/// Decimal digits of a number, without leading zeros (`0` for zero).
pub open spec fn decimal(v: nat) -> Seq<char>
    decreases v,
{
    if v < 10 {
        hex_digit(v as u8)@
    } else {
        decimal(v / 10) + hex_digit((v % 10) as u8)@
    }
}

/// `n` spaces.
pub open spec fn spaces(n: nat) -> Seq<char>
    decreases n,
{
    if n == 0 {
        Seq::empty()
    } else {
        spaces((n - 1) as nat) + " "@
    }
}

/// `s` padded on the right with spaces to `width` characters.
pub open spec fn pad_right(s: Seq<char>, width: nat) -> Seq<char> {
    if s.len() >= width {
        s
    } else {
        s + spaces((width - s.len()) as nat)
    }
}

/// `s` padded on the left with spaces to `width` characters.
pub open spec fn pad_left(s: Seq<char>, width: nat) -> Seq<char> {
    if s.len() >= width {
        s
    } else {
        spaces((width - s.len()) as nat) + s
    }
}

fn digit(n: u8) -> (r: &'static str)
    requires
        n < 16,
    ensures
        r == hex_digit(n),
{
    match n {
        0 => "0",
        1 => "1",
        2 => "2",
        3 => "3",
        4 => "4",
        5 => "5",
        6 => "6",
        7 => "7",
        8 => "8",
        9 => "9",
        10 => "A",
        11 => "B",
        12 => "C",
        13 => "D",
        14 => "E",
        _ => "F",
    }
}

/// Appends two hexadecimal digits.
pub fn push_hex2(s: &mut String, v: u8)
    ensures
        final(s)@ == old(s)@ + hex2(v),
{
    s.append(digit(v / 16));
    s.append(digit(v % 16));
    assert(final(s)@ =~= old(s)@ + hex2(v));
}

/// Appends four hexadecimal digits.
pub fn push_hex4(s: &mut String, v: u16)
    ensures
        final(s)@ == old(s)@ + hex4(v),
{
    push_hex2(s, (v / 256) as u8);
    push_hex2(s, (v % 256) as u8);
    assert(final(s)@ =~= old(s)@ + hex4(v));
}

/// The decimal digits of a number.
pub fn decimal_string(v: u16) -> (r: String)
    ensures
        r@ == decimal(v as nat),
    decreases v,
{
    if v < 10 {
        String::from_str(digit(v as u8))
    } else {
        let mut s = decimal_string(v / 10);
        s.append(digit((v % 10) as u8));
        s
    }
}

/// Appends spaces up to `width` characters.
pub fn pad_to(s: &mut String, width: usize)
    ensures
        final(s)@ == pad_right(old(s)@, width as nat),
{
    let ghost start = s@;
    let len = s.as_str().unicode_len();
    if len >= width {
        return;
    }
    let mut n: usize = 0;
    while n < width - len
        invariant
            len == start.len(),
            len < width,
            n <= width - len,
            s@ == start + spaces(n as nat),
        decreases width - len - n,
    {
        s.append(" ");
        assert(s@ =~= start + spaces((n + 1) as nat));
        n = n + 1;
    }
}

/// A number in decimal, padded on the left with spaces to `width`.
pub fn decimal_padded(v: u16, width: usize) -> (r: String)
    ensures
        r@ == pad_left(decimal(v as nat), width as nat),
{
    let digits = decimal_string(v);
    let len = digits.as_str().unicode_len();
    if len >= width {
        return digits;
    }
    let mut s = String::new();
    let mut n: usize = 0;
    while n < width - len
        invariant
            len == decimal(v as nat).len(),
            len < width,
            n <= width - len,
            s@ == spaces(n as nat),
        decreases width - len - n,
    {
        s.append(" ");
        assert(s@ =~= spaces((n + 1) as nat));
        n = n + 1;
    }
    s.append(digits.as_str());
    s
}

/// The lower-case hexadecimal digit of a nibble.
pub open spec fn hex_digit_lower(n: u8) -> &'static str {
    match n {
        0 => "0",
        1 => "1",
        2 => "2",
        3 => "3",
        4 => "4",
        5 => "5",
        6 => "6",
        7 => "7",
        8 => "8",
        9 => "9",
        10 => "a",
        11 => "b",
        12 => "c",
        13 => "d",
        14 => "e",
        _ => "f",
    }
}

/// Two lower-case hexadecimal digits of a byte.
pub open spec fn hex2_lower(v: u8) -> Seq<char> {
    hex_digit_lower(v / 16)@ + hex_digit_lower(v % 16)@
}

/// Four lower-case hexadecimal digits of a word.
pub open spec fn hex4_lower(v: u16) -> Seq<char> {
    hex2_lower((v / 256) as u8) + hex2_lower((v % 256) as u8)
}

/// A byte as a printable ASCII character, or `.` when it is not printable.
pub open spec fn printable(b: u8) -> &'static str {
    match b {
        0x20 => " ",
        0x21 => "!",
        0x22 => "\"",
        0x23 => "#",
        0x24 => "$",
        0x25 => "%",
        0x26 => "&",
        0x27 => "'",
        0x28 => "(",
        0x29 => ")",
        0x2A => "*",
        0x2B => "+",
        0x2C => ",",
        0x2D => "-",
        0x2E => ".",
        0x2F => "/",
        0x30 => "0",
        0x31 => "1",
        0x32 => "2",
        0x33 => "3",
        0x34 => "4",
        0x35 => "5",
        0x36 => "6",
        0x37 => "7",
        0x38 => "8",
        0x39 => "9",
        0x3A => ":",
        0x3B => ";",
        0x3C => "<",
        0x3D => "=",
        0x3E => ">",
        0x3F => "?",
        0x40 => "@",
        0x41 => "A",
        0x42 => "B",
        0x43 => "C",
        0x44 => "D",
        0x45 => "E",
        0x46 => "F",
        0x47 => "G",
        0x48 => "H",
        0x49 => "I",
        0x4A => "J",
        0x4B => "K",
        0x4C => "L",
        0x4D => "M",
        0x4E => "N",
        0x4F => "O",
        0x50 => "P",
        0x51 => "Q",
        0x52 => "R",
        0x53 => "S",
        0x54 => "T",
        0x55 => "U",
        0x56 => "V",
        0x57 => "W",
        0x58 => "X",
        0x59 => "Y",
        0x5A => "Z",
        0x5B => "[",
        0x5C => "\\",
        0x5D => "]",
        0x5E => "^",
        0x5F => "_",
        0x60 => "`",
        0x61 => "a",
        0x62 => "b",
        0x63 => "c",
        0x64 => "d",
        0x65 => "e",
        0x66 => "f",
        0x67 => "g",
        0x68 => "h",
        0x69 => "i",
        0x6A => "j",
        0x6B => "k",
        0x6C => "l",
        0x6D => "m",
        0x6E => "n",
        0x6F => "o",
        0x70 => "p",
        0x71 => "q",
        0x72 => "r",
        0x73 => "s",
        0x74 => "t",
        0x75 => "u",
        0x76 => "v",
        0x77 => "w",
        0x78 => "x",
        0x79 => "y",
        0x7A => "z",
        0x7B => "{",
        0x7C => "|",
        0x7D => "}",
        0x7E => "~",
        _ => ".",
    }
}

fn digit_lower(n: u8) -> (r: &'static str)
    requires
        n < 16,
    ensures
        r == hex_digit_lower(n),
{
    match n {
        0 => "0",
        1 => "1",
        2 => "2",
        3 => "3",
        4 => "4",
        5 => "5",
        6 => "6",
        7 => "7",
        8 => "8",
        9 => "9",
        10 => "a",
        11 => "b",
        12 => "c",
        13 => "d",
        14 => "e",
        _ => "f",
    }
}

/// Appends two lower-case hexadecimal digits.
pub fn push_hex2_lower(s: &mut String, v: u8)
    ensures
        final(s)@ == old(s)@ + hex2_lower(v),
{
    s.append(digit_lower(v / 16));
    s.append(digit_lower(v % 16));
    assert(final(s)@ =~= old(s)@ + hex2_lower(v));
}

/// Appends four lower-case hexadecimal digits.
pub fn push_hex4_lower(s: &mut String, v: u16)
    ensures
        final(s)@ == old(s)@ + hex4_lower(v),
{
    push_hex2_lower(s, (v / 256) as u8);
    push_hex2_lower(s, (v % 256) as u8);
    assert(final(s)@ =~= old(s)@ + hex4_lower(v));
}

/// The character a byte shows as in a hex dump.
pub fn printable_char(b: u8) -> (r: &'static str)
    ensures
        r == printable(b),
{
    match b {
        0x20 => " ",
        0x21 => "!",
        0x22 => "\"",
        0x23 => "#",
        0x24 => "$",
        0x25 => "%",
        0x26 => "&",
        0x27 => "'",
        0x28 => "(",
        0x29 => ")",
        0x2A => "*",
        0x2B => "+",
        0x2C => ",",
        0x2D => "-",
        0x2E => ".",
        0x2F => "/",
        0x30 => "0",
        0x31 => "1",
        0x32 => "2",
        0x33 => "3",
        0x34 => "4",
        0x35 => "5",
        0x36 => "6",
        0x37 => "7",
        0x38 => "8",
        0x39 => "9",
        0x3A => ":",
        0x3B => ";",
        0x3C => "<",
        0x3D => "=",
        0x3E => ">",
        0x3F => "?",
        0x40 => "@",
        0x41 => "A",
        0x42 => "B",
        0x43 => "C",
        0x44 => "D",
        0x45 => "E",
        0x46 => "F",
        0x47 => "G",
        0x48 => "H",
        0x49 => "I",
        0x4A => "J",
        0x4B => "K",
        0x4C => "L",
        0x4D => "M",
        0x4E => "N",
        0x4F => "O",
        0x50 => "P",
        0x51 => "Q",
        0x52 => "R",
        0x53 => "S",
        0x54 => "T",
        0x55 => "U",
        0x56 => "V",
        0x57 => "W",
        0x58 => "X",
        0x59 => "Y",
        0x5A => "Z",
        0x5B => "[",
        0x5C => "\\",
        0x5D => "]",
        0x5E => "^",
        0x5F => "_",
        0x60 => "`",
        0x61 => "a",
        0x62 => "b",
        0x63 => "c",
        0x64 => "d",
        0x65 => "e",
        0x66 => "f",
        0x67 => "g",
        0x68 => "h",
        0x69 => "i",
        0x6A => "j",
        0x6B => "k",
        0x6C => "l",
        0x6D => "m",
        0x6E => "n",
        0x6F => "o",
        0x70 => "p",
        0x71 => "q",
        0x72 => "r",
        0x73 => "s",
        0x74 => "t",
        0x75 => "u",
        0x76 => "v",
        0x77 => "w",
        0x78 => "x",
        0x79 => "y",
        0x7A => "z",
        0x7B => "{",
        0x7C => "|",
        0x7D => "}",
        0x7E => "~",
        _ => ".",
    }
}

} // verus!
