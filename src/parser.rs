use vstd::prelude::*;

use vstd::string::{StrSliceExecFns, StringExecFns};

verus! {

/// Spaces and tabs separate arguments.
pub open spec fn spec_is_whitespace(c: char) -> bool {
    c == ' ' || c == '\t'
}

/// Arguments found in `s[0..i]`, where the current one starts, and whether
/// the last character was whitespace.
pub open spec fn split_state(s: Seq<char>, i: int) -> (Seq<Seq<char>>, int, bool)
    decreases i,
{
    if i <= 0 {
        (Seq::empty(), 0, false)
    } else {
        let (args, start, last_was_whitespace) = split_state(s, i - 1);
        if spec_is_whitespace(s[i - 1]) {
            let args2 = if !last_was_whitespace {
                args.push(s.subrange(start, i - 1))
            } else {
                args
            };
            (args2, i, true)
        } else {
            (args, start, false)
        }
    }
}

/// The arguments of a command line: each run of whitespace ends the
/// argument before it. A line that starts with whitespace therefore starts
/// with an empty argument; trailing whitespace adds none.
pub open spec fn split_arguments(s: Seq<char>) -> Seq<Seq<char>> {
    let (args, start, _) = split_state(s, s.len() as int);
    if start != s.len() {
        args.push(s.subrange(start, s.len() as int))
    } else {
        args
    }
}

/// The characters of each string.
pub open spec fn views(v: Seq<String>) -> Seq<Seq<char>> {
    v.map_values(|s: String| s@)
}

/// Returns true for the characters that separate arguments.
pub fn is_whitespace(c: char) -> (r: bool)
    ensures
        r == spec_is_whitespace(c),
{
    c == ' ' || c == '\t'
}

/// Splits raw command input into arguments, for an option parser to read.
pub fn input_to_arguments(input: String) -> (r: Result<Vec<String>, &'static str>)
    ensures
        r.is_ok(),
        views(r.unwrap()@) == split_arguments(input@),
{
    let text = input.as_str();
    let len = text.unicode_len();
    let mut args: Vec<String> = Vec::new();
    let mut start: usize = 0;
    let mut last_was_whitespace = false;
    let mut i: usize = 0;
    while i < len
        invariant
            len == input@.len(),
            text@ == input@,
            i <= len,
            (views(args@), start as int, last_was_whitespace) == split_state(input@, i as int),
            start <= i,
        decreases len - i,
    {
        proof {
            lemma_split_start(input@, i as int);
        }
        let c = text.get_char(i);
        if is_whitespace(c) {
            if !last_was_whitespace {
                let arg = String::from_str(text.substring_char(start, i));
                let ghost before = args@;
                args.push(arg);
                assert(views(args@) =~= views(before).push(input@.subrange(start as int, i as int)));
            }
            start = i + 1;
            last_was_whitespace = true;
        } else {
            last_was_whitespace = false;
        }
        i = i + 1;
    }
    if start != len {
        let ghost before = args@;
        args.push(String::from_str(text.substring_char(start, len)));
        assert(views(args@) =~= views(before).push(input@.subrange(start as int, len as int)));
    }
    Ok(args)
}

proof fn lemma_split_start(s: Seq<char>, i: int)
    requires
        0 <= i,
    ensures
        0 <= split_state(s, i).1 <= i,
    decreases i,
{
    if i > 0 {
        lemma_split_start(s, i - 1);
    }
}

/// Value of a hexadecimal digit, either case.
pub open spec fn hex_digit_value(c: char) -> Option<int> {
    if '0' <= c && c <= '9' {
        Some(c as int - '0' as int)
    } else if 'a' <= c && c <= 'f' {
        Some(c as int - 'a' as int + 10)
    } else if 'A' <= c && c <= 'F' {
        Some(c as int - 'A' as int + 10)
    } else {
        None
    }
}

/// Value of the digits `s[0..n]` in base `radix` (10 or 16).
pub open spec fn digits_value(s: Seq<char>, n: int, radix: int) -> Option<int>
    decreases n,
{
    if n <= 0 {
        Some(0)
    } else {
        match (digits_value(s, n - 1, radix), hex_digit_value(s[n - 1])) {
            (Some(h), Some(d)) => if d < radix {
                Some(radix * h + d)
            } else {
                None
            },
            _ => None,
        }
    }
}

/// `s` without a leading `+`.
pub open spec fn strip_plus(s: Seq<char>) -> Seq<char> {
    if s.len() >= 1 && s[0] == '+' {
        s.subrange(1, s.len() as int)
    } else {
        s
    }
}

/// A number written in base `radix` that fits in 16 bits: an optional `+`,
/// then at least one digit, nothing else.
pub open spec fn number_u16(s: Seq<char>, radix: int) -> Option<u16> {
    digits_u16(strip_plus(s), radix)
}

/// Digits in base `radix`, at least one, whose value fits in 16 bits.
pub open spec fn digits_u16(s: Seq<char>, radix: int) -> Option<u16> {
    if s.len() == 0 {
        None
    } else {
        match digits_value(s, s.len() as int, radix) {
            Some(v) => if v < 0x10000 {
                Some(v as u16)
            } else {
                None
            },
            None => None,
        }
    }
}

/// `s` without a leading `0x`.
pub open spec fn strip_hex_prefix(s: Seq<char>) -> Seq<char> {
    if s.len() >= 2 && s[0] == '0' && s[1] == 'x' {
        s.subrange(2, s.len() as int)
    } else {
        s
    }
}

proof fn lemma_digits_nonnegative(s: Seq<char>, n: int, radix: int)
    requires
        radix == 10 || radix == 16,
        digits_value(s, n, radix).is_some(),
    ensures
        digits_value(s, n, radix).unwrap() >= 0,
    decreases n,
{
    if n > 0 {
        lemma_digits_nonnegative(s, n - 1, radix);
    }
}

proof fn lemma_digits_none(s: Seq<char>, mid: int, end: int, radix: int)
    requires
        0 <= mid <= end,
        digits_value(s, mid, radix).is_none(),
    ensures
        digits_value(s, end, radix).is_none(),
    decreases end - mid,
{
    if mid < end {
        lemma_digits_none(s, mid, end - 1, radix);
    }
}

proof fn lemma_digits_monotone(s: Seq<char>, mid: int, end: int, radix: int)
    requires
        radix == 10 || radix == 16,
        0 <= mid <= end,
        digits_value(s, end, radix).is_some(),
    ensures
        digits_value(s, mid, radix).is_some(),
        digits_value(s, mid, radix).unwrap() <= digits_value(s, end, radix).unwrap(),
    decreases end - mid,
{
    if mid < end {
        lemma_digits_monotone(s, mid, end - 1, radix);
        lemma_digits_nonnegative(s, end - 1, radix);
        lemma_digits_nonnegative(s, end, radix);
    }
}

/// Reads a number in base 10 or 16 that fits in 16 bits, with an optional
/// leading `+`.
pub fn parse_u16(s: &str, radix: u32) -> (r: Option<u16>)
    requires
        radix == 10 || radix == 16,
    ensures
        r == number_u16(s@, radix as int),
{
    let len = s.unicode_len();
    if len >= 1 && s.get_char(0) == '+' {
        parse_digits_u16(s.substring_char(1, len), radix)
    } else {
        parse_digits_u16(s, radix)
    }
}

fn parse_digits_u16(s: &str, radix: u32) -> (r: Option<u16>)
    requires
        radix == 10 || radix == 16,
    ensures
        r == digits_u16(s@, radix as int),
{
    let len = s.unicode_len();
    if len == 0 {
        return None;
    }
    let mut acc: u32 = 0;
    let mut i: usize = 0;
    while i < len
        invariant
            len == s@.len(),
            i <= len,
            radix == 10 || radix == 16,
            digits_value(s@, i as int, radix as int) == Some(acc as int),
            acc < 0x10000,
        decreases len - i,
    {
        let c = s.get_char(i);
        let d: u32 = if '0' <= c && c <= '9' {
            c as u32 - '0' as u32
        } else if 'a' <= c && c <= 'f' {
            c as u32 - 'a' as u32 + 10
        } else if 'A' <= c && c <= 'F' {
            c as u32 - 'A' as u32 + 10
        } else {
            proof {
                lemma_digits_none(s@, i + 1, len as int, radix as int);
            }
            return None;
        };
        if d >= radix {
            proof {
                lemma_digits_none(s@, i + 1, len as int, radix as int);
            }
            return None;
        }
        let next = acc * radix + d;
        if next >= 0x10000 {
            proof {
                if digits_value(s@, len as int, radix as int).is_some() {
                    lemma_digits_monotone(s@, i + 1, len as int, radix as int);
                }
            }
            return None;
        }
        acc = next;
        i = i + 1;
    }
    Some(acc as u16)
}

/// Reads a hexadecimal 16-bit number, with or without a `0x` prefix.
pub fn hex_to_u16(s: &str) -> (r: Option<u16>)
    ensures
        r == number_u16(strip_hex_prefix(s@), 16),
{
    let len = s.unicode_len();
    if len >= 2 && s.get_char(0) == '0' && s.get_char(1) == 'x' {
        parse_u16(s.substring_char(2, len), 16)
    } else {
        parse_u16(s, 16)
    }
}

} // verus!
