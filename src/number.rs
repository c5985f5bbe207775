//! Numeric and character literals.
use crate::text::chars_of;
use crate::ParseError;
use vstd::prelude::*;

verus! {

/// The value of digit `c` in base `radix`, if it is one.
pub open spec fn digit_of(c: char, radix: nat) -> Option<nat> {
    let u = c as u32;
    let d: nat = if '0' <= c && c <= '9' {
        (u - 48) as nat
    } else if 'a' <= c && c <= 'f' {
        (u - 87) as nat
    } else if 'A' <= c && c <= 'F' {
        (u - 55) as nat
    } else {
        99
    };
    if d < radix {
        Some(d)
    } else {
        None
    }
}

pub open spec fn all_digits(s: Seq<char>, radix: nat) -> bool {
    forall|i: int| 0 <= i < s.len() ==> (#[trigger] digit_of(s[i], radix)) is Some
}

/// The value of the digit string `s` in base `radix`, most significant digit first.
pub open spec fn digits_value(s: Seq<char>, radix: nat) -> nat
    decreases s.len(),
{
    if s.len() == 0 {
        0
    } else {
        digits_value(s.drop_last(), radix) * radix + match digit_of(s.last(), radix) {
            Some(d) => d,
            None => 0,
        }
    }
}

/// How a literal fails.
#[derive(Debug, Clone, Copy, PartialEq, Eq)]
pub enum NumberFault {
    InvalidCharacter,
    HexFormat,
    Format,
    TooBig,
    SignedFormat,
    SignedRange,
}

/// An unsigned literal: at least one digit, and a value that fits 16 bits.
pub open spec fn unsigned_value(d: Seq<char>, radix: nat, malformed: NumberFault) -> Result<
    Option<u16>,
    NumberFault,
> {
    if d.len() == 0 || !all_digits(d, radix) {
        Err(malformed)
    } else if digits_value(d, radix) > 65535 {
        Err(NumberFault::TooBig)
    } else {
        Ok(Some(digits_value(d, radix) as u16))
    }
}

/// The two's complement pattern of `-v` in 16 bits.
pub open spec fn negated(v: nat) -> u16 {
    if v == 0 {
        0
    } else {
        (65536 - v) as u16
    }
}

/// What a token is as a literal: a value, not a literal at all (`Ok(None)`), or a fault.
pub open spec fn literal_value(s: Seq<char>) -> Result<Option<u16>, NumberFault> {
    if s.len() >= 1 && s[0] == '\'' && s.last() == '\'' {
        if s.len() == 3 && (s[1] as u32) < 128 {
            Ok(Some((s[1] as u32) as u16))
        } else if s == seq!['\'', '\\', '\'', '\''] {
            Ok(Some(39))
        } else {
            Err(NumberFault::InvalidCharacter)
        }
    } else if s.len() >= 1 && s[0] == 'x' {
        unsigned_value(s.drop_first(), 16, NumberFault::HexFormat)
    } else if s.len() >= 1 && s[0] == 'b' {
        unsigned_value(s.drop_first(), 2, NumberFault::Format)
    } else if s.len() >= 1 && s[0] == '-' {
        let d = s.drop_first();
        if d.len() == 0 || !all_digits(d, 10) {
            Err(NumberFault::SignedFormat)
        } else if digits_value(d, 10) > 32768 {
            Err(NumberFault::SignedRange)
        } else {
            Ok(Some(negated(digits_value(d, 10))))
        }
    } else if all_digits(s, 10) {
        unsigned_value(s, 10, NumberFault::Format)
    } else {
        Ok(None)
    }
}

/// `e` is the error that reports `fault` for the token `remaining`, cut from
/// `original`, on line `line`.
pub open spec fn reports_fault(
    e: ParseError,
    fault: NumberFault,
    line: usize,
    original: Seq<char>,
    remaining: Seq<char>,
) -> bool {
    match fault {
        NumberFault::InvalidCharacter => e matches ParseError::InvalidCharacter(l, t) && l == line
            && t@ == remaining,
        NumberFault::HexFormat => e matches ParseError::NumberHexFormat(l, t, _) && l == line
            && t@ == original,
        NumberFault::Format => e matches ParseError::NumberFormat(l, t, _) && l == line && t@
            == original,
        NumberFault::TooBig => e matches ParseError::NumberTooBig(l, t) && l == line && t@
            == original,
        NumberFault::SignedFormat => e matches ParseError::SignedNumberNumFormat(l, t, _) && l
            == line && t@ == original,
        NumberFault::SignedRange => e matches ParseError::SignedNumberNumRange(l, t) && l == line
            && t@ == original,
    }
}

/// The outcome of reading a run of digits.
enum Digits {
    Malformed,
    TooBig,
    Value(u16),
}

proof fn lemma_digits_grow(s: Seq<char>, radix: nat)
    requires
        s.len() > 0,
        radix >= 1,
    ensures
        digits_value(s, radix) >= digits_value(s.drop_last(), radix),
{
    let p = digits_value(s.drop_last(), radix);
    assert(p * radix >= p) by (nonlinear_arith)
        requires
            radix >= 1,
    ;
}

/// Reads `s[start..]` as digits in base `radix`.
fn read_digits(s: &Vec<char>, start: usize, radix: u32) -> (r: Digits)
    requires
        start <= s@.len(),
        2 <= radix <= 16,
    ensures
        ({
            let d = s@.subrange(start as int, s@.len() as int);
            match r {
                Digits::Malformed => d.len() == 0 || !all_digits(d, radix as nat),
                Digits::TooBig => d.len() > 0 && all_digits(d, radix as nat) && digits_value(
                    d,
                    radix as nat,
                ) > 65535,
                Digits::Value(v) => d.len() > 0 && all_digits(d, radix as nat) && digits_value(
                    d,
                    radix as nat,
                ) == v as nat,
            }
        }),
{
    if start == s.len() {
        return Digits::Malformed;
    }
    let mut acc: u32 = 0;
    let mut big = false;
    let mut i: usize = start;
    while i < s.len()
        invariant
            start <= i <= s@.len(),
            2 <= radix <= 16,
            all_digits(s@.subrange(start as int, i as int), radix as nat),
            big ==> digits_value(s@.subrange(start as int, i as int), radix as nat) > 65535,
            !big ==> acc as nat == digits_value(s@.subrange(start as int, i as int), radix as nat)
                && acc <= 65535,
        decreases s@.len() - i,
    {
        let c = s[i];
        let d: u32 = if '0' <= c && c <= '9' {
            c as u32 - 48
        } else if 'a' <= c && c <= 'f' {
            c as u32 - 87
        } else if 'A' <= c && c <= 'F' {
            c as u32 - 55
        } else {
            99
        };
        let ghost prev = s@.subrange(start as int, i as int);
        let ghost next = s@.subrange(start as int, i + 1);
        assert(next.drop_last() =~= prev);
        assert(next.last() == c);
        if d >= radix {
            assert(digit_of(next[next.len() - 1], radix as nat) is None);
            assert(s@.subrange(start as int, s@.len() as int)[i - start] == c);
            return Digits::Malformed;
        }
        assert(digit_of(c, radix as nat) == Some(d as nat));
        assert(all_digits(next, radix as nat)) by {
            assert forall|j: int| 0 <= j < next.len() implies (#[trigger] digit_of(
                next[j],
                radix as nat,
            )) is Some by {
                if j < prev.len() {
                    assert(next[j] == prev[j]);
                }
            }
        }
        if big {
            proof {
                lemma_digits_grow(next, radix as nat);
            }
        } else {
            assert(acc * radix <= 65535 * 16) by (nonlinear_arith)
                requires
                    acc <= 65535,
                    radix <= 16,
            ;
            let v = acc * radix + d;
            if v > 65535 {
                big = true;
            } else {
                acc = v;
            }
        }
        i = i + 1;
    }
    assert(s@.subrange(start as int, s@.len() as int) =~= s@.subrange(start as int, i as int));
    if big {
        Digits::TooBig
    } else {
        Digits::Value(acc as u16)
    }
}

/// Reads `remaining` as a literal: a character in single quotes, `x` and hex
/// digits, `b` and binary digits, `-` and a decimal (two's complement), or
/// decimal digits. `Ok(None)` when it is none of these; `original` is the text
/// that errors quote.
pub fn detect_num(line_num: usize, original: &str, remaining: &str) -> (r: Result<
    Option<u16>,
    ParseError,
>)
    ensures
        match literal_value(remaining@) {
            Ok(v) => r == Ok::<Option<u16>, ParseError>(v),
            Err(fault) => r is Err && reports_fault(
                r->Err_0,
                fault,
                line_num,
                original@,
                remaining@,
            ),
        },
{
    let s = chars_of(remaining);
    let n = s.len();
    if n >= 1 && s[0] == '\'' && s[n - 1] == '\'' {
        if n == 3 && (s[1] as u32) < 128 {
            return Ok(Some((s[1] as u32) as u16));
        }
        if n == 4 && s[1] == '\\' && s[2] == '\'' {
            assert(s@ =~= seq!['\'', '\\', '\'', '\'']);
            return Ok(Some(39));
        }
        assert(s@ != seq!['\'', '\\', '\'', '\''] || (n == 4 && s[1] == '\\' && s[2] == '\''));
        return Err(ParseError::InvalidCharacter(line_num, remaining.to_owned()));
    }
    if n >= 1 && (s[0] == 'x' || s[0] == 'b') {
        let hex = s[0] == 'x';
        let radix: u32 = if hex {
            16
        } else {
            2
        };
        assert(s@.drop_first() =~= s@.subrange(1, n as int));
        return match read_digits(&s, 1, radix) {
            Digits::Malformed => if hex {
                Err(ParseError::NumberHexFormat(line_num, original.to_owned(), String::from_str("invalid hex digits")))
            } else {
                Err(ParseError::NumberFormat(line_num, original.to_owned(), String::from_str("invalid binary digits")))
            },
            Digits::TooBig => Err(ParseError::NumberTooBig(line_num, original.to_owned())),
            Digits::Value(v) => Ok(Some(v)),
        };
    }
    if n >= 1 && s[0] == '-' {
        assert(s@.drop_first() =~= s@.subrange(1, n as int));
        return match read_digits(&s, 1, 10) {
            Digits::Malformed => Err(
                ParseError::SignedNumberNumFormat(line_num, original.to_owned(), String::from_str("invalid decimal digits")),
            ),
            Digits::TooBig => Err(ParseError::SignedNumberNumRange(line_num, original.to_owned())),
            Digits::Value(v) => if v > 32768 {
                Err(ParseError::SignedNumberNumRange(line_num, original.to_owned()))
            } else if v == 0 {
                Ok(Some(0))
            } else {
                Ok(Some((65536 - v as u32) as u16))
            },
        };
    }
    let mut i: usize = 0;
    while i < n
        invariant
            n == s@.len(),
            s@ == remaining@,
            i <= n,
            all_digits(s@.subrange(0, i as int), 10),
            n >= 1 ==> s@[0] != 'x' && s@[0] != 'b' && s@[0] != '-',
            n >= 1 ==> !(s@[0] == '\'' && s@[n - 1] == '\''),
        decreases n - i,
    {
        let c = s[i];
        if !('0' <= c && c <= '9') {
            assert(digit_of(s@[i as int], 10) is None);
            assert(!all_digits(s@, 10));
            return Ok(None);
        }
        let ghost next = s@.subrange(0, i + 1);
        assert forall|j: int| 0 <= j < next.len() implies (#[trigger] digit_of(next[j], 10)) is Some by {
            if j < i {
                assert(next[j] == s@.subrange(0, i as int)[j]);
            }
        }
        i = i + 1;
    }
    assert(s@.subrange(0, n as int) =~= s@);
    match read_digits(&s, 0, 10) {
        Digits::Malformed => Err(ParseError::NumberFormat(line_num, original.to_owned(), String::from_str("invalid decimal digits"))),
        Digits::TooBig => Err(ParseError::NumberTooBig(line_num, original.to_owned())),
        Digits::Value(v) => Ok(Some(v)),
    }
}

} // verus!
