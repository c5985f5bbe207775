//! Operands as plain tokens, for callers that only need one byte per
//! register operand: the size rule is given by the caller.
use crate::arg_matching::{be_bytes, Argument};
use crate::parsers::{argument_value, classify, parse_argument};
use crate::text::{chars_of, push_char, upper_char, upper_char_exec};
use crate::ParseError;
use vstd::prelude::*;

verus! {

/// An operand once its size is settled; a register carries its mode byte only.
#[derive(Debug, Clone, Copy, PartialEq, Eq, Structural)]
pub enum Token {
    Byte(u8),
    Word(u16),
    Address(u16),
    Register(u8),
    ExtRegister(u8),
    IndirectRegister(u8),
}

pub open spec fn token_of(a: Argument) -> Token {
    match a {
        Argument::Address(v) => Token::Address(v),
        Argument::Register(r) => Token::Register(r),
        Argument::ExtReg(r) => Token::ExtRegister(r),
        Argument::IndirectReg(r, _, _) => Token::IndirectRegister(r),
        Argument::Word(v) => Token::Word(v),
        Argument::Byte(b) => Token::Byte(b),
    }
}

pub open spec fn token_letter(t: Token) -> char {
    match t {
        Token::Byte(_) => 'B',
        Token::Word(_) => 'W',
        Token::Address(_) => 'A',
        Token::Register(_) => 'R',
        Token::ExtRegister(_) => 'E',
        Token::IndirectRegister(_) => 'I',
    }
}

pub open spec fn token_bytes(t: Token) -> Seq<u8> {
    match t {
        Token::Byte(b) => seq![b],
        Token::Word(w) => be_bytes(w),
        Token::Address(a) => be_bytes(a),
        Token::Register(r) => seq![r],
        Token::ExtRegister(r) => seq![r],
        Token::IndirectRegister(r) => seq![r],
    }
}

impl Token {
    /// Words and addresses as two bytes high first, everything else as one.
    pub fn to_bytes(&self) -> (r: Vec<u8>)
        ensures
            r@ == token_bytes(*self),
    {
        let r = match self {
            Token::Byte(b) => vec![*b],
            Token::Word(w) => vec![(*w / 256) as u8, (*w % 256) as u8],
            Token::Address(a) => vec![(*a / 256) as u8, (*a % 256) as u8],
            Token::Register(r) => vec![*r],
            Token::ExtRegister(r) => vec![*r],
            Token::IndirectRegister(r) => vec![*r],
        };
        assert(r@ =~= token_bytes(*self));
        r
    }
}

pub open spec fn is_dec(c: char) -> bool {
    '0' <= c && c <= '9'
}

pub open spec fn dec_run(s: Seq<char>, from: int, n: int) -> bool {
    s.len() >= from + n && forall|j: int| from <= j < from + n ==> is_dec(#[trigger] s[j])
}

/// A token shape that is invalid on sight.
#[derive(Debug, Clone, Copy, PartialEq, Eq)]
pub enum InvalidShape {
    LongAddress,
    LongNumber,
    IndirectByteRegister,
}

/// Which of the plainly invalid shapes a token has: `x` and six or more
/// decimal digits (an address out of range), six or more decimal digits (a
/// number out of range), or a byte register in parentheses.
pub open spec fn known_invalid(s: Seq<char>) -> Option<InvalidShape> {
    if s.len() >= 1 && s[0] == 'x' && dec_run(s, 1, 6) {
        Some(InvalidShape::LongAddress)
    } else if dec_run(s, 0, 6) {
        Some(InvalidShape::LongNumber)
    } else if s.len() >= 4 && s[0] == '(' && 'A' <= upper_char(s[1]) && upper_char(s[1]) <= 'D'
        && (upper_char(s[2]) == 'L' || upper_char(s[2]) == 'H') && s[3] == ')' {
        Some(InvalidShape::IndirectByteRegister)
    } else {
        None
    }
}

fn dec_run_exec(s: &Vec<char>, from: usize, n: usize) -> (r: bool)
    requires
        from + n <= usize::MAX,
    ensures
        r == dec_run(s@, from as int, n as int),
{
    if s.len() < from + n {
        return false;
    }
    let end = from + n;
    let mut j: usize = from;
    while j < end
        invariant
            end == from + n,
            from <= j <= from + n <= s@.len(),
            forall|k: int| from <= k < j ==> is_dec(#[trigger] s@[k]),
        decreases from + n - j,
    {
        if !('0' <= s[j] && s[j] <= '9') {
            return false;
        }
        j = j + 1;
    }
    true
}

/// Rejects the token shapes that are invalid on sight: an over-long address
/// or number, or a byte register used indirectly.
pub fn check_known_invalid_values(text: &str) -> (r: Result<(), ParseError>)
    ensures
        match known_invalid(text@) {
            None => r is Ok,
            Some(InvalidShape::LongAddress) => r matches Err(ParseError::AddressTooBig(l, t)) && l == 0 && t@ == text@,
            Some(InvalidShape::LongNumber) => r matches Err(ParseError::NumberTooBig(l, t)) && l == 0 && t@ == text@,
            Some(InvalidShape::IndirectByteRegister) => r matches Err(ParseError::InvalidRegister(l, t, _)) && l == 0 && t@
                == text@,
        },
{
    let s = chars_of(text);
    if s.len() >= 1 && s[0] == 'x' && dec_run_exec(&s, 1, 6) {
        return Err(ParseError::AddressTooBig(0, text.to_owned()));
    }
    if dec_run_exec(&s, 0, 6) {
        return Err(ParseError::NumberTooBig(0, text.to_owned()));
    }
    if s.len() >= 4 && s[0] == '(' {
        let a = upper_char_exec(s[1]);
        let b = upper_char_exec(s[2]);
        if 'A' <= a && a <= 'D' && (b == 'L' || b == 'H') && s[3] == ')' {
            return Err(
                ParseError::InvalidRegister(
                    0,
                    text.to_owned(),
                    String::from_str("an extended register"),
                ),
            );
        }
    }
    Ok(())
}

/// The token a text reads as; `promote_bytes` keeps small numbers as words.
pub open spec fn token_value(text: Seq<char>, promote_bytes: bool) -> Option<Token> {
    if known_invalid(text) is Some {
        None
    } else {
        match argument_value(text) {
            Some(t) => Some(token_of(classify(t, !promote_bytes))),
            None => None,
        }
    }
}

/// Reads one operand as a token, numbered line 0.
pub fn create_token(text: &str, promote_bytes: bool) -> (r: Result<Token, ParseError>)
    ensures
        match token_value(text@, promote_bytes) {
            Some(t) => r == Ok::<Token, ParseError>(t),
            None => r is Err,
        },
{
    check_known_invalid_values(text)?;
    let argument = parse_argument(0, text)?.to_argument(!promote_bytes);
    Ok(
        match argument {
            Argument::Address(addr) => Token::Address(addr),
            Argument::Register(reg) => Token::Register(reg),
            Argument::ExtReg(reg) => Token::ExtRegister(reg),
            Argument::IndirectReg(reg, _, _) => Token::IndirectRegister(reg),
            Argument::Word(word) => Token::Word(word),
            Argument::Byte(byte) => Token::Byte(byte),
        },
    )
}

pub open spec fn token_letters(list: Seq<Token>) -> Seq<char> {
    list.map_values(|t: Token| token_letter(t))
}

/// The operand pattern of a token list: one letter per token.
pub fn to_args_str(list: &[Token]) -> (r: String)
    ensures
        r@ == token_letters(list@),
{
    let mut output = String::new();
    let mut i: usize = 0;
    while i < list.len()
        invariant
            i <= list@.len(),
            output@ == token_letters(list@.subrange(0, i as int)),
        decreases list@.len() - i,
    {
        let c = match list[i] {
            Token::Byte(_) => 'B',
            Token::Word(_) => 'W',
            Token::Address(_) => 'A',
            Token::Register(_) => 'R',
            Token::ExtRegister(_) => 'E',
            Token::IndirectRegister(_) => 'I',
        };
        push_char(&mut output, c);
        i = i + 1;
        assert(output@ =~= token_letters(list@.subrange(0, i as int)));
    }
    assert(list@.subrange(0, list@.len() as int) =~= list@);
    output
}

} // verus!
