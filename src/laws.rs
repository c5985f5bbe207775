//! Properties of the encoding that hold for every input.
use crate::arg_matching::{arg_bytes, from_be_bytes, Argument};
use crate::number::{all_digits, digit_of, digits_value, literal_value, negated};
use crate::parsers::{classify, ArgToken};
use vstd::prelude::*;

verus! {

/// A 16-bit word read back from the two bytes it is emitted as is the same word.
pub proof fn lemma_word_round_trip(v: u16)
    ensures
        arg_bytes(Argument::Word(v)).len() == 2,
        from_be_bytes(arg_bytes(Argument::Word(v))[0], arg_bytes(Argument::Word(v))[1]) == v,
        arg_bytes(Argument::Address(v)) == arg_bytes(Argument::Word(v)),
{
}

/// The decimal digit character of `d`.
pub open spec fn digit_char(d: nat) -> char {
    ((d + 48) as u8) as char
}

/// The decimal text of `n`, without leading zeros.
pub open spec fn decimal_text(n: nat) -> Seq<char>
    decreases n,
{
    if n < 10 {
        seq![digit_char(n)]
    } else {
        decimal_text(n / 10).push(digit_char(n % 10))
    }
}

proof fn lemma_decimal_text(n: nat)
    ensures
        decimal_text(n).len() > 0,
        all_digits(decimal_text(n), 10),
        digits_value(decimal_text(n), 10) == n,
        '0' <= decimal_text(n)[0] && decimal_text(n)[0] <= '9',
    decreases n,
{
    if n < 10 {
        let s = decimal_text(n);
        assert(digit_of(digit_char(n), 10) == Some(n));
        assert(s.drop_last() =~= Seq::<char>::empty());
        assert(digits_value(s, 10) == digits_value(s.drop_last(), 10) * 10 + n);
    } else {
        lemma_decimal_text(n / 10);
        let p = decimal_text(n / 10);
        let s = decimal_text(n);
        assert(s.drop_last() =~= p);
        assert(digit_of(digit_char(n % 10), 10) == Some(n % 10));
        assert forall|i: int| 0 <= i < s.len() implies (#[trigger] digit_of(s[i], 10)) is Some by {
            if i < p.len() {
                assert(s[i] == p[i]);
            }
        }
        assert(s[0] == p[0]);
        assert(s.last() == digit_char(n % 10));
        assert(digits_value(s, 10) == digits_value(p, 10) * 10 + n % 10);
        assert(n == (n / 10) * 10 + n % 10);
    }
}

/// Every 16-bit value written in decimal reads back as itself.
pub proof fn lemma_decimal_round_trip(v: u16)
    ensures
        literal_value(decimal_text(v as nat)) == Ok::<Option<u16>, crate::number::NumberFault>(
            Some(v),
        ),
{
    lemma_decimal_text(v as nat);
}

/// The text of a signed decimal: a `-` before the digits of a negative value.
pub open spec fn signed_text(s: int) -> Seq<char> {
    if s < 0 {
        seq!['-'] + decimal_text((-s) as nat)
    } else {
        decimal_text(s as nat)
    }
}

/// The 16-bit two's complement pattern of `s`.
pub open spec fn twos_complement(s: int) -> u16 {
    (if s < 0 {
        s + 65536
    } else {
        s
    }) as u16
}

/// Every value in the signed 16-bit range, written in decimal, reads as its
/// two's complement pattern: `-1` is 65535, `-32768` is 32768.
pub proof fn lemma_signed_wraps(s: int)
    requires
        -32768 <= s <= 32767,
    ensures
        literal_value(signed_text(s)) == Ok::<Option<u16>, crate::number::NumberFault>(
            Some(twos_complement(s)),
        ),
{
    if s < 0 {
        let v = (-s) as nat;
        lemma_decimal_text(v);
        let t = signed_text(s);
        assert(t.drop_first() =~= decimal_text(v));
        assert(negated(v) == twos_complement(s));
    } else {
        lemma_decimal_text(s as nat);
    }
}

/// The numeric value an immediate operand carries.
pub open spec fn immediate_value(a: Argument) -> int {
    match a {
        Argument::Byte(b) => b as int,
        Argument::Word(w) => w as int,
        _ => -1,
    }
}

/// A number becomes a byte exactly when the instruction is byte-sized and the
/// value is under 256, keeping its value either way; narrowing the result's
/// value again gives the same operand.
pub proof fn lemma_byte_narrowing(n: u16, narrow: bool)
    ensures
        classify(ArgToken::Number(n), narrow) is Byte <==> (narrow && n < 256),
        classify(ArgToken::Number(n), narrow) is Word <==> !(narrow && n < 256),
        immediate_value(classify(ArgToken::Number(n), narrow)) == n,
        classify(
            ArgToken::Number(immediate_value(classify(ArgToken::Number(n), narrow)) as u16),
            narrow,
        ) == classify(ArgToken::Number(n), narrow),
{
}

} // verus!
