//! Operand recognition: addresses, numbers, and registers with their
//! addressing-mode decorations.
use crate::arg_matching::Argument;
use crate::number::{detect_num, literal_value, reports_fault, NumberFault};
use crate::registers::{
    mode_bits, register_id, register_named, register_size, register_width, RegisterMode, ID, PP,
};
use crate::text::{
    chars_of, drop_spaces, find_char, first_index, is_space, is_space_char, string_of,
    without_spaces,
};
use crate::ParseError;
use vstd::prelude::*;

verus! {

/// An operand before the instruction's size is taken into account.
#[derive(Debug, Clone, Copy, PartialEq, Eq, Structural)]
pub enum ArgToken {
    Address(u16),
    Register(u8, Option<u8>, Option<u16>),
    Number(u16),
}

/// The argument a token becomes; `narrow` is set for byte-sized instructions.
pub open spec fn classify(t: ArgToken, narrow: bool) -> Argument {
    match t {
        ArgToken::Address(a) => Argument::Address(a),
        ArgToken::Register(op, offset_reg, offset_num) => if op >= 128 {
            Argument::IndirectReg(op, offset_reg, offset_num)
        } else if register_width((op % 16) as u8) == 1 {
            Argument::Register(op)
        } else {
            Argument::ExtReg(op)
        },
        ArgToken::Number(n) => if narrow && n < 256 {
            Argument::Byte(n as u8)
        } else {
            Argument::Word(n)
        },
    }
}

impl ArgToken {
    /// A number becomes a byte when `convert_word_to_byte` is set and it fits;
    /// a register is direct byte, direct word, or indirect.
    pub fn to_argument(self, convert_word_to_byte: bool) -> (r: Argument)
        ensures
            r == classify(self, convert_word_to_byte),
    {
        match self {
            ArgToken::Address(addr) => Argument::Address(addr),
            ArgToken::Register(op, offset_reg, offset_num) => {
                if op >= 128 {
                    Argument::IndirectReg(op, offset_reg, offset_num)
                } else if register_size(op % 16) == 1 {
                    Argument::Register(op)
                } else {
                    Argument::ExtReg(op)
                }
            },
            ArgToken::Number(num) => {
                if convert_word_to_byte && num < 256 {
                    Argument::Byte(num as u8)
                } else {
                    Argument::Word(num)
                }
            },
        }
    }
}

pub open spec fn is_sign(c: char) -> bool {
    c == '+' || c == '-'
}

/// A leading or trailing `+`/`-` and the text without it.
pub open spec fn ppid_split(s: Seq<char>) -> (Option<(PP, ID)>, Seq<char>) {
    if s.len() > 0 && s[0] == '-' {
        (Some((PP::Pre, ID::Dec)), s.drop_first())
    } else if s.len() > 0 && s[0] == '+' {
        (Some((PP::Pre, ID::Inc)), s.drop_first())
    } else if s.len() > 0 && s.last() == '-' {
        (Some((PP::Post, ID::Dec)), s.drop_last())
    } else if s.len() > 0 && s.last() == '+' {
        (Some((PP::Post, ID::Inc)), s.drop_last())
    } else {
        (None, s)
    }
}

/// Surrounding parentheses: whether there are any and the text inside;
/// `None` when an opening one is not closed at the end.
pub open spec fn indirect_split(s: Seq<char>) -> Option<(bool, Seq<char>)> {
    if s.len() > 0 && s[0] == '(' {
        if s.len() >= 2 && s.last() == ')' {
            Some((true, s.subrange(1, s.len() - 1)))
        } else {
            None
        }
    } else {
        Some((false, s))
    }
}

/// The offset that a text names: a byte register, a word register, or a number.
pub open spec fn offset_of(s: Seq<char>) -> Option<Offset> {
    match register_named(s) {
        Some(r) => if register_width(r) == 1 {
            Some(Offset { reg: Some(r), ext_reg: None, num: None })
        } else {
            Some(Offset { reg: None, ext_reg: Some(r), num: None })
        },
        None => match literal_value(s) {
            Ok(Some(n)) => Some(Offset { reg: None, ext_reg: None, num: Some(n) }),
            _ => None,
        },
    }
}

/// Which error a register operand gets. `Decoration` is a register with both
/// a leading and a trailing `+`/`-`: never read as a number instead.
#[derive(Debug, Clone, Copy, PartialEq, Eq)]
pub enum RegisterFault {
    Register,
    Offset,
    Decoration,
}

/// More than one pre/post increment/decrement, on either side.
pub open spec fn two_decorations(s: Seq<char>) -> bool {
    let (ppid, rest) = ppid_split(drop_spaces(s));
    ppid is Some && rest.len() > 0 && (is_sign(rest[0]) || is_sign(rest.last()))
}

/// A register operand: its mode byte (id plus addressing-mode bits) and offset,
/// or the fault.
pub open spec fn register_operand(s: Seq<char>) -> Result<(u8, Option<u8>, Option<u16>), RegisterFault> {
    let (ppid, rest) = ppid_split(drop_spaces(s));
    if two_decorations(s) {
        Err(RegisterFault::Decoration)
    } else {
        match indirect_split(rest) {
            None => Err(RegisterFault::Register),
            Some((indirect, inner)) => {
                let k = first_index(inner, '+');
                if k < inner.len() {
                    if ppid is Some || !indirect {
                        Err(RegisterFault::Register)
                    } else {
                        match register_named(inner.subrange(0, k)) {
                            None => Err(RegisterFault::Register),
                            Some(id) => match offset_of(inner.subrange(k + 1, inner.len() as int)) {
                                None => Err(RegisterFault::Offset),
                                Some(off) => Ok(
                                    (
                                        (id + mode_bits(
                                            true,
                                            off.reg is Some,
                                            off.num is Some,
                                            off.ext_reg is Some,
                                            None,
                                        )) as u8,
                                        if off.reg is Some {
                                            off.reg
                                        } else {
                                            off.ext_reg
                                        },
                                        off.num,
                                    ),
                                ),
                            },
                        }
                    }
                } else {
                    match register_named(inner) {
                        None => Err(RegisterFault::Register),
                        Some(id) => Ok(
                            ((id + mode_bits(indirect, false, false, false, ppid)) as u8, None, None),
                        ),
                    }
                }
            },
        }
    }
}

pub open spec fn reports_register_fault(e: ParseError, fault: RegisterFault, line: usize) -> bool {
    match fault {
        RegisterFault::Register => e matches ParseError::InvalidRegister(l, _, _) && l == line,
        RegisterFault::Offset => e matches ParseError::InvalidOffset(l, _) && l == line,
        RegisterFault::Decoration => e matches ParseError::InvalidRegister(l, _, _) && l == line,
    }
}

/// Splits a pre/post increment/decrement off `reg`.
pub fn detect_ppid(reg: &str) -> (r: (Option<(PP, ID)>, &str))
    ensures
        r.0 == ppid_split(reg@).0,
        r.1@ == ppid_split(reg@).1,
{
    let n = reg.unicode_len();
    if n == 0 {
        return (None, reg);
    }
    let first = reg.get_char(0);
    let last = reg.get_char(n - 1);
    if first == '-' {
        (Some((PP::Pre, ID::Dec)), reg.substring_char(1, n))
    } else if first == '+' {
        (Some((PP::Pre, ID::Inc)), reg.substring_char(1, n))
    } else if last == '-' {
        (Some((PP::Post, ID::Dec)), reg.substring_char(0, n - 1))
    } else if last == '+' {
        (Some((PP::Post, ID::Inc)), reg.substring_char(0, n - 1))
    } else {
        (None, reg)
    }
}

/// Splits surrounding parentheses off `remaining`; an opening one that is not
/// closed at the end is an invalid register.
pub fn detect_indirect<'a>(line_num: usize, original: &str, remaining: &'a str) -> (r: Result<
    (bool, &'a str),
    ParseError,
>)
    ensures
        match indirect_split(remaining@) {
            Some((b, inner)) => r is Ok && r->Ok_0.0 == b && r->Ok_0.1@ == inner,
            None => r is Err && reports_register_fault(
                r->Err_0,
                RegisterFault::Register,
                line_num,
            ),
        },
{
    let n = remaining.unicode_len();
    if n > 0 && remaining.get_char(0) == '(' {
        if n >= 2 && remaining.get_char(n - 1) == ')' {
            Ok((true, remaining.substring_char(1, n - 1)))
        } else {
            Err(
                ParseError::InvalidRegister(
                    line_num,
                    original.to_owned(),
                    String::from_str("')' at end, as '(' was found at start"),
                ),
            )
        }
    } else {
        Ok((false, remaining))
    }
}

/// The id of the register that `remaining` names.
pub fn detect_register(line_num: usize, original: &str, remaining: &str) -> (r: Result<
    u8,
    ParseError,
>)
    ensures
        match register_named(remaining@) {
            Some(id) => r == Ok::<u8, ParseError>(id),
            None => r is Err && reports_register_fault(
                r->Err_0,
                RegisterFault::Register,
                line_num,
            ),
        },
{
    match register_id(remaining) {
        Some(id) => Ok(id),
        None => Err(
            ParseError::InvalidRegister(
                line_num,
                original.to_owned(),
                String::from_str("a register name"),
            ),
        ),
    }
}

/// The offset of an indirect register: at most one of the three is set.
#[derive(Debug, Default, Clone, Copy, PartialEq, Eq, Structural)]
pub struct Offset {
    pub reg: Option<u8>,
    pub ext_reg: Option<u8>,
    pub num: Option<u16>,
}

impl Offset {
    pub fn new(reg: Option<u8>, ext_reg: Option<u8>, num: Option<u16>) -> (r: Self)
        ensures
            r == (Offset { reg, ext_reg, num }),
    {
        Self { reg, ext_reg, num }
    }

    /// The offset register, byte or word.
    pub fn reg(&self) -> (r: Option<u8>)
        ensures
            r == if self.reg is Some {
                self.reg
            } else {
                self.ext_reg
            },
    {
        if self.reg.is_some() {
            self.reg
        } else {
            self.ext_reg
        }
    }
}

/// Reads an offset: a register name first, then a number.
pub fn detect_offset(line_num: usize, original: &str, offset: &str) -> (r: Result<
    Offset,
    ParseError,
>)
    ensures
        match offset_of(offset@) {
            Some(o) => r == Ok::<Offset, ParseError>(o),
            None => r is Err && reports_register_fault(r->Err_0, RegisterFault::Offset, line_num),
        },
{
    let num_result = detect_num(line_num, original, offset);
    match register_id(offset) {
        Some(reg) => if register_size(reg) == 1 {
            Ok(Offset::new(Some(reg), None, None))
        } else {
            Ok(Offset::new(None, Some(reg), None))
        },
        None => match num_result {
            Ok(Some(num)) => Ok(Offset::new(None, None, Some(num))),
            _ => Err(ParseError::InvalidOffset(line_num, offset.to_owned())),
        },
    }
}

} // verus!

verus! {

/// Whether `reg` carries more than one increment/decrement decoration.
pub fn has_two_decorations(reg: &str) -> (r: bool)
    ensures
        r == two_decorations(reg@),
{
    let compact = without_spaces(reg);
    let (ppid, rest) = detect_ppid(compact.as_str());
    let n = rest.unicode_len();
    if ppid.is_some() && n > 0 {
        let first = rest.get_char(0);
        let last = rest.get_char(n - 1);
        first == '+' || first == '-' || last == '+' || last == '-'
    } else {
        false
    }
}

/// Reads a register operand: an optional leading or trailing `+`/`-`, optional
/// parentheses for indirection, and inside them an optional `+offset`.
/// Whitespace anywhere is ignored.
pub fn parse_register(line_num: usize, reg: &str) -> (r: Result<ArgToken, ParseError>)
    ensures
        match register_operand(reg@) {
            Ok((op, offset_reg, offset_num)) => r == Ok::<ArgToken, ParseError>(
                ArgToken::Register(op, offset_reg, offset_num),
            ),
            Err(fault) => r is Err && reports_register_fault(r->Err_0, fault, line_num),
        },
{
    if has_two_decorations(reg) {
        return Err(
            ParseError::InvalidRegister(
                line_num,
                reg.to_owned(),
                String::from_str("at most one increment or decrement"),
            ),
        );
    }
    let compact = without_spaces(reg);
    let (ppid, rest) = detect_ppid(compact.as_str());
    let (is_indirect, inner) = detect_indirect(line_num, reg, rest)?;
    let chars = chars_of(inner);
    let k = find_char(&chars, '+');
    if k < chars.len() {
        if ppid.is_some() {
            return Err(
                ParseError::InvalidRegister(
                    line_num,
                    reg.to_owned(),
                    String::from_str("Can't use PPID and offset"),
                ),
            );
        }
        if !is_indirect {
            return Err(
                ParseError::InvalidRegister(
                    line_num,
                    reg.to_owned(),
                    String::from_str("an offset needs parentheses"),
                ),
            );
        }
        let dst_text = string_of(&chars, 0, k);
        let dst = detect_register(line_num, reg, dst_text.as_str())?;
        let offset_text = string_of(&chars, k + 1, chars.len());
        let offset = detect_offset(line_num, reg, offset_text.as_str())?;
        let mode = RegisterMode {
            is_indirect: true,
            is_offset_reg: offset.reg.is_some(),
            is_offset_num: offset.num.is_some(),
            is_offset_ext_reg: offset.ext_reg.is_some(),
            ppid: None,
        };
        let meta = mode.to_bits();
        Ok(ArgToken::Register(dst + meta, offset.reg(), offset.num))
    } else {
        let id = detect_register(line_num, reg, inner)?;
        let mode = RegisterMode {
            is_indirect,
            is_offset_reg: false,
            is_offset_num: false,
            is_offset_ext_reg: false,
            ppid,
        };
        let meta = mode.to_bits();
        Ok(ArgToken::Register(id + meta, None, None))
    }
}

pub open spec fn is_trimmed(c: char) -> bool {
    c == ',' || is_space(c)
}

pub open spec fn trim_start(s: Seq<char>) -> Seq<char>
    decreases s.len(),
{
    if s.len() > 0 && is_trimmed(s[0]) {
        trim_start(s.drop_first())
    } else {
        s
    }
}

pub open spec fn trim_end(s: Seq<char>) -> Seq<char>
    decreases s.len(),
{
    if s.len() > 0 && is_trimmed(s.last()) {
        trim_end(s.drop_last())
    } else {
        s
    }
}

/// An operand without the commas and whitespace around it.
pub open spec fn trim_arg(s: Seq<char>) -> Seq<char> {
    trim_end(trim_start(s))
}

proof fn lemma_trim_start(s: Seq<char>, lo: int)
    requires
        0 <= lo <= s.len(),
        forall|j: int| 0 <= j < lo ==> is_trimmed(#[trigger] s[j]),
        lo == s.len() || !is_trimmed(s[lo]),
    ensures
        trim_start(s) == s.subrange(lo, s.len() as int),
    decreases lo,
{
    if lo == 0 {
        assert(s.subrange(0, s.len() as int) =~= s);
    } else {
        let t = s.drop_first();
        assert forall|j: int| 0 <= j < lo - 1 implies is_trimmed(#[trigger] t[j]) by {
            assert(t[j] == s[j + 1]);
        }
        if lo < s.len() {
            assert(t[lo - 1] == s[lo]);
        }
        lemma_trim_start(t, lo - 1);
        assert(t.subrange(lo - 1, t.len() as int) =~= s.subrange(lo, s.len() as int));
    }
}

proof fn lemma_trim_end(s: Seq<char>, hi: int)
    requires
        0 <= hi <= s.len(),
        forall|j: int| hi <= j < s.len() ==> is_trimmed(#[trigger] s[j]),
        hi == 0 || !is_trimmed(s[hi - 1]),
    ensures
        trim_end(s) == s.subrange(0, hi),
    decreases s.len() - hi,
{
    if hi == s.len() {
        assert(s.subrange(0, hi) =~= s);
    } else {
        let t = s.drop_last();
        assert(is_trimmed(s[s.len() - 1]));
        assert forall|j: int| hi <= j < t.len() implies is_trimmed(#[trigger] t[j]) by {
            assert(t[j] == s[j]);
        }
        if hi > 0 {
            assert(t[hi - 1] == s[hi - 1]);
        }
        lemma_trim_end(t, hi);
        assert(t.subrange(0, hi) =~= s.subrange(0, hi));
    }
}

/// `e` reports `fault` of an address literal: format and range errors are
/// re-tagged as address errors.
pub open spec fn reports_address_fault(
    e: ParseError,
    fault: NumberFault,
    line: usize,
    original: Seq<char>,
    remaining: Seq<char>,
) -> bool {
    match fault {
        NumberFault::HexFormat => e matches ParseError::AddressHexFormat(l, t, _) && l == line
            && t@ == original,
        NumberFault::Format => e matches ParseError::AddressNumFormat(l, t, _) && l == line && t@
            == original,
        NumberFault::TooBig => e matches ParseError::AddressTooBig(l, t) && l == line && t@
            == original,
        _ => reports_fault(e, fault, line, original, remaining),
    }
}

/// The token an operand text reads as, when it reads at all.
pub open spec fn argument_value(arg: Seq<char>) -> Option<ArgToken> {
    let t = trim_arg(arg);
    if t.len() > 0 && t[0] == '$' {
        match literal_value(t.drop_first()) {
            Ok(Some(v)) => Some(ArgToken::Address(v)),
            _ => None,
        }
    } else {
        match register_operand(t) {
            Ok((op, offset_reg, offset_num)) => Some(ArgToken::Register(op, offset_reg, offset_num)),
            Err(RegisterFault::Decoration) => None,
            Err(_) => match literal_value(t) {
                Ok(Some(v)) => Some(ArgToken::Number(v)),
                _ => None,
            },
        }
    }
}

/// What reading operand `arg` on line `line_num` gives: `$` and a literal is
/// an address; otherwise a register, and failing that a literal number. When
/// neither fits, the register's error is reported; a register with two
/// decorations is a register error and is not read as a number.
pub open spec fn argument_outcome(line_num: usize, arg: Seq<char>, r: Result<ArgToken, ParseError>) -> bool {
    let t = trim_arg(arg);
    if t.len() > 0 && t[0] == '$' {
        match literal_value(t.drop_first()) {
            Ok(Some(v)) => r == Ok::<ArgToken, ParseError>(ArgToken::Address(v)),
            Ok(None) => r is Err && (r->Err_0 matches ParseError::General(l, _, _) && l
                == line_num),
            Err(fault) => r is Err && reports_address_fault(
                r->Err_0,
                fault,
                line_num,
                arg,
                t.drop_first(),
            ),
        }
    } else {
        match register_operand(t) {
            Ok((op, offset_reg, offset_num)) => r == Ok::<ArgToken, ParseError>(
                ArgToken::Register(op, offset_reg, offset_num),
            ),
            Err(RegisterFault::Decoration) => r is Err && reports_register_fault(
                r->Err_0,
                RegisterFault::Decoration,
                line_num,
            ),
            Err(reg_fault) => match literal_value(t) {
                Ok(Some(v)) => r == Ok::<ArgToken, ParseError>(ArgToken::Number(v)),
                Ok(None) => r is Err && reports_register_fault(r->Err_0, reg_fault, line_num),
                Err(fault) => r is Err && reports_fault(r->Err_0, fault, line_num, arg, t),
            },
        }
    }
}

/// Reads one operand; see `argument_outcome`.
pub fn parse_argument(line_num: usize, arg: &str) -> (r: Result<ArgToken, ParseError>)
    ensures
        match argument_value(arg@) {
            Some(t) => r == Ok::<ArgToken, ParseError>(t),
            None => r is Err,
        },
        argument_outcome(line_num, arg@, r),
{
    let s = chars_of(arg);
    let n = s.len();
    let mut lo: usize = 0;
    while lo < n && (s[lo] == ',' || is_space_char(s[lo]))
        invariant
            n == s@.len(),
            lo <= n,
            forall|j: int| 0 <= j < lo ==> is_trimmed(#[trigger] s@[j]),
        decreases n - lo,
    {
        lo = lo + 1;
    }
    proof {
        lemma_trim_start(s@, lo as int);
    }
    let mut hi: usize = n;
    while hi > lo && (s[hi - 1] == ',' || is_space_char(s[hi - 1]))
        invariant
            n == s@.len(),
            lo <= hi <= n,
            forall|j: int| hi <= j < n ==> is_trimmed(#[trigger] s@[j]),
        decreases hi - lo,
    {
        hi = hi - 1;
    }
    proof {
        let u = s@.subrange(lo as int, n as int);
        assert forall|j: int| hi - lo <= j < u.len() implies is_trimmed(#[trigger] u[j]) by {
            assert(u[j] == s@[j + lo]);
        }
        if hi > lo {
            assert(u[hi - lo - 1] == s@[hi - 1]);
        }
        lemma_trim_end(u, hi - lo);
        assert(u.subrange(0, hi - lo) =~= s@.subrange(lo as int, hi as int));
        assert(s@ == arg@);
    }
    let trimmed = string_of(&s, lo, hi);
    let t = trimmed.as_str();
    if hi > lo && s[lo] == '$' {
        let rest = string_of(&s, lo + 1, hi);
        assert(rest@ =~= t@.drop_first());
        match detect_num(line_num, arg, rest.as_str()) {
            Ok(Some(addr)) => Ok(ArgToken::Address(addr)),
            Ok(None) => Err(
                ParseError::General(
                    line_num,
                    arg.to_owned(),
                    String::from_str("No address after $"),
                ),
            ),
            Err(err) => Err(err.num_to_addr()),
        }
    } else {
        match parse_register(line_num, t) {
            Ok(reg) => Ok(reg),
            Err(reg_err) => if has_two_decorations(t) {
                Err(reg_err)
            } else {
                match detect_num(line_num, arg, t)? {
                    Some(num) => Ok(ArgToken::Number(num)),
                    None => Err(reg_err),
                }
            },
        }
    }
}

} // verus!
