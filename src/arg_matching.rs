//! Classified operands, their bytes, and the opcode lookup.
use crate::arg_patterns::{
    entry, family_rows, find_entry, lemma_opcode_in_range, lookup_mnemonic, lookup_row,
    opcode_for, rows, rows_view,
};
use crate::text::{chars_of, push_char};
use crate::ParseError;
use vstd::prelude::*;

verus! {

/// An operand once the instruction's size is known. Register payloads are the
/// register id with the addressing-mode bits added.
#[derive(Debug, Clone, Copy, PartialEq, Eq, Structural)]
pub enum Argument {
    Address(u16),
    Register(u8),
    ExtReg(u8),
    IndirectReg(u8, Option<u8>, Option<u16>),
    Word(u16),
    Byte(u8),
}

/// The pattern letter of an operand.
pub open spec fn letter_of(a: Argument) -> char {
    match a {
        Argument::Address(_) => 'A',
        Argument::Register(_) => 'R',
        Argument::ExtReg(_) => 'E',
        Argument::IndirectReg(_, _, _) => 'I',
        Argument::Word(_) => 'W',
        Argument::Byte(_) => 'B',
    }
}

/// The pattern of an operand list: one letter per operand.
pub open spec fn letters(args: Seq<Argument>) -> Seq<char> {
    args.map_values(|a: Argument| letter_of(a))
}

/// A 16-bit value as two bytes, high byte first.
pub open spec fn be_bytes(v: u16) -> Seq<u8> {
    seq![(v / 256) as u8, (v % 256) as u8]
}

/// The value of two bytes, high byte first.
pub open spec fn from_be_bytes(hi: u8, lo: u8) -> int {
    hi as int * 256 + lo as int
}

/// The bytes that an operand contributes in place.
pub open spec fn arg_bytes(a: Argument) -> Seq<u8> {
    match a {
        Argument::Address(v) => be_bytes(v),
        Argument::Register(r) => seq![r],
        Argument::ExtReg(r) => seq![r],
        Argument::IndirectReg(r, _, _) => seq![r],
        Argument::Word(v) => be_bytes(v),
        Argument::Byte(b) => seq![b],
    }
}

/// The bytes that an indirect operand's offset adds after all operands.
pub open spec fn offset_bytes(a: Argument) -> Seq<u8> {
    match a {
        Argument::IndirectReg(_, offset_reg, offset_num) => (match offset_reg {
            Some(r) => seq![r],
            None => Seq::empty(),
        }) + (match offset_num {
            Some(n) => be_bytes(n),
            None => Seq::empty(),
        }),
        _ => Seq::empty(),
    }
}

/// The in-place bytes of every operand, in order.
pub open spec fn all_bytes(args: Seq<Argument>) -> Seq<u8>
    decreases args.len(),
{
    if args.len() == 0 {
        Seq::empty()
    } else {
        all_bytes(args.drop_last()) + arg_bytes(args.last())
    }
}

/// The offset bytes of every operand, in order.
pub open spec fn all_offset_bytes(args: Seq<Argument>) -> Seq<u8>
    decreases args.len(),
{
    if args.len() == 0 {
        Seq::empty()
    } else {
        all_offset_bytes(args.drop_last()) + offset_bytes(args.last())
    }
}

fn be_bytes_exec(v: u16) -> (r: Vec<u8>)
    ensures
        r@ == be_bytes(v),
{
    let r = vec![(v / 256) as u8, (v % 256) as u8];
    assert(r@ =~= be_bytes(v));
    r
}

impl Argument {
    pub fn letter(&self) -> (r: char)
        ensures
            r == letter_of(*self),
    {
        match self {
            Argument::Address(_) => 'A',
            Argument::Register(_) => 'R',
            Argument::ExtReg(_) => 'E',
            Argument::IndirectReg(_, _, _) => 'I',
            Argument::Word(_) => 'W',
            Argument::Byte(_) => 'B',
        }
    }

    /// The offset register byte, or the offset number high byte first; empty
    /// for anything but an indirect register.
    pub fn to_offset_bytes(&self) -> (r: Vec<u8>)
        ensures
            r@ == offset_bytes(*self),
    {
        if let Argument::IndirectReg(_, offset_reg, offset_num) = self {
            let mut output: Vec<u8> = Vec::new();
            if let Some(reg) = offset_reg {
                output.push(*reg);
            }
            if let Some(num) = offset_num {
                let mut two = be_bytes_exec(*num);
                output.append(&mut two);
            }
            assert(output@ =~= offset_bytes(*self));
            output
        } else {
            Vec::new()
        }
    }

    /// Addresses and words as two bytes high first; registers and bytes as one.
    pub fn to_bytes(&self) -> (r: Vec<u8>)
        ensures
            r@ == arg_bytes(*self),
    {
        let r = match self {
            Argument::Address(addr) => be_bytes_exec(*addr),
            Argument::Register(reg) => vec![*reg],
            Argument::ExtReg(reg) => vec![*reg],
            Argument::IndirectReg(reg, _, _) => vec![*reg],
            Argument::Word(word) => be_bytes_exec(*word),
            Argument::Byte(byte) => vec![*byte],
        };
        assert(r@ =~= arg_bytes(*self));
        r
    }
}

/// The operand pattern of `args`.
pub fn arg_list_to_letters(args: &[Argument]) -> (r: String)
    ensures
        r@ == letters(args@),
{
    let mut output = String::new();
    let mut i: usize = 0;
    while i < args.len()
        invariant
            i <= args@.len(),
            output@ == letters(args@.subrange(0, i as int)),
        decreases args@.len() - i,
    {
        push_char(&mut output, args[i].letter());
        i = i + 1;
        assert(output@ =~= letters(args@.subrange(0, i as int)));
    }
    assert(args@.subrange(0, args@.len() as int) =~= args@);
    output
}

pub open spec fn quoted(p: Seq<char>) -> Seq<char> {
    seq!['"'] + p + seq!['"']
}

/// The patterns of `rows`, each in double quotes, separated by `, `.
pub open spec fn pattern_list(rows: Seq<(Seq<char>, int)>) -> Seq<char>
    decreases rows.len(),
{
    if rows.len() == 0 {
        Seq::empty()
    } else if rows.len() == 1 {
        quoted(rows[0].0)
    } else {
        pattern_list(rows.drop_last()) + seq![',', ' '] + quoted(rows.last().0)
    }
}

/// The patterns a mnemonic accepts, as a diagnostic lists them: `["IB", "RB"]`.
pub open spec fn options_of(rows: Seq<(Seq<char>, int)>) -> Seq<char> {
    seq!['['] + pattern_list(rows) + seq![']']
}

fn options_text(rows: &Vec<(Vec<char>, usize)>) -> (r: String)
    ensures
        r@ == options_of(rows_view(rows@)),
{
    let ghost view = rows_view(rows@);
    let mut out = String::new();
    push_char(&mut out, '[');
    let mut i: usize = 0;
    assert(view.subrange(0, 0) =~= Seq::<(Seq<char>, int)>::empty());
    assert(out@ =~= seq!['['] + pattern_list(view.subrange(0, 0)));
    while i < rows.len()
        invariant
            view == rows_view(rows@),
            i <= rows@.len(),
            out@ == seq!['['] + pattern_list(view.subrange(0, i as int)),
        decreases rows@.len() - i,
    {
        let ghost before = out@;
        let ghost next = view.subrange(0, i + 1);
        assert(next.drop_last() =~= view.subrange(0, i as int));
        assert(next.last() == view[i as int]);
        assert(view[i as int].0 == rows@[i as int].0@);
        if i > 0 {
            push_char(&mut out, ',');
            push_char(&mut out, ' ');
        }
        let ghost sep = out@;
        push_char(&mut out, '"');
        let pattern = &rows[i].0;
        let mut j: usize = 0;
        while j < pattern.len()
            invariant
                out@ == sep + seq!['"'] + pattern@.subrange(0, j as int),
                j <= pattern@.len(),
            decreases pattern@.len() - j,
        {
            push_char(&mut out, pattern[j]);
            j = j + 1;
            assert(out@ =~= sep + seq!['"'] + pattern@.subrange(0, j as int));
        }
        push_char(&mut out, '"');
        assert(pattern@.subrange(0, pattern@.len() as int) =~= pattern@);
        proof {
            if i == 0 {
                assert(next.len() == 1);
                assert(next[0] == view[0]);
                assert(pattern_list(view.subrange(0, 0)) =~= Seq::<char>::empty());
                assert(out@ =~= seq!['['] + quoted(pattern@));
            } else {
                assert(out@ =~= before + seq![',', ' '] + quoted(pattern@));
            }
        }
        i = i + 1;
    }
    assert(view.subrange(0, rows@.len() as int) =~= view);
    push_char(&mut out, ']');
    out
}

/// What looking up mnemonic `op_name` with operand pattern `pattern` gives:
/// the opcode, or an unknown mnemonic, a missing operand list, or an
/// unmatched pattern, the last two listing the patterns the mnemonic takes.
pub open spec fn opcode_outcome(
    line_num: usize,
    op_name: Seq<char>,
    pattern: Seq<char>,
    r: Result<u8, ParseError>,
) -> bool {
    match opcode_for(op_name, pattern) {
        Some(b) => r == Ok::<u8, ParseError>(b),
        None => r is Err && if find_entry(op_name, 0) is None {
            r->Err_0 matches ParseError::InvalidOpName(l, n) && l == line_num && n@
                == op_name
        } else if pattern.len() == 0 {
            r->Err_0 matches ParseError::MissingArguments(l, n, o) && l == line_num && n@
                == op_name && o@ == options_of(rows(entry(find_entry(op_name, 0)->0).1))
        } else {
            r->Err_0 matches ParseError::InvalidArguments(l, p, n, o) && l == line_num && p@
                == pattern && n@ == op_name && o@ == options_of(
                rows(entry(find_entry(op_name, 0)->0).1),
            )
        },
    }
}

/// The opcode of mnemonic `op_name` with operand pattern `pattern`; see
/// `opcode_outcome`.
pub fn get_op_code(line_num: usize, op_name: &str, pattern: &str) -> (r: Result<u8, ParseError>)
    ensures
        opcode_outcome(line_num, op_name@, pattern@, r),
{
    let name = chars_of(op_name);
    let wanted = chars_of(pattern);
    proof {
        lemma_opcode_in_range(op_name@, pattern@);
    }
    match lookup_mnemonic(&name) {
        None => Err(ParseError::InvalidOpName(line_num, op_name.to_owned())),
        Some((family, codes)) => {
            let table = family_rows(family);
            match lookup_row(&table, &wanted) {
                Some(k) => Ok(codes[k]),
                None => {
                    let options_text = options_text(&table);
                    if wanted.len() == 0 {
                        Err(ParseError::MissingArguments(line_num, op_name.to_owned(), options_text))
                    } else {
                        Err(
                            ParseError::InvalidArguments(
                                line_num,
                                pattern.to_owned(),
                                op_name.to_owned(),
                                options_text,
                            ),
                        )
                    }
                },
            }
        },
    }
}

} // verus!
