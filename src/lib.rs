//! An assembler for the Maikor instruction set: source lines in, bytes out.
use vstd::prelude::*;

pub mod arg_matching;
pub mod arg_patterns;
pub mod interpreter;
pub mod laws;
pub mod line;
pub mod number;
pub mod opcodes;
pub mod ops;
pub mod parsers;
pub mod registers;
pub mod text;
pub mod tokens;

pub use number::detect_num;

use crate::arg_matching::{
    all_bytes, all_offset_bytes, arg_list_to_letters, get_op_code, letters, opcode_outcome,
    Argument,
};
use crate::arg_patterns::opcode_for;
use crate::interpreter::{command_of, interpret_line, label_of, split_words};
use crate::ops::{byte_sized, expects_bytes};
use crate::parsers::{argument_outcome, argument_value, classify, parse_argument};
use crate::text::{chars_of, find_char, first_index, is_space, is_space_char, upper, upper_string};

verus! {

/// Everything that can go wrong while assembling; the `usize` is the line number.
#[derive(Debug, Clone, PartialEq, Eq)]
pub enum ParseError {
    EmptyLine,
    General(usize, String, String),
    AddressHexFormat(usize, String, String),
    AddressNumFormat(usize, String, String),
    AddressTooBig(usize, String),
    NumberFormat(usize, String, String),
    NumberHexFormat(usize, String, String),
    NumberTooBig(usize, String),
    InvalidRegister(usize, String, String),
    SignedNumberNumFormat(usize, String, String),
    SignedNumberNumRange(usize, String),
    NumberMustBeByte(usize, String),
    InvalidOpCode(usize, u8),
    InvalidArguments(usize, String, String, String),
    MissingArguments(usize, String, String),
    InvalidOpName(usize, String),
    InvalidCharacter(usize, String),
    InvalidOffset(usize, String),
}

impl ParseError {
    /// Re-tags a number error as the matching address error; any other error is kept.
    pub fn num_to_addr(self) -> (r: Self)
        ensures
            r == (match self {
                ParseError::NumberFormat(l, t, m) => ParseError::AddressNumFormat(l, t, m),
                ParseError::NumberHexFormat(l, t, m) => ParseError::AddressHexFormat(l, t, m),
                ParseError::NumberTooBig(l, t) => ParseError::AddressTooBig(l, t),
                e => e,
            }),
    {
        match self {
            ParseError::NumberFormat(line_num, msg, err) => ParseError::AddressNumFormat(
                line_num,
                msg,
                err,
            ),
            ParseError::NumberHexFormat(line_num, msg, err) => ParseError::AddressHexFormat(
                line_num,
                msg,
                err,
            ),
            ParseError::NumberTooBig(line_num, msg) => ParseError::AddressTooBig(line_num, msg),
            e => e,
        }
    }
}

/// One source line once split: number, text, optional label and optional
/// mnemonic with its raw operands.
#[derive(Debug, Clone, PartialEq, Eq)]
pub struct Line {
    pub num: usize,
    pub original: String,
    pub label: Option<String>,
    pub command: Option<(String, Vec<String>)>,
}

pub open spec fn strings_view(v: Seq<String>) -> Seq<Seq<char>> {
    v.map_values(|s: String| s@)
}

impl Line {
    pub open spec fn label_view(&self) -> Option<Seq<char>> {
        match self.label {
            Some(l) => Some(l@),
            None => None,
        }
    }

    pub open spec fn command_view(&self) -> Option<(Seq<char>, Seq<Seq<char>>)> {
        match self.command {
            Some((op, args)) => Some((op@, strings_view(args@))),
            None => None,
        }
    }

    fn new(num: usize, original: String) -> (r: Self)
        ensures
            r.num == num,
            r.original == original,
            r.label is None,
            r.command is None,
    {
        Self { num, original, label: None, command: None }
    }
}


/// A line and the bytes it assembled to (none for a label-only line).
#[derive(Debug, Clone, PartialEq, Eq)]
pub struct ParsedLine {
    pub line: Line,
    pub bytes: Vec<u8>,
}

/// The assembled lines in order, and all their bytes run together.
#[derive(Debug, Clone, PartialEq, Eq)]
pub struct Program {
    pub lines: Vec<ParsedLine>,
    pub bytes: Vec<u8>,
}

/// The bytes of an instruction: its opcode, each operand in order, then the
/// offsets of indirect operands; `None` when it does not assemble.
pub open spec fn command_bytes(command: Option<(Seq<char>, Seq<Seq<char>>)>) -> Option<Seq<u8>> {
    match command {
        None => Some(Seq::empty()),
        Some((op, args)) => {
            let name = upper(op);
            if forall|i: int| 0 <= i < args.len() ==> (#[trigger] argument_value(args[i])) is Some {
                let arguments = args.map_values(
                    |a: Seq<char>| classify(argument_value(a)->0, byte_sized(name)),
                );
                match opcode_for(name, letters(arguments)) {
                    Some(b) => Some(seq![b] + all_bytes(arguments) + all_offset_bytes(arguments)),
                    None => None,
                }
            } else {
                None
            }
        },
    }
}

/// Position of the first operand text that does not read, or the length.
pub open spec fn first_unread(args: Seq<Seq<char>>) -> int
    decreases args.len(),
{
    if args.len() == 0 {
        0
    } else if argument_value(args[0]) is None {
        0
    } else {
        1 + first_unread(args.drop_first())
    }
}

proof fn lemma_first_unread(args: Seq<Seq<char>>, i: int)
    requires
        0 <= i < args.len(),
        forall|j: int| 0 <= j < i ==> (#[trigger] argument_value(args[j])) is Some,
        argument_value(args[i]) is None,
    ensures
        first_unread(args) == i,
    decreases i,
{
    if i > 0 {
        let t = args.drop_first();
        assert forall|j: int| 0 <= j < i - 1 implies (#[trigger] argument_value(t[j])) is Some by {
            assert(t[j] == args[j + 1]);
        }
        assert(t[i - 1] == args[i]);
        lemma_first_unread(t, i - 1);
    }
}

/// `e` is the error that assembling `command` on line `line` gives: the error
/// of its first operand that does not read, or else that of the opcode lookup
/// of its upper-cased mnemonic.
pub open spec fn command_error(e: ParseError, line: usize, command: (Seq<char>, Seq<Seq<char>>)) -> bool {
    let (op, args) = command;
    let name = upper(op);
    if forall|i: int| 0 <= i < args.len() ==> (#[trigger] argument_value(args[i])) is Some {
        let arguments = args.map_values(
            |a: Seq<char>| classify(argument_value(a)->0, byte_sized(name)),
        );
        opcode_outcome(line, name, letters(arguments), Err(e))
    } else {
        argument_outcome(line, args[first_unread(args)], Err(e))
    }
}

/// Reads and classifies every operand, stopping at the first that fails.
fn read_arguments(line_num: usize, args: &Vec<String>, narrow: bool) -> (r: Result<
    Vec<Argument>,
    ParseError,
>)
    ensures
        ({
            let argv = strings_view(args@);
            if forall|i: int| 0 <= i < argv.len() ==> (#[trigger] argument_value(argv[i])) is Some {
                r matches Ok(a) && a@ == argv.map_values(
                    |t: Seq<char>| classify(argument_value(t)->0, narrow),
                )
            } else {
                r matches Err(e) && argument_outcome(
                    line_num,
                    argv[first_unread(argv)],
                    Err(e),
                )
            }
        }),
{
    let ghost argv = strings_view(args@);
    let mut arguments: Vec<Argument> = Vec::new();
    let mut i: usize = 0;
    while i < args.len()
        invariant
            argv == strings_view(args@),
            i <= args@.len(),
            arguments@.len() == i,
            forall|j: int| 0 <= j < i ==> (#[trigger] argument_value(argv[j])) is Some,
            forall|j: int| 0 <= j < i ==> #[trigger] arguments@[j] == classify(
                argument_value(argv[j])->0,
                narrow,
            ),
        decreases args@.len() - i,
    {
        assert(argv[i as int] == args@[i as int]@);
        let token = match parse_argument(line_num, args[i].as_str()) {
            Ok(t) => t,
            Err(e) => {
                assert(!(argument_value(argv[i as int]) is Some));
                proof {
                    lemma_first_unread(argv, i as int);
                }
                return Err(e);
            },
        };
        arguments.push(token.to_argument(narrow));
        i = i + 1;
    }
    assert(arguments@ =~= argv.map_values(|t: Seq<char>| classify(argument_value(t)->0, narrow)));
    Ok(arguments)
}

/// The opcode, then each operand's bytes, then each operand's offset bytes.
fn emit(code: u8, arguments: &Vec<Argument>) -> (r: Vec<u8>)
    ensures
        r@ == seq![code] + all_bytes(arguments@) + all_offset_bytes(arguments@),
{
    let mut bytes: Vec<u8> = vec![code];
    let mut k: usize = 0;
    assert(bytes@ =~= seq![code] + all_bytes(arguments@.subrange(0, 0)));
    while k < arguments.len()
        invariant
            k <= arguments@.len(),
            bytes@ == seq![code] + all_bytes(arguments@.subrange(0, k as int)),
        decreases arguments@.len() - k,
    {
        assert(arguments@.subrange(0, k + 1).drop_last() =~= arguments@.subrange(0, k as int));
        let mut b = arguments[k].to_bytes();
        bytes.append(&mut b);
        k = k + 1;
        assert(bytes@ =~= seq![code] + all_bytes(arguments@.subrange(0, k as int)));
    }
    assert(arguments@.subrange(0, arguments@.len() as int) =~= arguments@);
    let ghost head = bytes@;
    let mut k: usize = 0;
    assert(bytes@ =~= head + all_offset_bytes(arguments@.subrange(0, 0)));
    while k < arguments.len()
        invariant
            k <= arguments@.len(),
            bytes@ == head + all_offset_bytes(arguments@.subrange(0, k as int)),
        decreases arguments@.len() - k,
    {
        assert(arguments@.subrange(0, k + 1).drop_last() =~= arguments@.subrange(0, k as int));
        let mut b = arguments[k].to_offset_bytes();
        bytes.append(&mut b);
        k = k + 1;
        assert(bytes@ =~= head + all_offset_bytes(arguments@.subrange(0, k as int)));
    }
    assert(arguments@.subrange(0, arguments@.len() as int) =~= arguments@);
    bytes
}

fn parse_line(line: Line) -> (r: Result<ParsedLine, ParseError>)
    ensures
        match command_bytes(line.command_view()) {
            Some(b) => r matches Ok(p) && p.line == line && p.bytes@ == b,
            None => r matches Err(e) && command_error(e, line.num, line.command_view()->0),
        },
{
    let mut bytes: Vec<u8> = Vec::new();
    if let Some((op, args)) = &line.command {
        let command = upper_string(op.as_str());
        let expects_bytes = expects_bytes(command.as_str());
        let arguments = read_arguments(line.num, args, expects_bytes)?;
        let pattern = arg_list_to_letters(arguments.as_slice());
        let code = get_op_code(line.num, command.as_str(), pattern.as_str())?;
        bytes = emit(code, &arguments);
    }
    Ok(ParsedLine { line, bytes })
}

/// Assembles one line, numbered 0.
pub fn parse_line_from_str(text: &str) -> (r: Result<ParsedLine, ParseError>)
    ensures
        split_words(text@).len() == 0 ==> r == Err::<ParsedLine, ParseError>(ParseError::EmptyLine),
        split_words(text@).len() > 0 ==> match command_bytes(command_of(split_words(text@))) {
            Some(b) => r matches Ok(p) && p.bytes@ == b && p.line.num == 0 && p.line.original@
                == text@ && p.line.label_view() == label_of(split_words(text@))
                && p.line.command_view() == command_of(split_words(text@)),
            None => r matches Err(e) && command_error(e, 0, command_of(split_words(text@))->0),
        },
{
    let line = interpret_line(0, text)?;
    parse_line(line)
}


/// A line without its comment: the text before the first `#`.
pub open spec fn code_part(s: Seq<char>) -> Seq<char> {
    s.subrange(0, first_index(s, '#'))
}

pub open spec fn is_blank(s: Seq<char>) -> bool {
    forall|i: int| 0 <= i < s.len() ==> is_space(#[trigger] s[i])
}

/// Each assembled line of a program as its position and its bytes, or `None`
/// when some line does not assemble. Blank and comment-only lines are skipped.
pub open spec fn assembled(lines: Seq<Seq<char>>) -> Option<Seq<(int, Seq<u8>)>>
    decreases lines.len(),
{
    if lines.len() == 0 {
        Some(Seq::empty())
    } else {
        match assembled(lines.drop_last()) {
            None => None,
            Some(head) => {
                let code = code_part(lines.last());
                if is_blank(code) {
                    Some(head)
                } else {
                    match command_bytes(command_of(split_words(code))) {
                        None => None,
                        Some(b) => Some(head.push((lines.len() - 1, b))),
                    }
                }
            },
        }
    }
}

/// The bytes of all lines run together.
pub open spec fn program_bytes(parts: Seq<(int, Seq<u8>)>) -> Seq<u8>
    decreases parts.len(),
{
    if parts.len() == 0 {
        Seq::empty()
    } else {
        program_bytes(parts.drop_last()) + parts.last().1
    }
}

proof fn lemma_words_nonempty(s: Seq<char>)
    requires
        !is_blank(s),
    ensures
        split_words(s).len() > 0,
    decreases s.len(),
{
    if is_space(s.last()) {
        assert(!is_blank(s.drop_last())) by {
            let i = choose|i: int| 0 <= i < s.len() && !is_space(#[trigger] s[i]);
            assert(s.drop_last()[i] == s[i]);
        }
        lemma_words_nonempty(s.drop_last());
    }
}

proof fn lemma_assembled_prefix(lines: Seq<Seq<char>>, n: int)
    requires
        0 <= n <= lines.len(),
        assembled(lines.subrange(0, n)) is None,
    ensures
        assembled(lines) is None,
    decreases lines.len() - n,
{
    if n == lines.len() {
        assert(lines.subrange(0, n) =~= lines);
    } else {
        let next = lines.subrange(0, n + 1);
        assert(next.drop_last() =~= lines.subrange(0, n));
        lemma_assembled_prefix(lines, n + 1);
    }
}

fn blank_exec(v: &Vec<char>, hi: usize) -> (r: bool)
    requires
        hi <= v@.len(),
    ensures
        r == is_blank(v@.subrange(0, hi as int)),
{
    let mut i: usize = 0;
    while i < hi
        invariant
            hi <= v@.len(),
            i <= hi,
            forall|j: int| 0 <= j < i ==> is_space(#[trigger] v@[j]),
        decreases hi - i,
    {
        if !is_space_char(v[i]) {
            assert(v@.subrange(0, hi as int)[i as int] == v@[i as int]);
            return false;
        }
        i = i + 1;
    }
    assert forall|j: int| 0 <= j < hi implies is_space(#[trigger] v@.subrange(0, hi as int)[j]) by {
        assert(v@.subrange(0, hi as int)[j] == v@[j]);
    }
    true
}

pub open spec fn lines_view(lines: Seq<&str>) -> Seq<Seq<char>> {
    lines.map_values(|l: &str| l@)
}

/// Whether a source line is not blank and does not assemble.
pub open spec fn line_fails(s: Seq<char>) -> bool {
    !is_blank(code_part(s)) && command_bytes(command_of(split_words(code_part(s)))) is None
}

/// Position of the first line that does not assemble, or the number of lines.
pub open spec fn first_failing(lines: Seq<Seq<char>>) -> int
    decreases lines.len(),
{
    if lines.len() == 0 {
        0
    } else if line_fails(lines[0]) {
        0
    } else {
        1 + first_failing(lines.drop_first())
    }
}

proof fn lemma_first_failing(lines: Seq<Seq<char>>, i: int)
    requires
        0 <= i < lines.len(),
        forall|j: int| 0 <= j < i ==> !line_fails(#[trigger] lines[j]),
        line_fails(lines[i]),
    ensures
        first_failing(lines) == i,
    decreases i,
{
    if i > 0 {
        let t = lines.drop_first();
        assert forall|j: int| 0 <= j < i - 1 implies !line_fails(#[trigger] t[j]) by {
            assert(t[j] == lines[j + 1]);
        }
        assert(t[i - 1] == lines[i]);
        lemma_first_failing(t, i - 1);
    }
}

/// The label and command of a source line, its comment left out.
pub open spec fn source_label(s: Seq<char>) -> Option<Seq<char>> {
    label_of(split_words(code_part(s)))
}

pub open spec fn source_command(s: Seq<char>) -> Option<(Seq<char>, Seq<Seq<char>>)> {
    command_of(split_words(code_part(s)))
}

/// Assembles every line in order. Comments run from `#` to the end of the
/// line; blank lines are skipped; the first line that fails ends the run with
/// its error. Each assembled line keeps its source text as given.
pub fn parse_program(lines: &[&str]) -> (r: Result<Program, ParseError>)
    ensures
        match assembled(lines_view(lines@)) {
            Some(parts) => r matches Ok(p) && p.bytes@ == program_bytes(parts) && p.lines@.len()
                == parts.len() && forall|k: int|
                0 <= k < parts.len() ==> {
                    let src = lines_view(lines@)[parts[k].0];
                    &&& 0 <= parts[k].0 < lines@.len()
                    &&& (#[trigger] p.lines@[k]).line.num == parts[k].0
                    &&& p.lines@[k].bytes@ == parts[k].1
                    &&& p.lines@[k].line.original@ == src
                    &&& p.lines@[k].line.label_view() == source_label(src)
                    &&& p.lines@[k].line.command_view() == source_command(src)
                },
            None => r matches Err(e) && ({
                let k = first_failing(lines_view(lines@));
                &&& 0 <= k < lines@.len()
                &&& command_error(e, k as usize, source_command(lines_view(lines@)[k])->0)
            }),
        },
{
    let ghost all = lines_view(lines@);
    let mut output: Vec<ParsedLine> = Vec::new();
    let mut bytes: Vec<u8> = Vec::new();
    let mut idx: usize = 0;
    assert(all.subrange(0, 0) =~= Seq::<Seq<char>>::empty());
    while idx < lines.len()
        invariant
            all == lines_view(lines@),
            idx <= lines@.len(),
            forall|j: int| 0 <= j < idx ==> !line_fails(#[trigger] all[j]),
            assembled(all.subrange(0, idx as int)) is Some,
            ({
                let parts = assembled(all.subrange(0, idx as int))->0;
                &&& bytes@ == program_bytes(parts)
                &&& output@.len() == parts.len()
                &&& forall|k: int|
                    0 <= k < parts.len() ==> {
                        let src = all[parts[k].0];
                        &&& 0 <= parts[k].0 < idx
                        &&& (#[trigger] output@[k]).line.num == parts[k].0
                        &&& output@[k].bytes@ == parts[k].1
                        &&& output@[k].line.original@ == src
                        &&& output@[k].line.label_view() == source_label(src)
                        &&& output@[k].line.command_view() == source_command(src)
                    }
            }),
        decreases lines@.len() - idx,
    {
        let ghost next = all.subrange(0, idx + 1);
        let ghost parts = assembled(all.subrange(0, idx as int))->0;
        assert(next.drop_last() =~= all.subrange(0, idx as int));
        assert(next.last() == lines@[idx as int]@);
        assert(all[idx as int] == lines@[idx as int]@);
        let text = chars_of(lines[idx]);
        let cut = find_char(&text, '#');
        if !blank_exec(&text, cut) {
            let code = crate::text::string_of(&text, 0, cut);
            proof {
                lemma_words_nonempty(code@);
            }
            let mut line = interpret_line(idx, code.as_str())?;
            line.original = lines[idx].to_owned();
            let parsed = match parse_line(line) {
                Ok(p) => p,
                Err(e) => {
                    proof {
                        lemma_assembled_prefix(all, idx + 1);
                        lemma_first_failing(all, idx as int);
                    }
                    return Err(e);
                },
            };
            let mut b = parsed.bytes.clone();
            assert(b@ == parsed.bytes@);
            bytes.append(&mut b);
            let ghost new_parts = parts.push((idx as int, parsed.bytes@));
            assert(new_parts.drop_last() =~= parts);
            let ghost before = output@;
            output.push(parsed);
            assert forall|k: int| 0 <= k < new_parts.len() implies {
                let src = all[new_parts[k].0];
                &&& 0 <= new_parts[k].0 < idx + 1
                &&& (#[trigger] output@[k]).line.num == new_parts[k].0
                &&& output@[k].bytes@ == new_parts[k].1
                &&& output@[k].line.original@ == src
                &&& output@[k].line.label_view() == source_label(src)
                &&& output@[k].line.command_view() == source_command(src)
            } by {
                if k < parts.len() {
                    assert(output@[k] == before[k]);
                    assert(new_parts[k] == parts[k]);
                }
            }
        }
        idx = idx + 1;
    }
    assert(all.subrange(0, lines@.len() as int) =~= all);
    Ok(Program { lines: output, bytes })
}

} // verus!
