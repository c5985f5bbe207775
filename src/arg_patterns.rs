//! The addressing-mode table: for each mnemonic, the operand patterns it
//! accepts and the opcode of each.
use crate::opcodes as op;
use crate::opcodes::is_opcode;
use vstd::prelude::*;

verus! {

/// A group of mnemonics that share operand patterns; the pattern picks one
/// opcode out of the mnemonic's list.
#[derive(Debug, Clone, Copy, PartialEq, Eq, Structural)]
pub enum Family {
    /// No operands.
    NoArgs,
    /// Byte arithmetic and copy: register, address and number operands.
    MathB,
    /// Byte multiply: the destination is a word register.
    MulB,
    /// Word arithmetic and copy.
    MathW,
    /// Byte compare: a register against a register, number or address.
    CmpB,
    /// Word compare.
    CmpW,
    /// Byte and, or, xor.
    BitwiseB,
    /// Word and, or, xor.
    BitwiseW,
    /// Byte shift or rotate: by a register or number, or in memory.
    LogicB,
    /// Word shift or rotate.
    LogicW,
    /// Byte increment or decrement.
    IncDecB,
    /// Word increment or decrement.
    IncDecW,
    /// Relative jump by a byte.
    Relative,
    /// Jump or call to an address or through a word register.
    Jump,
    /// Jump when a bit is clear or set.
    BitJump,
    /// Push a byte.
    PushB,
    /// Push a word.
    PushW,
    /// Pop a byte.
    PopB,
    /// Pop a word.
    PopW,
    /// Swap two bytes.
    SwapB,
    /// Swap two words.
    SwapW,
    /// Copy a block of memory.
    MemCpy,
    /// Byte not.
    NotB,
    /// Word not.
    NotW,
}

/// The rows of a family: an operand pattern and the position of its opcode
/// in the mnemonic's list.
pub open spec fn rows(f: Family) -> Seq<(Seq<char>, int)> {
    match f {
        Family::NoArgs => seq![(seq![], 0)],
        Family::MathB => seq![(seq!['I', 'B'], 2), (seq!['R', 'B'], 2), (seq!['I', 'A'], 4), (seq!['R', 'A'], 4), (seq!['A', 'I'], 1), (seq!['A', 'R'], 1), (seq!['A', 'B'], 3), (seq!['R', 'R'], 0), (seq!['R', 'I'], 0), (seq!['I', 'R'], 0), (seq!['I', 'I'], 0), (seq!['A', 'A'], 5)],
        Family::MulB => seq![(seq!['I', 'B'], 2), (seq!['E', 'B'], 2), (seq!['I', 'A'], 4), (seq!['E', 'A'], 4), (seq!['A', 'I'], 1), (seq!['A', 'R'], 1), (seq!['A', 'B'], 3), (seq!['E', 'R'], 0), (seq!['E', 'I'], 0), (seq!['I', 'R'], 0), (seq!['I', 'I'], 0), (seq!['A', 'A'], 5)],
        Family::MathW => seq![(seq!['I', 'W'], 2), (seq!['E', 'W'], 2), (seq!['I', 'A'], 4), (seq!['E', 'A'], 4), (seq!['A', 'I'], 1), (seq!['A', 'E'], 1), (seq!['A', 'W'], 3), (seq!['E', 'E'], 0), (seq!['E', 'I'], 0), (seq!['I', 'E'], 0), (seq!['I', 'I'], 0), (seq!['A', 'A'], 5)],
        Family::CmpB => seq![(seq!['I', 'B'], 1), (seq!['R', 'B'], 1), (seq!['R', 'I'], 0), (seq!['I', 'R'], 0), (seq!['I', 'I'], 0), (seq!['R', 'R'], 0), (seq!['I', 'A'], 2), (seq!['R', 'A'], 2)],
        Family::CmpW => seq![(seq!['I', 'W'], 1), (seq!['E', 'W'], 1), (seq!['E', 'I'], 0), (seq!['I', 'E'], 0), (seq!['I', 'I'], 0), (seq!['E', 'E'], 0), (seq!['I', 'A'], 2), (seq!['E', 'A'], 2)],
        Family::BitwiseB => seq![(seq!['I', 'B'], 1), (seq!['R', 'B'], 1), (seq!['R', 'I'], 0), (seq!['I', 'R'], 0), (seq!['I', 'I'], 0), (seq!['R', 'R'], 0)],
        Family::BitwiseW => seq![(seq!['I', 'W'], 1), (seq!['E', 'W'], 1), (seq!['E', 'I'], 0), (seq!['I', 'E'], 0), (seq!['I', 'I'], 0), (seq!['E', 'E'], 0)],
        Family::LogicB => seq![(seq!['I', 'B'], 1), (seq!['R', 'B'], 1), (seq!['A'], 2), (seq!['R', 'I'], 0), (seq!['I', 'R'], 0), (seq!['I', 'I'], 0), (seq!['R', 'R'], 0)],
        Family::LogicW => seq![(seq!['I', 'W'], 1), (seq!['E', 'W'], 1), (seq!['A'], 2), (seq!['E', 'I'], 0), (seq!['I', 'E'], 0), (seq!['I', 'I'], 0), (seq!['E', 'E'], 0)],
        Family::IncDecB => seq![(seq!['R'], 0), (seq!['I'], 0), (seq!['A'], 1)],
        Family::IncDecW => seq![(seq!['E'], 0), (seq!['I'], 0), (seq!['A'], 1)],
        Family::Relative => seq![(seq!['B'], 0)],
        Family::Jump => seq![(seq!['A'], 0), (seq!['I'], 1), (seq!['E'], 1)],
        Family::BitJump => seq![(seq!['I', 'B'], 2), (seq!['E', 'B'], 2), (seq!['I', 'R'], 0), (seq!['E', 'R'], 0), (seq!['A', 'B'], 3), (seq!['A', 'R'], 1)],
        Family::PushB => seq![(seq!['R'], 0), (seq!['B'], 1)],
        Family::PushW => seq![(seq!['E'], 0), (seq!['W'], 1)],
        Family::PopB => seq![(seq!['R'], 0)],
        Family::PopW => seq![(seq!['E'], 0)],
        Family::SwapB => seq![(seq!['I', 'I'], 0), (seq!['R', 'I'], 0), (seq!['I', 'R'], 0), (seq!['R', 'R'], 0)],
        Family::SwapW => seq![(seq!['I', 'I'], 0), (seq!['E', 'I'], 0), (seq!['I', 'E'], 0), (seq!['E', 'E'], 0)],
        Family::MemCpy => seq![(seq!['A', 'A', 'B'], 0), (seq!['A', 'A', 'R'], 1), (seq!['A', 'A', 'I'], 1), (seq!['A', 'E', 'B'], 2), (seq!['A', 'I', 'B'], 2), (seq!['I', 'A', 'B'], 3), (seq!['E', 'A', 'B'], 3), (seq!['I', 'I', 'B'], 4), (seq!['E', 'I', 'B'], 4), (seq!['I', 'E', 'B'], 4), (seq!['A', 'I', 'I'], 5), (seq!['I', 'I', 'I'], 7), (seq!['E', 'I', 'I'], 7), (seq!['I', 'E', 'I'], 7), (seq!['E', 'E', 'I'], 7), (seq!['A', 'I', 'R'], 5), (seq!['A', 'E', 'R'], 5), (seq!['I', 'A', 'R'], 6), (seq!['E', 'A', 'R'], 6), (seq!['I', 'A', 'I'], 6), (seq!['E', 'A', 'I'], 6), (seq!['I', 'I', 'R'], 7), (seq!['E', 'I', 'R'], 7), (seq!['E', 'E', 'R'], 7), (seq!['I', 'E', 'R'], 7)],
        Family::NotB => seq![(seq!['R'], 0), (seq!['I'], 0)],
        Family::NotW => seq![(seq!['E'], 0), (seq!['I'], 0)],
    }
}

/// How many opcodes a mnemonic of the family lists.
pub open spec fn arity(f: Family) -> int {
    match f {
        Family::NoArgs => 1,
        Family::MathB => 6,
        Family::MulB => 6,
        Family::MathW => 6,
        Family::CmpB => 3,
        Family::CmpW => 3,
        Family::BitwiseB => 2,
        Family::BitwiseW => 2,
        Family::LogicB => 3,
        Family::LogicW => 3,
        Family::IncDecB => 2,
        Family::IncDecW => 2,
        Family::Relative => 1,
        Family::Jump => 2,
        Family::BitJump => 4,
        Family::PushB => 2,
        Family::PushW => 2,
        Family::PopB => 1,
        Family::PopW => 1,
        Family::SwapB => 1,
        Family::SwapW => 1,
        Family::MemCpy => 8,
        Family::NotB => 1,
        Family::NotW => 1,
    }
}

pub open spec fn rows_view(r: Seq<(Vec<char>, usize)>) -> Seq<(Seq<char>, int)> {
    r.map_values(|x: (Vec<char>, usize)| (x.0@, x.1 as int))
}

/// The rows of `f`, to be walked at run time.
#[verifier::spinoff_prover]
#[verifier::rlimit(50)]
pub fn family_rows(f: Family) -> (r: Vec<(Vec<char>, usize)>)
    ensures
        rows_view(r@) == rows(f),
{
    let r = match f {
        Family::NoArgs => {
            let r = vec![(vec![], 0)];
            assert(r@[0].0@ =~= seq![]);
            assert(rows_view(r@) =~= rows(f));
            r
        },
        Family::MathB => {
            let r = vec![(vec!['I', 'B'], 2), (vec!['R', 'B'], 2), (vec!['I', 'A'], 4), (vec!['R', 'A'], 4), (vec!['A', 'I'], 1), (vec!['A', 'R'], 1), (vec!['A', 'B'], 3), (vec!['R', 'R'], 0), (vec!['R', 'I'], 0), (vec!['I', 'R'], 0), (vec!['I', 'I'], 0), (vec!['A', 'A'], 5)];
            assert(r@[0].0@ =~= seq!['I', 'B']);
            assert(r@[1].0@ =~= seq!['R', 'B']);
            assert(r@[2].0@ =~= seq!['I', 'A']);
            assert(r@[3].0@ =~= seq!['R', 'A']);
            assert(r@[4].0@ =~= seq!['A', 'I']);
            assert(r@[5].0@ =~= seq!['A', 'R']);
            assert(r@[6].0@ =~= seq!['A', 'B']);
            assert(r@[7].0@ =~= seq!['R', 'R']);
            assert(r@[8].0@ =~= seq!['R', 'I']);
            assert(r@[9].0@ =~= seq!['I', 'R']);
            assert(r@[10].0@ =~= seq!['I', 'I']);
            assert(r@[11].0@ =~= seq!['A', 'A']);
            assert(rows_view(r@) =~= rows(f));
            r
        },
        Family::MulB => {
            let r = vec![(vec!['I', 'B'], 2), (vec!['E', 'B'], 2), (vec!['I', 'A'], 4), (vec!['E', 'A'], 4), (vec!['A', 'I'], 1), (vec!['A', 'R'], 1), (vec!['A', 'B'], 3), (vec!['E', 'R'], 0), (vec!['E', 'I'], 0), (vec!['I', 'R'], 0), (vec!['I', 'I'], 0), (vec!['A', 'A'], 5)];
            assert(r@[0].0@ =~= seq!['I', 'B']);
            assert(r@[1].0@ =~= seq!['E', 'B']);
            assert(r@[2].0@ =~= seq!['I', 'A']);
            assert(r@[3].0@ =~= seq!['E', 'A']);
            assert(r@[4].0@ =~= seq!['A', 'I']);
            assert(r@[5].0@ =~= seq!['A', 'R']);
            assert(r@[6].0@ =~= seq!['A', 'B']);
            assert(r@[7].0@ =~= seq!['E', 'R']);
            assert(r@[8].0@ =~= seq!['E', 'I']);
            assert(r@[9].0@ =~= seq!['I', 'R']);
            assert(r@[10].0@ =~= seq!['I', 'I']);
            assert(r@[11].0@ =~= seq!['A', 'A']);
            assert(rows_view(r@) =~= rows(f));
            r
        },
        Family::MathW => {
            let r = vec![(vec!['I', 'W'], 2), (vec!['E', 'W'], 2), (vec!['I', 'A'], 4), (vec!['E', 'A'], 4), (vec!['A', 'I'], 1), (vec!['A', 'E'], 1), (vec!['A', 'W'], 3), (vec!['E', 'E'], 0), (vec!['E', 'I'], 0), (vec!['I', 'E'], 0), (vec!['I', 'I'], 0), (vec!['A', 'A'], 5)];
            assert(r@[0].0@ =~= seq!['I', 'W']);
            assert(r@[1].0@ =~= seq!['E', 'W']);
            assert(r@[2].0@ =~= seq!['I', 'A']);
            assert(r@[3].0@ =~= seq!['E', 'A']);
            assert(r@[4].0@ =~= seq!['A', 'I']);
            assert(r@[5].0@ =~= seq!['A', 'E']);
            assert(r@[6].0@ =~= seq!['A', 'W']);
            assert(r@[7].0@ =~= seq!['E', 'E']);
            assert(r@[8].0@ =~= seq!['E', 'I']);
            assert(r@[9].0@ =~= seq!['I', 'E']);
            assert(r@[10].0@ =~= seq!['I', 'I']);
            assert(r@[11].0@ =~= seq!['A', 'A']);
            assert(rows_view(r@) =~= rows(f));
            r
        },
        Family::CmpB => {
            let r = vec![(vec!['I', 'B'], 1), (vec!['R', 'B'], 1), (vec!['R', 'I'], 0), (vec!['I', 'R'], 0), (vec!['I', 'I'], 0), (vec!['R', 'R'], 0), (vec!['I', 'A'], 2), (vec!['R', 'A'], 2)];
            assert(r@[0].0@ =~= seq!['I', 'B']);
            assert(r@[1].0@ =~= seq!['R', 'B']);
            assert(r@[2].0@ =~= seq!['R', 'I']);
            assert(r@[3].0@ =~= seq!['I', 'R']);
            assert(r@[4].0@ =~= seq!['I', 'I']);
            assert(r@[5].0@ =~= seq!['R', 'R']);
            assert(r@[6].0@ =~= seq!['I', 'A']);
            assert(r@[7].0@ =~= seq!['R', 'A']);
            assert(rows_view(r@) =~= rows(f));
            r
        },
        Family::CmpW => {
            let r = vec![(vec!['I', 'W'], 1), (vec!['E', 'W'], 1), (vec!['E', 'I'], 0), (vec!['I', 'E'], 0), (vec!['I', 'I'], 0), (vec!['E', 'E'], 0), (vec!['I', 'A'], 2), (vec!['E', 'A'], 2)];
            assert(r@[0].0@ =~= seq!['I', 'W']);
            assert(r@[1].0@ =~= seq!['E', 'W']);
            assert(r@[2].0@ =~= seq!['E', 'I']);
            assert(r@[3].0@ =~= seq!['I', 'E']);
            assert(r@[4].0@ =~= seq!['I', 'I']);
            assert(r@[5].0@ =~= seq!['E', 'E']);
            assert(r@[6].0@ =~= seq!['I', 'A']);
            assert(r@[7].0@ =~= seq!['E', 'A']);
            assert(rows_view(r@) =~= rows(f));
            r
        },
        Family::BitwiseB => {
            let r = vec![(vec!['I', 'B'], 1), (vec!['R', 'B'], 1), (vec!['R', 'I'], 0), (vec!['I', 'R'], 0), (vec!['I', 'I'], 0), (vec!['R', 'R'], 0)];
            assert(r@[0].0@ =~= seq!['I', 'B']);
            assert(r@[1].0@ =~= seq!['R', 'B']);
            assert(r@[2].0@ =~= seq!['R', 'I']);
            assert(r@[3].0@ =~= seq!['I', 'R']);
            assert(r@[4].0@ =~= seq!['I', 'I']);
            assert(r@[5].0@ =~= seq!['R', 'R']);
            assert(rows_view(r@) =~= rows(f));
            r
        },
        Family::BitwiseW => {
            let r = vec![(vec!['I', 'W'], 1), (vec!['E', 'W'], 1), (vec!['E', 'I'], 0), (vec!['I', 'E'], 0), (vec!['I', 'I'], 0), (vec!['E', 'E'], 0)];
            assert(r@[0].0@ =~= seq!['I', 'W']);
            assert(r@[1].0@ =~= seq!['E', 'W']);
            assert(r@[2].0@ =~= seq!['E', 'I']);
            assert(r@[3].0@ =~= seq!['I', 'E']);
            assert(r@[4].0@ =~= seq!['I', 'I']);
            assert(r@[5].0@ =~= seq!['E', 'E']);
            assert(rows_view(r@) =~= rows(f));
            r
        },
        Family::LogicB => {
            let r = vec![(vec!['I', 'B'], 1), (vec!['R', 'B'], 1), (vec!['A'], 2), (vec!['R', 'I'], 0), (vec!['I', 'R'], 0), (vec!['I', 'I'], 0), (vec!['R', 'R'], 0)];
            assert(r@[0].0@ =~= seq!['I', 'B']);
            assert(r@[1].0@ =~= seq!['R', 'B']);
            assert(r@[2].0@ =~= seq!['A']);
            assert(r@[3].0@ =~= seq!['R', 'I']);
            assert(r@[4].0@ =~= seq!['I', 'R']);
            assert(r@[5].0@ =~= seq!['I', 'I']);
            assert(r@[6].0@ =~= seq!['R', 'R']);
            assert(rows_view(r@) =~= rows(f));
            r
        },
        Family::LogicW => {
            let r = vec![(vec!['I', 'W'], 1), (vec!['E', 'W'], 1), (vec!['A'], 2), (vec!['E', 'I'], 0), (vec!['I', 'E'], 0), (vec!['I', 'I'], 0), (vec!['E', 'E'], 0)];
            assert(r@[0].0@ =~= seq!['I', 'W']);
            assert(r@[1].0@ =~= seq!['E', 'W']);
            assert(r@[2].0@ =~= seq!['A']);
            assert(r@[3].0@ =~= seq!['E', 'I']);
            assert(r@[4].0@ =~= seq!['I', 'E']);
            assert(r@[5].0@ =~= seq!['I', 'I']);
            assert(r@[6].0@ =~= seq!['E', 'E']);
            assert(rows_view(r@) =~= rows(f));
            r
        },
        Family::IncDecB => {
            let r = vec![(vec!['R'], 0), (vec!['I'], 0), (vec!['A'], 1)];
            assert(r@[0].0@ =~= seq!['R']);
            assert(r@[1].0@ =~= seq!['I']);
            assert(r@[2].0@ =~= seq!['A']);
            assert(rows_view(r@) =~= rows(f));
            r
        },
        Family::IncDecW => {
            let r = vec![(vec!['E'], 0), (vec!['I'], 0), (vec!['A'], 1)];
            assert(r@[0].0@ =~= seq!['E']);
            assert(r@[1].0@ =~= seq!['I']);
            assert(r@[2].0@ =~= seq!['A']);
            assert(rows_view(r@) =~= rows(f));
            r
        },
        Family::Relative => {
            let r = vec![(vec!['B'], 0)];
            assert(r@[0].0@ =~= seq!['B']);
            assert(rows_view(r@) =~= rows(f));
            r
        },
        Family::Jump => {
            let r = vec![(vec!['A'], 0), (vec!['I'], 1), (vec!['E'], 1)];
            assert(r@[0].0@ =~= seq!['A']);
            assert(r@[1].0@ =~= seq!['I']);
            assert(r@[2].0@ =~= seq!['E']);
            assert(rows_view(r@) =~= rows(f));
            r
        },
        Family::BitJump => {
            let r = vec![(vec!['I', 'B'], 2), (vec!['E', 'B'], 2), (vec!['I', 'R'], 0), (vec!['E', 'R'], 0), (vec!['A', 'B'], 3), (vec!['A', 'R'], 1)];
            assert(r@[0].0@ =~= seq!['I', 'B']);
            assert(r@[1].0@ =~= seq!['E', 'B']);
            assert(r@[2].0@ =~= seq!['I', 'R']);
            assert(r@[3].0@ =~= seq!['E', 'R']);
            assert(r@[4].0@ =~= seq!['A', 'B']);
            assert(r@[5].0@ =~= seq!['A', 'R']);
            assert(rows_view(r@) =~= rows(f));
            r
        },
        Family::PushB => {
            let r = vec![(vec!['R'], 0), (vec!['B'], 1)];
            assert(r@[0].0@ =~= seq!['R']);
            assert(r@[1].0@ =~= seq!['B']);
            assert(rows_view(r@) =~= rows(f));
            r
        },
        Family::PushW => {
            let r = vec![(vec!['E'], 0), (vec!['W'], 1)];
            assert(r@[0].0@ =~= seq!['E']);
            assert(r@[1].0@ =~= seq!['W']);
            assert(rows_view(r@) =~= rows(f));
            r
        },
        Family::PopB => {
            let r = vec![(vec!['R'], 0)];
            assert(r@[0].0@ =~= seq!['R']);
            assert(rows_view(r@) =~= rows(f));
            r
        },
        Family::PopW => {
            let r = vec![(vec!['E'], 0)];
            assert(r@[0].0@ =~= seq!['E']);
            assert(rows_view(r@) =~= rows(f));
            r
        },
        Family::SwapB => {
            let r = vec![(vec!['I', 'I'], 0), (vec!['R', 'I'], 0), (vec!['I', 'R'], 0), (vec!['R', 'R'], 0)];
            assert(r@[0].0@ =~= seq!['I', 'I']);
            assert(r@[1].0@ =~= seq!['R', 'I']);
            assert(r@[2].0@ =~= seq!['I', 'R']);
            assert(r@[3].0@ =~= seq!['R', 'R']);
            assert(rows_view(r@) =~= rows(f));
            r
        },
        Family::SwapW => {
            let r = vec![(vec!['I', 'I'], 0), (vec!['E', 'I'], 0), (vec!['I', 'E'], 0), (vec!['E', 'E'], 0)];
            assert(r@[0].0@ =~= seq!['I', 'I']);
            assert(r@[1].0@ =~= seq!['E', 'I']);
            assert(r@[2].0@ =~= seq!['I', 'E']);
            assert(r@[3].0@ =~= seq!['E', 'E']);
            assert(rows_view(r@) =~= rows(f));
            r
        },
        Family::MemCpy => {
            let r = vec![(vec!['A', 'A', 'B'], 0), (vec!['A', 'A', 'R'], 1), (vec!['A', 'A', 'I'], 1), (vec!['A', 'E', 'B'], 2), (vec!['A', 'I', 'B'], 2), (vec!['I', 'A', 'B'], 3), (vec!['E', 'A', 'B'], 3), (vec!['I', 'I', 'B'], 4), (vec!['E', 'I', 'B'], 4), (vec!['I', 'E', 'B'], 4), (vec!['A', 'I', 'I'], 5), (vec!['I', 'I', 'I'], 7), (vec!['E', 'I', 'I'], 7), (vec!['I', 'E', 'I'], 7), (vec!['E', 'E', 'I'], 7), (vec!['A', 'I', 'R'], 5), (vec!['A', 'E', 'R'], 5), (vec!['I', 'A', 'R'], 6), (vec!['E', 'A', 'R'], 6), (vec!['I', 'A', 'I'], 6), (vec!['E', 'A', 'I'], 6), (vec!['I', 'I', 'R'], 7), (vec!['E', 'I', 'R'], 7), (vec!['E', 'E', 'R'], 7), (vec!['I', 'E', 'R'], 7)];
            assert(r@[0].0@ =~= seq!['A', 'A', 'B']);
            assert(r@[1].0@ =~= seq!['A', 'A', 'R']);
            assert(r@[2].0@ =~= seq!['A', 'A', 'I']);
            assert(r@[3].0@ =~= seq!['A', 'E', 'B']);
            assert(r@[4].0@ =~= seq!['A', 'I', 'B']);
            assert(r@[5].0@ =~= seq!['I', 'A', 'B']);
            assert(r@[6].0@ =~= seq!['E', 'A', 'B']);
            assert(r@[7].0@ =~= seq!['I', 'I', 'B']);
            assert(r@[8].0@ =~= seq!['E', 'I', 'B']);
            assert(r@[9].0@ =~= seq!['I', 'E', 'B']);
            assert(r@[10].0@ =~= seq!['A', 'I', 'I']);
            assert(r@[11].0@ =~= seq!['I', 'I', 'I']);
            assert(r@[12].0@ =~= seq!['E', 'I', 'I']);
            assert(r@[13].0@ =~= seq!['I', 'E', 'I']);
            assert(r@[14].0@ =~= seq!['E', 'E', 'I']);
            assert(r@[15].0@ =~= seq!['A', 'I', 'R']);
            assert(r@[16].0@ =~= seq!['A', 'E', 'R']);
            assert(r@[17].0@ =~= seq!['I', 'A', 'R']);
            assert(r@[18].0@ =~= seq!['E', 'A', 'R']);
            assert(r@[19].0@ =~= seq!['I', 'A', 'I']);
            assert(r@[20].0@ =~= seq!['E', 'A', 'I']);
            assert(r@[21].0@ =~= seq!['I', 'I', 'R']);
            assert(r@[22].0@ =~= seq!['E', 'I', 'R']);
            assert(r@[23].0@ =~= seq!['E', 'E', 'R']);
            assert(r@[24].0@ =~= seq!['I', 'E', 'R']);
            assert(rows_view(r@) =~= rows(f));
            r
        },
        Family::NotB => {
            let r = vec![(vec!['R'], 0), (vec!['I'], 0)];
            assert(r@[0].0@ =~= seq!['R']);
            assert(r@[1].0@ =~= seq!['I']);
            assert(rows_view(r@) =~= rows(f));
            r
        },
        Family::NotW => {
            let r = vec![(vec!['E'], 0), (vec!['I'], 0)];
            assert(r@[0].0@ =~= seq!['E']);
            assert(r@[1].0@ =~= seq!['I']);
            assert(rows_view(r@) =~= rows(f));
            r
        },
    };
    r
}

/// The number of mnemonics in the table.
pub const ENTRY_COUNT: usize = 69;

/// Mnemonic number `e`: its name, its family and its opcodes.
pub open spec fn entry(e: int) -> (Seq<char>, Family, Seq<u8>) {
    if e == 0 {
        (seq!['N', 'O', 'P'], Family::NoArgs, seq![op::NOP])
    } else if e == 1 {
        (seq!['H', 'A', 'L', 'T'], Family::NoArgs, seq![op::HALT])
    } else if e == 2 {
        (seq!['E', 'H', 'A', 'L', 'T'], Family::NoArgs, seq![op::EHALT])
    } else if e == 3 {
        (seq!['S', 'L', 'E', 'E', 'P'], Family::NoArgs, seq![op::SLEEP])
    } else if e == 4 {
        (seq!['C', 'P', 'Y', '.', 'B'], Family::MathB, seq![op::CPY_REG_REG_BYTE, op::CPY_ADDR_REG_BYTE, op::CPY_REG_NUM_BYTE, op::CPY_ADDR_NUM_BYTE, op::CPY_REG_ADDR_BYTE, op::CPY_ADDR_ADDR_BYTE])
    } else if e == 5 {
        (seq!['C', 'P', 'Y', '.', 'W'], Family::MathW, seq![op::CPY_REG_REG_WORD, op::CPY_ADDR_REG_WORD, op::CPY_REG_NUM_WORD, op::CPY_ADDR_NUM_WORD, op::CPY_REG_ADDR_WORD, op::CPY_ADDR_ADDR_WORD])
    } else if e == 6 {
        (seq!['C', 'M', 'P', '.', 'B'], Family::CmpB, seq![op::CMP_REG_REG_BYTE, op::CMP_REG_NUM_BYTE, op::CMP_REG_ADDR_BYTE])
    } else if e == 7 {
        (seq!['C', 'M', 'P', '.', 'W'], Family::CmpW, seq![op::CMP_REG_REG_WORD, op::CMP_REG_NUM_WORD, op::CMP_REG_ADDR_WORD])
    } else if e == 8 {
        (seq!['C', 'M', 'P', 'S', '.', 'B'], Family::CmpB, seq![op::CMPS_REG_REG_BYTE, op::CMPS_REG_NUM_BYTE, op::CMPS_REG_ADDR_BYTE])
    } else if e == 9 {
        (seq!['C', 'M', 'P', 'S', '.', 'W'], Family::CmpW, seq![op::CMPS_REG_REG_WORD, op::CMPS_REG_NUM_WORD, op::CMPS_REG_ADDR_WORD])
    } else if e == 10 {
        (seq!['A', 'D', 'D', '.', 'B'], Family::MathB, seq![op::ADD_REG_REG_BYTE, op::ADD_ADDR_REG_BYTE, op::ADD_REG_NUM_BYTE, op::ADD_ADDR_NUM_BYTE, op::ADD_REG_ADDR_BYTE, op::ADD_ADDR_ADDR_BYTE])
    } else if e == 11 {
        (seq!['A', 'D', 'D', '.', 'W'], Family::MathW, seq![op::ADD_REG_REG_WORD, op::ADD_ADDR_REG_WORD, op::ADD_REG_NUM_WORD, op::ADD_ADDR_NUM_WORD, op::ADD_REG_ADDR_WORD, op::ADD_ADDR_ADDR_WORD])
    } else if e == 12 {
        (seq!['S', 'U', 'B', '.', 'B'], Family::MathB, seq![op::SUB_REG_REG_BYTE, op::SUB_ADDR_REG_BYTE, op::SUB_REG_NUM_BYTE, op::SUB_ADDR_NUM_BYTE, op::SUB_REG_ADDR_BYTE, op::SUB_ADDR_ADDR_BYTE])
    } else if e == 13 {
        (seq!['S', 'U', 'B', '.', 'W'], Family::MathW, seq![op::SUB_REG_REG_WORD, op::SUB_ADDR_REG_WORD, op::SUB_REG_NUM_WORD, op::SUB_ADDR_NUM_WORD, op::SUB_REG_ADDR_WORD, op::SUB_ADDR_ADDR_WORD])
    } else if e == 14 {
        (seq!['A', 'D', 'D', 'C', '.', 'B'], Family::MathB, seq![op::ADDC_REG_REG_BYTE, op::ADDC_ADDR_REG_BYTE, op::ADDC_REG_NUM_BYTE, op::ADDC_ADDR_NUM_BYTE, op::ADDC_REG_ADDR_BYTE, op::ADDC_ADDR_ADDR_BYTE])
    } else if e == 15 {
        (seq!['A', 'D', 'D', 'C', '.', 'W'], Family::MathW, seq![op::ADDC_REG_REG_WORD, op::ADDC_ADDR_REG_WORD, op::ADDC_REG_NUM_WORD, op::ADDC_ADDR_NUM_WORD, op::ADDC_REG_ADDR_WORD, op::ADDC_ADDR_ADDR_WORD])
    } else if e == 16 {
        (seq!['S', 'U', 'B', 'C', '.', 'B'], Family::MathB, seq![op::SUBC_REG_REG_BYTE, op::SUBC_ADDR_REG_BYTE, op::SUBC_REG_NUM_BYTE, op::SUBC_ADDR_NUM_BYTE, op::SUBC_REG_ADDR_BYTE, op::SUBC_ADDR_ADDR_BYTE])
    } else if e == 17 {
        (seq!['S', 'U', 'B', 'C', '.', 'W'], Family::MathW, seq![op::SUBC_REG_REG_WORD, op::SUBC_ADDR_REG_WORD, op::SUBC_REG_NUM_WORD, op::SUBC_ADDR_NUM_WORD, op::SUBC_REG_ADDR_WORD, op::SUBC_ADDR_ADDR_WORD])
    } else if e == 18 {
        (seq!['M', 'U', 'L', '.', 'B'], Family::MulB, seq![op::MUL_REG_REG_BYTE, op::MUL_ADDR_REG_BYTE, op::MUL_REG_NUM_BYTE, op::MUL_ADDR_NUM_BYTE, op::MUL_REG_ADDR_BYTE, op::MUL_ADDR_ADDR_BYTE])
    } else if e == 19 {
        (seq!['M', 'U', 'L', '.', 'W'], Family::MathW, seq![op::MUL_REG_REG_WORD, op::MUL_ADDR_REG_WORD, op::MUL_REG_NUM_WORD, op::MUL_ADDR_NUM_WORD, op::MUL_REG_ADDR_WORD, op::MUL_ADDR_ADDR_WORD])
    } else if e == 20 {
        (seq!['D', 'I', 'V', '.', 'B'], Family::MathB, seq![op::DIV_REG_REG_BYTE, op::DIV_ADDR_REG_BYTE, op::DIV_REG_NUM_BYTE, op::DIV_ADDR_NUM_BYTE, op::DIV_REG_ADDR_BYTE, op::DIV_ADDR_ADDR_BYTE])
    } else if e == 21 {
        (seq!['D', 'I', 'V', '.', 'W'], Family::MathW, seq![op::DIV_REG_REG_WORD, op::DIV_ADDR_REG_WORD, op::DIV_REG_NUM_WORD, op::DIV_ADDR_NUM_WORD, op::DIV_REG_ADDR_WORD, op::DIV_ADDR_ADDR_WORD])
    } else if e == 22 {
        (seq!['M', 'U', 'L', 'S', '.', 'B'], Family::MulB, seq![op::MULS_REG_REG_BYTE, op::MULS_ADDR_REG_BYTE, op::MULS_REG_NUM_BYTE, op::MULS_ADDR_NUM_BYTE, op::MULS_REG_ADDR_BYTE, op::MULS_ADDR_ADDR_BYTE])
    } else if e == 23 {
        (seq!['M', 'U', 'L', 'S', '.', 'W'], Family::MathW, seq![op::MULS_REG_REG_WORD, op::MULS_ADDR_REG_WORD, op::MULS_REG_NUM_WORD, op::MULS_ADDR_NUM_WORD, op::MULS_REG_ADDR_WORD, op::MULS_ADDR_ADDR_WORD])
    } else if e == 24 {
        (seq!['D', 'I', 'V', 'S', '.', 'B'], Family::MathB, seq![op::DIVS_REG_REG_BYTE, op::DIVS_ADDR_REG_BYTE, op::DIVS_REG_NUM_BYTE, op::DIVS_ADDR_NUM_BYTE, op::DIVS_REG_ADDR_BYTE, op::DIVS_ADDR_ADDR_BYTE])
    } else if e == 25 {
        (seq!['D', 'I', 'V', 'S', '.', 'W'], Family::MathW, seq![op::DIVS_REG_REG_WORD, op::DIVS_ADDR_REG_WORD, op::DIVS_REG_NUM_WORD, op::DIVS_ADDR_NUM_WORD, op::DIVS_REG_ADDR_WORD, op::DIVS_ADDR_ADDR_WORD])
    } else if e == 26 {
        (seq!['A', 'S', 'L', '.', 'B'], Family::LogicB, seq![op::ASL_REG_REG_BYTE, op::ASL_REG_NUM_BYTE, op::ASL_ADDR_BYTE])
    } else if e == 27 {
        (seq!['A', 'S', 'L', '.', 'W'], Family::LogicW, seq![op::ASL_REG_REG_WORD, op::ASL_REG_NUM_WORD, op::ASL_ADDR_WORD])
    } else if e == 28 {
        (seq!['A', 'S', 'R', '.', 'B'], Family::LogicB, seq![op::ASR_REG_REG_BYTE, op::ASR_REG_NUM_BYTE, op::ASR_ADDR_BYTE])
    } else if e == 29 {
        (seq!['A', 'S', 'R', '.', 'W'], Family::LogicW, seq![op::ASR_REG_REG_WORD, op::ASR_REG_NUM_WORD, op::ASR_ADDR_WORD])
    } else if e == 30 {
        (seq!['L', 'S', 'R', '.', 'B'], Family::LogicB, seq![op::LSR_REG_REG_BYTE, op::LSR_REG_NUM_BYTE, op::LSR_ADDR_BYTE])
    } else if e == 31 {
        (seq!['L', 'S', 'R', '.', 'W'], Family::LogicW, seq![op::LSR_REG_REG_WORD, op::LSR_REG_NUM_WORD, op::LSR_ADDR_WORD])
    } else if e == 32 {
        (seq!['R', 'O', 'L', '.', 'B'], Family::LogicB, seq![op::ROL_REG_REG_BYTE, op::ROL_REG_NUM_BYTE, op::ROL_ADDR_BYTE])
    } else if e == 33 {
        (seq!['R', 'O', 'L', '.', 'W'], Family::LogicW, seq![op::ROL_REG_REG_WORD, op::ROL_REG_NUM_WORD, op::ROL_ADDR_WORD])
    } else if e == 34 {
        (seq!['R', 'O', 'R', '.', 'B'], Family::LogicB, seq![op::ROR_REG_REG_BYTE, op::ROR_REG_NUM_BYTE, op::ROR_ADDR_BYTE])
    } else if e == 35 {
        (seq!['R', 'O', 'R', '.', 'W'], Family::LogicW, seq![op::ROR_REG_REG_WORD, op::ROR_REG_NUM_WORD, op::ROR_ADDR_WORD])
    } else if e == 36 {
        (seq!['I', 'N', 'C', '.', 'B'], Family::IncDecB, seq![op::INC_REG_BYTE, op::INC_ADDR_BYTE])
    } else if e == 37 {
        (seq!['I', 'N', 'C', '.', 'W'], Family::IncDecW, seq![op::INC_REG_WORD, op::INC_ADDR_WORD])
    } else if e == 38 {
        (seq!['D', 'E', 'C', '.', 'B'], Family::IncDecB, seq![op::DEC_REG_BYTE, op::DEC_ADDR_BYTE])
    } else if e == 39 {
        (seq!['D', 'E', 'C', '.', 'W'], Family::IncDecW, seq![op::DEC_REG_WORD, op::DEC_ADDR_WORD])
    } else if e == 40 {
        (seq!['R', 'E', 'T'], Family::NoArgs, seq![op::RET])
    } else if e == 41 {
        (seq!['R', 'E', 'T', 'I'], Family::NoArgs, seq![op::RETI])
    } else if e == 42 {
        (seq!['J', 'R', 'F'], Family::Relative, seq![op::JRF_BYTE])
    } else if e == 43 {
        (seq!['J', 'R', 'B'], Family::Relative, seq![op::JRB_BYTE])
    } else if e == 44 {
        (seq!['J', 'M', 'P'], Family::Jump, seq![op::JMP_ADDR, op::JMP_REG])
    } else if e == 45 {
        (seq!['J', 'E'], Family::Jump, seq![op::JE_ADDR, op::JE_REG])
    } else if e == 46 {
        (seq!['J', 'N', 'E'], Family::Jump, seq![op::JNE_ADDR, op::JNE_REG])
    } else if e == 47 {
        (seq!['J', 'L'], Family::Jump, seq![op::JL_ADDR, op::JL_REG])
    } else if e == 48 {
        (seq!['J', 'G'], Family::Jump, seq![op::JG_ADDR, op::JG_REG])
    } else if e == 49 {
        (seq!['J', 'L', 'E'], Family::Jump, seq![op::JLE_ADDR, op::JLE_REG])
    } else if e == 50 {
        (seq!['J', 'G', 'E'], Family::Jump, seq![op::JGE_ADDR, op::JGE_REG])
    } else if e == 51 {
        (seq!['J', 'B', 'C'], Family::BitJump, seq![op::JBC_REG_REG, op::JBC_ADDR_REG, op::JBC_REG_NUM, op::JBC_ADDR_NUM])
    } else if e == 52 {
        (seq!['J', 'B', 'S'], Family::BitJump, seq![op::JBS_REG_REG, op::JBS_ADDR_REG, op::JBS_REG_NUM, op::JBS_ADDR_NUM])
    } else if e == 53 {
        (seq!['C', 'A', 'L', 'L'], Family::Jump, seq![op::CALL_ADDR, op::CALL_REG])
    } else if e == 54 {
        (seq!['P', 'U', 'S', 'H', '.', 'B'], Family::PushB, seq![op::PUSH_REG_BYTE, op::PUSH_NUM_BYTE])
    } else if e == 55 {
        (seq!['P', 'U', 'S', 'H', '.', 'W'], Family::PushW, seq![op::PUSH_REG_WORD, op::PUSH_NUM_WORD])
    } else if e == 56 {
        (seq!['P', 'O', 'P', '.', 'B'], Family::PopB, seq![op::POP_REG_BYTE])
    } else if e == 57 {
        (seq!['P', 'O', 'P', '.', 'W'], Family::PopW, seq![op::POP_REG_WORD])
    } else if e == 58 {
        (seq!['S', 'W', 'A', 'P', '.', 'B'], Family::SwapB, seq![op::SWAP_REG_REG_BYTE])
    } else if e == 59 {
        (seq!['S', 'W', 'A', 'P', '.', 'W'], Family::SwapW, seq![op::SWAP_REG_REG_WORD])
    } else if e == 60 {
        (seq!['M', 'C', 'P', 'Y'], Family::MemCpy, seq![op::MEM_CPY_ADDR_ADDR_BYTE, op::MEM_CPY_ADDR_ADDR_REG, op::MEM_CPY_ADDR_REG_BYTE, op::MEM_CPY_REG_ADDR_BYTE, op::MEM_CPY_REG_REG_BYTE, op::MEM_CPY_ADDR_REG_REG, op::MEM_CPY_REG_ADDR_REG, op::MEM_CPY_REG_REG_REG])
    } else if e == 61 {
        (seq!['O', 'R', '.', 'B'], Family::BitwiseB, seq![op::OR_REG_REG_BYTE, op::OR_REG_NUM_BYTE])
    } else if e == 62 {
        (seq!['O', 'R', '.', 'W'], Family::BitwiseW, seq![op::OR_REG_REG_WORD, op::OR_REG_NUM_WORD])
    } else if e == 63 {
        (seq!['X', 'O', 'R', '.', 'B'], Family::BitwiseB, seq![op::XOR_REG_REG_BYTE, op::XOR_REG_NUM_BYTE])
    } else if e == 64 {
        (seq!['X', 'O', 'R', '.', 'W'], Family::BitwiseW, seq![op::XOR_REG_REG_WORD, op::XOR_REG_NUM_WORD])
    } else if e == 65 {
        (seq!['A', 'N', 'D', '.', 'B'], Family::BitwiseB, seq![op::AND_REG_REG_BYTE, op::AND_REG_NUM_BYTE])
    } else if e == 66 {
        (seq!['A', 'N', 'D', '.', 'W'], Family::BitwiseW, seq![op::AND_REG_REG_WORD, op::AND_REG_NUM_WORD])
    } else if e == 67 {
        (seq!['N', 'O', 'T', '.', 'B'], Family::NotB, seq![op::NOT_REG_BYTE])
    } else if e == 68 {
        (seq!['N', 'O', 'T', '.', 'W'], Family::NotW, seq![op::NOT_REG_WORD])
    } else {
        (Seq::empty(), Family::NoArgs, Seq::empty())
    }
}

/// Mnemonic number `e`, to be read at run time.
pub fn entry_exec(e: usize) -> (r: (Vec<char>, Family, Vec<u8>))
    requires
        e < ENTRY_COUNT,
    ensures
        r.0@ == entry(e as int).0,
        r.1 == entry(e as int).1,
        r.2@ == entry(e as int).2,
{
    if e == 0 {
        (vec!['N', 'O', 'P'], Family::NoArgs, vec![op::NOP])
    } else if e == 1 {
        (vec!['H', 'A', 'L', 'T'], Family::NoArgs, vec![op::HALT])
    } else if e == 2 {
        (vec!['E', 'H', 'A', 'L', 'T'], Family::NoArgs, vec![op::EHALT])
    } else if e == 3 {
        (vec!['S', 'L', 'E', 'E', 'P'], Family::NoArgs, vec![op::SLEEP])
    } else if e == 4 {
        (vec!['C', 'P', 'Y', '.', 'B'], Family::MathB, vec![op::CPY_REG_REG_BYTE, op::CPY_ADDR_REG_BYTE, op::CPY_REG_NUM_BYTE, op::CPY_ADDR_NUM_BYTE, op::CPY_REG_ADDR_BYTE, op::CPY_ADDR_ADDR_BYTE])
    } else if e == 5 {
        (vec!['C', 'P', 'Y', '.', 'W'], Family::MathW, vec![op::CPY_REG_REG_WORD, op::CPY_ADDR_REG_WORD, op::CPY_REG_NUM_WORD, op::CPY_ADDR_NUM_WORD, op::CPY_REG_ADDR_WORD, op::CPY_ADDR_ADDR_WORD])
    } else if e == 6 {
        (vec!['C', 'M', 'P', '.', 'B'], Family::CmpB, vec![op::CMP_REG_REG_BYTE, op::CMP_REG_NUM_BYTE, op::CMP_REG_ADDR_BYTE])
    } else if e == 7 {
        (vec!['C', 'M', 'P', '.', 'W'], Family::CmpW, vec![op::CMP_REG_REG_WORD, op::CMP_REG_NUM_WORD, op::CMP_REG_ADDR_WORD])
    } else if e == 8 {
        (vec!['C', 'M', 'P', 'S', '.', 'B'], Family::CmpB, vec![op::CMPS_REG_REG_BYTE, op::CMPS_REG_NUM_BYTE, op::CMPS_REG_ADDR_BYTE])
    } else if e == 9 {
        (vec!['C', 'M', 'P', 'S', '.', 'W'], Family::CmpW, vec![op::CMPS_REG_REG_WORD, op::CMPS_REG_NUM_WORD, op::CMPS_REG_ADDR_WORD])
    } else if e == 10 {
        (vec!['A', 'D', 'D', '.', 'B'], Family::MathB, vec![op::ADD_REG_REG_BYTE, op::ADD_ADDR_REG_BYTE, op::ADD_REG_NUM_BYTE, op::ADD_ADDR_NUM_BYTE, op::ADD_REG_ADDR_BYTE, op::ADD_ADDR_ADDR_BYTE])
    } else if e == 11 {
        (vec!['A', 'D', 'D', '.', 'W'], Family::MathW, vec![op::ADD_REG_REG_WORD, op::ADD_ADDR_REG_WORD, op::ADD_REG_NUM_WORD, op::ADD_ADDR_NUM_WORD, op::ADD_REG_ADDR_WORD, op::ADD_ADDR_ADDR_WORD])
    } else if e == 12 {
        (vec!['S', 'U', 'B', '.', 'B'], Family::MathB, vec![op::SUB_REG_REG_BYTE, op::SUB_ADDR_REG_BYTE, op::SUB_REG_NUM_BYTE, op::SUB_ADDR_NUM_BYTE, op::SUB_REG_ADDR_BYTE, op::SUB_ADDR_ADDR_BYTE])
    } else if e == 13 {
        (vec!['S', 'U', 'B', '.', 'W'], Family::MathW, vec![op::SUB_REG_REG_WORD, op::SUB_ADDR_REG_WORD, op::SUB_REG_NUM_WORD, op::SUB_ADDR_NUM_WORD, op::SUB_REG_ADDR_WORD, op::SUB_ADDR_ADDR_WORD])
    } else if e == 14 {
        (vec!['A', 'D', 'D', 'C', '.', 'B'], Family::MathB, vec![op::ADDC_REG_REG_BYTE, op::ADDC_ADDR_REG_BYTE, op::ADDC_REG_NUM_BYTE, op::ADDC_ADDR_NUM_BYTE, op::ADDC_REG_ADDR_BYTE, op::ADDC_ADDR_ADDR_BYTE])
    } else if e == 15 {
        (vec!['A', 'D', 'D', 'C', '.', 'W'], Family::MathW, vec![op::ADDC_REG_REG_WORD, op::ADDC_ADDR_REG_WORD, op::ADDC_REG_NUM_WORD, op::ADDC_ADDR_NUM_WORD, op::ADDC_REG_ADDR_WORD, op::ADDC_ADDR_ADDR_WORD])
    } else if e == 16 {
        (vec!['S', 'U', 'B', 'C', '.', 'B'], Family::MathB, vec![op::SUBC_REG_REG_BYTE, op::SUBC_ADDR_REG_BYTE, op::SUBC_REG_NUM_BYTE, op::SUBC_ADDR_NUM_BYTE, op::SUBC_REG_ADDR_BYTE, op::SUBC_ADDR_ADDR_BYTE])
    } else if e == 17 {
        (vec!['S', 'U', 'B', 'C', '.', 'W'], Family::MathW, vec![op::SUBC_REG_REG_WORD, op::SUBC_ADDR_REG_WORD, op::SUBC_REG_NUM_WORD, op::SUBC_ADDR_NUM_WORD, op::SUBC_REG_ADDR_WORD, op::SUBC_ADDR_ADDR_WORD])
    } else if e == 18 {
        (vec!['M', 'U', 'L', '.', 'B'], Family::MulB, vec![op::MUL_REG_REG_BYTE, op::MUL_ADDR_REG_BYTE, op::MUL_REG_NUM_BYTE, op::MUL_ADDR_NUM_BYTE, op::MUL_REG_ADDR_BYTE, op::MUL_ADDR_ADDR_BYTE])
    } else if e == 19 {
        (vec!['M', 'U', 'L', '.', 'W'], Family::MathW, vec![op::MUL_REG_REG_WORD, op::MUL_ADDR_REG_WORD, op::MUL_REG_NUM_WORD, op::MUL_ADDR_NUM_WORD, op::MUL_REG_ADDR_WORD, op::MUL_ADDR_ADDR_WORD])
    } else if e == 20 {
        (vec!['D', 'I', 'V', '.', 'B'], Family::MathB, vec![op::DIV_REG_REG_BYTE, op::DIV_ADDR_REG_BYTE, op::DIV_REG_NUM_BYTE, op::DIV_ADDR_NUM_BYTE, op::DIV_REG_ADDR_BYTE, op::DIV_ADDR_ADDR_BYTE])
    } else if e == 21 {
        (vec!['D', 'I', 'V', '.', 'W'], Family::MathW, vec![op::DIV_REG_REG_WORD, op::DIV_ADDR_REG_WORD, op::DIV_REG_NUM_WORD, op::DIV_ADDR_NUM_WORD, op::DIV_REG_ADDR_WORD, op::DIV_ADDR_ADDR_WORD])
    } else if e == 22 {
        (vec!['M', 'U', 'L', 'S', '.', 'B'], Family::MulB, vec![op::MULS_REG_REG_BYTE, op::MULS_ADDR_REG_BYTE, op::MULS_REG_NUM_BYTE, op::MULS_ADDR_NUM_BYTE, op::MULS_REG_ADDR_BYTE, op::MULS_ADDR_ADDR_BYTE])
    } else if e == 23 {
        (vec!['M', 'U', 'L', 'S', '.', 'W'], Family::MathW, vec![op::MULS_REG_REG_WORD, op::MULS_ADDR_REG_WORD, op::MULS_REG_NUM_WORD, op::MULS_ADDR_NUM_WORD, op::MULS_REG_ADDR_WORD, op::MULS_ADDR_ADDR_WORD])
    } else if e == 24 {
        (vec!['D', 'I', 'V', 'S', '.', 'B'], Family::MathB, vec![op::DIVS_REG_REG_BYTE, op::DIVS_ADDR_REG_BYTE, op::DIVS_REG_NUM_BYTE, op::DIVS_ADDR_NUM_BYTE, op::DIVS_REG_ADDR_BYTE, op::DIVS_ADDR_ADDR_BYTE])
    } else if e == 25 {
        (vec!['D', 'I', 'V', 'S', '.', 'W'], Family::MathW, vec![op::DIVS_REG_REG_WORD, op::DIVS_ADDR_REG_WORD, op::DIVS_REG_NUM_WORD, op::DIVS_ADDR_NUM_WORD, op::DIVS_REG_ADDR_WORD, op::DIVS_ADDR_ADDR_WORD])
    } else if e == 26 {
        (vec!['A', 'S', 'L', '.', 'B'], Family::LogicB, vec![op::ASL_REG_REG_BYTE, op::ASL_REG_NUM_BYTE, op::ASL_ADDR_BYTE])
    } else if e == 27 {
        (vec!['A', 'S', 'L', '.', 'W'], Family::LogicW, vec![op::ASL_REG_REG_WORD, op::ASL_REG_NUM_WORD, op::ASL_ADDR_WORD])
    } else if e == 28 {
        (vec!['A', 'S', 'R', '.', 'B'], Family::LogicB, vec![op::ASR_REG_REG_BYTE, op::ASR_REG_NUM_BYTE, op::ASR_ADDR_BYTE])
    } else if e == 29 {
        (vec!['A', 'S', 'R', '.', 'W'], Family::LogicW, vec![op::ASR_REG_REG_WORD, op::ASR_REG_NUM_WORD, op::ASR_ADDR_WORD])
    } else if e == 30 {
        (vec!['L', 'S', 'R', '.', 'B'], Family::LogicB, vec![op::LSR_REG_REG_BYTE, op::LSR_REG_NUM_BYTE, op::LSR_ADDR_BYTE])
    } else if e == 31 {
        (vec!['L', 'S', 'R', '.', 'W'], Family::LogicW, vec![op::LSR_REG_REG_WORD, op::LSR_REG_NUM_WORD, op::LSR_ADDR_WORD])
    } else if e == 32 {
        (vec!['R', 'O', 'L', '.', 'B'], Family::LogicB, vec![op::ROL_REG_REG_BYTE, op::ROL_REG_NUM_BYTE, op::ROL_ADDR_BYTE])
    } else if e == 33 {
        (vec!['R', 'O', 'L', '.', 'W'], Family::LogicW, vec![op::ROL_REG_REG_WORD, op::ROL_REG_NUM_WORD, op::ROL_ADDR_WORD])
    } else if e == 34 {
        (vec!['R', 'O', 'R', '.', 'B'], Family::LogicB, vec![op::ROR_REG_REG_BYTE, op::ROR_REG_NUM_BYTE, op::ROR_ADDR_BYTE])
    } else if e == 35 {
        (vec!['R', 'O', 'R', '.', 'W'], Family::LogicW, vec![op::ROR_REG_REG_WORD, op::ROR_REG_NUM_WORD, op::ROR_ADDR_WORD])
    } else if e == 36 {
        (vec!['I', 'N', 'C', '.', 'B'], Family::IncDecB, vec![op::INC_REG_BYTE, op::INC_ADDR_BYTE])
    } else if e == 37 {
        (vec!['I', 'N', 'C', '.', 'W'], Family::IncDecW, vec![op::INC_REG_WORD, op::INC_ADDR_WORD])
    } else if e == 38 {
        (vec!['D', 'E', 'C', '.', 'B'], Family::IncDecB, vec![op::DEC_REG_BYTE, op::DEC_ADDR_BYTE])
    } else if e == 39 {
        (vec!['D', 'E', 'C', '.', 'W'], Family::IncDecW, vec![op::DEC_REG_WORD, op::DEC_ADDR_WORD])
    } else if e == 40 {
        (vec!['R', 'E', 'T'], Family::NoArgs, vec![op::RET])
    } else if e == 41 {
        (vec!['R', 'E', 'T', 'I'], Family::NoArgs, vec![op::RETI])
    } else if e == 42 {
        (vec!['J', 'R', 'F'], Family::Relative, vec![op::JRF_BYTE])
    } else if e == 43 {
        (vec!['J', 'R', 'B'], Family::Relative, vec![op::JRB_BYTE])
    } else if e == 44 {
        (vec!['J', 'M', 'P'], Family::Jump, vec![op::JMP_ADDR, op::JMP_REG])
    } else if e == 45 {
        (vec!['J', 'E'], Family::Jump, vec![op::JE_ADDR, op::JE_REG])
    } else if e == 46 {
        (vec!['J', 'N', 'E'], Family::Jump, vec![op::JNE_ADDR, op::JNE_REG])
    } else if e == 47 {
        (vec!['J', 'L'], Family::Jump, vec![op::JL_ADDR, op::JL_REG])
    } else if e == 48 {
        (vec!['J', 'G'], Family::Jump, vec![op::JG_ADDR, op::JG_REG])
    } else if e == 49 {
        (vec!['J', 'L', 'E'], Family::Jump, vec![op::JLE_ADDR, op::JLE_REG])
    } else if e == 50 {
        (vec!['J', 'G', 'E'], Family::Jump, vec![op::JGE_ADDR, op::JGE_REG])
    } else if e == 51 {
        (vec!['J', 'B', 'C'], Family::BitJump, vec![op::JBC_REG_REG, op::JBC_ADDR_REG, op::JBC_REG_NUM, op::JBC_ADDR_NUM])
    } else if e == 52 {
        (vec!['J', 'B', 'S'], Family::BitJump, vec![op::JBS_REG_REG, op::JBS_ADDR_REG, op::JBS_REG_NUM, op::JBS_ADDR_NUM])
    } else if e == 53 {
        (vec!['C', 'A', 'L', 'L'], Family::Jump, vec![op::CALL_ADDR, op::CALL_REG])
    } else if e == 54 {
        (vec!['P', 'U', 'S', 'H', '.', 'B'], Family::PushB, vec![op::PUSH_REG_BYTE, op::PUSH_NUM_BYTE])
    } else if e == 55 {
        (vec!['P', 'U', 'S', 'H', '.', 'W'], Family::PushW, vec![op::PUSH_REG_WORD, op::PUSH_NUM_WORD])
    } else if e == 56 {
        (vec!['P', 'O', 'P', '.', 'B'], Family::PopB, vec![op::POP_REG_BYTE])
    } else if e == 57 {
        (vec!['P', 'O', 'P', '.', 'W'], Family::PopW, vec![op::POP_REG_WORD])
    } else if e == 58 {
        (vec!['S', 'W', 'A', 'P', '.', 'B'], Family::SwapB, vec![op::SWAP_REG_REG_BYTE])
    } else if e == 59 {
        (vec!['S', 'W', 'A', 'P', '.', 'W'], Family::SwapW, vec![op::SWAP_REG_REG_WORD])
    } else if e == 60 {
        (vec!['M', 'C', 'P', 'Y'], Family::MemCpy, vec![op::MEM_CPY_ADDR_ADDR_BYTE, op::MEM_CPY_ADDR_ADDR_REG, op::MEM_CPY_ADDR_REG_BYTE, op::MEM_CPY_REG_ADDR_BYTE, op::MEM_CPY_REG_REG_BYTE, op::MEM_CPY_ADDR_REG_REG, op::MEM_CPY_REG_ADDR_REG, op::MEM_CPY_REG_REG_REG])
    } else if e == 61 {
        (vec!['O', 'R', '.', 'B'], Family::BitwiseB, vec![op::OR_REG_REG_BYTE, op::OR_REG_NUM_BYTE])
    } else if e == 62 {
        (vec!['O', 'R', '.', 'W'], Family::BitwiseW, vec![op::OR_REG_REG_WORD, op::OR_REG_NUM_WORD])
    } else if e == 63 {
        (vec!['X', 'O', 'R', '.', 'B'], Family::BitwiseB, vec![op::XOR_REG_REG_BYTE, op::XOR_REG_NUM_BYTE])
    } else if e == 64 {
        (vec!['X', 'O', 'R', '.', 'W'], Family::BitwiseW, vec![op::XOR_REG_REG_WORD, op::XOR_REG_NUM_WORD])
    } else if e == 65 {
        (vec!['A', 'N', 'D', '.', 'B'], Family::BitwiseB, vec![op::AND_REG_REG_BYTE, op::AND_REG_NUM_BYTE])
    } else if e == 66 {
        (vec!['A', 'N', 'D', '.', 'W'], Family::BitwiseW, vec![op::AND_REG_REG_WORD, op::AND_REG_NUM_WORD])
    } else if e == 67 {
        (vec!['N', 'O', 'T', '.', 'B'], Family::NotB, vec![op::NOT_REG_BYTE])
    } else if e == 68 {
        (vec!['N', 'O', 'T', '.', 'W'], Family::NotW, vec![op::NOT_REG_WORD])
    } else {
        (vec![], Family::NoArgs, vec![])
    }
}

} // verus!

verus! {

/// The opcode position of the first row of `rows` whose pattern is `p`.
pub open spec fn find_row(rows: Seq<(Seq<char>, int)>, p: Seq<char>) -> Option<int>
    decreases rows.len(),
{
    if rows.len() == 0 {
        None
    } else if rows[0].0 == p {
        Some(rows[0].1)
    } else {
        find_row(rows.drop_first(), p)
    }
}

/// The number of the first mnemonic named `m`, looking from number `e` on.
pub open spec fn find_entry(m: Seq<char>, e: int) -> Option<int>
    decreases ENTRY_COUNT - e,
{
    if e < 0 || e >= ENTRY_COUNT {
        None
    } else if entry(e).0 == m {
        Some(e)
    } else {
        find_entry(m, e + 1)
    }
}

/// The opcode of mnemonic `m` (upper case) with operand pattern `p`.
pub open spec fn opcode_for(m: Seq<char>, p: Seq<char>) -> Option<u8> {
    match find_entry(m, 0) {
        None => None,
        Some(e) => match find_row(rows(entry(e).1), p) {
            None => None,
            Some(k) => Some(entry(e).2[k]),
        },
    }
}

proof fn lemma_find_entry_range(m: Seq<char>, e: int)
    requires
        0 <= e,
    ensures
        find_entry(m, e) matches Some(x) ==> e <= x < ENTRY_COUNT && entry(x).0 == m,
    decreases ENTRY_COUNT - e,
{
    if e < ENTRY_COUNT && entry(e).0 != m {
        lemma_find_entry_range(m, e + 1);
    }
}

proof fn lemma_find_row_range(rows: Seq<(Seq<char>, int)>, p: Seq<char>, n: int)
    requires
        forall|i: int| 0 <= i < rows.len() ==> 0 <= #[trigger] rows[i].1 < n,
    ensures
        find_row(rows, p) matches Some(k) ==> 0 <= k < n,
    decreases rows.len(),
{
    if rows.len() > 0 && rows[0].0 != p {
        let t = rows.drop_first();
        assert forall|i: int| 0 <= i < t.len() implies 0 <= #[trigger] t[i].1 < n by {
            assert(t[i] == rows[i + 1]);
        }
        lemma_find_row_range(t, p, n);
    }
}

/// Every row of a family points into the opcode list of its mnemonics.
pub proof fn lemma_rows_in_range(f: Family)
    ensures
        forall|i: int| 0 <= i < rows(f).len() ==> 0 <= #[trigger] rows(f)[i].1 < arity(f),
{
}

/// Every mnemonic lists as many opcodes as its family needs.
pub proof fn lemma_entry_arity(e: int)
    requires
        0 <= e < ENTRY_COUNT,
    ensures
        entry(e).2.len() == arity(entry(e).1),
{
}

/// A found row points into the mnemonic's opcode list.
pub proof fn lemma_opcode_in_range(m: Seq<char>, p: Seq<char>)
    ensures
        find_entry(m, 0) matches Some(e) ==> 0 <= e < ENTRY_COUNT && (find_row(
            rows(entry(e).1),
            p,
        ) matches Some(k) ==> 0 <= k < entry(e).2.len()),
{
    lemma_find_entry_range(m, 0);
    if let Some(e) = find_entry(m, 0) {
        lemma_entry_arity(e);
        lemma_rows_in_range(entry(e).1);
        lemma_find_row_range(rows(entry(e).1), p, arity(entry(e).1));
    }
}

/// The family and opcodes of the mnemonic named `m`.
pub fn lookup_mnemonic(m: &Vec<char>) -> (r: Option<(Family, Vec<u8>)>)
    ensures
        match find_entry(m@, 0) {
            None => r is None,
            Some(e) => match r {
                Some((f, codes)) => f == entry(e).1 && codes@ == entry(e).2,
                None => false,
            },
        },
{
    let mut e: usize = 0;
    while e < ENTRY_COUNT
        invariant
            e <= ENTRY_COUNT,
            find_entry(m@, 0) == find_entry(m@, e as int),
        decreases ENTRY_COUNT - e,
    {
        let (name, family, codes) = entry_exec(e);
        if crate::text::chars_eq(name.as_slice(), m.as_slice()) {
            return Some((family, codes));
        }
        e = e + 1;
    }
    None
}

/// The opcode position of the first row whose pattern is `p`.
pub fn lookup_row(rows: &Vec<(Vec<char>, usize)>, p: &Vec<char>) -> (r: Option<usize>)
    ensures
        match find_row(rows_view(rows@), p@) {
            None => r is None,
            Some(k) => r == Some(k as usize),
        },
{
    let mut i: usize = 0;
    assert(rows_view(rows@).subrange(0, rows@.len() as int) =~= rows_view(rows@));
    while i < rows.len()
        invariant
            i <= rows@.len(),
            find_row(rows_view(rows@), p@) == find_row(
                rows_view(rows@).subrange(i as int, rows@.len() as int),
                p@,
            ),
        decreases rows@.len() - i,
    {
        let ghost t = rows_view(rows@).subrange(i as int, rows@.len() as int);
        assert(t.drop_first() =~= rows_view(rows@).subrange(i + 1, rows@.len() as int));
        assert(t[0] == (rows@[i as int].0@, rows@[i as int].1 as int));
        if crate::text::chars_eq(rows[i].0.as_slice(), p.as_slice()) {
            return Some(rows[i].1);
        }
        i = i + 1;
    }
    None
}

} // verus!

verus! {

/// A number that tells apart operand patterns of up to three letters.
pub open spec fn pattern_key(p: Seq<char>) -> int {
    p.len() * 0x1000000 + (if p.len() > 0 {
        p[0] as int
    } else {
        0
    }) * 0x10000 + (if p.len() > 1 {
        p[1] as int
    } else {
        0
    }) * 0x100 + (if p.len() > 2 {
        p[2] as int
    } else {
        0
    })
}

proof fn lemma_family_patterns_distinct(f: Family)
    ensures
        forall|i: int, j: int|
            0 <= i < j < rows(f).len() ==> #[trigger] rows(f)[i].0 != #[trigger] rows(f)[j].0,
{
    let r = rows(f);
    assert forall|i: int, j: int| 0 <= i < j < r.len() implies pattern_key(r[i].0) != pattern_key(
        r[j].0,
    ) by {
    }
}

/// Within the sub-table of one mnemonic, no operand pattern appears twice.
pub proof fn lemma_patterns_distinct(e: int)
    requires
        0 <= e < ENTRY_COUNT,
    ensures
        forall|i: int, j: int|
            0 <= i < j < rows(entry(e).1).len() ==> #[trigger] rows(entry(e).1)[i].0
                != #[trigger] rows(entry(e).1)[j].0,
{
    lemma_family_patterns_distinct(entry(e).1);
}

} // verus!

verus! {

/// The opcode at row `i` of mnemonic number `e`.
pub open spec fn opcode_at(e: int, i: int) -> u8 {
    entry(e).2[rows(entry(e).1)[i].1]
}

/// Whether some row of some mnemonic has opcode `b`.
pub open spec fn in_table(b: u8) -> bool {
    exists|e: int, i: int|
        0 <= e < ENTRY_COUNT && 0 <= i < rows(entry(e).1).len() && #[trigger] opcode_at(e, i) == b
}

/// The mnemonic that owns opcode `b`.
pub open spec fn owner(b: u8) -> int {
    if b == 0x00 {
        0
    } else if b == 0x01 {
        1
    } else if b == 0x02 {
        53
    } else if b == 0x03 {
        53
    } else if b == 0x04 {
        40
    } else if b == 0x05 {
        41
    } else if b == 0x06 {
        58
    } else if b == 0x07 {
        59
    } else if b == 0x08 {
        60
    } else if b == 0x09 {
        60
    } else if b == 0x0A {
        60
    } else if b == 0x0B {
        60
    } else if b == 0x0C {
        60
    } else if b == 0x0D {
        60
    } else if b == 0x0E {
        60
    } else if b == 0x0F {
        60
    } else if b == 0x10 {
        4
    } else if b == 0x11 {
        5
    } else if b == 0x12 {
        4
    } else if b == 0x13 {
        5
    } else if b == 0x14 {
        4
    } else if b == 0x15 {
        5
    } else if b == 0x16 {
        4
    } else if b == 0x17 {
        5
    } else if b == 0x18 {
        4
    } else if b == 0x19 {
        5
    } else if b == 0x1A {
        4
    } else if b == 0x1B {
        5
    } else if b == 0x1C {
        6
    } else if b == 0x1D {
        7
    } else if b == 0x1E {
        8
    } else if b == 0x1F {
        9
    } else if b == 0x20 {
        10
    } else if b == 0x21 {
        11
    } else if b == 0x22 {
        10
    } else if b == 0x23 {
        11
    } else if b == 0x24 {
        10
    } else if b == 0x25 {
        11
    } else if b == 0x26 {
        10
    } else if b == 0x27 {
        11
    } else if b == 0x28 {
        10
    } else if b == 0x29 {
        11
    } else if b == 0x2A {
        10
    } else if b == 0x2B {
        11
    } else if b == 0x2C {
        36
    } else if b == 0x2D {
        37
    } else if b == 0x2E {
        36
    } else if b == 0x2F {
        37
    } else if b == 0x30 {
        12
    } else if b == 0x31 {
        13
    } else if b == 0x32 {
        12
    } else if b == 0x33 {
        13
    } else if b == 0x34 {
        12
    } else if b == 0x35 {
        13
    } else if b == 0x36 {
        12
    } else if b == 0x37 {
        13
    } else if b == 0x38 {
        12
    } else if b == 0x39 {
        13
    } else if b == 0x3A {
        12
    } else if b == 0x3B {
        13
    } else if b == 0x3C {
        38
    } else if b == 0x3D {
        39
    } else if b == 0x3E {
        38
    } else if b == 0x3F {
        39
    } else if b == 0x40 {
        67
    } else if b == 0x41 {
        68
    } else if b == 0x42 {
        61
    } else if b == 0x43 {
        62
    } else if b == 0x44 {
        61
    } else if b == 0x45 {
        62
    } else if b == 0x46 {
        63
    } else if b == 0x47 {
        64
    } else if b == 0x48 {
        63
    } else if b == 0x49 {
        64
    } else if b == 0x4A {
        65
    } else if b == 0x4B {
        66
    } else if b == 0x4C {
        65
    } else if b == 0x4D {
        66
    } else if b == 0x4E {
        42
    } else if b == 0x4F {
        43
    } else if b == 0x50 {
        26
    } else if b == 0x51 {
        27
    } else if b == 0x52 {
        26
    } else if b == 0x53 {
        27
    } else if b == 0x54 {
        26
    } else if b == 0x55 {
        27
    } else if b == 0x56 {
        28
    } else if b == 0x57 {
        29
    } else if b == 0x58 {
        28
    } else if b == 0x59 {
        29
    } else if b == 0x5A {
        28
    } else if b == 0x5B {
        29
    } else if b == 0x5C {
        30
    } else if b == 0x5D {
        31
    } else if b == 0x5E {
        30
    } else if b == 0x5F {
        31
    } else if b == 0x60 {
        30
    } else if b == 0x61 {
        31
    } else if b == 0x62 {
        32
    } else if b == 0x63 {
        33
    } else if b == 0x64 {
        32
    } else if b == 0x65 {
        33
    } else if b == 0x66 {
        32
    } else if b == 0x67 {
        33
    } else if b == 0x68 {
        34
    } else if b == 0x69 {
        35
    } else if b == 0x6A {
        34
    } else if b == 0x6B {
        35
    } else if b == 0x6C {
        34
    } else if b == 0x6D {
        35
    } else if b == 0x70 {
        54
    } else if b == 0x71 {
        54
    } else if b == 0x72 {
        55
    } else if b == 0x73 {
        55
    } else if b == 0x74 {
        56
    } else if b == 0x75 {
        57
    } else if b == 0x80 {
        18
    } else if b == 0x81 {
        19
    } else if b == 0x82 {
        18
    } else if b == 0x83 {
        19
    } else if b == 0x84 {
        18
    } else if b == 0x85 {
        19
    } else if b == 0x86 {
        18
    } else if b == 0x87 {
        19
    } else if b == 0x88 {
        18
    } else if b == 0x89 {
        19
    } else if b == 0x8A {
        18
    } else if b == 0x8B {
        19
    } else if b == 0x8C {
        22
    } else if b == 0x8D {
        23
    } else if b == 0x8E {
        22
    } else if b == 0x8F {
        23
    } else if b == 0x90 {
        22
    } else if b == 0x91 {
        23
    } else if b == 0x92 {
        22
    } else if b == 0x93 {
        23
    } else if b == 0x94 {
        22
    } else if b == 0x95 {
        23
    } else if b == 0x96 {
        22
    } else if b == 0x97 {
        23
    } else if b == 0x98 {
        20
    } else if b == 0x99 {
        21
    } else if b == 0x9A {
        20
    } else if b == 0x9B {
        21
    } else if b == 0x9C {
        20
    } else if b == 0x9D {
        21
    } else if b == 0x9E {
        20
    } else if b == 0x9F {
        21
    } else if b == 0xA0 {
        20
    } else if b == 0xA1 {
        21
    } else if b == 0xA2 {
        20
    } else if b == 0xA3 {
        21
    } else if b == 0xA4 {
        24
    } else if b == 0xA5 {
        25
    } else if b == 0xA6 {
        24
    } else if b == 0xA7 {
        25
    } else if b == 0xA8 {
        24
    } else if b == 0xA9 {
        25
    } else if b == 0xAA {
        24
    } else if b == 0xAB {
        25
    } else if b == 0xAC {
        24
    } else if b == 0xAD {
        25
    } else if b == 0xAE {
        24
    } else if b == 0xAF {
        25
    } else if b == 0xB0 {
        44
    } else if b == 0xB1 {
        44
    } else if b == 0xB2 {
        45
    } else if b == 0xB3 {
        45
    } else if b == 0xB4 {
        46
    } else if b == 0xB5 {
        46
    } else if b == 0xB6 {
        47
    } else if b == 0xB7 {
        47
    } else if b == 0xB8 {
        48
    } else if b == 0xB9 {
        48
    } else if b == 0xBA {
        49
    } else if b == 0xBB {
        49
    } else if b == 0xBC {
        50
    } else if b == 0xBD {
        50
    } else if b == 0xC0 {
        6
    } else if b == 0xC1 {
        7
    } else if b == 0xC2 {
        6
    } else if b == 0xC3 {
        7
    } else if b == 0xC4 {
        8
    } else if b == 0xC5 {
        9
    } else if b == 0xC6 {
        8
    } else if b == 0xC7 {
        9
    } else if b == 0xC8 {
        51
    } else if b == 0xC9 {
        52
    } else if b == 0xCA {
        51
    } else if b == 0xCB {
        52
    } else if b == 0xCC {
        51
    } else if b == 0xCD {
        52
    } else if b == 0xCE {
        51
    } else if b == 0xCF {
        52
    } else if b == 0xE0 {
        14
    } else if b == 0xE1 {
        15
    } else if b == 0xE2 {
        14
    } else if b == 0xE3 {
        15
    } else if b == 0xE4 {
        14
    } else if b == 0xE5 {
        15
    } else if b == 0xE6 {
        14
    } else if b == 0xE7 {
        15
    } else if b == 0xE8 {
        14
    } else if b == 0xE9 {
        15
    } else if b == 0xEA {
        14
    } else if b == 0xEB {
        15
    } else if b == 0xEC {
        16
    } else if b == 0xED {
        17
    } else if b == 0xEE {
        16
    } else if b == 0xEF {
        17
    } else if b == 0xF0 {
        16
    } else if b == 0xF1 {
        17
    } else if b == 0xF2 {
        16
    } else if b == 0xF3 {
        17
    } else if b == 0xF4 {
        16
    } else if b == 0xF5 {
        17
    } else if b == 0xF6 {
        16
    } else if b == 0xF7 {
        17
    } else if b == 0xFE {
        2
    } else if b == 0xFF {
        3
    } else {
        -1
    }
}

proof fn lemma_codes_are_opcodes(e: int)
    requires
        0 <= e < ENTRY_COUNT,
    ensures
        forall|k: int| 0 <= k < entry(e).2.len() ==> is_opcode(#[trigger] entry(e).2[k]),
{
}

proof fn lemma_owner_0()
    ensures
        forall|i: int| 0 <= i < rows(entry(0).1).len() ==> owner(#[trigger] opcode_at(0, i)) == 0,
{
}

proof fn lemma_owner_1()
    ensures
        forall|i: int| 0 <= i < rows(entry(1).1).len() ==> owner(#[trigger] opcode_at(1, i)) == 1,
{
}

proof fn lemma_owner_2()
    ensures
        forall|i: int| 0 <= i < rows(entry(2).1).len() ==> owner(#[trigger] opcode_at(2, i)) == 2,
{
}

proof fn lemma_owner_3()
    ensures
        forall|i: int| 0 <= i < rows(entry(3).1).len() ==> owner(#[trigger] opcode_at(3, i)) == 3,
{
}

proof fn lemma_owner_4()
    ensures
        forall|i: int| 0 <= i < rows(entry(4).1).len() ==> owner(#[trigger] opcode_at(4, i)) == 4,
{
}

proof fn lemma_owner_5()
    ensures
        forall|i: int| 0 <= i < rows(entry(5).1).len() ==> owner(#[trigger] opcode_at(5, i)) == 5,
{
}

proof fn lemma_owner_6()
    ensures
        forall|i: int| 0 <= i < rows(entry(6).1).len() ==> owner(#[trigger] opcode_at(6, i)) == 6,
{
}

proof fn lemma_owner_7()
    ensures
        forall|i: int| 0 <= i < rows(entry(7).1).len() ==> owner(#[trigger] opcode_at(7, i)) == 7,
{
}

proof fn lemma_owner_8()
    ensures
        forall|i: int| 0 <= i < rows(entry(8).1).len() ==> owner(#[trigger] opcode_at(8, i)) == 8,
{
}

proof fn lemma_owner_9()
    ensures
        forall|i: int| 0 <= i < rows(entry(9).1).len() ==> owner(#[trigger] opcode_at(9, i)) == 9,
{
}

proof fn lemma_owner_10()
    ensures
        forall|i: int| 0 <= i < rows(entry(10).1).len() ==> owner(#[trigger] opcode_at(10, i)) == 10,
{
}

proof fn lemma_owner_11()
    ensures
        forall|i: int| 0 <= i < rows(entry(11).1).len() ==> owner(#[trigger] opcode_at(11, i)) == 11,
{
}

proof fn lemma_owner_12()
    ensures
        forall|i: int| 0 <= i < rows(entry(12).1).len() ==> owner(#[trigger] opcode_at(12, i)) == 12,
{
}

proof fn lemma_owner_13()
    ensures
        forall|i: int| 0 <= i < rows(entry(13).1).len() ==> owner(#[trigger] opcode_at(13, i)) == 13,
{
}

proof fn lemma_owner_14()
    ensures
        forall|i: int| 0 <= i < rows(entry(14).1).len() ==> owner(#[trigger] opcode_at(14, i)) == 14,
{
}

proof fn lemma_owner_15()
    ensures
        forall|i: int| 0 <= i < rows(entry(15).1).len() ==> owner(#[trigger] opcode_at(15, i)) == 15,
{
}

proof fn lemma_owner_16()
    ensures
        forall|i: int| 0 <= i < rows(entry(16).1).len() ==> owner(#[trigger] opcode_at(16, i)) == 16,
{
}

proof fn lemma_owner_17()
    ensures
        forall|i: int| 0 <= i < rows(entry(17).1).len() ==> owner(#[trigger] opcode_at(17, i)) == 17,
{
}

proof fn lemma_owner_18()
    ensures
        forall|i: int| 0 <= i < rows(entry(18).1).len() ==> owner(#[trigger] opcode_at(18, i)) == 18,
{
}

proof fn lemma_owner_19()
    ensures
        forall|i: int| 0 <= i < rows(entry(19).1).len() ==> owner(#[trigger] opcode_at(19, i)) == 19,
{
}

proof fn lemma_owner_20()
    ensures
        forall|i: int| 0 <= i < rows(entry(20).1).len() ==> owner(#[trigger] opcode_at(20, i)) == 20,
{
}

proof fn lemma_owner_21()
    ensures
        forall|i: int| 0 <= i < rows(entry(21).1).len() ==> owner(#[trigger] opcode_at(21, i)) == 21,
{
}

proof fn lemma_owner_22()
    ensures
        forall|i: int| 0 <= i < rows(entry(22).1).len() ==> owner(#[trigger] opcode_at(22, i)) == 22,
{
}

proof fn lemma_owner_23()
    ensures
        forall|i: int| 0 <= i < rows(entry(23).1).len() ==> owner(#[trigger] opcode_at(23, i)) == 23,
{
}

proof fn lemma_owner_24()
    ensures
        forall|i: int| 0 <= i < rows(entry(24).1).len() ==> owner(#[trigger] opcode_at(24, i)) == 24,
{
}

proof fn lemma_owner_25()
    ensures
        forall|i: int| 0 <= i < rows(entry(25).1).len() ==> owner(#[trigger] opcode_at(25, i)) == 25,
{
}

proof fn lemma_owner_26()
    ensures
        forall|i: int| 0 <= i < rows(entry(26).1).len() ==> owner(#[trigger] opcode_at(26, i)) == 26,
{
}

proof fn lemma_owner_27()
    ensures
        forall|i: int| 0 <= i < rows(entry(27).1).len() ==> owner(#[trigger] opcode_at(27, i)) == 27,
{
}

proof fn lemma_owner_28()
    ensures
        forall|i: int| 0 <= i < rows(entry(28).1).len() ==> owner(#[trigger] opcode_at(28, i)) == 28,
{
}

proof fn lemma_owner_29()
    ensures
        forall|i: int| 0 <= i < rows(entry(29).1).len() ==> owner(#[trigger] opcode_at(29, i)) == 29,
{
}

proof fn lemma_owner_30()
    ensures
        forall|i: int| 0 <= i < rows(entry(30).1).len() ==> owner(#[trigger] opcode_at(30, i)) == 30,
{
}

proof fn lemma_owner_31()
    ensures
        forall|i: int| 0 <= i < rows(entry(31).1).len() ==> owner(#[trigger] opcode_at(31, i)) == 31,
{
}

proof fn lemma_owner_32()
    ensures
        forall|i: int| 0 <= i < rows(entry(32).1).len() ==> owner(#[trigger] opcode_at(32, i)) == 32,
{
}

proof fn lemma_owner_33()
    ensures
        forall|i: int| 0 <= i < rows(entry(33).1).len() ==> owner(#[trigger] opcode_at(33, i)) == 33,
{
}

proof fn lemma_owner_34()
    ensures
        forall|i: int| 0 <= i < rows(entry(34).1).len() ==> owner(#[trigger] opcode_at(34, i)) == 34,
{
}

proof fn lemma_owner_35()
    ensures
        forall|i: int| 0 <= i < rows(entry(35).1).len() ==> owner(#[trigger] opcode_at(35, i)) == 35,
{
}

proof fn lemma_owner_36()
    ensures
        forall|i: int| 0 <= i < rows(entry(36).1).len() ==> owner(#[trigger] opcode_at(36, i)) == 36,
{
}

proof fn lemma_owner_37()
    ensures
        forall|i: int| 0 <= i < rows(entry(37).1).len() ==> owner(#[trigger] opcode_at(37, i)) == 37,
{
}

proof fn lemma_owner_38()
    ensures
        forall|i: int| 0 <= i < rows(entry(38).1).len() ==> owner(#[trigger] opcode_at(38, i)) == 38,
{
}

proof fn lemma_owner_39()
    ensures
        forall|i: int| 0 <= i < rows(entry(39).1).len() ==> owner(#[trigger] opcode_at(39, i)) == 39,
{
}

proof fn lemma_owner_40()
    ensures
        forall|i: int| 0 <= i < rows(entry(40).1).len() ==> owner(#[trigger] opcode_at(40, i)) == 40,
{
}

proof fn lemma_owner_41()
    ensures
        forall|i: int| 0 <= i < rows(entry(41).1).len() ==> owner(#[trigger] opcode_at(41, i)) == 41,
{
}

proof fn lemma_owner_42()
    ensures
        forall|i: int| 0 <= i < rows(entry(42).1).len() ==> owner(#[trigger] opcode_at(42, i)) == 42,
{
}

proof fn lemma_owner_43()
    ensures
        forall|i: int| 0 <= i < rows(entry(43).1).len() ==> owner(#[trigger] opcode_at(43, i)) == 43,
{
}

proof fn lemma_owner_44()
    ensures
        forall|i: int| 0 <= i < rows(entry(44).1).len() ==> owner(#[trigger] opcode_at(44, i)) == 44,
{
}

proof fn lemma_owner_45()
    ensures
        forall|i: int| 0 <= i < rows(entry(45).1).len() ==> owner(#[trigger] opcode_at(45, i)) == 45,
{
}

proof fn lemma_owner_46()
    ensures
        forall|i: int| 0 <= i < rows(entry(46).1).len() ==> owner(#[trigger] opcode_at(46, i)) == 46,
{
}

proof fn lemma_owner_47()
    ensures
        forall|i: int| 0 <= i < rows(entry(47).1).len() ==> owner(#[trigger] opcode_at(47, i)) == 47,
{
}

proof fn lemma_owner_48()
    ensures
        forall|i: int| 0 <= i < rows(entry(48).1).len() ==> owner(#[trigger] opcode_at(48, i)) == 48,
{
}

proof fn lemma_owner_49()
    ensures
        forall|i: int| 0 <= i < rows(entry(49).1).len() ==> owner(#[trigger] opcode_at(49, i)) == 49,
{
}

proof fn lemma_owner_50()
    ensures
        forall|i: int| 0 <= i < rows(entry(50).1).len() ==> owner(#[trigger] opcode_at(50, i)) == 50,
{
}

proof fn lemma_owner_51()
    ensures
        forall|i: int| 0 <= i < rows(entry(51).1).len() ==> owner(#[trigger] opcode_at(51, i)) == 51,
{
}

proof fn lemma_owner_52()
    ensures
        forall|i: int| 0 <= i < rows(entry(52).1).len() ==> owner(#[trigger] opcode_at(52, i)) == 52,
{
}

proof fn lemma_owner_53()
    ensures
        forall|i: int| 0 <= i < rows(entry(53).1).len() ==> owner(#[trigger] opcode_at(53, i)) == 53,
{
}

proof fn lemma_owner_54()
    ensures
        forall|i: int| 0 <= i < rows(entry(54).1).len() ==> owner(#[trigger] opcode_at(54, i)) == 54,
{
}

proof fn lemma_owner_55()
    ensures
        forall|i: int| 0 <= i < rows(entry(55).1).len() ==> owner(#[trigger] opcode_at(55, i)) == 55,
{
}

proof fn lemma_owner_56()
    ensures
        forall|i: int| 0 <= i < rows(entry(56).1).len() ==> owner(#[trigger] opcode_at(56, i)) == 56,
{
}

proof fn lemma_owner_57()
    ensures
        forall|i: int| 0 <= i < rows(entry(57).1).len() ==> owner(#[trigger] opcode_at(57, i)) == 57,
{
}

proof fn lemma_owner_58()
    ensures
        forall|i: int| 0 <= i < rows(entry(58).1).len() ==> owner(#[trigger] opcode_at(58, i)) == 58,
{
}

proof fn lemma_owner_59()
    ensures
        forall|i: int| 0 <= i < rows(entry(59).1).len() ==> owner(#[trigger] opcode_at(59, i)) == 59,
{
}

proof fn lemma_owner_60()
    ensures
        forall|i: int| 0 <= i < rows(entry(60).1).len() ==> owner(#[trigger] opcode_at(60, i)) == 60,
{
}

proof fn lemma_owner_61()
    ensures
        forall|i: int| 0 <= i < rows(entry(61).1).len() ==> owner(#[trigger] opcode_at(61, i)) == 61,
{
}

proof fn lemma_owner_62()
    ensures
        forall|i: int| 0 <= i < rows(entry(62).1).len() ==> owner(#[trigger] opcode_at(62, i)) == 62,
{
}

proof fn lemma_owner_63()
    ensures
        forall|i: int| 0 <= i < rows(entry(63).1).len() ==> owner(#[trigger] opcode_at(63, i)) == 63,
{
}

proof fn lemma_owner_64()
    ensures
        forall|i: int| 0 <= i < rows(entry(64).1).len() ==> owner(#[trigger] opcode_at(64, i)) == 64,
{
}

proof fn lemma_owner_65()
    ensures
        forall|i: int| 0 <= i < rows(entry(65).1).len() ==> owner(#[trigger] opcode_at(65, i)) == 65,
{
}

proof fn lemma_owner_66()
    ensures
        forall|i: int| 0 <= i < rows(entry(66).1).len() ==> owner(#[trigger] opcode_at(66, i)) == 66,
{
}

proof fn lemma_owner_67()
    ensures
        forall|i: int| 0 <= i < rows(entry(67).1).len() ==> owner(#[trigger] opcode_at(67, i)) == 67,
{
}

proof fn lemma_owner_68()
    ensures
        forall|i: int| 0 <= i < rows(entry(68).1).len() ==> owner(#[trigger] opcode_at(68, i)) == 68,
{
}

proof fn lemma_owner(e: int, i: int)
    requires
        0 <= e < ENTRY_COUNT,
        0 <= i < rows(entry(e).1).len(),
    ensures
        owner(opcode_at(e, i)) == e,
{
    if e == 0 {
        lemma_owner_0();
    } else if e == 1 {
        lemma_owner_1();
    } else if e == 2 {
        lemma_owner_2();
    } else if e == 3 {
        lemma_owner_3();
    } else if e == 4 {
        lemma_owner_4();
    } else if e == 5 {
        lemma_owner_5();
    } else if e == 6 {
        lemma_owner_6();
    } else if e == 7 {
        lemma_owner_7();
    } else if e == 8 {
        lemma_owner_8();
    } else if e == 9 {
        lemma_owner_9();
    } else if e == 10 {
        lemma_owner_10();
    } else if e == 11 {
        lemma_owner_11();
    } else if e == 12 {
        lemma_owner_12();
    } else if e == 13 {
        lemma_owner_13();
    } else if e == 14 {
        lemma_owner_14();
    } else if e == 15 {
        lemma_owner_15();
    } else if e == 16 {
        lemma_owner_16();
    } else if e == 17 {
        lemma_owner_17();
    } else if e == 18 {
        lemma_owner_18();
    } else if e == 19 {
        lemma_owner_19();
    } else if e == 20 {
        lemma_owner_20();
    } else if e == 21 {
        lemma_owner_21();
    } else if e == 22 {
        lemma_owner_22();
    } else if e == 23 {
        lemma_owner_23();
    } else if e == 24 {
        lemma_owner_24();
    } else if e == 25 {
        lemma_owner_25();
    } else if e == 26 {
        lemma_owner_26();
    } else if e == 27 {
        lemma_owner_27();
    } else if e == 28 {
        lemma_owner_28();
    } else if e == 29 {
        lemma_owner_29();
    } else if e == 30 {
        lemma_owner_30();
    } else if e == 31 {
        lemma_owner_31();
    } else if e == 32 {
        lemma_owner_32();
    } else if e == 33 {
        lemma_owner_33();
    } else if e == 34 {
        lemma_owner_34();
    } else if e == 35 {
        lemma_owner_35();
    } else if e == 36 {
        lemma_owner_36();
    } else if e == 37 {
        lemma_owner_37();
    } else if e == 38 {
        lemma_owner_38();
    } else if e == 39 {
        lemma_owner_39();
    } else if e == 40 {
        lemma_owner_40();
    } else if e == 41 {
        lemma_owner_41();
    } else if e == 42 {
        lemma_owner_42();
    } else if e == 43 {
        lemma_owner_43();
    } else if e == 44 {
        lemma_owner_44();
    } else if e == 45 {
        lemma_owner_45();
    } else if e == 46 {
        lemma_owner_46();
    } else if e == 47 {
        lemma_owner_47();
    } else if e == 48 {
        lemma_owner_48();
    } else if e == 49 {
        lemma_owner_49();
    } else if e == 50 {
        lemma_owner_50();
    } else if e == 51 {
        lemma_owner_51();
    } else if e == 52 {
        lemma_owner_52();
    } else if e == 53 {
        lemma_owner_53();
    } else if e == 54 {
        lemma_owner_54();
    } else if e == 55 {
        lemma_owner_55();
    } else if e == 56 {
        lemma_owner_56();
    } else if e == 57 {
        lemma_owner_57();
    } else if e == 58 {
        lemma_owner_58();
    } else if e == 59 {
        lemma_owner_59();
    } else if e == 60 {
        lemma_owner_60();
    } else if e == 61 {
        lemma_owner_61();
    } else if e == 62 {
        lemma_owner_62();
    } else if e == 63 {
        lemma_owner_63();
    } else if e == 64 {
        lemma_owner_64();
    } else if e == 65 {
        lemma_owner_65();
    } else if e == 66 {
        lemma_owner_66();
    } else if e == 67 {
        lemma_owner_67();
    } else if e == 68 {
        lemma_owner_68();
    }
}

proof fn lemma_reach_0(b: u8)
    requires
        0x00 <= b < 0x10,
        is_opcode(b),
    ensures
        in_table(b),
{
    if b == 0x00 {
        assert(opcode_at(0, 0) == b);
    } else if b == 0x01 {
        assert(opcode_at(1, 0) == b);
    } else if b == 0x02 {
        assert(opcode_at(53, 0) == b);
    } else if b == 0x03 {
        assert(opcode_at(53, 1) == b);
    } else if b == 0x04 {
        assert(opcode_at(40, 0) == b);
    } else if b == 0x05 {
        assert(opcode_at(41, 0) == b);
    } else if b == 0x06 {
        assert(opcode_at(58, 0) == b);
    } else if b == 0x07 {
        assert(opcode_at(59, 0) == b);
    } else if b == 0x08 {
        assert(opcode_at(60, 0) == b);
    } else if b == 0x09 {
        assert(opcode_at(60, 3) == b);
    } else if b == 0x0A {
        assert(opcode_at(60, 5) == b);
    } else if b == 0x0B {
        assert(opcode_at(60, 7) == b);
    } else if b == 0x0C {
        assert(opcode_at(60, 1) == b);
    } else if b == 0x0D {
        assert(opcode_at(60, 10) == b);
    } else if b == 0x0E {
        assert(opcode_at(60, 17) == b);
    } else if b == 0x0F {
        assert(opcode_at(60, 11) == b);
    }
}

proof fn lemma_reach_1(b: u8)
    requires
        0x10 <= b < 0x20,
        is_opcode(b),
    ensures
        in_table(b),
{
    if b == 0x10 {
        assert(opcode_at(4, 7) == b);
    } else if b == 0x11 {
        assert(opcode_at(5, 7) == b);
    } else if b == 0x12 {
        assert(opcode_at(4, 4) == b);
    } else if b == 0x13 {
        assert(opcode_at(5, 4) == b);
    } else if b == 0x14 {
        assert(opcode_at(4, 2) == b);
    } else if b == 0x15 {
        assert(opcode_at(5, 2) == b);
    } else if b == 0x16 {
        assert(opcode_at(4, 11) == b);
    } else if b == 0x17 {
        assert(opcode_at(5, 11) == b);
    } else if b == 0x18 {
        assert(opcode_at(4, 0) == b);
    } else if b == 0x19 {
        assert(opcode_at(5, 0) == b);
    } else if b == 0x1A {
        assert(opcode_at(4, 6) == b);
    } else if b == 0x1B {
        assert(opcode_at(5, 6) == b);
    } else if b == 0x1C {
        assert(opcode_at(6, 6) == b);
    } else if b == 0x1D {
        assert(opcode_at(7, 6) == b);
    } else if b == 0x1E {
        assert(opcode_at(8, 6) == b);
    } else if b == 0x1F {
        assert(opcode_at(9, 6) == b);
    }
}

proof fn lemma_reach_2(b: u8)
    requires
        0x20 <= b < 0x30,
        is_opcode(b),
    ensures
        in_table(b),
{
    if b == 0x20 {
        assert(opcode_at(10, 7) == b);
    } else if b == 0x21 {
        assert(opcode_at(11, 7) == b);
    } else if b == 0x22 {
        assert(opcode_at(10, 0) == b);
    } else if b == 0x23 {
        assert(opcode_at(11, 0) == b);
    } else if b == 0x24 {
        assert(opcode_at(10, 2) == b);
    } else if b == 0x25 {
        assert(opcode_at(11, 2) == b);
    } else if b == 0x26 {
        assert(opcode_at(10, 4) == b);
    } else if b == 0x27 {
        assert(opcode_at(11, 4) == b);
    } else if b == 0x28 {
        assert(opcode_at(10, 6) == b);
    } else if b == 0x29 {
        assert(opcode_at(11, 6) == b);
    } else if b == 0x2A {
        assert(opcode_at(10, 11) == b);
    } else if b == 0x2B {
        assert(opcode_at(11, 11) == b);
    } else if b == 0x2C {
        assert(opcode_at(36, 0) == b);
    } else if b == 0x2D {
        assert(opcode_at(37, 0) == b);
    } else if b == 0x2E {
        assert(opcode_at(36, 2) == b);
    } else if b == 0x2F {
        assert(opcode_at(37, 2) == b);
    }
}

proof fn lemma_reach_3(b: u8)
    requires
        0x30 <= b < 0x40,
        is_opcode(b),
    ensures
        in_table(b),
{
    if b == 0x30 {
        assert(opcode_at(12, 7) == b);
    } else if b == 0x31 {
        assert(opcode_at(13, 7) == b);
    } else if b == 0x32 {
        assert(opcode_at(12, 0) == b);
    } else if b == 0x33 {
        assert(opcode_at(13, 0) == b);
    } else if b == 0x34 {
        assert(opcode_at(12, 2) == b);
    } else if b == 0x35 {
        assert(opcode_at(13, 2) == b);
    } else if b == 0x36 {
        assert(opcode_at(12, 4) == b);
    } else if b == 0x37 {
        assert(opcode_at(13, 4) == b);
    } else if b == 0x38 {
        assert(opcode_at(12, 6) == b);
    } else if b == 0x39 {
        assert(opcode_at(13, 6) == b);
    } else if b == 0x3A {
        assert(opcode_at(12, 11) == b);
    } else if b == 0x3B {
        assert(opcode_at(13, 11) == b);
    } else if b == 0x3C {
        assert(opcode_at(38, 0) == b);
    } else if b == 0x3D {
        assert(opcode_at(39, 0) == b);
    } else if b == 0x3E {
        assert(opcode_at(38, 2) == b);
    } else if b == 0x3F {
        assert(opcode_at(39, 2) == b);
    }
}

proof fn lemma_reach_4(b: u8)
    requires
        0x40 <= b < 0x50,
        is_opcode(b),
    ensures
        in_table(b),
{
    if b == 0x40 {
        assert(opcode_at(67, 0) == b);
    } else if b == 0x41 {
        assert(opcode_at(68, 0) == b);
    } else if b == 0x42 {
        assert(opcode_at(61, 2) == b);
    } else if b == 0x43 {
        assert(opcode_at(62, 2) == b);
    } else if b == 0x44 {
        assert(opcode_at(61, 0) == b);
    } else if b == 0x45 {
        assert(opcode_at(62, 0) == b);
    } else if b == 0x46 {
        assert(opcode_at(63, 2) == b);
    } else if b == 0x47 {
        assert(opcode_at(64, 2) == b);
    } else if b == 0x48 {
        assert(opcode_at(63, 0) == b);
    } else if b == 0x49 {
        assert(opcode_at(64, 0) == b);
    } else if b == 0x4A {
        assert(opcode_at(65, 2) == b);
    } else if b == 0x4B {
        assert(opcode_at(66, 2) == b);
    } else if b == 0x4C {
        assert(opcode_at(65, 0) == b);
    } else if b == 0x4D {
        assert(opcode_at(66, 0) == b);
    } else if b == 0x4E {
        assert(opcode_at(42, 0) == b);
    } else if b == 0x4F {
        assert(opcode_at(43, 0) == b);
    }
}

proof fn lemma_reach_5(b: u8)
    requires
        0x50 <= b < 0x60,
        is_opcode(b),
    ensures
        in_table(b),
{
    if b == 0x50 {
        assert(opcode_at(26, 0) == b);
    } else if b == 0x51 {
        assert(opcode_at(27, 0) == b);
    } else if b == 0x52 {
        assert(opcode_at(26, 3) == b);
    } else if b == 0x53 {
        assert(opcode_at(27, 3) == b);
    } else if b == 0x54 {
        assert(opcode_at(26, 2) == b);
    } else if b == 0x55 {
        assert(opcode_at(27, 2) == b);
    } else if b == 0x56 {
        assert(opcode_at(28, 0) == b);
    } else if b == 0x57 {
        assert(opcode_at(29, 0) == b);
    } else if b == 0x58 {
        assert(opcode_at(28, 3) == b);
    } else if b == 0x59 {
        assert(opcode_at(29, 3) == b);
    } else if b == 0x5A {
        assert(opcode_at(28, 2) == b);
    } else if b == 0x5B {
        assert(opcode_at(29, 2) == b);
    } else if b == 0x5C {
        assert(opcode_at(30, 0) == b);
    } else if b == 0x5D {
        assert(opcode_at(31, 0) == b);
    } else if b == 0x5E {
        assert(opcode_at(30, 3) == b);
    } else if b == 0x5F {
        assert(opcode_at(31, 3) == b);
    }
}

proof fn lemma_reach_6(b: u8)
    requires
        0x60 <= b < 0x70,
        is_opcode(b),
    ensures
        in_table(b),
{
    if b == 0x60 {
        assert(opcode_at(30, 2) == b);
    } else if b == 0x61 {
        assert(opcode_at(31, 2) == b);
    } else if b == 0x62 {
        assert(opcode_at(32, 0) == b);
    } else if b == 0x63 {
        assert(opcode_at(33, 0) == b);
    } else if b == 0x64 {
        assert(opcode_at(32, 3) == b);
    } else if b == 0x65 {
        assert(opcode_at(33, 3) == b);
    } else if b == 0x66 {
        assert(opcode_at(32, 2) == b);
    } else if b == 0x67 {
        assert(opcode_at(33, 2) == b);
    } else if b == 0x68 {
        assert(opcode_at(34, 0) == b);
    } else if b == 0x69 {
        assert(opcode_at(35, 0) == b);
    } else if b == 0x6A {
        assert(opcode_at(34, 3) == b);
    } else if b == 0x6B {
        assert(opcode_at(35, 3) == b);
    } else if b == 0x6C {
        assert(opcode_at(34, 2) == b);
    } else if b == 0x6D {
        assert(opcode_at(35, 2) == b);
    }
}

proof fn lemma_reach_7(b: u8)
    requires
        0x70 <= b < 0x80,
        is_opcode(b),
    ensures
        in_table(b),
{
    if b == 0x70 {
        assert(opcode_at(54, 0) == b);
    } else if b == 0x71 {
        assert(opcode_at(54, 1) == b);
    } else if b == 0x72 {
        assert(opcode_at(55, 0) == b);
    } else if b == 0x73 {
        assert(opcode_at(55, 1) == b);
    } else if b == 0x74 {
        assert(opcode_at(56, 0) == b);
    } else if b == 0x75 {
        assert(opcode_at(57, 0) == b);
    }
}

proof fn lemma_reach_8(b: u8)
    requires
        0x80 <= b < 0x90,
        is_opcode(b),
    ensures
        in_table(b),
{
    if b == 0x80 {
        assert(opcode_at(18, 7) == b);
    } else if b == 0x81 {
        assert(opcode_at(19, 7) == b);
    } else if b == 0x82 {
        assert(opcode_at(18, 0) == b);
    } else if b == 0x83 {
        assert(opcode_at(19, 0) == b);
    } else if b == 0x84 {
        assert(opcode_at(18, 2) == b);
    } else if b == 0x85 {
        assert(opcode_at(19, 2) == b);
    } else if b == 0x86 {
        assert(opcode_at(18, 4) == b);
    } else if b == 0x87 {
        assert(opcode_at(19, 4) == b);
    } else if b == 0x88 {
        assert(opcode_at(18, 6) == b);
    } else if b == 0x89 {
        assert(opcode_at(19, 6) == b);
    } else if b == 0x8A {
        assert(opcode_at(18, 11) == b);
    } else if b == 0x8B {
        assert(opcode_at(19, 11) == b);
    } else if b == 0x8C {
        assert(opcode_at(22, 7) == b);
    } else if b == 0x8D {
        assert(opcode_at(23, 7) == b);
    } else if b == 0x8E {
        assert(opcode_at(22, 0) == b);
    } else if b == 0x8F {
        assert(opcode_at(23, 0) == b);
    }
}

proof fn lemma_reach_9(b: u8)
    requires
        0x90 <= b < 0xA0,
        is_opcode(b),
    ensures
        in_table(b),
{
    if b == 0x90 {
        assert(opcode_at(22, 2) == b);
    } else if b == 0x91 {
        assert(opcode_at(23, 2) == b);
    } else if b == 0x92 {
        assert(opcode_at(22, 4) == b);
    } else if b == 0x93 {
        assert(opcode_at(23, 4) == b);
    } else if b == 0x94 {
        assert(opcode_at(22, 6) == b);
    } else if b == 0x95 {
        assert(opcode_at(23, 6) == b);
    } else if b == 0x96 {
        assert(opcode_at(22, 11) == b);
    } else if b == 0x97 {
        assert(opcode_at(23, 11) == b);
    } else if b == 0x98 {
        assert(opcode_at(20, 7) == b);
    } else if b == 0x99 {
        assert(opcode_at(21, 7) == b);
    } else if b == 0x9A {
        assert(opcode_at(20, 0) == b);
    } else if b == 0x9B {
        assert(opcode_at(21, 0) == b);
    } else if b == 0x9C {
        assert(opcode_at(20, 2) == b);
    } else if b == 0x9D {
        assert(opcode_at(21, 2) == b);
    } else if b == 0x9E {
        assert(opcode_at(20, 4) == b);
    } else if b == 0x9F {
        assert(opcode_at(21, 4) == b);
    }
}

proof fn lemma_reach_A(b: u8)
    requires
        0xA0 <= b < 0xB0,
        is_opcode(b),
    ensures
        in_table(b),
{
    if b == 0xA0 {
        assert(opcode_at(20, 6) == b);
    } else if b == 0xA1 {
        assert(opcode_at(21, 6) == b);
    } else if b == 0xA2 {
        assert(opcode_at(20, 11) == b);
    } else if b == 0xA3 {
        assert(opcode_at(21, 11) == b);
    } else if b == 0xA4 {
        assert(opcode_at(24, 7) == b);
    } else if b == 0xA5 {
        assert(opcode_at(25, 7) == b);
    } else if b == 0xA6 {
        assert(opcode_at(24, 0) == b);
    } else if b == 0xA7 {
        assert(opcode_at(25, 0) == b);
    } else if b == 0xA8 {
        assert(opcode_at(24, 2) == b);
    } else if b == 0xA9 {
        assert(opcode_at(25, 2) == b);
    } else if b == 0xAA {
        assert(opcode_at(24, 4) == b);
    } else if b == 0xAB {
        assert(opcode_at(25, 4) == b);
    } else if b == 0xAC {
        assert(opcode_at(24, 6) == b);
    } else if b == 0xAD {
        assert(opcode_at(25, 6) == b);
    } else if b == 0xAE {
        assert(opcode_at(24, 11) == b);
    } else if b == 0xAF {
        assert(opcode_at(25, 11) == b);
    }
}

proof fn lemma_reach_B(b: u8)
    requires
        0xB0 <= b < 0xC0,
        is_opcode(b),
    ensures
        in_table(b),
{
    if b == 0xB0 {
        assert(opcode_at(44, 0) == b);
    } else if b == 0xB1 {
        assert(opcode_at(44, 1) == b);
    } else if b == 0xB2 {
        assert(opcode_at(45, 0) == b);
    } else if b == 0xB3 {
        assert(opcode_at(45, 1) == b);
    } else if b == 0xB4 {
        assert(opcode_at(46, 0) == b);
    } else if b == 0xB5 {
        assert(opcode_at(46, 1) == b);
    } else if b == 0xB6 {
        assert(opcode_at(47, 0) == b);
    } else if b == 0xB7 {
        assert(opcode_at(47, 1) == b);
    } else if b == 0xB8 {
        assert(opcode_at(48, 0) == b);
    } else if b == 0xB9 {
        assert(opcode_at(48, 1) == b);
    } else if b == 0xBA {
        assert(opcode_at(49, 0) == b);
    } else if b == 0xBB {
        assert(opcode_at(49, 1) == b);
    } else if b == 0xBC {
        assert(opcode_at(50, 0) == b);
    } else if b == 0xBD {
        assert(opcode_at(50, 1) == b);
    }
}

proof fn lemma_reach_C(b: u8)
    requires
        0xC0 <= b < 0xD0,
        is_opcode(b),
    ensures
        in_table(b),
{
    if b == 0xC0 {
        assert(opcode_at(6, 0) == b);
    } else if b == 0xC1 {
        assert(opcode_at(7, 0) == b);
    } else if b == 0xC2 {
        assert(opcode_at(6, 2) == b);
    } else if b == 0xC3 {
        assert(opcode_at(7, 2) == b);
    } else if b == 0xC4 {
        assert(opcode_at(8, 0) == b);
    } else if b == 0xC5 {
        assert(opcode_at(9, 0) == b);
    } else if b == 0xC6 {
        assert(opcode_at(8, 2) == b);
    } else if b == 0xC7 {
        assert(opcode_at(9, 2) == b);
    } else if b == 0xC8 {
        assert(opcode_at(51, 2) == b);
    } else if b == 0xC9 {
        assert(opcode_at(52, 2) == b);
    } else if b == 0xCA {
        assert(opcode_at(51, 5) == b);
    } else if b == 0xCB {
        assert(opcode_at(52, 5) == b);
    } else if b == 0xCC {
        assert(opcode_at(51, 0) == b);
    } else if b == 0xCD {
        assert(opcode_at(52, 0) == b);
    } else if b == 0xCE {
        assert(opcode_at(51, 4) == b);
    } else if b == 0xCF {
        assert(opcode_at(52, 4) == b);
    }
}

proof fn lemma_reach_E(b: u8)
    requires
        0xE0 <= b < 0xF0,
        is_opcode(b),
    ensures
        in_table(b),
{
    if b == 0xE0 {
        assert(opcode_at(14, 7) == b);
    } else if b == 0xE1 {
        assert(opcode_at(15, 7) == b);
    } else if b == 0xE2 {
        assert(opcode_at(14, 0) == b);
    } else if b == 0xE3 {
        assert(opcode_at(15, 0) == b);
    } else if b == 0xE4 {
        assert(opcode_at(14, 2) == b);
    } else if b == 0xE5 {
        assert(opcode_at(15, 2) == b);
    } else if b == 0xE6 {
        assert(opcode_at(14, 4) == b);
    } else if b == 0xE7 {
        assert(opcode_at(15, 4) == b);
    } else if b == 0xE8 {
        assert(opcode_at(14, 6) == b);
    } else if b == 0xE9 {
        assert(opcode_at(15, 6) == b);
    } else if b == 0xEA {
        assert(opcode_at(14, 11) == b);
    } else if b == 0xEB {
        assert(opcode_at(15, 11) == b);
    } else if b == 0xEC {
        assert(opcode_at(16, 7) == b);
    } else if b == 0xED {
        assert(opcode_at(17, 7) == b);
    } else if b == 0xEE {
        assert(opcode_at(16, 0) == b);
    } else if b == 0xEF {
        assert(opcode_at(17, 0) == b);
    }
}

proof fn lemma_reach_F(b: u8)
    requires
        0xF0 <= b < 0x100,
        is_opcode(b),
    ensures
        in_table(b),
{
    if b == 0xF0 {
        assert(opcode_at(16, 2) == b);
    } else if b == 0xF1 {
        assert(opcode_at(17, 2) == b);
    } else if b == 0xF2 {
        assert(opcode_at(16, 4) == b);
    } else if b == 0xF3 {
        assert(opcode_at(17, 4) == b);
    } else if b == 0xF4 {
        assert(opcode_at(16, 6) == b);
    } else if b == 0xF5 {
        assert(opcode_at(17, 6) == b);
    } else if b == 0xF6 {
        assert(opcode_at(16, 11) == b);
    } else if b == 0xF7 {
        assert(opcode_at(17, 11) == b);
    } else if b == 0xFE {
        assert(opcode_at(2, 0) == b);
    } else if b == 0xFF {
        assert(opcode_at(3, 0) == b);
    }
}

/// The opcodes in the table are exactly the instruction set's opcodes, and
/// each belongs to one mnemonic only.
pub proof fn lemma_table_covers_opcodes()
    ensures
        forall|b: u8| in_table(b) <==> is_opcode(b),
        forall|e1: int, i1: int, e2: int, i2: int|
            0 <= e1 < ENTRY_COUNT && 0 <= i1 < rows(entry(e1).1).len() && 0 <= e2 < ENTRY_COUNT
                && 0 <= i2 < rows(entry(e2).1).len() && #[trigger] opcode_at(e1, i1)
                == #[trigger] opcode_at(e2, i2) ==> e1 == e2,
{
    assert forall|b: u8| in_table(b) implies is_opcode(b) by {
        let (e, i) = choose|e: int, i: int|
            0 <= e < ENTRY_COUNT && 0 <= i < rows(entry(e).1).len() && #[trigger] opcode_at(e, i)
                == b;
        lemma_codes_are_opcodes(e);
        lemma_entry_arity(e);
        lemma_rows_in_range(entry(e).1);
        assert(0 <= rows(entry(e).1)[i].1 < entry(e).2.len());
    }
    assert forall|b: u8| is_opcode(b) implies in_table(b) by {
        if b < 0x10 {
            lemma_reach_0(b);
        } else if b < 0x20 {
            lemma_reach_1(b);
        } else if b < 0x30 {
            lemma_reach_2(b);
        } else if b < 0x40 {
            lemma_reach_3(b);
        } else if b < 0x50 {
            lemma_reach_4(b);
        } else if b < 0x60 {
            lemma_reach_5(b);
        } else if b < 0x70 {
            lemma_reach_6(b);
        } else if b < 0x80 {
            lemma_reach_7(b);
        } else if b < 0x90 {
            lemma_reach_8(b);
        } else if b < 0xA0 {
            lemma_reach_9(b);
        } else if b < 0xB0 {
            lemma_reach_A(b);
        } else if b < 0xC0 {
            lemma_reach_B(b);
        } else if b < 0xD0 {
            lemma_reach_C(b);
        } else if b < 0xF0 {
            lemma_reach_E(b);
        } else if b < 0x100 {
            lemma_reach_F(b);
        }
    }
    assert forall|e1: int, i1: int, e2: int, i2: int|
        0 <= e1 < ENTRY_COUNT && 0 <= i1 < rows(entry(e1).1).len() && 0 <= e2 < ENTRY_COUNT
            && 0 <= i2 < rows(entry(e2).1).len() && #[trigger] opcode_at(e1, i1)
            == #[trigger] opcode_at(e2, i2) implies e1 == e2 by {
        lemma_owner(e1, i1);
        lemma_owner(e2, i2);
    }
}

} // verus!

verus! {

/// A number that tells apart mnemonic names of up to six characters.
pub open spec fn name_key(s: Seq<char>) -> int {
    s.len() * 0x40000000000 + (if s.len() > 0 {
        s[0] as int
    } else {
        0
    }) * 0x800000000 + (if s.len() > 1 {
        s[1] as int
    } else {
        0
    }) * 0x10000000 + (if s.len() > 2 {
        s[2] as int
    } else {
        0
    }) * 0x200000 + (if s.len() > 3 {
        s[3] as int
    } else {
        0
    }) * 0x4000 + (if s.len() > 4 {
        s[4] as int
    } else {
        0
    }) * 0x80 + (if s.len() > 5 {
        s[5] as int
    } else {
        0
    })
}

proof fn lemma_name_new_1()
    ensures
        forall|d: int| 0 <= d < 1 ==> name_key(#[trigger] entry(d).0) != name_key(entry(1).0),
{
}

proof fn lemma_name_new_2()
    ensures
        forall|d: int| 0 <= d < 2 ==> name_key(#[trigger] entry(d).0) != name_key(entry(2).0),
{
}

proof fn lemma_name_new_3()
    ensures
        forall|d: int| 0 <= d < 3 ==> name_key(#[trigger] entry(d).0) != name_key(entry(3).0),
{
}

proof fn lemma_name_new_4()
    ensures
        forall|d: int| 0 <= d < 4 ==> name_key(#[trigger] entry(d).0) != name_key(entry(4).0),
{
}

proof fn lemma_name_new_5()
    ensures
        forall|d: int| 0 <= d < 5 ==> name_key(#[trigger] entry(d).0) != name_key(entry(5).0),
{
}

proof fn lemma_name_new_6()
    ensures
        forall|d: int| 0 <= d < 6 ==> name_key(#[trigger] entry(d).0) != name_key(entry(6).0),
{
}

proof fn lemma_name_new_7()
    ensures
        forall|d: int| 0 <= d < 7 ==> name_key(#[trigger] entry(d).0) != name_key(entry(7).0),
{
}

proof fn lemma_name_new_8()
    ensures
        forall|d: int| 0 <= d < 8 ==> name_key(#[trigger] entry(d).0) != name_key(entry(8).0),
{
}

proof fn lemma_name_new_9()
    ensures
        forall|d: int| 0 <= d < 9 ==> name_key(#[trigger] entry(d).0) != name_key(entry(9).0),
{
}

proof fn lemma_name_new_10()
    ensures
        forall|d: int| 0 <= d < 10 ==> name_key(#[trigger] entry(d).0) != name_key(entry(10).0),
{
}

proof fn lemma_name_new_11()
    ensures
        forall|d: int| 0 <= d < 11 ==> name_key(#[trigger] entry(d).0) != name_key(entry(11).0),
{
}

proof fn lemma_name_new_12()
    ensures
        forall|d: int| 0 <= d < 12 ==> name_key(#[trigger] entry(d).0) != name_key(entry(12).0),
{
}

proof fn lemma_name_new_13()
    ensures
        forall|d: int| 0 <= d < 13 ==> name_key(#[trigger] entry(d).0) != name_key(entry(13).0),
{
}

proof fn lemma_name_new_14()
    ensures
        forall|d: int| 0 <= d < 14 ==> name_key(#[trigger] entry(d).0) != name_key(entry(14).0),
{
}

proof fn lemma_name_new_15()
    ensures
        forall|d: int| 0 <= d < 15 ==> name_key(#[trigger] entry(d).0) != name_key(entry(15).0),
{
}

proof fn lemma_name_new_16()
    ensures
        forall|d: int| 0 <= d < 16 ==> name_key(#[trigger] entry(d).0) != name_key(entry(16).0),
{
}

proof fn lemma_name_new_17()
    ensures
        forall|d: int| 0 <= d < 17 ==> name_key(#[trigger] entry(d).0) != name_key(entry(17).0),
{
}

proof fn lemma_name_new_18()
    ensures
        forall|d: int| 0 <= d < 18 ==> name_key(#[trigger] entry(d).0) != name_key(entry(18).0),
{
}

proof fn lemma_name_new_19()
    ensures
        forall|d: int| 0 <= d < 19 ==> name_key(#[trigger] entry(d).0) != name_key(entry(19).0),
{
}

proof fn lemma_name_new_20()
    ensures
        forall|d: int| 0 <= d < 20 ==> name_key(#[trigger] entry(d).0) != name_key(entry(20).0),
{
}

proof fn lemma_name_new_21()
    ensures
        forall|d: int| 0 <= d < 21 ==> name_key(#[trigger] entry(d).0) != name_key(entry(21).0),
{
}

proof fn lemma_name_new_22()
    ensures
        forall|d: int| 0 <= d < 22 ==> name_key(#[trigger] entry(d).0) != name_key(entry(22).0),
{
}

proof fn lemma_name_new_23()
    ensures
        forall|d: int| 0 <= d < 23 ==> name_key(#[trigger] entry(d).0) != name_key(entry(23).0),
{
}

proof fn lemma_name_new_24()
    ensures
        forall|d: int| 0 <= d < 24 ==> name_key(#[trigger] entry(d).0) != name_key(entry(24).0),
{
}

proof fn lemma_name_new_25()
    ensures
        forall|d: int| 0 <= d < 25 ==> name_key(#[trigger] entry(d).0) != name_key(entry(25).0),
{
}

proof fn lemma_name_new_26()
    ensures
        forall|d: int| 0 <= d < 26 ==> name_key(#[trigger] entry(d).0) != name_key(entry(26).0),
{
}

proof fn lemma_name_new_27()
    ensures
        forall|d: int| 0 <= d < 27 ==> name_key(#[trigger] entry(d).0) != name_key(entry(27).0),
{
}

proof fn lemma_name_new_28()
    ensures
        forall|d: int| 0 <= d < 28 ==> name_key(#[trigger] entry(d).0) != name_key(entry(28).0),
{
}

proof fn lemma_name_new_29()
    ensures
        forall|d: int| 0 <= d < 29 ==> name_key(#[trigger] entry(d).0) != name_key(entry(29).0),
{
}

proof fn lemma_name_new_30()
    ensures
        forall|d: int| 0 <= d < 30 ==> name_key(#[trigger] entry(d).0) != name_key(entry(30).0),
{
}

proof fn lemma_name_new_31()
    ensures
        forall|d: int| 0 <= d < 31 ==> name_key(#[trigger] entry(d).0) != name_key(entry(31).0),
{
}

proof fn lemma_name_new_32()
    ensures
        forall|d: int| 0 <= d < 32 ==> name_key(#[trigger] entry(d).0) != name_key(entry(32).0),
{
}

proof fn lemma_name_new_33()
    ensures
        forall|d: int| 0 <= d < 33 ==> name_key(#[trigger] entry(d).0) != name_key(entry(33).0),
{
}

proof fn lemma_name_new_34()
    ensures
        forall|d: int| 0 <= d < 34 ==> name_key(#[trigger] entry(d).0) != name_key(entry(34).0),
{
}

proof fn lemma_name_new_35()
    ensures
        forall|d: int| 0 <= d < 35 ==> name_key(#[trigger] entry(d).0) != name_key(entry(35).0),
{
}

proof fn lemma_name_new_36()
    ensures
        forall|d: int| 0 <= d < 36 ==> name_key(#[trigger] entry(d).0) != name_key(entry(36).0),
{
}

proof fn lemma_name_new_37()
    ensures
        forall|d: int| 0 <= d < 37 ==> name_key(#[trigger] entry(d).0) != name_key(entry(37).0),
{
}

proof fn lemma_name_new_38()
    ensures
        forall|d: int| 0 <= d < 38 ==> name_key(#[trigger] entry(d).0) != name_key(entry(38).0),
{
}

proof fn lemma_name_new_39()
    ensures
        forall|d: int| 0 <= d < 39 ==> name_key(#[trigger] entry(d).0) != name_key(entry(39).0),
{
}

proof fn lemma_name_new_40()
    ensures
        forall|d: int| 0 <= d < 40 ==> name_key(#[trigger] entry(d).0) != name_key(entry(40).0),
{
}

proof fn lemma_name_new_41()
    ensures
        forall|d: int| 0 <= d < 41 ==> name_key(#[trigger] entry(d).0) != name_key(entry(41).0),
{
}

proof fn lemma_name_new_42()
    ensures
        forall|d: int| 0 <= d < 42 ==> name_key(#[trigger] entry(d).0) != name_key(entry(42).0),
{
}

proof fn lemma_name_new_43()
    ensures
        forall|d: int| 0 <= d < 43 ==> name_key(#[trigger] entry(d).0) != name_key(entry(43).0),
{
}

proof fn lemma_name_new_44()
    ensures
        forall|d: int| 0 <= d < 44 ==> name_key(#[trigger] entry(d).0) != name_key(entry(44).0),
{
}

proof fn lemma_name_new_45()
    ensures
        forall|d: int| 0 <= d < 45 ==> name_key(#[trigger] entry(d).0) != name_key(entry(45).0),
{
}

proof fn lemma_name_new_46()
    ensures
        forall|d: int| 0 <= d < 46 ==> name_key(#[trigger] entry(d).0) != name_key(entry(46).0),
{
}

proof fn lemma_name_new_47()
    ensures
        forall|d: int| 0 <= d < 47 ==> name_key(#[trigger] entry(d).0) != name_key(entry(47).0),
{
}

proof fn lemma_name_new_48()
    ensures
        forall|d: int| 0 <= d < 48 ==> name_key(#[trigger] entry(d).0) != name_key(entry(48).0),
{
}

proof fn lemma_name_new_49()
    ensures
        forall|d: int| 0 <= d < 49 ==> name_key(#[trigger] entry(d).0) != name_key(entry(49).0),
{
}

proof fn lemma_name_new_50()
    ensures
        forall|d: int| 0 <= d < 50 ==> name_key(#[trigger] entry(d).0) != name_key(entry(50).0),
{
}

proof fn lemma_name_new_51()
    ensures
        forall|d: int| 0 <= d < 51 ==> name_key(#[trigger] entry(d).0) != name_key(entry(51).0),
{
}

proof fn lemma_name_new_52()
    ensures
        forall|d: int| 0 <= d < 52 ==> name_key(#[trigger] entry(d).0) != name_key(entry(52).0),
{
}

proof fn lemma_name_new_53()
    ensures
        forall|d: int| 0 <= d < 53 ==> name_key(#[trigger] entry(d).0) != name_key(entry(53).0),
{
}

proof fn lemma_name_new_54()
    ensures
        forall|d: int| 0 <= d < 54 ==> name_key(#[trigger] entry(d).0) != name_key(entry(54).0),
{
}

proof fn lemma_name_new_55()
    ensures
        forall|d: int| 0 <= d < 55 ==> name_key(#[trigger] entry(d).0) != name_key(entry(55).0),
{
}

proof fn lemma_name_new_56()
    ensures
        forall|d: int| 0 <= d < 56 ==> name_key(#[trigger] entry(d).0) != name_key(entry(56).0),
{
}

proof fn lemma_name_new_57()
    ensures
        forall|d: int| 0 <= d < 57 ==> name_key(#[trigger] entry(d).0) != name_key(entry(57).0),
{
}

proof fn lemma_name_new_58()
    ensures
        forall|d: int| 0 <= d < 58 ==> name_key(#[trigger] entry(d).0) != name_key(entry(58).0),
{
}

proof fn lemma_name_new_59()
    ensures
        forall|d: int| 0 <= d < 59 ==> name_key(#[trigger] entry(d).0) != name_key(entry(59).0),
{
}

proof fn lemma_name_new_60()
    ensures
        forall|d: int| 0 <= d < 60 ==> name_key(#[trigger] entry(d).0) != name_key(entry(60).0),
{
}

proof fn lemma_name_new_61()
    ensures
        forall|d: int| 0 <= d < 61 ==> name_key(#[trigger] entry(d).0) != name_key(entry(61).0),
{
}

proof fn lemma_name_new_62()
    ensures
        forall|d: int| 0 <= d < 62 ==> name_key(#[trigger] entry(d).0) != name_key(entry(62).0),
{
}

proof fn lemma_name_new_63()
    ensures
        forall|d: int| 0 <= d < 63 ==> name_key(#[trigger] entry(d).0) != name_key(entry(63).0),
{
}

proof fn lemma_name_new_64()
    ensures
        forall|d: int| 0 <= d < 64 ==> name_key(#[trigger] entry(d).0) != name_key(entry(64).0),
{
}

proof fn lemma_name_new_65()
    ensures
        forall|d: int| 0 <= d < 65 ==> name_key(#[trigger] entry(d).0) != name_key(entry(65).0),
{
}

proof fn lemma_name_new_66()
    ensures
        forall|d: int| 0 <= d < 66 ==> name_key(#[trigger] entry(d).0) != name_key(entry(66).0),
{
}

proof fn lemma_name_new_67()
    ensures
        forall|d: int| 0 <= d < 67 ==> name_key(#[trigger] entry(d).0) != name_key(entry(67).0),
{
}

proof fn lemma_name_new_68()
    ensures
        forall|d: int| 0 <= d < 68 ==> name_key(#[trigger] entry(d).0) != name_key(entry(68).0),
{
}

/// No mnemonic before number `e` has its name.
proof fn lemma_name_new(e: int)
    requires
        0 <= e < ENTRY_COUNT,
    ensures
        forall|d: int| 0 <= d < e ==> (#[trigger] entry(d).0) != entry(e).0,
{
    if e == 1 {
        lemma_name_new_1();
    } else if e == 2 {
        lemma_name_new_2();
    } else if e == 3 {
        lemma_name_new_3();
    } else if e == 4 {
        lemma_name_new_4();
    } else if e == 5 {
        lemma_name_new_5();
    } else if e == 6 {
        lemma_name_new_6();
    } else if e == 7 {
        lemma_name_new_7();
    } else if e == 8 {
        lemma_name_new_8();
    } else if e == 9 {
        lemma_name_new_9();
    } else if e == 10 {
        lemma_name_new_10();
    } else if e == 11 {
        lemma_name_new_11();
    } else if e == 12 {
        lemma_name_new_12();
    } else if e == 13 {
        lemma_name_new_13();
    } else if e == 14 {
        lemma_name_new_14();
    } else if e == 15 {
        lemma_name_new_15();
    } else if e == 16 {
        lemma_name_new_16();
    } else if e == 17 {
        lemma_name_new_17();
    } else if e == 18 {
        lemma_name_new_18();
    } else if e == 19 {
        lemma_name_new_19();
    } else if e == 20 {
        lemma_name_new_20();
    } else if e == 21 {
        lemma_name_new_21();
    } else if e == 22 {
        lemma_name_new_22();
    } else if e == 23 {
        lemma_name_new_23();
    } else if e == 24 {
        lemma_name_new_24();
    } else if e == 25 {
        lemma_name_new_25();
    } else if e == 26 {
        lemma_name_new_26();
    } else if e == 27 {
        lemma_name_new_27();
    } else if e == 28 {
        lemma_name_new_28();
    } else if e == 29 {
        lemma_name_new_29();
    } else if e == 30 {
        lemma_name_new_30();
    } else if e == 31 {
        lemma_name_new_31();
    } else if e == 32 {
        lemma_name_new_32();
    } else if e == 33 {
        lemma_name_new_33();
    } else if e == 34 {
        lemma_name_new_34();
    } else if e == 35 {
        lemma_name_new_35();
    } else if e == 36 {
        lemma_name_new_36();
    } else if e == 37 {
        lemma_name_new_37();
    } else if e == 38 {
        lemma_name_new_38();
    } else if e == 39 {
        lemma_name_new_39();
    } else if e == 40 {
        lemma_name_new_40();
    } else if e == 41 {
        lemma_name_new_41();
    } else if e == 42 {
        lemma_name_new_42();
    } else if e == 43 {
        lemma_name_new_43();
    } else if e == 44 {
        lemma_name_new_44();
    } else if e == 45 {
        lemma_name_new_45();
    } else if e == 46 {
        lemma_name_new_46();
    } else if e == 47 {
        lemma_name_new_47();
    } else if e == 48 {
        lemma_name_new_48();
    } else if e == 49 {
        lemma_name_new_49();
    } else if e == 50 {
        lemma_name_new_50();
    } else if e == 51 {
        lemma_name_new_51();
    } else if e == 52 {
        lemma_name_new_52();
    } else if e == 53 {
        lemma_name_new_53();
    } else if e == 54 {
        lemma_name_new_54();
    } else if e == 55 {
        lemma_name_new_55();
    } else if e == 56 {
        lemma_name_new_56();
    } else if e == 57 {
        lemma_name_new_57();
    } else if e == 58 {
        lemma_name_new_58();
    } else if e == 59 {
        lemma_name_new_59();
    } else if e == 60 {
        lemma_name_new_60();
    } else if e == 61 {
        lemma_name_new_61();
    } else if e == 62 {
        lemma_name_new_62();
    } else if e == 63 {
        lemma_name_new_63();
    } else if e == 64 {
        lemma_name_new_64();
    } else if e == 65 {
        lemma_name_new_65();
    } else if e == 66 {
        lemma_name_new_66();
    } else if e == 67 {
        lemma_name_new_67();
    } else if e == 68 {
        lemma_name_new_68();
    }
}

proof fn lemma_find_entry_at(m: Seq<char>, j: int, e: int)
    requires
        0 <= j <= e < ENTRY_COUNT,
        entry(e).0 == m,
        forall|d: int| j <= d < e ==> (#[trigger] entry(d).0) != m,
    ensures
        find_entry(m, j) == Some(e),
    decreases e - j,
{
    if j < e {
        lemma_find_entry_at(m, j + 1, e);
    }
}

proof fn lemma_find_row_at(rs: Seq<(Seq<char>, int)>, i: int)
    requires
        0 <= i < rs.len(),
        forall|a: int, b: int| 0 <= a < b < rs.len() ==> #[trigger] rs[a].0 != #[trigger] rs[b].0,
    ensures
        find_row(rs, rs[i].0) == Some(rs[i].1),
    decreases i,
{
    if i > 0 {
        let t = rs.drop_first();
        assert(rs[0].0 != rs[i].0);
        assert forall|a: int, b: int| 0 <= a < b < t.len() implies #[trigger] t[a].0 != #[trigger] t[b].0 by {
            assert(t[a] == rs[a + 1]);
            assert(t[b] == rs[b + 1]);
        }
        assert(t[i - 1] == rs[i]);
        lemma_find_row_at(t, i - 1);
    }
}

pub open spec fn is_pattern_letter(c: char) -> bool {
    c == 'A' || c == 'R' || c == 'E' || c == 'I' || c == 'W' || c == 'B'
}

/// Every pattern of the table has at most three operands, each one of the
/// letters `A`, `R`, `E`, `I`, `W`, `B`.
pub proof fn lemma_pattern_alphabet(f: Family)
    ensures
        forall|i: int|
            0 <= i < rows(f).len() ==> (#[trigger] rows(f)[i]).0.len() <= 3 && forall|j: int|
                0 <= j < rows(f)[i].0.len() ==> is_pattern_letter(#[trigger] rows(f)[i].0[j]),
{
}

/// Looking a mnemonic and pattern up yields only opcodes of the instruction
/// set, and every opcode of the instruction set is yielded by some mnemonic
/// and pattern.
pub proof fn lemma_lookup_covers_opcodes()
    ensures
        forall|m: Seq<char>, p: Seq<char>|
            (#[trigger] opcode_for(m, p)) is Some ==> is_opcode(opcode_for(m, p)->0),
        forall|b: u8| is_opcode(b) ==> exists|m: Seq<char>, p: Seq<char>| opcode_for(m, p) == Some(b),
{
    assert forall|m: Seq<char>, p: Seq<char>| (#[trigger] opcode_for(m, p)) is Some implies is_opcode(
        opcode_for(m, p)->0,
    ) by {
        lemma_opcode_in_range(m, p);
        lemma_find_entry_range(m, 0);
        let e = find_entry(m, 0)->0;
        lemma_codes_are_opcodes(e);
    }
    lemma_table_covers_opcodes();
    assert forall|b: u8| is_opcode(b) implies exists|m: Seq<char>, p: Seq<char>| opcode_for(m, p) == Some(b) by {
        assert(in_table(b));
        let (e, i) = choose|e: int, i: int|
            0 <= e < ENTRY_COUNT && 0 <= i < rows(entry(e).1).len() && #[trigger] opcode_at(e, i)
                == b;
        lemma_name_new(e);
        lemma_find_entry_at(entry(e).0, 0, e);
        lemma_patterns_distinct(e);
        lemma_find_row_at(rows(entry(e).1), i);
        assert(opcode_for(entry(e).0, rows(entry(e).1)[i].0) == Some(b));
    }
}

} // verus!
