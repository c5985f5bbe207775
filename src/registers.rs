//! The register table and the addressing-mode byte layout, as the Maikor
//! platform crate defines them.
use crate::text::upper;
use vstd::prelude::*;

verus! {

/// Whether a pre/post increment/decrement comes before or after the access.
#[derive(Debug, Clone, Copy, PartialEq, Eq, Structural)]
pub enum PP {
    Pre,
    Post,
}

/// Whether the register is incremented or decremented.
#[derive(Debug, Clone, Copy, PartialEq, Eq, Structural)]
pub enum ID {
    Inc,
    Dec,
}

/// The register id of a name, matched without regard to ASCII case.
pub open spec fn register_named(name: Seq<char>) -> Option<u8> {
    let u = upper(name);
    if u == seq!['A', 'H'] {
        Some(0)
    } else if u == seq!['A', 'L'] {
        Some(1)
    } else if u == seq!['B', 'H'] {
        Some(2)
    } else if u == seq!['B', 'L'] {
        Some(3)
    } else if u == seq!['C', 'H'] {
        Some(4)
    } else if u == seq!['C', 'L'] {
        Some(5)
    } else if u == seq!['D', 'H'] {
        Some(6)
    } else if u == seq!['D', 'L'] {
        Some(7)
    } else if u == seq!['F', 'L', 'G'] {
        Some(8)
    } else if u == seq!['A', 'X'] {
        Some(9)
    } else if u == seq!['B', 'X'] {
        Some(10)
    } else if u == seq!['C', 'X'] {
        Some(11)
    } else if u == seq!['D', 'X'] {
        Some(12)
    } else {
        None
    }
}

/// Width in bytes of a register: the four extended registers are words.
pub open spec fn register_width(id: u8) -> usize {
    if 9 <= id && id <= 12 {
        2
    } else {
        1
    }
}

/// The bits of a pre/post increment/decrement.
pub open spec fn ppid_bits(ppid: Option<(PP, ID)>) -> u8 {
    match ppid {
        None => 0x00,
        Some((PP::Post, ID::Inc)) => 0x40,
        Some((PP::Post, ID::Dec)) => 0x50,
        Some((PP::Pre, ID::Inc)) => 0x60,
        Some((PP::Pre, ID::Dec)) => 0x70,
    }
}

/// The addressing-mode bits that are added to a register id.
pub open spec fn mode_bits(
    is_indirect: bool,
    is_offset_reg: bool,
    is_offset_num: bool,
    is_offset_ext_reg: bool,
    ppid: Option<(PP, ID)>,
) -> u8 {
    if is_offset_reg {
        0x90
    } else if is_offset_ext_reg {
        0xA0
    } else if is_offset_num {
        0xB0
    } else {
        ((if is_indirect {
            0x80u8
        } else {
            0u8
        }) + ppid_bits(ppid)) as u8
    }
}

/// Relies on `registers::id::from_name`: the id of one of the thirteen register
/// names, compared after ASCII upper-casing; an error for any other text.
#[verifier::external_body]
pub(crate) fn register_id(name: &str) -> (r: Option<u8>)
    ensures
        r == register_named(name@),
{
    maikor_platform::registers::id::from_name(name).ok()
}

/// Relies on `registers::id::size`: 2 for AX, BX, CX and DX, else 1.
#[verifier::external_body]
pub(crate) fn register_size(id: u8) -> (r: usize)
    ensures
        r == register_width(id),
{
    maikor_platform::registers::id::size(id)
}

/// Relies on `op_params::RegisterPPID::new` and its conversion into `u8`: an
/// offset kind wins over everything else; otherwise the indirect bit is or-ed
/// with the increment/decrement bits.
#[verifier::external_body]
pub(crate) fn register_mode(
    is_indirect: bool,
    is_offset_reg: bool,
    is_offset_num: bool,
    is_offset_ext_reg: bool,
    ppid: Option<(PP, ID)>,
) -> (r: u8)
    ensures
        r == mode_bits(is_indirect, is_offset_reg, is_offset_num, is_offset_ext_reg, ppid),
{
    let ppid = ppid.map(|(pp, id)| (match pp {
        PP::Pre => maikor_platform::op_params::PP::Pre,
        PP::Post => maikor_platform::op_params::PP::Post,
    }, match id {
        ID::Inc => maikor_platform::op_params::ID::Inc,
        ID::Dec => maikor_platform::op_params::ID::Dec,
    }));
    let (ind, reg, num, ext) = (is_indirect, is_offset_reg, is_offset_num, is_offset_ext_reg);
    maikor_platform::op_params::RegisterPPID::new(ind, reg, num, ext, ppid).into()
}

/// The addressing-mode decorations of a register operand, as named flags.
#[derive(Debug, Clone, Copy, PartialEq, Eq)]
pub struct RegisterMode {
    pub is_indirect: bool,
    pub is_offset_reg: bool,
    pub is_offset_num: bool,
    pub is_offset_ext_reg: bool,
    pub ppid: Option<(PP, ID)>,
}

impl RegisterMode {
    /// At most one offset kind, and an offset only on an indirect register
    /// without increment or decrement.
    pub open spec fn wf(self) -> bool {
        let offsets = (if self.is_offset_reg {
            1int
        } else {
            0
        }) + (if self.is_offset_num {
            1int
        } else {
            0
        }) + (if self.is_offset_ext_reg {
            1int
        } else {
            0
        });
        offsets <= 1 && (offsets == 1 ==> self.is_indirect && self.ppid is None)
    }

    pub open spec fn bits(self) -> u8 {
        mode_bits(
            self.is_indirect,
            self.is_offset_reg,
            self.is_offset_num,
            self.is_offset_ext_reg,
            self.ppid,
        )
    }

    /// The mode's bits, to be added to a register id.
    pub fn to_bits(&self) -> (r: u8)
        ensures
            r == self.bits(),
    {
        register_mode(
            self.is_indirect,
            self.is_offset_reg,
            self.is_offset_num,
            self.is_offset_ext_reg,
            self.ppid,
        )
    }

    /// The mode that the high four bits of `bits` encode, if any.
    pub fn from_bits(bits: u8) -> (r: Option<RegisterMode>)
        ensures
            r == mode_of_bits(bits),
    {
        register_mode_of(bits)
    }
}

pub open spec fn plain_mode(is_indirect: bool, ppid: Option<(PP, ID)>) -> RegisterMode {
    RegisterMode {
        is_indirect,
        is_offset_reg: false,
        is_offset_num: false,
        is_offset_ext_reg: false,
        ppid,
    }
}

/// The mode that the high four bits of `bits` encode; the three unused
/// patterns encode none.
pub open spec fn mode_of_bits(bits: u8) -> Option<RegisterMode> {
    let h = bits / 16;
    if h == 0 {
        Some(plain_mode(false, None))
    } else if h == 4 {
        Some(plain_mode(false, Some((PP::Post, ID::Inc))))
    } else if h == 5 {
        Some(plain_mode(false, Some((PP::Post, ID::Dec))))
    } else if h == 6 {
        Some(plain_mode(false, Some((PP::Pre, ID::Inc))))
    } else if h == 7 {
        Some(plain_mode(false, Some((PP::Pre, ID::Dec))))
    } else if h == 8 {
        Some(plain_mode(true, None))
    } else if h == 9 {
        Some(RegisterMode { is_offset_reg: true, ..plain_mode(true, None) })
    } else if h == 10 {
        Some(RegisterMode { is_offset_ext_reg: true, ..plain_mode(true, None) })
    } else if h == 11 {
        Some(RegisterMode { is_offset_num: true, ..plain_mode(true, None) })
    } else if h == 12 {
        Some(plain_mode(true, Some((PP::Post, ID::Inc))))
    } else if h == 13 {
        Some(plain_mode(true, Some((PP::Post, ID::Dec))))
    } else if h == 14 {
        Some(plain_mode(true, Some((PP::Pre, ID::Inc))))
    } else if h == 15 {
        Some(plain_mode(true, Some((PP::Pre, ID::Dec))))
    } else {
        None
    }
}

/// Relies on `op_params::RegisterPPID::try_from(u8)`: it reads the high four
/// bits (`value & MASK`) and fails on the three unused patterns.
#[verifier::external_body]
fn register_mode_of(bits: u8) -> (r: Option<RegisterMode>)
    ensures
        r == mode_of_bits(bits),
{
    maikor_platform::op_params::RegisterPPID::try_from(bits).ok().map(|m| RegisterMode {
        is_indirect: m.is_indirect,
        is_offset_reg: m.is_offset_reg,
        is_offset_num: m.is_offset_num,
        is_offset_ext_reg: m.is_offset_ext_reg,
        ppid: m.ppid.map(|(pp, id)| (match pp {
            maikor_platform::op_params::PP::Pre => PP::Pre,
            maikor_platform::op_params::PP::Post => PP::Post,
        }, match id {
            maikor_platform::op_params::ID::Inc => ID::Inc,
            maikor_platform::op_params::ID::Dec => ID::Dec,
        })),
    })
}

/// Decoding the bits of a well-formed mode gives the mode back, and every
/// decoded mode is well-formed and encodes to the high four bits it came from.
pub proof fn lemma_mode_round_trip(m: RegisterMode, bits: u8)
    requires
        m.wf(),
    ensures
        mode_of_bits(m.bits()) == Some(m),
        mode_of_bits(bits) matches Some(d) ==> d.wf() && d.bits() == bits / 16 * 16,
{
}

} // verus!
