use vstd::prelude::*;
use crate::nibble::{combine, nibble_seq, nibbles_value};

verus! {

/// An instruction given as its four 4-bit fields, high nibble first.
pub open spec fn wf_inst(inst: Seq<u8>) -> bool {
    inst.len() == 4 && nibble_seq(inst)
}

/// The register operand X, the second field.
pub open spec fn reg_x(inst: Seq<u8>) -> int {
    inst[1] as int
}

/// The register operand Y, the third field.
pub open spec fn reg_y(inst: Seq<u8>) -> int {
    inst[2] as int
}

/// The 8-bit immediate KK, the last two fields.
pub open spec fn byte_of(inst: Seq<u8>) -> u8 {
    (inst[2] * 16 + inst[3]) as u8
}

/// The 12-bit address NNN, the last three fields.
pub open spec fn addr_of(inst: Seq<u8>) -> u16 {
    (inst[1] * 256 + inst[2] * 16 + inst[3]) as u16
}

/// The whole 16-bit instruction word.
pub open spec fn word_of(inst: Seq<u8>) -> u16 {
    (inst[0] * 4096 + inst[1] * 256 + inst[2] * 16 + inst[3]) as u16
}

proof fn lemma_nibbles_value_short(s: Seq<u8>)
    requires
        1 <= s.len() <= 4,
    ensures
        s.len() == 1 ==> nibbles_value(s) == s[0] as nat,
        s.len() == 2 ==> nibbles_value(s) == s[0] * 16 + s[1] as nat,
        s.len() == 3 ==> nibbles_value(s) == s[0] * 256 + s[1] * 16 + s[2] as nat,
        s.len() == 4 ==> nibbles_value(s) == s[0] * 4096 + s[1] * 256 + s[2] * 16 + s[3] as nat,
    decreases s.len(),
{
    let t = s.drop_last();
    assert(nibbles_value(s) == nibbles_value(t) * 16 + s.last() as nat);
    if s.len() == 1 {
        assert(nibbles_value(t) == 0);
    } else {
        lemma_nibbles_value_short(t);
    }
}

/// The immediate KK of an instruction.
pub fn byte_operand(inst: &[u8; 4]) -> (r: u8)
    requires
        nibble_seq(inst@),
    ensures
        r == byte_of(inst@),
{
    let s = &inst[2..4];
    proof {
        lemma_nibbles_value_short(s@);
    }
    combine(s) as u8
}

/// The address NNN of an instruction.
pub fn addr_operand(inst: &[u8; 4]) -> (r: u16)
    requires
        nibble_seq(inst@),
    ensures
        r == addr_of(inst@),
{
    let s = &inst[1..4];
    proof {
        lemma_nibbles_value_short(s@);
    }
    combine(s)
}

/// The instruction word that an instruction's fields spell.
pub fn word_operand(inst: &[u8; 4]) -> (r: u16)
    requires
        nibble_seq(inst@),
    ensures
        r == word_of(inst@),
{
    let s = &inst[0..4];
    proof {
        lemma_nibbles_value_short(s@);
        assert(s@ =~= inst@);
    }
    combine(s)
}

/// The operation that an instruction selects.
#[derive(Clone, Copy, Debug, PartialEq, Eq, Structural)]
pub enum Opcode {
    /// `00E0`
    Cls,
    /// `00EE`
    Ret,
    /// `1NNN`
    Jp,
    /// `2NNN`
    Call,
    /// `3XKK`
    SeVxByte,
    /// `4XKK`
    SneVxByte,
    /// `5XY0`
    SeVxVy,
    /// `6XKK`
    LdVxByte,
    /// `7XKK`
    AddVxByte,
    /// `8XY0`
    LdVxVy,
    /// `8XY1`
    OrVxVy,
    /// `8XY2`
    AndVxVy,
    /// `8XY3`
    XorVxVy,
    /// `8XY4`
    AddVxVy,
    /// `8XY5`
    SubVxVy,
    /// `8XY6`
    ShrVx,
    /// `8XY7`
    SubnVxVy,
    /// `8XYE`
    ShlVx,
    /// `9XY0`
    SneVxVy,
    /// `ANNN`
    LdIAddr,
    /// `BNNN`
    JpV0Addr,
    /// `CXKK`
    RndVxByte,
    /// `DXYN`
    DrwVxVyNibble,
    /// `EX9E`
    SkpVx,
    /// `EXA1`
    SknpVx,
    /// `FX07`
    LdVxDt,
    /// `FX0A`
    LdVxK,
    /// `FX15`
    LdDtVx,
    /// `FX18`
    LdStVx,
    /// `FX1E`
    AddIVx,
    /// `FX29`
    LdFVx,
    /// `FX33`
    LdBVx,
    /// `FX55`
    LdIVx,
    /// `FX65`
    LdVxI,
    /// Any other bit pattern.
    Unknown,
}

/// The operation selected by an instruction's fields.
pub open spec fn opcode_of(inst: Seq<u8>) -> Opcode {
    let (a, b, c, d) = (inst[0], inst[1], inst[2], inst[3]);
    if a == 0x0 {
        if b == 0x0 && c == 0xE && d == 0x0 {
            Opcode::Cls
        } else if b == 0x0 && c == 0xE && d == 0xE {
            Opcode::Ret
        } else {
            Opcode::Unknown
        }
    } else if a == 0x1 {
        Opcode::Jp
    } else if a == 0x2 {
        Opcode::Call
    } else if a == 0x3 {
        Opcode::SeVxByte
    } else if a == 0x4 {
        Opcode::SneVxByte
    } else if a == 0x5 {
        if d == 0x0 { Opcode::SeVxVy } else { Opcode::Unknown }
    } else if a == 0x6 {
        Opcode::LdVxByte
    } else if a == 0x7 {
        Opcode::AddVxByte
    } else if a == 0x8 {
        if d == 0x0 {
            Opcode::LdVxVy
        } else if d == 0x1 {
            Opcode::OrVxVy
        } else if d == 0x2 {
            Opcode::AndVxVy
        } else if d == 0x3 {
            Opcode::XorVxVy
        } else if d == 0x4 {
            Opcode::AddVxVy
        } else if d == 0x5 {
            Opcode::SubVxVy
        } else if d == 0x6 {
            Opcode::ShrVx
        } else if d == 0x7 {
            Opcode::SubnVxVy
        } else if d == 0xE {
            Opcode::ShlVx
        } else {
            Opcode::Unknown
        }
    } else if a == 0x9 {
        if d == 0x0 { Opcode::SneVxVy } else { Opcode::Unknown }
    } else if a == 0xA {
        Opcode::LdIAddr
    } else if a == 0xB {
        Opcode::JpV0Addr
    } else if a == 0xC {
        Opcode::RndVxByte
    } else if a == 0xD {
        Opcode::DrwVxVyNibble
    } else if a == 0xE {
        if c == 0x9 && d == 0xE {
            Opcode::SkpVx
        } else if c == 0xA && d == 0x1 {
            Opcode::SknpVx
        } else {
            Opcode::Unknown
        }
    } else if a == 0xF {
        if c == 0x0 && d == 0x7 {
            Opcode::LdVxDt
        } else if c == 0x0 && d == 0xA {
            Opcode::LdVxK
        } else if c == 0x1 && d == 0x5 {
            Opcode::LdDtVx
        } else if c == 0x1 && d == 0x8 {
            Opcode::LdStVx
        } else if c == 0x1 && d == 0xE {
            Opcode::AddIVx
        } else if c == 0x2 && d == 0x9 {
            Opcode::LdFVx
        } else if c == 0x3 && d == 0x3 {
            Opcode::LdBVx
        } else if c == 0x5 && d == 0x5 {
            Opcode::LdIVx
        } else if c == 0x6 && d == 0x5 {
            Opcode::LdVxI
        } else {
            Opcode::Unknown
        }
    } else {
        Opcode::Unknown
    }
}

/// Classifies an instruction by its fields.
pub fn classify(inst: &[u8; 4]) -> (r: Opcode)
    ensures
        r == opcode_of(inst@),
{
    let (a, b, c, d) = (inst[0], inst[1], inst[2], inst[3]);
    match a {
        0x0 => {
            if b == 0x0 && c == 0xE && d == 0x0 {
                Opcode::Cls
            } else if b == 0x0 && c == 0xE && d == 0xE {
                Opcode::Ret
            } else {
                Opcode::Unknown
            }
        },
        0x1 => Opcode::Jp,
        0x2 => Opcode::Call,
        0x3 => Opcode::SeVxByte,
        0x4 => Opcode::SneVxByte,
        0x5 => if d == 0x0 { Opcode::SeVxVy } else { Opcode::Unknown },
        0x6 => Opcode::LdVxByte,
        0x7 => Opcode::AddVxByte,
        0x8 => match d {
            0x0 => Opcode::LdVxVy,
            0x1 => Opcode::OrVxVy,
            0x2 => Opcode::AndVxVy,
            0x3 => Opcode::XorVxVy,
            0x4 => Opcode::AddVxVy,
            0x5 => Opcode::SubVxVy,
            0x6 => Opcode::ShrVx,
            0x7 => Opcode::SubnVxVy,
            0xE => Opcode::ShlVx,
            _ => Opcode::Unknown,
        },
        0x9 => if d == 0x0 { Opcode::SneVxVy } else { Opcode::Unknown },
        0xA => Opcode::LdIAddr,
        0xB => Opcode::JpV0Addr,
        0xC => Opcode::RndVxByte,
        0xD => Opcode::DrwVxVyNibble,
        0xE => match (c, d) {
            (0x9, 0xE) => Opcode::SkpVx,
            (0xA, 0x1) => Opcode::SknpVx,
            _ => Opcode::Unknown,
        },
        0xF => match (c, d) {
            (0x0, 0x7) => Opcode::LdVxDt,
            (0x0, 0xA) => Opcode::LdVxK,
            (0x1, 0x5) => Opcode::LdDtVx,
            (0x1, 0x8) => Opcode::LdStVx,
            (0x1, 0xE) => Opcode::AddIVx,
            (0x2, 0x9) => Opcode::LdFVx,
            (0x3, 0x3) => Opcode::LdBVx,
            (0x5, 0x5) => Opcode::LdIVx,
            (0x6, 0x5) => Opcode::LdVxI,
            _ => Opcode::Unknown,
        },
        _ => Opcode::Unknown,
    }
}

} // verus!
