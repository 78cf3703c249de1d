//! The instruction decoder: splits a 32-bit word into the fields the three
//! encoding formats share, stated with plain arithmetic so that every field
//! is pinned exactly.

use vstd::prelude::*;

verus! {

/// Bits 26..32 of an instruction word.
pub open spec fn op_of(w: u32) -> u32 {
    w / 0x0400_0000
}

/// Bits 21..26.
pub open spec fn rs_of(w: u32) -> u32 {
    (w / 0x0020_0000) % 32
}

/// Bits 16..21.
pub open spec fn rt_of(w: u32) -> u32 {
    (w / 0x0001_0000) % 32
}

/// Bits 11..16.
pub open spec fn rd_of(w: u32) -> u32 {
    (w / 0x0800) % 32
}

/// Bits 6..11.
pub open spec fn shamt_of(w: u32) -> u32 {
    (w / 0x40) % 32
}

/// Bits 0..6.
pub open spec fn funct_of(w: u32) -> u32 {
    w % 0x40
}

/// The low 16 bits, the immediate of an I-type instruction.
pub open spec fn imm_of(w: u32) -> u16 {
    (w % 0x1_0000) as u16
}

/// The low 26 bits, the target field of a J-type instruction.
pub open spec fn jaddr_of(w: u32) -> u32 {
    w % 0x0400_0000
}

/// The fields of one decoded instruction word.
#[derive(Clone, Copy, Debug, PartialEq, Eq, Structural)]
pub struct Decoded {
    pub opcode: u32,
    pub rs: u32,
    pub rt: u32,
    pub rd: u32,
    pub shamt: u32,
    pub funct: u32,
    pub imm: u16,
    pub jaddr: u32,
}

/// What decoding a word yields.
pub open spec fn decode_spec(w: u32) -> Decoded {
    Decoded {
        opcode: op_of(w),
        rs: rs_of(w),
        rt: rt_of(w),
        rd: rd_of(w),
        shamt: shamt_of(w),
        funct: funct_of(w),
        imm: imm_of(w),
        jaddr: jaddr_of(w),
    }
}

/// Splits an instruction word into its fields.
pub fn decode(w: u32) -> (r: Decoded)
    ensures
        r == decode_spec(w),
        r.opcode < 64,
        r.rs < 32,
        r.rt < 32,
        r.rd < 32,
        r.shamt < 32,
        r.funct < 64,
        r.jaddr < 0x0400_0000,
{
    Decoded {
        opcode: w / 0x0400_0000,
        rs: (w / 0x0020_0000) % 32,
        rt: (w / 0x0001_0000) % 32,
        rd: (w / 0x0800) % 32,
        shamt: (w / 0x40) % 32,
        funct: w % 0x40,
        imm: (w % 0x1_0000) as u16,
        jaddr: w % 0x0400_0000,
    }
}

} // verus!
