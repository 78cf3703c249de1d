//! Address-space segments and the fixed-layout classifier.
//!
//! The engine itself classifies addresses against a configurable layout (see
//! `layout`); this module holds the segment type and the classifier for the
//! default address space.

use vstd::prelude::*;

verus! {

/// Bottom of the text segment in the default address space.
pub const TEXT_BOT: u32 = 0x0040_0000;

/// Top of the text segment in the default address space.
pub const TEXT_TOP: u32 = 0x0FFF_FFFF;

/// Bottom of the global area in the default address space.
pub const GLOBAL_BOT: u32 = 0x1000_0000;

/// Base of the initial data in the default address space.
pub const DATA_BOT: u32 = 0x1001_0000;

/// Bottom of the heap in the default address space.
pub const HEAP_BOT: u32 = 0x1004_0000;

/// Bottom of the stack in the default address space.
pub const STACK_BOT: u32 = 0x7FF0_0000;

/// Top of the stack in the default address space.
pub const STACK_TOP: u32 = 0x7FFF_FFFF;

/// Bottom of the kernel text segment.
pub const KTEXT_BOT: u32 = 0x8000_0000;

/// Bottom of the kernel data segment.
pub const KDATA_BOT: u32 = 0x9000_0000;

/// The classification of a 32-bit address.
#[derive(PartialEq, Eq, Clone, Copy, Debug, Structural)]
pub enum Segment {
    Unmapped,
    Text,
    Data,
    Stack,
    KText,
    KData,
}

impl Segment {
    /// The lowest address of the segment in the default address space.
    pub fn get_lower_bound(&self) -> (r: u32)
        ensures
            r == self.lower_bound_spec(),
    {
        match self {
            Segment::Unmapped => 0,
            Segment::Text => TEXT_BOT,
            Segment::Data => DATA_BOT,
            Segment::Stack => STACK_TOP,
            Segment::KText => KTEXT_BOT,
            Segment::KData => KDATA_BOT,
        }
    }

    pub open spec fn lower_bound_spec(&self) -> u32 {
        match self {
            Segment::Unmapped => 0,
            Segment::Text => TEXT_BOT,
            Segment::Data => DATA_BOT,
            Segment::Stack => STACK_TOP,
            Segment::KText => KTEXT_BOT,
            Segment::KData => KDATA_BOT,
        }
    }
}

/// The segment an address of the default address space falls in.
pub open spec fn segment_of(address: u32) -> Segment {
    if address < TEXT_BOT {
        Segment::Unmapped
    } else if address <= TEXT_TOP {
        Segment::Text
    } else if GLOBAL_BOT <= address && address < STACK_BOT {
        Segment::Data
    } else if STACK_BOT <= address && address <= STACK_TOP {
        Segment::Stack
    } else if KTEXT_BOT <= address && address < KDATA_BOT {
        Segment::KText
    } else {
        Segment::KData
    }
}

/// Classifies an address of the default address space.
pub fn get_segment(address: u32) -> (r: Segment)
    ensures
        r == segment_of(address),
{
    if address < TEXT_BOT {
        Segment::Unmapped
    } else if TEXT_BOT <= address && address <= TEXT_TOP {
        Segment::Text
    } else if GLOBAL_BOT <= address && address < STACK_BOT {
        Segment::Data
    } else if STACK_BOT <= address && address <= STACK_TOP {
        Segment::Stack
    } else if KTEXT_BOT <= address && address < KDATA_BOT {
        Segment::KText
    } else {
        Segment::KData
    }
}

} // verus!
