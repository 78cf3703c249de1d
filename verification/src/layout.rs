//! The memory layout descriptor: segment bounds supplied once at construction
//! and immutable thereafter, and the classifier the engine consults on every
//! fetch and memory access.

use vstd::prelude::*;
use crate::segment::Segment;

verus! {

/// Bounds of the executable segment, both ends inclusive.
#[derive(Clone, Copy, Debug, PartialEq, Eq, Structural)]
pub struct TextRange {
    pub start: u32,
    pub end: u32,
}

/// The global area: its base and the initial value of the global pointer.
#[derive(Clone, Copy, Debug, PartialEq, Eq, Structural)]
pub struct GlobalRange {
    pub bot: u32,
    pub ptr: u32,
}

/// The stack address range, addressed as `[bot, top]` and growing downward
/// from `top`.
#[derive(Clone, Copy, Debug, PartialEq, Eq, Structural)]
pub struct StackRange {
    pub bot: u32,
    pub top: u32,
}

/// Enumerates the segment bounds of one guest address space.
#[derive(Clone, Copy, Debug, PartialEq, Eq, Structural)]
pub struct MemoryLayout {
    pub text: TextRange,
    pub data_bot: u32,
    pub global: GlobalRange,
    pub stack: StackRange,
}

impl MemoryLayout {
    /// The intervals are ordered and do not overlap, the initial data base
    /// falls in the data segment, and the address space does not run against
    /// the end of the 32-bit range (so that scans past the stack always reach
    /// an unmapped address).
    pub open spec fn wf(self) -> bool {
        &&& self.text.start <= self.text.end
        &&& self.text.end < self.global.bot
        &&& self.global.bot <= self.data_bot
        &&& self.data_bot < self.stack.bot
        &&& self.stack.bot <= self.stack.top
        &&& self.stack.top < 0xFFFF_FFFF
        &&& 0x30 <= self.stack.top
    }

    /// The segment an address falls in, tried in the order text, data, stack.
    pub open spec fn seg_of(self, addr: u32) -> Segment {
        if addr < self.text.start {
            Segment::Unmapped
        } else if addr <= self.text.end {
            Segment::Text
        } else if self.global.bot <= addr && addr < self.stack.bot {
            Segment::Data
        } else if self.stack.bot <= addr && addr <= self.stack.top {
            Segment::Stack
        } else {
            Segment::Unmapped
        }
    }

    /// Classifies an address against this layout.
    pub fn classify(&self, addr: u32) -> (r: Segment)
        ensures
            r == self.seg_of(addr),
    {
        if addr < self.text.start {
            Segment::Unmapped
        } else if self.text.start <= addr && addr <= self.text.end {
            Segment::Text
        } else if self.global.bot <= addr && addr < self.stack.bot {
            Segment::Data
        } else if self.stack.bot <= addr && addr <= self.stack.top {
            Segment::Stack
        } else {
            Segment::Unmapped
        }
    }

    /// Mapped addresses never sit above the stack top.
    pub proof fn lemma_seg_bounded(self, addr: u32)
        requires
            self.wf(),
            self.seg_of(addr) != Segment::Unmapped,
        ensures
            addr <= self.stack.top,
    {
    }
}

} // verus!
