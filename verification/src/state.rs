//! The architectural state: 32 general-purpose registers, HI and LO, the
//! program counter, the heap bookkeeping and the sparse byte memory, together
//! with the typed read and write primitives the execution engine is built on.
//!
//! Every primitive is specified against [`StateModel`], the mathematical view
//! of a state.

use vstd::prelude::*;
use std::collections::HashMap;
use crate::bits::{half_from_bytes, word_from_bytes, half_lo, half_hi, word_b0, word_b1, word_b2,
    word_b3, u32_of_i32, i32_to_u32};
use crate::error::{Error, RushError, RushResult, SegmentationFaultAccessType, AlignmentRequirement,
    Uninitialised, rt_err, uninit_err, make_err};
use crate::layout::MemoryLayout;
use crate::safe::Safe;
use crate::segment::Segment;

verus! {

broadcast use vstd::std_specs::hash::group_hash_axioms;

/// The mathematical view of one architectural state.
pub ghost struct StateModel {
    pub layout: MemoryLayout,
    pub regs: Seq<Safe<i32>>,
    pub hi: Safe<i32>,
    pub lo: Safe<i32>,
    pub pc: u32,
    pub heap_size: u32,
    pub mem: Map<u32, u8>,
}

impl StateModel {
    /// Well-formedness: the layout is ordered, there are exactly 32 register
    /// slots, and register 0 holds `Valid(0)`.
    pub open spec fn wf(self) -> bool {
        &&& self.layout.wf()
        &&& self.regs.len() == 32
        &&& self.regs[0] == Safe::Valid(0i32)
    }

    pub open spec fn seg(self, addr: u32) -> Segment {
        self.layout.seg_of(addr)
    }

    /// Reads are allowed in every mapped segment.
    pub open spec fn readable(self, addr: u32) -> bool {
        self.seg(addr) != Segment::Unmapped
    }

    /// Writes are allowed only in the data and stack segments; the text
    /// segment is read-only after load.
    pub open spec fn writable(self, addr: u32) -> bool {
        self.seg(addr) == Segment::Data || self.seg(addr) == Segment::Stack
    }

    /// The byte stored at an address; unmapped bytes read as uninitialised.
    pub open spec fn mem_byte(self, addr: u32) -> Safe<u8> {
        if self.mem.contains_key(addr) {
            Safe::Valid(self.mem[addr])
        } else {
            Safe::Uninitialised
        }
    }

    pub open spec fn reg(self, index: int) -> Safe<i32> {
        self.regs[index]
    }

    /// The register slot holds a concrete value.
    pub open spec fn reg_ok(self, index: u32) -> bool {
        self.regs[index as int] is Valid
    }

    /// The concrete value of a register slot (meaningful under `reg_ok`).
    pub open spec fn reg_val(self, index: u32) -> i32 {
        self.regs[index as int]->Valid_0
    }

    /// The state after a register write; writes to register 0 are dropped.
    pub open spec fn with_reg(self, index: int, v: Safe<i32>) -> StateModel {
        if index == 0 {
            self
        } else {
            StateModel { regs: self.regs.update(index, v), ..self }
        }
    }

    pub open spec fn with_hi(self, v: Safe<i32>) -> StateModel {
        StateModel { hi: v, ..self }
    }

    pub open spec fn with_lo(self, v: Safe<i32>) -> StateModel {
        StateModel { lo: v, ..self }
    }

    pub open spec fn with_pc(self, pc: u32) -> StateModel {
        StateModel { pc, ..self }
    }

    pub open spec fn with_heap_size(self, heap_size: u32) -> StateModel {
        StateModel { heap_size, ..self }
    }

    /// The state after one byte is stored: a valid byte is mapped, an
    /// uninitialised byte unmaps the address.
    pub open spec fn store_byte(self, addr: u32, b: Safe<u8>) -> StateModel {
        match b {
            Safe::Valid(v) => StateModel { mem: self.mem.insert(addr, v), ..self },
            Safe::Uninitialised => StateModel { mem: self.mem.remove(addr), ..self },
        }
    }

    /// The halfword composed of the two bytes at `addr` (little-endian);
    /// uninitialised if either byte is.
    pub open spec fn half_at(self, addr: u32) -> Safe<u16> {
        match (self.mem_byte(addr), self.mem_byte((addr + 1) as u32)) {
            (Safe::Valid(b0), Safe::Valid(b1)) => Safe::Valid(half_from_bytes(b0, b1)),
            _ => Safe::Uninitialised,
        }
    }

    /// The word composed of the four bytes at `addr` (little-endian);
    /// uninitialised if any byte is.
    pub open spec fn word_at(self, addr: u32) -> Safe<u32> {
        match (self.mem_byte(addr), self.mem_byte((addr + 1) as u32), self.mem_byte(
            (addr + 2) as u32,
        ), self.mem_byte((addr + 3) as u32)) {
            (Safe::Valid(b0), Safe::Valid(b1), Safe::Valid(b2), Safe::Valid(b3)) => Safe::Valid(
                word_from_bytes(b0, b1, b2, b3),
            ),
            _ => Safe::Uninitialised,
        }
    }

    /// The state after a halfword store with tag preservation.
    pub open spec fn store_half(self, addr: u32, h: Safe<u16>) -> StateModel {
        match h {
            Safe::Valid(v) => self.store_byte(addr, Safe::Valid(half_lo(v))).store_byte(
                (addr + 1) as u32,
                Safe::Valid(half_hi(v)),
            ),
            Safe::Uninitialised => self.store_byte(addr, Safe::Uninitialised).store_byte(
                (addr + 1) as u32,
                Safe::Uninitialised,
            ),
        }
    }

    /// The state after a word store with tag preservation.
    pub open spec fn store_word(self, addr: u32, w: Safe<u32>) -> StateModel {
        match w {
            Safe::Valid(v) => self.store_byte(addr, Safe::Valid(word_b0(v))).store_byte(
                (addr + 1) as u32,
                Safe::Valid(word_b1(v)),
            ).store_byte((addr + 2) as u32, Safe::Valid(word_b2(v))).store_byte(
                (addr + 3) as u32,
                Safe::Valid(word_b3(v)),
            ),
            Safe::Uninitialised => self.store_byte(addr, Safe::Uninitialised).store_byte(
                (addr + 1) as u32,
                Safe::Uninitialised,
            ).store_byte((addr + 2) as u32, Safe::Uninitialised).store_byte(
                (addr + 3) as u32,
                Safe::Uninitialised,
            ),
        }
    }

    /// What a tagged byte read at `addr` returns.
    pub open spec fn byte_read_result(self, addr: u32) -> RushResult<Safe<u8>> {
        if !self.readable(addr) {
            Err(rt_err(Error::SegmentationFault { addr, access: SegmentationFaultAccessType::Read }))
        } else {
            Ok(self.mem_byte(addr))
        }
    }

    /// What a tagged halfword read at `addr` returns.
    pub open spec fn half_read_result(self, addr: u32) -> RushResult<Safe<u16>> {
        if addr % 2 != 0 {
            Err(
                rt_err(
                    Error::UnalignedAccess { addr, alignment_requirement: AlignmentRequirement::Half },
                ),
            )
        } else if !self.readable(addr) {
            Err(rt_err(Error::SegmentationFault { addr, access: SegmentationFaultAccessType::Read }))
        } else if !self.readable((addr + 1) as u32) {
            Err(
                rt_err(
                    Error::SegmentationFault {
                        addr: (addr + 1) as u32,
                        access: SegmentationFaultAccessType::Read,
                    },
                ),
            )
        } else {
            Ok(self.half_at(addr))
        }
    }

    /// What a tagged word read at `addr` returns.
    pub open spec fn word_read_result(self, addr: u32) -> RushResult<Safe<u32>> {
        if addr % 4 != 0 {
            Err(
                rt_err(
                    Error::UnalignedAccess { addr, alignment_requirement: AlignmentRequirement::Word },
                ),
            )
        } else if !self.readable(addr) {
            Err(rt_err(Error::SegmentationFault { addr, access: SegmentationFaultAccessType::Read }))
        } else if !self.readable((addr + 1) as u32) {
            Err(
                rt_err(
                    Error::SegmentationFault {
                        addr: (addr + 1) as u32,
                        access: SegmentationFaultAccessType::Read,
                    },
                ),
            )
        } else if !self.readable((addr + 2) as u32) {
            Err(
                rt_err(
                    Error::SegmentationFault {
                        addr: (addr + 2) as u32,
                        access: SegmentationFaultAccessType::Read,
                    },
                ),
            )
        } else if !self.readable((addr + 3) as u32) {
            Err(
                rt_err(
                    Error::SegmentationFault {
                        addr: (addr + 3) as u32,
                        access: SegmentationFaultAccessType::Read,
                    },
                ),
            )
        } else {
            Ok(self.word_at(addr))
        }
    }

    /// Collapses a tagged read to a concrete value, failing on the
    /// uninitialised tag with the given source.
    pub open spec fn collapse<T>(r: RushResult<Safe<T>>, src: Uninitialised) -> RushResult<T> {
        match r {
            Ok(Safe::Valid(v)) => Ok(v),
            Ok(Safe::Uninitialised) => Err(uninit_err(src)),
            Err(e) => Err(e),
        }
    }

    /// What a concrete byte read at `addr` returns.
    pub open spec fn byte_read_value(self, addr: u32) -> RushResult<u8> {
        Self::collapse(self.byte_read_result(addr), Uninitialised::MemByte)
    }

    /// What a concrete halfword read at `addr` returns.
    pub open spec fn half_read_value(self, addr: u32) -> RushResult<u16> {
        Self::collapse(self.half_read_result(addr), Uninitialised::MemHalf)
    }

    /// What a concrete word read at `addr` returns.
    pub open spec fn word_read_value(self, addr: u32) -> RushResult<u32> {
        Self::collapse(self.word_read_result(addr), Uninitialised::MemWord)
    }

    /// What a tagged byte write does: the new state on success, a write
    /// fault outside the data and stack segments.
    pub open spec fn byte_write_result(self, addr: u32, b: Safe<u8>) -> Result<
        StateModel,
        RushError,
    > {
        if !self.writable(addr) {
            Err(
                rt_err(Error::SegmentationFault { addr, access: SegmentationFaultAccessType::Write }),
            )
        } else {
            Ok(self.store_byte(addr, b))
        }
    }

    /// What a tagged halfword write does.
    pub open spec fn half_write_result(self, addr: u32, h: Safe<u16>) -> Result<
        StateModel,
        RushError,
    > {
        if addr % 2 != 0 {
            Err(
                rt_err(
                    Error::UnalignedAccess { addr, alignment_requirement: AlignmentRequirement::Half },
                ),
            )
        } else if !self.writable(addr) {
            Err(
                rt_err(Error::SegmentationFault { addr, access: SegmentationFaultAccessType::Write }),
            )
        } else if !self.writable((addr + 1) as u32) {
            Err(
                rt_err(
                    Error::SegmentationFault {
                        addr: (addr + 1) as u32,
                        access: SegmentationFaultAccessType::Write,
                    },
                ),
            )
        } else {
            Ok(self.store_half(addr, h))
        }
    }

    /// What a tagged word write does.
    pub open spec fn word_write_result(self, addr: u32, w: Safe<u32>) -> Result<
        StateModel,
        RushError,
    > {
        if addr % 4 != 0 {
            Err(
                rt_err(
                    Error::UnalignedAccess { addr, alignment_requirement: AlignmentRequirement::Word },
                ),
            )
        } else if !self.writable(addr) {
            Err(
                rt_err(Error::SegmentationFault { addr, access: SegmentationFaultAccessType::Write }),
            )
        } else if !self.writable((addr + 1) as u32) {
            Err(
                rt_err(
                    Error::SegmentationFault {
                        addr: (addr + 1) as u32,
                        access: SegmentationFaultAccessType::Write,
                    },
                ),
            )
        } else if !self.writable((addr + 2) as u32) {
            Err(
                rt_err(
                    Error::SegmentationFault {
                        addr: (addr + 2) as u32,
                        access: SegmentationFaultAccessType::Write,
                    },
                ),
            )
        } else if !self.writable((addr + 3) as u32) {
            Err(
                rt_err(
                    Error::SegmentationFault {
                        addr: (addr + 3) as u32,
                        access: SegmentationFaultAccessType::Write,
                    },
                ),
            )
        } else {
            Ok(self.store_word(addr, w))
        }
    }

    /// The NUL-terminated byte string starting at `addr`, or the error the
    /// scan runs into first.
    pub open spec fn string_from(self, addr: u32) -> RushResult<Seq<u8>>
        decreases self.layout.stack.top + 1 - addr,
        when self.layout.wf()
    {
        if !self.readable(addr) {
            Err(rt_err(Error::SegmentationFault { addr, access: SegmentationFaultAccessType::Read }))
        } else {
            match self.mem_byte(addr) {
                Safe::Uninitialised => Err(uninit_err(Uninitialised::MemByte)),
                Safe::Valid(b) => if b == 0 {
                    Ok(Seq::empty())
                } else {
                    match self.string_from((addr + 1) as u32) {
                        Ok(s) => Ok(seq![b] + s),
                        Err(e) => Err(e),
                    }
                },
            }
        }
    }

    /// The `len` bytes starting at `addr` (addresses wrapping), or the error
    /// the scan runs into first.
    pub open spec fn bytes_from(self, addr: u32, len: u32) -> RushResult<Seq<u8>>
        decreases len,
    {
        if len == 0 {
            Ok(Seq::empty())
        } else {
            match self.byte_read_value(addr) {
                Err(e) => Err(e),
                Ok(b) => match self.bytes_from(
                    vstd::wrapping::u32_specs::wrapping_add(addr, 1),
                    (len - 1) as u32,
                ) {
                    Ok(s) => Ok(seq![b] + s),
                    Err(e) => Err(e),
                },
            }
        }
    }

    /// The state of a fresh machine over a layout: every register slot but
    /// register 0 uninitialised, HI and LO uninitialised, the program counter
    /// at the start of text, no heap and no mapped memory.
    pub open spec fn initial(layout: MemoryLayout) -> StateModel {
        StateModel {
            layout,
            regs: Seq::new(32, |i: int| if i == 0 {
                Safe::Valid(0i32)
            } else {
                Safe::Uninitialised
            }),
            hi: Safe::Uninitialised,
            lo: Safe::Uninitialised,
            pc: layout.text.start,
            heap_size: 0,
            mem: Map::empty(),
        }
    }
}

/// The architectural state of the guest machine.
pub struct State {
    layout: MemoryLayout,
    registers: Vec<Safe<i32>>,
    hi: Safe<i32>,
    lo: Safe<i32>,
    pc: u32,
    heap_size: u32,
    mem: HashMap<u32, u8>,
}

impl View for State {
    type V = StateModel;

    closed spec fn view(&self) -> StateModel {
        StateModel {
            layout: self.layout,
            regs: self.registers@,
            hi: self.hi,
            lo: self.lo,
            pc: self.pc,
            heap_size: self.heap_size,
            mem: self.mem@,
        }
    }
}

impl State {
    /// Builds the state of a fresh machine over a layout.
    pub fn new(layout: &MemoryLayout) -> (r: State)
        requires
            layout.wf(),
        ensures
            r@ == StateModel::initial(*layout),
            r@.wf(),
    {
        let mut registers: Vec<Safe<i32>> = Vec::new();
        registers.push(Safe::Valid(0));
        let mut i: usize = 1;
        while i < 32
            invariant
                1 <= i <= 32,
                registers@.len() == i,
                registers@[0] == Safe::Valid(0i32),
                forall|j: int| 1 <= j < i ==> registers@[j] is Uninitialised,
            decreases 32 - i,
        {
            registers.push(Safe::Uninitialised);
            i = i + 1;
        }
        let r = State {
            layout: *layout,
            registers,
            hi: Safe::Uninitialised,
            lo: Safe::Uninitialised,
            pc: layout.text.start,
            heap_size: 0,
            mem: HashMap::new(),
        };
        proof {
            assert(r@.regs =~= StateModel::initial(*layout).regs);
            assert(r@.mem =~= StateModel::initial(*layout).mem);
        }
        r
    }

    /// Reads a register, failing when the slot is uninitialised; register 0
    /// always succeeds with 0.
    pub fn read_register(&self, index: u32) -> (r: RushResult<i32>)
        requires
            self@.wf(),
            index < 32,
        ensures
            match r {
                Ok(v) => self@.reg(index as int) == Safe::Valid(v),
                Err(e) => self@.reg(index as int) is Uninitialised && e == uninit_err(
                    Uninitialised::Register,
                ),
            },
    {
        match self.registers[index as usize] {
            Safe::Valid(v) => Ok(v),
            Safe::Uninitialised => Err(
                make_err(Error::Uninitialised { value: Uninitialised::Register }),
            ),
        }
    }

    /// Reads the raw tagged register slot; infallible.
    pub fn read_register_uninit(&self, index: u32) -> (r: Safe<i32>)
        requires
            self@.wf(),
            index < 32,
        ensures
            r == self@.reg(index as int),
    {
        self.registers[index as usize]
    }

    /// Writes a register; writes to register 0 are dropped.
    pub fn write_register(&mut self, index: u32, value: i32)
        requires
            old(self)@.wf(),
            index < 32,
        ensures
            final(self)@ == old(self)@.with_reg(index as int, Safe::Valid(value)),
            final(self)@.wf(),
    {
        if index != 0 {
            self.registers.set(index as usize, Safe::Valid(value));
        }
    }

    /// Writes a raw tagged value to a register; writes to register 0 are
    /// dropped.
    pub fn write_register_uninit(&mut self, index: u32, value: Safe<i32>)
        requires
            old(self)@.wf(),
            index < 32,
        ensures
            final(self)@ == old(self)@.with_reg(index as int, value),
            final(self)@.wf(),
    {
        if index != 0 {
            self.registers.set(index as usize, value);
        }
    }

    /// Reads HI, failing when it is uninitialised.
    pub fn read_hi(&self) -> (r: RushResult<i32>)
        ensures
            match r {
                Ok(v) => self@.hi == Safe::Valid(v),
                Err(e) => self@.hi is Uninitialised && e == uninit_err(Uninitialised::Hi),
            },
    {
        match self.hi {
            Safe::Valid(v) => Ok(v),
            Safe::Uninitialised => Err(make_err(Error::Uninitialised { value: Uninitialised::Hi })),
        }
    }

    /// Reads LO, failing when it is uninitialised.
    pub fn read_lo(&self) -> (r: RushResult<i32>)
        ensures
            match r {
                Ok(v) => self@.lo == Safe::Valid(v),
                Err(e) => self@.lo is Uninitialised && e == uninit_err(Uninitialised::Lo),
            },
    {
        match self.lo {
            Safe::Valid(v) => Ok(v),
            Safe::Uninitialised => Err(make_err(Error::Uninitialised { value: Uninitialised::Lo })),
        }
    }

    /// Writes HI.
    pub fn write_hi(&mut self, value: i32)
        ensures
            final(self)@ == old(self)@.with_hi(Safe::Valid(value)),
    {
        self.hi = Safe::Valid(value);
    }

    /// Writes LO.
    pub fn write_lo(&mut self, value: i32)
        ensures
            final(self)@ == old(self)@.with_lo(Safe::Valid(value)),
    {
        self.lo = Safe::Valid(value);
    }

    /// Writes a raw tagged value to HI.
    pub fn write_hi_uninit(&mut self, value: Safe<i32>)
        ensures
            final(self)@ == old(self)@.with_hi(value),
    {
        self.hi = value;
    }

    /// Writes a raw tagged value to LO.
    pub fn write_lo_uninit(&mut self, value: Safe<i32>)
        ensures
            final(self)@ == old(self)@.with_lo(value),
    {
        self.lo = value;
    }

    /// The program counter.
    pub fn pc(&self) -> (r: u32)
        ensures
            r == self@.pc,
    {
        self.pc
    }

    /// Sets the program counter.
    pub fn set_pc(&mut self, pc: u32)
        ensures
            final(self)@ == old(self)@.with_pc(pc),
    {
        self.pc = pc;
    }

    /// Advances the program counter by one instruction.
    pub fn step_pc(&mut self)
        ensures
            final(self)@ == old(self)@.with_pc(
                vstd::wrapping::u32_specs::wrapping_add(old(self)@.pc, 4),
            ),
    {
        self.pc = self.pc.wrapping_add(4);
    }

    /// The target of a taken branch: the already advanced program counter
    /// plus the sign-extended immediate times four.
    pub open spec fn branch_target(pc: u32, imm: i16) -> u32 {
        vstd::wrapping::u32_specs::wrapping_add(pc, u32_of_i32((imm * 4) as i32))
    }

    /// Takes a branch with the given halfword offset.
    pub fn branch(&mut self, imm: i16)
        ensures
            final(self)@ == old(self)@.with_pc(Self::branch_target(old(self)@.pc, imm)),
    {
        let offset: i32 = (imm as i32) * 4;
        self.pc = self.pc.wrapping_add(i32_to_u32(offset));
    }

    /// The current heap allocation in bytes.
    pub fn heap_size(&self) -> (r: u32)
        ensures
            r == self@.heap_size,
    {
        self.heap_size
    }

    /// Records a new heap allocation size.
    pub fn set_heap_size(&mut self, heap_size: u32)
        ensures
            final(self)@ == old(self)@.with_heap_size(heap_size),
    {
        self.heap_size = heap_size;
    }

    /// Reads the tagged byte at `addr`.
    pub fn read_mem_byte_uninit(&self, addr: u32) -> (r: RushResult<Safe<u8>>)
        requires
            self@.wf(),
        ensures
            r == self@.byte_read_result(addr),
    {
        match self.layout.classify(addr) {
            Segment::Unmapped => Err(
                make_err(
                    Error::SegmentationFault { addr, access: SegmentationFaultAccessType::Read },
                ),
            ),
            _ => match self.mem.get(&addr) {
                Some(b) => Ok(Safe::Valid(*b)),
                None => Ok(Safe::Uninitialised),
            },
        }
    }

    /// Reads the byte at `addr`, failing on the uninitialised tag.
    pub fn read_mem_byte(&self, addr: u32) -> (r: RushResult<u8>)
        requires
            self@.wf(),
        ensures
            r == self@.byte_read_value(addr),
    {
        match self.read_mem_byte_uninit(addr) {
            Ok(Safe::Valid(b)) => Ok(b),
            Ok(Safe::Uninitialised) => Err(
                make_err(Error::Uninitialised { value: Uninitialised::MemByte }),
            ),
            Err(e) => Err(e),
        }
    }

    /// Reads the tagged halfword at `addr`, failing on a misaligned address.
    pub fn read_mem_half_uninit(&self, addr: u32) -> (r: RushResult<Safe<u16>>)
        requires
            self@.wf(),
        ensures
            r == self@.half_read_result(addr),
    {
        if addr % 2 != 0 {
            return Err(
                make_err(
                    Error::UnalignedAccess {
                        addr,
                        alignment_requirement: AlignmentRequirement::Half,
                    },
                ),
            );
        }
        let b0 = match self.read_mem_byte_uninit(addr) {
            Ok(b) => b,
            Err(e) => { return Err(e); },
        };
        let b1 = match self.read_mem_byte_uninit(addr + 1) {
            Ok(b) => b,
            Err(e) => { return Err(e); },
        };
        match (b0, b1) {
            (Safe::Valid(b0), Safe::Valid(b1)) => Ok(
                Safe::Valid(crate::bits::half_of_bytes(b0, b1)),
            ),
            _ => Ok(Safe::Uninitialised),
        }
    }

    /// Reads the halfword at `addr`, failing on the uninitialised tag.
    pub fn read_mem_half(&self, addr: u32) -> (r: RushResult<u16>)
        requires
            self@.wf(),
        ensures
            r == self@.half_read_value(addr),
    {
        match self.read_mem_half_uninit(addr) {
            Ok(Safe::Valid(h)) => Ok(h),
            Ok(Safe::Uninitialised) => Err(
                make_err(Error::Uninitialised { value: Uninitialised::MemHalf }),
            ),
            Err(e) => Err(e),
        }
    }

    /// Reads the tagged word at `addr`, failing on a misaligned address.
    pub fn read_mem_word_uninit(&self, addr: u32) -> (r: RushResult<Safe<u32>>)
        requires
            self@.wf(),
        ensures
            r == self@.word_read_result(addr),
    {
        if addr % 4 != 0 {
            return Err(
                make_err(
                    Error::UnalignedAccess {
                        addr,
                        alignment_requirement: AlignmentRequirement::Word,
                    },
                ),
            );
        }
        let b0 = match self.read_mem_byte_uninit(addr) {
            Ok(b) => b,
            Err(e) => { return Err(e); },
        };
        let b1 = match self.read_mem_byte_uninit(addr + 1) {
            Ok(b) => b,
            Err(e) => { return Err(e); },
        };
        let b2 = match self.read_mem_byte_uninit(addr + 2) {
            Ok(b) => b,
            Err(e) => { return Err(e); },
        };
        let b3 = match self.read_mem_byte_uninit(addr + 3) {
            Ok(b) => b,
            Err(e) => { return Err(e); },
        };
        match (b0, b1, b2, b3) {
            (Safe::Valid(b0), Safe::Valid(b1), Safe::Valid(b2), Safe::Valid(b3)) => Ok(
                Safe::Valid(crate::bits::word_of_bytes(b0, b1, b2, b3)),
            ),
            _ => Ok(Safe::Uninitialised),
        }
    }

    /// Reads the word at `addr`, failing on the uninitialised tag.
    pub fn read_mem_word(&self, addr: u32) -> (r: RushResult<u32>)
        requires
            self@.wf(),
        ensures
            r == self@.word_read_value(addr),
    {
        match self.read_mem_word_uninit(addr) {
            Ok(Safe::Valid(w)) => Ok(w),
            Ok(Safe::Uninitialised) => Err(
                make_err(Error::Uninitialised { value: Uninitialised::MemWord }),
            ),
            Err(e) => Err(e),
        }
    }

    /// Reads the word the program counter points at.
    pub fn read_mem_pc(&self) -> (r: RushResult<u32>)
        requires
            self@.wf(),
        ensures
            r == self@.word_read_value(self@.pc),
    {
        self.read_mem_word(self.pc)
    }

    /// Stores a tagged byte without a segment check; reserved for the
    /// initial load of a binary.
    pub(crate) fn store_byte_raw(&mut self, addr: u32, b: Safe<u8>)
        ensures
            final(self)@ == old(self)@.store_byte(addr, b),
    {
        match b {
            Safe::Valid(v) => {
                self.mem.insert(addr, v);
            },
            Safe::Uninitialised => {
                self.mem.remove(&addr);
            },
        }
    }

    /// Writes a tagged byte, faulting outside the writable segments.
    pub fn write_mem_byte_uninit(&mut self, addr: u32, b: Safe<u8>) -> (r: RushResult<()>)
        requires
            old(self)@.wf(),
        ensures
            match old(self)@.byte_write_result(addr, b) {
                Ok(m) => r is Ok && final(self)@ == m,
                Err(e) => r == RushResult::<()>::Err(e) && final(self)@ == old(self)@,
            },
            final(self)@.wf(),
    {
        match self.layout.classify(addr) {
            Segment::Data | Segment::Stack => {
                self.store_byte_raw(addr, b);
                Ok(())
            },
            _ => Err(
                make_err(
                    Error::SegmentationFault { addr, access: SegmentationFaultAccessType::Write },
                ),
            ),
        }
    }

    /// Writes a byte, faulting outside the writable segments.
    pub fn write_mem_byte(&mut self, addr: u32, b: u8) -> (r: RushResult<()>)
        requires
            old(self)@.wf(),
        ensures
            match old(self)@.byte_write_result(addr, Safe::Valid(b)) {
                Ok(m) => r is Ok && final(self)@ == m,
                Err(e) => r == RushResult::<()>::Err(e) && final(self)@ == old(self)@,
            },
            final(self)@.wf(),
    {
        self.write_mem_byte_uninit(addr, Safe::Valid(b))
    }

    /// Writes a tagged halfword, checking alignment and both byte addresses.
    pub fn write_mem_half_uninit(&mut self, addr: u32, h: Safe<u16>) -> (r: RushResult<()>)
        requires
            old(self)@.wf(),
        ensures
            match old(self)@.half_write_result(addr, h) {
                Ok(m) => r is Ok && final(self)@ == m,
                Err(e) => r == RushResult::<()>::Err(e) && final(self)@ == old(self)@,
            },
            final(self)@.wf(),
    {
        if addr % 2 != 0 {
            return Err(
                make_err(
                    Error::UnalignedAccess {
                        addr,
                        alignment_requirement: AlignmentRequirement::Half,
                    },
                ),
            );
        }
        match self.layout.classify(addr) {
            Segment::Data | Segment::Stack => {},
            _ => {
                return Err(
                    make_err(
                        Error::SegmentationFault {
                            addr,
                            access: SegmentationFaultAccessType::Write,
                        },
                    ),
                );
            },
        }
        match self.layout.classify(addr + 1) {
            Segment::Data | Segment::Stack => {},
            _ => {
                return Err(
                    make_err(
                        Error::SegmentationFault {
                            addr: addr + 1,
                            access: SegmentationFaultAccessType::Write,
                        },
                    ),
                );
            },
        }
        match h {
            Safe::Valid(v) => {
                let (b0, b1) = crate::bits::bytes_of_half(v);
                self.store_byte_raw(addr, Safe::Valid(b0));
                self.store_byte_raw(addr + 1, Safe::Valid(b1));
            },
            Safe::Uninitialised => {
                self.store_byte_raw(addr, Safe::Uninitialised);
                self.store_byte_raw(addr + 1, Safe::Uninitialised);
            },
        }
        Ok(())
    }

    /// Writes a halfword, checking alignment and both byte addresses.
    pub fn write_mem_half(&mut self, addr: u32, h: u16) -> (r: RushResult<()>)
        requires
            old(self)@.wf(),
        ensures
            match old(self)@.half_write_result(addr, Safe::Valid(h)) {
                Ok(m) => r is Ok && final(self)@ == m,
                Err(e) => r == RushResult::<()>::Err(e) && final(self)@ == old(self)@,
            },
            final(self)@.wf(),
    {
        self.write_mem_half_uninit(addr, Safe::Valid(h))
    }

    /// Writes a tagged word, checking alignment and all four byte addresses.
    pub fn write_mem_word_uninit(&mut self, addr: u32, w: Safe<u32>) -> (r: RushResult<()>)
        requires
            old(self)@.wf(),
        ensures
            match old(self)@.word_write_result(addr, w) {
                Ok(m) => r is Ok && final(self)@ == m,
                Err(e) => r == RushResult::<()>::Err(e) && final(self)@ == old(self)@,
            },
            final(self)@.wf(),
    {
        if addr % 4 != 0 {
            return Err(
                make_err(
                    Error::UnalignedAccess {
                        addr,
                        alignment_requirement: AlignmentRequirement::Word,
                    },
                ),
            );
        }
        match self.layout.classify(addr) {
            Segment::Data | Segment::Stack => {},
            _ => {
                return Err(
                    make_err(
                        Error::SegmentationFault {
                            addr,
                            access: SegmentationFaultAccessType::Write,
                        },
                    ),
                );
            },
        }
        match self.layout.classify(addr + 1) {
            Segment::Data | Segment::Stack => {},
            _ => {
                return Err(
                    make_err(
                        Error::SegmentationFault {
                            addr: addr + 1,
                            access: SegmentationFaultAccessType::Write,
                        },
                    ),
                );
            },
        }
        match self.layout.classify(addr + 2) {
            Segment::Data | Segment::Stack => {},
            _ => {
                return Err(
                    make_err(
                        Error::SegmentationFault {
                            addr: addr + 2,
                            access: SegmentationFaultAccessType::Write,
                        },
                    ),
                );
            },
        }
        match self.layout.classify(addr + 3) {
            Segment::Data | Segment::Stack => {},
            _ => {
                return Err(
                    make_err(
                        Error::SegmentationFault {
                            addr: addr + 3,
                            access: SegmentationFaultAccessType::Write,
                        },
                    ),
                );
            },
        }
        match w {
            Safe::Valid(v) => {
                let (b0, b1, b2, b3) = crate::bits::bytes_of_word(v);
                self.store_byte_raw(addr, Safe::Valid(b0));
                self.store_byte_raw(addr + 1, Safe::Valid(b1));
                self.store_byte_raw(addr + 2, Safe::Valid(b2));
                self.store_byte_raw(addr + 3, Safe::Valid(b3));
            },
            Safe::Uninitialised => {
                self.store_byte_raw(addr, Safe::Uninitialised);
                self.store_byte_raw(addr + 1, Safe::Uninitialised);
                self.store_byte_raw(addr + 2, Safe::Uninitialised);
                self.store_byte_raw(addr + 3, Safe::Uninitialised);
            },
        }
        Ok(())
    }

    /// Writes a word, checking alignment and all four byte addresses.
    pub fn write_mem_word(&mut self, addr: u32, w: u32) -> (r: RushResult<()>)
        requires
            old(self)@.wf(),
        ensures
            match old(self)@.word_write_result(addr, Safe::Valid(w)) {
                Ok(m) => r is Ok && final(self)@ == m,
                Err(e) => r == RushResult::<()>::Err(e) && final(self)@ == old(self)@,
            },
            final(self)@.wf(),
    {
        self.write_mem_word_uninit(addr, Safe::Valid(w))
    }

    /// Reads the NUL-terminated byte string at `addr`, excluding the NUL.
    pub fn read_mem_string(&self, addr: u32) -> (r: RushResult<Vec<u8>>)
        requires
            self@.wf(),
        ensures
            match r {
                Ok(v) => self@.string_from(addr) == RushResult::<Seq<u8>>::Ok(v@),
                Err(e) => self@.string_from(addr) == RushResult::<Seq<u8>>::Err(e),
            },
    {
        let mut out: Vec<u8> = Vec::new();
        let mut cur: u32 = addr;
        loop
            invariant
                self@.wf(),
                cur <= self@.layout.stack.top + 1 || cur == addr,
                (match self@.string_from(cur) {
                    Ok(s) => self@.string_from(addr) == RushResult::<Seq<u8>>::Ok(out@ + s),
                    Err(e) => self@.string_from(addr) == RushResult::<Seq<u8>>::Err(e),
                }),
            decreases
                    (if cur <= self@.layout.stack.top {
                        self@.layout.stack.top + 1 - cur
                    } else {
                        0int
                    }),
        {
            match self.layout.classify(cur) {
                Segment::Unmapped => {
                    return Err(
                        make_err(
                            Error::SegmentationFault {
                                addr: cur,
                                access: SegmentationFaultAccessType::Read,
                            },
                        ),
                    );
                },
                _ => {},
            }
            match self.mem.get(&cur) {
                None => {
                    return Err(make_err(Error::Uninitialised { value: Uninitialised::MemByte }));
                },
                Some(b) => {
                    let b = *b;
                    if b == 0 {
                        proof {
                            assert(out@ + Seq::<u8>::empty() =~= out@);
                        }
                        return Ok(out);
                    }
                    let ghost prev = out@;
                    out.push(b);
                    proof {
                        if let Ok(s) = self@.string_from((cur + 1) as u32) {
                            assert(prev + (seq![b] + s) =~= out@ + s);
                        }
                    }
                    cur = cur + 1;
                },
            }
        }
    }

    /// Reads `len` contiguous bytes starting at `addr`.
    pub fn read_mem_bytes(&self, addr: u32, len: u32) -> (r: RushResult<Vec<u8>>)
        requires
            self@.wf(),
        ensures
            match r {
                Ok(v) => self@.bytes_from(addr, len) == RushResult::<Seq<u8>>::Ok(v@) && v@.len()
                    == len,
                Err(e) => self@.bytes_from(addr, len) == RushResult::<Seq<u8>>::Err(e),
            },
    {
        let mut out: Vec<u8> = Vec::new();
        let mut cur: u32 = addr;
        let mut left: u32 = len;
        loop
            invariant
                self@.wf(),
                left <= len,
                out@.len() + left == len,
                (match self@.bytes_from(cur, left) {
                    Ok(s) => self@.bytes_from(addr, len) == RushResult::<Seq<u8>>::Ok(out@ + s),
                    Err(e) => self@.bytes_from(addr, len) == RushResult::<Seq<u8>>::Err(e),
                }),
            decreases left,
        {
            if left == 0 {
                proof {
                    assert(out@ + Seq::<u8>::empty() =~= out@);
                }
                return Ok(out);
            }
            match self.read_mem_byte(cur) {
                Err(e) => {
                    return Err(e);
                },
                Ok(b) => {
                    let ghost prev = out@;
                    out.push(b);
                    proof {
                        if let Ok(s) = self@.bytes_from(
                            vstd::wrapping::u32_specs::wrapping_add(cur, 1),
                            (left - 1) as u32,
                        ) {
                            assert(prev + (seq![b] + s) =~= out@ + s);
                        }
                    }
                    cur = cur.wrapping_add(1);
                    left = left - 1;
                },
            }
        }
    }

    /// The length claim of `bytes_from`: a successful contiguous read returns
    /// exactly `len` bytes.
    pub proof fn lemma_bytes_from_len(m: StateModel, addr: u32, len: u32)
        ensures
            m.bytes_from(addr, len) matches Ok(s) ==> s.len() == len,
        decreases len,
    {
        if len > 0 {
            Self::lemma_bytes_from_len(
                m,
                vstd::wrapping::u32_specs::wrapping_add(addr, 1),
                (len - 1) as u32,
            );
        }
    }
}

} // verus!
