//! The runtime facade: construction from a loaded binary and a memory
//! layout, the owned-error step protocol, and fetch without stepping.
//!
//! `step` moves the runtime in; on error it returns the runtime alongside
//! the error so the host keeps inspecting state, and on a syscall,
//! breakpoint or trap it returns a typed guard carrying the runtime.

use vstd::prelude::*;
use crate::bits::{i32_of_u32, u32_to_i32};
use crate::decode::{decode, decode_spec};
use crate::error::{Error, RushError, RushResult, SegmentationFaultAccessType, rt_err, make_err};
use crate::layout::MemoryLayout;
use crate::register::Register;
use crate::safe::Safe;
use crate::segment::Segment;
use crate::state::{State, StateModel};
use crate::syscall::RuntimeSyscallGuard;

verus! {

pub const SPECIAL: u32 = 0b000000;

pub const SPECIAL2: u32 = 0b011100;

pub const SPECIAL3: u32 = 0b011111;

pub const JUMP: u32 = 0b000010;

pub const JAL: u32 = 0b000011;

/// The distinguished jump target that triggers the printf diagnostic hook
/// instead of branching.
pub const PRINTF_ADDR: u32 = 0x0DEA_DBEC;

/// A loaded binary: the text and data byte streams, each with per-byte
/// initialisation tags.
pub struct Binary {
    pub text: Vec<Safe<u8>>,
    pub data: Vec<Safe<u8>>,
}

/// The emulated machine: its architectural state and the memory layout it
/// was built over.
pub struct Runtime {
    pub state: State,
    pub memory: MemoryLayout,
}

/// What a successful step yields: the next runtime, or a guard that hands
/// control to the host.
pub type SteppedRuntime = Result<Runtime, RuntimeSyscallGuard>;

/// The error raised where the engine meets an instruction it does not
/// implement.
pub open spec fn unknown_inst_err(pc: u32) -> RushError {
    rt_err(Error::UnknownInstruction { addr: pc })
}

impl Runtime {
    /// The runtime's state is well-formed and agrees with its layout.
    pub open spec fn wf(self) -> bool {
        &&& self.state@.wf()
        &&& self.memory == self.state@.layout
    }

    /// A placeholder with no effect.
    pub fn reset(&self) {
    }

    /// Classifies an address against this runtime's layout.
    pub fn get_segment(&self, addr: u32) -> (r: Segment)
        ensures
            r == self.memory.seg_of(addr),
    {
        self.memory.classify(addr)
    }

    /// The segment the program counter points into.
    pub fn get_pc_segment(&self) -> (r: Segment)
        ensures
            r == self.memory.seg_of(self.state@.pc),
    {
        self.memory.classify(self.state.pc())
    }

    /// Advances the program counter by one instruction.
    pub fn step_pc(&mut self)
        ensures
            final(self).state@ == old(self).state@.with_pc(
                vstd::wrapping::u32_specs::wrapping_add(old(self).state@.pc, 4),
            ),
            final(self).memory == old(self).memory,
    {
        self.state.step_pc()
    }

    /// The architectural state.
    pub fn state(&self) -> (r: &State)
        ensures
            r == &self.state,
    {
        &self.state
    }

    /// The architectural state, for mutation.
    pub fn state_mut(&mut self) -> (r: &mut State)
        ensures
            *r == old(self).state,
            final(self).state == *final(r),
            final(self).memory == old(self).memory,
    {
        &mut self.state
    }

    /// Fetches the word the program counter points at, without stepping.
    pub fn current_inst(&self) -> (r: RushResult<u32>)
        requires
            self.wf(),
        ensures
            r == self.state@.word_read_value(self.state@.pc),
    {
        self.state.read_mem_pc()
    }

    /// Fetches the word one instruction past the program counter.
    pub fn next_inst(&self) -> (r: RushResult<u32>)
        requires
            self.wf(),
        ensures
            r == self.state@.word_read_value(
                vstd::wrapping::u32_specs::wrapping_add(self.state@.pc, 4),
            ),
    {
        self.state.read_mem_word(self.state.pc().wrapping_add(4))
    }

    /// The state after the text stream is copied verbatim (holes included)
    /// to ascending addresses.
    pub open spec fn fill_all_model(m: StateModel, addr: u32, data: Seq<Safe<u8>>) -> StateModel
        decreases data.len(),
    {
        if data.len() == 0 {
            m
        } else {
            Self::fill_all_model(
                m.store_byte(addr, data[0]),
                vstd::wrapping::u32_specs::wrapping_add(addr, 1),
                data.drop_first(),
            )
        }
    }

    /// The state after the data stream is copied to ascending addresses,
    /// valid bytes only.
    pub open spec fn fill_valid_model(m: StateModel, addr: u32, data: Seq<Safe<u8>>) -> StateModel
        decreases data.len(),
    {
        if data.len() == 0 {
            m
        } else {
            let m1 = if data[0] is Valid {
                m.store_byte(addr, data[0])
            } else {
                m
            };
            Self::fill_valid_model(
                m1,
                vstd::wrapping::u32_specs::wrapping_add(addr, 1),
                data.drop_first(),
            )
        }
    }

    /// The initial state built from a binary over a layout: text and data
    /// loaded, SP and FP at `stack.top - 0x30`, GP at `global.ptr`.
    pub open spec fn load_model(layout: MemoryLayout, text: Seq<Safe<u8>>, data: Seq<Safe<u8>>)
        -> StateModel {
        let m0 = StateModel::initial(layout);
        let m1 = Self::fill_all_model(m0, layout.text.start, text);
        let m2 = Self::fill_valid_model(m1, layout.data_bot, data);
        m2.with_reg(29, Safe::Valid(i32_of_u32((layout.stack.top - 0x30) as u32))).with_reg(
            30,
            Safe::Valid(i32_of_u32((layout.stack.top - 0x30) as u32)),
        ).with_reg(28, Safe::Valid(i32_of_u32(layout.global.ptr)))
    }

    fn fill_all_state(starting_addr: u32, data: &Vec<Safe<u8>>, state: &mut State)
        ensures
            final(state)@ == Self::fill_all_model(old(state)@, starting_addr, data@),
    {
        let mut addr: u32 = starting_addr;
        let mut i: usize = 0;
        proof {
            assert(data@.skip(0) =~= data@);
        }
        while i < data.len()
            invariant
                i <= data@.len(),
                Self::fill_all_model(old(state)@, starting_addr, data@) == Self::fill_all_model(
                    state@,
                    addr,
                    data@.skip(i as int),
                ),
            decreases data@.len() - i,
        {
            let ghost pre = state@;
            state.store_byte_raw(addr, data[i]);
            proof {
                assert(data@.skip(i as int).drop_first() =~= data@.skip(i as int + 1));
                assert(data@.skip(i as int)[0] == data@[i as int]);
            }
            addr = addr.wrapping_add(1);
            i = i + 1;
        }
        proof {
            assert(data@.skip(data@.len() as int) =~= Seq::<Safe<u8>>::empty());
        }
    }

    fn fill_valid_state(starting_addr: u32, data: &Vec<Safe<u8>>, state: &mut State)
        ensures
            final(state)@ == Self::fill_valid_model(old(state)@, starting_addr, data@),
    {
        let mut addr: u32 = starting_addr;
        let mut i: usize = 0;
        proof {
            assert(data@.skip(0) =~= data@);
        }
        while i < data.len()
            invariant
                i <= data@.len(),
                Self::fill_valid_model(old(state)@, starting_addr, data@)
                    == Self::fill_valid_model(state@, addr, data@.skip(i as int)),
            decreases data@.len() - i,
        {
            let ghost pre = state@;
            match data[i] {
                Safe::Valid(b) => {
                    state.store_byte_raw(addr, Safe::Valid(b));
                },
                Safe::Uninitialised => {},
            }
            proof {
                assert(data@.skip(i as int).drop_first() =~= data@.skip(i as int + 1));
                assert(data@.skip(i as int)[0] == data@[i as int]);
            }
            addr = addr.wrapping_add(1);
            i = i + 1;
        }
        proof {
            assert(data@.skip(data@.len() as int) =~= Seq::<Safe<u8>>::empty());
        }
    }

    /// Builds the initial runtime from a loaded binary and a layout.
    pub fn new(binary: &Binary, layout: MemoryLayout) -> (r: Self)
        requires
            layout.wf(),
        ensures
            r.wf(),
            r.memory == layout,
            r.state@ == Self::load_model(layout, binary.text@, binary.data@),
    {
        let mut initial_state = State::new(&layout);

        Self::fill_all_state(layout.text.start, &binary.text, &mut initial_state);
        Self::fill_valid_state(layout.data_bot, &binary.data, &mut initial_state);

        proof {
            Self::lemma_fill_all_wf(
                StateModel::initial(layout),
                layout.text.start,
                binary.text@,
            );
            Self::lemma_fill_valid_wf(
                Self::fill_all_model(StateModel::initial(layout), layout.text.start, binary.text@),
                layout.data_bot,
                binary.data@,
            );
        }
        let sp = layout.stack.top - 0x30;
        initial_state.write_register(Register::Sp.to_u32(), u32_to_i32(sp));
        initial_state.write_register(Register::Fp.to_u32(), u32_to_i32(sp));
        initial_state.write_register(Register::Gp.to_u32(), u32_to_i32(layout.global.ptr));

        Runtime { state: initial_state, memory: layout }
    }

    /// Loading bytes touches neither the registers nor the layout.
    proof fn lemma_fill_all_wf(m: StateModel, addr: u32, data: Seq<Safe<u8>>)
        ensures
            Self::fill_all_model(m, addr, data).regs == m.regs,
            Self::fill_all_model(m, addr, data).layout == m.layout,
            Self::fill_all_model(m, addr, data).pc == m.pc,
            Self::fill_all_model(m, addr, data).hi == m.hi,
            Self::fill_all_model(m, addr, data).lo == m.lo,
            Self::fill_all_model(m, addr, data).heap_size == m.heap_size,
        decreases data.len(),
    {
        if data.len() > 0 {
            Self::lemma_fill_all_wf(
                m.store_byte(addr, data[0]),
                vstd::wrapping::u32_specs::wrapping_add(addr, 1),
                data.drop_first(),
            );
        }
    }

    proof fn lemma_fill_valid_wf(m: StateModel, addr: u32, data: Seq<Safe<u8>>)
        ensures
            Self::fill_valid_model(m, addr, data).regs == m.regs,
            Self::fill_valid_model(m, addr, data).layout == m.layout,
            Self::fill_valid_model(m, addr, data).pc == m.pc,
            Self::fill_valid_model(m, addr, data).hi == m.hi,
            Self::fill_valid_model(m, addr, data).lo == m.lo,
            Self::fill_valid_model(m, addr, data).heap_size == m.heap_size,
        decreases data.len(),
    {
        if data.len() > 0 {
            let m1 = if data[0] is Valid {
                m.store_byte(addr, data[0])
            } else {
                m
            };
            Self::lemma_fill_valid_wf(
                m1,
                vstd::wrapping::u32_specs::wrapping_add(addr, 1),
                data.drop_first(),
            );
        }
    }
}

} // verus!

verus! {

/// What executing one instruction word against the current state does, by
/// encoding format.
pub open spec fn inst_post(
    pre: StateModel,
    mem: MemoryLayout,
    inst: u32,
    r: Result<SteppedRuntime, (Runtime, RushError)>,
) -> bool {
    let d = decode_spec(inst);
    if d.opcode == SPECIAL || d.opcode == SPECIAL2 || d.opcode == SPECIAL3 {
        crate::exec_r::r_post(pre, mem, r, d.opcode, d.funct, d.rd, d.rs, d.rt, d.shamt)
    } else if d.opcode == JUMP || d.opcode == JAL {
        match r {
            Ok(Ok(rt2)) => rt2.memory == mem && rt2.state@.wf() && crate::exec_j::j_post(
                pre,
                rt2.state@,
                d.opcode,
                d.jaddr,
            ),
            _ => false,
        }
    } else {
        crate::exec_i::i_post(pre, mem, r, d.opcode, d.rs, d.rt, d.imm)
    }
}

/// What one step does: a fetch outside the text segment fails with an
/// execute fault, a failed fetch with `UnknownInstruction`; otherwise the
/// program counter is advanced and the fetched word is executed.
pub open spec fn step_post(
    pre: StateModel,
    mem: MemoryLayout,
    r: Result<SteppedRuntime, (Runtime, RushError)>,
) -> bool {
    if pre.seg(pre.pc) != Segment::Text {
        match r {
            Err((rt2, e)) => e == rt_err(
                Error::SegmentationFault {
                    addr: pre.pc,
                    access: SegmentationFaultAccessType::Execute,
                },
            ) && crate::syscall::rt_unchanged(rt2, pre, mem),
            _ => false,
        }
    } else {
        match pre.word_read_value(pre.pc) {
            Err(_) => match r {
                Err((rt2, e)) => e == unknown_inst_err(pre.pc) && crate::syscall::rt_unchanged(
                    rt2,
                    pre,
                    mem,
                ),
                _ => false,
            },
            Ok(inst) => inst_post(
                pre.with_pc(vstd::wrapping::u32_specs::wrapping_add(pre.pc, 4)),
                mem,
                inst,
                r,
            ),
        }
    }
}

impl Runtime {
    /// Executes one instruction word against the current state, without
    /// touching the program counter first; used for interactive injection.
    pub fn exec_inst(self, opcode: u32) -> (r: Result<SteppedRuntime, (Runtime, RushError)>)
        requires
            self.wf(),
        ensures
            inst_post(self.state@, self.memory, opcode, r),
            crate::syscall::outcome_wf(r),
    {
        self.execute_in_current_state(opcode)
    }

    /// Fetches, advances the program counter, and executes one instruction.
    /// On error the runtime rides along with the error so the host keeps
    /// inspecting state.
    pub fn step(self) -> (r: Result<SteppedRuntime, (Runtime, RushError)>)
        requires
            self.wf(),
        ensures
            step_post(self.state@, self.memory, r),
            crate::syscall::outcome_wf(r),
    {
        let segment = self.get_pc_segment();
        match segment {
            Segment::Text => {},
            _ => {
                let addr = self.state.pc();
                return Err(
                    (
                        self,
                        make_err(
                            Error::SegmentationFault {
                                addr,
                                access: SegmentationFaultAccessType::Execute,
                            },
                        ),
                    ),
                );
            },
        }
        let inst = match self.state.read_mem_pc() {
            Ok(inst) => inst,
            Err(_) => {
                let addr = self.state.pc();
                return Err((self, make_err(Error::UnknownInstruction { addr })));
            },
        };

        let mut this = self;
        this.state.step_pc();
        this.execute_in_current_state(inst)
    }

    fn execute_in_current_state(self, inst: u32) -> (r: Result<
        SteppedRuntime,
        (Runtime, RushError),
    >)
        requires
            self.wf(),
        ensures
            inst_post(self.state@, self.memory, inst, r),
            crate::syscall::outcome_wf(r),
    {
        let d = decode(inst);

        if d.opcode == SPECIAL || d.opcode == SPECIAL2 || d.opcode == SPECIAL3 {
            // R-Type
            self.execute_r(d.opcode, d.funct, d.rd, d.rs, d.rt, d.shamt)
        } else if d.opcode == JUMP || d.opcode == JAL {
            // J-Type
            let mut this = self;
            this.execute_j(d.opcode, d.jaddr);
            Ok(Ok(this))
        } else {
            // I-Type
            self.execute_i(d.opcode, d.rs, d.rt, d.imm)
        }
    }
}

} // verus!
