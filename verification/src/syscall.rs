//! The syscall marshaller and its typed guards.
//!
//! A SYSCALL instruction is turned into a guard value that owns the runtime.
//! Guards that need an answer from the host (reads, open, ...) expose a
//! one-shot `resume` method that accepts exactly the expected payload and
//! returns the runtime; the others carry the runtime ready for reuse.

use vstd::prelude::*;
use crate::bits::{u32_of_i32, i32_of_u32, i32_to_u32, u32_to_i32, trunc_8};
use crate::alu::abs_u32;
use crate::error::{Error, RushError, InvalidSyscallReason, Uninitialised, rt_err, uninit_err,
    make_err};
use crate::layout::MemoryLayout;
use crate::safe::Safe;
use crate::segment::HEAP_BOT;
use crate::state::StateModel;
use crate::register::Register;
use crate::runtime::Runtime;

verus! {

pub const SYS1_PRINT_INT: i32 = 1;

pub const SYS2_PRINT_FLOAT: i32 = 2;

pub const SYS3_PRINT_DOUBLE: i32 = 3;

pub const SYS4_PRINT_STRING: i32 = 4;

pub const SYS5_READ_INT: i32 = 5;

pub const SYS6_READ_FLOAT: i32 = 6;

pub const SYS7_READ_DOUBLE: i32 = 7;

pub const SYS8_READ_STRING: i32 = 8;

pub const SYS9_SBRK: i32 = 9;

pub const SYS10_EXIT: i32 = 10;

pub const SYS11_PRINT_CHAR: i32 = 11;

pub const SYS12_READ_CHAR: i32 = 12;

pub const SYS13_OPEN: i32 = 13;

pub const SYS14_READ: i32 = 14;

pub const SYS15_WRITE: i32 = 15;

pub const SYS16_CLOSE: i32 = 16;

pub const SYS17_EXIT_STATUS: i32 = 17;

pub struct PrintIntArgs {
    pub value: i32,
}

pub struct PrintStringArgs {
    pub value: Vec<u8>,
}

pub struct ReadStringArgs {
    pub max_len: u32,
}

pub struct SbrkArgs {
    pub bytes: i32,
}

pub struct PrintCharArgs {
    pub value: u8,
}

pub struct OpenArgs {
    pub path: Vec<u8>,
    pub flags: u32,
    pub mode: u32,
}

pub struct ReadArgs {
    pub fd: u32,
    pub len: u32,
}

pub struct WriteArgs {
    pub fd: u32,
    pub buf: Vec<u8>,
}

pub struct CloseArgs {
    pub fd: u32,
}

pub struct ExitStatusArgs {
    pub exit_code: i32,
}

/// A pending read-int syscall: resume with the integer the host read.
pub struct ReadIntGuard {
    pub runtime: Runtime,
}

/// A pending read-char syscall: resume with the byte the host read.
pub struct ReadCharGuard {
    pub runtime: Runtime,
}

/// A pending read-string syscall: resume with the bytes the host read.
pub struct ReadStringGuard {
    pub runtime: Runtime,
    pub buf: u32,
    pub max_len: u32,
}

/// A pending open syscall: resume with the descriptor the host opened.
pub struct OpenGuard {
    pub runtime: Runtime,
}

/// A pending read syscall: resume with the host's return value and bytes.
pub struct ReadGuard {
    pub runtime: Runtime,
    pub buf: u32,
    pub len: u32,
}

/// A pending write syscall: resume with the number of bytes written.
pub struct WriteGuard {
    pub runtime: Runtime,
}

/// A pending close syscall: resume with the host's status.
pub struct CloseGuard {
    pub runtime: Runtime,
}

/// The value the engine yields when the guest asks for host services.
pub enum RuntimeSyscallGuard {
    PrintInt(PrintIntArgs, Runtime),
    PrintString(PrintStringArgs, Runtime),
    ReadInt(ReadIntGuard),
    ReadString(ReadStringArgs, ReadStringGuard),
    Sbrk(SbrkArgs, Runtime),
    Exit(Runtime),
    PrintChar(PrintCharArgs, Runtime),
    ReadChar(ReadCharGuard),
    Open(OpenArgs, OpenGuard),
    Read(ReadArgs, ReadGuard),
    Write(WriteArgs, WriteGuard),
    Close(CloseArgs, CloseGuard),
    ExitStatus(ExitStatusArgs, Runtime),
    Breakpoint(Runtime),
    Trap(Runtime),
}

/// The state after a byte sequence is stored to ascending addresses,
/// skipping every address that is not writable: partial writes during
/// syscall writeback are permitted and swallowed.
pub open spec fn write_bytes_lossy(m: StateModel, buf: u32, bytes: Seq<u8>) -> StateModel
    decreases bytes.len(),
{
    if bytes.len() == 0 {
        m
    } else {
        let m1 = if m.writable(buf) {
            m.store_byte(buf, Safe::Valid(bytes[0]))
        } else {
            m
        };
        write_bytes_lossy(m1, vstd::wrapping::u32_specs::wrapping_add(buf, 1), bytes.drop_first())
    }
}

/// Storing bytes losslessly touches neither segment classification nor the
/// registers.
pub proof fn lemma_write_bytes_lossy_frame(m: StateModel, buf: u32, bytes: Seq<u8>)
    ensures
        write_bytes_lossy(m, buf, bytes).regs == m.regs,
        write_bytes_lossy(m, buf, bytes).layout == m.layout,
        write_bytes_lossy(m, buf, bytes).pc == m.pc,
        write_bytes_lossy(m, buf, bytes).hi == m.hi,
        write_bytes_lossy(m, buf, bytes).lo == m.lo,
        write_bytes_lossy(m, buf, bytes).heap_size == m.heap_size,
    decreases bytes.len(),
{
    if bytes.len() > 0 {
        let m1 = if m.writable(buf) {
            m.store_byte(buf, Safe::Valid(bytes[0]))
        } else {
            m
        };
        lemma_write_bytes_lossy_frame(
            m1,
            vstd::wrapping::u32_specs::wrapping_add(buf, 1),
            bytes.drop_first(),
        );
    }
}

/// What a read-string answer stores: at most `max_len - 1` input bytes
/// followed by a NUL.
pub open spec fn readstring_stored(input: Seq<u8>, max_len: u32) -> Seq<u8> {
    let max_bytes = max_len - 1;
    (if input.len() >= max_bytes {
        input.take(max_bytes as int)
    } else {
        input
    }) + seq![0u8]
}

/// Writes a byte sequence into guest memory at ascending addresses,
/// swallowing per-byte faults.
fn write_bytes_into(state: &mut crate::state::State, buf: u32, bytes: &Vec<u8>)
    requires
        old(state)@.wf(),
    ensures
        final(state)@ == write_bytes_lossy(old(state)@, buf, bytes@),
        final(state)@.wf(),
{
    let mut addr: u32 = buf;
    let mut i: usize = 0;
    proof {
        assert(bytes@.skip(0) =~= bytes@);
    }
    while i < bytes.len()
        invariant
            state@.wf(),
            i <= bytes@.len(),
            write_bytes_lossy(old(state)@, buf, bytes@) == write_bytes_lossy(
                state@,
                addr,
                bytes@.skip(i as int),
            ),
        decreases bytes@.len() - i,
    {
        let ghost pre = state@;
        let _ = state.write_mem_byte(addr, bytes[i]);
        proof {
            assert(bytes@.skip(i as int).drop_first() =~= bytes@.skip(i as int + 1));
            assert(bytes@.skip(i as int)[0] == bytes@[i as int]);
        }
        addr = addr.wrapping_add(1);
        i = i + 1;
    }
    proof {
        assert(bytes@.skip(bytes@.len() as int) =~= Seq::<u8>::empty());
        lemma_write_bytes_lossy_frame(old(state)@, buf, bytes@);
    }
}

impl ReadIntGuard {
    /// Hands the integer the host read back to the guest in `$v0`.
    pub fn resume(self, value: i32) -> (r: Runtime)
        requires
            self.runtime.wf(),
        ensures
            r.state@ == self.runtime.state@.with_reg(2, Safe::Valid(value)),
            r.memory == self.runtime.memory,
            r.wf(),
    {
        let mut rt = self.runtime;
        rt.state.write_register(Register::V0.to_u32(), value);
        rt
    }
}

impl ReadCharGuard {
    /// Hands the byte the host read back to the guest in `$v0`,
    /// zero-extended.
    pub fn resume(self, value: u8) -> (r: Runtime)
        requires
            self.runtime.wf(),
        ensures
            r.state@ == self.runtime.state@.with_reg(2, Safe::Valid(value as i32)),
            r.memory == self.runtime.memory,
            r.wf(),
    {
        let mut rt = self.runtime;
        rt.state.write_register(Register::V0.to_u32(), value as i32);
        rt
    }
}

impl OpenGuard {
    /// Hands the descriptor the host opened back to the guest in `$v0`.
    pub fn resume(self, fd: i32) -> (r: Runtime)
        requires
            self.runtime.wf(),
        ensures
            r.state@ == self.runtime.state@.with_reg(2, Safe::Valid(fd)),
            r.memory == self.runtime.memory,
            r.wf(),
    {
        let mut rt = self.runtime;
        rt.state.write_register(Register::V0.to_u32(), fd);
        rt
    }
}

impl WriteGuard {
    /// Hands the number of bytes the host wrote back to the guest in `$v0`.
    pub fn resume(self, written: i32) -> (r: Runtime)
        requires
            self.runtime.wf(),
        ensures
            r.state@ == self.runtime.state@.with_reg(2, Safe::Valid(written)),
            r.memory == self.runtime.memory,
            r.wf(),
    {
        let mut rt = self.runtime;
        rt.state.write_register(Register::V0.to_u32(), written);
        rt
    }
}

impl CloseGuard {
    /// Hands the host's close status back to the guest in `$v0`.
    pub fn resume(self, status: i32) -> (r: Runtime)
        requires
            self.runtime.wf(),
        ensures
            r.state@ == self.runtime.state@.with_reg(2, Safe::Valid(status)),
            r.memory == self.runtime.memory,
            r.wf(),
    {
        let mut rt = self.runtime;
        rt.state.write_register(Register::V0.to_u32(), status);
        rt
    }
}

impl ReadStringGuard {
    /// Stores the host's answer into the guest buffer: at most
    /// `max_len - 1` bytes followed by a NUL, with per-byte faults
    /// swallowed; with `max_len == 0` nothing is written.
    pub fn resume(self, string: Vec<u8>) -> (r: Runtime)
        requires
            self.runtime.wf(),
        ensures
            self.max_len == 0 ==> r.state@ == self.runtime.state@,
            self.max_len > 0 ==> r.state@ == write_bytes_lossy(
                self.runtime.state@,
                self.buf,
                readstring_stored(string@, self.max_len),
            ),
            r.memory == self.runtime.memory,
            r.wf(),
    {
        let mut rt = self.runtime;
        if self.max_len > 0 {
            let max_bytes: u32 = self.max_len - 1;
            let mut stored: Vec<u8> = Vec::new();
            let mut i: usize = 0;
            while i < string.len() && (i as u64) < (max_bytes as u64)
                invariant
                    i <= string@.len(),
                    i <= max_bytes,
                    stored@ == string@.take(i as int),
                decreases string@.len() - i,
            {
                stored.push(string[i]);
                proof {
                    assert(string@.take(i as int).push(string@[i as int]) =~= string@.take(
                        i as int + 1,
                    ));
                }
                i = i + 1;
            }
            proof {
                if string@.len() >= max_bytes {
                    assert(stored@ =~= string@.take(max_bytes as int));
                } else {
                    assert(stored@ =~= string@);
                }
            }
            stored.push(0);
            write_bytes_into(&mut rt.state, self.buf, &stored);
            proof {
                assert(stored@ =~= readstring_stored(string@, self.max_len));
                lemma_write_bytes_lossy_frame(self.runtime.state@, self.buf, stored@);
            }
        }
        rt
    }
}

impl ReadGuard {
    /// Stores the host's answer into the guest buffer: the first
    /// `min(len, bytes.len())` bytes with per-byte faults swallowed, and
    /// the host's return value in `$v0`.
    pub fn resume(self, n_bytes: i32, bytes: Vec<u8>) -> (r: Runtime)
        requires
            self.runtime.wf(),
        ensures
            r.state@ == write_bytes_lossy(
                self.runtime.state@,
                self.buf,
                bytes@.take(
                    if self.len <= bytes@.len() {
                        self.len as int
                    } else {
                        bytes@.len() as int
                    },
                ),
            ).with_reg(2, Safe::Valid(n_bytes)),
            r.memory == self.runtime.memory,
            r.wf(),
    {
        let mut rt = self.runtime;
        let count: usize = if (self.len as u64) <= (bytes.len() as u64) {
            self.len as usize
        } else {
            bytes.len()
        };
        let mut stored: Vec<u8> = Vec::new();
        let mut i: usize = 0;
        while i < count
            invariant
                count <= bytes@.len(),
                i <= count,
                stored@ == bytes@.take(i as int),
            decreases count - i,
        {
            stored.push(bytes[i]);
            proof {
                assert(bytes@.take(i as int).push(bytes@[i as int]) =~= bytes@.take(i as int + 1));
            }
            i = i + 1;
        }
        write_bytes_into(&mut rt.state, self.buf, &stored);
        proof {
            lemma_write_bytes_lossy_frame(self.runtime.state@, self.buf, stored@);
        }
        rt.state.write_register(Register::V0.to_u32(), n_bytes);
        rt
    }
}

} // verus!

verus! {

/// The guard or error carries the runtime with this exact state.
pub open spec fn rt_unchanged(rt: Runtime, pre: StateModel, mem: MemoryLayout) -> bool {
    &&& rt.state@ == pre
    &&& rt.memory == mem
}

/// The marshaller failed with `e`, handing back the runtime unchanged.
pub open spec fn sys_err(
    pre: StateModel,
    mem: MemoryLayout,
    r: Result<RuntimeSyscallGuard, (Runtime, RushError)>,
    e: RushError,
) -> bool {
    match r {
        Err((rt, e2)) => e2 == e && rt_unchanged(rt, pre, mem),
        _ => false,
    }
}

/// The new heap size after an SBRK request: positive requests saturate-add,
/// negative requests saturate-subtract.
pub open spec fn sbrk_new_heap(h: u32, bytes: i32) -> u32 {
    if bytes > 0 {
        if h + bytes > 0xFFFF_FFFF {
            0xFFFF_FFFFu32
        } else {
            (h + bytes) as u32
        }
    } else if bytes < 0 {
        let a = crate::alu::abs_spec(bytes);
        if h < a {
            0u32
        } else {
            (h - a) as u32
        }
    } else {
        h
    }
}

/// What the syscall marshaller does, by the number in `$v0`: which guard is
/// produced, with which arguments, and which state it carries.
pub open spec fn syscall_post(
    pre: StateModel,
    mem: MemoryLayout,
    r: Result<RuntimeSyscallGuard, (Runtime, RushError)>,
) -> bool {
    if !pre.reg_ok(2) {
        sys_err(pre, mem, r, uninit_err(Uninitialised::Register))
    } else {
        let sys = pre.reg_val(2);
        if sys == SYS1_PRINT_INT {
            if !pre.reg_ok(4) {
                sys_err(pre, mem, r, uninit_err(Uninitialised::Register))
            } else {
                match r {
                    Ok(RuntimeSyscallGuard::PrintInt(args, rt)) => args.value == pre.reg_val(4)
                        && rt_unchanged(rt, pre, mem),
                    _ => false,
                }
            }
        } else if sys == SYS2_PRINT_FLOAT || sys == SYS3_PRINT_DOUBLE || sys == SYS6_READ_FLOAT
            || sys == SYS7_READ_DOUBLE {
            sys_err(
                pre,
                mem,
                r,
                rt_err(
                    Error::InvalidSyscall { syscall: sys, reason: InvalidSyscallReason::Unimplemented },
                ),
            )
        } else if sys == SYS4_PRINT_STRING {
            if !pre.reg_ok(4) {
                sys_err(pre, mem, r, uninit_err(Uninitialised::Register))
            } else {
                match pre.string_from(u32_of_i32(pre.reg_val(4))) {
                    Err(e) => sys_err(pre, mem, r, e),
                    Ok(s) => match r {
                        Ok(RuntimeSyscallGuard::PrintString(args, rt)) => args.value@ == s
                            && rt_unchanged(rt, pre, mem),
                        _ => false,
                    },
                }
            }
        } else if sys == SYS5_READ_INT {
            match r {
                Ok(RuntimeSyscallGuard::ReadInt(g)) => rt_unchanged(g.runtime, pre, mem),
                _ => false,
            }
        } else if sys == SYS8_READ_STRING {
            if !pre.reg_ok(4) {
                sys_err(pre, mem, r, uninit_err(Uninitialised::Register))
            } else if !pre.reg_ok(5) {
                sys_err(pre, mem, r, uninit_err(Uninitialised::Register))
            } else {
                match r {
                    Ok(RuntimeSyscallGuard::ReadString(args, g)) => {
                        &&& args.max_len == u32_of_i32(pre.reg_val(5))
                        &&& g.buf == u32_of_i32(pre.reg_val(4))
                        &&& g.max_len == u32_of_i32(pre.reg_val(5))
                        &&& rt_unchanged(g.runtime, pre, mem)
                    },
                    _ => false,
                }
            }
        } else if sys == SYS9_SBRK {
            if !pre.reg_ok(4) {
                sys_err(pre, mem, r, uninit_err(Uninitialised::Register))
            } else {
                let bytes = pre.reg_val(4);
                let m1 = pre.with_reg(
                    2,
                    Safe::Valid(
                        i32_of_u32(vstd::wrapping::u32_specs::wrapping_add(HEAP_BOT, pre.heap_size)),
                    ),
                ).with_heap_size(sbrk_new_heap(pre.heap_size, bytes));
                match r {
                    Ok(RuntimeSyscallGuard::Sbrk(args, rt)) => args.bytes == bytes && rt.state@
                        == m1 && rt.memory == mem,
                    _ => false,
                }
            }
        } else if sys == SYS10_EXIT {
            match r {
                Ok(RuntimeSyscallGuard::Exit(rt)) => rt_unchanged(rt, pre, mem),
                _ => false,
            }
        } else if sys == SYS11_PRINT_CHAR {
            if !pre.reg_ok(4) {
                sys_err(pre, mem, r, uninit_err(Uninitialised::Register))
            } else {
                match r {
                    Ok(RuntimeSyscallGuard::PrintChar(args, rt)) => args.value == trunc_8(
                        pre.reg_val(4),
                    ) && rt_unchanged(rt, pre, mem),
                    _ => false,
                }
            }
        } else if sys == SYS12_READ_CHAR {
            match r {
                Ok(RuntimeSyscallGuard::ReadChar(g)) => rt_unchanged(g.runtime, pre, mem),
                _ => false,
            }
        } else if sys == SYS13_OPEN {
            if !pre.reg_ok(4) {
                sys_err(pre, mem, r, uninit_err(Uninitialised::Register))
            } else {
                match pre.string_from(u32_of_i32(pre.reg_val(4))) {
                    Err(e) => sys_err(pre, mem, r, e),
                    Ok(s) => if !pre.reg_ok(5) || !pre.reg_ok(6) {
                        sys_err(pre, mem, r, uninit_err(Uninitialised::Register))
                    } else {
                        match r {
                            Ok(RuntimeSyscallGuard::Open(args, g)) => {
                                &&& args.path@ == s
                                &&& args.flags == u32_of_i32(pre.reg_val(5))
                                &&& args.mode == u32_of_i32(pre.reg_val(6))
                                &&& rt_unchanged(g.runtime, pre, mem)
                            },
                            _ => false,
                        }
                    },
                }
            }
        } else if sys == SYS14_READ {
            if !pre.reg_ok(4) || !pre.reg_ok(5) || !pre.reg_ok(6) {
                sys_err(pre, mem, r, uninit_err(Uninitialised::Register))
            } else {
                match r {
                    Ok(RuntimeSyscallGuard::Read(args, g)) => {
                        &&& args.fd == u32_of_i32(pre.reg_val(4))
                        &&& args.len == u32_of_i32(pre.reg_val(6))
                        &&& g.buf == u32_of_i32(pre.reg_val(5))
                        &&& g.len == u32_of_i32(pre.reg_val(6))
                        &&& rt_unchanged(g.runtime, pre, mem)
                    },
                    _ => false,
                }
            }
        } else if sys == SYS15_WRITE {
            if !pre.reg_ok(4) || !pre.reg_ok(5) || !pre.reg_ok(6) {
                sys_err(pre, mem, r, uninit_err(Uninitialised::Register))
            } else {
                match pre.bytes_from(u32_of_i32(pre.reg_val(5)), u32_of_i32(pre.reg_val(6))) {
                    Err(e) => sys_err(pre, mem, r, e),
                    Ok(s) => match r {
                        Ok(RuntimeSyscallGuard::Write(args, g)) => {
                            &&& args.fd == u32_of_i32(pre.reg_val(4))
                            &&& args.buf@ == s
                            &&& rt_unchanged(g.runtime, pre, mem)
                        },
                        _ => false,
                    },
                }
            }
        } else if sys == SYS16_CLOSE {
            if !pre.reg_ok(4) {
                sys_err(pre, mem, r, uninit_err(Uninitialised::Register))
            } else {
                match r {
                    Ok(RuntimeSyscallGuard::Close(args, g)) => args.fd == u32_of_i32(pre.reg_val(4))
                        && rt_unchanged(g.runtime, pre, mem),
                    _ => false,
                }
            }
        } else if sys == SYS17_EXIT_STATUS {
            let code = if pre.reg_ok(4) {
                pre.reg_val(4)
            } else {
                0i32
            };
            match r {
                Ok(RuntimeSyscallGuard::ExitStatus(args, rt)) => args.exit_code == code
                    && rt_unchanged(rt, pre, mem),
                _ => false,
            }
        } else {
            sys_err(
                pre,
                mem,
                r,
                rt_err(Error::InvalidSyscall { syscall: sys, reason: InvalidSyscallReason::Unknown }),
            )
        }
    }
}


/// The state carried by a guard, wherever the runtime sits in it.
pub open spec fn guard_state(g: RuntimeSyscallGuard) -> StateModel {
    match g {
        RuntimeSyscallGuard::PrintInt(_, rt) => rt.state@,
        RuntimeSyscallGuard::PrintString(_, rt) => rt.state@,
        RuntimeSyscallGuard::ReadInt(g) => g.runtime.state@,
        RuntimeSyscallGuard::ReadString(_, g) => g.runtime.state@,
        RuntimeSyscallGuard::Sbrk(_, rt) => rt.state@,
        RuntimeSyscallGuard::Exit(rt) => rt.state@,
        RuntimeSyscallGuard::PrintChar(_, rt) => rt.state@,
        RuntimeSyscallGuard::ReadChar(g) => g.runtime.state@,
        RuntimeSyscallGuard::Open(_, g) => g.runtime.state@,
        RuntimeSyscallGuard::Read(_, g) => g.runtime.state@,
        RuntimeSyscallGuard::Write(_, g) => g.runtime.state@,
        RuntimeSyscallGuard::Close(_, g) => g.runtime.state@,
        RuntimeSyscallGuard::ExitStatus(_, rt) => rt.state@,
        RuntimeSyscallGuard::Breakpoint(rt) => rt.state@,
        RuntimeSyscallGuard::Trap(rt) => rt.state@,
    }
}

/// Every state a step hands back, directly or inside a guard, is
/// well-formed.
pub open spec fn outcome_wf(r: Result<crate::runtime::SteppedRuntime, (Runtime, RushError)>)
    -> bool {
    match r {
        Ok(Ok(rt)) => rt.state@.wf(),
        Ok(Err(g)) => guard_state(g).wf(),
        Err((rt, _)) => rt.state@.wf(),
    }
}

impl Runtime {
    /// Converts a SYSCALL instruction into a typed guard, transferring
    /// ownership of the runtime; for SBRK the heap bookkeeping and `$v0`
    /// are updated before yielding.
    pub(crate) fn syscall(self) -> (r: Result<RuntimeSyscallGuard, (Runtime, RushError)>)
        requires
            self.wf(),
        ensures
            syscall_post(self.state@, self.memory, r),
            (match r {
                Ok(g) => guard_state(g).wf(),
                Err((rt, _)) => rt.state@.wf(),
            }),
    {
        let mut this = self;
        let syscall = match this.state.read_register(Register::V0.to_u32()) {
            Ok(v) => v,
            Err(e) => { return Err((this, e)); },
        };

        match syscall {
            SYS1_PRINT_INT => {
                let value = match this.state.read_register(Register::A0.to_u32()) {
                    Ok(v) => v,
                    Err(e) => { return Err((this, e)); },
                };
                Ok(RuntimeSyscallGuard::PrintInt(PrintIntArgs { value }, this))
            },
            SYS2_PRINT_FLOAT | SYS3_PRINT_DOUBLE | SYS6_READ_FLOAT | SYS7_READ_DOUBLE => {
                Err(
                    (
                        this,
                        make_err(
                            Error::InvalidSyscall {
                                syscall,
                                reason: InvalidSyscallReason::Unimplemented,
                            },
                        ),
                    ),
                )
            },
            SYS4_PRINT_STRING => {
                let addr = match this.state.read_register(Register::A0.to_u32()) {
                    Ok(v) => v,
                    Err(e) => { return Err((this, e)); },
                };
                let value = match this.state.read_mem_string(i32_to_u32(addr)) {
                    Ok(v) => v,
                    Err(e) => { return Err((this, e)); },
                };
                Ok(RuntimeSyscallGuard::PrintString(PrintStringArgs { value }, this))
            },
            SYS5_READ_INT => Ok(RuntimeSyscallGuard::ReadInt(ReadIntGuard { runtime: this })),
            SYS8_READ_STRING => {
                let buf = match this.state.read_register(Register::A0.to_u32()) {
                    Ok(v) => v,
                    Err(e) => { return Err((this, e)); },
                };
                let len = match this.state.read_register(Register::A1.to_u32()) {
                    Ok(v) => v,
                    Err(e) => { return Err((this, e)); },
                };
                Ok(
                    RuntimeSyscallGuard::ReadString(
                        ReadStringArgs { max_len: i32_to_u32(len) },
                        ReadStringGuard {
                            runtime: this,
                            buf: i32_to_u32(buf),
                            max_len: i32_to_u32(len),
                        },
                    ),
                )
            },
            SYS9_SBRK => {
                let bytes = match this.state.read_register(Register::A0.to_u32()) {
                    Ok(v) => v,
                    Err(e) => { return Err((this, e)); },
                };
                let heap_size = this.state.heap_size();

                this.state.write_register(Register::V0.to_u32(), u32_to_i32(HEAP_BOT.wrapping_add(heap_size)));

                let new_heap_size = if bytes > 0 {
                    heap_size.saturating_add(bytes as u32)
                } else if bytes < 0 {
                    heap_size.saturating_sub(abs_u32(bytes))
                } else {
                    heap_size
                };
                this.state.set_heap_size(new_heap_size);

                Ok(RuntimeSyscallGuard::Sbrk(SbrkArgs { bytes }, this))
            },
            SYS10_EXIT => Ok(RuntimeSyscallGuard::Exit(this)),
            SYS11_PRINT_CHAR => {
                let v = match this.state.read_register(Register::A0.to_u32()) {
                    Ok(v) => v,
                    Err(e) => { return Err((this, e)); },
                };
                Ok(RuntimeSyscallGuard::PrintChar(PrintCharArgs { value: crate::bits::truncate_8(v) }, this))
            },
            SYS12_READ_CHAR => Ok(RuntimeSyscallGuard::ReadChar(ReadCharGuard { runtime: this })),
            SYS13_OPEN => {
                let addr = match this.state.read_register(Register::A0.to_u32()) {
                    Ok(v) => v,
                    Err(e) => { return Err((this, e)); },
                };
                let path = match this.state.read_mem_string(i32_to_u32(addr)) {
                    Ok(v) => v,
                    Err(e) => { return Err((this, e)); },
                };
                let flags = match this.state.read_register(Register::A1.to_u32()) {
                    Ok(v) => v,
                    Err(e) => { return Err((this, e)); },
                };
                let mode = match this.state.read_register(Register::A2.to_u32()) {
                    Ok(v) => v,
                    Err(e) => { return Err((this, e)); },
                };
                Ok(
                    RuntimeSyscallGuard::Open(
                        OpenArgs { path, flags: i32_to_u32(flags), mode: i32_to_u32(mode) },
                        OpenGuard { runtime: this },
                    ),
                )
            },
            SYS14_READ => {
                let fd = match this.state.read_register(Register::A0.to_u32()) {
                    Ok(v) => v,
                    Err(e) => { return Err((this, e)); },
                };
                let buf = match this.state.read_register(Register::A1.to_u32()) {
                    Ok(v) => v,
                    Err(e) => { return Err((this, e)); },
                };
                let len = match this.state.read_register(Register::A2.to_u32()) {
                    Ok(v) => v,
                    Err(e) => { return Err((this, e)); },
                };
                Ok(
                    RuntimeSyscallGuard::Read(
                        ReadArgs { fd: i32_to_u32(fd), len: i32_to_u32(len) },
                        ReadGuard { runtime: this, buf: i32_to_u32(buf), len: i32_to_u32(len) },
                    ),
                )
            },
            SYS15_WRITE => {
                let fd = match this.state.read_register(Register::A0.to_u32()) {
                    Ok(v) => v,
                    Err(e) => { return Err((this, e)); },
                };
                let buf = match this.state.read_register(Register::A1.to_u32()) {
                    Ok(v) => v,
                    Err(e) => { return Err((this, e)); },
                };
                let len = match this.state.read_register(Register::A2.to_u32()) {
                    Ok(v) => v,
                    Err(e) => { return Err((this, e)); },
                };
                let bytes = match this.state.read_mem_bytes(i32_to_u32(buf), i32_to_u32(len)) {
                    Ok(v) => v,
                    Err(e) => { return Err((this, e)); },
                };
                Ok(
                    RuntimeSyscallGuard::Write(
                        WriteArgs { fd: i32_to_u32(fd), buf: bytes },
                        WriteGuard { runtime: this },
                    ),
                )
            },
            SYS16_CLOSE => {
                let fd = match this.state.read_register(Register::A0.to_u32()) {
                    Ok(v) => v,
                    Err(e) => { return Err((this, e)); },
                };
                Ok(
                    RuntimeSyscallGuard::Close(
                        CloseArgs { fd: i32_to_u32(fd) },
                        CloseGuard { runtime: this },
                    ),
                )
            },
            SYS17_EXIT_STATUS => {
                let exit_code = match this.state.read_register_uninit(Register::A0.to_u32()).into_option() {
                    Some(v) => v,
                    None => 0,
                };
                Ok(RuntimeSyscallGuard::ExitStatus(ExitStatusArgs { exit_code }, this))
            },
            _ => {
                Err(
                    (
                        this,
                        make_err(
                            Error::InvalidSyscall { syscall, reason: InvalidSyscallReason::Unknown },
                        ),
                    ),
                )
            },
        }
    }
}

} // verus!
