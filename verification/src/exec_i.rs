//! The I-type executor: relative branches (with and without linking),
//! immediate arithmetic and logic, LUI, the load and store family with
//! initialisation-preserving paths, and the immediate trap instructions.

use vstd::prelude::*;
use vstd::wrapping::i32_specs;
use crate::alu::checked_add;
use crate::bits::{u32_of_i32, i32_of_u32, i32_to_u32, u32_to_i32, sign_ext_16, i16_of_u16,
    u16_to_i16, extend_sign_16};
use crate::error::{Error, RushError, RushResult, Uninitialised, rt_err, uninit_err, make_err};
use crate::register::Register;
use crate::runtime::{Runtime, SteppedRuntime, SPECIAL, SPECIAL2, SPECIAL3};
use crate::safe::{Safe, safe_sign_ext_8, safe_sign_ext_16, safe_sign_ext_32, safe_zero_ext_8,
    safe_zero_ext_16, safe_trunc_8, safe_trunc_16, safe_trunc_32};
use crate::state::{State, StateModel};
use crate::exec_r::{failed_reg, failed_unknown, wrote_rd};
use crate::layout::MemoryLayout;
use crate::syscall::{RuntimeSyscallGuard, rt_unchanged};

verus! {

/// The effective address of a load or store: the base register plus the
/// sign-extended immediate, wrapping.
pub open spec fn ea_spec(base: i32, imm: u16) -> u32 {
    u32_of_i32(i32_specs::wrapping_add(base, sign_ext_16(imm)))
}

/// A branch on a one-register predicate: taken branches add the shifted
/// immediate to the already advanced program counter.
pub open spec fn branch1_post(
    pre: StateModel,
    post: StateModel,
    r: RushResult<()>,
    rs: u32,
    imm: u16,
    taken: spec_fn(i32) -> bool,
) -> bool {
    if pre.reg_ok(rs) {
        if taken(pre.reg_val(rs)) {
            r is Ok && post == pre.with_pc(State::branch_target(pre.pc, i16_of_u16(imm)))
        } else {
            r is Ok && post == pre
        }
    } else {
        failed_reg(pre, post, r)
    }
}

/// An immediate ALU operation writing `f(rs)` to `rt`.
pub open spec fn alui_post(
    pre: StateModel,
    post: StateModel,
    r: RushResult<()>,
    rt: u32,
    rs: u32,
    f: spec_fn(i32) -> i32,
) -> bool {
    if pre.reg_ok(rs) {
        wrote_rd(pre, post, r, rt, f(pre.reg_val(rs)))
    } else {
        failed_reg(pre, post, r)
    }
}

/// A load writing a tagged value to `rt`: the base register is read, then
/// memory, then the register is written with the tag preserved.
pub open spec fn load_post(
    pre: StateModel,
    post: StateModel,
    r: RushResult<()>,
    rt: u32,
    rs: u32,
    imm: u16,
    read: spec_fn(StateModel, u32) -> RushResult<Safe<i32>>,
) -> bool {
    if pre.reg_ok(rs) {
        match read(pre, ea_spec(pre.reg_val(rs), imm)) {
            Ok(v) => r is Ok && post == pre.with_reg(rt as int, v),
            Err(e) => r == RushResult::<()>::Err(e) && post == pre,
        }
    } else {
        failed_reg(pre, post, r)
    }
}

/// What the non-trapping I-type executor does, by opcode.
pub open spec fn i_nontrap_post(
    pre: StateModel,
    post: StateModel,
    r: RushResult<()>,
    opcode: u32,
    rs: u32,
    rt: u32,
    imm: u16,
) -> bool {
    if opcode == 0x01 {
        if rt == 0x00 {
            // BLTZ
            branch1_post(pre, post, r, rs, imm, |v: i32| v < 0)
        } else if rt == 0x01 {
            // BGEZ
            branch1_post(pre, post, r, rs, imm, |v: i32| v >= 0)
        } else if rt == 0x10 || rt == 0x11 {
            // BLTZAL / BGEZAL: the link register is written before the
            // predicate register is read.
            let mid = pre.with_reg(31, Safe::Valid(i32_of_u32(pre.pc)));
            if mid.reg_ok(rs) {
                if (rt == 0x10 && mid.reg_val(rs) < 0) || (rt == 0x11 && mid.reg_val(rs) >= 0) {
                    r is Ok && post == mid.with_pc(State::branch_target(mid.pc, i16_of_u16(imm)))
                } else {
                    r is Ok && post == mid
                }
            } else {
                r == RushResult::<()>::Err(uninit_err(Uninitialised::Register)) && post == mid
            }
        } else {
            failed_unknown(pre, post, r)
        }
    } else if opcode == 0x04 {
        // BEQ
        if pre.reg_ok(rs) && pre.reg_ok(rt) {
            if pre.reg_val(rs) == pre.reg_val(rt) {
                r is Ok && post == pre.with_pc(State::branch_target(pre.pc, i16_of_u16(imm)))
            } else {
                r is Ok && post == pre
            }
        } else {
            failed_reg(pre, post, r)
        }
    } else if opcode == 0x05 {
        // BNE
        if pre.reg_ok(rs) && pre.reg_ok(rt) {
            if pre.reg_val(rs) != pre.reg_val(rt) {
                r is Ok && post == pre.with_pc(State::branch_target(pre.pc, i16_of_u16(imm)))
            } else {
                r is Ok && post == pre
            }
        } else {
            failed_reg(pre, post, r)
        }
    } else if opcode == 0x06 {
        // BLEZ
        branch1_post(pre, post, r, rs, imm, |v: i32| v <= 0)
    } else if opcode == 0x07 {
        // BGTZ
        branch1_post(pre, post, r, rs, imm, |v: i32| v > 0)
    } else if opcode == 0x08 {
        // ADDI
        if pre.reg_ok(rs) {
            let s = pre.reg_val(rs) + sign_ext_16(imm);
            if i32::MIN <= s <= i32::MAX {
                wrote_rd(pre, post, r, rt, s as i32)
            } else {
                r == RushResult::<()>::Err(rt_err(Error::IntegerOverflow)) && post == pre
            }
        } else {
            failed_reg(pre, post, r)
        }
    } else if opcode == 0x09 {
        // ADDIU
        alui_post(pre, post, r, rt, rs, |v: i32| i32_specs::wrapping_add(v, sign_ext_16(imm)))
    } else if opcode == 0x0A {
        // SLTI
        alui_post(
            pre,
            post,
            r,
            rt,
            rs,
            |v: i32|
                if v < sign_ext_16(imm) {
                    1i32
                } else {
                    0i32
                },
        )
    } else if opcode == 0x0B {
        // SLTIU
        alui_post(
            pre,
            post,
            r,
            rt,
            rs,
            |v: i32|
                if u32_of_i32(v) < u32_of_i32(sign_ext_16(imm)) {
                    1i32
                } else {
                    0i32
                },
        )
    } else if opcode == 0x0C {
        // ANDI
        alui_post(pre, post, r, rt, rs, |v: i32| v & (imm as i32))
    } else if opcode == 0x0D {
        // ORI
        alui_post(pre, post, r, rt, rs, |v: i32| v | (imm as i32))
    } else if opcode == 0x0E {
        // XORI
        alui_post(pre, post, r, rt, rs, |v: i32| v ^ (imm as i32))
    } else if opcode == 0x0F {
        // LUI
        r is Ok && post == pre.with_reg(
            rt as int,
            Safe::Valid(i32_of_u32((imm * 0x1_0000) as u32)),
        )
    } else if opcode == 0x20 {
        // LB
        load_post(
            pre,
            post,
            r,
            rt,
            rs,
            imm,
            |m: StateModel, a: u32|
                match m.byte_read_result(a) {
                    Ok(b) => Ok(safe_sign_ext_8(b)),
                    Err(e) => Err(e),
                },
        )
    } else if opcode == 0x21 {
        // LH
        load_post(
            pre,
            post,
            r,
            rt,
            rs,
            imm,
            |m: StateModel, a: u32|
                match m.half_read_result(a) {
                    Ok(h) => Ok(safe_sign_ext_16(h)),
                    Err(e) => Err(e),
                },
        )
    } else if opcode == 0x23 {
        // LW
        load_post(
            pre,
            post,
            r,
            rt,
            rs,
            imm,
            |m: StateModel, a: u32|
                match m.word_read_result(a) {
                    Ok(w) => Ok(safe_sign_ext_32(w)),
                    Err(e) => Err(e),
                },
        )
    } else if opcode == 0x24 {
        // LBU
        load_post(
            pre,
            post,
            r,
            rt,
            rs,
            imm,
            |m: StateModel, a: u32|
                match m.byte_read_result(a) {
                    Ok(b) => Ok(safe_zero_ext_8(b)),
                    Err(e) => Err(e),
                },
        )
    } else if opcode == 0x25 {
        // LHU
        load_post(
            pre,
            post,
            r,
            rt,
            rs,
            imm,
            |m: StateModel, a: u32|
                match m.half_read_result(a) {
                    Ok(h) => Ok(safe_zero_ext_16(h)),
                    Err(e) => Err(e),
                },
        )
    } else if opcode == 0x28 {
        // SB
        if pre.reg_ok(rs) {
            match pre.byte_write_result(
                ea_spec(pre.reg_val(rs), imm),
                safe_trunc_8(pre.reg(rt as int)),
            ) {
                Ok(m) => r is Ok && post == m,
                Err(e) => r == RushResult::<()>::Err(e) && post == pre,
            }
        } else {
            failed_reg(pre, post, r)
        }
    } else if opcode == 0x29 {
        // SH
        if pre.reg_ok(rs) {
            match pre.half_write_result(
                ea_spec(pre.reg_val(rs), imm),
                safe_trunc_16(pre.reg(rt as int)),
            ) {
                Ok(m) => r is Ok && post == m,
                Err(e) => r == RushResult::<()>::Err(e) && post == pre,
            }
        } else {
            failed_reg(pre, post, r)
        }
    } else if opcode == 0x2B {
        // SW
        if pre.reg_ok(rs) {
            match pre.word_write_result(
                ea_spec(pre.reg_val(rs), imm),
                safe_trunc_32(pre.reg(rt as int)),
            ) {
                Ok(m) => r is Ok && post == m,
                Err(e) => r == RushResult::<()>::Err(e) && post == pre,
            }
        } else {
            failed_reg(pre, post, r)
        }
    } else if opcode == 0x22 || opcode == 0x26 || opcode == 0x31 || opcode == 0x39 {
        // LWL / LWR / LWC1 / SWC1 are recognised but not implemented.
        failed_unknown(pre, post, r)
    } else {
        // The remaining opcodes are unused: no effect.
        r is Ok && post == pre
    }
}

/// Whether an immediate trap's predicate holds.
pub open spec fn trapi_taken(rt: u32, a: i32, imm: u16) -> bool {
    if rt == 0x08 {
        a >= sign_ext_16(imm)
    } else if rt == 0x09 {
        u32_of_i32(a) >= u32_of_i32(sign_ext_16(imm))
    } else if rt == 0x0A {
        a < sign_ext_16(imm)
    } else if rt == 0x0B {
        u32_of_i32(a) < u32_of_i32(sign_ext_16(imm))
    } else if rt == 0x0C {
        a == sign_ext_16(imm)
    } else {
        a != sign_ext_16(imm)
    }
}

/// What the I-type executor does: the immediate trap family, and the
/// non-trapping remainder.
pub open spec fn i_post(
    pre: StateModel,
    mem: MemoryLayout,
    r: Result<SteppedRuntime, (Runtime, RushError)>,
    opcode: u32,
    rs: u32,
    rt: u32,
    imm: u16,
) -> bool {
    if opcode == 0x01 && (rt == 0x08 || rt == 0x09 || rt == 0x0A || rt == 0x0B || rt == 0x0C || rt
        == 0x0E) {
        if pre.reg_ok(rs) {
            if trapi_taken(rt, pre.reg_val(rs), imm) {
                match r {
                    Ok(Err(RuntimeSyscallGuard::Trap(rt2))) => rt_unchanged(rt2, pre, mem),
                    _ => false,
                }
            } else {
                match r {
                    Ok(Ok(rt2)) => rt_unchanged(rt2, pre, mem),
                    _ => false,
                }
            }
        } else {
            match r {
                Err((rt2, e)) => e == uninit_err(Uninitialised::Register) && rt_unchanged(
                    rt2,
                    pre,
                    mem,
                ),
                _ => false,
            }
        }
    } else {
        match r {
            Ok(Ok(rt2)) => rt2.memory == mem && rt2.state@.wf() && i_nontrap_post(
                pre,
                rt2.state@,
                Ok(()),
                opcode,
                rs,
                rt,
                imm,
            ),
            Err((rt2, e)) => rt2.memory == mem && rt2.state@.wf() && i_nontrap_post(
                pre,
                rt2.state@,
                RushResult::<()>::Err(e),
                opcode,
                rs,
                rt,
                imm,
            ),
            Ok(Err(_)) => false,
        }
    }
}

impl Runtime {
    /// Executes a non-trapping I-type instruction against the current state.
    pub(crate) fn execute_non_trapping_i(&mut self, opcode: u32, rs: u32, rt: u32, imm: u16) -> (r:
        RushResult<()>)
        requires
            old(self).wf(),
            opcode != SPECIAL && opcode != SPECIAL2 && opcode != SPECIAL3,
            opcode < 64,
            rs < 32,
            rt < 32,
        ensures
            final(self).wf(),
            final(self).memory == old(self).memory,
            i_nontrap_post(old(self).state@, final(self).state@, r, opcode, rs, rt, imm),
    {
        match opcode {
            0x01 => {
                match rt {
                    // BLTZ
                    0x00 => {
                        if self.state.read_register(rs)? < 0 {
                            self.state.branch(u16_to_i16(imm));
                        }
                    },
                    // BGEZ
                    0x01 => {
                        if self.state.read_register(rs)? >= 0 {
                            self.state.branch(u16_to_i16(imm));
                        }
                    },
                    // BLTZAL
                    0x10 => {
                        let pc = self.state.pc();
                        self.state.write_register(Register::Ra.to_u32(), u32_to_i32(pc));
                        if self.state.read_register(rs)? < 0 {
                            self.state.branch(u16_to_i16(imm));
                        }
                    },
                    // BGEZAL
                    0x11 => {
                        let pc = self.state.pc();
                        self.state.write_register(Register::Ra.to_u32(), u32_to_i32(pc));
                        if self.state.read_register(rs)? >= 0 {
                            self.state.branch(u16_to_i16(imm));
                        }
                    },
                    _ => {
                        return Err(make_err(Error::UnknownInstruction { addr: self.state.pc() }));
                    },
                }
            },
            // BEQ
            0x04 => {
                if self.state.read_register(rs)? == self.state.read_register(rt)? {
                    self.state.branch(u16_to_i16(imm));
                }
            },
            // BNE
            0x05 => {
                if self.state.read_register(rs)? != self.state.read_register(rt)? {
                    self.state.branch(u16_to_i16(imm));
                }
            },
            // BLEZ
            0x06 => {
                if self.state.read_register(rs)? <= 0 {
                    self.state.branch(u16_to_i16(imm));
                }
            },
            // BGTZ
            0x07 => {
                if self.state.read_register(rs)? > 0 {
                    self.state.branch(u16_to_i16(imm));
                }
            },
            // ADDI
            0x08 => {
                let a = self.state.read_register(rs)?;
                let v = checked_add(a, extend_sign_16(imm))?;
                self.state.write_register(rt, v);
            },
            // ADDIU
            0x09 => {
                let a = self.state.read_register(rs)?;
                self.state.write_register(rt, a.wrapping_add(extend_sign_16(imm)));
            },
            // SLTI
            0x0A => {
                if self.state.read_register(rs)? < extend_sign_16(imm) {
                    self.state.write_register(rt, 1);
                } else {
                    self.state.write_register(rt, 0);
                }
            },
            // SLTIU
            0x0B => {
                if i32_to_u32(self.state.read_register(rs)?) < i32_to_u32(extend_sign_16(imm)) {
                    self.state.write_register(rt, 1);
                } else {
                    self.state.write_register(rt, 0);
                }
            },
            // ANDI
            0x0C => {
                let a = self.state.read_register(rs)?;
                self.state.write_register(rt, a & (imm as i32));
            },
            // ORI
            0x0D => {
                let a = self.state.read_register(rs)?;
                self.state.write_register(rt, a | (imm as i32));
            },
            // XORI
            0x0E => {
                let a = self.state.read_register(rs)?;
                self.state.write_register(rt, a ^ (imm as i32));
            },
            // LUI
            0x0F => {
                self.state.write_register(rt, u32_to_i32((imm as u32) * 0x1_0000));
            },
            // LB
            0x20 => {
                let base = self.state.read_register(rs)?;
                let b = self.state.read_mem_byte_uninit(
                    i32_to_u32(base.wrapping_add(extend_sign_16(imm))),
                )?;
                self.state.write_register_uninit(rt, b.extend_sign());
            },
            // LH
            0x21 => {
                let base = self.state.read_register(rs)?;
                let h = self.state.read_mem_half_uninit(
                    i32_to_u32(base.wrapping_add(extend_sign_16(imm))),
                )?;
                self.state.write_register_uninit(rt, h.extend_sign());
            },
            // LW
            0x23 => {
                let base = self.state.read_register(rs)?;
                let w = self.state.read_mem_word_uninit(
                    i32_to_u32(base.wrapping_add(extend_sign_16(imm))),
                )?;
                self.state.write_register_uninit(rt, w.extend_sign());
            },
            // LBU
            0x24 => {
                let base = self.state.read_register(rs)?;
                let b = self.state.read_mem_byte_uninit(
                    i32_to_u32(base.wrapping_add(extend_sign_16(imm))),
                )?;
                self.state.write_register_uninit(rt, b.extend_zero());
            },
            // LHU
            0x25 => {
                let base = self.state.read_register(rs)?;
                let h = self.state.read_mem_half_uninit(
                    i32_to_u32(base.wrapping_add(extend_sign_16(imm))),
                )?;
                self.state.write_register_uninit(rt, h.extend_zero());
            },
            // SB
            0x28 => {
                let base = self.state.read_register(rs)?;
                let v = self.state.read_register_uninit(rt).truncate_byte();
                self.state.write_mem_byte_uninit(
                    i32_to_u32(base.wrapping_add(extend_sign_16(imm))),
                    v,
                )?;
            },
            // SH
            0x29 => {
                let base = self.state.read_register(rs)?;
                let v = self.state.read_register_uninit(rt).truncate_half();
                self.state.write_mem_half_uninit(
                    i32_to_u32(base.wrapping_add(extend_sign_16(imm))),
                    v,
                )?;
            },
            // SW
            0x2B => {
                let base = self.state.read_register(rs)?;
                let v = self.state.read_register_uninit(rt).truncate_word();
                self.state.write_mem_word_uninit(
                    i32_to_u32(base.wrapping_add(extend_sign_16(imm))),
                    v,
                )?;
            },
            // LWL / LWR / LWC1 / SWC1 are recognised but not implemented.
            0x22 | 0x26 | 0x31 | 0x39 => {
                return Err(make_err(Error::UnknownInstruction { addr: self.state.pc() }));
            },
            // Unused opcodes have no effect.
            _ => {},
        }
        Ok(())
    }

    /// Executes an I-type instruction, yielding a trap guard for the
    /// immediate trap family.
    pub(crate) fn execute_i(self, opcode: u32, rs: u32, rt: u32, imm: u16) -> (r: Result<
        SteppedRuntime,
        (Runtime, RushError),
    >)
        requires
            self.wf(),
            opcode != SPECIAL && opcode != SPECIAL2 && opcode != SPECIAL3,
            opcode < 64,
            rs < 32,
            rt < 32,
        ensures
            i_post(self.state@, self.memory, r, opcode, rs, rt, imm),
            crate::syscall::outcome_wf(r),
    {
        if opcode == 0x01 && (rt == 0x08 || rt == 0x09 || rt == 0x0A || rt == 0x0B || rt == 0x0C
            || rt == 0x0E) {
            // TGEI / TGEIU / TLTI / TLTIU / TEQI / TNEI
            let a = match self.state.read_register(rs) {
                Ok(v) => v,
                Err(e) => { return Err((self, e)); },
            };
            let iv = extend_sign_16(imm);
            let taken: bool = if rt == 0x08 {
                a >= iv
            } else if rt == 0x09 {
                i32_to_u32(a) >= i32_to_u32(iv)
            } else if rt == 0x0A {
                a < iv
            } else if rt == 0x0B {
                i32_to_u32(a) < i32_to_u32(iv)
            } else if rt == 0x0C {
                a == iv
            } else {
                a != iv
            };
            if taken {
                Ok(Err(RuntimeSyscallGuard::Trap(self)))
            } else {
                Ok(Ok(self))
            }
        } else {
            let mut this = self;
            match this.execute_non_trapping_i(opcode, rs, rt, imm) {
                Ok(()) => Ok(Ok(this)),
                Err(e) => Err((this, e)),
            }
        }
    }
}

} // verus!
