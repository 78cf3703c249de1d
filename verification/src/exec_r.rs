//! The R-type executor: shifts, jumps through registers, conditional moves,
//! HI/LO transfers, leading-bit counts, the multiply/divide family, checked
//! and wrapping arithmetic, bitwise logic, comparisons, and the SPECIAL2 and
//! SPECIAL3 extensions.
//!
//! Every encoding the architecture reserves or this engine does not
//! implement fails with `UnknownInstruction` and leaves the state unchanged.

use vstd::prelude::*;
use vstd::wrapping::{i32_specs, u64_specs};
use crate::alu::{sll_spec, srl_spec, sra_spec, rotr_spec, clz_spec, clo_spec, tdiv, trem,
    prod_signed, prod_unsigned, hilo_u64, hi_of_u64, lo_of_u64, shift_left, shift_right_logical,
    shift_right_arithmetic, rotate_right, count_leading_zeros, count_leading_ones, mult_signed,
    mult_unsigned, split_u64, join_hilo, div_signed, div_unsigned, checked_add, checked_sub};
use crate::bits::{u32_of_i32, i32_of_u32, i32_to_u32, u32_to_i32, trunc_8, trunc_16, sign_ext_8,
    sign_ext_16, word_b0, word_b1, word_b2, word_b3, word_from_bytes, extend_sign_8,
    extend_sign_16, truncate_8, truncate_16, bytes_of_word, word_of_bytes};
use crate::error::{Error, RushError, RushResult, Uninitialised, rt_err, uninit_err, make_err};
use crate::runtime::{Runtime, SPECIAL, SPECIAL2, SPECIAL3, unknown_inst_err};
use crate::safe::Safe;
use crate::state::StateModel;

verus! {

/// The destination register took the given value; everything else is
/// unchanged.
pub open spec fn wrote_rd(pre: StateModel, post: StateModel, r: RushResult<()>, rd: u32, v: i32)
    -> bool {
    &&& r is Ok
    &&& post == pre.with_reg(rd as int, Safe::Valid(v))
}

/// The operation failed on an uninitialised register read; the state is
/// unchanged.
pub open spec fn failed_reg(pre: StateModel, post: StateModel, r: RushResult<()>) -> bool {
    &&& r == RushResult::<()>::Err(uninit_err(Uninitialised::Register))
    &&& post == pre
}

/// The encoding is not implemented; the state is unchanged.
pub open spec fn failed_unknown(pre: StateModel, post: StateModel, r: RushResult<()>) -> bool {
    &&& r == RushResult::<()>::Err(unknown_inst_err(pre.pc))
    &&& post == pre
}

/// A two-source ALU operation writing `f(rs, rt)` to `rd`.
pub open spec fn alu2_post(
    pre: StateModel,
    post: StateModel,
    r: RushResult<()>,
    rd: u32,
    rs: u32,
    rt: u32,
    f: spec_fn(i32, i32) -> i32,
) -> bool {
    if pre.reg_ok(rs) && pre.reg_ok(rt) {
        wrote_rd(pre, post, r, rd, f(pre.reg_val(rs), pre.reg_val(rt)))
    } else {
        failed_reg(pre, post, r)
    }
}

/// A one-source ALU operation on `rt` writing `f(rt)` to `rd`.
pub open spec fn alu_rt_post(
    pre: StateModel,
    post: StateModel,
    r: RushResult<()>,
    rd: u32,
    rt: u32,
    f: spec_fn(i32) -> i32,
) -> bool {
    if pre.reg_ok(rt) {
        wrote_rd(pre, post, r, rd, f(pre.reg_val(rt)))
    } else {
        failed_reg(pre, post, r)
    }
}

/// A one-source ALU operation on `rs` writing `f(rs)` to `rd`.
pub open spec fn alu_rs_post(
    pre: StateModel,
    post: StateModel,
    r: RushResult<()>,
    rd: u32,
    rs: u32,
    f: spec_fn(i32) -> i32,
) -> bool {
    if pre.reg_ok(rs) {
        wrote_rd(pre, post, r, rd, f(pre.reg_val(rs)))
    } else {
        failed_reg(pre, post, r)
    }
}

/// A checked two-source operation: `IntegerOverflow` where the mathematical
/// result leaves the signed 32-bit range.
pub open spec fn alu2_checked_post(
    pre: StateModel,
    post: StateModel,
    r: RushResult<()>,
    rd: u32,
    rs: u32,
    rt: u32,
    f: spec_fn(i32, i32) -> int,
) -> bool {
    if pre.reg_ok(rs) && pre.reg_ok(rt) {
        let s = f(pre.reg_val(rs), pre.reg_val(rt));
        if i32::MIN <= s <= i32::MAX {
            wrote_rd(pre, post, r, rd, s as i32)
        } else {
            r == RushResult::<()>::Err(rt_err(Error::IntegerOverflow)) && post == pre
        }
    } else {
        failed_reg(pre, post, r)
    }
}

/// A multiply-accumulate on HI:LO: reads `rs`, `rt`, HI and LO in that
/// order, then adds or subtracts the product.
pub open spec fn hilo_acc_post(
    pre: StateModel,
    post: StateModel,
    r: RushResult<()>,
    rs: u32,
    rt: u32,
    signed: bool,
    subtract: bool,
) -> bool {
    if !(pre.reg_ok(rs) && pre.reg_ok(rt)) {
        failed_reg(pre, post, r)
    } else if !(pre.hi is Valid) {
        r == RushResult::<()>::Err(uninit_err(Uninitialised::Hi)) && post == pre
    } else if !(pre.lo is Valid) {
        r == RushResult::<()>::Err(uninit_err(Uninitialised::Lo)) && post == pre
    } else {
        let p = if signed {
            prod_signed(pre.reg_val(rs), pre.reg_val(rt))
        } else {
            prod_unsigned(pre.reg_val(rs), pre.reg_val(rt))
        };
        let orig = hilo_u64(pre.hi->Valid_0, pre.lo->Valid_0);
        let acc = if subtract {
            u64_specs::wrapping_sub(orig, p)
        } else {
            u64_specs::wrapping_add(orig, p)
        };
        &&& r is Ok
        &&& post == pre.with_hi(Safe::Valid(hi_of_u64(acc))).with_lo(Safe::Valid(lo_of_u64(acc)))
    }
}

/// Byte swap within each halfword.
pub open spec fn wsbh_spec(v: i32) -> i32 {
    let u = u32_of_i32(v);
    i32_of_u32(word_from_bytes(word_b1(u), word_b0(u), word_b3(u), word_b2(u)))
}

/// What the non-trapping R-type executor does, by SPECIAL family and
/// function code.
pub open spec fn r_nontrap_post(
    pre: StateModel,
    post: StateModel,
    r: RushResult<()>,
    special: u32,
    funct: u32,
    rd: u32,
    rs: u32,
    rt: u32,
    shamt: u32,
) -> bool {
    if special == SPECIAL {
        if funct == 0x00 {
            // SLL
            alu_rt_post(pre, post, r, rd, rt, |v: i32| sll_spec(v, shamt))
        } else if funct == 0x02 {
            if rs == 0x00 {
                // SRL
                alu_rt_post(pre, post, r, rd, rt, |v: i32| srl_spec(v, shamt))
            } else if rs == 0x01 {
                // ROTR
                alu_rt_post(pre, post, r, rd, rt, |v: i32| rotr_spec(v, shamt))
            } else {
                failed_unknown(pre, post, r)
            }
        } else if funct == 0x03 {
            // SRA
            alu_rt_post(pre, post, r, rd, rt, |v: i32| sra_spec(v, shamt))
        } else if funct == 0x04 {
            // SLLV
            alu2_post(pre, post, r, rd, rt, rs, |vt: i32, vs: i32| sll_spec(vt, u32_of_i32(vs) % 32))
        } else if funct == 0x06 {
            if shamt == 0x00 {
                // SRLV
                alu2_post(
                    pre,
                    post,
                    r,
                    rd,
                    rt,
                    rs,
                    |vt: i32, vs: i32| srl_spec(vt, u32_of_i32(vs) % 32),
                )
            } else if shamt == 0x01 {
                // ROTRV
                alu2_post(
                    pre,
                    post,
                    r,
                    rd,
                    rt,
                    rs,
                    |vt: i32, vs: i32| rotr_spec(vt, u32_of_i32(vs) % 32),
                )
            } else {
                failed_unknown(pre, post, r)
            }
        } else if funct == 0x07 {
            // SRAV
            alu2_post(pre, post, r, rd, rt, rs, |vt: i32, vs: i32| sra_spec(vt, u32_of_i32(vs) % 32))
        } else if funct == 0x08 {
            // JR
            if pre.reg_ok(rs) {
                r is Ok && post == pre.with_pc(u32_of_i32(pre.reg_val(rs)))
            } else {
                failed_reg(pre, post, r)
            }
        } else if funct == 0x09 {
            // JALR: the link register is written before the jump register is
            // read, so a failed read keeps the link write.
            let mid = pre.with_reg(rd as int, Safe::Valid(i32_of_u32(pre.pc)));
            if mid.reg_ok(rs) {
                r is Ok && post == mid.with_pc(u32_of_i32(mid.reg_val(rs)))
            } else {
                r == RushResult::<()>::Err(uninit_err(Uninitialised::Register)) && post == mid
            }
        } else if funct == 0x0A {
            // MOVZ
            if !pre.reg_ok(rt) {
                failed_reg(pre, post, r)
            } else if pre.reg_val(rt) == 0 {
                alu_rs_post(pre, post, r, rd, rs, |v: i32| v)
            } else {
                r is Ok && post == pre
            }
        } else if funct == 0x0B {
            // MOVN
            if !pre.reg_ok(rt) {
                failed_reg(pre, post, r)
            } else if pre.reg_val(rt) != 0 {
                alu_rs_post(pre, post, r, rd, rs, |v: i32| v)
            } else {
                r is Ok && post == pre
            }
        } else if funct == 0x10 {
            if shamt == 0x00 {
                // MFHI
                if pre.hi is Valid {
                    wrote_rd(pre, post, r, rd, pre.hi->Valid_0)
                } else {
                    r == RushResult::<()>::Err(uninit_err(Uninitialised::Hi)) && post == pre
                }
            } else if shamt == 0x01 {
                // CLZ
                alu_rs_post(pre, post, r, rd, rs, |v: i32| clz_spec(u32_of_i32(v)) as i32)
            } else {
                failed_unknown(pre, post, r)
            }
        } else if funct == 0x11 {
            if shamt == 0x00 {
                // MTHI
                if pre.reg_ok(rs) {
                    r is Ok && post == pre.with_hi(Safe::Valid(pre.reg_val(rs)))
                } else {
                    failed_reg(pre, post, r)
                }
            } else if shamt == 0x01 {
                // CLO
                alu_rs_post(pre, post, r, rd, rs, |v: i32| clo_spec(u32_of_i32(v)) as i32)
            } else {
                failed_unknown(pre, post, r)
            }
        } else if funct == 0x12 {
            // MFLO
            if pre.lo is Valid {
                wrote_rd(pre, post, r, rd, pre.lo->Valid_0)
            } else {
                r == RushResult::<()>::Err(uninit_err(Uninitialised::Lo)) && post == pre
            }
        } else if funct == 0x13 {
            // MTLO
            if pre.reg_ok(rs) {
                r is Ok && post == pre.with_lo(Safe::Valid(pre.reg_val(rs)))
            } else {
                failed_reg(pre, post, r)
            }
        } else if funct == 0x18 || funct == 0x19 {
            // MULT / MULTU
            if pre.reg_ok(rs) && pre.reg_ok(rt) {
                let p = if funct == 0x18 {
                    prod_signed(pre.reg_val(rs), pre.reg_val(rt))
                } else {
                    prod_unsigned(pre.reg_val(rs), pre.reg_val(rt))
                };
                &&& r is Ok
                &&& post == pre.with_hi(Safe::Valid(hi_of_u64(p))).with_lo(
                    Safe::Valid(lo_of_u64(p)),
                )
            } else {
                failed_reg(pre, post, r)
            }
        } else if funct == 0x1A {
            // DIV
            if pre.reg_ok(rs) && pre.reg_ok(rt) {
                let a = pre.reg_val(rs);
                let b = pre.reg_val(rt);
                if b == 0 {
                    r == RushResult::<()>::Err(rt_err(Error::DivisionByZero)) && post == pre
                } else {
                    &&& r is Ok
                    &&& post == pre.with_lo(
                        Safe::Valid(i32_specs::signed_crop(tdiv(a as int, b as int))),
                    ).with_hi(Safe::Valid(trem(a as int, b as int) as i32))
                }
            } else {
                failed_reg(pre, post, r)
            }
        } else if funct == 0x1B {
            // DIVU
            if pre.reg_ok(rs) && pre.reg_ok(rt) {
                let a = u32_of_i32(pre.reg_val(rs));
                let b = u32_of_i32(pre.reg_val(rt));
                if b == 0 {
                    r == RushResult::<()>::Err(rt_err(Error::DivisionByZero)) && post == pre
                } else {
                    &&& r is Ok
                    &&& post == pre.with_lo(Safe::Valid(i32_of_u32((a / b) as u32))).with_hi(
                        Safe::Valid(i32_of_u32((a % b) as u32)),
                    )
                }
            } else {
                failed_reg(pre, post, r)
            }
        } else if funct == 0x20 {
            // ADD
            alu2_checked_post(pre, post, r, rd, rs, rt, |a: i32, b: i32| a + b)
        } else if funct == 0x21 {
            // ADDU
            alu2_post(pre, post, r, rd, rs, rt, |a: i32, b: i32| i32_specs::wrapping_add(a, b))
        } else if funct == 0x22 {
            // SUB
            alu2_checked_post(pre, post, r, rd, rs, rt, |a: i32, b: i32| a - b)
        } else if funct == 0x23 {
            // SUBU
            alu2_post(pre, post, r, rd, rs, rt, |a: i32, b: i32| i32_specs::wrapping_sub(a, b))
        } else if funct == 0x24 {
            // AND
            alu2_post(pre, post, r, rd, rs, rt, |a: i32, b: i32| a & b)
        } else if funct == 0x25 {
            // OR
            alu2_post(pre, post, r, rd, rs, rt, |a: i32, b: i32| a | b)
        } else if funct == 0x26 {
            // XOR
            alu2_post(pre, post, r, rd, rs, rt, |a: i32, b: i32| a ^ b)
        } else if funct == 0x27 {
            // NOR
            alu2_post(pre, post, r, rd, rs, rt, |a: i32, b: i32| !(a | b))
        } else if funct == 0x2A {
            // SLT
            alu2_post(
                pre,
                post,
                r,
                rd,
                rs,
                rt,
                |a: i32, b: i32|
                    if a < b {
                        1i32
                    } else {
                        0i32
                    },
            )
        } else if funct == 0x2B {
            // SLTU
            alu2_post(
                pre,
                post,
                r,
                rd,
                rs,
                rt,
                |a: i32, b: i32|
                    if u32_of_i32(a) < u32_of_i32(b) {
                        1i32
                    } else {
                        0i32
                    },
            )
        } else {
            // The remaining SPECIAL function codes are unused: no effect.
            r is Ok && post == pre
        }
    } else if special == SPECIAL2 {
        if funct == 0x00 {
            // MADD
            hilo_acc_post(pre, post, r, rs, rt, true, false)
        } else if funct == 0x01 {
            // MADDU
            hilo_acc_post(pre, post, r, rs, rt, false, false)
        } else if funct == 0x02 {
            // MUL: the low product word goes to rd; HI and LO become
            // uninitialised.
            if pre.reg_ok(rs) && pre.reg_ok(rt) {
                &&& r is Ok
                &&& post == pre.with_reg(
                    rd as int,
                    Safe::Valid(i32_specs::wrapping_mul(pre.reg_val(rs), pre.reg_val(rt))),
                ).with_hi(Safe::Uninitialised).with_lo(Safe::Uninitialised)
            } else {
                failed_reg(pre, post, r)
            }
        } else if funct == 0x04 {
            // MSUB
            hilo_acc_post(pre, post, r, rs, rt, true, true)
        } else if funct == 0x05 {
            // MSUBU
            hilo_acc_post(pre, post, r, rs, rt, false, true)
        } else {
            // The remaining SPECIAL2 function codes are unused: no effect.
            r is Ok && post == pre
        }
    } else {
        // SPECIAL3
        if funct == 0x20 {
            if shamt == 0x02 {
                // WSBH
                alu_rt_post(pre, post, r, rd, rt, |v: i32| wsbh_spec(v))
            } else if shamt == 0x10 {
                // SEB
                alu_rt_post(pre, post, r, rd, rt, |v: i32| sign_ext_8(trunc_8(v)))
            } else if shamt == 0x18 {
                // SEH
                alu_rt_post(pre, post, r, rd, rt, |v: i32| sign_ext_16(trunc_16(v)))
            } else {
                failed_unknown(pre, post, r)
            }
        } else {
            failed_unknown(pre, post, r)
        }
    }
}

impl Runtime {
    /// Executes a non-trapping R-type instruction against the current state.
    pub(crate) fn execute_non_trapping_r(
        &mut self,
        special: u32,
        funct: u32,
        rd: u32,
        rs: u32,
        rt: u32,
        shamt: u32,
    ) -> (r: RushResult<()>)
        requires
            old(self).wf(),
            special == SPECIAL || special == SPECIAL2 || special == SPECIAL3,
            !(special == SPECIAL && (funct == 0x0C || funct == 0x0D)),
            rd < 32,
            rs < 32,
            rt < 32,
            shamt < 32,
            funct < 64,
        ensures
            final(self).wf(),
            final(self).memory == old(self).memory,
            r_nontrap_post(
                old(self).state@,
                final(self).state@,
                r,
                special,
                funct,
                rd,
                rs,
                rt,
                shamt,
            ),
    {
        if special == SPECIAL {
            match funct {
                // SLL
                0x00 => {
                    let v = self.state.read_register(rt)?;
                    self.state.write_register(rd, shift_left(v, shamt));
                },
                0x02 => {
                    match rs {
                        // SRL
                        0x00 => {
                            let v = self.state.read_register(rt)?;
                            self.state.write_register(rd, shift_right_logical(v, shamt));
                        },
                        // ROTR
                        0x01 => {
                            let v = self.state.read_register(rt)?;
                            self.state.write_register(rd, rotate_right(v, shamt));
                        },
                        _ => {
                            return Err(
                                make_err(Error::UnknownInstruction { addr: self.state.pc() }),
                            );
                        },
                    }
                },
                // SRA
                0x03 => {
                    let v = self.state.read_register(rt)?;
                    self.state.write_register(rd, shift_right_arithmetic(v, shamt));
                },
                // SLLV
                0x04 => {
                    let vt = self.state.read_register(rt)?;
                    let vs = self.state.read_register(rs)?;
                    self.state.write_register(rd, shift_left(vt, i32_to_u32(vs) % 32));
                },
                0x06 => {
                    match shamt {
                        // SRLV
                        0x00 => {
                            let vt = self.state.read_register(rt)?;
                            let vs = self.state.read_register(rs)?;
                            self.state.write_register(
                                rd,
                                shift_right_logical(vt, i32_to_u32(vs) % 32),
                            );
                        },
                        // ROTRV
                        0x01 => {
                            let vt = self.state.read_register(rt)?;
                            let vs = self.state.read_register(rs)?;
                            self.state.write_register(rd, rotate_right(vt, i32_to_u32(vs) % 32));
                        },
                        _ => {
                            return Err(
                                make_err(Error::UnknownInstruction { addr: self.state.pc() }),
                            );
                        },
                    }
                },
                // SRAV
                0x07 => {
                    let vt = self.state.read_register(rt)?;
                    let vs = self.state.read_register(rs)?;
                    self.state.write_register(rd, shift_right_arithmetic(vt, i32_to_u32(vs) % 32));
                },
                // JR
                0x08 => {
                    let v = self.state.read_register(rs)?;
                    self.state.set_pc(i32_to_u32(v));
                },
                // JALR
                0x09 => {
                    let pc = self.state.pc();
                    self.state.write_register(rd, u32_to_i32(pc));
                    let v = self.state.read_register(rs)?;
                    self.state.set_pc(i32_to_u32(v));
                },
                // MOVZ
                0x0A => {
                    if self.state.read_register(rt)? == 0 {
                        let v = self.state.read_register(rs)?;
                        self.state.write_register(rd, v);
                    }
                },
                // MOVN
                0x0B => {
                    if self.state.read_register(rt)? != 0 {
                        let v = self.state.read_register(rs)?;
                        self.state.write_register(rd, v);
                    }
                },
                0x10 => {
                    match shamt {
                        // MFHI
                        0x00 => {
                            let v = self.state.read_hi()?;
                            self.state.write_register(rd, v);
                        },
                        // CLZ
                        0x01 => {
                            let v = self.state.read_register(rs)?;
                            self.state.write_register(
                                rd,
                                count_leading_zeros(i32_to_u32(v)) as i32,
                            );
                        },
                        _ => {
                            return Err(
                                make_err(Error::UnknownInstruction { addr: self.state.pc() }),
                            );
                        },
                    }
                },
                0x11 => {
                    match shamt {
                        // MTHI
                        0x00 => {
                            let v = self.state.read_register(rs)?;
                            self.state.write_hi(v);
                        },
                        // CLO
                        0x01 => {
                            let v = self.state.read_register(rs)?;
                            self.state.write_register(rd, count_leading_ones(i32_to_u32(v)) as i32);
                        },
                        _ => {
                            return Err(
                                make_err(Error::UnknownInstruction { addr: self.state.pc() }),
                            );
                        },
                    }
                },
                // MFLO
                0x12 => {
                    let v = self.state.read_lo()?;
                    self.state.write_register(rd, v);
                },
                // MTLO
                0x13 => {
                    let v = self.state.read_register(rs)?;
                    self.state.write_lo(v);
                },
                // MULT
                0x18 => {
                    let a = self.state.read_register(rs)?;
                    let b = self.state.read_register(rt)?;
                    let (hi, lo) = split_u64(mult_signed(a, b));
                    self.state.write_hi(hi);
                    self.state.write_lo(lo);
                },
                // MULTU
                0x19 => {
                    let a = self.state.read_register(rs)?;
                    let b = self.state.read_register(rt)?;
                    let (hi, lo) = split_u64(mult_unsigned(a, b));
                    self.state.write_hi(hi);
                    self.state.write_lo(lo);
                },
                // DIV
                0x1A => {
                    let a = self.state.read_register(rs)?;
                    let b = self.state.read_register(rt)?;
                    if b == 0 {
                        return Err(make_err(Error::DivisionByZero));
                    }
                    let (q, rem) = div_signed(a, b);
                    self.state.write_lo(q);
                    self.state.write_hi(rem);
                },
                // DIVU
                0x1B => {
                    let a = self.state.read_register(rs)?;
                    let b = self.state.read_register(rt)?;
                    if i32_to_u32(b) == 0 {
                        return Err(make_err(Error::DivisionByZero));
                    }
                    let (q, rem) = div_unsigned(a, b);
                    self.state.write_lo(q);
                    self.state.write_hi(rem);
                },
                // ADD
                0x20 => {
                    let a = self.state.read_register(rs)?;
                    let b = self.state.read_register(rt)?;
                    let v = checked_add(a, b)?;
                    self.state.write_register(rd, v);
                },
                // ADDU
                0x21 => {
                    let a = self.state.read_register(rs)?;
                    let b = self.state.read_register(rt)?;
                    self.state.write_register(rd, a.wrapping_add(b));
                },
                // SUB
                0x22 => {
                    let a = self.state.read_register(rs)?;
                    let b = self.state.read_register(rt)?;
                    let v = checked_sub(a, b)?;
                    self.state.write_register(rd, v);
                },
                // SUBU
                0x23 => {
                    let a = self.state.read_register(rs)?;
                    let b = self.state.read_register(rt)?;
                    self.state.write_register(rd, a.wrapping_sub(b));
                },
                // AND
                0x24 => {
                    let a = self.state.read_register(rs)?;
                    let b = self.state.read_register(rt)?;
                    self.state.write_register(rd, a & b);
                },
                // OR
                0x25 => {
                    let a = self.state.read_register(rs)?;
                    let b = self.state.read_register(rt)?;
                    self.state.write_register(rd, a | b);
                },
                // XOR
                0x26 => {
                    let a = self.state.read_register(rs)?;
                    let b = self.state.read_register(rt)?;
                    self.state.write_register(rd, a ^ b);
                },
                // NOR
                0x27 => {
                    let a = self.state.read_register(rs)?;
                    let b = self.state.read_register(rt)?;
                    self.state.write_register(rd, !(a | b));
                },
                // SLT
                0x2A => {
                    let a = self.state.read_register(rs)?;
                    let b = self.state.read_register(rt)?;
                    if a < b {
                        self.state.write_register(rd, 1);
                    } else {
                        self.state.write_register(rd, 0);
                    }
                },
                // SLTU
                0x2B => {
                    let a = self.state.read_register(rs)?;
                    let b = self.state.read_register(rt)?;
                    if i32_to_u32(a) < i32_to_u32(b) {
                        self.state.write_register(rd, 1);
                    } else {
                        self.state.write_register(rd, 0);
                    }
                },
                // Unused function codes have no effect.
                _ => {},
            }
        } else if special == SPECIAL2 {
            match funct {
                // MADD
                0x00 => {
                    let a = self.state.read_register(rs)?;
                    let b = self.state.read_register(rt)?;
                    let hi = self.state.read_hi()?;
                    let lo = self.state.read_lo()?;
                    let acc = join_hilo(hi, lo).wrapping_add(mult_signed(a, b));
                    let (h2, l2) = split_u64(acc);
                    self.state.write_hi(h2);
                    self.state.write_lo(l2);
                },
                // MADDU
                0x01 => {
                    let a = self.state.read_register(rs)?;
                    let b = self.state.read_register(rt)?;
                    let hi = self.state.read_hi()?;
                    let lo = self.state.read_lo()?;
                    let acc = join_hilo(hi, lo).wrapping_add(mult_unsigned(a, b));
                    let (h2, l2) = split_u64(acc);
                    self.state.write_hi(h2);
                    self.state.write_lo(l2);
                },
                // MUL
                0x02 => {
                    let a = self.state.read_register(rs)?;
                    let b = self.state.read_register(rt)?;
                    self.state.write_register(rd, a.wrapping_mul(b));
                    self.state.write_hi_uninit(Safe::Uninitialised);
                    self.state.write_lo_uninit(Safe::Uninitialised);
                },
                // MSUB
                0x04 => {
                    let a = self.state.read_register(rs)?;
                    let b = self.state.read_register(rt)?;
                    let hi = self.state.read_hi()?;
                    let lo = self.state.read_lo()?;
                    let acc = join_hilo(hi, lo).wrapping_sub(mult_signed(a, b));
                    let (h2, l2) = split_u64(acc);
                    self.state.write_hi(h2);
                    self.state.write_lo(l2);
                },
                // MSUBU
                0x05 => {
                    let a = self.state.read_register(rs)?;
                    let b = self.state.read_register(rt)?;
                    let hi = self.state.read_hi()?;
                    let lo = self.state.read_lo()?;
                    let acc = join_hilo(hi, lo).wrapping_sub(mult_unsigned(a, b));
                    let (h2, l2) = split_u64(acc);
                    self.state.write_hi(h2);
                    self.state.write_lo(l2);
                },
                // Unused function codes have no effect.
                _ => {},
            }
        } else {
            match funct {
                0x20 => {
                    match shamt {
                        // WSBH
                        0x02 => {
                            let v = self.state.read_register(rt)?;
                            let (b0, b1, b2, b3) = bytes_of_word(i32_to_u32(v));
                            self.state.write_register(
                                rd,
                                u32_to_i32(word_of_bytes(b1, b0, b3, b2)),
                            );
                        },
                        // SEB
                        0x10 => {
                            let v = self.state.read_register(rt)?;
                            self.state.write_register(rd, extend_sign_8(truncate_8(v)));
                        },
                        // SEH
                        0x18 => {
                            let v = self.state.read_register(rt)?;
                            self.state.write_register(rd, extend_sign_16(truncate_16(v)));
                        },
                        _ => {
                            return Err(
                                make_err(Error::UnknownInstruction { addr: self.state.pc() }),
                            );
                        },
                    }
                },
                _ => {
                    return Err(make_err(Error::UnknownInstruction { addr: self.state.pc() }));
                },
            }
        }
        Ok(())
    }
}

} // verus!

verus! {

/// Whether an R-type trap's predicate holds for the two register values.
pub open spec fn trap_taken(funct: u32, a: i32, b: i32) -> bool {
    if funct == 0x30 {
        a >= b
    } else if funct == 0x31 {
        u32_of_i32(a) >= u32_of_i32(b)
    } else if funct == 0x32 {
        a < b
    } else if funct == 0x33 {
        u32_of_i32(a) < u32_of_i32(b)
    } else if funct == 0x34 {
        a == b
    } else {
        a != b
    }
}

/// What a register-register trap instruction does: yields a trap guard when
/// the predicate holds, otherwise passes the runtime through; the state is
/// never modified.
pub open spec fn trap2_post(
    pre: StateModel,
    mem: crate::layout::MemoryLayout,
    r: Result<crate::runtime::SteppedRuntime, (Runtime, RushError)>,
    funct: u32,
    rs: u32,
    rt: u32,
) -> bool {
    if pre.reg_ok(rs) && pre.reg_ok(rt) {
        if trap_taken(funct, pre.reg_val(rs), pre.reg_val(rt)) {
            match r {
                Ok(Err(crate::syscall::RuntimeSyscallGuard::Trap(rt2))) =>
                    crate::syscall::rt_unchanged(rt2, pre, mem),
                _ => false,
            }
        } else {
            match r {
                Ok(Ok(rt2)) => crate::syscall::rt_unchanged(rt2, pre, mem),
                _ => false,
            }
        }
    } else {
        match r {
            Err((rt2, e)) => e == uninit_err(Uninitialised::Register)
                && crate::syscall::rt_unchanged(rt2, pre, mem),
            _ => false,
        }
    }
}

/// What the R-type executor does: syscall and breakpoint guards, trap
/// instructions, and the non-trapping remainder.
pub open spec fn r_post(
    pre: StateModel,
    mem: crate::layout::MemoryLayout,
    r: Result<crate::runtime::SteppedRuntime, (Runtime, RushError)>,
    special: u32,
    funct: u32,
    rd: u32,
    rs: u32,
    rt: u32,
    shamt: u32,
) -> bool {
    if special == SPECIAL && funct == 0x0C {
        match r {
            Ok(Err(g)) => crate::syscall::syscall_post(pre, mem, Ok(g)),
            Err(p) => crate::syscall::syscall_post(pre, mem, Err(p)),
            Ok(Ok(_)) => false,
        }
    } else if special == SPECIAL && funct == 0x0D {
        match r {
            Ok(Err(crate::syscall::RuntimeSyscallGuard::Breakpoint(rt2))) =>
                crate::syscall::rt_unchanged(rt2, pre, mem),
            _ => false,
        }
    } else if special == SPECIAL && (funct == 0x30 || funct == 0x31 || funct == 0x32 || funct
        == 0x33 || funct == 0x34 || funct == 0x36) {
        trap2_post(pre, mem, r, funct, rs, rt)
    } else {
        match r {
            Ok(Ok(rt2)) => rt2.memory == mem && rt2.state@.wf() && r_nontrap_post(
                pre,
                rt2.state@,
                Ok(()),
                special,
                funct,
                rd,
                rs,
                rt,
                shamt,
            ),
            Err((rt2, e)) => rt2.memory == mem && rt2.state@.wf() && r_nontrap_post(
                pre,
                rt2.state@,
                RushResult::<()>::Err(e),
                special,
                funct,
                rd,
                rs,
                rt,
                shamt,
            ),
            Ok(Err(_)) => false,
        }
    }
}

impl Runtime {
    /// Executes an R-type instruction, yielding a guard for SYSCALL, BREAK
    /// and taken traps.
    pub(crate) fn execute_r(
        self,
        special: u32,
        funct: u32,
        rd: u32,
        rs: u32,
        rt: u32,
        shamt: u32,
    ) -> (r: Result<crate::runtime::SteppedRuntime, (Runtime, RushError)>)
        requires
            self.wf(),
            special == SPECIAL || special == SPECIAL2 || special == SPECIAL3,
            rd < 32,
            rs < 32,
            rt < 32,
            shamt < 32,
            funct < 64,
        ensures
            r_post(self.state@, self.memory, r, special, funct, rd, rs, rt, shamt),
            crate::syscall::outcome_wf(r),
    {
        if special == SPECIAL && funct == 0x0C {
            // SYSCALL
            Ok(Err(self.syscall()?))
        } else if special == SPECIAL && funct == 0x0D {
            // BREAK
            Ok(Err(crate::syscall::RuntimeSyscallGuard::Breakpoint(self)))
        } else if special == SPECIAL && (funct == 0x30 || funct == 0x31 || funct == 0x32 || funct
            == 0x33 || funct == 0x34 || funct == 0x36) {
            // TGE / TGEU / TLT / TLTU / TEQ / TNE
            let a = match self.state.read_register(rs) {
                Ok(v) => v,
                Err(e) => { return Err((self, e)); },
            };
            let b = match self.state.read_register(rt) {
                Ok(v) => v,
                Err(e) => { return Err((self, e)); },
            };
            let taken: bool = if funct == 0x30 {
                a >= b
            } else if funct == 0x31 {
                i32_to_u32(a) >= i32_to_u32(b)
            } else if funct == 0x32 {
                a < b
            } else if funct == 0x33 {
                i32_to_u32(a) < i32_to_u32(b)
            } else if funct == 0x34 {
                a == b
            } else {
                a != b
            };
            if taken {
                Ok(Err(crate::syscall::RuntimeSyscallGuard::Trap(self)))
            } else {
                Ok(Ok(self))
            }
        } else {
            let mut this = self;
            match this.execute_non_trapping_r(special, funct, rd, rs, rt, shamt) {
                Ok(()) => Ok(Ok(this)),
                Err(e) => Err((this, e)),
            }
        }
    }
}

} // verus!
