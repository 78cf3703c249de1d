//! End-to-end tests of the execution engine: programs assembled by hand,
//! stepped through the public API.

use rush_core::error::{AlignmentRequirement, Error, RushError, RuntimeError,
    SegmentationFaultAccessType, Uninitialised};
use rush_core::layout::{GlobalRange, MemoryLayout, StackRange, TextRange};
use rush_core::runtime::{Binary, Runtime};
use rush_core::safe::Safe;
use rush_core::syscall::RuntimeSyscallGuard;

fn layout() -> MemoryLayout {
    MemoryLayout {
        text: TextRange { start: 0x0040_0000, end: 0x004F_FFFF },
        data_bot: 0x1001_0000,
        global: GlobalRange { bot: 0x1000_0000, ptr: 0x1000_8000 },
        stack: StackRange { bot: 0x7FF0_0000, top: 0x7FFF_F000 },
    }
}

fn text_bytes(words: &[u32]) -> Vec<Safe<u8>> {
    let mut v = Vec::new();
    for w in words {
        v.push(Safe::Valid(*w as u8));
        v.push(Safe::Valid((*w >> 8) as u8));
        v.push(Safe::Valid((*w >> 16) as u8));
        v.push(Safe::Valid((*w >> 24) as u8));
    }
    v
}

fn runtime_with(words: &[u32]) -> Runtime {
    let binary = Binary { text: text_bytes(words), data: Vec::new() };
    Runtime::new(&binary, layout())
}

fn rtype(rs: u32, rt: u32, rd: u32, shamt: u32, funct: u32) -> u32 {
    (rs << 21) | (rt << 16) | (rd << 11) | (shamt << 6) | funct
}

fn itype(op: u32, rs: u32, rt: u32, imm: u16) -> u32 {
    (op << 26) | (rs << 21) | (rt << 16) | (imm as u32)
}

fn special2(rs: u32, rt: u32, rd: u32, funct: u32) -> u32 {
    (0x1C << 26) | (rs << 21) | (rt << 16) | (rd << 11) | funct
}

fn err_of(e: Error) -> RushError {
    RushError::Runtime(RuntimeError::new(e))
}

fn step_ok(rt: Runtime) -> Runtime {
    match rt.step() {
        Ok(Ok(rt)) => rt,
        Ok(Err(_)) => panic!("unexpected guard"),
        Err((_, e)) => panic!("unexpected error: {:?}", e),
    }
}

#[test]
fn addiu_then_sw_lw_round_trip() {
    // ADDIU $t0,$zero,0x1234 ; SW $t0,0($sp) ; LW $t1,0($sp)
    let rt = runtime_with(&[
        itype(0x09, 0, 8, 0x1234),
        itype(0x2B, 29, 8, 0),
        itype(0x23, 29, 9, 0),
    ]);
    assert_eq!(rt.state().read_register(29).unwrap(), 0x7FFF_EFD0u32 as i32);
    let rt = step_ok(rt);
    let rt = step_ok(rt);
    let rt = step_ok(rt);
    assert_eq!(rt.state().read_register(9).unwrap(), 0x1234);
}

#[test]
fn signed_overflow_trap() {
    // LUI $t0,0x7FFF ; ORI $t0,$t0,0xFFFF ; ADD $t1,$t0,$t0
    let rt = runtime_with(&[
        itype(0x0F, 0, 8, 0x7FFF),
        itype(0x0D, 8, 8, 0xFFFF),
        rtype(8, 8, 9, 0, 0x20),
    ]);
    let rt = step_ok(rt);
    let rt = step_ok(rt);
    assert_eq!(rt.state().read_register(8).unwrap(), 0x7FFF_FFFF);
    match rt.step() {
        Err((rt, e)) => {
            assert_eq!(e, err_of(Error::IntegerOverflow));
            // $t1 is still untouched.
            assert_eq!(
                rt.state().read_register(9),
                Err(err_of(Error::Uninitialised { value: Uninitialised::Register }))
            );
        }
        _ => panic!("expected an integer overflow"),
    }
}

#[test]
fn division_by_zero_keeps_hi_lo() {
    // ADDIU $t0,$zero,5 ; DIV $t0,$zero
    let rt = runtime_with(&[itype(0x09, 0, 8, 5), rtype(8, 0, 0, 0, 0x1A)]);
    let rt = step_ok(rt);
    match rt.step() {
        Err((rt, e)) => {
            assert_eq!(e, err_of(Error::DivisionByZero));
            assert_eq!(
                rt.state().read_lo(),
                Err(err_of(Error::Uninitialised { value: Uninitialised::Lo }))
            );
            assert_eq!(
                rt.state().read_hi(),
                Err(err_of(Error::Uninitialised { value: Uninitialised::Hi }))
            );
        }
        _ => panic!("expected a division by zero"),
    }
}

#[test]
fn syscall_read_int_round_trip() {
    // ADDIU $v0,$zero,5 ; SYSCALL
    let rt = runtime_with(&[itype(0x09, 0, 2, 5), rtype(0, 0, 0, 0, 0x0C)]);
    let rt = step_ok(rt);
    match rt.step() {
        Ok(Err(RuntimeSyscallGuard::ReadInt(guard))) => {
            let rt = guard.resume(42);
            assert_eq!(rt.state().read_register(2).unwrap(), 42);
        }
        _ => panic!("expected a read-int guard"),
    }
}

#[test]
fn teq_trap_advances_pc() {
    // ADDIU $t0,$zero,7 ; ADDIU $t1,$zero,7 ; TEQ $t0,$t1
    let rt = runtime_with(&[
        itype(0x09, 0, 8, 7),
        itype(0x09, 0, 9, 7),
        rtype(8, 9, 0, 0, 0x34),
    ]);
    let rt = step_ok(rt);
    let rt = step_ok(rt);
    match rt.step() {
        Ok(Err(RuntimeSyscallGuard::Trap(rt))) => {
            assert_eq!(rt.state().pc(), 0x0040_0000 + 12);
        }
        _ => panic!("expected a trap guard"),
    }
}

#[test]
fn teq_not_taken_passes_through() {
    let rt = runtime_with(&[
        itype(0x09, 0, 8, 7),
        itype(0x09, 0, 9, 8),
        rtype(8, 9, 0, 0, 0x34),
    ]);
    let rt = step_ok(rt);
    let rt = step_ok(rt);
    let rt = step_ok(rt);
    assert_eq!(rt.state().pc(), 0x0040_0000 + 12);
}

#[test]
fn mul_clobbers_hi_lo() {
    // ADDIU $t0,$zero,3 ; ADDIU $t1,$zero,4 ; MUL $t2,$t0,$t1 ; MFHI $t3
    let rt = runtime_with(&[
        itype(0x09, 0, 8, 3),
        itype(0x09, 0, 9, 4),
        special2(8, 9, 10, 0x02),
        rtype(0, 0, 11, 0, 0x10),
    ]);
    let rt = step_ok(rt);
    let rt = step_ok(rt);
    let rt = step_ok(rt);
    assert_eq!(rt.state().read_register(10).unwrap(), 12);
    match rt.step() {
        Err((rt, e)) => {
            assert_eq!(e, err_of(Error::Uninitialised { value: Uninitialised::Hi }));
            // MFLO now also fails, with the LO source.
            let rt = match rt.exec_inst(rtype(0, 0, 12, 0, 0x12)) {
                Err((rt, e)) => {
                    assert_eq!(e, err_of(Error::Uninitialised { value: Uninitialised::Lo }));
                    rt
                }
                _ => panic!("expected MFLO to fail"),
            };
            drop(rt);
        }
        _ => panic!("expected MFHI to fail"),
    }
}

#[test]
fn add_overflow_and_addu_wrap() {
    let mut rt = runtime_with(&[]);
    rt.state_mut().write_register(8, 0x7FFF_FFFF);
    rt.state_mut().write_register(9, 1);
    let rt = match rt.exec_inst(rtype(8, 9, 10, 0, 0x20)) {
        Err((rt, e)) => {
            assert_eq!(e, err_of(Error::IntegerOverflow));
            rt
        }
        _ => panic!("expected ADD to overflow"),
    };
    match rt.exec_inst(rtype(8, 9, 10, 0, 0x21)) {
        Ok(Ok(rt)) => {
            assert_eq!(rt.state().read_register(10).unwrap(), 0x8000_0000u32 as i32);
        }
        _ => panic!("expected ADDU to succeed"),
    }
}

#[test]
fn lh_at_odd_address_faults() {
    let mut rt = runtime_with(&[]);
    rt.state_mut().write_register(8, 0x1001_0001);
    match rt.exec_inst(itype(0x21, 8, 9, 0)) {
        Err((_, e)) => assert_eq!(
            e,
            err_of(Error::UnalignedAccess {
                addr: 0x1001_0001,
                alignment_requirement: AlignmentRequirement::Half,
            })
        ),
        _ => panic!("expected an unaligned access"),
    }
}

#[test]
fn lw_at_half_aligned_address_faults() {
    let mut rt = runtime_with(&[]);
    rt.state_mut().write_register(8, 0x1001_0002);
    match rt.exec_inst(itype(0x23, 8, 9, 0)) {
        Err((_, e)) => assert_eq!(
            e,
            err_of(Error::UnalignedAccess {
                addr: 0x1001_0002,
                alignment_requirement: AlignmentRequirement::Word,
            })
        ),
        _ => panic!("expected an unaligned access"),
    }
}

#[test]
fn sb_then_lb_sign_extends_low_byte() {
    // $t0 = 0x1FF: the store keeps 0xFF, the signed load yields -1.
    let mut rt = runtime_with(&[]);
    rt.state_mut().write_register(8, 0x1FF);
    rt.state_mut().write_register(9, 0x1001_0000);
    let rt = match rt.exec_inst(itype(0x28, 9, 8, 0)) {
        Ok(Ok(rt)) => rt,
        _ => panic!("expected SB to succeed"),
    };
    match rt.exec_inst(itype(0x20, 9, 10, 0)) {
        Ok(Ok(rt)) => assert_eq!(rt.state().read_register(10).unwrap(), -1),
        _ => panic!("expected LB to succeed"),
    }
}

#[test]
fn lbu_zero_extends() {
    let mut rt = runtime_with(&[]);
    rt.state_mut().write_register(8, -1);
    rt.state_mut().write_register(9, 0x1001_0000);
    let rt = match rt.exec_inst(itype(0x28, 9, 8, 0)) {
        Ok(Ok(rt)) => rt,
        _ => panic!("expected SB to succeed"),
    };
    match rt.exec_inst(itype(0x24, 9, 10, 0)) {
        Ok(Ok(rt)) => assert_eq!(rt.state().read_register(10).unwrap(), 0xFF),
        _ => panic!("expected LBU to succeed"),
    }
}

#[test]
fn sw_to_text_segment_faults() {
    let mut rt = runtime_with(&[]);
    rt.state_mut().write_register(8, 0x0040_0000);
    rt.state_mut().write_register(9, 1);
    match rt.exec_inst(itype(0x2B, 8, 9, 0)) {
        Err((_, e)) => assert_eq!(
            e,
            err_of(Error::SegmentationFault {
                addr: 0x0040_0000,
                access: SegmentationFaultAccessType::Write,
            })
        ),
        _ => panic!("expected a segmentation fault"),
    }
}

#[test]
fn lb_at_unmapped_address_faults() {
    let mut rt = runtime_with(&[]);
    rt.state_mut().write_register(8, 0x100);
    match rt.exec_inst(itype(0x20, 8, 9, 0)) {
        Err((_, e)) => assert_eq!(
            e,
            err_of(Error::SegmentationFault {
                addr: 0x100,
                access: SegmentationFaultAccessType::Read,
            })
        ),
        _ => panic!("expected a segmentation fault"),
    }
}

#[test]
fn step_outside_text_faults_execute() {
    let mut rt = runtime_with(&[]);
    rt.state_mut().set_pc(0x1001_0000);
    match rt.step() {
        Err((_, e)) => assert_eq!(
            e,
            err_of(Error::SegmentationFault {
                addr: 0x1001_0000,
                access: SegmentationFaultAccessType::Execute,
            })
        ),
        _ => panic!("expected an execute fault"),
    }
}

#[test]
fn fetch_of_unwritten_text_is_unknown_instruction() {
    let rt = runtime_with(&[]);
    match rt.step() {
        Err((_, e)) => assert_eq!(e, err_of(Error::UnknownInstruction { addr: 0x0040_0000 })),
        _ => panic!("expected an unknown instruction"),
    }
}

#[test]
fn branches_and_jumps() {
    // BEQ taken skips one instruction.
    let mut rt = runtime_with(&[]);
    rt.state_mut().write_register(8, 5);
    rt.state_mut().write_register(9, 5);
    rt.state_mut().set_pc(0x0040_0004);
    let rt = match rt.exec_inst(itype(0x04, 8, 9, 1)) {
        Ok(Ok(rt)) => rt,
        _ => panic!("expected BEQ to succeed"),
    };
    assert_eq!(rt.state().pc(), 0x0040_0008);

    // BNE not taken falls through.
    let rt = match rt.exec_inst(itype(0x05, 8, 9, 4)) {
        Ok(Ok(rt)) => rt,
        _ => panic!("expected BNE to succeed"),
    };
    assert_eq!(rt.state().pc(), 0x0040_0008);

    // A backward branch: BLTZ with a negative offset.
    let mut rt = rt;
    rt.state_mut().write_register(10, -3);
    let rt = match rt.exec_inst(itype(0x01, 10, 0, 0xFFFF)) {
        Ok(Ok(rt)) => rt,
        _ => panic!("expected BLTZ to succeed"),
    };
    assert_eq!(rt.state().pc(), 0x0040_0004);

    // JAL links the advanced pc and jumps within the region.
    let rt = match rt.exec_inst((0x03 << 26) | 0x0012_3456) {
        Ok(Ok(rt)) => rt,
        _ => panic!("expected JAL to succeed"),
    };
    assert_eq!(rt.state().read_register(31).unwrap(), 0x0040_0004);
    assert_eq!(rt.state().pc(), 0x0012_3456 << 2);

    // JR comes back through a register.
    let mut rt = rt;
    rt.state_mut().write_register(8, 0x0040_0010);
    match rt.exec_inst(rtype(8, 0, 0, 0, 0x08)) {
        Ok(Ok(rt)) => assert_eq!(rt.state().pc(), 0x0040_0010),
        _ => panic!("expected JR to succeed"),
    }
}

#[test]
fn link_register_written_before_predicate_read() {
    // BLTZAL with an uninitialised predicate register still writes $ra.
    let mut rt = runtime_with(&[]);
    rt.state_mut().set_pc(0x0040_0004);
    match rt.exec_inst(itype(0x01, 8, 0x10, 1)) {
        Err((rt, e)) => {
            assert_eq!(e, err_of(Error::Uninitialised { value: Uninitialised::Register }));
            assert_eq!(rt.state().read_register(31).unwrap(), 0x0040_0004);
        }
        _ => panic!("expected the predicate read to fail"),
    }
}

#[test]
fn writes_to_register_zero_are_dropped() {
    let rt = runtime_with(&[itype(0x09, 0, 0, 0x1234)]);
    let rt = step_ok(rt);
    assert_eq!(rt.state().read_register(0).unwrap(), 0);
}

#[test]
fn shifts_and_rotates() {
    let mut rt = runtime_with(&[]);
    rt.state_mut().write_register(8, 0x8000_0001u32 as i32);
    // SLL by 1.
    let rt = match rt.exec_inst(rtype(0, 8, 9, 1, 0x00)) {
        Ok(Ok(rt)) => rt,
        _ => panic!("SLL"),
    };
    assert_eq!(rt.state().read_register(9).unwrap(), 2);
    // SRL by 1.
    let rt = match rt.exec_inst(rtype(0, 8, 10, 1, 0x02)) {
        Ok(Ok(rt)) => rt,
        _ => panic!("SRL"),
    };
    assert_eq!(rt.state().read_register(10).unwrap(), 0x4000_0000);
    // SRA by 1 keeps the sign.
    let rt = match rt.exec_inst(rtype(0, 8, 11, 1, 0x03)) {
        Ok(Ok(rt)) => rt,
        _ => panic!("SRA"),
    };
    assert_eq!(rt.state().read_register(11).unwrap(), 0xC000_0000u32 as i32);
    // ROTR by 1 carries the low bit to the top.
    let rt = match rt.exec_inst((1 << 21) | (8 << 16) | (12 << 11) | (1 << 6) | 0x02) {
        Ok(Ok(rt)) => rt,
        _ => panic!("ROTR"),
    };
    assert_eq!(rt.state().read_register(12).unwrap(), 0xC000_0000u32 as i32);
    drop(rt);
}

#[test]
fn count_leading_bits() {
    let mut rt = runtime_with(&[]);
    rt.state_mut().write_register(8, 0x0000_FFFF);
    // CLZ $t1,$t0
    let rt = match rt.exec_inst(rtype(8, 0, 9, 1, 0x10)) {
        Ok(Ok(rt)) => rt,
        _ => panic!("CLZ"),
    };
    assert_eq!(rt.state().read_register(9).unwrap(), 16);
    // CLO of the complement is the same count.
    let mut rt = rt;
    rt.state_mut().write_register(8, 0xFFFF_0000u32 as i32);
    let rt = match rt.exec_inst(rtype(8, 0, 10, 1, 0x11)) {
        Ok(Ok(rt)) => rt,
        _ => panic!("CLO"),
    };
    assert_eq!(rt.state().read_register(10).unwrap(), 16);
    // CLZ of zero is the full width.
    let mut rt = rt;
    rt.state_mut().write_register(8, 0);
    match rt.exec_inst(rtype(8, 0, 11, 1, 0x10)) {
        Ok(Ok(rt)) => assert_eq!(rt.state().read_register(11).unwrap(), 32),
        _ => panic!("CLZ"),
    }
}

#[test]
fn mult_and_div_families() {
    let mut rt = runtime_with(&[]);
    rt.state_mut().write_register(8, 0x0001_0000);
    rt.state_mut().write_register(9, 0x0001_0000);
    // MULT: 2^16 * 2^16 = 2^32 -> HI=1, LO=0.
    let rt = match rt.exec_inst(rtype(8, 9, 0, 0, 0x18)) {
        Ok(Ok(rt)) => rt,
        _ => panic!("MULT"),
    };
    assert_eq!(rt.state().read_hi().unwrap(), 1);
    assert_eq!(rt.state().read_lo().unwrap(), 0);

    // MADD adds 6 to HI:LO -> LO becomes 6.
    let mut rt = rt;
    rt.state_mut().write_register(8, 2);
    rt.state_mut().write_register(9, 3);
    let rt = match rt.exec_inst(special2(8, 9, 0, 0x00)) {
        Ok(Ok(rt)) => rt,
        _ => panic!("MADD"),
    };
    assert_eq!(rt.state().read_hi().unwrap(), 1);
    assert_eq!(rt.state().read_lo().unwrap(), 6);

    // MSUB takes the 6 back out.
    let rt = match rt.exec_inst(special2(8, 9, 0, 0x04)) {
        Ok(Ok(rt)) => rt,
        _ => panic!("MSUB"),
    };
    assert_eq!(rt.state().read_hi().unwrap(), 1);
    assert_eq!(rt.state().read_lo().unwrap(), 0);

    // DIV: -7 / 2 truncates toward zero; the remainder keeps the
    // dividend's sign.
    let mut rt = rt;
    rt.state_mut().write_register(8, -7);
    rt.state_mut().write_register(9, 2);
    let rt = match rt.exec_inst(rtype(8, 9, 0, 0, 0x1A)) {
        Ok(Ok(rt)) => rt,
        _ => panic!("DIV"),
    };
    assert_eq!(rt.state().read_lo().unwrap(), -3);
    assert_eq!(rt.state().read_hi().unwrap(), -1);

    // DIVU treats the operands as unsigned.
    let mut rt = rt;
    rt.state_mut().write_register(8, -2);
    rt.state_mut().write_register(9, 3);
    match rt.exec_inst(rtype(8, 9, 0, 0, 0x1B)) {
        Ok(Ok(rt)) => {
            assert_eq!(rt.state().read_lo().unwrap(), (0xFFFF_FFFEu32 / 3) as i32);
            assert_eq!(rt.state().read_hi().unwrap(), (0xFFFF_FFFEu32 % 3) as i32);
        }
        _ => panic!("DIVU"),
    }
}

#[test]
fn div_min_by_minus_one_wraps() {
    let mut rt = runtime_with(&[]);
    rt.state_mut().write_register(8, i32::MIN);
    rt.state_mut().write_register(9, -1);
    match rt.exec_inst(rtype(8, 9, 0, 0, 0x1A)) {
        Ok(Ok(rt)) => {
            assert_eq!(rt.state().read_lo().unwrap(), i32::MIN);
            assert_eq!(rt.state().read_hi().unwrap(), 0);
        }
        _ => panic!("DIV"),
    }
}

#[test]
fn byte_rearranging_instructions() {
    let mut rt = runtime_with(&[]);
    rt.state_mut().write_register(8, 0x1234_5678);
    // WSBH swaps the bytes of each halfword.
    let rt = match rt.exec_inst((0x1F << 26) | (8 << 16) | (9 << 11) | (0x02 << 6) | 0x20) {
        Ok(Ok(rt)) => rt,
        _ => panic!("WSBH"),
    };
    assert_eq!(rt.state().read_register(9).unwrap(), 0x3412_7856);
    // SEB sign-extends the low byte.
    let rt = match rt.exec_inst((0x1F << 26) | (8 << 16) | (10 << 11) | (0x10 << 6) | 0x20) {
        Ok(Ok(rt)) => rt,
        _ => panic!("SEB"),
    };
    assert_eq!(rt.state().read_register(10).unwrap(), 0x78);
    // SEH sign-extends the low halfword.
    let mut rt = rt;
    rt.state_mut().write_register(8, 0x1234_8765u32 as i32);
    match rt.exec_inst((0x1F << 26) | (8 << 16) | (11 << 11) | (0x18 << 6) | 0x20) {
        Ok(Ok(rt)) => assert_eq!(rt.state().read_register(11).unwrap(), 0xFFFF_8765u32 as i32),
        _ => panic!("SEH"),
    }
}

#[test]
fn movz_and_movn() {
    let mut rt = runtime_with(&[]);
    rt.state_mut().write_register(8, 99);
    rt.state_mut().write_register(9, 0);
    let rt = match rt.exec_inst(rtype(8, 9, 10, 0, 0x0A)) {
        Ok(Ok(rt)) => rt,
        _ => panic!("MOVZ"),
    };
    assert_eq!(rt.state().read_register(10).unwrap(), 99);
    // MOVN with a zero condition leaves the destination alone.
    match rt.exec_inst(rtype(8, 9, 11, 0, 0x0B)) {
        Ok(Ok(rt)) => assert!(rt.state().read_register(11).is_err()),
        _ => panic!("MOVN"),
    }
}

#[test]
fn slt_family() {
    let mut rt = runtime_with(&[]);
    rt.state_mut().write_register(8, -1);
    rt.state_mut().write_register(9, 1);
    let rt = match rt.exec_inst(rtype(8, 9, 10, 0, 0x2A)) {
        Ok(Ok(rt)) => rt,
        _ => panic!("SLT"),
    };
    assert_eq!(rt.state().read_register(10).unwrap(), 1);
    // Unsigned, -1 is the largest value.
    let rt = match rt.exec_inst(rtype(8, 9, 11, 0, 0x2B)) {
        Ok(Ok(rt)) => rt,
        _ => panic!("SLTU"),
    };
    assert_eq!(rt.state().read_register(11).unwrap(), 0);
    // SLTI / SLTIU against a sign-extended immediate.
    let rt = match rt.exec_inst(itype(0x0A, 8, 12, 0)) {
        Ok(Ok(rt)) => rt,
        _ => panic!("SLTI"),
    };
    assert_eq!(rt.state().read_register(12).unwrap(), 1);
    match rt.exec_inst(itype(0x0B, 8, 13, 0)) {
        Ok(Ok(rt)) => assert_eq!(rt.state().read_register(13).unwrap(), 0),
        _ => panic!("SLTIU"),
    }
}

#[test]
fn unknown_encodings_are_reported() {
    let rt = runtime_with(&[]);
    // LWC1 is recognised but not implemented.
    let mut rt = rt;
    rt.state_mut().write_register(8, 0x1001_0000);
    match rt.exec_inst(itype(0x31, 8, 9, 0)) {
        Err((_, e)) => match e {
            RushError::Runtime(re) => match re.error {
                Error::UnknownInstruction { .. } => {}
                other => panic!("unexpected error: {:?}", other),
            },
        },
        _ => panic!("expected an unknown instruction"),
    }
}

#[test]
fn current_and_next_inst() {
    let rt = runtime_with(&[itype(0x09, 0, 8, 1), itype(0x09, 0, 9, 2)]);
    assert_eq!(rt.current_inst().unwrap(), itype(0x09, 0, 8, 1));
    assert_eq!(rt.next_inst().unwrap(), itype(0x09, 0, 9, 2));
}

#[test]
fn mfhi_mflo_leave_hi_lo_in_place() {
    let mut rt = runtime_with(&[]);
    rt.state_mut().write_hi(11);
    rt.state_mut().write_lo(22);
    // MFHI $t3 then MFLO $t4: both transfers, HI and LO unchanged.
    let rt = match rt.exec_inst(rtype(0, 0, 11, 0, 0x10)) {
        Ok(Ok(rt)) => rt,
        _ => panic!("MFHI"),
    };
    let rt = match rt.exec_inst(rtype(0, 0, 12, 0, 0x12)) {
        Ok(Ok(rt)) => rt,
        _ => panic!("MFLO"),
    };
    assert_eq!(rt.state().read_register(11).unwrap(), 11);
    assert_eq!(rt.state().read_register(12).unwrap(), 22);
    assert_eq!(rt.state().read_hi().unwrap(), 11);
    assert_eq!(rt.state().read_lo().unwrap(), 22);
}

#[test]
fn addiu_wraps_modulo_2_32() {
    // ADDIU with imm -1 on the most negative value wraps to the most
    // positive.
    let mut rt = runtime_with(&[]);
    rt.state_mut().write_register(8, i32::MIN);
    match rt.exec_inst(itype(0x09, 8, 9, 0xFFFF)) {
        Ok(Ok(rt)) => assert_eq!(rt.state().read_register(9).unwrap(), i32::MAX),
        _ => panic!("expected ADDIU to succeed"),
    }
}

#[test]
fn loop_program_sums_and_exits() {
    // Sum 5+4+3+2+1 in $t1 with a BNE loop, then exit.
    let rt = runtime_with(&[
        itype(0x09, 0, 8, 5),      // ADDIU $t0,$zero,5
        itype(0x09, 0, 9, 0),      // ADDIU $t1,$zero,0
        rtype(9, 8, 9, 0, 0x21),   // loop: ADDU $t1,$t1,$t0
        itype(0x09, 8, 8, 0xFFFF), // ADDIU $t0,$t0,-1
        itype(0x05, 8, 0, 0xFFFD), // BNE $t0,$zero,loop
        itype(0x09, 0, 2, 10),     // ADDIU $v0,$zero,10
        rtype(0, 0, 0, 0, 0x0C),   // SYSCALL (exit)
    ]);
    let mut rt = rt;
    let mut fuel: u32 = 100;
    loop {
        assert!(fuel > 0, "the program did not finish");
        fuel -= 1;
        rt = match rt.step() {
            Ok(Ok(next)) => next,
            Ok(Err(RuntimeSyscallGuard::Exit(rt))) => {
                assert_eq!(rt.state().read_register(9).unwrap(), 15);
                return;
            }
            Ok(Err(_)) => panic!("unexpected guard"),
            Err((_, e)) => panic!("unexpected error: {:?}", e),
        };
    }
}

#[test]
fn reset_and_step_pc_facade() {
    let mut rt = runtime_with(&[]);
    rt.reset();
    let pc = rt.state().pc();
    rt.step_pc();
    assert_eq!(rt.state().pc(), pc + 4);
}
