//! Tests of the syscall marshaller, its guards and their continuations.

use rush_core::error::{Error, InvalidSyscallReason, RushError, RuntimeError};
use rush_core::layout::{GlobalRange, MemoryLayout, StackRange, TextRange};
use rush_core::runtime::{Binary, Runtime};
use rush_core::safe::Safe;
use rush_core::segment::HEAP_BOT;
use rush_core::syscall::RuntimeSyscallGuard;

fn layout() -> MemoryLayout {
    MemoryLayout {
        text: TextRange { start: 0x0040_0000, end: 0x004F_FFFF },
        data_bot: 0x1001_0000,
        global: GlobalRange { bot: 0x1000_0000, ptr: 0x1000_8000 },
        stack: StackRange { bot: 0x7FF0_0000, top: 0x7FFF_F000 },
    }
}

fn runtime_with_data(data: Vec<Safe<u8>>) -> Runtime {
    let binary = Binary { text: Vec::new(), data };
    Runtime::new(&binary, layout())
}

fn syscall_word() -> u32 {
    0x0C
}

fn err_of(e: Error) -> RushError {
    RushError::Runtime(RuntimeError::new(e))
}

/// Prepares a runtime with `$v0` and the three argument registers.
fn with_regs(v0: i32, a0: Option<i32>, a1: Option<i32>, a2: Option<i32>) -> Runtime {
    let mut rt = runtime_with_data(Vec::new());
    rt.state_mut().write_register(2, v0);
    if let Some(a) = a0 {
        rt.state_mut().write_register(4, a);
    }
    if let Some(a) = a1 {
        rt.state_mut().write_register(5, a);
    }
    if let Some(a) = a2 {
        rt.state_mut().write_register(6, a);
    }
    rt
}

#[test]
fn print_int_guard_carries_value() {
    let rt = with_regs(1, Some(-42), None, None);
    match rt.exec_inst(syscall_word()) {
        Ok(Err(RuntimeSyscallGuard::PrintInt(args, _))) => assert_eq!(args.value, -42),
        _ => panic!("expected a print-int guard"),
    }
}

#[test]
fn print_string_reads_until_nul() {
    let mut data = Vec::new();
    for b in b"hi there" {
        data.push(Safe::Valid(*b));
    }
    data.push(Safe::Valid(0));
    data.push(Safe::Valid(b'x'));
    let mut rt = runtime_with_data(data);
    rt.state_mut().write_register(2, 4);
    rt.state_mut().write_register(4, 0x1001_0000);
    match rt.exec_inst(syscall_word()) {
        Ok(Err(RuntimeSyscallGuard::PrintString(args, _))) => {
            assert_eq!(args.value, b"hi there".to_vec());
        }
        _ => panic!("expected a print-string guard"),
    }
}

#[test]
fn print_char_truncates_to_byte() {
    let rt = with_regs(11, Some(0x161), None, None);
    match rt.exec_inst(syscall_word()) {
        Ok(Err(RuntimeSyscallGuard::PrintChar(args, _))) => assert_eq!(args.value, 0x61),
        _ => panic!("expected a print-char guard"),
    }
}

#[test]
fn sbrk_returns_old_top_and_grows() {
    let rt = with_regs(9, Some(0x100), None, None);
    match rt.exec_inst(syscall_word()) {
        Ok(Err(RuntimeSyscallGuard::Sbrk(args, rt))) => {
            assert_eq!(args.bytes, 0x100);
            assert_eq!(rt.state().read_register(2).unwrap(), HEAP_BOT as i32);
            assert_eq!(rt.state().heap_size(), 0x100);
        }
        _ => panic!("expected an sbrk guard"),
    }
}

#[test]
fn sbrk_saturates_to_zero() {
    let rt = with_regs(9, Some(-0x100), None, None);
    match rt.exec_inst(syscall_word()) {
        Ok(Err(RuntimeSyscallGuard::Sbrk(_, rt))) => {
            assert_eq!(rt.state().heap_size(), 0);
        }
        _ => panic!("expected an sbrk guard"),
    }
}

#[test]
fn sbrk_shrink_within_bounds() {
    let rt = with_regs(9, Some(0x200), None, None);
    let rt = match rt.exec_inst(syscall_word()) {
        Ok(Err(RuntimeSyscallGuard::Sbrk(_, rt))) => rt,
        _ => panic!("expected an sbrk guard"),
    };
    let mut rt = rt;
    rt.state_mut().write_register(2, 9);
    rt.state_mut().write_register(4, -0x80);
    match rt.exec_inst(syscall_word()) {
        Ok(Err(RuntimeSyscallGuard::Sbrk(_, rt))) => {
            assert_eq!(rt.state().heap_size(), 0x180);
            // The old top rode along in $v0 before the shrink.
            assert_eq!(rt.state().read_register(2).unwrap(), (HEAP_BOT + 0x200) as i32);
        }
        _ => panic!("expected an sbrk guard"),
    }
}

#[test]
fn exit_status_with_uninitialised_a0_is_zero() {
    let rt = with_regs(17, None, None, None);
    match rt.exec_inst(syscall_word()) {
        Ok(Err(RuntimeSyscallGuard::ExitStatus(args, _))) => assert_eq!(args.exit_code, 0),
        _ => panic!("expected an exit-status guard"),
    }
}

#[test]
fn exit_status_passes_code_through() {
    let rt = with_regs(17, Some(3), None, None);
    match rt.exec_inst(syscall_word()) {
        Ok(Err(RuntimeSyscallGuard::ExitStatus(args, _))) => assert_eq!(args.exit_code, 3),
        _ => panic!("expected an exit-status guard"),
    }
}

#[test]
fn read_string_resume_truncates_and_terminates() {
    // Buffer of 5 bytes in the data segment: at most 4 input bytes plus NUL.
    let rt = with_regs(8, Some(0x1001_0000), Some(5), None);
    let guard = match rt.exec_inst(syscall_word()) {
        Ok(Err(RuntimeSyscallGuard::ReadString(args, g))) => {
            assert_eq!(args.max_len, 5);
            g
        }
        _ => panic!("expected a read-string guard"),
    };
    let rt = guard.resume(b"abcdefgh".to_vec());
    let got = rt.state().read_mem_bytes(0x1001_0000, 5).unwrap();
    assert_eq!(got, vec![b'a', b'b', b'c', b'd', 0]);
}

#[test]
fn read_string_resume_short_input() {
    let rt = with_regs(8, Some(0x1001_0000), Some(16), None);
    let guard = match rt.exec_inst(syscall_word()) {
        Ok(Err(RuntimeSyscallGuard::ReadString(_, g))) => g,
        _ => panic!("expected a read-string guard"),
    };
    let rt = guard.resume(b"ok".to_vec());
    let got = rt.state().read_mem_bytes(0x1001_0000, 3).unwrap();
    assert_eq!(got, vec![b'o', b'k', 0]);
}

#[test]
fn read_string_resume_zero_length_writes_nothing() {
    let rt = with_regs(8, Some(0x1001_0000), Some(0), None);
    let guard = match rt.exec_inst(syscall_word()) {
        Ok(Err(RuntimeSyscallGuard::ReadString(_, g))) => g,
        _ => panic!("expected a read-string guard"),
    };
    let rt = guard.resume(b"zz".to_vec());
    // Nothing was mapped at the buffer address.
    assert!(rt.state().read_mem_byte(0x1001_0000).is_err());
}

#[test]
fn read_resume_writes_bytes_and_count() {
    let rt = with_regs(14, Some(3), Some(0x1001_0000), Some(2));
    let guard = match rt.exec_inst(syscall_word()) {
        Ok(Err(RuntimeSyscallGuard::Read(args, g))) => {
            assert_eq!(args.fd, 3);
            assert_eq!(args.len, 2);
            g
        }
        _ => panic!("expected a read guard"),
    };
    // The host hands back more bytes than requested: only `len` are stored.
    let rt = guard.resume(2, b"xyz".to_vec());
    assert_eq!(rt.state().read_register(2).unwrap(), 2);
    assert_eq!(rt.state().read_mem_bytes(0x1001_0000, 2).unwrap(), vec![b'x', b'y']);
    assert!(rt.state().read_mem_byte(0x1001_0002).is_err());
}

#[test]
fn write_guard_carries_buffer() {
    let mut data = Vec::new();
    for b in b"payload" {
        data.push(Safe::Valid(*b));
    }
    let mut rt = runtime_with_data(data);
    rt.state_mut().write_register(2, 15);
    rt.state_mut().write_register(4, 7);
    rt.state_mut().write_register(5, 0x1001_0000);
    rt.state_mut().write_register(6, 7);
    match rt.exec_inst(syscall_word()) {
        Ok(Err(RuntimeSyscallGuard::Write(args, g))) => {
            assert_eq!(args.fd, 7);
            assert_eq!(args.buf, b"payload".to_vec());
            let rt = g.resume(7);
            assert_eq!(rt.state().read_register(2).unwrap(), 7);
        }
        _ => panic!("expected a write guard"),
    }
}

#[test]
fn open_guard_carries_path_flags_mode() {
    let mut data = Vec::new();
    for b in b"file.txt" {
        data.push(Safe::Valid(*b));
    }
    data.push(Safe::Valid(0));
    let mut rt = runtime_with_data(data);
    rt.state_mut().write_register(2, 13);
    rt.state_mut().write_register(4, 0x1001_0000);
    rt.state_mut().write_register(5, 1);
    rt.state_mut().write_register(6, 0o644);
    match rt.exec_inst(syscall_word()) {
        Ok(Err(RuntimeSyscallGuard::Open(args, g))) => {
            assert_eq!(args.path, b"file.txt".to_vec());
            assert_eq!(args.flags, 1);
            assert_eq!(args.mode, 0o644);
            let rt = g.resume(5);
            assert_eq!(rt.state().read_register(2).unwrap(), 5);
        }
        _ => panic!("expected an open guard"),
    }
}

#[test]
fn close_guard_resumes_with_status() {
    let rt = with_regs(16, Some(5), None, None);
    match rt.exec_inst(syscall_word()) {
        Ok(Err(RuntimeSyscallGuard::Close(args, g))) => {
            assert_eq!(args.fd, 5);
            let rt = g.resume(0);
            assert_eq!(rt.state().read_register(2).unwrap(), 0);
        }
        _ => panic!("expected a close guard"),
    }
}

#[test]
fn read_char_resume_zero_extends() {
    let rt = with_regs(12, None, None, None);
    match rt.exec_inst(syscall_word()) {
        Ok(Err(RuntimeSyscallGuard::ReadChar(g))) => {
            let rt = g.resume(0xFF);
            assert_eq!(rt.state().read_register(2).unwrap(), 0xFF);
        }
        _ => panic!("expected a read-char guard"),
    }
}

#[test]
fn exit_guard_keeps_runtime() {
    let rt = with_regs(10, None, None, None);
    match rt.exec_inst(syscall_word()) {
        Ok(Err(RuntimeSyscallGuard::Exit(rt))) => {
            assert_eq!(rt.state().read_register(2).unwrap(), 10);
        }
        _ => panic!("expected an exit guard"),
    }
}

#[test]
fn breakpoint_yields_guard() {
    let rt = with_regs(0, None, None, None);
    match rt.exec_inst(0x0D) {
        Ok(Err(RuntimeSyscallGuard::Breakpoint(_))) => {}
        _ => panic!("expected a breakpoint guard"),
    }
}

#[test]
fn unknown_syscall_number_is_rejected() {
    let rt = with_regs(99, None, None, None);
    match rt.exec_inst(syscall_word()) {
        Err((_, e)) => assert_eq!(
            e,
            err_of(Error::InvalidSyscall { syscall: 99, reason: InvalidSyscallReason::Unknown })
        ),
        _ => panic!("expected an invalid syscall"),
    }
}

#[test]
fn float_syscalls_are_unimplemented() {
    for n in [2, 3, 6, 7] {
        let rt = with_regs(n, Some(0), None, None);
        match rt.exec_inst(syscall_word()) {
            Err((_, e)) => assert_eq!(
                e,
                err_of(Error::InvalidSyscall {
                    syscall: n,
                    reason: InvalidSyscallReason::Unimplemented,
                })
            ),
            _ => panic!("expected an invalid syscall"),
        }
    }
}
