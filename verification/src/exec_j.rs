//! The J-type executor: absolute jumps within the current 256 MiB region,
//! with and without linking, and the printf diagnostic hook.

use vstd::prelude::*;
use std::io::Write;
use crate::bits::{i32_of_u32, u32_to_i32, i32_to_u32};
use crate::register::Register;
use crate::runtime::{Runtime, JUMP, PRINTF_ADDR};
use crate::safe::Safe;
use crate::state::StateModel;

verus! {

/// The target of a J-type instruction: the top nibble of the advanced
/// program counter glued onto the shifted 26-bit field.
pub open spec fn jump_target(pc: u32, target: u32) -> u32 {
    ((pc / 0x1000_0000) * 0x1000_0000 + target * 4) as u32
}

/// What the J-type executor does. A jump to the printf hook address emits a
/// diagnostic and leaves the state unchanged; J replaces the program
/// counter; JAL links the advanced program counter into `$ra` first.
pub open spec fn j_post(pre: StateModel, post: StateModel, opcode: u32, target: u32) -> bool {
    let dest = jump_target(pre.pc, target);
    if dest == PRINTF_ADDR {
        post == pre
    } else if opcode == JUMP {
        post == pre.with_pc(dest)
    } else {
        post == pre.with_reg(31, Safe::Valid(i32_of_u32(pre.pc))).with_pc(dest)
    }
}

/// Relies on `writeln` to standard output: prints the format string and the
/// first argument of an intercepted printf call.
#[verifier::external_body]
fn emit_printf_diagnostic(fmt: &Vec<u8>, value: i32) {
    if let Ok(s) = std::str::from_utf8(fmt.as_slice()) {
        let _ = writeln!(std::io::stdout(), "fmt -> {}", s);
        let _ = writeln!(std::io::stdout(), "value -> {}", value);
    }
}

impl Runtime {
    /// Executes a J-type instruction against the current state.
    pub(crate) fn execute_j(&mut self, opcode: u32, target: u32)
        requires
            old(self).wf(),
            opcode == 0x02 || opcode == 0x03,
            target < 0x0400_0000,
        ensures
            final(self).wf(),
            final(self).memory == old(self).memory,
            j_post(old(self).state@, final(self).state@, opcode, target),
    {
        let pc = self.state.pc();
        let dest = (pc / 0x1000_0000) * 0x1000_0000 + target * 4;
        if dest == PRINTF_ADDR {
            // Diagnostic hook: print the NUL-terminated string `$a0` points
            // at and the value of `$a1`, and return without branching.
            if let Ok(fmt_addr) = self.state.read_register(Register::A0.to_u32()) {
                if let Ok(fmt) = self.state.read_mem_string(i32_to_u32(fmt_addr)) {
                    if let Ok(value) = self.state.read_register(Register::A1.to_u32()) {
                        emit_printf_diagnostic(&fmt, value);
                    }
                }
            }
            return;
        }
        match opcode {
            // J
            0x02 => {
                self.state.set_pc(dest);
            },
            // JAL
            _ => {
                self.state.write_register(Register::Ra.to_u32(), u32_to_i32(pc));
                self.state.set_pc(dest);
            },
        }
    }
}

} // verus!
