//! The engine's laws: properties that hold of every state and every
//! instruction word, stated against the same models the executors are
//! specified with.

use vstd::prelude::*;
use crate::bits::{u32_of_i32, sign_ext_8, sign_ext_16, trunc_8, word_b0, word_b1, word_b2,
    word_b3, lemma_word_bytes_inverse};
use crate::error::{Error, RushError, RushResult, AlignmentRequirement, SegmentationFaultAccessType,
    Uninitialised, rt_err};
use crate::exec_i::i_nontrap_post;
use crate::exec_r::r_nontrap_post;
use crate::runtime::{Runtime, SteppedRuntime, SPECIAL, SPECIAL2};
use crate::safe::{Safe, safe_trunc_8};
use crate::segment::Segment;
use crate::state::StateModel;
use crate::syscall::{guard_state, outcome_wf, syscall_post, RuntimeSyscallGuard, sbrk_new_heap};

verus! {

/// For every state and every fetched word, stepping yields a new runtime, a
/// guard, or an error with the runtime riding along — and in every case the
/// register 0 slot of the carried state still reads `Valid(0)`.
pub proof fn lemma_step_keeps_zero_register(r: Result<SteppedRuntime, (Runtime, RushError)>)
    requires
        outcome_wf(r),
    ensures
        match r {
            Ok(Ok(rt)) => rt.state@.reg(0) == Safe::Valid(0i32),
            Ok(Err(g)) => guard_state(g).reg(0) == Safe::Valid(0i32),
            Err((rt, _)) => rt.state@.reg(0) == Safe::Valid(0i32),
        },
{
}

/// Writes into the text segment always fail with a write fault, and both
/// reads and writes at an unmapped address fail with the matching fault;
/// a failed write leaves the state as it was.
pub proof fn lemma_text_and_unmapped_protection(m: StateModel, addr: u32, b: Safe<u8>)
    ensures
        m.seg(addr) == Segment::Text ==> m.byte_write_result(addr, b) == Result::<
            StateModel,
            RushError,
        >::Err(rt_err(Error::SegmentationFault { addr, access: SegmentationFaultAccessType::Write })),
        m.seg(addr) == Segment::Unmapped ==> m.byte_write_result(addr, b) == Result::<
            StateModel,
            RushError,
        >::Err(rt_err(Error::SegmentationFault { addr, access: SegmentationFaultAccessType::Write })),
        m.seg(addr) == Segment::Unmapped ==> m.byte_read_result(addr) == RushResult::<
            Safe<u8>,
        >::Err(rt_err(Error::SegmentationFault { addr, access: SegmentationFaultAccessType::Read })),
{
}

/// ADDIU equals the mathematical sum of the register and the sign-extended
/// immediate, modulo 2^32.
pub proof fn lemma_addiu_is_sum_mod_2_32(
    pre: StateModel,
    post: StateModel,
    r: RushResult<()>,
    rs: u32,
    rt: u32,
    imm: u16,
)
    requires
        pre.wf(),
        rs < 32,
        rt < 32,
        pre.reg_ok(rs),
        i_nontrap_post(pre, post, r, 0x09, rs, rt, imm),
    ensures
        r is Ok,
        rt != 0 ==> u32_of_i32(post.reg_val(rt)) as int == (pre.reg_val(rs) + sign_ext_16(imm))
            % 0x1_0000_0000,
{
    let t = pre.reg_val(rs) + sign_ext_16(imm);
    if t >= 0 {
        vstd::arithmetic::div_mod::lemma_small_mod(t as nat, 0x1_0000_0000nat);
    } else {
        vstd::arithmetic::div_mod::lemma_mod_add_multiples_vanish(t, 0x1_0000_0000int);
        vstd::arithmetic::div_mod::lemma_small_mod((t + 0x1_0000_0000) as nat, 0x1_0000_0000nat);
    }
}

/// ADDI fails with `IntegerOverflow` exactly when the signed sum leaves the
/// 32-bit range, and otherwise writes that sum.
pub proof fn lemma_addi_overflow_iff(
    pre: StateModel,
    post: StateModel,
    r: RushResult<()>,
    rs: u32,
    rt: u32,
    imm: u16,
)
    requires
        pre.wf(),
        rs < 32,
        rt < 32,
        pre.reg_ok(rs),
        i_nontrap_post(pre, post, r, 0x08, rs, rt, imm),
    ensures
        r == RushResult::<()>::Err(rt_err(Error::IntegerOverflow)) <==> !(i32::MIN <= pre.reg_val(
            rs,
        ) + sign_ext_16(imm) <= i32::MAX),
        r is Ok && rt != 0 ==> post.reg_val(rt) == pre.reg_val(rs) + sign_ext_16(imm),
{
}

/// Round trip: storing a word to a word-aligned writable address and then
/// reading a word back yields the stored word.
pub proof fn lemma_word_round_trip(m: StateModel, addr: u32, w: u32)
    requires
        m.word_write_result(addr, Safe::Valid(w)) is Ok,
    ensures
        m.word_write_result(addr, Safe::Valid(w)) matches Ok(m2) ==> m2.word_read_result(addr)
            == RushResult::<Safe<u32>>::Ok(Safe::Valid(w)),
{
    let m2 = m.store_word(addr, Safe::Valid(w));
    lemma_word_bytes_inverse(word_b0(w), word_b1(w), word_b2(w), word_b3(w));
    assert(m2.mem_byte(addr) == Safe::Valid(word_b0(w)));
    assert(m2.mem_byte((addr + 1) as u32) == Safe::Valid(word_b1(w)));
    assert(m2.mem_byte((addr + 2) as u32) == Safe::Valid(word_b2(w)));
    assert(m2.mem_byte((addr + 3) as u32) == Safe::Valid(word_b3(w)));
}

/// Round trip with width: storing the truncated low byte of a register
/// value and loading it back with sign extension yields the low byte
/// sign-extended.
pub proof fn lemma_byte_round_trip_sign_extends(m: StateModel, addr: u32, v: i32)
    requires
        m.byte_write_result(addr, safe_trunc_8(Safe::Valid(v))) is Ok,
    ensures
        m.byte_write_result(addr, safe_trunc_8(Safe::Valid(v))) matches Ok(m2) ==> {
            &&& m2.byte_read_result(addr) == RushResult::<Safe<u8>>::Ok(Safe::Valid(trunc_8(v)))
            &&& crate::safe::safe_sign_ext_8(Safe::Valid(trunc_8(v))) == Safe::Valid(
                sign_ext_8(trunc_8(v)),
            )
        },
{
}

/// Idempotence: MFHI and MFLO leave HI and LO exactly as they were.
pub proof fn lemma_mfhi_mflo_keep_hilo(
    pre: StateModel,
    post: StateModel,
    r: RushResult<()>,
    funct: u32,
    rd: u32,
    rs: u32,
    rt: u32,
    shamt: u32,
)
    requires
        funct == 0x10 && shamt == 0x00 || funct == 0x12,
        r_nontrap_post(pre, post, r, SPECIAL, funct, rd, rs, rt, shamt),
        r is Ok,
    ensures
        post.hi == pre.hi,
        post.lo == pre.lo,
{
}

/// After MUL, whatever the operands were, HI and LO read as uninitialised
/// until rewritten.
pub proof fn lemma_mul_clobbers_hilo(
    pre: StateModel,
    post: StateModel,
    r: RushResult<()>,
    rd: u32,
    rs: u32,
    rt: u32,
    shamt: u32,
)
    requires
        r_nontrap_post(pre, post, r, SPECIAL2, 0x02, rd, rs, rt, shamt),
        r is Ok,
    ensures
        post.hi is Uninitialised,
        post.lo is Uninitialised,
{
}

/// A halfword read at an odd address fails with the half-alignment error,
/// whatever the memory holds.
pub proof fn lemma_half_read_alignment(m: StateModel, addr: u32)
    requires
        addr % 2 == 1,
    ensures
        m.half_read_result(addr) == RushResult::<Safe<u16>>::Err(
            rt_err(
                Error::UnalignedAccess { addr, alignment_requirement: AlignmentRequirement::Half },
            ),
        ),
{
}

/// A word read at an address that is 2 modulo 4 fails with the word
/// alignment error, whatever the memory holds.
pub proof fn lemma_word_read_alignment(m: StateModel, addr: u32)
    requires
        addr % 4 == 2,
    ensures
        m.word_read_result(addr) == RushResult::<Safe<u32>>::Err(
            rt_err(
                Error::UnalignedAccess { addr, alignment_requirement: AlignmentRequirement::Word },
            ),
        ),
{
}

/// DIV by a zero divisor fails with `DivisionByZero` and leaves LO and HI
/// untouched.
pub proof fn lemma_div_by_zero(
    pre: StateModel,
    post: StateModel,
    r: RushResult<()>,
    rd: u32,
    rs: u32,
    rt: u32,
    shamt: u32,
)
    requires
        pre.reg_ok(rs),
        pre.reg_ok(rt),
        pre.reg_val(rt) == 0,
        r_nontrap_post(pre, post, r, SPECIAL, 0x1A, rd, rs, rt, shamt),
    ensures
        r == RushResult::<()>::Err(rt_err(Error::DivisionByZero)),
        post == pre,
{
}

/// SBRK with a request below the negated heap size saturates the heap size
/// to zero; more generally the new heap size never underflows or overflows.
pub proof fn lemma_sbrk_saturates(h: u32, bytes: i32)
    ensures
        bytes < 0 && h + bytes < 0 ==> sbrk_new_heap(h, bytes) == 0,
        bytes < 0 && h + bytes >= 0 ==> sbrk_new_heap(h, bytes) == h + bytes,
        bytes > 0 && h + bytes > 0xFFFF_FFFF ==> sbrk_new_heap(h, bytes) == 0xFFFF_FFFFu32,
{
}

/// An exit-status syscall with `$a0` uninitialised reports exit code 0.
pub proof fn lemma_exit_status_uninit_reads_zero(
    pre: StateModel,
    mem: crate::layout::MemoryLayout,
    r: Result<RuntimeSyscallGuard, (Runtime, RushError)>,
)
    requires
        pre.reg_ok(2),
        pre.reg_val(2) == 17,
        !pre.reg_ok(4),
        syscall_post(pre, mem, r),
    ensures
        match r {
            Ok(RuntimeSyscallGuard::ExitStatus(args, _)) => args.exit_code == 0,
            _ => false,
        },
{
}

} // verus!
