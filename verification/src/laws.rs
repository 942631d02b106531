//! General properties of the instruction semantics, stated over the
//! specification transitions in [`crate::model`] and proved once for every
//! state they apply to.

use vstd::prelude::*;

use crate::model::{
    is_known_opcode, spec_fetch_byte, spec_fetch_word, spec_jump_indirect, spec_jump_subroutine,
    spec_lda, spec_lda_immediate, spec_ldx, spec_ldx_immediate, spec_ldy, spec_ldy_immediate,
    spec_pha, spec_php, spec_pla, spec_plp, spec_reset, spec_resolve, spec_return_subroutine,
    step, AddrMode, CpuView, Fault, Outcome,
};
use crate::op_codes::NOP;
use crate::processor_status::lemma_bits_round_trip;

verus! {

/// For every addressing mode of every load instruction: when the mode
/// resolves its effective address, the destination register receives
/// exactly the byte at that address, the Zero flag holds exactly when that
/// byte is zero, and the Negative flag holds exactly when its bit 7 is set
/// (the byte is at least 0x80).
pub proof fn lemma_load_gets_effective_byte(s: CpuView, mode: AddrMode)
    requires
        s.wf(),
    ensures
        (match spec_resolve(s, mode) {
            Ok(resolved) => {
                let value = resolved.0.read(resolved.1);
                &&& spec_lda(s, mode).1 is None
                &&& spec_lda(s, mode).0.a == value
                &&& spec_lda(s, mode).0.ps.z == (value == 0)
                &&& spec_lda(s, mode).0.ps.n == (value >= 0x80)
                &&& spec_ldx(s, mode).1 is None
                &&& spec_ldx(s, mode).0.x == value
                &&& spec_ldx(s, mode).0.ps.z == (value == 0)
                &&& spec_ldx(s, mode).0.ps.n == (value >= 0x80)
                &&& spec_ldy(s, mode).1 is None
                &&& spec_ldy(s, mode).0.y == value
                &&& spec_ldy(s, mode).0.ps.z == (value == 0)
                &&& spec_ldy(s, mode).0.ps.n == (value >= 0x80)
            },
            Err(_) => true,
        }),
{
}

/// The immediate forms of the loads: when the operand byte can be fetched,
/// the destination register receives exactly that operand, with the Zero
/// and Negative flags recomputed from it the same way.
pub proof fn lemma_load_immediate(s: CpuView)
    requires
        s.wf(),
    ensures
        (match spec_fetch_byte(s) {
            Ok(fetched) => {
                let value = fetched.1;
                &&& spec_lda_immediate(s).1 is None
                &&& spec_lda_immediate(s).0.a == value
                &&& spec_lda_immediate(s).0.ps.z == (value == 0)
                &&& spec_lda_immediate(s).0.ps.n == (value >= 0x80)
                &&& spec_ldx_immediate(s).1 is None
                &&& spec_ldx_immediate(s).0.x == value
                &&& spec_ldx_immediate(s).0.ps.z == (value == 0)
                &&& spec_ldx_immediate(s).0.ps.n == (value >= 0x80)
                &&& spec_ldy_immediate(s).1 is None
                &&& spec_ldy_immediate(s).0.y == value
                &&& spec_ldy_immediate(s).0.ps.z == (value == 0)
                &&& spec_ldy_immediate(s).0.ps.n == (value >= 0x80)
            },
            Err(_) => true,
        }),
{
}

/// Pushing the accumulator and then popping it restores the original
/// accumulator value and leaves the stack pointer unchanged net of the two
/// operations.
pub proof fn lemma_push_pull_accumulator(s: CpuView)
    requires
        s.wf(),
    ensures
        spec_pla(spec_pha(s)).a == s.a,
        spec_pla(spec_pha(s)).sp == s.sp,
{
}

/// Pushing the status register and then popping it restores the identical
/// flag pattern, and leaves the stack pointer unchanged net of the two
/// operations.
pub proof fn lemma_push_pull_status(s: CpuView)
    requires
        s.wf(),
    ensures
        spec_plp(spec_php(s)).ps == s.ps,
        spec_plp(spec_php(s)).sp == s.sp,
{
    lemma_bits_round_trip(s.ps);
}

/// Resetting twice in a row yields the identical machine state both times:
/// the second reset changes nothing the first did not already establish.
pub proof fn lemma_reset_idempotent(s: CpuView, address: Option<u16>)
    requires
        s.wf(),
    ensures
        spec_reset(spec_reset(s, address), address) == spec_reset(s, address),
{
    let once = spec_reset(s, address);
    let twice = spec_reset(once, address);
    match address {
        None => {
            assert(twice =~= once);
        },
        Some(_) => {
            assert(twice.mem =~= once.mem);
            assert(twice =~= once);
        },
    }
}

/// Calling a subroutine and immediately returning resumes at the
/// instruction following the call — the program counter lands two bytes
/// past the operand fetch — with the stack pointer restored to its
/// pre-call value.
pub proof fn lemma_subroutine_round_trip(s: CpuView)
    requires
        s.wf(),
        s.pc < 0xFFFE,
    ensures
        spec_jump_subroutine(s).1 is None,
        spec_return_subroutine(spec_jump_subroutine(s).0).pc == s.pc + 2,
        spec_return_subroutine(spec_jump_subroutine(s).0).sp == s.sp,
{
    let called = spec_jump_subroutine(s).0;
    let ret = (s.pc + 1) as u16;
    assert(s.sp as int != s.sp.wrapping_add(1) as int);
    assert(called.mem[s.sp as int] == (ret % 256) as u8);
    assert(called.mem[s.sp.wrapping_add(1) as int] == (ret / 256) as u8);
    assert(called.sp.wrapping_add(2) == s.sp);
    assert(spec_return_subroutine(called).pc == ret.wrapping_add(1));
}

/// The page-boundary quirk of the indirect absolute jump: when the fetched
/// pointer address has 0xFF as its low byte, the target's high byte is read
/// from the start of that same page — the address 0xFF bytes below the
/// pointer — never from the next page.
pub proof fn lemma_indirect_jump_page_wrap(s: CpuView)
    requires
        s.wf(),
    ensures
        (match spec_fetch_word(s) {
            Ok(fetched) => fetched.1 % 256 == 0xFF ==> {
                &&& spec_jump_indirect(s).1 is None
                &&& spec_jump_indirect(s).0.pc == fetched.0.read(fetched.1) + 256 * fetched.0.read(
                    (fetched.1 - 0xFF) as u16,
                )
            },
            Err(_) => true,
        }),
{
}

/// An opcode byte outside the dispatch table is a fatal fault that reports
/// exactly that opcode and the address it was fetched from, and the machine
/// keeps every register, flag, and memory cell as it was — nothing beyond
/// the opcode fetch itself has happened.
pub proof fn lemma_unknown_opcode_fault(s: CpuView)
    requires
        s.wf(),
        s.pc < 0xFFFF,
        s.read(s.pc) != NOP,
        !is_known_opcode(s.read(s.pc)),
    ensures
        step(s) == Outcome::Faulted(
            s.with_pc((s.pc + 1) as u16),
            Fault::UnknownOpcode { opcode: s.read(s.pc), pc: s.pc },
        ),
{
}

} // verus!
