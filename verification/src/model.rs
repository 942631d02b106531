//! The mathematical model of the machine: a ghost view of the whole state,
//! one specification transition per instruction, and a small-step `run_n`
//! semantics for the dispatch loop.
//!
//! The executable engine in [`crate::cpu`] is proved to follow these
//! transitions exactly; the laws in [`crate::laws`] are proved about them.

use vstd::prelude::*;

use crate::memory::MAX_MEM;
use crate::op_codes::{
    ANDA_ABS, ANDA_IM, ANDA_X_ABS, ANDA_Y_ABS, ANDA_ZP, ANDA_ZP_IY, ANDA_ZP_X, ANDA_ZP_XI, JMP_ABS,
    JMP_ABS_IND, JSR, LDA_ABS, LDA_ABS_X, LDA_ABS_Y, LDA_IM, LDA_ZP, LDA_ZP_IY, LDA_ZP_X,
    LDA_ZP_XI, LDX_ABS, LDX_ABS_Y, LDX_IM, LDX_ZP, LDX_ZP_Y, LDY_ABS, LDY_ABS_X, LDY_IM, LDY_ZP,
    LDY_ZP_X, LSR_ABS, LSR_ABS_X, LSR_ACC, LSR_ZP, LSR_ZP_X, ORA_ABS, ORA_IM, ORA_X_ABS,
    ORA_Y_ABS, ORA_ZP, ORA_ZP_IY, ORA_ZP_X, ORA_ZP_XI, PHA, PHP, PLA, PLP, RTS, SEC, SED, SEI,
    TAX, TAY, TSX, TXA, TXS, TYA,
};
use crate::processor_status::{Flag, ProcessorStatus};

verus! {

/// A fatal condition that terminates execution with no recovery.
#[derive(Clone, Copy, PartialEq, Eq, Structural, Debug)]
pub enum Fault {
    /// A fetch would advance the program counter past the last valid memory
    /// address. Carries the program counter at the failed fetch.
    PcOutOfRange { pc: u16 },
    /// The fetched opcode byte matches no entry in the dispatch table.
    /// Carries the unrecognized byte and the address it was fetched from.
    UnknownOpcode { opcode: u8, pc: u16 },
}

/// An addressing mode that yields an effective memory address.
/// (Immediate mode yields an operand value instead and stands apart.)
#[derive(Clone, Copy, PartialEq, Eq, Structural, Debug)]
pub enum AddrMode {
    /// one operand byte, used directly as the address
    ZeroPage,
    /// one operand byte plus the x register (not masked to 8 bits)
    ZeroPageX,
    /// one operand byte plus the y register (not masked to 8 bits)
    ZeroPageY,
    /// two operand bytes, little-endian, used directly as the address
    Absolute,
    /// two operand bytes plus the x register, wrapping at 16 bits
    AbsoluteX,
    /// two operand bytes plus the y register, wrapping at 16 bits
    AbsoluteY,
    /// pointer word read at (operand byte + x), then dereferenced
    XIndirect,
    /// pointer word read at the operand byte, plus y, then dereferenced
    IndirectY,
}

/// The whole machine state as mathematical values: the register file, the
/// status register, and the memory contents.
#[verifier::ext_equal]
pub ghost struct CpuView {
    /// program counter
    pub pc: u16,
    /// stack pointer
    pub sp: u16,
    /// accumulator
    pub a: u8,
    /// x index register
    pub x: u8,
    /// y index register
    pub y: u8,
    /// processor status
    pub ps: ProcessorStatus,
    /// memory contents
    pub mem: Seq<u8>,
}

impl CpuView {
    /// The state is well formed when memory spans the whole address space.
    pub open spec fn wf(self) -> bool {
        self.mem.len() == MAX_MEM
    }

    /// The byte at an address.
    pub open spec fn read(self, address: u16) -> u8 {
        self.mem[address as int]
    }

    /// The little-endian word at an address; the high byte sits one cell
    /// above the low byte, wrapping at the top of the address space.
    pub open spec fn word(self, address: u16) -> u16 {
        (self.read(address) + 256 * self.read(address.wrapping_add(1))) as u16
    }

    /// The state with one memory cell replaced.
    pub open spec fn write(self, address: u16, value: u8) -> CpuView {
        CpuView { mem: self.mem.update(address as int, value), ..self }
    }

    /// The state with a new program counter.
    pub open spec fn with_pc(self, pc: u16) -> CpuView {
        CpuView { pc, ..self }
    }

    /// The state with a new stack pointer.
    pub open spec fn with_sp(self, sp: u16) -> CpuView {
        CpuView { sp, ..self }
    }

    /// The state with a new status register.
    pub open spec fn with_ps(self, ps: ProcessorStatus) -> CpuView {
        CpuView { ps, ..self }
    }

    /// The state with new memory contents.
    pub open spec fn with_mem(self, mem: Seq<u8>) -> CpuView {
        CpuView { mem, ..self }
    }
}

/// The fault raised when a fetch would run past the end of memory.
pub open spec fn pc_fault() -> Fault {
    Fault::PcOutOfRange { pc: 0xFFFF }
}

/// The low byte of a word.
pub open spec fn low_byte(w: u16) -> u8 {
    (w % 256) as u8
}

/// The high byte of a word.
pub open spec fn high_byte(w: u16) -> u8 {
    (w / 256) as u8
}

/// Fetching one byte: returns the byte at `pc` and the state with `pc`
/// advanced, or the unchanged state when the fetch would advance `pc` past
/// the last valid address.
pub open spec fn spec_fetch_byte(s: CpuView) -> Result<(CpuView, u8), CpuView> {
    if s.pc < 0xFFFF {
        Ok((s.with_pc((s.pc + 1) as u16), s.read(s.pc)))
    } else {
        Err(s)
    }
}

/// Fetching a word: two sequential byte fetches, low byte first, each
/// advancing `pc`; fails partway if the second fetch runs out of memory.
pub open spec fn spec_fetch_word(s: CpuView) -> Result<(CpuView, u16), CpuView> {
    match spec_fetch_byte(s) {
        Err(t) => Err(t),
        Ok((s1, lo)) => match spec_fetch_byte(s1) {
            Err(t) => Err(t),
            Ok((s2, hi)) => Ok((s2, (lo + 256 * hi) as u16)),
        },
    }
}

/// Resolving an addressing mode: fetches the operand bytes (advancing `pc`)
/// and yields the effective address per the addressing-mode table.
pub open spec fn spec_resolve(s: CpuView, mode: AddrMode) -> Result<(CpuView, u16), CpuView> {
    match mode {
        AddrMode::ZeroPage => match spec_fetch_byte(s) {
            Ok((s1, operand)) => Ok((s1, operand as u16)),
            Err(t) => Err(t),
        },
        AddrMode::ZeroPageX => match spec_fetch_byte(s) {
            Ok((s1, operand)) => Ok((s1, (operand + s.x) as u16)),
            Err(t) => Err(t),
        },
        AddrMode::ZeroPageY => match spec_fetch_byte(s) {
            Ok((s1, operand)) => Ok((s1, (operand + s.y) as u16)),
            Err(t) => Err(t),
        },
        AddrMode::Absolute => spec_fetch_word(s),
        AddrMode::AbsoluteX => match spec_fetch_word(s) {
            Ok((s1, operand)) => Ok((s1, operand.wrapping_add(s.x as u16))),
            Err(t) => Err(t),
        },
        AddrMode::AbsoluteY => match spec_fetch_word(s) {
            Ok((s1, operand)) => Ok((s1, operand.wrapping_add(s.y as u16))),
            Err(t) => Err(t),
        },
        AddrMode::XIndirect => match spec_fetch_byte(s) {
            Ok((s1, operand)) => Ok((s1, s1.word((operand + s.x) as u16))),
            Err(t) => Err(t),
        },
        AddrMode::IndirectY => match spec_fetch_byte(s) {
            Ok((s1, operand)) => Ok((s1, s1.word(operand as u16).wrapping_add(s.y as u16))),
            Err(t) => Err(t),
        },
    }
}

/// A value landing in the accumulator, with Zero and Negative recomputed.
pub open spec fn set_a(s: CpuView, value: u8) -> CpuView {
    CpuView { a: value, ps: s.ps.with_nz(value), ..s }
}

/// A value landing in the x register, with Zero and Negative recomputed.
pub open spec fn set_x(s: CpuView, value: u8) -> CpuView {
    CpuView { x: value, ps: s.ps.with_nz(value), ..s }
}

/// A value landing in the y register, with Zero and Negative recomputed.
pub open spec fn set_y(s: CpuView, value: u8) -> CpuView {
    CpuView { y: value, ps: s.ps.with_nz(value), ..s }
}

/// Load accumulator, immediate mode.
pub open spec fn spec_lda_immediate(s: CpuView) -> (CpuView, Option<Fault>) {
    match spec_fetch_byte(s) {
        Ok((s1, value)) => (set_a(s1, value), None),
        Err(t) => (t, Some(pc_fault())),
    }
}

/// Load x register, immediate mode.
pub open spec fn spec_ldx_immediate(s: CpuView) -> (CpuView, Option<Fault>) {
    match spec_fetch_byte(s) {
        Ok((s1, value)) => (set_x(s1, value), None),
        Err(t) => (t, Some(pc_fault())),
    }
}

/// Load y register, immediate mode.
pub open spec fn spec_ldy_immediate(s: CpuView) -> (CpuView, Option<Fault>) {
    match spec_fetch_byte(s) {
        Ok((s1, value)) => (set_y(s1, value), None),
        Err(t) => (t, Some(pc_fault())),
    }
}

/// Load accumulator from the mode's effective address.
pub open spec fn spec_lda(s: CpuView, mode: AddrMode) -> (CpuView, Option<Fault>) {
    match spec_resolve(s, mode) {
        Ok((s1, address)) => (set_a(s1, s1.read(address)), None),
        Err(t) => (t, Some(pc_fault())),
    }
}

/// Load x register from the mode's effective address.
pub open spec fn spec_ldx(s: CpuView, mode: AddrMode) -> (CpuView, Option<Fault>) {
    match spec_resolve(s, mode) {
        Ok((s1, address)) => (set_x(s1, s1.read(address)), None),
        Err(t) => (t, Some(pc_fault())),
    }
}

/// Load y register from the mode's effective address.
pub open spec fn spec_ldy(s: CpuView, mode: AddrMode) -> (CpuView, Option<Fault>) {
    match spec_resolve(s, mode) {
        Ok((s1, address)) => (set_y(s1, s1.read(address)), None),
        Err(t) => (t, Some(pc_fault())),
    }
}

/// And the accumulator with an immediate operand.
pub open spec fn spec_anda_immediate(s: CpuView) -> (CpuView, Option<Fault>) {
    match spec_fetch_byte(s) {
        Ok((s1, value)) => (set_a(s1, s1.a & value), None),
        Err(t) => (t, Some(pc_fault())),
    }
}

/// And the accumulator with the byte at the mode's effective address.
pub open spec fn spec_anda(s: CpuView, mode: AddrMode) -> (CpuView, Option<Fault>) {
    match spec_resolve(s, mode) {
        Ok((s1, address)) => (set_a(s1, s1.a & s1.read(address)), None),
        Err(t) => (t, Some(pc_fault())),
    }
}

/// Or the accumulator with an immediate operand.
pub open spec fn spec_ora_immediate(s: CpuView) -> (CpuView, Option<Fault>) {
    match spec_fetch_byte(s) {
        Ok((s1, value)) => (set_a(s1, s1.a | value), None),
        Err(t) => (t, Some(pc_fault())),
    }
}

/// Or the accumulator with the byte at the mode's effective address.
pub open spec fn spec_ora(s: CpuView, mode: AddrMode) -> (CpuView, Option<Fault>) {
    match spec_resolve(s, mode) {
        Ok((s1, address)) => (set_a(s1, s1.a | s1.read(address)), None),
        Err(t) => (t, Some(pc_fault())),
    }
}

/// Logical shift right of the accumulator: halves the value, Carry takes the
/// bit shifted out, Negative clears, Zero reflects the result.
pub open spec fn spec_lsr_acc(s: CpuView) -> CpuView {
    CpuView { a: s.a / 2, ps: s.ps.with_shift_flags(s.a, s.a / 2), ..s }
}

/// Logical shift right of the byte at the mode's effective address.
pub open spec fn spec_lsr(s: CpuView, mode: AddrMode) -> (CpuView, Option<Fault>) {
    match spec_resolve(s, mode) {
        Ok((s1, address)) => {
            let original = s1.read(address);
            let shifted = original / 2;
            (s1.write(address, shifted).with_ps(s1.ps.with_shift_flags(original, shifted)), None)
        },
        Err(t) => (t, Some(pc_fault())),
    }
}

/// Jump absolute: the program counter takes the fetched word.
pub open spec fn spec_jump_absolute(s: CpuView) -> (CpuView, Option<Fault>) {
    match spec_fetch_word(s) {
        Ok((s1, target)) => (s1.with_pc(target), None),
        Err(t) => (t, Some(pc_fault())),
    }
}

/// Jump absolute indirect: dereference a pointer word at the fetched
/// address. When the low byte of the pointer address is 0xFF, the high byte
/// is read from the start of the same page rather than the next page (the
/// hardware page-boundary quirk, reproduced on purpose).
pub open spec fn spec_jump_indirect(s: CpuView) -> (CpuView, Option<Fault>) {
    match spec_fetch_word(s) {
        Ok((s1, pointer)) => {
            let lo = s1.read(pointer);
            let high_address = if pointer % 256 == 0xFF {
                (pointer - 0xFF) as u16
            } else {
                (pointer + 1) as u16
            };
            let hi = s1.read(high_address);
            (s1.with_pc((lo + 256 * hi) as u16), None)
        },
        Err(t) => (t, Some(pc_fault())),
    }
}

/// Jump to subroutine: fetch the target word, push the address of the call
/// instruction's last byte (`pc - 1` after the fetch) as a word at the stack
/// pointer, move the stack pointer down by two, and jump.
pub open spec fn spec_jump_subroutine(s: CpuView) -> (CpuView, Option<Fault>) {
    match spec_fetch_word(s) {
        Ok((s1, target)) => {
            let ret = (s1.pc - 1) as u16;
            let pushed = s1.write(s1.sp, low_byte(ret)).write(
                s1.sp.wrapping_add(1),
                high_byte(ret),
            );
            (pushed.with_sp(pushed.sp.wrapping_sub(2)).with_pc(target), None)
        },
        Err(t) => (t, Some(pc_fault())),
    }
}

/// Return from subroutine: move the stack pointer back up by two, read the
/// pushed word there, and resume one byte past it.
pub open spec fn spec_return_subroutine(s: CpuView) -> CpuView {
    let sp = s.sp.wrapping_add(2);
    s.with_sp(sp).with_pc(s.word(sp).wrapping_add(1))
}

/// Push the accumulator at the stack pointer, then move the pointer down.
pub open spec fn spec_pha(s: CpuView) -> CpuView {
    s.write(s.sp, s.a).with_sp(s.sp.wrapping_sub(1))
}

/// Push the packed status byte at the stack pointer, then move the pointer
/// down.
pub open spec fn spec_php(s: CpuView) -> CpuView {
    s.write(s.sp, s.ps.spec_bits()).with_sp(s.sp.wrapping_sub(1))
}

/// Move the stack pointer up, then load the accumulator from it, with Zero
/// and Negative recomputed.
pub open spec fn spec_pla(s: CpuView) -> CpuView {
    let sp = s.sp.wrapping_add(1);
    set_a(s.with_sp(sp), s.read(sp))
}

/// Move the stack pointer up, then rebuild the status register from exactly
/// the byte read there.
pub open spec fn spec_plp(s: CpuView) -> CpuView {
    let sp = s.sp.wrapping_add(1);
    s.with_sp(sp).with_ps(ProcessorStatus::spec_from_bits(s.read(sp)))
}

/// Transfer accumulator to x, recomputing Zero and Negative.
pub open spec fn spec_tax(s: CpuView) -> CpuView {
    set_x(s, s.a)
}

/// Transfer accumulator to y, recomputing Zero and Negative.
pub open spec fn spec_tay(s: CpuView) -> CpuView {
    set_y(s, s.a)
}

/// Transfer the low byte of the stack pointer to x, recomputing Zero and
/// Negative.
pub open spec fn spec_tsx(s: CpuView) -> CpuView {
    set_x(s, (s.sp % 256) as u8)
}

/// Transfer x to the accumulator, recomputing Zero and Negative.
pub open spec fn spec_txa(s: CpuView) -> CpuView {
    set_a(s, s.x)
}

/// Transfer x to the stack pointer, biased into the stack page; no flag is
/// affected.
pub open spec fn spec_txs(s: CpuView) -> CpuView {
    s.with_sp((0x0100 + s.x) as u16)
}

/// Transfer y to the accumulator, recomputing Zero and Negative.
pub open spec fn spec_tya(s: CpuView) -> CpuView {
    set_a(s, s.y)
}

/// Set or clear the carry flag.
pub open spec fn spec_set_carry(s: CpuView, value: bool) -> CpuView {
    s.with_ps(s.ps.with_flag(Flag::C, value))
}

/// Set the interrupt-disable flag.
pub open spec fn spec_set_interrupt_disable(s: CpuView) -> CpuView {
    s.with_ps(s.ps.with_flag(Flag::I, true))
}

/// Whether an opcode has an entry in the dispatch table, the halt opcode
/// aside.
pub open spec fn is_known_opcode(op: u8) -> bool {
    ||| op == LDA_IM
    ||| op == LDA_ABS
    ||| op == LDA_ABS_X
    ||| op == LDA_ABS_Y
    ||| op == LDA_ZP
    ||| op == LDA_ZP_X
    ||| op == LDA_ZP_XI
    ||| op == LDA_ZP_IY
    ||| op == LDX_IM
    ||| op == LDX_ABS
    ||| op == LDX_ZP
    ||| op == LDX_ZP_Y
    ||| op == LDX_ABS_Y
    ||| op == LDY_IM
    ||| op == LDY_ABS
    ||| op == LDY_ZP
    ||| op == LDY_ZP_X
    ||| op == LDY_ABS_X
    ||| op == LSR_ACC
    ||| op == LSR_ABS
    ||| op == LSR_ZP
    ||| op == LSR_ABS_X
    ||| op == LSR_ZP_X
    ||| op == PHA
    ||| op == PHP
    ||| op == PLA
    ||| op == PLP
    ||| op == JMP_ABS
    ||| op == JMP_ABS_IND
    ||| op == JSR
    ||| op == RTS
    ||| op == ANDA_IM
    ||| op == ANDA_ABS
    ||| op == ANDA_X_ABS
    ||| op == ANDA_Y_ABS
    ||| op == ANDA_ZP
    ||| op == ANDA_ZP_X
    ||| op == ANDA_ZP_IY
    ||| op == ANDA_ZP_XI
    ||| op == ORA_IM
    ||| op == ORA_ABS
    ||| op == ORA_X_ABS
    ||| op == ORA_Y_ABS
    ||| op == ORA_ZP
    ||| op == ORA_ZP_X
    ||| op == ORA_ZP_IY
    ||| op == ORA_ZP_XI
    ||| op == TAX
    ||| op == TAY
    ||| op == TSX
    ||| op == TXA
    ||| op == TXS
    ||| op == TYA
    ||| op == SEC
    ||| op == SED
    ||| op == SEI
}

/// The effect of one decoded instruction on the state the opcode fetch left
/// behind. Defined for the opcodes [`is_known_opcode`] lists.
pub open spec fn exec_instruction(op: u8, s: CpuView) -> (CpuView, Option<Fault>) {
    if op == LDA_IM {
        spec_lda_immediate(s)
    } else if op == LDA_ABS {
        spec_lda(s, AddrMode::Absolute)
    } else if op == LDA_ABS_X {
        spec_lda(s, AddrMode::AbsoluteX)
    } else if op == LDA_ABS_Y {
        spec_lda(s, AddrMode::AbsoluteY)
    } else if op == LDA_ZP {
        spec_lda(s, AddrMode::ZeroPage)
    } else if op == LDA_ZP_X {
        spec_lda(s, AddrMode::ZeroPageX)
    } else if op == LDA_ZP_XI {
        spec_lda(s, AddrMode::XIndirect)
    } else if op == LDA_ZP_IY {
        spec_lda(s, AddrMode::IndirectY)
    } else if op == LDX_IM {
        spec_ldx_immediate(s)
    } else if op == LDX_ABS {
        spec_ldx(s, AddrMode::Absolute)
    } else if op == LDX_ZP {
        spec_ldx(s, AddrMode::ZeroPage)
    } else if op == LDX_ZP_Y {
        spec_ldx(s, AddrMode::ZeroPageY)
    } else if op == LDX_ABS_Y {
        spec_ldx(s, AddrMode::AbsoluteY)
    } else if op == LDY_IM {
        spec_ldy_immediate(s)
    } else if op == LDY_ABS {
        spec_ldy(s, AddrMode::Absolute)
    } else if op == LDY_ZP {
        spec_ldy(s, AddrMode::ZeroPage)
    } else if op == LDY_ZP_X {
        spec_ldy(s, AddrMode::ZeroPageX)
    } else if op == LDY_ABS_X {
        spec_ldy(s, AddrMode::AbsoluteX)
    } else if op == LSR_ACC {
        (spec_lsr_acc(s), None)
    } else if op == LSR_ABS {
        spec_lsr(s, AddrMode::Absolute)
    } else if op == LSR_ZP {
        spec_lsr(s, AddrMode::ZeroPage)
    } else if op == LSR_ABS_X {
        spec_lsr(s, AddrMode::AbsoluteX)
    } else if op == LSR_ZP_X {
        spec_lsr(s, AddrMode::ZeroPageX)
    } else if op == PHA {
        (spec_pha(s), None)
    } else if op == PHP {
        (spec_php(s), None)
    } else if op == PLA {
        (spec_pla(s), None)
    } else if op == PLP {
        (spec_plp(s), None)
    } else if op == JMP_ABS {
        spec_jump_absolute(s)
    } else if op == JMP_ABS_IND {
        spec_jump_indirect(s)
    } else if op == JSR {
        spec_jump_subroutine(s)
    } else if op == RTS {
        (spec_return_subroutine(s), None)
    } else if op == ANDA_IM {
        spec_anda_immediate(s)
    } else if op == ANDA_ABS {
        spec_anda(s, AddrMode::Absolute)
    } else if op == ANDA_X_ABS {
        spec_anda(s, AddrMode::AbsoluteX)
    } else if op == ANDA_Y_ABS {
        spec_anda(s, AddrMode::AbsoluteY)
    } else if op == ANDA_ZP {
        spec_anda(s, AddrMode::ZeroPage)
    } else if op == ANDA_ZP_X {
        spec_anda(s, AddrMode::ZeroPageX)
    } else if op == ANDA_ZP_IY {
        spec_anda(s, AddrMode::IndirectY)
    } else if op == ANDA_ZP_XI {
        spec_anda(s, AddrMode::XIndirect)
    } else if op == ORA_IM {
        spec_ora_immediate(s)
    } else if op == ORA_ABS {
        spec_ora(s, AddrMode::Absolute)
    } else if op == ORA_X_ABS {
        spec_ora(s, AddrMode::AbsoluteX)
    } else if op == ORA_Y_ABS {
        spec_ora(s, AddrMode::AbsoluteY)
    } else if op == ORA_ZP {
        spec_ora(s, AddrMode::ZeroPage)
    } else if op == ORA_ZP_X {
        spec_ora(s, AddrMode::ZeroPageX)
    } else if op == ORA_ZP_IY {
        spec_ora(s, AddrMode::IndirectY)
    } else if op == ORA_ZP_XI {
        spec_ora(s, AddrMode::XIndirect)
    } else if op == TAX {
        (spec_tax(s), None)
    } else if op == TAY {
        (spec_tay(s), None)
    } else if op == TSX {
        (spec_tsx(s), None)
    } else if op == TXA {
        (spec_txa(s), None)
    } else if op == TXS {
        (spec_txs(s), None)
    } else if op == TYA {
        (spec_tya(s), None)
    } else if op == SEC {
        (spec_set_carry(s, true), None)
    } else if op == SED {
        (s, None)
    } else if op == SEI {
        (spec_set_interrupt_disable(s), None)
    } else {
        (s, None)
    }
}

/// What one iteration of the dispatch loop leaves behind.
pub ghost enum Outcome {
    /// The instruction completed; the loop fetches again from this state.
    Running(CpuView),
    /// The halt opcode was fetched; the loop stops in this state.
    Halted(CpuView),
    /// A fatal condition; the loop stops in this state with this fault.
    Faulted(CpuView, Fault),
}

/// One full fetch/decode/execute step from a state.
pub open spec fn step(s: CpuView) -> Outcome {
    match spec_fetch_byte(s) {
        Err(t) => Outcome::Faulted(t, pc_fault()),
        Ok((s1, op)) => if op == crate::op_codes::NOP {
            Outcome::Halted(s1)
        } else if is_known_opcode(op) {
            let r = exec_instruction(op, s1);
            match r.1 {
                None => Outcome::Running(r.0),
                Some(fault) => Outcome::Faulted(r.0, fault),
            }
        } else {
            Outcome::Faulted(s1, Fault::UnknownOpcode { opcode: op, pc: s.pc })
        },
    }
}

/// The dispatch loop run for `n` steps, stopping early at a halt or fault.
pub open spec fn run_n(s: CpuView, n: nat) -> Outcome
    decreases n,
{
    if n == 0 {
        Outcome::Running(s)
    } else {
        match run_n(s, (n - 1) as nat) {
            Outcome::Running(t) => step(t),
            o => o,
        }
    }
}

/// The state after a reset: `pc` at the reset vector, `sp` at the stack
/// page, registers and flags cleared. When an entry address is supplied it
/// is first written as a word at the reset vector, and `pc` takes the word
/// read back from there.
pub open spec fn spec_reset(s: CpuView, address: Option<u16>) -> CpuView {
    let base = CpuView {
        pc: 0xFFFC,
        sp: 0x0100,
        a: 0,
        x: 0,
        y: 0,
        ps: ProcessorStatus::spec_empty(),
        mem: s.mem,
    };
    match address {
        None => base,
        Some(entry) => {
            let written = base.write(0xFFFC, low_byte(entry)).write(0xFFFD, high_byte(entry));
            written.with_pc(written.word(0xFFFC))
        },
    }
}

/// The state of a freshly constructed machine: everything zero, memory
/// zero-filled.
pub open spec fn spec_initial() -> CpuView {
    CpuView {
        pc: 0,
        sp: 0,
        a: 0,
        x: 0,
        y: 0,
        ps: ProcessorStatus::spec_empty(),
        mem: Seq::new(MAX_MEM as nat, |j: int| 0u8),
    }
}

/// The state with a program image deposited at an address, the rest of the
/// machine untouched.
pub open spec fn spec_load_program(s: CpuView, address: int, program: Seq<u8>) -> CpuView {
    s.with_mem(
        Seq::new(
            s.mem.len(),
            |j: int|
                if address <= j < address + program.len() {
                    program[j - address]
                } else {
                    s.mem[j]
                },
        ),
    )
}

/// The fault a fallible instruction reported, if any.
pub open spec fn err_of(r: Result<(), Fault>) -> Option<Fault> {
    match r {
        Ok(_) => None,
        Err(f) => Some(f),
    }
}

} // verus!
