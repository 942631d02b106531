//! The execution engine: owns the register file and the memory, implements
//! reset, operand fetching, addressing-mode resolution, every instruction
//! handler, and the fetch/decode/execute loop.
//!
//! Every method is proved to follow the corresponding specification
//! transition from [`crate::model`]; the loop itself is proved to land on
//! exactly the outcome that [`crate::model::run_n`] assigns to its starting
//! state.

use vstd::prelude::*;

use crate::memory::{Memory, MAX_MEM};
use crate::model::{
    err_of, exec_instruction, is_known_opcode, pc_fault, run_n, spec_anda, spec_anda_immediate,
    spec_fetch_byte, spec_fetch_word, spec_initial, spec_jump_absolute, spec_jump_indirect,
    spec_jump_subroutine, spec_lda, spec_lda_immediate, spec_ldx, spec_ldx_immediate, spec_ldy,
    spec_ldy_immediate, spec_load_program, spec_lsr, spec_lsr_acc, spec_ora, spec_ora_immediate,
    spec_pha, spec_php, spec_pla, spec_plp, spec_reset, spec_resolve, spec_return_subroutine,
    spec_set_carry, spec_set_interrupt_disable, spec_tax, spec_tay, spec_tsx, spec_txa, spec_txs,
    spec_tya, step, AddrMode, CpuView, Fault, Outcome,
};
use crate::op_codes;
use crate::processor_status::{Flag, ProcessorStatus};

verus! {

/// What a run of the dispatch loop ended with.
#[derive(Clone, Copy, PartialEq, Eq, Structural, Debug)]
pub enum ExecResult {
    /// The halt opcode was fetched; the program ran to completion.
    Halted,
    /// A fatal condition stopped the run; carries the fault.
    Faulted(Fault),
    /// The step budget ran out with the machine still running. The budget
    /// is the largest representable step count, so this arises only for
    /// programs that never halt.
    Exhausted,
}

/// The processor: register file, status register, and memory, owned
/// exclusively for the machine's lifetime. The fields are exposed for test
/// setup and inspection; instruction semantics mutate them only through the
/// engine's methods.
pub struct Cpu {
    /// program counter
    pub pc: u16,
    /// stack pointer, stored already biased into the stack page
    pub sp: u16,
    /// accumulator
    pub a: u8,
    /// x index register
    pub x: u8,
    /// y index register
    pub y: u8,
    /// processor status
    pub ps: ProcessorStatus,
    /// memory module
    pub memory: Memory,
}

impl View for Cpu {
    type V = CpuView;

    open spec fn view(&self) -> CpuView {
        CpuView {
            pc: self.pc,
            sp: self.sp,
            a: self.a,
            x: self.x,
            y: self.y,
            ps: self.ps,
            mem: self.memory@,
        }
    }
}

impl Cpu {
    /// The engine is well formed when its memory spans the whole address
    /// space.
    pub open spec fn wf(self) -> bool {
        self@.wf()
    }

    /// Construct a new cpu: all registers zero, flags clear, memory
    /// zero-filled.
    pub fn new() -> (r: Cpu)
        ensures
            r.wf(),
            r@ == spec_initial(),
    {
        let cpu = Cpu {
            pc: 0,
            sp: 0,
            a: 0,
            x: 0,
            y: 0,
            ps: ProcessorStatus::empty(),
            memory: Memory::new(),
        };
        proof {
            assert(cpu@ =~= spec_initial());
        }
        cpu
    }

    /// Reset the cpu to its initial state: `pc` at the reset vector, `sp` at
    /// the stack page, registers and flags cleared. An optional entry
    /// address is first written as a word at the reset vector, and `pc` then
    /// takes the word read back from there — the engine always begins
    /// execution by reading its program counter from the reset-vector
    /// location, never directly from the caller-supplied value.
    pub fn reset(&mut self, address: Option<u16>)
        requires
            old(self).wf(),
        ensures
            final(self).wf(),
            final(self)@ == spec_reset(old(self)@, address),
            (match address {
                Some(entry) => final(self).pc == entry,
                None => final(self).pc == 0xFFFC,
            }),
    {
        self.pc = 0xFFFC;
        self.sp = 0x0100;
        self.a = 0;
        self.x = 0;
        self.y = 0;
        self.ps.clear();
        if let Some(entry) = address {
            self.memory.write_word(0xFFFC, entry);
            self.pc = self.memory.read_word(0xFFFC);
            proof {
                assert(self@ =~= spec_reset(old(self)@, address));
            }
        } else {
            proof {
                assert(self@ =~= spec_reset(old(self)@, address));
            }
        }
    }

    /// Load a program image into memory at a given address, leaving every
    /// other cell and every register untouched.
    pub fn load_program(&mut self, address: usize, program: Vec<u8>)
        requires
            old(self).wf(),
            address + program@.len() <= MAX_MEM,
        ensures
            final(self).wf(),
            final(self)@ == spec_load_program(old(self)@, address as int, program@),
    {
        let mut idx: usize = 0;
        while idx < program.len()
            invariant
                self.wf(),
                idx <= program@.len(),
                address + program@.len() <= MAX_MEM,
                self@ == spec_load_program(old(self)@, address as int, program@.subrange(0, idx as int)),
            decreases program@.len() - idx,
        {
            let value: u8 = program[idx];
            self.memory.write_byte(address + idx, value);
            idx = idx + 1;
            proof {
                assert(self@.mem =~= spec_load_program(
                    old(self)@,
                    address as int,
                    program@.subrange(0, idx as int),
                ).mem);
                assert(self@ =~= spec_load_program(
                    old(self)@,
                    address as int,
                    program@.subrange(0, idx as int),
                ));
            }
        }
        proof {
            assert(program@.subrange(0, program@.len() as int) =~= program@);
        }
    }

    /// Fetch the byte at `pc` and advance `pc` by one. Fails with a fault,
    /// leaving the state untouched, when the fetch would advance `pc` past
    /// the last valid memory address.
    pub fn fetch_byte(&mut self) -> (r: Result<u8, Fault>)
        requires
            old(self).wf(),
        ensures
            final(self).wf(),
            (match spec_fetch_byte(old(self)@) {
                Ok(pair) => r == Ok::<u8, Fault>(pair.1) && final(self)@ == pair.0,
                Err(t) => r == Err::<u8, Fault>(pc_fault()) && final(self)@ == t,
            }),
    {
        if self.pc < 0xFFFF {
            let value: u8 = self.memory.read_byte(self.pc as usize);
            self.pc = self.pc + 1;
            Ok(value)
        } else {
            Err(Fault::PcOutOfRange { pc: self.pc })
        }
    }

    /// Fetch a word as two sequential byte fetches, low byte first, each
    /// advancing `pc`.
    pub fn fetch_word(&mut self) -> (r: Result<u16, Fault>)
        requires
            old(self).wf(),
        ensures
            final(self).wf(),
            (match spec_fetch_word(old(self)@) {
                Ok(pair) => r == Ok::<u16, Fault>(pair.1) && final(self)@ == pair.0,
                Err(t) => r == Err::<u16, Fault>(pc_fault()) && final(self)@ == t,
            }),
    {
        let lo: u8 = match self.fetch_byte() {
            Ok(value) => value,
            Err(fault) => return Err(fault),
        };
        let hi: u8 = match self.fetch_byte() {
            Ok(value) => value,
            Err(fault) => return Err(fault),
        };
        Ok(lo as u16 + 256 * (hi as u16))
    }

    /// The byte at an address.
    fn read_mem(&self, address: u16) -> (r: u8)
        requires
            self.wf(),
        ensures
            r == self@.read(address),
    {
        self.memory.read_byte(address as usize)
    }

    /// Replace the byte at an address.
    fn write_mem(&mut self, address: u16, value: u8)
        requires
            old(self).wf(),
        ensures
            final(self).wf(),
            final(self)@ == old(self)@.write(address, value),
    {
        self.memory.write_byte(address as usize, value);
    }

    /// The little-endian word at an address, its high byte read one cell
    /// above the low byte, wrapping at the top of the address space.
    fn read_word_at(&self, address: u16) -> (r: u16)
        requires
            self.wf(),
        ensures
            r == self@.word(address),
    {
        let lo: u8 = self.memory.read_byte(address as usize);
        let hi: u8 = self.memory.read_byte(address.wrapping_add(1) as usize);
        lo as u16 + 256 * (hi as u16)
    }

    /// Fetch the operand bytes of an addressing mode and resolve its
    /// effective address per the addressing-mode table.
    pub fn resolve_addr(&mut self, mode: AddrMode) -> (r: Result<u16, Fault>)
        requires
            old(self).wf(),
        ensures
            final(self).wf(),
            (match spec_resolve(old(self)@, mode) {
                Ok(pair) => r == Ok::<u16, Fault>(pair.1) && final(self)@ == pair.0,
                Err(t) => r == Err::<u16, Fault>(pc_fault()) && final(self)@ == t,
            }),
    {
        match mode {
            AddrMode::ZeroPage => {
                let operand: u8 = match self.fetch_byte() {
                    Ok(value) => value,
                    Err(fault) => return Err(fault),
                };
                Ok(operand as u16)
            },
            AddrMode::ZeroPageX => {
                let index: u8 = self.x;
                let operand: u8 = match self.fetch_byte() {
                    Ok(value) => value,
                    Err(fault) => return Err(fault),
                };
                Ok(operand as u16 + index as u16)
            },
            AddrMode::ZeroPageY => {
                let index: u8 = self.y;
                let operand: u8 = match self.fetch_byte() {
                    Ok(value) => value,
                    Err(fault) => return Err(fault),
                };
                Ok(operand as u16 + index as u16)
            },
            AddrMode::Absolute => self.fetch_word(),
            AddrMode::AbsoluteX => {
                let index: u16 = self.x as u16;
                let operand: u16 = match self.fetch_word() {
                    Ok(value) => value,
                    Err(fault) => return Err(fault),
                };
                Ok(operand.wrapping_add(index))
            },
            AddrMode::AbsoluteY => {
                let index: u16 = self.y as u16;
                let operand: u16 = match self.fetch_word() {
                    Ok(value) => value,
                    Err(fault) => return Err(fault),
                };
                Ok(operand.wrapping_add(index))
            },
            AddrMode::XIndirect => {
                let index: u8 = self.x;
                let operand: u8 = match self.fetch_byte() {
                    Ok(value) => value,
                    Err(fault) => return Err(fault),
                };
                let pointer: u16 = operand as u16 + index as u16;
                Ok(self.read_word_at(pointer))
            },
            AddrMode::IndirectY => {
                let index: u16 = self.y as u16;
                let operand: u8 = match self.fetch_byte() {
                    Ok(value) => value,
                    Err(fault) => return Err(fault),
                };
                let pointer: u16 = self.read_word_at(operand as u16);
                Ok(pointer.wrapping_add(index))
            },
        }
    }

    /// Recompute the Zero and Negative flags from a value just placed in a
    /// register: Zero iff the value is zero, Negative iff its bit 7 is set.
    pub fn set_negative_and_zero_flags(&mut self, value: u8)
        ensures
            final(self)@ == old(self)@.with_ps(old(self).ps.with_nz(value)),
    {
        self.ps.set_flag(Flag::Z, value == 0);
        self.ps.set_flag(Flag::N, value >= 0x80);
    }

    /// Load the accumulator from the mode's effective address, recomputing
    /// Zero and Negative.
    pub fn load_accumulator(&mut self, mode: AddrMode) -> (r: Result<(), Fault>)
        requires
            old(self).wf(),
        ensures
            final(self).wf(),
            (final(self)@, err_of(r)) == spec_lda(old(self)@, mode),
    {
        let address: u16 = match self.resolve_addr(mode) {
            Ok(value) => value,
            Err(fault) => return Err(fault),
        };
        let value: u8 = self.read_mem(address);
        self.a = value;
        self.set_negative_and_zero_flags(value);
        Ok(())
    }

    /// Load the x register from the mode's effective address, recomputing
    /// Zero and Negative.
    pub fn load_x_index(&mut self, mode: AddrMode) -> (r: Result<(), Fault>)
        requires
            old(self).wf(),
        ensures
            final(self).wf(),
            (final(self)@, err_of(r)) == spec_ldx(old(self)@, mode),
    {
        let address: u16 = match self.resolve_addr(mode) {
            Ok(value) => value,
            Err(fault) => return Err(fault),
        };
        let value: u8 = self.read_mem(address);
        self.x = value;
        self.set_negative_and_zero_flags(value);
        Ok(())
    }

    /// Load the y register from the mode's effective address, recomputing
    /// Zero and Negative.
    pub fn load_y_index(&mut self, mode: AddrMode) -> (r: Result<(), Fault>)
        requires
            old(self).wf(),
        ensures
            final(self).wf(),
            (final(self)@, err_of(r)) == spec_ldy(old(self)@, mode),
    {
        let address: u16 = match self.resolve_addr(mode) {
            Ok(value) => value,
            Err(fault) => return Err(fault),
        };
        let value: u8 = self.read_mem(address);
        self.y = value;
        self.set_negative_and_zero_flags(value);
        Ok(())
    }

    /// And the accumulator with the byte at the mode's effective address,
    /// recomputing Zero and Negative.
    pub fn and_accumulator(&mut self, mode: AddrMode) -> (r: Result<(), Fault>)
        requires
            old(self).wf(),
        ensures
            final(self).wf(),
            (final(self)@, err_of(r)) == spec_anda(old(self)@, mode),
    {
        let address: u16 = match self.resolve_addr(mode) {
            Ok(value) => value,
            Err(fault) => return Err(fault),
        };
        let value: u8 = self.a & self.read_mem(address);
        self.a = value;
        self.set_negative_and_zero_flags(value);
        Ok(())
    }

    /// Or the accumulator with the byte at the mode's effective address,
    /// recomputing Zero and Negative.
    pub fn or_accumulator(&mut self, mode: AddrMode) -> (r: Result<(), Fault>)
        requires
            old(self).wf(),
        ensures
            final(self).wf(),
            (final(self)@, err_of(r)) == spec_ora(old(self)@, mode),
    {
        let address: u16 = match self.resolve_addr(mode) {
            Ok(value) => value,
            Err(fault) => return Err(fault),
        };
        let value: u8 = self.a | self.read_mem(address);
        self.a = value;
        self.set_negative_and_zero_flags(value);
        Ok(())
    }

    /// Shift the byte at the mode's effective address right by one: Carry
    /// takes the bit shifted out, Negative clears, Zero reflects the result.
    pub fn shift_right_memory(&mut self, mode: AddrMode) -> (r: Result<(), Fault>)
        requires
            old(self).wf(),
        ensures
            final(self).wf(),
            (final(self)@, err_of(r)) == spec_lsr(old(self)@, mode),
    {
        let address: u16 = match self.resolve_addr(mode) {
            Ok(value) => value,
            Err(fault) => return Err(fault),
        };
        let original: u8 = self.read_mem(address);
        let shifted: u8 = original / 2;
        self.write_mem(address, shifted);
        self.ps.set_flag(Flag::N, false);
        self.ps.set_flag(Flag::Z, shifted == 0);
        self.ps.set_flag(Flag::C, original % 2 == 1);
        Ok(())
    }

    /// Load accumulator, immediate mode.
    pub fn lda_immediate(&mut self) -> (r: Result<(), Fault>)
        requires
            old(self).wf(),
        ensures
            final(self).wf(),
            (final(self)@, err_of(r)) == spec_lda_immediate(old(self)@),
    {
        let value: u8 = match self.fetch_byte() {
            Ok(value) => value,
            Err(fault) => return Err(fault),
        };
        self.a = value;
        self.set_negative_and_zero_flags(value);
        Ok(())
    }

    /// Load accumulator, absolute mode.
    pub fn lda_absolute(&mut self) -> (r: Result<(), Fault>)
        requires
            old(self).wf(),
        ensures
            final(self).wf(),
            (final(self)@, err_of(r)) == spec_lda(old(self)@, AddrMode::Absolute),
    {
        self.load_accumulator(AddrMode::Absolute)
    }

    /// Load accumulator, absolute x indexed.
    pub fn lda_absolute_x_indexed(&mut self) -> (r: Result<(), Fault>)
        requires
            old(self).wf(),
        ensures
            final(self).wf(),
            (final(self)@, err_of(r)) == spec_lda(old(self)@, AddrMode::AbsoluteX),
    {
        self.load_accumulator(AddrMode::AbsoluteX)
    }

    /// Load accumulator, absolute y indexed.
    pub fn lda_absolute_y_indexed(&mut self) -> (r: Result<(), Fault>)
        requires
            old(self).wf(),
        ensures
            final(self).wf(),
            (final(self)@, err_of(r)) == spec_lda(old(self)@, AddrMode::AbsoluteY),
    {
        self.load_accumulator(AddrMode::AbsoluteY)
    }

    /// Load accumulator, zero page.
    pub fn lda_zp(&mut self) -> (r: Result<(), Fault>)
        requires
            old(self).wf(),
        ensures
            final(self).wf(),
            (final(self)@, err_of(r)) == spec_lda(old(self)@, AddrMode::ZeroPage),
    {
        self.load_accumulator(AddrMode::ZeroPage)
    }

    /// Load accumulator, zero page x indexed.
    pub fn lda_zp_x(&mut self) -> (r: Result<(), Fault>)
        requires
            old(self).wf(),
        ensures
            final(self).wf(),
            (final(self)@, err_of(r)) == spec_lda(old(self)@, AddrMode::ZeroPageX),
    {
        self.load_accumulator(AddrMode::ZeroPageX)
    }

    /// Load accumulator, x indexed zero page indirect.
    pub fn lda_x_indexed_zero_page_indirect(&mut self) -> (r: Result<(), Fault>)
        requires
            old(self).wf(),
        ensures
            final(self).wf(),
            (final(self)@, err_of(r)) == spec_lda(old(self)@, AddrMode::XIndirect),
    {
        self.load_accumulator(AddrMode::XIndirect)
    }

    /// Load accumulator, zero page indirect y indexed.
    pub fn lda_y_zero_page_indirect_indexed(&mut self) -> (r: Result<(), Fault>)
        requires
            old(self).wf(),
        ensures
            final(self).wf(),
            (final(self)@, err_of(r)) == spec_lda(old(self)@, AddrMode::IndirectY),
    {
        self.load_accumulator(AddrMode::IndirectY)
    }

    /// Load x index, immediate mode.
    pub fn ldx_immediate(&mut self) -> (r: Result<(), Fault>)
        requires
            old(self).wf(),
        ensures
            final(self).wf(),
            (final(self)@, err_of(r)) == spec_ldx_immediate(old(self)@),
    {
        let value: u8 = match self.fetch_byte() {
            Ok(value) => value,
            Err(fault) => return Err(fault),
        };
        self.x = value;
        self.set_negative_and_zero_flags(value);
        Ok(())
    }

    /// Load x index, absolute mode.
    pub fn ldx_absolute(&mut self) -> (r: Result<(), Fault>)
        requires
            old(self).wf(),
        ensures
            final(self).wf(),
            (final(self)@, err_of(r)) == spec_ldx(old(self)@, AddrMode::Absolute),
    {
        self.load_x_index(AddrMode::Absolute)
    }

    /// Load x index, zero page.
    pub fn ldx_zp(&mut self) -> (r: Result<(), Fault>)
        requires
            old(self).wf(),
        ensures
            final(self).wf(),
            (final(self)@, err_of(r)) == spec_ldx(old(self)@, AddrMode::ZeroPage),
    {
        self.load_x_index(AddrMode::ZeroPage)
    }

    /// Load x index, absolute y indexed.
    pub fn ldx_absolute_y_indexed(&mut self) -> (r: Result<(), Fault>)
        requires
            old(self).wf(),
        ensures
            final(self).wf(),
            (final(self)@, err_of(r)) == spec_ldx(old(self)@, AddrMode::AbsoluteY),
    {
        self.load_x_index(AddrMode::AbsoluteY)
    }

    /// Load x index, y indexed zero page.
    pub fn ldx_y_indexed_zero_page(&mut self) -> (r: Result<(), Fault>)
        requires
            old(self).wf(),
        ensures
            final(self).wf(),
            (final(self)@, err_of(r)) == spec_ldx(old(self)@, AddrMode::ZeroPageY),
    {
        self.load_x_index(AddrMode::ZeroPageY)
    }

    /// Load y index, immediate mode.
    pub fn ldy_immediate(&mut self) -> (r: Result<(), Fault>)
        requires
            old(self).wf(),
        ensures
            final(self).wf(),
            (final(self)@, err_of(r)) == spec_ldy_immediate(old(self)@),
    {
        let value: u8 = match self.fetch_byte() {
            Ok(value) => value,
            Err(fault) => return Err(fault),
        };
        self.y = value;
        self.set_negative_and_zero_flags(value);
        Ok(())
    }

    /// Load y index, absolute mode.
    pub fn ldy_absolute(&mut self) -> (r: Result<(), Fault>)
        requires
            old(self).wf(),
        ensures
            final(self).wf(),
            (final(self)@, err_of(r)) == spec_ldy(old(self)@, AddrMode::Absolute),
    {
        self.load_y_index(AddrMode::Absolute)
    }

    /// Load y index, zero page.
    pub fn ldy_zp(&mut self) -> (r: Result<(), Fault>)
        requires
            old(self).wf(),
        ensures
            final(self).wf(),
            (final(self)@, err_of(r)) == spec_ldy(old(self)@, AddrMode::ZeroPage),
    {
        self.load_y_index(AddrMode::ZeroPage)
    }

    /// Load y index, absolute x indexed.
    pub fn ldy_absolute_x_indexed(&mut self) -> (r: Result<(), Fault>)
        requires
            old(self).wf(),
        ensures
            final(self).wf(),
            (final(self)@, err_of(r)) == spec_ldy(old(self)@, AddrMode::AbsoluteX),
    {
        self.load_y_index(AddrMode::AbsoluteX)
    }

    /// Load y index, x indexed zero page.
    pub fn ldy_x_indexed_zero_page(&mut self) -> (r: Result<(), Fault>)
        requires
            old(self).wf(),
        ensures
            final(self).wf(),
            (final(self)@, err_of(r)) == spec_ldy(old(self)@, AddrMode::ZeroPageX),
    {
        self.load_y_index(AddrMode::ZeroPageX)
    }

    /// And accumulator, immediate mode.
    pub fn anda_im(&mut self) -> (r: Result<(), Fault>)
        requires
            old(self).wf(),
        ensures
            final(self).wf(),
            (final(self)@, err_of(r)) == spec_anda_immediate(old(self)@),
    {
        let operand: u8 = match self.fetch_byte() {
            Ok(value) => value,
            Err(fault) => return Err(fault),
        };
        let value: u8 = self.a & operand;
        self.a = value;
        self.set_negative_and_zero_flags(value);
        Ok(())
    }

    /// And accumulator, absolute mode.
    pub fn anda_abs(&mut self) -> (r: Result<(), Fault>)
        requires
            old(self).wf(),
        ensures
            final(self).wf(),
            (final(self)@, err_of(r)) == spec_anda(old(self)@, AddrMode::Absolute),
    {
        self.and_accumulator(AddrMode::Absolute)
    }

    /// And accumulator, absolute x indexed.
    pub fn anda_abs_x(&mut self) -> (r: Result<(), Fault>)
        requires
            old(self).wf(),
        ensures
            final(self).wf(),
            (final(self)@, err_of(r)) == spec_anda(old(self)@, AddrMode::AbsoluteX),
    {
        self.and_accumulator(AddrMode::AbsoluteX)
    }

    /// And accumulator, absolute y indexed.
    pub fn anda_abs_y(&mut self) -> (r: Result<(), Fault>)
        requires
            old(self).wf(),
        ensures
            final(self).wf(),
            (final(self)@, err_of(r)) == spec_anda(old(self)@, AddrMode::AbsoluteY),
    {
        self.and_accumulator(AddrMode::AbsoluteY)
    }

    /// And accumulator, zero page.
    pub fn anda_zp(&mut self) -> (r: Result<(), Fault>)
        requires
            old(self).wf(),
        ensures
            final(self).wf(),
            (final(self)@, err_of(r)) == spec_anda(old(self)@, AddrMode::ZeroPage),
    {
        self.and_accumulator(AddrMode::ZeroPage)
    }

    /// And accumulator, zero page x indexed.
    pub fn anda_zp_x(&mut self) -> (r: Result<(), Fault>)
        requires
            old(self).wf(),
        ensures
            final(self).wf(),
            (final(self)@, err_of(r)) == spec_anda(old(self)@, AddrMode::ZeroPageX),
    {
        self.and_accumulator(AddrMode::ZeroPageX)
    }

    /// And accumulator, zero page indirect y indexed.
    pub fn anda_zp_iy(&mut self) -> (r: Result<(), Fault>)
        requires
            old(self).wf(),
        ensures
            final(self).wf(),
            (final(self)@, err_of(r)) == spec_anda(old(self)@, AddrMode::IndirectY),
    {
        self.and_accumulator(AddrMode::IndirectY)
    }

    /// And accumulator, x indexed zero page indirect.
    pub fn anda_zp_xi(&mut self) -> (r: Result<(), Fault>)
        requires
            old(self).wf(),
        ensures
            final(self).wf(),
            (final(self)@, err_of(r)) == spec_anda(old(self)@, AddrMode::XIndirect),
    {
        self.and_accumulator(AddrMode::XIndirect)
    }

    /// Or accumulator, immediate mode.
    pub fn ora_im(&mut self) -> (r: Result<(), Fault>)
        requires
            old(self).wf(),
        ensures
            final(self).wf(),
            (final(self)@, err_of(r)) == spec_ora_immediate(old(self)@),
    {
        let operand: u8 = match self.fetch_byte() {
            Ok(value) => value,
            Err(fault) => return Err(fault),
        };
        let value: u8 = self.a | operand;
        self.a = value;
        self.set_negative_and_zero_flags(value);
        Ok(())
    }

    /// Or accumulator, absolute mode.
    pub fn ora_abs(&mut self) -> (r: Result<(), Fault>)
        requires
            old(self).wf(),
        ensures
            final(self).wf(),
            (final(self)@, err_of(r)) == spec_ora(old(self)@, AddrMode::Absolute),
    {
        self.or_accumulator(AddrMode::Absolute)
    }

    /// Or accumulator, absolute x indexed.
    pub fn ora_abs_x(&mut self) -> (r: Result<(), Fault>)
        requires
            old(self).wf(),
        ensures
            final(self).wf(),
            (final(self)@, err_of(r)) == spec_ora(old(self)@, AddrMode::AbsoluteX),
    {
        self.or_accumulator(AddrMode::AbsoluteX)
    }

    /// Or accumulator, absolute y indexed.
    pub fn ora_abs_y(&mut self) -> (r: Result<(), Fault>)
        requires
            old(self).wf(),
        ensures
            final(self).wf(),
            (final(self)@, err_of(r)) == spec_ora(old(self)@, AddrMode::AbsoluteY),
    {
        self.or_accumulator(AddrMode::AbsoluteY)
    }

    /// Or accumulator, zero page.
    pub fn ora_zp(&mut self) -> (r: Result<(), Fault>)
        requires
            old(self).wf(),
        ensures
            final(self).wf(),
            (final(self)@, err_of(r)) == spec_ora(old(self)@, AddrMode::ZeroPage),
    {
        self.or_accumulator(AddrMode::ZeroPage)
    }

    /// Or accumulator, zero page x indexed.
    pub fn ora_zp_x(&mut self) -> (r: Result<(), Fault>)
        requires
            old(self).wf(),
        ensures
            final(self).wf(),
            (final(self)@, err_of(r)) == spec_ora(old(self)@, AddrMode::ZeroPageX),
    {
        self.or_accumulator(AddrMode::ZeroPageX)
    }

    /// Or accumulator, zero page indirect y indexed.
    pub fn ora_zp_iy(&mut self) -> (r: Result<(), Fault>)
        requires
            old(self).wf(),
        ensures
            final(self).wf(),
            (final(self)@, err_of(r)) == spec_ora(old(self)@, AddrMode::IndirectY),
    {
        self.or_accumulator(AddrMode::IndirectY)
    }

    /// Or accumulator, x indexed zero page indirect.
    pub fn ora_zp_xi(&mut self) -> (r: Result<(), Fault>)
        requires
            old(self).wf(),
        ensures
            final(self).wf(),
            (final(self)@, err_of(r)) == spec_ora(old(self)@, AddrMode::XIndirect),
    {
        self.or_accumulator(AddrMode::XIndirect)
    }

    /// Logical shift right of the accumulator.
    pub fn lsr_acc(&mut self)
        ensures
            final(self)@ == spec_lsr_acc(old(self)@),
    {
        let original: u8 = self.a;
        let shifted: u8 = original / 2;
        self.a = shifted;
        self.ps.set_flag(Flag::N, false);
        self.ps.set_flag(Flag::Z, shifted == 0);
        self.ps.set_flag(Flag::C, original % 2 == 1);
    }

    /// Logical shift right, absolute mode.
    pub fn lsr_abs(&mut self) -> (r: Result<(), Fault>)
        requires
            old(self).wf(),
        ensures
            final(self).wf(),
            (final(self)@, err_of(r)) == spec_lsr(old(self)@, AddrMode::Absolute),
    {
        self.shift_right_memory(AddrMode::Absolute)
    }

    /// Logical shift right, zero page.
    pub fn lsr_zp(&mut self) -> (r: Result<(), Fault>)
        requires
            old(self).wf(),
        ensures
            final(self).wf(),
            (final(self)@, err_of(r)) == spec_lsr(old(self)@, AddrMode::ZeroPage),
    {
        self.shift_right_memory(AddrMode::ZeroPage)
    }

    /// Logical shift right, absolute x indexed.
    pub fn lsr_abs_x(&mut self) -> (r: Result<(), Fault>)
        requires
            old(self).wf(),
        ensures
            final(self).wf(),
            (final(self)@, err_of(r)) == spec_lsr(old(self)@, AddrMode::AbsoluteX),
    {
        self.shift_right_memory(AddrMode::AbsoluteX)
    }

    /// Logical shift right, zero page x indexed.
    pub fn lsr_zp_x(&mut self) -> (r: Result<(), Fault>)
        requires
            old(self).wf(),
        ensures
            final(self).wf(),
            (final(self)@, err_of(r)) == spec_lsr(old(self)@, AddrMode::ZeroPageX),
    {
        self.shift_right_memory(AddrMode::ZeroPageX)
    }

    /// Jump absolute: the program counter takes the fetched word.
    pub fn jump_absolute(&mut self) -> (r: Result<(), Fault>)
        requires
            old(self).wf(),
        ensures
            final(self).wf(),
            (final(self)@, err_of(r)) == spec_jump_absolute(old(self)@),
    {
        let target: u16 = match self.fetch_word() {
            Ok(value) => value,
            Err(fault) => return Err(fault),
        };
        self.pc = target;
        Ok(())
    }

    /// Jump absolute indirect: dereference a pointer word at the fetched
    /// address. When the low byte of the pointer address is 0xFF, the high
    /// byte is read from the start of the same page rather than the next
    /// page (the hardware page-boundary quirk, reproduced on purpose).
    pub fn jump_absolute_indirect(&mut self) -> (r: Result<(), Fault>)
        requires
            old(self).wf(),
        ensures
            final(self).wf(),
            (final(self)@, err_of(r)) == spec_jump_indirect(old(self)@),
    {
        let pointer: u16 = match self.fetch_word() {
            Ok(value) => value,
            Err(fault) => return Err(fault),
        };
        let lo: u8 = self.read_mem(pointer);
        let high_address: u16 = if pointer % 256 == 0xFF {
            pointer - 0xFF
        } else {
            pointer + 1
        };
        let hi: u8 = self.read_mem(high_address);
        self.pc = lo as u16 + 256 * (hi as u16);
        Ok(())
    }

    /// Jump to a subroutine: push the address of the call instruction's
    /// last byte as a word at the stack pointer, move the pointer down by
    /// two, and jump to the fetched target.
    pub fn jump_subroutine(&mut self) -> (r: Result<(), Fault>)
        requires
            old(self).wf(),
        ensures
            final(self).wf(),
            (final(self)@, err_of(r)) == spec_jump_subroutine(old(self)@),
    {
        let target: u16 = match self.fetch_word() {
            Ok(value) => value,
            Err(fault) => return Err(fault),
        };
        let ret: u16 = self.pc - 1;
        let sp: u16 = self.sp;
        self.write_mem(sp, (ret % 256) as u8);
        self.write_mem(sp.wrapping_add(1), (ret / 256) as u8);
        self.sp = sp.wrapping_sub(2);
        self.pc = target;
        Ok(())
    }

    /// Return from a subroutine: move the stack pointer back up by two,
    /// read the pushed word there, and resume one byte past it — at the
    /// instruction following the original call.
    pub fn return_subroutine(&mut self)
        requires
            old(self).wf(),
        ensures
            final(self).wf(),
            final(self)@ == spec_return_subroutine(old(self)@),
    {
        let sp: u16 = self.sp.wrapping_add(2);
        self.sp = sp;
        let ret: u16 = self.read_word_at(sp);
        self.pc = ret.wrapping_add(1);
    }

    /// Push the accumulator at the stack pointer, then move the pointer
    /// down by one. No flag is affected.
    pub fn pha(&mut self)
        requires
            old(self).wf(),
        ensures
            final(self).wf(),
            final(self)@ == spec_pha(old(self)@),
    {
        let sp: u16 = self.sp;
        let value: u8 = self.a;
        self.write_mem(sp, value);
        self.sp = sp.wrapping_sub(1);
    }

    /// Push the raw packed status byte at the stack pointer, then move the
    /// pointer down by one.
    pub fn php(&mut self)
        requires
            old(self).wf(),
        ensures
            final(self).wf(),
            final(self)@ == spec_php(old(self)@),
    {
        let sp: u16 = self.sp;
        let value: u8 = self.ps.bits();
        self.write_mem(sp, value);
        self.sp = sp.wrapping_sub(1);
    }

    /// Move the stack pointer up by one, then load the accumulator from it,
    /// recomputing Zero and Negative.
    pub fn pla(&mut self)
        requires
            old(self).wf(),
        ensures
            final(self).wf(),
            final(self)@ == spec_pla(old(self)@),
    {
        let sp: u16 = self.sp.wrapping_add(1);
        self.sp = sp;
        let value: u8 = self.read_mem(sp);
        self.a = value;
        self.set_negative_and_zero_flags(value);
    }

    /// Move the stack pointer up by one, then rebuild the status register
    /// from exactly the byte read there.
    pub fn plp(&mut self)
        requires
            old(self).wf(),
        ensures
            final(self).wf(),
            final(self)@ == spec_plp(old(self)@),
    {
        let sp: u16 = self.sp.wrapping_add(1);
        self.sp = sp;
        let bits: u8 = self.read_mem(sp);
        self.ps = ProcessorStatus::from_bits_truncate(bits);
    }

    /// Transfer accumulator to index x, recomputing Zero and Negative.
    pub fn transfer_a_to_x(&mut self)
        ensures
            final(self)@ == spec_tax(old(self)@),
    {
        let value: u8 = self.a;
        self.x = value;
        self.set_negative_and_zero_flags(value);
    }

    /// Transfer accumulator to index y, recomputing Zero and Negative.
    pub fn transfer_a_to_y(&mut self)
        ensures
            final(self)@ == spec_tay(old(self)@),
    {
        let value: u8 = self.a;
        self.y = value;
        self.set_negative_and_zero_flags(value);
    }

    /// Transfer the low byte of the stack pointer to index x, recomputing
    /// Zero and Negative.
    pub fn transfer_sp_to_x(&mut self)
        ensures
            final(self)@ == spec_tsx(old(self)@),
    {
        let value: u8 = (self.sp % 256) as u8;
        self.x = value;
        self.set_negative_and_zero_flags(value);
    }

    /// Transfer index x to the accumulator, recomputing Zero and Negative.
    pub fn transfer_x_to_a(&mut self)
        ensures
            final(self)@ == spec_txa(old(self)@),
    {
        let value: u8 = self.x;
        self.a = value;
        self.set_negative_and_zero_flags(value);
    }

    /// Transfer index x to the stack pointer, biased into the stack page.
    /// No flag is affected.
    pub fn transfer_x_to_sp(&mut self)
        ensures
            final(self)@ == spec_txs(old(self)@),
    {
        self.sp = 0x0100 + (self.x as u16);
    }

    /// Transfer index y to the accumulator, recomputing Zero and Negative.
    pub fn transfer_y_to_a(&mut self)
        ensures
            final(self)@ == spec_tya(old(self)@),
    {
        let value: u8 = self.y;
        self.a = value;
        self.set_negative_and_zero_flags(value);
    }

    /// Set or clear the carry flag.
    pub fn set_carry_flag(&mut self, flag: bool)
        ensures
            final(self)@ == spec_set_carry(old(self)@, flag),
    {
        self.ps.set_flag(Flag::C, flag);
    }

    /// Set decimal mode. Decimal arithmetic is not modeled, so this is a
    /// no-op kept for completeness.
    pub fn set_decimal_mode(&self) {
    }

    /// Set the interrupt-disable flag.
    pub fn set_interrupt_disable(&mut self)
        ensures
            final(self)@ == spec_set_interrupt_disable(old(self)@),
    {
        self.ps.set_flag(Flag::I, true);
    }

    /// Do nothing. The dispatch loop never reaches this handler: fetching
    /// the no-op opcode halts the loop instead, the minimum viable behavior
    /// for a program terminator.
    pub fn nop(&mut self)
        ensures
            final(self)@ == old(self)@,
    {
    }

    /// Execute the program in memory: repeatedly fetch one opcode byte at
    /// the program counter, advance the counter, and dispatch on the opcode
    /// value, until the halt opcode is fetched or a fatal condition is hit.
    ///
    /// The final state is exactly what some number of [`step`] transitions
    /// of the specification semantics leaves behind, ending in a halt, in
    /// the returned fault, or — only for programs that outlive the largest
    /// representable step count — still running after that many steps.
    #[verifier::rlimit(30)]
    pub fn execute(&mut self) -> (r: ExecResult)
        requires
            old(self).wf(),
        ensures
            final(self).wf(),
            (match r {
                ExecResult::Halted => exists|n: nat|
                    run_n(old(self)@, n) == Outcome::Halted(final(self)@),
                ExecResult::Faulted(fault) => exists|n: nat|
                    run_n(old(self)@, n) == Outcome::Faulted(final(self)@, fault),
                ExecResult::Exhausted => run_n(old(self)@, u64::MAX as nat) == Outcome::Running(
                    final(self)@,
                ),
            }),
    {
        let ghost start = self@;
        let ghost mut steps: nat = 0;
        let mut fuel: u64 = u64::MAX;
        loop
            invariant
                self.wf(),
                start == old(self)@,
                run_n(start, steps) == Outcome::Running(self@),
                steps + fuel == u64::MAX,
            decreases fuel,
        {
            if fuel == 0 {
                return ExecResult::Exhausted;
            }
            fuel = fuel - 1;
            let ghost before = self@;
            let pc0: u16 = self.pc;
            let instruction: u8 = match self.fetch_byte() {
                Ok(value) => value,
                Err(fault) => {
                    proof {
                        assert(run_n(start, steps + 1) == Outcome::Faulted(self@, fault));
                    }
                    return ExecResult::Faulted(fault);
                },
            };
            let ghost fetched = self@;
            if instruction == op_codes::NOP {
                proof {
                    assert(run_n(start, steps + 1) == Outcome::Halted(self@));
                }
                return ExecResult::Halted;
            }
            let outcome: Result<(), Fault> = if instruction == op_codes::LDA_IM {
                self.lda_immediate()
            } else if instruction == op_codes::LDA_ABS {
                self.lda_absolute()
            } else if instruction == op_codes::LDA_ABS_X {
                self.lda_absolute_x_indexed()
            } else if instruction == op_codes::LDA_ABS_Y {
                self.lda_absolute_y_indexed()
            } else if instruction == op_codes::LDA_ZP {
                self.lda_zp()
            } else if instruction == op_codes::LDA_ZP_X {
                self.lda_zp_x()
            } else if instruction == op_codes::LDA_ZP_XI {
                self.lda_x_indexed_zero_page_indirect()
            } else if instruction == op_codes::LDA_ZP_IY {
                self.lda_y_zero_page_indirect_indexed()
            } else if instruction == op_codes::LDX_IM {
                self.ldx_immediate()
            } else if instruction == op_codes::LDX_ABS {
                self.ldx_absolute()
            } else if instruction == op_codes::LDX_ZP {
                self.ldx_zp()
            } else if instruction == op_codes::LDX_ZP_Y {
                self.ldx_y_indexed_zero_page()
            } else if instruction == op_codes::LDX_ABS_Y {
                self.ldx_absolute_y_indexed()
            } else if instruction == op_codes::LDY_IM {
                self.ldy_immediate()
            } else if instruction == op_codes::LDY_ABS {
                self.ldy_absolute()
            } else if instruction == op_codes::LDY_ZP {
                self.ldy_zp()
            } else if instruction == op_codes::LDY_ZP_X {
                self.ldy_x_indexed_zero_page()
            } else if instruction == op_codes::LDY_ABS_X {
                self.ldy_absolute_x_indexed()
            } else if instruction == op_codes::LSR_ACC {
                self.lsr_acc();
                Ok(())
            } else if instruction == op_codes::LSR_ABS {
                self.lsr_abs()
            } else if instruction == op_codes::LSR_ZP {
                self.lsr_zp()
            } else if instruction == op_codes::LSR_ABS_X {
                self.lsr_abs_x()
            } else if instruction == op_codes::LSR_ZP_X {
                self.lsr_zp_x()
            } else if instruction == op_codes::PHA {
                self.pha();
                Ok(())
            } else if instruction == op_codes::PHP {
                self.php();
                Ok(())
            } else if instruction == op_codes::PLA {
                self.pla();
                Ok(())
            } else if instruction == op_codes::PLP {
                self.plp();
                Ok(())
            } else if instruction == op_codes::JMP_ABS {
                self.jump_absolute()
            } else if instruction == op_codes::JMP_ABS_IND {
                self.jump_absolute_indirect()
            } else if instruction == op_codes::JSR {
                self.jump_subroutine()
            } else if instruction == op_codes::RTS {
                self.return_subroutine();
                Ok(())
            } else if instruction == op_codes::ANDA_IM {
                self.anda_im()
            } else if instruction == op_codes::ANDA_ABS {
                self.anda_abs()
            } else if instruction == op_codes::ANDA_X_ABS {
                self.anda_abs_x()
            } else if instruction == op_codes::ANDA_Y_ABS {
                self.anda_abs_y()
            } else if instruction == op_codes::ANDA_ZP {
                self.anda_zp()
            } else if instruction == op_codes::ANDA_ZP_X {
                self.anda_zp_x()
            } else if instruction == op_codes::ANDA_ZP_IY {
                self.anda_zp_iy()
            } else if instruction == op_codes::ANDA_ZP_XI {
                self.anda_zp_xi()
            } else if instruction == op_codes::ORA_IM {
                self.ora_im()
            } else if instruction == op_codes::ORA_ABS {
                self.ora_abs()
            } else if instruction == op_codes::ORA_X_ABS {
                self.ora_abs_x()
            } else if instruction == op_codes::ORA_Y_ABS {
                self.ora_abs_y()
            } else if instruction == op_codes::ORA_ZP {
                self.ora_zp()
            } else if instruction == op_codes::ORA_ZP_X {
                self.ora_zp_x()
            } else if instruction == op_codes::ORA_ZP_IY {
                self.ora_zp_iy()
            } else if instruction == op_codes::ORA_ZP_XI {
                self.ora_zp_xi()
            } else if instruction == op_codes::TAX {
                self.transfer_a_to_x();
                Ok(())
            } else if instruction == op_codes::TAY {
                self.transfer_a_to_y();
                Ok(())
            } else if instruction == op_codes::TSX {
                self.transfer_sp_to_x();
                Ok(())
            } else if instruction == op_codes::TXA {
                self.transfer_x_to_a();
                Ok(())
            } else if instruction == op_codes::TXS {
                self.transfer_x_to_sp();
                Ok(())
            } else if instruction == op_codes::TYA {
                self.transfer_y_to_a();
                Ok(())
            } else if instruction == op_codes::SEC {
                self.set_carry_flag(true);
                Ok(())
            } else if instruction == op_codes::SED {
                self.set_decimal_mode();
                Ok(())
            } else if instruction == op_codes::SEI {
                self.set_interrupt_disable();
                Ok(())
            } else {
                Err(Fault::UnknownOpcode { opcode: instruction, pc: pc0 })
            };
            proof {
                assert(spec_fetch_byte(before) == Ok::<(CpuView, u8), CpuView>((
                    fetched,
                    instruction,
                )));
                if is_known_opcode(instruction) {
                    assert((self@, err_of(outcome)) == exec_instruction(instruction, fetched));
                }
            }
            match outcome {
                Ok(()) => {
                    proof {
                        assert(step(before) == Outcome::Running(self@));
                        assert(run_n(start, steps + 1) == Outcome::Running(self@));
                        steps = steps + 1;
                    }
                },
                Err(fault) => {
                    proof {
                        assert(step(before) == Outcome::Faulted(self@, fault));
                        assert(run_n(start, steps + 1) == Outcome::Faulted(self@, fault));
                    }
                    return ExecResult::Faulted(fault);
                },
            }
        }
    }
}

} // verus!
