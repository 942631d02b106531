use emu6502::cpu::Cpu;
use emu6502::op_codes::{
    ANDA_IM, JMP_ABS, JMP_ABS_IND, JSR, LDA_ABS, LDA_ABS_X, LDA_ABS_Y, LDA_IM, LDA_ZP, LDA_ZP_IY,
    LDA_ZP_X, LDA_ZP_XI, LDX_ABS, LDX_ABS_Y, LDX_IM, LDX_ZP, LDX_ZP_Y, LDY_ABS, LDY_ABS_X, LDY_IM,
    LDY_ZP, LDY_ZP_X, LSR_ABS, LSR_ABS_X, LSR_ACC, LSR_ZP, LSR_ZP_X, NOP, ORA_ABS, ORA_IM,
    ORA_X_ABS, ORA_Y_ABS, ORA_ZP, ORA_ZP_IY, ORA_ZP_X, ORA_ZP_XI, PHA, PHP, PLA, PLP, RTS, SEC,
    SED, SEI, TAX, TAY, TSX, TXA, TXS, TYA,
};
use emu6502::processor_status::{Flag, ProcessorStatus};

#[test]
fn new_cpu_should_initialize_defaults() {
    let mut cpu = Cpu::new();
    cpu.reset(None);
    assert_eq!(cpu.pc, 0xFFFC);
}

#[test]
fn reset_cpu_with_address_should_fetch_from_correct_address() {
    let mut cpu = Cpu::new();
    cpu.reset(Some(0x0010));
    assert_eq!(cpu.pc, 0x0010);
}

#[test]
fn set_carry_flag_should_set_correct_bit() {
    let mut cpu = Cpu::new();
    cpu.reset(None);
    cpu.set_carry_flag(true);
    assert_eq!(cpu.ps, ProcessorStatus::flag(Flag::C))
}

#[test]
fn write_word_should_write_correct_data_to_memory() {
    let data: u16 = 0b1111111100000000;
    let mut cpu = Cpu::new();
    cpu.reset(None);
    cpu.memory.write_word(0xFFFC, data);
    let word = cpu.memory.read_word(0xFFFC);
    assert_eq!(word, data);
}

#[test]
fn jump_absolute_should_set_pc_to_correct_address() {
    let mut cpu = Cpu::new();
    cpu.reset(Some(0x0001));

    cpu.memory.data[0x0001] = JMP_ABS;
    cpu.memory.data[0x0002] = 0xBB;
    cpu.memory.data[0x0003] = 0xBB;
    cpu.memory.data[0xBBBB] = LDA_IM;
    cpu.memory.data[0xBBBC] = 0xFF;
    cpu.memory.data[0xBBBD] = NOP;

    cpu.execute();
    assert_eq!(cpu.a, 0xFF);
}

#[test]
fn jump_absolute_indirect_should_set_pc_correctly() {
    let mut cpu = Cpu::new();
    cpu.reset(Some(0x0001));

    cpu.memory.data[0x0001] = JMP_ABS_IND;
    cpu.memory.data[0x0002] = 0xBB;
    cpu.memory.data[0x0003] = 0xBB; // JMP ($BBBB)

    cpu.memory.data[0xBBBB] = 0xDD;
    cpu.memory.data[0xBBBC] = 0xDD;
    cpu.memory.data[0xDDDD] = LDA_IM;
    cpu.memory.data[0xDDDE] = 0xFF;
    cpu.memory.data[0xDDDF] = NOP;

    cpu.execute();
    assert_eq!(cpu.a, 0xFF);
}

#[test]
fn jump_absolute_indirect_should_not_cross_page_boundary() {
    let mut cpu = Cpu::new();
    cpu.reset(Some(0x0001));

    cpu.memory.data[0x0001] = JMP_ABS_IND;
    cpu.memory.data[0x0002] = 0xFF;
    cpu.memory.data[0x0003] = 0xAA; // JMP ($AAFF)

    cpu.memory.data[0xAAFF] = 0xBB;
    cpu.memory.data[0xAA00] = 0xBB; // shouldn't cross page boundary

    cpu.memory.data[0xBBBB] = LDA_IM;
    cpu.memory.data[0xBBBC] = 0xFF;
    cpu.memory.data[0xBBBD] = NOP;

    cpu.execute();
    assert_eq!(cpu.a, 0xFF);
}

#[test]
fn transfer_a_to_x() {
    let mut cpu = Cpu::new();
    cpu.reset(Some(0x0001));
    cpu.a = 0xFF;

    cpu.memory.data[0x0001] = TAX;
    cpu.memory.data[0x0002] = NOP;

    cpu.execute();
    assert_eq!(cpu.x, 0xFF);
}

#[test]
fn transfer_a_to_y() {
    let mut cpu = Cpu::new();
    cpu.reset(Some(0x0001));
    cpu.a = 0xFF;

    cpu.memory.data[0x0001] = TAY;
    cpu.memory.data[0x0002] = NOP;

    cpu.execute();
    assert_eq!(cpu.y, 0xFF);
}

#[test]
fn transfer_sp_to_x() {
    let mut cpu = Cpu::new();
    cpu.reset(Some(0x0001));
    cpu.sp = 0x0101;

    cpu.memory.data[0x0001] = TSX;
    cpu.memory.data[0x0002] = NOP;

    cpu.execute();
    assert_eq!(cpu.x, 0x01);
}

#[test]
fn transfer_x_to_a() {
    let mut cpu = Cpu::new();
    cpu.reset(Some(0x0001));
    cpu.x = 0xFF;

    cpu.memory.data[0x0001] = TXA;
    cpu.memory.data[0x0002] = NOP;

    cpu.execute();
    assert_eq!(cpu.a, 0xFF);
}

#[test]
fn transfer_y_to_a() {
    let mut cpu = Cpu::new();
    cpu.reset(Some(0x0001));
    cpu.y = 0xFF;

    cpu.memory.data[0x0001] = TYA;
    cpu.memory.data[0x0002] = NOP;

    cpu.execute();
    assert_eq!(cpu.a, 0xFF);
}

#[test]
fn transfer_x_to_sp() {
    let mut cpu = Cpu::new();
    cpu.reset(Some(0x0001));
    cpu.x = 0xAA;

    cpu.memory.data[0x0001] = TXS;
    cpu.memory.data[0x0002] = NOP;

    cpu.execute();
    assert_eq!(cpu.sp, 0x01AA);
}

#[test]
fn set_carry_flag_should_set_carry_flag() {
    let mut cpu = Cpu::new();
    cpu.reset(Some(0x0001));

    cpu.memory.data[0x0001] = SEC;
    cpu.memory.data[0x0002] = NOP;

    cpu.execute();
    assert_eq!(cpu.ps, ProcessorStatus::flag(Flag::C));
}

#[test]
fn set_decimal_mode_should_do_nothing() {
    let mut cpu = Cpu::new();
    cpu.reset(Some(0x0001));

    cpu.memory.data[0x0001] = SED;
    cpu.memory.data[0x0002] = NOP;

    cpu.execute();
    assert_eq!(cpu.ps, ProcessorStatus::empty());
}

#[test]
fn set_interrupt_disable_should_set_interrupt_flag() {
    let mut cpu = Cpu::new();
    cpu.reset(Some(0x0001));

    cpu.memory.data[0x0001] = SEI;
    cpu.memory.data[0x0002] = NOP;

    cpu.execute();
    assert_eq!(cpu.ps, ProcessorStatus::flag(Flag::I));
}

#[test]
fn anda_immediate_should_perform_bitwise_or_correctly() {
    let mut cpu = Cpu::new();
    cpu.reset(Some(0x0001));

    cpu.memory.data[0x0001] = LDA_IM;
    cpu.memory.data[0x0002] = 0xFF;
    cpu.memory.data[0x0003] = ANDA_IM;
    cpu.memory.data[0x0004] = 0xFF;
    cpu.memory.data[0x0005] = NOP;

    cpu.execute();

    assert_eq!(cpu.a, 0xFF);
}

#[test]
fn anda_absolute_should_perform_bitwise_or_correctly() {
    let mut cpu = Cpu::new();
    cpu.reset(Some(0x0001));

    cpu.memory.data[0x0020] = 0xFF;
    cpu.memory.data[0x0001] = LDA_IM;
    cpu.memory.data[0x0002] = 0xFF;
    cpu.memory.data[0x0003] = ORA_ABS;
    cpu.memory.data[0x0004] = 0x20;
    cpu.memory.data[0x0005] = 0x00;
    cpu.memory.data[0x0006] = NOP;

    cpu.execute();

    assert_eq!(cpu.a, 0xFF);
}

#[test]
fn anda_absolute_x_indexed_should_perform_bitwise_or_correctly() {
    let mut cpu = Cpu::new();
    cpu.reset(Some(0x0001));
    cpu.x = 0x01;

    cpu.memory.data[0x0021] = 0xFF;
    cpu.memory.data[0x0001] = LDA_IM;
    cpu.memory.data[0x0002] = 0xFF;
    cpu.memory.data[0x0003] = ORA_X_ABS;
    cpu.memory.data[0x0004] = 0x20;
    cpu.memory.data[0x0005] = 0x00;
    cpu.memory.data[0x0006] = NOP;

    cpu.execute();

    assert_eq!(cpu.a, 0xFF);
}

#[test]
fn anda_absolute_y_indexed_should_perform_bitwise_or_correctly() {
    let mut cpu = Cpu::new();
    cpu.reset(Some(0x0001));
    cpu.y = 0x01;

    cpu.memory.data[0x0021] = 0xFF;
    cpu.memory.data[0x0001] = LDA_IM;
    cpu.memory.data[0x0002] = 0xFF;
    cpu.memory.data[0x0003] = ORA_Y_ABS;
    cpu.memory.data[0x0004] = 0x20;
    cpu.memory.data[0x0005] = 0x00;
    cpu.memory.data[0x0006] = NOP;

    cpu.execute();

    assert_eq!(cpu.a, 0xFF);
}

#[test]
fn anda_zero_page_should_perform_bitwise_or_correctly() {
    let mut cpu = Cpu::new();
    cpu.reset(Some(0x0001));

    cpu.memory.data[0x0001] = LDA_IM;
    cpu.memory.data[0x0002] = 0xFF;
    cpu.memory.data[0x0003] = ORA_ZP;
    cpu.memory.data[0x0004] = 0xF0;
    cpu.memory.data[0x00F0] = 0xFF;
    cpu.memory.data[0x0005] = NOP;

    cpu.execute();

    assert_eq!(cpu.a, 0xFF);
}

#[test]
fn anda_zero_page_x_indexed_should_perform_bitwise_or_correctly() {
    let mut cpu = Cpu::new();
    cpu.reset(Some(0x0001));
    cpu.x = 0x01;

    cpu.memory.data[0x00F1] = 0xFF;
    cpu.memory.data[0x0001] = LDA_IM;
    cpu.memory.data[0x0002] = 0xFF;
    cpu.memory.data[0x0003] = ORA_ZP_X;
    cpu.memory.data[0x0004] = 0xF0;
    cpu.memory.data[0x0005] = NOP;

    cpu.execute();
    assert_eq!(cpu.a, 0xFF);
}

#[test]
fn anda_zero_page_indirect_y_indexed_should_perform_bitwise_or_correctly() {
    let mut cpu = Cpu::new();
    cpu.reset(Some(0x0001));
    cpu.a = 0xFF;
    cpu.y = 0x01;

    cpu.memory.data[0x0011] = 0x00;
    cpu.memory.data[0x0012] = 0xFF;
    cpu.memory.data[0xFF01] = 0xFF;

    cpu.memory.data[0x0001] = ORA_ZP_IY;
    cpu.memory.data[0x0002] = 0x11;
    cpu.memory.data[0x0003] = NOP;

    cpu.execute();
    assert_eq!(cpu.a, 0xFF);
}

#[test]
fn anda_zero_page_x_indexed_indirect_should_perform_bitwise_or_correctly() {
    let mut cpu = Cpu::new();
    cpu.reset(Some(0x0001));
    cpu.a = 0xFF;
    cpu.x = 0x01;

    cpu.memory.data[0x0012] = 0x00;
    cpu.memory.data[0x0013] = 0xFF;
    cpu.memory.data[0xFF00] = 0xFF;

    cpu.memory.data[0x0001] = ORA_ZP_XI;
    cpu.memory.data[0x0002] = 0x11;
    cpu.memory.data[0x0003] = NOP;

    cpu.execute();
    assert_eq!(cpu.a, 0xFF);
}

#[test]
fn ora_immediate_should_perform_bitwise_or_correctly() {
    let mut cpu = Cpu::new();
    cpu.reset(Some(0x0001));

    cpu.memory.data[0x0001] = LDA_IM;
    cpu.memory.data[0x0002] = 0b0101_0101;
    cpu.memory.data[0x0003] = ORA_IM;
    cpu.memory.data[0x0004] = 0b1010_1010;
    cpu.memory.data[0x0005] = NOP;

    cpu.execute();

    assert_eq!(cpu.a, 0xFF);
}

#[test]
fn ora_absolute_should_perform_bitwise_or_correctly() {
    let mut cpu = Cpu::new();
    cpu.reset(Some(0x0001));

    cpu.memory.data[0x0020] = 0x42;
    cpu.memory.data[0x0001] = LDA_IM;
    cpu.memory.data[0x0002] = 0x55;
    cpu.memory.data[0x0003] = ORA_ABS;
    cpu.memory.data[0x0004] = 0x20;
    cpu.memory.data[0x0005] = 0x00;
    cpu.memory.data[0x0006] = NOP;

    cpu.execute();

    assert_eq!(cpu.a, 0x57); // 0x42 | 0x55 = 0x57
}

#[test]
fn ora_absolute_x_indexed_should_perform_bitwise_or_correctly() {
    let mut cpu = Cpu::new();
    cpu.reset(Some(0x0001));
    cpu.x = 0x01;

    cpu.memory.data[0x0021] = 0x42;
    cpu.memory.data[0x0001] = LDA_IM;
    cpu.memory.data[0x0002] = 0x55;
    cpu.memory.data[0x0003] = ORA_X_ABS;
    cpu.memory.data[0x0004] = 0x20;
    cpu.memory.data[0x0005] = 0x00;
    cpu.memory.data[0x0006] = NOP;

    cpu.execute();

    assert_eq!(cpu.a, 0x57); // 0x42 | 0x55 = 0x57
}

#[test]
fn ora_absolute_y_indexed_should_perform_bitwise_or_correctly() {
    let mut cpu = Cpu::new();
    cpu.reset(Some(0x0001));
    cpu.y = 0x01;

    cpu.memory.data[0x0021] = 0x42;
    cpu.memory.data[0x0001] = LDA_IM;
    cpu.memory.data[0x0002] = 0x55;
    cpu.memory.data[0x0003] = ORA_Y_ABS;
    cpu.memory.data[0x0004] = 0x20;
    cpu.memory.data[0x0005] = 0x00;
    cpu.memory.data[0x0006] = NOP;

    cpu.execute();

    assert_eq!(cpu.a, 0x57); // 0x42 | 0x55 = 0x57
}

#[test]
fn ora_zero_page_should_perform_bitwise_or_correctly() {
    let mut cpu = Cpu::new();
    cpu.reset(Some(0x0001));

    cpu.memory.data[0x0001] = LDA_IM;
    cpu.memory.data[0x0002] = 0x00;
    cpu.memory.data[0x0003] = ORA_ZP;
    cpu.memory.data[0x0004] = 0xF0;
    cpu.memory.data[0x00F0] = 0xFF;
    cpu.memory.data[0x0005] = NOP;

    cpu.execute();

    assert_eq!(cpu.a, 0xFF);
}

#[test]
fn ora_zero_page_x_indexed_should_perform_bitwise_or_correctly() {
    let mut cpu = Cpu::new();
    cpu.reset(Some(0x0001));
    cpu.x = 0x01;

    cpu.memory.data[0x00F1] = 0xFF;
    cpu.memory.data[0x0001] = LDA_IM;
    cpu.memory.data[0x0002] = 0x00;
    cpu.memory.data[0x0003] = ORA_ZP_X;
    cpu.memory.data[0x0004] = 0xF0;
    cpu.memory.data[0x0005] = NOP;

    cpu.execute();
    assert_eq!(cpu.a, 0xFF);
}

#[test]
fn ora_zero_page_indirect_y_indexed_should_perform_bitwise_or_correctly() {
    let mut cpu = Cpu::new();
    cpu.reset(Some(0x0001));
    cpu.a = 0x00;
    cpu.y = 0x01;

    cpu.memory.data[0x0011] = 0x00;
    cpu.memory.data[0x0012] = 0xFF;
    cpu.memory.data[0xFF01] = 0xFF;

    cpu.memory.data[0x0001] = ORA_ZP_IY;
    cpu.memory.data[0x0002] = 0x11;
    cpu.memory.data[0x0003] = NOP;

    cpu.execute();
    assert_eq!(cpu.a, 0xFF);
}

#[test]
fn ora_zero_page_x_indexed_indirect_should_perform_bitwise_or_correctly() {
    let mut cpu = Cpu::new();
    cpu.reset(Some(0x0001));
    cpu.a = 0x00;
    cpu.x = 0x01;

    cpu.memory.data[0x0012] = 0x00;
    cpu.memory.data[0x0013] = 0xFF;
    cpu.memory.data[0xFF00] = 0xFF;

    cpu.memory.data[0x0001] = ORA_ZP_XI;
    cpu.memory.data[0x0002] = 0x11;
    cpu.memory.data[0x0003] = NOP;

    cpu.execute();
    assert_eq!(cpu.a, 0xFF);
}

#[test]
fn pop_accumulator_should_push_a_register_onto_stack() {
    let mut cpu = Cpu::new();
    cpu.reset(Some(0x0001));

    cpu.memory.data[0x0001] = LDA_IM;
    cpu.memory.data[0x0002] = 0xFF;
    cpu.memory.data[0x0003] = PHA;
    cpu.memory.data[0x0004] = LDA_IM;
    cpu.memory.data[0x0005] = 0x00;
    cpu.memory.data[0x0006] = PLA;
    cpu.memory.data[0x0007] = NOP;

    cpu.execute();

    assert_eq!(cpu.a, 0xFF);
}

#[test]
fn pop_processor_status_should_push_ps_register_onto_stack() {
    let mut cpu = Cpu::new();
    cpu.reset(Some(0x0001));
    cpu.memory.write_byte(cpu.sp as usize, 0b1101_1111);
    cpu.sp -= 1;
    cpu.memory.data[0x0001] = PLP;
    cpu.memory.data[0x0002] = NOP;

    cpu.execute();

    assert_eq!(cpu.ps.bits(), ProcessorStatus::all().bits());
}

#[test]
fn push_accumulator_should_push_a_register_onto_stack() {
    let mut cpu = Cpu::new();
    cpu.reset(Some(0x0001));

    cpu.memory.data[0x0001] = LDA_IM;
    cpu.memory.data[0x0002] = 0xFF;
    cpu.memory.data[0x0003] = PHA;
    cpu.memory.data[0x0004] = NOP;

    cpu.execute();
    let accumulator = cpu.memory.read_byte((cpu.sp + 1) as usize);

    assert_eq!(accumulator, 0xFF);
}

#[test]
fn push_processor_status_should_push_ps_register_onto_stack() {
    let mut cpu = Cpu::new();
    cpu.reset(Some(0x0001));
    cpu.ps = ProcessorStatus::all();
    cpu.memory.data[0x0001] = PHP;
    cpu.memory.data[0x0002] = NOP;

    cpu.execute();
    let ps = cpu.memory.read_byte((cpu.sp + 1) as usize);

    assert_eq!(ps, ProcessorStatus::all().bits());
}

#[test]
fn logical_shift_right_absolute_x_indexed_should_shift_value_correctly() {
    let mut cpu = Cpu::new();
    cpu.reset(Some(0x0001));

    cpu.memory.data[0x0011] = 0x02;
    cpu.memory.data[0x0001] = LDX_IM;
    cpu.memory.data[0x0002] = 0x01;
    cpu.memory.data[0x0003] = LSR_ABS_X;
    cpu.memory.data[0x0004] = 0x10;
    cpu.memory.data[0x0005] = 0x00; // 0x0010
    cpu.memory.data[0x0006] = NOP;

    cpu.execute();
    let address = cpu.memory.read_byte(0x011); //0x10 + 1
    assert_eq!(address, 0x01);
}

#[test]
fn logical_shift_right_zero_page_x_indexed_should_shift_value_correctly() {
    let mut cpu = Cpu::new();
    cpu.reset(Some(0x0001));

    cpu.memory.data[0x0011] = 0x02;
    cpu.memory.data[0x0001] = LDX_IM;
    cpu.memory.data[0x0002] = 0x01;
    cpu.memory.data[0x0003] = LSR_ZP_X;
    cpu.memory.data[0x0004] = 0x10;
    cpu.memory.data[0x0005] = NOP;

    cpu.execute();
    let address = cpu.memory.read_byte(0x011); //0x10 + 1
    assert_eq!(address, 0x01);
}

#[test]
fn logical_shift_right_zero_page_should_shift_value_correctly() {
    let mut cpu = Cpu::new();
    cpu.reset(Some(0x0001));

    cpu.memory.data[0x0010] = 0x02;
    cpu.memory.data[0x0001] = LSR_ZP;
    cpu.memory.data[0x0002] = 0x10;
    cpu.memory.data[0x0003] = NOP;

    cpu.execute();
    let address = cpu.memory.read_byte(0x010);
    assert_eq!(address, 0x01);
}

#[test]
fn logical_shift_right_zero_page_should_set_correct_flags() {
    let mut cpu = Cpu::new();
    cpu.reset(Some(0x0001));

    cpu.memory.data[0x0010] = 0x01;
    cpu.memory.data[0x0001] = LSR_ZP;
    cpu.memory.data[0x0002] = 0x10;
    cpu.memory.data[0x0003] = NOP;

    cpu.execute();
    assert_eq!(cpu.ps, ProcessorStatus::flag(Flag::Z).union(ProcessorStatus::flag(Flag::C)));
}

#[test]
fn logical_shift_right_absolute_should_shift_value_at_address_correctly() {
    let mut cpu = Cpu::new();
    cpu.reset(Some(0x0001));

    cpu.memory.data[0x0100] = 0x02;
    cpu.memory.data[0x0001] = LSR_ABS;
    cpu.memory.data[0x0002] = 0x00;
    cpu.memory.data[0x0003] = 0x01; // 0x0100
    cpu.memory.data[0x0004] = NOP;

    cpu.execute();
    let address = cpu.memory.read_byte(0x0100);
    assert_eq!(address, 0x01);
}

#[test]
fn logical_shift_right_accumulator_should_shift_value_correctly() {
    let mut cpu = Cpu::new();
    cpu.reset(Some(0x0001));
    cpu.memory.data[0x0001] = LDA_IM;
    cpu.memory.data[0x0002] = 0x02;
    cpu.memory.data[0x0003] = LSR_ACC;
    cpu.memory.data[0x0004] = NOP;

    cpu.execute();
    assert_eq!(cpu.a, 0x01);
}

#[test]
fn logical_shift_right_should_set_carry_flag() {
    let mut cpu = Cpu::new();
    cpu.reset(Some(0x0001));
    cpu.memory.data[0x0001] = LDA_IM;
    cpu.memory.data[0x0002] = 0x02;
    cpu.memory.data[0x0003] = LSR_ACC;
    cpu.memory.data[0x0004] = NOP;

    cpu.execute();
    assert_eq!(cpu.ps.render(), "00000000");
}

#[test]
fn logical_shift_right_should_reset_negative_flag() {
    let mut cpu = Cpu::new();
    cpu.reset(Some(0x0001));
    cpu.memory.data[0x0001] = LDA_IM;
    cpu.memory.data[0x0002] = 0b1000;
    cpu.memory.data[0x0003] = LSR_ACC;
    cpu.memory.data[0x0004] = NOP;

    cpu.execute();
    assert_eq!(cpu.ps.render(), "00000000");
}

#[test]
fn logical_shift_right_should_set_carry_and_zero_flags() {
    let mut cpu = Cpu::new();
    cpu.reset(Some(0x0001));
    cpu.memory.data[0x0001] = LDA_IM;
    cpu.memory.data[0x0002] = 0b0001;
    cpu.memory.data[0x0003] = LSR_ACC;
    cpu.memory.data[0x0004] = NOP;

    cpu.execute();
    assert_eq!(cpu.ps.render(), "00000011");
}

#[test]
fn jump_subroutine_should_jump_to_new_address() {
    let mut cpu = Cpu::new();
    cpu.reset(None);

    // load a dummy program into memory
    cpu.memory.data[0xFFFC] = JSR;
    cpu.memory.data[0xFFFD] = 0x10;
    cpu.memory.data[0xFFFE] = 0x00; // JSR 0x0010
    cpu.memory.data[0x0010] = NOP;

    cpu.execute();
    // stack pointer should be 0xFF 0xFD (high byte first)
    let expected_return_address = (cpu.sp + 2) as usize;
    let stack_address = cpu.memory.read_word(expected_return_address);
    // should get to no-op
    assert_eq!(cpu.pc, 0x0011);
    // return to last byte of last instruction
    assert_eq!(stack_address, 0xFFFE);
}

#[test]
fn return_subroutine_should_grab_instructions_from_where_pc_was_left_on_stack() {
    let mut cpu = Cpu::new();
    cpu.reset(Some(0x0001));

    cpu.memory.data[0x0001] = JSR;
    cpu.memory.data[0x0002] = 0x00;
    cpu.memory.data[0x0003] = 0x10; // 0x0100
    cpu.memory.data[0x0004] = NOP;
    cpu.memory.data[0x1000] = LDA_IM;
    cpu.memory.data[0x1001] = 0x01;
    cpu.memory.data[0x1002] = RTS;

    cpu.execute();

    assert_eq!(cpu.pc, 0x05);
}

#[test]
fn ldy_immediate_should_load_y_register() {
    let mut cpu = Cpu::new();
    cpu.reset(None);
    // Load a dummy program into memory
    cpu.memory.data[0xFFFC] = LDY_IM;
    cpu.memory.data[0xFFFD] = 0x42;
    cpu.memory.data[0xFFFE] = NOP;

    cpu.execute();
    assert_eq!(cpu.y, 0x42);
}

#[test]
fn ldy_absolute_should_load_y_register() {
    let mut cpu = Cpu::new();
    cpu.reset(None);
    // would overflow if ran from reset vector
    // set PC to lower address
    cpu.pc = 0xFFF0;
    // Load a dummy program into memory
    cpu.memory.data[0xFFF0] = LDY_ABS;
    cpu.memory.data[0xFFF1] = 0x80;
    cpu.memory.data[0xFFF2] = 0x44; // 0x4480
    cpu.memory.data[0x4480] = 0x37;
    cpu.memory.data[0xFFF3] = NOP;

    cpu.execute();
    assert_eq!(cpu.y, 0x37);
}

#[test]
fn ldy_absolute_x_indexed_should_load_y_register_with_correct_value() {
    let mut cpu = Cpu::new();
    cpu.reset(None);
    // would overflow if ran from reset vector
    // set PC to lower address
    cpu.pc = 0xFFF0;
    // set x register
    cpu.x = 0x01;
    // Load a dummy program into memory
    cpu.memory.data[0xFFF0] = LDY_ABS_X;
    cpu.memory.data[0xFFF1] = 0x80;
    cpu.memory.data[0xFFF2] = 0x44; // 0x4480
    cpu.memory.data[0x4481] = 0x37;
    cpu.memory.data[0xFFF3] = NOP;

    cpu.execute();
    assert_eq!(cpu.y, 0x37);
}

#[test]
fn ldy_zero_page_should_load_y_register() {
    let mut cpu = Cpu::new();
    cpu.reset(None);
    // Load a dummy program into memory
    cpu.memory.data[0xFFFC] = LDY_ZP;
    cpu.memory.data[0xFFFD] = 0x42;
    cpu.memory.data[0x0042] = 0x84;
    cpu.memory.data[0xFFFE] = NOP;

    cpu.execute();
    assert_eq!(cpu.y, 0x84);
}

#[test]
fn ldx_immediate_should_load_x_register() {
    let mut cpu = Cpu::new();
    cpu.reset(None);
    // Load a dummy program into memory
    cpu.memory.data[0xFFFC] = LDX_IM;
    cpu.memory.data[0xFFFD] = 0x42;
    cpu.memory.data[0xFFFE] = NOP;

    cpu.execute();
    assert_eq!(cpu.x, 0x42);
}

#[test]
fn ldx_absolute_should_load_x_register() {
    let mut cpu = Cpu::new();
    cpu.reset(None);
    // would overflow if ran from reset vector
    // set PC to lower address
    cpu.pc = 0xFFF0;
    // Load a dummy program into memory
    cpu.memory.data[0xFFF0] = LDX_ABS;
    cpu.memory.data[0xFFF1] = 0x80;
    cpu.memory.data[0xFFF2] = 0x44; // 0x4480
    cpu.memory.data[0x4480] = 0x37;
    cpu.memory.data[0xFFF3] = NOP;

    cpu.execute();
    assert_eq!(cpu.x, 0x37);
}

#[test]
fn ldx_absolute_y_indexed_should_load_x_register_with_correct_value() {
    let mut cpu = Cpu::new();
    cpu.reset(None);
    // would overflow if ran from reset vector
    // set PC to lower address
    cpu.pc = 0xFFF0;
    // set y register
    cpu.y = 0x01;
    // Load a dummy program into memory
    cpu.memory.data[0xFFF0] = LDX_ABS_Y;
    cpu.memory.data[0xFFF1] = 0x80;
    cpu.memory.data[0xFFF2] = 0x44; // 0x4480
    cpu.memory.data[0x4481] = 0x37;
    cpu.memory.data[0xFFF3] = NOP;

    cpu.execute();
    assert_eq!(cpu.x, 0x37);
}

#[test]
fn ldx_zero_page_should_load_x_register() {
    let mut cpu = Cpu::new();
    cpu.reset(None);
    // Load a dummy program into memory
    cpu.memory.data[0xFFFC] = LDX_ZP;
    cpu.memory.data[0xFFFD] = 0x42;
    cpu.memory.data[0x0042] = 0x84;
    cpu.memory.data[0xFFFE] = NOP;

    cpu.execute();
    assert_eq!(cpu.x, 0x84);
}

#[test]
fn lda_immediate_should_load_accumulator_register() {
    let mut cpu = Cpu::new();
    cpu.reset(None);
    // Load a dummy program into memory
    cpu.memory.data[0xFFFC] = LDA_IM;
    cpu.memory.data[0xFFFD] = 0x42;
    cpu.memory.data[0xFFFE] = NOP;

    cpu.execute();
    assert_eq!(cpu.a, 0x42);
}

#[test]
fn lda_absolute_should_load_accumulator_register() {
    let mut cpu = Cpu::new();
    cpu.reset(None);
    // would overflow if ran from reset vector
    // set PC to lower address
    cpu.pc = 0xFFF0;
    // Load a dummy program into memory
    cpu.memory.data[0xFFF0] = LDA_ABS;
    cpu.memory.data[0xFFF1] = 0x80;
    cpu.memory.data[0xFFF2] = 0x44; // 0x4480
    cpu.memory.data[0x4480] = 0x37;
    cpu.memory.data[0xFFF3] = NOP;

    cpu.execute();
    assert_eq!(cpu.a, 0x37);
}

#[test]
fn lda_absolute_x_indexed_should_load_accumulator_with_correct_value() {
    let mut cpu = Cpu::new();
    cpu.reset(None);
    // would overflow if ran from reset vector
    // set PC to lower address
    cpu.pc = 0xFFF0;
    // set x register
    cpu.x = 0x01;
    // Load a dummy program into memory
    cpu.memory.data[0xFFF0] = LDA_ABS_X;
    cpu.memory.data[0xFFF1] = 0x80;
    cpu.memory.data[0xFFF2] = 0x44; // 0x4480
    cpu.memory.data[0x4481] = 0x37;
    cpu.memory.data[0xFFF3] = NOP;

    cpu.execute();
    assert_eq!(cpu.a, 0x37);
}

#[test]
fn lda_absolute_y_indexed_should_load_accumulator_with_correct_value() {
    let mut cpu = Cpu::new();
    cpu.reset(None);
    // would overflow if ran from reset vector
    // set PC to lower address
    cpu.pc = 0xFFF0;
    // set y register
    cpu.y = 0x01;
    // Load a dummy program into memory
    cpu.memory.data[0xFFF0] = LDA_ABS_Y;
    cpu.memory.data[0xFFF1] = 0x80;
    cpu.memory.data[0xFFF2] = 0x44; // 0x4480
    cpu.memory.data[0x4481] = 0x37;
    cpu.memory.data[0xFFF3] = NOP;

    cpu.execute();
    assert_eq!(cpu.a, 0x37);
}

#[test]
fn lda_zero_should_set_zero_flag() {
    let mut cpu = Cpu::new();
    cpu.reset(None);
    // Load a dummy program into memory
    cpu.memory.data[0xFFFC] = LDA_IM;
    cpu.memory.data[0xFFFD] = 0x00;
    cpu.memory.data[0xFFFE] = NOP;

    cpu.execute();
    assert_eq!(cpu.ps.render(), "00000010");
}

#[test]
fn lda_seventh_bit_set_should_raise_negative_flag() {
    let mut cpu = Cpu::new();
    cpu.reset(None);
    // Load a dummy program into memory
    cpu.memory.data[0xFFFC] = LDA_IM;
    cpu.memory.data[0xFFFD] = 0b10000001;
    cpu.memory.data[0xFFFE] = NOP;

    cpu.execute();
    assert_eq!(cpu.ps.render(), "10000000");
}

#[test]
fn lda_zero_page_should_load_accumulator_register() {
    let mut cpu = Cpu::new();
    cpu.reset(None);
    // Load a dummy program into memory
    cpu.memory.data[0xFFFC] = LDA_ZP;
    cpu.memory.data[0xFFFD] = 0x42;
    cpu.memory.data[0x0042] = 0x84;
    cpu.memory.data[0xFFFE] = NOP;

    cpu.execute();
    assert_eq!(cpu.a, 0x84);
}

#[test]
fn lda_zero_page_indirect_y_indexed_should_load_accumulator_register() {
    let mut cpu = Cpu::new();
    cpu.reset(None);
    // set the Y register to 10
    cpu.y = 0x04;
    // Load a dummy program into memory
    cpu.memory.data[0xFFFC] = LDA_ZP_IY;
    cpu.memory.data[0xFFFD] = 0x02;
    cpu.memory.data[0x0002] = 0x00;
    cpu.memory.data[0x0003] = 0x80;
    cpu.memory.data[0x8004] = 0x37;
    cpu.memory.data[0xFFFE] = NOP;

    cpu.execute();
    assert_eq!(cpu.a, 0x37);
}

#[test]
fn read_word() {
    let mut cpu = Cpu::new();
    cpu.reset(None);
    cpu.memory.data[0x44] = 0x20;
    cpu.memory.data[0x45] = 0x20;

    let word = cpu.memory.read_word(0x44);

    assert_eq!(word, 0x2020);
}

// The zero-page indexed and x-indexed indirect modes below follow the
// addressing-mode table: the index is added to the operand to form the
// effective address, and the x-indexed indirect mode dereferences the
// pointer word found there.

#[test]
fn lda_zero_page_x_indexed_reads_indexed_address() {
    let mut cpu = Cpu::new();
    cpu.reset(None);
    cpu.x = 0x01;
    cpu.memory.data[0xFFFC] = LDA_ZP_X;
    cpu.memory.data[0xFFFD] = 0x42;
    cpu.memory.data[0x0043] = 0x84;
    cpu.memory.data[0xFFFE] = NOP;

    cpu.execute();
    assert_eq!(cpu.a, 0x84);
}

#[test]
fn ldx_zero_page_y_indexed_reads_indexed_address() {
    let mut cpu = Cpu::new();
    cpu.reset(None);
    cpu.y = 0x01;
    cpu.memory.data[0xFFFC] = LDX_ZP_Y;
    cpu.memory.data[0xFFFD] = 0x42;
    cpu.memory.data[0x0043] = 0x84;
    cpu.memory.data[0xFFFE] = NOP;

    cpu.execute();
    assert_eq!(cpu.x, 0x84);
}

#[test]
fn ldy_zero_page_x_indexed_reads_indexed_address() {
    let mut cpu = Cpu::new();
    cpu.reset(None);
    cpu.x = 0x01;
    cpu.memory.data[0xFFFC] = LDY_ZP_X;
    cpu.memory.data[0xFFFD] = 0x42;
    cpu.memory.data[0x0043] = 0x84;
    cpu.memory.data[0xFFFE] = NOP;

    cpu.execute();
    assert_eq!(cpu.y, 0x84);
}

#[test]
fn lda_x_indexed_indirect_dereferences_pointer() {
    let mut cpu = Cpu::new();
    cpu.reset(None);
    cpu.x = 0x04;
    cpu.memory.data[0xFFFC] = LDA_ZP_XI;
    cpu.memory.data[0xFFFD] = 0x20;
    cpu.memory.data[0x0024] = 0x34;
    cpu.memory.data[0x0025] = 0x12; // pointer word 0x1234
    cpu.memory.data[0x1234] = 0x77;
    cpu.memory.data[0xFFFE] = NOP;

    cpu.execute();
    assert_eq!(cpu.a, 0x77);
}
