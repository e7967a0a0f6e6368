use shining_emulator::cpu::CpuRegisters;
use shining_emulator::execution::{
    add_a, add_hl, advance_pc, af, and_a, bc, carry, condition_met, cp_a, daa, de, dec8, hl, inc8,
    operand_address, or_a, pc, pc_after_instruction, reg16_from_column, reg8_from_index,
    reg8_from_opcode_middle, rotate_left_circular, rotate_left_through_carry, rotate_right_circular,
    rotate_right_through_carry, set_af, set_bc, set_de, set_hl, set_znhc, shift_left_arithmetic,
    shift_right_arithmetic, shift_right_logical, sub_a, swap_nibbles, test_bit, xor_a, Condition,
    Reg16, Reg8,
};

fn registers_with(a: u8, f: u8) -> CpuRegisters {
    let mut registers = CpuRegisters::default();
    registers.a = a;
    registers.f = f;
    registers
}

#[test]
fn register_fields_decode_from_opcodes() {
    assert_eq!(reg8_from_index(0), Reg8::B);
    assert_eq!(reg8_from_index(6), Reg8::Hl);
    assert_eq!(reg8_from_index(7), Reg8::A);
    assert_eq!(reg8_from_opcode_middle(0x78), Reg8::A);
    assert_eq!(reg8_from_opcode_middle(0x41), Reg8::B);
    assert_eq!(reg8_from_opcode_middle(0x66), Reg8::H);
    assert_eq!(reg16_from_column(0), Reg16::Bc);
    assert_eq!(reg16_from_column(2), Reg16::Hl);
    assert_eq!(reg16_from_column(3), Reg16::Sp);
}

#[test]
fn set_znhc_clears_the_low_nibble() {
    let mut registers = registers_with(0, 0x0f);
    set_znhc(&mut registers, true, false, true, false);
    assert_eq!(registers.f, 0xa0);
    set_znhc(&mut registers, false, true, false, true);
    assert_eq!(registers.f, 0x50);
    assert!(carry(&registers));
}

#[test]
fn inc8_sets_half_carry_and_keeps_carry() {
    let mut registers = registers_with(0, 0x10);
    assert_eq!(inc8(&mut registers, 0x0f), 0x10);
    assert_eq!(registers.f, 0x30);

    let mut registers = registers_with(0, 0x00);
    assert_eq!(inc8(&mut registers, 0xff), 0x00);
    assert_eq!(registers.f, 0xa0);
}

#[test]
fn dec8_sets_subtract_and_half_borrow() {
    let mut registers = registers_with(0, 0x00);
    assert_eq!(dec8(&mut registers, 0x10), 0x0f);
    assert_eq!(registers.f, 0x60);

    let mut registers = registers_with(0, 0x10);
    assert_eq!(dec8(&mut registers, 0x01), 0x00);
    assert_eq!(registers.f, 0xd0);
}

#[test]
fn add_and_adc_report_carries() {
    let mut registers = registers_with(0x3a, 0x00);
    add_a(&mut registers, 0xc6, false);
    assert_eq!(registers.a, 0x00);
    assert_eq!(registers.f, 0xb0);

    let mut registers = registers_with(0x0f, 0x00);
    add_a(&mut registers, 0x01, true);
    assert_eq!(registers.a, 0x11);
    assert_eq!(registers.f, 0x20);
}

#[test]
fn sub_and_sbc_report_borrows() {
    let mut registers = registers_with(0x3e, 0x00);
    sub_a(&mut registers, 0x3e, false);
    assert_eq!(registers.a, 0x00);
    assert_eq!(registers.f, 0xc0);

    let mut registers = registers_with(0x3e, 0x00);
    sub_a(&mut registers, 0x0f, false);
    assert_eq!(registers.a, 0x2f);
    assert_eq!(registers.f, 0x60);

    let mut registers = registers_with(0x10, 0x00);
    sub_a(&mut registers, 0x20, false);
    assert_eq!(registers.a, 0xf0);
    assert_eq!(registers.f, 0x50);

    let mut registers = registers_with(0x00, 0x00);
    sub_a(&mut registers, 0x00, true);
    assert_eq!(registers.a, 0xff);
    assert_eq!(registers.f, 0x70);
}

#[test]
fn logic_operations_set_their_flags() {
    let mut registers = registers_with(0x5a, 0x10);
    and_a(&mut registers, 0x3f);
    assert_eq!(registers.a, 0x1a);
    assert_eq!(registers.f, 0x20);

    let mut registers = registers_with(0xff, 0x30);
    xor_a(&mut registers, 0xff);
    assert_eq!(registers.a, 0x00);
    assert_eq!(registers.f, 0x80);

    let mut registers = registers_with(0x5a, 0xf0);
    or_a(&mut registers, 0x03);
    assert_eq!(registers.a, 0x5b);
    assert_eq!(registers.f, 0x00);
}

#[test]
fn compare_keeps_a() {
    let mut registers = registers_with(0x3c, 0x00);
    cp_a(&mut registers, 0x2f);
    assert_eq!(registers.a, 0x3c);
    assert_eq!(registers.f, 0x60);

    cp_a(&mut registers, 0x40);
    assert_eq!(registers.f, 0x50);

    cp_a(&mut registers, 0x3c);
    assert_eq!(registers.f, 0xc0);
}

#[test]
fn daa_adjusts_bcd_sums_and_differences() {
    let mut registers = registers_with(0x15, 0x00);
    add_a(&mut registers, 0x27, false);
    daa(&mut registers);
    assert_eq!(registers.a, 0x42);
    assert_eq!(registers.f, 0x00);

    let mut registers = registers_with(0x99, 0x00);
    add_a(&mut registers, 0x01, false);
    daa(&mut registers);
    assert_eq!(registers.a, 0x00);
    assert_eq!(registers.f, 0x90);

    let mut registers = registers_with(0x42, 0x00);
    sub_a(&mut registers, 0x15, false);
    daa(&mut registers);
    assert_eq!(registers.a, 0x27);
    assert_eq!(registers.f, 0x40);
}

#[test]
fn rotations_move_bits_through_carry() {
    let mut registers = registers_with(0, 0);
    assert_eq!(rotate_left_circular(&mut registers, 0x85, true), 0x0b);
    assert_eq!(registers.f, 0x10);
    assert_eq!(rotate_left_circular(&mut registers, 0x00, true), 0x00);
    assert_eq!(registers.f, 0x80);
    assert_eq!(rotate_left_circular(&mut registers, 0x00, false), 0x00);
    assert_eq!(registers.f, 0x00);

    assert_eq!(rotate_right_circular(&mut registers, 0x01, true), 0x80);
    assert_eq!(registers.f, 0x10);

    let mut registers = registers_with(0, 0x00);
    assert_eq!(rotate_left_through_carry(&mut registers, 0x80, true), 0x00);
    assert_eq!(registers.f, 0x90);
    let mut registers = registers_with(0, 0x10);
    assert_eq!(rotate_left_through_carry(&mut registers, 0x01, true), 0x03);
    assert_eq!(registers.f, 0x00);

    let mut registers = registers_with(0, 0x10);
    assert_eq!(rotate_right_through_carry(&mut registers, 0x01, true), 0x80);
    assert_eq!(registers.f, 0x10);
}

#[test]
fn shifts_and_swap() {
    let mut registers = registers_with(0, 0);
    assert_eq!(shift_left_arithmetic(&mut registers, 0x80), 0x00);
    assert_eq!(registers.f, 0x90);
    assert_eq!(shift_right_arithmetic(&mut registers, 0x8a), 0xc5);
    assert_eq!(registers.f, 0x00);
    assert_eq!(shift_right_logical(&mut registers, 0x01), 0x00);
    assert_eq!(registers.f, 0x90);
    assert_eq!(swap_nibbles(&mut registers, 0xf0), 0x0f);
    assert_eq!(registers.f, 0x00);
    assert_eq!(swap_nibbles(&mut registers, 0x00), 0x00);
    assert_eq!(registers.f, 0x80);
}

#[test]
fn bit_test_sets_zero_for_a_clear_bit() {
    let mut registers = registers_with(0, 0x10);
    test_bit(&mut registers, 0x80, 7);
    assert_eq!(registers.f, 0x30);
    let mut registers = registers_with(0, 0x00);
    test_bit(&mut registers, 0x80, 0);
    assert_eq!(registers.f, 0xa0);
}

#[test]
fn register_pairs_read_back_what_was_written() {
    let mut registers = registers_with(0, 0xff);
    set_bc(&mut registers, 0x1234);
    set_de(&mut registers, 0x5678);
    set_hl(&mut registers, 0xbeef);
    assert_eq!((registers.b, registers.c), (0x12, 0x34));
    assert_eq!(bc(&registers), 0x1234);
    assert_eq!(de(&registers), 0x5678);
    assert_eq!(hl(&registers), 0xbeef);
    registers.a = 0x9a;
    assert_eq!(af(&registers), 0x9af0);
    set_af(&mut registers, 0x12ff);
    assert_eq!(registers.a, 0x12);
    assert_eq!(registers.f, 0xf0);
}

#[test]
fn add_hl_keeps_zero_and_reports_carries() {
    let mut registers = registers_with(0, 0x80);
    set_hl(&mut registers, 0x0fff);
    add_hl(&mut registers, 0x0001);
    assert_eq!(hl(&registers), 0x1000);
    assert_eq!(registers.f, 0xa0);

    let mut registers = registers_with(0, 0x00);
    set_hl(&mut registers, 0xffff);
    add_hl(&mut registers, 0x0001);
    assert_eq!(hl(&registers), 0x0000);
    assert_eq!(registers.f, 0x30);
}

#[test]
fn conditions_follow_the_flags() {
    let registers = registers_with(0, 0x80);
    assert!(condition_met(&registers, Condition::Z));
    assert!(!condition_met(&registers, Condition::Nz));
    assert!(condition_met(&registers, Condition::Nc));
    assert!(!condition_met(&registers, Condition::C));
}

#[test]
fn program_counter_steps_and_the_halt_bug() {
    let mut registers = CpuRegisters::default();
    registers.pc = 0x1_0005;
    assert_eq!(pc(&registers), 0x0005);
    registers.pc = 0x100;
    assert_eq!(operand_address(&registers, 1), 0x101);
    registers.halt_bug = true;
    assert_eq!(operand_address(&registers, 1), 0x100);
    assert_eq!(pc_after_instruction(&registers, 0), 0x100);
    registers.halt_bug = false;
    registers.pc = 0xffff;
    assert_eq!(pc_after_instruction(&registers, 2), 0x0001);
    advance_pc(&mut registers, 2);
    assert_eq!(registers.pc, 0x0001);
}
