use shining_emulator::bus::IF_IO_INDEX;
use shining_emulator::cpu::CpuMode;
use shining_emulator::execution::{FLAG_C, FLAG_H, FLAG_N, FLAG_Z};
use shining_emulator::interpreter::{perform_op, IE_IO_INDEX};
use shining_emulator::machine::GameBoyCore;

fn core_with_program(program: &[(usize, u8)]) -> GameBoyCore {
    let mut core = GameBoyCore::default();
    for &(address, byte) in program {
        core.memory.rom[address] = byte;
    }
    core.cpu_registers.pc = 0x0100;
    core
}

#[test]
fn loads_and_adds_registers() {
    let mut core = GameBoyCore::default();
    core.memory.rom[0x0100] = 0x3e;
    core.memory.rom[0x0101] = 0x12;
    core.memory.rom[0x0102] = 0x06;
    core.memory.rom[0x0103] = 0x30;
    core.memory.rom[0x0104] = 0x80;
    core.cpu_registers.pc = 0x0100;

    assert_eq!(perform_op(&mut core), 8);
    assert_eq!(perform_op(&mut core), 8);
    assert_eq!(perform_op(&mut core), 4);

    assert_eq!(core.cpu_registers.a, 0x42);
    assert_eq!(core.cpu_registers.f, 0);
}

#[test]
fn call_and_return_use_stack_memory() {
    let mut core = GameBoyCore::default();
    core.memory.rom[0x0100] = 0xcd;
    core.memory.rom[0x0101] = 0x00;
    core.memory.rom[0x0102] = 0x02;
    core.memory.rom[0x0200] = 0xc9;
    core.cpu_registers.pc = 0x0100;
    core.cpu_registers.sp = 0xfffe;

    assert_eq!(perform_op(&mut core), 24);
    assert_eq!(core.cpu_registers.pc, 0x0200);
    assert_eq!(perform_op(&mut core), 16);
    assert_eq!(core.cpu_registers.pc, 0x0103);
    assert_eq!(core.cpu_registers.sp, 0xfffe);
}

#[test]
fn cb_bit_operation_preserves_carry_and_sets_half_carry() {
    let mut core = GameBoyCore::default();
    core.memory.rom[0x0100] = 0xcb;
    core.memory.rom[0x0101] = 0x7c;
    core.cpu_registers.pc = 0x0100;
    core.cpu_registers.h = 0x7f;
    core.cpu_registers.f = FLAG_C;

    assert_eq!(perform_op(&mut core), 8);

    assert_eq!(core.cpu_registers.f, FLAG_Z | FLAG_H | FLAG_C);
}

#[test]
fn halt_with_disabled_ime_and_pending_interrupt_triggers_halt_bug() {
    let mut core = GameBoyCore::default();
    core.memory.rom[0x0100] = 0x76;
    core.memory.io_ports[IE_IO_INDEX] = 0x01;
    core.memory.io_ports[IF_IO_INDEX] = 0x01;
    core.cpu_registers.pc = 0x0100;

    assert_eq!(perform_op(&mut core), 4);

    assert_eq!(core.cpu_mode, CpuMode::Running);
    assert_eq!(core.cpu_registers.pc, 0x0101);
    assert!(core.cpu_registers.halt_bug);
}

#[test]
fn halt_bug_shifts_immediate_operands_and_pc_advance() {
    let mut core = GameBoyCore::default();
    core.memory.rom[0x0100] = 0x06;
    core.memory.rom[0x0101] = 0x42;
    core.cpu_registers.pc = 0x0100;
    core.cpu_registers.halt_bug = true;

    assert_eq!(perform_op(&mut core), 8);

    assert_eq!(core.cpu_registers.b, 0x06);
    assert_eq!(core.cpu_registers.pc, 0x0101);
    assert!(!core.cpu_registers.halt_bug);
}

#[test]
fn halt_without_pending_interrupt_halts_and_then_idles() {
    let mut core = core_with_program(&[(0x0100, 0x76)]);

    assert_eq!(perform_op(&mut core), 4);
    assert_eq!(core.cpu_mode, CpuMode::Halted);
    assert_eq!(core.cpu_registers.pc, 0x0101);
    assert_eq!(perform_op(&mut core), 4);
    assert_eq!(core.cpu_registers.pc, 0x0101);
}

#[test]
fn relative_jumps_go_backwards_and_forwards() {
    let mut core = core_with_program(&[(0x0100, 0x18), (0x0101, 0xfe)]);
    assert_eq!(perform_op(&mut core), 12);
    assert_eq!(core.cpu_registers.pc, 0x0100);

    let mut core = core_with_program(&[(0x0100, 0x20), (0x0101, 0x05)]);
    core.cpu_registers.f = FLAG_Z;
    assert_eq!(perform_op(&mut core), 8);
    assert_eq!(core.cpu_registers.pc, 0x0102);

    let mut core = core_with_program(&[(0x0100, 0x20), (0x0101, 0x05)]);
    assert_eq!(perform_op(&mut core), 12);
    assert_eq!(core.cpu_registers.pc, 0x0107);
}

#[test]
fn push_and_pop_round_trip_through_the_stack() {
    let mut core = core_with_program(&[(0x0100, 0xc5), (0x0101, 0xd1), (0x0102, 0xf5), (0x0103, 0xc1)]);
    core.cpu_registers.sp = 0xfffe;
    core.cpu_registers.b = 0x12;
    core.cpu_registers.c = 0x34;
    core.cpu_registers.a = 0x56;
    core.cpu_registers.f = 0xff;

    assert_eq!(perform_op(&mut core), 16);
    assert_eq!(core.cpu_registers.sp, 0xfffc);
    assert_eq!(perform_op(&mut core), 12);
    assert_eq!((core.cpu_registers.d, core.cpu_registers.e), (0x12, 0x34));
    assert_eq!(perform_op(&mut core), 16);
    assert_eq!(perform_op(&mut core), 12);
    assert_eq!((core.cpu_registers.b, core.cpu_registers.c), (0x56, 0xf0));
    assert_eq!(core.cpu_registers.sp, 0xfffe);
}

#[test]
fn restart_pushes_the_next_address() {
    let mut core = core_with_program(&[(0x0100, 0xef)]);
    core.cpu_registers.sp = 0xfffe;

    assert_eq!(perform_op(&mut core), 16);
    assert_eq!(core.cpu_registers.pc, 0x0028);
    assert_eq!(core.cpu_registers.sp, 0xfffc);
    assert_eq!(core.memory.io_ports[0xfc], 0x01);
    assert_eq!(core.memory.io_ports[0xfd], 0x01);
}

#[test]
fn high_page_loads_and_stores() {
    let mut core = core_with_program(&[(0x0100, 0xe0), (0x0101, 0x90), (0x0102, 0xf0), (0x0103, 0x90)]);
    core.cpu_registers.a = 0x5a;

    assert_eq!(perform_op(&mut core), 12);
    assert_eq!(core.memory.io_ports[0x90], 0x5a);
    core.cpu_registers.a = 0;
    assert_eq!(perform_op(&mut core), 12);
    assert_eq!(core.cpu_registers.a, 0x5a);
    assert_eq!(core.cpu_registers.pc, 0x0104);
}

#[test]
fn stack_pointer_offsets_set_half_and_full_carries() {
    let mut core = core_with_program(&[(0x0100, 0xf8), (0x0101, 0xff)]);
    core.cpu_registers.sp = 0x00ff;

    assert_eq!(perform_op(&mut core), 12);
    assert_eq!((core.cpu_registers.h, core.cpu_registers.l), (0x00, 0xfe));
    assert_eq!(core.cpu_registers.f, FLAG_H | FLAG_C);
}

#[test]
fn cb_operations_on_memory_take_sixteen_cycles() {
    let mut core = core_with_program(&[(0x0100, 0xcb), (0x0101, 0x36)]);
    core.cpu_registers.h = 0xff;
    core.cpu_registers.l = 0x90;
    core.memory.io_ports[0x90] = 0x12;

    assert_eq!(perform_op(&mut core), 16);
    assert_eq!(core.memory.io_ports[0x90], 0x21);
    assert_eq!(core.cpu_registers.f, 0);
}

#[test]
fn invalid_opcode_stops_the_emulator() {
    let mut core = core_with_program(&[(0x0100, 0xd3)]);
    core.runtime.is_running = true;
    core.cpu_timing.clocks_acc = 40;

    assert_eq!(perform_op(&mut core), 40);
    assert!(!core.runtime.is_running);
    assert_eq!(core.cpu_registers.pc, 0x0100);
}

#[test]
fn subtraction_sets_the_subtract_flag() {
    let mut core = core_with_program(&[(0x0100, 0xd6), (0x0101, 0x01)]);
    core.cpu_registers.a = 0x10;

    assert_eq!(perform_op(&mut core), 8);
    assert_eq!(core.cpu_registers.a, 0x0f);
    assert_eq!(core.cpu_registers.f, FLAG_N | FLAG_H);
}
