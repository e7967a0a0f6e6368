use vstd::prelude::*;

use crate::bus::{
    cpu_written16, cpu_written8, port, read16, read8, spec_read16, spec_read8, write16, write8, IF_IO_INDEX,
};
use crate::cpu::{CpuMode, CpuRegisters};
use crate::runtime::RuntimeControl;
use crate::execution::{
    complement_a, complement_carry_flag, condition_met, daa, set_af, set_carry_flag, signed_byte, sp_plus_offset,
    spec_daa, Condition, FLAG_C, FLAG_H, FLAG_N, FLAG_Z,
};
use crate::execution::{
    add_a, add_hl, and_a, bit_clear, carry, carry_set, cp_a, dec8, flags, inc8, or_a, pair, reg16_from_column,
    reg8_from_index, reg8_from_opcode_middle, rotate_left_circular, rotate_left_through_carry,
    rotate_right_circular, rotate_right_through_carry, set_bc, set_de, set_hl, shift_left_arithmetic,
    shift_right_arithmetic, shift_right_logical, spec_add_a, spec_add_hl, spec_operand_address,
    spec_reg8_from_index, spec_sub_a, sub_a, swap_nibbles, test_bit, with_a_and_flags, with_flags, xor_a, Reg16,
    Reg8,
};
use crate::machine::GameBoyCore;

verus! {

/// The interrupt enable register's index among the I/O ports.
pub const IE_IO_INDEX: usize = 0xff;

/// The core with its register file replaced.
pub open spec fn with_registers(core: &GameBoyCore, registers: CpuRegisters) -> GameBoyCore {
    GameBoyCore { cpu_registers: registers, ..*core }
}

/// The program counter after an instruction of `amount` bytes; after the HALT bug the opcode
/// byte was not counted, so it is one byte fewer.
pub open spec fn next_pc(registers: CpuRegisters, amount: u16) -> u32 {
    ((registers.pc % 65536 + (if registers.halt_bug && amount > 0 { amount - 1 } else { amount as int }))
        % 65536) as u32
}

/// The registers with the program counter moved past an instruction of `amount` bytes.
pub open spec fn advanced(registers: CpuRegisters, amount: u16) -> CpuRegisters {
    CpuRegisters { pc: next_pc(registers, amount), ..registers }
}

/// The opcode under the program counter.
pub open spec fn opcode_at_pc(core: &GameBoyCore) -> u8 {
    spec_read8(core, (core.cpu_registers.pc % 65536) as u16)
}

/// The byte operand that follows the opcode.
pub open spec fn immediate8(core: &GameBoyCore) -> u8 {
    spec_read8(core, spec_operand_address(core.cpu_registers, 1))
}

/// The little-endian 16-bit operand that follows the opcode.
pub open spec fn immediate16(core: &GameBoyCore) -> u16 {
    (immediate8(core) + 256 * spec_read8(core, spec_operand_address(core.cpu_registers, 2))) as u16
}

/// The value of an 8-bit operand: a register, or the byte at HL as the CPU reads it.
pub open spec fn reg8_value(core: &GameBoyCore, register: Reg8) -> u8 {
    let r = core.cpu_registers;
    match register {
        Reg8::B => r.b,
        Reg8::C => r.c,
        Reg8::D => r.d,
        Reg8::E => r.e,
        Reg8::H => r.h,
        Reg8::L => r.l,
        Reg8::Hl => spec_read8(core, pair(r.h, r.l)),
        Reg8::A => r.a,
    }
}

/// The registers with an 8-bit register replaced; (HL) names memory and leaves them as they are.
pub open spec fn with_reg8(registers: CpuRegisters, register: Reg8, value: u8) -> CpuRegisters {
    match register {
        Reg8::B => CpuRegisters { b: value, ..registers },
        Reg8::C => CpuRegisters { c: value, ..registers },
        Reg8::D => CpuRegisters { d: value, ..registers },
        Reg8::E => CpuRegisters { e: value, ..registers },
        Reg8::H => CpuRegisters { h: value, ..registers },
        Reg8::L => CpuRegisters { l: value, ..registers },
        Reg8::Hl => registers,
        Reg8::A => CpuRegisters { a: value, ..registers },
    }
}

/// What storing `value` into an 8-bit operand does: a CPU write at HL for (HL), else the
/// register takes it.
pub open spec fn reg8_stored(before: &GameBoyCore, after: &GameBoyCore, register: Reg8, value: u8) -> bool {
    if register == Reg8::Hl {
        cpu_written8(before, after, pair(before.cpu_registers.h, before.cpu_registers.l), value)
    } else {
        *after == with_registers(before, with_reg8(before.cpu_registers, register, value))
    }
}

/// The value of a register pair; SP as a 16-bit value.
pub open spec fn reg16_value(registers: CpuRegisters, register: Reg16) -> u16 {
    match register {
        Reg16::Bc => pair(registers.b, registers.c),
        Reg16::De => pair(registers.d, registers.e),
        Reg16::Hl => pair(registers.h, registers.l),
        Reg16::Sp => (registers.sp % 65536) as u16,
    }
}

/// The registers with a register pair replaced, high byte into the first register.
pub open spec fn with_reg16(registers: CpuRegisters, register: Reg16, value: u16) -> CpuRegisters {
    match register {
        Reg16::Bc => CpuRegisters { b: (value / 256) as u8, c: (value % 256) as u8, ..registers },
        Reg16::De => CpuRegisters { d: (value / 256) as u8, e: (value % 256) as u8, ..registers },
        Reg16::Hl => CpuRegisters { h: (value / 256) as u8, l: (value % 256) as u8, ..registers },
        Reg16::Sp => CpuRegisters { sp: value as u32, ..registers },
    }
}

/// What pushing `value` does: SP drops by two (wrapping) and the value is written there.
pub open spec fn pushed(before: &GameBoyCore, after: &GameBoyCore, value: u16) -> bool {
    let sp = ((before.cpu_registers.sp % 65536 + 65534) % 65536) as u16;
    cpu_written16(
        &with_registers(before, CpuRegisters { sp: sp as u32, ..before.cpu_registers }),
        after,
        sp,
        value,
    )
}

/// The 16-bit value on top of the stack.
pub open spec fn stack_top(core: &GameBoyCore) -> u16 {
    spec_read16(core, (core.cpu_registers.sp % 65536) as u16)
}

/// The registers with SP moved past the value on top of the stack.
pub open spec fn popped(registers: CpuRegisters) -> CpuRegisters {
    CpuRegisters { sp: ((registers.sp % 65536 + 2) % 65536) as u32, ..registers }
}

/// Whether an enabled interrupt is requested.
pub open spec fn spec_interrupt_pending(core: &GameBoyCore) -> bool {
    port(core, IE_IO_INDEX as int) & port(core, IF_IO_INDEX as int) & 0x1f != 0
}

/// The byte operand that follows the opcode.
pub fn imm8(core: &GameBoyCore) -> (value: u8)
    requires
        core.wf(),
    ensures
        value == immediate8(core),
{
    let address = crate::execution::operand_address(&core.cpu_registers, 1);
    read8(core, address)
}

/// The little-endian 16-bit operand that follows the opcode.
pub fn imm16(core: &GameBoyCore) -> (value: u16)
    requires
        core.wf(),
    ensures
        value == immediate16(core),
{
    let low = imm8(core);
    let address = crate::execution::operand_address(&core.cpu_registers, 2);
    let high = read8(core, address);
    (low as u16) + (high as u16) * 256
}

/// Reads an 8-bit operand.
pub fn read_reg8(core: &GameBoyCore, register: Reg8) -> (value: u8)
    requires
        core.wf(),
    ensures
        value == reg8_value(core, register),
{
    match register {
        Reg8::B => core.cpu_registers.b,
        Reg8::C => core.cpu_registers.c,
        Reg8::D => core.cpu_registers.d,
        Reg8::E => core.cpu_registers.e,
        Reg8::H => core.cpu_registers.h,
        Reg8::L => core.cpu_registers.l,
        Reg8::Hl => {
            let address = crate::execution::hl(&core.cpu_registers);
            read8(core, address)
        },
        Reg8::A => core.cpu_registers.a,
    }
}

/// Stores `value` into an 8-bit operand.
pub fn write_reg8(core: &mut GameBoyCore, register: Reg8, value: u8)
    requires
        old(core).wf(),
    ensures
        final(core).wf(),
        reg8_stored(old(core), final(core), register, value),
{
    match register {
        Reg8::B => core.cpu_registers.b = value,
        Reg8::C => core.cpu_registers.c = value,
        Reg8::D => core.cpu_registers.d = value,
        Reg8::E => core.cpu_registers.e = value,
        Reg8::H => core.cpu_registers.h = value,
        Reg8::L => core.cpu_registers.l = value,
        Reg8::Hl => {
            let address = crate::execution::hl(&core.cpu_registers);
            write8(core, address, value);
        },
        Reg8::A => core.cpu_registers.a = value,
    }
}

/// Reads a register pair.
pub fn read_reg16(registers: &CpuRegisters, register: Reg16) -> (value: u16)
    ensures
        value == reg16_value(*registers, register),
{
    match register {
        Reg16::Bc => crate::execution::bc(registers),
        Reg16::De => crate::execution::de(registers),
        Reg16::Hl => crate::execution::hl(registers),
        Reg16::Sp => crate::execution::pc(&CpuRegisters { pc: registers.sp, ..*registers }),
    }
}

/// Writes a register pair.
pub fn write_reg16(registers: &mut CpuRegisters, register: Reg16, value: u16)
    ensures
        *final(registers) == with_reg16(*old(registers), register, value),
{
    match register {
        Reg16::Bc => set_bc(registers, value),
        Reg16::De => set_de(registers, value),
        Reg16::Hl => set_hl(registers, value),
        Reg16::Sp => registers.sp = value as u32,
    }
}

/// Pushes `value`: SP drops by two and the value is written there, low byte first.
pub fn push(core: &mut GameBoyCore, value: u16)
    requires
        old(core).wf(),
    ensures
        final(core).wf(),
        pushed(old(core), final(core), value),
{
    let sp = read_reg16(&core.cpu_registers, Reg16::Sp).wrapping_sub(2);
    core.cpu_registers.sp = sp as u32;
    write16(core, sp, value);
}

/// Pops the value on top of the stack: SP rises by two.
pub fn pop(core: &mut GameBoyCore) -> (value: u16)
    requires
        old(core).wf(),
    ensures
        final(core).wf(),
        value == stack_top(old(core)),
        *final(core) == with_registers(old(core), popped(old(core).cpu_registers)),
{
    let sp = read_reg16(&core.cpu_registers, Reg16::Sp);
    let value = read16(core, sp);
    core.cpu_registers.sp = sp.wrapping_add(2) as u32;
    value
}

/// Whether an enabled interrupt is requested.
pub fn interrupt_pending(core: &GameBoyCore) -> (pending: bool)
    requires
        core.wf(),
    ensures
        pending == spec_interrupt_pending(core),
{
    let enabled = core.memory.io_ports[IE_IO_INDEX];
    let requested = core.memory.io_ports[IF_IO_INDEX];
    enabled & requested & 0x1f != 0
}

/// The register pair that a 2-bit column names: BC, DE, HL, SP.
pub open spec fn column16(column: int) -> Reg16 {
    if column == 0 {
        Reg16::Bc
    } else if column == 1 {
        Reg16::De
    } else if column == 2 {
        Reg16::Hl
    } else {
        Reg16::Sp
    }
}

/// The registers after the 8-bit operation `kind` of A with `value`, in opcode order: ADD,
/// ADC, SUB, SBC, AND, XOR, OR, CP.
pub open spec fn alu_result(registers: CpuRegisters, kind: int, value: u8) -> CpuRegisters {
    let a = registers.a;
    if kind == 0 {
        spec_add_a(registers, value, false)
    } else if kind == 1 {
        spec_add_a(registers, value, carry_set(registers))
    } else if kind == 2 {
        spec_sub_a(registers, value, false)
    } else if kind == 3 {
        spec_sub_a(registers, value, carry_set(registers))
    } else if kind == 4 {
        with_a_and_flags(registers, a & value, flags(a & value == 0, false, true, false))
    } else if kind == 5 {
        with_a_and_flags(registers, a ^ value, flags(a ^ value == 0, false, false, false))
    } else if kind == 6 {
        with_a_and_flags(registers, a | value, flags(a | value == 0, false, false, false))
    } else {
        with_flags(registers, flags(a == value, true, value % 16 > a % 16, value > a))
    }
}

/// The flags after INC of `value`: Z and H follow the result, N clears, C is kept.
pub open spec fn inc8_flags(registers: CpuRegisters, value: u8) -> CpuRegisters {
    with_flags(registers, flags((value + 1) % 256 == 0, false, value % 16 == 15, carry_set(registers)))
}

/// The flags after DEC of `value`: Z and H follow the result, N sets, C is kept.
pub open spec fn dec8_flags(registers: CpuRegisters, value: u8) -> CpuRegisters {
    with_flags(registers, flags((value + 255) % 256 == 0, true, value % 16 == 0, carry_set(registers)))
}

/// What storing into an 8-bit operand and then moving past an instruction of `amount` bytes
/// does.
pub open spec fn stored_then_advanced(
    before: &GameBoyCore,
    after: &GameBoyCore,
    register: Reg8,
    value: u8,
    amount: u16,
) -> bool {
    exists|middle: GameBoyCore|
        reg8_stored(before, &middle, register, value) && *after == with_registers(
            &middle,
            advanced(middle.cpu_registers, amount),
        )
}

/// What a CPU write of `value` at `address` and then moving past an instruction of `amount`
/// bytes does.
pub open spec fn written_then_advanced(
    before: &GameBoyCore,
    after: &GameBoyCore,
    address: u16,
    value: u8,
    amount: u16,
) -> bool {
    exists|middle: GameBoyCore|
        cpu_written8(before, &middle, address, value) && *after == with_registers(
            &middle,
            advanced(middle.cpu_registers, amount),
        )
}

/// Whether `opcode` belongs to the regularly encoded families: 16-bit loads, increments and
/// additions, 8-bit increments, decrements and immediate loads, the loads through BC, DE and
/// HL, the register-to-register loads, and the 8-bit arithmetic on registers.
pub open spec fn regular_opcode(opcode: u8) -> bool {
    ||| opcode < 0x40 && (opcode % 16 == 1 || opcode % 16 == 3 || opcode % 16 == 9 || opcode % 16 == 11)
    ||| opcode == 0x02 || opcode == 0x12 || opcode == 0x0a || opcode == 0x1a
    ||| opcode < 0x40 && (opcode % 8 == 4 || opcode % 8 == 5 || opcode % 8 == 6)
    ||| opcode == 0x22 || opcode == 0x2a || opcode == 0x32 || opcode == 0x3a
    ||| 0x40 <= opcode < 0xc0 && opcode != 0x76
}

/// LD rr,d16: the pair that bits 4 and 5 name takes the operand.
pub open spec fn pair_loaded(before: &GameBoyCore, after: &GameBoyCore, opcode: u8) -> bool {
    let r = before.cpu_registers;
    *after == with_registers(before, advanced(with_reg16(r, column16(opcode as int / 16), immediate16(before)), 3))
}

/// LD (BC),A and LD (DE),A.
pub open spec fn a_stored_indirect(before: &GameBoyCore, after: &GameBoyCore, opcode: u8) -> bool {
    let r = before.cpu_registers;
    let address = if opcode == 0x02 { pair(r.b, r.c) } else { pair(r.d, r.e) };
    written_then_advanced(before, after, address, r.a, 1)
}

/// INC rr (`delta` 1) and DEC rr (`delta` 65535): the pair moves by one, wrapping; no flag
/// changes.
pub open spec fn pair_stepped(before: &GameBoyCore, after: &GameBoyCore, opcode: u8, delta: int) -> bool {
    let r = before.cpu_registers;
    let register = column16(opcode as int / 16);
    let value = ((reg16_value(r, register) + delta) % 65536) as u16;
    *after == with_registers(before, advanced(with_reg16(r, register, value), 1))
}

/// INC r and INC (HL).
pub open spec fn operand_incremented(before: &GameBoyCore, after: &GameBoyCore, opcode: u8) -> bool {
    let register = spec_reg8_from_index((opcode / 8) % 8);
    let value = reg8_value(before, register);
    let result = ((value + 1) % 256) as u8;
    stored_then_advanced(&with_registers(before, inc8_flags(before.cpu_registers, value)), after, register, result, 1)
}

/// DEC r and DEC (HL).
pub open spec fn operand_decremented(before: &GameBoyCore, after: &GameBoyCore, opcode: u8) -> bool {
    let register = spec_reg8_from_index((opcode / 8) % 8);
    let value = reg8_value(before, register);
    let result = ((value + 255) % 256) as u8;
    stored_then_advanced(&with_registers(before, dec8_flags(before.cpu_registers, value)), after, register, result, 1)
}

/// LD r,d8 and LD (HL),d8.
pub open spec fn operand_loaded_immediate(before: &GameBoyCore, after: &GameBoyCore, opcode: u8) -> bool {
    stored_then_advanced(before, after, spec_reg8_from_index((opcode / 8) % 8), immediate8(before), 2)
}

/// ADD HL,rr.
pub open spec fn pair_added_to_hl(before: &GameBoyCore, after: &GameBoyCore, opcode: u8) -> bool {
    let r = before.cpu_registers;
    *after == with_registers(before, advanced(spec_add_hl(r, reg16_value(r, column16(opcode as int / 16))), 1))
}

/// LD A,(BC) and LD A,(DE).
pub open spec fn a_loaded_indirect(before: &GameBoyCore, after: &GameBoyCore, opcode: u8) -> bool {
    let r = before.cpu_registers;
    let address = if opcode == 0x0a { pair(r.b, r.c) } else { pair(r.d, r.e) };
    *after == with_registers(before, advanced(CpuRegisters { a: spec_read8(before, address), ..r }, 1))
}

/// LD (HL+),A, LD A,(HL+), LD (HL-),A and LD A,(HL-): A goes to or comes from the byte at HL,
/// then HL moves by one, wrapping.
pub open spec fn a_transferred_through_hl(before: &GameBoyCore, after: &GameBoyCore, opcode: u8) -> bool {
    let r = before.cpu_registers;
    let address = pair(r.h, r.l);
    let next = if opcode == 0x22 || opcode == 0x2a {
        ((address + 1) % 65536) as u16
    } else {
        ((address + 65535) % 65536) as u16
    };
    if opcode == 0x22 || opcode == 0x32 {
        exists|middle: GameBoyCore|
            cpu_written8(before, &middle, address, r.a) && *after == with_registers(
                &middle,
                advanced(with_reg16(middle.cpu_registers, Reg16::Hl, next), 1),
            )
    } else {
        *after == with_registers(
            before,
            advanced(with_reg16(CpuRegisters { a: spec_read8(before, address), ..r }, Reg16::Hl, next), 1),
        )
    }
}

/// LD r,r': the operand that bits 3 to 5 name takes the one that bits 0 to 2 name.
pub open spec fn operand_copied(before: &GameBoyCore, after: &GameBoyCore, opcode: u8) -> bool {
    let destination = spec_reg8_from_index((opcode / 8) % 8);
    let source = spec_reg8_from_index(opcode % 8);
    stored_then_advanced(before, after, destination, reg8_value(before, source), 1)
}

/// ADD, ADC, SUB, SBC, AND, XOR, OR and CP of A with the operand that bits 0 to 2 name.
pub open spec fn operand_combined(before: &GameBoyCore, after: &GameBoyCore, opcode: u8) -> bool {
    let source = spec_reg8_from_index(opcode % 8);
    *after == with_registers(
        before,
        advanced(alu_result(before.cpu_registers, (opcode - 0x80) / 8, reg8_value(before, source)), 1),
    )
}

/// Whether the 8-bit operand that bits `shift` to `shift + 2` of `opcode` name is (HL).
pub open spec fn names_memory(opcode: u8, shift: int) -> bool {
    if shift == 0 { opcode % 8 == 6 } else { (opcode / 8) % 8 == 6 }
}

/// What an instruction of the regular families does, and its cycles.
pub open spec fn regular_performed(before: &GameBoyCore, after: &GameBoyCore, opcode: u8, cycles: i32) -> bool {
    if opcode < 0x40 && opcode % 16 == 1 {
        pair_loaded(before, after, opcode) && cycles == 12
    } else if opcode == 0x02 || opcode == 0x12 {
        a_stored_indirect(before, after, opcode) && cycles == 8
    } else if opcode < 0x40 && opcode % 16 == 3 {
        pair_stepped(before, after, opcode, 1) && cycles == 8
    } else if opcode < 0x40 && opcode % 8 == 4 {
        operand_incremented(before, after, opcode) && cycles == if names_memory(opcode, 3) { 12i32 } else { 4i32 }
    } else if opcode < 0x40 && opcode % 8 == 5 {
        operand_decremented(before, after, opcode) && cycles == if names_memory(opcode, 3) { 12i32 } else { 4i32 }
    } else if opcode < 0x40 && opcode % 8 == 6 {
        operand_loaded_immediate(before, after, opcode) && cycles == if names_memory(opcode, 3) {
            12i32
        } else {
            8i32
        }
    } else if opcode < 0x40 && opcode % 16 == 9 {
        pair_added_to_hl(before, after, opcode) && cycles == 8
    } else if opcode == 0x0a || opcode == 0x1a {
        a_loaded_indirect(before, after, opcode) && cycles == 8
    } else if opcode < 0x40 && opcode % 16 == 11 {
        pair_stepped(before, after, opcode, 65535) && cycles == 8
    } else if opcode == 0x22 || opcode == 0x2a || opcode == 0x32 || opcode == 0x3a {
        a_transferred_through_hl(before, after, opcode) && cycles == 8
    } else if opcode < 0x80 {
        operand_copied(before, after, opcode) && cycles == if names_memory(opcode, 3) || names_memory(opcode, 0) {
            8i32
        } else {
            4i32
        }
    } else {
        operand_combined(before, after, opcode) && cycles == if names_memory(opcode, 0) { 8i32 } else { 4i32 }
    }
}

proof fn lemma_opcode_fields(opcode: u8)
    ensures
        opcode >> 4u8 == opcode / 16,
        opcode & 0x07 == opcode % 8,
{
    crate::bits::lemma_byte_fields(opcode);
}

/// Moves the program counter past an instruction of `amount` bytes.
fn advance_pc(core: &mut GameBoyCore, amount: u16)
    ensures
        *final(core) == with_registers(old(core), advanced(old(core).cpu_registers, amount)),
{
    crate::execution::advance_pc(&mut core.cpu_registers, amount);
}

/// Stores into an 8-bit operand and moves past an instruction of `amount` bytes.
fn store_and_advance(core: &mut GameBoyCore, register: Reg8, value: u8, amount: u16)
    requires
        old(core).wf(),
    ensures
        final(core).wf(),
        stored_then_advanced(old(core), final(core), register, value, amount),
{
    write_reg8(core, register, value);
    let ghost middle = *core;
    advance_pc(core, amount);
    assert(reg8_stored(old(core), &middle, register, value));
}

/// Writes `value` at `address` as the CPU does and moves past an instruction of `amount` bytes.
fn write_and_advance(core: &mut GameBoyCore, address: u16, value: u8, amount: u16)
    requires
        old(core).wf(),
    ensures
        final(core).wf(),
        written_then_advanced(old(core), final(core), address, value, amount),
{
    write8(core, address, value);
    let ghost middle = *core;
    advance_pc(core, amount);
    assert(cpu_written8(old(core), &middle, address, value));
}

/// LD rr,d16.
fn load_pair_immediate(core: &mut GameBoyCore, opcode: u8)
    requires
        old(core).wf(),
    ensures
        final(core).wf(),
        pair_loaded(old(core), final(core), opcode),
{
    proof {
        lemma_opcode_fields(opcode);
    }
    let register = reg16_from_column(opcode >> 4);
    let value = imm16(core);
    write_reg16(&mut core.cpu_registers, register, value);
    advance_pc(core, 3);
}

/// LD (BC),A or LD (DE),A.
fn store_a_indirect(core: &mut GameBoyCore, opcode: u8)
    requires
        old(core).wf(),
    ensures
        final(core).wf(),
        a_stored_indirect(old(core), final(core), opcode),
{
    let address = if opcode == 0x02 {
        crate::execution::bc(&core.cpu_registers)
    } else {
        crate::execution::de(&core.cpu_registers)
    };
    let a = core.cpu_registers.a;
    write_and_advance(core, address, a, 1);
}

/// INC rr or DEC rr.
fn step_pair(core: &mut GameBoyCore, opcode: u8, increment: bool)
    requires
        old(core).wf(),
    ensures
        final(core).wf(),
        pair_stepped(old(core), final(core), opcode, if increment { 1 } else { 65535 }),
{
    proof {
        lemma_opcode_fields(opcode);
    }
    let register = reg16_from_column(opcode >> 4);
    let current = read_reg16(&core.cpu_registers, register);
    let value = if increment {
        current.wrapping_add(1)
    } else {
        current.wrapping_sub(1)
    };
    write_reg16(&mut core.cpu_registers, register, value);
    advance_pc(core, 1);
}

/// INC r or INC (HL); DEC r or DEC (HL).
fn step_operand(core: &mut GameBoyCore, opcode: u8, increment: bool)
    requires
        old(core).wf(),
    ensures
        final(core).wf(),
        increment ==> operand_incremented(old(core), final(core), opcode),
        !increment ==> operand_decremented(old(core), final(core), opcode),
{
    let register = reg8_from_opcode_middle(opcode);
    let value = read_reg8(core, register);
    let result = if increment {
        inc8(&mut core.cpu_registers, value)
    } else {
        dec8(&mut core.cpu_registers, value)
    };
    store_and_advance(core, register, result, 1);
}

/// LD r,d8 or LD (HL),d8.
fn load_operand_immediate(core: &mut GameBoyCore, opcode: u8)
    requires
        old(core).wf(),
    ensures
        final(core).wf(),
        operand_loaded_immediate(old(core), final(core), opcode),
{
    let register = reg8_from_opcode_middle(opcode);
    let value = imm8(core);
    store_and_advance(core, register, value, 2);
}

/// ADD HL,rr.
fn add_pair_to_hl(core: &mut GameBoyCore, opcode: u8)
    requires
        old(core).wf(),
    ensures
        final(core).wf(),
        pair_added_to_hl(old(core), final(core), opcode),
{
    proof {
        lemma_opcode_fields(opcode);
    }
    let register = reg16_from_column(opcode >> 4);
    let value = read_reg16(&core.cpu_registers, register);
    add_hl(&mut core.cpu_registers, value);
    advance_pc(core, 1);
}

/// LD A,(BC) or LD A,(DE).
fn load_a_indirect(core: &mut GameBoyCore, opcode: u8)
    requires
        old(core).wf(),
    ensures
        final(core).wf(),
        a_loaded_indirect(old(core), final(core), opcode),
{
    let address = if opcode == 0x0a {
        crate::execution::bc(&core.cpu_registers)
    } else {
        crate::execution::de(&core.cpu_registers)
    };
    core.cpu_registers.a = read8(core, address);
    advance_pc(core, 1);
}

/// LD (HL+),A, LD A,(HL+), LD (HL-),A or LD A,(HL-).
fn transfer_a_through_hl(core: &mut GameBoyCore, opcode: u8)
    requires
        old(core).wf(),
    ensures
        final(core).wf(),
        a_transferred_through_hl(old(core), final(core), opcode),
{
    let address = crate::execution::hl(&core.cpu_registers);
    let ghost start = *core;
    if opcode == 0x22 || opcode == 0x32 {
        let a = core.cpu_registers.a;
        write8(core, address, a);
    } else {
        core.cpu_registers.a = read8(core, address);
    }
    let ghost middle = *core;
    let next_hl = if opcode == 0x22 || opcode == 0x2a {
        address.wrapping_add(1)
    } else {
        address.wrapping_sub(1)
    };
    set_hl(&mut core.cpu_registers, next_hl);
    advance_pc(core, 1);
    proof {
        if opcode == 0x22 || opcode == 0x32 {
            assert(cpu_written8(&start, &middle, address, start.cpu_registers.a));
        }
    }
}

/// LD r,r' with either side possibly (HL).
fn copy_operand(core: &mut GameBoyCore, opcode: u8)
    requires
        old(core).wf(),
    ensures
        final(core).wf(),
        operand_copied(old(core), final(core), opcode),
{
    proof {
        lemma_opcode_fields(opcode);
    }
    let destination = reg8_from_opcode_middle(opcode);
    let source = reg8_from_index(opcode & 0x07);
    let value = read_reg8(core, source);
    store_and_advance(core, destination, value, 1);
}

/// ADD, ADC, SUB, SBC, AND, XOR, OR or CP of A with an operand.
fn combine_operand(core: &mut GameBoyCore, opcode: u8)
    requires
        old(core).wf(),
        0x80 <= opcode < 0xc0,
    ensures
        final(core).wf(),
        operand_combined(old(core), final(core), opcode),
{
    proof {
        lemma_opcode_fields(opcode);
    }
    let source = reg8_from_index(opcode & 0x07);
    let value = read_reg8(core, source);
    let kind = (opcode - 0x80) / 8;
    if kind == 0 {
        add_a(&mut core.cpu_registers, value, false);
    } else if kind == 1 {
        let carry_in = carry(&core.cpu_registers);
        add_a(&mut core.cpu_registers, value, carry_in);
    } else if kind == 2 {
        sub_a(&mut core.cpu_registers, value, false);
    } else if kind == 3 {
        let carry_in = carry(&core.cpu_registers);
        sub_a(&mut core.cpu_registers, value, carry_in);
    } else if kind == 4 {
        and_a(&mut core.cpu_registers, value);
    } else if kind == 5 {
        xor_a(&mut core.cpu_registers, value);
    } else if kind == 6 {
        or_a(&mut core.cpu_registers, value);
    } else {
        cp_a(&mut core.cpu_registers, value);
    }
    advance_pc(core, 1);
}

/// The cycles of an instruction whose operand may be (HL): `memory` when it is, else
/// `register`.
fn operand_cycles(opcode: u8, shift: u8, memory: i32, register: i32) -> (cycles: i32)
    requires
        shift == 0 || shift == 3,
    ensures
        cycles == if names_memory(opcode, shift as int) { memory } else { register },
{
    proof {
        lemma_opcode_fields(opcode);
    }
    let field = if shift == 0 {
        reg8_from_index(opcode & 0x07)
    } else {
        reg8_from_opcode_middle(opcode)
    };
    if field == Reg8::Hl {
        memory
    } else {
        register
    }
}

/// Executes an instruction of the regular families, returning its cycles, or `None` (and no
/// change) for any other opcode.
pub fn execute_regular_family(core: &mut GameBoyCore, opcode: u8) -> (cycles: Option<i32>)
    requires
        old(core).wf(),
    ensures
        final(core).wf(),
        match cycles {
            Some(c) => regular_opcode(opcode) && regular_performed(old(core), final(core), opcode, c),
            None => !regular_opcode(opcode) && *final(core) == *old(core),
        },
{
    if opcode == 0x01 || opcode == 0x11 || opcode == 0x21 || opcode == 0x31 {
        load_pair_immediate(core, opcode);
        return Some(12);
    }
    if opcode == 0x02 || opcode == 0x12 {
        store_a_indirect(core, opcode);
        return Some(8);
    }
    if opcode == 0x03 || opcode == 0x13 || opcode == 0x23 || opcode == 0x33 {
        step_pair(core, opcode, true);
        return Some(8);
    }
    if opcode == 0x04 || opcode == 0x0c || opcode == 0x14 || opcode == 0x1c || opcode == 0x24 || opcode == 0x2c
        || opcode == 0x34 || opcode == 0x3c {
        step_operand(core, opcode, true);
        return Some(operand_cycles(opcode, 3, 12, 4));
    }
    if opcode == 0x05 || opcode == 0x0d || opcode == 0x15 || opcode == 0x1d || opcode == 0x25 || opcode == 0x2d
        || opcode == 0x35 || opcode == 0x3d {
        step_operand(core, opcode, false);
        return Some(operand_cycles(opcode, 3, 12, 4));
    }
    if opcode == 0x06 || opcode == 0x0e || opcode == 0x16 || opcode == 0x1e || opcode == 0x26 || opcode == 0x2e
        || opcode == 0x36 || opcode == 0x3e {
        load_operand_immediate(core, opcode);
        return Some(operand_cycles(opcode, 3, 12, 8));
    }
    if opcode == 0x09 || opcode == 0x19 || opcode == 0x29 || opcode == 0x39 {
        add_pair_to_hl(core, opcode);
        return Some(8);
    }
    if opcode == 0x0a || opcode == 0x1a {
        load_a_indirect(core, opcode);
        return Some(8);
    }
    if opcode == 0x0b || opcode == 0x1b || opcode == 0x2b || opcode == 0x3b {
        step_pair(core, opcode, false);
        return Some(8);
    }
    if opcode == 0x22 || opcode == 0x2a || opcode == 0x32 || opcode == 0x3a {
        transfer_a_through_hl(core, opcode);
        return Some(8);
    }
    if 0x40 <= opcode && opcode <= 0x7f && opcode != 0x76 {
        copy_operand(core, opcode);
        let cycles = if operand_cycles(opcode, 3, 1, 0) == 1 || operand_cycles(opcode, 0, 1, 0) == 1 {
            8
        } else {
            4
        };
        return Some(cycles);
    }
    if 0x80 <= opcode && opcode <= 0xbf {
        combine_operand(core, opcode);
        return Some(operand_cycles(opcode, 0, 8, 4));
    }
    None
}

/// The result of the rotate, shift or swap `kind`, in opcode order: RLC, RRC, RL, RR, SLA, SRA,
/// SWAP, SRL; the carry goes in where RL and RR take it.
pub open spec fn shift_result(kind: int, value: u8, carry_in: bool) -> u8 {
    let c: int = if carry_in { 1 } else { 0 };
    (if kind == 0 {
        (value * 2) % 256 + value / 128
    } else if kind == 1 {
        value / 2 + (value % 2) * 128
    } else if kind == 2 {
        (value * 2) % 256 + c
    } else if kind == 3 {
        value / 2 + c * 128
    } else if kind == 4 {
        (value * 2) % 256 + 0
    } else if kind == 5 {
        value / 2 + (if value >= 128 { 128int } else { 0 })
    } else if kind == 6 {
        (value % 16) * 16 + value / 16
    } else {
        value / 2 + 0
    }) as u8
}

/// The bit that the rotate, shift or swap `kind` moves into the carry: bit 7 for the left
/// moves, bit 0 for the right ones, none for SWAP.
pub open spec fn shift_carry_out(kind: int, value: u8) -> bool {
    if kind == 6 {
        false
    } else if kind % 2 == 0 {
        value >= 128
    } else {
        value % 2 == 1
    }
}

/// What a CB-prefixed instruction does, and its cycles: the second byte picks the operation
/// (bits 3 to 7) and the operand (bits 0 to 2).
pub open spec fn prefixed_performed(before: &GameBoyCore, after: &GameBoyCore, cycles: i32) -> bool {
    let r = before.cpu_registers;
    let opcode = immediate8(before);
    let register = spec_reg8_from_index(opcode % 8);
    let value = reg8_value(before, register);
    let memory = opcode % 8 == 6;
    if opcode < 0x40 {
        let kind = opcode / 8;
        let result = shift_result(kind as int, value, carry_set(r));
        let flagged = with_flags(r, flags(result == 0, false, false, shift_carry_out(kind as int, value)));
        &&& stored_then_advanced(&with_registers(before, flagged), after, register, result, 2)
        &&& cycles == if memory { 16i32 } else { 8i32 }
    } else if opcode < 0x80 {
        let bit = ((opcode - 0x40) / 8) as u8;
        &&& *after == with_registers(
            before,
            advanced(with_flags(r, flags(bit_clear(value, bit), false, true, carry_set(r))), 2),
        )
        &&& cycles == if memory { 12i32 } else { 8i32 }
    } else if opcode < 0xc0 {
        let bit = ((opcode - 0x80) / 8) as u8;
        &&& stored_then_advanced(before, after, register, value & !(1u8 << bit), 2)
        &&& cycles == if memory { 16i32 } else { 8i32 }
    } else {
        let bit = ((opcode - 0xc0) / 8) as u8;
        &&& stored_then_advanced(before, after, register, value | (1u8 << bit), 2)
        &&& cycles == if memory { 16i32 } else { 8i32 }
    }
}

/// Runs the rotate, shift or swap `kind` on `value`, setting the flags; Z follows the result
/// when `set_zero`, which only the rotations may leave out.
fn shift_operation(registers: &mut CpuRegisters, kind: u8, value: u8, set_zero: bool) -> (result: u8)
    requires
        kind < 8,
        set_zero || kind < 4,
    ensures
        result == shift_result(kind as int, value, carry_set(*old(registers))),
        *final(registers) == with_flags(
            *old(registers),
            flags(set_zero && result == 0, false, false, shift_carry_out(kind as int, value)),
        ),
{
    if kind == 0 {
        rotate_left_circular(registers, value, set_zero)
    } else if kind == 1 {
        rotate_right_circular(registers, value, set_zero)
    } else if kind == 2 {
        rotate_left_through_carry(registers, value, set_zero)
    } else if kind == 3 {
        rotate_right_through_carry(registers, value, set_zero)
    } else if kind == 4 {
        let result = shift_left_arithmetic(registers, value);
        result
    } else if kind == 5 {
        shift_right_arithmetic(registers, value)
    } else if kind == 6 {
        swap_nibbles(registers, value)
    } else {
        shift_right_logical(registers, value)
    }
}

/// Executes the CB-prefixed instruction whose second byte follows the prefix.
pub fn execute_cb(core: &mut GameBoyCore) -> (cycles: i32)
    requires
        old(core).wf(),
    ensures
        final(core).wf(),
        prefixed_performed(old(core), final(core), cycles),
{
    let opcode = imm8(core);
    proof {
        lemma_opcode_fields(opcode);
    }
    let register = reg8_from_index(opcode & 0x07);
    let value = read_reg8(core, register);
    let memory = register == Reg8::Hl;
    if opcode < 0x40 {
        let result = shift_operation(&mut core.cpu_registers, opcode / 8, value, true);
        store_and_advance(core, register, result, 2);
    } else if opcode < 0x80 {
        test_bit(&mut core.cpu_registers, value, (opcode - 0x40) / 8);
        advance_pc(core, 2);
        return if memory {
            12
        } else {
            8
        };
    } else if opcode < 0xc0 {
        let result = value & !(1u8 << ((opcode - 0x80) / 8));
        store_and_advance(core, register, result, 2);
    } else {
        let result = value | (1u8 << ((opcode - 0xc0) / 8));
        store_and_advance(core, register, result, 2);
    }
    if memory {
        16
    } else {
        8
    }
}

/// Whether a jump, call or return condition holds for the flags.
pub open spec fn condition_holds(registers: CpuRegisters, condition: Condition) -> bool {
    match condition {
        Condition::Nz => registers.f & FLAG_Z == 0,
        Condition::Z => registers.f & FLAG_Z != 0,
        Condition::Nc => registers.f & FLAG_C == 0,
        Condition::C => registers.f & FLAG_C != 0,
    }
}

/// The target of a relative jump: the address after the two-byte instruction plus the signed
/// offset, wrapping.
pub open spec fn relative_target(registers: CpuRegisters, offset: u8) -> u32 {
    ((next_pc(registers, 2) + signed_byte(offset) + 65536) % 65536) as u32
}

/// The core with only the register file moved on.
pub open spec fn registers_became(before: &GameBoyCore, after: &GameBoyCore, registers: CpuRegisters) -> bool {
    *after == with_registers(before, registers)
}

/// JR e8.
pub open spec fn relatively_jumped(before: &GameBoyCore, after: &GameBoyCore) -> bool {
    let r = before.cpu_registers;
    registers_became(before, after, CpuRegisters { pc: relative_target(r, immediate8(before)), ..r })
}

/// JR cc,e8: the jump when the condition holds (12 cycles), else on to the next instruction
/// (8 cycles).
pub open spec fn conditionally_relatively_jumped(
    before: &GameBoyCore,
    after: &GameBoyCore,
    condition: Condition,
    cycles: i32,
) -> bool {
    if condition_holds(before.cpu_registers, condition) {
        relatively_jumped(before, after) && cycles == 12
    } else {
        registers_became(before, after, advanced(before.cpu_registers, 2)) && cycles == 8
    }
}

/// A jump to `target`.
pub open spec fn jumped(before: &GameBoyCore, after: &GameBoyCore, target: u16) -> bool {
    registers_became(before, after, CpuRegisters { pc: target as u32, ..before.cpu_registers })
}

/// JP cc,a16: the jump when the condition holds (16 cycles), else on past the three-byte
/// instruction (12 cycles).
pub open spec fn conditionally_jumped(
    before: &GameBoyCore,
    after: &GameBoyCore,
    condition: Condition,
    cycles: i32,
) -> bool {
    if condition_holds(before.cpu_registers, condition) {
        jumped(before, after, immediate16(before)) && cycles == 16
    } else {
        registers_became(before, after, advanced(before.cpu_registers, 3)) && cycles == 12
    }
}

/// A call of `target` that returns to `return_address`: the return address is pushed, then the
/// program counter takes the target.
pub open spec fn called(before: &GameBoyCore, after: &GameBoyCore, target: u16, return_address: u16) -> bool {
    exists|middle: GameBoyCore|
        pushed(before, &middle, return_address) && *after == with_registers(
            &middle,
            CpuRegisters { pc: target as u32, ..middle.cpu_registers },
        )
}

/// CALL a16.
pub open spec fn call_performed(before: &GameBoyCore, after: &GameBoyCore) -> bool {
    called(before, after, immediate16(before), next_pc(before.cpu_registers, 3) as u16)
}

/// CALL cc,a16: the call when the condition holds (24 cycles), else on past the instruction
/// (12 cycles).
pub open spec fn conditionally_called(
    before: &GameBoyCore,
    after: &GameBoyCore,
    condition: Condition,
    cycles: i32,
) -> bool {
    if condition_holds(before.cpu_registers, condition) {
        call_performed(before, after) && cycles == 24
    } else {
        registers_became(before, after, advanced(before.cpu_registers, 3)) && cycles == 12
    }
}

/// RET: the program counter takes the value popped from the stack.
pub open spec fn returned(before: &GameBoyCore, after: &GameBoyCore) -> bool {
    registers_became(
        before,
        after,
        CpuRegisters { pc: stack_top(before) as u32, ..popped(before.cpu_registers) },
    )
}

/// RETI: a return that also enables interrupts at once.
pub open spec fn returned_enabling_interrupts(before: &GameBoyCore, after: &GameBoyCore) -> bool {
    registers_became(
        before,
        after,
        CpuRegisters {
            pc: stack_top(before) as u32,
            ime: true,
            ime_enable_delay: 0,
            ..popped(before.cpu_registers)
        },
    )
}

/// RET cc: the return when the condition holds (20 cycles), else on past the instruction
/// (8 cycles).
pub open spec fn conditionally_returned(
    before: &GameBoyCore,
    after: &GameBoyCore,
    condition: Condition,
    cycles: i32,
) -> bool {
    if condition_holds(before.cpu_registers, condition) {
        returned(before, after) && cycles == 20
    } else {
        registers_became(before, after, advanced(before.cpu_registers, 1)) && cycles == 8
    }
}

/// PUSH of `value`, then on past the instruction.
pub open spec fn pushed_then_advanced(before: &GameBoyCore, after: &GameBoyCore, value: u16) -> bool {
    exists|middle: GameBoyCore|
        pushed(before, &middle, value) && *after == with_registers(&middle, advanced(middle.cpu_registers, 1))
}

/// POP rr.
pub open spec fn pair_popped(before: &GameBoyCore, after: &GameBoyCore, register: Reg16) -> bool {
    registers_became(
        before,
        after,
        advanced(with_reg16(popped(before.cpu_registers), register, stack_top(before)), 1),
    )
}

/// POP AF: the low nibble of F reads as zero.
pub open spec fn af_popped(before: &GameBoyCore, after: &GameBoyCore) -> bool {
    let value = stack_top(before);
    registers_became(
        before,
        after,
        advanced(
            CpuRegisters { a: (value / 256) as u8, f: ((value % 256) as u8) & 0xf0, ..popped(before.cpu_registers) },
            1,
        ),
    )
}

/// Whether HALT runs into the HALT bug: interrupts disabled, not about to be enabled, and one
/// pending.
pub open spec fn halt_bug_triggered(core: &GameBoyCore) -> bool {
    !core.cpu_registers.ime && core.cpu_registers.ime_enable_delay != 1 && spec_interrupt_pending(core)
}

/// HALT: the HALT bug leaves the CPU running with the next opcode byte to be read twice;
/// otherwise the CPU halts.
pub open spec fn halt_performed(before: &GameBoyCore, after: &GameBoyCore) -> bool {
    let next = advanced(before.cpu_registers, 1);
    if halt_bug_triggered(before) {
        registers_became(before, after, CpuRegisters { halt_bug: true, ..next })
    } else {
        *after == GameBoyCore { cpu_mode: CpuMode::Halted, ..with_registers(before, next) }
    }
}

/// The flags after SP is offset by a signed byte: H and C from the unsigned low nibble and
/// byte, Z and N clear.
pub open spec fn sp_offset_flags(registers: CpuRegisters, offset: u8) -> CpuRegisters {
    let sp = registers.sp;
    with_flags(registers, flags(false, false, sp % 16 + offset % 16 > 15, sp % 256 + offset > 255))
}

/// SP plus a signed offset byte, wrapping.
pub open spec fn sp_offset_sum(registers: CpuRegisters, offset: u8) -> u16 {
    ((registers.sp % 65536 + signed_byte(offset) + 65536) % 65536) as u16
}

/// An undefined opcode: the emulator stops running, and the instruction takes the clocks that
/// remain in this slice (at least 4).
pub open spec fn invalid_performed(before: &GameBoyCore, after: &GameBoyCore, cycles: i32) -> bool {
    &&& *after == GameBoyCore { runtime: RuntimeControl { is_running: false, ..before.runtime }, ..*before }
    &&& cycles == if before.cpu_timing.clocks_acc > 4 { before.cpu_timing.clocks_acc } else { 4 }
}

/// The condition that bits 3 and 4 of a conditional jump, call or return name.
pub open spec fn condition_of(opcode: u8) -> Condition {
    let index = (opcode / 8) % 4;
    if index == 0 {
        Condition::Nz
    } else if index == 1 {
        Condition::Z
    } else if index == 2 {
        Condition::Nc
    } else {
        Condition::C
    }
}

/// The condition that bits 3 and 4 of a conditional jump, call or return name.
fn condition_from_opcode(opcode: u8) -> (condition: Condition)
    ensures
        condition == condition_of(opcode),
{
    let index = (opcode / 8) % 4;
    if index == 0 {
        Condition::Nz
    } else if index == 1 {
        Condition::Z
    } else if index == 2 {
        Condition::Nc
    } else {
        Condition::C
    }
}

/// JR e8.
fn relative_jump(core: &mut GameBoyCore)
    requires
        old(core).wf(),
    ensures
        final(core).wf(),
        relatively_jumped(old(core), final(core)),
{
    let offset = imm8(core);
    let base = crate::execution::pc_after_instruction(&core.cpu_registers, 2);
    let target = if offset >= 128 {
        base.wrapping_add(offset as u16).wrapping_sub(256)
    } else {
        base.wrapping_add(offset as u16)
    };
    core.cpu_registers.pc = target as u32;
}

/// JR cc,e8.
fn conditional_relative_jump(core: &mut GameBoyCore, condition: Condition) -> (cycles: i32)
    requires
        old(core).wf(),
    ensures
        final(core).wf(),
        conditionally_relatively_jumped(old(core), final(core), condition, cycles),
{
    if condition_met(&core.cpu_registers, condition) {
        relative_jump(core);
        12
    } else {
        advance_pc(core, 2);
        8
    }
}

/// JP cc,a16.
fn conditional_absolute_jump(core: &mut GameBoyCore, condition: Condition) -> (cycles: i32)
    requires
        old(core).wf(),
    ensures
        final(core).wf(),
        conditionally_jumped(old(core), final(core), condition, cycles),
{
    if condition_met(&core.cpu_registers, condition) {
        core.cpu_registers.pc = imm16(core) as u32;
        16
    } else {
        advance_pc(core, 3);
        12
    }
}

/// Pushes the return address and jumps to `target`.
fn call_to(core: &mut GameBoyCore, target: u16, return_address: u16)
    requires
        old(core).wf(),
    ensures
        final(core).wf(),
        called(old(core), final(core), target, return_address),
{
    push(core, return_address);
    let ghost middle = *core;
    core.cpu_registers.pc = target as u32;
    assert(pushed(old(core), &middle, return_address));
}

/// CALL a16.
fn call(core: &mut GameBoyCore) -> (cycles: i32)
    requires
        old(core).wf(),
    ensures
        final(core).wf(),
        call_performed(old(core), final(core)),
        cycles == 24,
{
    let target = imm16(core);
    let return_address = crate::execution::pc_after_instruction(&core.cpu_registers, 3);
    call_to(core, target, return_address);
    24
}

/// CALL cc,a16.
fn conditional_call(core: &mut GameBoyCore, condition: Condition) -> (cycles: i32)
    requires
        old(core).wf(),
    ensures
        final(core).wf(),
        conditionally_called(old(core), final(core), condition, cycles),
{
    if condition_met(&core.cpu_registers, condition) {
        call(core)
    } else {
        advance_pc(core, 3);
        12
    }
}

/// RET, or RETI when `enable_interrupts`.
fn return_from_call(core: &mut GameBoyCore, enable_interrupts: bool) -> (cycles: i32)
    requires
        old(core).wf(),
    ensures
        final(core).wf(),
        cycles == 16,
        enable_interrupts ==> returned_enabling_interrupts(old(core), final(core)),
        !enable_interrupts ==> returned(old(core), final(core)),
{
    core.cpu_registers.pc = pop(core) as u32;
    if enable_interrupts {
        core.cpu_registers.ime = true;
        core.cpu_registers.ime_enable_delay = 0;
    }
    16
}

/// RET cc.
fn conditional_return(core: &mut GameBoyCore, condition: Condition) -> (cycles: i32)
    requires
        old(core).wf(),
    ensures
        final(core).wf(),
        conditionally_returned(old(core), final(core), condition, cycles),
{
    if condition_met(&core.cpu_registers, condition) {
        core.cpu_registers.pc = pop(core) as u32;
        20
    } else {
        advance_pc(core, 1);
        8
    }
}

/// RST: calls the fixed `address`, returning past the one-byte instruction.
fn restart(core: &mut GameBoyCore, address: u16) -> (cycles: i32)
    requires
        old(core).wf(),
    ensures
        final(core).wf(),
        called(old(core), final(core), address, next_pc(old(core).cpu_registers, 1) as u16),
        cycles == 16,
{
    let return_address = crate::execution::pc_after_instruction(&core.cpu_registers, 1);
    call_to(core, address, return_address);
    16
}

/// Pushes `value` and moves past the one-byte instruction.
fn push_and_advance(core: &mut GameBoyCore, value: u16)
    requires
        old(core).wf(),
    ensures
        final(core).wf(),
        pushed_then_advanced(old(core), final(core), value),
{
    push(core, value);
    let ghost middle = *core;
    advance_pc(core, 1);
    assert(pushed(old(core), &middle, value));
}

/// PUSH rr.
fn push_rr(core: &mut GameBoyCore, register: Reg16) -> (cycles: i32)
    requires
        old(core).wf(),
    ensures
        final(core).wf(),
        pushed_then_advanced(old(core), final(core), reg16_value(old(core).cpu_registers, register)),
        cycles == 16,
{
    let value = read_reg16(&core.cpu_registers, register);
    push_and_advance(core, value);
    16
}

/// PUSH AF.
fn push_af(core: &mut GameBoyCore) -> (cycles: i32)
    requires
        old(core).wf(),
    ensures
        final(core).wf(),
        pushed_then_advanced(
            old(core),
            final(core),
            pair(old(core).cpu_registers.a, old(core).cpu_registers.f & 0xf0),
        ),
        cycles == 16,
{
    let value = crate::execution::af(&core.cpu_registers);
    push_and_advance(core, value);
    16
}

/// POP rr.
fn pop_rr(core: &mut GameBoyCore, register: Reg16) -> (cycles: i32)
    requires
        old(core).wf(),
    ensures
        final(core).wf(),
        pair_popped(old(core), final(core), register),
        cycles == 12,
{
    let value = pop(core);
    write_reg16(&mut core.cpu_registers, register, value);
    advance_pc(core, 1);
    12
}

/// POP AF.
fn pop_af(core: &mut GameBoyCore) -> (cycles: i32)
    requires
        old(core).wf(),
    ensures
        final(core).wf(),
        af_popped(old(core), final(core)),
        cycles == 12,
{
    let value = pop(core);
    set_af(&mut core.cpu_registers, value);
    advance_pc(core, 1);
    12
}

/// An undefined opcode: stops the emulator.
pub fn invalid_instruction(core: &mut GameBoyCore) -> (cycles: i32)
    ensures
        invalid_performed(old(core), final(core), cycles),
{
    core.runtime.is_running = false;
    let clocks = core.cpu_timing.clocks_acc;
    if clocks > 4 {
        clocks
    } else {
        4
    }
}

/// HALT.
fn halt(core: &mut GameBoyCore) -> (cycles: i32)
    requires
        old(core).wf(),
    ensures
        final(core).wf(),
        halt_performed(old(core), final(core)),
        cycles == 4,
{
    let halt_bug = !core.cpu_registers.ime && core.cpu_registers.ime_enable_delay != 1 && interrupt_pending(core);
    if halt_bug {
        advance_pc(core, 1);
        core.cpu_registers.halt_bug = true;
    } else {
        core.cpu_mode = CpuMode::Halted;
        advance_pc(core, 1);
    }
    4
}

/// LD (a16),SP: SP is written at the operand address, low byte first.
pub open spec fn sp_stored(before: &GameBoyCore, after: &GameBoyCore) -> bool {
    exists|middle: GameBoyCore|
        cpu_written16(before, &middle, immediate16(before), reg16_value(before.cpu_registers, Reg16::Sp)) && *after
            == with_registers(&middle, advanced(middle.cpu_registers, 3))
}

/// A loads the byte at `address` as the CPU reads it, then on past an instruction of `amount`
/// bytes.
pub open spec fn a_loaded_from(before: &GameBoyCore, after: &GameBoyCore, address: u16, amount: u16) -> bool {
    registers_became(
        before,
        after,
        advanced(CpuRegisters { a: spec_read8(before, address), ..before.cpu_registers }, amount),
    )
}

/// LD (a16),SP.
fn store_sp(core: &mut GameBoyCore) -> (cycles: i32)
    requires
        old(core).wf(),
    ensures
        final(core).wf(),
        sp_stored(old(core), final(core)),
        cycles == 20,
{
    let address = imm16(core);
    let sp = read_reg16(&core.cpu_registers, Reg16::Sp);
    write16(core, address, sp);
    let ghost middle = *core;
    advance_pc(core, 3);
    assert(cpu_written16(old(core), &middle, address, sp));
    20
}

/// Loads A from `address` and moves past an instruction of `amount` bytes.
fn load_a_from(core: &mut GameBoyCore, address: u16, amount: u16)
    requires
        old(core).wf(),
    ensures
        final(core).wf(),
        a_loaded_from(old(core), final(core), address, amount),
{
    core.cpu_registers.a = read8(core, address);
    advance_pc(core, amount);
}

/// The address `offset` bytes into the I/O page at 0xff00.
fn high_page(offset: u8) -> (address: u16)
    ensures
        address == 0xff00 + offset,
{
    0xff00 + (offset as u16)
}

/// ADD, ADC, SUB, SBC, AND, XOR, OR or CP of A with the byte operand.
fn combine_immediate(core: &mut GameBoyCore, opcode: u8)
    requires
        old(core).wf(),
        opcode >= 0xc6,
    ensures
        final(core).wf(),
        registers_became(
            old(core),
            final(core),
            advanced(alu_result(old(core).cpu_registers, (opcode - 0xc6) / 8, immediate8(old(core))), 2),
        ),
{
    let value = imm8(core);
    let kind = (opcode - 0xc6) / 8;
    if kind == 0 {
        add_a(&mut core.cpu_registers, value, false);
    } else if kind == 1 {
        let carry_in = carry(&core.cpu_registers);
        add_a(&mut core.cpu_registers, value, carry_in);
    } else if kind == 2 {
        sub_a(&mut core.cpu_registers, value, false);
    } else if kind == 3 {
        let carry_in = carry(&core.cpu_registers);
        sub_a(&mut core.cpu_registers, value, carry_in);
    } else if kind == 4 {
        and_a(&mut core.cpu_registers, value);
    } else if kind == 5 {
        xor_a(&mut core.cpu_registers, value);
    } else if kind == 6 {
        or_a(&mut core.cpu_registers, value);
    } else {
        cp_a(&mut core.cpu_registers, value);
    }
    advance_pc(core, 2);
}

/// What an instruction outside the regular and CB-prefixed families does, and its cycles.
pub open spec fn other_performed(before: &GameBoyCore, after: &GameBoyCore, opcode: u8, cycles: i32) -> bool {
    let r = before.cpu_registers;
    let n = immediate8(before);
    if opcode == 0x00 {
        registers_became(before, after, advanced(r, 1)) && cycles == 4
    } else if opcode == 0x07 || opcode == 0x0f || opcode == 0x17 || opcode == 0x1f {
        let kind = (opcode / 8) as int;
        let result = shift_result(kind, r.a, carry_set(r));
        let flagged = with_flags(r, flags(false, false, false, shift_carry_out(kind, r.a)));
        registers_became(before, after, advanced(CpuRegisters { a: result, ..flagged }, 1)) && cycles == 4
    } else if opcode == 0x08 {
        sp_stored(before, after) && cycles == 20
    } else if opcode == 0x10 {
        *after == GameBoyCore { cpu_mode: CpuMode::Stopped, ..with_registers(before, advanced(r, 1)) } && cycles == 4
    } else if opcode == 0x18 {
        relatively_jumped(before, after) && cycles == 12
    } else if opcode == 0x20 || opcode == 0x28 || opcode == 0x30 || opcode == 0x38 {
        conditionally_relatively_jumped(before, after, condition_of(opcode), cycles)
    } else if opcode == 0x27 {
        registers_became(before, after, advanced(spec_daa(r), 1)) && cycles == 4
    } else if opcode == 0x2f {
        let complemented = CpuRegisters { a: !r.a, f: (r.f & (FLAG_Z | FLAG_C)) | FLAG_N | FLAG_H, ..r };
        registers_became(before, after, advanced(complemented, 1)) && cycles == 4
    } else if opcode == 0x37 {
        registers_became(before, after, advanced(with_flags(r, (r.f & FLAG_Z) | FLAG_C), 1)) && cycles == 4
    } else if opcode == 0x3f {
        let f = (r.f & FLAG_Z) | (if carry_set(r) { 0u8 } else { FLAG_C });
        registers_became(before, after, advanced(with_flags(r, f), 1)) && cycles == 4
    } else if opcode == 0x76 {
        halt_performed(before, after) && cycles == 4
    } else if opcode == 0xc0 || opcode == 0xc8 || opcode == 0xd0 || opcode == 0xd8 {
        conditionally_returned(before, after, condition_of(opcode), cycles)
    } else if opcode == 0xc1 || opcode == 0xd1 || opcode == 0xe1 {
        pair_popped(before, after, column16((opcode - 0xc1) / 16)) && cycles == 12
    } else if opcode == 0xf1 {
        af_popped(before, after) && cycles == 12
    } else if opcode == 0xc2 || opcode == 0xca || opcode == 0xd2 || opcode == 0xda {
        conditionally_jumped(before, after, condition_of(opcode), cycles)
    } else if opcode == 0xc3 {
        jumped(before, after, immediate16(before)) && cycles == 16
    } else if opcode == 0xc4 || opcode == 0xcc || opcode == 0xd4 || opcode == 0xdc {
        conditionally_called(before, after, condition_of(opcode), cycles)
    } else if opcode == 0xc5 || opcode == 0xd5 || opcode == 0xe5 {
        pushed_then_advanced(before, after, reg16_value(r, column16((opcode - 0xc5) / 16))) && cycles == 16
    } else if opcode == 0xf5 {
        pushed_then_advanced(before, after, pair(r.a, r.f & 0xf0)) && cycles == 16
    } else if opcode >= 0xc0 && opcode % 8 == 6 {
        registers_became(before, after, advanced(alu_result(r, (opcode - 0xc6) / 8, n), 2)) && cycles == 8
    } else if opcode >= 0xc0 && opcode % 8 == 7 {
        called(before, after, (opcode - 0xc7) as u16, next_pc(r, 1) as u16) && cycles == 16
    } else if opcode == 0xc9 {
        returned(before, after) && cycles == 16
    } else if opcode == 0xd9 {
        returned_enabling_interrupts(before, after) && cycles == 16
    } else if opcode == 0xcd {
        call_performed(before, after) && cycles == 24
    } else if opcode == 0xe0 {
        written_then_advanced(before, after, (0xff00 + n) as u16, r.a, 2) && cycles == 12
    } else if opcode == 0xe2 {
        written_then_advanced(before, after, (0xff00 + r.c) as u16, r.a, 1) && cycles == 8
    } else if opcode == 0xe8 {
        let moved = CpuRegisters { sp: sp_offset_sum(r, n) as u32, ..sp_offset_flags(r, n) };
        registers_became(before, after, advanced(moved, 2)) && cycles == 16
    } else if opcode == 0xe9 {
        jumped(before, after, pair(r.h, r.l)) && cycles == 4
    } else if opcode == 0xea {
        written_then_advanced(before, after, immediate16(before), r.a, 3) && cycles == 16
    } else if opcode == 0xf0 {
        a_loaded_from(before, after, (0xff00 + n) as u16, 2) && cycles == 12
    } else if opcode == 0xf2 {
        a_loaded_from(before, after, (0xff00 + r.c) as u16, 1) && cycles == 8
    } else if opcode == 0xf3 {
        registers_became(before, after, advanced(CpuRegisters { ime: false, ime_enable_delay: 0, ..r }, 1))
            && cycles == 4
    } else if opcode == 0xf8 {
        let moved = with_reg16(sp_offset_flags(r, n), Reg16::Hl, sp_offset_sum(r, n));
        registers_became(before, after, advanced(moved, 2)) && cycles == 12
    } else if opcode == 0xf9 {
        registers_became(before, after, advanced(CpuRegisters { sp: pair(r.h, r.l) as u32, ..r }, 1)) && cycles == 8
    } else if opcode == 0xfa {
        a_loaded_from(before, after, immediate16(before), 3) && cycles == 16
    } else if opcode == 0xfb {
        registers_became(before, after, advanced(CpuRegisters { ime_enable_delay: 2, ..r }, 1)) && cycles == 4
    } else {
        invalid_performed(before, after, cycles)
    }
}

/// What one step of the CPU does, and its cycles: a halted CPU waits 4 cycles; otherwise the
/// instruction under the program counter runs.
pub open spec fn instruction_performed(before: &GameBoyCore, after: &GameBoyCore, cycles: i32) -> bool {
    if before.cpu_mode == CpuMode::Halted {
        *after == *before && cycles == 4
    } else {
        let opcode = opcode_at_pc(before);
        if regular_opcode(opcode) {
            regular_performed(before, after, opcode, cycles)
        } else if opcode == 0xcb {
            prefixed_performed(before, after, cycles)
        } else {
            other_performed(before, after, opcode, cycles)
        }
    }
}

/// Runs one step of the CPU and returns its cycles.
#[verifier::spinoff_prover]
#[verifier::rlimit(100)]
pub fn perform_op_inner(core: &mut GameBoyCore) -> (cycles: i32)
    requires
        old(core).wf(),
    ensures
        final(core).wf(),
        instruction_performed(old(core), final(core), cycles),
{
    if core.cpu_mode == CpuMode::Halted {
        return 4;
    }
    let pc = crate::execution::pc(&core.cpu_registers);
    let opcode = read8(core, pc);
    if let Some(cycles) = execute_regular_family(core, opcode) {
        return cycles;
    }
    match opcode {
        0x00 => {
            advance_pc(core, 1);
            4
        },
        0x07 | 0x0f | 0x17 | 0x1f => {
            let a = core.cpu_registers.a;
            let result = shift_operation(&mut core.cpu_registers, opcode / 8, a, false);
            core.cpu_registers.a = result;
            advance_pc(core, 1);
            4
        },
        0x08 => store_sp(core),
        0x10 => {
            core.cpu_mode = CpuMode::Stopped;
            advance_pc(core, 1);
            4
        },
        0x18 => {
            relative_jump(core);
            12
        },
        0x20 | 0x28 | 0x30 | 0x38 => conditional_relative_jump(core, condition_from_opcode(opcode)),
        0x27 => {
            daa(&mut core.cpu_registers);
            advance_pc(core, 1);
            4
        },
        0x2f => {
            complement_a(&mut core.cpu_registers);
            advance_pc(core, 1);
            4
        },
        0x37 => {
            set_carry_flag(&mut core.cpu_registers);
            advance_pc(core, 1);
            4
        },
        0x3f => {
            complement_carry_flag(&mut core.cpu_registers);
            advance_pc(core, 1);
            4
        },
        0x76 => halt(core),
        0xc0 | 0xc8 | 0xd0 | 0xd8 => conditional_return(core, condition_from_opcode(opcode)),
        0xc1 => pop_rr(core, Reg16::Bc),
        0xd1 => pop_rr(core, Reg16::De),
        0xe1 => pop_rr(core, Reg16::Hl),
        0xf1 => pop_af(core),
        0xc2 | 0xca | 0xd2 | 0xda => conditional_absolute_jump(core, condition_from_opcode(opcode)),
        0xc3 => {
            core.cpu_registers.pc = imm16(core) as u32;
            16
        },
        0xc4 | 0xcc | 0xd4 | 0xdc => conditional_call(core, condition_from_opcode(opcode)),
        0xc5 => push_rr(core, Reg16::Bc),
        0xd5 => push_rr(core, Reg16::De),
        0xe5 => push_rr(core, Reg16::Hl),
        0xf5 => push_af(core),
        0xc6 | 0xce | 0xd6 | 0xde | 0xe6 | 0xee | 0xf6 | 0xfe => {
            combine_immediate(core, opcode);
            8
        },
        0xc7 | 0xcf | 0xd7 | 0xdf | 0xe7 | 0xef | 0xf7 | 0xff => restart(core, (opcode - 0xc7) as u16),
        0xc9 => return_from_call(core, false),
        0xd9 => return_from_call(core, true),
        0xcb => execute_cb(core),
        0xcd => call(core),
        0xe0 => {
            let address = high_page(imm8(core));
            let a = core.cpu_registers.a;
            write_and_advance(core, address, a, 2);
            12
        },
        0xe2 => {
            let address = high_page(core.cpu_registers.c);
            let a = core.cpu_registers.a;
            write_and_advance(core, address, a, 1);
            8
        },
        0xe8 => {
            let offset = imm8(core);
            let result = sp_plus_offset(&mut core.cpu_registers, offset);
            core.cpu_registers.sp = result as u32;
            advance_pc(core, 2);
            16
        },
        0xe9 => {
            core.cpu_registers.pc = crate::execution::hl(&core.cpu_registers) as u32;
            4
        },
        0xea => {
            let address = imm16(core);
            let a = core.cpu_registers.a;
            write_and_advance(core, address, a, 3);
            16
        },
        0xf0 => {
            let address = high_page(imm8(core));
            load_a_from(core, address, 2);
            12
        },
        0xf2 => {
            let address = high_page(core.cpu_registers.c);
            load_a_from(core, address, 1);
            8
        },
        0xf3 => {
            core.cpu_registers.ime = false;
            core.cpu_registers.ime_enable_delay = 0;
            advance_pc(core, 1);
            4
        },
        0xf8 => {
            let offset = imm8(core);
            let result = sp_plus_offset(&mut core.cpu_registers, offset);
            set_hl(&mut core.cpu_registers, result);
            advance_pc(core, 2);
            12
        },
        0xf9 => {
            core.cpu_registers.sp = crate::execution::hl(&core.cpu_registers) as u32;
            advance_pc(core, 1);
            8
        },
        0xfa => {
            let address = imm16(core);
            load_a_from(core, address, 3);
            16
        },
        0xfb => {
            core.cpu_registers.ime_enable_delay = 2;
            advance_pc(core, 1);
            4
        },
        _ => invalid_instruction(core),
    }
}

/// What `perform_op` does: one step of the CPU; a HALT bug that was pending is used up by it.
pub open spec fn op_performed(before: &GameBoyCore, after: &GameBoyCore, cycles: i32) -> bool {
    exists|middle: GameBoyCore|
        instruction_performed(before, &middle, cycles) && *after == if before.cpu_registers.halt_bug {
            with_registers(&middle, CpuRegisters { halt_bug: false, ..middle.cpu_registers })
        } else {
            middle
        }
}

/// Runs one step of the CPU and returns its cycles; the step after the HALT bug clears it.
pub fn perform_op(core: &mut GameBoyCore) -> (cycles: i32)
    requires
        old(core).wf(),
    ensures
        final(core).wf(),
        op_performed(old(core), final(core), cycles),
{
    let consume_halt_bug = core.cpu_registers.halt_bug;
    let cycles = perform_op_inner(core);
    let ghost middle = *core;
    if consume_halt_bug {
        core.cpu_registers.halt_bug = false;
    }
    assert(instruction_performed(old(core), &middle, cycles));
    cycles
}

/// An instruction leaves the accumulated clocks as they are.
pub proof fn lemma_instruction_keeps_clocks(before: &GameBoyCore, after: &GameBoyCore, cycles: i32)
    requires
        instruction_performed(before, after, cycles),
    ensures
        after.cpu_timing.clocks_acc == before.cpu_timing.clocks_acc,
{
    broadcast use crate::bus::lemma_cpu_write_keeps_cpu, crate::bus::lemma_cpu_write16_keeps_cpu;

}

/// A step of the CPU leaves the accumulated clocks as they are.
pub proof fn lemma_op_keeps_clocks(before: &GameBoyCore, after: &GameBoyCore, cycles: i32)
    requires
        op_performed(before, after, cycles),
    ensures
        after.cpu_timing.clocks_acc == before.cpu_timing.clocks_acc,
{
    let middle = choose|middle: GameBoyCore|
        instruction_performed(before, &middle, cycles) && *after == if before.cpu_registers.halt_bug {
            with_registers(&middle, CpuRegisters { halt_bug: false, ..middle.cpu_registers })
        } else {
            middle
        };
    lemma_instruction_keeps_clocks(before, &middle, cycles);
}

} // verus!
