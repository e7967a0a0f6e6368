use vstd::prelude::*;

use crate::cpu::CpuRegisters;

verus! {

pub const FLAG_Z: u8 = 0x80;
pub const FLAG_N: u8 = 0x40;
pub const FLAG_H: u8 = 0x20;
pub const FLAG_C: u8 = 0x10;

/// An 8-bit operand: a register, or the byte at HL.
#[derive(Clone, Copy, Debug, PartialEq, Eq, Structural)]
pub enum Reg8 {
    B,
    C,
    D,
    E,
    H,
    L,
    Hl,
    A,
}

/// A 16-bit register pair.
#[derive(Clone, Copy, Debug, PartialEq, Eq, Structural)]
pub enum Reg16 {
    Bc,
    De,
    Hl,
    Sp,
}

/// The condition of a conditional jump, call or return.
#[derive(Clone, Copy, Debug, PartialEq, Eq, Structural)]
pub enum Condition {
    Nz,
    Z,
    Nc,
    C,
}

/// The operand that a 3-bit register field names: B, C, D, E, H, L, (HL), A.
pub open spec fn spec_reg8_from_index(index: u8) -> Reg8 {
    if index == 0 {
        Reg8::B
    } else if index == 1 {
        Reg8::C
    } else if index == 2 {
        Reg8::D
    } else if index == 3 {
        Reg8::E
    } else if index == 4 {
        Reg8::H
    } else if index == 5 {
        Reg8::L
    } else if index == 6 {
        Reg8::Hl
    } else {
        Reg8::A
    }
}

/// The operand that a 3-bit register field names: B, C, D, E, H, L, (HL), A; values past 7
/// name A.
pub fn reg8_from_index(index: u8) -> (register: Reg8)
    ensures
        register == spec_reg8_from_index(index),
{
    match index {
        0 => Reg8::B,
        1 => Reg8::C,
        2 => Reg8::D,
        3 => Reg8::E,
        4 => Reg8::H,
        5 => Reg8::L,
        6 => Reg8::Hl,
        _ => Reg8::A,
    }
}

/// The operand named by bits 3 to 5 of an opcode.
pub fn reg8_from_opcode_middle(opcode: u8) -> (register: Reg8)
    ensures
        register == spec_reg8_from_index((opcode / 8) % 8),
{
    proof {
        lemma_byte_arithmetic(opcode);
    }
    reg8_from_index((opcode >> 3) & 0x07)
}

/// The register pair that a 2-bit column field names: BC, DE, HL, SP; values past 3 name SP.
pub fn reg16_from_column(column: u8) -> (register: Reg16)
    ensures
        register == if column == 0 {
            Reg16::Bc
        } else if column == 1 {
            Reg16::De
        } else if column == 2 {
            Reg16::Hl
        } else {
            Reg16::Sp
        },
{
    match column {
        0 => Reg16::Bc,
        1 => Reg16::De,
        2 => Reg16::Hl,
        _ => Reg16::Sp,
    }
}

/// The flag register with Z, N, H and C as given and the low nibble clear.
pub open spec fn flags(z: bool, n: bool, h: bool, c: bool) -> u8 {
    (if z { FLAG_Z } else { 0u8 }) | (if n { FLAG_N } else { 0u8 }) | (if h { FLAG_H } else { 0u8 }) | (if c {
        FLAG_C
    } else {
        0u8
    })
}

/// Whether the carry flag is set.
pub open spec fn carry_set(registers: CpuRegisters) -> bool {
    registers.f & FLAG_C != 0
}

/// The registers with the flag register replaced.
pub open spec fn with_flags(registers: CpuRegisters, f: u8) -> CpuRegisters {
    CpuRegisters { f, ..registers }
}

/// What the masks and right shifts of the byte instructions compute, in arithmetic.
proof fn lemma_byte_arithmetic(value: u8)
    by (bit_vector)
    ensures
        value & 0x0f == value % 16,
        (value >> 3u8) & 0x07 == (value / 8) % 8,
        (value & 0x80 != 0) == (value >= 128),
        (value & 0x01 != 0) == (value % 2 == 1),
        (value >> 1u8) | (value << 7u8) == value / 2 + (value % 2) * 128,
        (value >> 1u8) | 0u8 == value / 2,
        (value >> 1u8) | 0x80u8 == value / 2 + 0x80u8,
        (value >> 1u8) | (value & 0x80) == value / 2 + (if value >= 128 { 128u8 } else { 0u8 }),
        value >> 1u8 == value / 2,
        (value << 4u8) | (value >> 4u8) == (value % 16) * 16 + value / 16,
{
}

/// What the left shifts and rotations of the byte instructions compute, in arithmetic.
proof fn lemma_byte_doubling(value: u8)
    by (bit_vector)
    ensures
        (value << 1u8) | (value >> 7u8) == ((value * 2) % 256) + value / 128,
        (value << 1u8) | 0u8 == (value * 2) % 256,
        (value << 1u8) | 1u8 == (value * 2) % 256 + 1u8,
        value << 1u8 == (value * 2) % 256,
{
}

/// How the flag register is assembled from a kept bit of the old flags and new bits.
proof fn lemma_flag_bits(f: u8, z: bool, h: bool, c: bool)
    by (bit_vector)
    ensures
        (f & 0x10u8) | (if z { 0x80u8 } else { 0u8 }) | (if h { 0x20u8 } else { 0u8 }) == (if z { 0x80u8 } else {
            0u8
        }) | 0u8 | (if h { 0x20u8 } else { 0u8 }) | (if f & 0x10 != 0 { 0x10u8 } else { 0u8 }),
        (f & 0x10u8) | 0x40u8 | (if z { 0x80u8 } else { 0u8 }) | (if h { 0x20u8 } else { 0u8 }) == (if z { 0x80u8 } else {
            0u8
        }) | 0x40u8 | (if h { 0x20u8 } else { 0u8 }) | (if f & 0x10 != 0 { 0x10u8 } else { 0u8 }),
        (f & 0x10u8) | 0x20u8 | (if z { 0x80u8 } else { 0u8 }) == (if z { 0x80u8 } else { 0u8 }) | 0u8 | 0x20u8 | (if f
            & 0x10 != 0 {
            0x10u8
        } else {
            0u8
        }),
        (f & 0x40u8) | (if z { 0x80u8 } else { 0u8 }) | (if c { 0x10u8 } else { 0u8 }) == (if z { 0x80u8 } else {
            0u8
        }) | (if f & 0x40 != 0 { 0x40u8 } else { 0u8 }) | 0u8 | (if c { 0x10u8 } else { 0u8 }),
        0u8 | 0x06u8 == 6u8,
        0u8 | 0x60u8 == 0x60u8,
        (0u8 | 0x06u8) | 0x60u8 == 0x66u8,
{
}

/// Testing a bit by mask is testing the parity of the shifted value.
proof fn lemma_bit_mask(value: u8, bit: u8)
    by (bit_vector)
    requires
        bit < 8,
    ensures
        (value & (1u8 << bit) == 0) == ((value >> bit) & 1 == 0),
        (value >> bit) & 1 == (value >> bit) % 2,
{
}

/// Whether the carry flag is set.
pub fn carry(registers: &CpuRegisters) -> (set: bool)
    ensures
        set == carry_set(*registers),
{
    registers.f & FLAG_C != 0
}

/// Sets the flag register to Z, N, H and C as given, the low nibble clear.
pub fn set_znhc(registers: &mut CpuRegisters, z: bool, n: bool, h: bool, c: bool)
    ensures
        *final(registers) == with_flags(*old(registers), flags(z, n, h, c)),
{
    let f: u8 = (if z {
        FLAG_Z
    } else {
        0
    }) | (if n {
        FLAG_N
    } else {
        0
    }) | (if h {
        FLAG_H
    } else {
        0
    }) | (if c {
        FLAG_C
    } else {
        0
    });
    registers.f = f;
}

/// The registers with A and F replaced.
pub open spec fn with_a_and_flags(registers: CpuRegisters, a: u8, f: u8) -> CpuRegisters {
    CpuRegisters { a, f, ..registers }
}

/// Increments an 8-bit operand: Z and H follow the result, N clears, C is kept.
pub fn inc8(registers: &mut CpuRegisters, value: u8) -> (result: u8)
    ensures
        result == (value + 1) % 256,
        *final(registers) == with_flags(*old(registers), flags(result == 0, false, value % 16 == 15, carry_set(*old(registers)))),
{
    let result = value.wrapping_add(1);
    let carry = registers.f & FLAG_C;
    let f = registers.f;
    registers.f = carry | (if result == 0 {
        FLAG_Z
    } else {
        0
    }) | (if value & 0x0f == 0x0f {
        FLAG_H
    } else {
        0
    });
    assert(registers.f == flags(result == 0, false, value % 16 == 15, f & 0x10 != 0)) by {
        lemma_byte_arithmetic(value);
        lemma_flag_bits(f, result == 0, value & 0x0f == 0x0f, false);
    }
    result
}

/// Decrements an 8-bit operand: Z and H follow the result, N sets, C is kept.
pub fn dec8(registers: &mut CpuRegisters, value: u8) -> (result: u8)
    ensures
        result == (value + 255) % 256,
        *final(registers) == with_flags(*old(registers), flags(result == 0, true, value % 16 == 0, carry_set(*old(registers)))),
{
    let result = value.wrapping_sub(1);
    let carry = registers.f & FLAG_C;
    let f = registers.f;
    registers.f = carry | FLAG_N | (if result == 0 {
        FLAG_Z
    } else {
        0
    }) | (if value & 0x0f == 0 {
        FLAG_H
    } else {
        0
    });
    assert(registers.f == flags(result == 0, true, value % 16 == 0, f & 0x10 != 0)) by {
        lemma_byte_arithmetic(value);
        lemma_flag_bits(f, result == 0, value & 0x0f == 0, false);
    }
    result
}

/// The registers after A plus `value` plus the carry-in goes into A: Z follows the result, N
/// clears, H and C report carries out of bits 3 and 7.
pub open spec fn spec_add_a(registers: CpuRegisters, value: u8, carry_in: bool) -> CpuRegisters {
    let c: int = if carry_in { 1 } else { 0 };
    let sum = registers.a + value + c;
    with_a_and_flags(
        registers,
        (sum % 256) as u8,
        flags(sum % 256 == 0, false, registers.a % 16 + value % 16 + c > 15, sum > 255),
    )
}

/// A plus `value` plus the carry-in, into A: Z follows the result, N clears, H and C report
/// carries out of bits 3 and 7.
pub fn add_a(registers: &mut CpuRegisters, value: u8, carry_in: bool)
    ensures
        *final(registers) == spec_add_a(*old(registers), value, carry_in),
{
    let carry_value: u8 = if carry_in {
        1
    } else {
        0
    };
    let lhs = registers.a;
    let result = lhs.wrapping_add(value).wrapping_add(carry_value);
    assert(lhs & 0x0f == lhs % 16 && value & 0x0f == value % 16) by {
        lemma_byte_arithmetic(lhs);
        lemma_byte_arithmetic(value);
    }
    set_znhc(
        registers,
        result == 0,
        false,
        (lhs & 0x0f) + (value & 0x0f) + carry_value > 0x0f,
        (lhs as u16) + (value as u16) + (carry_value as u16) > 0xff,
    );
    registers.a = result;
}

/// The registers after A minus `value` minus the carry-in goes into A: Z follows the result,
/// N sets, H and C report borrows into bits 3 and 7.
pub open spec fn spec_sub_a(registers: CpuRegisters, value: u8, carry_in: bool) -> CpuRegisters {
    let c: int = if carry_in { 1 } else { 0 };
    let difference = registers.a - value - c;
    with_a_and_flags(
        registers,
        ((difference + 512) % 256) as u8,
        flags((difference + 512) % 256 == 0, true, registers.a % 16 < value % 16 + c, registers.a < value + c),
    )
}

/// A minus `value` minus the carry-in, into A: Z follows the result, N sets, H and C report
/// borrows into bits 3 and 7.
pub fn sub_a(registers: &mut CpuRegisters, value: u8, carry_in: bool)
    ensures
        *final(registers) == spec_sub_a(*old(registers), value, carry_in),
{
    let carry_value: u8 = if carry_in {
        1
    } else {
        0
    };
    let lhs = registers.a;
    let result = lhs.wrapping_sub(value).wrapping_sub(carry_value);
    assert(lhs & 0x0f == lhs % 16 && value & 0x0f == value % 16) by {
        lemma_byte_arithmetic(lhs);
        lemma_byte_arithmetic(value);
    }
    set_znhc(
        registers,
        result == 0,
        true,
        (lhs & 0x0f) < ((value & 0x0f) + carry_value),
        (lhs as u16) < (value as u16) + (carry_value as u16),
    );
    registers.a = result;
}

/// A AND `value` into A: Z follows the result, H sets, N and C clear.
pub fn and_a(registers: &mut CpuRegisters, value: u8)
    ensures
        *final(registers) == with_a_and_flags(
            *old(registers),
            old(registers).a & value,
            flags(old(registers).a & value == 0, false, true, false),
        ),
{
    registers.a = registers.a & value;
    let zero = registers.a == 0;
    set_znhc(registers, zero, false, true, false);
}

/// A XOR `value` into A: Z follows the result, N, H and C clear.
pub fn xor_a(registers: &mut CpuRegisters, value: u8)
    ensures
        *final(registers) == with_a_and_flags(
            *old(registers),
            old(registers).a ^ value,
            flags(old(registers).a ^ value == 0, false, false, false),
        ),
{
    registers.a = registers.a ^ value;
    let zero = registers.a == 0;
    set_znhc(registers, zero, false, false, false);
}

/// A OR `value` into A: Z follows the result, N, H and C clear.
pub fn or_a(registers: &mut CpuRegisters, value: u8)
    ensures
        *final(registers) == with_a_and_flags(
            *old(registers),
            old(registers).a | value,
            flags(old(registers).a | value == 0, false, false, false),
        ),
{
    registers.a = registers.a | value;
    let zero = registers.a == 0;
    set_znhc(registers, zero, false, false, false);
}

/// Compares A with `value` as a subtraction that keeps A: Z when equal, N sets, H and C
/// report the borrows.
pub fn cp_a(registers: &mut CpuRegisters, value: u8)
    ensures
        *final(registers) == with_flags(
            *old(registers),
            flags(old(registers).a == value, true, value % 16 > old(registers).a % 16, value > old(registers).a),
        ),
{
    let lhs = registers.a;
    assert(lhs & 0x0f == lhs % 16 && value & 0x0f == value % 16) by {
        lemma_byte_arithmetic(lhs);
        lemma_byte_arithmetic(value);
    }
    set_znhc(registers, lhs == value, true, (value & 0x0f) > (lhs & 0x0f), value > lhs);
}

/// The correction that DAA adds to (or, after a subtraction, takes from) A.
pub open spec fn daa_correction(a: u8, f: u8) -> int {
    let negative = f & FLAG_N != 0;
    (if f & FLAG_H != 0 || (!negative && a % 16 > 9) { 6int } else { 0 }) + (if f & FLAG_C != 0 || (!negative && a
        > 0x99) {
        0x60int
    } else {
        0
    })
}

/// The registers after A is decimal-adjusted: N is kept, H clears, Z follows the result, and C
/// sets when the high digit was corrected.
pub open spec fn spec_daa(registers: CpuRegisters) -> CpuRegisters {
    let a = registers.a;
    let f = registers.f;
    let negative = f & FLAG_N != 0;
    let adjusted = (if negative { a - daa_correction(a, f) + 256 } else { a + daa_correction(a, f) }) % 256;
    let set_carry = f & FLAG_C != 0 || (!negative && a > 0x99);
    with_a_and_flags(registers, adjusted as u8, flags(adjusted == 0, negative, false, set_carry))
}

/// Decimal-adjusts A after a BCD addition or subtraction: N is kept, H clears, Z follows the
/// result, and C sets when the high digit was corrected.
pub fn daa(registers: &mut CpuRegisters)
    ensures
        *final(registers) == spec_daa(*old(registers)),
{
    let mut correction: u8 = 0;
    let mut set_carry = false;
    let negative = registers.f & FLAG_N != 0;
    let a = registers.a;
    let f = registers.f;
    assert(a & 0x0f == a % 16) by {
        lemma_byte_arithmetic(a);
    }
    assert(0u8 | 0x06u8 == 6u8 && 0u8 | 0x60u8 == 0x60u8 && (0u8 | 0x06u8) | 0x60u8 == 0x66u8) by {
        lemma_flag_bits(f, false, false, false);
    }
    if registers.f & FLAG_H != 0 || (!negative && registers.a & 0x0f > 9) {
        correction = correction | 0x06;
    }
    if registers.f & FLAG_C != 0 || (!negative && registers.a > 0x99) {
        correction = correction | 0x60;
        set_carry = true;
    }
    assert(correction == daa_correction(a, f));
    if negative {
        registers.a = registers.a.wrapping_sub(correction);
    } else {
        registers.a = registers.a.wrapping_add(correction);
    }
    let result = registers.a;
    registers.f = (registers.f & FLAG_N) | (if result == 0 {
        FLAG_Z
    } else {
        0
    }) | (if set_carry {
        FLAG_C
    } else {
        0
    });
    proof {
        lemma_flag_bits(f, result == 0, false, set_carry);
    }
}

/// Rotates left by one, bit 7 into bit 0 and C; Z follows the result when `set_zero`.
pub fn rotate_left_circular(registers: &mut CpuRegisters, value: u8, set_zero: bool) -> (result: u8)
    ensures
        result == (value * 2) % 256 + value / 128,
        *final(registers) == with_flags(*old(registers), flags(set_zero && result == 0, false, false, value >= 128)),
{
    let result = (value << 1) | (value >> 7);
    proof {
        lemma_byte_arithmetic(value);
        lemma_byte_doubling(value);
    }
    set_znhc(registers, set_zero && result == 0, false, false, value & 0x80 != 0);
    result
}

/// Rotates right by one, bit 0 into bit 7 and C; Z follows the result when `set_zero`.
pub fn rotate_right_circular(registers: &mut CpuRegisters, value: u8, set_zero: bool) -> (result: u8)
    ensures
        result == value / 2 + (value % 2) * 128,
        *final(registers) == with_flags(*old(registers), flags(set_zero && result == 0, false, false, value % 2 == 1)),
{
    let result = (value >> 1) | (value << 7);
    proof {
        lemma_byte_arithmetic(value);
        lemma_byte_doubling(value);
    }
    set_znhc(registers, set_zero && result == 0, false, false, value & 0x01 != 0);
    result
}

/// Rotates left through the carry: C into bit 0, bit 7 into C; Z follows the result when
/// `set_zero`.
pub fn rotate_left_through_carry(registers: &mut CpuRegisters, value: u8, set_zero: bool) -> (result: u8)
    ensures
        result == (value * 2) % 256 + (if carry_set(*old(registers)) { 1int } else { 0 }),
        *final(registers) == with_flags(*old(registers), flags(set_zero && result == 0, false, false, value >= 128)),
{
    let carry_in: u8 = if carry(registers) {
        1
    } else {
        0
    };
    let result = (value << 1) | carry_in;
    proof {
        lemma_byte_arithmetic(value);
        lemma_byte_doubling(value);
    }
    set_znhc(registers, set_zero && result == 0, false, false, value & 0x80 != 0);
    result
}

/// Rotates right through the carry: C into bit 7, bit 0 into C; Z follows the result when
/// `set_zero`.
pub fn rotate_right_through_carry(registers: &mut CpuRegisters, value: u8, set_zero: bool) -> (result: u8)
    ensures
        result == value / 2 + (if carry_set(*old(registers)) { 128int } else { 0 }),
        *final(registers) == with_flags(*old(registers), flags(set_zero && result == 0, false, false, value % 2 == 1)),
{
    let carry_in: u8 = if carry(registers) {
        0x80
    } else {
        0
    };
    let result = (value >> 1) | carry_in;
    proof {
        lemma_byte_arithmetic(value);
        lemma_byte_doubling(value);
    }
    set_znhc(registers, set_zero && result == 0, false, false, value & 0x01 != 0);
    result
}

/// Shifts left by one, bit 7 into C and 0 into bit 0; Z follows the result.
pub fn shift_left_arithmetic(registers: &mut CpuRegisters, value: u8) -> (result: u8)
    ensures
        result == (value * 2) % 256,
        *final(registers) == with_flags(*old(registers), flags(result == 0, false, false, value >= 128)),
{
    let result = value << 1;
    proof {
        lemma_byte_arithmetic(value);
        lemma_byte_doubling(value);
    }
    set_znhc(registers, result == 0, false, false, value & 0x80 != 0);
    result
}

/// Shifts right by one keeping bit 7, bit 0 into C; Z follows the result.
pub fn shift_right_arithmetic(registers: &mut CpuRegisters, value: u8) -> (result: u8)
    ensures
        result == value / 2 + (if value >= 128 { 128int } else { 0 }),
        *final(registers) == with_flags(*old(registers), flags(result == 0, false, false, value % 2 == 1)),
{
    let result = (value >> 1) | (value & 0x80);
    proof {
        lemma_byte_arithmetic(value);
        lemma_byte_doubling(value);
    }
    set_znhc(registers, result == 0, false, false, value & 0x01 != 0);
    result
}

/// Shifts right by one, 0 into bit 7 and bit 0 into C; Z follows the result.
pub fn shift_right_logical(registers: &mut CpuRegisters, value: u8) -> (result: u8)
    ensures
        result == value / 2,
        *final(registers) == with_flags(*old(registers), flags(result == 0, false, false, value % 2 == 1)),
{
    let result = value >> 1;
    proof {
        lemma_byte_arithmetic(value);
        lemma_byte_doubling(value);
    }
    set_znhc(registers, result == 0, false, false, value & 0x01 != 0);
    result
}

/// Swaps the two nibbles; Z follows the result, N, H and C clear.
pub fn swap_nibbles(registers: &mut CpuRegisters, value: u8) -> (result: u8)
    ensures
        result == (value % 16) * 16 + value / 16,
        *final(registers) == with_flags(*old(registers), flags(result == 0, false, false, false)),
{
    let result = (value << 4) | (value >> 4);
    proof {
        lemma_byte_arithmetic(value);
        lemma_byte_doubling(value);
    }
    set_znhc(registers, result == 0, false, false, false);
    result
}

/// Whether bit `bit` of `value` is clear.
pub open spec fn bit_clear(value: u8, bit: u8) -> bool {
    (value as nat / vstd::arithmetic::power2::pow2(bit as nat)) % 2 == 0
}

/// Tests bit `bit` of `value`: Z when it is clear, H sets, N clears, C is kept.
pub fn test_bit(registers: &mut CpuRegisters, value: u8, bit: u8)
    requires
        bit < 8,
    ensures
        *final(registers) == with_flags(
            *old(registers),
            flags(bit_clear(value, bit), false, true, carry_set(*old(registers))),
        ),
{
    let carry = registers.f & FLAG_C;
    let f = registers.f;
    let clear = value & (1u8 << bit) == 0;
    registers.f = carry | FLAG_H | (if clear {
        FLAG_Z
    } else {
        0
    });
    proof {
        lemma_bit_mask(value, bit);
        vstd::bits::lemma_u8_shr_is_div(value, bit);
        lemma_flag_bits(f, clear, false, false);
    }
}

/// The 16-bit value of a register pair, high register first.
pub open spec fn pair(high: u8, low: u8) -> u16 {
    (high * 256 + low) as u16
}

/// How 16-bit words split into bytes and fields.
proof fn lemma_word_fields(high: u8, low: u8, value: u16)
    by (bit_vector)
    ensures
        ((high as u16) << 8u16) | (low as u16) == high * 256 + low,
        (value >> 8u16) as u8 == value / 256,
        (value & 0xff) as u8 == value % 256,
        value & 0x0fff == value % 4096,
{
}

proof fn lemma_pair(high: u8, low: u8)
    ensures
        ((high as u16) << 8u16) | (low as u16) == pair(high, low),
        pair(high, low) / 256 == high,
        pair(high, low) % 256 == low,
{
    lemma_word_fields(high, low, 0);
}

proof fn lemma_split_pair(value: u16)
    ensures
        (value >> 8u16) as u8 == value / 256,
        (value & 0xff) as u8 == value % 256,
        pair((value / 256) as u8, (value % 256) as u8) == value,
{
    lemma_word_fields(0, 0, value);
}

/// The register pair BC.
pub fn bc(registers: &CpuRegisters) -> (value: u16)
    ensures
        value == pair(registers.b, registers.c),
{
    proof {
        lemma_pair(registers.b, registers.c);
    }
    ((registers.b as u16) << 8) | (registers.c as u16)
}

/// The register pair DE.
pub fn de(registers: &CpuRegisters) -> (value: u16)
    ensures
        value == pair(registers.d, registers.e),
{
    proof {
        lemma_pair(registers.d, registers.e);
    }
    ((registers.d as u16) << 8) | (registers.e as u16)
}

/// The register pair HL.
pub fn hl(registers: &CpuRegisters) -> (value: u16)
    ensures
        value == pair(registers.h, registers.l),
{
    proof {
        lemma_pair(registers.h, registers.l);
    }
    ((registers.h as u16) << 8) | (registers.l as u16)
}

/// The register pair AF, the low nibble of F reading as zero.
pub fn af(registers: &CpuRegisters) -> (value: u16)
    ensures
        value == pair(registers.a, registers.f & 0xf0),
{
    proof {
        lemma_pair(registers.a, registers.f & 0xf0);
    }
    ((registers.a as u16) << 8) | ((registers.f & 0xf0) as u16)
}

/// Writes BC: B takes the high byte, C the low byte.
pub fn set_bc(registers: &mut CpuRegisters, value: u16)
    ensures
        *final(registers) == (CpuRegisters { b: (value / 256) as u8, c: (value % 256) as u8, ..*old(registers) }),
        pair(final(registers).b, final(registers).c) == value,
{
    proof {
        lemma_split_pair(value);
    }
    registers.b = (value >> 8) as u8;
    registers.c = (value & 0xff) as u8;
}

/// Writes DE: D takes the high byte, E the low byte.
pub fn set_de(registers: &mut CpuRegisters, value: u16)
    ensures
        *final(registers) == (CpuRegisters { d: (value / 256) as u8, e: (value % 256) as u8, ..*old(registers) }),
        pair(final(registers).d, final(registers).e) == value,
{
    proof {
        lemma_split_pair(value);
    }
    registers.d = (value >> 8) as u8;
    registers.e = (value & 0xff) as u8;
}

/// Writes HL: H takes the high byte, L the low byte.
pub fn set_hl(registers: &mut CpuRegisters, value: u16)
    ensures
        *final(registers) == (CpuRegisters { h: (value / 256) as u8, l: (value % 256) as u8, ..*old(registers) }),
        pair(final(registers).h, final(registers).l) == value,
{
    proof {
        lemma_split_pair(value);
    }
    registers.h = (value >> 8) as u8;
    registers.l = (value & 0xff) as u8;
}

/// Writes AF: A takes the high byte, F the low byte with its low nibble cleared.
pub fn set_af(registers: &mut CpuRegisters, value: u16)
    ensures
        *final(registers) == (CpuRegisters {
            a: (value / 256) as u8,
            f: ((value % 256) as u8) & 0xf0,
            ..*old(registers)
        }),
{
    proof {
        lemma_split_pair(value);
    }
    registers.a = (value >> 8) as u8;
    registers.f = ((value & 0xff) as u8) & 0xf0;
}

/// The registers after HL plus `value` goes into HL: Z is kept, N clears, H and C report
/// carries out of bits 11 and 15.
pub open spec fn spec_add_hl(registers: CpuRegisters, value: u16) -> CpuRegisters {
    let lhs = pair(registers.h, registers.l);
    let sum = lhs + value;
    CpuRegisters {
        h: ((sum % 65536) / 256) as u8,
        l: (sum % 256) as u8,
        f: flags(registers.f & FLAG_Z != 0, false, lhs % 4096 + value % 4096 > 4095, sum > 65535),
        ..registers
    }
}

/// HL plus `value` into HL: Z is kept, N clears, H and C report carries out of bits 11 and 15.
#[verifier::spinoff_prover]
#[verifier::rlimit(30)]
pub fn add_hl(registers: &mut CpuRegisters, value: u16)
    ensures
        *final(registers) == spec_add_hl(*old(registers), value),
        pair(final(registers).h, final(registers).l) == (pair(old(registers).h, old(registers).l) + value) % 65536,
{
    let lhs = hl(registers);
    let result = lhs.wrapping_add(value);
    let z = registers.f & FLAG_Z != 0;
    proof {
        lemma_word_fields(0, 0, lhs);
        lemma_word_fields(0, 0, value);
    }
    set_znhc(
        registers,
        z,
        false,
        (lhs & 0x0fff) + (value & 0x0fff) > 0x0fff,
        (lhs as u32) + (value as u32) > 0xffff,
    );
    set_hl(registers, result);
}

/// Whether a jump, call or return condition holds for the flags.
pub fn condition_met(registers: &CpuRegisters, condition: Condition) -> (met: bool)
    ensures
        met == match condition {
            Condition::Nz => registers.f & FLAG_Z == 0,
            Condition::Z => registers.f & FLAG_Z != 0,
            Condition::Nc => registers.f & FLAG_C == 0,
            Condition::C => registers.f & FLAG_C != 0,
        },
{
    match condition {
        Condition::Nz => registers.f & FLAG_Z == 0,
        Condition::Z => registers.f & FLAG_Z != 0,
        Condition::Nc => registers.f & FLAG_C == 0,
        Condition::C => registers.f & FLAG_C != 0,
    }
}

/// The program counter as a 16-bit address.
pub fn pc(registers: &CpuRegisters) -> (address: u16)
    ensures
        address == registers.pc % 65536,
{
    let value = registers.pc;
    assert(value as u16 == value % 65536) by (bit_vector);
    value as u16
}

/// The address `offset` bytes past the program counter; after the HALT bug the opcode byte was
/// not counted, so the offset is one less.
pub fn operand_address(registers: &CpuRegisters, offset: u16) -> (address: u16)
    ensures
        address == (registers.pc % 65536 + (if registers.halt_bug && offset > 0 { offset - 1 } else { offset as int }))
            % 65536,
{
    let adjustment: u16 = if registers.halt_bug {
        1
    } else {
        0
    };
    let step = offset.saturating_sub(adjustment);
    pc(registers).wrapping_add(step)
}

/// The program counter after an instruction of `amount` bytes, one byte fewer after the
/// HALT bug.
pub fn pc_after_instruction(registers: &CpuRegisters, amount: u16) -> (address: u16)
    ensures
        address == (registers.pc % 65536 + (if registers.halt_bug && amount > 0 { amount - 1 } else { amount as int }))
            % 65536,
{
    let adjustment: u16 = if registers.halt_bug {
        1
    } else {
        0
    };
    let step = amount.saturating_sub(adjustment);
    pc(registers).wrapping_add(step)
}

/// Moves the program counter past an instruction of `amount` bytes.
pub fn advance_pc(registers: &mut CpuRegisters, amount: u16)
    ensures
        final(registers).pc == (old(registers).pc % 65536 + (if old(registers).halt_bug && amount > 0 {
            amount - 1
        } else {
            amount as int
        })) % 65536,
        *final(registers) == (CpuRegisters { pc: final(registers).pc, ..*old(registers) }),
{
    registers.pc = pc_after_instruction(registers, amount) as u32;
}

/// The address `offset` bytes past the program counter, one less after the HALT bug.
pub open spec fn spec_operand_address(registers: CpuRegisters, offset: u16) -> u16 {
    ((registers.pc % 65536 + (if registers.halt_bug && offset > 0 { offset - 1 } else { offset as int })) % 65536) as u16
}

/// Complements A (CPL): N and H set, Z and C kept.
pub fn complement_a(registers: &mut CpuRegisters)
    ensures
        *final(registers) == (CpuRegisters {
            a: !old(registers).a,
            f: (old(registers).f & (FLAG_Z | FLAG_C)) | FLAG_N | FLAG_H,
            ..*old(registers)
        }),
{
    registers.a = !registers.a;
    registers.f = (registers.f & (FLAG_Z | FLAG_C)) | FLAG_N | FLAG_H;
}

/// Sets the carry flag (SCF): Z kept, N and H clear.
pub fn set_carry_flag(registers: &mut CpuRegisters)
    ensures
        *final(registers) == with_flags(*old(registers), (old(registers).f & FLAG_Z) | FLAG_C),
{
    registers.f = (registers.f & FLAG_Z) | FLAG_C;
}

/// Complements the carry flag (CCF): Z kept, N and H clear.
pub fn complement_carry_flag(registers: &mut CpuRegisters)
    ensures
        *final(registers) == with_flags(
            *old(registers),
            (old(registers).f & FLAG_Z) | (if carry_set(*old(registers)) { 0u8 } else { FLAG_C }),
        ),
{
    let next_carry = !carry(registers);
    registers.f = (registers.f & FLAG_Z) | if next_carry {
        FLAG_C
    } else {
        0
    };
}

/// The signed value of an offset byte.
pub open spec fn signed_byte(offset: u8) -> int {
    if offset >= 128 { offset - 256 } else { offset as int }
}

/// SP plus a signed offset byte, with H and C from the low nibble and byte of the unsigned
/// sum and Z and N clear.
#[verifier::spinoff_prover]
#[verifier::rlimit(30)]
pub fn sp_plus_offset(registers: &mut CpuRegisters, offset: u8) -> (result: u16)
    ensures
        result == (old(registers).sp % 65536 + signed_byte(offset) + 65536) % 65536,
        *final(registers) == with_flags(
            *old(registers),
            flags(false, false, old(registers).sp % 16 + offset % 16 > 15, old(registers).sp % 256 + offset > 255),
        ),
{
    let sp = (registers.sp % 65536) as u16;
    let unsigned = offset as u16;
    let result = if offset >= 128 {
        sp.wrapping_add(unsigned).wrapping_sub(256)
    } else {
        sp.wrapping_add(unsigned)
    };
    let half = sp % 16 + unsigned % 16 > 15;
    let full = sp % 256 + unsigned > 255;
    set_znhc(registers, false, false, half, full);
    result
}

/// Each flag of `flags(z, n, h, c)` reads back as given.
pub proof fn lemma_flags_read_back(z: bool, n: bool, h: bool, c: bool)
    by (bit_vector)
    ensures
        ((if z { 0x80u8 } else { 0u8 }) | (if n { 0x40u8 } else { 0u8 }) | (if h { 0x20u8 } else { 0u8 }) | (if c {
            0x10u8
        } else {
            0u8
        })) & 0x80u8 != 0 == z,
        ((if z { 0x80u8 } else { 0u8 }) | (if n { 0x40u8 } else { 0u8 }) | (if h { 0x20u8 } else { 0u8 }) | (if c {
            0x10u8
        } else {
            0u8
        })) & 0x40u8 != 0 == n,
        ((if z { 0x80u8 } else { 0u8 }) | (if n { 0x40u8 } else { 0u8 }) | (if h { 0x20u8 } else { 0u8 }) | (if c {
            0x10u8
        } else {
            0u8
        })) & 0x20u8 != 0 == h,
        ((if z { 0x80u8 } else { 0u8 }) | (if n { 0x40u8 } else { 0u8 }) | (if h { 0x20u8 } else { 0u8 }) | (if c {
            0x10u8
        } else {
            0u8
        })) & 0x10u8 != 0 == c,
{
}

/// Whether `value` is a packed binary-coded decimal: two digits of 0 to 9.
pub open spec fn is_packed_bcd(value: u8) -> bool {
    value / 16 <= 9 && value % 16 <= 9
}

/// The number 0 to 99 that the packed BCD byte `value` writes.
pub open spec fn packed_bcd_value(value: u8) -> int {
    (value / 16) * 10 + value % 16
}

/// The packed BCD byte that writes `n`, for `n` from 0 to 99.
pub open spec fn packed_bcd_of(n: int) -> int {
    (n / 10) * 16 + n % 10
}

/// The digit arithmetic behind DAA after an addition of the BCD digits `ah al` and `vh vl`:
/// the low correction applies exactly when the low digits carry, the high one exactly when
/// the decimal sum reaches 100, and the corrected byte writes the sum's last two digits.
proof fn lemma_bcd_add_digits(ah: int, al: int, vh: int, vl: int)
    requires
        0 <= ah <= 9,
        0 <= al <= 9,
        0 <= vh <= 9,
        0 <= vl <= 9,
    ensures
        ({
            let raw = 16 * ah + al + 16 * vh + vl;
            let s = raw % 256;
            let low_fix = al + vl > 15 || s % 16 > 9;
            let high_fix = raw > 255 || s > 0x99;
            let out = (s + (if low_fix { 6int } else { 0 }) + (if high_fix { 0x60int } else { 0 })) % 256;
            let sum = 10 * ah + al + 10 * vh + vl;
            &&& out == packed_bcd_of(sum % 100)
            &&& high_fix == (sum >= 100)
        }),
{
    let raw = 16 * ah + al + 16 * vh + vl;
    let l = al + vl;
    let t = ah + vh;
    let sum = 10 * ah + al + 10 * vh + vl;
    assert(raw == 16 * t + l);
    assert(sum == 10 * t + l);
    if l < 10 {
        if t < 10 {
            assert(raw % 256 == raw);
            assert(raw % 16 == l);
            assert(sum % 100 == sum);
            assert(sum / 10 == t);
            assert(sum % 10 == l);
        } else {
            if raw > 255 {
                assert(raw % 256 == raw - 256);
                assert((raw - 256) % 16 == l);
            } else {
                assert(raw % 256 == raw);
                assert(raw % 16 == l);
            }
            assert((raw % 256 + 0x60) % 256 == 16 * (t - 10) + l);
            assert(sum % 100 == 10 * (t - 10) + l);
            assert((sum % 100) / 10 == t - 10);
            assert((sum % 100) % 10 == l);
        }
    } else {
        let low = l - 10;
        if t + 1 < 10 {
            assert(raw % 256 == raw);
            if l < 16 {
                assert(raw % 16 == l);
            }
            assert(raw <= 0x99);
            assert((raw + 6) % 256 == 16 * (t + 1) + low);
            assert(sum % 100 == 10 * (t + 1) + low);
            assert((sum % 100) / 10 == t + 1);
            assert((sum % 100) % 10 == low);
        } else {
            if raw > 255 {
                assert(raw % 256 == raw - 256);
            } else {
                assert(raw % 256 == raw);
                assert(raw > 0x99);
                if l < 16 {
                    assert(raw % 16 == l);
                }
            }
            if raw > 255 && l < 16 {
                assert((raw - 256) % 16 == l);
            }
            assert((raw % 256 + 0x66) % 256 == 16 * (t + 1 - 10) + low);
            assert(sum % 100 == 10 * (t + 1 - 10) + low);
            assert((sum % 100) / 10 == t + 1 - 10);
            assert((sum % 100) % 10 == low);
        }
    }
}

/// Law: adding two packed BCD bytes and decimal-adjusting gives their decimal sum: A holds
/// the last two digits of it in packed BCD, C is set exactly when the sum reaches 100, and Z
/// exactly when the two digits are 00; N and H are clear.
pub proof fn lemma_bcd_addition(registers: CpuRegisters, value: u8)
    requires
        is_packed_bcd(registers.a),
        is_packed_bcd(value),
    ensures
        ({
            let sum = packed_bcd_value(registers.a) + packed_bcd_value(value);
            let adjusted = spec_daa(spec_add_a(registers, value, false));
            &&& adjusted.a == packed_bcd_of(sum % 100)
            &&& (adjusted.f & FLAG_C != 0) == (sum >= 100)
            &&& (adjusted.f & FLAG_Z != 0) == (sum % 100 == 0)
            &&& adjusted.f & FLAG_N == 0
            &&& adjusted.f & FLAG_H == 0
        }),
{
    let a = registers.a;
    let raw = a + value;
    let added = spec_add_a(registers, value, false);
    lemma_flags_read_back(raw % 256 == 0, false, a % 16 + value % 16 > 15, raw > 255);
    assert(a == 16 * (a / 16) + a % 16);
    assert(value == 16 * (value / 16) + value % 16);
    lemma_bcd_add_digits((a / 16) as int, (a % 16) as int, (value / 16) as int, (value % 16) as int);
    let s = added.a;
    let low_fix = a % 16 + value % 16 > 15 || s % 16 > 9;
    let high_fix = raw > 255 || s > 0x99;
    let adjusted = spec_daa(added);
    assert(adjusted.a == (s + (if low_fix { 6int } else { 0 }) + (if high_fix { 0x60int } else { 0 })) % 256);
    let sum = packed_bcd_value(a) + packed_bcd_value(value);
    assert(packed_bcd_of(sum % 100) < 256);
    lemma_flags_read_back(adjusted.a == 0, false, false, high_fix);
    assert((adjusted.a == 0) == (sum % 100 == 0));
}

/// The digit arithmetic behind DAA after a subtraction of the BCD digits `vh vl` from `ah al`:
/// the low correction applies exactly when the low digit borrows, the high one exactly when
/// the whole difference is negative, and the corrected byte writes the difference modulo 100.
proof fn lemma_bcd_sub_digits(ah: int, al: int, vh: int, vl: int)
    requires
        0 <= ah <= 9,
        0 <= al <= 9,
        0 <= vh <= 9,
        0 <= vl <= 9,
    ensures
        ({
            let a = 16 * ah + al;
            let v = 16 * vh + vl;
            let s = (a - v + 512) % 256;
            let low_fix = al < vl;
            let high_fix = a < v;
            let out = (s - (if low_fix { 6int } else { 0 }) - (if high_fix { 0x60int } else { 0 }) + 256) % 256;
            let difference = (10 * ah + al) - (10 * vh + vl);
            &&& out == packed_bcd_of((difference + 100) % 100)
            &&& high_fix == (difference < 0)
        }),
{
    let a = 16 * ah + al;
    let v = 16 * vh + vl;
    let l = al - vl;
    let t = ah - vh;
    let difference = (10 * ah + al) - (10 * vh + vl);
    assert(a - v == 16 * t + l);
    assert(difference == 10 * t + l);
    if l >= 0 {
        if t >= 0 {
            assert((a - v + 512) % 256 == 16 * t + l);
            assert((difference + 100) % 100 == 10 * t + l);
            assert(((difference + 100) % 100) / 10 == t);
            assert(((difference + 100) % 100) % 10 == l);
        } else {
            assert((a - v + 512) % 256 == 256 + 16 * t + l);
            assert((256 + 16 * t + l - 0x60 + 256) % 256 == 16 * (t + 10) + l);
            assert((difference + 100) % 100 == 10 * (t + 10) + l);
            assert(((difference + 100) % 100) / 10 == t + 10);
            assert(((difference + 100) % 100) % 10 == l);
        }
    } else {
        if t >= 1 {
            assert((a - v + 512) % 256 == 16 * t + l);
            assert((16 * t + l - 6 + 256) % 256 == 16 * (t - 1) + l + 10);
            assert((difference + 100) % 100 == 10 * (t - 1) + l + 10);
            assert(((difference + 100) % 100) / 10 == t - 1);
            assert(((difference + 100) % 100) % 10 == l + 10);
        } else {
            assert((a - v + 512) % 256 == 256 + 16 * t + l);
            assert((256 + 16 * t + l - 0x66 + 256) % 256 == 16 * (t + 9) + l + 10);
            assert((difference + 100) % 100 == 10 * (t + 9) + l + 10);
            assert(((difference + 100) % 100) / 10 == t + 9);
            assert(((difference + 100) % 100) % 10 == l + 10);
        }
    }
}

/// Law: subtracting a packed BCD byte from another and decimal-adjusting gives their decimal
/// difference: A holds it modulo 100 in packed BCD (so 100 is borrowed when it is negative), C
/// is set exactly when it is negative, Z exactly when the two digits are 00; N stays set and H
/// is clear.
pub proof fn lemma_bcd_subtraction(registers: CpuRegisters, value: u8)
    requires
        is_packed_bcd(registers.a),
        is_packed_bcd(value),
    ensures
        ({
            let difference = packed_bcd_value(registers.a) - packed_bcd_value(value);
            let adjusted = spec_daa(spec_sub_a(registers, value, false));
            &&& adjusted.a == packed_bcd_of((difference + 100) % 100)
            &&& (adjusted.f & FLAG_C != 0) == (difference < 0)
            &&& (adjusted.f & FLAG_Z != 0) == ((difference + 100) % 100 == 0)
            &&& adjusted.f & FLAG_N != 0
            &&& adjusted.f & FLAG_H == 0
        }),
{
    let a = registers.a;
    let subtracted = spec_sub_a(registers, value, false);
    let raw = a - value;
    lemma_flags_read_back((raw + 512) % 256 == 0, true, a % 16 < value % 16, a < value);
    assert(a == 16 * (a / 16) + a % 16);
    assert(value == 16 * (value / 16) + value % 16);
    lemma_bcd_sub_digits((a / 16) as int, (a % 16) as int, (value / 16) as int, (value % 16) as int);
    let s = subtracted.a;
    let low_fix = a % 16 < value % 16;
    let high_fix = a < value;
    let adjusted = spec_daa(subtracted);
    assert(adjusted.a == (s - (if low_fix { 6int } else { 0 }) - (if high_fix { 0x60int } else { 0 }) + 256) % 256);
    let difference = packed_bcd_value(a) - packed_bcd_value(value);
    assert(packed_bcd_of((difference + 100) % 100) < 256);
    lemma_flags_read_back(adjusted.a == 0, true, false, high_fix);
    assert((adjusted.a == 0) == ((difference + 100) % 100 == 0));
}

} // verus!
