use vstd::prelude::*;

use crate::cheats::first_patch;
use crate::input::{
    joypad_low_nibble_falling_edge, spec_low_nibble_for_select, JOYP_LOW_NIBBLE_MASK, JOYP_SELECT_BUTTONS,
    JOYP_SELECT_DIRECTIONS, JOYP_SELECT_MASK, JOYP_SELECT_NONE,
};
use crate::constants::{IO_PORT_BYTES, ROM_BANK_SIZE};
use crate::machine::GameBoyCore;
use crate::rom::{MemoryBankController, RomProperties};
use crate::sgb::spec_remap_555_8888;

verus! {

/// I/O port index of the sound on/off register.
pub const NR52_IO_INDEX: usize = 0x26;

/// The 0xAARRGGBB colour of a CGB palette entry, stored as two little-endian bytes of 15-bit
/// BGR; each 5-bit channel is scaled to 0..=255.
pub fn remap_555_8888(lo: u8, hi: u8) -> (colour: u32)
    ensures
        colour == spec_remap_555_8888(lo as u32, hi as u32),
{
    let value: u16 = (lo as u16) | ((hi as u16) << 8);
    let wide: u32 = (lo as u32) | ((hi as u32) << 8);
    assert(((lo as u16) | ((hi as u16) << 8u16)) as u32 == (lo as u32) | ((hi as u32) << 8u32)) by (bit_vector);
    assert(value as u32 == wide);
    assert((value & 0x1f) as u32 == wide & 0x1f && ((value >> 5u16) & 0x1f) as u32 == (wide >> 5u32) & 0x1f && ((
    value >> 10u16) & 0x1f) as u32 == (wide >> 10u32) & 0x1f) by (bit_vector)
        requires
            value as u32 == wide,
    ;
    assert(wide & 0x1f <= 0x1f && (wide >> 5u32) & 0x1f <= 0x1f && (wide >> 10u32) & 0x1f <= 0x1f) by (bit_vector);
    let red = ((value & 0x1f) as u32) * 255 / 31;
    let green = (((value >> 5) & 0x1f) as u32) * 255 / 31;
    let blue = (((value >> 10) & 0x1f) as u32) * 255 / 31;
    0xff00_0000 | (red << 16) | (green << 8) | blue
}

/// Whether HDMA may copy from `source`: not from VRAM itself (0x8000..=0x9fff) and not from
/// 0xe000 up.
pub fn valid_hdma_source(source: u16) -> (valid: bool)
    ensures
        valid == (!(0x8000 <= source < 0xa000) && source < 0xe000),
{
    assert((source & 0xe000) == 0x8000 <==> 0x8000 <= source < 0xa000) by (bit_vector);
    (source & 0xe000) != 0x8000 && source < 0xe000
}

/// The value that reads of the sound on/off register give: the master enable bit as written,
/// the unused bits 4 to 6 set, and one bit per running channel.
pub fn audio_status_register_value(channel_status_bits: u8, io_ports: &[u8]) -> (value: u8)
    ensures
        value == ((if NR52_IO_INDEX < io_ports@.len() { io_ports@[NR52_IO_INDEX as int] } else { 0u8 }) & 0x80)
            | 0x70 | channel_status_bits,
{
    let global_enable = if NR52_IO_INDEX < io_ports.len() {
        io_ports[NR52_IO_INDEX]
    } else {
        0
    } & 0x80;
    global_enable | 0x70 | channel_status_bits
}

pub const JOYP_IO_INDEX: usize = 0x00;
pub const SB_IO_INDEX: usize = 0x01;
pub const SC_IO_INDEX: usize = 0x02;
pub const DIV_IO_INDEX: usize = 0x04;
pub const TIMA_IO_INDEX: usize = 0x05;
pub const TMA_IO_INDEX: usize = 0x06;
pub const TAC_IO_INDEX: usize = 0x07;
pub const IF_IO_INDEX: usize = 0x0f;
pub const LCDC_IO_INDEX: usize = 0x40;
pub const STAT_IO_INDEX: usize = 0x41;
pub const LY_IO_INDEX: usize = 0x44;
pub const DMA_IO_INDEX: usize = 0x46;
pub const BGP_IO_INDEX: usize = 0x47;
pub const OBP0_IO_INDEX: usize = 0x48;
pub const OBP1_IO_INDEX: usize = 0x49;
pub const KEY1_IO_INDEX: usize = 0x4d;
pub const VBK_IO_INDEX: usize = 0x4f;
pub const BOOT_IO_INDEX: usize = 0x50;
pub const HDMA1_IO_INDEX: usize = 0x51;
pub const HDMA2_IO_INDEX: usize = 0x52;
pub const HDMA3_IO_INDEX: usize = 0x53;
pub const HDMA4_IO_INDEX: usize = 0x54;
pub const HDMA5_IO_INDEX: usize = 0x55;
pub const BCPS_IO_INDEX: usize = 0x68;
pub const BCPD_IO_INDEX: usize = 0x69;
pub const OCPS_IO_INDEX: usize = 0x6a;
pub const OCPD_IO_INDEX: usize = 0x6b;
pub const SVBK_IO_INDEX: usize = 0x70;

pub const INTERRUPT_JOYPAD: u8 = 0x10;
pub const INTERRUPT_TIMER: u8 = 0x04;
pub const TIMER_RELOAD_DELAY_M_CYCLES: u8 = 1;
pub const OAM_DMA_BYTES: u8 = 160;
pub const HDMA_BLOCK_BYTES: usize = 16;
pub const HDMA_BLOCK_M_CYCLES: i32 = 8;

/// Byte `index` of `bytes`, or 0xff outside it: what the bus reads from a missing cell.
pub open spec fn byte_or_ff(bytes: Seq<u8>, index: int) -> u8 {
    if 0 <= index < bytes.len() {
        bytes[index]
    } else {
        0xffu8
    }
}

/// Whether a running OAM DMA keeps the CPU off `address`: on the original models every
/// address but high RAM is blocked.
pub open spec fn spec_oam_dma_blocks(core: &GameBoyCore, address: u16) -> bool {
    core.dma.oam.active && !core.rom.properties.cgb_flag && !(0xff80 <= address <= 0xfffe)
}

/// The I/O port at `index` as a plain value (0 past the ports).
pub open spec fn port(core: &GameBoyCore, index: int) -> u8 {
    crate::memory::spec_io(&core.memory, index)
}

/// The joypad register value for select bits `select`: the unused bits high, the select bits,
/// and the selected row of the joypad.
pub open spec fn spec_joyp_value(core: &GameBoyCore, select: u8) -> u8 {
    0xc0 | (select & JOYP_SELECT_MASK) | spec_low_nibble_for_select(core.runtime.joypad, select)
}

/// What a read of the joypad register gives: the Super Game Boy's controller number while it
/// probes for multiple controllers with no row selected, else the selected row.
pub open spec fn spec_read_joyp(core: &GameBoyCore) -> u8 {
    let select = port(core, JOYP_IO_INDEX as int) & JOYP_SELECT_MASK;
    if core.rom.properties.sgb_flag && core.sgb.mult_enabled && select == JOYP_SELECT_NONE {
        (core.sgb.read_joypad_id as u8) & JOYP_LOW_NIBBLE_MASK
    } else {
        spec_joyp_value(core, select)
    }
}

/// What a read of I/O register `index` (below 0x80) gives.
pub open spec fn spec_read_io(core: &GameBoyCore, index: int) -> u8 {
    let cgb = core.rom.properties.cgb_flag;
    let palettes = core.cgb_palette_registers;
    if index == JOYP_IO_INDEX {
        spec_read_joyp(core)
    } else if index == 0x11 || index == 0x16 {
        port(core, index) & 0xc0
    } else if index == 0x13 || index == 0x18 || index == 0x1d {
        0
    } else if index == 0x14 || index == 0x19 || index == 0x1e || index == 0x23 {
        port(core, index) & 0x40
    } else if index == BCPD_IO_INDEX && cgb {
        if palettes.bg_index < 64 { palettes.bg_data@[palettes.bg_index as int] } else { 0 }
    } else if index == OCPD_IO_INDEX && cgb {
        if palettes.obj_index < 64 { palettes.obj_data@[palettes.obj_index as int] } else { 0 }
    } else if index == BCPD_IO_INDEX || index == OCPD_IO_INDEX {
        0
    } else if index == BOOT_IO_INDEX {
        port(core, index) & 0x01
    } else {
        byte_or_ff(core.memory.io_ports@, index)
    }
}

/// What a read of cartridge RAM gives: 0 while it is disabled, a clock register while one is
/// mapped, else the RAM.
pub open spec fn spec_read_sram(core: &GameBoyCore, address: usize) -> u8 {
    if !core.sram.enable_flag {
        0
    } else if core.sram.has_timer && core.sram.timer_mode > 0 {
        core.sram.spec_read_timer_data(
            (if core.sram.timer_mode < 8 { 0 } else { core.sram.timer_mode - 8 }) as usize,
        )
    } else {
        core.sram.spec_read_data(address)
    }
}

/// The memory map: what a read of `address` gives before DMA and cheats.
pub open spec fn spec_read8_unrestricted(core: &GameBoyCore, address: u16) -> u8 {
    let a = address as int;
    let memory = core.memory;
    if a < 0x4000 {
        byte_or_ff(memory.rom@, core.rom.fixed_bank_offset + a)
    } else if a < 0x8000 {
        byte_or_ff(memory.rom@, core.rom.bank_offset + a % 0x4000)
    } else if a < 0xa000 {
        if core.memory_access.vram {
            byte_or_ff(memory.vram@, core.memory_access.vram_bank_offset + a % 0x2000)
        } else {
            0xff
        }
    } else if a < 0xc000 {
        spec_read_sram(core, a as usize)
    } else if a < 0xd000 || (0xe000 <= a < 0xf000) {
        byte_or_ff(memory.wram@, a % 0x1000)
    } else if a < 0xfe00 {
        byte_or_ff(memory.wram@, core.memory_access.wram_bank_offset + a % 0x1000)
    } else if a < 0xfea0 {
        if core.memory_access.oam {
            memory.oam@[(a % 0x100) % 160]
        } else {
            0xff
        }
    } else if a < 0xff00 {
        0xff
    } else if a < 0xff80 {
        spec_read_io(core, a % 0x80)
    } else {
        byte_or_ff(memory.io_ports@, a % 0x100)
    }
}

/// What the CPU reads at `address`: 0xff while OAM DMA blocks it, else the memory map with the
/// first matching cheat applied.
pub open spec fn spec_read8(core: &GameBoyCore, address: u16) -> u8 {
    if spec_oam_dma_blocks(core, address) {
        0xff
    } else {
        let value = spec_read8_unrestricted(core, address);
        match first_patch(core.cheats.codes@, 0, address, value) {
            Some(patched) => patched,
            None => value,
        }
    }
}

/// Byte `index` of `bytes`, or 0xff outside it.
fn read_or_ff(bytes: &[u8], index: usize) -> (value: u8)
    ensures
        value == byte_or_ff(bytes@, index as int),
{
    if index < bytes.len() {
        bytes[index]
    } else {
        0xff
    }
}

/// Byte `base + offset` of `bytes`, or 0xff outside it.
fn read_offset_or_ff(bytes: &[u8], base: u32, offset: usize) -> (value: u8)
    ensures
        value == byte_or_ff(bytes@, base + offset),
{
    let len = bytes.len();
    match (base as usize).checked_add(offset) {
        Some(index) => read_or_ff(bytes, index),
        None => {
            assert(base + offset > len);
            0xff
        },
    }
}

/// Whether a running OAM DMA keeps the CPU off `address`.
pub fn oam_dma_blocks_cpu_access(core: &GameBoyCore, address: u16) -> (blocked: bool)
    ensures
        blocked == spec_oam_dma_blocks(core, address),
{
    core.dma.oam.active && !core.rom.properties.cgb_flag && !(0xff80 <= address && address <= 0xfffe)
}

/// The joypad register value for select bits `select`.
pub fn joyp_value(core: &GameBoyCore, select: u8) -> (value: u8)
    ensures
        value == spec_joyp_value(core, select),
{
    0xc0 | (select & JOYP_SELECT_MASK) | core.runtime.joypad.low_nibble_for_select(select)
}

/// Reads the joypad register.
pub fn read_joyp(core: &GameBoyCore) -> (value: u8)
    requires
        core.wf(),
    ensures
        value == spec_read_joyp(core),
{
    let select = core.memory.io_ports[JOYP_IO_INDEX] & JOYP_SELECT_MASK;
    if core.rom.properties.sgb_flag && core.sgb.mult_enabled && select == JOYP_SELECT_NONE {
        return (core.sgb.read_joypad_id as u8) & JOYP_LOW_NIBBLE_MASK;
    }
    joyp_value(core, select)
}

/// Reads I/O register `index` (below 0x80): the joypad, write-only sound bits reading as 0,
/// the Color palette data at the palette index, the boot ROM switch, and plain ports.
pub fn read_io(core: &GameBoyCore, index: usize) -> (value: u8)
    requires
        core.wf(),
    ensures
        value == spec_read_io(core, index as int),
{
    let cgb = core.rom.properties.cgb_flag;
    if index == JOYP_IO_INDEX {
        read_joyp(core)
    } else if index == 0x11 || index == 0x16 {
        crate::audio::io(core.memory.io_ports.as_slice(), index) & 0xc0
    } else if index == 0x13 || index == 0x18 || index == 0x1d {
        0
    } else if index == 0x14 || index == 0x19 || index == 0x1e || index == 0x23 {
        crate::audio::io(core.memory.io_ports.as_slice(), index) & 0x40
    } else if index == BCPD_IO_INDEX && cgb {
        let palette_index = core.cgb_palette_registers.bg_index;
        if palette_index < 64 {
            core.cgb_palette_registers.bg_data[palette_index as usize]
        } else {
            0
        }
    } else if index == OCPD_IO_INDEX && cgb {
        let palette_index = core.cgb_palette_registers.obj_index;
        if palette_index < 64 {
            core.cgb_palette_registers.obj_data[palette_index as usize]
        } else {
            0
        }
    } else if index == BCPD_IO_INDEX || index == OCPD_IO_INDEX {
        0
    } else if index == BOOT_IO_INDEX {
        core.memory.io_ports[BOOT_IO_INDEX] & 0x01
    } else {
        read_or_ff(core.memory.io_ports.as_slice(), index)
    }
}

/// Reads cartridge RAM or a mapped clock register.
pub fn read_sram(core: &GameBoyCore, address: usize) -> (value: u8)
    ensures
        value == spec_read_sram(core, address),
{
    if !core.sram.enable_flag {
        return 0x00;
    }
    if core.sram.has_timer && core.sram.timer_mode > 0 {
        let index = core.sram.timer_mode.saturating_sub(0x08) as usize;
        return core.sram.read_timer_data(index);
    }
    core.sram.read_data(address)
}

/// Reads `address` through the memory map, ignoring OAM DMA and cheats: banked cartridge ROM,
/// banked VRAM while the picture processor allows it, cartridge RAM, work RAM with its echo,
/// OAM while allowed, I/O registers and high RAM.
pub fn read8_unrestricted(core: &GameBoyCore, address: u16) -> (value: u8)
    requires
        core.wf(),
    ensures
        value == spec_read8_unrestricted(core, address),
{
    let address = address as usize;
    if address < 0x4000 {
        return read_offset_or_ff(core.memory.rom.as_slice(), core.rom.fixed_bank_offset, address);
    }
    if address < 0x8000 {
        return read_offset_or_ff(core.memory.rom.as_slice(), core.rom.bank_offset, address % 0x4000);
    }
    if address < 0xa000 {
        if core.memory_access.vram {
            return read_offset_or_ff(
                core.memory.vram.as_slice(),
                core.memory_access.vram_bank_offset,
                address % 0x2000,
            );
        }
        return 0xff;
    }
    if address < 0xc000 {
        return read_sram(core, address);
    }
    if address < 0xd000 || (0xe000 <= address && address < 0xf000) {
        return read_or_ff(core.memory.wram.as_slice(), address % 0x1000);
    }
    if address < 0xfe00 {
        return read_offset_or_ff(
            core.memory.wram.as_slice(),
            core.memory_access.wram_bank_offset,
            address % 0x1000,
        );
    }
    if address < 0xfea0 {
        if core.memory_access.oam {
            return core.memory.oam[(address % 0x100) % 160];
        }
        return 0xff;
    }
    if address < 0xff00 {
        return 0xff;
    }
    if address < 0xff80 {
        return read_io(core, address % 0x80);
    }
    read_or_ff(core.memory.io_ports.as_slice(), address % 0x100)
}

/// What the CPU reads at `address`: 0xff while OAM DMA blocks it, else the memory map with
/// the first matching cheat applied.
pub fn read8(core: &GameBoyCore, address: u16) -> (value: u8)
    requires
        core.wf(),
    ensures
        value == spec_read8(core, address),
{
    if oam_dma_blocks_cpu_access(core, address) {
        return 0xff;
    }
    let value = read8_unrestricted(core, address);
    match core.cheats.read_patch(address, value) {
        Some(patched) => patched,
        None => value,
    }
}

/// Reads a little-endian 16-bit value at `address` and the address after it (wrapping).
pub fn read16(core: &GameBoyCore, address: u16) -> (value: u16)
    requires
        core.wf(),
    ensures
        value == spec_read8(core, address) + 256 * spec_read8(core, address.wrapping_add(1)),
{
    let low = read8(core, address);
    let high = read8(core, address.wrapping_add(1));
    (low as u16) + (high as u16) * 256
}

/// `a * b` wrapped to 32 bits.
pub open spec fn mul32(a: u32, b: u32) -> u32 {
    ((a * b) % 0x1_0000_0000) as u32
}

/// The ROM bank offset, fixed bank offset and RAM bank offset of an MBC1 with the given bank
/// registers, bank mask and banking mode: the switchable bank is the upper bits above the lower
/// bits (0 counting as 1); the fixed area and RAM follow the upper bits only in mode 1.
pub open spec fn spec_mbc1_offsets(lower: u8, upper: u8, mask: u32, mode: u32) -> (u32, u32, u32) {
    let lower_bank = if lower == 0 { 1u32 } else { lower as u32 };
    let upper_bank = upper as u32;
    let switchable = (upper_bank << 5u32) | lower_bank;
    let fixed = if mode == 0 { 0u32 } else { upper_bank << 5u32 };
    (
        mul32(switchable & mask, ROM_BANK_SIZE),
        mul32(fixed & mask, ROM_BANK_SIZE),
        if mode == 0 { 0u32 } else { mul32(upper_bank, 0x2000) },
    )
}

/// Whether RAM-enable value `value` enables cartridge RAM: its low nibble is 0xa.
pub open spec fn ram_enabled_by(value: u8) -> bool {
    value & 0x0f == 0x0a
}

/// The ROM bank that an MBC2 or MBC3 bank write selects: the value under the mask, 0
/// counting as 1.
pub open spec fn selected_rom_bank(value: u8) -> u32 {
    if value == 0 { 1 } else { value as u32 }
}

impl GameBoyCore {
    /// `new` differs from `self` only in the cartridge bank registers and cartridge RAM.
    pub open spec fn only_cartridge_changed(&self, new: &Self) -> bool {
        &&& *new == (GameBoyCore { rom: new.rom, sram: new.sram, ..*self })
        &&& new.rom.current_rom_id == self.rom.current_rom_id
        &&& new.rom.current_opened_file == self.rom.current_opened_file
        &&& new.rom.properties == (RomProperties { mbc_mode: new.rom.properties.mbc_mode, ..self.rom.properties })
        &&& new.sram.data == self.sram.data
        &&& new.sram.timer_data == self.sram.timer_data
        &&& new.sram.timer_clock_accumulator == self.sram.timer_clock_accumulator
        &&& new.sram.has_battery == self.sram.has_battery
        &&& new.sram.has_timer == self.sram.has_timer
        &&& new.sram.size_enum == self.sram.size_enum
        &&& new.sram.size_bytes == self.sram.size_bytes
        &&& new.sram.bank_select_mask == self.sram.bank_select_mask
        &&& new.sram.dirty == self.sram.dirty
    }

    /// `new` is `self` after an MBC1 write of `value` to `address`.
    pub open spec fn mbc1_written_into(&self, new: &Self, address: u32, value: u8) -> bool {
        let rom = self.rom;
        let mask = rom.properties.bank_select_mask;
        &&& self.only_cartridge_changed(new)
        &&& if address < 0x2000 {
            &&& new.rom == rom
            &&& new.sram == (crate::sram::SramState { enable_flag: ram_enabled_by(value), ..self.sram })
        } else {
            let lower = if address < 0x4000 {
                if value & 0x1f == 0 { 1u8 } else { value & 0x1f }
            } else {
                rom.mbc1_lower_bank
            };
            let upper = if 0x4000 <= address < 0x6000 { value & 0x03 } else { rom.mbc1_upper_bank };
            let mode = if address >= 0x6000 { (value & 0x01) as u32 } else { rom.properties.mbc_mode };
            let offsets = spec_mbc1_offsets(lower, upper, mask, mode);
            &&& new.rom.mbc1_lower_bank == lower
            &&& new.rom.mbc1_upper_bank == upper
            &&& new.rom.properties.mbc_mode == mode
            &&& new.rom.bank_offset == offsets.0
            &&& new.rom.fixed_bank_offset == offsets.1
            &&& new.sram == (crate::sram::SramState { bank_offset: offsets.2, ..self.sram })
            &&& new.rom.suspicious_mbc_warning_logged == (rom.suspicious_mbc_warning_logged || (address < 0x4000
                && mask > 0x1f && value & 0xe0 != 0))
        }
    }

    /// `new` is `self` after an MBC2 write of `value` to `address`: address bit 8 picks RAM
    /// enable or the ROM bank; writes from 0x4000 up do nothing.
    pub open spec fn mbc2_written_into(&self, new: &Self, address: u32, value: u8) -> bool {
        &&& self.only_cartridge_changed(new)
        &&& new.rom.properties == self.rom.properties
        &&& if address >= 0x4000 {
            &&& new.rom == self.rom
            &&& new.sram == self.sram
        } else if address & 0x0100 == 0 {
            &&& new.rom == self.rom
            &&& new.sram == (crate::sram::SramState { enable_flag: ram_enabled_by(value), ..self.sram })
        } else {
            &&& new.rom == (crate::rom::RomState {
                bank_offset: mul32(
                    selected_rom_bank((value & 0x0f) & (self.rom.properties.bank_select_mask as u8)),
                    ROM_BANK_SIZE,
                ),
                ..self.rom
            })
            &&& new.sram == self.sram
        }
    }

    /// `new` is `self` after an MBC3 write of `value` to `address`: RAM enable, ROM bank, RAM
    /// bank or clock register, and the clock latch.
    pub open spec fn mbc3_written_into(&self, new: &Self, address: u32, value: u8) -> bool {
        &&& self.only_cartridge_changed(new)
        &&& new.rom.properties == self.rom.properties
        &&& if address < 0x2000 {
            &&& new.rom == self.rom
            &&& new.sram == (crate::sram::SramState { enable_flag: ram_enabled_by(value), ..self.sram })
        } else if address < 0x4000 {
            &&& new.rom == (crate::rom::RomState {
                bank_offset: mul32(selected_rom_bank(value & (self.rom.properties.bank_select_mask as u8)), ROM_BANK_SIZE),
                ..self.rom
            })
            &&& new.sram == self.sram
        } else if address < 0x6000 {
            let select = value & 0x0f;
            &&& new.rom == self.rom
            &&& new.sram == if select < 0x08 {
                crate::sram::SramState { bank_offset: (select as u32 * 0x2000) as u32, timer_mode: 0, ..self.sram }
            } else if select < 0x0d {
                crate::sram::SramState { timer_mode: select as u32, ..self.sram }
            } else {
                crate::sram::SramState { timer_mode: 0, ..self.sram }
            }
        } else {
            &&& new.rom == self.rom
            &&& new.sram.timer_latch == (value & 0x01) as u32
            &&& (self.sram.timer_latch == 0 && value & 0x01 == 1) ==> new.sram.latched_timer_data
                == self.sram.timer_data && new.sram.timer_latched
            &&& !(self.sram.timer_latch == 0 && value & 0x01 == 1) ==> new.sram.latched_timer_data
                == self.sram.latched_timer_data && new.sram.timer_latched == self.sram.timer_latched
            &&& new.sram.enable_flag == self.sram.enable_flag
            &&& new.sram.bank_offset == self.sram.bank_offset
            &&& new.sram.timer_mode == self.sram.timer_mode
        }
    }

    /// `new` is `self` after an MBC5 write of `value` to `address`: RAM enable, the low eight
    /// and the ninth ROM bank bit, and the RAM bank.
    pub open spec fn mbc5_written_into(&self, new: &Self, address: u32, value: u8) -> bool {
        let rom = self.rom;
        let mask = rom.properties.bank_select_mask;
        &&& self.only_cartridge_changed(new)
        &&& new.rom.properties == self.rom.properties
        &&& if address < 0x2000 {
            &&& new.rom == rom
            &&& new.sram == (crate::sram::SramState { enable_flag: ram_enabled_by(value), ..self.sram })
        } else if address < 0x3000 {
            &&& new.rom == (crate::rom::RomState {
                bank_offset: (rom.bank_offset & 0x0040_0000) | mul32((value as u32) & mask, ROM_BANK_SIZE),
                ..rom
            })
            &&& new.sram == self.sram
        } else if address < 0x4000 {
            let high = if value & 0x01 != 0 { 0x0040_0000u32 } else { 0u32 };
            &&& new.rom == (crate::rom::RomState {
                bank_offset: ((rom.bank_offset & 0x003f_c000) | high) & mul32(mask, ROM_BANK_SIZE),
                ..rom
            })
            &&& new.sram == self.sram
        } else if address < 0x6000 {
            &&& new.rom == rom
            &&& new.sram == (crate::sram::SramState { bank_offset: ((value & 0x0f) as u32 * 0x2000) as u32, ..self.sram })
        } else {
            &&& new.rom == rom
            &&& new.sram == self.sram
        }
    }

    /// `new` is `self` after a write of `value` to ROM address `address` (below 0x8000): it goes
    /// to the cartridge's bank controller.
    pub open spec fn mbc_written_into(&self, new: &Self, address: u16, value: u8) -> bool {
        let a = address as u32;
        match self.rom.properties.mbc {
            MemoryBankController::RomOnly => *new == *self,
            MemoryBankController::Mbc1 => self.mbc1_written_into(new, a, value),
            MemoryBankController::Mbc2 => self.mbc2_written_into(new, a, value),
            MemoryBankController::Mbc3 => self.mbc3_written_into(new, a, value),
            MemoryBankController::Mbc5 => self.mbc5_written_into(new, a, value),
            _ => {
                &&& self.only_cartridge_changed(new)
                &&& new.rom == self.rom
                &&& new.sram == if a < 0x2000 {
                    crate::sram::SramState { enable_flag: value & 0x0f == 0x0a, ..self.sram }
                } else {
                    self.sram
                }
            },
        }
    }
}

/// `a * b` wrapped to 32 bits.
fn wrapping_mul_u32(a: u32, b: u32) -> (product: u32)
    ensures
        product == mul32(a, b),
{
    a.wrapping_mul(b)
}

/// Recomputes the MBC1 ROM and RAM bank offsets from its bank registers and mode.
fn update_mbc1_bank_offsets(core: &mut GameBoyCore)
    ensures
        ({
            let offsets = spec_mbc1_offsets(
                old(core).rom.mbc1_lower_bank,
                old(core).rom.mbc1_upper_bank,
                old(core).rom.properties.bank_select_mask,
                old(core).rom.properties.mbc_mode,
            );
            &&& final(core).rom == (crate::rom::RomState {
                bank_offset: offsets.0,
                fixed_bank_offset: offsets.1,
                ..old(core).rom
            })
            &&& final(core).sram == (crate::sram::SramState { bank_offset: offsets.2, ..old(core).sram })
            &&& *final(core) == (GameBoyCore { rom: final(core).rom, sram: final(core).sram, ..*old(core) })
        }),
{
    let lower_bank: u32 = if core.rom.mbc1_lower_bank == 0 {
        1
    } else {
        core.rom.mbc1_lower_bank as u32
    };
    let upper_bank = core.rom.mbc1_upper_bank as u32;
    let bank_mask = core.rom.properties.bank_select_mask;
    let switchable_bank = (upper_bank << 5) | lower_bank;
    core.rom.bank_offset = wrapping_mul_u32(switchable_bank & bank_mask, ROM_BANK_SIZE);
    let fixed_bank: u32 = if core.rom.properties.mbc_mode == 0 {
        0
    } else {
        upper_bank << 5
    };
    core.rom.fixed_bank_offset = wrapping_mul_u32(fixed_bank & bank_mask, ROM_BANK_SIZE);
    core.sram.bank_offset = if core.rom.properties.mbc_mode == 0 {
        0
    } else {
        wrapping_mul_u32(upper_bank, 0x2000)
    };
}

/// MBC1: RAM enable, the five lower ROM bank bits, the two upper bits, and the banking mode.
#[verifier::spinoff_prover]
fn write_mbc1(core: &mut GameBoyCore, address: u32, value: u8)
    ensures
        old(core).mbc1_written_into(final(core), address, value),
{
    if address < 0x2000 {
        core.sram.enable_flag = value & 0x0f == 0x0a;
        return ;
    }
    let suspicious = address < 0x4000 && core.rom.properties.bank_select_mask > 0x1f && value & 0xe0 != 0;
    let lower: u8 = if address < 0x4000 {
        if value & 0x1f == 0 {
            1
        } else {
            value & 0x1f
        }
    } else {
        core.rom.mbc1_lower_bank
    };
    let upper: u8 = if 0x4000 <= address && address < 0x6000 {
        value & 0x03
    } else {
        core.rom.mbc1_upper_bank
    };
    let mode: u32 = if address >= 0x6000 {
        (value & 0x01) as u32
    } else {
        core.rom.properties.mbc_mode
    };
    core.rom.suspicious_mbc_warning_logged = core.rom.suspicious_mbc_warning_logged || suspicious;
    core.rom.mbc1_lower_bank = lower;
    core.rom.mbc1_upper_bank = upper;
    core.rom.properties.mbc_mode = mode;
    update_mbc1_bank_offsets(core);
}

/// MBC2: address bit 8 picks RAM enable or the four-bit ROM bank.
fn write_mbc2(core: &mut GameBoyCore, address: u32, value: u8)
    ensures
        old(core).mbc2_written_into(final(core), address, value),
{
    if address >= 0x4000 {
        return ;
    }
    if address & 0x0100 == 0 {
        core.sram.enable_flag = value & 0x0f == 0x0a;
    } else {
        let mut bank = (value & 0x0f) & (core.rom.properties.bank_select_mask as u8);
        if bank == 0 {
            bank = 1;
        }
        core.rom.bank_offset = wrapping_mul_u32(bank as u32, ROM_BANK_SIZE);
    }
}

/// Selects an MBC3 RAM bank (0 to 7) or clock register (8 to 0xc); other values map nothing.
fn select_mbc3_ram_bank(core: &mut GameBoyCore, value: u8)
    ensures
        ({
            let select = value & 0x0f;
            *final(core) == (GameBoyCore {
                sram: if select < 0x08 {
                    crate::sram::SramState { bank_offset: (select as u32 * 0x2000) as u32, timer_mode: 0, ..old(core).sram }
                } else if select < 0x0d {
                    crate::sram::SramState { timer_mode: select as u32, ..old(core).sram }
                } else {
                    crate::sram::SramState { timer_mode: 0, ..old(core).sram }
                },
                ..*old(core)
            })
        }),
{
    let select = value & 0x0f;
    proof {
        crate::bits::lemma_byte_fields(value);
    }
    if select < 0x08 {
        core.sram.bank_offset = select as u32 * 0x2000;
        core.sram.timer_mode = 0;
    } else if select < 0x0d {
        core.sram.timer_mode = select as u32;
    } else {
        core.sram.timer_mode = 0;
    }
}

/// MBC3: RAM enable, ROM bank, RAM bank or clock register, and the clock latch.
#[verifier::spinoff_prover]
fn write_mbc3(core: &mut GameBoyCore, address: u32, value: u8)
    ensures
        old(core).mbc3_written_into(final(core), address, value),
{
    if address < 0x2000 {
        core.sram.enable_flag = value & 0x0f == 0x0a;
    } else if address < 0x4000 {
        let mut bank = value & (core.rom.properties.bank_select_mask as u8);
        if bank == 0 {
            bank = 1;
        }
        core.rom.bank_offset = wrapping_mul_u32(bank as u32, ROM_BANK_SIZE);
    } else if address < 0x6000 {
        select_mbc3_ram_bank(core, value);
    } else {
        core.sram.latch_timer_data(value);
    }
}

/// MBC5: RAM enable, the low eight ROM bank bits, the ninth, and the RAM bank.
fn write_mbc5(core: &mut GameBoyCore, address: u32, value: u8)
    ensures
        old(core).mbc5_written_into(final(core), address, value),
{
    if address < 0x2000 {
        core.sram.enable_flag = value & 0x0f == 0x0a;
    } else if address < 0x3000 {
        let masked = (value as u32) & core.rom.properties.bank_select_mask;
        core.rom.bank_offset = (core.rom.bank_offset & 0x0040_0000) | wrapping_mul_u32(masked, ROM_BANK_SIZE);
    } else if address < 0x4000 {
        let high: u32 = if value & 0x01 != 0 {
            0x0040_0000
        } else {
            0
        };
        let mask = wrapping_mul_u32(core.rom.properties.bank_select_mask, ROM_BANK_SIZE);
        core.rom.bank_offset = ((core.rom.bank_offset & 0x003f_c000) | high) & mask;
    } else if address < 0x6000 {
        let select = value & 0x0f;
        proof {
            crate::bits::lemma_byte_fields(value);
        }
        core.sram.bank_offset = select as u32 * 0x2000;
    }
}

/// Whether `mask` is the bank mask of a cartridge with a power of two of ROM banks, from 2 to
/// 512.
pub open spec fn is_rom_bank_mask(mask: u32) -> bool {
    mask == 1 || mask == 3 || mask == 7 || mask == 15 || mask == 31 || mask == 63 || mask == 127 || mask == 255
        || mask == 511
}

/// The bank offsets that MBC5 writes produce, in bank numbers: `low_offset` is the offset of
/// the masked low bank byte, `high_offset` that of the ninth bank bit, `mask_offset` that of
/// the bank mask.
proof fn lemma_mbc5_bank_bits(
    offset: u32,
    low: u32,
    high_bit: u32,
    mask: u32,
    banks: u32,
    low_offset: u32,
    high_offset: u32,
    mask_offset: u32,
    nine: u32,
    kept_nine: u32,
)
    by (bit_vector)
    requires
        is_rom_bank_mask(mask),
        banks == mask + 1,
        low <= 255,
        high_bit <= 1,
        low_offset == (low & mask) * 0x4000,
        high_offset == high_bit * 0x0040_0000,
        mask_offset == mask * 0x4000,
        nine == high_bit * 256 + low,
        kept_nine == high_bit * 256 + (offset / 0x4000) % 256,
    ensures
        low & mask == low % banks,
        ((offset & 0x0040_0000) | low_offset) % 0x0040_0000 == low_offset,
        (((offset & 0x0040_0000) | low_offset) / 0x4000) % 256 == low & mask,
        ((offset & 0x003f_c000) | high_offset) & mask_offset == 0x4000 * (kept_nine % banks),
        ((((offset & 0x0040_0000) | low_offset) & 0x003f_c000) | high_offset) & mask_offset == 0x4000 * (nine % banks),
{
}

/// Law: MBC5 selects the ROM bank at 0x4000-0x7fff with nine bits, the low eight written to
/// 0x2000-0x2fff and the ninth to bit 0 of a write to 0x3000-0x3fff, taken modulo the
/// cartridge's bank count. A write to 0x3000-0x3fff keeps the eight low bits that were written
/// before, and a write to 0x2000-0x2fff then one to 0x3000-0x3fff select bank
/// `(high & 1) * 256 + low`, modulo the bank count.
pub proof fn lemma_mbc5_bank_select(
    first: &GameBoyCore,
    second: &GameBoyCore,
    third: &GameBoyCore,
    low_address: u32,
    low: u8,
    high_address: u32,
    high: u8,
)
    requires
        is_rom_bank_mask(first.rom.properties.bank_select_mask),
        0x2000 <= low_address < 0x3000,
        0x3000 <= high_address < 0x4000,
        first.mbc5_written_into(second, low_address, low),
        second.mbc5_written_into(third, high_address, high),
    ensures
        ({
            let banks = first.rom.properties.bank_select_mask + 1;
            &&& second.rom.bank_offset % 0x0040_0000 == 0x4000 * ((low as int) % banks)
            &&& third.rom.bank_offset == 0x4000 * (((high % 2) * 256 + (second.rom.bank_offset / 0x4000) % 256) % banks)
            &&& third.rom.bank_offset == 0x4000 * (((high % 2) * 256 + low) % banks)
        }),
{
    let mask = first.rom.properties.bank_select_mask;
    vstd::bits::lemma_u8_low_bits_mask_is_mod(high, 1);
    vstd::bits::lemma_low_bits_mask_values();
    vstd::arithmetic::power2::lemma2_to64();
    assert(high & 0x01 == high % 2);
    let high_bit = (high % 2) as u32;
    let low_bits = ((low as u32) & mask) as u32;
    crate::bits::lemma_small_masks(low, mask);
    assert(low_bits <= 255);
    assert(mul32(low_bits, 0x4000) == low_bits * 0x4000);
    assert(mul32(mask, 0x4000) == mask * 0x4000);
    lemma_mbc5_bank_bits(
        first.rom.bank_offset,
        low as u32,
        high_bit,
        mask,
        (mask + 1) as u32,
        (low_bits * 0x4000) as u32,
        (high_bit * 0x0040_0000) as u32,
        (mask * 0x4000) as u32,
        (high_bit * 256 + low) as u32,
        (high_bit * 256 + (first.rom.bank_offset / 0x4000) % 256) as u32,
    );
    lemma_mbc5_bank_bits(
        second.rom.bank_offset,
        low as u32,
        high_bit,
        mask,
        (mask + 1) as u32,
        (low_bits * 0x4000) as u32,
        (high_bit * 0x0040_0000) as u32,
        (mask * 0x4000) as u32,
        (high_bit * 256 + low) as u32,
        (high_bit * 256 + (second.rom.bank_offset / 0x4000) % 256) as u32,
    );
}

/// A write to cartridge ROM space goes to the bank controller.
pub fn write_mbc(core: &mut GameBoyCore, address: u16, value: u8)
    ensures
        old(core).mbc_written_into(final(core), address, value),
{
    let address = address as u32;
    match core.rom.properties.mbc {
        MemoryBankController::RomOnly => {},
        MemoryBankController::Mbc1 => write_mbc1(core, address, value),
        MemoryBankController::Mbc2 => write_mbc2(core, address, value),
        MemoryBankController::Mbc3 => write_mbc3(core, address, value),
        MemoryBankController::Mbc5 => write_mbc5(core, address, value),
        MemoryBankController::Mbc4 | MemoryBankController::Mmm01 => {
            if address < 0x2000 {
                core.sram.enable_flag = value & 0x0f == 0x0a;
            }
        },
    }
}

/// `ports` with port `index` set to `value`, if there is such a port.
pub open spec fn with_port(ports: Seq<u8>, index: int, value: u8) -> Seq<u8> {
    if 0 <= index < ports.len() {
        ports.update(index, value)
    } else {
        ports
    }
}

impl GameBoyCore {
    /// `new` is `self` with the I/O ports replaced by `ports` and nothing else changed.
    pub open spec fn ports_became(&self, new: &Self, ports: Seq<u8>) -> bool {
        &&& *new == (GameBoyCore { memory: new.memory, ..*self })
        &&& new.memory.io_ports@ == ports
        &&& new.memory.rom == self.memory.rom
        &&& new.memory.wram == self.memory.wram
        &&& new.memory.vram == self.memory.vram
        &&& new.memory.oam == self.memory.oam
        &&& new.memory.tile_set == self.memory.tile_set
    }
}

/// The counter bit that timer control value `tac` watches: bit 9, 3, 5 or 7.
pub open spec fn timer_bit(tac: u8) -> u16 {
    let select = tac & 0x03;
    if select == 0 {
        0x0200
    } else if select == 1 {
        0x0008
    } else if select == 2 {
        0x0020
    } else {
        0x0080
    }
}

/// Whether the counter bit that `tac` watches is set.
pub open spec fn spec_selected_timer_bit(counter: u16, tac: u8) -> bool {
    counter & timer_bit(tac) != 0
}

/// The timer's input: enabled and the watched counter bit set. A falling edge of it counts.
pub open spec fn spec_timer_edge_signal(counter: u16, tac: u8) -> bool {
    tac & 0x04 != 0 && spec_selected_timer_bit(counter, tac)
}

impl GameBoyCore {
    /// `new` is `self` after the timer counter TIMA counted once: nothing while a reload is
    /// pending; an overflow to 0 starts the reload delay.
    pub open spec fn timer_counted_into(&self, new: &Self) -> bool {
        if self.cpu_timing.tima_reload_delay != 0 {
            self.ports_became(new, self.memory.io_ports@)
        } else {
            let next = ((port(self, TIMA_IO_INDEX as int) + 1) % 256) as u8;
            &&& *new == (GameBoyCore {
                memory: new.memory,
                cpu_timing: crate::cpu::CpuTiming {
                    tima_reload_delay: if next == 0 { TIMER_RELOAD_DELAY_M_CYCLES } else { 0 },
                    ..self.cpu_timing
                },
                ..*self
            })
            &&& new.memory.io_ports@ == with_port(self.memory.io_ports@, TIMA_IO_INDEX as int, next)
            &&& new.memory.rom == self.memory.rom
            &&& new.memory.wram == self.memory.wram
            &&& new.memory.vram == self.memory.vram
            &&& new.memory.oam == self.memory.oam
            &&& new.memory.tile_set == self.memory.tile_set
        }
    }
}

/// Whether the counter bit that `tac` watches is set.
fn selected_timer_bit(core: &GameBoyCore, tac: u8) -> (set: bool)
    ensures
        set == spec_selected_timer_bit(core.cpu_timing.system_counter, tac),
{
    let select = tac & 0x03;
    let bit: u16 = if select == 0 {
        0x0200
    } else if select == 1 {
        0x0008
    } else if select == 2 {
        0x0020
    } else {
        0x0080
    };
    core.cpu_timing.system_counter & bit != 0
}

/// The timer's input signal under timer control value `tac`.
fn timer_edge_signal(core: &GameBoyCore, tac: u8) -> (signal: bool)
    ensures
        signal == spec_timer_edge_signal(core.cpu_timing.system_counter, tac),
{
    tac & 0x04 != 0 && selected_timer_bit(core, tac)
}

/// Counts TIMA once, unless a reload is pending; an overflow starts the reload delay.
fn increment_timer_counter(core: &mut GameBoyCore)
    requires
        old(core).wf(),
    ensures
        final(core).wf(),
        old(core).timer_counted_into(final(core)),
{
    if core.cpu_timing.tima_reload_delay != 0 {
        return ;
    }
    let timer = core.memory.io_ports[TIMA_IO_INDEX];
    let next_timer = timer.wrapping_add(1);
    core.memory.write_io_port(TIMA_IO_INDEX, next_timer);
    if next_timer == 0 {
        core.cpu_timing.tima_reload_delay = TIMER_RELOAD_DELAY_M_CYCLES;
    } else {
        core.cpu_timing.tima_reload_delay = 0;
    }
}

/// Counts TIMA when the timer input fell from `old_signal`.
fn tick_timer_on_falling_edge(core: &mut GameBoyCore, old_signal: bool)
    requires
        old(core).wf(),
    ensures
        final(core).wf(),
        (old_signal && !spec_timer_edge_signal(old(core).cpu_timing.system_counter, port(old(core), TAC_IO_INDEX as int)))
            ==> old(core).timer_counted_into(final(core)),
        !(old_signal && !spec_timer_edge_signal(old(core).cpu_timing.system_counter, port(old(core), TAC_IO_INDEX as int)))
            ==> *final(core) == *old(core),
{
    let new_signal = timer_edge_signal(core, core.memory.io_ports[TAC_IO_INDEX]);
    if old_signal && !new_signal {
        increment_timer_counter(core);
    }
}

/// The DIV register is the high byte of the system counter.
pub open spec fn divider_of(counter: u16) -> u8 {
    (counter / 256) as u8
}

impl GameBoyCore {
    /// `new` is `self` after the system counter moved on by `clocks` clocks: DIV follows, and a
    /// falling timer input counts TIMA.
    pub open spec fn counter_advanced_into(&self, new: &Self, clocks: u16) -> bool {
        let tac = port(self, TAC_IO_INDEX as int);
        let counter = ((self.cpu_timing.system_counter + clocks) % 65536) as u16;
        let old_signal = spec_timer_edge_signal(self.cpu_timing.system_counter, tac);
        let fell = old_signal && !spec_timer_edge_signal(counter, tac);
        let ports = with_port(self.memory.io_ports@, DIV_IO_INDEX as int, divider_of(counter));
        let next = ((ports[TIMA_IO_INDEX as int] + 1) % 256) as u8;
        let counts = fell && self.cpu_timing.tima_reload_delay == 0;
        &&& *new == (GameBoyCore {
            memory: new.memory,
            cpu_timing: crate::cpu::CpuTiming {
                system_counter: counter,
                tima_reload_delay: if counts && next == 0 {
                    TIMER_RELOAD_DELAY_M_CYCLES
                } else {
                    self.cpu_timing.tima_reload_delay
                },
                ..self.cpu_timing
            },
            ..*self
        })
        &&& new.memory.io_ports@ == if counts { with_port(ports, TIMA_IO_INDEX as int, next) } else { ports }
        &&& new.memory.rom == self.memory.rom
        &&& new.memory.wram == self.memory.wram
        &&& new.memory.vram == self.memory.vram
        &&& new.memory.oam == self.memory.oam
        &&& new.memory.tile_set == self.memory.tile_set
    }
}

/// Moves the system counter on by `clocks` clocks, updating DIV and counting TIMA on a falling
/// timer input.
fn advance_system_counter(core: &mut GameBoyCore, clocks: u16)
    requires
        old(core).wf(),
    ensures
        final(core).wf(),
        old(core).counter_advanced_into(final(core), clocks),
{
    let tac = core.memory.io_ports[TAC_IO_INDEX];
    let old_signal = timer_edge_signal(core, tac);
    core.cpu_timing.system_counter = core.cpu_timing.system_counter.wrapping_add(clocks);
    let divider = (core.cpu_timing.system_counter / 256) as u8;
    core.memory.write_io_port(DIV_IO_INDEX, divider);
    tick_timer_on_falling_edge(core, old_signal);
}

/// Ends a pending TIMA reload after its delay: TIMA takes TMA and the timer interrupt is
/// requested.
fn finish_pending_timer_reload(core: &mut GameBoyCore)
    requires
        old(core).wf(),
    ensures
        final(core).wf(),
        old(core).cpu_timing.tima_reload_delay == 0 ==> *final(core) == *old(core),
        old(core).cpu_timing.tima_reload_delay > 1 ==> *final(core) == (GameBoyCore {
            cpu_timing: crate::cpu::CpuTiming {
                tima_reload_delay: (old(core).cpu_timing.tima_reload_delay - 1) as u8,
                ..old(core).cpu_timing
            },
            ..*old(core)
        }),
        old(core).cpu_timing.tima_reload_delay == 1 ==> {
            &&& *final(core) == (GameBoyCore {
                memory: final(core).memory,
                cpu_timing: crate::cpu::CpuTiming { tima_reload_delay: 0, ..old(core).cpu_timing },
                ..*old(core)
            })
            &&& final(core).memory.io_ports@ == with_port(
                with_port(old(core).memory.io_ports@, TIMA_IO_INDEX as int, port(old(core), TMA_IO_INDEX as int)),
                IF_IO_INDEX as int,
                port(old(core), IF_IO_INDEX as int) | INTERRUPT_TIMER,
            )
            &&& final(core).memory.rom == old(core).memory.rom
            &&& final(core).memory.wram == old(core).memory.wram
            &&& final(core).memory.vram == old(core).memory.vram
            &&& final(core).memory.oam == old(core).memory.oam
            &&& final(core).memory.tile_set == old(core).memory.tile_set
        },
{
    if core.cpu_timing.tima_reload_delay == 0 {
        return ;
    }
    core.cpu_timing.tima_reload_delay = core.cpu_timing.tima_reload_delay - 1;
    if core.cpu_timing.tima_reload_delay != 0 {
        return ;
    }
    let modulo = core.memory.io_ports[TMA_IO_INDEX];
    core.memory.write_io_port(TIMA_IO_INDEX, modulo);
    let interrupt_flags = core.memory.io_ports[IF_IO_INDEX] | INTERRUPT_TIMER;
    core.memory.write_io_port(IF_IO_INDEX, interrupt_flags);
}

/// The timer's changing state: the system counter, the pending reload delay, TIMA and IF.
pub struct TimerState {
    pub counter: u16,
    pub reload_delay: u8,
    pub tima: u8,
    pub interrupt_flags: u8,
}

/// The timer state held in `core`.
pub open spec fn timer_state_of(core: &GameBoyCore) -> TimerState {
    TimerState {
        counter: core.cpu_timing.system_counter,
        reload_delay: core.cpu_timing.tima_reload_delay,
        tima: port(core, TIMA_IO_INDEX as int),
        interrupt_flags: port(core, IF_IO_INDEX as int),
    }
}

/// The start of a machine cycle: a pending reload counts down, and when it ends TIMA takes
/// `tma` and the timer interrupt is requested.
pub open spec fn reload_finished(t: TimerState, tma: u8) -> TimerState {
    if t.reload_delay == 0 {
        t
    } else if t.reload_delay > 1 {
        TimerState { reload_delay: (t.reload_delay - 1) as u8, ..t }
    } else {
        TimerState { reload_delay: 0, tima: tma, interrupt_flags: t.interrupt_flags | INTERRUPT_TIMER, ..t }
    }
}

/// The counter moved on by `clocks` clocks under timer control `tac`: a falling timer input
/// counts TIMA unless a reload is pending, and an overflow to 0 starts the reload delay.
pub open spec fn counter_moved(t: TimerState, tac: u8, clocks: u16) -> TimerState {
    let counter = ((t.counter + clocks) % 65536) as u16;
    let fell = spec_timer_edge_signal(t.counter, tac) && !spec_timer_edge_signal(counter, tac);
    let counts = fell && t.reload_delay == 0;
    let next = ((t.tima + 1) % 256) as u8;
    TimerState {
        counter,
        reload_delay: if counts && next == 0 { TIMER_RELOAD_DELAY_M_CYCLES } else { t.reload_delay },
        tima: if counts { next } else { t.tima },
        interrupt_flags: t.interrupt_flags,
    }
}

/// The timer state after `cycles` whole machine cycles.
pub open spec fn timer_cycles(t: TimerState, tac: u8, tma: u8, cycles: nat) -> TimerState
    decreases cycles,
{
    if cycles == 0 {
        t
    } else {
        counter_moved(reload_finished(timer_cycles(t, tac, tma, (cycles - 1) as nat), tma), tac, 4)
    }
}

/// The timer state after `clocks` clocks: whole machine cycles, then the remainder.
pub open spec fn timer_run(t: TimerState, tac: u8, tma: u8, clocks: u16) -> TimerState {
    let whole = timer_cycles(t, tac, tma, (clocks / 4) as nat);
    if clocks % 4 != 0 {
        counter_moved(whole, tac, clocks % 4)
    } else {
        whole
    }
}

/// The I/O ports `ports` showing timer state `t`: TIMA, IF and DIV.
pub open spec fn with_timer_ports(ports: Seq<u8>, t: TimerState) -> Seq<u8> {
    with_port(
        with_port(with_port(ports, TIMA_IO_INDEX as int, t.tima), IF_IO_INDEX as int, t.interrupt_flags),
        DIV_IO_INDEX as int,
        divider_of(t.counter),
    )
}

/// The number of clocks between two counts of TIMA for the rate that timer control `tac`
/// selects: 4096, 262144, 65536 or 16384 counts a second at the 4194304 Hz clock.
pub open spec fn timer_period(tac: u8) -> int {
    let select = tac % 4;
    if select == 0 {
        1024
    } else if select == 1 {
        16
    } else if select == 2 {
        64
    } else {
        256
    }
}

/// How a watched counter bit falls as the counter moves on by one machine cycle.
proof fn lemma_counter_bit_falls(counter: u16, next: u16)
    by (bit_vector)
    requires
        counter % 4 == 0,
        counter < 65532 ==> next == counter + 4,
        counter == 65532 ==> next == 0,
    ensures
        (counter & 0x0200 != 0 && next & 0x0200 == 0) == (next % 1024 == 0),
        (counter & 0x0008 != 0 && next & 0x0008 == 0) == (next % 16 == 0),
        (counter & 0x0020 != 0 && next & 0x0020 == 0) == (next % 64 == 0),
        (counter & 0x0080 != 0 && next & 0x0080 == 0) == (next % 256 == 0),
{
}

/// Law: with the timer enabled, TIMA counts exactly when a machine cycle takes the system
/// counter to a multiple of the selected period (1024, 16, 64 or 256 clocks for timer control
/// select 0 to 3), so it counts once per period; with the timer disabled it never counts. No
/// reload pending, a count adds one to TIMA (wrapping to 0 and starting the reload).
pub proof fn lemma_timer_counts_once_per_period(t: TimerState, tac: u8)
    requires
        t.counter % 4 == 0,
        t.reload_delay == 0,
    ensures
        ({
            let counts = tac & 0x04 != 0 && (t.counter + 4) % timer_period(tac) == 0;
            let moved = counter_moved(t, tac, 4);
            &&& moved.counter == (t.counter + 4) % 65536
            &&& moved.tima == if counts { (t.tima + 1) % 256 } else { t.tima as int }
            &&& moved.reload_delay == if counts && t.tima == 255 { TIMER_RELOAD_DELAY_M_CYCLES } else { 0 }
            &&& moved.interrupt_flags == t.interrupt_flags
        }),
{
    let next = ((t.counter + 4) % 65536) as u16;
    lemma_counter_bit_falls(t.counter, next);
    vstd::bits::lemma_u8_low_bits_mask_is_mod(tac, 2);
    vstd::bits::lemma_low_bits_mask_values();
    vstd::arithmetic::power2::lemma2_to64();
    assert(tac & 0x03 == tac % 4);
}

/// What running the system counter for `clocks` clocks does: the timer runs as `timer_run`
/// says, starting from TAC and TMA as they were, and the ports show its TIMA, IF and DIV;
/// nothing else changes.
pub open spec fn system_counter_stepped(before: &GameBoyCore, after: &GameBoyCore, clocks: u16) -> bool {
    let t = timer_run(
        timer_state_of(before),
        port(before, TAC_IO_INDEX as int),
        port(before, TMA_IO_INDEX as int),
        clocks,
    );
    &&& after.cpu_timing.system_counter == (before.cpu_timing.system_counter + clocks) % 65536
    &&& *after == (GameBoyCore { memory: after.memory, cpu_timing: after.cpu_timing, ..*before })
    &&& after.cpu_timing == (crate::cpu::CpuTiming {
        system_counter: t.counter,
        tima_reload_delay: t.reload_delay,
        ..before.cpu_timing
    })
    &&& after.cpu_timing.clocks_acc == before.cpu_timing.clocks_acc
    &&& after.cpu_timing.clock_frequency_hz == before.cpu_timing.clock_frequency_hz
    &&& after.memory.io_ports@ == if clocks == 0 {
        before.memory.io_ports@
    } else {
        with_timer_ports(before.memory.io_ports@, t)
    }
    &&& after.memory.rom == before.memory.rom
    &&& after.memory.wram == before.memory.wram
    &&& after.memory.vram == before.memory.vram
    &&& after.memory.oam == before.memory.oam
    &&& after.memory.tile_set == before.memory.tile_set
    &&& port(after, DIV_IO_INDEX as int) == divider_of(after.cpu_timing.system_counter) || (clocks == 0 && port(
        after,
        DIV_IO_INDEX as int,
    ) == port(before, DIV_IO_INDEX as int))
}

/// Runs the system counter for `clocks` clocks: for each whole machine cycle a pending TIMA
/// reload moves on and the counter advances by four; a remainder advances it once more.
pub fn step_system_counter(core: &mut GameBoyCore, clocks: u16)
    requires
        old(core).wf(),
    ensures
        final(core).wf(),
        system_counter_stepped(old(core), final(core), clocks),
{
    let ghost start = timer_state_of(core);
    let ghost tac = port(core, TAC_IO_INDEX as int);
    let ghost tma = port(core, TMA_IO_INDEX as int);
    let ghost ports = core.memory.io_ports@;
    let machine_cycles = clocks / 4;
    let remainder = clocks % 4;
    let mut cycle: u16 = 0;
    while cycle < machine_cycles
        invariant
            core.wf(),
            cycle <= machine_cycles,
            machine_cycles == clocks / 4,
            start == timer_state_of(old(core)),
            tac == port(old(core), TAC_IO_INDEX as int),
            tma == port(old(core), TMA_IO_INDEX as int),
            ports == old(core).memory.io_ports@,
            ports.len() == IO_PORT_BYTES,
            core.cpu_timing.system_counter == (old(core).cpu_timing.system_counter + 4 * cycle) % 65536,
            timer_state_of(core) == timer_cycles(start, tac, tma, cycle as nat),
            core.cpu_timing == (crate::cpu::CpuTiming {
                system_counter: timer_cycles(start, tac, tma, cycle as nat).counter,
                tima_reload_delay: timer_cycles(start, tac, tma, cycle as nat).reload_delay,
                ..old(core).cpu_timing
            }),
            port(core, TAC_IO_INDEX as int) == tac,
            port(core, TMA_IO_INDEX as int) == tma,
            *core == (GameBoyCore { memory: core.memory, cpu_timing: core.cpu_timing, ..*old(core) }),
            core.memory.rom == old(core).memory.rom,
            core.memory.wram == old(core).memory.wram,
            core.memory.vram == old(core).memory.vram,
            core.memory.oam == old(core).memory.oam,
            core.memory.tile_set == old(core).memory.tile_set,
            cycle > 0 ==> core.memory.io_ports@ == with_timer_ports(ports, timer_cycles(start, tac, tma, cycle as nat)),
            cycle == 0 ==> core.memory.io_ports@ == ports,
        decreases machine_cycles - cycle,
    {
        let ghost here = timer_state_of(core);
        finish_pending_timer_reload(core);
        assert(timer_state_of(core) == reload_finished(here, tma));
        let ghost mid = *core;
        advance_system_counter(core, 4);
        assert(timer_state_of(core) == counter_moved(reload_finished(here, tma), tac, 4));
        assert(core.memory.io_ports@ =~= with_timer_ports(ports, timer_cycles(start, tac, tma, (cycle + 1) as nat)));
        cycle += 1;
    }
    assert(timer_state_of(core) == timer_cycles(start, tac, tma, (clocks / 4) as nat));
    if remainder != 0 {
        let ghost whole = timer_state_of(core);
        advance_system_counter(core, remainder);
        assert(timer_state_of(core) == counter_moved(whole, tac, remainder));
        assert(core.memory.io_ports@ =~= with_timer_ports(ports, timer_run(start, tac, tma, clocks)));
        assert(port(core, DIV_IO_INDEX as int) == divider_of(core.cpu_timing.system_counter));
    } else if machine_cycles == 0 {
        assert(clocks == 0);
    }
}

/// What `write_divider` does, as a relation between the core before and after.
pub open spec fn divider_written(before: &GameBoyCore, after: &GameBoyCore) -> bool {
    &&& (({
        let tac = port(before, TAC_IO_INDEX as int);
        let fell = spec_timer_edge_signal(before.cpu_timing.system_counter, tac);
        let ports = with_port(before.memory.io_ports@, DIV_IO_INDEX as int, 0);
        let next = ((ports[TIMA_IO_INDEX as int] + 1) % 256) as u8;
        let counts = fell && before.cpu_timing.tima_reload_delay == 0;
        &&& *after == (GameBoyCore {
            memory: after.memory,
            cpu_timing: crate::cpu::CpuTiming {
                system_counter: 0,
                tima_reload_delay: if counts && next == 0 {
                    TIMER_RELOAD_DELAY_M_CYCLES
                } else {
                    before.cpu_timing.tima_reload_delay
                },
                ..before.cpu_timing
            },
            ..*before
        })
        &&& after.memory.io_ports@ == if counts { with_port(ports, TIMA_IO_INDEX as int, next) } else { ports }
        &&& after.memory.rom == before.memory.rom
        &&& after.memory.wram == before.memory.wram
        &&& after.memory.vram == before.memory.vram
        &&& after.memory.oam == before.memory.oam
        &&& after.memory.tile_set == before.memory.tile_set
    }))
}
/// Writing DIV clears the system counter; the timer counts if that makes its input fall.
fn write_divider(core: &mut GameBoyCore)
    requires
        old(core).wf(),
    ensures
        final(core).wf(),
        divider_written(old(core), final(core)),
{
    let old_signal = timer_edge_signal(core, core.memory.io_ports[TAC_IO_INDEX]);
    core.cpu_timing.system_counter = 0;
    core.memory.write_io_port(DIV_IO_INDEX, 0);
    assert(!spec_timer_edge_signal(0, port(core, TAC_IO_INDEX as int))) by {
        assert(0u16 & timer_bit(port(core, TAC_IO_INDEX as int)) == 0) by (bit_vector);
    }
    tick_timer_on_falling_edge(core, old_signal);
}

/// Whether writing timer control `new_tac` over `old_tac` counts TIMA: on the Color model when
/// a still-enabled timer stops watching a set bit, else when the timer input falls.
pub open spec fn spec_tac_write_ticks(cgb: bool, counter: u16, old_tac: u8, new_tac: u8) -> bool {
    if cgb {
        spec_selected_timer_bit(counter, old_tac) && !spec_selected_timer_bit(counter, new_tac) && new_tac & 0x04 != 0
    } else {
        spec_timer_edge_signal(counter, old_tac) && !spec_timer_edge_signal(counter, new_tac)
    }
}

/// What `write_timer_control` does, as a relation between the core before and after.
pub open spec fn timer_control_written(before: &GameBoyCore, after: &GameBoyCore, value: u8) -> bool {
    &&& (({
        let new_tac = value & 0x07;
        let ticks = spec_tac_write_ticks(
            before.rom.properties.cgb_flag,
            before.cpu_timing.system_counter,
            port(before, TAC_IO_INDEX as int),
            new_tac,
        );
        let ports = with_port(before.memory.io_ports@, TAC_IO_INDEX as int, new_tac);
        let next = ((ports[TIMA_IO_INDEX as int] + 1) % 256) as u8;
        let counts = ticks && before.cpu_timing.tima_reload_delay == 0;
        &&& *after == (GameBoyCore {
            memory: after.memory,
            cpu_timing: crate::cpu::CpuTiming {
                tima_reload_delay: if counts && next == 0 {
                    TIMER_RELOAD_DELAY_M_CYCLES
                } else {
                    before.cpu_timing.tima_reload_delay
                },
                ..before.cpu_timing
            },
            ..*before
        })
        &&& after.memory.io_ports@ == if counts { with_port(ports, TIMA_IO_INDEX as int, next) } else { ports }
        &&& after.memory.rom == before.memory.rom
        &&& after.memory.wram == before.memory.wram
        &&& after.memory.vram == before.memory.vram
        &&& after.memory.oam == before.memory.oam
        &&& after.memory.tile_set == before.memory.tile_set
    }))
}
/// Writing TAC keeps its low three bits and may count TIMA once.
fn write_timer_control(core: &mut GameBoyCore, value: u8)
    requires
        old(core).wf(),
    ensures
        final(core).wf(),
        timer_control_written(old(core), final(core), value),
{
    let old_tac = core.memory.io_ports[TAC_IO_INDEX];
    let new_tac = value & 0x07;
    let should_tick = if core.rom.properties.cgb_flag {
        selected_timer_bit(core, old_tac) && !selected_timer_bit(core, new_tac) && new_tac & 0x04 != 0
    } else {
        timer_edge_signal(core, old_tac) && !timer_edge_signal(core, new_tac)
    };
    core.memory.write_io_port(TAC_IO_INDEX, new_tac);
    if should_tick {
        increment_timer_counter(core);
    }
}

impl GameBoyCore {
    /// `new` is `self` after a write of `value` to SC: a transfer starts or stops; with the
    /// internal clock it takes 512 clocks (16 in fast mode on the Color model), and the
    /// original models read the fast-clock bit back as set.
    pub open spec fn serial_control_written_into(&self, new: &Self, value: u8) -> bool {
        let control = value & 0x83;
        let starts = value & 0x80 != 0;
        let internal = value & 0x01 != 0;
        let cgb = self.rom.properties.cgb_flag;
        let sc = if starts && internal && !cgb { control | 0x02 } else { control };
        &&& *new == (GameBoyCore { memory: new.memory, serial: new.serial, ..*self })
        &&& new.memory.io_ports@ == with_port(self.memory.io_ports@, SC_IO_INDEX as int, sc)
        &&& new.memory.rom == self.memory.rom
        &&& new.memory.wram == self.memory.wram
        &&& new.memory.vram == self.memory.vram
        &&& new.memory.oam == self.memory.oam
        &&& new.memory.tile_set == self.memory.tile_set
        &&& new.serial == if !starts {
            crate::cpu::SerialState { is_transferring: false, request: false, ..self.serial }
        } else if internal {
            crate::cpu::SerialState {
                is_transferring: true,
                clock_is_external: false,
                timer: if cgb && value & 0x02 != 0 { 16 } else { 512 },
                ..self.serial
            }
        } else {
            crate::cpu::SerialState { is_transferring: true, clock_is_external: true, timer: 1, ..self.serial }
        }
    }
}

/// Writes SC, the serial control register.
fn write_serial_control(core: &mut GameBoyCore, value: u8)
    requires
        old(core).wf(),
    ensures
        final(core).wf(),
        old(core).serial_control_written_into(final(core), value),
{
    if value & 0x80 != 0 {
        core.serial.is_transferring = true;
        if value & 0x01 != 0 {
            core.serial.clock_is_external = false;
            core.serial.timer = 512;
            if !core.rom.properties.cgb_flag {
                core.memory.write_io_port(SC_IO_INDEX, (value & 0x83) | 0x02);
            } else {
                core.memory.write_io_port(SC_IO_INDEX, value & 0x83);
                if value & 0x02 != 0 {
                    core.serial.timer = core.serial.timer / 32;
                }
            }
        } else {
            core.memory.write_io_port(SC_IO_INDEX, value & 0x83);
            core.serial.clock_is_external = true;
            core.serial.timer = 1;
        }
    } else {
        core.memory.write_io_port(SC_IO_INDEX, value & 0x83);
        core.serial.is_transferring = false;
        core.serial.request = false;
    }
}

/// What `write_boot_lock` does, as a relation between the core before and after.
pub open spec fn boot_lock_written(before: &GameBoyCore, after: &GameBoyCore, value: u8) -> bool {
    &&& (before.ports_became(
        after,
        if port(before, BOOT_IO_INDEX as int) & 0x01 == 0 && value & 0x01 != 0 {
            with_port(before.memory.io_ports@, BOOT_IO_INDEX as int, 0x01)
        } else {
            before.memory.io_ports@
        },
    ))
}
/// The boot ROM switch only goes from mapped to unmapped.
fn write_boot_lock(core: &mut GameBoyCore, value: u8)
    requires
        old(core).wf(),
    ensures
        final(core).wf(),
        boot_lock_written(old(core), final(core), value),
{
    let boot_off = core.memory.io_ports[BOOT_IO_INDEX] & 0x01 != 0;
    if !boot_off && value & 0x01 != 0 {
        core.memory.write_io_port(BOOT_IO_INDEX, 0x01);
    }
}

impl GameBoyCore {
    /// `new` is `self` after a write of `value` to LCDC: switching the display off opens VRAM
    /// and OAM and enters H-blank on line 0; switching it on starts an OAM scan of line 0 and
    /// a new frame.
    pub open spec fn lcd_control_written_into(&self, new: &Self, value: u8) -> bool {
        let was_enabled = port(self, LCDC_IO_INDEX as int) & 0x80 != 0;
        let will_be_enabled = value & 0x80 != 0;
        let stat = port(self, STAT_IO_INDEX as int) & 0xfc;
        &&& new.memory.rom == self.memory.rom
        &&& new.memory.wram == self.memory.wram
        &&& new.memory.vram == self.memory.vram
        &&& new.memory.oam == self.memory.oam
        &&& new.memory.tile_set == self.memory.tile_set
        &&& if !will_be_enabled {
            &&& *new == (GameBoyCore {
                memory: new.memory,
                memory_access: crate::gpu::MemoryAccess { vram: true, oam: true, ..self.memory_access },
                gpu_timing: crate::gpu::GpuTiming {
                    blanked_screen: false,
                    time_in_mode: 0,
                    line_scan_vram_clocks: 172,
                    ..self.gpu_timing
                },
                gpu_mode: crate::gpu::GpuMode::HBlank,
                ..*self
            })
            &&& new.memory.io_ports@ == with_port(
                with_port(with_port(self.memory.io_ports@, STAT_IO_INDEX as int, stat), LY_IO_INDEX as int, 0),
                LCDC_IO_INDEX as int,
                value,
            )
        } else if !was_enabled {
            &&& *new == (GameBoyCore {
                memory: new.memory,
                memory_access: crate::gpu::MemoryAccess { vram: true, oam: false, ..self.memory_access },
                gpu_timing: crate::gpu::GpuTiming {
                    blanked_screen: false,
                    time_in_mode: 0,
                    line_scan_vram_clocks: 172,
                    ..self.gpu_timing
                },
                gpu_mode: crate::gpu::GpuMode::ScanOam,
                video_frame: new.video_frame,
                ..*self
            })
            &&& new.video_frame.frame_in_progress
            &&& new.video_frame.pixels == self.video_frame.pixels
            &&& new.memory.io_ports@ == with_port(
                with_port(with_port(self.memory.io_ports@, STAT_IO_INDEX as int, stat | 0x02), LY_IO_INDEX as int, 0),
                LCDC_IO_INDEX as int,
                value,
            )
        } else {
            self.ports_became(new, with_port(self.memory.io_ports@, LCDC_IO_INDEX as int, value))
        }
    }
}

/// Writes LCDC, switching the display off or on where bit 7 changes.
fn write_lcd_control(core: &mut GameBoyCore, value: u8)
    requires
        old(core).wf(),
    ensures
        final(core).wf(),
        old(core).lcd_control_written_into(final(core), value),
{
    let was_enabled = core.memory.io_ports[LCDC_IO_INDEX] & 0x80 != 0;
    let will_be_enabled = value & 0x80 != 0;
    if !will_be_enabled {
        core.memory_access.vram = true;
        core.memory_access.oam = true;
        core.gpu_timing.blanked_screen = false;
        core.gpu_timing.time_in_mode = 0;
        core.gpu_timing.line_scan_vram_clocks = 172;
        core.gpu_mode = crate::gpu::GpuMode::HBlank;
        let stat = core.memory.io_ports[STAT_IO_INDEX] & 0xfc;
        core.memory.write_io_port(STAT_IO_INDEX, stat);
        core.memory.write_io_port(LY_IO_INDEX, 0);
    } else if !was_enabled {
        core.memory_access.oam = false;
        core.memory_access.vram = true;
        core.gpu_timing.blanked_screen = false;
        core.gpu_timing.time_in_mode = 0;
        core.gpu_timing.line_scan_vram_clocks = 172;
        core.gpu_mode = crate::gpu::GpuMode::ScanOam;
        let stat = core.memory.io_ports[STAT_IO_INDEX] & 0xfc;
        core.memory.write_io_port(STAT_IO_INDEX, stat | 0x02);
        core.memory.write_io_port(LY_IO_INDEX, 0);
        core.video_frame.begin_frame();
    }
    core.memory.write_io_port(LCDC_IO_INDEX, value);
}

impl GameBoyCore {
    /// `new` is `self` with only the I/O ports and the Color palette state changed.
    pub open spec fn palette_state_became(&self, new: &Self) -> bool {
        &&& *new == (GameBoyCore {
            memory: new.memory,
            cgb_palette_registers: new.cgb_palette_registers,
            palettes: new.palettes,
            ..*self
        })
        &&& new.memory.rom == self.memory.rom
        &&& new.memory.wram == self.memory.wram
        &&& new.memory.vram == self.memory.vram
        &&& new.memory.oam == self.memory.oam
        &&& new.memory.tile_set == self.memory.tile_set
        &&& new.palettes == (crate::palettes::PaletteState { cgb_bg: new.palettes.cgb_bg, cgb_obj: new.palettes.cgb_obj, ..self.palettes })
    }
}

/// What `write_cgb_palette_index` does, as a relation between the core before and after.
pub open spec fn palette_index_written(before: &GameBoyCore, after: &GameBoyCore, objects: bool, value: u8) -> bool {
    &&& (!before.rom.properties.cgb_flag ==> *after == *before)
    &&& (before.rom.properties.cgb_flag ==> {
        let registers = before.cgb_palette_registers;
        let index = (value & 0x3f) as u32;
        let increment = if value & 0x80 != 0 { 1u32 } else { 0u32 };
        &&& before.palette_state_became(after)
        &&& after.palettes == before.palettes
        &&& after.memory.io_ports@ == with_port(
            before.memory.io_ports@,
            if objects { OCPS_IO_INDEX as int } else { BCPS_IO_INDEX as int },
            value & 0xbf,
        )
        &&& after.cgb_palette_registers == if objects {
            crate::palettes::CgbPaletteRegisters { obj_index: index, obj_increment: increment, ..registers }
        } else {
            crate::palettes::CgbPaletteRegisters { bg_index: index, bg_increment: increment, ..registers }
        }
    })
}
/// Writes a Color palette index register (BCPS or OCPS): the index and the auto-increment bit.
fn write_cgb_palette_index(core: &mut GameBoyCore, objects: bool, value: u8)
    requires
        old(core).wf(),
    ensures
        final(core).wf(),
        palette_index_written(old(core), final(core), objects, value),
{
    if !core.rom.properties.cgb_flag {
        return ;
    }
    let increment: u32 = if value & 0x80 != 0 {
        1
    } else {
        0
    };
    if objects {
        core.memory.write_io_port(OCPS_IO_INDEX, value & 0xbf);
        core.cgb_palette_registers.obj_index = (value & 0x3f) as u32;
        core.cgb_palette_registers.obj_increment = increment;
    } else {
        core.memory.write_io_port(BCPS_IO_INDEX, value & 0xbf);
        core.cgb_palette_registers.bg_index = (value & 0x3f) as u32;
        core.cgb_palette_registers.bg_increment = increment;
    }
}

/// A Color palette memory after `value` is stored at `index`, if that is inside it.
pub open spec fn palette_data_written(data: Seq<u8>, index: u32, value: u8) -> Seq<u8> {
    if index < 64 { data.update(index as int, value) } else { data }
}

/// The 32 colours of a Color palette memory after the pair holding `index` was written: that
/// pair's colour is recomputed.
pub open spec fn palette_colours_written(colours: Seq<u32>, data: Seq<u8>, index: u32) -> Seq<u32> {
    if index < 64 {
        let pair = (index / 2) as int;
        colours.update(pair, spec_remap_555_8888(data[2 * pair] as u32, data[2 * pair + 1] as u32))
    } else {
        colours
    }
}

/// The index register value after a data write: one on, wrapping at 64, with auto-increment.
pub open spec fn palette_index_after(index: u32, increment: u32) -> u32 {
    if increment != 0 { ((index + 1) % 64) as u32 } else { index }
}

/// What `write_cgb_palette_data` does, as a relation between the core before and after.
pub open spec fn palette_data_written_into(before: &GameBoyCore, after: &GameBoyCore, objects: bool, value: u8) -> bool {
    &&& (!before.rom.properties.cgb_flag ==> *after == *before)
    &&& (before.rom.properties.cgb_flag ==> {
        let registers = before.cgb_palette_registers;
        let index = if objects { registers.obj_index } else { registers.bg_index };
        let increment = if objects { registers.obj_increment } else { registers.bg_increment };
        let select_index = if objects { OCPS_IO_INDEX as int } else { BCPS_IO_INDEX as int };
        let new_index = palette_index_after(index, increment);
        &&& before.palette_state_became(after)
        &&& if objects {
            &&& after.cgb_palette_registers == (crate::palettes::CgbPaletteRegisters {
                obj_data: after.cgb_palette_registers.obj_data,
                obj_index: new_index,
                ..registers
            })
            &&& after.cgb_palette_registers.obj_data@ == palette_data_written(registers.obj_data@, index, value)
            &&& after.palettes.cgb_obj@ == palette_colours_written(
                before.palettes.cgb_obj@,
                after.cgb_palette_registers.obj_data@,
                index,
            )
            &&& after.palettes.cgb_bg == before.palettes.cgb_bg
        } else {
            &&& after.cgb_palette_registers == (crate::palettes::CgbPaletteRegisters {
                bg_data: after.cgb_palette_registers.bg_data,
                bg_index: new_index,
                ..registers
            })
            &&& after.cgb_palette_registers.bg_data@ == palette_data_written(registers.bg_data@, index, value)
            &&& after.palettes.cgb_bg@ == palette_colours_written(
                before.palettes.cgb_bg@,
                after.cgb_palette_registers.bg_data@,
                index,
            )
            &&& after.palettes.cgb_obj == before.palettes.cgb_obj
        }
        &&& after.memory.io_ports@ == if increment != 0 {
            with_port(
                before.memory.io_ports@,
                select_index,
                (port(before, select_index) & 0x80) | (new_index as u8),
            )
        } else {
            before.memory.io_ports@
        }
    })
}
/// Writes Color palette data (BCPD or OCPD) at the palette index: the byte, the colour of its
/// pair, and the index moving on with auto-increment.
fn write_cgb_palette_data(core: &mut GameBoyCore, objects: bool, value: u8)
    requires
        old(core).wf(),
    ensures
        final(core).wf(),
        palette_data_written_into(old(core), final(core), objects, value),
{
    if !core.rom.properties.cgb_flag {
        return ;
    }
    let index = if objects {
        core.cgb_palette_registers.obj_index
    } else {
        core.cgb_palette_registers.bg_index
    };
    if index < 64 {
        let i = index as usize;
        let pair = (index / 2) as usize;
        if objects {
            core.cgb_palette_registers.obj_data[i] = value;
            let lo = core.cgb_palette_registers.obj_data[2 * pair];
            let hi = core.cgb_palette_registers.obj_data[2 * pair + 1];
            core.palettes.cgb_obj[pair] = remap_555_8888(lo, hi);
        } else {
            core.cgb_palette_registers.bg_data[i] = value;
            let lo = core.cgb_palette_registers.bg_data[2 * pair];
            let hi = core.cgb_palette_registers.bg_data[2 * pair + 1];
            core.palettes.cgb_bg[pair] = remap_555_8888(lo, hi);
        }
    }
    let increment = if objects {
        core.cgb_palette_registers.obj_increment
    } else {
        core.cgb_palette_registers.bg_increment
    };
    if increment != 0 {
        let next = (index % 64 + 1) % 64;
        assert(next == (index + 1) % 64);
        let select_index = if objects {
            OCPS_IO_INDEX
        } else {
            BCPS_IO_INDEX
        };
        if objects {
            core.cgb_palette_registers.obj_index = next;
        } else {
            core.cgb_palette_registers.bg_index = next;
        }
        let select = core.memory.io_ports[select_index] & 0x80;
        core.memory.write_io_port(select_index, select | (next as u8));
    }
    proof {
        if index < 64 {
            if objects {
                assert(core.cgb_palette_registers.obj_data@ =~= palette_data_written(old(core).cgb_palette_registers.obj_data@, index, value));
                assert(core.palettes.cgb_obj@ =~= palette_colours_written(
                    old(core).palettes.cgb_obj@,
                    core.cgb_palette_registers.obj_data@,
                    index,
                ));
            } else {
                assert(core.cgb_palette_registers.bg_data@ =~= palette_data_written(old(core).cgb_palette_registers.bg_data@, index, value));
                assert(core.palettes.cgb_bg@ =~= palette_colours_written(
                    old(core).palettes.cgb_bg@,
                    core.cgb_palette_registers.bg_data@,
                    index,
                ));
            }
        }
    }
}

/// What `write_key1` does, as a relation between the core before and after.
pub open spec fn key1_written(before: &GameBoyCore, after: &GameBoyCore, value: u8) -> bool {
    &&& (before.ports_became(
        after,
        if before.rom.properties.cgb_flag {
            with_port(
                before.memory.io_ports@,
                KEY1_IO_INDEX as int,
                (port(before, KEY1_IO_INDEX as int) & 0x80) | (value & 0x01),
            )
        } else {
            before.memory.io_ports@
        },
    ))
}
/// KEY1 keeps the current speed bit and takes the prepare bit (Color model only).
fn write_key1(core: &mut GameBoyCore, value: u8)
    requires
        old(core).wf(),
    ensures
        final(core).wf(),
        key1_written(old(core), final(core), value),
{
    if !core.rom.properties.cgb_flag {
        return ;
    }
    let current_speed = core.memory.io_ports[KEY1_IO_INDEX] & 0x80;
    core.memory.write_io_port(KEY1_IO_INDEX, current_speed | (value & 0x01));
}

/// What `write_vram_bank` does, as a relation between the core before and after.
pub open spec fn vram_bank_written(before: &GameBoyCore, after: &GameBoyCore, value: u8) -> bool {
    &&& (!before.rom.properties.cgb_flag ==> *after == *before)
    &&& (before.rom.properties.cgb_flag ==> {
        &&& *after == (GameBoyCore {
            memory: after.memory,
            memory_access: crate::gpu::MemoryAccess {
                vram_bank_offset: ((value & 0x01) as u32 * 0x2000) as u32,
                ..before.memory_access
            },
            ..*before
        })
        &&& after.memory.io_ports@ == with_port(before.memory.io_ports@, VBK_IO_INDEX as int, value & 0x01)
        &&& after.memory.rom == before.memory.rom
        &&& after.memory.wram == before.memory.wram
        &&& after.memory.vram == before.memory.vram
        &&& after.memory.oam == before.memory.oam
        &&& after.memory.tile_set == before.memory.tile_set
    })
}
/// VBK selects VRAM bank 0 or 1 (Color model only).
fn write_vram_bank(core: &mut GameBoyCore, value: u8)
    requires
        old(core).wf(),
    ensures
        final(core).wf(),
        vram_bank_written(old(core), final(core), value),
{
    if !core.rom.properties.cgb_flag {
        return ;
    }
    let bank = value & 0x01;
    proof {
        crate::bits::lemma_byte_fields(value);
    }
    core.memory.write_io_port(VBK_IO_INDEX, bank);
    core.memory_access.vram_bank_offset = bank as u32 * 0x2000;
}

/// What `write_wram_bank` does, as a relation between the core before and after.
pub open spec fn wram_bank_written(before: &GameBoyCore, after: &GameBoyCore, value: u8) -> bool {
    &&& (!before.rom.properties.cgb_flag ==> *after == *before)
    &&& (before.rom.properties.cgb_flag ==> {
        let bank = value & 0x07;
        &&& *after == (GameBoyCore {
            memory: after.memory,
            memory_access: crate::gpu::MemoryAccess {
                wram_bank_offset: ((if bank == 0 { 1u32 } else { bank as u32 }) * 0x1000) as u32,
                ..before.memory_access
            },
            ..*before
        })
        &&& after.memory.io_ports@ == with_port(before.memory.io_ports@, SVBK_IO_INDEX as int, bank)
        &&& after.memory.rom == before.memory.rom
        &&& after.memory.wram == before.memory.wram
        &&& after.memory.vram == before.memory.vram
        &&& after.memory.oam == before.memory.oam
        &&& after.memory.tile_set == before.memory.tile_set
    })
}
/// SVBK selects WRAM bank 1 to 7 for 0xd000 (0 selects 1; Color model only).
fn write_wram_bank(core: &mut GameBoyCore, value: u8)
    requires
        old(core).wf(),
    ensures
        final(core).wf(),
        wram_bank_written(old(core), final(core), value),
{
    if !core.rom.properties.cgb_flag {
        return ;
    }
    let selected = value & 0x07;
    proof {
        crate::bits::lemma_byte_fields(value);
    }
    let bank: u32 = if selected == 0 {
        1
    } else {
        selected as u32
    };
    core.memory.write_io_port(SVBK_IO_INDEX, selected);
    core.memory_access.wram_bank_offset = bank * 0x1000;
}

/// What `start_oam_dma` does, as a relation between the core before and after.
pub open spec fn oam_dma_started(before: &GameBoyCore, after: &GameBoyCore, value: u8) -> bool {
    &&& (*after == (GameBoyCore {
        memory: after.memory,
        dma: crate::dma::DmaState {
            oam: crate::dma::OamDmaState { pending_source_high: Some(value), ..before.dma.oam },
            ..before.dma
        },
        ..*before
    }))
    &&& (after.memory.io_ports@ == with_port(before.memory.io_ports@, DMA_IO_INDEX as int, value))
    &&& (after.memory.rom == before.memory.rom)
    &&& (after.memory.wram == before.memory.wram)
    &&& (after.memory.vram == before.memory.vram)
    &&& (after.memory.oam == before.memory.oam)
    &&& (after.memory.tile_set == before.memory.tile_set)
}
/// Writing DMA records the source page; the transfer starts on the next machine cycle.
fn start_oam_dma(core: &mut GameBoyCore, value: u8)
    requires
        old(core).wf(),
    ensures
        final(core).wf(),
        oam_dma_started(old(core), final(core), value),
{
    core.memory.write_io_port(DMA_IO_INDEX, value);
    core.dma.oam.pending_source_high = Some(value);
}

/// What `write_audio_register` does, as a relation between the core before and after.
pub open spec fn audio_register_written(before: &GameBoyCore, after: &GameBoyCore, index: usize, value: u8) -> bool {
    &&& (({
        let first = with_port(
            before.memory.io_ports@,
            index as int,
            if index == NR52_IO_INDEX {
                (value & 0x80) | 0x70 | before.audio_unit.spec_channel_status_bits()
            } else {
                value
            },
        );
        &&& before.audio_unit.register_written_into(&after.audio_unit, index, value, first)
        &&& after.memory.io_ports@ == with_port(
            first,
            NR52_IO_INDEX as int,
            (first[NR52_IO_INDEX as int] & 0x80) | 0x70 | after.audio_unit.spec_channel_status_bits(),
        )
        &&& *after == (GameBoyCore { memory: after.memory, audio_unit: after.audio_unit, ..*before })
        &&& after.memory.rom == before.memory.rom
        &&& after.memory.wram == before.memory.wram
        &&& after.memory.vram == before.memory.vram
        &&& after.memory.oam == before.memory.oam
        &&& after.memory.tile_set == before.memory.tile_set
    }))
}
/// Writes a sound register: the port (NR52 keeps its read-only bits), then the sound unit,
/// then NR52 again with the channels' running bits.
fn write_audio_register(core: &mut GameBoyCore, index: usize, value: u8)
    requires
        old(core).wf(),
        index < 0x80,
    ensures
        final(core).wf(),
        audio_register_written(old(core), final(core), index, value),
{
    if index == NR52_IO_INDEX {
        let status = (value & 0x80) | 0x70 | core.audio_unit.channel_status_bits();
        core.memory.write_io_port(NR52_IO_INDEX, status);
    } else {
        core.memory.write_io_port(index, value);
    }
    core.audio_unit.write_register(index, value, core.memory.io_ports.as_slice());
    let status = audio_status_register_value(core.audio_unit.channel_status_bits(), core.memory.io_ports.as_slice());
    core.memory.write_io_port(NR52_IO_INDEX, status);
}

/// The joypad interrupt is requested when a low-nibble line goes from 1 to 0.
pub open spec fn joypad_falls(old_joyp: u8, new_joyp: u8) -> bool {
    old_joyp & !new_joyp & JOYP_LOW_NIBBLE_MASK != 0
}

/// The Super Game Boy's controller number after a probe step: one down, wrapping from 0x0c to
/// 0x0f.
pub open spec fn next_joypad_id(id: u32) -> u32 {
    let down = if id == 0 { 0u32 } else { (id - 1) as u32 };
    if down < 0x0c { 0x0f } else { down }
}

/// Whether the command receiver can count one more bit without its counters overflowing.
pub open spec fn receiver_ready(sgb: &crate::sgb::SgbState) -> bool {
    sgb.read_command_bits < i32::MAX && sgb.read_command_bytes < i32::MAX
}

/// The end of a command pulse while a command is read: the packet is finished if all of its
/// bytes arrived (unless a controller request's count is at its limit), and then the receiver
/// waits for the stop bit.
pub open spec fn packet_ended(
    before: &crate::sgb::SgbState,
    after: &crate::sgb::SgbState,
    memory: &crate::memory::GameBoyMemory,
) -> bool {
    let ready = before.read_command_bits == 0 && before.read_command_bytes >= 16;
    let finishes = before.command != crate::sgb::SGBCOM_MLT_REQ || before.command_bytes@[0]@[1] < u32::MAX;
    let finished = if ready {
        crate::sgb::SgbState {
            awaiting_stop_bit: before.awaiting_stop_bit,
            stop_bit_received: before.stop_bit_received,
            ..*after
        }
    } else {
        *after
    };
    &&& finishes ==> before.packet_finished_if_ready(&finished, memory)
    &&& !finishes ==> finished == *before
    &&& ready ==> after.awaiting_stop_bit && !after.stop_bit_received
}

/// What `write_joyp` does, as a relation between the core before and after.
pub open spec fn joyp_written(before: &GameBoyCore, after: &GameBoyCore, value: u8) -> bool {
    &&& (({
        let old_joyp = port(before, JOYP_IO_INDEX as int);
        let old_select = old_joyp & JOYP_SELECT_MASK;
        let select = value & JOYP_SELECT_MASK;
        let new_joyp = spec_joyp_value(before, select);
        let ports = with_port(before.memory.io_ports@, JOYP_IO_INDEX as int, new_joyp);
        let sgb = before.rom.properties.sgb_flag;
        &&& *after == (GameBoyCore { memory: after.memory, sgb: after.sgb, ..*before })
        &&& after.memory.io_ports@ == if joypad_falls(old_joyp, new_joyp) {
            with_port(ports, IF_IO_INDEX as int, port(before, IF_IO_INDEX as int) | INTERRUPT_JOYPAD)
        } else {
            ports
        }
        &&& after.memory.rom == before.memory.rom
        &&& after.memory.wram == before.memory.wram
        &&& after.memory.vram == before.memory.vram
        &&& after.memory.oam == before.memory.oam
        &&& after.memory.tile_set == before.memory.tile_set
        &&& !sgb ==> after.sgb == before.sgb
        &&& (sgb && select == 0) ==> before.sgb.command_begun(&after.sgb)
        &&& (sgb && select == JOYP_SELECT_DIRECTIONS && old_select != select && !before.sgb.awaiting_stop_bit)
            ==> if receiver_ready(&before.sgb) {
            before.sgb.command_bit_received(&after.sgb, 0)
        } else {
            after.sgb == before.sgb
        }
        &&& (sgb && select == JOYP_SELECT_BUTTONS && old_select != select) ==> if receiver_ready(&before.sgb) {
            before.sgb.command_bit_received(&after.sgb, 1)
        } else {
            after.sgb == before.sgb
        }
        &&& (sgb && select == JOYP_SELECT_DIRECTIONS && old_select != select && before.sgb.awaiting_stop_bit)
            ==> after.sgb == (crate::sgb::SgbState { stop_bit_received: true, ..before.sgb })
        &&& (sgb && select == JOYP_SELECT_NONE && before.sgb.awaiting_stop_bit) ==> after.sgb
            == if before.sgb.stop_bit_received {
            crate::sgb::SgbState { awaiting_stop_bit: false, stop_bit_received: false, ..before.sgb }
        } else {
            before.sgb
        }
        &&& (sgb && select == JOYP_SELECT_NONE && !before.sgb.awaiting_stop_bit && before.sgb.reading_command)
            ==> packet_ended(&before.sgb, &after.sgb, &before.memory)
        &&& (sgb && select == JOYP_SELECT_NONE && !before.sgb.awaiting_stop_bit && !before.sgb.reading_command
            && before.sgb.mult_enabled && old_select < JOYP_SELECT_NONE) ==> after.sgb == (crate::sgb::SgbState {
            read_joypad_id: next_joypad_id(before.sgb.read_joypad_id),
            ..before.sgb
        })
        &&& (sgb && select == JOYP_SELECT_NONE && !before.sgb.awaiting_stop_bit && !before.sgb.reading_command
            && !(before.sgb.mult_enabled && old_select < JOYP_SELECT_NONE)) ==> after.sgb == before.sgb
        &&& (sgb && select != 0 && select != JOYP_SELECT_NONE && old_select == select) ==> after.sgb
            == before.sgb
        &&& after.sgb.read_joypad_id == before.sgb.read_joypad_id || (sgb && select == JOYP_SELECT_NONE)
    }))
}
/// Writes JOYP: the select bits pick the row the CPU reads, a line going low requests the
/// joypad interrupt, and on a Super Game Boy the select pulses carry command packets and step
/// the controller probe.
#[verifier::spinoff_prover]
#[verifier::rlimit(50)]
fn write_joyp(core: &mut GameBoyCore, value: u8)
    requires
        old(core).wf(),
    ensures
        final(core).wf(),
        joyp_written(old(core), final(core), value),
{
    let old_joyp = core.memory.io_ports[JOYP_IO_INDEX];
    let old_select = old_joyp & JOYP_SELECT_MASK;
    let select = value & JOYP_SELECT_MASK;
    if core.rom.properties.sgb_flag {
        let receiver_ok = core.sgb.read_command_bits < i32::MAX && core.sgb.read_command_bytes < i32::MAX;
        if select == 0x00 {
            core.sgb.begin_command();
        } else if select == JOYP_SELECT_DIRECTIONS && old_select != select {
            if core.sgb.awaiting_stop_bit {
                core.sgb.stop_bit_received = true;
            } else if receiver_ok {
                core.sgb.receive_command_bit(0);
            }
        } else if select == JOYP_SELECT_BUTTONS && old_select != select {
            if receiver_ok {
                core.sgb.receive_command_bit(1);
            }
        } else if select == JOYP_SELECT_NONE {
            if core.sgb.awaiting_stop_bit {
                if core.sgb.stop_bit_received {
                    core.sgb.awaiting_stop_bit = false;
                    core.sgb.stop_bit_received = false;
                }
            } else if core.sgb.reading_command {
                let ready = core.sgb.read_command_bits == 0 && core.sgb.read_command_bytes >= 16;
                if core.sgb.command != crate::sgb::SGBCOM_MLT_REQ || core.sgb.command_bytes[0][1] < u32::MAX {
                    core.sgb.finish_packet_if_ready(&core.memory);
                }
                if ready {
                    core.sgb.awaiting_stop_bit = true;
                    core.sgb.stop_bit_received = false;
                }
            } else if core.sgb.mult_enabled && old_select < JOYP_SELECT_NONE {
                let mut id = core.sgb.read_joypad_id.saturating_sub(1);
                if id < 0x0c {
                    id = 0x0f;
                }
                core.sgb.read_joypad_id = id;
            }
        }
    }
    let new_joyp = joyp_value(core, select);
    core.memory.write_io_port(JOYP_IO_INDEX, new_joyp);
    if joypad_low_nibble_falling_edge(old_joyp, new_joyp) {
        let interrupt_flags = core.memory.io_ports[IF_IO_INDEX] | INTERRUPT_JOYPAD;
        core.memory.write_io_port(IF_IO_INDEX, interrupt_flags);
    }
}

/// `value` clamped to the range of `i32`.
pub open spec fn saturating_i32(value: int) -> i32 {
    if value > i32::MAX {
        i32::MAX
    } else if value < i32::MIN {
        i32::MIN
    } else {
        value as i32
    }
}

/// `a + b` held within the range of `i32`.
pub fn saturating_add_i32(a: i32, b: i32) -> (sum: i32)
    ensures
        sum == saturating_i32(a + b),
{
    match a.checked_add(b) {
        Some(sum) => sum,
        None => if b > 0 {
            i32::MAX
        } else {
            i32::MIN
        },
    }
}

fn saturating_mul_i32(a: i32, b: i32) -> (product: i32)
    requires
        a >= 0,
        b >= 0,
    ensures
        product == saturating_i32(a * b),
{
    match a.checked_mul(b) {
        Some(product) => product,
        None => {
            assert(a * b >= 0) by (nonlinear_arith)
                requires
                    a >= 0,
                    b >= 0,
            ;
            i32::MAX
        },
    }
}

/// The HDMA source address in HDMA1 and HDMA2.
pub open spec fn spec_hdma_source(core: &GameBoyCore) -> u16 {
    (port(core, HDMA1_IO_INDEX as int) * 256 + port(core, HDMA2_IO_INDEX as int)) as u16
}

/// The HDMA destination offset in VRAM from HDMA3 and HDMA4 (below 0x2000).
pub open spec fn spec_hdma_destination_offset(core: &GameBoyCore) -> int {
    (port(core, HDMA3_IO_INDEX as int) * 256 + port(core, HDMA4_IO_INDEX as int)) % 0x2000
}

/// The four HDMA address registers after a block copy that ended at `source` and the VRAM
/// offset `destination`: the source and destination are kept to whole 16-byte rows.
pub open spec fn hdma_registers_after(ports: Seq<u8>, source: u16, destination: int) -> Seq<u8> {
    with_port(
        with_port(
            with_port(
                with_port(ports, HDMA1_IO_INDEX as int, (source / 256) as u8),
                HDMA2_IO_INDEX as int,
                ((source % 256) / 16 * 16) as u8,
            ),
            HDMA3_IO_INDEX as int,
            (destination / 256) as u8,
        ),
        HDMA4_IO_INDEX as int,
        ((destination % 256) / 16 * 16) as u8,
    )
}

/// Whether an H-blank HDMA is running: Color model, HDMA5 not 0xff and its bit 7 clear.
pub open spec fn spec_hblank_dma_active(core: &GameBoyCore) -> bool {
    core.rom.properties.cgb_flag && port(core, HDMA5_IO_INDEX as int) != 0xff && port(core, HDMA5_IO_INDEX as int)
        & 0x80 == 0
}

impl GameBoyCore {
    /// `new` differs from `self` at most in VRAM, the decoded tiles and the I/O ports.
    pub open spec fn only_video_memory_became(&self, new: &Self) -> bool {
        &&& *new == (GameBoyCore { memory: new.memory, ..*self })
        &&& new.memory.rom == self.memory.rom
        &&& new.memory.wram == self.memory.wram
        &&& new.memory.oam == self.memory.oam
        &&& new.memory.vram@.len() == self.memory.vram@.len()
        &&& new.memory.tile_set@.len() == self.memory.tile_set@.len()
    }
}

/// The VRAM index that byte `j` of an HDMA copy to VRAM offset `offset` lands on: in the
/// selected bank, wrapping within it.
pub open spec fn hdma_destination_index(core: &GameBoyCore, offset: int, j: int) -> int {
    core.memory_access.vram_bank_offset + (offset + j) % 0x2000
}

/// Whether VRAM index `k` is one of the first `count` destinations of a copy to `offset` in
/// the bank at `bank`.
pub open spec fn hdma_index_written(bank: int, offset: int, count: int, k: int) -> bool {
    bank <= k < bank + 0x2000 && (k - bank - offset) % 0x2000 < count
}

/// Byte `j` of a copy from `source`: when it is read from outside VRAM and lands inside VRAM,
/// the destination holds what the memory map gave at that address before the copy.
pub open spec fn hdma_byte_landed(before: &GameBoyCore, after: &GameBoyCore, source: int, offset: int, j: int) -> bool {
    let address = ((source + j) % 65536) as u16;
    let index = hdma_destination_index(before, offset, j);
    (!(0x8000 <= address < 0xa000) && index < before.memory.vram@.len()) ==> after.memory.vram@[index]
        == spec_read8_unrestricted(before, address)
}

/// VRAM after copying `count` bytes from `source` to VRAM offset `offset`: each byte read
/// from outside VRAM landed, and the bytes that no copy reached are as they were.
pub open spec fn hdma_copied(before: &GameBoyCore, after: &GameBoyCore, source: int, offset: int, count: int) -> bool {
    &&& after.memory.vram@.len() == before.memory.vram@.len()
    &&& forall|j: int| 0 <= j < count ==> #[trigger] hdma_byte_landed(before, after, source, offset, j)
    &&& forall|k: int|
        0 <= k < before.memory.vram@.len() && !hdma_index_written(
            before.memory_access.vram_bank_offset as int,
            offset,
            count,
            k,
        ) ==> #[trigger] after.memory.vram@[k] == before.memory.vram@[k]
}

/// Whether HDMA may copy from the source in `core`: not from VRAM, and below 0xe000.
pub open spec fn hdma_source_allowed(core: &GameBoyCore) -> bool {
    !(0x8000 <= spec_hdma_source(core) < 0xa000) && spec_hdma_source(core) < 0xe000
}

/// VRAM after an HDMA copy of `count` bytes from the registers of `before`; none from a
/// source that is not allowed.
pub open spec fn hdma_block_copied(before: &GameBoyCore, after: &GameBoyCore, count: int) -> bool {
    if hdma_source_allowed(before) {
        hdma_copied(before, after, spec_hdma_source(before) as int, spec_hdma_destination_offset(before), count)
    } else {
        after.memory.vram@ == before.memory.vram@
    }
}

/// A read outside VRAM does not see changes to VRAM or the decoded tiles.
proof fn lemma_read_ignores_video_memory(before: &GameBoyCore, after: &GameBoyCore, address: u16)
    requires
        before.only_video_memory_became(after),
        after.memory.io_ports == before.memory.io_ports,
        !(0x8000 <= address < 0xa000),
    ensures
        spec_read8_unrestricted(after, address) == spec_read8_unrestricted(before, address),
{
}

/// The copy's destinations, one per byte, within the bank: index `k` is among the first
/// `count + 1` exactly when it is among the first `count` or is the destination of byte `count`.
proof fn lemma_hdma_destinations(bank: int, offset: int, count: int, k: int)
    requires
        0 <= offset < 0x2000,
        0 <= count < 0x2000,
    ensures
        hdma_index_written(bank, offset, count + 1, k) <==> (hdma_index_written(bank, offset, count, k) || k == bank
            + (offset + count) % 0x2000),
{
}

/// A copy stays described once only the registers and the DMA state change afterwards.
proof fn lemma_hdma_block_copied_kept(before: &GameBoyCore, copied: &GameBoyCore, after: &GameBoyCore, count: int)
    requires
        hdma_block_copied(before, copied, count),
        after.memory.vram@ == copied.memory.vram@,
    ensures
        hdma_block_copied(before, after, count),
{
    if hdma_source_allowed(before) {
        assert forall|j: int| 0 <= j < count implies #[trigger] hdma_byte_landed(
            before,
            after,
            spec_hdma_source(before) as int,
            spec_hdma_destination_offset(before),
            j,
        ) by {
            assert(hdma_byte_landed(
                before,
                copied,
                spec_hdma_source(before) as int,
                spec_hdma_destination_offset(before),
                j,
            ));
        }
    }
}

/// Copies `byte_count` bytes from the HDMA source to VRAM at the HDMA destination (in the
/// selected VRAM bank, wrapping within it) and leaves both addresses after the copy; nothing
/// happens from a source in VRAM or at 0xe000 and up.
#[verifier::spinoff_prover]
#[verifier::rlimit(40)]
fn transfer_hdma_block(core: &mut GameBoyCore, byte_count: usize)
    requires
        old(core).wf(),
        byte_count <= 0x800,
    ensures
        final(core).wf(),
        !(!(0x8000 <= spec_hdma_source(old(core)) < 0xa000) && spec_hdma_source(old(core)) < 0xe000) ==> *final(core)
            == *old(core),
        (!(0x8000 <= spec_hdma_source(old(core)) < 0xa000) && spec_hdma_source(old(core)) < 0xe000) ==> {
            &&& old(core).only_video_memory_became(final(core))
            &&& final(core).memory.io_ports@ == hdma_registers_after(
                old(core).memory.io_ports@,
                ((spec_hdma_source(old(core)) + byte_count) % 65536) as u16,
                (spec_hdma_destination_offset(old(core)) + byte_count) % 0x2000,
            )
            &&& hdma_copied(
                old(core),
                final(core),
                spec_hdma_source(old(core)) as int,
                spec_hdma_destination_offset(old(core)),
                byte_count as int,
            )
        },
{
    let ports = &core.memory.io_ports;
    let mut source: u16 = (ports[HDMA1_IO_INDEX] as u16) * 256 + ports[HDMA2_IO_INDEX] as u16;
    if !valid_hdma_source(source) {
        return ;
    }
    let mut offset: u16 = ((ports[HDMA3_IO_INDEX] as u16) * 256 + ports[HDMA4_IO_INDEX] as u16) % 0x2000;
    let ghost start_source = source as int;
    let ghost start_offset = offset as int;
    let ghost bank = core.memory_access.vram_bank_offset as int;
    let mut copied: usize = 0;
    while copied < byte_count
        invariant
            core.wf(),
            copied <= byte_count,
            byte_count <= 0x800,
            old(core).only_video_memory_became(core),
            core.memory.io_ports == old(core).memory.io_ports,
            source == (start_source + copied) % 65536,
            offset == (start_offset + copied) % 0x2000,
            offset < 0x2000,
            0 <= start_offset < 0x2000,
            bank == old(core).memory_access.vram_bank_offset,
            hdma_copied(old(core), core, start_source, start_offset, copied as int),
        decreases byte_count - copied,
    {
        let ghost here = *core;
        let value = read8_unrestricted(core, source);
        proof {
            if !(0x8000 <= source < 0xa000) {
                lemma_read_ignores_video_memory(old(core), &here, source);
            }
        }
        let vram_bank_offset = core.memory_access.vram_bank_offset;
        core.memory.write_vram(vram_bank_offset, 0x8000 + offset, value);
        proof {
            let index = bank + offset;
            let address = (0x8000 + offset) as u16;
            vstd::bits::lemma_u16_low_bits_mask_is_mod(address, 13);
            vstd::bits::lemma_low_bits_mask_values();
            vstd::arithmetic::power2::lemma2_to64();
            assert(address & 0x1fff == offset);
            assert(index == hdma_destination_index(old(core), start_offset, copied as int));
            assert forall|j: int| 0 <= j < copied + 1 implies #[trigger] hdma_byte_landed(
                old(core),
                core,
                start_source,
                start_offset,
                j,
            ) by {
                if j < copied {
                    assert(hdma_byte_landed(old(core), &here, start_source, start_offset, j));
                    assert((start_offset + j) % 0x2000 != (start_offset + copied) % 0x2000);
                }
            }
            assert forall|k: int|
                0 <= k < old(core).memory.vram@.len() && !hdma_index_written(
                    bank,
                    start_offset,
                    copied + 1,
                    k,
                ) implies #[trigger] core.memory.vram@[k] == old(core).memory.vram@[k] by {
                lemma_hdma_destinations(bank, start_offset, copied as int, k);
                assert(here.memory.vram@[k] == old(core).memory.vram@[k]);
            }
        }
        source = source.wrapping_add(1);
        offset = (offset + 1) % 0x2000;
        copied += 1;
    }
    let ghost copied_core = *core;
    core.memory.write_io_port(HDMA1_IO_INDEX, (source / 256) as u8);
    core.memory.write_io_port(HDMA2_IO_INDEX, ((source % 256) / 16 * 16) as u8);
    core.memory.write_io_port(HDMA3_IO_INDEX, (offset / 256) as u8);
    core.memory.write_io_port(HDMA4_IO_INDEX, ((offset % 256) / 16 * 16) as u8);
    assert forall|j: int| 0 <= j < byte_count implies #[trigger] hdma_byte_landed(
        old(core),
        core,
        start_source,
        start_offset,
        j,
    ) by {
        assert(hdma_byte_landed(old(core), &copied_core, start_source, start_offset, j));
    }
}

/// Stalls the CPU for `blocks` HDMA blocks: eight machine cycles each, doubled in fast mode.
fn add_vram_dma_cpu_halt(core: &mut GameBoyCore, blocks: usize)
    ensures
        ({
            let block_count = if blocks <= i32::MAX { blocks as i32 } else { (i32::MAX / HDMA_BLOCK_M_CYCLES) as i32 };
            let speed = if old(core).gpu_timing.clock_factor < 1 { 1i32 } else { old(core).gpu_timing.clock_factor };
            let cycles = saturating_i32(saturating_i32(block_count * HDMA_BLOCK_M_CYCLES) * speed);
            *final(core) == (GameBoyCore {
                dma: crate::dma::DmaState {
                    vram: crate::dma::VramDmaState {
                        cpu_halt_m_cycles: saturating_i32(old(core).dma.vram.cpu_halt_m_cycles + cycles),
                    },
                    ..old(core).dma
                },
                ..*old(core)
            })
        }),
{
    let block_count: i32 = if blocks <= i32::MAX as usize {
        blocks as i32
    } else {
        i32::MAX / HDMA_BLOCK_M_CYCLES
    };
    let speed = if core.gpu_timing.clock_factor < 1 {
        1
    } else {
        core.gpu_timing.clock_factor
    };
    let cycles = saturating_mul_i32(saturating_mul_i32(block_count, HDMA_BLOCK_M_CYCLES), speed);
    core.dma.vram.cpu_halt_m_cycles = saturating_add_i32(core.dma.vram.cpu_halt_m_cycles, cycles);
}

/// Whether an H-blank HDMA is running.
fn hblank_dma_active(core: &GameBoyCore) -> (active: bool)
    requires
        core.wf(),
    ensures
        active == spec_hblank_dma_active(core),
{
    core.rom.properties.cgb_flag && core.memory.io_ports[HDMA5_IO_INDEX] != 0xff && core.memory.io_ports[HDMA5_IO_INDEX]
        & 0x80 == 0
}

/// What `write_hdma5` does, as a relation between the core before and after.
pub open spec fn hdma5_written(before: &GameBoyCore, after: &GameBoyCore, value: u8) -> bool {
    &&& (!before.rom.properties.cgb_flag ==> *after == *before)
    &&& (before.rom.properties.cgb_flag && value & 0x80 != 0 ==> before.ports_became(
        after,
        with_port(before.memory.io_ports@, HDMA5_IO_INDEX as int, value & 0x7f),
    ))
    &&& (before.rom.properties.cgb_flag && value & 0x80 == 0 && spec_hblank_dma_active(before) ==> before.ports_became(
        after,
        with_port(
            before.memory.io_ports@,
            HDMA5_IO_INDEX as int,
            port(before, HDMA5_IO_INDEX as int) | 0x80,
        ),
    ))
    &&& (before.rom.properties.cgb_flag && value & 0x80 == 0 && !spec_hblank_dma_active(before) ==> {
        &&& port(after, HDMA5_IO_INDEX as int) == 0xff
        &&& hdma_block_copied(before, after, ((value & 0x7f) + 1) * HDMA_BLOCK_BYTES)
        &&& after.memory.rom == before.memory.rom
        &&& after.memory.wram == before.memory.wram
        &&& after.memory.oam == before.memory.oam
        &&& *after == (GameBoyCore { memory: after.memory, dma: after.dma, ..*before })
        &&& after.dma.oam == before.dma.oam
    })
}
/// Writes HDMA5 (Color model only): bit 7 clear copies `length + 1` blocks at once, or stops
/// a running H-blank copy; bit 7 set starts an H-blank copy of `length + 1` blocks.
fn write_hdma5(core: &mut GameBoyCore, value: u8)
    requires
        old(core).wf(),
    ensures
        final(core).wf(),
        hdma5_written(old(core), final(core), value),
{
    if !core.rom.properties.cgb_flag {
        return ;
    }
    if value & 0x80 == 0 {
        if hblank_dma_active(core) {
            let hdma5 = core.memory.io_ports[HDMA5_IO_INDEX] | 0x80;
            core.memory.write_io_port(HDMA5_IO_INDEX, hdma5);
            return ;
        }
        let length = value & 0x7f;
        proof {
            crate::bits::lemma_byte_fields(value);
        }
        let blocks = length as usize + 1;
        let ghost before = *core;
        transfer_hdma_block(core, blocks * HDMA_BLOCK_BYTES);
        let ghost copied = *core;
        add_vram_dma_cpu_halt(core, blocks);
        core.memory.write_io_port(HDMA5_IO_INDEX, 0xff);
        proof {
            lemma_hdma_block_copied_kept(&before, &copied, core, (blocks * HDMA_BLOCK_BYTES) as int);
        }
    } else {
        core.memory.write_io_port(HDMA5_IO_INDEX, value & 0x7f);
    }
}

/// What `run_hblank_dma` does, as a relation between the core before and after.
pub open spec fn hblank_dma_ran(before: &GameBoyCore, after: &GameBoyCore) -> bool {
    &&& (before.cpu_mode == crate::cpu::CpuMode::Halted || !spec_hblank_dma_active(before)) ==> *after
            == *before
    &&& (before.cpu_mode != crate::cpu::CpuMode::Halted && spec_hblank_dma_active(before)) ==> {
            let remaining = port(before, HDMA5_IO_INDEX as int) & 0x7f;
            &&& port(after, HDMA5_IO_INDEX as int) == if remaining == 0 { 0xffu8 } else { (remaining - 1) as u8 }
            &&& after.memory.rom == before.memory.rom
            &&& after.memory.wram == before.memory.wram
            &&& after.memory.oam == before.memory.oam
            &&& *after == (GameBoyCore { memory: after.memory, dma: after.dma, ..*before })
            &&& after.dma.oam == before.dma.oam
            &&& hdma_block_copied(before, after, HDMA_BLOCK_BYTES as int)
            &&& after.memory.io_ports@ == with_port(
                if hdma_source_allowed(before) {
                    hdma_registers_after(
                        before.memory.io_ports@,
                        ((spec_hdma_source(before) + HDMA_BLOCK_BYTES) % 65536) as u16,
                        (spec_hdma_destination_offset(before) + HDMA_BLOCK_BYTES) % 0x2000,
                    )
                } else {
                    before.memory.io_ports@
                },
                HDMA5_IO_INDEX as int,
                if remaining == 0 { 0xffu8 } else { (remaining - 1) as u8 },
            )
            &&& after.dma.vram.cpu_halt_m_cycles == saturating_i32(
                before.dma.vram.cpu_halt_m_cycles + saturating_i32(
                    saturating_i32(HDMA_BLOCK_M_CYCLES as int) * (if before.gpu_timing.clock_factor < 1 {
                        1i32
                    } else {
                        before.gpu_timing.clock_factor
                    }),
                ),
            )
            &&& after.memory.io_ports@.len() == before.memory.io_ports@.len()
            &&& forall|index: int|
                (0 <= index < HDMA1_IO_INDEX || HDMA5_IO_INDEX < index) ==> #[trigger] port(after, index)
                    == port(before, index)
        }
}

/// Runs one block of an H-blank HDMA, unless the CPU is halted or no copy runs; HDMA5 counts
/// the blocks left and reads 0xff after the last.
pub fn run_hblank_dma(core: &mut GameBoyCore)
    requires
        old(core).wf(),
    ensures
        final(core).wf(),
        hblank_dma_ran(old(core), final(core)),
{
    if core.cpu_mode == crate::cpu::CpuMode::Halted {
        return ;
    }
    if !hblank_dma_active(core) {
        return ;
    }
    let remaining = core.memory.io_ports[HDMA5_IO_INDEX] & 0x7f;
    let ghost before = *core;
    transfer_hdma_block(core, HDMA_BLOCK_BYTES);
    let ghost copied = *core;
    add_vram_dma_cpu_halt(core, 1);
    if remaining == 0 {
        core.memory.write_io_port(HDMA5_IO_INDEX, 0xff);
    } else {
        core.memory.write_io_port(HDMA5_IO_INDEX, remaining - 1);
    }
    proof {
        lemma_hdma_block_copied_kept(&before, &copied, core, HDMA_BLOCK_BYTES as int);
    }
}

/// What starting a pending OAM DMA does: its source page is taken and the copy begins at
/// byte 0; with none pending nothing changes.
pub open spec fn deferred_oam_dma_begun(before: &GameBoyCore, after: &GameBoyCore) -> bool {
    match before.dma.oam.pending_source_high {
        None => *after == *before,
        Some(source_high) => *after == (GameBoyCore {
            dma: crate::dma::DmaState {
                oam: crate::dma::OamDmaState { pending_source_high: None, source_high, next_index: 0, active: true },
                ..before.dma
            },
            ..*before
        }),
    }
}

/// Starts a pending OAM DMA: its source page is taken and the copy begins at byte 0.
pub fn begin_deferred_oam_dma(core: &mut GameBoyCore)
    ensures
        deferred_oam_dma_begun(old(core), final(core)),
{
    match core.dma.oam.pending_source_high {
        None => {},
        Some(source_high) => {
            core.dma.oam.pending_source_high = None;
            core.dma.oam.source_high = source_high;
            core.dma.oam.next_index = 0;
            core.dma.oam.active = true;
        },
    }
}

/// What copying the next OAM DMA byte does: the byte at the source page and index is read
/// through the memory map into OAM, and the copy ends after 160 bytes.
pub open spec fn oam_dma_stepped(before: &GameBoyCore, after: &GameBoyCore) -> bool {
    &&& !before.dma.oam.active ==> *after == *before
    &&& before.dma.oam.active ==> {
        let index = before.dma.oam.next_index;
        let source = (before.dma.oam.source_high as int * 256 + index) as u16;
        let byte = spec_read8_unrestricted(before, source);
        let next = if index == 255 { 255u8 } else { (index + 1) as u8 };
        &&& after.memory.oam@ == if index < 160 {
            before.memory.oam@.update(index as int, byte)
        } else {
            before.memory.oam@
        }
        &&& after.memory.rom == before.memory.rom
        &&& after.memory.wram == before.memory.wram
        &&& after.memory.vram == before.memory.vram
        &&& after.memory.io_ports == before.memory.io_ports
        &&& after.memory.tile_set == before.memory.tile_set
        &&& *after == (GameBoyCore {
            memory: after.memory,
            dma: crate::dma::DmaState {
                oam: crate::dma::OamDmaState { next_index: next, active: next < OAM_DMA_BYTES, ..before.dma.oam },
                ..before.dma
            },
            ..*before
        })
    }
}

/// Copies the next OAM DMA byte from the source page through the memory map; after 160 bytes
/// the copy ends.
pub fn step_oam_dma(core: &mut GameBoyCore)
    requires
        old(core).wf(),
    ensures
        final(core).wf(),
        oam_dma_stepped(old(core), final(core)),
{
    if !core.dma.oam.active {
        return ;
    }
    let index = core.dma.oam.next_index;
    let source = (core.dma.oam.source_high as u16) * 256 + index as u16;
    let byte = read8_unrestricted(core, source);
    if (index as usize) < 160 {
        core.memory.oam[index as usize] = byte;
    }
    core.dma.oam.next_index = core.dma.oam.next_index.saturating_add(1);
    if core.dma.oam.next_index >= OAM_DMA_BYTES {
        core.dma.oam.active = false;
    }
}

/// `after` is `before` with the DMG palette `index` (0 BGP, 1 OBP0, 2 OBP1) resolved from
/// `value` and every other palette kept.
pub open spec fn use_palette_shades(before: crate::palettes::PaletteState, after: crate::palettes::PaletteState, index: int, value: u8) -> bool {
    &&& after.cgb_bg == before.cgb_bg
    &&& after.cgb_obj == before.cgb_obj
    &&& if index == 0 {
        &&& after.translated_obj == before.translated_obj
        &&& after.sgb_translation_obj == before.sgb_translation_obj
        &&& forall|i: int|
            0 <= i < 4 ==> #[trigger] after.translated_bg@[i] == crate::palettes::shade_colour(
                crate::palettes::palette_shade(value, i),
            ) && after.sgb_translation_bg@[i] == crate::palettes::palette_shade(value, i)
    } else {
        let first = if index == 1 { 0int } else { 4int };
        &&& after.translated_bg == before.translated_bg
        &&& after.sgb_translation_bg == before.sgb_translation_bg
        &&& forall|i: int|
            0 <= i < 8 ==> #[trigger] after.translated_obj@[i] == if first <= i < first + 4 {
                crate::palettes::shade_colour(crate::palettes::palette_shade(value, i - first))
            } else {
                before.translated_obj@[i]
            } && after.sgb_translation_obj@[i] == if first <= i < first + 4 {
                crate::palettes::palette_shade(value, i - first)
            } else {
                before.sgb_translation_obj@[i]
            }
    }
}

/// What a write of `value` to I/O register `index` (below 0x80) does.
pub open spec fn io_written(before: &GameBoyCore, after: &GameBoyCore, index: usize, value: u8) -> bool {
    let ports = before.memory.io_ports@;
    if index == JOYP_IO_INDEX {
        joyp_written(before, after, value)
    } else if index == SB_IO_INDEX {
        if !before.serial.is_transferring || before.serial.clock_is_external {
            before.ports_became(after, with_port(ports, SB_IO_INDEX as int, value))
        } else {
            *after == *before
        }
    } else if index == SC_IO_INDEX {
        before.serial_control_written_into(after, value)
    } else if index == DIV_IO_INDEX {
        divider_written(before, after)
    } else if index == TIMA_IO_INDEX {
        &&& *after == (GameBoyCore {
            memory: after.memory,
            cpu_timing: crate::cpu::CpuTiming { tima_reload_delay: 0, ..before.cpu_timing },
            ..*before
        })
        &&& after.memory.io_ports@ == with_port(ports, TIMA_IO_INDEX as int, value)
        &&& after.memory.rom == before.memory.rom
        &&& after.memory.wram == before.memory.wram
        &&& after.memory.vram == before.memory.vram
        &&& after.memory.oam == before.memory.oam
        &&& after.memory.tile_set == before.memory.tile_set
    } else if index == TMA_IO_INDEX {
        before.ports_became(after, with_port(ports, TMA_IO_INDEX as int, value))
    } else if index == TAC_IO_INDEX {
        timer_control_written(before, after, value)
    } else if (0x10 <= index <= 0x26) || (0x30 <= index <= 0x3f) {
        audio_register_written(before, after, index, value)
    } else if index == LCDC_IO_INDEX {
        before.lcd_control_written_into(after, value)
    } else if index == STAT_IO_INDEX {
        before.ports_became(
            after,
            with_port(ports, STAT_IO_INDEX as int, (port(before, STAT_IO_INDEX as int) & 0x07) | (value & 0x78)),
        )
    } else if index == LY_IO_INDEX {
        *after == *before
    } else if index == DMA_IO_INDEX {
        oam_dma_started(before, after, value)
    } else if index == BGP_IO_INDEX || index == OBP0_IO_INDEX || index == OBP1_IO_INDEX {
        &&& *after == (GameBoyCore { memory: after.memory, palettes: after.palettes, ..*before })
        &&& after.memory.io_ports@ == with_port(ports, index as int, value)
        &&& after.memory.rom == before.memory.rom
        &&& after.memory.wram == before.memory.wram
        &&& after.memory.vram == before.memory.vram
        &&& after.memory.oam == before.memory.oam
        &&& after.memory.tile_set == before.memory.tile_set
        &&& use_palette_shades(before.palettes, after.palettes, index - BGP_IO_INDEX, value)
    } else if index == KEY1_IO_INDEX {
        key1_written(before, after, value)
    } else if index == VBK_IO_INDEX {
        vram_bank_written(before, after, value)
    } else if index == HDMA1_IO_INDEX {
        before.ports_became(after, with_port(ports, HDMA1_IO_INDEX as int, value))
    } else if index == HDMA2_IO_INDEX {
        before.ports_became(after, with_port(ports, HDMA2_IO_INDEX as int, value & 0xf0))
    } else if index == HDMA3_IO_INDEX {
        before.ports_became(after, with_port(ports, HDMA3_IO_INDEX as int, value & 0x1f))
    } else if index == HDMA4_IO_INDEX {
        before.ports_became(after, with_port(ports, HDMA4_IO_INDEX as int, value & 0xf0))
    } else if index == BOOT_IO_INDEX {
        boot_lock_written(before, after, value)
    } else if index == HDMA5_IO_INDEX {
        hdma5_written(before, after, value)
    } else if index == BCPS_IO_INDEX {
        palette_index_written(before, after, false, value)
    } else if index == BCPD_IO_INDEX {
        palette_data_written_into(before, after, false, value)
    } else if index == OCPS_IO_INDEX {
        palette_index_written(before, after, true, value)
    } else if index == OCPD_IO_INDEX {
        palette_data_written_into(before, after, true, value)
    } else if index == SVBK_IO_INDEX {
        wram_bank_written(before, after, value)
    } else {
        before.ports_became(after, with_port(ports, index as int, value))
    }
}

/// Writes I/O register `index` (below 0x80): each register with its own side effects, plain
/// ports as they are.
pub fn write_io(core: &mut GameBoyCore, index: usize, value: u8)
    requires
        old(core).wf(),
        index < 0x80,
    ensures
        final(core).wf(),
        io_written(old(core), final(core), index, value),
{
    if index == JOYP_IO_INDEX {
        write_joyp(core, value);
    } else if index == SB_IO_INDEX {
        if !core.serial.is_transferring || core.serial.clock_is_external {
            core.memory.write_io_port(SB_IO_INDEX, value);
        }
    } else if index == SC_IO_INDEX {
        write_serial_control(core, value);
    } else if index == DIV_IO_INDEX {
        write_divider(core);
    } else if index == TIMA_IO_INDEX {
        core.cpu_timing.tima_reload_delay = 0;
        core.memory.write_io_port(TIMA_IO_INDEX, value);
    } else if index == TMA_IO_INDEX {
        core.memory.write_io_port(TMA_IO_INDEX, value);
    } else if index == TAC_IO_INDEX {
        write_timer_control(core, value);
    } else if (0x10 <= index && index <= 0x26) || (0x30 <= index && index <= 0x3f) {
        write_audio_register(core, index, value);
    } else if index == LCDC_IO_INDEX {
        write_lcd_control(core, value);
    } else if index == STAT_IO_INDEX {
        let stat = core.memory.io_ports[STAT_IO_INDEX] & 0x07;
        core.memory.write_io_port(STAT_IO_INDEX, stat | (value & 0x78));
    } else if index == LY_IO_INDEX {
    } else if index == DMA_IO_INDEX {
        start_oam_dma(core, value);
    } else if index == BGP_IO_INDEX {
        core.memory.write_io_port(BGP_IO_INDEX, value);
        core.palettes.translate_bg(value);
    } else if index == OBP0_IO_INDEX {
        core.memory.write_io_port(OBP0_IO_INDEX, value);
        core.palettes.translate_obj1(value);
    } else if index == OBP1_IO_INDEX {
        core.memory.write_io_port(OBP1_IO_INDEX, value);
        core.palettes.translate_obj2(value);
    } else if index == KEY1_IO_INDEX {
        write_key1(core, value);
    } else if index == VBK_IO_INDEX {
        write_vram_bank(core, value);
    } else if index == HDMA1_IO_INDEX {
        core.memory.write_io_port(HDMA1_IO_INDEX, value);
    } else if index == HDMA2_IO_INDEX {
        core.memory.write_io_port(HDMA2_IO_INDEX, value & 0xf0);
    } else if index == HDMA3_IO_INDEX {
        core.memory.write_io_port(HDMA3_IO_INDEX, value & 0x1f);
    } else if index == HDMA4_IO_INDEX {
        core.memory.write_io_port(HDMA4_IO_INDEX, value & 0xf0);
    } else if index == BOOT_IO_INDEX {
        write_boot_lock(core, value);
    } else if index == HDMA5_IO_INDEX {
        write_hdma5(core, value);
    } else if index == BCPS_IO_INDEX {
        write_cgb_palette_index(core, false, value);
    } else if index == BCPD_IO_INDEX {
        write_cgb_palette_data(core, false, value);
    } else if index == OCPS_IO_INDEX {
        write_cgb_palette_index(core, true, value);
    } else if index == OCPD_IO_INDEX {
        write_cgb_palette_data(core, true, value);
    } else if index == SVBK_IO_INDEX {
        write_wram_bank(core, value);
    } else {
        core.memory.write_io_port(index, value);
    }
}

impl GameBoyCore {
    /// `new` is `self` after a write of `value` to cartridge RAM address `address`: nothing
    /// while RAM is disabled, a clock register while one is mapped, else the RAM (MBC2 keeps
    /// the low nibble).
    pub open spec fn sram_written_into(&self, new: &Self, address: usize, value: u8) -> bool {
        let sram = self.sram;
        &&& *new == (GameBoyCore { sram: new.sram, ..*self })
        &&& if !sram.enable_flag {
            new.sram == sram
        } else if sram.has_timer && sram.timer_mode > 0 {
            let index = (if sram.timer_mode < 8 { 0 } else { sram.timer_mode - 8 }) as usize;
            &&& new.sram.timer_data@ == if index < 5 {
                sram.timer_data@.update(index as int, crate::sram::spec_masked_timer_value(index, value))
            } else {
                sram.timer_data@
            }
            &&& new.sram.data == sram.data
            &&& new.sram.dirty == sram.dirty
            &&& new.sram.latched_timer_data == sram.latched_timer_data
            &&& new.sram.timer_latched == sram.timer_latched
            &&& new.sram.timer_clock_accumulator == sram.timer_clock_accumulator
            &&& new.sram.timer_latch == sram.timer_latch
            &&& new.sram.same_configuration(&sram)
        } else {
            let stored = if self.rom.properties.mbc == MemoryBankController::Mbc2 { value & 0x0f } else { value };
            &&& new.sram.data@ == sram.spec_written_data(address, stored)
            &&& new.sram.dirty == (sram.dirty || (sram.has_battery && sram.spec_write_changes_slot(address, stored)))
            &&& new.sram.same_configuration(&sram)
            &&& new.sram.same_clock(&sram)
        }
    }
}

/// Writes cartridge RAM or a mapped clock register.
fn write_sram(core: &mut GameBoyCore, address: usize, value: u8)
    ensures
        old(core).sram_written_into(final(core), address, value),
{
    if !core.sram.enable_flag {
        return ;
    }
    if core.sram.has_timer && core.sram.timer_mode > 0 {
        let index = core.sram.timer_mode.saturating_sub(0x08) as usize;
        core.sram.write_timer_data(index, value);
        return ;
    }
    let stored = if core.rom.properties.mbc == MemoryBankController::Mbc2 {
        value & 0x0f
    } else {
        value
    };
    core.sram.write_data(address, stored);
}

impl GameBoyCore {
    /// `new` is `self` with work RAM byte `index` set to `value` where it exists.
    pub open spec fn wram_written_into(&self, new: &Self, index: int, value: u8) -> bool {
        &&& *new == (GameBoyCore { memory: new.memory, ..*self })
        &&& new.memory.wram@ == if 0 <= index < self.memory.wram@.len() {
            self.memory.wram@.update(index, value)
        } else {
            self.memory.wram@
        }
        &&& new.memory.rom == self.memory.rom
        &&& new.memory.vram == self.memory.vram
        &&& new.memory.io_ports == self.memory.io_ports
        &&& new.memory.oam == self.memory.oam
        &&& new.memory.tile_set == self.memory.tile_set
    }
}

/// The memory map on writes: what a write of `value` to `address` does before DMA blocking.
pub open spec fn written8(before: &GameBoyCore, after: &GameBoyCore, address: u16, value: u8) -> bool {
    let a = address as int;
    if a < 0x8000 {
        before.mbc_written_into(after, address, value)
    } else if a < 0xa000 {
        if before.memory_access.vram {
            let relative = (address & 0x1fff) as usize;
            let index = before.memory_access.vram_bank_offset as int + relative;
            &&& *after == (GameBoyCore { memory: after.memory, ..*before })
            &&& after.memory.rom == before.memory.rom
            &&& after.memory.wram == before.memory.wram
            &&& after.memory.io_ports == before.memory.io_ports
            &&& after.memory.oam == before.memory.oam
            &&& if index < before.memory.vram@.len() {
                let vram = before.memory.vram@.update(index, value);
                &&& after.memory.vram@ == vram
                &&& after.memory.tile_set@ == if relative < 0x1800 {
                    crate::memory::spec_decoded_tile_set(
                        vram,
                        before.memory.tile_set@,
                        before.memory_access.vram_bank_offset as usize,
                        relative,
                    )
                } else {
                    before.memory.tile_set@
                }
            } else {
                &&& after.memory.vram@ == before.memory.vram@
                &&& after.memory.tile_set@ == before.memory.tile_set@
            }
        } else {
            *after == *before
        }
    } else if a < 0xc000 {
        before.sram_written_into(after, a as usize, value)
    } else if a < 0xd000 || (0xe000 <= a < 0xf000) {
        before.wram_written_into(after, a % 0x1000, value)
    } else if a < 0xfe00 {
        before.wram_written_into(after, before.memory_access.wram_bank_offset + a % 0x1000, value)
    } else if a < 0xfea0 {
        if before.memory_access.oam {
            &&& *after == (GameBoyCore { memory: after.memory, ..*before })
            &&& after.memory.oam@ == before.memory.oam@.update((a % 0x100) % 160, value)
            &&& after.memory.rom == before.memory.rom
            &&& after.memory.wram == before.memory.wram
            &&& after.memory.vram == before.memory.vram
            &&& after.memory.io_ports == before.memory.io_ports
            &&& after.memory.tile_set == before.memory.tile_set
        } else {
            *after == *before
        }
    } else if a < 0xff00 {
        *after == *before
    } else if a < 0xff80 {
        io_written(before, after, (a % 0x80) as usize, value)
    } else {
        before.ports_became(after, with_port(before.memory.io_ports@, a % 0x100, value))
    }
}

/// Writes work RAM byte `base + offset`, where it exists.
fn write_wram(core: &mut GameBoyCore, base: u32, offset: usize, value: u8)
    ensures
        old(core).wram_written_into(final(core), base + offset, value),
{
    let len = core.memory.wram.len();
    match (base as usize).checked_add(offset) {
        Some(index) => {
            if index < core.memory.wram.len() {
                core.memory.wram[index] = value;
            }
        },
        None => {
            assert(base + offset > len);
        },
    }
}

/// Writes `value` to `address` through the memory map, ignoring OAM DMA.
pub fn write8_unrestricted(core: &mut GameBoyCore, address: u16, value: u8)
    requires
        old(core).wf(),
    ensures
        final(core).wf(),
        written8(old(core), final(core), address, value),
{
    let a = address as usize;
    if a < 0x8000 {
        write_mbc(core, address, value);
    } else if a < 0xa000 {
        if core.memory_access.vram {
            let bank = core.memory_access.vram_bank_offset;
            core.memory.write_vram(bank, address, value);
        }
    } else if a < 0xc000 {
        write_sram(core, a, value);
    } else if a < 0xd000 || (0xe000 <= a && a < 0xf000) {
        write_wram(core, 0, a % 0x1000, value);
    } else if a < 0xfe00 {
        let offset = core.memory_access.wram_bank_offset;
        write_wram(core, offset, a % 0x1000, value);
    } else if a < 0xfea0 {
        if core.memory_access.oam {
            core.memory.oam[(a % 0x100) % 160] = value;
        }
    } else if a < 0xff00 {
    } else if a < 0xff80 {
        write_io(core, a % 0x80, value);
    } else {
        core.memory.write_io_port(a % 0x100, value);
    }
}

/// What a CPU write does: nothing while OAM DMA blocks the address, else the memory map.
pub open spec fn cpu_written8(before: &GameBoyCore, after: &GameBoyCore, address: u16, value: u8) -> bool {
    if spec_oam_dma_blocks(before, address) {
        *after == *before
    } else {
        written8(before, after, address, value)
    }
}

/// Writes `value` to `address` as the CPU does.
pub fn write8(core: &mut GameBoyCore, address: u16, value: u8)
    requires
        old(core).wf(),
    ensures
        final(core).wf(),
        cpu_written8(old(core), final(core), address, value),
{
    if oam_dma_blocks_cpu_access(core, address) {
        return ;
    }
    write8_unrestricted(core, address, value);
}

/// What a CPU write of a 16-bit value does: the low byte at `address`, then the high byte at
/// the address after it (wrapping).
pub open spec fn cpu_written16(before: &GameBoyCore, after: &GameBoyCore, address: u16, value: u16) -> bool {
    exists|middle: GameBoyCore|
        cpu_written8(before, &middle, address, (value % 256) as u8) && middle.wf() && cpu_written8(
            &middle,
            after,
            address.wrapping_add(1),
            (value / 256) as u8,
        )
}

/// The 16-bit value at `address` as the CPU reads it, low byte first.
pub open spec fn spec_read16(core: &GameBoyCore, address: u16) -> u16 {
    (spec_read8(core, address) + 256 * spec_read8(core, address.wrapping_add(1))) as u16
}

/// Writes a little-endian 16-bit value: the low byte at `address`, the high byte after it
/// (wrapping).
pub fn write16(core: &mut GameBoyCore, address: u16, value: u16)
    requires
        old(core).wf(),
    ensures
        final(core).wf(),
        cpu_written16(old(core), final(core), address, value),
{
    let ghost before = *core;
    write8(core, address, (value % 256) as u8);
    let ghost middle = *core;
    write8(core, address.wrapping_add(1), (value / 256) as u8);
    assert(cpu_written8(&before, &middle, address, (value % 256) as u8));
}

/// Law: a CPU read of work RAM (0xc000 to 0xfdff, echo included) or of high RAM and the
/// interrupt enable register (0xff80 to 0xffff) gives back what the last CPU write there
/// wrote, as long as OAM DMA does not block the address and no cheat patches the read.
pub proof fn lemma_ram_read_after_write(before: &GameBoyCore, after: &GameBoyCore, address: u16, value: u8)
    requires
        before.wf(),
        before.memory_access.wram_bank_offset <= 0x7000,
        (0xc000 <= address < 0xfe00) || (0xff80 <= address),
        !spec_oam_dma_blocks(before, address),
        first_patch(before.cheats.codes@, 0, address, value) is None,
        cpu_written8(before, after, address, value),
    ensures
        spec_read8(after, address) == value,
{
    assert(after.cheats == before.cheats);
    assert(after.dma == before.dma);
    assert(after.rom.properties.cgb_flag == before.rom.properties.cgb_flag);
    assert(after.memory_access == before.memory_access);
}

/// A CPU write leaves the register file, the CPU mode and the accumulated clocks as they are.
pub broadcast proof fn lemma_cpu_write_keeps_cpu(before: &GameBoyCore, after: &GameBoyCore, address: u16, value: u8)
    ensures
        #[trigger] cpu_written8(before, after, address, value) ==> {
            &&& after.cpu_registers == before.cpu_registers
            &&& after.cpu_mode == before.cpu_mode
            &&& after.cpu_timing.clocks_acc == before.cpu_timing.clocks_acc
        },
{
}

/// A CPU write of a 16-bit value leaves the register file, the CPU mode and the accumulated
/// clocks as they are.
pub broadcast proof fn lemma_cpu_write16_keeps_cpu(before: &GameBoyCore, after: &GameBoyCore, address: u16, value: u16)
    ensures
        #[trigger] cpu_written16(before, after, address, value) ==> {
            &&& after.cpu_registers == before.cpu_registers
            &&& after.cpu_mode == before.cpu_mode
            &&& after.cpu_timing.clocks_acc == before.cpu_timing.clocks_acc
        },
{
    if cpu_written16(before, after, address, value) {
        let middle = choose|middle: GameBoyCore|
            cpu_written8(before, &middle, address, (value % 256) as u8) && middle.wf() && cpu_written8(
                &middle,
                after,
                address.wrapping_add(1),
                (value / 256) as u8,
            );
        lemma_cpu_write_keeps_cpu(before, &middle, address, (value % 256) as u8);
        lemma_cpu_write_keeps_cpu(&middle, after, address.wrapping_add(1), (value / 256) as u8);
    }
}

} // verus!
