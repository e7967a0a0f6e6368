use vstd::prelude::*;

use crate::cpu::{CpuMode, CpuRegisters, CpuTiming, SerialState};
use crate::dma::{DmaState, OamDmaState, VramDmaState};
use crate::gpu::{GpuMode, GpuTiming, LineRenderer, MemoryAccess, DEFAULT_LINE_SCAN_VRAM_CLOCKS};
use crate::input::JoypadInputNibbles;
use crate::memory::{GameBoyMemory, fill_u32, zeros};
use crate::palettes::{CgbPaletteRegisters, PaletteState};
use crate::rom::{MemoryBankController, RomProperties, RomState};
use crate::runtime::RuntimeControl;
use crate::sgb::SgbState;
use crate::machine::GameBoyCore;
use crate::sram::SramState;
use vstd::std_specs::convert::FromSpec;

verus! {

/// Format version written into every save state.
pub const SAVE_STATE_VERSION: u32 = 1;

/// Why a save state could not be restored.
#[derive(Debug)]
#[allow(inconsistent_fields)]
pub enum SaveStateError {
    UnsupportedVersion(u32),
    RomMismatch { expected: String, actual: String },
    InvalidFieldLength { field: &'static str, expected: usize, actual: usize },
    InvalidValue { field: &'static str },
}

/// The error for a buffer of `actual` values where `expected` are needed.
pub open spec fn is_length_error(
    result: Result<(), SaveStateError>,
    field: &'static str,
    expected: int,
    actual: int,
) -> bool {
    match result {
        Err(SaveStateError::InvalidFieldLength { field: f, expected: e, actual: a }) => f == field && e == expected
            && a == actual,
        _ => false,
    }
}

/// Copies `source` over `destination` when both have the same length; otherwise leaves
/// `destination` as it is and reports both lengths under `field`.
pub fn copy_u8_slice(field: &'static str, source: &[u8], destination: &mut [u8]) -> (result: Result<
    (),
    SaveStateError,
>)
    ensures
        result is Ok <==> source@.len() == old(destination)@.len(),
        result is Ok ==> final(destination)@ == source@,
        result is Err ==> final(destination)@ == old(destination)@ && is_length_error(
            result,
            field,
            old(destination)@.len() as int,
            source@.len() as int,
        ),
{
    if source.len() != destination.len() {
        return Err(
            SaveStateError::InvalidFieldLength { field, expected: destination.len(), actual: source.len() },
        );
    }
    let mut i: usize = 0;
    while i < source.len()
        invariant
            source@.len() == destination@.len(),
            destination@.len() == old(destination)@.len(),
            i <= source@.len(),
            forall|j: int| 0 <= j < i ==> destination@[j] == source@[j],
        decreases source@.len() - i,
    {
        destination[i] = source[i];
        i += 1;
    }
    assert(destination@ =~= source@);
    Ok(())
}

/// Copies `source` over `destination` when both have the same length; otherwise leaves
/// `destination` as it is and reports both lengths under `field`.
pub fn copy_u32_slice(field: &'static str, source: &[u32], destination: &mut [u32]) -> (result: Result<
    (),
    SaveStateError,
>)
    ensures
        result is Ok <==> source@.len() == old(destination)@.len(),
        result is Ok ==> final(destination)@ == source@,
        result is Err ==> final(destination)@ == old(destination)@ && is_length_error(
            result,
            field,
            old(destination)@.len() as int,
            source@.len() as int,
        ),
{
    if source.len() != destination.len() {
        return Err(
            SaveStateError::InvalidFieldLength { field, expected: destination.len(), actual: source.len() },
        );
    }
    let mut i: usize = 0;
    while i < source.len()
        invariant
            source@.len() == destination@.len(),
            destination@.len() == old(destination)@.len(),
            i <= source@.len(),
            forall|j: int| 0 <= j < i ==> destination@[j] == source@[j],
        decreases source@.len() - i,
    {
        destination[i] = source[i];
        i += 1;
    }
    assert(destination@ =~= source@);
    Ok(())
}

/// Saved memories of the console.
pub struct MemorySnapshot {
    pub wram: Vec<u8>,
    pub vram: Vec<u8>,
    pub io_ports: Vec<u8>,
    pub oam: Vec<u8>,
    pub tile_set: Vec<u32>,
}

impl MemorySnapshot {
    /// Whether `self` holds what saving `part` keeps of it.
    pub open spec fn captures(&self, part: &GameBoyMemory) -> bool {
        &&& self.wram@ == part.wram@
        &&& self.vram@ == part.vram@
        &&& self.io_ports@ == part.io_ports@
        &&& self.oam@ == part.oam@
        &&& self.tile_set@ == part.tile_set@
    }
}

impl MemorySnapshot {
    /// Saves the memories, the cartridge ROM excepted.
    pub fn from_memory(memory: &GameBoyMemory) -> (snapshot: Self)
        ensures
            snapshot.captures(memory),
    {
        MemorySnapshot {
            wram: vstd::slice::slice_to_vec(memory.wram.as_slice()),
            vram: vstd::slice::slice_to_vec(memory.vram.as_slice()),
            io_ports: vstd::slice::slice_to_vec(memory.io_ports.as_slice()),
            oam: vstd::slice::slice_to_vec(memory.oam.as_slice()),
            tile_set: vstd::slice::slice_to_vec(memory.tile_set.as_slice()),
        }
    }

    /// The first saved memory whose length differs from the memory it restores: its name, the
    /// length needed and the length saved.
    pub open spec fn first_misfit(&self, memory: &GameBoyMemory) -> Option<(&'static str, int, int)> {
        if self.wram@.len() != memory.wram@.len() {
            Some(("memory.wram", memory.wram@.len() as int, self.wram@.len() as int))
        } else if self.vram@.len() != memory.vram@.len() {
            Some(("memory.vram", memory.vram@.len() as int, self.vram@.len() as int))
        } else if self.io_ports@.len() != memory.io_ports@.len() {
            Some(("memory.io_ports", memory.io_ports@.len() as int, self.io_ports@.len() as int))
        } else if self.oam@.len() != 160 {
            Some(("memory.oam", 160, self.oam@.len() as int))
        } else if self.tile_set@.len() != memory.tile_set@.len() {
            Some(("memory.tile_set", memory.tile_set@.len() as int, self.tile_set@.len() as int))
        } else {
            None
        }
    }

    /// What `apply` does: `after` is `before` restored from `self`, ending with `result`.
    pub open spec fn restored(&self, before: &GameBoyMemory, after: &GameBoyMemory, result: Result<(), SaveStateError>) -> bool {
        &&& match self.first_misfit(before) {
            Some((field, expected, actual)) => is_length_error(result, field, expected, actual),
            None => result is Ok,
        }
        &&& after.wram@ == if self.wram@.len() == before.wram@.len() {
            self.wram@
        } else {
            before.wram@
        }
        &&& after.vram@ == if self.wram@.len() == before.wram@.len() && self.vram@.len()
            == before.vram@.len() {
            self.vram@
        } else {
            before.vram@
        }
        &&& after.io_ports@ == if self.wram@.len() == before.wram@.len() && self.vram@.len()
            == before.vram@.len() && self.io_ports@.len() == before.io_ports@.len() {
            self.io_ports@
        } else {
            before.io_ports@
        }
        &&& after.oam@ == if self.wram@.len() == before.wram@.len() && self.vram@.len()
            == before.vram@.len() && self.io_ports@.len() == before.io_ports@.len()
            && self.oam@.len() == 160 {
            self.oam@
        } else {
            before.oam@
        }
        &&& after.tile_set@ == if self.first_misfit(before) is None {
            self.tile_set@
        } else {
            before.tile_set@
        }
        &&& after.rom == before.rom
    }

    /// Restores the memories in order; the first saved memory of the wrong length stops the
    /// restore with a length error, the memories before it already restored.
    pub fn apply(self, memory: &mut GameBoyMemory) -> (result: Result<(), SaveStateError>)
        ensures
            self.restored(old(memory), final(memory), result),
    {
        copy_u8_slice("memory.wram", self.wram.as_slice(), memory.wram.as_mut_slice())?;
        copy_u8_slice("memory.vram", self.vram.as_slice(), memory.vram.as_mut_slice())?;
        copy_u8_slice("memory.io_ports", self.io_ports.as_slice(), memory.io_ports.as_mut_slice())?;
        copy_u8_slice("memory.oam", self.oam.as_slice(), &mut memory.oam)?;
        copy_u32_slice("memory.tile_set", self.tile_set.as_slice(), memory.tile_set.as_mut_slice())?;
        Ok(())
    }
}

/// Saved colour palettes.
pub struct PaletteSnapshot {
    pub translated_bg: Vec<u32>,
    pub translated_obj: Vec<u32>,
    pub sgb_translation_bg: Vec<u32>,
    pub sgb_translation_obj: Vec<u32>,
    pub cgb_bg: Vec<u32>,
    pub cgb_obj: Vec<u32>,
}

impl PaletteSnapshot {
    /// Whether `self` holds what saving `part` keeps of it.
    pub open spec fn captures(&self, part: &PaletteState) -> bool {
        &&& self.translated_bg@ == part.translated_bg@
        &&& self.translated_obj@ == part.translated_obj@
        &&& self.sgb_translation_bg@ == part.sgb_translation_bg@
        &&& self.sgb_translation_obj@ == part.sgb_translation_obj@
        &&& self.cgb_bg@ == part.cgb_bg@
        &&& self.cgb_obj@ == part.cgb_obj@
    }
}

impl PaletteSnapshot {
    /// Saves every palette.
    pub fn from_palettes(palettes: PaletteState) -> (snapshot: Self)
        ensures
            snapshot.captures(&palettes),
    {
        PaletteSnapshot {
            translated_bg: vstd::slice::slice_to_vec(palettes.translated_bg.as_slice()),
            translated_obj: vstd::slice::slice_to_vec(palettes.translated_obj.as_slice()),
            sgb_translation_bg: vstd::slice::slice_to_vec(palettes.sgb_translation_bg.as_slice()),
            sgb_translation_obj: vstd::slice::slice_to_vec(palettes.sgb_translation_obj.as_slice()),
            cgb_bg: vstd::slice::slice_to_vec(palettes.cgb_bg.as_slice()),
            cgb_obj: vstd::slice::slice_to_vec(palettes.cgb_obj.as_slice()),
        }
    }

    /// The first saved palette whose length differs from the palette it restores.
    pub open spec fn first_misfit(&self) -> Option<(&'static str, int, int)> {
        if self.translated_bg@.len() != 4 {
            Some(("palettes.translated_bg", 4, self.translated_bg@.len() as int))
        } else if self.translated_obj@.len() != 8 {
            Some(("palettes.translated_obj", 8, self.translated_obj@.len() as int))
        } else if self.sgb_translation_bg@.len() != 4 {
            Some(("palettes.sgb_translation_bg", 4, self.sgb_translation_bg@.len() as int))
        } else if self.sgb_translation_obj@.len() != 8 {
            Some(("palettes.sgb_translation_obj", 8, self.sgb_translation_obj@.len() as int))
        } else if self.cgb_bg@.len() != 32 {
            Some(("palettes.cgb_bg", 32, self.cgb_bg@.len() as int))
        } else if self.cgb_obj@.len() != 32 {
            Some(("palettes.cgb_obj", 32, self.cgb_obj@.len() as int))
        } else {
            None
        }
    }

    /// What `apply` does: `after` is `before` restored from `self`, ending with `result`.
    pub open spec fn restored(&self, before: &PaletteState, after: &PaletteState, result: Result<(), SaveStateError>) -> bool {
        &&& match self.first_misfit() {
            Some((field, expected, actual)) => is_length_error(result, field, expected, actual),
            None => result is Ok,
        }
        &&& after.translated_bg@ == if self.translated_bg@.len() == 4 {
            self.translated_bg@
        } else {
            before.translated_bg@
        }
        &&& after.translated_obj@ == if self.translated_bg@.len() == 4 && self.translated_obj@.len() == 8 {
            self.translated_obj@
        } else {
            before.translated_obj@
        }
        &&& after.sgb_translation_bg@ == if self.translated_bg@.len() == 4 && self.translated_obj@.len() == 8
            && self.sgb_translation_bg@.len() == 4 {
            self.sgb_translation_bg@
        } else {
            before.sgb_translation_bg@
        }
        &&& after.sgb_translation_obj@ == if self.translated_bg@.len() == 4 && self.translated_obj@.len()
            == 8 && self.sgb_translation_bg@.len() == 4 && self.sgb_translation_obj@.len() == 8 {
            self.sgb_translation_obj@
        } else {
            before.sgb_translation_obj@
        }
        &&& after.cgb_bg@ == if self.translated_bg@.len() == 4 && self.translated_obj@.len() == 8
            && self.sgb_translation_bg@.len() == 4 && self.sgb_translation_obj@.len() == 8 && self.cgb_bg@.len()
            == 32 {
            self.cgb_bg@
        } else {
            before.cgb_bg@
        }
        &&& after.cgb_obj@ == if self.first_misfit() is None {
            self.cgb_obj@
        } else {
            before.cgb_obj@
        }
    }

    /// Restores the palettes in order; the first saved palette of the wrong length stops the
    /// restore with a length error, the palettes before it already restored.
    pub fn apply(self, palettes: &mut PaletteState) -> (result: Result<(), SaveStateError>)
        ensures
            self.restored(old(palettes), final(palettes), result),
    {
        copy_u32_slice("palettes.translated_bg", self.translated_bg.as_slice(), &mut palettes.translated_bg)?;
        copy_u32_slice("palettes.translated_obj", self.translated_obj.as_slice(), &mut palettes.translated_obj)?;
        copy_u32_slice(
            "palettes.sgb_translation_bg",
            self.sgb_translation_bg.as_slice(),
            &mut palettes.sgb_translation_bg,
        )?;
        copy_u32_slice(
            "palettes.sgb_translation_obj",
            self.sgb_translation_obj.as_slice(),
            &mut palettes.sgb_translation_obj,
        )?;
        copy_u32_slice("palettes.cgb_bg", self.cgb_bg.as_slice(), &mut palettes.cgb_bg)?;
        copy_u32_slice("palettes.cgb_obj", self.cgb_obj.as_slice(), &mut palettes.cgb_obj)?;
        Ok(())
    }
}

/// Saved CGB palette memories and index registers.
pub struct CgbPaletteRegistersSnapshot {
    pub bg_data: Vec<u8>,
    pub bg_index: u32,
    pub bg_increment: u32,
    pub obj_data: Vec<u8>,
    pub obj_index: u32,
    pub obj_increment: u32,
}

impl CgbPaletteRegistersSnapshot {
    /// Whether `self` holds what saving `part` keeps of it.
    pub open spec fn captures(&self, part: &CgbPaletteRegisters) -> bool {
        &&& self.bg_data@ == part.bg_data@
        &&& self.bg_index == part.bg_index
        &&& self.bg_increment == part.bg_increment
        &&& self.obj_data@ == part.obj_data@
        &&& self.obj_index == part.obj_index
        &&& self.obj_increment == part.obj_increment
    }
}

impl CgbPaletteRegistersSnapshot {
    /// Saves both palette memories and the index registers.
    pub fn from_registers(registers: CgbPaletteRegisters) -> (snapshot: Self)
        ensures
            snapshot.captures(&registers),
    {
        CgbPaletteRegistersSnapshot {
            bg_data: vstd::slice::slice_to_vec(registers.bg_data.as_slice()),
            bg_index: registers.bg_index,
            bg_increment: registers.bg_increment,
            obj_data: vstd::slice::slice_to_vec(registers.obj_data.as_slice()),
            obj_index: registers.obj_index,
            obj_increment: registers.obj_increment,
        }
    }

    /// What `apply` does: `after` is `before` restored from `self`, ending with `result`.
    pub open spec fn restored(&self, before: &CgbPaletteRegisters, after: &CgbPaletteRegisters, result: Result<(), SaveStateError>) -> bool {
        &&& self.bg_data@.len() != 64 ==> is_length_error(result, "cgb_palette_registers.bg_data", 64, self.bg_data@.len() as int)
        &&& self.bg_data@.len() == 64 && self.obj_data@.len() != 64 ==> is_length_error(
            result,
            "cgb_palette_registers.obj_data",
            64,
            self.obj_data@.len() as int,
        )
        &&& self.bg_data@.len() == 64 && self.obj_data@.len() == 64 ==> result is Ok
        &&& after.bg_data@ == if self.bg_data@.len() == 64 {
            self.bg_data@
        } else {
            before.bg_data@
        }
        &&& after.obj_data@ == if self.bg_data@.len() == 64 && self.obj_data@.len() == 64 {
            self.obj_data@
        } else {
            before.obj_data@
        }
        &&& result is Ok ==> {
            &&& after.bg_index == self.bg_index
            &&& after.bg_increment == self.bg_increment
            &&& after.obj_index == self.obj_index
            &&& after.obj_increment == self.obj_increment
        }
        &&& result is Err ==> {
            &&& after.bg_index == before.bg_index
            &&& after.bg_increment == before.bg_increment
            &&& after.obj_index == before.obj_index
            &&& after.obj_increment == before.obj_increment
        }
    }

    /// Restores both palette memories, then the index registers; a saved memory of the wrong
    /// length stops the restore with a length error before the registers are set.
    pub fn apply(self, registers: &mut CgbPaletteRegisters) -> (result: Result<(), SaveStateError>)
        ensures
            self.restored(old(registers), final(registers), result),
    {
        copy_u8_slice("cgb_palette_registers.bg_data", self.bg_data.as_slice(), &mut registers.bg_data)?;
        copy_u8_slice("cgb_palette_registers.obj_data", self.obj_data.as_slice(), &mut registers.obj_data)?;
        registers.bg_index = self.bg_index;
        registers.bg_increment = self.bg_increment;
        registers.obj_index = self.obj_index;
        registers.obj_increment = self.obj_increment;
        Ok(())
    }
}

/// Saved cartridge RAM and clock.
pub struct SramSnapshot {
    pub data: Vec<u8>,
    pub has_battery: bool,
    pub has_timer: bool,
    pub timer_data: Vec<u8>,
    pub timer_mode: u32,
    pub timer_latch: u32,
    pub bank_offset: u32,
    pub size_enum: u8,
    pub size_bytes: u32,
    pub bank_select_mask: u8,
    pub enable_flag: bool,
    pub dirty: bool,
}

impl SramSnapshot {
    /// Whether `self` holds what saving `part` keeps of it.
    pub open spec fn captures(&self, part: &SramState) -> bool {
        &&& self.data@ == part.data@
        &&& self.has_battery == part.has_battery
        &&& self.has_timer == part.has_timer
        &&& self.timer_data@ == part.timer_data@
        &&& self.timer_mode == part.timer_mode
        &&& self.timer_latch == part.timer_latch
        &&& self.bank_offset == part.bank_offset
        &&& self.size_enum == part.size_enum
        &&& self.size_bytes == part.size_bytes
        &&& self.bank_select_mask == part.bank_select_mask
        &&& self.enable_flag == part.enable_flag
        &&& self.dirty == part.dirty
    }
}

impl SramSnapshot {
    /// Saves cartridge RAM, the clock registers and the configuration; the latched clock is
    /// not kept.
    pub fn from_sram(sram: &SramState) -> (snapshot: Self)
        ensures
            snapshot.captures(sram),
    {
        SramSnapshot {
            data: vstd::slice::slice_to_vec(sram.data.as_slice()),
            has_battery: sram.has_battery,
            has_timer: sram.has_timer,
            timer_data: vstd::slice::slice_to_vec(sram.timer_data.as_slice()),
            timer_mode: sram.timer_mode,
            timer_latch: sram.timer_latch,
            bank_offset: sram.bank_offset,
            size_enum: sram.size_enum,
            size_bytes: sram.size_bytes,
            bank_select_mask: sram.bank_select_mask,
            enable_flag: sram.enable_flag,
            dirty: sram.is_dirty(),
        }
    }

    /// What `apply` does: `after` is `before` restored from `self`, ending with `result`.
    pub open spec fn restored(&self, before: &SramState, after: &SramState, result: Result<(), SaveStateError>) -> bool {
        &&& self.data@.len() != before.data@.len() ==> is_length_error(
            result,
            "sram.data",
            before.data@.len() as int,
            self.data@.len() as int,
        )
        &&& self.data@.len() == before.data@.len() && self.timer_data@.len() != 5 ==> is_length_error(
            result,
            "sram.timer_data",
            5,
            self.timer_data@.len() as int,
        )
        &&& result is Ok <==> self.data@.len() == before.data@.len() && self.timer_data@.len() == 5
        &&& after.data@ == if self.data@.len() == before.data@.len() {
            self.data@
        } else {
            before.data@
        }
        &&& after.timer_data@ == if result is Ok {
            self.timer_data@
        } else {
            before.timer_data@
        }
        &&& after.latched_timer_data == before.latched_timer_data
        &&& after.timer_latched == before.timer_latched
        &&& after.timer_clock_accumulator == before.timer_clock_accumulator
        &&& result is Ok ==> {
            &&& after.has_battery == self.has_battery
            &&& after.has_timer == self.has_timer
            &&& after.timer_mode == self.timer_mode
            &&& after.timer_latch == self.timer_latch
            &&& after.bank_offset == self.bank_offset
            &&& after.size_enum == self.size_enum
            &&& after.size_bytes == self.size_bytes
            &&& after.bank_select_mask == self.bank_select_mask
            &&& after.enable_flag == self.enable_flag
            &&& after.dirty == (self.dirty || self.has_battery)
        }
        &&& result is Err ==> {
            &&& after.same_configuration(before)
            &&& after.timer_latch == before.timer_latch
            &&& after.dirty == before.dirty
        }
    }

    /// Restores cartridge RAM, then the clock registers, then the configuration; RAM with a
    /// battery comes back marked as not yet saved.
    pub fn apply(self, sram: &mut SramState) -> (result: Result<(), SaveStateError>)
        ensures
            self.restored(old(sram), final(sram), result),
    {
        copy_u8_slice("sram.data", self.data.as_slice(), sram.data.as_mut_slice())?;
        copy_u8_slice("sram.timer_data", self.timer_data.as_slice(), &mut sram.timer_data)?;
        sram.has_battery = self.has_battery;
        sram.has_timer = self.has_timer;
        sram.timer_mode = self.timer_mode;
        sram.timer_latch = self.timer_latch;
        sram.bank_offset = self.bank_offset;
        sram.size_enum = self.size_enum;
        sram.size_bytes = self.size_bytes;
        sram.bank_select_mask = self.bank_select_mask;
        sram.enable_flag = self.enable_flag;
        sram.set_dirty(self.dirty || self.has_battery);
        Ok(())
    }
}

/// Saved Super Game Boy state; `command_bytes` holds the seven packets one after another.
pub struct SgbSnapshot {
    pub reading_command: bool,
    pub awaiting_stop_bit: bool,
    pub stop_bit_received: bool,
    pub command_bytes: Vec<u32>,
    pub command_bits: Vec<u8>,
    pub command: u32,
    pub read_command_bits: i32,
    pub read_command_bytes: i32,
    pub freeze_screen: bool,
    pub freeze_mode: u32,
    pub mult_enabled: bool,
    pub player_count: u32,
    pub packets_sent: u32,
    pub packets_to_send: u32,
    pub read_joypad_id: u32,
    pub mono_data: Vec<u32>,
    pub transfer_vram: Vec<u8>,
    pub palettes: Vec<u32>,
    pub system_palettes: Vec<u32>,
    pub character_palettes: Vec<u32>,
    pub attribute_files: Vec<u32>,
}

impl SgbSnapshot {
    /// Whether `self` holds what saving `part` keeps of it.
    pub open spec fn captures(&self, part: &SgbState) -> bool {
        &&& self.reading_command == part.reading_command
        &&& self.awaiting_stop_bit == part.awaiting_stop_bit
        &&& self.stop_bit_received == part.stop_bit_received
        &&& self.command_bytes@.len() == 112
        &&& forall|p: int, b: int|
            0 <= p < 7 && 0 <= b < 16 ==> #[trigger] self.command_bytes@[p * 16 + b] == part.command_bytes@[p]@[b]
        &&& self.command_bits@ == part.command_bits@
        &&& self.command == part.command
        &&& self.read_command_bits == part.read_command_bits
        &&& self.read_command_bytes == part.read_command_bytes
        &&& self.freeze_screen == part.freeze_screen
        &&& self.freeze_mode == part.freeze_mode
        &&& self.mult_enabled == part.mult_enabled
        &&& self.player_count == part.player_count
        &&& self.packets_sent == part.packets_sent
        &&& self.packets_to_send == part.packets_to_send
        &&& self.read_joypad_id == part.read_joypad_id
        &&& self.mono_data@ == part.mono_data@
        &&& self.transfer_vram@ == part.transfer_vram@
        &&& self.palettes@ == part.palettes@
        &&& self.system_palettes@ == part.system_palettes@
        &&& self.character_palettes@ == part.character_palettes@
        &&& self.attribute_files@ == part.attribute_files@
    }
}

impl SgbSnapshot {
    /// Saves the Super Game Boy state, the seven command packets one after another.
    pub fn from_sgb(sgb: &SgbState) -> (snapshot: Self)
        ensures
            snapshot.captures(sgb),
    {
        let mut command_bytes: Vec<u32> = Vec::new();
        let mut packet: usize = 0;
        while packet < 7
            invariant
                packet <= 7,
                command_bytes@.len() == packet * 16,
                forall|p: int, b: int|
                    0 <= p < packet && 0 <= b < 16 ==> #[trigger] command_bytes@[p * 16 + b] == sgb.command_bytes@[p]@[b],
            decreases 7 - packet,
        {
            let mut byte: usize = 0;
            while byte < 16
                invariant
                    packet < 7,
                    byte <= 16,
                    command_bytes@.len() == packet * 16 + byte,
                    forall|p: int, b: int|
                        0 <= p < packet && 0 <= b < 16 ==> #[trigger] command_bytes@[p * 16 + b] == sgb.command_bytes@[p]@[b],
                    forall|b: int| 0 <= b < byte ==> #[trigger] command_bytes@[packet * 16 + b] == sgb.command_bytes@[packet as int]@[b],
                decreases 16 - byte,
            {
                command_bytes.push(sgb.command_bytes[packet][byte]);
                byte += 1;
            }
            packet += 1;
        }
        SgbSnapshot {
            reading_command: sgb.reading_command,
            awaiting_stop_bit: sgb.awaiting_stop_bit,
            stop_bit_received: sgb.stop_bit_received,
            command_bytes,
            command_bits: vstd::slice::slice_to_vec(sgb.command_bits.as_slice()),
            command: sgb.command,
            read_command_bits: sgb.read_command_bits,
            read_command_bytes: sgb.read_command_bytes,
            freeze_screen: sgb.freeze_screen,
            freeze_mode: sgb.freeze_mode,
            mult_enabled: sgb.mult_enabled,
            player_count: sgb.player_count,
            packets_sent: sgb.packets_sent,
            packets_to_send: sgb.packets_to_send,
            read_joypad_id: sgb.read_joypad_id,
            mono_data: vstd::slice::slice_to_vec(sgb.mono_data.as_slice()),
            transfer_vram: vstd::slice::slice_to_vec(sgb.transfer_vram.as_slice()),
            palettes: vstd::slice::slice_to_vec(sgb.palettes.as_slice()),
            system_palettes: vstd::slice::slice_to_vec(sgb.system_palettes.as_slice()),
            character_palettes: vstd::slice::slice_to_vec(sgb.character_palettes.as_slice()),
            attribute_files: vstd::slice::slice_to_vec(sgb.attribute_files.as_slice()),
        }
    }

    /// How many of the saved buffers, in restore order, fit the state before one does not
    /// (8 when all fit); saved attribute files fit when empty too.
    pub open spec fn fit_count(&self, sgb: &SgbState) -> int {
        if self.command_bytes@.len() != 112 {
            0
        } else if self.command_bits@.len() != 8 {
            1
        } else if self.mono_data@.len() != sgb.mono_data@.len() {
            2
        } else if self.transfer_vram@.len() != sgb.transfer_vram@.len() {
            3
        } else if self.palettes@.len() != sgb.palettes@.len() {
            4
        } else if self.system_palettes@.len() != sgb.system_palettes@.len() {
            5
        } else if self.character_palettes@.len() != sgb.character_palettes@.len() {
            6
        } else if self.attribute_files@.len() != 0 && self.attribute_files@.len() != sgb.attribute_files@.len() {
            7
        } else {
            8
        }
    }

    /// The length error for the first saved buffer that does not fit.
    pub open spec fn misfit_error(&self, sgb: &SgbState, result: Result<(), SaveStateError>) -> bool {
        let n = self.fit_count(sgb);
        if n == 0 {
            is_length_error(result, "sgb.command_bytes", 112, self.command_bytes@.len() as int)
        } else if n == 1 {
            is_length_error(result, "sgb.command_bits", 8, self.command_bits@.len() as int)
        } else if n == 2 {
            is_length_error(result, "sgb.mono_data", sgb.mono_data@.len() as int, self.mono_data@.len() as int)
        } else if n == 3 {
            is_length_error(
                result,
                "sgb.transfer_vram",
                sgb.transfer_vram@.len() as int,
                self.transfer_vram@.len() as int,
            )
        } else if n == 4 {
            is_length_error(result, "sgb.palettes", sgb.palettes@.len() as int, self.palettes@.len() as int)
        } else if n == 5 {
            is_length_error(
                result,
                "sgb.system_palettes",
                sgb.system_palettes@.len() as int,
                self.system_palettes@.len() as int,
            )
        } else if n == 6 {
            is_length_error(
                result,
                "sgb.character_palettes",
                sgb.character_palettes@.len() as int,
                self.character_palettes@.len() as int,
            )
        } else if n == 7 {
            is_length_error(
                result,
                "sgb.attribute_files",
                sgb.attribute_files@.len() as int,
                self.attribute_files@.len() as int,
            )
        } else {
            result is Ok
        }
    }

    /// What `apply` does: `after` is `before` restored from `self`, ending with `result`.
    pub open spec fn restored(&self, before: &SgbState, after: &SgbState, result: Result<(), SaveStateError>) -> bool {
        &&& self.misfit_error(before, result)
        &&& result is Ok <==> self.fit_count(before) == 8
        &&& forall|p: int, b: int|
            0 <= p < 7 && 0 <= b < 16 ==> #[trigger] after.command_bytes@[p]@[b] == if self.fit_count(
                before,
            ) >= 1 {
                self.command_bytes@[p * 16 + b]
            } else {
                before.command_bytes@[p]@[b]
            }
        &&& after.command_bits@ == if self.fit_count(before) >= 2 {
            self.command_bits@
        } else {
            before.command_bits@
        }
        &&& after.mono_data@ == if self.fit_count(before) >= 3 {
            self.mono_data@
        } else {
            before.mono_data@
        }
        &&& after.transfer_vram@ == if self.fit_count(before) >= 4 {
            self.transfer_vram@
        } else {
            before.transfer_vram@
        }
        &&& after.palettes@ == if self.fit_count(before) >= 5 {
            self.palettes@
        } else {
            before.palettes@
        }
        &&& after.system_palettes@ == if self.fit_count(before) >= 6 {
            self.system_palettes@
        } else {
            before.system_palettes@
        }
        &&& after.character_palettes@ == if self.fit_count(before) >= 7 {
            self.character_palettes@
        } else {
            before.character_palettes@
        }
        &&& after.attribute_files@ == if self.fit_count(before) < 7 || (self.fit_count(before) == 7
            && self.attribute_files@.len() != 0) {
            before.attribute_files@
        } else if self.attribute_files@.len() == 0 {
            zeros(before.attribute_files@.len(), 0u32)
        } else {
            self.attribute_files@
        }
        &&& result is Ok ==> {
            &&& after.reading_command == self.reading_command
            &&& after.awaiting_stop_bit == self.awaiting_stop_bit
            &&& after.stop_bit_received == self.stop_bit_received
            &&& after.command == self.command
            &&& after.read_command_bits == self.read_command_bits
            &&& after.read_command_bytes == self.read_command_bytes
            &&& after.freeze_screen == self.freeze_screen
            &&& after.freeze_mode == self.freeze_mode
            &&& after.mult_enabled == self.mult_enabled
            &&& after.player_count == self.player_count
            &&& after.packets_sent == self.packets_sent
            &&& after.packets_to_send == self.packets_to_send
            &&& after.read_joypad_id == self.read_joypad_id
        }
        &&& result is Err ==> {
            &&& after.reading_command == before.reading_command
            &&& after.awaiting_stop_bit == before.awaiting_stop_bit
            &&& after.stop_bit_received == before.stop_bit_received
            &&& after.command == before.command
            &&& after.read_command_bits == before.read_command_bits
            &&& after.read_command_bytes == before.read_command_bytes
            &&& after.freeze_screen == before.freeze_screen
            &&& after.freeze_mode == before.freeze_mode
            &&& after.mult_enabled == before.mult_enabled
            &&& after.player_count == before.player_count
            &&& after.packets_sent == before.packets_sent
            &&& after.packets_to_send == before.packets_to_send
            &&& after.read_joypad_id == before.read_joypad_id
        }
        &&& after.completed_commands == before.completed_commands
        &&& after.last_command == before.last_command
        &&& after.packet_errors == before.packet_errors
    }

    /// Restores the command packets, then each buffer in order, then the command and effect
    /// fields; the first buffer of the wrong length stops the restore with a length error, the
    /// buffers before it already restored. Empty saved attribute files clear the attribute files.
    pub fn apply(self, sgb: &mut SgbState) -> (result: Result<(), SaveStateError>)
        ensures
            self.restored(old(sgb), final(sgb), result),
    {
        if self.command_bytes.len() != 7 * 16 {
            return Err(
                SaveStateError::InvalidFieldLength {
                    field: "sgb.command_bytes",
                    expected: 7 * 16,
                    actual: self.command_bytes.len(),
                },
            );
        }
        let ghost before = sgb.command_bytes;
        let mut index: usize = 0;
        while index < 112
            invariant
                self.command_bytes@.len() == 112,
                index <= 112,
                forall|p: int, b: int|
                    0 <= p < 7 && 0 <= b < 16 ==> #[trigger] sgb.command_bytes@[p]@[b] == if p * 16 + b < index {
                        self.command_bytes@[p * 16 + b]
                    } else {
                        before@[p]@[b]
                    },
                sgb.command_bits == old(sgb).command_bits,
                sgb.mono_data == old(sgb).mono_data,
                sgb.transfer_vram == old(sgb).transfer_vram,
                sgb.palettes == old(sgb).palettes,
                sgb.system_palettes == old(sgb).system_palettes,
                sgb.character_palettes == old(sgb).character_palettes,
                sgb.attribute_files == old(sgb).attribute_files,
                sgb.same_effects(old(sgb)),
                sgb.reading_command == old(sgb).reading_command,
                sgb.awaiting_stop_bit == old(sgb).awaiting_stop_bit,
                sgb.stop_bit_received == old(sgb).stop_bit_received,
                sgb.command == old(sgb).command,
                sgb.read_command_bits == old(sgb).read_command_bits,
                sgb.read_command_bytes == old(sgb).read_command_bytes,
                sgb.packets_sent == old(sgb).packets_sent,
                sgb.packets_to_send == old(sgb).packets_to_send,
                sgb.packet_errors == old(sgb).packet_errors,
            decreases 112 - index,
        {
            let packet = index / 16;
            let byte = index % 16;
            let mut row = sgb.command_bytes[packet];
            row[byte] = self.command_bytes[index];
            sgb.command_bytes[packet] = row;
            index += 1;
        }
        copy_u8_slice("sgb.command_bits", self.command_bits.as_slice(), &mut sgb.command_bits)?;
        copy_u32_slice("sgb.mono_data", self.mono_data.as_slice(), sgb.mono_data.as_mut_slice())?;
        copy_u8_slice("sgb.transfer_vram", self.transfer_vram.as_slice(), sgb.transfer_vram.as_mut_slice())?;
        copy_u32_slice("sgb.palettes", self.palettes.as_slice(), sgb.palettes.as_mut_slice())?;
        copy_u32_slice("sgb.system_palettes", self.system_palettes.as_slice(), sgb.system_palettes.as_mut_slice())?;
        copy_u32_slice(
            "sgb.character_palettes",
            self.character_palettes.as_slice(),
            sgb.character_palettes.as_mut_slice(),
        )?;
        if self.attribute_files.len() == 0 {
            fill_u32(&mut sgb.attribute_files);
        } else {
            copy_u32_slice("sgb.attribute_files", self.attribute_files.as_slice(), sgb.attribute_files.as_mut_slice())?;
        }
        sgb.reading_command = self.reading_command;
        sgb.awaiting_stop_bit = self.awaiting_stop_bit;
        sgb.stop_bit_received = self.stop_bit_received;
        sgb.command = self.command;
        sgb.read_command_bits = self.read_command_bits;
        sgb.read_command_bytes = self.read_command_bytes;
        sgb.freeze_screen = self.freeze_screen;
        sgb.freeze_mode = self.freeze_mode;
        sgb.mult_enabled = self.mult_enabled;
        sgb.player_count = self.player_count;
        sgb.packets_sent = self.packets_sent;
        sgb.packets_to_send = self.packets_to_send;
        sgb.read_joypad_id = self.read_joypad_id;
        Ok(())
    }
}

/// Duration of the mode-3 scan that a save state without one restores.
pub fn default_line_scan_vram_clocks() -> (clocks: i32)
    ensures
        clocks == DEFAULT_LINE_SCAN_VRAM_CLOCKS,
{
    172
}

/// MBC1 lower bank register that a save state without one restores.
pub fn default_mbc1_lower_bank() -> (bank: u8)
    ensures
        bank == 1,
{
    1
}

/// Saved joypad nibbles.
#[derive(Clone, Copy, Debug)]
pub struct JoypadSnapshot {
    pub button: u8,
    pub direction: u8,
}

impl vstd::std_specs::convert::FromSpecImpl<JoypadInputNibbles> for JoypadSnapshot {
    open spec fn obeys_from_spec() -> bool {
        true
    }

    open spec fn from_spec(joypad: JoypadInputNibbles) -> JoypadSnapshot {
        JoypadSnapshot {
            button: joypad.button,
            direction: joypad.direction,
        }
    }
}

impl From<JoypadInputNibbles> for JoypadSnapshot {
    fn from(joypad: JoypadInputNibbles) -> (converted: Self) {
        JoypadSnapshot {
            button: joypad.button,
            direction: joypad.direction,
        }
    }
}

impl vstd::std_specs::convert::FromSpecImpl<JoypadSnapshot> for JoypadInputNibbles {
    open spec fn obeys_from_spec() -> bool {
        true
    }

    open spec fn from_spec(snapshot: JoypadSnapshot) -> JoypadInputNibbles {
        JoypadInputNibbles {
            button: snapshot.button,
            direction: snapshot.direction,
        }
    }
}

impl From<JoypadSnapshot> for JoypadInputNibbles {
    fn from(snapshot: JoypadSnapshot) -> (converted: Self) {
        JoypadInputNibbles {
            button: snapshot.button,
            direction: snapshot.direction,
        }
    }
}

/// Saved run state, joypad and speed setting.
#[derive(Clone, Copy, Debug)]
pub struct RuntimeSnapshot {
    pub is_running: bool,
    pub is_paused: bool,
    pub joypad: JoypadSnapshot,
    pub joypad_state_changed: bool,
    pub clock_multiply: i64,
    pub clock_divide: i64,
    pub current_clock_multiplier_combo: i32,
}

impl vstd::std_specs::convert::FromSpecImpl<RuntimeControl> for RuntimeSnapshot {
    open spec fn obeys_from_spec() -> bool {
        true
    }

    open spec fn from_spec(runtime: RuntimeControl) -> RuntimeSnapshot {
        RuntimeSnapshot {
            is_running: runtime.is_running,
            is_paused: runtime.is_paused,
            joypad_state_changed: runtime.joypad_state_changed,
            clock_multiply: runtime.clock_multiply,
            clock_divide: runtime.clock_divide,
            current_clock_multiplier_combo: runtime.current_clock_multiplier_combo,
            joypad: JoypadSnapshot { button: runtime.joypad.button, direction: runtime.joypad.direction },
        }
    }
}

impl From<RuntimeControl> for RuntimeSnapshot {
    fn from(runtime: RuntimeControl) -> (converted: Self) {
        RuntimeSnapshot {
            is_running: runtime.is_running,
            is_paused: runtime.is_paused,
            joypad_state_changed: runtime.joypad_state_changed,
            clock_multiply: runtime.clock_multiply,
            clock_divide: runtime.clock_divide,
            current_clock_multiplier_combo: runtime.current_clock_multiplier_combo,
            joypad: JoypadSnapshot::from(runtime.joypad),
        }
    }
}

impl vstd::std_specs::convert::FromSpecImpl<RuntimeSnapshot> for RuntimeControl {
    open spec fn obeys_from_spec() -> bool {
        true
    }

    open spec fn from_spec(snapshot: RuntimeSnapshot) -> RuntimeControl {
        RuntimeControl {
            is_running: snapshot.is_running,
            is_paused: snapshot.is_paused,
            joypad_state_changed: snapshot.joypad_state_changed,
            clock_multiply: snapshot.clock_multiply,
            clock_divide: snapshot.clock_divide,
            current_clock_multiplier_combo: snapshot.current_clock_multiplier_combo,
            joypad: JoypadInputNibbles { button: snapshot.joypad.button, direction: snapshot.joypad.direction },
        }
    }
}

impl From<RuntimeSnapshot> for RuntimeControl {
    fn from(snapshot: RuntimeSnapshot) -> (converted: Self) {
        RuntimeControl {
            is_running: snapshot.is_running,
            is_paused: snapshot.is_paused,
            joypad_state_changed: snapshot.joypad_state_changed,
            clock_multiply: snapshot.clock_multiply,
            clock_divide: snapshot.clock_divide,
            current_clock_multiplier_combo: snapshot.current_clock_multiplier_combo,
            joypad: JoypadInputNibbles::from(snapshot.joypad),
        }
    }
}

/// Saved CPU registers.
#[derive(Clone, Copy, Debug)]
pub struct CpuRegistersSnapshot {
    pub pc: u32,
    pub sp: u32,
    pub a: u8,
    pub f: u8,
    pub b: u8,
    pub c: u8,
    pub d: u8,
    pub e: u8,
    pub h: u8,
    pub l: u8,
    pub ime: bool,
    pub ime_enable_delay: u8,
    pub halt_bug: bool,
}

impl vstd::std_specs::convert::FromSpecImpl<CpuRegisters> for CpuRegistersSnapshot {
    open spec fn obeys_from_spec() -> bool {
        true
    }

    open spec fn from_spec(registers: CpuRegisters) -> CpuRegistersSnapshot {
        CpuRegistersSnapshot {
            pc: registers.pc,
            sp: registers.sp,
            a: registers.a,
            f: registers.f,
            b: registers.b,
            c: registers.c,
            d: registers.d,
            e: registers.e,
            h: registers.h,
            l: registers.l,
            ime: registers.ime,
            ime_enable_delay: registers.ime_enable_delay,
            halt_bug: registers.halt_bug,
        }
    }
}

impl From<CpuRegisters> for CpuRegistersSnapshot {
    fn from(registers: CpuRegisters) -> (converted: Self) {
        CpuRegistersSnapshot {
            pc: registers.pc,
            sp: registers.sp,
            a: registers.a,
            f: registers.f,
            b: registers.b,
            c: registers.c,
            d: registers.d,
            e: registers.e,
            h: registers.h,
            l: registers.l,
            ime: registers.ime,
            ime_enable_delay: registers.ime_enable_delay,
            halt_bug: registers.halt_bug,
        }
    }
}

impl vstd::std_specs::convert::FromSpecImpl<CpuRegistersSnapshot> for CpuRegisters {
    open spec fn obeys_from_spec() -> bool {
        true
    }

    open spec fn from_spec(snapshot: CpuRegistersSnapshot) -> CpuRegisters {
        CpuRegisters {
            pc: snapshot.pc,
            sp: snapshot.sp,
            a: snapshot.a,
            f: snapshot.f,
            b: snapshot.b,
            c: snapshot.c,
            d: snapshot.d,
            e: snapshot.e,
            h: snapshot.h,
            l: snapshot.l,
            ime: snapshot.ime,
            ime_enable_delay: snapshot.ime_enable_delay,
            halt_bug: snapshot.halt_bug,
        }
    }
}

impl From<CpuRegistersSnapshot> for CpuRegisters {
    fn from(snapshot: CpuRegistersSnapshot) -> (converted: Self) {
        CpuRegisters {
            pc: snapshot.pc,
            sp: snapshot.sp,
            a: snapshot.a,
            f: snapshot.f,
            b: snapshot.b,
            c: snapshot.c,
            d: snapshot.d,
            e: snapshot.e,
            h: snapshot.h,
            l: snapshot.l,
            ime: snapshot.ime,
            ime_enable_delay: snapshot.ime_enable_delay,
            halt_bug: snapshot.halt_bug,
        }
    }
}

/// Saved CPU clock bookkeeping; a timer reload in progress is not kept.
#[derive(Clone, Copy, Debug)]
pub struct CpuTimingSnapshot {
    pub clocks_acc: i32,
    pub clock_frequency_hz: i64,
    pub system_counter: u16,
    pub tima_reload_delay: u8,
}

impl vstd::std_specs::convert::FromSpecImpl<CpuTiming> for CpuTimingSnapshot {
    open spec fn obeys_from_spec() -> bool {
        true
    }

    open spec fn from_spec(timing: CpuTiming) -> CpuTimingSnapshot {
        CpuTimingSnapshot {
            clocks_acc: timing.clocks_acc,
            clock_frequency_hz: timing.clock_frequency_hz,
            system_counter: timing.system_counter,
            tima_reload_delay: timing.tima_reload_delay,
        }
    }
}

impl From<CpuTiming> for CpuTimingSnapshot {
    fn from(timing: CpuTiming) -> (converted: Self) {
        CpuTimingSnapshot {
            clocks_acc: timing.clocks_acc,
            clock_frequency_hz: timing.clock_frequency_hz,
            system_counter: timing.system_counter,
            tima_reload_delay: timing.tima_reload_delay,
        }
    }
}

impl vstd::std_specs::convert::FromSpecImpl<CpuTimingSnapshot> for CpuTiming {
    open spec fn obeys_from_spec() -> bool {
        true
    }

    open spec fn from_spec(snapshot: CpuTimingSnapshot) -> CpuTiming {
        CpuTiming {
            clocks_acc: snapshot.clocks_acc,
            clock_frequency_hz: snapshot.clock_frequency_hz,
            system_counter: snapshot.system_counter,
            tima_reload_delay: snapshot.tima_reload_delay,
            tima_reload_active: false,
        }
    }
}

impl From<CpuTimingSnapshot> for CpuTiming {
    fn from(snapshot: CpuTimingSnapshot) -> (converted: Self) {
        CpuTiming {
            clocks_acc: snapshot.clocks_acc,
            clock_frequency_hz: snapshot.clock_frequency_hz,
            system_counter: snapshot.system_counter,
            tima_reload_delay: snapshot.tima_reload_delay,
            tima_reload_active: false,
        }
    }
}

/// Saved CPU mode.
#[derive(Clone, Copy, Debug, PartialEq, Eq, Structural)]
pub enum CpuModeSnapshot {
    Running,
    Halted,
    Stopped,
}

impl vstd::std_specs::convert::FromSpecImpl<CpuMode> for CpuModeSnapshot {
    open spec fn obeys_from_spec() -> bool {
        true
    }

    open spec fn from_spec(mode: CpuMode) -> CpuModeSnapshot {
        match mode {
            CpuMode::Running => CpuModeSnapshot::Running,
            CpuMode::Halted => CpuModeSnapshot::Halted,
            CpuMode::Stopped => CpuModeSnapshot::Stopped,
        }
    }
}

impl From<CpuMode> for CpuModeSnapshot {
    fn from(mode: CpuMode) -> (converted: Self) {
        match mode {
            CpuMode::Running => CpuModeSnapshot::Running,
            CpuMode::Halted => CpuModeSnapshot::Halted,
            CpuMode::Stopped => CpuModeSnapshot::Stopped,
        }
    }
}

impl vstd::std_specs::convert::FromSpecImpl<CpuModeSnapshot> for CpuMode {
    open spec fn obeys_from_spec() -> bool {
        true
    }

    open spec fn from_spec(snapshot: CpuModeSnapshot) -> CpuMode {
        match snapshot {
            CpuModeSnapshot::Running => CpuMode::Running,
            CpuModeSnapshot::Halted => CpuMode::Halted,
            CpuModeSnapshot::Stopped => CpuMode::Stopped,
        }
    }
}

impl From<CpuModeSnapshot> for CpuMode {
    fn from(snapshot: CpuModeSnapshot) -> (converted: Self) {
        match snapshot {
            CpuModeSnapshot::Running => CpuMode::Running,
            CpuModeSnapshot::Halted => CpuMode::Halted,
            CpuModeSnapshot::Stopped => CpuMode::Stopped,
        }
    }
}

/// Saved serial port state.
#[derive(Clone, Copy, Debug)]
pub struct SerialSnapshot {
    pub request: bool,
    pub is_transferring: bool,
    pub clock_is_external: bool,
    pub timer: i32,
}

impl vstd::std_specs::convert::FromSpecImpl<SerialState> for SerialSnapshot {
    open spec fn obeys_from_spec() -> bool {
        true
    }

    open spec fn from_spec(serial: SerialState) -> SerialSnapshot {
        SerialSnapshot {
            request: serial.request,
            is_transferring: serial.is_transferring,
            clock_is_external: serial.clock_is_external,
            timer: serial.timer,
        }
    }
}

impl From<SerialState> for SerialSnapshot {
    fn from(serial: SerialState) -> (converted: Self) {
        SerialSnapshot {
            request: serial.request,
            is_transferring: serial.is_transferring,
            clock_is_external: serial.clock_is_external,
            timer: serial.timer,
        }
    }
}

impl vstd::std_specs::convert::FromSpecImpl<SerialSnapshot> for SerialState {
    open spec fn obeys_from_spec() -> bool {
        true
    }

    open spec fn from_spec(snapshot: SerialSnapshot) -> SerialState {
        SerialState {
            request: snapshot.request,
            is_transferring: snapshot.is_transferring,
            clock_is_external: snapshot.clock_is_external,
            timer: snapshot.timer,
        }
    }
}

impl From<SerialSnapshot> for SerialState {
    fn from(snapshot: SerialSnapshot) -> (converted: Self) {
        SerialState {
            request: snapshot.request,
            is_transferring: snapshot.is_transferring,
            clock_is_external: snapshot.clock_is_external,
            timer: snapshot.timer,
        }
    }
}

/// Saved OAM DMA state.
#[derive(Clone, Copy, Debug)]
pub struct OamDmaSnapshot {
    pub pending_source_high: Option<u8>,
    pub source_high: u8,
    pub next_index: u8,
    pub active: bool,
}

impl vstd::std_specs::convert::FromSpecImpl<OamDmaState> for OamDmaSnapshot {
    open spec fn obeys_from_spec() -> bool {
        true
    }

    open spec fn from_spec(oam: OamDmaState) -> OamDmaSnapshot {
        OamDmaSnapshot {
            pending_source_high: oam.pending_source_high,
            source_high: oam.source_high,
            next_index: oam.next_index,
            active: oam.active,
        }
    }
}

impl From<OamDmaState> for OamDmaSnapshot {
    fn from(oam: OamDmaState) -> (converted: Self) {
        OamDmaSnapshot {
            pending_source_high: oam.pending_source_high,
            source_high: oam.source_high,
            next_index: oam.next_index,
            active: oam.active,
        }
    }
}

impl vstd::std_specs::convert::FromSpecImpl<OamDmaSnapshot> for OamDmaState {
    open spec fn obeys_from_spec() -> bool {
        true
    }

    open spec fn from_spec(snapshot: OamDmaSnapshot) -> OamDmaState {
        OamDmaState {
            pending_source_high: snapshot.pending_source_high,
            source_high: snapshot.source_high,
            next_index: snapshot.next_index,
            active: snapshot.active,
        }
    }
}

impl From<OamDmaSnapshot> for OamDmaState {
    fn from(snapshot: OamDmaSnapshot) -> (converted: Self) {
        OamDmaState {
            pending_source_high: snapshot.pending_source_high,
            source_high: snapshot.source_high,
            next_index: snapshot.next_index,
            active: snapshot.active,
        }
    }
}

/// Saved VRAM DMA state.
#[derive(Clone, Copy, Debug)]
pub struct VramDmaSnapshot {
    pub cpu_halt_m_cycles: i32,
}

impl vstd::std_specs::convert::FromSpecImpl<VramDmaState> for VramDmaSnapshot {
    open spec fn obeys_from_spec() -> bool {
        true
    }

    open spec fn from_spec(vram: VramDmaState) -> VramDmaSnapshot {
        VramDmaSnapshot {
            cpu_halt_m_cycles: vram.cpu_halt_m_cycles,
        }
    }
}

impl From<VramDmaState> for VramDmaSnapshot {
    fn from(vram: VramDmaState) -> (converted: Self) {
        VramDmaSnapshot {
            cpu_halt_m_cycles: vram.cpu_halt_m_cycles,
        }
    }
}

impl vstd::std_specs::convert::FromSpecImpl<VramDmaSnapshot> for VramDmaState {
    open spec fn obeys_from_spec() -> bool {
        true
    }

    open spec fn from_spec(snapshot: VramDmaSnapshot) -> VramDmaState {
        VramDmaState {
            cpu_halt_m_cycles: snapshot.cpu_halt_m_cycles,
        }
    }
}

impl From<VramDmaSnapshot> for VramDmaState {
    fn from(snapshot: VramDmaSnapshot) -> (converted: Self) {
        VramDmaState {
            cpu_halt_m_cycles: snapshot.cpu_halt_m_cycles,
        }
    }
}

/// Saved state of both DMA engines.
#[derive(Clone, Copy, Debug)]
pub struct DmaSnapshot {
    pub oam: OamDmaSnapshot,
    pub vram: VramDmaSnapshot,
}

impl vstd::std_specs::convert::FromSpecImpl<DmaState> for DmaSnapshot {
    open spec fn obeys_from_spec() -> bool {
        true
    }

    open spec fn from_spec(dma: DmaState) -> DmaSnapshot {
        DmaSnapshot {
            oam: OamDmaSnapshot { pending_source_high: dma.oam.pending_source_high, source_high: dma.oam.source_high, next_index: dma.oam.next_index, active: dma.oam.active },
            vram: VramDmaSnapshot { cpu_halt_m_cycles: dma.vram.cpu_halt_m_cycles },
        }
    }
}

impl From<DmaState> for DmaSnapshot {
    fn from(dma: DmaState) -> (converted: Self) {
        DmaSnapshot {
            oam: OamDmaSnapshot::from(dma.oam),
            vram: VramDmaSnapshot::from(dma.vram),
        }
    }
}

impl vstd::std_specs::convert::FromSpecImpl<DmaSnapshot> for DmaState {
    open spec fn obeys_from_spec() -> bool {
        true
    }

    open spec fn from_spec(snapshot: DmaSnapshot) -> DmaState {
        DmaState {
            oam: OamDmaState { pending_source_high: snapshot.oam.pending_source_high, source_high: snapshot.oam.source_high, next_index: snapshot.oam.next_index, active: snapshot.oam.active },
            vram: VramDmaState { cpu_halt_m_cycles: snapshot.vram.cpu_halt_m_cycles },
        }
    }
}

impl From<DmaSnapshot> for DmaState {
    fn from(snapshot: DmaSnapshot) -> (converted: Self) {
        DmaState {
            oam: OamDmaState::from(snapshot.oam),
            vram: VramDmaState::from(snapshot.vram),
        }
    }
}

/// Saved picture processing unit timing.
#[derive(Clone, Copy, Debug)]
pub struct GpuTimingSnapshot {
    pub clock_factor: i32,
    pub time_in_mode: i32,
    pub line_scan_vram_clocks: i32,
    pub last_ly_compare: u32,
    pub blanked_screen: bool,
    pub need_clear: bool,
}

impl vstd::std_specs::convert::FromSpecImpl<GpuTiming> for GpuTimingSnapshot {
    open spec fn obeys_from_spec() -> bool {
        true
    }

    open spec fn from_spec(timing: GpuTiming) -> GpuTimingSnapshot {
        GpuTimingSnapshot {
            clock_factor: timing.clock_factor,
            time_in_mode: timing.time_in_mode,
            line_scan_vram_clocks: timing.line_scan_vram_clocks,
            last_ly_compare: timing.last_ly_compare,
            blanked_screen: timing.blanked_screen,
            need_clear: timing.need_clear,
        }
    }
}

impl From<GpuTiming> for GpuTimingSnapshot {
    fn from(timing: GpuTiming) -> (converted: Self) {
        GpuTimingSnapshot {
            clock_factor: timing.clock_factor,
            time_in_mode: timing.time_in_mode,
            line_scan_vram_clocks: timing.line_scan_vram_clocks,
            last_ly_compare: timing.last_ly_compare,
            blanked_screen: timing.blanked_screen,
            need_clear: timing.need_clear,
        }
    }
}

impl vstd::std_specs::convert::FromSpecImpl<GpuTimingSnapshot> for GpuTiming {
    open spec fn obeys_from_spec() -> bool {
        true
    }

    open spec fn from_spec(snapshot: GpuTimingSnapshot) -> GpuTiming {
        GpuTiming {
            clock_factor: snapshot.clock_factor,
            time_in_mode: snapshot.time_in_mode,
            line_scan_vram_clocks: snapshot.line_scan_vram_clocks,
            last_ly_compare: snapshot.last_ly_compare,
            blanked_screen: snapshot.blanked_screen,
            need_clear: snapshot.need_clear,
        }
    }
}

impl From<GpuTimingSnapshot> for GpuTiming {
    fn from(snapshot: GpuTimingSnapshot) -> (converted: Self) {
        GpuTiming {
            clock_factor: snapshot.clock_factor,
            time_in_mode: snapshot.time_in_mode,
            line_scan_vram_clocks: snapshot.line_scan_vram_clocks,
            last_ly_compare: snapshot.last_ly_compare,
            blanked_screen: snapshot.blanked_screen,
            need_clear: snapshot.need_clear,
        }
    }
}

/// Saved picture processing unit mode.
#[derive(Clone, Copy, Debug, PartialEq, Eq, Structural)]
pub enum GpuModeSnapshot {
    HBlank,
    VBlank,
    ScanOam,
    ScanVram,
}

impl vstd::std_specs::convert::FromSpecImpl<GpuMode> for GpuModeSnapshot {
    open spec fn obeys_from_spec() -> bool {
        true
    }

    open spec fn from_spec(mode: GpuMode) -> GpuModeSnapshot {
        match mode {
            GpuMode::HBlank => GpuModeSnapshot::HBlank,
            GpuMode::VBlank => GpuModeSnapshot::VBlank,
            GpuMode::ScanOam => GpuModeSnapshot::ScanOam,
            GpuMode::ScanVram => GpuModeSnapshot::ScanVram,
        }
    }
}

impl From<GpuMode> for GpuModeSnapshot {
    fn from(mode: GpuMode) -> (converted: Self) {
        match mode {
            GpuMode::HBlank => GpuModeSnapshot::HBlank,
            GpuMode::VBlank => GpuModeSnapshot::VBlank,
            GpuMode::ScanOam => GpuModeSnapshot::ScanOam,
            GpuMode::ScanVram => GpuModeSnapshot::ScanVram,
        }
    }
}

impl vstd::std_specs::convert::FromSpecImpl<GpuModeSnapshot> for GpuMode {
    open spec fn obeys_from_spec() -> bool {
        true
    }

    open spec fn from_spec(snapshot: GpuModeSnapshot) -> GpuMode {
        match snapshot {
            GpuModeSnapshot::HBlank => GpuMode::HBlank,
            GpuModeSnapshot::VBlank => GpuMode::VBlank,
            GpuModeSnapshot::ScanOam => GpuMode::ScanOam,
            GpuModeSnapshot::ScanVram => GpuMode::ScanVram,
        }
    }
}

impl From<GpuModeSnapshot> for GpuMode {
    fn from(snapshot: GpuModeSnapshot) -> (converted: Self) {
        match snapshot {
            GpuModeSnapshot::HBlank => GpuMode::HBlank,
            GpuModeSnapshot::VBlank => GpuMode::VBlank,
            GpuModeSnapshot::ScanOam => GpuMode::ScanOam,
            GpuModeSnapshot::ScanVram => GpuMode::ScanVram,
        }
    }
}

/// Saved choice of scanline renderer.
#[derive(Clone, Copy, Debug, PartialEq, Eq, Structural)]
pub enum LineRendererSnapshot {
    Gb,
    Sgb,
    Cgb,
}

impl vstd::std_specs::convert::FromSpecImpl<LineRenderer> for LineRendererSnapshot {
    open spec fn obeys_from_spec() -> bool {
        true
    }

    open spec fn from_spec(renderer: LineRenderer) -> LineRendererSnapshot {
        match renderer {
            LineRenderer::Gb => LineRendererSnapshot::Gb,
            LineRenderer::Sgb => LineRendererSnapshot::Sgb,
            LineRenderer::Cgb => LineRendererSnapshot::Cgb,
        }
    }
}

impl From<LineRenderer> for LineRendererSnapshot {
    fn from(renderer: LineRenderer) -> (converted: Self) {
        match renderer {
            LineRenderer::Gb => LineRendererSnapshot::Gb,
            LineRenderer::Sgb => LineRendererSnapshot::Sgb,
            LineRenderer::Cgb => LineRendererSnapshot::Cgb,
        }
    }
}

impl vstd::std_specs::convert::FromSpecImpl<LineRendererSnapshot> for LineRenderer {
    open spec fn obeys_from_spec() -> bool {
        true
    }

    open spec fn from_spec(snapshot: LineRendererSnapshot) -> LineRenderer {
        match snapshot {
            LineRendererSnapshot::Gb => LineRenderer::Gb,
            LineRendererSnapshot::Sgb => LineRenderer::Sgb,
            LineRendererSnapshot::Cgb => LineRenderer::Cgb,
        }
    }
}

impl From<LineRendererSnapshot> for LineRenderer {
    fn from(snapshot: LineRendererSnapshot) -> (converted: Self) {
        match snapshot {
            LineRendererSnapshot::Gb => LineRenderer::Gb,
            LineRendererSnapshot::Sgb => LineRenderer::Sgb,
            LineRendererSnapshot::Cgb => LineRenderer::Cgb,
        }
    }
}

/// Saved memory access flags and bank offsets.
#[derive(Clone, Copy, Debug)]
pub struct MemoryAccessSnapshot {
    pub oam: bool,
    pub vram: bool,
    pub wram_bank_offset: u32,
    pub vram_bank_offset: u32,
}

impl vstd::std_specs::convert::FromSpecImpl<MemoryAccess> for MemoryAccessSnapshot {
    open spec fn obeys_from_spec() -> bool {
        true
    }

    open spec fn from_spec(access: MemoryAccess) -> MemoryAccessSnapshot {
        MemoryAccessSnapshot {
            oam: access.oam,
            vram: access.vram,
            wram_bank_offset: access.wram_bank_offset,
            vram_bank_offset: access.vram_bank_offset,
        }
    }
}

impl From<MemoryAccess> for MemoryAccessSnapshot {
    fn from(access: MemoryAccess) -> (converted: Self) {
        MemoryAccessSnapshot {
            oam: access.oam,
            vram: access.vram,
            wram_bank_offset: access.wram_bank_offset,
            vram_bank_offset: access.vram_bank_offset,
        }
    }
}

impl vstd::std_specs::convert::FromSpecImpl<MemoryAccessSnapshot> for MemoryAccess {
    open spec fn obeys_from_spec() -> bool {
        true
    }

    open spec fn from_spec(snapshot: MemoryAccessSnapshot) -> MemoryAccess {
        MemoryAccess {
            oam: snapshot.oam,
            vram: snapshot.vram,
            wram_bank_offset: snapshot.wram_bank_offset,
            vram_bank_offset: snapshot.vram_bank_offset,
        }
    }
}

impl From<MemoryAccessSnapshot> for MemoryAccess {
    fn from(snapshot: MemoryAccessSnapshot) -> (converted: Self) {
        MemoryAccess {
            oam: snapshot.oam,
            vram: snapshot.vram,
            wram_bank_offset: snapshot.wram_bank_offset,
            vram_bank_offset: snapshot.vram_bank_offset,
        }
    }
}

/// Saved memory bank controller kind.
#[derive(Clone, Copy, Debug, PartialEq, Eq, Structural)]
pub enum MemoryBankControllerSnapshot {
    RomOnly,
    Mbc1,
    Mbc2,
    Mbc3,
    Mbc4,
    Mbc5,
    Mmm01,
}

impl vstd::std_specs::convert::FromSpecImpl<MemoryBankController> for MemoryBankControllerSnapshot {
    open spec fn obeys_from_spec() -> bool {
        true
    }

    open spec fn from_spec(controller: MemoryBankController) -> MemoryBankControllerSnapshot {
        match controller {
            MemoryBankController::RomOnly => MemoryBankControllerSnapshot::RomOnly,
            MemoryBankController::Mbc1 => MemoryBankControllerSnapshot::Mbc1,
            MemoryBankController::Mbc2 => MemoryBankControllerSnapshot::Mbc2,
            MemoryBankController::Mbc3 => MemoryBankControllerSnapshot::Mbc3,
            MemoryBankController::Mbc4 => MemoryBankControllerSnapshot::Mbc4,
            MemoryBankController::Mbc5 => MemoryBankControllerSnapshot::Mbc5,
            MemoryBankController::Mmm01 => MemoryBankControllerSnapshot::Mmm01,
        }
    }
}

impl From<MemoryBankController> for MemoryBankControllerSnapshot {
    fn from(controller: MemoryBankController) -> (converted: Self) {
        match controller {
            MemoryBankController::RomOnly => MemoryBankControllerSnapshot::RomOnly,
            MemoryBankController::Mbc1 => MemoryBankControllerSnapshot::Mbc1,
            MemoryBankController::Mbc2 => MemoryBankControllerSnapshot::Mbc2,
            MemoryBankController::Mbc3 => MemoryBankControllerSnapshot::Mbc3,
            MemoryBankController::Mbc4 => MemoryBankControllerSnapshot::Mbc4,
            MemoryBankController::Mbc5 => MemoryBankControllerSnapshot::Mbc5,
            MemoryBankController::Mmm01 => MemoryBankControllerSnapshot::Mmm01,
        }
    }
}

impl vstd::std_specs::convert::FromSpecImpl<MemoryBankControllerSnapshot> for MemoryBankController {
    open spec fn obeys_from_spec() -> bool {
        true
    }

    open spec fn from_spec(snapshot: MemoryBankControllerSnapshot) -> MemoryBankController {
        match snapshot {
            MemoryBankControllerSnapshot::RomOnly => MemoryBankController::RomOnly,
            MemoryBankControllerSnapshot::Mbc1 => MemoryBankController::Mbc1,
            MemoryBankControllerSnapshot::Mbc2 => MemoryBankController::Mbc2,
            MemoryBankControllerSnapshot::Mbc3 => MemoryBankController::Mbc3,
            MemoryBankControllerSnapshot::Mbc4 => MemoryBankController::Mbc4,
            MemoryBankControllerSnapshot::Mbc5 => MemoryBankController::Mbc5,
            MemoryBankControllerSnapshot::Mmm01 => MemoryBankController::Mmm01,
        }
    }
}

impl From<MemoryBankControllerSnapshot> for MemoryBankController {
    fn from(snapshot: MemoryBankControllerSnapshot) -> (converted: Self) {
        match snapshot {
            MemoryBankControllerSnapshot::RomOnly => MemoryBankController::RomOnly,
            MemoryBankControllerSnapshot::Mbc1 => MemoryBankController::Mbc1,
            MemoryBankControllerSnapshot::Mbc2 => MemoryBankController::Mbc2,
            MemoryBankControllerSnapshot::Mbc3 => MemoryBankController::Mbc3,
            MemoryBankControllerSnapshot::Mbc4 => MemoryBankController::Mbc4,
            MemoryBankControllerSnapshot::Mbc5 => MemoryBankController::Mbc5,
            MemoryBankControllerSnapshot::Mmm01 => MemoryBankController::Mmm01,
        }
    }
}

/// Saved cartridge header properties.
pub struct RomPropertiesSnapshot {
    pub valid: bool,
    pub title: Vec<u8>,
    pub mbc: MemoryBankControllerSnapshot,
    pub cgb_flag: bool,
    pub sgb_flag: bool,
    pub has_sram: bool,
    pub has_rumble: bool,
    pub size_bytes: i32,
    pub bank_select_mask: u32,
    pub mbc_mode: u32,
    pub cart_type: u32,
    pub check_sum: u32,
    pub size_enum: u32,
}

impl RomPropertiesSnapshot {
    /// Saves the header properties.
    pub fn from_properties(properties: RomProperties) -> (snapshot: Self)
        ensures
            snapshot.valid == properties.valid,
            snapshot.title@ == properties.title@,
            snapshot.mbc == MemoryBankControllerSnapshot::from_spec(properties.mbc),
            snapshot.cgb_flag == properties.cgb_flag,
            snapshot.sgb_flag == properties.sgb_flag,
            snapshot.has_sram == properties.has_sram,
            snapshot.has_rumble == properties.has_rumble,
            snapshot.size_bytes == properties.size_bytes,
            snapshot.bank_select_mask == properties.bank_select_mask,
            snapshot.mbc_mode == properties.mbc_mode,
            snapshot.cart_type == properties.cart_type,
            snapshot.check_sum == properties.check_sum,
            snapshot.size_enum == properties.size_enum,
    {
        RomPropertiesSnapshot {
            valid: properties.valid,
            title: vstd::slice::slice_to_vec(properties.title.as_slice()),
            mbc: MemoryBankControllerSnapshot::from(properties.mbc),
            cgb_flag: properties.cgb_flag,
            sgb_flag: properties.sgb_flag,
            has_sram: properties.has_sram,
            has_rumble: properties.has_rumble,
            size_bytes: properties.size_bytes,
            bank_select_mask: properties.bank_select_mask,
            mbc_mode: properties.mbc_mode,
            cart_type: properties.cart_type,
            check_sum: properties.check_sum,
            size_enum: properties.size_enum,
        }
    }

    /// The saved header properties; the title keeps its first 17 saved bytes and is padded
    /// with zeros.
    pub fn into_properties(self) -> (properties: RomProperties)
        ensures
            properties.valid == self.valid,
            forall|i: int|
                0 <= i < 17 ==> #[trigger] properties.title@[i] == if i < self.title@.len() {
                    self.title@[i]
                } else {
                    0u8
                },
            properties.mbc == MemoryBankController::from_spec(self.mbc),
            properties.cgb_flag == self.cgb_flag,
            properties.sgb_flag == self.sgb_flag,
            properties.has_sram == self.has_sram,
            properties.has_rumble == self.has_rumble,
            properties.size_bytes == self.size_bytes,
            properties.bank_select_mask == self.bank_select_mask,
            properties.mbc_mode == self.mbc_mode,
            properties.cart_type == self.cart_type,
            properties.check_sum == self.check_sum,
            properties.size_enum == self.size_enum,
    {
        let mut title = [0u8; 17];
        let copy_len = if self.title.len() < 17 {
            self.title.len()
        } else {
            17
        };
        let mut i: usize = 0;
        while i < copy_len
            invariant
                copy_len <= 17,
                copy_len <= self.title@.len(),
                copy_len == 17 || copy_len == self.title@.len(),
                i <= copy_len,
                forall|j: int| 0 <= j < 17 ==> #[trigger] title@[j] == if j < i { self.title@[j] } else { 0u8 },
            decreases copy_len - i,
        {
            title[i] = self.title[i];
            i += 1;
        }
        RomProperties {
            valid: self.valid,
            title,
            mbc: MemoryBankController::from(self.mbc),
            cgb_flag: self.cgb_flag,
            sgb_flag: self.sgb_flag,
            has_sram: self.has_sram,
            has_rumble: self.has_rumble,
            size_bytes: self.size_bytes,
            bank_select_mask: self.bank_select_mask,
            mbc_mode: self.mbc_mode,
            cart_type: self.cart_type,
            check_sum: self.check_sum,
            size_enum: self.size_enum,
        }
    }
}

/// Saved cartridge identity and bank registers.
pub struct RomSnapshot {
    pub properties: RomPropertiesSnapshot,
    pub fixed_bank_offset: u32,
    pub bank_offset: u32,
    pub mbc1_lower_bank: u8,
    pub mbc1_upper_bank: u8,
    pub suspicious_mbc_warning_logged: bool,
    pub current_rom_id: String,
    pub current_opened_file: String,
}

impl RomSnapshot {
    /// Whether `self` holds what saving `part` keeps of it.
    pub open spec fn captures(&self, part: &RomState) -> bool {
        &&& self.properties.title@ == part.properties.title@
        &&& self.properties.mbc == MemoryBankControllerSnapshot::from_spec(part.properties.mbc)
        &&& self.properties.valid == part.properties.valid
        &&& self.properties.cgb_flag == part.properties.cgb_flag
        &&& self.properties.sgb_flag == part.properties.sgb_flag
        &&& self.properties.has_sram == part.properties.has_sram
        &&& self.properties.has_rumble == part.properties.has_rumble
        &&& self.properties.size_bytes == part.properties.size_bytes
        &&& self.properties.bank_select_mask == part.properties.bank_select_mask
        &&& self.properties.mbc_mode == part.properties.mbc_mode
        &&& self.properties.cart_type == part.properties.cart_type
        &&& self.properties.check_sum == part.properties.check_sum
        &&& self.properties.size_enum == part.properties.size_enum
        &&& self.fixed_bank_offset == part.fixed_bank_offset
        &&& self.bank_offset == part.bank_offset
        &&& self.mbc1_lower_bank == part.mbc1_lower_bank
        &&& self.mbc1_upper_bank == part.mbc1_upper_bank
        &&& self.suspicious_mbc_warning_logged == part.suspicious_mbc_warning_logged
        &&& self.current_rom_id == part.current_rom_id
        &&& self.current_opened_file == part.current_opened_file
    }
}

impl RomSnapshot {
    /// Saves the cartridge identity, header properties and bank registers.
    pub fn from_rom(rom: &RomState) -> (snapshot: Self)
        ensures
            snapshot.captures(rom),
    {
        RomSnapshot {
            properties: RomPropertiesSnapshot::from_properties(rom.properties),
            fixed_bank_offset: rom.fixed_bank_offset,
            bank_offset: rom.bank_offset,
            mbc1_lower_bank: rom.mbc1_lower_bank,
            mbc1_upper_bank: rom.mbc1_upper_bank,
            suspicious_mbc_warning_logged: rom.suspicious_mbc_warning_logged,
            current_rom_id: rom.current_rom_id.clone(),
            current_opened_file: rom.current_opened_file.clone(),
        }
    }

    /// `rom` is the cartridge state saved in `self`.
    pub open spec fn converted_into(&self, rom: &RomState) -> bool {
        &&& forall|i: int|
            0 <= i < 17 ==> #[trigger] rom.properties.title@[i] == if i < self.properties.title@.len() {
                self.properties.title@[i]
            } else {
                0u8
            }
        &&& rom.properties.mbc == MemoryBankController::from_spec(self.properties.mbc)
        &&& rom.properties.valid == self.properties.valid
        &&& rom.properties.cgb_flag == self.properties.cgb_flag
        &&& rom.properties.sgb_flag == self.properties.sgb_flag
        &&& rom.properties.has_sram == self.properties.has_sram
        &&& rom.properties.has_rumble == self.properties.has_rumble
        &&& rom.properties.size_bytes == self.properties.size_bytes
        &&& rom.properties.bank_select_mask == self.properties.bank_select_mask
        &&& rom.properties.mbc_mode == self.properties.mbc_mode
        &&& rom.properties.cart_type == self.properties.cart_type
        &&& rom.properties.check_sum == self.properties.check_sum
        &&& rom.properties.size_enum == self.properties.size_enum
        &&& rom.fixed_bank_offset == self.fixed_bank_offset
        &&& rom.bank_offset == self.bank_offset
        &&& rom.mbc1_lower_bank == self.mbc1_lower_bank
        &&& rom.mbc1_upper_bank == self.mbc1_upper_bank
        &&& rom.suspicious_mbc_warning_logged == self.suspicious_mbc_warning_logged
        &&& rom.current_rom_id == self.current_rom_id
        &&& rom.current_opened_file == self.current_opened_file
    }

    /// The saved cartridge state.
    pub fn into_rom(self) -> (rom: RomState)
        ensures
            self.converted_into(&rom),
    {
        RomState {
            properties: self.properties.into_properties(),
            fixed_bank_offset: self.fixed_bank_offset,
            bank_offset: self.bank_offset,
            mbc1_lower_bank: self.mbc1_lower_bank,
            mbc1_upper_bank: self.mbc1_upper_bank,
            suspicious_mbc_warning_logged: self.suspicious_mbc_warning_logged,
            current_rom_id: self.current_rom_id,
            current_opened_file: self.current_opened_file,
        }
    }
}

/// Checks that a save state can be restored into the loaded cartridge: its format version
/// must be the current one and it must have been saved from the same ROM.
pub fn check_save_state(version: u32, saved_rom_id: &String, loaded_rom_id: &String) -> (result: Result<
    (),
    SaveStateError,
>)
    ensures
        version != SAVE_STATE_VERSION ==> (result matches Err(SaveStateError::UnsupportedVersion(v)) && v
            == version),
        version == SAVE_STATE_VERSION && saved_rom_id@ != loaded_rom_id@ ==> (result matches Err(
            SaveStateError::RomMismatch { expected, actual },
        ) && expected@ == loaded_rom_id@ && actual@ == saved_rom_id@),
        result is Ok <==> version == SAVE_STATE_VERSION && saved_rom_id@ == loaded_rom_id@,
{
    if version != SAVE_STATE_VERSION {
        return Err(SaveStateError::UnsupportedVersion(version));
    }
    if !saved_rom_id.eq(loaded_rom_id) {
        return Err(SaveStateError::RomMismatch { expected: loaded_rom_id.clone(), actual: saved_rom_id.clone() });
    }
    Ok(())
}

/// Law: saving a CPU register file, timer, run state and PPU state and restoring the save
/// gives back the same values; of the CPU timing only a timer reload in progress is lost.
pub proof fn lemma_snapshot_round_trip(
    runtime: RuntimeControl,
    registers: CpuRegisters,
    timing: CpuTiming,
    mode: CpuMode,
    serial: SerialState,
    dma: DmaState,
    gpu_timing: GpuTiming,
    gpu_mode: GpuMode,
    renderer: LineRenderer,
    access: MemoryAccess,
    controller: MemoryBankController,
)
    ensures
        RuntimeControl::from_spec(RuntimeSnapshot::from_spec(runtime)) == runtime,
        CpuRegisters::from_spec(CpuRegistersSnapshot::from_spec(registers)) == registers,
        CpuTiming::from_spec(CpuTimingSnapshot::from_spec(timing)) == (CpuTiming { tima_reload_active: false, ..timing }),
        CpuMode::from_spec(CpuModeSnapshot::from_spec(mode)) == mode,
        SerialState::from_spec(SerialSnapshot::from_spec(serial)) == serial,
        DmaState::from_spec(DmaSnapshot::from_spec(dma)) == dma,
        GpuTiming::from_spec(GpuTimingSnapshot::from_spec(gpu_timing)) == gpu_timing,
        GpuMode::from_spec(GpuModeSnapshot::from_spec(gpu_mode)) == gpu_mode,
        LineRenderer::from_spec(LineRendererSnapshot::from_spec(renderer)) == renderer,
        MemoryAccess::from_spec(MemoryAccessSnapshot::from_spec(access)) == access,
        MemoryBankController::from_spec(MemoryBankControllerSnapshot::from_spec(controller)) == controller,
{
}

/// Everything that a save state holds of the emulator.
pub struct EmulatorSaveState {
    pub version: u32,
    pub runtime: RuntimeSnapshot,
    pub cpu_registers: CpuRegistersSnapshot,
    pub cpu_timing: CpuTimingSnapshot,
    pub cpu_mode: CpuModeSnapshot,
    pub serial: SerialSnapshot,
    pub dma: DmaSnapshot,
    pub gpu_timing: GpuTimingSnapshot,
    pub gpu_mode: GpuModeSnapshot,
    pub line_renderer: LineRendererSnapshot,
    pub memory_access: MemoryAccessSnapshot,
    pub memory: MemorySnapshot,
    pub palettes: PaletteSnapshot,
    pub cgb_palette_registers: CgbPaletteRegistersSnapshot,
    pub rom: RomSnapshot,
    pub sram: SramSnapshot,
    pub sgb: SgbSnapshot,
}

impl EmulatorSaveState {
    /// Saves the emulator under the current format version.
    pub fn from_core(core: &GameBoyCore) -> (state: Self)
        ensures
            state.version == SAVE_STATE_VERSION,
            state.runtime == RuntimeSnapshot::from_spec(core.runtime),
            state.cpu_registers == CpuRegistersSnapshot::from_spec(core.cpu_registers),
            state.cpu_timing == CpuTimingSnapshot::from_spec(core.cpu_timing),
            state.cpu_mode == CpuModeSnapshot::from_spec(core.cpu_mode),
            state.serial == SerialSnapshot::from_spec(core.serial),
            state.dma == DmaSnapshot::from_spec(core.dma),
            state.gpu_timing == GpuTimingSnapshot::from_spec(core.gpu_timing),
            state.gpu_mode == GpuModeSnapshot::from_spec(core.gpu_mode),
            state.line_renderer == LineRendererSnapshot::from_spec(core.line_renderer),
            state.memory_access == MemoryAccessSnapshot::from_spec(core.memory_access),
            state.memory.captures(&core.memory),
            state.palettes.captures(&core.palettes),
            state.cgb_palette_registers.captures(&core.cgb_palette_registers),
            state.rom.captures(&core.rom),
            state.sram.captures(&core.sram),
            state.sgb.captures(&core.sgb),
    {
        EmulatorSaveState {
            version: SAVE_STATE_VERSION,
            runtime: RuntimeSnapshot::from(core.runtime),
            cpu_registers: CpuRegistersSnapshot::from(core.cpu_registers),
            cpu_timing: CpuTimingSnapshot::from(core.cpu_timing),
            cpu_mode: CpuModeSnapshot::from(core.cpu_mode),
            serial: SerialSnapshot::from(core.serial),
            dma: DmaSnapshot::from(core.dma),
            gpu_timing: GpuTimingSnapshot::from(core.gpu_timing),
            gpu_mode: GpuModeSnapshot::from(core.gpu_mode),
            line_renderer: LineRendererSnapshot::from(core.line_renderer),
            memory_access: MemoryAccessSnapshot::from(core.memory_access),
            memory: MemorySnapshot::from_memory(&core.memory),
            palettes: PaletteSnapshot::from_palettes(core.palettes),
            cgb_palette_registers: CgbPaletteRegistersSnapshot::from_registers(core.cgb_palette_registers),
            rom: RomSnapshot::from_rom(&core.rom),
            sram: SramSnapshot::from_sram(&core.sram),
            sgb: SgbSnapshot::from_sgb(&core.sgb),
        }
    }

    /// Whether the saved values lie where the emulator itself keeps them: every decoded tile
    /// pixel a colour index and the mode-3 length between 172 and 289 clocks. A tile pixel of 4
    /// or more would index past the four shades of a palette when the line is drawn, and a
    /// mode-3 length outside that range, which no line scan gives, could make a PPU mode last
    /// no time at all; such states are refused rather than restored.
    pub open spec fn values_in_range(&self) -> bool {
        &&& crate::memory::tile_indices_valid(self.memory.tile_set@)
        &&& DEFAULT_LINE_SCAN_VRAM_CLOCKS <= self.gpu_timing.line_scan_vram_clocks <= 289
    }
}

/// Whether every saved buffer has the length of the part it restores in `core`.
pub open spec fn save_state_fits(state: &EmulatorSaveState, core: &GameBoyCore) -> bool {
    &&& state.memory.first_misfit(&core.memory) is None
    &&& state.palettes.first_misfit() is None
    &&& state.cgb_palette_registers.bg_data@.len() == 64 && state.cgb_palette_registers.obj_data@.len() == 64
    &&& state.sram.data@.len() == core.sram.data@.len() && state.sram.timer_data@.len() == 5
    &&& state.sgb.fit_count(&core.sgb) == 8
}

/// What restoring the parts of an accepted save state does, in order: the plain parts, the
/// memories, the palettes, the CGB palette registers, the cartridge state, cartridge RAM and
/// the Super Game Boy, each only once every part before it fitted, the first misfit's error
/// being `result`; once all fitted the result is `Ok`, the audio unit is reset for the
/// cartridge and a new frame begins. The ROM contents and the cheats are kept.
pub open spec fn save_state_restored(
    state: &EmulatorSaveState,
    before: &GameBoyCore,
    after: &GameBoyCore,
    result: Result<(), SaveStateError>,
) -> bool {
    let memory_fits = state.memory.first_misfit(&before.memory) is None;
    let palettes_fit = memory_fits && state.palettes.first_misfit() is None;
    let registers_fit = palettes_fit && state.cgb_palette_registers.bg_data@.len() == 64
        && state.cgb_palette_registers.obj_data@.len() == 64;
    let sram_fits = registers_fit && state.sram.data@.len() == before.sram.data@.len()
        && state.sram.timer_data@.len() == 5;
    let all_fit = sram_fits && state.sgb.fit_count(&before.sgb) == 8;
    &&& after.runtime == RuntimeControl::from_spec(state.runtime)
    &&& after.cpu_registers == CpuRegisters::from_spec(state.cpu_registers)
    &&& after.cpu_timing == CpuTiming::from_spec(state.cpu_timing)
    &&& after.cpu_mode == CpuMode::from_spec(state.cpu_mode)
    &&& after.serial == SerialState::from_spec(state.serial)
    &&& after.dma == DmaState::from_spec(state.dma)
    &&& after.gpu_timing == GpuTiming::from_spec(state.gpu_timing)
    &&& after.gpu_mode == GpuMode::from_spec(state.gpu_mode)
    &&& after.line_renderer == LineRenderer::from_spec(state.line_renderer)
    &&& after.memory_access == MemoryAccess::from_spec(state.memory_access)
    &&& state.memory.restored(&before.memory, &after.memory, if memory_fits { Ok(()) } else { result })
    &&& if memory_fits {
        state.palettes.restored(&before.palettes, &after.palettes, if palettes_fit { Ok(()) } else { result })
    } else {
        after.palettes == before.palettes
    }
    &&& if palettes_fit {
        state.cgb_palette_registers.restored(
            &before.cgb_palette_registers,
            &after.cgb_palette_registers,
            if registers_fit { Ok(()) } else { result },
        )
    } else {
        after.cgb_palette_registers == before.cgb_palette_registers
    }
    &&& if registers_fit { state.rom.converted_into(&after.rom) } else { after.rom == before.rom }
    &&& if registers_fit {
        state.sram.restored(&before.sram, &after.sram, if sram_fits { Ok(()) } else { result })
    } else {
        after.sram == before.sram
    }
    &&& if sram_fits { state.sgb.restored(&before.sgb, &after.sgb, result) } else { after.sgb == before.sgb }
    &&& all_fit == (result is Ok)
    &&& if all_fit {
        &&& crate::audio_unit::AudioUnitState::reset_for_load(&after.audio_unit, after.cpu_timing.clock_frequency_hz)
        &&& after.video_frame.frame_in_progress
        &&& after.video_frame.pixels == before.video_frame.pixels
    } else {
        &&& after.audio_unit == before.audio_unit
        &&& after.video_frame == before.video_frame
    }
    &&& after.cheats == before.cheats
}

/// Law: a save state taken from a core and applied to a core with the same cartridge and
/// buffers of the same lengths succeeds, and gives back every part it records: the plain
/// parts (of the CPU timing all but a timer reload in progress), the memories but the ROM,
/// the palettes, the CGB palette registers, the cartridge state, cartridge RAM (marked not
/// yet saved when it has a battery) and the Super Game Boy buffers and registers.
pub proof fn lemma_save_state_round_trip(
    saved: &GameBoyCore,
    state: &EmulatorSaveState,
    before: &GameBoyCore,
    after: &GameBoyCore,
    result: Result<(), SaveStateError>,
)
    requires
        saved.wf(),
        before.wf(),
        state.runtime == RuntimeSnapshot::from_spec(saved.runtime),
        state.cpu_registers == CpuRegistersSnapshot::from_spec(saved.cpu_registers),
        state.cpu_timing == CpuTimingSnapshot::from_spec(saved.cpu_timing),
        state.cpu_mode == CpuModeSnapshot::from_spec(saved.cpu_mode),
        state.serial == SerialSnapshot::from_spec(saved.serial),
        state.dma == DmaSnapshot::from_spec(saved.dma),
        state.gpu_timing == GpuTimingSnapshot::from_spec(saved.gpu_timing),
        state.gpu_mode == GpuModeSnapshot::from_spec(saved.gpu_mode),
        state.line_renderer == LineRendererSnapshot::from_spec(saved.line_renderer),
        state.memory_access == MemoryAccessSnapshot::from_spec(saved.memory_access),
        state.memory.captures(&saved.memory),
        state.palettes.captures(&saved.palettes),
        state.cgb_palette_registers.captures(&saved.cgb_palette_registers),
        state.rom.captures(&saved.rom),
        state.sram.captures(&saved.sram),
        state.sgb.captures(&saved.sgb),
        before.sram.data@.len() == saved.sram.data@.len(),
        saved.sram.timer_data@.len() == 5,
        before.sgb.attribute_files@.len() == saved.sgb.attribute_files@.len(),
        save_state_restored(state, before, after, result),
    ensures
        state.values_in_range(),
        save_state_fits(state, before),
        result is Ok,
        after.runtime == saved.runtime,
        after.cpu_registers == saved.cpu_registers,
        after.cpu_timing == (CpuTiming { tima_reload_active: false, ..saved.cpu_timing }),
        after.cpu_mode == saved.cpu_mode,
        after.serial == saved.serial,
        after.dma == saved.dma,
        after.gpu_timing == saved.gpu_timing,
        after.gpu_mode == saved.gpu_mode,
        after.line_renderer == saved.line_renderer,
        after.memory_access == saved.memory_access,
        after.memory.wram@ == saved.memory.wram@,
        after.memory.vram@ == saved.memory.vram@,
        after.memory.io_ports@ == saved.memory.io_ports@,
        after.memory.oam@ == saved.memory.oam@,
        after.memory.tile_set@ == saved.memory.tile_set@,
        after.palettes.translated_bg@ == saved.palettes.translated_bg@,
        after.palettes.translated_obj@ == saved.palettes.translated_obj@,
        after.palettes.sgb_translation_bg@ == saved.palettes.sgb_translation_bg@,
        after.palettes.sgb_translation_obj@ == saved.palettes.sgb_translation_obj@,
        after.palettes.cgb_bg@ == saved.palettes.cgb_bg@,
        after.palettes.cgb_obj@ == saved.palettes.cgb_obj@,
        after.cgb_palette_registers.bg_data@ == saved.cgb_palette_registers.bg_data@,
        after.cgb_palette_registers.obj_data@ == saved.cgb_palette_registers.obj_data@,
        after.cgb_palette_registers.bg_index == saved.cgb_palette_registers.bg_index,
        after.cgb_palette_registers.bg_increment == saved.cgb_palette_registers.bg_increment,
        after.cgb_palette_registers.obj_index == saved.cgb_palette_registers.obj_index,
        after.cgb_palette_registers.obj_increment == saved.cgb_palette_registers.obj_increment,
        after.sram.data@ == saved.sram.data@,
        after.sram.timer_data@ == saved.sram.timer_data@,
        after.sram.has_battery == saved.sram.has_battery,
        after.sram.has_timer == saved.sram.has_timer,
        after.sram.timer_mode == saved.sram.timer_mode,
        after.sram.bank_offset == saved.sram.bank_offset,
        after.sram.size_bytes == saved.sram.size_bytes,
        after.sram.enable_flag == saved.sram.enable_flag,
        after.sram.dirty == (saved.sram.dirty || saved.sram.has_battery),
        after.sgb.mono_data@ == saved.sgb.mono_data@,
        after.sgb.transfer_vram@ == saved.sgb.transfer_vram@,
        after.sgb.palettes@ == saved.sgb.palettes@,
        after.sgb.system_palettes@ == saved.sgb.system_palettes@,
        after.sgb.character_palettes@ == saved.sgb.character_palettes@,
        after.sgb.command == saved.sgb.command,
        after.sgb.read_joypad_id == saved.sgb.read_joypad_id,
        after.rom.bank_offset == saved.rom.bank_offset,
        after.rom.fixed_bank_offset == saved.rom.fixed_bank_offset,
        after.rom.current_rom_id == saved.rom.current_rom_id,
{
    lemma_snapshot_round_trip(
        saved.runtime,
        saved.cpu_registers,
        saved.cpu_timing,
        saved.cpu_mode,
        saved.serial,
        saved.dma,
        saved.gpu_timing,
        saved.gpu_mode,
        saved.line_renderer,
        saved.memory_access,
        saved.rom.properties.mbc,
    );
}

/// Restores a save state into the emulator: it must be of the current version, saved from
/// the loaded cartridge and hold values the emulator can produce; then every part is
/// restored in turn, a buffer of the wrong length stopping the restore with the parts
/// before it restored, and the audio unit and frame assembly start over.
pub fn apply_save_state(core: &mut GameBoyCore, state: EmulatorSaveState) -> (result: Result<(), SaveStateError>)
    requires
        old(core).wf(),
    ensures
        final(core).wf(),
        state.version != SAVE_STATE_VERSION ==> *final(core) == *old(core) && (result matches Err(
            SaveStateError::UnsupportedVersion(v),
        ) && v == state.version),
        state.version == SAVE_STATE_VERSION && state.rom.current_rom_id@ != old(core).rom.current_rom_id@
            ==> *final(core) == *old(core) && result matches Err(SaveStateError::RomMismatch { .. }),
        state.version == SAVE_STATE_VERSION && state.rom.current_rom_id@ == old(core).rom.current_rom_id@
            && !state.values_in_range() ==> *final(core) == *old(core) && result matches Err(
            SaveStateError::InvalidValue { .. },
        ),
        state.version == SAVE_STATE_VERSION && state.rom.current_rom_id@ == old(core).rom.current_rom_id@
            && state.values_in_range() ==> save_state_restored(&state, old(core), final(core), result),
        state.version == SAVE_STATE_VERSION && state.rom.current_rom_id@ == old(core).rom.current_rom_id@
            && state.values_in_range() && save_state_fits(&state, old(core)) ==> result is Ok,
{
    check_save_state(state.version, &state.rom.current_rom_id, &core.rom.current_rom_id)?;
    if !tile_indices_in_range(state.memory.tile_set.as_slice()) {
        return Err(SaveStateError::InvalidValue { field: "memory.tile_set" });
    }
    let line_scan_vram_clocks = state.gpu_timing.line_scan_vram_clocks;
    if line_scan_vram_clocks < DEFAULT_LINE_SCAN_VRAM_CLOCKS || line_scan_vram_clocks > 289 {
        return Err(SaveStateError::InvalidValue { field: "gpu_timing.line_scan_vram_clocks" });
    }
    let ghost before = *core;
    core.runtime = RuntimeControl::from(state.runtime);
    core.cpu_registers = CpuRegisters::from(state.cpu_registers);
    core.cpu_timing = CpuTiming::from(state.cpu_timing);
    core.cpu_mode = CpuMode::from(state.cpu_mode);
    core.serial = SerialState::from(state.serial);
    core.dma = DmaState::from(state.dma);
    core.gpu_timing = GpuTiming::from(state.gpu_timing);
    core.gpu_mode = GpuMode::from(state.gpu_mode);
    core.line_renderer = LineRenderer::from(state.line_renderer);
    core.memory_access = MemoryAccess::from(state.memory_access);
    let ghost plain = *core;
    match state.memory.apply(&mut core.memory) {
        Ok(()) => {},
        Err(error) => {
            assert(save_state_restored(&state, &before, core, Err(error)));
            return Err(error);
        },
    }
    match state.palettes.apply(&mut core.palettes) {
        Ok(()) => {},
        Err(error) => {
            assert(save_state_restored(&state, &before, core, Err(error)));
            return Err(error);
        },
    }
    match state.cgb_palette_registers.apply(&mut core.cgb_palette_registers) {
        Ok(()) => {},
        Err(error) => {
            assert(save_state_restored(&state, &before, core, Err(error)));
            return Err(error);
        },
    }
    core.rom = state.rom.into_rom();
    match state.sram.apply(&mut core.sram) {
        Ok(()) => {},
        Err(error) => {
            assert(save_state_restored(&state, &before, core, Err(error)));
            return Err(error);
        },
    }
    match state.sgb.apply(&mut core.sgb) {
        Ok(()) => {},
        Err(error) => {
            assert(save_state_restored(&state, &before, core, Err(error)));
            return Err(error);
        },
    }
    let clock_frequency_hz = core.cpu_timing.clock_frequency_hz;
    core.audio_unit.reset_for_rom_load(clock_frequency_hz);
    core.video_frame.reset_for_rom_load();
    assert(save_state_restored(&state, &before, core, Ok(())));
    Ok(())
}

/// Whether every decoded tile pixel is a colour index.
pub(crate) fn tile_indices_in_range(tile_set: &[u32]) -> (valid: bool)
    ensures
        valid == crate::memory::tile_indices_valid(tile_set@),
{
    let mut i: usize = 0;
    while i < tile_set.len()
        invariant
            i <= tile_set@.len(),
            forall|j: int| 0 <= j < i ==> #[trigger] tile_set@[j] < 4,
        decreases tile_set@.len() - i,
    {
        if tile_set[i] >= 4 {
            return false;
        }
        i += 1;
    }
    true
}

} // verus!
