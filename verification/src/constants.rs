use vstd::prelude::*;

verus! {

pub const GB_CLOCK_HZ: i64 = 4_194_304;
pub const SGB_CLOCK_HZ: i64 = 4_295_454;
pub const GBC_CLOCK_HZ: i64 = 8_400_000;

pub const DEFAULT_CLOCK_MULTIPLIER_INDEX: i32 = 10;

pub const MIN_CLOCKS_TO_EXECUTE: i32 = 2_000;
pub const MAX_ACCUMULATED_CLOCKS: i32 = 1_000_000;

pub const ROM_CAPACITY_BYTES: usize = 256 * 16_384;
pub const WRAM_BYTES: usize = 8 * 4_096;
pub const VRAM_BYTES: usize = 2 * 8_192;
pub const IO_PORT_BYTES: usize = 256;
pub const OAM_BYTES: usize = 160;
pub const TILE_SET_PIXELS: usize = 2 * 384 * 8 * 8;
pub const SRAM_CAPACITY_BYTES: usize = 16 * 8_192;

pub const SGB_MONO_PIXELS: usize = 160 * 152;
pub const SGB_TRANSFER_VRAM_BYTES: usize = 4_096;
pub const SGB_PALETTE_COLORS: usize = 4 * 4;
pub const SGB_SYSTEM_PALETTE_COLORS: usize = 512 * 4;
pub const SGB_CHARACTER_PALETTE_ENTRIES: usize = 18 * 20;
pub const SGB_ATTRIBUTE_FILES: usize = 45;
pub const SGB_ATTRIBUTE_FILE_ENTRIES: usize = 45 * 360;

pub const ROM_BANK_SIZE: u32 = 0x4000;
pub const INITIAL_ROM_BANK_OFFSET: u32 = 0x4000;
pub const INITIAL_WRAM_BANK_OFFSET: u32 = 0x1000;
pub const INITIAL_VRAM_BANK_OFFSET: u32 = 0x0000;

/// Visible screen width in pixels.
pub const GAME_BOY_SCREEN_WIDTH: usize = 160;
/// Visible screen height in pixels.
pub const GAME_BOY_SCREEN_HEIGHT: usize = 144;
/// Bytes per pixel of an assembled RGB frame.
pub const GAME_BOY_RGB_CHANNELS: usize = 3;
/// Bytes of one assembled RGB frame.
pub const GAME_BOY_FRAME_BUFFER_BYTES: usize = 160 * 144 * 3;

} // verus!
