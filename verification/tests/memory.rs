use shining_emulator::constants::{
    IO_PORT_BYTES, OAM_BYTES, ROM_CAPACITY_BYTES, TILE_SET_PIXELS, VRAM_BYTES, WRAM_BYTES,
};
use shining_emulator::memory::{zeroed_bytes, zeroed_u32s, GameBoyMemory};

#[test]
fn allocated_memory_matches_the_legacy_gbc_capacity() {
    let memory = GameBoyMemory::default();

    assert_eq!(memory.rom.len(), ROM_CAPACITY_BYTES);
    assert_eq!(memory.wram.len(), WRAM_BYTES);
    assert_eq!(memory.vram.len(), VRAM_BYTES);
    assert_eq!(memory.io_ports.len(), IO_PORT_BYTES);
    assert_eq!(memory.oam.len(), OAM_BYTES);
    assert_eq!(memory.tile_set.len(), TILE_SET_PIXELS);
}

#[test]
fn vram_writes_decode_tile_rows_to_colour_indices() {
    let mut memory = GameBoyMemory::default();

    memory.write_vram(0, 0, 0b1000_0001);
    memory.write_vram(0, 1, 0b0100_0001);

    assert_eq!(&memory.tile_set[0..8], &[1, 2, 0, 0, 0, 0, 0, 3]);
}

#[test]
fn vram_bank_one_tiles_decode_into_the_second_tile_set() {
    let mut memory = GameBoyMemory::default();

    memory.write_vram(0x2000, 0x8010, 0xff);
    memory.write_vram(0x2000, 0x8011, 0x00);

    assert_eq!(memory.vram[0x2010], 0xff);
    assert_eq!(&memory.tile_set[24_576 + 64..24_576 + 72], &[1, 1, 1, 1, 1, 1, 1, 1]);
    assert_eq!(&memory.tile_set[64..72], &[0, 0, 0, 0, 0, 0, 0, 0]);
}

#[test]
fn tile_map_writes_do_not_touch_decoded_tiles() {
    let mut memory = GameBoyMemory::default();

    memory.write_vram(0, 0x1800, 0xff);

    assert_eq!(memory.vram[0x1800], 0xff);
    assert!(memory.tile_set.iter().all(|pixel| *pixel == 0));
}

#[test]
fn rom_load_copies_bytes_and_clears_other_memories() {
    let mut memory = GameBoyMemory::default();
    memory.wram[3] = 9;
    memory.oam[5] = 7;

    assert!(memory.reset_for_rom_load(&[1, 2, 3]));

    assert_eq!(&memory.rom[0..4], &[1, 2, 3, 0]);
    assert_eq!(memory.wram[3], 0);
    assert_eq!(memory.oam[5], 0);
}

#[test]
fn boot_io_values_are_written_on_rom_load() {
    let mut memory = GameBoyMemory::default();
    memory.io_ports[0x03] = 0x42;

    memory.reset_io_ports_for_rom_load();

    assert_eq!(memory.io_ports[0x00], 0xcf);
    assert_eq!(memory.io_ports[0x40], 0x91);
    assert_eq!(memory.io_ports[0x47], 0xfc);
    assert_eq!(memory.io_ports[0x55], 0xff);
    assert_eq!(memory.io_ports[0x03], 0x42);
}

#[test]
fn zeroed_buffers_have_the_requested_length() {
    assert_eq!(zeroed_bytes(5), vec![0u8; 5]);
    assert_eq!(zeroed_u32s(3), vec![0u32; 3]);
}
