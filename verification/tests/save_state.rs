use shining_emulator::cpu::{CpuRegisters, CpuTiming};
use shining_emulator::memory::GameBoyMemory;
use shining_emulator::palettes::{CgbPaletteRegisters, PaletteState};
use shining_emulator::rom::RomState;
use shining_emulator::save_state::{
    check_save_state, copy_u32_slice, copy_u8_slice, default_line_scan_vram_clocks, default_mbc1_lower_bank,
    CgbPaletteRegistersSnapshot, CpuRegistersSnapshot, CpuTimingSnapshot, MemorySnapshot, PaletteSnapshot,
    RomSnapshot, SaveStateError, SgbSnapshot, SramSnapshot, SAVE_STATE_VERSION,
};
use shining_emulator::sgb::SgbState;
use shining_emulator::sram::SramState;

#[test]
fn copies_need_equal_lengths() {
    let mut destination = [1u8, 2, 3];
    assert!(copy_u8_slice("bytes", &[7, 8, 9], &mut destination).is_ok());
    assert_eq!(destination, [7, 8, 9]);

    match copy_u8_slice("bytes", &[1, 2], &mut destination) {
        Err(SaveStateError::InvalidFieldLength { field, expected, actual }) => {
            assert_eq!(field, "bytes");
            assert_eq!(expected, 3);
            assert_eq!(actual, 2);
        }
        _ => panic!("a short source should be refused"),
    }
    assert_eq!(destination, [7, 8, 9]);

    let mut words = [0u32; 2];
    assert!(copy_u32_slice("words", &[5, 6], &mut words).is_ok());
    assert_eq!(words, [5, 6]);
    assert!(copy_u32_slice("words", &[5, 6, 7], &mut words).is_err());
}

#[test]
fn missing_fields_restore_their_defaults() {
    assert_eq!(default_line_scan_vram_clocks(), 172);
    assert_eq!(default_mbc1_lower_bank(), 1);
}

#[test]
fn save_state_header_must_match_version_and_rom() {
    let rom = "rom-id".to_string();
    assert!(check_save_state(SAVE_STATE_VERSION, &rom, &rom).is_ok());
    assert!(matches!(
        check_save_state(SAVE_STATE_VERSION + 1, &rom, &rom),
        Err(SaveStateError::UnsupportedVersion(2))
    ));
    match check_save_state(SAVE_STATE_VERSION, &"other".to_string(), &rom) {
        Err(SaveStateError::RomMismatch { expected, actual }) => {
            assert_eq!(expected, "rom-id");
            assert_eq!(actual, "other");
        }
        _ => panic!("a different ROM should be refused"),
    }
}

#[test]
fn memory_round_trips_through_a_snapshot() {
    let mut memory = GameBoyMemory::default();
    memory.wram[0x10] = 0x42;
    memory.vram[0x20] = 0x24;
    memory.oam[3] = 9;
    memory.tile_set[5] = 2;
    let snapshot = MemorySnapshot::from_memory(&memory);

    let mut restored = GameBoyMemory::default();
    assert!(snapshot.apply(&mut restored).is_ok());

    assert_eq!(restored.wram[0x10], 0x42);
    assert_eq!(restored.vram[0x20], 0x24);
    assert_eq!(restored.oam[3], 9);
    assert_eq!(restored.tile_set[5], 2);
}

#[test]
fn short_memory_snapshot_names_the_first_bad_field() {
    let memory = GameBoyMemory::default();
    let mut snapshot = MemorySnapshot::from_memory(&memory);
    snapshot.vram.pop();
    snapshot.wram[0] = 0x77;

    let mut restored = GameBoyMemory::default();
    match snapshot.apply(&mut restored) {
        Err(SaveStateError::InvalidFieldLength { field, .. }) => assert_eq!(field, "memory.vram"),
        _ => panic!("a short VRAM should be refused"),
    }
    assert_eq!(restored.wram[0], 0x77);
}

#[test]
fn palettes_and_cgb_registers_round_trip() {
    let mut palettes = PaletteState::default();
    palettes.cgb_obj[31] = 0xff12_3456;
    palettes.translated_bg[2] = 7;
    let mut restored = PaletteState::default();
    assert!(PaletteSnapshot::from_palettes(palettes).apply(&mut restored).is_ok());
    assert_eq!(restored.cgb_obj[31], 0xff12_3456);
    assert_eq!(restored.translated_bg[2], 7);

    let mut registers = CgbPaletteRegisters::default();
    registers.bg_data[63] = 5;
    registers.obj_index = 9;
    let mut restored = CgbPaletteRegisters::default();
    assert!(CgbPaletteRegistersSnapshot::from_registers(registers).apply(&mut restored).is_ok());
    assert_eq!(restored.bg_data[63], 5);
    assert_eq!(restored.obj_index, 9);
}

#[test]
fn battery_ram_restores_as_unsaved() {
    let mut sram = SramState::default();
    sram.data[0x30] = 0x99;
    sram.has_battery = true;
    let snapshot = SramSnapshot::from_sram(&sram);

    let mut restored = SramState::default();
    assert!(snapshot.apply(&mut restored).is_ok());

    assert_eq!(restored.data[0x30], 0x99);
    assert!(restored.has_battery);
    assert!(restored.is_dirty());
}

#[test]
fn sgb_state_round_trips_and_old_saves_clear_attribute_files() {
    let mut sgb = SgbState::default();
    sgb.command_bytes[2][3] = 0x44;
    sgb.attribute_files[0x40] = 3;
    sgb.read_joypad_id = 0x0e;
    let snapshot = SgbSnapshot::from_sgb(&sgb);
    assert_eq!(snapshot.command_bytes[2 * 16 + 3], 0x44);

    let mut restored = SgbState::default();
    assert!(snapshot.apply(&mut restored).is_ok());
    assert_eq!(restored.command_bytes[2][3], 0x44);
    assert_eq!(restored.attribute_files[0x40], 3);
    assert_eq!(restored.read_joypad_id, 0x0e);

    let mut old_save = SgbSnapshot::from_sgb(&sgb);
    old_save.attribute_files.clear();
    let mut restored = SgbState::default();
    restored.attribute_files[1] = 8;
    assert!(old_save.apply(&mut restored).is_ok());
    assert!(restored.attribute_files.iter().all(|value| *value == 0));
}

#[test]
fn sgb_command_bytes_need_seven_packets() {
    let sgb = SgbState::default();
    let mut snapshot = SgbSnapshot::from_sgb(&sgb);
    snapshot.command_bytes.pop();

    let mut restored = SgbState::default();
    match snapshot.apply(&mut restored) {
        Err(SaveStateError::InvalidFieldLength { field, expected, actual }) => {
            assert_eq!(field, "sgb.command_bytes");
            assert_eq!(expected, 112);
            assert_eq!(actual, 111);
        }
        _ => panic!("short command bytes should be refused"),
    }
}

#[test]
fn rom_state_round_trips_through_a_snapshot() {
    let mut rom = RomState::default();
    rom.current_rom_id = "rom-id".to_string();
    rom.fixed_bank_offset = 0x8000;
    rom.bank_offset = 0xc000;
    rom.mbc1_lower_bank = 3;
    rom.mbc1_upper_bank = 2;
    rom.suspicious_mbc_warning_logged = true;
    rom.properties.title[0] = b'T';

    let restored = RomSnapshot::from_rom(&rom).into_rom();

    assert_eq!(restored.current_rom_id, "rom-id");
    assert_eq!(restored.fixed_bank_offset, 0x8000);
    assert_eq!(restored.bank_offset, 0xc000);
    assert_eq!(restored.mbc1_lower_bank, 3);
    assert_eq!(restored.mbc1_upper_bank, 2);
    assert!(restored.suspicious_mbc_warning_logged);
    assert_eq!(restored.properties.title[0], b'T');
}

#[test]
fn registers_and_timing_round_trip() {
    let mut registers = CpuRegisters::default();
    registers.pc = 0x1234;
    registers.a = 0xab;
    registers.ime_enable_delay = 2;
    registers.halt_bug = true;
    let restored = CpuRegisters::from(CpuRegistersSnapshot::from(registers));
    assert_eq!(restored.pc, 0x1234);
    assert_eq!(restored.a, 0xab);
    assert_eq!(restored.ime_enable_delay, 2);
    assert!(restored.halt_bug);

    let mut timing = CpuTiming::default();
    timing.system_counter = 0x3456;
    timing.tima_reload_delay = 1;
    timing.tima_reload_active = true;
    let restored = CpuTiming::from(CpuTimingSnapshot::from(timing));
    assert_eq!(restored.system_counter, 0x3456);
    assert_eq!(restored.tima_reload_delay, 1);
    assert!(!restored.tima_reload_active);
}

#[test]
fn save_state_round_trips_representative_core_state() {
    let mut core = shining_emulator::machine::GameBoyCore::default();
    core.rom.current_rom_id = "rom-id".to_string();
    core.runtime.is_running = true;
    core.cpu_registers.pc = 0x1234;
    core.cpu_registers.a = 0xab;
    core.cpu_registers.ime_enable_delay = 2;
    core.cpu_registers.halt_bug = true;
    core.cpu_timing.system_counter = 0x3456;
    core.cpu_timing.tima_reload_delay = 1;
    core.dma.oam.pending_source_high = Some(0xc0);
    core.dma.oam.source_high = 0xd0;
    core.dma.oam.next_index = 0x20;
    core.dma.oam.active = true;
    core.dma.vram.cpu_halt_m_cycles = 3;
    core.gpu_timing.line_scan_vram_clocks = 180;
    core.rom.fixed_bank_offset = 0x8000;
    core.rom.bank_offset = 0xc000;
    core.rom.mbc1_lower_bank = 3;
    core.rom.mbc1_upper_bank = 2;
    core.rom.suspicious_mbc_warning_logged = true;
    core.memory.wram[0x10] = 0x42;
    core.memory.vram[0x20] = 0x24;
    core.sram.data[0x30] = 0x99;
    core.sram.has_battery = true;
    core.sgb.attribute_files[0x40] = 3;

    let state = shining_emulator::save_state::EmulatorSaveState::from_core(&core);
    core.cpu_registers.pc = 0;
    core.cpu_registers.a = 0;
    core.cpu_registers.ime_enable_delay = 0;
    core.cpu_registers.halt_bug = false;
    core.cpu_timing.system_counter = 0;
    core.cpu_timing.tima_reload_delay = 0;
    core.dma.reset_for_rom_load();
    core.gpu_timing.line_scan_vram_clocks = 0;
    core.rom.fixed_bank_offset = 0;
    core.rom.bank_offset = 0;
    core.rom.mbc1_lower_bank = 1;
    core.rom.mbc1_upper_bank = 0;
    core.rom.suspicious_mbc_warning_logged = false;
    core.memory.wram[0x10] = 0;
    core.memory.vram[0x20] = 0;
    core.sram.data[0x30] = 0;
    core.sgb.attribute_files[0x40] = 0;

    shining_emulator::save_state::apply_save_state(&mut core, state).expect("save state should restore");

    assert_eq!(core.cpu_registers.pc, 0x1234);
    assert_eq!(core.cpu_registers.a, 0xab);
    assert_eq!(core.cpu_registers.ime_enable_delay, 2);
    assert!(core.cpu_registers.halt_bug);
    assert_eq!(core.cpu_timing.system_counter, 0x3456);
    assert_eq!(core.cpu_timing.tima_reload_delay, 1);
    assert_eq!(core.dma.oam.pending_source_high, Some(0xc0));
    assert_eq!(core.dma.oam.source_high, 0xd0);
    assert_eq!(core.dma.oam.next_index, 0x20);
    assert!(core.dma.oam.active);
    assert_eq!(core.dma.vram.cpu_halt_m_cycles, 3);
    assert_eq!(core.gpu_timing.line_scan_vram_clocks, 180);
    assert_eq!(core.rom.fixed_bank_offset, 0x8000);
    assert_eq!(core.rom.bank_offset, 0xc000);
    assert_eq!(core.rom.mbc1_lower_bank, 3);
    assert_eq!(core.rom.mbc1_upper_bank, 2);
    assert!(core.rom.suspicious_mbc_warning_logged);
    assert_eq!(core.memory.wram[0x10], 0x42);
    assert_eq!(core.memory.vram[0x20], 0x24);
    assert_eq!(core.sram.data[0x30], 0x99);
    assert!(core.sram.is_dirty());
    assert_eq!(core.sgb.attribute_files[0x40], 3);
}

#[test]
fn save_states_from_another_rom_or_with_bad_values_are_refused() {
    let mut core = shining_emulator::machine::GameBoyCore::default();
    core.rom.current_rom_id = "rom-id".to_string();
    let mut state = shining_emulator::save_state::EmulatorSaveState::from_core(&core);
    state.rom.current_rom_id = "other".to_string();
    assert!(matches!(
        shining_emulator::save_state::apply_save_state(&mut core, state),
        Err(SaveStateError::RomMismatch { .. })
    ));

    let mut state = shining_emulator::save_state::EmulatorSaveState::from_core(&core);
    state.memory.tile_set[0] = 7;
    assert!(matches!(
        shining_emulator::save_state::apply_save_state(&mut core, state),
        Err(SaveStateError::InvalidValue { field: "memory.tile_set" })
    ));

    let mut state = shining_emulator::save_state::EmulatorSaveState::from_core(&core);
    state.version = 2;
    assert!(matches!(
        shining_emulator::save_state::apply_save_state(&mut core, state),
        Err(SaveStateError::UnsupportedVersion(2))
    ));
}
