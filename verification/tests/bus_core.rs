use shining_emulator::bus::{
    begin_deferred_oam_dma, read8, run_hblank_dma, step_oam_dma, step_system_counter, write8,
    BOOT_IO_INDEX, DIV_IO_INDEX, DMA_IO_INDEX, HDMA5_IO_INDEX, HDMA_BLOCK_M_CYCLES, IF_IO_INDEX,
    INTERRUPT_JOYPAD, JOYP_IO_INDEX, LCDC_IO_INDEX, LY_IO_INDEX, STAT_IO_INDEX, TAC_IO_INDEX,
    TIMA_IO_INDEX, TMA_IO_INDEX,
};
use shining_emulator::constants::ROM_BANK_SIZE;
use shining_emulator::cpu::CpuMode;
use shining_emulator::gpu::GpuMode;
use shining_emulator::input::{
    JoypadInputNibbles, JOYP_SELECT_BUTTONS, JOYP_SELECT_DIRECTIONS, JOYP_SELECT_NONE,
};
use shining_emulator::machine::GameBoyCore;
use shining_emulator::rom::{MemoryBankController, RomProperties};

#[test]
fn vram_bus_writes_decode_tiles() {
    let mut core = GameBoyCore::default();
    core.memory_access.vram = true;

    write8(&mut core, 0x8000, 0x80);
    write8(&mut core, 0x8001, 0x40);

    assert_eq!(&core.memory.tile_set[0..2], &[1, 2]);
}

#[test]
fn mbc1_rom_bank_writes_change_bank_offset() {
    let mut core = GameBoyCore::default();
    core.rom.properties = RomProperties {
        mbc: MemoryBankController::Mbc1,
        bank_select_mask: 0x1f,
        ..Default::default()
    };

    write8(&mut core, 0x2000, 0x03);

    assert_eq!(core.rom.bank_offset, 0x0000_c000);
}

#[test]
fn mbc1_rom_banking_mode_combines_upper_and_lower_bank_bits() {
    let mut core = GameBoyCore::default();
    core.rom.properties = RomProperties {
        mbc: MemoryBankController::Mbc1,
        bank_select_mask: 0x3f,
        ..Default::default()
    };
    core.memory.rom[0x0000] = 0xa0;
    core.memory.rom[0x21 * 0x4000] = 0xc1;

    write8(&mut core, 0x2000, 0x01);
    write8(&mut core, 0x4000, 0x01);

    assert_eq!(core.rom.fixed_bank_offset, 0);
    assert_eq!(core.rom.bank_offset, 0x21 * ROM_BANK_SIZE);
    assert_eq!(read8(&core, 0x0000), 0xa0);
    assert_eq!(read8(&core, 0x4000), 0xc1);
}

#[test]
fn mbc1_ram_banking_mode_maps_upper_bits_into_fixed_bank_area() {
    let mut core = GameBoyCore::default();
    core.rom.properties = RomProperties {
        mbc: MemoryBankController::Mbc1,
        bank_select_mask: 0x3f,
        ..Default::default()
    };
    core.memory.rom[0x0000] = 0xa0;
    core.memory.rom[0x0021 * 0x4000] = 0xc1;
    core.memory.rom[0x0020 * 0x4000] = 0xd0;

    write8(&mut core, 0x2000, 0x01);
    write8(&mut core, 0x4000, 0x01);
    write8(&mut core, 0x6000, 0x01);

    assert_eq!(core.rom.fixed_bank_offset, 0x20 * ROM_BANK_SIZE);
    assert_eq!(core.rom.bank_offset, 0x21 * ROM_BANK_SIZE);
    assert_eq!(core.sram.bank_offset, 0x2000);
    assert_eq!(read8(&core, 0x0000), 0xd0);
    assert_eq!(read8(&core, 0x4000), 0xc1);
}

#[test]
fn mbc1_full_width_bank_write_logs_suspicious_mapper_warning_once() {
    let mut core = GameBoyCore::default();
    core.rom.properties = RomProperties {
        mbc: MemoryBankController::Mbc1,
        bank_select_mask: 0x3f,
        ..Default::default()
    };

    write8(&mut core, 0x2100, 0x21);

    assert_eq!(core.rom.properties.mbc, MemoryBankController::Mbc1);
    assert!(core.rom.suspicious_mbc_warning_logged);

    core.rom.suspicious_mbc_warning_logged = false;
    write8(&mut core, 0x2100, 0x01);

    assert!(!core.rom.suspicious_mbc_warning_logged);
}

#[test]
fn mbc2_uses_address_bit_eight_for_ram_enable_and_rom_bank() {
    let mut core = GameBoyCore::default();
    core.rom.properties = RomProperties {
        mbc: MemoryBankController::Mbc2,
        bank_select_mask: 0x0f,
        ..Default::default()
    };

    write8(&mut core, 0x0000, 0x0a);
    assert!(core.sram.enable_flag);

    write8(&mut core, 0x0100, 0x03);
    assert_eq!(core.rom.bank_offset, 0x03 * ROM_BANK_SIZE);
    assert!(core.sram.enable_flag);

    write8(&mut core, 0x2000, 0x00);
    assert!(!core.sram.enable_flag);

    write8(&mut core, 0x2100, 0x00);
    assert_eq!(core.rom.bank_offset, ROM_BANK_SIZE);

    write8(&mut core, 0x4000, 0x0a);
    assert!(!core.sram.enable_flag);
}

#[test]
fn mbc3_selects_ram_banks_zero_through_seven() {
    let mut core = GameBoyCore::default();
    core.rom.properties = RomProperties {
        mbc: MemoryBankController::Mbc3,
        ..Default::default()
    };
    core.sram.enable_flag = true;
    core.sram.size_bytes = 65_536;

    write8(&mut core, 0x4000, 0x07);
    write8(&mut core, 0xa000, 0x5a);

    assert_eq!(core.sram.bank_offset, 7 * 0x2000);
    assert_eq!(read8(&core, 0xa000), 0x5a);
}

#[test]
fn mbc3_rtc_registers_latch_on_zero_to_one_write() {
    let mut core = GameBoyCore::default();
    core.rom.properties = RomProperties {
        mbc: MemoryBankController::Mbc3,
        ..Default::default()
    };
    core.sram.has_timer = true;

    write8(&mut core, 0x0000, 0x0a);
    write8(&mut core, 0x4000, 0x08);
    write8(&mut core, 0xa000, 0x22);
    write8(&mut core, 0x6000, 0x00);
    write8(&mut core, 0x6000, 0x01);
    write8(&mut core, 0xa000, 0x33);

    assert_eq!(read8(&core, 0xa000), 0x22);

    write8(&mut core, 0x6000, 0x00);
    write8(&mut core, 0x6000, 0x01);

    assert_eq!(read8(&core, 0xa000), 0x33);
}

#[test]
fn system_counter_updates_visible_divider() {
    let mut core = GameBoyCore::default();

    step_system_counter(&mut core, 256);

    assert_eq!(core.cpu_timing.system_counter, 0x0100);
    assert_eq!(core.memory.io_ports[DIV_IO_INDEX], 0x01);
}

#[test]
fn system_counter_counts_tima_on_each_falling_edge() {
    let mut core = GameBoyCore::default();
    core.memory.io_ports[TAC_IO_INDEX] = 0x05;

    step_system_counter(&mut core, 64);

    assert_eq!(core.cpu_timing.system_counter, 64);
    assert_eq!(core.memory.io_ports[TIMA_IO_INDEX], 4);
    assert_eq!(core.memory.io_ports[DIV_IO_INDEX], 0);
}

#[test]
fn system_counter_reloads_tima_one_cycle_after_overflow() {
    let mut core = GameBoyCore::default();
    core.memory.io_ports[TAC_IO_INDEX] = 0x05;
    core.memory.io_ports[TIMA_IO_INDEX] = 0xff;
    core.memory.io_ports[TMA_IO_INDEX] = 0x42;

    step_system_counter(&mut core, 16);
    assert_eq!(core.memory.io_ports[TIMA_IO_INDEX], 0);
    assert_eq!(core.cpu_timing.tima_reload_delay, 1);

    step_system_counter(&mut core, 4);
    assert_eq!(core.memory.io_ports[TIMA_IO_INDEX], 0x42);
    assert_eq!(core.memory.io_ports[IF_IO_INDEX] & 0x04, 0x04);
    assert_eq!(core.cpu_timing.tima_reload_delay, 0);
}

#[test]
fn divider_reset_ticks_timer_on_selected_bit_falling_edge() {
    let mut core = GameBoyCore::default();
    core.cpu_timing.system_counter = 0x0008;
    core.memory.io_ports[DIV_IO_INDEX] = 0x22;
    core.memory.io_ports[TAC_IO_INDEX] = 0x05;

    write8(&mut core, 0xff04, 0xaa);

    assert_eq!(core.cpu_timing.system_counter, 0);
    assert_eq!(core.memory.io_ports[DIV_IO_INDEX], 0);
    assert_eq!(core.memory.io_ports[TIMA_IO_INDEX], 1);
}

#[test]
fn timer_control_write_ticks_timer_on_dmg_falling_edge() {
    let mut core = GameBoyCore::default();
    core.cpu_timing.system_counter = 0x0008;
    core.memory.io_ports[TAC_IO_INDEX] = 0x05;

    write8(&mut core, 0xff07, 0x04);

    assert_eq!(core.memory.io_ports[TAC_IO_INDEX], 0x04);
    assert_eq!(core.memory.io_ports[TIMA_IO_INDEX], 1);
}

#[test]
fn cgb_timer_control_disable_does_not_tick_timer() {
    let mut core = GameBoyCore::default();
    core.rom.properties.cgb_flag = true;
    core.cpu_timing.system_counter = 0x0008;
    core.memory.io_ports[TAC_IO_INDEX] = 0x05;

    write8(&mut core, 0xff07, 0x01);

    assert_eq!(core.memory.io_ports[TAC_IO_INDEX], 0x01);
    assert_eq!(core.memory.io_ports[TIMA_IO_INDEX], 0);
}

#[test]
fn joyp_reads_include_select_bits_and_selected_low_nibble() {
    let mut core = GameBoyCore::default();
    core.runtime.joypad = JoypadInputNibbles {
        button: 0x0e,
        direction: 0x0d,
    };

    write8(&mut core, 0xff00, JOYP_SELECT_DIRECTIONS);
    assert_eq!(read8(&core, 0xff00), 0xed);

    write8(&mut core, 0xff00, JOYP_SELECT_BUTTONS);
    assert_eq!(read8(&core, 0xff00), 0xde);

    write8(&mut core, 0xff00, 0x00);
    assert_eq!(read8(&core, 0xff00), 0xcc);

    write8(&mut core, 0xff00, JOYP_SELECT_NONE);
    assert_eq!(read8(&core, 0xff00), 0xff);
}

#[test]
fn joyp_write_requests_interrupt_when_selected_bits_fall() {
    let mut core = GameBoyCore::default();
    core.memory.io_ports[JOYP_IO_INDEX] = 0xc0 | JOYP_SELECT_NONE | 0x0f;
    core.runtime.joypad = JoypadInputNibbles {
        button: 0x0e,
        direction: 0x0f,
    };

    write8(&mut core, 0xff00, JOYP_SELECT_BUTTONS);

    assert_eq!(core.memory.io_ports[JOYP_IO_INDEX], 0xde);
    assert_eq!(
        core.memory.io_ports[IF_IO_INDEX] & INTERRUPT_JOYPAD,
        INTERRUPT_JOYPAD
    );
}

#[test]
fn joyp_write_does_not_interrupt_without_low_nibble_falling_edge() {
    let mut core = GameBoyCore::default();
    core.memory.io_ports[JOYP_IO_INDEX] = 0xc0 | JOYP_SELECT_BUTTONS | 0x0e;
    core.runtime.joypad = JoypadInputNibbles {
        button: 0x0f,
        direction: 0x0f,
    };

    write8(&mut core, 0xff00, JOYP_SELECT_BUTTONS);

    assert_eq!(core.memory.io_ports[JOYP_IO_INDEX], 0xdf);
    assert_eq!(core.memory.io_ports[IF_IO_INDEX] & INTERRUPT_JOYPAD, 0);
}

#[test]
fn boot_lock_only_transitions_from_mapped_to_unmapped() {
    let mut core = GameBoyCore::default();
    core.memory.io_ports[BOOT_IO_INDEX] = 0x00;

    write8(&mut core, 0xff50, 0x00);
    assert_eq!(read8(&core, 0xff50), 0x00);

    write8(&mut core, 0xff50, 0x01);
    assert_eq!(read8(&core, 0xff50), 0x01);

    write8(&mut core, 0xff50, 0x00);
    assert_eq!(read8(&core, 0xff50), 0x01);
}

#[test]
fn lcd_enable_starts_line_zero_oam_scan() {
    let mut core = GameBoyCore::default();
    core.memory_access.oam = true;
    core.memory_access.vram = true;
    core.gpu_mode = GpuMode::HBlank;
    core.gpu_timing.time_in_mode = 37;
    core.memory.io_ports[LCDC_IO_INDEX] = 0x00;
    core.memory.io_ports[STAT_IO_INDEX] = 0x00;
    core.memory.io_ports[LY_IO_INDEX] = 42;

    write8(&mut core, 0xff40, 0x80);

    assert_eq!(core.gpu_mode, GpuMode::ScanOam);
    assert_eq!(core.gpu_timing.time_in_mode, 0);
    assert_eq!(core.memory.io_ports[STAT_IO_INDEX] & 0x03, 0x02);
    assert_eq!(core.memory.io_ports[LY_IO_INDEX], 0);
    assert!(!core.memory_access.oam);
    assert!(core.memory_access.vram);
}

#[test]
fn lcd_disable_enters_hblank_stat_mode() {
    let mut core = GameBoyCore::default();
    core.memory_access.oam = false;
    core.memory_access.vram = false;
    core.gpu_mode = GpuMode::ScanVram;
    core.memory.io_ports[LCDC_IO_INDEX] = 0x80;
    core.memory.io_ports[STAT_IO_INDEX] = 0x83;
    core.memory.io_ports[LY_IO_INDEX] = 42;

    write8(&mut core, 0xff40, 0x00);

    assert_eq!(core.gpu_mode, GpuMode::HBlank);
    assert_eq!(core.memory.io_ports[STAT_IO_INDEX] & 0x03, 0x00);
    assert_eq!(core.memory.io_ports[LY_IO_INDEX], 0);
    assert!(core.memory_access.oam);
    assert!(core.memory_access.vram);
}

#[test]
fn cgb_general_hdma_copies_to_vram() {
    let mut core = GameBoyCore::default();
    core.rom.properties.cgb_flag = true;
    core.memory.io_ports[HDMA5_IO_INDEX] = 0xff;
    core.memory.rom[0x0200] = 0x80;
    core.memory.rom[0x0201] = 0x40;
    write8(&mut core, 0xff51, 0x02);
    write8(&mut core, 0xff52, 0x00);
    write8(&mut core, 0xff53, 0x00);
    write8(&mut core, 0xff54, 0x00);

    write8(&mut core, 0xff55, 0x00);

    assert_eq!(core.memory.vram[0], 0x80);
    assert_eq!(core.memory.vram[1], 0x40);
    assert_eq!(&core.memory.tile_set[0..2], &[1, 2]);
    assert_eq!(core.memory.io_ports[HDMA5_IO_INDEX], 0xff);
    assert_eq!(core.dma.vram.cpu_halt_m_cycles, HDMA_BLOCK_M_CYCLES);
}

#[test]
fn hblank_hdma_copies_one_block_and_completes() {
    let mut core = GameBoyCore::default();
    core.rom.properties.cgb_flag = true;
    core.memory_access.vram = true;
    core.memory.rom[0x0200] = 0x55;
    write8(&mut core, 0xff51, 0x02);
    write8(&mut core, 0xff52, 0x00);
    write8(&mut core, 0xff53, 0x00);
    write8(&mut core, 0xff54, 0x00);
    write8(&mut core, 0xff55, 0x80);

    run_hblank_dma(&mut core);

    assert_eq!(core.memory.vram[0], 0x55);
    assert_eq!(core.memory.io_ports[HDMA5_IO_INDEX], 0xff);
    assert_eq!(core.dma.vram.cpu_halt_m_cycles, HDMA_BLOCK_M_CYCLES);
}

#[test]
fn hblank_hdma_tracks_active_remaining_blocks() {
    let mut core = GameBoyCore::default();
    core.rom.properties.cgb_flag = true;
    core.memory.rom[0x0200] = 0x11;
    core.memory.rom[0x0210] = 0x22;
    write8(&mut core, 0xff51, 0x02);
    write8(&mut core, 0xff52, 0x00);
    write8(&mut core, 0xff53, 0x00);
    write8(&mut core, 0xff54, 0x00);

    write8(&mut core, 0xff55, 0x81);

    assert_eq!(core.memory.io_ports[HDMA5_IO_INDEX], 0x01);

    run_hblank_dma(&mut core);

    assert_eq!(core.memory.vram[0], 0x11);
    assert_eq!(core.memory.io_ports[HDMA5_IO_INDEX], 0x00);
    assert_eq!(core.dma.vram.cpu_halt_m_cycles, HDMA_BLOCK_M_CYCLES);

    run_hblank_dma(&mut core);

    assert_eq!(core.memory.vram[0x10], 0x22);
    assert_eq!(core.memory.io_ports[HDMA5_IO_INDEX], 0xff);
    assert_eq!(core.dma.vram.cpu_halt_m_cycles, HDMA_BLOCK_M_CYCLES * 2);
}

#[test]
fn hblank_hdma_does_not_run_while_cpu_is_halted() {
    let mut core = GameBoyCore::default();
    core.rom.properties.cgb_flag = true;
    core.cpu_mode = CpuMode::Halted;
    core.memory.rom[0x0200] = 0x55;
    write8(&mut core, 0xff51, 0x02);
    write8(&mut core, 0xff52, 0x00);
    write8(&mut core, 0xff53, 0x00);
    write8(&mut core, 0xff54, 0x00);
    write8(&mut core, 0xff55, 0x80);

    run_hblank_dma(&mut core);

    assert_eq!(core.memory.vram[0], 0x00);
    assert_eq!(core.memory.io_ports[HDMA5_IO_INDEX], 0x00);
    assert_eq!(core.dma.vram.cpu_halt_m_cycles, 0);
}

#[test]
fn active_hblank_hdma_can_be_stopped_by_hdma5_write() {
    let mut core = GameBoyCore::default();
    core.rom.properties.cgb_flag = true;
    write8(&mut core, 0xff55, 0x82);

    write8(&mut core, 0xff55, 0x00);

    assert_eq!(core.memory.io_ports[HDMA5_IO_INDEX], 0x82);
}

#[test]
fn oam_dma_starts_after_deferred_activation_and_steps_one_byte_per_mcycle() {
    let mut core = GameBoyCore::default();
    core.memory_access.oam = true;
    core.memory.rom[0x0200] = 0x12;
    core.memory.rom[0x0201] = 0x34;

    write8(&mut core, 0xff46, 0x02);

    assert_eq!(core.memory.oam[0], 0x00);
    assert_eq!(core.dma.oam.pending_source_high, Some(0x02));
    assert!(!core.dma.oam.active);

    begin_deferred_oam_dma(&mut core);
    step_oam_dma(&mut core);

    assert_eq!(core.memory.oam[0], 0x12);
    assert_eq!(core.memory.oam[1], 0x00);
    assert!(core.dma.oam.active);

    step_oam_dma(&mut core);

    assert_eq!(core.memory.oam[1], 0x34);
    assert_eq!(core.memory.io_ports[DMA_IO_INDEX], 0x02);
}

#[test]
fn oam_dma_blocks_non_hram_cpu_access_on_dmg() {
    let mut core = GameBoyCore::default();
    core.memory.rom[0x0100] = 0x12;
    core.memory.io_ports[0x80] = 0x34;
    core.dma.oam.active = true;

    assert_eq!(read8(&core, 0x0100), 0xff);
    assert_eq!(read8(&core, 0xff80), 0x34);

    write8(&mut core, 0xc000, 0x56);
    write8(&mut core, 0xff80, 0x78);

    assert_eq!(core.memory.wram[0], 0x00);
    assert_eq!(core.memory.io_ports[0x80], 0x78);
}

#[test]
fn oam_dma_does_not_block_cgb_cpu_bus() {
    let mut core = GameBoyCore::default();
    core.rom.properties.cgb_flag = true;
    core.memory.rom[0x0100] = 0x12;
    core.dma.oam.active = true;

    assert_eq!(read8(&core, 0x0100), 0x12);
}

#[test]
fn sgb_joypad_packet_enables_multiplayer_mode() {
    let mut core = GameBoyCore::default();
    core.rom.properties.sgb_flag = true;
    let mut packet = [0_u8; 16];
    packet[0] = (0x11 << 3) | 0x01;
    packet[1] = 0x01;

    write_sgb_packet(&mut core, packet);

    assert!(core.sgb.mult_enabled);
    assert_eq!(core.sgb.player_count, 2);
    assert_eq!(core.sgb.read_joypad_id, 0x0f);
    assert_eq!(core.sgb.completed_commands, 1);
    assert_eq!(core.sgb.last_command, 0x11);
    assert!(!core.sgb.reading_command);
}

#[test]
fn sgb_joypad_packet_ignores_repeated_select_writes() {
    let mut core = GameBoyCore::default();
    core.rom.properties.sgb_flag = true;
    let mut packet = [0_u8; 16];
    packet[0] = (0x11 << 3) | 0x01;
    packet[1] = 0x01;

    write8(&mut core, 0xff00, 0x00);
    for byte in packet {
        for bit in 0..8 {
            let select = if byte & (1 << bit) != 0 {
                JOYP_SELECT_BUTTONS
            } else {
                JOYP_SELECT_DIRECTIONS
            };
            write8(&mut core, 0xff00, select);
            write8(&mut core, 0xff00, select);
            write8(&mut core, 0xff00, JOYP_SELECT_NONE);
        }
    }
    write8(&mut core, 0xff00, JOYP_SELECT_DIRECTIONS);
    write8(&mut core, 0xff00, JOYP_SELECT_NONE);

    assert!(core.sgb.mult_enabled);
    assert_eq!(core.sgb.packet_errors, 0);
}

#[test]
fn sgb_joypad_packet_stop_bit_does_not_shift_next_packet() {
    let mut core = GameBoyCore::default();
    core.rom.properties.sgb_flag = true;
    let mut first_packet = [0_u8; 16];
    first_packet[0] = (0x07 << 3) | 0x02;
    first_packet[3] = 44;
    first_packet[6..].fill(0xff);
    let mut second_packet = [0_u8; 16];
    second_packet[0] = 0xff;

    write_sgb_packet(&mut core, first_packet);
    write_sgb_packet(&mut core, second_packet);

    assert_eq!(core.sgb.command_bytes[1][0], 0xff);
    assert_eq!(core.sgb.character_palettes[2 * 20 + 3], 3);
    assert_eq!(core.sgb.packet_errors, 0);
}

#[test]
fn sgb_multiplayer_probe_reads_and_cycles_controller_id() {
    let mut core = GameBoyCore::default();
    core.rom.properties.sgb_flag = true;
    let mut packet = [0_u8; 16];
    packet[0] = (0x11 << 3) | 0x01;
    packet[1] = 0x01;
    write_sgb_packet(&mut core, packet);

    assert_eq!(read8(&core, 0xff00), 0x0f);

    write8(&mut core, 0xff00, JOYP_SELECT_DIRECTIONS);
    write8(&mut core, 0xff00, JOYP_SELECT_NONE);

    assert_eq!(read8(&core, 0xff00), 0x0e);

    write8(&mut core, 0xff00, JOYP_SELECT_BUTTONS);
    write8(&mut core, 0xff00, JOYP_SELECT_NONE);

    assert_eq!(read8(&core, 0xff00), 0x0d);
}

#[test]
fn sgb_multiplayer_probe_does_not_cycle_on_repeated_selected_row() {
    let mut core = GameBoyCore::default();
    core.rom.properties.sgb_flag = true;
    let mut packet = [0_u8; 16];
    packet[0] = (0x11 << 3) | 0x01;
    packet[1] = 0x01;
    write_sgb_packet(&mut core, packet);

    write8(&mut core, 0xff00, JOYP_SELECT_DIRECTIONS);
    write8(&mut core, 0xff00, JOYP_SELECT_DIRECTIONS);

    assert_eq!(core.sgb.read_joypad_id, 0x0f);

    write8(&mut core, 0xff00, JOYP_SELECT_NONE);

    assert_eq!(core.sgb.read_joypad_id, 0x0e);
}

fn write_sgb_packet(core: &mut GameBoyCore, packet: [u8; 16]) {
    write8(core, 0xff00, 0x00);
    for byte in packet {
        for bit in 0..8 {
            let select = if byte & (1 << bit) != 0 {
                JOYP_SELECT_BUTTONS
            } else {
                JOYP_SELECT_DIRECTIONS
            };
            write8(core, 0xff00, select);
            write8(core, 0xff00, JOYP_SELECT_NONE);
        }
    }
    write8(core, 0xff00, JOYP_SELECT_DIRECTIONS);
    write8(core, 0xff00, JOYP_SELECT_NONE);
}
