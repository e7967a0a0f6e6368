use shining_emulator::constants::{GB_CLOCK_HZ, SGB_CLOCK_HZ};
use shining_emulator::gpu::{GpuMode, LineRenderer};
use shining_emulator::machine::GameBoyCore;
use shining_emulator::rom::RomProperties;

fn reset_core(properties: RomProperties) -> GameBoyCore {
    let mut core = GameBoyCore::default();
    assert!(core.reset_for_rom_load(properties, String::new(), String::new(), &[]));
    core
}

#[test]
fn dmg_boot_bypass_applies_dmg_handoff_state() {
    let core = reset_core(RomProperties {
        check_sum: 1,
        ..Default::default()
    });

    assert_eq!(core.cpu_registers.pc, 0x0100);
    assert_eq!(core.cpu_registers.sp, 0xfffe);
    assert_eq!(core.cpu_registers.a, 0x01);
    assert_eq!(core.cpu_registers.f, 0xb0);
    assert_eq!(core.cpu_registers.b, 0x00);
    assert_eq!(core.cpu_registers.c, 0x13);
    assert_eq!(core.cpu_registers.d, 0x00);
    assert_eq!(core.cpu_registers.e, 0xd8);
    assert_eq!(core.cpu_registers.h, 0x01);
    assert_eq!(core.cpu_registers.l, 0x4d);
    assert!(!core.cpu_registers.ime);
    assert_eq!(core.line_renderer, LineRenderer::Gb);
    assert_eq!(core.cpu_timing.clock_frequency_hz, GB_CLOCK_HZ);
    assert_eq!(core.memory.io_ports[0x00], 0xcf);
    assert_eq!(core.memory.io_ports[0x02], 0x7e);
    assert_eq!(core.memory.io_ports[0x07], 0xf8);
    assert_eq!(core.memory.io_ports[0x0f], 0xe1);
    assert_eq!(core.memory.io_ports[0x26], 0xf1);
    assert_eq!(core.memory.io_ports[0x40], 0x91);
    assert_eq!(core.memory.io_ports[0x46], 0xff);
    assert_eq!(core.memory.io_ports[0x47], 0xfc);
    assert_eq!(core.memory.io_ports[0x50], 0x01);
    assert_eq!(core.memory.io_ports[0xff], 0x00);
    assert_eq!(core.gpu_mode, GpuMode::VBlank);
    assert!(core.memory_access.oam);
    assert!(core.memory_access.vram);
    assert_eq!(core.memory.io_ports[0x41] & 0x03, 0x01);
    assert_eq!(core.memory.io_ports[0x44], 0x00);
}

#[test]
fn dmg_zero_header_checksum_clears_boot_checksum_flags() {
    let core = reset_core(RomProperties::default());

    assert_eq!(core.cpu_registers.f, 0x80);
}

#[test]
fn sgb_boot_bypass_applies_sgb_handoff_state() {
    let core = reset_core(RomProperties {
        sgb_flag: true,
        ..Default::default()
    });

    assert_eq!(core.cpu_registers.a, 0x01);
    assert_eq!(core.cpu_registers.f, 0x00);
    assert_eq!(core.cpu_registers.b, 0x00);
    assert_eq!(core.cpu_registers.c, 0x14);
    assert_eq!(core.cpu_registers.d, 0x00);
    assert_eq!(core.cpu_registers.e, 0x00);
    assert_eq!(core.cpu_registers.h, 0xc0);
    assert_eq!(core.cpu_registers.l, 0x60);
    assert_eq!(core.line_renderer, LineRenderer::Sgb);
    assert_eq!(core.cpu_timing.clock_frequency_hz, SGB_CLOCK_HZ);
    assert_eq!(core.memory.io_ports[0x26], 0xf0);
    assert_eq!(core.sgb.read_joypad_id, 0x0c);
}

#[test]
fn cgb_boot_bypass_applies_cgb_handoff_state() {
    let core = reset_core(RomProperties {
        cgb_flag: true,
        ..Default::default()
    });

    assert_eq!(core.cpu_registers.a, 0x11);
    assert_eq!(core.cpu_registers.f, 0x80);
    assert_eq!(core.cpu_registers.b, 0x00);
    assert_eq!(core.cpu_registers.c, 0x00);
    assert_eq!(core.cpu_registers.d, 0xff);
    assert_eq!(core.cpu_registers.e, 0x56);
    assert_eq!(core.cpu_registers.h, 0x00);
    assert_eq!(core.cpu_registers.l, 0x0d);
    assert_eq!(core.line_renderer, LineRenderer::Cgb);
    assert_eq!(core.cpu_timing.clock_frequency_hz, GB_CLOCK_HZ);
    assert_eq!(core.memory.io_ports[0x02], 0x7f);
    assert_eq!(core.memory.io_ports[0x46], 0x00);
    assert_eq!(core.memory.io_ports[0x4d], 0x7e);
    assert_eq!(core.memory.io_ports[0x4f], 0xfe);
    assert_eq!(core.memory.io_ports[0x51], 0xff);
    assert_eq!(core.memory.io_ports[0x52], 0xff);
    assert_eq!(core.memory.io_ports[0x53], 0xff);
    assert_eq!(core.memory.io_ports[0x54], 0xff);
    assert_eq!(core.memory.io_ports[0x55], 0xff);
    assert_eq!(core.memory.io_ports[0x56], 0x3e);
    assert_eq!(core.memory.io_ports[0x70], 0xf8);
}

#[test]
fn well_formedness_check_accepts_a_fresh_core_and_refuses_broken_ones() {
    let core = GameBoyCore::default();
    assert!(core.is_well_formed());

    let mut short_wram = GameBoyCore::default();
    short_wram.memory.wram.pop();
    assert!(!short_wram.is_well_formed());

    let mut bad_tile = GameBoyCore::default();
    bad_tile.memory.tile_set[5] = 4;
    assert!(!bad_tile.is_well_formed());

    let mut bad_scan = GameBoyCore::default();
    bad_scan.gpu_timing.line_scan_vram_clocks = 290;
    assert!(!bad_scan.is_well_formed());

    let frames = shining_emulator::frame_buffer::GameBoyFrameRing::default();
    assert!(frames.is_well_formed());
}
