use shining_emulator::bus::{IF_IO_INDEX, JOYP_IO_INDEX, LCDC_IO_INDEX, STAT_IO_INDEX, TAC_IO_INDEX, TIMA_IO_INDEX, TMA_IO_INDEX};
use shining_emulator::cpu::CpuMode;
use shining_emulator::frame_buffer::GameBoyFrameRing;
use shining_emulator::gpu::{GpuMode, GpuTiming, MemoryAccess};
use shining_emulator::input::JoypadInputNibbles;
use shining_emulator::interpreter::IE_IO_INDEX;
use shining_emulator::machine::GameBoyCore;
use shining_emulator::memory::GameBoyMemory;
use shining_emulator::runtime::RuntimeControl;
use shining_emulator::tick::{
    add_accumulated_clocks, adjusted_clock_frequency, advance_ppu_timing, apply_joypad_state_change,
    execute_accumulated_clocks, handle_interrupts, handle_lcd_disabled, ly, machine_cycles_for_clocks,
    object_penalty_tile, scan_vram_clocks, step_machine_cycle, InterruptAction, FIRST_VBLANK_LINE,
    INTERRUPT_ACK_MACHINE_CYCLES, INTERRUPT_LCD_STAT, INTERRUPT_SERIAL, INTERRUPT_VBLANK, LCDC_OBJ_ENABLE,
    LCDC_WINDOW_ENABLE, LYC_IO_INDEX, MACHINE_CYCLE_CLOCKS, SCAN_VRAM_CLOCKS, SCX_IO_INDEX, VBLANK_LINE_CLOCKS,
    WX_IO_INDEX, WY_IO_INDEX,
};

const INTERRUPT_TIMER: u8 = 0x04;
const INTERRUPT_JOYPAD: u8 = 0x10;

#[test]
fn joypad_press_updates_selected_nibble_and_requests_interrupt() {
    let mut emulator = GameBoyCore::default();
    emulator.runtime = RuntimeControl {
        joypad: JoypadInputNibbles {
            button: 0x0f,
            direction: 0x0d,
        },
        joypad_state_changed: true,
        ..Default::default()
    };
    emulator.memory.io_ports[JOYP_IO_INDEX] = 0xef;

    apply_joypad_state_change(&mut emulator);

    assert_eq!(emulator.memory.io_ports[JOYP_IO_INDEX], 0xed);
    assert_eq!(emulator.memory.io_ports[IF_IO_INDEX], 0x10);
    assert!(!emulator.runtime.joypad_state_changed);
}

#[test]
fn joypad_release_updates_selected_nibble_without_interrupt() {
    let mut emulator = GameBoyCore::default();
    emulator.runtime = RuntimeControl {
        joypad: JoypadInputNibbles {
            button: 0x0f,
            direction: 0x0f,
        },
        joypad_state_changed: true,
        ..Default::default()
    };
    emulator.memory.io_ports[JOYP_IO_INDEX] = 0xed;

    apply_joypad_state_change(&mut emulator);

    assert_eq!(emulator.memory.io_ports[JOYP_IO_INDEX], 0xef);
    assert_eq!(emulator.memory.io_ports[IF_IO_INDEX] & INTERRUPT_JOYPAD, 0);
    assert!(!emulator.runtime.joypad_state_changed);
}

#[test]
fn joypad_unselected_row_change_does_not_request_interrupt() {
    let mut emulator = GameBoyCore::default();
    emulator.runtime = RuntimeControl {
        joypad: JoypadInputNibbles {
            button: 0x0e,
            direction: 0x0f,
        },
        joypad_state_changed: true,
        ..Default::default()
    };
    emulator.memory.io_ports[JOYP_IO_INDEX] = 0xef;

    apply_joypad_state_change(&mut emulator);

    assert_eq!(emulator.memory.io_ports[JOYP_IO_INDEX], 0xef);
    assert_eq!(emulator.memory.io_ports[IF_IO_INDEX] & INTERRUPT_JOYPAD, 0);
    assert!(!emulator.runtime.joypad_state_changed);
}

#[test]
fn accumulated_clock_execution_runs_cpu_opcodes() {
    let mut emulator = GameBoyCore::default();
    emulator.cpu_registers.pc = 0x0100;
    emulator.cpu_timing.clocks_acc = 8;
    emulator.memory.rom[0x0100] = 0x3e;
    emulator.memory.rom[0x0101] = 0x77;
    let mut frames = GameBoyFrameRing::default();

    execute_accumulated_clocks(&mut emulator, &mut frames);

    assert_eq!(emulator.cpu_registers.a, 0x77);
    assert_eq!(emulator.cpu_registers.pc, 0x0102);
    assert_eq!(emulator.cpu_timing.clocks_acc, 0);
}

#[test]
fn machine_cycle_step_drains_four_clocks_and_advances_timer() {
    let mut emulator = GameBoyCore::default();
    emulator.cpu_timing.clocks_acc = 8;
    emulator.cpu_timing.system_counter = 0x000c;
    emulator.memory.io_ports[TAC_IO_INDEX] = 0x05;
    let mut frames = GameBoyFrameRing::default();

    step_machine_cycle(&mut emulator, &mut frames);

    assert_eq!(emulator.cpu_timing.clocks_acc, 4);
    assert_eq!(emulator.cpu_timing.system_counter, 0x0010);
    assert_eq!(emulator.memory.io_ports[TIMA_IO_INDEX], 1);
}

#[test]
fn stopped_machine_cycle_does_not_advance_system_counter() {
    let mut emulator = GameBoyCore::default();
    emulator.cpu_mode = CpuMode::Stopped;
    emulator.cpu_timing.clocks_acc = 4;
    emulator.cpu_timing.system_counter = 0x000c;
    emulator.memory.io_ports[TAC_IO_INDEX] = 0x05;
    let mut frames = GameBoyFrameRing::default();

    step_machine_cycle(&mut emulator, &mut frames);

    assert_eq!(emulator.cpu_timing.clocks_acc, 0);
    assert_eq!(emulator.cpu_timing.system_counter, 0x000c);
    assert_eq!(emulator.memory.io_ports[TIMA_IO_INDEX], 0);
}

#[test]
fn interrupt_service_path_consumes_five_machine_cycles() {
    let mut emulator = GameBoyCore::default();
    emulator.cpu_registers.ime = true;
    emulator.cpu_registers.pc = 0x1234;
    emulator.cpu_registers.sp = 0xfffe;
    emulator.cpu_timing.clocks_acc = INTERRUPT_ACK_MACHINE_CYCLES * MACHINE_CYCLE_CLOCKS;
    emulator.memory.io_ports[IE_IO_INDEX] = INTERRUPT_VBLANK;
    emulator.memory.io_ports[IF_IO_INDEX] = INTERRUPT_VBLANK;
    let mut frames = GameBoyFrameRing::default();

    execute_accumulated_clocks(&mut emulator, &mut frames);

    assert_eq!(emulator.cpu_timing.clocks_acc, 0);
    assert_eq!(emulator.cpu_registers.pc, 0x0040);
    assert_eq!(emulator.cpu_registers.sp, 0xfffc);
    assert_eq!(emulator.memory.io_ports[IF_IO_INDEX] & INTERRUPT_VBLANK, 0);
}

#[test]
fn vram_dma_halt_cycles_drain_without_executing_cpu_opcodes() {
    let mut emulator = GameBoyCore::default();
    emulator.cpu_registers.pc = 0x0100;
    emulator.cpu_timing.clocks_acc = 2 * MACHINE_CYCLE_CLOCKS;
    emulator.dma.vram.cpu_halt_m_cycles = 2;
    emulator.memory.rom[0x0100] = 0x04;
    let mut frames = GameBoyFrameRing::default();

    execute_accumulated_clocks(&mut emulator, &mut frames);

    assert_eq!(emulator.dma.vram.cpu_halt_m_cycles, 0);
    assert_eq!(emulator.cpu_timing.clocks_acc, 0);
    assert_eq!(emulator.cpu_registers.b, 0);
    assert_eq!(emulator.cpu_registers.pc, 0x0100);
}

#[test]
fn ei_enables_interrupts_after_the_following_instruction() {
    let mut emulator = GameBoyCore::default();
    emulator.cpu_registers.pc = 0x0100;
    emulator.cpu_timing.clocks_acc = MACHINE_CYCLE_CLOCKS;
    emulator.memory.rom[0x0100] = 0xfb;
    emulator.memory.rom[0x0101] = 0x00;
    let mut frames = GameBoyFrameRing::default();

    execute_accumulated_clocks(&mut emulator, &mut frames);

    assert!(!emulator.cpu_registers.ime);
    assert_eq!(emulator.cpu_registers.ime_enable_delay, 1);

    emulator.cpu_timing.clocks_acc = MACHINE_CYCLE_CLOCKS;
    execute_accumulated_clocks(&mut emulator, &mut frames);

    assert!(emulator.cpu_registers.ime);
    assert_eq!(emulator.cpu_registers.ime_enable_delay, 0);
    assert_eq!(emulator.cpu_registers.pc, 0x0102);
}

#[test]
fn pending_interrupt_after_ei_waits_until_after_next_instruction() {
    let mut emulator = GameBoyCore::default();
    emulator.cpu_registers.pc = 0x0100;
    emulator.cpu_registers.sp = 0xfffe;
    emulator.cpu_timing.clocks_acc =
        (2 * MACHINE_CYCLE_CLOCKS) + (INTERRUPT_ACK_MACHINE_CYCLES * MACHINE_CYCLE_CLOCKS);
    emulator.memory.rom[0x0100] = 0xfb;
    emulator.memory.rom[0x0101] = 0x00;
    emulator.memory.io_ports[IE_IO_INDEX] = INTERRUPT_VBLANK;
    emulator.memory.io_ports[IF_IO_INDEX] = INTERRUPT_VBLANK;
    let mut frames = GameBoyFrameRing::default();

    execute_accumulated_clocks(&mut emulator, &mut frames);

    assert_eq!(emulator.cpu_registers.pc, 0x0040);
    assert_eq!(emulator.cpu_registers.sp, 0xfffc);
    assert_eq!(emulator.memory.io_ports[0xfc], 0x02);
    assert_eq!(emulator.memory.io_ports[0xfd], 0x01);
}

#[test]
fn di_cancels_delayed_ei() {
    let mut emulator = GameBoyCore::default();
    emulator.cpu_registers.pc = 0x0100;
    emulator.cpu_timing.clocks_acc = 3 * MACHINE_CYCLE_CLOCKS;
    emulator.memory.rom[0x0100] = 0xfb;
    emulator.memory.rom[0x0101] = 0xf3;
    emulator.memory.rom[0x0102] = 0x00;
    let mut frames = GameBoyFrameRing::default();

    execute_accumulated_clocks(&mut emulator, &mut frames);

    assert!(!emulator.cpu_registers.ime);
    assert_eq!(emulator.cpu_registers.ime_enable_delay, 0);
    assert_eq!(emulator.cpu_registers.pc, 0x0103);
}

#[test]
fn halted_cpu_wakes_without_servicing_when_ime_is_disabled() {
    let mut emulator = GameBoyCore::default();
    emulator.cpu_mode = CpuMode::Halted;
    emulator.cpu_registers.pc = 0x0101;
    emulator.cpu_registers.sp = 0xfffe;
    emulator.cpu_timing.clocks_acc = MACHINE_CYCLE_CLOCKS;
    emulator.memory.io_ports[IE_IO_INDEX] = INTERRUPT_TIMER;
    emulator.memory.io_ports[IF_IO_INDEX] = INTERRUPT_TIMER;
    let mut frames = GameBoyFrameRing::default();

    execute_accumulated_clocks(&mut emulator, &mut frames);

    assert_eq!(emulator.cpu_mode, CpuMode::Running);
    assert_eq!(emulator.cpu_registers.pc, 0x0101);
    assert_eq!(emulator.cpu_registers.sp, 0xfffe);
    assert_eq!(
        emulator.memory.io_ports[IF_IO_INDEX] & INTERRUPT_TIMER,
        INTERRUPT_TIMER
    );
}

#[test]
fn halt_bug_repeats_next_single_byte_instruction() {
    let mut emulator = GameBoyCore::default();
    emulator.cpu_registers.pc = 0x0100;
    emulator.cpu_timing.clocks_acc = 3 * MACHINE_CYCLE_CLOCKS;
    emulator.memory.rom[0x0100] = 0x76;
    emulator.memory.rom[0x0101] = 0x04;
    emulator.memory.rom[0x0102] = 0x00;
    emulator.memory.io_ports[IE_IO_INDEX] = INTERRUPT_TIMER;
    emulator.memory.io_ports[IF_IO_INDEX] = INTERRUPT_TIMER;
    let mut frames = GameBoyFrameRing::default();

    execute_accumulated_clocks(&mut emulator, &mut frames);

    assert_eq!(emulator.cpu_registers.b, 2);
    assert_eq!(emulator.cpu_registers.pc, 0x0102);
    assert_eq!(
        emulator.memory.io_ports[IF_IO_INDEX] & INTERRUPT_TIMER,
        INTERRUPT_TIMER
    );
}

#[test]
fn ppu_timing_writes_visible_lines_and_publishes_on_vblank() {
    let mut emulator = GameBoyCore {
        gpu_timing: GpuTiming::default(),
        gpu_mode: GpuMode::ScanOam,
        memory_access: MemoryAccess::default(),
        memory: GameBoyMemory::default(),
        ..Default::default()
    };
    emulator.memory.io_ports[LCDC_IO_INDEX] = 0x91;
    let mut frames = GameBoyFrameRing::default();

    advance_ppu_timing(
        VBLANK_LINE_CLOCKS * i32::from(FIRST_VBLANK_LINE),
        &mut emulator,
        &mut frames,
    );

    assert_eq!(ly(&emulator.memory), FIRST_VBLANK_LINE);
    assert_eq!(emulator.gpu_mode, GpuMode::VBlank);
    assert_eq!(emulator.memory.io_ports[IF_IO_INDEX], 0x01);
    assert!(frames.latest_written_frame().is_some());
}

#[test]
fn mode_three_timing_includes_scroll_window_and_object_penalties() {
    let mut emulator = GameBoyCore::default();
    emulator.memory.io_ports[LCDC_IO_INDEX] = 0x80 | LCDC_OBJ_ENABLE | LCDC_WINDOW_ENABLE | 0x01;
    emulator.memory.io_ports[SCX_IO_INDEX] = 7;
    emulator.memory.io_ports[WY_IO_INDEX] = 0;
    emulator.memory.io_ports[WX_IO_INDEX] = 7;
    emulator.memory.oam[0] = 16;
    emulator.memory.oam[1] = 8;

    assert_eq!(scan_vram_clocks(&emulator), 196);
}

#[test]
fn cgb_lcdc_bit_zero_keeps_window_mode_three_penalty() {
    let mut emulator = GameBoyCore::default();
    emulator.rom.properties.cgb_flag = true;
    emulator.memory.io_ports[LCDC_IO_INDEX] = 0x80 | LCDC_WINDOW_ENABLE;
    emulator.memory.io_ports[WY_IO_INDEX] = 0;
    emulator.memory.io_ports[WX_IO_INDEX] = 7;

    assert_eq!(scan_vram_clocks(&emulator), SCAN_VRAM_CLOCKS + 6);
}

#[test]
fn dmg_lcdc_bit_zero_suppresses_window_mode_three_penalty() {
    let mut emulator = GameBoyCore::default();
    emulator.memory.io_ports[LCDC_IO_INDEX] = 0x80 | LCDC_WINDOW_ENABLE;
    emulator.memory.io_ports[WY_IO_INDEX] = 0;
    emulator.memory.io_ports[WX_IO_INDEX] = 7;

    assert_eq!(scan_vram_clocks(&emulator), SCAN_VRAM_CLOCKS);
}

#[test]
fn mode_three_uses_dynamic_duration_before_entering_hblank() {
    let mut emulator = GameBoyCore {
        gpu_timing: GpuTiming::default(),
        gpu_mode: GpuMode::ScanVram,
        memory_access: MemoryAccess {
            oam: false,
            vram: false,
            ..Default::default()
        },
        memory: GameBoyMemory::default(),
        ..Default::default()
    };
    emulator.memory.io_ports[LCDC_IO_INDEX] = 0x91;
    emulator.memory.io_ports[SCX_IO_INDEX] = 7;
    emulator.gpu_timing.line_scan_vram_clocks = scan_vram_clocks(&emulator);
    let mut frames = GameBoyFrameRing::default();

    advance_ppu_timing(178, &mut emulator, &mut frames);

    assert_eq!(emulator.gpu_mode, GpuMode::ScanVram);
    assert!(!emulator.memory_access.vram);

    advance_ppu_timing(1, &mut emulator, &mut frames);

    assert_eq!(emulator.gpu_mode, GpuMode::HBlank);
    assert_eq!(emulator.gpu_timing.time_in_mode, 0);
    assert!(emulator.memory_access.vram);
    assert!(emulator.memory_access.oam);
}

#[test]
fn hblank_uses_scanline_remainder_after_dynamic_mode_three() {
    let mut emulator = GameBoyCore {
        gpu_timing: GpuTiming::default(),
        gpu_mode: GpuMode::HBlank,
        memory: GameBoyMemory::default(),
        ..Default::default()
    };
    emulator.memory.io_ports[LCDC_IO_INDEX] = 0x91;
    emulator.memory.io_ports[SCX_IO_INDEX] = 7;
    emulator.gpu_timing.line_scan_vram_clocks = scan_vram_clocks(&emulator);
    let mut frames = GameBoyFrameRing::default();

    advance_ppu_timing(196, &mut emulator, &mut frames);

    assert_eq!(ly(&emulator.memory), 0);
    assert_eq!(emulator.gpu_mode, GpuMode::HBlank);

    advance_ppu_timing(1, &mut emulator, &mut frames);

    assert_eq!(ly(&emulator.memory), 1);
    assert_eq!(emulator.gpu_mode, GpuMode::ScanOam);
    assert_eq!(emulator.gpu_timing.time_in_mode, 0);
}

#[test]
fn lyc_compare_updates_immediately_when_hblank_advances_line() {
    let mut emulator = GameBoyCore {
        gpu_timing: GpuTiming::default(),
        gpu_mode: GpuMode::HBlank,
        memory: GameBoyMemory::default(),
        ..Default::default()
    };
    emulator.memory.io_ports[LCDC_IO_INDEX] = 0x91;
    emulator.memory.io_ports[LYC_IO_INDEX] = 1;
    emulator.memory.io_ports[STAT_IO_INDEX] = 0x40;
    let mut frames = GameBoyFrameRing::default();

    advance_ppu_timing(204, &mut emulator, &mut frames);

    assert_eq!(ly(&emulator.memory), 1);
    assert_eq!(emulator.memory.io_ports[STAT_IO_INDEX] & 0x04, 0x04);
    assert_eq!(
        emulator.memory.io_ports[IF_IO_INDEX] & INTERRUPT_LCD_STAT,
        INTERRUPT_LCD_STAT
    );
}

#[test]
fn hblank_dma_runs_after_vram_access_reopens() {
    let mut emulator = GameBoyCore {
        gpu_timing: GpuTiming::default(),
        gpu_mode: GpuMode::ScanVram,
        memory_access: MemoryAccess {
            vram: false,
            ..Default::default()
        },
        memory: GameBoyMemory::default(),
        ..Default::default()
    };
    emulator.rom.properties.cgb_flag = true;
    emulator.memory.io_ports[LCDC_IO_INDEX] = 0x91;
    emulator.memory.io_ports[0x51] = 0x02;
    emulator.memory.io_ports[0x52] = 0x00;
    emulator.memory.io_ports[0x53] = 0x00;
    emulator.memory.io_ports[0x54] = 0x00;
    emulator.memory.io_ports[0x55] = 0x00;
    emulator.memory.rom[0x0200] = 0x5a;
    let mut frames = GameBoyFrameRing::default();

    advance_ppu_timing(SCAN_VRAM_CLOCKS, &mut emulator, &mut frames);

    assert_eq!(emulator.memory.vram[0], 0x5a);
    assert_eq!(emulator.memory.io_ports[0x55], 0xff);
    assert_eq!(emulator.dma.vram.cpu_halt_m_cycles, 8);
    assert!(emulator.memory_access.vram);
}

#[test]
fn timer_overflow_reloads_modulo_and_requests_interrupt() {
    let mut emulator = GameBoyCore::default();
    emulator.cpu_timing.clocks_acc = 2 * MACHINE_CYCLE_CLOCKS;
    emulator.cpu_timing.system_counter = 0x000c;
    emulator.memory.io_ports[TIMA_IO_INDEX] = 0xff;
    emulator.memory.io_ports[TMA_IO_INDEX] = 0x42;
    emulator.memory.io_ports[TAC_IO_INDEX] = 0x05;
    let mut frames = GameBoyFrameRing::default();

    step_machine_cycle(&mut emulator, &mut frames);

    assert_eq!(emulator.memory.io_ports[TIMA_IO_INDEX], 0x00);
    assert_eq!(emulator.cpu_timing.tima_reload_delay, 1);
    assert_eq!(emulator.memory.io_ports[IF_IO_INDEX] & INTERRUPT_TIMER, 0);

    step_machine_cycle(&mut emulator, &mut frames);

    assert_eq!(emulator.memory.io_ports[TIMA_IO_INDEX], 0x42);
    assert_eq!(
        emulator.memory.io_ports[IF_IO_INDEX] & INTERRUPT_TIMER,
        INTERRUPT_TIMER
    );
}

#[test]
fn lcd_disabled_publishes_a_black_frame_once() {
    let mut emulator = GameBoyCore::default();
    let mut frames = GameBoyFrameRing::default();

    handle_lcd_disabled(&mut emulator, &mut frames);

    let frame = frames
        .latest_written_frame()
        .expect("black frame should publish");
    assert!(frame.pixels().iter().all(|byte| *byte == 0));
    assert!(emulator.gpu_timing.blanked_screen);
}

#[test]
fn lcd_disabled_reports_hblank_stat_mode_for_vram_wait_loops() {
    let mut emulator = GameBoyCore::default();
    emulator.cpu_registers.pc = 0x0100;
    emulator.cpu_timing.clocks_acc = 200;
    emulator.memory.io_ports[LCDC_IO_INDEX] = 0x91;
    emulator.memory.io_ports[STAT_IO_INDEX] = 0x02;
    emulator.memory.rom[0x0100] = 0x3e;
    emulator.memory.rom[0x0101] = 0x40;
    emulator.memory.rom[0x0102] = 0xe0;
    emulator.memory.rom[0x0103] = 0x40;
    emulator.memory.rom[0x0104] = 0xf0;
    emulator.memory.rom[0x0105] = 0x41;
    emulator.memory.rom[0x0106] = 0xe6;
    emulator.memory.rom[0x0107] = 0x02;
    emulator.memory.rom[0x0108] = 0x20;
    emulator.memory.rom[0x0109] = 0xfa;
    emulator.memory.rom[0x010a] = 0x3e;
    emulator.memory.rom[0x010b] = 0x99;
    emulator.memory.rom[0x010c] = 0x76;
    let mut frames = GameBoyFrameRing::default();

    execute_accumulated_clocks(&mut emulator, &mut frames);

    assert_eq!(emulator.cpu_registers.a, 0x99);
    assert_eq!(emulator.memory.io_ports[STAT_IO_INDEX] & 0x03, 0);
    assert!(frames.latest_written_frame().is_some());
}

#[test]
fn machine_cycle_counts_round_up() {
    assert_eq!(machine_cycles_for_clocks(0), 1);
    assert_eq!(machine_cycles_for_clocks(4), 1);
    assert_eq!(machine_cycles_for_clocks(5), 2);
    assert_eq!(machine_cycles_for_clocks(24), 6);
    assert_eq!(machine_cycles_for_clocks(i32::MAX), i32::MAX / 4);
}

#[test]
fn the_highest_priority_interrupt_is_serviced_first() {
    let mut emulator = GameBoyCore::default();
    emulator.cpu_registers.ime = true;
    emulator.cpu_registers.pc = 0x0150;
    emulator.cpu_registers.sp = 0xfffe;
    emulator.memory.io_ports[IE_IO_INDEX] = 0x1f;
    emulator.memory.io_ports[IF_IO_INDEX] = INTERRUPT_TIMER | INTERRUPT_SERIAL;

    assert_eq!(handle_interrupts(&mut emulator), InterruptAction::Service);
    assert_eq!(emulator.cpu_registers.pc, 0x0050);
    assert_eq!(emulator.memory.io_ports[IF_IO_INDEX], INTERRUPT_SERIAL);
    assert_eq!(emulator.memory.io_ports[0xfc], 0x50);
    assert_eq!(emulator.memory.io_ports[0xfd], 0x01);
    assert!(!emulator.cpu_registers.ime);
}

#[test]
fn disabled_interrupts_are_left_pending() {
    let mut emulator = GameBoyCore::default();
    emulator.memory.io_ports[IE_IO_INDEX] = INTERRUPT_VBLANK;
    emulator.memory.io_ports[IF_IO_INDEX] = INTERRUPT_VBLANK;

    assert_eq!(handle_interrupts(&mut emulator), InterruptAction::Proceed);
    assert_eq!(emulator.memory.io_ports[IF_IO_INDEX], INTERRUPT_VBLANK);
}

#[test]
fn object_penalty_tiles_split_window_and_background() {
    assert_eq!(object_penalty_tile(10, 3, Some(8)), (1_000, 2));
    assert_eq!(object_penalty_tile(5, 3, Some(8)), (1, 0));
    assert_eq!(object_penalty_tile(-8, 0, None), (-1, 0));
    assert_eq!(object_penalty_tile(-3, 0, None), (-1, 5));
}

#[test]
fn clock_frequency_follows_the_speed_setting() {
    let timing = shining_emulator::cpu::CpuTiming {
        clock_frequency_hz: 4_194_304,
        ..Default::default()
    };
    let mut control = RuntimeControl::default();
    control.clock_multiply = 3;
    control.clock_divide = 2;
    assert_eq!(adjusted_clock_frequency(&timing, &control), Some(6_291_456));
    control.clock_divide = 0;
    assert_eq!(adjusted_clock_frequency(&timing, &control), None);
}

#[test]
fn accumulated_clocks_are_capped_by_the_speed_setting() {
    let mut timing = shining_emulator::cpu::CpuTiming::default();
    let control = RuntimeControl::default();
    add_accumulated_clocks(&mut timing, &control, 1_500_000);
    assert_eq!(timing.clocks_acc, 1_500_000);
    add_accumulated_clocks(&mut timing, &control, 1_500_000);
    assert_eq!(timing.clocks_acc, 2_000_000);
}

#[test]
fn speed_controls_follow_the_legacy_multiplier_table() {
    let mut control = RuntimeControl::default();

    shining_emulator::runtime::speed_up(&mut control);

    assert_eq!(control.current_clock_multiplier_combo, 11);
    assert_eq!(control.clock_multiply, 5);
    assert_eq!(control.clock_divide, 4);

    shining_emulator::runtime::slow_down(&mut control);

    assert_eq!(control.current_clock_multiplier_combo, 10);
    assert_eq!(control.clock_multiply, 1);
    assert_eq!(control.clock_divide, 1);
}

#[test]
fn speed_settings_stop_at_both_ends() {
    let mut control = RuntimeControl::default();
    for _ in 0..30 {
        shining_emulator::runtime::speed_up(&mut control);
    }
    assert_eq!(control.current_clock_multiplier_combo, 20);
    assert_eq!((control.clock_multiply, control.clock_divide), (20, 1));
    for _ in 0..30 {
        shining_emulator::runtime::slow_down(&mut control);
    }
    assert_eq!(control.current_clock_multiplier_combo, 0);
    assert_eq!((control.clock_multiply, control.clock_divide), (1, 20));
}

#[test]
fn pause_toggles_only_while_running() {
    let mut control = RuntimeControl::default();
    shining_emulator::runtime::toggle_pause(&mut control);
    assert!(!control.is_paused);
    control.is_running = true;
    shining_emulator::runtime::toggle_pause(&mut control);
    assert!(control.is_paused);
    shining_emulator::runtime::toggle_pause(&mut control);
    assert!(!control.is_paused);
}

#[test]
fn joypad_sync_marks_only_real_changes() {
    let mut control = RuntimeControl::default();
    shining_emulator::runtime::sync_joypad(&mut control, JoypadInputNibbles::default());
    assert!(!control.joypad_state_changed);
    let pressed = JoypadInputNibbles { button: 0x0e, direction: 0x0f };
    shining_emulator::runtime::sync_joypad(&mut control, pressed);
    assert!(control.joypad_state_changed);
    assert_eq!(control.joypad, pressed);
}

#[test]
fn host_frame_runs_only_an_active_emulator_with_a_full_batch() {
    let mut runtime = RuntimeControl::default();
    assert!(!shining_emulator::tick::emulation_active(&runtime));
    runtime.is_running = true;
    assert!(shining_emulator::tick::emulation_active(&runtime));
    runtime.is_paused = true;
    assert!(!shining_emulator::tick::emulation_active(&runtime));

    let mut core = GameBoyCore::default();
    let mut frames = GameBoyFrameRing::default();
    core.cpu_timing.clocks_acc = 1_999;
    assert!(!shining_emulator::tick::run_accumulated_batch(&mut core, &mut frames));
    assert_eq!(core.cpu_timing.clocks_acc, 1_999);

    core.cpu_timing.clocks_acc = 2_000;
    assert!(shining_emulator::tick::run_accumulated_batch(&mut core, &mut frames));
    assert!(core.cpu_timing.clocks_acc <= 0);
}
