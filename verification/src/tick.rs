use vstd::prelude::*;

use crate::bus::{
    saturating_add_i32, saturating_i32, cpu_written16, port, with_port, write16, IF_IO_INDEX, INTERRUPT_JOYPAD, INTERRUPT_TIMER, JOYP_IO_INDEX,
    KEY1_IO_INDEX, LCDC_IO_INDEX, LY_IO_INDEX, SB_IO_INDEX, SC_IO_INDEX, STAT_IO_INDEX,
};
use crate::bus::{deferred_oam_dma_begun, oam_dma_stepped, system_counter_stepped};
use crate::cpu::{CpuMode, CpuRegisters, CpuTiming};
use crate::input::{spec_low_nibble_for_select, JOYP_LOW_NIBBLE_MASK, JOYP_SELECT_MASK, JOYP_SELECT_NONE};
use crate::interpreter::{op_performed, perform_op};
use crate::constants::MAX_ACCUMULATED_CLOCKS;
use crate::runtime::RuntimeControl;
use crate::gpu::GpuMode;
use crate::interpreter::{with_registers, IE_IO_INDEX};
use crate::machine::GameBoyCore;
use crate::memory::{spec_io, GameBoyMemory};
use crate::frame_buffer::{pixels_published, GameBoyFrameRing};
use crate::gpu::LineRenderer;
use crate::memory::zeros;
use crate::video::{
    cgb_frame_colour, gb_frame_colour, io, mono_index, same_mono_outside_line, same_outside_line,
    select_objects_for_line, sgb_colourised, sgb_frame_value, shows, spec_selected_objects, SelectedObject,
};

verus! {

pub const LYC_IO_INDEX: usize = 0x45;
pub const SCX_IO_INDEX: usize = 0x43;
pub const WY_IO_INDEX: usize = 0x4a;
pub const WX_IO_INDEX: usize = 0x4b;

pub const LCDC_BG_ENABLE: u8 = 0x01;
pub const LCDC_OBJ_ENABLE: u8 = 0x02;
pub const LCDC_WINDOW_ENABLE: u8 = 0x20;

pub const INTERRUPT_VBLANK: u8 = 0x01;
pub const INTERRUPT_LCD_STAT: u8 = 0x02;
pub const INTERRUPT_SERIAL: u8 = 0x08;

pub const MACHINE_CYCLE_CLOCKS: i32 = 4;
pub const INTERRUPT_ACK_MACHINE_CYCLES: i32 = 5;
pub const STOP_SPEED_SWITCH_CLOCKS: i32 = 131_072;
pub const SCAN_OAM_CLOCKS: i32 = 80;
pub const SCAN_VRAM_CLOCKS: i32 = 172;
pub const MAX_SCAN_VRAM_CLOCKS: i32 = 289;
pub const SCANLINE_CLOCKS: i32 = 456;
pub const VBLANK_LINE_CLOCKS: i32 = 456;
pub const FIRST_VBLANK_LINE: u8 = 144;
pub const FRAME_LINE_COUNT: u8 = 154;

/// Byte `index` of `ports`, or 0 past them.
pub open spec fn port_in(ports: Seq<u8>, index: int) -> u8 {
    if 0 <= index < ports.len() {
        ports[index]
    } else {
        0
    }
}

/// `ports` with the interrupt flags also requesting `interrupt`.
pub open spec fn requested(ports: Seq<u8>, interrupt: u8) -> Seq<u8> {
    with_port(ports, IF_IO_INDEX as int, port_in(ports, IF_IO_INDEX as int) | interrupt)
}

/// `after` is `before` with the I/O ports replaced by `ports` and nothing else changed.
pub open spec fn memory_ports_became(before: &GameBoyMemory, after: &GameBoyMemory, ports: Seq<u8>) -> bool {
    &&& after.io_ports@ == ports
    &&& after.rom == before.rom
    &&& after.wram == before.wram
    &&& after.vram == before.vram
    &&& after.oam == before.oam
    &&& after.tile_set == before.tile_set
}

/// The number of machine cycles that `clocks` take, rounded up, at least one.
pub open spec fn spec_machine_cycles_for_clocks(clocks: i32) -> i32 {
    let at_least = if clocks > MACHINE_CYCLE_CLOCKS { clocks as int } else { MACHINE_CYCLE_CLOCKS as int };
    let rounded = if at_least + 3 > i32::MAX { i32::MAX as int } else { at_least + 3 };
    (rounded / 4) as i32
}

/// The number of machine cycles that `clocks` take, rounded up, at least one.
pub fn machine_cycles_for_clocks(clocks: i32) -> (cycles: i32)
    ensures
        cycles == spec_machine_cycles_for_clocks(clocks),
        1 <= cycles,
{
    let at_least = if clocks > MACHINE_CYCLE_CLOCKS {
        clocks
    } else {
        MACHINE_CYCLE_CLOCKS
    };
    saturating_add_i32(at_least, MACHINE_CYCLE_CLOCKS - 1) / MACHINE_CYCLE_CLOCKS
}

/// `a - b` held within the range of `i32`.
pub fn saturating_sub_i32(a: i32, b: i32) -> (difference: i32)
    ensures
        difference == saturating_i32(a - b),
{
    let wide = a as i64 - b as i64;
    if wide > i32::MAX as i64 {
        i32::MAX
    } else if wide < i32::MIN as i64 {
        i32::MIN
    } else {
        wide as i32
    }
}

/// The current line (LY).
pub fn ly(memory: &GameBoyMemory) -> (line: u8)
    ensures
        line == spec_io(memory, LY_IO_INDEX as int),
{
    io(memory, LY_IO_INDEX)
}

/// Whether LCDC turns the display on.
pub open spec fn spec_display_enabled(memory: &GameBoyMemory) -> bool {
    spec_io(memory, LCDC_IO_INDEX as int) & 0x80 != 0
}

/// Whether LCDC turns the display on.
pub fn display_enabled(memory: &GameBoyMemory) -> (enabled: bool)
    ensures
        enabled == spec_display_enabled(memory),
{
    io(memory, LCDC_IO_INDEX) & 0x80 != 0
}

/// Sets the bit of `interrupt` in the interrupt flags.
pub fn request_interrupt(memory: &mut GameBoyMemory, interrupt: u8)
    ensures
        memory_ports_became(old(memory), final(memory), requested(old(memory).io_ports@, interrupt)),
{
    let flags = io(memory, IF_IO_INDEX) | interrupt;
    memory.write_io_port(IF_IO_INDEX, flags);
}

/// Requests the LCD status interrupt.
pub fn request_lcd_stat_interrupt(memory: &mut GameBoyMemory)
    ensures
        memory_ports_became(old(memory), final(memory), requested(old(memory).io_ports@, INTERRUPT_LCD_STAT)),
{
    request_interrupt(memory, INTERRUPT_LCD_STAT);
}

/// What comparing LY with LYC does: on a match with the display on, STAT bit 2 sets and, on a
/// new match with STAT bit 6 set, the LCD status interrupt is requested; otherwise bit 2 clears.
pub open spec fn ly_compare_updated(before: &GameBoyCore, after: &GameBoyCore, display_enabled: bool) -> bool {
    let ports = before.memory.io_ports@;
    let stat = port(before, STAT_IO_INDEX as int);
    let matched = port(before, LY_IO_INDEX as int) == port(before, LYC_IO_INDEX as int) && display_enabled;
    let flagged = with_port(ports, STAT_IO_INDEX as int, if matched { stat | 0x04 } else { stat & 0xfb });
    let result = if matched && stat & 0x40 != 0 && before.gpu_timing.last_ly_compare == 0 {
        requested(flagged, INTERRUPT_LCD_STAT)
    } else {
        flagged
    };
    let timing = crate::gpu::GpuTiming {
        last_ly_compare: if matched { 1u32 } else { 0u32 },
        ..before.gpu_timing
    };
    (GameBoyCore { gpu_timing: timing, ..*before }).ports_became(after, result)
}

/// Compares LY with LYC and updates STAT bit 2 and the LCD status interrupt.
pub fn update_ly_compare(core: &mut GameBoyCore, display_enabled: bool)
    requires
        old(core).wf(),
    ensures
        final(core).wf(),
        ly_compare_updated(old(core), final(core), display_enabled),
{
    let stat = io(&core.memory, STAT_IO_INDEX);
    if io(&core.memory, LY_IO_INDEX) == io(&core.memory, LYC_IO_INDEX) && display_enabled {
        core.memory.write_io_port(STAT_IO_INDEX, stat | 0x04);
        if stat & 0x40 != 0 && core.gpu_timing.last_ly_compare == 0 {
            request_lcd_stat_interrupt(&mut core.memory);
        }
        core.gpu_timing.last_ly_compare = 1;
    } else {
        core.memory.write_io_port(STAT_IO_INDEX, stat & 0xfb);
        core.gpu_timing.last_ly_compare = 0;
    }
}

/// What setting LY does: the line is written, then LY is compared with LYC.
pub open spec fn ly_set(before: &GameBoyCore, after: &GameBoyCore, line: u8, display_enabled: bool) -> bool {
    exists|middle: GameBoyCore|
        before.ports_became(&middle, with_port(before.memory.io_ports@, LY_IO_INDEX as int, line))
            && ly_compare_updated(&middle, after, display_enabled)
}

/// Sets LY and compares it with LYC.
pub fn set_ly(core: &mut GameBoyCore, line: u8, display_enabled: bool)
    requires
        old(core).wf(),
    ensures
        final(core).wf(),
        ly_set(old(core), final(core), line, display_enabled),
{
    core.memory.write_io_port(LY_IO_INDEX, line);
    let ghost middle = *core;
    update_ly_compare(core, display_enabled);
    assert(old(core).ports_became(&middle, with_port(old(core).memory.io_ports@, LY_IO_INDEX as int, line)));
}

/// The STAT mode bits of a PPU mode: 0 in HBlank, 1 in VBlank, 2 scanning OAM, 3 scanning VRAM.
pub open spec fn mode_bits(mode: GpuMode) -> u8 {
    match mode {
        GpuMode::HBlank => 0,
        GpuMode::VBlank => 1,
        GpuMode::ScanOam => 2,
        GpuMode::ScanVram => 3,
    }
}

/// What entering a PPU mode does: the mode changes and STAT reports it in bits 0 and 1.
pub open spec fn gpu_mode_set(before: &GameBoyCore, after: &GameBoyCore, mode: GpuMode) -> bool {
    let stat = port(before, STAT_IO_INDEX as int);
    (GameBoyCore { gpu_mode: mode, ..*before }).ports_became(
        after,
        with_port(before.memory.io_ports@, STAT_IO_INDEX as int, (stat & 0xfc) | mode_bits(mode)),
    )
}

/// Enters a PPU mode and reports it in STAT.
pub fn set_gpu_mode(core: &mut GameBoyCore, mode: GpuMode)
    requires
        old(core).wf(),
    ensures
        final(core).wf(),
        gpu_mode_set(old(core), final(core), mode),
{
    core.gpu_mode = mode;
    let bits: u8 = match mode {
        GpuMode::HBlank => 0,
        GpuMode::VBlank => 1,
        GpuMode::ScanOam => 2,
        GpuMode::ScanVram => 3,
    };
    let stat = io(&core.memory, STAT_IO_INDEX);
    core.memory.write_io_port(STAT_IO_INDEX, (stat & 0xfc) | bits);
}

/// What the serial port does in `clocks`: an internally clocked transfer counts down and, when
/// it runs out, ends with SC's transfer bit cleared, the serial interrupt requested and 0xff
/// received; an externally clocked one only drops a timer of 1 to 0.
pub open spec fn serial_updated(before: &GameBoyCore, after: &GameBoyCore, clocks: i32) -> bool {
    let serial = before.serial;
    let ports = before.memory.io_ports@;
    if !serial.is_transferring {
        *after == *before
    } else if !serial.clock_is_external {
        let timer = saturating_i32(serial.timer - clocks);
        if timer <= 0 {
            let control = with_port(ports, SC_IO_INDEX as int, port(before, SC_IO_INDEX as int) & 0x03);
            let result = with_port(requested(control, INTERRUPT_SERIAL), SB_IO_INDEX as int, 0xff);
            (GameBoyCore {
                serial: crate::cpu::SerialState { timer, is_transferring: false, ..serial },
                ..*before
            }).ports_became(after, result)
        } else {
            *after == GameBoyCore { serial: crate::cpu::SerialState { timer, ..serial }, ..*before }
        }
    } else if serial.timer == 1 {
        *after == GameBoyCore { serial: crate::cpu::SerialState { timer: 0, ..serial }, ..*before }
    } else {
        *after == *before
    }
}

/// Runs the serial port for `clocks`.
pub fn update_serial(core: &mut GameBoyCore, clocks: i32)
    requires
        old(core).wf(),
    ensures
        final(core).wf(),
        serial_updated(old(core), final(core), clocks),
{
    if !core.serial.is_transferring {
        return ;
    }
    if !core.serial.clock_is_external {
        core.serial.timer = saturating_sub_i32(core.serial.timer, clocks);
        if core.serial.timer <= 0 {
            core.serial.is_transferring = false;
            let control = io(&core.memory, SC_IO_INDEX) & 0x03;
            core.memory.write_io_port(SC_IO_INDEX, control);
            request_interrupt(&mut core.memory, INTERRUPT_SERIAL);
            core.memory.write_io_port(SB_IO_INDEX, 0xff);
        }
    } else if core.serial.timer == 1 {
        core.serial.timer = 0;
    }
}

/// What the CPU does about interrupts before an instruction.
#[derive(Clone, Copy, Debug, PartialEq, Eq, Structural)]
pub enum InterruptAction {
    /// Nothing to do: run the next instruction.
    Proceed,
    /// A halted CPU woke up with interrupts disabled; it takes one machine cycle.
    WakeHalt,
    /// An interrupt is being serviced.
    Service,
}

/// The interrupt flag mask that clears the serviced interrupt, and its handler address: the
/// lowest set bit of `triggered` wins (VBlank, LCD status, timer, serial, joypad).
pub open spec fn interrupt_vector(triggered: u8) -> (u8, u16) {
    if triggered & INTERRUPT_VBLANK != 0 {
        (0x1e, 0x0040)
    } else if triggered & INTERRUPT_LCD_STAT != 0 {
        (0x1d, 0x0048)
    } else if triggered & INTERRUPT_TIMER != 0 {
        (0x1b, 0x0050)
    } else if triggered & INTERRUPT_SERIAL != 0 {
        (0x17, 0x0058)
    } else {
        (0x0f, 0x0060)
    }
}

/// The enabled interrupts that are requested.
pub open spec fn triggered_interrupts(core: &GameBoyCore) -> u8 {
    port(core, IE_IO_INDEX as int) & port(core, IF_IO_INDEX as int) & 0x1f
}

/// What handling interrupts does: with none enabled and requested nothing happens; a halted CPU
/// wakes up; with interrupts enabled the winning one is cleared from the flags, the program
/// counter is pushed, interrupts are disabled and the handler runs next.
pub open spec fn interrupts_handled(before: &GameBoyCore, after: &GameBoyCore, action: InterruptAction) -> bool {
    let r = before.cpu_registers;
    let triggered = triggered_interrupts(before);
    let halted = before.cpu_mode == CpuMode::Halted;
    if triggered == 0 {
        action == InterruptAction::Proceed && *after == *before
    } else if !r.ime {
        if halted {
            action == InterruptAction::WakeHalt && *after == GameBoyCore { cpu_mode: CpuMode::Running, ..*before }
        } else {
            action == InterruptAction::Proceed && *after == *before
        }
    } else {
        &&& action == InterruptAction::Service
        &&& exists|cleared: GameBoyCore, pushed: GameBoyCore| #[trigger]
            interrupt_serviced(before, &cleared, &pushed, after)
    }
}

/// Servicing the winning interrupt in steps: `cleared` has the CPU awake, SP lowered by two and
/// the interrupt's flag cleared; `pushed` has the program counter written to the stack; `after`
/// runs the handler with interrupts disabled.
pub open spec fn interrupt_serviced(
    before: &GameBoyCore,
    cleared: &GameBoyCore,
    pushed: &GameBoyCore,
    after: &GameBoyCore,
) -> bool {
    let r = before.cpu_registers;
    let vector = interrupt_vector(triggered_interrupts(before));
    let sp = ((r.sp % 65536 + 65534) % 65536) as u16;
    let woken = GameBoyCore {
        cpu_mode: if before.cpu_mode == CpuMode::Halted { CpuMode::Running } else { before.cpu_mode },
        cpu_registers: CpuRegisters { sp: sp as u32, ..r },
        ..*before
    };
    let cleared_flags = with_port(
        before.memory.io_ports@,
        IF_IO_INDEX as int,
        port(before, IF_IO_INDEX as int) & vector.0,
    );
    &&& woken.ports_became(cleared, cleared_flags)
    &&& cpu_written16(cleared, pushed, sp, (r.pc % 65536) as u16)
    &&& *after == with_registers(
        pushed,
        CpuRegisters { pc: vector.1 as u32, ime: false, ime_enable_delay: 0, ..pushed.cpu_registers },
    )
}

/// Wakes a halted CPU and services the winning interrupt when interrupts are enabled.
pub fn handle_interrupts(core: &mut GameBoyCore) -> (action: InterruptAction)
    requires
        old(core).wf(),
    ensures
        final(core).wf(),
        interrupts_handled(old(core), final(core), action),
{
    let cpu_halted = core.cpu_mode == CpuMode::Halted;
    let enabled = io(&core.memory, IE_IO_INDEX);
    let requested_flags = io(&core.memory, IF_IO_INDEX);
    let triggered = enabled & requested_flags & 0x1f;
    if triggered == 0 {
        return InterruptAction::Proceed;
    }
    if cpu_halted {
        core.cpu_mode = CpuMode::Running;
        if !core.cpu_registers.ime {
            return InterruptAction::WakeHalt;
        }
    } else if !core.cpu_registers.ime {
        return InterruptAction::Proceed;
    }
    let (mask, target): (u8, u16) = if triggered & INTERRUPT_VBLANK != 0 {
        (0x1e, 0x0040)
    } else if triggered & INTERRUPT_LCD_STAT != 0 {
        (0x1d, 0x0048)
    } else if triggered & INTERRUPT_TIMER != 0 {
        (0x1b, 0x0050)
    } else if triggered & INTERRUPT_SERIAL != 0 {
        (0x17, 0x0058)
    } else {
        (0x0f, 0x0060)
    };
    let stack_pointer = ((core.cpu_registers.sp % 65536 + 65534) % 65536) as u16;
    core.cpu_registers.sp = stack_pointer as u32;
    core.memory.write_io_port(IF_IO_INDEX, requested_flags & mask);
    let ghost cleared = *core;
    let program_counter = (core.cpu_registers.pc % 65536) as u16;
    write16(core, stack_pointer, program_counter);
    let ghost pushed = *core;
    core.cpu_registers.pc = target as u32;
    core.cpu_registers.ime = false;
    core.cpu_registers.ime_enable_delay = 0;
    proof {
        assert(interrupt_vector(triggered_interrupts(old(core))) == (mask, target));
        assert(interrupt_serviced(old(core), &cleared, &pushed, core));
    }
    InterruptAction::Service
}

/// What the end of an instruction does to a delayed EI: the delay counts down, and interrupts
/// are enabled when it reaches zero.
pub open spec fn interrupt_state_finished(before: &GameBoyCore, after: &GameBoyCore) -> bool {
    let r = before.cpu_registers;
    if r.ime_enable_delay == 0 {
        *after == *before
    } else {
        let delay = (r.ime_enable_delay - 1) as u8;
        *after == with_registers(
            before,
            CpuRegisters { ime_enable_delay: delay, ime: if delay == 0 { true } else { r.ime }, ..r },
        )
    }
}

/// Counts down a delayed EI at the end of an instruction.
pub fn finish_instruction_interrupt_state(core: &mut GameBoyCore)
    ensures
        interrupt_state_finished(old(core), final(core)),
{
    if core.cpu_registers.ime_enable_delay == 0 {
        return ;
    }
    core.cpu_registers.ime_enable_delay = core.cpu_registers.ime_enable_delay - 1;
    if core.cpu_registers.ime_enable_delay == 0 {
        core.cpu_registers.ime = true;
    }
}

/// Whether STOP switches the speed: a colour cartridge with KEY1 bit 0 set.
pub open spec fn speed_switch_requested(core: &GameBoyCore) -> bool {
    core.rom.properties.cgb_flag && port(core, KEY1_IO_INDEX as int) & 0x01 != 0
}

/// What STOP does to the speed when a switch is requested: normal speed goes double (KEY1 reads
/// 0x80, the CPU clock 8.4 MHz, the PPU at half rate) and double goes back to normal.
pub open spec fn running_speed_switched(before: &GameBoyCore, after: &GameBoyCore) -> bool {
    let double = port(before, KEY1_IO_INDEX as int) & 0x80 == 0;
    if !speed_switch_requested(before) {
        *after == *before
    } else {
        (GameBoyCore {
            cpu_timing: crate::cpu::CpuTiming {
                clock_frequency_hz: if double { 8_400_000i64 } else { 4_194_304i64 },
                ..before.cpu_timing
            },
            gpu_timing: crate::gpu::GpuTiming { clock_factor: if double { 2i32 } else { 1i32 }, ..before.gpu_timing },
            ..*before
        }).ports_became(
            after,
            with_port(before.memory.io_ports@, KEY1_IO_INDEX as int, if double { 0x80u8 } else { 0x00u8 }),
        )
    }
}

/// Switches between normal and double speed when STOP runs with a switch requested.
pub fn switch_running_speed(core: &mut GameBoyCore) -> (switched: bool)
    requires
        old(core).wf(),
    ensures
        final(core).wf(),
        switched == speed_switch_requested(old(core)),
        running_speed_switched(old(core), final(core)),
{
    let key1 = io(&core.memory, KEY1_IO_INDEX);
    let speed_change_requested = core.rom.properties.cgb_flag && key1 & 0x01 != 0;
    if speed_change_requested {
        if key1 & 0x80 == 0 {
            core.memory.write_io_port(KEY1_IO_INDEX, 0x80);
            core.cpu_timing.clock_frequency_hz = 8_400_000;
            core.gpu_timing.clock_factor = 2;
        } else {
            core.memory.write_io_port(KEY1_IO_INDEX, 0x00);
            core.cpu_timing.clock_frequency_hz = 4_194_304;
            core.gpu_timing.clock_factor = 1;
        }
    }
    speed_change_requested
}

/// How long the current PPU mode lasts: 80 clocks scanning OAM, the line's computed length
/// scanning VRAM, the rest of the 456-clock line in HBlank, and a whole line in VBlank.
pub open spec fn spec_mode_clock_target(core: &GameBoyCore) -> i32 {
    match core.gpu_mode {
        GpuMode::ScanOam => SCAN_OAM_CLOCKS,
        GpuMode::ScanVram => core.gpu_timing.line_scan_vram_clocks,
        GpuMode::HBlank => saturating_i32(SCANLINE_CLOCKS - SCAN_OAM_CLOCKS - core.gpu_timing.line_scan_vram_clocks),
        GpuMode::VBlank => VBLANK_LINE_CLOCKS,
    }
}

/// How long the current PPU mode lasts.
pub fn mode_clock_target(core: &GameBoyCore) -> (clocks: i32)
    ensures
        clocks == spec_mode_clock_target(core),
{
    match core.gpu_mode {
        GpuMode::ScanOam => SCAN_OAM_CLOCKS,
        GpuMode::ScanVram => core.gpu_timing.line_scan_vram_clocks,
        GpuMode::HBlank => saturating_sub_i32(SCANLINE_CLOCKS - SCAN_OAM_CLOCKS, core.gpu_timing.line_scan_vram_clocks),
        GpuMode::VBlank => VBLANK_LINE_CLOCKS,
    }
}

/// Whether the window shows on `line`: enabled (on the DMG only together with the background),
/// started at or above the line, and not pushed past the right edge.
pub open spec fn spec_window_visible_on_line(memory: &GameBoyMemory, lcd_control: u8, line: u8, cgb_mode: bool) -> bool {
    &&& cgb_mode || lcd_control & LCDC_BG_ENABLE != 0
    &&& lcd_control & LCDC_WINDOW_ENABLE != 0
    &&& spec_io(memory, WY_IO_INDEX as int) <= line
    &&& spec_io(memory, WX_IO_INDEX as int) < 167
}

/// Whether the window shows on `line`.
pub fn window_visible_on_line(memory: &GameBoyMemory, lcd_control: u8, line: u8, cgb_mode: bool) -> (visible: bool)
    ensures
        visible == spec_window_visible_on_line(memory, lcd_control, line, cgb_mode),
{
    let bg_window_enabled = cgb_mode || lcd_control & LCDC_BG_ENABLE != 0;
    bg_window_enabled && lcd_control & LCDC_WINDOW_ENABLE != 0 && io(memory, WY_IO_INDEX) <= line && io(
        memory,
        WX_IO_INDEX,
    ) < 167
}

/// The tile an object's left edge falls on, as a key (window tiles from 1000 up, background
/// tiles below), and the pixel within it.
pub open spec fn penalty_tile(screen_x: int, scroll_x: int, window_start_x: Option<i32>) -> (int, int) {
    if window_start_x is Some && screen_x >= window_start_x->0 {
        let window_x = screen_x - window_start_x->0;
        (1000 + window_x / 8, window_x % 8)
    } else {
        let background_x = screen_x + scroll_x;
        (background_x / 8, background_x % 8)
    }
}

/// Floored division and remainder by 8.
fn div_rem_8(value: i32) -> (result: (i32, i32))
    ensures
        result.0 == value / 8,
        result.1 == value % 8,
{
    let shifted = value as i64 + 2_147_483_648;
    assert(shifted / 8 == value / 8 + 268_435_456 && shifted % 8 == value % 8) by (nonlinear_arith)
        requires
            shifted == value + 2_147_483_648,
    ;
    ((shifted / 8 - 268_435_456) as i32, (shifted % 8) as i32)
}

/// The tile an object's left edge falls on, and the pixel within it.
pub fn object_penalty_tile(screen_x: i32, scroll_x: i32, window_start_x: Option<i32>) -> (tile: (i32, i32))
    requires
        window_start_x is Some && screen_x >= window_start_x->0 ==> screen_x - window_start_x->0 <= i32::MAX,
        !(window_start_x is Some && screen_x >= window_start_x->0) ==> i32::MIN <= screen_x + scroll_x <= i32::MAX,
    ensures
        tile.0 == penalty_tile(screen_x as int, scroll_x as int, window_start_x).0,
        tile.1 == penalty_tile(screen_x as int, scroll_x as int, window_start_x).1,
{
    if let Some(window_start_x) = window_start_x {
        if screen_x >= window_start_x {
            let window_x = screen_x - window_start_x;
            let (quotient, remainder) = div_rem_8(window_x);
            return (1_000 + quotient, remainder);
        }
    }
    let background_x = screen_x + scroll_x;
    div_rem_8(background_x)
}

/// Whether an object is on the line as far as mode 3 is concerned (x below 168).
pub open spec fn penalised(object: SelectedObject) -> bool {
    object.oam_x < 168
}

/// Whether an object makes the PPU fetch the tile under it (on the line and not at x 0).
pub open spec fn fetches_tile(object: SelectedObject) -> bool {
    object.oam_x < 168 && object.oam_x != 0
}

/// The tile key and pixel of an object's left edge.
pub open spec fn object_tile(object: SelectedObject, scroll_x: int, window_start_x: Option<i32>) -> (int, int) {
    penalty_tile(object.screen_x as int, scroll_x, window_start_x)
}

/// Whether object `i` is the one charged for fetching its tile: it fetches a tile, and every
/// other object that fetches the same tile starts further right within it (or at the same pixel
/// and later in OAM order).
pub open spec fn charges_tile(objects: Seq<SelectedObject>, i: int, scroll_x: int, window_start_x: Option<i32>) -> bool {
    let tile = object_tile(objects[i], scroll_x, window_start_x);
    &&& fetches_tile(objects[i])
    &&& forall|j: int|
        0 <= j < objects.len() && j != i && fetches_tile(objects[j]) && (#[trigger] object_tile(
            objects[j],
            scroll_x,
            window_start_x,
        )).0 == tile.0 ==> object_tile(objects[j], scroll_x, window_start_x).1 > tile.1 || (object_tile(
            objects[j],
            scroll_x,
            window_start_x,
        ).1 == tile.1 && j > i)
}

/// The mode-3 clocks that object `i` adds: 11 at x 0; otherwise 6, plus what is left of the
/// first 5 pixels of its tile when it is the one charged for the fetch.
pub open spec fn object_charge(objects: Seq<SelectedObject>, i: int, scroll_x: int, window_start_x: Option<i32>) -> int {
    let object = objects[i];
    if !penalised(object) {
        0
    } else if object.oam_x == 0 {
        11
    } else {
        let pixel = object_tile(object, scroll_x, window_start_x).1;
        6 + if charges_tile(objects, i, scroll_x, window_start_x) && pixel < 5 { 5 - pixel } else { 0 }
    }
}

/// The clocks that the first `n` objects add to mode 3.
pub open spec fn penalty_through(objects: Seq<SelectedObject>, scroll_x: int, window_start_x: Option<i32>, n: int) -> int
    decreases n,
{
    if n <= 0 {
        0
    } else {
        penalty_through(objects, scroll_x, window_start_x, n - 1) + object_charge(objects, n - 1, scroll_x, window_start_x)
    }
}

/// Where the window starts on screen when it shows on `line`.
pub open spec fn window_start_on_line(memory: &GameBoyMemory, lcd_control: u8, line: u8, cgb_mode: bool) -> Option<i32> {
    if spec_window_visible_on_line(memory, lcd_control, line, cgb_mode) {
        Some((spec_io(memory, WX_IO_INDEX as int) - 7) as i32)
    } else {
        None
    }
}

/// The clocks that the objects on `line` add to mode 3.
pub open spec fn spec_object_penalty_clocks(memory: &GameBoyMemory, lcd_control: u8, line: u8, cgb_mode: bool) -> int {
    let objects = spec_selected_objects(memory, lcd_control, line as int);
    penalty_through(
        objects,
        spec_io(memory, SCX_IO_INDEX as int) as int,
        window_start_on_line(memory, lcd_control, line, cgb_mode),
        objects.len() as int,
    )
}

proof fn lemma_penalty_bounds(objects: Seq<SelectedObject>, scroll_x: int, window_start_x: Option<i32>, n: int)
    requires
        0 <= n <= objects.len(),
    ensures
        0 <= penalty_through(objects, scroll_x, window_start_x, n) <= 11 * n,
    decreases n,
{
    if n > 0 {
        lemma_penalty_bounds(objects, scroll_x, window_start_x, n - 1);
        let object = objects[n - 1];
        if penalised(object) && object.oam_x != 0 {
            let pixel = object_tile(object, scroll_x, window_start_x).1;
            if window_start_x is Some && object.screen_x >= window_start_x->0 {
                assert(0 <= pixel);
            } else {
                assert(0 <= pixel);
            }
        }
    }
}

/// The clocks that the objects on `line` add to mode 3: a tile fetch and 6 clocks for each
/// object, 11 for one at x 0.
pub fn object_penalty_clocks(memory: &GameBoyMemory, lcd_control: u8, line: u8, cgb_mode: bool) -> (penalty: i32)
    ensures
        penalty == spec_object_penalty_clocks(memory, lcd_control, line, cgb_mode),
        0 <= penalty <= 110,
{
    let objects = select_objects_for_line(memory, lcd_control, line as usize);
    let scroll_x = io(memory, SCX_IO_INDEX) as i32;
    let window_start_x = if window_visible_on_line(memory, lcd_control, line, cgb_mode) {
        Some(io(memory, WX_IO_INDEX) as i32 - 7)
    } else {
        None
    };
    let ghost window = window_start_x;
    assert(window == window_start_on_line(memory, lcd_control, line, cgb_mode));
    let mut penalty: i32 = 0;
    let mut i: usize = 0;
    while i < objects.len()
        invariant
            i <= objects@.len() <= 10,
            0 <= scroll_x < 256,
            window == window_start_x,
            window_start_x is Some ==> -7 <= window_start_x->0 <= 248,
            forall|k: int| 0 <= k < objects@.len() ==> (#[trigger] objects@[k]).screen_x == objects@[k].oam_x - 8,
            penalty == penalty_through(objects@, scroll_x as int, window, i as int),
            0 <= penalty <= 11 * i,
        decreases objects@.len() - i,
    {
        let object = objects[i];
        proof {
            lemma_penalty_bounds(objects@, scroll_x as int, window, i as int + 1);
        }
        if object.oam_x < 168 {
            if object.oam_x == 0 {
                penalty = penalty + 11;
            } else {
                let (key, pixel) = object_penalty_tile(object.screen_x, scroll_x, window_start_x);
                let mut charged = true;
                let mut j: usize = 0;
                while j < objects.len()
                    invariant
                        j <= objects@.len() <= 10,
                        i < objects@.len(),
                        object == objects@[i as int],
                        0 <= scroll_x < 256,
                        window == window_start_x,
                        window_start_x is Some ==> -7 <= window_start_x->0 <= 248,
                        forall|k: int| 0 <= k < objects@.len() ==> (#[trigger] objects@[k]).screen_x == objects@[k].oam_x - 8,
                        key == object_tile(object, scroll_x as int, window).0,
                        pixel == object_tile(object, scroll_x as int, window).1,
                        charged == forall|k: int|
                            0 <= k < j && k != i && fetches_tile(objects@[k]) && (#[trigger] object_tile(
                                objects@[k],
                                scroll_x as int,
                                window,
                            )).0 == key ==> object_tile(objects@[k], scroll_x as int, window).1 > pixel || (object_tile(
                                objects@[k],
                                scroll_x as int,
                                window,
                            ).1 == pixel && k > i),
                    decreases objects@.len() - j,
                {
                    if j != i {
                        let other = objects[j];
                        if other.oam_x < 168 && other.oam_x != 0 {
                            let (other_key, other_pixel) = object_penalty_tile(other.screen_x, scroll_x, window_start_x);
                            assert(object_tile(objects@[j as int], scroll_x as int, window) == (
                                other_key as int,
                                other_pixel as int,
                            ));
                            if other_key == key && (other_pixel < pixel || (other_pixel == pixel && j < i)) {
                                charged = false;
                            }
                        }
                    }
                    j += 1;
                }
                penalty = penalty + 6;
                if charged && pixel < 5 {
                    penalty = penalty + (5 - pixel);
                }
            }
        }
        i += 1;
    }
    penalty
}

/// How long mode 3 lasts on the current line: 172 clocks, plus the fine scroll, 6 when the
/// window shows, and the object penalties when objects are on; at most 289.
pub open spec fn spec_scan_vram_clocks(core: &GameBoyCore) -> i32 {
    let memory = &core.memory;
    let lcd_control = spec_io(memory, LCDC_IO_INDEX as int);
    let line = spec_io(memory, LY_IO_INDEX as int);
    let cgb = core.rom.properties.cgb_flag;
    let clocks = SCAN_VRAM_CLOCKS + (spec_io(memory, SCX_IO_INDEX as int) & 0x07) + (if spec_window_visible_on_line(
        memory,
        lcd_control,
        line,
        cgb,
    ) {
        6int
    } else {
        0
    }) + (if lcd_control & LCDC_OBJ_ENABLE != 0 {
        spec_object_penalty_clocks(memory, lcd_control, line, cgb)
    } else {
        0
    });
    if clocks > MAX_SCAN_VRAM_CLOCKS { MAX_SCAN_VRAM_CLOCKS } else { clocks as i32 }
}

/// How long mode 3 lasts on the current line.
pub fn scan_vram_clocks(core: &GameBoyCore) -> (clocks: i32)
    ensures
        clocks == spec_scan_vram_clocks(core),
        SCAN_VRAM_CLOCKS <= clocks <= MAX_SCAN_VRAM_CLOCKS,
{
    let memory = &core.memory;
    let lcd_control = io(memory, LCDC_IO_INDEX);
    let line = ly(memory);
    let scroll = io(memory, SCX_IO_INDEX);
    let fine_scroll = scroll & 0x07;
    proof {
        crate::bits::lemma_byte_fields(scroll);
    }
    let mut clocks = SCAN_VRAM_CLOCKS + fine_scroll as i32;
    if window_visible_on_line(memory, lcd_control, line, core.rom.properties.cgb_flag) {
        clocks = clocks + 6;
    }
    if lcd_control & LCDC_OBJ_ENABLE != 0 {
        clocks = clocks + object_penalty_clocks(memory, lcd_control, line, core.rom.properties.cgb_flag);
    }
    if clocks > MAX_SCAN_VRAM_CLOCKS {
        MAX_SCAN_VRAM_CLOCKS
    } else {
        clocks
    }
}

/// What drawing `line` does: the renderer of the model writes the line (the DMG and Color
/// renderers into the frame being assembled, the Super Game Boy one into its monochrome
/// buffer); nothing else changes.
pub open spec fn line_rendered(before: &GameBoyCore, after: &GameBoyCore, line: u8) -> bool {
    let memory = &before.memory;
    let palettes = &before.palettes;
    let frame = before.video_frame;
    &&& *after == GameBoyCore { video_frame: after.video_frame, sgb: after.sgb, ..*before }
    &&& match before.line_renderer {
        LineRenderer::Gb | LineRenderer::Cgb => {
            &&& after.sgb == before.sgb
            &&& after.video_frame.frame_in_progress == frame.frame_in_progress
            &&& !frame.frame_in_progress || line >= 144 ==> after.video_frame.pixels@ == frame.pixels@
            &&& frame.frame_in_progress && line < 144 ==> same_outside_line(
                after.video_frame.pixels@,
                frame.pixels@,
                line as int,
            )
            &&& frame.frame_in_progress && line < 144 && before.line_renderer == LineRenderer::Gb ==> forall|x: int|
                0 <= x < 160 ==> #[trigger] shows(
                    after.video_frame.pixels@,
                    line as int,
                    x,
                    gb_frame_colour(memory, palettes, line as int, x),
                )
            &&& frame.frame_in_progress && line < 144 && before.line_renderer == LineRenderer::Cgb ==> forall|x: int|
                0 <= x < 160 ==> #[trigger] shows(
                    after.video_frame.pixels@,
                    line as int,
                    x,
                    cgb_frame_colour(memory, palettes, line as int, x),
                )
        },
        LineRenderer::Sgb => {
            &&& after.video_frame == frame
            &&& after.sgb.same_except_mono(&before.sgb)
            &&& line >= 144 ==> after.sgb.mono_data@ == before.sgb.mono_data@
            &&& line < 144 ==> same_mono_outside_line(after.sgb.mono_data@, before.sgb.mono_data@, line as int)
            &&& line < 144 ==> forall|x: int|
                0 <= x < 160 ==> #[trigger] after.sgb.mono_data@[mono_index(line as int, x)] == sgb_frame_value(
                    memory,
                    palettes,
                    line as int,
                    x,
                )
        },
    }
}

/// Draws `line` with the renderer of the model.
pub fn write_visible_line(core: &mut GameBoyCore, line: u8)
    requires
        old(core).wf(),
    ensures
        final(core).wf(),
        line_rendered(old(core), final(core), line),
{
    match core.line_renderer {
        LineRenderer::Gb => {
            core.video_frame.write_gb_line(line, &core.memory, &core.palettes);
        },
        LineRenderer::Sgb => {
            core.video_frame.write_sgb_line(line, &core.memory, &core.palettes, &mut core.sgb);
        },
        LineRenderer::Cgb => {
            core.video_frame.write_cgb_line(line, &core.memory, &core.palettes);
        },
    }
}

/// The line after `line`, staying at 255.
pub open spec fn next_line(line: u8) -> u8 {
    if line < 255 { (line + 1) as u8 } else { 255u8 }
}

/// What one PPU mode change does to the timing registers: the next mode, LY, which memories
/// the CPU may reach, the interrupts requested on entering VBlank and HBlank, and the mode-3
/// length taken when scanning VRAM begins.
pub open spec fn ppu_mode_advanced(before: &GameBoyCore, after: &GameBoyCore) -> bool {
    let line = port(before, LY_IO_INDEX as int);
    let next = next_line(line);
    &&& after.cpu_registers == before.cpu_registers
    &&& after.cpu_mode == before.cpu_mode
    &&& after.gpu_timing.time_in_mode == before.gpu_timing.time_in_mode
    &&& after.gpu_timing.clock_factor == before.gpu_timing.clock_factor
    &&& after.cpu_timing == before.cpu_timing
    &&& match before.gpu_mode {
        GpuMode::ScanOam => {
            &&& after.gpu_mode == GpuMode::ScanVram
            &&& after.gpu_timing.line_scan_vram_clocks == spec_scan_vram_clocks(before)
            &&& !after.memory_access.oam && !after.memory_access.vram
            &&& port(after, LY_IO_INDEX as int) == line
        },
        GpuMode::ScanVram => {
            &&& after.gpu_mode == GpuMode::HBlank
            &&& after.gpu_timing.line_scan_vram_clocks == before.gpu_timing.line_scan_vram_clocks
            &&& after.memory_access.oam && after.memory_access.vram
            &&& port(after, LY_IO_INDEX as int) == line
        },
        GpuMode::HBlank => {
            &&& after.gpu_timing.line_scan_vram_clocks == before.gpu_timing.line_scan_vram_clocks
            &&& port(after, LY_IO_INDEX as int) == next
            &&& after.memory_access.vram
            &&& if next == FIRST_VBLANK_LINE {
                &&& after.gpu_mode == GpuMode::VBlank
                &&& after.memory_access.oam
                &&& port(after, IF_IO_INDEX as int) & INTERRUPT_VBLANK != 0
            } else {
                &&& after.gpu_mode == GpuMode::ScanOam
                &&& !after.memory_access.oam
            }
        },
        GpuMode::VBlank => {
            &&& after.gpu_timing.line_scan_vram_clocks == before.gpu_timing.line_scan_vram_clocks
            &&& if next >= FRAME_LINE_COUNT {
                &&& after.gpu_mode == GpuMode::ScanOam
                &&& port(after, LY_IO_INDEX as int) == 0
                &&& !after.memory_access.oam && after.memory_access.vram
                &&& after.video_frame.frame_in_progress
            } else {
                &&& after.gpu_mode == GpuMode::VBlank
                &&& port(after, LY_IO_INDEX as int) == next
                &&& after.memory_access == before.memory_access
            }
        },
    }
}

/// `core` with the CPU's access to OAM and VRAM set to `oam` and `vram`.
pub open spec fn with_access(core: &GameBoyCore, oam: bool, vram: bool) -> GameBoyCore {
    GameBoyCore { memory_access: crate::gpu::MemoryAccess { oam, vram, ..core.memory_access }, ..*core }
}

/// `after` is `before` with the LCD status interrupt requested when `enabled`, else `before`.
pub open spec fn stat_requested_if(before: &GameBoyCore, after: &GameBoyCore, enabled: bool) -> bool {
    if enabled {
        before.ports_became(after, requested(before.memory.io_ports@, INTERRUPT_LCD_STAT))
    } else {
        *after == *before
    }
}

/// What entering V-blank does to the frame being assembled: unless the screen is frozen, the
/// Super Game Boy colours it, and publishing may end it; nothing else changes.
pub open spec fn vblank_frame_shown(before: &GameBoyCore, after: &GameBoyCore) -> bool {
    &&& *after == GameBoyCore { video_frame: after.video_frame, ..*before }
    &&& after.video_frame.pixels@.len() == before.video_frame.pixels@.len()
    &&& after.video_frame.frame_in_progress ==> before.video_frame.frame_in_progress
    &&& if before.sgb.freeze_screen {
        after.video_frame == before.video_frame
    } else if before.rom.properties.sgb_flag {
        forall|line: int, x: int|
            0 <= line < 144 && 0 <= x < 160 ==> #[trigger] shows(
                after.video_frame.pixels@,
                line,
                x,
                sgb_colourised(&before.sgb, line, x),
            )
    } else {
        after.video_frame.pixels == before.video_frame.pixels
    }
}

/// The move to the next PPU mode, step by step as the hardware takes it:
/// - scanning OAM: the VRAM scan length is fixed, mode 3 is entered and the CPU loses OAM
///   and VRAM;
/// - scanning VRAM: H-blank is entered, the CPU regains both, the H-blank STAT interrupt
///   may be requested, and on a visible line one H-blank HDMA block runs and the line is
///   rendered;
/// - H-blank: LY moves on (and is compared with LYC); on line 144 V-blank is entered, its
///   interrupt requested, the frame shown and the V-blank STAT interrupt may be requested;
///   else OAM scanning starts with the OAM STAT interrupt;
/// - V-blank: LY moves on; after line 153 it wraps to 0, OAM scanning starts, a new frame
///   begins and the OAM STAT interrupt may be requested.
pub open spec fn ppu_mode_composed(before: &GameBoyCore, after: &GameBoyCore) -> bool {
    exists|first: GameBoyCore, second: GameBoyCore, third: GameBoyCore, fourth: GameBoyCore|
        #[trigger] ppu_mode_steps(before, after, first, second, third, fourth)
}

/// `ppu_mode_composed` through the states `first` to `fourth` that the move passes.
pub open spec fn ppu_mode_steps(
    before: &GameBoyCore,
    after: &GameBoyCore,
    first: GameBoyCore,
    second: GameBoyCore,
    third: GameBoyCore,
    fourth: GameBoyCore,
) -> bool {
    let line = port(before, LY_IO_INDEX as int);
    let next = next_line(line);
    match before.gpu_mode {
        GpuMode::ScanOam => {
            &&& gpu_mode_set(
                &GameBoyCore {
                    gpu_timing: crate::gpu::GpuTiming {
                        line_scan_vram_clocks: spec_scan_vram_clocks(before),
                        ..before.gpu_timing
                    },
                    ..*before
                },
                &first,
                GpuMode::ScanVram,
            )
            &&& *after == with_access(&first, false, false)
        },
        GpuMode::ScanVram => {
            &&& gpu_mode_set(before, &first, GpuMode::HBlank)
            &&& stat_requested_if(
                &with_access(&first, true, true),
                &second,
                port(&first, STAT_IO_INDEX as int) & 0x08 != 0,
            )
            &&& if line < FIRST_VBLANK_LINE {
                crate::bus::hblank_dma_ran(&second, &third) && line_rendered(&third, after, line)
            } else {
                *after == second
            }
        },
        GpuMode::HBlank => {
            &&& ly_set(before, &first, next, true)
            &&& if next == FIRST_VBLANK_LINE {
                &&& gpu_mode_set(&first, &second, GpuMode::VBlank)
                &&& second.ports_became(&third, requested(second.memory.io_ports@, INTERRUPT_VBLANK))
                &&& vblank_frame_shown(&third, &fourth)
                &&& stat_requested_if(
                    &with_access(&fourth, true, true),
                    after,
                    port(&fourth, STAT_IO_INDEX as int) & 0x10 != 0,
                )
            } else {
                &&& gpu_mode_set(&first, &second, GpuMode::ScanOam)
                &&& stat_requested_if(
                    &with_access(&second, false, true),
                    after,
                    port(&second, STAT_IO_INDEX as int) & 0x20 != 0,
                )
            }
        },
        GpuMode::VBlank => if next >= FRAME_LINE_COUNT {
            &&& ly_set(before, &first, 0, true)
            &&& gpu_mode_set(&first, &second, GpuMode::ScanOam)
            &&& stat_requested_if(
                &GameBoyCore {
                    video_frame: crate::video::VideoFrameAssembler { frame_in_progress: true, ..second.video_frame },
                    ..with_access(&second, false, true)
                },
                after,
                port(&second, STAT_IO_INDEX as int) & 0x20 != 0,
            )
        } else {
            ly_set(before, after, next, true)
        },
    }
}

/// Whether the move to the next PPU mode enters V-blank with a frame to show: the line after
/// the last visible one, the screen not frozen, and a frame in progress.
pub open spec fn ppu_mode_publishes(before: &GameBoyCore) -> bool {
    &&& before.gpu_mode == GpuMode::HBlank
    &&& next_line(port(before, LY_IO_INDEX as int)) == FIRST_VBLANK_LINE
    &&& !before.sgb.freeze_screen
    &&& before.video_frame.frame_in_progress
}

/// What the move to the next PPU mode does to the frame ring: entering V-blank publishes the
/// assembled frame (coloured by the Super Game Boy when its flag is set); else nothing.
pub open spec fn ppu_mode_frames(
    before: &GameBoyCore,
    after: &GameBoyCore,
    old_frames: &GameBoyFrameRing,
    new_frames: &GameBoyFrameRing,
) -> bool {
    if ppu_mode_publishes(before) {
        &&& pixels_published(old_frames, new_frames, after.video_frame.pixels@, !after.video_frame.frame_in_progress)
        &&& before.rom.properties.sgb_flag ==> forall|line: int, x: int|
            0 <= line < 144 && 0 <= x < 160 ==> #[trigger] shows(
                after.video_frame.pixels@,
                line,
                x,
                sgb_colourised(&before.sgb, line, x),
            )
        &&& !before.rom.properties.sgb_flag ==> after.video_frame.pixels == before.video_frame.pixels
    } else {
        *new_frames == *old_frames
    }
}

/// How the interrupt flags and STAT change under the masks that the PPU applies.
proof fn lemma_flag_set(flags: u8, interrupt: u8)
    by (bit_vector)
    ensures
        (flags | interrupt) & interrupt == interrupt,
        ((flags | interrupt) | 0x02u8) & interrupt == interrupt,
        ((flags & 0xfb) & 0xfc) & 0x07 == 0,
{
}

/// Moves the PPU on to its next mode.
#[verifier::spinoff_prover]
#[verifier::rlimit(50)]
pub fn advance_ppu_mode(core: &mut GameBoyCore, frames: &mut GameBoyFrameRing)
    requires
        old(core).wf(),
        old(frames).wf(),
    ensures
        final(core).wf(),
        final(frames).wf(),
        ppu_mode_advanced(old(core), final(core)),
        ppu_mode_frames(old(core), final(core), old(frames), final(frames)),
        ppu_mode_composed(old(core), final(core)),
{
    match core.gpu_mode {
        GpuMode::ScanOam => {
            core.gpu_timing.line_scan_vram_clocks = scan_vram_clocks(core);
            set_gpu_mode(core, GpuMode::ScanVram);
            let ghost moded = *core;
            core.memory_access.oam = false;
            core.memory_access.vram = false;
            assert(ppu_mode_steps(old(core), core, moded, moded, moded, moded));
        },
        GpuMode::ScanVram => {
            let line = ly(&core.memory);
            set_gpu_mode(core, GpuMode::HBlank);
            let ghost moded = *core;
            core.memory_access.oam = true;
            core.memory_access.vram = true;
            if io(&core.memory, STAT_IO_INDEX) & 0x08 != 0 {
                request_lcd_stat_interrupt(&mut core.memory);
            }
            let ghost flagged = *core;
            assert(stat_requested_if(
                &with_access(&moded, true, true),
                &flagged,
                port(&moded, STAT_IO_INDEX as int) & 0x08 != 0,
            ));
            if line < FIRST_VBLANK_LINE {
                let ghost before_dma = *core;
                crate::bus::run_hblank_dma(core);
                let ghost copied = *core;
                assert(port(core, LY_IO_INDEX as int) == port(&before_dma, LY_IO_INDEX as int));
                write_visible_line(core, line);
                assert(ppu_mode_steps(old(core), core, moded, flagged, copied, copied));
            } else {
                assert(ppu_mode_steps(old(core), core, moded, flagged, flagged, flagged));
            }
        },
        GpuMode::HBlank => {
            let line = ly(&core.memory);
            let next = if line < 255 {
                line + 1
            } else {
                255
            };
            set_ly(core, next, true);
            let ghost with_line = *core;
            if next == FIRST_VBLANK_LINE {
                set_gpu_mode(core, GpuMode::VBlank);
                let ghost moded = *core;
                let flags_before = io(&core.memory, IF_IO_INDEX);
                request_interrupt(&mut core.memory, INTERRUPT_VBLANK);
                let ghost signalled = *core;
                if !core.sgb.freeze_screen {
                    if core.rom.properties.sgb_flag {
                        core.video_frame.colourise_sgb_frame(&core.sgb);
                    }
                    core.video_frame.publish_frame(frames);
                }
                let ghost shown = *core;
                assert(vblank_frame_shown(&signalled, &shown));
                core.memory_access.oam = true;
                core.memory_access.vram = true;
                if io(&core.memory, STAT_IO_INDEX) & 0x10 != 0 {
                    request_lcd_stat_interrupt(&mut core.memory);
                }
                proof {
                    lemma_flag_set(flags_before, INTERRUPT_VBLANK);
                }
                assert(stat_requested_if(
                    &with_access(&shown, true, true),
                    core,
                    port(&shown, STAT_IO_INDEX as int) & 0x10 != 0,
                ));
                assert(ly_set(old(core), &with_line, next, true));
                assert(gpu_mode_set(&with_line, &moded, GpuMode::VBlank));
                assert(ppu_mode_steps(old(core), core, with_line, moded, signalled, shown));
            } else {
                set_gpu_mode(core, GpuMode::ScanOam);
                let ghost moded = *core;
                core.memory_access.oam = false;
                core.memory_access.vram = true;
                if io(&core.memory, STAT_IO_INDEX) & 0x20 != 0 {
                    request_lcd_stat_interrupt(&mut core.memory);
                }
                assert(stat_requested_if(
                    &with_access(&moded, false, true),
                    core,
                    port(&moded, STAT_IO_INDEX as int) & 0x20 != 0,
                ));
                assert(ly_set(old(core), &with_line, next, true));
                assert(ppu_mode_steps(old(core), core, with_line, moded, moded, moded));
            }
            proof {
                assert(port(&with_line, LY_IO_INDEX as int) == next);
            }
        },
        GpuMode::VBlank => {
            let line = ly(&core.memory);
            let next = if line < 255 {
                line + 1
            } else {
                255
            };
            if next >= FRAME_LINE_COUNT {
                set_ly(core, 0, true);
                let ghost lined = *core;
                set_gpu_mode(core, GpuMode::ScanOam);
                let ghost moded = *core;
                core.memory_access.oam = false;
                core.memory_access.vram = true;
                core.video_frame.begin_frame();
                if io(&core.memory, STAT_IO_INDEX) & 0x20 != 0 {
                    request_lcd_stat_interrupt(&mut core.memory);
                }
                assert(ly_set(old(core), &lined, 0, true));
                assert(ppu_mode_steps(old(core), core, lined, moded, moded, moded));
            } else {
                set_ly(core, next, true);
                assert(ppu_mode_steps(old(core), core, *core, *core, *core, *core));
            }
        },
    }
}

/// One move to the next PPU mode once the time in the current mode covers its length: that
/// length is taken off the time, then the move goes as `ppu_mode_advanced`,
/// `ppu_mode_composed` and `ppu_mode_frames` say.
pub open spec fn ppu_mode_stepped(
    before: &GameBoyCore,
    after: &GameBoyCore,
    frames_before: &GameBoyFrameRing,
    frames_after: &GameBoyFrameRing,
) -> bool {
    let target = spec_mode_clock_target(before);
    let reduced = GameBoyCore {
        gpu_timing: crate::gpu::GpuTiming {
            time_in_mode: (before.gpu_timing.time_in_mode - target) as i32,
            ..before.gpu_timing
        },
        ..*before
    };
    &&& before.gpu_timing.time_in_mode >= target
    &&& ppu_mode_advanced(&reduced, after)
    &&& ppu_mode_composed(&reduced, after)
    &&& ppu_mode_frames(&reduced, after, frames_before, frames_after)
}

/// `count` moves to the next PPU mode in a row.
pub open spec fn ppu_modes_run(
    before: &GameBoyCore,
    after: &GameBoyCore,
    frames_before: &GameBoyFrameRing,
    frames_after: &GameBoyFrameRing,
    count: nat,
) -> bool
    decreases count,
{
    if count == 0 {
        *after == *before && *frames_after == *frames_before
    } else {
        exists|middle: GameBoyCore, frames: GameBoyFrameRing|
            ppu_modes_run(before, &middle, frames_before, &frames, (count - 1) as nat) && ppu_mode_stepped(
                &middle,
                after,
                &frames,
                frames_after,
            )
    }
}

/// `core` with `clocks` (none when negative) added to the time in the current PPU mode, held
/// within the range of `i32`.
pub open spec fn ppu_time_added(core: &GameBoyCore, clocks: i32) -> GameBoyCore {
    let added = if clocks > 0 { clocks as int } else { 0 };
    GameBoyCore {
        gpu_timing: crate::gpu::GpuTiming {
            time_in_mode: saturating_i32(core.gpu_timing.time_in_mode + added),
            ..core.gpu_timing
        },
        ..*core
    }
}

/// What running the PPU for `clocks` does: the time in the current mode grows by the clocks
/// (none when negative), then the PPU moves from mode to mode while the time covers the
/// mode's length, until it is below the length of the mode it is in.
pub open spec fn ppu_timing_advanced(
    before: &GameBoyCore,
    after: &GameBoyCore,
    frames_before: &GameBoyFrameRing,
    frames_after: &GameBoyFrameRing,
    clocks: i32,
) -> bool {
    &&& exists|count: nat| #[trigger] ppu_modes_run(&ppu_time_added(before, clocks), after, frames_before, frames_after, count)
    &&& after.gpu_timing.time_in_mode < spec_mode_clock_target(after)
    &&& after.cpu_registers == before.cpu_registers
    &&& after.cpu_mode == before.cpu_mode
    &&& after.cpu_timing == before.cpu_timing
}

/// Runs the PPU for `clocks`: the time in the current mode grows, and while it covers the
/// mode's length the PPU moves on to the next mode with the rest.
pub fn advance_ppu_timing(clocks: i32, core: &mut GameBoyCore, frames: &mut GameBoyFrameRing)
    requires
        old(core).wf(),
        old(frames).wf(),
    ensures
        final(core).wf(),
        final(frames).wf(),
        ppu_timing_advanced(old(core), final(core), old(frames), final(frames), clocks),
{
    let added = if clocks > 0 {
        clocks
    } else {
        0
    };
    core.gpu_timing.time_in_mode = saturating_add_i32(core.gpu_timing.time_in_mode, added);
    let ghost started = *core;
    let ghost mut count: nat = 0;
    loop
        invariant
            core.wf(),
            frames.wf(),
            core.cpu_registers == old(core).cpu_registers,
            core.cpu_mode == old(core).cpu_mode,
            core.cpu_timing == old(core).cpu_timing,
            started == ppu_time_added(old(core), clocks),
            ppu_modes_run(&started, core, old(frames), frames, count),
        ensures
            core.wf(),
            frames.wf(),
            ppu_timing_advanced(old(core), core, old(frames), frames, clocks),
        decreases core.gpu_timing.time_in_mode - i32::MIN,
    {
        let target = mode_clock_target(core);
        if core.gpu_timing.time_in_mode < target {
            assert(ppu_modes_run(&started, core, old(frames), frames, count));
            break;
        }
        let ghost middle = *core;
        let ghost middle_frames = *frames;
        core.gpu_timing.time_in_mode = core.gpu_timing.time_in_mode - target;
        advance_ppu_mode(core, frames);
        proof {
            assert(ppu_mode_stepped(&middle, core, &middle_frames, frames));
            count = count + 1;
            assert(ppu_modes_run(&started, core, old(frames), frames, count));
        }
    }
}

/// What switching the display off does, once: the CPU may reach all memories, LY and the STAT
/// mode read 0, the PPU waits in HBlank, and a black frame is published.
pub open spec fn lcd_disabled_handled(
    before: &GameBoyCore,
    after: &GameBoyCore,
    frames_before: &GameBoyFrameRing,
    frames_after: &GameBoyFrameRing,
) -> bool {
    if before.gpu_timing.blanked_screen {
        *after == *before && *frames_after == *frames_before
    } else {
        &&& after.cpu_registers == before.cpu_registers
        &&& after.cpu_mode == before.cpu_mode
        &&& after.cpu_timing == before.cpu_timing
        &&& after.memory_access.oam && after.memory_access.vram
        &&& port(after, LY_IO_INDEX as int) == 0
        &&& port(after, STAT_IO_INDEX as int) & 0x07 == 0
        &&& after.gpu_mode == GpuMode::HBlank
        &&& after.gpu_timing.time_in_mode == 0
        &&& after.gpu_timing.blanked_screen
        &&& after.video_frame.pixels@ == zeros(before.video_frame.pixels@.len(), 0u8)
        &&& !after.video_frame.frame_in_progress
        &&& pixels_published(frames_before, frames_after, after.video_frame.pixels@, true)
        &&& exists|lined: GameBoyCore| #[trigger] lcd_blanked_through(before, after, lined)
    }
}

/// Switching the display off through `lined`, the core once the CPU has OAM and VRAM back and
/// LY reads 0: then the PPU waits in HBlank with no time spent, STAT reports mode 0, and only
/// the frame being assembled changes besides.
pub open spec fn lcd_blanked_through(before: &GameBoyCore, after: &GameBoyCore, lined: GameBoyCore) -> bool {
    &&& ly_set(&with_access(before, true, true), &lined, 0, false)
    &&& *after == GameBoyCore {
        gpu_timing: crate::gpu::GpuTiming { time_in_mode: 0, blanked_screen: true, ..lined.gpu_timing },
        gpu_mode: GpuMode::HBlank,
        memory: after.memory,
        video_frame: after.video_frame,
        ..lined
    }
    &&& memory_ports_became(
        &lined.memory,
        &after.memory,
        with_port(lined.memory.io_ports@, STAT_IO_INDEX as int, port(&lined, STAT_IO_INDEX as int) & 0xfc),
    )
}

/// Blanks the screen when the display is switched off, once.
pub fn handle_lcd_disabled(core: &mut GameBoyCore, frames: &mut GameBoyFrameRing)
    requires
        old(core).wf(),
        old(frames).wf(),
    ensures
        final(core).wf(),
        final(frames).wf(),
        lcd_disabled_handled(old(core), final(core), old(frames), final(frames)),
{
    if core.gpu_timing.blanked_screen {
        return ;
    }
    core.memory_access.oam = true;
    core.memory_access.vram = true;
    set_ly(core, 0, false);
    let ghost lined = *core;
    core.gpu_timing.time_in_mode = 0;
    core.gpu_mode = GpuMode::HBlank;
    let stat = io(&core.memory, STAT_IO_INDEX);
    core.memory.write_io_port(STAT_IO_INDEX, stat & 0xfc);
    core.gpu_timing.blanked_screen = true;
    core.video_frame.begin_frame();
    core.video_frame.clear_black();
    core.video_frame.publish_frame(frames);
    proof {
        lemma_flag_set(port(old(core), STAT_IO_INDEX as int), 0);
        assert(lcd_blanked_through(old(core), core, lined));
    }
}

/// What applying a changed joypad state does: JOYP shows the selected row (or the Super Game
/// Boy's controller number while it probes with no row selected), a line going low requests the
/// joypad interrupt, and the change is taken.
pub open spec fn joypad_state_applied(before: &GameBoyCore, after: &GameBoyCore) -> bool {
    if !before.runtime.joypad_state_changed {
        *after == *before
    } else {
        let old_joyp = port(before, JOYP_IO_INDEX as int);
        let select = old_joyp & JOYP_SELECT_MASK;
        let low_nibble = if before.rom.properties.sgb_flag && before.sgb.mult_enabled && select == JOYP_SELECT_NONE {
            (before.sgb.read_joypad_id as u8) & JOYP_LOW_NIBBLE_MASK
        } else {
            spec_low_nibble_for_select(before.runtime.joypad, select)
        };
        let new_joyp = 0xc0 | select | low_nibble;
        let ports = with_port(before.memory.io_ports@, JOYP_IO_INDEX as int, new_joyp);
        let result = if old_joyp & !new_joyp & JOYP_LOW_NIBBLE_MASK != 0 {
            requested(ports, INTERRUPT_JOYPAD)
        } else {
            ports
        };
        (GameBoyCore { runtime: RuntimeControl { joypad_state_changed: false, ..before.runtime }, ..*before }).ports_became(
            after,
            result,
        )
    }
}

/// Shows a changed joypad state in JOYP.
pub fn apply_joypad_state_change(core: &mut GameBoyCore)
    requires
        old(core).wf(),
    ensures
        final(core).wf(),
        joypad_state_applied(old(core), final(core)),
{
    if !core.runtime.joypad_state_changed {
        return ;
    }
    let old_joyp = core.memory.io_ports[JOYP_IO_INDEX];
    let select = old_joyp & JOYP_SELECT_MASK;
    let low_nibble = if core.rom.properties.sgb_flag && core.sgb.mult_enabled && select == JOYP_SELECT_NONE {
        (core.sgb.read_joypad_id as u8) & JOYP_LOW_NIBBLE_MASK
    } else {
        core.runtime.joypad.low_nibble_for_select(select)
    };
    let new_joyp = 0xc0 | select | low_nibble;
    core.memory.io_ports.set(JOYP_IO_INDEX, new_joyp);
    if crate::input::joypad_low_nibble_falling_edge(old_joyp, new_joyp) {
        request_interrupt(&mut core.memory, INTERRUPT_JOYPAD);
    }
    core.runtime.joypad_state_changed = false;
}

/// The clocks that the cartridge's real-time clock sees in one machine cycle: four at normal
/// speed, two at double speed.
pub open spec fn rtc_clocks(core: &GameBoyCore) -> u32 {
    let factor: i32 = if core.gpu_timing.clock_factor < 1 { 1 } else { core.gpu_timing.clock_factor };
    let clocks = MACHINE_CYCLE_CLOCKS / factor;
    (if clocks < 1 { 1 } else { clocks }) as u32
}

/// The clocks that the PPU and the audio unit see in one machine cycle.
pub open spec fn unit_clocks(core: &GameBoyCore) -> i32 {
    let factor: i32 = if core.gpu_timing.clock_factor < 1 { 1 } else { core.gpu_timing.clock_factor };
    (MACHINE_CYCLE_CLOCKS / factor) as i32
}

/// Lets one machine cycle pass on the cartridge's real-time clock.
pub fn advance_cartridge_rtc(core: &mut GameBoyCore)
    ensures
        *final(core) == (GameBoyCore { sram: final(core).sram, ..*old(core) }),
        old(core).sram.rtc_advanced(&final(core).sram, rtc_clocks(old(core))),
{
    let clock_factor = if core.gpu_timing.clock_factor < 1 {
        1
    } else {
        core.gpu_timing.clock_factor
    };
    let clocks = MACHINE_CYCLE_CLOCKS / clock_factor;
    let normal_speed_clocks = if clocks < 1 {
        1
    } else {
        clocks
    };
    core.sram.advance_rtc(normal_speed_clocks as u32);
}

/// The clocks that the PPU and the audio unit see in one machine cycle.
fn machine_cycle_unit_clocks(core: &GameBoyCore) -> (clocks: i32)
    ensures
        clocks == unit_clocks(core),
{
    let clock_factor = if core.gpu_timing.clock_factor < 1 {
        1
    } else {
        core.gpu_timing.clock_factor
    };
    MACHINE_CYCLE_CLOCKS / clock_factor
}

/// One machine cycle in stages: `compared` after the clocks are drained and LY is compared,
/// `counted` after the timer, `timed` after the cartridge clock, `copied` after OAM DMA,
/// `sounded` after the audio unit, `shifted` after the serial port, and `after` once the PPU
/// ran (or the blank screen was handled with the display off).
pub open spec fn machine_cycle_stages(
    before: &GameBoyCore,
    compared: &GameBoyCore,
    counted: &GameBoyCore,
    timed: &GameBoyCore,
    copied: &GameBoyCore,
    sounded: &GameBoyCore,
    shifted: &GameBoyCore,
    after: &GameBoyCore,
    frames_before: &GameBoyFrameRing,
    frames_after: &GameBoyFrameRing,
) -> bool {
    let display = spec_display_enabled(&before.memory);
    let drained = GameBoyCore {
        cpu_timing: CpuTiming {
            clocks_acc: saturating_i32(before.cpu_timing.clocks_acc - MACHINE_CYCLE_CLOCKS),
            ..before.cpu_timing
        },
        ..*before
    };
    &&& ly_compare_updated(&drained, compared, display)
    &&& if before.cpu_mode != CpuMode::Stopped {
        system_counter_stepped(compared, counted, MACHINE_CYCLE_CLOCKS as u16)
    } else {
        *counted == *compared
    }
    &&& *timed == GameBoyCore { sram: timed.sram, ..*counted }
    &&& counted.sram.rtc_advanced(&timed.sram, rtc_clocks(counted))
    &&& oam_dma_stepped(timed, copied)
    &&& *sounded == GameBoyCore { audio_unit: sounded.audio_unit, ..*copied }
    &&& copied.audio_unit.ticks_advanced(&sounded.audio_unit, unit_clocks(copied))
    &&& serial_updated(sounded, shifted, MACHINE_CYCLE_CLOCKS)
    &&& if display {
        ppu_timing_advanced(
            &GameBoyCore {
                gpu_timing: crate::gpu::GpuTiming { blanked_screen: false, ..shifted.gpu_timing },
                ..*shifted
            },
            after,
            frames_before,
            frames_after,
            unit_clocks(shifted),
        )
    } else {
        lcd_disabled_handled(shifted, after, frames_before, frames_after)
    }
}

/// What one machine cycle does: four clocks are drained, then LY compare, timer, cartridge
/// clock, OAM DMA, audio, serial and PPU each run for it in that order.
pub open spec fn machine_cycle_stepped(
    before: &GameBoyCore,
    after: &GameBoyCore,
    frames_before: &GameBoyFrameRing,
    frames_after: &GameBoyFrameRing,
) -> bool {
    exists|
        compared: GameBoyCore,
        counted: GameBoyCore,
        timed: GameBoyCore,
        copied: GameBoyCore,
        sounded: GameBoyCore,
        shifted: GameBoyCore,
    |
        #[trigger] machine_cycle_stages(
            before,
            &compared,
            &counted,
            &timed,
            &copied,
            &sounded,
            &shifted,
            after,
            frames_before,
            frames_after,
        )
}

/// Runs one machine cycle of every unit.
pub fn step_machine_cycle(core: &mut GameBoyCore, frames: &mut GameBoyFrameRing)
    requires
        old(core).wf(),
        old(frames).wf(),
    ensures
        final(core).wf(),
        final(frames).wf(),
        machine_cycle_stepped(old(core), final(core), old(frames), final(frames)),
        final(core).cpu_timing.clocks_acc == saturating_i32(old(core).cpu_timing.clocks_acc - MACHINE_CYCLE_CLOCKS),
        final(core).cpu_registers == old(core).cpu_registers,
        final(core).cpu_mode == old(core).cpu_mode,
{
    core.cpu_timing.clocks_acc = saturating_sub_i32(core.cpu_timing.clocks_acc, MACHINE_CYCLE_CLOCKS);
    let display_enabled = display_enabled(&core.memory);
    update_ly_compare(core, display_enabled);
    let ghost compared = *core;
    if core.cpu_mode != CpuMode::Stopped {
        crate::bus::step_system_counter(core, MACHINE_CYCLE_CLOCKS as u16);
    }
    let ghost counted = *core;
    advance_cartridge_rtc(core);
    let ghost timed = *core;
    crate::bus::step_oam_dma(core);
    let ghost copied = *core;
    let audio_ticks = machine_cycle_unit_clocks(core);
    core.audio_unit.advance_ticks(audio_ticks);
    let ghost sounded = *core;
    update_serial(core, MACHINE_CYCLE_CLOCKS);
    let ghost shifted = *core;
    if display_enabled {
        core.gpu_timing.blanked_screen = false;
        let gpu_clocks = machine_cycle_unit_clocks(core);
        advance_ppu_timing(gpu_clocks, core, frames);
    } else {
        handle_lcd_disabled(core, frames);
    }
    assert(machine_cycle_stages(
        old(core),
        &compared,
        &counted,
        &timed,
        &copied,
        &sounded,
        &shifted,
        core,
        old(frames),
        frames,
    ));
}

/// What `count` machine cycles in a row do.
pub open spec fn machine_cycles_stepped(
    before: &GameBoyCore,
    after: &GameBoyCore,
    frames_before: &GameBoyFrameRing,
    frames_after: &GameBoyFrameRing,
    count: nat,
) -> bool
    decreases count,
{
    if count == 0 {
        *after == *before && *frames_after == *frames_before
    } else {
        exists|middle: GameBoyCore, frames: GameBoyFrameRing|
            machine_cycles_stepped(before, &middle, frames_before, &frames, (count - 1) as nat)
                && machine_cycle_stepped(&middle, after, &frames, frames_after)
    }
}

/// Runs `machine_cycles` machine cycles, at least one.
pub fn step_machine_cycles(core: &mut GameBoyCore, frames: &mut GameBoyFrameRing, machine_cycles: i32)
    requires
        old(core).wf(),
        old(frames).wf(),
    ensures
        final(core).wf(),
        final(frames).wf(),
        machine_cycles_stepped(
            old(core),
            final(core),
            old(frames),
            final(frames),
            if machine_cycles > 1 { machine_cycles as nat } else { 1 },
        ),
        final(core).cpu_timing.clocks_acc <= old(core).cpu_timing.clocks_acc,
        old(core).cpu_timing.clocks_acc > 0 ==> final(core).cpu_timing.clocks_acc < old(core).cpu_timing.clocks_acc,
        final(core).cpu_registers == old(core).cpu_registers,
        final(core).cpu_mode == old(core).cpu_mode,
{
    let count = if machine_cycles > 1 {
        machine_cycles
    } else {
        1
    };
    let mut done: i32 = 0;
    while done < count
        invariant
            0 <= done <= count,
            count == if machine_cycles > 1 { machine_cycles } else { 1 },
            core.wf(),
            frames.wf(),
            machine_cycles_stepped(old(core), core, old(frames), frames, done as nat),
            core.cpu_timing.clocks_acc <= old(core).cpu_timing.clocks_acc,
            done > 0 && old(core).cpu_timing.clocks_acc > 0 ==> core.cpu_timing.clocks_acc
                < old(core).cpu_timing.clocks_acc,
            core.cpu_registers == old(core).cpu_registers,
            core.cpu_mode == old(core).cpu_mode,
        decreases count - done,
    {
        let ghost previous = *core;
        let ghost previous_frames = *frames;
        step_machine_cycle(core, frames);
        assert(machine_cycles_stepped(old(core), &previous, old(frames), &previous_frames, done as nat)
            && machine_cycle_stepped(&previous, core, &previous_frames, frames));
        done = done + 1;
    }
}

/// What one turn of the scheduler does: a CPU held by VRAM DMA lets one machine cycle pass; a
/// stopped CPU switches speed (and waits 131072 clocks) or lets a cycle pass; otherwise pending
/// interrupts are handled (a wake-up takes one cycle, servicing five) or the next instruction
/// runs for its cycles, after which a deferred OAM DMA starts and a delayed EI counts down.
#[verifier::opaque]
pub open spec fn scheduler_stepped(
    before: &GameBoyCore,
    after: &GameBoyCore,
    frames_before: &GameBoyFrameRing,
    frames_after: &GameBoyFrameRing,
) -> bool {
    if before.dma.vram.cpu_halt_m_cycles > 0 {
        let held = GameBoyCore {
            dma: crate::dma::DmaState {
                vram: crate::dma::VramDmaState { cpu_halt_m_cycles: (before.dma.vram.cpu_halt_m_cycles - 1) as i32 },
                ..before.dma
            },
            ..*before
        };
        machine_cycle_stepped(&held, after, frames_before, frames_after)
    } else if before.cpu_mode == CpuMode::Stopped {
        if speed_switch_requested(before) {
            exists|switched: GameBoyCore, waited: GameBoyCore|
                running_speed_switched(before, &switched) && machine_cycles_stepped(
                    &switched,
                    &waited,
                    frames_before,
                    frames_after,
                    spec_machine_cycles_for_clocks(STOP_SPEED_SWITCH_CLOCKS) as nat,
                ) && *after == GameBoyCore { cpu_mode: CpuMode::Running, ..waited }
        } else {
            machine_cycle_stepped(before, after, frames_before, frames_after)
        }
    } else {
        exists|handled: GameBoyCore, action: InterruptAction|
            interrupts_handled(before, &handled, action) && match action {
                InterruptAction::WakeHalt => machine_cycle_stepped(&handled, after, frames_before, frames_after),
                InterruptAction::Service => machine_cycles_stepped(
                    &handled,
                    after,
                    frames_before,
                    frames_after,
                    INTERRUPT_ACK_MACHINE_CYCLES as nat,
                ),
                InterruptAction::Proceed => exists|executed: GameBoyCore, cycles: i32, stepped: GameBoyCore, started: GameBoyCore|
                    #[trigger] instruction_stepped(&handled, &executed, cycles, &stepped, &started, after, frames_before, frames_after),
            }
    }
}

/// One instruction in stages: `executed` after it ran for `cycles` with the program counter
/// kept to 16 bits, `stepped` after its machine cycles, `started` once a deferred OAM DMA
/// started, and `after` with a delayed EI counted down.
pub open spec fn instruction_stepped(
    before: &GameBoyCore,
    executed: &GameBoyCore,
    cycles: i32,
    stepped: &GameBoyCore,
    started: &GameBoyCore,
    after: &GameBoyCore,
    frames_before: &GameBoyFrameRing,
    frames_after: &GameBoyFrameRing,
) -> bool {
    &&& exists|ran: GameBoyCore|
        op_performed(before, &ran, cycles) && *executed == with_registers(
            &ran,
            CpuRegisters { pc: ran.cpu_registers.pc % 65536, ..ran.cpu_registers },
        )
    &&& machine_cycles_stepped(
        executed,
        stepped,
        frames_before,
        frames_after,
        spec_machine_cycles_for_clocks(cycles) as nat,
    )
    &&& deferred_oam_dma_begun(stepped, started)
    &&& interrupt_state_finished(started, after)
}

/// What `count` turns of the scheduler do.
pub open spec fn scheduled(
    before: &GameBoyCore,
    after: &GameBoyCore,
    frames_before: &GameBoyFrameRing,
    frames_after: &GameBoyFrameRing,
    count: nat,
) -> bool
    decreases count,
{
    if count == 0 {
        *after == *before && *frames_after == *frames_before
    } else {
        exists|middle: GameBoyCore, frames: GameBoyFrameRing|
            scheduled(before, &middle, frames_before, &frames, (count - 1) as nat) && scheduler_stepped(
                &middle,
                after,
                &frames,
                frames_after,
            )
    }
}

/// Runs one turn of the scheduler.
fn run_scheduler_turn(core: &mut GameBoyCore, frames: &mut GameBoyFrameRing)
    requires
        old(core).wf(),
        old(frames).wf(),
        old(core).cpu_timing.clocks_acc > 0,
    ensures
        final(core).wf(),
        final(frames).wf(),
        scheduler_stepped(old(core), final(core), old(frames), final(frames)),
        final(core).cpu_timing.clocks_acc < old(core).cpu_timing.clocks_acc,
{
    broadcast use crate::bus::lemma_cpu_write16_keeps_cpu;

    reveal(scheduler_stepped);
    if core.dma.vram.cpu_halt_m_cycles > 0 {
        core.dma.vram.cpu_halt_m_cycles = core.dma.vram.cpu_halt_m_cycles - 1;
        step_machine_cycle(core, frames);
        return ;
    }
    if core.cpu_mode == CpuMode::Stopped {
        if switch_running_speed(core) {
            let ghost switched = *core;
            step_machine_cycles(core, frames, machine_cycles_for_clocks(STOP_SPEED_SWITCH_CLOCKS));
            let ghost waited = *core;
            core.cpu_mode = CpuMode::Running;
            assert(running_speed_switched(old(core), &switched));
            assert(machine_cycles_stepped(
                &switched,
                &waited,
                old(frames),
                frames,
                spec_machine_cycles_for_clocks(STOP_SPEED_SWITCH_CLOCKS) as nat,
            ));
        } else {
            step_machine_cycle(core, frames);
        }
        return ;
    }
    let action = handle_interrupts(core);
    let ghost handled = *core;
    match action {
        InterruptAction::Proceed => {},
        InterruptAction::WakeHalt => {
            step_machine_cycle(core, frames);
            assert(interrupts_handled(old(core), &handled, action));
            return ;
        },
        InterruptAction::Service => {
            step_machine_cycles(core, frames, INTERRUPT_ACK_MACHINE_CYCLES);
            assert(interrupts_handled(old(core), &handled, action));
            return ;
        },
    }
    let clocks_passed = perform_op(core);
    let ghost ran = *core;
    proof {
        crate::interpreter::lemma_op_keeps_clocks(&handled, &ran, clocks_passed);
    }
    core.cpu_registers.pc = core.cpu_registers.pc % 65536;
    let ghost executed = *core;
    step_machine_cycles(core, frames, machine_cycles_for_clocks(clocks_passed));
    let ghost stepped = *core;
    crate::bus::begin_deferred_oam_dma(core);
    let ghost started = *core;
    finish_instruction_interrupt_state(core);
    assert(interrupts_handled(old(core), &handled, action));
    assert(op_performed(&handled, &ran, clocks_passed));
    assert(instruction_stepped(&handled, &executed, clocks_passed, &stepped, &started, core, old(frames), frames));
}

/// One more turn extends a run of turns.
proof fn lemma_one_more_turn(
    first: &GameBoyCore,
    middle: &GameBoyCore,
    last: &GameBoyCore,
    first_frames: &GameBoyFrameRing,
    middle_frames: &GameBoyFrameRing,
    last_frames: &GameBoyFrameRing,
    turns: nat,
)
    requires
        scheduled(first, middle, first_frames, middle_frames, turns),
        scheduler_stepped(middle, last, middle_frames, last_frames),
    ensures
        scheduled(first, last, first_frames, last_frames, turns + 1),
{
    assert(scheduled(first, middle, first_frames, middle_frames, ((turns + 1) - 1) as nat));
}

/// Runs the CPU and every unit until the accumulated clocks are used up: a changed joypad state
/// is shown first, then the scheduler takes turns while clocks remain.
pub fn execute_accumulated_clocks(core: &mut GameBoyCore, frames: &mut GameBoyFrameRing)
    requires
        old(core).wf(),
        old(frames).wf(),
    ensures
        final(core).wf(),
        final(frames).wf(),
        final(core).cpu_timing.clocks_acc <= 0,
        exists|applied: GameBoyCore, turns: nat|
            joypad_state_applied(old(core), &applied) && scheduled(&applied, final(core), old(frames), final(frames), turns),
{
    apply_joypad_state_change(core);
    let ghost applied = *core;
    let ghost mut turns: nat = 0;
    while core.cpu_timing.clocks_acc > 0
        invariant
            core.wf(),
            frames.wf(),
            scheduled(&applied, core, old(frames), frames, turns),
        decreases core.cpu_timing.clocks_acc - i32::MIN,
    {
        let ghost previous = *core;
        let ghost previous_frames = *frames;
        run_scheduler_turn(core, frames);
        proof {
            lemma_one_more_turn(&applied, &previous, core, old(frames), &previous_frames, frames, turns);
            turns = turns + 1;
        }
    }
    assert(joypad_state_applied(old(core), &applied));
}

/// `a / b` rounded toward zero, as Rust's integer division does.
pub open spec fn truncated_quotient(a: int, b: int) -> int {
    let magnitude = (if a >= 0 { a } else { -a }) / (if b >= 0 { b } else { -b });
    if (a >= 0) == (b >= 0) {
        magnitude
    } else {
        -magnitude
    }
}

/// `value` held within the range of `i64`.
pub open spec fn saturating_i64(value: int) -> i64 {
    if value > i64::MAX {
        i64::MAX
    } else if value < i64::MIN {
        i64::MIN
    } else {
        value as i64
    }
}

/// The CPU clock rate after the speed setting: the base rate times the multiplier (held within
/// 64 bits) over the divisor, or none with a divisor below 1.
pub open spec fn spec_adjusted_clock_frequency(cpu_timing: CpuTiming, control: RuntimeControl) -> Option<i64> {
    if control.clock_divide <= 0 {
        None
    } else {
        Some(
            truncated_quotient(
                saturating_i64(cpu_timing.clock_frequency_hz * control.clock_multiply) as int,
                control.clock_divide as int,
            ) as i64,
        )
    }
}

/// `a / b` rounded toward zero.
fn divide_toward_zero(a: i128, b: i128) -> (quotient: i128)
    requires
        b != 0,
        i64::MIN <= a <= i64::MAX,
        i64::MIN <= b <= i64::MAX,
    ensures
        quotient == truncated_quotient(a as int, b as int),
        -0x8000_0000_0000_0000 <= quotient <= 0x8000_0000_0000_0000,
{
    let numerator = if a >= 0 {
        a
    } else {
        -a
    };
    let denominator = if b >= 0 {
        b
    } else {
        -b
    };
    let magnitude = numerator / denominator;
    assert(magnitude <= numerator) by (nonlinear_arith)
        requires
            numerator >= 0,
            denominator > 0,
            magnitude == numerator / denominator,
    ;
    if (a >= 0) == (b >= 0) {
        magnitude
    } else {
        -magnitude
    }
}

/// The CPU clock rate after the speed setting.
pub fn adjusted_clock_frequency(cpu_timing: &CpuTiming, control: &RuntimeControl) -> (frequency: Option<i64>)
    ensures
        frequency == spec_adjusted_clock_frequency(*cpu_timing, *control),
{
    if control.clock_divide <= 0 {
        return None;
    }
    let frequency = cpu_timing.clock_frequency_hz as i128;
    let multiply = control.clock_multiply as i128;
    assert(-0x4000_0000_0000_0000_0000_0000_0000_0000 <= frequency * multiply <= 0x4000_0000_0000_0000_0000_0000_0000_0000)
        by (nonlinear_arith)
        requires
            i64::MIN <= frequency <= i64::MAX,
            i64::MIN <= multiply <= i64::MAX,
    ;
    let wide = frequency * multiply;
    let product: i128 = if wide > i64::MAX as i128 {
        i64::MAX as i128
    } else if wide < i64::MIN as i128 {
        i64::MIN as i128
    } else {
        wide
    };
    Some(divide_toward_zero(product, control.clock_divide as i128) as i64)
}

/// The ceiling on accumulated clocks: a million clocks times one more than the whole speed
/// multiplier (at least one; one when the division is undefined), held within `i32`.
pub open spec fn accumulated_clock_cap(control: RuntimeControl) -> i32 {
    let quotient: int = if control.clock_divide == 0 || (control.clock_divide == -1 && control.clock_multiply
        == i64::MIN) {
        1
    } else {
        truncated_quotient(control.clock_multiply as int, control.clock_divide as int)
    };
    let multiplier = if quotient + 1 > i64::MAX { i64::MAX as int } else { quotient + 1 };
    let multiplier = if multiplier < 1 { 1 } else { multiplier };
    let cap = saturating_i64(MAX_ACCUMULATED_CLOCKS * multiplier);
    if cap <= i32::MAX { cap as i32 } else { i32::MAX }
}

/// Adds clocks that passed to the accumulated clocks, up to the ceiling that the speed setting
/// allows.
pub fn add_accumulated_clocks(cpu_timing: &mut CpuTiming, control: &RuntimeControl, clocks_to_add: i32)
    ensures
        ({
            let sum = saturating_i32(old(cpu_timing).clocks_acc + clocks_to_add);
            let cap = accumulated_clock_cap(*control);
            *final(cpu_timing) == CpuTiming { clocks_acc: if sum < cap { sum } else { cap }, ..*old(cpu_timing) }
        }),
{
    let divide = control.clock_divide;
    let multiply = control.clock_multiply;
    let quotient: i128 = if divide == 0 || (divide == -1 && multiply == i64::MIN) {
        1
    } else {
        divide_toward_zero(multiply as i128, divide as i128)
    };
    let incremented: i128 = if quotient + 1 > i64::MAX as i128 {
        i64::MAX as i128
    } else {
        quotient + 1
    };
    let multiplier: i128 = if incremented < 1 {
        1
    } else {
        incremented
    };
    let product = MAX_ACCUMULATED_CLOCKS as i128 * multiplier;
    let cap_wide: i128 = if product > i64::MAX as i128 {
        i64::MAX as i128
    } else {
        product
    };
    let cap: i32 = if cap_wide <= i32::MAX as i128 {
        cap_wide as i32
    } else {
        i32::MAX
    };
    let sum = saturating_add_i32(cpu_timing.clocks_acc, clocks_to_add);
    cpu_timing.clocks_acc = if sum < cap {
        sum
    } else {
        cap
    };
}

/// Whether the host should run the emulator: it is running and not paused.
pub fn emulation_active(runtime: &RuntimeControl) -> (active: bool)
    ensures
        active == (runtime.is_running && !runtime.is_paused),
{
    runtime.is_running && !runtime.is_paused
}

/// Runs the clocks that a host frame added once they reach the minimum batch: below it
/// nothing changes; from it on, the joypad change is applied and the scheduler runs until
/// the budget is spent.
pub fn run_accumulated_batch(core: &mut GameBoyCore, frames: &mut GameBoyFrameRing) -> (ran: bool)
    requires
        old(core).wf(),
        old(frames).wf(),
    ensures
        final(core).wf(),
        final(frames).wf(),
        ran == (old(core).cpu_timing.clocks_acc >= crate::constants::MIN_CLOCKS_TO_EXECUTE),
        !ran ==> *final(core) == *old(core) && *final(frames) == *old(frames),
        ran ==> final(core).cpu_timing.clocks_acc <= 0,
        ran ==> exists|applied: GameBoyCore, turns: nat|
            joypad_state_applied(old(core), &applied) && scheduled(&applied, final(core), old(frames), final(frames), turns),
{
    if core.cpu_timing.clocks_acc < crate::constants::MIN_CLOCKS_TO_EXECUTE {
        return false;
    }
    execute_accumulated_clocks(core, frames);
    true
}

} // verus!
