use vstd::prelude::*;

use crate::constants::{INITIAL_VRAM_BANK_OFFSET, INITIAL_WRAM_BANK_OFFSET};

verus! {

/// The mode of the picture processing unit.
#[derive(Clone, Copy, Debug, PartialEq, Eq, Structural)]
pub enum GpuMode {
    HBlank,
    VBlank,
    ScanOam,
    ScanVram,
}

impl Default for GpuMode {
    fn default() -> (mode: Self)
        ensures
            mode == GpuMode::VBlank,
    {
        GpuMode::VBlank
    }
}

impl GpuMode {
    /// A loaded cartridge starts scanning OAM.
    pub fn reset_for_rom_load(&mut self)
        ensures
            *final(self) == GpuMode::ScanOam,
    {
        *self = GpuMode::ScanOam;
    }
}

/// Which hardware draws the scanlines.
#[derive(Clone, Copy, Debug, PartialEq, Eq, Structural)]
pub enum LineRenderer {
    Gb,
    Sgb,
    Cgb,
}

impl Default for LineRenderer {
    fn default() -> (renderer: Self)
        ensures
            renderer == LineRenderer::Gb,
    {
        LineRenderer::Gb
    }
}

/// Duration of the mode-3 scan when nothing lengthens it.
pub const DEFAULT_LINE_SCAN_VRAM_CLOCKS: i32 = 172;

/// Timing state of the picture processing unit.
#[derive(Clone, Copy, Debug)]
pub struct GpuTiming {
    pub clock_factor: i32,
    pub time_in_mode: i32,
    pub line_scan_vram_clocks: i32,
    pub last_ly_compare: u32,
    pub blanked_screen: bool,
    pub need_clear: bool,
}

impl GpuTiming {
    /// The state that `default` gives.
    pub open spec fn is_default(&self) -> bool {
        &&& self.clock_factor == 1
        &&& self.time_in_mode == 0
        &&& self.line_scan_vram_clocks == DEFAULT_LINE_SCAN_VRAM_CLOCKS
        &&& self.last_ly_compare == 0
        &&& !self.blanked_screen
        &&& self.need_clear
    }
}

impl Default for GpuTiming {
    fn default() -> (timing: Self)
        ensures
            timing.is_default(),
    {
        GpuTiming {
            clock_factor: 1,
            time_in_mode: 0,
            line_scan_vram_clocks: DEFAULT_LINE_SCAN_VRAM_CLOCKS,
            last_ly_compare: 0,
            blanked_screen: false,
            need_clear: true,
        }
    }
}

impl GpuTiming {
    /// Timing of a freshly loaded cartridge: normal speed, at the start of a mode.
    pub fn reset_for_rom_load(&mut self)
        ensures
            final(self).clock_factor == 1,
            final(self).time_in_mode == 0,
            final(self).line_scan_vram_clocks == old(self).line_scan_vram_clocks,
            final(self).last_ly_compare == 1,
            !final(self).blanked_screen,
            !final(self).need_clear,
    {
        self.clock_factor = 1;
        self.time_in_mode = 0;
        self.last_ly_compare = 1;
        self.blanked_screen = false;
        self.need_clear = false;
    }
}

/// Which memories the CPU may reach and the selected RAM banks.
#[derive(Clone, Copy, Debug)]
pub struct MemoryAccess {
    pub oam: bool,
    pub vram: bool,
    pub wram_bank_offset: u32,
    pub vram_bank_offset: u32,
}

impl MemoryAccess {
    /// The state that `default` gives.
    pub open spec fn is_default(&self) -> bool {
        &&& !self.oam && !self.vram
        &&& self.wram_bank_offset == 0 && self.vram_bank_offset == 0
    }
}

impl Default for MemoryAccess {
    fn default() -> (access: Self)
        ensures
            access.is_default(),
    {
        MemoryAccess { oam: false, vram: false, wram_bank_offset: 0, vram_bank_offset: 0 }
    }
}

impl MemoryAccess {
    /// A loaded cartridge may reach OAM and VRAM, with the first switchable banks selected.
    pub fn reset_for_rom_load(&mut self)
        ensures
            final(self).oam,
            final(self).vram,
            final(self).wram_bank_offset == INITIAL_WRAM_BANK_OFFSET,
            final(self).vram_bank_offset == INITIAL_VRAM_BANK_OFFSET,
    {
        self.oam = true;
        self.vram = true;
        self.wram_bank_offset = INITIAL_WRAM_BANK_OFFSET;
        self.vram_bank_offset = INITIAL_VRAM_BANK_OFFSET;
    }
}

} // verus!
