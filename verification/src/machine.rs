use vstd::prelude::*;

use crate::audio_unit::AudioUnitState;
use crate::cheats::CheatTable;
use crate::constants::{
    GB_CLOCK_HZ, INITIAL_VRAM_BANK_OFFSET, INITIAL_WRAM_BANK_OFFSET, IO_PORT_BYTES, ROM_CAPACITY_BYTES, SGB_CLOCK_HZ,
    TILE_SET_PIXELS, VRAM_BYTES, WRAM_BYTES,
};
use crate::cpu::{CpuMode, CpuRegisters, CpuTiming, SerialState};
use crate::dma::DmaState;
use crate::gpu::{GpuMode, GpuTiming, LineRenderer, MemoryAccess};
use crate::memory::{initial_io_port, zeros, GameBoyMemory};
use crate::palettes::{CgbPaletteRegisters, PaletteState};
use crate::rom::{RomProperties, RomState};
use crate::runtime::RuntimeControl;
use crate::sgb::SgbState;
use crate::sram::SramState;
use crate::video::VideoFrameAssembler;

verus! {

pub const SC_IO_INDEX: usize = 0x02;
pub const DMA_IO_INDEX: usize = 0x46;
pub const KEY1_IO_INDEX: usize = 0x4d;
pub const VBK_IO_INDEX: usize = 0x4f;
pub const HDMA1_IO_INDEX: usize = 0x51;
pub const HDMA2_IO_INDEX: usize = 0x52;
pub const HDMA3_IO_INDEX: usize = 0x53;
pub const HDMA4_IO_INDEX: usize = 0x54;
pub const HDMA5_IO_INDEX: usize = 0x55;
pub const RP_IO_INDEX: usize = 0x56;
pub const SVBK_IO_INDEX: usize = 0x70;
pub const NR52_IO_INDEX: usize = 0x26;
pub const STAT_IO_INDEX: usize = 0x41;
pub const LY_IO_INDEX: usize = 0x44;

/// The whole console: CPU, timers, DMA engines, picture processor, memories, palettes, the
/// cartridge with its RAM, the Super Game Boy, the sound unit, the frame being assembled and
/// the cheats.
#[derive(Debug)]
pub struct GameBoyCore {
    pub runtime: RuntimeControl,
    pub cpu_registers: CpuRegisters,
    pub cpu_timing: CpuTiming,
    pub cpu_mode: CpuMode,
    pub serial: SerialState,
    pub dma: DmaState,
    pub gpu_timing: GpuTiming,
    pub gpu_mode: GpuMode,
    pub line_renderer: LineRenderer,
    pub memory_access: MemoryAccess,
    pub memory: GameBoyMemory,
    pub palettes: PaletteState,
    pub cgb_palette_registers: CgbPaletteRegisters,
    pub rom: RomState,
    pub sram: SramState,
    pub sgb: SgbState,
    pub audio_unit: AudioUnitState,
    pub video_frame: VideoFrameAssembler,
    pub cheats: CheatTable,
}

impl GameBoyCore {
    /// Every memory has its hardware size and every part its own invariant.
    pub open spec fn wf(&self) -> bool {
        &&& self.memory.rom@.len() == ROM_CAPACITY_BYTES
        &&& self.memory.wram@.len() == WRAM_BYTES
        &&& self.memory.vram@.len() == VRAM_BYTES
        &&& self.memory.io_ports@.len() == IO_PORT_BYTES
        &&& self.memory.tile_set@.len() == TILE_SET_PIXELS
        &&& crate::video::tiles_valid(&self.memory)
        &&& crate::gpu::DEFAULT_LINE_SCAN_VRAM_CLOCKS <= self.gpu_timing.line_scan_vram_clocks <= 289
        &&& self.sgb.wf()
        &&& self.audio_unit.wf()
        &&& self.video_frame.wf()
    }
}

impl Default for GameBoyCore {
    fn default() -> (core: Self)
        ensures
            core.wf(),
            core.runtime.is_default(),
            core.cpu_registers.is_default(),
            core.cpu_timing.is_default(),
            core.cpu_mode == CpuMode::Running,
            core.serial.is_default(),
            core.dma.is_default(),
            core.gpu_timing.is_default(),
            core.gpu_mode == GpuMode::VBlank,
            core.line_renderer == LineRenderer::Gb,
            core.memory_access.is_default(),
            core.memory.is_default(),
            core.palettes.is_default(),
            core.cgb_palette_registers.is_default(),
            core.rom.is_default(),
            core.sram.is_default(),
            core.sgb.is_default(),
            core.audio_unit.is_default(),
            core.video_frame.is_default(),
            core.cheats.is_default(),
    {
        GameBoyCore {
            runtime: RuntimeControl::default(),
            cpu_registers: CpuRegisters::default(),
            cpu_timing: CpuTiming::default(),
            cpu_mode: CpuMode::default(),
            serial: SerialState::default(),
            dma: DmaState::default(),
            gpu_timing: GpuTiming::default(),
            gpu_mode: GpuMode::default(),
            line_renderer: LineRenderer::default(),
            memory_access: MemoryAccess::default(),
            memory: GameBoyMemory::default(),
            palettes: PaletteState::default(),
            cgb_palette_registers: CgbPaletteRegisters::default(),
            rom: RomState::default(),
            sram: SramState::default(),
            sgb: SgbState::default(),
            audio_unit: AudioUnitState::default(),
            video_frame: VideoFrameAssembler::default(),
            cheats: CheatTable::default(),
        }
    }
}

/// The eight registers A, F, B, C, D, E, H, L that the boot ROM of the cartridge's model hands
/// over: Color, then Super Game Boy, then the original model, whose F depends on the header
/// checksum.
pub open spec fn handoff_registers(properties: RomProperties) -> Seq<u8> {
    if properties.cgb_flag {
        seq![0x11u8, 0x80, 0x00, 0x00, 0xff, 0x56, 0x00, 0x0d]
    } else if properties.sgb_flag {
        seq![0x01u8, 0x00, 0x00, 0x14, 0x00, 0x00, 0xc0, 0x60]
    } else {
        seq![0x01u8, if properties.check_sum == 0 { 0x80u8 } else { 0xb0u8 }, 0x00, 0x13, 0x00, 0xd8, 0x01, 0x4d]
    }
}

/// The value that I/O port `index` holds once a cartridge is loaded: the boot ROM's values,
/// those of the model, and the picture processor in V-blank on line 0.
pub open spec fn handoff_io_port(properties: RomProperties, index: int) -> u8 {
    let base = match initial_io_port(index) {
        Some(value) => value,
        None => 0u8,
    };
    if index == LY_IO_INDEX {
        0
    } else if index == STAT_IO_INDEX {
        (base & 0xfc) | 0x01
    } else if properties.cgb_flag {
        if index == SC_IO_INDEX {
            0x7f
        } else if index == NR52_IO_INDEX {
            0xf1
        } else if index == DMA_IO_INDEX {
            0x00
        } else if index == KEY1_IO_INDEX {
            0x7e
        } else if index == VBK_IO_INDEX {
            0xfe
        } else if HDMA1_IO_INDEX <= index <= HDMA5_IO_INDEX {
            0xff
        } else if index == RP_IO_INDEX {
            0x3e
        } else if index == SVBK_IO_INDEX {
            0xf8
        } else {
            base
        }
    } else if index == NR52_IO_INDEX {
        if properties.sgb_flag {
            0xf0
        } else {
            0xf1
        }
    } else {
        base
    }
}

/// The line renderer and CPU clock of the cartridge's model.
pub open spec fn model_renderer(properties: RomProperties) -> LineRenderer {
    if properties.cgb_flag {
        LineRenderer::Cgb
    } else if properties.sgb_flag {
        LineRenderer::Sgb
    } else {
        LineRenderer::Gb
    }
}

pub open spec fn model_clock(properties: RomProperties) -> i64 {
    if !properties.cgb_flag && properties.sgb_flag {
        SGB_CLOCK_HZ
    } else {
        GB_CLOCK_HZ
    }
}

/// What loading a cartridge with header `properties`, identity `rom_id`, opened name
/// `opened_file_name` and image `rom_bytes` makes of the emulator `before`: every part is
/// reset for the cartridge, the registers and I/O ports take the values that the boot ROM of
/// its model leaves, and the picture processor starts in V-blank with both memories open to
/// the CPU; the audio unit and the cheats are kept.
pub open spec fn cartridge_loaded(
    before: &GameBoyCore,
    after: &GameBoyCore,
    properties: RomProperties,
    rom_id: Seq<char>,
    opened_file_name: Seq<char>,
    rom_bytes: Seq<u8>,
) -> bool {
    &&& after.rom.properties == properties
    &&& after.rom.has_initial_banks()
    &&& after.rom.current_rom_id@ == rom_id
    &&& after.rom.current_opened_file@ == opened_file_name
    &&& forall|i: int|
            0 <= i < ROM_CAPACITY_BYTES ==> #[trigger] after.memory.rom@[i] == if i < rom_bytes.len() {
                rom_bytes[i]
            } else {
                0u8
            }
    &&& forall|i: int| 0 <= i < WRAM_BYTES ==> #[trigger] after.memory.wram@[i] == 0
    &&& forall|i: int| 0 <= i < VRAM_BYTES ==> #[trigger] after.memory.vram@[i] == 0
    &&& forall|i: int|
            0 <= i < IO_PORT_BYTES ==> #[trigger] after.memory.io_ports@[i] == handoff_io_port(properties, i)
    &&& after.register_bytes() == handoff_registers(properties)
    &&& after.cpu_registers.pc == 0x0100
    &&& after.cpu_registers.sp == 0xfffe
    &&& !after.cpu_registers.ime
    &&& after.cpu_timing.clock_frequency_hz == model_clock(properties)
    &&& after.line_renderer == model_renderer(properties)
    &&& after.cpu_mode == CpuMode::Running
    &&& after.gpu_mode == GpuMode::VBlank
    &&& after.gpu_timing.time_in_mode == 0
    &&& after.memory_access.oam
    &&& after.memory_access.vram
    &&& after.runtime.is_running
    &&& after.video_frame.frame_in_progress
    &&& after.sgb.cleared_from(&before.sgb)
    &&& after.sgb.read_joypad_id == if !properties.cgb_flag && properties.sgb_flag { 0x0cu32 } else { 0u32 }
    &&& after.sram.loaded_for(&properties, rom_bytes)
    &&& after.memory.oam@ == zeros(160, 0u8)
    &&& after.memory.tile_set@ == zeros(TILE_SET_PIXELS as nat, 0u32)
    &&& after.palettes.translated_from(after.memory.io_ports@)
    &&& after.cgb_palette_registers.is_cleared()
    &&& after.dma.is_default()
    &&& after.serial.is_default()
    &&& after.cpu_registers.ime_enable_delay == 0
    &&& !after.cpu_registers.halt_bug
    &&& after.cpu_timing.clocks_acc == 0
    &&& after.cpu_timing.system_counter == 0
    &&& after.cpu_timing.tima_reload_delay == 0
    &&& !after.cpu_timing.tima_reload_active
    &&& after.gpu_timing == (GpuTiming {
            clock_factor: 1,
            time_in_mode: 0,
            line_scan_vram_clocks: before.gpu_timing.line_scan_vram_clocks,
            last_ly_compare: 1,
            blanked_screen: false,
            need_clear: false,
        })
    &&& after.memory_access == (MemoryAccess {
            oam: true,
            vram: true,
            wram_bank_offset: INITIAL_WRAM_BANK_OFFSET,
            vram_bank_offset: INITIAL_VRAM_BANK_OFFSET,
        })
    &&& !after.runtime.is_paused
    &&& after.runtime.has_idle_input_and_normal_speed()
    &&& after.video_frame.pixels == before.video_frame.pixels
    &&& after.audio_unit == before.audio_unit
    &&& after.cheats == before.cheats
}

impl GameBoyCore {
    /// Whether the emulator is well formed, as `wf` says: callers outside the verified code
    /// test this before handing it to functions that require it.
    pub fn is_well_formed(&self) -> (ok: bool)
        ensures
            ok == self.wf(),
    {
        self.memory.rom.len() == ROM_CAPACITY_BYTES && self.memory.wram.len() == WRAM_BYTES
            && self.memory.vram.len() == VRAM_BYTES && self.memory.io_ports.len() == IO_PORT_BYTES
            && self.memory.tile_set.len() == TILE_SET_PIXELS
            && crate::save_state::tile_indices_in_range(self.memory.tile_set.as_slice())
            && crate::gpu::DEFAULT_LINE_SCAN_VRAM_CLOCKS <= self.gpu_timing.line_scan_vram_clocks
            && self.gpu_timing.line_scan_vram_clocks <= 289 && self.sgb.buffers_sized()
            && self.audio_unit.envelopes_can_step() && self.video_frame.frame_sized()
    }

    /// The registers A, F, B, C, D, E, H, L in that order.
    pub open spec fn register_bytes(&self) -> Seq<u8> {
        let r = self.cpu_registers;
        seq![r.a, r.f, r.b, r.c, r.d, r.e, r.h, r.l]
    }

    /// Loads a cartridge: every part is reset, the registers and I/O ports take the values
    /// that the boot ROM of the cartridge's model leaves, and the picture processor starts in
    /// V-blank with both memories open to the CPU.
    pub fn reset_for_rom_load(
        &mut self,
        properties: RomProperties,
        rom_id: String,
        opened_file_name: String,
        rom_bytes: &[u8],
    ) -> (loaded: bool)
        requires
            old(self).wf(),
        ensures
            loaded,
            final(self).wf(),
            cartridge_loaded(old(self), final(self), properties, rom_id@, opened_file_name@, rom_bytes@),
    {
        let loaded = self.memory.reset_for_rom_load(rom_bytes);
        self.rom.reset_for_rom_load(properties, rom_id, opened_file_name);
        self.sram.reset_for_rom_load(&properties, rom_bytes);
        self.sgb.reset_for_rom_load();
        self.cgb_palette_registers.reset_for_rom_load();
        self.cpu_registers.reset_for_rom_load();
        self.cpu_timing.reset_for_rom_load();
        self.cpu_mode.reset_for_rom_load();
        self.serial.reset_for_rom_load();
        self.dma.reset_for_rom_load();
        self.gpu_timing.reset_for_rom_load();
        self.gpu_mode.reset_for_rom_load();
        self.memory_access.reset_for_rom_load();
        self.video_frame.reset_for_rom_load();
        self.memory.reset_io_ports_for_rom_load();
        self.palettes.reset_for_rom_load(&self.memory.io_ports);
        let ghost before_model = self.memory.io_ports@;
        self.configure_model_specific_state(&properties);
        self.configure_boot_bypass_ppu_state();
        self.runtime.reset_for_rom_load();
        assert(self.register_bytes() =~= handoff_registers(properties));
        assert(self.memory.io_ports@[0x47] == before_model[0x47]);
        assert(self.memory.io_ports@[0x48] == before_model[0x48]);
        assert(self.memory.io_ports@[0x49] == before_model[0x49]);
        loaded
    }

    /// Sets the registers, I/O ports, renderer and clock that the boot ROM of the cartridge's
    /// model leaves.
    fn configure_model_specific_state(&mut self, properties: &RomProperties)
        requires
            old(self).memory.io_ports@.len() == IO_PORT_BYTES,
        ensures
            final(self).memory.io_ports@.len() == IO_PORT_BYTES,
            forall|i: int|
                0 <= i < IO_PORT_BYTES && i != LY_IO_INDEX && i != STAT_IO_INDEX
                    ==> #[trigger] final(self).memory.io_ports@[i] == if properties.cgb_flag {
                    if i == SC_IO_INDEX {
                        0x7fu8
                    } else if i == NR52_IO_INDEX {
                        0xf1
                    } else if i == DMA_IO_INDEX {
                        0x00
                    } else if i == KEY1_IO_INDEX {
                        0x7e
                    } else if i == VBK_IO_INDEX {
                        0xfe
                    } else if HDMA1_IO_INDEX <= i <= HDMA5_IO_INDEX {
                        0xff
                    } else if i == RP_IO_INDEX {
                        0x3e
                    } else if i == SVBK_IO_INDEX {
                        0xf8
                    } else {
                        old(self).memory.io_ports@[i]
                    }
                } else if i == NR52_IO_INDEX {
                    if properties.sgb_flag {
                        0xf0u8
                    } else {
                        0xf1u8
                    }
                } else {
                    old(self).memory.io_ports@[i]
                },
            final(self).memory.io_ports@[LY_IO_INDEX as int] == old(self).memory.io_ports@[LY_IO_INDEX as int],
            final(self).memory.io_ports@[STAT_IO_INDEX as int] == old(self).memory.io_ports@[STAT_IO_INDEX as int],
            final(self).register_bytes() == handoff_registers(*properties),
            final(self).cpu_registers.pc == old(self).cpu_registers.pc,
            final(self).cpu_registers.sp == old(self).cpu_registers.sp,
            final(self).cpu_registers.ime == old(self).cpu_registers.ime,
            final(self).cpu_registers.ime_enable_delay == old(self).cpu_registers.ime_enable_delay,
            final(self).cpu_registers.halt_bug == old(self).cpu_registers.halt_bug,
            final(self).cpu_timing.clock_frequency_hz == model_clock(*properties),
            final(self).cpu_timing.clocks_acc == old(self).cpu_timing.clocks_acc,
            final(self).cpu_timing.system_counter == old(self).cpu_timing.system_counter,
            final(self).cpu_timing.tima_reload_delay == old(self).cpu_timing.tima_reload_delay,
            final(self).cpu_timing.tima_reload_active == old(self).cpu_timing.tima_reload_active,
            final(self).line_renderer == model_renderer(*properties),
            (!properties.cgb_flag && properties.sgb_flag) ==> final(self).sgb.read_joypad_id == 0x0c,
            (properties.cgb_flag || !properties.sgb_flag) ==> final(self).sgb == old(self).sgb,
            final(self).sgb == (SgbState { read_joypad_id: final(self).sgb.read_joypad_id, ..old(self).sgb }),
            final(self).sgb.wf() == old(self).sgb.wf(),
            (properties.cgb_flag || properties.sgb_flag) ==> final(self).cgb_palette_registers.bg_index == 0
                && final(self).cgb_palette_registers.obj_index == 0,
            !(properties.cgb_flag || properties.sgb_flag) ==> final(self).cgb_palette_registers
                == old(self).cgb_palette_registers,
            final(self).cgb_palette_registers.bg_data == old(self).cgb_palette_registers.bg_data,
            final(self).cgb_palette_registers.obj_data == old(self).cgb_palette_registers.obj_data,
            final(self).cgb_palette_registers.bg_increment == old(self).cgb_palette_registers.bg_increment,
            final(self).cgb_palette_registers.obj_increment == old(self).cgb_palette_registers.obj_increment,
            final(self).memory.rom == old(self).memory.rom,
            final(self).memory.wram == old(self).memory.wram,
            final(self).memory.vram == old(self).memory.vram,
            final(self).memory.oam == old(self).memory.oam,
            final(self).memory.tile_set == old(self).memory.tile_set,
            final(self).runtime == old(self).runtime,
            final(self).cpu_mode == old(self).cpu_mode,
            final(self).serial == old(self).serial,
            final(self).dma == old(self).dma,
            final(self).gpu_timing == old(self).gpu_timing,
            final(self).gpu_mode == old(self).gpu_mode,
            final(self).memory_access == old(self).memory_access,
            final(self).palettes == old(self).palettes,
            final(self).rom == old(self).rom,
            final(self).sram == old(self).sram,
            final(self).audio_unit == old(self).audio_unit,
            final(self).video_frame == old(self).video_frame,
            final(self).cheats == old(self).cheats,
    {
        if properties.cgb_flag {
            self.cpu_timing.clock_frequency_hz = GB_CLOCK_HZ;
            self.cpu_registers.a = 0x11;
            self.cpu_registers.f = 0x80;
            self.cpu_registers.b = 0x00;
            self.cpu_registers.c = 0x00;
            self.cpu_registers.d = 0xff;
            self.cpu_registers.e = 0x56;
            self.cpu_registers.h = 0x00;
            self.cpu_registers.l = 0x0d;
            self.line_renderer = LineRenderer::Cgb;
            self.memory.write_io_port(SC_IO_INDEX, 0x7f);
            self.memory.write_io_port(NR52_IO_INDEX, 0xf1);
            self.memory.write_io_port(DMA_IO_INDEX, 0x00);
            self.memory.write_io_port(KEY1_IO_INDEX, 0x7e);
            self.memory.write_io_port(VBK_IO_INDEX, 0xfe);
            self.memory.write_io_port(HDMA1_IO_INDEX, 0xff);
            self.memory.write_io_port(HDMA2_IO_INDEX, 0xff);
            self.memory.write_io_port(HDMA3_IO_INDEX, 0xff);
            self.memory.write_io_port(HDMA4_IO_INDEX, 0xff);
            self.memory.write_io_port(HDMA5_IO_INDEX, 0xff);
            self.memory.write_io_port(RP_IO_INDEX, 0x3e);
            self.memory.write_io_port(SVBK_IO_INDEX, 0xf8);
            self.cgb_palette_registers.bg_index = 0;
            self.cgb_palette_registers.obj_index = 0;
        } else if properties.sgb_flag {
            self.cpu_timing.clock_frequency_hz = SGB_CLOCK_HZ;
            self.cpu_registers.a = 0x01;
            self.cpu_registers.f = 0x00;
            self.cpu_registers.b = 0x00;
            self.cpu_registers.c = 0x14;
            self.cpu_registers.d = 0x00;
            self.cpu_registers.e = 0x00;
            self.cpu_registers.h = 0xc0;
            self.cpu_registers.l = 0x60;
            self.line_renderer = LineRenderer::Sgb;
            self.memory.write_io_port(NR52_IO_INDEX, 0xf0);
            self.sgb.read_joypad_id = 0x0c;
            self.cgb_palette_registers.bg_index = 0;
            self.cgb_palette_registers.obj_index = 0;
        } else {
            self.cpu_timing.clock_frequency_hz = GB_CLOCK_HZ;
            self.cpu_registers.a = 0x01;
            self.cpu_registers.f = if properties.check_sum == 0 {
                0x80
            } else {
                0xb0
            };
            self.cpu_registers.b = 0x00;
            self.cpu_registers.c = 0x13;
            self.cpu_registers.d = 0x00;
            self.cpu_registers.e = 0xd8;
            self.cpu_registers.h = 0x01;
            self.cpu_registers.l = 0x4d;
            self.line_renderer = LineRenderer::Gb;
            self.memory.write_io_port(NR52_IO_INDEX, 0xf1);
        }
        assert(self.register_bytes() =~= handoff_registers(*properties));
    }

    /// Leaves the picture processor as the boot ROM does: in V-blank on line 0 with OAM and
    /// VRAM open to the CPU.
    fn configure_boot_bypass_ppu_state(&mut self)
        requires
            old(self).memory.io_ports@.len() == IO_PORT_BYTES,
        ensures
            final(self).memory.io_ports@ == old(self).memory.io_ports@.update(LY_IO_INDEX as int, 0).update(
                STAT_IO_INDEX as int,
                (old(self).memory.io_ports@[STAT_IO_INDEX as int] & 0xfc) | 0x01,
            ),
            final(self).gpu_mode == GpuMode::VBlank,
            final(self).gpu_timing == (GpuTiming { time_in_mode: 0, ..old(self).gpu_timing }),
            final(self).memory_access == (MemoryAccess { oam: true, vram: true, ..old(self).memory_access }),
            final(self).memory.rom == old(self).memory.rom,
            final(self).memory.wram == old(self).memory.wram,
            final(self).memory.vram == old(self).memory.vram,
            final(self).memory.oam == old(self).memory.oam,
            final(self).memory.tile_set == old(self).memory.tile_set,
            final(self).runtime == old(self).runtime,
            final(self).cpu_registers == old(self).cpu_registers,
            final(self).cpu_timing == old(self).cpu_timing,
            final(self).cpu_mode == old(self).cpu_mode,
            final(self).serial == old(self).serial,
            final(self).dma == old(self).dma,
            final(self).line_renderer == old(self).line_renderer,
            final(self).palettes == old(self).palettes,
            final(self).cgb_palette_registers == old(self).cgb_palette_registers,
            final(self).rom == old(self).rom,
            final(self).sram == old(self).sram,
            final(self).sgb == old(self).sgb,
            final(self).audio_unit == old(self).audio_unit,
            final(self).video_frame == old(self).video_frame,
            final(self).cheats == old(self).cheats,
    {
        self.gpu_mode = GpuMode::VBlank;
        self.gpu_timing.time_in_mode = 0;
        self.memory_access.oam = true;
        self.memory_access.vram = true;
        self.memory.write_io_port(LY_IO_INDEX, 0x00);
        let stat = self.memory.io_ports[STAT_IO_INDEX];
        self.memory.write_io_port(STAT_IO_INDEX, (stat & 0xfc) | 0x01);
    }
}

} // verus!
