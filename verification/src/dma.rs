use vstd::prelude::*;

verus! {

/// State of the OAM DMA transfer.
#[derive(Clone, Copy, Debug)]
pub struct OamDmaState {
    pub pending_source_high: Option<u8>,
    pub source_high: u8,
    pub next_index: u8,
    pub active: bool,
}

impl OamDmaState {
    /// No OAM transfer is pending or running.
    pub open spec fn is_idle(self) -> bool {
        self.pending_source_high is None && self.source_high == 0 && self.next_index == 0
            && !self.active
    }
}

impl Default for OamDmaState {
    fn default() -> (oam: Self)
        ensures
            oam.is_idle(),
    {
        OamDmaState { pending_source_high: None, source_high: 0, next_index: 0, active: false }
    }
}

/// State of the CGB VRAM DMA transfer.
#[derive(Clone, Copy, Debug)]
pub struct VramDmaState {
    pub cpu_halt_m_cycles: i32,
}

impl Default for VramDmaState {
    fn default() -> (vram: Self)
        ensures
            vram.cpu_halt_m_cycles == 0,
    {
        VramDmaState { cpu_halt_m_cycles: 0 }
    }
}

/// State of both DMA engines.
#[derive(Clone, Copy, Debug)]
pub struct DmaState {
    pub oam: OamDmaState,
    pub vram: VramDmaState,
}

impl DmaState {
    /// The state that `default` gives.
    pub open spec fn is_default(&self) -> bool {
        &&& self.oam.is_idle()
        &&& self.vram.cpu_halt_m_cycles == 0
    }
}

impl Default for DmaState {
    fn default() -> (dma: Self)
        ensures
            dma.is_default(),
    {
        DmaState { oam: OamDmaState::default(), vram: VramDmaState::default() }
    }
}

impl DmaState {
    /// A loaded cartridge starts with both DMA engines idle.
    pub fn reset_for_rom_load(&mut self)
        ensures
            final(self).oam.is_idle(),
            final(self).vram.cpu_halt_m_cycles == 0,
    {
        self.oam = OamDmaState::default();
        self.vram = VramDmaState::default();
    }
}

} // verus!
