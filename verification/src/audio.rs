use vstd::prelude::*;

verus! {

/// One of the four sound channels.
#[derive(Clone, Copy, Debug, PartialEq, Eq, Structural)]
pub enum GameBoyAudioChannel {
    Pulse1,
    Pulse2,
    Wave,
    Noise,
}

impl GameBoyAudioChannel {
    /// Position of the channel: pulse 1, pulse 2, wave, noise.
    pub open spec fn spec_index(self) -> nat {
        match self {
            GameBoyAudioChannel::Pulse1 => 0,
            GameBoyAudioChannel::Pulse2 => 1,
            GameBoyAudioChannel::Wave => 2,
            GameBoyAudioChannel::Noise => 3,
        }
    }

    /// Position of the channel: pulse 1, pulse 2, wave, noise.
    pub fn index(self) -> (index: usize)
        ensures
            index == self.spec_index(),
            index < 4,
    {
        match self {
            GameBoyAudioChannel::Pulse1 => 0,
            GameBoyAudioChannel::Pulse2 => 1,
            GameBoyAudioChannel::Wave => 2,
            GameBoyAudioChannel::Noise => 3,
        }
    }

    /// The channel's bit in the sound on/off register: bit `index`.
    pub fn status_bit(self) -> (bit: u8)
        ensures
            bit == match self {
                GameBoyAudioChannel::Pulse1 => 1u8,
                GameBoyAudioChannel::Pulse2 => 2u8,
                GameBoyAudioChannel::Wave => 4u8,
                GameBoyAudioChannel::Noise => 8u8,
            },
    {
        let index = self.index();
        assert(1u8 << 0u8 == 1u8 && 1u8 << 1u8 == 2u8 && 1u8 << 2u8 == 4u8 && 1u8 << 3u8 == 8u8) by (bit_vector);
        1u8 << (index as u8)
    }
}

/// Whether an envelope register leaves the channel's DAC on: any of its top five bits set.
pub fn envelope_dac_enabled(value: u8) -> (enabled: bool)
    ensures
        enabled == (value >= 8),
{
    assert((value & 0xf8 != 0) == (value >= 8)) by (bit_vector);
    value & 0xf8 != 0
}

/// I/O port `index`, or 0 past the ports.
pub fn io(io_ports: &[u8], index: usize) -> (value: u8)
    ensures
        value == if index < io_ports@.len() {
            io_ports@[index as int]
        } else {
            0u8
        },
{
    if index < io_ports.len() {
        io_ports[index]
    } else {
        0
    }
}

} // verus!
