use vstd::prelude::*;

use crate::audio::{envelope_dac_enabled, io, GameBoyAudioChannel};
use crate::constants::GB_CLOCK_HZ;

verus! {

pub const CHANNEL_COUNT: usize = 4;
pub const LENGTH_CLOCK_HZ: u64 = 256;
pub const ENVELOPE_CLOCK_HZ: u64 = 64;

pub const NR10_IO_INDEX: usize = 0x10;
pub const NR11_IO_INDEX: usize = 0x11;
pub const NR12_IO_INDEX: usize = 0x12;
pub const NR13_IO_INDEX: usize = 0x13;
pub const NR14_IO_INDEX: usize = 0x14;
pub const NR21_IO_INDEX: usize = 0x16;
pub const NR22_IO_INDEX: usize = 0x17;
pub const NR23_IO_INDEX: usize = 0x18;
pub const NR24_IO_INDEX: usize = 0x19;
pub const NR30_IO_INDEX: usize = 0x1a;
pub const NR31_IO_INDEX: usize = 0x1b;
pub const NR32_IO_INDEX: usize = 0x1c;
pub const NR33_IO_INDEX: usize = 0x1d;
pub const NR34_IO_INDEX: usize = 0x1e;
pub const NR41_IO_INDEX: usize = 0x20;
pub const NR42_IO_INDEX: usize = 0x21;
pub const NR43_IO_INDEX: usize = 0x22;
pub const NR44_IO_INDEX: usize = 0x23;
pub const NR50_IO_INDEX: usize = 0x24;
pub const NR51_IO_INDEX: usize = 0x25;
pub const NR52_IO_INDEX: usize = 0x26;
pub const WAVE_RAM_START_INDEX: usize = 0x30;
pub const WAVE_RAM_END_INDEX: usize = 0x3f;

/// I/O ports from NR10 to the end of wave RAM, which an event carries with it.
pub const AUDIO_REGISTER_COUNT: usize = 0x30;

pub const TRIGGER_BIT: u8 = 0x80;
pub const LENGTH_ENABLE_BIT: u8 = 0x40;
pub const GLOBAL_AUDIO_ENABLE_BIT: u8 = 0x80;

/// The volume envelope of a channel: its current volume (0 to 15), its direction, and how
/// many clock ticks lie between steps and until the next one.
#[derive(Clone, Copy, Debug, PartialEq, Eq, Structural)]
pub struct EnvelopeState {
    pub volume: u8,
    pub increases: bool,
    pub period_ticks: u64,
    pub ticks_until_step: u64,
    pub active: bool,
}

/// The envelope of a stopped channel.
pub open spec fn idle_envelope() -> EnvelopeState {
    EnvelopeState { volume: 0, increases: false, period_ticks: 0, ticks_until_step: 0, active: false }
}

impl Default for EnvelopeState {
    fn default() -> (envelope: Self)
        ensures
            envelope == idle_envelope(),
    {
        EnvelopeState { volume: 0, increases: false, period_ticks: 0, ticks_until_step: 0, active: false }
    }
}

/// What the audio unit asks its synthesiser to do. Frequencies, volumes, pans and wave
/// samples follow from the register values that the event carries.
#[derive(Clone, Copy, Debug, PartialEq, Eq, Structural)]
pub enum AudioCommand {
    /// Start the channel's note from its registers.
    NoteOn,
    /// Stop the channel's note.
    NoteOff,
    /// The channel's frequency registers may have changed.
    FrequencyRefresh,
    /// The channel's output level or pan may have changed; a stopped channel only takes the
    /// new mix.
    MixRefresh,
    /// The channel's envelope stepped to `envelope_volume`.
    EnvelopeStep,
    /// Wave RAM may have changed.
    Wavetable,
    /// Stop every note.
    AllNotesOff,
}

/// An audio event: the clock tick at which it happens, the channel it concerns, the command,
/// the channel's envelope volume, and, for the commands that read them (note on, frequency,
/// mix and wavetable), the sound registers from NR10 through wave RAM as they stood when it
/// was queued; the other commands carry zeros there.
#[derive(Clone, Copy, Debug)]
pub struct AudioEvent {
    pub tick: u64,
    pub channel: Option<GameBoyAudioChannel>,
    pub command: AudioCommand,
    pub envelope_volume: u8,
    pub registers: [u8; 48],
}

/// Everything about an event but its register values.
pub struct EventHead {
    pub tick: u64,
    pub channel: Option<GameBoyAudioChannel>,
    pub command: AudioCommand,
    pub envelope_volume: u8,
}

pub open spec fn head_of(event: AudioEvent) -> EventHead {
    EventHead {
        tick: event.tick,
        channel: event.channel,
        command: event.command,
        envelope_volume: event.envelope_volume,
    }
}

pub open spec fn make_head(tick: u64, channel: Option<GameBoyAudioChannel>, command: AudioCommand, envelope_volume: u8) -> EventHead {
    EventHead { tick, channel, command, envelope_volume }
}

/// I/O port `index` as the audio unit reads it: 0 past the ports.
pub open spec fn audio_io(io_ports: Seq<u8>, index: int) -> u8 {
    if 0 <= index < io_ports.len() {
        io_ports[index]
    } else {
        0u8
    }
}

/// The sound registers that an event queued with these I/O ports carries.
pub open spec fn register_snapshot(io_ports: Seq<u8>) -> Seq<u8> {
    Seq::new(48, |i: int| audio_io(io_ports, NR10_IO_INDEX + i))
}

/// `after` is `before` with events of the given heads appended, each carrying `registers`.
pub open spec fn events_appended(before: Seq<AudioEvent>, after: Seq<AudioEvent>, heads: Seq<EventHead>, registers: Seq<u8>) -> bool {
    &&& after.len() == before.len() + heads.len()
    &&& forall|i: int| 0 <= i < before.len() ==> #[trigger] after[i] == before[i]
    &&& forall|k: int|
        0 <= k < heads.len() ==> #[trigger] head_of(after[before.len() + k]) == heads[k] && after[before.len()
            + k].registers@ == registers
}

/// The sound unit as far as the console sees it: which channels run, their length timers and
/// volume envelopes, the master switch, and the events for the synthesiser.
#[derive(Debug)]
pub struct AudioUnitState {
    pub cumulative_ticks: u64,
    pub base_running_speed: usize,
    pub global_audio_enable: bool,
    pub running: [bool; 4],
    pub length_enabled: [bool; 4],
    pub length_remaining_ticks: [u64; 4],
    pub envelope: [EnvelopeState; 4],
    pub pending_events: Vec<AudioEvent>,
}

/// The channel at position `index`: pulse 1, pulse 2, wave, noise.
pub open spec fn channel_at(index: int) -> GameBoyAudioChannel {
    if index == 0 {
        GameBoyAudioChannel::Pulse1
    } else if index == 1 {
        GameBoyAudioChannel::Pulse2
    } else if index == 2 {
        GameBoyAudioChannel::Wave
    } else {
        GameBoyAudioChannel::Noise
    }
}

/// `a * b`, or `u64::MAX` where that does not fit.
pub open spec fn saturating_product(a: u64, b: u64) -> u64 {
    if a * b > u64::MAX {
        u64::MAX
    } else {
        (a * b) as u64
    }
}

/// The envelope that an envelope register value sets up at `clock` ticks per second: volume
/// from the top nibble, direction from bit 3, and a step every `period / 64` seconds where
/// the period is the low three bits (0 stops the envelope).
pub open spec fn configured_envelope(clock: u64, value: u8) -> EnvelopeState {
    let period = value & 0x07;
    let period_ticks = if period == 0 {
        0u64
    } else {
        (saturating_product(clock, period as u64) / ENVELOPE_CLOCK_HZ) as u64
    };
    EnvelopeState {
        volume: value >> 4u8,
        increases: value & 0x08 != 0,
        period_ticks,
        ticks_until_step: period_ticks,
        active: period_ticks > 0,
    }
}

/// The length register of a channel, and how many length units it leaves.
pub open spec fn length_units(channel: GameBoyAudioChannel, io_ports: Seq<u8>) -> u64 {
    match channel {
        GameBoyAudioChannel::Pulse1 => (64 - (audio_io(io_ports, NR11_IO_INDEX as int) & 0x3f)) as u64,
        GameBoyAudioChannel::Pulse2 => (64 - (audio_io(io_ports, NR21_IO_INDEX as int) & 0x3f)) as u64,
        GameBoyAudioChannel::Wave => (256 - audio_io(io_ports, NR31_IO_INDEX as int)) as u64,
        GameBoyAudioChannel::Noise => (64 - (audio_io(io_ports, NR41_IO_INDEX as int) & 0x3f)) as u64,
    }
}

/// The length timer that a channel's length register sets at `clock` ticks per second: none
/// where the length counter is off, else the units left at 256 units per second.
pub open spec fn length_timer(enabled: bool, clock: u64, channel: GameBoyAudioChannel, io_ports: Seq<u8>) -> u64 {
    if !enabled {
        0
    } else {
        (saturating_product(length_units(channel, io_ports), clock) / LENGTH_CLOCK_HZ) as u64
    }
}

/// Whether a channel's DAC is on: the envelope registers' top five bits for the pulse and noise
/// channels, bit 7 of NR30 for the wave channel.
pub open spec fn dac_enabled(channel: GameBoyAudioChannel, io_ports: Seq<u8>) -> bool {
    match channel {
        GameBoyAudioChannel::Pulse1 => audio_io(io_ports, NR12_IO_INDEX as int) >= 8,
        GameBoyAudioChannel::Pulse2 => audio_io(io_ports, NR22_IO_INDEX as int) >= 8,
        GameBoyAudioChannel::Wave => audio_io(io_ports, NR30_IO_INDEX as int) & 0x80 != 0,
        GameBoyAudioChannel::Noise => audio_io(io_ports, NR42_IO_INDEX as int) >= 8,
    }
}

/// The envelope register that a channel's trigger reloads, if it has one.
pub open spec fn trigger_envelope_register(channel: GameBoyAudioChannel) -> Option<int> {
    match channel {
        GameBoyAudioChannel::Pulse1 => Some(NR12_IO_INDEX as int),
        GameBoyAudioChannel::Pulse2 => Some(NR22_IO_INDEX as int),
        GameBoyAudioChannel::Wave => None,
        GameBoyAudioChannel::Noise => Some(NR42_IO_INDEX as int),
    }
}

impl AudioUnitState {
    /// Clock ticks per second, at least one.
    pub open spec fn clock(&self) -> u64 {
        if self.base_running_speed as u64 == 0 {
            1
        } else {
            self.base_running_speed as u64
        }
    }

    /// The length timer that a channel's length register sets: none where the length counter
    /// is off, else the units left at 256 units per second.
    pub open spec fn length_ticks(&self, channel: GameBoyAudioChannel, io_ports: Seq<u8>) -> u64 {
        length_timer(self.length_enabled[channel.spec_index() as int], self.clock(), channel, io_ports)
    }

    /// Everything but the channel state and the events is as in `other`.
    pub open spec fn same_settings(&self, other: &Self) -> bool {
        &&& self.cumulative_ticks == other.cumulative_ticks
        &&& self.base_running_speed == other.base_running_speed
        &&& self.global_audio_enable == other.global_audio_enable
    }

    /// The head of an event about `channel` queued now.
    pub open spec fn head_now(&self, channel: GameBoyAudioChannel, command: AudioCommand) -> EventHead {
        make_head(self.cumulative_ticks, Some(channel), command, self.envelope[channel.spec_index() as int].volume)
    }

    /// The channel bits of the sound on/off register: bit `i` while channel `i` runs.
    pub open spec fn spec_channel_status_bits(&self) -> u8 {
        (if self.running[0] { 1u8 } else { 0u8 }) | (if self.running[1] { 2u8 } else { 0u8 }) | (if self.running[2] {
            4u8
        } else {
            0u8
        }) | (if self.running[3] { 8u8 } else { 0u8 })
    }
}

/// The length field of a length register: its low six bits.
fn low_six_bits(value: u8) -> (bits: u8)
    ensures
        bits == value & 0x3f,
        bits < 64,
{
    proof {
        crate::bits::lemma_byte_fields(value);
    }
    value & 0x3f
}

/// Copies the sound registers that events carry.
fn snapshot_registers(io_ports: &[u8]) -> (registers: [u8; 48])
    ensures
        registers@ == register_snapshot(io_ports@),
{
    let mut registers = [0u8; 48];
    let mut i: usize = 0;
    while i < AUDIO_REGISTER_COUNT
        invariant
            i <= AUDIO_REGISTER_COUNT,
            registers@.len() == 48,
            forall|j: int| 0 <= j < i ==> #[trigger] registers@[j] == audio_io(io_ports@, NR10_IO_INDEX + j),
        decreases AUDIO_REGISTER_COUNT - i,
    {
        registers[i] = io(io_ports, NR10_IO_INDEX + i);
        i += 1;
    }
    assert(registers@ =~= register_snapshot(io_ports@));
    registers
}

impl AudioUnitState {
    /// The state that `default` gives.
    pub open spec fn is_default(&self) -> bool {
        &&& self.cumulative_ticks == 0
        &&& self.base_running_speed == GB_CLOCK_HZ as usize
        &&& self.global_audio_enable
        &&& forall|i: int| 0 <= i < 4 ==> !#[trigger] self.running[i]
        &&& forall|i: int| 0 <= i < 4 ==> !#[trigger] self.length_enabled[i]
        &&& forall|i: int| 0 <= i < 4 ==> #[trigger] self.length_remaining_ticks[i] == 0
        &&& forall|i: int| 0 <= i < 4 ==> #[trigger] self.envelope[i] == idle_envelope()
        &&& self.pending_events@.len() == 0
    }
}

impl Default for AudioUnitState {
    fn default() -> (unit: Self)
        ensures
            unit.is_default(),
    {
        AudioUnitState {
            cumulative_ticks: 0,
            base_running_speed: GB_CLOCK_HZ as usize,
            global_audio_enable: true,
            running: [false; 4],
            length_enabled: [false; 4],
            length_remaining_ticks: [0u64; 4],
            envelope: [EnvelopeState::default(); 4],
            pending_events: Vec::new(),
        }
    }
}

impl AudioUnitState {
    /// Clock ticks per second, at least one.
    fn clock_ticks_per_second(&self) -> (clock: u64)
        ensures
            clock == self.clock(),
            clock >= 1,
    {
        let speed = self.base_running_speed as u64;
        if speed == 0 {
            1
        } else {
            speed
        }
    }

    /// Appends an event at tick `tick`.
    fn queue_event_at(
        &mut self,
        tick: u64,
        channel: Option<GameBoyAudioChannel>,
        command: AudioCommand,
        envelope_volume: u8,
        registers: [u8; 48],
    )
        ensures
            final(self).pending_events@ == old(self).pending_events@.push(
                AudioEvent { tick, channel, command, envelope_volume, registers },
            ),
            final(self).same_settings(old(self)),
            final(self).running == old(self).running,
            final(self).length_enabled == old(self).length_enabled,
            final(self).length_remaining_ticks == old(self).length_remaining_ticks,
            final(self).envelope == old(self).envelope,
    {
        self.pending_events.push(AudioEvent { tick, channel, command, envelope_volume, registers });
    }

    /// Appends an event about `channel` at the current tick.
    fn queue_channel_event(&mut self, channel: GameBoyAudioChannel, command: AudioCommand, registers: [u8; 48])
        ensures
            final(self).pending_events@ == old(self).pending_events@.push(
                AudioEvent {
                    tick: old(self).cumulative_ticks,
                    channel: Some(channel),
                    command,
                    envelope_volume: old(self).envelope[channel.spec_index() as int].volume,
                    registers,
                },
            ),
            final(self).same_settings(old(self)),
            final(self).running == old(self).running,
            final(self).length_enabled == old(self).length_enabled,
            final(self).length_remaining_ticks == old(self).length_remaining_ticks,
            final(self).envelope == old(self).envelope,
    {
        let volume = self.envelope[channel.index()].volume;
        self.queue_event_at(self.cumulative_ticks, Some(channel), command, volume, registers);
    }

    /// The channel bits of the sound on/off register: bit `i` while channel `i` runs.
    pub fn channel_status_bits(&self) -> (bits: u8)
        ensures
            bits == self.spec_channel_status_bits(),
            bits < 16,
    {
        let r0 = self.running[0];
        let r1 = self.running[1];
        let r2 = self.running[2];
        let r3 = self.running[3];
        let bits = (if r0 {
            1u8
        } else {
            0u8
        }) | (if r1 {
            2u8
        } else {
            0u8
        }) | (if r2 {
            4u8
        } else {
            0u8
        }) | (if r3 {
            8u8
        } else {
            0u8
        });
        assert((if r0 { 1u8 } else { 0u8 }) | (if r1 { 2u8 } else { 0u8 }) | (if r2 { 4u8 } else { 0u8 }) | (if r3 {
            8u8
        } else {
            0u8
        }) < 16) by (bit_vector);
        bits
    }

    /// Hands over the queued events, oldest first, and empties the queue.
    pub fn drain_pending_events(&mut self) -> (events: Vec<AudioEvent>)
        ensures
            events@ == old(self).pending_events@,
            final(self).pending_events@.len() == 0,
            final(self).same_settings(old(self)),
            final(self).running == old(self).running,
            final(self).length_enabled == old(self).length_enabled,
            final(self).length_remaining_ticks == old(self).length_remaining_ticks,
            final(self).envelope == old(self).envelope,
    {
        let mut events = Vec::new();
        std::mem::swap(&mut events, &mut self.pending_events);
        events
    }

    /// `after` is the audio unit as a cartridge load at `clock_frequency_hz` leaves it.
    pub open spec fn reset_for_load(after: &AudioUnitState, clock_frequency_hz: i64) -> bool {
        &&& after.cumulative_ticks == 0
        &&& after.global_audio_enable
        &&& after.base_running_speed == if 0 <= clock_frequency_hz <= usize::MAX {
            clock_frequency_hz as usize
        } else {
            GB_CLOCK_HZ as usize
        }
        &&& forall|i: int| 0 <= i < 4 ==> !#[trigger] after.running[i]
        &&& forall|i: int| 0 <= i < 4 ==> !#[trigger] after.length_enabled[i]
        &&& forall|i: int| 0 <= i < 4 ==> #[trigger] after.length_remaining_ticks[i] == 0
        &&& forall|i: int| 0 <= i < 4 ==> #[trigger] after.envelope[i] == idle_envelope()
        &&& after.pending_events@.len() == 1
        &&& head_of(after.pending_events@[0]) == make_head(0, None, AudioCommand::AllNotesOff, 0)
        &&& after.pending_events@[0].registers@ == Seq::new(48, |i: int| 0u8)
    }

    /// Silences everything for a newly loaded cartridge that runs at `clock_frequency_hz`,
    /// keeping the master switch on, and asks the synthesiser to stop every note.
    pub fn reset_for_rom_load(&mut self, clock_frequency_hz: i64)
        ensures
            AudioUnitState::reset_for_load(final(self), clock_frequency_hz),
    {
        self.cumulative_ticks = 0;
        self.global_audio_enable = true;
        self.running = [false; 4];
        self.length_enabled = [false; 4];
        self.length_remaining_ticks = [0u64; 4];
        self.envelope = [EnvelopeState::default(); 4];
        self.pending_events.clear();
        self.base_running_speed = if 0 <= clock_frequency_hz && clock_frequency_hz as u64 <= usize::MAX as u64 {
            clock_frequency_hz as usize
        } else {
            GB_CLOCK_HZ as usize
        };
        let registers = [0u8; 48];
        assert(registers@ =~= Seq::new(48, |i: int| 0u8));
        self.queue_event_at(0, None, AudioCommand::AllNotesOff, 0, registers);
    }
}

/// Forty-eight zero bytes: the registers of an event that reads none.
pub open spec fn no_registers() -> Seq<u8> {
    Seq::new(48, |i: int| 0u8)
}

/// `a + b`, or `u64::MAX` where that does not fit.
pub open spec fn saturating_sum(a: u64, b: u64) -> u64 {
    if a + b > u64::MAX {
        u64::MAX
    } else {
        (a + b) as u64
    }
}

/// The volume after one envelope step: up to at most 15, or down to at least 0.
pub open spec fn stepped_volume(envelope: EnvelopeState) -> u8 {
    if envelope.increases {
        if envelope.volume >= 15 {
            15u8
        } else {
            (envelope.volume + 1) as u8
        }
    } else {
        if envelope.volume == 0 {
            0u8
        } else {
            (envelope.volume - 1) as u8
        }
    }
}

/// An envelope run for `ticks` clock ticks from tick `tick`: the envelope afterwards, and the
/// volume steps taken as events on `channel`. It stops for good once a step would not change
/// the volume.
pub open spec fn envelope_run(envelope: EnvelopeState, channel: GameBoyAudioChannel, tick: u64, ticks: u64) -> (EnvelopeState, Seq<EventHead>)
    decreases ticks,
{
    if !envelope.active || envelope.period_ticks == 0 || envelope.ticks_until_step == 0 {
        (envelope, Seq::empty())
    } else if ticks < envelope.ticks_until_step {
        (EnvelopeState { ticks_until_step: (envelope.ticks_until_step - ticks) as u64, ..envelope }, Seq::empty())
    } else {
        let step_tick = saturating_sum(tick, envelope.ticks_until_step);
        let next_volume = stepped_volume(envelope);
        if next_volume == envelope.volume {
            (EnvelopeState { active: false, ..envelope }, Seq::empty())
        } else {
            let stepped = EnvelopeState { volume: next_volume, ticks_until_step: envelope.period_ticks, ..envelope };
            let rest = envelope_run(stepped, channel, step_tick, (ticks - envelope.ticks_until_step) as u64);
            (rest.0, seq![make_head(step_tick, Some(channel), AudioCommand::EnvelopeStep, next_volume)] + rest.1)
        }
    }
}

/// An envelope that can step: its volume is at most 15, and while it runs it steps every
/// `period_ticks` ticks, the next step at most that far away.
pub open spec fn envelope_wf(envelope: EnvelopeState) -> bool {
    &&& envelope.volume <= 15
    &&& envelope.active ==> envelope.period_ticks > 0 && 0 < envelope.ticks_until_step <= envelope.period_ticks
}

impl AudioUnitState {
    /// Every envelope can step.
    pub open spec fn wf(&self) -> bool {
        forall|i: int| 0 <= i < 4 ==> envelope_wf(#[trigger] self.envelope[i])
    }

    /// Whether every envelope can step, as `wf` says.
    pub fn envelopes_can_step(&self) -> (ok: bool)
        ensures
            ok == self.wf(),
    {
        let mut i: usize = 0;
        while i < 4
            invariant
                i <= 4,
                forall|j: int| 0 <= j < i ==> envelope_wf(#[trigger] self.envelope[j]),
            decreases 4 - i,
        {
            let envelope = self.envelope[i];
            if envelope.volume > 15 {
                return false;
            }
            if envelope.active && !(envelope.period_ticks > 0 && 0 < envelope.ticks_until_step
                && envelope.ticks_until_step <= envelope.period_ticks) {
                return false;
            }
            i += 1;
        }
        true
    }

    /// `new` is `self` with channel `i` stopped: a running channel loses its length timer and
    /// envelope and gets a note off; a stopped one is left alone.
    pub open spec fn stopped_into(&self, new: &Self, i: int) -> bool {
        &&& new.same_settings(self)
        &&& new.length_enabled == self.length_enabled
        &&& if self.running[i] {
            &&& new.running@ == self.running@.update(i, false)
            &&& new.length_remaining_ticks@ == self.length_remaining_ticks@.update(i, 0)
            &&& new.envelope@ == self.envelope@.update(i, idle_envelope())
            &&& events_appended(
                self.pending_events@,
                new.pending_events@,
                seq![self.head_now(channel_at(i), AudioCommand::NoteOff)],
                no_registers(),
            )
        } else {
            &&& new.running == self.running
            &&& new.length_remaining_ticks == self.length_remaining_ticks
            &&& new.envelope == self.envelope
            &&& new.pending_events@ == self.pending_events@
        }
    }

    /// Only the events changed, by `heads` appended with `registers`.
    pub open spec fn only_events_into(&self, new: &Self, heads: Seq<EventHead>, registers: Seq<u8>) -> bool {
        &&& new.same_settings(self)
        &&& new.running == self.running
        &&& new.length_enabled == self.length_enabled
        &&& new.length_remaining_ticks == self.length_remaining_ticks
        &&& new.envelope == self.envelope
        &&& events_appended(self.pending_events@, new.pending_events@, heads, registers)
    }
}

impl AudioUnitState {
    fn stop_channel(&mut self, channel: GameBoyAudioChannel)
        requires
            old(self).wf(),
        ensures
            final(self).wf(),
            old(self).stopped_into(final(self), channel.spec_index() as int),
    {
        let index = channel.index();
        if !self.running[index] {
            return ;
        }
        let volume = self.envelope[index].volume;
        self.running[index] = false;
        self.length_remaining_ticks[index] = 0;
        self.envelope[index] = EnvelopeState::default();
        let ghost mid = self.pending_events@;
        let registers = [0u8; 48];
        assert(registers@ =~= no_registers());
        self.queue_event_at(self.cumulative_ticks, Some(channel), AudioCommand::NoteOff, volume, registers);
        proof {
            assert(channel_at(index as int) == channel);
            assert(self.running@ =~= old(self).running@.update(index as int, false));
            assert(self.length_remaining_ticks@ =~= old(self).length_remaining_ticks@.update(index as int, 0));
            assert(self.envelope@ =~= old(self).envelope@.update(index as int, idle_envelope()));
            let heads = seq![old(self).head_now(channel_at(index as int), AudioCommand::NoteOff)];
            assert(head_of(self.pending_events@[mid.len() as int]) == heads[0]);
        }
    }

    /// Sets up a channel's envelope from an envelope register value.
    fn configure_envelope(&mut self, channel: GameBoyAudioChannel, value: u8)
        requires
            old(self).wf(),
        ensures
            final(self).wf(),
            final(self).envelope@ == old(self).envelope@.update(
                channel.spec_index() as int,
                configured_envelope(old(self).clock(), value),
            ),
            final(self).same_settings(old(self)),
            final(self).running == old(self).running,
            final(self).length_enabled == old(self).length_enabled,
            final(self).length_remaining_ticks == old(self).length_remaining_ticks,
            final(self).pending_events == old(self).pending_events,
    {
        let period = value & 0x07;
        let period_ticks: u64 = if period == 0 {
            0
        } else {
            let clock = self.clock_ticks_per_second();
            let product = match clock.checked_mul(period as u64) {
                Some(product) => product,
                None => u64::MAX,
            };
            product / ENVELOPE_CLOCK_HZ
        };
        proof {
            crate::bits::lemma_byte_fields(value);
        }
        self.envelope[channel.index()] = EnvelopeState {
            volume: value >> 4,
            increases: value & 0x08 != 0,
            period_ticks,
            ticks_until_step: period_ticks,
            active: period_ticks > 0,
        };
        assert(self.envelope@ =~= old(self).envelope@.update(
            channel.spec_index() as int,
            configured_envelope(old(self).clock(), value),
        ));
    }

    /// Reloads a channel's length timer from its length register.
    fn refresh_length_from_register(&mut self, channel: GameBoyAudioChannel, io_ports: &[u8])
        ensures
            final(self).length_remaining_ticks@ == old(self).length_remaining_ticks@.update(
                channel.spec_index() as int,
                old(self).length_ticks(channel, io_ports@),
            ),
            final(self).same_settings(old(self)),
            final(self).running == old(self).running,
            final(self).length_enabled == old(self).length_enabled,
            final(self).envelope == old(self).envelope,
            final(self).pending_events == old(self).pending_events,
    {
        let index = channel.index();
        if !self.length_enabled[index] {
            self.length_remaining_ticks[index] = 0;
            assert(self.length_remaining_ticks@ =~= old(self).length_remaining_ticks@.update(index as int, 0));
            return ;
        }
        let units: u64 = match channel {
            GameBoyAudioChannel::Pulse1 => 64 - low_six_bits(io(io_ports, NR11_IO_INDEX)) as u64,
            GameBoyAudioChannel::Pulse2 => 64 - low_six_bits(io(io_ports, NR21_IO_INDEX)) as u64,
            GameBoyAudioChannel::Wave => 256 - io(io_ports, NR31_IO_INDEX) as u64,
            GameBoyAudioChannel::Noise => 64 - low_six_bits(io(io_ports, NR41_IO_INDEX)) as u64,
        };
        let clock = self.clock_ticks_per_second();
        let product = match units.checked_mul(clock) {
            Some(product) => product,
            None => u64::MAX,
        };
        self.length_remaining_ticks[index] = product / LENGTH_CLOCK_HZ;
        assert(self.length_remaining_ticks@ =~= old(self).length_remaining_ticks@.update(
            index as int,
            old(self).length_ticks(channel, io_ports@),
        ));
    }

    /// Asks the synthesiser to check a running channel's frequency.
    fn refresh_frequency(&mut self, channel: GameBoyAudioChannel, io_ports: &[u8])
        ensures
            old(self).only_events_into(
                final(self),
                if old(self).running[channel.spec_index() as int] {
                    seq![old(self).head_now(channel, AudioCommand::FrequencyRefresh)]
                } else {
                    Seq::empty()
                },
                register_snapshot(io_ports@),
            ),
    {
        if !self.running[channel.index()] {
            return ;
        }
        let registers = snapshot_registers(io_ports);
        self.queue_channel_event(channel, AudioCommand::FrequencyRefresh, registers);
        assert(head_of(self.pending_events@[old(self).pending_events@.len() as int]) == old(self).head_now(
            channel,
            AudioCommand::FrequencyRefresh,
        ));
    }

    /// Asks the synthesiser to take a channel's output level and pan from the registers.
    fn queue_mix_update(&mut self, channel: GameBoyAudioChannel, io_ports: &[u8])
        ensures
            old(self).only_events_into(
                final(self),
                seq![old(self).head_now(channel, AudioCommand::MixRefresh)],
                register_snapshot(io_ports@),
            ),
    {
        let registers = snapshot_registers(io_ports);
        self.queue_channel_event(channel, AudioCommand::MixRefresh, registers);
        assert(head_of(self.pending_events@[old(self).pending_events@.len() as int]) == old(self).head_now(
            channel,
            AudioCommand::MixRefresh,
        ));
    }

    /// Asks the synthesiser to take every channel's output level and pan from the registers.
    fn queue_all_mix_updates(&mut self, io_ports: &[u8])
        ensures
            old(self).only_events_into(
                final(self),
                seq![
                    old(self).head_now(GameBoyAudioChannel::Pulse1, AudioCommand::MixRefresh),
                    old(self).head_now(GameBoyAudioChannel::Pulse2, AudioCommand::MixRefresh),
                    old(self).head_now(GameBoyAudioChannel::Wave, AudioCommand::MixRefresh),
                    old(self).head_now(GameBoyAudioChannel::Noise, AudioCommand::MixRefresh),
                ],
                register_snapshot(io_ports@),
            ),
    {
        let ghost start = self.pending_events@;
        self.queue_mix_update(GameBoyAudioChannel::Pulse1, io_ports);
        let ghost s1 = self.pending_events@;
        self.queue_mix_update(GameBoyAudioChannel::Pulse2, io_ports);
        let ghost s2 = self.pending_events@;
        self.queue_mix_update(GameBoyAudioChannel::Wave, io_ports);
        let ghost s3 = self.pending_events@;
        self.queue_mix_update(GameBoyAudioChannel::Noise, io_ports);
        proof {
            let n = start.len() as int;
            let heads = seq![
                old(self).head_now(GameBoyAudioChannel::Pulse1, AudioCommand::MixRefresh),
                old(self).head_now(GameBoyAudioChannel::Pulse2, AudioCommand::MixRefresh),
                old(self).head_now(GameBoyAudioChannel::Wave, AudioCommand::MixRefresh),
                old(self).head_now(GameBoyAudioChannel::Noise, AudioCommand::MixRefresh),
            ];
            let after = self.pending_events@;
            assert(head_of(s1[n + 0]) == heads[0] && s1[n + 0].registers@ == register_snapshot(io_ports@));
            assert(s1.len() == n + 1 && s2.len() == n + 2 && s3.len() == n + 3);
            assert(head_of(s2[s1.len() + 0int]) == heads[1] && s2[s1.len() + 0int].registers@ == register_snapshot(io_ports@));
            assert(head_of(s3[s2.len() + 0int]) == heads[2] && s3[s2.len() + 0int].registers@ == register_snapshot(io_ports@));
            assert(head_of(after[s3.len() + 0int]) == heads[3]);
            assert(head_of(after[n + 3]) == heads[3] && after[n + 3].registers@ == register_snapshot(io_ports@));
            assert(after[n + 0] == s3[n + 0] && s3[n + 0] == s2[n + 0] && s2[n + 0] == s1[n + 0]);
            assert(after[n + 1] == s3[n + 1] && s3[n + 1] == s2[n + 1]);
            assert(after[n + 2] == s3[n + 2]);
            assert forall|i: int| 0 <= i < n implies #[trigger] after[i] == start[i] by {
                assert(s1[i] == start[i]);
                assert(s2[i] == s1[i]);
                assert(s3[i] == s2[i]);
            }
            assert forall|k: int| 0 <= k < heads.len() implies #[trigger] head_of(after[n + k]) == heads[k] && after[n
                + k].registers@ == register_snapshot(io_ports@) by {
                if k == 0 {
                } else if k == 1 {
                } else if k == 2 {
                } else {
                }
            }
        }
    }

    /// Asks the synthesiser to take the wave channel's samples from wave RAM.
    fn queue_wavetable_update(&mut self, io_ports: &[u8])
        ensures
            old(self).only_events_into(
                final(self),
                seq![old(self).head_now(GameBoyAudioChannel::Wave, AudioCommand::Wavetable)],
                register_snapshot(io_ports@),
            ),
    {
        let registers = snapshot_registers(io_ports);
        self.queue_channel_event(GameBoyAudioChannel::Wave, AudioCommand::Wavetable, registers);
        assert(head_of(self.pending_events@[old(self).pending_events@.len() as int]) == old(self).head_now(
            GameBoyAudioChannel::Wave,
            AudioCommand::Wavetable,
        ));
    }
}

impl AudioUnitState {
    /// `new` is `self` after a write to a channel's envelope register: a switched-off DAC stops
    /// the channel; a running channel takes the new envelope and refreshes its mix.
    pub open spec fn envelope_written_into(&self, new: &Self, channel: GameBoyAudioChannel, value: u8, io_ports: Seq<u8>) -> bool {
        let i = channel.spec_index() as int;
        if value < 8 {
            self.stopped_into(new, i)
        } else if self.running[i] {
            let envelope = configured_envelope(self.clock(), value);
            &&& new.same_settings(self)
            &&& new.running == self.running
            &&& new.length_enabled == self.length_enabled
            &&& new.length_remaining_ticks == self.length_remaining_ticks
            &&& new.envelope@ == self.envelope@.update(i, envelope)
            &&& events_appended(
                self.pending_events@,
                new.pending_events@,
                seq![make_head(self.cumulative_ticks, Some(channel), AudioCommand::MixRefresh, envelope.volume)],
                register_snapshot(io_ports),
            )
        } else {
            self.only_events_into(new, Seq::empty(), register_snapshot(io_ports))
        }
    }

    /// The envelope a channel has after a trigger with these registers.
    pub open spec fn trigger_envelope(&self, channel: GameBoyAudioChannel, io_ports: Seq<u8>) -> EnvelopeState {
        match trigger_envelope_register(channel) {
            Some(register) => configured_envelope(self.clock(), audio_io(io_ports, register)),
            None => self.envelope[channel.spec_index() as int],
        }
    }

    /// The events of a trigger: the wave channel first reloads its samples, then the note
    /// starts, both at the triggered envelope's volume.
    pub open spec fn trigger_heads(&self, channel: GameBoyAudioChannel, io_ports: Seq<u8>) -> Seq<EventHead> {
        let volume = self.trigger_envelope(channel, io_ports).volume;
        let note = seq![make_head(self.cumulative_ticks, Some(channel), AudioCommand::NoteOn, volume)];
        if channel == GameBoyAudioChannel::Wave {
            seq![make_head(self.cumulative_ticks, Some(channel), AudioCommand::Wavetable, volume)] + note
        } else {
            note
        }
    }

    /// `new` is `self` after a trigger of `channel` with its length counter `enabled`: with
    /// the DAC off the channel stops; else it runs with a reloaded envelope and length timer
    /// and the note starts.
    pub open spec fn triggered_into(&self, new: &Self, channel: GameBoyAudioChannel, io_ports: Seq<u8>) -> bool {
        let i = channel.spec_index() as int;
        if !dac_enabled(channel, io_ports) {
            self.stopped_into(new, i)
        } else {
            &&& new.same_settings(self)
            &&& new.running@ == self.running@.update(i, true)
            &&& new.length_enabled == self.length_enabled
            &&& new.length_remaining_ticks@ == self.length_remaining_ticks@.update(i, self.length_ticks(channel, io_ports))
            &&& new.envelope@ == self.envelope@.update(i, self.trigger_envelope(channel, io_ports))
            &&& events_appended(
                self.pending_events@,
                new.pending_events@,
                self.trigger_heads(channel, io_ports),
                register_snapshot(io_ports),
            )
        }
    }
}

impl AudioUnitState {
    /// A write to a channel's envelope register.
    fn write_envelope_register(&mut self, channel: GameBoyAudioChannel, value: u8, io_ports: &[u8])
        requires
            old(self).wf(),
        ensures
            final(self).wf(),
            old(self).envelope_written_into(final(self), channel, value, io_ports@),
    {
        if !envelope_dac_enabled(value) {
            self.stop_channel(channel);
            return ;
        }
        if self.running[channel.index()] {
            self.configure_envelope(channel, value);
            self.queue_mix_update(channel, io_ports);
        } else {
            assert(self.pending_events@ =~= old(self).pending_events@);
        }
    }

    /// Starts a channel from its registers, or stops it where its DAC is off.
    fn trigger_channel(&mut self, channel: GameBoyAudioChannel, io_ports: &[u8])
        requires
            old(self).wf(),
        ensures
            final(self).wf(),
            old(self).triggered_into(final(self), channel, io_ports@),
    {
        let dac_on = match channel {
            GameBoyAudioChannel::Pulse1 => envelope_dac_enabled(io(io_ports, NR12_IO_INDEX)),
            GameBoyAudioChannel::Pulse2 => envelope_dac_enabled(io(io_ports, NR22_IO_INDEX)),
            GameBoyAudioChannel::Wave => io(io_ports, NR30_IO_INDEX) & 0x80 != 0,
            GameBoyAudioChannel::Noise => envelope_dac_enabled(io(io_ports, NR42_IO_INDEX)),
        };
        if !dac_on {
            self.stop_channel(channel);
            return ;
        }
        let index = channel.index();
        self.running[index] = true;
        match channel {
            GameBoyAudioChannel::Pulse1 => self.configure_envelope(channel, io(io_ports, NR12_IO_INDEX)),
            GameBoyAudioChannel::Pulse2 => self.configure_envelope(channel, io(io_ports, NR22_IO_INDEX)),
            GameBoyAudioChannel::Wave => {},
            GameBoyAudioChannel::Noise => self.configure_envelope(channel, io(io_ports, NR42_IO_INDEX)),
        }
        self.refresh_length_from_register(channel, io_ports);
        let ghost before_events = self.pending_events@;
        assert(before_events == old(self).pending_events@);
        assert(self.envelope[index as int] == old(self).trigger_envelope(channel, io_ports@));
        if channel == GameBoyAudioChannel::Wave {
            self.queue_wavetable_update(io_ports);
        }
        let ghost mid_events = self.pending_events@;
        let registers = snapshot_registers(io_ports);
        self.queue_channel_event(channel, AudioCommand::NoteOn, registers);
        proof {
            let heads = old(self).trigger_heads(channel, io_ports@);
            let n = before_events.len() as int;
            let after = self.pending_events@;
            assert(self.running@ =~= old(self).running@.update(index as int, true));
            if channel == GameBoyAudioChannel::Wave {
                assert(mid_events.len() == n + 1);
                assert(head_of(mid_events[n + 0]) == heads[0]);
                assert(after[n + 0] == mid_events[n + 0]);
                assert(head_of(after[n + 1]) == heads[1]);
                assert forall|k: int| 0 <= k < heads.len() implies #[trigger] head_of(after[n + k]) == heads[k]
                    && after[n + k].registers@ == register_snapshot(io_ports@) by {
                    if k == 0 {
                    } else {
                    }
                }
            } else {
                assert(mid_events == before_events);
                assert(head_of(after[n + 0]) == heads[0]);
            }
            assert forall|i: int| 0 <= i < n implies #[trigger] after[i] == old(self).pending_events@[i] by {
                assert(after[i] == mid_events[i]);
            }
            assert(self.length_remaining_ticks@ =~= old(self).length_remaining_ticks@.update(
                index as int,
                old(self).length_ticks(channel, io_ports@),
            ));
            assert(self.envelope@ =~= old(self).envelope@.update(index as int, old(self).trigger_envelope(channel, io_ports@)));
        }
    }
}

impl AudioUnitState {
    /// `new` is `self` after a write to a channel's frequency-high register: bit 6 switches the
    /// length counter (a running channel with an empty timer reloads it), and bit 7 triggers.
    pub open spec fn trigger_written_into(&self, new: &Self, channel: GameBoyAudioChannel, value: u8, io_ports: Seq<u8>) -> bool {
        let i = channel.spec_index() as int;
        let enabled = value & LENGTH_ENABLE_BIT != 0;
        let reloaded = self.running[i] && enabled && self.length_remaining_ticks[i] == 0;
        let remaining = if reloaded {
            length_timer(enabled, self.clock(), channel, io_ports)
        } else {
            self.length_remaining_ticks[i]
        };
        if value & TRIGGER_BIT == 0 {
            &&& new.same_settings(self)
            &&& new.running == self.running
            &&& new.length_enabled@ == self.length_enabled@.update(i, enabled)
            &&& new.length_remaining_ticks@ == self.length_remaining_ticks@.update(i, remaining)
            &&& new.envelope == self.envelope
            &&& new.pending_events@ == self.pending_events@
        } else if !dac_enabled(channel, io_ports) {
            &&& new.same_settings(self)
            &&& new.length_enabled@ == self.length_enabled@.update(i, enabled)
            &&& if self.running[i] {
                &&& new.running@ == self.running@.update(i, false)
                &&& new.length_remaining_ticks@ == self.length_remaining_ticks@.update(i, 0)
                &&& new.envelope@ == self.envelope@.update(i, idle_envelope())
                &&& events_appended(
                    self.pending_events@,
                    new.pending_events@,
                    seq![self.head_now(channel, AudioCommand::NoteOff)],
                    no_registers(),
                )
            } else {
                &&& new.running == self.running
                &&& new.length_remaining_ticks == self.length_remaining_ticks
                &&& new.envelope == self.envelope
                &&& new.pending_events@ == self.pending_events@
            }
        } else {
            &&& new.same_settings(self)
            &&& new.running@ == self.running@.update(i, true)
            &&& new.length_enabled@ == self.length_enabled@.update(i, enabled)
            &&& new.length_remaining_ticks@ == self.length_remaining_ticks@.update(
                i,
                length_timer(enabled, self.clock(), channel, io_ports),
            )
            &&& new.envelope@ == self.envelope@.update(i, self.trigger_envelope(channel, io_ports))
            &&& events_appended(
                self.pending_events@,
                new.pending_events@,
                self.trigger_heads(channel, io_ports),
                register_snapshot(io_ports),
            )
        }
    }

    /// `new` is `self` after a write of the master switch: switching it off stops every channel
    /// and every note; writing the state it is already in changes nothing.
    pub open spec fn master_switch_written_into(&self, new: &Self, value: u8) -> bool {
        let enabled = value & GLOBAL_AUDIO_ENABLE_BIT != 0;
        if self.global_audio_enable == enabled {
            &&& new.same_settings(self)
            &&& new.running == self.running
            &&& new.length_enabled == self.length_enabled
            &&& new.length_remaining_ticks == self.length_remaining_ticks
            &&& new.envelope == self.envelope
            &&& new.pending_events@ == self.pending_events@
        } else if enabled {
            &&& new.global_audio_enable
            &&& new.cumulative_ticks == self.cumulative_ticks
            &&& new.base_running_speed == self.base_running_speed
            &&& new.running == self.running
            &&& new.length_enabled == self.length_enabled
            &&& new.length_remaining_ticks == self.length_remaining_ticks
            &&& new.envelope == self.envelope
            &&& new.pending_events@ == self.pending_events@
        } else {
            &&& !new.global_audio_enable
            &&& new.cumulative_ticks == self.cumulative_ticks
            &&& new.base_running_speed == self.base_running_speed
            &&& forall|i: int| 0 <= i < 4 ==> !#[trigger] new.running[i]
            &&& new.length_enabled == self.length_enabled
            &&& forall|i: int| 0 <= i < 4 ==> #[trigger] new.length_remaining_ticks[i] == 0
            &&& forall|i: int| 0 <= i < 4 ==> #[trigger] new.envelope[i] == idle_envelope()
            &&& events_appended(
                self.pending_events@,
                new.pending_events@,
                seq![make_head(self.cumulative_ticks, None, AudioCommand::AllNotesOff, 0)],
                no_registers(),
            )
        }
    }

    /// `new` is `self` after the sound register at I/O index `index` was written with `value`,
    /// the I/O ports already holding the write.
    pub open spec fn register_written_into(&self, new: &Self, index: usize, value: u8, io_ports: Seq<u8>) -> bool {
        let snapshot = register_snapshot(io_ports);
        if index == NR52_IO_INDEX {
            self.master_switch_written_into(new, value)
        } else if WAVE_RAM_START_INDEX <= index <= WAVE_RAM_END_INDEX {
            self.only_events_into(new, seq![self.head_now(GameBoyAudioChannel::Wave, AudioCommand::Wavetable)], snapshot)
        } else if !self.global_audio_enable {
            self.only_events_into(new, Seq::empty(), snapshot)
        } else if index == NR11_IO_INDEX || index == NR21_IO_INDEX || index == NR31_IO_INDEX || index == NR41_IO_INDEX {
            let channel = if index == NR11_IO_INDEX {
                GameBoyAudioChannel::Pulse1
            } else if index == NR21_IO_INDEX {
                GameBoyAudioChannel::Pulse2
            } else if index == NR31_IO_INDEX {
                GameBoyAudioChannel::Wave
            } else {
                GameBoyAudioChannel::Noise
            };
            &&& new.same_settings(self)
            &&& new.running == self.running
            &&& new.length_enabled == self.length_enabled
            &&& new.length_remaining_ticks@ == self.length_remaining_ticks@.update(
                channel.spec_index() as int,
                self.length_ticks(channel, io_ports),
            )
            &&& new.envelope == self.envelope
            &&& new.pending_events@ == self.pending_events@
        } else if index == NR12_IO_INDEX {
            self.envelope_written_into(new, GameBoyAudioChannel::Pulse1, value, io_ports)
        } else if index == NR22_IO_INDEX {
            self.envelope_written_into(new, GameBoyAudioChannel::Pulse2, value, io_ports)
        } else if index == NR42_IO_INDEX {
            self.envelope_written_into(new, GameBoyAudioChannel::Noise, value, io_ports)
        } else if index == NR13_IO_INDEX || index == NR23_IO_INDEX || index == NR33_IO_INDEX || index == NR43_IO_INDEX {
            let channel = if index == NR13_IO_INDEX {
                GameBoyAudioChannel::Pulse1
            } else if index == NR23_IO_INDEX {
                GameBoyAudioChannel::Pulse2
            } else if index == NR33_IO_INDEX {
                GameBoyAudioChannel::Wave
            } else {
                GameBoyAudioChannel::Noise
            };
            self.only_events_into(
                new,
                if self.running[channel.spec_index() as int] {
                    seq![self.head_now(channel, AudioCommand::FrequencyRefresh)]
                } else {
                    Seq::empty()
                },
                snapshot,
            )
        } else if index == NR14_IO_INDEX {
            self.trigger_written_into(new, GameBoyAudioChannel::Pulse1, value, io_ports)
        } else if index == NR24_IO_INDEX {
            self.trigger_written_into(new, GameBoyAudioChannel::Pulse2, value, io_ports)
        } else if index == NR34_IO_INDEX {
            self.trigger_written_into(new, GameBoyAudioChannel::Wave, value, io_ports)
        } else if index == NR44_IO_INDEX {
            self.trigger_written_into(new, GameBoyAudioChannel::Noise, value, io_ports)
        } else if index == NR30_IO_INDEX {
            if value & 0x80 == 0 {
                self.stopped_into(new, 2)
            } else {
                self.only_events_into(new, Seq::empty(), snapshot)
            }
        } else if index == NR32_IO_INDEX {
            self.only_events_into(new, seq![self.head_now(GameBoyAudioChannel::Wave, AudioCommand::MixRefresh)], snapshot)
        } else if index == NR50_IO_INDEX || index == NR51_IO_INDEX {
            self.only_events_into(
                new,
                seq![
                    self.head_now(GameBoyAudioChannel::Pulse1, AudioCommand::MixRefresh),
                    self.head_now(GameBoyAudioChannel::Pulse2, AudioCommand::MixRefresh),
                    self.head_now(GameBoyAudioChannel::Wave, AudioCommand::MixRefresh),
                    self.head_now(GameBoyAudioChannel::Noise, AudioCommand::MixRefresh),
                ],
                snapshot,
            )
        } else {
            self.only_events_into(new, Seq::empty(), snapshot)
        }
    }
}

impl AudioUnitState {
    /// A write to a channel's frequency-high register.
    fn write_trigger_register(&mut self, channel: GameBoyAudioChannel, value: u8, io_ports: &[u8])
        requires
            old(self).wf(),
        ensures
            final(self).wf(),
            old(self).trigger_written_into(final(self), channel, value, io_ports@),
    {
        let index = channel.index();
        self.length_enabled[index] = value & LENGTH_ENABLE_BIT != 0;
        if self.running[index] && self.length_enabled[index] && self.length_remaining_ticks[index] == 0 {
            self.refresh_length_from_register(channel, io_ports);
        }
        assert(self.length_enabled@ =~= old(self).length_enabled@.update(index as int, value & LENGTH_ENABLE_BIT != 0));
        if value & TRIGGER_BIT == 0 {
            proof {
                if !(old(self).running[index as int] && value & LENGTH_ENABLE_BIT != 0
                    && old(self).length_remaining_ticks[index as int] == 0) {
                    assert(self.length_remaining_ticks@ =~= old(self).length_remaining_ticks@.update(
                        index as int,
                        old(self).length_remaining_ticks[index as int],
                    ));
                }
            }
            return ;
        }
        let ghost mid = *self;
        self.trigger_channel(channel, io_ports);
        proof {
            assert(mid.trigger_envelope(channel, io_ports@) == old(self).trigger_envelope(channel, io_ports@));
            assert(mid.trigger_heads(channel, io_ports@) == old(self).trigger_heads(channel, io_ports@));
            if !dac_enabled(channel, io_ports@) && !old(self).running[index as int] {
                assert(self.length_remaining_ticks@ =~= old(self).length_remaining_ticks@);
            }
            if !dac_enabled(channel, io_ports@) && old(self).running[index as int] {
                assert(self.length_remaining_ticks@ =~= old(self).length_remaining_ticks@.update(index as int, 0));
            }
            if dac_enabled(channel, io_ports@) {
                assert(self.length_remaining_ticks@ =~= old(self).length_remaining_ticks@.update(
                    index as int,
                    length_timer(value & LENGTH_ENABLE_BIT != 0, old(self).clock(), channel, io_ports@),
                ));
            }
        }
    }

    /// Switches the sound unit on or off.
    fn write_global_audio_enable(&mut self, value: u8)
        requires
            old(self).wf(),
        ensures
            final(self).wf(),
            old(self).master_switch_written_into(final(self), value),
    {
        let enabled = value & GLOBAL_AUDIO_ENABLE_BIT != 0;
        if self.global_audio_enable == enabled {
            return ;
        }
        self.global_audio_enable = enabled;
        if !enabled {
            self.running = [false; 4];
            self.length_remaining_ticks = [0u64; 4];
            self.envelope = [EnvelopeState::default(); 4];
            let registers = [0u8; 48];
            assert(registers@ =~= no_registers());
            self.queue_event_at(self.cumulative_ticks, None, AudioCommand::AllNotesOff, 0, registers);
            assert(head_of(self.pending_events@[old(self).pending_events@.len() as int]) == make_head(
                old(self).cumulative_ticks,
                None,
                AudioCommand::AllNotesOff,
                0,
            ));
        }
    }

    /// Applies a write of `value` to the sound register at I/O index `index`; `io_ports`
    /// already holds the write.
    pub fn write_register(&mut self, index: usize, value: u8, io_ports: &[u8])
        requires
            old(self).wf(),
        ensures
            final(self).wf(),
            old(self).register_written_into(final(self), index, value, io_ports@),
    {
        if index == NR52_IO_INDEX {
            self.write_global_audio_enable(value);
            return ;
        }
        if WAVE_RAM_START_INDEX <= index && index <= WAVE_RAM_END_INDEX {
            self.queue_wavetable_update(io_ports);
            return ;
        }
        if !self.global_audio_enable {
            assert(self.pending_events@ =~= old(self).pending_events@);
            return ;
        }
        if index == NR11_IO_INDEX {
            self.refresh_length_from_register(GameBoyAudioChannel::Pulse1, io_ports);
        } else if index == NR12_IO_INDEX {
            self.write_envelope_register(GameBoyAudioChannel::Pulse1, value, io_ports);
        } else if index == NR13_IO_INDEX {
            self.refresh_frequency(GameBoyAudioChannel::Pulse1, io_ports);
        } else if index == NR14_IO_INDEX {
            self.write_trigger_register(GameBoyAudioChannel::Pulse1, value, io_ports);
        } else if index == NR21_IO_INDEX {
            self.refresh_length_from_register(GameBoyAudioChannel::Pulse2, io_ports);
        } else if index == NR22_IO_INDEX {
            self.write_envelope_register(GameBoyAudioChannel::Pulse2, value, io_ports);
        } else if index == NR23_IO_INDEX {
            self.refresh_frequency(GameBoyAudioChannel::Pulse2, io_ports);
        } else if index == NR24_IO_INDEX {
            self.write_trigger_register(GameBoyAudioChannel::Pulse2, value, io_ports);
        } else if index == NR30_IO_INDEX {
            if value & 0x80 == 0 {
                self.stop_channel(GameBoyAudioChannel::Wave);
            } else {
                assert(self.pending_events@ =~= old(self).pending_events@);
            }
        } else if index == NR31_IO_INDEX {
            self.refresh_length_from_register(GameBoyAudioChannel::Wave, io_ports);
        } else if index == NR32_IO_INDEX {
            self.queue_mix_update(GameBoyAudioChannel::Wave, io_ports);
        } else if index == NR33_IO_INDEX {
            self.refresh_frequency(GameBoyAudioChannel::Wave, io_ports);
        } else if index == NR34_IO_INDEX {
            self.write_trigger_register(GameBoyAudioChannel::Wave, value, io_ports);
        } else if index == NR41_IO_INDEX {
            self.refresh_length_from_register(GameBoyAudioChannel::Noise, io_ports);
        } else if index == NR42_IO_INDEX {
            self.write_envelope_register(GameBoyAudioChannel::Noise, value, io_ports);
        } else if index == NR43_IO_INDEX {
            self.refresh_frequency(GameBoyAudioChannel::Noise, io_ports);
        } else if index == NR44_IO_INDEX {
            self.write_trigger_register(GameBoyAudioChannel::Noise, value, io_ports);
        } else if index == NR50_IO_INDEX || index == NR51_IO_INDEX {
            self.queue_all_mix_updates(io_ports);
        } else {
            assert(self.pending_events@ =~= old(self).pending_events@);
        }
    }
}

/// A channel after `ticks` clock ticks from tick `start`: whether it runs, its length timer,
/// its envelope, and the events it gives. A running channel's envelope steps until the length
/// timer runs out, and a timer that runs out stops the channel with a note off.
pub open spec fn channel_run(
    running: bool,
    length_enabled: bool,
    remaining: u64,
    envelope: EnvelopeState,
    channel: GameBoyAudioChannel,
    start: u64,
    ticks: u64,
) -> (bool, u64, EnvelopeState, Seq<EventHead>) {
    if !running {
        (running, remaining, envelope, Seq::empty())
    } else {
        let timed = length_enabled && remaining != 0;
        let active = if timed && remaining < ticks {
            remaining
        } else {
            ticks
        };
        let stepped = if active > 0 {
            envelope_run(envelope, channel, start, active)
        } else {
            (envelope, Seq::<EventHead>::empty())
        };
        if !timed {
            (true, remaining, stepped.0, stepped.1)
        } else if remaining > ticks {
            (true, (remaining - ticks) as u64, stepped.0, stepped.1)
        } else {
            (
                false,
                0,
                stepped.0,
                stepped.1 + seq![
                    make_head(saturating_sum(start, remaining), Some(channel), AudioCommand::NoteOff, stepped.0.volume),
                ],
            )
        }
    }
}

impl AudioUnitState {
    /// The run of channel `i` over `ticks` ticks from tick `start`.
    pub open spec fn run_of(&self, i: int, start: u64, ticks: u64) -> (bool, u64, EnvelopeState, Seq<EventHead>) {
        channel_run(
            self.running[i],
            self.length_enabled[i],
            self.length_remaining_ticks[i],
            self.envelope[i],
            channel_at(i),
            start,
            ticks,
        )
    }
}

proof fn lemma_envelope_run_wf(envelope: EnvelopeState, channel: GameBoyAudioChannel, tick: u64, ticks: u64)
    requires
        envelope_wf(envelope),
    ensures
        envelope_wf(envelope_run(envelope, channel, tick, ticks).0),
    decreases ticks,
{
    if !envelope.active || envelope.period_ticks == 0 || envelope.ticks_until_step == 0 {
    } else if ticks < envelope.ticks_until_step {
    } else {
        let step_tick = saturating_sum(tick, envelope.ticks_until_step);
        let next_volume = stepped_volume(envelope);
        if next_volume != envelope.volume {
            let stepped = EnvelopeState { volume: next_volume, ticks_until_step: envelope.period_ticks, ..envelope };
            lemma_envelope_run_wf(stepped, channel, step_tick, (ticks - envelope.ticks_until_step) as u64);
        }
    }
}

impl AudioUnitState {
    /// Runs a channel's envelope for `ticks` ticks from tick `start_tick`, queueing a volume
    /// step event for each step.
    fn advance_envelope(&mut self, channel: GameBoyAudioChannel, start_tick: u64, ticks: u64)
        requires
            old(self).wf(),
        ensures
            final(self).wf(),
            final(self).envelope@ == old(self).envelope@.update(
                channel.spec_index() as int,
                envelope_run(old(self).envelope[channel.spec_index() as int], channel, start_tick, ticks).0,
            ),
            events_appended(
                old(self).pending_events@,
                final(self).pending_events@,
                envelope_run(old(self).envelope[channel.spec_index() as int], channel, start_tick, ticks).1,
                no_registers(),
            ),
            final(self).same_settings(old(self)),
            final(self).running == old(self).running,
            final(self).length_enabled == old(self).length_enabled,
            final(self).length_remaining_ticks == old(self).length_remaining_ticks,
    {
        let index = channel.index();
        let mut envelope = self.envelope[index];
        let ghost total = envelope_run(envelope, channel, start_tick, ticks);
        proof {
            lemma_envelope_run_wf(envelope, channel, start_tick, ticks);
        }
        if !envelope.active || envelope.period_ticks == 0 {
            assert(self.envelope@ =~= old(self).envelope@.update(index as int, total.0));
            assert(self.pending_events@ =~= old(self).pending_events@);
            return ;
        }
        let mut elapsed = ticks;
        let mut cursor = start_tick;
        let mut done = false;
        let ghost mut emitted: Seq<EventHead> = Seq::empty();
        let registers = [0u8; 48];
        assert(registers@ =~= no_registers());
        while !done && elapsed >= envelope.ticks_until_step
            invariant
                index == channel.spec_index(),
                index < 4,
                envelope_wf(envelope),
                envelope.period_ticks > 0,
                registers@ == no_registers(),
                !done ==> envelope.active,
                done ==> !envelope.active && total.0 == envelope && total.1 == emitted,
                !done ==> envelope_run(envelope, channel, cursor, elapsed).0 == total.0,
                !done ==> total.1 == emitted + envelope_run(envelope, channel, cursor, elapsed).1,
                events_appended(old(self).pending_events@, self.pending_events@, emitted, no_registers()),
                self.envelope == old(self).envelope,
                self.same_settings(old(self)),
                self.running == old(self).running,
                self.length_enabled == old(self).length_enabled,
                self.length_remaining_ticks == old(self).length_remaining_ticks,
            decreases elapsed, if done { 0int } else { 1int },
        {
            let step = envelope.ticks_until_step;
            let ghost before_env = envelope;
            let ghost before_cursor = cursor;
            let ghost before_elapsed = elapsed;
            cursor = cursor.saturating_add(step);
            elapsed = elapsed - step;
            let next_volume = if envelope.increases {
                if envelope.volume >= 15 {
                    15
                } else {
                    envelope.volume + 1
                }
            } else {
                envelope.volume.saturating_sub(1)
            };
            if next_volume == envelope.volume {
                envelope.active = false;
                done = true;
                assert(envelope_run(before_env, channel, before_cursor, before_elapsed) == (envelope, Seq::<EventHead>::empty()));
                assert(total.1 == emitted + Seq::<EventHead>::empty());
                assert(emitted + Seq::<EventHead>::empty() =~= emitted);
            } else {
                envelope.volume = next_volume;
                envelope.ticks_until_step = envelope.period_ticks;
                let ghost before_events = self.pending_events@;
                self.queue_event_at(cursor, Some(channel), AudioCommand::EnvelopeStep, next_volume, registers);
                proof {
                    let head = make_head(cursor, Some(channel), AudioCommand::EnvelopeStep, next_volume);
                    let rest = envelope_run(envelope, channel, cursor, elapsed);
                    assert(envelope_run(before_env, channel, before_cursor, before_elapsed) == (rest.0, seq![head] + rest.1));
                    let new_emitted = emitted.push(head);
                    assert(emitted + (seq![head] + rest.1) =~= new_emitted + rest.1);
                    let n = old(self).pending_events@.len() as int;
                    assert forall|k: int| 0 <= k < new_emitted.len() implies #[trigger] head_of(self.pending_events@[n + k])
                        == new_emitted[k] && self.pending_events@[n + k].registers@ == no_registers() by {
                        if k < emitted.len() {
                            assert(self.pending_events@[n + k] == before_events[n + k]);
                        }
                    }
                    assert forall|k: int| 0 <= k < n implies #[trigger] self.pending_events@[k] == old(self).pending_events@[k] by {
                        assert(self.pending_events@[k] == before_events[k]);
                    }
                    emitted = new_emitted;
                }
            }
        }
        if envelope.active {
            envelope.ticks_until_step = envelope.ticks_until_step - elapsed;
            assert(envelope_run(
                EnvelopeState { ticks_until_step: (envelope.ticks_until_step + elapsed) as u64, ..envelope },
                channel,
                cursor,
                elapsed,
            ).1 =~= Seq::<EventHead>::empty());
            assert(emitted + Seq::<EventHead>::empty() =~= emitted);
        }
        self.envelope[index] = envelope;
        assert(self.envelope@ =~= old(self).envelope@.update(index as int, total.0));
    }
}

impl AudioUnitState {
    /// How many of `ticks` ticks a channel keeps sounding before its length timer runs out.
    fn active_ticks_before_length_expiry(&self, channel: GameBoyAudioChannel, ticks: u64) -> (active: u64)
        ensures
            ({
                let i = channel.spec_index() as int;
                active == if self.length_enabled[i] && self.length_remaining_ticks[i] != 0
                    && self.length_remaining_ticks[i] < ticks {
                    self.length_remaining_ticks[i]
                } else {
                    ticks
                }
            }),
    {
        let index = channel.index();
        if !self.length_enabled[index] || self.length_remaining_ticks[index] == 0 {
            return ticks;
        }
        if self.length_remaining_ticks[index] < ticks {
            self.length_remaining_ticks[index]
        } else {
            ticks
        }
    }

    /// Counts a channel's length timer down by `ticks` ticks from tick `start_tick`; a timer
    /// that runs out stops the channel with a note off at the tick it ran out.
    fn advance_length(&mut self, channel: GameBoyAudioChannel, start_tick: u64, ticks: u64)
        requires
            old(self).wf(),
        ensures
            final(self).wf(),
            ({
                let i = channel.spec_index() as int;
                let remaining = old(self).length_remaining_ticks[i];
                if !old(self).length_enabled[i] || remaining == 0 {
                    old(self).only_events_into(final(self), Seq::empty(), no_registers())
                } else if remaining > ticks {
                    &&& final(self).length_remaining_ticks@ == old(self).length_remaining_ticks@.update(
                        i,
                        (remaining - ticks) as u64,
                    )
                    &&& final(self).running == old(self).running
                    &&& final(self).pending_events@ == old(self).pending_events@
                } else {
                    &&& final(self).length_remaining_ticks@ == old(self).length_remaining_ticks@.update(i, 0)
                    &&& final(self).running@ == old(self).running@.update(i, false)
                    &&& events_appended(
                        old(self).pending_events@,
                        final(self).pending_events@,
                        seq![
                            make_head(
                                saturating_sum(start_tick, remaining),
                                Some(channel),
                                AudioCommand::NoteOff,
                                old(self).envelope[i].volume,
                            ),
                        ],
                        no_registers(),
                    )
                }
            }),
            final(self).same_settings(old(self)),
            final(self).length_enabled == old(self).length_enabled,
            final(self).envelope == old(self).envelope,
    {
        let index = channel.index();
        if !self.length_enabled[index] || self.length_remaining_ticks[index] == 0 {
            assert(self.pending_events@ =~= old(self).pending_events@);
            return ;
        }
        let remaining = self.length_remaining_ticks[index];
        if remaining > ticks {
            self.length_remaining_ticks[index] = remaining - ticks;
            assert(self.length_remaining_ticks@ =~= old(self).length_remaining_ticks@.update(
                index as int,
                (remaining - ticks) as u64,
            ));
            return ;
        }
        let event_tick = start_tick.saturating_add(remaining);
        self.length_remaining_ticks[index] = 0;
        self.running[index] = false;
        let volume = self.envelope[index].volume;
        let registers = [0u8; 48];
        assert(registers@ =~= no_registers());
        self.queue_event_at(event_tick, Some(channel), AudioCommand::NoteOff, volume, registers);
        assert(self.length_remaining_ticks@ =~= old(self).length_remaining_ticks@.update(index as int, 0));
        assert(self.running@ =~= old(self).running@.update(index as int, false));
        assert(head_of(self.pending_events@[old(self).pending_events@.len() as int]) == make_head(
            saturating_sum(start_tick, remaining),
            Some(channel),
            AudioCommand::NoteOff,
            old(self).envelope[index as int].volume,
        ));
    }

    /// Runs channel `channel` for `ticks` ticks from tick `start_tick`.
    fn advance_channel(&mut self, channel: GameBoyAudioChannel, start_tick: u64, ticks: u64)
        requires
            old(self).wf(),
        ensures
            final(self).wf(),
            ({
                let i = channel.spec_index() as int;
                let run = old(self).run_of(i, start_tick, ticks);
                &&& final(self).running@ == old(self).running@.update(i, run.0)
                &&& final(self).length_remaining_ticks@ == old(self).length_remaining_ticks@.update(i, run.1)
                &&& final(self).envelope@ == old(self).envelope@.update(i, run.2)
                &&& events_appended(old(self).pending_events@, final(self).pending_events@, run.3, no_registers())
            }),
            final(self).same_settings(old(self)),
            final(self).length_enabled == old(self).length_enabled,
    {
        let index = channel.index();
        proof {
            assert(channel_at(index as int) == channel);
        }
        if !self.running[index] {
            assert(self.running@ =~= old(self).running@.update(index as int, false));
            assert(self.length_remaining_ticks@ =~= old(self).length_remaining_ticks@.update(
                index as int,
                old(self).length_remaining_ticks[index as int],
            ));
            assert(self.envelope@ =~= old(self).envelope@.update(index as int, old(self).envelope[index as int]));
            assert(self.pending_events@ =~= old(self).pending_events@);
            return ;
        }
        let active_ticks = self.active_ticks_before_length_expiry(channel, ticks);
        let ghost start_events = self.pending_events@;
        if active_ticks > 0 {
            self.advance_envelope(channel, start_tick, active_ticks);
        } else {
            assert(self.envelope@ =~= old(self).envelope@.update(index as int, old(self).envelope[index as int]));
        }
        let ghost mid = *self;
        let ghost mid_events = self.pending_events@;
        self.advance_length(channel, start_tick, ticks);
        proof {
            let run = old(self).run_of(index as int, start_tick, ticks);
            let stepped_events = if active_ticks > 0 {
                envelope_run(old(self).envelope[index as int], channel, start_tick, active_ticks).1
            } else {
                Seq::<EventHead>::empty()
            };
            assert(events_appended(start_events, mid_events, stepped_events, no_registers()));
            let n = start_events.len() as int;
            let m = mid_events.len() as int;
            let after = self.pending_events@;
            assert forall|k: int| 0 <= k < n implies #[trigger] after[k] == start_events[k] by {
                assert(after[k] == mid_events[k]);
            }
            if run.3.len() == stepped_events.len() {
                assert(run.3 =~= stepped_events);
                assert forall|k: int| 0 <= k < run.3.len() implies #[trigger] head_of(after[n + k]) == run.3[k]
                    && after[n + k].registers@ == no_registers() by {
                    assert(after[n + k] == mid_events[n + k]);
                }
            } else {
                assert(run.3 =~= stepped_events + seq![
                    make_head(
                        saturating_sum(start_tick, old(self).length_remaining_ticks[index as int]),
                        Some(channel),
                        AudioCommand::NoteOff,
                        mid.envelope[index as int].volume,
                    ),
                ]);
                assert forall|k: int| 0 <= k < run.3.len() implies #[trigger] head_of(after[n + k]) == run.3[k]
                    && after[n + k].registers@ == no_registers() by {
                    if k < stepped_events.len() {
                        assert(after[n + k] == mid_events[n + k]);
                    } else {
                        assert(n + k == m + 0);
                    }
                }
            }
            assert(self.running@ =~= old(self).running@.update(index as int, run.0));
            assert(self.length_remaining_ticks@ =~= old(self).length_remaining_ticks@.update(index as int, run.1));
            assert(self.envelope@ =~= old(self).envelope@.update(index as int, run.2));
        }
    }
}

/// `after` is `before` with the events of `first` and then of `second` appended.
proof fn lemma_events_appended_twice(
    before: Seq<AudioEvent>,
    middle: Seq<AudioEvent>,
    after: Seq<AudioEvent>,
    first: Seq<EventHead>,
    second: Seq<EventHead>,
    registers: Seq<u8>,
)
    requires
        events_appended(before, middle, first, registers),
        events_appended(middle, after, second, registers),
    ensures
        events_appended(before, after, first + second, registers),
{
    let n = before.len() as int;
    let m = middle.len() as int;
    assert forall|k: int| 0 <= k < (first + second).len() implies #[trigger] head_of(after[n + k]) == (first
        + second)[k] && after[n + k].registers@ == registers by {
        if k < first.len() {
            assert(after[n + k] == middle[n + k]);
        } else {
            assert(n + k == m + (k - first.len()));
        }
    }
    assert forall|i: int| 0 <= i < n implies #[trigger] after[i] == before[i] by {
        assert(after[i] == middle[i]);
    }
}

impl AudioUnitState {
    /// What letting `ticks` clock ticks pass does: each running channel's envelope steps and
    /// its length timer counts down, channels in order pulse 1, pulse 2, wave, noise, their
    /// events are queued, and the tick count moves on. A count of zero or less changes nothing.
    pub open spec fn ticks_advanced(&self, new: &Self, ticks: i32) -> bool {
        &&& ticks <= 0 ==> self.only_events_into(new, Seq::empty(), no_registers())
        &&& ticks > 0 ==> {
            let start = self.cumulative_ticks;
            let t = ticks as u64;
            &&& forall|i: int|
                0 <= i < 4 ==> #[trigger] new.running[i] == self.run_of(i, start, t).0
                    && new.length_remaining_ticks[i] == self.run_of(i, start, t).1 && new.envelope[i]
                    == self.run_of(i, start, t).2
            &&& events_appended(
                self.pending_events@,
                new.pending_events@,
                self.run_of(0, start, t).3 + self.run_of(1, start, t).3 + self.run_of(2, start, t).3 + self.run_of(
                    3,
                    start,
                    t,
                ).3,
                no_registers(),
            )
            &&& new.cumulative_ticks == saturating_sum(start, t)
            &&& new.base_running_speed == self.base_running_speed
            &&& new.global_audio_enable == self.global_audio_enable
            &&& new.length_enabled == self.length_enabled
        }
    }

    /// Lets `ticks` clock ticks pass: each running channel's envelope steps and its length
    /// timer counts down, channels in order pulse 1, pulse 2, wave, noise, and the tick count
    /// moves on. A count of zero or less changes nothing.
    #[verifier::spinoff_prover]
    #[verifier::rlimit(60)]
    pub fn advance_ticks(&mut self, ticks: i32)
        requires
            old(self).wf(),
        ensures
            final(self).wf(),
            old(self).ticks_advanced(final(self), ticks),
    {
        if ticks <= 0 {
            assert(self.pending_events@ =~= old(self).pending_events@);
            return ;
        }
        let ticks = ticks as u64;
        let start_tick = self.cumulative_ticks;
        let ghost s0 = *self;
        self.advance_channel(GameBoyAudioChannel::Pulse1, start_tick, ticks);
        let ghost s1 = *self;
        self.advance_channel(GameBoyAudioChannel::Pulse2, start_tick, ticks);
        let ghost s2 = *self;
        self.advance_channel(GameBoyAudioChannel::Wave, start_tick, ticks);
        let ghost s3 = *self;
        self.advance_channel(GameBoyAudioChannel::Noise, start_tick, ticks);
        let ghost s4 = *self;
        proof {
            assert(s1.run_of(1, start_tick, ticks) == s0.run_of(1, start_tick, ticks));
            assert(s2.run_of(2, start_tick, ticks) == s0.run_of(2, start_tick, ticks));
            assert(s3.run_of(3, start_tick, ticks) == s0.run_of(3, start_tick, ticks));
            lemma_events_appended_twice(
                s0.pending_events@,
                s1.pending_events@,
                s2.pending_events@,
                s0.run_of(0, start_tick, ticks).3,
                s0.run_of(1, start_tick, ticks).3,
                no_registers(),
            );
            lemma_events_appended_twice(
                s0.pending_events@,
                s2.pending_events@,
                s3.pending_events@,
                s0.run_of(0, start_tick, ticks).3 + s0.run_of(1, start_tick, ticks).3,
                s0.run_of(2, start_tick, ticks).3,
                no_registers(),
            );
            lemma_events_appended_twice(
                s0.pending_events@,
                s3.pending_events@,
                s4.pending_events@,
                s0.run_of(0, start_tick, ticks).3 + s0.run_of(1, start_tick, ticks).3 + s0.run_of(2, start_tick, ticks).3,
                s0.run_of(3, start_tick, ticks).3,
                no_registers(),
            );
        }
        self.cumulative_ticks = self.cumulative_ticks.saturating_add(ticks);
    }
}

} // verus!
