use shining_emulator::audio::GameBoyAudioChannel;
use shining_emulator::audio_unit::{
    AudioCommand, AudioUnitState, ENVELOPE_CLOCK_HZ, LENGTH_CLOCK_HZ, LENGTH_ENABLE_BIT,
    NR11_IO_INDEX, NR12_IO_INDEX, NR13_IO_INDEX, NR14_IO_INDEX, NR50_IO_INDEX, NR51_IO_INDEX,
    NR52_IO_INDEX, TRIGGER_BIT, WAVE_RAM_END_INDEX, WAVE_RAM_START_INDEX,
};
use shining_emulator::constants::GB_CLOCK_HZ;

fn default_io() -> [u8; 256] {
    let mut io = [0; 256];
    io[NR50_IO_INDEX] = 0x77;
    io[NR51_IO_INDEX] = 0xff;
    io
}

#[test]
fn pulse_trigger_queues_note_on_with_its_registers() {
    let mut unit = AudioUnitState::default();
    let mut io = default_io();
    io[NR12_IO_INDEX] = 0xf0;
    io[NR13_IO_INDEX] = 0x00;
    io[NR14_IO_INDEX] = TRIGGER_BIT;

    unit.write_register(NR14_IO_INDEX, io[NR14_IO_INDEX], &io);
    let events = unit.drain_pending_events();

    assert_eq!(events.len(), 1);
    assert_eq!(events[0].channel, Some(GameBoyAudioChannel::Pulse1));
    assert_eq!(events[0].tick, 0);
    assert_eq!(events[0].command, AudioCommand::NoteOn);
    assert_eq!(events[0].envelope_volume, 15);
    assert_eq!(events[0].registers[NR12_IO_INDEX - 0x10], 0xf0);
    assert_eq!(events[0].registers[NR14_IO_INDEX - 0x10], TRIGGER_BIT);
    assert_eq!(events[0].registers[NR50_IO_INDEX - 0x10], 0x77);
    assert_eq!(unit.channel_status_bits(), 0x01);
}

#[test]
fn length_counter_queues_note_off_at_precise_tick() {
    let mut unit = AudioUnitState::default();
    let mut io = default_io();
    let length_ticks = GB_CLOCK_HZ as u64 / LENGTH_CLOCK_HZ;
    io[NR11_IO_INDEX] = 63;
    io[NR12_IO_INDEX] = 0xf0;
    io[NR14_IO_INDEX] = TRIGGER_BIT | LENGTH_ENABLE_BIT;

    unit.write_register(NR14_IO_INDEX, io[NR14_IO_INDEX], &io);
    unit.drain_pending_events();
    unit.advance_ticks((length_ticks - 4) as i32);
    assert!(unit.drain_pending_events().is_empty());
    unit.advance_ticks(4);

    let events = unit.drain_pending_events();
    assert_eq!(events.len(), 1);
    assert_eq!(events[0].tick, length_ticks);
    assert_eq!(events[0].command, AudioCommand::NoteOff);
}

#[test]
fn envelope_generates_volume_step_events() {
    let mut unit = AudioUnitState::default();
    let mut io = default_io();
    let envelope_ticks = GB_CLOCK_HZ as u64 / ENVELOPE_CLOCK_HZ * 2;
    io[NR12_IO_INDEX] = 0x82;
    io[NR14_IO_INDEX] = TRIGGER_BIT;

    unit.write_register(NR14_IO_INDEX, io[NR14_IO_INDEX], &io);
    unit.drain_pending_events();
    unit.advance_ticks(envelope_ticks as i32);

    let events = unit.drain_pending_events();
    assert_eq!(events.len(), 1);
    assert_eq!(events[0].tick, envelope_ticks);
    assert_eq!(events[0].command, AudioCommand::EnvelopeStep);
    assert_eq!(events[0].envelope_volume, 7);
}

#[test]
fn envelope_stops_when_the_volume_cannot_change() {
    let mut unit = AudioUnitState::default();
    let mut io = default_io();
    let period = GB_CLOCK_HZ as u64 / ENVELOPE_CLOCK_HZ;
    io[NR12_IO_INDEX] = 0x11;
    io[NR14_IO_INDEX] = TRIGGER_BIT;

    unit.write_register(NR14_IO_INDEX, io[NR14_IO_INDEX], &io);
    unit.drain_pending_events();
    unit.advance_ticks((period * 5) as i32);

    let events = unit.drain_pending_events();
    assert_eq!(events.len(), 1);
    assert_eq!(events[0].tick, period);
    assert_eq!(events[0].envelope_volume, 0);
    assert!(!unit.envelope[0].active);
}

#[test]
fn wave_ram_write_queues_a_wavetable_event_with_the_samples() {
    let mut unit = AudioUnitState::default();
    let mut io = default_io();
    for index in WAVE_RAM_START_INDEX..=WAVE_RAM_END_INDEX {
        io[index] = 0xf0;
    }

    unit.write_register(WAVE_RAM_START_INDEX, io[WAVE_RAM_START_INDEX], &io);

    let events = unit.drain_pending_events();
    assert_eq!(events.len(), 1);
    assert_eq!(events[0].channel, Some(GameBoyAudioChannel::Wave));
    assert_eq!(events[0].command, AudioCommand::Wavetable);
    assert!(events[0].registers[0x20..0x30].iter().all(|byte| *byte == 0xf0));
}

#[test]
fn global_disable_queues_all_notes_off_and_clears_status() {
    let mut unit = AudioUnitState::default();
    let mut io = default_io();
    io[NR12_IO_INDEX] = 0xf0;
    io[NR14_IO_INDEX] = TRIGGER_BIT;
    unit.write_register(NR14_IO_INDEX, io[NR14_IO_INDEX], &io);
    assert_eq!(unit.channel_status_bits(), 0x01);
    unit.drain_pending_events();

    unit.write_register(NR52_IO_INDEX, 0x00, &io);

    assert_eq!(unit.channel_status_bits(), 0x00);
    let events = unit.drain_pending_events();
    assert_eq!(events.len(), 1);
    assert_eq!(events[0].command, AudioCommand::AllNotesOff);
}

#[test]
fn reset_queues_all_notes_off_for_existing_midi_graph_voices() {
    let mut unit = AudioUnitState::default();

    unit.reset_for_rom_load(GB_CLOCK_HZ);

    let events = unit.drain_pending_events();
    assert_eq!(events.len(), 1);
    assert_eq!(events[0].tick, 0);
    assert_eq!(events[0].command, AudioCommand::AllNotesOff);
}

#[test]
fn dac_off_trigger_stops_instead_of_starting() {
    let mut unit = AudioUnitState::default();
    let mut io = default_io();
    io[NR12_IO_INDEX] = 0x07;
    io[NR14_IO_INDEX] = TRIGGER_BIT;
    unit.write_register(NR14_IO_INDEX, io[NR14_IO_INDEX], &io);
    assert_eq!(unit.channel_status_bits(), 0x00);
    assert!(unit.drain_pending_events().is_empty());
}

#[test]
fn mixer_writes_refresh_every_channel_in_order() {
    let mut unit = AudioUnitState::default();
    let io = default_io();
    unit.write_register(NR51_IO_INDEX, 0xff, &io);
    let events = unit.drain_pending_events();
    assert_eq!(events.len(), 4);
    assert_eq!(events[0].channel, Some(GameBoyAudioChannel::Pulse1));
    assert_eq!(events[3].channel, Some(GameBoyAudioChannel::Noise));
    assert!(events.iter().all(|event| event.command == AudioCommand::MixRefresh));
}
