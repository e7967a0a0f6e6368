use shining_emulator::constants::{
    SGB_CHARACTER_PALETTE_ENTRIES, SGB_MONO_PIXELS, SGB_PALETTE_COLORS, SGB_SYSTEM_PALETTE_COLORS,
    SGB_TRANSFER_VRAM_BYTES,
};
use shining_emulator::memory::GameBoyMemory;
use shining_emulator::sgb::{
    advance_packet_cursor, remap_555_8888, SgbState, DEFAULT_SGB_PALETTE, SGBCOM_ATTR_DIV, SGBCOM_MASK_EN,
    SGBCOM_MLT_REQ, SGBCOM_PAL01,
};

#[test]
fn allocated_sgb_buffers_match_the_legacy_module() {
    let state = SgbState::default();

    assert_eq!(state.mono_data.len(), SGB_MONO_PIXELS);
    assert_eq!(state.transfer_vram.len(), SGB_TRANSFER_VRAM_BYTES);
    assert_eq!(state.palettes.len(), SGB_PALETTE_COLORS);
    assert_eq!(state.system_palettes.len(), SGB_SYSTEM_PALETTE_COLORS);
    assert_eq!(state.character_palettes.len(), SGB_CHARACTER_PALETTE_ENTRIES);
}

#[test]
fn default_display_palettes_are_visible_before_sgb_commands() {
    let mut state = SgbState::default();

    assert_eq!(&state.palettes[0..4], DEFAULT_SGB_PALETTE);
    assert_eq!(&state.palettes[4..8], DEFAULT_SGB_PALETTE);

    state.palettes.fill(0);
    state.reset_for_rom_load();

    assert_eq!(&state.palettes[0..4], DEFAULT_SGB_PALETTE);
    assert_eq!(&state.palettes[12..16], DEFAULT_SGB_PALETTE);
}

fn send_byte(state: &mut SgbState, byte: u8) {
    for bit in 0..8 {
        state.receive_command_bit((byte >> bit) & 1);
    }
}

fn send_packet(state: &mut SgbState, memory: &GameBoyMemory, bytes: &[u8; 16]) {
    state.begin_command();
    for byte in bytes {
        send_byte(state, *byte);
    }
    state.finish_packet_if_ready(memory);
}

#[test]
fn command_bits_assemble_least_significant_bit_first() {
    let mut state = SgbState::default();
    state.begin_command();

    send_byte(&mut state, 0xa5);

    assert_eq!(state.command_bytes[0][0], 0xa5);
    assert_eq!(state.read_command_bytes, 1);
    assert_eq!(state.read_command_bits, 0);
    assert_eq!(state.command, (0xa5 >> 3) & 0x1f);
    assert_eq!(state.packets_to_send, 0xa5 & 0x07);
}

#[test]
fn pal01_sets_common_colour_and_two_palettes() {
    let memory = GameBoyMemory::default();
    let mut state = SgbState::default();
    let mut packet = [0u8; 16];
    packet[0] = ((SGBCOM_PAL01 as u8) << 3) | 1;
    packet[1] = 0x1f;
    packet[2] = 0x00;
    packet[3] = 0x00;
    packet[4] = 0x7c;

    send_packet(&mut state, &memory, &packet);

    assert_eq!(state.completed_commands, 1);
    assert_eq!(state.last_command, SGBCOM_PAL01);
    assert_eq!(state.palettes[0], 0xffff_0000);
    assert_eq!(state.palettes[4], 0xffff_0000);
    assert_eq!(state.palettes[1], 0xff00_00ff);
    assert!(!state.reading_command);
}

#[test]
fn mlt_req_enables_multiplayer_and_resets_the_joypad_id() {
    let memory = GameBoyMemory::default();
    let mut state = SgbState::default();
    let mut packet = [0u8; 16];
    packet[0] = ((SGBCOM_MLT_REQ as u8) << 3) | 1;
    packet[1] = 0x01;

    send_packet(&mut state, &memory, &packet);

    assert!(state.mult_enabled);
    assert_eq!(state.player_count, 2);
    assert_eq!(state.read_joypad_id, 0x0f);
}

#[test]
fn mask_en_freezes_the_screen_for_modes_one_to_three() {
    let memory = GameBoyMemory::default();
    let mut state = SgbState::default();
    let mut packet = [0u8; 16];
    packet[0] = ((SGBCOM_MASK_EN as u8) << 3) | 1;
    packet[1] = 0x03;

    send_packet(&mut state, &memory, &packet);

    assert!(state.freeze_screen);
    assert_eq!(state.freeze_mode, 3);
}

#[test]
fn attr_div_splits_the_screen_into_three_palette_bands() {
    let memory = GameBoyMemory::default();
    let mut state = SgbState::default();
    let mut packet = [0u8; 16];
    packet[0] = ((SGBCOM_ATTR_DIV as u8) << 3) | 1;
    packet[1] = 0x40 | (2 << 2) | (3 << 4) | 1;
    packet[2] = 5;

    send_packet(&mut state, &memory, &packet);

    assert_eq!(state.character_palettes[0], 2);
    assert_eq!(state.character_palettes[4 * 20 + 19], 2);
    assert_eq!(state.character_palettes[5 * 20], 3);
    assert_eq!(state.character_palettes[6 * 20], 1);
    assert_eq!(state.character_palettes[17 * 20 + 19], 1);
}

#[test]
fn too_many_command_bytes_count_a_packet_error() {
    let mut state = SgbState::default();
    state.begin_command();
    for _ in 0..16 {
        send_byte(&mut state, 0);
    }

    state.receive_command_bit(1);

    assert_eq!(state.packet_errors, 1);
    assert!(!state.reading_command);
}

#[test]
fn packet_cursor_moves_to_the_next_packet_after_sixteen_bytes() {
    let mut packet = 0usize;
    let mut byte = 16usize;
    advance_packet_cursor(&mut packet, &mut byte);
    assert_eq!((packet, byte), (1, 0));

    let mut packet = 6usize;
    let mut byte = 17usize;
    advance_packet_cursor(&mut packet, &mut byte);
    assert_eq!((packet, byte), (6, 0));

    let mut packet = 2usize;
    let mut byte = 5usize;
    advance_packet_cursor(&mut packet, &mut byte);
    assert_eq!((packet, byte), (2, 5));
}

#[test]
fn sgb_colours_scale_five_bit_channels_to_full_bytes() {
    assert_eq!(remap_555_8888(0x00, 0x00), 0xff00_0000);
    assert_eq!(remap_555_8888(0xff, 0x7f), 0xffff_ffff);
    assert_eq!(remap_555_8888(0x1f, 0x00), 0xffff_0000);
    assert_eq!(remap_555_8888(0xe0, 0x03), 0xff00_ff00);
    assert_eq!(remap_555_8888(0x00, 0x7c), 0xff00_00ff);
}

#[test]
fn eight_command_bits_assemble_one_byte_least_significant_first() {
    let mut sgb = SgbState::default();
    sgb.begin_command();
    for bit in [1u8, 0, 1, 1, 0, 0, 0, 1] {
        sgb.receive_command_bit(bit);
    }

    assert_eq!(sgb.command_bytes[0][0], 0x8d);
    assert_eq!(sgb.read_command_bytes, 1);
    assert_eq!(sgb.read_command_bits, 0);
    assert!(sgb.reading_command);
    assert_eq!(sgb.packet_errors, 0);
}
