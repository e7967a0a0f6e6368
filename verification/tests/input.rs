use shining_emulator::input::{
    joypad_low_nibble_falling_edge, GameBoyInputState, JoypadInputNibbles, JOYP_SELECT_BUTTONS,
    JOYP_SELECT_DIRECTIONS, JOYP_SELECT_NONE,
};

#[test]
fn idle_game_boy_input_matches_released_joypad_nibbles() {
    let input = GameBoyInputState::default();

    assert_eq!(JoypadInputNibbles::from(&input), JoypadInputNibbles::default());
}

#[test]
fn pressed_buttons_clear_the_active_low_joypad_bits() {
    let input = GameBoyInputState {
        dleft: true,
        dup: true,
        a: true,
        start: true,
        ..Default::default()
    };

    let nibbles = JoypadInputNibbles::from(&input);

    assert_eq!(nibbles.direction, 0x09);
    assert_eq!(nibbles.button, 0x06);
}

#[test]
fn selected_joypad_nibble_follows_active_low_selection_bits() {
    let nibbles = JoypadInputNibbles {
        button: 0x0e,
        direction: 0x0d,
    };

    assert_eq!(nibbles.low_nibble_for_select(JOYP_SELECT_BUTTONS), 0x0e);
    assert_eq!(nibbles.low_nibble_for_select(JOYP_SELECT_DIRECTIONS), 0x0d);
    assert_eq!(nibbles.low_nibble_for_select(0x00), 0x0c);
    assert_eq!(nibbles.low_nibble_for_select(JOYP_SELECT_NONE), 0x0f);
}

#[test]
fn joypad_interrupt_edges_are_low_nibble_high_to_low_transitions() {
    assert!(joypad_low_nibble_falling_edge(0x2f, 0x2e));
    assert!(!joypad_low_nibble_falling_edge(0x2e, 0x2f));
    assert!(!joypad_low_nibble_falling_edge(0x1f, 0x2f));
}

#[test]
fn every_held_key_clears_exactly_its_own_bit() {
    let all = GameBoyInputState {
        dright: true,
        dleft: true,
        dup: true,
        ddown: true,
        select: true,
        start: true,
        a: true,
        b: true,
    };
    let nibbles = JoypadInputNibbles::from(&all);
    assert_eq!(nibbles.direction, 0x00);
    assert_eq!(nibbles.button, 0x00);

    let right_and_b = GameBoyInputState {
        dright: true,
        b: true,
        ..Default::default()
    };
    let nibbles = JoypadInputNibbles::from(&right_and_b);
    assert_eq!(nibbles.direction, 0x0e);
    assert_eq!(nibbles.button, 0x0d);
}

#[test]
fn falling_edge_needs_a_low_nibble_bit_going_low() {
    assert!(joypad_low_nibble_falling_edge(0x0f, 0x00));
    assert!(joypad_low_nibble_falling_edge(0x08, 0x00));
    assert!(!joypad_low_nibble_falling_edge(0x00, 0x0f));
    assert!(!joypad_low_nibble_falling_edge(0xf0, 0x00));
}
