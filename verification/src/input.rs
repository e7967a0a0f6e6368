use vstd::prelude::*;

verus! {

pub const JOYP_LOW_NIBBLE_MASK: u8 = 0x0f;
pub const JOYP_SELECT_MASK: u8 = 0x30;
pub const JOYP_SELECT_BUTTONS: u8 = 0x10;
pub const JOYP_SELECT_DIRECTIONS: u8 = 0x20;
pub const JOYP_SELECT_NONE: u8 = 0x30;

pub const INPUT_IDLE_NIBBLE: u8 = 0x0f;
pub const RIGHT_MASK: u8 = 0x0e;
pub const LEFT_MASK: u8 = 0x0d;
pub const UP_MASK: u8 = 0x0b;
pub const DOWN_MASK: u8 = 0x07;
pub const SELECT_MASK: u8 = 0x0b;
pub const START_MASK: u8 = 0x07;
pub const A_MASK: u8 = 0x0e;
pub const B_MASK: u8 = 0x0d;

/// Which Game Boy buttons are held.
#[derive(Clone, Copy, Debug, PartialEq, Eq, Structural)]
pub struct GameBoyInputState {
    pub dright: bool,
    pub dleft: bool,
    pub dup: bool,
    pub ddown: bool,
    pub select: bool,
    pub start: bool,
    pub a: bool,
    pub b: bool,
}

impl Default for GameBoyInputState {
    fn default() -> (input: Self)
        ensures
            !input.dright && !input.dleft && !input.dup && !input.ddown,
            !input.select && !input.start && !input.a && !input.b,
    {
        GameBoyInputState {
            dright: false,
            dleft: false,
            dup: false,
            ddown: false,
            select: false,
            start: false,
            a: false,
            b: false,
        }
    }
}

/// The active-low button and direction nibbles that the joypad register shows.
#[derive(Clone, Copy, Debug, PartialEq, Eq, Structural)]
pub struct JoypadInputNibbles {
    pub button: u8,
    pub direction: u8,
}

impl Default for JoypadInputNibbles {
    fn default() -> (nibbles: Self)
        ensures
            nibbles.button == INPUT_IDLE_NIBBLE,
            nibbles.direction == INPUT_IDLE_NIBBLE,
    {
        JoypadInputNibbles { button: INPUT_IDLE_NIBBLE, direction: INPUT_IDLE_NIBBLE }
    }
}

/// An active-low nibble: bit `k` is clear exactly when the `k`-th key is held.
pub open spec fn active_low_nibble(k0: bool, k1: bool, k2: bool, k3: bool) -> u8 {
    (if k0 { 0u8 } else { 1u8 }) | (if k1 { 0u8 } else { 2u8 }) | (if k2 { 0u8 } else { 4u8 }) | (
    if k3 { 0u8 } else { 8u8 })
}

/// The low nibble that the joypad register shows for a selection written to its bits 4 and 5.
pub open spec fn spec_low_nibble_for_select(nibbles: JoypadInputNibbles, select: u8) -> u8 {
    let chosen = select & JOYP_SELECT_MASK;
    (if chosen == JOYP_SELECT_BUTTONS {
        nibbles.button
    } else if chosen == JOYP_SELECT_DIRECTIONS {
        nibbles.direction
    } else if chosen == 0x00 {
        nibbles.button & nibbles.direction
    } else {
        INPUT_IDLE_NIBBLE
    }) & JOYP_LOW_NIBBLE_MASK
}

impl JoypadInputNibbles {
    /// The joypad register's low nibble: buttons, directions, both combined, or none selected.
    pub fn low_nibble_for_select(self, select: u8) -> (nibble: u8)
        ensures
            nibble == spec_low_nibble_for_select(self, select),
            nibble < 16,
    {
        let chosen = select & JOYP_SELECT_MASK;
        let value = if chosen == JOYP_SELECT_BUTTONS {
            self.button
        } else if chosen == JOYP_SELECT_DIRECTIONS {
            self.direction
        } else if chosen == 0x00 {
            self.button & self.direction
        } else {
            INPUT_IDLE_NIBBLE
        };
        proof {
            crate::bits::lemma_small_masks(value, 0);
        }
        value & JOYP_LOW_NIBBLE_MASK
    }
}

/// Whether some joypad line of the low nibble goes from high to low between two register values.
pub fn joypad_low_nibble_falling_edge(old_joyp: u8, new_joyp: u8) -> (falling: bool)
    ensures
        falling == (old_joyp & !new_joyp & JOYP_LOW_NIBBLE_MASK != 0),
{
    old_joyp & !new_joyp & JOYP_LOW_NIBBLE_MASK != 0
}

/// A falling edge of the joypad low nibble is exactly one of its four lines going from 1 to 0.
pub proof fn lemma_falling_edge_is_line_going_low(old_joyp: u8, new_joyp: u8)
    ensures
        (old_joyp & !new_joyp & JOYP_LOW_NIBBLE_MASK != 0) <==> exists|bit: u8|
            bit < 4 && #[trigger] ((old_joyp >> bit) & 1) == 1 && ((new_joyp >> bit) & 1) == 0,
{
    let o = old_joyp;
    let n = new_joyp;
    assert((o & !n & 0x0f != 0) <==> (((o >> 0u8) & 1 == 1 && (n >> 0u8) & 1 == 0) || ((o >> 1u8)
        & 1 == 1 && (n >> 1u8) & 1 == 0) || ((o >> 2u8) & 1 == 1 && (n >> 2u8) & 1 == 0) || ((o
        >> 3u8) & 1 == 1 && (n >> 3u8) & 1 == 0))) by (bit_vector);
    if o & !n & 0x0f != 0 {
        if (o >> 0u8) & 1 == 1 && (n >> 0u8) & 1 == 0 {
            assert(((o >> 0u8) & 1) == 1);
        } else if (o >> 1u8) & 1 == 1 && (n >> 1u8) & 1 == 0 {
            assert(((o >> 1u8) & 1) == 1);
        } else if (o >> 2u8) & 1 == 1 && (n >> 2u8) & 1 == 0 {
            assert(((o >> 2u8) & 1) == 1);
        } else {
            assert(((o >> 3u8) & 1) == 1);
        }
    }
    if exists|bit: u8| bit < 4 && #[trigger] ((o >> bit) & 1) == 1 && ((n >> bit) & 1) == 0 {
        let bit = choose|bit: u8| bit < 4 && #[trigger] ((o >> bit) & 1) == 1 && ((n >> bit) & 1) == 0;
        assert(bit == 0 || bit == 1 || bit == 2 || bit == 3);
    }
}

impl vstd::std_specs::convert::FromSpecImpl<&GameBoyInputState> for JoypadInputNibbles {
    open spec fn obeys_from_spec() -> bool {
        true
    }

    open spec fn from_spec(input: &GameBoyInputState) -> JoypadInputNibbles {
        JoypadInputNibbles {
            button: active_low_nibble(input.a, input.b, input.select, input.start),
            direction: active_low_nibble(input.dright, input.dleft, input.dup, input.ddown),
        }
    }
}

impl From<&GameBoyInputState> for JoypadInputNibbles {
    fn from(input: &GameBoyInputState) -> (nibbles: Self) {
        let mut nibbles = JoypadInputNibbles::default();
        if input.dright {
            nibbles.direction = nibbles.direction & RIGHT_MASK;
        }
        if input.dleft {
            nibbles.direction = nibbles.direction & LEFT_MASK;
        }
        if input.dup {
            nibbles.direction = nibbles.direction & UP_MASK;
        }
        if input.ddown {
            nibbles.direction = nibbles.direction & DOWN_MASK;
        }
        if input.select {
            nibbles.button = nibbles.button & SELECT_MASK;
        }
        if input.start {
            nibbles.button = nibbles.button & START_MASK;
        }
        if input.a {
            nibbles.button = nibbles.button & A_MASK;
        }
        if input.b {
            nibbles.button = nibbles.button & B_MASK;
        }
        let (r, l, u, d) = (input.dright, input.dleft, input.dup, input.ddown);
        assert((((((0x0fu8 & (if r { 0x0eu8 } else { 0xffu8 })) & (if l { 0x0du8 } else { 0xffu8 }))
            & (if u { 0x0bu8 } else { 0xffu8 })) & (if d { 0x07u8 } else { 0xffu8 }))) == ((if r {
            0u8
        } else {
            1u8
        }) | (if l { 0u8 } else { 2u8 }) | (if u { 0u8 } else { 4u8 }) | (if d { 0u8 } else { 8u8 })))
            by (bit_vector);
        let (s, t, a, b) = (input.select, input.start, input.a, input.b);
        assert((((((0x0fu8 & (if s { 0x0bu8 } else { 0xffu8 })) & (if t { 0x07u8 } else { 0xffu8 }))
            & (if a { 0x0eu8 } else { 0xffu8 })) & (if b { 0x0du8 } else { 0xffu8 }))) == ((if a {
            0u8
        } else {
            1u8
        }) | (if b { 0u8 } else { 2u8 }) | (if s { 0u8 } else { 4u8 }) | (if t { 0u8 } else { 8u8 })))
            by (bit_vector);
        assert(forall|x: u8| x & 0xffu8 == x) by (bit_vector);
        nibbles
    }
}

} // verus!
