use vstd::prelude::*;

use crate::constants::DEFAULT_CLOCK_MULTIPLIER_INDEX;
use crate::input::{INPUT_IDLE_NIBBLE, JoypadInputNibbles};

verus! {

/// Run state, joypad and speed setting of the emulator.
#[derive(Clone, Copy, Debug)]
pub struct RuntimeControl {
    pub is_running: bool,
    pub is_paused: bool,
    pub joypad: JoypadInputNibbles,
    pub joypad_state_changed: bool,
    pub clock_multiply: i64,
    pub clock_divide: i64,
    pub current_clock_multiplier_combo: i32,
}

impl RuntimeControl {
    /// Joypad released, nothing changed, and normal speed.
    pub open spec fn has_idle_input_and_normal_speed(self) -> bool {
        &&& self.joypad.button == INPUT_IDLE_NIBBLE
        &&& self.joypad.direction == INPUT_IDLE_NIBBLE
        &&& !self.joypad_state_changed
        &&& self.clock_multiply == 1
        &&& self.clock_divide == 1
        &&& self.current_clock_multiplier_combo == DEFAULT_CLOCK_MULTIPLIER_INDEX
    }

    /// A loaded cartridge runs unpaused, at normal speed, with the joypad released.
    pub fn reset_for_rom_load(&mut self)
        ensures
            final(self).is_running,
            !final(self).is_paused,
            final(self).has_idle_input_and_normal_speed(),
    {
        self.is_running = true;
        self.is_paused = false;
        self.joypad = JoypadInputNibbles::default();
        self.joypad_state_changed = false;
        self.clock_multiply = 1;
        self.clock_divide = 1;
        self.current_clock_multiplier_combo = DEFAULT_CLOCK_MULTIPLIER_INDEX;
    }
}

impl RuntimeControl {
    /// The state that `default` gives.
    pub open spec fn is_default(&self) -> bool {
        &&& !self.is_running
        &&& !self.is_paused
        &&& self.has_idle_input_and_normal_speed()
    }
}

impl Default for RuntimeControl {
    fn default() -> (runtime: Self)
        ensures
            runtime.is_default(),
    {
        RuntimeControl {
            is_running: false,
            is_paused: false,
            joypad: JoypadInputNibbles::default(),
            joypad_state_changed: false,
            clock_multiply: 1,
            clock_divide: 1,
            current_clock_multiplier_combo: DEFAULT_CLOCK_MULTIPLIER_INDEX,
        }
    }
}

/// The speed settings, slowest first, as multiplier and divisor of the clock rate; index 10
/// runs at normal speed.
pub open spec fn spec_clock_combo(index: int) -> Option<(i64, i64)> {
    if index == 0 { Some((1i64, 20i64)) }
    else if index == 1 { Some((1i64, 12i64)) }
    else if index == 2 { Some((1i64, 8i64)) }
    else if index == 3 { Some((1i64, 5i64)) }
    else if index == 4 { Some((1i64, 3i64)) }
    else if index == 5 { Some((2i64, 5i64)) }
    else if index == 6 { Some((1i64, 2i64)) }
    else if index == 7 { Some((4i64, 7i64)) }
    else if index == 8 { Some((2i64, 3i64)) }
    else if index == 9 { Some((4i64, 5i64)) }
    else if index == 10 { Some((1i64, 1i64)) }
    else if index == 11 { Some((5i64, 4i64)) }
    else if index == 12 { Some((3i64, 2i64)) }
    else if index == 13 { Some((7i64, 4i64)) }
    else if index == 14 { Some((2i64, 1i64)) }
    else if index == 15 { Some((5i64, 2i64)) }
    else if index == 16 { Some((3i64, 1i64)) }
    else if index == 17 { Some((5i64, 1i64)) }
    else if index == 18 { Some((8i64, 1i64)) }
    else if index == 19 { Some((12i64, 1i64)) }
    else if index == 20 { Some((20i64, 1i64)) }
    else { None }
}

/// The multiplier and divisor of speed setting `index`, if there is one.
pub fn clock_combo(index: usize) -> (combo: Option<(i64, i64)>)
    ensures
        combo == spec_clock_combo(index as int),
{
    match index {
        0 => Some((1, 20)),
        1 => Some((1, 12)),
        2 => Some((1, 8)),
        3 => Some((1, 5)),
        4 => Some((1, 3)),
        5 => Some((2, 5)),
        6 => Some((1, 2)),
        7 => Some((4, 7)),
        8 => Some((2, 3)),
        9 => Some((4, 5)),
        10 => Some((1, 1)),
        11 => Some((5, 4)),
        12 => Some((3, 2)),
        13 => Some((7, 4)),
        14 => Some((2, 1)),
        15 => Some((5, 2)),
        16 => Some((3, 1)),
        17 => Some((5, 1)),
        18 => Some((8, 1)),
        19 => Some((12, 1)),
        20 => Some((20, 1)),
        _ => None,
    }
}

/// What choosing speed setting `index` does: an existing setting takes its multiplier and
/// divisor; any other index changes nothing.
pub open spec fn clock_multiplier_set(before: RuntimeControl, after: RuntimeControl, index: int) -> bool {
    match spec_clock_combo(index) {
        Some(combo) => after == RuntimeControl {
            current_clock_multiplier_combo: index as i32,
            clock_multiply: combo.0,
            clock_divide: combo.1,
            ..before
        },
        None => after == before,
    }
}

/// Chooses speed setting `index`, if there is one.
pub fn set_clock_multiplier(control: &mut RuntimeControl, index: i32)
    ensures
        clock_multiplier_set(*old(control), *final(control), index as int),
{
    if index < 0 {
        return ;
    }
    match clock_combo(index as usize) {
        Some((multiply, divide)) => {
            control.current_clock_multiplier_combo = index;
            control.clock_multiply = multiply;
            control.clock_divide = divide;
        },
        None => {},
    }
}

/// Moves one speed setting faster, if there is a faster one.
pub fn speed_up(control: &mut RuntimeControl)
    ensures
        clock_multiplier_set(
            *old(control),
            *final(control),
            if old(control).current_clock_multiplier_combo < i32::MAX {
                old(control).current_clock_multiplier_combo + 1
            } else {
                i32::MAX as int
            },
        ),
{
    let current = control.current_clock_multiplier_combo;
    let next_index = if current < i32::MAX {
        current + 1
    } else {
        i32::MAX
    };
    set_clock_multiplier(control, next_index);
}

/// Moves one speed setting slower, if there is a slower one.
pub fn slow_down(control: &mut RuntimeControl)
    ensures
        clock_multiplier_set(
            *old(control),
            *final(control),
            if old(control).current_clock_multiplier_combo > i32::MIN {
                old(control).current_clock_multiplier_combo - 1
            } else {
                i32::MIN as int
            },
        ),
{
    let current = control.current_clock_multiplier_combo;
    let next_index = if current > i32::MIN {
        current - 1
    } else {
        i32::MIN
    };
    set_clock_multiplier(control, next_index);
}

/// Pauses a running emulator, or resumes a paused one; a stopped one stays as it is.
pub fn toggle_pause(control: &mut RuntimeControl)
    ensures
        *final(control) == if old(control).is_running {
            RuntimeControl { is_paused: !old(control).is_paused, ..*old(control) }
        } else {
            *old(control)
        },
{
    if control.is_running {
        control.is_paused = !control.is_paused;
    }
}

/// Takes a new joypad state, marking it changed when it differs from the current one.
pub fn sync_joypad(control: &mut RuntimeControl, next_joypad: JoypadInputNibbles)
    ensures
        *final(control) == if old(control).joypad == next_joypad {
            *old(control)
        } else {
            RuntimeControl { joypad: next_joypad, joypad_state_changed: true, ..*old(control) }
        },
{
    if control.joypad == next_joypad {
        return ;
    }
    control.joypad = next_joypad;
    control.joypad_state_changed = true;
}

/// Law: one step faster and then one step slower gives back the speed setting, from every
/// setting but the fastest (which has no faster one).
pub proof fn lemma_speed_up_then_slow_down(control: RuntimeControl, faster: RuntimeControl, back: RuntimeControl)
    requires
        0 <= control.current_clock_multiplier_combo < 20,
        spec_clock_combo(control.current_clock_multiplier_combo as int) == Some(
            (control.clock_multiply, control.clock_divide),
        ),
        clock_multiplier_set(control, faster, control.current_clock_multiplier_combo + 1),
        clock_multiplier_set(faster, back, faster.current_clock_multiplier_combo - 1),
    ensures
        back == control,
{
}

} // verus!
