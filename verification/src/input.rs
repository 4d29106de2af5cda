//! The joypad latch: eight button states, two select bits, and the
//! active-low register view the program reads at 0xFF00. The shared cell
//! that the windowing thread writes fresh button states into lives outside
//! this core; the host hands each new state in as a plain value.
use vstd::prelude::*;

use crate::interrupts::Interrupt;
use crate::interrupts::InterruptsToSet;
use crate::interrupts::spec_no_interrupts;
use crate::interrupts::spec_with_interrupt;

verus! {

/// The state of the eight buttons; `true` means pressed.
#[derive(Clone, Copy, PartialEq, Eq, Structural, Debug)]
pub struct JoypadInput {
    pub start: bool,
    pub select: bool,
    pub a: bool,
    pub b: bool,
    pub up: bool,
    pub down: bool,
    pub left: bool,
    pub right: bool,
}

impl Default for JoypadInput {
    /// No button pressed.
    fn default() -> (r: Self)
        ensures
            r == (JoypadInput {
                start: false,
                select: false,
                a: false,
                b: false,
                up: false,
                down: false,
                left: false,
                right: false,
            }),
    {
        JoypadInput {
            start: false,
            select: false,
            a: false,
            b: false,
            up: false,
            down: false,
            left: false,
            right: false,
        }
    }
}

/// The joypad register state: the two select bits last written and the
/// button state last latched.
#[derive(Clone, Copy, PartialEq, Eq, Structural, Debug)]
pub struct InputState {
    pub select_buttons: bool,
    pub select_directions: bool,
    pub current_joypad: JoypadInput,
}

/// The byte read from the joypad register: buttons appear active-low, and
/// only the groups chosen by the select bits contribute.
pub open spec fn spec_joypad_read(s: InputState) -> u8 {
    !spec_joypad_read_positive(s)
}

/// The positive-logic image of the joypad register before the final
/// complement.
pub open spec fn spec_joypad_read_positive(s: InputState) -> u8 {
    let buttons: u8 = if s.select_buttons {
        0x20u8 | (if s.current_joypad.start { 0x08u8 } else { 0u8 })
            | (if s.current_joypad.select { 0x04u8 } else { 0u8 })
            | (if s.current_joypad.b { 0x02u8 } else { 0u8 })
            | (if s.current_joypad.a { 0x01u8 } else { 0u8 })
    } else {
        0u8
    };
    if s.select_directions {
        (buttons & !0x10u8) | (if s.current_joypad.down { 0x08u8 } else { 0u8 })
            | (if s.current_joypad.up { 0x04u8 } else { 0u8 })
            | (if s.current_joypad.left { 0x02u8 } else { 0u8 })
            | (if s.current_joypad.right { 0x01u8 } else { 0u8 })
    } else {
        buttons
    }
}

impl Default for InputState {
    /// Neither group selected and no button pressed.
    fn default() -> (r: Self)
        ensures
            r == (InputState {
                select_buttons: false,
                select_directions: false,
                current_joypad: JoypadInput {
                    start: false,
                    select: false,
                    a: false,
                    b: false,
                    up: false,
                    down: false,
                    left: false,
                    right: false,
                },
            }),
    {
        InputState {
            select_buttons: false,
            select_directions: false,
            current_joypad: JoypadInput::default(),
        }
    }
}

impl InputState {
    /// Latches the freshly sampled button state the host hands in, and asks
    /// for a joypad interrupt exactly when it differs from the previous
    /// state.
    pub fn swap_to_next_joypad_state(&mut self, next_joypad_state: JoypadInput) -> (r:
        InterruptsToSet)
        ensures
            *final(self) == (InputState { current_joypad: next_joypad_state, ..*old(self) }),
            r == if old(self).current_joypad == next_joypad_state {
                spec_no_interrupts()
            } else {
                spec_with_interrupt(spec_no_interrupts(), Interrupt::Joypad)
            },
    {
        let fire_interrupt: bool = !(self.current_joypad == next_joypad_state);
        self.current_joypad = next_joypad_state;

        let mut interrupts = InterruptsToSet::default();
        if fire_interrupt {
            interrupts.set_interrupt(Interrupt::Joypad);
        }
        interrupts
    }

    /// One input step: latch the next button state.
    pub fn step(&mut self, next_joypad_state: JoypadInput) -> (r: InterruptsToSet)
        ensures
            *final(self) == (InputState { current_joypad: next_joypad_state, ..*old(self) }),
            r == if old(self).current_joypad == next_joypad_state {
                spec_no_interrupts()
            } else {
                spec_with_interrupt(spec_no_interrupts(), Interrupt::Joypad)
            },
    {
        self.swap_to_next_joypad_state(next_joypad_state)
    }

    /// Whether the input latch owns the given I/O register address.
    pub fn supports_io_register(&self, address: usize) -> (r: bool)
        ensures
            r == (address == 0xFF00),
    {
        address == 0xFF00
    }

    /// Reads the joypad register, active-low.
    pub fn read_io_register(&self, _address: usize) -> (r: u8)
        ensures
            r == spec_joypad_read(*self),
    {
        let buttons: u8 = if self.select_buttons {
            0x20u8 | (if self.current_joypad.start { 0x08u8 } else { 0u8 })
                | (if self.current_joypad.select { 0x04u8 } else { 0u8 })
                | (if self.current_joypad.b { 0x02u8 } else { 0u8 })
                | (if self.current_joypad.a { 0x01u8 } else { 0u8 })
        } else {
            0u8
        };
        let value: u8 = if self.select_directions {
            (buttons & !0x10u8) | (if self.current_joypad.down { 0x08u8 } else { 0u8 })
                | (if self.current_joypad.up { 0x04u8 } else { 0u8 })
                | (if self.current_joypad.left { 0x02u8 } else { 0u8 })
                | (if self.current_joypad.right { 0x01u8 } else { 0u8 })
        } else {
            buttons
        };
        !value
    }

    /// Writes the select bits; they are stored active-low, so a cleared bit
    /// in the written value selects the group.
    pub fn write_io_register(&mut self, value: u8, _address: usize)
        ensures
            *final(self) == (InputState {
                select_buttons: (!value & 0x20u8) != 0,
                select_directions: (!value & 0x10u8) != 0,
                ..*old(self)
            }),
    {
        self.select_buttons = (!value & 0x20u8) != 0;
        self.select_directions = (!value & 0x10u8) != 0;
    }
}

} // verus!
