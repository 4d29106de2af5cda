//! The divider register: an 8-bit counter that advances once every 256
//! machine cycles and resets on any write.
use vstd::prelude::*;

use crate::frame_sequencer::FrameSequencer;
use crate::frame_sequencer::spec_step_multiple;

verus! {

/// The timer block. Only the divider register at 0xFF04 is modelled.
#[derive(Clone, Copy, PartialEq, Eq, Structural, Debug)]
pub struct Timers {
    pub divider: u8,
    pub divider_sequencer: FrameSequencer,
}

/// The timer state after `cycles` machine cycles: the divider advances by
/// one (wrapping) whenever its 256-cycle sequencer underflows.
pub open spec fn spec_timers_step(t: Timers, cycles: u8) -> Timers {
    let (sequencer, underflow) = spec_step_multiple(t.divider_sequencer, cycles);
    Timers {
        divider: if underflow { vstd::wrapping::u8_specs::wrapping_add(t.divider, 1) } else { t.divider },
        divider_sequencer: sequencer,
    }
}

impl Default for Timers {
    /// The reset state: divider zero, counting a 256-cycle period.
    fn default() -> (r: Self)
        ensures
            r == (Timers { divider: 0u8, divider_sequencer: FrameSequencer { timer: 255u32, period: 256u32 } }),
    {
        Timers { divider: 0, divider_sequencer: FrameSequencer::new(256 - 1, 256) }
    }
}

impl Timers {
    /// Advances the timer block by `cycles` machine cycles.
    pub fn step(&mut self, cycles: u8)
        ensures
            *final(self) == spec_timers_step(*old(self), cycles),
    {
        if self.divider_sequencer.step_multiple(cycles) {
            self.divider = self.divider.wrapping_add(1);
        }
    }

    /// Whether the timer block owns the given I/O register address.
    pub fn supports_io_register(&self, address: usize) -> (r: bool)
        ensures
            r == (address == 0xFF04),
    {
        address == 0xFF04
    }

    /// Reads the divider register.
    pub fn read_io_register(&self, address: usize) -> (r: u8)
        requires
            address == 0xFF04,
        ensures
            r == self.divider,
    {
        self.divider
    }

    /// Any write to the divider register resets it to zero; the written
    /// value is ignored.
    pub fn write_io_register(&mut self, _value: u8, address: usize)
        requires
            address == 0xFF04,
        ensures
            *final(self) == (Timers { divider: 0u8, ..*old(self) }),
    {
        self.divider = 0;
    }
}

} // verus!
