//! The five maskable interrupt lines and the set of lines a peripheral asks
//! to have flagged after a step.
use vstd::prelude::*;

use crate::memory::MemoryBus;
use crate::memory::BusView;
use crate::memory::spec_bus_wf;
use crate::memory::spec_read_byte;
use crate::memory::spec_write_byte;

verus! {

/// The address of the interrupt-enable register.
pub const INTERRUPT_ENABLE_ADDRESS: u16 = 0xFFFF;

/// The address of the interrupt-flag register.
pub const INTERRUPT_FLAG_ADDRESS: u16 = 0xFF0F;

/// One of the five interrupt lines, listed from highest priority down.
#[derive(Clone, Copy, PartialEq, Eq, Structural, Debug, Hash)]
pub enum Interrupt {
    VBlank,
    LCDStat,
    Timer,
    Serial,
    Joypad,
}

/// The bit each line occupies in the interrupt-enable and interrupt-flag
/// registers.
pub open spec fn spec_interrupt_mask(i: Interrupt) -> u8 {
    match i {
        Interrupt::VBlank => 0x01,
        Interrupt::LCDStat => 0x02,
        Interrupt::Timer => 0x04,
        Interrupt::Serial => 0x08,
        Interrupt::Joypad => 0x10,
    }
}

/// The fixed vector each line jumps to when serviced.
pub open spec fn spec_interrupt_vector(i: Interrupt) -> u16 {
    match i {
        Interrupt::VBlank => 0x40,
        Interrupt::LCDStat => 0x48,
        Interrupt::Timer => 0x50,
        Interrupt::Serial => 0x58,
        Interrupt::Joypad => 0x60,
    }
}

/// Whether the line's enable bit is set in the interrupt-enable register.
pub open spec fn spec_interrupt_enabled(b: BusView, i: Interrupt) -> bool {
    spec_read_byte(b, 0xFFFF) & spec_interrupt_mask(i) == spec_interrupt_mask(i)
}

/// Whether the line's pending bit is set in the interrupt-flag register.
pub open spec fn spec_interrupt_flagged(b: BusView, i: Interrupt) -> bool {
    spec_read_byte(b, 0xFF0F) & spec_interrupt_mask(i) == spec_interrupt_mask(i)
}

/// Whether the line is both enabled and pending.
pub open spec fn spec_interrupt_pending(b: BusView, i: Interrupt) -> bool {
    spec_interrupt_enabled(b, i) && spec_interrupt_flagged(b, i)
}

/// The bus with the line's pending bit set.
pub open spec fn spec_set_interrupt_flag(b: BusView, i: Interrupt) -> BusView {
    spec_write_byte(b, spec_read_byte(b, 0xFF0F) | spec_interrupt_mask(i), 0xFF0F)
}

/// The bus with the line's pending bit cleared.
pub open spec fn spec_clear_interrupt_flag(b: BusView, i: Interrupt) -> BusView {
    spec_write_byte(b, spec_read_byte(b, 0xFF0F) & !spec_interrupt_mask(i), 0xFF0F)
}

impl Interrupt {
    /// The line's bit in the enable and flag registers.
    pub fn interrupt_byte_mask(&self) -> (r: u8)
        ensures
            r == spec_interrupt_mask(*self),
    {
        match self {
            Interrupt::VBlank => 0x01,
            Interrupt::LCDStat => 0x02,
            Interrupt::Timer => 0x04,
            Interrupt::Serial => 0x08,
            Interrupt::Joypad => 0x10,
        }
    }

    /// Whether the line should be serviced now: both its enable and its
    /// pending bit are set.
    pub fn should_process_interrupt(&self, bus: &MemoryBus) -> (r: bool)
        requires
            spec_bus_wf(*bus),
        ensures
            r == spec_interrupt_pending(bus@, *self),
    {
        self.is_interrupt_enabled(bus) && self.is_interrupt_flag_set(bus)
    }

    /// Whether the line's enable bit is set.
    pub fn is_interrupt_enabled(&self, bus: &MemoryBus) -> (r: bool)
        requires
            spec_bus_wf(*bus),
        ensures
            r == spec_interrupt_enabled(bus@, *self),
    {
        let interrupt_enabled_byte = bus.read_byte(INTERRUPT_ENABLE_ADDRESS);
        let mask: u8 = self.interrupt_byte_mask();
        (interrupt_enabled_byte & mask) == mask
    }

    /// Whether the line's pending bit is set.
    pub fn is_interrupt_flag_set(&self, bus: &MemoryBus) -> (r: bool)
        requires
            spec_bus_wf(*bus),
        ensures
            r == spec_interrupt_flagged(bus@, *self),
    {
        let interrupt_flag_byte = bus.read_byte(INTERRUPT_FLAG_ADDRESS);
        let mask = self.interrupt_byte_mask();
        (interrupt_flag_byte & mask) == mask
    }

    /// Latches the line's pending bit in the interrupt-flag register.
    pub fn set_interrupt_flag(&self, bus: &mut MemoryBus)
        requires
            spec_bus_wf(*old(bus)),
        ensures
            final(bus)@ == spec_set_interrupt_flag(old(bus)@, *self),
            spec_bus_wf(*final(bus)),
            final(bus).apu.cycles == old(bus).apu.cycles,
    {
        self.set_interrupt_flag_to_value(true, bus);
    }

    /// Clears the line's pending bit in the interrupt-flag register.
    pub fn clear_interrupt_flag(&self, bus: &mut MemoryBus)
        requires
            spec_bus_wf(*old(bus)),
        ensures
            final(bus)@ == spec_clear_interrupt_flag(old(bus)@, *self),
            spec_bus_wf(*final(bus)),
            final(bus).apu.cycles == old(bus).apu.cycles,
    {
        self.set_interrupt_flag_to_value(false, bus);
    }

    /// Writes the line's pending bit to the given value.
    fn set_interrupt_flag_to_value(&self, value: bool, bus: &mut MemoryBus)
        requires
            spec_bus_wf(*old(bus)),
        ensures
            final(bus)@ == if value {
                spec_set_interrupt_flag(old(bus)@, *self)
            } else {
                spec_clear_interrupt_flag(old(bus)@, *self)
            },
            spec_bus_wf(*final(bus)),
            final(bus).apu.cycles == old(bus).apu.cycles,
    {
        let interrupt_flag_byte = bus.read_byte(INTERRUPT_FLAG_ADDRESS);
        let mask = self.interrupt_byte_mask();
        let new_flag_byte = if value {
            interrupt_flag_byte | mask
        } else {
            interrupt_flag_byte & !mask
        };
        bus.write_byte(new_flag_byte, INTERRUPT_FLAG_ADDRESS);
    }
}

/// The set of lines a peripheral wants flagged, one boolean per line.
#[derive(Clone, Copy, PartialEq, Eq, Structural, Debug)]
pub struct InterruptsToSet {
    pub vblank: bool,
    pub lcd_stat: bool,
    pub timer: bool,
    pub serial: bool,
    pub joypad: bool,
}

/// Whether a line is in the set.
pub open spec fn spec_is_interrupt_set(s: InterruptsToSet, i: Interrupt) -> bool {
    match i {
        Interrupt::VBlank => s.vblank,
        Interrupt::LCDStat => s.lcd_stat,
        Interrupt::Timer => s.timer,
        Interrupt::Serial => s.serial,
        Interrupt::Joypad => s.joypad,
    }
}

/// The set with one more line in it.
pub open spec fn spec_with_interrupt(s: InterruptsToSet, i: Interrupt) -> InterruptsToSet {
    match i {
        Interrupt::VBlank => InterruptsToSet { vblank: true, ..s },
        Interrupt::LCDStat => InterruptsToSet { lcd_stat: true, ..s },
        Interrupt::Timer => InterruptsToSet { timer: true, ..s },
        Interrupt::Serial => InterruptsToSet { serial: true, ..s },
        Interrupt::Joypad => InterruptsToSet { joypad: true, ..s },
    }
}

/// The empty set of lines.
pub open spec fn spec_no_interrupts() -> InterruptsToSet {
    InterruptsToSet { vblank: false, lcd_stat: false, timer: false, serial: false, joypad: false }
}

impl InterruptsToSet {
    /// Whether the line is in the set.
    pub fn is_interrupt_set(&self, interrupt: Interrupt) -> (r: bool)
        ensures
            r == spec_is_interrupt_set(*self, interrupt),
    {
        match interrupt {
            Interrupt::VBlank => self.vblank,
            Interrupt::LCDStat => self.lcd_stat,
            Interrupt::Timer => self.timer,
            Interrupt::Serial => self.serial,
            Interrupt::Joypad => self.joypad,
        }
    }

    /// Puts the line into the set.
    pub fn set_interrupt(&mut self, interrupt: Interrupt)
        ensures
            *final(self) == spec_with_interrupt(*old(self), interrupt),
    {
        match interrupt {
            Interrupt::VBlank => self.vblank = true,
            Interrupt::LCDStat => self.lcd_stat = true,
            Interrupt::Timer => self.timer = true,
            Interrupt::Serial => self.serial = true,
            Interrupt::Joypad => self.joypad = true,
        }
    }
}

impl Default for InterruptsToSet {
    /// The empty set.
    fn default() -> (r: Self)
        ensures
            r == spec_no_interrupts(),
    {
        InterruptsToSet { vblank: false, lcd_stat: false, timer: false, serial: false, joypad: false }
    }
}

} // verus!
