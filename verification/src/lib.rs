//! A verified emulation core for the Sharp SM83 processor found in the
//! original Game Boy, together with the bus, video, timer, input and audio
//! state machines that hang off its address space.
//!
//! The processor model (`cpu`) is the heart of the crate: fetching, decoding
//! and executing instructions is specified down to the bit level, including
//! flag computation, cycle counts and interrupt dispatch.
use vstd::prelude::*;

pub mod registers;
pub mod instructions;
pub mod interrupts;
pub mod frame_sequencer;
pub mod timers;
pub mod input;
pub mod palette;
pub mod tile;
pub mod ppu;
pub mod channels;
pub mod apu;
pub mod memory;
pub mod cpu;

verus! {

/// The master clock rate of the emulated processor, in Hz.
pub const CPU_CLOCK_RATE_HZ: u32 = 4194304;

/// The whole emulated machine: one processor (with its bus and every
/// peripheral hanging off it).
pub struct DMG01 {
    pub cpu: crate::cpu::CPU,
}

impl DMG01 {
    /// A machine at reset over the given cartridge.
    pub fn new(cart: Option<crate::memory::Cartridge>) -> (r: DMG01)
        ensures
            r.cpu.registers == crate::registers::spec_registers_zeroed(),
            r.cpu.interrupt_master_enable,
            !r.cpu.halted,
            crate::cpu::spec_cpu_wf(r.cpu),
    {
        DMG01 { cpu: crate::cpu::CPU::new(cart) }
    }
}

} // verus!
