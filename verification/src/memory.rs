//! The memory bus: it routes every byte of the 64KB address space to the
//! boot ROM, the cartridge, video RAM, an I/O register of a peripheral, or
//! plain memory. The processor consumes the whole map through `read_byte`
//! and `write_byte` and never special-cases addresses itself.
use vstd::prelude::*;

use crate::apu::APU;
use crate::apu::spec_apu_read;
use crate::apu::spec_apu_write;
use crate::apu::spec_apu_wf;
use crate::apu::ApuView;
use crate::input::InputState;
use crate::input::spec_joypad_read;
use crate::ppu::PPU;
use crate::ppu::PpuView;
use crate::ppu::spec_ppu_wf;
use crate::ppu::spec_write_vram;
use crate::ppu::Scroll;
use crate::palette::spec_palette_byte;
use crate::palette::spec_palette_from_byte;
use crate::timers::Timers;

verus! {

/// The first address of video RAM in the processor's address space.
pub const VRAM_BEGIN: usize = 0x8000;

/// The last address of video RAM in the processor's address space.
pub const VRAM_END: usize = 0x9FFF;

/// The size of video RAM.
pub const VRAM_SIZE: usize = 0x2000;

/// A cartridge: its ROM image.
pub struct Cartridge {
    pub rom: Vec<u8>,
}

/// The memory bus and the peripherals mapped into it.
pub struct MemoryBus {
    pub memory: [u8; 65536],
    pub boot_rom: [u8; 256],
    pub cart_rom: Option<Cartridge>,
    pub finished_boot: bool,
    pub ppu: PPU,
    pub apu: APU,
    pub input: InputState,
    pub timer: Timers,
}

/// The mathematical image of the bus.
#[verifier::ext_equal]
pub ghost struct BusView {
    pub mem: Seq<u8>,
    pub boot: Seq<u8>,
    pub cart: Option<Seq<u8>>,
    pub finished_boot: bool,
    pub ppu: PpuView,
    pub apu: ApuView,
    pub input: InputState,
    pub timer: Timers,
}

impl View for MemoryBus {
    type V = BusView;

    open spec fn view(&self) -> BusView {
        BusView {
            mem: self.memory@,
            boot: self.boot_rom@,
            cart: match self.cart_rom {
                Some(c) => Some(c.rom@),
                None => None,
            },
            finished_boot: self.finished_boot,
            ppu: self.ppu@,
            apu: self.apu@,
            input: self.input,
            timer: self.timer,
        }
    }
}

/// The bus's running bounds: its two stateful peripherals keep theirs.
pub open spec fn spec_bus_wf(b: MemoryBus) -> bool {
    &&& spec_ppu_wf(b.ppu@)
    &&& spec_apu_wf(b.apu)
}

/// The byte read from an I/O register address (0xFF00 to 0xFF7F): the
/// joypad latch, a video register, a sound register, the divider, or — for
/// unclaimed addresses — plain memory.
#[verifier::opaque]
pub open spec fn spec_read_io(b: BusView, address: int) -> u8 {
    if address == 0xFF00 {
        spec_joypad_read(b.input)
    } else if address == 0xFF42 {
        b.ppu.scroll.vert
    } else if address == 0xFF43 {
        b.ppu.scroll.horiz
    } else if address == 0xFF44 {
        b.ppu.line
    } else if address == 0xFF47 {
        spec_palette_byte(b.ppu.palette)
    } else if 0xFF10 <= address <= 0xFF19 && address != 0xFF15 {
        spec_apu_read(b.apu, address)
    } else if address == 0xFF04 {
        b.timer.divider
    } else {
        b.mem[address]
    }
}

/// The byte read from an address: the boot ROM while booting, then the
/// cartridge ROM (a missing cartridge and addresses past its image read as
/// zero), video RAM, the I/O registers, or plain memory.
#[verifier::opaque]
pub open spec fn spec_read_byte(b: BusView, address: u16) -> u8 {
    let a = address as int;
    if a <= 0xFF && !b.finished_boot {
        b.boot[a]
    } else if a <= 0x7FFF {
        match b.cart {
            Some(rom) => if a < rom.len() {
                rom[a]
            } else {
                0u8
            },
            None => 0u8,
        }
    } else if a <= 0x9FFF {
        b.ppu.vram[a - 0x8000]
    } else if 0xFF00 <= a <= 0xFF7F {
        spec_read_io(b, a)
    } else {
        b.mem[a]
    }
}

/// The bus after a write to an I/O register address: the first write to
/// 0xFF50 ends the boot ROM overlay; otherwise the owning peripheral takes
/// the byte, and unclaimed addresses store it in plain memory. The line
/// counter at 0xFF44 is read-only.
#[verifier::opaque]
pub open spec fn spec_write_io(b: BusView, value: u8, address: int) -> BusView {
    if address == 0xFF50 && !b.finished_boot {
        BusView { finished_boot: true, ..b }
    } else if address == 0xFF00 {
        BusView {
            input: InputState {
                select_buttons: (!value & 0x20u8) != 0,
                select_directions: (!value & 0x10u8) != 0,
                ..b.input
            },
            ..b
        }
    } else if address == 0xFF42 || address == 0xFF43 || address == 0xFF44 || address == 0xFF47 {
        BusView { ppu: crate::ppu::spec_ppu_reg_write(b.ppu, value, address), ..b }
    } else if 0xFF10 <= address <= 0xFF19 && address != 0xFF15 {
        BusView { apu: spec_apu_write(b.apu, value, address), ..b }
    } else if address == 0xFF04 {
        BusView { timer: Timers { divider: 0u8, ..b.timer }, ..b }
    } else {
        BusView { mem: b.mem.update(address, value), ..b }
    }
}

/// The bus after a write to an address: writes into the boot ROM overlay,
/// to address zero and to the switchable ROM bank are ignored; video RAM
/// and the I/O registers go to their owners; everything else lands in
/// plain memory.
#[verifier::opaque]
pub open spec fn spec_write_byte(b: BusView, value: u8, address: u16) -> BusView {
    let a = address as int;
    if a <= 0xFF && !b.finished_boot {
        b
    } else if a == 0x0000 || (0x4000 <= a <= 0x7FFF) {
        b
    } else if 0x8000 <= a <= 0x9FFF {
        BusView { ppu: spec_write_vram(b.ppu, value, (a - 0x8000) as usize), ..b }
    } else if 0xFF00 <= a <= 0xFF7F {
        spec_write_io(b, value, a)
    } else {
        BusView { mem: b.mem.update(a, value), ..b }
    }
}

/// An address backed by plain memory: above the cartridge and video areas
/// and outside the I/O register block.
pub open spec fn spec_plain_ram(address: u16) -> bool {
    0xA000 <= address && !(0xFF00 <= address <= 0xFF7F)
}

/// Reading plain memory after a write to plain memory sees the written
/// byte at the same address and the old byte elsewhere.
pub proof fn lemma_plain_read_after_write(
    b: BusView,
    value: u8,
    write_address: u16,
    read_address: u16,
)
    requires
        spec_plain_ram(write_address),
        spec_plain_ram(read_address),
        b.mem.len() == 65536,
    ensures
        spec_read_byte(spec_write_byte(b, value, write_address), read_address) == if read_address
            == write_address {
            value
        } else {
            spec_read_byte(b, read_address)
        },
        spec_write_byte(b, value, write_address).mem.len() == b.mem.len(),
{
    reveal(spec_read_byte);
    reveal(spec_write_byte);
    reveal(spec_read_io);
    reveal(spec_write_io);
}

/// A write to plain memory leaves every I/O register read unchanged.
pub proof fn lemma_plain_write_preserves_io_read(
    b: BusView,
    value: u8,
    write_address: u16,
    read_address: u16,
)
    requires
        spec_plain_ram(write_address),
        0xFF00 <= read_address <= 0xFF7F,
        b.mem.len() == 65536,
    ensures
        spec_read_byte(spec_write_byte(b, value, write_address), read_address) == spec_read_byte(
            b,
            read_address,
        ),
        spec_write_byte(b, value, write_address).mem.len() == b.mem.len(),
{
    reveal(spec_read_byte);
    reveal(spec_write_byte);
    reveal(spec_read_io);
    reveal(spec_write_io);
}

/// The interrupt-flag register reads back exactly what was written to it.
pub proof fn lemma_interrupt_flag_write_read(b: BusView, value: u8)
    requires
        b.mem.len() == 65536,
    ensures
        spec_read_byte(spec_write_byte(b, value, 0xFF0F), 0xFF0F) == value,
        spec_write_byte(b, value, 0xFF0F).mem.len() == b.mem.len(),
{
    reveal(spec_read_byte);
    reveal(spec_write_byte);
    reveal(spec_read_io);
    reveal(spec_write_io);
}

impl MemoryBus {
    /// A bus over the given cartridge: plain memory zeroed, the boot ROM
    /// overlay active, every peripheral at its reset state.
    pub fn new(cart: Option<Cartridge>) -> (r: MemoryBus)
        ensures
            r@.mem == Seq::new(65536, |i: int| 0u8),
            r@.boot.len() == 256,
            r@.cart == (match cart {
                Some(c) => Some(c.rom@),
                None => None::<Seq<u8>>,
            }),
            !r@.finished_boot,
            r@.ppu == crate::ppu::spec_ppu_initial(),
            r@.apu == crate::apu::spec_apu_initial(),
            r@.input == (InputState {
                select_buttons: false,
                select_directions: false,
                current_joypad: crate::input::JoypadInput {
                    start: false,
                    select: false,
                    a: false,
                    b: false,
                    up: false,
                    down: false,
                    left: false,
                    right: false,
                },
            }),
            r@.timer == (Timers {
                divider: 0u8,
                divider_sequencer: crate::frame_sequencer::FrameSequencer {
                    timer: 255u32,
                    period: 256u32,
                },
            }),
            spec_bus_wf(r),
    {
        let r = MemoryBus {
            memory: [0u8; 65536],
            boot_rom: [
                0x31, 0xFE, 0xFF, 0xAF, 0x21, 0xFF, 0x9F, 0x32, 0xCB, 0x7C, 0x20, 0xFB, 0x21, 0x26,
                0xFF, 0x0E, 0x11, 0x3E, 0x80, 0x32, 0xE2, 0x0C, 0x3E, 0xF3, 0xE2, 0x32, 0x3E, 0x77,
                0x77, 0x3E, 0xFC, 0xE0, 0x47, 0x11, 0x04, 0x01, 0x21, 0x10, 0x80, 0x1A, 0xCD, 0x95,
                0x00, 0xCD, 0x96, 0x00, 0x13, 0x7B, 0xFE, 0x34, 0x20, 0xF3, 0x11, 0xD8, 0x00, 0x06,
                0x08, 0x1A, 0x13, 0x22, 0x23, 0x05, 0x20, 0xF9, 0x3E, 0x19, 0xEA, 0x10, 0x99, 0x21,
                0x2F, 0x99, 0x0E, 0x0C, 0x3D, 0x28, 0x08, 0x32, 0x0D, 0x20, 0xF9, 0x2E, 0x0F, 0x18,
                0xF3, 0x67, 0x3E, 0x64, 0x57, 0xE0, 0x42, 0x3E, 0x91, 0xE0, 0x40, 0x04, 0x1E, 0x02,
                0x0E, 0x0C, 0xF0, 0x44, 0xFE, 0x90, 0x20, 0xFA, 0x0D, 0x20, 0xF7, 0x1D, 0x20, 0xF2,
                0x0E, 0x13, 0x24, 0x7C, 0x1E, 0x83, 0xFE, 0x62, 0x28, 0x06, 0x1E, 0xC1, 0xFE, 0x64,
                0x20, 0x06, 0x7B, 0xE2, 0x0C, 0x3E, 0x87, 0xE2, 0xF0, 0x42, 0x90, 0xE0, 0x42, 0x15,
                0x20, 0xD2, 0x05, 0x20, 0x4F, 0x16, 0x20, 0x18, 0xCB, 0x4F, 0x06, 0x04, 0xC5, 0xCB,
                0x11, 0x17, 0xC1, 0xCB, 0x11, 0x17, 0x05, 0x20, 0xF5, 0x22, 0x23, 0x22, 0x23, 0xC9,
                0xCE, 0xED, 0x66, 0x66, 0xCC, 0x0D, 0x00, 0x0B, 0x03, 0x73, 0x00, 0x83, 0x00, 0x0C,
                0x00, 0x0D, 0x00, 0x08, 0x11, 0x1F, 0x88, 0x89, 0x00, 0x0E, 0xDC, 0xCC, 0x6E, 0xE6,
                0xDD, 0xDD, 0xD9, 0x99, 0xBB, 0xBB, 0x67, 0x63, 0x6E, 0x0E, 0xEC, 0xCC, 0xDD, 0xDC,
                0x99, 0x9F, 0xBB, 0xB9, 0x33, 0x3E, 0x3C, 0x42, 0xB9, 0xA5, 0xB9, 0xA5, 0x42, 0x3C,
                0x21, 0x04, 0x01, 0x11, 0xA8, 0x00, 0x1A, 0x13, 0xBE, 0x20, 0xFE, 0x23, 0x7D, 0xFE,
                0x34, 0x20, 0xF5, 0x06, 0x19, 0x78, 0x86, 0x23, 0x05, 0x20, 0xFB, 0x86, 0x20, 0xFE,
                0x3E, 0x01, 0xE0, 0x50,
            ],
            cart_rom: cart,
            finished_boot: false,
            ppu: PPU::new(),
            apu: APU::new(),
            input: InputState::default(),
            timer: Timers::default(),
        };
        proof {
            assert(r@.mem =~= Seq::new(65536, |i: int| 0u8));
        }
        r
    }

    /// Reads the byte the address routes to.
    pub fn read_byte(&self, address: u16) -> (r: u8)
        requires
            spec_bus_wf(*self),
        ensures
            r == spec_read_byte(self@, address),
    {
        proof {
            reveal(spec_read_byte);
        }
        let a: usize = address as usize;
        if a <= 0xFF && !self.finished_boot {
            self.boot_rom[a]
        } else if a <= 0x7FFF {
            match &self.cart_rom {
                Some(c) => {
                    if a < c.rom.len() {
                        c.rom[a]
                    } else {
                        0
                    }
                },
                None => 0,
            }
        } else if a <= 0x9FFF {
            self.ppu.read_vram(a - 0x8000)
        } else if 0xFF00 <= a && a <= 0xFF7F {
            self.read_io_register(a)
        } else {
            self.memory[a]
        }
    }

    /// Reads the byte at an offset into the zero page at 0xFF00.
    pub fn read_byte_from_offset(&self, address_offset: u8) -> (r: u8)
        requires
            spec_bus_wf(*self),
        ensures
            r == spec_read_byte(self@, (0xFF00 + address_offset) as u16),
    {
        self.read_byte((address_offset as u16) + 0xFF00)
    }

    /// Writes a byte to the address it routes to.
    #[verifier::rlimit(100)]
    pub fn write_byte(&mut self, value: u8, address: u16)
        requires
            spec_bus_wf(*old(self)),
        ensures
            final(self)@ == spec_write_byte(old(self)@, value, address),
            spec_bus_wf(*final(self)),
            final(self).apu.cycles == old(self).apu.cycles,
    {
        proof {
            reveal(spec_write_byte);
        }
        let a: usize = address as usize;
        if a <= 0xFF && !self.finished_boot {
        } else if a == 0x0000 || (0x4000 <= a && a <= 0x7FFF) {
        } else if 0x8000 <= a && a <= 0x9FFF {
            self.ppu.write_vram(value, a - 0x8000);
        } else if 0xFF00 <= a && a <= 0xFF7F {
            self.write_io_register(value, a);
        } else {
            self.memory[a] = value;
            proof {
                assert(final(self)@.mem =~= spec_write_byte(old(self)@, value, address).mem);
            }
        }
    }

    /// Writes a byte at an offset into the zero page at 0xFF00.
    pub fn write_byte_to_offset(&mut self, value: u8, address_offset: u8)
        requires
            spec_bus_wf(*old(self)),
        ensures
            final(self)@ == spec_write_byte(old(self)@, value, (0xFF00 + address_offset) as u16),
            spec_bus_wf(*final(self)),
            final(self).apu.cycles == old(self).apu.cycles,
    {
        self.write_byte(value, (address_offset as u16) + 0xFF00)
    }

    /// Reads an I/O register.
    fn read_io_register(&self, address: usize) -> (r: u8)
        requires
            spec_bus_wf(*self),
            0xFF00 <= address <= 0xFF7F,
        ensures
            r == spec_read_io(self@, address as int),
    {
        proof {
            reveal(spec_read_io);
        }
        if self.input.supports_io_register(address) {
            self.input.read_io_register(address)
        } else if self.ppu.supports_io_register(address) {
            self.ppu.read_io_register(address)
        } else if APU::supports_io_register(address) {
            self.apu.read_io_register(address)
        } else if self.timer.supports_io_register(address) {
            self.timer.read_io_register(address)
        } else {
            self.memory[address]
        }
    }

    /// Writes an I/O register.
    #[verifier::rlimit(100)]
    fn write_io_register(&mut self, value: u8, address: usize)
        requires
            spec_bus_wf(*old(self)),
            0xFF00 <= address <= 0xFF7F,
        ensures
            final(self)@ == spec_write_io(old(self)@, value, address as int),
            spec_bus_wf(*final(self)),
            final(self).apu.cycles == old(self).apu.cycles,
    {
        proof {
            reveal(spec_write_io);
        }
        if address == 0xFF50 && !self.finished_boot {
            self.finished_boot = true;
        } else if self.input.supports_io_register(address) {
            self.input.write_io_register(value, address);
        } else if self.ppu.supports_io_register(address) {
            self.ppu.write_io_register(value, address);
        } else if APU::supports_io_register(address) {
            self.apu.write_io_register(value, address);
        } else if self.timer.supports_io_register(address) {
            self.timer.write_io_register(value, address);
        } else {
            self.memory[address] = value;
            proof {
                assert(final(self)@.mem =~= spec_write_io(old(self)@, value, address as int).mem);
            }
        }
    }
}

} // verus!
