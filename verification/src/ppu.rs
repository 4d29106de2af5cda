//! The pixel-processing unit: video RAM, the decoded tile set, the
//! four-mode scanline state machine, and line-by-line background rendering
//! into a framebuffer.
//!
//! The shared cell a windowing thread reads frames from lives outside this
//! core; the host copies the framebuffer out after `render`.
use vstd::prelude::*;

use crate::interrupts::Interrupt;
use crate::interrupts::InterruptsToSet;
use crate::interrupts::spec_no_interrupts;
use crate::interrupts::spec_with_interrupt;
use crate::palette::Palette;
use crate::palette::PixelValue;
use crate::palette::spec_palette_shade;
use crate::palette::spec_palette_from_byte;
use crate::palette::spec_palette_byte;
use crate::palette::spec_shade_colour;
use crate::tile::Tile;

verus! {

/// The width of the visible display, in pixels.
pub const LCD_WIDTH: u8 = 160;

/// The height of the visible display, in lines.
pub const LCD_HEIGHT: u8 = 144;

/// The mode the scanline state machine is in.
#[derive(Clone, Copy, PartialEq, Eq, Structural, Debug)]
pub enum PPUMode {
    HBlank,
    VBlank,
    OAMAccess,
    VRAMAccess,
}

/// The background scroll registers.
#[derive(Clone, Copy, PartialEq, Eq, Structural, Debug)]
pub struct Scroll {
    pub horiz: u8,
    pub vert: u8,
}

/// The lines whose rendering is still pending, with the scroll state each
/// was queued under.
#[derive(Clone, Copy)]
pub struct LinesToRender {
    pub jobs: [Option<Scroll>; 144],
}

/// The pixel-processing unit.
pub struct PPU {
    pub vram: [u8; 8192],
    pub tile_set: [Tile; 384],
    pub mode: PPUMode,
    pub cycles: u16,
    pub line: u8,
    pub scroll: Scroll,
    pub palette: Palette,
    pub lines_to_render: LinesToRender,
    pub framebuffer: [u32; 23040],
}

/// The mathematical image of the unit. The video RAM and the framebuffer
/// appear as byte and pixel sequences, the tile set as one 64-entry pixel
/// sequence per tile.
#[verifier::ext_equal]
pub ghost struct PpuView {
    pub vram: Seq<u8>,
    pub tiles: Seq<Seq<PixelValue>>,
    pub mode: PPUMode,
    pub cycles: u16,
    pub line: u8,
    pub scroll: Scroll,
    pub palette: Palette,
    pub jobs: Seq<Option<Scroll>>,
    pub framebuffer: Seq<u32>,
}

impl View for PPU {
    type V = PpuView;

    open spec fn view(&self) -> PpuView {
        PpuView {
            vram: self.vram@,
            tiles: self.tile_set@.map_values(|t: Tile| t.pixels@),
            mode: self.mode,
            cycles: self.cycles,
            line: self.line,
            scroll: self.scroll,
            palette: self.palette,
            jobs: self.lines_to_render.jobs@,
            framebuffer: self.framebuffer@,
        }
    }
}

/// The unit's running bounds: the cycle counter stays clear of overflow and
/// the line counter stays inside the frame for the current mode.
pub open spec fn spec_ppu_wf(p: PpuView) -> bool {
    &&& p.cycles <= 0xFF00
    &&& match p.mode {
        PPUMode::VBlank => p.line < 154,
        _ => p.line < 144,
    }
}

/// The unit after its current line is queued for rendering: lines past the
/// visible frame are not queued.
pub open spec fn spec_queue_line(p: PpuView) -> PpuView {
    if p.line < 144 {
        PpuView { jobs: p.jobs.update(p.line as int, Some(p.scroll)), ..p }
    } else {
        p
    }
}

/// The scanline state machine advanced by `cycles`: HBlank hands lines over
/// to OAM scan (or to VBlank at the frame's end, raising the VBlank
/// interrupt), VBlank counts ten overscan lines, and the OAM and VRAM scan
/// phases time out into each other; leaving the VRAM scan queues the line
/// just drawn.
#[verifier::opaque]
pub open spec fn spec_ppu_step(p: PpuView, cycles: u8) -> (PpuView, InterruptsToSet) {
    let total = ((p.cycles + cycles) as u16);
    match p.mode {
        PPUMode::HBlank => {
            if total >= 200 {
                let next_line = ((p.line + 1) as u8);
                if next_line >= 144 {
                    (
                        PpuView { mode: PPUMode::VBlank, cycles: (total % 200) as u16, line: next_line, ..p },
                        spec_with_interrupt(spec_no_interrupts(), Interrupt::VBlank),
                    )
                } else {
                    (
                        PpuView { mode: PPUMode::OAMAccess, cycles: (total % 200) as u16, line: next_line, ..p },
                        spec_no_interrupts(),
                    )
                }
            } else {
                (PpuView { cycles: total, ..p }, spec_no_interrupts())
            }
        },
        PPUMode::VBlank => {
            if total >= 456 {
                let next_line = ((p.line + 1) as u8);
                if next_line == 154 {
                    (
                        PpuView { mode: PPUMode::OAMAccess, cycles: (total % 456) as u16, line: 0u8, ..p },
                        spec_no_interrupts(),
                    )
                } else {
                    (
                        PpuView { cycles: (total % 456) as u16, line: next_line, ..p },
                        spec_no_interrupts(),
                    )
                }
            } else {
                (PpuView { cycles: total, ..p }, spec_no_interrupts())
            }
        },
        PPUMode::OAMAccess => {
            if total >= 80 {
                (
                    PpuView { mode: PPUMode::VRAMAccess, cycles: (total % 80) as u16, ..p },
                    spec_no_interrupts(),
                )
            } else {
                (PpuView { cycles: total, ..p }, spec_no_interrupts())
            }
        },
        PPUMode::VRAMAccess => {
            if total >= 172 {
                (
                    spec_queue_line(PpuView { mode: PPUMode::HBlank, cycles: (total % 172) as u16, ..p }),
                    spec_no_interrupts(),
                )
            } else {
                (PpuView { cycles: total, ..p }, spec_no_interrupts())
            }
        },
    }
}

/// The unit after a write to one of its registers: the two scroll
/// registers and the palette take the byte; the line counter is read-only.
pub open spec fn spec_ppu_reg_write(p: PpuView, value: u8, address: int) -> PpuView {
    if address == 0xFF42 {
        PpuView { scroll: Scroll { vert: value, ..p.scroll }, ..p }
    } else if address == 0xFF43 {
        PpuView { scroll: Scroll { horiz: value, ..p.scroll }, ..p }
    } else if address == 0xFF47 {
        PpuView { palette: spec_palette_from_byte(value), ..p }
    } else {
        p
    }
}

/// The value of one pixel of a tile row, decoded from the row's two bit
/// planes: the mask bit of the first byte gives the low bit, of the second
/// byte the high bit.
pub open spec fn spec_tile_pixel(byte1: u8, byte2: u8, px: u8) -> PixelValue {
    let mask = (1u8 << ((7 - px) as u8));
    let lsb = byte1 & mask;
    let msb = byte2 & mask;
    if msb != 0 && lsb != 0 {
        PixelValue::Three
    } else if msb != 0 {
        PixelValue::Two
    } else if lsb != 0 {
        PixelValue::One
    } else {
        PixelValue::Zero
    }
}

/// The unit after a byte is stored into video RAM: tile-data addresses also
/// refresh the eight pixels of the tile row the byte belongs to, decoding
/// them from the row's (now current) two bytes.
#[verifier::opaque]
pub open spec fn spec_write_vram(p: PpuView, value: u8, address: usize) -> PpuView {
    let vram = p.vram.update(address as int, value);
    if address >= 0x1800 {
        PpuView { vram: vram, ..p }
    } else {
        let even_address = address & 0xFFFE;
        let byte1 = vram[even_address as int];
        let byte2 = vram[even_address + 1];
        let tile_index = address / 16;
        let row_index = (address % 16) / 2;
        let tile = Seq::new(64, |i: int|
            if row_index * 8 <= i < row_index * 8 + 8 {
                spec_tile_pixel(byte1, byte2, (i - row_index * 8) as u8)
            } else {
                p.tiles[tile_index as int][i]
            });
        PpuView { vram: vram, tiles: p.tiles.update(tile_index as int, tile), ..p }
    }
}

/// The colour of one pixel of one tile under the current palette.
pub open spec fn spec_pixel_from_tile(p: PpuView, tile: u8, row: u8, col: u8) -> u32 {
    spec_shade_colour(spec_palette_shade(p.palette, p.tiles[tile as int][row * 8 + col]))
}

/// The colour of one background pixel of a line rendered under a given
/// scroll: the scrolled position picks a tile out of the background map and
/// a pixel out of that tile.
pub open spec fn spec_render_pixel(p: PpuView, line: u8, scroll: Scroll, col: u8) -> u32 {
    let pixel_row = vstd::wrapping::u8_specs::wrapping_add(line, scroll.vert);
    let pixel_col = vstd::wrapping::u8_specs::wrapping_add(col, scroll.horiz);
    let tile_address = 0x1800 + (pixel_row / 8) * 32 + (pixel_col / 8);
    let tile_byte = p.vram[tile_address as int];
    spec_pixel_from_tile(p, tile_byte, pixel_row % 8, pixel_col % 8)
}

/// The unit after rendering: every queued line is redrawn into the
/// framebuffer under the scroll it was queued with, other lines keep their
/// pixels, and the queue empties.
#[verifier::opaque]
pub open spec fn spec_render(p: PpuView) -> PpuView {
    PpuView {
        framebuffer: Seq::new(23040, |i: int|
            match p.jobs[i / 160] {
                Some(scroll) => spec_render_pixel(p, (i / 160) as u8, scroll, (i % 160) as u8),
                None => p.framebuffer[i],
            }),
        jobs: Seq::new(144, |i: int| None::<Scroll>),
        ..p
    }
}

/// The reset state of the unit: empty video RAM and tile set, first line,
/// HBlank, no scroll, the identity palette, nothing queued, a black frame.
pub open spec fn spec_ppu_initial() -> PpuView {
    PpuView {
        vram: Seq::new(8192, |i: int| 0u8),
        tiles: Seq::new(384, |i: int| Seq::new(64, |j: int| PixelValue::Zero)),
        mode: PPUMode::HBlank,
        cycles: 0u16,
        line: 0u8,
        scroll: Scroll { horiz: 0, vert: 0 },
        palette: Palette {
            zero: crate::palette::Shade::White,
            one: crate::palette::Shade::LightGray,
            two: crate::palette::Shade::DarkGray,
            three: crate::palette::Shade::Black,
        },
        jobs: Seq::new(144, |i: int| None::<Scroll>),
        framebuffer: Seq::new(23040, |i: int| 0u32),
    }
}

impl PPU {
    /// The reset state.
    pub fn new() -> (r: PPU)
        ensures
            r@ == spec_ppu_initial(),
            spec_ppu_wf(r@),
    {
        let empty = Tile::empty_tile();
        let r = PPU {
            vram: [0u8; 8192],
            tile_set: [empty; 384],
            mode: PPUMode::HBlank,
            cycles: 0,
            line: 0,
            scroll: Scroll { horiz: 0, vert: 0 },
            palette: Palette::default(),
            lines_to_render: LinesToRender { jobs: [None; 144] },
            framebuffer: [0u32; 23040],
        };
        proof {
            assert(r@.vram =~= Seq::new(8192, |i: int| 0u8));
            assert(r@.tiles =~~= Seq::new(384, |i: int| Seq::new(64, |j: int| PixelValue::Zero)));
            assert(r@.jobs =~= Seq::new(144, |i: int| None::<Scroll>));
            assert(r@.framebuffer =~= Seq::new(23040, |i: int| 0u32));
        }
        r
    }

    /// Whether the unit owns the given I/O register address: the two scroll
    /// registers, the line counter and the palette register.
    pub fn supports_io_register(&self, address: usize) -> (r: bool)
        ensures
            r == (address == 0xFF42 || address == 0xFF43 || address == 0xFF44 || address
                == 0xFF47),
    {
        match address {
            0xFF42 | 0xFF43 | 0xFF44 | 0xFF47 => true,
            _ => false,
        }
    }

    /// Reads a unit register: vertical scroll, horizontal scroll, the
    /// current line, or the packed palette.
    pub fn read_io_register(&self, address: usize) -> (r: u8)
        requires
            address == 0xFF42 || address == 0xFF43 || address == 0xFF44 || address == 0xFF47,
        ensures
            address == 0xFF42 ==> r == self.scroll.vert,
            address == 0xFF43 ==> r == self.scroll.horiz,
            address == 0xFF44 ==> r == self.line,
            address == 0xFF47 ==> r == spec_palette_byte(self.palette),
    {
        if address == 0xFF42 {
            self.scroll.vert
        } else if address == 0xFF43 {
            self.scroll.horiz
        } else if address == 0xFF44 {
            self.line
        } else {
            self.palette.to_byte()
        }
    }

    /// Writes a unit register. The line counter at 0xFF44 is read-only and
    /// writes to it are ignored.
    pub fn write_io_register(&mut self, value: u8, address: usize)
        requires
            address == 0xFF42 || address == 0xFF43 || address == 0xFF44 || address == 0xFF47,
        ensures
            final(self)@ == spec_ppu_reg_write(old(self)@, value, address as int),
    {
        if address == 0xFF42 {
            self.scroll.vert = value;
        } else if address == 0xFF43 {
            self.scroll.horiz = value;
        } else if address == 0xFF47 {
            self.palette = Palette::from_byte(value);
        }
    }

    /// Reads a byte of video RAM.
    pub fn read_vram(&self, address: usize) -> (r: u8)
        requires
            address < 8192,
        ensures
            r == self@.vram[address as int],
    {
        self.vram[address]
    }

    /// Stores a byte into video RAM, refreshing the decoded tile row it
    /// belongs to when it lands in the tile-data area.
    pub fn write_vram(&mut self, value: u8, address: usize)
        requires
            address < 8192,
        ensures
            final(self)@ == spec_write_vram(old(self)@, value, address),
            spec_ppu_wf(old(self)@) ==> spec_ppu_wf(final(self)@),
    {
        proof {
            reveal(spec_write_vram);
        }
        self.vram[address] = value;

        if address >= 0x1800 {
            assert(final(self)@ =~~= spec_write_vram(old(self)@, value, address));
            return ;
        }
        let even_address: usize = address & 0xFFFE;
        assert(even_address + 1 < 8192 && even_address <= address) by (bit_vector)
            requires
                even_address == address & 0xFFFE,
                address < 0x1800usize,
        ;
        let byte1: u8 = self.vram[even_address];
        let byte2: u8 = self.vram[even_address + 1];

        let tile_index: usize = address / 16;
        let row_index: usize = (address % 16) / 2;

        let mut tile = self.tile_set[tile_index];
        let ghost old_tile = tile;
        for pixel_index in 0..8usize
            invariant
                tile_index < 384,
                row_index < 8,
                tile.pixels@.len() == 64,
                forall|i: int|
                    0 <= i < 64 ==> tile.pixels@[i] == if row_index * 8 <= i < row_index * 8
                        + pixel_index {
                        spec_tile_pixel(byte1, byte2, (i - row_index * 8) as u8)
                    } else {
                        old_tile.pixels@[i]
                    },
        {
            let shift: u8 = 7 - (pixel_index as u8);
            let mask: u8 = 1u8 << shift;
            let lsb: u8 = byte1 & mask;
            let msb: u8 = byte2 & mask;
            let pixel_value = if msb != 0 && lsb != 0 {
                PixelValue::Three
            } else if msb != 0 {
                PixelValue::Two
            } else if lsb != 0 {
                PixelValue::One
            } else {
                PixelValue::Zero
            };
            tile.pixels[row_index * 8 + pixel_index] = pixel_value;
        }
        self.tile_set[tile_index] = tile;

        proof {
            let s = spec_write_vram(old(self)@, value, address);
            assert(final(self)@.vram =~= s.vram);
            assert(tile.pixels@ =~= s.tiles[tile_index as int]);
            assert(final(self)@.tiles =~~= s.tiles);
            assert(final(self)@ =~~= s);
        }
    }

    /// Advances the scanline state machine, reporting the interrupts to
    /// flag.
    pub fn step(&mut self, cycles: u8) -> (r: InterruptsToSet)
        requires
            spec_ppu_wf(old(self)@),
        ensures
            (final(self)@, r) == spec_ppu_step(old(self)@, cycles),
            spec_ppu_wf(final(self)@),
    {
        proof {
            reveal(spec_ppu_step);
        }
        self.cycles = self.cycles + (cycles as u16);

        let mut interrupts = InterruptsToSet::default();
        match self.mode {
            PPUMode::HBlank => {
                if self.cycles >= 200 {
                    self.cycles = self.cycles % 200;
                    self.line = self.line + 1;

                    if self.line >= LCD_HEIGHT {
                        self.mode = PPUMode::VBlank;
                        interrupts.set_interrupt(Interrupt::VBlank);
                    } else {
                        self.mode = PPUMode::OAMAccess;
                    }
                }
            },
            PPUMode::VBlank => {
                if self.cycles >= 456 {
                    self.cycles = self.cycles % 456;
                    self.line = self.line + 1;

                    if self.line == 154 {
                        self.mode = PPUMode::OAMAccess;
                        self.line = 0;
                    }
                }
            },
            PPUMode::OAMAccess => {
                if self.cycles >= 80 {
                    self.cycles = self.cycles % 80;
                    self.mode = PPUMode::VRAMAccess;
                }
            },
            PPUMode::VRAMAccess => {
                if self.cycles >= 172 {
                    self.cycles = self.cycles % 172;
                    self.mode = PPUMode::HBlank;
                    self.queue_current_line_to_render();
                }
            },
        }

        interrupts
    }

    /// Queues the current line (with the current scroll) for rendering;
    /// overscan lines are not queued.
    fn queue_current_line_to_render(&mut self)
        ensures
            final(self)@ == spec_queue_line(old(self)@),
    {
        if self.line < LCD_HEIGHT {
            self.lines_to_render.jobs[self.line as usize] = Some(self.scroll);
        }
    }

    /// Redraws every queued line into the framebuffer and empties the
    /// queue.
    pub fn render(&mut self)
        ensures
            final(self)@ == spec_render(old(self)@),
            spec_ppu_wf(old(self)@) ==> spec_ppu_wf(final(self)@),
    {
        proof {
            reveal(spec_render);
        }
        let mut framebuffer = self.framebuffer;
        let ghost p = self@;
        for line in 0..144usize
            invariant
                self == old(self),
                p == self@,
                framebuffer@.len() == 23040,
                forall|i: int|
                    0 <= i < 23040 ==> framebuffer@[i] == if i / 160 < line {
                        match p.jobs[i / 160] {
                            Some(scroll) => spec_render_pixel(p, (i / 160) as u8, scroll, (i % 160) as u8),
                            None => p.framebuffer[i],
                        }
                    } else {
                        p.framebuffer[i]
                    },
        {
            match self.lines_to_render.jobs[line] {
                Some(scroll) => {
                    let rendered_line = self.render_line(line as u8, scroll);
                    let pixel_offset: usize = line * 160;
                    for column in 0..160usize
                        invariant
                            self == old(self),
                            p == self@,
                            line < 144,
                            pixel_offset == line * 160,
                            rendered_line@.len() == 160,
                            framebuffer@.len() == 23040,
                            p.jobs[line as int] == Some(scroll),
                            forall|c: int|
                                0 <= c < 160 ==> rendered_line@[c] == spec_render_pixel(
                                    p,
                                    line as u8,
                                    scroll,
                                    c as u8,
                                ),
                            forall|i: int|
                                0 <= i < 23040 ==> framebuffer@[i] == if i / 160 < line || (i / 160
                                    == line && i % 160 < column) {
                                    match p.jobs[i / 160] {
                                        Some(sc) => spec_render_pixel(p, (i / 160) as u8, sc, (i % 160) as u8),
                                        None => p.framebuffer[i],
                                    }
                                } else {
                                    p.framebuffer[i]
                                },
                    {
                        framebuffer[pixel_offset + column] = rendered_line[column];
                        proof {
                            assert((pixel_offset + column) / 160 == line && (pixel_offset + column)
                                % 160 == column) by (nonlinear_arith)
                                requires
                                    pixel_offset == line * 160,
                                    0 <= column < 160,
                                    0 <= line,
                            ;
                        }
                    }
                },
                None => {},
            }
        }
        self.framebuffer = framebuffer;
        self.lines_to_render.jobs = [None; 144];

        proof {
            let s = spec_render(p);
            assert(final(self)@.framebuffer =~= s.framebuffer);
            assert(final(self)@.jobs =~= s.jobs);
            assert(final(self)@ =~~= s);
        }
    }

    /// Renders one line of the background under the given scroll.
    fn render_line(&self, line: u8, scroll: Scroll) -> (r: [u32; 160])
        ensures
            forall|c: int| 0 <= c < 160 ==> r@[c] == spec_render_pixel(self@, line, scroll, c as u8),
    {
        let pixel_row: u8 = line.wrapping_add(scroll.vert);
        let mut rendered_line: [u32; 160] = [0u32; 160];

        for column in 0..160usize
            invariant
                pixel_row == vstd::wrapping::u8_specs::wrapping_add(line, scroll.vert),
                rendered_line@.len() == 160,
                forall|c: int|
                    0 <= c < column ==> rendered_line@[c] == spec_render_pixel(
                        self@,
                        line,
                        scroll,
                        c as u8,
                    ),
        {
            let pixel_column: u8 = (column as u8).wrapping_add(scroll.horiz);
            let tile_row: usize = (pixel_row as usize) / 8;
            let tile_column: usize = (pixel_column as usize) / 8;
            let tile_address: usize = 0x1800 + tile_row * 32 + tile_column;
            let tile_byte: u8 = self.vram[tile_address];
            rendered_line[column] = self.get_pixel_colour_from_tile(
                tile_byte,
                pixel_row % 8,
                pixel_column % 8,
            );
        }
        rendered_line
    }

    /// The colour of one pixel of one tile under the current palette.
    fn get_pixel_colour_from_tile(&self, tile: u8, row: u8, col: u8) -> (r: u32)
        requires
            row < 8,
            col < 8,
        ensures
            r == spec_pixel_from_tile(self@, tile, row, col),
    {
        let t = self.tile_set[tile as usize];
        let tile_pixel = t.pixels[(row as usize) * 8 + (col as usize)];
        self.palette.get_colour(&tile_pixel)
    }
}

} // verus!
