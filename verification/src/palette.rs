//! The background palette: a mapping from the four tile pixel values to the
//! four grey shades, packed two bits per pixel value into one register byte.
use vstd::prelude::*;

verus! {

/// One of the four grey shades the display can show.
#[derive(Clone, Copy, PartialEq, Eq, Structural, Debug)]
pub enum Shade {
    White,
    LightGray,
    DarkGray,
    Black,
}

/// The RGB colour of a shade.
pub open spec fn spec_shade_colour(s: Shade) -> u32 {
    match s {
        Shade::White => 0xF8F8F8,
        Shade::LightGray => 0xA8A8A8,
        Shade::DarkGray => 0x505050,
        Shade::Black => 0x000000,
    }
}

/// The two-bit encoding of a shade in the palette register.
pub open spec fn spec_shade_bits(s: Shade) -> u8 {
    match s {
        Shade::White => 0,
        Shade::LightGray => 1,
        Shade::DarkGray => 2,
        Shade::Black => 3,
    }
}

/// The shade encoded by the low two bits of a value.
pub open spec fn spec_shade_from_bits(b: u8) -> Shade {
    if b & 0x03 == 0 {
        Shade::White
    } else if b & 0x03 == 1 {
        Shade::LightGray
    } else if b & 0x03 == 2 {
        Shade::DarkGray
    } else {
        Shade::Black
    }
}

impl Shade {
    /// The RGB colour of the shade.
    pub fn colour(&self) -> (r: u32)
        ensures
            r == spec_shade_colour(*self),
    {
        match self {
            Shade::White => 0xF8F8F8,
            Shade::LightGray => 0xA8A8A8,
            Shade::DarkGray => 0x505050,
            Shade::Black => 0x000000,
        }
    }

    /// The two-bit register encoding of the shade.
    pub fn to_bits(&self) -> (r: u8)
        ensures
            r == spec_shade_bits(*self),
    {
        match self {
            Shade::White => 0,
            Shade::LightGray => 1,
            Shade::DarkGray => 2,
            Shade::Black => 3,
        }
    }

    /// The shade encoded by the low two bits of a value.
    pub fn from_bits(value: u8) -> (r: Shade)
        ensures
            r == spec_shade_from_bits(value),
    {
        let b: u8 = value & 0x03;
        if b == 0 {
            Shade::White
        } else if b == 1 {
            Shade::LightGray
        } else if b == 2 {
            Shade::DarkGray
        } else {
            Shade::Black
        }
    }
}

/// One of the four values a tile pixel can take.
#[derive(Clone, Copy, PartialEq, Eq, Structural, Debug, Hash)]
pub enum PixelValue {
    Zero,
    One,
    Two,
    Three,
}

/// The bit position of a pixel value's shade in the palette register.
pub open spec fn spec_bit_position(p: PixelValue) -> u8 {
    match p {
        PixelValue::Zero => 0,
        PixelValue::One => 2,
        PixelValue::Two => 4,
        PixelValue::Three => 6,
    }
}

impl PixelValue {
    /// The bit position of this pixel value's shade in the palette register.
    pub fn bit_position(&self) -> (r: u8)
        ensures
            r == spec_bit_position(*self),
    {
        match self {
            PixelValue::Zero => 0,
            PixelValue::One => 2,
            PixelValue::Two => 4,
            PixelValue::Three => 6,
        }
    }
}

/// The palette: one shade per pixel value.
#[derive(Clone, Copy, PartialEq, Eq, Structural, Debug)]
pub struct Palette {
    pub zero: Shade,
    pub one: Shade,
    pub two: Shade,
    pub three: Shade,
}

/// The shade the palette assigns to a pixel value.
pub open spec fn spec_palette_shade(p: Palette, v: PixelValue) -> Shade {
    match v {
        PixelValue::Zero => p.zero,
        PixelValue::One => p.one,
        PixelValue::Two => p.two,
        PixelValue::Three => p.three,
    }
}

/// The palette with one entry replaced.
pub open spec fn spec_palette_with_shade(p: Palette, v: PixelValue, s: Shade) -> Palette {
    match v {
        PixelValue::Zero => Palette { zero: s, ..p },
        PixelValue::One => Palette { one: s, ..p },
        PixelValue::Two => Palette { two: s, ..p },
        PixelValue::Three => Palette { three: s, ..p },
    }
}

/// The register byte encoding the palette, two bits per entry.
pub open spec fn spec_palette_byte(p: Palette) -> u8 {
    spec_shade_bits(p.zero) | (spec_shade_bits(p.one) << 2) | (spec_shade_bits(p.two) << 4) | (
    spec_shade_bits(p.three) << 6)
}

/// The palette encoded by a register byte.
pub open spec fn spec_palette_from_byte(b: u8) -> Palette {
    Palette {
        zero: spec_shade_from_bits(b),
        one: spec_shade_from_bits(b >> 2),
        two: spec_shade_from_bits(b >> 4),
        three: spec_shade_from_bits(b >> 6),
    }
}

impl Palette {
    /// Looks the colour of a tile pixel up.
    pub fn get_colour(&self, tile_pixel: &PixelValue) -> (r: u32)
        ensures
            r == spec_shade_colour(spec_palette_shade(*self, *tile_pixel)),
    {
        match tile_pixel {
            PixelValue::Zero => self.zero.colour(),
            PixelValue::One => self.one.colour(),
            PixelValue::Two => self.two.colour(),
            PixelValue::Three => self.three.colour(),
        }
    }

    /// Replaces the shade of one pixel value.
    pub fn set_shade(&mut self, tile_pixel: &PixelValue, shade: Shade)
        ensures
            *final(self) == spec_palette_with_shade(*old(self), *tile_pixel, shade),
    {
        match tile_pixel {
            PixelValue::Zero => self.zero = shade,
            PixelValue::One => self.one = shade,
            PixelValue::Two => self.two = shade,
            PixelValue::Three => self.three = shade,
        }
    }

    /// Packs the palette into its register byte.
    pub fn to_byte(&self) -> (r: u8)
        ensures
            r == spec_palette_byte(*self),
    {
        self.zero.to_bits() | (self.one.to_bits() << 2) | (self.two.to_bits() << 4) | (
        self.three.to_bits() << 6)
    }

    /// Unpacks a register byte into a palette.
    pub fn from_byte(value: u8) -> (r: Palette)
        ensures
            r == spec_palette_from_byte(value),
    {
        Palette {
            zero: Shade::from_bits(value),
            one: Shade::from_bits(value >> 2),
            two: Shade::from_bits(value >> 4),
            three: Shade::from_bits(value >> 6),
        }
    }
}

impl Default for Palette {
    /// The identity palette: each pixel value maps to its natural shade.
    fn default() -> (r: Self)
        ensures
            r == (Palette {
                zero: Shade::White,
                one: Shade::LightGray,
                two: Shade::DarkGray,
                three: Shade::Black,
            }),
    {
        Palette {
            zero: Shade::White,
            one: Shade::LightGray,
            two: Shade::DarkGray,
            three: Shade::Black,
        }
    }
}

} // verus!
