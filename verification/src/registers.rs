//! The register file of the processor: eight 8-bit registers, the four
//! condition flags, the stack pointer and the program counter.
use vstd::prelude::*;

verus! {

/// The four condition flags, stored in the upper nibble of the F register.
/// The lower nibble of F always reads as zero, which this representation
/// makes impossible to violate.
#[derive(Clone, Copy, PartialEq, Eq, Structural, Debug)]
pub struct FlagsRegister {
    pub zero: bool,
    pub subtract: bool,
    pub half_carry: bool,
    pub carry: bool,
}

/// The F register byte encoding: Z, N, H, C occupy bits 7 down to 4.
pub open spec fn spec_flags_to_byte(f: FlagsRegister) -> u8 {
    (if f.zero { 0x80u8 } else { 0u8 }) | (if f.subtract { 0x40u8 } else { 0u8 })
        | (if f.half_carry { 0x20u8 } else { 0u8 }) | (if f.carry { 0x10u8 } else { 0u8 })
}

/// Decoding a byte into flags drops the low nibble.
pub open spec fn spec_flags_from_byte(b: u8) -> FlagsRegister {
    FlagsRegister {
        zero: b & 0x80 != 0,
        subtract: b & 0x40 != 0,
        half_carry: b & 0x20 != 0,
        carry: b & 0x10 != 0,
    }
}

/// The high byte of a 16-bit word.
pub open spec fn spec_hi(w: u16) -> u8 {
    (w >> 8) as u8
}

/// The low byte of a 16-bit word.
pub open spec fn spec_lo(w: u16) -> u8 {
    w as u8
}

/// A 16-bit word assembled from a high and a low byte.
pub open spec fn spec_word(hi: u8, lo: u8) -> u16 {
    ((hi as u16) << 8) | (lo as u16)
}

/// Splitting a word into bytes and reassembling them is the identity, and
/// assembling two bytes then splitting gives the bytes back.
pub proof fn lemma_word_split_roundtrip(w: u16, hi: u8, lo: u8)
    by (bit_vector)
    ensures
        spec_word(spec_hi(w), spec_lo(w)) == w,
        spec_hi(spec_word(hi, lo)) == hi,
        spec_lo(spec_word(hi, lo)) == lo,
{
}

impl FlagsRegister {
    /// A flags value with every flag clear.
    pub fn new() -> (r: FlagsRegister)
        ensures
            r == (FlagsRegister { zero: false, subtract: false, half_carry: false, carry: false }),
    {
        FlagsRegister { zero: false, subtract: false, half_carry: false, carry: false }
    }

    /// The byte the F register reads as.
    pub fn to_byte(&self) -> (r: u8)
        ensures
            r == spec_flags_to_byte(*self),
    {
        (if self.zero { 0x80u8 } else { 0u8 }) | (if self.subtract { 0x40u8 } else { 0u8 })
            | (if self.half_carry { 0x20u8 } else { 0u8 }) | (if self.carry { 0x10u8 } else { 0u8 })
    }

    /// The flags encoded by a byte written to the F register.
    pub fn from_byte(b: u8) -> (r: FlagsRegister)
        ensures
            r == spec_flags_from_byte(b),
    {
        FlagsRegister {
            zero: b & 0x80 != 0,
            subtract: b & 0x40 != 0,
            half_carry: b & 0x20 != 0,
            carry: b & 0x10 != 0,
        }
    }
}

/// The register file. The 16-bit pairs BC, DE, HL and AF are views over the
/// byte registers, high byte first.
#[derive(Clone, Copy, PartialEq, Eq, Structural, Debug)]
pub struct Registers {
    pub a: u8,
    pub b: u8,
    pub c: u8,
    pub d: u8,
    pub e: u8,
    pub h: u8,
    pub l: u8,
    pub f: FlagsRegister,
    pub sp: u16,
    pub pc: u16,
}

/// The BC pair as a word.
pub open spec fn spec_bc(r: Registers) -> u16 {
    spec_word(r.b, r.c)
}

/// The DE pair as a word.
pub open spec fn spec_de(r: Registers) -> u16 {
    spec_word(r.d, r.e)
}

/// The HL pair as a word.
pub open spec fn spec_hl(r: Registers) -> u16 {
    spec_word(r.h, r.l)
}

/// The AF pair as a word; the low nibble always reads zero.
pub open spec fn spec_af(r: Registers) -> u16 {
    spec_word(r.a, spec_flags_to_byte(r.f))
}

/// The reset state of the register file: every register zero and every
/// flag clear.
pub open spec fn spec_registers_zeroed() -> Registers {
    Registers {
        a: 0u8,
        b: 0u8,
        c: 0u8,
        d: 0u8,
        e: 0u8,
        h: 0u8,
        l: 0u8,
        f: FlagsRegister { zero: false, subtract: false, half_carry: false, carry: false },
        sp: 0u16,
        pc: 0u16,
    }
}

impl Registers {
    /// The reset state of the register file.
    pub fn new() -> (r: Registers)
        ensures
            r == spec_registers_zeroed(),
    {
        Registers {
            a: 0,
            b: 0,
            c: 0,
            d: 0,
            e: 0,
            h: 0,
            l: 0,
            f: FlagsRegister::new(),
            sp: 0,
            pc: 0,
        }
    }

    /// Reads the BC pair.
    pub fn get_bc(&self) -> (r: u16)
        ensures
            r == spec_bc(*self),
    {
        ((self.b as u16) << 8) | (self.c as u16)
    }

    /// Writes the BC pair, high byte to B.
    pub fn set_bc(&mut self, value: u16)
        ensures
            *final(self) == (Registers { b: spec_hi(value), c: spec_lo(value), ..*old(self) }),
    {
        self.b = hi_byte(value);
        self.c = lo_byte(value);
    }

    /// Reads the DE pair.
    pub fn get_de(&self) -> (r: u16)
        ensures
            r == spec_de(*self),
    {
        ((self.d as u16) << 8) | (self.e as u16)
    }

    /// Writes the DE pair, high byte to D.
    pub fn set_de(&mut self, value: u16)
        ensures
            *final(self) == (Registers { d: spec_hi(value), e: spec_lo(value), ..*old(self) }),
    {
        self.d = hi_byte(value);
        self.e = lo_byte(value);
    }

    /// Reads the HL pair.
    pub fn get_hl(&self) -> (r: u16)
        ensures
            r == spec_hl(*self),
    {
        ((self.h as u16) << 8) | (self.l as u16)
    }

    /// Writes the HL pair, high byte to H.
    pub fn set_hl(&mut self, value: u16)
        ensures
            *final(self) == (Registers { h: spec_hi(value), l: spec_lo(value), ..*old(self) }),
    {
        self.h = hi_byte(value);
        self.l = lo_byte(value);
    }

    /// Reads the AF pair; the low nibble of the result is always zero.
    pub fn get_af(&self) -> (r: u16)
        ensures
            r == spec_af(*self),
    {
        ((self.a as u16) << 8) | (self.f.to_byte() as u16)
    }

    /// Writes the AF pair, high byte to A; the low nibble of the written
    /// value is discarded, since only bits 7 to 4 of F exist.
    pub fn set_af(&mut self, value: u16)
        ensures
            *final(self) == (Registers {
                a: spec_hi(value),
                f: spec_flags_from_byte(spec_lo(value)),
                ..*old(self)
            }),
    {
        self.a = hi_byte(value);
        self.f = FlagsRegister::from_byte(lo_byte(value));
    }
}

/// The high byte of a word.
pub fn hi_byte(w: u16) -> (r: u8)
    ensures
        r == spec_hi(w),
{
    #[verifier::truncate] ((w >> 8) as u8)
}

/// The low byte of a word.
pub fn lo_byte(w: u16) -> (r: u8)
    ensures
        r == spec_lo(w),
{
    #[verifier::truncate] (w as u8)
}

/// Assembles a word from a high and a low byte.
pub fn word_from(hi: u8, lo: u8) -> (r: u16)
    ensures
        r == spec_word(hi, lo),
{
    ((hi as u16) << 8) | (lo as u16)
}

} // verus!
