//! The processor: fetch, decode, execute. The register arithmetic, flag
//! computation, cycle costs, stack protocol and interrupt dispatch are
//! specified bit for bit; one `step_single_instruction` advances the whole
//! machine by one instruction (or one halted tick).
use vstd::prelude::*;

use crate::apu::spec_apu_step;
use crate::apu::spec_apu_wf;
use crate::instructions::AddressContainingRegister;
use crate::instructions::ArithmeticSource;
use crate::instructions::ByteRegister;
use crate::instructions::IncrementDecrementTarget;
use crate::instructions::Instruction;
use crate::instructions::JumpCondition;
use crate::instructions::JumpTarget;
use crate::instructions::LoadType;
use crate::instructions::RestartTarget;
use crate::instructions::RotateDirection;
use crate::instructions::WordRegister;
use crate::instructions::spec_decode;
use crate::instructions::spec_get_address;
use crate::instructions::spec_get_byte;
use crate::instructions::spec_get_word;
use crate::instructions::spec_set_byte;
use crate::instructions::spec_set_word;
use crate::instructions::spec_take_jump;
use crate::interrupts::Interrupt;
use crate::interrupts::InterruptsToSet;
use crate::interrupts::spec_interrupt_mask;
use crate::interrupts::spec_interrupt_vector;
use crate::interrupts::spec_is_interrupt_set;
use crate::memory::BusView;
use crate::memory::Cartridge;
use crate::memory::MemoryBus;
use crate::memory::spec_bus_wf;
use crate::memory::spec_read_byte;
use crate::memory::spec_write_byte;
use crate::ppu::spec_ppu_step;
use crate::registers::FlagsRegister;
use crate::registers::Registers;
use crate::registers::spec_hi;
use crate::registers::spec_hl;
use crate::registers::spec_lo;
use crate::registers::spec_word;
use crate::registers::hi_byte;
use crate::registers::lo_byte;
use crate::registers::word_from;

verus! {

/// A fatal decode failure: the fetched opcode byte has no table entry.
/// The engine stops advancing rather than guess, since silent continuation
/// would desynchronize all subsequent timing.
#[derive(Clone, Copy, PartialEq, Eq, Structural, Debug)]
pub struct DecodeError {
    pub opcode: u8,
    pub prefixed: bool,
}

/// The processor and everything on its bus.
pub struct CPU {
    pub registers: Registers,
    pub bus: MemoryBus,
    pub interrupt_master_enable: bool,
    pub halted: bool,
}

/// The mathematical image of the machine.
#[verifier::ext_equal]
pub ghost struct CpuView {
    pub regs: Registers,
    pub bus: BusView,
    pub ime: bool,
    pub halted: bool,
}

impl View for CPU {
    type V = CpuView;

    open spec fn view(&self) -> CpuView {
        CpuView {
            regs: self.registers,
            bus: self.bus@,
            ime: self.interrupt_master_enable,
            halted: self.halted,
        }
    }
}

/// The machine's running bounds: those of its bus.
pub open spec fn spec_cpu_wf(c: CPU) -> bool {
    spec_bus_wf(c.bus)
}

/// A 16-bit value one above another, modulo 65536.
pub open spec fn spec_wadd16(w: u16, n: u16) -> u16 {
    (if w + n > 0xFFFF {
        w + n - 0x10000
    } else {
        w + n
    }) as u16
}

/// A 16-bit value one below another, modulo 65536.
pub open spec fn spec_wsub16(w: u16, n: u16) -> u16 {
    (if w - n < 0 {
        w - n + 0x10000
    } else {
        w - n
    }) as u16
}

/// An 8-bit signed displacement sign-extended to 16 bits.
pub open spec fn spec_sign_extend(b: u8) -> u16 {
    if b >= 0x80 {
        (b + 0xFF00) as u16
    } else {
        b as u16
    }
}

/// 8-bit addition: the wrapped sum; carry out of bit 7, half-carry out of
/// bit 3, zero from the result, subtract clear.
pub open spec fn spec_add8(a: u8, b: u8) -> (u8, FlagsRegister) {
    let v = (if a + b > 255 {
        a + b - 256
    } else {
        a + b
    }) as u8;
    (
        v,
        FlagsRegister {
            zero: v == 0,
            subtract: false,
            half_carry: (a & 0x0F) + (b & 0x0F) > 0x0F,
            carry: a + b > 255,
        },
    )
}

/// 8-bit addition with the incoming carry folded in before the carry and
/// half-carry are computed.
pub open spec fn spec_adc8(a: u8, b: u8, carry_in: bool) -> (u8, FlagsRegister) {
    let c: u8 = if carry_in {
        1
    } else {
        0
    };
    let v = (if a + b + c > 255 {
        a + b + c - 256
    } else {
        a + b + c
    }) as u8;
    (
        v,
        FlagsRegister {
            zero: v == 0,
            subtract: false,
            half_carry: (a & 0x0F) + (b & 0x0F) + c > 0x0F,
            carry: a + b + c > 255,
        },
    )
}

/// 8-bit subtraction: the wrapped difference; carry is the borrow out of
/// bit 7, half-carry the borrow out of bit 4, subtract set.
pub open spec fn spec_sub8(a: u8, b: u8) -> (u8, FlagsRegister) {
    let v = (if a - b < 0 {
        a - b + 256
    } else {
        a - b
    }) as u8;
    (
        v,
        FlagsRegister {
            zero: v == 0,
            subtract: true,
            half_carry: (a & 0x0F) < (b & 0x0F),
            carry: a < b,
        },
    )
}

/// 8-bit subtraction with the incoming borrow folded in.
pub open spec fn spec_sbc8(a: u8, b: u8, carry_in: bool) -> (u8, FlagsRegister) {
    let c: u8 = if carry_in {
        1
    } else {
        0
    };
    let v = (if a - b - c < 0 {
        a - b - c + 256
    } else {
        a - b - c
    }) as u8;
    (
        v,
        FlagsRegister {
            zero: v == 0,
            subtract: true,
            half_carry: (a & 0x0F) < (b & 0x0F) + c,
            carry: a < b + c,
        },
    )
}

/// The comparison flags of CP: those of subtraction, with the result
/// discarded.
pub open spec fn spec_cp8(a: u8, b: u8) -> FlagsRegister {
    FlagsRegister {
        zero: a == b,
        subtract: true,
        half_carry: (a & 0x0F) < (b & 0x0F),
        carry: a < b,
    }
}

/// Bitwise AND; the half-carry flag is set by this operation alone.
pub open spec fn spec_and8(a: u8, b: u8) -> (u8, FlagsRegister) {
    let v = a & b;
    (v, FlagsRegister { zero: v == 0, subtract: false, half_carry: true, carry: false })
}

/// Bitwise OR; all other flags clear.
pub open spec fn spec_or8(a: u8, b: u8) -> (u8, FlagsRegister) {
    let v = a | b;
    (v, FlagsRegister { zero: v == 0, subtract: false, half_carry: false, carry: false })
}

/// Bitwise XOR; all other flags clear.
pub open spec fn spec_xor8(a: u8, b: u8) -> (u8, FlagsRegister) {
    let v = a ^ b;
    (v, FlagsRegister { zero: v == 0, subtract: false, half_carry: false, carry: false })
}

/// An 8-bit increment: half-carry out of bit 3, carry untouched.
pub open spec fn spec_inc8(v: u8, f: FlagsRegister) -> (u8, FlagsRegister) {
    let n = (if v + 1 > 255 {
        0
    } else {
        v + 1
    }) as u8;
    (
        n,
        FlagsRegister {
            zero: n == 0,
            subtract: false,
            half_carry: (v & 0x0F) + 1 > 0x0F,
            carry: f.carry,
        },
    )
}

/// An 8-bit decrement: half-carry is the borrow out of the low nibble,
/// carry untouched.
pub open spec fn spec_dec8(v: u8, f: FlagsRegister) -> (u8, FlagsRegister) {
    let n = (if v - 1 < 0 {
        255
    } else {
        v - 1
    }) as u8;
    (
        n,
        FlagsRegister {
            zero: n == 0,
            subtract: true,
            half_carry: (v & 0x0F) == 0,
            carry: f.carry,
        },
    )
}

/// 16-bit addition into HL: carry out of bit 15, half-carry out of bit 11,
/// zero untouched, subtract clear.
pub open spec fn spec_add_hl16(hl: u16, b: u16, f: FlagsRegister) -> (u16, FlagsRegister) {
    (
        spec_wadd16(hl, b),
        FlagsRegister {
            zero: f.zero,
            subtract: false,
            half_carry: (hl & 0x07FF) + (b & 0x07FF) > 0x07FF,
            carry: hl + b > 0xFFFF,
        },
    )
}

/// The flags of the two stack-pointer-plus-displacement instructions:
/// carry and half-carry come from the low-byte addition, zero and subtract
/// are forced clear.
pub open spec fn spec_sp_offset_flags(sp: u16, displacement: u16) -> FlagsRegister {
    FlagsRegister {
        zero: false,
        subtract: false,
        half_carry: (sp & 0x000F) + (displacement & 0x000F) > 0x000F,
        carry: (sp & 0x00FF) + (displacement & 0x00FF) > 0x00FF,
    }
}

/// The BCD correction of DAA: 0x06 and/or 0x60 is added (after an
/// addition) or subtracted (after a subtraction), driven by the flags and
/// the nibble overflow conditions; carry reports a correction in the high
/// digit, half-carry clears.
pub open spec fn spec_daa(a: u8, f: FlagsRegister) -> (u8, FlagsRegister) {
    let correction: u8 = (if f.half_carry || (!f.subtract && (a & 0x0F) > 0x09) {
        0x06u8
    } else {
        0u8
    }) | (if f.carry || (!f.subtract && a > 0x99) {
        0x60u8
    } else {
        0u8
    });
    let adjusted = if !f.subtract {
        (if a + correction > 255 {
            a + correction - 256
        } else {
            a + correction
        }) as u8
    } else {
        (if a - correction < 0 {
            a - correction + 256
        } else {
            a - correction
        }) as u8
    };
    (
        adjusted,
        FlagsRegister {
            zero: adjusted == 0,
            subtract: f.subtract,
            half_carry: false,
            carry: correction >= 0x60,
        },
    )
}

/// The complement of the accumulator: subtract and half-carry set, the
/// others untouched.
pub open spec fn spec_cpl8(a: u8, f: FlagsRegister) -> (u8, FlagsRegister) {
    (a ^ 0xFF, FlagsRegister { zero: f.zero, subtract: true, half_carry: true, carry: f.carry })
}

/// A rotate that cycles the leaving bit back in at the other end; carry
/// receives the cycled bit. The accumulator form always clears zero.
pub open spec fn spec_rotate(v: u8, direction: RotateDirection, set_zero: bool) -> (
    u8,
    FlagsRegister,
) {
    let cycled: u8 = match direction {
        RotateDirection::Left => (v & 0x80) >> 7,
        RotateDirection::Right => (v & 0x01) << 7,
    };
    let shifted: u8 = match direction {
        RotateDirection::Left => v << 1,
        RotateDirection::Right => v >> 1,
    };
    let n = shifted | cycled;
    (
        n,
        FlagsRegister {
            zero: set_zero && n == 0,
            subtract: false,
            half_carry: false,
            carry: cycled != 0,
        },
    )
}

/// A rotate through the carry flag: the old carry enters at the vacated
/// end and the leaving bit becomes the new carry. The accumulator form
/// always clears zero.
pub open spec fn spec_rotate_through_carry(
    v: u8,
    direction: RotateDirection,
    carry_in: bool,
    set_zero: bool,
) -> (u8, FlagsRegister) {
    let c: u8 = if carry_in {
        1
    } else {
        0
    };
    let n: u8 = match direction {
        RotateDirection::Left => (v << 1) | c,
        RotateDirection::Right => (v >> 1) | (c << 7),
    };
    let leaving: u8 = match direction {
        RotateDirection::Left => v & 0x80,
        RotateDirection::Right => v & 0x01,
    };
    (
        n,
        FlagsRegister {
            zero: set_zero && n == 0,
            subtract: false,
            half_carry: false,
            carry: leaving != 0,
        },
    )
}

/// A shift: left shifts fill with zero; right shifts fill with zero (SRL)
/// or keep the sign bit (SRA). Carry receives the shifted-out bit and zero
/// comes from the result.
pub open spec fn spec_shift(v: u8, direction: RotateDirection, retain_shifted_bit: bool) -> (
    u8,
    FlagsRegister,
) {
    let shifted_out: u8 = match direction {
        RotateDirection::Left => (v & 0x80) >> 7,
        RotateDirection::Right => v & 0x01,
    };
    let n: u8 = match direction {
        RotateDirection::Left => v << 1,
        RotateDirection::Right => if retain_shifted_bit {
            (v >> 1) | (v & 0x80)
        } else {
            v >> 1
        },
    };
    (
        n,
        FlagsRegister {
            zero: n == 0,
            subtract: false,
            half_carry: false,
            carry: shifted_out != 0,
        },
    )
}

/// The nibble swap; only zero can end up set.
pub open spec fn spec_swap8(v: u8) -> (u8, FlagsRegister) {
    let n = ((v & 0xF0) >> 4) | ((v & 0x0F) << 4);
    (n, FlagsRegister { zero: n == 0, subtract: false, half_carry: false, carry: false })
}

/// The flags of BIT: zero reports a clear bit, half-carry is set, carry
/// untouched.
pub open spec fn spec_bit_test(v: u8, bit: u8, f: FlagsRegister) -> FlagsRegister {
    FlagsRegister {
        zero: ((1u8 << bit) & v) == 0,
        subtract: false,
        half_carry: true,
        carry: f.carry,
    }
}

/// The byte with one bit cleared; RES touches no flags.
pub open spec fn spec_res_bit(v: u8, bit: u8) -> u8 {
    v & !(1u8 << bit)
}

/// The byte with one bit set; SET touches no flags.
pub open spec fn spec_set_bit(v: u8, bit: u8) -> u8 {
    v | (1u8 << bit)
}

/// The bus and stack pointer after a 16-bit push: the stack grows
/// downward, high byte written first, so the value sits little-endian in
/// memory.
pub open spec fn spec_push(b: BusView, sp: u16, value: u16) -> (BusView, u16) {
    let sp1 = spec_wsub16(sp, 1);
    let b1 = spec_write_byte(b, spec_hi(value), sp1);
    let sp2 = spec_wsub16(sp1, 1);
    let b2 = spec_write_byte(b1, spec_lo(value), sp2);
    (b2, sp2)
}

/// The value popped from the stack and the stack pointer after: low byte
/// read first, then the high byte, the pointer rising past both.
pub open spec fn spec_pop(b: BusView, sp: u16) -> (u16, u16) {
    let low = spec_read_byte(b, sp);
    let high = spec_read_byte(b, spec_wadd16(sp, 1));
    (spec_word(high, low), spec_wadd16(sp, 2))
}

/// The byte after the opcode.
pub open spec fn spec_read_next_byte(c: CpuView) -> u8 {
    spec_read_byte(c.bus, spec_wadd16(c.regs.pc, 1))
}

/// The 16-bit literal after the opcode, low byte first.
pub open spec fn spec_read_next_word(c: CpuView) -> u16 {
    spec_word(
        spec_read_byte(c.bus, spec_wadd16(c.regs.pc, 2)),
        spec_read_byte(c.bus, spec_wadd16(c.regs.pc, 1)),
    )
}

/// An 8-bit operand's value together with the instruction length it
/// implies: registers and the HL-addressed byte sit in a one-byte
/// instruction, the immediate in a two-byte one.
pub open spec fn spec_operand(c: CpuView, source: ArithmeticSource) -> (u8, u16) {
    match source {
        ArithmeticSource::A => (c.regs.a, 1),
        ArithmeticSource::B => (c.regs.b, 1),
        ArithmeticSource::C => (c.regs.c, 1),
        ArithmeticSource::D => (c.regs.d, 1),
        ArithmeticSource::E => (c.regs.e, 1),
        ArithmeticSource::H => (c.regs.h, 1),
        ArithmeticSource::L => (c.regs.l, 1),
        ArithmeticSource::HL_INDIRECT => (spec_read_byte(c.bus, spec_hl(c.regs)), 1),
        ArithmeticSource::D8 => (spec_read_next_byte(c), 2),
    }
}

/// The machine after a byte is stored back into an 8-bit operand; the
/// immediate operand cannot be stored to.
pub open spec fn spec_store_operand(c: CpuView, source: ArithmeticSource, value: u8) -> CpuView {
    match source {
        ArithmeticSource::A => CpuView { regs: Registers { a: value, ..c.regs }, ..c },
        ArithmeticSource::B => CpuView { regs: Registers { b: value, ..c.regs }, ..c },
        ArithmeticSource::C => CpuView { regs: Registers { c: value, ..c.regs }, ..c },
        ArithmeticSource::D => CpuView { regs: Registers { d: value, ..c.regs }, ..c },
        ArithmeticSource::E => CpuView { regs: Registers { e: value, ..c.regs }, ..c },
        ArithmeticSource::H => CpuView { regs: Registers { h: value, ..c.regs }, ..c },
        ArithmeticSource::L => CpuView { regs: Registers { l: value, ..c.regs }, ..c },
        ArithmeticSource::HL_INDIRECT => CpuView {
            bus: spec_write_byte(c.bus, value, spec_hl(c.regs)),
            ..c
        },
        ArithmeticSource::D8 => c,
    }
}

/// The cycle cost of an 8-bit arithmetic or logic instruction.
pub open spec fn spec_arith_cycles(source: ArithmeticSource) -> u8 {
    match source {
        ArithmeticSource::HL_INDIRECT => 8,
        ArithmeticSource::D8 => 8,
        _ => 4,
    }
}

/// The cycle cost of a prefixed rotate, shift, swap, reset or set.
pub open spec fn spec_prefixed_cycles(source: ArithmeticSource) -> u8 {
    match source {
        ArithmeticSource::HL_INDIRECT => 16,
        _ => 8,
    }
}

/// The machine after the HL-adjusting addressing modes step HL up or
/// down; the other modes leave it alone.
pub open spec fn spec_adjust_hl(c: CpuView, source: AddressContainingRegister) -> CpuView {
    match source {
        AddressContainingRegister::HLI => CpuView {
            regs: spec_set_word(WordRegister::HL, spec_wadd16(spec_hl(c.regs), 1), c.regs),
            ..c
        },
        AddressContainingRegister::HLD => CpuView {
            regs: spec_set_word(WordRegister::HL, spec_wsub16(spec_hl(c.regs), 1), c.regs),
            ..c
        },
        _ => c,
    }
}

/// The machine, next program counter and cycle cost after one load
/// instruction.
#[verifier::opaque]
pub open spec fn spec_execute_load(c: CpuView, load_type: LoadType) -> (CpuView, u16, u8) {
    let pc = c.regs.pc;
    match load_type {
        LoadType::ReadWordNumericLiteral(target, _) => {
            let value = spec_read_next_word(c);
            (
                CpuView { regs: spec_set_word(target, value, c.regs), ..c },
                spec_wadd16(pc, 3),
                12,
            )
        },
        LoadType::ReadByteNumericLiteral(target, _) => {
            let value = spec_read_next_byte(c);
            (CpuView { regs: spec_set_byte(target, value, c.regs), ..c }, spec_wadd16(pc, 2), 8)
        },
        LoadType::ReadByteFromAddressOffset(target, _) => {
            let value = spec_read_byte(c.bus, (0xFF00 + c.regs.c) as u16);
            (CpuView { regs: spec_set_byte(target, value, c.regs), ..c }, spec_wadd16(pc, 1), 8)
        },
        LoadType::ReadByteFromAddressLiteral(target, _) => {
            let address = spec_read_next_word(c);
            let value = spec_read_byte(c.bus, address);
            (CpuView { regs: spec_set_byte(target, value, c.regs), ..c }, spec_wadd16(pc, 3), 16)
        },
        LoadType::ReadByteFromAddressOffsetLiteral(target, _) => {
            let offset = spec_read_next_byte(c);
            let value = spec_read_byte(c.bus, (0xFF00 + offset) as u16);
            (CpuView { regs: spec_set_byte(target, value, c.regs), ..c }, spec_wadd16(pc, 2), 12)
        },
        LoadType::ReadByteFromAddress(target, source) => {
            let address = spec_get_address(source, c.regs);
            let value = spec_read_byte(c.bus, address);
            let c1 = CpuView { regs: spec_set_byte(target, value, c.regs), ..c };
            (spec_adjust_hl(c1, source), spec_wadd16(pc, 1), 8)
        },
        LoadType::WriteByteFromRegisterToAddressContainedInRegister(target, source) => {
            let address = spec_get_address(target, c.regs);
            let value = spec_get_byte(source, c.regs);
            let c1 = CpuView { bus: spec_write_byte(c.bus, value, address), ..c };
            (spec_adjust_hl(c1, target), spec_wadd16(pc, 1), 8)
        },
        LoadType::WriteByteFromRegisterToAddressOffsetLiteral(_, source) => {
            let offset = spec_read_next_byte(c);
            let value = spec_get_byte(source, c.regs);
            (
                CpuView { bus: spec_write_byte(c.bus, value, (0xFF00 + offset) as u16), ..c },
                spec_wadd16(pc, 2),
                12,
            )
        },
        LoadType::WriteByteFromRegisterToAddressLiteral(_, source) => {
            let address = spec_read_next_word(c);
            let value = spec_get_byte(source, c.regs);
            (CpuView { bus: spec_write_byte(c.bus, value, address), ..c }, spec_wadd16(pc, 3), 16)
        },
        LoadType::WriteByteFromRegisterToAddressOffsetRegister(_, source) => {
            let value = spec_get_byte(source, c.regs);
            (
                CpuView { bus: spec_write_byte(c.bus, value, (0xFF00 + c.regs.c) as u16), ..c },
                spec_wadd16(pc, 1),
                8,
            )
        },
        LoadType::WriteByteLiteralToAddressContainedInRegister(target, _) => {
            let address = spec_get_address(target, c.regs);
            let value = spec_read_next_byte(c);
            (CpuView { bus: spec_write_byte(c.bus, value, address), ..c }, spec_wadd16(pc, 2), 12)
        },
        LoadType::WriteWordInRegisterToAddressContainedInLiteral(_, source) => {
            let address = spec_read_next_word(c);
            let value = spec_get_word(source, c.regs);
            let b1 = spec_write_byte(c.bus, spec_lo(value), address);
            let b2 = spec_write_byte(b1, spec_hi(value), spec_wadd16(address, 1));
            (CpuView { bus: b2, ..c }, spec_wadd16(pc, 3), 20)
        },
        LoadType::CopyByteFromRegisterToRegister(target, source) => {
            let value = spec_get_byte(source, c.regs);
            (CpuView { regs: spec_set_byte(target, value, c.regs), ..c }, spec_wadd16(pc, 1), 4)
        },
        LoadType::CopyWordFromRegisterToRegister(target, source) => {
            let value = spec_get_word(source, c.regs);
            (CpuView { regs: spec_set_word(target, value, c.regs), ..c }, spec_wadd16(pc, 1), 8)
        },
        LoadType::CopyStackOffsetToRegister(target, _) => {
            let displacement = spec_sign_extend(spec_read_next_byte(c));
            let value = spec_wadd16(c.regs.sp, displacement);
            let regs1 = spec_set_word(target, value, c.regs);
            let regs2 = Registers { f: spec_sp_offset_flags(c.regs.sp, displacement), ..regs1 };
            (CpuView { regs: regs2, ..c }, spec_wadd16(pc, 2), 12)
        },
    }
}

/// The machine, next program counter and cycle cost after one
/// instruction. The program counter inside the machine state is not yet
/// advanced — the driver stores the returned one — but stack, flags,
/// registers and the bus have all taken their effects.
/// The semantics of the eight-operation arithmetic and logic block.
#[verifier::opaque]
pub open spec fn spec_execute_arithmetic(c: CpuView, instruction: Instruction) -> (CpuView, u16, u8) {
    let pc = c.regs.pc;
    match instruction {
        Instruction::ADD(source) => {
            let (value, pc_offset) = spec_operand(c, source);
            let (new_value, flags) = spec_add8(c.regs.a, value);
            (
                CpuView { regs: Registers { a: new_value, f: flags, ..c.regs }, ..c },
                spec_wadd16(pc, pc_offset),
                spec_arith_cycles(source),
            )
        },
        Instruction::ADC(source) => {
            let (value, pc_offset) = spec_operand(c, source);
            let (new_value, flags) = spec_adc8(c.regs.a, value, c.regs.f.carry);
            (
                CpuView { regs: Registers { a: new_value, f: flags, ..c.regs }, ..c },
                spec_wadd16(pc, pc_offset),
                spec_arith_cycles(source),
            )
        },
        Instruction::SUB(source) => {
            let (value, pc_offset) = spec_operand(c, source);
            let (new_value, flags) = spec_sub8(c.regs.a, value);
            (
                CpuView { regs: Registers { a: new_value, f: flags, ..c.regs }, ..c },
                spec_wadd16(pc, pc_offset),
                spec_arith_cycles(source),
            )
        },
        Instruction::SBC(source) => {
            let (value, pc_offset) = spec_operand(c, source);
            let (new_value, flags) = spec_sbc8(c.regs.a, value, c.regs.f.carry);
            (
                CpuView { regs: Registers { a: new_value, f: flags, ..c.regs }, ..c },
                spec_wadd16(pc, pc_offset),
                spec_arith_cycles(source),
            )
        },
        Instruction::CP(source) => {
            let (value, pc_offset) = spec_operand(c, source);
            (
                CpuView { regs: Registers { f: spec_cp8(c.regs.a, value), ..c.regs }, ..c },
                spec_wadd16(pc, pc_offset),
                spec_arith_cycles(source),
            )
        },
        Instruction::AND(source) => {
            let (value, pc_offset) = spec_operand(c, source);
            let (new_value, flags) = spec_and8(c.regs.a, value);
            (
                CpuView { regs: Registers { a: new_value, f: flags, ..c.regs }, ..c },
                spec_wadd16(pc, pc_offset),
                spec_arith_cycles(source),
            )
        },
        Instruction::OR(source) => {
            let (value, pc_offset) = spec_operand(c, source);
            let (new_value, flags) = spec_or8(c.regs.a, value);
            (
                CpuView { regs: Registers { a: new_value, f: flags, ..c.regs }, ..c },
                spec_wadd16(pc, pc_offset),
                spec_arith_cycles(source),
            )
        },
        Instruction::XOR(source) => {
            let (value, pc_offset) = spec_operand(c, source);
            let (new_value, flags) = spec_xor8(c.regs.a, value);
            (
                CpuView { regs: Registers { a: new_value, f: flags, ..c.regs }, ..c },
                spec_wadd16(pc, pc_offset),
                spec_arith_cycles(source),
            )
        },
        _ => (c, pc, 0),
    }
}

/// The semantics of the 16-bit additions, BCD adjustment, flag instructions and increments.
#[verifier::opaque]
pub open spec fn spec_execute_accumulator_misc(c: CpuView, instruction: Instruction) -> (CpuView, u16, u8) {
    let pc = c.regs.pc;
    match instruction {
        Instruction::ADD_HL(source) => {
            let value = spec_get_word(source, c.regs);
            let (new_value, flags) = spec_add_hl16(spec_hl(c.regs), value, c.regs.f);
            let regs1 = spec_set_word(WordRegister::HL, new_value, c.regs);
            (
                CpuView { regs: Registers { f: flags, ..regs1 }, ..c },
                spec_wadd16(pc, 1),
                8,
            )
        },
        Instruction::ADD_SP => {
            let displacement = spec_sign_extend(spec_read_next_byte(c));
            let new_sp = spec_wadd16(c.regs.sp, displacement);
            (
                CpuView {
                    regs: Registers {
                        sp: new_sp,
                        f: spec_sp_offset_flags(c.regs.sp, displacement),
                        ..c.regs
                    },
                    ..c
                },
                spec_wadd16(pc, 2),
                16,
            )
        },
        Instruction::DAA => {
            let (new_value, flags) = spec_daa(c.regs.a, c.regs.f);
            (
                CpuView { regs: Registers { a: new_value, f: flags, ..c.regs }, ..c },
                spec_wadd16(pc, 1),
                4,
            )
        },
        Instruction::CPL => {
            let (new_value, flags) = spec_cpl8(c.regs.a, c.regs.f);
            (
                CpuView { regs: Registers { a: new_value, f: flags, ..c.regs }, ..c },
                spec_wadd16(pc, 1),
                4,
            )
        },
        Instruction::SCF => {
            (
                CpuView {
                    regs: Registers {
                        f: FlagsRegister {
                            zero: c.regs.f.zero,
                            subtract: false,
                            half_carry: false,
                            carry: true,
                        },
                        ..c.regs
                    },
                    ..c
                },
                spec_wadd16(pc, 1),
                4,
            )
        },
        Instruction::CCF => {
            (
                CpuView {
                    regs: Registers {
                        f: FlagsRegister {
                            zero: c.regs.f.zero,
                            subtract: false,
                            half_carry: false,
                            carry: !c.regs.f.carry,
                        },
                        ..c.regs
                    },
                    ..c
                },
                spec_wadd16(pc, 1),
                4,
            )
        },
        Instruction::INC(target) => match target {
            IncrementDecrementTarget::Byte(source) => {
                let (value, pc_offset) = spec_operand(c, source);
                let (new_value, flags) = spec_inc8(value, c.regs.f);
                let c1 = CpuView { regs: Registers { f: flags, ..c.regs }, ..c };
                let c2 = spec_store_operand(c1, source, new_value);
                (
                    c2,
                    spec_wadd16(pc, pc_offset),
                    match source {
                        ArithmeticSource::HL_INDIRECT => 12,
                        _ => 4,
                    },
                )
            },
            IncrementDecrementTarget::Word(register) => {
                let value = spec_get_word(register, c.regs);
                (
                    CpuView { regs: spec_set_word(register, spec_wadd16(value, 1), c.regs), ..c },
                    spec_wadd16(pc, 1),
                    8,
                )
            },
        },
        Instruction::DEC(target) => match target {
            IncrementDecrementTarget::Byte(source) => {
                let (value, pc_offset) = spec_operand(c, source);
                let (new_value, flags) = spec_dec8(value, c.regs.f);
                let c1 = CpuView { regs: Registers { f: flags, ..c.regs }, ..c };
                let c2 = spec_store_operand(c1, source, new_value);
                (
                    c2,
                    spec_wadd16(pc, pc_offset),
                    match source {
                        ArithmeticSource::HL_INDIRECT => 12,
                        _ => 4,
                    },
                )
            },
            IncrementDecrementTarget::Word(register) => {
                let value = spec_get_word(register, c.regs);
                (
                    CpuView { regs: spec_set_word(register, spec_wsub16(value, 1), c.regs), ..c },
                    spec_wadd16(pc, 1),
                    8,
                )
            },
        },
        _ => (c, pc, 0),
    }
}

/// The semantics of control transfer, the stack instructions, halting and the interrupt gates.
#[verifier::opaque]
pub open spec fn spec_execute_control(c: CpuView, instruction: Instruction) -> (CpuView, u16, u8) {
    let pc = c.regs.pc;
    match instruction {
        Instruction::NOP => (c, spec_wadd16(pc, 1), 4),
        Instruction::HALT => (CpuView { halted: true, ..c }, spec_wadd16(pc, 1), 4),
        Instruction::STOP => (CpuView { halted: true, ..c }, spec_wadd16(pc, 2), 4),
        Instruction::DI => (CpuView { ime: false, ..c }, spec_wadd16(pc, 1), 4),
        Instruction::EI => (CpuView { ime: true, ..c }, spec_wadd16(pc, 1), 4),
        Instruction::JR(condition) => {
            let taken = spec_take_jump(condition, c.regs.f);
            let fallthrough = spec_wadd16(pc, 2);
            let next_pc = if taken {
                spec_wadd16(fallthrough, spec_sign_extend(spec_read_next_byte(c)))
            } else {
                fallthrough
            };
            (c, next_pc, if taken { 12 } else { 8 })
        },
        Instruction::JP(condition, target) => {
            let taken = spec_take_jump(condition, c.regs.f);
            match target {
                JumpTarget::A16 => (
                    c,
                    if taken {
                        spec_read_next_word(c)
                    } else {
                        spec_wadd16(pc, 3)
                    },
                    if taken { 16 } else { 12 },
                ),
                JumpTarget::HL_INDIRECT => (
                    c,
                    if taken {
                        spec_hl(c.regs)
                    } else {
                        spec_wadd16(pc, 1)
                    },
                    4,
                ),
            }
        },
        Instruction::CALL(condition) => {
            let taken = spec_take_jump(condition, c.regs.f);
            let address = spec_read_next_word(c);
            let return_to = spec_wadd16(pc, 3);
            if taken {
                let (bus1, sp1) = spec_push(c.bus, c.regs.sp, return_to);
                (
                    CpuView { regs: Registers { sp: sp1, ..c.regs }, bus: bus1, ..c },
                    address,
                    24,
                )
            } else {
                (c, return_to, 12)
            }
        },
        Instruction::RET(condition) => {
            let taken = spec_take_jump(condition, c.regs.f);
            let cycles: u8 = match condition {
                JumpCondition::Always => 16,
                _ => if taken {
                    20
                } else {
                    8
                },
            };
            if taken {
                let (address, sp1) = spec_pop(c.bus, c.regs.sp);
                (CpuView { regs: Registers { sp: sp1, ..c.regs }, ..c }, address, cycles)
            } else {
                (c, spec_wadd16(pc, 1), cycles)
            }
        },
        Instruction::RETI => {
            let (address, sp1) = spec_pop(c.bus, c.regs.sp);
            (
                CpuView { regs: Registers { sp: sp1, ..c.regs }, ime: true, ..c },
                address,
                16,
            )
        },
        Instruction::PUSH(source) => {
            let value = spec_get_word(source, c.regs);
            let (bus1, sp1) = spec_push(c.bus, c.regs.sp, value);
            (
                CpuView { regs: Registers { sp: sp1, ..c.regs }, bus: bus1, ..c },
                spec_wadd16(pc, 1),
                16,
            )
        },
        Instruction::POP(target) => {
            let (value, sp1) = spec_pop(c.bus, c.regs.sp);
            let regs1 = spec_set_word(target, value, Registers { sp: sp1, ..c.regs });
            (CpuView { regs: regs1, ..c }, spec_wadd16(pc, 1), 12)
        },
        Instruction::RST(target) => {
            let (bus1, sp1) = spec_push(c.bus, c.regs.sp, spec_wadd16(pc, 1));
            (
                CpuView { regs: Registers { sp: sp1, ..c.regs }, bus: bus1, ..c },
                target as u16,
                16,
            )
        },
        _ => (c, pc, 0),
    }
}

/// The semantics of the accumulator rotates.
#[verifier::opaque]
pub open spec fn spec_execute_acc_rotates(c: CpuView, instruction: Instruction) -> (CpuView, u16, u8) {
    let pc = c.regs.pc;
    match instruction {
        Instruction::RLCA => {
            let (new_value, flags) = spec_rotate(c.regs.a, RotateDirection::Left, false);
            (
                CpuView { regs: Registers { a: new_value, f: flags, ..c.regs }, ..c },
                spec_wadd16(pc, 1),
                4,
            )
        },
        Instruction::RRCA => {
            let (new_value, flags) = spec_rotate(c.regs.a, RotateDirection::Right, false);
            (
                CpuView { regs: Registers { a: new_value, f: flags, ..c.regs }, ..c },
                spec_wadd16(pc, 1),
                4,
            )
        },
        Instruction::RLA => {
            let (new_value, flags) = spec_rotate_through_carry(
                c.regs.a,
                RotateDirection::Left,
                c.regs.f.carry,
                false,
            );
            (
                CpuView { regs: Registers { a: new_value, f: flags, ..c.regs }, ..c },
                spec_wadd16(pc, 1),
                4,
            )
        },
        Instruction::RRA => {
            let (new_value, flags) = spec_rotate_through_carry(
                c.regs.a,
                RotateDirection::Right,
                c.regs.f.carry,
                false,
            );
            (
                CpuView { regs: Registers { a: new_value, f: flags, ..c.regs }, ..c },
                spec_wadd16(pc, 1),
                4,
            )
        },
        _ => (c, pc, 0),
    }
}

/// The semantics of the prefixed rotates, shifts and the nibble swap.
#[verifier::opaque]
pub open spec fn spec_execute_prefixed_rotates(c: CpuView, instruction: Instruction) -> (CpuView, u16, u8) {
    let pc = c.regs.pc;
    match instruction {
        Instruction::RLC(source) => spec_execute_prefixed_op(
            c,
            source,
            spec_rotate(spec_operand(c, source).0, RotateDirection::Left, true),
        ),
        Instruction::RRC(source) => spec_execute_prefixed_op(
            c,
            source,
            spec_rotate(spec_operand(c, source).0, RotateDirection::Right, true),
        ),
        Instruction::RL(source) => spec_execute_prefixed_op(
            c,
            source,
            spec_rotate_through_carry(
                spec_operand(c, source).0,
                RotateDirection::Left,
                c.regs.f.carry,
                true,
            ),
        ),
        Instruction::RR(source) => spec_execute_prefixed_op(
            c,
            source,
            spec_rotate_through_carry(
                spec_operand(c, source).0,
                RotateDirection::Right,
                c.regs.f.carry,
                true,
            ),
        ),
        Instruction::SLA(source) => spec_execute_prefixed_op(
            c,
            source,
            spec_shift(spec_operand(c, source).0, RotateDirection::Left, false),
        ),
        Instruction::SRA(source) => spec_execute_prefixed_op(
            c,
            source,
            spec_shift(spec_operand(c, source).0, RotateDirection::Right, true),
        ),
        Instruction::SRL(source) => spec_execute_prefixed_op(
            c,
            source,
            spec_shift(spec_operand(c, source).0, RotateDirection::Right, false),
        ),
        Instruction::SWAP(source) => spec_execute_prefixed_op(
            c,
            source,
            spec_swap8(spec_operand(c, source).0),
        ),
        _ => (c, pc, 0),
    }
}

/// The semantics of the single-bit test, reset and set instructions.
#[verifier::opaque]
pub open spec fn spec_execute_bits(c: CpuView, instruction: Instruction) -> (CpuView, u16, u8) {
    let pc = c.regs.pc;
    match instruction {
        Instruction::BIT(bit, source) => {
            let (value, pc_offset) = spec_operand(c, source);
            (
                CpuView { regs: Registers { f: spec_bit_test(value, bit, c.regs.f), ..c.regs }, ..c },
                spec_wadd16(pc, (pc_offset + 1) as u16),
                match source {
                    ArithmeticSource::HL_INDIRECT => 12,
                    _ => 8,
                },
            )
        },
        Instruction::RES(bit, source) => {
            let (value, pc_offset) = spec_operand(c, source);
            (
                spec_store_operand(c, source, spec_res_bit(value, bit)),
                spec_wadd16(pc, (pc_offset + 1) as u16),
                spec_prefixed_cycles(source),
            )
        },
        Instruction::SET(bit, source) => {
            let (value, pc_offset) = spec_operand(c, source);
            (
                spec_store_operand(c, source, spec_set_bit(value, bit)),
                spec_wadd16(pc, (pc_offset + 1) as u16),
                spec_prefixed_cycles(source),
            )
        },
        _ => (c, pc, 0),
    }
}

/// The machine, next program counter and cycle cost after one
/// instruction. The program counter inside the machine state is not yet
/// advanced - the driver stores the returned one - but stack, flags,
/// registers and the bus have all taken their effects.
pub open spec fn spec_execute(c: CpuView, instruction: Instruction) -> (CpuView, u16, u8) {
    match instruction {
        Instruction::LD(load_type) => spec_execute_load(c, load_type),
        Instruction::ADD(_) | Instruction::ADC(_) | Instruction::SUB(_) | Instruction::SBC(_)
            | Instruction::CP(_) | Instruction::AND(_) | Instruction::OR(_)
            | Instruction::XOR(_) => spec_execute_arithmetic(c, instruction),
        Instruction::ADD_HL(_) | Instruction::ADD_SP | Instruction::DAA | Instruction::CPL
            | Instruction::SCF | Instruction::CCF | Instruction::INC(_)
            | Instruction::DEC(_) => spec_execute_accumulator_misc(c, instruction),
        Instruction::NOP | Instruction::HALT | Instruction::STOP | Instruction::DI
            | Instruction::EI | Instruction::JR(_) | Instruction::JP(_, _) | Instruction::CALL(_)
            | Instruction::RET(_) | Instruction::RETI | Instruction::PUSH(_)
            | Instruction::POP(_) | Instruction::RST(_) => spec_execute_control(c, instruction),
        Instruction::RLCA | Instruction::RRCA | Instruction::RLA | Instruction::RRA
            => spec_execute_acc_rotates(c, instruction),
        Instruction::RLC(_) | Instruction::RRC(_) | Instruction::RL(_) | Instruction::RR(_)
            | Instruction::SLA(_) | Instruction::SRA(_) | Instruction::SRL(_)
            | Instruction::SWAP(_) => spec_execute_prefixed_rotates(c, instruction),
        Instruction::BIT(_, _) | Instruction::RES(_, _) | Instruction::SET(_, _)
            => spec_execute_bits(c, instruction),
    }
}

/// The machine, next program counter and cycle cost after one prefixed
/// rotate, shift or swap whose result and flags are already computed.
pub open spec fn spec_execute_prefixed_op(
    c: CpuView,
    source: ArithmeticSource,
    result: (u8, FlagsRegister),
) -> (CpuView, u16, u8) {
    let (value, pc_offset) = spec_operand(c, source);
    let c1 = CpuView { regs: Registers { f: result.1, ..c.regs }, ..c };
    let c2 = spec_store_operand(c1, source, result.0);
    (c2, spec_wadd16(c.regs.pc, (pc_offset + 1) as u16), spec_prefixed_cycles(source))
}

/// The shape every decoded instruction has: bit numbers fit in a byte and
/// nothing ever stores into the immediate operand. The decoder only
/// produces such instructions.
pub open spec fn spec_instruction_wf(i: Instruction) -> bool {
    match i {
        Instruction::BIT(bit, _) => bit < 8,
        Instruction::RES(bit, source) => bit < 8 && !(source is D8),
        Instruction::SET(bit, source) => bit < 8 && !(source is D8),
        Instruction::INC(IncrementDecrementTarget::Byte(source)) => !(source is D8),
        Instruction::DEC(IncrementDecrementTarget::Byte(source)) => !(source is D8),
        Instruction::RLC(source) => !(source is D8),
        Instruction::RRC(source) => !(source is D8),
        Instruction::RL(source) => !(source is D8),
        Instruction::RR(source) => !(source is D8),
        Instruction::SLA(source) => !(source is D8),
        Instruction::SRA(source) => !(source is D8),
        Instruction::SRL(source) => !(source is D8),
        Instruction::SWAP(source) => !(source is D8),
        _ => true,
    }
}

/// Every instruction the decode table yields is well-shaped.
pub proof fn lemma_decoded_instruction_wf(byte: u8, prefix_instruction: bool)
    ensures
        match spec_decode(byte, prefix_instruction) {
            Some(i) => spec_instruction_wf(i),
            None => true,
        },
{
    reveal(crate::instructions::spec_decode);
    assert((byte >> 3) & 0x07 < 8) by (bit_vector);
}

/// The bus after the lines a peripheral asked for are latched into the
/// interrupt-flag register, highest priority first.
#[verifier::opaque]
pub open spec fn spec_flag_ppu_interrupts(b: BusView, ints: InterruptsToSet) -> BusView {
    let b1 = if ints.vblank {
        crate::interrupts::spec_set_interrupt_flag(b, Interrupt::VBlank)
    } else {
        b
    };
    let b2 = if ints.lcd_stat {
        crate::interrupts::spec_set_interrupt_flag(b1, Interrupt::LCDStat)
    } else {
        b1
    };
    let b3 = if ints.timer {
        crate::interrupts::spec_set_interrupt_flag(b2, Interrupt::Timer)
    } else {
        b2
    };
    let b4 = if ints.serial {
        crate::interrupts::spec_set_interrupt_flag(b3, Interrupt::Serial)
    } else {
        b3
    };
    if ints.joypad {
        crate::interrupts::spec_set_interrupt_flag(b4, Interrupt::Joypad)
    } else {
        b4
    }
}

/// The machine after one line is serviced: its pending bit clears, the
/// halt state and the master enable clear, the program counter is pushed
/// and control moves to the line's vector.
#[verifier::opaque]
pub open spec fn spec_service_one(c: CpuView, i: Interrupt) -> CpuView {
    let bus1 = crate::interrupts::spec_clear_interrupt_flag(c.bus, i);
    let (bus2, sp2) = spec_push(bus1, c.regs.sp, c.regs.pc);
    CpuView {
        regs: Registers { sp: sp2, pc: spec_interrupt_vector(i), ..c.regs },
        bus: bus2,
        ime: false,
        halted: false,
    }
}

/// The machine after the interrupt controller runs at an instruction
/// boundary: with the master enable set, the highest-priority line that is
/// both enabled and pending is serviced; at most one line is serviced, and
/// with the master enable clear nothing happens.
#[verifier::opaque]
pub open spec fn spec_service_interrupts(c: CpuView) -> CpuView {
    if !c.ime {
        c
    } else if crate::interrupts::spec_interrupt_pending(c.bus, Interrupt::VBlank) {
        spec_service_one(c, Interrupt::VBlank)
    } else if crate::interrupts::spec_interrupt_pending(c.bus, Interrupt::LCDStat) {
        spec_service_one(c, Interrupt::LCDStat)
    } else if crate::interrupts::spec_interrupt_pending(c.bus, Interrupt::Timer) {
        spec_service_one(c, Interrupt::Timer)
    } else if crate::interrupts::spec_interrupt_pending(c.bus, Interrupt::Serial) {
        spec_service_one(c, Interrupt::Serial)
    } else if crate::interrupts::spec_interrupt_pending(c.bus, Interrupt::Joypad) {
        spec_service_one(c, Interrupt::Joypad)
    } else {
        c
    }
}

/// The opcode byte the machine is about to decode, with its prefix flag.
pub open spec fn spec_fetched_opcode(c: CpuView) -> (u8, bool) {
    let first = spec_read_byte(c.bus, c.regs.pc);
    if first == 0xCB {
        (spec_read_byte(c.bus, spec_wadd16(c.regs.pc, 1)), true)
    } else {
        (first, false)
    }
}

/// The decode failure reported when the fetched opcode has no table entry.
pub open spec fn spec_decode_failure(c: CpuView) -> DecodeError {
    let (opcode, prefixed) = spec_fetched_opcode(c);
    DecodeError { opcode: opcode, prefixed: prefixed }
}

/// One whole non-halted machine step: fetch and decode (`None` on an
/// undefined opcode), execute, store the next program counter, advance the
/// video unit by the instruction's cycles, latch the interrupts it raised,
/// and run the interrupt controller.
#[verifier::opaque]
pub open spec fn spec_run_next(c: CpuView) -> Option<(CpuView, u8)> {
    let (opcode, prefixed) = spec_fetched_opcode(c);
    match spec_decode(opcode, prefixed) {
        None => None,
        Some(instruction) => {
            let (c1, next_pc, cycles) = spec_execute(c, instruction);
            let c2 = CpuView { regs: Registers { pc: next_pc, ..c1.regs }, ..c1 };
            let (ppu1, ints) = spec_ppu_step(c2.bus.ppu, cycles);
            let c3 = CpuView { bus: BusView { ppu: ppu1, ..c2.bus }, ..c2 };
            let c4 = CpuView { bus: spec_flag_ppu_interrupts(c3.bus, ints), ..c3 };
            Some((spec_service_interrupts(c4), cycles))
        },
    }
}

/// Whether a pending enabled line wakes a halted machine: some line has
/// both its enable and its pending bit set, whatever the master enable.
pub open spec fn spec_halt_wake(b: BusView) -> bool {
    ||| crate::interrupts::spec_interrupt_pending(b, Interrupt::VBlank)
    ||| crate::interrupts::spec_interrupt_pending(b, Interrupt::LCDStat)
    ||| crate::interrupts::spec_interrupt_pending(b, Interrupt::Timer)
    ||| crate::interrupts::spec_interrupt_pending(b, Interrupt::Serial)
    ||| crate::interrupts::spec_interrupt_pending(b, Interrupt::Joypad)
}

/// One driver step: a halted machine spends a fixed four-cycle tick
/// without fetching, though a pending enabled line clears the halt state
/// (whatever the master enable) and the interrupt controller then runs;
/// otherwise one instruction runs. Either way the audio unit advances by
/// the elapsed cycles.
#[verifier::opaque]
pub open spec fn spec_step(c: CpuView) -> Option<(CpuView, u8)> {
    if c.halted {
        let woken = if spec_halt_wake(c.bus) {
            CpuView { halted: false, ..c }
        } else {
            c
        };
        let serviced = spec_service_interrupts(woken);
        Some(
            (
                CpuView {
                    bus: BusView { apu: spec_apu_step(serviced.bus.apu, 4), ..serviced.bus },
                    ..serviced
                },
                4,
            ),
        )
    } else {
        match spec_run_next(c) {
            None => None,
            Some((c1, cycles)) => Some(
                (
                    CpuView {
                        bus: BusView { apu: spec_apu_step(c1.bus.apu, cycles), ..c1.bus },
                        ..c1
                    },
                    cycles,
                ),
            ),
        }
    }
}

impl ArithmeticSource {
    /// The operand's value, with the instruction length it implies.
    pub fn get_byte_and_pc_offset(&self, cpu: &CPU) -> (r: (u8, u16))
        requires
            spec_cpu_wf(*cpu),
        ensures
            r == spec_operand(cpu@, *self),
    {
        match self {
            ArithmeticSource::A => (cpu.registers.a, 1),
            ArithmeticSource::B => (cpu.registers.b, 1),
            ArithmeticSource::C => (cpu.registers.c, 1),
            ArithmeticSource::D => (cpu.registers.d, 1),
            ArithmeticSource::E => (cpu.registers.e, 1),
            ArithmeticSource::H => (cpu.registers.h, 1),
            ArithmeticSource::L => (cpu.registers.l, 1),
            ArithmeticSource::HL_INDIRECT => (cpu.bus.read_byte(cpu.registers.get_hl()), 1),
            ArithmeticSource::D8 => (cpu.read_next_byte(), 2),
        }
    }

    /// Stores a byte back into the operand; the immediate operand cannot
    /// be stored to.
    pub fn set_byte(&self, value: u8, cpu: &mut CPU)
        requires
            spec_cpu_wf(*old(cpu)),
            !(*self is D8),
        ensures
            final(cpu)@ == spec_store_operand(old(cpu)@, *self, value),
            spec_cpu_wf(*final(cpu)),
            final(cpu).bus.apu.cycles == old(cpu).bus.apu.cycles,
    {
        match self {
            ArithmeticSource::A => cpu.registers.a = value,
            ArithmeticSource::B => cpu.registers.b = value,
            ArithmeticSource::C => cpu.registers.c = value,
            ArithmeticSource::D => cpu.registers.d = value,
            ArithmeticSource::E => cpu.registers.e = value,
            ArithmeticSource::H => cpu.registers.h = value,
            ArithmeticSource::L => cpu.registers.l = value,
            ArithmeticSource::HL_INDIRECT => {
                let address = cpu.registers.get_hl();
                cpu.bus.write_byte(value, address);
            },
            ArithmeticSource::D8 => {},
        }
    }
}

impl CPU {
    /// The reset machine over the given cartridge: registers and flags
    /// zero, the master enable set, not halted, the bus at its reset
    /// state.
    pub fn new(cart: Option<Cartridge>) -> (r: CPU)
        ensures
            r.registers == crate::registers::spec_registers_zeroed(),
            r.interrupt_master_enable,
            !r.halted,
            r@.bus.mem == Seq::new(65536, |i: int| 0u8),
            !r@.bus.finished_boot,
            r@.bus.cart == (match cart {
                Some(c) => Some(c.rom@),
                None => None::<Seq<u8>>,
            }),
            r@.bus.ppu == crate::ppu::spec_ppu_initial(),
            r@.bus.apu == crate::apu::spec_apu_initial(),
            spec_cpu_wf(r),
    {
        CPU {
            registers: Registers::new(),
            bus: MemoryBus::new(cart),
            interrupt_master_enable: true,
            halted: false,
        }
    }

    /// The byte after the opcode.
    fn read_next_byte(&self) -> (r: u8)
        requires
            spec_cpu_wf(*self),
        ensures
            r == spec_read_next_byte(self@),
    {
        self.bus.read_byte(self.registers.pc.wrapping_add(1))
    }

    /// The 16-bit literal after the opcode, low byte first.
    fn read_next_word(&self) -> (r: u16)
        requires
            spec_cpu_wf(*self),
        ensures
            r == spec_read_next_word(self@),
    {
        let low = self.bus.read_byte(self.registers.pc.wrapping_add(1));
        let high = self.bus.read_byte(self.registers.pc.wrapping_add(2));
        word_from(high, low)
    }

    fn add(&mut self, value: u8) -> (r: u8)
        ensures
            r == spec_add8(old(self).registers.a, value).0,
            *final(self) == (CPU {
                registers: Registers {
                    f: spec_add8(old(self).registers.a, value).1,
                    ..old(self).registers
                },
                ..*old(self)
            }),
    {
        let a: u8 = self.registers.a;
        let new_value: u8 = a.wrapping_add(value);
        self.registers.f = FlagsRegister {
            zero: new_value == 0,
            subtract: false,
            half_carry: ((a & 0x0F) as u16) + ((value & 0x0F) as u16) > 0x0F,
            carry: (a as u16) + (value as u16) > 0xFF,
        };
        new_value
    }

    fn add_with_carry(&mut self, value: u8) -> (r: u8)
        ensures
            r == spec_adc8(old(self).registers.a, value, old(self).registers.f.carry).0,
            *final(self) == (CPU {
                registers: Registers {
                    f: spec_adc8(old(self).registers.a, value, old(self).registers.f.carry).1,
                    ..old(self).registers
                },
                ..*old(self)
            }),
    {
        let a: u8 = self.registers.a;
        let carry_bit: u8 = if self.registers.f.carry {
            1
        } else {
            0
        };
        let new_value: u8 = a.wrapping_add(value).wrapping_add(carry_bit);
        self.registers.f = FlagsRegister {
            zero: new_value == 0,
            subtract: false,
            half_carry: ((a & 0x0F) as u16) + ((value & 0x0F) as u16) + (carry_bit as u16) > 0x0F,
            carry: (a as u16) + (value as u16) + (carry_bit as u16) > 0xFF,
        };
        new_value
    }

    fn subtract(&mut self, value: u8) -> (r: u8)
        ensures
            r == spec_sub8(old(self).registers.a, value).0,
            *final(self) == (CPU {
                registers: Registers {
                    f: spec_sub8(old(self).registers.a, value).1,
                    ..old(self).registers
                },
                ..*old(self)
            }),
    {
        let a: u8 = self.registers.a;
        let new_value: u8 = a.wrapping_sub(value);
        self.registers.f = FlagsRegister {
            zero: new_value == 0,
            subtract: true,
            half_carry: (a & 0x0F) < (value & 0x0F),
            carry: a < value,
        };
        new_value
    }

    fn subtract_with_carry(&mut self, value: u8) -> (r: u8)
        ensures
            r == spec_sbc8(old(self).registers.a, value, old(self).registers.f.carry).0,
            *final(self) == (CPU {
                registers: Registers {
                    f: spec_sbc8(old(self).registers.a, value, old(self).registers.f.carry).1,
                    ..old(self).registers
                },
                ..*old(self)
            }),
    {
        let a: u8 = self.registers.a;
        let carry_bit: u8 = if self.registers.f.carry {
            1
        } else {
            0
        };
        let new_value: u8 = a.wrapping_sub(value).wrapping_sub(carry_bit);
        self.registers.f = FlagsRegister {
            zero: new_value == 0,
            subtract: true,
            half_carry: ((a & 0x0F) as u16) < ((value & 0x0F) as u16) + (carry_bit as u16),
            carry: (a as u16) < (value as u16) + (carry_bit as u16),
        };
        new_value
    }

    fn compare(&mut self, value: u8)
        ensures
            *final(self) == (CPU {
                registers: Registers {
                    f: spec_cp8(old(self).registers.a, value),
                    ..old(self).registers
                },
                ..*old(self)
            }),
    {
        let a_value: u8 = self.registers.a;
        self.registers.f = FlagsRegister {
            zero: a_value == value,
            subtract: true,
            half_carry: (a_value & 0x0F) < (value & 0x0F),
            carry: a_value < value,
        };
    }

    fn and(&mut self, value: u8) -> (r: u8)
        ensures
            r == spec_and8(old(self).registers.a, value).0,
            *final(self) == (CPU {
                registers: Registers {
                    f: spec_and8(old(self).registers.a, value).1,
                    ..old(self).registers
                },
                ..*old(self)
            }),
    {
        let new_value: u8 = self.registers.a & value;
        self.registers.f = FlagsRegister {
            zero: new_value == 0,
            subtract: false,
            half_carry: true,
            carry: false,
        };
        new_value
    }

    fn or(&mut self, value: u8) -> (r: u8)
        ensures
            r == spec_or8(old(self).registers.a, value).0,
            *final(self) == (CPU {
                registers: Registers {
                    f: spec_or8(old(self).registers.a, value).1,
                    ..old(self).registers
                },
                ..*old(self)
            }),
    {
        let new_value: u8 = self.registers.a | value;
        self.registers.f = FlagsRegister {
            zero: new_value == 0,
            subtract: false,
            half_carry: false,
            carry: false,
        };
        new_value
    }

    fn xor(&mut self, value: u8) -> (r: u8)
        ensures
            r == spec_xor8(old(self).registers.a, value).0,
            *final(self) == (CPU {
                registers: Registers {
                    f: spec_xor8(old(self).registers.a, value).1,
                    ..old(self).registers
                },
                ..*old(self)
            }),
    {
        let new_value: u8 = self.registers.a ^ value;
        self.registers.f = FlagsRegister {
            zero: new_value == 0,
            subtract: false,
            half_carry: false,
            carry: false,
        };
        new_value
    }

    fn increment(&mut self, value: u8) -> (r: u8)
        ensures
            r == spec_inc8(value, old(self).registers.f).0,
            *final(self) == (CPU {
                registers: Registers {
                    f: spec_inc8(value, old(self).registers.f).1,
                    ..old(self).registers
                },
                ..*old(self)
            }),
    {
        let new_value: u8 = value.wrapping_add(1);
        self.registers.f = FlagsRegister {
            zero: new_value == 0,
            subtract: false,
            half_carry: ((value & 0x0F) as u16) + 1 > 0x0F,
            carry: self.registers.f.carry,
        };
        new_value
    }

    fn decrement(&mut self, value: u8) -> (r: u8)
        ensures
            r == spec_dec8(value, old(self).registers.f).0,
            *final(self) == (CPU {
                registers: Registers {
                    f: spec_dec8(value, old(self).registers.f).1,
                    ..old(self).registers
                },
                ..*old(self)
            }),
    {
        let new_value: u8 = value.wrapping_sub(1);
        self.registers.f = FlagsRegister {
            zero: new_value == 0,
            subtract: true,
            half_carry: (value & 0x0F) == 0,
            carry: self.registers.f.carry,
        };
        new_value
    }

    fn increment_word(&mut self, value: u16) -> (r: u16)
        ensures
            r == spec_wadd16(value, 1),
            *final(self) == *old(self),
    {
        value.wrapping_add(1)
    }

    fn decrement_word(&mut self, value: u16) -> (r: u16)
        ensures
            r == spec_wsub16(value, 1),
            *final(self) == *old(self),
    {
        value.wrapping_sub(1)
    }

    fn add_hl(&mut self, value: u16) -> (r: u16)
        ensures
            r == spec_add_hl16(spec_hl(old(self).registers), value, old(self).registers.f).0,
            *final(self) == (CPU {
                registers: Registers {
                    f: spec_add_hl16(spec_hl(old(self).registers), value, old(self).registers.f).1,
                    ..old(self).registers
                },
                ..*old(self)
            }),
    {
        let hl: u16 = self.registers.get_hl();
        let new_value: u16 = hl.wrapping_add(value);
        self.registers.f = FlagsRegister {
            zero: self.registers.f.zero,
            subtract: false,
            half_carry: ((hl & 0x07FF) as u32) + ((value & 0x07FF) as u32) > 0x07FF,
            carry: (hl as u32) + (value as u32) > 0xFFFF,
        };
        new_value
    }

    fn decimal_adjust_accumulator(&mut self) -> (r: u8)
        ensures
            r == spec_daa(old(self).registers.a, old(self).registers.f).0,
            *final(self) == (CPU {
                registers: Registers {
                    f: spec_daa(old(self).registers.a, old(self).registers.f).1,
                    ..old(self).registers
                },
                ..*old(self)
            }),
    {
        let unadjusted_value: u8 = self.registers.a;
        let flags = self.registers.f;

        let low_correction: u8 = if flags.half_carry || (!flags.subtract && (unadjusted_value
            & 0x0F) > 0x09) {
            0x06
        } else {
            0
        };
        let high_correction: u8 = if flags.carry || (!flags.subtract && unadjusted_value > 0x99) {
            0x60
        } else {
            0
        };
        let correction: u8 = low_correction | high_correction;

        let adjusted_value: u8 = if !flags.subtract {
            unadjusted_value.wrapping_add(correction)
        } else {
            unadjusted_value.wrapping_sub(correction)
        };

        self.registers.f = FlagsRegister {
            zero: adjusted_value == 0,
            subtract: flags.subtract,
            half_carry: false,
            carry: correction >= 0x60,
        };
        adjusted_value
    }

    fn cpl(&mut self) -> (r: u8)
        ensures
            r == spec_cpl8(old(self).registers.a, old(self).registers.f).0,
            *final(self) == (CPU {
                registers: Registers {
                    f: spec_cpl8(old(self).registers.a, old(self).registers.f).1,
                    ..old(self).registers
                },
                ..*old(self)
            }),
    {
        let new_value: u8 = self.registers.a ^ 0xFF;
        self.registers.f = FlagsRegister {
            zero: self.registers.f.zero,
            subtract: true,
            half_carry: true,
            carry: self.registers.f.carry,
        };
        new_value
    }

    fn rotate(&mut self, value: u8, direction: RotateDirection, set_zero: bool) -> (r: u8)
        ensures
            r == spec_rotate(value, direction, set_zero).0,
            *final(self) == (CPU {
                registers: Registers {
                    f: spec_rotate(value, direction, set_zero).1,
                    ..old(self).registers
                },
                ..*old(self)
            }),
    {
        let cycled_bit: u8 = match direction {
            RotateDirection::Left => (value & 0x80) >> 7,
            RotateDirection::Right => (value & 0x01) << 7,
        };
        let shifted_value: u8 = match direction {
            RotateDirection::Left => value << 1,
            RotateDirection::Right => value >> 1,
        };
        let new_value: u8 = shifted_value | cycled_bit;
        self.registers.f = FlagsRegister {
            zero: set_zero && new_value == 0,
            subtract: false,
            half_carry: false,
            carry: cycled_bit != 0,
        };
        new_value
    }

    fn rotate_through_carry(&mut self, value: u8, direction: RotateDirection, set_zero: bool) -> (r:
        u8)
        ensures
            r == spec_rotate_through_carry(
                value,
                direction,
                old(self).registers.f.carry,
                set_zero,
            ).0,
            *final(self) == (CPU {
                registers: Registers {
                    f: spec_rotate_through_carry(
                        value,
                        direction,
                        old(self).registers.f.carry,
                        set_zero,
                    ).1,
                    ..old(self).registers
                },
                ..*old(self)
            }),
    {
        let carry_bit: u8 = if self.registers.f.carry {
            1
        } else {
            0
        };
        let new_value: u8 = match direction {
            RotateDirection::Left => (value << 1) | carry_bit,
            RotateDirection::Right => (value >> 1) | (carry_bit << 7),
        };
        let leaving_bit: u8 = match direction {
            RotateDirection::Left => value & 0x80,
            RotateDirection::Right => value & 0x01,
        };
        self.registers.f = FlagsRegister {
            zero: set_zero && new_value == 0,
            subtract: false,
            half_carry: false,
            carry: leaving_bit != 0,
        };
        new_value
    }

    fn bit_shift(&mut self, value: u8, direction: RotateDirection, retain_shifted_bit: bool) -> (r:
        u8)
        ensures
            r == spec_shift(value, direction, retain_shifted_bit).0,
            *final(self) == (CPU {
                registers: Registers {
                    f: spec_shift(value, direction, retain_shifted_bit).1,
                    ..old(self).registers
                },
                ..*old(self)
            }),
    {
        let shifted_out: u8 = match direction {
            RotateDirection::Left => (value & 0x80) >> 7,
            RotateDirection::Right => value & 0x01,
        };
        let new_value: u8 = match direction {
            RotateDirection::Left => value << 1,
            RotateDirection::Right => if retain_shifted_bit {
                (value >> 1) | (value & 0x80)
            } else {
                value >> 1
            },
        };
        self.registers.f = FlagsRegister {
            zero: new_value == 0,
            subtract: false,
            half_carry: false,
            carry: shifted_out != 0,
        };
        new_value
    }

    fn swap_nibbles(&mut self, value: u8) -> (r: u8)
        ensures
            r == spec_swap8(value).0,
            *final(self) == (CPU {
                registers: Registers { f: spec_swap8(value).1, ..old(self).registers },
                ..*old(self)
            }),
    {
        let swapped: u8 = ((value & 0xF0) >> 4) | ((value & 0x0F) << 4);
        self.registers.f = FlagsRegister {
            zero: swapped == 0,
            subtract: false,
            half_carry: false,
            carry: false,
        };
        swapped
    }

    fn bit_test(&mut self, value: u8, bit_to_test: u8)
        requires
            bit_to_test < 8,
        ensures
            *final(self) == (CPU {
                registers: Registers {
                    f: spec_bit_test(value, bit_to_test, old(self).registers.f),
                    ..old(self).registers
                },
                ..*old(self)
            }),
    {
        let mask: u8 = 1u8 << bit_to_test;
        self.registers.f = FlagsRegister {
            zero: (mask & value) == 0,
            subtract: false,
            half_carry: true,
            carry: self.registers.f.carry,
        };
    }

    fn reset_bit(&mut self, value: u8, bit_to_reset: u8) -> (r: u8)
        requires
            bit_to_reset < 8,
        ensures
            r == spec_res_bit(value, bit_to_reset),
            *final(self) == *old(self),
    {
        value & !(1u8 << bit_to_reset)
    }

    fn set_bit(&mut self, value: u8, bit_to_set: u8) -> (r: u8)
        requires
            bit_to_set < 8,
        ensures
            r == spec_set_bit(value, bit_to_set),
            *final(self) == *old(self),
    {
        value | (1u8 << bit_to_set)
    }

    /// Sign-extends a relative displacement byte.
    fn sign_extend(value: u8) -> (r: u16)
        ensures
            r == spec_sign_extend(value),
    {
        if value >= 0x80 {
            (value as u16) + 0xFF00
        } else {
            value as u16
        }
    }

    fn jump_relative(&self, take_jump: bool) -> (r: u16)
        requires
            spec_cpu_wf(*self),
        ensures
            r == if take_jump {
                spec_wadd16(
                    spec_wadd16(self.registers.pc, 2),
                    spec_sign_extend(spec_read_next_byte(self@)),
                )
            } else {
                spec_wadd16(self.registers.pc, 2)
            },
    {
        let next_pc: u16 = self.registers.pc.wrapping_add(2);
        if take_jump {
            let offset = self.read_next_byte();
            next_pc.wrapping_add(Self::sign_extend(offset))
        } else {
            next_pc
        }
    }

    fn jump(&self, take_jump: bool, jump_target: JumpTarget) -> (r: u16)
        requires
            spec_cpu_wf(*self),
        ensures
            r == (match jump_target {
                JumpTarget::A16 => if take_jump {
                    spec_read_next_word(self@)
                } else {
                    spec_wadd16(self.registers.pc, 3)
                },
                JumpTarget::HL_INDIRECT => if take_jump {
                    spec_hl(self.registers)
                } else {
                    spec_wadd16(self.registers.pc, 1)
                },
            }),
    {
        let (address_if_taken, address_if_not_taken) = match jump_target {
            JumpTarget::A16 => (self.read_next_word(), self.registers.pc.wrapping_add(3)),
            JumpTarget::HL_INDIRECT => (self.registers.get_hl(), self.registers.pc.wrapping_add(1)),
        };
        if take_jump {
            address_if_taken
        } else {
            address_if_not_taken
        }
    }

    fn push(&mut self, value: u16)
        requires
            spec_cpu_wf(*old(self)),
        ensures
            final(self)@ == (CpuView {
                regs: Registers {
                    sp: spec_push(old(self)@.bus, old(self).registers.sp, value).1,
                    ..old(self).registers
                },
                bus: spec_push(old(self)@.bus, old(self).registers.sp, value).0,
                ..old(self)@
            }),
            spec_cpu_wf(*final(self)),
            final(self).bus.apu.cycles == old(self).bus.apu.cycles,
    {
        self.registers.sp = self.registers.sp.wrapping_sub(1);
        let high = hi_byte(value);
        self.bus.write_byte(high, self.registers.sp);

        self.registers.sp = self.registers.sp.wrapping_sub(1);
        let low = lo_byte(value);
        self.bus.write_byte(low, self.registers.sp);
    }

    fn pop(&mut self) -> (r: u16)
        requires
            spec_cpu_wf(*old(self)),
        ensures
            r == spec_pop(old(self)@.bus, old(self).registers.sp).0,
            final(self)@ == (CpuView {
                regs: Registers {
                    sp: spec_pop(old(self)@.bus, old(self).registers.sp).1,
                    ..old(self).registers
                },
                ..old(self)@
            }),
            spec_cpu_wf(*final(self)),
            final(self).bus.apu.cycles == old(self).bus.apu.cycles,
    {
        let low = self.bus.read_byte(self.registers.sp);
        self.registers.sp = self.registers.sp.wrapping_add(1);

        let high = self.bus.read_byte(self.registers.sp);
        self.registers.sp = self.registers.sp.wrapping_add(1);

        word_from(high, low)
    }

    fn call(&mut self, take_jump: bool) -> (r: u16)
        requires
            spec_cpu_wf(*old(self)),
        ensures
            take_jump ==> r == spec_read_next_word(old(self)@) && final(self)@ == (CpuView {
                regs: Registers {
                    sp: spec_push(
                        old(self)@.bus,
                        old(self).registers.sp,
                        spec_wadd16(old(self).registers.pc, 3),
                    ).1,
                    ..old(self).registers
                },
                bus: spec_push(
                    old(self)@.bus,
                    old(self).registers.sp,
                    spec_wadd16(old(self).registers.pc, 3),
                ).0,
                ..old(self)@
            }),
            !take_jump ==> r == spec_wadd16(old(self).registers.pc, 3) && final(self)@ == old(
                self,
            )@,
            spec_cpu_wf(*final(self)),
            final(self).bus.apu.cycles == old(self).bus.apu.cycles,
    {
        let address_if_taken = self.read_next_word();
        let address_to_return_to = self.registers.pc.wrapping_add(3);
        if take_jump {
            self.push(address_to_return_to);
            address_if_taken
        } else {
            address_to_return_to
        }
    }

    fn ret(&mut self, take_jump: bool) -> (r: u16)
        requires
            spec_cpu_wf(*old(self)),
        ensures
            take_jump ==> r == spec_pop(old(self)@.bus, old(self).registers.sp).0 && final(self)@
                == (CpuView {
                regs: Registers {
                    sp: spec_pop(old(self)@.bus, old(self).registers.sp).1,
                    ..old(self).registers
                },
                ..old(self)@
            }),
            !take_jump ==> r == spec_wadd16(old(self).registers.pc, 1) && final(self)@ == old(
                self,
            )@,
            spec_cpu_wf(*final(self)),
            final(self).bus.apu.cycles == old(self).bus.apu.cycles,
    {
        if take_jump {
            self.pop()
        } else {
            self.registers.pc.wrapping_add(1)
        }
    }

    fn restart(&mut self, restart_target: RestartTarget) -> (r: u16)
        requires
            spec_cpu_wf(*old(self)),
        ensures
            r == restart_target as u16,
            final(self)@ == (CpuView {
                regs: Registers {
                    sp: spec_push(
                        old(self)@.bus,
                        old(self).registers.sp,
                        spec_wadd16(old(self).registers.pc, 1),
                    ).1,
                    ..old(self).registers
                },
                bus: spec_push(
                    old(self)@.bus,
                    old(self).registers.sp,
                    spec_wadd16(old(self).registers.pc, 1),
                ).0,
                ..old(self)@
            }),
            spec_cpu_wf(*final(self)),
            final(self).bus.apu.cycles == old(self).bus.apu.cycles,
    {
        let address_to_return_to = self.registers.pc.wrapping_add(1);
        self.push(address_to_return_to);
        restart_target as u16
    }

    /// Applies one load instruction.
    fn execute_load(&mut self, load_type: LoadType) -> (r: (u16, u8))
        requires
            spec_cpu_wf(*old(self)),
        ensures
            (final(self)@, r.0, r.1) == spec_execute_load(old(self)@, load_type),
            spec_cpu_wf(*final(self)),
            final(self).bus.apu.cycles == old(self).bus.apu.cycles,
    {
        match load_type {
            LoadType::WriteByteFromRegisterToAddressContainedInRegister(_, _)
                | LoadType::WriteByteFromRegisterToAddressOffsetLiteral(_, _)
                | LoadType::WriteByteFromRegisterToAddressLiteral(_, _)
                | LoadType::WriteByteFromRegisterToAddressOffsetRegister(_, _)
                | LoadType::WriteByteLiteralToAddressContainedInRegister(_, _)
                | LoadType::WriteWordInRegisterToAddressContainedInLiteral(_, _) => self
                .execute_load_write(load_type),
            _ => self.execute_load_read(load_type),
        }
    }

    /// The loads that read into a register, and the register-to-register copies.
    #[verifier::rlimit(100)]
    fn execute_load_read(&mut self, load_type: LoadType) -> (r: (u16, u8))
        requires
            spec_cpu_wf(*old(self)),
            (load_type matches LoadType::ReadWordNumericLiteral(_, _)) || (load_type matches LoadType::ReadByteNumericLiteral(_, _)) || (load_type matches LoadType::ReadByteFromAddressOffset(_, _)) || (load_type matches LoadType::ReadByteFromAddressLiteral(_, _)) || (load_type matches LoadType::ReadByteFromAddressOffsetLiteral(_, _)) || (load_type matches LoadType::ReadByteFromAddress(_, _)) || (load_type matches LoadType::CopyByteFromRegisterToRegister(_, _)) || (load_type matches LoadType::CopyWordFromRegisterToRegister(_, _)) || (load_type matches LoadType::CopyStackOffsetToRegister(_, _)),
        ensures
            (final(self)@, r.0, r.1) == spec_execute_load(old(self)@, load_type),
            spec_cpu_wf(*final(self)),
            final(self).bus.apu.cycles == old(self).bus.apu.cycles,
    {
        proof {
            reveal(spec_execute_load);
        }
        match load_type {
            LoadType::ReadWordNumericLiteral(target, _) => {
                let value = self.read_next_word();
                target.set_word(value, &mut self.registers);
                (self.registers.pc.wrapping_add(3), 12)
            },
            LoadType::ReadByteNumericLiteral(target, _) => {
                let value = self.read_next_byte();
                target.set_byte(value, &mut self.registers);
                (self.registers.pc.wrapping_add(2), 8)
            },
            LoadType::ReadByteFromAddressOffset(target, source) => {
                let address_offset = source.get_address_offset(&self.registers);
                let value = self.bus.read_byte_from_offset(address_offset);
                target.set_byte(value, &mut self.registers);
                (self.registers.pc.wrapping_add(1), 8)
            },
            LoadType::ReadByteFromAddressLiteral(target, _) => {
                let address = self.read_next_word();
                let value = self.bus.read_byte(address);
                target.set_byte(value, &mut self.registers);
                (self.registers.pc.wrapping_add(3), 16)
            },
            LoadType::ReadByteFromAddressOffsetLiteral(target, _) => {
                let address_offset = self.read_next_byte();
                let value = self.bus.read_byte_from_offset(address_offset);
                target.set_byte(value, &mut self.registers);
                (self.registers.pc.wrapping_add(2), 12)
            },
            LoadType::ReadByteFromAddress(target, source) => {
                let address = source.get_address(&self.registers);
                let value = self.bus.read_byte(address);
                target.set_byte(value, &mut self.registers);
                match source {
                    AddressContainingRegister::HLI => {
                        let hl = self.registers.get_hl();
                        self.registers.set_hl(hl.wrapping_add(1));
                    },
                    AddressContainingRegister::HLD => {
                        let hl = self.registers.get_hl();
                        self.registers.set_hl(hl.wrapping_sub(1));
                    },
                    _ => {},
                }
                (self.registers.pc.wrapping_add(1), 8)
            },
            LoadType::CopyByteFromRegisterToRegister(target, source) => {
                let value = source.get_byte(&self.registers);
                target.set_byte(value, &mut self.registers);
                (self.registers.pc.wrapping_add(1), 4)
            },
            LoadType::CopyWordFromRegisterToRegister(target, source) => {
                let value = source.get_word(&self.registers);
                target.set_word(value, &mut self.registers);
                (self.registers.pc.wrapping_add(1), 8)
            },
            LoadType::CopyStackOffsetToRegister(target, _) => {
                let displacement = Self::sign_extend(self.read_next_byte());
                let sp = self.registers.sp;
                let value = sp.wrapping_add(displacement);
                target.set_word(value, &mut self.registers);
                self.registers.f = FlagsRegister {
                    zero: false,
                    subtract: false,
                    half_carry: ((sp & 0x000F) as u32) + ((displacement & 0x000F) as u32) > 0x000F,
                    carry: ((sp & 0x00FF) as u32) + ((displacement & 0x00FF) as u32) > 0x00FF,
                };
                (self.registers.pc.wrapping_add(2), 12)
            },
            _ => (0, 0),
        }
    }

    /// The loads that write a register out onto the bus.
    #[verifier::rlimit(100)]
    fn execute_load_write(&mut self, load_type: LoadType) -> (r: (u16, u8))
        requires
            spec_cpu_wf(*old(self)),
            (load_type matches LoadType::WriteByteFromRegisterToAddressContainedInRegister(_, _)) || (load_type matches LoadType::WriteByteFromRegisterToAddressOffsetLiteral(_, _)) || (load_type matches LoadType::WriteByteFromRegisterToAddressLiteral(_, _)) || (load_type matches LoadType::WriteByteFromRegisterToAddressOffsetRegister(_, _)) || (load_type matches LoadType::WriteByteLiteralToAddressContainedInRegister(_, _)) || (load_type matches LoadType::WriteWordInRegisterToAddressContainedInLiteral(_, _)),
        ensures
            (final(self)@, r.0, r.1) == spec_execute_load(old(self)@, load_type),
            spec_cpu_wf(*final(self)),
            final(self).bus.apu.cycles == old(self).bus.apu.cycles,
    {
        proof {
            reveal(spec_execute_load);
        }
        match load_type {
            LoadType::WriteByteFromRegisterToAddressContainedInRegister(target, source) => {
                let address = target.get_address(&self.registers);
                let value = source.get_byte(&self.registers);
                self.bus.write_byte(value, address);
                match target {
                    AddressContainingRegister::HLI => {
                        let hl = self.registers.get_hl();
                        self.registers.set_hl(hl.wrapping_add(1));
                    },
                    AddressContainingRegister::HLD => {
                        let hl = self.registers.get_hl();
                        self.registers.set_hl(hl.wrapping_sub(1));
                    },
                    _ => {},
                }
                (self.registers.pc.wrapping_add(1), 8)
            },
            LoadType::WriteByteFromRegisterToAddressOffsetLiteral(_, source) => {
                let address_offset = self.read_next_byte();
                let value = source.get_byte(&self.registers);
                self.bus.write_byte_to_offset(value, address_offset);
                (self.registers.pc.wrapping_add(2), 12)
            },
            LoadType::WriteByteFromRegisterToAddressLiteral(_, source) => {
                let address = self.read_next_word();
                let value = source.get_byte(&self.registers);
                self.bus.write_byte(value, address);
                (self.registers.pc.wrapping_add(3), 16)
            },
            LoadType::WriteByteFromRegisterToAddressOffsetRegister(target, source) => {
                let address_offset = target.get_address_offset(&self.registers);
                let value = source.get_byte(&self.registers);
                self.bus.write_byte_to_offset(value, address_offset);
                (self.registers.pc.wrapping_add(1), 8)
            },
            LoadType::WriteByteLiteralToAddressContainedInRegister(target, _) => {
                let address = target.get_address(&self.registers);
                let value = self.read_next_byte();
                self.bus.write_byte(value, address);
                (self.registers.pc.wrapping_add(2), 12)
            },
            LoadType::WriteWordInRegisterToAddressContainedInLiteral(_, source) => {
                let address = self.read_next_word();
                let value = source.get_word(&self.registers);
                let low = lo_byte(value);
                self.bus.write_byte(low, address);
                let high = hi_byte(value);
                self.bus.write_byte(high, address.wrapping_add(1));
                (self.registers.pc.wrapping_add(3), 20)
            },
            _ => (0, 0),
        }
    }

    /// Applies one instruction's semantics against registers and bus,
    /// returning the next program counter and the elapsed cycle count.
    fn execute(&mut self, instruction: Instruction) -> (r: (u16, u8))
        requires
            spec_cpu_wf(*old(self)),
            spec_instruction_wf(instruction),
        ensures
            (final(self)@, r.0, r.1) == spec_execute(old(self)@, instruction),
            spec_cpu_wf(*final(self)),
            final(self).bus.apu.cycles == old(self).bus.apu.cycles,
    {
        match instruction {
            Instruction::LD(load_type) => self.execute_load(load_type),
            Instruction::ADD(_) | Instruction::ADC(_) | Instruction::SUB(_) | Instruction::SBC(_)
                | Instruction::CP(_) | Instruction::AND(_) | Instruction::OR(_)
                | Instruction::XOR(_) => self.execute_arithmetic(instruction),
            Instruction::ADD_HL(_) | Instruction::ADD_SP | Instruction::DAA | Instruction::CPL
                | Instruction::SCF | Instruction::CCF | Instruction::INC(_)
                | Instruction::DEC(_) => self.execute_accumulator_misc(instruction),
            Instruction::NOP | Instruction::HALT | Instruction::STOP | Instruction::DI
                | Instruction::EI | Instruction::JR(_) | Instruction::JP(_, _)
                | Instruction::CALL(_) | Instruction::RET(_) | Instruction::RETI
                | Instruction::PUSH(_) | Instruction::POP(_) | Instruction::RST(_) => self
                .execute_control(instruction),
            Instruction::RLCA | Instruction::RRCA | Instruction::RLA | Instruction::RRA => self
                .execute_acc_rotates(instruction),
            Instruction::RLC(_) | Instruction::RRC(_) | Instruction::RL(_) | Instruction::RR(_)
                | Instruction::SLA(_) | Instruction::SRA(_) | Instruction::SRL(_)
                | Instruction::SWAP(_) => self.execute_prefixed_rotates(instruction),
            Instruction::BIT(_, _) | Instruction::RES(_, _) | Instruction::SET(_, _) => self
                .execute_bits(instruction),
        }
    }

    /// The eight-operation arithmetic and logic block over the accumulator.
    #[verifier::rlimit(100)]
    fn execute_arithmetic(&mut self, instruction: Instruction) -> (r: (u16, u8))
        requires
            spec_cpu_wf(*old(self)),
            spec_instruction_wf(instruction),
            (instruction matches Instruction::ADD(_)) || (instruction matches Instruction::ADC(_)) || (instruction matches Instruction::SUB(_)) || (instruction matches Instruction::SBC(_)) || (instruction matches Instruction::CP(_)) || (instruction matches Instruction::AND(_)) || (instruction matches Instruction::OR(_)) || (instruction matches Instruction::XOR(_)),
        ensures
            (final(self)@, r.0, r.1) == spec_execute(old(self)@, instruction),
            spec_cpu_wf(*final(self)),
            final(self).bus.apu.cycles == old(self).bus.apu.cycles,
    {
        proof {
            reveal(spec_execute_arithmetic);
        }
        match instruction {
            Instruction::ADD(source) => {
                let (value, pc_offset) = source.get_byte_and_pc_offset(self);
                let new_value = self.add(value);
                self.registers.a = new_value;
                let cycles: u8 = match source {
                    ArithmeticSource::HL_INDIRECT => 8,
                    ArithmeticSource::D8 => 8,
                    _ => 4,
                };
                (self.registers.pc.wrapping_add(pc_offset), cycles)
            },
            Instruction::ADC(source) => {
                let (value, pc_offset) = source.get_byte_and_pc_offset(self);
                let new_value = self.add_with_carry(value);
                self.registers.a = new_value;
                let cycles: u8 = match source {
                    ArithmeticSource::HL_INDIRECT => 8,
                    ArithmeticSource::D8 => 8,
                    _ => 4,
                };
                (self.registers.pc.wrapping_add(pc_offset), cycles)
            },
            Instruction::SUB(source) => {
                let (value, pc_offset) = source.get_byte_and_pc_offset(self);
                let new_value = self.subtract(value);
                self.registers.a = new_value;
                let cycles: u8 = match source {
                    ArithmeticSource::HL_INDIRECT => 8,
                    ArithmeticSource::D8 => 8,
                    _ => 4,
                };
                (self.registers.pc.wrapping_add(pc_offset), cycles)
            },
            Instruction::SBC(source) => {
                let (value, pc_offset) = source.get_byte_and_pc_offset(self);
                let new_value = self.subtract_with_carry(value);
                self.registers.a = new_value;
                let cycles: u8 = match source {
                    ArithmeticSource::HL_INDIRECT => 8,
                    ArithmeticSource::D8 => 8,
                    _ => 4,
                };
                (self.registers.pc.wrapping_add(pc_offset), cycles)
            },
            Instruction::CP(source) => {
                let (value, pc_offset) = source.get_byte_and_pc_offset(self);
                self.compare(value);
                let cycles: u8 = match source {
                    ArithmeticSource::HL_INDIRECT => 8,
                    ArithmeticSource::D8 => 8,
                    _ => 4,
                };
                (self.registers.pc.wrapping_add(pc_offset), cycles)
            },
            Instruction::AND(source) => {
                let (value, pc_offset) = source.get_byte_and_pc_offset(self);
                let new_value = self.and(value);
                self.registers.a = new_value;
                let cycles: u8 = match source {
                    ArithmeticSource::HL_INDIRECT => 8,
                    ArithmeticSource::D8 => 8,
                    _ => 4,
                };
                (self.registers.pc.wrapping_add(pc_offset), cycles)
            },
            Instruction::OR(source) => {
                let (value, pc_offset) = source.get_byte_and_pc_offset(self);
                let new_value = self.or(value);
                self.registers.a = new_value;
                let cycles: u8 = match source {
                    ArithmeticSource::HL_INDIRECT => 8,
                    ArithmeticSource::D8 => 8,
                    _ => 4,
                };
                (self.registers.pc.wrapping_add(pc_offset), cycles)
            },
            Instruction::XOR(source) => {
                let (value, pc_offset) = source.get_byte_and_pc_offset(self);
                let new_value = self.xor(value);
                self.registers.a = new_value;
                let cycles: u8 = match source {
                    ArithmeticSource::HL_INDIRECT => 8,
                    ArithmeticSource::D8 => 8,
                    _ => 4,
                };
                (self.registers.pc.wrapping_add(pc_offset), cycles)
            },
            _ => (0, 0),
        }
    }

    /// Sixteen-bit additions, BCD adjustment, the flag instructions and the increments.
    #[verifier::rlimit(100)]
    fn execute_accumulator_misc(&mut self, instruction: Instruction) -> (r: (u16, u8))
        requires
            spec_cpu_wf(*old(self)),
            spec_instruction_wf(instruction),
            (instruction matches Instruction::ADD_HL(_)) || (instruction matches Instruction::ADD_SP) || (instruction matches Instruction::DAA) || (instruction matches Instruction::CPL) || (instruction matches Instruction::SCF) || (instruction matches Instruction::CCF) || (instruction matches Instruction::INC(_)) || (instruction matches Instruction::DEC(_)),
        ensures
            (final(self)@, r.0, r.1) == spec_execute(old(self)@, instruction),
            spec_cpu_wf(*final(self)),
            final(self).bus.apu.cycles == old(self).bus.apu.cycles,
    {
        proof {
            reveal(spec_execute_accumulator_misc);
        }
        match instruction {
            Instruction::ADD_HL(source) => {
                let value = source.get_word(&self.registers);
                let new_value = self.add_hl(value);
                self.registers.set_hl(new_value);
                (self.registers.pc.wrapping_add(1), 8)
            },
            Instruction::ADD_SP => {
                let displacement = Self::sign_extend(self.read_next_byte());
                let sp = self.registers.sp;
                let new_sp = sp.wrapping_add(displacement);

                self.registers.f = FlagsRegister {
                    zero: false,
                    subtract: false,
                    half_carry: ((sp & 0x000F) as u32) + ((displacement & 0x000F) as u32) > 0x000F,
                    carry: ((sp & 0x00FF) as u32) + ((displacement & 0x00FF) as u32) > 0x00FF,
                };
                self.registers.sp = new_sp;

                (self.registers.pc.wrapping_add(2), 16)
            },
            Instruction::DAA => {
                let new_value = self.decimal_adjust_accumulator();
                self.registers.a = new_value;
                (self.registers.pc.wrapping_add(1), 4)
            },
            Instruction::CPL => {
                let new_value = self.cpl();
                self.registers.a = new_value;
                (self.registers.pc.wrapping_add(1), 4)
            },
            Instruction::SCF => {
                self.registers.f = FlagsRegister {
                    zero: self.registers.f.zero,
                    subtract: false,
                    half_carry: false,
                    carry: true,
                };
                (self.registers.pc.wrapping_add(1), 4)
            },
            Instruction::CCF => {
                self.registers.f = FlagsRegister {
                    zero: self.registers.f.zero,
                    subtract: false,
                    half_carry: false,
                    carry: !self.registers.f.carry,
                };
                (self.registers.pc.wrapping_add(1), 4)
            },
            Instruction::INC(target) => match target {
                IncrementDecrementTarget::Byte(byte_target) => {
                    let (value, pc_offset) = byte_target.get_byte_and_pc_offset(self);
                    let new_value = self.increment(value);
                    byte_target.set_byte(new_value, self);
                    let cycles: u8 = match byte_target {
                        ArithmeticSource::HL_INDIRECT => 12,
                        _ => 4,
                    };
                    (self.registers.pc.wrapping_add(pc_offset), cycles)
                },
                IncrementDecrementTarget::Word(word_register) => {
                    let value = word_register.get_word(&self.registers);
                    let new_value = self.increment_word(value);
                    word_register.set_word(new_value, &mut self.registers);
                    (self.registers.pc.wrapping_add(1), 8)
                },
            },
            Instruction::DEC(target) => match target {
                IncrementDecrementTarget::Byte(byte_target) => {
                    let (value, pc_offset) = byte_target.get_byte_and_pc_offset(self);
                    let new_value = self.decrement(value);
                    byte_target.set_byte(new_value, self);
                    let cycles: u8 = match byte_target {
                        ArithmeticSource::HL_INDIRECT => 12,
                        _ => 4,
                    };
                    (self.registers.pc.wrapping_add(pc_offset), cycles)
                },
                IncrementDecrementTarget::Word(word_register) => {
                    let value = word_register.get_word(&self.registers);
                    let new_value = self.decrement_word(value);
                    word_register.set_word(new_value, &mut self.registers);
                    (self.registers.pc.wrapping_add(1), 8)
                },
            },
            _ => (0, 0),
        }
    }

    /// Control transfer, the stack instructions, halting and the interrupt gates.
    #[verifier::rlimit(100)]
    fn execute_control(&mut self, instruction: Instruction) -> (r: (u16, u8))
        requires
            spec_cpu_wf(*old(self)),
            spec_instruction_wf(instruction),
            (instruction matches Instruction::NOP) || (instruction matches Instruction::HALT) || (instruction matches Instruction::STOP) || (instruction matches Instruction::DI) || (instruction matches Instruction::EI) || (instruction matches Instruction::JR(_)) || (instruction matches Instruction::JP(_, _)) || (instruction matches Instruction::CALL(_)) || (instruction matches Instruction::RET(_)) || (instruction matches Instruction::RETI) || (instruction matches Instruction::PUSH(_)) || (instruction matches Instruction::POP(_)) || (instruction matches Instruction::RST(_)),
        ensures
            (final(self)@, r.0, r.1) == spec_execute(old(self)@, instruction),
            spec_cpu_wf(*final(self)),
            final(self).bus.apu.cycles == old(self).bus.apu.cycles,
    {
        proof {
            reveal(spec_execute_control);
        }
        match instruction {
            Instruction::NOP => (self.registers.pc.wrapping_add(1), 4),
            Instruction::HALT => {
                self.halted = true;
                (self.registers.pc.wrapping_add(1), 4)
            },
            Instruction::STOP => {
                self.halted = true;
                (self.registers.pc.wrapping_add(2), 4)
            },
            Instruction::DI => {
                self.interrupt_master_enable = false;
                (self.registers.pc.wrapping_add(1), 4)
            },
            Instruction::EI => {
                self.interrupt_master_enable = true;
                (self.registers.pc.wrapping_add(1), 4)
            },
            Instruction::JR(jump_condition) => {
                let take_jump = jump_condition.take_jump(&self.registers);
                let cycles: u8 = if take_jump {
                    12
                } else {
                    8
                };
                let next_pc = self.jump_relative(take_jump);
                (next_pc, cycles)
            },
            Instruction::JP(jump_condition, jump_target) => {
                let take_jump = jump_condition.take_jump(&self.registers);
                let cycles: u8 = match jump_target {
                    JumpTarget::A16 => if take_jump {
                        16
                    } else {
                        12
                    },
                    JumpTarget::HL_INDIRECT => 4,
                };
                let next_pc = self.jump(take_jump, jump_target);
                (next_pc, cycles)
            },
            Instruction::CALL(jump_condition) => {
                let take_jump = jump_condition.take_jump(&self.registers);
                let next_pc = self.call(take_jump);
                let cycles: u8 = if take_jump {
                    24
                } else {
                    12
                };
                (next_pc, cycles)
            },
            Instruction::RET(jump_condition) => {
                let take_jump = jump_condition.take_jump(&self.registers);
                let next_pc = self.ret(take_jump);
                let cycles: u8 = match jump_condition {
                    JumpCondition::Always => 16,
                    _ => if take_jump {
                        20
                    } else {
                        8
                    },
                };
                (next_pc, cycles)
            },
            Instruction::RETI => {
                self.interrupt_master_enable = true;
                (self.ret(true), 16)
            },
            Instruction::PUSH(source) => {
                let value = source.get_word(&self.registers);
                self.push(value);
                (self.registers.pc.wrapping_add(1), 16)
            },
            Instruction::POP(target) => {
                let value = self.pop();
                target.set_word(value, &mut self.registers);
                (self.registers.pc.wrapping_add(1), 12)
            },
            Instruction::RST(address) => {
                let next_pc = self.restart(address);
                (next_pc, 16)
            },
            _ => (0, 0),
        }
    }

    /// The accumulator rotates.
    #[verifier::rlimit(100)]
    fn execute_acc_rotates(&mut self, instruction: Instruction) -> (r: (u16, u8))
        requires
            spec_cpu_wf(*old(self)),
            spec_instruction_wf(instruction),
            (instruction matches Instruction::RLCA) || (instruction matches Instruction::RRCA) || (instruction matches Instruction::RLA) || (instruction matches Instruction::RRA),
        ensures
            (final(self)@, r.0, r.1) == spec_execute(old(self)@, instruction),
            spec_cpu_wf(*final(self)),
            final(self).bus.apu.cycles == old(self).bus.apu.cycles,
    {
        proof {
            reveal(spec_execute_acc_rotates);
        }
        match instruction {
            Instruction::RLCA => {
                let value = self.registers.a;
                let new_value = self.rotate(value, RotateDirection::Left, false);
                self.registers.a = new_value;
                (self.registers.pc.wrapping_add(1), 4)
            },
            Instruction::RRCA => {
                let value = self.registers.a;
                let new_value = self.rotate(value, RotateDirection::Right, false);
                self.registers.a = new_value;
                (self.registers.pc.wrapping_add(1), 4)
            },
            Instruction::RLA => {
                let value = self.registers.a;
                let new_value = self.rotate_through_carry(value, RotateDirection::Left, false);
                self.registers.a = new_value;
                (self.registers.pc.wrapping_add(1), 4)
            },
            Instruction::RRA => {
                let value = self.registers.a;
                let new_value = self.rotate_through_carry(value, RotateDirection::Right, false);
                self.registers.a = new_value;
                (self.registers.pc.wrapping_add(1), 4)
            },
            _ => (0, 0),
        }
    }

    /// The prefixed rotates, shifts and the nibble swap.
    #[verifier::rlimit(100)]
    fn execute_prefixed_rotates(&mut self, instruction: Instruction) -> (r: (u16, u8))
        requires
            spec_cpu_wf(*old(self)),
            spec_instruction_wf(instruction),
            (instruction matches Instruction::RLC(_)) || (instruction matches Instruction::RRC(_)) || (instruction matches Instruction::RL(_)) || (instruction matches Instruction::RR(_)) || (instruction matches Instruction::SLA(_)) || (instruction matches Instruction::SRA(_)) || (instruction matches Instruction::SRL(_)) || (instruction matches Instruction::SWAP(_)),
        ensures
            (final(self)@, r.0, r.1) == spec_execute(old(self)@, instruction),
            spec_cpu_wf(*final(self)),
            final(self).bus.apu.cycles == old(self).bus.apu.cycles,
    {
        proof {
            reveal(spec_execute_prefixed_rotates);
        }
        match instruction {
            Instruction::RLC(source) => {
                let (value, pc_offset) = source.get_byte_and_pc_offset(self);
                let new_value = self.rotate(value, RotateDirection::Left, true);
                source.set_byte(new_value, self);
                let cycles: u8 = match source {
                    ArithmeticSource::HL_INDIRECT => 16,
                    _ => 8,
                };
                (self.registers.pc.wrapping_add(pc_offset + 1), cycles)
            },
            Instruction::RRC(source) => {
                let (value, pc_offset) = source.get_byte_and_pc_offset(self);
                let new_value = self.rotate(value, RotateDirection::Right, true);
                source.set_byte(new_value, self);
                let cycles: u8 = match source {
                    ArithmeticSource::HL_INDIRECT => 16,
                    _ => 8,
                };
                (self.registers.pc.wrapping_add(pc_offset + 1), cycles)
            },
            Instruction::RL(source) => {
                let (value, pc_offset) = source.get_byte_and_pc_offset(self);
                let new_value = self.rotate_through_carry(value, RotateDirection::Left, true);
                source.set_byte(new_value, self);
                let cycles: u8 = match source {
                    ArithmeticSource::HL_INDIRECT => 16,
                    _ => 8,
                };
                (self.registers.pc.wrapping_add(pc_offset + 1), cycles)
            },
            Instruction::RR(source) => {
                let (value, pc_offset) = source.get_byte_and_pc_offset(self);
                let new_value = self.rotate_through_carry(value, RotateDirection::Right, true);
                source.set_byte(new_value, self);
                let cycles: u8 = match source {
                    ArithmeticSource::HL_INDIRECT => 16,
                    _ => 8,
                };
                (self.registers.pc.wrapping_add(pc_offset + 1), cycles)
            },
            Instruction::SLA(source) => {
                let (value, pc_offset) = source.get_byte_and_pc_offset(self);
                let new_value = self.bit_shift(value, RotateDirection::Left, false);
                source.set_byte(new_value, self);
                let cycles: u8 = match source {
                    ArithmeticSource::HL_INDIRECT => 16,
                    _ => 8,
                };
                (self.registers.pc.wrapping_add(pc_offset + 1), cycles)
            },
            Instruction::SRA(source) => {
                let (value, pc_offset) = source.get_byte_and_pc_offset(self);
                let new_value = self.bit_shift(value, RotateDirection::Right, true);
                source.set_byte(new_value, self);
                let cycles: u8 = match source {
                    ArithmeticSource::HL_INDIRECT => 16,
                    _ => 8,
                };
                (self.registers.pc.wrapping_add(pc_offset + 1), cycles)
            },
            Instruction::SRL(source) => {
                let (value, pc_offset) = source.get_byte_and_pc_offset(self);
                let new_value = self.bit_shift(value, RotateDirection::Right, false);
                source.set_byte(new_value, self);
                let cycles: u8 = match source {
                    ArithmeticSource::HL_INDIRECT => 16,
                    _ => 8,
                };
                (self.registers.pc.wrapping_add(pc_offset + 1), cycles)
            },
            Instruction::SWAP(source) => {
                let (value, pc_offset) = source.get_byte_and_pc_offset(self);
                let new_value = self.swap_nibbles(value);
                source.set_byte(new_value, self);
                let cycles: u8 = match source {
                    ArithmeticSource::HL_INDIRECT => 16,
                    _ => 8,
                };
                (self.registers.pc.wrapping_add(pc_offset + 1), cycles)
            },
            _ => (0, 0),
        }
    }

    /// The single-bit test, reset and set instructions.
    #[verifier::rlimit(100)]
    fn execute_bits(&mut self, instruction: Instruction) -> (r: (u16, u8))
        requires
            spec_cpu_wf(*old(self)),
            spec_instruction_wf(instruction),
            (instruction matches Instruction::BIT(_, _)) || (instruction matches Instruction::RES(_, _)) || (instruction matches Instruction::SET(_, _)),
        ensures
            (final(self)@, r.0, r.1) == spec_execute(old(self)@, instruction),
            spec_cpu_wf(*final(self)),
            final(self).bus.apu.cycles == old(self).bus.apu.cycles,
    {
        proof {
            reveal(spec_execute_bits);
        }
        match instruction {
            Instruction::BIT(bit_to_test, source) => {
                let (value, pc_offset) = source.get_byte_and_pc_offset(self);
                self.bit_test(value, bit_to_test);
                let cycles: u8 = match source {
                    ArithmeticSource::HL_INDIRECT => 12,
                    _ => 8,
                };
                (self.registers.pc.wrapping_add(pc_offset + 1), cycles)
            },
            Instruction::RES(bit_to_reset, target) => {
                let (value, pc_offset) = target.get_byte_and_pc_offset(self);
                let new_value = self.reset_bit(value, bit_to_reset);
                target.set_byte(new_value, self);
                let cycles: u8 = match target {
                    ArithmeticSource::HL_INDIRECT => 16,
                    _ => 8,
                };
                (self.registers.pc.wrapping_add(pc_offset + 1), cycles)
            },
            Instruction::SET(bit_to_set, target) => {
                let (value, pc_offset) = target.get_byte_and_pc_offset(self);
                let new_value = self.set_bit(value, bit_to_set);
                target.set_byte(new_value, self);
                let cycles: u8 = match target {
                    ArithmeticSource::HL_INDIRECT => 16,
                    _ => 8,
                };
                (self.registers.pc.wrapping_add(pc_offset + 1), cycles)
            },
            _ => (0, 0),
        }
    }

    /// Fetches and decodes the instruction at the program counter,
    /// reporting the fatal decode failure for opcode bytes with no table
    /// entry.
    fn next_instruction(&self) -> (r: Result<Instruction, DecodeError>)
        requires
            spec_cpu_wf(*self),
        ensures
            match spec_decode(spec_fetched_opcode(self@).0, spec_fetched_opcode(self@).1) {
                Some(i) => r == Ok::<Instruction, DecodeError>(i) && spec_instruction_wf(i),
                None => r == Err::<Instruction, DecodeError>(spec_decode_failure(self@)),
            },
    {
        let mut instruction_byte = self.bus.read_byte(self.registers.pc);
        let prefix_instruction = instruction_byte == 0xCB;
        if prefix_instruction {
            instruction_byte = self.bus.read_byte(self.registers.pc.wrapping_add(1));
        }
        proof {
            lemma_decoded_instruction_wf(instruction_byte, prefix_instruction);
        }
        match Instruction::from_byte(instruction_byte, prefix_instruction) {
            Some(instruction) => Ok(instruction),
            None => Err(DecodeError { opcode: instruction_byte, prefixed: prefix_instruction }),
        }
    }

    /// Services one line: clears the halt state and the master enable,
    /// pushes the program counter and jumps to the line's vector.
    fn interrupt(&mut self, interrupt: Interrupt)
        requires
            spec_cpu_wf(*old(self)),
        ensures
            final(self)@ == (CpuView {
                regs: Registers {
                    sp: spec_push(old(self)@.bus, old(self).registers.sp, old(self).registers.pc).1,
                    pc: spec_interrupt_vector(interrupt),
                    ..old(self).registers
                },
                bus: spec_push(old(self)@.bus, old(self).registers.sp, old(self).registers.pc).0,
                ime: false,
                halted: false,
            }),
            spec_cpu_wf(*final(self)),
            final(self).bus.apu.cycles == old(self).bus.apu.cycles,
    {
        self.halted = false;
        self.interrupt_master_enable = false;
        let pc = self.registers.pc;
        self.push(pc);
        self.registers.pc = match interrupt {
            Interrupt::VBlank => 0x40,
            Interrupt::LCDStat => 0x48,
            Interrupt::Timer => 0x50,
            Interrupt::Serial => 0x58,
            Interrupt::Joypad => 0x60,
        };
    }

    /// Runs the interrupt controller at an instruction boundary: with the
    /// master enable set, the highest-priority enabled-and-pending line is
    /// serviced; at most one.
    fn process_interrupts(&mut self)
        requires
            spec_cpu_wf(*old(self)),
        ensures
            final(self)@ == spec_service_interrupts(old(self)@),
            spec_cpu_wf(*final(self)),
            final(self).bus.apu.cycles == old(self).bus.apu.cycles,
    {
        proof {
            reveal(spec_service_interrupts);
            reveal(spec_service_one);
        }
        if self.interrupt_master_enable {
            if Interrupt::VBlank.should_process_interrupt(&self.bus) {
                Interrupt::VBlank.clear_interrupt_flag(&mut self.bus);
                self.interrupt(Interrupt::VBlank);
            } else if Interrupt::LCDStat.should_process_interrupt(&self.bus) {
                Interrupt::LCDStat.clear_interrupt_flag(&mut self.bus);
                self.interrupt(Interrupt::LCDStat);
            } else if Interrupt::Timer.should_process_interrupt(&self.bus) {
                Interrupt::Timer.clear_interrupt_flag(&mut self.bus);
                self.interrupt(Interrupt::Timer);
            } else if Interrupt::Serial.should_process_interrupt(&self.bus) {
                Interrupt::Serial.clear_interrupt_flag(&mut self.bus);
                self.interrupt(Interrupt::Serial);
            } else if Interrupt::Joypad.should_process_interrupt(&self.bus) {
                Interrupt::Joypad.clear_interrupt_flag(&mut self.bus);
                self.interrupt(Interrupt::Joypad);
            }
        }
    }

    /// Latches the lines a peripheral asked for into the interrupt-flag
    /// register, highest priority first.
    fn flag_interrupts(&mut self, interrupts_to_flag: InterruptsToSet)
        requires
            spec_cpu_wf(*old(self)),
        ensures
            final(self)@ == (CpuView {
                bus: spec_flag_ppu_interrupts(old(self)@.bus, interrupts_to_flag),
                ..old(self)@
            }),
            spec_cpu_wf(*final(self)),
            final(self).bus.apu.cycles == old(self).bus.apu.cycles,
    {
        proof {
            reveal(spec_flag_ppu_interrupts);
        }
        if interrupts_to_flag.is_interrupt_set(Interrupt::VBlank) {
            Interrupt::VBlank.set_interrupt_flag(&mut self.bus);
        }
        if interrupts_to_flag.is_interrupt_set(Interrupt::LCDStat) {
            Interrupt::LCDStat.set_interrupt_flag(&mut self.bus);
        }
        if interrupts_to_flag.is_interrupt_set(Interrupt::Timer) {
            Interrupt::Timer.set_interrupt_flag(&mut self.bus);
        }
        if interrupts_to_flag.is_interrupt_set(Interrupt::Serial) {
            Interrupt::Serial.set_interrupt_flag(&mut self.bus);
        }
        if interrupts_to_flag.is_interrupt_set(Interrupt::Joypad) {
            Interrupt::Joypad.set_interrupt_flag(&mut self.bus);
        }
    }

    /// Runs one non-halted machine step: fetch, decode, execute, advance
    /// the video unit, latch its interrupts, and run the interrupt
    /// controller. An undefined opcode stops the machine unchanged.
    #[verifier::rlimit(100)]
    fn run_next_instruction(&mut self) -> (r: Result<u8, DecodeError>)
        requires
            spec_cpu_wf(*old(self)),
        ensures
            match spec_run_next(old(self)@) {
                Some((c, cycles)) => r == Ok::<u8, DecodeError>(cycles) && final(self)@ == c,
                None => r == Err::<u8, DecodeError>(spec_decode_failure(old(self)@))
                    && final(self)@ == old(self)@,
            },
            spec_cpu_wf(*final(self)),
            final(self).bus.apu.cycles == old(self).bus.apu.cycles,
    {
        proof {
            reveal(spec_run_next);
        }
        let instruction = match self.next_instruction() {
            Ok(instruction) => instruction,
            Err(e) => {
                return Err(e);
            },
        };
        let (next_pc, cycles) = self.execute(instruction);
        self.registers.pc = next_pc;

        let interrupts_to_flag = self.bus.ppu.step(cycles);
        self.flag_interrupts(interrupts_to_flag);
        self.process_interrupts();

        Ok(cycles)
    }

    /// Advances the machine by one instruction, or by one fixed four-cycle
    /// tick while halted — during which a pending enabled interrupt line
    /// wakes the machine and the controller may service it — and feeds the
    /// elapsed cycles to the audio unit. An undefined opcode is reported as
    /// a fatal decode error and leaves the machine unchanged.
    pub fn step_single_instruction(&mut self) -> (r: Result<u8, DecodeError>)
        requires
            spec_cpu_wf(*old(self)),
            old(self).bus.apu.cycles <= 0x0001_FFFF_FFFF_FF00u64,
        ensures
            match spec_step(old(self)@) {
                Some((c, cycles)) => r == Ok::<u8, DecodeError>(cycles) && final(self)@ == c && 4
                    <= cycles <= 24,
                None => r == Err::<u8, DecodeError>(spec_decode_failure(old(self)@))
                    && final(self)@ == old(self)@,
            },
            spec_cpu_wf(*final(self)),
            r matches Ok(cycles) ==> final(self).bus.apu.cycles == old(self).bus.apu.cycles
                + cycles,
            r is Err ==> final(self).bus.apu.cycles == old(self).bus.apu.cycles,
    {
        proof {
            reveal(spec_step);
        }
        if self.halted {
            let wake: bool = Interrupt::VBlank.should_process_interrupt(&self.bus)
                || Interrupt::LCDStat.should_process_interrupt(&self.bus)
                || Interrupt::Timer.should_process_interrupt(&self.bus)
                || Interrupt::Serial.should_process_interrupt(&self.bus)
                || Interrupt::Joypad.should_process_interrupt(&self.bus);
            proof {
                assert(wake == spec_halt_wake(old(self)@.bus));
            }
            if wake {
                self.halted = false;
            }
            proof {
                assert(self@ == if spec_halt_wake(old(self)@.bus) {
                    CpuView { halted: false, ..old(self)@ }
                } else {
                    old(self)@
                });
            }
            self.process_interrupts();
            self.bus.apu.step(4);
            Ok(4)
        } else {
            match self.run_next_instruction() {
                Ok(cycles) => {
                    proof {
                        reveal(spec_run_next);
                        lemma_execute_cycle_bounds(
                            old(self)@,
                            spec_decode(
                                spec_fetched_opcode(old(self)@).0,
                                spec_fetched_opcode(old(self)@).1,
                            ).unwrap(),
                        );
                    }
                    self.bus.apu.step(cycles);
                    Ok(cycles)
                },
                Err(e) => Err(e),
            }
        }
    }

    /// Ends the frame: the audio unit publishes its samples and restarts
    /// its frame clock, and the video unit redraws every queued line.
    pub fn end_frame(&mut self)
        requires
            spec_cpu_wf(*old(self)),
        ensures
            final(self)@ == (CpuView {
                bus: BusView {
                    ppu: crate::ppu::spec_render(old(self)@.bus.ppu),
                    apu: final(self)@.bus.apu,
                    ..old(self)@.bus
                },
                ..old(self)@
            }),
            final(self).bus.apu.cycles == 0,
            crate::channels::spec_buffer_after_frame(
                old(self)@.bus.apu.ch1.buffer,
                final(self)@.bus.apu.ch1.buffer,
            ),
            crate::channels::spec_buffer_after_frame(
                old(self)@.bus.apu.ch2.buffer,
                final(self)@.bus.apu.ch2.buffer,
            ),
            spec_cpu_wf(*final(self)),
    {
        self.bus.apu.end_frame();
        self.bus.ppu.render();
    }
}

/// Every instruction costs between 4 and 24 cycles.
#[verifier::rlimit(100)]
pub proof fn lemma_execute_cycle_bounds(c: CpuView, i: Instruction)
    ensures
        4 <= spec_execute(c, i).2 <= 24,
{
    reveal(spec_execute_arithmetic);
    reveal(spec_execute_accumulator_misc);
    reveal(spec_execute_control);
    reveal(spec_execute_acc_rotates);
    reveal(spec_execute_prefixed_rotates);
    reveal(spec_execute_bits);
    reveal(spec_execute_load);
    match i {
        Instruction::LD(load_type) => {
            assert(4 <= spec_execute_load(c, load_type).2 <= 24);
        },
        _ => {},
    }
}

/// For every pair of 8-bit values, addition sets carry exactly when the
/// true sum exceeds 255, sets half-carry exactly when the low nibbles' sum
/// exceeds 0x0F, and sets zero exactly when the wrapped sum is zero.
pub proof fn lemma_add_flags(a: u8, b: u8)
    ensures
        spec_add8(a, b).1.carry <==> a + b > 255,
        spec_add8(a, b).1.half_carry <==> (a & 0x0F) + (b & 0x0F) > 0x0F,
        spec_add8(a, b).1.zero <==> spec_add8(a, b).0 == 0,
{
}

/// XORing any value with itself yields zero, clears carry and half-carry,
/// and sets zero.
pub proof fn lemma_xor_self(a: u8)
    ensures
        spec_xor8(a, a).0 == 0,
        spec_xor8(a, a).1.zero,
        !spec_xor8(a, a).1.carry,
        !spec_xor8(a, a).1.half_carry,
{
    assert(a ^ a == 0) by (bit_vector);
}

/// After adding two BCD-valid bytes (both nibbles of each at most nine),
/// the decimal adjustment leaves both result nibbles at most nine, and its
/// carry flag reports exactly a decimal overflow past 99.
pub proof fn lemma_daa_after_bcd_addition(x: u8, y: u8)
    requires
        (x >> 4) <= 9,
        (x & 0x0F) <= 9,
        (y >> 4) <= 9,
        (y & 0x0F) <= 9,
    ensures
        (spec_daa(spec_add8(x, y).0, spec_add8(x, y).1).0 & 0x0F) <= 9,
        (spec_daa(spec_add8(x, y).0, spec_add8(x, y).1).0 >> 4) <= 9,
        spec_daa(spec_add8(x, y).0, spec_add8(x, y).1).1.carry <==> (x >> 4) * 10 + (x & 0x0F) + (
        y >> 4) * 10 + (y & 0x0F) >= 100,
{
    let s = spec_add8(x, y).0;
    let f = spec_add8(x, y).1;
    let correction = (if f.half_carry || (s & 0x0F) > 0x09 {
        0x06u8
    } else {
        0u8
    }) | (if f.carry || s > 0x99 {
        0x60u8
    } else {
        0u8
    });
    let d = spec_daa(s, f).0;
    assert(spec_daa(s, f).1.carry == (correction >= 0x60));
    assert((d & 0x0F) <= 9 && (d >> 4) <= 9 && ((correction >= 0x60) <==> (x >> 4) * 10 + (x
        & 0x0F) + (y >> 4) * 10 + (y & 0x0F) >= 100)) by (bit_vector)
        requires
            (x >> 4) <= 9,
            (x & 0x0F) <= 9,
            (y >> 4) <= 9,
            (y & 0x0F) <= 9,
            s == ((if x + y > 255 {
                x + y - 256
            } else {
                x + y
            }) as u8),
            correction == ((if (x & 0x0F) + (y & 0x0F) > 0x0F || (s & 0x0F) > 0x09 {
                0x06u8
            } else {
                0u8
            }) | (if x + y > 255 || s > 0x99 {
                0x60u8
            } else {
                0u8
            })),
            d == ((if s + correction > 255 {
                s + correction - 256
            } else {
                s + correction
            }) as u8),
    ;
}

/// A halted machine with no pending enabled interrupt line spends the
/// fixed four-cycle halt tick: the step succeeds, fetches nothing, and
/// leaves the registers, the halt state, the master enable and all memory
/// untouched — indefinitely, since the state that results is halted again
/// with the same lines.
pub proof fn lemma_halted_step(c: CpuView)
    requires
        c.halted,
        !spec_halt_wake(c.bus),
    ensures
        spec_step(c) matches Some(p) ==> p.1 == 4 && p.0.regs == c.regs && p.0.halted && p.0.ime
            == c.ime && p.0.bus.mem == c.bus.mem && p.0.bus.ppu == c.bus.ppu,
        spec_step(c) is Some,
{
    reveal(spec_step);
    reveal(spec_service_interrupts);
    assert(!crate::interrupts::spec_interrupt_pending(c.bus, Interrupt::VBlank));
    assert(!crate::interrupts::spec_interrupt_pending(c.bus, Interrupt::Timer));
    assert(spec_service_interrupts(c) == c);
}

/// Pushing a 16-bit value and popping it back restores both the value and
/// the stack pointer exactly, whenever the two stack bytes land in plain
/// memory.
pub proof fn lemma_push_pop_roundtrip(b: BusView, sp: u16, value: u16)
    requires
        crate::memory::spec_plain_ram(spec_wsub16(sp, 1)),
        crate::memory::spec_plain_ram(spec_wsub16(spec_wsub16(sp, 1), 1)),
        b.mem.len() == 65536,
    ensures
        spec_pop(spec_push(b, sp, value).0, spec_push(b, sp, value).1) == (value, sp),
{
    let sp1 = spec_wsub16(sp, 1);
    let sp2 = spec_wsub16(sp1, 1);
    let b1 = spec_write_byte(b, spec_hi(value), sp1);
    let b2 = spec_write_byte(b1, spec_lo(value), sp2);
    assert(sp1 != sp2);
    assert(spec_wadd16(sp2, 1) == sp1);
    assert(spec_wadd16(sp2, 2) == sp);
    crate::memory::lemma_plain_read_after_write(b, spec_hi(value), sp1, sp1);
    crate::memory::lemma_plain_read_after_write(b1, spec_lo(value), sp2, sp2);
    crate::memory::lemma_plain_read_after_write(b1, spec_lo(value), sp2, sp1);
    crate::registers::lemma_word_split_roundtrip(value, 0, 0);
}

/// With both the VBlank and the Timer lines enabled and pending, the
/// interrupt controller services VBlank — the higher-priority line — and
/// nothing else in that boundary: the machine takes the VBlank vector with
/// the master enable cleared, the VBlank pending bit clears, and the Timer
/// pending bit stays latched for a later boundary. (The two stack bytes
/// must land in plain memory, as on the real machine's stack.)
pub proof fn lemma_interrupt_priority_vblank_first(c: CpuView)
    requires
        c.ime,
        crate::interrupts::spec_interrupt_pending(c.bus, Interrupt::VBlank),
        crate::interrupts::spec_interrupt_pending(c.bus, Interrupt::Timer),
        crate::memory::spec_plain_ram(spec_wsub16(c.regs.sp, 1)),
        crate::memory::spec_plain_ram(spec_wsub16(spec_wsub16(c.regs.sp, 1), 1)),
        c.bus.mem.len() == 65536,
    ensures
        spec_service_interrupts(c) == spec_service_one(c, Interrupt::VBlank),
        spec_service_interrupts(c).regs.pc == 0x40,
        !spec_service_interrupts(c).ime,
        !spec_service_interrupts(c).halted,
        crate::interrupts::spec_interrupt_flagged(spec_service_interrupts(c).bus, Interrupt::Timer),
        !crate::interrupts::spec_interrupt_flagged(
            spec_service_interrupts(c).bus,
            Interrupt::VBlank,
        ),
{
    reveal(spec_service_interrupts);
    reveal(spec_service_one);
    let flags_byte = spec_read_byte(c.bus, 0xFF0F);
    let cleared = flags_byte & !spec_interrupt_mask(Interrupt::VBlank);
    let bus1 = crate::interrupts::spec_clear_interrupt_flag(c.bus, Interrupt::VBlank);
    crate::memory::lemma_interrupt_flag_write_read(c.bus, cleared);
    let sp1 = spec_wsub16(c.regs.sp, 1);
    let sp2 = spec_wsub16(sp1, 1);
    let bus2 = spec_write_byte(bus1, spec_hi(c.regs.pc), sp1);
    crate::memory::lemma_plain_write_preserves_io_read(bus1, spec_hi(c.regs.pc), sp1, 0xFF0F);
    crate::memory::lemma_plain_write_preserves_io_read(bus2, spec_lo(c.regs.pc), sp2, 0xFF0F);
    assert((flags_byte & !0x01u8) & 0x04u8 == 0x04u8) by (bit_vector)
        requires
            flags_byte & 0x04u8 == 0x04u8,
    ;
    assert(!((flags_byte & !0x01u8) & 0x01u8 == 0x01u8)) by (bit_vector);
}

/// Drives the processor until the audio unit can supply the requested
/// number of samples, then ends the frame. A fatal decode error stops the
/// run and is handed back.
pub fn run_cycles_for_desired_samples(samples_needed: u32, cpu: &mut CPU) -> (r: Result<
    (),
    DecodeError,
>)
    requires
        spec_cpu_wf(*old(cpu)),
        old(cpu).bus.apu.cycles <= 0x0001_0000_0000_0000u64,
    ensures
        spec_cpu_wf(*final(cpu)),
        r is Ok ==> final(cpu).bus.apu.cycles == 0,
        r matches Err(e) ==> e == spec_decode_failure(final(cpu)@),
{
    let cycles_to_run: u32 = cpu.bus.apu.cycles_needed_to_generate_samples(samples_needed);
    let mut cycles_ran: u64 = 0;
    while cycles_ran < cycles_to_run as u64
        invariant
            spec_cpu_wf(*cpu),
            cpu.bus.apu.cycles <= 0x0001_0000_0000_0000u64 + cycles_ran,
            cycles_ran <= cycles_to_run + 255,
        decreases
                (if cycles_ran >= cycles_to_run as u64 {
                    0int
                } else {
                    cycles_to_run - cycles_ran
                }),
    {
        match cpu.step_single_instruction() {
            Ok(instruction_cycles) => {
                cycles_ran = cycles_ran + (instruction_cycles as u64);
            },
            Err(e) => {
                return Err(e);
            },
        }
    }
    cpu.end_frame();
    Ok(())
}

} // verus!
