//! The instruction decoder: it maps a one-byte opcode — from either the
//! plain page or the 0xCB-prefixed page — to a tagged instruction value
//! carrying its operand descriptors. Decoding is a pure, stateless lookup;
//! bytes with no table entry decode to `None` and are reported by the
//! execution engine as fatal.
use vstd::prelude::*;

use crate::registers::Registers;
use crate::registers::spec_bc;
use crate::registers::spec_de;
use crate::registers::spec_hl;
use crate::registers::spec_af;
use crate::registers::spec_hi;
use crate::registers::spec_lo;
use crate::registers::spec_flags_from_byte;
use crate::registers::hi_byte;
use crate::registers::lo_byte;
use crate::registers::FlagsRegister;

verus! {

/// An 8-bit operand: a byte register, the byte addressed by HL, or the
/// immediate byte following the opcode.
#[allow(non_camel_case_types)]
#[derive(Clone, Copy, PartialEq, Eq, Structural, Debug)]
pub enum ArithmeticSource {
    A,
    B,
    C,
    D,
    E,
    H,
    L,
    HL_INDIRECT,
    D8,
}

/// A directly addressable byte register.
#[derive(Clone, Copy, PartialEq, Eq, Structural, Debug)]
pub enum ByteRegister {
    A,
    B,
    C,
    D,
    E,
    H,
    L,
}

/// A 16-bit register pair (or the stack pointer).
#[derive(Clone, Copy, PartialEq, Eq, Structural, Debug)]
pub enum WordRegister {
    BC,
    DE,
    HL,
    SP,
    AF,
}

/// A register pair used as an address, optionally post-incrementing or
/// post-decrementing HL.
#[derive(Clone, Copy, PartialEq, Eq, Structural, Debug)]
pub enum AddressContainingRegister {
    BC,
    DE,
    HL,
    HLI,
    HLD,
}

/// A register holding a zero-page address offset.
#[derive(Clone, Copy, PartialEq, Eq, Structural, Debug)]
pub enum AddressOffsetContainingRegister {
    C,
}

/// A 16-bit address literal following the opcode.
#[derive(Clone, Copy, PartialEq, Eq, Structural, Debug)]
pub enum AddressLiteral {
    A16,
}

/// An 8-bit zero-page address offset literal following the opcode.
#[derive(Clone, Copy, PartialEq, Eq, Structural, Debug)]
pub enum AddressOffsetLiteral {
    A8,
}

/// An 8-bit immediate literal following the opcode.
#[derive(Clone, Copy, PartialEq, Eq, Structural, Debug)]
pub enum ByteNumericLiteral {
    D8,
}

/// A 16-bit immediate literal following the opcode.
#[derive(Clone, Copy, PartialEq, Eq, Structural, Debug)]
pub enum WordNumericLiteral {
    D16,
}

/// The signed stack-pointer displacement operand of LD HL,SP+e.
#[derive(Clone, Copy, PartialEq, Eq, Structural, Debug)]
pub enum StackOffset {
    SPOffset,
}

/// The condition guarding a conditional jump, call or return.
#[derive(Clone, Copy, PartialEq, Eq, Structural, Debug)]
pub enum JumpCondition {
    Always,
    Zero,
    NotZero,
    Carry,
    NoCarry,
}

/// The target of an absolute jump: an address literal or the HL register.
#[allow(non_camel_case_types)]
#[derive(Clone, Copy, PartialEq, Eq, Structural, Debug)]
pub enum JumpTarget {
    A16,
    HL_INDIRECT,
}

/// One of the eight fixed low-memory restart vectors.
pub type RestartTarget = u8;

/// The operand of INC or DEC: a byte operand or a register pair.
#[derive(Clone, Copy, PartialEq, Eq, Structural, Debug)]
pub enum IncrementDecrementTarget {
    Byte(ArithmeticSource),
    Word(WordRegister),
}

/// The addressing shape of a load instruction.
#[derive(Clone, Copy, PartialEq, Eq, Structural, Debug)]
pub enum LoadType {
    ReadWordNumericLiteral(WordRegister, WordNumericLiteral),
    ReadByteNumericLiteral(ByteRegister, ByteNumericLiteral),
    ReadByteFromAddressOffset(ByteRegister, AddressOffsetContainingRegister),
    ReadByteFromAddressLiteral(ByteRegister, AddressLiteral),
    ReadByteFromAddressOffsetLiteral(ByteRegister, AddressOffsetLiteral),
    ReadByteFromAddress(ByteRegister, AddressContainingRegister),
    WriteByteFromRegisterToAddressOffsetLiteral(AddressOffsetLiteral, ByteRegister),
    WriteByteFromRegisterToAddressLiteral(AddressLiteral, ByteRegister),
    WriteByteFromRegisterToAddressOffsetRegister(AddressOffsetContainingRegister, ByteRegister),
    WriteByteFromRegisterToAddressContainedInRegister(AddressContainingRegister, ByteRegister),
    WriteByteLiteralToAddressContainedInRegister(AddressContainingRegister, ByteNumericLiteral),
    WriteWordInRegisterToAddressContainedInLiteral(AddressLiteral, WordRegister),
    CopyByteFromRegisterToRegister(ByteRegister, ByteRegister),
    CopyWordFromRegisterToRegister(WordRegister, WordRegister),
    CopyStackOffsetToRegister(WordRegister, StackOffset),
}

/// The direction of a rotate or shift.
#[derive(Clone, Copy, PartialEq, Eq, Structural, Debug)]
pub enum RotateDirection {
    Left,
    Right,
}

/// A decoded instruction.
#[allow(non_camel_case_types)]
#[derive(Clone, Copy, PartialEq, Eq, Structural, Debug)]
pub enum Instruction {
    NOP,
    HALT,
    STOP,
    ADD(ArithmeticSource),
    ADC(ArithmeticSource),
    ADD_HL(WordRegister),
    ADD_SP,
    SUB(ArithmeticSource),
    SBC(ArithmeticSource),
    CP(ArithmeticSource),
    XOR(ArithmeticSource),
    AND(ArithmeticSource),
    OR(ArithmeticSource),
    DAA,
    CPL,
    SCF,
    CCF,
    DI,
    EI,
    RETI,
    LD(LoadType),
    JR(JumpCondition),
    JP(JumpCondition, JumpTarget),
    CALL(JumpCondition),
    RET(JumpCondition),
    PUSH(WordRegister),
    POP(WordRegister),
    RST(RestartTarget),
    INC(IncrementDecrementTarget),
    DEC(IncrementDecrementTarget),
    RLCA,
    RLA,
    RRCA,
    RRA,
    RLC(ArithmeticSource),
    RL(ArithmeticSource),
    RRC(ArithmeticSource),
    RR(ArithmeticSource),
    SLA(ArithmeticSource),
    SRA(ArithmeticSource),
    SRL(ArithmeticSource),
    SWAP(ArithmeticSource),
    BIT(u8, ArithmeticSource),
    RES(u8, ArithmeticSource),
    SET(u8, ArithmeticSource),
}

/// The 8-bit operand encoded by the low three bits of a regular opcode row:
/// B, C, D, E, H, L, (HL), A in that order.
pub open spec fn spec_operand_from_index(i: u8) -> ArithmeticSource {
    if i == 0 {
        ArithmeticSource::B
    } else if i == 1 {
        ArithmeticSource::C
    } else if i == 2 {
        ArithmeticSource::D
    } else if i == 3 {
        ArithmeticSource::E
    } else if i == 4 {
        ArithmeticSource::H
    } else if i == 5 {
        ArithmeticSource::L
    } else if i == 6 {
        ArithmeticSource::HL_INDIRECT
    } else {
        ArithmeticSource::A
    }
}

/// The byte register encoded by a three-bit register index other than 6.
pub open spec fn spec_register_from_index(i: u8) -> ByteRegister {
    if i == 0 {
        ByteRegister::B
    } else if i == 1 {
        ByteRegister::C
    } else if i == 2 {
        ByteRegister::D
    } else if i == 3 {
        ByteRegister::E
    } else if i == 4 {
        ByteRegister::H
    } else if i == 5 {
        ByteRegister::L
    } else {
        ByteRegister::A
    }
}

fn operand_from_index(i: u8) -> (r: ArithmeticSource)
    ensures
        r == spec_operand_from_index(i),
{
    if i == 0 {
        ArithmeticSource::B
    } else if i == 1 {
        ArithmeticSource::C
    } else if i == 2 {
        ArithmeticSource::D
    } else if i == 3 {
        ArithmeticSource::E
    } else if i == 4 {
        ArithmeticSource::H
    } else if i == 5 {
        ArithmeticSource::L
    } else if i == 6 {
        ArithmeticSource::HL_INDIRECT
    } else {
        ArithmeticSource::A
    }
}

fn register_from_index(i: u8) -> (r: ByteRegister)
    ensures
        r == spec_register_from_index(i),
{
    if i == 0 {
        ByteRegister::B
    } else if i == 1 {
        ByteRegister::C
    } else if i == 2 {
        ByteRegister::D
    } else if i == 3 {
        ByteRegister::E
    } else if i == 4 {
        ByteRegister::H
    } else if i == 5 {
        ByteRegister::L
    } else {
        ByteRegister::A
    }
}

/// The plain-page rows 0x00 to 0x3F: loads, 16-bit arithmetic, increments,
/// accumulator rotates, relative jumps, the low-power stop and the flag
/// instructions.
pub open spec fn spec_decode_low(byte: u8) -> Option<Instruction> {
    match byte {
        0x00 => Some(Instruction::NOP),
        0x01 => Some(Instruction::LD(LoadType::ReadWordNumericLiteral(WordRegister::BC, WordNumericLiteral::D16))),
        0x02 => Some(Instruction::LD(LoadType::WriteByteFromRegisterToAddressContainedInRegister(AddressContainingRegister::BC, ByteRegister::A))),
        0x03 => Some(Instruction::INC(IncrementDecrementTarget::Word(WordRegister::BC))),
        0x04 => Some(Instruction::INC(IncrementDecrementTarget::Byte(ArithmeticSource::B))),
        0x05 => Some(Instruction::DEC(IncrementDecrementTarget::Byte(ArithmeticSource::B))),
        0x06 => Some(Instruction::LD(LoadType::ReadByteNumericLiteral(ByteRegister::B, ByteNumericLiteral::D8))),
        0x07 => Some(Instruction::RLCA),
        0x08 => Some(Instruction::LD(LoadType::WriteWordInRegisterToAddressContainedInLiteral(AddressLiteral::A16, WordRegister::SP))),
        0x09 => Some(Instruction::ADD_HL(WordRegister::BC)),
        0x0A => Some(Instruction::LD(LoadType::ReadByteFromAddress(ByteRegister::A, AddressContainingRegister::BC))),
        0x0B => Some(Instruction::DEC(IncrementDecrementTarget::Word(WordRegister::BC))),
        0x0C => Some(Instruction::INC(IncrementDecrementTarget::Byte(ArithmeticSource::C))),
        0x0D => Some(Instruction::DEC(IncrementDecrementTarget::Byte(ArithmeticSource::C))),
        0x0E => Some(Instruction::LD(LoadType::ReadByteNumericLiteral(ByteRegister::C, ByteNumericLiteral::D8))),
        0x0F => Some(Instruction::RRCA),
        0x10 => Some(Instruction::STOP),
        0x11 => Some(Instruction::LD(LoadType::ReadWordNumericLiteral(WordRegister::DE, WordNumericLiteral::D16))),
        0x12 => Some(Instruction::LD(LoadType::WriteByteFromRegisterToAddressContainedInRegister(AddressContainingRegister::DE, ByteRegister::A))),
        0x13 => Some(Instruction::INC(IncrementDecrementTarget::Word(WordRegister::DE))),
        0x14 => Some(Instruction::INC(IncrementDecrementTarget::Byte(ArithmeticSource::D))),
        0x15 => Some(Instruction::DEC(IncrementDecrementTarget::Byte(ArithmeticSource::D))),
        0x16 => Some(Instruction::LD(LoadType::ReadByteNumericLiteral(ByteRegister::D, ByteNumericLiteral::D8))),
        0x17 => Some(Instruction::RLA),
        0x18 => Some(Instruction::JR(JumpCondition::Always)),
        0x19 => Some(Instruction::ADD_HL(WordRegister::DE)),
        0x1A => Some(Instruction::LD(LoadType::ReadByteFromAddress(ByteRegister::A, AddressContainingRegister::DE))),
        0x1B => Some(Instruction::DEC(IncrementDecrementTarget::Word(WordRegister::DE))),
        0x1C => Some(Instruction::INC(IncrementDecrementTarget::Byte(ArithmeticSource::E))),
        0x1D => Some(Instruction::DEC(IncrementDecrementTarget::Byte(ArithmeticSource::E))),
        0x1E => Some(Instruction::LD(LoadType::ReadByteNumericLiteral(ByteRegister::E, ByteNumericLiteral::D8))),
        0x1F => Some(Instruction::RRA),
        0x20 => Some(Instruction::JR(JumpCondition::NotZero)),
        0x21 => Some(Instruction::LD(LoadType::ReadWordNumericLiteral(WordRegister::HL, WordNumericLiteral::D16))),
        0x22 => Some(Instruction::LD(LoadType::WriteByteFromRegisterToAddressContainedInRegister(AddressContainingRegister::HLI, ByteRegister::A))),
        0x23 => Some(Instruction::INC(IncrementDecrementTarget::Word(WordRegister::HL))),
        0x24 => Some(Instruction::INC(IncrementDecrementTarget::Byte(ArithmeticSource::H))),
        0x25 => Some(Instruction::DEC(IncrementDecrementTarget::Byte(ArithmeticSource::H))),
        0x26 => Some(Instruction::LD(LoadType::ReadByteNumericLiteral(ByteRegister::H, ByteNumericLiteral::D8))),
        0x27 => Some(Instruction::DAA),
        0x28 => Some(Instruction::JR(JumpCondition::Zero)),
        0x29 => Some(Instruction::ADD_HL(WordRegister::HL)),
        0x2A => Some(Instruction::LD(LoadType::ReadByteFromAddress(ByteRegister::A, AddressContainingRegister::HLI))),
        0x2B => Some(Instruction::DEC(IncrementDecrementTarget::Word(WordRegister::HL))),
        0x2C => Some(Instruction::INC(IncrementDecrementTarget::Byte(ArithmeticSource::L))),
        0x2D => Some(Instruction::DEC(IncrementDecrementTarget::Byte(ArithmeticSource::L))),
        0x2E => Some(Instruction::LD(LoadType::ReadByteNumericLiteral(ByteRegister::L, ByteNumericLiteral::D8))),
        0x2F => Some(Instruction::CPL),
        0x30 => Some(Instruction::JR(JumpCondition::NoCarry)),
        0x31 => Some(Instruction::LD(LoadType::ReadWordNumericLiteral(WordRegister::SP, WordNumericLiteral::D16))),
        0x32 => Some(Instruction::LD(LoadType::WriteByteFromRegisterToAddressContainedInRegister(AddressContainingRegister::HLD, ByteRegister::A))),
        0x33 => Some(Instruction::INC(IncrementDecrementTarget::Word(WordRegister::SP))),
        0x34 => Some(Instruction::INC(IncrementDecrementTarget::Byte(ArithmeticSource::HL_INDIRECT))),
        0x35 => Some(Instruction::DEC(IncrementDecrementTarget::Byte(ArithmeticSource::HL_INDIRECT))),
        0x36 => Some(Instruction::LD(LoadType::WriteByteLiteralToAddressContainedInRegister(AddressContainingRegister::HL, ByteNumericLiteral::D8))),
        0x37 => Some(Instruction::SCF),
        0x38 => Some(Instruction::JR(JumpCondition::Carry)),
        0x39 => Some(Instruction::ADD_HL(WordRegister::SP)),
        0x3A => Some(Instruction::LD(LoadType::ReadByteFromAddress(ByteRegister::A, AddressContainingRegister::HLD))),
        0x3B => Some(Instruction::DEC(IncrementDecrementTarget::Word(WordRegister::SP))),
        0x3C => Some(Instruction::INC(IncrementDecrementTarget::Byte(ArithmeticSource::A))),
        0x3D => Some(Instruction::DEC(IncrementDecrementTarget::Byte(ArithmeticSource::A))),
        0x3E => Some(Instruction::LD(LoadType::ReadByteNumericLiteral(ByteRegister::A, ByteNumericLiteral::D8))),
        0x3F => Some(Instruction::CCF),
        _ => None,
    }
}

/// The plain-page rows 0x40 to 0x7F: the register-to-register load block,
/// with HALT in the slot 0x76.
pub open spec fn spec_decode_ld_block(byte: u8) -> Option<Instruction> {
    if byte == 0x76 {
        Some(Instruction::HALT)
    } else {
        let target_index = (byte >> 3) & 0x07;
        let source_index = byte & 0x07;
        if target_index == 6 {
            Some(Instruction::LD(LoadType::WriteByteFromRegisterToAddressContainedInRegister(
                AddressContainingRegister::HL,
                spec_register_from_index(source_index),
            )))
        } else if source_index == 6 {
            Some(Instruction::LD(LoadType::ReadByteFromAddress(
                spec_register_from_index(target_index),
                AddressContainingRegister::HL,
            )))
        } else {
            Some(Instruction::LD(LoadType::CopyByteFromRegisterToRegister(
                spec_register_from_index(target_index),
                spec_register_from_index(source_index),
            )))
        }
    }
}

/// The plain-page rows 0x80 to 0xBF: the eight arithmetic/logic operation
/// blocks, each over the eight regular operands.
pub open spec fn spec_decode_alu_block(byte: u8) -> Option<Instruction> {
    let op_index = (byte >> 3) & 0x07;
    let source = spec_operand_from_index(byte & 0x07);
    if op_index == 0 {
        Some(Instruction::ADD(source))
    } else if op_index == 1 {
        Some(Instruction::ADC(source))
    } else if op_index == 2 {
        Some(Instruction::SUB(source))
    } else if op_index == 3 {
        Some(Instruction::SBC(source))
    } else if op_index == 4 {
        Some(Instruction::AND(source))
    } else if op_index == 5 {
        Some(Instruction::XOR(source))
    } else if op_index == 6 {
        Some(Instruction::OR(source))
    } else {
        Some(Instruction::CP(source))
    }
}

/// The plain-page rows 0xC0 to 0xFF: stack, control transfer, immediate
/// arithmetic, restarts and the interrupt-enable instructions. Bytes with no
/// table entry decode to `None`.
pub open spec fn spec_decode_high(byte: u8) -> Option<Instruction> {
    match byte {
        0xC0 => Some(Instruction::RET(JumpCondition::NotZero)),
        0xC1 => Some(Instruction::POP(WordRegister::BC)),
        0xC2 => Some(Instruction::JP(JumpCondition::NotZero, JumpTarget::A16)),
        0xC3 => Some(Instruction::JP(JumpCondition::Always, JumpTarget::A16)),
        0xC4 => Some(Instruction::CALL(JumpCondition::NotZero)),
        0xC5 => Some(Instruction::PUSH(WordRegister::BC)),
        0xC6 => Some(Instruction::ADD(ArithmeticSource::D8)),
        0xC7 => Some(Instruction::RST(0x00)),
        0xC8 => Some(Instruction::RET(JumpCondition::Zero)),
        0xC9 => Some(Instruction::RET(JumpCondition::Always)),
        0xCA => Some(Instruction::JP(JumpCondition::Zero, JumpTarget::A16)),
        0xCC => Some(Instruction::CALL(JumpCondition::Zero)),
        0xCD => Some(Instruction::CALL(JumpCondition::Always)),
        0xCE => Some(Instruction::ADC(ArithmeticSource::D8)),
        0xCF => Some(Instruction::RST(0x08)),
        0xD0 => Some(Instruction::RET(JumpCondition::NoCarry)),
        0xD1 => Some(Instruction::POP(WordRegister::DE)),
        0xD2 => Some(Instruction::JP(JumpCondition::NoCarry, JumpTarget::A16)),
        0xD4 => Some(Instruction::CALL(JumpCondition::NoCarry)),
        0xD5 => Some(Instruction::PUSH(WordRegister::DE)),
        0xD6 => Some(Instruction::SUB(ArithmeticSource::D8)),
        0xD7 => Some(Instruction::RST(0x10)),
        0xD8 => Some(Instruction::RET(JumpCondition::Carry)),
        0xD9 => Some(Instruction::RETI),
        0xDA => Some(Instruction::JP(JumpCondition::Carry, JumpTarget::A16)),
        0xDC => Some(Instruction::CALL(JumpCondition::Carry)),
        0xDE => Some(Instruction::SBC(ArithmeticSource::D8)),
        0xDF => Some(Instruction::RST(0x18)),
        0xE0 => Some(Instruction::LD(LoadType::WriteByteFromRegisterToAddressOffsetLiteral(AddressOffsetLiteral::A8, ByteRegister::A))),
        0xE1 => Some(Instruction::POP(WordRegister::HL)),
        0xE2 => Some(Instruction::LD(LoadType::WriteByteFromRegisterToAddressOffsetRegister(AddressOffsetContainingRegister::C, ByteRegister::A))),
        0xE5 => Some(Instruction::PUSH(WordRegister::HL)),
        0xE6 => Some(Instruction::AND(ArithmeticSource::D8)),
        0xE7 => Some(Instruction::RST(0x20)),
        0xE8 => Some(Instruction::ADD_SP),
        0xE9 => Some(Instruction::JP(JumpCondition::Always, JumpTarget::HL_INDIRECT)),
        0xEA => Some(Instruction::LD(LoadType::WriteByteFromRegisterToAddressLiteral(AddressLiteral::A16, ByteRegister::A))),
        0xEE => Some(Instruction::XOR(ArithmeticSource::D8)),
        0xEF => Some(Instruction::RST(0x28)),
        0xF0 => Some(Instruction::LD(LoadType::ReadByteFromAddressOffsetLiteral(ByteRegister::A, AddressOffsetLiteral::A8))),
        0xF1 => Some(Instruction::POP(WordRegister::AF)),
        0xF2 => Some(Instruction::LD(LoadType::ReadByteFromAddressOffset(ByteRegister::A, AddressOffsetContainingRegister::C))),
        0xF3 => Some(Instruction::DI),
        0xF5 => Some(Instruction::PUSH(WordRegister::AF)),
        0xF6 => Some(Instruction::OR(ArithmeticSource::D8)),
        0xF7 => Some(Instruction::RST(0x30)),
        0xF8 => Some(Instruction::LD(LoadType::CopyStackOffsetToRegister(WordRegister::HL, StackOffset::SPOffset))),
        0xF9 => Some(Instruction::LD(LoadType::CopyWordFromRegisterToRegister(WordRegister::SP, WordRegister::HL))),
        0xFA => Some(Instruction::LD(LoadType::ReadByteFromAddressLiteral(ByteRegister::A, AddressLiteral::A16))),
        0xFB => Some(Instruction::EI),
        0xFE => Some(Instruction::CP(ArithmeticSource::D8)),
        0xFF => Some(Instruction::RST(0x38)),
        _ => None,
    }
}

/// The 0xCB-prefixed page: rotates, shifts, swaps and the single-bit test,
/// reset and set instructions. Every byte of this page has an entry.
pub open spec fn spec_decode_prefixed(byte: u8) -> Option<Instruction> {
    let source = spec_operand_from_index(byte & 0x07);
    let selector = (byte >> 3) & 0x07;
    if byte < 0x40 {
        if selector == 0 {
            Some(Instruction::RLC(source))
        } else if selector == 1 {
            Some(Instruction::RRC(source))
        } else if selector == 2 {
            Some(Instruction::RL(source))
        } else if selector == 3 {
            Some(Instruction::RR(source))
        } else if selector == 4 {
            Some(Instruction::SLA(source))
        } else if selector == 5 {
            Some(Instruction::SRA(source))
        } else if selector == 6 {
            Some(Instruction::SWAP(source))
        } else {
            Some(Instruction::SRL(source))
        }
    } else if byte < 0x80 {
        Some(Instruction::BIT(selector, source))
    } else if byte < 0xC0 {
        Some(Instruction::RES(selector, source))
    } else {
        Some(Instruction::SET(selector, source))
    }
}

/// The full decode table over both opcode pages.
#[verifier::opaque]
pub open spec fn spec_decode(byte: u8, prefix_instruction: bool) -> Option<Instruction> {
    if prefix_instruction {
        spec_decode_prefixed(byte)
    } else if byte < 0x40 {
        spec_decode_low(byte)
    } else if byte < 0x80 {
        spec_decode_ld_block(byte)
    } else if byte < 0xC0 {
        spec_decode_alu_block(byte)
    } else {
        spec_decode_high(byte)
    }
}

fn decode_low(byte: u8) -> (r: Option<Instruction>)
    requires
        byte < 0x40,
    ensures
        r == spec_decode_low(byte),
{
    match byte {
        0x00 => Some(Instruction::NOP),
        0x01 => Some(Instruction::LD(LoadType::ReadWordNumericLiteral(WordRegister::BC, WordNumericLiteral::D16))),
        0x02 => Some(Instruction::LD(LoadType::WriteByteFromRegisterToAddressContainedInRegister(AddressContainingRegister::BC, ByteRegister::A))),
        0x03 => Some(Instruction::INC(IncrementDecrementTarget::Word(WordRegister::BC))),
        0x04 => Some(Instruction::INC(IncrementDecrementTarget::Byte(ArithmeticSource::B))),
        0x05 => Some(Instruction::DEC(IncrementDecrementTarget::Byte(ArithmeticSource::B))),
        0x06 => Some(Instruction::LD(LoadType::ReadByteNumericLiteral(ByteRegister::B, ByteNumericLiteral::D8))),
        0x07 => Some(Instruction::RLCA),
        0x08 => Some(Instruction::LD(LoadType::WriteWordInRegisterToAddressContainedInLiteral(AddressLiteral::A16, WordRegister::SP))),
        0x09 => Some(Instruction::ADD_HL(WordRegister::BC)),
        0x0A => Some(Instruction::LD(LoadType::ReadByteFromAddress(ByteRegister::A, AddressContainingRegister::BC))),
        0x0B => Some(Instruction::DEC(IncrementDecrementTarget::Word(WordRegister::BC))),
        0x0C => Some(Instruction::INC(IncrementDecrementTarget::Byte(ArithmeticSource::C))),
        0x0D => Some(Instruction::DEC(IncrementDecrementTarget::Byte(ArithmeticSource::C))),
        0x0E => Some(Instruction::LD(LoadType::ReadByteNumericLiteral(ByteRegister::C, ByteNumericLiteral::D8))),
        0x0F => Some(Instruction::RRCA),
        0x10 => Some(Instruction::STOP),
        0x11 => Some(Instruction::LD(LoadType::ReadWordNumericLiteral(WordRegister::DE, WordNumericLiteral::D16))),
        0x12 => Some(Instruction::LD(LoadType::WriteByteFromRegisterToAddressContainedInRegister(AddressContainingRegister::DE, ByteRegister::A))),
        0x13 => Some(Instruction::INC(IncrementDecrementTarget::Word(WordRegister::DE))),
        0x14 => Some(Instruction::INC(IncrementDecrementTarget::Byte(ArithmeticSource::D))),
        0x15 => Some(Instruction::DEC(IncrementDecrementTarget::Byte(ArithmeticSource::D))),
        0x16 => Some(Instruction::LD(LoadType::ReadByteNumericLiteral(ByteRegister::D, ByteNumericLiteral::D8))),
        0x17 => Some(Instruction::RLA),
        0x18 => Some(Instruction::JR(JumpCondition::Always)),
        0x19 => Some(Instruction::ADD_HL(WordRegister::DE)),
        0x1A => Some(Instruction::LD(LoadType::ReadByteFromAddress(ByteRegister::A, AddressContainingRegister::DE))),
        0x1B => Some(Instruction::DEC(IncrementDecrementTarget::Word(WordRegister::DE))),
        0x1C => Some(Instruction::INC(IncrementDecrementTarget::Byte(ArithmeticSource::E))),
        0x1D => Some(Instruction::DEC(IncrementDecrementTarget::Byte(ArithmeticSource::E))),
        0x1E => Some(Instruction::LD(LoadType::ReadByteNumericLiteral(ByteRegister::E, ByteNumericLiteral::D8))),
        0x1F => Some(Instruction::RRA),
        0x20 => Some(Instruction::JR(JumpCondition::NotZero)),
        0x21 => Some(Instruction::LD(LoadType::ReadWordNumericLiteral(WordRegister::HL, WordNumericLiteral::D16))),
        0x22 => Some(Instruction::LD(LoadType::WriteByteFromRegisterToAddressContainedInRegister(AddressContainingRegister::HLI, ByteRegister::A))),
        0x23 => Some(Instruction::INC(IncrementDecrementTarget::Word(WordRegister::HL))),
        0x24 => Some(Instruction::INC(IncrementDecrementTarget::Byte(ArithmeticSource::H))),
        0x25 => Some(Instruction::DEC(IncrementDecrementTarget::Byte(ArithmeticSource::H))),
        0x26 => Some(Instruction::LD(LoadType::ReadByteNumericLiteral(ByteRegister::H, ByteNumericLiteral::D8))),
        0x27 => Some(Instruction::DAA),
        0x28 => Some(Instruction::JR(JumpCondition::Zero)),
        0x29 => Some(Instruction::ADD_HL(WordRegister::HL)),
        0x2A => Some(Instruction::LD(LoadType::ReadByteFromAddress(ByteRegister::A, AddressContainingRegister::HLI))),
        0x2B => Some(Instruction::DEC(IncrementDecrementTarget::Word(WordRegister::HL))),
        0x2C => Some(Instruction::INC(IncrementDecrementTarget::Byte(ArithmeticSource::L))),
        0x2D => Some(Instruction::DEC(IncrementDecrementTarget::Byte(ArithmeticSource::L))),
        0x2E => Some(Instruction::LD(LoadType::ReadByteNumericLiteral(ByteRegister::L, ByteNumericLiteral::D8))),
        0x2F => Some(Instruction::CPL),
        0x30 => Some(Instruction::JR(JumpCondition::NoCarry)),
        0x31 => Some(Instruction::LD(LoadType::ReadWordNumericLiteral(WordRegister::SP, WordNumericLiteral::D16))),
        0x32 => Some(Instruction::LD(LoadType::WriteByteFromRegisterToAddressContainedInRegister(AddressContainingRegister::HLD, ByteRegister::A))),
        0x33 => Some(Instruction::INC(IncrementDecrementTarget::Word(WordRegister::SP))),
        0x34 => Some(Instruction::INC(IncrementDecrementTarget::Byte(ArithmeticSource::HL_INDIRECT))),
        0x35 => Some(Instruction::DEC(IncrementDecrementTarget::Byte(ArithmeticSource::HL_INDIRECT))),
        0x36 => Some(Instruction::LD(LoadType::WriteByteLiteralToAddressContainedInRegister(AddressContainingRegister::HL, ByteNumericLiteral::D8))),
        0x37 => Some(Instruction::SCF),
        0x38 => Some(Instruction::JR(JumpCondition::Carry)),
        0x39 => Some(Instruction::ADD_HL(WordRegister::SP)),
        0x3A => Some(Instruction::LD(LoadType::ReadByteFromAddress(ByteRegister::A, AddressContainingRegister::HLD))),
        0x3B => Some(Instruction::DEC(IncrementDecrementTarget::Word(WordRegister::SP))),
        0x3C => Some(Instruction::INC(IncrementDecrementTarget::Byte(ArithmeticSource::A))),
        0x3D => Some(Instruction::DEC(IncrementDecrementTarget::Byte(ArithmeticSource::A))),
        0x3E => Some(Instruction::LD(LoadType::ReadByteNumericLiteral(ByteRegister::A, ByteNumericLiteral::D8))),
        0x3F => Some(Instruction::CCF),
        _ => None,
    }
}

fn decode_ld_block(byte: u8) -> (r: Option<Instruction>)
    requires
        0x40 <= byte < 0x80,
    ensures
        r == spec_decode_ld_block(byte),
{
    if byte == 0x76 {
        Some(Instruction::HALT)
    } else {
        let target_index: u8 = (byte >> 3) & 0x07;
        let source_index: u8 = byte & 0x07;
        if target_index == 6 {
            Some(Instruction::LD(LoadType::WriteByteFromRegisterToAddressContainedInRegister(
                AddressContainingRegister::HL,
                register_from_index(source_index),
            )))
        } else if source_index == 6 {
            Some(Instruction::LD(LoadType::ReadByteFromAddress(
                register_from_index(target_index),
                AddressContainingRegister::HL,
            )))
        } else {
            Some(Instruction::LD(LoadType::CopyByteFromRegisterToRegister(
                register_from_index(target_index),
                register_from_index(source_index),
            )))
        }
    }
}

fn decode_alu_block(byte: u8) -> (r: Option<Instruction>)
    requires
        0x80 <= byte < 0xC0,
    ensures
        r == spec_decode_alu_block(byte),
{
    let op_index: u8 = (byte >> 3) & 0x07;
    let source = operand_from_index(byte & 0x07);
    if op_index == 0 {
        Some(Instruction::ADD(source))
    } else if op_index == 1 {
        Some(Instruction::ADC(source))
    } else if op_index == 2 {
        Some(Instruction::SUB(source))
    } else if op_index == 3 {
        Some(Instruction::SBC(source))
    } else if op_index == 4 {
        Some(Instruction::AND(source))
    } else if op_index == 5 {
        Some(Instruction::XOR(source))
    } else {
        if op_index == 6 {
            Some(Instruction::OR(source))
        } else {
            Some(Instruction::CP(source))
        }
    }
}

fn decode_high(byte: u8) -> (r: Option<Instruction>)
    requires
        0xC0 <= byte,
    ensures
        r == spec_decode_high(byte),
{
    match byte {
        0xC0 => Some(Instruction::RET(JumpCondition::NotZero)),
        0xC1 => Some(Instruction::POP(WordRegister::BC)),
        0xC2 => Some(Instruction::JP(JumpCondition::NotZero, JumpTarget::A16)),
        0xC3 => Some(Instruction::JP(JumpCondition::Always, JumpTarget::A16)),
        0xC4 => Some(Instruction::CALL(JumpCondition::NotZero)),
        0xC5 => Some(Instruction::PUSH(WordRegister::BC)),
        0xC6 => Some(Instruction::ADD(ArithmeticSource::D8)),
        0xC7 => Some(Instruction::RST(0x00)),
        0xC8 => Some(Instruction::RET(JumpCondition::Zero)),
        0xC9 => Some(Instruction::RET(JumpCondition::Always)),
        0xCA => Some(Instruction::JP(JumpCondition::Zero, JumpTarget::A16)),
        0xCC => Some(Instruction::CALL(JumpCondition::Zero)),
        0xCD => Some(Instruction::CALL(JumpCondition::Always)),
        0xCE => Some(Instruction::ADC(ArithmeticSource::D8)),
        0xCF => Some(Instruction::RST(0x08)),
        0xD0 => Some(Instruction::RET(JumpCondition::NoCarry)),
        0xD1 => Some(Instruction::POP(WordRegister::DE)),
        0xD2 => Some(Instruction::JP(JumpCondition::NoCarry, JumpTarget::A16)),
        0xD4 => Some(Instruction::CALL(JumpCondition::NoCarry)),
        0xD5 => Some(Instruction::PUSH(WordRegister::DE)),
        0xD6 => Some(Instruction::SUB(ArithmeticSource::D8)),
        0xD7 => Some(Instruction::RST(0x10)),
        0xD8 => Some(Instruction::RET(JumpCondition::Carry)),
        0xD9 => Some(Instruction::RETI),
        0xDA => Some(Instruction::JP(JumpCondition::Carry, JumpTarget::A16)),
        0xDC => Some(Instruction::CALL(JumpCondition::Carry)),
        0xDE => Some(Instruction::SBC(ArithmeticSource::D8)),
        0xDF => Some(Instruction::RST(0x18)),
        0xE0 => Some(Instruction::LD(LoadType::WriteByteFromRegisterToAddressOffsetLiteral(AddressOffsetLiteral::A8, ByteRegister::A))),
        0xE1 => Some(Instruction::POP(WordRegister::HL)),
        0xE2 => Some(Instruction::LD(LoadType::WriteByteFromRegisterToAddressOffsetRegister(AddressOffsetContainingRegister::C, ByteRegister::A))),
        0xE5 => Some(Instruction::PUSH(WordRegister::HL)),
        0xE6 => Some(Instruction::AND(ArithmeticSource::D8)),
        0xE7 => Some(Instruction::RST(0x20)),
        0xE8 => Some(Instruction::ADD_SP),
        0xE9 => Some(Instruction::JP(JumpCondition::Always, JumpTarget::HL_INDIRECT)),
        0xEA => Some(Instruction::LD(LoadType::WriteByteFromRegisterToAddressLiteral(AddressLiteral::A16, ByteRegister::A))),
        0xEE => Some(Instruction::XOR(ArithmeticSource::D8)),
        0xEF => Some(Instruction::RST(0x28)),
        0xF0 => Some(Instruction::LD(LoadType::ReadByteFromAddressOffsetLiteral(ByteRegister::A, AddressOffsetLiteral::A8))),
        0xF1 => Some(Instruction::POP(WordRegister::AF)),
        0xF2 => Some(Instruction::LD(LoadType::ReadByteFromAddressOffset(ByteRegister::A, AddressOffsetContainingRegister::C))),
        0xF3 => Some(Instruction::DI),
        0xF5 => Some(Instruction::PUSH(WordRegister::AF)),
        0xF6 => Some(Instruction::OR(ArithmeticSource::D8)),
        0xF7 => Some(Instruction::RST(0x30)),
        0xF8 => Some(Instruction::LD(LoadType::CopyStackOffsetToRegister(WordRegister::HL, StackOffset::SPOffset))),
        0xF9 => Some(Instruction::LD(LoadType::CopyWordFromRegisterToRegister(WordRegister::SP, WordRegister::HL))),
        0xFA => Some(Instruction::LD(LoadType::ReadByteFromAddressLiteral(ByteRegister::A, AddressLiteral::A16))),
        0xFB => Some(Instruction::EI),
        0xFE => Some(Instruction::CP(ArithmeticSource::D8)),
        0xFF => Some(Instruction::RST(0x38)),
        _ => None,
    }
}

fn decode_prefixed(byte: u8) -> (r: Option<Instruction>)
    ensures
        r == spec_decode_prefixed(byte),
{
    let source = operand_from_index(byte & 0x07);
    let selector: u8 = (byte >> 3) & 0x07;
    if byte < 0x40 {
        if selector == 0 {
            Some(Instruction::RLC(source))
        } else if selector == 1 {
            Some(Instruction::RRC(source))
        } else if selector == 2 {
            Some(Instruction::RL(source))
        } else if selector == 3 {
            Some(Instruction::RR(source))
        } else if selector == 4 {
            Some(Instruction::SLA(source))
        } else if selector == 5 {
            Some(Instruction::SRA(source))
        } else {
            if selector == 6 {
                Some(Instruction::SWAP(source))
            } else {
                Some(Instruction::SRL(source))
            }
        }
    } else if byte < 0x80 {
        Some(Instruction::BIT(selector, source))
    } else if byte < 0xC0 {
        Some(Instruction::RES(selector, source))
    } else {
        Some(Instruction::SET(selector, source))
    }
}

impl Instruction {
    /// Decodes one opcode byte from the page selected by
    /// `prefix_instruction`. Returns `None` exactly for the eleven plain
    /// bytes the published table leaves undefined, and for a stray 0xCB on
    /// the plain page — the prefix escape, which the fetch stage consumes
    /// before decoding, so it is no instruction of its own. The execution
    /// engine reports `None` as a fatal decode error.
    pub fn from_byte(byte: u8, prefix_instruction: bool) -> (r: Option<Instruction>)
        ensures
            r == spec_decode(byte, prefix_instruction),
    {
        proof {
            reveal(spec_decode);
        }
        if prefix_instruction {
            decode_prefixed(byte)
        } else if byte < 0x40 {
            decode_low(byte)
        } else if byte < 0x80 {
            decode_ld_block(byte)
        } else if byte < 0xC0 {
            decode_alu_block(byte)
        } else {
            decode_high(byte)
        }
    }
}

/// Whether the condition holds of the current flags.
pub open spec fn spec_take_jump(c: JumpCondition, f: FlagsRegister) -> bool {
    match c {
        JumpCondition::Always => true,
        JumpCondition::Zero => f.zero,
        JumpCondition::NotZero => !f.zero,
        JumpCondition::Carry => f.carry,
        JumpCondition::NoCarry => !f.carry,
    }
}

impl JumpCondition {
    /// Evaluates the condition against the flags register.
    pub fn take_jump(&self, registers: &Registers) -> (r: bool)
        ensures
            r == spec_take_jump(*self, registers.f),
    {
        match self {
            JumpCondition::Always => true,
            JumpCondition::Zero => registers.f.zero,
            JumpCondition::NotZero => !registers.f.zero,
            JumpCondition::Carry => registers.f.carry,
            JumpCondition::NoCarry => !registers.f.carry,
        }
    }
}

/// The value a byte register holds.
pub open spec fn spec_get_byte(reg: ByteRegister, r: Registers) -> u8 {
    match reg {
        ByteRegister::A => r.a,
        ByteRegister::B => r.b,
        ByteRegister::C => r.c,
        ByteRegister::D => r.d,
        ByteRegister::E => r.e,
        ByteRegister::H => r.h,
        ByteRegister::L => r.l,
    }
}

/// The register file after storing a byte in a register.
pub open spec fn spec_set_byte(reg: ByteRegister, value: u8, r: Registers) -> Registers {
    match reg {
        ByteRegister::A => Registers { a: value, ..r },
        ByteRegister::B => Registers { b: value, ..r },
        ByteRegister::C => Registers { c: value, ..r },
        ByteRegister::D => Registers { d: value, ..r },
        ByteRegister::E => Registers { e: value, ..r },
        ByteRegister::H => Registers { h: value, ..r },
        ByteRegister::L => Registers { l: value, ..r },
    }
}

impl ByteRegister {
    /// Reads the register.
    pub fn get_byte(&self, registers: &Registers) -> (r: u8)
        ensures
            r == spec_get_byte(*self, *registers),
    {
        match self {
            ByteRegister::A => registers.a,
            ByteRegister::B => registers.b,
            ByteRegister::C => registers.c,
            ByteRegister::D => registers.d,
            ByteRegister::E => registers.e,
            ByteRegister::H => registers.h,
            ByteRegister::L => registers.l,
        }
    }

    /// Writes the register.
    pub fn set_byte(&self, value: u8, registers: &mut Registers)
        ensures
            *final(registers) == spec_set_byte(*self, value, *old(registers)),
    {
        match self {
            ByteRegister::A => registers.a = value,
            ByteRegister::B => registers.b = value,
            ByteRegister::C => registers.c = value,
            ByteRegister::D => registers.d = value,
            ByteRegister::E => registers.e = value,
            ByteRegister::H => registers.h = value,
            ByteRegister::L => registers.l = value,
        }
    }
}

/// The word a register pair holds.
pub open spec fn spec_get_word(reg: WordRegister, r: Registers) -> u16 {
    match reg {
        WordRegister::BC => spec_bc(r),
        WordRegister::DE => spec_de(r),
        WordRegister::HL => spec_hl(r),
        WordRegister::AF => spec_af(r),
        WordRegister::SP => r.sp,
    }
}

/// The register file after storing a word in a register pair.
pub open spec fn spec_set_word(reg: WordRegister, value: u16, r: Registers) -> Registers {
    match reg {
        WordRegister::BC => Registers { b: spec_hi(value), c: spec_lo(value), ..r },
        WordRegister::DE => Registers { d: spec_hi(value), e: spec_lo(value), ..r },
        WordRegister::HL => Registers { h: spec_hi(value), l: spec_lo(value), ..r },
        WordRegister::AF => Registers {
            a: spec_hi(value),
            f: spec_flags_from_byte(spec_lo(value)),
            ..r
        },
        WordRegister::SP => Registers { sp: value, ..r },
    }
}

impl WordRegister {
    /// Reads the pair as a 16-bit word, high byte first.
    pub fn get_word(&self, registers: &Registers) -> (r: u16)
        ensures
            r == spec_get_word(*self, *registers),
    {
        match self {
            WordRegister::BC => registers.get_bc(),
            WordRegister::DE => registers.get_de(),
            WordRegister::HL => registers.get_hl(),
            WordRegister::AF => registers.get_af(),
            WordRegister::SP => registers.sp,
        }
    }

    /// Writes the pair, high byte to the first-named register.
    pub fn set_word(&self, value: u16, registers: &mut Registers)
        ensures
            *final(registers) == spec_set_word(*self, value, *old(registers)),
    {
        match self {
            WordRegister::BC => registers.set_bc(value),
            WordRegister::DE => registers.set_de(value),
            WordRegister::HL => registers.set_hl(value),
            WordRegister::AF => registers.set_af(value),
            WordRegister::SP => registers.sp = value,
        }
    }
}

/// The address a register pair points at.
pub open spec fn spec_get_address(reg: AddressContainingRegister, r: Registers) -> u16 {
    match reg {
        AddressContainingRegister::BC => spec_bc(r),
        AddressContainingRegister::DE => spec_de(r),
        AddressContainingRegister::HL => spec_hl(r),
        AddressContainingRegister::HLI => spec_hl(r),
        AddressContainingRegister::HLD => spec_hl(r),
    }
}

impl AddressContainingRegister {
    /// The address held in the pair; HLI and HLD both read HL.
    pub fn get_address(&self, registers: &Registers) -> (r: u16)
        ensures
            r == spec_get_address(*self, *registers),
    {
        match self {
            AddressContainingRegister::BC => registers.get_bc(),
            AddressContainingRegister::DE => registers.get_de(),
            AddressContainingRegister::HL => registers.get_hl(),
            AddressContainingRegister::HLI => registers.get_hl(),
            AddressContainingRegister::HLD => registers.get_hl(),
        }
    }
}

impl AddressOffsetContainingRegister {
    /// The zero-page offset held in the register.
    pub fn get_address_offset(&self, registers: &Registers) -> (r: u8)
        ensures
            r == registers.c,
    {
        match self {
            AddressOffsetContainingRegister::C => registers.c,
        }
    }
}

} // verus!
