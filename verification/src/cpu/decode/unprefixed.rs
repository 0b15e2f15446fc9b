//! The unprefixed opcode table.
use vstd::prelude::*;

use super::helpers::{format_hex_message, hex_message, ld_target, register_operand};
use crate::bits::lemma_nibbles;
use crate::cpu::instructions::{InstParam, InstructionCondition, Instructions};
use crate::cpu::registers::{Register16Bit, Register8Bit};
use crate::cpu::CPU;

verus! {

/// The instructions of the rows 0x0 to 0x3 and 0xC to 0xF of the opcode
/// table, with `n8` and `n16` the operands that follow the opcode.
/// (0xCB is the prefix, not an instruction of this table.)
pub open spec fn unprefixed_row_instruction(opcode: u8, n8: u8, n16: u16) -> Instructions {
    let d8 = InstParam::Number8Bit(n8);
    let d16 = InstParam::Number16Bit(n16);
    let e8 = InstParam::SignedNumber8Bit(n8 as i8);
    let no = InstParam::Boolean(false);
    match opcode {
        0x00 => Instructions::NOP,
        0x01 => Instructions::LD(InstParam::Register16Bit(Register16Bit::BC), d16),
        0x02 => Instructions::LD(InstParam::Register16Bit(Register16Bit::BC), InstParam::Register8Bit(Register8Bit::A)),
        0x03 => Instructions::INC(InstParam::Register16Bit(Register16Bit::BC), no),
        0x04 => Instructions::INC(InstParam::Register8Bit(Register8Bit::B), no),
        0x05 => Instructions::DEC(InstParam::Register8Bit(Register8Bit::B), no),
        0x06 => Instructions::LD(InstParam::Register8Bit(Register8Bit::B), d8),
        0x07 => Instructions::RLCA,
        0x08 => Instructions::LD(d16, InstParam::Register16Bit(Register16Bit::SP)),
        0x09 => Instructions::ADD_HL(InstParam::Register16Bit(Register16Bit::BC)),
        0x0A => Instructions::LD(InstParam::Register8Bit(Register8Bit::A), InstParam::Register16Bit(Register16Bit::BC)),
        0x0B => Instructions::DEC(InstParam::Register16Bit(Register16Bit::BC), no),
        0x0C => Instructions::INC(InstParam::Register8Bit(Register8Bit::C), no),
        0x0D => Instructions::DEC(InstParam::Register8Bit(Register8Bit::C), no),
        0x0E => Instructions::LD(InstParam::Register8Bit(Register8Bit::C), d8),
        0x0F => Instructions::RRCA,
        0x10 => Instructions::STOP,
        0x11 => Instructions::LD(InstParam::Register16Bit(Register16Bit::DE), d16),
        0x12 => Instructions::LD(InstParam::Register16Bit(Register16Bit::DE), InstParam::Register8Bit(Register8Bit::A)),
        0x13 => Instructions::INC(InstParam::Register16Bit(Register16Bit::DE), no),
        0x14 => Instructions::INC(InstParam::Register8Bit(Register8Bit::D), no),
        0x15 => Instructions::DEC(InstParam::Register8Bit(Register8Bit::D), no),
        0x16 => Instructions::LD(InstParam::Register8Bit(Register8Bit::D), d8),
        0x17 => Instructions::RLA,
        0x18 => Instructions::JR(InstParam::ConditionCodes(InstructionCondition::SkipConditionCodes), e8),
        0x19 => Instructions::ADD_HL(InstParam::Register16Bit(Register16Bit::DE)),
        0x1A => Instructions::LD(InstParam::Register8Bit(Register8Bit::A), InstParam::Register16Bit(Register16Bit::DE)),
        0x1B => Instructions::DEC(InstParam::Register16Bit(Register16Bit::DE), no),
        0x1C => Instructions::INC(InstParam::Register8Bit(Register8Bit::E), no),
        0x1D => Instructions::DEC(InstParam::Register8Bit(Register8Bit::E), no),
        0x1E => Instructions::LD(InstParam::Register8Bit(Register8Bit::E), d8),
        0x1F => Instructions::RRA,
        0x20 => Instructions::JR(InstParam::ConditionCodes(InstructionCondition::NotZero), e8),
        0x21 => Instructions::LD(InstParam::Register16Bit(Register16Bit::HL), d16),
        0x22 => Instructions::LDHLIA,
        0x23 => Instructions::INC(InstParam::Register16Bit(Register16Bit::HL), no),
        0x24 => Instructions::INC(InstParam::Register8Bit(Register8Bit::H), no),
        0x25 => Instructions::DEC(InstParam::Register8Bit(Register8Bit::H), no),
        0x26 => Instructions::LD(InstParam::Register8Bit(Register8Bit::H), d8),
        0x27 => Instructions::DAA,
        0x28 => Instructions::JR(InstParam::ConditionCodes(InstructionCondition::Zero), e8),
        0x29 => Instructions::ADD_HL(InstParam::Register16Bit(Register16Bit::HL)),
        0x2A => Instructions::LDAHLI,
        0x2B => Instructions::DEC(InstParam::Register16Bit(Register16Bit::HL), no),
        0x2C => Instructions::INC(InstParam::Register8Bit(Register8Bit::L), no),
        0x2D => Instructions::DEC(InstParam::Register8Bit(Register8Bit::L), no),
        0x2E => Instructions::LD(InstParam::Register8Bit(Register8Bit::L), d8),
        0x2F => Instructions::CPL,
        0x30 => Instructions::JR(InstParam::ConditionCodes(InstructionCondition::NotCarry), e8),
        0x31 => Instructions::LD(InstParam::Register16Bit(Register16Bit::SP), d16),
        0x32 => Instructions::LDHLDA,
        0x33 => Instructions::INC(InstParam::Register16Bit(Register16Bit::SP), no),
        0x34 => Instructions::INC(InstParam::Register16Bit(Register16Bit::HL), InstParam::Boolean(true)),
        0x35 => Instructions::DEC(InstParam::Register16Bit(Register16Bit::HL), InstParam::Boolean(true)),
        0x36 => Instructions::LD(InstParam::Register16Bit(Register16Bit::HL), d8),
        0x37 => Instructions::SCF,
        0x38 => Instructions::JR(InstParam::ConditionCodes(InstructionCondition::Carry), e8),
        0x39 => Instructions::ADD_HL(InstParam::Register16Bit(Register16Bit::SP)),
        0x3A => Instructions::LDAHLD,
        0x3B => Instructions::DEC(InstParam::Register16Bit(Register16Bit::SP), no),
        0x3C => Instructions::INC(InstParam::Register8Bit(Register8Bit::A), no),
        0x3D => Instructions::DEC(InstParam::Register8Bit(Register8Bit::A), no),
        0x3E => Instructions::LD(InstParam::Register8Bit(Register8Bit::A), d8),
        0x3F => Instructions::CCF,
        0xC0 => Instructions::RET(InstParam::ConditionCodes(InstructionCondition::NotZero)),
        0xC1 => Instructions::POP(InstParam::Register16Bit(Register16Bit::BC)),
        0xC2 => Instructions::JP(InstParam::ConditionCodes(InstructionCondition::NotZero), d16),
        0xC3 => Instructions::JP(InstParam::ConditionCodes(InstructionCondition::SkipConditionCodes), d16),
        0xC4 => Instructions::CALL(InstParam::ConditionCodes(InstructionCondition::NotZero), d16),
        0xC5 => Instructions::PUSH(InstParam::Register16Bit(Register16Bit::BC)),
        0xC6 => Instructions::ADD(d8),
        0xC7 => Instructions::RST(InstParam::Number8Bit(0x00)),
        0xC8 => Instructions::RET(InstParam::ConditionCodes(InstructionCondition::Zero)),
        0xC9 => Instructions::RET(InstParam::ConditionCodes(InstructionCondition::SkipConditionCodes)),
        0xCA => Instructions::JP(InstParam::ConditionCodes(InstructionCondition::Zero), d16),
        0xCB => Instructions::INVALID(0xCB),
        0xCC => Instructions::CALL(InstParam::ConditionCodes(InstructionCondition::Zero), d16),
        0xCD => Instructions::CALL(InstParam::ConditionCodes(InstructionCondition::SkipConditionCodes), d16),
        0xCE => Instructions::ADC(d8),
        0xCF => Instructions::RST(InstParam::Number8Bit(0x08)),
        0xD0 => Instructions::RET(InstParam::ConditionCodes(InstructionCondition::NotCarry)),
        0xD1 => Instructions::POP(InstParam::Register16Bit(Register16Bit::DE)),
        0xD2 => Instructions::JP(InstParam::ConditionCodes(InstructionCondition::NotCarry), d16),
        0xD3 => Instructions::INVALID(0x3),
        0xD4 => Instructions::CALL(InstParam::ConditionCodes(InstructionCondition::NotCarry), d16),
        0xD5 => Instructions::PUSH(InstParam::Register16Bit(Register16Bit::DE)),
        0xD6 => Instructions::SUB(d8),
        0xD7 => Instructions::RST(InstParam::Number8Bit(0x10)),
        0xD8 => Instructions::RET(InstParam::ConditionCodes(InstructionCondition::Carry)),
        0xD9 => Instructions::RETI,
        0xDA => Instructions::JP(InstParam::ConditionCodes(InstructionCondition::Carry), d16),
        0xDB => Instructions::INVALID(0xB),
        0xDC => Instructions::CALL(InstParam::ConditionCodes(InstructionCondition::Carry), d16),
        0xDD => Instructions::INVALID(0xD),
        0xDE => Instructions::SBC(d8),
        0xDF => Instructions::RST(InstParam::Number8Bit(0x18)),
        0xE0 => Instructions::LDH(d8, InstParam::Register8Bit(Register8Bit::A)),
        0xE1 => Instructions::POP(InstParam::Register16Bit(Register16Bit::HL)),
        0xE2 => Instructions::LDH(InstParam::Register8Bit(Register8Bit::C), InstParam::Register8Bit(Register8Bit::A)),
        0xE3 => Instructions::INVALID(0x3),
        0xE4 => Instructions::INVALID(0x3),
        0xE5 => Instructions::PUSH(InstParam::Register16Bit(Register16Bit::HL)),
        0xE6 => Instructions::AND(d8),
        0xE7 => Instructions::RST(InstParam::Number8Bit(0x20)),
        0xE8 => Instructions::ADD(e8),
        0xE9 => Instructions::JP(InstParam::ConditionCodes(InstructionCondition::SkipConditionCodes), InstParam::Register16Bit(Register16Bit::HL)),
        0xEA => Instructions::LD(d16, InstParam::Register8Bit(Register8Bit::A)),
        0xEB => Instructions::INVALID(0xB),
        0xEC => Instructions::INVALID(0xB),
        0xED => Instructions::INVALID(0xB),
        0xEE => Instructions::XOR(d8),
        0xEF => Instructions::RST(InstParam::Number8Bit(0x28)),
        0xF0 => Instructions::LDH(InstParam::Register8Bit(Register8Bit::A), d8),
        0xF1 => Instructions::POP(InstParam::Register16Bit(Register16Bit::AF)),
        0xF2 => Instructions::LDH(InstParam::Register8Bit(Register8Bit::A), InstParam::Register8Bit(Register8Bit::C)),
        0xF3 => Instructions::DI,
        0xF4 => Instructions::INVALID(0x4),
        0xF5 => Instructions::PUSH(InstParam::Register16Bit(Register16Bit::AF)),
        0xF6 => Instructions::OR(d8),
        0xF7 => Instructions::RST(InstParam::Number8Bit(0x30)),
        0xF8 => Instructions::LD(InstParam::Register16Bit(Register16Bit::HL), e8),
        0xF9 => Instructions::LD(InstParam::Register16Bit(Register16Bit::SP), InstParam::Register16Bit(Register16Bit::HL)),
        0xFA => Instructions::LD(InstParam::Register8Bit(Register8Bit::A), d16),
        0xFB => Instructions::EI,
        0xFC => Instructions::INVALID(0xC),
        0xFD => Instructions::INVALID(0xC),
        0xFE => Instructions::CP(d8),
        _ => Instructions::RST(InstParam::Number8Bit(0x38)),
    }
}

/// The instruction of an unprefixed opcode, with `n8` and `n16` the operands
/// that follow it. 0x40..=0x7F are the loads between the operands selected
/// by bits 5..3 (target) and bits 2..0 (source), except 0x76 (HALT);
/// 0x80..=0xBF apply ADD, ADC, SUB, SBC, AND, XOR, OR and CP (bits 5..3)
/// to A and the operand of bits 2..0.
pub open spec fn unprefixed_instruction(opcode: u8, n8: u8, n16: u16) -> Instructions {
    let head = opcode / 16;
    let tail = opcode % 16;
    if 0x40 <= opcode <= 0x7F {
        if opcode == 0x76 {
            Instructions::HALT
        } else {
            Instructions::LD(ld_target(opcode), register_operand(tail))
        }
    } else if 0x80 <= opcode <= 0xBF {
        let value = register_operand(tail);
        if tail > 7 {
            if head == 8 {
                Instructions::ADC(value)
            } else if head == 9 {
                Instructions::SBC(value)
            } else if head == 10 {
                Instructions::XOR(value)
            } else {
                Instructions::CP(value)
            }
        } else {
            if head == 8 {
                Instructions::ADD(value)
            } else if head == 9 {
                Instructions::SUB(value)
            } else if head == 10 {
                Instructions::AND(value)
            } else {
                Instructions::OR(value)
            }
        }
    } else {
        unprefixed_row_instruction(opcode, n8, n16)
    }
}

impl CPU {
    /// Decode an unprefixed opcode (every opcode except 0xCB). The head is
    /// the upper nibble (0x42 -> 0x4), the tail the lower nibble (0x42 -> 0x2).
    pub fn decode_unprefixed(&self, opcode: u8) -> (r: Result<Instructions, String>)
        ensures
            opcode != 0xCB ==> r == Ok::<Instructions, String>(
                unprefixed_instruction(opcode, self@.operand8(), self@.operand16()),
            ),
            opcode == 0xCB ==> r is Err && r->Err_0@ == hex_message(
                "Prefixed Opcodes should have already been handled 😕 "@,
                opcode,
            ),
    {
        proof {
            lemma_nibbles(opcode);
        }
        let head = opcode >> 4;
        let tail = opcode & 0xF;
        Ok(
            match head {
                0x0 => match tail {
                    0x0 => Instructions::NOP,
                    0x1 => self.decode_0x0_to_0x3_commons(opcode)?,
                    0x2 => Instructions::LD(
                        InstParam::Register16Bit(Register16Bit::BC),
                        InstParam::Register8Bit(Register8Bit::A),
                    ),
                    0x3..=0x6 => self.decode_0x0_to_0x3_commons(opcode)?,
                    0x7 => Instructions::RLCA,
                    0x8 => Instructions::LD(
                        InstParam::Number16Bit(self.get_16bit_from_pc()),
                        InstParam::Register16Bit(Register16Bit::SP),
                    ),
                    0x9 => self.decode_0x0_to_0x3_commons(opcode)?,
                    0xA => Instructions::LD(
                        InstParam::Register8Bit(Register8Bit::A),
                        InstParam::Register16Bit(Register16Bit::BC),
                    ),
                    0xB..=0xE => self.decode_0x0_to_0x3_commons(opcode)?,
                    _ => Instructions::RRCA,
                },
                0x1 => match tail {
                    0x0 => Instructions::STOP,
                    0x1 => self.decode_0x0_to_0x3_commons(opcode)?,
                    0x2 => Instructions::LD(
                        InstParam::Register16Bit(Register16Bit::DE),
                        InstParam::Register8Bit(Register8Bit::A),
                    ),
                    0x3..=0x6 => self.decode_0x0_to_0x3_commons(opcode)?,
                    0x7 => Instructions::RLA,
                    0x8 => Instructions::JR(
                        InstParam::ConditionCodes(InstructionCondition::SkipConditionCodes),
                        InstParam::SignedNumber8Bit(self.get_8bit_from_pc() as i8),
                    ),
                    0x9 => self.decode_0x0_to_0x3_commons(opcode)?,
                    0xA => Instructions::LD(
                        InstParam::Register8Bit(Register8Bit::A),
                        InstParam::Register16Bit(Register16Bit::DE),
                    ),
                    0xB..=0xE => self.decode_0x0_to_0x3_commons(opcode)?,
                    _ => Instructions::RRA,
                },
                0x2 => match tail {
                    0x0 => Instructions::JR(
                        InstParam::ConditionCodes(InstructionCondition::NotZero),
                        InstParam::SignedNumber8Bit(self.get_8bit_from_pc() as i8),
                    ),
                    0x1 => self.decode_0x0_to_0x3_commons(opcode)?,
                    0x2 => Instructions::LDHLIA,
                    0x3..=0x6 => self.decode_0x0_to_0x3_commons(opcode)?,
                    0x7 => Instructions::DAA,
                    0x8 => Instructions::JR(
                        InstParam::ConditionCodes(InstructionCondition::Zero),
                        InstParam::SignedNumber8Bit(self.get_8bit_from_pc() as i8),
                    ),
                    0x9 => self.decode_0x0_to_0x3_commons(opcode)?,
                    0xA => Instructions::LDAHLI,
                    0xB..=0xE => self.decode_0x0_to_0x3_commons(opcode)?,
                    _ => Instructions::CPL,
                },
                0x3 => match tail {
                    0x0 => Instructions::JR(
                        InstParam::ConditionCodes(InstructionCondition::NotCarry),
                        InstParam::SignedNumber8Bit(self.get_8bit_from_pc() as i8),
                    ),
                    0x1 => self.decode_0x0_to_0x3_commons(opcode)?,
                    0x2 => Instructions::LDHLDA,
                    0x3..=0x6 => self.decode_0x0_to_0x3_commons(opcode)?,
                    0x7 => Instructions::SCF,
                    0x8 => Instructions::JR(
                        InstParam::ConditionCodes(InstructionCondition::Carry),
                        InstParam::SignedNumber8Bit(self.get_8bit_from_pc() as i8),
                    ),
                    0x9 => self.decode_0x0_to_0x3_commons(opcode)?,
                    0xA => Instructions::LDAHLD,
                    0xB..=0xE => self.decode_0x0_to_0x3_commons(opcode)?,
                    _ => Instructions::CCF,
                },
                // LD instructions (and HALT)
                0x4..=0x7 => {
                    // A single opcode within this range is not a LD instruction
                    if opcode == 0x76 {
                        Instructions::HALT
                    } else {
                        let value = self.tail_to_inst_param(tail);
                        match self.opcode_to_ld_target(opcode) {
                            Some(target) => Instructions::LD(target, value),
                            None => return self.not_implemented(opcode),
                        }
                    }
                },
                // ADD, ADC, SUB, SBC, AND, XOR, OR, CP
                0x8..=0xB => {
                    let value = self.tail_to_inst_param(tail);
                    let is_second_half = tail > 0x7;
                    if is_second_half {
                        match head {
                            0x8 => Instructions::ADC(value),
                            0x9 => Instructions::SBC(value),
                            0xA => Instructions::XOR(value),
                            _ => match tail {
                                0xE => Instructions::CP(InstParam::Register16Bit(Register16Bit::HL)),
                                _ => Instructions::CP(value),
                            },
                        }
                    } else {
                        match head {
                            0x8 => Instructions::ADD(value),
                            0x9 => Instructions::SUB(value),
                            0xA => Instructions::AND(value),
                            _ => Instructions::OR(value),
                        }
                    }
                },
                0xC => match tail {
                    0x0 => Instructions::RET(InstParam::ConditionCodes(InstructionCondition::NotZero)),
                    0x1 => Instructions::POP(InstParam::Register16Bit(Register16Bit::BC)),
                    0x2 => Instructions::JP(
                        InstParam::ConditionCodes(InstructionCondition::NotZero),
                        InstParam::Number16Bit(self.get_16bit_from_pc()),
                    ),
                    0x3 => Instructions::JP(
                        InstParam::ConditionCodes(InstructionCondition::SkipConditionCodes),
                        InstParam::Number16Bit(self.get_16bit_from_pc()),
                    ),
                    0x4 => Instructions::CALL(
                        InstParam::ConditionCodes(InstructionCondition::NotZero),
                        InstParam::Number16Bit(self.get_16bit_from_pc()),
                    ),
                    0x5 => Instructions::PUSH(InstParam::Register16Bit(Register16Bit::BC)),
                    0x6 => Instructions::ADD(InstParam::Number8Bit(self.get_8bit_from_pc())),
                    0x7 => Instructions::RST(InstParam::Number8Bit(0x00)),
                    0x8 => Instructions::RET(InstParam::ConditionCodes(InstructionCondition::Zero)),
                    0x9 => Instructions::RET(InstParam::ConditionCodes(InstructionCondition::SkipConditionCodes)),
                    0xA => Instructions::JP(
                        InstParam::ConditionCodes(InstructionCondition::Zero),
                        InstParam::Number16Bit(self.get_16bit_from_pc()),
                    ),
                    0xB => {
                        return Err(
                            format_hex_message("Prefixed Opcodes should have already been handled 😕 ", opcode),
                        );
                    },
                    0xC => Instructions::CALL(
                        InstParam::ConditionCodes(InstructionCondition::Zero),
                        InstParam::Number16Bit(self.get_16bit_from_pc()),
                    ),
                    0xD => Instructions::CALL(
                        InstParam::ConditionCodes(InstructionCondition::SkipConditionCodes),
                        InstParam::Number16Bit(self.get_16bit_from_pc()),
                    ),
                    0xE => Instructions::ADC(InstParam::Number8Bit(self.get_8bit_from_pc())),
                    _ => Instructions::RST(InstParam::Number8Bit(0x08)),
                },
                0xD => match tail {
                    0x0 => Instructions::RET(InstParam::ConditionCodes(InstructionCondition::NotCarry)),
                    0x1 => Instructions::POP(InstParam::Register16Bit(Register16Bit::DE)),
                    0x2 => Instructions::JP(
                        InstParam::ConditionCodes(InstructionCondition::NotCarry),
                        InstParam::Number16Bit(self.get_16bit_from_pc()),
                    ),
                    0x3 => Instructions::INVALID(0x3),
                    0x4 => Instructions::CALL(
                        InstParam::ConditionCodes(InstructionCondition::NotCarry),
                        InstParam::Number16Bit(self.get_16bit_from_pc()),
                    ),
                    0x5 => Instructions::PUSH(InstParam::Register16Bit(Register16Bit::DE)),
                    0x6 => Instructions::SUB(InstParam::Number8Bit(self.get_8bit_from_pc())),
                    0x7 => Instructions::RST(InstParam::Number8Bit(0x10)),
                    0x8 => Instructions::RET(InstParam::ConditionCodes(InstructionCondition::Carry)),
                    0x9 => Instructions::RETI,
                    0xA => Instructions::JP(
                        InstParam::ConditionCodes(InstructionCondition::Carry),
                        InstParam::Number16Bit(self.get_16bit_from_pc()),
                    ),
                    0xB => Instructions::INVALID(0xB),
                    0xC => Instructions::CALL(
                        InstParam::ConditionCodes(InstructionCondition::Carry),
                        InstParam::Number16Bit(self.get_16bit_from_pc()),
                    ),
                    0xD => Instructions::INVALID(0xD),
                    0xE => Instructions::SBC(InstParam::Number8Bit(self.get_8bit_from_pc())),
                    _ => Instructions::RST(InstParam::Number8Bit(0x18)),
                },
                0xE => match tail {
                    0x0 => Instructions::LDH(
                        InstParam::Number8Bit(self.get_8bit_from_pc()),
                        InstParam::Register8Bit(Register8Bit::A),
                    ),
                    0x1 => Instructions::POP(InstParam::Register16Bit(Register16Bit::HL)),
                    0x2 => Instructions::LDH(
                        InstParam::Register8Bit(Register8Bit::C),
                        InstParam::Register8Bit(Register8Bit::A),
                    ),
                    0x3 | 0x4 => Instructions::INVALID(0x3),
                    0x5 => Instructions::PUSH(InstParam::Register16Bit(Register16Bit::HL)),
                    0x6 => Instructions::AND(InstParam::Number8Bit(self.get_8bit_from_pc())),
                    0x7 => Instructions::RST(InstParam::Number8Bit(0x20)),
                    0x8 => Instructions::ADD(InstParam::SignedNumber8Bit(self.get_8bit_from_pc() as i8)),
                    0x9 => Instructions::JP(
                        InstParam::ConditionCodes(InstructionCondition::SkipConditionCodes),
                        InstParam::Register16Bit(Register16Bit::HL),
                    ),
                    0xA => Instructions::LD(
                        InstParam::Number16Bit(self.get_16bit_from_pc()),
                        InstParam::Register8Bit(Register8Bit::A),
                    ),
                    0xB..=0xD => Instructions::INVALID(0xB),
                    0xE => Instructions::XOR(InstParam::Number8Bit(self.get_8bit_from_pc())),
                    _ => Instructions::RST(InstParam::Number8Bit(0x28)),
                },
                _ => match tail {
                    0x0 => Instructions::LDH(
                        InstParam::Register8Bit(Register8Bit::A),
                        InstParam::Number8Bit(self.get_8bit_from_pc()),
                    ),
                    0x1 => Instructions::POP(InstParam::Register16Bit(Register16Bit::AF)),
                    0x2 => Instructions::LDH(
                        InstParam::Register8Bit(Register8Bit::A),
                        InstParam::Register8Bit(Register8Bit::C),
                    ),
                    0x3 => Instructions::DI,
                    0x4 => Instructions::INVALID(0x4),
                    0x5 => Instructions::PUSH(InstParam::Register16Bit(Register16Bit::AF)),
                    0x6 => Instructions::OR(InstParam::Number8Bit(self.get_8bit_from_pc())),
                    0x7 => Instructions::RST(InstParam::Number8Bit(0x30)),
                    0x8 => Instructions::LD(
                        InstParam::Register16Bit(Register16Bit::HL),
                        InstParam::SignedNumber8Bit(self.get_8bit_from_pc() as i8),
                    ),
                    0x9 => Instructions::LD(
                        InstParam::Register16Bit(Register16Bit::SP),
                        InstParam::Register16Bit(Register16Bit::HL),
                    ),
                    0xA => Instructions::LD(
                        InstParam::Register8Bit(Register8Bit::A),
                        InstParam::Number16Bit(self.get_16bit_from_pc()),
                    ),
                    0xB => Instructions::EI,
                    0xC | 0xD => Instructions::INVALID(0xC),
                    0xE => Instructions::CP(InstParam::Number8Bit(self.get_8bit_from_pc())),
                    _ => Instructions::RST(InstParam::Number8Bit(0x38)),
                },
            },
        )
    }
}

} // verus!
