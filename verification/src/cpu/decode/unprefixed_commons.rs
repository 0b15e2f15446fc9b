//! The regular columns of the opcode rows 0x0 to 0x3.
use vstd::prelude::*;

use super::helpers::{format_hex_message, hex_message};
use super::unprefixed::unprefixed_instruction;
use crate::bits::lemma_nibbles;
use crate::cpu::instructions::{InstParam, Instructions};
use crate::cpu::registers::{Register16Bit, Register8Bit};
use crate::cpu::CPU;

verus! {

/// The columns that the common decoding of rows 0x0 to 0x3 covers.
pub open spec fn is_common_column(tail: u8) -> bool {
    tail == 0x1 || (0x3 <= tail && tail <= 0x6) || tail == 0x9 || (0xB <= tail && tail <= 0xE)
}

impl CPU {
    /// Decode the regular columns of the rows 0x0 to 0x3: LD r16,n16, INC and
    /// DEC of 8-bit and 16-bit operands, LD r8,n8 and ADD HL,r16.
    pub fn decode_0x0_to_0x3_commons(&self, opcode: u8) -> (r: Result<Instructions, String>)
        ensures
            opcode < 0x40 && is_common_column(opcode % 16) ==> r == Ok::<Instructions, String>(
                unprefixed_instruction(opcode, self@.operand8(), self@.operand16()),
            ),
            opcode >= 0x40 ==> r is Err && r->Err_0@ == hex_message(""@, opcode),
            opcode < 0x40 && !is_common_column(opcode % 16) ==> r is Err && r->Err_0@ == hex_message(
                "Not covered in common "@,
                opcode,
            ),
    {
        proof {
            lemma_nibbles(opcode);
        }
        let head = opcode >> 4;
        let tail = opcode & 0xF;
        let register_8bit = match head {
            0x0 => if tail < 0xB { Register8Bit::B } else { Register8Bit::C },
            0x1 => if tail < 0xB { Register8Bit::D } else { Register8Bit::E },
            0x2 => if tail < 0xB { Register8Bit::H } else { Register8Bit::L },
            0x3 => Register8Bit::A,
            _ => return Err(format_hex_message("", opcode)),
        };
        let register_16bit = match head {
            0x0 => Register16Bit::BC,
            0x1 => Register16Bit::DE,
            0x2 => Register16Bit::HL,
            0x3 => Register16Bit::SP,
            _ => return Err(format_hex_message("", opcode)),
        };
        Ok(
            match tail {
                0x1 => Instructions::LD(
                    InstParam::Register16Bit(register_16bit),
                    InstParam::Number16Bit(self.get_16bit_from_pc()),
                ),
                0x3 => Instructions::INC(InstParam::Register16Bit(register_16bit), InstParam::Boolean(false)),
                0x4 => Instructions::INC(
                    if head == 0x3 {
                        InstParam::Register16Bit(Register16Bit::HL)
                    } else {
                        InstParam::Register8Bit(register_8bit)
                    },
                    InstParam::Boolean(head == 0x3),
                ),
                0x5 => Instructions::DEC(
                    if head == 0x3 {
                        InstParam::Register16Bit(Register16Bit::HL)
                    } else {
                        InstParam::Register8Bit(register_8bit)
                    },
                    InstParam::Boolean(head == 0x3),
                ),
                0x6 => Instructions::LD(
                    if head == 0x3 {
                        InstParam::Register16Bit(Register16Bit::HL)
                    } else {
                        InstParam::Register8Bit(register_8bit)
                    },
                    InstParam::Number8Bit(self.get_8bit_from_pc()),
                ),
                0x9 => Instructions::ADD_HL(InstParam::Register16Bit(register_16bit)),
                0xB => Instructions::DEC(InstParam::Register16Bit(register_16bit), InstParam::Boolean(false)),
                0xC => Instructions::INC(InstParam::Register8Bit(register_8bit), InstParam::Boolean(false)),
                0xD => Instructions::DEC(InstParam::Register8Bit(register_8bit), InstParam::Boolean(false)),
                0xE => Instructions::LD(InstParam::Register8Bit(register_8bit), InstParam::Number8Bit(self.get_8bit_from_pc())),
                _ => return Err(format_hex_message("Not covered in common ", opcode)),
            },
        )
    }
}

} // verus!
