//! The 0xCB-prefixed opcode table.
use vstd::prelude::*;

use super::helpers::register_operand;
use crate::bits::lemma_nibbles;
use crate::cpu::instructions::{InstParam, Instructions};
use crate::cpu::registers::{Register16Bit, Register8Bit};
use crate::cpu::CPU;
use crate::mmu::MemoryOperations;

verus! {

/// The instruction of a 0xCB-prefixed opcode. The low three bits select the
/// operand (B, C, D, E, H, L, [HL], A); the row 0x0..0x3 selects a rotation
/// or shift, the rows 0x4..0xF select BIT, RES and SET with the bit number
/// in bits 5..3.
pub open spec fn prefixed_instruction(opcode: u8) -> Instructions {
    let head = opcode / 16;
    let tail = opcode % 16;
    let register = register_operand(tail);
    let second_half = tail >= 8;
    let offset: int = if second_half { 1 } else { 0 };
    if head == 0 {
        if second_half { Instructions::RRC(register) } else { Instructions::RLC(register) }
    } else if head == 1 {
        if second_half { Instructions::RR(register) } else { Instructions::RL(register) }
    } else if head == 2 {
        if second_half { Instructions::SRA(register) } else { Instructions::SLA(register) }
    } else if head == 3 {
        if second_half { Instructions::SRL(register) } else { Instructions::SWAP(register) }
    } else if head < 8 {
        Instructions::BIT(InstParam::Unsigned3Bit((2 * (head - 4) + offset) as u8), register)
    } else if head < 12 {
        Instructions::RES(InstParam::Unsigned3Bit((2 * (head - 8) + offset) as u8), register)
    } else {
        Instructions::SET(InstParam::Unsigned3Bit((2 * (head - 12) + offset) as u8), register)
    }
}

impl CPU {
    /// Decode a 0xCB-prefixed opcode; the opcode is the byte at PC + 1.
    pub fn decode_prefixed(&self) -> (r: Result<Instructions, String>)
        ensures
            r == Ok::<Instructions, String>(prefixed_instruction(self@.operand8())),
    {
        let opcode = self.mmu.read_byte(self.get_16bit_register(Register16Bit::PC).wrapping_add(1));
        proof {
            lemma_nibbles(opcode);
        }
        let head = opcode >> 4;
        let tail = opcode & 0xF;
        let register_tail = if tail > 0x7 { tail - 0x8 } else { tail };
        let register = match register_tail {
            0x0 => InstParam::Register8Bit(Register8Bit::B),
            0x1 => InstParam::Register8Bit(Register8Bit::C),
            0x2 => InstParam::Register8Bit(Register8Bit::D),
            0x3 => InstParam::Register8Bit(Register8Bit::E),
            0x4 => InstParam::Register8Bit(Register8Bit::H),
            0x5 => InstParam::Register8Bit(Register8Bit::L),
            0x6 => InstParam::Register16Bit(Register16Bit::HL),
            _ => InstParam::Register8Bit(Register8Bit::A),
        };
        // The second half of the tail is offset by 1
        let offset: u8 = if tail >= 0x8 { 1 } else { 0 };
        Ok(
            match head {
                0x0 => if tail <= 0x7 { Instructions::RLC(register) } else { Instructions::RRC(register) },
                0x1 => if tail <= 0x7 { Instructions::RL(register) } else { Instructions::RR(register) },
                0x2 => if tail <= 0x7 { Instructions::SLA(register) } else { Instructions::SRA(register) },
                0x3 => if tail <= 0x7 { Instructions::SWAP(register) } else { Instructions::SRL(register) },
                0x4 => Instructions::BIT(InstParam::Unsigned3Bit(offset), register),
                0x5 => Instructions::BIT(InstParam::Unsigned3Bit(2 + offset), register),
                0x6 => Instructions::BIT(InstParam::Unsigned3Bit(4 + offset), register),
                0x7 => Instructions::BIT(InstParam::Unsigned3Bit(6 + offset), register),
                0x8 => Instructions::RES(InstParam::Unsigned3Bit(offset), register),
                0x9 => Instructions::RES(InstParam::Unsigned3Bit(2 + offset), register),
                0xA => Instructions::RES(InstParam::Unsigned3Bit(4 + offset), register),
                0xB => Instructions::RES(InstParam::Unsigned3Bit(6 + offset), register),
                0xC => Instructions::SET(InstParam::Unsigned3Bit(offset), register),
                0xD => Instructions::SET(InstParam::Unsigned3Bit(2 + offset), register),
                0xE => Instructions::SET(InstParam::Unsigned3Bit(4 + offset), register),
                _ => Instructions::SET(InstParam::Unsigned3Bit(6 + offset), register),
            },
        )
    }
}

} // verus!
