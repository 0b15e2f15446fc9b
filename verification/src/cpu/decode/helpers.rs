//! Helpers of the decoder: operand fetches and register tables.
use vstd::prelude::*;

use crate::cpu::instructions::{InstParam, Instructions};
use crate::cpu::registers::{Register16Bit, Register8Bit};
use crate::cpu::{CpuView, CPU};
use crate::memory::next_address;
use crate::mmu::MemoryOperations;

verus! {

/// The upper-case hexadecimal digit of a number below 16.
pub open spec fn hex_digit(d: u8) -> char {
    if d < 10 { (('0' as u8) + d) as char } else { (('A' as u8) + d - 10) as char }
}

/// The text `prefix` followed by `value` written as a `0x`-prefixed
/// upper-case hexadecimal number without leading zeros (the width of 2
/// that `{:#02X}` asks for is always filled by the `0x` and a digit).
pub open spec fn hex_message(prefix: Seq<char>, value: u8) -> Seq<char> {
    let digits = if value < 16 {
        seq![hex_digit(value)]
    } else {
        seq![hex_digit(value / 16), hex_digit(value % 16)]
    };
    prefix + seq!['0', 'x'] + digits
}

/// The one-character text of a hexadecimal digit.
pub(crate) fn hex_digit_str(d: u8) -> (r: &'static str)
    requires
        d < 16,
    ensures
        r@ == seq![hex_digit(d)],
{
    if d == 0 {
        proof { reveal_strlit("0"); }
        "0"
    } else if d == 1 {
        proof { reveal_strlit("1"); }
        "1"
    } else if d == 2 {
        proof { reveal_strlit("2"); }
        "2"
    } else if d == 3 {
        proof { reveal_strlit("3"); }
        "3"
    } else if d == 4 {
        proof { reveal_strlit("4"); }
        "4"
    } else if d == 5 {
        proof { reveal_strlit("5"); }
        "5"
    } else if d == 6 {
        proof { reveal_strlit("6"); }
        "6"
    } else if d == 7 {
        proof { reveal_strlit("7"); }
        "7"
    } else if d == 8 {
        proof { reveal_strlit("8"); }
        "8"
    } else if d == 9 {
        proof { reveal_strlit("9"); }
        "9"
    } else if d == 10 {
        proof { reveal_strlit("A"); }
        "A"
    } else if d == 11 {
        proof { reveal_strlit("B"); }
        "B"
    } else if d == 12 {
        proof { reveal_strlit("C"); }
        "C"
    } else if d == 13 {
        proof { reveal_strlit("D"); }
        "D"
    } else if d == 14 {
        proof { reveal_strlit("E"); }
        "E"
    } else {
        proof { reveal_strlit("F"); }
        "F"
    }
}

/// `prefix`, then `value` in `{:#02X}` form: `0x` and the upper-case
/// hexadecimal digits of `value` without leading zeros.
pub(crate) fn format_hex_message(prefix: &str, value: u8) -> (r: String)
    ensures
        r@ == hex_message(prefix@, value),
{
    let mut r = String::from_str(prefix);
    proof {
        reveal_strlit("0x");
    }
    r.append("0x");
    if value < 16 {
        r.append(hex_digit_str(value));
    } else {
        r.append(hex_digit_str(value / 16));
        r.append(hex_digit_str(value % 16));
    }
    proof {
        assert(r@ =~= hex_message(prefix@, value));
    }
    r
}

/// The operand that the low three bits of an opcode select:
/// B, C, D, E, H, L, [HL] (as the 16-bit HL) and A.
pub open spec fn register_operand(selector: u8) -> InstParam {
    let s = selector % 8;
    if s == 0 {
        InstParam::Register8Bit(Register8Bit::B)
    } else if s == 1 {
        InstParam::Register8Bit(Register8Bit::C)
    } else if s == 2 {
        InstParam::Register8Bit(Register8Bit::D)
    } else if s == 3 {
        InstParam::Register8Bit(Register8Bit::E)
    } else if s == 4 {
        InstParam::Register8Bit(Register8Bit::H)
    } else if s == 5 {
        InstParam::Register8Bit(Register8Bit::L)
    } else if s == 6 {
        InstParam::Register16Bit(Register16Bit::HL)
    } else {
        InstParam::Register8Bit(Register8Bit::A)
    }
}

/// The target of LD r,r' for the opcodes 0x40 to 0x7F (bits 5..3 of the opcode).
pub open spec fn ld_target(opcode: u8) -> InstParam {
    register_operand(((opcode - 0x40) / 8) as u8)
}

impl CpuView {
    /// The HL-addressed byte.
    pub open spec fn byte_at_hl(self) -> u8 {
        self.read(self.hl())
    }
}

impl CPU {
    /// The 8-bit operand selected by the tail of an opcode; the tail repeats
    /// every 8 values (0x0 and 0x8 both select B).
    pub fn tail_to_inst_param(&self, tail: u8) -> (r: InstParam)
        requires
            tail < 16,
        ensures
            r == register_operand(tail),
    {
        let tail = if tail > 0x7 { tail - 0x8 } else { tail };
        match tail {
            0x0 => InstParam::Register8Bit(Register8Bit::B),
            0x1 => InstParam::Register8Bit(Register8Bit::C),
            0x2 => InstParam::Register8Bit(Register8Bit::D),
            0x3 => InstParam::Register8Bit(Register8Bit::E),
            0x4 => InstParam::Register8Bit(Register8Bit::H),
            0x5 => InstParam::Register8Bit(Register8Bit::L),
            0x6 => InstParam::Register16Bit(Register16Bit::HL),
            _ => InstParam::Register8Bit(Register8Bit::A),
        }
    }

    /// The target of an LD instruction in 0x40..=0x7F; `None` for any opcode
    /// that is not such a load, HALT (0x76) among them.
    pub fn opcode_to_ld_target(&self, opcode: u8) -> (r: Option<InstParam>)
        ensures
            0x40 <= opcode <= 0x7F && opcode != 0x76 ==> r == Some(ld_target(opcode)),
            !(0x40 <= opcode <= 0x7F && opcode != 0x76) ==> r is None,
    {
        if opcode == 0x76 {
            None
        } else if 0x40 <= opcode && opcode <= 0x47 {
            Some(InstParam::Register8Bit(Register8Bit::B))
        } else if 0x48 <= opcode && opcode <= 0x4F {
            Some(InstParam::Register8Bit(Register8Bit::C))
        } else if 0x50 <= opcode && opcode <= 0x57 {
            Some(InstParam::Register8Bit(Register8Bit::D))
        } else if 0x58 <= opcode && opcode <= 0x5F {
            Some(InstParam::Register8Bit(Register8Bit::E))
        } else if 0x60 <= opcode && opcode <= 0x67 {
            Some(InstParam::Register8Bit(Register8Bit::H))
        } else if 0x68 <= opcode && opcode <= 0x6F {
            Some(InstParam::Register8Bit(Register8Bit::L))
        } else if 0x70 <= opcode && opcode <= 0x77 {
            Some(InstParam::Register16Bit(Register16Bit::HL))
        } else if 0x78 <= opcode && opcode <= 0x7F {
            Some(InstParam::Register8Bit(Register8Bit::A))
        } else {
            None
        }
    }

    /// The 16-bit value at PC + 1 and PC + 2 (PC itself is not moved).
    pub fn get_16bit_from_pc(&self) -> (r: u16)
        ensures
            r == self@.operand16(),
    {
        self.mmu.read_word(self.get_16bit_register(Register16Bit::PC).wrapping_add(1))
    }

    /// The 8-bit value at PC + 1 (PC itself is not moved).
    pub fn get_8bit_from_pc(&self) -> (r: u8)
        ensures
            r == self@.operand8(),
    {
        self.mmu.read_byte(self.get_16bit_register(Register16Bit::PC).wrapping_add(1))
    }

    /// The byte at [HL].
    pub fn get_8bit_from_hl(&self) -> (r: u8)
        ensures
            r == self@.byte_at_hl(),
    {
        self.mmu.read_byte(self.get_16bit_register(Register16Bit::HL))
    }

    /// The error for an opcode that the decoder does not handle.
    pub fn not_implemented(&self, opcode: u8) -> (r: Result<Instructions, String>)
        ensures
            r is Err,
            r->Err_0@ == hex_message("Opcode is not implemented (yet): "@, opcode),
    {
        Err(format_hex_message("Opcode is not implemented (yet): ", opcode))
    }
}

} // verus!
