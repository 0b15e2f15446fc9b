//! Decoding of opcodes into instructions.
use vstd::prelude::*;

use super::instructions::Instructions;
use super::{CpuView, CPU};
use self::prefixed::prefixed_instruction;
use self::unprefixed::unprefixed_instruction;
use crate::memory::next_address;

pub mod helpers;
pub mod prefixed;
pub mod unprefixed;
pub mod unprefixed_commons;

verus! {

impl CpuView {
    /// The 8-bit operand that follows the opcode at PC.
    pub open spec fn operand8(self) -> u8 {
        self.read(next_address(self.pc()))
    }

    /// The 16-bit little-endian operand that follows the opcode at PC.
    pub open spec fn operand16(self) -> u16 {
        self.mem.read_word(next_address(self.pc()))
    }

    /// The instruction that `opcode` at PC stands for: 0xCB selects the
    /// prefixed table with the byte at PC + 1 as the opcode.
    #[verifier::opaque]
    pub open spec fn decoded(self, opcode: u8) -> Instructions {
        if opcode == 0xCB {
            prefixed_instruction(self.operand8())
        } else {
            unprefixed_instruction(opcode, self.operand8(), self.operand16())
        }
    }
}

impl CPU {
    /// Decode an opcode (reading its operands after PC); this always succeeds.
    pub fn decode(&self, opcode: u8) -> (r: Result<Instructions, String>)
        ensures
            r == Ok::<Instructions, String>(self@.decoded(opcode)),
    {
        proof {
            reveal(CpuView::decoded);
        }
        if opcode == 0xCB {
            self.decode_prefixed()
        } else {
            self.decode_unprefixed(opcode)
        }
    }
}

} // verus!
