//! Recreating the state that the boot ROM leaves behind.
use vstd::prelude::*;

use super::registers::{Register16Bit, Register8Bit};
use super::{CpuView, CPU};
use crate::memory::MemoryView;
use crate::mmu::MemoryOperations;

verus! {

/// The number of I/O registers that the boot ROM leaves initialised.
pub const POST_BOOT_WRITES: usize = 37;

/// The I/O registers and the values that the boot ROM leaves in them, in
/// the order in which they are written.
/// See: https://gbdev.io/pandocs/Power_Up_Sequence.html#hardware-registers
pub open spec fn post_boot_io() -> Seq<(u16, u8)> {
    seq![
        (0xFF00u16, 0xCFu8), (0xFF01u16, 0x00u8), (0xFF02u16, 0x7Eu8), (0xFF04u16, 0x18u8),
        (0xFF05u16, 0x00u8), (0xFF06u16, 0x00u8), (0xFF07u16, 0xF8u8), (0xFF0Fu16, 0xE1u8),
        (0xFF10u16, 0x80u8), (0xFF11u16, 0xBFu8), (0xFF12u16, 0xF3u8), (0xFF14u16, 0xBFu8),
        (0xFF16u16, 0x3Fu8), (0xFF17u16, 0x00u8), (0xFF18u16, 0xFFu8), (0xFF19u16, 0xBFu8),
        (0xFF1Au16, 0x7Fu8), (0xFF1Bu16, 0xFFu8), (0xFF1Cu16, 0x9Fu8), (0xFF1Eu16, 0xBFu8),
        (0xFF20u16, 0xFFu8), (0xFF21u16, 0x00u8), (0xFF22u16, 0x00u8), (0xFF23u16, 0xBFu8),
        (0xFF24u16, 0x77u8), (0xFF25u16, 0xF3u8), (0xFF26u16, 0xF1u8), (0xFF40u16, 0x91u8),
        (0xFF42u16, 0x00u8), (0xFF43u16, 0x00u8), (0xFF45u16, 0x00u8), (0xFF47u16, 0xFCu8),
        (0xFF48u16, 0xFFu8), (0xFF49u16, 0xFFu8), (0xFF4Au16, 0x00u8), (0xFF4Bu16, 0x00u8),
        (0xFFFFu16, 0x00u8),
    ]
}

/// The memory after the CPU writes each (address, value) pair in turn.
pub open spec fn write_all(mem: MemoryView, writes: Seq<(u16, u8)>) -> MemoryView
    decreases writes.len(),
{
    if writes.len() == 0 {
        mem
    } else {
        write_all(mem, writes.drop_last()).write(writes.last().0, writes.last().1)
    }
}

impl CpuView {
    /// The state after the boot ROM: A = 0x01 with every flag cleared,
    /// BC = 0x0013, DE = 0x00C1, HL = 0x8403, SP = 0xFFFE, PC = 0x0100, and
    /// the I/O registers written as `post_boot_io` lists them.
    pub open spec fn op_skip_bootrom(self) -> CpuView {
        CpuView {
            regs: seq![0x01u8, self.flags() & 0x0F, 0x00, 0x13, 0x00, 0xC1, 0x84, 0x03, 0xFF, 0xFE, 0x01, 0x00],
            mem: write_all(self.mem, post_boot_io()),
            ..self
        }
    }
}

impl CPU {
    /// Recreate the state of the CPU after the boot ROM.
    /// See: https://gbdev.io/pandocs/Power_Up_Sequence.html#cpu-registers
    pub fn skip_bootrom(&mut self)
        ensures
            final(self)@ == old(self)@.op_skip_bootrom(),
    {
        let ghost f = self@.flags();
        self.set_8bit_register(Register8Bit::A, 0x01);
        self.clear_carry_flag();
        self.clear_half_carry_flag();
        self.clear_subtraction_flag();
        self.clear_zero_flag();
        self.set_8bit_register(Register8Bit::B, 0x00);
        self.set_8bit_register(Register8Bit::C, 0x13);
        self.set_8bit_register(Register8Bit::D, 0x00);
        self.set_8bit_register(Register8Bit::E, 0xC1);
        self.set_8bit_register(Register8Bit::H, 0x84);
        self.set_8bit_register(Register8Bit::L, 0x03);
        self.set_16bit_register(Register16Bit::SP, 0xFFFE);
        self.set_16bit_register(Register16Bit::PC, 0x0100);
        proof {
            assert((((f & !0x10u8) & !0x20u8) & !0x40u8) & !0x80u8 == f & 0x0F) by (bit_vector);
            assert(self@.regs =~= seq![0x01u8, f & 0x0F, 0x00, 0x13, 0x00, 0xC1, 0x84, 0x03, 0xFF, 0xFE, 0x01, 0x00]);
        }
        // Set the initial values of the I/O registers
        let writes: [(u16, u8); 37] = [
        (0xFF00, 0xCF), (0xFF01, 0x00), (0xFF02, 0x7E), (0xFF04, 0x18),
        (0xFF05, 0x00), (0xFF06, 0x00), (0xFF07, 0xF8), (0xFF0F, 0xE1),
        (0xFF10, 0x80), (0xFF11, 0xBF), (0xFF12, 0xF3), (0xFF14, 0xBF),
        (0xFF16, 0x3F), (0xFF17, 0x00), (0xFF18, 0xFF), (0xFF19, 0xBF),
        (0xFF1A, 0x7F), (0xFF1B, 0xFF), (0xFF1C, 0x9F), (0xFF1E, 0xBF),
        (0xFF20, 0xFF), (0xFF21, 0x00), (0xFF22, 0x00), (0xFF23, 0xBF),
        (0xFF24, 0x77), (0xFF25, 0xF3), (0xFF26, 0xF1), (0xFF40, 0x91),
        (0xFF42, 0x00), (0xFF43, 0x00), (0xFF45, 0x00), (0xFF47, 0xFC),
        (0xFF48, 0xFF), (0xFF49, 0xFF), (0xFF4A, 0x00), (0xFF4B, 0x00),
        (0xFFFF, 0x00),
        ];
        assert(writes@ =~= post_boot_io());
        let ghost start = self@;
        let mut i: usize = 0;
        while i < POST_BOOT_WRITES
            invariant
                i <= POST_BOOT_WRITES,
                writes@ == post_boot_io(),
                self@ == (CpuView { mem: write_all(start.mem, post_boot_io().take(i as int)), ..start }),
            decreases POST_BOOT_WRITES - i,
        {
            let (address, value) = writes[i];
            self.mmu.write_byte(address, value);
            proof {
                assert(post_boot_io().take(i + 1).drop_last() =~= post_boot_io().take(i as int));
            }
            i = i + 1;
        }
        assert(post_boot_io().take(37) =~= post_boot_io());
    }
}

} // verus!
