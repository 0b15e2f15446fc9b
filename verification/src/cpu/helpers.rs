//! Small accessors and setup helpers of the CPU.
use vstd::prelude::*;

use super::instructions::{InstructionResult, Instructions};
use super::joypad::PlayerInput;
use super::registers::{Register16Bit, Register8Bit};
use super::decode::helpers::{hex_digit, hex_digit_str};
use super::instructions::jumps_subroutines::advance;
use super::{CpuView, CPU};
use crate::memory::MemoryView;
use crate::mmu::MemoryOperations;

verus! {

/// Address of the serial transfer data register SB.
pub const SERIAL_DATA_ADDRESS: u16 = 0xFF01;

/// Address of the serial transfer control register SC.
pub const SERIAL_CONTROL_ADDRESS: u16 = 0xFF02;

impl CpuView {
    /// The state that a finished boot ROM leaves (as the gameboy-doctor
    /// logs expect it): A = 0x01, F = 0xB0 (Z, H and C set, N clear),
    /// BC = 0x0013, DE = 0x00D8,
    /// HL = 0x014D, SP = 0xFFFE, PC = 0x0100, the boot ROM overlay off and
    /// 0xFF written to the joypad register.
    pub open spec fn op_skip_boot_rom(self) -> CpuView {
        CpuView {
            regs: seq![0x01u8, 0xB0u8, 0x00, 0x13, 0x00, 0xD8, 0x01, 0x4D, 0xFF, 0xFE, 0x01, 0x00],
            mem: MemoryView { boot_rom_enabled: false, ..self.mem }.write(0xFF00, 0xFF),
            ..self
        }
    }

    /// A pending serial byte: when SC holds 0x81, the byte in SB is sent
    /// and SC is cleared.
    pub open spec fn op_take_serial_byte(self) -> (CpuView, Option<u8>) {
        if self.read(SERIAL_CONTROL_ADDRESS) == 0x81 {
            (self.write(SERIAL_CONTROL_ADDRESS, 0), Some(self.read(SERIAL_DATA_ADDRESS)))
        } else {
            (self, None)
        }
    }
}

impl CPU {
    /// Skip the boot ROM: set the registers as a finished boot ROM leaves
    /// them. Used for: https://robertheaton.com/gameboy-doctor/
    pub fn skip_boot_rom(&mut self)
        ensures
            final(self)@ == old(self)@.op_skip_boot_rom(),
    {
        self.set_16bit_register(Register16Bit::AF, 0x01B0);
        self.set_8bit_register(Register8Bit::B, 0x00);
        self.set_8bit_register(Register8Bit::C, 0x13);
        self.set_8bit_register(Register8Bit::D, 0x00);
        self.set_8bit_register(Register8Bit::E, 0xD8);
        self.set_8bit_register(Register8Bit::H, 0x01);
        self.set_8bit_register(Register8Bit::L, 0x4D);
        self.set_16bit_register(Register16Bit::SP, 0xFFFE);
        self.set_16bit_register(Register16Bit::PC, 0x0100);
        self.mmu.set_bootrom_enabled(false);
        // Set Joypad register
        self.mmu.write_byte(0xFF00, 0b1111_1111);
        proof {
            assert(self@.regs =~= seq![0x01u8, 0xB0u8, 0x00, 0x13, 0x00, 0xD8, 0x01, 0x4D, 0xFF, 0xFE, 0x01, 0x00]);
        }
    }

    /// Poll the inputs: hand the player's buttons to the joypad.
    pub fn poll_inputs(&mut self, player_input: &PlayerInput)
        ensures
            final(self)@ == old(self)@.op_update_key_input(*player_input).0,
    {
        self.update_key_input(player_input);
    }

    /// Whether the CPU is stopped.
    pub fn is_in_stop_mode(&self) -> (r: bool)
        ensures
            r == self@.stop_mode,
    {
        self.stop_mode
    }

    /// Take the byte sent over the serial port, if one is pending (this is
    /// how test ROMs print their output).
    pub fn take_serial_byte(&mut self) -> (r: Option<u8>)
        ensures
            final(self)@ == old(self)@.op_take_serial_byte().0,
            r == old(self)@.op_take_serial_byte().1,
    {
        let serial_control = self.mmu.read_byte(SERIAL_CONTROL_ADDRESS);
        if serial_control == 0x81 {
            let data = self.mmu.read_byte(SERIAL_DATA_ADDRESS);
            self.mmu.write_byte(SERIAL_CONTROL_ADDRESS, 0x0);
            Some(data)
        } else {
            None
        }
    }

    /// The opcode at PC.
    pub fn get_next_opcode(&mut self) -> (r: u8)
        ensures
            final(self)@ == old(self)@,
            r == old(self)@.read(old(self)@.pc()),
    {
        self.mmu.read_byte(self.get_16bit_register(Register16Bit::PC))
    }

    /// Write a byte through the bus.
    pub fn write_memory(&mut self, address: u16, value: u8)
        ensures
            final(self)@ == old(self)@.write(address, value),
    {
        self.mmu.write_byte(address, value);
    }

    /// Set the next instruction to be executed.
    pub fn set_instruction(&mut self, instruction: Instructions)
        ensures
            final(self)@ == (CpuView { next_instruction: instruction, ..old(self)@ }),
    {
        self.next_instruction = instruction;
    }

    /// The result of the last step.
    pub fn get_last_step_result(&self) -> (r: InstructionResult)
        ensures
            r == self@.last_step_result,
    {
        self.last_step_result
    }

    /// The machine cycles executed so far.
    pub fn get_cycles(&self) -> (r: u64)
        ensures
            r == self@.cycles,
    {
        self.cycles
    }

    /// Whether the boot ROM still overlays the lowest addresses.
    pub fn is_boot_rom_enabled(&self) -> (r: bool)
        ensures
            r == self@.mem.boot_rom_enabled,
    {
        self.mmu.is_boot_rom_enabled()
    }

    /// The instruction that the next step executes.
    pub fn get_instruction(&self) -> (r: &Instructions)
        ensures
            *r == self@.next_instruction,
    {
        &self.next_instruction
    }

    /// A copy of the register file: A, F, B, C, D, E, H, L, SP, PC.
    pub fn get_registry_dump(&self) -> (r: [u8; 12])
        ensures
            r@ == self@.regs,
    {
        self.registers
    }
}

/// Two upper-case hexadecimal digits of a byte, leading zero included.
pub open spec fn hex2(value: u8) -> Seq<char> {
    seq![hex_digit(value / 16), hex_digit(value % 16)]
}

/// Four upper-case hexadecimal digits of a word, leading zeros included.
pub open spec fn hex4(value: u16) -> Seq<char> {
    hex2((value / 256) as u8) + hex2((value % 256) as u8)
}

/// The register part of the Gameboy Doctor line:
/// `A:.. F:.. B:.. C:.. D:.. E:.. H:.. L:..`.
pub open spec fn doctor_registers(s: CpuView) -> Seq<char> {
    "A:"@ + hex2(s.reg8(Register8Bit::A))
        + " F:"@ + hex2(s.flags())
        + " B:"@ + hex2(s.reg8(Register8Bit::B))
        + " C:"@ + hex2(s.reg8(Register8Bit::C))
        + " D:"@ + hex2(s.reg8(Register8Bit::D))
        + " E:"@ + hex2(s.reg8(Register8Bit::E))
        + " H:"@ + hex2(s.reg8(Register8Bit::H))
        + " L:"@ + hex2(s.reg8(Register8Bit::L))
}

/// The pointer and memory part of the Gameboy Doctor line:
/// ` SP:.... PC:.... PCMEM:..,..,..,..` with the four bytes from PC on (the
/// address wrapping around).
pub open spec fn doctor_pointers(s: CpuView) -> Seq<char> {
    " SP:"@ + hex4(s.sp())
        + " PC:"@ + hex4(s.pc())
        + " PCMEM:"@ + hex2(s.read(s.pc()))
        + ","@ + hex2(s.read(advance(s.pc(), 1)))
        + ","@ + hex2(s.read(advance(s.pc(), 2)))
        + ","@ + hex2(s.read(advance(s.pc(), 3)))
}

/// The state line that Gameboy Doctor compares:
/// `A:.. F:.. B:.. C:.. D:.. E:.. H:.. L:.. SP:.... PC:.... PCMEM:..,..,..,..`
/// with the registers in two or four upper-case hexadecimal digits, the
/// four bytes from PC on, and a newline.
pub open spec fn doctor_line(s: CpuView) -> Seq<char> {
    doctor_registers(s) + doctor_pointers(s) + "\n"@
}

/// Append the two hexadecimal digits of a byte.
fn push_hex2(line: &mut String, value: u8)
    ensures
        final(line)@ == old(line)@ + hex2(value),
{
    line.append(hex_digit_str(value / 16));
    line.append(hex_digit_str(value % 16));
    proof {
        assert(final(line)@ =~= old(line)@ + hex2(value));
    }
}

/// Append the four hexadecimal digits of a word.
fn push_hex4(line: &mut String, value: u16)
    ensures
        final(line)@ == old(line)@ + hex4(value),
{
    let high = (value / 256) as u8;
    let low = (value % 256) as u8;
    push_hex2(line, high);
    push_hex2(line, low);
    proof {
        assert(final(line)@ =~= old(line)@ + hex4(value));
    }
}

impl CPU {
    /// Append the register part of the Gameboy Doctor line.
    fn push_doctor_registers(&self, line: &mut String)
        ensures
            final(line)@ == old(line)@ + doctor_registers(self@),
    {
        let ghost start = line@;
        line.append("A:");
        push_hex2(line, self.get_8bit_register(Register8Bit::A));
        line.append(" F:");
        push_hex2(line, self.flags_to_u8());
        line.append(" B:");
        push_hex2(line, self.get_8bit_register(Register8Bit::B));
        line.append(" C:");
        push_hex2(line, self.get_8bit_register(Register8Bit::C));
        line.append(" D:");
        push_hex2(line, self.get_8bit_register(Register8Bit::D));
        line.append(" E:");
        push_hex2(line, self.get_8bit_register(Register8Bit::E));
        line.append(" H:");
        push_hex2(line, self.get_8bit_register(Register8Bit::H));
        line.append(" L:");
        push_hex2(line, self.get_8bit_register(Register8Bit::L));
        proof {
            assert(line@ =~= start + doctor_registers(self@));
        }
    }

    /// Append the pointer and memory part of the Gameboy Doctor line.
    fn push_doctor_pointers(&self, line: &mut String)
        ensures
            final(line)@ == old(line)@ + doctor_pointers(self@),
    {
        let ghost start = line@;
        let pc = self.get_16bit_register(Register16Bit::PC);
        let sp = self.get_16bit_register(Register16Bit::SP);
        let m0 = self.mmu.read_byte(pc);
        let m1 = self.mmu.read_byte(pc.wrapping_add(1));
        let m2 = self.mmu.read_byte(pc.wrapping_add(2));
        let m3 = self.mmu.read_byte(pc.wrapping_add(3));
        assert(m0 == self@.read(self@.pc()));
        assert(m1 == self@.read(advance(self@.pc(), 1)));
        assert(m2 == self@.read(advance(self@.pc(), 2)));
        assert(m3 == self@.read(advance(self@.pc(), 3)));
        line.append(" SP:");
        push_hex4(line, sp);
        line.append(" PC:");
        push_hex4(line, pc);
        line.append(" PCMEM:");
        push_hex2(line, m0);
        line.append(",");
        push_hex2(line, m1);
        line.append(",");
        push_hex2(line, m2);
        line.append(",");
        push_hex2(line, m3);
        proof {
            assert(line@ =~= start + doctor_pointers(self@));
        }
    }

    /// The state line for Gameboy Doctor (see `doctor_line`).
    pub fn doctor_log_line(&self) -> (r: String)
        ensures
            r@ == doctor_line(self@),
    {
        let mut line = String::new();
        self.push_doctor_registers(&mut line);
        self.push_doctor_pointers(&mut line);
        line.append("\n");
        proof {
            assert(line@ =~= doctor_line(self@));
        }
        line
    }
}

} // verus!
