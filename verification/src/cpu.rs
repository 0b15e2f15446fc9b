//! The CPU of the Game Boy.
use vstd::prelude::*;

use crate::memory::{loaded_bytes, MemoryView};
use crate::mmu::{is_loadable_image, MMU};

use self::instructions::{InstructionResult, Instructions};
use self::registers::{Register16Bit, Register8Bit};

pub mod decode;
pub mod dma;
pub mod flags;
pub mod helpers;
pub mod instructions;
pub mod interrupts;
pub mod joypad;
pub mod laws;
pub mod opcode_laws;
pub mod arithmetic_laws;
pub mod registers;
pub mod render_operations;
pub mod skip_bootrom;
pub mod step;
pub mod timer;

verus! {

/// The clock frequency of the CPU: 4.194304 MHz.
pub const CPU_FREQUENCY: u128 = 4_194_304;

/// The CPU of the Game Boy.
pub struct CPU {
    /// The register file: A, F, B, C, D, E, H, L, then the high and low
    /// bytes of SP and PC. The 8-bit registers pair up into AF, BC, DE, HL.
    pub registers: [u8; 12],
    /// The memory bus.
    pub mmu: MMU,
    /// The instruction that the next step executes.
    pub next_instruction: Instructions,
    /// The result of the last executed step.
    pub last_step_result: InstructionResult,
    /// The interrupt master enable flag.
    pub ime_flag: bool,
    /// 0 if nothing is pending, 2 if IME is to be set after the next
    /// instruction, 1 if IME is to be set after this instruction.
    pub enable_ime: i32,
    /// Machine cycles executed so far.
    pub cycles: u64,
    pub is_halted: bool,
    pub stop_mode: bool,
    pub instruction: i32,
    /// Whether an OAM DMA transfer is running.
    pub dma_active: bool,
    /// The offset of the next byte of the running OAM DMA transfer.
    pub dma_current_offset: u8,
}

/// The mathematical model of the CPU and its bus.
#[verifier::ext_equal]
pub struct CpuView {
    pub regs: Seq<u8>,
    pub mem: MemoryView,
    pub next_instruction: Instructions,
    pub last_step_result: InstructionResult,
    pub ime_flag: bool,
    pub enable_ime: i32,
    pub cycles: u64,
    pub is_halted: bool,
    pub stop_mode: bool,
    pub instruction: i32,
    pub dma_active: bool,
    pub dma_current_offset: u8,
}

impl View for CPU {
    type V = CpuView;

    open spec fn view(&self) -> CpuView {
        CpuView {
            regs: self.registers@,
            mem: self.mmu@,
            next_instruction: self.next_instruction,
            last_step_result: self.last_step_result,
            ime_flag: self.ime_flag,
            enable_ime: self.enable_ime,
            cycles: self.cycles,
            is_halted: self.is_halted,
            stop_mode: self.stop_mode,
            instruction: self.instruction,
            dma_active: self.dma_active,
            dma_current_offset: self.dma_current_offset,
        }
    }
}

impl CpuView {
    /// The value of an 8-bit register.
    pub open spec fn reg8(self, r: Register8Bit) -> u8 {
        self.regs[r.slot()]
    }

    /// The value of a 16-bit register: high byte times 256 plus low byte.
    pub open spec fn reg16(self, r: Register16Bit) -> u16 {
        (self.regs[r.slot()] * 256 + self.regs[r.slot() + 1]) as u16
    }

    /// The flags register F.
    pub open spec fn flags(self) -> u8 {
        self.regs[1]
    }

    pub open spec fn zero_flag(self) -> bool {
        self.flags() & 0x80 == 0x80
    }

    pub open spec fn subtraction_flag(self) -> bool {
        self.flags() & 0x40 == 0x40
    }

    pub open spec fn half_carry_flag(self) -> bool {
        self.flags() & 0x20 == 0x20
    }

    pub open spec fn carry_flag(self) -> bool {
        self.flags() & 0x10 == 0x10
    }

    /// The program counter.
    pub open spec fn pc(self) -> u16 {
        self.reg16(Register16Bit::PC)
    }

    /// The stack pointer.
    pub open spec fn sp(self) -> u16 {
        self.reg16(Register16Bit::SP)
    }

    /// The HL register pair.
    pub open spec fn hl(self) -> u16 {
        self.reg16(Register16Bit::HL)
    }

    /// The byte that a read of `address` returns.
    pub open spec fn read(self, address: u16) -> u8 {
        self.mem.read(address)
    }

    /// The state with an 8-bit register replaced.
    pub open spec fn set_reg8(self, r: Register8Bit, value: u8) -> CpuView {
        CpuView { regs: self.regs.update(r.slot(), value), ..self }
    }

    /// The state with a 16-bit register replaced: the high byte first, then the low byte.
    pub open spec fn set_reg16(self, r: Register16Bit, value: u16) -> CpuView {
        CpuView {
            regs: self.regs.update(r.slot(), (value / 256) as u8).update(r.slot() + 1, (value % 256) as u8),
            ..self
        }
    }

    /// The state with the flags register replaced.
    pub open spec fn set_flags(self, value: u8) -> CpuView {
        CpuView { regs: self.regs.update(1, value), ..self }
    }

    /// The state after the CPU writes `value` to `address`.
    pub open spec fn write(self, address: u16, value: u8) -> CpuView {
        CpuView { mem: self.mem.write(address, value), ..self }
    }

    /// The state with the memory replaced.
    pub open spec fn with_mem(self, mem: MemoryView) -> CpuView {
        CpuView { mem, ..self }
    }
}

/// Reading back a 16-bit register gives the value written to it.
pub proof fn lemma_reg16_of_set(s: CpuView, r: Register16Bit, value: u16)
    requires
        s.regs.len() == 12,
    ensures
        s.set_reg16(r, value).reg16(r) == value,
        s.set_reg16(r, value).regs.len() == 12,
{
}

/// Writing a 16-bit register twice keeps only the second value.
pub proof fn lemma_set_reg16_twice(s: CpuView, r: Register16Bit, v: u16, w: u16)
    requires
        s.regs.len() == 12,
    ensures
        s.set_reg16(r, v).set_reg16(r, w) == s.set_reg16(r, w),
{
    assert(s.set_reg16(r, v).set_reg16(r, w).regs =~= s.set_reg16(r, w).regs);
}

impl CPU {
    /// Create a new CPU with all registers cleared and the cartridge image
    /// loaded onto the bus (the boot ROM overlay is enabled).
    pub fn new(rom: Vec<u8>) -> (r: CPU)
        requires
            is_loadable_image(rom@),
        ensures
            r@.regs == Seq::new(12, |i: int| 0u8),
            r@.mem.bytes == loaded_bytes(rom@),
            r@.mem.boot_rom == Seq::new(256, |i: int| 0u8),
            r@.mem.boot_rom_enabled,
            !r@.mem.dma_requested,
            r@.mem.direction_buttons == 0b1111,
            r@.mem.action_buttons == 0b1111,
            r@.next_instruction == Instructions::NOP,
            r@.last_step_result == InstructionResult::spec_default(),
            !r@.ime_flag,
            r@.enable_ime == 0,
            r@.cycles == 0,
            !r@.is_halted,
            !r@.stop_mode,
            r@.instruction == 0,
            !r@.dma_active,
            r@.dma_current_offset == 0,
    {
        let cpu = CPU {
            registers: [0; 12],
            next_instruction: Instructions::NOP,
            last_step_result: InstructionResult::default(),
            enable_ime: 0,
            ime_flag: false,
            mmu: MMU::new_from_vec(rom),
            cycles: 0,
            is_halted: false,
            stop_mode: false,
            instruction: 0,
            dma_active: false,
            dma_current_offset: 0,
        };
        assert(cpu.registers@ =~= Seq::new(12, |i: int| 0u8));
        cpu
    }
}

} // verus!
