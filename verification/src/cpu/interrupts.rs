//! Interrupt requests, the LCD status register and interrupt dispatch.
use vstd::prelude::*;

use super::instructions::jumps_subroutines::advance;
use super::registers::Register16Bit;
use super::{CpuView, CPU};
use crate::mmu::MemoryOperations;

verus! {

/// The interrupt sources, by their bit in IF and IE.
#[derive(Debug, PartialEq, Eq, Structural, Clone, Copy)]
pub enum InterruptTypes {
    VBlank,
    LCDC,
    Timer,
    Serial,
    Joypad,
}

impl InterruptTypes {
    /// The bit of the interrupt in IF and IE.
    pub open spec fn spec_bit(self) -> u8 {
        match self {
            InterruptTypes::VBlank => 0,
            InterruptTypes::LCDC => 1,
            InterruptTypes::Timer => 2,
            InterruptTypes::Serial => 3,
            InterruptTypes::Joypad => 4,
        }
    }

    /// The bit of the interrupt in IF and IE.
    pub fn bit(self) -> (r: u8)
        ensures
            r == self.spec_bit(),
    {
        match self {
            InterruptTypes::VBlank => 0,
            InterruptTypes::LCDC => 1,
            InterruptTypes::Timer => 2,
            InterruptTypes::Serial => 3,
            InterruptTypes::Joypad => 4,
        }
    }
}

impl From<InterruptTypes> for u8 {
    fn from(interrupt: InterruptTypes) -> (r: u8) {
        interrupt.bit()
    }
}

impl vstd::std_specs::convert::FromSpecImpl<InterruptTypes> for u8 {
    open spec fn obeys_from_spec() -> bool {
        true
    }

    open spec fn from_spec(interrupt: InterruptTypes) -> u8 {
        interrupt.spec_bit()
    }
}

/// Address of the interrupt flag register IF.
pub const INTERRUPT_FLAG_ADDRESS: u16 = 0xFF0F;

/// Address of the interrupt enable register IE.
pub const INTERRUPT_ENABLE_ADDRESS: u16 = 0xFFFF;

/// Address of the first interrupt handler; handler `i` is at 0x40 + 8 * i.
pub const INTERRUPT_CALL_ADDRESS: u16 = 0x0040;

/// Address of the LCD Y coordinate LY.
pub const LCDY_ADDRESS: u16 = 0xFF44;

/// Address of LY compare.
pub const LYC_ADDRESS: u16 = 0xFF45;

/// Address of the LCD status register STAT.
pub const STAT_ADDRESS: u16 = 0xFF41;

/// The modes of the picture processing unit (bits 1..0 of STAT).
#[derive(Debug, PartialEq, Eq, Structural, Clone, Copy)]
pub enum PpuMode {
    HorizontalBlank,
    VerticalBlank,
    OamScan,
    Drawing,
}

impl PpuMode {
    /// The mode number stored in STAT.
    pub open spec fn spec_bits(self) -> u8 {
        match self {
            PpuMode::HorizontalBlank => 0,
            PpuMode::VerticalBlank => 1,
            PpuMode::OamScan => 2,
            PpuMode::Drawing => 3,
        }
    }

    /// The mode number stored in STAT.
    pub fn bits(self) -> (r: u8)
        ensures
            r == self.spec_bits(),
    {
        match self {
            PpuMode::HorizontalBlank => 0,
            PpuMode::VerticalBlank => 1,
            PpuMode::OamScan => 2,
            PpuMode::Drawing => 3,
        }
    }

    /// The mode with the given number, if there is one.
    pub open spec fn spec_from_bits(value: u8) -> Option<PpuMode> {
        if value == 0 {
            Some(PpuMode::HorizontalBlank)
        } else if value == 1 {
            Some(PpuMode::VerticalBlank)
        } else if value == 2 {
            Some(PpuMode::OamScan)
        } else if value == 3 {
            Some(PpuMode::Drawing)
        } else {
            None
        }
    }

    /// The mode with the given number, if there is one.
    pub fn from_bits(value: u8) -> (r: Option<PpuMode>)
        ensures
            r == PpuMode::spec_from_bits(value),
    {
        match value {
            0 => Some(PpuMode::HorizontalBlank),
            1 => Some(PpuMode::VerticalBlank),
            2 => Some(PpuMode::OamScan),
            3 => Some(PpuMode::Drawing),
            _ => None,
        }
    }
}

/// Whether interrupt `i` is both requested (IF) and enabled (IE).
pub open spec fn is_requested(interrupt_flag: u8, interrupt_enable: u8, i: u8) -> bool {
    interrupt_flag & (1u8 << i) != 0 && interrupt_enable & (1u8 << i) != 0
}

/// The lowest interrupt below `bound` that is requested and enabled.
pub open spec fn lowest_requested(interrupt_flag: u8, interrupt_enable: u8, bound: u8) -> Option<i32>
    decreases bound,
{
    if bound == 0 {
        None
    } else {
        match lowest_requested(interrupt_flag, interrupt_enable, (bound - 1) as u8) {
            Some(i) => Some(i),
            None => if is_requested(interrupt_flag, interrupt_enable, (bound - 1) as u8) {
                Some((bound - 1) as i32)
            } else {
                None
            },
        }
    }
}

impl CpuView {
    /// The state after setting the IF bit of an interrupt.
    pub open spec fn op_set_interrupt_flag(self, interrupt: InterruptTypes) -> CpuView {
        self.write(INTERRUPT_FLAG_ADDRESS, self.read(INTERRUPT_FLAG_ADDRESS) | (1u8 << interrupt.spec_bit()))
    }

    /// The state after entering vertical blank: LY := 144 and the VBlank interrupt requested.
    pub open spec fn op_set_vblank_interrupt(self) -> CpuView {
        self.write(LCDY_ADDRESS, 144).op_set_interrupt_flag(InterruptTypes::VBlank)
    }

    /// Whether LYC equals LY.
    pub open spec fn lyc_equals_ly(self) -> bool {
        self.read(LYC_ADDRESS) == self.read(LCDY_ADDRESS)
    }

    /// The state after writing LY; when LYC then equals LY, the LCDC interrupt
    /// is requested and the coincidence bit (bit 2) of STAT is set.
    pub open spec fn op_set_lcd_y_coordinate(self, value: u8) -> CpuView {
        let written = self.write(LCDY_ADDRESS, value);
        if written.lyc_equals_ly() {
            let requested = written.op_set_interrupt_flag(InterruptTypes::LCDC);
            requested.write(STAT_ADDRESS, requested.read(STAT_ADDRESS) | 0b100)
        } else {
            written
        }
    }

    /// The state after switching the PPU mode: bits 1..0 of STAT take the mode,
    /// and entering mode 0, 1 or 2 requests the LCDC interrupt when STAT
    /// bit 3, 4 or 5 enables it.
    pub open spec fn op_set_ppu_mode(self, mode: PpuMode) -> CpuView {
        let stat = self.read(STAT_ADDRESS) & 0b1111_1100;
        let written = self.write(STAT_ADDRESS, stat | mode.spec_bits());
        let m = mode.spec_bits();
        if (m == 0 && stat & 0b1000 != 0) || (m == 1 && stat & 0b10000 != 0) || (m == 2 && stat & 0b100000 != 0) {
            written.op_set_interrupt_flag(InterruptTypes::LCDC)
        } else {
            written
        }
    }

    /// The interrupt to serve: the lowest one that is requested and enabled,
    /// provided IME is set or not asked for.
    pub open spec fn pending_interrupt(self, check_for_ime: bool) -> Option<i32> {
        if check_for_ime && !self.ime_flag {
            None
        } else {
            lowest_requested(self.read(INTERRUPT_FLAG_ADDRESS), self.read(INTERRUPT_ENABLE_ADDRESS), 5)
        }
    }

    /// The state after decoding the instruction at PC into the next instruction.
    pub open spec fn prepared(self) -> CpuView {
        CpuView { next_instruction: self.decoded(self.read(self.pc())), ..self }
    }

    /// The state after dispatching interrupt `interrupt`: IME cleared, its IF
    /// bit cleared, the return address pushed (PC, or PC + 1 when halted, which
    /// also ends the halt), PC at the handler and the instruction there decoded.
    pub open spec fn op_handle_interrupt(self, interrupt: i32) -> CpuView {
        let cleared = CpuView { ime_flag: false, ..self }.write(
            INTERRUPT_FLAG_ADDRESS,
            self.read(INTERRUPT_FLAG_ADDRESS) & !(1u8 << (interrupt as u8)),
        );
        let return_address = if self.is_halted { advance(self.pc(), 1) } else { self.pc() };
        CpuView { is_halted: false, ..cleared }.push_word(return_address).set_reg16(
            Register16Bit::PC,
            (INTERRUPT_CALL_ADDRESS + 8 * interrupt) as u16,
        ).prepared()
    }

    /// The state after checking for a pending interrupt (with IME) and
    /// dispatching it; the flag tells whether one was dispatched.
    pub open spec fn op_check_and_handle_interrupts(self) -> (CpuView, bool) {
        match self.pending_interrupt(true) {
            Some(i) => (self.op_handle_interrupt(i), true),
            None => (self, false),
        }
    }
}

/// The lowest requested interrupt is one of the five sources.
pub proof fn lemma_lowest_requested_range(interrupt_flag: u8, interrupt_enable: u8, bound: u8)
    ensures
        lowest_requested(interrupt_flag, interrupt_enable, bound) matches Some(i) ==> 0 <= i < bound,
    decreases bound,
{
    if bound > 0 {
        lemma_lowest_requested_range(interrupt_flag, interrupt_enable, (bound - 1) as u8);
    }
}

impl CPU {
    /// Enter vertical blank: LY := 144 and request the VBlank interrupt.
    pub fn set_vblank_interrupt(&mut self)
        ensures
            final(self)@ == old(self)@.op_set_vblank_interrupt(),
    {
        self.mmu.write_byte(LCDY_ADDRESS, 144);
        self.set_interrupt_flag(InterruptTypes::VBlank);
    }

    /// Request an interrupt by setting its bit in IF.
    pub fn set_interrupt_flag(&mut self, interrupt: InterruptTypes)
        ensures
            final(self)@ == old(self)@.op_set_interrupt_flag(interrupt),
    {
        let interrupt_flag = self.mmu.read_byte(INTERRUPT_FLAG_ADDRESS);
        self.mmu.write_byte(INTERRUPT_FLAG_ADDRESS, interrupt_flag | (1u8 << interrupt.bit()));
    }

    /// Write LY and check the LY = LYC coincidence.
    pub fn set_lcd_y_coordinate(&mut self, value: u8)
        ensures
            final(self)@ == old(self)@.op_set_lcd_y_coordinate(value),
    {
        self.mmu.write_byte(LCDY_ADDRESS, value);
        if self.is_lyc_equal_ly() {
            self.set_interrupt_flag(InterruptTypes::LCDC);
            // Set bit 2 of STAT
            let stat = self.mmu.read_byte(STAT_ADDRESS);
            self.mmu.write_byte(STAT_ADDRESS, stat | 0b100);
        }
    }

    /// Set the PPU mode and request the LCDC interrupt when STAT enables it for that mode.
    pub fn set_ppu_mode(&mut self, mode: PpuMode)
        ensures
            final(self)@ == old(self)@.op_set_ppu_mode(mode),
    {
        let stat = self.mmu.read_byte(STAT_ADDRESS) & 0b1111_1100;
        let m = mode.bits();
        self.mmu.write_byte(STAT_ADDRESS, stat | m);
        if m == 0 && (stat & 0b1000) != 0 {
            self.set_interrupt_flag(InterruptTypes::LCDC);
        }
        if m == 1 && (stat & 0b10000) != 0 {
            self.set_interrupt_flag(InterruptTypes::LCDC);
        }
        if m == 2 && (stat & 0b100000) != 0 {
            self.set_interrupt_flag(InterruptTypes::LCDC);
        }
    }

    /// The PPU mode stored in STAT.
    pub fn get_ppu_mode(&self) -> (r: u8)
        ensures
            r == self@.read(STAT_ADDRESS) & 0b11,
    {
        self.mmu.read_byte(STAT_ADDRESS) & 0b11
    }

    /// Whether LYC equals LY.
    pub fn is_lyc_equal_ly(&self) -> (r: bool)
        ensures
            r == self@.lyc_equals_ly(),
    {
        self.mmu.read_byte(LYC_ADDRESS) == self.mmu.read_byte(LCDY_ADDRESS)
    }

    /// The interrupt to serve: the lowest one that is requested and enabled;
    /// with `check_for_ime` only while IME is set.
    pub fn check_interrupts(&mut self, check_for_ime: bool) -> (r: Option<i32>)
        ensures
            final(self)@ == old(self)@,
            r == old(self)@.pending_interrupt(check_for_ime),
    {
        let interrupt_flag = self.mmu.read_byte(INTERRUPT_FLAG_ADDRESS);
        let interrupt_enable = self.mmu.read_byte(INTERRUPT_ENABLE_ADDRESS);
        let mut interrupt_type: Option<i32> = None;
        let mut i: u8 = 0;
        while i <= 4
            invariant
                i <= 5,
                interrupt_type is None,
                interrupt_flag == self@.read(INTERRUPT_FLAG_ADDRESS),
                interrupt_enable == self@.read(INTERRUPT_ENABLE_ADDRESS),
                lowest_requested(interrupt_flag, interrupt_enable, i) is None,
            decreases 5 - i,
        {
            let handle_interrupt = interrupt_enable & (1u8 << i) != 0;
            if interrupt_flag & (1u8 << i) != 0 && handle_interrupt && (!check_for_ime || self.ime_flag) {
                interrupt_type = Some(i as i32);
                assert(lowest_requested(interrupt_flag, interrupt_enable, (i + 1) as u8) == Some(i as i32));
                proof {
                    lemma_lowest_later_bounds(interrupt_flag, interrupt_enable, (i + 1) as u8, 5);
                }
                return interrupt_type;
            }
            if check_for_ime && !self.ime_flag {
                return None;
            }
            i = i + 1;
        }
        interrupt_type
    }

    /// Dispatch an interrupt: IME off, its IF bit cleared, the return address
    /// pushed, PC at the handler and the instruction there decoded.
    pub fn handle_interrupt(&mut self, interrupt: i32)
        requires
            0 <= interrupt < 8,
        ensures
            final(self)@ == old(self)@.op_handle_interrupt(interrupt),
    {
        // Disable all interrupts
        self.ime_flag = false;
        // Clear the interrupt flag
        let interrupt_flag = self.mmu.read_byte(INTERRUPT_FLAG_ADDRESS);
        self.mmu.write_byte(INTERRUPT_FLAG_ADDRESS, interrupt_flag & !(1u8 << (interrupt as u8)));
        // https://gbdev.io/pandocs/Interrupt_Sources.html
        let interrupt_address = INTERRUPT_CALL_ADDRESS + (interrupt as u16 * 8);
        let mut current_pc = self.get_16bit_register(Register16Bit::PC);
        if self.is_halted {
            current_pc = current_pc.wrapping_add(1);
            self.is_halted = false;
        }
        self.push_word(current_pc);
        self.set_16bit_register(Register16Bit::PC, interrupt_address);
        // Since the PC was changed, the next instruction has to be decoded again
        let decoded = self.prepare_and_decode_next_instruction();
        decoded.unwrap();
    }

    /// Check for a pending interrupt (with IME) and dispatch it; true if one was dispatched.
    pub fn check_and_handle_interrupts(&mut self) -> (r: bool)
        ensures
            final(self)@ == old(self)@.op_check_and_handle_interrupts().0,
            r == old(self)@.op_check_and_handle_interrupts().1,
    {
        match self.check_interrupts(true) {
            Some(interrupt) => {
                proof {
                    lemma_lowest_requested_range(
                        self@.read(INTERRUPT_FLAG_ADDRESS),
                        self@.read(INTERRUPT_ENABLE_ADDRESS),
                        5,
                    );
                }
                self.handle_interrupt(interrupt);
                true
            },
            None => false,
        }
    }
}

/// Once an interrupt below `low` is found, raising the bound keeps it.
pub proof fn lemma_lowest_later_bounds(interrupt_flag: u8, interrupt_enable: u8, low: u8, high: u8)
    requires
        low <= high,
        lowest_requested(interrupt_flag, interrupt_enable, low) is Some,
    ensures
        lowest_requested(interrupt_flag, interrupt_enable, high) == lowest_requested(interrupt_flag, interrupt_enable, low),
    decreases high - low,
{
    if low < high {
        lemma_lowest_later_bounds(interrupt_flag, interrupt_enable, low, (high - 1) as u8);
    }
}

/// What `lowest_requested` finds: the least requested and enabled source
/// below `bound`, or none when there is none below it.
proof fn lemma_lowest_requested_is_least(interrupt_flag: u8, interrupt_enable: u8, bound: u8)
    ensures
        match lowest_requested(interrupt_flag, interrupt_enable, bound) {
            Some(j) => {
                &&& 0 <= j < bound
                &&& is_requested(interrupt_flag, interrupt_enable, j as u8)
                &&& forall|k: u8| k < j ==> !#[trigger] is_requested(interrupt_flag, interrupt_enable, k)
            },
            None => forall|k: u8| k < bound ==> !#[trigger] is_requested(interrupt_flag, interrupt_enable, k),
        },
    decreases bound,
{
    if bound > 0 {
        lemma_lowest_requested_is_least(interrupt_flag, interrupt_enable, (bound - 1) as u8);
    }
}

/// The interrupt that is served is the lowest of the five sources that is
/// both requested (its IF bit set) and enabled (its IE bit set); none is
/// served when no source is, or when IME is asked for and clear.
pub proof fn law_lowest_interrupt_wins(s: CpuView, check_for_ime: bool)
    ensures
        ({
            let requested = s.read(INTERRUPT_FLAG_ADDRESS);
            let enabled = s.read(INTERRUPT_ENABLE_ADDRESS);
            match s.pending_interrupt(check_for_ime) {
                Some(j) => {
                    &&& 0 <= j < 5
                    &&& !check_for_ime || s.ime_flag
                    &&& requested & (1u8 << (j as u8)) != 0 && enabled & (1u8 << (j as u8)) != 0
                    &&& forall|k: u8| k < j ==> !(#[trigger] (requested & (1u8 << k)) != 0 && enabled & (1u8 << k) != 0)
                },
                None => (check_for_ime && !s.ime_flag)
                    || forall|k: u8| k < 5 ==> !(#[trigger] (requested & (1u8 << k)) != 0 && enabled & (1u8 << k) != 0),
            }
        }),
{
    let requested = s.read(INTERRUPT_FLAG_ADDRESS);
    let enabled = s.read(INTERRUPT_ENABLE_ADDRESS);
    lemma_lowest_requested_is_least(requested, enabled, 5);
    assert forall|k: u8| #[trigger] (requested & (1u8 << k)) != 0 && enabled & (1u8 << k) != 0 implies is_requested(requested, enabled, k) by {}
}

} // verus!
