//! The timer (TIMA, TMA, TAC) and the divider register (DIV).
use vstd::prelude::*;

use super::interrupts::InterruptTypes;
use super::{CpuView, CPU};
use crate::mmu::MemoryOperations;
use super::interrupts::INTERRUPT_FLAG_ADDRESS;
use crate::memory::{law_read_after_write, law_write_keeps_other_addresses};

verus! {

/// Address of the timer counter TIMA.
pub const TIMER_COUNTER_ADDRESS: u16 = 0xFF05;

/// Address of the timer modulo TMA.
pub const TIMER_MODULO_ADDRESS: u16 = 0xFF06;

/// Address of the timer control TAC.
pub const TIMER_CONTROL_ADDRESS: u16 = 0xFF07;

/// Address of the divider register DIV.
pub const DIVIDER_ADDRESS: u16 = 0xFF04;

/// The number of increments of the clock per timer tick for the speed
/// selected by TAC bits 1..0.
pub open spec fn timer_period(speed: u8) -> u64 {
    if speed == 0 {
        256
    } else if speed == 1 {
        4
    } else if speed == 2 {
        16
    } else {
        64
    }
}

impl CpuView {
    /// One timer tick: nothing while TAC bit 2 is clear; otherwise TIMA is
    /// incremented, and on overflow it is reloaded from TMA and the timer
    /// interrupt is requested.
    pub open spec fn op_increment_timer(self) -> CpuView {
        if self.read(TIMER_CONTROL_ADDRESS) & 0b100 == 0 {
            self
        } else {
            let previous = self.read(TIMER_COUNTER_ADDRESS);
            if previous == 255 {
                self.write(TIMER_COUNTER_ADDRESS, self.read(TIMER_MODULO_ADDRESS)).op_set_interrupt_flag(InterruptTypes::Timer)
            } else {
                self.write(TIMER_COUNTER_ADDRESS, (previous + 1) as u8)
            }
        }
    }

    /// One divider tick: DIV incremented, wrapping from 255 to 0.
    pub open spec fn op_increment_div(self) -> CpuView {
        self.with_mem(self.mem.store(DIVIDER_ADDRESS, ((self.read(DIVIDER_ADDRESS) + 1) % 256) as u8))
    }
}

impl CPU {
    /// One timer tick (the caller counts the cycles).
    pub fn increment_timer(&mut self)
        ensures
            final(self)@ == old(self)@.op_increment_timer(),
    {
        if self.mmu.read_byte(TIMER_CONTROL_ADDRESS) & 0b100 == 0 {
            return;
        }
        let previous_val = self.mmu.read_byte(TIMER_COUNTER_ADDRESS);
        if previous_val == 255 {
            let modulo = self.mmu.read_byte(TIMER_MODULO_ADDRESS);
            self.mmu.write_byte(TIMER_COUNTER_ADDRESS, modulo);
            self.set_interrupt_flag(InterruptTypes::Timer);
        } else {
            self.mmu.write_byte(TIMER_COUNTER_ADDRESS, previous_val + 1);
        }
    }

    /// One divider tick.
    pub fn increment_div(&mut self)
        ensures
            final(self)@ == old(self)@.op_increment_div(),
    {
        let previous_val = self.mmu.read_byte(DIVIDER_ADDRESS);
        self.mmu.write_div_register(previous_val.wrapping_add(1));
    }

    /// The timer period for the speed selected in TAC.
    pub fn get_timer_modulo(&mut self) -> (r: u64)
        ensures
            final(self)@ == old(self)@,
            r == timer_period(old(self)@.read(TIMER_CONTROL_ADDRESS) & 0b11),
    {
        let timer_speed = self.mmu.read_byte(TIMER_CONTROL_ADDRESS) & 0b11;
        // See: https://gbdev.io/pandocs/Timer_and_Divider_Registers.html#ff07--tac-timer-control
        if timer_speed == 0b00 {
            256
        } else if timer_speed == 0b01 {
            4
        } else if timer_speed == 0b10 {
            16
        } else {
            64
        }
    }
}

/// A timer tick while TAC bit 2 enables the timer adds one to TIMA; on the
/// tick after 255 TIMA takes the value of TMA instead and the timer
/// interrupt (IF bit 2) is requested, the other IF bits kept. With the
/// timer disabled a tick changes nothing. A divider tick adds one to DIV,
/// wrapping from 255 to 0.
pub proof fn law_timer_tick(s: CpuView)
    requires
        s.mem.wf(),
    ensures
        ({
            let tac = s.read(TIMER_CONTROL_ADDRESS);
            let tima = s.read(TIMER_COUNTER_ADDRESS);
            let requests = s.read(INTERRUPT_FLAG_ADDRESS);
            let t = s.op_increment_timer();
            &&& tac & 4 == 0 ==> t == s
            &&& tac & 4 != 0 && tima < 255 ==> t.read(TIMER_COUNTER_ADDRESS) == tima + 1 && t.read(INTERRUPT_FLAG_ADDRESS) == requests
            &&& tac & 4 != 0 && tima == 255 ==> t.read(TIMER_COUNTER_ADDRESS) == s.read(TIMER_MODULO_ADDRESS)
                && t.read(INTERRUPT_FLAG_ADDRESS) == requests | 4
            &&& s.op_increment_div().read(DIVIDER_ADDRESS) == if s.read(DIVIDER_ADDRESS) == 255 { 0 } else { s.read(DIVIDER_ADDRESS) + 1 }
        }),
{
    let tima = s.read(TIMER_COUNTER_ADDRESS);
    let tma = s.read(TIMER_MODULO_ADDRESS);
    let requests = s.read(INTERRUPT_FLAG_ADDRESS);
    law_read_after_write(s.mem, TIMER_COUNTER_ADDRESS, tma);
    law_write_keeps_other_addresses(s.mem, TIMER_COUNTER_ADDRESS, INTERRUPT_FLAG_ADDRESS, tma);
    let reloaded = s.write(TIMER_COUNTER_ADDRESS, tma);
    let v = requests | (1u8 << 2u8);
    law_read_after_write(reloaded.mem, INTERRUPT_FLAG_ADDRESS, v);
    law_write_keeps_other_addresses(reloaded.mem, INTERRUPT_FLAG_ADDRESS, TIMER_COUNTER_ADDRESS, v);
    assert(requests | (1u8 << 2u8) == requests | 4) by (bit_vector);
    if tima < 255 {
        law_read_after_write(s.mem, TIMER_COUNTER_ADDRESS, (tima + 1) as u8);
        law_write_keeps_other_addresses(s.mem, TIMER_COUNTER_ADDRESS, INTERRUPT_FLAG_ADDRESS, (tima + 1) as u8);
    }
}

} // verus!
