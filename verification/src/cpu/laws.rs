//! Properties that tie the CPU's operations together: what one operation
//! undoes of another, and what reading gives back of writing.
use vstd::prelude::*;

use super::flags::{CARRY_FLAG, HALF_CARRY_FLAG, SUBTRACTION_FLAG, ZERO_FLAG};
use super::instructions::jumps_subroutines::advance;
use super::instructions::stack_operations::{dec16, inc16, is_pushable};
use super::registers::{Register16Bit, Register8Bit};
use super::instructions::bit_operations::{bit_codes, reset_bit, set_bit};
use super::instructions::arithmetic_and_logic::cp::sub8;
use super::instructions::{outcome, unaffected, FlagState, InstParam, Instructions};
use super::interrupts::{INTERRUPT_ENABLE_ADDRESS, INTERRUPT_FLAG_ADDRESS};
use super::step::{apply_codes, apply_flag, moves_pc_itself};
use super::instructions::{ConditionCodes, InstructionResult};
use super::{lemma_reg16_of_set, CpuView};
use crate::memory::{law_read_after_write, law_write_keeps_other_addresses};

verus! {

impl CpuView {
    /// The four flags Z, N, H, C.
    pub open spec fn flag_tuple(self) -> (bool, bool, bool, bool) {
        (self.zero_flag(), self.subtraction_flag(), self.half_carry_flag(), self.carry_flag())
    }

    /// Whether the register file and the memory have their full sizes.
    pub open spec fn wf(self) -> bool {
        self.regs.len() == 12 && self.mem.wf()
    }

    /// Whether the two bytes below SP behave as plain memory, so that what
    /// a push stores there is read back by a pop.
    pub open spec fn stack_is_plain(self) -> bool {
        self.mem.is_plain(dec16(self.sp())) && self.mem.is_plain(dec16(dec16(self.sp())))
    }
}

/// Reading back an 8-bit register gives the value written to it; the other
/// registers and the flags keep theirs.
pub proof fn law_register8_read_after_write(s: CpuView, r: Register8Bit, other: Register8Bit, value: u8)
    requires
        s.regs.len() == 12,
    ensures
        s.set_reg8(r, value).reg8(r) == value,
        other != r ==> s.set_reg8(r, value).reg8(other) == s.reg8(other),
        s.set_reg8(r, value).flags() == s.flags(),
{
}

/// The 16-bit registers are the 8-bit pairs AF, BC, DE, HL: high byte times
/// 256 plus low byte.
pub proof fn law_register_pairs(s: CpuView)
    requires
        s.regs.len() == 12,
    ensures
        s.reg16(Register16Bit::AF) == s.reg8(Register8Bit::A) * 256 + s.flags(),
        s.reg16(Register16Bit::BC) == s.reg8(Register8Bit::B) * 256 + s.reg8(Register8Bit::C),
        s.reg16(Register16Bit::DE) == s.reg8(Register8Bit::D) * 256 + s.reg8(Register8Bit::E),
        s.reg16(Register16Bit::HL) == s.reg8(Register8Bit::H) * 256 + s.reg8(Register8Bit::L),
{
}

/// Setting or clearing one flag changes that flag only.
pub proof fn law_flags_independent(s: CpuView)
    requires
        s.regs.len() == 12,
    ensures
        ({
            let (z, n, h, c) = s.flag_tuple();
            &&& s.set_flags(s.flags() | ZERO_FLAG).flag_tuple() == (true, n, h, c)
            &&& s.set_flags(s.flags() & !ZERO_FLAG).flag_tuple() == (false, n, h, c)
            &&& s.set_flags(s.flags() | SUBTRACTION_FLAG).flag_tuple() == (z, true, h, c)
            &&& s.set_flags(s.flags() & !SUBTRACTION_FLAG).flag_tuple() == (z, false, h, c)
            &&& s.set_flags(s.flags() | HALF_CARRY_FLAG).flag_tuple() == (z, n, true, c)
            &&& s.set_flags(s.flags() & !HALF_CARRY_FLAG).flag_tuple() == (z, n, false, c)
            &&& s.set_flags(s.flags() | CARRY_FLAG).flag_tuple() == (z, n, h, true)
            &&& s.set_flags(s.flags() & !CARRY_FLAG).flag_tuple() == (z, n, h, false)
        }),
{
    let f = s.flags();
    assert({
        &&& ((f | 0x80) & 0x80 == 0x80) && ((f | 0x80) & 0x40 == f & 0x40) && ((f | 0x80) & 0x20 == f & 0x20) && ((f | 0x80) & 0x10 == f & 0x10)
        &&& ((f & !0x80u8) & 0x80 == 0) && ((f & !0x80u8) & 0x40 == f & 0x40) && ((f & !0x80u8) & 0x20 == f & 0x20) && ((f & !0x80u8) & 0x10 == f & 0x10)
        &&& ((f | 0x40) & 0x80 == f & 0x80) && ((f | 0x40) & 0x40 == 0x40) && ((f | 0x40) & 0x20 == f & 0x20) && ((f | 0x40) & 0x10 == f & 0x10)
        &&& ((f & !0x40u8) & 0x80 == f & 0x80) && ((f & !0x40u8) & 0x40 == 0) && ((f & !0x40u8) & 0x20 == f & 0x20) && ((f & !0x40u8) & 0x10 == f & 0x10)
        &&& ((f | 0x20) & 0x80 == f & 0x80) && ((f | 0x20) & 0x40 == f & 0x40) && ((f | 0x20) & 0x20 == 0x20) && ((f | 0x20) & 0x10 == f & 0x10)
        &&& ((f & !0x20u8) & 0x80 == f & 0x80) && ((f & !0x20u8) & 0x40 == f & 0x40) && ((f & !0x20u8) & 0x20 == 0) && ((f & !0x20u8) & 0x10 == f & 0x10)
        &&& ((f | 0x10) & 0x80 == f & 0x80) && ((f | 0x10) & 0x40 == f & 0x40) && ((f | 0x10) & 0x20 == f & 0x20) && ((f | 0x10) & 0x10 == 0x10)
        &&& ((f & !0x10u8) & 0x80 == f & 0x80) && ((f & !0x10u8) & 0x40 == f & 0x40) && ((f & !0x10u8) & 0x20 == f & 0x20) && ((f & !0x10u8) & 0x10 == 0)
    }) by (bit_vector);
}

/// Popping right after pushing two bytes gives back the word they form,
/// with every register, SP included, as before the push.
pub proof fn lemma_push_then_pop_word(s: CpuView, high: u8, low: u8)
    requires
        s.wf(),
        s.stack_is_plain(),
    ensures
        s.push_bytes(high, low).pop_word().0.regs == s.regs,
        s.push_bytes(high, low).pop_word().1 == high * 256 + low,
{
    let sp = s.sp();
    let a1 = dec16(sp);
    let a2 = dec16(a1);
    let s1 = s.set_reg16(Register16Bit::SP, a1);
    lemma_reg16_of_set(s, Register16Bit::SP, a1);
    let s2 = s1.write(a1, high);
    law_read_after_write(s1.mem, a1, high);
    let s3 = s2.set_reg16(Register16Bit::SP, a2);
    lemma_reg16_of_set(s2, Register16Bit::SP, a2);
    let s4 = s3.write(a2, low);
    law_read_after_write(s3.mem, a2, low);
    law_write_keeps_other_addresses(s3.mem, a2, a1, low);
    assert(s4 == s.push_bytes(high, low));
    assert(s4.sp() == a2);
    assert(inc16(a2) == a1);
    assert(inc16(a1) == sp);
    assert(s4.read(a2) == low);
    assert(s4.read(a1) == high);
    assert(s4.set_reg16(Register16Bit::SP, sp).regs =~= s.regs);
}

/// POP gives back what PUSH stored: after PUSH `source` and POP `target`,
/// `target` holds the value of `source`, SP is back where it was, and every
/// other register is unchanged.
pub proof fn law_push_then_pop(s: CpuView, source: Register16Bit, target: Register16Bit)
    requires
        s.wf(),
        s.stack_is_plain(),
        is_pushable(source),
        target != Register16Bit::SP,
    ensures
        s.op_push_r16(source).0.op_pop_r16(target).0.regs == s.set_reg16(target, s.reg16(source)).regs,
{
    let high = s.regs[source.slot()];
    let low = s.regs[source.slot() + 1];
    lemma_push_then_pop_word(s, high, low);
    let (popped, value) = s.push_bytes(high, low).pop_word();
    assert(value == s.reg16(source));
    assert(popped.set_reg16(target, value).regs =~= s.set_reg16(target, s.reg16(source)).regs);
}

/// RET returns from CALL: after CALL n16 and RET, PC is at the
/// instruction after the call and every other register is as before.
pub proof fn law_call_then_ret(s: CpuView, target: u16)
    requires
        s.wf(),
        s.stack_is_plain(),
    ensures
        s.op_call_n16(target).0.pc() == target,
        s.op_call_n16(target).0.op_ret().0.regs == s.set_reg16(Register16Bit::PC, advance(s.pc(), 3)).regs,
{
    let return_address = advance(s.pc(), 3);
    let high = (return_address / 256) as u8;
    let low = (return_address % 256) as u8;
    lemma_push_then_pop_word(s, high, low);
    let pushed = s.push_bytes(high, low);
    let called = pushed.set_reg16(Register16Bit::PC, target);
    lemma_reg16_of_set(pushed, Register16Bit::PC, target);
    assert(called.mem == pushed.mem);
    assert(called.sp() == pushed.sp());
    let (popped, value) = pushed.pop_word();
    let (popped_called, value_called) = called.pop_word();
    assert(value_called == value);
    assert(value == return_address);
    assert(popped_called.set_reg16(Register16Bit::PC, value_called).regs =~= s.set_reg16(Register16Bit::PC, return_address).regs);
}

/// RETI returns from an interrupt: the dispatch clears IME and the
/// interrupt's request bit and jumps to its handler at 0x40 + 8 * i; RETI
/// then resumes at the interrupted PC (the one after a HALT) with IME set
/// and every other register as before.
pub proof fn law_interrupt_then_reti(s: CpuView, i: i32)
    requires
        s.wf(),
        s.stack_is_plain(),
        0 <= i < 5,
        dec16(s.sp()) != INTERRUPT_FLAG_ADDRESS,
        dec16(dec16(s.sp())) != INTERRUPT_FLAG_ADDRESS,
    ensures
        s.op_handle_interrupt(i).pc() == 0x40 + 8 * i,
        !s.op_handle_interrupt(i).ime_flag,
        !s.op_handle_interrupt(i).is_halted,
        s.op_handle_interrupt(i).op_reti().0.ime_flag,
        s.op_handle_interrupt(i).op_reti().0.regs == s.set_reg16(
            Register16Bit::PC,
            if s.is_halted { advance(s.pc(), 1) } else { s.pc() },
        ).regs,
{
    let return_address = if s.is_halted { advance(s.pc(), 1) } else { s.pc() };
    let high = (return_address / 256) as u8;
    let low = (return_address % 256) as u8;
    let cleared = CpuView { ime_flag: false, ..s }.write(
        INTERRUPT_FLAG_ADDRESS,
        s.read(INTERRUPT_FLAG_ADDRESS) & !(1u8 << (i as u8)),
    );
    let woken = CpuView { is_halted: false, ..cleared };
    assert(woken.regs == s.regs);
    assert(woken.wf());
    assert(woken.stack_is_plain());
    lemma_push_then_pop_word(woken, high, low);
    let pushed = woken.push_bytes(high, low);
    let jumped = pushed.set_reg16(Register16Bit::PC, (0x40 + 8 * i) as u16);
    lemma_reg16_of_set(pushed, Register16Bit::PC, (0x40 + 8 * i) as u16);
    let dispatched = jumped.prepared();
    assert(dispatched == s.op_handle_interrupt(i));
    assert(dispatched.mem == pushed.mem);
    assert(dispatched.sp() == pushed.sp());
    let (popped, value) = pushed.pop_word();
    let reti_start = CpuView { ime_flag: true, ..dispatched };
    let (popped_back, value_back) = reti_start.pop_word();
    assert(value_back == value);
    assert(popped_back.set_reg16(Register16Bit::PC, value_back).regs =~= s.set_reg16(Register16Bit::PC, return_address).regs);
}

/// Dispatching interrupt `i` clears IME and the interrupt's IF bit (the
/// other bits stay), ends a HALT, pushes the return address (PC, or the
/// address after a HALT) below SP, high byte first, moves PC to the handler
/// at 0x40 + 8 * i and decodes the instruction found there.
pub proof fn law_interrupt_dispatch(s: CpuView, i: i32)
    requires
        s.wf(),
        s.stack_is_plain(),
        0 <= i < 8,
        dec16(s.sp()) != INTERRUPT_FLAG_ADDRESS,
        dec16(dec16(s.sp())) != INTERRUPT_FLAG_ADDRESS,
    ensures
        ({
            let t = s.op_handle_interrupt(i);
            let return_address = if s.is_halted { advance(s.pc(), 1) } else { s.pc() };
            &&& !t.ime_flag
            &&& !t.is_halted
            &&& t.read(INTERRUPT_FLAG_ADDRESS) == s.read(INTERRUPT_FLAG_ADDRESS) & !(1u8 << (i as u8))
            &&& t.pc() == 0x40 + 8 * i
            &&& t.sp() == dec16(dec16(s.sp()))
            &&& t.read(dec16(s.sp())) == return_address / 256
            &&& t.read(dec16(dec16(s.sp()))) == return_address % 256
            &&& t.next_instruction == t.decoded(t.read(t.pc()))
        }),
{
    let return_address = if s.is_halted { advance(s.pc(), 1) } else { s.pc() };
    let high = (return_address / 256) as u8;
    let low = (return_address % 256) as u8;
    let flag = s.read(INTERRUPT_FLAG_ADDRESS) & !(1u8 << (i as u8));
    let cleared = CpuView { ime_flag: false, ..s }.write(INTERRUPT_FLAG_ADDRESS, flag);
    law_read_after_write(s.mem, INTERRUPT_FLAG_ADDRESS, flag);
    assert forall|a: u16| a != INTERRUPT_FLAG_ADDRESS implies #[trigger] cleared.read(a) == s.read(a) by {
        law_write_keeps_other_addresses(s.mem, INTERRUPT_FLAG_ADDRESS, a, flag);
    }
    let woken = CpuView { is_halted: false, ..cleared };
    assert(woken.regs == s.regs);
    let sp = s.sp();
    let a1 = dec16(sp);
    let a2 = dec16(a1);
    let s1 = woken.set_reg16(Register16Bit::SP, a1);
    lemma_reg16_of_set(woken, Register16Bit::SP, a1);
    let s2 = s1.write(a1, high);
    law_read_after_write(s1.mem, a1, high);
    law_write_keeps_other_addresses(s1.mem, a1, INTERRUPT_FLAG_ADDRESS, high);
    let s3 = s2.set_reg16(Register16Bit::SP, a2);
    lemma_reg16_of_set(s2, Register16Bit::SP, a2);
    let s4 = s3.write(a2, low);
    law_read_after_write(s3.mem, a2, low);
    law_write_keeps_other_addresses(s3.mem, a2, a1, low);
    law_write_keeps_other_addresses(s3.mem, a2, INTERRUPT_FLAG_ADDRESS, low);
    assert(s4 == woken.push_bytes(high, low));
    assert(woken.push_word(return_address) == s4);
    let jumped = s4.set_reg16(Register16Bit::PC, (0x40 + 8 * i) as u16);
    lemma_reg16_of_set(s4, Register16Bit::PC, (0x40 + 8 * i) as u16);
    lemma_reg16_of_set(s3, Register16Bit::SP, a2);
    let t = jumped.prepared();
    assert(t == s.op_handle_interrupt(i));
    assert(t.mem == s4.mem);
    assert(!t.ime_flag);
    assert(!t.is_halted);
    assert(t.read(INTERRUPT_FLAG_ADDRESS) == flag);
    assert(t.pc() == 0x40 + 8 * i);
    assert(t.sp() == a2);
    assert(t.read(a1) == high);
    assert(t.read(a2) == low);
    assert(t.next_instruction == t.decoded(t.read(t.pc()))) by {
        reveal(CpuView::decoded);
        assert(t.regs == jumped.regs);
    }
}

/// A flag after a condition code: raised, cleared, or kept as it was.
pub open spec fn flag_after(state: FlagState, before: bool) -> bool {
    match state {
        FlagState::Raised => true,
        FlagState::Unset => false,
        FlagState::NotAffected => before,
    }
}

/// The four flag bits of F.
pub open spec fn is_flag_mask(m: u8) -> bool {
    m == ZERO_FLAG || m == SUBTRACTION_FLAG || m == HALF_CARRY_FLAG || m == CARRY_FLAG
}

/// Applying a condition code to one flag bit sets, clears or keeps that bit
/// and leaves the other flag bits alone.
proof fn lemma_apply_flag(f: u8, state: FlagState, m: u8, other: u8)
    requires
        is_flag_mask(m),
        is_flag_mask(other),
        m != other,
    ensures
        (apply_flag(f, state, m) & m == m) == flag_after(state, f & m == m),
        apply_flag(f, state, m) & other == f & other,
{
    assert(((f | m) & m == m) && ((f | m) & other == f & other) && ((f & !m) & m != m) && ((f & !m) & other == f & other))
        by (bit_vector)
        requires
            m == 0x80u8 || m == 0x40u8 || m == 0x20u8 || m == 0x10u8,
            other == 0x80u8 || other == 0x40u8 || other == 0x20u8 || other == 0x10u8,
            m != other;
}

/// Each flag after the condition codes of a result: raised, cleared or kept.
pub proof fn lemma_apply_codes(f: u8, c: ConditionCodes)
    ensures
        (apply_codes(f, c) & ZERO_FLAG == ZERO_FLAG) == flag_after(c.zero, f & ZERO_FLAG == ZERO_FLAG),
        (apply_codes(f, c) & SUBTRACTION_FLAG == SUBTRACTION_FLAG) == flag_after(c.subtract, f & SUBTRACTION_FLAG == SUBTRACTION_FLAG),
        (apply_codes(f, c) & HALF_CARRY_FLAG == HALF_CARRY_FLAG) == flag_after(c.half_carry, f & HALF_CARRY_FLAG == HALF_CARRY_FLAG),
        (apply_codes(f, c) & CARRY_FLAG == CARRY_FLAG) == flag_after(c.carry, f & CARRY_FLAG == CARRY_FLAG),
{
    let f1 = apply_flag(f, c.carry, CARRY_FLAG);
    let f2 = apply_flag(f1, c.half_carry, HALF_CARRY_FLAG);
    let f3 = apply_flag(f2, c.subtract, SUBTRACTION_FLAG);
    lemma_apply_flag(f, c.carry, CARRY_FLAG, HALF_CARRY_FLAG);
    lemma_apply_flag(f, c.carry, CARRY_FLAG, SUBTRACTION_FLAG);
    lemma_apply_flag(f, c.carry, CARRY_FLAG, ZERO_FLAG);
    lemma_apply_flag(f1, c.half_carry, HALF_CARRY_FLAG, CARRY_FLAG);
    lemma_apply_flag(f1, c.half_carry, HALF_CARRY_FLAG, SUBTRACTION_FLAG);
    lemma_apply_flag(f1, c.half_carry, HALF_CARRY_FLAG, ZERO_FLAG);
    lemma_apply_flag(f2, c.subtract, SUBTRACTION_FLAG, CARRY_FLAG);
    lemma_apply_flag(f2, c.subtract, SUBTRACTION_FLAG, HALF_CARRY_FLAG);
    lemma_apply_flag(f2, c.subtract, SUBTRACTION_FLAG, ZERO_FLAG);
    lemma_apply_flag(f3, c.zero, ZERO_FLAG, CARRY_FLAG);
    lemma_apply_flag(f3, c.zero, ZERO_FLAG, HALF_CARRY_FLAG);
    lemma_apply_flag(f3, c.zero, ZERO_FLAG, SUBTRACTION_FLAG);
}

/// A step that serves no interrupt and executes its instruction without a
/// refusal records the instruction's result, moves PC on by the result's
/// length from where the instruction left it (JP, CALL, RST, RET and RETI
/// set PC themselves and are not moved on), raises, clears or keeps each
/// flag as the result's condition codes say, counts the result's cycles and
/// leaves the memory and the other registers as the instruction left them.
pub proof fn law_step_accounting(s: CpuView)
    requires
        s.pending_interrupt(true) is None,
        s.step_start().op_dispatch().1 is Ok,
        s.step_start().op_dispatch().0.regs.len() == 12,
    ensures
        ({
            let e = s.step_start().op_dispatch().0;
            let res = s.step_start().op_dispatch().1->Ok_0;
            let t = s.op_step().0;
            &&& s.op_step().1 == Ok::<InstructionResult, Seq<char>>(res)
            &&& t.last_step_result == res
            &&& t.pc() == if moves_pc_itself(e.next_instruction) { e.pc() } else { advance(e.pc(), res.bytes as int) }
            &&& t.zero_flag() == flag_after(res.condition_codes.zero, e.zero_flag())
            &&& t.subtraction_flag() == flag_after(res.condition_codes.subtract, e.subtraction_flag())
            &&& t.half_carry_flag() == flag_after(res.condition_codes.half_carry, e.half_carry_flag())
            &&& t.carry_flag() == flag_after(res.condition_codes.carry, e.carry_flag())
            &&& t.cycles == (e.cycles + res.cycles) % 0x1_0000_0000_0000_0000
            &&& t.mem == e.mem
            &&& forall|r: Register8Bit| #[trigger] t.reg8(r) == e.reg8(r)
            &&& t.sp() == e.sp()
        }),
{
    let e = s.step_start().op_dispatch().0;
    let res = s.step_start().op_dispatch().1->Ok_0;
    let recorded = CpuView { last_step_result: res, ..e };
    let moved = if moves_pc_itself(e.next_instruction) {
        recorded
    } else {
        recorded.set_reg16(Register16Bit::PC, advance(recorded.pc(), res.bytes as int))
    };
    lemma_reg16_of_set(recorded, Register16Bit::PC, advance(recorded.pc(), res.bytes as int));
    assert(moved.flags() == e.flags());
    let ticked = moved.ime_updated();
    lemma_apply_codes(e.flags(), res.condition_codes);
    let t = s.op_step().0;
    assert(t == CpuView { cycles: ((e.cycles + res.cycles) % 0x1_0000_0000_0000_0000) as u64, ..ticked.with_codes(res.condition_codes) });
    assert(t.flags() == apply_codes(e.flags(), res.condition_codes));
}

/// An 8-bit operand: a register, [HL] (written as HL) or an immediate byte.
pub open spec fn is_byte_operand(p: InstParam) -> bool {
    p is Register8Bit || p is Number8Bit || p == InstParam::Register16Bit(Register16Bit::HL)
}

/// A register or [HL] (written as HL) as the target of a read-modify-write.
pub open spec fn is_byte_target(p: InstParam) -> bool {
    p is Register8Bit || p == InstParam::Register16Bit(Register16Bit::HL)
}

/// The instructions that neither move PC nor write F themselves, so that a
/// step moves PC on by their length and F takes exactly their condition
/// codes: the 8-bit arithmetic and logic (ADD, ADC, SUB, SBC, CP, AND, OR,
/// XOR) on a byte operand, INC and DEC, the bit operations, rotations and
/// shifts on a register or [HL], and CCF, CPL, DAA, SCF, NOP, DI and EI.
/// Jumps, calls, returns, RST, STOP, HALT, POP and the loads are not among
/// them.
pub open spec fn keeps_pc_and_flags(inst: Instructions) -> bool {
    match inst {
        Instructions::ADD(p) | Instructions::ADC(p) | Instructions::SUB(p) | Instructions::SBC(p)
        | Instructions::CP(p) | Instructions::AND(p) | Instructions::OR(p) | Instructions::XOR(p) => is_byte_operand(p),
        Instructions::INC(p, _) | Instructions::DEC(p, _) => is_byte_target(p),
        Instructions::BIT(_, p) | Instructions::RES(_, p) | Instructions::SET(_, p) => is_byte_target(p),
        Instructions::SWAP(p) | Instructions::RL(p) | Instructions::RLC(p) | Instructions::RR(p)
        | Instructions::RRC(p) | Instructions::SLA(p) | Instructions::SRA(p) | Instructions::SRL(p) => is_byte_target(p),
        Instructions::CCF | Instructions::CPL | Instructions::DAA | Instructions::SCF
        | Instructions::NOP | Instructions::DI | Instructions::EI => true,
        _ => false,
    }
}

/// `e` keeps the PC, F, cycle count and next instruction of `s`, and a
/// whole register file.
pub open spec fn keeps_pc_flags_of(s: CpuView, e: CpuView) -> bool {
    &&& e.regs.len() == 12
    &&& e.pc() == s.pc()
    &&& e.flags() == s.flags()
    &&& e.cycles == s.cycles
    &&& e.next_instruction == s.next_instruction
}

/// ADD on the operands of `keeps_pc_and_flags` keep PC, F, the cycle
/// count and the next instruction.
proof fn lemma_keeps_add(s: CpuView, p: InstParam)
    requires
        s.regs.len() == 12,
        keeps_pc_and_flags(s.next_instruction),
        is_byte_operand(p),
    ensures
        keeps_pc_flags_of(s, s.op_execute_add(p).0),
{
}

/// ADC on the operands of `keeps_pc_and_flags` keep PC, F, the cycle
/// count and the next instruction.
proof fn lemma_keeps_adc(s: CpuView, p: InstParam)
    requires
        s.regs.len() == 12,
        keeps_pc_and_flags(s.next_instruction),
        is_byte_operand(p),
    ensures
        keeps_pc_flags_of(s, s.op_execute_adc(p).0),
{
}

/// SUB on the operands of `keeps_pc_and_flags` keep PC, F, the cycle
/// count and the next instruction.
proof fn lemma_keeps_sub(s: CpuView, p: InstParam)
    requires
        s.regs.len() == 12,
        keeps_pc_and_flags(s.next_instruction),
        is_byte_operand(p),
    ensures
        keeps_pc_flags_of(s, s.op_execute_sub(p, false, "SUB with "@).0),
{
}

/// SBC on the operands of `keeps_pc_and_flags` keep PC, F, the cycle
/// count and the next instruction.
proof fn lemma_keeps_sbc(s: CpuView, p: InstParam)
    requires
        s.regs.len() == 12,
        keeps_pc_and_flags(s.next_instruction),
        is_byte_operand(p),
    ensures
        keeps_pc_flags_of(s, s.op_execute_sub(p, true, "SBC with "@).0),
{
}

/// CP on the operands of `keeps_pc_and_flags` keep PC, F, the cycle
/// count and the next instruction.
proof fn lemma_keeps_cp(s: CpuView, p: InstParam)
    requires
        s.regs.len() == 12,
        keeps_pc_and_flags(s.next_instruction),
        is_byte_operand(p),
    ensures
        keeps_pc_flags_of(s, s.op_execute_cp(p).0),
{
}

/// AND, OR and XOR on the operands of `keeps_pc_and_flags` keep PC, F, the cycle
/// count and the next instruction.
proof fn lemma_keeps_logic(s: CpuView)
    requires
        s.regs.len() == 12,
        keeps_pc_and_flags(s.next_instruction),
    ensures
        keeps_pc_flags_of(s, s.op_execute_logic(s.next_instruction).0),
{
}

/// INC on the operands of `keeps_pc_and_flags` keep PC, F, the cycle
/// count and the next instruction.
proof fn lemma_keeps_inc(s: CpuView, p: InstParam, m: InstParam)
    requires
        s.regs.len() == 12,
        keeps_pc_and_flags(s.next_instruction),
        is_byte_target(p),
    ensures
        keeps_pc_flags_of(s, s.op_execute_inc(p, m).0),
{
}

/// DEC on the operands of `keeps_pc_and_flags` keep PC, F, the cycle
/// count and the next instruction.
proof fn lemma_keeps_dec(s: CpuView, p: InstParam, m: InstParam)
    requires
        s.regs.len() == 12,
        keeps_pc_and_flags(s.next_instruction),
        is_byte_target(p),
    ensures
        keeps_pc_flags_of(s, s.op_execute_dec(p, m).0),
{
}

/// BIT, RES, SET and SWAP on the operands of `keeps_pc_and_flags` keep PC, F, the cycle
/// count and the next instruction.
proof fn lemma_keeps_bit_op(s: CpuView)
    requires
        s.regs.len() == 12,
        keeps_pc_and_flags(s.next_instruction),
    ensures
        keeps_pc_flags_of(s, s.op_execute_bit_op(s.next_instruction).0),
{
}

/// RL on the operands of `keeps_pc_and_flags` keep PC, F, the cycle
/// count and the next instruction.
proof fn lemma_keeps_rl(s: CpuView, p: InstParam)
    requires
        s.regs.len() == 12,
        keeps_pc_and_flags(s.next_instruction),
        is_byte_target(p),
    ensures
        keeps_pc_flags_of(s, s.op_execute_rotate_left(p, true).0),
{
}

/// RLC on the operands of `keeps_pc_and_flags` keep PC, F, the cycle
/// count and the next instruction.
proof fn lemma_keeps_rlc(s: CpuView, p: InstParam)
    requires
        s.regs.len() == 12,
        keeps_pc_and_flags(s.next_instruction),
        is_byte_target(p),
    ensures
        keeps_pc_flags_of(s, s.op_execute_rotate_left(p, false).0),
{
}

/// RR on the operands of `keeps_pc_and_flags` keep PC, F, the cycle
/// count and the next instruction.
proof fn lemma_keeps_rr(s: CpuView, p: InstParam)
    requires
        s.regs.len() == 12,
        keeps_pc_and_flags(s.next_instruction),
        is_byte_target(p),
    ensures
        keeps_pc_flags_of(s, s.op_execute_rotate_right(p, true).0),
{
}

/// RRC on the operands of `keeps_pc_and_flags` keep PC, F, the cycle
/// count and the next instruction.
proof fn lemma_keeps_rrc(s: CpuView, p: InstParam)
    requires
        s.regs.len() == 12,
        keeps_pc_and_flags(s.next_instruction),
        is_byte_target(p),
    ensures
        keeps_pc_flags_of(s, s.op_execute_rotate_right(p, false).0),
{
}

/// SLA, SRA and SRL on the operands of `keeps_pc_and_flags` keep PC, F, the cycle
/// count and the next instruction.
proof fn lemma_keeps_shift(s: CpuView)
    requires
        s.regs.len() == 12,
        keeps_pc_and_flags(s.next_instruction),
    ensures
        keeps_pc_flags_of(s, s.op_execute_shift(s.next_instruction).0),
{
}

/// Executing such an instruction leaves PC, F, the cycle count and the
/// next instruction as they were, and the register file whole.
proof fn lemma_dispatch_keeps_pc_and_flags(s: CpuView)
    requires
        s.regs.len() == 12,
        keeps_pc_and_flags(s.next_instruction),
    ensures
        keeps_pc_flags_of(s, s.op_dispatch().0),
{
    reveal(CpuView::op_dispatch);
    match s.next_instruction {
        Instructions::ADD(p) => lemma_keeps_add(s, p),
        Instructions::ADC(p) => lemma_keeps_adc(s, p),
        Instructions::SUB(p) => lemma_keeps_sub(s, p),
        Instructions::SBC(p) => lemma_keeps_sbc(s, p),
        Instructions::CP(p) => lemma_keeps_cp(s, p),
        Instructions::OR(_) | Instructions::XOR(_) | Instructions::AND(_) => lemma_keeps_logic(s),
        Instructions::INC(p, m) => lemma_keeps_inc(s, p, m),
        Instructions::DEC(p, m) => lemma_keeps_dec(s, p, m),
        Instructions::BIT(_, _) | Instructions::RES(_, _) | Instructions::SET(_, _) | Instructions::SWAP(_) => lemma_keeps_bit_op(s),
        Instructions::RL(p) => lemma_keeps_rl(s, p),
        Instructions::RLC(p) => lemma_keeps_rlc(s, p),
        Instructions::RR(p) => lemma_keeps_rr(s, p),
        Instructions::RRC(p) => lemma_keeps_rrc(s, p),
        Instructions::SLA(_) | Instructions::SRA(_) | Instructions::SRL(_) => lemma_keeps_shift(s),
        _ => {},
    }
}

/// A step of an instruction that neither moves PC nor writes F itself
/// (`keeps_pc_and_flags`), when no interrupt is served and the instruction
/// is not refused: the result is recorded, PC moves on from where it was by
/// the result's length, the cycle count grows by the result's cycles, and
/// each flag is raised, cleared or kept from before the step as the
/// result's condition codes say.
pub proof fn law_step_from_before(s: CpuView)
    requires
        s.regs.len() == 12,
        s.pending_interrupt(true) is None,
        keeps_pc_and_flags(s.next_instruction),
        s.step_start().op_dispatch().1 is Ok,
    ensures
        ({
            let res = s.step_start().op_dispatch().1->Ok_0;
            let t = s.op_step().0;
            &&& s.op_step().1 == Ok::<InstructionResult, Seq<char>>(res)
            &&& t.last_step_result == res
            &&& t.pc() == advance(s.pc(), res.bytes as int)
            &&& t.cycles == (s.cycles + res.cycles) % 0x1_0000_0000_0000_0000
            &&& t.zero_flag() == flag_after(res.condition_codes.zero, s.zero_flag())
            &&& t.subtraction_flag() == flag_after(res.condition_codes.subtract, s.subtraction_flag())
            &&& t.half_carry_flag() == flag_after(res.condition_codes.half_carry, s.half_carry_flag())
            &&& t.carry_flag() == flag_after(res.condition_codes.carry, s.carry_flag())
        }),
{
    lemma_dispatch_keeps_pc_and_flags(s.step_start());
    law_step_accounting(s);
}

/// HALT takes no cycles and touches no flag. With IME clear it changes
/// nothing and reports a length of 1 exactly when some interrupt is both
/// requested and enabled; with IME set it dispatches the lowest such
/// interrupt and reports a length of 1, or, when there is none, changes
/// nothing and reports a length of 0, so that the step keeps PC on the HALT
/// and it runs again.
pub proof fn law_halt(s: CpuView)
    ensures
        ({
            let (t, r) = s.op_halt();
            &&& r.cycles == 0
            &&& r.condition_codes == unaffected()
            &&& !s.ime_flag ==> t == s && (r.bytes == 1 <==> s.read(INTERRUPT_ENABLE_ADDRESS) & s.read(INTERRUPT_FLAG_ADDRESS) != 0)
            &&& !s.ime_flag ==> (r.bytes == 0 <==> s.read(INTERRUPT_ENABLE_ADDRESS) & s.read(INTERRUPT_FLAG_ADDRESS) == 0)
            &&& s.ime_flag ==> match s.pending_interrupt(true) {
                Some(j) => r.bytes == 1 && t == s.op_handle_interrupt(j),
                None => r.bytes == 0 && t == s,
            }
        }),
{
}

/// CPL twice restores A.
pub proof fn law_cpl_twice(s: CpuView)
    requires
        s.regs.len() == 12,
    ensures
        s.op_cpl().0.op_cpl().0 == s,
{
    let a = s.reg8(Register8Bit::A);
    assert(!(!a) == a) by (bit_vector);
    assert(s.op_cpl().0.op_cpl().0.regs =~= s.regs);
}

/// SWAP twice restores the register.
pub proof fn law_swap_twice(s: CpuView, r: Register8Bit)
    requires
        s.regs.len() == 12,
    ensures
        s.op_swap_r8(r).0.op_swap_r8(r).0 == s,
{
    assert(s.op_swap_r8(r).0.op_swap_r8(r).0.regs =~= s.regs);
}

/// RRC undoes RLC (and RLC undoes RRC) on a register.
pub proof fn law_rotate_inverse(s: CpuView, r: Register8Bit)
    requires
        s.regs.len() == 12,
    ensures
        s.op_rl_r8(r, false).0.op_rr_r8(r, false).0 == s,
        s.op_rr_r8(r, false).0.op_rl_r8(r, false).0 == s,
{
    let v = s.reg8(r);
    assert((((v << 1u8) | (if v & 0x80 != 0 { 1u8 } else { 0u8 })) >> 1u8) | (if ((v << 1u8) | (if v & 0x80 != 0 { 1u8 } else { 0u8 })) & 1 != 0 { 128u8 } else { 0u8 }) == v) by (bit_vector);
    assert((((v >> 1u8) | (if v & 1 != 0 { 128u8 } else { 0u8 })) << 1u8) | (if ((v >> 1u8) | (if v & 1 != 0 { 128u8 } else { 0u8 })) & 0x80 != 0 { 1u8 } else { 0u8 }) == v) by (bit_vector);
    assert(s.op_rl_r8(r, false).0.op_rr_r8(r, false).0.regs =~= s.regs);
    assert(s.op_rr_r8(r, false).0.op_rl_r8(r, false).0.regs =~= s.regs);
}

/// After SET b, BIT b finds the bit set (Z left alone); after RES b it
/// finds it clear (Z raised). The other bits are untouched.
pub proof fn law_set_res_then_bit(v: u8, b: u8, other: u8)
    requires
        b < 8,
        other < 8,
        other != b,
    ensures
        bit_codes(set_bit(v, b), b).zero == FlagState::NotAffected,
        bit_codes(reset_bit(v, b), b).zero == FlagState::Raised,
        bit_codes(set_bit(v, b), other) == bit_codes(v, other),
        bit_codes(reset_bit(v, b), other) == bit_codes(v, other),
{
    assert(((v | (1u8 << b)) >> b) & 1 == 1) by (bit_vector)
        requires
            b < 8,
    ;
    assert(((v & !(1u8 << b)) >> b) & 1 == 0) by (bit_vector)
        requires
            b < 8,
    ;
    assert(((v | (1u8 << b)) >> other) & 1 == (v >> other) & 1) by (bit_vector)
        requires
            b < 8,
            other < 8,
            other != b,
    ;
    assert(((v & !(1u8 << b)) >> other) & 1 == (v >> other) & 1) by (bit_vector)
        requires
            b < 8,
            other < 8,
            other != b,
    ;
}

/// DEC undoes INC on a register.
pub proof fn law_inc_then_dec(s: CpuView, r: Register8Bit)
    requires
        s.regs.len() == 12,
    ensures
        s.op_inc_r8(r).0.op_dec_r8(r).0 == s,
{
    assert(s.op_inc_r8(r).0.op_dec_r8(r).0.regs =~= s.regs);
}

/// SUB undoes ADD on A.
pub proof fn law_add_then_sub(s: CpuView, value: u8, cycles: u8, bytes: u8)
    requires
        s.regs.len() == 12,
    ensures
        s.op_adx_a_n8(value, false).0.op_sub(value, cycles, bytes, false).0 == s,
{
    let a = s.reg8(Register8Bit::A);
    assert(s.carry_in(false) == 0);
    let added = s.op_adx_a_n8(value, false).0;
    assert(added.reg8(Register8Bit::A) == ((a + value) % 256) as u8);
    assert(sub8(((a + value) % 256) as u8, value) == a);
    assert(added.op_sub(value, cycles, bytes, false).0.regs =~= s.regs);
}

/// NOP only moves PC past itself and counts its cycle, when no interrupt
/// takes the step.
pub proof fn law_nop_step(s: CpuView)
    requires
        s.wf(),
        s.next_instruction == Instructions::NOP,
        s.pending_interrupt(true) is None,
    ensures
        s.op_step().1 == Ok::<_, Seq<char>>(outcome(1, 1, unaffected())),
        s.op_step().0.regs == s.set_reg16(Register16Bit::PC, advance(s.pc(), 1)).regs,
        s.op_step().0.mem == s.mem,
        s.op_step().0.cycles == (s.cycles + 1) % 0x1_0000_0000_0000_0000,
{
    reveal(CpuView::op_dispatch);
    let f = s.flags();
    assert(apply_codes(f, unaffected()) == f);
    assert(s.op_step().0.regs =~= s.set_reg16(Register16Bit::PC, advance(s.pc(), 1)).regs);
}

/// EI takes effect after the instruction that follows it: right after EI
/// IME is still clear, and after one more instruction it is set.
pub proof fn law_ei_delay(s: CpuView)
    requires
        s.wf(),
        s.next_instruction == Instructions::EI,
        !s.ime_flag,
    ensures
        !s.op_step().0.ime_flag,
        s.op_step().0.enable_ime == 1,
        (CpuView { next_instruction: Instructions::NOP, ..s.op_step().0 }).op_step().0.ime_flag,
        (CpuView { next_instruction: Instructions::NOP, ..s.op_step().0 }).op_step().0.enable_ime == 0,
{
    reveal(CpuView::op_dispatch);
}

/// DI clears IME at once, unless an EI of the previous instruction is due
/// to set it at the end of this one.
pub proof fn law_di_step(s: CpuView)
    requires
        s.wf(),
        s.next_instruction == Instructions::DI,
        s.pending_interrupt(true) is None,
        s.enable_ime != 1,
    ensures
        !s.op_step().0.ime_flag,
{
    reveal(CpuView::op_dispatch);
}

} // verus!
