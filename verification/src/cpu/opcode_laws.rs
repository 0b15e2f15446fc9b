//! What the opcode tables, the conditions, the jumps, the loads through the
//! high page, the 16-bit addition and the sprite rows mean, stated over the
//! raw inputs: opcode values, flag bits, register values and memory bytes.
use vstd::prelude::*;

use super::decode::prefixed::prefixed_instruction;
use super::decode::unprefixed::unprefixed_instruction;
use super::instructions::{InstParam, InstructionCondition, Instructions};
use super::instructions::stack_operations::{dec16, inc16, is_pushable};
use super::registers::{Register16Bit, Register8Bit};
use super::step::{done, moves_pc_itself};
use super::instructions::jumps_subroutines::{advance, relative_target};
use super::instructions::FlagState;
use super::{lemma_reg16_of_set, CpuView};
use crate::memory::{law_read_after_write, law_write_keeps_other_addresses};

verus! {

/// The operand named by the low three bits of an opcode, as the opcode
/// tables list it: B, C, D, E, H, L, [HL] (written as HL) and A.
pub open spec fn operand_column(column: u8) -> InstParam {
    if column == 0 {
        InstParam::Register8Bit(Register8Bit::B)
    } else if column == 1 {
        InstParam::Register8Bit(Register8Bit::C)
    } else if column == 2 {
        InstParam::Register8Bit(Register8Bit::D)
    } else if column == 3 {
        InstParam::Register8Bit(Register8Bit::E)
    } else if column == 4 {
        InstParam::Register8Bit(Register8Bit::H)
    } else if column == 5 {
        InstParam::Register8Bit(Register8Bit::L)
    } else if column == 6 {
        InstParam::Register16Bit(Register16Bit::HL)
    } else {
        InstParam::Register8Bit(Register8Bit::A)
    }
}

/// The 0xCB-prefixed table: 0x00-0x07 RLC, 0x08-0x0F RRC, 0x10-0x17 RL,
/// 0x18-0x1F RR, 0x20-0x27 SLA, 0x28-0x2F SRA, 0x30-0x37 SWAP, 0x38-0x3F
/// SRL, each of the operand in the low three bits; 0x40-0x7F BIT, 0x80-0xBF
/// RES and 0xC0-0xFF SET of bit (opcode - base) / 8 of that operand.
pub proof fn law_prefixed_table(opcode: u8)
    ensures
        ({
            let operand = operand_column(opcode % 8);
            let decoded = prefixed_instruction(opcode);
            &&& opcode < 0x08 ==> decoded == Instructions::RLC(operand)
            &&& 0x08 <= opcode < 0x10 ==> decoded == Instructions::RRC(operand)
            &&& 0x10 <= opcode < 0x18 ==> decoded == Instructions::RL(operand)
            &&& 0x18 <= opcode < 0x20 ==> decoded == Instructions::RR(operand)
            &&& 0x20 <= opcode < 0x28 ==> decoded == Instructions::SLA(operand)
            &&& 0x28 <= opcode < 0x30 ==> decoded == Instructions::SRA(operand)
            &&& 0x30 <= opcode < 0x38 ==> decoded == Instructions::SWAP(operand)
            &&& 0x38 <= opcode < 0x40 ==> decoded == Instructions::SRL(operand)
            &&& 0x40 <= opcode < 0x80 ==> decoded == Instructions::BIT(InstParam::Unsigned3Bit(((opcode - 0x40) / 8) as u8), operand)
            &&& 0x80 <= opcode < 0xC0 ==> decoded == Instructions::RES(InstParam::Unsigned3Bit(((opcode - 0x80) / 8) as u8), operand)
            &&& 0xC0 <= opcode ==> decoded == Instructions::SET(InstParam::Unsigned3Bit(((opcode - 0xC0) / 8) as u8), operand)
        }),
{
    assert(opcode % 16 % 8 == opcode % 8);
    assert((opcode % 16 >= 8) == (opcode % 16 / 8 == 1));
}

/// The load block of the unprefixed table: 0x40-0x7F load the operand of
/// the low three bits into the operand of bits 5..3, except 0x76, HALT.
pub proof fn law_load_block(opcode: u8, n8: u8, n16: u16)
    requires
        0x40 <= opcode < 0x80,
    ensures
        opcode == 0x76 ==> unprefixed_instruction(opcode, n8, n16) == Instructions::HALT,
        opcode != 0x76 ==> unprefixed_instruction(opcode, n8, n16)
            == Instructions::LD(operand_column(((opcode - 0x40) / 8) as u8), operand_column(opcode % 8)),
{
    assert(opcode % 16 % 8 == opcode % 8);
}

/// The arithmetic block of the unprefixed table: 0x80-0xBF apply, by rows
/// of eight, ADD, ADC, SUB, SBC, AND, XOR, OR and CP to A and the operand
/// of the low three bits.
pub proof fn law_arithmetic_block(opcode: u8, n8: u8, n16: u16)
    requires
        0x80 <= opcode < 0xC0,
    ensures
        ({
            let operand = operand_column(opcode % 8);
            let decoded = unprefixed_instruction(opcode, n8, n16);
            let row = (opcode - 0x80) / 8;
            &&& row == 0 ==> decoded == Instructions::ADD(operand)
            &&& row == 1 ==> decoded == Instructions::ADC(operand)
            &&& row == 2 ==> decoded == Instructions::SUB(operand)
            &&& row == 3 ==> decoded == Instructions::SBC(operand)
            &&& row == 4 ==> decoded == Instructions::AND(operand)
            &&& row == 5 ==> decoded == Instructions::XOR(operand)
            &&& row == 6 ==> decoded == Instructions::OR(operand)
            &&& row == 7 ==> decoded == Instructions::CP(operand)
        }),
{
    assert(opcode % 16 % 8 == opcode % 8);
}

/// Whether condition `c` holds on the flags byte `f` (Z is bit 7, N bit 6,
/// H bit 5, C bit 4).
pub open spec fn flags_meet(f: u8, c: InstructionCondition) -> bool {
    match c {
        InstructionCondition::Zero => f & 0x80 != 0,
        InstructionCondition::NotZero => f & 0x80 == 0,
        InstructionCondition::Subtract => f & 0x40 != 0,
        InstructionCondition::NotSubtract => f & 0x40 == 0,
        InstructionCondition::Halfcarry => f & 0x20 != 0,
        InstructionCondition::NotHalfcarry => f & 0x20 == 0,
        InstructionCondition::Carry => f & 0x10 != 0,
        InstructionCondition::NotCarry => f & 0x10 == 0,
        InstructionCondition::SkipConditionCodes => true,
    }
}

/// A branch condition holds exactly when its flag bit in F is set (Z, N,
/// H, C) or clear (NZ, NN, NH, NC); the unconditional form always holds.
pub proof fn law_conditions(s: CpuView, c: InstructionCondition)
    ensures
        s.condition_holds(c) == flags_meet(s.flags(), c),
{
    let f = s.flags();
    assert(((f & 0x80 == 0x80) == (f & 0x80 != 0)) && ((f & 0x40 == 0x40) == (f & 0x40 != 0))
        && ((f & 0x20 == 0x20) == (f & 0x20 != 0)) && ((f & 0x10 == 0x10) == (f & 0x10 != 0))) by (bit_vector);
}

/// A conditional relative jump JR cc,e: the step (with no interrupt
/// served) leaves PC at PC + 2 + e when the condition holds on F, and at
/// PC + 2 otherwise (wrapping around 16 bits).
#[verifier::rlimit(40)]
pub proof fn law_conditional_relative_jump(s: CpuView, c: InstructionCondition, e: i8)
    requires
        s.regs.len() == 12,
        s.pending_interrupt(true) is None,
        s.next_instruction == Instructions::JR(InstParam::ConditionCodes(c), InstParam::SignedNumber8Bit(e)),
    ensures
        s.op_step().0.pc() == if flags_meet(s.flags(), c) { (s.pc() + 2 + e) % 65536 } else { (s.pc() + 2) % 65536 },
{
    let s0 = s.step_start();
    assert(s0.pending_interrupt(true) is None);
    assert(s0.op_check_and_handle_interrupts() == (s0, false));
    lemma_dispatch_jr(s0, c, e);
    law_conditions(s0, c);
    let holds = s0.condition_holds(c);
    let (e0, res) = s0.op_jr_cc_n16(holds, e);
    assert(res.bytes == 2);
    assert(!moves_pc_itself(e0.next_instruction));
    let pc = s.pc();
    let jumped = relative_target(pc, e);
    lemma_reg16_of_set(s0, Register16Bit::PC, jumped);
    assert(e0.pc() == if holds { jumped } else { pc });
    assert(e0.regs.len() == 12);
    let moved = CpuView { last_step_result: res, ..e0 };
    let advanced = advance(moved.pc(), 2);
    lemma_reg16_of_set(moved, Register16Bit::PC, advanced);
    assert(s.op_step().0 == e0.finished(res));
    assert(e0.finished(res).pc() == advanced);
    lemma_relative_wrap(pc, e);
}

/// Jumping by `e` and then stepping over the two instruction bytes lands
/// at PC + 2 + e, wrapping around 16 bits.
proof fn lemma_relative_wrap(pc: u16, e: i8)
    ensures
        advance(relative_target(pc, e), 2) == (pc + 2 + e) % 65536,
        advance(pc, 2) == (pc + 2) % 65536,
{
    let x = pc + e + 65536;
    vstd::arithmetic::div_mod::lemma_add_mod_noop(x, 2, 65536);
    vstd::arithmetic::div_mod::lemma_mod_add_multiples_vanish(pc + 2 + e, 65536);
    assert(x + 2 == 65536 + (pc + 2 + e));
}

/// The step executes JR cc,e as `op_jr_cc_n16` on the condition.
proof fn lemma_dispatch_jr(s: CpuView, c: InstructionCondition, e: i8)
    requires
        s.next_instruction == Instructions::JR(InstParam::ConditionCodes(c), InstParam::SignedNumber8Bit(e)),
    ensures
        s.op_dispatch() == done(s.op_jr_cc_n16(s.condition_holds(c), e)),
{
    reveal(CpuView::op_dispatch);
}

/// A conditional absolute jump JP cc,n16: the step leaves PC at `target`
/// when the condition holds on F, and at PC + 3 otherwise.
pub proof fn law_conditional_jump(s: CpuView, c: InstructionCondition, target: u16)
    requires
        s.regs.len() == 12,
        s.pending_interrupt(true) is None,
        s.next_instruction == Instructions::JP(InstParam::ConditionCodes(c), InstParam::Number16Bit(target)),
    ensures
        s.op_step().0.pc() == if flags_meet(s.flags(), c) { target as int } else { (s.pc() + 3) % 65536 },
{
    reveal(CpuView::op_dispatch);
    let s0 = s.step_start();
    law_conditions(s0, c);
    lemma_reg16_of_set(s0, Register16Bit::PC, if s0.condition_holds(c) { target } else { ((s0.pc() + 3) % 65536) as u16 });
}

/// A conditional call CALL cc,n16: the step leaves PC at `target` when the
/// condition holds on F, and at PC + 3 otherwise.
pub proof fn law_conditional_call(s: CpuView, c: InstructionCondition, target: u16)
    requires
        s.regs.len() == 12,
        s.pending_interrupt(true) is None,
        s.next_instruction == Instructions::CALL(InstParam::ConditionCodes(c), InstParam::Number16Bit(target)),
    ensures
        s.op_step().0.pc() == if flags_meet(s.flags(), c) { target as int } else { (s.pc() + 3) % 65536 },
{
    reveal(CpuView::op_dispatch);
    let s0 = s.step_start();
    law_conditions(s0, c);
    if s0.condition_holds(c) {
        let pushed = s0.push_word(((s0.pc() + 3) % 65536) as u16);
        assert(pushed.regs.len() == 12);
        lemma_reg16_of_set(pushed, Register16Bit::PC, target);
    } else {
        lemma_reg16_of_set(s0, Register16Bit::PC, ((s0.pc() + 3) % 65536) as u16);
    }
}

/// A conditional return RET cc: the step leaves PC at the word on top of
/// the stack (low byte at SP) when the condition holds on F, and at PC + 1
/// otherwise.
pub proof fn law_conditional_return(s: CpuView, c: InstructionCondition)
    requires
        s.regs.len() == 12,
        s.pending_interrupt(true) is None,
        s.next_instruction == Instructions::RET(InstParam::ConditionCodes(c)),
    ensures
        s.op_step().0.pc() == if flags_meet(s.flags(), c) {
            s.read(s.sp()) + 256 * s.read(inc16(s.sp()))
        } else {
            (s.pc() + 1) % 65536
        },
{
    reveal(CpuView::op_dispatch);
    let s0 = s.step_start();
    law_conditions(s0, c);
    if s0.condition_holds(c) {
        let (popped, value) = s0.pop_word();
        assert(popped.regs.len() == 12);
        lemma_reg16_of_set(popped, Register16Bit::PC, value);
    } else {
        lemma_reg16_of_set(s0, Register16Bit::PC, ((s0.pc() + 1) % 65536) as u16);
    }
}

/// ADD HL,r16 stores the 16-bit sum of HL and the register in HL (wrapping
/// around 16 bits), sets C on a carry out of bit 15 and H on a carry out of
/// bit 11, clears N, leaves Z, and changes no other register.
pub proof fn law_add_hl(s: CpuView, r: Register16Bit)
    requires
        s.regs.len() == 12,
    ensures
        ({
            let (t, res) = s.op_add_hl_r16(r);
            let sum = s.reg16(Register16Bit::HL) + s.reg16(r);
            &&& t.reg16(Register16Bit::HL) == sum % 65536
            &&& res.condition_codes.carry == if sum >= 65536 { FlagState::Raised } else { FlagState::Unset }
            &&& res.condition_codes.half_carry == if s.reg16(Register16Bit::HL) % 4096 + s.reg16(r) % 4096 >= 4096 {
                FlagState::Raised
            } else {
                FlagState::Unset
            }
            &&& res.condition_codes.subtract == FlagState::Unset
            &&& res.condition_codes.zero == FlagState::NotAffected
            &&& t.reg8(Register8Bit::A) == s.reg8(Register8Bit::A)
            &&& t.flags() == s.flags()
            &&& t.reg16(Register16Bit::BC) == s.reg16(Register16Bit::BC)
            &&& t.reg16(Register16Bit::DE) == s.reg16(Register16Bit::DE)
            &&& t.reg16(Register16Bit::SP) == s.reg16(Register16Bit::SP)
            &&& t.reg16(Register16Bit::PC) == s.reg16(Register16Bit::PC)
            &&& t.mem == s.mem
        }),
{
    let sum = s.hl() + s.reg16(r);
    lemma_reg16_of_set(s, Register16Bit::HL, (sum % 65536) as u16);
}

/// The loads through the high page address 0xFF00 plus an 8-bit offset:
/// LDH A,[C] and LDH A,[a8] load A from 0xFF00 + C and 0xFF00 + a8, and
/// LDH [C],A and LDH [a8],A store A there, where a later read finds it
/// (for the addresses without side effects); no other register changes.
pub proof fn law_high_page_loads(s: CpuView, a8: u8)
    requires
        s.regs.len() == 12,
        s.mem.wf(),
    ensures
        ({
            let c = s.reg8(Register8Bit::C);
            let a = s.reg8(Register8Bit::A);
            let at_c = (0xFF00 + c) as u16;
            let at_a8 = (0xFF00 + a8) as u16;
            &&& 0xFF00 <= at_c && at_c == 0xFF00 + c
            &&& 0xFF00 <= at_a8 && at_a8 == 0xFF00 + a8
            &&& s.op_ldh_a_c().0.reg8(Register8Bit::A) == s.mem.read(at_c)
            &&& s.op_ldh_a_c().0.reg8(Register8Bit::C) == c
            &&& s.op_ldh_a_a8(a8).0.reg8(Register8Bit::A) == s.mem.read(at_a8)
            &&& s.mem.is_plain(at_c) ==> s.op_ldh_c_a().0.mem.read(at_c) == a
            &&& s.mem.is_plain(at_a8) ==> s.op_ldh_a8_a(a8).0.mem.read(at_a8) == a
            &&& s.op_ldh_c_a().0.regs == s.regs
            &&& s.op_ldh_a8_a(a8).0.regs == s.regs
        }),
{
    let c = s.reg8(Register8Bit::C);
    let a = s.reg8(Register8Bit::A);
    if s.mem.is_plain((0xFF00 + c) as u16) {
        law_read_after_write(s.mem, (0xFF00 + c) as u16, a);
    }
    if s.mem.is_plain((0xFF00 + a8) as u16) {
        law_read_after_write(s.mem, (0xFF00 + a8) as u16, a);
    }
}

/// The condition of the conditional jumps, calls and returns in column
/// `k` of their rows: NZ, Z, NC, C.
pub open spec fn condition_column(k: u8) -> InstructionCondition {
    if k == 0 {
        InstructionCondition::NotZero
    } else if k == 1 {
        InstructionCondition::Zero
    } else if k == 2 {
        InstructionCondition::NotCarry
    } else {
        InstructionCondition::Carry
    }
}

/// The register pair of rows 0x0 to 0x3 for the 16-bit loads, increments,
/// decrements and additions: BC, DE, HL, SP.
pub open spec fn pair_row(j: u8) -> Register16Bit {
    if j == 0 {
        Register16Bit::BC
    } else if j == 1 {
        Register16Bit::DE
    } else if j == 2 {
        Register16Bit::HL
    } else {
        Register16Bit::SP
    }
}

/// The register pair of rows 0xC to 0xF for PUSH and POP: BC, DE, HL, AF.
pub open spec fn stack_row(j: u8) -> Register16Bit {
    if j == 0 {
        Register16Bit::BC
    } else if j == 1 {
        Register16Bit::DE
    } else if j == 2 {
        Register16Bit::HL
    } else {
        Register16Bit::AF
    }
}

/// The regular columns of the unprefixed table outside the load and
/// arithmetic blocks: INC, DEC and LD r,n8 of the operand of bits 5..3 at
/// 0x04, 0x05 and 0x06 plus 8 * k; RST to 8 * k at 0xC7 + 8 * k; the
/// conditional JR, RET, JP and CALL at 0x20, 0xC0, 0xC2 and 0xC4 plus
/// 8 * k for NZ, Z, NC, C.
pub proof fn law_unprefixed_columns(k: u8, n8: u8, n16: u16)
    requires
        k < 8,
    ensures
        unprefixed_instruction((0x04 + 8 * k) as u8, n8, n16)
            == Instructions::INC(operand_column(k), InstParam::Boolean(k == 6)),
        unprefixed_instruction((0x05 + 8 * k) as u8, n8, n16)
            == Instructions::DEC(operand_column(k), InstParam::Boolean(k == 6)),
        unprefixed_instruction((0x06 + 8 * k) as u8, n8, n16)
            == Instructions::LD(operand_column(k), InstParam::Number8Bit(n8)),
        unprefixed_instruction((0xC7 + 8 * k) as u8, n8, n16) == Instructions::RST(InstParam::Number8Bit((8 * k) as u8)),
        k < 4 ==> unprefixed_instruction((0x20 + 8 * k) as u8, n8, n16)
            == Instructions::JR(InstParam::ConditionCodes(condition_column(k)), InstParam::SignedNumber8Bit(n8 as i8)),
        k < 4 ==> unprefixed_instruction((0xC0 + 8 * k) as u8, n8, n16)
            == Instructions::RET(InstParam::ConditionCodes(condition_column(k))),
        k < 4 ==> unprefixed_instruction((0xC2 + 8 * k) as u8, n8, n16)
            == Instructions::JP(InstParam::ConditionCodes(condition_column(k)), InstParam::Number16Bit(n16)),
        k < 4 ==> unprefixed_instruction((0xC4 + 8 * k) as u8, n8, n16)
            == Instructions::CALL(InstParam::ConditionCodes(condition_column(k)), InstParam::Number16Bit(n16)),
{
    if k == 0 {} else if k == 1 {} else if k == 2 {} else if k == 3 {}
    else if k == 4 {} else if k == 5 {} else if k == 6 {} else {}
}

/// The regular rows of the 16-bit operations: at 0x01, 0x03, 0x0B and 0x09
/// plus 16 * j, LD rr,n16, INC rr, DEC rr and ADD HL,rr of BC, DE, HL, SP;
/// at 0xC1 and 0xC5 plus 16 * j, POP and PUSH of BC, DE, HL, AF.
pub proof fn law_unprefixed_pair_rows(j: u8, n8: u8, n16: u16)
    requires
        j < 4,
    ensures
        unprefixed_instruction((0x01 + 16 * j) as u8, n8, n16)
            == Instructions::LD(InstParam::Register16Bit(pair_row(j)), InstParam::Number16Bit(n16)),
        unprefixed_instruction((0x03 + 16 * j) as u8, n8, n16)
            == Instructions::INC(InstParam::Register16Bit(pair_row(j)), InstParam::Boolean(false)),
        unprefixed_instruction((0x0B + 16 * j) as u8, n8, n16)
            == Instructions::DEC(InstParam::Register16Bit(pair_row(j)), InstParam::Boolean(false)),
        unprefixed_instruction((0x09 + 16 * j) as u8, n8, n16) == Instructions::ADD_HL(InstParam::Register16Bit(pair_row(j))),
        unprefixed_instruction((0xC1 + 16 * j) as u8, n8, n16) == Instructions::POP(InstParam::Register16Bit(stack_row(j))),
        unprefixed_instruction((0xC5 + 16 * j) as u8, n8, n16) == Instructions::PUSH(InstParam::Register16Bit(stack_row(j))),
{
    if j == 0 {} else if j == 1 {} else if j == 2 {} else {}
}

/// PUSH rr (BC, DE, HL) moves SP down by two and stores the register's high
/// byte at SP + 1 and its low byte at SP (the new SP), where later reads
/// find them when the two stack bytes are plain memory; the register keeps
/// its value.
pub proof fn law_push_layout(s: CpuView, r: Register16Bit)
    requires
        s.wf(),
        s.stack_is_plain(),
        is_pushable(r),
    ensures
        ({
            let t = s.op_push_r16(r).0;
            let sp = s.reg16(Register16Bit::SP);
            let high_at = (sp + 65535) % 65536;
            let low_at = (sp + 65534) % 65536;
            &&& t.reg16(Register16Bit::SP) == low_at
            &&& t.read(high_at as u16) == s.reg16(r) / 256
            &&& t.read(low_at as u16) == s.reg16(r) % 256
            &&& t.reg16(r) == s.reg16(r)
        }),
{
    let sp = s.sp();
    let a1 = dec16(sp);
    let a2 = dec16(a1);
    let high = s.regs[r.slot()];
    let low = s.regs[r.slot() + 1];
    let s1 = s.set_reg16(Register16Bit::SP, a1);
    lemma_reg16_of_set(s, Register16Bit::SP, a1);
    let s2 = s1.write(a1, high);
    law_read_after_write(s1.mem, a1, high);
    let s3 = s2.set_reg16(Register16Bit::SP, a2);
    lemma_reg16_of_set(s2, Register16Bit::SP, a2);
    let s4 = s3.write(a2, low);
    law_read_after_write(s3.mem, a2, low);
    law_write_keeps_other_addresses(s3.mem, a2, a1, low);
    assert(s4 == s.op_push_r16(r).0);
    assert(a2 == (sp + 65534) % 65536);
    assert(s.reg16(r) == high * 256 + low);
}

/// POP rr (BC, DE, HL) loads the register with the byte at SP plus 256
/// times the byte at SP + 1 and moves SP up by two.
pub proof fn law_pop_value(s: CpuView, r: Register16Bit)
    requires
        s.regs.len() == 12,
        is_pushable(r),
    ensures
        ({
            let t = s.op_pop_r16(r).0;
            let sp = s.reg16(Register16Bit::SP);
            &&& t.reg16(r) == s.read(sp) + 256 * s.read(((sp + 1) % 65536) as u16)
            &&& t.reg16(Register16Bit::SP) == (sp + 2) % 65536
        }),
{
    let (popped, value) = s.pop_word();
    lemma_reg16_of_set(s, Register16Bit::SP, inc16(inc16(s.sp())));
    lemma_reg16_of_set(popped, r, value);
}

/// The loads through HL that step it: LD A,[HL+] and LD A,[HL-] load A from
/// the byte at HL; LD [HL+],A and LD [HL-],A store A there (read back when
/// HL is plain memory); the + forms then add one to HL and the - forms
/// take one away, around 65536.
pub proof fn law_hl_stepping_loads(s: CpuView)
    requires
        s.wf(),
    ensures
        ({
            let hl = s.reg16(Register16Bit::HL);
            let a = s.reg8(Register8Bit::A);
            let up = if hl == 65535 { 0 } else { hl + 1 };
            let down = if hl == 0 { 65535 } else { hl - 1 };
            &&& s.op_ld_a_hli().0.reg8(Register8Bit::A) == s.read(hl)
            &&& s.op_ld_a_hli().0.reg16(Register16Bit::HL) == up
            &&& s.op_ld_a_hld().0.reg8(Register8Bit::A) == s.read(hl)
            &&& s.op_ld_a_hld().0.reg16(Register16Bit::HL) == down
            &&& s.op_ld_hli_a().0.reg16(Register16Bit::HL) == up
            &&& s.op_ld_hld_a().0.reg16(Register16Bit::HL) == down
            &&& s.mem.is_plain(hl) ==> s.op_ld_hli_a().0.read(hl) == a
            &&& s.mem.is_plain(hl) ==> s.op_ld_hld_a().0.read(hl) == a
        }),
{
    let hl = s.hl();
    let a = s.reg8(Register8Bit::A);
    let loaded = s.set_reg8(Register8Bit::A, s.read(hl));
    assert(loaded.regs.len() == 12);
    lemma_reg16_of_set(loaded, Register16Bit::HL, ((hl + 1) % 65536) as u16);
    lemma_reg16_of_set(loaded, Register16Bit::HL, ((hl + 65535) % 65536) as u16);
    let stored = s.write(hl, a);
    lemma_reg16_of_set(stored, Register16Bit::HL, ((hl + 1) % 65536) as u16);
    lemma_reg16_of_set(stored, Register16Bit::HL, ((hl + 65535) % 65536) as u16);
    if s.mem.is_plain(hl) {
        law_read_after_write(s.mem, hl, a);
    }
}

/// RST v jumps to address v and leaves the address after the RST (PC + 1)
/// on the stack: its high byte at SP - 1 and its low byte at SP - 2, the
/// new SP (when those bytes are plain memory). JP HL jumps to HL.
pub proof fn law_restart_and_jump_hl(s: CpuView, v: u8)
    requires
        s.wf(),
        s.stack_is_plain(),
    ensures
        ({
            let t = s.op_rst_vec(v).0;
            let sp = s.reg16(Register16Bit::SP);
            let back = (s.reg16(Register16Bit::PC) + 1) % 65536;
            &&& t.reg16(Register16Bit::PC) == v
            &&& t.reg16(Register16Bit::SP) == (sp + 65534) % 65536
            &&& t.read(((sp + 65535) % 65536) as u16) == back / 256
            &&& t.read(((sp + 65534) % 65536) as u16) == back % 256
            &&& s.op_jp_hl().0.reg16(Register16Bit::PC) == s.reg16(Register16Bit::HL)
        }),
{
    let sp = s.sp();
    let back = ((s.pc() + 1) % 65536) as u16;
    let high = (back / 256) as u8;
    let low = (back % 256) as u8;
    let a1 = dec16(sp);
    let a2 = dec16(a1);
    let s1 = s.set_reg16(Register16Bit::SP, a1);
    lemma_reg16_of_set(s, Register16Bit::SP, a1);
    let s2 = s1.write(a1, high);
    law_read_after_write(s1.mem, a1, high);
    let s3 = s2.set_reg16(Register16Bit::SP, a2);
    lemma_reg16_of_set(s2, Register16Bit::SP, a2);
    let s4 = s3.write(a2, low);
    law_read_after_write(s3.mem, a2, low);
    law_write_keeps_other_addresses(s3.mem, a2, a1, low);
    assert(s4 == s.push_word(back));
    lemma_reg16_of_set(s4, Register16Bit::PC, v as u16);
    lemma_reg16_of_set(s, Register16Bit::PC, s.hl());
}

} // verus!
