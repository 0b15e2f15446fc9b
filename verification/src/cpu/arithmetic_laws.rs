//! What the arithmetic, the increments and the shifts compute, stated as
//! equations between the old value, the new value and the carry, in whole
//! numbers.
use vstd::prelude::*;

use super::instructions::arithmetic_and_logic::cp::sub_half_carry;
use super::instructions::bit_operations::swap_nibbles;
use super::instructions::bit_shift::rl::rotate_left;
use super::instructions::bit_shift::rr::rotate_right;
use super::instructions::bit_shift::sl::shift_left;
use super::instructions::bit_shift::sr::shift_right;
use super::instructions::{ConditionCodes, FlagState};
use super::opcode_laws::{flags_meet, law_conditions};
use super::registers::{Register16Bit, Register8Bit};
use super::instructions::InstructionCondition;
use super::{lemma_reg16_of_set, CpuView};

verus! {

/// 1 for a raised flag, 0 otherwise.
pub open spec fn raised(state: FlagState) -> int {
    if state == FlagState::Raised { 1 } else { 0 }
}

/// Whether a condition code sets the flag one way or the other.
pub open spec fn decides(state: FlagState) -> bool {
    state == FlagState::Raised || state == FlagState::Unset
}

/// The carry that ADC and SBC take in: 1 when asked for and C is set in F.
pub open spec fn carry_in(s: CpuView, with_carry: bool) -> int {
    if with_carry && flags_meet(s.flags(), InstructionCondition::Carry) { 1 } else { 0 }
}

/// ADD A,n / ADC A,n: the new A plus 256 times the carry out equals A plus
/// the value plus the carry taken in; H is set exactly when the low
/// nibbles (with the carry in) reach 16, Z exactly when the new A is 0, and
/// N is cleared.
pub proof fn law_add_a(s: CpuView, value: u8, with_carry: bool)
    requires
        s.regs.len() == 12,
    ensures
        ({
            let a = s.reg8(Register8Bit::A);
            let cin = carry_in(s, with_carry);
            let (t, res) = s.op_adx_a_n8(value, with_carry);
            let r = t.reg8(Register8Bit::A);
            let cc = res.condition_codes;
            &&& decides(cc.carry)
            &&& r + 256 * raised(cc.carry) == a + value + cin
            &&& cc.half_carry == if a % 16 + value % 16 + cin >= 16 { FlagState::Raised } else { FlagState::Unset }
            &&& cc.zero == if r == 0 { FlagState::Raised } else { FlagState::Unset }
            &&& cc.subtract == FlagState::Unset
        }),
{
    law_conditions(s, InstructionCondition::Carry);
}

/// SUB A,n / SBC A,n: the new A equals A minus the value minus the carry
/// taken in, plus 256 when that borrows (C set); H is set exactly when the
/// low nibble of A is below that of the value plus the carry in; Z exactly
/// when the new A is 0; N is set.
pub proof fn law_sub_a(s: CpuView, value: u8, with_carry: bool)
    requires
        s.regs.len() == 12,
    ensures
        ({
            let a = s.reg8(Register8Bit::A);
            let cin = carry_in(s, with_carry);
            let (t, res) = s.op_sub(value, 2, 2, with_carry);
            let r = t.reg8(Register8Bit::A);
            let cc = res.condition_codes;
            &&& decides(cc.carry)
            &&& r == a - value - cin + 256 * raised(cc.carry)
            &&& cc.half_carry == if a % 16 < value % 16 + cin { FlagState::Raised } else { FlagState::Unset }
            &&& cc.zero == if r == 0 { FlagState::Raised } else { FlagState::Unset }
            &&& cc.subtract == FlagState::Raised
        }),
{
    law_conditions(s, InstructionCondition::Carry);
    let a = s.reg8(Register8Bit::A);
    let c: u8 = if with_carry && s.carry_flag() { 1 } else { 0 };
    let d = ((a - value + 256) % 256) as u8;
    let result = ((d - c + 256) % 256) as u8;
    assert(sub_half_carry(a, value, result) == (a % 16 < value % 16 + c)) by (bit_vector)
        requires
            c <= 1,
            d == ((a - value + 256) % 256) as u8,
            result == ((d - c + 256) % 256) as u8;
}

/// INC and DEC of an 8-bit register step it by one around 256: INC sets H
/// exactly when the low nibble was 0xF and clears N, DEC sets H exactly
/// when the low nibble was 0 and sets N; Z tells whether the new value is
/// 0 and C is left alone.
pub proof fn law_inc_dec_r8(s: CpuView, r: Register8Bit)
    requires
        s.regs.len() == 12,
    ensures
        ({
            let v = s.reg8(r);
            let (up, inc) = s.op_inc_r8(r);
            let (down, dec) = s.op_dec_r8(r);
            &&& up.reg8(r) == if v == 255 { 0 } else { v + 1 }
            &&& down.reg8(r) == if v == 0 { 255 } else { v - 1 }
            &&& inc.condition_codes.half_carry == if v % 16 == 15 { FlagState::Raised } else { FlagState::Unset }
            &&& dec.condition_codes.half_carry == if v % 16 == 0 { FlagState::Raised } else { FlagState::Unset }
            &&& inc.condition_codes.zero == if up.reg8(r) == 0 { FlagState::Raised } else { FlagState::Unset }
            &&& dec.condition_codes.zero == if down.reg8(r) == 0 { FlagState::Raised } else { FlagState::Unset }
            &&& inc.condition_codes.subtract == FlagState::Unset
            &&& dec.condition_codes.subtract == FlagState::Raised
            &&& inc.condition_codes.carry == FlagState::NotAffected
            &&& dec.condition_codes.carry == FlagState::NotAffected
        }),
{
}

/// INC and DEC of a 16-bit register step it by one around 65536 and
/// affect no flag.
pub proof fn law_inc_dec_r16(s: CpuView, r: Register16Bit)
    requires
        s.regs.len() == 12,
    ensures
        ({
            let v = s.reg16(r);
            let (up, inc) = s.op_inc_r16(r);
            let (down, dec) = s.op_dec_r16(r);
            &&& up.reg16(r) == if v == 65535 { 0 } else { v + 1 }
            &&& down.reg16(r) == if v == 0 { 65535 } else { v - 1 }
            &&& inc.condition_codes == ConditionCodes {
                zero: FlagState::NotAffected, subtract: FlagState::NotAffected,
                half_carry: FlagState::NotAffected, carry: FlagState::NotAffected,
            }
            &&& dec.condition_codes == inc.condition_codes
        }),
{
    let v = s.reg16(r);
    lemma_reg16_of_set(s, r, ((v + 1) % 65536) as u16);
    lemma_reg16_of_set(s, r, ((v + 65535) % 65536) as u16);
}

/// The shifts and rotations of a byte `v` (with `cin` the carry taken in),
/// each as an equation between the old byte, the new byte `n` and the
/// carry out `c`: SLA n + 256c = 2v; SRL 2n + c = v; SRA 2n + c = v plus
/// 256 when bit 7 is set (bit 7 is kept); RLC n + 256c = 2v + c; RL
/// n + 256c = 2v + cin; RRC 2n + c = v + 256c; RR 2n + c = v + 256cin;
/// SWAP exchanges the nibbles.
pub proof fn law_shifts(v: u8, carry: bool)
    ensures
        ({
            let cin: int = if carry { 1 } else { 0 };
            let top: int = if v >= 128 { 1 } else { 0 };
            let (sla_cc, sla) = shift_left(v);
            let (srl_cc, srl) = shift_right(v, false);
            let (sra_cc, sra) = shift_right(v, true);
            let (rlc_cc, rlc) = rotate_left(v, carry, false, true);
            let (rl_cc, rl) = rotate_left(v, carry, true, true);
            let (rrc_cc, rrc) = rotate_right(v, carry, false, true);
            let (rr_cc, rr) = rotate_right(v, carry, true, true);
            &&& decides(sla_cc.carry) && sla + 256 * raised(sla_cc.carry) == 2 * v
            &&& decides(srl_cc.carry) && 2 * srl + raised(srl_cc.carry) == v
            &&& decides(sra_cc.carry) && 2 * sra + raised(sra_cc.carry) == v + 256 * top
            &&& decides(rlc_cc.carry) && rlc + 256 * raised(rlc_cc.carry) == 2 * v + raised(rlc_cc.carry)
            &&& decides(rl_cc.carry) && rl + 256 * raised(rl_cc.carry) == 2 * v + cin
            &&& decides(rrc_cc.carry) && 2 * rrc + raised(rrc_cc.carry) == v + 256 * raised(rrc_cc.carry)
            &&& decides(rr_cc.carry) && 2 * rr + raised(rr_cc.carry) == v + 256 * cin
            &&& swap_nibbles(v) == 16 * (v % 16) + v / 16
        }),
{
    let b: u8 = if carry { 1 } else { 0 };
    let c7: u8 = if v & 0x80 != 0 { 1 } else { 0 };
    let c0: u8 = if v & 1 != 0 { 1 } else { 0 };
    let hi: u8 = if v & 0x80 != 0 { 128 } else { 0 };
    let lo_in: u8 = if v & 1 != 0 { 128 } else { 0 };
    let b_in: u8 = if b == 1 { 128 } else { 0 };
    assert({
        &&& (v & 0x80 != 0) == (v >= 128)
        &&& (v << 1u8) as int + 256 * c7 == 2 * v
        &&& 2 * ((v >> 1u8) as int) + c0 == v
        &&& 2 * (((v >> 1u8) | hi) as int) + c0 == v + 256 * c7
        &&& ((v << 1u8) | c7) as int + 256 * c7 == 2 * v + c7
        &&& ((v << 1u8) | b) as int + 256 * c7 == 2 * v + b
        &&& 2 * (((v >> 1u8) | lo_in) as int) + c0 == v + 256 * c0
        &&& 2 * (((v >> 1u8) | b_in) as int) + c0 == v + 256 * b
    }) by (bit_vector)
        requires
            b <= 1,
            c7 == if v & 0x80 != 0 { 1u8 } else { 0u8 },
            c0 == if v & 1 != 0 { 1u8 } else { 0u8 },
            hi == if v & 0x80 != 0 { 128u8 } else { 0u8 },
            lo_in == if v & 1 != 0 { 128u8 } else { 0u8 },
            b_in == if b == 1 { 128u8 } else { 0u8 };
    assert(shift_left(v).1 == v << 1u8);
    assert(raised(shift_left(v).0.carry) == c7);
    assert(shift_right(v, false).1 == (v >> 1u8) | 0u8);
    assert((v >> 1u8) | 0u8 == v >> 1u8) by (bit_vector);
    assert(raised(shift_right(v, false).0.carry) == c0);
    assert(shift_right(v, true).1 == (v >> 1u8) | hi);
    assert(rotate_left(v, carry, false, true).1 == (v << 1u8) | c7);
    assert(rotate_left(v, carry, true, true).1 == (v << 1u8) | b);
    assert(rotate_right(v, carry, false, true).1 == (v >> 1u8) | lo_in);
    assert(rotate_right(v, carry, true, true).1 == (v >> 1u8) | b_in);
}

} // verus!
