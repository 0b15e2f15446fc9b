//! The instruction set: decoded instructions and the outcome of executing one.
use vstd::prelude::*;

use super::registers::{Register16Bit, Register8Bit};

pub mod arithmetic_and_logic;
pub mod bit_operations;
pub mod bit_shift;
pub mod jumps_subroutines;
pub mod load;
pub mod misc;
pub mod stack_operations;

verus! {

/// The state of a flag after an instruction.
#[derive(Debug, PartialEq, Eq, Structural, Clone, Copy)]
pub enum FlagState {
    /// The flag is set.
    Raised,
    /// The flag is cleared.
    Unset,
    /// The flag keeps its value.
    NotAffected,
}

/// The condition codes after an instruction: zero (Z), subtract (N),
/// half carry (H) and carry (C).
#[derive(Debug, PartialEq, Eq, Structural, Clone, Copy)]
pub struct ConditionCodes {
    pub zero: FlagState,
    pub subtract: FlagState,
    pub half_carry: FlagState,
    pub carry: FlagState,
}

/// The result of an instruction: machine cycles taken, instruction length
/// in bytes, and the condition codes it produces.
#[derive(Debug, PartialEq, Eq, Structural, Clone, Copy)]
pub struct InstructionResult {
    pub cycles: u8,
    pub bytes: u8,
    pub condition_codes: ConditionCodes,
}

/// `Raised` for true, `Unset` for false.
pub open spec fn flag_state(b: bool) -> FlagState {
    if b {
        FlagState::Raised
    } else {
        FlagState::Unset
    }
}

/// `Raised` for true, `Unset` for false.
pub fn flag_from(b: bool) -> (r: FlagState)
    ensures
        r == flag_state(b),
{
    if b {
        FlagState::Raised
    } else {
        FlagState::Unset
    }
}

/// Condition codes built from four flag states.
pub open spec fn codes(zero: FlagState, subtract: FlagState, half_carry: FlagState, carry: FlagState) -> ConditionCodes {
    ConditionCodes { zero, subtract, half_carry, carry }
}

/// Condition codes that leave every flag alone.
pub open spec fn unaffected() -> ConditionCodes {
    codes(FlagState::NotAffected, FlagState::NotAffected, FlagState::NotAffected, FlagState::NotAffected)
}

/// Condition codes that leave every flag alone.
pub fn unaffected_codes() -> (r: ConditionCodes)
    ensures
        r == unaffected(),
{
    ConditionCodes {
        zero: FlagState::NotAffected,
        subtract: FlagState::NotAffected,
        half_carry: FlagState::NotAffected,
        carry: FlagState::NotAffected,
    }
}

/// An instruction result.
pub open spec fn outcome(cycles: u8, bytes: u8, condition_codes: ConditionCodes) -> InstructionResult {
    InstructionResult { cycles, bytes, condition_codes }
}

impl InstructionResult {
    /// The result of no instruction: zero cycles, zero bytes, no flag affected.
    pub open spec fn spec_default() -> InstructionResult {
        outcome(0, 0, unaffected())
    }

    /// The result of no instruction: zero cycles, zero bytes, no flag affected.
    pub fn default() -> (r: InstructionResult)
        ensures
            r == InstructionResult::spec_default(),
    {
        InstructionResult { cycles: 0, bytes: 0, condition_codes: unaffected_codes() }
    }
}

/// The conditions of conditional jumps, calls and returns.
#[derive(Debug, PartialEq, Eq, Structural, Clone, Copy)]
pub enum InstructionCondition {
    Zero,
    NotZero,
    Subtract,
    NotSubtract,
    Halfcarry,
    NotHalfcarry,
    Carry,
    NotCarry,
    /// Unconditional.
    SkipConditionCodes,
}

/// The operands of an instruction.
#[derive(Debug, PartialEq, Eq, Structural, Clone, Copy)]
pub enum InstParam {
    Register8Bit(Register8Bit),
    Register16Bit(Register16Bit),
    ConditionCodes(InstructionCondition),
    Number8Bit(u8),
    SignedNumber8Bit(i8),
    Number16Bit(u16),
    Offset,
    Unsigned3Bit(u8),
    Boolean(bool),
}

/// The decoded instructions.
#[allow(non_camel_case_types)]
#[derive(Debug, PartialEq, Eq, Structural, Clone, Copy)]
pub enum Instructions {
    ADD(InstParam),
    ADD_HL(InstParam),
    ADC(InstParam),
    SUB(InstParam),
    SBC(InstParam),
    AND(InstParam),
    XOR(InstParam),
    OR(InstParam),
    CP(InstParam),
    /// Increment; the second operand tells whether a 16-bit HL operand
    /// means the byte at [HL].
    INC(InstParam, InstParam),
    /// Decrement; the second operand tells whether a 16-bit HL operand
    /// means the byte at [HL].
    DEC(InstParam, InstParam),
    LD(InstParam, InstParam),
    LDH(InstParam, InstParam),
    LDHLIA,
    LDHLDA,
    LDAHLI,
    LDAHLD,
    BIT(InstParam, InstParam),
    RES(InstParam, InstParam),
    SET(InstParam, InstParam),
    SWAP(InstParam),
    RL(InstParam),
    RLC(InstParam),
    RR(InstParam),
    RRC(InstParam),
    SLA(InstParam),
    SRA(InstParam),
    SRL(InstParam),
    PUSH(InstParam),
    POP(InstParam),
    CALL(InstParam, InstParam),
    JP(InstParam, InstParam),
    JR(InstParam, InstParam),
    RET(InstParam),
    RETI,
    RST(InstParam),
    RLCA,
    RLA,
    RRCA,
    RRA,
    DAA,
    CPL,
    SCF,
    CCF,
    HALT,
    STOP,
    DI,
    EI,
    NOP,
    /// An opcode that no instruction is assigned to.
    INVALID(u8),
}

} // verus!
