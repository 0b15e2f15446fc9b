//! Executing one instruction: dispatch, program counter, flags, IME and cycles.
use vstd::prelude::*;

use super::flags::{CARRY_FLAG, HALF_CARRY_FLAG, SUBTRACTION_FLAG, ZERO_FLAG};
use super::instructions::jumps_subroutines::advance;
use super::instructions::stack_operations::is_pushable;
use super::instructions::{ConditionCodes, FlagState, InstParam, InstructionCondition, InstructionResult, Instructions};
use super::registers::{Register16Bit, Register8Bit};
use super::{CpuView, CPU};
use crate::mmu::MemoryOperations;

verus! {

/// The text of `prefix`, the debug form of an operand, then `suffix`.
pub uninterp spec fn param_message(prefix: Seq<char>, param: InstParam, suffix: Seq<char>) -> Seq<char>;

/// The debug form of an 8-bit register: the name of its variant.
pub open spec fn register8_name(register: Register8Bit) -> Seq<char> {
    match register {
        Register8Bit::A => seq!['A'],
        Register8Bit::B => seq!['B'],
        Register8Bit::C => seq!['C'],
        Register8Bit::D => seq!['D'],
        Register8Bit::E => seq!['E'],
        Register8Bit::H => seq!['H'],
        Register8Bit::L => seq!['L'],
    }
}

/// The debug form of a 16-bit register: the name of its variant.
pub open spec fn register16_name(register: Register16Bit) -> Seq<char> {
    match register {
        Register16Bit::AF => seq!['A', 'F'],
        Register16Bit::BC => seq!['B', 'C'],
        Register16Bit::DE => seq!['D', 'E'],
        Register16Bit::HL => seq!['H', 'L'],
        Register16Bit::SP => seq!['S', 'P'],
        Register16Bit::PC => seq!['P', 'C'],
    }
}

/// The text of `prefix`, the debug form of an 8-bit register, then `suffix`.
pub open spec fn register8_message(prefix: Seq<char>, register: Register8Bit, suffix: Seq<char>) -> Seq<char> {
    prefix + register8_name(register) + suffix
}

/// The text of `prefix`, the debug form of a 16-bit register, then `suffix`.
pub open spec fn register16_message(prefix: Seq<char>, register: Register16Bit, suffix: Seq<char>) -> Seq<char> {
    prefix + register16_name(register) + suffix
}

/// The text of `prefix`, the debug form of an instruction, then `suffix`.
pub uninterp spec fn instruction_message(prefix: Seq<char>, instruction: Instructions, suffix: Seq<char>) -> Seq<char>;

/// `format!("{}{:?}{}", ..)` of an operand (std's formatting of the derived
/// `Debug`); the text is named by `param_message` and not spelled out.
#[verifier::external_body]
fn format_param_message(prefix: &str, param: &InstParam, suffix: &str) -> (r: String)
    ensures
        r@ == param_message(prefix@, *param, suffix@),
{
    format!("{}{:?}{}", prefix, param, suffix)
}

/// The name of an 8-bit register.
fn register8_name_str(register: &Register8Bit) -> (r: &'static str)
    ensures
        r@ == register8_name(*register),
{
    match register {
        Register8Bit::A => {
            proof { reveal_strlit("A"); }
            "A"
        },
        Register8Bit::B => {
            proof { reveal_strlit("B"); }
            "B"
        },
        Register8Bit::C => {
            proof { reveal_strlit("C"); }
            "C"
        },
        Register8Bit::D => {
            proof { reveal_strlit("D"); }
            "D"
        },
        Register8Bit::E => {
            proof { reveal_strlit("E"); }
            "E"
        },
        Register8Bit::H => {
            proof { reveal_strlit("H"); }
            "H"
        },
        Register8Bit::L => {
            proof { reveal_strlit("L"); }
            "L"
        },
    }
}

/// The name of a 16-bit register.
fn register16_name_str(register: &Register16Bit) -> (r: &'static str)
    ensures
        r@ == register16_name(*register),
{
    match register {
        Register16Bit::AF => {
            proof { reveal_strlit("AF"); }
            "AF"
        },
        Register16Bit::BC => {
            proof { reveal_strlit("BC"); }
            "BC"
        },
        Register16Bit::DE => {
            proof { reveal_strlit("DE"); }
            "DE"
        },
        Register16Bit::HL => {
            proof { reveal_strlit("HL"); }
            "HL"
        },
        Register16Bit::SP => {
            proof { reveal_strlit("SP"); }
            "SP"
        },
        Register16Bit::PC => {
            proof { reveal_strlit("PC"); }
            "PC"
        },
    }
}

/// `prefix`, the name of an 8-bit register (what its derived `Debug`
/// writes), then `suffix`.
fn format_register8_message(prefix: &str, register: &Register8Bit, suffix: &str) -> (r: String)
    ensures
        r@ == register8_message(prefix@, *register, suffix@),
{
    let mut r = String::from_str(prefix);
    r.append(register8_name_str(register));
    r.append(suffix);
    r
}

/// `prefix`, the name of a 16-bit register (what its derived `Debug`
/// writes), then `suffix`.
fn format_register16_message(prefix: &str, register: &Register16Bit, suffix: &str) -> (r: String)
    ensures
        r@ == register16_message(prefix@, *register, suffix@),
{
    let mut r = String::from_str(prefix);
    r.append(register16_name_str(register));
    r.append(suffix);
    r
}

/// `format!("{}{:?}{}", ..)` of an instruction; the text is named by
/// `instruction_message` and not spelled out.
#[verifier::external_body]
fn format_instruction_message(prefix: &str, instruction: &Instructions, suffix: &str) -> (r: String)
    ensures
        r@ == instruction_message(prefix@, *instruction, suffix@),
{
    format!("{}{:?}{}", prefix, instruction, suffix)
}

/// The suffix of every refusal message.
pub open spec fn not_implemented() -> Seq<char> {
    " not implemented"@
}

/// The refusal for an operand that the instruction cannot take.
pub open spec fn refuse(prefix: Seq<char>, param: InstParam) -> Result<InstructionResult, Seq<char>> {
    Err(param_message(prefix, param, not_implemented()))
}

/// A step's result with the error text taken as a sequence of characters.
pub open spec fn result_view(r: Result<InstructionResult, String>) -> Result<InstructionResult, Seq<char>> {
    match r {
        Ok(result) => Ok(result),
        Err(message) => Err(message@),
    }
}

/// A completed instruction as a state and a successful result.
pub open spec fn done(executed: (CpuView, InstructionResult)) -> (CpuView, Result<InstructionResult, Seq<char>>) {
    (executed.0, Ok(executed.1))
}

/// Whether executing `instruction` cannot fail by a panic: STOP is not
/// implemented, PUSH takes AF, BC, DE or HL, and BIT, RES and SET take a bit
/// below 8 whenever they reach a register or [HL].
pub open spec fn is_executable(instruction: Instructions) -> bool {
    match instruction {
        Instructions::STOP => false,
        Instructions::PUSH(InstParam::Register16Bit(r)) => r == Register16Bit::AF || is_pushable(r),
        Instructions::BIT(InstParam::Unsigned3Bit(b), InstParam::Register8Bit(_)) => b < 8,
        Instructions::BIT(InstParam::Unsigned3Bit(b), InstParam::Register16Bit(Register16Bit::HL)) => b < 8,
        Instructions::RES(InstParam::Unsigned3Bit(b), InstParam::Register8Bit(_)) => b < 8,
        Instructions::RES(InstParam::Unsigned3Bit(b), InstParam::Register16Bit(Register16Bit::HL)) => b < 8,
        Instructions::SET(InstParam::Unsigned3Bit(b), InstParam::Register8Bit(_)) => b < 8,
        Instructions::SET(InstParam::Unsigned3Bit(b), InstParam::Register16Bit(Register16Bit::HL)) => b < 8,
        _ => true,
    }
}

/// The flags register after one flag state: set, cleared or kept.
pub open spec fn apply_flag(flags: u8, state: FlagState, mask: u8) -> u8 {
    match state {
        FlagState::NotAffected => flags,
        FlagState::Raised => flags | mask,
        FlagState::Unset => flags & !mask,
    }
}

/// The flags register after the condition codes, in the order carry, half
/// carry, subtraction, zero.
pub open spec fn apply_codes(flags: u8, c: ConditionCodes) -> u8 {
    apply_flag(
        apply_flag(apply_flag(apply_flag(flags, c.carry, CARRY_FLAG), c.half_carry, HALF_CARRY_FLAG), c.subtract, SUBTRACTION_FLAG),
        c.zero,
        ZERO_FLAG,
    )
}

/// Whether the instruction sets PC itself, so that the step does not
/// advance it: JP, CALL, RST, RET and RETI.
pub open spec fn moves_pc_itself(instruction: Instructions) -> bool {
    match instruction {
        Instructions::JP(_, _) | Instructions::CALL(_, _) | Instructions::RST(_) | Instructions::RET(_) | Instructions::RETI => true,
        _ => false,
    }
}

impl CpuView {
    /// Whether a branch condition holds on the current flags.
    pub open spec fn condition_holds(self, cond: InstructionCondition) -> bool {
        match cond {
            InstructionCondition::Zero => self.zero_flag(),
            InstructionCondition::NotZero => !self.zero_flag(),
            InstructionCondition::Subtract => self.subtraction_flag(),
            InstructionCondition::NotSubtract => !self.subtraction_flag(),
            InstructionCondition::Halfcarry => self.half_carry_flag(),
            InstructionCondition::NotHalfcarry => !self.half_carry_flag(),
            InstructionCondition::Carry => self.carry_flag(),
            InstructionCondition::NotCarry => !self.carry_flag(),
            InstructionCondition::SkipConditionCodes => true,
        }
    }

    /// The state after one tick of the delayed IME enable: a pending 1 sets
    /// IME and clears the request, then a pending 2 becomes 1.
    pub open spec fn ime_updated(self) -> CpuView {
        let after_one = if self.enable_ime == 1 {
            CpuView { ime_flag: true, enable_ime: 0, ..self }
        } else {
            self
        };
        if after_one.enable_ime == 2 {
            CpuView { enable_ime: 1, ..after_one }
        } else {
            after_one
        }
    }

    /// A refusal: the state stays and the message is returned.
    pub open spec fn refused(self, message: Result<InstructionResult, Seq<char>>) -> (CpuView, Result<InstructionResult, Seq<char>>) {
        (self, message)
    }

    /// ADD with its operand.
    pub open spec fn op_execute_add(self, p: InstParam) -> (CpuView, Result<InstructionResult, Seq<char>>) {
        match p {
            InstParam::Register8Bit(r) => done(self.op_adx_a_r8(r, false)),
            InstParam::Register16Bit(r) => if r == Register16Bit::HL {
                done(self.op_adx_a_hl(false))
            } else {
                done(self.op_add_hl_r16(r))
            },
            InstParam::SignedNumber8Bit(v) => done(self.op_add_sp_e8(v)),
            InstParam::Number8Bit(v) => done(self.op_adx_a_n8(v, false)),
            _ => self.refused(refuse("ADD with "@, p)),
        }
    }

    /// ADC with its operand.
    pub open spec fn op_execute_adc(self, p: InstParam) -> (CpuView, Result<InstructionResult, Seq<char>>) {
        match p {
            InstParam::Register8Bit(r) => done(self.op_adx_a_r8(r, true)),
            InstParam::Register16Bit(_) => done(self.op_adx_a_hl(true)),
            InstParam::Number8Bit(v) => done(self.op_adx_a_n8(v, true)),
            _ => self.refused(refuse("ADD with "@, p)),
        }
    }

    /// INC with its operand and the flag that tells [HL] from HL.
    pub open spec fn op_execute_inc(self, p: InstParam, hl_memory: InstParam) -> (CpuView, Result<InstructionResult, Seq<char>>) {
        match p {
            InstParam::Register8Bit(r) => done(self.op_inc_r8(r)),
            InstParam::Register16Bit(r) => if r == Register16Bit::SP {
                done(self.op_inc_sp())
            } else if r == Register16Bit::HL {
                match hl_memory {
                    InstParam::Boolean(with_memory) => if with_memory {
                        done(self.op_inc_hl())
                    } else {
                        done(self.op_inc_r16(r))
                    },
                    _ => self.refused(refuse("INC with "@, p)),
                }
            } else {
                done(self.op_inc_r16(r))
            },
            _ => self.refused(refuse("INC with "@, p)),
        }
    }

    /// DEC with its operand and the flag that tells [HL] from HL.
    pub open spec fn op_execute_dec(self, p: InstParam, hl_memory: InstParam) -> (CpuView, Result<InstructionResult, Seq<char>>) {
        match p {
            InstParam::Register8Bit(r) => done(self.op_dec_r8(r)),
            InstParam::Register16Bit(r) => if r == Register16Bit::SP {
                done(self.op_dec_sp())
            } else if r == Register16Bit::HL {
                match hl_memory {
                    InstParam::Boolean(with_memory) => if with_memory {
                        done(self.op_dec_hl())
                    } else {
                        done(self.op_dec_r16(r))
                    },
                    _ => self.refused(refuse("INC with "@, p)),
                }
            } else {
                done(self.op_dec_r16(r))
            },
            _ => self.refused(refuse("INC with "@, p)),
        }
    }

    /// SUB or SBC with its operand.
    pub open spec fn op_execute_sub(self, p: InstParam, with_carry: bool, prefix: Seq<char>) -> (CpuView, Result<InstructionResult, Seq<char>>) {
        match p {
            InstParam::Register8Bit(r) => done(self.op_sub(self.reg8(r), 1, 1, with_carry)),
            InstParam::Register16Bit(_) => done(self.op_sub(self.read(self.hl()), 2, 1, with_carry)),
            InstParam::Number8Bit(v) => done(self.op_sub(v, 2, 2, with_carry)),
            _ => self.refused(refuse(prefix, p)),
        }
    }

    /// CP with its operand.
    pub open spec fn op_execute_cp(self, p: InstParam) -> (CpuView, Result<InstructionResult, Seq<char>>) {
        match p {
            InstParam::Register8Bit(r) => done(self.op_cp(self.reg8(r), 1, 1)),
            InstParam::Register16Bit(_) => done(self.op_cp(self.read(self.hl()), 2, 1)),
            InstParam::Number8Bit(v) => done(self.op_cp(v, 2, 2)),
            _ => self.refused(refuse("AND with "@, p)),
        }
    }

    /// OR, XOR or AND with its operand.
    pub open spec fn op_execute_logic(self, inst: Instructions) -> (CpuView, Result<InstructionResult, Seq<char>>) {
        match inst {
            Instructions::OR(p) => match p {
                InstParam::Register8Bit(r) => done(self.op_or(self.reg8(r), 1, 1)),
                InstParam::Register16Bit(_) => done(self.op_or(self.read(self.hl()), 2, 1)),
                InstParam::Number8Bit(v) => done(self.op_or(v, 2, 2)),
                _ => self.refused(refuse("OR with "@, p)),
            },
            Instructions::XOR(p) => match p {
                InstParam::Register8Bit(r) => done(self.op_xor(self.reg8(r), 1, 1)),
                InstParam::Register16Bit(_) => done(self.op_xor(self.read(self.hl()), 2, 1)),
                InstParam::Number8Bit(v) => done(self.op_xor(v, 2, 2)),
                _ => self.refused(refuse("XOR with "@, p)),
            },
            Instructions::AND(p) => match p {
                InstParam::Register8Bit(r) => done(self.op_and(self.reg8(r), 1, 1)),
                InstParam::Register16Bit(_) => done(self.op_and(self.read(self.hl()), 2, 1)),
                InstParam::Number8Bit(v) => done(self.op_and(v, 2, 2)),
                _ => self.refused(refuse("AND with "@, p)),
            },
            _ => self.refused(Err(instruction_message("Handling of "@, inst, not_implemented()))),
        }
    }
}

impl CPU {
    /// The byte at the address in HL.
    fn get_n8_from_hl(&self) -> (r: u8)
        ensures
            r == self@.read(self@.hl()),
    {
        self.mmu.read_byte(self.get_16bit_register(Register16Bit::HL))
    }

    /// Decode the instruction at PC and make it the next instruction.
    pub fn prepare_and_decode_next_instruction(&mut self) -> (r: Result<Instructions, String>)
        ensures
            final(self)@ == old(self)@.prepared(),
            r == Ok::<Instructions, String>(old(self)@.decoded(old(self)@.read(old(self)@.pc()))),
    {
        let opcode = self.get_next_opcode();
        let instruction = self.decode(opcode)?;
        self.next_instruction = instruction;
        Ok(instruction)
    }

    /// Advance the delayed IME enable by one instruction.
    fn update_ime(&mut self)
        ensures
            final(self)@ == old(self)@.ime_updated(),
    {
        if self.enable_ime == 1 {
            self.ime_flag = true;
            self.enable_ime = 0;
        }
        if self.enable_ime == 2 {
            self.enable_ime = 1;
        }
    }

    /// Whether a branch condition holds on the current flags.
    fn check_condition(&self, cond: &InstructionCondition) -> (r: bool)
        ensures
            r == self@.condition_holds(*cond),
    {
        match cond {
            InstructionCondition::Zero => self.is_zero_flag_set(),
            InstructionCondition::NotZero => !self.is_zero_flag_set(),
            InstructionCondition::Subtract => self.is_subtraction_flag_set(),
            InstructionCondition::NotSubtract => !self.is_subtraction_flag_set(),
            InstructionCondition::Halfcarry => self.is_half_carry_flag_set(),
            InstructionCondition::NotHalfcarry => !self.is_half_carry_flag_set(),
            InstructionCondition::Carry => self.is_carry_flag_set(),
            InstructionCondition::NotCarry => !self.is_carry_flag_set(),
            InstructionCondition::SkipConditionCodes => true,
        }
    }

    /// The refusal for an operand that the instruction cannot take.
    fn refuse_param(prefix: &str, param: &InstParam) -> (r: Result<InstructionResult, String>)
        ensures
            result_view(r) == refuse(prefix@, *param),
    {
        Err(format_param_message(prefix, param, " not implemented"))
    }

    /// ADD with its operand.
    fn execute_add(&mut self, p: InstParam) -> (r: Result<InstructionResult, String>)
        ensures
            final(self)@ == old(self)@.op_execute_add(p).0,
            result_view(r) == old(self)@.op_execute_add(p).1,
    {
        match p {
            InstParam::Register8Bit(register) => Ok(self.add_a_r8(register)),
            InstParam::Register16Bit(register) => {
                if register == Register16Bit::HL {
                    Ok(self.add_a_hl())
                } else {
                    Ok(self.add_hl_r16(register))
                }
            },
            InstParam::SignedNumber8Bit(value) => Ok(self.add_sp_e8(value)),
            InstParam::Number8Bit(value) => Ok(self.add_a_n8(value)),
            _ => Self::refuse_param("ADD with ", &p),
        }
    }

    /// ADC with its operand.
    fn execute_adc(&mut self, p: InstParam) -> (r: Result<InstructionResult, String>)
        ensures
            final(self)@ == old(self)@.op_execute_adc(p).0,
            result_view(r) == old(self)@.op_execute_adc(p).1,
    {
        match p {
            InstParam::Register8Bit(register) => Ok(self.adc_a_r8(register)),
            InstParam::Register16Bit(_) => Ok(self.adc_a_hl()),
            InstParam::Number8Bit(value) => Ok(self.adc_a_n8(value)),
            _ => Self::refuse_param("ADD with ", &p),
        }
    }

    /// INC with its operand and the flag that tells [HL] from HL.
    fn execute_inc(&mut self, p: InstParam, hl_memory: InstParam) -> (r: Result<InstructionResult, String>)
        ensures
            final(self)@ == old(self)@.op_execute_inc(p, hl_memory).0,
            result_view(r) == old(self)@.op_execute_inc(p, hl_memory).1,
    {
        match p {
            InstParam::Register8Bit(register) => Ok(self.inc(register)),
            InstParam::Register16Bit(register) => match register {
                Register16Bit::SP => Ok(self.inc_sp()),
                Register16Bit::HL => match hl_memory {
                    InstParam::Boolean(with_memory) => {
                        if with_memory {
                            Ok(self.inc_hl())
                        } else {
                            Ok(self.inc_r16(register))
                        }
                    },
                    _ => Self::refuse_param("INC with ", &p),
                },
                _ => Ok(self.inc_r16(register)),
            },
            _ => Self::refuse_param("INC with ", &p),
        }
    }

    /// DEC with its operand and the flag that tells [HL] from HL.
    fn execute_dec(&mut self, p: InstParam, hl_memory: InstParam) -> (r: Result<InstructionResult, String>)
        ensures
            final(self)@ == old(self)@.op_execute_dec(p, hl_memory).0,
            result_view(r) == old(self)@.op_execute_dec(p, hl_memory).1,
    {
        match p {
            InstParam::Register8Bit(register) => Ok(self.dec_r8(register)),
            InstParam::Register16Bit(register) => match register {
                Register16Bit::SP => Ok(self.dec_sp()),
                Register16Bit::HL => match hl_memory {
                    InstParam::Boolean(with_memory) => {
                        if with_memory {
                            Ok(self.dec_hl())
                        } else {
                            Ok(self.dec_r16(register))
                        }
                    },
                    _ => Self::refuse_param("INC with ", &p),
                },
                _ => Ok(self.dec_r16(register)),
            },
            _ => Self::refuse_param("INC with ", &p),
        }
    }

    /// SUB or SBC with its operand.
    fn execute_sub(&mut self, p: InstParam, with_carry: bool, prefix: &str) -> (r: Result<InstructionResult, String>)
        ensures
            final(self)@ == old(self)@.op_execute_sub(p, with_carry, prefix@).0,
            result_view(r) == old(self)@.op_execute_sub(p, with_carry, prefix@).1,
    {
        match p {
            InstParam::Register8Bit(register) => {
                let value = self.get_8bit_register(register);
                Ok(self.sub_and_subc(value, 1, 1, with_carry))
            },
            InstParam::Register16Bit(_) => {
                let value = self.get_n8_from_hl();
                Ok(self.sub_and_subc(value, 2, 1, with_carry))
            },
            InstParam::Number8Bit(value) => Ok(self.sub_and_subc(value, 2, 2, with_carry)),
            _ => Self::refuse_param(prefix, &p),
        }
    }

    /// CP with its operand.
    fn execute_cp(&mut self, p: InstParam) -> (r: Result<InstructionResult, String>)
        ensures
            final(self)@ == old(self)@.op_execute_cp(p).0,
            result_view(r) == old(self)@.op_execute_cp(p).1,
    {
        match p {
            InstParam::Register8Bit(register) => Ok(self.cp_a_r8(register)),
            InstParam::Register16Bit(_) => Ok(self.cp_a_hl()),
            InstParam::Number8Bit(value) => Ok(self.cp_a_n8(value)),
            _ => Self::refuse_param("AND with ", &p),
        }
    }

    /// OR, XOR or AND with its operand.
    fn execute_logic(&mut self, inst: Instructions) -> (r: Result<InstructionResult, String>)
        ensures
            final(self)@ == old(self)@.op_execute_logic(inst).0,
            result_view(r) == old(self)@.op_execute_logic(inst).1,
    {
        match inst {
            Instructions::OR(p) => match p {
                InstParam::Register8Bit(register) => {
                    let value = self.get_8bit_register(register);
                    Ok(self.or(value, 1, 1))
                },
                InstParam::Register16Bit(_) => {
                    let value = self.get_n8_from_hl();
                    Ok(self.or(value, 2, 1))
                },
                InstParam::Number8Bit(value) => Ok(self.or(value, 2, 2)),
                _ => Self::refuse_param("OR with ", &p),
            },
            Instructions::XOR(p) => match p {
                InstParam::Register8Bit(register) => {
                    let value = self.get_8bit_register(register);
                    Ok(self.xor(value, 1, 1))
                },
                InstParam::Register16Bit(_) => {
                    let value = self.get_n8_from_hl();
                    Ok(self.xor(value, 2, 1))
                },
                InstParam::Number8Bit(value) => Ok(self.xor(value, 2, 2)),
                _ => Self::refuse_param("XOR with ", &p),
            },
            Instructions::AND(p) => match p {
                InstParam::Register8Bit(register) => Ok(self.and_a_r8(register)),
                InstParam::Register16Bit(_) => Ok(self.and_a_hl()),
                InstParam::Number8Bit(value) => Ok(self.and_a_n8(value)),
                _ => Self::refuse_param("AND with ", &p),
            },
            _ => Err(format_instruction_message("Handling of ", &inst, " not implemented")),
        }
    }
}

impl CpuView {
    /// BIT, RES or SET with its bit and target.
    pub open spec fn op_execute_bit_op(self, inst: Instructions) -> (CpuView, Result<InstructionResult, Seq<char>>) {
        match inst {
            Instructions::BIT(bit, target) => match target {
                InstParam::Register8Bit(r) => match bit {
                    InstParam::Unsigned3Bit(b) => done(self.op_bit_u3_r8(b, r)),
                    _ => self.refused(refuse("BIT with "@, bit)),
                },
                InstParam::Register16Bit(r) => if r == Register16Bit::HL {
                    match bit {
                        InstParam::Unsigned3Bit(b) => done(self.op_bit_u3_hl(b)),
                        _ => self.refused(refuse("BIT with "@, bit)),
                    }
                } else {
                    self.refused(refuse("BIT with "@, target))
                },
                _ => self.refused(refuse("BIT with "@, target)),
            },
            Instructions::RES(bit, target) => match bit {
                InstParam::Unsigned3Bit(b) => match target {
                    InstParam::Register8Bit(r) => done(self.op_res_u3_r8(b, r)),
                    InstParam::Register16Bit(r) => if r == Register16Bit::HL {
                        done(self.op_res_u3_hl(b))
                    } else {
                        self.refused(refuse("RES with "@, target))
                    },
                    _ => self.refused(refuse("RES with "@, target)),
                },
                _ => self.refused(refuse("RES with "@, target)),
            },
            Instructions::SET(bit, target) => match bit {
                InstParam::Unsigned3Bit(b) => match target {
                    InstParam::Register8Bit(r) => done(self.op_set_u3_r8(b, r)),
                    InstParam::Register16Bit(r) => if r == Register16Bit::HL {
                        done(self.op_set_u3_hl(b))
                    } else {
                        self.refused(refuse("SET with "@, target))
                    },
                    _ => self.refused(refuse("SET with "@, target)),
                },
                _ => self.refused(refuse("SET with "@, target)),
            },
            Instructions::SWAP(target) => match target {
                InstParam::Register8Bit(r) => done(self.op_swap_r8(r)),
                InstParam::Register16Bit(r) => if r == Register16Bit::HL {
                    done(self.op_swap_hl())
                } else {
                    self.refused(refuse("SWAP with "@, target))
                },
                _ => self.refused(refuse("SWAP with "@, target)),
            },
            _ => self.refused(Err(instruction_message("Handling of "@, inst, not_implemented()))),
        }
    }

    /// RL (through the carry) or RLC with its target.
    pub open spec fn op_execute_rotate_left(self, target: InstParam, through_carry: bool) -> (CpuView, Result<InstructionResult, Seq<char>>) {
        match target {
            InstParam::Register8Bit(r) => if r == Register8Bit::A {
                done(self.op_rl_a(through_carry))
            } else {
                done(self.op_rl_r8(r, through_carry))
            },
            InstParam::Register16Bit(Register16Bit::HL) => done(self.op_rl_hl(through_carry)),
            _ => self.refused(refuse("SWAP with "@, target)),
        }
    }

    /// RR (through the carry) or RRC with its target.
    pub open spec fn op_execute_rotate_right(self, target: InstParam, through_carry: bool) -> (CpuView, Result<InstructionResult, Seq<char>>) {
        match target {
            InstParam::Register8Bit(r) => if r == Register8Bit::A {
                done(self.op_rr_a(through_carry))
            } else {
                done(self.op_rr_r8(r, through_carry))
            },
            InstParam::Register16Bit(Register16Bit::HL) => done(self.op_rr_hl(Register16Bit::HL, through_carry)),
            _ => self.refused(refuse("SWAP with "@, target)),
        }
    }

    /// SLA, SRA or SRL with its target.
    pub open spec fn op_execute_shift(self, inst: Instructions) -> (CpuView, Result<InstructionResult, Seq<char>>) {
        match inst {
            Instructions::SLA(target) => match target {
                InstParam::Register8Bit(r) => done(self.op_sla_r8(r)),
                InstParam::Register16Bit(Register16Bit::HL) => done(self.op_sla_hl()),
                _ => self.refused(refuse("SWAP with "@, target)),
            },
            Instructions::SRA(target) => match target {
                InstParam::Register8Bit(r) => done(self.op_sr_r8(r, true)),
                InstParam::Register16Bit(Register16Bit::HL) => done(self.op_sr_hl(true)),
                _ => self.refused(refuse("SWAP with "@, target)),
            },
            Instructions::SRL(target) => match target {
                InstParam::Register8Bit(r) => done(self.op_sr_r8(r, false)),
                InstParam::Register16Bit(Register16Bit::HL) => done(self.op_sr_hl(false)),
                _ => self.refused(refuse("SWAP with "@, target)),
            },
            _ => self.refused(Err(instruction_message("Handling of "@, inst, not_implemented()))),
        }
    }
}

impl CPU {
    /// BIT, RES, SET or SWAP with its operands.
    fn execute_bit_op(&mut self, inst: Instructions) -> (r: Result<InstructionResult, String>)
        requires
            is_executable(inst),
        ensures
            final(self)@ == old(self)@.op_execute_bit_op(inst).0,
            result_view(r) == old(self)@.op_execute_bit_op(inst).1,
    {
        match inst {
            Instructions::BIT(bit, target) => match target {
                InstParam::Register8Bit(register) => match bit {
                    InstParam::Unsigned3Bit(targeted_bit) => Ok(self.bit_u3_r8(targeted_bit, register)),
                    _ => Self::refuse_param("BIT with ", &bit),
                },
                InstParam::Register16Bit(register) => {
                    if register == Register16Bit::HL {
                        match bit {
                            InstParam::Unsigned3Bit(targeted_bit) => Ok(self.bit_u3_hl(targeted_bit)),
                            _ => Self::refuse_param("BIT with ", &bit),
                        }
                    } else {
                        Self::refuse_param("BIT with ", &target)
                    }
                },
                _ => Self::refuse_param("BIT with ", &target),
            },
            Instructions::RES(bit, target) => match bit {
                InstParam::Unsigned3Bit(targeted_bit) => match target {
                    InstParam::Register8Bit(register) => Ok(self.res_u3_r8(targeted_bit, register)),
                    InstParam::Register16Bit(register) => {
                        if register == Register16Bit::HL {
                            Ok(self.res_u3_hl(targeted_bit))
                        } else {
                            Self::refuse_param("RES with ", &target)
                        }
                    },
                    _ => Self::refuse_param("RES with ", &target),
                },
                _ => Self::refuse_param("RES with ", &target),
            },
            Instructions::SET(bit, target) => match bit {
                InstParam::Unsigned3Bit(targeted_bit) => match target {
                    InstParam::Register8Bit(register) => Ok(self.set_u3_r8(targeted_bit, register)),
                    InstParam::Register16Bit(register) => {
                        if register == Register16Bit::HL {
                            Ok(self.set_u3_hl(targeted_bit))
                        } else {
                            Self::refuse_param("SET with ", &target)
                        }
                    },
                    _ => Self::refuse_param("SET with ", &target),
                },
                _ => Self::refuse_param("SET with ", &target),
            },
            Instructions::SWAP(target) => match target {
                InstParam::Register8Bit(register) => Ok(self.swap_r8(register)),
                InstParam::Register16Bit(register) => {
                    if register == Register16Bit::HL {
                        Ok(self.swap_hl())
                    } else {
                        Self::refuse_param("SWAP with ", &target)
                    }
                },
                _ => Self::refuse_param("SWAP with ", &target),
            },
            _ => Err(format_instruction_message("Handling of ", &inst, " not implemented")),
        }
    }

    /// RL (through the carry) or RLC with its target.
    fn execute_rotate_left(&mut self, target: InstParam, through_carry: bool) -> (r: Result<InstructionResult, String>)
        ensures
            final(self)@ == old(self)@.op_execute_rotate_left(target, through_carry).0,
            result_view(r) == old(self)@.op_execute_rotate_left(target, through_carry).1,
    {
        match target {
            InstParam::Register8Bit(register) => match register {
                Register8Bit::A => if through_carry {
                    Ok(self.rl_a())
                } else {
                    Ok(self.rl_c_a())
                },
                _ => if through_carry {
                    Ok(self.rl_r8(register))
                } else {
                    Ok(self.rl_c_r8(register))
                },
            },
            InstParam::Register16Bit(Register16Bit::HL) => if through_carry {
                Ok(self.rl_hl())
            } else {
                Ok(self.rl_c_hl())
            },
            _ => Self::refuse_param("SWAP with ", &target),
        }
    }

    /// RR (through the carry) or RRC with its target.
    fn execute_rotate_right(&mut self, target: InstParam, through_carry: bool) -> (r: Result<InstructionResult, String>)
        ensures
            final(self)@ == old(self)@.op_execute_rotate_right(target, through_carry).0,
            result_view(r) == old(self)@.op_execute_rotate_right(target, through_carry).1,
    {
        match target {
            InstParam::Register8Bit(register) => match register {
                Register8Bit::A => if through_carry {
                    Ok(self.rr_a())
                } else {
                    Ok(self.rr_c_a())
                },
                _ => if through_carry {
                    Ok(self.rr_r8(register))
                } else {
                    Ok(self.rr_c_r8(register))
                },
            },
            InstParam::Register16Bit(Register16Bit::HL) => if through_carry {
                Ok(self.rr_hl(Register16Bit::HL))
            } else {
                Ok(self.rr_c_hl(Register16Bit::HL))
            },
            _ => Self::refuse_param("SWAP with ", &target),
        }
    }

    /// SLA, SRA or SRL with its target.
    fn execute_shift(&mut self, inst: Instructions) -> (r: Result<InstructionResult, String>)
        ensures
            final(self)@ == old(self)@.op_execute_shift(inst).0,
            result_view(r) == old(self)@.op_execute_shift(inst).1,
    {
        match inst {
            Instructions::SLA(target) => match target {
                InstParam::Register8Bit(register) => Ok(self.sla_r8(register)),
                InstParam::Register16Bit(Register16Bit::HL) => Ok(self.sla_hl()),
                _ => Self::refuse_param("SWAP with ", &target),
            },
            Instructions::SRA(target) => match target {
                InstParam::Register8Bit(register) => Ok(self.sra_r8(register)),
                InstParam::Register16Bit(Register16Bit::HL) => Ok(self.sra_hl()),
                _ => Self::refuse_param("SWAP with ", &target),
            },
            Instructions::SRL(target) => match target {
                InstParam::Register8Bit(register) => Ok(self.srl_r8(register)),
                InstParam::Register16Bit(Register16Bit::HL) => Ok(self.srl_hl()),
                _ => Self::refuse_param("SWAP with ", &target),
            },
            _ => Err(format_instruction_message("Handling of ", &inst, " not implemented")),
        }
    }
}

impl CpuView {
    /// PUSH or POP with its register.
    pub open spec fn op_execute_stack(self, inst: Instructions) -> (CpuView, Result<InstructionResult, Seq<char>>) {
        match inst {
            Instructions::PUSH(target) => match target {
                InstParam::Register16Bit(r) => if r == Register16Bit::AF {
                    done(self.op_push_af())
                } else {
                    done(self.op_push_r16(r))
                },
                _ => self.refused(refuse("PUSH with "@, target)),
            },
            Instructions::POP(target) => match target {
                InstParam::Register16Bit(r) => if r == Register16Bit::AF {
                    done(self.op_pop_af())
                } else {
                    done(self.op_pop_r16(r))
                },
                _ => self.refused(refuse("PUSH with "@, target)),
            },
            _ => self.refused(Err(instruction_message("Handling of "@, inst, not_implemented()))),
        }
    }

    /// LDH with its target and source.
    pub open spec fn op_execute_ldh(self, target: InstParam, source: InstParam) -> (CpuView, Result<InstructionResult, Seq<char>>) {
        match target {
            InstParam::Number16Bit(n) => done(self.op_ldh_n16_a(n)),
            InstParam::Number8Bit(n) => done(self.op_ldh_a8_a(n)),
            InstParam::Register8Bit(t) => if t == Register8Bit::A {
                match source {
                    InstParam::Number16Bit(n) => done(self.op_ldh_a_n16(n)),
                    InstParam::Number8Bit(n) => done(self.op_ldh_a_a8(n)),
                    InstParam::Register8Bit(r) => if r == Register8Bit::C {
                        done(self.op_ldh_a_c())
                    } else {
                        self.refused(Err(register8_message("Handling of "@, r, not_implemented())))
                    },
                    _ => self.refused(refuse("Handling of "@, source)),
                }
            } else if t == Register8Bit::C {
                done(self.op_ldh_c_a())
            } else {
                self.refused(refuse("Handling of "@, source))
            },
            _ => self.refused(refuse("Handling of "@, source)),
        }
    }

    /// LD into an 8-bit register.
    pub open spec fn op_execute_ld_r8(self, t: Register8Bit, source: InstParam) -> (CpuView, Result<InstructionResult, Seq<char>>) {
        if t == Register8Bit::A {
            match source {
                InstParam::Register16Bit(r) => done(self.op_ld_a_r16(r)),
                InstParam::Number16Bit(n) => done(self.op_ld_a_n16(n)),
                InstParam::Register8Bit(r) => done(self.op_ld_r8_r8(t, r)),
                InstParam::Number8Bit(n) => done(self.op_ld_r8_n8(t, n)),
                _ => self.refused(refuse("Handling of "@, source)),
            }
        } else {
            match source {
                InstParam::Register8Bit(r) => done(self.op_ld_r8_r8(t, r)),
                InstParam::Number8Bit(n) => done(self.op_ld_r8_n8(t, n)),
                InstParam::Register16Bit(_) => done(self.op_ld_r8_hl(t)),
                _ => self.refused(refuse("Handling of "@, source)),
            }
        }
    }

    /// LD into a 16-bit register or through an immediate address.
    pub open spec fn op_execute_ld_wide(self, target: InstParam, source: InstParam) -> (CpuView, Result<InstructionResult, Seq<char>>) {
        match target {
            InstParam::Register16Bit(t) => if t == Register16Bit::SP {
                match source {
                    InstParam::Register16Bit(_) => done(self.op_ld_sp_hl()),
                    InstParam::Number16Bit(n) => done(self.op_ld_sp_n16(n)),
                    _ => self.refused(refuse("LD with "@, source)),
                }
            } else if t == Register16Bit::HL {
                match source {
                    InstParam::Register8Bit(r) => done(self.op_ld_hl_r8(r)),
                    InstParam::Number8Bit(n) => done(self.op_ld_hl_n8(n)),
                    InstParam::Number16Bit(n) => done(self.op_ld_r16_n16(Register16Bit::HL, n)),
                    InstParam::SignedNumber8Bit(n) => done(self.op_ld_hl_sp_plus_e8(n)),
                    _ => self.refused(refuse("Handling of "@, source)),
                }
            } else {
                match source {
                    InstParam::Number16Bit(n) => done(self.op_ld_r16_n16(t, n)),
                    InstParam::Register8Bit(_) => done(self.op_ld_r16_a(t)),
                    _ => self.refused(refuse("Handling of "@, source)),
                }
            },
            InstParam::Number16Bit(n) => match source {
                InstParam::Register8Bit(_) => done(self.op_ld_n16_a(n)),
                InstParam::Register16Bit(_) => done(self.op_ld_n16_sp(n)),
                _ => self.refused(refuse("LD with n16 address of "@, source)),
            },
            _ => self.refused(refuse("Handling of "@, target)),
        }
    }

    /// LD with its target and source.
    pub open spec fn op_execute_ld(self, target: InstParam, source: InstParam) -> (CpuView, Result<InstructionResult, Seq<char>>) {
        match target {
            InstParam::Register8Bit(t) => self.op_execute_ld_r8(t, source),
            _ => self.op_execute_ld_wide(target, source),
        }
    }

    /// RET with its condition.
    pub open spec fn op_execute_ret(self, condition: InstParam) -> (CpuView, Result<InstructionResult, Seq<char>>) {
        match condition {
            InstParam::ConditionCodes(c) => done(self.op_ret_cc(self.condition_holds(c))),
            _ => done(self.op_ret()),
        }
    }

    /// CALL with its target, or its condition and target.
    pub open spec fn op_execute_call(self, t: InstParam, o: InstParam) -> (CpuView, Result<InstructionResult, Seq<char>>) {
        match t {
            InstParam::Number16Bit(a) => done(self.op_call_n16(a)),
            InstParam::ConditionCodes(c) => match o {
                InstParam::Number16Bit(a) => done(self.op_call_cc_n16(self.condition_holds(c), a)),
                _ => self.refused(refuse("CALL of "@, o)),
            },
            _ => self.refused(refuse("CALL of "@, t)),
        }
    }

    /// JP with its target, or its condition and target.
    pub open spec fn op_execute_jp(self, t: InstParam, o: InstParam) -> (CpuView, Result<InstructionResult, Seq<char>>) {
        match t {
            InstParam::Register16Bit(r) => if r == Register16Bit::HL {
                done(self.op_jp_hl())
            } else {
                self.refused(Err(register16_message("JP to "@, r, not_implemented())))
            },
            InstParam::Number16Bit(a) => done(self.op_jp_n16(a)),
            InstParam::ConditionCodes(c) => match o {
                InstParam::Number16Bit(a) => done(self.op_jp_cc_n16(self.condition_holds(c), a)),
                _ => self.refused(refuse("JP of "@, o)),
            },
            _ => self.refused(refuse("JP of "@, t)),
        }
    }

    /// JR with its offset, or its condition and offset.
    pub open spec fn op_execute_jr(self, t: InstParam, o: InstParam) -> (CpuView, Result<InstructionResult, Seq<char>>) {
        match t {
            InstParam::SignedNumber8Bit(a) => done(self.op_jr_n16(a)),
            InstParam::ConditionCodes(c) => match o {
                InstParam::SignedNumber8Bit(a) => done(self.op_jr_cc_n16(self.condition_holds(c), a)),
                _ => self.refused(refuse("CALL of "@, o)),
            },
            _ => self.refused(refuse("CALL of "@, t)),
        }
    }

    /// RST with its vector.
    pub open spec fn op_execute_rst(self, v: InstParam) -> (CpuView, Result<InstructionResult, Seq<char>>) {
        match v {
            InstParam::Number8Bit(a) => done(self.op_rst_vec(a)),
            _ => self.refused(refuse("RST of "@, v)),
        }
    }
}

impl CPU {
    /// PUSH or POP with its register.
    fn execute_stack(&mut self, inst: Instructions) -> (r: Result<InstructionResult, String>)
        requires
            is_executable(inst),
        ensures
            final(self)@ == old(self)@.op_execute_stack(inst).0,
            result_view(r) == old(self)@.op_execute_stack(inst).1,
    {
        match inst {
            Instructions::PUSH(target) => match target {
                InstParam::Register16Bit(register) => {
                    if register == Register16Bit::AF {
                        Ok(self.push_af())
                    } else {
                        Ok(self.push_r16(register))
                    }
                },
                _ => Self::refuse_param("PUSH with ", &target),
            },
            Instructions::POP(target) => match target {
                InstParam::Register16Bit(register) => {
                    if register == Register16Bit::AF {
                        Ok(self.pop_af())
                    } else {
                        Ok(self.pop_r16(register))
                    }
                },
                _ => Self::refuse_param("PUSH with ", &target),
            },
            _ => Err(format_instruction_message("Handling of ", &inst, " not implemented")),
        }
    }

    /// LDH with its target and source.
    fn execute_ldh(&mut self, target: InstParam, source: InstParam) -> (r: Result<InstructionResult, String>)
        ensures
            final(self)@ == old(self)@.op_execute_ldh(target, source).0,
            result_view(r) == old(self)@.op_execute_ldh(target, source).1,
    {
        match target {
            InstParam::Number16Bit(target_number) => Ok(self.ldh_n16_a(target_number)),
            InstParam::Number8Bit(target_number) => Ok(self.ldh_a8_a(target_number)),
            InstParam::Register8Bit(target_register) => {
                if target_register == Register8Bit::A {
                    match source {
                        InstParam::Number16Bit(source_number) => Ok(self.ldh_a_n16(source_number)),
                        InstParam::Number8Bit(source_number) => Ok(self.ldh_a_a8(source_number)),
                        InstParam::Register8Bit(source_register) => {
                            if source_register == Register8Bit::C {
                                Ok(self.ldh_a_c())
                            } else {
                                Err(format_register8_message("Handling of ", &source_register, " not implemented"))
                            }
                        },
                        _ => Self::refuse_param("Handling of ", &source),
                    }
                } else if target_register == Register8Bit::C {
                    Ok(self.ldh_c_a())
                } else {
                    Self::refuse_param("Handling of ", &source)
                }
            },
            _ => Self::refuse_param("Handling of ", &source),
        }
    }

    /// LD into an 8-bit register.
    fn execute_ld_r8(&mut self, target_register: Register8Bit, source: InstParam) -> (r: Result<InstructionResult, String>)
        ensures
            final(self)@ == old(self)@.op_execute_ld_r8(target_register, source).0,
            result_view(r) == old(self)@.op_execute_ld_r8(target_register, source).1,
    {
        if target_register == Register8Bit::A {
            match source {
                InstParam::Register16Bit(source_register) => Ok(self.ld_a_r16(source_register)),
                InstParam::Number16Bit(source_number) => Ok(self.ld_a_n16(source_number)),
                InstParam::Register8Bit(source_register) => Ok(self.ld_r8_r8(target_register, source_register)),
                InstParam::Number8Bit(source_number) => Ok(self.ld_r8_n8(target_register, source_number)),
                _ => Self::refuse_param("Handling of ", &source),
            }
        } else {
            match source {
                InstParam::Register8Bit(source_register) => Ok(self.ld_r8_r8(target_register, source_register)),
                InstParam::Number8Bit(source_number) => Ok(self.ld_r8_n8(target_register, source_number)),
                InstParam::Register16Bit(_) => Ok(self.ld_r8_hl(target_register)),
                _ => Self::refuse_param("Handling of ", &source),
            }
        }
    }

    /// LD into a 16-bit register or through an immediate address.
    fn execute_ld_wide(&mut self, target: InstParam, source: InstParam) -> (r: Result<InstructionResult, String>)
        ensures
            final(self)@ == old(self)@.op_execute_ld_wide(target, source).0,
            result_view(r) == old(self)@.op_execute_ld_wide(target, source).1,
    {
        match target {
            InstParam::Register16Bit(target_register) => {
                if target_register == Register16Bit::SP {
                    match source {
                        InstParam::Register16Bit(_) => Ok(self.ld_sp_hl()),
                        InstParam::Number16Bit(source_address) => Ok(self.ld_sp_n16(source_address)),
                        _ => Self::refuse_param("LD with ", &source),
                    }
                } else if target_register == Register16Bit::HL {
                    match source {
                        InstParam::Register8Bit(source_register) => Ok(self.ld_hl_r8(source_register)),
                        InstParam::Number8Bit(source_number) => Ok(self.ld_hl_n8(source_number)),
                        InstParam::Number16Bit(source_number) => Ok(self.ld_r16_n16(Register16Bit::HL, source_number)),
                        InstParam::SignedNumber8Bit(source_number) => Ok(self.ld_hl_sp_plus_e8(source_number)),
                        _ => Self::refuse_param("Handling of ", &source),
                    }
                } else {
                    match source {
                        InstParam::Number16Bit(source_number) => Ok(self.ld_r16_n16(target_register, source_number)),
                        InstParam::Register8Bit(_) => Ok(self.ld_r16_a(target_register)),
                        _ => Self::refuse_param("Handling of ", &source),
                    }
                }
            },
            InstParam::Number16Bit(number) => match source {
                InstParam::Register8Bit(_) => Ok(self.ld_n16_a(number)),
                InstParam::Register16Bit(_) => Ok(self.ld_n16_sp(number)),
                _ => Self::refuse_param("LD with n16 address of ", &source),
            },
            _ => Self::refuse_param("Handling of ", &target),
        }
    }

    /// LD with its target and source.
    fn execute_ld(&mut self, target: InstParam, source: InstParam) -> (r: Result<InstructionResult, String>)
        ensures
            final(self)@ == old(self)@.op_execute_ld(target, source).0,
            result_view(r) == old(self)@.op_execute_ld(target, source).1,
    {
        match target {
            InstParam::Register8Bit(target_register) => self.execute_ld_r8(target_register, source),
            _ => self.execute_ld_wide(target, source),
        }
    }

    /// RET with its condition.
    fn execute_ret(&mut self, condition: InstParam) -> (r: Result<InstructionResult, String>)
        ensures
            final(self)@ == old(self)@.op_execute_ret(condition).0,
            result_view(r) == old(self)@.op_execute_ret(condition).1,
    {
        match condition {
            InstParam::ConditionCodes(cond) => {
                let holds = self.check_condition(&cond);
                Ok(self.ret_cc(holds))
            },
            _ => Ok(self.ret()),
        }
    }

    /// CALL with its target, or its condition and target.
    fn execute_call(&mut self, target_or_condition: InstParam, optional_target: InstParam) -> (r: Result<InstructionResult, String>)
        ensures
            final(self)@ == old(self)@.op_execute_call(target_or_condition, optional_target).0,
            result_view(r) == old(self)@.op_execute_call(target_or_condition, optional_target).1,
    {
        match target_or_condition {
            InstParam::Number16Bit(target_addr) => Ok(self.call_n16(target_addr)),
            InstParam::ConditionCodes(cond) => match optional_target {
                InstParam::Number16Bit(target_addr) => {
                    let holds = self.check_condition(&cond);
                    Ok(self.call_cc_n16(holds, target_addr))
                },
                _ => Self::refuse_param("CALL of ", &optional_target),
            },
            _ => Self::refuse_param("CALL of ", &target_or_condition),
        }
    }

    /// JP with its target, or its condition and target.
    fn execute_jp(&mut self, target_or_condition: InstParam, optional_target: InstParam) -> (r: Result<InstructionResult, String>)
        ensures
            final(self)@ == old(self)@.op_execute_jp(target_or_condition, optional_target).0,
            result_view(r) == old(self)@.op_execute_jp(target_or_condition, optional_target).1,
    {
        match target_or_condition {
            InstParam::Register16Bit(target_reg) => {
                if target_reg == Register16Bit::HL {
                    Ok(self.jp_hl())
                } else {
                    Err(format_register16_message("JP to ", &target_reg, " not implemented"))
                }
            },
            InstParam::Number16Bit(target_addr) => Ok(self.jp_n16(target_addr)),
            InstParam::ConditionCodes(cond) => match optional_target {
                InstParam::Number16Bit(target_addr) => {
                    let holds = self.check_condition(&cond);
                    Ok(self.jp_cc_n16(holds, target_addr))
                },
                _ => Self::refuse_param("JP of ", &optional_target),
            },
            _ => Self::refuse_param("JP of ", &target_or_condition),
        }
    }

    /// JR with its offset, or its condition and offset.
    fn execute_jr(&mut self, target_or_condition: InstParam, optional_target: InstParam) -> (r: Result<InstructionResult, String>)
        ensures
            final(self)@ == old(self)@.op_execute_jr(target_or_condition, optional_target).0,
            result_view(r) == old(self)@.op_execute_jr(target_or_condition, optional_target).1,
    {
        match target_or_condition {
            InstParam::SignedNumber8Bit(target_addr) => Ok(self.jr_n16(target_addr)),
            InstParam::ConditionCodes(cond) => match optional_target {
                InstParam::SignedNumber8Bit(target_addr) => {
                    let holds = self.check_condition(&cond);
                    Ok(self.jr_cc_n16(holds, target_addr))
                },
                _ => Self::refuse_param("CALL of ", &optional_target),
            },
            _ => Self::refuse_param("CALL of ", &target_or_condition),
        }
    }

    /// RST with its vector.
    fn execute_rst(&mut self, vec: InstParam) -> (r: Result<InstructionResult, String>)
        ensures
            final(self)@ == old(self)@.op_execute_rst(vec).0,
            result_view(r) == old(self)@.op_execute_rst(vec).1,
    {
        match vec {
            InstParam::Number8Bit(target_addr) => Ok(self.rst_vec(target_addr)),
            _ => Self::refuse_param("RST of ", &vec),
        }
    }
}

impl CpuView {
    /// Executing the next instruction: the state after it and its result,
    /// or the state unchanged and the refusal message.
    #[verifier::opaque]
    pub open spec fn op_dispatch(self) -> (CpuView, Result<InstructionResult, Seq<char>>) {
        let inst = self.next_instruction;
        match inst {
            Instructions::ADD(p) => self.op_execute_add(p),
            Instructions::ADC(p) => self.op_execute_adc(p),
            Instructions::INC(p, hl_memory) => self.op_execute_inc(p, hl_memory),
            Instructions::DEC(p, hl_memory) => self.op_execute_dec(p, hl_memory),
            Instructions::SUB(p) => self.op_execute_sub(p, false, "SUB with "@),
            Instructions::SBC(p) => self.op_execute_sub(p, true, "SBC with "@),
            Instructions::CP(p) => self.op_execute_cp(p),
            Instructions::OR(_) | Instructions::XOR(_) | Instructions::AND(_) => self.op_execute_logic(inst),
            Instructions::LDAHLD => done(self.op_ld_a_hld()),
            Instructions::LDHLDA => done(self.op_ld_hld_a()),
            Instructions::LDAHLI => done(self.op_ld_a_hli()),
            Instructions::LDHLIA => done(self.op_ld_hli_a()),
            Instructions::PUSH(_) | Instructions::POP(_) => self.op_execute_stack(inst),
            Instructions::BIT(_, _) | Instructions::RES(_, _) | Instructions::SET(_, _) | Instructions::SWAP(_) => self.op_execute_bit_op(inst),
            Instructions::RL(target) => self.op_execute_rotate_left(target, true),
            Instructions::RLC(target) => self.op_execute_rotate_left(target, false),
            Instructions::RR(target) => self.op_execute_rotate_right(target, true),
            Instructions::RRC(target) => self.op_execute_rotate_right(target, false),
            Instructions::SLA(_) | Instructions::SRA(_) | Instructions::SRL(_) => self.op_execute_shift(inst),
            Instructions::LDH(target, source) => self.op_execute_ldh(target, source),
            Instructions::LD(target, source) => self.op_execute_ld(target, source),
            Instructions::RET(condition) => self.op_execute_ret(condition),
            Instructions::RETI => done(self.op_reti()),
            Instructions::CALL(t, o) => self.op_execute_call(t, o),
            Instructions::JP(t, o) => self.op_execute_jp(t, o),
            Instructions::JR(t, o) => self.op_execute_jr(t, o),
            Instructions::RST(v) => self.op_execute_rst(v),
            Instructions::CCF => done(self.op_ccf()),
            Instructions::CPL => done(self.op_cpl()),
            Instructions::DAA => done(self.op_daa()),
            Instructions::DI => done(self.op_di()),
            Instructions::EI => done(self.op_ei()),
            Instructions::HALT => done(self.op_halt()),
            Instructions::NOP => done(self.op_nop()),
            Instructions::SCF => done(self.op_scf()),
            _ => self.refused(Err(instruction_message("Handling of "@, inst, not_implemented()))),
        }
    }

    /// The state with the condition codes of a result applied to F.
    pub open spec fn with_codes(self, c: ConditionCodes) -> CpuView {
        self.set_flags(apply_codes(self.flags(), c))
    }

    /// The state after an executed instruction is wrapped up: its result
    /// becomes the last result, PC advances by its length (unless the
    /// instruction now next sets PC itself), the delayed IME enable ticks,
    /// the condition codes go into F and the cycles are counted.
    pub open spec fn finished(self, result: InstructionResult) -> CpuView {
        let recorded = CpuView { last_step_result: result, ..self };
        let moved = if moves_pc_itself(self.next_instruction) {
            recorded
        } else {
            recorded.set_reg16(Register16Bit::PC, advance(recorded.pc(), result.bytes as int))
        };
        let flagged = moved.ime_updated().with_codes(result.condition_codes);
        CpuView { cycles: ((flagged.cycles + result.cycles) % 0x1_0000_0000_0000_0000) as u64, ..flagged }
    }

    /// The state a step starts from: a zero cycle count of the last result
    /// is raised to 1.
    pub open spec fn step_start(self) -> CpuView {
        let last = self.last_step_result;
        if last.cycles == 0 {
            CpuView { last_step_result: InstructionResult { cycles: 1, ..last }, ..self }
        } else {
            self
        }
    }

    /// One step of the CPU. A dispatched interrupt takes the step: the last
    /// result keeps its flags with 5 cycles and 0 bytes. Otherwise the next
    /// instruction is executed; on success its result becomes the last
    /// result, PC advances by its length (unless the instruction now next
    /// sets PC itself), the delayed IME enable ticks, the condition codes go
    /// into F and the cycles are counted. A zero cycle count of the last
    /// result is raised to 1 first.
    pub open spec fn op_step(self) -> (CpuView, Result<InstructionResult, Seq<char>>) {
        let s0 = self.step_start();
        let (s1, dispatched) = s0.op_check_and_handle_interrupts();
        if dispatched {
            let result = InstructionResult { cycles: 5, bytes: 0, ..s1.last_step_result };
            (CpuView { last_step_result: result, ..s1 }, Ok(result))
        } else {
            let (s2, outcome) = s1.op_dispatch();
            match outcome {
                Err(message) => (s2, Err(message)),
                Ok(result) => (s2.finished(result), Ok(result)),
            }
        }
    }
}

impl CPU {
    /// Execute the next instruction.
    fn dispatch(&mut self) -> (r: Result<InstructionResult, String>)
        requires
            is_executable(old(self).next_instruction),
        ensures
            final(self)@ == old(self)@.op_dispatch().0,
            result_view(r) == old(self)@.op_dispatch().1,
    {
        proof {
            reveal(CpuView::op_dispatch);
        }
        let inst = self.next_instruction;
        match inst {
            Instructions::ADD(p) => self.execute_add(p),
            Instructions::ADC(p) => self.execute_adc(p),
            Instructions::INC(p, hl_memory) => self.execute_inc(p, hl_memory),
            Instructions::DEC(p, hl_memory) => self.execute_dec(p, hl_memory),
            Instructions::SUB(p) => self.execute_sub(p, false, "SUB with "),
            Instructions::SBC(p) => self.execute_sub(p, true, "SBC with "),
            Instructions::CP(p) => self.execute_cp(p),
            Instructions::OR(_) | Instructions::XOR(_) | Instructions::AND(_) => self.execute_logic(inst),
            Instructions::LDAHLD => Ok(self.ld_a_hld()),
            Instructions::LDHLDA => Ok(self.ld_hld_a()),
            Instructions::LDAHLI => Ok(self.ld_a_hli()),
            Instructions::LDHLIA => Ok(self.ld_hli_a()),
            Instructions::PUSH(_) | Instructions::POP(_) => self.execute_stack(inst),
            Instructions::BIT(_, _) | Instructions::RES(_, _) | Instructions::SET(_, _) | Instructions::SWAP(_) => self.execute_bit_op(inst),
            Instructions::RL(target) => self.execute_rotate_left(target, true),
            Instructions::RLC(target) => self.execute_rotate_left(target, false),
            Instructions::RR(target) => self.execute_rotate_right(target, true),
            Instructions::RRC(target) => self.execute_rotate_right(target, false),
            Instructions::SLA(_) | Instructions::SRA(_) | Instructions::SRL(_) => self.execute_shift(inst),
            Instructions::LDH(target, source) => self.execute_ldh(target, source),
            Instructions::LD(target, source) => self.execute_ld(target, source),
            Instructions::RET(condition) => self.execute_ret(condition),
            Instructions::RETI => Ok(self.reti()),
            Instructions::CALL(t, o) => self.execute_call(t, o),
            Instructions::JP(t, o) => self.execute_jp(t, o),
            Instructions::JR(t, o) => self.execute_jr(t, o),
            Instructions::RST(v) => self.execute_rst(v),
            Instructions::CCF => Ok(self.ccf()),
            Instructions::CPL => Ok(self.cpl()),
            Instructions::DAA => Ok(self.daa()),
            Instructions::DI => Ok(self.di()),
            Instructions::EI => Ok(self.ei()),
            Instructions::HALT => Ok(self.halt()),
            Instructions::NOP => Ok(self.nop()),
            Instructions::SCF => Ok(self.scf()),
            _ => Err(format_instruction_message("Handling of ", &inst, " not implemented")),
        }
    }

    /// Apply condition codes to F: carry, then half carry, subtraction, zero.
    fn apply_condition_codes(&mut self, c: ConditionCodes)
        ensures
            final(self)@ == old(self)@.with_codes(c),
    {
        match c.carry {
            FlagState::NotAffected => {},
            FlagState::Raised => self.set_carry_flag(),
            FlagState::Unset => self.clear_carry_flag(),
        }
        match c.half_carry {
            FlagState::NotAffected => {},
            FlagState::Raised => self.set_half_carry_flag(),
            FlagState::Unset => self.clear_half_carry_flag(),
        }
        match c.subtract {
            FlagState::NotAffected => {},
            FlagState::Raised => self.set_subtraction_flag(),
            FlagState::Unset => self.clear_subtraction_flag(),
        }
        match c.zero {
            FlagState::NotAffected => {},
            FlagState::Raised => self.set_zero_flag(),
            FlagState::Unset => self.clear_zero_flag(),
        }
    }

    /// Do one step: serve a pending interrupt, or execute the next
    /// instruction and advance PC, IME, the flags and the cycle count.
    /// The next instruction must have been set (decoded) before, and must be
    /// one that can be executed unless a pending interrupt takes the step.
    pub fn step(&mut self) -> (r: Result<InstructionResult, String>)
        requires
            is_executable(old(self).next_instruction) || old(self)@.pending_interrupt(true) is Some,
        ensures
            final(self)@ == old(self)@.op_step().0,
            result_view(r) == old(self)@.op_step().1,
    {
        if self.last_step_result.cycles == 0 {
            // Ensure the timing never waits on a zero cycle count
            self.last_step_result.cycles = 1;
        }
        if self.check_and_handle_interrupts() {
            self.last_step_result.cycles = 5;
            self.last_step_result.bytes = 0;
            return Ok(self.last_step_result);
        }
        let result = match self.dispatch() {
            Ok(result) => result,
            Err(message) => return Err(message),
        };
        self.finish_instruction(result);
        Ok(result)
    }

    /// Wrap up an executed instruction: record its result, move PC past it
    /// (except for the instructions that set PC themselves), tick the
    /// delayed IME enable, apply the condition codes and count the cycles.
    #[verifier::rlimit(30)]
    fn finish_instruction(&mut self, result: InstructionResult)
        ensures
            final(self)@ == old(self)@.finished(result),
    {
        self.last_step_result = result;
        match self.next_instruction {
            Instructions::JP(_, _) | Instructions::CALL(_, _) | Instructions::RST(_) | Instructions::RET(_) | Instructions::RETI => {},
            _ => {
                let pc = self.get_16bit_register(Register16Bit::PC);
                self.set_16bit_register(Register16Bit::PC, pc.wrapping_add(result.bytes as u16));
            },
        }
        self.update_ime();
        self.apply_condition_codes(result.condition_codes);
        self.cycles = self.cycles.wrapping_add(result.cycles as u64);
    }
}

/// Whether executing `instruction` cannot fail by a panic (see `is_executable`).
pub fn instruction_is_executable(instruction: &Instructions) -> (r: bool)
    ensures
        r == is_executable(*instruction),
{
    match instruction {
        Instructions::STOP => false,
        Instructions::PUSH(InstParam::Register16Bit(r)) => {
            *r == Register16Bit::AF || *r == Register16Bit::BC || *r == Register16Bit::DE || *r == Register16Bit::HL
        },
        Instructions::BIT(InstParam::Unsigned3Bit(b), InstParam::Register8Bit(_)) => *b < 8,
        Instructions::BIT(InstParam::Unsigned3Bit(b), InstParam::Register16Bit(Register16Bit::HL)) => *b < 8,
        Instructions::RES(InstParam::Unsigned3Bit(b), InstParam::Register8Bit(_)) => *b < 8,
        Instructions::RES(InstParam::Unsigned3Bit(b), InstParam::Register16Bit(Register16Bit::HL)) => *b < 8,
        Instructions::SET(InstParam::Unsigned3Bit(b), InstParam::Register8Bit(_)) => *b < 8,
        Instructions::SET(InstParam::Unsigned3Bit(b), InstParam::Register16Bit(Register16Bit::HL)) => *b < 8,
        _ => true,
    }
}

/// What running one instruction came to.
pub enum RunOutcome {
    /// The step ran: its result, or the refusal of the instruction.
    Stepped(Result<InstructionResult, String>),
    /// The decoded instruction cannot be executed (STOP is not implemented,
    /// and the other instructions that `is_executable` excludes fail) and no
    /// pending interrupt takes the step; the instruction was decoded but not
    /// executed.
    Unexecutable(Instructions),
}

/// The mathematical model of a [`RunOutcome`].
pub enum RunOutcomeView {
    Stepped(Result<InstructionResult, Seq<char>>),
    Unexecutable(Instructions),
}

impl View for RunOutcome {
    type V = RunOutcomeView;

    open spec fn view(&self) -> RunOutcomeView {
        match self {
            RunOutcome::Stepped(r) => RunOutcomeView::Stepped(result_view(*r)),
            RunOutcome::Unexecutable(i) => RunOutcomeView::Unexecutable(*i),
        }
    }
}

impl CpuView {
    /// Whether a step can be taken: a pending interrupt takes it, or else
    /// the next instruction can be executed.
    pub open spec fn can_step(self) -> bool {
        is_executable(self.next_instruction) || self.pending_interrupt(true) is Some
    }

    /// The state in which the next instruction is decoded: at PC 0x0100 the
    /// boot ROM is skipped first, then DIV ticks and the instruction at PC
    /// is decoded.
    pub open spec fn before_instruction(self) -> CpuView {
        let booted = if self.pc() == 0x0100 { self.op_skip_boot_rom() } else { self };
        booted.op_increment_div().prepared()
    }

    /// Running one instruction: prepare it, then step when a step can be
    /// taken.
    pub open spec fn op_run_instruction(self) -> (CpuView, RunOutcomeView) {
        let prepared = self.before_instruction();
        if prepared.can_step() {
            let (stepped, result) = prepared.op_step();
            (stepped, RunOutcomeView::Stepped(result))
        } else {
            (prepared, RunOutcomeView::Unexecutable(prepared.next_instruction))
        }
    }
}

impl CPU {
    /// Get the next instruction ready as the emulator's main loop does: skip
    /// the boot ROM when PC reaches 0x0100, tick DIV and decode the
    /// instruction at PC, which is returned.
    pub fn prepare_instruction(&mut self) -> (r: Instructions)
        ensures
            final(self)@ == old(self)@.before_instruction(),
            r == final(self)@.next_instruction,
    {
        // The boot ROM ends at 0x0100
        if self.get_16bit_register(Register16Bit::PC) == 0x0100 {
            self.skip_boot_rom();
        }
        self.increment_div();
        let _ = self.prepare_and_decode_next_instruction();
        self.next_instruction
    }

    /// Whether `step` can be called now (see `CpuView::can_step`).
    pub fn can_step(&mut self) -> (r: bool)
        ensures
            final(self)@ == old(self)@,
            r == old(self)@.can_step(),
            r == (is_executable(old(self).next_instruction) || old(self)@.pending_interrupt(true) is Some),
    {
        if instruction_is_executable(&self.next_instruction) {
            true
        } else {
            self.check_interrupts(true).is_some()
        }
    }

    /// Run one instruction as the emulator's main loop does: skip the boot
    /// ROM when PC reaches 0x0100, tick DIV, decode the instruction at PC and
    /// step.
    pub fn run_instruction(&mut self) -> (r: RunOutcome)
        ensures
            final(self)@ == old(self)@.op_run_instruction().0,
            r@ == old(self)@.op_run_instruction().1,
    {
        let instruction = self.prepare_instruction();
        if self.can_step() {
            RunOutcome::Stepped(self.step())
        } else {
            RunOutcome::Unexecutable(instruction)
        }
    }
}

} // verus!
