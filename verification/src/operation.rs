use crate::instruction::{canonical_opcode, Instruction};
use crate::operand::{
    condition_field, pair_field, register_field, stack_pair_field, ConditionCode, Operand16,
    Operand8,
};
use vstd::prelude::*;

verus! {

/// What an instruction does, apart from how it is written down: the kind of
/// work and the operands it is done on.
#[derive(Copy, Clone, PartialEq, Eq, Debug, Structural)]
pub enum Operation {
    Nop,
    Stc,
    Cmc,
    Cma,
    Daa,
    Inr(Operand8),
    Dcr(Operand8),
    /// Destination, then source.
    Mov(Operand8, Operand8),
    Stax(Operand16),
    Ldax(Operand16),
    Add(Operand8),
    Adc(Operand8),
    Sub(Operand8),
    Sbb(Operand8),
    Ana(Operand8),
    Xra(Operand8),
    Ora(Operand8),
    Cmp(Operand8),
    Rlc,
    Rrc,
    Ral,
    Rar,
    Push(Operand16),
    Pop(Operand16),
    Dad(Operand16),
    Inx(Operand16),
    Dcx(Operand16),
    Xchg,
    Xthl,
    Sphl,
    Lxi(Operand16),
    Sta,
    Lda,
    Shld,
    Lhld,
    Pchl,
    Jmp(ConditionCode),
    Call(ConditionCode),
    Ret(ConditionCode),
    /// The number of the restart, from 0 to 7.
    Rst(u8),
    Ei,
    Di,
    In,
    Out,
    Hlt,
}

/// The arithmetic or logical operation that a three-bit field selects.
pub open spec fn accumulator_operation(kind: u8, src: Operand8) -> Operation {
    if kind == 0 {
        Operation::Add(src)
    } else if kind == 1 {
        Operation::Adc(src)
    } else if kind == 2 {
        Operation::Sub(src)
    } else if kind == 3 {
        Operation::Sbb(src)
    } else if kind == 4 {
        Operation::Ana(src)
    } else if kind == 5 {
        Operation::Xra(src)
    } else if kind == 6 {
        Operation::Ora(src)
    } else {
        Operation::Cmp(src)
    }
}

/// The operation of a byte whose upper two bits are 00.
pub open spec fn first_quarter(upper: u8, lower: u8) -> Operation {
    if lower == 0 {
        Operation::Nop
    } else if lower == 1 {
        if upper % 2 == 0 {
            Operation::Lxi(pair_field(upper / 2))
        } else {
            Operation::Dad(pair_field(upper / 2))
        }
    } else if lower == 2 {
        if upper == 0 {
            Operation::Stax(Operand16::RegPairB)
        } else if upper == 1 {
            Operation::Ldax(Operand16::RegPairB)
        } else if upper == 2 {
            Operation::Stax(Operand16::RegPairD)
        } else if upper == 3 {
            Operation::Ldax(Operand16::RegPairD)
        } else if upper == 4 {
            Operation::Shld
        } else if upper == 5 {
            Operation::Lhld
        } else if upper == 6 {
            Operation::Sta
        } else {
            Operation::Lda
        }
    } else if lower == 3 {
        if upper % 2 == 0 {
            Operation::Inx(pair_field(upper / 2))
        } else {
            Operation::Dcx(pair_field(upper / 2))
        }
    } else if lower == 4 {
        Operation::Inr(register_field(upper))
    } else if lower == 5 {
        Operation::Dcr(register_field(upper))
    } else if lower == 6 {
        Operation::Mov(register_field(upper), Operand8::Immediate)
    } else if upper == 0 {
        Operation::Rlc
    } else if upper == 1 {
        Operation::Rrc
    } else if upper == 2 {
        Operation::Ral
    } else if upper == 3 {
        Operation::Rar
    } else if upper == 4 {
        Operation::Daa
    } else if upper == 5 {
        Operation::Cma
    } else if upper == 6 {
        Operation::Stc
    } else {
        Operation::Cmc
    }
}

/// The operation of a byte whose upper two bits are 11.
pub open spec fn last_quarter(upper: u8, lower: u8) -> Operation {
    if lower == 0 {
        Operation::Ret(condition_field(upper))
    } else if lower == 1 {
        if upper % 2 == 0 {
            Operation::Pop(stack_pair_field(upper / 2))
        } else if upper == 5 {
            Operation::Pchl
        } else if upper == 7 {
            Operation::Sphl
        } else {
            Operation::Ret(ConditionCode::Unconditional)
        }
    } else if lower == 2 {
        Operation::Jmp(condition_field(upper))
    } else if lower == 3 {
        if upper == 2 {
            Operation::Out
        } else if upper == 3 {
            Operation::In
        } else if upper == 4 {
            Operation::Xthl
        } else if upper == 5 {
            Operation::Xchg
        } else if upper == 6 {
            Operation::Di
        } else if upper == 7 {
            Operation::Ei
        } else {
            Operation::Jmp(ConditionCode::Unconditional)
        }
    } else if lower == 4 {
        Operation::Call(condition_field(upper))
    } else if lower == 5 {
        if upper % 2 == 0 {
            Operation::Push(stack_pair_field(upper / 2))
        } else {
            Operation::Call(ConditionCode::Unconditional)
        }
    } else if lower == 6 {
        accumulator_operation(upper, Operand8::Immediate)
    } else {
        Operation::Rst(upper)
    }
}

/// The operation that a byte of the instruction stream selects, read off
/// its bit fields: bits 7 and 6 select the group, bits 5 to 3 and bits 2 to
/// 0 the operands or the operation within the group.
#[verifier::opaque]
pub open spec fn operation_of(opcode: u8) -> Operation {
    let group = opcode / 64;
    let upper = opcode / 8 % 8;
    let lower = opcode % 8;
    if group == 0 {
        first_quarter(upper, lower)
    } else if group == 1 {
        if opcode == 0x76 {
            Operation::Hlt
        } else {
            Operation::Mov(register_field(upper), register_field(lower))
        }
    } else if group == 2 {
        accumulator_operation(upper, register_field(lower))
    } else {
        last_quarter(upper, lower)
    }
}

impl Operation {
    /// Whether the operands suit the operation: nothing is written to the
    /// immediate byte, the accumulator is stored and loaded through B:C or
    /// D:E only, the stack pointer is not pushed or popped, and a restart
    /// has a number from 0 to 7.
    pub open spec fn well_formed(self) -> bool {
        match self {
            Operation::Inr(reg) => reg != Operand8::Immediate,
            Operation::Dcr(reg) => reg != Operand8::Immediate,
            Operation::Mov(dst, _) => dst != Operand8::Immediate,
            Operation::Stax(dst) => dst == Operand16::RegPairB || dst == Operand16::RegPairD,
            Operation::Ldax(dst) => dst == Operand16::RegPairB || dst == Operand16::RegPairD,
            Operation::Push(src) => src != Operand16::SP,
            Operation::Pop(dst) => dst != Operand16::SP,
            Operation::Rst(exp) => exp < 8,
            _ => true,
        }
    }
}

/// The operands that the bit fields of a byte select always suit the
/// operation that they select.
pub proof fn lemma_operation_well_formed(opcode: u8)
    ensures
        operation_of(opcode).well_formed(),
{
    reveal(operation_of);
}

/// The undocumented encodings select the operation of the documented
/// encoding that they stand for.
pub proof fn lemma_alias(opcode: u8)
    ensures
        operation_of(canonical_opcode(opcode)) == operation_of(opcode),
{
    reveal(operation_of);
}

impl Instruction {
    /// What the instruction does: the operation that the bit fields of its
    /// encoding select.
    #[verifier::rlimit(40)]
    pub fn operation(self) -> (operation: Operation)
        ensures
            operation == operation_of(self.opcode()),
            operation.well_formed(),
    {
        proof {
            reveal(operation_of);
            lemma_operation_well_formed(self.opcode());
        }
        match self {
            Instruction::NOP => Operation::Nop,
            Instruction::STC => Operation::Stc,
            Instruction::CMC => Operation::Cmc,
            Instruction::INR_B => Operation::Inr(Operand8::RegB),
            Instruction::INR_C => Operation::Inr(Operand8::RegC),
            Instruction::INR_D => Operation::Inr(Operand8::RegD),
            Instruction::INR_E => Operation::Inr(Operand8::RegE),
            Instruction::INR_H => Operation::Inr(Operand8::RegH),
            Instruction::INR_L => Operation::Inr(Operand8::RegL),
            Instruction::INR_M => Operation::Inr(Operand8::Memory),
            Instruction::INR_A => Operation::Inr(Operand8::RegA),
            Instruction::DCR_B => Operation::Dcr(Operand8::RegB),
            Instruction::DCR_C => Operation::Dcr(Operand8::RegC),
            Instruction::DCR_D => Operation::Dcr(Operand8::RegD),
            Instruction::DCR_E => Operation::Dcr(Operand8::RegE),
            Instruction::DCR_H => Operation::Dcr(Operand8::RegH),
            Instruction::DCR_L => Operation::Dcr(Operand8::RegL),
            Instruction::DCR_M => Operation::Dcr(Operand8::Memory),
            Instruction::DCR_A => Operation::Dcr(Operand8::RegA),
            Instruction::CMA => Operation::Cma,
            Instruction::DAA => Operation::Daa,
            Instruction::MOV_B_B => Operation::Mov(Operand8::RegB, Operand8::RegB),
            Instruction::MOV_B_C => Operation::Mov(Operand8::RegB, Operand8::RegC),
            Instruction::MOV_B_D => Operation::Mov(Operand8::RegB, Operand8::RegD),
            Instruction::MOV_B_E => Operation::Mov(Operand8::RegB, Operand8::RegE),
            Instruction::MOV_B_H => Operation::Mov(Operand8::RegB, Operand8::RegH),
            Instruction::MOV_B_L => Operation::Mov(Operand8::RegB, Operand8::RegL),
            Instruction::MOV_B_M => Operation::Mov(Operand8::RegB, Operand8::Memory),
            Instruction::MOV_B_A => Operation::Mov(Operand8::RegB, Operand8::RegA),
            Instruction::MOV_C_B => Operation::Mov(Operand8::RegC, Operand8::RegB),
            Instruction::MOV_C_C => Operation::Mov(Operand8::RegC, Operand8::RegC),
            Instruction::MOV_C_D => Operation::Mov(Operand8::RegC, Operand8::RegD),
            Instruction::MOV_C_E => Operation::Mov(Operand8::RegC, Operand8::RegE),
            Instruction::MOV_C_H => Operation::Mov(Operand8::RegC, Operand8::RegH),
            Instruction::MOV_C_L => Operation::Mov(Operand8::RegC, Operand8::RegL),
            Instruction::MOV_C_M => Operation::Mov(Operand8::RegC, Operand8::Memory),
            Instruction::MOV_C_A => Operation::Mov(Operand8::RegC, Operand8::RegA),
            Instruction::MOV_D_B => Operation::Mov(Operand8::RegD, Operand8::RegB),
            Instruction::MOV_D_C => Operation::Mov(Operand8::RegD, Operand8::RegC),
            Instruction::MOV_D_D => Operation::Mov(Operand8::RegD, Operand8::RegD),
            Instruction::MOV_D_E => Operation::Mov(Operand8::RegD, Operand8::RegE),
            Instruction::MOV_D_H => Operation::Mov(Operand8::RegD, Operand8::RegH),
            Instruction::MOV_D_L => Operation::Mov(Operand8::RegD, Operand8::RegL),
            Instruction::MOV_D_M => Operation::Mov(Operand8::RegD, Operand8::Memory),
            Instruction::MOV_D_A => Operation::Mov(Operand8::RegD, Operand8::RegA),
            Instruction::MOV_E_B => Operation::Mov(Operand8::RegE, Operand8::RegB),
            Instruction::MOV_E_C => Operation::Mov(Operand8::RegE, Operand8::RegC),
            Instruction::MOV_E_D => Operation::Mov(Operand8::RegE, Operand8::RegD),
            Instruction::MOV_E_E => Operation::Mov(Operand8::RegE, Operand8::RegE),
            Instruction::MOV_E_H => Operation::Mov(Operand8::RegE, Operand8::RegH),
            Instruction::MOV_E_L => Operation::Mov(Operand8::RegE, Operand8::RegL),
            Instruction::MOV_E_M => Operation::Mov(Operand8::RegE, Operand8::Memory),
            Instruction::MOV_E_A => Operation::Mov(Operand8::RegE, Operand8::RegA),
            Instruction::MOV_H_B => Operation::Mov(Operand8::RegH, Operand8::RegB),
            Instruction::MOV_H_C => Operation::Mov(Operand8::RegH, Operand8::RegC),
            Instruction::MOV_H_D => Operation::Mov(Operand8::RegH, Operand8::RegD),
            Instruction::MOV_H_E => Operation::Mov(Operand8::RegH, Operand8::RegE),
            Instruction::MOV_H_H => Operation::Mov(Operand8::RegH, Operand8::RegH),
            Instruction::MOV_H_L => Operation::Mov(Operand8::RegH, Operand8::RegL),
            Instruction::MOV_H_M => Operation::Mov(Operand8::RegH, Operand8::Memory),
            Instruction::MOV_H_A => Operation::Mov(Operand8::RegH, Operand8::RegA),
            Instruction::MOV_L_B => Operation::Mov(Operand8::RegL, Operand8::RegB),
            Instruction::MOV_L_C => Operation::Mov(Operand8::RegL, Operand8::RegC),
            Instruction::MOV_L_D => Operation::Mov(Operand8::RegL, Operand8::RegD),
            Instruction::MOV_L_E => Operation::Mov(Operand8::RegL, Operand8::RegE),
            Instruction::MOV_L_H => Operation::Mov(Operand8::RegL, Operand8::RegH),
            Instruction::MOV_L_L => Operation::Mov(Operand8::RegL, Operand8::RegL),
            Instruction::MOV_L_M => Operation::Mov(Operand8::RegL, Operand8::Memory),
            Instruction::MOV_L_A => Operation::Mov(Operand8::RegL, Operand8::RegA),
            Instruction::MOV_M_B => Operation::Mov(Operand8::Memory, Operand8::RegB),
            Instruction::MOV_M_C => Operation::Mov(Operand8::Memory, Operand8::RegC),
            Instruction::MOV_M_D => Operation::Mov(Operand8::Memory, Operand8::RegD),
            Instruction::MOV_M_E => Operation::Mov(Operand8::Memory, Operand8::RegE),
            Instruction::MOV_M_H => Operation::Mov(Operand8::Memory, Operand8::RegH),
            Instruction::MOV_M_L => Operation::Mov(Operand8::Memory, Operand8::RegL),
            Instruction::MOV_M_A => Operation::Mov(Operand8::Memory, Operand8::RegA),
            Instruction::MOV_A_B => Operation::Mov(Operand8::RegA, Operand8::RegB),
            Instruction::MOV_A_C => Operation::Mov(Operand8::RegA, Operand8::RegC),
            Instruction::MOV_A_D => Operation::Mov(Operand8::RegA, Operand8::RegD),
            Instruction::MOV_A_E => Operation::Mov(Operand8::RegA, Operand8::RegE),
            Instruction::MOV_A_H => Operation::Mov(Operand8::RegA, Operand8::RegH),
            Instruction::MOV_A_L => Operation::Mov(Operand8::RegA, Operand8::RegL),
            Instruction::MOV_A_M => Operation::Mov(Operand8::RegA, Operand8::Memory),
            Instruction::MOV_A_A => Operation::Mov(Operand8::RegA, Operand8::RegA),
            Instruction::STAX_B => Operation::Stax(Operand16::RegPairB),
            Instruction::STAX_D => Operation::Stax(Operand16::RegPairD),
            Instruction::LDAX_B => Operation::Ldax(Operand16::RegPairB),
            Instruction::LDAX_D => Operation::Ldax(Operand16::RegPairD),
            Instruction::ADD_B => Operation::Add(Operand8::RegB),
            Instruction::ADD_C => Operation::Add(Operand8::RegC),
            Instruction::ADD_D => Operation::Add(Operand8::RegD),
            Instruction::ADD_E => Operation::Add(Operand8::RegE),
            Instruction::ADD_H => Operation::Add(Operand8::RegH),
            Instruction::ADD_L => Operation::Add(Operand8::RegL),
            Instruction::ADD_M => Operation::Add(Operand8::Memory),
            Instruction::ADD_A => Operation::Add(Operand8::RegA),
            Instruction::ADC_B => Operation::Adc(Operand8::RegB),
            Instruction::ADC_C => Operation::Adc(Operand8::RegC),
            Instruction::ADC_D => Operation::Adc(Operand8::RegD),
            Instruction::ADC_E => Operation::Adc(Operand8::RegE),
            Instruction::ADC_H => Operation::Adc(Operand8::RegH),
            Instruction::ADC_L => Operation::Adc(Operand8::RegL),
            Instruction::ADC_M => Operation::Adc(Operand8::Memory),
            Instruction::ADC_A => Operation::Adc(Operand8::RegA),
            Instruction::SUB_B => Operation::Sub(Operand8::RegB),
            Instruction::SUB_C => Operation::Sub(Operand8::RegC),
            Instruction::SUB_D => Operation::Sub(Operand8::RegD),
            Instruction::SUB_E => Operation::Sub(Operand8::RegE),
            Instruction::SUB_H => Operation::Sub(Operand8::RegH),
            Instruction::SUB_L => Operation::Sub(Operand8::RegL),
            Instruction::SUB_M => Operation::Sub(Operand8::Memory),
            Instruction::SUB_A => Operation::Sub(Operand8::RegA),
            Instruction::SBB_B => Operation::Sbb(Operand8::RegB),
            Instruction::SBB_C => Operation::Sbb(Operand8::RegC),
            Instruction::SBB_D => Operation::Sbb(Operand8::RegD),
            Instruction::SBB_E => Operation::Sbb(Operand8::RegE),
            Instruction::SBB_H => Operation::Sbb(Operand8::RegH),
            Instruction::SBB_L => Operation::Sbb(Operand8::RegL),
            Instruction::SBB_M => Operation::Sbb(Operand8::Memory),
            Instruction::SBB_A => Operation::Sbb(Operand8::RegA),
            Instruction::ANA_B => Operation::Ana(Operand8::RegB),
            Instruction::ANA_C => Operation::Ana(Operand8::RegC),
            Instruction::ANA_D => Operation::Ana(Operand8::RegD),
            Instruction::ANA_E => Operation::Ana(Operand8::RegE),
            Instruction::ANA_H => Operation::Ana(Operand8::RegH),
            Instruction::ANA_L => Operation::Ana(Operand8::RegL),
            Instruction::ANA_M => Operation::Ana(Operand8::Memory),
            Instruction::ANA_A => Operation::Ana(Operand8::RegA),
            Instruction::XRA_B => Operation::Xra(Operand8::RegB),
            Instruction::XRA_C => Operation::Xra(Operand8::RegC),
            Instruction::XRA_D => Operation::Xra(Operand8::RegD),
            Instruction::XRA_E => Operation::Xra(Operand8::RegE),
            Instruction::XRA_H => Operation::Xra(Operand8::RegH),
            Instruction::XRA_L => Operation::Xra(Operand8::RegL),
            Instruction::XRA_M => Operation::Xra(Operand8::Memory),
            Instruction::XRA_A => Operation::Xra(Operand8::RegA),
            Instruction::ORA_B => Operation::Ora(Operand8::RegB),
            Instruction::ORA_C => Operation::Ora(Operand8::RegC),
            Instruction::ORA_D => Operation::Ora(Operand8::RegD),
            Instruction::ORA_E => Operation::Ora(Operand8::RegE),
            Instruction::ORA_H => Operation::Ora(Operand8::RegH),
            Instruction::ORA_L => Operation::Ora(Operand8::RegL),
            Instruction::ORA_M => Operation::Ora(Operand8::Memory),
            Instruction::ORA_A => Operation::Ora(Operand8::RegA),
            Instruction::CMP_B => Operation::Cmp(Operand8::RegB),
            Instruction::CMP_C => Operation::Cmp(Operand8::RegC),
            Instruction::CMP_D => Operation::Cmp(Operand8::RegD),
            Instruction::CMP_E => Operation::Cmp(Operand8::RegE),
            Instruction::CMP_H => Operation::Cmp(Operand8::RegH),
            Instruction::CMP_L => Operation::Cmp(Operand8::RegL),
            Instruction::CMP_M => Operation::Cmp(Operand8::Memory),
            Instruction::CMP_A => Operation::Cmp(Operand8::RegA),
            Instruction::RLC => Operation::Rlc,
            Instruction::RRC => Operation::Rrc,
            Instruction::RAL => Operation::Ral,
            Instruction::RAR => Operation::Rar,
            Instruction::PUSH_B => Operation::Push(Operand16::RegPairB),
            Instruction::PUSH_D => Operation::Push(Operand16::RegPairD),
            Instruction::PUSH_H => Operation::Push(Operand16::RegPairH),
            Instruction::PUSH_PSW => Operation::Push(Operand16::PSW),
            Instruction::POP_B => Operation::Pop(Operand16::RegPairB),
            Instruction::POP_D => Operation::Pop(Operand16::RegPairD),
            Instruction::POP_H => Operation::Pop(Operand16::RegPairH),
            Instruction::POP_PSW => Operation::Pop(Operand16::PSW),
            Instruction::DAD_B => Operation::Dad(Operand16::RegPairB),
            Instruction::DAD_D => Operation::Dad(Operand16::RegPairD),
            Instruction::DAD_H => Operation::Dad(Operand16::RegPairH),
            Instruction::DAD_SP => Operation::Dad(Operand16::SP),
            Instruction::INX_B => Operation::Inx(Operand16::RegPairB),
            Instruction::INX_D => Operation::Inx(Operand16::RegPairD),
            Instruction::INX_H => Operation::Inx(Operand16::RegPairH),
            Instruction::INX_SP => Operation::Inx(Operand16::SP),
            Instruction::DCX_B => Operation::Dcx(Operand16::RegPairB),
            Instruction::DCX_D => Operation::Dcx(Operand16::RegPairD),
            Instruction::DCX_H => Operation::Dcx(Operand16::RegPairH),
            Instruction::DCX_SP => Operation::Dcx(Operand16::SP),
            Instruction::XCHG => Operation::Xchg,
            Instruction::XTHL => Operation::Xthl,
            Instruction::SPHL => Operation::Sphl,
            Instruction::LXI_B => Operation::Lxi(Operand16::RegPairB),
            Instruction::LXI_D => Operation::Lxi(Operand16::RegPairD),
            Instruction::LXI_H => Operation::Lxi(Operand16::RegPairH),
            Instruction::LXI_SP => Operation::Lxi(Operand16::SP),
            Instruction::MVI_B => Operation::Mov(Operand8::RegB, Operand8::Immediate),
            Instruction::MVI_C => Operation::Mov(Operand8::RegC, Operand8::Immediate),
            Instruction::MVI_D => Operation::Mov(Operand8::RegD, Operand8::Immediate),
            Instruction::MVI_E => Operation::Mov(Operand8::RegE, Operand8::Immediate),
            Instruction::MVI_H => Operation::Mov(Operand8::RegH, Operand8::Immediate),
            Instruction::MVI_L => Operation::Mov(Operand8::RegL, Operand8::Immediate),
            Instruction::MVI_M => Operation::Mov(Operand8::Memory, Operand8::Immediate),
            Instruction::MVI_A => Operation::Mov(Operand8::RegA, Operand8::Immediate),
            Instruction::ADI => Operation::Add(Operand8::Immediate),
            Instruction::ACI => Operation::Adc(Operand8::Immediate),
            Instruction::SUI => Operation::Sub(Operand8::Immediate),
            Instruction::SBI => Operation::Sbb(Operand8::Immediate),
            Instruction::ANI => Operation::Ana(Operand8::Immediate),
            Instruction::XRI => Operation::Xra(Operand8::Immediate),
            Instruction::ORI => Operation::Ora(Operand8::Immediate),
            Instruction::CPI => Operation::Cmp(Operand8::Immediate),
            Instruction::STA => Operation::Sta,
            Instruction::LDA => Operation::Lda,
            Instruction::SHLD => Operation::Shld,
            Instruction::LHLD => Operation::Lhld,
            Instruction::PCHL => Operation::Pchl,
            Instruction::JMP => Operation::Jmp(ConditionCode::Unconditional),
            Instruction::JC => Operation::Jmp(ConditionCode::Carry),
            Instruction::JNC => Operation::Jmp(ConditionCode::NoCarry),
            Instruction::JZ => Operation::Jmp(ConditionCode::Zero),
            Instruction::JNZ => Operation::Jmp(ConditionCode::NotZero),
            Instruction::JM => Operation::Jmp(ConditionCode::Minus),
            Instruction::JP => Operation::Jmp(ConditionCode::Positive),
            Instruction::JPE => Operation::Jmp(ConditionCode::ParityEven),
            Instruction::JPO => Operation::Jmp(ConditionCode::ParityOdd),
            Instruction::CALL => Operation::Call(ConditionCode::Unconditional),
            Instruction::CC => Operation::Call(ConditionCode::Carry),
            Instruction::CNC => Operation::Call(ConditionCode::NoCarry),
            Instruction::CZ => Operation::Call(ConditionCode::Zero),
            Instruction::CNZ => Operation::Call(ConditionCode::NotZero),
            Instruction::CM => Operation::Call(ConditionCode::Minus),
            Instruction::CP => Operation::Call(ConditionCode::Positive),
            Instruction::CPE => Operation::Call(ConditionCode::ParityEven),
            Instruction::CPO => Operation::Call(ConditionCode::ParityOdd),
            Instruction::RET => Operation::Ret(ConditionCode::Unconditional),
            Instruction::RC => Operation::Ret(ConditionCode::Carry),
            Instruction::RNC => Operation::Ret(ConditionCode::NoCarry),
            Instruction::RZ => Operation::Ret(ConditionCode::Zero),
            Instruction::RNZ => Operation::Ret(ConditionCode::NotZero),
            Instruction::RM => Operation::Ret(ConditionCode::Minus),
            Instruction::RP => Operation::Ret(ConditionCode::Positive),
            Instruction::RPE => Operation::Ret(ConditionCode::ParityEven),
            Instruction::RPO => Operation::Ret(ConditionCode::ParityOdd),
            Instruction::RST_1 => Operation::Rst(0),
            Instruction::RST_2 => Operation::Rst(1),
            Instruction::RST_3 => Operation::Rst(2),
            Instruction::RST_4 => Operation::Rst(3),
            Instruction::RST_5 => Operation::Rst(4),
            Instruction::RST_6 => Operation::Rst(5),
            Instruction::RST_7 => Operation::Rst(6),
            Instruction::RST_8 => Operation::Rst(7),
            Instruction::EI => Operation::Ei,
            Instruction::DI => Operation::Di,
            Instruction::IN => Operation::In,
            Instruction::OUT => Operation::Out,
            Instruction::HLT => Operation::Hlt,
        }
    }
}

} // verus!
