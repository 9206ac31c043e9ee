use vstd::prelude::*;

verus! {

/// Where an instruction finds or puts a byte: one of the seven registers,
/// the memory cell that H:L points to, or the byte that follows the
/// instruction.
#[derive(Copy, Clone, PartialEq, Eq, Debug, Structural)]
pub enum Operand8 {
    RegB,
    RegC,
    RegD,
    RegE,
    RegH,
    RegL,
    Memory,
    RegA,
    Immediate,
}

/// The operand that a three-bit field of an instruction byte selects.
pub open spec fn register_field(field: u8) -> Operand8 {
    if field == 0 {
        Operand8::RegB
    } else if field == 1 {
        Operand8::RegC
    } else if field == 2 {
        Operand8::RegD
    } else if field == 3 {
        Operand8::RegE
    } else if field == 4 {
        Operand8::RegH
    } else if field == 5 {
        Operand8::RegL
    } else if field == 6 {
        Operand8::Memory
    } else if field == 7 {
        Operand8::RegA
    } else {
        Operand8::Immediate
    }
}

impl vstd::std_specs::convert::FromSpecImpl<u8> for Operand8 {
    open spec fn obeys_from_spec() -> bool {
        true
    }

    open spec fn from_spec(orig: u8) -> Operand8 {
        register_field(orig)
    }
}

impl From<u8> for Operand8 {
    /// The operand with the number `orig`; every number above 7 stands for
    /// the immediate byte.
    fn from(orig: u8) -> (operand: Operand8) {
        match orig {
            0 => return Operand8::RegB,
            1 => return Operand8::RegC,
            2 => return Operand8::RegD,
            3 => return Operand8::RegE,
            4 => return Operand8::RegH,
            5 => return Operand8::RegL,
            6 => return Operand8::Memory,
            7 => return Operand8::RegA,
            _ => return Operand8::Immediate,
        }
    }
}

/// A 16-bit operand: one of the register pairs, the program status word or
/// the stack pointer.
#[derive(Copy, Clone, PartialEq, Eq, Debug, Structural)]
pub enum Operand16 {
    RegPairB,
    RegPairD,
    RegPairH,
    PSW,
    SP,
}

/// The 16-bit operand that a two-bit field selects in the instructions that
/// save and restore pairs on the stack.
pub open spec fn stack_pair_field(field: u8) -> Operand16 {
    if field == 0 {
        Operand16::RegPairB
    } else if field == 1 {
        Operand16::RegPairD
    } else if field == 2 {
        Operand16::RegPairH
    } else if field == 3 {
        Operand16::PSW
    } else {
        Operand16::SP
    }
}

/// The 16-bit operand that a two-bit field selects in the instructions that
/// load, add, increment and decrement pairs.
pub open spec fn pair_field(field: u8) -> Operand16 {
    if field == 0 {
        Operand16::RegPairB
    } else if field == 1 {
        Operand16::RegPairD
    } else if field == 2 {
        Operand16::RegPairH
    } else {
        Operand16::SP
    }
}

impl vstd::std_specs::convert::FromSpecImpl<u8> for Operand16 {
    open spec fn obeys_from_spec() -> bool {
        true
    }

    open spec fn from_spec(orig: u8) -> Operand16 {
        stack_pair_field(orig)
    }
}

impl From<u8> for Operand16 {
    /// The 16-bit operand with the number `orig`; every number above 3
    /// stands for the stack pointer.
    fn from(orig: u8) -> (operand: Operand16) {
        match orig {
            0 => Operand16::RegPairB,
            1 => Operand16::RegPairD,
            2 => Operand16::RegPairH,
            3 => Operand16::PSW,
            _ => Operand16::SP,
        }
    }
}

/// The condition under which a jump, call or return takes place.
#[derive(Copy, Clone, PartialEq, Eq, Debug, Structural)]
pub enum ConditionCode {
    NotZero,
    Zero,
    NoCarry,
    Carry,
    ParityOdd,
    ParityEven,
    Positive,
    Minus,
    Unconditional,
}

/// The condition that a three-bit field of an instruction byte selects.
pub open spec fn condition_field(field: u8) -> ConditionCode {
    if field == 0 {
        ConditionCode::NotZero
    } else if field == 1 {
        ConditionCode::Zero
    } else if field == 2 {
        ConditionCode::NoCarry
    } else if field == 3 {
        ConditionCode::Carry
    } else if field == 4 {
        ConditionCode::ParityOdd
    } else if field == 5 {
        ConditionCode::ParityEven
    } else if field == 6 {
        ConditionCode::Positive
    } else {
        ConditionCode::Minus
    }
}

} // verus!
