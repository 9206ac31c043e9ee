use crate::operation::{lemma_alias, operation_of};
use vstd::prelude::*;

verus! {

/// One operation of the processor, named as in the assembly language.
///
/// Every variant stands for one behaviour; several bytes of the instruction
/// stream may select the same variant (see [`canonical_opcode`]).
#[allow(non_camel_case_types)]
#[derive(Copy, Clone, PartialEq, Eq, Debug, Structural)]
pub enum Instruction {
    /// No operation.
    NOP,
    /// Set the carry flag.
    STC,
    /// Complement the carry flag.
    CMC,
    /// Increment B.
    INR_B,
    /// Increment C.
    INR_C,
    /// Increment D.
    INR_D,
    /// Increment E.
    INR_E,
    /// Increment H.
    INR_H,
    /// Increment L.
    INR_L,
    /// Increment the memory cell at H:L.
    INR_M,
    /// Increment the accumulator.
    INR_A,
    /// Decrement B.
    DCR_B,
    /// Decrement C.
    DCR_C,
    /// Decrement D.
    DCR_D,
    /// Decrement E.
    DCR_E,
    /// Decrement H.
    DCR_H,
    /// Decrement L.
    DCR_L,
    /// Decrement the memory cell at H:L.
    DCR_M,
    /// Decrement the accumulator.
    DCR_A,
    /// Complement the accumulator.
    CMA,
    /// Adjust the accumulator to two decimal digits.
    DAA,
    /// Move B to B.
    MOV_B_B,
    /// Move C to B.
    MOV_B_C,
    /// Move D to B.
    MOV_B_D,
    /// Move E to B.
    MOV_B_E,
    /// Move H to B.
    MOV_B_H,
    /// Move L to B.
    MOV_B_L,
    /// Move the memory cell at H:L to B.
    MOV_B_M,
    /// Move the accumulator to B.
    MOV_B_A,
    /// Move B to C.
    MOV_C_B,
    /// Move C to C.
    MOV_C_C,
    /// Move D to C.
    MOV_C_D,
    /// Move E to C.
    MOV_C_E,
    /// Move H to C.
    MOV_C_H,
    /// Move L to C.
    MOV_C_L,
    /// Move the memory cell at H:L to C.
    MOV_C_M,
    /// Move the accumulator to C.
    MOV_C_A,
    /// Move B to D.
    MOV_D_B,
    /// Move C to D.
    MOV_D_C,
    /// Move D to D.
    MOV_D_D,
    /// Move E to D.
    MOV_D_E,
    /// Move H to D.
    MOV_D_H,
    /// Move L to D.
    MOV_D_L,
    /// Move the memory cell at H:L to D.
    MOV_D_M,
    /// Move the accumulator to D.
    MOV_D_A,
    /// Move B to E.
    MOV_E_B,
    /// Move C to E.
    MOV_E_C,
    /// Move D to E.
    MOV_E_D,
    /// Move E to E.
    MOV_E_E,
    /// Move H to E.
    MOV_E_H,
    /// Move L to E.
    MOV_E_L,
    /// Move the memory cell at H:L to E.
    MOV_E_M,
    /// Move the accumulator to E.
    MOV_E_A,
    /// Move B to H.
    MOV_H_B,
    /// Move C to H.
    MOV_H_C,
    /// Move D to H.
    MOV_H_D,
    /// Move E to H.
    MOV_H_E,
    /// Move H to H.
    MOV_H_H,
    /// Move L to H.
    MOV_H_L,
    /// Move the memory cell at H:L to H.
    MOV_H_M,
    /// Move the accumulator to H.
    MOV_H_A,
    /// Move B to L.
    MOV_L_B,
    /// Move C to L.
    MOV_L_C,
    /// Move D to L.
    MOV_L_D,
    /// Move E to L.
    MOV_L_E,
    /// Move H to L.
    MOV_L_H,
    /// Move L to L.
    MOV_L_L,
    /// Move the memory cell at H:L to L.
    MOV_L_M,
    /// Move the accumulator to L.
    MOV_L_A,
    /// Move B to the memory cell at H:L.
    MOV_M_B,
    /// Move C to the memory cell at H:L.
    MOV_M_C,
    /// Move D to the memory cell at H:L.
    MOV_M_D,
    /// Move E to the memory cell at H:L.
    MOV_M_E,
    /// Move H to the memory cell at H:L.
    MOV_M_H,
    /// Move L to the memory cell at H:L.
    MOV_M_L,
    /// Move the accumulator to the memory cell at H:L.
    MOV_M_A,
    /// Move B to the accumulator.
    MOV_A_B,
    /// Move C to the accumulator.
    MOV_A_C,
    /// Move D to the accumulator.
    MOV_A_D,
    /// Move E to the accumulator.
    MOV_A_E,
    /// Move H to the accumulator.
    MOV_A_H,
    /// Move L to the accumulator.
    MOV_A_L,
    /// Move the memory cell at H:L to the accumulator.
    MOV_A_M,
    /// Move the accumulator to the accumulator.
    MOV_A_A,
    /// Store the accumulator at the address in B:C.
    STAX_B,
    /// Store the accumulator at the address in D:E.
    STAX_D,
    /// Load the accumulator from the address in B:C.
    LDAX_B,
    /// Load the accumulator from the address in D:E.
    LDAX_D,
    /// Add B to the accumulator.
    ADD_B,
    /// Add C to the accumulator.
    ADD_C,
    /// Add D to the accumulator.
    ADD_D,
    /// Add E to the accumulator.
    ADD_E,
    /// Add H to the accumulator.
    ADD_H,
    /// Add L to the accumulator.
    ADD_L,
    /// Add the memory cell at H:L to the accumulator.
    ADD_M,
    /// Add the accumulator to the accumulator.
    ADD_A,
    /// Add B and the carry flag to the accumulator.
    ADC_B,
    /// Add C and the carry flag to the accumulator.
    ADC_C,
    /// Add D and the carry flag to the accumulator.
    ADC_D,
    /// Add E and the carry flag to the accumulator.
    ADC_E,
    /// Add H and the carry flag to the accumulator.
    ADC_H,
    /// Add L and the carry flag to the accumulator.
    ADC_L,
    /// Add the memory cell at H:L and the carry flag to the accumulator.
    ADC_M,
    /// Add the accumulator and the carry flag to the accumulator.
    ADC_A,
    /// Subtract B from the accumulator.
    SUB_B,
    /// Subtract C from the accumulator.
    SUB_C,
    /// Subtract D from the accumulator.
    SUB_D,
    /// Subtract E from the accumulator.
    SUB_E,
    /// Subtract H from the accumulator.
    SUB_H,
    /// Subtract L from the accumulator.
    SUB_L,
    /// Subtract the memory cell at H:L from the accumulator.
    SUB_M,
    /// Subtract the accumulator from the accumulator.
    SUB_A,
    /// Subtract B and the carry flag from the accumulator.
    SBB_B,
    /// Subtract C and the carry flag from the accumulator.
    SBB_C,
    /// Subtract D and the carry flag from the accumulator.
    SBB_D,
    /// Subtract E and the carry flag from the accumulator.
    SBB_E,
    /// Subtract H and the carry flag from the accumulator.
    SBB_H,
    /// Subtract L and the carry flag from the accumulator.
    SBB_L,
    /// Subtract the memory cell at H:L and the carry flag from the accumulator.
    SBB_M,
    /// Subtract the accumulator and the carry flag from the accumulator.
    SBB_A,
    /// And B into the accumulator.
    ANA_B,
    /// And C into the accumulator.
    ANA_C,
    /// And D into the accumulator.
    ANA_D,
    /// And E into the accumulator.
    ANA_E,
    /// And H into the accumulator.
    ANA_H,
    /// And L into the accumulator.
    ANA_L,
    /// And the memory cell at H:L into the accumulator.
    ANA_M,
    /// And the accumulator into the accumulator.
    ANA_A,
    /// Exclusive-or B into the accumulator.
    XRA_B,
    /// Exclusive-or C into the accumulator.
    XRA_C,
    /// Exclusive-or D into the accumulator.
    XRA_D,
    /// Exclusive-or E into the accumulator.
    XRA_E,
    /// Exclusive-or H into the accumulator.
    XRA_H,
    /// Exclusive-or L into the accumulator.
    XRA_L,
    /// Exclusive-or the memory cell at H:L into the accumulator.
    XRA_M,
    /// Exclusive-or the accumulator into the accumulator.
    XRA_A,
    /// Or B into the accumulator.
    ORA_B,
    /// Or C into the accumulator.
    ORA_C,
    /// Or D into the accumulator.
    ORA_D,
    /// Or E into the accumulator.
    ORA_E,
    /// Or H into the accumulator.
    ORA_H,
    /// Or L into the accumulator.
    ORA_L,
    /// Or the memory cell at H:L into the accumulator.
    ORA_M,
    /// Or the accumulator into the accumulator.
    ORA_A,
    /// Compare B with the accumulator.
    CMP_B,
    /// Compare C with the accumulator.
    CMP_C,
    /// Compare D with the accumulator.
    CMP_D,
    /// Compare E with the accumulator.
    CMP_E,
    /// Compare H with the accumulator.
    CMP_H,
    /// Compare L with the accumulator.
    CMP_L,
    /// Compare the memory cell at H:L with the accumulator.
    CMP_M,
    /// Compare the accumulator with the accumulator.
    CMP_A,
    /// Rotate the accumulator left.
    RLC,
    /// Rotate the accumulator right.
    RRC,
    /// Rotate the accumulator left through carry.
    RAL,
    /// Rotate the accumulator right through carry.
    RAR,
    /// Push B:C onto the stack.
    PUSH_B,
    /// Push D:E onto the stack.
    PUSH_D,
    /// Push H:L onto the stack.
    PUSH_H,
    /// Push the accumulator and the flags onto the stack.
    PUSH_PSW,
    /// Pop B:C off the stack.
    POP_B,
    /// Pop D:E off the stack.
    POP_D,
    /// Pop H:L off the stack.
    POP_H,
    /// Pop the accumulator and the flags off the stack.
    POP_PSW,
    /// Add B:C to H:L.
    DAD_B,
    /// Add D:E to H:L.
    DAD_D,
    /// Add H:L to H:L.
    DAD_H,
    /// Add the stack pointer to H:L.
    DAD_SP,
    /// Increment B:C.
    INX_B,
    /// Increment D:E.
    INX_D,
    /// Increment H:L.
    INX_H,
    /// Increment the stack pointer.
    INX_SP,
    /// Decrement B:C.
    DCX_B,
    /// Decrement D:E.
    DCX_D,
    /// Decrement H:L.
    DCX_H,
    /// Decrement the stack pointer.
    DCX_SP,
    /// Exchange D:E with H:L.
    XCHG,
    /// Exchange H:L with the top of the stack.
    XTHL,
    /// Load the stack pointer from H:L.
    SPHL,
    /// Load B:C with the two bytes that follow the instruction.
    LXI_B,
    /// Load D:E with the two bytes that follow the instruction.
    LXI_D,
    /// Load H:L with the two bytes that follow the instruction.
    LXI_H,
    /// Load the stack pointer with the two bytes that follow the instruction.
    LXI_SP,
    /// Move the byte that follows the instruction to B.
    MVI_B,
    /// Move the byte that follows the instruction to C.
    MVI_C,
    /// Move the byte that follows the instruction to D.
    MVI_D,
    /// Move the byte that follows the instruction to E.
    MVI_E,
    /// Move the byte that follows the instruction to H.
    MVI_H,
    /// Move the byte that follows the instruction to L.
    MVI_L,
    /// Move the byte that follows the instruction to the memory cell at H:L.
    MVI_M,
    /// Move the byte that follows the instruction to the accumulator.
    MVI_A,
    /// Add the byte that follows the instruction to the accumulator.
    ADI,
    /// Add the byte that follows the instruction and the carry flag to the accumulator.
    ACI,
    /// Subtract the byte that follows the instruction from the accumulator.
    SUI,
    /// Subtract the byte that follows the instruction and the carry flag from the accumulator.
    SBI,
    /// And the byte that follows the instruction into the accumulator.
    ANI,
    /// Exclusive-or the byte that follows the instruction into the accumulator.
    XRI,
    /// Or the byte that follows the instruction into the accumulator.
    ORI,
    /// Compare the byte that follows the instruction with the accumulator.
    CPI,
    /// Store the accumulator at the address that follows the instruction.
    STA,
    /// Load the accumulator from the address that follows the instruction.
    LDA,
    /// Store H:L at the address that follows the instruction.
    SHLD,
    /// Load H:L from the address that follows the instruction.
    LHLD,
    /// Load the program counter from H:L.
    PCHL,
    /// Jump.
    JMP,
    /// Jump if carry is set.
    JC,
    /// Jump if carry is clear.
    JNC,
    /// Jump if zero is set.
    JZ,
    /// Jump if zero is clear.
    JNZ,
    /// Jump if sign is set.
    JM,
    /// Jump if sign is clear.
    JP,
    /// Jump if parity is even.
    JPE,
    /// Jump if parity is odd.
    JPO,
    /// Call a subroutine.
    CALL,
    /// Call a subroutine if carry is set.
    CC,
    /// Call a subroutine if carry is clear.
    CNC,
    /// Call a subroutine if zero is set.
    CZ,
    /// Call a subroutine if zero is clear.
    CNZ,
    /// Call a subroutine if sign is set.
    CM,
    /// Call a subroutine if sign is clear.
    CP,
    /// Call a subroutine if parity is even.
    CPE,
    /// Call a subroutine if parity is odd.
    CPO,
    /// Return from a subroutine.
    RET,
    /// Return from a subroutine if carry is set.
    RC,
    /// Return from a subroutine if carry is clear.
    RNC,
    /// Return from a subroutine if zero is set.
    RZ,
    /// Return from a subroutine if zero is clear.
    RNZ,
    /// Return from a subroutine if sign is set.
    RM,
    /// Return from a subroutine if sign is clear.
    RP,
    /// Return from a subroutine if parity is even.
    RPE,
    /// Return from a subroutine if parity is odd.
    RPO,
    /// Restart: call the subroutine at 0x00.
    RST_1,
    /// Restart: call the subroutine at 0x08.
    RST_2,
    /// Restart: call the subroutine at 0x10.
    RST_3,
    /// Restart: call the subroutine at 0x18.
    RST_4,
    /// Restart: call the subroutine at 0x20.
    RST_5,
    /// Restart: call the subroutine at 0x28.
    RST_6,
    /// Restart: call the subroutine at 0x30.
    RST_7,
    /// Restart: call the subroutine at 0x38.
    RST_8,
    /// Enable interrupts.
    EI,
    /// Disable interrupts.
    DI,
    /// Read a byte from a port.
    IN,
    /// Write the accumulator to a port.
    OUT,
    /// Halt.
    HLT,
}

/// The byte under which the processor knows the operation that `opcode`
/// selects: the undocumented encodings of NOP, JMP, RET and CALL are mapped
/// to the documented one, every other byte to itself.
pub open spec fn canonical_opcode(opcode: u8) -> u8 {
    if opcode / 64 == 0 && opcode % 8 == 0 {
        0x00
    } else if opcode == 0xcb {
        0xc3
    } else if opcode == 0xd9 {
        0xc9
    } else if opcode == 0xdd || opcode == 0xed || opcode == 0xfd {
        0xcd
    } else {
        opcode
    }
}

impl Instruction {
    /// The documented encoding of the instruction.
    #[verifier::allow_in_spec]
    pub fn opcode(self) -> u8
        returns
            (match self {
                Instruction::NOP => 0x00u8,
                Instruction::STC => 0x37u8,
                Instruction::CMC => 0x3fu8,
                Instruction::INR_B => 0x04u8,
                Instruction::INR_C => 0x0cu8,
                Instruction::INR_D => 0x14u8,
                Instruction::INR_E => 0x1cu8,
                Instruction::INR_H => 0x24u8,
                Instruction::INR_L => 0x2cu8,
                Instruction::INR_M => 0x34u8,
                Instruction::INR_A => 0x3cu8,
                Instruction::DCR_B => 0x05u8,
                Instruction::DCR_C => 0x0du8,
                Instruction::DCR_D => 0x15u8,
                Instruction::DCR_E => 0x1du8,
                Instruction::DCR_H => 0x25u8,
                Instruction::DCR_L => 0x2du8,
                Instruction::DCR_M => 0x35u8,
                Instruction::DCR_A => 0x3du8,
                Instruction::CMA => 0x2fu8,
                Instruction::DAA => 0x27u8,
                Instruction::MOV_B_B => 0x40u8,
                Instruction::MOV_B_C => 0x41u8,
                Instruction::MOV_B_D => 0x42u8,
                Instruction::MOV_B_E => 0x43u8,
                Instruction::MOV_B_H => 0x44u8,
                Instruction::MOV_B_L => 0x45u8,
                Instruction::MOV_B_M => 0x46u8,
                Instruction::MOV_B_A => 0x47u8,
                Instruction::MOV_C_B => 0x48u8,
                Instruction::MOV_C_C => 0x49u8,
                Instruction::MOV_C_D => 0x4au8,
                Instruction::MOV_C_E => 0x4bu8,
                Instruction::MOV_C_H => 0x4cu8,
                Instruction::MOV_C_L => 0x4du8,
                Instruction::MOV_C_M => 0x4eu8,
                Instruction::MOV_C_A => 0x4fu8,
                Instruction::MOV_D_B => 0x50u8,
                Instruction::MOV_D_C => 0x51u8,
                Instruction::MOV_D_D => 0x52u8,
                Instruction::MOV_D_E => 0x53u8,
                Instruction::MOV_D_H => 0x54u8,
                Instruction::MOV_D_L => 0x55u8,
                Instruction::MOV_D_M => 0x56u8,
                Instruction::MOV_D_A => 0x57u8,
                Instruction::MOV_E_B => 0x58u8,
                Instruction::MOV_E_C => 0x59u8,
                Instruction::MOV_E_D => 0x5au8,
                Instruction::MOV_E_E => 0x5bu8,
                Instruction::MOV_E_H => 0x5cu8,
                Instruction::MOV_E_L => 0x5du8,
                Instruction::MOV_E_M => 0x5eu8,
                Instruction::MOV_E_A => 0x5fu8,
                Instruction::MOV_H_B => 0x60u8,
                Instruction::MOV_H_C => 0x61u8,
                Instruction::MOV_H_D => 0x62u8,
                Instruction::MOV_H_E => 0x63u8,
                Instruction::MOV_H_H => 0x64u8,
                Instruction::MOV_H_L => 0x65u8,
                Instruction::MOV_H_M => 0x66u8,
                Instruction::MOV_H_A => 0x67u8,
                Instruction::MOV_L_B => 0x68u8,
                Instruction::MOV_L_C => 0x69u8,
                Instruction::MOV_L_D => 0x6au8,
                Instruction::MOV_L_E => 0x6bu8,
                Instruction::MOV_L_H => 0x6cu8,
                Instruction::MOV_L_L => 0x6du8,
                Instruction::MOV_L_M => 0x6eu8,
                Instruction::MOV_L_A => 0x6fu8,
                Instruction::MOV_M_B => 0x70u8,
                Instruction::MOV_M_C => 0x71u8,
                Instruction::MOV_M_D => 0x72u8,
                Instruction::MOV_M_E => 0x73u8,
                Instruction::MOV_M_H => 0x74u8,
                Instruction::MOV_M_L => 0x75u8,
                Instruction::MOV_M_A => 0x77u8,
                Instruction::MOV_A_B => 0x78u8,
                Instruction::MOV_A_C => 0x79u8,
                Instruction::MOV_A_D => 0x7au8,
                Instruction::MOV_A_E => 0x7bu8,
                Instruction::MOV_A_H => 0x7cu8,
                Instruction::MOV_A_L => 0x7du8,
                Instruction::MOV_A_M => 0x7eu8,
                Instruction::MOV_A_A => 0x7fu8,
                Instruction::STAX_B => 0x02u8,
                Instruction::STAX_D => 0x12u8,
                Instruction::LDAX_B => 0x0au8,
                Instruction::LDAX_D => 0x1au8,
                Instruction::ADD_B => 0x80u8,
                Instruction::ADD_C => 0x81u8,
                Instruction::ADD_D => 0x82u8,
                Instruction::ADD_E => 0x83u8,
                Instruction::ADD_H => 0x84u8,
                Instruction::ADD_L => 0x85u8,
                Instruction::ADD_M => 0x86u8,
                Instruction::ADD_A => 0x87u8,
                Instruction::ADC_B => 0x88u8,
                Instruction::ADC_C => 0x89u8,
                Instruction::ADC_D => 0x8au8,
                Instruction::ADC_E => 0x8bu8,
                Instruction::ADC_H => 0x8cu8,
                Instruction::ADC_L => 0x8du8,
                Instruction::ADC_M => 0x8eu8,
                Instruction::ADC_A => 0x8fu8,
                Instruction::SUB_B => 0x90u8,
                Instruction::SUB_C => 0x91u8,
                Instruction::SUB_D => 0x92u8,
                Instruction::SUB_E => 0x93u8,
                Instruction::SUB_H => 0x94u8,
                Instruction::SUB_L => 0x95u8,
                Instruction::SUB_M => 0x96u8,
                Instruction::SUB_A => 0x97u8,
                Instruction::SBB_B => 0x98u8,
                Instruction::SBB_C => 0x99u8,
                Instruction::SBB_D => 0x9au8,
                Instruction::SBB_E => 0x9bu8,
                Instruction::SBB_H => 0x9cu8,
                Instruction::SBB_L => 0x9du8,
                Instruction::SBB_M => 0x9eu8,
                Instruction::SBB_A => 0x9fu8,
                Instruction::ANA_B => 0xa0u8,
                Instruction::ANA_C => 0xa1u8,
                Instruction::ANA_D => 0xa2u8,
                Instruction::ANA_E => 0xa3u8,
                Instruction::ANA_H => 0xa4u8,
                Instruction::ANA_L => 0xa5u8,
                Instruction::ANA_M => 0xa6u8,
                Instruction::ANA_A => 0xa7u8,
                Instruction::XRA_B => 0xa8u8,
                Instruction::XRA_C => 0xa9u8,
                Instruction::XRA_D => 0xaau8,
                Instruction::XRA_E => 0xabu8,
                Instruction::XRA_H => 0xacu8,
                Instruction::XRA_L => 0xadu8,
                Instruction::XRA_M => 0xaeu8,
                Instruction::XRA_A => 0xafu8,
                Instruction::ORA_B => 0xb0u8,
                Instruction::ORA_C => 0xb1u8,
                Instruction::ORA_D => 0xb2u8,
                Instruction::ORA_E => 0xb3u8,
                Instruction::ORA_H => 0xb4u8,
                Instruction::ORA_L => 0xb5u8,
                Instruction::ORA_M => 0xb6u8,
                Instruction::ORA_A => 0xb7u8,
                Instruction::CMP_B => 0xb8u8,
                Instruction::CMP_C => 0xb9u8,
                Instruction::CMP_D => 0xbau8,
                Instruction::CMP_E => 0xbbu8,
                Instruction::CMP_H => 0xbcu8,
                Instruction::CMP_L => 0xbdu8,
                Instruction::CMP_M => 0xbeu8,
                Instruction::CMP_A => 0xbfu8,
                Instruction::RLC => 0x07u8,
                Instruction::RRC => 0x0fu8,
                Instruction::RAL => 0x17u8,
                Instruction::RAR => 0x1fu8,
                Instruction::PUSH_B => 0xc5u8,
                Instruction::PUSH_D => 0xd5u8,
                Instruction::PUSH_H => 0xe5u8,
                Instruction::PUSH_PSW => 0xf5u8,
                Instruction::POP_B => 0xc1u8,
                Instruction::POP_D => 0xd1u8,
                Instruction::POP_H => 0xe1u8,
                Instruction::POP_PSW => 0xf1u8,
                Instruction::DAD_B => 0x09u8,
                Instruction::DAD_D => 0x19u8,
                Instruction::DAD_H => 0x29u8,
                Instruction::DAD_SP => 0x39u8,
                Instruction::INX_B => 0x03u8,
                Instruction::INX_D => 0x13u8,
                Instruction::INX_H => 0x23u8,
                Instruction::INX_SP => 0x33u8,
                Instruction::DCX_B => 0x0bu8,
                Instruction::DCX_D => 0x1bu8,
                Instruction::DCX_H => 0x2bu8,
                Instruction::DCX_SP => 0x3bu8,
                Instruction::XCHG => 0xebu8,
                Instruction::XTHL => 0xe3u8,
                Instruction::SPHL => 0xf9u8,
                Instruction::LXI_B => 0x01u8,
                Instruction::LXI_D => 0x11u8,
                Instruction::LXI_H => 0x21u8,
                Instruction::LXI_SP => 0x31u8,
                Instruction::MVI_B => 0x06u8,
                Instruction::MVI_C => 0x0eu8,
                Instruction::MVI_D => 0x16u8,
                Instruction::MVI_E => 0x1eu8,
                Instruction::MVI_H => 0x26u8,
                Instruction::MVI_L => 0x2eu8,
                Instruction::MVI_M => 0x36u8,
                Instruction::MVI_A => 0x3eu8,
                Instruction::ADI => 0xc6u8,
                Instruction::ACI => 0xceu8,
                Instruction::SUI => 0xd6u8,
                Instruction::SBI => 0xdeu8,
                Instruction::ANI => 0xe6u8,
                Instruction::XRI => 0xeeu8,
                Instruction::ORI => 0xf6u8,
                Instruction::CPI => 0xfeu8,
                Instruction::STA => 0x32u8,
                Instruction::LDA => 0x3au8,
                Instruction::SHLD => 0x22u8,
                Instruction::LHLD => 0x2au8,
                Instruction::PCHL => 0xe9u8,
                Instruction::JMP => 0xc3u8,
                Instruction::JC => 0xdau8,
                Instruction::JNC => 0xd2u8,
                Instruction::JZ => 0xcau8,
                Instruction::JNZ => 0xc2u8,
                Instruction::JM => 0xfau8,
                Instruction::JP => 0xf2u8,
                Instruction::JPE => 0xeau8,
                Instruction::JPO => 0xe2u8,
                Instruction::CALL => 0xcdu8,
                Instruction::CC => 0xdcu8,
                Instruction::CNC => 0xd4u8,
                Instruction::CZ => 0xccu8,
                Instruction::CNZ => 0xc4u8,
                Instruction::CM => 0xfcu8,
                Instruction::CP => 0xf4u8,
                Instruction::CPE => 0xecu8,
                Instruction::CPO => 0xe4u8,
                Instruction::RET => 0xc9u8,
                Instruction::RC => 0xd8u8,
                Instruction::RNC => 0xd0u8,
                Instruction::RZ => 0xc8u8,
                Instruction::RNZ => 0xc0u8,
                Instruction::RM => 0xf8u8,
                Instruction::RP => 0xf0u8,
                Instruction::RPE => 0xe8u8,
                Instruction::RPO => 0xe0u8,
                Instruction::RST_1 => 0xc7u8,
                Instruction::RST_2 => 0xcfu8,
                Instruction::RST_3 => 0xd7u8,
                Instruction::RST_4 => 0xdfu8,
                Instruction::RST_5 => 0xe7u8,
                Instruction::RST_6 => 0xefu8,
                Instruction::RST_7 => 0xf7u8,
                Instruction::RST_8 => 0xffu8,
                Instruction::EI => 0xfbu8,
                Instruction::DI => 0xf3u8,
                Instruction::IN => 0xdbu8,
                Instruction::OUT => 0xd3u8,
                Instruction::HLT => 0x76u8,
            }),
    {
        match self {
            Instruction::NOP => 0x00,
            Instruction::STC => 0x37,
            Instruction::CMC => 0x3f,
            Instruction::INR_B => 0x04,
            Instruction::INR_C => 0x0c,
            Instruction::INR_D => 0x14,
            Instruction::INR_E => 0x1c,
            Instruction::INR_H => 0x24,
            Instruction::INR_L => 0x2c,
            Instruction::INR_M => 0x34,
            Instruction::INR_A => 0x3c,
            Instruction::DCR_B => 0x05,
            Instruction::DCR_C => 0x0d,
            Instruction::DCR_D => 0x15,
            Instruction::DCR_E => 0x1d,
            Instruction::DCR_H => 0x25,
            Instruction::DCR_L => 0x2d,
            Instruction::DCR_M => 0x35,
            Instruction::DCR_A => 0x3d,
            Instruction::CMA => 0x2f,
            Instruction::DAA => 0x27,
            Instruction::MOV_B_B => 0x40,
            Instruction::MOV_B_C => 0x41,
            Instruction::MOV_B_D => 0x42,
            Instruction::MOV_B_E => 0x43,
            Instruction::MOV_B_H => 0x44,
            Instruction::MOV_B_L => 0x45,
            Instruction::MOV_B_M => 0x46,
            Instruction::MOV_B_A => 0x47,
            Instruction::MOV_C_B => 0x48,
            Instruction::MOV_C_C => 0x49,
            Instruction::MOV_C_D => 0x4a,
            Instruction::MOV_C_E => 0x4b,
            Instruction::MOV_C_H => 0x4c,
            Instruction::MOV_C_L => 0x4d,
            Instruction::MOV_C_M => 0x4e,
            Instruction::MOV_C_A => 0x4f,
            Instruction::MOV_D_B => 0x50,
            Instruction::MOV_D_C => 0x51,
            Instruction::MOV_D_D => 0x52,
            Instruction::MOV_D_E => 0x53,
            Instruction::MOV_D_H => 0x54,
            Instruction::MOV_D_L => 0x55,
            Instruction::MOV_D_M => 0x56,
            Instruction::MOV_D_A => 0x57,
            Instruction::MOV_E_B => 0x58,
            Instruction::MOV_E_C => 0x59,
            Instruction::MOV_E_D => 0x5a,
            Instruction::MOV_E_E => 0x5b,
            Instruction::MOV_E_H => 0x5c,
            Instruction::MOV_E_L => 0x5d,
            Instruction::MOV_E_M => 0x5e,
            Instruction::MOV_E_A => 0x5f,
            Instruction::MOV_H_B => 0x60,
            Instruction::MOV_H_C => 0x61,
            Instruction::MOV_H_D => 0x62,
            Instruction::MOV_H_E => 0x63,
            Instruction::MOV_H_H => 0x64,
            Instruction::MOV_H_L => 0x65,
            Instruction::MOV_H_M => 0x66,
            Instruction::MOV_H_A => 0x67,
            Instruction::MOV_L_B => 0x68,
            Instruction::MOV_L_C => 0x69,
            Instruction::MOV_L_D => 0x6a,
            Instruction::MOV_L_E => 0x6b,
            Instruction::MOV_L_H => 0x6c,
            Instruction::MOV_L_L => 0x6d,
            Instruction::MOV_L_M => 0x6e,
            Instruction::MOV_L_A => 0x6f,
            Instruction::MOV_M_B => 0x70,
            Instruction::MOV_M_C => 0x71,
            Instruction::MOV_M_D => 0x72,
            Instruction::MOV_M_E => 0x73,
            Instruction::MOV_M_H => 0x74,
            Instruction::MOV_M_L => 0x75,
            Instruction::MOV_M_A => 0x77,
            Instruction::MOV_A_B => 0x78,
            Instruction::MOV_A_C => 0x79,
            Instruction::MOV_A_D => 0x7a,
            Instruction::MOV_A_E => 0x7b,
            Instruction::MOV_A_H => 0x7c,
            Instruction::MOV_A_L => 0x7d,
            Instruction::MOV_A_M => 0x7e,
            Instruction::MOV_A_A => 0x7f,
            Instruction::STAX_B => 0x02,
            Instruction::STAX_D => 0x12,
            Instruction::LDAX_B => 0x0a,
            Instruction::LDAX_D => 0x1a,
            Instruction::ADD_B => 0x80,
            Instruction::ADD_C => 0x81,
            Instruction::ADD_D => 0x82,
            Instruction::ADD_E => 0x83,
            Instruction::ADD_H => 0x84,
            Instruction::ADD_L => 0x85,
            Instruction::ADD_M => 0x86,
            Instruction::ADD_A => 0x87,
            Instruction::ADC_B => 0x88,
            Instruction::ADC_C => 0x89,
            Instruction::ADC_D => 0x8a,
            Instruction::ADC_E => 0x8b,
            Instruction::ADC_H => 0x8c,
            Instruction::ADC_L => 0x8d,
            Instruction::ADC_M => 0x8e,
            Instruction::ADC_A => 0x8f,
            Instruction::SUB_B => 0x90,
            Instruction::SUB_C => 0x91,
            Instruction::SUB_D => 0x92,
            Instruction::SUB_E => 0x93,
            Instruction::SUB_H => 0x94,
            Instruction::SUB_L => 0x95,
            Instruction::SUB_M => 0x96,
            Instruction::SUB_A => 0x97,
            Instruction::SBB_B => 0x98,
            Instruction::SBB_C => 0x99,
            Instruction::SBB_D => 0x9a,
            Instruction::SBB_E => 0x9b,
            Instruction::SBB_H => 0x9c,
            Instruction::SBB_L => 0x9d,
            Instruction::SBB_M => 0x9e,
            Instruction::SBB_A => 0x9f,
            Instruction::ANA_B => 0xa0,
            Instruction::ANA_C => 0xa1,
            Instruction::ANA_D => 0xa2,
            Instruction::ANA_E => 0xa3,
            Instruction::ANA_H => 0xa4,
            Instruction::ANA_L => 0xa5,
            Instruction::ANA_M => 0xa6,
            Instruction::ANA_A => 0xa7,
            Instruction::XRA_B => 0xa8,
            Instruction::XRA_C => 0xa9,
            Instruction::XRA_D => 0xaa,
            Instruction::XRA_E => 0xab,
            Instruction::XRA_H => 0xac,
            Instruction::XRA_L => 0xad,
            Instruction::XRA_M => 0xae,
            Instruction::XRA_A => 0xaf,
            Instruction::ORA_B => 0xb0,
            Instruction::ORA_C => 0xb1,
            Instruction::ORA_D => 0xb2,
            Instruction::ORA_E => 0xb3,
            Instruction::ORA_H => 0xb4,
            Instruction::ORA_L => 0xb5,
            Instruction::ORA_M => 0xb6,
            Instruction::ORA_A => 0xb7,
            Instruction::CMP_B => 0xb8,
            Instruction::CMP_C => 0xb9,
            Instruction::CMP_D => 0xba,
            Instruction::CMP_E => 0xbb,
            Instruction::CMP_H => 0xbc,
            Instruction::CMP_L => 0xbd,
            Instruction::CMP_M => 0xbe,
            Instruction::CMP_A => 0xbf,
            Instruction::RLC => 0x07,
            Instruction::RRC => 0x0f,
            Instruction::RAL => 0x17,
            Instruction::RAR => 0x1f,
            Instruction::PUSH_B => 0xc5,
            Instruction::PUSH_D => 0xd5,
            Instruction::PUSH_H => 0xe5,
            Instruction::PUSH_PSW => 0xf5,
            Instruction::POP_B => 0xc1,
            Instruction::POP_D => 0xd1,
            Instruction::POP_H => 0xe1,
            Instruction::POP_PSW => 0xf1,
            Instruction::DAD_B => 0x09,
            Instruction::DAD_D => 0x19,
            Instruction::DAD_H => 0x29,
            Instruction::DAD_SP => 0x39,
            Instruction::INX_B => 0x03,
            Instruction::INX_D => 0x13,
            Instruction::INX_H => 0x23,
            Instruction::INX_SP => 0x33,
            Instruction::DCX_B => 0x0b,
            Instruction::DCX_D => 0x1b,
            Instruction::DCX_H => 0x2b,
            Instruction::DCX_SP => 0x3b,
            Instruction::XCHG => 0xeb,
            Instruction::XTHL => 0xe3,
            Instruction::SPHL => 0xf9,
            Instruction::LXI_B => 0x01,
            Instruction::LXI_D => 0x11,
            Instruction::LXI_H => 0x21,
            Instruction::LXI_SP => 0x31,
            Instruction::MVI_B => 0x06,
            Instruction::MVI_C => 0x0e,
            Instruction::MVI_D => 0x16,
            Instruction::MVI_E => 0x1e,
            Instruction::MVI_H => 0x26,
            Instruction::MVI_L => 0x2e,
            Instruction::MVI_M => 0x36,
            Instruction::MVI_A => 0x3e,
            Instruction::ADI => 0xc6,
            Instruction::ACI => 0xce,
            Instruction::SUI => 0xd6,
            Instruction::SBI => 0xde,
            Instruction::ANI => 0xe6,
            Instruction::XRI => 0xee,
            Instruction::ORI => 0xf6,
            Instruction::CPI => 0xfe,
            Instruction::STA => 0x32,
            Instruction::LDA => 0x3a,
            Instruction::SHLD => 0x22,
            Instruction::LHLD => 0x2a,
            Instruction::PCHL => 0xe9,
            Instruction::JMP => 0xc3,
            Instruction::JC => 0xda,
            Instruction::JNC => 0xd2,
            Instruction::JZ => 0xca,
            Instruction::JNZ => 0xc2,
            Instruction::JM => 0xfa,
            Instruction::JP => 0xf2,
            Instruction::JPE => 0xea,
            Instruction::JPO => 0xe2,
            Instruction::CALL => 0xcd,
            Instruction::CC => 0xdc,
            Instruction::CNC => 0xd4,
            Instruction::CZ => 0xcc,
            Instruction::CNZ => 0xc4,
            Instruction::CM => 0xfc,
            Instruction::CP => 0xf4,
            Instruction::CPE => 0xec,
            Instruction::CPO => 0xe4,
            Instruction::RET => 0xc9,
            Instruction::RC => 0xd8,
            Instruction::RNC => 0xd0,
            Instruction::RZ => 0xc8,
            Instruction::RNZ => 0xc0,
            Instruction::RM => 0xf8,
            Instruction::RP => 0xf0,
            Instruction::RPE => 0xe8,
            Instruction::RPO => 0xe0,
            Instruction::RST_1 => 0xc7,
            Instruction::RST_2 => 0xcf,
            Instruction::RST_3 => 0xd7,
            Instruction::RST_4 => 0xdf,
            Instruction::RST_5 => 0xe7,
            Instruction::RST_6 => 0xef,
            Instruction::RST_7 => 0xf7,
            Instruction::RST_8 => 0xff,
            Instruction::EI => 0xfb,
            Instruction::DI => 0xf3,
            Instruction::IN => 0xdb,
            Instruction::OUT => 0xd3,
            Instruction::HLT => 0x76,
        }
    }
}

impl vstd::std_specs::convert::FromSpecImpl<u8> for Instruction {
    open spec fn obeys_from_spec() -> bool {
        true
    }

    open spec fn from_spec(opcode: u8) -> Instruction {
        decode(opcode)
    }
}

/// The instruction whose encoding is the canonical form of `opcode`.
pub open spec fn decode(opcode: u8) -> Instruction {
    choose|i: Instruction| i.opcode() == canonical_opcode(opcode)
}

impl From<u8> for Instruction {
    /// Decodes one byte of the instruction stream. Every byte decodes: to
    /// the instruction whose encoding is the canonical form of the byte,
    /// which does what the bit fields of the byte select.
    #[verifier::rlimit(100)]
    fn from(orig: u8) -> (instruction: Instruction)
        ensures
            instruction.opcode() == canonical_opcode(orig),
            operation_of(instruction.opcode()) == operation_of(orig),
    {
        let instruction = match orig {
            0x00 | 0x08 | 0x10 | 0x18 | 0x20 | 0x28 | 0x30 | 0x38 => Instruction::NOP,
            0x37 => Instruction::STC,
            0x3f => Instruction::CMC,
            0x04 => Instruction::INR_B,
            0x0c => Instruction::INR_C,
            0x14 => Instruction::INR_D,
            0x1c => Instruction::INR_E,
            0x24 => Instruction::INR_H,
            0x2c => Instruction::INR_L,
            0x34 => Instruction::INR_M,
            0x3c => Instruction::INR_A,
            0x05 => Instruction::DCR_B,
            0x0d => Instruction::DCR_C,
            0x15 => Instruction::DCR_D,
            0x1d => Instruction::DCR_E,
            0x25 => Instruction::DCR_H,
            0x2d => Instruction::DCR_L,
            0x35 => Instruction::DCR_M,
            0x3d => Instruction::DCR_A,
            0x2f => Instruction::CMA,
            0x27 => Instruction::DAA,
            0x40 => Instruction::MOV_B_B,
            0x41 => Instruction::MOV_B_C,
            0x42 => Instruction::MOV_B_D,
            0x43 => Instruction::MOV_B_E,
            0x44 => Instruction::MOV_B_H,
            0x45 => Instruction::MOV_B_L,
            0x46 => Instruction::MOV_B_M,
            0x47 => Instruction::MOV_B_A,
            0x48 => Instruction::MOV_C_B,
            0x49 => Instruction::MOV_C_C,
            0x4a => Instruction::MOV_C_D,
            0x4b => Instruction::MOV_C_E,
            0x4c => Instruction::MOV_C_H,
            0x4d => Instruction::MOV_C_L,
            0x4e => Instruction::MOV_C_M,
            0x4f => Instruction::MOV_C_A,
            0x50 => Instruction::MOV_D_B,
            0x51 => Instruction::MOV_D_C,
            0x52 => Instruction::MOV_D_D,
            0x53 => Instruction::MOV_D_E,
            0x54 => Instruction::MOV_D_H,
            0x55 => Instruction::MOV_D_L,
            0x56 => Instruction::MOV_D_M,
            0x57 => Instruction::MOV_D_A,
            0x58 => Instruction::MOV_E_B,
            0x59 => Instruction::MOV_E_C,
            0x5a => Instruction::MOV_E_D,
            0x5b => Instruction::MOV_E_E,
            0x5c => Instruction::MOV_E_H,
            0x5d => Instruction::MOV_E_L,
            0x5e => Instruction::MOV_E_M,
            0x5f => Instruction::MOV_E_A,
            0x60 => Instruction::MOV_H_B,
            0x61 => Instruction::MOV_H_C,
            0x62 => Instruction::MOV_H_D,
            0x63 => Instruction::MOV_H_E,
            0x64 => Instruction::MOV_H_H,
            0x65 => Instruction::MOV_H_L,
            0x66 => Instruction::MOV_H_M,
            0x67 => Instruction::MOV_H_A,
            0x68 => Instruction::MOV_L_B,
            0x69 => Instruction::MOV_L_C,
            0x6a => Instruction::MOV_L_D,
            0x6b => Instruction::MOV_L_E,
            0x6c => Instruction::MOV_L_H,
            0x6d => Instruction::MOV_L_L,
            0x6e => Instruction::MOV_L_M,
            0x6f => Instruction::MOV_L_A,
            0x70 => Instruction::MOV_M_B,
            0x71 => Instruction::MOV_M_C,
            0x72 => Instruction::MOV_M_D,
            0x73 => Instruction::MOV_M_E,
            0x74 => Instruction::MOV_M_H,
            0x75 => Instruction::MOV_M_L,
            0x77 => Instruction::MOV_M_A,
            0x78 => Instruction::MOV_A_B,
            0x79 => Instruction::MOV_A_C,
            0x7a => Instruction::MOV_A_D,
            0x7b => Instruction::MOV_A_E,
            0x7c => Instruction::MOV_A_H,
            0x7d => Instruction::MOV_A_L,
            0x7e => Instruction::MOV_A_M,
            0x7f => Instruction::MOV_A_A,
            0x02 => Instruction::STAX_B,
            0x12 => Instruction::STAX_D,
            0x0a => Instruction::LDAX_B,
            0x1a => Instruction::LDAX_D,
            0x80 => Instruction::ADD_B,
            0x81 => Instruction::ADD_C,
            0x82 => Instruction::ADD_D,
            0x83 => Instruction::ADD_E,
            0x84 => Instruction::ADD_H,
            0x85 => Instruction::ADD_L,
            0x86 => Instruction::ADD_M,
            0x87 => Instruction::ADD_A,
            0x88 => Instruction::ADC_B,
            0x89 => Instruction::ADC_C,
            0x8a => Instruction::ADC_D,
            0x8b => Instruction::ADC_E,
            0x8c => Instruction::ADC_H,
            0x8d => Instruction::ADC_L,
            0x8e => Instruction::ADC_M,
            0x8f => Instruction::ADC_A,
            0x90 => Instruction::SUB_B,
            0x91 => Instruction::SUB_C,
            0x92 => Instruction::SUB_D,
            0x93 => Instruction::SUB_E,
            0x94 => Instruction::SUB_H,
            0x95 => Instruction::SUB_L,
            0x96 => Instruction::SUB_M,
            0x97 => Instruction::SUB_A,
            0x98 => Instruction::SBB_B,
            0x99 => Instruction::SBB_C,
            0x9a => Instruction::SBB_D,
            0x9b => Instruction::SBB_E,
            0x9c => Instruction::SBB_H,
            0x9d => Instruction::SBB_L,
            0x9e => Instruction::SBB_M,
            0x9f => Instruction::SBB_A,
            0xa0 => Instruction::ANA_B,
            0xa1 => Instruction::ANA_C,
            0xa2 => Instruction::ANA_D,
            0xa3 => Instruction::ANA_E,
            0xa4 => Instruction::ANA_H,
            0xa5 => Instruction::ANA_L,
            0xa6 => Instruction::ANA_M,
            0xa7 => Instruction::ANA_A,
            0xa8 => Instruction::XRA_B,
            0xa9 => Instruction::XRA_C,
            0xaa => Instruction::XRA_D,
            0xab => Instruction::XRA_E,
            0xac => Instruction::XRA_H,
            0xad => Instruction::XRA_L,
            0xae => Instruction::XRA_M,
            0xaf => Instruction::XRA_A,
            0xb0 => Instruction::ORA_B,
            0xb1 => Instruction::ORA_C,
            0xb2 => Instruction::ORA_D,
            0xb3 => Instruction::ORA_E,
            0xb4 => Instruction::ORA_H,
            0xb5 => Instruction::ORA_L,
            0xb6 => Instruction::ORA_M,
            0xb7 => Instruction::ORA_A,
            0xb8 => Instruction::CMP_B,
            0xb9 => Instruction::CMP_C,
            0xba => Instruction::CMP_D,
            0xbb => Instruction::CMP_E,
            0xbc => Instruction::CMP_H,
            0xbd => Instruction::CMP_L,
            0xbe => Instruction::CMP_M,
            0xbf => Instruction::CMP_A,
            0x07 => Instruction::RLC,
            0x0f => Instruction::RRC,
            0x17 => Instruction::RAL,
            0x1f => Instruction::RAR,
            0xc5 => Instruction::PUSH_B,
            0xd5 => Instruction::PUSH_D,
            0xe5 => Instruction::PUSH_H,
            0xf5 => Instruction::PUSH_PSW,
            0xc1 => Instruction::POP_B,
            0xd1 => Instruction::POP_D,
            0xe1 => Instruction::POP_H,
            0xf1 => Instruction::POP_PSW,
            0x09 => Instruction::DAD_B,
            0x19 => Instruction::DAD_D,
            0x29 => Instruction::DAD_H,
            0x39 => Instruction::DAD_SP,
            0x03 => Instruction::INX_B,
            0x13 => Instruction::INX_D,
            0x23 => Instruction::INX_H,
            0x33 => Instruction::INX_SP,
            0x0b => Instruction::DCX_B,
            0x1b => Instruction::DCX_D,
            0x2b => Instruction::DCX_H,
            0x3b => Instruction::DCX_SP,
            0xeb => Instruction::XCHG,
            0xe3 => Instruction::XTHL,
            0xf9 => Instruction::SPHL,
            0x01 => Instruction::LXI_B,
            0x11 => Instruction::LXI_D,
            0x21 => Instruction::LXI_H,
            0x31 => Instruction::LXI_SP,
            0x06 => Instruction::MVI_B,
            0x0e => Instruction::MVI_C,
            0x16 => Instruction::MVI_D,
            0x1e => Instruction::MVI_E,
            0x26 => Instruction::MVI_H,
            0x2e => Instruction::MVI_L,
            0x36 => Instruction::MVI_M,
            0x3e => Instruction::MVI_A,
            0xc6 => Instruction::ADI,
            0xce => Instruction::ACI,
            0xd6 => Instruction::SUI,
            0xde => Instruction::SBI,
            0xe6 => Instruction::ANI,
            0xee => Instruction::XRI,
            0xf6 => Instruction::ORI,
            0xfe => Instruction::CPI,
            0x32 => Instruction::STA,
            0x3a => Instruction::LDA,
            0x22 => Instruction::SHLD,
            0x2a => Instruction::LHLD,
            0xe9 => Instruction::PCHL,
            0xc3 | 0xcb => Instruction::JMP,
            0xda => Instruction::JC,
            0xd2 => Instruction::JNC,
            0xca => Instruction::JZ,
            0xc2 => Instruction::JNZ,
            0xfa => Instruction::JM,
            0xf2 => Instruction::JP,
            0xea => Instruction::JPE,
            0xe2 => Instruction::JPO,
            0xcd | 0xdd | 0xed | 0xfd => Instruction::CALL,
            0xdc => Instruction::CC,
            0xd4 => Instruction::CNC,
            0xcc => Instruction::CZ,
            0xc4 => Instruction::CNZ,
            0xfc => Instruction::CM,
            0xf4 => Instruction::CP,
            0xec => Instruction::CPE,
            0xe4 => Instruction::CPO,
            0xc9 | 0xd9 => Instruction::RET,
            0xd8 => Instruction::RC,
            0xd0 => Instruction::RNC,
            0xc8 => Instruction::RZ,
            0xc0 => Instruction::RNZ,
            0xf8 => Instruction::RM,
            0xf0 => Instruction::RP,
            0xe8 => Instruction::RPE,
            0xe0 => Instruction::RPO,
            0xc7 => Instruction::RST_1,
            0xcf => Instruction::RST_2,
            0xd7 => Instruction::RST_3,
            0xdf => Instruction::RST_4,
            0xe7 => Instruction::RST_5,
            0xef => Instruction::RST_6,
            0xf7 => Instruction::RST_7,
            0xff => Instruction::RST_8,
            0xfb => Instruction::EI,
            0xf3 => Instruction::DI,
            0xdb => Instruction::IN,
            0xd3 => Instruction::OUT,
            0x76 => Instruction::HLT,
        };
        proof {
            lemma_opcode_injective(instruction, decode(orig));
            lemma_alias(orig);
        }
        instruction
    }
}

/// No two instructions share an encoding.
pub proof fn lemma_opcode_injective(i: Instruction, j: Instruction)
    requires
        i.opcode() == j.opcode(),
    ensures
        i == j,
{
}

} // verus!
