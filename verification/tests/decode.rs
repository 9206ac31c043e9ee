use intel8080::operand::{ConditionCode, Operand16, Operand8};
use intel8080::operation::Operation;
use intel8080::Instruction;

/// The documented encoding that a byte stands for.
fn canonical(byte: u8) -> u8 {
    match byte {
        0x08 | 0x10 | 0x18 | 0x20 | 0x28 | 0x30 | 0x38 => 0x00,
        0xcb => 0xc3,
        0xd9 => 0xc9,
        0xdd | 0xed | 0xfd => 0xcd,
        other => other,
    }
}

#[test]
fn test_every_byte_decodes_to_its_canonical_instruction() {
    for byte in 0..=255u8 {
        assert_eq!(Instruction::from(byte).opcode(), canonical(byte));
    }
}

#[test]
fn test_encoding_then_decoding_gives_the_instruction_back() {
    for byte in 0..=255u8 {
        let instruction = Instruction::from(byte);
        assert_eq!(Instruction::from(instruction.opcode()), instruction);
    }
}

#[test]
fn test_aliases_decode_to_the_documented_instruction() {
    for byte in [0x00u8, 0x08, 0x10, 0x18, 0x20, 0x28, 0x30, 0x38] {
        assert_eq!(Instruction::from(byte), Instruction::NOP);
    }
    assert_eq!(Instruction::from(0xc3), Instruction::JMP);
    assert_eq!(Instruction::from(0xcb), Instruction::JMP);
    assert_eq!(Instruction::from(0xc9), Instruction::RET);
    assert_eq!(Instruction::from(0xd9), Instruction::RET);
    for byte in [0xcdu8, 0xdd, 0xed, 0xfd] {
        assert_eq!(Instruction::from(byte), Instruction::CALL);
    }
}

#[test]
fn test_encodings_of_some_instructions() {
    assert_eq!(Instruction::NOP.opcode(), 0x00);
    assert_eq!(Instruction::MOV_B_C.opcode(), 0x41);
    assert_eq!(Instruction::HLT.opcode(), 0x76);
    assert_eq!(Instruction::CMP_A.opcode(), 0xbf);
    assert_eq!(Instruction::RST_2.opcode(), 0xcf);
    assert_eq!(Instruction::RST_8.opcode(), 0xff);
}

#[test]
fn test_operations_follow_the_bit_fields() {
    assert!(matches!(Instruction::NOP.operation(), Operation::Nop));
    assert!(matches!(
        Instruction::MOV_H_E.operation(),
        Operation::Mov(Operand8::RegH, Operand8::RegE)
    ));
    assert!(matches!(
        Instruction::MOV_B_B.operation(),
        Operation::Mov(Operand8::RegB, Operand8::RegB)
    ));
    assert!(matches!(
        Instruction::MVI_M.operation(),
        Operation::Mov(Operand8::Memory, Operand8::Immediate)
    ));
    assert!(matches!(Instruction::HLT.operation(), Operation::Hlt));
    assert!(matches!(Instruction::CPI.operation(), Operation::Cmp(Operand8::Immediate)));
    assert!(matches!(Instruction::SBB_M.operation(), Operation::Sbb(Operand8::Memory)));
    assert!(matches!(Instruction::LXI_SP.operation(), Operation::Lxi(Operand16::SP)));
    assert!(matches!(Instruction::PUSH_PSW.operation(), Operation::Push(Operand16::PSW)));
    assert!(matches!(Instruction::POP_D.operation(), Operation::Pop(Operand16::RegPairD)));
    assert!(matches!(Instruction::STAX_D.operation(), Operation::Stax(Operand16::RegPairD)));
    assert!(matches!(Instruction::JPE.operation(), Operation::Jmp(ConditionCode::ParityEven)));
    assert!(matches!(Instruction::CM.operation(), Operation::Call(ConditionCode::Minus)));
    assert!(matches!(Instruction::RET.operation(), Operation::Ret(ConditionCode::Unconditional)));
    assert!(matches!(Instruction::RNZ.operation(), Operation::Ret(ConditionCode::NotZero)));
    assert!(matches!(Instruction::RST_1.operation(), Operation::Rst(0)));
    assert!(matches!(Instruction::RST_8.operation(), Operation::Rst(7)));
    assert!(matches!(Instruction::IN.operation(), Operation::In));
    assert!(matches!(Instruction::OUT.operation(), Operation::Out));
}

#[test]
fn test_operand_numbers() {
    assert_eq!(Operand8::from(0u8), Operand8::RegB);
    assert_eq!(Operand8::from(5u8), Operand8::RegL);
    assert_eq!(Operand8::from(6u8), Operand8::Memory);
    assert_eq!(Operand8::from(7u8), Operand8::RegA);
    assert_eq!(Operand8::from(8u8), Operand8::Immediate);
    assert_eq!(Operand8::from(200u8), Operand8::Immediate);
    assert_eq!(Operand16::from(0u8), Operand16::RegPairB);
    assert_eq!(Operand16::from(1u8), Operand16::RegPairD);
    assert_eq!(Operand16::from(2u8), Operand16::RegPairH);
    assert_eq!(Operand16::from(3u8), Operand16::PSW);
    assert_eq!(Operand16::from(4u8), Operand16::SP);
    assert_eq!(Operand16::from(77u8), Operand16::SP);
}
