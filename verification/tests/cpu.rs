use intel8080::{Instruction, Intel8080, Memory, MemoryAccess};

#[test]
fn test_cma() {
    let mut memory: Memory<1> = Memory::new();
    memory.write_byte(0, Instruction::CMA.opcode());

    let mut cpu = Intel8080::new();
    cpu.registers.set_pc(0);
    cpu.registers.set_accumulator(0b01010001);

    cpu.step(&mut memory);

    assert_eq!(cpu.registers.accumulator(), 0b10101110);
}

#[test]
fn test_daa() {
    let mut memory: Memory<1> = Memory::new();
    memory.write_byte(0, Instruction::DAA.opcode());

    let mut cpu = Intel8080::new();
    cpu.registers.set_pc(0);
    cpu.registers.set_accumulator(0x9B);
    cpu.registers.set_status_carry(false);
    cpu.registers.set_status_aux_carry(false);

    cpu.step(&mut memory);

    assert!(cpu.registers.status_carry());
    assert!(cpu.registers.status_aux_carry());
    assert_eq!(cpu.registers.accumulator(), 0x01);
}

#[test]
fn test_mov() {
    let mut memory: Memory<200> = Memory::new();
    memory.write_byte(0, Instruction::MOV_M_A.opcode());
    memory.write_byte(1, Instruction::MOV_B_M.opcode());
    memory.write_byte(2, Instruction::MOV_C_B.opcode());

    let mut cpu = Intel8080::new();
    cpu.registers.set_pc(0);
    cpu.registers.set_pair_h(160);
    cpu.registers.set_accumulator(0x42);

    cpu.step(&mut memory);
    assert_eq!(0x42, memory.read_byte(160));
    assert_eq!(memory.read_byte(160), cpu.registers.accumulator());

    cpu.step(&mut memory);
    assert_eq!(0x42, cpu.registers.b());
    assert_eq!(memory.read_byte(160), cpu.registers.b());

    cpu.step(&mut memory);
    assert_eq!(0x42, cpu.registers.c());
    assert_eq!(cpu.registers.b(), cpu.registers.c());
}

#[test]
fn test_inr() {
    let mut memory: Memory<1> = Memory::new();
    memory.write_byte(0, Instruction::INR_C.opcode());

    let mut cpu = Intel8080::new();
    cpu.registers.set_pc(0);
    cpu.registers.set_c(0x99);

    cpu.step(&mut memory);

    assert_eq!(cpu.registers.c(), 0x9A);
}

#[test]
fn test_dcr() {
    let mut memory: Memory<200> = Memory::new();
    memory.write_byte(0, Instruction::DCR_M.opcode());
    memory.write_byte(0x50, 0x40);

    let mut cpu = Intel8080::new();
    cpu.registers.set_pc(0);
    cpu.registers.set_h(0x00);
    cpu.registers.set_l(0x50);

    cpu.step(&mut memory);

    assert_eq!(memory.read_byte(0x50), 0x3F);
}

#[test]
fn test_stax() {
    let mut memory: Memory<200> = Memory::new();
    memory.write_byte(0, Instruction::STAX_B.opcode());
    memory.write_byte(1, Instruction::STAX_D.opcode());

    let mut cpu = Intel8080::new();
    cpu.registers.set_pc(0);
    cpu.registers.set_accumulator(0x69);
    cpu.registers.set_pair_b(56);
    cpu.registers.set_pair_d(57);

    cpu.step(&mut memory);
    assert_eq!(cpu.registers.accumulator(), memory.read_byte(56));

    cpu.step(&mut memory);
    assert_eq!(cpu.registers.accumulator(), memory.read_byte(57));
}

#[test]
fn test_ldax() {
    let mut memory: Memory<200> = Memory::new();
    memory.write_byte(0, Instruction::LDAX_D.opcode());
    memory.write_byte(1, Instruction::LDAX_B.opcode());
    memory.write_byte(150, 0x19);
    memory.write_byte(176, 0x35);

    let mut cpu = Intel8080::new();
    cpu.registers.set_pc(0);
    cpu.registers.set_accumulator(0x50);
    cpu.registers.set_pair_d(176);
    cpu.registers.set_pair_b(150);

    cpu.step(&mut memory);
    assert_eq!(cpu.registers.accumulator(), memory.read_byte(176));
    assert_eq!(cpu.registers.accumulator(), 0x35);

    cpu.step(&mut memory);
    assert_eq!(cpu.registers.accumulator(), memory.read_byte(150));
    assert_eq!(cpu.registers.accumulator(), 0x19);
}

#[test]
fn test_sub() {
    let mut memory: Memory<1> = Memory::new();
    memory.write_byte(0, Instruction::SUB_A.opcode());

    let mut cpu = Intel8080::new();
    cpu.registers.set_pc(0);
    cpu.registers.set_accumulator(0x3E);

    cpu.step(&mut memory);

    assert_eq!(0, cpu.registers.accumulator());
    assert!(!cpu.registers.status_carry());
    assert!(cpu.registers.status_zero());
    assert!(cpu.registers.status_parity());
    assert!(cpu.registers.status_aux_carry());
    assert!(!cpu.registers.status_sign());
}

#[test]
fn test_sbb() {
    let mut memory: Memory<1> = Memory::new();
    memory.write_byte(0, Instruction::SBB_L.opcode());

    let mut cpu = Intel8080::new();
    cpu.registers.set_pc(0);
    cpu.registers.set_accumulator(0x04);
    cpu.registers.set_l(0x02);
    cpu.registers.set_status_carry(true);

    cpu.step(&mut memory);

    assert_eq!(cpu.registers.accumulator(), 0x1);
    assert!(!cpu.registers.status_carry());
    assert!(!cpu.registers.status_zero());
    assert!(!cpu.registers.status_parity());
    assert!(cpu.registers.status_aux_carry());
    assert!(!cpu.registers.status_sign());
}

#[test]
fn test_ana() {
    let mut memory: Memory<1> = Memory::new();
    memory.write_byte(0, Instruction::ANA_C.opcode());

    let mut cpu = Intel8080::new();
    cpu.registers.set_pc(0);
    cpu.registers.set_accumulator(0xFC);
    cpu.registers.set_c(0x0F);

    cpu.step(&mut memory);

    assert_eq!(cpu.registers.accumulator(), 0x0C);
    assert!(!cpu.registers.status_carry());
    assert!(!cpu.registers.status_zero());
    assert!(cpu.registers.status_parity());
    assert!(!cpu.registers.status_sign());
}

#[test]
fn test_xra() {
    let mut memory: Memory<2> = Memory::new();
    memory.write_byte(0, Instruction::XRA_A.opcode());
    memory.write_byte(1, Instruction::XRA_B.opcode());

    let mut cpu = Intel8080::new();
    cpu.registers.set_pc(0);
    cpu.registers.set_accumulator(0xFF);

    cpu.step(&mut memory);

    assert_eq!(cpu.registers.accumulator(), 0);
    assert!(!cpu.registers.status_carry());
    assert!(cpu.registers.status_zero());
    assert!(cpu.registers.status_parity());
    assert!(!cpu.registers.status_aux_carry());
    assert!(!cpu.registers.status_sign());

    cpu.registers.set_accumulator(0xFF);
    cpu.registers.set_b(0x55);

    cpu.step(&mut memory);

    assert_eq!(cpu.registers.accumulator(), 0xAA);
    assert!(!cpu.registers.status_carry());
    assert!(!cpu.registers.status_zero());
    assert!(cpu.registers.status_parity());
    assert!(!cpu.registers.status_aux_carry());
    assert!(cpu.registers.status_sign());
}

#[test]
fn test_ora() {
    let mut memory: Memory<1> = Memory::new();
    memory.write_byte(0, Instruction::ORA_C.opcode());

    let mut cpu = Intel8080::new();
    cpu.registers.set_pc(0);
    cpu.registers.set_accumulator(0x33);
    cpu.registers.set_c(0x0F);

    cpu.step(&mut memory);

    assert_eq!(cpu.registers.accumulator(), 0x3F);
    assert!(!cpu.registers.status_carry());
    assert!(!cpu.registers.status_zero());
    assert!(cpu.registers.status_parity());
    assert!(!cpu.registers.status_sign());
}

#[test]
fn test_cmp() {
    let mut memory: Memory<40> = Memory::new();
    memory.write_byte(0, Instruction::CMP_E.opcode());
    memory.write_byte(1, Instruction::CMP_H.opcode());
    memory.write_byte(2, Instruction::CMP_B.opcode());

    let mut cpu = Intel8080::new();
    cpu.registers.set_pc(0);
    cpu.registers.set_accumulator(0x0A);
    cpu.registers.set_e(0x05);

    cpu.step(&mut memory);

    assert_eq!(cpu.registers.accumulator(), 0x0A);
    assert!(!cpu.registers.status_carry());

    cpu.registers.set_accumulator(0x02);
    cpu.registers.set_h(0x05);

    cpu.step(&mut memory);

    assert_eq!(cpu.registers.accumulator(), 0x02);
    assert!(cpu.registers.status_carry());
    assert!(!cpu.registers.status_zero());

    cpu.registers.set_accumulator(0x05);
    cpu.registers.set_b(0x05);

    cpu.step(&mut memory);

    assert_eq!(cpu.registers.accumulator(), 0x05);
    assert!(!cpu.registers.status_carry());
    assert!(cpu.registers.status_zero());
}

#[test]
fn test_rlc() {
    let mut memory: Memory<40> = Memory::new();
    memory.write_byte(0, Instruction::RLC.opcode());

    let mut cpu = Intel8080::new();
    cpu.registers.set_pc(0);
    cpu.registers.set_accumulator(0b11110010);

    cpu.step(&mut memory);

    assert_eq!(cpu.registers.accumulator(), 0b11100101);
    assert!(cpu.registers.status_carry());
}

#[test]
fn test_rrc() {
    let mut memory: Memory<40> = Memory::new();
    memory.write_byte(0, Instruction::RRC.opcode());

    let mut cpu = Intel8080::new();
    cpu.registers.set_pc(0);
    cpu.registers.set_accumulator(0b11110010);

    cpu.step(&mut memory);

    assert_eq!(cpu.registers.accumulator(), 0b01111001);
    assert!(!cpu.registers.status_carry());
}

#[test]
fn test_ral() {
    let mut memory: Memory<40> = Memory::new();
    memory.write_byte(0, Instruction::RAL.opcode());

    let mut cpu = Intel8080::new();
    cpu.registers.set_pc(0);
    cpu.registers.set_accumulator(0b10110101);
    cpu.registers.set_status_carry(false);

    cpu.step(&mut memory);

    assert_eq!(cpu.registers.accumulator(), 0b01101010);
    assert!(cpu.registers.status_carry());
}

#[test]
fn test_rar() {
    let mut memory: Memory<40> = Memory::new();
    memory.write_byte(0, Instruction::RAR.opcode());

    let mut cpu = Intel8080::new();
    cpu.registers.set_pc(0);
    cpu.registers.set_accumulator(0b01101010);
    cpu.registers.set_status_carry(true);

    cpu.step(&mut memory);

    assert_eq!(cpu.registers.accumulator(), 0b10110101);
    assert!(!cpu.registers.status_carry());
}

#[test]
fn test_mvi() {
    let mut memory: Memory<600> = Memory::new();
    memory.write_byte(0, Instruction::MVI_H.opcode());
    memory.write_byte(1, 0x01);
    memory.write_byte(2, Instruction::MVI_L.opcode());
    memory.write_byte(3, 0xF4);
    memory.write_byte(4, Instruction::MVI_M.opcode());
    memory.write_byte(5, 0xFF);

    let mut cpu = Intel8080::new();

    cpu.step(&mut memory);

    assert_eq!(cpu.registers.pc(), 0x02);
    assert_eq!(cpu.registers.h(), 0x01);

    cpu.step(&mut memory);

    assert_eq!(cpu.registers.pc(), 0x04);
    assert_eq!(cpu.registers.l(), 0xF4);

    cpu.step(&mut memory);

    assert_eq!(cpu.registers.pc(), 0x06);
    assert_eq!(memory.read_byte(0x01F4), 0xFF);
}

#[test]
fn test_adi() {
    let mut memory: Memory<40> = Memory::new();
    memory.write_byte(0, Instruction::ADI.opcode());
    memory.write_byte(1, 0x42);

    let mut cpu = Intel8080::new();
    cpu.registers.set_pc(0);
    cpu.registers.set_accumulator(0x14);

    cpu.step(&mut memory);

    assert!(cpu.registers.status_parity());
    assert!(!cpu.registers.status_zero());
    assert!(!cpu.registers.status_sign());
    assert!(!cpu.registers.status_carry());
    assert!(!cpu.registers.status_aux_carry());

    assert_eq!(cpu.registers.accumulator(), 0x56);
}

#[test]
fn test_aci() {
    let mut memory: Memory<2> = Memory::new();
    memory.write_byte(0, Instruction::ACI.opcode());
    memory.write_byte(1, 0x42);

    let mut cpu = Intel8080::new();
    cpu.registers.set_pc(0);
    cpu.registers.set_accumulator(0x14);
    cpu.registers.set_status_carry(true);

    cpu.step(&mut memory);

    assert!(!cpu.registers.status_parity());
    assert!(!cpu.registers.status_zero());
    assert!(!cpu.registers.status_sign());
    assert!(!cpu.registers.status_carry());
    assert!(!cpu.registers.status_aux_carry());

    assert_eq!(cpu.registers.accumulator(), 0x57);
}

#[test]
fn test_sui() {
    let mut memory: Memory<2> = Memory::new();
    memory.write_byte(0, Instruction::SUI.opcode());
    memory.write_byte(1, 0x01);

    let mut cpu = Intel8080::new();
    cpu.registers.set_pc(0);
    cpu.registers.set_accumulator(0x00);

    cpu.step(&mut memory);

    assert!(cpu.registers.status_parity());
    assert!(!cpu.registers.status_zero());
    assert!(cpu.registers.status_sign());
    assert!(cpu.registers.status_carry());
    assert!(!cpu.registers.status_aux_carry());

    assert_eq!(cpu.registers.accumulator(), 0xFF);
}

#[test]
fn test_sbi() {
    let mut memory: Memory<4> = Memory::new();
    memory.write_byte(0, Instruction::SBI.opcode());
    memory.write_byte(1, 0x01);

    memory.write_byte(2, Instruction::SBI.opcode());
    memory.write_byte(3, 0x01);

    let mut cpu = Intel8080::new();
    cpu.registers.set_pc(0);
    cpu.registers.set_accumulator(0x00);
    cpu.registers.set_status_carry(false);

    cpu.step(&mut memory);

    assert_eq!(cpu.registers.accumulator(), 0xFF);
    assert_eq!(cpu.registers.pc(), 0x2);

    assert!(cpu.registers.status_parity());
    assert!(!cpu.registers.status_zero());
    assert!(cpu.registers.status_sign());
    assert!(cpu.registers.status_carry());
    assert!(!cpu.registers.status_aux_carry());

    cpu.registers.set_accumulator(0x00);
    cpu.step(&mut memory);

    assert_eq!(cpu.registers.accumulator(), 0xFE);
    assert_eq!(cpu.registers.pc(), 0x4);

    assert!(!cpu.registers.status_parity());
    assert!(!cpu.registers.status_zero());
    assert!(cpu.registers.status_sign());
    assert!(cpu.registers.status_carry());
    assert!(!cpu.registers.status_aux_carry());
}

#[test]
fn test_ani() {
    let mut memory: Memory<2> = Memory::new();
    memory.write_byte(0, Instruction::ANI.opcode());
    memory.write_byte(1, 0x0F);

    let mut cpu = Intel8080::new();
    cpu.registers.set_pc(0);
    cpu.registers.set_accumulator(0x3A);

    cpu.step(&mut memory);

    assert!(cpu.registers.status_parity());
    assert!(!cpu.registers.status_zero());
    assert!(!cpu.registers.status_sign());
    assert!(!cpu.registers.status_carry());
    assert!(!cpu.registers.status_aux_carry());

    assert_eq!(cpu.registers.accumulator(), 0x0A);
    assert_eq!(cpu.registers.pc(), 0x02);
}

#[test]
fn test_xri() {
    let mut memory: Memory<2> = Memory::new();
    memory.write_byte(0, Instruction::XRI.opcode());
    memory.write_byte(1, 0x81);

    let mut cpu = Intel8080::new();
    cpu.registers.set_pc(0);
    cpu.registers.set_accumulator(0x3B);

    cpu.step(&mut memory);

    assert!(!cpu.registers.status_parity());
    assert!(!cpu.registers.status_zero());
    assert!(cpu.registers.status_sign());
    assert!(!cpu.registers.status_carry());
    assert!(!cpu.registers.status_aux_carry());

    assert_eq!(cpu.registers.accumulator(), 0xBA);
    assert_eq!(cpu.registers.pc(), 0x02);
}

#[test]
fn test_ori() {
    let mut memory: Memory<2> = Memory::new();
    memory.write_byte(0, Instruction::ORI.opcode());
    memory.write_byte(1, 0x0F);

    let mut cpu = Intel8080::new();
    cpu.registers.set_pc(0);
    cpu.registers.set_accumulator(0xB5);

    cpu.step(&mut memory);

    assert!(!cpu.registers.status_parity());
    assert!(!cpu.registers.status_zero());
    assert!(cpu.registers.status_sign());
    assert!(!cpu.registers.status_carry());
    assert!(!cpu.registers.status_aux_carry());

    assert_eq!(cpu.registers.accumulator(), 0xBF);
    assert_eq!(cpu.registers.pc(), 0x02);
}

#[test]
fn test_cpi() {
    let mut memory: Memory<2> = Memory::new();
    memory.write_byte(0, Instruction::CPI.opcode());
    memory.write_byte(1, 0x40);

    let mut cpu = Intel8080::new();
    cpu.registers.set_pc(0);
    cpu.registers.set_accumulator(0x4A);

    cpu.step(&mut memory);

    assert!(cpu.registers.status_parity());
    assert!(!cpu.registers.status_zero());
    assert!(!cpu.registers.status_sign());
    assert!(!cpu.registers.status_carry());
    assert!(!cpu.registers.status_aux_carry());

    assert_eq!(cpu.registers.accumulator(), 0x4A);
    assert_eq!(cpu.registers.pc(), 0x02);
}

#[test]
fn test_xchg() {
    let mut memory: Memory<1> = Memory::new();
    memory.write_byte(0, Instruction::XCHG.opcode());

    let mut cpu = Intel8080::new();
    cpu.registers.set_pc(0);
    cpu.registers.set_d(0x33);
    cpu.registers.set_e(0x55);
    cpu.registers.set_h(0x00);
    cpu.registers.set_l(0xFF);

    cpu.step(&mut memory);

    assert_eq!(cpu.registers.d(), 0x00);
    assert_eq!(cpu.registers.e(), 0xFF);
    assert_eq!(cpu.registers.h(), 0x33);
    assert_eq!(cpu.registers.l(), 0x55);
}

#[test]
fn test_xthl() {
    let mut memory: Memory<40> = Memory::new();
    memory.write_byte(0, Instruction::XTHL.opcode());
    memory.write_byte(20, 0xFF);
    memory.write_byte(21, 0xF0);
    memory.write_byte(22, 0x0D);
    memory.write_byte(23, 0xFF);

    let mut cpu = Intel8080::new();
    cpu.registers.set_sp(21);
    cpu.registers.set_pc(0);

    cpu.registers.set_h(0x0B);
    cpu.registers.set_l(0x3C);

    let initial_status = cpu.registers.status();
    cpu.step(&mut memory);

    assert_eq!(cpu.registers.h(), 0x0D);
    assert_eq!(cpu.registers.l(), 0xF0);
    assert_eq!(initial_status, cpu.registers.status());

    assert_eq!(memory.read_byte(20), 0xFF);
    assert_eq!(memory.read_byte(21), 0x3C);
    assert_eq!(memory.read_byte(22), 0x0B);
    assert_eq!(memory.read_byte(23), 0xFF);
}

#[test]
fn test_sphl() {
    let mut memory: Memory<1> = Memory::new();
    memory.write_byte(0, Instruction::SPHL.opcode());

    let mut cpu = Intel8080::new();
    cpu.registers.set_pc(0);
    cpu.registers.set_h(0x50);
    cpu.registers.set_l(0x6C);

    cpu.step(&mut memory);

    assert_eq!(cpu.registers.sp(), 0x506C)
}

#[test]
fn test_sta_lda() {
    let mut memory: Memory<500> = Memory::new();
    memory.write_byte(0, Instruction::STA.opcode());
    memory.write_byte(1, 0x24); // lo addr
    memory.write_byte(2, 0x01); // hi addr
    memory.write_byte(3, Instruction::LDA.opcode());
    memory.write_byte(4, 0x56); // lo addr
    memory.write_byte(5, 0x01); // hi addr
    memory.write_byte(0x0156, 0x72);

    let mut cpu = Intel8080::new();
    cpu.registers.set_pc(0);
    cpu.registers.set_accumulator(0x34);

    cpu.step(&mut memory);

    assert_eq!(memory.read_byte(0x0124), 0x34);
    assert_eq!(cpu.registers.pc(), 0x3);

    cpu.step(&mut memory);

    assert_eq!(cpu.registers.accumulator(), 0x72);
    assert_eq!(cpu.registers.pc(), 0x6);
}

#[test]
fn test_shld_lhld() {
    let mut memory: Memory<650> = Memory::new();
    memory.write_byte(0, Instruction::SHLD.opcode());
    memory.write_byte(1, 0x0A); // lo addr
    memory.write_byte(2, 0x01); // hi addr
    memory.write_byte(3, Instruction::LHLD.opcode());
    memory.write_byte(4, 0x5B); // lo addr
    memory.write_byte(5, 0x02); // hi addr
    memory.write_byte(0x025B, 0xFF);
    memory.write_byte(0x025C, 0x03);

    let mut cpu = Intel8080::new();
    cpu.registers.set_pc(0);
    cpu.registers.set_h(0xAE);
    cpu.registers.set_l(0x29);

    cpu.step(&mut memory);

    assert_eq!(memory.read_byte(0x010A), 0x29);
    assert_eq!(memory.read_byte(0x010B), 0xAE);
    assert_eq!(cpu.registers.pc(), 0x3);

    cpu.step(&mut memory);
    assert_eq!(cpu.registers.h(), 0x03);
    assert_eq!(cpu.registers.l(), 0xFF);
    assert_eq!(cpu.registers.pc(), 0x6);
}

#[test]
fn test_dad() {
    let mut memory: Memory<1> = Memory::new();
    memory.write_byte(0, Instruction::DAD_B.opcode());

    let mut cpu = Intel8080::new();
    cpu.registers.set_pc(0);
    cpu.registers.set_b(0x33);
    cpu.registers.set_c(0x9F);
    cpu.registers.set_h(0xA1);
    cpu.registers.set_l(0x7B);

    cpu.step(&mut memory);

    assert_eq!(cpu.registers.pair_h(), 0xD51A);
}

#[test]
fn test_dcx() {
    let mut memory: Memory<1> = Memory::new();
    memory.write_byte(0, Instruction::DCX_H.opcode());

    let mut cpu = Intel8080::new();
    cpu.registers.set_h(0x98);
    cpu.registers.set_l(0x00);

    cpu.step(&mut memory);

    assert_eq!(cpu.registers.h(), 0x97);
    assert_eq!(cpu.registers.l(), 0xFF);
}

#[test]
fn test_inx() {
    let mut memory: Memory<1> = Memory::new();
    memory.write_byte(0, Instruction::INX_D.opcode());

    let mut cpu = Intel8080::new();
    cpu.registers.set_d(0x38);
    cpu.registers.set_e(0xFF);

    cpu.step(&mut memory);

    assert_eq!(cpu.registers.d(), 0x39);
    assert_eq!(cpu.registers.e(), 0x00);
}

#[test]
fn test_push_pop() {
    let mut memory: Memory<100> = Memory::new();
    memory.write_byte(0, Instruction::PUSH_D.opcode());
    memory.write_byte(1, Instruction::POP_H.opcode());

    let mut cpu = Intel8080::new();
    cpu.registers.set_d(0xBF);
    cpu.registers.set_e(0x9D);
    cpu.registers.set_sp(86);

    cpu.step(&mut memory);

    assert_eq!(cpu.registers.sp(), 84);
    assert_eq!(memory.read_byte(85), 0xBF);
    assert_eq!(memory.read_byte(84), 0x9D);

    cpu.step(&mut memory);

    assert_eq!(cpu.registers.sp(), 86);
    assert_eq!(cpu.registers.l(), 0x9D);
    assert_eq!(cpu.registers.h(), 0xBF);
}

#[test]
fn test_pchl() {
    let mut memory: Memory<1> = Memory::new();
    memory.write_byte(0, Instruction::PCHL.opcode());

    let mut cpu = Intel8080::new();
    cpu.registers.set_pc(0);
    cpu.registers.set_h(0x41);
    cpu.registers.set_l(0x3E);

    cpu.step(&mut memory);

    assert_eq!(cpu.registers.pc(), 0x413E);
}

#[test]
fn test_jmp() {
    let mut memory: Memory<0x120> = Memory::new();
    memory.write_byte(0x10, Instruction::JMP.opcode());
    memory.write_byte(0x11, 0x02); // lo addr
    memory.write_byte(0x12, 0x01); // hi addr
    memory.write_byte(0x102, Instruction::JC.opcode());

    let mut cpu = Intel8080::new();
    cpu.registers.set_pc(0x10);

    cpu.step(&mut memory);

    assert_eq!(cpu.registers.pc(), 0x0102);

    cpu.registers.set_status_carry(false);

    cpu.step(&mut memory);

    assert_eq!(cpu.registers.pc(), 0x0105);
}

#[test]
fn test_call() {
    let mut memory: Memory<20> = Memory::new();
    memory.write_byte(0, Instruction::CALL.opcode());
    memory.write_byte(1, 5); // lo addr
    memory.write_byte(2, 0); // hi addr

    memory.write_byte(7, 0xFF);
    memory.write_byte(8, 0xFF);
    memory.write_byte(9, 0xFF);
    memory.write_byte(10, 0xFF);
    memory.write_byte(11, 0xFF);

    let mut cpu = Intel8080::new();

    cpu.registers.set_pc(0);
    cpu.registers.set_sp(10);

    cpu.step(&mut memory);

    assert_eq!(cpu.registers.pc(), 0x05);
    assert_eq!(cpu.registers.sp(), 0x08);
    assert_eq!(memory.read_byte( 7), 0xFF);
    assert_eq!(memory.read_byte( 8), 0xFF);
    assert_eq!(memory.read_byte( 9), 0x00);
    assert_eq!(memory.read_byte(10), 0x03);
    assert_eq!(memory.read_byte(11), 0xFF);
}

#[test]
fn test_ret() {
    let mut memory: Memory<20> = Memory::new();
    memory.write_byte( 0, Instruction::RET.opcode());
    memory.write_byte( 9, 0x00);
    memory.write_byte(10, 0x06);

    let mut cpu = Intel8080::new();
    cpu.registers.set_pc(0x00);
    cpu.registers.set_sp(0x08);

    cpu.step(&mut memory);

    assert_eq!(cpu.registers.pc(), 0x06);
    assert_eq!(cpu.registers.sp(), 0x0A);
}

#[test]
fn test_rst() {
    let mut memory: Memory<100> = Memory::new();
    memory.write_byte(0, Instruction::RST_2.opcode());

    let mut cpu = Intel8080::new();
    cpu.registers.set_pc(0x00);
    cpu.registers.set_sp(0x10);

    let cycles = cpu.step(&mut memory);

    assert_eq!(cycles, 11);
    assert_eq!(cpu.registers.sp(), 0x0E);
    assert_eq!(cpu.registers.pc(), 0x08);
    assert_eq!(memory.read_byte(0x0F), 0x00);
    assert_eq!(memory.read_byte(0x10), 0x01);
}

#[test]
fn test_input() {
    let mut memory: Memory<3> = Memory::new();
    memory.write_byte(0, Instruction::IN.opcode());
    memory.write_byte(1, 0x52);
    memory.write_byte(2, Instruction::NOP.opcode());

    let mut cpu = Intel8080::new();

    cpu.step(&mut memory);

    assert!(cpu.awaiting_input());
    assert_eq!(cpu.active_io_port(), 0x52);

    cpu.write_input(0xFF);

    cpu.step(&mut memory);
    assert!(!cpu.awaiting_input());
    assert_eq!(cpu.registers.accumulator(), 0xFF);
}

#[test]
fn test_output() {
    let mut memory: Memory<3> = Memory::new();
    memory.write_byte(0, Instruction::OUT.opcode());
    memory.write_byte(1, 0x3C);
    memory.write_byte(2, Instruction::NOP.opcode());

    let mut cpu = Intel8080::new();
    cpu.registers.set_accumulator(0x5A);

    cpu.step(&mut memory);

    assert!(cpu.output_ready());
    assert_eq!(cpu.active_io_port(), 0x3C);
    assert_eq!(cpu.read_output(), 0x5A);

    cpu.step(&mut memory);
    assert!(!cpu.output_ready());

}

#[test]
fn test_hlt() {
    let mut memory: Memory<1> = Memory::new();
    memory.write_byte(0, Instruction::HLT.opcode());

    let mut cpu = Intel8080::new();

    let cycles = cpu.step(&mut memory);

    assert_eq!(cycles, 7);
    assert!(cpu.stopped);
    assert_eq!(cpu.step(&mut memory), 0);
    assert_eq!(cpu.registers.pc(), 0x01);
}

#[test]
fn test_interrupts() {
    let mut memory: Memory<4> = Memory::new();
    memory.write_byte(0, Instruction::EI.opcode());
    memory.write_byte(1, Instruction::MOV_A_L.opcode());
    memory.write_byte(2, Instruction::DI.opcode());
    memory.write_byte(3, Instruction::XRA_A.opcode());

    let mut cpu = Intel8080::new();
    cpu.registers.set_accumulator(0x75);
    cpu.registers.set_l(0x85);
    cpu.registers.set_h(0x55);

    cpu.step(&mut memory); // EI

    cpu.interrupt(Instruction::MOV_A_H);

    cpu.step(&mut memory); // interrupt
    assert_eq!(cpu.registers.pc(), 0x01);
    assert_eq!(cpu.registers.accumulator(), cpu.registers.h());
    assert_ne!(cpu.registers.accumulator(), cpu.registers.l());

    cpu.step(&mut memory); // MOV_A_L
    cpu.step(&mut memory); // DI

    cpu.interrupt(Instruction::MOV_H_A);

    cpu.step(&mut memory); // XRA_A
    assert_eq!(cpu.registers.pc(), 0x04);
    assert_ne!(cpu.registers.h(), cpu.registers.accumulator());
    assert_eq!(cpu.registers.accumulator(), 0x00);
}
