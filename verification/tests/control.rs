use intel8080::{Instruction, Intel8080, Memory, MemoryAccess};

/// A processor in its reset state and a store that holds `program` from
/// address 0x0100 on, with the program counter there and the stack pointer
/// at 0x2000.
fn start(program: &[u8]) -> (Intel8080, Memory<0x10000>) {
    let mut memory: Memory<0x10000> = Memory::new();
    memory.copy_into_from_slice(program, 0x0100);
    let mut cpu = Intel8080::new();
    cpu.registers.set_pc(0x0100);
    cpu.registers.set_sp(0x2000);
    (cpu, memory)
}

/// Sets the flags so that sign, zero, parity and carry are as given.
fn set_flags(cpu: &mut Intel8080, sign: bool, zero: bool, parity: bool, carry: bool) {
    cpu.registers.set_status_sign(sign);
    cpu.registers.set_status_zero(zero);
    cpu.registers.set_status_parity(parity);
    cpu.registers.set_status_carry(carry);
}

/// Jump, call and return under each condition, and the flags under which
/// the condition holds, as (sign, zero, parity, carry).
fn conditional() -> [(Instruction, Instruction, Instruction, (bool, bool, bool, bool)); 8] {
    [
        (Instruction::JNZ, Instruction::CNZ, Instruction::RNZ, (false, false, false, false)),
        (Instruction::JZ, Instruction::CZ, Instruction::RZ, (false, true, false, false)),
        (Instruction::JNC, Instruction::CNC, Instruction::RNC, (false, false, false, false)),
        (Instruction::JC, Instruction::CC, Instruction::RC, (false, false, false, true)),
        (Instruction::JPO, Instruction::CPO, Instruction::RPO, (false, false, false, false)),
        (Instruction::JPE, Instruction::CPE, Instruction::RPE, (false, false, true, false)),
        (Instruction::JP, Instruction::CP, Instruction::RP, (false, false, false, false)),
        (Instruction::JM, Instruction::CM, Instruction::RM, (true, false, false, false)),
    ]
}

/// The flags under which the condition at `index` of `conditional` does not
/// hold.
fn opposite(index: usize) -> (bool, bool, bool, bool) {
    match index {
        0 => (false, true, false, false),
        1 => (false, false, false, false),
        2 => (false, false, false, true),
        3 => (false, false, false, false),
        4 => (false, false, true, false),
        5 => (false, false, false, false),
        6 => (true, false, false, false),
        _ => (false, false, false, false),
    }
}

#[test]
fn test_conditional_jump_taken_and_not_taken() {
    for (index, (jump, _, _, met)) in conditional().into_iter().enumerate() {
        let (mut cpu, mut memory) = start(&[jump.opcode(), 0x34, 0x12]);
        set_flags(&mut cpu, met.0, met.1, met.2, met.3);
        assert_eq!(cpu.step(&mut memory), 10);
        assert_eq!(cpu.registers.pc(), 0x1234);
        assert_eq!(cpu.registers.sp(), 0x2000);

        let unmet = opposite(index);
        let (mut cpu, mut memory) = start(&[jump.opcode(), 0x34, 0x12]);
        set_flags(&mut cpu, unmet.0, unmet.1, unmet.2, unmet.3);
        assert_eq!(cpu.step(&mut memory), 10);
        assert_eq!(cpu.registers.pc(), 0x0103);
        assert_eq!(cpu.registers.sp(), 0x2000);
    }
}

#[test]
fn test_conditional_call_taken_and_not_taken() {
    for (index, (_, call, _, met)) in conditional().into_iter().enumerate() {
        let (mut cpu, mut memory) = start(&[call.opcode(), 0x34, 0x12]);
        set_flags(&mut cpu, met.0, met.1, met.2, met.3);
        assert_eq!(cpu.step(&mut memory), 17);
        assert_eq!(cpu.registers.pc(), 0x1234);
        assert_eq!(cpu.registers.sp(), 0x1FFE);
        assert_eq!(memory.read_byte(0x2000), 0x03);
        assert_eq!(memory.read_byte(0x1FFF), 0x01);

        let unmet = opposite(index);
        let (mut cpu, mut memory) = start(&[call.opcode(), 0x34, 0x12]);
        set_flags(&mut cpu, unmet.0, unmet.1, unmet.2, unmet.3);
        assert_eq!(cpu.step(&mut memory), 11);
        assert_eq!(cpu.registers.pc(), 0x0103);
        assert_eq!(cpu.registers.sp(), 0x2000);
        assert_eq!(memory.read_byte(0x2000), 0x00);
        assert_eq!(memory.read_byte(0x1FFF), 0x00);
    }
}

#[test]
fn test_conditional_return_taken_and_not_taken() {
    for (index, (_, _, ret, met)) in conditional().into_iter().enumerate() {
        let (mut cpu, mut memory) = start(&[ret.opcode()]);
        memory.write_byte(0x2001, 0x56);
        memory.write_byte(0x2002, 0x78);
        set_flags(&mut cpu, met.0, met.1, met.2, met.3);
        assert_eq!(cpu.step(&mut memory), 11);
        assert_eq!(cpu.registers.pc(), 0x5678);
        assert_eq!(cpu.registers.sp(), 0x2002);

        let unmet = opposite(index);
        let (mut cpu, mut memory) = start(&[ret.opcode()]);
        memory.write_byte(0x2001, 0x56);
        memory.write_byte(0x2002, 0x78);
        set_flags(&mut cpu, unmet.0, unmet.1, unmet.2, unmet.3);
        assert_eq!(cpu.step(&mut memory), 5);
        assert_eq!(cpu.registers.pc(), 0x0101);
        assert_eq!(cpu.registers.sp(), 0x2000);
    }
}

#[test]
fn test_unconditional_forms_and_their_aliases() {
    for opcode in [0xc3u8, 0xcb] {
        let (mut cpu, mut memory) = start(&[opcode, 0x34, 0x12]);
        assert_eq!(cpu.step(&mut memory), 10);
        assert_eq!(cpu.registers.pc(), 0x1234);
    }
    for opcode in [0xcdu8, 0xdd, 0xed, 0xfd] {
        let (mut cpu, mut memory) = start(&[opcode, 0x34, 0x12]);
        assert_eq!(cpu.step(&mut memory), 17);
        assert_eq!(cpu.registers.pc(), 0x1234);
        assert_eq!(cpu.registers.sp(), 0x1FFE);
    }
    for opcode in [0xc9u8, 0xd9] {
        let (mut cpu, mut memory) = start(&[opcode]);
        memory.write_byte(0x2001, 0x56);
        memory.write_byte(0x2002, 0x78);
        assert_eq!(cpu.step(&mut memory), 10);
        assert_eq!(cpu.registers.pc(), 0x5678);
        assert_eq!(cpu.registers.sp(), 0x2002);
    }
    for opcode in [0x00u8, 0x08, 0x10, 0x18, 0x20, 0x28, 0x30, 0x38] {
        let (mut cpu, mut memory) = start(&[opcode]);
        assert_eq!(cpu.step(&mut memory), 4);
        assert_eq!(cpu.registers.pc(), 0x0101);
        assert_eq!(cpu.registers.status(), 0x02);
    }
}

#[test]
fn test_call_then_return_comes_back_behind_the_call() {
    let (mut cpu, mut memory) = start(&[Instruction::CALL.opcode(), 0x00, 0x03]);
    memory.write_byte(0x0300, Instruction::RET.opcode());
    cpu.step(&mut memory);
    assert_eq!(cpu.registers.pc(), 0x0300);
    cpu.step(&mut memory);
    assert_eq!(cpu.registers.pc(), 0x0103);
    assert_eq!(cpu.registers.sp(), 0x2000);
}

#[test]
fn test_restart_targets() {
    let restarts = [
        Instruction::RST_1,
        Instruction::RST_2,
        Instruction::RST_3,
        Instruction::RST_4,
        Instruction::RST_5,
        Instruction::RST_6,
        Instruction::RST_7,
        Instruction::RST_8,
    ];
    for (index, restart) in restarts.into_iter().enumerate() {
        let (mut cpu, mut memory) = start(&[restart.opcode()]);
        assert_eq!(cpu.step(&mut memory), 11);
        assert_eq!(cpu.registers.pc(), (index as u16) << 3);
        assert_eq!(cpu.registers.sp(), 0x1FFE);
        assert_eq!(memory.read_byte(0x2000), 0x01);
        assert_eq!(memory.read_byte(0x1FFF), 0x01);
    }
}

#[test]
fn test_push_then_pop_restores_every_pair() {
    let pairs = [
        (Instruction::PUSH_B, Instruction::POP_B),
        (Instruction::PUSH_D, Instruction::POP_D),
        (Instruction::PUSH_H, Instruction::POP_H),
        (Instruction::PUSH_PSW, Instruction::POP_PSW),
    ];
    for (push, pop) in pairs {
        let (mut cpu, mut memory) = start(&[push.opcode(), pop.opcode()]);
        cpu.registers.set_pair_b(0x1122);
        cpu.registers.set_pair_d(0x3344);
        cpu.registers.set_pair_h(0x5566);
        cpu.registers.set_accumulator(0x77);
        cpu.registers.set_status_sign(true);
        cpu.registers.set_status_aux_carry(true);
        cpu.registers.set_status_carry(true);
        assert_eq!(cpu.step(&mut memory), 11);
        assert_eq!(cpu.registers.sp(), 0x1FFE);
        assert_eq!(cpu.step(&mut memory), 10);
        assert_eq!(cpu.registers.sp(), 0x2000);
        assert_eq!(cpu.registers.pair_b(), 0x1122);
        assert_eq!(cpu.registers.pair_d(), 0x3344);
        assert_eq!(cpu.registers.pair_h(), 0x5566);
        assert_eq!(cpu.registers.accumulator(), 0x77);
        assert_eq!(cpu.registers.status(), 0x93);
    }
}

#[test]
fn test_push_writes_the_upper_byte_at_the_higher_address() {
    let (mut cpu, mut memory) = start(&[Instruction::PUSH_B.opcode(), Instruction::PUSH_PSW.opcode()]);
    cpu.registers.set_pair_b(0x1122);
    cpu.registers.set_accumulator(0x77);
    cpu.registers.set_status_zero(true);
    cpu.step(&mut memory);
    assert_eq!(memory.read_byte(0x1FFF), 0x11);
    assert_eq!(memory.read_byte(0x1FFE), 0x22);
    cpu.step(&mut memory);
    assert_eq!(memory.read_byte(0x1FFD), 0x77);
    assert_eq!(memory.read_byte(0x1FFC), 0x42);
    assert_eq!(cpu.registers.sp(), 0x1FFC);
}

#[test]
fn test_pop_psw_imposes_the_fixed_bits() {
    let (mut cpu, mut memory) = start(&[Instruction::POP_PSW.opcode()]);
    memory.write_byte(0x2000, 0xFF);
    memory.write_byte(0x2001, 0x12);
    cpu.step(&mut memory);
    assert_eq!(cpu.registers.accumulator(), 0x12);
    assert_eq!(cpu.registers.status(), 0xD7);
}

#[test]
fn test_stack_wraps_around_the_address_space() {
    let (mut cpu, mut memory) = start(&[Instruction::PUSH_H.opcode(), Instruction::POP_D.opcode()]);
    cpu.registers.set_sp(0x0001);
    cpu.registers.set_pair_h(0xABCD);
    cpu.step(&mut memory);
    assert_eq!(cpu.registers.sp(), 0xFFFF);
    assert_eq!(memory.read_byte(0x0000), 0xAB);
    assert_eq!(memory.read_byte(0xFFFF), 0xCD);
    cpu.step(&mut memory);
    assert_eq!(cpu.registers.sp(), 0x0001);
    assert_eq!(cpu.registers.pair_d(), 0xABCD);
}

#[test]
fn test_program_counter_wraps_around_the_address_space() {
    let mut memory: Memory<0x10000> = Memory::new();
    memory.write_byte(0xFFFF, Instruction::MVI_A.opcode());
    memory.write_byte(0x0000, 0x99);
    let mut cpu = Intel8080::new();
    cpu.registers.set_pc(0xFFFF);
    assert_eq!(cpu.step(&mut memory), 7);
    assert_eq!(cpu.registers.accumulator(), 0x99);
    assert_eq!(cpu.registers.pc(), 0x0001);
}

#[test]
fn test_moves_between_registers() {
    let (mut cpu, mut memory) = start(&[
        Instruction::MOV_H_E.opcode(),
        Instruction::MOV_B_B.opcode(),
        Instruction::MOV_A_H.opcode(),
    ]);
    cpu.registers.set_e(0x5E);
    cpu.registers.set_b(0x0B);
    assert_eq!(cpu.step(&mut memory), 5);
    assert_eq!(cpu.registers.h(), 0x5E);
    assert_eq!(cpu.registers.e(), 0x5E);
    assert_eq!(cpu.step(&mut memory), 5);
    assert_eq!(cpu.registers.b(), 0x0B);
    assert_eq!(cpu.step(&mut memory), 5);
    assert_eq!(cpu.registers.accumulator(), 0x5E);
    assert_eq!(cpu.registers.status(), 0x02);
    assert_eq!(cpu.registers.pc(), 0x0103);
}

#[test]
fn test_moves_through_memory_cost_seven_cycles() {
    let (mut cpu, mut memory) = start(&[
        Instruction::MOV_M_A.opcode(),
        Instruction::MOV_D_M.opcode(),
        Instruction::MVI_M.opcode(),
        0x66,
        Instruction::MVI_C.opcode(),
        0x77,
    ]);
    cpu.registers.set_pair_h(0x0400);
    cpu.registers.set_accumulator(0x55);
    assert_eq!(cpu.step(&mut memory), 7);
    assert_eq!(memory.read_byte(0x0400), 0x55);
    assert_eq!(cpu.step(&mut memory), 7);
    assert_eq!(cpu.registers.d(), 0x55);
    assert_eq!(cpu.step(&mut memory), 7);
    assert_eq!(memory.read_byte(0x0400), 0x66);
    assert_eq!(cpu.registers.z(), 0x66);
    assert_eq!(cpu.step(&mut memory), 7);
    assert_eq!(cpu.registers.c(), 0x77);
    assert_eq!(cpu.registers.pc(), 0x0106);
}

#[test]
fn test_lxi_loads_every_pair() {
    let (mut cpu, mut memory) = start(&[
        Instruction::LXI_B.opcode(),
        0x22,
        0x11,
        Instruction::LXI_D.opcode(),
        0x44,
        0x33,
        Instruction::LXI_H.opcode(),
        0x66,
        0x55,
        Instruction::LXI_SP.opcode(),
        0x88,
        0x77,
    ]);
    for _ in 0..4 {
        assert_eq!(cpu.step(&mut memory), 10);
    }
    assert_eq!(cpu.registers.pair_b(), 0x1122);
    assert_eq!(cpu.registers.pair_d(), 0x3344);
    assert_eq!(cpu.registers.pair_h(), 0x5566);
    assert_eq!(cpu.registers.sp(), 0x7788);
    assert_eq!(cpu.registers.pair_w(), 0x7788);
    assert_eq!(cpu.registers.pc(), 0x010C);
}

#[test]
fn test_direct_loads_and_stores_and_their_cost() {
    let (mut cpu, mut memory) = start(&[
        Instruction::STA.opcode(),
        0x00,
        0x05,
        Instruction::LDA.opcode(),
        0x01,
        0x05,
        Instruction::SHLD.opcode(),
        0xFF,
        0xFF,
        Instruction::LHLD.opcode(),
        0x02,
        0x05,
    ]);
    memory.write_byte(0x0501, 0xA1);
    memory.write_byte(0x0502, 0xB2);
    memory.write_byte(0x0503, 0xC3);
    cpu.registers.set_accumulator(0x9F);
    cpu.registers.set_pair_h(0x1234);
    assert_eq!(cpu.step(&mut memory), 13);
    assert_eq!(memory.read_byte(0x0500), 0x9F);
    assert_eq!(cpu.step(&mut memory), 13);
    assert_eq!(cpu.registers.accumulator(), 0xA1);
    assert_eq!(cpu.step(&mut memory), 16);
    assert_eq!(memory.read_byte(0xFFFF), 0x34);
    assert_eq!(memory.read_byte(0x0000), 0x12);
    assert_eq!(cpu.step(&mut memory), 15);
    assert_eq!(cpu.registers.l(), 0xB2);
    assert_eq!(cpu.registers.h(), 0xC3);
}

#[test]
fn test_exchanges_and_their_cost() {
    let (mut cpu, mut memory) = start(&[
        Instruction::XCHG.opcode(),
        Instruction::XTHL.opcode(),
        Instruction::SPHL.opcode(),
        Instruction::PCHL.opcode(),
    ]);
    memory.write_byte(0x2000, 0xEE);
    memory.write_byte(0x2001, 0xDD);
    cpu.registers.set_pair_d(0x0102);
    cpu.registers.set_pair_h(0x0304);
    assert_eq!(cpu.step(&mut memory), 4);
    assert_eq!(cpu.registers.pair_d(), 0x0304);
    assert_eq!(cpu.registers.pair_h(), 0x0102);
    assert_eq!(cpu.step(&mut memory), 18);
    assert_eq!(cpu.registers.pair_h(), 0xDDEE);
    assert_eq!(memory.read_byte(0x2000), 0x02);
    assert_eq!(memory.read_byte(0x2001), 0x01);
    assert_eq!(cpu.registers.sp(), 0x2000);
    assert_eq!(cpu.step(&mut memory), 5);
    assert_eq!(cpu.registers.sp(), 0xDDEE);
    assert_eq!(cpu.step(&mut memory), 5);
    assert_eq!(cpu.registers.pc(), 0xDDEE);
}

#[test]
fn test_store_and_load_through_pairs_cost_seven_cycles() {
    let (mut cpu, mut memory) = start(&[
        Instruction::STAX_B.opcode(),
        Instruction::LDAX_D.opcode(),
    ]);
    memory.write_byte(0x0700, 0x3D);
    cpu.registers.set_pair_b(0x0600);
    cpu.registers.set_pair_d(0x0700);
    cpu.registers.set_accumulator(0x2C);
    assert_eq!(cpu.step(&mut memory), 7);
    assert_eq!(memory.read_byte(0x0600), 0x2C);
    assert_eq!(cpu.step(&mut memory), 7);
    assert_eq!(cpu.registers.accumulator(), 0x3D);
}

#[test]
fn test_a_small_store_drops_writes_and_reads_zero() {
    let mut memory: Memory<2> = Memory::new();
    memory.write_byte(0, Instruction::PUSH_B.opcode());
    memory.write_byte(1, Instruction::POP_D.opcode());
    let mut cpu = Intel8080::new();
    cpu.registers.set_pair_b(0x1234);
    cpu.registers.set_sp(0x0010);
    assert_eq!(cpu.step(&mut memory), 11);
    assert_eq!(cpu.registers.sp(), 0x000E);
    assert_eq!(cpu.step(&mut memory), 10);
    assert_eq!(cpu.registers.pair_d(), 0x0000);
    assert_eq!(cpu.registers.sp(), 0x0010);
}
