use intel8080::{Instruction, Intel8080, Memory, MemoryAccess};

#[test]
fn test_new_processor() {
    let cpu = Intel8080::new();
    assert!(!cpu.stopped);
    assert!(!cpu.inte);
    assert!(cpu.interrupt_instruction.is_none());
    assert!(!cpu.awaiting_input());
    assert!(!cpu.output_ready());
    assert_eq!(cpu.active_io_port(), 0);
    assert_eq!(cpu.read_output(), 0);
    assert_eq!(cpu.registers.status(), 0x02);
    assert_eq!(cpu.registers.pc(), 0);
}

#[test]
fn test_interrupt_is_dropped_while_interrupts_are_disabled() {
    let mut memory: Memory<4> = Memory::new();
    memory.write_byte(0, Instruction::INR_B.opcode());
    let mut cpu = Intel8080::new();
    cpu.interrupt(Instruction::INR_C);
    assert!(cpu.interrupt_instruction.is_none());
    cpu.step(&mut memory);
    assert_eq!(cpu.registers.b(), 1);
    assert_eq!(cpu.registers.c(), 0);
    assert_eq!(cpu.registers.pc(), 1);
}

#[test]
fn test_interrupt_is_executed_in_place_of_a_fetch() {
    let mut memory: Memory<4> = Memory::new();
    memory.write_byte(0, Instruction::EI.opcode());
    memory.write_byte(1, Instruction::INR_B.opcode());
    let mut cpu = Intel8080::new();
    assert_eq!(cpu.step(&mut memory), 4);
    assert!(cpu.inte);
    cpu.interrupt(Instruction::INR_C);
    assert_eq!(cpu.step(&mut memory), 5);
    assert_eq!(cpu.registers.pc(), 1);
    assert_eq!(cpu.registers.b(), 0);
    assert_eq!(cpu.registers.c(), 1);
    assert!(cpu.interrupt_instruction.is_none());
    assert!(cpu.inte);
    cpu.step(&mut memory);
    assert_eq!(cpu.registers.pc(), 2);
    assert_eq!(cpu.registers.b(), 1);
}

#[test]
fn test_interrupt_with_a_restart_saves_the_program_counter() {
    let mut memory: Memory<0x100> = Memory::new();
    memory.write_byte(0x20, Instruction::EI.opcode());
    let mut cpu = Intel8080::new();
    cpu.registers.set_pc(0x20);
    cpu.registers.set_sp(0x80);
    cpu.step(&mut memory);
    cpu.interrupt(Instruction::RST_8);
    assert_eq!(cpu.step(&mut memory), 11);
    assert_eq!(cpu.registers.pc(), 0x38);
    assert_eq!(cpu.registers.sp(), 0x7E);
    assert_eq!(memory.read_byte(0x80), 0x21);
    assert_eq!(memory.read_byte(0x7F), 0x00);
}

#[test]
fn test_interrupt_resumes_a_halted_processor() {
    let mut memory: Memory<4> = Memory::new();
    memory.write_byte(0, Instruction::EI.opcode());
    memory.write_byte(1, Instruction::HLT.opcode());
    memory.write_byte(2, Instruction::INR_B.opcode());
    let mut cpu = Intel8080::new();
    cpu.step(&mut memory);
    assert_eq!(cpu.step(&mut memory), 7);
    assert!(cpu.stopped);
    assert_eq!(cpu.step(&mut memory), 0);
    assert_eq!(cpu.registers.pc(), 2);
    cpu.interrupt(Instruction::NOP);
    assert!(!cpu.stopped);
    assert_eq!(cpu.step(&mut memory), 4);
    assert_eq!(cpu.registers.pc(), 2);
    assert_eq!(cpu.step(&mut memory), 5);
    assert_eq!(cpu.registers.b(), 1);
}

#[test]
fn test_halted_processor_ignores_an_interrupt_while_disabled() {
    let mut memory: Memory<4> = Memory::new();
    memory.write_byte(0, Instruction::HLT.opcode());
    let mut cpu = Intel8080::new();
    cpu.step(&mut memory);
    cpu.interrupt(Instruction::INR_B);
    assert!(cpu.stopped);
    assert_eq!(cpu.step(&mut memory), 0);
    assert_eq!(cpu.registers.b(), 0);
}

#[test]
fn test_reset_lets_a_halted_processor_run_from_zero() {
    let mut memory: Memory<8> = Memory::new();
    memory.write_byte(0, Instruction::INR_B.opcode());
    memory.write_byte(5, Instruction::HLT.opcode());
    let mut cpu = Intel8080::new();
    cpu.registers.set_pc(5);
    cpu.registers.set_accumulator(0x44);
    cpu.step(&mut memory);
    assert!(cpu.stopped);
    cpu.reset();
    assert!(!cpu.stopped);
    assert_eq!(cpu.registers.pc(), 0);
    assert_eq!(cpu.registers.accumulator(), 0x44);
    assert_eq!(cpu.step(&mut memory), 5);
    assert_eq!(cpu.registers.b(), 1);
}

#[test]
fn test_disable_interrupts() {
    let mut memory: Memory<4> = Memory::new();
    memory.write_byte(0, Instruction::EI.opcode());
    memory.write_byte(1, Instruction::DI.opcode());
    memory.write_byte(2, Instruction::INR_B.opcode());
    let mut cpu = Intel8080::new();
    cpu.step(&mut memory);
    assert_eq!(cpu.step(&mut memory), 4);
    assert!(!cpu.inte);
    cpu.interrupt(Instruction::INR_C);
    cpu.step(&mut memory);
    assert_eq!(cpu.registers.b(), 1);
    assert_eq!(cpu.registers.c(), 0);
}

#[test]
fn test_input_is_taken_only_when_asked_for() {
    let mut memory: Memory<4> = Memory::new();
    memory.write_byte(0, Instruction::NOP.opcode());
    memory.write_byte(1, Instruction::IN.opcode());
    memory.write_byte(2, 0x07);
    let mut cpu = Intel8080::new();
    cpu.registers.set_accumulator(0x11);
    cpu.step(&mut memory);
    cpu.write_input(0x99);
    assert_eq!(cpu.registers.accumulator(), 0x11);
    assert_eq!(cpu.step(&mut memory), 10);
    assert!(cpu.awaiting_input());
    assert!(!cpu.output_ready());
    assert_eq!(cpu.active_io_port(), 0x07);
    assert_eq!(cpu.registers.pc(), 3);
    cpu.write_input(0x99);
    assert_eq!(cpu.registers.accumulator(), 0x99);
}

#[test]
fn test_output_is_offered_for_one_step() {
    let mut memory: Memory<4> = Memory::new();
    memory.write_byte(0, Instruction::OUT.opcode());
    memory.write_byte(1, 0x0A);
    memory.write_byte(2, Instruction::NOP.opcode());
    let mut cpu = Intel8080::new();
    cpu.registers.set_accumulator(0x3E);
    assert_eq!(cpu.read_output(), 0);
    assert_eq!(cpu.step(&mut memory), 10);
    assert!(cpu.output_ready());
    assert!(!cpu.awaiting_input());
    assert_eq!(cpu.active_io_port(), 0x0A);
    assert_eq!(cpu.read_output(), 0x3E);
    cpu.step(&mut memory);
    assert!(!cpu.output_ready());
    assert_eq!(cpu.read_output(), 0);
    assert_eq!(cpu.active_io_port(), 0x0A);
}
