use crate::alu::offset;
use crate::instruction::{canonical_opcode, Instruction};
use crate::memory::{read_at, MemoryAccess};
use crate::operation::{lemma_alias, Operation};
use crate::registers::{RegisterFile, Registers};
use crate::semantics::Machine;
use vstd::prelude::*;

verus! {

/// The length of one clock cycle at 2 MHz, in nanoseconds.
pub const CYCLE_TIME_NANO_SECS: u64 = 500;

/// The processor: its registers, the interrupt latch and the signals by
/// which it asks its host for input and offers output.
#[derive(Debug)]
pub struct Intel8080 {
    pub registers: Registers,
    /// The instruction that an accepted interrupt handed in and that the
    /// next step executes.
    pub interrupt_instruction: Option<Instruction>,
    /// The port of the last input or output instruction.
    pub io_port: u8,
    /// Whether the processor has halted.
    pub stopped: bool,
    /// Whether the last step executed an output instruction.
    pub output_ready: bool,
    /// Whether the last step executed an input instruction.
    pub awaiting_input: bool,
    /// Whether interrupts are accepted.
    pub inte: bool,
}

impl Intel8080 {
    /// The state of the processor.
    pub open spec fn view(&self) -> Machine {
        Machine {
            regs: self.registers@,
            pending: self.interrupt_instruction,
            io_port: self.io_port,
            stopped: self.stopped,
            output_ready: self.output_ready,
            awaiting_input: self.awaiting_input,
            inte: self.inte,
        }
    }

    /// A processor with its registers reset, running, with interrupts
    /// disabled.
    pub fn new() -> (cpu: Self)
        ensures
            cpu@ == Machine::power_on(),
    {
        Self {
            registers: Registers::new(),
            interrupt_instruction: None,
            io_port: 0,
            stopped: false,
            output_ready: false,
            awaiting_input: false,
            inte: false,
        }
    }

    /// The port that the last input or output instruction named.
    pub fn active_io_port(&self) -> (port: u8)
        ensures
            port == self@.io_port,
    {
        self.io_port
    }

    /// Whether the last step executed an input instruction.
    pub fn awaiting_input(&self) -> (awaiting: bool)
        ensures
            awaiting == self@.awaiting_input,
    {
        self.awaiting_input
    }

    /// Hands the processor the byte that an input instruction asked for:
    /// it goes to the accumulator. Without such a request nothing changes.
    pub fn write_input(&mut self, data: u8)
        ensures
            final(self)@ == (if old(self)@.awaiting_input {
                old(self)@.with_regs(
                    RegisterFile { accumulator: data, ..old(self)@.regs },
                )
            } else {
                old(self)@
            }),
    {
        if self.awaiting_input {
            self.registers.set_accumulator(data);
        }
    }

    /// Whether the last step executed an output instruction.
    pub fn output_ready(&self) -> (ready: bool)
        ensures
            ready == self@.output_ready,
    {
        self.output_ready
    }

    /// The byte that an output instruction offers: the accumulator. Zero
    /// where the last step executed no output instruction.
    pub fn read_output(&self) -> (data: u8)
        ensures
            data == (if self@.output_ready {
                self@.regs.accumulator
            } else {
                0
            }),
    {
        match self.output_ready {
            true => self.registers.accumulator(),
            false => 0,
        }
    }

    /// Executes one instruction and returns the clock cycles that it took.
    ///
    /// A halted processor does nothing and returns 0. A running one
    /// executes the instruction of an accepted interrupt, if one is
    /// pending, and else the instruction at the program counter.
    pub fn step(&mut self, memory: &mut impl MemoryAccess) -> (cycles: u64)
        ensures
            final(self)@.done(final(memory)@, cycles) == old(self)@.step(old(memory)@),
    {
        self.awaiting_input = false;
        self.output_ready = false;

        if !self.stopped {
            let instruction = match self.interrupt_instruction.take() {
                Some(instruction) => instruction,
                None => {
                    proof {
                        lemma_alias(read_at(memory@, self@.regs.pc));
                    }
                    self.fetch_instruction(memory)
                },
            };
            return self.do_instruction(instruction, memory)
        } else {
            return 0
        }
    }

    /// Offers the processor an instruction to execute in place of the next
    /// one of the program. It is accepted only while interrupts are
    /// enabled; a halted processor then runs again.
    pub fn interrupt(&mut self, instruction: Instruction)
        ensures
            final(self)@ == old(self)@.interrupt(instruction),
    {
        if self.inte {
            self.interrupt_instruction = Some(instruction);
            self.stopped = false;
        }
    }

    /// Sets the program counter to zero and lets a halted processor run
    /// again.
    pub fn reset(&mut self)
        ensures
            final(self)@ == old(self)@.restarted(),
    {
        self.registers.set_pc(0);
        self.stopped = false;
    }

    /// Reads the byte at the program counter, moves the program counter
    /// past it and decodes the byte.
    fn fetch_instruction(&mut self, memory: &impl MemoryAccess) -> (instruction: Instruction)
        ensures
            instruction.opcode() == canonical_opcode(read_at(memory@, old(self)@.regs.pc)),
            final(self)@ == old(self)@.at(offset(old(self)@.regs.pc, 1)),
    {
        self.registers.set_pc(self.registers.pc().wrapping_add(1));
        Instruction::from(memory.read_byte(self.registers.pc().wrapping_sub(1)))
    }

    /// Executes one instruction and returns the clock cycles that it took.
    fn do_instruction(&mut self, instruction: Instruction, memory: &mut impl MemoryAccess) -> (cycles:
        u64)
        ensures
            final(self)@.done(final(memory)@, cycles) == old(self)@.execute(
                instruction,
                old(memory)@,
            ),
    {
        match instruction.operation() {
            Operation::Nop => { return 4; },
            Operation::Stc => { return self.stc(); },
            Operation::Cmc => { return self.cmc(); },
            Operation::Cma => { return self.cma(); },
            Operation::Daa => { return self.daa(); },
            Operation::Inr(reg) => { return self.inr(reg, memory); },
            Operation::Dcr(reg) => { return self.dcr(reg, memory); },
            Operation::Mov(dst, src) => { return self.mov(dst, src, memory); },
            Operation::Stax(dst) => { return self.stax(dst, memory); },
            Operation::Ldax(dst) => { return self.ldax(dst, memory); },
            Operation::Add(src) => { return self.add(src, memory); },
            Operation::Adc(src) => { return self.adc(src, memory); },
            Operation::Sub(src) => { return self.sub(src, memory); },
            Operation::Sbb(src) => { return self.sbb(src, memory); },
            Operation::Ana(src) => { return self.ana(src, memory); },
            Operation::Xra(src) => { return self.xra(src, memory); },
            Operation::Ora(src) => { return self.ora(src, memory); },
            Operation::Cmp(src) => { return self.cmp(src, memory); },
            Operation::Rlc => { return self.rlc(); },
            Operation::Rrc => { return self.rrc(); },
            Operation::Ral => { return self.ral(); },
            Operation::Rar => { return self.rar(); },
            Operation::Push(src) => { return self.push(src, memory); },
            Operation::Pop(dst) => { return self.pop(dst, memory); },
            Operation::Dad(src) => { return self.dad(src); },
            Operation::Inx(src) => { return self.inx(src); },
            Operation::Dcx(src) => { return self.dcx(src); },
            Operation::Xchg => { return self.xchg(); },
            Operation::Xthl => { return self.xthl(memory); },
            Operation::Sphl => { return self.sphl(); },
            Operation::Lxi(dst) => { return self.lxi(dst, memory); },
            Operation::Sta => { return self.sta(memory); },
            Operation::Lda => { return self.lda(memory); },
            Operation::Shld => { return self.shld(memory); },
            Operation::Lhld => { return self.lhld(memory); },
            Operation::Pchl => { return self.pchl(); },
            Operation::Jmp(condition) => { return self.jmp(condition, memory); },
            Operation::Call(condition) => { return self.call(condition, memory); },
            Operation::Ret(condition) => { return self.ret(condition, memory); },
            Operation::Rst(exp) => { return self.rst(exp, memory); },
            Operation::Ei => { return self.ei(); },
            Operation::Di => { return self.di(); },
            Operation::In => { return self.input(memory); },
            Operation::Out => { return self.output(memory); },
            Operation::Hlt => { return self.hlt(); },
        }
    }
}

} // verus!
