use crate::alu::{
    bump_flags, complement, decimal_flags, decimal_value, decremented, difference_flags,
    difference_value, incremented, logic_flags, offset, rotated_left, rotated_right, shifted_left,
    shifted_right, sum_flags, sum_value, wide_sum,
};
use crate::instruction::Instruction;
use crate::memory::{read_at, write_at};
use crate::operand::{ConditionCode, Operand16, Operand8};
use crate::operation::{operation_of, Operation};
use crate::registers::{Flags, RegisterFile};
use crate::utils::{high_byte, low_byte, pair};
use vstd::prelude::*;

verus! {

/// The state of the processor, as plain values.
pub struct Machine {
    pub regs: RegisterFile,
    /// The instruction that an interrupt has handed in and that the next
    /// step executes.
    pub pending: Option<Instruction>,
    /// The port of the last input or output instruction.
    pub io_port: u8,
    pub stopped: bool,
    pub output_ready: bool,
    pub awaiting_input: bool,
    /// Whether interrupts are accepted.
    pub inte: bool,
}

/// What one instruction leaves behind: the processor, the memory, and the
/// clock cycles that it took.
pub struct Outcome {
    pub machine: Machine,
    pub memory: Seq<u8>,
    pub cycles: u64,
}

/// The cost of an arithmetic or logical instruction.
pub open spec fn accumulator_cycles(src: Operand8) -> u64 {
    if src == Operand8::Memory || src == Operand8::Immediate {
        7
    } else {
        4
    }
}

/// The cost of an increment or decrement of a byte.
pub open spec fn bump_cycles(reg: Operand8) -> u64 {
    if reg == Operand8::Memory {
        10
    } else {
        5
    }
}

/// The cost of a move.
pub open spec fn move_cycles(dst: Operand8, src: Operand8) -> u64 {
    if dst == Operand8::Memory || src == Operand8::Memory || src == Operand8::Immediate {
        7
    } else {
        5
    }
}

impl Machine {
    /// The processor as it is created: the registers reset, no interrupt
    /// pending, interrupts disabled, running.
    pub open spec fn power_on() -> Machine {
        Machine {
            regs: RegisterFile::reset(),
            pending: None,
            io_port: 0,
            stopped: false,
            output_ready: false,
            awaiting_input: false,
            inte: false,
        }
    }

    /// This state with other registers.
    pub open spec fn with_regs(self, regs: RegisterFile) -> Machine {
        Machine { regs, ..self }
    }

    /// This state with other flags.
    pub open spec fn with_flags(self, flags: Flags) -> Machine {
        self.with_regs(RegisterFile { flags, ..self.regs })
    }

    /// This state with another carry flag.
    pub open spec fn with_carry(self, carry: bool) -> Machine {
        self.with_flags(Flags { carry, ..self.regs.flags })
    }

    /// This state with another accumulator and other flags.
    pub open spec fn with_result(self, accumulator: u8, flags: Flags) -> Machine {
        self.with_regs(RegisterFile { accumulator, flags, ..self.regs })
    }

    /// This state with another program counter.
    pub open spec fn at(self, pc: u16) -> Machine {
        self.with_regs(RegisterFile { pc, ..self.regs })
    }

    /// The outcome of an instruction that leaves this state and the memory
    /// `memory` and took `cycles` clock cycles.
    pub open spec fn done(self, memory: Seq<u8>, cycles: u64) -> Outcome {
        Outcome { machine: self, memory, cycles }
    }

    /// The state after the byte at the program counter was read as an
    /// operand: the byte is in the latch Z and the program counter is one
    /// further.
    pub open spec fn load_imm(self, mem: Seq<u8>) -> Machine {
        self.with_regs(
            RegisterFile {
                pc: offset(self.regs.pc, 1),
                z: read_at(mem, self.regs.pc),
                ..self.regs
            },
        )
    }

    /// The state after the two bytes at the program counter were read as
    /// an operand: the first is in the latch Z, the second in the latch W,
    /// and the program counter is two further.
    pub open spec fn load_imm16(self, mem: Seq<u8>) -> Machine {
        self.with_regs(
            RegisterFile {
                pc: offset(self.regs.pc, 2),
                z: read_at(mem, self.regs.pc),
                w: read_at(mem, offset(self.regs.pc, 1)),
                ..self.regs
            },
        )
    }

    /// The byte that the operand `src` stands for.
    pub open spec fn source(self, src: Operand8, mem: Seq<u8>) -> u8 {
        match src {
            Operand8::RegB => self.regs.b,
            Operand8::RegC => self.regs.c,
            Operand8::RegD => self.regs.d,
            Operand8::RegE => self.regs.e,
            Operand8::RegH => self.regs.h,
            Operand8::RegL => self.regs.l,
            Operand8::Memory => read_at(mem, self.regs.hl()),
            Operand8::RegA => self.regs.accumulator,
            Operand8::Immediate => read_at(mem, self.regs.pc),
        }
    }

    /// The state after the operand `src` was read: reading the immediate
    /// byte moves the program counter on, no other operand changes anything.
    pub open spec fn after_source(self, src: Operand8, mem: Seq<u8>) -> Machine {
        if src == Operand8::Immediate {
            self.load_imm(mem)
        } else {
            self
        }
    }

    /// The state after `val` was written to the operand `dst`. A write to
    /// memory changes no register.
    pub open spec fn store(self, dst: Operand8, val: u8) -> Machine
        recommends
            dst != Operand8::Immediate,
    {
        match dst {
            Operand8::RegB => self.with_regs(RegisterFile { b: val, ..self.regs }),
            Operand8::RegC => self.with_regs(RegisterFile { c: val, ..self.regs }),
            Operand8::RegD => self.with_regs(RegisterFile { d: val, ..self.regs }),
            Operand8::RegE => self.with_regs(RegisterFile { e: val, ..self.regs }),
            Operand8::RegH => self.with_regs(RegisterFile { h: val, ..self.regs }),
            Operand8::RegL => self.with_regs(RegisterFile { l: val, ..self.regs }),
            Operand8::RegA => self.with_regs(RegisterFile { accumulator: val, ..self.regs }),
            _ => self,
        }
    }

    /// The memory after `val` was written to the operand `dst`. Only a write
    /// to the memory operand changes the memory: the cell that H:L points to.
    pub open spec fn store_memory(self, dst: Operand8, val: u8, mem: Seq<u8>) -> Seq<u8> {
        if dst == Operand8::Memory {
            write_at(mem, self.regs.hl(), val)
        } else {
            mem
        }
    }

    /// The 16-bit value that the operand `src` stands for.
    pub open spec fn source16(self, src: Operand16) -> u16 {
        match src {
            Operand16::PSW => self.regs.psw(),
            Operand16::RegPairB => self.regs.bc(),
            Operand16::RegPairD => self.regs.de(),
            Operand16::RegPairH => self.regs.hl(),
            Operand16::SP => self.regs.sp,
        }
    }

    /// The state after `val` was written to the 16-bit operand `dst`.
    pub open spec fn store16(self, dst: Operand16, val: u16) -> Machine {
        match dst {
            Operand16::PSW => self.with_regs(
                RegisterFile {
                    accumulator: high_byte(val),
                    flags: Flags::of_byte(low_byte(val)),
                    ..self.regs
                },
            ),
            Operand16::RegPairB => self.with_regs(
                RegisterFile { b: high_byte(val), c: low_byte(val), ..self.regs },
            ),
            Operand16::RegPairD => self.with_regs(
                RegisterFile { d: high_byte(val), e: low_byte(val), ..self.regs },
            ),
            Operand16::RegPairH => self.with_regs(
                RegisterFile { h: high_byte(val), l: low_byte(val), ..self.regs },
            ),
            Operand16::SP => self.with_regs(RegisterFile { sp: val, ..self.regs }),
        }
    }

    /// Whether the flags meet the condition.
    pub open spec fn holds(self, condition: ConditionCode) -> bool {
        match condition {
            ConditionCode::NotZero => !self.regs.flags.zero,
            ConditionCode::Zero => self.regs.flags.zero,
            ConditionCode::NoCarry => !self.regs.flags.carry,
            ConditionCode::Carry => self.regs.flags.carry,
            ConditionCode::ParityOdd => !self.regs.flags.parity,
            ConditionCode::ParityEven => self.regs.flags.parity,
            ConditionCode::Positive => !self.regs.flags.sign,
            ConditionCode::Minus => self.regs.flags.sign,
            ConditionCode::Unconditional => true,
        }
    }

    /// Set carry.
    #[verifier::opaque]
    pub open spec fn stc(self) -> Machine {
        self.with_carry(true)
    }

    /// Complement carry.
    #[verifier::opaque]
    pub open spec fn cmc(self) -> Machine {
        self.with_carry(!self.regs.flags.carry)
    }

    /// Increment a register or the memory cell at H:L. Carry stays.
    #[verifier::opaque]
    pub open spec fn inr(self, reg: Operand8, mem: Seq<u8>) -> Outcome
        recommends
            reg != Operand8::Immediate,
    {
        let before = self.source(reg, mem);
        let after = incremented(before);
        self.store(reg, after).with_flags(bump_flags(before, after, self.regs.flags)).done(
            self.store_memory(reg, after, mem),
            bump_cycles(reg),
        )
    }

    /// Decrement a register or the memory cell at H:L. Carry stays.
    #[verifier::opaque]
    pub open spec fn dcr(self, reg: Operand8, mem: Seq<u8>) -> Outcome
        recommends
            reg != Operand8::Immediate,
    {
        let before = self.source(reg, mem);
        let after = decremented(before);
        self.store(reg, after).with_flags(bump_flags(before, after, self.regs.flags)).done(
            self.store_memory(reg, after, mem),
            bump_cycles(reg),
        )
    }

    /// Complement the accumulator. No flag changes.
    #[verifier::opaque]
    pub open spec fn cma(self) -> Machine {
        self.with_regs(
            RegisterFile { accumulator: complement(self.regs.accumulator), ..self.regs },
        )
    }

    /// Adjust the accumulator to two decimal digits.
    #[verifier::opaque]
    pub open spec fn daa(self) -> Machine {
        self.with_result(
            decimal_value(self.regs.accumulator, self.regs.flags),
            decimal_flags(self.regs.accumulator, self.regs.flags),
        )
    }

    /// Move a byte from `src` to `dst`.
    #[verifier::opaque]
    pub open spec fn mov(self, dst: Operand8, src: Operand8, mem: Seq<u8>) -> Outcome
        recommends
            dst != Operand8::Immediate,
    {
        let val = self.source(src, mem);
        let read = self.after_source(src, mem);
        read.store(dst, val).done(read.store_memory(dst, val, mem), move_cycles(dst, src))
    }

    /// Store the accumulator at the address in B:C or D:E.
    #[verifier::opaque]
    pub open spec fn stax(self, dst: Operand16, mem: Seq<u8>) -> Outcome
        recommends
            dst == Operand16::RegPairB || dst == Operand16::RegPairD,
    {
        self.done(write_at(mem, self.source16(dst), self.regs.accumulator), 7)
    }

    /// Load the accumulator from the address in B:C or D:E.
    #[verifier::opaque]
    pub open spec fn ldax(self, dst: Operand16, mem: Seq<u8>) -> Outcome
        recommends
            dst == Operand16::RegPairB || dst == Operand16::RegPairD,
    {
        self.with_regs(
            RegisterFile { accumulator: read_at(mem, self.source16(dst)), ..self.regs },
        ).done(mem, 7)
    }

    /// The outcome of an arithmetic or logical instruction with the operand
    /// `src` that leaves `value` in the accumulator and sets `flags`.
    pub open spec fn accumulate(self, src: Operand8, mem: Seq<u8>, value: u8, flags: Flags) -> Outcome {
        self.after_source(src, mem).with_result(value, flags).done(mem, accumulator_cycles(src))
    }

    /// Add the operand to the accumulator.
    #[verifier::opaque]
    pub open spec fn add(self, src: Operand8, mem: Seq<u8>) -> Outcome {
        let a = self.regs.accumulator;
        let b = self.source(src, mem);
        self.accumulate(src, mem, sum_value(a, b, false), sum_flags(a, b, false))
    }

    /// Add the operand and the carry flag to the accumulator.
    #[verifier::opaque]
    pub open spec fn adc(self, src: Operand8, mem: Seq<u8>) -> Outcome {
        let a = self.regs.accumulator;
        let b = self.source(src, mem);
        let carry = self.regs.flags.carry;
        self.accumulate(src, mem, sum_value(a, b, carry), sum_flags(a, b, carry))
    }

    /// Subtract the operand from the accumulator.
    #[verifier::opaque]
    pub open spec fn sub(self, src: Operand8, mem: Seq<u8>) -> Outcome {
        let a = self.regs.accumulator;
        let b = self.source(src, mem);
        self.accumulate(src, mem, difference_value(a, b, false), difference_flags(a, b, false))
    }

    /// Subtract the operand and the carry flag from the accumulator.
    #[verifier::opaque]
    pub open spec fn sbb(self, src: Operand8, mem: Seq<u8>) -> Outcome {
        let a = self.regs.accumulator;
        let b = self.source(src, mem);
        let borrow = self.regs.flags.carry;
        self.accumulate(src, mem, difference_value(a, b, borrow), difference_flags(a, b, borrow))
    }

    /// And the operand into the accumulator.
    #[verifier::opaque]
    pub open spec fn ana(self, src: Operand8, mem: Seq<u8>) -> Outcome {
        let val = self.regs.accumulator & self.source(src, mem);
        self.accumulate(src, mem, val, logic_flags(val))
    }

    /// Exclusive-or the operand into the accumulator.
    #[verifier::opaque]
    pub open spec fn xra(self, src: Operand8, mem: Seq<u8>) -> Outcome {
        let val = self.regs.accumulator ^ self.source(src, mem);
        self.accumulate(src, mem, val, logic_flags(val))
    }

    /// Or the operand into the accumulator.
    #[verifier::opaque]
    pub open spec fn ora(self, src: Operand8, mem: Seq<u8>) -> Outcome {
        let val = self.regs.accumulator | self.source(src, mem);
        self.accumulate(src, mem, val, logic_flags(val))
    }

    /// Compare the operand with the accumulator: the flags of a
    /// subtraction, the accumulator unchanged.
    #[verifier::opaque]
    pub open spec fn cmp(self, src: Operand8, mem: Seq<u8>) -> Outcome {
        let a = self.regs.accumulator;
        let b = self.source(src, mem);
        self.accumulate(src, mem, a, difference_flags(a, b, false))
    }

    /// Rotate the accumulator left; carry receives the bit that left at
    /// the top.
    #[verifier::opaque]
    pub open spec fn rlc(self) -> Machine {
        let a = self.regs.accumulator;
        self.with_result(rotated_left(a), Flags { carry: a >= 0x80, ..self.regs.flags })
    }

    /// Rotate the accumulator right; carry receives the bit that left at
    /// the bottom.
    #[verifier::opaque]
    pub open spec fn rrc(self) -> Machine {
        let a = self.regs.accumulator;
        self.with_result(rotated_right(a), Flags { carry: a % 2 == 1, ..self.regs.flags })
    }

    /// Rotate the accumulator left through carry: the carry comes in at the
    /// bottom and receives the bit that left at the top.
    #[verifier::opaque]
    pub open spec fn ral(self) -> Machine {
        let a = self.regs.accumulator;
        self.with_result(
            shifted_left(a, self.regs.flags.carry),
            Flags { carry: a >= 0x80, ..self.regs.flags },
        )
    }

    /// Rotate the accumulator right through carry: the carry comes in at
    /// the top and receives the bit that left at the bottom.
    #[verifier::opaque]
    pub open spec fn rar(self) -> Machine {
        let a = self.regs.accumulator;
        self.with_result(
            shifted_right(a, self.regs.flags.carry),
            Flags { carry: a % 2 == 1, ..self.regs.flags },
        )
    }

    /// Push a pair: the upper byte goes to the address below the stack
    /// pointer, the lower byte to the one below that, and the stack pointer
    /// ends two lower.
    #[verifier::opaque]
    pub open spec fn push(self, src: Operand16, mem: Seq<u8>) -> Outcome
        recommends
            src != Operand16::SP,
    {
        let word = self.source16(src);
        let sp = self.regs.sp;
        self.with_regs(RegisterFile { sp: offset(sp, -2), ..self.regs }).done(
            write_at(write_at(mem, offset(sp, -1), high_byte(word)), offset(sp, -2), low_byte(word)),
            11,
        )
    }

    /// Pop a pair: the lower byte comes from the address in the stack
    /// pointer, the upper byte from the one above, and the stack pointer
    /// ends two higher. Popping the program status word restores all five
    /// flags.
    #[verifier::opaque]
    pub open spec fn pop(self, dst: Operand16, mem: Seq<u8>) -> Outcome
        recommends
            dst != Operand16::SP,
    {
        let sp = self.regs.sp;
        let low = read_at(mem, sp);
        let high = read_at(mem, offset(sp, 1));
        let regs = RegisterFile { sp: offset(sp, 2), ..self.regs };
        self.with_regs(
            match dst {
                Operand16::RegPairB => RegisterFile { b: high, c: low, ..regs },
                Operand16::RegPairD => RegisterFile { d: high, e: low, ..regs },
                Operand16::RegPairH => RegisterFile { h: high, l: low, ..regs },
                Operand16::PSW => RegisterFile {
                    accumulator: high,
                    flags: Flags::of_byte(low),
                    ..regs
                },
                Operand16::SP => regs,
            },
        ).done(mem, 10)
    }

    /// Add a pair to H:L; carry says that the sum left the range of 16 bits.
    #[verifier::opaque]
    pub open spec fn dad(self, src: Operand16) -> Machine {
        let val = self.source16(src);
        let hl = self.regs.hl();
        let sum = wide_sum(hl, val);
        self.with_regs(
            RegisterFile {
                h: high_byte(sum),
                l: low_byte(sum),
                flags: Flags { carry: hl + val > 0xFFFF, ..self.regs.flags },
                ..self.regs
            },
        )
    }

    /// Increment a pair. No flag changes.
    #[verifier::opaque]
    pub open spec fn inx(self, src: Operand16) -> Machine {
        self.store16(src, offset(self.source16(src), 1))
    }

    /// Decrement a pair. No flag changes.
    #[verifier::opaque]
    pub open spec fn dcx(self, src: Operand16) -> Machine {
        self.store16(src, offset(self.source16(src), -1))
    }

    /// Exchange D:E with H:L.
    #[verifier::opaque]
    pub open spec fn xchg(self) -> Machine {
        self.with_regs(
            RegisterFile {
                d: self.regs.h,
                e: self.regs.l,
                h: self.regs.d,
                l: self.regs.e,
                ..self.regs
            },
        )
    }

    /// Exchange H:L with the pair on top of the stack.
    #[verifier::opaque]
    pub open spec fn xthl(self, mem: Seq<u8>) -> Outcome {
        let sp = self.regs.sp;
        self.with_regs(
            RegisterFile { h: read_at(mem, offset(sp, 1)), l: read_at(mem, sp), ..self.regs },
        ).done(write_at(write_at(mem, offset(sp, 1), self.regs.h), sp, self.regs.l), 18)
    }

    /// Load the stack pointer from H:L.
    #[verifier::opaque]
    pub open spec fn sphl(self) -> Machine {
        self.with_regs(RegisterFile { sp: self.regs.hl(), ..self.regs })
    }

    /// Load a pair with the two bytes that follow the instruction, the
    /// second byte in the upper half.
    #[verifier::opaque]
    pub open spec fn lxi(self, dst: Operand16, mem: Seq<u8>) -> Machine {
        let read = self.load_imm16(mem);
        read.store16(dst, read.regs.wz())
    }

    /// Store the accumulator at the address that follows the instruction.
    #[verifier::opaque]
    pub open spec fn sta(self, mem: Seq<u8>) -> Outcome {
        let read = self.load_imm16(mem);
        read.done(write_at(mem, read.regs.wz(), read.regs.accumulator), 13)
    }

    /// Load the accumulator from the address that follows the instruction.
    #[verifier::opaque]
    pub open spec fn lda(self, mem: Seq<u8>) -> Outcome {
        let read = self.load_imm16(mem);
        read.with_regs(RegisterFile { accumulator: read_at(mem, read.regs.wz()), ..read.regs }).done(
            mem,
            13,
        )
    }

    /// Store L at the address that follows the instruction and H at the
    /// address after it.
    #[verifier::opaque]
    pub open spec fn shld(self, mem: Seq<u8>) -> Outcome {
        let read = self.load_imm16(mem);
        let addr = read.regs.wz();
        read.done(write_at(write_at(mem, addr, read.regs.l), offset(addr, 1), read.regs.h), 16)
    }

    /// Load L from the address that follows the instruction and H from the
    /// address after it.
    #[verifier::opaque]
    pub open spec fn lhld(self, mem: Seq<u8>) -> Outcome {
        let read = self.load_imm16(mem);
        let addr = read.regs.wz();
        read.with_regs(
            RegisterFile { l: read_at(mem, addr), h: read_at(mem, offset(addr, 1)), ..read.regs },
        ).done(mem, 15)
    }

    /// Load the program counter from H:L.
    #[verifier::opaque]
    pub open spec fn pchl(self) -> Machine {
        self.at(self.regs.hl())
    }

    /// Jump to the address that follows the instruction where the condition
    /// holds; go on behind the address where it does not.
    #[verifier::opaque]
    pub open spec fn jmp(self, condition: ConditionCode, mem: Seq<u8>) -> Outcome {
        let read = self.load_imm16(mem);
        if read.holds(condition) {
            read.at(read.regs.wz()).done(mem, 10)
        } else {
            read.done(mem, 10)
        }
    }

    /// The state and the memory after the program counter was saved on the
    /// stack and replaced by `target`: the lower byte of the old program
    /// counter is at the address in the stack pointer, the upper byte at the
    /// address below, and the stack pointer ends two lower.
    pub open spec fn enter(self, target: u16, mem: Seq<u8>, cycles: u64) -> Outcome {
        let sp = self.regs.sp;
        let pc = self.regs.pc;
        self.with_regs(RegisterFile { sp: offset(sp, -2), pc: target, ..self.regs }).done(
            write_at(write_at(mem, sp, low_byte(pc)), offset(sp, -1), high_byte(pc)),
            cycles,
        )
    }

    /// Call the subroutine at the address that follows the instruction
    /// where the condition holds; go on behind the address where it does not.
    #[verifier::opaque]
    pub open spec fn call(self, condition: ConditionCode, mem: Seq<u8>) -> Outcome {
        let read = self.load_imm16(mem);
        if read.holds(condition) {
            read.enter(read.regs.wz(), mem, 17)
        } else {
            read.done(mem, 11)
        }
    }

    /// Return from a subroutine where the condition holds: the stack
    /// pointer ends two higher, the lower byte of the program counter comes
    /// from the address then in the stack pointer, the upper byte from the
    /// address below.
    #[verifier::opaque]
    pub open spec fn ret(self, condition: ConditionCode, mem: Seq<u8>) -> Outcome {
        if self.holds(condition) {
            let sp = offset(self.regs.sp, 2);
            self.with_regs(
                RegisterFile {
                    sp,
                    pc: pair(read_at(mem, offset(sp, -1)), read_at(mem, sp)),
                    ..self.regs
                },
            ).done(
                mem,
                if condition == ConditionCode::Unconditional {
                    10
                } else {
                    11
                },
            )
        } else {
            self.done(mem, 5)
        }
    }

    /// Restart: call the subroutine at eight times `exp`.
    #[verifier::opaque]
    pub open spec fn rst(self, exp: u8, mem: Seq<u8>) -> Outcome {
        self.enter((exp * 8) as u16, mem, 11)
    }

    /// Enable interrupts.
    #[verifier::opaque]
    pub open spec fn ei(self) -> Machine {
        Machine { inte: true, ..self }
    }

    /// Disable interrupts.
    #[verifier::opaque]
    pub open spec fn di(self) -> Machine {
        Machine { inte: false, ..self }
    }

    /// Ask for a byte from the port whose number follows the instruction.
    #[verifier::opaque]
    pub open spec fn input(self, mem: Seq<u8>) -> Machine {
        let read = self.load_imm(mem);
        Machine { io_port: read.regs.z, awaiting_input: true, ..read }
    }

    /// Offer the accumulator to the port whose number follows the
    /// instruction.
    #[verifier::opaque]
    pub open spec fn output(self, mem: Seq<u8>) -> Machine {
        let read = self.load_imm(mem);
        Machine { io_port: read.regs.z, output_ready: true, ..read }
    }

    /// Halt.
    #[verifier::opaque]
    pub open spec fn hlt(self) -> Machine {
        Machine { stopped: true, ..self }
    }

    /// The outcome of an operation.
    pub open spec fn perform(self, operation: Operation, mem: Seq<u8>) -> Outcome {
        match operation {
            Operation::Nop => self.done(mem, 4),
            Operation::Stc => self.stc().done(mem, 4),
            Operation::Cmc => self.cmc().done(mem, 4),
            Operation::Cma => self.cma().done(mem, 4),
            Operation::Daa => self.daa().done(mem, 4),
            Operation::Inr(reg) => self.inr(reg, mem),
            Operation::Dcr(reg) => self.dcr(reg, mem),
            Operation::Mov(dst, src) => self.mov(dst, src, mem),
            Operation::Stax(dst) => self.stax(dst, mem),
            Operation::Ldax(dst) => self.ldax(dst, mem),
            Operation::Add(src) => self.add(src, mem),
            Operation::Adc(src) => self.adc(src, mem),
            Operation::Sub(src) => self.sub(src, mem),
            Operation::Sbb(src) => self.sbb(src, mem),
            Operation::Ana(src) => self.ana(src, mem),
            Operation::Xra(src) => self.xra(src, mem),
            Operation::Ora(src) => self.ora(src, mem),
            Operation::Cmp(src) => self.cmp(src, mem),
            Operation::Rlc => self.rlc().done(mem, 4),
            Operation::Rrc => self.rrc().done(mem, 4),
            Operation::Ral => self.ral().done(mem, 4),
            Operation::Rar => self.rar().done(mem, 4),
            Operation::Push(src) => self.push(src, mem),
            Operation::Pop(dst) => self.pop(dst, mem),
            Operation::Dad(src) => self.dad(src).done(mem, 10),
            Operation::Inx(src) => self.inx(src).done(mem, 5),
            Operation::Dcx(src) => self.dcx(src).done(mem, 5),
            Operation::Xchg => self.xchg().done(mem, 4),
            Operation::Xthl => self.xthl(mem),
            Operation::Sphl => self.sphl().done(mem, 5),
            Operation::Lxi(dst) => self.lxi(dst, mem).done(mem, 10),
            Operation::Sta => self.sta(mem),
            Operation::Lda => self.lda(mem),
            Operation::Shld => self.shld(mem),
            Operation::Lhld => self.lhld(mem),
            Operation::Pchl => self.pchl().done(mem, 5),
            Operation::Jmp(condition) => self.jmp(condition, mem),
            Operation::Call(condition) => self.call(condition, mem),
            Operation::Ret(condition) => self.ret(condition, mem),
            Operation::Rst(exp) => self.rst(exp, mem),
            Operation::Ei => self.ei().done(mem, 4),
            Operation::Di => self.di().done(mem, 4),
            Operation::In => self.input(mem).done(mem, 10),
            Operation::Out => self.output(mem).done(mem, 10),
            Operation::Hlt => self.hlt().done(mem, 7),
        }
    }

    /// The outcome of an instruction.
    pub open spec fn execute(self, instruction: Instruction, mem: Seq<u8>) -> Outcome {
        self.perform(operation_of(instruction.opcode()), mem)
    }

    /// The state after an interrupt offered `instruction`: where interrupts
    /// are enabled the instruction is pending and a halted processor runs
    /// again; where they are disabled nothing changes.
    pub open spec fn interrupt(self, instruction: Instruction) -> Machine {
        if self.inte {
            Machine { pending: Some(instruction), stopped: false, ..self }
        } else {
            self
        }
    }

    /// The state at the start of a step: the two signals of the last input
    /// or output instruction are withdrawn.
    pub open spec fn settled(self) -> Machine {
        Machine { awaiting_input: false, output_ready: false, ..self }
    }

    /// The outcome of one step. A halted processor does nothing in no time.
    /// A running one executes the pending instruction of an interrupt, if
    /// there is one, without touching the program counter on its account;
    /// else the operation that the byte at the program counter selects,
    /// after it has moved the program counter past that byte.
    pub open spec fn step(self, mem: Seq<u8>) -> Outcome {
        if self.stopped {
            self.settled().done(mem, 0)
        } else {
            match self.pending {
                Some(instruction) => Machine { pending: None, ..self.settled() }.execute(
                    instruction,
                    mem,
                ),
                None => self.settled().at(offset(self.regs.pc, 1)).perform(
                    operation_of(read_at(mem, self.regs.pc)),
                    mem,
                ),
            }
        }
    }

    /// The state after a reset: the program counter is zero and the
    /// processor runs.
    pub open spec fn restarted(self) -> Machine {
        Machine { stopped: false, ..self.at(0) }
    }
}

} // verus!
