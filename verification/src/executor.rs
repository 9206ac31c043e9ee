use crate::alu::{
    carry_in, conditions, decimal_flags, decimal_value, decremented, difference_value,
    incremented, offset, sum_value,
};
use crate::cpu::Intel8080;
use crate::memory::{read_at, MemoryAccess};
use crate::operand::{ConditionCode, Operand16, Operand8};
use crate::registers::Flags;
use crate::semantics::Machine;
use crate::utils::{
    check_aux_carry, check_carry, lower_half, make_u16, negated, parity_even, twos_complement,
    upper_half,
};
use vstd::prelude::*;

verus! {

/// How the bit tests of the executors read as arithmetic.
proof fn lemma_byte_bits(val: u8)
    by (bit_vector)
    ensures
        (val & 0x80 != 0) == (val >= 0x80),
        (val & 0x01 != 0) == (val % 2 == 1),
        (val & 0x0F) == val % 16,
        (val & 0xF0 > 0x90) == (val / 16 > 9),
        (val & 0x10 != 0) == (val / 16 % 2 == 1),
        !val == 255 - val,
{
}

/// A sum computed in two wrapping steps is the sum modulo 256, and it
/// leaves the range of a byte exactly when one of the steps wraps around.
proof fn lemma_sum_wraps(a: u8, b: u8, carry: bool)
    ensures
        ({
            let partial = a.wrapping_add(b);
            let total = partial.wrapping_add(
                if carry {
                    1u8
                } else {
                    0u8
                },
            );
            &&& total == sum_value(a, b, carry)
            &&& (partial < a || total < partial) == (a + b + carry_in(carry) > 0xFF)
        }),
{
}

/// A difference computed in two wrapping steps is the difference modulo
/// 256, and a borrow occurs exactly when one of the steps wraps around.
proof fn lemma_difference_wraps(a: u8, b: u8, borrow: bool)
    ensures
        ({
            let partial = a.wrapping_sub(b);
            let total = partial.wrapping_sub(
                if borrow {
                    1u8
                } else {
                    0u8
                },
            );
            &&& total == difference_value(a, b, borrow)
            &&& (a < partial || partial < total) == (a < b + carry_in(borrow))
        }),
{
}

/// Adding the two's complement is subtracting.
proof fn lemma_negated_sum(a: u8, b: u8)
    ensures
        a.wrapping_add(negated(b)) == difference_value(a, b, false),
{
}

/// Adding one and adding 0xFF are a step up and a step down.
proof fn lemma_bumps(val: u8)
    ensures
        val.wrapping_add(1) == incremented(val),
        val.wrapping_add(0xFF) == decremented(val),
{
}

/// Decimal adjustment, step by step.
proof fn lemma_decimal(a: u8, flags: Flags)
    ensures
        ({
            let low = a % 16 > 9;
            let adjusted = if low || flags.aux_carry {
                a.wrapping_add(6)
            } else {
                a
            };
            let high = adjusted / 16 > 9;
            let val = if high || flags.carry {
                adjusted.wrapping_add(0x60)
            } else {
                adjusted
            };
            &&& val == decimal_value(a, flags)
            &&& conditions(val, low, high) == decimal_flags(a, flags)
        }),
{
}

/// A rotation to the left, as arithmetic.
proof fn lemma_rotate_left(val: u8)
    by (bit_vector)
    ensures
        (val << 1) | (val >> 7) == val * 2 % 256 + val / 128,
{
}

/// A rotation to the right, as arithmetic.
proof fn lemma_rotate_right(val: u8)
    by (bit_vector)
    ensures
        (val >> 1) | (val << 7) == val / 2 + val % 2 * 128,
{
}

/// A shift to the left with a bit coming in at the bottom, as arithmetic.
proof fn lemma_shift_left(val: u8)
    by (bit_vector)
    ensures
        (val << 1) | 1u8 == val * 2 % 256 + 1,
        (val << 1) | 0u8 == val * 2 % 256,
{
}

/// A shift to the right with a bit coming in at the top, as arithmetic.
proof fn lemma_shift_right(val: u8)
    by (bit_vector)
    ensures
        (val >> 1) | 0x80u8 == val / 2 + 128,
        (val >> 1) | 0u8 == val / 2,
{
}

impl Intel8080 {
    /// Reads the byte at the program counter and moves the program counter
    /// past it.
    pub(crate) fn fetch_immediate(&mut self, memory: &impl MemoryAccess) -> (val: u8)
        ensures
            val == read_at(memory@, old(self)@.regs.pc),
            final(self)@ == old(self)@.at(offset(old(self)@.regs.pc, 1)),
    {
        self.registers.set_pc(self.registers.pc().wrapping_add(1));
        memory.read_byte(self.registers.pc().wrapping_sub(1))
    }

    /// Reads the byte that follows the instruction into the latch Z.
    pub(crate) fn load_imm(&mut self, memory: &impl MemoryAccess)
        ensures
            final(self)@ == old(self)@.load_imm(memory@),
    {
        let val = self.fetch_immediate(memory);
        self.registers.set_z(val);
    }

    /// Reads the two bytes that follow the instruction into the latches Z
    /// and W.
    pub(crate) fn load_imm16(&mut self, memory: &impl MemoryAccess)
        ensures
            final(self)@ == old(self)@.load_imm16(memory@),
    {
        let z = self.fetch_immediate(memory);
        self.registers.set_z(z);

        let w = self.fetch_immediate(memory);
        self.registers.set_w(w);
    }

    /// Reads the operand `src`.
    pub(crate) fn get_src(&mut self, src: Operand8, memory: &impl MemoryAccess) -> (val: u8)
        ensures
            val == old(self)@.source(src, memory@),
            final(self)@ == old(self)@.after_source(src, memory@),
    {
        match src {
            Operand8::RegB => { self.registers.b() },
            Operand8::RegC => { self.registers.c() },
            Operand8::RegD => { self.registers.d() },
            Operand8::RegE => { self.registers.e() },
            Operand8::RegH => { self.registers.h() },
            Operand8::RegL => { self.registers.l() },
            Operand8::Memory => { memory.read_byte(self.registers.pair_h()) },
            Operand8::RegA => { self.registers.accumulator() },
            Operand8::Immediate => {
                self.load_imm(memory);
                self.registers.z()
            },
        }
    }

    /// Writes `val` to the operand `dst`, which is not the immediate byte.
    pub(crate) fn write_dst(&mut self, dst: Operand8, val: u8, memory: &mut impl MemoryAccess)
        requires
            dst != Operand8::Immediate,
        ensures
            final(self)@ == old(self)@.store(dst, val),
            final(memory)@ == old(self)@.store_memory(dst, val, old(memory)@),
    {
        match dst {
            Operand8::RegB => { self.registers.set_b(val) },
            Operand8::RegC => { self.registers.set_c(val) },
            Operand8::RegD => { self.registers.set_d(val) },
            Operand8::RegE => { self.registers.set_e(val) },
            Operand8::RegH => { self.registers.set_h(val) },
            Operand8::RegL => { self.registers.set_l(val) },
            Operand8::Memory => {
                memory.write_byte(self.registers.pair_h(), val);
            },
            Operand8::RegA => { self.registers.set_accumulator(val) },
            Operand8::Immediate => {},
        }
    }

    /// Reads the 16-bit operand `src`.
    pub(crate) fn get_src_16(&mut self, src: Operand16) -> (val: u16)
        ensures
            val == old(self)@.source16(src),
            final(self)@ == old(self)@,
    {
        match src {
            Operand16::PSW => { self.registers.psw() },
            Operand16::RegPairB => { self.registers.pair_b() },
            Operand16::RegPairD => { self.registers.pair_d() },
            Operand16::RegPairH => { self.registers.pair_h() },
            Operand16::SP => { self.registers.sp() },
        }
    }

    /// Writes `val` to the 16-bit operand `src`.
    pub(crate) fn write_dst_16(&mut self, src: Operand16, val: u16)
        ensures
            final(self)@ == old(self)@.store16(src, val),
    {
        match src {
            Operand16::PSW => { self.registers.set_psw(val) },
            Operand16::RegPairB => { self.registers.set_pair_b(val) },
            Operand16::RegPairD => { self.registers.set_pair_d(val) },
            Operand16::RegPairH => { self.registers.set_pair_h(val) },
            Operand16::SP => { self.registers.set_sp(val) },
        }
    }

    /// Sets the zero, sign and parity flags to what `val` calls for.
    pub(crate) fn set_condition(&mut self, val: u8)
        ensures
            final(self)@ == old(self)@.with_flags(
                conditions(
                    val,
                    old(self)@.regs.flags.aux_carry,
                    old(self)@.regs.flags.carry,
                ),
            ),
    {
        proof {
            lemma_byte_bits(val);
        }
        self.registers.set_status_zero(val == 0);
        self.registers.set_status_sign(val & 0x80 != 0);
        self.registers.set_status_parity(parity_even(val));
    }

    /// Set carry.
    pub(crate) fn stc(&mut self) -> (cycles: u64)
        ensures
            final(self)@ == old(self)@.stc(),
            cycles == 4,
    {
        proof {
            reveal(Machine::stc);
        }
        self.registers.set_status_carry(true);
        4
    }

    /// Complement carry.
    pub(crate) fn cmc(&mut self) -> (cycles: u64)
        ensures
            final(self)@ == old(self)@.cmc(),
            cycles == 4,
    {
        proof {
            reveal(Machine::cmc);
        }
        self.registers.set_status_carry(!self.registers.status_carry());
        4
    }

    /// Increment a register or the memory cell at H:L.
    #[verifier::rlimit(30)]
    pub(crate) fn inr(&mut self, reg: Operand8, memory: &mut impl MemoryAccess) -> (cycles: u64)
        requires
            reg != Operand8::Immediate,
        ensures
            final(self)@.done(final(memory)@, cycles) == old(self)@.inr(reg, old(memory)@),
    {
        proof {
            reveal(Machine::inr);
        }
        let orig_val = self.get_src(reg, memory);
        let val = orig_val.wrapping_add(1);
        proof {
            lemma_bumps(orig_val);
        }
        self.write_dst(reg, val, memory);
        self.set_condition(val);
        self.registers.set_status_aux_carry(check_aux_carry(orig_val, val));
        assert(self@ == old(self)@.inr(reg, old(memory)@).machine);
        assert(memory@ == old(self)@.inr(reg, old(memory)@).memory);

        if reg == Operand8::Memory {
            return 10
        }
        return 5
    }

    /// Decrement a register or the memory cell at H:L.
    #[verifier::rlimit(30)]
    pub(crate) fn dcr(&mut self, reg: Operand8, memory: &mut impl MemoryAccess) -> (cycles: u64)
        requires
            reg != Operand8::Immediate,
        ensures
            final(self)@.done(final(memory)@, cycles) == old(self)@.dcr(reg, old(memory)@),
    {
        proof {
            reveal(Machine::dcr);
        }
        // Taking one away is adding 0xFF in two's complement.
        let orig_val = self.get_src(reg, memory);
        let new_val = orig_val.wrapping_add(0xFF);
        proof {
            lemma_bumps(orig_val);
        }
        self.write_dst(reg, new_val, memory);
        self.set_condition(new_val);
        self.registers.set_status_aux_carry(check_aux_carry(orig_val, new_val));
        assert(self@ == old(self)@.dcr(reg, old(memory)@).machine);
        assert(memory@ == old(self)@.dcr(reg, old(memory)@).memory);

        if reg == Operand8::Memory {
            return 10
        }
        return 5
    }

    /// Complement the accumulator.
    pub(crate) fn cma(&mut self) -> (cycles: u64)
        ensures
            final(self)@ == old(self)@.cma(),
            cycles == 4,
    {
        proof {
            reveal(Machine::cma);
        }
        proof {
            lemma_byte_bits(self.registers@.accumulator);
        }
        self.registers.set_accumulator(!self.registers.accumulator());
        4
    }

    /// Adjust the accumulator to two decimal digits.
    #[verifier::rlimit(30)]
    pub(crate) fn daa(&mut self) -> (cycles: u64)
        ensures
            final(self)@ == old(self)@.daa(),
            cycles == 4,
    {
        proof {
            reveal(Machine::daa);
            lemma_decimal(self@.regs.accumulator, self@.regs.flags);
        }
        let mut val: u8 = self.registers.accumulator();
        proof {
            lemma_byte_bits(val);
        }

        let aux_carry = val & 0x0F > 0x09;
        if aux_carry || self.registers.status_aux_carry() {
            val = val.wrapping_add(0x6);
        }
        proof {
            lemma_byte_bits(val);
        }

        let carry = val & 0xF0 > 0x90;
        if carry || self.registers.status_carry() {
            val = val.wrapping_add(0x60);
        }

        self.registers.set_accumulator(val);
        self.set_condition(val);
        self.registers.set_status_carry(carry);
        self.registers.set_status_aux_carry(aux_carry);
        4
    }

    /// Move a byte from `src` to `dst`.
    pub(crate) fn mov(&mut self, dst: Operand8, src: Operand8, memory: &mut impl MemoryAccess) -> (cycles: u64)
        requires
            dst != Operand8::Immediate,
        ensures
            final(self)@.done(final(memory)@, cycles) == old(self)@.mov(dst, src, old(memory)@),
    {
        proof {
            reveal(Machine::mov);
        }
        let val = self.get_src(src, memory);
        self.write_dst(dst, val, memory);

        if (dst == Operand8::Memory) || (src == Operand8::Memory) || (src == Operand8::Immediate) {
            return 7
        }
        return 5
    }

    /// Store the accumulator at the address in B:C or D:E.
    pub(crate) fn stax(&mut self, dst: Operand16, memory: &mut impl MemoryAccess) -> (cycles: u64)
        requires
            dst == Operand16::RegPairB || dst == Operand16::RegPairD,
        ensures
            final(self)@.done(final(memory)@, cycles) == old(self)@.stax(dst, old(memory)@),
    {
        proof {
            reveal(Machine::stax);
        }
        match dst {
            Operand16::RegPairB => {
                memory.write_byte(self.registers.pair_b(), self.registers.accumulator());
            },
            _ => {
                memory.write_byte(self.registers.pair_d(), self.registers.accumulator());
            },
        };

        7
    }

    /// Load the accumulator from the address in B:C or D:E.
    pub(crate) fn ldax(&mut self, dst: Operand16, memory: &mut impl MemoryAccess) -> (cycles: u64)
        requires
            dst == Operand16::RegPairB || dst == Operand16::RegPairD,
        ensures
            final(self)@.done(final(memory)@, cycles) == old(self)@.ldax(dst, old(memory)@),
    {
        proof {
            reveal(Machine::ldax);
        }
        match dst {
            Operand16::RegPairB => {
                self.registers.set_accumulator(memory.read_byte(self.registers.pair_b()));
            },
            _ => {
                self.registers.set_accumulator(memory.read_byte(self.registers.pair_d()));
            },
        };

        7
    }

    /// Add the operand to the accumulator.
    pub(crate) fn add(&mut self, src: Operand8, memory: &impl MemoryAccess) -> (cycles: u64)
        ensures
            final(self)@.done(memory@, cycles) == old(self)@.add(src, memory@),
    {
        proof {
            reveal(Machine::add);
        }
        let old_val: u8 = self.registers.accumulator();
        let operand: u8 = self.get_src(src, memory);
        let new_val: u8 = old_val.wrapping_add(operand);
        proof {
            lemma_sum_wraps(old_val, operand, false);
        }

        let carry: bool = check_carry(old_val, new_val);
        let aux_carry: bool = check_aux_carry(old_val, new_val);

        self.registers.set_accumulator(new_val);
        self.set_condition(new_val);
        self.registers.set_status_carry(carry);
        self.registers.set_status_aux_carry(aux_carry);

        if (src == Operand8::Memory) || (src == Operand8::Immediate) {
            return 7
        }
        return 4
    }

    /// Add the operand and the carry flag to the accumulator.
    pub(crate) fn adc(&mut self, src: Operand8, memory: &impl MemoryAccess) -> (cycles: u64)
        ensures
            final(self)@.done(memory@, cycles) == old(self)@.adc(src, memory@),
    {
        proof {
            reveal(Machine::adc);
        }
        let old_val: u8 = self.registers.accumulator();
        let carry_in: u8 = if self.registers.status_carry() {
            1
        } else {
            0
        };
        let operand: u8 = self.get_src(src, memory);
        let partial: u8 = old_val.wrapping_add(operand);
        let new_val: u8 = partial.wrapping_add(carry_in);
        proof {
            lemma_sum_wraps(old_val, operand, carry_in == 1);
        }

        // The sum wraps around at most once: with the operand or with the carry.
        let carry: bool = check_carry(old_val, partial) || check_carry(partial, new_val);
        let aux_carry: bool = check_aux_carry(old_val, new_val);

        self.registers.set_accumulator(new_val);
        self.set_condition(new_val);
        self.registers.set_status_carry(carry);
        self.registers.set_status_aux_carry(aux_carry);

        if (src == Operand8::Memory) || (src == Operand8::Immediate) {
            return 7
        }
        return 4
    }

    /// Subtract the operand from the accumulator.
    pub(crate) fn sub(&mut self, src: Operand8, memory: &impl MemoryAccess) -> (cycles: u64)
        ensures
            final(self)@.done(memory@, cycles) == old(self)@.sub(src, memory@),
    {
        proof {
            reveal(Machine::sub);
        }
        let old_val = self.registers.accumulator();
        let operand: u8 = self.get_src(src, memory);
        let new_val = old_val.wrapping_sub(operand);
        proof {
            lemma_difference_wraps(old_val, operand, false);
        }

        // A borrow shows in a difference that is larger than what was there.
        let carry: bool = check_carry(new_val, old_val);
        let aux_carry: bool = check_aux_carry(old_val, new_val);

        self.registers.set_accumulator(new_val);
        self.set_condition(new_val);
        self.registers.set_status_carry(carry);
        self.registers.set_status_aux_carry(aux_carry);

        if (src == Operand8::Memory) || (src == Operand8::Immediate) {
            return 7
        }
        return 4
    }

    /// Subtract the operand and the carry flag from the accumulator.
    pub(crate) fn sbb(&mut self, src: Operand8, memory: &impl MemoryAccess) -> (cycles: u64)
        ensures
            final(self)@.done(memory@, cycles) == old(self)@.sbb(src, memory@),
    {
        proof {
            reveal(Machine::sbb);
        }
        let old_val = self.registers.accumulator();
        let borrow_in: u8 = if self.registers.status_carry() {
            1
        } else {
            0
        };
        let operand: u8 = self.get_src(src, memory);
        let partial = old_val.wrapping_sub(operand);
        let new_val = partial.wrapping_sub(borrow_in);
        proof {
            lemma_difference_wraps(old_val, operand, borrow_in == 1);
        }

        // The difference wraps around at most once: with the operand or with
        // the borrow.
        let carry: bool = check_carry(partial, old_val) || check_carry(new_val, partial);
        let aux_carry: bool = check_aux_carry(old_val, new_val);

        self.registers.set_accumulator(new_val);
        self.set_condition(new_val);
        self.registers.set_status_carry(carry);
        self.registers.set_status_aux_carry(aux_carry);

        if (src == Operand8::Memory) || (src == Operand8::Immediate) {
            return 7
        }
        return 4
    }

    /// And the operand into the accumulator.
    pub(crate) fn ana(&mut self, src: Operand8, memory: &impl MemoryAccess) -> (cycles: u64)
        ensures
            final(self)@.done(memory@, cycles) == old(self)@.ana(src, memory@),
    {
        proof {
            reveal(Machine::ana);
        }
        let val: u8 = self.registers.accumulator() & self.get_src(src, memory);
        self.set_condition(val);
        self.registers.set_status_carry(false);
        self.registers.set_status_aux_carry(false);
        self.registers.set_accumulator(val);

        if (src == Operand8::Memory) || (src == Operand8::Immediate) {
            return 7
        }
        return 4
    }

    /// Exclusive-or the operand into the accumulator.
    pub(crate) fn xra(&mut self, src: Operand8, memory: &impl MemoryAccess) -> (cycles: u64)
        ensures
            final(self)@.done(memory@, cycles) == old(self)@.xra(src, memory@),
    {
        proof {
            reveal(Machine::xra);
        }
        let val: u8 = self.registers.accumulator() ^ self.get_src(src, memory);
        self.set_condition(val);
        self.registers.set_status_carry(false);
        self.registers.set_status_aux_carry(false);
        self.registers.set_accumulator(val);

        if (src == Operand8::Memory) || (src == Operand8::Immediate) {
            return 7
        }
        return 4
    }

    /// Or the operand into the accumulator.
    pub(crate) fn ora(&mut self, src: Operand8, memory: &impl MemoryAccess) -> (cycles: u64)
        ensures
            final(self)@.done(memory@, cycles) == old(self)@.ora(src, memory@),
    {
        proof {
            reveal(Machine::ora);
        }
        let val: u8 = self.registers.accumulator() | self.get_src(src, memory);
        self.set_condition(val);
        self.registers.set_status_carry(false);
        self.registers.set_status_aux_carry(false);
        self.registers.set_accumulator(val);

        if (src == Operand8::Memory) || (src == Operand8::Immediate) {
            return 7
        }
        return 4
    }

    /// Compare the operand with the accumulator.
    pub(crate) fn cmp(&mut self, src: Operand8, memory: &impl MemoryAccess) -> (cycles: u64)
        ensures
            final(self)@.done(memory@, cycles) == old(self)@.cmp(src, memory@),
    {
        proof {
            reveal(Machine::cmp);
        }
        let old_val = self.registers.accumulator();
        let operand: u8 = self.get_src(src, memory);
        let new_val = old_val.wrapping_add(twos_complement(operand));
        proof {
            lemma_negated_sum(old_val, operand);
            lemma_difference_wraps(old_val, operand, false);
        }

        // A borrow shows in a difference that is larger than what was there.
        let carry: bool = check_carry(new_val, old_val);
        let aux_carry: bool = check_aux_carry(old_val, new_val);

        self.set_condition(new_val);
        self.registers.set_status_carry(carry);
        self.registers.set_status_aux_carry(aux_carry);

        if (src == Operand8::Memory) || (src == Operand8::Immediate) {
            return 7
        }
        return 4
    }

    /// Rotate the accumulator left.
    pub(crate) fn rlc(&mut self) -> (cycles: u64)
        ensures
            final(self)@ == old(self)@.rlc(),
            cycles == 4,
    {
        proof {
            reveal(Machine::rlc);
        }
        let val: u8 = self.registers.accumulator();
        proof {
            lemma_byte_bits(val);
            lemma_rotate_left(val);
        }

        // check left-most bit
        if val & 0x80 != 0 {
            self.registers.set_status_carry(true);
        } else {
            self.registers.set_status_carry(false);
        }

        // shift left and set right-most bit to the previous left-most bit
        let val: u8 = (val << 1) | (val >> 7);

        self.registers.set_accumulator(val);
        4
    }

    /// Rotate the accumulator right.
    pub(crate) fn rrc(&mut self) -> (cycles: u64)
        ensures
            final(self)@ == old(self)@.rrc(),
            cycles == 4,
    {
        proof {
            reveal(Machine::rrc);
        }
        let val: u8 = self.registers.accumulator();
        proof {
            lemma_byte_bits(val);
            lemma_rotate_right(val);
        }

        // check right-most bit
        if val & 0x01 != 0 {
            self.registers.set_status_carry(true);
        } else {
            self.registers.set_status_carry(false);
        }

        // shift right and set left-most bit to the previous right-most bit
        let val: u8 = (val >> 1) | (val << 7);

        self.registers.set_accumulator(val);
        4
    }

    /// Rotate the accumulator left through carry.
    pub(crate) fn ral(&mut self) -> (cycles: u64)
        ensures
            final(self)@ == old(self)@.ral(),
            cycles == 4,
    {
        proof {
            reveal(Machine::ral);
        }
        let val: u8 = self.registers.accumulator();
        let old_carry: bool = self.registers.status_carry();
        proof {
            lemma_byte_bits(val);
            lemma_shift_left(val);
        }

        // set carry to left-most bit
        self.registers.set_status_carry(val & 0x80 != 0);

        // shift left and set right-most bit to the old carry bit value
        let val: u8 = (val << 1) | (if old_carry {
            1
        } else {
            0
        });

        self.registers.set_accumulator(val);
        4
    }

    /// Rotate the accumulator right through carry.
    pub(crate) fn rar(&mut self) -> (cycles: u64)
        ensures
            final(self)@ == old(self)@.rar(),
            cycles == 4,
    {
        proof {
            reveal(Machine::rar);
        }
        let val: u8 = self.registers.accumulator();
        let old_carry: bool = self.registers.status_carry();
        proof {
            lemma_byte_bits(val);
            lemma_shift_right(val);
        }

        // set carry to right most bit
        self.registers.set_status_carry(val & 0x01 != 0);

        // shift right and set left-most bit to the old carry bit value
        let val: u8 = (val >> 1) | (if old_carry {
            0x80
        } else {
            0
        });

        self.registers.set_accumulator(val);
        4
    }

    /// Push a pair onto the stack.
    pub(crate) fn push(&mut self, src: Operand16, memory: &mut impl MemoryAccess) -> (cycles: u64)
        requires
            src != Operand16::SP,
        ensures
            final(self)@.done(final(memory)@, cycles) == old(self)@.push(src, old(memory)@),
    {
        proof {
            reveal(Machine::push);
        }
        let first_register = match src {
            Operand16::RegPairB => { self.registers.b() },
            Operand16::RegPairD => { self.registers.d() },
            Operand16::RegPairH => { self.registers.h() },
            _ => { self.registers.accumulator() },
        };

        let second_register = match src {
            Operand16::RegPairB => { self.registers.c() },
            Operand16::RegPairD => { self.registers.e() },
            Operand16::RegPairH => { self.registers.l() },
            _ => { self.registers.status() },
        };

        memory.write_byte(self.registers.sp().wrapping_sub(1), first_register);
        memory.write_byte(self.registers.sp().wrapping_sub(2), second_register);
        self.registers.set_sp(self.registers.sp().wrapping_sub(2));

        11
    }

    /// Pop a pair off the stack.
    #[verifier::rlimit(30)]
    pub(crate) fn pop(&mut self, dst: Operand16, memory: &impl MemoryAccess) -> (cycles: u64)
        requires
            dst != Operand16::SP,
        ensures
            final(self)@.done(memory@, cycles) == old(self)@.pop(dst, memory@),
    {
        proof {
            reveal(Machine::pop);
        }
        let second_register = memory.read_byte(self.registers.sp());
        let first_register = memory.read_byte(self.registers.sp().wrapping_add(1));

        self.registers.set_sp(self.registers.sp().wrapping_add(2));

        match dst {
            Operand16::RegPairB => {
                self.registers.set_b(first_register);
                self.registers.set_c(second_register);
                assert(self@ == old(self)@.pop(dst, memory@).machine);
            },
            Operand16::RegPairD => {
                self.registers.set_d(first_register);
                self.registers.set_e(second_register);
                assert(self@ == old(self)@.pop(dst, memory@).machine);
            },
            Operand16::RegPairH => {
                self.registers.set_h(first_register);
                self.registers.set_l(second_register);
                assert(self@ == old(self)@.pop(dst, memory@).machine);
            },
            _ => {
                self.registers.set_accumulator(first_register);
                self.registers.set_status(second_register);
                assert(self@ == old(self)@.pop(dst, memory@).machine);
            },
        };
        10
    }

    /// Add a pair to H:L.
    pub(crate) fn dad(&mut self, src: Operand16) -> (cycles: u64)
        ensures
            final(self)@ == old(self)@.dad(src),
            cycles == 10,
    {
        proof {
            reveal(Machine::dad);
        }
        let val = self.get_src_16(src);
        let sum = val.wrapping_add(self.registers.pair_h());

        let carry = sum < val;
        self.registers.set_status_carry(carry);

        self.registers.set_pair_h(sum);
        10
    }

    /// Increment a pair.
    pub(crate) fn inx(&mut self, src: Operand16) -> (cycles: u64)
        ensures
            final(self)@ == old(self)@.inx(src),
            cycles == 5,
    {
        proof {
            reveal(Machine::inx);
        }
        let val = self.get_src_16(src);
        self.write_dst_16(src, val.wrapping_add(1));
        5
    }

    /// Decrement a pair.
    pub(crate) fn dcx(&mut self, src: Operand16) -> (cycles: u64)
        ensures
            final(self)@ == old(self)@.dcx(src),
            cycles == 5,
    {
        proof {
            reveal(Machine::dcx);
        }
        let val = self.get_src_16(src);
        self.write_dst_16(src, val.wrapping_sub(1));
        5
    }

    /// Exchange D:E with H:L.
    pub(crate) fn xchg(&mut self) -> (cycles: u64)
        ensures
            final(self)@ == old(self)@.xchg(),
            cycles == 4,
    {
        proof {
            reveal(Machine::xchg);
        }
        let temp = self.registers.pair_h();
        self.registers.set_pair_h(self.registers.pair_d());
        self.registers.set_pair_d(temp);
        4
    }

    /// Exchange H:L with the top of the stack.
    pub(crate) fn xthl(&mut self, memory: &mut impl MemoryAccess) -> (cycles: u64)
        ensures
            final(self)@.done(final(memory)@, cycles) == old(self)@.xthl(old(memory)@),
    {
        proof {
            reveal(Machine::xthl);
        }
        let temp = self.registers.h();
        self.registers.set_h(memory.read_byte(self.registers.sp().wrapping_add(1)));
        memory.write_byte(self.registers.sp().wrapping_add(1), temp);

        let temp = self.registers.l();
        self.registers.set_l(memory.read_byte(self.registers.sp()));
        memory.write_byte(self.registers.sp(), temp);
        18
    }

    /// Load the stack pointer from H:L.
    pub(crate) fn sphl(&mut self) -> (cycles: u64)
        ensures
            final(self)@ == old(self)@.sphl(),
            cycles == 5,
    {
        proof {
            reveal(Machine::sphl);
        }
        self.registers.set_sp(self.registers.pair_h());
        5
    }

    /// Load a pair with the two bytes that follow the instruction.
    pub(crate) fn lxi(&mut self, dst: Operand16, memory: &impl MemoryAccess) -> (cycles: u64)
        ensures
            final(self)@ == old(self)@.lxi(dst, memory@),
            cycles == 10,
    {
        proof {
            reveal(Machine::lxi);
        }
        self.load_imm16(memory);
        let val = self.registers.pair_w();
        self.write_dst_16(dst, val);
        10
    }

    /// Store the accumulator at the address that follows the instruction.
    pub(crate) fn sta(&mut self, memory: &mut impl MemoryAccess) -> (cycles: u64)
        ensures
            final(self)@.done(final(memory)@, cycles) == old(self)@.sta(old(memory)@),
    {
        proof {
            reveal(Machine::sta);
        }
        self.load_imm16(memory);
        memory.write_byte(self.registers.pair_w(), self.registers.accumulator());
        13
    }

    /// Load the accumulator from the address that follows the instruction.
    pub(crate) fn lda(&mut self, memory: &mut impl MemoryAccess) -> (cycles: u64)
        ensures
            final(self)@.done(final(memory)@, cycles) == old(self)@.lda(old(memory)@),
    {
        proof {
            reveal(Machine::lda);
        }
        self.load_imm16(memory);
        self.registers.set_accumulator(memory.read_byte(self.registers.pair_w()));
        13
    }

    /// Store H:L at the address that follows the instruction.
    pub(crate) fn shld(&mut self, memory: &mut impl MemoryAccess) -> (cycles: u64)
        ensures
            final(self)@.done(final(memory)@, cycles) == old(self)@.shld(old(memory)@),
    {
        proof {
            reveal(Machine::shld);
        }
        self.load_imm16(memory);
        memory.write_byte(self.registers.pair_w(), self.registers.l());
        memory.write_byte(self.registers.pair_w().wrapping_add(1), self.registers.h());
        16
    }

    /// Load H:L from the address that follows the instruction.
    pub(crate) fn lhld(&mut self, memory: &mut impl MemoryAccess) -> (cycles: u64)
        ensures
            final(self)@.done(final(memory)@, cycles) == old(self)@.lhld(old(memory)@),
    {
        proof {
            reveal(Machine::lhld);
        }
        self.load_imm16(memory);
        self.registers.set_l(memory.read_byte(self.registers.pair_w()));
        self.registers.set_h(memory.read_byte(self.registers.pair_w().wrapping_add(1)));
        15
    }

    /// Load the program counter from H:L.
    pub(crate) fn pchl(&mut self) -> (cycles: u64)
        ensures
            final(self)@ == old(self)@.pchl(),
            cycles == 5,
    {
        proof {
            reveal(Machine::pchl);
        }
        self.registers.set_pc(self.registers.pair_h());
        5
    }

    /// Tells whether the flags meet the condition.
    pub(crate) fn check_condition(&self, condition: ConditionCode) -> (met: bool)
        ensures
            met == self@.holds(condition),
    {
        return match condition {
            ConditionCode::NotZero => { !self.registers.status_zero() },
            ConditionCode::Zero => { self.registers.status_zero() },
            ConditionCode::NoCarry => { !self.registers.status_carry() },
            ConditionCode::Carry => { self.registers.status_carry() },
            ConditionCode::ParityOdd => { !self.registers.status_parity() },
            ConditionCode::ParityEven => { self.registers.status_parity() },
            ConditionCode::Positive => { !self.registers.status_sign() },
            ConditionCode::Minus => { self.registers.status_sign() },
            ConditionCode::Unconditional => { true },
        }
    }

    /// Jump where the condition holds.
    pub(crate) fn jmp(&mut self, condition: ConditionCode, memory: &impl MemoryAccess) -> (cycles: u64)
        ensures
            final(self)@.done(memory@, cycles) == old(self)@.jmp(condition, memory@),
    {
        proof {
            reveal(Machine::jmp);
        }
        self.load_imm16(memory);

        if self.check_condition(condition) {
            self.registers.set_pc(self.registers.pair_w());
        }

        return 10
    }

    /// Call a subroutine where the condition holds.
    pub(crate) fn call(&mut self, condition: ConditionCode, memory: &mut impl MemoryAccess) -> (cycles: u64)
        ensures
            final(self)@.done(final(memory)@, cycles) == old(self)@.call(condition, old(memory)@),
    {
        proof {
            reveal(Machine::call);
        }
        self.load_imm16(memory);

        if self.check_condition(condition) {
            let hi_addr = upper_half(self.registers.pc());
            let lo_addr = lower_half(self.registers.pc());

            memory.write_byte(self.registers.sp(), lo_addr);
            memory.write_byte(self.registers.sp().wrapping_sub(1), hi_addr);
            self.registers.set_sp(self.registers.sp().wrapping_sub(2));

            self.registers.set_pc(self.registers.pair_w());

            return 17;
        }
        return 11
    }

    /// Return from a subroutine where the condition holds.
    pub(crate) fn ret(&mut self, condition: ConditionCode, memory: &mut impl MemoryAccess) -> (cycles: u64)
        ensures
            final(self)@.done(final(memory)@, cycles) == old(self)@.ret(condition, old(memory)@),
    {
        proof {
            reveal(Machine::ret);
        }
        if self.check_condition(condition) {
            self.registers.set_sp(self.registers.sp().wrapping_add(2));
            let hi_addr = memory.read_byte(self.registers.sp().wrapping_sub(1));
            let lo_addr = memory.read_byte(self.registers.sp());

            let new_pc: u16 = make_u16(hi_addr, lo_addr);
            self.registers.set_pc(new_pc);

            return if condition == ConditionCode::Unconditional {
                10
            } else {
                11
            };
        }
        return 5;
    }

    /// Restart: call the subroutine at eight times `exp`.
    pub(crate) fn rst(&mut self, exp: u8, memory: &mut impl MemoryAccess) -> (cycles: u64)
        ensures
            final(self)@.done(final(memory)@, cycles) == old(self)@.rst(exp, old(memory)@),
    {
        proof {
            reveal(Machine::rst);
        }
        let hi_addr = upper_half(self.registers.pc());
        let lo_addr = lower_half(self.registers.pc());

        memory.write_byte(self.registers.sp(), lo_addr);
        memory.write_byte(self.registers.sp().wrapping_sub(1), hi_addr);
        self.registers.set_sp(self.registers.sp().wrapping_sub(2));

        assert(((exp as u16) << 3) == exp * 8) by (bit_vector);
        self.registers.set_pc((exp as u16) << 3);
        11
    }

    /// Enable interrupts.
    pub(crate) fn ei(&mut self) -> (cycles: u64)
        ensures
            final(self)@ == old(self)@.ei(),
            cycles == 4,
    {
        proof {
            reveal(Machine::ei);
        }
        self.inte = true;
        4
    }

    /// Disable interrupts.
    pub(crate) fn di(&mut self) -> (cycles: u64)
        ensures
            final(self)@ == old(self)@.di(),
            cycles == 4,
    {
        proof {
            reveal(Machine::di);
        }
        self.inte = false;
        4
    }

    /// Ask for a byte from the port whose number follows the instruction.
    pub(crate) fn input(&mut self, memory: &impl MemoryAccess) -> (cycles: u64)
        ensures
            final(self)@ == old(self)@.input(memory@),
            cycles == 10,
    {
        proof {
            reveal(Machine::input);
        }
        self.load_imm(memory);
        self.io_port = self.registers.z();
        self.awaiting_input = true;
        10
    }

    /// Offer the accumulator to the port whose number follows the instruction.
    pub(crate) fn output(&mut self, memory: &impl MemoryAccess) -> (cycles: u64)
        ensures
            final(self)@ == old(self)@.output(memory@),
            cycles == 10,
    {
        proof {
            reveal(Machine::output);
        }
        self.load_imm(memory);
        self.io_port = self.registers.z();
        self.output_ready = true;
        10
    }

    /// Halt.
    pub(crate) fn hlt(&mut self) -> (cycles: u64)
        ensures
            final(self)@ == old(self)@.hlt(),
            cycles == 7,
    {
        proof {
            reveal(Machine::hlt);
        }
        self.stopped = true;
        7
    }
}

} // verus!
