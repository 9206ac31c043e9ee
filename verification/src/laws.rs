use crate::alu::{
    carry_in, offset, rotated_left, rotated_right, shifted_left, shifted_right,
};
use crate::instruction::{canonical_opcode, decode, lemma_opcode_injective, Instruction};
use crate::memory::{read_at, write_at};
use crate::operand::{condition_field, ConditionCode, Operand16, Operand8};
use crate::operation::{operation_of, Operation};
use crate::registers::{lemma_flags_byte, Flags, RegisterFile};
use crate::semantics::Machine;
use crate::utils::{even_parity, high_byte, high_nibble, low_byte, low_nibble, pair};
use vstd::prelude::*;

verus! {

/// Encoding an instruction and decoding the byte gives the instruction
/// back: the encoding of every instruction is a documented one.
pub proof fn lemma_decode_encoding(instruction: Instruction)
    ensures
        canonical_opcode(instruction.opcode()) == instruction.opcode(),
        decode(instruction.opcode()) == instruction,
{
    lemma_opcode_injective(instruction, decode(instruction.opcode()));
}

/// Decimal adjustment of a byte with carry and auxiliary carry clear adds
/// 6 where the lower digit exceeds 9 and then 0x60 where the upper digit
/// exceeds 9, sets auxiliary carry and carry where it did so, and leaves
/// two decimal digits. A byte of two decimal digits stays as it is.
#[verifier::rlimit(30)]
pub proof fn lemma_daa_from_clear_flags(m: Machine)
    requires
        !m.regs.flags.carry,
        !m.regs.flags.aux_carry,
    ensures
        ({
            let a = m.regs.accumulator;
            let low = low_nibble(a) > 9;
            let adjusted = (a + 6 * carry_in(low)) % 256;
            let high = adjusted / 16 > 9;
            let after = m.daa().regs;
            &&& after.accumulator == (adjusted + 0x60 * carry_in(high)) % 256
            &&& after.flags.aux_carry == low
            &&& after.flags.carry == high
            &&& low_nibble(after.accumulator) <= 9
            &&& high_nibble(after.accumulator) <= 9
            &&& !low && !high ==> after.accumulator == a
            &&& after == RegisterFile { accumulator: after.accumulator, flags: after.flags, ..m.regs }
        }),
{
    reveal(Machine::daa);
}

/// An increment of a register followed by a decrement of the same register
/// restores the register and changes nothing but flags. Neither changes the
/// carry flag. Sign, zero and parity end as the register's value calls for,
/// so they end as they began where they began in keeping with that value.
#[verifier::rlimit(30)]
pub proof fn lemma_inr_dcr(m: Machine, reg: Operand8, mem: Seq<u8>)
    requires
        reg != Operand8::Immediate,
        reg != Operand8::Memory,
    ensures
        ({
            let up = m.inr(reg, mem);
            let down = up.machine.dcr(reg, up.memory);
            let val = m.source(reg, mem);
            let flags = down.machine.regs.flags;
            &&& down.machine == m.with_flags(flags)
            &&& down.memory == mem
            &&& up.memory == mem
            &&& up.machine.regs.flags.carry == m.regs.flags.carry
            &&& flags.carry == m.regs.flags.carry
            &&& flags.sign == (val >= 0x80)
            &&& flags.zero == (val == 0)
            &&& flags.parity == even_parity(val)
            &&& (m.regs.flags.sign == (val >= 0x80) && m.regs.flags.zero == (val == 0)
                && m.regs.flags.parity == even_parity(val)) ==> (flags.sign == m.regs.flags.sign
                && flags.zero == m.regs.flags.zero && flags.parity == m.regs.flags.parity)
        }),
{
    reveal(Machine::inr);
    reveal(Machine::dcr);
}

/// An increment of the memory cell at H:L followed by a decrement of it
/// restores the cell, where the store has that address, and changes
/// nothing else but flags; the carry flag stays.
pub proof fn lemma_inr_dcr_memory(m: Machine, mem: Seq<u8>)
    requires
        m.regs.hl() < mem.len(),
    ensures
        ({
            let up = m.inr(Operand8::Memory, mem);
            let down = up.machine.dcr(Operand8::Memory, up.memory);
            &&& down.machine == m.with_flags(down.machine.regs.flags)
            &&& down.memory == mem
            &&& up.machine.regs.flags.carry == m.regs.flags.carry
            &&& down.machine.regs.flags.carry == m.regs.flags.carry
        }),
{
    reveal(Machine::inr);
    reveal(Machine::dcr);
    let up = m.inr(Operand8::Memory, mem);
    let down = up.machine.dcr(Operand8::Memory, up.memory);
    assert(down.memory =~= mem);
}

/// A push of a pair followed by a pop of the same pair restores the whole
/// state of the processor, the stack pointer and the flags included, where
/// the store has the two addresses below the stack pointer.
#[verifier::rlimit(30)]
pub proof fn lemma_push_pop(m: Machine, pair: Operand16, mem: Seq<u8>)
    requires
        pair != Operand16::SP,
        offset(m.regs.sp, -1) < mem.len(),
        offset(m.regs.sp, -2) < mem.len(),
    ensures
        ({
            let pushed = m.push(pair, mem);
            let popped = pushed.machine.pop(pair, pushed.memory);
            &&& pushed.machine.regs.sp == offset(m.regs.sp, -2)
            &&& read_at(pushed.memory, offset(m.regs.sp, -1)) == high_byte(m.source16(pair))
            &&& read_at(pushed.memory, offset(m.regs.sp, -2)) == low_byte(m.source16(pair))
            &&& popped.machine == m
            &&& popped.memory == pushed.memory
        }),
{
    reveal(Machine::push);
    reveal(Machine::pop);
    lemma_flags_byte(m.regs.flags);
}

/// Complementing the accumulator twice gives the accumulator back.
pub proof fn lemma_cma_twice(m: Machine)
    ensures
        m.cma().cma() == m,
        m.cma().regs.flags == m.regs.flags,
{
    reveal(Machine::cma);
}

/// Eight rotations of a byte to the left give the byte back.
proof fn lemma_rotated_left_eight_times(a: u8)
    by (bit_vector)
    ensures
        rotated_left(rotated_left(rotated_left(rotated_left(rotated_left(rotated_left(rotated_left(rotated_left(a)))))))) == a,
{
}

/// Seven rotations of a byte to the left are one to the right.
proof fn lemma_rotated_left_seven_times(a: u8)
    by (bit_vector)
    ensures
        rotated_left(rotated_left(rotated_left(rotated_left(rotated_left(rotated_left(rotated_left(a))))))) == rotated_right(a),
{
}

/// Eight rotations of a byte to the right give the byte back.
proof fn lemma_rotated_right_eight_times(a: u8)
    by (bit_vector)
    ensures
        rotated_right(rotated_right(rotated_right(rotated_right(rotated_right(rotated_right(rotated_right(rotated_right(a)))))))) == a,
{
}

/// Seven rotations of a byte to the right are one to the left.
proof fn lemma_rotated_right_seven_times(a: u8)
    by (bit_vector)
    ensures
        rotated_right(rotated_right(rotated_right(rotated_right(rotated_right(rotated_right(rotated_right(a))))))) == rotated_left(a),
{
}

/// Nine rotations of a byte to the left through a carry bit.
proof fn lemma_shifted_left_nine_times(a: u8, c: bool)
    by (bit_vector)
    ensures
        ({
            let a1 = shifted_left(a, c);
            let c1 = a >= 0x80;
            let a2 = shifted_left(a1, c1);
            let c2 = a1 >= 0x80;
            let a3 = shifted_left(a2, c2);
            let c3 = a2 >= 0x80;
            let a4 = shifted_left(a3, c3);
            let c4 = a3 >= 0x80;
            let a5 = shifted_left(a4, c4);
            let c5 = a4 >= 0x80;
            let a6 = shifted_left(a5, c5);
            let c6 = a5 >= 0x80;
            let a7 = shifted_left(a6, c6);
            let c7 = a6 >= 0x80;
            let a8 = shifted_left(a7, c7);
            let c8 = a7 >= 0x80;
            let a9 = shifted_left(a8, c8);
            let c9 = a8 >= 0x80;
            &&& a9 == a
            &&& c9 == c
        }),
{
}

/// Nine rotations of a byte to the right through a carry bit.
proof fn lemma_shifted_right_nine_times(a: u8, c: bool)
    by (bit_vector)
    ensures
        ({
            let a1 = shifted_right(a, c);
            let c1 = a % 2 == 1;
            let a2 = shifted_right(a1, c1);
            let c2 = a1 % 2 == 1;
            let a3 = shifted_right(a2, c2);
            let c3 = a2 % 2 == 1;
            let a4 = shifted_right(a3, c3);
            let c4 = a3 % 2 == 1;
            let a5 = shifted_right(a4, c4);
            let c5 = a4 % 2 == 1;
            let a6 = shifted_right(a5, c5);
            let c6 = a5 % 2 == 1;
            let a7 = shifted_right(a6, c6);
            let c7 = a6 % 2 == 1;
            let a8 = shifted_right(a7, c7);
            let c8 = a7 % 2 == 1;
            let a9 = shifted_right(a8, c8);
            let c9 = a8 % 2 == 1;
            &&& a9 == a
            &&& c9 == c
        }),
{
}

/// A rotation to the left through a carry bit keeps a byte exactly where
/// all its bits and the carry bit are equal.
proof fn lemma_shifted_left_fixed(a: u8, c: bool)
    by (bit_vector)
    ensures
        shifted_left(a, c) == a <==> (a == 0 && !c) || (a == 0xFF && c),
{
}

/// A rotation to the right through a carry bit keeps a byte exactly where
/// all its bits and the carry bit are equal.
proof fn lemma_shifted_right_fixed(a: u8, c: bool)
    by (bit_vector)
    ensures
        shifted_right(a, c) == a <==> (a == 0 && !c) || (a == 0xFF && c),
{
}

/// After one rotation the carry flag holds the bit that left the
/// accumulator: bit 7 in a rotation to the left, bit 0 in one to the right.
/// Without carry that bit comes back in at the other end; through carry
/// the old carry flag comes in there.
pub proof fn lemma_rotation_carry(m: Machine)
    ensures
        ({
            let a = m.regs.accumulator;
            let carry = carry_in(m.regs.flags.carry);
            let top = a as int / 128;
            let bottom = a as int % 2;
            &&& carry_in(m.rlc().regs.flags.carry) == top
            &&& m.rlc().regs.accumulator % 2 == top
            &&& carry_in(m.rrc().regs.flags.carry) == bottom
            &&& m.rrc().regs.accumulator / 128 == bottom
            &&& carry_in(m.ral().regs.flags.carry) == top
            &&& m.ral().regs.accumulator % 2 == carry
            &&& carry_in(m.rar().regs.flags.carry) == bottom
            &&& m.rar().regs.accumulator / 128 == carry
        }),
{
    reveal(Machine::rlc);
    reveal(Machine::rrc);
    reveal(Machine::ral);
    reveal(Machine::rar);
}

/// Eight rotations to the left give the accumulator back, and with it
/// every register; the carry flag ends as bit 0 of the accumulator.
pub proof fn lemma_rlc_eight_times(m: Machine)
    ensures
        m.rlc().rlc().rlc().rlc().rlc().rlc().rlc().rlc() == m.with_carry(
            m.regs.accumulator % 2 == 1,
        ),
{
    reveal(Machine::rlc);
    lemma_rotated_left_eight_times(m.regs.accumulator);
    lemma_rotated_left_seven_times(m.regs.accumulator);
}

/// Eight rotations to the right give the accumulator back, and with it
/// every register; the carry flag ends as bit 7 of the accumulator.
pub proof fn lemma_rrc_eight_times(m: Machine)
    ensures
        m.rrc().rrc().rrc().rrc().rrc().rrc().rrc().rrc() == m.with_carry(
            m.regs.accumulator >= 0x80,
        ),
{
    reveal(Machine::rrc);
    lemma_rotated_right_eight_times(m.regs.accumulator);
    lemma_rotated_right_seven_times(m.regs.accumulator);
}

/// One rotation to the left through carry of a state that differs from `m`
/// in accumulator and carry flag only.
proof fn lemma_ral_step(m: Machine, a: u8, c: bool)
    ensures
        m.with_result(a, Flags { carry: c, ..m.regs.flags }).ral() == m.with_result(
            shifted_left(a, c),
            Flags { carry: a >= 0x80, ..m.regs.flags },
        ),
{
    reveal(Machine::ral);
}

/// One rotation to the right through carry of a state that differs from `m`
/// in accumulator and carry flag only.
proof fn lemma_rar_step(m: Machine, a: u8, c: bool)
    ensures
        m.with_result(a, Flags { carry: c, ..m.regs.flags }).rar() == m.with_result(
            shifted_right(a, c),
            Flags { carry: a % 2 == 1, ..m.regs.flags },
        ),
{
    reveal(Machine::rar);
}

/// A rotation through carry turns nine bits, so nine of them to the left
/// give the accumulator and the carry flag back.
#[verifier::rlimit(30)]
pub proof fn lemma_ral_nine_times(m: Machine)
    ensures
        m.ral().ral().ral().ral().ral().ral().ral().ral().ral() == m,
{
    let a = m.regs.accumulator;
    let c = m.regs.flags.carry;
    lemma_shifted_left_nine_times(a, c);
    let a1 = shifted_left(a, c);
    let c1 = a >= 0x80;
    let a2 = shifted_left(a1, c1);
    let c2 = a1 >= 0x80;
    let a3 = shifted_left(a2, c2);
    let c3 = a2 >= 0x80;
    let a4 = shifted_left(a3, c3);
    let c4 = a3 >= 0x80;
    let a5 = shifted_left(a4, c4);
    let c5 = a4 >= 0x80;
    let a6 = shifted_left(a5, c5);
    let c6 = a5 >= 0x80;
    let a7 = shifted_left(a6, c6);
    let c7 = a6 >= 0x80;
    let a8 = shifted_left(a7, c7);
    let c8 = a7 >= 0x80;
    let a9 = shifted_left(a8, c8);
    let c9 = a8 >= 0x80;
    assert(m == m.with_result(a, Flags { carry: c, ..m.regs.flags }));
    lemma_ral_step(m, a, c);
    lemma_ral_step(m, a1, c1);
    lemma_ral_step(m, a2, c2);
    lemma_ral_step(m, a3, c3);
    lemma_ral_step(m, a4, c4);
    lemma_ral_step(m, a5, c5);
    lemma_ral_step(m, a6, c6);
    lemma_ral_step(m, a7, c7);
    lemma_ral_step(m, a8, c8);
}

/// Nine rotations to the right through carry give the accumulator and the
/// carry flag back.
#[verifier::rlimit(30)]
pub proof fn lemma_rar_nine_times(m: Machine)
    ensures
        m.rar().rar().rar().rar().rar().rar().rar().rar().rar() == m,
{
    let a = m.regs.accumulator;
    let c = m.regs.flags.carry;
    lemma_shifted_right_nine_times(a, c);
    let a1 = shifted_right(a, c);
    let c1 = a % 2 == 1;
    let a2 = shifted_right(a1, c1);
    let c2 = a1 % 2 == 1;
    let a3 = shifted_right(a2, c2);
    let c3 = a2 % 2 == 1;
    let a4 = shifted_right(a3, c3);
    let c4 = a3 % 2 == 1;
    let a5 = shifted_right(a4, c4);
    let c5 = a4 % 2 == 1;
    let a6 = shifted_right(a5, c5);
    let c6 = a5 % 2 == 1;
    let a7 = shifted_right(a6, c6);
    let c7 = a6 % 2 == 1;
    let a8 = shifted_right(a7, c7);
    let c8 = a7 % 2 == 1;
    let a9 = shifted_right(a8, c8);
    let c9 = a8 % 2 == 1;
    assert(m == m.with_result(a, Flags { carry: c, ..m.regs.flags }));
    lemma_rar_step(m, a, c);
    lemma_rar_step(m, a1, c1);
    lemma_rar_step(m, a2, c2);
    lemma_rar_step(m, a3, c3);
    lemma_rar_step(m, a4, c4);
    lemma_rar_step(m, a5, c5);
    lemma_rar_step(m, a6, c6);
    lemma_rar_step(m, a7, c7);
    lemma_rar_step(m, a8, c8);
}

/// A rotation of a byte to the right through a carry bit undoes one to
/// the left.
proof fn lemma_shifted_left_undone(a: u8, c: bool)
    by (bit_vector)
    ensures
        shifted_right(shifted_left(a, c), a >= 0x80) == a,
        (shifted_left(a, c) % 2 == 1) == c,
{
}

/// A rotation of a byte to the left through a carry bit undoes one to the
/// right.
proof fn lemma_shifted_right_undone(a: u8, c: bool)
    by (bit_vector)
    ensures
        shifted_left(shifted_right(a, c), a % 2 == 1) == a,
        (shifted_right(a, c) >= 0x80) == c,
{
}

/// A rotation to the left through carry and one to the right through carry
/// undo each other.
#[verifier::rlimit(30)]
pub proof fn lemma_ral_rar_inverse(m: Machine)
    ensures
        m.ral().rar() == m,
        m.rar().ral() == m,
{
    let a = m.regs.accumulator;
    let c = m.regs.flags.carry;
    lemma_shifted_left_undone(a, c);
    lemma_shifted_right_undone(a, c);
    assert(m == m.with_result(a, Flags { carry: c, ..m.regs.flags }));
    lemma_ral_step(m, a, c);
    lemma_rar_step(m, shifted_left(a, c), a >= 0x80);
    lemma_rar_step(m, a, c);
    lemma_ral_step(m, shifted_right(a, c), a % 2 == 1);
}

/// Eight rotations to the left through carry are one to the right through
/// carry: they give the accumulator back exactly where all its bits and the
/// carry flag are equal.
pub proof fn lemma_ral_eight_times(m: Machine)
    ensures
        m.ral().ral().ral().ral().ral().ral().ral().ral() == m.rar(),
        m.rar().regs.accumulator == m.regs.accumulator <==> (m.regs.accumulator == 0
            && !m.regs.flags.carry) || (m.regs.accumulator == 0xFF && m.regs.flags.carry),
{
    let eighth = m.ral().ral().ral().ral().ral().ral().ral().ral();
    lemma_ral_nine_times(m);
    lemma_ral_rar_inverse(eighth);
    reveal(Machine::rar);
    lemma_shifted_right_fixed(m.regs.accumulator, m.regs.flags.carry);
}

/// Eight rotations to the right through carry are one to the left through
/// carry: they give the accumulator back exactly where all its bits and the
/// carry flag are equal.
pub proof fn lemma_rar_eight_times(m: Machine)
    ensures
        m.rar().rar().rar().rar().rar().rar().rar().rar() == m.ral(),
        m.ral().regs.accumulator == m.regs.accumulator <==> (m.regs.accumulator == 0
            && !m.regs.flags.carry) || (m.regs.accumulator == 0xFF && m.regs.flags.carry),
{
    let eighth = m.rar().rar().rar().rar().rar().rar().rar().rar();
    lemma_rar_nine_times(m);
    lemma_ral_rar_inverse(eighth);
    reveal(Machine::ral);
    lemma_shifted_left_fixed(m.regs.accumulator, m.regs.flags.carry);
}

/// The bytes of the conditional returns, jumps and calls: the condition is
/// in bits 5 to 3. Their unconditional forms are the bytes 0xC9, 0xC3 and
/// 0xCD.
pub proof fn lemma_conditional_opcodes(field: u8)
    requires
        field < 8,
    ensures
        operation_of((0xC0 + 8 * field) as u8) == Operation::Ret(condition_field(field)),
        operation_of((0xC2 + 8 * field) as u8) == Operation::Jmp(condition_field(field)),
        operation_of((0xC4 + 8 * field) as u8) == Operation::Call(condition_field(field)),
        operation_of(0xC9) == Operation::Ret(ConditionCode::Unconditional),
        operation_of(0xC3) == Operation::Jmp(ConditionCode::Unconditional),
        operation_of(0xCD) == Operation::Call(ConditionCode::Unconditional),
        operation_of(0x76) == Operation::Hlt,
{
    reveal(operation_of);
}

/// Whether a step of `m` on `mem` fetches the byte at the program counter:
/// the processor runs and no interrupt is pending.
pub open spec fn fetches(m: Machine) -> bool {
    !m.stopped && m.pending is None
}

/// The address that the two bytes behind the byte at the program counter
/// spell out, the second byte in the upper half.
pub open spec fn operand_address(m: Machine, mem: Seq<u8>) -> u16 {
    pair(read_at(mem, offset(m.regs.pc, 2)), read_at(mem, offset(m.regs.pc, 1)))
}

/// A step on a jump takes 10 clock cycles. Where the condition holds the
/// program counter ends at the address that follows the instruction; where
/// it does not, three bytes further, behind the instruction. Memory and
/// stack pointer stay.
pub proof fn lemma_step_jump(m: Machine, mem: Seq<u8>, condition: ConditionCode)
    requires
        fetches(m),
        operation_of(read_at(mem, m.regs.pc)) == Operation::Jmp(condition),
    ensures
        ({
            let after = m.step(mem);
            &&& after.cycles == 10
            &&& after.memory == mem
            &&& after.machine.regs.sp == m.regs.sp
            &&& after.machine.regs.pc == if m.holds(condition) {
                operand_address(m, mem)
            } else {
                offset(m.regs.pc, 3)
            }
        }),
{
    reveal(Machine::jmp);
}

/// A step on a call whose condition does not hold takes 11 clock cycles
/// and leaves the program counter three bytes further, behind the
/// instruction; memory and stack pointer stay. Where the condition holds
/// it takes 17 clock cycles, the program counter ends at the address that
/// follows the instruction, the stack pointer two lower, and the address
/// behind the instruction is saved: its lower byte at the address that was
/// in the stack pointer, its upper byte at the address below.
#[verifier::rlimit(30)]
pub proof fn lemma_step_call(m: Machine, mem: Seq<u8>, condition: ConditionCode)
    requires
        fetches(m),
        operation_of(read_at(mem, m.regs.pc)) == Operation::Call(condition),
    ensures
        ({
            let after = m.step(mem);
            let behind = offset(m.regs.pc, 3);
            if m.holds(condition) {
                &&& after.cycles == 17
                &&& after.machine.regs.pc == operand_address(m, mem)
                &&& after.machine.regs.sp == offset(m.regs.sp, -2)
                &&& after.memory == write_at(
                    write_at(mem, m.regs.sp, low_byte(behind)),
                    offset(m.regs.sp, -1),
                    high_byte(behind),
                )
            } else {
                &&& after.cycles == 11
                &&& after.machine.regs.pc == behind
                &&& after.machine.regs.sp == m.regs.sp
                &&& after.memory == mem
            }
        }),
{
    reveal(Machine::call);
}

/// A step on a return whose condition does not hold takes 5 clock cycles
/// and leaves the program counter one byte further, behind the
/// instruction; the stack pointer stays. Where the condition holds it
/// takes 11 clock cycles, or 10 for the unconditional return; the stack
/// pointer ends two higher and the program counter is read from the stack,
/// its lower byte at the address then in the stack pointer, its upper byte
/// at the address below. Memory stays either way.
pub proof fn lemma_step_return(m: Machine, mem: Seq<u8>, condition: ConditionCode)
    requires
        fetches(m),
        operation_of(read_at(mem, m.regs.pc)) == Operation::Ret(condition),
    ensures
        ({
            let after = m.step(mem);
            &&& after.memory == mem
            &&& if m.holds(condition) {
                &&& after.cycles == if condition == ConditionCode::Unconditional {
                    10u64
                } else {
                    11u64
                }
                &&& after.machine.regs.sp == offset(m.regs.sp, 2)
                &&& after.machine.regs.pc == pair(
                    read_at(mem, offset(m.regs.sp, 1)),
                    read_at(mem, offset(m.regs.sp, 2)),
                )
            } else {
                &&& after.cycles == 5
                &&& after.machine.regs.sp == m.regs.sp
                &&& after.machine.regs.pc == offset(m.regs.pc, 1)
            }
        }),
{
    reveal(Machine::ret);
}

/// A call followed by a return comes back behind the call and restores the
/// stack pointer, where the store has the two addresses that the call
/// writes to.
pub proof fn lemma_call_return(m: Machine, mem: Seq<u8>)
    requires
        m.regs.sp < mem.len(),
        offset(m.regs.sp, -1) < mem.len(),
    ensures
        ({
            let called = m.call(ConditionCode::Unconditional, mem);
            let back = called.machine.ret(ConditionCode::Unconditional, called.memory);
            &&& back.machine.regs.pc == offset(m.regs.pc, 2)
            &&& back.machine.regs.sp == m.regs.sp
        }),
{
    reveal(Machine::call);
    reveal(Machine::ret);
}

/// The state in which an accepted interrupt's instruction is executed: the
/// processor runs, nothing is pending, and the signals of the last input
/// or output instruction are withdrawn. The registers are untouched.
pub open spec fn resumed(m: Machine) -> Machine {
    Machine { pending: None, stopped: false, ..m.settled() }
}

/// An interrupt offered while interrupts are enabled makes the next step
/// execute the offered instruction, with the program counter as the
/// interrupt found it and whatever the memory holds there; the processor
/// runs even if it had halted, and the offer is used up. An interrupt
/// offered while interrupts are disabled changes nothing.
pub proof fn lemma_interrupt(m: Machine, instruction: Instruction, mem: Seq<u8>)
    ensures
        m.inte ==> m.interrupt(instruction).step(mem) == resumed(m).execute(instruction, mem),
        !m.inte ==> m.interrupt(instruction) == m,
{
}

/// Subtracting the accumulator from itself leaves zero with the zero and
/// parity flags set and the sign and carry flags clear. The auxiliary
/// carry flag is set unless the lower four bits of the accumulator were
/// zero.
pub proof fn lemma_sub_self(m: Machine, mem: Seq<u8>)
    ensures
        ({
            let after = m.sub(Operand8::RegA, mem);
            &&& after.machine.regs.accumulator == 0
            &&& after.machine.regs.flags == Flags {
                sign: false,
                zero: true,
                aux_carry: low_nibble(m.regs.accumulator) != 0,
                parity: true,
                carry: false,
            }
            &&& after.machine == m.with_result(0, after.machine.regs.flags)
            &&& after.memory == mem
            &&& after.cycles == 4
        }),
{
    reveal(Machine::sub);
    reveal(even_parity);
}

/// A step of a halted processor changes neither registers nor memory and
/// takes no time, and the processor stays halted.
pub proof fn lemma_halted_step(m: Machine, mem: Seq<u8>)
    requires
        m.stopped,
    ensures
        m.step(mem) == m.settled().done(mem, 0),
        m.step(mem).machine.stopped,
        m.step(mem).machine.regs == m.regs,
{
}

/// A step on the halt instruction halts the processor, and only an accepted
/// interrupt or a reset lets it run again.
pub proof fn lemma_halt(m: Machine, mem: Seq<u8>, instruction: Instruction)
    requires
        fetches(m),
        operation_of(read_at(mem, m.regs.pc)) == Operation::Hlt,
    ensures
        m.step(mem).machine.stopped,
        m.step(mem).cycles == 7,
        !m.step(mem).machine.restarted().stopped,
        m.step(mem).machine.interrupt(instruction).stopped == !m.inte,
{
    reveal(Machine::hlt);
}

/// Logical operations clear carry and auxiliary carry, whatever the
/// operands are.
pub proof fn lemma_logic_clears_carries(m: Machine, src: Operand8, mem: Seq<u8>)
    ensures
        !m.ana(src, mem).machine.regs.flags.carry,
        !m.ana(src, mem).machine.regs.flags.aux_carry,
        !m.xra(src, mem).machine.regs.flags.carry,
        !m.xra(src, mem).machine.regs.flags.aux_carry,
        !m.ora(src, mem).machine.regs.flags.carry,
        !m.ora(src, mem).machine.regs.flags.aux_carry,
{
    reveal(Machine::ana);
    reveal(Machine::xra);
    reveal(Machine::ora);
}

} // verus!
