use crate::utils::{high_byte, low_byte, lower_half, make_u16, pair, upper_half};
use vstd::prelude::*;

verus! {

/// The bit of the sign flag in the flag byte.
pub const SIGN_BIT: u8 = 0x80;

/// The bit of the zero flag in the flag byte.
pub const ZERO_BIT: u8 = 0x40;

/// The bit of the auxiliary-carry flag in the flag byte.
pub const AUX_CARRY_BIT: u8 = 0x10;

/// The bit of the parity flag in the flag byte.
pub const PARITY_BIT: u8 = 0x04;

/// The bit of the carry flag in the flag byte.
pub const CARRY_BIT: u8 = 0x01;

/// The five condition flags of the processor.
pub struct Flags {
    pub sign: bool,
    pub zero: bool,
    pub aux_carry: bool,
    pub parity: bool,
    pub carry: bool,
}

impl Flags {
    /// All five flags clear.
    pub open spec fn cleared() -> Flags {
        Flags { sign: false, zero: false, aux_carry: false, parity: false, carry: false }
    }

    /// The flag register as a byte: sign in bit 7, zero in bit 6,
    /// auxiliary carry in bit 4, parity in bit 2, carry in bit 0. Bit 1 is
    /// always set, bits 3 and 5 are always clear.
    pub open spec fn byte(self) -> u8 {
        (2 + (if self.sign {
            128int
        } else {
            0
        }) + (if self.zero {
            64int
        } else {
            0
        }) + (if self.aux_carry {
            16int
        } else {
            0
        }) + (if self.parity {
            4int
        } else {
            0
        }) + (if self.carry {
            1int
        } else {
            0
        })) as u8
    }

    /// The flags that the five flag bits of a byte spell out.
    pub open spec fn of_byte(val: u8) -> Flags {
        Flags {
            sign: val as int / 128 % 2 == 1,
            zero: val as int / 64 % 2 == 1,
            aux_carry: val as int / 16 % 2 == 1,
            parity: val as int / 4 % 2 == 1,
            carry: val as int % 2 == 1,
        }
    }
}

/// What the register file holds, as plain values.
pub struct RegisterFile {
    pub pc: u16,
    pub sp: u16,
    pub b: u8,
    pub c: u8,
    pub d: u8,
    pub e: u8,
    pub h: u8,
    pub l: u8,
    pub accumulator: u8,
    pub flags: Flags,
    pub w: u8,
    pub z: u8,
}

impl RegisterFile {
    /// The register file after reset: the flags clear, all else zero.
    pub open spec fn reset() -> RegisterFile {
        RegisterFile {
            pc: 0,
            sp: 0,
            b: 0,
            c: 0,
            d: 0,
            e: 0,
            h: 0,
            l: 0,
            accumulator: 0,
            flags: Flags::cleared(),
            w: 0,
            z: 0,
        }
    }

    /// The pair B:C.
    pub open spec fn bc(self) -> u16 {
        pair(self.b, self.c)
    }

    /// The pair D:E.
    pub open spec fn de(self) -> u16 {
        pair(self.d, self.e)
    }

    /// The pair H:L.
    pub open spec fn hl(self) -> u16 {
        pair(self.h, self.l)
    }

    /// The program status word: the accumulator over the flag byte.
    pub open spec fn psw(self) -> u16 {
        pair(self.accumulator, self.flags.byte())
    }

    /// The pair W:Z of the two latches.
    pub open spec fn wz(self) -> u16 {
        pair(self.w, self.z)
    }
}

/// The register file of the processor.
///
/// The flag byte always has bit 1 set and bits 3 and 5 clear.
#[derive(Debug)]
pub struct Registers {
    pc: u16,
    sp: u16,
    b: u8,
    c: u8,
    d: u8,
    e: u8,
    h: u8,
    l: u8,
    accumulator: u8,
    status: u8,
    w: u8,
    z: u8,
}

/// How the bit tests and bit updates of the flag byte read as arithmetic.
proof fn lemma_flag_bits(s: u8)
    by (bit_vector)
    ensures
        (s & 0x80 != 0) == (s / 128 % 2 == 1),
        (s & 0x40 != 0) == (s / 64 % 2 == 1),
        (s & 0x10 != 0) == (s / 16 % 2 == 1),
        (s & 0x04 != 0) == (s / 4 % 2 == 1),
        (s & 0x01 != 0) == (s % 2 == 1),
        s & 0x2A == 0x02 ==> s == 2 + 128 * (s / 128 % 2) + 64 * (s / 64 % 2) + 16 * (s / 16 % 2) + 4
            * (s / 4 % 2) + s % 2,
{
}

/// Setting or clearing one flag bit leaves the other flag bits and the
/// three fixed bits as they were.
proof fn lemma_flag_update(s: u8)
    by (bit_vector)
    ensures
        (s | 0x80) & 0x2A == s & 0x2A,
        (s | 0x80) / 128 % 2 == 1,
        (s | 0x80) / 64 % 2 == s / 64 % 2,
        (s | 0x80) / 16 % 2 == s / 16 % 2,
        (s | 0x80) / 4 % 2 == s / 4 % 2,
        (s | 0x80) % 2 == s % 2,
        (s & !0x80u8) & 0x2A == s & 0x2A,
        (s & !0x80u8) / 128 % 2 == 0,
        (s & !0x80u8) / 64 % 2 == s / 64 % 2,
        (s & !0x80u8) / 16 % 2 == s / 16 % 2,
        (s & !0x80u8) / 4 % 2 == s / 4 % 2,
        (s & !0x80u8) % 2 == s % 2,
        (s | 0x40) & 0x2A == s & 0x2A,
        (s | 0x40) / 128 % 2 == s / 128 % 2,
        (s | 0x40) / 64 % 2 == 1,
        (s | 0x40) / 16 % 2 == s / 16 % 2,
        (s | 0x40) / 4 % 2 == s / 4 % 2,
        (s | 0x40) % 2 == s % 2,
        (s & !0x40u8) & 0x2A == s & 0x2A,
        (s & !0x40u8) / 128 % 2 == s / 128 % 2,
        (s & !0x40u8) / 64 % 2 == 0,
        (s & !0x40u8) / 16 % 2 == s / 16 % 2,
        (s & !0x40u8) / 4 % 2 == s / 4 % 2,
        (s & !0x40u8) % 2 == s % 2,
        (s | 0x10) & 0x2A == s & 0x2A,
        (s | 0x10) / 128 % 2 == s / 128 % 2,
        (s | 0x10) / 64 % 2 == s / 64 % 2,
        (s | 0x10) / 16 % 2 == 1,
        (s | 0x10) / 4 % 2 == s / 4 % 2,
        (s | 0x10) % 2 == s % 2,
        (s & !0x10u8) & 0x2A == s & 0x2A,
        (s & !0x10u8) / 128 % 2 == s / 128 % 2,
        (s & !0x10u8) / 64 % 2 == s / 64 % 2,
        (s & !0x10u8) / 16 % 2 == 0,
        (s & !0x10u8) / 4 % 2 == s / 4 % 2,
        (s & !0x10u8) % 2 == s % 2,
        (s | 0x04) & 0x2A == s & 0x2A,
        (s | 0x04) / 128 % 2 == s / 128 % 2,
        (s | 0x04) / 64 % 2 == s / 64 % 2,
        (s | 0x04) / 16 % 2 == s / 16 % 2,
        (s | 0x04) / 4 % 2 == 1,
        (s | 0x04) % 2 == s % 2,
        (s & !0x04u8) & 0x2A == s & 0x2A,
        (s & !0x04u8) / 128 % 2 == s / 128 % 2,
        (s & !0x04u8) / 64 % 2 == s / 64 % 2,
        (s & !0x04u8) / 16 % 2 == s / 16 % 2,
        (s & !0x04u8) / 4 % 2 == 0,
        (s & !0x04u8) % 2 == s % 2,
        (s | 0x01) & 0x2A == s & 0x2A,
        (s | 0x01) / 128 % 2 == s / 128 % 2,
        (s | 0x01) / 64 % 2 == s / 64 % 2,
        (s | 0x01) / 16 % 2 == s / 16 % 2,
        (s | 0x01) / 4 % 2 == s / 4 % 2,
        (s | 0x01) % 2 == 1,
        (s & !0x01u8) & 0x2A == s & 0x2A,
        (s & !0x01u8) / 128 % 2 == s / 128 % 2,
        (s & !0x01u8) / 64 % 2 == s / 64 % 2,
        (s & !0x01u8) / 16 % 2 == s / 16 % 2,
        (s & !0x01u8) / 4 % 2 == s / 4 % 2,
        (s & !0x01u8) % 2 == 0,
{
}

/// A whole-byte write takes all five flags from the byte and imposes the
/// fixed bits.
proof fn lemma_flag_load(val: u8)
    by (bit_vector)
    ensures
        (0x02 | (val & 0xD7)) & 0x2A == 0x02,
        (0x02 | (val & 0xD7)) / 128 % 2 == val / 128 % 2,
        (0x02 | (val & 0xD7)) / 64 % 2 == val / 64 % 2,
        (0x02 | (val & 0xD7)) / 16 % 2 == val / 16 % 2,
        (0x02 | (val & 0xD7)) / 4 % 2 == val / 4 % 2,
        (0x02 | (val & 0xD7)) % 2 == val % 2,
{
}

impl Registers {
    #[verifier::type_invariant]
    spec fn fixed_bits(self) -> bool {
        self.status & 0x2A == 0x02
    }

    /// The contents of the register file.
    pub closed spec fn view(&self) -> RegisterFile {
        RegisterFile {
            pc: self.pc,
            sp: self.sp,
            b: self.b,
            c: self.c,
            d: self.d,
            e: self.e,
            h: self.h,
            l: self.l,
            accumulator: self.accumulator,
            flags: Flags::of_byte(self.status),
            w: self.w,
            z: self.z,
        }
    }

    /// A register file in its reset state.
    pub fn new() -> (registers: Self)
        ensures
            registers@ == RegisterFile::reset(),
    {
        assert(0x2u8 & 0x2A == 0x02) by (bit_vector);
        Self {
            pc: 0,
            sp: 0,
            b: 0,
            c: 0,
            d: 0,
            e: 0,
            h: 0,
            l: 0,
            accumulator: 0,
            status: 0x2,
            w: 0,
            z: 0,
        }
    }

    /// The program counter.
    pub fn pc(&self) -> (val: u16)
        ensures
            val == self@.pc,
    {
        self.pc
    }

    /// Sets the program counter.
    pub fn set_pc(&mut self, val: u16)
        ensures
            final(self)@ == (RegisterFile { pc: val, ..old(self)@ }),
    {
        proof {
            use_type_invariant(&*self);
        }
        self.pc = val
    }

    /// The stack pointer.
    pub fn sp(&self) -> (val: u16)
        ensures
            val == self@.sp,
    {
        self.sp
    }

    /// Sets the stack pointer.
    pub fn set_sp(&mut self, val: u16)
        ensures
            final(self)@ == (RegisterFile { sp: val, ..old(self)@ }),
    {
        proof {
            use_type_invariant(&*self);
        }
        self.sp = val
    }

    /// The pair B:C, `b` in the upper half.
    pub fn pair_b(&self) -> (val: u16)
        ensures
            val == self@.bc(),
    {
        make_u16(self.b, self.c)
    }

    /// Writes the upper half of `val` to `b` and the lower half to `c`.
    pub fn set_pair_b(&mut self, val: u16)
        ensures
            final(self)@ == (RegisterFile { b: high_byte(val), c: low_byte(val), ..old(self)@ }),
            final(self)@.bc() == val,
    {
        proof {
            use_type_invariant(&*self);
        }
        self.b = upper_half(val);
        self.c = lower_half(val)
    }

    /// Register B.
    pub fn b(&self) -> (val: u8)
        ensures
            val == self@.b,
    {
        self.b
    }

    /// Sets register B.
    pub fn set_b(&mut self, val: u8)
        ensures
            final(self)@ == (RegisterFile { b: val, ..old(self)@ }),
    {
        proof {
            use_type_invariant(&*self);
        }
        self.b = val
    }

    /// Register C.
    pub fn c(&self) -> (val: u8)
        ensures
            val == self@.c,
    {
        self.c
    }

    /// Sets register C.
    pub fn set_c(&mut self, val: u8)
        ensures
            final(self)@ == (RegisterFile { c: val, ..old(self)@ }),
    {
        proof {
            use_type_invariant(&*self);
        }
        self.c = val
    }

    /// The pair D:E, `d` in the upper half.
    pub fn pair_d(&self) -> (val: u16)
        ensures
            val == self@.de(),
    {
        make_u16(self.d, self.e)
    }

    /// Writes the upper half of `val` to `d` and the lower half to `e`.
    pub fn set_pair_d(&mut self, val: u16)
        ensures
            final(self)@ == (RegisterFile { d: high_byte(val), e: low_byte(val), ..old(self)@ }),
            final(self)@.de() == val,
    {
        proof {
            use_type_invariant(&*self);
        }
        self.d = upper_half(val);
        self.e = lower_half(val)
    }

    /// Register D.
    pub fn d(&self) -> (val: u8)
        ensures
            val == self@.d,
    {
        self.d
    }

    /// Sets register D.
    pub fn set_d(&mut self, val: u8)
        ensures
            final(self)@ == (RegisterFile { d: val, ..old(self)@ }),
    {
        proof {
            use_type_invariant(&*self);
        }
        self.d = val
    }

    /// Register E.
    pub fn e(&self) -> (val: u8)
        ensures
            val == self@.e,
    {
        self.e
    }

    /// Sets register E.
    pub fn set_e(&mut self, val: u8)
        ensures
            final(self)@ == (RegisterFile { e: val, ..old(self)@ }),
    {
        proof {
            use_type_invariant(&*self);
        }
        self.e = val
    }

    /// The pair H:L, `h` in the upper half.
    pub fn pair_h(&self) -> (val: u16)
        ensures
            val == self@.hl(),
    {
        make_u16(self.h, self.l)
    }

    /// Writes the upper half of `val` to `h` and the lower half to `l`.
    pub fn set_pair_h(&mut self, val: u16)
        ensures
            final(self)@ == (RegisterFile { h: high_byte(val), l: low_byte(val), ..old(self)@ }),
            final(self)@.hl() == val,
    {
        proof {
            use_type_invariant(&*self);
        }
        self.h = upper_half(val);
        self.l = lower_half(val)
    }

    /// Register H.
    pub fn h(&self) -> (val: u8)
        ensures
            val == self@.h,
    {
        self.h
    }

    /// Sets register H.
    pub fn set_h(&mut self, val: u8)
        ensures
            final(self)@ == (RegisterFile { h: val, ..old(self)@ }),
    {
        proof {
            use_type_invariant(&*self);
        }
        self.h = val
    }

    /// Register L.
    pub fn l(&self) -> (val: u8)
        ensures
            val == self@.l,
    {
        self.l
    }

    /// Sets register L.
    pub fn set_l(&mut self, val: u8)
        ensures
            final(self)@ == (RegisterFile { l: val, ..old(self)@ }),
    {
        proof {
            use_type_invariant(&*self);
        }
        self.l = val
    }

    /// The program status word: the accumulator in the upper half, the flag
    /// byte in the lower.
    pub fn psw(&self) -> (val: u16)
        ensures
            val == self@.psw(),
    {
        proof {
            use_type_invariant(self);
            lemma_flag_bits(self.status);
        }
        make_u16(self.accumulator, self.status)
    }

    /// Writes the upper half of `val` to the accumulator and the lower half
    /// to the flag register, as `set_status` does.
    pub fn set_psw(&mut self, val: u16)
        ensures
            final(self)@ == (RegisterFile {
                accumulator: high_byte(val),
                flags: Flags::of_byte(low_byte(val)),
                ..old(self)@
            }),
    {
        proof {
            use_type_invariant(&*self);
        }
        self.accumulator = upper_half(val);
        self.set_status(lower_half(val));
    }

    /// The accumulator.
    pub fn accumulator(&self) -> (val: u8)
        ensures
            val == self@.accumulator,
    {
        self.accumulator
    }

    /// Sets the accumulator.
    pub fn set_accumulator(&mut self, val: u8)
        ensures
            final(self)@ == (RegisterFile { accumulator: val, ..old(self)@ }),
    {
        proof {
            use_type_invariant(&*self);
        }
        self.accumulator = val
    }

    /// The flag register as a byte. Bit 1 is set and bits 3 and 5 are clear,
    /// whatever was written before.
    pub fn status(&self) -> (val: u8)
        ensures
            val == self@.flags.byte(),
            val & 0b0010_1010 == 0b0000_0010,
    {
        proof {
            use_type_invariant(self);
            lemma_flag_bits(self.status);
        }
        self.status
    }

    /// Writes a byte to the flag register. All five flags are taken from
    /// `val`; bit 1 is set and bits 3 and 5 are cleared, whatever `val`
    /// holds there.
    pub fn set_status(&mut self, val: u8)
        ensures
            final(self)@ == (RegisterFile { flags: Flags::of_byte(val), ..old(self)@ }),
            final(self)@.flags.byte() == 0b0000_0010 | (val & 0b1101_0111),
    {
        proof {
            use_type_invariant(&*self);
            lemma_flag_load(val);
            lemma_flag_bits(0b0000_0010 | (val & 0b1101_0111));
        }
        self.status = 0b0000_0010 | (val & 0b1101_0111);
    }

    /// The sign flag.
    pub fn status_sign(&self) -> (flag: bool)
        ensures
            flag == self@.flags.sign,
    {
        proof {
            lemma_flag_bits(self.status);
        }
        return (self.status & SIGN_BIT) != 0;
    }

    /// Sets or clears the sign flag; the other flags stay.
    pub fn set_status_sign(&mut self, sign: bool)
        ensures
            final(self)@ == (RegisterFile { flags: Flags { sign, ..old(self)@.flags }, ..old(self)@ }),
    {
        proof {
            use_type_invariant(&*self);
            lemma_flag_update(self.status);
        }
        if sign {
            self.status |= SIGN_BIT;
        } else {
            self.status &= !SIGN_BIT;
        }
    }

    /// The zero flag.
    pub fn status_zero(&self) -> (flag: bool)
        ensures
            flag == self@.flags.zero,
    {
        proof {
            lemma_flag_bits(self.status);
        }
        return (self.status & ZERO_BIT) != 0;
    }

    /// Sets or clears the zero flag; the other flags stay.
    pub fn set_status_zero(&mut self, zero: bool)
        ensures
            final(self)@ == (RegisterFile { flags: Flags { zero, ..old(self)@.flags }, ..old(self)@ }),
    {
        proof {
            use_type_invariant(&*self);
            lemma_flag_update(self.status);
        }
        if zero {
            self.status |= ZERO_BIT;
        } else {
            self.status &= !ZERO_BIT;
        }
    }

    /// The auxiliary-carry flag.
    pub fn status_aux_carry(&self) -> (flag: bool)
        ensures
            flag == self@.flags.aux_carry,
    {
        proof {
            lemma_flag_bits(self.status);
        }
        return (self.status & AUX_CARRY_BIT) != 0;
    }

    /// Sets or clears the auxiliary-carry flag; the other flags stay.
    pub fn set_status_aux_carry(&mut self, aux_carry: bool)
        ensures
            final(self)@ == (RegisterFile { flags: Flags { aux_carry, ..old(self)@.flags }, ..old(self)@ }),
    {
        proof {
            use_type_invariant(&*self);
            lemma_flag_update(self.status);
        }
        if aux_carry {
            self.status |= AUX_CARRY_BIT;
        } else {
            self.status &= !AUX_CARRY_BIT;
        }
    }

    /// The parity flag.
    pub fn status_parity(&self) -> (flag: bool)
        ensures
            flag == self@.flags.parity,
    {
        proof {
            lemma_flag_bits(self.status);
        }
        return (self.status & PARITY_BIT) != 0;
    }

    /// Sets or clears the parity flag; the other flags stay.
    pub fn set_status_parity(&mut self, parity: bool)
        ensures
            final(self)@ == (RegisterFile { flags: Flags { parity, ..old(self)@.flags }, ..old(self)@ }),
    {
        proof {
            use_type_invariant(&*self);
            lemma_flag_update(self.status);
        }
        if parity {
            self.status |= PARITY_BIT;
        } else {
            self.status &= !PARITY_BIT;
        }
    }

    /// The carry flag.
    pub fn status_carry(&self) -> (flag: bool)
        ensures
            flag == self@.flags.carry,
    {
        proof {
            lemma_flag_bits(self.status);
        }
        return (self.status & CARRY_BIT) != 0;
    }

    /// Sets or clears the carry flag; the other flags stay.
    pub fn set_status_carry(&mut self, carry: bool)
        ensures
            final(self)@ == (RegisterFile { flags: Flags { carry, ..old(self)@.flags }, ..old(self)@ }),
    {
        proof {
            use_type_invariant(&*self);
            lemma_flag_update(self.status);
        }
        if carry {
            self.status |= CARRY_BIT;
        } else {
            self.status &= !CARRY_BIT;
        }
    }

    /// The latch W.
    pub fn w(&self) -> (val: u8)
        ensures
            val == self@.w,
    {
        self.w
    }

    /// Sets the latch W.
    pub fn set_w(&mut self, val: u8)
        ensures
            final(self)@ == (RegisterFile { w: val, ..old(self)@ }),
    {
        proof {
            use_type_invariant(&*self);
        }
        self.w = val
    }

    /// The latch Z.
    pub fn z(&self) -> (val: u8)
        ensures
            val == self@.z,
    {
        self.z
    }

    /// Sets the latch Z.
    pub fn set_z(&mut self, val: u8)
        ensures
            final(self)@ == (RegisterFile { z: val, ..old(self)@ }),
    {
        proof {
            use_type_invariant(&*self);
        }
        self.z = val
    }

    /// The pair W:Z of the two latches, `w` in the upper half.
    pub fn pair_w(&self) -> (val: u16)
        ensures
            val == self@.wz(),
    {
        make_u16(self.w(), self.z())
    }
}

/// The byte of a set of flags spells out those flags, so reading the flag
/// register and writing the byte back changes nothing.
pub proof fn lemma_flags_byte(flags: Flags)
    ensures
        Flags::of_byte(flags.byte()) == flags,
{
}

} // verus!
