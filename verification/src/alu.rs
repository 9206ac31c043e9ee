use crate::registers::Flags;
use crate::utils::{even_parity, high_nibble, low_nibble};
use vstd::prelude::*;

verus! {

/// One, where the flag is set; zero, where it is clear.
pub open spec fn carry_in(flag: bool) -> int {
    if flag {
        1
    } else {
        0
    }
}

/// The flags after an operation with the result `val`: sign is bit 7 of the
/// result, zero says that the result is zero, parity that an even number of
/// its bits are set; auxiliary carry and carry are as given.
pub open spec fn conditions(val: u8, aux_carry: bool, carry: bool) -> Flags {
    Flags { sign: val >= 0x80, zero: val == 0, aux_carry, parity: even_parity(val), carry }
}

/// Whether an operation that turned `before` into `after` carried out of
/// bit 3: the lower four bits of the result are a smaller number than those
/// of the value that the operation started from.
pub open spec fn half_carry(before: u8, after: u8) -> bool {
    low_nibble(after) < low_nibble(before)
}

/// The sum of the accumulator `a`, the operand `b` and the carry, modulo 256.
pub open spec fn sum_value(a: u8, b: u8, carry: bool) -> u8 {
    ((a + b + carry_in(carry)) % 256) as u8
}

/// The flags after an addition: carry says that the sum left the range of
/// a byte.
pub open spec fn sum_flags(a: u8, b: u8, carry: bool) -> Flags {
    conditions(
        sum_value(a, b, carry),
        half_carry(a, sum_value(a, b, carry)),
        a + b + carry_in(carry) > 0xFF,
    )
}

/// The accumulator `a` less the operand `b` and the borrow, modulo 256.
pub open spec fn difference_value(a: u8, b: u8, borrow: bool) -> u8 {
    ((a - b - carry_in(borrow)) % 256) as u8
}

/// The flags after a subtraction: carry says that a borrow occurred, that
/// is, that more was taken away than the accumulator held.
pub open spec fn difference_flags(a: u8, b: u8, borrow: bool) -> Flags {
    conditions(
        difference_value(a, b, borrow),
        half_carry(a, difference_value(a, b, borrow)),
        a < b + carry_in(borrow),
    )
}

/// The flags after a logical operation: carry and auxiliary carry are clear.
pub open spec fn logic_flags(val: u8) -> Flags {
    conditions(val, false, false)
}

/// A byte plus one, modulo 256.
pub open spec fn incremented(val: u8) -> u8 {
    ((val + 1) % 256) as u8
}

/// A byte less one, modulo 256.
pub open spec fn decremented(val: u8) -> u8 {
    ((val - 1) % 256) as u8
}

/// The flags after an increment or decrement that turned `before` into
/// `after`: the carry flag stays as it was.
pub open spec fn bump_flags(before: u8, after: u8, flags: Flags) -> Flags {
    conditions(after, half_carry(before, after), flags.carry)
}

/// The complement of a byte: every bit inverted.
pub open spec fn complement(val: u8) -> u8 {
    (255 - val) as u8
}

/// Whether decimal adjustment corrects the lower digit of `a`.
pub open spec fn low_digit_adjusted(a: u8, flags: Flags) -> bool {
    low_nibble(a) > 9 || flags.aux_carry
}

/// The accumulator after the lower digit was looked at.
pub open spec fn low_digit_value(a: u8, flags: Flags) -> u8 {
    if low_digit_adjusted(a, flags) {
        ((a + 6) % 256) as u8
    } else {
        a
    }
}

/// Whether the upper digit exceeds 9 once the lower digit was looked at.
pub open spec fn high_digit_overflows(a: u8, flags: Flags) -> bool {
    high_nibble(low_digit_value(a, flags)) > 9
}

/// The accumulator after decimal adjustment: 6 is added where the lower
/// digit exceeds 9 or auxiliary carry is set; then 0x60 is added where the
/// upper digit exceeds 9 or carry is set.
pub open spec fn decimal_value(a: u8, flags: Flags) -> u8 {
    if high_digit_overflows(a, flags) || flags.carry {
        ((low_digit_value(a, flags) + 0x60) % 256) as u8
    } else {
        low_digit_value(a, flags)
    }
}

/// The flags after decimal adjustment: auxiliary carry says that the lower
/// digit exceeded 9, carry that the upper digit did.
pub open spec fn decimal_flags(a: u8, flags: Flags) -> Flags {
    conditions(decimal_value(a, flags), low_nibble(a) > 9, high_digit_overflows(a, flags))
}

/// A byte rotated left by one bit: bit 7 comes back in as bit 0.
pub open spec fn rotated_left(val: u8) -> u8 {
    (val * 2 % 256 + val / 128) as u8
}

/// A byte rotated right by one bit: bit 0 comes back in as bit 7.
pub open spec fn rotated_right(val: u8) -> u8 {
    (val / 2 + val % 2 * 128) as u8
}

/// A byte shifted left by one bit, with the carry coming in as bit 0.
pub open spec fn shifted_left(val: u8, carry: bool) -> u8 {
    (val * 2 % 256 + carry_in(carry)) as u8
}

/// A byte shifted right by one bit, with the carry coming in as bit 7.
pub open spec fn shifted_right(val: u8, carry: bool) -> u8 {
    (val / 2 + carry_in(carry) * 128) as u8
}

/// The sum of two 16-bit values modulo 65536.
pub open spec fn wide_sum(a: u16, b: u16) -> u16 {
    ((a + b) % 0x1_0000) as u16
}

/// The address `by` steps after `addr`, or before it where `by` is
/// negative; addresses wrap around at both ends.
pub open spec fn offset(addr: u16, by: int) -> u16 {
    ((addr + by) % 0x1_0000) as u16
}

} // verus!
