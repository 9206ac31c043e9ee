use vstd::prelude::*;

verus! {

/// The 16-bit value whose upper half is `high` and whose lower half is `low`.
pub open spec fn pair(high: u8, low: u8) -> u16 {
    (high * 256 + low) as u16
}

/// The upper half of a 16-bit value.
pub open spec fn high_byte(word: u16) -> u8 {
    (word / 256) as u8
}

/// The lower half of a 16-bit value.
pub open spec fn low_byte(word: u16) -> u8 {
    (word % 256) as u8
}

/// The lower four bits of a byte, as a number from 0 to 15.
pub open spec fn low_nibble(val: u8) -> int {
    val as int % 16
}

/// The upper four bits of a byte, as a number from 0 to 15.
pub open spec fn high_nibble(val: u8) -> int {
    val as int / 16
}

/// Bit `index` of a byte (0 is the least significant), as 0 or 1.
pub open spec fn bit(val: u8, index: nat) -> int
    recommends
        index < 8,
{
    let v = val as int;
    if index == 0 {
        v % 2
    } else if index == 1 {
        v / 2 % 2
    } else if index == 2 {
        v / 4 % 2
    } else if index == 3 {
        v / 8 % 2
    } else if index == 4 {
        v / 16 % 2
    } else if index == 5 {
        v / 32 % 2
    } else if index == 6 {
        v / 64 % 2
    } else {
        v / 128 % 2
    }
}

/// How many bits of a byte are set.
pub open spec fn population(val: u8) -> int {
    bit(val, 0) + bit(val, 1) + bit(val, 2) + bit(val, 3) + bit(val, 4) + bit(val, 5) + bit(val, 6)
        + bit(val, 7)
}

/// Whether an even number of bits of a byte are set.
#[verifier::opaque]
pub open spec fn even_parity(val: u8) -> bool {
    population(val) % 2 == 0
}

/// The negation of a byte modulo 256.
pub open spec fn negated(val: u8) -> u8 {
    ((256 - val) % 256) as u8
}

/// Tells whether an addition that turned `old_val` into `new_val` wrapped
/// around: the result of adding a byte to `old_val` is smaller than `old_val`
/// exactly when the sum left the range of a byte.
pub fn check_carry(old_val: u8, new_val: u8) -> (carry: bool)
    ensures
        carry == (new_val < old_val),
{
    if new_val < old_val {
        return true;
    }
    return false;
}

/// Tells whether the lower four bits of `new_val` are a smaller number than
/// those of `old_val`.
pub fn check_aux_carry(old_val: u8, new_val: u8) -> (aux_carry: bool)
    ensures
        aux_carry == (low_nibble(new_val) < low_nibble(old_val)),
{
    assert((new_val & 0xF) == new_val % 16 && (old_val & 0xF) == old_val % 16) by (bit_vector);
    if (new_val & 0xF) < (old_val & 0xF) {
        return true;
    }
    return false;
}

/// Tells whether an even number of bits of `val` are set.
pub fn parity_even(val: u8) -> (even: bool)
    ensures
        even == even_parity(val),
{
    reveal(even_parity);
    let nibbles: u8 = val ^ (val >> 4);
    let pairs: u8 = nibbles ^ (nibbles >> 2);
    let folded: u8 = pairs ^ (pairs >> 1);
    assert(((val ^ (val >> 4)) ^ ((val ^ (val >> 4)) >> 2) ^ (((val ^ (val >> 4)) ^ ((val ^ (val
        >> 4)) >> 2)) >> 1)) & 1 == (val % 2 + val / 2 % 2 + val / 4 % 2 + val / 8 % 2 + val / 16
        % 2 + val / 32 % 2 + val / 64 % 2 + val / 128 % 2) % 2) by (bit_vector);
    assert((folded & 1) == 0 || (folded & 1) == 1) by (bit_vector);
    (folded & 1) == 0
}

/// The two's complement of `val`: the byte that added to `val` gives zero.
pub fn twos_complement(val: u8) -> (negation: u8)
    ensures
        negation == negated(val),
{
    assert((!val) == 255 - val) by (bit_vector);
    (!val).wrapping_add(1)
}

/// Joins two bytes into a 16-bit value, the first in the upper half.
#[inline(always)]
pub fn make_u16(higher_order: u8, lower_order: u8) -> (word: u16)
    ensures
        word == pair(higher_order, lower_order),
        word == (higher_order as u16) << 8 | (lower_order as u16),
{
    let high: u16 = higher_order as u16;
    let low: u16 = lower_order as u16;
    assert((high << 8) | low == high * 256 + low) by (bit_vector)
        requires
            high < 256,
            low < 256,
    ;
    (high << 8) | low
}

/// The upper half of a 16-bit value.
pub fn upper_half(word: u16) -> (high: u8)
    ensures
        high == high_byte(word),
{
    assert(((word >> 8) & 0xFF) == word / 256) by (bit_vector);
    ((word >> 8) & 0xFF) as u8
}

/// The lower half of a 16-bit value.
pub fn lower_half(word: u16) -> (low: u8)
    ensures
        low == low_byte(word),
{
    assert((word & 0xFF) == word % 256) by (bit_vector);
    (word & 0xFF) as u8
}

/// Splitting a 16-bit value and joining the halves gives the value back, and
/// joining two bytes and splitting the result gives the bytes back.
pub proof fn lemma_pair_split(word: u16, high: u8, low: u8)
    ensures
        pair(high_byte(word), low_byte(word)) == word,
        high_byte(pair(high, low)) == high,
        low_byte(pair(high, low)) == low,
{
}

} // verus!
