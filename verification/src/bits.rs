//! Bits and bit fields of 64-bit registers.

use vstd::arithmetic::power2::pow2;
use vstd::bits::lemma_u64_shr_is_div;
use vstd::prelude::*;

verus! {

/// Whether bit `n` of `x` is set.
pub open spec fn bit(x: u64, n: usize) -> bool {
    x & (1u64 << n) != 0
}

/// `x` with bit `n` set to `level`.
pub open spec fn with_bit(x: u64, n: usize, level: bool) -> u64 {
    if level {
        x | (1u64 << n)
    } else {
        x & !(1u64 << n)
    }
}

/// Bit `n` goes from clear in `old_value` to set in `new_value`.
pub open spec fn rises(old_value: u64, new_value: u64, n: usize) -> bool {
    !bit(old_value, n) && bit(new_value, n)
}

/// Bit `n` goes from set in `old_value` to clear in `new_value`.
pub open spec fn falls(old_value: u64, new_value: u64, n: usize) -> bool {
    bit(old_value, n) && !bit(new_value, n)
}

/// The word whose `length` bits from bit `start` up are set.
pub open spec fn field_mask(start: u32, length: u32) -> u64 {
    (0xffff_ffff_ffff_ffffu64 >> ((64 - length) as u32)) << start
}

/// `word` with its `length` bits from bit `start` up replaced by the low bits
/// of `value`. Bit by bit, this is what `lemma_deposited_bits` says.
pub open spec fn deposited(word: u64, start: u32, length: u32, value: u64) -> u64 {
    (word & !field_mask(start, length)) | ((value << start) & field_mask(start, length))
}

/// `new_value` on the bits of `mask`, `old_value` on the others.
pub open spec fn masked_update(new_value: u64, old_value: u64, mask: u64) -> u64 {
    (new_value & mask) | (old_value & !mask)
}

/// The low half of a word.
pub open spec fn low_half(x: u64) -> u64 {
    x % 0x1_0000_0000u64
}

/// The high half of a word.
pub open spec fn high_half(x: u64) -> u64 {
    x / 0x1_0000_0000u64
}

/// A field that fits the word is one that `deposit` accepts.
pub open spec fn valid_field(start: u32, length: u32) -> bool {
    start < 64 && 0 < length <= 64 - start
}

/// Replaces the `length` bits of `word` from bit `start` up by the low bits of
/// `value`.
pub fn deposit(word: u64, start: u32, length: u32, value: u64) -> (r: u64)
    requires
        valid_field(start, length),
    ensures
        r == deposited(word, start, length, value),
{
    let mask: u64 = (0xffff_ffff_ffff_ffffu64 >> (64 - length)) << start;
    (word & !mask) | ((value << start) & mask)
}

/// Truncates a register to its low 32 bits.
pub fn truncate(x: u64) -> (r: u64)
    ensures
        r == low_half(x),
{
    assert(x as u32 == x % 0x1_0000_0000u64) by (bit_vector);
    (x as u32) as u64
}

/// Avoids touching the bits that cannot be written.
pub fn hpet_fixup_reg(new: u64, old_value: u64, mask: u64) -> (r: u64)
    ensures
        r == masked_update(new, old_value, mask),
{
    (new & mask) | (old_value & !mask)
}

/// Whether a write sets the bit at `shift`.
pub fn activating_bit(old_value: u64, new: u64, shift: usize) -> (r: bool)
    requires
        shift < 64,
    ensures
        r == rises(old_value, new, shift),
{
    let mask: u64 = 1u64 << shift;
    (old_value & mask == 0) && (new & mask != 0)
}

/// Whether a write clears the bit at `shift`.
pub fn deactivating_bit(old_value: u64, new: u64, shift: usize) -> (r: bool)
    requires
        shift < 64,
    ensures
        r == falls(old_value, new, shift),
{
    let mask: u64 = 1u64 << shift;
    (old_value & mask != 0) && (new & mask == 0)
}

/// A deposit takes the bits of the field from the value, and leaves every
/// other bit of the word as it was.
pub proof fn lemma_deposited_bits(word: u64, start: u32, length: u32, value: u64, n: usize)
    requires
        valid_field(start, length),
        n < 64,
    ensures
        bit(deposited(word, start, length, value), n) == (if start <= n < start + length {
            bit(value, (n - start) as usize)
        } else {
            bit(word, n)
        }),
{
    assert(bit(deposited(word, start, length, value), n) == (if start <= n && n < start + length {
        bit(value, (n - start) as usize)
    } else {
        bit(word, n)
    })) by (bit_vector)
        requires
            start < 64,
            0 < length,
            length <= 64 - start,
            n < 64,
    ;
}

/// A masked update takes the bits of the mask from the new value, and leaves
/// every other bit as it was.
pub proof fn lemma_masked_update_bits(new_value: u64, old_value: u64, mask: u64, n: usize)
    requires
        n < 64,
    ensures
        bit(masked_update(new_value, old_value, mask), n) == (if bit(mask, n) {
            bit(new_value, n)
        } else {
            bit(old_value, n)
        }),
{
    assert(bit(masked_update(new_value, old_value, mask), n) == (if bit(mask, n) {
        bit(new_value, n)
    } else {
        bit(old_value, n)
    })) by (bit_vector)
        requires
            n < 64,
    ;
}

/// Two words with the same bits are the same word.
pub proof fn lemma_same_bits(a: u64, b: u64)
    requires
        forall|n: usize| n < 64 ==> bit(a, n) == bit(b, n),
    ensures
        a == b,
{
    let d = a ^ b;
    if a != b {
        assert(d != 0) by (bit_vector)
            requires
                d == a ^ b,
                a != b,
        ;
        assert(d >> 0usize == d) by (bit_vector);
        let n = lowest_set(d, 0);
        lemma_lowest_set(d, 0);
        assert(bit(a, n) != bit(b, n)) by (bit_vector)
            requires
                d == a ^ b,
                n < 64,
                d & (1u64 << n) != 0,
        ;
    }
}

spec fn lowest_set(d: u64, from: usize) -> usize
    decreases 64 - from,
{
    if from >= 64 || bit(d, from) {
        from
    } else {
        lowest_set(d, (from + 1) as usize)
    }
}

proof fn lemma_lowest_set(d: u64, from: usize)
    requires
        from < 64,
        d >> from != 0,
    ensures
        lowest_set(d, from) < 64,
        bit(d, lowest_set(d, from)),
    decreases 64 - from,
{
    if !bit(d, from) {
        assert(from < 63 && d >> ((from + 1) as usize) != 0) by (bit_vector)
            requires
                from < 64,
                d >> from != 0,
                d & (1u64 << from) == 0,
        ;
        lemma_lowest_set(d, (from + 1) as usize);
    }
}

/// Bit `n` of a word is the binary digit of weight 2^n.
pub proof fn lemma_bit_is_digit(x: u64, n: usize)
    requires
        n < 64,
    ensures
        bit(x, n) == (x as nat / pow2(n as nat) % 2 == 1),
{
    assert(bit(x, n) == ((x >> n) % 2 == 1)) by (bit_vector)
        requires
            n < 64,
    ;
    lemma_u64_shr_is_div(x, n as u64);
}

/// The bits of zero, of the bits that can be written in the configuration of
/// the block, and of those that can be written in that of a timer.
pub(crate) proof fn lemma_mask_bits(n: usize)
    requires
        n < 64,
    ensures
        !bit(0, n),
        bit(0x003, n) == (n <= 1),
        bit(0x7f4e, n) == (1 <= n <= 3 || n == 6 || 8 <= n <= 14),
{
    assert(!bit(0, n) && bit(0x003, n) == (n <= 1) && bit(0x7f4e, n) == ((1 <= n && n <= 3) || n
        == 6 || (8 <= n && n <= 14))) by (bit_vector)
        requires
            n < 64,
    ;
}

/// A word that is shifted up has its bits further up.
pub proof fn lemma_shifted_bits(x: u64, start: u32, n: usize)
    requires
        start < 64,
        n < 64,
    ensures
        bit(x << start, n) == (start <= n && bit(x, (n - start) as usize)),
{
    assert(bit(x << start, n) == (start <= n && bit(x, (n - start) as usize))) by (bit_vector)
        requires
            start < 64,
            n < 64,
    ;
}

/// Setting one bit of a word changes no other bit.
pub proof fn lemma_with_bit(x: u64, n: usize, level: bool, m: usize)
    requires
        n < 64,
        m < 64,
    ensures
        bit(with_bit(x, n, level), m) == (if m == n {
            level
        } else {
            bit(x, m)
        }),
{
    assert(bit(with_bit(x, n, level), m) == (if m == n {
        level
    } else {
        bit(x, m)
    })) by (bit_vector)
        requires
            n < 64,
            m < 64,
    ;
}

/// Depositing a whole word leaves nothing of the old one.
pub(crate) proof fn lemma_deposited_whole(word: u64, value: u64)
    ensures
        deposited(word, 0, 64, value) == value,
{
    assert(deposited(word, 0, 64, value) == value) by (bit_vector);
}

/// Depositing into the low half leaves the high half.
pub(crate) proof fn lemma_deposited_low_half(word: u64, value: u64)
    ensures
        deposited(word, 0, 32, value) == word - low_half(word) + low_half(value),
{
    assert(deposited(word, 0, 32, value) == word - low_half(word) + low_half(value))
        by (bit_vector);
}

/// A field of one bit is that bit.
pub(crate) proof fn lemma_deposited_one_bit(x: u64, n: u32, level: bool)
    requires
        n < 64,
    ensures
        deposited(x, n, 1, if level { 1 } else { 0 }) == with_bit(x, n as usize, level),
{
    assert(deposited(x, n, 1, if level { 1 } else { 0 }) == with_bit(x, n as usize, level))
        by (bit_vector)
        requires
            n < 64,
    ;
}

} // verus!
