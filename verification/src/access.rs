//! How an access of the guest meets a register.
//!
//! Every register is 64 bits wide and sits at a multiple of 8. An access at the
//! register's own address meets its low bits, one four bytes further up meets
//! its high half.

use crate::bits::high_half;
use crate::bits::valid_field;
use vstd::prelude::*;

verus! {

/// An address that selects the register at `reg`, or its high half.
pub open spec fn selects(addr: u64, reg: u64) -> bool {
    addr == reg || addr == reg + 4
}

/// An address that selects the high half of a register.
pub open spec fn selects_high_half(addr: u64) -> bool {
    addr / 4 % 2 == 1
}

/// What a read at `addr` gives of a register that holds `value`.
pub open spec fn value_at(value: u64, addr: u64) -> u64 {
    if selects_high_half(addr) {
        high_half(value)
    } else {
        value
    }
}

/// Lowest bit of the register that an access at `addr` meets.
pub open spec fn field_start(addr: u64) -> u32 {
    if selects_high_half(addr) {
        32
    } else {
        0
    }
}

/// Number of bits of the register that an access of `size` bytes meets.
pub open spec fn field_length(addr: u64, size: u32) -> u32 {
    if size * 8 < 64 - field_start(addr) {
        (size * 8) as u32
    } else {
        (64 - field_start(addr)) as u32
    }
}

/// Sizes of an access, in bytes, of which the number of bits can be told.
pub open spec fn valid_size(size: u32) -> bool {
    0 < size <= u32::MAX / 8
}

/// Whether `addr` selects the register at `reg`.
pub fn is_selected(addr: u64, reg: u64) -> (r: bool)
    requires
        reg % 8 == 0,
    ensures
        r == selects(addr, reg),
{
    assert((addr & !4u64 == reg) == (addr == reg || addr == reg + 4)) by (bit_vector)
        requires
            reg % 8 == 0,
    ;
    addr & !4u64 == reg
}

/// What a read at `addr` gives of a register that holds `value`.
pub fn read_half(value: u64, addr: u64) -> (r: u64)
    ensures
        r == value_at(value, addr),
{
    assert(addr & 4 == (if addr / 4 % 2 == 1 { 4u64 } else { 0u64 }) && value >> 32u64 == value
        / 0x1_0000_0000u64 && value >> 0u64 == value) by (bit_vector);
    let shift: u64 = (addr & 4) * 8;
    value >> shift
}

/// The field of a register that a write of `size` bytes at `addr` replaces, as
/// its lowest bit and its number of bits.
pub fn written_field(addr: u64, size: u32) -> (r: (u32, u32))
    requires
        valid_size(size),
    ensures
        r == (field_start(addr), field_length(addr, size)),
        valid_field(r.0, r.1),
{
    assert(addr & 4 == (if addr / 4 % 2 == 1 { 4u64 } else { 0u64 })) by (bit_vector);
    let shift: u32 = ((addr & 4) * 8) as u32;
    let bits: u32 = size * 8;
    if bits < 64 - shift {
        (shift, bits)
    } else {
        (shift, 64 - shift)
    }
}

} // verus!
