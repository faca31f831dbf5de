//! What holds of words, accesses and ticks, in plain numbers.

use crate::access::field_length;
use crate::access::field_start;
use crate::access::selects;
use crate::access::value_at;
use crate::bits::bit;
use crate::bits::falls;
use crate::bits::high_half;
use crate::bits::low_half;
use crate::bits::rises;
use crate::ticks::after_periods;
use crate::ticks::is_due_after;
use crate::ticks::is_first_due;
use crate::ticks::lemma_first_due_unique;
use crate::ticks::next_wrap;
use crate::ticks::time_after;
use crate::ticks::wrap64;
use vstd::prelude::*;

verus! {

/// A word is put together of its two halves.
pub proof fn law_halves(x: u64)
    ensures
        high_half(x) * 0x1_0000_0000 + low_half(x) == x,
        low_half(x) <= 0xffff_ffff,
        high_half(x) <= 0xffff_ffff,
{
}

/// A bit that differs between two words either rises or falls, and one that
/// does not differ does neither.
pub proof fn law_bit_changes(a: u64, b: u64, n: usize)
    ensures
        rises(a, b, n) ==> bit(b, n),
        falls(a, b, n) ==> bit(a, n),
        (rises(a, b, n) || falls(a, b, n)) == (bit(a, n) != bit(b, n)),
        !(rises(a, b, n) && falls(a, b, n)),
{
}

/// An access at a register's address meets it from bit 0 up, and reads all of
/// it; one four bytes further up meets it from bit 32 up, and reads its high
/// half. No other address selects the register. As many bits are written as the
/// access has, but none past the end of the register.
pub proof fn law_register_access(reg: u64, addr: u64, size: u32, value: u64)
    requires
        reg % 8 == 0,
        reg <= u64::MAX - 8,
        0 < size <= u32::MAX / 8,
    ensures
        selects(addr, reg) == (reg <= addr < reg + 8 && addr % 4 == 0),
        addr == reg ==> field_start(addr) == 0 && value_at(value, addr) == value,
        addr == reg + 4 ==> field_start(addr) == 32 && value_at(value, addr) == high_half(value),
        selects(addr, reg) ==> {
            let end = field_start(addr) + field_length(addr, size);
            &&& end <= 64
            &&& field_length(addr, size) <= size * 8
            &&& end == 64 || field_length(addr, size) == size * 8
        },
{
}

/// Wrapping around only takes away multiples of 2^64.
pub proof fn law_wrap_around(x: int)
    ensures
        (x - wrap64(x)) % 0x1_0000_0000_0000_0000 == 0,
        0 <= x <= u64::MAX ==> wrap64(x) == x,
{
}

/// The next wrap of the low half has a low half of zero, and lies no more than
/// 2^32 ahead.
pub proof fn law_next_wrap(cur_tick: u64)
    ensures
        low_half(next_wrap(cur_tick)) == 0,
        1 <= wrap64(next_wrap(cur_tick) - cur_tick) <= 0x1_0000_0000,
{
}

/// Which of two ticks is later depends on their distance alone.
pub proof fn law_time_after_shifts(a: u64, b: u64, k: u64)
    ensures
        time_after(wrap64(a + k), wrap64(b + k)) == time_after(a, b),
        time_after(a, b) == (0 < wrap64(a - b) <= 0x8000_0000_0000_0000),
{
    assert(wrap64(wrap64(b + k) - wrap64(a + k)) == wrap64(b - a));
}

/// Catching up moves a start by whole periods, to a tick that is not late, past
/// ticks all of which are: a tick is late if it lies from 1 to 2^63 ticks before
/// the current one.
pub proof fn law_first_due(start: u64, period: u64, cur_tick: u64, c: u64) -> (k: nat)
    requires
        is_first_due(start, period, cur_tick, c),
    ensures
        (c - start - k * period) % 0x1_0000_0000_0000_0000 == 0,
        c == cur_tick || wrap64(c - cur_tick) < 0x8000_0000_0000_0000,
        forall|j: nat|
            j < k ==> 1 <= wrap64(cur_tick - start - #[trigger] (j * period))
                <= 0x8000_0000_0000_0000,
{
    let k = choose|k: nat| #[trigger] is_due_after(start, period, cur_tick, k, c);
    assert forall|j: nat| j < k implies 1 <= wrap64(cur_tick - start - #[trigger] (j * period))
        <= 0x8000_0000_0000_0000 by {
        assert(time_after(cur_tick, after_periods(start, period, j)));
        lemma_late(start, cur_tick, j * period);
    }
    k
}

proof fn lemma_late(start: u64, cur_tick: u64, way: int)
    requires
        time_after(cur_tick, wrap64(start + way)),
    ensures
        1 <= wrap64(cur_tick - start - way) <= 0x8000_0000_0000_0000,
{
    let d = wrap64(cur_tick - start - way);
    assert(wrap64(wrap64(start + way) - cur_tick) == wrap64(-d));
}

/// A start that lies `late` ticks before the current one is moved forward by
/// as many whole periods as it takes, and no more, to make up for them.
pub proof fn law_catch_up(start: u64, period: u64, cur_tick: u64, c: u64, late: u64, k: nat)
    requires
        0 < period < 0x8000_0000_0000_0000,
        late == wrap64(cur_tick - start),
        0 < late <= 0x8000_0000_0000_0000,
        (k - 1) * period < late <= k * period,
        is_first_due(start, period, cur_tick, c),
    ensures
        c == wrap64(start + k * period),
{
    let due = wrap64(start + k * period);
    assert((k - 1) * period == k * period - period) by (nonlinear_arith);
    lemma_overshoot(start, cur_tick, late, k * period);
    assert forall|j: nat| j < k implies time_after(
        cur_tick,
        #[trigger] after_periods(start, period, j),
    ) by {
        assert(0 <= j * period <= (k - 1) * period) by (nonlinear_arith)
            requires
                0 <= j <= k - 1,
        ;
        lemma_undershoot(start, cur_tick, late, j * period);
    }
    assert(is_due_after(start, period, cur_tick, k, due));
    lemma_first_due_unique(start, period, cur_tick, c, due);
}

proof fn lemma_overshoot(start: u64, cur_tick: u64, late: u64, way: int)
    requires
        late == wrap64(cur_tick - start),
        late <= way < late + 0x8000_0000_0000_0000,
    ensures
        !time_after(cur_tick, wrap64(start + way)),
{
    assert(wrap64(wrap64(start + way) - cur_tick) == way - late);
}

proof fn lemma_undershoot(start: u64, cur_tick: u64, late: u64, way: int)
    requires
        late == wrap64(cur_tick - start),
        late <= 0x8000_0000_0000_0000,
        0 <= way < late,
    ensures
        time_after(cur_tick, wrap64(start + way)),
{
    assert(wrap64(wrap64(start + way) - cur_tick) == 0x1_0000_0000_0000_0000 - (late - way));
}

} // verus!
