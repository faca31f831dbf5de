//! What holds of the block as a whole.

use crate::access::field_length;
use crate::access::field_start;
use crate::access::selects;
use crate::access::value_at;
use crate::action::Action;
use crate::action::ClockReadings;
use crate::bits::bit;
use crate::bits::deposited;
use crate::bits::falls;
use crate::bits::high_half;
use crate::bits::lemma_deposited_whole;
use crate::bits::lemma_mask_bits;
use crate::bits::lemma_masked_update_bits;
use crate::bits::lemma_same_bits;
use crate::bits::lemma_with_bit;
use crate::bits::low_half;
use crate::bits::masked_update;
use crate::bits::rises;
use crate::bits::with_bit;
use crate::registers::HPET_CAP_REG;
use crate::registers::HPET_CFG_ENABLE_SHIFT;
use crate::registers::HPET_CFG_LEG_RT_SHIFT;
use crate::registers::HPET_CFG_REG;
use crate::registers::HPET_CFG_WRITE_MASK;
use crate::registers::HPET_COUNTER_REG;
use crate::registers::HPET_INT_STATUS_REG;
use crate::registers::HPET_LEGACY_PIT_INT;
use crate::registers::HPET_MAX_TIMERS;
use crate::registers::HPET_MIN_TIMERS;
use crate::registers::HPET_NUM_IRQ_ROUTES;
use crate::registers::HPET_TN_CFG_32BIT_SHIFT;
use crate::registers::HPET_TN_CFG_INT_TYPE_SHIFT;
use crate::registers::HPET_TN_CFG_REG;
use crate::registers::HPET_TN_CFG_SETVAL_SHIFT;
use crate::registers::HPET_TN_CFG_WRITE_MASK;
use crate::registers::HPET_TN_CMP_REG;
use crate::registers::HPET_TN_FIRST_ADDR;
use crate::registers::HPET_TN_FSB_ROUTE_REG;
use crate::registers::HPET_TN_STRIDE;
use crate::registers::RTC_ISA_IRQ;
use crate::state::HPETState;
use crate::ticks::after_periods;
use crate::ticks::is_due_after;
use crate::ticks::lemma_first_due_unique;
use crate::ticks::lemma_first_due_within_period;
use crate::ticks::next_wrap;
use crate::ticks::time_after;
use crate::ticks::wrap64;
use crate::ticks::HPET_CLK_PERIOD;
use crate::timer::HPETTimer;
use crate::timer::MIN_PERIOD_NS;
use vstd::prelude::*;

verus! {

// ---------------------------------------------------------------------------
// The main counter and the deadlines of the timers
// ---------------------------------------------------------------------------

/// The main counter runs on from the value that it was halted at, one tick for
/// every `HPET_CLK_PERIOD` nanoseconds that pass after the block was enabled,
/// even if the clock wraps around in between.
pub proof fn law_counter_runs(
    pre: HPETState,
    config: u64,
    clock: ClockReadings,
    post: HPETState,
    now: u64,
)
    requires
        rises(pre.config, config, HPET_CFG_ENABLE_SHIFT),
        pre.config_change(config, clock, post),
        pre.counter * HPET_CLK_PERIOD + wrap64(now - clock.access) <= u64::MAX,
    ensures
        post.counter_at(now) == pre.counter + wrap64(now - clock.access) / HPET_CLK_PERIOD,
{
    let d = wrap64(now - clock.access);
    assert(wrap64(now + wrap64(pre.counter * HPET_CLK_PERIOD - clock.access)) == pre.counter
        * HPET_CLK_PERIOD + d);
}

/// The main counter halts at the value that it shows when the block is
/// disabled, however late it is read.
pub proof fn law_counter_halts(
    pre: HPETState,
    config: u64,
    clock: ClockReadings,
    post: HPETState,
    now: u64,
)
    requires
        falls(pre.config, config, HPET_CFG_ENABLE_SHIFT),
        pre.config_change(config, clock, post),
    ensures
        post.counter_at(now) == pre.counter_at(clock.access),
{
}

/// A main counter that is halted and started again goes on from where it was.
pub proof fn law_counter_resumes(
    running: HPETState,
    halting: u64,
    halt: ClockReadings,
    halted: HPETState,
    starting: u64,
    start: ClockReadings,
    resumed: HPETState,
)
    requires
        falls(running.config, halting, HPET_CFG_ENABLE_SHIFT),
        running.config_change(halting, halt, halted),
        rises(halted.config, starting, HPET_CFG_ENABLE_SHIFT),
        halted.config_change(starting, start, resumed),
    ensures
        resumed.counter_at(start.access) == running.counter_at(halt.access),
{
    law_counter_halts(running, halting, halt, halted, halt.access);
    law_counter_runs(halted, starting, start, resumed, start.access);
}

/// Writing the main counter while the block is enabled does not affect the
/// tick count; while it is halted, the counter reads as it was written.
pub proof fn law_counter_write(
    pre: HPETState,
    addr: u64,
    value: u64,
    size: u32,
    clock: ClockReadings,
    post: HPETState,
    now: u64,
)
    requires
        selects(addr, HPET_COUNTER_REG),
        pre.register_write(addr, value, size, clock, post),
    ensures
        pre.hpet_enabled() ==> post.counter_at(now) == pre.counter_at(now),
        !pre.hpet_enabled() ==> post.counter_at(now) == deposited(
            pre.counter,
            field_start(addr),
            field_length(addr, size),
            value,
        ),
        !pre.hpet_enabled() && addr == HPET_COUNTER_REG && size == 8 ==> post.counter_at(now)
            == value,
{
    lemma_deposited_whole(pre.counter, value);
}

/// When the clock reads what a tick was turned into, the main counter shows
/// that tick.
pub proof fn law_tick_is_reached(state: HPETState, tick: u64)
    requires
        tick * HPET_CLK_PERIOD <= u64::MAX,
    ensures
        state.ticks_at(state.ns_at(tick)) == tick,
{
}

/// A one-shot timer expires when the main counter shows its match, or, if that
/// lies past a wrap in 32-bit mode, when it shows the wrap.
pub proof fn law_one_shot_expires_on_tick(t: HPETTimer, state: HPETState, now: u64)
    requires
        !t.periodic(),
    ensures
        ({
            let set = t.timer_set(state, now);
            let tick = if t.wraps_first(state.ticks_at(now)) {
                next_wrap(state.ticks_at(now))
            } else {
                set.cmp64
            };
            tick * HPET_CLK_PERIOD <= u64::MAX ==> state.ticks_at(set.last) == tick
        }),
{
    let set = t.timer_set(state, now);
    let cur_tick = state.ticks_at(now);
    if t.wraps_first(cur_tick) {
        if next_wrap(cur_tick) * HPET_CLK_PERIOD <= u64::MAX {
            law_tick_is_reached(state, next_wrap(cur_tick));
        }
    } else if set.cmp64 * HPET_CLK_PERIOD <= u64::MAX {
        law_tick_is_reached(state, set.cmp64);
    }
}

/// In 64-bit mode a timer matches its target alone. In 32-bit mode it matches
/// the first tick, from the current one on, with the low half of the target.
pub proof fn law_next_match_is_first(t: HPETTimer, cur_tick: u64, target: u64, other: u64)
    requires
        cur_tick < 0xffff_ffff_0000_0000,
    ensures
        !t.mode_32bit() ==> t.next_match(cur_tick, target) == target,
        t.mode_32bit() ==> {
            &&& t.next_match(cur_tick, target) >= cur_tick
            &&& low_half(t.next_match(cur_tick, target)) == low_half(target)
            &&& other >= cur_tick && low_half(other) == low_half(target) ==> other
                >= t.next_match(cur_tick, target)
        },
{
}

/// A one-shot 32-bit timer whose match lies past the wrap of the low half of
/// the counter expires twice: at the wrap, and at the match. After that it is
/// not armed again.
pub proof fn law_wrap_then_match(
    t: HPETTimer,
    state: HPETState,
    now: u64,
    at_wrap: u64,
    once: HPETTimer,
    at_match: u64,
    twice: HPETTimer,
)
    requires
        t.wraps_first(state.ticks_at(now)),
        t.timer_set(state, now).expires_to(state, at_wrap, once),
        once.expires_to(state, at_match, twice),
    ensures
        t.timer_set(state, now).last == state.ns_at(next_wrap(state.ticks_at(now))),
        t.timer_set(state, now).expiry_actions(state, once) == seq![once.arm_action()]
            + t.irq_actions(state, true),
        once.last == state.ns_at(t.next_match(state.ticks_at(now), t.cmp)),
        twice == once,
        once.expiry_actions(state, twice) == t.irq_actions(state, true),
{
}

/// A periodic timer is never armed to expire sooner than `MIN_PERIOD_NS` after
/// the time that it was armed for before.
pub proof fn law_no_timer_storm(t: HPETTimer, state: HPETState, tick: u64)
    requires
        t.periodic(),
    ensures
        wrap64(t.deadline(state, tick) - t.last) >= MIN_PERIOD_NS,
{
}

/// A periodic timer that expires late is armed for a whole number of periods
/// after its last match, and for less than one period after the current tick.
pub proof fn law_periodic_timer_keeps_pace(
    t: HPETTimer,
    state: HPETState,
    now: u64,
    post: HPETTimer,
)
    requires
        t.periodic(),
        t.period != 0,
        t.expires_to(state, now, post),
        time_after(state.ticks_at(now), t.cmp64),
    ensures
        exists|k: nat| #[trigger] after_periods(t.cmp64, t.period, k) == post.cmp64,
        wrap64(post.cmp64 - state.ticks_at(now)) < t.period,
        post.period == t.period,
{
    let cur_tick = state.ticks_at(now);
    lemma_first_due_within_period(t.cmp64, t.period, cur_tick, post.cmp64);
    let k = choose|k: nat| #[trigger] is_due_after(t.cmp64, t.period, cur_tick, k, post.cmp64);
    assert(after_periods(t.cmp64, t.period, k) == post.cmp64);
}

// ---------------------------------------------------------------------------
// Reading back what was written
// ---------------------------------------------------------------------------

/// The configuration register reads as it was written, but for its reserved
/// bits, which stay as they are.
pub proof fn law_config_reads_back(
    pre: HPETState,
    value: u64,
    clock: ClockReadings,
    post: HPETState,
    now: u64,
)
    requires
        pre.register_write(HPET_CFG_REG, value, 8, clock, post),
    ensures
        post.register_read(HPET_CFG_REG, now) == masked_update(
            value,
            pre.config,
            HPET_CFG_WRITE_MASK,
        ),
{
    lemma_deposited_whole(pre.config, value);
}

/// A write into any part of the configuration register reads back: the bits
/// that were written, but for the reserved ones, and the others as they were.
pub proof fn law_config_field_reads_back(
    pre: HPETState,
    addr: u64,
    value: u64,
    size: u32,
    clock: ClockReadings,
    post: HPETState,
    now: u64,
)
    requires
        selects(addr, HPET_CFG_REG),
        pre.register_write(addr, value, size, clock, post),
    ensures
        post.register_read(HPET_CFG_REG, now) == masked_update(
            deposited(pre.config, field_start(addr), field_length(addr, size), value),
            pre.config,
            HPET_CFG_WRITE_MASK,
        ),
{
}

/// The first address of the registers of timer `i`.
pub open spec fn timer_base(i: int) -> int {
    HPET_TN_FIRST_ADDR + i * HPET_TN_STRIDE
}

/// The registers of a timer read as they were written: the configuration but
/// for the bits that cannot be written, the comparator (its low half in 32-bit
/// mode), and the FSB route. The comparator of a periodic timer stays as it is
/// unless value set is enabled, and the value becomes the timer's period.
pub proof fn law_timer_reads_back(
    pre: HPETState,
    i: int,
    addr: u64,
    value: u64,
    clock: ClockReadings,
    post: HPETState,
    now: u64,
)
    requires
        0 <= i <= pre.num_timers,
        i < 24,
        timer_base(i) <= addr < timer_base(i) + HPET_TN_STRIDE,
        pre.register_write(addr, value, 8, clock, post),
    ensures
        addr == timer_base(i) + HPET_TN_CFG_REG ==> post.register_read(addr, now) == masked_update(
            value,
            pre.timers@[i].config,
            HPET_TN_CFG_WRITE_MASK,
        ),
        addr == timer_base(i) + HPET_TN_CMP_REG ==> {
            let t = pre.timers@[i];
            let written = if t.mode_32bit() {
                low_half(value)
            } else {
                value
            };
            &&& !t.periodic() || t.valset_enabled() ==> post.register_read(addr, now) == written
            &&& t.periodic() && !t.valset_enabled() ==> post.register_read(addr, now) == t.cmp
            &&& t.periodic() ==> post.timers@[i].period == written
        },
        addr == timer_base(i) + HPET_TN_FSB_ROUTE_REG ==> post.register_read(addr, now) == value,
{
    let t = pre.timers@[i];
    lemma_deposited_whole(t.config, value);
    lemma_deposited_whole(t.cmp, value);
    lemma_deposited_whole(t.period, value);
    lemma_deposited_whole(t.fsb, value);
    assert(HPETState::is_timer_addr(addr));
    assert((addr - HPET_TN_FIRST_ADDR) / 0x20 == i);
    assert(addr % 0x20 == addr - timer_base(i));
}

/// The address of the register of timer `i` at offset `reg`.
pub open spec fn timer_addr(i: int, reg: u64) -> u64 {
    (timer_base(i) + reg) as u64
}

/// A write into any part of a timer's register reads back: the bits that were
/// written, but for those that cannot be, and the others as they were. In
/// 32-bit mode the comparator takes the low half of the value, and a write into
/// its high half changes nothing. The comparator of a periodic timer stays as
/// it is unless value set is enabled, and its period takes the value.
pub proof fn law_timer_field_reads_back(
    pre: HPETState,
    i: int,
    reg: u64,
    addr: u64,
    value: u64,
    size: u32,
    clock: ClockReadings,
    post: HPETState,
    now: u64,
)
    requires
        0 <= i <= pre.num_timers,
        i < 24,
        reg == HPET_TN_CFG_REG || reg == HPET_TN_CMP_REG || reg == HPET_TN_FSB_ROUTE_REG,
        selects(addr, timer_addr(i, reg)),
        pre.register_write(addr, value, size, clock, post),
    ensures
        ({
            let t = pre.timers@[i];
            let start = field_start(addr);
            let length = field_length(addr, size);
            let read = post.register_read(timer_addr(i, reg), now);
            &&& reg == HPET_TN_CFG_REG ==> read == masked_update(
                deposited(t.config, start, length, value),
                t.config,
                HPET_TN_CFG_WRITE_MASK,
            )
            &&& reg == HPET_TN_CMP_REG && t.mode_32bit() && start != 0 ==> post == pre
            &&& reg == HPET_TN_CMP_REG && !(t.mode_32bit() && start != 0) ==> {
                &&& !t.periodic() || t.valset_enabled() ==> read == t.comparator_merged(
                    t.cmp,
                    start,
                    length,
                    value,
                )
                &&& t.periodic() && !t.valset_enabled() ==> read == t.cmp
                &&& t.periodic() ==> post.timers@[i].period == t.comparator_merged(
                    t.period,
                    start,
                    length,
                    value,
                )
            }
            &&& reg == HPET_TN_FSB_ROUTE_REG ==> read == deposited(t.fsb, start, length, value)
        }),
{
    lemma_timer_addr(pre, i, reg, addr);
    lemma_timer_addr(pre, i, reg, timer_addr(i, reg));
    let t = pre.timers@[i];
    let effect = t.register_write(pre, addr % HPET_TN_STRIDE, value, size, clock.access);
    assert(post.timers@[i] == effect.timer);
    if reg == HPET_TN_CMP_REG && t.mode_32bit() && field_start(addr) != 0 {
        assert(post.timers =~= pre.timers);
    }
}

/// An address of a register of timer `i` leads to that register.
proof fn lemma_timer_addr(state: HPETState, i: int, reg: u64, addr: u64)
    requires
        0 <= i <= state.num_timers,
        i < 24,
        reg == HPET_TN_CFG_REG || reg == HPET_TN_CMP_REG || reg == HPET_TN_FSB_ROUTE_REG,
        selects(addr, timer_addr(i, reg)),
    ensures
        HPETState::is_timer_addr(addr),
        state.timer_at(addr) == Some((i as usize, addr % HPET_TN_STRIDE)),
        addr % HPET_TN_STRIDE == addr - timer_base(i),
        selects(addr % HPET_TN_STRIDE, reg),
        field_start(addr % HPET_TN_STRIDE) == field_start(addr),
{
    assert((addr - HPET_TN_FIRST_ADDR) / 0x20 == i);
    assert(addr % 0x20 == addr - timer_base(i));
}

/// Two writes of the halves of a word make up a write of the whole.
pub proof fn law_halves_make_a_whole(word: u64, value: u64)
    ensures
        deposited(deposited(word, 0, 32, low_half(value)), 32, 32, high_half(value)) == value,
        deposited(deposited(word, 32, 32, high_half(value)), 0, 32, low_half(value)) == value,
{
    assert(deposited(deposited(word, 0, 32, low_half(value)), 32, 32, high_half(value)) == value
        && deposited(deposited(word, 32, 32, high_half(value)), 0, 32, low_half(value)) == value)
        by (bit_vector);
}

/// Reserved addresses and the capability register cannot be written, and
/// reserved addresses read as zero.
pub proof fn law_reserved_addresses(
    pre: HPETState,
    addr: u64,
    value: u64,
    size: u32,
    clock: ClockReadings,
    post: HPETState,
    now: u64,
)
    requires
        !HPETState::is_timer_addr(addr),
        !selects(addr, HPET_CFG_REG),
        !selects(addr, HPET_INT_STATUS_REG),
        !selects(addr, HPET_COUNTER_REG),
        pre.register_write(addr, value, size, clock, post),
    ensures
        post == pre,
        pre.register_write_actions(addr, value, size, clock) == Seq::<Action>::empty(),
        post.register_read(addr, now) == (if selects(addr, HPET_CAP_REG) {
            value_at(pre.capability, addr)
        } else {
            0
        }),
{
}

/// Addresses past the slot after the last timer, and addresses of a timer at which it has no
/// register, are reserved: they cannot be written, and read as zero.
pub proof fn law_reserved_timer_addresses(
    pre: HPETState,
    addr: u64,
    value: u64,
    size: u32,
    clock: ClockReadings,
    post: HPETState,
    now: u64,
)
    requires
        HPETState::is_timer_addr(addr),
        pre.timer_at(addr) matches Some((_, tn_addr)) ==> !selects(tn_addr, HPET_TN_CFG_REG)
            && !selects(tn_addr, HPET_TN_CMP_REG) && !selects(tn_addr, HPET_TN_FSB_ROUTE_REG),
        pre.register_write(addr, value, size, clock, post),
    ensures
        post == pre,
        pre.register_write_actions(addr, value, size, clock) == Seq::<Action>::empty(),
        post.register_read(addr, now) == 0,
{
    assert(post.timers =~= pre.timers);
}

// ---------------------------------------------------------------------------
// What every operation keeps
// ---------------------------------------------------------------------------

/// A word all of whose bits are among those of another is not greater.
proof fn lemma_fewer_bits(a: u64, b: u64)
    requires
        forall|n: usize| n < 64 && #[trigger] bit(a, n) ==> bit(b, n),
    ensures
        a <= b,
{
    assert forall|n: usize| n < 64 implies bit(a & b, n) == bit(a, n) by {
        assert(bit(a & b, n) == (bit(a, n) && bit(b, n))) by (bit_vector)
            requires
                n < 64,
        ;
    }
    lemma_same_bits(a & b, a);
    assert(a & b <= b) by (bit_vector);
}

proof fn lemma_status_bit_of_timer(status: u64, n: usize, level: bool)
    requires
        status <= u32::MAX,
        n < HPET_MAX_TIMERS,
    ensures
        with_bit(status, n, level) <= u32::MAX,
{
    assert(with_bit(status, n, level) <= 0xffff_ffff) by (bit_vector)
        requires
            status <= 0xffff_ffff,
            n < 32,
    ;
}

proof fn lemma_timer_write_keeps_canonical(
    t: HPETTimer,
    state: HPETState,
    addr: u64,
    value: u64,
    size: u32,
    now: u64,
)
    requires
        t.canonical(),
        t.index < HPET_MAX_TIMERS,
        state.int_status <= u32::MAX,
    ensures
        t.register_write(state, addr, value, size, now).timer.canonical(),
        t.register_write(state, addr, value, size, now).int_status <= u32::MAX,
{
    lemma_with_bit(t.config, HPET_TN_CFG_SETVAL_SHIFT, false, HPET_TN_CFG_32BIT_SHIFT);
    lemma_status_bit_of_timer(state.int_status, t.index, true);
    lemma_status_bit_of_timer(state.int_status, t.index, false);
}

/// No write brings a block out of order: reserved bits stay zero, and the
/// comparator and period of a 32-bit timer stay 32 bits wide.
pub proof fn law_write_keeps_canonical(
    pre: HPETState,
    addr: u64,
    value: u64,
    size: u32,
    clock: ClockReadings,
    post: HPETState,
)
    requires
        pre.wf(),
        pre.canonical(),
        pre.register_write(addr, value, size, clock, post),
    ensures
        post.wf(),
        post.canonical(),
{
    if HPETState::is_timer_addr(addr) {
        if let Some((timer_id, tn_addr)) = pre.timer_at(addr) {
            lemma_timer_write_keeps_canonical(
                pre.timers@[timer_id as int],
                pre,
                tn_addr,
                value,
                size,
                clock.access,
            );
        }
    } else if selects(addr, HPET_CFG_REG) {
        let config = pre.written_config(field_start(addr), field_length(addr, size), value);
        let written = deposited(pre.config, field_start(addr), field_length(addr, size), value);
        let before = pre.config;
        assert(masked_update(written, before, 0x003) <= 0x003) by (bit_vector)
            requires
                before <= 0x003,
        ;
        assert forall|n: usize| n < 64 && #[trigger] bit(post.int_status, n) implies bit(
            pre.int_status,
            n,
        ) by {}
        lemma_fewer_bits(post.int_status, pre.int_status);
    } else if selects(addr, HPET_INT_STATUS_REG) {
        assert forall|n: usize| n < 64 && #[trigger] bit(post.int_status, n) implies bit(
            pre.int_status,
            n,
        ) by {}
        lemma_fewer_bits(post.int_status, pre.int_status);
    }
}

/// No expiration brings a block out of order.
pub proof fn law_expiration_keeps_canonical(
    pre: HPETState,
    index: int,
    now: u64,
    post: HPETState,
)
    requires
        pre.wf(),
        pre.canonical(),
        0 <= index < HPET_MAX_TIMERS,
        pre.expired_as(index, now, post),
    ensures
        post.wf(),
        post.canonical(),
{
    let t = pre.timers@[index];
    lemma_status_bit_of_timer(pre.int_status, t.index, t.level_triggered());
}

/// No interrupt input brings a block out of order.
pub proof fn law_legacy_irq_keeps_canonical(pre: HPETState, irq: u32, level: u32)
    requires
        pre.wf(),
        pre.canonical(),
    ensures
        pre.legacy_irq(irq, level).wf(),
        pre.legacy_irq(irq, level).canonical(),
{
}

/// No reset brings a block out of order.
pub proof fn law_reset_keeps_canonical(pre: HPETState, post: HPETState)
    requires
        pre.wf(),
        pre.canonical(),
        pre.reset_as(post),
    ensures
        post.wf(),
        post.canonical(),
{
    law_timer_capability_bits(pre);
    lemma_mask_bits(8);
    assert forall|n: usize| n < 64 && #[trigger] bit(post.int_status, n) implies bit(
        pre.int_status,
        n,
    ) by {}
    lemma_fewer_bits(post.int_status, pre.int_status);
}

/// A block that is realized with its registers clear is in order.
pub proof fn law_realized_block_is_canonical(pre: HPETState, hpet_id: usize, post: HPETState)
    requires
        pre.config == 0,
        pre.int_status == 0,
        pre.realized_as(hpet_id, post),
    ensures
        post.wf(),
        post.canonical(),
{
    lemma_mask_bits(8);
}

/// No write changes what a block is: its capabilities, its timers' number, its
/// flags, its interrupt routing capability, its id and the level of the RTC
/// output.
pub proof fn law_write_keeps_identity(
    pre: HPETState,
    addr: u64,
    value: u64,
    size: u32,
    clock: ClockReadings,
    post: HPETState,
)
    requires
        pre.register_write(addr, value, size, clock, post),
    ensures
        post.capability == pre.capability,
        post.num_timers == pre.num_timers,
        post.flags == pre.flags,
        post.int_route_cap == pre.int_route_cap,
        post.hpet_id == pre.hpet_id,
        post.hpet_offset_saved == pre.hpet_offset_saved,
        post.rtc_irq_level == pre.rtc_irq_level,
{
}

/// No write changes a reserved or read-only bit of a configuration register, be
/// it that of the block or that of a timer.
pub proof fn law_read_only_bits(
    pre: HPETState,
    addr: u64,
    value: u64,
    size: u32,
    clock: ClockReadings,
    post: HPETState,
    i: int,
    n: usize,
)
    requires
        pre.register_write(addr, value, size, clock, post),
        0 <= i < HPET_MAX_TIMERS,
        n < 64,
    ensures
        !bit(HPET_CFG_WRITE_MASK, n) ==> bit(post.config, n) == bit(pre.config, n),
        !bit(HPET_TN_CFG_WRITE_MASK, n) ==> bit(post.timers@[i].config, n) == bit(
            pre.timers@[i].config,
            n,
        ),
{
    let start = field_start(addr);
    let length = field_length(addr, size);
    lemma_masked_update_bits(
        deposited(pre.config, start, length, value),
        pre.config,
        HPET_CFG_WRITE_MASK,
        n,
    );
    if HPETState::is_timer_addr(addr) {
        if let Some((timer_id, tn_addr)) = pre.timer_at(addr) {
            let t = pre.timers@[timer_id as int];
            lemma_masked_update_bits(
                deposited(t.config, field_start(tn_addr), field_length(tn_addr, size), value),
                t.config,
                HPET_TN_CFG_WRITE_MASK,
                n,
            );
            lemma_with_bit(t.config, HPET_TN_CFG_SETVAL_SHIFT, false, n);
            lemma_mask_bits(6);
        }
    }
}

/// A write determines the block that comes of it.
pub proof fn law_write_is_deterministic(
    pre: HPETState,
    addr: u64,
    value: u64,
    size: u32,
    clock: ClockReadings,
    a: HPETState,
    b: HPETState,
)
    requires
        pre.register_write(addr, value, size, clock, a),
        pre.register_write(addr, value, size, clock, b),
    ensures
        a == b,
{
    if HPETState::is_timer_addr(addr) {
        assert(forall|i: int| 0 <= i < HPET_MAX_TIMERS ==> a.timers@[i] == b.timers@[i]);
    } else if selects(addr, HPET_CFG_REG) || selects(addr, HPET_INT_STATUS_REG) {
        assert(selects(addr, HPET_CFG_REG) ==> forall|i: int|
            0 <= i < HPET_MAX_TIMERS ==> a.timers@[i] == b.timers@[i]);
        assert forall|n: usize| n < 64 implies bit(a.int_status, n) == bit(b.int_status, n) by {}
        lemma_same_bits(a.int_status, b.int_status);
    }
    assert(a.timers =~= b.timers);
}

/// An expiration determines the block that comes of it.
pub proof fn law_expiration_is_deterministic(
    pre: HPETState,
    index: int,
    now: u64,
    a: HPETState,
    b: HPETState,
)
    requires
        0 <= index < HPET_MAX_TIMERS,
        pre.expired_as(index, now, a),
        pre.expired_as(index, now, b),
    ensures
        a == b,
{
    let t = pre.timers@[index];
    if t.periodic() && t.period != 0 {
        lemma_first_due_unique(
            t.cmp64,
            t.period,
            pre.ticks_at(now),
            a.timers@[index].cmp64,
            b.timers@[index].cmp64,
        );
    }
    assert(a.timers =~= b.timers);
}

/// A reset determines the block that comes of it.
pub proof fn law_reset_is_deterministic(pre: HPETState, a: HPETState, b: HPETState)
    requires
        pre.reset_as(a),
        pre.reset_as(b),
    ensures
        a == b,
{
    assert forall|n: usize| n < 64 implies bit(a.int_status, n) == bit(b.int_status, n) by {}
    lemma_same_bits(a.int_status, b.int_status);
    assert(a.timers =~= b.timers);
}

// ---------------------------------------------------------------------------
// Capabilities and reset
// ---------------------------------------------------------------------------

/// The capability register tells the revision, the index of the last timer, a
/// 64-bit counter, legacy replacement, the vendor, and the length of a tick in
/// femtoseconds, each in its place.
pub proof fn law_capability_fields(num_timers: usize)
    requires
        HPET_MIN_TIMERS <= num_timers <= HPET_MAX_TIMERS,
    ensures
        ({
            let capability = HPETState::block_capabilities(num_timers);
            &&& capability % 0x100 == 1
            &&& capability / 0x100 % 0x20 == num_timers - 1
            &&& capability / 0x2000 % 2 == 1
            &&& capability / 0x4000 % 2 == 0
            &&& capability / 0x8000 % 2 == 1
            &&& capability / 0x1_0000 % 0x1_0000 == 0x8086
            &&& high_half(capability) == 10_000_000
        }),
{
    let capability = HPETState::block_capabilities(num_timers);
    let last = (num_timers - 1) as u64;
    assert(capability == 0x98_9680_8086_a001 + last * 0x100);
    assert(capability % 0x100 == 1 && capability / 0x100 % 0x20 == last && capability / 0x2000 % 2
        == 1 && capability / 0x4000 % 2 == 0 && capability / 0x8000 % 2 == 1 && capability / 0x1_0000 % 0x1_0000 == 0x8086
        && capability / 0x1_0000_0000 == 10_000_000) by (bit_vector)
        requires
            capability == 0x98_9680_8086_a001 + last * 0x100,
            last < 32,
    ;
}

/// The configuration register of a timer that was reset tells that the timer
/// can be periodic, that it is 64 bits wide, whether it can deliver FSB
/// interrupts, and where its interrupt can be routed. All other bits, those that
/// can be written among them, are clear.
pub proof fn law_timer_capability_bits(state: HPETState)
    ensures
        bit(state.timer_capabilities(), 4),
        bit(state.timer_capabilities(), 5),
        bit(state.timer_capabilities(), 15) == state.msi_supported(),
        high_half(state.timer_capabilities()) == state.int_route_cap,
        forall|n: usize|
            n < 64 && bit(HPET_TN_CFG_WRITE_MASK, n) ==> !#[trigger] bit(
                state.timer_capabilities(),
                n,
            ),
        low_half(state.timer_capabilities()) == (if state.msi_supported() {
            0x8030u64
        } else {
            0x30u64
        }),
{
    let config = state.timer_capabilities();
    let cap = state.int_route_cap;
    let msi = state.msi_supported();
    assert(bit(config, 4) && bit(config, 5) && bit(config, 15) == msi && config & 0x7f4e == 0)
        by (bit_vector)
        requires
            config == (if msi {
                0x8030u64
            } else {
                0x30u64
            }) + cap * 0x1_0000_0000,
    ;
    assert forall|n: usize| n < 64 && bit(HPET_TN_CFG_WRITE_MASK, n) implies !#[trigger] bit(
        config,
        n,
    ) by {
        assert(!(bit(config, n) && bit(0x7f4e, n))) by (bit_vector)
            requires
                n < 64,
                config & 0x7f4e == 0,
        ;
    }
}

/// After a reset the block is halted at zero, and each of its timers is
/// stopped in 64-bit one-shot mode, with its interrupt disabled and its
/// comparator all ones.
pub proof fn law_reset_state(pre: HPETState, post: HPETState, i: int, now: u64)
    requires
        pre.reset_as(post),
        0 <= i < pre.num_timers,
        i < HPET_MAX_TIMERS,
    ensures
        !post.hpet_enabled(),
        !post.legacy_mode(),
        post.counter_at(now) == 0,
        post.timers@[i].register_read(HPET_TN_CMP_REG) == u64::MAX,
        !post.timers@[i].int_enabled(),
        !post.timers@[i].periodic(),
        !post.timers@[i].mode_32bit(),
        !post.timers@[i].fsb_route_enabled(),
{
    law_timer_capability_bits(pre);
    lemma_mask_bits(0);
    lemma_mask_bits(1);
    lemma_mask_bits(2);
    lemma_mask_bits(3);
    lemma_mask_bits(8);
    lemma_mask_bits(14);
}

// ---------------------------------------------------------------------------
// Interrupts
// ---------------------------------------------------------------------------

/// A timer whose interrupt is set brings exactly one interrupt to the guest if
/// both the timer's interrupt and the block are enabled. Otherwise the timer
/// still operates and generates its status bit, but does not cause an
/// interrupt.
pub proof fn law_interrupt_enable(t: HPETTimer, state: HPETState, set: bool)
    requires
        t.index < HPET_MAX_TIMERS,
    ensures
        set && t.int_enabled() && state.hpet_enabled() ==> {
            &&& t.irq_actions(state, set).len() == 1
            &&& t.irq_actions(state, set)[0].is_timer_interrupt()
        },
        !(set && t.int_enabled() && state.hpet_enabled()) ==> forall|k: int|
            0 <= k < t.irq_actions(state, set).len() ==> !(#[trigger] t.irq_actions(
                state,
                set,
            )[k]).is_timer_interrupt(),
        bit(t.irq_status(state, set), t.index) == (set && t.level_triggered()),
        forall|n: usize|
            n < 64 && n != t.index ==> #[trigger] bit(t.irq_status(state, set), n) == bit(
                state.int_status,
                n,
            ),
{
    let level = set && t.level_triggered();
    lemma_with_bit(state.int_status, t.index, level, t.index);
    assert forall|n: usize| n < 64 && n != t.index implies #[trigger] bit(
        t.irq_status(state, set),
        n,
    ) == bit(state.int_status, n) by {
        lemma_with_bit(state.int_status, t.index, level, n);
    }
}

/// With legacy replacement, timer 0 is routed to line 0 and timer 1 to the RTC
/// line. Their own routing, be it to a line or to a message, has no impact:
/// `other`, which is routed in another way, acts alike. Other timers, and all
/// timers without legacy replacement, are routed by their own routing.
pub proof fn law_legacy_replacement_routes(
    t: HPETTimer,
    other: HPETTimer,
    state: HPETState,
    set: bool,
)
    ensures
        state.legacy_mode() && t.index == 0 ==> t.int_route(state) == 0,
        state.legacy_mode() && t.index == 1 ==> t.int_route(state) == 8,
        state.legacy_mode() && t.index <= 1 ==> !t.fsb_routed(state),
        state.legacy_mode() && t.index <= 1 && other.index == t.index && other.int_enabled()
            == t.int_enabled() && other.level_triggered() == t.level_triggered()
            ==> other.irq_actions(state, set) == t.irq_actions(state, set),
        !state.legacy_mode() || t.index > 1 ==> t.int_route(state) == t.individual_route(),
        !state.legacy_mode() || t.index > 1 ==> t.fsb_routed(state) == t.fsb_route_enabled(),
        0 <= t.int_route(state) < HPET_NUM_IRQ_ROUTES,
{
}

/// A timer that ceases to be level-triggered has its status bit cleared and its
/// line lowered, even if the same write turns to FSB interrupts.
pub proof fn law_leaving_level_mode_lowers(
    t: HPETTimer,
    state: HPETState,
    start: u32,
    length: u32,
    value: u64,
    now: u64,
)
    requires
        t.index < HPET_MAX_TIMERS,
        falls(t.config, t.written_config(start, length, value), HPET_TN_CFG_INT_TYPE_SHIFT),
    ensures
        !bit(t.config_write(state, start, length, value, now).int_status, t.index),
        !t.fsb_routed(state) ==> t.config_write(state, start, length, value, now).actions[0] == (
        Action::LowerIrq { line: t.int_route(state) as usize }),
{
    lemma_with_bit(state.int_status, t.index, false, t.index);
}

/// While legacy replacement is on, the PIT and RTC outputs do not get through.
/// When it is switched off, the RTC line takes the level that the RTC output
/// had last.
pub proof fn law_rtc_level_is_restored(
    state: HPETState,
    irq: u32,
    level: u32,
    config: u64,
    clock: ClockReadings,
)
    requires
        state.legacy_mode(),
        falls(state.config, config, HPET_CFG_LEG_RT_SHIFT),
    ensures
        state.legacy_irq_actions(irq, level) == Seq::<Action>::empty(),
        irq != HPET_LEGACY_PIT_INT ==> state.legacy_irq(irq, level).config_change_actions(
            config,
            clock,
        ).last() == (Action::SetIrq { line: RTC_ISA_IRQ, level: level != 0 }),
{
}

/// Writing ones into the interrupt status register clears the bits of the
/// timers of the block, and writing zeros leaves them: what was read can be
/// written back to acknowledge it.
pub proof fn law_status_write_clears(
    pre: HPETState,
    value: u64,
    clock: ClockReadings,
    post: HPETState,
    i: usize,
)
    requires
        i < 64,
        pre.register_write(HPET_INT_STATUS_REG, value, 8, clock, post),
    ensures
        i < pre.num_timers && bit(value, i) ==> !post.int_active(i),
        !bit(value, i) ==> post.int_active(i) == pre.int_active(i),
        i < pre.num_timers && value == pre.int_status ==> !post.int_active(i),
        i >= pre.num_timers ==> post.int_active(i) == pre.int_active(i),
{
    assert(value << 0u32 == value) by (bit_vector);
    assert(post.int_active(i) == bit(post.int_status, i));
}

/// Writing ones into any part of the interrupt status register clears the bits
/// of the timers that they meet, and nothing else.
pub proof fn law_status_field_write_clears(
    pre: HPETState,
    addr: u64,
    value: u64,
    size: u32,
    clock: ClockReadings,
    post: HPETState,
    i: usize,
)
    requires
        i < 64,
        selects(addr, HPET_INT_STATUS_REG),
        pre.register_write(addr, value, size, clock, post),
    ensures
        post.int_active(i) == (pre.int_active(i) && !(i < pre.num_timers && bit(
            value << field_start(addr),
            i,
        ))),
{
    assert(post.int_active(i) == bit(post.int_status, i));
}

/// Neither an interrupt nor an armed timer is among the actions.
pub open spec fn silent(actions: Seq<Action>) -> bool {
    forall|k: int|
        0 <= k < actions.len() ==> !(#[trigger] actions[k]).is_timer_interrupt()
            && !(actions[k] is ArmTimer)
}

proof fn lemma_stop_is_silent(state: HPETState, n: int)
    requires
        !state.hpet_enabled(),
    ensures
        silent(state.stop_actions(n)),
    decreases n,
{
    if n > 0 {
        lemma_stop_is_silent(state, n - 1);
    }
}

proof fn lemma_clear_is_silent(state: HPETState, cleared: u64, n: int)
    ensures
        silent(state.clear_actions(cleared, n)),
    decreases n,
{
    if n > 0 {
        lemma_clear_is_silent(state, cleared, n - 1);
    }
}

/// A write that leaves the block disabled, or disables it, causes no interrupt
/// of a timer and arms none.
pub proof fn law_disabled_block_is_silent(
    pre: HPETState,
    addr: u64,
    value: u64,
    size: u32,
    clock: ClockReadings,
    post: HPETState,
)
    requires
        pre.register_write(addr, value, size, clock, post),
        !post.hpet_enabled(),
    ensures
        silent(pre.register_write_actions(addr, value, size, clock)),
{
    let start = field_start(addr);
    let length = field_length(addr, size);
    if HPETState::is_timer_addr(addr) {
    } else if selects(addr, HPET_CFG_REG) {
        let config = pre.written_config(start, length, value);
        lemma_stop_is_silent(
            pre.disabled_by(config, clock.access),
            pre.num_timers as int,
        );
    } else if selects(addr, HPET_INT_STATUS_REG) {
        lemma_clear_is_silent(
            pre,
            (value << start) & pre.int_status,
            pre.num_timers as int,
        );
    }
}

proof fn lemma_stop_deletes(state: HPETState, n: int, i: int)
    requires
        state.wf(),
        0 <= i < n <= state.num_timers,
    ensures
        state.stop_actions(n).contains(Action::DeleteTimer { index: i as usize }),
    decreases n,
{
    let t = state.timers@[n - 1];
    let before = state.stop_actions(n - 1);
    let part = t.stopped(state).actions;
    if i < n - 1 {
        lemma_stop_deletes(state, n - 1, i);
        let k = choose|k: int|
            0 <= k < before.len() && before[k] == (Action::DeleteTimer { index: i as usize });
        assert((before + part)[k] == before[k]);
    } else {
        assert((before + part)[before.len() as int] == part[0]);
    }
}

/// Disabling the block stops each of its timers. A level-triggered interrupt
/// that is pending keeps its status bit, and its line is lowered.
pub proof fn law_disabling_stops_timers(
    pre: HPETState,
    config: u64,
    clock: ClockReadings,
    post: HPETState,
    i: int,
)
    requires
        pre.wf(),
        falls(pre.config, config, HPET_CFG_ENABLE_SHIFT),
        pre.config_change(config, clock, post),
        0 <= i < pre.num_timers,
    ensures
        pre.config_change_actions(config, clock).contains(
            Action::DeleteTimer { index: i as usize },
        ),
        pre.timers@[i].level_triggered() ==> post.int_active(i as usize) == pre.int_active(
            i as usize,
        ),
        pre.int_active(i as usize) && !pre.timers@[i].fsb_routed(post)
            ==> pre.config_change_actions(config, clock).contains(
            Action::LowerIrq { line: pre.timers@[i].int_route(post) as usize },
        ),
{
    let halted = pre.disabled_by(config, clock.access);
    let n = pre.num_timers as int;
    let parts = halted.stop_actions(n);
    let all = pre.config_change_actions(config, clock);
    lemma_stop_deletes(halted, n, i);
    let k = choose|k: int|
        0 <= k < parts.len() && parts[k] == (Action::DeleteTimer { index: i as usize });
    assert(all[k] == parts[k]);
    assert(post.int_active(i as usize) == bit(post.int_status, i as usize));
    if pre.int_active(i as usize) && !pre.timers@[i].fsb_routed(post) {
        let lower = Action::LowerIrq { line: pre.timers@[i].int_route(post) as usize };
        lemma_stop_lowers(halted, n, i, lower);
        let m = choose|m: int| 0 <= m < parts.len() && parts[m] == lower;
        assert(all[m] == parts[m]);
    }
}

proof fn lemma_stop_lowers(state: HPETState, n: int, i: int, lower: Action)
    requires
        state.wf(),
        !state.hpet_enabled() || state.timers@[i].level_triggered(),
        0 <= i < n <= state.num_timers,
        state.int_active(i as usize),
        !state.timers@[i].fsb_routed(state),
        lower == (Action::LowerIrq { line: state.timers@[i].int_route(state) as usize }),
    ensures
        state.stop_actions(n).contains(lower),
    decreases n,
{
    let t = state.timers@[n - 1];
    let before = state.stop_actions(n - 1);
    let part = t.stopped(state).actions;
    if i < n - 1 {
        lemma_stop_lowers(state, n - 1, i, lower);
        let k = choose|k: int| 0 <= k < before.len() && before[k] == lower;
        assert((before + part)[k] == before[k]);
    } else {
        assert(part[1] == lower);
        assert((before + part)[(before.len() + 1) as int] == part[1]);
    }
}

proof fn lemma_stop_never_raises(state: HPETState, n: int)
    ensures
        forall|k: int|
            0 <= k < state.stop_actions(n).len() ==> !(#[trigger] state.stop_actions(n)[k]
                is RaiseIrq),
    decreases n,
{
    if n > 0 {
        lemma_stop_never_raises(state, n - 1);
    }
}

/// None of the actions with which a reset stops the timers raises a line for
/// good, even if the block is enabled; a pending edge-triggered interrupt of an
/// enabled block may be pulsed once more. A level-triggered interrupt that is
/// pending keeps its status bit, and its line is lowered.
pub proof fn law_reset_lowers_level_interrupts(pre: HPETState, post: HPETState, i: int)
    requires
        pre.wf(),
        pre.reset_as(post),
        0 <= i < pre.num_timers,
    ensures
        forall|k: int|
            0 <= k < pre.stop_actions(pre.num_timers as int).len() ==> !(
            #[trigger] pre.stop_actions(pre.num_timers as int)[k] is RaiseIrq),
        pre.timers@[i].level_triggered() ==> post.int_active(i as usize) == pre.int_active(
            i as usize,
        ),
        pre.int_active(i as usize) && pre.timers@[i].level_triggered()
            && !pre.timers@[i].fsb_routed(pre) ==> pre.stop_actions(
            pre.num_timers as int,
        ).contains(Action::LowerIrq { line: pre.timers@[i].int_route(pre) as usize }),
{
    let n = pre.num_timers as int;
    lemma_stop_never_raises(pre, n);
    assert(post.int_active(i as usize) == bit(post.int_status, i as usize));
    if pre.int_active(i as usize) && pre.timers@[i].level_triggered()
        && !pre.timers@[i].fsb_routed(pre) {
        lemma_stop_lowers(
            pre,
            n,
            i,
            Action::LowerIrq { line: pre.timers@[i].int_route(pre) as usize },
        );
    }
}

proof fn lemma_start_arms(state: HPETState, clock: ClockReadings, n: int, i: int)
    requires
        state.wf(),
        0 <= i < n <= state.num_timers,
    ensures
        state.start_actions(clock, n).contains(
            state.timers@[i].timer_set(state, clock.timers@[i]).arm_action(),
        ),
    decreases n,
{
    let before = state.start_actions(clock, n - 1);
    let all = state.start_actions(clock, n);
    let arm = state.timers@[i].timer_set(state, clock.timers@[i]).arm_action();
    if i < n - 1 {
        lemma_start_arms(state, clock, n - 1, i);
        let k = choose|k: int| 0 <= k < before.len() && before[k] == arm;
        assert(all[k] == before[k]);
    } else {
        assert(all[all.len() - 1] == arm);
    }
}

/// Enabling the block arms each of its timers, for the time that the timer
/// remembers as armed last.
pub proof fn law_enabling_arms_timers(
    pre: HPETState,
    config: u64,
    clock: ClockReadings,
    post: HPETState,
    i: int,
)
    requires
        pre.wf(),
        rises(pre.config, config, HPET_CFG_ENABLE_SHIFT),
        pre.config_change(config, clock, post),
        0 <= i < pre.num_timers,
    ensures
        pre.config_change_actions(config, clock).contains(post.timers@[i].arm_action()),
{
    let running = pre.enabled_by(config, clock.access);
    let parts = running.start_actions(clock, pre.num_timers as int);
    lemma_start_arms(running, clock, pre.num_timers as int, i);
    let k = choose|k: int| 0 <= k < parts.len() && parts[k] == post.timers@[i].arm_action();
    assert(pre.config_change_actions(config, clock)[k] == parts[k]);
}

/// Every action names an interrupt line and a timer that the block has.
pub open spec fn all_in_range(actions: Seq<Action>) -> bool {
    forall|k: int| 0 <= k < actions.len() ==> (#[trigger] actions[k]).in_range()
}

proof fn lemma_start_in_range(state: HPETState, clock: ClockReadings, n: int)
    requires
        state.wf(),
        n <= state.num_timers,
    ensures
        all_in_range(state.start_actions(clock, n)),
    decreases n,
{
    if n > 0 {
        lemma_start_in_range(state, clock, n - 1);
    }
}

proof fn lemma_stop_in_range(state: HPETState, n: int)
    requires
        state.wf(),
        n <= state.num_timers,
    ensures
        all_in_range(state.stop_actions(n)),
    decreases n,
{
    if n > 0 {
        lemma_stop_in_range(state, n - 1);
    }
}

proof fn lemma_clear_in_range(state: HPETState, cleared: u64, n: int)
    requires
        state.wf(),
        n <= state.num_timers,
    ensures
        all_in_range(state.clear_actions(cleared, n)),
    decreases n,
{
    if n > 0 {
        lemma_clear_in_range(state, cleared, n - 1);
    }
}

proof fn lemma_timer_write_in_range(
    t: HPETTimer,
    state: HPETState,
    addr: u64,
    value: u64,
    size: u32,
    now: u64,
)
    requires
        t.index < HPET_MAX_TIMERS,
    ensures
        all_in_range(t.register_write(state, addr, value, size, now).actions),
{
}

proof fn lemma_config_change_in_range(pre: HPETState, config: u64, clock: ClockReadings)
    requires
        pre.wf(),
    ensures
        all_in_range(pre.config_change_actions(config, clock)),
{
    let n = pre.num_timers as int;
    lemma_start_in_range(pre.enabled_by(config, clock.access), clock, n);
    lemma_stop_in_range(pre.disabled_by(config, clock.access), n);
    assert(all_in_range(pre.legacy_actions(pre.config, config)));
}

/// The actions of a write name only interrupt lines and timers that the block
/// has.
pub proof fn law_write_actions_in_range(
    pre: HPETState,
    addr: u64,
    value: u64,
    size: u32,
    clock: ClockReadings,
)
    requires
        pre.wf(),
    ensures
        all_in_range(pre.register_write_actions(addr, value, size, clock)),
{
    let start = field_start(addr);
    let length = field_length(addr, size);
    if HPETState::is_timer_addr(addr) {
        if let Some((timer_id, tn_addr)) = pre.timer_at(addr) {
            let t = pre.timers@[timer_id as int];
            lemma_timer_write_in_range(t, pre, tn_addr, value, size, clock.access);
        }
    } else if selects(addr, HPET_CFG_REG) {
        lemma_config_change_in_range(pre, pre.written_config(start, length, value), clock);
    } else if selects(addr, HPET_INT_STATUS_REG) {
        lemma_clear_in_range(
            pre,
            (value << start) & pre.int_status,
            pre.num_timers as int,
        );
    }
}

/// The actions of a reset, as far as they concern the timers, name only
/// interrupt lines and timers that the block has.
pub proof fn law_reset_actions_in_range(pre: HPETState)
    requires
        pre.wf(),
    ensures
        all_in_range(pre.stop_actions(pre.num_timers as int)),
{
    lemma_stop_in_range(pre, pre.num_timers as int);
}

/// The actions of an expiration name only interrupt lines and timers that the
/// block has.
pub proof fn law_expiration_actions_in_range(
    pre: HPETState,
    index: int,
    now: u64,
    post: HPETState,
)
    requires
        pre.wf(),
        0 <= index < HPET_MAX_TIMERS,
        pre.expired_as(index, now, post),
    ensures
        all_in_range(pre.timers@[index].expiry_actions(pre, post.timers@[index])),
{
}

} // verus!
