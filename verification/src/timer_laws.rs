//! What each operation on a timer does, said of the timer's registers, of the
//! interrupt status and of the actions.

use crate::access::field_length;
use crate::access::field_start;
use crate::access::selects;
use crate::action::Action;
use crate::bits::bit;
use crate::bits::deposited;
use crate::bits::high_half;
use crate::bits::lemma_bit_is_digit;
use crate::bits::lemma_deposited_bits;
use crate::bits::lemma_deposited_whole;
use crate::bits::lemma_mask_bits;
use crate::bits::lemma_masked_update_bits;
use crate::bits::lemma_with_bit;
use crate::bits::low_half;
use crate::registers::HPET_TN_CFG_SETVAL_SHIFT;
use crate::registers::HPET_TN_CFG_WRITE_MASK;
use crate::state::HPETState;
use crate::ticks::is_first_due;
use crate::ticks::next_wrap;
use crate::ticks::wrap64;
use crate::timer::HPETTimer;
use vstd::arithmetic::power2::lemma2_to64;
use vstd::prelude::*;

verus! {

/// Each setting of a timer is the binary digit of its configuration that has
/// the setting's weight, and the route is the number in bits 9 to 13.
pub proof fn law_timer_settings(t: HPETTimer)
    ensures
        t.level_triggered() == (t.config / 0x2 % 2 == 1),
        t.int_enabled() == (t.config / 0x4 % 2 == 1),
        t.periodic() == (t.config / 0x8 % 2 == 1),
        t.valset_enabled() == (t.config / 0x40 % 2 == 1),
        t.mode_32bit() == (t.config / 0x100 % 2 == 1),
        t.fsb_route_enabled() == (t.config / 0x4000 % 2 == 1),
        t.individual_route() == t.config / 0x200 % 32,
{
    lemma2_to64();
    lemma_bit_is_digit(t.config, 1);
    lemma_bit_is_digit(t.config, 2);
    lemma_bit_is_digit(t.config, 3);
    lemma_bit_is_digit(t.config, 6);
    lemma_bit_is_digit(t.config, 8);
    lemma_bit_is_digit(t.config, 14);
}

/// At most one action brings a timer's interrupt to the guest or takes it back.
/// It is a message if the timer is routed to one, and a raised or pulsed line if
/// it is not, by the kind of the interrupt. What is not brought is taken back by
/// lowering the line. A message is stored at the address in the high half of the
/// FSB route, and is its low half; a line is the one that the timer is routed
/// to.
pub proof fn law_interrupt_delivery(t: HPETTimer, state: HPETState, set: bool)
    ensures
        ({
            let actions = t.irq_actions(state, set);
            let brought = set && t.int_enabled() && state.hpet_enabled();
            let message = t.fsb_routed(state);
            let a = actions[0];
            &&& actions.len() == (if !brought && message {
                0nat
            } else {
                1nat
            })
            &&& brought || !message ==> {
                &&& a is StoreMessage == (brought && message)
                &&& a is RaiseIrq == (brought && !message && t.level_triggered())
                &&& a is PulseIrq == (brought && !message && !t.level_triggered())
                &&& a is LowerIrq == !brought
                &&& a matches Action::StoreMessage { addr, value } ==> addr * 0x1_0000_0000 + value
                    == t.fsb
                &&& a matches Action::RaiseIrq { line } ==> line == t.int_route(state)
                &&& a matches Action::PulseIrq { line } ==> line == t.int_route(state)
                &&& a matches Action::LowerIrq { line } ==> line == t.int_route(state)
            }
        }),
{
}

/// The match of a 64-bit timer is its target. That of a 32-bit timer has the
/// low half of the target and lies less than 2^32 after the current tick.
pub proof fn law_next_match(t: HPETTimer, cur_tick: u64, target: u64)
    ensures
        !t.mode_32bit() ==> t.next_match(cur_tick, target) == target,
        t.mode_32bit() ==> low_half(t.next_match(cur_tick, target)) == low_half(target),
        t.mode_32bit() ==> wrap64(t.next_match(cur_tick, target) - cur_tick) < 0x1_0000_0000,
{
}

/// A timer, periodic or not, is armed for the time at which the running counter
/// shows the tick, and not a nanosecond sooner. Only if a periodic timer would
/// then expire less than a microsecond after the time last armed is it armed
/// for a microsecond after that instead.
pub proof fn law_deadline(t: HPETTimer, state: HPETState, tick: u64)
    ensures
        ({
            let d = t.deadline(state, tick);
            let storm = t.periodic() && wrap64(tick * 10 - state.hpet_offset - t.last) < 1000;
            &&& storm ==> d == wrap64(t.last + 1000)
            &&& !storm ==> (d + state.hpet_offset - tick * 10) % 0x1_0000_0000_0000_0000 == 0
            &&& !storm && tick * 10 <= u64::MAX ==> state.ticks_at(d) == tick
            &&& !storm && tick > 0 && tick * 10 <= u64::MAX ==> state.ticks_at(wrap64(d - 1))
                == tick - 1
        }),
{
    assert(wrap64(wrap64(tick * 10 - state.hpet_offset) - t.last) == wrap64(
        tick * 10 - state.hpet_offset - t.last,
    ));
}

/// `t` is set for the next match of its comparator when the clock reads `now`,
/// after it was armed for `last` before: it is armed for the match, or, if it is
/// a one-shot 32-bit timer and the match lies past the next wrap of the low half
/// of the counter, for that wrap, and its wrap flag says so.
pub open spec fn is_set(t: HPETTimer, last: u64, state: HPETState, now: u64) -> bool {
    let cur_tick = state.ticks_at(now);
    let wraps = t.mode_32bit() && !t.periodic() && t.cmp64 > next_wrap(cur_tick);
    let before = HPETTimer { last, ..t };
    &&& t.cmp64 == t.next_match(cur_tick, t.cmp)
    &&& wraps ==> t.wrap_flag == 1 && t.last == before.deadline(state, next_wrap(cur_tick))
    &&& !wraps ==> t.wrap_flag == 0 && t.last == before.deadline(state, t.cmp64)
}

/// The registers of `a` that the guest wrote, and its place, are those of `b`.
pub open spec fn same_registers(a: HPETTimer, b: HPETTimer) -> bool {
    &&& a.index == b.index
    &&& a.timer_created == b.timer_created
    &&& a.config == b.config
    &&& a.cmp == b.cmp
    &&& a.fsb == b.fsb
    &&& a.period == b.period
}

/// Setting a timer sets it for the next match of its comparator, and changes no
/// register that the guest wrote. A 64-bit one-shot timer is armed for the time
/// at which the main counter shows the whole comparator.
pub proof fn law_set_timer(t: HPETTimer, state: HPETState, now: u64)
    ensures
        is_set(t.timer_set(state, now), t.last, state, now),
        same_registers(t.timer_set(state, now), t),
        !t.mode_32bit() ==> t.timer_set(state, now).cmp64 == t.cmp,
        !t.mode_32bit() && !t.periodic() && t.cmp * 10 <= u64::MAX ==> state.ticks_at(
            t.timer_set(state, now).last,
        ) == t.cmp,
        t.mode_32bit() ==> low_half(t.timer_set(state, now).cmp64) == low_half(t.cmp),
{
    lemma_timer_is_set(t, state, now);
    law_next_match(t, state.ticks_at(now), t.cmp);
    if !t.mode_32bit() && !t.periodic() && t.cmp * 10 <= u64::MAX {
        lemma_wide_one_shot(t, state, now);
    }
}

proof fn lemma_timer_is_set(t: HPETTimer, state: HPETState, now: u64)
    ensures
        is_set(t.timer_set(state, now), t.last, state, now),
        same_registers(t.timer_set(state, now), t),
        t.timer_set(state, now).cmp64 == t.next_match(state.ticks_at(now), t.cmp),
{
}

proof fn lemma_wide_one_shot(t: HPETTimer, state: HPETState, now: u64)
    requires
        !t.mode_32bit() && !t.periodic() && t.cmp * 10 <= u64::MAX,
    ensures
        state.ticks_at(t.timer_set(state, now).last) == t.cmp,
{
    assert(t.timer_set(state, now).last == t.deadline(state, t.cmp));
    law_deadline(t, state, t.cmp);
}

/// Stopping a timer stops its host timer first. If no interrupt is pending, that
/// is all. Of a pending interrupt only a level-triggered one keeps its status
/// bit, and no other timer's bit changes. The line of a level-triggered interrupt
/// is lowered; any other pending interrupt is brought to the guest.
pub proof fn law_stop(t: HPETTimer, state: HPETState, n: usize)
    requires
        t.index < 64,
        n < 64,
    ensures
        ({
            let e = t.stopped(state);
            let line = t.int_route(state) as usize;
            &&& e.timer == t
            &&& e.actions.len() >= 1 && e.actions[0] == (Action::DeleteTimer { index: t.index })
            &&& !state.int_active(t.index) ==> e.actions.len() == 1 && e.int_status
                == state.int_status
            &&& bit(e.int_status, n) == (bit(state.int_status, n) && (n == t.index
                ==> t.level_triggered()))
            &&& state.int_active(t.index) && t.level_triggered() && !t.fsb_routed(state)
                ==> e.actions == seq![
                Action::DeleteTimer { index: t.index },
                Action::LowerIrq { line },
            ]
            &&& state.int_active(t.index) && !(t.level_triggered() && !t.fsb_routed(state))
                ==> e.actions.drop_first() == t.irq_actions(state, true)
        }),
{
    lemma_with_bit(state.int_status, t.index, t.level_triggered(), n);
    let e = t.stopped(state);
    if state.int_active(t.index) && !(t.level_triggered() && !t.fsb_routed(state)) {
        assert(e.actions.drop_first() =~= t.irq_actions(state, true));
    }
}

/// A reset stops the timer, sets its comparator to all ones, clears its period
/// and its wrap flag, and leaves in its configuration what it can do. Nothing
/// else of it changes.
pub proof fn law_timer_reset(t: HPETTimer, state: HPETState)
    ensures
        ({
            let e = t.reset_effect(state);
            &&& e.actions == t.stopped(state).actions
            &&& e.int_status == t.stopped(state).int_status
            &&& e.timer.cmp == 0xffff_ffff_ffff_ffff
            &&& e.timer.period == 0 && e.timer.wrap_flag == 0
            &&& e.timer.config == state.timer_capabilities()
            &&& e.timer.index == t.index && e.timer.timer_created == t.timer_created
            &&& e.timer.fsb == t.fsb && e.timer.cmp64 == t.cmp64 && e.timer.last == t.last
        }),
{
}

/// Bit `n` of `before` once `value` is written into its bits from `start` up.
pub open spec fn written_bit(
    before: u64,
    start: u32,
    length: u32,
    value: u64,
    n: usize,
) -> bool {
    if start <= n < start + length {
        bit(value, (n - start) as usize)
    } else {
        bit(before, n)
    }
}

/// The bits of a timer's configuration that can be written.
pub open spec fn is_writable(n: usize) -> bool {
    1 <= n <= 3 || n == 6 || 8 <= n <= 14
}

/// A write that makes a timer `after` sets it anew if the block is enabled, and
/// leaves what it was set for as it is if not.
pub open spec fn runs_on(before: HPETTimer, after: HPETTimer, state: HPETState, now: u64) -> bool {
    if state.hpet_enabled() {
        is_set(after, before.last, state, now)
    } else {
        &&& after.cmp64 == before.cmp64
        &&& after.wrap_flag == before.wrap_flag
        &&& after.last == before.last
    }
}

/// The action of setting a timer anew, if the block is enabled.
pub open spec fn rearming(after: HPETTimer, state: HPETState) -> Seq<Action> {
    if state.hpet_enabled() {
        seq![Action::ArmTimer { index: after.index, expire_ns: after.last }]
    } else {
        seq![]
    }
}

/// A write into a timer's configuration changes the bits that it meets and that
/// can be written, and no others. In 32-bit mode comparator and period keep
/// their low halves only. The timer is set anew if the block is enabled.
pub proof fn law_timer_config_write(
    t: HPETTimer,
    state: HPETState,
    addr: u64,
    value: u64,
    size: u32,
    now: u64,
    n: usize,
)
    requires
        selects(addr, 0x000),
        0 < size <= u32::MAX / 8,
        n < 64,
    ensures
        ({
            let after = t.register_write(state, addr, value, size, now).timer;
            let start = field_start(addr);
            let length = field_length(addr, size);
            &&& bit(after.config, n) == (if is_writable(n) {
                written_bit(t.config, start, length, value, n)
            } else {
                bit(t.config, n)
            })
            &&& after.cmp == (if after.mode_32bit() {
                low_half(t.cmp)
            } else {
                t.cmp
            })
            &&& after.period == (if after.mode_32bit() {
                low_half(t.period)
            } else {
                t.period
            })
            &&& after.index == t.index && after.timer_created == t.timer_created
            &&& after.fsb == t.fsb
            &&& runs_on(t, after, state, now)
        }),
{
    let start = field_start(addr);
    let length = field_length(addr, size);
    lemma_deposited_bits(t.config, start, length, value, n);
    lemma_masked_update_bits(
        deposited(t.config, start, length, value),
        t.config,
        HPET_TN_CFG_WRITE_MASK,
        n,
    );
    lemma_mask_bits(n);
}

/// A write into a timer's configuration that makes it edge-triggered clears its
/// status bit and takes its interrupt back, as it was routed before. One that
/// only enables its interrupt brings the pending one, as it is routed after. No
/// other write touches the interrupt, and none touches another timer's status
/// bit. Last, the timer is armed if the block is enabled.
pub proof fn law_timer_config_interrupts(
    t: HPETTimer,
    state: HPETState,
    addr: u64,
    value: u64,
    size: u32,
    now: u64,
    n: usize,
)
    requires
        selects(addr, 0x000),
        t.index < 64,
        n < 64,
    ensures
        ({
            let e = t.register_write(state, addr, value, size, now);
            let to_edge = t.level_triggered() && !e.timer.level_triggered();
            let brings = !to_edge && !t.int_enabled() && e.timer.int_enabled()
                && state.int_active(t.index);
            let arming = rearming(e.timer, state);
            &&& n != t.index ==> bit(e.int_status, n) == bit(state.int_status, n)
            &&& bit(e.int_status, t.index) == (if to_edge {
                false
            } else if brings {
                e.timer.level_triggered()
            } else {
                state.int_active(t.index)
            })
            &&& to_edge ==> e.actions == t.irq_actions(state, false) + arming
            &&& brings ==> e.actions == e.timer.irq_actions(state, true) + arming
            &&& !to_edge && !brings ==> e.actions == arming
        }),
{
    let e = t.register_write(state, addr, value, size, now);
    lemma_with_bit(state.int_status, t.index, false, n);
    lemma_with_bit(state.int_status, t.index, false, t.index);
    lemma_with_bit(state.int_status, t.index, e.timer.level_triggered(), n);
    lemma_with_bit(state.int_status, t.index, e.timer.level_triggered(), t.index);
}

/// `after` is `before` with `value` written into its bits from `start` up.
pub open spec fn is_written(
    before: u64,
    after: u64,
    start: u32,
    length: u32,
    value: u64,
) -> bool {
    forall|n: usize|
        n < 64 ==> #[trigger] bit(after, n) == written_bit(before, start, length, value, n)
}

proof fn lemma_is_written(before: u64, start: u32, length: u32, value: u64)
    requires
        start < 64,
        0 < length <= 64 - start,
    ensures
        is_written(before, deposited(before, start, length, value), start, length, value),
{
    assert forall|n: usize| n < 64 implies #[trigger] bit(
        deposited(before, start, length, value),
        n,
    ) == written_bit(before, start, length, value, n) by {
        lemma_deposited_bits(before, start, length, value, n);
    }
}

/// A write into the high half of a 32-bit timer's comparator does nothing. Any
/// other write into the comparator leaves value set clear and every other bit of
/// the configuration as it was, in every mode. It goes into the comparator
/// unless the timer is periodic without value set, and into the period if the
/// timer is periodic: in 64-bit mode into the bits that it meets, in 32-bit mode
/// as the low half of the value. The timer is set anew if the block is enabled.
pub proof fn law_timer_comparator_write(
    t: HPETTimer,
    state: HPETState,
    addr: u64,
    value: u64,
    size: u32,
    now: u64,
    n: usize,
)
    requires
        selects(addr, 0x008),
        0 < size <= u32::MAX / 8,
        n < 64,
    ensures
        ({
            let e = t.register_write(state, addr, value, size, now);
            let after = e.timer;
            let start = field_start(addr);
            let length = field_length(addr, size);
            &&& e.int_status == state.int_status
            &&& t.mode_32bit() && addr == 0x00c ==> after == t && e.actions.len() == 0
            &&& !(t.mode_32bit() && addr == 0x00c) ==> {
                &&& !after.valset_enabled()
                &&& n != 6 ==> bit(after.config, n) == bit(t.config, n)
                &&& t.periodic() && !t.valset_enabled() ==> after.cmp == t.cmp
                &&& !(t.periodic() && !t.valset_enabled()) && t.mode_32bit() ==> after.cmp
                    == low_half(value)
                &&& !(t.periodic() && !t.valset_enabled()) && !t.mode_32bit() ==> is_written(
                    t.cmp,
                    after.cmp,
                    start,
                    length,
                    value,
                )
                &&& !t.periodic() ==> after.period == t.period
                &&& t.periodic() && t.mode_32bit() ==> after.period == low_half(value)
                &&& t.periodic() && !t.mode_32bit() ==> is_written(
                    t.period,
                    after.period,
                    start,
                    length,
                    value,
                )
                &&& after.index == t.index && after.timer_created == t.timer_created
                &&& after.fsb == t.fsb
                &&& runs_on(t, after, state, now)
                &&& e.actions == rearming(after, state)
            }
        }),
{
    let start = field_start(addr);
    let length = field_length(addr, size);
    lemma_is_written(t.cmp, start, length, value);
    lemma_is_written(t.period, start, length, value);
    lemma_with_bit(t.config, HPET_TN_CFG_SETVAL_SHIFT, false, n);
    lemma_with_bit(t.config, HPET_TN_CFG_SETVAL_SHIFT, false, 6);
}

/// Value set is good for one write: of two successive writes into the comparator
/// of a periodic timer with value set, the comparator keeps the first value and
/// the period takes the second.
pub proof fn law_value_set_is_used_once(
    t: HPETTimer,
    first_state: HPETState,
    first: u64,
    first_now: u64,
    second_state: HPETState,
    second: u64,
    second_now: u64,
)
    requires
        t.periodic() && t.valset_enabled(),
    ensures
        ({
            let once = t.register_write(first_state, 0x008, first, 8, first_now).timer;
            let twice = once.register_write(second_state, 0x008, second, 8, second_now).timer;
            let narrow = t.mode_32bit();
            &&& twice.periodic() && twice.mode_32bit() == narrow
            &&& !once.valset_enabled() && !twice.valset_enabled()
            &&& !narrow ==> once.cmp == first && twice.cmp == first && twice.period == second
            &&& narrow ==> once.cmp == low_half(first) && twice.cmp == low_half(first)
                && twice.period == low_half(second)
        }),
{
    let once = t.register_write(first_state, 0x008, first, 8, first_now).timer;
    law_timer_comparator_write(t, first_state, 0x008, first, 8, first_now, 3);
    law_timer_comparator_write(t, first_state, 0x008, first, 8, first_now, 8);
    law_timer_comparator_write(once, second_state, 0x008, second, 8, second_now, 3);
    law_timer_comparator_write(once, second_state, 0x008, second, 8, second_now, 8);
    lemma_deposited_whole(t.cmp, first);
    lemma_deposited_whole(once.period, second);
}

/// A write into the FSB route changes the bits that it meets, and nothing else.
pub proof fn law_timer_fsb_route_write(
    t: HPETTimer,
    state: HPETState,
    addr: u64,
    value: u64,
    size: u32,
    now: u64,
)
    requires
        selects(addr, 0x010),
        0 < size <= u32::MAX / 8,
    ensures
        ({
            let e = t.register_write(state, addr, value, size, now);
            let fsb = e.timer.fsb;
            &&& is_written(t.fsb, fsb, field_start(addr), field_length(addr, size), value)
            &&& e.timer == HPETTimer { fsb, ..t }
            &&& e.int_status == state.int_status
            &&& e.actions.len() == 0
        }),
{
    lemma_is_written(t.fsb, field_start(addr), field_length(addr, size), value);
}

/// A timer has three registers, at 0x00, 0x08 and 0x10, of which each can be
/// read as a whole and by its high half. Other addresses read as zero, and
/// writing them does nothing.
pub proof fn law_timer_registers(
    t: HPETTimer,
    state: HPETState,
    addr: u64,
    value: u64,
    size: u32,
    now: u64,
)
    ensures
        t.register_read(0x00) == t.config && t.register_read(0x04) == high_half(t.config),
        t.register_read(0x08) == t.cmp && t.register_read(0x0c) == high_half(t.cmp),
        t.register_read(0x10) == t.fsb && t.register_read(0x14) == high_half(t.fsb),
        addr > 0x14 || addr % 4 != 0 ==> {
            let e = t.register_write(state, addr, value, size, now);
            &&& t.register_read(addr) == 0
            &&& e.timer == t
            &&& e.int_status == state.int_status
            &&& e.actions.len() == 0
        },
{
}

/// An expiration of a periodic timer with a period moves its match to the first
/// period that is not over, which its comparator then shows, and arms it for
/// that. One of a timer that was set for a wrap arms it for its match and clears
/// the wrap flag. Any other timer is done. No other register changes. Last, the
/// interrupt is set.
pub proof fn law_expiration(t: HPETTimer, state: HPETState, now: u64, post: HPETTimer)
    requires
        t.expires_to(state, now, post),
    ensures
        post.index == t.index && post.timer_created == t.timer_created,
        post.config == t.config && post.fsb == t.fsb && post.period == t.period,
        t.periodic() && t.period != 0 ==> {
            &&& is_first_due(t.cmp64, t.period, state.ticks_at(now), post.cmp64)
            &&& t.mode_32bit() ==> post.cmp == low_half(post.cmp64)
            &&& !t.mode_32bit() ==> post.cmp == post.cmp64
            &&& post.wrap_flag == t.wrap_flag
            &&& post.last == t.deadline(state, post.cmp64)
        },
        !(t.periodic() && t.period != 0) ==> {
            &&& post.cmp == t.cmp && post.cmp64 == t.cmp64 && post.wrap_flag == 0
            &&& t.wrap_flag != 0 ==> post.last == t.deadline(state, t.cmp64)
            &&& t.wrap_flag == 0 ==> post.last == t.last
        },
        (t.periodic() && t.period != 0) || t.wrap_flag != 0 ==> t.expiry_actions(state, post)
            == seq![Action::ArmTimer { index: t.index, expire_ns: post.last }] + t.irq_actions(
            state,
            true,
        ),
        !(t.periodic() && t.period != 0) && t.wrap_flag == 0 ==> t.expiry_actions(state, post)
            == t.irq_actions(state, true),
{
    assert(seq![] + t.irq_actions(state, true) =~= t.irq_actions(state, true));
}

} // verus!
