//! What each operation on the block does, said of its registers, of its timers
//! and of the actions.

use crate::access::field_length;
use crate::access::field_start;
use crate::access::selects;
use crate::action::Action;
use crate::action::ClockReadings;
use crate::bits::bit;
use crate::bits::deposited;
use crate::bits::high_half;
use crate::bits::lemma_bit_is_digit;
use crate::bits::lemma_deposited_bits;
use crate::bits::lemma_mask_bits;
use crate::bits::lemma_masked_update_bits;
use crate::bits::lemma_shifted_bits;
use crate::bits::lemma_with_bit;
use crate::bits::low_half;
use crate::registers::HPET_CFG_WRITE_MASK;
use crate::registers::HPET_MAX_TIMERS;
use crate::state::HPETState;
use crate::ticks::wrap64;
use crate::timer::HPETTimer;
use crate::timer_laws::is_set;
use crate::timer_laws::law_set_timer;
use crate::timer_laws::same_registers;
use crate::timer_laws::written_bit;
use vstd::arithmetic::power2::lemma2_to64;
use vstd::arithmetic::power2::pow2;
use vstd::prelude::*;

verus! {

/// Each setting of the block is the binary digit of its register that has the
/// setting's weight.
pub proof fn law_block_settings(state: HPETState, i: usize)
    requires
        i < 64,
    ensures
        state.hpet_enabled() == (state.config % 2 == 1),
        state.legacy_mode() == (state.config / 2 % 2 == 1),
        state.msi_supported() == (state.flags % 2 == 1),
        state.int_active(i) == (state.int_status as nat / pow2(i as nat) % 2 == 1),
{
    lemma2_to64();
    lemma_bit_is_digit(state.config, 0);
    lemma_bit_is_digit(state.config, 1);
    lemma_bit_is_digit(state.int_status, i);
}

/// The running counter shows the whole ticks of ten nanoseconds in the sum of
/// clock and offset, and a tick is turned into the reading of the clock at
/// which that sum is the tick's.
pub proof fn law_counter_and_clock(state: HPETState, now: u64, tick: u64)
    ensures
        state.ticks_at(now) * 10 <= wrap64(now + state.hpet_offset) < state.ticks_at(now) * 10 + 10,
        (state.ns_at(tick) + state.hpet_offset - tick * 10) % 0x1_0000_0000_0000_0000 == 0,
        state.counter_at(now) == (if state.hpet_enabled() {
            state.ticks_at(now)
        } else {
            state.counter
        }),
{
}

/// The registers of timer `i` start at 0x100 plus `i` times 0x20. The timers of
/// the block and the slot after the last of them answer, and no other.
pub proof fn law_timer_slots(state: HPETState, addr: u64, i: usize, tn_addr: u64)
    requires
        0x100 <= addr <= 0x3ff,
    ensures
        HPETState::is_timer_addr(addr),
        state.timer_at(addr) == Some((i, tn_addr)) <==> addr == 0x100 + 0x20 * i + tn_addr
            && tn_addr < 0x20 && i <= state.num_timers,
        state.timer_at(addr) is None <==> addr >= 0x120 + 0x20 * state.num_timers,
{
}

/// Every register reads as what it holds, as a whole and by its high half; the
/// counter reads as what it shows. A timer's registers are read from the timer.
pub proof fn law_reads(state: HPETState, addr: u64, now: u64)
    ensures
        state.register_read(0x000, now) == state.capability,
        state.register_read(0x004, now) == high_half(state.capability),
        state.register_read(0x010, now) == state.config,
        state.register_read(0x014, now) == high_half(state.config),
        state.register_read(0x020, now) == state.int_status,
        state.register_read(0x024, now) == high_half(state.int_status),
        state.register_read(0x0f0, now) == state.counter_at(now),
        state.register_read(0x0f4, now) == high_half(state.counter_at(now)),
        0x100 <= addr <= 0x3ff ==> state.register_read(addr, now) == (match state.timer_at(addr) {
            Some((i, tn_addr)) => state.timers@[i as int].register_read(tn_addr),
            None => 0,
        }),
        !(0x100 <= addr <= 0x3ff) && !selects(addr, 0x000) && !selects(addr, 0x010) && !selects(
            addr,
            0x020,
        ) && !selects(addr, 0x0f0) ==> state.register_read(addr, now) == 0,
{
}

/// All of a block that a guest cannot write is the same in `a` and `b`.
pub open spec fn same_block(a: HPETState, b: HPETState) -> bool {
    &&& a.capability == b.capability
    &&& a.flags == b.flags
    &&& a.hpet_offset_saved == b.hpet_offset_saved
    &&& a.rtc_irq_level == b.rtc_irq_level
    &&& a.int_route_cap == b.int_route_cap
    &&& a.num_timers == b.num_timers
    &&& a.hpet_id == b.hpet_id
}

/// A write into the registers of a timer goes to that timer, with the clock
/// reading of the access, and asks for what the timer asks for. No other timer,
/// no other register and no part of the counter changes.
pub proof fn law_timer_write(
    pre: HPETState,
    addr: u64,
    value: u64,
    size: u32,
    clock: ClockReadings,
    post: HPETState,
    i: usize,
    tn_addr: u64,
    j: int,
)
    requires
        0x100 <= addr <= 0x3ff,
        pre.timer_at(addr) == Some((i, tn_addr)),
        i < HPET_MAX_TIMERS,
        0 <= j < HPET_MAX_TIMERS,
        pre.register_write(addr, value, size, clock, post),
    ensures
        ({
            let e = pre.timers@[i as int].register_write(pre, tn_addr, value, size, clock.access);
            &&& post.timers@[i as int] == e.timer
            &&& j != i ==> post.timers@[j] == pre.timers@[j]
            &&& post.int_status == e.int_status
            &&& same_block(pre, post)
            &&& post.config == pre.config && post.counter == pre.counter && post.hpet_offset
                == pre.hpet_offset
            &&& pre.register_write_actions(addr, value, size, clock) == e.actions
        }),
{
}

/// A write into the general configuration changes the enable and the legacy
/// replacement bit, as far as it meets them, and no other bit. All else follows
/// from that change.
pub proof fn law_config_write(
    pre: HPETState,
    addr: u64,
    value: u64,
    size: u32,
    clock: ClockReadings,
    post: HPETState,
    n: usize,
)
    requires
        selects(addr, 0x010),
        0 < size <= u32::MAX / 8,
        n < 64,
        pre.register_write(addr, value, size, clock, post),
    ensures
        bit(post.config, n) == (if n <= 1 {
            written_bit(pre.config, field_start(addr), field_length(addr, size), value, n)
        } else {
            bit(pre.config, n)
        }),
        pre.config_change(post.config, clock, post),
        pre.register_write_actions(addr, value, size, clock) == pre.config_change_actions(
            post.config,
            clock,
        ),
{
    let start = field_start(addr);
    let length = field_length(addr, size);
    lemma_deposited_bits(pre.config, start, length, value, n);
    lemma_masked_update_bits(
        deposited(pre.config, start, length, value),
        pre.config,
        HPET_CFG_WRITE_MASK,
        n,
    );
    lemma_mask_bits(n);
}

/// A change of the configuration that neither enables nor disables the block
/// changes nothing else.
pub proof fn law_config_change_only(
    pre: HPETState,
    config: u64,
    clock: ClockReadings,
    post: HPETState,
)
    requires
        pre.hpet_enabled() == bit(config, 0),
        pre.config_change(config, clock, post),
    ensures
        post == (HPETState { config, ..pre }),
{
}

/// Enabling the block makes the counter show, at the reading of the access, the
/// value that it was halted at. Each timer of the block is set for the next
/// match of its comparator, by its own clock reading, and keeps its registers.
/// The pending interrupts that are brought to the guest, which are those that
/// are enabled, stay active if they are level-triggered. Nothing else changes.
pub proof fn law_enabling(
    pre: HPETState,
    config: u64,
    clock: ClockReadings,
    post: HPETState,
    i: int,
    n: usize,
)
    requires
        pre.num_timers <= HPET_MAX_TIMERS,
        !pre.hpet_enabled() && bit(config, 0),
        pre.config_change(config, clock, post),
        0 <= i < HPET_MAX_TIMERS,
        n < 64,
    ensures
        same_block(pre, post),
        post.config == config && post.counter == pre.counter,
        (post.hpet_offset + clock.access - pre.counter * 10) % 0x1_0000_0000_0000_0000 == 0,
        i >= pre.num_timers ==> post.timers@[i] == pre.timers@[i],
        i < pre.num_timers ==> same_registers(post.timers@[i], pre.timers@[i]) && is_set(
            post.timers@[i],
            pre.timers@[i].last,
            post,
            clock.timers@[i],
        ),
        post.int_active(n) == (pre.int_active(n) && !(n < pre.num_timers
            && pre.timers@[n as int].int_enabled() && !pre.timers@[n as int].level_triggered())),
{
    let running = pre.enabled_by(config, clock.access);
    if i < pre.num_timers {
        let before = pre.timers@[i];
        lemma_set_alike(before, running, post, clock.timers@[i]);
    }
    assert(post.int_active(n) == bit(post.int_status, n));
    assert(wrap64(pre.counter * 10 - clock.access) == running.hpet_offset);
}

/// A timer is set alike in two blocks whose counters run alike.
proof fn lemma_set_alike(t: HPETTimer, a: HPETState, b: HPETState, now: u64)
    requires
        a.hpet_offset == b.hpet_offset,
    ensures
        same_registers(t.timer_set(a, now), t),
        is_set(t.timer_set(a, now), t.last, b, now),
{
    law_set_timer(t, b, now);
    assert(a.ticks_at(now) == b.ticks_at(now));
    assert(forall|tick: u64| #[trigger] a.ns_at(tick) == b.ns_at(tick));
    assert(t.timer_set(a, now) == t.timer_set(b, now));
}

/// Disabling the block keeps in the counter register what the counter showed at
/// the reading of the access. Of the pending interrupts of the block's timers
/// those that are level-triggered stay active. Nothing else changes.
pub proof fn law_disabling(
    pre: HPETState,
    config: u64,
    clock: ClockReadings,
    post: HPETState,
    n: usize,
)
    requires
        pre.hpet_enabled() && !bit(config, 0),
        pre.config_change(config, clock, post),
        n < 64,
    ensures
        same_block(pre, post),
        post.config == config && post.hpet_offset == pre.hpet_offset,
        post.counter == pre.counter_at(clock.access),
        post.timers == pre.timers,
        post.int_active(n) == (pre.int_active(n) && !(n < pre.num_timers
            && !pre.timers@[n as int].level_triggered())),
{
    assert(post.int_active(n) == bit(post.int_status, n));
}

/// A change of the configuration first deals with the timers, if it enables or
/// disables the block, and then with the PIT and RTC outputs. Whatever happens
/// to the enable bit, three last actions disconnect the outputs when legacy
/// replacement is switched on, and three connect them when it is switched off.
pub proof fn law_legacy_switch(pre: HPETState, config: u64, clock: ClockReadings, post: HPETState)
    requires
        pre.config_change(config, clock, post),
    ensures
        ({
            let actions = pre.config_change_actions(config, clock);
            let timers = pre.timer_part(config, clock, post);
            let n = actions.len() as int;
            let to_legacy = !pre.legacy_mode() && post.legacy_mode();
            let from_legacy = pre.legacy_mode() && !post.legacy_mode();
            &&& n == timers.len() + (if to_legacy || from_legacy {
                3int
            } else {
                0
            })
            &&& actions.take(timers.len() as int) == timers
            &&& to_legacy ==> {
                &&& actions[n - 3] == (Action::SetPitEnabled { level: false })
                &&& actions[n - 2] == (Action::LowerIrq { line: 0 })
                &&& actions[n - 1] == (Action::LowerIrq { line: 8 })
            }
            &&& from_legacy ==> {
                &&& actions[n - 3] == (Action::LowerIrq { line: 0 })
                &&& actions[n - 2] == (Action::SetPitEnabled { level: true })
                &&& actions[n - 1] == (Action::SetIrq { line: 8, level: pre.rtc_irq_level != 0 })
            }
        }),
{
    let actions = pre.config_change_actions(config, clock);
    let timers = pre.timer_part(config, clock, post);
    assert(actions =~= timers + pre.legacy_actions(pre.config, config));
    assert(actions.take(timers.len() as int) =~= timers);
}

impl HPETState {
    /// The actions with which a change of the configuration to `config`, which
    /// makes this block `post`, deals with the timers: those of starting the
    /// timers of a block whose counter runs as that of `post`, or of stopping
    /// them in a block that is configured as `post`.
    pub open spec fn timer_part(
        self,
        config: u64,
        clock: ClockReadings,
        post: HPETState,
    ) -> Seq<Action> {
        if !self.hpet_enabled() && bit(config, 0) {
            HPETState { config, hpet_offset: post.hpet_offset, ..self }.start_actions(
                clock,
                self.num_timers as int,
            )
        } else if self.hpet_enabled() && !bit(config, 0) {
            HPETState { config, counter: post.counter, ..self }.stop_actions(
                self.num_timers as int,
            )
        } else {
            seq![]
        }
    }
}

/// Timers are started one after the other, from the first one on. Each brings
/// its interrupt to the guest if that is enabled and pending, and is armed for
/// the time that it is then set for.
pub proof fn law_start_in_order(state: HPETState, clock: ClockReadings, n: int)
    ensures
        state.start_actions(clock, 0) == Seq::<Action>::empty(),
        n > 0 ==> {
            let t = state.timers@[n - 1];
            let set = t.timer_set(state, clock.timers@[n - 1]);
            state.start_actions(clock, n) == state.start_actions(clock, n - 1) + (
            if t.int_enabled() && state.int_active(t.index) {
                t.irq_actions(state, true)
            } else {
                seq![]
            }) + seq![Action::ArmTimer { index: t.index, expire_ns: set.last }]
        },
{
}

/// Timers are stopped one after the other, from the first one on.
pub proof fn law_stop_in_order(state: HPETState, n: int)
    ensures
        state.stop_actions(0) == Seq::<Action>::empty(),
        n > 0 ==> state.stop_actions(n) == state.stop_actions(n - 1) + state.timers@[n
            - 1].stopped(state).actions,
{
}

/// The interrupts that are cleared are taken back one after the other, from the
/// first timer on.
pub proof fn law_clear_in_order(state: HPETState, cleared: u64, n: int)
    ensures
        state.clear_actions(cleared, 0) == Seq::<Action>::empty(),
        n > 0 ==> {
            let t = state.timers@[n - 1];
            state.clear_actions(cleared, n) == state.clear_actions(cleared, n - 1) + (if bit(
                cleared,
                t.index,
            ) {
                t.irq_actions(state, false)
            } else {
                seq![]
            })
        },
{
}

/// A write into the interrupt status clears the bits of the block's timers that
/// it meets with a one, and changes nothing else. Of each timer whose bit was
/// set and meets a one, the interrupt is taken back, as `cleared` says.
pub proof fn law_status_write(
    pre: HPETState,
    addr: u64,
    value: u64,
    size: u32,
    clock: ClockReadings,
    post: HPETState,
    n: usize,
) -> (cleared: u64)
    requires
        selects(addr, 0x020),
        n < 64,
        pre.register_write(addr, value, size, clock, post),
    ensures
        post == (HPETState { int_status: post.int_status, ..pre }),
        post.int_active(n) == (pre.int_active(n) && !(n < pre.num_timers && field_start(addr) <= n
            && bit(value, (n - field_start(addr)) as usize))),
        bit(cleared, n) == (pre.int_active(n) && field_start(addr) <= n && bit(
            value,
            (n - field_start(addr)) as usize,
        )),
        cleared == (value << field_start(addr)) & pre.int_status,
        pre.register_write_actions(addr, value, size, clock) == pre.clear_actions(
            cleared,
            pre.num_timers as int,
        ),
{
    let start = field_start(addr);
    let written = value << start;
    let status = pre.int_status;
    let cleared = written & status;
    lemma_shifted_bits(value, start, n);
    assert(bit(written & status, n) == (bit(written, n) && bit(status, n))) by (bit_vector)
        requires
            n < 64,
    ;
    assert(post.int_active(n) == bit(post.int_status, n));
    cleared
}

/// A write into the counter register changes the bits that it meets. Nothing
/// else of the block changes, and nothing is asked for.
pub proof fn law_counter_register_write(
    pre: HPETState,
    addr: u64,
    value: u64,
    size: u32,
    clock: ClockReadings,
    post: HPETState,
    n: usize,
)
    requires
        selects(addr, 0x0f0),
        0 < size <= u32::MAX / 8,
        n < 64,
        pre.register_write(addr, value, size, clock, post),
    ensures
        bit(post.counter, n) == written_bit(
            pre.counter,
            field_start(addr),
            field_length(addr, size),
            value,
            n,
        ),
        post == (HPETState { counter: post.counter, ..pre }),
        pre.register_write_actions(addr, value, size, clock).len() == 0,
{
    lemma_deposited_bits(pre.counter, field_start(addr), field_length(addr, size), value, n);
}

/// While legacy replacement is off, a change of an input sets exactly one line:
/// line 0 for the PIT, which is input 0, and line 8 for the RTC, to high if and
/// only if the level is not zero. While it is on, no line is set. The level of
/// the RTC is remembered either way, and nothing else changes.
pub proof fn law_legacy_inputs(state: HPETState, irq: u32, level: u32)
    ensures
        ({
            let actions = state.legacy_irq_actions(irq, level);
            &&& state.legacy_mode() ==> actions.len() == 0
            &&& !state.legacy_mode() ==> actions.len() == 1
            &&& !state.legacy_mode() ==> (actions[0] matches Action::SetIrq { line, level: high }
                && line == (if irq == 0 {
                0usize
            } else {
                8usize
            }) && high == (level != 0))
        }),
        state.legacy_irq(irq, level).rtc_irq_level == (if irq == 0 {
            state.rtc_irq_level
        } else {
            level
        }),
        state.legacy_irq(irq, level) == (HPETState {
            rtc_irq_level: state.legacy_irq(irq, level).rtc_irq_level,
            ..state
        }),
{
}

/// A new block is as it was configured, and everything else of it is zero.
pub proof fn law_new_block(
    state: HPETState,
    num_timers: usize,
    flags: u32,
    int_route_cap: u32,
    hpet_offset_saved: bool,
    i: int,
)
    requires
        state.is_new(num_timers, flags, int_route_cap, hpet_offset_saved),
        0 <= i < HPET_MAX_TIMERS,
    ensures
        state.num_timers == num_timers && state.flags == flags,
        state.int_route_cap == int_route_cap && state.hpet_offset_saved == hpet_offset_saved,
        state.capability == 0 && state.config == 0 && state.int_status == 0 && state.counter == 0,
        state.hpet_offset == 0 && state.rtc_irq_level == 0 && state.hpet_id == 0,
        is_blank(state.timers@[i]) && state.timers@[i].index == 0,
        !state.timers@[i].timer_created,
{
}

/// All registers of the timer are zero.
pub open spec fn is_blank(t: HPETTimer) -> bool {
    &&& t.config == 0 && t.cmp == 0 && t.fsb == 0
    &&& t.cmp64 == 0 && t.period == 0 && t.wrap_flag == 0 && t.last == 0
}

/// Realizing a block brings its number of timers to the nearest from 3 to 32,
/// gives it its id, and puts its abilities into the capability register. Each
/// of its 32 timers is blank and has its place, and a host timer is asked for
/// it, in order. A warning comes first if and only if no interrupt routing
/// capability was configured.
pub proof fn law_realize(pre: HPETState, hpet_id: usize, post: HPETState, i: int)
    requires
        pre.realized_as(hpet_id, post),
        0 <= i < 32,
    ensures
        3 <= post.num_timers <= 32,
        3 <= pre.num_timers <= 32 ==> post.num_timers == pre.num_timers,
        pre.num_timers < 3 ==> post.num_timers == 3,
        pre.num_timers > 32 ==> post.num_timers == 32,
        post.hpet_id == hpet_id,
        post.capability == HPETState::block_capabilities(post.num_timers),
        post.config == pre.config && post.int_status == pre.int_status && post.counter
            == pre.counter && post.hpet_offset == pre.hpet_offset,
        post.flags == pre.flags && post.hpet_offset_saved == pre.hpet_offset_saved
            && post.rtc_irq_level == pre.rtc_irq_level && post.int_route_cap == pre.int_route_cap,
        is_blank(post.timers@[i]) && post.timers@[i].index == i && post.timers@[i].timer_created,
        pre.int_route_cap != 0 ==> pre.realize_actions().len() == 32 && pre.realize_actions()[i]
            == (Action::CreateTimer { index: i as usize }),
        pre.int_route_cap == 0 ==> {
            &&& pre.realize_actions().len() == 33
            &&& pre.realize_actions()[0] is WarnIntRouteCapUnset
            &&& pre.realize_actions()[i + 1] == (Action::CreateTimer { index: i as usize })
        },
{
}

/// A reset clears the counter, the configuration, the offset and the level of
/// the RTC, and resets the timers of the block. Of their pending interrupts
/// those that are level-triggered stay active. Nothing else changes. The timers
/// are stopped, then the PIT gets through, and last the firmware is told the id
/// of the block, the low half of its capabilities and its address.
pub proof fn law_reset(pre: HPETState, post: HPETState, address: u64, i: int, n: usize)
    requires
        pre.reset_as(post),
        0 <= i < HPET_MAX_TIMERS,
        n < 64,
    ensures
        post.counter == 0 && post.config == 0 && post.hpet_offset == 0 && post.rtc_irq_level == 0,
        post.capability == pre.capability && post.flags == pre.flags && post.hpet_offset_saved
            == pre.hpet_offset_saved && post.int_route_cap == pre.int_route_cap && post.num_timers
            == pre.num_timers && post.hpet_id == pre.hpet_id,
        i < pre.num_timers ==> post.timers@[i] == pre.timers@[i].reset_effect(pre).timer,
        i >= pre.num_timers ==> post.timers@[i] == pre.timers@[i],
        post.int_active(n) == (pre.int_active(n) && !(n < pre.num_timers
            && !pre.timers@[n as int].level_triggered())),
        ({
            let actions = pre.reset_actions(address);
            let stops = pre.stop_actions(pre.num_timers as int);
            &&& actions.len() == stops.len() + 2
            &&& actions.take(stops.len() as int) == stops
            &&& actions[stops.len() as int] == (Action::SetPitEnabled { level: true })
            &&& actions.last() matches Action::UpdateFirmwareConfig { hpet_id, block_id, address: a }
                && hpet_id == pre.hpet_id && block_id == low_half(pre.capability) && a == address
        }),
{
    assert(post.int_active(n) == bit(post.int_status, n));
    let stops = pre.stop_actions(pre.num_timers as int);
    assert(pre.reset_actions(address).take(stops.len() as int) =~= stops);
}

/// The expiration of a timer changes that timer as it expires, makes its status
/// bit tell whether its interrupt is level-triggered, and changes nothing else
/// of the block.
pub proof fn law_block_expiration(
    pre: HPETState,
    index: usize,
    now: u64,
    post: HPETState,
    j: int,
    n: usize,
)
    requires
        pre.wf(),
        index < HPET_MAX_TIMERS,
        0 <= j < HPET_MAX_TIMERS,
        n < 64,
        pre.expired_as(index as int, now, post),
    ensures
        pre.timers@[index as int].expires_to(pre, now, post.timers@[index as int]),
        j != index ==> post.timers@[j] == pre.timers@[j],
        n == index ==> post.int_active(n) == pre.timers@[index as int].level_triggered(),
        n != index ==> post.int_active(n) == pre.int_active(n),
        same_block(pre, post),
        post.config == pre.config && post.counter == pre.counter && post.hpet_offset
            == pre.hpet_offset,
{
    let t = pre.timers@[index as int];
    lemma_with_bit(pre.int_status, index, t.level_triggered(), n);
}

} // verus!
