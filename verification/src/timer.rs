//! One timer of the block.

use crate::access::field_length;
use crate::access::field_start;
use crate::access::is_selected;
use crate::access::read_half;
use crate::access::selects;
use crate::access::valid_size;
use crate::access::value_at;
use crate::access::written_field;
use crate::action::Action;
use crate::bits::activating_bit;
use crate::bits::bit;
use crate::bits::deactivating_bit;
use crate::bits::deposit;
use crate::bits::deposited;
use crate::bits::falls;
use crate::bits::high_half;
use crate::bits::hpet_fixup_reg;
use crate::bits::low_half;
use crate::bits::masked_update;
use crate::bits::rises;
use crate::bits::truncate;
use crate::bits::valid_field;
use crate::bits::with_bit;
use crate::registers::HPET_MAX_TIMERS;
use crate::registers::HPET_NUM_IRQ_ROUTES;
use crate::registers::HPET_TN_CFG_32BIT_SHIFT;
use crate::registers::HPET_TN_CFG_FSB_ENABLE_SHIFT;
use crate::registers::HPET_TN_CFG_INT_ENABLE_SHIFT;
use crate::registers::HPET_TN_CFG_INT_ROUTE_MASK;
use crate::registers::HPET_TN_CFG_INT_ROUTE_SHIFT;
use crate::registers::HPET_TN_CFG_INT_TYPE_SHIFT;
use crate::registers::HPET_TN_CFG_PERIODIC_SHIFT;
use crate::registers::HPET_TN_CFG_REG;
use crate::registers::HPET_TN_CFG_SETVAL_SHIFT;
use crate::registers::HPET_TN_CFG_WRITE_MASK;
use crate::registers::HPET_TN_CMP_REG;
use crate::registers::HPET_TN_FSB_ROUTE_REG;
use crate::registers::RTC_ISA_IRQ;
use crate::state::HPETState;
use crate::ticks::catch_up;
use crate::ticks::hpet_next_wrap;
use crate::ticks::is_first_due;
use crate::ticks::next_wrap;
use crate::ticks::wrap64;
use vstd::prelude::*;

verus! {

/// Shortest time between two expirations of a periodic timer, in nanoseconds.
pub const MIN_PERIOD_NS: u64 = 1000;

/// HPET Timer Abstraction
#[derive(Clone, Copy, Debug, PartialEq, Eq)]
pub struct HPETTimer {
    /// Timer N index within the timer block (`HPETState`)
    pub index: usize,
    /// Whether the host has created the timer that this one runs on.
    pub timer_created: bool,
    // Memory-mapped, software visible timer registers
    /// Timer N Configuration and Capability Register
    pub config: u64,
    /// Timer N Comparator Value Register
    pub cmp: u64,
    /// Timer N FSB Interrupt Route Register
    pub fsb: u64,
    // Hidden register state
    /// Comparator (extended to counter width)
    pub cmp64: u64,
    /// Last value written to the comparator of the periodic timer
    pub period: u64,
    /// Timer pop will indicate wrap for one-shot 32-bit
    /// mode. Next pop will be actual timer expiration.
    pub wrap_flag: u8,
    /// Last value armed, to avoid timer storms
    pub last: u64,
}

impl HPETTimer {
    /// A timer that has its place in the block and its host timer.
    pub open spec fn wf(self) -> bool {
        self.index < HPET_MAX_TIMERS && self.timer_created
    }

    /// What every timer keeps to: in 32-bit mode the high halves of comparator
    /// and period are zero, and the wrap flag is a flag.
    pub open spec fn canonical(self) -> bool {
        &&& self.mode_32bit() ==> self.cmp <= u32::MAX && self.period <= u32::MAX
        &&& self.wrap_flag <= 1
    }

    pub open spec fn fsb_route_enabled(self) -> bool {
        bit(self.config, HPET_TN_CFG_FSB_ENABLE_SHIFT)
    }

    pub open spec fn periodic(self) -> bool {
        bit(self.config, HPET_TN_CFG_PERIODIC_SHIFT)
    }

    pub open spec fn int_enabled(self) -> bool {
        bit(self.config, HPET_TN_CFG_INT_ENABLE_SHIFT)
    }

    pub open spec fn mode_32bit(self) -> bool {
        bit(self.config, HPET_TN_CFG_32BIT_SHIFT)
    }

    pub open spec fn valset_enabled(self) -> bool {
        bit(self.config, HPET_TN_CFG_SETVAL_SHIFT)
    }

    pub open spec fn level_triggered(self) -> bool {
        bit(self.config, HPET_TN_CFG_INT_TYPE_SHIFT)
    }

    /// The interrupt line in the timer's own routing field, bits 9:13.
    pub open spec fn individual_route(self) -> int {
        self.config as int / 0x200 % 32
    }

    /// The interrupt line that the timer drives. With legacy replacement
    /// routing, timer 0 stands in for the PIT and timer 1 for the RTC.
    pub open spec fn int_route(self, state: HPETState) -> int {
        if state.legacy_mode() && self.index == 0 {
            0
        } else if state.legacy_mode() && self.index == 1 {
            RTC_ISA_IRQ as int
        } else {
            self.individual_route()
        }
    }

    /// The timer's interrupt is a message instead of a line. With legacy
    /// replacement routing, the FSB enable bits of timers 0 and 1 have no
    /// impact, any more than their individual routes have.
    pub open spec fn fsb_routed(self, state: HPETState) -> bool {
        self.fsb_route_enabled() && !(state.legacy_mode() && self.index <= 1)
    }

    /// The actions that bring the timer's interrupt to the guest, or take it
    /// back.
    pub open spec fn irq_actions(self, state: HPETState, set: bool) -> Seq<Action> {
        let line = self.int_route(state) as usize;
        if set && self.int_enabled() && state.hpet_enabled() {
            if self.fsb_routed(state) {
                seq![
                    Action::StoreMessage {
                        addr: high_half(self.fsb),
                        value: low_half(self.fsb) as u32,
                    },
                ]
            } else if self.level_triggered() {
                seq![Action::RaiseIrq { line }]
            } else {
                seq![Action::PulseIrq { line }]
            }
        } else if !self.fsb_routed(state) {
            seq![Action::LowerIrq { line }]
        } else {
            seq![]
        }
    }

    /// The interrupt status after the timer's interrupt was set or cleared:
    /// only a level-triggered interrupt leaves the timer's bit set.
    pub open spec fn irq_status(self, state: HPETState, set: bool) -> u64 {
        with_bit(state.int_status, self.index, set && self.level_triggered())
    }

    /// The next value of the main counter that matches `target`, either
    /// entirely or in its low 32 bits, depending on the timer's mode.
    pub open spec fn next_match(self, cur_tick: u64, target: u64) -> u64 {
        if self.mode_32bit() {
            let same_wrap = cur_tick - low_half(cur_tick) + low_half(target);
            if same_wrap < cur_tick {
                wrap64(same_wrap + 0x1_0000_0000)
            } else {
                wrap64(same_wrap)
            }
        } else {
            target
        }
    }

    /// When the clock reads this, a timer armed for `tick` expires. A periodic
    /// timer does not expire sooner than `MIN_PERIOD_NS` after it did before.
    pub open spec fn deadline(self, state: HPETState, tick: u64) -> u64 {
        let ns = state.ns_at(tick);
        if self.periodic() && wrap64(ns - self.last) < MIN_PERIOD_NS {
            wrap64(self.last + MIN_PERIOD_NS)
        } else {
            ns
        }
    }

    /// A one-shot 32-bit timer whose match lies past the next wrap of the low
    /// half of the counter expires at that wrap first.
    pub open spec fn wraps_first(self, cur_tick: u64) -> bool {
        &&& self.mode_32bit()
        &&& !self.periodic()
        &&& self.next_match(cur_tick, self.cmp) > next_wrap(cur_tick)
    }

    /// The timer after it was set when the clock read `now`.
    pub open spec fn timer_set(self, state: HPETState, now: u64) -> HPETTimer {
        let cur_tick = state.ticks_at(now);
        let next = self.next_match(cur_tick, self.cmp);
        if self.wraps_first(cur_tick) {
            HPETTimer {
                cmp64: next,
                wrap_flag: 1,
                last: self.deadline(state, next_wrap(cur_tick)),
                ..self
            }
        } else {
            HPETTimer { cmp64: next, wrap_flag: 0, last: self.deadline(state, next), ..self }
        }
    }

    /// The action that arms the host timer for the value last armed.
    pub open spec fn arm_action(self) -> Action {
        Action::ArmTimer { index: self.index, expire_ns: self.last }
    }

    /// A timer that knows its place and nothing else.
    pub open spec fn fresh(index: usize) -> HPETTimer {
        HPETTimer {
            index,
            timer_created: false,
            config: 0,
            cmp: 0,
            fsb: 0,
            cmp64: 0,
            period: 0,
            wrap_flag: 0,
            last: 0,
        }
    }
}

/// What an operation on a timer comes to.
pub struct TimerEffect {
    /// The timer after the operation.
    pub timer: HPETTimer,
    /// The interrupt status of the block after the operation.
    pub int_status: u64,
    /// The actions that the operation asks for.
    pub actions: Seq<Action>,
}

impl HPETTimer {
    /// Nothing happens.
    pub open spec fn unchanged(self, state: HPETState) -> TimerEffect {
        TimerEffect { timer: self, int_status: state.int_status, actions: seq![] }
    }

    /// The host timer stops. An interrupt that is still pending keeps its status
    /// bit if it is level-triggered, and its line is lowered, whether or not
    /// the block is enabled. Any other pending interrupt is driven once more.
    pub open spec fn stopped(self, state: HPETState) -> TimerEffect {
        let delete = seq![Action::DeleteTimer { index: self.index }];
        if state.int_active(self.index) {
            TimerEffect {
                timer: self,
                int_status: self.irq_status(state, true),
                actions: delete + self.irq_actions(state, !self.lowered_by_stop(state)),
            }
        } else {
            TimerEffect { timer: self, int_status: state.int_status, actions: delete }
        }
    }

    /// A timer with a line to lower when its level-triggered interrupt is still
    /// pending as it is stopped.
    pub open spec fn lowered_by_stop(self, state: HPETState) -> bool {
        self.level_triggered() && !self.fsb_routed(state)
    }

    /// The timer after a reset: it is stopped, its comparator is all ones, and
    /// its configuration only tells what it can do.
    pub open spec fn reset_effect(self, state: HPETState) -> TimerEffect {
        TimerEffect {
            timer: HPETTimer {
                cmp: u64::MAX,
                config: state.timer_capabilities(),
                period: 0,
                wrap_flag: 0,
                ..self
            },
            ..self.stopped(state)
        }
    }

    /// The configuration register after a write into a field of it.
    pub open spec fn written_config(self, start: u32, length: u32, value: u64) -> u64 {
        masked_update(
            deposited(self.config, start, length, value),
            self.config,
            HPET_TN_CFG_WRITE_MASK,
        )
    }

    /// A write into the configuration register. A timer that ceases to be
    /// level-triggered gives its interrupt back, as it was routed before the
    /// write; one whose interrupt gets enabled brings the one that is pending.
    /// A 32-bit timer loses the high halves of comparator and period. A running
    /// timer is set anew.
    pub open spec fn config_write(
        self,
        state: HPETState,
        start: u32,
        length: u32,
        value: u64,
        now: u64,
    ) -> TimerEffect {
        let config = self.written_config(start, length, value);
        let lowered = falls(self.config, config, HPET_TN_CFG_INT_TYPE_SHIFT);
        let raised = !lowered && rises(self.config, config, HPET_TN_CFG_INT_ENABLE_SHIFT)
            && state.int_active(self.index);
        let configured = HPETTimer { config, ..self };
        let narrowed = if configured.mode_32bit() {
            HPETTimer { cmp: low_half(self.cmp), period: low_half(self.period), ..configured }
        } else {
            configured
        };
        let timer = narrowed.restarted(state, now);
        TimerEffect {
            timer,
            int_status: if lowered {
                self.irq_status(state, false)
            } else if raised {
                configured.irq_status(state, true)
            } else {
                state.int_status
            },
            actions: (if lowered {
                self.irq_actions(state, false)
            } else if raised {
                configured.irq_actions(state, true)
            } else {
                seq![]
            }) + timer.restart_actions(state),
        }
    }

    /// A timer that is set anew in a block that is enabled.
    pub open spec fn restarted(self, state: HPETState, now: u64) -> HPETTimer {
        if state.hpet_enabled() {
            self.timer_set(state, now)
        } else {
            self
        }
    }

    /// The action of setting the timer anew, which made it this timer.
    pub open spec fn restart_actions(self, state: HPETState) -> Seq<Action> {
        if state.hpet_enabled() {
            seq![self.arm_action()]
        } else {
            seq![]
        }
    }

    /// A write into the comparator register. In 32-bit mode the high half of
    /// the register stays zero, and a write into it is ignored. The comparator
    /// of a periodic timer is only written if value set is enabled, but its
    /// period always is. A running timer is set anew.
    pub open spec fn comparator_write(
        self,
        state: HPETState,
        start: u32,
        length: u32,
        value: u64,
        now: u64,
    ) -> TimerEffect {
        if self.mode_32bit() && start != 0 {
            self.unchanged(state)
        } else {
            let timer = self.comparator_written(start, length, value).restarted(state, now);
            TimerEffect {
                timer,
                int_status: state.int_status,
                actions: timer.restart_actions(state),
            }
        }
    }

    /// The registers after a write into the comparator register that is not
    /// ignored.
    pub open spec fn comparator_written(self, start: u32, length: u32, value: u64) -> HPETTimer {
        HPETTimer {
            cmp: if !self.periodic() || self.valset_enabled() {
                self.comparator_merged(self.cmp, start, length, value)
            } else {
                self.cmp
            },
            period: if self.periodic() {
                self.comparator_merged(self.period, start, length, value)
            } else {
                self.period
            },
            config: with_bit(self.config, HPET_TN_CFG_SETVAL_SHIFT, false),
            ..self
        }
    }

    /// `word` after a write into the comparator register: in 32-bit mode the
    /// low half of the value, in 64-bit mode the value in its field.
    pub open spec fn comparator_merged(
        self,
        word: u64,
        start: u32,
        length: u32,
        value: u64,
    ) -> u64 {
        if self.mode_32bit() {
            low_half(value)
        } else {
            deposited(word, start, length, value)
        }
    }

    /// A write into the FSB route register.
    pub open spec fn fsb_route_write(
        self,
        state: HPETState,
        start: u32,
        length: u32,
        value: u64,
    ) -> TimerEffect {
        TimerEffect {
            timer: HPETTimer { fsb: deposited(self.fsb, start, length, value), ..self },
            int_status: state.int_status,
            actions: seq![],
        }
    }

    /// A write of `size` bytes at `addr`, an offset within the timer.
    pub open spec fn register_write(
        self,
        state: HPETState,
        addr: u64,
        value: u64,
        size: u32,
        now: u64,
    ) -> TimerEffect {
        let start = field_start(addr);
        let length = field_length(addr, size);
        if selects(addr, HPET_TN_CFG_REG) {
            self.config_write(state, start, length, value, now)
        } else if selects(addr, HPET_TN_CMP_REG) {
            self.comparator_write(state, start, length, value, now)
        } else if selects(addr, HPET_TN_FSB_ROUTE_REG) {
            self.fsb_route_write(state, start, length, value)
        } else {
            self.unchanged(state)
        }
    }

    /// What a read at `addr`, an offset within the timer, gives.
    pub open spec fn register_read(self, addr: u64) -> u64 {
        if selects(addr, HPET_TN_CFG_REG) {
            value_at(self.config, addr)
        } else if selects(addr, HPET_TN_CMP_REG) {
            value_at(self.cmp, addr)
        } else if selects(addr, HPET_TN_FSB_ROUTE_REG) {
            value_at(self.fsb, addr)
        } else {
            0
        }
    }

    /// An expiration when the clock reads `now` makes this timer `post`. A
    /// periodic timer is armed for the first of its periods that is not over
    /// yet; a one-shot timer that expired at a wrap is armed for its match.
    pub open spec fn expires_to(self, state: HPETState, now: u64, post: HPETTimer) -> bool {
        if self.periodic() && self.period != 0 {
            &&& is_first_due(self.cmp64, self.period, state.ticks_at(now), post.cmp64)
            &&& post == HPETTimer {
                cmp64: post.cmp64,
                cmp: if self.mode_32bit() {
                    low_half(post.cmp64)
                } else {
                    post.cmp64
                },
                last: self.deadline(state, post.cmp64),
                ..self
            }
        } else if self.wrap_flag != 0 {
            post == HPETTimer { wrap_flag: 0, last: self.deadline(state, self.cmp64), ..self }
        } else {
            post == self
        }
    }

    /// The actions of an expiration that makes this timer `post`: the timer is
    /// armed again if it is not done, and its interrupt is set.
    pub open spec fn expiry_actions(self, state: HPETState, post: HPETTimer) -> Seq<Action> {
        (if (self.periodic() && self.period != 0) || self.wrap_flag != 0 {
            seq![post.arm_action()]
        } else {
            seq![]
        }) + self.irq_actions(state, true)
    }
}

impl Default for HPETTimer {
    fn default() -> (r: Self)
        ensures
            r == HPETTimer::fresh(0),
    {
        HPETTimer {
            index: 0,
            timer_created: false,
            config: 0,
            cmp: 0,
            fsb: 0,
            cmp64: 0,
            period: 0,
            wrap_flag: 0,
            last: 0,
        }
    }
}

impl HPETTimer {
    /// Gives the timer its place in the block and clears everything else.
    pub fn init(&mut self, index: usize) -> (r: &mut Self)
        ensures
            *r == HPETTimer::fresh(index),
            *final(self) == *final(r),
    {
        *self = HPETTimer::default();
        self.index = index;
        self
    }

    /// Asks for the host timer that this timer runs on.
    pub fn init_timer_with_state(&mut self, out: &mut Vec<Action>)
        requires
            old(self).index < HPET_MAX_TIMERS,
        ensures
            *final(self) == (HPETTimer { timer_created: true, ..*old(self) }),
            final(out)@ == old(out)@.push(Action::CreateTimer { index: old(self).index }),
    {
        self.timer_created = true;
        out.push(Action::CreateTimer { index: self.index });
    }

    pub fn is_int_active(&self, state: &HPETState) -> (r: bool)
        requires
            self.index < 64,
        ensures
            r == state.int_active(self.index),
    {
        state.is_timer_int_active(self.index)
    }

    pub fn is_fsb_route_enabled(&self) -> (r: bool)
        ensures
            r == self.fsb_route_enabled(),
    {
        self.config & (1u64 << HPET_TN_CFG_FSB_ENABLE_SHIFT) != 0
    }

    pub fn is_periodic(&self) -> (r: bool)
        ensures
            r == self.periodic(),
    {
        self.config & (1u64 << HPET_TN_CFG_PERIODIC_SHIFT) != 0
    }

    pub fn is_int_enabled(&self) -> (r: bool)
        ensures
            r == self.int_enabled(),
    {
        self.config & (1u64 << HPET_TN_CFG_INT_ENABLE_SHIFT) != 0
    }

    pub fn is_32bit_mod(&self) -> (r: bool)
        ensures
            r == self.mode_32bit(),
    {
        self.config & (1u64 << HPET_TN_CFG_32BIT_SHIFT) != 0
    }

    pub fn is_valset_enabled(&self) -> (r: bool)
        ensures
            r == self.valset_enabled(),
    {
        self.config & (1u64 << HPET_TN_CFG_SETVAL_SHIFT) != 0
    }

    pub fn clear_valset(&mut self)
        ensures
            *final(self) == (HPETTimer {
                config: with_bit(old(self).config, HPET_TN_CFG_SETVAL_SHIFT, false),
                ..*old(self)
            }),
    {
        self.config = self.config & !(1u64 << HPET_TN_CFG_SETVAL_SHIFT);
    }

    /// True if timer interrupt is level triggered; otherwise, edge triggered.
    pub fn is_int_level_triggered(&self) -> (r: bool)
        ensures
            r == self.level_triggered(),
    {
        self.config & (1u64 << HPET_TN_CFG_INT_TYPE_SHIFT) != 0
    }

    /// Calculates the next value of the general counter that matches the
    /// target (either entirely, or the low 32-bit only depending on
    /// the timer mode).
    pub fn calculate_cmp64(&self, cur_tick: u64, target: u64) -> (r: u64)
        ensures
            r == self.next_match(cur_tick, target),
    {
        if self.is_32bit_mod() {
            proof {
                crate::bits::lemma_deposited_low_half(cur_tick, target);
            }
            let mut result: u64 = deposit(cur_tick, 0, 32, target);
            if result < cur_tick {
                result = result.wrapping_add(0x1_0000_0000);
            }
            result
        } else {
            target
        }
    }

    pub fn get_individual_route(&self) -> (r: usize)
        ensures
            r == self.individual_route(),
            r < HPET_NUM_IRQ_ROUTES,
    {
        let config: u64 = self.config;
        assert((config & 0x3e00) >> 9usize == config / 0x200 % 32) by (bit_vector);
        ((self.config & HPET_TN_CFG_INT_ROUTE_MASK) >> HPET_TN_CFG_INT_ROUTE_SHIFT) as usize
    }

    /// The interrupt line that the timer drives.
    pub fn get_int_route(&self, state: &HPETState) -> (r: usize)
        ensures
            r == self.int_route(*state),
            r < HPET_NUM_IRQ_ROUTES,
    {
        if self.index <= 1 && state.is_legacy_mode() {
            // If the LegacyReplacement Route bit is set, timer 0 is routed to
            // IRQ0 and timer 1 to IRQ8 (without an I/O APIC).
            //
            // If the LegacyReplacement Route bit is set, the individual routing
            // bits for timers 0 and 1 (APIC or FSB) will have no impact.
            if self.index == 0 {
                0
            } else {
                RTC_ISA_IRQ
            }
        } else {
            // (If the LegacyReplacement Route bit is set) Timer 2-n will be
            // routed as per the routing in the timer n config registers.
            // ...
            // If the LegacyReplacement Route bit is not set, the individual
            // routing bits for each of the timers are used.
            self.get_individual_route()
        }
    }

    /// Whether the timer's interrupt is a message instead of a line.
    pub fn is_fsb_routed(&self, state: &HPETState) -> (r: bool)
        ensures
            r == self.fsb_routed(*state),
    {
        self.is_fsb_route_enabled() && !(self.index <= 1 && state.is_legacy_mode())
    }

    /// Brings the timer's interrupt to the guest, or takes it back.
    pub fn set_irq(&self, state: &HPETState, set: bool, out: &mut Vec<Action>)
        ensures
            final(out)@ == old(out)@ + self.irq_actions(*state, set),
    {
        let route: usize = self.get_int_route(state);

        if set && self.is_int_enabled() && state.is_hpet_enabled() {
            if self.is_fsb_routed(state) {
                let fsb: u64 = self.fsb;
                assert(fsb >> 32u64 == fsb / 0x1_0000_0000u64) by (bit_vector);
                assert(fsb as u32 == (fsb % 0x1_0000_0000u64) as u32) by (bit_vector);
                out.push(
                    Action::StoreMessage {
                        addr: fsb >> 32u64,  // Timer N FSB int addr
                        value: fsb as u32,  // Timer N FSB int value, truncate!
                    },
                );
            } else if self.is_int_level_triggered() {
                out.push(Action::RaiseIrq { line: route });
            } else {
                out.push(Action::PulseIrq { line: route });
            }
        } else if !self.is_fsb_routed(state) {
            out.push(Action::LowerIrq { line: route });
        }
    }

    /// Sets or clears the timer's interrupt, in the status register and
    /// towards the guest.
    pub fn update_irq(&self, state: &mut HPETState, set: bool, out: &mut Vec<Action>)
        requires
            self.index < HPET_MAX_TIMERS,
        ensures
            *final(state) == old(state).with_int_status(self.irq_status(*old(state), set)),
            final(out)@ == old(out)@ + self.irq_actions(*old(state), set),
    {
        // If Timer N Interrupt Enable bit is 0, "the timer will
        // still operate and generate appropriate status bits, but
        // will not cause an interrupt"
        state.update_int_status(self.index as u32, set && self.is_int_level_triggered());
        self.set_irq(state, set, out);
    }

    /// Lets the host timer expire when the main counter reaches `tick`.
    pub fn arm_timer(&mut self, state: &HPETState, tick: u64, out: &mut Vec<Action>)
        requires
            old(self).timer_created,
        ensures
            *final(self) == (HPETTimer { last: old(self).deadline(*state, tick), ..*old(self) }),
            final(out)@ == old(out)@.push(final(self).arm_action()),
    {
        let mut ns: u64 = state.get_ns(tick);

        // Clamp period to reasonable min value (1 us)
        if self.is_periodic() && ns.wrapping_sub(self.last) < MIN_PERIOD_NS {
            ns = self.last.wrapping_add(MIN_PERIOD_NS);
        }
        self.last = ns;
        out.push(Action::ArmTimer { index: self.index, expire_ns: self.last });
    }

    /// Arms the timer for the next match of its comparator.
    pub fn set_timer(&mut self, state: &HPETState, now: u64, out: &mut Vec<Action>)
        requires
            old(self).timer_created,
        ensures
            *final(self) == old(self).timer_set(*state, now),
            final(out)@ == old(out)@.push(final(self).arm_action()),
    {
        let cur_tick: u64 = state.get_ticks(now);

        self.wrap_flag = 0;
        self.cmp64 = self.calculate_cmp64(cur_tick, self.cmp);
        if self.is_32bit_mod() {
            // In one-shot 32-bit mode, generate an interrupt when the
            // counter wraps in addition to an interrupt with comparator match.
            if !self.is_periodic() && self.cmp64 > hpet_next_wrap(cur_tick) {
                self.wrap_flag = 1;
                self.arm_timer(state, hpet_next_wrap(cur_tick), out);
                return ;
            }
        }
        let tick: u64 = self.cmp64;
        self.arm_timer(state, tick, out);
    }

    /// Stops the timer.
    pub fn del_timer(&self, state: &mut HPETState, out: &mut Vec<Action>)
        requires
            self.wf(),
        ensures
            *final(state) == old(state).with_int_status(self.stopped(*old(state)).int_status),
            final(out)@ == old(out)@ + self.stopped(*old(state)).actions,
    {
        // Just remove the timer from the timer list without destroying
        // this timer instance.
        out.push(Action::DeleteTimer { index: self.index });

        if self.is_int_active(state) {
            // For level-triggered interrupt, this leaves interrupt status
            // register set but lowers irq.
            let level: bool = self.is_int_level_triggered();
            let lowered: bool = level && !self.is_fsb_routed(state);
            state.update_int_status(self.index as u32, level);
            self.set_irq(state, !lowered, out);
        }
    }

    /// Configuration and Capability Register
    pub fn set_tn_cfg_reg(
        &mut self,
        state: &mut HPETState,
        shift: u32,
        len: u32,
        val: u64,
        now: u64,
        out: &mut Vec<Action>,
    )
        requires
            old(self).wf(),
            valid_field(shift, len),
        ensures
            *final(self) == old(self).config_write(*old(state), shift, len, val, now).timer,
            *final(state) == old(state).with_int_status(
                old(self).config_write(*old(state), shift, len, val, now).int_status,
            ),
            final(out)@ == old(out)@ + old(self).config_write(
                *old(state),
                shift,
                len,
                val,
                now,
            ).actions,
    {
        let old_val: u64 = self.config;
        let mut new_val: u64 = deposit(old_val, shift, len, val);
        new_val = hpet_fixup_reg(new_val, old_val, HPET_TN_CFG_WRITE_MASK);

        // Switch level-type interrupt to edge-type.
        if deactivating_bit(old_val, new_val, HPET_TN_CFG_INT_TYPE_SHIFT) {
            // Do this before changing timer.config; otherwise, if
            // HPET_TN_FSB is set, update_irq will not lower the irq.
            self.update_irq(state, false, out);
            proof {
                crate::bits::lemma_with_bit(old(state).int_status, self.index, false, self.index);
            }
        }
        self.config = new_val;

        if activating_bit(old_val, new_val, HPET_TN_CFG_INT_ENABLE_SHIFT) && self.is_int_active(
            state,
        ) {
            self.update_irq(state, true, out);
        }
        if self.is_32bit_mod() {
            self.cmp = truncate(self.cmp);
            self.period = truncate(self.period);
        }
        if state.is_hpet_enabled() {
            self.set_timer(state, now, out);
        }
    }

    /// Comparator Value Register
    pub fn set_tn_cmp_reg(
        &mut self,
        state: &HPETState,
        shift: u32,
        len: u32,
        val: u64,
        now: u64,
        out: &mut Vec<Action>,
    )
        requires
            old(self).wf(),
            valid_field(shift, len),
        ensures
            *final(self) == old(self).comparator_write(*state, shift, len, val, now).timer,
            final(out)@ == old(out)@ + old(self).comparator_write(
                *state,
                shift,
                len,
                val,
                now,
            ).actions,
    {
        let mut length: u32 = len;
        let mut value: u64 = val;

        if self.is_32bit_mod() {
            // High 32-bits are zero, leave them untouched.
            if shift != 0 {
                return ;
            }
            length = 64;
            value = truncate(value);
            proof {
                crate::bits::lemma_deposited_whole(self.cmp, value);
                crate::bits::lemma_deposited_whole(self.period, value);
            }
        }
        let periodic: bool = self.is_periodic();
        if !periodic || self.is_valset_enabled() {
            self.cmp = deposit(self.cmp, shift, length, value);
        }
        if periodic {
            self.period = deposit(self.period, shift, length, value);
        }
        self.clear_valset();
        if state.is_hpet_enabled() {
            self.set_timer(state, now, out);
        }
    }

    /// FSB Interrupt Route Register
    pub fn set_tn_fsb_route_reg(&mut self, shift: u32, len: u32, val: u64)
        requires
            valid_field(shift, len),
        ensures
            *final(self) == (HPETTimer {
                fsb: deposited(old(self).fsb, shift, len, val),
                ..*old(self)
            }),
    {
        self.fsb = deposit(self.fsb, shift, len, val);
    }

    /// Stops the timer and puts its registers back to what they start as.
    pub fn reset(&mut self, state: &mut HPETState, out: &mut Vec<Action>)
        requires
            old(self).wf(),
        ensures
            *final(self) == old(self).reset_effect(*old(state)).timer,
            *final(state) == old(state).with_int_status(
                old(self).reset_effect(*old(state)).int_status,
            ),
            final(out)@ == old(out)@ + old(self).reset_effect(*old(state)).actions,
    {
        self.del_timer(state, out);
        self.cmp = u64::MAX;  // Comparator Match Registers reset to all 1's.
        self.config = state.get_timer_capabilities();
        self.period = 0;
        self.wrap_flag = 0;
    }

    /// Timer expiration callback
    pub fn callback(&mut self, state: &mut HPETState, now: u64, out: &mut Vec<Action>)
        requires
            old(self).wf(),
        ensures
            old(self).expires_to(*old(state), now, *final(self)),
            *final(state) == old(state).with_int_status(old(self).irq_status(*old(state), true)),
            final(out)@ == old(out)@ + old(self).expiry_actions(*old(state), *final(self)),
    {
        let period: u64 = self.period;
        let cur_tick: u64 = state.get_ticks(now);

        if self.is_periodic() && period != 0 {
            let next: u64 = catch_up(self.cmp64, period, cur_tick);
            self.cmp64 = next;
            if self.is_32bit_mod() {
                self.cmp = truncate(next);
            } else {
                self.cmp = next;
            }
            self.arm_timer(state, next, out);
        } else if self.wrap_flag != 0 {
            self.wrap_flag = 0;
            let next: u64 = self.cmp64;
            self.arm_timer(state, next, out);
        }
        self.update_irq(state, true, out);
    }

    /// Reads the register at `addr`, an offset within the timer.
    pub fn read(&self, addr: u64, _size: u32) -> (r: u64)
        ensures
            r == self.register_read(addr),
    {
        if is_selected(addr, HPET_TN_CFG_REG) {
            read_half(self.config, addr)  // including interrupt capabilities
        } else if is_selected(addr, HPET_TN_CMP_REG) {
            read_half(self.cmp, addr)  // comparator register
        } else if is_selected(addr, HPET_TN_FSB_ROUTE_REG) {
            read_half(self.fsb, addr)
        } else {
            // Reserved.
            0
        }
    }

    /// Writes `size` bytes of the register at `addr`, an offset within the
    /// timer.
    pub fn write(
        &mut self,
        state: &mut HPETState,
        addr: u64,
        value: u64,
        size: u32,
        now: u64,
        out: &mut Vec<Action>,
    )
        requires
            old(self).wf(),
            valid_size(size),
        ensures
            *final(self) == old(self).register_write(*old(state), addr, value, size, now).timer,
            *final(state) == old(state).with_int_status(
                old(self).register_write(*old(state), addr, value, size, now).int_status,
            ),
            final(out)@ == old(out)@ + old(self).register_write(
                *old(state),
                addr,
                value,
                size,
                now,
            ).actions,
    {
        let (shift, len): (u32, u32) = written_field(addr, size);

        if is_selected(addr, HPET_TN_CFG_REG) {
            self.set_tn_cfg_reg(state, shift, len, value, now, out);
        } else if is_selected(addr, HPET_TN_CMP_REG) {
            self.set_tn_cmp_reg(state, shift, len, value, now, out);
        } else if is_selected(addr, HPET_TN_FSB_ROUTE_REG) {
            self.set_tn_fsb_route_reg(shift, len, value);
        }
        // Other addresses are reserved.
    }
}

} // verus!
