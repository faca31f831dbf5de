//! The timer block.

use crate::access::field_length;
use crate::access::field_start;
use crate::access::is_selected;
use crate::access::read_half;
use crate::access::selects;
use crate::access::valid_size;
use crate::access::value_at;
use crate::access::written_field;
use crate::action::Action;
use crate::action::ClockReadings;
use crate::bits::activating_bit;
use crate::bits::bit;
use crate::bits::deactivating_bit;
use crate::bits::deposit;
use crate::bits::deposited;
use crate::bits::falls;
use crate::bits::hpet_fixup_reg;
use crate::bits::lemma_with_bit;
use crate::bits::low_half;
use crate::bits::masked_update;
use crate::bits::rises;
use crate::bits::valid_field;
use crate::bits::with_bit;
use crate::registers::HPET_CAP_CNT_CLK_PERIOD_SHIFT;
use crate::registers::HPET_CAP_COUNT_SIZE_CAP_SHIFT;
use crate::registers::HPET_CAP_LEG_RT_CAP_SHIFT;
use crate::registers::HPET_CAP_NUM_TIM_SHIFT;
use crate::registers::HPET_CAP_REG;
use crate::registers::HPET_CAP_REV_ID_SHIFT;
use crate::registers::HPET_CAP_REV_ID_VALUE;
use crate::registers::HPET_CAP_VENDER_ID_SHIFT;
use crate::registers::HPET_CAP_VENDER_ID_VALUE;
use crate::registers::HPET_CFG_ENABLE_SHIFT;
use crate::registers::HPET_CFG_LEG_RT_SHIFT;
use crate::registers::HPET_CFG_REG;
use crate::registers::HPET_CFG_WRITE_MASK;
use crate::registers::HPET_COUNTER_REG;
use crate::registers::HPET_FLAG_MSI_SUPPORT_SHIFT;
use crate::registers::HPET_INT_STATUS_REG;
use crate::registers::HPET_LEGACY_PIT_INT;
use crate::registers::HPET_MAX_TIMERS;
use crate::registers::HPET_MIN_TIMERS;
use crate::registers::HPET_TN_ADDR_MASK;
use crate::registers::HPET_TN_CFG_FSB_CAP_SHIFT;
use crate::registers::HPET_TN_CFG_INT_ROUTE_CAP_SHIFT;
use crate::registers::HPET_TN_CFG_PERIODIC_CAP_SHIFT;
use crate::registers::HPET_TN_CFG_SIZE_CAP_SHIFT;
use crate::registers::HPET_TN_FIRST_ADDR;
use crate::registers::HPET_TN_LAST_ADDR;
use crate::registers::HPET_TN_STRIDE;
use crate::registers::RTC_ISA_IRQ;
use crate::ticks::ns_to_ticks;
use crate::ticks::ticks_to_ns;
use crate::ticks::wrap64;
use crate::ticks::FS_PER_NS;
use crate::ticks::HPET_CLK_PERIOD;
use crate::timer::HPETTimer;
use vstd::prelude::*;

verus! {

/// HPET Event Timer Block Abstraction
#[derive(Clone, Debug, PartialEq, Eq)]
pub struct HPETState {
    // HPET block Registers: Memory-mapped, software visible registers
    /// General Capabilities and ID Register
    pub capability: u64,
    /// General Configuration Register
    pub config: u64,
    /// General Interrupt Status Register
    pub int_status: u64,
    /// Main Counter Value Register
    pub counter: u64,
    // Internal state
    /// Capabilities that the block supports.
    /// bit 0: MSI (or FSB) support.
    pub flags: u32,
    /// Offset of main counter relative to the virtual clock.
    pub hpet_offset: u64,
    pub hpet_offset_saved: bool,
    /// Last level of the RTC output.
    pub rtc_irq_level: u32,
    /// Interrupt Routing Capability.
    /// This field indicates to which interrupts in the I/O (x) APIC
    /// the timers' interrupt can be routed, and is encoded in the
    /// bits 32:63 of timer N's config register.
    pub int_route_cap: u32,
    /// HPET timer array managed by this timer block.
    pub timers: [HPETTimer; HPET_MAX_TIMERS],
    pub num_timers: usize,
    /// Instance id (HPET timer block ID).
    pub hpet_id: usize,
}

impl HPETState {
    /// A block that has been realized: its number of timers is in range, and
    /// each timer knows its place and has its host timer.
    pub open spec fn wf(self) -> bool {
        &&& HPET_MIN_TIMERS <= self.num_timers <= HPET_MAX_TIMERS
        &&& forall|i: int|
            0 <= i < HPET_MAX_TIMERS ==> (#[trigger] self.timers@[i]).index == i
                && self.timers@[i].timer_created
    }

    /// What every block keeps to: reserved bits of the configuration are zero,
    /// only timers have an interrupt status, and the timers' registers are in
    /// order.
    pub open spec fn canonical(self) -> bool {
        &&& self.config <= HPET_CFG_WRITE_MASK
        &&& self.int_status <= u32::MAX
        &&& forall|i: int| 0 <= i < HPET_MAX_TIMERS ==> (#[trigger] self.timers@[i]).canonical()
    }

    pub open spec fn msi_supported(self) -> bool {
        self.flags % 2 == 1
    }

    pub open spec fn legacy_mode(self) -> bool {
        bit(self.config, HPET_CFG_LEG_RT_SHIFT)
    }

    pub open spec fn hpet_enabled(self) -> bool {
        bit(self.config, HPET_CFG_ENABLE_SHIFT)
    }

    pub open spec fn int_active(self, index: usize) -> bool {
        bit(self.int_status, index)
    }

    /// The running main counter when the clock reads `now`.
    pub open spec fn ticks_at(self, now: u64) -> u64 {
        wrap64(now + self.hpet_offset) / HPET_CLK_PERIOD
    }

    /// What the clock reads when the running main counter reaches `tick`.
    pub open spec fn ns_at(self, tick: u64) -> u64 {
        wrap64(tick * HPET_CLK_PERIOD - self.hpet_offset)
    }

    /// What a timer's configuration register tells of the timer's abilities:
    /// it can be periodic and is 64 bits wide, it may deliver FSB interrupts,
    /// and it can be routed to the configured interrupts.
    pub open spec fn timer_capabilities(self) -> u64 {
        (0x30 + (if self.msi_supported() {
            0x8000int
        } else {
            0
        }) + self.int_route_cap * 0x1_0000_0000) as u64
    }

    /// The block with another interrupt status, and nothing else changed.
    pub open spec fn with_int_status(self, int_status: u64) -> HPETState {
        HPETState { int_status, ..self }
    }

    pub fn has_msi_flag(&self) -> (r: bool)
        ensures
            r == self.msi_supported(),
    {
        let flags: u32 = self.flags;
        assert((flags & (1u32 << 0usize) != 0) == (flags % 2 == 1)) by (bit_vector);
        self.flags & (1u32 << HPET_FLAG_MSI_SUPPORT_SHIFT) != 0
    }

    /// The configuration register of a timer that was reset.
    pub fn get_timer_capabilities(&self) -> (r: u64)
        ensures
            r == self.timer_capabilities(),
    {
        let cap: u32 = self.int_route_cap;
        assert((1u64 << 4usize) | (1u64 << 5usize) == 0x30u64 && 1u64 << 15usize == 0x8000u64
            && 0x30u64 | ((cap as u64) << 32usize) == 0x30 + cap * 0x1_0000_0000 && (0x30u64
            | 0x8000u64) | ((cap as u64) << 32usize) == 0x8030 + cap * 0x1_0000_0000)
            by (bit_vector);
        let mut config: u64 = (1u64 << HPET_TN_CFG_PERIODIC_CAP_SHIFT) | (1u64
            << HPET_TN_CFG_SIZE_CAP_SHIFT);
        if self.has_msi_flag() {
            config = config | (1u64 << HPET_TN_CFG_FSB_CAP_SHIFT);
        }
        // advertise availability of ioapic int
        config | ((self.int_route_cap as u64) << HPET_TN_CFG_INT_ROUTE_CAP_SHIFT)
    }

    pub fn is_legacy_mode(&self) -> (r: bool)
        ensures
            r == self.legacy_mode(),
    {
        self.config & (1u64 << HPET_CFG_LEG_RT_SHIFT) != 0
    }

    pub fn is_hpet_enabled(&self) -> (r: bool)
        ensures
            r == self.hpet_enabled(),
    {
        self.config & (1u64 << HPET_CFG_ENABLE_SHIFT) != 0
    }

    pub fn is_timer_int_active(&self, index: usize) -> (r: bool)
        requires
            index < 64,
        ensures
            r == self.int_active(index),
    {
        self.int_status & (1u64 << index) != 0
    }

    /// The running main counter when the clock reads `now`.
    pub fn get_ticks(&self, now: u64) -> (r: u64)
        ensures
            r == self.ticks_at(now),
    {
        ns_to_ticks(now.wrapping_add(self.hpet_offset))
    }

    /// What the clock reads when the running main counter reaches `tick`.
    pub fn get_ns(&self, tick: u64) -> (r: u64)
        ensures
            r == self.ns_at(tick),
    {
        ticks_to_ns(tick).wrapping_sub(self.hpet_offset)
    }

    /// Sets the interrupt status bit of timer `index` to `level`.
    pub fn update_int_status(&mut self, index: u32, level: bool)
        requires
            index < 64,
        ensures
            *final(self) == old(self).with_int_status(
                with_bit(old(self).int_status, index as usize, level),
            ),
    {
        let value: u64 = if level {
            1
        } else {
            0
        };
        proof {
            crate::bits::lemma_deposited_one_bit(self.int_status, index, level);
        }
        self.int_status = deposit(self.int_status, index, 1, value);
    }

    /// The configuration register after a write into a field of it.
    pub open spec fn written_config(self, start: u32, length: u32, value: u64) -> u64 {
        masked_update(
            deposited(self.config, start, length, value),
            self.config,
            HPET_CFG_WRITE_MASK,
        )
    }

    /// The actions of starting the first `n` timers of this block: an enabled
    /// interrupt that is pending is brought to the guest, and the timer is set.
    pub open spec fn start_actions(self, clock: ClockReadings, n: int) -> Seq<Action>
        decreases n,
    {
        if n <= 0 {
            seq![]
        } else {
            let t = self.timers@[n - 1];
            self.start_actions(clock, n - 1) + (if t.int_enabled() && self.int_active(t.index) {
                t.irq_actions(self, true)
            } else {
                seq![]
            }) + seq![t.timer_set(self, clock.timers@[n - 1]).arm_action()]
        }
    }

    /// Whether the interrupt of timer `i` is active after the timers of this
    /// block were started. Bringing it to the guest leaves it active only if
    /// it is level-triggered.
    pub open spec fn active_after_start(self, i: usize) -> bool {
        let t = self.timers@[i as int];
        self.int_active(i) && (i < self.num_timers && t.int_enabled() ==> t.level_triggered())
    }

    /// The actions of stopping the first `n` timers of this block.
    pub open spec fn stop_actions(self, n: int) -> Seq<Action>
        decreases n,
    {
        if n <= 0 {
            seq![]
        } else {
            self.stop_actions(n - 1) + self.timers@[n - 1].stopped(self).actions
        }
    }

    /// Whether the interrupt of timer `i` is active after the timers of this
    /// block were stopped.
    pub open spec fn active_after_stop(self, i: usize) -> bool {
        self.int_active(i) && (i < self.num_timers ==> self.timers@[i as int].level_triggered())
    }

    /// The actions of a change of the configuration from `old_config` to
    /// `config`, as far as legacy replacement goes: the PIT and RTC outputs are
    /// disabled while it is on, and get through again when it is off.
    pub open spec fn legacy_actions(self, old_config: u64, config: u64) -> Seq<Action> {
        if rises(old_config, config, HPET_CFG_LEG_RT_SHIFT) {
            seq![
                Action::SetPitEnabled { level: false },
                Action::LowerIrq { line: 0 },
                Action::LowerIrq { line: RTC_ISA_IRQ },
            ]
        } else if falls(old_config, config, HPET_CFG_LEG_RT_SHIFT) {
            seq![
                Action::LowerIrq { line: 0 },
                Action::SetPitEnabled { level: true },
                Action::SetIrq { line: RTC_ISA_IRQ, level: self.rtc_irq_level != 0 },
            ]
        } else {
            seq![]
        }
    }

    /// The block as it is enabled by a configuration of `config` when the clock
    /// reads `now`: the main counter runs on from the value that it was halted
    /// at.
    pub open spec fn enabled_by(self, config: u64, now: u64) -> HPETState {
        HPETState { config, hpet_offset: wrap64(self.counter * HPET_CLK_PERIOD - now), ..self }
    }

    /// The block as it is disabled by a configuration of `config` when the
    /// clock reads `now`: the main counter halts at the value that it has
    /// reached.
    pub open spec fn disabled_by(self, config: u64, now: u64) -> HPETState {
        HPETState { config, counter: self.ticks_at(now), ..self }
    }

    /// A change of the configuration to `config` makes this block `post`.
    pub open spec fn config_change(
        self,
        config: u64,
        clock: ClockReadings,
        post: HPETState,
    ) -> bool {
        if rises(self.config, config, HPET_CFG_ENABLE_SHIFT) {
            self.enabled_by(config, clock.access).started_as(clock, post)
        } else if falls(self.config, config, HPET_CFG_ENABLE_SHIFT) {
            self.disabled_by(config, clock.access).stopped_as(post)
        } else {
            post == HPETState { config, ..self }
        }
    }

    /// The actions of a change of the configuration to `config`.
    pub open spec fn config_change_actions(
        self,
        config: u64,
        clock: ClockReadings,
    ) -> Seq<Action> {
        (if rises(self.config, config, HPET_CFG_ENABLE_SHIFT) {
            self.enabled_by(config, clock.access).start_actions(clock, self.num_timers as int)
        } else if falls(self.config, config, HPET_CFG_ENABLE_SHIFT) {
            self.disabled_by(config, clock.access).stop_actions(self.num_timers as int)
        } else {
            seq![]
        }) + self.legacy_actions(self.config, config)
    }

    /// Starting the timers of this block makes it `post`.
    pub open spec fn started_as(self, clock: ClockReadings, post: HPETState) -> bool {
        &&& post == HPETState { int_status: post.int_status, timers: post.timers, ..self }
        &&& forall|i: int|
            0 <= i < HPET_MAX_TIMERS ==> #[trigger] post.timers@[i] == (if i < self.num_timers {
                self.timers@[i].timer_set(self, clock.timers@[i])
            } else {
                self.timers@[i]
            })
        &&& forall|i: usize|
            i < 64 ==> #[trigger] bit(post.int_status, i) == self.active_after_start(i)
    }

    /// Stopping the timers of this block makes it `post`.
    pub open spec fn stopped_as(self, post: HPETState) -> bool {
        &&& post == HPETState { int_status: post.int_status, ..self }
        &&& forall|i: usize|
            i < 64 ==> #[trigger] bit(post.int_status, i) == self.active_after_stop(i)
    }

    /// General Configuration Register
    pub fn set_cfg_reg(
        &mut self,
        shift: u32,
        len: u32,
        val: u64,
        clock: &ClockReadings,
        out: &mut Vec<Action>,
    )
        requires
            old(self).wf(),
            valid_field(shift, len),
        ensures
            final(self).wf(),
            old(self).config_change(
                old(self).written_config(shift, len, val),
                *clock,
                *final(self),
            ),
            final(out)@ == old(out)@ + old(self).config_change_actions(
                old(self).written_config(shift, len, val),
                *clock,
            ),
    {
        let old_val: u64 = self.config;
        let mut new_val: u64 = deposit(old_val, shift, len, val);

        new_val = hpet_fixup_reg(new_val, old_val, HPET_CFG_WRITE_MASK);
        self.config = new_val;

        if activating_bit(old_val, new_val, HPET_CFG_ENABLE_SHIFT) {
            // Enable main counter and interrupt generation.
            self.hpet_offset = self.get_offset(clock.access);
            self.start_timers(clock, out);
        } else if deactivating_bit(old_val, new_val, HPET_CFG_ENABLE_SHIFT) {
            // Halt main counter and disable interrupt generation.
            self.counter = self.get_ticks(clock.access);
            self.stop_timers(out);
        }
        self.update_legacy_outputs(old_val, out);
    }

    /// The offset with which the main counter runs on from its value when the
    /// clock reads `now`.
    fn get_offset(&self, now: u64) -> (r: u64)
        ensures
            r == wrap64(self.counter * HPET_CLK_PERIOD - now),
    {
        ticks_to_ns(self.counter).wrapping_sub(now)
    }

    /// Disables the PIT and RTC outputs when legacy replacement is switched on,
    /// and enables them when it is switched off, by a change of the
    /// configuration from `old_val`.
    fn update_legacy_outputs(&self, old_val: u64, out: &mut Vec<Action>)
        ensures
            final(out)@ == old(out)@ + self.legacy_actions(old_val, self.config),
    {
        // i8254 and RTC output pins are disabled when HPET is in legacy mode
        if activating_bit(old_val, self.config, HPET_CFG_LEG_RT_SHIFT) {
            out.push(Action::SetPitEnabled { level: false });
            out.push(Action::LowerIrq { line: 0 });
            out.push(Action::LowerIrq { line: RTC_ISA_IRQ });
        } else if deactivating_bit(old_val, self.config, HPET_CFG_LEG_RT_SHIFT) {
            out.push(Action::LowerIrq { line: 0 });
            out.push(Action::SetPitEnabled { level: true });
            out.push(Action::SetIrq { line: RTC_ISA_IRQ, level: self.rtc_irq_level != 0 });
        }
    }

    /// Starts the timers of a block whose main counter has begun to run.
    fn start_timers(&mut self, clock: &ClockReadings, out: &mut Vec<Action>)
        requires
            old(self).wf(),
        ensures
            final(self).wf(),
            old(self).started_as(*clock, *final(self)),
            final(out)@ == old(out)@ + old(self).start_actions(
                *clock,
                old(self).num_timers as int,
            ),
    {
        let ghost pre = *self;
        let mut i: usize = 0;
        while i < self.num_timers
            invariant
                pre == *old(self),
                pre.wf(),
                i <= pre.num_timers,
                *self == (HPETState { int_status: self.int_status, timers: self.timers, ..pre }),
                forall|j: int|
                    0 <= j < HPET_MAX_TIMERS ==> #[trigger] self.timers@[j] == (if j < i {
                        pre.timers@[j].timer_set(pre, clock.timers@[j])
                    } else {
                        pre.timers@[j]
                    }),
                forall|j: usize|
                    j < 64 ==> #[trigger] bit(self.int_status, j) == (if j < i {
                        pre.active_after_start(j)
                    } else {
                        pre.int_active(j)
                    }),
                out@ == old(out)@ + pre.start_actions(*clock, i as int),
            decreases pre.num_timers - i,
        {
            let mut t: HPETTimer = self.timers[i];
            let ghost before = self.int_status;
            if t.is_int_enabled() && t.is_int_active(self) {
                t.update_irq(self, true, out);
                proof {
                    assert forall|j: usize| j < 64 implies #[trigger] bit(self.int_status, j) == (
                    if j == i {
                        t.level_triggered()
                    } else {
                        bit(before, j)
                    }) by {
                        lemma_with_bit(before, i, t.level_triggered(), j);
                    }
                }
            }
            t.set_timer(self, clock.timers[i], out);
            self.timers[i] = t;
            i = i + 1;
        }
    }

    /// Stops the timers of the block.
    fn stop_timers(&mut self, out: &mut Vec<Action>)
        requires
            old(self).wf(),
        ensures
            final(self).wf(),
            old(self).stopped_as(*final(self)),
            final(out)@ == old(out)@ + old(self).stop_actions(old(self).num_timers as int),
    {
        let ghost pre = *self;
        let mut i: usize = 0;
        while i < self.num_timers
            invariant
                pre == *old(self),
                pre.wf(),
                i <= pre.num_timers,
                *self == (HPETState { int_status: self.int_status, ..pre }),
                forall|j: usize|
                    j < 64 ==> #[trigger] bit(self.int_status, j) == (if j < i {
                        pre.active_after_stop(j)
                    } else {
                        pre.int_active(j)
                    }),
                out@ == old(out)@ + pre.stop_actions(i as int),
            decreases pre.num_timers - i,
        {
            let t: HPETTimer = self.timers[i];
            let ghost before = self.int_status;
            t.del_timer(self, out);
            proof {
                assert forall|j: usize| j < 64 implies #[trigger] bit(self.int_status, j) == (if j
                    == i {
                    pre.active_after_stop(i)
                } else {
                    bit(before, j)
                }) by {
                    lemma_with_bit(before, i, t.level_triggered(), j);
                }
            }
            i = i + 1;
        }
    }

    /// The actions of taking back the interrupts of those of the first `n`
    /// timers of this block whose bit in `cleared` is set.
    pub open spec fn clear_actions(self, cleared: u64, n: int) -> Seq<Action>
        decreases n,
    {
        if n <= 0 {
            seq![]
        } else {
            let t = self.timers@[n - 1];
            self.clear_actions(cleared, n - 1) + (if bit(cleared, t.index) {
                t.irq_actions(self, false)
            } else {
                seq![]
            })
        }
    }

    /// A write of `written` into the interrupt status register makes this block
    /// `post`: ones clear the bits of the timers, zeros leave them.
    pub open spec fn status_cleared_as(self, written: u64, post: HPETState) -> bool {
        &&& post == HPETState { int_status: post.int_status, ..self }
        &&& forall|i: usize|
            i < 64 ==> #[trigger] bit(post.int_status, i) == (self.int_active(i) && !(i
                < self.num_timers && bit(written, i)))
    }

    /// General Interrupt Status Register: Read/Write Clear
    pub fn set_int_status_reg(&mut self, shift: u32, _len: u32, val: u64, out: &mut Vec<Action>)
        requires
            old(self).wf(),
            shift < 64,
        ensures
            final(self).wf(),
            old(self).status_cleared_as(val << shift, *final(self)),
            final(out)@ == old(out)@ + old(self).clear_actions(
                (val << shift) & old(self).int_status,
                old(self).num_timers as int,
            ),
    {
        let new_val: u64 = val << shift;
        let cleared: u64 = new_val & self.int_status;
        let ghost pre = *self;
        let mut i: usize = 0;
        while i < self.num_timers
            invariant
                pre == *old(self),
                pre.wf(),
                i <= pre.num_timers,
                cleared == new_val & pre.int_status,
                *self == (HPETState { int_status: self.int_status, ..pre }),
                forall|j: usize|
                    j < 64 ==> #[trigger] bit(self.int_status, j) == (pre.int_active(j) && !(j < i
                        && bit(new_val, j))),
                out@ == old(out)@ + pre.clear_actions(cleared, i as int),
            decreases pre.num_timers - i,
        {
            let ghost status = pre.int_status;
            assert(bit(cleared, i) == (bit(new_val, i) && bit(status, i))) by (bit_vector)
                requires
                    cleared == new_val & status,
                    i < 64,
            ;
            if cleared & (1u64 << i) != 0 {
                let t: HPETTimer = self.timers[i];
                let ghost before = self.int_status;
                t.update_irq(self, false, out);
                proof {
                    assert forall|j: usize| j < 64 implies #[trigger] bit(self.int_status, j) == (j
                        != i && bit(before, j)) by {
                        lemma_with_bit(before, i, false, j);
                    }
                }
            }
            i = i + 1;
        }
    }

    /// Main Counter Value Register
    ///
    /// Writes to this register should only be done while the counter is
    /// halted. There's no need to forbid others, but when the block is enabled,
    /// the changed counter value will not affect the tick count (i.e., the
    /// previously calculated offset will not be changed as well).
    pub fn set_counter_reg(&mut self, shift: u32, len: u32, val: u64)
        requires
            valid_field(shift, len),
        ensures
            *final(self) == (HPETState {
                counter: deposited(old(self).counter, shift, len, val),
                ..*old(self)
            }),
    {
        self.counter = deposit(self.counter, shift, len, val);
    }

    /// This block is as it was configured, and all its registers are zero.
    pub open spec fn is_new(
        self,
        num_timers: usize,
        flags: u32,
        int_route_cap: u32,
        hpet_offset_saved: bool,
    ) -> bool {
        &&& self == HPETState {
            capability: 0,
            config: 0,
            int_status: 0,
            counter: 0,
            flags,
            hpet_offset: 0,
            hpet_offset_saved,
            rtc_irq_level: 0,
            int_route_cap,
            timers: self.timers,
            num_timers,
            hpet_id: 0,
        }
        &&& forall|i: int|
            0 <= i < HPET_MAX_TIMERS ==> #[trigger] self.timers@[i] == HPETTimer::fresh(0)
    }

    /// A block as it was configured, before it is realized.
    pub fn new(
        num_timers: usize,
        flags: u32,
        int_route_cap: u32,
        hpet_offset_saved: bool,
    ) -> (r: Self)
        ensures
            r.is_new(num_timers, flags, int_route_cap, hpet_offset_saved),
    {
        let timer: HPETTimer = HPETTimer::default();
        HPETState {
            capability: 0,
            config: 0,
            int_status: 0,
            counter: 0,
            flags,
            hpet_offset: 0,
            hpet_offset_saved,
            rtc_irq_level: 0,
            int_route_cap,
            timers: [timer; HPET_MAX_TIMERS],
            num_timers,
            hpet_id: 0,
        }
    }

    /// The actions of creating the host timers of the first `n` timers.
    pub open spec fn create_actions(n: int) -> Seq<Action> {
        Seq::new(n as nat, |i: int| Action::CreateTimer { index: i as usize })
    }

    /// A timer that was just given its place and its host timer.
    pub open spec fn initial_timer(index: usize) -> HPETTimer {
        HPETTimer { timer_created: true, ..HPETTimer::fresh(index) }
    }

    /// Gives every timer its place in the block and its host timer.
    pub fn init_timer(&mut self, out: &mut Vec<Action>)
        ensures
            *final(self) == (HPETState { timers: final(self).timers, ..*old(self) }),
            forall|i: int|
                0 <= i < HPET_MAX_TIMERS ==> #[trigger] final(self).timers@[i]
                    == HPETState::initial_timer(i as usize),
            final(out)@ == old(out)@ + HPETState::create_actions(HPET_MAX_TIMERS as int),
    {
        let mut index: usize = 0;
        while index < HPET_MAX_TIMERS
            invariant
                index <= HPET_MAX_TIMERS,
                *self == (HPETState { timers: self.timers, ..*old(self) }),
                forall|i: int|
                    0 <= i < index ==> #[trigger] self.timers@[i] == HPETState::initial_timer(
                        i as usize,
                    ),
                out@ == old(out)@ + HPETState::create_actions(index as int),
            decreases HPET_MAX_TIMERS - index,
        {
            let mut t: HPETTimer = self.timers[index];
            t.init(index).init_timer_with_state(out);
            self.timers[index] = t;
            index = index + 1;
        }
    }

    /// `num_timers` brought into the range that a block can have.
    pub open spec fn clamped_timers(num_timers: usize) -> usize {
        if num_timers < HPET_MIN_TIMERS {
            HPET_MIN_TIMERS
        } else if num_timers > HPET_MAX_TIMERS {
            HPET_MAX_TIMERS
        } else {
            num_timers
        }
    }

    /// The capability register of a block with `num_timers` timers: revision,
    /// index of the last timer, 64-bit counter, legacy replacement, vendor, and
    /// length of a tick in femtoseconds.
    pub open spec fn block_capabilities(num_timers: usize) -> u64 {
        (HPET_CAP_REV_ID_VALUE + (num_timers - 1) * 0x100 + 0x2000 + 0x8000
            + HPET_CAP_VENDER_ID_VALUE * 0x1_0000 + HPET_CLK_PERIOD * FS_PER_NS
            * 0x1_0000_0000) as u64
    }

    /// The capability register of a block with `num_timers` timers.
    fn get_block_capabilities(num_timers: usize) -> (r: u64)
        requires
            HPET_MIN_TIMERS <= num_timers <= HPET_MAX_TIMERS,
        ensures
            r == HPETState::block_capabilities(num_timers),
    {
        let last: u64 = (num_timers - 1) as u64;
        assert((0x1u64 << 0usize | 1u64 << 13usize | 1u64 << 15usize | 0x8086u64 << 16usize | last
            << 8usize | 10_000_000u64 << 32usize) == 0x1 + last * 0x100 + 0x2000 + 0x8000 + 0x8086
            * 0x1_0000 + 10_000_000 * 0x1_0000_0000) by (bit_vector)
            requires
                last < 32,
        ;
        HPET_CAP_REV_ID_VALUE << HPET_CAP_REV_ID_SHIFT | 1u64 << HPET_CAP_COUNT_SIZE_CAP_SHIFT
            | 1u64 << HPET_CAP_LEG_RT_CAP_SHIFT | HPET_CAP_VENDER_ID_VALUE
            << HPET_CAP_VENDER_ID_SHIFT | last << HPET_CAP_NUM_TIM_SHIFT  // indicate the last timer
             | (HPET_CLK_PERIOD * FS_PER_NS) << HPET_CAP_CNT_CLK_PERIOD_SHIFT  // 10 ns
    }

    /// Realizing this block as block `hpet_id` of the machine makes it `post`.
    pub open spec fn realized_as(self, hpet_id: usize, post: HPETState) -> bool {
        let num_timers = HPETState::clamped_timers(self.num_timers);
        &&& post == HPETState {
            hpet_id,
            num_timers,
            capability: HPETState::block_capabilities(num_timers),
            timers: post.timers,
            ..self
        }
        &&& forall|i: int|
            0 <= i < HPET_MAX_TIMERS ==> #[trigger] post.timers@[i] == HPETState::initial_timer(
                i as usize,
            )
    }

    /// The actions of realizing this block: the host timers are created, after a
    /// warning if no interrupt routing capability was configured.
    pub open spec fn realize_actions(self) -> Seq<Action> {
        (if self.int_route_cap == 0 {
            seq![Action::WarnIntRouteCapUnset]
        } else {
            seq![]
        }) + HPETState::create_actions(HPET_MAX_TIMERS as int)
    }

    /// Makes the block ready for use, as block `hpet_id` of the machine.
    pub fn realize(&mut self, hpet_id: usize, out: &mut Vec<Action>)
        ensures
            final(self).wf(),
            old(self).realized_as(hpet_id, *final(self)),
            final(out)@ == old(out)@ + old(self).realize_actions(),
    {
        if self.int_route_cap == 0 {
            out.push(Action::WarnIntRouteCapUnset);
        }
        self.hpet_id = hpet_id;

        if self.num_timers < HPET_MIN_TIMERS {
            self.num_timers = HPET_MIN_TIMERS;
        } else if self.num_timers > HPET_MAX_TIMERS {
            self.num_timers = HPET_MAX_TIMERS;
        }
        self.init_timer(out);
        // 64-bit General Capabilities and ID Register; LegacyReplacementRoute.
        self.capability = HPETState::get_block_capabilities(self.num_timers);
    }

    /// A reset makes this block `post`.
    pub open spec fn reset_as(self, post: HPETState) -> bool {
        &&& post == HPETState {
            counter: 0,
            config: 0,
            hpet_offset: 0,
            rtc_irq_level: 0,
            int_status: post.int_status,
            timers: post.timers,
            ..self
        }
        &&& forall|i: int|
            0 <= i < HPET_MAX_TIMERS ==> #[trigger] post.timers@[i] == (if i < self.num_timers {
                self.timers@[i].reset_effect(self).timer
            } else {
                self.timers@[i]
            })
        &&& forall|i: usize|
            i < 64 ==> #[trigger] bit(post.int_status, i) == self.active_after_stop(i)
    }

    /// The actions of a reset of this block, whose registers start at `address`:
    /// the timers are stopped, the PIT gets through, and the firmware is told.
    pub open spec fn reset_actions(self, address: u64) -> Seq<Action> {
        self.stop_actions(self.num_timers as int) + seq![
            Action::SetPitEnabled { level: true },
            Action::UpdateFirmwareConfig {
                hpet_id: self.hpet_id,
                block_id: low_half(self.capability) as u32,
                address,
            },
        ]
    }

    /// Resets the block, whose registers start at `address`.
    pub fn reset_hold(&mut self, address: u64, out: &mut Vec<Action>)
        requires
            old(self).wf(),
        ensures
            final(self).wf(),
            old(self).reset_as(*final(self)),
            final(out)@ == old(out)@ + old(self).reset_actions(address),
    {
        let ghost pre = *self;
        let mut i: usize = 0;
        while i < self.num_timers
            invariant
                pre == *old(self),
                pre.wf(),
                i <= pre.num_timers,
                *self == (HPETState { int_status: self.int_status, timers: self.timers, ..pre }),
                forall|j: int|
                    0 <= j < HPET_MAX_TIMERS ==> #[trigger] self.timers@[j] == (if j < i {
                        pre.timers@[j].reset_effect(pre).timer
                    } else {
                        pre.timers@[j]
                    }),
                forall|j: usize|
                    j < 64 ==> #[trigger] bit(self.int_status, j) == (if j < i {
                        pre.active_after_stop(j)
                    } else {
                        pre.int_active(j)
                    }),
                out@ == old(out)@ + pre.stop_actions(i as int),
            decreases pre.num_timers - i,
        {
            let mut t: HPETTimer = self.timers[i];
            let ghost before = self.int_status;
            t.reset(self, out);
            self.timers[i] = t;
            proof {
                assert forall|j: usize| j < 64 implies #[trigger] bit(self.int_status, j) == (if j
                    == i {
                    pre.active_after_stop(i)
                } else {
                    bit(before, j)
                }) by {
                    lemma_with_bit(before, i, pre.timers@[i as int].level_triggered(), j);
                }
            }
            i = i + 1;
        }
        self.counter = 0;
        self.config = 0;
        out.push(Action::SetPitEnabled { level: true });
        self.hpet_offset = 0;

        let capability: u64 = self.capability;
        assert(capability as u32 == (capability % 0x1_0000_0000u64) as u32) by (bit_vector);
        out.push(
            Action::UpdateFirmwareConfig {
                hpet_id: self.hpet_id,
                block_id: capability as u32,
                address,
            },
        );
        // to document that the RTC lowers its output on reset as well
        self.rtc_irq_level = 0;
    }

    /// The block after interrupt input `irq` changed to `level`: the level of
    /// the RTC output is remembered.
    pub open spec fn legacy_irq(self, irq: u32, level: u32) -> HPETState {
        if irq == HPET_LEGACY_PIT_INT {
            self
        } else {
            HPETState { rtc_irq_level: level, ..self }
        }
    }

    /// The actions of a change of interrupt input `irq` to `level`: unless
    /// legacy replacement is on, it is passed on to its interrupt line.
    pub open spec fn legacy_irq_actions(self, irq: u32, level: u32) -> Seq<Action> {
        if self.legacy_mode() {
            seq![]
        } else if irq == HPET_LEGACY_PIT_INT {
            seq![Action::SetIrq { line: 0, level: level != 0 }]
        } else {
            seq![Action::SetIrq { line: RTC_ISA_IRQ, level: level != 0 }]
        }
    }

    /// Passes an interrupt input on. The inputs carry the PIT and RTC outputs,
    /// which legacy replacement keeps from the guest; the level of the RTC
    /// output is remembered.
    pub fn handle_legacy_irq(&mut self, irq: u32, level: u32, out: &mut Vec<Action>)
        ensures
            *final(self) == old(self).legacy_irq(irq, level),
            final(out)@ == old(out)@ + old(self).legacy_irq_actions(irq, level),
    {
        if irq == HPET_LEGACY_PIT_INT {
            if !self.is_legacy_mode() {
                out.push(Action::SetIrq { line: 0, level: level != 0 });
            }
        } else {
            self.rtc_irq_level = level;
            if !self.is_legacy_mode() {
                out.push(Action::SetIrq { line: RTC_ISA_IRQ, level: level != 0 });
            }
        }
    }

    /// The timer that an address in the timer registers belongs to, and the
    /// offset within the timer's registers.
    pub open spec fn timer_at(self, addr: u64) -> Option<(usize, u64)> {
        let timer_id = (addr - HPET_TN_FIRST_ADDR) / HPET_TN_STRIDE as int;
        if timer_id > self.num_timers {
            None
        } else {
            Some((timer_id as usize, addr % HPET_TN_STRIDE))
        }
    }

    /// The timer that an address in the timer registers belongs to, and the
    /// offset within the timer's registers.
    pub fn timer_and_addr(&self, addr: u64) -> (r: Option<(usize, u64)>)
        requires
            HPET_TN_FIRST_ADDR <= addr,
            self.timer_at(addr) matches Some((timer_id, _)) ==> timer_id < HPET_MAX_TIMERS,
        ensures
            r == self.timer_at(addr),
    {
        let timer_id: u64 = (addr - HPET_TN_FIRST_ADDR) / HPET_TN_STRIDE;

        if timer_id > self.num_timers as u64 {
            None
        } else {
            // Keep the complete address so that HPETTimer's read and write could
            // detect the invalid access.
            assert(addr & 0x1f == addr % 0x20) by (bit_vector);
            Some((timer_id as usize, addr & HPET_TN_ADDR_MASK))
        }
    }

    /// The main counter when the clock reads `now`.
    pub open spec fn counter_at(self, now: u64) -> u64 {
        if self.hpet_enabled() {
            self.ticks_at(now)
        } else {
            self.counter
        }
    }

    /// An address of the timer registers.
    pub open spec fn is_timer_addr(addr: u64) -> bool {
        HPET_TN_FIRST_ADDR <= addr <= HPET_TN_LAST_ADDR
    }

    /// The expiration of timer `index` of this block, when the clock reads
    /// `now`, makes the block `post`.
    pub open spec fn expired_as(self, index: int, now: u64, post: HPETState) -> bool {
        let t = self.timers@[index];
        &&& post == HPETState {
            int_status: t.irq_status(self, true),
            timers: post.timers,
            ..self
        }
        &&& t.expires_to(self, now, post.timers@[index])
        &&& post.timers@ == self.timers@.update(index, post.timers@[index])
    }

    /// What a read at `addr` gives when the clock reads `now`.
    pub open spec fn register_read(self, addr: u64, now: u64) -> u64 {
        if HPETState::is_timer_addr(addr) {
            match self.timer_at(addr) {
                None => 0,
                Some((timer_id, tn_addr)) => self.timers@[timer_id as int].register_read(tn_addr),
            }
        } else if selects(addr, HPET_CAP_REG) {
            value_at(self.capability, addr)
        } else if selects(addr, HPET_CFG_REG) {
            value_at(self.config, addr)
        } else if selects(addr, HPET_COUNTER_REG) {
            value_at(self.counter_at(now), addr)
        } else if selects(addr, HPET_INT_STATUS_REG) {
            value_at(self.int_status, addr)
        } else {
            0
        }
    }

    /// Reads the register at `addr` when the clock reads `now`.
    pub fn read(&self, addr: u64, size: u32, now: u64) -> (r: u64)
        ensures
            r == self.register_read(addr, now),
    {
        // address range of all TN regs
        if HPET_TN_FIRST_ADDR <= addr && addr <= HPET_TN_LAST_ADDR {
            match self.timer_and_addr(addr) {
                None => 0,  // Reserved
                Some((timer_id, tn_addr)) => self.timers[timer_id].read(tn_addr, size),
            }
        } else if is_selected(addr, HPET_CAP_REG) {
            read_half(self.capability, addr)  // including the CNT_CLK_PERIOD field
        } else if is_selected(addr, HPET_CFG_REG) {
            read_half(self.config, addr)
        } else if is_selected(addr, HPET_COUNTER_REG) {
            let cur_tick: u64 = if self.is_hpet_enabled() {
                self.get_ticks(now)
            } else {
                self.counter
            };
            read_half(cur_tick, addr)
        } else if is_selected(addr, HPET_INT_STATUS_REG) {
            read_half(self.int_status, addr)
        } else {
            // Reserved.
            0
        }
    }

    /// A write of `size` bytes at `addr` makes this block `post`.
    pub open spec fn register_write(
        self,
        addr: u64,
        value: u64,
        size: u32,
        clock: ClockReadings,
        post: HPETState,
    ) -> bool {
        let start = field_start(addr);
        let length = field_length(addr, size);
        if HPETState::is_timer_addr(addr) {
            match self.timer_at(addr) {
                None => post == self,
                Some((timer_id, tn_addr)) => {
                    let effect = self.timers@[timer_id as int].register_write(
                        self,
                        tn_addr,
                        value,
                        size,
                        clock.access,
                    );
                    &&& post == HPETState {
                        int_status: effect.int_status,
                        timers: post.timers,
                        ..self
                    }
                    &&& post.timers@ == self.timers@.update(timer_id as int, effect.timer)
                },
            }
        } else if selects(addr, HPET_CFG_REG) {
            self.config_change(self.written_config(start, length, value), clock, post)
        } else if selects(addr, HPET_INT_STATUS_REG) {
            self.status_cleared_as(value << start, post)
        } else if selects(addr, HPET_COUNTER_REG) {
            post == HPETState { counter: deposited(self.counter, start, length, value), ..self }
        } else {
            post == self
        }
    }

    /// The actions of a write of `size` bytes at `addr`.
    pub open spec fn register_write_actions(
        self,
        addr: u64,
        value: u64,
        size: u32,
        clock: ClockReadings,
    ) -> Seq<Action> {
        let start = field_start(addr);
        let length = field_length(addr, size);
        if HPETState::is_timer_addr(addr) {
            match self.timer_at(addr) {
                None => seq![],
                Some((timer_id, tn_addr)) => self.timers@[timer_id as int].register_write(
                    self,
                    tn_addr,
                    value,
                    size,
                    clock.access,
                ).actions,
            }
        } else if selects(addr, HPET_CFG_REG) {
            self.config_change_actions(self.written_config(start, length, value), clock)
        } else if selects(addr, HPET_INT_STATUS_REG) {
            self.clear_actions((value << start) & self.int_status, self.num_timers as int)
        } else {
            seq![]
        }
    }

    /// Writes `size` bytes of the register at `addr`.
    pub fn write(
        &mut self,
        addr: u64,
        value: u64,
        size: u32,
        clock: &ClockReadings,
        out: &mut Vec<Action>,
    )
        requires
            old(self).wf(),
            valid_size(size),
        ensures
            final(self).wf(),
            old(self).register_write(addr, value, size, *clock, *final(self)),
            final(out)@ == old(out)@ + old(self).register_write_actions(addr, value, size, *clock),
    {
        let (shift, len): (u32, u32) = written_field(addr, size);

        if HPET_TN_FIRST_ADDR <= addr && addr <= HPET_TN_LAST_ADDR {
            match self.timer_and_addr(addr) {
                None => {},  // Reserved.
                Some((timer_id, tn_addr)) => {
                    let mut t: HPETTimer = self.timers[timer_id];
                    t.write(self, tn_addr, value, size, clock.access, out);
                    self.timers[timer_id] = t;
                },
            }
        } else if is_selected(addr, HPET_CFG_REG) {
            self.set_cfg_reg(shift, len, value, clock, out);
        } else if is_selected(addr, HPET_INT_STATUS_REG) {
            self.set_int_status_reg(shift, len, value, out);
        } else if is_selected(addr, HPET_COUNTER_REG) {
            self.set_counter_reg(shift, len, value);
        }
        // The General Capabilities and ID Register is read only, other
        // addresses are reserved.
    }
}

/// What the host timer of timer `index` calls when it expires.
pub fn timer_handler(state: &mut HPETState, index: usize, now: u64, out: &mut Vec<Action>)
    requires
        old(state).wf(),
        index < HPET_MAX_TIMERS,
    ensures
        final(state).wf(),
        old(state).expired_as(index as int, now, *final(state)),
        final(out)@ == old(out)@ + old(state).timers@[index as int].expiry_actions(
            *old(state),
            final(state).timers@[index as int],
        ),
{
    let mut t: HPETTimer = state.timers[index];
    t.callback(state, now, out);
    state.timers[index] = t;
}

} // verus!
