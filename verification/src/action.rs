//! What the block asks of its host, and what the host tells it of the time.

use crate::registers::HPET_MAX_TIMERS;
use crate::registers::HPET_NUM_IRQ_ROUTES;
use vstd::prelude::*;

verus! {

/// One thing that the host does for the block. A list of actions is carried
/// out in its order.
#[derive(Clone, Copy, Debug, PartialEq, Eq, Structural)]
pub enum Action {
    /// Raises interrupt line `line`.
    RaiseIrq { line: usize },
    /// Raises interrupt line `line` and lowers it again.
    PulseIrq { line: usize },
    /// Lowers interrupt line `line`.
    LowerIrq { line: usize },
    /// Sets interrupt line `line` to `level`.
    SetIrq { line: usize, level: bool },
    /// Sets the output that lets the PIT interrupt through.
    SetPitEnabled { level: bool },
    /// Stores `value` into memory at `addr`, as a little-endian word.
    StoreMessage { addr: u64, value: u32 },
    /// Creates the host timer of timer `index`, which calls `timer_handler`.
    CreateTimer { index: usize },
    /// Lets the host timer of timer `index` expire when the clock reads
    /// `expire_ns`.
    ArmTimer { index: usize, expire_ns: u64 },
    /// Stops the host timer of timer `index` without destroying it.
    DeleteTimer { index: usize },
    /// Tells the firmware where block `hpet_id` is and what it can do.
    UpdateFirmwareConfig { hpet_id: usize, block_id: u32, address: u64 },
    /// Warns that no interrupt routing capability was configured.
    WarnIntRouteCapUnset,
}

impl Action {
    /// An action that brings the interrupt of a timer to the guest.
    pub open spec fn is_timer_interrupt(self) -> bool {
        self is RaiseIrq || self is PulseIrq || self is StoreMessage
    }

    /// An action whose interrupt line and timer the block has.
    pub open spec fn in_range(self) -> bool {
        match self {
            Action::RaiseIrq { line } => line < HPET_NUM_IRQ_ROUTES,
            Action::PulseIrq { line } => line < HPET_NUM_IRQ_ROUTES,
            Action::LowerIrq { line } => line < HPET_NUM_IRQ_ROUTES,
            Action::SetIrq { line, .. } => line < HPET_NUM_IRQ_ROUTES,
            Action::CreateTimer { index } => index < HPET_MAX_TIMERS,
            Action::ArmTimer { index, .. } => index < HPET_MAX_TIMERS,
            Action::DeleteTimer { index } => index < HPET_MAX_TIMERS,
            _ => true,
        }
    }
}

/// What the virtual clock reads, in nanoseconds, while a register is written.
/// The clock may advance in the course of a write, so that each timer sees its
/// own reading when a write starts all of them.
#[derive(Clone, Copy, Debug, PartialEq, Eq)]
pub struct ClockReadings {
    /// The reading for the write itself, and for the timer that it selects.
    pub access: u64,
    /// The reading for each timer that the write starts.
    pub timers: [u64; HPET_MAX_TIMERS],
}

impl ClockReadings {
    /// A clock that reads `now` throughout.
    pub fn at(now: u64) -> (r: Self)
        ensures
            r.access == now,
            forall|i: int| 0 <= i < HPET_MAX_TIMERS ==> #[trigger] r.timers@[i] == now,
    {
        ClockReadings { access: now, timers: [now; HPET_MAX_TIMERS] }
    }
}

} // verus!
