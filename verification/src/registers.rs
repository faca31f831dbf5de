//! Layout of the register space and of the registers in it.

use vstd::prelude::*;

verus! {

/// Register space for each timer block: 1024 bytes.
pub const HPET_REG_SPACE_LEN: u64 = 0x400;

/// Minimum recommended hardware implementation.
pub const HPET_MIN_TIMERS: usize = 3;

/// Maximum timers in each timer block.
pub const HPET_MAX_TIMERS: usize = 32;

/// Flag that says whether the block supports message interrupts (MSI, or FSB).
pub const HPET_FLAG_MSI_SUPPORT_SHIFT: usize = 0;

/// Interrupt lines that a timer can be routed to.
pub const HPET_NUM_IRQ_ROUTES: usize = 32;

/// Interrupt input that carries the PIT output; the RTC output is the other one.
pub const HPET_LEGACY_PIT_INT: u32 = 0;

/// Interrupt line of the RTC.
pub const RTC_ISA_IRQ: usize = 8;

/// General Capabilities and ID Register
pub const HPET_CAP_REG: u64 = 0x000;

/// Revision ID (bits 0:7). Revision 1 is implemented.
pub const HPET_CAP_REV_ID_VALUE: u64 = 0x1;

pub const HPET_CAP_REV_ID_SHIFT: usize = 0;

/// Number of Timers (bits 8:12)
pub const HPET_CAP_NUM_TIM_SHIFT: usize = 8;

/// Counter Size (bit 13)
pub const HPET_CAP_COUNT_SIZE_CAP_SHIFT: usize = 13;

/// Legacy Replacement Route Capable (bit 15)
pub const HPET_CAP_LEG_RT_CAP_SHIFT: usize = 15;

/// Vendor ID (bits 16:31)
pub const HPET_CAP_VENDER_ID_VALUE: u64 = 0x8086;

pub const HPET_CAP_VENDER_ID_SHIFT: usize = 16;

/// Main Counter Tick Period (bits 32:63)
pub const HPET_CAP_CNT_CLK_PERIOD_SHIFT: usize = 32;

/// General Configuration Register
pub const HPET_CFG_REG: u64 = 0x010;

/// Overall Enable (bit 0)
pub const HPET_CFG_ENABLE_SHIFT: usize = 0;

/// Legacy Replacement Route (bit 1)
pub const HPET_CFG_LEG_RT_SHIFT: usize = 1;

/// Other bits are reserved.
pub const HPET_CFG_WRITE_MASK: u64 = 0x003;

/// General Interrupt Status Register
pub const HPET_INT_STATUS_REG: u64 = 0x020;

/// Main Counter Value Register
pub const HPET_COUNTER_REG: u64 = 0x0f0;

/// First address of the timer registers.
pub const HPET_TN_FIRST_ADDR: u64 = 0x100;

/// Last address of the timer registers.
pub const HPET_TN_LAST_ADDR: u64 = 0x3ff;

/// Distance between the registers of two timers.
pub const HPET_TN_STRIDE: u64 = 0x20;

/// Bits of an address that select a register of one timer.
pub const HPET_TN_ADDR_MASK: u64 = 0x1f;

/// Timer N Configuration and Capability Register (offset within the timer)
pub const HPET_TN_CFG_REG: u64 = 0x000;

/// Bit 0, 7, and bits 16:31 are reserved.
/// Bit 4, 5, 15, and bits 32:63 are read-only.
pub const HPET_TN_CFG_WRITE_MASK: u64 = 0x7f4e;

/// Timer N Interrupt Type (bit 1)
pub const HPET_TN_CFG_INT_TYPE_SHIFT: usize = 1;

/// Timer N Interrupt Enable (bit 2)
pub const HPET_TN_CFG_INT_ENABLE_SHIFT: usize = 2;

/// Timer N Type (Periodic enabled or not, bit 3)
pub const HPET_TN_CFG_PERIODIC_SHIFT: usize = 3;

/// Timer N Periodic Interrupt Capable (support Periodic or not, bit 4)
pub const HPET_TN_CFG_PERIODIC_CAP_SHIFT: usize = 4;

/// Timer N Size (timer size is 64-bits or 32 bits, bit 5)
pub const HPET_TN_CFG_SIZE_CAP_SHIFT: usize = 5;

/// Timer N Value Set (bit 6)
pub const HPET_TN_CFG_SETVAL_SHIFT: usize = 6;

/// Timer N 32-bit Mode (bit 8)
pub const HPET_TN_CFG_32BIT_SHIFT: usize = 8;

/// Timer N Interrupt Rout (bits 9:13)
pub const HPET_TN_CFG_INT_ROUTE_MASK: u64 = 0x3e00;

pub const HPET_TN_CFG_INT_ROUTE_SHIFT: usize = 9;

/// Timer N FSB Interrupt Enable (bit 14)
pub const HPET_TN_CFG_FSB_ENABLE_SHIFT: usize = 14;

/// Timer N FSB Interrupt Delivery (bit 15)
pub const HPET_TN_CFG_FSB_CAP_SHIFT: usize = 15;

/// Timer N Interrupt Routing Capability (bits 32:63)
pub const HPET_TN_CFG_INT_ROUTE_CAP_SHIFT: usize = 32;

/// Timer N Comparator Value Register (offset within the timer)
pub const HPET_TN_CMP_REG: u64 = 0x008;

/// Timer N FSB Interrupt Route Register (offset within the timer)
pub const HPET_TN_FSB_ROUTE_REG: u64 = 0x010;

} // verus!
