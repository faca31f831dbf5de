//! A verified model of the High Precision Event Timer (HPET) block.
//!
//! The library holds the registers of the block and of its timers, decides
//! what each guest access, timer expiration and interrupt input does to them,
//! and lists the actions that the host has to carry out for it.

pub mod access;
pub mod action;
pub mod bits;
pub mod block_laws;
pub mod laws;
pub mod registers;
pub mod state;
pub mod ticks;
pub mod timer;
pub mod timer_laws;
pub mod word_laws;
