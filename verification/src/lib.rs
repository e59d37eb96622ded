//! Core of a terminal idle game: resources accrue each tick at a rate set by
//! their upgrade level, and banked amounts are spent to raise levels.
//!
//! Fractional accrual is held in exact fixed-point units rather than floating
//! point: `Resource::progress` counts in units of `1 / PROGRESS_DENOM`, and
//! `Resource::progress_per_tick` in units of `1 / RATE_DENOM`. One tick adds
//! `level * progress_per_tick / 100` of a whole unit, so the two denominators
//! differ by that factor of 100.

use vstd::prelude::*;

pub mod economy;
pub mod engine;
pub mod upgrade;
pub mod codec;
pub mod persist;
pub mod dispatch;

verus! {

/// Ticks per second: used by the live loop's timer and by offline catch-up.
pub const TICK_FPS: u64 = 10;

/// Denominator of `Resource::progress_per_tick`: a rate of one whole
/// progress unit per tick at level 100 is written `RATE_DENOM`.
pub const RATE_DENOM: u64 = 1000;

/// Denominator of `Resource::progress`: a resource accrues one whole unit
/// each time `progress` reaches `PROGRESS_DENOM`.
pub const PROGRESS_DENOM: u64 = 100000;

} // verus!
