//! Gameplay core of a snake-style arcade game: per-segment turn scheduling
//! with index-proportional delays, uniform per-tick motion, and axis-aligned
//! bounding-box collision detection that emits one-shot events.
//!
//! The core works on plain integer-valued state; rendering, input polling and
//! entity storage are the caller's concern.

use vstd::prelude::*;

pub mod collision;
pub mod ingame;

verus! {

/// Distance a segment covers per tick; also the per-index unit of turn delay.
pub const SPEED: u32 = 1;

} // verus!
