//! A verified model of a periodic-counter display driven by a hardware timer
//! interrupt: a free-running timer fires at a fixed rate, each firing
//! increments a shared counter and repaints a status line on a small pixel
//! display. The interesting part is the interrupt coordination protocol:
//! masking, acknowledging and re-arming the interrupt source so that the
//! shared state is never touched by two execution contexts at once.

use vstd::prelude::*;

pub mod protocol;
pub mod render;
pub mod screen;

verus! {

/// Number of distinct values of the counter; the counter wraps modulo this.
pub open spec fn counter_modulus() -> int {
    0x1_0000_0000
}

} // verus!
