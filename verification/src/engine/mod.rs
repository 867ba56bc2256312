//! The engine's fixed tick, and the stages that it runs on each connection.

pub mod resources;
pub mod systems;

use vstd::prelude::*;

verus! {

/// The length of a tick, in nanoseconds: the loop aims at 100 ticks a second.
pub const TICK_NANOS: u64 = 10_000_000;

/// The longest that a poll waits, in milliseconds.
pub const POLL_TIMEOUT_MILLIS: u64 = 300;

/// The time that the last tick took, in nanoseconds.
#[derive(Debug, Clone, Copy, PartialEq, Eq, Structural)]
pub struct Delta(pub u64);

/// The nanoseconds to sleep at the end of a tick that took `elapsed_nanos`:
/// what is left of the tick, or `None` where the tick is used up.
pub fn tick_sleep(elapsed_nanos: u128) -> (r: Option<u64>)
    ensures
        r == (if elapsed_nanos < TICK_NANOS {
            Some((TICK_NANOS - elapsed_nanos) as u64)
        } else {
            None
        }),
{
    if elapsed_nanos < TICK_NANOS as u128 {
        Some(TICK_NANOS - (elapsed_nanos as u64))
    } else {
        None
    }
}

} // verus!
