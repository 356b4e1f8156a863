//! Settings of the mouse look.

use vstd::prelude::*;

verus! {

/// Mouse sensitivity and movement speed.
#[derive(Clone, Copy, Debug, PartialEq, Eq, Structural)]
pub struct MouseMovementSettings {
    /// Degrees turned per unit of mouse motion and per unit of window size.
    pub sensitivity: i64,
    /// Movement speed; kept for the host, no rule of this library reads it.
    pub speed: i64,
}

impl Default for MouseMovementSettings {
    /// A sensitivity of 0.00012 and a speed of 12.
    fn default() -> (r: Self)
        ensures
            r.sensitivity == 120,
            r.speed == 12_000_000,
    {
        MouseMovementSettings { sensitivity: 120, speed: 12_000_000 }
    }
}

} // verus!
