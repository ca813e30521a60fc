//! Resources that the engine itself defines.
use vstd::prelude::*;
use crate::scalar::Scalar;

verus! {

/// The clock of the world: the length of the current tick and the time that
/// has passed over all ticks.
#[derive(Clone, Copy, Debug, PartialEq, Eq, Structural)]
pub struct Time {
    pub delta: Scalar,
    pub total: Scalar,
}

impl Time {
    /// The clock before the first tick: both values are zero.
    pub fn new() -> (t: Self)
        ensures
            t.delta.bits == 0,
            t.total.bits == 0,
    {
        Time { delta: Scalar::zero(), total: Scalar::zero() }
    }
}

impl Default for Time {
    fn default() -> (t: Self)
        ensures
            t.delta.bits == 0,
            t.total.bits == 0,
    {
        Time::new()
    }
}

} // verus!
