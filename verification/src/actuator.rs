//! Edge-triggered wrapper around one binary output line.

use vstd::prelude::*;

verus! {

/// The recorded on/off state of one physical output line.
///
/// `apply` is edge-triggered: it drives the line only on a state transition,
/// so repeated evaluations of an unchanged schedule perform no redundant
/// hardware writes. The caller learns from the returned flag whether an edge
/// occurred and can forward it to the physical driver.
#[derive(Clone, Copy, PartialEq, Eq, Structural, Debug)]
pub struct Actuator {
    /// Last-applied on/off state of the underlying output line.
    pub is_on: bool,
}

impl Actuator {
    pub fn new(is_on: bool) -> (a: Actuator)
        ensures
            a.is_on == is_on,
    {
        Actuator { is_on }
    }

    /// Drive the line to `should_be_on`, returning whether a write (an edge)
    /// occurred. When the line already reads the requested state this is a
    /// no-op.
    pub fn apply(&mut self, should_be_on: bool) -> (wrote: bool)
        ensures
            final(self).is_on == should_be_on,
            wrote == (old(self).is_on != should_be_on),
    {
        if should_be_on && !self.is_on {
            self.is_on = true;
            true
        } else if !should_be_on && self.is_on {
            self.is_on = false;
            true
        } else {
            false
        }
    }

    /// Unconditionally invert the line; used for manual override and
    /// independent of any schedule.
    pub fn toggle(&mut self)
        ensures
            final(self).is_on == !old(self).is_on,
    {
        self.is_on = !self.is_on;
    }

    /// Pure read of the recorded state, with no side effect.
    pub fn snapshot(&self) -> (on: bool)
        ensures
            on == self.is_on,
    {
        self.is_on
    }
}

} // verus!
