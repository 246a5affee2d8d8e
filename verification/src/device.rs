//! One scheduled device: an actuator, its daily window, and its identity.

use crate::actuator::Actuator;
use crate::schedule::Schedule;
use vstd::prelude::*;

verus! {

/// The unit of scheduling: a named actuator together with its current
/// daily window.
///
/// The name doubles as display label and persistence-key prefix, so names
/// must stay distinguishable within the persistence prefix length (see the
/// store module).
#[derive(Clone, Debug)]
pub struct Device {
    /// Stable identifier; unique within a controller's collection.
    pub name: String,
    /// The daily on-window currently in force.
    pub schedule: Schedule,
    /// The wrapped output line.
    pub actuator: Actuator,
}

impl Device {
    /// The state this device reaches when updated at time-of-day `now`,
    /// whatever state it held before.
    pub open spec fn after_update(self, now: u32) -> Device {
        Device { actuator: Actuator { is_on: self.schedule.contains(now) }, ..self }
    }

    /// Whether updating at `now` performs a hardware write (an edge).
    pub open spec fn update_writes(self, now: u32) -> bool {
        self.actuator.is_on != self.schedule.contains(now)
    }

    /// This device with its line inverted.
    pub open spec fn after_toggle(self) -> Device {
        Device { actuator: Actuator { is_on: !self.actuator.is_on }, ..self }
    }

    /// This device carrying `schedule` in place of its current one.
    pub open spec fn with_schedule(self, schedule: Schedule) -> Device {
        Device { schedule, ..self }
    }

    /// A fresh device whose line starts low.
    pub fn new_with_settings(name: String, duration: u32, init_time: u32) -> (d: Device)
        ensures
            d.name == name,
            d.schedule.start_offset_seconds == init_time,
            d.schedule.duration_seconds == duration,
            !d.actuator.is_on,
    {
        Device {
            name,
            schedule: Schedule::new(init_time, duration),
            actuator: Actuator::new(false),
        }
    }

    /// Evaluate the window at time-of-day `now` and drive the line to the
    /// resulting state. Returns whether a hardware write occurred.
    ///
    /// The resulting on/off state depends only on the schedule and `now`,
    /// never on the prior state.
    pub fn update(&mut self, now: u32) -> (wrote: bool)
        ensures
            *final(self) == old(self).after_update(now),
            wrote == old(self).update_writes(now),
    {
        let should_be_on = self.schedule.should_be_on(now);
        self.actuator.apply(should_be_on)
    }

    /// Replace the schedule; it takes effect on the very next update.
    pub fn set_schedule(&mut self, schedule: Schedule)
        ensures
            final(self).name == old(self).name,
            final(self).schedule == schedule,
            final(self).actuator == old(self).actuator,
    {
        self.schedule = schedule;
    }

    /// Manual override: invert the line, bypassing the schedule entirely.
    pub fn toggle(&mut self)
        ensures
            *final(self) == old(self).after_toggle(),
    {
        self.actuator.toggle();
    }

    /// Updating twice at the same time of day changes nothing after the
    /// first update, and the second update performs no hardware write.
    pub proof fn lemma_update_idempotent(d: Device, now: u32)
        ensures
            d.after_update(now).after_update(now) == d.after_update(now),
            !d.after_update(now).update_writes(now),
    {
    }
}

} // verus!
