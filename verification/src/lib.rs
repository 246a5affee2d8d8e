//! Scheduling and state-coordination engine for a set of irrigation valves.
//!
//! Each device owns one daily on-window (a start offset after local midnight
//! and a duration, both in seconds). A controller evaluates every device's
//! window against an offset-corrected software clock once per tick, unless a
//! controller-wide manual mode suspends automatic actuation. Configuration
//! survives restarts through a key-value store keyed by truncated device
//! names.

pub mod actuator;
pub mod clock;
pub mod controller;
pub mod device;
pub mod root_html;
pub mod schedule;
pub mod store;
pub mod uri;

pub use actuator::Actuator;
pub use controller::Controller;
pub use device::Device;
pub use schedule::Schedule;
pub use store::ConfigStore;
