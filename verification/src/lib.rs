//! Background scheduler logic for periodic rest reminders.
//!
//! The scheduler keeps an independent forced-rest countdown that shows a
//! full-screen overlay when it runs out, pauses while a Pomodoro round runs or
//! when the user pauses it by hand (with repeated warnings), and publishes a
//! snapshot of its state for the user interface. Its decisions are verified
//! state transitions over explicit readings of a monotonic clock; the host
//! application runs the loop, the windows and the events.
//!
//! - `clock`: moments on a monotonic clock and the seconds left until one.
//! - `config`: the settings and the configuration read from them.
//! - `snapshot`: what the user interface is shown.
//! - `runtime`: the scheduler state and its transitions.
//! - `scheduler`: requests, periodic checks and the work they ask for.
//! - `controller`: the handle the application holds, and publication of snapshots.
//! - `laws`: properties that span several operations.

pub mod clock;
pub mod config;
pub mod controller;
pub mod laws;
pub mod runtime;
pub mod scheduler;
pub mod snapshot;

pub use clock::{remaining_secs, Moment, MonotonicClock, MAX_CLOCK_NANOS, NANOS_PER_SEC};
pub use config::{ReminderConfig, Settings};
pub use controller::{
    load_snapshot, record_publication, store_snapshot, ConsistentSnapshot, RestReminderController,
    SchedulerEndpoint, SharedSnapshot,
};
pub use runtime::{ActiveReminder, PauseReason, ReminderReason, SchedulerRuntime};
pub use scheduler::{ControlMessage, SchedulerEffect};
pub use snapshot::{RestReminderSnapshot, RestReminderSnapshotView};
