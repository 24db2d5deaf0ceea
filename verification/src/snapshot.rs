use vstd::prelude::*;

use crate::config::ReminderConfig;

verus! {

/// What the user interface shows of the rest reminder.
#[derive(Debug, Clone, PartialEq, Eq)]
pub struct RestReminderSnapshot {
    /// Whether the full-screen black overlay is currently visible.
    pub active: bool,
    pub message: String,
    /// Remaining seconds for the active black overlay.
    pub remaining_secs: u32,
    pub allow_skip: bool,
    pub reason: String,
    /// State of the independent background forced-rest countdown.
    pub enabled: bool,
    pub timer_remaining_secs: u32,
    pub timer_total_secs: u32,
    pub is_paused: bool,
    /// "manual" | "pomodoro" | ""
    pub pause_reason: String,
    /// Seconds until the next repeated warning for a manual pause.
    pub next_pause_warning_secs: u32,
}

/// A snapshot with its texts taken as character sequences.
pub struct RestReminderSnapshotView {
    pub active: bool,
    pub message: Seq<char>,
    pub remaining_secs: u32,
    pub allow_skip: bool,
    pub reason: Seq<char>,
    pub enabled: bool,
    pub timer_remaining_secs: u32,
    pub timer_total_secs: u32,
    pub is_paused: bool,
    pub pause_reason: Seq<char>,
    pub next_pause_warning_secs: u32,
}

impl RestReminderSnapshotView {
    /// The fields agree with each other: the overlay fields are filled exactly
    /// when an overlay is up, the pause text exactly when the countdown is
    /// paused, and a disabled countdown shows nothing left.
    pub open spec fn is_consistent(self) -> bool {
        &&& self.active == (self.reason.len() > 0)
        &&& !self.active ==> self.message.len() == 0 && self.remaining_secs == 0 && !self.allow_skip
        &&& self.is_paused == (self.pause_reason.len() > 0)
        &&& !self.enabled ==> self.timer_remaining_secs == 0
    }
}

impl View for RestReminderSnapshot {
    type V = RestReminderSnapshotView;

    open spec fn view(&self) -> RestReminderSnapshotView {
        RestReminderSnapshotView {
            active: self.active,
            message: self.message@,
            remaining_secs: self.remaining_secs,
            allow_skip: self.allow_skip,
            reason: self.reason@,
            enabled: self.enabled,
            timer_remaining_secs: self.timer_remaining_secs,
            timer_total_secs: self.timer_total_secs,
            is_paused: self.is_paused,
            pause_reason: self.pause_reason@,
            next_pause_warning_secs: self.next_pause_warning_secs,
        }
    }
}

/// The snapshot shown before the scheduler has reported anything: no overlay,
/// not paused, and a full countdown when reminders are enabled.
pub open spec fn initial_snapshot_view(config: ReminderConfig) -> RestReminderSnapshotView {
    RestReminderSnapshotView {
        active: false,
        message: Seq::empty(),
        remaining_secs: 0,
        allow_skip: false,
        reason: Seq::empty(),
        enabled: config.enabled,
        timer_remaining_secs: if config.enabled { config.interval_secs } else { 0 },
        timer_total_secs: config.interval_secs,
        is_paused: false,
        pause_reason: Seq::empty(),
        next_pause_warning_secs: 0,
    }
}

impl RestReminderSnapshot {
    /// The snapshot published before the scheduler first runs.
    pub fn initial(config: &ReminderConfig) -> (snapshot: RestReminderSnapshot)
        ensures
            snapshot@ == initial_snapshot_view(*config),
            snapshot@.is_consistent(),
    {
        RestReminderSnapshot {
            active: false,
            message: String::new(),
            remaining_secs: 0,
            allow_skip: false,
            reason: String::new(),
            enabled: config.enabled,
            timer_remaining_secs: if config.enabled { config.interval_secs } else { 0 },
            timer_total_secs: config.interval_secs,
            is_paused: false,
            pause_reason: String::new(),
            next_pause_warning_secs: 0,
        }
    }

    /// A copy of this snapshot.
    pub fn duplicate(&self) -> (copy: RestReminderSnapshot)
        ensures
            copy@ == self@,
    {
        RestReminderSnapshot {
            active: self.active,
            message: self.message.clone(),
            remaining_secs: self.remaining_secs,
            allow_skip: self.allow_skip,
            reason: self.reason.clone(),
            enabled: self.enabled,
            timer_remaining_secs: self.timer_remaining_secs,
            timer_total_secs: self.timer_total_secs,
            is_paused: self.is_paused,
            pause_reason: self.pause_reason.clone(),
            next_pause_warning_secs: self.next_pause_warning_secs,
        }
    }

    /// Whether two snapshots show the same thing.
    pub fn same_as(&self, other: &RestReminderSnapshot) -> (same: bool)
        ensures
            same == (self@ == other@),
    {
        let same = self.active == other.active
            && self.message == other.message
            && self.remaining_secs == other.remaining_secs
            && self.allow_skip == other.allow_skip
            && self.reason == other.reason
            && self.enabled == other.enabled
            && self.timer_remaining_secs == other.timer_remaining_secs
            && self.timer_total_secs == other.timer_total_secs
            && self.is_paused == other.is_paused
            && self.pause_reason == other.pause_reason
            && self.next_pause_warning_secs == other.next_pause_warning_secs;
        proof {
            if same {
                assert(self@ =~= other@);
            }
        }
        same
    }
}

} // verus!
