use vstd::prelude::*;

use crate::clock::{remaining_secs, remaining_secs_spec, Moment, MonotonicClock};
use crate::config::{at_least, max_u32, ReminderConfig};
use crate::snapshot::{RestReminderSnapshot, RestReminderSnapshotView};

verus! {

/// Why the black overlay is shown.
#[derive(Clone, Copy, PartialEq, Eq, Structural, Debug)]
pub enum ReminderReason {
    Scheduled,
    Pomodoro,
    Preview,
}

impl ReminderReason {
    /// The name the user interface knows the reason by.
    pub open spec fn text(self) -> Seq<char> {
        match self {
            ReminderReason::Scheduled => "scheduled"@,
            ReminderReason::Pomodoro => "pomodoro"@,
            ReminderReason::Preview => "preview"@,
        }
    }

    pub fn as_str(self) -> (name: &'static str)
        ensures
            name@ == self.text(),
    {
        match self {
            ReminderReason::Scheduled => "scheduled",
            ReminderReason::Pomodoro => "pomodoro",
            ReminderReason::Preview => "preview",
        }
    }
}

/// Why the background countdown is paused.
#[derive(Clone, Copy, PartialEq, Eq, Structural, Debug)]
pub enum PauseReason {
    Manual,
    Pomodoro,
}

impl PauseReason {
    /// The name the user interface knows the reason by.
    pub open spec fn text(self) -> Seq<char> {
        match self {
            PauseReason::Manual => "manual"@,
            PauseReason::Pomodoro => "pomodoro"@,
        }
    }

    pub fn as_str(self) -> (name: &'static str)
        ensures
            name@ == self.text(),
    {
        match self {
            PauseReason::Manual => "manual",
            PauseReason::Pomodoro => "pomodoro",
        }
    }
}

/// Every reason has a non-empty name.
pub proof fn lemma_reason_texts_nonempty()
    ensures
        forall|r: ReminderReason| (#[trigger] r.text()).len() > 0,
        forall|r: PauseReason| (#[trigger] r.text()).len() > 0,
{
    reveal_strlit("scheduled");
    reveal_strlit("pomodoro");
    reveal_strlit("preview");
    reveal_strlit("manual");
}

/// The text shown for an optional pause reason: empty when not paused.
pub open spec fn pause_text(reason: Option<PauseReason>) -> Seq<char> {
    match reason {
        Some(r) => r.text(),
        None => Seq::empty(),
    }
}

/// The overlay that is currently shown.
pub struct ActiveReminder {
    pub deadline: Moment,
    pub message: String,
    pub allow_skip: bool,
    pub reason: ReminderReason,
}

/// The state of the background rest-reminder scheduler.
pub struct SchedulerRuntime {
    pub config: ReminderConfig,
    pub pomodoro_active: bool,
    pub active: Option<ActiveReminder>,
    /// When the next scheduled overlay is due, while the countdown runs.
    pub next_due: Option<Moment>,
    /// Seconds the countdown had left when it was paused.
    pub paused_remaining_secs: u32,
    pub pause_reason: Option<PauseReason>,
    pub manual_pause_started: Option<Moment>,
    /// When the next manual-pause warning is due.
    pub next_warning: Option<Moment>,
    pub clock: MonotonicClock,
}

impl SchedulerRuntime {
    /// The state of a scheduler started at `now`.
    pub open spec fn started(config: ReminderConfig, clock: MonotonicClock, now: Moment) -> SchedulerRuntime {
        SchedulerRuntime {
            paused_remaining_secs: config.interval_secs,
            next_due: if config.enabled { Some(now.plus_secs(config.interval_secs as int)) } else { None },
            config,
            pomodoro_active: false,
            active: None,
            pause_reason: None,
            manual_pause_started: None,
            next_warning: None,
            clock,
        }
    }

    /// Seconds the countdown has left at `now`: until the due moment while it
    /// runs, or what it had when it was paused.
    pub open spec fn countdown_left(self, now: Moment) -> u32 {
        match self.next_due {
            Some(due) => remaining_secs_spec(due, now),
            None => self.paused_remaining_secs,
        }
    }

    /// The schedule started afresh at `now`: a full interval, no manual pause;
    /// the countdown runs unless reminders are off, a Pomodoro round pauses it,
    /// or an overlay is up.
    pub open spec fn rescheduled(self, now: Moment) -> SchedulerRuntime {
        SchedulerRuntime {
            paused_remaining_secs: self.config.interval_secs,
            manual_pause_started: None,
            next_warning: None,
            next_due: if self.config.enabled && !self.pomodoro_active && self.active is None {
                Some(now.plus_secs(self.config.interval_secs as int))
            } else {
                None
            },
            pause_reason: if self.config.enabled && self.pomodoro_active {
                Some(PauseReason::Pomodoro)
            } else {
                None
            },
            ..self
        }
    }

    /// A Pomodoro round started at `now`: the countdown is paused with what it
    /// had left (at least a second) and any manual pause is forgotten.
    pub open spec fn with_pomodoro_started(self, now: Moment) -> SchedulerRuntime {
        SchedulerRuntime {
            pomodoro_active: true,
            paused_remaining_secs: at_least(self.countdown_left(now), 1),
            next_due: None,
            pause_reason: Some(PauseReason::Pomodoro),
            manual_pause_started: None,
            next_warning: None,
            ..self
        }
    }

    /// No Pomodoro round runs any more: the schedule starts afresh at `now`.
    pub open spec fn with_pomodoro_stopped(self, now: Moment) -> SchedulerRuntime {
        SchedulerRuntime { pomodoro_active: false, ..self }.rescheduled(now)
    }

    /// The countdown can be paused by hand: reminders are on, no Pomodoro round
    /// runs and no overlay is up.
    pub open spec fn can_pause_manually(self) -> bool {
        self.config.enabled && !self.pomodoro_active && self.active is None
    }

    /// The countdown paused by hand at `now`, with the first warning one
    /// warning period (at least a minute) later.
    pub open spec fn manually_paused(self, now: Moment) -> SchedulerRuntime {
        if !self.can_pause_manually() {
            self
        } else {
            SchedulerRuntime {
                paused_remaining_secs: at_least(self.countdown_left(now), 1),
                next_due: None,
                pause_reason: Some(PauseReason::Manual),
                manual_pause_started: Some(now),
                next_warning: Some(now.plus_secs(at_least(self.config.pause_warning_secs, 60) as int)),
                ..self
            }
        }
    }

    /// A manual pause can be lifted: the countdown is paused by hand, no
    /// Pomodoro round runs and reminders are on.
    pub open spec fn can_resume_manually(self) -> bool {
        self.pause_reason == Some(PauseReason::Manual) && !self.pomodoro_active && self.config.enabled
    }

    /// The countdown resumed at `now` with the seconds it had left when paused.
    pub open spec fn manually_resumed(self, now: Moment) -> SchedulerRuntime {
        if !self.can_resume_manually() {
            self
        } else {
            SchedulerRuntime {
                next_due: Some(now.plus_secs(at_least(self.paused_remaining_secs, 1) as int)),
                pause_reason: None,
                manual_pause_started: None,
                next_warning: None,
                ..self
            }
        }
    }

    /// An overlay shown at `now` for `duration_secs` (at least one second).
    pub open spec fn activated(
        self,
        now: Moment,
        reason: ReminderReason,
        duration_secs: u32,
        allow_skip: bool,
    ) -> SchedulerRuntime {
        SchedulerRuntime {
            active: Some(
                ActiveReminder {
                    deadline: now.plus_secs(at_least(duration_secs, 1) as int),
                    message: self.config.message,
                    allow_skip,
                    reason,
                },
            ),
            ..self
        }
    }

    /// The overlay taken down at `now`. After a scheduled or Pomodoro overlay
    /// the schedule starts afresh; after a preview the countdown is kept, but
    /// if it fell due meanwhile it is given a new full interval.
    pub open spec fn finished(self, now: Moment) -> SchedulerRuntime {
        let cleared = SchedulerRuntime { active: None, ..self };
        match self.active {
            Some(a) => match a.reason {
                ReminderReason::Preview => match self.next_due {
                    Some(due) => if due.reached_by(now) {
                        SchedulerRuntime {
                            next_due: Some(now.plus_secs(at_least(self.config.interval_secs, 1) as int)),
                            ..cleared
                        }
                    } else {
                        cleared
                    },
                    None => cleared,
                },
                _ => cleared.rescheduled(now),
            },
            None => cleared,
        }
    }

    /// New settings taken at `now`. Identical settings change nothing;
    /// disabling takes any overlay down and clears the schedule; enabling or a
    /// new interval restarts the schedule; a new warning period during a manual
    /// pause moves the next warning.
    pub open spec fn with_settings(self, updated: ReminderConfig, now: Moment) -> SchedulerRuntime {
        if updated.same_values(self.config) {
            self
        } else {
            let s = SchedulerRuntime { config: updated, ..self };
            if !updated.enabled {
                SchedulerRuntime { active: None, ..s }.rescheduled(now)
            } else if !self.config.enabled || self.config.interval_secs != updated.interval_secs {
                s.rescheduled(now)
            } else if self.config.pause_warning_secs != updated.pause_warning_secs
                && self.pause_reason == Some(PauseReason::Manual) {
                SchedulerRuntime {
                    next_warning: Some(now.plus_secs(at_least(updated.pause_warning_secs, 60) as int)),
                    ..s
                }
            } else {
                s
            }
        }
    }

    /// Whether taking `updated` takes the overlay down.
    pub open spec fn settings_close_overlay(self, updated: ReminderConfig) -> bool {
        !updated.same_values(self.config) && !updated.enabled && self.active is Some
    }

    /// What the user interface shows of this state at `now`.
    pub open spec fn snapshot_view(self, now: Moment) -> RestReminderSnapshotView {
        RestReminderSnapshotView {
            active: self.active is Some,
            message: match self.active {
                Some(a) => a.message@,
                None => Seq::empty(),
            },
            remaining_secs: match self.active {
                Some(a) => remaining_secs_spec(a.deadline, now),
                None => 0,
            },
            allow_skip: match self.active {
                Some(a) => a.allow_skip,
                None => false,
            },
            reason: match self.active {
                Some(a) => a.reason.text(),
                None => Seq::empty(),
            },
            enabled: self.config.enabled,
            timer_remaining_secs: if !self.config.enabled {
                0
            } else {
                match self.next_due {
                    Some(due) => remaining_secs_spec(due, now),
                    None => if self.paused_remaining_secs < self.config.interval_secs {
                        self.paused_remaining_secs
                    } else {
                        self.config.interval_secs
                    },
                }
            },
            timer_total_secs: self.config.interval_secs,
            is_paused: self.pause_reason is Some,
            pause_reason: pause_text(self.pause_reason),
            next_pause_warning_secs: match self.next_warning {
                Some(w) => remaining_secs_spec(w, now),
                None => 0,
            },
        }
    }

    /// A scheduler for `config` whose countdown starts at `now` on `clock`.
    pub fn new_at(config: ReminderConfig, clock: MonotonicClock, now: Moment) -> (runtime: SchedulerRuntime)
        requires
            now.is_clock_reading(),
        ensures
            runtime == SchedulerRuntime::started(config, clock, now),
    {
        let next_due = if config.enabled {
            Some(now.after_secs(config.interval_secs as u64))
        } else {
            None
        };
        SchedulerRuntime {
            paused_remaining_secs: config.interval_secs,
            config,
            pomodoro_active: false,
            active: None,
            next_due,
            pause_reason: None,
            manual_pause_started: None,
            next_warning: None,
            clock,
        }
    }

    /// A scheduler for `config` on a clock started now.
    pub fn new(config: ReminderConfig) -> (runtime: SchedulerRuntime)
        ensures
            exists|now: Moment|
                now.is_clock_reading() && runtime == #[trigger] SchedulerRuntime::started(
                    config,
                    runtime.clock,
                    now,
                ),
    {
        let ghost requested = config;
        let clock = MonotonicClock::start();
        let now = clock.now();
        let runtime = SchedulerRuntime::new_at(config, clock, now);
        assert(runtime == SchedulerRuntime::started(requested, runtime.clock, now));
        runtime
    }

    /// The current moment on the scheduler's clock.
    pub fn now(&self) -> (now: Moment)
        ensures
            now.is_clock_reading(),
    {
        self.clock.now()
    }

    fn countdown_left_at(&self, now: Moment) -> (secs: u32)
        ensures
            secs == self.countdown_left(now),
    {
        match self.next_due {
            Some(due) => remaining_secs(due, now),
            None => self.paused_remaining_secs,
        }
    }

    /// Whether the countdown is paused by hand.
    pub fn is_manually_paused(&self) -> (paused: bool)
        ensures
            paused == (self.pause_reason == Some(PauseReason::Manual)),
    {
        match self.pause_reason {
            Some(PauseReason::Manual) => true,
            _ => false,
        }
    }

    /// What the user interface shows of this state at `now`.
    pub fn snapshot_at(&self, now: Moment) -> (snapshot: RestReminderSnapshot)
        ensures
            snapshot@ == self.snapshot_view(now),
            snapshot@.is_consistent(),
    {
        let (active, message, overlay_remaining_secs, allow_skip, reason) = match &self.active {
            Some(a) => (
                true,
                a.message.clone(),
                remaining_secs(a.deadline, now),
                a.allow_skip,
                a.reason.as_str().to_owned(),
            ),
            None => (false, String::new(), 0, false, String::new()),
        };
        let timer_remaining_secs = if !self.config.enabled {
            0
        } else {
            match self.next_due {
                Some(due) => remaining_secs(due, now),
                None => if self.paused_remaining_secs < self.config.interval_secs {
                    self.paused_remaining_secs
                } else {
                    self.config.interval_secs
                },
            }
        };
        let pause_reason = match self.pause_reason {
            Some(r) => r.as_str().to_owned(),
            None => String::new(),
        };
        let next_pause_warning_secs = match self.next_warning {
            Some(w) => remaining_secs(w, now),
            None => 0,
        };
        proof {
            lemma_reason_texts_nonempty();
        }
        RestReminderSnapshot {
            active,
            message,
            remaining_secs: overlay_remaining_secs,
            allow_skip,
            reason,
            enabled: self.config.enabled,
            timer_remaining_secs,
            timer_total_secs: self.config.interval_secs,
            is_paused: self.pause_reason.is_some(),
            pause_reason,
            next_pause_warning_secs,
        }
    }

    /// What the user interface shows of this state now.
    pub fn snapshot(&self) -> (snapshot: RestReminderSnapshot)
        ensures
            exists|now: Moment|
                now.is_clock_reading() && snapshot@ == #[trigger] self.snapshot_view(now),
            snapshot@.is_consistent(),
    {
        let now = self.clock.now();
        self.snapshot_at(now)
    }

    /// Starts the schedule afresh at `now`.
    pub fn reset_schedule_at(&mut self, now: Moment)
        requires
            now.is_clock_reading(),
        ensures
            *final(self) == old(self).rescheduled(now),
    {
        self.paused_remaining_secs = self.config.interval_secs;
        self.manual_pause_started = None;
        self.next_warning = None;
        if !self.config.enabled {
            self.next_due = None;
            self.pause_reason = None;
        } else if self.pomodoro_active {
            self.next_due = None;
            self.pause_reason = Some(PauseReason::Pomodoro);
        } else if self.active.is_some() {
            self.next_due = None;
            self.pause_reason = None;
        } else {
            self.next_due = Some(now.after_secs(self.config.interval_secs as u64));
            self.pause_reason = None;
        }
    }

    /// Starts the schedule afresh now.
    pub fn reset_schedule(&mut self)
        ensures
            exists|now: Moment|
                now.is_clock_reading() && *final(self) == #[trigger] old(self).rescheduled(now),
    {
        let now = self.clock.now();
        self.reset_schedule_at(now);
    }

    /// A Pomodoro round started at `now`.
    pub fn pomodoro_started_at(&mut self, now: Moment)
        ensures
            *final(self) == old(self).with_pomodoro_started(now),
            final(self).pause_reason == Some(PauseReason::Pomodoro),
            final(self).next_due is None,
            final(self).next_warning is None,
            final(self).manual_pause_started is None,
    {
        let left = self.countdown_left_at(now);
        self.pomodoro_active = true;
        self.paused_remaining_secs = max_u32(left, 1);
        self.next_due = None;
        self.pause_reason = Some(PauseReason::Pomodoro);
        self.manual_pause_started = None;
        self.next_warning = None;
    }

    /// A Pomodoro round started now.
    pub fn pomodoro_started(&mut self)
        ensures
            exists|now: Moment|
                now.is_clock_reading() && *final(self) == #[trigger] old(self).with_pomodoro_started(now),
    {
        let now = self.clock.now();
        self.pomodoro_started_at(now);
    }

    /// No Pomodoro round runs any more, as of `now`.
    pub fn pomodoro_stopped_at(&mut self, now: Moment)
        requires
            now.is_clock_reading(),
        ensures
            *final(self) == old(self).with_pomodoro_stopped(now),
    {
        self.pomodoro_active = false;
        self.reset_schedule_at(now);
    }

    /// No Pomodoro round runs any more.
    pub fn pomodoro_stopped(&mut self)
        ensures
            exists|now: Moment|
                now.is_clock_reading() && *final(self) == #[trigger] old(self).with_pomodoro_stopped(now),
    {
        let now = self.clock.now();
        self.pomodoro_stopped_at(now);
    }

    /// Pauses the countdown by hand at `now`.
    pub fn manual_pause_at(&mut self, now: Moment)
        requires
            now.is_clock_reading(),
        ensures
            *final(self) == old(self).manually_paused(now),
    {
        if !self.config.enabled || self.pomodoro_active || self.active.is_some() {
            return;
        }
        let left = self.countdown_left_at(now);
        self.paused_remaining_secs = max_u32(left, 1);
        self.next_due = None;
        self.pause_reason = Some(PauseReason::Manual);
        self.manual_pause_started = Some(now);
        self.next_warning = Some(now.after_secs(max_u32(self.config.pause_warning_secs, 60) as u64));
    }

    /// Pauses the countdown by hand now.
    pub fn manual_pause(&mut self)
        ensures
            exists|now: Moment|
                now.is_clock_reading() && *final(self) == #[trigger] old(self).manually_paused(now),
    {
        let now = self.clock.now();
        self.manual_pause_at(now);
    }

    /// Lifts a manual pause at `now`.
    pub fn manual_resume_at(&mut self, now: Moment)
        requires
            now.is_clock_reading(),
        ensures
            *final(self) == old(self).manually_resumed(now),
    {
        if !self.is_manually_paused() || self.pomodoro_active || !self.config.enabled {
            return;
        }
        self.next_due = Some(now.after_secs(max_u32(self.paused_remaining_secs, 1) as u64));
        self.pause_reason = None;
        self.manual_pause_started = None;
        self.next_warning = None;
    }

    /// Lifts a manual pause now.
    pub fn manual_resume(&mut self)
        ensures
            exists|now: Moment|
                now.is_clock_reading() && *final(self) == #[trigger] old(self).manually_resumed(now),
    {
        let now = self.clock.now();
        self.manual_resume_at(now);
    }

    /// Shows an overlay from `now` on.
    pub fn activate_at(&mut self, now: Moment, reason: ReminderReason, duration_secs: u32, allow_skip: bool)
        requires
            now.is_clock_reading(),
        ensures
            *final(self) == old(self).activated(now, reason, duration_secs, allow_skip),
    {
        let deadline = now.after_secs(max_u32(duration_secs, 1) as u64);
        let message = self.config.message.clone();
        self.active = Some(ActiveReminder { deadline, message, allow_skip, reason });
    }

    /// Takes the overlay down; tells whether one was up.
    pub fn clear_active(&mut self) -> (was_active: bool)
        ensures
            was_active == (old(self).active is Some),
            *final(self) == (SchedulerRuntime { active: None, ..*old(self) }),
    {
        let was_active = self.active.is_some();
        self.active = None;
        was_active
    }

    /// Ends the overlay at `now`; tells whether one was up.
    pub fn finish_active_at(&mut self, now: Moment) -> (was_active: bool)
        requires
            now.is_clock_reading(),
        ensures
            was_active == (old(self).active is Some),
            *final(self) == old(self).finished(now),
    {
        let reason = match &self.active {
            Some(a) => Some(a.reason),
            None => None,
        };
        let was_active = self.clear_active();
        match reason {
            Some(ReminderReason::Scheduled) | Some(ReminderReason::Pomodoro) => {
                self.reset_schedule_at(now);
            },
            Some(ReminderReason::Preview) => {
                let fell_due = match self.next_due {
                    Some(due) => due.is_reached_by(now),
                    None => false,
                };
                if fell_due {
                    self.next_due = Some(now.after_secs(max_u32(self.config.interval_secs, 1) as u64));
                }
            },
            None => {},
        }
        was_active
    }

    /// Takes new settings at `now`; tells whether the overlay was taken down.
    pub fn apply_settings_at(&mut self, updated: ReminderConfig, now: Moment) -> (closed: bool)
        requires
            now.is_clock_reading(),
        ensures
            closed == old(self).settings_close_overlay(updated),
            *final(self) == old(self).with_settings(updated, now),
            updated.same_values(old(self).config) ==> !closed && *final(self) == *old(self),
    {
        if updated.same_as(&self.config) {
            return false;
        }
        let old_enabled = self.config.enabled;
        let old_interval = self.config.interval_secs;
        let old_pause_warning = self.config.pause_warning_secs;
        self.config = updated;
        if !self.config.enabled {
            let closed = self.clear_active();
            self.reset_schedule_at(now);
            return closed;
        }
        if !old_enabled || old_interval != self.config.interval_secs {
            self.reset_schedule_at(now);
        } else if old_pause_warning != self.config.pause_warning_secs && self.is_manually_paused() {
            self.next_warning = Some(now.after_secs(max_u32(self.config.pause_warning_secs, 60) as u64));
        }
        false
    }
}

} // verus!
