use vstd::prelude::*;

use crate::clock::Moment;
use crate::config::{at_least, max_u32, ReminderConfig};
use crate::runtime::{PauseReason, ReminderReason, SchedulerRuntime};

verus! {

/// A request sent to the scheduler.
pub enum ControlMessage {
    ApplySettings(ReminderConfig),
    PomodoroStarted,
    PomodoroStopped,
    PomodoroWorkCompleted,
    Pause,
    Resume,
    Reset,
    Preview,
    Dismiss,
}

/// Work the scheduler asks its host to do.
#[derive(Clone, Copy, PartialEq, Eq, Structural, Debug)]
pub enum SchedulerEffect {
    /// Put the black overlay windows up (replacing any that are up).
    ShowOverlay,
    /// Take the overlay windows down.
    CloseOverlay,
    /// Tell the user how long the countdown has been paused by hand.
    PauseWarning { paused_secs: u32 },
}

/// The length of a preview overlay: the configured duration kept between 5 and 10 seconds.
pub open spec fn preview_secs(duration_secs: u32) -> u32 {
    if duration_secs < 5 { 5 } else if duration_secs > 10 { 10 } else { duration_secs }
}

/// Whole seconds from `started` to `now` (zero if `now` is earlier), taken
/// modulo 2^32 as a `u32`.
pub open spec fn paused_secs_spec(started: Moment, now: Moment) -> u32 {
    let elapsed: int = if now.nanos > started.nanos { now.nanos - started.nanos } else { 0 };
    ((elapsed / 1_000_000_000) % 0x1_0000_0000) as u32
}

/// The effect list holding `effect` when `happened`, else nothing.
pub open spec fn effect_if(happened: bool, effect: SchedulerEffect) -> Seq<SchedulerEffect> {
    if happened { seq![effect] } else { Seq::empty() }
}

impl SchedulerRuntime {
    /// The state after `msg` is handled at `now`, and the work it asks for.
    pub open spec fn on_message(self, msg: ControlMessage, now: Moment) -> (SchedulerRuntime, Seq<SchedulerEffect>) {
        match msg {
            ControlMessage::ApplySettings(updated) => (
                self.with_settings(updated, now),
                effect_if(self.settings_close_overlay(updated), SchedulerEffect::CloseOverlay),
            ),
            ControlMessage::PomodoroStarted => (self.with_pomodoro_started(now), Seq::empty()),
            ControlMessage::PomodoroStopped => (self.with_pomodoro_stopped(now), Seq::empty()),
            ControlMessage::PomodoroWorkCompleted => {
                let settled = SchedulerRuntime {
                    pomodoro_active: false,
                    pause_reason: None,
                    next_due: None,
                    paused_remaining_secs: self.config.interval_secs,
                    manual_pause_started: None,
                    next_warning: None,
                    ..self
                };
                if self.config.enabled {
                    (
                        settled.activated(now, ReminderReason::Pomodoro, self.config.duration_secs, self.config.allow_skip),
                        seq![SchedulerEffect::ShowOverlay],
                    )
                } else {
                    (settled.rescheduled(now), Seq::empty())
                }
            },
            ControlMessage::Pause => (self.manually_paused(now), Seq::empty()),
            ControlMessage::Resume => (self.manually_resumed(now), Seq::empty()),
            ControlMessage::Reset => (self.rescheduled(now), Seq::empty()),
            ControlMessage::Preview => if self.active is None {
                (
                    self.activated(now, ReminderReason::Preview, preview_secs(self.config.duration_secs), true),
                    seq![SchedulerEffect::ShowOverlay],
                )
            } else {
                (self, Seq::empty())
            },
            ControlMessage::Dismiss => match self.active {
                Some(a) => if a.allow_skip {
                    (self.finished(now), seq![SchedulerEffect::CloseOverlay])
                } else {
                    (self, Seq::empty())
                },
                None => (self, Seq::empty()),
            },
        }
    }

    /// Whether the overlay's time is up at `now`.
    pub open spec fn overlay_expired(self, now: Moment) -> bool {
        match self.active {
            Some(a) => a.deadline.reached_by(now),
            None => false,
        }
    }

    /// Whether the scheduled overlay is due at `now`: reminders are on, no
    /// overlay is up, no Pomodoro round runs, the countdown is not paused and
    /// it has run out.
    pub open spec fn scheduled_overlay_due(self, now: Moment) -> bool {
        &&& self.active is None
        &&& self.config.enabled
        &&& !self.pomodoro_active
        &&& self.pause_reason is None
        &&& match self.next_due {
            Some(due) => due.reached_by(now),
            None => false,
        }
    }

    /// Whether a manual-pause warning is due at `now`.
    pub open spec fn pause_warning_due(self, now: Moment) -> bool {
        &&& self.active is None
        &&& self.pause_reason == Some(PauseReason::Manual)
        &&& !self.pomodoro_active
        &&& match self.next_warning {
            Some(w) => w.reached_by(now),
            None => false,
        }
    }

    /// How long the countdown has been paused by hand, as the warning reports it.
    pub open spec fn paused_secs_at(self, now: Moment) -> u32 {
        match self.manual_pause_started {
            Some(started) => paused_secs_spec(started, now),
            None => self.config.pause_warning_secs,
        }
    }

    /// First step of a tick: an expired overlay is taken down.
    pub open spec fn tick_expiry(self, now: Moment) -> (SchedulerRuntime, Seq<SchedulerEffect>) {
        if self.overlay_expired(now) {
            (self.finished(now), seq![SchedulerEffect::CloseOverlay])
        } else {
            (self, Seq::empty())
        }
    }

    /// Second step of a tick: a due countdown shows the scheduled overlay.
    pub open spec fn tick_schedule(self, now: Moment) -> (SchedulerRuntime, Seq<SchedulerEffect>) {
        if self.scheduled_overlay_due(now) {
            (
                SchedulerRuntime { next_due: None, ..self }.activated(
                    now,
                    ReminderReason::Scheduled,
                    self.config.duration_secs,
                    self.config.allow_skip,
                ),
                seq![SchedulerEffect::ShowOverlay],
            )
        } else {
            (self, Seq::empty())
        }
    }

    /// Third step of a tick: a due manual-pause warning is given and the next
    /// one is set a warning period (at least a minute) later.
    pub open spec fn tick_warning(self, now: Moment) -> (SchedulerRuntime, Seq<SchedulerEffect>) {
        if self.pause_warning_due(now) {
            (
                SchedulerRuntime {
                    next_warning: Some(now.plus_secs(at_least(self.config.pause_warning_secs, 60) as int)),
                    ..self
                },
                seq![SchedulerEffect::PauseWarning { paused_secs: self.paused_secs_at(now) }],
            )
        } else {
            (self, Seq::empty())
        }
    }

    /// The state after the scheduler's periodic check at `now`, and the work it asks for.
    pub open spec fn on_tick(self, now: Moment) -> (SchedulerRuntime, Seq<SchedulerEffect>) {
        let (s1, e1) = self.tick_expiry(now);
        let (s2, e2) = s1.tick_schedule(now);
        let (s3, e3) = s2.tick_warning(now);
        (s3, e1 + e2 + e3)
    }

    /// Handles a request at `now`; returns the work it asks for.
    pub fn handle_message_at(&mut self, msg: ControlMessage, now: Moment) -> (effects: Vec<SchedulerEffect>)
        requires
            now.is_clock_reading(),
        ensures
            (*final(self), effects@) == old(self).on_message(msg, now),
    {
        let mut effects: Vec<SchedulerEffect> = Vec::new();
        match msg {
            ControlMessage::ApplySettings(updated) => {
                if self.apply_settings_at(updated, now) {
                    effects.push(SchedulerEffect::CloseOverlay);
                }
            },
            ControlMessage::PomodoroStarted => {
                self.pomodoro_started_at(now);
            },
            ControlMessage::PomodoroStopped => {
                self.pomodoro_stopped_at(now);
            },
            ControlMessage::PomodoroWorkCompleted => {
                self.pomodoro_active = false;
                self.pause_reason = None;
                self.next_due = None;
                self.paused_remaining_secs = self.config.interval_secs;
                self.manual_pause_started = None;
                self.next_warning = None;
                if self.config.enabled {
                    let duration_secs = self.config.duration_secs;
                    let allow_skip = self.config.allow_skip;
                    self.activate_at(now, ReminderReason::Pomodoro, duration_secs, allow_skip);
                    effects.push(SchedulerEffect::ShowOverlay);
                } else {
                    self.reset_schedule_at(now);
                }
            },
            ControlMessage::Pause => {
                self.manual_pause_at(now);
            },
            ControlMessage::Resume => {
                self.manual_resume_at(now);
            },
            ControlMessage::Reset => {
                self.reset_schedule_at(now);
            },
            ControlMessage::Preview => {
                if self.active.is_none() {
                    let d = self.config.duration_secs;
                    let secs = if d < 5 { 5 } else if d > 10 { 10 } else { d };
                    self.activate_at(now, ReminderReason::Preview, secs, true);
                    effects.push(SchedulerEffect::ShowOverlay);
                }
            },
            ControlMessage::Dismiss => {
                let can_dismiss = match &self.active {
                    Some(a) => a.allow_skip,
                    None => false,
                };
                if can_dismiss {
                    self.finish_active_at(now);
                    effects.push(SchedulerEffect::CloseOverlay);
                }
            },
        }
        proof {
            assert(effects@ =~= old(self).on_message(msg, now).1);
        }
        effects
    }

    /// Handles a request now; returns the work it asks for.
    pub fn handle_message(&mut self, msg: ControlMessage) -> (effects: Vec<SchedulerEffect>)
        ensures
            exists|now: Moment|
                now.is_clock_reading() && (*final(self), effects@) == #[trigger] old(self).on_message(msg, now),
    {
        let now = self.clock.now();
        self.handle_message_at(msg, now)
    }

    /// How long the countdown has been paused by hand, as of `now`.
    fn paused_secs_exec(&self, now: Moment) -> (secs: u32)
        ensures
            secs == self.paused_secs_at(now),
    {
        match self.manual_pause_started {
            Some(started) => {
                let elapsed: u128 = if now.nanos > started.nanos { now.nanos - started.nanos } else { 0 };
                let whole: u128 = elapsed / 1_000_000_000;
                (whole % 0x1_0000_0000) as u32
            },
            None => self.config.pause_warning_secs,
        }
    }

    /// The scheduler's periodic check at `now`; returns the work it asks for.
    pub fn tick_at(&mut self, now: Moment) -> (effects: Vec<SchedulerEffect>)
        requires
            now.is_clock_reading(),
        ensures
            (*final(self), effects@) == old(self).on_tick(now),
    {
        let ghost s0 = *old(self);
        let mut effects: Vec<SchedulerEffect> = Vec::new();

        let expired = match &self.active {
            Some(a) => a.deadline.is_reached_by(now),
            None => false,
        };
        if expired {
            self.finish_active_at(now);
            effects.push(SchedulerEffect::CloseOverlay);
        }
        let ghost s1 = *self;
        let ghost e1 = effects@;
        assert((s1, e1) == s0.tick_expiry(now));

        let due = match self.next_due {
            Some(d) => d.is_reached_by(now),
            None => false,
        };
        if self.active.is_none() && self.config.enabled && !self.pomodoro_active
            && self.pause_reason.is_none() && due {
            self.next_due = None;
            let duration_secs = self.config.duration_secs;
            let allow_skip = self.config.allow_skip;
            self.activate_at(now, ReminderReason::Scheduled, duration_secs, allow_skip);
            effects.push(SchedulerEffect::ShowOverlay);
        }
        let ghost s2 = *self;
        let ghost e2 = effects@.subrange(e1.len() as int, effects@.len() as int);
        assert((s2, e2) == s1.tick_schedule(now));
        assert(effects@ =~= e1 + e2);

        let warning_due = match self.next_warning {
            Some(w) => w.is_reached_by(now),
            None => false,
        };
        if self.active.is_none() && self.is_manually_paused() && !self.pomodoro_active && warning_due {
            let paused_secs = self.paused_secs_exec(now);
            effects.push(SchedulerEffect::PauseWarning { paused_secs });
            self.next_warning = Some(now.after_secs(max_u32(self.config.pause_warning_secs, 60) as u64));
        }
        let ghost e3 = effects@.subrange((e1.len() + e2.len()) as int, effects@.len() as int);
        assert((*self, e3) == s2.tick_warning(now));
        assert(effects@ =~= e1 + e2 + e3);
        effects
    }

    /// The scheduler's periodic check now; returns the work it asks for.
    pub fn tick(&mut self) -> (effects: Vec<SchedulerEffect>)
        ensures
            exists|now: Moment|
                now.is_clock_reading() && (*final(self), effects@) == #[trigger] old(self).on_tick(now),
    {
        let now = self.clock.now();
        self.tick_at(now)
    }
}

} // verus!
