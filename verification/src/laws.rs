//! Properties of the scheduler that span several operations.
use vstd::prelude::*;

use crate::clock::{lemma_remaining_after, lemma_remaining_at_most, Moment, MonotonicClock, NANOS_PER_SEC};
use crate::config::{at_least, ReminderConfig, Settings};
use crate::runtime::{lemma_reason_texts_nonempty, PauseReason, ReminderReason, SchedulerRuntime};
use crate::scheduler::{preview_secs, ControlMessage, SchedulerEffect};
use crate::snapshot::initial_snapshot_view;

verus! {

/// A scheduler that has just started shows the initial snapshot.
pub proof fn lemma_started_shows_initial_snapshot(config: ReminderConfig, clock: MonotonicClock, now: Moment)
    requires
        now.is_clock_reading(),
    ensures
        SchedulerRuntime::started(config, clock, now).snapshot_view(now) == initial_snapshot_view(config),
{
    lemma_remaining_after(now, config.interval_secs);
    assert(SchedulerRuntime::started(config, clock, now).snapshot_view(now) =~= initial_snapshot_view(config));
}

/// Pausing the countdown by hand and resuming it later leaves it with the
/// seconds it had left when it was paused (at least one), however long the
/// pause lasted, and with no pause or pending warning.
pub proof fn lemma_pause_resume_preserves_remaining(s: SchedulerRuntime, paused_at: Moment, resumed_at: Moment)
    requires
        paused_at.is_clock_reading(),
        resumed_at.is_clock_reading(),
        s.can_pause_manually(),
    ensures
        ({
            let r = s.manually_paused(paused_at).manually_resumed(resumed_at);
            &&& r.countdown_left(resumed_at) == at_least(s.countdown_left(paused_at), 1)
            &&& r.pause_reason is None
            &&& r.next_warning is None
            &&& r.manual_pause_started is None
        }),
{
    let p = s.manually_paused(paused_at);
    lemma_remaining_after(resumed_at, at_least(p.paused_remaining_secs, 1));
}

/// While the countdown is paused by hand, the seconds it has left do not move.
pub proof fn lemma_manual_pause_freezes_countdown(s: SchedulerRuntime, paused_at: Moment, later: Moment)
    requires
        paused_at.is_clock_reading(),
        s.can_pause_manually(),
    ensures
        s.manually_paused(paused_at).countdown_left(later) == at_least(s.countdown_left(paused_at), 1),
        s.manually_paused(paused_at).snapshot_view(later).is_paused,
{
}

/// When a Pomodoro round stops, a running countdown (reminders on, no overlay
/// up) starts afresh with the full interval and is not paused.
pub proof fn lemma_pomodoro_stop_restarts_countdown(s: SchedulerRuntime, now: Moment)
    requires
        now.is_clock_reading(),
        s.config.enabled,
        s.active is None,
    ensures
        !s.with_pomodoro_stopped(now).snapshot_view(now).is_paused,
        s.with_pomodoro_stopped(now).snapshot_view(now).timer_remaining_secs == s.config.interval_secs,
{
    lemma_remaining_after(now, s.config.interval_secs);
}

/// Starting a Pomodoro round ends a manual pause: the countdown is paused for
/// the Pomodoro round and no manual-pause warning remains pending.
pub proof fn lemma_pomodoro_start_cancels_manual_pause(s: SchedulerRuntime, paused_at: Moment, now: Moment)
    requires
        paused_at.is_clock_reading(),
        s.can_pause_manually(),
    ensures
        ({
            let r = s.manually_paused(paused_at).with_pomodoro_started(now);
            &&& r.pause_reason == Some(PauseReason::Pomodoro)
            &&& r.next_warning is None
            &&& r.manual_pause_started is None
            &&& r.paused_remaining_secs == at_least(s.countdown_left(paused_at), 1)
        }),
{
}

/// Turning reminders off takes any overlay down, stops the countdown and
/// lifts any pause; the snapshot then shows no countdown.
pub proof fn lemma_disabling_stops_everything(s: SchedulerRuntime, updated: ReminderConfig, now: Moment)
    requires
        now.is_clock_reading(),
        !updated.enabled,
    ensures
        ({
            let (r, effects) = s.on_message(ControlMessage::ApplySettings(updated), now);
            &&& !updated.same_values(s.config) ==> {
                &&& r.active is None
                &&& r.next_due is None
                &&& r.pause_reason is None
                &&& r.next_warning is None
                &&& effects == (if s.active is Some { seq![SchedulerEffect::CloseOverlay] } else { Seq::empty() })
            }
            &&& r.snapshot_view(now).timer_remaining_secs == 0
        }),
{
}

/// An overlay that does not allow skipping cannot be dismissed.
pub proof fn lemma_unskippable_overlay_stays(s: SchedulerRuntime, now: Moment)
    requires
        s.active matches Some(a) && !a.allow_skip,
    ensures
        s.on_message(ControlMessage::Dismiss, now) == (s, Seq::<SchedulerEffect>::empty()),
{
}

/// A preview leaves the background countdown alone: once the preview is over,
/// before the countdown falls due, the countdown and any pause are as before.
pub proof fn lemma_preview_keeps_countdown(s: SchedulerRuntime, shown_at: Moment, ended_at: Moment)
    requires
        shown_at.is_clock_reading(),
        ended_at.is_clock_reading(),
        s.active is None,
        s.next_due matches Some(due) ==> !due.reached_by(ended_at),
    ensures
        ({
            let (shown, effects) = s.on_message(ControlMessage::Preview, shown_at);
            let ended = shown.finished(ended_at);
            &&& effects == seq![SchedulerEffect::ShowOverlay]
            &&& ended.active is None
            &&& ended.next_due == s.next_due
            &&& ended.pause_reason == s.pause_reason
            &&& ended.paused_remaining_secs == s.paused_remaining_secs
            &&& ended.next_warning == s.next_warning
        }),
{
}

/// The invariant that keeps the displayed countdown within its interval at
/// `now`: the interval is at least a second, a paused countdown holds at most
/// an interval, and a running one is due at most an interval after `now`.
pub open spec fn countdown_within_interval(s: SchedulerRuntime, now: Moment) -> bool {
    &&& s.config.interval_secs >= 1
    &&& s.paused_remaining_secs <= s.config.interval_secs
    &&& match s.next_due {
        Some(due) => due.nanos <= now.nanos + s.config.interval_secs * NANOS_PER_SEC,
        None => true,
    }
}

/// A request that can reach the scheduler: settings always come with an
/// interval of at least one second.
pub open spec fn well_formed_message(msg: ControlMessage) -> bool {
    msg matches ControlMessage::ApplySettings(c) ==> c.interval_secs >= 1
}

/// A scheduler started for settings-derived configuration keeps the invariant.
pub proof fn lemma_started_within_interval(config: ReminderConfig, clock: MonotonicClock, now: Moment)
    requires
        now.is_clock_reading(),
        config.interval_secs >= 1,
    ensures
        countdown_within_interval(SchedulerRuntime::started(config, clock, now), now),
{
}

/// The invariant only gets easier as time passes.
pub proof fn lemma_within_interval_later(s: SchedulerRuntime, now: Moment, later: Moment)
    requires
        countdown_within_interval(s, now),
        now.nanos <= later.nanos,
    ensures
        countdown_within_interval(s, later),
{
}

proof fn lemma_rescheduled_within(s: SchedulerRuntime, now: Moment)
    requires
        now.is_clock_reading(),
        s.config.interval_secs >= 1,
    ensures
        countdown_within_interval(s.rescheduled(now), now),
{
}

proof fn lemma_countdown_left_within(s: SchedulerRuntime, now: Moment)
    requires
        countdown_within_interval(s, now),
    ensures
        at_least(s.countdown_left(now), 1) <= s.config.interval_secs,
{
    if let Some(due) = s.next_due {
        lemma_remaining_at_most(due, now, s.config.interval_secs);
    }
}

proof fn lemma_finished_within(s: SchedulerRuntime, now: Moment)
    requires
        now.is_clock_reading(),
        countdown_within_interval(s, now),
    ensures
        countdown_within_interval(s.finished(now), now),
{
    lemma_rescheduled_within(SchedulerRuntime { active: None, ..s }, now);
}

/// Every request handled at a moment no earlier than the last keeps the invariant.
pub proof fn lemma_message_keeps_within_interval(s: SchedulerRuntime, msg: ControlMessage, before: Moment, now: Moment)
    requires
        now.is_clock_reading(),
        before.nanos <= now.nanos,
        countdown_within_interval(s, before),
        well_formed_message(msg),
    ensures
        countdown_within_interval(s.on_message(msg, now).0, now),
{
    lemma_within_interval_later(s, before, now);
    lemma_countdown_left_within(s, now);
    match msg {
        ControlMessage::ApplySettings(updated) => {
            lemma_rescheduled_within(SchedulerRuntime { config: updated, ..s }, now);
            lemma_rescheduled_within(SchedulerRuntime { config: updated, active: None, ..s }, now);
        },
        ControlMessage::PomodoroStopped => {
            lemma_rescheduled_within(SchedulerRuntime { pomodoro_active: false, ..s }, now);
        },
        ControlMessage::PomodoroWorkCompleted => {
            let settled = SchedulerRuntime {
                pomodoro_active: false,
                pause_reason: None,
                next_due: None,
                paused_remaining_secs: s.config.interval_secs,
                manual_pause_started: None,
                next_warning: None,
                ..s
            };
            lemma_rescheduled_within(settled, now);
        },
        ControlMessage::Reset => {
            lemma_rescheduled_within(s, now);
        },
        ControlMessage::Resume => {
            if s.can_resume_manually() {
                lemma_remaining_after(now, at_least(s.paused_remaining_secs, 1));
            }
        },
        ControlMessage::Dismiss => {
            lemma_finished_within(s, now);
        },
        _ => {},
    }
}

/// The periodic check at a moment no earlier than the last keeps the invariant.
pub proof fn lemma_tick_keeps_within_interval(s: SchedulerRuntime, before: Moment, now: Moment)
    requires
        now.is_clock_reading(),
        before.nanos <= now.nanos,
        countdown_within_interval(s, before),
    ensures
        countdown_within_interval(s.on_tick(now).0, now),
{
    lemma_within_interval_later(s, before, now);
    lemma_finished_within(s, now);
}

/// In a state that keeps the invariant, the displayed countdown never exceeds
/// the interval it counts down from.
pub proof fn lemma_displayed_countdown_within_total(s: SchedulerRuntime, now: Moment)
    requires
        countdown_within_interval(s, now),
    ensures
        s.snapshot_view(now).timer_remaining_secs <= s.snapshot_view(now).timer_total_secs,
{
    if let Some(due) = s.next_due {
        lemma_remaining_at_most(due, now, s.config.interval_secs);
    }
}

/// A tick whose expiry step leaves no scheduled overlay due shows no overlay.
proof fn lemma_tick_without_schedule_shows_nothing(s: SchedulerRuntime, now: Moment)
    requires
        !s.tick_expiry(now).0.scheduled_overlay_due(now),
    ensures
        !s.on_tick(now).1.contains(SchedulerEffect::ShowOverlay),
{
    let (s1, e1) = s.tick_expiry(now);
    let (s2, e2) = s1.tick_schedule(now);
    let (s3, e3) = s2.tick_warning(now);
    assert(e2 == Seq::<SchedulerEffect>::empty());
    if (e1 + e2 + e3).contains(SchedulerEffect::ShowOverlay) {
        let i = choose|i: int| 0 <= i < (e1 + e2 + e3).len() && (e1 + e2 + e3)[i] == SchedulerEffect::ShowOverlay;
        if i < e1.len() {
            assert(e1[i] == SchedulerEffect::ShowOverlay);
        } else {
            assert(e3[i - e1.len() - e2.len()] == SchedulerEffect::ShowOverlay);
        }
    }
}

/// A tick never shows the scheduled overlay while the countdown is paused, a
/// Pomodoro round runs, or reminders are off.
pub proof fn lemma_no_scheduled_overlay_while_held(s: SchedulerRuntime, now: Moment)
    requires
        now.is_clock_reading(),
        s.config.interval_secs >= 1,
        s.pause_reason is Some || s.pomodoro_active || !s.config.enabled,
    ensures
        !s.on_tick(now).1.contains(SchedulerEffect::ShowOverlay),
{
    lemma_remaining_after(now, s.config.interval_secs);
    assert(!s.tick_expiry(now).0.scheduled_overlay_due(now));
    lemma_tick_without_schedule_shows_nothing(s, now);
}

/// A tick at or after the overlay's deadline takes it down, and no new overlay
/// goes up in the same tick.
pub proof fn lemma_expired_overlay_closes(s: SchedulerRuntime, now: Moment)
    requires
        now.is_clock_reading(),
        s.config.interval_secs >= 1,
        s.overlay_expired(now),
    ensures
        s.on_tick(now).1[0] == SchedulerEffect::CloseOverlay,
        s.on_tick(now).0.active is None,
        !s.on_tick(now).1.contains(SchedulerEffect::ShowOverlay),
{
    lemma_remaining_after(now, s.config.interval_secs);
    let (s1, e1) = s.tick_expiry(now);
    let (s2, e2) = s1.tick_schedule(now);
    let (s3, e3) = s2.tick_warning(now);
    assert(!s1.scheduled_overlay_due(now));
    assert((e1 + e2 + e3)[0] == SchedulerEffect::CloseOverlay);
    lemma_tick_without_schedule_shows_nothing(s, now);
}

/// A tick shows the scheduled overlay once the countdown has run out, while
/// reminders are on, nothing holds the countdown and no overlay is up.
pub proof fn lemma_due_countdown_shows_overlay(s: SchedulerRuntime, now: Moment)
    requires
        s.scheduled_overlay_due(now),
    ensures
        s.on_tick(now).1.contains(SchedulerEffect::ShowOverlay),
        s.on_tick(now).0.active matches Some(a) && a.reason == crate::runtime::ReminderReason::Scheduled,
{
    let (s1, e1) = s.tick_expiry(now);
    let (s2, e2) = s1.tick_schedule(now);
    let (s3, e3) = s2.tick_warning(now);
    assert((e1 + e2 + e3)[0] == SchedulerEffect::ShowOverlay);
}

/// The settings an overlay started with after a step from `before` to
/// `after`: those it had if the overlay is the same one, else the settings in
/// force after the step (the steps that put an overlay up keep the settings).
pub open spec fn overlay_settings_after(
    before: SchedulerRuntime,
    after: SchedulerRuntime,
    started_with: ReminderConfig,
) -> ReminderConfig {
    if after.active == before.active { started_with } else { after.config }
}

/// The invariant that keeps every published snapshot consistent at `now`,
/// where `started_with` holds the settings in force when the current overlay
/// was put up: the countdown invariant; a manual pause only while reminders
/// are on; a pending warning only during a manual pause and at most one warning
/// period (at least a minute) ahead; a preview overlay skippable and at most
/// ten seconds from its end; a scheduled or Pomodoro overlay skippable as it
/// was configured and at most its configured duration (at least a second) from
/// its end.
pub open spec fn published_state_invariant(s: SchedulerRuntime, now: Moment, started_with: ReminderConfig) -> bool {
    &&& countdown_within_interval(s, now)
    &&& s.pause_reason == Some(PauseReason::Manual) ==> s.config.enabled
    &&& match s.next_warning {
        Some(w) => s.pause_reason == Some(PauseReason::Manual) && w.nanos <= now.nanos + at_least(
            s.config.pause_warning_secs,
            60,
        ) * NANOS_PER_SEC,
        None => true,
    }
    &&& match s.active {
        Some(a) => if a.reason == ReminderReason::Preview {
            a.allow_skip && a.deadline.nanos <= now.nanos + 10 * NANOS_PER_SEC
        } else {
            a.allow_skip == started_with.allow_skip && a.deadline.nanos <= now.nanos + at_least(
                started_with.duration_secs,
                1,
            ) * NANOS_PER_SEC
        },
        None => true,
    }
}

/// A scheduler started for settings-derived configuration keeps the invariant.
pub proof fn lemma_started_keeps_published_invariant(
    config: ReminderConfig,
    clock: MonotonicClock,
    now: Moment,
    started_with: ReminderConfig,
)
    requires
        now.is_clock_reading(),
        config.interval_secs >= 1,
    ensures
        published_state_invariant(SchedulerRuntime::started(config, clock, now), now, started_with),
{
}

/// The invariant only gets easier as time passes.
pub proof fn lemma_published_invariant_later(
    s: SchedulerRuntime,
    now: Moment,
    later: Moment,
    started_with: ReminderConfig,
)
    requires
        published_state_invariant(s, now, started_with),
        now.nanos <= later.nanos,
    ensures
        published_state_invariant(s, later, started_with),
{
}

proof fn lemma_finished_keeps_published(s: SchedulerRuntime, now: Moment, started_with: ReminderConfig)
    requires
        now.is_clock_reading(),
        published_state_invariant(s, now, started_with),
    ensures
        published_state_invariant(s.finished(now), now, started_with),
{
    lemma_finished_within(s, now);
}

/// Every request handled at a moment no earlier than the last keeps the
/// invariant, with an overlay it puts up carrying the settings in force.
pub proof fn lemma_message_keeps_published_invariant(
    s: SchedulerRuntime,
    msg: ControlMessage,
    before: Moment,
    now: Moment,
    started_with: ReminderConfig,
)
    requires
        now.is_clock_reading(),
        before.nanos <= now.nanos,
        published_state_invariant(s, before, started_with),
        well_formed_message(msg),
    ensures
        published_state_invariant(
            s.on_message(msg, now).0,
            now,
            overlay_settings_after(s, s.on_message(msg, now).0, started_with),
        ),
{
    lemma_message_keeps_within_interval(s, msg, before, now);
    lemma_published_invariant_later(s, before, now, started_with);
    match msg {
        ControlMessage::Dismiss => {
            lemma_finished_keeps_published(s, now, started_with);
        },
        _ => {},
    }
}

/// The periodic check at a moment no earlier than the last keeps the
/// invariant, with a scheduled overlay it puts up carrying the settings in force.
pub proof fn lemma_tick_keeps_published_invariant(
    s: SchedulerRuntime,
    before: Moment,
    now: Moment,
    started_with: ReminderConfig,
)
    requires
        now.is_clock_reading(),
        before.nanos <= now.nanos,
        published_state_invariant(s, before, started_with),
    ensures
        published_state_invariant(s.on_tick(now).0, now, overlay_settings_after(s, s.on_tick(now).0, started_with)),
{
    lemma_tick_keeps_within_interval(s, before, now);
    lemma_published_invariant_later(s, before, now, started_with);
    lemma_finished_keeps_published(s, now, started_with);
    let (s1, e1) = s.tick_expiry(now);
    let (s2, e2) = s1.tick_schedule(now);
    if s1.active is Some && s1.active == s.active {
        assert(s2 == s1);
    }
}

/// Every snapshot taken of a state that keeps the invariant is consistent:
/// its overlay fields agree with the overlay, the countdown total is at least
/// a second and the countdown within it, a disabled countdown shows nothing
/// and no manual pause, the pause text is one of the known ones and set
/// exactly when paused, a pending warning appears only during a manual pause
/// and at most one warning period ahead, a preview is skippable and at most
/// ten seconds long, and a scheduled or Pomodoro overlay shows the skip
/// permission and at most the duration it was started with.
pub proof fn lemma_published_snapshot_consistent(s: SchedulerRuntime, now: Moment, started_with: ReminderConfig)
    requires
        published_state_invariant(s, now, started_with),
    ensures
        ({
            let v = s.snapshot_view(now);
            &&& v.is_consistent()
            &&& v.timer_total_secs >= 1
            &&& v.timer_remaining_secs <= v.timer_total_secs
            &&& !v.enabled ==> v.timer_remaining_secs == 0 && v.pause_reason != "manual"@
            &&& v.pause_reason == Seq::<char>::empty() || v.pause_reason == "manual"@ || v.pause_reason
                == "pomodoro"@
            &&& v.next_pause_warning_secs > 0 ==> v.pause_reason == "manual"@
            &&& v.next_pause_warning_secs <= at_least(s.config.pause_warning_secs, 60)
            &&& v.reason == Seq::<char>::empty() || v.reason == "scheduled"@ || v.reason == "pomodoro"@
                || v.reason == "preview"@
            &&& v.reason == "preview"@ ==> v.allow_skip && v.remaining_secs <= 10
            &&& (v.reason == "scheduled"@ || v.reason == "pomodoro"@) ==> v.allow_skip == started_with.allow_skip
                && v.remaining_secs <= at_least(started_with.duration_secs, 1)
        }),
{
    lemma_reason_texts_nonempty();
    lemma_displayed_countdown_within_total(s, now);
    reveal_strlit("scheduled");
    reveal_strlit("pomodoro");
    reveal_strlit("preview");
    reveal_strlit("manual");
    if let Some(w) = s.next_warning {
        lemma_remaining_at_most(w, now, at_least(s.config.pause_warning_secs, 60));
    }
    if let Some(a) = s.active {
        if a.reason == ReminderReason::Preview {
            lemma_remaining_at_most(a.deadline, now, 10);
        } else {
            lemma_remaining_at_most(a.deadline, now, at_least(started_with.duration_secs, 1));
        }
    }
}

/// Sending the settings already in force changes nothing: the countdown, any
/// pause and any overlay stay as they are, and no window is opened or closed.
pub proof fn lemma_same_settings_change_nothing(s: SchedulerRuntime, updated: ReminderConfig, now: Moment)
    requires
        updated.same_values(s.config),
    ensures
        s.on_message(ControlMessage::ApplySettings(updated), now) == (s, Seq::<SchedulerEffect>::empty()),
{
}

/// An overlay put up by a request carries the settings in force: a preview is
/// skippable and lasts the configured duration kept within 5 to 10 seconds; a
/// Pomodoro overlay lasts the configured duration (at least a second) and may
/// be skipped as configured.
pub proof fn lemma_requested_overlay_takes_settings(s: SchedulerRuntime, now: Moment)
    requires
        now.is_clock_reading(),
    ensures
        s.active is None ==> ({
            let v = s.on_message(ControlMessage::Preview, now).0.snapshot_view(now);
            &&& v.active && v.allow_skip && v.reason == "preview"@
            &&& v.remaining_secs == preview_secs(s.config.duration_secs)
            &&& 5 <= v.remaining_secs <= 10
        }),
        s.config.enabled ==> ({
            let v = s.on_message(ControlMessage::PomodoroWorkCompleted, now).0.snapshot_view(now);
            &&& v.active && v.reason == "pomodoro"@
            &&& v.allow_skip == s.config.allow_skip
            &&& v.remaining_secs == at_least(s.config.duration_secs, 1)
        }),
{
    lemma_remaining_after(now, preview_secs(s.config.duration_secs));
    lemma_remaining_after(now, at_least(s.config.duration_secs, 1));
}

/// The scheduled overlay a tick puts up lasts the configured duration (at
/// least a second) and may be skipped as configured.
pub proof fn lemma_scheduled_overlay_takes_settings(s: SchedulerRuntime, now: Moment)
    requires
        now.is_clock_reading(),
        s.scheduled_overlay_due(now),
    ensures
        ({
            let v = s.on_tick(now).0.snapshot_view(now);
            &&& v.active && v.reason == "scheduled"@
            &&& v.allow_skip == s.config.allow_skip
            &&& v.remaining_secs == at_least(s.config.duration_secs, 1)
        }),
{
    lemma_remaining_after(now, at_least(s.config.duration_secs, 1));
}

/// While an overlay stays up it keeps its deadline, message, skip permission
/// and reason: no request changes it, except a completed Pomodoro work round,
/// which puts a new Pomodoro overlay up in its place.
pub proof fn lemma_overlay_kept_while_up(s: SchedulerRuntime, msg: ControlMessage, now: Moment)
    requires
        now.is_clock_reading(),
        s.active is Some,
        s.on_message(msg, now).0.active is Some,
        !(msg is PomodoroWorkCompleted),
    ensures
        s.on_message(msg, now).0.active == s.active,
{
}

/// While an overlay stays up through a tick it keeps its deadline, message,
/// skip permission and reason.
pub proof fn lemma_overlay_kept_through_tick(s: SchedulerRuntime, now: Moment)
    requires
        now.is_clock_reading(),
        s.config.interval_secs >= 1,
        s.active is Some,
        s.on_tick(now).0.active is Some,
    ensures
        s.on_tick(now).0.active == s.active,
{
    lemma_remaining_after(now, s.config.interval_secs);
    if s.overlay_expired(now) {
        assert(!s.tick_expiry(now).0.scheduled_overlay_due(now));
    }
}

/// The operation of the scheduler that a request stands for, applied at `now`.
pub open spec fn operation_for(s: SchedulerRuntime, msg: ControlMessage, now: Moment) -> SchedulerRuntime {
    match msg {
        ControlMessage::ApplySettings(updated) => s.with_settings(updated, now),
        ControlMessage::PomodoroStarted => s.with_pomodoro_started(now),
        ControlMessage::PomodoroStopped => s.with_pomodoro_stopped(now),
        ControlMessage::Pause => s.manually_paused(now),
        ControlMessage::Resume => s.manually_resumed(now),
        ControlMessage::Reset => s.rescheduled(now),
        _ => s,
    }
}

/// A request that stands for one of the scheduler's own operations (it neither
/// ends a work round nor shows or dismisses an overlay).
pub open spec fn is_operation_request(msg: ControlMessage) -> bool {
    !(msg is PomodoroWorkCompleted || msg is Preview || msg is Dismiss)
}

/// The state after applying, in order, the operations the requests stand for,
/// each at its moment.
pub open spec fn operations_applied(s: SchedulerRuntime, msgs: Seq<ControlMessage>, times: Seq<Moment>) -> SchedulerRuntime
    decreases msgs.len(),
{
    if msgs.len() == 0 {
        s
    } else {
        operation_for(operations_applied(s, msgs.drop_last(), times.drop_last()), msgs.last(), times.last())
    }
}

/// The scheduler loop over the requests, in the order they were sent: each is
/// handled at its moment and followed by the periodic check at that moment.
/// The flag tells whether every one of those checks found nothing due.
pub open spec fn requests_handled(s: SchedulerRuntime, msgs: Seq<ControlMessage>, times: Seq<Moment>) -> (SchedulerRuntime, bool)
    decreases msgs.len(),
{
    if msgs.len() == 0 {
        (s, true)
    } else {
        let (prefix, quiet) = requests_handled(s, msgs.drop_last(), times.drop_last());
        let handled = prefix.on_message(msgs.last(), times.last()).0;
        let (ticked, effects) = handled.on_tick(times.last());
        (ticked, quiet && effects.len() == 0)
    }
}

/// A periodic check that finds nothing due changes nothing.
pub proof fn lemma_quiet_tick_changes_nothing(s: SchedulerRuntime, now: Moment)
    requires
        s.on_tick(now).1.len() == 0,
    ensures
        s.on_tick(now).0 == s,
{
    let (s1, e1) = s.tick_expiry(now);
    let (s2, e2) = s1.tick_schedule(now);
    let (s3, e3) = s2.tick_warning(now);
    assert((e1 + e2 + e3).len() == e1.len() + e2.len() + e3.len());
}

/// Requests handled one after the other by the scheduler loop, while no
/// overlay, countdown or warning falls due, leave the scheduler (and so every
/// snapshot it publishes) as the corresponding operations applied in the same
/// order would.
pub proof fn lemma_requests_run_as_operations(s: SchedulerRuntime, msgs: Seq<ControlMessage>, times: Seq<Moment>)
    requires
        msgs.len() == times.len(),
        forall|i: int| 0 <= i < msgs.len() ==> is_operation_request(#[trigger] msgs[i]),
        requests_handled(s, msgs, times).1,
    ensures
        requests_handled(s, msgs, times).0 == operations_applied(s, msgs, times),
        msgs.len() > 0 ==> requests_handled(s, msgs, times).0.snapshot_view(times.last())
            == operations_applied(s, msgs, times).snapshot_view(times.last()),
    decreases msgs.len(),
{
    if msgs.len() > 0 {
        let prefix_msgs = msgs.drop_last();
        let prefix_times = times.drop_last();
        assert forall|i: int| 0 <= i < prefix_msgs.len() implies is_operation_request(#[trigger] prefix_msgs[i]) by {
            assert(prefix_msgs[i] == msgs[i]);
        }
        let (prefix, quiet) = requests_handled(s, prefix_msgs, prefix_times);
        lemma_requests_run_as_operations(s, prefix_msgs, prefix_times);
        assert(is_operation_request(msgs[msgs.len() - 1]));
        let handled = prefix.on_message(msgs.last(), times.last()).0;
        assert(handled == operation_for(prefix, msgs.last(), times.last()));
        lemma_quiet_tick_changes_nothing(handled, times.last());
    }
}

/// Dismissing a skippable preview before the countdown falls due takes the
/// preview down and leaves the countdown as it was: the due moment, any pause
/// (manual or Pomodoro) with its seconds left and its pending warning, and the
/// settings are all kept.
pub proof fn lemma_dismissing_preview_keeps_countdown(s: SchedulerRuntime, now: Moment)
    requires
        now.is_clock_reading(),
        s.active matches Some(a) && a.reason == ReminderReason::Preview && a.allow_skip,
        s.next_due matches Some(due) ==> !due.reached_by(now),
    ensures
        ({
            let (r, effects) = s.on_message(ControlMessage::Dismiss, now);
            &&& effects == seq![SchedulerEffect::CloseOverlay]
            &&& r.active is None
            &&& r.next_due == s.next_due
            &&& r.pause_reason == s.pause_reason
            &&& r.paused_remaining_secs == s.paused_remaining_secs
            &&& r.next_warning == s.next_warning
            &&& r.manual_pause_started == s.manual_pause_started
            &&& r.pomodoro_active == s.pomodoro_active
            &&& r.config == s.config
        }),
{
}

/// Dismissing a skippable scheduled or Pomodoro overlay ends the rest like its
/// expiry does: the countdown restarts with the full interval when reminders
/// are on and no Pomodoro round runs, and any manual pause is over.
pub proof fn lemma_dismissing_rest_overlay_restarts_countdown(s: SchedulerRuntime, now: Moment)
    requires
        now.is_clock_reading(),
        s.active matches Some(a) && a.reason != ReminderReason::Preview && a.allow_skip,
        s.config.enabled,
        !s.pomodoro_active,
    ensures
        ({
            let (r, effects) = s.on_message(ControlMessage::Dismiss, now);
            &&& effects == seq![SchedulerEffect::CloseOverlay]
            &&& r.active is None
            &&& r.next_due == Some(Moment { nanos: (now.nanos + s.config.interval_secs * NANOS_PER_SEC) as u128 })
            &&& r.pause_reason is None
            &&& r.paused_remaining_secs == s.config.interval_secs
            &&& r.next_warning is None
        }),
{
}

/// Dismissing a skippable overlay whose time is up leaves the scheduler as the
/// overlay's own expiry at that moment would.
pub proof fn lemma_dismiss_matches_expiry(s: SchedulerRuntime, now: Moment)
    requires
        now.is_clock_reading(),
        s.active matches Some(a) && a.allow_skip && a.deadline.nanos <= now.nanos,
    ensures
        s.on_message(ControlMessage::Dismiss, now) == s.tick_expiry(now),
{
}

/// New settings take effect: whatever the scheduler does with them, its
/// configuration afterwards holds the values of the new settings.
pub proof fn lemma_settings_take_effect(s: SchedulerRuntime, updated: ReminderConfig, now: Moment)
    ensures
        s.with_settings(updated, now).config.same_values(updated),
        s.on_message(ControlMessage::ApplySettings(updated), now).0.config.same_values(updated),
        !updated.same_values(s.config) ==> s.with_settings(updated, now).config == updated,
{
}

/// While the countdown is paused and reminders are on, the snapshot shows the
/// seconds the countdown had left when it was paused (at most the interval),
/// whatever paused it.
pub proof fn lemma_paused_snapshot_shows_seconds_left(s: SchedulerRuntime, now: Moment)
    requires
        s.config.enabled,
        s.next_due is None,
    ensures
        s.snapshot_view(now).timer_remaining_secs == (if s.paused_remaining_secs <= s.config.interval_secs {
            s.paused_remaining_secs
        } else {
            s.config.interval_secs
        }),
{
}

/// Starting a Pomodoro round while the countdown runs freezes the displayed
/// countdown: every later snapshot shows the seconds the snapshot showed when
/// the round started (at least one).
pub proof fn lemma_pomodoro_start_freezes_display(s: SchedulerRuntime, started_at: Moment, later: Moment)
    requires
        countdown_within_interval(s, started_at),
        s.config.enabled,
        s.next_due is Some,
    ensures
        s.with_pomodoro_started(started_at).snapshot_view(later).timer_remaining_secs == at_least(
            s.snapshot_view(started_at).timer_remaining_secs,
            1,
        ),
        s.with_pomodoro_started(started_at).snapshot_view(later).is_paused,
{
    lemma_countdown_left_within(s, started_at);
}

/// Pausing the countdown by hand while it runs freezes the displayed
/// countdown: every later snapshot shows the seconds the snapshot showed when
/// it was paused (at least one).
pub proof fn lemma_manual_pause_freezes_display(s: SchedulerRuntime, paused_at: Moment, later: Moment)
    requires
        countdown_within_interval(s, paused_at),
        s.can_pause_manually(),
        s.next_due is Some,
    ensures
        s.manually_paused(paused_at).snapshot_view(later).timer_remaining_secs == at_least(
            s.snapshot_view(paused_at).timer_remaining_secs,
            1,
        ),
{
    lemma_countdown_left_within(s, paused_at);
}

/// A manual-pause warning reports the whole seconds elapsed since the pause
/// began (for pauses shorter than 2^32 seconds), and it is the only work the
/// tick asks for.
pub proof fn lemma_pause_warning_reports_elapsed(s: SchedulerRuntime, started: Moment, now: Moment)
    requires
        s.pause_warning_due(now),
        s.manual_pause_started == Some(started),
        started.nanos <= now.nanos,
        now.nanos - started.nanos < 0x1_0000_0000 * NANOS_PER_SEC,
    ensures
        s.on_tick(now).1.len() == 1,
        s.on_tick(now).1[0] matches SchedulerEffect::PauseWarning { paused_secs }
            && paused_secs as int == (now.nanos - started.nanos) / (NANOS_PER_SEC as int),
{
    let elapsed: int = now.nanos - started.nanos;
    assert(elapsed / 1_000_000_000 < 0x1_0000_0000) by (nonlinear_arith)
        requires
            0 <= elapsed < 0x1_0000_0000 * 1_000_000_000,
    ;
    vstd::arithmetic::div_mod::lemma_small_mod((elapsed / 1_000_000_000) as nat, 0x1_0000_0000);
    let (s1, e1) = s.tick_expiry(now);
    let (s2, e2) = s1.tick_schedule(now);
    let (s3, e3) = s2.tick_warning(now);
    assert(e1 + e2 + e3 =~= e3);
}

/// After a manual-pause warning the next one comes one warning period (at
/// least a minute) later, and the pause itself goes on.
pub proof fn lemma_pause_warning_repeats_after_period(s: SchedulerRuntime, now: Moment)
    requires
        now.is_clock_reading(),
        s.pause_warning_due(now),
    ensures
        s.on_tick(now).0.snapshot_view(now).next_pause_warning_secs == at_least(s.config.pause_warning_secs, 60),
        s.on_tick(now).0.pause_reason == Some(PauseReason::Manual),
        s.on_tick(now).0.manual_pause_started == s.manual_pause_started,
{
    lemma_remaining_after(now, at_least(s.config.pause_warning_secs, 60));
}

/// A completed Pomodoro work round, with reminders on, ends the round and any
/// pause, and shows a Pomodoro overlay; once that overlay ends, the countdown
/// runs again from the full interval.
pub proof fn lemma_work_round_rest_then_countdown(s: SchedulerRuntime, now: Moment, ended_at: Moment)
    requires
        now.is_clock_reading(),
        ended_at.is_clock_reading(),
        s.config.enabled,
    ensures
        ({
            let (r, effects) = s.on_message(ControlMessage::PomodoroWorkCompleted, now);
            &&& effects == seq![SchedulerEffect::ShowOverlay]
            &&& !r.pomodoro_active
            &&& r.pause_reason is None
            &&& r.next_warning is None
            &&& r.active matches Some(a) && a.reason == ReminderReason::Pomodoro
            &&& r.finished(ended_at).next_due == Some(
                Moment { nanos: (ended_at.nanos + s.config.interval_secs * NANOS_PER_SEC) as u128 },
            )
            &&& r.finished(ended_at).snapshot_view(ended_at).timer_remaining_secs == s.config.interval_secs
        }),
{
    lemma_remaining_after(ended_at, s.config.interval_secs);
}

/// Reading the settings keeps what has no floor as the user entered it and
/// raises each period only up to its floor: the interval and duration to one
/// second, the warning period to a minute.
pub proof fn lemma_settings_read_faithfully(settings: Settings)
    ensures
        ({
            let c = ReminderConfig::from_settings_spec(settings);
            &&& c.enabled == settings.rest_reminder_enabled
            &&& c.allow_skip == settings.rest_reminder_allow_skip
            &&& c.message == settings.rest_reminder_message
            &&& c.interval_secs >= 1 && c.interval_secs >= settings.rest_reminder_interval_secs
            &&& settings.rest_reminder_interval_secs >= 1 ==> c.interval_secs == settings.rest_reminder_interval_secs
            &&& c.duration_secs >= 1 && c.duration_secs >= settings.rest_reminder_duration_secs
            &&& settings.rest_reminder_duration_secs >= 1 ==> c.duration_secs == settings.rest_reminder_duration_secs
            &&& c.pause_warning_secs >= 60 && c.pause_warning_secs >= settings.rest_reminder_pause_warning_secs
            &&& settings.rest_reminder_pause_warning_secs >= 60 ==> c.pause_warning_secs
                == settings.rest_reminder_pause_warning_secs
        }),
{
}

} // verus!
