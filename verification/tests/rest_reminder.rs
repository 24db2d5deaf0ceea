use rest_reminder::{
    record_publication, remaining_secs, ControlMessage, Moment, MonotonicClock, PauseReason,
    ReminderConfig, ReminderReason, RestReminderController, RestReminderSnapshot, SchedulerEffect,
    SchedulerRuntime, Settings,
};

fn config() -> ReminderConfig {
    ReminderConfig {
        enabled: true,
        interval_secs: 1200,
        duration_secs: 20,
        message: "Rest".to_string(),
        allow_skip: true,
        pause_warning_secs: 1200,
    }
}

fn at(secs: u64) -> Moment {
    Moment { nanos: secs as u128 * 1_000_000_000 }
}

fn at_nanos(nanos: u128) -> Moment {
    Moment { nanos }
}

fn runtime_at(config: ReminderConfig, now: Moment) -> SchedulerRuntime {
    SchedulerRuntime::new_at(config, MonotonicClock::start(), now)
}

#[test]
fn manual_pause_and_resume_preserve_remaining_time() {
    let mut runtime = SchedulerRuntime::new(config());
    runtime.next_due = Some(runtime.now().after_secs(600));
    runtime.manual_pause();
    assert_eq!(runtime.pause_reason, Some(PauseReason::Manual));
    assert!((599..=600).contains(&runtime.paused_remaining_secs));
    assert!(runtime.next_warning.is_some());

    runtime.manual_resume();
    assert_eq!(runtime.pause_reason, None);
    assert!(runtime.next_due.is_some());
    assert!(runtime.next_warning.is_none());
}

#[test]
fn stopping_pomodoro_resets_background_countdown() {
    let mut runtime = SchedulerRuntime::new(config());
    runtime.next_due = Some(runtime.now().after_secs(60));
    runtime.pomodoro_started();
    assert_eq!(runtime.pause_reason, Some(PauseReason::Pomodoro));
    assert!(runtime.next_due.is_none());

    runtime.pomodoro_stopped();
    let snapshot = runtime.snapshot();
    assert!(!snapshot.is_paused);
    assert!((1199..=1200).contains(&snapshot.timer_remaining_secs));
}

#[test]
fn pomodoro_start_cancels_manual_pause_warning() {
    let mut runtime = SchedulerRuntime::new(config());
    runtime.manual_pause();
    assert!(runtime.next_warning.is_some());
    runtime.pomodoro_started();
    assert_eq!(runtime.pause_reason, Some(PauseReason::Pomodoro));
    assert!(runtime.next_warning.is_none());
    assert!(runtime.manual_pause_started.is_none());
}

#[test]
fn remaining_secs_rounds_up_and_saturates() {
    assert_eq!(remaining_secs(at(600), at(0)), 600);
    assert_eq!(remaining_secs(at_nanos(1_500_000_000), at(0)), 2);
    assert_eq!(remaining_secs(at_nanos(1), at(0)), 1);
    assert_eq!(remaining_secs(at(5), at(5)), 0);
    assert_eq!(remaining_secs(at(5), at(9)), 0);
    assert_eq!(remaining_secs(at(u32::MAX as u64 + 10), at(0)), u32::MAX);
}

#[test]
fn after_secs_adds_whole_seconds() {
    assert_eq!(at(7).after_secs(3), at(10));
    assert!(at(10).is_reached_by(at(10)));
    assert!(!at(10).is_reached_by(at_nanos(9_999_999_999)));
}

#[test]
fn clock_readings_do_not_go_back() {
    let clock = MonotonicClock::start();
    let first = clock.now();
    let second = clock.now();
    assert!(first.nanos <= second.nanos);
    assert!(second.nanos < 3_600 * 1_000_000_000);
}

#[test]
fn settings_are_read_with_floors() {
    let settings = Settings {
        rest_reminder_enabled: true,
        rest_reminder_interval_secs: 0,
        rest_reminder_duration_secs: 0,
        rest_reminder_message: "Look away".to_string(),
        rest_reminder_allow_skip: false,
        rest_reminder_pause_warning_secs: 10,
    };
    let config = ReminderConfig::from_settings(&settings);
    assert!(config.enabled);
    assert_eq!(config.interval_secs, 1);
    assert_eq!(config.duration_secs, 1);
    assert_eq!(config.pause_warning_secs, 60);
    assert_eq!(config.message, "Look away");
    assert!(!config.allow_skip);

    let settings = Settings {
        rest_reminder_interval_secs: 1800,
        rest_reminder_duration_secs: 30,
        rest_reminder_pause_warning_secs: 900,
        ..settings
    };
    let config = ReminderConfig::from_settings(&settings);
    assert_eq!((config.interval_secs, config.duration_secs, config.pause_warning_secs), (1800, 30, 900));
    assert!(config.same_as(&ReminderConfig::from_settings(&settings)));
    assert!(!config.same_as(&ReminderConfig { message: "Other".to_string(), ..ReminderConfig::from_settings(&settings) }));
}

#[test]
fn reason_names() {
    assert_eq!(ReminderReason::Scheduled.as_str(), "scheduled");
    assert_eq!(ReminderReason::Pomodoro.as_str(), "pomodoro");
    assert_eq!(ReminderReason::Preview.as_str(), "preview");
    assert_eq!(PauseReason::Manual.as_str(), "manual");
    assert_eq!(PauseReason::Pomodoro.as_str(), "pomodoro");
}

#[test]
fn started_scheduler_shows_initial_snapshot() {
    let runtime = runtime_at(config(), at(100));
    assert_eq!(runtime.next_due, Some(at(1300)));
    assert_eq!(runtime.snapshot_at(at(100)), RestReminderSnapshot::initial(&config()));

    let disabled = ReminderConfig { enabled: false, ..config() };
    let runtime = runtime_at(disabled, at(100));
    assert_eq!(runtime.next_due, None);
    let initial = RestReminderSnapshot::initial(&ReminderConfig { enabled: false, ..config() });
    assert_eq!(initial.timer_remaining_secs, 0);
    assert_eq!(initial.timer_total_secs, 1200);
    assert_eq!(runtime.snapshot_at(at(100)), initial);
}

#[test]
fn pause_and_resume_at_given_moments() {
    let mut runtime = runtime_at(config(), at(0));
    runtime.next_due = Some(at(600));
    runtime.manual_pause_at(at_nanos(100_500_000_000));
    assert_eq!(runtime.paused_remaining_secs, 500);
    assert_eq!(runtime.next_due, None);
    assert_eq!(runtime.manual_pause_started, Some(at_nanos(100_500_000_000)));
    assert_eq!(runtime.next_warning, Some(at_nanos(1_300_500_000_000)));
    let paused = runtime.snapshot_at(at(5000));
    assert!(paused.is_paused);
    assert_eq!(paused.pause_reason, "manual");
    assert_eq!(paused.timer_remaining_secs, 500);

    runtime.manual_resume_at(at(1000));
    assert_eq!(runtime.next_due, Some(at(1500)));
    assert_eq!(runtime.pause_reason, None);
    assert_eq!(runtime.snapshot_at(at(1000)).timer_remaining_secs, 500);
}

#[test]
fn manual_pause_is_refused_while_held() {
    let mut runtime = runtime_at(config(), at(0));
    runtime.pomodoro_started_at(at(10));
    runtime.manual_pause_at(at(20));
    assert_eq!(runtime.pause_reason, Some(PauseReason::Pomodoro));
    assert_eq!(runtime.paused_remaining_secs, 1190);

    let mut runtime = runtime_at(ReminderConfig { enabled: false, ..config() }, at(0));
    runtime.manual_pause_at(at(20));
    assert_eq!(runtime.pause_reason, None);

    let mut runtime = runtime_at(config(), at(0));
    runtime.manual_resume_at(at(20));
    assert_eq!(runtime.next_due, Some(at(1200)));
}

#[test]
fn pomodoro_round_pauses_and_restarts_countdown() {
    let mut runtime = runtime_at(config(), at(0));
    runtime.pomodoro_started_at(at(1199));
    assert_eq!(runtime.paused_remaining_secs, 1);
    let snapshot = runtime.snapshot_at(at(2000));
    assert!(snapshot.is_paused);
    assert_eq!(snapshot.pause_reason, "pomodoro");
    runtime.pomodoro_stopped_at(at(3000));
    assert_eq!(runtime.next_due, Some(at(4200)));
    assert_eq!(runtime.pause_reason, None);
    let snapshot = runtime.snapshot_at(at(3000));
    assert!(!snapshot.is_paused);
    assert_eq!(snapshot.timer_remaining_secs, 1200);
}

#[test]
fn pomodoro_work_completed_shows_overlay() {
    let mut runtime = runtime_at(config(), at(0));
    runtime.pomodoro_started_at(at(10));
    let effects = runtime.handle_message_at(ControlMessage::PomodoroWorkCompleted, at(100));
    assert_eq!(effects, vec![SchedulerEffect::ShowOverlay]);
    let active = runtime.active.as_ref().unwrap();
    assert_eq!(active.reason, ReminderReason::Pomodoro);
    assert_eq!(active.deadline, at(120));
    assert_eq!(active.message, "Rest");
    assert!(!runtime.pomodoro_active);
    assert_eq!(runtime.next_due, None);
    let snapshot = runtime.snapshot_at(at(105));
    assert!(snapshot.active);
    assert_eq!(snapshot.remaining_secs, 15);
    assert_eq!(snapshot.reason, "pomodoro");
    assert_eq!(snapshot.message, "Rest");

    let effects = runtime.tick_at(at(120));
    assert_eq!(effects, vec![SchedulerEffect::CloseOverlay]);
    assert!(runtime.active.is_none());
    assert_eq!(runtime.next_due, Some(at(1320)));

    let mut off = runtime_at(ReminderConfig { enabled: false, ..config() }, at(0));
    let effects = off.handle_message_at(ControlMessage::PomodoroWorkCompleted, at(100));
    assert!(effects.is_empty());
    assert!(off.active.is_none());
}

#[test]
fn countdown_running_out_shows_scheduled_overlay() {
    let mut runtime = runtime_at(config(), at(0));
    assert!(runtime.tick_at(at(1199)).is_empty());
    let effects = runtime.tick_at(at(1200));
    assert_eq!(effects, vec![SchedulerEffect::ShowOverlay]);
    assert_eq!(runtime.next_due, None);
    let active = runtime.active.as_ref().unwrap();
    assert_eq!(active.reason, ReminderReason::Scheduled);
    assert_eq!(active.deadline, at(1220));
    assert!(active.allow_skip);
    assert_eq!(runtime.snapshot_at(at(1200)).reason, "scheduled");

    assert!(runtime.tick_at(at(1210)).is_empty());
    assert_eq!(runtime.tick_at(at(1220)), vec![SchedulerEffect::CloseOverlay]);
    assert_eq!(runtime.next_due, Some(at(2420)));
    assert_eq!(runtime.snapshot_at(at(1220)).timer_remaining_secs, 1200);
}

#[test]
fn no_scheduled_overlay_while_paused() {
    let mut runtime = runtime_at(config(), at(0));
    runtime.manual_pause_at(at(10));
    assert!(runtime.tick_at(at(5000)).iter().all(|e| *e != SchedulerEffect::ShowOverlay));
    assert!(runtime.active.is_none());
}

#[test]
fn manual_pause_warning_repeats() {
    let mut runtime = runtime_at(config(), at(0));
    runtime.handle_message_at(ControlMessage::Pause, at(10));
    assert!(runtime.tick_at(at(1209)).is_empty());
    assert_eq!(runtime.snapshot_at(at(1209)).next_pause_warning_secs, 1);
    let effects = runtime.tick_at(at(1210));
    assert_eq!(effects, vec![SchedulerEffect::PauseWarning { paused_secs: 1200 }]);
    assert_eq!(runtime.next_warning, Some(at(2410)));
    let effects = runtime.tick_at(at(2415));
    assert_eq!(effects, vec![SchedulerEffect::PauseWarning { paused_secs: 2405 }]);

    runtime.manual_pause_started = None;
    runtime.next_warning = Some(at(3000));
    let effects = runtime.tick_at(at(3000));
    assert_eq!(effects, vec![SchedulerEffect::PauseWarning { paused_secs: 1200 }]);
}

#[test]
fn preview_is_short_and_keeps_countdown() {
    let mut runtime = runtime_at(config(), at(0));
    let effects = runtime.handle_message_at(ControlMessage::Preview, at(100));
    assert_eq!(effects, vec![SchedulerEffect::ShowOverlay]);
    let active = runtime.active.as_ref().unwrap();
    assert_eq!(active.reason, ReminderReason::Preview);
    assert_eq!(active.deadline, at(110));
    assert!(active.allow_skip);
    assert_eq!(runtime.next_due, Some(at(1200)));

    assert!(runtime.handle_message_at(ControlMessage::Preview, at(101)).is_empty());
    assert_eq!(runtime.active.as_ref().unwrap().deadline, at(110));

    assert_eq!(runtime.tick_at(at(110)), vec![SchedulerEffect::CloseOverlay]);
    assert_eq!(runtime.next_due, Some(at(1200)));

    let mut short = runtime_at(ReminderConfig { duration_secs: 1, ..config() }, at(0));
    short.handle_message_at(ControlMessage::Preview, at(0));
    assert_eq!(short.active.as_ref().unwrap().deadline, at(5));

    let mut late = runtime_at(config(), at(0));
    late.handle_message_at(ControlMessage::Preview, at(1195));
    assert_eq!(late.tick_at(at(1205)), vec![SchedulerEffect::CloseOverlay]);
    assert_eq!(late.next_due, Some(at(2405)));
}

#[test]
fn dismiss_only_when_skipping_is_allowed() {
    let mut runtime = runtime_at(ReminderConfig { allow_skip: false, ..config() }, at(0));
    runtime.tick_at(at(1200));
    assert!(runtime.active.is_some());
    assert!(runtime.handle_message_at(ControlMessage::Dismiss, at(1201)).is_empty());
    assert!(runtime.active.is_some());

    let mut runtime = runtime_at(config(), at(0));
    assert!(runtime.handle_message_at(ControlMessage::Dismiss, at(1)).is_empty());
    runtime.tick_at(at(1200));
    let effects = runtime.handle_message_at(ControlMessage::Dismiss, at(1205));
    assert_eq!(effects, vec![SchedulerEffect::CloseOverlay]);
    assert!(runtime.active.is_none());
    assert_eq!(runtime.next_due, Some(at(2405)));
}

#[test]
fn settings_changes() {
    let mut runtime = runtime_at(config(), at(0));
    assert!(runtime.handle_message_at(ControlMessage::ApplySettings(config()), at(50)).is_empty());
    assert_eq!(runtime.next_due, Some(at(1200)));

    let effects = runtime.handle_message_at(
        ControlMessage::ApplySettings(ReminderConfig { duration_secs: 30, ..config() }),
        at(50),
    );
    assert!(effects.is_empty());
    assert_eq!(runtime.config.duration_secs, 30);
    assert_eq!(runtime.next_due, Some(at(1200)));

    runtime.handle_message_at(ControlMessage::ApplySettings(ReminderConfig { interval_secs: 600, ..config() }), at(100));
    assert_eq!(runtime.next_due, Some(at(700)));
    assert_eq!(runtime.paused_remaining_secs, 600);

    runtime.manual_pause_at(at(200));
    runtime.handle_message_at(
        ControlMessage::ApplySettings(ReminderConfig { interval_secs: 600, pause_warning_secs: 300, ..config() }),
        at(250),
    );
    assert_eq!(runtime.next_warning, Some(at(550)));
    assert_eq!(runtime.pause_reason, Some(PauseReason::Manual));

    runtime.manual_resume_at(at(300));
    runtime.tick_at(at(800));
    assert!(runtime.active.is_some());
    let effects = runtime.handle_message_at(
        ControlMessage::ApplySettings(ReminderConfig { enabled: false, ..config() }),
        at(801),
    );
    assert_eq!(effects, vec![SchedulerEffect::CloseOverlay]);
    assert!(runtime.active.is_none());
    assert_eq!(runtime.next_due, None);
    assert_eq!(runtime.pause_reason, None);
    let snapshot = runtime.snapshot_at(at(801));
    assert!(!snapshot.enabled);
    assert_eq!(snapshot.timer_remaining_secs, 0);

    runtime.handle_message_at(ControlMessage::ApplySettings(config()), at(900));
    assert_eq!(runtime.next_due, Some(at(2100)));
}

#[test]
fn reset_restarts_countdown() {
    let mut runtime = runtime_at(config(), at(0));
    runtime.manual_pause_at(at(100));
    assert!(runtime.handle_message_at(ControlMessage::Reset, at(200)).is_empty());
    assert_eq!(runtime.pause_reason, None);
    assert_eq!(runtime.next_warning, None);
    assert_eq!(runtime.next_due, Some(at(1400)));

    runtime.handle_message_at(ControlMessage::PomodoroStarted, at(300));
    runtime.handle_message_at(ControlMessage::Reset, at(400));
    assert_eq!(runtime.pause_reason, Some(PauseReason::Pomodoro));
    assert_eq!(runtime.next_due, None);
    assert_eq!(runtime.paused_remaining_secs, 1200);
    runtime.handle_message_at(ControlMessage::PomodoroStopped, at(500));
    assert_eq!(runtime.next_due, Some(at(1700)));
}

#[test]
fn displayed_countdown_stays_within_total() {
    let mut runtime = runtime_at(config(), at(0));
    let steps: Vec<(u64, ControlMessage)> = vec![
        (10, ControlMessage::Pause),
        (20, ControlMessage::ApplySettings(ReminderConfig { interval_secs: 60, ..config() })),
        (30, ControlMessage::Pause),
        (40, ControlMessage::Resume),
        (50, ControlMessage::PomodoroStarted),
        (60, ControlMessage::PomodoroStopped),
        (70, ControlMessage::Preview),
    ];
    for (t, msg) in steps {
        runtime.handle_message_at(msg, at(t));
        runtime.tick_at(at(t));
        let snapshot = runtime.snapshot_at(at(t));
        assert!(snapshot.timer_remaining_secs <= snapshot.timer_total_secs);
    }
}

#[test]
fn publication_is_announced_only_on_change() {
    let runtime = runtime_at(config(), at(0));
    let mut last = None;
    let first = record_publication(&mut last, runtime.snapshot_at(at(0)));
    assert_eq!(first, Some(RestReminderSnapshot::initial(&config())));
    assert_eq!(last, Some(RestReminderSnapshot::initial(&config())));
    assert_eq!(record_publication(&mut last, runtime.snapshot_at(at_nanos(500_000_000))), None);
    let changed = record_publication(&mut last, runtime.snapshot_at(at(1))).unwrap();
    assert_eq!(changed.timer_remaining_secs, 1199);
    assert_eq!(last.as_ref().unwrap().timer_remaining_secs, 1199);
}

#[test]
fn controller_sends_requests_and_shares_snapshot() {
    let settings = Settings {
        rest_reminder_enabled: true,
        rest_reminder_interval_secs: 1800,
        rest_reminder_duration_secs: 20,
        rest_reminder_message: "Rest".to_string(),
        rest_reminder_allow_skip: true,
        rest_reminder_pause_warning_secs: 600,
    };
    let (controller, endpoint) = RestReminderController::new(&settings);
    assert_eq!(endpoint.initial_config.interval_secs, 1800);
    let initial = controller.snapshot();
    assert_eq!(initial.timer_remaining_secs, 1800);
    assert!(initial.enabled);

    controller.pause();
    controller.apply_settings(&Settings { rest_reminder_interval_secs: 0, ..settings });
    controller.dismiss();
    assert!(matches!(endpoint.inbox.try_recv(), Ok(ControlMessage::Pause)));
    match endpoint.inbox.try_recv() {
        Ok(ControlMessage::ApplySettings(config)) => assert_eq!(config.interval_secs, 1),
        _ => panic!("expected settings"),
    }
    assert!(matches!(endpoint.inbox.try_recv(), Ok(ControlMessage::Dismiss)));

    let mut runtime = runtime_at(endpoint.initial_config, at(0));
    runtime.manual_pause_at(at(100));
    let mut last = None;
    let announced = runtime.publish_state_at(at(100), &endpoint.shared, &mut last);
    assert!(announced.is_some());
    let shared = controller.snapshot();
    assert!(shared.is_paused);
    assert_eq!(shared.timer_remaining_secs, 1700);
    assert_eq!(runtime.publish_state_at(at_nanos(100_500_000_000), &endpoint.shared, &mut last), None);
}

fn assert_consistent(s: &RestReminderSnapshot) {
    assert_eq!(s.active, !s.reason.is_empty());
    assert!(["", "scheduled", "pomodoro", "preview"].contains(&s.reason.as_str()));
    if !s.active {
        assert!(s.message.is_empty());
        assert_eq!(s.remaining_secs, 0);
        assert!(!s.allow_skip);
    }
    assert_eq!(s.is_paused, !s.pause_reason.is_empty());
    assert!(["", "manual", "pomodoro"].contains(&s.pause_reason.as_str()));
    assert!(s.timer_total_secs >= 1);
    assert!(s.timer_remaining_secs <= s.timer_total_secs);
    if !s.enabled {
        assert_eq!(s.timer_remaining_secs, 0);
        assert_ne!(s.pause_reason, "manual");
    }
    if s.next_pause_warning_secs > 0 {
        assert_eq!(s.pause_reason, "manual");
    }
    if s.reason == "preview" {
        assert!(s.allow_skip);
        assert!(s.remaining_secs <= 10);
    }
}

#[test]
fn published_snapshots_stay_consistent() {
    let mut runtime = runtime_at(config(), at(0));
    let steps: Vec<(u64, ControlMessage)> = vec![
        (10, ControlMessage::Pause),
        (20, ControlMessage::ApplySettings(ReminderConfig { pause_warning_secs: 60, ..config() })),
        (90, ControlMessage::Resume),
        (100, ControlMessage::Preview),
        (105, ControlMessage::Dismiss),
        (200, ControlMessage::PomodoroStarted),
        (300, ControlMessage::PomodoroWorkCompleted),
        (400, ControlMessage::Reset),
        (500, ControlMessage::ApplySettings(ReminderConfig { enabled: false, ..config() })),
        (600, ControlMessage::PomodoroStarted),
        (700, ControlMessage::ApplySettings(config())),
    ];
    for (t, msg) in steps {
        runtime.handle_message_at(msg, at(t));
        assert_consistent(&runtime.snapshot_at(at(t)));
        runtime.tick_at(at(t + 5));
        assert_consistent(&runtime.snapshot_at(at(t + 5)));
    }
}

#[test]
fn same_settings_change_nothing() {
    let mut runtime = runtime_at(config(), at(0));
    runtime.manual_pause_at(at(100));
    let before = runtime.snapshot_at(at(200));
    let effects = runtime.handle_message_at(ControlMessage::ApplySettings(config()), at(150));
    assert!(effects.is_empty());
    assert_eq!(runtime.snapshot_at(at(200)), before);
    assert_eq!(runtime.next_warning, Some(at(1300)));
}

#[test]
fn overlay_kept_while_up() {
    let mut runtime = runtime_at(config(), at(0));
    runtime.tick_at(at(1200));
    let deadline = runtime.active.as_ref().unwrap().deadline;
    runtime.handle_message_at(ControlMessage::Pause, at(1201));
    runtime.handle_message_at(ControlMessage::Preview, at(1202));
    runtime.handle_message_at(ControlMessage::ApplySettings(ReminderConfig { duration_secs: 99, ..config() }), at(1203));
    runtime.tick_at(at(1204));
    let active = runtime.active.as_ref().unwrap();
    assert_eq!(active.deadline, deadline);
    assert_eq!(active.reason, ReminderReason::Scheduled);
    runtime.handle_message_at(ControlMessage::PomodoroWorkCompleted, at(1205));
    let active = runtime.active.as_ref().unwrap();
    assert_eq!(active.reason, ReminderReason::Pomodoro);
    assert_eq!(active.deadline, at(1304));
}

#[test]
fn shared_snapshot_lock_round_trip() {
    fn assert_send_sync<T: Send + Sync>() {}
    assert_send_sync::<rest_reminder::SharedSnapshot>();
    let settings = Settings {
        rest_reminder_enabled: false,
        rest_reminder_interval_secs: 300,
        rest_reminder_duration_secs: 20,
        rest_reminder_message: "Rest".to_string(),
        rest_reminder_allow_skip: true,
        rest_reminder_pause_warning_secs: 600,
    };
    let (controller, endpoint) = RestReminderController::new(&settings);
    let initial = controller.snapshot();
    assert!(!initial.enabled);
    assert_eq!(initial.timer_remaining_secs, 0);
    assert_eq!(initial.timer_total_secs, 300);
    let runtime = runtime_at(ReminderConfig { enabled: true, ..endpoint.initial_config }, at(0));
    rest_reminder::store_snapshot(&endpoint.shared, runtime.snapshot_at(at(10)));
    let loaded = rest_reminder::load_snapshot(&endpoint.shared);
    assert_eq!(loaded.timer_remaining_secs, 290);
    assert_eq!(controller.snapshot(), loaded);
}

#[test]
fn requests_run_as_their_operations() {
    let mut looped = runtime_at(config(), at(0));
    let mut direct = runtime_at(config(), at(0));
    let plan: Vec<(u64, ControlMessage)> = vec![
        (10, ControlMessage::Pause),
        (20, ControlMessage::Resume),
        (30, ControlMessage::PomodoroStarted),
        (40, ControlMessage::PomodoroStopped),
        (50, ControlMessage::ApplySettings(ReminderConfig { interval_secs: 900, ..config() })),
        (60, ControlMessage::Reset),
    ];
    for (t, msg) in plan {
        match &msg {
            ControlMessage::Pause => direct.manual_pause_at(at(t)),
            ControlMessage::Resume => direct.manual_resume_at(at(t)),
            ControlMessage::PomodoroStarted => direct.pomodoro_started_at(at(t)),
            ControlMessage::PomodoroStopped => direct.pomodoro_stopped_at(at(t)),
            ControlMessage::Reset => direct.reset_schedule_at(at(t)),
            ControlMessage::ApplySettings(c) => {
                direct.apply_settings_at(ReminderConfig { message: c.message.clone(), ..*c }, at(t));
            }
            _ => unreachable!(),
        }
        assert!(looped.handle_message_at(msg, at(t)).is_empty());
        assert!(looped.tick_at(at(t)).is_empty());
        assert_eq!(looped.snapshot_at(at(t)), direct.snapshot_at(at(t)));
    }
    assert_eq!(looped.next_due, Some(at(960)));
}
