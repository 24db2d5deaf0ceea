use vstd::prelude::*;

verus! {

/// The rest-reminder part of the application settings, as the user entered it.
pub struct Settings {
    pub rest_reminder_enabled: bool,
    pub rest_reminder_interval_secs: u32,
    pub rest_reminder_duration_secs: u32,
    pub rest_reminder_message: String,
    pub rest_reminder_allow_skip: bool,
    pub rest_reminder_pause_warning_secs: u32,
}

/// The configuration the scheduler runs with.
pub struct ReminderConfig {
    pub enabled: bool,
    /// Seconds between two scheduled overlays.
    pub interval_secs: u32,
    /// Seconds a scheduled or Pomodoro overlay stays up.
    pub duration_secs: u32,
    pub message: String,
    pub allow_skip: bool,
    /// Seconds between two warnings while the countdown is paused by hand.
    pub pause_warning_secs: u32,
}

/// The larger of `value` and `floor`.
pub open spec fn at_least(value: u32, floor: u32) -> u32 {
    if value < floor { floor } else { value }
}

pub(crate) fn max_u32(value: u32, floor: u32) -> (r: u32)
    ensures
        r == at_least(value, floor),
{
    if value < floor { floor } else { value }
}

impl ReminderConfig {
    /// The configuration read from `settings`: the interval and the overlay
    /// duration are at least one second, the pause-warning period at least a minute.
    pub open spec fn from_settings_spec(settings: Settings) -> ReminderConfig {
        ReminderConfig {
            enabled: settings.rest_reminder_enabled,
            interval_secs: at_least(settings.rest_reminder_interval_secs, 1),
            duration_secs: at_least(settings.rest_reminder_duration_secs, 1),
            message: settings.rest_reminder_message,
            allow_skip: settings.rest_reminder_allow_skip,
            pause_warning_secs: at_least(settings.rest_reminder_pause_warning_secs, 60),
        }
    }

    /// A configuration whose periods respect the floors that settings are read with.
    pub open spec fn is_normalized(self) -> bool {
        &&& self.interval_secs >= 1
        &&& self.duration_secs >= 1
        &&& self.pause_warning_secs >= 60
    }

    /// Two configurations with the same values (the message compared by its text).
    pub open spec fn same_values(self, other: ReminderConfig) -> bool {
        &&& self.enabled == other.enabled
        &&& self.interval_secs == other.interval_secs
        &&& self.duration_secs == other.duration_secs
        &&& self.message@ == other.message@
        &&& self.allow_skip == other.allow_skip
        &&& self.pause_warning_secs == other.pause_warning_secs
    }

    /// Reads the scheduler configuration from the application settings.
    pub fn from_settings(settings: &Settings) -> (config: ReminderConfig)
        ensures
            config == ReminderConfig::from_settings_spec(*settings),
            config.is_normalized(),
    {
        ReminderConfig {
            enabled: settings.rest_reminder_enabled,
            interval_secs: max_u32(settings.rest_reminder_interval_secs, 1),
            duration_secs: max_u32(settings.rest_reminder_duration_secs, 1),
            message: settings.rest_reminder_message.clone(),
            allow_skip: settings.rest_reminder_allow_skip,
            pause_warning_secs: max_u32(settings.rest_reminder_pause_warning_secs, 60),
        }
    }

    /// Whether two configurations hold the same values.
    pub fn same_as(&self, other: &ReminderConfig) -> (same: bool)
        ensures
            same == self.same_values(*other),
    {
        self.enabled == other.enabled
            && self.interval_secs == other.interval_secs
            && self.duration_secs == other.duration_secs
            && self.message == other.message
            && self.allow_skip == other.allow_skip
            && self.pause_warning_secs == other.pause_warning_secs
    }
}

} // verus!
