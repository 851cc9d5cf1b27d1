//! User preferences: the immutable-per-tick value bundle the engine reads.
//!
//! Times are modelled in whole seconds. The idle threshold is clamped to
//! [`MIN_IDLE_THRESHOLD_MINUTES`, `MAX_IDLE_THRESHOLD_MINUTES`] before use,
//! and an interval is always at least one minute long when converted to a
//! duration in seconds.

use vstd::prelude::*;

verus! {

/// Default reminder interval in minutes.
pub const DEFAULT_INTERVAL_MINUTES: u64 = 30;

/// Smallest interval a preferences update may set, in minutes.
pub const MIN_INTERVAL_MINUTES: u64 = 2;

/// Largest interval a preferences update may set, in minutes.
pub const MAX_INTERVAL_MINUTES: u64 = 240;

/// Default idle threshold in minutes.
pub const DEFAULT_IDLE_THRESHOLD_MINUTES: u64 = 2;

/// Smallest effective idle threshold in minutes.
pub const MIN_IDLE_THRESHOLD_MINUTES: u64 = 1;

/// Largest effective idle threshold in minutes.
pub const MAX_IDLE_THRESHOLD_MINUTES: u64 = 30;

/// Colour theme carried through to the UI; the engine never reads it.
#[derive(Clone, Copy, Debug, PartialEq, Eq, Structural)]
pub enum ThemeMode {
    Dark,
    Light,
}

/// The value bundle read by the engine each cycle. Replaced wholesale by a
/// `PreferencesUpdated` command, never partially mutated by the engine.
#[derive(Clone, Copy, Debug, PartialEq, Eq, Structural)]
pub struct Preferences {
    pub interval_minutes: u64,
    pub activity_detection: bool,
    pub sound_enabled: bool,
    pub autostart_enabled: bool,
    pub theme: ThemeMode,
    pub idle_threshold_minutes: u64,
}

/// The idle threshold clamped to its effective range, as a value.
pub open spec fn spec_clamp_idle_threshold_minutes(minutes: u64) -> u64 {
    if minutes < MIN_IDLE_THRESHOLD_MINUTES {
        MIN_IDLE_THRESHOLD_MINUTES
    } else if minutes > MAX_IDLE_THRESHOLD_MINUTES {
        MAX_IDLE_THRESHOLD_MINUTES
    } else {
        minutes
    }
}

/// Minutes converted to seconds, treating any value below one minute as one
/// minute, and saturating at `u64::MAX` instead of overflowing.
pub open spec fn spec_minutes_to_secs_min_one(minutes: u64) -> u64 {
    let m = if minutes < 1 { 1u64 } else { minutes };
    if m as int * 60 > u64::MAX as int {
        u64::MAX
    } else {
        (m as int * 60) as u64
    }
}

/// A duration converted from whole minutes is never shorter than one
/// minute, whatever the stored value holds.
pub proof fn lemma_minutes_to_secs_min_one_at_least_minute(minutes: u64)
    ensures
        spec_minutes_to_secs_min_one(minutes) >= 60,
{
}

/// The default idle threshold in minutes.
pub fn default_idle_threshold_minutes() -> (minutes: u64)
    ensures
        minutes == DEFAULT_IDLE_THRESHOLD_MINUTES,
{
    DEFAULT_IDLE_THRESHOLD_MINUTES
}

/// Clamps an idle threshold to the effective range of whole minutes.
pub fn clamp_idle_threshold_minutes(minutes: u64) -> (clamped: u64)
    ensures
        clamped == spec_clamp_idle_threshold_minutes(minutes),
        MIN_IDLE_THRESHOLD_MINUTES <= clamped <= MAX_IDLE_THRESHOLD_MINUTES,
{
    if minutes < MIN_IDLE_THRESHOLD_MINUTES {
        MIN_IDLE_THRESHOLD_MINUTES
    } else if minutes > MAX_IDLE_THRESHOLD_MINUTES {
        MAX_IDLE_THRESHOLD_MINUTES
    } else {
        minutes
    }
}

/// Converts whole minutes to seconds, treating anything below one minute as
/// one minute and saturating instead of overflowing.
pub fn minutes_to_secs_min_one(minutes: u64) -> (secs: u64)
    ensures
        secs == spec_minutes_to_secs_min_one(minutes),
        secs >= 60,
{
    let m: u64 = if minutes < 1 {
        1
    } else {
        minutes
    };
    if m > u64::MAX / 60 {
        u64::MAX
    } else {
        m * 60
    }
}

impl Preferences {
    /// The effective idle threshold in seconds: clamped minutes times sixty.
    pub open spec fn spec_idle_threshold_secs(self) -> u64 {
        (spec_clamp_idle_threshold_minutes(self.idle_threshold_minutes) * 60) as u64
    }

    /// The reminder interval in seconds, at least one minute.
    pub open spec fn spec_interval_secs(self) -> u64 {
        spec_minutes_to_secs_min_one(self.interval_minutes)
    }

    /// Effective idle threshold in seconds. Clamping keeps it between one
    /// minute and thirty minutes whatever the stored preference holds.
    pub fn idle_threshold_secs(&self) -> (secs: u64)
        ensures
            secs == self.spec_idle_threshold_secs(),
            60 <= secs <= 1800,
    {
        clamp_idle_threshold_minutes(self.idle_threshold_minutes) * 60
    }

    /// The reminder interval converted to a duration in whole seconds; always
    /// at least one minute.
    pub fn interval_duration(&self) -> (secs: u64)
        ensures
            secs == self.spec_interval_secs(),
            secs >= 60,
    {
        minutes_to_secs_min_one(self.interval_minutes)
    }

    /// The startup preferences used when no stored bundle is available.
    pub open spec fn spec_default() -> Preferences {
        Preferences {
            interval_minutes: DEFAULT_INTERVAL_MINUTES,
            activity_detection: true,
            sound_enabled: true,
            autostart_enabled: true,
            theme: ThemeMode::Dark,
            idle_threshold_minutes: DEFAULT_IDLE_THRESHOLD_MINUTES,
        }
    }
}

impl Default for Preferences {
    /// Startup defaults: a half-hour cadence with activity detection on.
    fn default() -> (prefs: Preferences)
        ensures
            prefs == Preferences::spec_default(),
    {
        Preferences {
            interval_minutes: DEFAULT_INTERVAL_MINUTES,
            activity_detection: true,
            sound_enabled: true,
            autostart_enabled: true,
            theme: ThemeMode::Dark,
            idle_threshold_minutes: DEFAULT_IDLE_THRESHOLD_MINUTES,
        }
    }
}

/// A partial replacement for the preferences: fields left `None` keep their
/// current value, fields set are adopted after clamping.
#[derive(Clone, Copy, Debug)]
pub struct PreferencesUpdate {
    pub interval_minutes: Option<u64>,
    pub activity_detection: Option<bool>,
    pub sound_enabled: Option<bool>,
    pub autostart_enabled: Option<bool>,
    pub theme: Option<ThemeMode>,
    pub idle_threshold_minutes: Option<u64>,
}

impl PreferencesUpdate {
    /// The preferences that result from applying this update to `current`:
    /// the interval is clamped to [`MIN_INTERVAL_MINUTES`,
    /// `MAX_INTERVAL_MINUTES`] and the idle threshold to its own range.
    pub open spec fn spec_apply(self, current: Preferences) -> Preferences {
        Preferences {
            interval_minutes: match self.interval_minutes {
                Some(m) => if m < MIN_INTERVAL_MINUTES {
                    MIN_INTERVAL_MINUTES
                } else if m > MAX_INTERVAL_MINUTES {
                    MAX_INTERVAL_MINUTES
                } else {
                    m
                },
                None => current.interval_minutes,
            },
            activity_detection: match self.activity_detection {
                Some(b) => b,
                None => current.activity_detection,
            },
            sound_enabled: match self.sound_enabled {
                Some(b) => b,
                None => current.sound_enabled,
            },
            autostart_enabled: match self.autostart_enabled {
                Some(b) => b,
                None => current.autostart_enabled,
            },
            theme: match self.theme {
                Some(t) => t,
                None => current.theme,
            },
            idle_threshold_minutes: match self.idle_threshold_minutes {
                Some(m) => spec_clamp_idle_threshold_minutes(m),
                None => current.idle_threshold_minutes,
            },
        }
    }

    /// Applies the update to a preferences bundle, clamping the interval and
    /// the idle threshold to their allowed ranges.
    pub fn apply(&self, current: &Preferences) -> (updated: Preferences)
        ensures
            updated == self.spec_apply(*current),
    {
        let mut prefs = *current;
        if let Some(interval) = self.interval_minutes {
            prefs.interval_minutes = if interval < MIN_INTERVAL_MINUTES {
                MIN_INTERVAL_MINUTES
            } else if interval > MAX_INTERVAL_MINUTES {
                MAX_INTERVAL_MINUTES
            } else {
                interval
            };
        }
        if let Some(activity_detection) = self.activity_detection {
            prefs.activity_detection = activity_detection;
        }
        if let Some(sound_enabled) = self.sound_enabled {
            prefs.sound_enabled = sound_enabled;
        }
        if let Some(autostart) = self.autostart_enabled {
            prefs.autostart_enabled = autostart;
        }
        if let Some(theme) = self.theme {
            prefs.theme = theme;
        }
        if let Some(threshold) = self.idle_threshold_minutes {
            prefs.idle_threshold_minutes = clamp_idle_threshold_minutes(threshold);
        }
        prefs
    }
}

} // verus!
