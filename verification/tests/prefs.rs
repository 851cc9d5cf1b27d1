use touchgrass::prefs::{
    clamp_idle_threshold_minutes, default_idle_threshold_minutes, minutes_to_secs_min_one,
    Preferences, PreferencesUpdate, ThemeMode,
};

fn no_update() -> PreferencesUpdate {
    PreferencesUpdate {
        interval_minutes: None,
        activity_detection: None,
        sound_enabled: None,
        autostart_enabled: None,
        theme: None,
        idle_threshold_minutes: None,
    }
}

#[test]
fn default_preferences_values() {
    let p = Preferences::default();
    assert_eq!(p.interval_minutes, 30);
    assert!(p.activity_detection);
    assert!(p.sound_enabled);
    assert!(p.autostart_enabled);
    assert_eq!(p.theme, ThemeMode::Dark);
    assert_eq!(p.idle_threshold_minutes, 2);
}

#[test]
fn idle_threshold_secs_always_within_bounds() {
    // clamping law: for any stored minutes the effective threshold in
    // seconds lies in [60, 1800].
    for minutes in [0, 1, 2, 5, 29, 30, 31, 1000, u64::MAX] {
        let mut p = Preferences::default();
        p.idle_threshold_minutes = minutes;
        let secs = p.idle_threshold_secs();
        assert!((60..=1800).contains(&secs), "threshold {minutes} gave {secs}");
    }
}

#[test]
fn idle_threshold_secs_exact_values() {
    let mut p = Preferences::default();
    assert_eq!(p.idle_threshold_secs(), 120);
    p.idle_threshold_minutes = 0;
    assert_eq!(p.idle_threshold_secs(), 60);
    p.idle_threshold_minutes = 30;
    assert_eq!(p.idle_threshold_secs(), 1800);
    p.idle_threshold_minutes = 31;
    assert_eq!(p.idle_threshold_secs(), 1800);
}

#[test]
fn clamp_idle_threshold_minutes_bounds() {
    assert_eq!(clamp_idle_threshold_minutes(0), 1);
    assert_eq!(clamp_idle_threshold_minutes(1), 1);
    assert_eq!(clamp_idle_threshold_minutes(17), 17);
    assert_eq!(clamp_idle_threshold_minutes(30), 30);
    assert_eq!(clamp_idle_threshold_minutes(31), 30);
    assert_eq!(clamp_idle_threshold_minutes(u64::MAX), 30);
}

#[test]
fn default_idle_threshold_is_two_minutes() {
    assert_eq!(default_idle_threshold_minutes(), 2);
}

#[test]
fn interval_duration_is_at_least_one_minute() {
    let mut p = Preferences::default();
    assert_eq!(p.interval_duration(), 1800);
    p.interval_minutes = 0;
    assert_eq!(p.interval_duration(), 60);
    p.interval_minutes = 1;
    assert_eq!(p.interval_duration(), 60);
    p.interval_minutes = 240;
    assert_eq!(p.interval_duration(), 14400);
}

#[test]
fn minutes_conversion_saturates() {
    assert_eq!(minutes_to_secs_min_one(0), 60);
    assert_eq!(minutes_to_secs_min_one(5), 300);
    assert_eq!(minutes_to_secs_min_one(u64::MAX), u64::MAX);
    assert_eq!(minutes_to_secs_min_one(u64::MAX / 60), u64::MAX / 60 * 60);
    assert_eq!(minutes_to_secs_min_one(u64::MAX / 60 + 1), u64::MAX);
}

#[test]
fn update_with_nothing_set_keeps_preferences() {
    let p = Preferences::default();
    let updated = no_update().apply(&p);
    assert_eq!(updated, p);
}

#[test]
fn update_clamps_interval_to_allowed_range() {
    let p = Preferences::default();
    let mut u = no_update();
    u.interval_minutes = Some(1);
    assert_eq!(u.apply(&p).interval_minutes, 2);
    u.interval_minutes = Some(2);
    assert_eq!(u.apply(&p).interval_minutes, 2);
    u.interval_minutes = Some(90);
    assert_eq!(u.apply(&p).interval_minutes, 90);
    u.interval_minutes = Some(240);
    assert_eq!(u.apply(&p).interval_minutes, 240);
    u.interval_minutes = Some(500);
    assert_eq!(u.apply(&p).interval_minutes, 240);
}

#[test]
fn update_clamps_idle_threshold() {
    let p = Preferences::default();
    let mut u = no_update();
    u.idle_threshold_minutes = Some(0);
    assert_eq!(u.apply(&p).idle_threshold_minutes, 1);
    u.idle_threshold_minutes = Some(99);
    assert_eq!(u.apply(&p).idle_threshold_minutes, 30);
    u.idle_threshold_minutes = Some(10);
    assert_eq!(u.apply(&p).idle_threshold_minutes, 10);
}

#[test]
fn update_sets_every_field() {
    let p = Preferences::default();
    let u = PreferencesUpdate {
        interval_minutes: Some(45),
        activity_detection: Some(false),
        sound_enabled: Some(false),
        autostart_enabled: Some(false),
        theme: Some(ThemeMode::Light),
        idle_threshold_minutes: Some(7),
    };
    let updated = u.apply(&p);
    assert_eq!(updated.interval_minutes, 45);
    assert!(!updated.activity_detection);
    assert!(!updated.sound_enabled);
    assert!(!updated.autostart_enabled);
    assert_eq!(updated.theme, ThemeMode::Light);
    assert_eq!(updated.idle_threshold_minutes, 7);
}
