use touchgrass::engine::{ControlMessage, Engine};
use touchgrass::prefs::{Preferences, ThemeMode};

fn prefs(interval_minutes: u64, activity_detection: bool, idle_threshold_minutes: u64) -> Preferences {
    Preferences {
        interval_minutes,
        activity_detection,
        sound_enabled: true,
        autostart_enabled: true,
        theme: ThemeMode::Dark,
        idle_threshold_minutes,
    }
}

#[test]
fn initial_state_arms_a_full_interval() {
    let e = Engine::new(prefs(30, true, 2), 100);
    assert!(!e.paused);
    assert_eq!(e.snoozed_until, None);
    assert_eq!(e.next_deadline, 100 + 1800);
    assert!(!e.was_idle);
    assert_eq!(e.last_idle_secs, None);
    assert_eq!(e.last_notification_at, None);
}

#[test]
fn scenario_interval_thirty_detection_off() {
    // interval=30m, activity detection off: at t=0 the schedule fires at
    // t=30m, notifies, and the next firing is armed for t=60m.
    let mut e = Engine::new(prefs(30, false, 2), 0);
    assert_eq!(e.next_deadline, 1800);
    let notify = e.on_deadline(1800, None);
    assert!(notify);
    assert_eq!(e.next_deadline, 3600);
    let snap = e.snapshot();
    assert_eq!(snap.last_notification_at, Some(1800));
    assert_eq!(snap.next_trigger_at, Some(3600));
}

#[test]
fn scenario_idle_user_defers_notification() {
    // activity detection on, threshold=2m; at the 30m deadline the user
    // has been idle 5m: no notification, idle_seconds=300, next at t=60m.
    let mut e = Engine::new(prefs(30, true, 2), 0);
    let notify = e.on_deadline(1800, Some(300));
    assert!(!notify);
    assert!(e.was_idle);
    assert_eq!(e.next_deadline, 3600);
    let snap = e.snapshot();
    assert_eq!(snap.idle_seconds, Some(300));
    assert_eq!(snap.last_notification_at, None);
    assert_eq!(snap.next_trigger_at, Some(3600));
}

#[test]
fn scenario_snooze_five_minutes_then_fire() {
    // snooze 5m at t=10m while the next deadline was t=30m: snoozed_until
    // and next trigger move to t=15m; the firing there clears the snooze,
    // notifies, and arms t=45m.
    let mut e = Engine::new(prefs(30, false, 2), 0);
    assert_eq!(e.next_deadline, 1800);
    e.on_snooze(300, 600);
    assert_eq!(e.snoozed_until, Some(900));
    assert_eq!(e.next_deadline, 900);
    assert_eq!(e.snapshot().next_trigger_at, Some(900));
    let notify = e.on_deadline(900, None);
    assert!(notify);
    assert_eq!(e.snoozed_until, None);
    assert_eq!(e.next_deadline, 900 + 1800);
}

#[test]
fn scenario_pause_then_unpause() {
    // pause at t=5m (next deadline t=30m): no next trigger published;
    // unpause at t=20m: next trigger becomes t=50m.
    let mut e = Engine::new(prefs(30, false, 2), 0);
    e.on_set_paused(true, 300);
    assert!(e.paused);
    assert_eq!(e.snapshot().next_trigger_at, None);
    e.on_set_paused(false, 1200);
    assert!(!e.paused);
    assert_eq!(e.snapshot().next_trigger_at, Some(3000));
}

#[test]
fn pausing_hides_next_trigger_even_with_snooze() {
    let mut e = Engine::new(prefs(30, false, 2), 0);
    e.on_snooze(300, 0);
    e.on_set_paused(true, 10);
    let snap = e.snapshot();
    assert_eq!(snap.next_trigger_at, None);
    assert_eq!(snap.snoozed_until, Some(300));
}

#[test]
fn unpause_republishes_future_trigger() {
    let mut e = Engine::new(prefs(2, false, 2), 0);
    e.on_set_paused(true, 5);
    e.on_set_paused(false, 40);
    let snap = e.snapshot();
    assert_eq!(snap.next_trigger_at, Some(40 + 120));
    assert!(snap.next_trigger_at.unwrap() > 40);
}

#[test]
fn snooze_suppresses_firing_even_with_shorter_interval() {
    // interval is only 1m, yet a 5m snooze wins until it expires.
    let mut e = Engine::new(prefs(1, false, 2), 0);
    e.on_snooze(300, 0);
    assert_eq!(e.snoozed_until, Some(300));
    let notify = e.on_deadline(100, None);
    assert!(!notify);
    assert_eq!(e.snoozed_until, Some(300), "an unexpired snooze is kept");
    let notify = e.on_deadline(299, None);
    assert!(!notify);
    let notify = e.on_deadline(300, None);
    assert!(notify, "at the expiry the snooze is cleared and the reminder fires");
}

#[test]
fn paused_deadline_does_not_notify_and_still_rearms() {
    let mut e = Engine::new(prefs(30, false, 2), 0);
    e.on_set_paused(true, 0);
    let before = e.next_deadline;
    let notify = e.on_deadline(1800, None);
    assert!(!notify);
    assert_eq!(e.next_deadline, 3600);
    assert!(e.next_deadline > before);
    assert_eq!(e.snapshot().last_notification_at, None);
}

#[test]
fn deadline_reschedules_whether_or_not_notified() {
    // not notified (idle) and notified both advance the deadline by one
    // interval past the firing time.
    let mut idle = Engine::new(prefs(30, true, 2), 0);
    let fired = idle.next_deadline;
    assert!(!idle.on_deadline(fired, Some(9999)));
    assert_eq!(idle.next_deadline, fired + 1800);

    let mut active = Engine::new(prefs(30, true, 2), 0);
    let fired = active.next_deadline;
    assert!(active.on_deadline(fired, Some(0)));
    assert_eq!(active.next_deadline, fired + 1800);
}

#[test]
fn sampling_failure_fails_toward_notifying() {
    // activity detection on, but the sampler gave no answer: the firing
    // falls through to a notification and the old sample is untouched.
    let mut e = Engine::new(prefs(30, true, 2), 0);
    e.on_idle_tick(60, Some(42));
    assert_eq!(e.last_idle_secs, Some(42));
    let notify = e.on_deadline(1800, None);
    assert!(notify);
    assert_eq!(e.last_idle_secs, Some(42));
}

#[test]
fn detection_off_snapshot_never_shows_idle_seconds() {
    // populate an idle sample, then turn detection off: every snapshot
    // from then on shows no idle seconds.
    let mut e = Engine::new(prefs(30, true, 2), 0);
    e.on_idle_tick(60, Some(200));
    assert_eq!(e.snapshot().idle_seconds, Some(200));
    let mut off = prefs(30, false, 2);
    off.sound_enabled = false;
    e.on_preferences_updated(off, 100);
    assert_eq!(e.snapshot().idle_seconds, None);
    e.on_deadline(1900, None);
    assert_eq!(e.snapshot().idle_seconds, None);
}

#[test]
fn detection_off_tick_clears_stale_observation() {
    let mut e = Engine::new(prefs(30, true, 2), 0);
    e.on_idle_tick(60, Some(200));
    e.on_preferences_updated(prefs(30, false, 2), 100);
    // the first tick with detection off clears the stale sample and asks
    // for a republish; the next one has nothing to do.
    assert!(e.on_idle_tick(120, None));
    assert_eq!(e.last_idle_secs, None);
    assert!(!e.was_idle);
    assert!(!e.on_idle_tick(140, None));
}

#[test]
fn idle_tick_marks_idleness_sticky() {
    let mut e = Engine::new(prefs(30, true, 2), 0);
    assert!(e.on_idle_tick(60, Some(130)));
    assert!(e.was_idle);
    assert_eq!(e.last_idle_secs, Some(130));
    // still idle: stays marked
    assert!(e.on_idle_tick(80, Some(150)));
    assert!(e.was_idle);
}

#[test]
fn activity_resumption_rearms_fresh_interval() {
    let mut e = Engine::new(prefs(30, true, 2), 0);
    e.on_idle_tick(60, Some(130));
    assert!(e.was_idle);
    // the user returns at t=500: the deadline restarts from that moment.
    assert!(e.on_idle_tick(500, Some(2)));
    assert!(!e.was_idle);
    assert_eq!(e.next_deadline, 500 + 1800);
    assert_eq!(e.snapshot().next_trigger_at, Some(2300));
}

#[test]
fn activity_resumption_while_paused_does_not_rearm() {
    let mut e = Engine::new(prefs(30, true, 2), 0);
    e.on_idle_tick(60, Some(130));
    e.on_set_paused(true, 70);
    let before = e.next_deadline;
    assert!(e.on_idle_tick(500, Some(2)));
    assert!(!e.was_idle);
    assert_eq!(e.next_deadline, before);
    assert_eq!(e.snapshot().next_trigger_at, None);
}

#[test]
fn activity_resumption_with_active_snooze_does_not_rearm() {
    let mut e = Engine::new(prefs(30, true, 2), 0);
    e.on_idle_tick(60, Some(130));
    e.on_snooze(600, 100);
    assert!(e.on_idle_tick(200, Some(2)));
    assert!(!e.was_idle);
    assert_eq!(e.next_deadline, 700, "the snooze still drives the next firing");
    assert_eq!(e.snoozed_until, Some(700));
}

#[test]
fn activity_resumption_clears_expired_snooze_and_rearms() {
    let mut e = Engine::new(prefs(30, true, 2), 0);
    e.on_idle_tick(60, Some(130));
    e.on_snooze(100, 100);
    assert_eq!(e.snoozed_until, Some(200));
    assert!(e.on_idle_tick(300, Some(2)));
    assert_eq!(e.snoozed_until, None);
    assert_eq!(e.next_deadline, 300 + 1800);
}

#[test]
fn idle_tick_sampling_failure_changes_nothing() {
    let mut e = Engine::new(prefs(30, true, 2), 0);
    e.on_idle_tick(60, Some(130));
    let before = e;
    assert!(!e.on_idle_tick(80, None));
    assert_eq!(e.next_deadline, before.next_deadline);
    assert_eq!(e.last_idle_secs, before.last_idle_secs);
    assert_eq!(e.was_idle, before.was_idle);
}

#[test]
fn clear_snooze_without_snooze_only_advances_trigger() {
    let mut e = Engine::new(prefs(30, false, 2), 0);
    e.on_deadline(1800, None);
    let before = e.snapshot();
    e.on_clear_snooze(2000);
    let after = e.snapshot();
    assert_eq!(after.paused, before.paused);
    assert_eq!(after.snoozed_until, before.snoozed_until);
    assert_eq!(after.last_notification_at, before.last_notification_at);
    assert_eq!(after.idle_seconds, before.idle_seconds);
    assert_eq!(after.next_trigger_at, Some(2000 + 1800));
}

#[test]
fn clear_snooze_while_paused_keeps_snapshot_identical() {
    let mut e = Engine::new(prefs(30, false, 2), 0);
    e.on_set_paused(true, 10);
    let before = e.snapshot();
    e.on_clear_snooze(500);
    assert_eq!(e.snapshot(), before);
}

#[test]
fn skip_current_clears_snooze_and_rearms() {
    let mut e = Engine::new(prefs(30, false, 2), 0);
    e.on_snooze(600, 100);
    e.on_skip_current(200);
    assert_eq!(e.snoozed_until, None);
    assert_eq!(e.next_deadline, 200 + 1800);
}

#[test]
fn trigger_now_records_notification_and_rearms() {
    let mut e = Engine::new(prefs(30, false, 2), 0);
    e.on_set_paused(true, 10);
    e.on_trigger_now(400);
    assert_eq!(e.last_notification_at, Some(400));
    assert_eq!(e.next_deadline, 400 + 1800);
    // still paused, so the snapshot keeps next trigger hidden
    assert_eq!(e.snapshot().next_trigger_at, None);
    assert_eq!(e.snapshot().last_notification_at, Some(400));
}

#[test]
fn preferences_replacement_without_snooze_rearms_new_interval() {
    let mut e = Engine::new(prefs(30, false, 2), 0);
    e.on_preferences_updated(prefs(5, false, 2), 600);
    assert_eq!(e.prefs.interval_minutes, 5);
    assert_eq!(e.next_deadline, 600 + 300);
}

#[test]
fn preferences_replacement_preserves_remaining_snooze() {
    let mut e = Engine::new(prefs(30, false, 2), 0);
    e.on_snooze(900, 100);
    assert_eq!(e.snoozed_until, Some(1000));
    e.on_preferences_updated(prefs(5, false, 2), 400);
    // the snooze keeps its absolute expiry, and it drives the deadline
    assert_eq!(e.snoozed_until, Some(1000));
    assert_eq!(e.next_deadline, 1000);
}

#[test]
fn preferences_replacement_clears_expired_snooze() {
    let mut e = Engine::new(prefs(30, false, 2), 0);
    e.on_snooze(100, 100);
    e.on_preferences_updated(prefs(5, false, 2), 600);
    assert_eq!(e.snoozed_until, None);
    assert_eq!(e.next_deadline, 600 + 300);
}

#[test]
fn command_dispatch_matches_individual_transitions() {
    let base = Engine::new(prefs(30, false, 2), 0);

    let mut a = base;
    assert!(!a.on_command(ControlMessage::Pause(true), 50));
    assert!(a.paused);

    let mut b = base;
    assert!(!b.on_command(ControlMessage::Snooze(300), 50));
    assert_eq!(b.snoozed_until, Some(350));

    let mut c = base;
    assert!(!c.on_command(ControlMessage::ClearSnooze, 50));
    assert_eq!(c.next_deadline, 50 + 1800);

    let mut d = base;
    assert!(!d.on_command(ControlMessage::SkipCurrent, 50));
    assert_eq!(d.next_deadline, 50 + 1800);

    let mut f = base;
    assert!(f.on_command(ControlMessage::TriggerNow, 50));
    assert_eq!(f.last_notification_at, Some(50));

    let mut g = base;
    assert!(!g.on_command(ControlMessage::PreferencesUpdated(prefs(5, true, 3)), 50));
    assert_eq!(g.prefs.interval_minutes, 5);
    assert_eq!(g.next_deadline, 50 + 300);
}

#[test]
fn handle_command_pauses_with_live_clock() {
    let mut e = Engine::new(prefs(30, false, 2), 0);
    assert!(!e.handle_command(ControlMessage::Pause(true)));
    assert!(e.paused);
    assert_eq!(e.snapshot().next_trigger_at, None);
    assert!(e.handle_command(ControlMessage::TriggerNow));
    assert!(e.last_notification_at.is_some());
}

#[test]
fn handle_deadline_notifies_with_detection_off() {
    // whatever the clock reads, an unpaused engine without snooze and
    // without activity detection notifies on a firing.
    let mut e = Engine::new(prefs(30, false, 2), 0);
    assert!(e.handle_deadline(None));
    assert!(e.last_notification_at.is_some());
}

#[test]
fn handle_idle_poll_without_observation_is_silent() {
    let mut e = Engine::new(prefs(30, false, 2), 0);
    assert!(!e.handle_idle_poll(None), "nothing stale to clear, nothing to publish");
}

#[test]
fn deadline_arithmetic_saturates_instead_of_overflowing() {
    let mut e = Engine::new(prefs(u64::MAX, false, 2), 0);
    assert_eq!(e.next_deadline, u64::MAX);
    let notify = e.on_deadline(u64::MAX, None);
    assert!(notify);
    assert_eq!(e.next_deadline, u64::MAX);
}
