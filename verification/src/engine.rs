//! The reminder scheduling engine: a reactive state machine over three
//! event sources.
//!
//! The engine owns the authoritative notion of "when is the next reminder
//! due". It reconciles that notion against control commands and periodic
//! idle-activity samples, and after every transition the published status
//! snapshot is derived as a pure function of the state.
//!
//! Each event source has one transition: a deadline firing, an idle-poll
//! tick, and a control command. Every transition is specified exactly by a
//! spec-level twin, and the scheduling laws (a pause hides the next trigger,
//! a snooze always suppresses a firing, a firing always rearms) are proved
//! from those twins.
//!
//! Times are Unix times in whole seconds, and deadline arithmetic saturates
//! at `u64::MAX` instead of overflowing.

use vstd::prelude::*;

use crate::prefs::Preferences;
use crate::status::StatusSnapshot;

verus! {

/// A serialized request that mutates engine state. Produced by the command
/// surface, consumed exactly once by the engine in arrival order.
#[derive(Clone, Copy, Debug)]
pub enum ControlMessage {
    /// The preferences were replaced wholesale; adopt the new bundle.
    PreferencesUpdated(Preferences),
    /// Set or clear the pause flag.
    Pause(bool),
    /// Suppress reminders for this many seconds from now.
    Snooze(u64),
    /// Drop any active snooze.
    ClearSnooze,
    /// Skip the current cycle: clear any snooze and start a fresh interval.
    SkipCurrent,
    /// Notify immediately, bypassing pause, snooze and idle checks.
    TriggerNow,
}

/// The engine's internal state. The state machine is implicit in this
/// tuple; each event re-derives the next deadline and the snapshot.
#[derive(Clone, Copy, Debug)]
pub struct Engine {
    /// The preferences adopted at the latest replacement.
    pub prefs: Preferences,
    /// While set, no deadline firing notifies and no next-trigger time is
    /// published; the internal deadline keeps advancing.
    pub paused: bool,
    /// An active snooze expiry; treated as absent once it lies in the past.
    pub snoozed_until: Option<u64>,
    /// When the next deadline evaluation occurs.
    pub next_deadline: u64,
    /// Whether the user was idle at the latest sample (sticky until a
    /// sample shows activity again).
    pub was_idle: bool,
    /// The latest sampled idle duration, if activity detection produced one.
    pub last_idle_secs: Option<u64>,
    /// When a notification was last actually sent.
    pub last_notification_at: Option<u64>,
}

impl Engine {
    /// The initial state: not paused, no snooze, a full interval ahead,
    /// idle unknown.
    pub open spec fn spec_init(prefs: Preferences, now: u64) -> Engine {
        Engine {
            prefs,
            paused: false,
            snoozed_until: None,
            next_deadline: now.saturating_add(prefs.spec_interval_secs()),
            was_idle: false,
            last_idle_secs: None,
            last_notification_at: None,
        }
    }

    /// The derived snapshot: a pure function of the state. A paused engine
    /// publishes no next-trigger time, and with activity detection off no
    /// idle seconds are published, however stale the internal sample is.
    pub open spec fn spec_snapshot(self) -> StatusSnapshot {
        StatusSnapshot {
            paused: self.paused,
            snoozed_until: self.snoozed_until,
            next_trigger_at: if self.paused {
                None
            } else {
                Some(self.next_deadline)
            },
            last_notification_at: self.last_notification_at,
            idle_seconds: if self.prefs.activity_detection {
                self.last_idle_secs
            } else {
                None
            },
        }
    }

    /// The state after a deadline firing at `now` with `sample` the idle
    /// sampling outcome (`None` when sampling failed), paired with whether
    /// the user is notified.
    ///
    /// Paused or actively snoozed firings do not notify; an expired snooze
    /// is lazily cleared; an idle user defers the reminder. Whatever the
    /// outcome, the deadline is rearmed a full interval past `now`.
    pub open spec fn spec_on_deadline(self, now: u64, sample: Option<u64>) -> (Engine, bool) {
        let notify0 = !self.paused;
        let (snoozed1, notify1) = match self.snoozed_until {
            Some(until) => if notify0 {
                if now < until {
                    (Some(until), false)
                } else {
                    (None::<u64>, true)
                }
            } else {
                (Some(until), false)
            },
            None => (None::<u64>, notify0),
        };
        let (last_idle2, was_idle2, notify2) = if notify1 && self.prefs.activity_detection {
            match sample {
                Some(secs) => if secs >= self.prefs.spec_idle_threshold_secs() {
                    (Some(secs), true, false)
                } else {
                    (Some(secs), false, true)
                },
                None => (self.last_idle_secs, self.was_idle, notify1),
            }
        } else if !self.prefs.activity_detection {
            (None::<u64>, self.was_idle, notify1)
        } else {
            (self.last_idle_secs, self.was_idle, notify1)
        };
        let e = Engine {
            snoozed_until: snoozed1,
            last_idle_secs: last_idle2,
            was_idle: was_idle2,
            last_notification_at: if notify2 {
                Some(now)
            } else {
                self.last_notification_at
            },
            next_deadline: now.saturating_add(self.prefs.spec_interval_secs()),
            ..self
        };
        (e, notify2)
    }

    /// The state after an idle-poll tick at `now`, paired with whether a
    /// snapshot is republished.
    ///
    /// Only acts while activity detection is enabled: it records the
    /// sample, marks the user idle past the threshold, and on the
    /// idle-to-active edge rearms a fresh interval unless paused or still
    /// snoozed. With detection disabled it clears any stale observation.
    pub open spec fn spec_on_idle_tick(self, now: u64, sample: Option<u64>) -> (Engine, bool) {
        if self.prefs.activity_detection {
            match sample {
                Some(secs) => {
                    let idle_now = secs >= self.prefs.spec_idle_threshold_secs();
                    let e1 = Engine { last_idle_secs: Some(secs), ..self };
                    if idle_now {
                        (Engine { was_idle: true, ..e1 }, true)
                    } else if self.was_idle {
                        let e2 = Engine { was_idle: false, ..e1 };
                        if !self.paused {
                            let cleared = match e2.snoozed_until {
                                Some(until) => if until <= now {
                                    None::<u64>
                                } else {
                                    Some(until)
                                },
                                None => None::<u64>,
                            };
                            let snooze_active = match cleared {
                                Some(until) => until > now,
                                None => false,
                            };
                            let e3 = Engine { snoozed_until: cleared, ..e2 };
                            if !snooze_active {
                                (
                                    Engine {
                                        next_deadline: now.saturating_add(
                                            self.prefs.spec_interval_secs(),
                                        ),
                                        ..e3
                                    },
                                    true,
                                )
                            } else {
                                (e3, true)
                            }
                        } else {
                            (e2, true)
                        }
                    } else {
                        (e1, true)
                    }
                },
                None => (self, false),
            }
        } else {
            if self.last_idle_secs is Some || self.was_idle {
                (Engine { last_idle_secs: None, was_idle: false, ..self }, true)
            } else {
                (self, false)
            }
        }
    }

    /// The state after adopting replacement preferences at `now`: an active
    /// snooze keeps its existing absolute expiry as the deadline, otherwise
    /// a fresh interval under the new preferences is armed.
    pub open spec fn spec_on_preferences(self, new_prefs: Preferences, now: u64) -> Engine {
        match self.snoozed_until {
            Some(until) => if until > now {
                Engine { prefs: new_prefs, next_deadline: until, ..self }
            } else {
                Engine {
                    prefs: new_prefs,
                    snoozed_until: None,
                    next_deadline: now.saturating_add(new_prefs.spec_interval_secs()),
                    ..self
                }
            },
            None => Engine {
                prefs: new_prefs,
                next_deadline: now.saturating_add(new_prefs.spec_interval_secs()),
                ..self
            },
        }
    }

    /// The state after setting the pause flag at `now`. Unpausing rearms a
    /// full fresh interval: pausing does not preserve partial progress.
    pub open spec fn spec_on_set_paused(self, flag: bool, now: u64) -> Engine {
        if flag {
            Engine { paused: true, ..self }
        } else {
            Engine {
                paused: false,
                next_deadline: now.saturating_add(self.prefs.spec_interval_secs()),
                ..self
            }
        }
    }

    /// The state after snoozing for `duration_secs` at `now`: the snooze
    /// expiry directly drives the next firing.
    pub open spec fn spec_on_snooze(self, duration_secs: u64, now: u64) -> Engine {
        Engine {
            snoozed_until: Some(now.saturating_add(duration_secs)),
            next_deadline: now.saturating_add(duration_secs),
            ..self
        }
    }

    /// The state after clearing any snooze at `now`; unless paused, the
    /// current cycle is used up and a fresh interval armed.
    pub open spec fn spec_on_clear_snooze(self, now: u64) -> Engine {
        if self.paused {
            Engine { snoozed_until: None, ..self }
        } else {
            Engine {
                snoozed_until: None,
                next_deadline: now.saturating_add(self.prefs.spec_interval_secs()),
                ..self
            }
        }
    }

    /// The state after a manual trigger at `now`: the notification time is
    /// recorded and a fresh interval armed.
    pub open spec fn spec_on_trigger_now(self, now: u64) -> Engine {
        Engine {
            last_notification_at: Some(now),
            next_deadline: now.saturating_add(self.prefs.spec_interval_secs()),
            ..self
        }
    }

    /// The state after one control command at `now`, paired with whether
    /// the user is notified (only a manual trigger notifies).
    pub open spec fn spec_on_command(self, msg: ControlMessage, now: u64) -> (Engine, bool) {
        match msg {
            ControlMessage::PreferencesUpdated(p) => (self.spec_on_preferences(p, now), false),
            ControlMessage::Pause(flag) => (self.spec_on_set_paused(flag, now), false),
            ControlMessage::Snooze(d) => (self.spec_on_snooze(d, now), false),
            ControlMessage::ClearSnooze => (self.spec_on_clear_snooze(now), false),
            ControlMessage::SkipCurrent => (self.spec_on_clear_snooze(now), false),
            ControlMessage::TriggerNow => (self.spec_on_trigger_now(now), true),
        }
    }

    /// Builds the initial state: not paused, no snooze, the first deadline
    /// a full interval past `now`, idle unknown.
    pub fn new(prefs: Preferences, now: u64) -> (engine: Engine)
        ensures
            engine == Engine::spec_init(prefs, now),
    {
        let interval = prefs.interval_duration();
        Engine {
            prefs,
            paused: false,
            snoozed_until: None,
            next_deadline: now.saturating_add(interval),
            was_idle: false,
            last_idle_secs: None,
            last_notification_at: None,
        }
    }

    /// Derives the status snapshot from the current state.
    pub fn snapshot(&self) -> (snapshot: StatusSnapshot)
        ensures
            snapshot == self.spec_snapshot(),
    {
        StatusSnapshot {
            paused: self.paused,
            snoozed_until: self.snoozed_until,
            next_trigger_at: if self.paused {
                None
            } else {
                Some(self.next_deadline)
            },
            last_notification_at: self.last_notification_at,
            idle_seconds: if self.prefs.activity_detection {
                self.last_idle_secs
            } else {
                None
            },
        }
    }

    /// Applies a deadline firing at `now`; `idle_sample` is the idle
    /// sampling outcome, `None` when no sample could be taken. Returns
    /// whether the user is to be notified.
    pub fn on_deadline(&mut self, now: u64, idle_sample: Option<u64>) -> (notify: bool)
        ensures
            *final(self) == old(self).spec_on_deadline(now, idle_sample).0,
            notify == old(self).spec_on_deadline(now, idle_sample).1,
    {
        let mut notify_user = !self.paused;
        if notify_user {
            if let Some(until) = self.snoozed_until {
                if now < until {
                    notify_user = false;
                } else {
                    self.snoozed_until = None;
                }
            }
        }
        if notify_user && self.prefs.activity_detection {
            if let Some(secs) = idle_sample {
                self.last_idle_secs = Some(secs);
                if secs >= self.prefs.idle_threshold_secs() {
                    notify_user = false;
                    self.was_idle = true;
                } else {
                    self.was_idle = false;
                }
            }
        } else if !self.prefs.activity_detection {
            self.last_idle_secs = None;
        }
        if notify_user {
            self.last_notification_at = Some(now);
        }
        let interval = self.prefs.interval_duration();
        self.next_deadline = now.saturating_add(interval);
        notify_user
    }

    /// Applies an idle-poll tick at `now`; `idle_sample` is the sampling
    /// outcome, `None` when no sample could be taken. Returns whether an
    /// updated snapshot is to be published.
    pub fn on_idle_tick(&mut self, now: u64, idle_sample: Option<u64>) -> (publish: bool)
        ensures
            *final(self) == old(self).spec_on_idle_tick(now, idle_sample).0,
            publish == old(self).spec_on_idle_tick(now, idle_sample).1,
    {
        if self.prefs.activity_detection {
            match idle_sample {
                Some(secs) => {
                    self.last_idle_secs = Some(secs);
                    let idle_now = secs >= self.prefs.idle_threshold_secs();
                    if idle_now {
                        self.was_idle = true;
                    } else if self.was_idle {
                        self.was_idle = false;
                        if !self.paused {
                            if let Some(until) = self.snoozed_until {
                                if until <= now {
                                    self.snoozed_until = None;
                                }
                            }
                            let snooze_active = match self.snoozed_until {
                                Some(until) => until > now,
                                None => false,
                            };
                            if !snooze_active {
                                let interval = self.prefs.interval_duration();
                                self.next_deadline = now.saturating_add(interval);
                            }
                        }
                    }
                    true
                },
                None => false,
            }
        } else {
            if self.last_idle_secs.is_some() || self.was_idle {
                self.last_idle_secs = None;
                self.was_idle = false;
                true
            } else {
                false
            }
        }
    }

    /// Adopts replacement preferences at `now`.
    pub fn on_preferences_updated(&mut self, new_prefs: Preferences, now: u64)
        ensures
            *final(self) == old(self).spec_on_preferences(new_prefs, now),
    {
        self.prefs = new_prefs;
        let interval = self.prefs.interval_duration();
        let mut next: u64 = now.saturating_add(interval);
        if let Some(until) = self.snoozed_until {
            if until > now {
                next = until;
            } else {
                self.snoozed_until = None;
            }
        }
        self.next_deadline = next;
    }

    /// Sets or clears the pause flag at `now`; unpausing rearms a full
    /// fresh interval.
    pub fn on_set_paused(&mut self, flag: bool, now: u64)
        ensures
            *final(self) == old(self).spec_on_set_paused(flag, now),
    {
        self.paused = flag;
        if !flag {
            let interval = self.prefs.interval_duration();
            self.next_deadline = now.saturating_add(interval);
        }
    }

    /// Snoozes for `duration_secs` from `now`; the expiry drives the next
    /// firing directly.
    pub fn on_snooze(&mut self, duration_secs: u64, now: u64)
        ensures
            *final(self) == old(self).spec_on_snooze(duration_secs, now),
    {
        let until = now.saturating_add(duration_secs);
        self.snoozed_until = Some(until);
        self.next_deadline = until;
    }

    /// Clears any active snooze at `now`; unless paused, a fresh interval
    /// is armed.
    pub fn on_clear_snooze(&mut self, now: u64)
        ensures
            *final(self) == old(self).spec_on_clear_snooze(now),
    {
        self.snoozed_until = None;
        if !self.paused {
            let interval = self.prefs.interval_duration();
            self.next_deadline = now.saturating_add(interval);
        }
    }

    /// Skips the current cycle at `now`: exactly like snoozing to zero, it
    /// clears any snooze and uses the cycle up.
    pub fn on_skip_current(&mut self, now: u64)
        ensures
            *final(self) == old(self).spec_on_clear_snooze(now),
    {
        self.on_clear_snooze(now);
    }

    /// Records a manual trigger at `now` and rearms a fresh interval; the
    /// caller sends the notification itself.
    pub fn on_trigger_now(&mut self, now: u64)
        ensures
            *final(self) == old(self).spec_on_trigger_now(now),
    {
        self.last_notification_at = Some(now);
        let interval = self.prefs.interval_duration();
        self.next_deadline = now.saturating_add(interval);
    }

    /// Applies one control command at `now`. Returns whether the user is
    /// to be notified (only a manual trigger notifies).
    pub fn on_command(&mut self, msg: ControlMessage, now: u64) -> (notify: bool)
        ensures
            *final(self) == old(self).spec_on_command(msg, now).0,
            notify == old(self).spec_on_command(msg, now).1,
    {
        match msg {
            ControlMessage::PreferencesUpdated(p) => {
                self.on_preferences_updated(p, now);
                false
            },
            ControlMessage::Pause(flag) => {
                self.on_set_paused(flag, now);
                false
            },
            ControlMessage::Snooze(d) => {
                self.on_snooze(d, now);
                false
            },
            ControlMessage::ClearSnooze => {
                self.on_clear_snooze(now);
                false
            },
            ControlMessage::SkipCurrent => {
                self.on_skip_current(now);
                false
            },
            ControlMessage::TriggerNow => {
                self.on_trigger_now(now);
                true
            },
        }
    }
}

/// Relies on std's `SystemTime::now`: the wall-clock time in whole seconds
/// since the Unix epoch, read as zero on a host clock that stands before
/// the epoch, so the reading is total and never panics.
#[verifier::external_body]
fn current_unix_seconds() -> (now: u64) {
    std::time::SystemTime::now()
        .duration_since(std::time::SystemTime::UNIX_EPOCH)
        .map(|elapsed| elapsed.as_secs())
        .unwrap_or(0)
}

impl Engine {
    /// Handles the deadline timer elapsing: reads the clock and applies
    /// the deadline transition at that moment. The clock is the only
    /// nondeterminism: for some reading `now`, the state and the returned
    /// notify decision are exactly the deadline transition at `now`.
    pub fn handle_deadline(&mut self, idle_sample: Option<u64>) -> (notify: bool)
        ensures
            exists|now: u64|
                *final(self) == #[trigger] old(self).spec_on_deadline(now, idle_sample).0 && notify
                    == old(self).spec_on_deadline(now, idle_sample).1,
    {
        let now = current_unix_seconds();
        let notify = self.on_deadline(now, idle_sample);
        proof {
            assert(*self == old(self).spec_on_deadline(now, idle_sample).0);
        }
        notify
    }

    /// Handles an idle-poll tick: reads the clock and applies the tick
    /// transition at that moment. Returns whether a snapshot is to be
    /// republished.
    pub fn handle_idle_poll(&mut self, idle_sample: Option<u64>) -> (publish: bool)
        ensures
            exists|now: u64|
                *final(self) == #[trigger] old(self).spec_on_idle_tick(now, idle_sample).0
                    && publish == old(self).spec_on_idle_tick(now, idle_sample).1,
    {
        let now = current_unix_seconds();
        let publish = self.on_idle_tick(now, idle_sample);
        proof {
            assert(*self == old(self).spec_on_idle_tick(now, idle_sample).0);
        }
        publish
    }

    /// Handles one control command: reads the clock and applies the
    /// command transition at that moment. Returns whether the user is to
    /// be notified.
    pub fn handle_command(&mut self, msg: ControlMessage) -> (notify: bool)
        ensures
            exists|now: u64|
                *final(self) == #[trigger] old(self).spec_on_command(msg, now).0 && notify == old(
                    self,
                ).spec_on_command(msg, now).1,
    {
        let now = current_unix_seconds();
        let notify = self.on_command(msg, now);
        proof {
            assert(*self == old(self).spec_on_command(msg, now).0);
        }
        notify
    }
}

/// Law: pausing always yields an absent next-trigger time in the published
/// snapshot, whatever the rest of the state holds.
pub proof fn lemma_pause_hides_next_trigger(e: Engine, now: u64)
    ensures
        e.spec_on_set_paused(true, now).spec_snapshot().next_trigger_at is None,
{
}

/// Law: unpausing always clears the pause flag and republishes a
/// next-trigger time strictly in the future, a full fresh interval past
/// the moment of unpausing — no partial progress is preserved.
pub proof fn lemma_unpause_future_trigger(e: Engine, now: u64)
    requires
        now < u64::MAX,
    ensures
        ({
            let unpaused = e.spec_on_set_paused(false, now);
            let next = now.saturating_add(e.prefs.spec_interval_secs());
            &&& !unpaused.paused
            &&& unpaused.next_deadline == next
            &&& unpaused.spec_snapshot().next_trigger_at == Some(next)
            &&& next > now
        }),
{
    crate::prefs::lemma_minutes_to_secs_min_one_at_least_minute(e.prefs.interval_minutes);
}

/// Law: a snooze always wins. While a snooze expiry still lies in the
/// future, a deadline firing never notifies, whatever the idle sample and
/// the pause flag say.
pub proof fn lemma_active_snooze_suppresses(e: Engine, until: u64, now: u64, sample: Option<u64>)
    requires
        e.snoozed_until == Some(until),
        now < until,
    ensures
        !e.spec_on_deadline(now, sample).1,
{
}

/// Law: snoozing for a duration sets the snooze expiry to exactly that
/// far past `now`, and the expiry directly drives the next firing, even
/// when the configured interval is shorter. The snapshot publishes the
/// expiry, and — unless paused, when no next-trigger time is ever
/// published — the same time as the next trigger.
pub proof fn lemma_snooze_drives_next_firing(e: Engine, duration_secs: u64, now: u64)
    ensures
        ({
            let snoozed = e.spec_on_snooze(duration_secs, now);
            let until = now.saturating_add(duration_secs);
            &&& snoozed.snoozed_until == Some(until)
            &&& snoozed.next_deadline == until
            &&& snoozed.spec_snapshot().snoozed_until == Some(until)
            &&& (!e.paused ==> snoozed.spec_snapshot().next_trigger_at == Some(until))
        }),
{
}

/// Law: with activity detection disabled, no derived snapshot carries idle
/// seconds, even while the state still holds a stale sample.
pub proof fn lemma_snapshot_hides_idle_without_detection(e: Engine)
    requires
        !e.prefs.activity_detection,
    ensures
        e.spec_snapshot().idle_seconds is None,
{
}

/// Law: a deadline firing always reschedules. The new deadline is exactly
/// one interval past the firing time and strictly later than the deadline
/// that fired, whether or not a notification was sent; unless paused, the
/// snapshot publishes it as the next trigger.
pub proof fn lemma_deadline_always_reschedules(e: Engine, now: u64, sample: Option<u64>)
    requires
        e.next_deadline <= now,
        now < u64::MAX,
    ensures
        ({
            let rearmed = e.spec_on_deadline(now, sample).0;
            &&& rearmed.next_deadline == now.saturating_add(e.prefs.spec_interval_secs())
            &&& rearmed.next_deadline > e.next_deadline
            &&& (!e.paused ==> rearmed.spec_snapshot().next_trigger_at == Some(
                rearmed.next_deadline,
            ))
        }),
{
    crate::prefs::lemma_minutes_to_secs_min_one_at_least_minute(e.prefs.interval_minutes);
}

/// Law: clearing a snooze when none is active leaves the snapshot
/// identical to the prior one, except that the next-trigger time is rearmed
/// to a full interval past `now` when not paused.
pub proof fn lemma_clear_snooze_idempotent(e: Engine, now: u64)
    requires
        e.snoozed_until is None,
    ensures
        ({
            let before = e.spec_snapshot();
            let after = e.spec_on_clear_snooze(now).spec_snapshot();
            &&& after.paused == before.paused
            &&& after.snoozed_until == before.snoozed_until
            &&& after.last_notification_at == before.last_notification_at
            &&& after.idle_seconds == before.idle_seconds
            &&& (e.paused ==> after.next_trigger_at == before.next_trigger_at)
            &&& (!e.paused ==> after.next_trigger_at == Some(
                now.saturating_add(e.prefs.spec_interval_secs()),
            ))
        }),
{
}

} // verus!
