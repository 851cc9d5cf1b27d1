//! The idle sampler: answers "how many seconds has the user been inactive?"
//!
//! Two interchangeable strategies compose behind one query. The
//! event-driven strategy derives idle seconds from platform idle/active
//! notifications observed as a flag and an idle-since stamp; the polling
//! strategy passes through what the system-wide idle counter answered. The
//! strategy is chosen once at construction and fixed for the detector's
//! lifetime.
//!
//! The platform subscription itself and the query of the system counter
//! are I/O and live with the caller; this module owns every decision made
//! on their results.

use vstd::prelude::*;

verus! {

/// Why no idle duration could be determined.
#[derive(Clone, Copy, Debug, PartialEq, Eq, Structural)]
pub enum IdleDetectionError {
    /// The system idle counter could not be queried.
    X11Error,
}

impl IdleDetectionError {
    /// A human-readable description of the error.
    pub fn message(&self) -> (text: String)
        ensures
            text@ == "X11 idle detection failed"@,
    {
        "X11 idle detection failed".to_owned()
    }
}

/// Which sampling strategy answers idle queries.
#[derive(Clone, Copy, Debug, PartialEq, Eq, Structural)]
pub enum IdleBackend {
    /// Platform idle/active notifications keyed to the threshold.
    EventDriven,
    /// A synchronous query of a system-wide idle counter.
    Polling,
}

/// Idle seconds as the event-driven strategy reports them: zero while
/// active; once idle, the time since the idle-since stamp, but never less
/// than the threshold, consistent with a notification that means "idle for
/// at least the threshold".
pub open spec fn spec_event_idle_seconds(
    is_idle: bool,
    idle_since: u64,
    now: u64,
    threshold_secs: u64,
) -> u64 {
    if is_idle {
        let elapsed = now.saturating_sub(idle_since);
        if elapsed < threshold_secs {
            threshold_secs
        } else {
            elapsed
        }
    } else {
        0
    }
}

/// The idle-since stamp recorded when the platform reports the user idle:
/// idleness began one threshold before the notification arrived.
pub fn idle_since_on_idled(now: u64, threshold_secs: u64) -> (stamp: u64)
    ensures
        stamp == now.saturating_sub(threshold_secs),
{
    now.saturating_sub(threshold_secs)
}

/// The idle sampler. Construction fixes the strategy; the query then
/// composes the two backends behind one contract.
#[derive(Clone, Copy, Debug)]
pub struct IdleDetector {
    /// The strategy fixed at construction.
    pub backend: IdleBackend,
    /// The configured idle threshold in seconds.
    pub threshold_secs: u64,
}

impl IdleDetector {
    /// Selection policy: prefer the event-driven strategy when its
    /// subscription succeeded at construction time, otherwise poll.
    pub fn new(idle_threshold_secs: u64, event_backend_available: bool) -> (detector:
        IdleDetector)
        ensures
            detector.threshold_secs == idle_threshold_secs,
            detector.backend == (if event_backend_available {
                IdleBackend::EventDriven
            } else {
                IdleBackend::Polling
            }),
    {
        IdleDetector {
            backend: if event_backend_available {
                IdleBackend::EventDriven
            } else {
                IdleBackend::Polling
            },
            threshold_secs: idle_threshold_secs,
        }
    }

    /// Idle seconds derived from the observed event state.
    pub fn event_idle_seconds(&self, is_idle: bool, idle_since: u64, now: u64) -> (secs: u64)
        ensures
            secs == spec_event_idle_seconds(is_idle, idle_since, now, self.threshold_secs),
    {
        if is_idle {
            let elapsed = now.saturating_sub(idle_since);
            if elapsed < self.threshold_secs {
                self.threshold_secs
            } else {
                elapsed
            }
        } else {
            0
        }
    }

    /// One query: the current idle duration in seconds.
    ///
    /// The event-driven strategy answers from the observed idle flag and
    /// idle-since stamp at `now` and never fails; the polling strategy
    /// passes through `polled`, what the system idle counter answered.
    pub fn get_idle_time(
        &self,
        event_is_idle: bool,
        event_idle_since: u64,
        now: u64,
        polled: Result<u64, IdleDetectionError>,
    ) -> (sample: Result<u64, IdleDetectionError>)
        ensures
            self.backend is EventDriven ==> sample == Ok::<u64, IdleDetectionError>(
                spec_event_idle_seconds(event_is_idle, event_idle_since, now, self.threshold_secs),
            ),
            self.backend is Polling ==> sample == polled,
    {
        match self.backend {
            IdleBackend::EventDriven => Ok(
                self.event_idle_seconds(event_is_idle, event_idle_since, now),
            ),
            IdleBackend::Polling => polled,
        }
    }
}

} // verus!
