//! The externally published, fully derived view of scheduling state.
//!
//! A snapshot is always a pure function of the engine's internal state at
//! the moment of computation; it is recomputed and republished after every
//! state transition, never incrementally patched by consumers. Timestamps
//! are Unix times in whole seconds.

use vstd::prelude::*;

verus! {

/// The externally visible derived state: paused flag, active snooze expiry,
/// next-trigger time, last-notification time and the sampled idle seconds.
#[derive(Clone, Copy, Debug, PartialEq, Eq)]
pub struct StatusSnapshot {
    pub paused: bool,
    pub snoozed_until: Option<u64>,
    pub next_trigger_at: Option<u64>,
    pub last_notification_at: Option<u64>,
    pub idle_seconds: Option<u64>,
}

impl StatusSnapshot {
    /// The snapshot published before the engine has observed any event.
    pub open spec fn spec_default() -> StatusSnapshot {
        StatusSnapshot {
            paused: false,
            snoozed_until: None,
            next_trigger_at: None,
            last_notification_at: None,
            idle_seconds: None,
        }
    }
}

impl Default for StatusSnapshot {
    /// Not paused, nothing snoozed, no trigger scheduled, nothing sampled.
    fn default() -> (snapshot: StatusSnapshot)
        ensures
            snapshot == StatusSnapshot::spec_default(),
    {
        StatusSnapshot {
            paused: false,
            snoozed_until: None,
            next_trigger_at: None,
            last_notification_at: None,
            idle_seconds: None,
        }
    }
}

/// The label a menu's pause entry shows for a snapshot: the action that
/// the entry would perform next.
pub fn pause_menu_label(status: &StatusSnapshot) -> (label: String)
    ensures
        status.paused ==> label@ == "Resume reminders"@,
        !status.paused ==> label@ == "Pause reminders"@,
{
    if status.paused {
        "Resume reminders".to_owned()
    } else {
        "Pause reminders".to_owned()
    }
}

} // verus!
