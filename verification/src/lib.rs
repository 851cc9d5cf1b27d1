//! Break-reminder scheduling engine.
//!
//! The library owns the authoritative notion of "when is the next reminder
//! due": a pure state machine over preferences, a pause flag, a snooze
//! expiry, an idle-activity observation and the next deadline. Every event
//! (a deadline firing, an idle-poll tick, a control command) is a verified
//! transition, and the published status snapshot is a pure function of the
//! state after each transition.

use vstd::prelude::*;

pub mod engine;
pub mod events;
pub mod idle;
pub mod messages;
pub mod prefs;
pub mod status;

verus! {

/// Boxes an error value, handing ownership to the heap.
pub fn boxed<E>(err: E) -> (boxed_err: Box<E>)
    ensures
        boxed_err == err,
{
    Box::new(err)
}

} // verus!
