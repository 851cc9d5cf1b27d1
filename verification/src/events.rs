//! Payloads broadcast to observers after engine transitions.

use vstd::prelude::*;

use crate::status::StatusSnapshot;

verus! {

/// What a status broadcast carries: the freshly derived snapshot.
#[derive(Clone, Copy, Debug)]
pub struct StatusPayload {
    pub status: StatusSnapshot,
}

/// What a log broadcast carries: a severity level and a message.
#[derive(Clone, Debug)]
pub struct LogPayload {
    pub level: String,
    pub message: String,
}

} // verus!
