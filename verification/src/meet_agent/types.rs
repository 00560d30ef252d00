//! The log of a meeting session.

use vstd::prelude::*;

verus! {

/// What a log entry is about.
#[derive(Debug, Clone, Copy, PartialEq, Eq, Structural)]
pub enum SessionEventKind {
    /// Something a participant said.
    Heard,
    /// Something the agent said.
    Spoke,
    /// Book-keeping: failures and decisions.
    Note,
}

/// One entry of the session log.
#[derive(Debug, Clone)]
pub struct SessionEvent {
    pub kind: SessionEventKind,
    pub text: String,
    pub timestamp_ms: u64,
}

} // verus!
