//! Network monitoring commands of a session.

use vstd::prelude::*;

verus! {

/// What to do with a session's network log.
#[derive(Debug, Clone)]
pub enum NetworkAction {
    /// Start recording, keeping at most `max_logs` entries when given.
    Enable { max_logs: Option<usize> },
    /// Stop recording.
    Disable,
    /// Return the recorded entries, optionally only those whose URL
    /// contains `filter`.
    GetLogs { filter: Option<String> },
    /// Drop the recorded entries.
    ClearLogs,
}

} // verus!
