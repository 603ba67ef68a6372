//! Names of the events published to WebSocket subscribers.

use vstd::prelude::*;

verus! {

/// `download_started`.
pub const DOWNLOAD_STARTED: &'static str = "download_started";

/// `download_progress`.
pub const DOWNLOAD_PROGRESS: &'static str = "download_progress";

/// `download_completed`.
pub const DOWNLOAD_COMPLETED: &'static str = "download_completed";

/// `download_failed`.
pub const DOWNLOAD_FAILED: &'static str = "download_failed";

/// `job_started`.
pub const JOB_STARTED: &'static str = "job_started";

/// `job_progress`.
pub const JOB_PROGRESS: &'static str = "job_progress";

/// `job_completed`.
pub const JOB_COMPLETED: &'static str = "job_completed";

/// `job_failed`.
pub const JOB_FAILED: &'static str = "job_failed";

/// `job_cancelled`.
pub const JOB_CANCELLED: &'static str = "job_cancelled";

/// `session_acquired`.
pub const SESSION_ACQUIRED: &'static str = "session_acquired";

/// `session_released`.
pub const SESSION_RELEASED: &'static str = "session_released";

/// `session_destroyed`.
pub const SESSION_DESTROYED: &'static str = "session_destroyed";

/// `dom_change`.
pub const DOM_CHANGE: &'static str = "dom_change";

/// `navigation`.
pub const NAVIGATION: &'static str = "navigation";

/// `page_load`.
pub const PAGE_LOAD: &'static str = "page_load";

/// `error`.
pub const ERROR: &'static str = "error";

} // verus!
