//! Error codes returned by the API.

use vstd::prelude::*;

verus! {

/// `WBP2_001`.
pub const SESSION_NOT_FOUND: &'static str = "WBP2_001";

/// `WBP2_002`.
pub const SESSION_BUSY: &'static str = "WBP2_002";

/// `WBP2_003`.
pub const SESSION_TIMEOUT: &'static str = "WBP2_003";

/// `WBP2_004`.
pub const SESSION_LIMIT: &'static str = "WBP2_004";

/// `WBP2_010`.
pub const ELEMENT_NOT_FOUND: &'static str = "WBP2_010";

/// `WBP2_011`.
pub const WAIT_TIMEOUT: &'static str = "WBP2_011";

/// `WBP2_012`.
pub const ELEMENT_NOT_VISIBLE: &'static str = "WBP2_012";

/// `WBP2_013`.
pub const ELEMENT_NOT_INTERACTABLE: &'static str = "WBP2_013";

/// `WBP2_020`.
pub const SCRIPT_ERROR: &'static str = "WBP2_020";

/// `WBP2_021`.
pub const SCRIPT_TIMEOUT: &'static str = "WBP2_021";

/// `WBP2_030`.
pub const NAVIGATION_FAILED: &'static str = "WBP2_030";

/// `WBP2_031`.
pub const PAGE_LOAD_TIMEOUT: &'static str = "WBP2_031";

/// `WBP2_080`.
pub const MACRO_NOT_FOUND: &'static str = "WBP2_080";

/// `WBP2_081`.
pub const MACRO_EXECUTION_FAILED: &'static str = "WBP2_081";

/// `WBP2_090`.
pub const INVALID_REQUEST: &'static str = "WBP2_090";

/// `WBP2_091`.
pub const VALIDATION_ERROR: &'static str = "WBP2_091";

/// `WBP2_099`.
pub const INTERNAL_ERROR: &'static str = "WBP2_099";

/// `WBP2_100`.
pub const AI_NOT_AVAILABLE: &'static str = "WBP2_100";

/// `WBP2_101`.
pub const AI_BUDGET_EXCEEDED: &'static str = "WBP2_101";

/// `WBP2_102`.
pub const AI_REQUEST_FAILED: &'static str = "WBP2_102";

/// `WBP2_110`.
pub const DOWNLOAD_NOT_FOUND: &'static str = "WBP2_110";

/// `WBP2_111`.
pub const FILE_REF_NOT_FOUND: &'static str = "WBP2_111";

/// `WBP2_112`.
pub const DOWNLOAD_FAILED: &'static str = "WBP2_112";

/// `WBP2_113`.
pub const STORAGE_FULL: &'static str = "WBP2_113";

/// `WBP2_120`.
pub const JOB_NOT_FOUND: &'static str = "WBP2_120";

/// `WBP2_121`.
pub const JOB_ALREADY_COMPLETED: &'static str = "WBP2_121";

/// `WBP2_122`.
pub const JOB_CANCELLED: &'static str = "WBP2_122";

/// `WBP2_130`.
pub const WEBHOOK_FAILED: &'static str = "WBP2_130";

/// `WBP2_131`.
pub const WEBHOOK_TIMEOUT: &'static str = "WBP2_131";

/// `WBP2_140`.
pub const BATCH_FAILED: &'static str = "WBP2_140";

/// `WBP2_141`.
pub const DEPENDENCY_FAILED: &'static str = "WBP2_141";

} // verus!
