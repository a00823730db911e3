use vstd::prelude::*;

verus! {

/// One row of the lock history, with its live protection status.
#[derive(Debug, Clone)]
pub struct HiddenItem {
    pub id: i64,
    pub path: String,
    pub item_type: String,
    pub original_attributes: u32,
    pub current_status: i32,
    pub protection_status: String,
    pub create_time: String,
    pub update_time: String,
    pub file_id: Option<String>,
}

/// A path that a batch operation could not process, and why.
#[derive(Debug, Clone)]
pub struct BatchFailure {
    pub path: String,
    pub error: String,
}

/// The outcome of a batch operation, item by item.
#[derive(Debug, Clone)]
pub struct BatchResult {
    pub succeeded: Vec<HiddenItem>,
    pub failed: Vec<BatchFailure>,
}

/// What a lock would touch, and the risks it carries.
#[derive(Debug, Clone)]
pub struct PreviewItem {
    pub path: String,
    pub item_type: String,
    pub risks: Vec<String>,
    pub can_lock: bool,
}

/// Counts of a health check over the history.
#[derive(Debug, Clone)]
pub struct HealthSummary {
    pub checked: u32,
    pub healthy: u32,
    pub changed: u32,
}

/// The outcome of deleting history rows.
#[derive(Debug, Clone)]
pub struct DeleteHistoryResult {
    pub succeeded: Vec<i64>,
    pub failed: Vec<BatchFailure>,
}

/// Where the history database is kept.
#[derive(Debug, Clone)]
pub struct StorageInfo {
    pub mode: String,
    pub path: String,
    pub portable_marker: String,
}

/// A marked item found by a recovery scan.
#[derive(Debug, Clone)]
pub struct RecoveryCandidate {
    pub path: String,
    pub item_type: String,
    pub original_attributes: u32,
}

/// A progress, cancellation or completion report of a recovery scan.
#[derive(Debug, Clone)]
pub struct RecoveryScanUpdate {
    pub scan_id: String,
    pub kind: String,
    pub scanned: u64,
    pub skipped: u64,
    pub candidates: Vec<RecoveryCandidate>,
}

} // verus!
