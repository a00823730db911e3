use vstd::prelude::*;
use crate::marker::RecoveryMarker;
use crate::models::HiddenItem;

verus! {

broadcast use vstd::string::group_string_axioms;

/// A step of a lock, restore or recovery that the caller performs on the
/// file system or the history database, and reports back as an [`Event`].
pub enum Action {
    /// Check the selected path and find its canonical form.
    ResolveTarget { path: String, expected_directory: bool },
    /// Read and parse the recovery marker of the item at `path`.
    ReadMarker { path: String },
    /// Look up the active history row of `path`.
    FindActive { path: String },
    /// Read the attribute mask at `path`.
    ReadAttributes { path: String },
    /// Add an active history row; `record_identity` asks for the item's file
    /// identity to be stored with it.
    InsertRecord { path: String, item_type: String, original_attributes: u32, record_identity: bool },
    /// Create the recovery marker stream of the item at `path`.
    WriteMarker { path: String, item_type: String, original_attributes: u32 },
    /// Set the attribute mask at `path`.
    SetAttributes { path: String, attributes: u32 },
    /// Delete the recovery marker stream of the item at `path`.
    RemoveMarker { path: String },
    /// Delete the active history row `id`.
    RemoveRecord { id: i64 },
    /// Mark the active history row `id` as restored.
    MarkRestored { id: i64 },
    /// Read the history row `id`.
    FetchRecord { id: i64 },
    /// The operation is over; this is its result.
    Finish(Result<HiddenItem, TxError>),
}

/// What came of the last [`Action`].
pub enum Event {
    Resolved(Result<String, String>),
    MarkerRead(Option<RecoveryMarker>),
    ActiveFound(Result<Option<i64>, String>),
    AttributesRead(Result<u32, String>),
    RecordInserted(Result<i64, String>),
    /// `Ok(true)`: the marker was written; `Ok(false)`: the item's volume
    /// keeps no alternate data streams (FAT, exFAT), so no marker can be
    /// written there.
    MarkerWritten(Result<bool, String>),
    AttributesSet(Result<(), String>),
    MarkerRemoved(Result<(), String>),
    RecordRemoved(Result<(), String>),
    Restored(Result<(), String>),
    RecordFetched(Result<HiddenItem, String>),
}

/// Whether `event` reports the outcome of `action`.
pub open spec fn answers(action: Action, event: Event) -> bool {
    match action {
        Action::ResolveTarget { .. } => event is Resolved,
        Action::ReadMarker { .. } => event is MarkerRead,
        Action::FindActive { .. } => event is ActiveFound,
        Action::ReadAttributes { .. } => event is AttributesRead,
        Action::InsertRecord { .. } => event is RecordInserted,
        Action::WriteMarker { .. } => event is MarkerWritten,
        Action::SetAttributes { .. } => event is AttributesSet,
        Action::RemoveMarker { .. } => event is MarkerRemoved,
        Action::RemoveRecord { .. } => event is RecordRemoved,
        Action::MarkRestored { .. } => event is Restored,
        Action::FetchRecord { .. } => event is RecordFetched,
        Action::Finish(_) => false,
    }
}

/// The path of the item that an action reads or changes, if it names one.
pub open spec fn action_path(action: Action) -> Option<String> {
    match action {
        Action::ReadMarker { path } => Some(path),
        Action::FindActive { path } => Some(path),
        Action::ReadAttributes { path } => Some(path),
        Action::InsertRecord { path, .. } => Some(path),
        Action::WriteMarker { path, .. } => Some(path),
        Action::SetAttributes { path, .. } => Some(path),
        Action::RemoveMarker { path } => Some(path),
        _ => None,
    }
}

/// Why a lock, restore or recovery failed.
pub enum TxError {
    /// A step failed with this message, passed on as it is.
    Failed(String),
    /// The selected item already carries a recovery marker.
    AlreadyMarked,
    /// The selected item already has an active history row.
    AlreadyListed,
    /// Setting the lock attributes failed; the history row was removed.
    LockFailed { cause: String },
    /// A lock failed, and so did removing its row.
    LockCleanupFailed { cleanup: String, cause: String },
    /// A lock failed, and so did removing its marker (and, when `record`
    /// holds an error, removing its row).
    LockUndoIncomplete { marker: String, record: Option<String>, cause: String },
    /// The row is already restored.
    AlreadyRestored,
    /// The item's path no longer exists.
    PathGone,
    /// The item is not locked any more.
    NotLocked,
    /// The marker could not be removed; the item was locked again.
    MarkerStuck { cause: String },
    /// The marker could not be removed, and locking again failed.
    MarkerStuckRelockFailed { relock: String, cause: String },
    /// The row could not be marked restored; the item was locked again.
    RestoreRecordFailed { cause: String },
    /// The row could not be marked restored; the item was locked again, but
    /// its marker could not be written again.
    RestoreMarkerLost { marker: String, cause: String },
    /// The row could not be marked restored, and locking again failed (and,
    /// when `marker` holds an error, so did writing the marker again).
    RestoreRelockFailed { relock: String, marker: Option<String>, cause: String },
    /// No valid recovery marker at the path.
    NoMarker,
    /// The marker vanished between the two reads.
    MarkerGone,
    /// A marked item that still has an active row.
    AlreadyListedForRecovery,
    /// A marked item that is not locked.
    NotLockedForRecovery,
    /// Restoring the attributes failed; the new row was removed.
    RecoverAttributesFailed { cause: String },
    /// Removing the marker failed; the item was locked again.
    RecoverMarkerFailed { cause: String },
    /// Marking the new row restored failed; the item was locked again.
    RecoverRecordFailed { cause: String },
    /// A recovery failed with `cause`, and so did these undo steps: locking
    /// again, writing the marker again, removing the new row.
    RecoverUndoIncomplete {
        cause: String,
        relock: Option<String>,
        marker: Option<String>,
        record: Option<String>,
    },
}

pub const MSG_ALREADY_MARKED: &'static str = "该项目已带有 FileHide 恢复标记，请使用“找回锁定项目”处理。";
pub const MSG_ALREADY_LISTED: &'static str = "该项目已在隐藏列表中";
pub const MSG_LOCK_FAILED: &'static str = "锁定失败，未创建历史记录：";
pub const MSG_LOCK_CLEANUP_FAILED: &'static str = "锁定失败，且无法清理未完成的历史记录（";
pub const MSG_CLOSE_COLON: &'static str = "）：";
pub const MSG_MARKER_LEFT: &'static str = "锁定失败，且无法移除未完成的 FileHide 恢复标记（";
pub const MSG_ALSO_RECORD_LEFT: &'static str = "），也无法清理未完成的历史记录（";
pub const MSG_ALREADY_RESTORED: &'static str = "该项目已恢复";
pub const MSG_PATH_GONE: &'static str = "路径已不存在，无法恢复；请在历史记录中保留该条目。";
pub const MSG_NOT_LOCKED: &'static str = "项目未处于已锁定状态，无法恢复；请先在 FileHide 中重新锁定。";
pub const MSG_MARKER_STUCK: &'static str = "恢复标记无法移除，已自动重新锁定项目：";
pub const MSG_RESTORE_RECORD_FAILED: &'static str = "恢复后无法更新历史记录，已自动重新锁定项目，请重试：";
pub const MSG_RESTORE_RELOCK_FAILED: &'static str = "恢复后无法更新历史记录，且自动重新锁定失败（";
pub const MSG_MARKER_STUCK_RELOCK_FAILED: &'static str = "恢复标记无法移除，且自动重新锁定失败（";
pub const MSG_RESTORE_MARKER_LOST: &'static str = "恢复后无法更新历史记录，已自动重新锁定项目，但无法写回 FileHide 恢复标记（";
pub const MSG_ALSO_MARKER_LOST: &'static str = "），也无法写回 FileHide 恢复标记（";
pub const MSG_NO_MARKER: &'static str = "未找到有效的 FileHide 恢复标记";
pub const MSG_MARKER_GONE: &'static str = "恢复标记已失效";
pub const MSG_ALREADY_LISTED_FOR_RECOVERY: &'static str = "该项目已存在于隐藏列表，请直接从隐藏项目中恢复";
pub const MSG_NOT_LOCKED_FOR_RECOVERY: &'static str = "项目未处于已锁定状态，无法找回恢复";
pub const MSG_RECOVER_ATTRIBUTES_FAILED: &'static str = "找回恢复失败，未创建历史记录：";
pub const MSG_RECOVER_MARKER_FAILED: &'static str = "找回恢复失败，已自动重新锁定项目：";
pub const MSG_RECOVER_RECORD_FAILED: &'static str = "找回恢复后无法更新历史记录，已自动重新锁定项目：";
pub const MSG_RECOVER_UNDO_INCOMPLETE: &'static str = "找回恢复失败，且未能完全撤销：";
pub const MSG_RELOCK_PART: &'static str = "；自动重新锁定失败：";
pub const MSG_MARKER_PART: &'static str = "；无法写回 FileHide 恢复标记：";
pub const MSG_RECORD_PART: &'static str = "；无法清理新建的历史记录：";

/// `prefix` and the error, or nothing when there is no error.
pub open spec fn error_part(prefix: Seq<char>, e: Option<String>) -> Seq<char> {
    match e {
        Some(x) => prefix + x@,
        None => Seq::empty(),
    }
}

fn push_error_part(text: String, prefix: &str, e: &Option<String>) -> (r: String)
    ensures
        r@ == text@ + error_part(prefix@, *e),
{
    match e {
        Some(x) => {
            let r = text.concat(prefix).concat(x.as_str());
            r
        },
        None => {
            assert(text@ + error_part(prefix@, *e) =~= text@);
            text
        },
    }
}

/// The message shown for an error.
pub open spec fn spec_message(e: TxError) -> Seq<char> {
    match e {
        TxError::Failed(m) => m@,
        TxError::AlreadyMarked => MSG_ALREADY_MARKED@,
        TxError::AlreadyListed => MSG_ALREADY_LISTED@,
        TxError::LockFailed { cause } => MSG_LOCK_FAILED@ + cause@,
        TxError::LockCleanupFailed { cleanup, cause } => MSG_LOCK_CLEANUP_FAILED@ + cleanup@
            + MSG_CLOSE_COLON@ + cause@,
        TxError::LockUndoIncomplete { marker, record, cause } => match record {
            None => MSG_MARKER_LEFT@ + marker@ + MSG_CLOSE_COLON@ + cause@,
            Some(c) => MSG_MARKER_LEFT@ + marker@ + MSG_ALSO_RECORD_LEFT@ + c@ + MSG_CLOSE_COLON@ + cause@,
        },
        TxError::AlreadyRestored => MSG_ALREADY_RESTORED@,
        TxError::PathGone => MSG_PATH_GONE@,
        TxError::NotLocked => MSG_NOT_LOCKED@,
        TxError::MarkerStuck { cause } => MSG_MARKER_STUCK@ + cause@,
        TxError::MarkerStuckRelockFailed { relock, cause } => MSG_MARKER_STUCK_RELOCK_FAILED@ + relock@
            + MSG_CLOSE_COLON@ + cause@,
        TxError::RestoreRecordFailed { cause } => MSG_RESTORE_RECORD_FAILED@ + cause@,
        TxError::RestoreMarkerLost { marker, cause } => MSG_RESTORE_MARKER_LOST@ + marker@ + MSG_CLOSE_COLON@
            + cause@,
        TxError::RestoreRelockFailed { relock, marker, cause } => match marker {
            None => MSG_RESTORE_RELOCK_FAILED@ + relock@ + MSG_CLOSE_COLON@ + cause@,
            Some(m) => MSG_RESTORE_RELOCK_FAILED@ + relock@ + MSG_ALSO_MARKER_LOST@ + m@ + MSG_CLOSE_COLON@
                + cause@,
        },
        TxError::NoMarker => MSG_NO_MARKER@,
        TxError::MarkerGone => MSG_MARKER_GONE@,
        TxError::AlreadyListedForRecovery => MSG_ALREADY_LISTED_FOR_RECOVERY@,
        TxError::NotLockedForRecovery => MSG_NOT_LOCKED_FOR_RECOVERY@,
        TxError::RecoverAttributesFailed { cause } => MSG_RECOVER_ATTRIBUTES_FAILED@ + cause@,
        TxError::RecoverMarkerFailed { cause } => MSG_RECOVER_MARKER_FAILED@ + cause@,
        TxError::RecoverRecordFailed { cause } => MSG_RECOVER_RECORD_FAILED@ + cause@,
        TxError::RecoverUndoIncomplete { cause, relock, marker, record } => MSG_RECOVER_UNDO_INCOMPLETE@ + cause@
            + error_part(MSG_RELOCK_PART@, relock) + error_part(MSG_MARKER_PART@, marker) + error_part(
            MSG_RECORD_PART@,
            record,
        ),
    }
}

fn join(prefix: &str, text: &String) -> (r: String)
    ensures
        r@ == prefix@ + text@,
{
    String::from_str(prefix).concat(text.as_str())
}

fn join4(prefix: &str, first: &String, middle: &str, last: &String) -> (r: String)
    ensures
        r@ == prefix@ + first@ + middle@ + last@,
{
    String::from_str(prefix).concat(first.as_str()).concat(middle).concat(last.as_str())
}

impl TxError {
    /// The message shown for this error.
    pub fn message(&self) -> (r: String)
        ensures
            r@ == spec_message(*self),
    {
        match self {
            TxError::Failed(m) => m.clone(),
            TxError::AlreadyMarked => String::from_str(MSG_ALREADY_MARKED),
            TxError::AlreadyListed => String::from_str(MSG_ALREADY_LISTED),
            TxError::LockFailed { cause } => join(MSG_LOCK_FAILED, cause),
            TxError::LockCleanupFailed { cleanup, cause } => join4(
                MSG_LOCK_CLEANUP_FAILED,
                cleanup,
                MSG_CLOSE_COLON,
                cause,
            ),
            TxError::LockUndoIncomplete { marker, record, cause } => match record {
                None => join4(MSG_MARKER_LEFT, marker, MSG_CLOSE_COLON, cause),
                Some(c) => join4(MSG_MARKER_LEFT, marker, MSG_ALSO_RECORD_LEFT, c).concat(MSG_CLOSE_COLON).concat(
                    cause.as_str(),
                ),
            },
            TxError::AlreadyRestored => String::from_str(MSG_ALREADY_RESTORED),
            TxError::PathGone => String::from_str(MSG_PATH_GONE),
            TxError::NotLocked => String::from_str(MSG_NOT_LOCKED),
            TxError::MarkerStuck { cause } => join(MSG_MARKER_STUCK, cause),
            TxError::MarkerStuckRelockFailed { relock, cause } => join4(
                MSG_MARKER_STUCK_RELOCK_FAILED,
                relock,
                MSG_CLOSE_COLON,
                cause,
            ),
            TxError::RestoreRecordFailed { cause } => join(MSG_RESTORE_RECORD_FAILED, cause),
            TxError::RestoreMarkerLost { marker, cause } => join4(
                MSG_RESTORE_MARKER_LOST,
                marker,
                MSG_CLOSE_COLON,
                cause,
            ),
            TxError::RestoreRelockFailed { relock, marker, cause } => match marker {
                None => join4(MSG_RESTORE_RELOCK_FAILED, relock, MSG_CLOSE_COLON, cause),
                Some(m) => join4(MSG_RESTORE_RELOCK_FAILED, relock, MSG_ALSO_MARKER_LOST, m).concat(
                    MSG_CLOSE_COLON,
                ).concat(cause.as_str()),
            },
            TxError::NoMarker => String::from_str(MSG_NO_MARKER),
            TxError::MarkerGone => String::from_str(MSG_MARKER_GONE),
            TxError::AlreadyListedForRecovery => String::from_str(MSG_ALREADY_LISTED_FOR_RECOVERY),
            TxError::NotLockedForRecovery => String::from_str(MSG_NOT_LOCKED_FOR_RECOVERY),
            TxError::RecoverAttributesFailed { cause } => join(MSG_RECOVER_ATTRIBUTES_FAILED, cause),
            TxError::RecoverMarkerFailed { cause } => join(MSG_RECOVER_MARKER_FAILED, cause),
            TxError::RecoverRecordFailed { cause } => join(MSG_RECOVER_RECORD_FAILED, cause),
            TxError::RecoverUndoIncomplete { cause, relock, marker, record } => {
                let text = join(MSG_RECOVER_UNDO_INCOMPLETE, cause);
                let text = push_error_part(text, MSG_RELOCK_PART, relock);
                let text = push_error_part(text, MSG_MARKER_PART, marker);
                push_error_part(text, MSG_RECORD_PART, record)
            },
        }
    }
}

} // verus!
