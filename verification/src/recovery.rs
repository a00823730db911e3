use vstd::prelude::*;
use crate::file_attributes::{spec_is_hidden_and_system, HIDDEN, SYSTEM};
use crate::locking::{error_of, finishes_with_status, row_removal_asked};
use crate::marker::{RecoveryMarker, ITEM_TYPE_FILE, ITEM_TYPE_FOLDER};
use crate::models::HiddenItem;
use crate::status::with_protection_status;
use crate::text::{chars_eq, str_chars};
use crate::transaction::{Action, Event, TxError};

verus! {

broadcast use vstd::string::group_string_axioms;

/// Where the recovery of a marked item stands (an item found by a scan after
/// the history was lost).
pub enum RecoverPhase {
    /// Waiting for the marker at the selected path.
    ReadingMarker { path: String },
    /// Waiting for the path to be resolved as the marker's kind.
    Resolving,
    /// Waiting for the marker at the resolved path.
    RereadingMarker { path: String },
    /// Waiting to learn whether the item has an active row.
    CheckingActive { path: String, marker: RecoveryMarker },
    /// Waiting for the item's current attributes.
    ReadingLock { path: String, marker: RecoveryMarker },
    /// Waiting for the history row to be added.
    Inserting { path: String, marker: RecoveryMarker, locked: u32 },
    /// Row `id` exists; waiting for the recorded attributes to be set back.
    Unlocking { path: String, marker: RecoveryMarker, locked: u32, id: i64 },
    /// Unlocked; waiting for the marker to be removed.
    RemovingMarker { path: String, marker: RecoveryMarker, locked: u32, id: i64 },
    /// A step failed with `cause` (reported as `error` if every undo step
    /// works); waiting for the lock to be set again before the row is
    /// dropped. `marker` is the error of a marker rewrite that failed.
    Relocking { id: i64, error: TxError, cause: String, marker: Option<String> },
    /// Waiting for the marker to be written again.
    RewritingMarker { path: String, locked: u32, id: i64, error: TxError, cause: String },
    /// Waiting for the new row to be removed; then the recovery fails.
    /// `relock` and `marker` are the errors of undo steps that failed.
    DroppingRecord { error: TxError, cause: String, relock: Option<String>, marker: Option<String> },
    /// Waiting for the row to be marked restored.
    MarkingRestored { path: String, marker: RecoveryMarker, locked: u32, id: i64 },
    /// Waiting for the row to be read back.
    Fetching { id: i64 },
    /// Waiting for the attributes that give the row's live status.
    ReadingStatus { item: HiddenItem },
    /// Over.
    Done,
}

pub open spec fn recover_accepts(phase: RecoverPhase, event: Event) -> bool {
    match phase {
        RecoverPhase::ReadingMarker { .. } => event is MarkerRead,
        RecoverPhase::Resolving => event is Resolved,
        RecoverPhase::RereadingMarker { .. } => event is MarkerRead,
        RecoverPhase::CheckingActive { .. } => event is ActiveFound,
        RecoverPhase::ReadingLock { .. } => event is AttributesRead,
        RecoverPhase::Inserting { .. } => event is RecordInserted,
        RecoverPhase::Unlocking { .. } => event is AttributesSet,
        RecoverPhase::RemovingMarker { .. } => event is MarkerRemoved,
        RecoverPhase::Relocking { .. } => event is AttributesSet,
        RecoverPhase::RewritingMarker { .. } => event is MarkerWritten,
        RecoverPhase::DroppingRecord { .. } => event is RecordRemoved,
        RecoverPhase::MarkingRestored { .. } => event is Restored,
        RecoverPhase::Fetching { .. } => event is RecordFetched,
        RecoverPhase::ReadingStatus { .. } => event is AttributesRead,
        RecoverPhase::Done => false,
    }
}

/// How a failed recovery ends once its new row was dropped: with `error`
/// when every undo step worked, and otherwise naming the cause and each undo
/// step that failed (locking again, writing the marker again, removing the
/// row).
pub open spec fn spec_recover_undo_error(
    error: TxError,
    cause: String,
    relock: Option<String>,
    marker: Option<String>,
    removal: Result<(), String>,
) -> TxError {
    if relock is None && marker is None && removal is Ok {
        error
    } else {
        TxError::RecoverUndoIncomplete { cause, relock, marker, record: error_of(removal) }
    }
}

fn recover_undo_error(
    error: TxError,
    cause: String,
    relock: Option<String>,
    marker: Option<String>,
    removal: Result<(), String>,
) -> (r: TxError)
    ensures
        r == spec_recover_undo_error(error, cause, relock, marker, removal),
{
    if relock.is_none() && marker.is_none() && removal.is_ok() {
        error
    } else {
        let record = match removal {
            Ok(()) => None,
            Err(c) => Some(c),
        };
        TxError::RecoverUndoIncomplete { cause, relock, marker, record }
    }
}

/// One step of a recovery. The order is: read the marker at the selected
/// path; resolve the path as the marker's kind; read the marker again there;
/// refuse an item with an active row or one that is not locked; add a row
/// with the recorded type and attributes; set the recorded attributes back;
/// remove the marker; mark the row restored. When setting the attributes
/// fails the row is removed; when removing the marker fails the item is
/// locked again and the row removed; when the row cannot be marked restored
/// the marker is written again, the item locked again and the row removed.
/// An undo step that fails is reported with the error.
pub open spec fn recover_transition(old: RecoverPhase, event: Event, new: RecoverPhase, action: Action) -> bool {
    match old {
        RecoverPhase::ReadingMarker { path } => match event {
            Event::MarkerRead(None) => new is Done && action == Action::Finish(Err(TxError::NoMarker)),
            Event::MarkerRead(Some(m)) => new is Resolving && action == (Action::ResolveTarget {
                path,
                expected_directory: m.item_type@ == ITEM_TYPE_FOLDER@,
            }),
            _ => false,
        },
        RecoverPhase::Resolving => match event {
            Event::Resolved(Err(e)) => new is Done && action == Action::Finish(Err(TxError::Failed(e))),
            Event::Resolved(Ok(p)) => new == (RecoverPhase::RereadingMarker { path: p }) && action == (Action::ReadMarker {
                path: p,
            }),
            _ => false,
        },
        RecoverPhase::RereadingMarker { path } => match event {
            Event::MarkerRead(None) => new is Done && action == Action::Finish(Err(TxError::MarkerGone)),
            Event::MarkerRead(Some(m)) => new == (RecoverPhase::CheckingActive { path, marker: m })
                && action == (Action::FindActive { path }),
            _ => false,
        },
        RecoverPhase::CheckingActive { path, marker } => match event {
            Event::ActiveFound(Err(e)) => new is Done && action == Action::Finish(Err(TxError::Failed(e))),
            Event::ActiveFound(Ok(Some(_))) => new is Done && action == Action::Finish(
                Err(TxError::AlreadyListedForRecovery),
            ),
            Event::ActiveFound(Ok(None)) => new == (RecoverPhase::ReadingLock { path, marker })
                && action == (Action::ReadAttributes { path }),
            _ => false,
        },
        RecoverPhase::ReadingLock { path, marker } => match event {
            Event::AttributesRead(Err(e)) => new is Done && action == Action::Finish(Err(TxError::Failed(e))),
            Event::AttributesRead(Ok(a)) => if !spec_is_hidden_and_system(a) {
                new is Done && action == Action::Finish(Err(TxError::NotLockedForRecovery))
            } else {
                &&& new == (RecoverPhase::Inserting { path, marker, locked: a })
                &&& action == (Action::InsertRecord {
                    path,
                    item_type: marker.item_type,
                    original_attributes: marker.original_attributes,
                    record_identity: false,
                })
            },
            _ => false,
        },
        RecoverPhase::Inserting { path, marker, locked } => match event {
            Event::RecordInserted(Err(e)) => new is Done && action == Action::Finish(Err(TxError::Failed(e))),
            Event::RecordInserted(Ok(id)) => new == (RecoverPhase::Unlocking { path, marker, locked, id })
                && action == (Action::SetAttributes { path, attributes: marker.original_attributes }),
            _ => false,
        },
        RecoverPhase::Unlocking { path, marker, locked, id } => match event {
            Event::AttributesSet(Err(e)) => new == (RecoverPhase::DroppingRecord {
                error: TxError::RecoverAttributesFailed { cause: e },
                cause: e,
                relock: None,
                marker: None,
            }) && action == (Action::RemoveRecord { id }),
            Event::AttributesSet(Ok(_)) => new == (RecoverPhase::RemovingMarker { path, marker, locked, id })
                && action == (Action::RemoveMarker { path }),
            _ => false,
        },
        RecoverPhase::RemovingMarker { path, marker, locked, id } => match event {
            Event::MarkerRemoved(Err(e)) => new == (RecoverPhase::Relocking {
                id,
                error: TxError::RecoverMarkerFailed { cause: e },
                cause: e,
                marker: None,
            }) && action == (Action::SetAttributes { path, attributes: locked }),
            Event::MarkerRemoved(Ok(_)) => new == (RecoverPhase::MarkingRestored { path, marker, locked, id })
                && action == (Action::MarkRestored { id }),
            _ => false,
        },
        RecoverPhase::Relocking { id, error, cause, marker } => match event {
            Event::AttributesSet(r) => new == (RecoverPhase::DroppingRecord {
                error,
                cause,
                relock: error_of(r),
                marker,
            }) && action == (Action::RemoveRecord { id }),
            _ => false,
        },
        RecoverPhase::DroppingRecord { error, cause, relock, marker } => match event {
            Event::RecordRemoved(r) => new is Done && action == Action::Finish(
                Err(spec_recover_undo_error(error, cause, relock, marker, r)),
            ),
            _ => false,
        },
        RecoverPhase::MarkingRestored { path, marker, locked, id } => match event {
            Event::Restored(Err(e)) => {
                &&& new == (RecoverPhase::RewritingMarker {
                    path,
                    locked,
                    id,
                    error: TxError::RecoverRecordFailed { cause: e },
                    cause: e,
                })
                &&& action == (Action::WriteMarker {
                    path,
                    item_type: marker.item_type,
                    original_attributes: marker.original_attributes,
                })
            },
            Event::Restored(Ok(_)) => new == (RecoverPhase::Fetching { id }) && action == (Action::FetchRecord { id }),
            _ => false,
        },
        RecoverPhase::RewritingMarker { path, locked, id, error, cause } => match event {
            Event::MarkerWritten(w) => new == (RecoverPhase::Relocking { id, error, cause, marker: error_of(w) })
                && action == (Action::SetAttributes { path, attributes: locked }),
            _ => false,
        },
        RecoverPhase::Fetching { id } => match event {
            Event::RecordFetched(Err(e)) => new is Done && action == Action::Finish(Err(TxError::Failed(e))),
            Event::RecordFetched(Ok(item)) => new == (RecoverPhase::ReadingStatus { item })
                && action == (Action::ReadAttributes { path: item.path }),
            _ => false,
        },
        RecoverPhase::ReadingStatus { item } => match event {
            Event::AttributesRead(r) => new is Done && finishes_with_status(action, item, r),
            _ => false,
        },
        RecoverPhase::Done => false,
    }
}

/// Starts recovering the marked item at `path`.
pub fn recover_start(path: String) -> (r: (RecoverPhase, Action))
    ensures
        r.0 == (RecoverPhase::ReadingMarker { path }),
        r.1 == (Action::ReadMarker { path }),
{
    let q = path.clone();
    (RecoverPhase::ReadingMarker { path }, Action::ReadMarker { path: q })
}

pub fn recover_accepts_exec(phase: &RecoverPhase, event: &Event) -> (r: bool)
    ensures
        r == recover_accepts(*phase, *event),
{
    match phase {
        RecoverPhase::ReadingMarker { .. } => matches!(event, Event::MarkerRead(_)),
        RecoverPhase::Resolving => matches!(event, Event::Resolved(_)),
        RecoverPhase::RereadingMarker { .. } => matches!(event, Event::MarkerRead(_)),
        RecoverPhase::CheckingActive { .. } => matches!(event, Event::ActiveFound(_)),
        RecoverPhase::ReadingLock { .. } => matches!(event, Event::AttributesRead(_)),
        RecoverPhase::Inserting { .. } => matches!(event, Event::RecordInserted(_)),
        RecoverPhase::Unlocking { .. } => matches!(event, Event::AttributesSet(_)),
        RecoverPhase::RemovingMarker { .. } => matches!(event, Event::MarkerRemoved(_)),
        RecoverPhase::Relocking { .. } => matches!(event, Event::AttributesSet(_)),
        RecoverPhase::RewritingMarker { .. } => matches!(event, Event::MarkerWritten(_)),
        RecoverPhase::DroppingRecord { .. } => matches!(event, Event::RecordRemoved(_)),
        RecoverPhase::MarkingRestored { .. } => matches!(event, Event::Restored(_)),
        RecoverPhase::Fetching { .. } => matches!(event, Event::RecordFetched(_)),
        RecoverPhase::ReadingStatus { .. } => matches!(event, Event::AttributesRead(_)),
        RecoverPhase::Done => false,
    }
}

fn finish_with_status(item: HiddenItem, attributes: Result<u32, String>) -> (r: Action)
    ensures
        finishes_with_status(r, item, attributes),
{
    let unit = match attributes {
        Ok(a) => Ok(a),
        Err(_) => Err(()),
    };
    Action::Finish(Ok(with_protection_status(item, unit)))
}

/// Advances a recovery by the outcome of its last action.
pub fn recover_step(phase: RecoverPhase, event: Event) -> (r: (RecoverPhase, Action))
    requires
        recover_accepts(phase, event),
    ensures
        recover_transition(phase, event, r.0, r.1),
{
    match phase {
        RecoverPhase::ReadingMarker { path } => match event {
            Event::MarkerRead(None) => (RecoverPhase::Done, Action::Finish(Err(TxError::NoMarker))),
            Event::MarkerRead(Some(m)) => {
                let folder = str_chars(ITEM_TYPE_FOLDER);
                let kind = str_chars(m.item_type.as_str());
                let expected_directory = chars_eq(&kind, &folder);
                (RecoverPhase::Resolving, Action::ResolveTarget { path, expected_directory })
            },
            _ => {
                proof {
                    assert(false);
                }
                (RecoverPhase::Done, Action::Finish(Err(TxError::NoMarker)))
            },
        },
        RecoverPhase::Resolving => match event {
            Event::Resolved(Err(e)) => (RecoverPhase::Done, Action::Finish(Err(TxError::Failed(e)))),
            Event::Resolved(Ok(p)) => {
                let q = p.clone();
                (RecoverPhase::RereadingMarker { path: p }, Action::ReadMarker { path: q })
            },
            _ => {
                proof {
                    assert(false);
                }
                (RecoverPhase::Done, Action::Finish(Err(TxError::NoMarker)))
            },
        },
        RecoverPhase::RereadingMarker { path } => match event {
            Event::MarkerRead(None) => (RecoverPhase::Done, Action::Finish(Err(TxError::MarkerGone))),
            Event::MarkerRead(Some(m)) => {
                let q = path.clone();
                (RecoverPhase::CheckingActive { path, marker: m }, Action::FindActive { path: q })
            },
            _ => {
                proof {
                    assert(false);
                }
                (RecoverPhase::Done, Action::Finish(Err(TxError::NoMarker)))
            },
        },
        RecoverPhase::CheckingActive { path, marker } => match event {
            Event::ActiveFound(Err(e)) => (RecoverPhase::Done, Action::Finish(Err(TxError::Failed(e)))),
            Event::ActiveFound(Ok(Some(_))) => (
                RecoverPhase::Done,
                Action::Finish(Err(TxError::AlreadyListedForRecovery)),
            ),
            Event::ActiveFound(Ok(None)) => {
                let q = path.clone();
                (RecoverPhase::ReadingLock { path, marker }, Action::ReadAttributes { path: q })
            },
            _ => {
                proof {
                    assert(false);
                }
                (RecoverPhase::Done, Action::Finish(Err(TxError::NoMarker)))
            },
        },
        RecoverPhase::ReadingLock { path, marker } => match event {
            Event::AttributesRead(Err(e)) => (RecoverPhase::Done, Action::Finish(Err(TxError::Failed(e)))),
            Event::AttributesRead(Ok(a)) => {
                if !(a & HIDDEN != 0 && a & SYSTEM != 0) {
                    (RecoverPhase::Done, Action::Finish(Err(TxError::NotLockedForRecovery)))
                } else {
                    let q = path.clone();
                    let t = marker.item_type.clone();
                    let o = marker.original_attributes;
                    (
                        RecoverPhase::Inserting { path, marker, locked: a },
                        Action::InsertRecord { path: q, item_type: t, original_attributes: o, record_identity: false },
                    )
                }
            },
            _ => {
                proof {
                    assert(false);
                }
                (RecoverPhase::Done, Action::Finish(Err(TxError::NoMarker)))
            },
        },
        RecoverPhase::Inserting { path, marker, locked } => match event {
            Event::RecordInserted(Err(e)) => (RecoverPhase::Done, Action::Finish(Err(TxError::Failed(e)))),
            Event::RecordInserted(Ok(id)) => {
                let q = path.clone();
                let o = marker.original_attributes;
                (RecoverPhase::Unlocking { path, marker, locked, id }, Action::SetAttributes { path: q, attributes: o })
            },
            _ => {
                proof {
                    assert(false);
                }
                (RecoverPhase::Done, Action::Finish(Err(TxError::NoMarker)))
            },
        },
        RecoverPhase::Unlocking { path, marker, locked, id } => match event {
            Event::AttributesSet(Err(e)) => {
                let c = e.clone();
                (
                    RecoverPhase::DroppingRecord {
                        error: TxError::RecoverAttributesFailed { cause: e },
                        cause: c,
                        relock: None,
                        marker: None,
                    },
                    Action::RemoveRecord { id },
                )
            },
            Event::AttributesSet(Ok(_)) => {
                let q = path.clone();
                (RecoverPhase::RemovingMarker { path, marker, locked, id }, Action::RemoveMarker { path: q })
            },
            _ => {
                proof {
                    assert(false);
                }
                (RecoverPhase::Done, Action::Finish(Err(TxError::NoMarker)))
            },
        },
        RecoverPhase::RemovingMarker { path, marker, locked, id } => match event {
            Event::MarkerRemoved(Err(e)) => {
                let c = e.clone();
                (
                    RecoverPhase::Relocking { id, error: TxError::RecoverMarkerFailed { cause: e }, cause: c, marker: None },
                    Action::SetAttributes { path, attributes: locked },
                )
            },
            Event::MarkerRemoved(Ok(_)) => (
                RecoverPhase::MarkingRestored { path, marker, locked, id },
                Action::MarkRestored { id },
            ),
            _ => {
                proof {
                    assert(false);
                }
                (RecoverPhase::Done, Action::Finish(Err(TxError::NoMarker)))
            },
        },
        RecoverPhase::Relocking { id, error, cause, marker } => match event {
            Event::AttributesSet(r) => {
                let relock = match r {
                    Ok(()) => None,
                    Err(x) => Some(x),
                };
                (RecoverPhase::DroppingRecord { error, cause, relock, marker }, Action::RemoveRecord { id })
            },
            _ => {
                proof {
                    assert(false);
                }
                (RecoverPhase::Done, Action::Finish(Err(TxError::NoMarker)))
            },
        },
        RecoverPhase::DroppingRecord { error, cause, relock, marker } => match event {
            Event::RecordRemoved(r) => (
                RecoverPhase::Done,
                Action::Finish(Err(recover_undo_error(error, cause, relock, marker, r))),
            ),
            _ => {
                proof {
                    assert(false);
                }
                (RecoverPhase::Done, Action::Finish(Err(TxError::NoMarker)))
            },
        },
        RecoverPhase::MarkingRestored { path, marker, locked, id } => match event {
            Event::Restored(Err(e)) => {
                let q = path.clone();
                let c = e.clone();
                (
                    RecoverPhase::RewritingMarker {
                        path,
                        locked,
                        id,
                        error: TxError::RecoverRecordFailed { cause: e },
                        cause: c,
                    },
                    Action::WriteMarker {
                        path: q,
                        item_type: marker.item_type,
                        original_attributes: marker.original_attributes,
                    },
                )
            },
            Event::Restored(Ok(_)) => (RecoverPhase::Fetching { id }, Action::FetchRecord { id }),
            _ => {
                proof {
                    assert(false);
                }
                (RecoverPhase::Done, Action::Finish(Err(TxError::NoMarker)))
            },
        },
        RecoverPhase::RewritingMarker { path, locked, id, error, cause } => match event {
            Event::MarkerWritten(w) => {
                let marker = match w {
                    Ok(_) => None,
                    Err(m) => Some(m),
                };
                (RecoverPhase::Relocking { id, error, cause, marker }, Action::SetAttributes { path, attributes: locked })
            },
            _ => {
                proof {
                    assert(false);
                }
                (RecoverPhase::Done, Action::Finish(Err(TxError::NoMarker)))
            },
        },
        RecoverPhase::Fetching { id } => match event {
            Event::RecordFetched(Err(e)) => (RecoverPhase::Done, Action::Finish(Err(TxError::Failed(e)))),
            Event::RecordFetched(Ok(item)) => {
                let q = item.path.clone();
                (RecoverPhase::ReadingStatus { item }, Action::ReadAttributes { path: q })
            },
            _ => {
                proof {
                    assert(false);
                }
                (RecoverPhase::Done, Action::Finish(Err(TxError::NoMarker)))
            },
        },
        RecoverPhase::ReadingStatus { item } => match event {
            Event::AttributesRead(r) => (RecoverPhase::Done, finish_with_status(item, r)),
            _ => {
                proof {
                    assert(false);
                }
                (RecoverPhase::Done, Action::Finish(Err(TxError::NoMarker)))
            },
        },
        RecoverPhase::Done => {
            proof {
                assert(false);
            }
            (RecoverPhase::Done, Action::Finish(Err(TxError::NoMarker)))
        },
    }
}

// ---------------------------------------------------------------------------
// Laws of a recovery
// ---------------------------------------------------------------------------

/// A row is added only for an item with no active row whose attributes,
/// read just before, carry hidden and system; the row records the type and
/// attributes that the marker holds.
pub proof fn lemma_recover_inserts_only_locked_items(
    old: RecoverPhase,
    event: Event,
    new: RecoverPhase,
    action: Action,
)
    requires
        recover_transition(old, event, new, action),
        action is InsertRecord,
    ensures
        ({
            &&& old matches RecoverPhase::ReadingLock { path, marker }
            &&& event matches Event::AttributesRead(Ok(a))
            &&& spec_is_hidden_and_system(a)
            &&& action == (Action::InsertRecord {
                path,
                item_type: marker.item_type,
                original_attributes: marker.original_attributes,
                record_identity: false,
            })
        }),
{
}

/// The attributes set back are exactly those that the marker records.
pub proof fn lemma_recover_unlocks_with_marker_attributes(
    old: RecoverPhase,
    event: Event,
    new: RecoverPhase,
    action: Action,
)
    requires
        recover_transition(old, event, new, action),
        old is Inserting,
        action is SetAttributes,
    ensures
        ({
            &&& old matches RecoverPhase::Inserting { path, marker, .. }
            &&& event matches Event::RecordInserted(Ok(_))
            &&& action == (Action::SetAttributes { path, attributes: marker.original_attributes })
        }),
{
}

/// Once the new row exists and the recovery has not committed, every failure
/// leads to undo steps (locking again, writing the marker again, removing
/// the row) and the recovery finishes only when the row's removal has been
/// attempted.
pub proof fn lemma_recover_undoes_uncommitted_row(
    old: RecoverPhase,
    event: Event,
    new: RecoverPhase,
    action: Action,
)
    requires
        recover_transition(old, event, new, action),
        old is Unlocking || old is RemovingMarker || old is Relocking || old is RewritingMarker
            || old is MarkingRestored,
    ensures
        !(action is Finish),
        old is Relocking ==> action is RemoveRecord,
{
}

/// A failed recovery reports every undo step that failed: it ends with the
/// plain error only when locking again, writing the marker again (where
/// they were needed) and removing the new row all worked.
pub proof fn lemma_recover_reports_incomplete_undo(
    error: TxError,
    cause: String,
    relock: Option<String>,
    marker: Option<String>,
    removal: Result<(), String>,
    new: RecoverPhase,
    action: Action,
)
    requires
        recover_transition(
            RecoverPhase::DroppingRecord { error, cause, relock, marker },
            Event::RecordRemoved(removal),
            new,
            action,
        ),
    ensures
        (relock is None && marker is None && removal is Ok) ==> action == Action::Finish(Err(error)),
        !(relock is None && marker is None && removal is Ok) ==> action == Action::Finish(
            Err(TxError::RecoverUndoIncomplete { cause, relock, marker, record: error_of(removal) }),
        ),
{
}

/// A failed recovery that had added a row ends by removing that row: the
/// only error that follows an added row comes from `DroppingRecord`, which
/// is entered only together with a `RemoveRecord` action.
pub proof fn lemma_recover_drops_row_before_failing(
    old: RecoverPhase,
    event: Event,
    new: RecoverPhase,
    action: Action,
)
    requires
        recover_transition(old, event, new, action),
    ensures
        new is DroppingRecord ==> action is RemoveRecord,
        action matches Action::Finish(Err(_)) ==> !(old is Unlocking || old is RemovingMarker || old is Relocking
            || old is RewritingMarker || old is MarkingRestored),
{
}

// ---------------------------------------------------------------------------
// Whole runs of a recovery
// ---------------------------------------------------------------------------

/// `phases`, `events` and `actions` are a run of a recovery of `path`: it
/// starts by reading the marker there, and each event answers the action
/// before it and leads, by one step, to the next phase and action.
pub open spec fn is_recover_run(path: String, phases: Seq<RecoverPhase>, events: Seq<Event>, actions: Seq<Action>) -> bool {
    &&& phases.len() == events.len() + 1
    &&& actions.len() == events.len() + 1
    &&& phases[0] == (RecoverPhase::ReadingMarker { path })
    &&& actions[0] == (Action::ReadMarker { path })
    &&& forall|k: int|
        0 <= k < events.len() ==> #[trigger] recover_transition(phases[k], events[k], phases[k + 1], actions[k + 1])
}

/// Whether `phase` is an uncommitted recovery that holds the new row `id`.
pub open spec fn holds_new_row(phase: RecoverPhase, id: i64) -> bool {
    match phase {
        RecoverPhase::Unlocking { id: x, .. } => x == id,
        RecoverPhase::RemovingMarker { id: x, .. } => x == id,
        RecoverPhase::Relocking { id: x, .. } => x == id,
        RecoverPhase::RewritingMarker { id: x, .. } => x == id,
        RecoverPhase::MarkingRestored { id: x, .. } => x == id,
        _ => false,
    }
}

/// Whether a recovery was committed (its row marked restored) by an event
/// strictly between `after` and `before`.
pub open spec fn recovery_committed(events: Seq<Event>, after: int, before: int) -> bool {
    exists|j: int| after < j < before && #[trigger] events[j] matches Event::Restored(Ok(_))
}

proof fn lemma_recover_run_row_invariant(
    path: String,
    phases: Seq<RecoverPhase>,
    events: Seq<Event>,
    actions: Seq<Action>,
    i: int,
    id: i64,
    k: int,
)
    requires
        is_recover_run(path, phases, events, actions),
        0 <= i < events.len(),
        events[i] == Event::RecordInserted(Ok(id)),
        i + 1 <= k <= events.len(),
    ensures
        holds_new_row(phases[k], id) || row_removal_asked(actions, id, i, k) || recovery_committed(events, i, k),
    decreases k - i,
{
    assert(recover_transition(phases[i], events[i], phases[i + 1], actions[i + 1]));
    if k > i + 1 {
        lemma_recover_run_row_invariant(path, phases, events, actions, i, id, k - 1);
        let p = k - 1;
        assert(recover_transition(phases[p], events[p], phases[p + 1], actions[p + 1]));
        assert(p + 1 == k);
        if row_removal_asked(actions, id, i, p) {
            let j = choose|j: int| i < j <= p && #[trigger] actions[j] == (Action::RemoveRecord { id });
            assert(actions[j] == (Action::RemoveRecord { id }));
        } else if recovery_committed(events, i, p) {
            let j = choose|j: int| i < j < p && #[trigger] events[j] matches Event::Restored(Ok(_));
            assert(events[j] matches Event::Restored(Ok(_)));
        } else {
            match phases[p] {
                RecoverPhase::Unlocking { .. } => {
                    if actions[k] == (Action::RemoveRecord { id }) {
                    }
                },
                RecoverPhase::Relocking { .. } => {
                    assert(actions[k] == (Action::RemoveRecord { id }));
                },
                RecoverPhase::MarkingRestored { .. } => {
                    if events[p] matches Event::Restored(Ok(_)) {
                        assert(recovery_committed(events, i, k));
                    }
                },
                _ => {},
            }
        }
    } else {
        assert(holds_new_row(phases[i + 1], id));
    }
}

/// A recovery never leaves a new history row behind when it fails: in a run
/// that finishes with an error after row `id` was added, either the removal
/// of row `id` was asked for, or the row had been marked restored (the
/// recovery was committed and only reading the row back failed).
pub proof fn lemma_recover_run_leaves_no_orphan_row(
    path: String,
    phases: Seq<RecoverPhase>,
    events: Seq<Event>,
    actions: Seq<Action>,
    i: int,
    id: i64,
)
    requires
        is_recover_run(path, phases, events, actions),
        0 <= i < events.len(),
        events[i] == Event::RecordInserted(Ok(id)),
        actions.last() matches Action::Finish(Err(_)),
    ensures
        row_removal_asked(actions, id, i, events.len() as int) || recovery_committed(
            events,
            i,
            events.len() as int,
        ),
{
    let n = events.len() as int;
    assert(recover_transition(phases[i], events[i], phases[i + 1], actions[i + 1]));
    assert(n - 1 >= i + 1) by {
        if n - 1 == i {
            assert(actions[i + 1] is SetAttributes);
        }
    }
    lemma_recover_run_row_invariant(path, phases, events, actions, i, id, n - 1);
    let m = n - 1;
    assert(recover_transition(phases[m], events[m], phases[m + 1], actions[m + 1]));
    assert(m + 1 == n);
    assert(actions.last() == actions[n]);
    if holds_new_row(phases[n - 1], id) {
        lemma_recover_undoes_uncommitted_row(phases[n - 1], events[n - 1], phases[n], actions[n]);
    }
    if row_removal_asked(actions, id, i, n - 1) {
        let j = choose|j: int| i < j <= n - 1 && #[trigger] actions[j] == (Action::RemoveRecord { id });
        assert(actions[j] == (Action::RemoveRecord { id }));
    }
    if recovery_committed(events, i, n - 1) {
        let j = choose|j: int| i < j < n - 1 && #[trigger] events[j] matches Event::Restored(Ok(_));
        assert(events[j] matches Event::Restored(Ok(_)));
    }
}

/// A recovery resolves the selected path as the kind that its marker
/// records: as a folder for a FOLDER marker and as a file for a FILE marker.
pub proof fn lemma_recover_resolves_the_marker_kind(
    path: String,
    marker: RecoveryMarker,
    new: RecoverPhase,
    action: Action,
)
    requires
        recover_transition(RecoverPhase::ReadingMarker { path }, Event::MarkerRead(Some(marker)), new, action),
    ensures
        marker.item_type@ == ITEM_TYPE_FOLDER@ ==> action == (Action::ResolveTarget { path, expected_directory: true }),
        marker.item_type@ == ITEM_TYPE_FILE@ ==> action == (Action::ResolveTarget { path, expected_directory: false }),
{
    reveal_strlit("FILE");
    reveal_strlit("FOLDER");
    assert(ITEM_TYPE_FILE@.len() == 4 && ITEM_TYPE_FOLDER@.len() == 6);
    assert(ITEM_TYPE_FILE@ != ITEM_TYPE_FOLDER@);
}

/// A recovery adds a row only for an item that is still locked: when the
/// mask read at the path lacks the hidden (0x2) or the system (0x4) flag it
/// is refused; when it has both, the row records the marker's type and mask.
pub proof fn lemma_recover_requires_a_locked_item(
    path: String,
    marker: RecoveryMarker,
    attributes: u32,
    new: RecoverPhase,
    action: Action,
)
    requires
        recover_transition(
            RecoverPhase::ReadingLock { path, marker },
            Event::AttributesRead(Ok(attributes)),
            new,
            action,
        ),
    ensures
        !(attributes & 0x2 != 0 && attributes & 0x4 != 0) ==> action == Action::Finish(
            Err(TxError::NotLockedForRecovery),
        ),
        (attributes & 0x2 != 0 && attributes & 0x4 != 0) ==> action == (Action::InsertRecord {
            path,
            item_type: marker.item_type,
            original_attributes: marker.original_attributes,
            record_identity: false,
        }),
{
}

} // verus!
