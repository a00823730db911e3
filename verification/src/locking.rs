use vstd::prelude::*;
use crate::file_attributes::{attributes_to_hide, spec_attributes_to_hide};
use crate::marker::{ITEM_TYPE_FILE, ITEM_TYPE_FOLDER};
use crate::models::HiddenItem;
use crate::status::{spec_protection_status, with_protection_status};
use crate::transaction::{action_path, Action, Event, TxError};

verus! {

broadcast use vstd::string::group_string_axioms;

/// Where a lock of one item stands, with what it has learned so far.
pub enum HidePhase {
    /// Waiting for the selected path to be resolved.
    Resolving { expected_directory: bool },
    /// Waiting to learn whether the item already carries a marker.
    CheckingMarker { path: String, expected_directory: bool },
    /// Waiting to learn whether the item already has an active row.
    CheckingActive { path: String, expected_directory: bool },
    /// Waiting for the item's attributes before the lock.
    ReadingOriginal { path: String, expected_directory: bool },
    /// Waiting for the history row to be added.
    Inserting { path: String, expected_directory: bool, original: u32 },
    /// Row `id` exists; waiting for the marker to be written.
    WritingMarker { path: String, expected_directory: bool, original: u32, id: i64 },
    /// Row exists, and the marker too when `marked`; waiting for the lock
    /// attributes to be set.
    Locking { path: String, id: i64, marked: bool },
    /// Writing the marker (or, when `after_lock`, setting the attributes)
    /// failed with `cause`; waiting for the marker to be removed.
    UndoingMarker { id: i64, cause: String, after_lock: bool },
    /// A step failed with `cause`; waiting for the row to be removed.
    /// `marker_left` is the error of a marker removal that failed.
    UndoingRecord { cause: String, after_lock: bool, marker_left: Option<String> },
    /// Locked; waiting for the row to be read back.
    Fetching,
    /// Waiting for the attributes that give the row's live status.
    ReadingStatus { item: HiddenItem },
    /// Over.
    Done,
}

/// The type recorded for a file or a folder.
pub open spec fn item_type_of(expected_directory: bool) -> Seq<char> {
    if expected_directory {
        ITEM_TYPE_FOLDER@
    } else {
        ITEM_TYPE_FILE@
    }
}

fn item_type_string(expected_directory: bool) -> (r: String)
    ensures
        r@ == item_type_of(expected_directory),
{
    if expected_directory {
        String::from_str(ITEM_TYPE_FOLDER)
    } else {
        String::from_str(ITEM_TYPE_FILE)
    }
}

/// Whether `event` answers what `phase` is waiting for.
pub open spec fn hide_accepts(phase: HidePhase, event: Event) -> bool {
    match phase {
        HidePhase::Resolving { .. } => event is Resolved,
        HidePhase::CheckingMarker { .. } => event is MarkerRead,
        HidePhase::CheckingActive { .. } => event is ActiveFound,
        HidePhase::ReadingOriginal { .. } => event is AttributesRead,
        HidePhase::Inserting { .. } => event is RecordInserted,
        HidePhase::WritingMarker { .. } => event is MarkerWritten,
        HidePhase::Locking { .. } => event is AttributesSet,
        HidePhase::UndoingMarker { .. } => event is MarkerRemoved,
        HidePhase::UndoingRecord { .. } => event is RecordRemoved,
        HidePhase::Fetching => event is RecordFetched,
        HidePhase::ReadingStatus { .. } => event is AttributesRead,
        HidePhase::Done => false,
    }
}

pub open spec fn unit_error<T, E>(r: Result<T, E>) -> Result<T, ()> {
    match r {
        Ok(v) => Ok(v),
        Err(_) => Err(()),
    }
}

/// `action` finishes with `item` and its live status computed from `attributes`.
pub open spec fn finishes_with_status(action: Action, item: HiddenItem, attributes: Result<u32, String>) -> bool {
    action matches Action::Finish(Ok(i)) && i == (HiddenItem { protection_status: i.protection_status, ..item })
        && i.protection_status@ == spec_protection_status(item.current_status, unit_error(attributes))
}

/// The error of a failed step, if it failed.
pub open spec fn error_of<T>(r: Result<T, String>) -> Option<String> {
    match r {
        Ok(_) => None,
        Err(e) => Some(e),
    }
}

/// How a lock that failed with `cause` ends, once its undo steps are done:
/// with `cause` alone (as a lock failure when the attributes could not be
/// set) when everything was undone; naming the row that could not be
/// removed; or naming the marker that could not be removed, and the row too
/// if it could not be removed either.
pub open spec fn spec_lock_undo_error(
    cause: String,
    after_lock: bool,
    marker_left: Option<String>,
    removal: Result<(), String>,
) -> TxError {
    match marker_left {
        None => match removal {
            Ok(()) => if after_lock {
                TxError::LockFailed { cause }
            } else {
                TxError::Failed(cause)
            },
            Err(c) => TxError::LockCleanupFailed { cleanup: c, cause },
        },
        Some(m) => TxError::LockUndoIncomplete { marker: m, record: error_of(removal), cause },
    }
}

fn lock_undo_error(cause: String, after_lock: bool, marker_left: Option<String>, removal: Result<(), String>) -> (r:
    TxError)
    ensures
        r == spec_lock_undo_error(cause, after_lock, marker_left, removal),
{
    match marker_left {
        None => match removal {
            Ok(()) => if after_lock {
                TxError::LockFailed { cause }
            } else {
                TxError::Failed(cause)
            },
            Err(c) => TxError::LockCleanupFailed { cleanup: c, cause },
        },
        Some(m) => TxError::LockUndoIncomplete {
            marker: m,
            record: match removal {
                Ok(()) => None,
                Err(c) => Some(c),
            },
            cause,
        },
    }
}

/// One step of a lock. The order is: resolve the path; refuse an item that
/// carries a marker or has an active row; read its attributes; add the
/// history row; write the marker; set hidden and system. An item on a
/// volume without alternate data streams (FAT, exFAT) is locked without a
/// marker. When writing the marker fails, whatever was written of it and
/// then the row are removed; when setting the attributes fails the marker
/// (if one was written) and then the row are removed. An undo step that
/// fails is reported with the error. A locked item is read back with its
/// live status.
pub open spec fn hide_transition(old: HidePhase, event: Event, new: HidePhase, action: Action) -> bool {
    match old {
        HidePhase::Resolving { expected_directory } => match event {
            Event::Resolved(Err(e)) => new is Done && action == Action::Finish(Err(TxError::Failed(e))),
            Event::Resolved(Ok(p)) => new == (HidePhase::CheckingMarker { path: p, expected_directory })
                && action == (Action::ReadMarker { path: p }),
            _ => false,
        },
        HidePhase::CheckingMarker { path, expected_directory } => match event {
            Event::MarkerRead(Some(_)) => new is Done && action == Action::Finish(Err(TxError::AlreadyMarked)),
            Event::MarkerRead(None) => new == (HidePhase::CheckingActive { path, expected_directory })
                && action == (Action::FindActive { path }),
            _ => false,
        },
        HidePhase::CheckingActive { path, expected_directory } => match event {
            Event::ActiveFound(Err(e)) => new is Done && action == Action::Finish(Err(TxError::Failed(e))),
            Event::ActiveFound(Ok(Some(_))) => new is Done && action == Action::Finish(Err(TxError::AlreadyListed)),
            Event::ActiveFound(Ok(None)) => new == (HidePhase::ReadingOriginal { path, expected_directory })
                && action == (Action::ReadAttributes { path }),
            _ => false,
        },
        HidePhase::ReadingOriginal { path, expected_directory } => match event {
            Event::AttributesRead(Err(e)) => new is Done && action == Action::Finish(Err(TxError::Failed(e))),
            Event::AttributesRead(Ok(a)) => {
                &&& new == (HidePhase::Inserting { path, expected_directory, original: a })
                &&& action matches Action::InsertRecord { path: p, item_type: t, original_attributes: o, record_identity: ri }
                &&& p == path
                &&& t@ == item_type_of(expected_directory)
                &&& o == a
                &&& ri
            },
            _ => false,
        },
        HidePhase::Inserting { path, expected_directory, original } => match event {
            Event::RecordInserted(Err(e)) => new is Done && action == Action::Finish(Err(TxError::Failed(e))),
            Event::RecordInserted(Ok(id)) => {
                &&& new == (HidePhase::WritingMarker { path, expected_directory, original, id })
                &&& action matches Action::WriteMarker { path: p, item_type: t, original_attributes: o }
                &&& p == path
                &&& t@ == item_type_of(expected_directory)
                &&& o == original
            },
            _ => false,
        },
        HidePhase::WritingMarker { path, expected_directory, original, id } => match event {
            Event::MarkerWritten(Err(e)) => new == (HidePhase::UndoingMarker { id, cause: e, after_lock: false })
                && action == (Action::RemoveMarker { path }),
            Event::MarkerWritten(Ok(marked)) => new == (HidePhase::Locking { path, id, marked })
                && action == (Action::SetAttributes { path, attributes: spec_attributes_to_hide(original) }),
            _ => false,
        },
        HidePhase::Locking { path, id, marked } => match event {
            Event::AttributesSet(Err(e)) => if marked {
                new == (HidePhase::UndoingMarker { id, cause: e, after_lock: true }) && action == (
                Action::RemoveMarker { path })
            } else {
                new == (HidePhase::UndoingRecord { cause: e, after_lock: true, marker_left: None }) && action == (
                Action::RemoveRecord { id })
            },
            Event::AttributesSet(Ok(())) => new is Fetching && action == (Action::FetchRecord { id }),
            _ => false,
        },
        HidePhase::UndoingMarker { id, cause, after_lock } => match event {
            Event::MarkerRemoved(r) => new == (HidePhase::UndoingRecord {
                cause,
                after_lock,
                marker_left: error_of(r),
            }) && action == (Action::RemoveRecord { id }),
            _ => false,
        },
        HidePhase::UndoingRecord { cause, after_lock, marker_left } => match event {
            Event::RecordRemoved(r) => new is Done && action == Action::Finish(
                Err(spec_lock_undo_error(cause, after_lock, marker_left, r)),
            ),
            _ => false,
        },
        HidePhase::Fetching => match event {
            Event::RecordFetched(Err(e)) => new is Done && action == Action::Finish(Err(TxError::Failed(e))),
            Event::RecordFetched(Ok(item)) => new == (HidePhase::ReadingStatus { item })
                && action == (Action::ReadAttributes { path: item.path }),
            _ => false,
        },
        HidePhase::ReadingStatus { item } => match event {
            Event::AttributesRead(r) => new is Done && finishes_with_status(action, item, r),
            _ => false,
        },
        HidePhase::Done => false,
    }
}

/// Starts locking the item at `path`, a folder when `expected_directory`.
pub fn hide_start(path: String, expected_directory: bool) -> (r: (HidePhase, Action))
    ensures
        r.0 == (HidePhase::Resolving { expected_directory }),
        r.1 == (Action::ResolveTarget { path, expected_directory }),
{
    (HidePhase::Resolving { expected_directory }, Action::ResolveTarget { path, expected_directory })
}

/// Whether `event` answers what `phase` is waiting for.
pub fn hide_accepts_exec(phase: &HidePhase, event: &Event) -> (r: bool)
    ensures
        r == hide_accepts(*phase, *event),
{
    match phase {
        HidePhase::Resolving { .. } => matches!(event, Event::Resolved(_)),
        HidePhase::CheckingMarker { .. } => matches!(event, Event::MarkerRead(_)),
        HidePhase::CheckingActive { .. } => matches!(event, Event::ActiveFound(_)),
        HidePhase::ReadingOriginal { .. } => matches!(event, Event::AttributesRead(_)),
        HidePhase::Inserting { .. } => matches!(event, Event::RecordInserted(_)),
        HidePhase::WritingMarker { .. } => matches!(event, Event::MarkerWritten(_)),
        HidePhase::Locking { .. } => matches!(event, Event::AttributesSet(_)),
        HidePhase::UndoingMarker { .. } => matches!(event, Event::MarkerRemoved(_)),
        HidePhase::UndoingRecord { .. } => matches!(event, Event::RecordRemoved(_)),
        HidePhase::Fetching => matches!(event, Event::RecordFetched(_)),
        HidePhase::ReadingStatus { .. } => matches!(event, Event::AttributesRead(_)),
        HidePhase::Done => false,
    }
}

fn finish_with_status(item: HiddenItem, attributes: Result<u32, String>) -> (r: Action)
    ensures
        finishes_with_status(r, item, attributes),
{
    let unit = match attributes {
        Ok(a) => Ok(a),
        Err(_) => Err(()),
    };
    Action::Finish(Ok(with_protection_status(item, unit)))
}

/// Advances a lock by the outcome of its last action.
pub fn hide_step(phase: HidePhase, event: Event) -> (r: (HidePhase, Action))
    requires
        hide_accepts(phase, event),
    ensures
        hide_transition(phase, event, r.0, r.1),
{
    match phase {
        HidePhase::Resolving { expected_directory } => match event {
            Event::Resolved(Err(e)) => (HidePhase::Done, Action::Finish(Err(TxError::Failed(e)))),
            Event::Resolved(Ok(p)) => {
                let q = p.clone();
                (HidePhase::CheckingMarker { path: p, expected_directory }, Action::ReadMarker { path: q })
            },
            _ => {
                proof {
                    assert(false);
                }
                (HidePhase::Done, Action::Finish(Err(TxError::AlreadyMarked)))
            },
        },
        HidePhase::CheckingMarker { path, expected_directory } => match event {
            Event::MarkerRead(Some(_)) => (HidePhase::Done, Action::Finish(Err(TxError::AlreadyMarked))),
            Event::MarkerRead(None) => {
                let q = path.clone();
                (HidePhase::CheckingActive { path, expected_directory }, Action::FindActive { path: q })
            },
            _ => {
                proof {
                    assert(false);
                }
                (HidePhase::Done, Action::Finish(Err(TxError::AlreadyMarked)))
            },
        },
        HidePhase::CheckingActive { path, expected_directory } => match event {
            Event::ActiveFound(Err(e)) => (HidePhase::Done, Action::Finish(Err(TxError::Failed(e)))),
            Event::ActiveFound(Ok(Some(_))) => (HidePhase::Done, Action::Finish(Err(TxError::AlreadyListed))),
            Event::ActiveFound(Ok(None)) => {
                let q = path.clone();
                (HidePhase::ReadingOriginal { path, expected_directory }, Action::ReadAttributes { path: q })
            },
            _ => {
                proof {
                    assert(false);
                }
                (HidePhase::Done, Action::Finish(Err(TxError::AlreadyMarked)))
            },
        },
        HidePhase::ReadingOriginal { path, expected_directory } => match event {
            Event::AttributesRead(Err(e)) => (HidePhase::Done, Action::Finish(Err(TxError::Failed(e)))),
            Event::AttributesRead(Ok(a)) => {
                let q = path.clone();
                (
                    HidePhase::Inserting { path, expected_directory, original: a },
                    Action::InsertRecord {
                        path: q,
                        item_type: item_type_string(expected_directory),
                        original_attributes: a,
                        record_identity: true,
                    },
                )
            },
            _ => {
                proof {
                    assert(false);
                }
                (HidePhase::Done, Action::Finish(Err(TxError::AlreadyMarked)))
            },
        },
        HidePhase::Inserting { path, expected_directory, original } => match event {
            Event::RecordInserted(Err(e)) => (HidePhase::Done, Action::Finish(Err(TxError::Failed(e)))),
            Event::RecordInserted(Ok(id)) => {
                let q = path.clone();
                (
                    HidePhase::WritingMarker { path, expected_directory, original, id },
                    Action::WriteMarker {
                        path: q,
                        item_type: item_type_string(expected_directory),
                        original_attributes: original,
                    },
                )
            },
            _ => {
                proof {
                    assert(false);
                }
                (HidePhase::Done, Action::Finish(Err(TxError::AlreadyMarked)))
            },
        },
        HidePhase::WritingMarker { path, expected_directory, original, id } => match event {
            Event::MarkerWritten(Err(e)) => (
                HidePhase::UndoingMarker { id, cause: e, after_lock: false },
                Action::RemoveMarker { path },
            ),
            Event::MarkerWritten(Ok(marked)) => {
                let q = path.clone();
                (
                    HidePhase::Locking { path, id, marked },
                    Action::SetAttributes { path: q, attributes: attributes_to_hide(original) },
                )
            },
            _ => {
                proof {
                    assert(false);
                }
                (HidePhase::Done, Action::Finish(Err(TxError::AlreadyMarked)))
            },
        },
        HidePhase::Locking { path, id, marked } => match event {
            Event::AttributesSet(Err(e)) => {
                if marked {
                    (HidePhase::UndoingMarker { id, cause: e, after_lock: true }, Action::RemoveMarker { path })
                } else {
                    (
                        HidePhase::UndoingRecord { cause: e, after_lock: true, marker_left: None },
                        Action::RemoveRecord { id },
                    )
                }
            },
            Event::AttributesSet(Ok(())) => (HidePhase::Fetching, Action::FetchRecord { id }),
            _ => {
                proof {
                    assert(false);
                }
                (HidePhase::Done, Action::Finish(Err(TxError::AlreadyMarked)))
            },
        },
        HidePhase::UndoingMarker { id, cause, after_lock } => match event {
            Event::MarkerRemoved(r) => {
                let marker_left = match r {
                    Ok(()) => None,
                    Err(m) => Some(m),
                };
                (HidePhase::UndoingRecord { cause, after_lock, marker_left }, Action::RemoveRecord { id })
            },
            _ => {
                proof {
                    assert(false);
                }
                (HidePhase::Done, Action::Finish(Err(TxError::AlreadyMarked)))
            },
        },
        HidePhase::UndoingRecord { cause, after_lock, marker_left } => match event {
            Event::RecordRemoved(r) => (
                HidePhase::Done,
                Action::Finish(Err(lock_undo_error(cause, after_lock, marker_left, r))),
            ),
            _ => {
                proof {
                    assert(false);
                }
                (HidePhase::Done, Action::Finish(Err(TxError::AlreadyMarked)))
            },
        },
        HidePhase::Fetching => match event {
            Event::RecordFetched(Err(e)) => (HidePhase::Done, Action::Finish(Err(TxError::Failed(e)))),
            Event::RecordFetched(Ok(item)) => {
                let q = item.path.clone();
                (HidePhase::ReadingStatus { item }, Action::ReadAttributes { path: q })
            },
            _ => {
                proof {
                    assert(false);
                }
                (HidePhase::Done, Action::Finish(Err(TxError::AlreadyMarked)))
            },
        },
        HidePhase::ReadingStatus { item } => match event {
            Event::AttributesRead(r) => (HidePhase::Done, finish_with_status(item, r)),
            _ => {
                proof {
                    assert(false);
                }
                (HidePhase::Done, Action::Finish(Err(TxError::AlreadyMarked)))
            },
        },
        HidePhase::Done => {
            proof {
                assert(false);
            }
            (HidePhase::Done, Action::Finish(Err(TxError::AlreadyMarked)))
        },
    }
}

// ---------------------------------------------------------------------------
// Laws of a lock
// ---------------------------------------------------------------------------

/// The lock sets exactly the original attributes plus hidden and system, on
/// the resolved path, and only once the row exists and the marker was
/// written or the volume keeps no markers.
pub proof fn lemma_hide_sets_only_the_lock_mask(old: HidePhase, event: Event, new: HidePhase, action: Action)
    requires
        hide_transition(old, event, new, action),
        action is SetAttributes,
    ensures
        old matches HidePhase::WritingMarker { path, original, .. } && event matches Event::MarkerWritten(Ok(_))
            && action == (Action::SetAttributes { path, attributes: spec_attributes_to_hide(original) }),
{
}

/// An item on a volume without alternate data streams (FAT, exFAT) is still
/// locked by its attributes, only without a marker: when the marker cannot
/// be kept there, the lock goes on to set original | hidden | system, and a
/// later failure removes only the row.
pub proof fn lemma_hide_locks_without_streams(
    path: String,
    expected_directory: bool,
    original: u32,
    id: i64,
    new: HidePhase,
    action: Action,
)
    requires
        hide_transition(
            HidePhase::WritingMarker { path, expected_directory, original, id },
            Event::MarkerWritten(Ok(false)),
            new,
            action,
        ),
    ensures
        new == (HidePhase::Locking { path, id, marked: false }),
        action == (Action::SetAttributes { path, attributes: spec_attributes_to_hide(original) }),
        forall|e: String, n: HidePhase, a: Action|
            hide_transition(new, Event::AttributesSet(Err(e)), n, a) ==> a == (Action::RemoveRecord { id }),
{
}

/// A history row is added only for an item that carries no marker and has no
/// active row: the row is added from `ReadingOriginal` with the attributes
/// just read, which is entered only when no active row was found, which is
/// looked for only when no marker was found.
pub proof fn lemma_hide_checks_before_inserting(old: HidePhase, event: Event, new: HidePhase, action: Action)
    requires
        hide_transition(old, event, new, action),
    ensures
        action matches Action::InsertRecord { original_attributes, .. } ==> old is ReadingOriginal
            && event == Event::AttributesRead(Ok(original_attributes)),
        new is ReadingOriginal ==> old is CheckingActive && event == Event::ActiveFound(Ok(None)),
        new is CheckingActive ==> old is CheckingMarker && event == Event::MarkerRead(None),
{
}

/// Once a row has been added and the lock is not committed, the transaction
/// never simply stops: each failure leads to an undo step (removing the
/// marker if one was written, then the row), and it finishes only after the
/// row's removal was attempted.
pub proof fn lemma_hide_undoes_uncommitted_row(old: HidePhase, event: Event, new: HidePhase, action: Action)
    requires
        hide_transition(old, event, new, action),
        old is WritingMarker || old is Locking || old is UndoingMarker,
    ensures
        !(action is Finish),
        event matches Event::MarkerWritten(Err(_)) ==> action is RemoveMarker,
        event matches Event::AttributesSet(Err(_)) ==> (old matches HidePhase::Locking { marked, .. } && if marked {
            action is RemoveMarker
        } else {
            action is RemoveRecord
        }),
        old is UndoingMarker ==> action is RemoveRecord,
{
}

/// A lock succeeds only after its attributes were set: the only success
/// comes from reading back the row, which follows a successful attribute
/// write.
pub proof fn lemma_hide_succeeds_only_when_locked(old: HidePhase, event: Event, new: HidePhase, action: Action)
    requires
        hide_transition(old, event, new, action),
    ensures
        action matches Action::Finish(Ok(_)) ==> old is ReadingStatus,
        new is ReadingStatus ==> old is Fetching,
        new is Fetching ==> old is Locking && event matches Event::AttributesSet(Ok(_)),
{
}

/// A failed lock is reported with its cause, and with every undo step that
/// failed: it ends with the cause alone only when the marker (if any) and the
/// row were both removed; a row that could not be removed is named, and so
/// is a marker that could not be removed.
pub proof fn lemma_hide_reports_lock_failure(
    cause: String,
    after_lock: bool,
    marker_left: Option<String>,
    removal: Result<(), String>,
    new: HidePhase,
    action: Action,
)
    requires
        hide_transition(
            HidePhase::UndoingRecord { cause, after_lock, marker_left },
            Event::RecordRemoved(removal),
            new,
            action,
        ),
    ensures
        action matches Action::Finish(Err(e)) && {
            &&& (marker_left is None && removal is Ok) ==> (e == TxError::LockFailed { cause } || e == TxError::Failed(
                cause,
            ))
            &&& marker_left is None ==> (removal matches Err(c) ==> e == (TxError::LockCleanupFailed {
                cleanup: c,
                cause,
            }))
            &&& marker_left matches Some(m) ==> e == (TxError::LockUndoIncomplete {
                marker: m,
                record: error_of(removal),
                cause,
            })
        },
{
}

/// The resolved path that a lock in this phase works on.
pub open spec fn hide_phase_path(phase: HidePhase) -> Option<String> {
    match phase {
        HidePhase::CheckingMarker { path, .. } => Some(path),
        HidePhase::CheckingActive { path, .. } => Some(path),
        HidePhase::ReadingOriginal { path, .. } => Some(path),
        HidePhase::Inserting { path, .. } => Some(path),
        HidePhase::WritingMarker { path, .. } => Some(path),
        HidePhase::Locking { path, .. } => Some(path),
        _ => None,
    }
}

/// A lock works on the selected item alone: once the selected path is
/// resolved, every step that names a path names that resolved path, and
/// nothing else (no entry inside a folder) is read or changed.
pub proof fn lemma_hide_touches_only_the_resolved_path(old: HidePhase, event: Event, new: HidePhase, action: Action)
    requires
        hide_transition(old, event, new, action),
    ensures
        old is Resolving ==> (event matches Event::Resolved(Ok(p)) ==> hide_phase_path(new) == Some(p)
            && action_path(action) == Some(p)),
        hide_phase_path(old) matches Some(p) ==> {
            &&& action_path(action) is Some ==> action_path(action) == Some(p)
            &&& hide_phase_path(new) is Some ==> hide_phase_path(new) == Some(p)
        },
{
}

// ---------------------------------------------------------------------------
// Whole runs of a lock
// ---------------------------------------------------------------------------

/// `phases`, `events` and `actions` are a run of a lock of `path`: it starts
/// resolving the path, and each event answers the action before it and
/// leads, by one step, to the next phase and action.
pub open spec fn is_hide_run(
    path: String,
    expected_directory: bool,
    phases: Seq<HidePhase>,
    events: Seq<Event>,
    actions: Seq<Action>,
) -> bool {
    &&& phases.len() == events.len() + 1
    &&& actions.len() == events.len() + 1
    &&& phases[0] == (HidePhase::Resolving { expected_directory })
    &&& actions[0] == (Action::ResolveTarget { path, expected_directory })
    &&& forall|k: int|
        0 <= k < events.len() ==> #[trigger] hide_transition(phases[k], events[k], phases[k + 1], actions[k + 1])
}

/// Whether `phase` is an uncommitted lock that holds row `id`.
pub open spec fn holds_row(phase: HidePhase, id: i64) -> bool {
    match phase {
        HidePhase::WritingMarker { id: x, .. } => x == id,
        HidePhase::Locking { id: x, .. } => x == id,
        HidePhase::UndoingMarker { id: x, .. } => x == id,
        _ => false,
    }
}

/// Whether the removal of row `id` was asked for by an action after index
/// `after`, up to index `upto`.
pub open spec fn row_removal_asked(actions: Seq<Action>, id: i64, after: int, upto: int) -> bool {
    exists|j: int| after < j <= upto && #[trigger] actions[j] == (Action::RemoveRecord { id })
}

/// Whether a lock was committed (its attributes set) by an event strictly
/// between `after` and `before`.
pub open spec fn lock_committed(events: Seq<Event>, after: int, before: int) -> bool {
    exists|j: int| after < j < before && #[trigger] events[j] matches Event::AttributesSet(Ok(_))
}

proof fn lemma_hide_run_row_invariant(
    path: String,
    expected_directory: bool,
    phases: Seq<HidePhase>,
    events: Seq<Event>,
    actions: Seq<Action>,
    i: int,
    id: i64,
    k: int,
)
    requires
        is_hide_run(path, expected_directory, phases, events, actions),
        0 <= i < events.len(),
        events[i] == Event::RecordInserted(Ok(id)),
        i + 1 <= k <= events.len(),
    ensures
        holds_row(phases[k], id) || row_removal_asked(actions, id, i, k) || lock_committed(events, i, k),
    decreases k - i,
{
    assert(hide_transition(phases[i], events[i], phases[i + 1], actions[i + 1]));
    if k > i + 1 {
        lemma_hide_run_row_invariant(path, expected_directory, phases, events, actions, i, id, k - 1);
        let p = k - 1;
        assert(hide_transition(phases[p], events[p], phases[p + 1], actions[p + 1]));
        assert(p + 1 == k);
        if row_removal_asked(actions, id, i, p) {
            let j = choose|j: int| i < j <= p && #[trigger] actions[j] == (Action::RemoveRecord { id });
            assert(actions[j] == (Action::RemoveRecord { id }));
        } else if lock_committed(events, i, p) {
            let j = choose|j: int| i < j < p && #[trigger] events[j] matches Event::AttributesSet(Ok(_));
            assert(events[j] matches Event::AttributesSet(Ok(_)));
        } else {
            match phases[p] {
                HidePhase::WritingMarker { .. } => {
                    if actions[k] == (Action::RemoveRecord { id }) {
                    }
                },
                HidePhase::Locking { .. } => {
                    if events[p] matches Event::AttributesSet(Ok(_)) {
                        assert(lock_committed(events, i, k));
                    }
                    if actions[k] == (Action::RemoveRecord { id }) {
                    }
                },
                HidePhase::UndoingMarker { .. } => {
                    assert(actions[k] == (Action::RemoveRecord { id }));
                },
                _ => {},
            }
        }
    } else {
        assert(holds_row(phases[i + 1], id));
    }
}

/// A lock never leaves a history row behind when it fails before the item
/// was locked: in a run that finishes with an error after row `id` was
/// added, either the removal of row `id` was asked for, or the lock
/// attributes had been set (the lock was committed and only reading the row
/// back failed).
pub proof fn lemma_hide_run_leaves_no_orphan_row(
    path: String,
    expected_directory: bool,
    phases: Seq<HidePhase>,
    events: Seq<Event>,
    actions: Seq<Action>,
    i: int,
    id: i64,
)
    requires
        is_hide_run(path, expected_directory, phases, events, actions),
        0 <= i < events.len(),
        events[i] == Event::RecordInserted(Ok(id)),
        actions.last() matches Action::Finish(Err(_)),
    ensures
        row_removal_asked(actions, id, i, events.len() as int) || lock_committed(events, i, events.len() as int),
{
    let n = events.len() as int;
    assert(hide_transition(phases[i], events[i], phases[i + 1], actions[i + 1]));
    assert(n - 1 >= i + 1) by {
        if n - 1 == i {
            assert(actions[i + 1] is WriteMarker);
        }
    }
    lemma_hide_run_row_invariant(path, expected_directory, phases, events, actions, i, id, n - 1);
    let m = n - 1;
    assert(hide_transition(phases[m], events[m], phases[m + 1], actions[m + 1]));
    assert(m + 1 == n);
    assert(actions.last() == actions[n]);
    if holds_row(phases[n - 1], id) {
        lemma_hide_undoes_uncommitted_row(phases[n - 1], events[n - 1], phases[n], actions[n]);
    }
    if row_removal_asked(actions, id, i, n - 1) {
        let j = choose|j: int| i < j <= n - 1 && #[trigger] actions[j] == (Action::RemoveRecord { id });
        assert(actions[j] == (Action::RemoveRecord { id }));
    }
    if lock_committed(events, i, n - 1) {
        let j = choose|j: int| i < j < n - 1 && #[trigger] events[j] matches Event::AttributesSet(Ok(_));
        assert(events[j] matches Event::AttributesSet(Ok(_)));
    }
}

/// Whether `action` changes the file system or the history.
pub open spec fn is_write(action: Action) -> bool {
    action is InsertRecord || action is WriteMarker || action is SetAttributes || action is RemoveMarker
        || action is RemoveRecord || action is MarkRestored
}

proof fn lemma_hide_run_early_phases(
    path: String,
    expected_directory: bool,
    phases: Seq<HidePhase>,
    events: Seq<Event>,
    actions: Seq<Action>,
    k: int,
)
    requires
        is_hide_run(path, expected_directory, phases, events, actions),
        0 <= k <= events.len(),
    ensures
        phases[k] is Resolving ==> k == 0,
        phases[k] is CheckingMarker ==> k == 1 && !is_write(actions[0]) && !is_write(actions[1]),
        phases[k] is CheckingActive ==> k == 2 && !is_write(actions[0]) && !is_write(actions[1]) && !is_write(
            actions[2],
        ),
    decreases k,
{
    if k > 0 {
        let p = k - 1;
        assert(hide_transition(phases[p], events[p], phases[p + 1], actions[p + 1]));
        lemma_hide_run_early_phases(path, expected_directory, phases, events, actions, p);
    }
}

/// A lock of an item that already carries a marker, or already has an
/// active row, is refused before anything is written: the run ends right
/// after that check with `AlreadyMarked` or `AlreadyListed`, and none of its
/// actions adds a row, writes or removes a marker or sets attributes. (An
/// item locked before, and left as the lock left it, is found so: a second
/// lock of it changes nothing.)
pub proof fn lemma_hide_run_refuses_a_locked_item(
    path: String,
    expected_directory: bool,
    phases: Seq<HidePhase>,
    events: Seq<Event>,
    actions: Seq<Action>,
    i: int,
)
    requires
        is_hide_run(path, expected_directory, phases, events, actions),
        0 <= i < events.len(),
        (phases[i] is CheckingMarker && events[i] matches Event::MarkerRead(Some(_))) || (phases[i] is CheckingActive
            && events[i] matches Event::ActiveFound(Ok(Some(_)))),
    ensures
        events.len() == i + 1,
        phases[i] is CheckingMarker ==> actions.last() == Action::Finish(Err(TxError::AlreadyMarked)),
        phases[i] is CheckingActive ==> actions.last() == Action::Finish(Err(TxError::AlreadyListed)),
        forall|j: int| 0 <= j < actions.len() ==> !is_write(#[trigger] actions[j]),
{
    lemma_hide_run_early_phases(path, expected_directory, phases, events, actions, i);
    assert(hide_transition(phases[i], events[i], phases[i + 1], actions[i + 1]));
    if events.len() > i + 1 {
        let k = i + 1;
        assert(hide_transition(phases[k], events[k], phases[k + 1], actions[k + 1]));
        assert(false);
    }
    assert(actions.last() == actions[i + 1]);
}

/// A lock records the kind it was asked for: the row it adds and the marker
/// it writes say FOLDER when a folder is locked and FILE when a file is.
pub proof fn lemma_hide_records_the_item_kind(old: HidePhase, event: Event, new: HidePhase, action: Action)
    requires
        hide_transition(old, event, new, action),
    ensures
        action matches Action::InsertRecord { item_type, .. } ==> old matches HidePhase::ReadingOriginal {
            expected_directory,
            ..
        } && (expected_directory ==> item_type@ == ITEM_TYPE_FOLDER@) && (!expected_directory ==> item_type@
            == ITEM_TYPE_FILE@),
        action matches Action::WriteMarker { item_type, .. } ==> old matches HidePhase::Inserting {
            expected_directory,
            ..
        } && (expected_directory ==> item_type@ == ITEM_TYPE_FOLDER@) && (!expected_directory ==> item_type@
            == ITEM_TYPE_FILE@),
{
}

/// The kind a lock in this phase was asked for, while it still carries it.
pub open spec fn hide_phase_kind(phase: HidePhase) -> Option<bool> {
    match phase {
        HidePhase::Resolving { expected_directory } => Some(expected_directory),
        HidePhase::CheckingMarker { expected_directory, .. } => Some(expected_directory),
        HidePhase::CheckingActive { expected_directory, .. } => Some(expected_directory),
        HidePhase::ReadingOriginal { expected_directory, .. } => Some(expected_directory),
        HidePhase::Inserting { expected_directory, .. } => Some(expected_directory),
        HidePhase::WritingMarker { expected_directory, .. } => Some(expected_directory),
        _ => None,
    }
}

proof fn lemma_hide_run_keeps_kind(
    path: String,
    expected_directory: bool,
    phases: Seq<HidePhase>,
    events: Seq<Event>,
    actions: Seq<Action>,
    k: int,
)
    requires
        is_hide_run(path, expected_directory, phases, events, actions),
        0 <= k <= events.len(),
    ensures
        hide_phase_kind(phases[k]) is Some ==> hide_phase_kind(phases[k]) == Some(expected_directory),
    decreases k,
{
    if k > 0 {
        let p = k - 1;
        assert(hide_transition(phases[p], events[p], phases[p + 1], actions[p + 1]));
        lemma_hide_run_keeps_kind(path, expected_directory, phases, events, actions, p);
    }
}

/// In every run of a lock of a folder, the row added and the marker written
/// say FOLDER; in every run of a lock of a file, they say FILE.
pub proof fn lemma_hide_run_records_the_asked_kind(
    path: String,
    expected_directory: bool,
    phases: Seq<HidePhase>,
    events: Seq<Event>,
    actions: Seq<Action>,
    j: int,
)
    requires
        is_hide_run(path, expected_directory, phases, events, actions),
        0 <= j < actions.len(),
    ensures
        actions[j] matches Action::InsertRecord { item_type, .. } ==> (expected_directory ==> item_type@
            == ITEM_TYPE_FOLDER@) && (!expected_directory ==> item_type@ == ITEM_TYPE_FILE@),
        actions[j] matches Action::WriteMarker { item_type, .. } ==> (expected_directory ==> item_type@
            == ITEM_TYPE_FOLDER@) && (!expected_directory ==> item_type@ == ITEM_TYPE_FILE@),
{
    if j > 0 {
        let p = j - 1;
        assert(hide_transition(phases[p], events[p], phases[p + 1], actions[p + 1]));
        assert(p + 1 == j);
        lemma_hide_run_keeps_kind(path, expected_directory, phases, events, actions, p);
        lemma_hide_records_the_item_kind(phases[p], events[p], phases[j], actions[j]);
    }
}

} // verus!
