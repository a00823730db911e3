use vstd::prelude::*;
use crate::file_attributes::{
    attributes_to_restore, lemma_hidden_mask_is_locked, spec_attributes_to_hide, spec_attributes_to_restore,
    spec_is_hidden_and_system, HIDDEN, SYSTEM,
};
use crate::locking::{error_of, finishes_with_status, unit_error};
use crate::models::HiddenItem;
use crate::status::with_protection_status;
use crate::transaction::{Action, Event, TxError};

verus! {

/// Where the restore of one history row stands.
pub enum RestorePhase {
    /// Waiting for row `id`.
    Fetching { id: i64 },
    /// Waiting for the attributes the locked item has now.
    ReadingLock { id: i64, item: HiddenItem },
    /// Waiting for the original attributes to be set back.
    Unlocking { id: i64, item: HiddenItem, locked: u32 },
    /// Unlocked; waiting to learn whether a marker is present.
    CheckingMarker { id: i64, item: HiddenItem, locked: u32 },
    /// Waiting for the marker to be removed.
    RemovingMarker { id: i64, item: HiddenItem, locked: u32 },
    /// The marker could not be removed; waiting for the lock to be set again.
    RelockingAfterMarker { cause: String },
    /// Waiting for the row to be marked restored; `had_marker` says whether
    /// a marker was found (and removed).
    MarkingRestored { id: i64, item: HiddenItem, locked: u32, had_marker: bool },
    /// The row could not be marked restored; waiting for the marker to be
    /// written again.
    RewritingMarker { path: String, locked: u32, cause: String },
    /// Waiting for the lock to be set again after the row update failed;
    /// `marker_lost` is the error of a marker rewrite that failed.
    RelockingAfterRecord { cause: String, marker_lost: Option<String> },
    /// Restored; waiting for the row to be read back.
    FetchingFinal { id: i64 },
    /// Waiting for the attributes that give the row's live status.
    ReadingStatus { item: HiddenItem },
    /// Over.
    Done,
}

pub open spec fn restore_accepts(phase: RestorePhase, event: Event) -> bool {
    match phase {
        RestorePhase::Fetching { .. } => event is RecordFetched,
        RestorePhase::ReadingLock { .. } => event is AttributesRead,
        RestorePhase::Unlocking { .. } => event is AttributesSet,
        RestorePhase::CheckingMarker { .. } => event is MarkerRead,
        RestorePhase::RemovingMarker { .. } => event is MarkerRemoved,
        RestorePhase::RelockingAfterMarker { .. } => event is AttributesSet,
        RestorePhase::MarkingRestored { .. } => event is Restored,
        RestorePhase::RewritingMarker { .. } => event is MarkerWritten,
        RestorePhase::RelockingAfterRecord { .. } => event is AttributesSet,
        RestorePhase::FetchingFinal { .. } => event is RecordFetched,
        RestorePhase::ReadingStatus { .. } => event is AttributesRead,
        RestorePhase::Done => false,
    }
}

/// One step of a restore. The order is: read the row (refuse a restored
/// one); read the live attributes (refuse a missing or no longer locked
/// item); set the original attributes back; remove the marker if one is
/// present; mark the row restored. When the marker cannot be removed the
/// item is locked again with the attributes it had; when the row cannot be
/// updated the marker is written again (if there was one) and the item
/// locked again. A failed re-lock, and a marker that could not be written
/// again, are reported with the error.
pub open spec fn restore_transition(old: RestorePhase, event: Event, new: RestorePhase, action: Action) -> bool {
    match old {
        RestorePhase::Fetching { id } => match event {
            Event::RecordFetched(Err(e)) => new is Done && action == Action::Finish(Err(TxError::Failed(e))),
            Event::RecordFetched(Ok(item)) => if item.current_status == 0 {
                new is Done && action == Action::Finish(Err(TxError::AlreadyRestored))
            } else {
                new == (RestorePhase::ReadingLock { id, item }) && action == (Action::ReadAttributes { path: item.path })
            },
            _ => false,
        },
        RestorePhase::ReadingLock { id, item } => match event {
            Event::AttributesRead(Err(_)) => new is Done && action == Action::Finish(Err(TxError::PathGone)),
            Event::AttributesRead(Ok(a)) => if !(item.current_status != 0 && spec_is_hidden_and_system(a)) {
                new is Done && action == Action::Finish(Err(TxError::NotLocked))
            } else {
                new == (RestorePhase::Unlocking { id, item, locked: a }) && action == (Action::SetAttributes {
                    path: item.path,
                    attributes: spec_attributes_to_restore(item.original_attributes),
                })
            },
            _ => false,
        },
        RestorePhase::Unlocking { id, item, locked } => match event {
            Event::AttributesSet(Err(e)) => new is Done && action == Action::Finish(Err(TxError::Failed(e))),
            Event::AttributesSet(Ok(_)) => new == (RestorePhase::CheckingMarker { id, item, locked })
                && action == (Action::ReadMarker { path: item.path }),
            _ => false,
        },
        RestorePhase::CheckingMarker { id, item, locked } => match event {
            Event::MarkerRead(Some(_)) => new == (RestorePhase::RemovingMarker { id, item, locked })
                && action == (Action::RemoveMarker { path: item.path }),
            Event::MarkerRead(None) => new == (RestorePhase::MarkingRestored { id, item, locked, had_marker: false })
                && action == (Action::MarkRestored { id }),
            _ => false,
        },
        RestorePhase::RemovingMarker { id, item, locked } => match event {
            Event::MarkerRemoved(Err(e)) => new == (RestorePhase::RelockingAfterMarker { cause: e })
                && action == (Action::SetAttributes { path: item.path, attributes: locked }),
            Event::MarkerRemoved(Ok(_)) => new == (RestorePhase::MarkingRestored { id, item, locked, had_marker: true })
                && action == (Action::MarkRestored { id }),
            _ => false,
        },
        RestorePhase::RelockingAfterMarker { cause } => match event {
            Event::AttributesSet(Ok(_)) => new is Done && action == Action::Finish(Err(TxError::MarkerStuck { cause })),
            Event::AttributesSet(Err(r)) => new is Done && action == Action::Finish(
                Err(TxError::MarkerStuckRelockFailed { relock: r, cause }),
            ),
            _ => false,
        },
        RestorePhase::MarkingRestored { id, item, locked, had_marker } => match event {
            Event::Restored(Err(e)) => if had_marker {
                &&& new == (RestorePhase::RewritingMarker { path: item.path, locked, cause: e })
                &&& action == (Action::WriteMarker {
                    path: item.path,
                    item_type: item.item_type,
                    original_attributes: item.original_attributes,
                })
            } else {
                &&& new == (RestorePhase::RelockingAfterRecord { cause: e, marker_lost: None })
                &&& action == (Action::SetAttributes { path: item.path, attributes: locked })
            },
            Event::Restored(Ok(_)) => new == (RestorePhase::FetchingFinal { id }) && action == (Action::FetchRecord { id }),
            _ => false,
        },
        RestorePhase::RewritingMarker { path, locked, cause } => match event {
            Event::MarkerWritten(w) => new == (RestorePhase::RelockingAfterRecord {
                cause,
                marker_lost: error_of(w),
            }) && action == (Action::SetAttributes { path, attributes: locked }),
            _ => false,
        },
        RestorePhase::RelockingAfterRecord { cause, marker_lost } => match event {
            Event::AttributesSet(Ok(_)) => new is Done && action == Action::Finish(
                Err(
                    match marker_lost {
                        None => TxError::RestoreRecordFailed { cause },
                        Some(m) => TxError::RestoreMarkerLost { marker: m, cause },
                    },
                ),
            ),
            Event::AttributesSet(Err(r)) => new is Done && action == Action::Finish(
                Err(TxError::RestoreRelockFailed { relock: r, marker: marker_lost, cause }),
            ),
            _ => false,
        },
        RestorePhase::FetchingFinal { id } => match event {
            Event::RecordFetched(Err(e)) => new is Done && action == Action::Finish(Err(TxError::Failed(e))),
            Event::RecordFetched(Ok(item)) => new == (RestorePhase::ReadingStatus { item })
                && action == (Action::ReadAttributes { path: item.path }),
            _ => false,
        },
        RestorePhase::ReadingStatus { item } => match event {
            Event::AttributesRead(r) => new is Done && finishes_with_status(action, item, r),
            _ => false,
        },
        RestorePhase::Done => false,
    }
}

/// Starts restoring history row `id`.
pub fn restore_start(id: i64) -> (r: (RestorePhase, Action))
    ensures
        r.0 == (RestorePhase::Fetching { id }),
        r.1 == (Action::FetchRecord { id }),
{
    (RestorePhase::Fetching { id }, Action::FetchRecord { id })
}

pub fn restore_accepts_exec(phase: &RestorePhase, event: &Event) -> (r: bool)
    ensures
        r == restore_accepts(*phase, *event),
{
    match phase {
        RestorePhase::Fetching { .. } => matches!(event, Event::RecordFetched(_)),
        RestorePhase::ReadingLock { .. } => matches!(event, Event::AttributesRead(_)),
        RestorePhase::Unlocking { .. } => matches!(event, Event::AttributesSet(_)),
        RestorePhase::CheckingMarker { .. } => matches!(event, Event::MarkerRead(_)),
        RestorePhase::RemovingMarker { .. } => matches!(event, Event::MarkerRemoved(_)),
        RestorePhase::RelockingAfterMarker { .. } => matches!(event, Event::AttributesSet(_)),
        RestorePhase::MarkingRestored { .. } => matches!(event, Event::Restored(_)),
        RestorePhase::RewritingMarker { .. } => matches!(event, Event::MarkerWritten(_)),
        RestorePhase::RelockingAfterRecord { .. } => matches!(event, Event::AttributesSet(_)),
        RestorePhase::FetchingFinal { .. } => matches!(event, Event::RecordFetched(_)),
        RestorePhase::ReadingStatus { .. } => matches!(event, Event::AttributesRead(_)),
        RestorePhase::Done => false,
    }
}

fn finish_with_status(item: HiddenItem, attributes: Result<u32, String>) -> (r: Action)
    ensures
        finishes_with_status(r, item, attributes),
{
    let unit = match attributes {
        Ok(a) => Ok(a),
        Err(_) => Err(()),
    };
    Action::Finish(Ok(with_protection_status(item, unit)))
}

/// Advances a restore by the outcome of its last action.
pub fn restore_step(phase: RestorePhase, event: Event) -> (r: (RestorePhase, Action))
    requires
        restore_accepts(phase, event),
    ensures
        restore_transition(phase, event, r.0, r.1),
{
    match phase {
        RestorePhase::Fetching { id } => match event {
            Event::RecordFetched(Err(e)) => (RestorePhase::Done, Action::Finish(Err(TxError::Failed(e)))),
            Event::RecordFetched(Ok(item)) => {
                if item.current_status == 0 {
                    (RestorePhase::Done, Action::Finish(Err(TxError::AlreadyRestored)))
                } else {
                    let p = item.path.clone();
                    (RestorePhase::ReadingLock { id, item }, Action::ReadAttributes { path: p })
                }
            },
            _ => {
                proof {
                    assert(false);
                }
                (RestorePhase::Done, Action::Finish(Err(TxError::NotLocked)))
            },
        },
        RestorePhase::ReadingLock { id, item } => match event {
            Event::AttributesRead(Err(_)) => (RestorePhase::Done, Action::Finish(Err(TxError::PathGone))),
            Event::AttributesRead(Ok(a)) => {
                if !(item.current_status != 0 && a & HIDDEN != 0 && a & SYSTEM != 0) {
                    (RestorePhase::Done, Action::Finish(Err(TxError::NotLocked)))
                } else {
                    let p = item.path.clone();
                    let original = attributes_to_restore(item.original_attributes);
                    (RestorePhase::Unlocking { id, item, locked: a }, Action::SetAttributes { path: p, attributes: original })
                }
            },
            _ => {
                proof {
                    assert(false);
                }
                (RestorePhase::Done, Action::Finish(Err(TxError::NotLocked)))
            },
        },
        RestorePhase::Unlocking { id, item, locked } => match event {
            Event::AttributesSet(Err(e)) => (RestorePhase::Done, Action::Finish(Err(TxError::Failed(e)))),
            Event::AttributesSet(Ok(_)) => {
                let p = item.path.clone();
                (RestorePhase::CheckingMarker { id, item, locked }, Action::ReadMarker { path: p })
            },
            _ => {
                proof {
                    assert(false);
                }
                (RestorePhase::Done, Action::Finish(Err(TxError::NotLocked)))
            },
        },
        RestorePhase::CheckingMarker { id, item, locked } => match event {
            Event::MarkerRead(Some(_)) => {
                let p = item.path.clone();
                (RestorePhase::RemovingMarker { id, item, locked }, Action::RemoveMarker { path: p })
            },
            Event::MarkerRead(None) => (
                RestorePhase::MarkingRestored { id, item, locked, had_marker: false },
                Action::MarkRestored { id },
            ),
            _ => {
                proof {
                    assert(false);
                }
                (RestorePhase::Done, Action::Finish(Err(TxError::NotLocked)))
            },
        },
        RestorePhase::RemovingMarker { id, item, locked } => match event {
            Event::MarkerRemoved(Err(e)) => {
                let p = item.path.clone();
                (RestorePhase::RelockingAfterMarker { cause: e }, Action::SetAttributes { path: p, attributes: locked })
            },
            Event::MarkerRemoved(Ok(_)) => (
                RestorePhase::MarkingRestored { id, item, locked, had_marker: true },
                Action::MarkRestored { id },
            ),
            _ => {
                proof {
                    assert(false);
                }
                (RestorePhase::Done, Action::Finish(Err(TxError::NotLocked)))
            },
        },
        RestorePhase::RelockingAfterMarker { cause } => match event {
            Event::AttributesSet(Ok(_)) => (RestorePhase::Done, Action::Finish(Err(TxError::MarkerStuck { cause }))),
            Event::AttributesSet(Err(r)) => (
                RestorePhase::Done,
                Action::Finish(Err(TxError::MarkerStuckRelockFailed { relock: r, cause })),
            ),
            _ => {
                proof {
                    assert(false);
                }
                (RestorePhase::Done, Action::Finish(Err(TxError::NotLocked)))
            },
        },
        RestorePhase::MarkingRestored { id, item, locked, had_marker } => match event {
            Event::Restored(Err(e)) => {
                if had_marker {
                    let p = item.path.clone();
                    (
                        RestorePhase::RewritingMarker { path: p, locked, cause: e },
                        Action::WriteMarker {
                            path: item.path,
                            item_type: item.item_type,
                            original_attributes: item.original_attributes,
                        },
                    )
                } else {
                    (
                        RestorePhase::RelockingAfterRecord { cause: e, marker_lost: None },
                        Action::SetAttributes { path: item.path, attributes: locked },
                    )
                }
            },
            Event::Restored(Ok(_)) => (RestorePhase::FetchingFinal { id }, Action::FetchRecord { id }),
            _ => {
                proof {
                    assert(false);
                }
                (RestorePhase::Done, Action::Finish(Err(TxError::NotLocked)))
            },
        },
        RestorePhase::RewritingMarker { path, locked, cause } => match event {
            Event::MarkerWritten(w) => {
                let marker_lost = match w {
                    Ok(_) => None,
                    Err(m) => Some(m),
                };
                (RestorePhase::RelockingAfterRecord { cause, marker_lost }, Action::SetAttributes { path, attributes: locked })
            },
            _ => {
                proof {
                    assert(false);
                }
                (RestorePhase::Done, Action::Finish(Err(TxError::NotLocked)))
            },
        },
        RestorePhase::RelockingAfterRecord { cause, marker_lost } => match event {
            Event::AttributesSet(Ok(_)) => {
                let error = match marker_lost {
                    None => TxError::RestoreRecordFailed { cause },
                    Some(m) => TxError::RestoreMarkerLost { marker: m, cause },
                };
                (RestorePhase::Done, Action::Finish(Err(error)))
            },
            Event::AttributesSet(Err(r)) => (
                RestorePhase::Done,
                Action::Finish(Err(TxError::RestoreRelockFailed { relock: r, marker: marker_lost, cause })),
            ),
            _ => {
                proof {
                    assert(false);
                }
                (RestorePhase::Done, Action::Finish(Err(TxError::NotLocked)))
            },
        },
        RestorePhase::FetchingFinal { id } => match event {
            Event::RecordFetched(Err(e)) => (RestorePhase::Done, Action::Finish(Err(TxError::Failed(e)))),
            Event::RecordFetched(Ok(item)) => {
                let p = item.path.clone();
                (RestorePhase::ReadingStatus { item }, Action::ReadAttributes { path: p })
            },
            _ => {
                proof {
                    assert(false);
                }
                (RestorePhase::Done, Action::Finish(Err(TxError::NotLocked)))
            },
        },
        RestorePhase::ReadingStatus { item } => match event {
            Event::AttributesRead(r) => (RestorePhase::Done, finish_with_status(item, r)),
            _ => {
                proof {
                    assert(false);
                }
                (RestorePhase::Done, Action::Finish(Err(TxError::NotLocked)))
            },
        },
        RestorePhase::Done => {
            proof {
                assert(false);
            }
            (RestorePhase::Done, Action::Finish(Err(TxError::NotLocked)))
        },
    }
}

// ---------------------------------------------------------------------------
// Laws of a restore
// ---------------------------------------------------------------------------

/// The original attributes are set back only on an active row whose item is
/// still locked (hidden and system), and they are exactly the recorded ones.
pub proof fn lemma_restore_unlocks_only_locked_items(
    old: RestorePhase,
    event: Event,
    new: RestorePhase,
    action: Action,
)
    requires
        restore_transition(old, event, new, action),
        old is ReadingLock,
        action is SetAttributes,
    ensures
        ({
            &&& old matches RestorePhase::ReadingLock { item, .. }
            &&& item.current_status != 0
            &&& event matches Event::AttributesRead(Ok(a))
            &&& spec_is_hidden_and_system(a)
            &&& action == (Action::SetAttributes { path: item.path, attributes: item.original_attributes })
        }),
{
}

/// An unlocked item whose marker cannot be removed is locked again with the
/// very attributes it had before the restore, and the restore fails.
pub proof fn lemma_restore_relocks_when_marker_stays(
    id: i64,
    item: HiddenItem,
    locked: u32,
    cause: String,
    new: RestorePhase,
    action: Action,
)
    requires
        restore_transition(
            RestorePhase::RemovingMarker { id, item, locked },
            Event::MarkerRemoved(Err(cause)),
            new,
            action,
        ),
    ensures
        action == (Action::SetAttributes { path: item.path, attributes: locked }),
        forall|e: Event, n2: RestorePhase, a2: Action|
            restore_transition(new, e, n2, a2) ==> a2 == Action::Finish(
                Err(
                    match e {
                        Event::AttributesSet(Err(r)) => TxError::MarkerStuckRelockFailed { relock: r, cause },
                        _ => TxError::MarkerStuck { cause },
                    },
                ),
            ),
{
}

/// When the row cannot be marked restored, the marker is written again with
/// the recorded type and attributes if the item had one, and the item is
/// locked again with the attributes it had; the restore fails either way.
pub proof fn lemma_restore_rolls_back_when_row_update_fails(
    id: i64,
    item: HiddenItem,
    locked: u32,
    had_marker: bool,
    cause: String,
    new: RestorePhase,
    action: Action,
)
    requires
        restore_transition(
            RestorePhase::MarkingRestored { id, item, locked, had_marker },
            Event::Restored(Err(cause)),
            new,
            action,
        ),
    ensures
        had_marker ==> action == (Action::WriteMarker {
            path: item.path,
            item_type: item.item_type,
            original_attributes: item.original_attributes,
        }) && forall|e: Event, n2: RestorePhase, a2: Action|
            restore_transition(new, e, n2, a2) ==> a2 == (Action::SetAttributes { path: item.path, attributes: locked })
                && forall|e3: Event, n3: RestorePhase, a3: Action|
                restore_transition(n2, e3, n3, a3) ==> a3 matches Action::Finish(Err(_)),
        !had_marker ==> action == (Action::SetAttributes { path: item.path, attributes: locked }) && forall|
            e: Event,
            n2: RestorePhase,
            a2: Action,
        | restore_transition(new, e, n2, a2) ==> a2 matches Action::Finish(Err(_)),
{
}

/// A restore says "locked again" only when locking again worked: a failed
/// re-lock is reported as such (with a marker that could not be written
/// again, if any), and a marker that could not be written again is reported
/// even when the re-lock worked.
pub proof fn lemma_restore_reports_failed_relock(old: RestorePhase, event: Event, new: RestorePhase, action: Action)
    requires
        restore_transition(old, event, new, action),
        old is RelockingAfterMarker || old is RelockingAfterRecord,
    ensures
        event matches Event::AttributesSet(Err(r)) ==> match old {
            RestorePhase::RelockingAfterMarker { cause } => action == Action::Finish(
                Err(TxError::MarkerStuckRelockFailed { relock: r, cause }),
            ),
            RestorePhase::RelockingAfterRecord { cause, marker_lost } => action == Action::Finish(
                Err(TxError::RestoreRelockFailed { relock: r, marker: marker_lost, cause }),
            ),
            _ => false,
        },
        action matches Action::Finish(Err(TxError::MarkerStuck { .. })) ==> event matches Event::AttributesSet(Ok(_)),
        action matches Action::Finish(Err(TxError::RestoreRecordFailed { .. })) ==> event matches Event::AttributesSet(
            Ok(_),
        ) && old matches RestorePhase::RelockingAfterRecord { marker_lost, .. } && marker_lost is None,
{
}

/// Once the item is unlocked, the restore never stops without either
/// committing the row or locking the item again.
pub proof fn lemma_restore_never_abandons_an_unlocked_item(
    old: RestorePhase,
    event: Event,
    new: RestorePhase,
    action: Action,
)
    requires
        restore_transition(old, event, new, action),
        old is CheckingMarker || old is RemovingMarker || old is MarkingRestored || old is RewritingMarker,
    ensures
        !(action is Finish),
{
}

/// An item that a lock left as it set it is always accepted for restore, and
/// the restore sets back exactly the attributes the item had before the
/// lock: whatever its original mask `o`, reading `o | hidden | system` on an
/// active row that records `o` leads to setting `o`.
pub proof fn lemma_restore_after_lock_gives_back_original(
    id: i64,
    item: HiddenItem,
    new: RestorePhase,
    action: Action,
)
    requires
        item.current_status != 0,
        restore_transition(
            RestorePhase::ReadingLock { id, item },
            Event::AttributesRead(Ok(spec_attributes_to_hide(item.original_attributes))),
            new,
            action,
        ),
    ensures
        action == (Action::SetAttributes { path: item.path, attributes: item.original_attributes }),
        new == (RestorePhase::Unlocking { id, item, locked: spec_attributes_to_hide(item.original_attributes) }),
{
    lemma_hidden_mask_is_locked(item.original_attributes);
}

// ---------------------------------------------------------------------------
// Whole runs of a restore
// ---------------------------------------------------------------------------

/// `phases`, `events` and `actions` are a run of a restore of row `id`.
pub open spec fn is_restore_run(id: i64, phases: Seq<RestorePhase>, events: Seq<Event>, actions: Seq<Action>) -> bool {
    &&& phases.len() == events.len() + 1
    &&& actions.len() == events.len() + 1
    &&& phases[0] == (RestorePhase::Fetching { id })
    &&& actions[0] == (Action::FetchRecord { id })
    &&& forall|k: int|
        0 <= k < events.len() ==> #[trigger] restore_transition(phases[k], events[k], phases[k + 1], actions[k + 1])
}

/// Whether `phase` is a restore that has unlocked the item at `path`, which
/// had the mask `locked`, and has neither committed nor locked it again.
pub open spec fn holds_unlocked(phase: RestorePhase, path: String, locked: u32) -> bool {
    match phase {
        RestorePhase::CheckingMarker { item, locked: l, .. } => item.path == path && l == locked,
        RestorePhase::RemovingMarker { item, locked: l, .. } => item.path == path && l == locked,
        RestorePhase::MarkingRestored { item, locked: l, .. } => item.path == path && l == locked,
        RestorePhase::RewritingMarker { path: p, locked: l, .. } => p == path && l == locked,
        _ => false,
    }
}

pub open spec fn relock_asked(actions: Seq<Action>, path: String, locked: u32, after: int, upto: int) -> bool {
    exists|j: int| after < j <= upto && #[trigger] actions[j] == (Action::SetAttributes { path, attributes: locked })
}

pub open spec fn restore_committed(events: Seq<Event>, after: int, before: int) -> bool {
    exists|j: int| after < j < before && #[trigger] events[j] matches Event::Restored(Ok(_))
}

proof fn lemma_restore_run_invariant(
    id: i64,
    phases: Seq<RestorePhase>,
    events: Seq<Event>,
    actions: Seq<Action>,
    i: int,
    path: String,
    locked: u32,
    k: int,
)
    requires
        is_restore_run(id, phases, events, actions),
        0 <= i < events.len(),
        phases[i] matches RestorePhase::Unlocking { item, locked: l, .. } && item.path == path && l == locked,
        events[i] matches Event::AttributesSet(Ok(_)),
        i + 1 <= k <= events.len(),
    ensures
        holds_unlocked(phases[k], path, locked) || relock_asked(actions, path, locked, i, k) || restore_committed(
            events,
            i,
            k,
        ),
    decreases k - i,
{
    assert(restore_transition(phases[i], events[i], phases[i + 1], actions[i + 1]));
    if k > i + 1 {
        lemma_restore_run_invariant(id, phases, events, actions, i, path, locked, k - 1);
        let p = k - 1;
        assert(restore_transition(phases[p], events[p], phases[p + 1], actions[p + 1]));
        assert(p + 1 == k);
        if relock_asked(actions, path, locked, i, p) {
            let j = choose|j: int| i < j <= p && #[trigger] actions[j] == (Action::SetAttributes { path, attributes: locked });
            assert(actions[j] == (Action::SetAttributes { path, attributes: locked }));
        } else if restore_committed(events, i, p) {
            let j = choose|j: int| i < j < p && #[trigger] events[j] matches Event::Restored(Ok(_));
            assert(events[j] matches Event::Restored(Ok(_)));
        } else {
            match phases[p] {
                RestorePhase::RemovingMarker { .. } => {
                    if actions[k] == (Action::SetAttributes { path, attributes: locked }) {
                    }
                },
                RestorePhase::MarkingRestored { .. } => {
                    if events[p] matches Event::Restored(Ok(_)) {
                        assert(restore_committed(events, i, k));
                    }
                    if actions[k] == (Action::SetAttributes { path, attributes: locked }) {
                    }
                },
                RestorePhase::RewritingMarker { .. } => {
                    assert(actions[k] == (Action::SetAttributes { path, attributes: locked }));
                },
                _ => {},
            }
        }
    }
}

/// A restore never leaves an item unlocked without recording it: in a run
/// that finishes with an error after the item at `path` (which had the mask
/// `locked`) was unlocked, either locking it again with `locked` was asked
/// for, or the row had been marked restored (and only reading it back
/// failed).
pub proof fn lemma_restore_run_never_leaves_item_unlocked(
    id: i64,
    phases: Seq<RestorePhase>,
    events: Seq<Event>,
    actions: Seq<Action>,
    i: int,
    path: String,
    locked: u32,
)
    requires
        is_restore_run(id, phases, events, actions),
        0 <= i < events.len(),
        phases[i] matches RestorePhase::Unlocking { item, locked: l, .. } && item.path == path && l == locked,
        events[i] matches Event::AttributesSet(Ok(_)),
        actions.last() matches Action::Finish(Err(_)),
    ensures
        relock_asked(actions, path, locked, i, events.len() as int) || restore_committed(events, i, events.len() as int),
{
    let n = events.len() as int;
    assert(restore_transition(phases[i], events[i], phases[i + 1], actions[i + 1]));
    assert(n - 1 >= i + 1) by {
        if n - 1 == i {
            assert(actions[i + 1] is ReadMarker);
        }
    }
    lemma_restore_run_invariant(id, phases, events, actions, i, path, locked, n - 1);
    let m = n - 1;
    assert(restore_transition(phases[m], events[m], phases[m + 1], actions[m + 1]));
    assert(m + 1 == n);
    assert(actions.last() == actions[n]);
    if holds_unlocked(phases[m], path, locked) {
        lemma_restore_never_abandons_an_unlocked_item(phases[m], events[m], phases[n], actions[n]);
    }
    if relock_asked(actions, path, locked, i, m) {
        let j = choose|j: int| i < j <= m && #[trigger] actions[j] == (Action::SetAttributes { path, attributes: locked });
        assert(actions[j] == (Action::SetAttributes { path, attributes: locked }));
    }
    if restore_committed(events, i, m) {
        let j = choose|j: int| i < j < m && #[trigger] events[j] matches Event::Restored(Ok(_));
        assert(events[j] matches Event::Restored(Ok(_)));
    }
}

/// A restore sets anything back only on an item that is still locked: when
/// the mask read at the path lacks the hidden (0x2) or the system (0x4)
/// flag, the restore is refused as not locked and changes nothing; when it
/// has both (on an active row) the recorded original mask is set back.
pub proof fn lemma_restore_requires_a_locked_item(
    id: i64,
    item: HiddenItem,
    attributes: u32,
    new: RestorePhase,
    action: Action,
)
    requires
        restore_transition(RestorePhase::ReadingLock { id, item }, Event::AttributesRead(Ok(attributes)), new, action),
    ensures
        !(attributes & 0x2 != 0 && attributes & 0x4 != 0) ==> action == Action::Finish(Err(TxError::NotLocked)),
        (item.current_status != 0 && attributes & 0x2 != 0 && attributes & 0x4 != 0) ==> action == (
        Action::SetAttributes { path: item.path, attributes: item.original_attributes }),
{
}

} // verus!
