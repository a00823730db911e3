use vstd::prelude::*;
use crate::file_attributes::{is_reparse_point, spec_is_hidden_and_system, HIDDEN, REPARSE_POINT, SYSTEM};
use crate::marker::{RecoveryMarker, ITEM_TYPE_FILE, ITEM_TYPE_FOLDER};
use crate::models::{RecoveryCandidate, RecoveryScanUpdate};
use crate::text::{chars_eq, is_blank, spec_is_blank, str_chars};

verus! {

broadcast use vstd::string::group_string_axioms;

/// A progress report is sent after every this many entries.
pub const PROGRESS_INTERVAL: u64 = 128;

pub const SCAN_PROGRESS: &'static str = "progress";
pub const SCAN_CANCELLED: &'static str = "cancelled";
pub const SCAN_COMPLETED: &'static str = "completed";

pub const MSG_INVALID_SCAN_ID: &'static str = "恢复扫描标识无效";

/// Whether an entry with these attributes may be a locked item: it is no
/// reparse point and carries hidden and system.
pub open spec fn spec_may_be_candidate(attributes: u32) -> bool {
    attributes & REPARSE_POINT == 0 && spec_is_hidden_and_system(attributes)
}

pub fn may_be_candidate(attributes: u32) -> (r: bool)
    ensures
        r == spec_may_be_candidate(attributes),
{
    !is_reparse_point(attributes) && attributes & HIDDEN != 0 && attributes & SYSTEM != 0
}

/// A scan must be started with a non-blank identifier.
pub fn validate_scan_id(scan_id: &str) -> (r: Result<(), String>)
    ensures
        r is Ok <==> !spec_is_blank(scan_id@),
        r matches Err(e) ==> e@ == MSG_INVALID_SCAN_ID@,
{
    if is_blank(scan_id) {
        Err(String::from_str(MSG_INVALID_SCAN_ID))
    } else {
        Ok(())
    }
}

/// A scanned entry is a recovery candidate when it may be a locked item, it
/// carries a valid marker, and its kind (file or folder) is the one that the
/// marker records; the candidate reports the path and what the marker holds.
pub open spec fn spec_recovery_candidate(
    path: Seq<char>,
    attributes: Option<u32>,
    marker: Option<RecoveryMarker>,
    is_directory: Option<bool>,
) -> Option<(Seq<char>, Seq<char>, u32)> {
    match (attributes, marker, is_directory) {
        (Some(a), Some(m), Some(d)) => if spec_may_be_candidate(a) && d == (m.item_type@ == ITEM_TYPE_FOLDER@) {
            Some((path, m.item_type@, m.original_attributes))
        } else {
            None
        },
        _ => None,
    }
}

pub open spec fn candidate_view(c: RecoveryCandidate) -> (Seq<char>, Seq<char>, u32) {
    (c.path@, c.item_type@, c.original_attributes)
}

pub fn recovery_candidate(
    path: String,
    attributes: Option<u32>,
    marker: Option<RecoveryMarker>,
    is_directory: Option<bool>,
) -> (r: Option<RecoveryCandidate>)
    ensures
        match r {
            Some(c) => spec_recovery_candidate(path@, attributes, marker, is_directory) == Some(candidate_view(c)),
            None => spec_recovery_candidate(path@, attributes, marker, is_directory) is None,
        },
{
    match (attributes, marker, is_directory) {
        (Some(a), Some(m), Some(d)) => {
            if !may_be_candidate(a) {
                return None;
            }
            let folder = str_chars(ITEM_TYPE_FOLDER);
            let kind = str_chars(m.item_type.as_str());
            if d != chars_eq(&kind, &folder) {
                return None;
            }
            Some(RecoveryCandidate { path, item_type: m.item_type, original_attributes: m.original_attributes })
        },
        _ => None,
    }
}

/// A recovery scan in progress: its counts, its findings, and the folders
/// (of path type `P`) still to be listed.
pub struct RecoveryScan<P> {
    /// Directory entries looked at.
    pub scanned: u64,
    /// Entries and directories that could not be read, and reparse points.
    pub skipped: u64,
    /// Marked items found so far.
    pub candidates: Vec<RecoveryCandidate>,
    /// Folders found and not listed yet; the last one is listed next.
    pub pending: Vec<P>,
}

/// What to do with a directory entry once its kind is known.
pub enum EntryVerdict {
    /// Count it as skipped and go on.
    Skip,
    /// Check it for a marker; descend into it when it is a folder.
    Inspect { descend: bool },
}

impl<P> RecoveryScan<P> {
    /// A scan of the folder `root` that has seen nothing yet.
    pub fn new(root: P) -> (s: Self)
        ensures
            s.scanned == 0,
            s.skipped == 0,
            s.candidates@.len() == 0,
            s.pending@ == seq![root],
    {
        let mut pending = Vec::new();
        pending.push(root);
        RecoveryScan { scanned: 0, skipped: 0, candidates: Vec::new(), pending }
    }

    /// The next folder to list: the one found last (the walk goes depth
    /// first), or `None` when the walk is over.
    pub fn next_directory(&mut self) -> (r: Option<P>)
        ensures
            old(self).pending@.len() == 0 ==> r is None && final(self).pending@.len() == 0,
            old(self).pending@.len() > 0 ==> r == Some(old(self).pending@.last()) && final(self).pending@
                == old(self).pending@.drop_last(),
            final(self).scanned == old(self).scanned,
            final(self).skipped == old(self).skipped,
            final(self).candidates == old(self).candidates,
    {
        self.pending.pop()
    }

    /// A directory could not be listed.
    pub fn directory_unreadable(&mut self)
        requires
            old(self).skipped < u64::MAX,
        ensures
            final(self).skipped == old(self).skipped + 1,
            final(self).scanned == old(self).scanned,
            final(self).candidates == old(self).candidates,
            final(self).pending == old(self).pending,
    {
        self.skipped = self.skipped + 1;
    }

    /// Counts the directory entry `entry` and decides, from its attributes
    /// (`None` when they could not be read) and its kind (`None` when its
    /// metadata could not be read), what to do with it: entries that cannot
    /// be read, and reparse points, are skipped and never descended into; a
    /// folder that is inspected is queued to be listed.
    pub fn classify_entry(&mut self, entry: P, attributes: Option<u32>, is_directory: Option<bool>) -> (v:
        EntryVerdict)
        requires
            old(self).scanned < u64::MAX,
            old(self).skipped < u64::MAX,
        ensures
            final(self).scanned == old(self).scanned + 1,
            final(self).candidates == old(self).candidates,
            match (attributes, is_directory) {
                (Some(a), Some(d)) if a & REPARSE_POINT == 0 => {
                    &&& v == (EntryVerdict::Inspect { descend: d })
                    &&& final(self).skipped == old(self).skipped
                    &&& final(self).pending@ == if d {
                        old(self).pending@.push(entry)
                    } else {
                        old(self).pending@
                    }
                },
                _ => v is Skip && final(self).skipped == old(self).skipped + 1 && final(self).pending
                    == old(self).pending,
            },
    {
        self.scanned = self.scanned + 1;
        match (attributes, is_directory) {
            (Some(a), Some(d)) => {
                if is_reparse_point(a) {
                    self.skipped = self.skipped + 1;
                    EntryVerdict::Skip
                } else {
                    if d {
                        self.pending.push(entry);
                    }
                    EntryVerdict::Inspect { descend: d }
                }
            },
            _ => {
                self.skipped = self.skipped + 1;
                EntryVerdict::Skip
            },
        }
    }

    /// Records a candidate, if there is one.
    pub fn add_candidate(&mut self, candidate: Option<RecoveryCandidate>)
        ensures
            final(self).scanned == old(self).scanned,
            final(self).skipped == old(self).skipped,
            final(self).pending == old(self).pending,
            final(self).candidates@ == match candidate {
                Some(c) => old(self).candidates@.push(c),
                None => old(self).candidates@,
            },
    {
        if let Some(c) = candidate {
            self.candidates.push(c);
        }
    }

    /// Whether a progress report is due after the last counted entry.
    pub fn progress_due(&self) -> (r: bool)
        ensures
            r == (self.scanned % PROGRESS_INTERVAL == 0),
    {
        self.scanned % PROGRESS_INTERVAL == 0
    }

    /// A progress report: the counts, without the candidates.
    pub fn progress(&self, scan_id: &String) -> (u: RecoveryScanUpdate)
        ensures
            u.scan_id == *scan_id,
            u.kind@ == SCAN_PROGRESS@,
            u.scanned == self.scanned,
            u.skipped == self.skipped,
            u.candidates@.len() == 0,
    {
        RecoveryScanUpdate {
            scan_id: scan_id.clone(),
            kind: String::from_str(SCAN_PROGRESS),
            scanned: self.scanned,
            skipped: self.skipped,
            candidates: Vec::new(),
        }
    }

    /// The last report of a scan (cancelled or completed), with every
    /// candidate found.
    pub fn finish(self, scan_id: &String, cancelled: bool) -> (u: RecoveryScanUpdate)
        ensures
            u.scan_id == *scan_id,
            u.kind@ == (if cancelled { SCAN_CANCELLED@ } else { SCAN_COMPLETED@ }),
            u.scanned == self.scanned,
            u.skipped == self.skipped,
            u.candidates == self.candidates,
    {
        RecoveryScanUpdate {
            scan_id: scan_id.clone(),
            kind: if cancelled {
                String::from_str(SCAN_CANCELLED)
            } else {
                String::from_str(SCAN_COMPLETED)
            },
            scanned: self.scanned,
            skipped: self.skipped,
            candidates: self.candidates,
        }
    }
}

/// Only entries that carry hidden and system, no reparse flag and a marker
/// that matches their kind are offered for recovery.
pub proof fn lemma_candidates_are_locked_and_marked(
    path: Seq<char>,
    attributes: Option<u32>,
    marker: Option<RecoveryMarker>,
    is_directory: Option<bool>,
)
    requires
        spec_recovery_candidate(path, attributes, marker, is_directory) is Some,
    ensures
        attributes matches Some(a) && spec_may_be_candidate(a),
        marker matches Some(m) && is_directory == Some(m.item_type@ == ITEM_TYPE_FOLDER@),
{
}

/// A scan offers every locked item that carries a marker of its own kind:
/// an entry whose mask has the hidden (0x2) and system (0x4) flags and no
/// reparse flag (0x400), with a FILE marker on a file or a FOLDER marker on
/// a folder, is a candidate with its path and the marker's type and mask.
pub proof fn lemma_locked_marked_item_is_offered(
    path: Seq<char>,
    attributes: u32,
    marker: RecoveryMarker,
    is_directory: bool,
)
    requires
        attributes & 0x2 != 0,
        attributes & 0x4 != 0,
        attributes & 0x400 == 0,
        (!is_directory && marker.item_type@ == ITEM_TYPE_FILE@) || (is_directory && marker.item_type@
            == ITEM_TYPE_FOLDER@),
    ensures
        spec_recovery_candidate(path, Some(attributes), Some(marker), Some(is_directory)) == Some(
            (path, marker.item_type@, marker.original_attributes),
        ),
{
    reveal_strlit("FILE");
    reveal_strlit("FOLDER");
    assert(ITEM_TYPE_FILE@.len() == 4 && ITEM_TYPE_FOLDER@.len() == 6);
    assert(ITEM_TYPE_FILE@ != ITEM_TYPE_FOLDER@);
}

/// A scan offers nothing else: a candidate's mask has the hidden and system
/// flags and no reparse flag, and a file is offered only with a FILE-less
/// marker kind, a folder only with a FOLDER marker.
pub proof fn lemma_offered_items_are_locked(
    path: Seq<char>,
    attributes: Option<u32>,
    marker: Option<RecoveryMarker>,
    is_directory: Option<bool>,
)
    requires
        spec_recovery_candidate(path, attributes, marker, is_directory) is Some,
    ensures
        attributes matches Some(a) && a & 0x2 != 0 && a & 0x4 != 0 && a & 0x400 == 0,
        marker matches Some(m) && is_directory matches Some(d) && (d <==> m.item_type@ == ITEM_TYPE_FOLDER@),
{
}

} // verus!
