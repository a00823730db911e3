use vstd::prelude::*;
use crate::file_attributes::{spec_is_hidden_and_system, HIDDEN, SYSTEM};
use crate::models::HiddenItem;
use crate::paths::{identity_text_well_formed, is_identity_text};

verus! {

broadcast use vstd::string::group_string_axioms;

pub const STATUS_RESTORED: &'static str = "RESTORED";
pub const STATUS_MISSING: &'static str = "MISSING";
pub const STATUS_LOCKED: &'static str = "LOCKED";
pub const STATUS_UNLOCKED_EXTERNALLY: &'static str = "UNLOCKED_EXTERNALLY";
pub const STATUS_PATH_CHANGED: &'static str = "PATH_CHANGED";

/// The live protection status of a history row: restored rows stay restored;
/// an active row is missing when its attributes cannot be read, locked when
/// they carry hidden and system, and unlocked externally otherwise.
pub open spec fn spec_protection_status(current_status: i32, attributes: Result<u32, ()>) -> Seq<char> {
    if current_status == 0 {
        STATUS_RESTORED@
    } else {
        match attributes {
            Err(()) => STATUS_MISSING@,
            Ok(a) => if spec_is_hidden_and_system(a) {
                STATUS_LOCKED@
            } else {
                STATUS_UNLOCKED_EXTERNALLY@
            },
        }
    }
}

pub fn protection_status(current_status: i32, attributes: Result<u32, ()>) -> (r: &'static str)
    ensures
        r@ == spec_protection_status(current_status, attributes),
{
    if current_status == 0 {
        return STATUS_RESTORED;
    }
    match attributes {
        Err(()) => STATUS_MISSING,
        Ok(a) => if a & HIDDEN != 0 && a & SYSTEM != 0 {
            STATUS_LOCKED
        } else {
            STATUS_UNLOCKED_EXTERNALLY
        },
    }
}

/// `item` with its protection status computed from the attributes read at
/// its path (`Err(())` when they could not be read).
pub fn with_protection_status(item: HiddenItem, attributes: Result<u32, ()>) -> (r: HiddenItem)
    ensures
        r == (HiddenItem { protection_status: r.protection_status, ..item }),
        r.protection_status@ == spec_protection_status(item.current_status, attributes),
{
    let mut item = item;
    item.protection_status = String::from_str(protection_status(item.current_status, attributes));
    item
}

/// Whether an active row records a file identity that no longer matches the
/// item found at its path (`current_identity` is that item's identity, if
/// any). A recorded identity that is not an identity text tells nothing
/// about the item and is treated as unknown.
pub fn identity_changed(item: &HiddenItem, current_identity: &Option<String>) -> (r: bool)
    ensures
        r == (item.current_status == 1 && item.file_id is Some && is_identity_text(item.file_id->0@)
            && match current_identity {
            Some(c) => c@ != item.file_id->0@,
            None => true,
        }),
{
    if item.current_status != 1 {
        return false;
    }
    match &item.file_id {
        None => false,
        Some(stored) => {
            if !identity_text_well_formed(stored.as_str()) {
                return false;
            }
            match current_identity {
                Some(current) => !current.eq(stored),
                None => true,
            }
        },
    }
}

/// `item` moved to `new_path`, with its status computed from the attributes
/// read there.
pub fn with_renamed_path(item: HiddenItem, new_path: String, attributes: Result<u32, ()>) -> (r: HiddenItem)
    ensures
        r == (HiddenItem { path: new_path, protection_status: r.protection_status, ..item }),
        r.protection_status@ == spec_protection_status(item.current_status, attributes),
{
    let mut item = item;
    item.path = new_path;
    with_protection_status(item, attributes)
}

/// `item` marked as having been replaced or moved away from its path.
pub fn with_path_changed(item: HiddenItem) -> (r: HiddenItem)
    ensures
        r == (HiddenItem { protection_status: r.protection_status, ..item }),
        r.protection_status@ == STATUS_PATH_CHANGED@,
{
    let mut item = item;
    item.protection_status = String::from_str(STATUS_PATH_CHANGED);
    item
}

/// How a row is listed. `changed` says whether its recorded identity no
/// longer matches the item at its path (see [`identity_changed`]);
/// `renamed_to` is the new path of the item found under another name in the
/// same folder, if any; `attributes` are those read at the path the row is
/// listed with. A changed row that was found again is listed at its new path
/// with its live status; one that was not is listed as changed; any other
/// row is listed with its live status.
pub fn listed_item(item: HiddenItem, changed: bool, renamed_to: Option<String>, attributes: Result<u32, ()>) -> (r:
    HiddenItem)
    ensures
        changed && renamed_to is None ==> r == (HiddenItem { protection_status: r.protection_status, ..item })
            && r.protection_status@ == STATUS_PATH_CHANGED@,
        changed && renamed_to is Some ==> r == (HiddenItem {
            path: renamed_to->0,
            protection_status: r.protection_status,
            ..item
        }) && r.protection_status@ == spec_protection_status(item.current_status, attributes),
        !changed ==> r == (HiddenItem { protection_status: r.protection_status, ..item })
            && r.protection_status@ == spec_protection_status(item.current_status, attributes),
{
    if changed {
        match renamed_to {
            Some(new_path) => with_renamed_path(item, new_path, attributes),
            None => with_path_changed(item),
        }
    } else {
        with_protection_status(item, attributes)
    }
}

/// A restored row stays restored whatever is found at its path, even when
/// the path is gone; an active row whose path cannot be read is missing.
pub proof fn lemma_restored_rows_stay_restored(attributes: Result<u32, ()>)
    ensures
        spec_protection_status(0, attributes) == STATUS_RESTORED@,
        forall|s: i32| s != 0 ==> spec_protection_status(s, Err(())) == STATUS_MISSING@,
{
}

/// The live status of an active row whose mask can be read follows the
/// hidden (0x2) and system (0x4) flags alone: LOCKED exactly when both are
/// set, and UNLOCKED_EXTERNALLY when either was cleared, whatever other
/// flags the mask carries.
pub proof fn lemma_live_status_follows_hidden_and_system(current_status: i32, attributes: u32)
    requires
        current_status != 0,
    ensures
        (attributes & 0x2 != 0 && attributes & 0x4 != 0) ==> spec_protection_status(current_status, Ok(attributes))
            == STATUS_LOCKED@,
        !(attributes & 0x2 != 0 && attributes & 0x4 != 0) ==> spec_protection_status(
            current_status,
            Ok(attributes),
        ) == STATUS_UNLOCKED_EXTERNALLY@,
{
}

/// An item as a lock leaves it (any mask with hidden and system added) is
/// LOCKED; clearing its hidden flag, or its system flag, makes it
/// UNLOCKED_EXTERNALLY.
pub proof fn lemma_lock_and_external_unlock_status(current_status: i32, original: u32)
    requires
        current_status != 0,
    ensures
        spec_protection_status(current_status, Ok(original | 0x6)) == STATUS_LOCKED@,
        spec_protection_status(current_status, Ok((original | 0x6) & !0x2u32)) == STATUS_UNLOCKED_EXTERNALLY@,
        spec_protection_status(current_status, Ok((original | 0x6) & !0x4u32)) == STATUS_UNLOCKED_EXTERNALLY@,
{
    assert((original | 0x6) & 0x2 != 0 && (original | 0x6) & 0x4 != 0) by (bit_vector);
    assert(((original | 0x6) & !0x2u32) & 0x2 == 0) by (bit_vector);
    assert(((original | 0x6) & !0x4u32) & 0x4 == 0) by (bit_vector);
    lemma_live_status_follows_hidden_and_system(current_status, original | 0x6);
    lemma_live_status_follows_hidden_and_system(current_status, (original | 0x6) & !0x2u32);
    lemma_live_status_follows_hidden_and_system(current_status, (original | 0x6) & !0x4u32);
}

} // verus!
