use vstd::prelude::*;

verus! {

/// The Windows `FILE_ATTRIBUTE_HIDDEN` flag.
pub const HIDDEN: u32 = 0x2;

/// The Windows `FILE_ATTRIBUTE_SYSTEM` flag.
pub const SYSTEM: u32 = 0x4;

/// The Windows `FILE_ATTRIBUTE_REPARSE_POINT` flag.
pub const REPARSE_POINT: u32 = 0x400;

/// Whether a mask carries both the hidden and the system flag.
pub open spec fn spec_is_hidden_and_system(mask: u32) -> bool {
    mask & HIDDEN != 0 && mask & SYSTEM != 0
}

/// The mask that locks an item: its original flags plus hidden and system.
pub open spec fn spec_attributes_to_hide(original: u32) -> u32 {
    original | HIDDEN | SYSTEM
}

/// The mask that unlocks an item: the original flags themselves.
pub open spec fn spec_attributes_to_restore(original: u32) -> u32 {
    original
}

/// The mask that locks an item: its original flags plus hidden and system.
#[verifier::when_used_as_spec(spec_attributes_to_hide)]
pub fn attributes_to_hide(original: u32) -> (locked: u32)
    ensures
        locked == spec_attributes_to_hide(original),
{
    original | HIDDEN | SYSTEM
}

/// The mask that unlocks an item: exactly the flags it had before it was locked.
#[verifier::when_used_as_spec(spec_attributes_to_restore)]
pub fn attributes_to_restore(original: u32) -> (restored: u32)
    ensures
        restored == spec_attributes_to_restore(original),
{
    original
}

/// Locking keeps every flag the item already had.
pub proof fn lemma_hide_preserves_original_flags(original: u32)
    ensures
        attributes_to_hide(original) & original == original,
{
    assert((original | 2u32 | 4u32) & original == original) by (bit_vector);
}

/// A locked mask always carries both the hidden and the system flag.
pub proof fn lemma_hidden_mask_is_locked(original: u32)
    ensures
        spec_is_hidden_and_system(attributes_to_hide(original)),
{
    assert((original | 2u32 | 4u32) & 2u32 != 0 && (original | 2u32 | 4u32) & 4u32 != 0) by (bit_vector);
}

/// Locking adds nothing but the hidden and the system flag.
pub proof fn lemma_hide_adds_only_hidden_and_system(original: u32)
    ensures
        attributes_to_hide(original) & !(HIDDEN | SYSTEM) == original & !(HIDDEN | SYSTEM),
{
    assert((original | 2u32 | 4u32) & !(2u32 | 4u32) == original & !(2u32 | 4u32)) by (bit_vector);
}

/// Locking an already locked mask changes nothing.
pub proof fn lemma_hide_is_idempotent(original: u32)
    ensures
        attributes_to_hide(attributes_to_hide(original)) == attributes_to_hide(original),
{
    assert(((original | 2u32 | 4u32) | 2u32 | 4u32) == (original | 2u32 | 4u32)) by (bit_vector);
}

/// Unlocking a locked item gives back exactly the mask it had before the lock.
pub proof fn lemma_restore_after_hide_is_original(original: u32)
    ensures
        attributes_to_restore(original) == original,
{
}

/// Whether the mask marks a symbolic link, junction or other reparse point.
pub fn is_reparse_point(attributes: u32) -> (r: bool)
    ensures
        r == (attributes & REPARSE_POINT != 0),
{
    attributes & REPARSE_POINT != 0
}

/// The lock mask is the original mask with the hidden (0x2) and system
/// (0x4) flags added, so it always carries both; the unlock mask is the
/// original mask itself.
pub proof fn lemma_lock_mask_is_original_plus_hidden_and_system(original: u32)
    ensures
        attributes_to_hide(original) == original | 0x6,
        attributes_to_hide(original) & 0x2 != 0,
        attributes_to_hide(original) & 0x4 != 0,
        attributes_to_restore(attributes_to_hide(original)) & original == original,
        attributes_to_restore(original) == original,
{
    assert((original | 2u32 | 4u32) == original | 0x6u32) by (bit_vector);
    assert((original | 0x6u32) & 0x2 != 0 && (original | 0x6u32) & 0x4 != 0) by (bit_vector);
    assert((original | 0x6u32) & original == original) by (bit_vector);
}

} // verus!
