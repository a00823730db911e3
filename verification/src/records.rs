use vstd::prelude::*;
use crate::text::{decimal, parse_unsigned, parse_unsigned_chars, push_decimal, str_chars, string_from_chars};

verus! {

broadcast use vstd::string::group_string_axioms;

/// Auto-lock period used when none is stored, in minutes.
pub const DEFAULT_AUTO_LOCK_MINUTES: u32 = 15;

pub const FILE_ID_COLUMN: &'static str = "file_id";

pub const MSG_NOT_ACTIVE: &'static str = "隐藏记录不存在或已恢复";
pub const MSG_CLEANUP_FAILED: &'static str = "无法清理未完成的隐藏记录";

/// The auto-lock period that a stored setting gives: the stored text when it
/// parses as a `u32`, and 15 minutes when nothing is stored or the text does
/// not parse.
pub open spec fn spec_auto_lock_minutes(setting: Option<Seq<char>>) -> u32 {
    match setting {
        Some(v) => match parse_unsigned(v, u32::MAX as nat) {
            Some(n) => n as u32,
            None => DEFAULT_AUTO_LOCK_MINUTES,
        },
        None => DEFAULT_AUTO_LOCK_MINUTES,
    }
}

pub fn auto_lock_minutes_from_setting(setting: Option<String>) -> (r: u32)
    ensures
        r == spec_auto_lock_minutes(
            match setting {
                Some(v) => Some(v@),
                None => None,
            },
        ),
{
    match setting {
        None => DEFAULT_AUTO_LOCK_MINUTES,
        Some(v) => {
            let chars = str_chars(v.as_str());
            let n = chars.len();
            let r = parse_unsigned_chars(&chars, 0, n, 0xFFFF_FFFF);
            assert(chars@.subrange(0, n as int) =~= v@);
            match r {
                Some(m) => m as u32,
                None => DEFAULT_AUTO_LOCK_MINUTES,
            }
        },
    }
}

/// The text stored for an auto-lock period (`u32::to_string`).
pub fn auto_lock_setting_text(minutes: u32) -> (r: String)
    ensures
        r@ == decimal(minutes as nat),
{
    let mut chars: Vec<char> = Vec::new();
    push_decimal(minutes as u128, &mut chars);
    assert(chars@ =~= decimal(minutes as nat));
    string_from_chars(&chars)
}

/// A stored period reads back as the period that was stored.
pub proof fn lemma_auto_lock_setting_round_trip(minutes: u32)
    ensures
        spec_auto_lock_minutes(Some(decimal(minutes as nat))) == minutes,
{
    crate::text::lemma_parse_decimal(minutes as nat, u32::MAX as nat);
}

/// Whether a history table whose columns are `columns` still needs the
/// `file_id` column added.
pub fn lacks_file_id_column(columns: &Vec<String>) -> (r: bool)
    ensures
        r == !(exists|i: int| 0 <= i < columns@.len() && (#[trigger] columns@[i])@ == FILE_ID_COLUMN@),
{
    let wanted = String::from_str(FILE_ID_COLUMN);
    let mut i: usize = 0;
    while i < columns.len()
        invariant
            wanted@ == FILE_ID_COLUMN@,
            i <= columns.len(),
            forall|j: int| 0 <= j < i ==> (#[trigger] columns@[j])@ != FILE_ID_COLUMN@,
        decreases columns.len() - i,
    {
        if columns[i].eq(&wanted) {
            return false;
        }
        i = i + 1;
    }
    true
}

/// Marking a row restored must change exactly one active row.
pub fn mark_restored_outcome(changed: usize) -> (r: Result<(), String>)
    ensures
        r is Ok <==> changed == 1,
        r matches Err(e) ==> e@ == MSG_NOT_ACTIVE@,
{
    if changed != 1 {
        return Err(String::from_str(MSG_NOT_ACTIVE));
    }
    Ok(())
}

/// Removing an unfinished row must delete exactly one active row.
pub fn remove_active_outcome(changed: usize) -> (r: Result<(), String>)
    ensures
        r is Ok <==> changed == 1,
        r matches Err(e) ==> e@ == MSG_CLEANUP_FAILED@,
{
    if changed != 1 {
        return Err(String::from_str(MSG_CLEANUP_FAILED));
    }
    Ok(())
}

/// Without a stored setting, or with one that is not a number, the
/// auto-lock period is 15 minutes; a stored number is used as it is.
pub proof fn lemma_auto_lock_default(text: Seq<char>, minutes: u32)
    ensures
        spec_auto_lock_minutes(None) == 15,
        parse_unsigned(text, u32::MAX as nat) is None ==> spec_auto_lock_minutes(Some(text)) == 15,
        spec_auto_lock_minutes(Some(decimal(minutes as nat))) == minutes,
{
    lemma_auto_lock_setting_round_trip(minutes);
}

} // verus!
