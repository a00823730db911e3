use vstd::prelude::*;
use crate::text::{
    chars_eq, decimal, is_digit, lemma_decimal, lemma_lines_from_end, lemma_lines_from_step,
    lemma_parse_decimal, parse_unsigned, parse_unsigned_chars, push_decimal, seqs_view, spec_lines,
    split_lines, str_chars, string_from_chars,
};

verus! {

broadcast use vstd::string::group_string_axioms;

/// Name of the NTFS alternate data stream that holds a recovery marker.
pub const RECOVERY_STREAM: &'static str = "FileHide";

/// First line of every recovery marker.
pub const RECOVERY_MARKER_VERSION: &'static str = "FILEHIDE/1";

/// At most this many bytes of a marker stream are read.
pub const MAX_MARKER_BYTES: u64 = 128;

/// Item type of a locked file.
pub const ITEM_TYPE_FILE: &'static str = "FILE";

/// Item type of a locked folder.
pub const ITEM_TYPE_FOLDER: &'static str = "FOLDER";

/// What a recovery marker records about a locked item.
#[derive(Debug, Clone)]
pub struct RecoveryMarker {
    pub item_type: String,
    pub original_attributes: u32,
}

pub open spec fn is_item_type(t: Seq<char>) -> bool {
    t == ITEM_TYPE_FILE@ || t == ITEM_TYPE_FOLDER@
}

/// The text of the marker written for an item of type `item_type` whose
/// attributes were `original` before it was locked.
pub open spec fn spec_marker_content(item_type: Seq<char>, original: u32) -> Seq<char> {
    RECOVERY_MARKER_VERSION@ + seq!['\n'] + item_type + seq!['\n'] + decimal(original as nat) + seq!['\n']
}

/// The item type and original attributes that `content` records, if it is a
/// well-formed marker: exactly three lines, the version line, `FILE` or
/// `FOLDER`, and a number that fits in a `u32`.
pub open spec fn spec_parse_recovery_marker(content: Seq<char>) -> Option<(Seq<char>, u32)> {
    let lines = spec_lines(content);
    if lines.len() == 3 && lines[0] == RECOVERY_MARKER_VERSION@ && is_item_type(lines[1])
        && parse_unsigned(lines[2], u32::MAX as nat) is Some {
        Some((lines[1], parse_unsigned(lines[2], u32::MAX as nat)->0 as u32))
    } else {
        None
    }
}

/// Path of the marker stream of the item at `path`.
pub fn recovery_stream_path(path: &str) -> (r: String)
    ensures
        r@ == path@ + seq![':'] + RECOVERY_STREAM@,
{
    let base = String::from_str(path);
    let with_colon = base.concat(":");
    proof {
        reveal_strlit(":");
    }
    with_colon.concat(RECOVERY_STREAM)
}

/// The text of the marker written for a locked item.
pub fn marker_content(item_type: &str, original_attributes: u32) -> (r: String)
    ensures
        r@ == spec_marker_content(item_type@, original_attributes),
{
    let mut chars = str_chars(RECOVERY_MARKER_VERSION);
    chars.push('\n');
    let type_chars = str_chars(item_type);
    let mut i: usize = 0;
    let ghost prefix = chars@;
    while i < type_chars.len()
        invariant
            i <= type_chars.len(),
            chars@ == prefix + type_chars@.take(i as int),
        decreases type_chars.len() - i,
    {
        chars.push(type_chars[i]);
        i = i + 1;
        assert(chars@ =~= prefix + type_chars@.take(i as int));
    }
    assert(type_chars@.take(i as int) =~= type_chars@);
    chars.push('\n');
    push_decimal(original_attributes as u128, &mut chars);
    chars.push('\n');
    assert(chars@ =~= spec_marker_content(item_type@, original_attributes));
    string_from_chars(&chars)
}

/// Reads a recovery marker: `None` unless `content` is well formed.
pub fn parse_recovery_marker(content: &str) -> (r: Option<RecoveryMarker>)
    ensures
        r is Some <==> spec_parse_recovery_marker(content@) is Some,
        r matches Some(m) ==> spec_parse_recovery_marker(content@) == Some(
            (m.item_type@, m.original_attributes),
        ),
{
    let chars = str_chars(content);
    let lines = split_lines(&chars);
    if lines.len() != 3 {
        return None;
    }
    proof {
        assert(seqs_view(lines@)[0] == lines@[0]@);
        assert(seqs_view(lines@)[1] == lines@[1]@);
        assert(seqs_view(lines@)[2] == lines@[2]@);
    }
    let version = str_chars(RECOVERY_MARKER_VERSION);
    if !chars_eq(&lines[0], &version) {
        return None;
    }
    let file = str_chars(ITEM_TYPE_FILE);
    let folder = str_chars(ITEM_TYPE_FOLDER);
    if !chars_eq(&lines[1], &file) && !chars_eq(&lines[1], &folder) {
        return None;
    }
    let number = &lines[2];
    match parse_unsigned_chars(number, 0, number.len(), 0xFFFF_FFFF) {
        None => {
            assert(number@.subrange(0, number@.len() as int) =~= number@);
            None
        },
        Some(v) => {
            assert(number@.subrange(0, number@.len() as int) =~= number@);
            Some(RecoveryMarker { item_type: string_from_chars(&lines[1]), original_attributes: v as u32 })
        },
    }
}

/// A marker written for a file or a folder reads back as the item type and
/// the attribute mask that were written.
pub proof fn lemma_marker_round_trip(item_type: Seq<char>, original: u32)
    requires
        is_item_type(item_type),
    ensures
        spec_parse_recovery_marker(spec_marker_content(item_type, original)) == Some((item_type, original)),
{
    reveal_strlit("FILEHIDE/1");
    reveal_strlit("FILE");
    reveal_strlit("FOLDER");
    let v = RECOVERY_MARKER_VERSION@;
    let d = decimal(original as nat);
    lemma_decimal(original as nat);
    let s = spec_marker_content(item_type, original);
    let e0 = v.len() as int;
    let a1 = e0 + 1;
    let e1 = a1 + item_type.len();
    let a2 = e1 + 1;
    let e2 = a2 + d.len();
    assert(s.len() == e2 + 1);
    assert(s.subrange(0, e0) =~= v);
    assert(s.subrange(a1, e1) =~= item_type);
    assert(s.subrange(a2, e2) =~= d);
    assert(s[e0] == '\n' && s[e1] == '\n' && s[e2] == '\n');
    assert forall|i: int| 0 <= i < e0 implies #[trigger] s[i] != '\n' by {
        assert(s[i] == v[i]);
    }
    assert forall|i: int| a1 <= i < e1 implies #[trigger] s[i] != '\n' by {
        assert(s[i] == item_type[i - a1]);
    }
    assert forall|i: int| a2 <= i < e2 implies #[trigger] s[i] != '\n' by {
        assert(s[i] == d[i - a2]);
        assert(is_digit(d[i - a2]));
    }
    assert(s[e0 - 1] == v[e0 - 1]);
    assert(s[e1 - 1] == item_type[item_type.len() - 1]);
    assert(s[e2 - 1] == d[d.len() - 1]);
    assert(is_digit(d[d.len() - 1]));
    lemma_lines_from_step(s, 0, e0);
    lemma_lines_from_step(s, a1, e1);
    lemma_lines_from_step(s, a2, e2);
    lemma_lines_from_end(s);
    let lines = spec_lines(s);
    assert(lines =~= seq![v, item_type, d]);
    lemma_parse_decimal(original as nat, u32::MAX as nat);
}

/// A marker is three lines of text: `FILEHIDE/1`, the item type, and the
/// original mask in decimal, each ended by a newline; and only a FILE or
/// FOLDER type is ever read back from a marker.
pub proof fn lemma_marker_text_and_kinds(item_type: Seq<char>, original: u32, content: Seq<char>)
    ensures
        spec_marker_content(item_type, original) == seq!['F', 'I', 'L', 'E', 'H', 'I', 'D', 'E', '/', '1', '\n']
            + item_type + seq!['\n'] + decimal(original as nat) + seq!['\n'],
        spec_parse_recovery_marker(content) matches Some(r) ==> (r.0 == seq!['F', 'I', 'L', 'E'] || r.0 == seq![
            'F',
            'O',
            'L',
            'D',
            'E',
            'R',
        ]),
{
    reveal_strlit("FILEHIDE/1");
    reveal_strlit("FILE");
    reveal_strlit("FOLDER");
    assert(RECOVERY_MARKER_VERSION@ =~= seq!['F', 'I', 'L', 'E', 'H', 'I', 'D', 'E', '/', '1']);
    assert(ITEM_TYPE_FILE@ =~= seq!['F', 'I', 'L', 'E']);
    assert(ITEM_TYPE_FOLDER@ =~= seq!['F', 'O', 'L', 'D', 'E', 'R']);
}

} // verus!
