use vstd::prelude::*;
use crate::file_attributes::is_reparse_point;
use crate::text::{
    all_digits, chars_eq, decimal, find_char, find_char_exec, is_blank, is_digit, lemma_decimal, lemma_find_char,
    push_decimal, spec_is_blank, str_chars, string_from_chars,
};

verus! {

broadcast use vstd::string::group_string_axioms;

/// At most this many paths are locked in one batch.
pub const MAX_BATCH: usize = 256;

// ---------------------------------------------------------------------------
// UTF-16 for the Windows API
// ---------------------------------------------------------------------------

/// The UTF-16 code units of one character.
pub open spec fn utf16_units(c: char) -> Seq<u16> {
    let u = c as u32;
    if u < 0x10000 {
        seq![u as u16]
    } else {
        let v = (u - 0x10000) as nat;
        seq![(0xD800 + v / 0x400) as u16, (0xDC00 + v % 0x400) as u16]
    }
}

/// The UTF-16 encoding of a character sequence.
pub open spec fn utf16(s: Seq<char>) -> Seq<u16>
    decreases s.len(),
{
    if s.len() == 0 {
        Seq::empty()
    } else {
        utf16(s.drop_last()) + utf16_units(s.last())
    }
}

/// The path as a NUL-terminated UTF-16 string for the wide Windows API.
pub fn wide(path: &str) -> (r: Vec<u16>)
    ensures
        r@ == utf16(path@).push(0u16),
{
    let chars = str_chars(path);
    let mut out: Vec<u16> = Vec::new();
    let mut i: usize = 0;
    while i < chars.len()
        invariant
            chars@ == path@,
            i <= chars.len(),
            out@ == utf16(chars@.take(i as int)),
        decreases chars.len() - i,
    {
        let u = chars[i] as u32;
        if u < 0x10000 {
            out.push(u as u16);
        } else {
            let v = u - 0x10000;
            out.push((0xD800 + v / 0x400) as u16);
            out.push((0xDC00 + v % 0x400) as u16);
        }
        assert(chars@.take(i + 1).drop_last() =~= chars@.take(i as int));
        i = i + 1;
        assert(out@ =~= utf16(chars@.take(i as int)));
    }
    assert(chars@.take(i as int) =~= path@);
    out.push(0u16);
    out
}

// ---------------------------------------------------------------------------
// Path text
// ---------------------------------------------------------------------------

/// The Windows extended-length path prefix `\\?\`.
pub open spec fn extended_prefix() -> Seq<char> {
    seq!['\\', '\\', '?', '\\']
}

/// `path` without a leading `\\?\`.
pub open spec fn spec_remove_extended_path_prefix(path: Seq<char>) -> Seq<char> {
    if path.len() >= 4 && path.take(4) == extended_prefix() {
        path.skip(4)
    } else {
        path
    }
}

/// `path` without the extended-length prefix that canonicalization adds;
/// nothing else of it changes.
pub fn remove_extended_path_prefix(path: &str) -> (r: &str)
    ensures
        r@ == spec_remove_extended_path_prefix(path@),
{
    let n = path.unicode_len();
    if n >= 4 && path.get_char(0) == '\\' && path.get_char(1) == '\\' && path.get_char(2) == '?'
        && path.get_char(3) == '\\' {
        assert(path@.take(4) =~= extended_prefix());
        let r = path.substring_char(4, n);
        assert(r@ =~= path@.skip(4));
        r
    } else {
        assert(n >= 4 ==> path@.take(4)[0] == path@[0] && path@.take(4)[1] == path@[1]
            && path@.take(4)[2] == path@[2] && path@.take(4)[3] == path@[3]);
        path
    }
}

/// ASCII lower case of one character; other characters are unchanged.
pub open spec fn ascii_lower(c: char) -> char {
    if 'A' <= c <= 'Z' {
        ((c as u32) + 32) as char
    } else {
        c
    }
}

/// `str::eq_ignore_ascii_case`.
pub open spec fn spec_eq_ignore_ascii_case(a: Seq<char>, b: Seq<char>) -> bool {
    a.len() == b.len() && forall|i: int| 0 <= i < a.len() ==> ascii_lower(#[trigger] a[i]) == ascii_lower(b[i])
}

fn ascii_lower_exec(c: char) -> (r: char)
    ensures
        r == ascii_lower(c),
{
    if 'A' <= c && c <= 'Z' {
        let u = c as u32 + 32;
        let b = u as u8;
        assert(b as u32 == u);
        b as char
    } else {
        c
    }
}

/// Whether two strings are equal when ASCII letters are compared without
/// regard to case.
pub fn eq_ignore_ascii_case(a: &str, b: &str) -> (r: bool)
    ensures
        r == spec_eq_ignore_ascii_case(a@, b@),
{
    let x = str_chars(a);
    let y = str_chars(b);
    if x.len() != y.len() {
        return false;
    }
    let mut i: usize = 0;
    while i < x.len()
        invariant
            x@ == a@,
            y@ == b@,
            x.len() == y.len(),
            i <= x.len(),
            forall|j: int| 0 <= j < i ==> ascii_lower(#[trigger] a@[j]) == ascii_lower(b@[j]),
        decreases x.len() - i,
    {
        if ascii_lower_exec(x[i]) != ascii_lower_exec(y[i]) {
            return false;
        }
        i = i + 1;
    }
    true
}

// ---------------------------------------------------------------------------
// Duplicate paths in a batch
// ---------------------------------------------------------------------------

/// The Unicode lower-case mapping of a string, as `str::to_lowercase`
/// computes it.
pub uninterp spec fn lowercase(s: Seq<char>) -> Seq<char>;

/// `str::to_lowercase`: the result depends on the input string alone; what
/// the mapping is (the Unicode lower-case tables) is not stated.
#[verifier::external_body]
fn to_lowercase(s: &str) -> (r: String)
    ensures
        r@ == lowercase(s@),
{
    s.to_lowercase()
}

/// Whether the `i`-th path survives deduplication: it is not blank and no
/// earlier non-blank path has the same lower-case form.
pub open spec fn is_kept(paths: Seq<Seq<char>>, i: int) -> bool {
    &&& !spec_is_blank(paths[i])
    &&& forall|j: int|
        0 <= j < i && !spec_is_blank(paths[j]) ==> #[trigger] lowercase(paths[j]) != lowercase(paths[i])
}

/// The surviving paths among the first `n`, in their order.
pub open spec fn kept_prefix(paths: Seq<Seq<char>>, n: int) -> Seq<Seq<char>>
    decreases n,
{
    if n <= 0 {
        Seq::empty()
    } else if is_kept(paths, n - 1) {
        kept_prefix(paths, n - 1).push(paths[n - 1])
    } else {
        kept_prefix(paths, n - 1)
    }
}

/// The first `MAX_BATCH` non-blank paths, each kept only at its first
/// occurrence up to case.
pub open spec fn spec_deduplicate_paths(paths: Seq<Seq<char>>) -> Seq<Seq<char>> {
    let k = kept_prefix(paths, paths.len() as int);
    if k.len() > MAX_BATCH {
        k.take(MAX_BATCH as int)
    } else {
        k
    }
}

pub open spec fn strings_view(v: Seq<String>) -> Seq<Seq<char>> {
    v.map_values(|s: String| s@)
}

proof fn lemma_kept_prefix_grows(paths: Seq<Seq<char>>, m: int, n: int)
    requires
        0 <= m <= n,
    ensures
        kept_prefix(paths, m).len() <= kept_prefix(paths, n).len(),
        kept_prefix(paths, n).take(kept_prefix(paths, m).len() as int) == kept_prefix(paths, m),
    decreases n - m,
{
    if m < n {
        lemma_kept_prefix_grows(paths, m, n - 1);
        let a = kept_prefix(paths, m);
        let b = kept_prefix(paths, n - 1);
        let c = kept_prefix(paths, n);
        if is_kept(paths, n - 1) {
            assert(c.take(a.len() as int) =~= b.take(a.len() as int));
        }
    } else {
        assert(kept_prefix(paths, n).take(kept_prefix(paths, n).len() as int) =~= kept_prefix(paths, n));
    }
}

pub open spec fn keys_of(paths: Seq<Seq<char>>) -> Seq<Seq<char>> {
    paths.map_values(|p: Seq<char>| lowercase(p))
}

/// A lower-case form belongs to some earlier non-blank path exactly when it
/// belongs to some path kept so far.
proof fn lemma_kept_keys(paths: Seq<Seq<char>>, n: int, x: Seq<char>)
    requires
        0 <= n <= paths.len(),
    ensures
        (exists|j: int| 0 <= j < n && !spec_is_blank(paths[j]) && #[trigger] lowercase(paths[j]) == x)
            == keys_of(kept_prefix(paths, n)).contains(x),
    decreases n,
{
    if n > 0 {
        lemma_kept_keys(paths, n - 1, x);
        let before = kept_prefix(paths, n - 1);
        if is_kept(paths, n - 1) {
            assert(keys_of(kept_prefix(paths, n)) =~= keys_of(before).push(lowercase(paths[n - 1])));
            if keys_of(kept_prefix(paths, n)).contains(x) && !keys_of(before).contains(x) {
                let k = choose|k: int| 0 <= k < keys_of(kept_prefix(paths, n)).len()
                    && keys_of(kept_prefix(paths, n))[k] == x;
                assert(k == before.len());
                assert(lowercase(paths[n - 1]) == x);
            }
            if exists|j: int| 0 <= j < n && !spec_is_blank(paths[j]) && #[trigger] lowercase(paths[j]) == x {
                let j = choose|j: int| 0 <= j < n && !spec_is_blank(paths[j]) && #[trigger] lowercase(paths[j]) == x;
                if j == n - 1 {
                    assert(keys_of(kept_prefix(paths, n))[before.len() as int] == x);
                } else {
                    let k = choose|k: int| 0 <= k < keys_of(before).len() && keys_of(before)[k] == x;
                    assert(keys_of(kept_prefix(paths, n))[k] == x);
                }
            }
        } else {
            if !spec_is_blank(paths[n - 1]) && lowercase(paths[n - 1]) == x {
                let j = choose|j: int|
                    0 <= j < n - 1 && !spec_is_blank(paths[j]) && #[trigger] lowercase(paths[j]) == lowercase(
                        paths[n - 1],
                    );
                assert(exists|j: int| 0 <= j < n - 1 && !spec_is_blank(paths[j]) && #[trigger] lowercase(paths[j]) == x);
            }
            if exists|j: int| 0 <= j < n && !spec_is_blank(paths[j]) && #[trigger] lowercase(paths[j]) == x {
                let j = choose|j: int| 0 <= j < n && !spec_is_blank(paths[j]) && #[trigger] lowercase(paths[j]) == x;
                if j < n - 1 {
                    assert(exists|j: int| 0 <= j < n - 1 && !spec_is_blank(paths[j]) && #[trigger] lowercase(paths[j]) == x);
                } else {
                    let j2 = choose|j2: int|
                        0 <= j2 < n - 1 && !spec_is_blank(paths[j2]) && #[trigger] lowercase(paths[j2]) == lowercase(
                            paths[n - 1],
                        );
                    assert(exists|j: int| 0 <= j < n - 1 && !spec_is_blank(paths[j]) && #[trigger] lowercase(paths[j]) == x);
                }
            }
        }
    }
}

/// After deduplication no path is blank, no two paths have the same
/// lower-case form, and at most `MAX_BATCH` paths remain.
pub proof fn lemma_deduplicated_paths_are_distinct(paths: Seq<Seq<char>>)
    ensures
        spec_deduplicate_paths(paths).len() <= MAX_BATCH,
        forall|i: int| 0 <= i < spec_deduplicate_paths(paths).len() ==> !spec_is_blank(
            #[trigger] spec_deduplicate_paths(paths)[i],
        ),
        forall|i: int, j: int|
            0 <= i < j < spec_deduplicate_paths(paths).len() ==> lowercase(
                #[trigger] spec_deduplicate_paths(paths)[i],
            ) != lowercase(#[trigger] spec_deduplicate_paths(paths)[j]),
{
    lemma_kept_prefix_distinct(paths, paths.len() as int);
    let k = kept_prefix(paths, paths.len() as int);
    let d = spec_deduplicate_paths(paths);
    assert forall|i: int| 0 <= i < d.len() implies d[i] == k[i] by {}
}

proof fn lemma_kept_prefix_distinct(paths: Seq<Seq<char>>, n: int)
    requires
        0 <= n <= paths.len(),
    ensures
        forall|i: int| 0 <= i < kept_prefix(paths, n).len() ==> !spec_is_blank(#[trigger] kept_prefix(paths, n)[i]),
        forall|i: int| 0 <= i < kept_prefix(paths, n).len() ==> exists|j: int|
            0 <= j < n && #[trigger] kept_prefix(paths, n)[i] == paths[j],
        forall|i: int, j: int|
            0 <= i < j < kept_prefix(paths, n).len() ==> lowercase(#[trigger] kept_prefix(paths, n)[i]) != lowercase(
                #[trigger] kept_prefix(paths, n)[j],
            ),
    decreases n,
{
    if n > 0 {
        lemma_kept_prefix_distinct(paths, n - 1);
        let before = kept_prefix(paths, n - 1);
        let now = kept_prefix(paths, n);
        if is_kept(paths, n - 1) {
            assert forall|i: int| 0 <= i < now.len() implies exists|j: int|
                0 <= j < n && #[trigger] now[i] == paths[j] by {
                if i < before.len() {
                    assert(now[i] == before[i]);
                } else {
                    assert(now[i] == paths[n - 1]);
                }
            }
            assert forall|i: int, j: int| 0 <= i < j < now.len() implies lowercase(#[trigger] now[i]) != lowercase(
                #[trigger] now[j],
            ) by {
                if j == now.len() - 1 {
                    assert(now[i] == before[i]);
                    let w = choose|w: int| 0 <= w < n - 1 && #[trigger] before[i] == paths[w];
                    assert(!spec_is_blank(paths[w]));
                    assert(lowercase(paths[w]) != lowercase(paths[n - 1]));
                } else {
                    assert(now[i] == before[i] && now[j] == before[j]);
                }
            }
            assert forall|i: int| 0 <= i < now.len() implies !spec_is_blank(#[trigger] now[i]) by {
                if i < before.len() {
                    assert(now[i] == before[i]);
                }
            }
        } else {
            assert forall|i: int| 0 <= i < now.len() implies exists|j: int|
                0 <= j < n && #[trigger] now[i] == paths[j] by {
                let w = choose|w: int| 0 <= w < n - 1 && #[trigger] before[i] == paths[w];
            }
        }
    }
}

fn contains_string(v: &Vec<String>, key: &String) -> (r: bool)
    ensures
        r == strings_view(v@).contains(key@),
{
    let mut i: usize = 0;
    while i < v.len()
        invariant
            i <= v.len(),
            forall|j: int| 0 <= j < i ==> (#[trigger] v@[j])@ != key@,
        decreases v.len() - i,
    {
        if v[i].eq(key) {
            assert(strings_view(v@)[i as int] == key@);
            return true;
        }
        i = i + 1;
    }
    assert forall|j: int| 0 <= j < strings_view(v@).len() implies strings_view(v@)[j] != key@ by {
        assert(strings_view(v@)[j] == v@[j]@);
    }
    false
}

/// Drops blank paths and later duplicates (compared after lower-casing) and
/// keeps at most `MAX_BATCH` paths, in their original order.
pub fn deduplicate_paths(paths: Vec<String>) -> (r: Vec<String>)
    ensures
        strings_view(r@) == spec_deduplicate_paths(strings_view(paths@)),
{
    let ghost ps = strings_view(paths@);
    let mut seen: Vec<String> = Vec::new();
    let mut out: Vec<String> = Vec::new();
    let mut i: usize = 0;
    assert(strings_view(seen@) =~= keys_of(kept_prefix(ps, 0)));
    while i < paths.len() && out.len() < MAX_BATCH
        invariant
            ps == strings_view(paths@),
            i <= paths.len(),
            out.len() <= MAX_BATCH,
            strings_view(out@) == kept_prefix(ps, i as int),
            strings_view(seen@) == keys_of(kept_prefix(ps, i as int)),
        decreases paths.len() - i,
    {
        let path = &paths[i];
        assert(ps[i as int] == path@);
        let ghost before = kept_prefix(ps, i as int);
        if !is_blank(path.as_str()) {
            let key = to_lowercase(path.as_str());
            proof {
                lemma_kept_keys(ps, i as int, key@);
            }
            if !contains_string(&seen, &key) {
                assert(is_kept(ps, i as int));
                let ghost old_out = out@;
                let ghost old_seen = seen@;
                out.push(path.clone());
                assert(strings_view(out@) =~= strings_view(old_out).push(ps[i as int]));
                seen.push(key);
                assert(strings_view(seen@) =~= strings_view(old_seen).push(key@));
                assert(keys_of(kept_prefix(ps, i + 1)) =~= keys_of(before).push(key@));
            } else {
                assert(!is_kept(ps, i as int));
            }
        } else {
            assert(!is_kept(ps, i as int));
        }
        i = i + 1;
    }
    proof {
        lemma_kept_prefix_grows(ps, i as int, ps.len() as int);
    }
    out
}

// ---------------------------------------------------------------------------
// File identity and renamed items
// ---------------------------------------------------------------------------

/// The identity recorded for an item: the serial number of its NTFS volume
/// and its file index on that volume, which a rename or a change of the
/// contents leaves as they are.
pub open spec fn spec_file_identity(volume_serial: u32, file_index: u64) -> Seq<char> {
    decimal(volume_serial as nat) + seq![':'] + decimal(file_index as nat)
}

/// The identity text of the item with file index `file_index` on the volume
/// with serial number `volume_serial`: `format!("{volume_serial}:{file_index}")`.
pub fn format_file_identity(volume_serial: u32, file_index: u64) -> (r: String)
    ensures
        r@ == spec_file_identity(volume_serial, file_index),
{
    let mut chars: Vec<char> = Vec::new();
    push_decimal(volume_serial as u128, &mut chars);
    chars.push(':');
    push_decimal(file_index as u128, &mut chars);
    assert(chars@ =~= spec_file_identity(volume_serial, file_index));
    string_from_chars(&chars)
}

/// Whether `s` has the form of an identity text: decimal digits, `:`, and
/// decimal digits. A recorded identity of another form tells nothing about
/// the item.
pub open spec fn is_identity_text(s: Seq<char>) -> bool {
    exists|i: int| 0 < i < s.len() - 1 && s[i] == ':' && all_digits(#[trigger] s.take(i)) && all_digits(s.skip(i + 1))
}

/// Whether `s` has the form of an identity text (see [`is_identity_text`]).
pub fn identity_text_well_formed(s: &str) -> (r: bool)
    ensures
        r == is_identity_text(s@),
{
    let chars = str_chars(s);
    let n = chars.len();
    let k = find_char_exec(&chars, 0, ':');
    proof {
        lemma_find_char(s@, 0, ':');
    }
    if k == 0 || k >= n || n - k < 2 {
        proof {
            assert forall|i: int| !(0 < i < s@.len() - 1 && s@[i] == ':' && all_digits(#[trigger] s@.take(i))
                && all_digits(s@.skip(i + 1))) by {
                if 0 < i < s@.len() - 1 && s@[i] == ':' && all_digits(s@.take(i)) {
                    if k < i {
                        assert(s@.take(i)[k as int] == s@[k as int]);
                    }
                }
            }
        }
        return false;
    }
    let mut j: usize = 0;
    while j < n
        invariant
            chars@ == s@,
            n == chars.len(),
            0 < k < n - 1,
            k == find_char(s@, 0, ':'),
            j <= n,
            forall|m: int| 0 <= m < j && m != k ==> is_digit(#[trigger] s@[m]),
        decreases n - j,
    {
        if j != k && !('0' <= chars[j] && chars[j] <= '9') {
            proof {
                assert forall|i: int| !(0 < i < s@.len() - 1 && s@[i] == ':' && all_digits(#[trigger] s@.take(i))
                    && all_digits(s@.skip(i + 1))) by {
                    if 0 < i < s@.len() - 1 && s@[i] == ':' && all_digits(s@.take(i)) && all_digits(
                        s@.skip(i + 1),
                    ) {
                        lemma_find_char(s@, 0, ':');
                        if k < i {
                            assert(s@.take(i)[k as int] == s@[k as int]);
                        }
                        if i < k {
                            assert(s@[i] != ':');
                        }
                        assert(k == i);
                        if j < i {
                            assert(s@.take(i)[j as int] == s@[j as int]);
                        } else {
                            assert(s@.skip(i + 1)[j - i - 1] == s@[j as int]);
                        }
                    }
                }
            }
            return false;
        }
        j = j + 1;
    }
    proof {
        let i = k as int;
        assert(all_digits(s@.take(i))) by {
            assert forall|m: int| 0 <= m < s@.take(i).len() implies is_digit(#[trigger] s@.take(i)[m]) by {
                assert(s@.take(i)[m] == s@[m]);
            }
        }
        assert(all_digits(s@.skip(i + 1))) by {
            assert forall|m: int| 0 <= m < s@.skip(i + 1).len() implies is_digit(#[trigger] s@.skip(i + 1)[m]) by {
                assert(s@.skip(i + 1)[m] == s@[i + 1 + m]);
            }
        }
    }
    true
}

/// Every identity text that [`format_file_identity`] writes has that form.
pub proof fn lemma_file_identity_is_identity_text(volume_serial: u32, file_index: u64)
    ensures
        is_identity_text(spec_file_identity(volume_serial, file_index)),
{
    let x = spec_file_identity(volume_serial, file_index);
    let d = decimal(volume_serial as nat);
    lemma_decimal(volume_serial as nat);
    lemma_decimal(file_index as nat);
    assert(x.take(d.len() as int) =~= d);
    assert(x.skip(d.len() as int + 1) =~= decimal(file_index as nat));
    assert(x[d.len() as int] == ':');
}

/// Two items have the same identity text only when they are the same item:
/// the same volume and the same file index on it.
pub proof fn lemma_file_identity_distinct(serial_a: u32, index_a: u64, serial_b: u32, index_b: u64)
    requires
        spec_file_identity(serial_a, index_a) == spec_file_identity(serial_b, index_b),
    ensures
        serial_a == serial_b,
        index_a == index_b,
{
    let x = spec_file_identity(serial_a, index_a);
    let da = decimal(serial_a as nat);
    let db = decimal(serial_b as nat);
    lemma_decimal(serial_a as nat);
    lemma_decimal(serial_b as nat);
    lemma_decimal(index_a as nat);
    lemma_decimal(index_b as nat);
    if da.len() < db.len() {
        assert(x[da.len() as int] == ':');
        assert(x[da.len() as int] == db[da.len() as int]);
        assert(is_digit(db[da.len() as int]));
        assert(false);
    }
    if db.len() < da.len() {
        assert(x[db.len() as int] == ':');
        assert(x[db.len() as int] == da[db.len() as int]);
        assert(is_digit(da[db.len() as int]));
        assert(false);
    }
    assert(da =~= x.take(da.len() as int));
    assert(db =~= x.take(db.len() as int));
    assert(decimal(index_a as nat) =~= x.skip(da.len() as int + 1));
    assert(decimal(index_b as nat) =~= x.skip(db.len() as int + 1));
}

/// What was observed of one entry of the folder that held a locked item.
#[derive(Debug, Clone)]
pub struct SiblingObservation {
    /// The entry's path as listed.
    pub path: String,
    /// Its attribute mask, if it could be read.
    pub attributes: Option<u32>,
    /// Whether it is a folder, if its metadata could be read.
    pub is_directory: Option<bool>,
    /// Its file identity, if it could be computed.
    pub identity: Option<String>,
}

/// Whether an entry is the locked item under a new name: it is not the
/// recorded path itself (up to ASCII case), its attributes can be read and
/// mark no reparse point, its kind matches the recorded type, and its
/// identity is the recorded one.
pub open spec fn sibling_matches(
    entry: SiblingObservation,
    path: Seq<char>,
    expected_type: Seq<char>,
    stored_id: Seq<char>,
) -> bool {
    &&& !spec_eq_ignore_ascii_case(entry.path@, path)
    &&& entry.attributes matches Some(a) && a & crate::file_attributes::REPARSE_POINT == 0
    &&& entry.is_directory matches Some(d) && d == (expected_type == crate::marker::ITEM_TYPE_FOLDER@)
    &&& entry.identity matches Some(id) && id@ == stored_id
}

/// Index of the first matching entry at or after `from`, if any.
pub open spec fn first_sibling_match(
    entries: Seq<SiblingObservation>,
    from: int,
    path: Seq<char>,
    expected_type: Seq<char>,
    stored_id: Seq<char>,
) -> Option<int>
    decreases entries.len() - from,
{
    if from < 0 || from >= entries.len() {
        None
    } else if sibling_matches(entries[from], path, expected_type, stored_id) {
        Some(from)
    } else {
        first_sibling_match(entries, from + 1, path, expected_type, stored_id)
    }
}

/// The new path of a locked item that was renamed inside its folder: the
/// first matching entry, without the extended-length prefix.
pub fn find_renamed_sibling(
    path: &str,
    expected_type: &str,
    stored_id: &str,
    entries: &Vec<SiblingObservation>,
) -> (r: Option<String>)
    ensures
        match first_sibling_match(entries@, 0, path@, expected_type@, stored_id@) {
            Some(i) => r matches Some(p) && p@ == spec_remove_extended_path_prefix(entries@[i].path@),
            None => r is None,
        },
{
    let folder_type = str_chars(crate::marker::ITEM_TYPE_FOLDER);
    let expected_chars = str_chars(expected_type);
    let expects_folder = chars_eq(&expected_chars, &folder_type);
    let stored_chars = str_chars(stored_id);
    let mut i: usize = 0;
    while i < entries.len()
        invariant
            i <= entries.len(),
            expects_folder == (expected_type@ == crate::marker::ITEM_TYPE_FOLDER@),
            stored_chars@ == stored_id@,
            first_sibling_match(entries@, 0, path@, expected_type@, stored_id@)
                == first_sibling_match(entries@, i as int, path@, expected_type@, stored_id@),
        decreases entries.len() - i,
    {
        let entry = &entries[i];
        let mut matches = !eq_ignore_ascii_case(entry.path.as_str(), path);
        if matches {
            matches = match entry.attributes {
                Some(a) => !is_reparse_point(a),
                None => false,
            };
        }
        if matches {
            matches = match entry.is_directory {
                Some(d) => d == expects_folder,
                None => false,
            };
        }
        if matches {
            matches = match &entry.identity {
                Some(id) => {
                    let id_chars = str_chars(id.as_str());
                    chars_eq(&id_chars, &stored_chars)
                },
                None => false,
            };
        }
        if matches {
            let stripped = remove_extended_path_prefix(entry.path.as_str());
            return Some(String::from_str(stripped));
        }
        i = i + 1;
    }
    None
}

// ---------------------------------------------------------------------------
// Choosing the target of a lock
// ---------------------------------------------------------------------------

pub const MSG_SELECT_PATH: &'static str = "请选择要锁定的路径";
pub const MSG_NO_REPARSE: &'static str = "不支持锁定符号链接或联接点，请选择实际文件或文件夹";
pub const MSG_PATH_INACCESSIBLE: &'static str = "路径不存在或无法访问：";
pub const MSG_SELECT_FOLDER: &'static str = "请选择文件夹";
pub const MSG_SELECT_FILE: &'static str = "请选择文件";

/// The outcome of choosing `path` as the target of a lock (or a scan root),
/// given what was read at it: its attribute mask (or the error message from
/// reading it), its canonical path, and whether that is a folder.
pub open spec fn spec_resolve_target_path(
    path: Seq<char>,
    expected_directory: bool,
    attributes: Result<u32, Seq<char>>,
    canonical: Option<Seq<char>>,
    is_directory: Option<bool>,
) -> Result<Seq<char>, Seq<char>> {
    if spec_is_blank(path) {
        Err(MSG_SELECT_PATH@)
    } else {
        match attributes {
            Err(e) => Err(e),
            Ok(a) => if a & crate::file_attributes::REPARSE_POINT != 0 {
                Err(MSG_NO_REPARSE@)
            } else {
                match (canonical, is_directory) {
                    (Some(c), Some(d)) => if d != expected_directory {
                        Err(if expected_directory { MSG_SELECT_FOLDER@ } else { MSG_SELECT_FILE@ })
                    } else {
                        Ok(spec_remove_extended_path_prefix(c))
                    },
                    _ => Err(MSG_PATH_INACCESSIBLE@ + path),
                }
            },
        }
    }
}

pub open spec fn result_view(r: Result<String, String>) -> Result<Seq<char>, Seq<char>> {
    match r {
        Ok(s) => Ok(s@),
        Err(e) => Err(e@),
    }
}

/// Checks a selected path and gives the path to lock: it must not be blank,
/// its attributes must be readable and mark no reparse point, it must exist,
/// and its kind must be the expected one.
pub fn resolve_target_path(
    path: &str,
    expected_directory: bool,
    attributes: Result<u32, String>,
    canonical: Option<String>,
    is_directory: Option<bool>,
) -> (r: Result<String, String>)
    ensures
        result_view(r) == spec_resolve_target_path(
            path@,
            expected_directory,
            match attributes {
                Ok(a) => Ok(a),
                Err(e) => Err(e@),
            },
            match canonical {
                Some(c) => Some(c@),
                None => None,
            },
            is_directory,
        ),
{
    if is_blank(path) {
        return Err(String::from_str(MSG_SELECT_PATH));
    }
    let a = match attributes {
        Ok(a) => a,
        Err(e) => return Err(e),
    };
    if is_reparse_point(a) {
        return Err(String::from_str(MSG_NO_REPARSE));
    }
    match (canonical, is_directory) {
        (Some(c), Some(d)) => {
            if d != expected_directory {
                if expected_directory {
                    Err(String::from_str(MSG_SELECT_FOLDER))
                } else {
                    Err(String::from_str(MSG_SELECT_FILE))
                }
            } else {
                Ok(String::from_str(remove_extended_path_prefix(c.as_str())))
            }
        },
        _ => Err(String::from_str(MSG_PATH_INACCESSIBLE).concat(path)),
    }
}

// ---------------------------------------------------------------------------
// Laws of path handling
// ---------------------------------------------------------------------------

/// Removing the extended-length prefix takes off a leading `\\?\` and
/// nothing else: a path that starts with it is the prefix followed by the
/// result; any other path comes back unchanged.
pub proof fn lemma_prefix_removal_takes_off_only_the_prefix(path: Seq<char>)
    ensures
        (path.len() >= 4 && path[0] == '\\' && path[1] == '\\' && path[2] == '?' && path[3] == '\\') ==> (
        seq!['\\', '\\', '?', '\\'] + spec_remove_extended_path_prefix(path) == path
            && spec_remove_extended_path_prefix(path).len() + 4 == path.len()),
        !(path.len() >= 4 && path[0] == '\\' && path[1] == '\\' && path[2] == '?' && path[3] == '\\')
            ==> spec_remove_extended_path_prefix(path) == path,
{
    if path.len() >= 4 && path[0] == '\\' && path[1] == '\\' && path[2] == '?' && path[3] == '\\' {
        assert(path.take(4) =~= extended_prefix());
        assert(seq!['\\', '\\', '?', '\\'] + path.skip(4) =~= path);
    } else if path.len() >= 4 {
        assert(path.take(4) != extended_prefix()) by {
            if path.take(4) == extended_prefix() {
                assert(path.take(4)[0] == path[0] && path.take(4)[1] == path[1] && path.take(4)[2] == path[2]
                    && path.take(4)[3] == path[3]);
            }
        }
    }
}

/// A lock target is accepted only when it is a real item of the asked kind:
/// the path is not blank, its mask was read and has no reparse flag (0x400),
/// it has a canonical path and its kind is the one asked for; the target is
/// the canonical path without the extended-length prefix. Every such item
/// is accepted, and an item of the other kind is refused.
pub proof fn lemma_target_is_a_real_item_of_the_asked_kind(
    path: Seq<char>,
    expected_directory: bool,
    attributes: Result<u32, Seq<char>>,
    canonical: Option<Seq<char>>,
    is_directory: Option<bool>,
)
    ensures
        spec_resolve_target_path(path, expected_directory, attributes, canonical, is_directory) matches Ok(t) ==> {
            &&& !spec_is_blank(path)
            &&& attributes matches Ok(a) && a & 0x400 == 0
            &&& canonical matches Some(c) && t == spec_remove_extended_path_prefix(c)
            &&& is_directory == Some(expected_directory)
        },
        (!spec_is_blank(path) && attributes is Ok && attributes->Ok_0 & 0x400 == 0 && canonical is Some && is_directory
            == Some(expected_directory)) ==> spec_resolve_target_path(
            path,
            expected_directory,
            attributes,
            canonical,
            is_directory,
        ) == Ok::<Seq<char>, Seq<char>>(spec_remove_extended_path_prefix(canonical->0)),
        (!spec_is_blank(path) && attributes is Ok && attributes->Ok_0 & 0x400 == 0 && canonical is Some && is_directory
            == Some(!expected_directory)) ==> spec_resolve_target_path(
            path,
            expected_directory,
            attributes,
            canonical,
            is_directory,
        ) is Err,
{
}

proof fn lemma_first_sibling_match(
    entries: Seq<SiblingObservation>,
    from: int,
    path: Seq<char>,
    expected_type: Seq<char>,
    stored_id: Seq<char>,
)
    requires
        0 <= from,
    ensures
        first_sibling_match(entries, from, path, expected_type, stored_id) matches Some(i) ==> from <= i
            < entries.len() && sibling_matches(entries[i], path, expected_type, stored_id),
        first_sibling_match(entries, from, path, expected_type, stored_id) is None ==> forall|k: int|
            from <= k < entries.len() ==> !sibling_matches(#[trigger] entries[k], path, expected_type, stored_id),
    decreases entries.len() - from,
{
    if from < entries.len() && !sibling_matches(entries[from], path, expected_type, stored_id) {
        lemma_first_sibling_match(entries, from + 1, path, expected_type, stored_id);
    }
}

/// A renamed item is followed only to an entry that is that item: one other
/// than the recorded path, whose mask was read with no reparse flag (0x400),
/// whose kind is the recorded one (a folder for FOLDER) and whose identity is
/// the recorded identity. When some entry is such an item, one is found.
pub proof fn lemma_renamed_sibling_is_the_item(
    entries: Seq<SiblingObservation>,
    path: Seq<char>,
    expected_type: Seq<char>,
    stored_id: Seq<char>,
)
    ensures
        first_sibling_match(entries, 0, path, expected_type, stored_id) matches Some(i) ==> {
            &&& 0 <= i < entries.len()
            &&& !spec_eq_ignore_ascii_case(entries[i].path@, path)
            &&& entries[i].attributes matches Some(a) && a & 0x400 == 0
            &&& entries[i].is_directory matches Some(d) && (d <==> expected_type == crate::marker::ITEM_TYPE_FOLDER@)
            &&& entries[i].identity matches Some(id) && id@ == stored_id
        },
        (exists|k: int|
            0 <= k < entries.len() && !spec_eq_ignore_ascii_case((#[trigger] entries[k]).path@, path)
                && entries[k].attributes is Some && entries[k].attributes->0 & 0x400 == 0
                && entries[k].is_directory is Some && (entries[k].is_directory->0 <==> expected_type
                == crate::marker::ITEM_TYPE_FOLDER@) && entries[k].identity is Some && entries[k].identity->0@
                == stored_id) ==> first_sibling_match(entries, 0, path, expected_type, stored_id) is Some,
{
    lemma_first_sibling_match(entries, 0, path, expected_type, stored_id);
    if exists|k: int|
        0 <= k < entries.len() && !spec_eq_ignore_ascii_case((#[trigger] entries[k]).path@, path)
            && entries[k].attributes is Some && entries[k].attributes->0 & 0x400 == 0
            && entries[k].is_directory is Some && (entries[k].is_directory->0 <==> expected_type
            == crate::marker::ITEM_TYPE_FOLDER@) && entries[k].identity is Some && entries[k].identity->0@
            == stored_id {
        let k = choose|k: int|
            0 <= k < entries.len() && !spec_eq_ignore_ascii_case((#[trigger] entries[k]).path@, path)
                && entries[k].attributes is Some && entries[k].attributes->0 & 0x400 == 0
                && entries[k].is_directory is Some && (entries[k].is_directory->0 <==> expected_type
                == crate::marker::ITEM_TYPE_FOLDER@) && entries[k].identity is Some && entries[k].identity->0@
                == stored_id;
        assert(sibling_matches(entries[k], path, expected_type, stored_id));
    }
}

/// Deduplication loses no item: every non-blank input path is represented
/// in the result by a path of the same lower-case form (while at most
/// `MAX_BATCH` distinct items are given), and every result path is one of
/// the inputs.
pub proof fn lemma_deduplication_keeps_every_item(paths: Seq<Seq<char>>)
    ensures
        forall|i: int| 0 <= i < spec_deduplicate_paths(paths).len() ==> paths.contains(
            #[trigger] spec_deduplicate_paths(paths)[i],
        ),
        kept_prefix(paths, paths.len() as int).len() <= MAX_BATCH ==> forall|i: int|
            0 <= i < paths.len() && !spec_is_blank(#[trigger] paths[i]) ==> exists|j: int|
                0 <= j < spec_deduplicate_paths(paths).len() && lowercase(spec_deduplicate_paths(paths)[j])
                    == lowercase(paths[i]),
{
    let n = paths.len() as int;
    lemma_kept_prefix_distinct(paths, n);
    let k = kept_prefix(paths, n);
    let d = spec_deduplicate_paths(paths);
    assert forall|i: int| 0 <= i < d.len() implies paths.contains(#[trigger] d[i]) by {
        assert(d[i] == k[i]);
        let j = choose|j: int| 0 <= j < n && #[trigger] k[i] == paths[j];
        assert(paths[j] == d[i]);
    }
    if k.len() <= MAX_BATCH {
        assert(d == k);
        assert forall|i: int| 0 <= i < paths.len() && !spec_is_blank(#[trigger] paths[i]) implies exists|j: int|
            0 <= j < d.len() && lowercase(d[j]) == lowercase(paths[i]) by {
            let x = lowercase(paths[i]);
            lemma_kept_keys(paths, n, x);
            assert(exists|j: int| 0 <= j < n && !spec_is_blank(paths[j]) && #[trigger] lowercase(paths[j]) == x);
            let j = choose|j: int| 0 <= j < keys_of(k).len() && keys_of(k)[j] == x;
            assert(lowercase(d[j]) == x);
        }
    }
}

} // verus!
