use vstd::prelude::*;
use crate::text::{
    find_char, find_char_exec, lemma_find_char, parse_unsigned, parse_unsigned_chars, spec_trim, str_chars,
    string_from_chars, trim_chars,
};

verus! {

/// The fields of `s[start..]` separated by `sep`, as `str::split` yields
/// them (an empty string has one empty field).
pub open spec fn split_from(s: Seq<char>, start: int, sep: char) -> Seq<Seq<char>>
    decreases s.len() + 1 - start,
    via split_from_decreases
{
    if start < 0 || start > s.len() {
        Seq::empty()
    } else {
        let e = find_char(s, start, sep);
        if e < s.len() {
            seq![s.subrange(start, e)] + split_from(s, e + 1, sep)
        } else {
            seq![s.subrange(start, e)]
        }
    }
}

#[via_fn]
proof fn split_from_decreases(s: Seq<char>, start: int, sep: char) {
    if 0 <= start <= s.len() {
        lemma_find_char(s, start, sep);
    }
}

/// Whether a WebView2 version string is four `.`-separated numbers (each an
/// unsigned 64-bit value as `str::parse` reads it), after trimming white
/// space, and not `0.0.0.0`.
pub open spec fn spec_is_valid_webview_version(version: Seq<char>) -> bool {
    let parts = split_from(spec_trim(version), 0, '.');
    &&& parts.len() == 4
    &&& forall|i: int| 0 <= i < 4 ==> parse_unsigned(#[trigger] parts[i], u64::MAX as nat) is Some
    &&& !(forall|i: int| 0 <= i < 4 ==> parse_unsigned(#[trigger] parts[i], u64::MAX as nat) == Some(0nat))
}

pub fn is_valid_webview_version(version: &str) -> (r: bool)
    ensures
        r == spec_is_valid_webview_version(version@),
{
    let raw = str_chars(version);
    let t = trim_chars(&raw);
    let ghost parts = split_from(t@, 0, '.');
    let mut values: Vec<u64> = Vec::new();
    let mut start: usize = 0;
    loop
        invariant_except_break
            start <= t.len(),
            parts == seq_of_parsed_prefix(parts, values@.len() as int) + split_from(t@, start as int, '.'),
        invariant
            t@ == spec_trim(version@),
            parts == split_from(t@, 0, '.'),
            values.len() <= parts.len(),
            forall|i: int|
                0 <= i < values.len() ==> parse_unsigned(#[trigger] parts[i], u64::MAX as nat) == Some(
                    values@[i] as nat,
                ),
        ensures
            parts.len() == values.len(),
            forall|i: int|
                0 <= i < values.len() ==> parse_unsigned(#[trigger] parts[i], u64::MAX as nat) == Some(
                    values@[i] as nat,
                ),
        decreases t.len() + 1 - start,
    {
        let e = find_char_exec(&t, start, '.');
        proof {
            lemma_find_char(t@, start as int, '.');
        }
        let ghost k = values@.len() as int;
        let ghost rest = split_from(t@, start as int, '.');
        assert(rest.len() >= 1 && rest[0] == t@.subrange(start as int, e as int));
        assert(seq_of_parsed_prefix(parts, k).len() == k);
        assert(parts[k] == t@.subrange(start as int, e as int)) by {
            assert(parts[k] == (seq_of_parsed_prefix(parts, k) + rest)[k]);
        }
        match parse_unsigned_chars(&t, start, e, 0xFFFF_FFFF_FFFF_FFFF) {
            None => {
                assert(t@.subrange(start as int, e as int) == parts[k]);
                assert(parse_unsigned(parts[k], u64::MAX as nat) is None);
                proof {
                    if parts.len() == 4 {
                        assert(k < 4);
                    }
                }
                return false;
            },
            Some(v) => {
                values.push(v);
            },
        }
        proof {
            lemma_parsed_prefix_step(parts, k);
        }
        if e == t.len() {
            assert(rest =~= seq![t@.subrange(start as int, e as int)]);
            assert(parts.len() == k + 1);
            assert(parts =~= seq_of_parsed_prefix(parts, values@.len() as int));
            break ;
        }
        assert(rest =~= seq![t@.subrange(start as int, e as int)] + split_from(t@, e + 1, '.'));
        assert(parts =~= seq_of_parsed_prefix(parts, values@.len() as int) + split_from(t@, e + 1, '.'));
        start = e + 1;
    }
    if values.len() != 4 {
        return false;
    }
    let all_zero = values[0] == 0 && values[1] == 0 && values[2] == 0 && values[3] == 0;
    proof {
        if !all_zero {
            let j: int = if values[0] != 0 { 0 } else if values[1] != 0 { 1 } else if values[2] != 0 { 2 } else { 3 };
            assert(parse_unsigned(parts[j], u64::MAX as nat) != Some(0nat));
        }
    }
    !all_zero
}

/// The first `n` fields.
pub open spec fn seq_of_parsed_prefix(parts: Seq<Seq<char>>, n: int) -> Seq<Seq<char>> {
    parts.take(n)
}

proof fn lemma_parsed_prefix_step(parts: Seq<Seq<char>>, k: int)
    requires
        0 <= k < parts.len(),
    ensures
        seq_of_parsed_prefix(parts, k + 1) == seq_of_parsed_prefix(parts, k).push(parts[k]),
{
    assert(parts.take(k + 1) =~= parts.take(k).push(parts[k]));
}


// ---------------------------------------------------------------------------
// The version value read from the registry
// ---------------------------------------------------------------------------

/// `char::from_u32`: as documented, a character exactly when `v` is a
/// Unicode scalar value (at most 0x10FFFF and not a surrogate), and then the
/// character with that code.
#[verifier::external_body]
fn char_from_u32(v: u32) -> (r: Option<char>)
    ensures
        r is Some <==> (v <= 0x10FFFF && !(0xD800 <= v <= 0xDFFF)),
        r matches Some(c) ==> c as u32 == v && c == v as char,
{
    char::from_u32(v)
}

pub open spec fn is_surrogate(u: u16) -> bool {
    0xD800 <= u <= 0xDFFF
}

/// `String::from_utf16_lossy`: UTF-16 decoded, with each unpaired surrogate
/// replaced by U+FFFD.
pub open spec fn utf16_decode_lossy(u: Seq<u16>) -> Seq<char>
    decreases u.len(),
{
    if u.len() == 0 {
        Seq::empty()
    } else if !is_surrogate(u[0]) {
        seq![(u[0] as u32) as char] + utf16_decode_lossy(u.skip(1))
    } else if u[0] <= 0xDBFF && u.len() >= 2 && 0xDC00 <= u[1] <= 0xDFFF {
        seq![(0x10000 + (u[0] - 0xD800) * 0x400 + (u[1] - 0xDC00)) as char] + utf16_decode_lossy(u.skip(2))
    } else {
        seq!['\u{FFFD}'] + utf16_decode_lossy(u.skip(1))
    }
}

/// `s` without its trailing NUL characters.
pub open spec fn trim_end_nuls(s: Seq<char>) -> Seq<char>
    decreases s.len(),
{
    if s.len() > 0 && s.last() == '\0' {
        trim_end_nuls(s.drop_last())
    } else {
        s
    }
}

/// The number of UTF-16 units in a registry value of `size_bytes` bytes that
/// was read into a buffer of `capacity` units.
pub open spec fn value_units(size_bytes: u32, capacity: nat) -> nat {
    let n = (size_bytes / 2) as nat;
    if n < capacity {
        n
    } else {
        capacity
    }
}

/// The WebView2 version that a registry value holds: its UTF-16 text,
/// without trailing NULs and surrounding white space, when that is a valid
/// version.
pub open spec fn spec_registry_version(buffer: Seq<u16>, size_bytes: u32) -> Option<Seq<char>> {
    let text = spec_trim(trim_end_nuls(utf16_decode_lossy(buffer.take(value_units(size_bytes, buffer.len()) as int))));
    if spec_is_valid_webview_version(text) {
        Some(text)
    } else {
        None
    }
}

proof fn lemma_decode_step(u: Seq<u16>, i: int, k: int)
    requires
        0 <= i < i + k <= u.len(),
        1 <= k <= 2,
        k == 2 <==> (is_surrogate(u[i]) && u[i] <= 0xDBFF && i + 1 < u.len() && 0xDC00 <= u[i + 1] <= 0xDFFF),
    ensures
        utf16_decode_lossy(u.skip(i)) == utf16_decode_lossy(u.skip(i)).take(1) + utf16_decode_lossy(u.skip(i + k)),
        utf16_decode_lossy(u.skip(i)).len() >= 1,
{
    let s = u.skip(i);
    assert(s.skip(k) =~= u.skip(i + k));
    assert(s[0] == u[i]);
    if k == 2 {
        assert(s[1] == u[i + 1]);
    }
}

/// Decodes `units` as `String::from_utf16_lossy` does.
fn decode_utf16_lossy(units: &Vec<u16>, n: usize) -> (r: Vec<char>)
    requires
        n <= units.len(),
    ensures
        r@ == utf16_decode_lossy(units@.take(n as int)),
{
    let ghost u = units@.take(n as int);
    let mut out: Vec<char> = Vec::new();
    let mut i: usize = 0;
    assert(u.skip(0) =~= u);
    assert(out@ + utf16_decode_lossy(u) =~= utf16_decode_lossy(u));
    while i < n
        invariant
            n <= units.len(),
            u == units@.take(n as int),
            i <= n,
            utf16_decode_lossy(u) == out@ + utf16_decode_lossy(u.skip(i as int)),
        decreases n - i,
    {
        let w = units[i];
        assert(u[i as int] == w);
        let mut k: usize = 1;
        if !(0xD800 <= w && w <= 0xDFFF) {
            let c = char_from_u32(w as u32);
            match c {
                Some(c) => {
                    assert(c == ((w as u32) as char));
                    out.push(c);
                },
                None => out.push('\u{FFFD}'),
            }
        } else if w <= 0xDBFF && i + 1 < n && 0xDC00 <= units[i + 1] && units[i + 1] <= 0xDFFF {
            let lo = units[i + 1];
            assert(u[i + 1] == lo);
            let v: u32 = 0x10000 + (w as u32 - 0xD800) * 0x400 + (lo as u32 - 0xDC00);
            match char_from_u32(v) {
                Some(c) => {
                    assert(c == (v as char));
                    out.push(c);
                },
                None => out.push('\u{FFFD}'),
            }
            k = 2;
        } else {
            out.push('\u{FFFD}');
        }
        proof {
            lemma_decode_step(u, i as int, k as int);
            let s = u.skip(i as int);
            assert(s[0] == w);
            if k == 2 {
                assert(s[1] == units[i + 1]);
            }
        }
        let ghost before = out@.drop_last();
        assert(utf16_decode_lossy(u.skip(i as int)).take(1) =~= seq![out@.last()]);
        assert(out@ =~= before.push(out@.last()));
        i = i + k;
    }
    assert(u.skip(n as int) =~= Seq::<u16>::empty());
    assert(out@ + Seq::<char>::empty() =~= out@);
    out
}

/// The version string held by a registry value of `size_bytes` bytes read
/// into `buffer`, if it is a valid WebView2 version.
pub fn registry_version_text(buffer: &Vec<u16>, size_bytes: u32) -> (r: Option<String>)
    ensures
        match r {
            Some(v) => spec_registry_version(buffer@, size_bytes) == Some(v@),
            None => spec_registry_version(buffer@, size_bytes) is None,
        },
{
    let half = (size_bytes / 2) as usize;
    let n = if half < buffer.len() {
        half
    } else {
        buffer.len()
    };
    let decoded = decode_utf16_lossy(buffer, n);
    let mut end = decoded.len();
    assert(decoded@.take(end as int) =~= decoded@);
    while end > 0 && decoded[end - 1] == '\0'
        invariant
            end <= decoded.len(),
            trim_end_nuls(decoded@) == trim_end_nuls(decoded@.take(end as int)),
        decreases end,
    {
        assert(decoded@.take(end as int).drop_last() =~= decoded@.take(end - 1));
        end = end - 1;
    }
    let mut kept: Vec<char> = Vec::new();
    let mut i: usize = 0;
    while i < end
        invariant
            end <= decoded.len(),
            i <= end,
            kept@ == decoded@.take(i as int),
        decreases end - i,
    {
        kept.push(decoded[i]);
        i = i + 1;
        assert(kept@ =~= decoded@.take(i as int));
    }
    assert(trim_end_nuls(kept@) == kept@);
    let text = trim_chars(&kept);
    let version = string_from_chars(&text);
    if is_valid_webview_version(version.as_str()) {
        Some(version)
    } else {
        None
    }
}

} // verus!
