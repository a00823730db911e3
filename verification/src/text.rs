use vstd::prelude::*;

verus! {

broadcast use vstd::string::group_string_axioms;

// ---------------------------------------------------------------------------
// Characters and strings
// ---------------------------------------------------------------------------

/// The characters of a string slice, in order.
pub fn str_chars(s: &str) -> (v: Vec<char>)
    ensures
        v@ == s@,
{
    let mut v: Vec<char> = Vec::new();
    for c in iter: s.chars()
        invariant
            v@ == iter.seq().take(iter.index() as int),
    {
        v.push(c);
    }
    assert(v@ =~= s@);
    v
}

/// Builds a `String` from its characters (`Iterator::collect` into `String`).
#[verifier::external_body]
pub(crate) fn string_from_chars(chars: &Vec<char>) -> (s: String)
    ensures
        s@ == chars@,
{
    chars.iter().collect()
}

/// Whether `c` has the Unicode `White_Space` property, which is what
/// `char::is_whitespace` tests.
pub open spec fn spec_is_whitespace(c: char) -> bool {
    let u = c as u32;
    ||| 0x9 <= u <= 0xD
    ||| u == 0x20
    ||| u == 0x85
    ||| u == 0xA0
    ||| u == 0x1680
    ||| 0x2000 <= u <= 0x200A
    ||| u == 0x2028
    ||| u == 0x2029
    ||| u == 0x202F
    ||| u == 0x205F
    ||| u == 0x3000
}

/// Whether `c` is in the Unicode general category `Cc` (control codes),
/// which is what `char::is_control` tests.
pub open spec fn spec_is_control(c: char) -> bool {
    let u = c as u32;
    u <= 0x1F || (0x7F <= u <= 0x9F)
}

#[verifier::when_used_as_spec(spec_is_whitespace)]
pub fn is_whitespace(c: char) -> (r: bool)
    ensures
        r == spec_is_whitespace(c),
{
    let u = c as u32;
    (0x9 <= u && u <= 0xD) || u == 0x20 || u == 0x85 || u == 0xA0 || u == 0x1680 || (0x2000 <= u
        && u <= 0x200A) || u == 0x2028 || u == 0x2029 || u == 0x202F || u == 0x205F || u == 0x3000
}

#[verifier::when_used_as_spec(spec_is_control)]
pub fn is_control(c: char) -> (r: bool)
    ensures
        r == spec_is_control(c),
{
    let u = c as u32;
    u <= 0x1F || (0x7F <= u && u <= 0x9F)
}

/// Whether every character of `s` is white space, that is, whether
/// `s.trim()` is empty.
pub open spec fn spec_is_blank(s: Seq<char>) -> bool {
    forall|i: int| 0 <= i < s.len() ==> spec_is_whitespace(#[trigger] s[i])
}

/// `s.trim().is_empty()`.
pub fn is_blank(s: &str) -> (r: bool)
    ensures
        r == spec_is_blank(s@),
{
    let chars = str_chars(s);
    let mut i: usize = 0;
    while i < chars.len()
        invariant
            chars@ == s@,
            i <= chars.len(),
            forall|j: int| 0 <= j < i ==> spec_is_whitespace(#[trigger] s@[j]),
        decreases chars.len() - i,
    {
        if !is_whitespace(chars[i]) {
            return false;
        }
        i = i + 1;
    }
    true
}

/// Index of the first character of `s` that is not white space, or `s.len()`.
pub open spec fn trim_start_index(s: Seq<char>, from: int) -> int
    decreases s.len() - from,
{
    if from >= s.len() {
        s.len() as int
    } else if spec_is_whitespace(s[from]) {
        trim_start_index(s, from + 1)
    } else {
        from
    }
}

/// One past the index of the last character of `s` (below `to`) that is not
/// white space, or `from`.
pub open spec fn trim_end_index(s: Seq<char>, from: int, to: int) -> int
    decreases to - from,
{
    if to <= from {
        from
    } else if spec_is_whitespace(s[to - 1]) {
        trim_end_index(s, from, to - 1)
    } else {
        to
    }
}

/// `s.trim()`: `s` without its leading and trailing white space.
pub open spec fn spec_trim(s: Seq<char>) -> Seq<char> {
    let a = trim_start_index(s, 0);
    s.subrange(a, trim_end_index(s, a, s.len() as int))
}

proof fn lemma_trim_start_bounds(s: Seq<char>, from: int)
    requires
        0 <= from <= s.len(),
    ensures
        from <= trim_start_index(s, from) <= s.len(),
        forall|i: int| from <= i < trim_start_index(s, from) ==> spec_is_whitespace(#[trigger] s[i]),
        trim_start_index(s, from) < s.len() ==> !spec_is_whitespace(s[trim_start_index(s, from)]),
    decreases s.len() - from,
{
    if from < s.len() && spec_is_whitespace(s[from]) {
        lemma_trim_start_bounds(s, from + 1);
    }
}

proof fn lemma_trim_end_bounds(s: Seq<char>, from: int, to: int)
    requires
        0 <= from <= to <= s.len(),
    ensures
        from <= trim_end_index(s, from, to) <= to,
        forall|i: int| trim_end_index(s, from, to) <= i < to ==> spec_is_whitespace(#[trigger] s[i]),
        trim_end_index(s, from, to) > from ==> !spec_is_whitespace(s[trim_end_index(s, from, to) - 1]),
    decreases to - from,
{
    if to > from && spec_is_whitespace(s[to - 1]) {
        lemma_trim_end_bounds(s, from, to - 1);
    }
}

/// `s.trim()`, as characters.
pub fn trim_chars(s: &Vec<char>) -> (t: Vec<char>)
    ensures
        t@ == spec_trim(s@),
{
    let mut a: usize = 0;
    while a < s.len() && is_whitespace(s[a])
        invariant
            a <= s.len(),
            trim_start_index(s@, 0) == trim_start_index(s@, a as int),
        decreases s.len() - a,
    {
        a = a + 1;
    }
    let mut b: usize = s.len();
    while b > a && is_whitespace(s[b - 1])
        invariant
            a <= b <= s.len(),
            trim_start_index(s@, 0) == a,
            trim_end_index(s@, a as int, s.len() as int) == trim_end_index(s@, a as int, b as int),
        decreases b,
    {
        b = b - 1;
    }
    let mut t: Vec<char> = Vec::new();
    let mut i: usize = a;
    while i < b
        invariant
            a <= i <= b <= s.len(),
            t@ == s@.subrange(a as int, i as int),
        decreases b - i,
    {
        t.push(s[i]);
        i = i + 1;
        assert(t@ =~= s@.subrange(a as int, i as int));
    }
    t
}

// ---------------------------------------------------------------------------
// Decimal numbers
// ---------------------------------------------------------------------------

pub open spec fn is_digit(c: char) -> bool {
    '0' <= c <= '9'
}

pub open spec fn digit_value(c: char) -> nat {
    (c as u32 - '0' as u32) as nat
}

pub open spec fn digit_char(d: nat) -> char {
    (d + '0' as u32) as char
}

pub open spec fn all_digits(s: Seq<char>) -> bool {
    forall|i: int| 0 <= i < s.len() ==> is_digit(#[trigger] s[i])
}

/// The number that a sequence of decimal digits denotes.
pub open spec fn digits_value(s: Seq<char>) -> nat
    decreases s.len(),
{
    if s.len() == 0 {
        0
    } else {
        digits_value(s.drop_last()) * 10 + digit_value(s.last())
    }
}

/// The decimal representation of `n`, as `format!("{n}")` writes it.
pub open spec fn decimal(n: nat) -> Seq<char>
    decreases n,
{
    if n < 10 {
        seq![digit_char(n)]
    } else {
        decimal(n / 10).push(digit_char(n % 10))
    }
}

/// What `str::parse` gives for an unsigned integer type whose largest value
/// is `max`: an optional `+`, then one or more ASCII digits, whose value must
/// not exceed `max`.
pub open spec fn parse_unsigned(s: Seq<char>, max: nat) -> Option<nat> {
    let digits = if s.len() > 0 && s[0] == '+' {
        s.drop_first()
    } else {
        s
    };
    if digits.len() > 0 && all_digits(digits) && digits_value(digits) <= max {
        Some(digits_value(digits))
    } else {
        None
    }
}

/// A prefix of a run of digits denotes no more than the whole run.
pub proof fn lemma_digits_value_prefix_monotone(s: Seq<char>, i: int)
    requires
        0 <= i <= s.len(),
        all_digits(s),
    ensures
        digits_value(s.take(i)) <= digits_value(s),
    decreases s.len() - i,
{
    if i < s.len() {
        lemma_digits_value_prefix_monotone(s, i + 1);
        assert(s.take(i + 1).drop_last() =~= s.take(i));
    } else {
        assert(s.take(i) =~= s);
    }
}

/// Parses `chars[from..to]` as `str::parse::<u64>` (or a narrower unsigned
/// type whose largest value is `max`) would parse it.
pub fn parse_unsigned_chars(chars: &Vec<char>, from: usize, to: usize, max: u64) -> (r: Option<u64>)
    requires
        from <= to <= chars.len(),
        max >= 9,
    ensures
        r matches Some(v) ==> parse_unsigned(chars@.subrange(from as int, to as int), max as nat)
            == Some(v as nat),
        r is None ==> parse_unsigned(chars@.subrange(from as int, to as int), max as nat) is None,
{
    let ghost s = chars@.subrange(from as int, to as int);
    let mut start = from;
    if from < to && chars[from] == '+' {
        start = from + 1;
    }
    let ghost digits = chars@.subrange(start as int, to as int);
    assert(digits =~= (if s.len() > 0 && s[0] == '+' { s.drop_first() } else { s }));
    if start == to {
        return None;
    }
    let mut value: u64 = 0;
    let mut i = start;
    while i < to
        invariant
            from <= start <= i <= to <= chars.len(),
            digits == chars@.subrange(start as int, to as int),
            s == chars@.subrange(from as int, to as int),
            digits == (if s.len() > 0 && s[0] == '+' { s.drop_first() } else { s }),
            digits.len() > 0,
            max >= 9,
            forall|j: int| start <= j < i ==> is_digit(#[trigger] chars@[j]),
            value as nat == digits_value(digits.take(i - start)),
            value <= max,
        decreases to - i,
    {
        let c = chars[i];
        if !('0' <= c && c <= '9') {
            assert(!is_digit(digits[i - start]));
            assert(!all_digits(digits));
            return None;
        }
        let d = (c as u32 - '0' as u32) as u64;
        assert(digits.take(i - start + 1).drop_last() =~= digits.take(i - start));
        if value > (max - d) / 10 {
            proof {
                assert(value * 10 + d > max) by (nonlinear_arith)
                    requires
                        value > (max - d) / 10,
                        d <= 9,
                        d <= max,
                ;
                if all_digits(digits) {
                    lemma_digits_value_prefix_monotone(digits, i - start + 1);
                }
            }
            return None;
        }
        proof {
            assert(value * 10 + d <= max) by (nonlinear_arith)
                requires
                    value <= (max - d) / 10,
                    d <= max,
            ;
        }
        value = value * 10 + d;
        i = i + 1;
    }
    assert(digits.take(to - start) =~= digits);
    Some(value)
}


/// Appends the decimal representation of `n`.
pub fn push_decimal(n: u128, out: &mut Vec<char>)
    ensures
        final(out)@ == old(out)@ + decimal(n as nat),
    decreases n,
{
    if n >= 10 {
        push_decimal(n / 10, out);
    }
    let d: u8 = (n % 10) as u8;
    let c: char = (48u8 + d) as char;
    assert(c == digit_char((n % 10) as nat));
    out.push(c);
    proof {
        if n >= 10 {
            assert(final(out)@ =~= old(out)@ + decimal(n as nat));
        } else {
            assert(final(out)@ =~= old(out)@ + decimal(n as nat));
        }
    }
}

/// The character for a digit value is a digit with that value.
pub proof fn lemma_digit_char(d: nat)
    requires
        d < 10,
    ensures
        is_digit(digit_char(d)),
        digit_value(digit_char(d)) == d,
{
    assert((d + 48) as char as u32 == d + 48);
}

/// The decimal representation is a non-empty run of digits that denotes `n`.
pub proof fn lemma_decimal(n: nat)
    ensures
        decimal(n).len() > 0,
        all_digits(decimal(n)),
        digits_value(decimal(n)) == n,
    decreases n,
{
    lemma_digit_char(n % 10);
    if n >= 10 {
        lemma_decimal(n / 10);
        let d = decimal(n);
        assert(n == (n / 10) * 10 + n % 10);
        assert(d.drop_last() =~= decimal(n / 10));
        assert forall|i: int| 0 <= i < d.len() implies is_digit(#[trigger] d[i]) by {
            if i < d.len() - 1 {
                assert(d[i] == decimal(n / 10)[i]);
            }
        }
        assert(digits_value(d) == digits_value(decimal(n / 10)) * 10 + digit_value(d.last()));
    } else {
        let d = decimal(n);
        assert(d.drop_last() =~= Seq::<char>::empty());
        assert(digits_value(d) == digits_value(d.drop_last()) * 10 + digit_value(d.last()));
    }
}

/// Parsing the decimal representation of a number gives the number back.
pub proof fn lemma_parse_decimal(n: nat, max: nat)
    requires
        n <= max,
    ensures
        parse_unsigned(decimal(n), max) == Some(n),
{
    lemma_decimal(n);
}


// ---------------------------------------------------------------------------
// Splitting into lines and fields
// ---------------------------------------------------------------------------

/// Index of the first `c` in `s` at or after `from`, or `s.len()`.
pub open spec fn find_char(s: Seq<char>, from: int, c: char) -> int
    decreases s.len() - from,
{
    if from >= s.len() {
        s.len() as int
    } else if s[from] == c {
        from
    } else {
        find_char(s, from + 1, c)
    }
}

/// `find_char` gives the first position at or after `from` that holds `c`,
/// or the length when there is none.
pub proof fn lemma_find_char(s: Seq<char>, from: int, c: char)
    requires
        0 <= from <= s.len(),
    ensures
        from <= find_char(s, from, c) <= s.len(),
        forall|i: int| from <= i < find_char(s, from, c) ==> #[trigger] s[i] != c,
        find_char(s, from, c) < s.len() ==> s[find_char(s, from, c)] == c,
    decreases s.len() - from,
{
    if from < s.len() && s[from] != c {
        lemma_find_char(s, from + 1, c);
    }
}

/// The line that starts at `start` and whose terminating `\n` (or the end of
/// `s`) is at `end`; a `\r` just before the `\n` belongs to the terminator.
pub open spec fn line_at(s: Seq<char>, start: int, end: int) -> Seq<char> {
    if end < s.len() && end > start && s[end - 1] == '\r' {
        s.subrange(start, end - 1)
    } else {
        s.subrange(start, end)
    }
}

/// The lines of `s[start..]` as `str::lines` yields them: split at `\n` or
/// `\r\n`, without the terminators; a final terminator ends the last line
/// and starts no new one.
pub open spec fn lines_from(s: Seq<char>, start: int) -> Seq<Seq<char>>
    decreases s.len() + 1 - start,
    via lines_from_decreases
{
    if start < 0 || start >= s.len() {
        Seq::empty()
    } else {
        let e = find_char(s, start, '\n');
        seq![line_at(s, start, e)] + lines_from(s, e + 1)
    }
}

#[via_fn]
proof fn lines_from_decreases(s: Seq<char>, start: int) {
    if 0 <= start < s.len() {
        lemma_find_char(s, start, '\n');
    }
}

/// The character sequences held by a vector of character vectors.
pub open spec fn seqs_view(v: Seq<Vec<char>>) -> Seq<Seq<char>> {
    v.map_values(|l: Vec<char>| l@)
}

/// `str::lines`.
pub open spec fn spec_lines(s: Seq<char>) -> Seq<Seq<char>> {
    lines_from(s, 0)
}

/// A line ended by a `\n` (and not by `\r\n`) is the characters before it.
pub proof fn lemma_lines_from_step(s: Seq<char>, start: int, e: int)
    requires
        0 <= start <= e < s.len(),
        s[e] == '\n',
        forall|i: int| start <= i < e ==> #[trigger] s[i] != '\n',
        e == start || s[e - 1] != '\r',
    ensures
        lines_from(s, start) == seq![s.subrange(start, e)] + lines_from(s, e + 1),
{
    lemma_find_char(s, start, '\n');
    assert(find_char(s, start, '\n') == e);
}

/// No lines start at the end of the text.
pub proof fn lemma_lines_from_end(s: Seq<char>)
    ensures
        lines_from(s, s.len() as int) == Seq::<Seq<char>>::empty(),
{
}

/// Whether two character sequences are equal.
pub fn chars_eq(a: &Vec<char>, b: &Vec<char>) -> (r: bool)
    ensures
        r == (a@ == b@),
{
    if a.len() != b.len() {
        return false;
    }
    let mut i: usize = 0;
    while i < a.len()
        invariant
            a.len() == b.len(),
            i <= a.len(),
            forall|j: int| 0 <= j < i ==> a@[j] == b@[j],
        decreases a.len() - i,
    {
        if a[i] != b[i] {
            return false;
        }
        i = i + 1;
    }
    assert(a@ =~= b@);
    true
}

/// `chars[from..to]` as a new vector.
pub fn sub_chars(chars: &Vec<char>, from: usize, to: usize) -> (v: Vec<char>)
    requires
        from <= to <= chars.len(),
    ensures
        v@ == chars@.subrange(from as int, to as int),
{
    let mut v: Vec<char> = Vec::new();
    let mut i = from;
    while i < to
        invariant
            from <= i <= to <= chars.len(),
            v@ == chars@.subrange(from as int, i as int),
        decreases to - i,
    {
        v.push(chars[i]);
        i = i + 1;
        assert(v@ =~= chars@.subrange(from as int, i as int));
    }
    v
}

/// Index of the first `c` in `chars` at or after `from`, or `chars.len()`.
pub fn find_char_exec(chars: &Vec<char>, from: usize, c: char) -> (r: usize)
    requires
        from <= chars.len(),
    ensures
        r == find_char(chars@, from as int, c),
{
    let mut i = from;
    while i < chars.len() && chars[i] != c
        invariant
            from <= i <= chars.len(),
            find_char(chars@, from as int, c) == find_char(chars@, i as int, c),
        decreases chars.len() - i,
    {
        i = i + 1;
    }
    i
}

/// The lines of `chars`, as `str::lines` yields them.
pub fn split_lines(chars: &Vec<char>) -> (lines: Vec<Vec<char>>)
    ensures
        seqs_view(lines@) == spec_lines(chars@),
{
    let mut lines: Vec<Vec<char>> = Vec::new();
    let mut start: usize = 0;
    while start < chars.len()
        invariant
            start <= chars.len(),
            spec_lines(chars@) == seqs_view(lines@) + lines_from(chars@, start as int),
        decreases chars.len() - start,
    {
        let e = find_char_exec(chars, start, '\n');
        proof {
            lemma_find_char(chars@, start as int, '\n');
        }
        let line = if e < chars.len() && e > start && chars[e - 1] == '\r' {
            sub_chars(chars, start, e - 1)
        } else {
            sub_chars(chars, start, e)
        };
        let ghost old_lines = lines@;
        lines.push(line);
        assert(seqs_view(lines@) =~= seqs_view(old_lines).push(line_at(chars@, start as int, e as int)));
        assert(lines_from(chars@, start as int) == seq![line_at(chars@, start as int, e as int)]
            + lines_from(chars@, e + 1));
        assert(spec_lines(chars@) =~= seqs_view(lines@) + lines_from(chars@, e + 1));
        if e == chars.len() {
            start = chars.len();
        } else {
            start = e + 1;
        }
    }
    assert(seqs_view(lines@) + lines_from(chars@, start as int) =~= seqs_view(lines@));
    lines
}

} // verus!
