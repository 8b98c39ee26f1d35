//! Character-level text operations with exact specifications.
//!
//! Strings are modelled by their `Seq<char>` views. Every operation here is
//! stated over those sequences, so callers can reason about command lines,
//! slugs and SQL fragments without looking at the implementations.
use vstd::prelude::*;
use vstd::string::*;

verus! {

// ---------------------------------------------------------------------
// Specifications
// ---------------------------------------------------------------------

/// `p` is a prefix of `s`.
pub open spec fn has_prefix(s: Seq<char>, p: Seq<char>) -> bool {
    p.len() <= s.len() && s.subrange(0, p.len() as int) == p
}

/// `p` is a suffix of `s`.
pub open spec fn has_suffix(s: Seq<char>, p: Seq<char>) -> bool {
    p.len() <= s.len() && s.subrange(s.len() - p.len(), s.len() as int) == p
}

/// `p` occurs in `s` starting at position `i`.
pub open spec fn occurs_at(s: Seq<char>, p: Seq<char>, i: int) -> bool {
    0 <= i && i + p.len() <= s.len() && s.subrange(i, i + p.len()) == p
}

/// `p` occurs somewhere in `s` (the empty pattern occurs in every string).
pub open spec fn has_infix(s: Seq<char>, p: Seq<char>) -> bool {
    exists|i: int| occurs_at(s, p, i)
}

/// ASCII lower-casing of one character; other characters are unchanged.
pub open spec fn ascii_lower(c: char) -> char {
    if 'A' <= c && c <= 'Z' {
        ((c as u32) + 32) as char
    } else {
        c
    }
}

/// Equality of two strings after ASCII lower-casing (`str::eq_ignore_ascii_case`).
pub open spec fn eq_ignore_ascii_case_spec(a: Seq<char>, b: Seq<char>) -> bool {
    a.len() == b.len() && forall|i: int| 0 <= i < a.len() ==> ascii_lower(#[trigger] a[i]) == ascii_lower(b[i])
}

/// Unicode lower-casing as performed by `str::to_lowercase`.
pub uninterp spec fn lowercase(s: Seq<char>) -> Seq<char>;

/// The Unicode `White_Space` property, as tested by `char::is_whitespace`:
/// U+0009–U+000D, U+0020, U+0085, U+00A0, U+1680, U+2000–U+200A, U+2028,
/// U+2029, U+202F, U+205F and U+3000.
pub open spec fn white_space(c: char) -> bool {
    let n = c as u32;
    ||| 0x09 <= n <= 0x0d
    ||| n == 0x20
    ||| n == 0x85
    ||| n == 0xa0
    ||| n == 0x1680
    ||| 0x2000 <= n <= 0x200a
    ||| n == 0x2028
    ||| n == 0x2029
    ||| n == 0x202f
    ||| n == 0x205f
    ||| n == 0x3000
}

/// Number of leading characters of `s` that are white space.
pub open spec fn leading_ws(s: Seq<char>) -> nat
    decreases s.len(),
{
    if s.len() > 0 && white_space(s[0]) {
        1 + leading_ws(s.drop_first())
    } else {
        0
    }
}

/// `s` with trailing white space removed (`str::trim_end`).
pub open spec fn trim_end_spec(s: Seq<char>) -> Seq<char>
    decreases s.len(),
{
    if s.len() > 0 && white_space(s.last()) {
        trim_end_spec(s.drop_last())
    } else {
        s
    }
}

/// `s` with white space removed at both ends (`str::trim`).
pub open spec fn trim_spec(s: Seq<char>) -> Seq<char> {
    trim_end_spec(s.subrange(leading_ws(s) as int, s.len() as int))
}

/// `s` with every trailing `c` removed (`str::trim_end_matches` with a char).
pub open spec fn trim_end_char_spec(s: Seq<char>, c: char) -> Seq<char>
    decreases s.len(),
{
    if s.len() > 0 && s.last() == c {
        trim_end_char_spec(s.drop_last(), c)
    } else {
        s
    }
}

/// `s` with every trailing copy of `p` removed (`str::trim_end_matches` with a
/// string pattern); an empty pattern removes nothing.
pub open spec fn trim_end_str_spec(s: Seq<char>, p: Seq<char>) -> Seq<char>
    decreases s.len(),
{
    if p.len() > 0 && has_suffix(s, p) {
        trim_end_str_spec(s.subrange(0, s.len() - p.len()), p)
    } else {
        s
    }
}

/// `s` with every leading `c` removed (`str::trim_start_matches` with a char).
pub open spec fn trim_start_char_spec(s: Seq<char>, c: char) -> Seq<char>
    decreases s.len(),
{
    if s.len() > 0 && s[0] == c {
        trim_start_char_spec(s.drop_first(), c)
    } else {
        s
    }
}

/// `"true"` or `"false"`, as `bool` displays.
pub open spec fn bool_text_spec(b: bool) -> Seq<char> {
    if b { "true"@ } else { "false"@ }
}

/// Every occurrence of `from` replaced by `to`.
pub open spec fn replace_char_spec(s: Seq<char>, from: char, to: char) -> Seq<char> {
    s.map_values(|c: char| if c == from { to } else { c })
}

/// The decimal digit character for a value below ten.
pub open spec fn digit_char(d: nat) -> char {
    ((d + 48) as u32) as char
}

/// A character is an ASCII decimal digit.
pub open spec fn is_digit(c: char) -> bool {
    '0' <= c && c <= '9'
}

/// The numeric value of an ASCII digit.
pub open spec fn digit_value(c: char) -> int {
    (c as int) - 48
}

/// Decimal rendering of a natural number, without leading zeros.
pub open spec fn decimal(n: nat) -> Seq<char>
    decreases n,
{
    if n < 10 {
        seq![digit_char(n)]
    } else {
        decimal(n / 10).push(digit_char(n % 10))
    }
}

/// Decimal rendering of a signed integer.
pub open spec fn signed_decimal(n: int) -> Seq<char> {
    if n < 0 {
        seq!['-'] + decimal((-n) as nat)
    } else {
        decimal(n as nat)
    }
}

/// Every character of `s` is a decimal digit.
pub open spec fn all_digits(s: Seq<char>) -> bool {
    forall|i: int| 0 <= i < s.len() ==> is_digit(#[trigger] s[i])
}

/// The value of a string of decimal digits.
pub open spec fn digits_value(s: Seq<char>) -> int
    decreases s.len(),
{
    if s.len() == 0 {
        0
    } else {
        digits_value(s.drop_last()) * 10 + digit_value(s.last())
    }
}

/// What `str::parse::<i64>` accepts and returns: an optional sign followed by
/// one or more ASCII digits whose value fits in an `i64`.
pub open spec fn parse_i64_spec(s: Seq<char>) -> Option<i64> {
    let neg = s.len() > 0 && s[0] == '-';
    let signed = s.len() > 0 && (s[0] == '-' || s[0] == '+');
    let body = if signed { s.drop_first() } else { s };
    if body.len() > 0 && all_digits(body) {
        let v = if neg { -digits_value(body) } else { digits_value(body) };
        if i64::MIN <= v && v <= i64::MAX {
            Some(v as i64)
        } else {
            None
        }
    } else {
        None
    }
}

/// The strings of `parts` joined by `sep`.
pub open spec fn join_spec(parts: Seq<Seq<char>>, sep: Seq<char>) -> Seq<char>
    decreases parts.len(),
{
    if parts.len() == 0 {
        seq![]
    } else if parts.len() == 1 {
        parts[0]
    } else {
        join_spec(parts.drop_last(), sep) + sep + parts.last()
    }
}

// ---------------------------------------------------------------------
// Calls into std whose behaviour vstd does not specify
// ---------------------------------------------------------------------

/// `String::push`: appends one character.
#[verifier::external_body]
pub fn push_char(s: &mut String, c: char)
    ensures
        final(s)@ == old(s)@.push(c),
{
    s.push(c);
}

/// `str::to_lowercase`: the result is the Unicode lower-case mapping of the
/// input, named `lowercase`; the mapping itself is not spelled out here.
#[verifier::external_body]
pub fn to_lowercase(s: &str) -> (r: String)
    ensures
        r@ == lowercase(s@),
{
    s.to_lowercase()
}

// ---------------------------------------------------------------------
// Basic conversions
// ---------------------------------------------------------------------

/// Whether `c` has the Unicode `White_Space` property.
pub fn is_whitespace(c: char) -> (b: bool)
    ensures
        b == white_space(c),
{
    let n = c as u32;
    (0x09 <= n && n <= 0x0d) || n == 0x20 || n == 0x85 || n == 0xa0 || n == 0x1680 || (0x2000 <= n && n <= 0x200a)
        || n == 0x2028 || n == 0x2029 || n == 0x202f || n == 0x205f || n == 0x3000
}

/// The characters of a string.
pub fn chars_of(s: &str) -> (v: Vec<char>)
    ensures
        v@ == s@,
{
    let n = s.unicode_len();
    let mut v: Vec<char> = Vec::new();
    let mut i: usize = 0;
    while i < n
        invariant
            n == s@.len(),
            i <= n,
            v@ == s@.subrange(0, i as int),
        decreases n - i,
    {
        let c = s.get_char(i);
        v.push(c);
        i = i + 1;
        assert(v@ =~= s@.subrange(0, i as int));
    }
    assert(v@ =~= s@);
    v
}

/// A string holding exactly the given characters.
pub fn string_from_chars(cs: &[char]) -> (s: String)
    ensures
        s@ == cs@,
{
    let mut s = String::new();
    let mut i: usize = 0;
    while i < cs.len()
        invariant
            i <= cs@.len(),
            s@ == cs@.subrange(0, i as int),
        decreases cs.len() - i,
    {
        push_char(&mut s, cs[i]);
        i = i + 1;
        assert(s@ =~= cs@.subrange(0, i as int));
    }
    assert(s@ =~= cs@);
    s
}

/// An owned copy of a string slice.
pub fn owned(s: &str) -> (r: String)
    ensures
        r@ == s@,
{
    String::from_str(s)
}

/// `a` followed by `b`.
pub fn cat(a: &str, b: &str) -> (r: String)
    ensures
        r@ == a@ + b@,
{
    let mut r = String::from_str(a);
    r.append(b);
    r
}

/// `a`, `b` and `c` in sequence.
pub fn cat3(a: &str, b: &str, c: &str) -> (r: String)
    ensures
        r@ == a@ + b@ + c@,
{
    let mut r = String::from_str(a);
    r.append(b);
    r.append(c);
    r
}

// ---------------------------------------------------------------------
// Comparisons and searches
// ---------------------------------------------------------------------

/// Whether `s` and `t` hold the same characters.
pub fn str_eq(s: &str, t: &str) -> (b: bool)
    ensures
        b == (s@ == t@),
{
    let a = chars_of(s);
    let c = chars_of(t);
    if a.len() != c.len() {
        return false;
    }
    let mut i: usize = 0;
    while i < a.len()
        invariant
            a@ == s@,
            c@ == t@,
            a.len() == c.len(),
            i <= a.len(),
            forall|j: int| 0 <= j < i ==> a@[j] == c@[j],
        decreases a.len() - i,
    {
        if a[i] != c[i] {
            return false;
        }
        i = i + 1;
    }
    assert(a@ =~= c@);
    true
}

/// Whether `p` occurs in `s` at position `at`.
fn matches_at(s: &[char], p: &[char], at: usize) -> (b: bool)
    requires
        at + p@.len() <= s@.len(),
    ensures
        b == (s@.subrange(at as int, at + p@.len()) == p@),
{
    let n = s.len();
    let mut i: usize = 0;
    while i < p.len()
        invariant
            n == s@.len(),
            at + p@.len() <= s@.len(),
            i <= p@.len(),
            forall|j: int| 0 <= j < i ==> s@[at + j] == p@[j],
        decreases p.len() - i,
    {
        if s[at + i] != p[i] {
            assert(s@.subrange(at as int, at + p@.len())[i as int] != p@[i as int]);
            return false;
        }
        i = i + 1;
    }
    assert(s@.subrange(at as int, at + p@.len()) =~= p@);
    true
}

/// `str::starts_with` with a string pattern.
pub fn starts_with(s: &str, p: &str) -> (b: bool)
    ensures
        b == has_prefix(s@, p@),
{
    let a = chars_of(s);
    let c = chars_of(p);
    if c.len() > a.len() {
        return false;
    }
    matches_at(a.as_slice(), c.as_slice(), 0)
}

/// `str::ends_with` with a string pattern.
pub fn ends_with(s: &str, p: &str) -> (b: bool)
    ensures
        b == has_suffix(s@, p@),
{
    let a = chars_of(s);
    let c = chars_of(p);
    if c.len() > a.len() {
        return false;
    }
    matches_at(a.as_slice(), c.as_slice(), a.len() - c.len())
}

/// `str::contains` with a string pattern.
pub fn contains(s: &str, p: &str) -> (b: bool)
    ensures
        b == has_infix(s@, p@),
{
    let a = chars_of(s);
    let c = chars_of(p);
    if c.len() > a.len() {
        assert(!has_infix(s@, p@));
        return false;
    }
    let last = a.len() - c.len();
    let mut i: usize = 0;
    while i < last
        invariant
            a@ == s@,
            c@ == p@,
            i <= last,
            last == a@.len() - c@.len(),
            forall|j: int| 0 <= j < i ==> !occurs_at(s@, p@, j),
        decreases last - i,
    {
        if matches_at(a.as_slice(), c.as_slice(), i) {
            assert(occurs_at(s@, p@, i as int));
            return true;
        }
        i = i + 1;
    }
    if matches_at(a.as_slice(), c.as_slice(), last) {
        assert(occurs_at(s@, p@, last as int));
        return true;
    }
    assert forall|j: int| !occurs_at(s@, p@, j) by {
        if 0 <= j && j <= last {
            if j < last {
            }
        }
    }
    false
}

/// `str::eq_ignore_ascii_case`.
pub fn eq_ignore_ascii_case(s: &str, t: &str) -> (b: bool)
    ensures
        b == eq_ignore_ascii_case_spec(s@, t@),
{
    let a = chars_of(s);
    let c = chars_of(t);
    if a.len() != c.len() {
        return false;
    }
    let mut i: usize = 0;
    while i < a.len()
        invariant
            a@ == s@,
            c@ == t@,
            a.len() == c.len(),
            i <= a.len(),
            forall|j: int| 0 <= j < i ==> ascii_lower(#[trigger] a@[j]) == ascii_lower(c@[j]),
        decreases a.len() - i,
    {
        if lower_ascii_char(a[i]) != lower_ascii_char(c[i]) {
            return false;
        }
        i = i + 1;
    }
    true
}

/// `char::to_ascii_lowercase`.
pub fn lower_ascii_char(c: char) -> (r: char)
    ensures
        r == ascii_lower(c),
{
    if 'A' <= c && c <= 'Z' {
        let b: u8 = (c as u8) + 32;
        b as char
    } else {
        c
    }
}

// ---------------------------------------------------------------------
// Transformations
// ---------------------------------------------------------------------

/// `str::trim`.
pub fn trim(s: &str) -> (r: String)
    ensures
        r@ == trim_spec(s@),
{
    let a = chars_of(s);
    let mut start: usize = 0;
    while start < a.len() && is_whitespace(a[start])
        invariant
            a@ == s@,
            start <= a@.len(),
            forall|j: int| 0 <= j < start ==> white_space(#[trigger] a@[j]),
        decreases a.len() - start,
    {
        start = start + 1;
    }
    proof {
        lemma_leading_ws(s@, start as nat);
    }
    let mut end: usize = a.len();
    let ghost mid = s@.subrange(start as int, s@.len() as int);
    while end > start && is_whitespace(a[end - 1])
        invariant
            a@ == s@,
            start <= end <= a@.len(),
            mid == s@.subrange(start as int, s@.len() as int),
            trim_end_spec(mid) == trim_end_spec(s@.subrange(start as int, end as int)),
        decreases end,
    {
        assert(s@.subrange(start as int, end - 1) =~= s@.subrange(start as int, end as int).drop_last());
        end = end - 1;
    }
    let r = string_from_chars(&a.as_slice()[start..end]);
    proof {
        let t = s@.subrange(start as int, end as int);
        assert(r@ =~= t);
        if t.len() > 0 {
            assert(t.last() == a@[end - 1]);
        }
    }
    r
}

proof fn lemma_leading_ws(s: Seq<char>, k: nat)
    requires
        k <= s.len(),
        forall|j: int| 0 <= j < k ==> white_space(#[trigger] s[j]),
        k == s.len() || !white_space(s[k as int]),
    ensures
        leading_ws(s) == k,
    decreases k,
{
    if k > 0 {
        let t = s.drop_first();
        assert forall|j: int| 0 <= j < k - 1 implies white_space(#[trigger] t[j]) by {
            assert(t[j] == s[j + 1]);
        }
        if k - 1 < t.len() {
            assert(t[k - 1] == s[k as int]);
        }
        lemma_leading_ws(t, (k - 1) as nat);
    }
}

/// `str::trim_end_matches` with a single character.
pub fn trim_end_char(s: &str, c: char) -> (r: String)
    ensures
        r@ == trim_end_char_spec(s@, c),
{
    let a = chars_of(s);
    let mut end: usize = a.len();
    assert(s@.subrange(0, end as int) =~= s@);
    while end > 0 && a[end - 1] == c
        invariant
            a@ == s@,
            end <= a@.len(),
            trim_end_char_spec(s@, c) == trim_end_char_spec(s@.subrange(0, end as int), c),
        decreases end,
    {
        assert(s@.subrange(0, end - 1) =~= s@.subrange(0, end as int).drop_last());
        end = end - 1;
    }
    let r = string_from_chars(&a.as_slice()[0..end]);
    assert(r@ =~= s@.subrange(0, end as int));
    r
}

/// `str::trim_start_matches` with a single character.
pub fn trim_start_char(s: &str, c: char) -> (r: String)
    ensures
        r@ == trim_start_char_spec(s@, c),
{
    let a = chars_of(s);
    let mut start: usize = 0;
    assert(s@.subrange(0, s@.len() as int) =~= s@);
    while start < a.len() && a[start] == c
        invariant
            a@ == s@,
            start <= a@.len(),
            trim_start_char_spec(s@, c) == trim_start_char_spec(s@.subrange(start as int, s@.len() as int), c),
        decreases a.len() - start,
    {
        assert(s@.subrange(start + 1, s@.len() as int) =~= s@.subrange(start as int, s@.len() as int).drop_first());
        start = start + 1;
    }
    let r = string_from_chars(&a.as_slice()[start..a.len()]);
    assert(r@ =~= s@.subrange(start as int, s@.len() as int));
    r
}

/// `bool::to_string`.
pub fn bool_text(b: bool) -> (r: &'static str)
    ensures
        r@ == bool_text_spec(b),
{
    if b { "true" } else { "false" }
}

/// `str::trim_end_matches` with a non-empty string pattern.
pub fn trim_end_str(s: &str, p: &str) -> (r: String)
    ensures
        r@ == trim_end_str_spec(s@, p@),
{
    let a = chars_of(s);
    let c = chars_of(p);
    if c.len() == 0 {
        return owned(s);
    }
    let mut end: usize = a.len();
    assert(s@.subrange(0, end as int) =~= s@);
    while end >= c.len() && matches_at(a.as_slice(), c.as_slice(), end - c.len())
        invariant
            a@ == s@,
            c@ == p@,
            c@.len() > 0,
            end <= a@.len(),
            trim_end_str_spec(s@, p@) == trim_end_str_spec(s@.subrange(0, end as int), p@),
        decreases end,
    {
        let ghost t = s@.subrange(0, end as int);
        assert(t.subrange(t.len() - p@.len(), t.len() as int) =~= s@.subrange(end - c.len(), end as int));
        assert(t.subrange(0, t.len() - p@.len()) =~= s@.subrange(0, end - c.len()));
        end = end - c.len();
    }
    proof {
        let t = s@.subrange(0, end as int);
        if p@.len() <= t.len() {
            assert(t.subrange(t.len() - p@.len(), t.len() as int) =~= s@.subrange(end - c.len(), end as int));
        }
    }
    let r = string_from_chars(&a.as_slice()[0..end]);
    assert(r@ =~= s@.subrange(0, end as int));
    r
}

/// `str::replace` of one character by another.
pub fn replace_char(s: &str, from: char, to: char) -> (r: String)
    ensures
        r@ == replace_char_spec(s@, from, to),
{
    let a = chars_of(s);
    let mut r = String::new();
    let mut i: usize = 0;
    while i < a.len()
        invariant
            a@ == s@,
            i <= a@.len(),
            r@ == replace_char_spec(s@.subrange(0, i as int), from, to),
        decreases a.len() - i,
    {
        let c = if a[i] == from { to } else { a[i] };
        push_char(&mut r, c);
        i = i + 1;
        assert(r@ =~= replace_char_spec(s@.subrange(0, i as int), from, to));
    }
    assert(s@.subrange(0, a@.len() as int) =~= s@);
    r
}

/// `str::strip_prefix`: the rest of `s` after `p`, when `s` starts with `p`.
pub fn strip_prefix(s: &str, p: &str) -> (r: Option<String>)
    ensures
        r is Some <==> has_prefix(s@, p@),
        r matches Some(t) ==> t@ == s@.subrange(p@.len() as int, s@.len() as int),
{
    if starts_with(s, p) {
        let a = chars_of(s);
        let n = p.unicode_len();
        let t = string_from_chars(&a.as_slice()[n..a.len()]);
        assert(t@ =~= s@.subrange(p@.len() as int, s@.len() as int));
        Some(t)
    } else {
        None
    }
}


/// `str::strip_suffix`: `s` without `p`, when `s` ends with `p`.
pub fn strip_suffix(s: &str, p: &str) -> (r: Option<String>)
    ensures
        r is Some <==> has_suffix(s@, p@),
        r matches Some(t) ==> t@ == s@.subrange(0, s@.len() - p@.len()),
{
    if ends_with(s, p) {
        let a = chars_of(s);
        let n = p.unicode_len();
        let t = string_from_chars(&a.as_slice()[0..a.len() - n]);
        assert(t@ =~= s@.subrange(0, s@.len() - p@.len()));
        Some(t)
    } else {
        None
    }
}

/// Position of the last `c` in `s`.
pub open spec fn last_index_of(s: Seq<char>, c: char) -> Option<int> {
    if exists|i: int| 0 <= i < s.len() && s[i] == c {
        Some(choose|i: int| 0 <= i < s.len() && s[i] == c && forall|j: int| i < j < s.len() ==> s[j] != c)
    } else {
        None
    }
}


/// What `last_index_of` picks: the last position holding `c`.
pub proof fn lemma_last_index_of(s: Seq<char>, c: char)
    ensures
        match last_index_of(s, c) {
            Some(k) => 0 <= k < s.len() && s[k] == c && forall|j: int| k < j < s.len() ==> s[j] != c,
            None => forall|j: int| 0 <= j < s.len() ==> s[j] != c,
        },
    decreases s.len(),
{
    if s.len() > 0 {
        let t = s.drop_last();
        lemma_last_index_of(t, c);
        let w: int = if s.last() == c {
            s.len() - 1
        } else {
            match last_index_of(t, c) {
                Some(k) => k,
                None => -1,
            }
        };
        if w >= 0 {
            assert(0 <= w < s.len() && s[w] == c && forall|j: int| w < j < s.len() ==> s[j] != c) by {
                if s.last() != c {
                    assert forall|j: int| w < j < s.len() implies s[j] != c by {
                        if j < s.len() - 1 {
                            assert(s[j] == t[j]);
                        }
                    }
                }
            }
        } else {
            assert forall|j: int| 0 <= j < s.len() implies s[j] != c by {
                if j < s.len() - 1 {
                    assert(s[j] == t[j]);
                }
            }
        }
    }
}

/// The part of `s` before its last `c` (`&s[..s.rfind(c)?]`).
pub fn before_last(s: &str, c: char) -> (r: Option<String>)
    ensures
        r is None <==> last_index_of(s@, c) is None,
        r matches Some(t) ==> t@ == s@.subrange(0, last_index_of(s@, c)->Some_0),
{
    let cs = chars_of(s);
    let mut i: usize = cs.len();
    while i > 0
        invariant
            cs@ == s@,
            i <= cs@.len(),
            forall|j: int| i <= j < cs@.len() ==> s@[j] != c,
        decreases i,
    {
        if cs[i - 1] == c {
            let t = string_from_chars(&cs.as_slice()[0..i - 1]);
            proof {
                let k = last_index_of(s@, c)->Some_0;
                assert(s@[i - 1] == c);
                assert(k == i - 1) by {
                    if k < i - 1 {
                    } else if k > i - 1 {
                    }
                }
                assert(t@ =~= s@.subrange(0, k));
            }
            return Some(t);
        }
        i = i - 1;
    }
    None
}

/// Strings of `parts` joined by `sep` (`[&str]::join`).
pub fn join(parts: &[&str], sep: &str) -> (r: String)
    ensures
        r@ == join_spec(parts@.map_values(|p: &str| p@), sep@),
{
    let ghost views = parts@.map_values(|p: &str| p@);
    let mut r = String::new();
    let mut i: usize = 0;
    while i < parts.len()
        invariant
            i <= parts@.len(),
            views == parts@.map_values(|p: &str| p@),
            r@ == join_spec(views.subrange(0, i as int), sep@),
        decreases parts.len() - i,
    {
        if i > 0 {
            r.append(sep);
        }
        r.append(parts[i]);
        i = i + 1;
        proof {
            let pre = views.subrange(0, i as int);
            assert(pre.drop_last() =~= views.subrange(0, i - 1));
            if i == 1 {
                assert(views.subrange(0, 0) =~= Seq::<Seq<char>>::empty());
            }
        }
    }
    assert(views.subrange(0, parts@.len() as int) =~= views);
    r
}

/// Owned strings joined by `sep` (`[String]::join`).
pub fn join_strings(parts: &[String], sep: &str) -> (r: String)
    ensures
        r@ == join_spec(parts@.map_values(|p: String| p@), sep@),
{
    let ghost views = parts@.map_values(|p: String| p@);
    let mut r = String::new();
    let mut i: usize = 0;
    while i < parts.len()
        invariant
            i <= parts@.len(),
            views == parts@.map_values(|p: String| p@),
            r@ == join_spec(views.subrange(0, i as int), sep@),
        decreases parts.len() - i,
    {
        if i > 0 {
            r.append(sep);
        }
        r.append(parts[i].as_str());
        i = i + 1;
        proof {
            let pre = views.subrange(0, i as int);
            assert(pre.drop_last() =~= views.subrange(0, i - 1));
            if i == 1 {
                assert(views.subrange(0, 0) =~= Seq::<Seq<char>>::empty());
            }
        }
    }
    assert(views.subrange(0, parts@.len() as int) =~= views);
    r
}

// ---------------------------------------------------------------------
// Numbers
// ---------------------------------------------------------------------

pub proof fn lemma_digit_char(d: nat)
    requires
        d < 10,
    ensures
        is_digit(digit_char(d)),
        digit_value(digit_char(d)) == d,
{
    assert(((d + 48) as u32) as int == d + 48);
}


/// A decimal rendering is a non-empty string of digits, starting with a
/// digit, whose value is the number rendered.
pub proof fn lemma_decimal_digits(n: nat)
    ensures
        decimal(n).len() > 0,
        all_digits(decimal(n)),
        digits_value(decimal(n)) == n,
        is_digit(decimal(n)[0]),
    decreases n,
{
    if n < 10 {
        lemma_digit_char(n);
        assert(decimal(n) =~= seq![digit_char(n)]);
        assert(decimal(n).drop_last() =~= Seq::<char>::empty());
        assert(digits_value(decimal(n).drop_last()) == 0);
        assert(decimal(n).last() == digit_char(n));
    } else {
        lemma_decimal_digits(n / 10);
        lemma_digit_char(n % 10);
        let s = decimal(n);
        assert(s == decimal(n / 10).push(digit_char(n % 10)));
        assert(s.drop_last() =~= decimal(n / 10));
        assert forall|i: int| 0 <= i < s.len() implies is_digit(#[trigger] s[i]) by {
            if i < s.len() - 1 {
                assert(s[i] == decimal(n / 10)[i]);
            }
        }
        assert(s[0] == decimal(n / 10)[0]);
        assert(s.last() == digit_char(n % 10));
        assert(digits_value(s) == digits_value(decimal(n / 10)) * 10 + digit_value(digit_char(n % 10)));
        assert(n == (n / 10) * 10 + n % 10) by (nonlinear_arith);
    }
}

proof fn lemma_digits_value_nonneg(t: Seq<char>)
    requires
        all_digits(t),
    ensures
        digits_value(t) >= 0,
    decreases t.len(),
{
    if t.len() > 0 {
        assert(all_digits(t.drop_last())) by {
            assert forall|i: int| 0 <= i < t.drop_last().len() implies is_digit(#[trigger] t.drop_last()[i]) by {
                assert(t.drop_last()[i] == t[i]);
            }
        }
        lemma_digits_value_nonneg(t.drop_last());
        assert(is_digit(t[t.len() - 1]));
    }
}

proof fn lemma_digits_value_prefix(t: Seq<char>, k: int)
    requires
        all_digits(t),
        0 <= k <= t.len(),
    ensures
        digits_value(t) >= digits_value(t.subrange(0, k)),
    decreases t.len(),
{
    if k < t.len() {
        let u = t.drop_last();
        assert(all_digits(u)) by {
            assert forall|i: int| 0 <= i < u.len() implies is_digit(#[trigger] u[i]) by {
                assert(u[i] == t[i]);
            }
        }
        lemma_digits_value_prefix(u, k);
        assert(u.subrange(0, k) =~= t.subrange(0, k));
        lemma_digits_value_nonneg(u);
        assert(is_digit(t[t.len() - 1]));
        assert(digits_value(t) == digits_value(u) * 10 + digit_value(t.last()));
        assert(digits_value(u) * 10 >= digits_value(u)) by (nonlinear_arith)
            requires
                digits_value(u) >= 0,
        ;
    } else {
        assert(t.subrange(0, k) =~= t);
    }
}

/// `str::parse::<i64>`.
pub fn parse_i64(s: &str) -> (r: Option<i64>)
    ensures
        r == parse_i64_spec(s@),
{
    let a = chars_of(s);
    let n = a.len();
    if n == 0 {
        return None;
    }
    let neg = a[0] == '-';
    let start: usize = if a[0] == '-' || a[0] == '+' { 1 } else { 0 };
    let ghost body = if start == 1 { s@.drop_first() } else { s@ };
    assert(body =~= s@.subrange(start as int, s@.len() as int));
    if start >= n {
        return None;
    }
    let limit: u64 = if neg { 9223372036854775808u64 } else { 9223372036854775807u64 };
    let mut acc: u64 = 0;
    let mut i: usize = start;
    assert(body.subrange(0, 0) =~= Seq::<char>::empty());
    while i < n
        invariant
            a@ == s@,
            n == a@.len(),
            start <= i <= n,
            n > 0,
            (start == 1) == (s@[0] == '-' || s@[0] == '+'),
            start <= 1,
            neg == (s@[0] == '-'),
            limit == (if neg { 9223372036854775808u64 } else { 9223372036854775807u64 }),
            body == (if start == 1 { s@.drop_first() } else { s@ }),
            body == s@.subrange(start as int, s@.len() as int),
            all_digits(body.subrange(0, i - start)),
            acc as int == digits_value(body.subrange(0, i - start)),
            acc <= limit,
        decreases n - i,
    {
        let c = a[i];
        if !('0' <= c && c <= '9') {
            assert(body[i - start] == c);
            assert(!is_digit(body[i - start]));
            return None;
        }
        assert(48 <= (c as u32) <= 57);
        let d: u64 = ((c as u32) - 48) as u64;
        assert(d <= 9);
        let ghost pre = body.subrange(0, i - start);
        let ghost nxt = body.subrange(0, i + 1 - start);
        assert(nxt.drop_last() =~= pre);
        assert(nxt.last() == c);
        if acc > (limit - d) / 10 {
            proof {
                assert(acc * 10 + d > limit) by (nonlinear_arith)
                    requires
                        acc > (limit - d) / 10,
                        d <= 9,
                        limit >= 9,
                ;
                if all_digits(body) {
                    lemma_digits_value_prefix(body, i + 1 - start);
                }
            }
            return None;
        }
        proof {
            assert(acc * 10 + d <= limit) by (nonlinear_arith)
                requires
                    acc <= (limit - d) / 10,
                    d <= 9,
            ;
            assert forall|j: int| 0 <= j < nxt.len() implies is_digit(#[trigger] nxt[j]) by {
                if j < pre.len() {
                    assert(nxt[j] == pre[j]);
                }
            }
        }
        acc = acc * 10 + d;
        i = i + 1;
    }
    assert(body.subrange(0, n - start) =~= body);
    if neg {
        if acc == 9223372036854775808u64 {
            Some(i64::MIN)
        } else {
            Some(-(acc as i64))
        }
    } else {
        Some(acc as i64)
    }
}

/// Decimal rendering of a `u64` (`u64::to_string`).
pub fn u64_to_decimal(n: u64) -> (s: String)
    ensures
        s@ == decimal(n as nat),
    decreases n,
{
    let d: u8 = (n % 10) as u8;
    let c: char = (d + 48) as char;
    proof {
        lemma_digit_char(d as nat);
    }
    assert(c == digit_char((n % 10) as nat));
    if n < 10 {
        let mut s = String::new();
        push_char(&mut s, c);
        assert(s@ =~= seq![digit_char(n as nat)]);
        s
    } else {
        let mut s = u64_to_decimal(n / 10);
        push_char(&mut s, c);
        s
    }
}

/// Decimal rendering of an `i64` (`i64::to_string`).
pub fn i64_to_decimal(n: i64) -> (s: String)
    ensures
        s@ == signed_decimal(n as int),
{
    if n < 0 {
        let m: u64 = if n == i64::MIN { 9223372036854775808u64 } else { (-n) as u64 };
        let mut s = String::new();
        push_char(&mut s, '-');
        let t = u64_to_decimal(m);
        s.append(t.as_str());
        assert(s@ =~= seq!['-'] + decimal((-n) as nat));
        s
    } else {
        u64_to_decimal(n as u64)
    }
}

} // verus!
