//! Character-level text operations with exact specifications.
//!
//! Every parser in this crate works on the characters of its input. The
//! functions here convert between `str` / `String` and `Vec<char>`, and give
//! verified versions of trimming, splitting and case-insensitive comparison,
//! each specified over `Seq<char>`.

use vstd::prelude::*;
use vstd::std_specs::iter::IteratorSpec;

verus! {

/// `String::push` of the standard library: appends one character to the end
/// of the string, as its documentation states.
pub assume_specification[ String::push ](s: &mut String, c: char)
    ensures
        final(s)@ == old(s)@.push(c),
;

/// What the standard library's `{:?}` prints for a string: the text between
/// double quotes, with quotes, backslashes and control characters escaped.
pub uninterp spec fn debug_text(s: Seq<char>) -> Seq<char>;

/// `format!("{:?}", s)` of the standard library. The result is a function of
/// the text alone; the contract gives it the name [`debug_text`] and claims
/// nothing else of it.
#[verifier::external_body]
pub(crate) fn debug_quoted(s: &str) -> (r: String)
    ensures
        r@ == debug_text(s@),
{
    format!("{:?}", s)
}

/// The Unicode lowercase form of a text, as the standard library computes
/// it.
pub uninterp spec fn unicode_lowercase(s: Seq<char>) -> Seq<char>;

/// `str::to_lowercase` of the standard library. The result is a function of
/// the text alone; the contract gives it the name [`unicode_lowercase`] and
/// claims nothing else of it.
#[verifier::external_body]
pub(crate) fn to_lowercase(s: &str) -> (r: String)
    ensures
        r@ == unicode_lowercase(s@),
{
    s.to_lowercase()
}

// ----------------------------------------------------------------------------
// Character classes
// ----------------------------------------------------------------------------

/// The characters with the Unicode `White_Space` property.
pub open spec fn is_space(c: char) -> bool {
    let n = c as u32;
    ||| 0x09 <= n <= 0x0D
    ||| n == 0x20
    ||| n == 0x85
    ||| n == 0xA0
    ||| n == 0x1680
    ||| 0x2000 <= n <= 0x200A
    ||| n == 0x2028
    ||| n == 0x2029
    ||| n == 0x202F
    ||| n == 0x205F
    ||| n == 0x3000
}

pub open spec fn is_ascii_digit(c: char) -> bool {
    '0' <= c <= '9'
}

pub open spec fn is_ascii_letter(c: char) -> bool {
    ('a' <= c <= 'z') || ('A' <= c <= 'Z')
}

pub open spec fn is_ascii_upper(c: char) -> bool {
    'A' <= c <= 'Z'
}

/// Lowercase hexadecimal digits: `0-9` and `a-f`.
pub open spec fn is_lower_hex(c: char) -> bool {
    ('0' <= c <= '9') || ('a' <= c <= 'f')
}

/// The ASCII lowercase form of a character; other characters are unchanged.
pub open spec fn ascii_lower(c: char) -> char {
    if is_ascii_upper(c) {
        ((c as u8) + 32) as char
    } else {
        c
    }
}

pub fn is_space_char(c: char) -> (r: bool)
    ensures
        r == is_space(c),
{
    let n: u32 = c as u32;
    (0x09 <= n && n <= 0x0D) || n == 0x20 || n == 0x85 || n == 0xA0 || n == 0x1680 || (0x2000 <= n
        && n <= 0x200A) || n == 0x2028 || n == 0x2029 || n == 0x202F || n == 0x205F || n == 0x3000
}

pub fn is_ascii_digit_char(c: char) -> (r: bool)
    ensures
        r == is_ascii_digit(c),
{
    '0' <= c && c <= '9'
}

pub fn is_ascii_letter_char(c: char) -> (r: bool)
    ensures
        r == is_ascii_letter(c),
{
    ('a' <= c && c <= 'z') || ('A' <= c && c <= 'Z')
}

pub fn is_lower_hex_char(c: char) -> (r: bool)
    ensures
        r == is_lower_hex(c),
{
    ('0' <= c && c <= '9') || ('a' <= c && c <= 'f')
}

pub fn ascii_lower_char(c: char) -> (r: char)
    ensures
        r == ascii_lower(c),
{
    if 'A' <= c && c <= 'Z' {
        let b: u8 = c as u8;
        (b + 32) as char
    } else {
        c
    }
}

// ----------------------------------------------------------------------------
// Conversions
// ----------------------------------------------------------------------------

/// The characters of a string slice, in order.
pub fn chars_of(s: &str) -> (v: Vec<char>)
    ensures
        v@ == s@,
{
    let mut v: Vec<char> = Vec::new();
    let mut it = s.chars();
    loop
        invariant
            it.obeys_prophetic_iter_laws(),
            it.decrease() is Some,
            v@ + it.remaining() == s@,
        ensures
            v@ == s@,
        decreases it.decrease()->0,
    {
        match it.next() {
            Some(c) => {
                v.push(c);
            },
            None => {
                break ;
            },
        }
    }
    v
}

/// A string made of the given characters, in order.
pub fn string_of(v: &Vec<char>) -> (s: String)
    ensures
        s@ == v@,
{
    let mut s = String::new();
    let mut i: usize = 0;
    while i < v.len()
        invariant
            i <= v.len(),
            s@ == v@.take(i as int),
        decreases v.len() - i,
    {
        s.push(v[i]);
        i += 1;
    }
    s
}

/// The characters of `v` from index `from` up to, not including, `to`.
pub fn sub_vec(v: &Vec<char>, from: usize, to: usize) -> (r: Vec<char>)
    requires
        from <= to <= v.len(),
    ensures
        r@ == v@.subrange(from as int, to as int),
{
    let mut r: Vec<char> = Vec::new();
    let mut i: usize = from;
    while i < to
        invariant
            from <= i <= to <= v.len(),
            r@ == v@.subrange(from as int, i as int),
        decreases to - i,
    {
        r.push(v[i]);
        i += 1;
    }
    r
}

/// Appends the characters of `tail` to `v`.
pub fn push_chars(v: &mut Vec<char>, tail: &Vec<char>)
    ensures
        final(v)@ == old(v)@ + tail@,
{
    let mut i: usize = 0;
    while i < tail.len()
        invariant
            i <= tail.len(),
            v@ == old(v)@ + tail@.take(i as int),
        decreases tail.len() - i,
    {
        v.push(tail[i]);
        i += 1;
    }
}

/// Appends the characters of the string slice `tail` to `v`.
pub fn push_str(v: &mut Vec<char>, tail: &str)
    ensures
        final(v)@ == old(v)@ + tail@,
{
    let t = chars_of(tail);
    push_chars(v, &t);
}

/// Appends to `v` what `{:?}` prints for the text `t`.
pub fn push_quoted(v: &mut Vec<char>, t: &Vec<char>)
    ensures
        final(v)@ == old(v)@ + debug_text(t@),
{
    let s = string_of(t);
    let q = debug_quoted(s.as_str());
    push_str(v, q.as_str());
}

/// A copy of a list of texts.
pub fn clone_strings(v: &Vec<String>) -> (r: Vec<String>)
    ensures
        r.deep_view() == v.deep_view(),
{
    let mut r: Vec<String> = Vec::new();
    let mut i: usize = 0;
    while i < v.len()
        invariant
            i <= v.len(),
            r.len() == i,
            forall|j: int| 0 <= j < i ==> (#[trigger] r@[j])@ == v@[j]@,
        decreases v.len() - i,
    {
        r.push(v[i].clone());
        i += 1;
    }
    assert(r.deep_view() =~= v.deep_view());
    r
}

/// A copy of a list of pairs of texts.
pub fn clone_pairs(v: &Vec<(String, String)>) -> (r: Vec<(String, String)>)
    ensures
        r.deep_view() == v.deep_view(),
{
    let mut r: Vec<(String, String)> = Vec::new();
    let mut i: usize = 0;
    while i < v.len()
        invariant
            i <= v.len(),
            r.len() == i,
            forall|j: int| 0 <= j < i ==> (#[trigger] r@[j]).deep_view() == v@[j].deep_view(),
        decreases v.len() - i,
    {
        r.push((v[i].0.clone(), v[i].1.clone()));
        i += 1;
    }
    assert(r.deep_view() =~= v.deep_view());
    r
}

/// A copy of an optional text.
pub fn clone_option(o: &Option<String>) -> (r: Option<String>)
    ensures
        r.deep_view() == o.deep_view(),
        r == *o,
{
    match o {
        Some(s) => Some(s.clone()),
        None => None,
    }
}

/// Whether two character vectors hold the same characters.
pub fn chars_eq(a: &Vec<char>, b: &Vec<char>) -> (r: bool)
    ensures
        r == (a@ == b@),
{
    if a.len() != b.len() {
        return false;
    }
    let mut i: usize = 0;
    while i < a.len()
        invariant
            i <= a.len(),
            a.len() == b.len(),
            a@.take(i as int) == b@.take(i as int),
        decreases a.len() - i,
    {
        if a[i] != b[i] {
            return false;
        }
        assert(a@.take(i + 1) == a@.take(i as int).push(a@[i as int]));
        assert(b@.take(i + 1) == b@.take(i as int).push(b@[i as int]));
        i += 1;
    }
    assert(a@ == a@.take(a.len() as int));
    assert(b@ == b@.take(b.len() as int));
    true
}

/// Whether the characters of `a` are those of the string slice `b`.
pub fn chars_eq_str(a: &Vec<char>, b: &str) -> (r: bool)
    ensures
        r == (a@ == b@),
{
    let bv = chars_of(b);
    chars_eq(a, &bv)
}

// ----------------------------------------------------------------------------
// Case-insensitive comparison
// ----------------------------------------------------------------------------

/// Two texts are equal when ASCII letters are compared without regard to
/// case.
pub open spec fn eq_ignore_ascii_case(a: Seq<char>, b: Seq<char>) -> bool {
    &&& a.len() == b.len()
    &&& forall|i: int| 0 <= i < a.len() ==> ascii_lower(#[trigger] a[i]) == ascii_lower(b[i])
}

pub fn eq_ignore_case(a: &Vec<char>, b: &Vec<char>) -> (r: bool)
    ensures
        r == eq_ignore_ascii_case(a@, b@),
{
    if a.len() != b.len() {
        return false;
    }
    let mut i: usize = 0;
    while i < a.len()
        invariant
            i <= a.len(),
            a.len() == b.len(),
            forall|j: int| 0 <= j < i ==> ascii_lower(#[trigger] a@[j]) == ascii_lower(b@[j]),
        decreases a.len() - i,
    {
        if ascii_lower_char(a[i]) != ascii_lower_char(b[i]) {
            return false;
        }
        i += 1;
    }
    true
}

pub fn eq_ignore_case_str(a: &Vec<char>, b: &str) -> (r: bool)
    ensures
        r == eq_ignore_ascii_case(a@, b@),
{
    let bv = chars_of(b);
    eq_ignore_case(a, &bv)
}

// ----------------------------------------------------------------------------
// Trimming
// ----------------------------------------------------------------------------

/// `s` without its leading white space.
pub open spec fn trim_start(s: Seq<char>) -> Seq<char>
    decreases s.len(),
{
    if s.len() > 0 && is_space(s[0]) {
        trim_start(s.drop_first())
    } else {
        s
    }
}

/// `s` without its trailing white space.
pub open spec fn trim_end(s: Seq<char>) -> Seq<char>
    decreases s.len(),
{
    if s.len() > 0 && is_space(s.last()) {
        trim_end(s.drop_last())
    } else {
        s
    }
}

/// `s` without leading and trailing white space.
pub open spec fn trimmed(s: Seq<char>) -> Seq<char> {
    trim_end(trim_start(s))
}

/// A text that trimming leaves unchanged.
pub open spec fn is_trimmed(s: Seq<char>) -> bool {
    s.len() > 0 ==> !is_space(s[0]) && !is_space(s.last())
}

pub proof fn lemma_trim_end_shape(s: Seq<char>)
    ensures
        trim_end(s).len() <= s.len(),
        trim_end(s) == s.take(trim_end(s).len() as int),
        trim_end(s).len() > 0 ==> !is_space(trim_end(s).last()),
    decreases s.len(),
{
    if s.len() > 0 && is_space(s.last()) {
        lemma_trim_end_shape(s.drop_last());
        assert(s.drop_last().take(trim_end(s).len() as int) == s.take(trim_end(s).len() as int));
    } else {
        assert(s == s.take(s.len() as int));
    }
}

pub proof fn lemma_trim_start_shape(s: Seq<char>)
    ensures
        trim_start(s).len() <= s.len(),
        trim_start(s) == s.skip(s.len() - trim_start(s).len()),
        trim_start(s).len() > 0 ==> !is_space(trim_start(s)[0]),
    decreases s.len(),
{
    if s.len() > 0 && is_space(s[0]) {
        lemma_trim_start_shape(s.drop_first());
        let k = s.len() - trim_start(s).len();
        assert(s.drop_first().skip(k - 1) == s.skip(k));
    } else {
        assert(s == s.skip(0));
    }
}

/// Trimming yields a trimmed text, and a trimmed text is a fixed point.
pub proof fn lemma_trimmed_is_trimmed(s: Seq<char>)
    ensures
        is_trimmed(trimmed(s)),
        trimmed(s).len() <= s.len(),
{
    lemma_trim_start_shape(s);
    let t = trim_start(s);
    lemma_trim_end_shape(t);
    let u = trim_end(t);
    if u.len() > 0 {
        assert(u[0] == t[0]);
    }
}

pub proof fn lemma_trimmed_fixed(s: Seq<char>)
    requires
        is_trimmed(s),
    ensures
        trimmed(s) == s,
{
}

/// Removes leading and trailing white space.
pub fn trim(v: &Vec<char>) -> (r: Vec<char>)
    ensures
        r@ == trimmed(v@),
{
    let n = v.len();
    let mut start: usize = 0;
    assert(v@.subrange(0, n as int) == v@);
    while start < n && is_space_char(v[start])
        invariant
            n == v.len(),
            start <= n,
            trim_start(v@) == trim_start(v@.subrange(start as int, n as int)),
        decreases n - start,
    {
        assert(v@.subrange(start as int, n as int).drop_first() == v@.subrange(
            start as int + 1,
            n as int,
        ));
        start += 1;
    }
    assert(trim_start(v@) == v@.subrange(start as int, n as int));
    let mut end: usize = n;
    while end > start && is_space_char(v[end - 1])
        invariant
            n == v.len(),
            start <= end <= n,
            trimmed(v@) == trim_end(v@.subrange(start as int, end as int)),
        decreases end - start,
    {
        assert(v@.subrange(start as int, end as int).drop_last() == v@.subrange(
            start as int,
            end as int - 1,
        ));
        end -= 1;
    }
    sub_vec(v, start, end)
}

// ----------------------------------------------------------------------------
// Searching and splitting
// ----------------------------------------------------------------------------

/// The index of the first occurrence of `c` in `s`, or -1 when there is none.
pub open spec fn first_index(s: Seq<char>, c: char) -> int
    decreases s.len(),
{
    if s.len() == 0 {
        -1
    } else if s[0] == c {
        0
    } else {
        let r = first_index(s.drop_first(), c);
        if r < 0 {
            -1
        } else {
            r + 1
        }
    }
}

pub open spec fn contains_char(s: Seq<char>, c: char) -> bool {
    exists|i: int| 0 <= i < s.len() && s[i] == c
}

pub proof fn lemma_first_index(s: Seq<char>, c: char)
    ensures
        -1 <= first_index(s, c) < s.len(),
        first_index(s, c) >= 0 ==> s[first_index(s, c)] == c,
        forall|j: int| 0 <= j < s.len() && (j < first_index(s, c) || first_index(s, c) < 0) ==> s[j]
            != c,
    decreases s.len(),
{
    if s.len() == 0 {
    } else if s[0] == c {
    } else {
        lemma_first_index(s.drop_first(), c);
        let r = first_index(s.drop_first(), c);
        assert forall|j: int|
            0 <= j < s.len() && (j < first_index(s, c) || first_index(s, c) < 0) implies s[j]
            != c by {
            if j > 0 {
                assert(s[j] == s.drop_first()[j - 1]);
            }
        }
    }
}

/// The first index is the one position that holds `c` with no `c` before it.
pub proof fn lemma_first_index_is(s: Seq<char>, c: char, k: int)
    requires
        0 <= k < s.len(),
        s[k] == c,
        forall|j: int| 0 <= j < k ==> s[j] != c,
    ensures
        first_index(s, c) == k,
{
    lemma_first_index(s, c);
}

pub proof fn lemma_first_index_none(s: Seq<char>, c: char)
    requires
        forall|j: int| 0 <= j < s.len() ==> s[j] != c,
    ensures
        first_index(s, c) == -1,
{
    lemma_first_index(s, c);
}

/// The pieces of `s` between occurrences of `sep`. There is always at least
/// one piece, and no piece contains `sep`.
pub open spec fn split_on(s: Seq<char>, sep: char) -> Seq<Seq<char>>
    decreases s.len(),
    via split_on_decreases
{
    let i = first_index(s, sep);
    if i < 0 {
        seq![s]
    } else {
        seq![s.take(i)] + split_on(s.skip(i + 1), sep)
    }
}

#[via_fn]
proof fn split_on_decreases(s: Seq<char>, sep: char) {
    lemma_first_index(s, sep);
}

/// `s` cut at the first occurrence of `sep`: the text before it and the text
/// after it.
pub open spec fn split_once(s: Seq<char>, sep: char) -> Option<(Seq<char>, Seq<char>)> {
    let i = first_index(s, sep);
    if i < 0 {
        None
    } else {
        Some((s.take(i), s.skip(i + 1)))
    }
}

/// `s` cut at the first occurrence of `sep` into at most two pieces.
pub open spec fn split_in_two(s: Seq<char>, sep: char) -> Seq<Seq<char>> {
    match split_once(s, sep) {
        None => seq![s],
        Some((a, b)) => seq![a, b],
    }
}

pub open spec fn trim_each(parts: Seq<Seq<char>>) -> Seq<Seq<char>> {
    Seq::new(parts.len(), |i: int| trimmed(parts[i]))
}

/// The view of a vector of character vectors.
pub open spec fn parts_view(parts: Seq<Vec<char>>) -> Seq<Seq<char>> {
    Seq::new(parts.len(), |i: int| parts[i]@)
}

/// The position of the first `c` at or after `from`.
pub fn find_char(v: &Vec<char>, from: usize, c: char) -> (r: Option<usize>)
    requires
        from <= v.len(),
    ensures
        match r {
            Some(k) => from <= k < v.len() && first_index(v@.skip(from as int), c) == k - from,
            None => first_index(v@.skip(from as int), c) == -1,
        },
{
    let mut i: usize = from;
    while i < v.len()
        invariant
            from <= i <= v.len(),
            forall|j: int| from <= j < i ==> v@[j] != c,
        decreases v.len() - i,
    {
        if v[i] == c {
            proof {
                lemma_first_index_is(v@.skip(from as int), c, i - from);
            }
            return Some(i);
        }
        i += 1;
    }
    proof {
        lemma_first_index_none(v@.skip(from as int), c);
    }
    None
}

pub fn split_once_at(v: &Vec<char>, sep: char) -> (r: Option<(Vec<char>, Vec<char>)>)
    ensures
        match r {
            Some((a, b)) => split_once(v@, sep) == Some((a@, b@)),
            None => split_once(v@, sep) is None,
        },
{
    assert(v@.skip(0) == v@);
    match find_char(v, 0, sep) {
        Some(k) => {
            let a = sub_vec(v, 0, k);
            let b = sub_vec(v, k + 1, v.len());
            Some((a, b))
        },
        None => None,
    }
}

/// Splits at every occurrence of `sep`.
pub fn split(v: &Vec<char>, sep: char) -> (r: Vec<Vec<char>>)
    ensures
        parts_view(r@) == split_on(v@, sep),
        r.len() >= 1,
{
    let mut parts: Vec<Vec<char>> = Vec::new();
    let mut from: usize = 0;
    assert(v@.skip(0) == v@);
    loop
        invariant_except_break
            from <= v.len(),
            split_on(v@, sep) == parts_view(parts@) + split_on(v@.skip(from as int), sep),
        ensures
            parts_view(parts@) == split_on(v@, sep),
            parts.len() >= 1,
        decreases v.len() - from,
    {
        let ghost before = parts_view(parts@);
        let ghost rest = v@.skip(from as int);
        match find_char(v, from, sep) {
            Some(k) => {
                let piece = sub_vec(v, from, k);
                parts.push(piece);
                proof {
                    assert(rest.take(k - from) == v@.subrange(from as int, k as int));
                    assert(rest.skip(k - from + 1) == v@.skip(k + 1));
                    assert(parts_view(parts@) == before + seq![rest.take(k - from)]);
                }
                from = k + 1;
            },
            None => {
                let piece = sub_vec(v, from, v.len());
                parts.push(piece);
                proof {
                    assert(rest == v@.subrange(from as int, v.len() as int));
                    assert(parts_view(parts@) == before + seq![rest]);
                }
                break ;
            },
        }
    }
    parts
}

/// Trims every piece.
pub fn trim_all(parts: &Vec<Vec<char>>) -> (r: Vec<Vec<char>>)
    ensures
        parts_view(r@) == trim_each(parts_view(parts@)),
        r.len() == parts.len(),
{
    let mut r: Vec<Vec<char>> = Vec::new();
    let mut i: usize = 0;
    while i < parts.len()
        invariant
            i <= parts.len(),
            r.len() == i,
            forall|j: int| 0 <= j < i ==> (#[trigger] r@[j])@ == trimmed(parts@[j]@),
        decreases parts.len() - i,
    {
        let t = trim(&parts[i]);
        r.push(t);
        i += 1;
    }
    assert(parts_view(r@) == trim_each(parts_view(parts@)));
    r
}

// ----------------------------------------------------------------------------
// Decimal numbers
// ----------------------------------------------------------------------------

pub open spec fn all_digits(s: Seq<char>) -> bool {
    forall|i: int| 0 <= i < s.len() ==> is_ascii_digit(#[trigger] s[i])
}

pub open spec fn digit_value(c: char) -> nat {
    (c as u32 - '0' as u32) as nat
}

/// The number that a run of decimal digits stands for.
pub open spec fn decimal_value(s: Seq<char>) -> nat
    decreases s.len(),
{
    if s.len() == 0 {
        0
    } else {
        decimal_value(s.drop_last()) * 10 + digit_value(s.last())
    }
}

/// The decimal digits of `n`, without leading zeros; `0` is written `"0"`.
pub open spec fn decimal_text(n: nat) -> Seq<char>
    decreases n,
{
    if n < 10 {
        seq![digit_char(n)]
    } else {
        decimal_text(n / 10).push(digit_char(n % 10))
    }
}

pub open spec fn digit_char(d: nat) -> char
    recommends
        d < 10,
{
    ((d + '0' as u32) as u8) as char
}

/// Writing a number and reading it back gives the number.
pub proof fn lemma_decimal_round_trip(n: nat)
    ensures
        all_digits(decimal_text(n)),
        decimal_text(n).len() >= 1,
        decimal_value(decimal_text(n)) == n,
    decreases n,
{
    if n < 10 {
        let s = seq![digit_char(n)];
        assert(s.drop_last() =~= Seq::<char>::empty());
        assert(decimal_value(s.drop_last()) == 0);
    } else {
        lemma_decimal_round_trip(n / 10);
        let s = decimal_text(n / 10).push(digit_char(n % 10));
        assert(s.drop_last() =~= decimal_text(n / 10));
    }
}

/// A longer run of digits stands for a number at least as large as any of
/// its prefixes.
pub proof fn lemma_decimal_value_prefix(s: Seq<char>, k: int)
    requires
        0 <= k <= s.len(),
    ensures
        decimal_value(s.take(k)) <= decimal_value(s),
    decreases s.len() - k,
{
    if k == s.len() {
        assert(s.take(k) == s);
    } else {
        lemma_decimal_value_prefix(s, k + 1);
        assert(s.take(k + 1).drop_last() == s.take(k));
        assert(decimal_value(s.take(k + 1)) >= decimal_value(s.take(k)) * 10) by {
            reveal_with_fuel(decimal_value, 1);
        }
    }
}

/// What the standard library accepts as an unsigned 16-bit decimal number:
/// an optional `+`, then one or more ASCII digits whose value fits.
pub open spec fn parse_u16(s: Seq<char>) -> Option<u16> {
    let body = if s.len() > 0 && s[0] == '+' {
        s.drop_first()
    } else {
        s
    };
    if body.len() > 0 && all_digits(body) && decimal_value(body) <= 0xFFFF {
        Some(decimal_value(body) as u16)
    } else {
        None
    }
}

pub fn read_u16(v: &Vec<char>) -> (r: Option<u16>)
    ensures
        r == parse_u16(v@),
{
    let n = v.len();
    let start: usize = if n > 0 && v[0] == '+' {
        1
    } else {
        0
    };
    let ghost body = v@.skip(start as int);
    assert(start == 1 ==> v@.drop_first() == body);
    assert(start == 0 ==> v@ == body);
    assert(parse_u16(v@) == if body.len() > 0 && all_digits(body) && decimal_value(body) <= 0xFFFF {
        Some(decimal_value(body) as u16)
    } else {
        None
    });
    if start == n {
        return None;
    }
    let mut value: u32 = 0;
    let mut i: usize = start;
    while i < n
        invariant
            n == v.len(),
            start <= i <= n,
            body == v@.skip(start as int),
            parse_u16(v@) == if body.len() > 0 && all_digits(body) && decimal_value(body) <= 0xFFFF {
                Some(decimal_value(body) as u16)
            } else {
                None
            },
            all_digits(body.take(i - start)),
            value == decimal_value(body.take(i - start)),
            value <= 0xFFFF,
        decreases n - i,
    {
        let c = v[i];
        if !is_ascii_digit_char(c) {
            assert(!is_ascii_digit(body[i - start]));
            return None;
        }
        let d: u32 = c as u32 - '0' as u32;
        let next: u32 = value * 10 + d;
        proof {
            assert(body.take(i - start + 1).drop_last() == body.take(i - start));
            assert(body.take(i - start + 1).last() == c);
            assert(next == decimal_value(body.take(i - start + 1)));
            assert forall|j: int| 0 <= j < i - start + 1 implies is_ascii_digit(
                #[trigger] body.take(i - start + 1)[j],
            ) by {
                if j < i - start {
                    assert(body.take(i - start)[j] == body.take(i - start + 1)[j]);
                }
            }
        }
        if next > 0xFFFF {
            proof {
                lemma_decimal_value_prefix(body, i - start + 1);
            }
            return None;
        }
        value = next;
        i += 1;
    }
    assert(body.take(n - start) == body);
    Some(value as u16)
}

/// The decimal digits of `n`.
pub fn write_decimal(n: u64) -> (r: Vec<char>)
    ensures
        r@ == decimal_text(n as nat),
    decreases n,
{
    if n < 10 {
        let mut r: Vec<char> = Vec::new();
        let d: u8 = n as u8 + 48;
        r.push(d as char);
        r
    } else {
        let mut r = write_decimal(n / 10);
        let d: u8 = (n % 10) as u8 + 48;
        r.push(d as char);
        r
    }
}

} // verus!
