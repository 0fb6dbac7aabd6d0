//! Character-level text operations on Unicode strings, specified over
//! `Seq<char>`: prefix/suffix tests, first-occurrence search, splitting,
//! whitespace trimming and decimal conversion.

use vstd::prelude::*;

verus! {

// ---------------------------------------------------------------------------
// Specifications
// ---------------------------------------------------------------------------

/// `pat` occurs in `s` starting at index `i`.
pub open spec fn occurs_at(s: Seq<char>, pat: Seq<char>, i: int) -> bool {
    &&& 0 <= i
    &&& i + pat.len() <= s.len()
    &&& s.subrange(i, i + pat.len()) == pat
}

/// `s` starts with `p`.
pub open spec fn has_prefix(s: Seq<char>, p: Seq<char>) -> bool {
    occurs_at(s, p, 0)
}

/// `s` ends with `p`.
pub open spec fn has_suffix(s: Seq<char>, p: Seq<char>) -> bool {
    p.len() <= s.len() && occurs_at(s, p, s.len() - p.len())
}

/// `i` is the leftmost position at which `pat` occurs in `s`.
pub open spec fn is_first_occurrence(s: Seq<char>, pat: Seq<char>, i: int) -> bool {
    &&& occurs_at(s, pat, i)
    &&& forall|j: int| 0 <= j < i ==> !#[trigger] occurs_at(s, pat, j)
}

/// The leftmost position at which `pat` occurs in `s`, if any.
pub open spec fn first_occurrence(s: Seq<char>, pat: Seq<char>) -> Option<int> {
    if exists|i: int| is_first_occurrence(s, pat, i) {
        Some(choose|i: int| is_first_occurrence(s, pat, i))
    } else {
        None
    }
}

/// `s` split at the leftmost occurrence of `sep` into the part before and
/// the part after it, as `str::split_once` does.
pub open spec fn split_once(s: Seq<char>, sep: Seq<char>) -> Option<(Seq<char>, Seq<char>)> {
    match first_occurrence(s, sep) {
        Some(i) => Some((s.subrange(0, i), s.subrange(i + sep.len(), s.len() as int))),
        None => None,
    }
}

/// The pieces of `s` between the non-overlapping occurrences of a
/// non-empty `sep`, scanned from the left, as `str::split` yields them.
pub open spec fn split_all(s: Seq<char>, sep: Seq<char>) -> Seq<Seq<char>>
    decreases s.len(),
{
    if sep.len() == 0 {
        seq![s]
    } else {
        match first_occurrence(s, sep) {
            Some(i) => {
                if 0 <= i && i + sep.len() <= s.len() {
                    seq![s.subrange(0, i)] + split_all(
                        s.subrange(i + sep.len(), s.len() as int),
                        sep,
                    )
                } else {
                    seq![s]
                }
            },
            None => seq![s],
        }
    }
}

/// Concatenation of `pieces` with `sep` between consecutive pieces.
pub open spec fn join(pieces: Seq<Seq<char>>, sep: Seq<char>) -> Seq<char>
    decreases pieces.len(),
{
    if pieces.len() == 0 {
        Seq::empty()
    } else if pieces.len() == 1 {
        pieces[0]
    } else {
        pieces[0] + sep + join(pieces.drop_first(), sep)
    }
}

/// The Unicode `White_Space` property, which `char::is_whitespace` and
/// `str::trim` use.
pub open spec fn is_white_space(c: char) -> bool {
    ||| '\u{9}' <= c <= '\u{d}'
    ||| c == ' '
    ||| c == '\u{85}'
    ||| c == '\u{a0}'
    ||| c == '\u{1680}'
    ||| '\u{2000}' <= c <= '\u{200a}'
    ||| c == '\u{2028}'
    ||| c == '\u{2029}'
    ||| c == '\u{202f}'
    ||| c == '\u{205f}'
    ||| c == '\u{3000}'
}

/// Every character of `s` is white space (so `s.trim()` is empty).
pub open spec fn all_white_space(s: Seq<char>) -> bool {
    forall|i: int| 0 <= i < s.len() ==> is_white_space(#[trigger] s[i])
}

/// `s` without its leading white space.
pub open spec fn trim_start(s: Seq<char>) -> Seq<char>
    decreases s.len(),
{
    if s.len() > 0 && is_white_space(s[0]) {
        trim_start(s.drop_first())
    } else {
        s
    }
}

/// `s` without its trailing white space.
pub open spec fn trim_end(s: Seq<char>) -> Seq<char>
    decreases s.len(),
{
    if s.len() > 0 && is_white_space(s.last()) {
        trim_end(s.drop_last())
    } else {
        s
    }
}

/// `s` without leading and trailing white space, as `str::trim` returns it.
pub open spec fn trim(s: Seq<char>) -> Seq<char> {
    trim_end(trim_start(s))
}

/// `c` is one of the ASCII digits `0`..`9`.
pub open spec fn is_decimal_digit(c: char) -> bool {
    '0' <= c <= '9'
}

/// Every character of `s` is an ASCII digit.
pub open spec fn all_decimal_digits(s: Seq<char>) -> bool {
    forall|i: int| 0 <= i < s.len() ==> is_decimal_digit(#[trigger] s[i])
}

/// The value of the digit character `c`.
pub open spec fn digit_value(c: char) -> int {
    c as int - '0' as int
}

/// The number that the digits `s` spell in base ten.
pub open spec fn decimal_value(s: Seq<char>) -> int
    decreases s.len(),
{
    if s.len() == 0 {
        0
    } else {
        decimal_value(s.drop_last()) * 10 + digit_value(s.last())
    }
}

/// The digits of an unsigned integer literal: `s` without one leading `+`.
pub open spec fn unsigned_digits(s: Seq<char>) -> Seq<char> {
    if s.len() > 0 && s[0] == '+' {
        s.drop_first()
    } else {
        s
    }
}

/// What `s.parse::<usize>()` gives: an optional `+` followed by at least one
/// ASCII digit, whose value fits in `usize`; anything else is an error.
pub open spec fn usize_from_decimal(s: Seq<char>) -> Option<usize> {
    let d = unsigned_digits(s);
    if d.len() > 0 && all_decimal_digits(d) && decimal_value(d) <= usize::MAX {
        Some(decimal_value(d) as usize)
    } else {
        None
    }
}

/// The digit character for `d` in `0..10`.
pub open spec fn digit_char(d: int) -> char {
    if d == 0 {
        '0'
    } else if d == 1 {
        '1'
    } else if d == 2 {
        '2'
    } else if d == 3 {
        '3'
    } else if d == 4 {
        '4'
    } else if d == 5 {
        '5'
    } else if d == 6 {
        '6'
    } else if d == 7 {
        '7'
    } else if d == 8 {
        '8'
    } else {
        '9'
    }
}

/// The decimal digits of `n`, without leading zeros, as `to_string` writes them.
pub open spec fn decimal_chars(n: nat) -> Seq<char>
    decreases n,
{
    if n < 10 {
        seq![digit_char(n as int)]
    } else {
        decimal_chars(n / 10).push(digit_char((n % 10) as int))
    }
}

// ---------------------------------------------------------------------------
// Lemmas
// ---------------------------------------------------------------------------

/// An occurrence in a suffix of `s` is an occurrence in `s`, shifted.
pub proof fn lemma_occurs_in_suffix(s: Seq<char>, pat: Seq<char>, start: int, i: int)
    requires
        0 <= start <= s.len(),
        0 <= i,
    ensures
        occurs_at(s.subrange(start, s.len() as int), pat, i) <==> occurs_at(s, pat, start + i),
{
    let t = s.subrange(start, s.len() as int);
    if i + pat.len() <= t.len() {
        assert(t.subrange(i, i + pat.len()) =~= s.subrange(start + i, start + i + pat.len()));
    }
}

/// The position `i` that satisfies the first-occurrence property is the one
/// that `first_occurrence` names.
pub proof fn lemma_first_occurrence_is(s: Seq<char>, pat: Seq<char>, i: int)
    requires
        is_first_occurrence(s, pat, i),
    ensures
        first_occurrence(s, pat) == Some(i),
{
    let k = choose|k: int| is_first_occurrence(s, pat, k);
    assert(is_first_occurrence(s, pat, k));
    if k < i {
        assert(!occurs_at(s, pat, k));
    } else if i < k {
        assert(!occurs_at(s, pat, i));
    }
}

/// Without any occurrence there is no first one.
pub proof fn lemma_no_occurrence(s: Seq<char>, pat: Seq<char>)
    requires
        forall|j: int| !#[trigger] occurs_at(s, pat, j),
    ensures
        first_occurrence(s, pat) is None,
{
    if exists|i: int| is_first_occurrence(s, pat, i) {
        let k = choose|k: int| is_first_occurrence(s, pat, k);
        assert(occurs_at(s, pat, k));
    }
}

/// When `sep` first occurs at `i`, splitting takes the part before it and
/// goes on after it.
pub proof fn lemma_split_all_step(s: Seq<char>, sep: Seq<char>, i: int)
    requires
        sep.len() > 0,
        is_first_occurrence(s, sep, i),
    ensures
        split_all(s, sep) == seq![s.subrange(0, i)] + split_all(
            s.subrange(i + sep.len(), s.len() as int),
            sep,
        ),
{
    lemma_first_occurrence_is(s, sep, i);
}

/// Leading white space up to `a` is what `trim_start` drops.
pub proof fn lemma_trim_start_at(s: Seq<char>, a: int)
    requires
        0 <= a <= s.len(),
        forall|j: int| 0 <= j < a ==> is_white_space(#[trigger] s[j]),
        a == s.len() || !is_white_space(s[a]),
    ensures
        trim_start(s) == s.subrange(a, s.len() as int),
    decreases a,
{
    if a == 0 {
        assert(s.subrange(0, s.len() as int) =~= s);
    } else {
        assert(is_white_space(s[0]));
        let t = s.drop_first();
        assert forall|j: int| 0 <= j < a - 1 implies is_white_space(#[trigger] t[j]) by {
            assert(t[j] == s[j + 1]);
        }
        lemma_trim_start_at(t, a - 1);
        assert(t.subrange(a - 1, t.len() as int) =~= s.subrange(a, s.len() as int));
    }
}

/// Trailing white space from `b` on is what `trim_end` drops.
pub proof fn lemma_trim_end_at(s: Seq<char>, b: int)
    requires
        0 <= b <= s.len(),
        forall|j: int| b <= j < s.len() ==> is_white_space(#[trigger] s[j]),
        b == 0 || !is_white_space(s[b - 1]),
    ensures
        trim_end(s) == s.subrange(0, b),
    decreases s.len() - b,
{
    if b == s.len() {
        assert(s.subrange(0, b) =~= s);
    } else {
        assert(is_white_space(s.last()));
        let t = s.drop_last();
        assert forall|j: int| b <= j < t.len() implies is_white_space(#[trigger] t[j]) by {
            assert(t[j] == s[j]);
        }
        lemma_trim_end_at(t, b);
        assert(t.subrange(0, b) =~= s.subrange(0, b));
    }
}

/// The value of a prefix of a digit string is at most the value of the whole.
pub proof fn lemma_decimal_prefix_le(d: Seq<char>, k: int)
    requires
        0 <= k <= d.len(),
        all_decimal_digits(d),
    ensures
        0 <= decimal_value(d.take(k)) <= decimal_value(d),
    decreases d.len() - k,
{
    lemma_decimal_nonneg(d.take(k));
    if k < d.len() {
        lemma_decimal_prefix_le(d, k + 1);
        assert(d.take(k + 1).drop_last() =~= d.take(k));
        assert(is_decimal_digit(d[k]));
    } else {
        assert(d.take(k) =~= d);
    }
}

/// Digit strings have non-negative values.
pub proof fn lemma_decimal_nonneg(d: Seq<char>)
    requires
        all_decimal_digits(d),
    ensures
        decimal_value(d) >= 0,
    decreases d.len(),
{
    if d.len() > 0 {
        let t = d.drop_last();
        assert forall|i: int| 0 <= i < t.len() implies is_decimal_digit(#[trigger] t[i]) by {
            assert(t[i] == d[i]);
        }
        lemma_decimal_nonneg(t);
        assert(is_decimal_digit(d[d.len() - 1]));
    }
}

// ---------------------------------------------------------------------------
// Executable operations
// ---------------------------------------------------------------------------

/// `String::push` (std): appends `c` to the end of the string. Trusted: the
/// contract restates the documented behaviour of the std method.
#[verifier::external_body]
pub(crate) fn push_char(s: &mut String, c: char)
    ensures
        final(s)@ == old(s)@.push(c),
{
    s.push(c);
}

/// `String::pop` (std): removes and returns the last character, or returns
/// `None` and leaves the string as it is when it is empty. Trusted: the
/// contract restates the documented behaviour of the std method.
#[verifier::external_body]
pub(crate) fn pop_char(s: &mut String) -> (r: Option<char>)
    ensures
        old(s)@.len() == 0 ==> r is None && final(s)@ == old(s)@,
        old(s)@.len() > 0 ==> r == Some(old(s)@.last()) && final(s)@ == old(s)@.drop_last(),
{
    s.pop()
}

/// The characters of `s`, in order.
pub fn chars_of(s: &str) -> (v: Vec<char>)
    ensures
        v@ == s@,
{
    let mut v: Vec<char> = Vec::new();
    for c in it: s.chars()
        invariant
            v@ == it.seq().take(it.index() as int),
            it.seq() == s@,
    {
        v.push(c);
    }
    v
}

/// Whether `pat` occurs in `s` at position `i`.
pub fn occurs_at_exec(s: &Vec<char>, pat: &Vec<char>, i: usize) -> (r: bool)
    ensures
        r == occurs_at(s@, pat@, i as int),
{
    if i > s.len() || pat.len() > s.len() - i {
        return false;
    }
    let mut k: usize = 0;
    while k < pat.len()
        invariant
            k <= pat.len(),
            i + pat.len() <= s.len(),
            forall|j: int| 0 <= j < k ==> s@[i + j] == pat@[j],
        decreases pat.len() - k,
    {
        if s[i + k] != pat[k] {
            assert(s@.subrange(i as int, i + pat.len())[k as int] != pat@[k as int]);
            return false;
        }
        k += 1;
    }
    assert(s@.subrange(i as int, i + pat.len()) =~= pat@);
    true
}

/// Whether `a` and `b` hold the same characters.
pub fn same_chars(a: &Vec<char>, b: &Vec<char>) -> (r: bool)
    ensures
        r == (a@ == b@),
{
    if a.len() != b.len() {
        return false;
    }
    let r = occurs_at_exec(a, b, 0);
    assert(a@.subrange(0, b@.len() as int) =~= a@);
    r
}

/// Whether `s` starts with `p`.
pub fn starts_with_chars(s: &Vec<char>, p: &Vec<char>) -> (r: bool)
    ensures
        r == has_prefix(s@, p@),
{
    occurs_at_exec(s, p, 0)
}

/// Whether `s` ends with `p`.
pub fn ends_with_chars(s: &Vec<char>, p: &Vec<char>) -> (r: bool)
    ensures
        r == has_suffix(s@, p@),
{
    if p.len() > s.len() {
        return false;
    }
    occurs_at_exec(s, p, s.len() - p.len())
}

/// The leftmost occurrence of `pat` in `s` at or after `start`.
pub fn find_from(s: &Vec<char>, pat: &Vec<char>, start: usize) -> (r: Option<usize>)
    requires
        start <= s.len(),
    ensures
        match r {
            Some(i) => {
                &&& start <= i
                &&& occurs_at(s@, pat@, i as int)
                &&& forall|j: int| start <= j < i ==> !#[trigger] occurs_at(s@, pat@, j)
            },
            None => forall|j: int| start <= j ==> !#[trigger] occurs_at(s@, pat@, j),
        },
{
    if pat.len() > s.len() {
        return None;
    }
    let last = s.len() - pat.len();
    if start > last {
        return None;
    }
    let mut i = start;
    loop
        invariant
            start <= i <= last,
            last + pat.len() == s.len(),
            forall|j: int| start <= j < i ==> !#[trigger] occurs_at(s@, pat@, j),
        decreases last - i,
    {
        if occurs_at_exec(s, pat, i) {
            return Some(i);
        }
        if i == last {
            return None;
        }
        i += 1;
    }
}

/// The leftmost occurrence of `pat` in `s`.
pub fn find_first(s: &Vec<char>, pat: &Vec<char>) -> (r: Option<usize>)
    ensures
        r matches Some(i) ==> first_occurrence(s@, pat@) == Some(i as int),
        r is None ==> first_occurrence(s@, pat@) is None,
{
    let r = find_from(s, pat, 0);
    proof {
        match r {
            Some(i) => lemma_first_occurrence_is(s@, pat@, i as int),
            None => lemma_no_occurrence(s@, pat@),
        }
    }
    r
}

/// The characters of `s` from `from` up to `to`, as a new string.
pub fn substring(s: &str, from: usize, to: usize) -> (r: String)
    requires
        from <= to <= s@.len(),
    ensures
        r@ == s@.subrange(from as int, to as int),
{
    s.substring_char(from, to).to_owned()
}

/// `str::split_once`: the parts of `s` before and after the leftmost
/// occurrence of `sep`.
pub fn split_once_str(s: &str, sep: &str) -> (r: Option<(String, String)>)
    ensures
        match split_once(s@, sep@) {
            Some(p) => r matches Some(q) && q.0@ == p.0 && q.1@ == p.1,
            None => r is None,
        },
{
    let cs = chars_of(s);
    let ps = chars_of(sep);
    match find_first(&cs, &ps) {
        Some(i) => {
            let ghost k = i as int;
            assert(occurs_at(s@, sep@, k)) by {
                assert(first_occurrence(s@, sep@) == Some(k));
                assert(is_first_occurrence(s@, sep@, k));
            }
            assert(i + ps@.len() <= cs@.len());
            assert(i + ps.len() <= cs.len());
            let end = i + ps.len();
            let before = substring(s, 0, i);
            let after = substring(s, end, cs.len());
            Some((before, after))
        },
        None => None,
    }
}

/// `str::split` with a non-empty separator: the pieces between the
/// occurrences of `sep`, from the left.
pub fn split_str(s: &str, sep: &str) -> (pieces: Vec<String>)
    requires
        sep@.len() > 0,
    ensures
        pieces@.map_values(|p: String| p@) == split_all(s@, sep@),
{
    let cs = chars_of(s);
    let ps = chars_of(sep);
    let n = cs.len();
    let mut pieces: Vec<String> = Vec::new();
    let mut start: usize = 0;
    assert(cs@.subrange(0, n as int) =~= cs@);
    assert(pieces@.map_values(|p: String| p@) =~= Seq::<Seq<char>>::empty());
    loop
        invariant
            cs@ == s@,
            ps@ == sep@,
            n == cs@.len(),
            start <= n,
            sep@.len() > 0,
            pieces@.map_values(|p: String| p@) + split_all(cs@.subrange(start as int, n as int), sep@)
                == split_all(s@, sep@),
        decreases n - start,
    {
        let ghost t = cs@.subrange(start as int, n as int);
        let ghost before = pieces@;
        match find_from(&cs, &ps, start) {
            Some(i) => {
                let ghost k = i - start;
                assert(is_first_occurrence(t, sep@, k)) by {
                    lemma_occurs_in_suffix(cs@, sep@, start as int, k);
                    assert forall|j: int| 0 <= j < k implies !#[trigger] occurs_at(t, sep@, j) by {
                        lemma_occurs_in_suffix(cs@, sep@, start as int, j);
                    }
                }
                proof {
                    lemma_split_all_step(t, sep@, k);
                }
                let piece = substring(s, start, i);
                pieces.push(piece);
                assert(t.subrange(0, k) =~= cs@.subrange(start as int, i as int));
                assert(t.subrange(k + sep@.len(), t.len() as int) =~= cs@.subrange(
                    i + ps@.len(),
                    n as int,
                ));
                assert(pieces@.map_values(|p: String| p@) =~= before.map_values(|p: String| p@).push(
                    piece@,
                ));
                assert(pieces@.map_values(|p: String| p@) + split_all(
                    cs@.subrange(i + ps@.len(), n as int),
                    sep@,
                ) =~= before.map_values(|p: String| p@) + split_all(t, sep@));
                start = i + ps.len();
            },
            None => {
                assert forall|j: int| !#[trigger] occurs_at(t, sep@, j) by {
                    if j >= 0 {
                        lemma_occurs_in_suffix(cs@, sep@, start as int, j);
                    }
                }
                proof {
                    lemma_no_occurrence(t, sep@);
                }
                assert(split_all(t, sep@) == seq![t]);
                let piece = substring(s, start, n);
                pieces.push(piece);
                assert(pieces@.map_values(|p: String| p@) =~= before.map_values(|p: String| p@).push(
                    piece@,
                ));
                assert(pieces@.map_values(|p: String| p@) =~= before.map_values(|p: String| p@)
                    + split_all(t, sep@));
                return pieces;
            },
        }
    }
}

/// Whether `c` is white space (`char::is_whitespace`).
pub fn white_space(c: char) -> (r: bool)
    ensures
        r == is_white_space(c),
{
    ('\u{9}' <= c && c <= '\u{d}') || c == ' ' || c == '\u{85}' || c == '\u{a0}' || c
        == '\u{1680}' || ('\u{2000}' <= c && c <= '\u{200a}') || c == '\u{2028}' || c
        == '\u{2029}' || c == '\u{202f}' || c == '\u{205f}' || c == '\u{3000}'
}

/// Whether every character of `s` is white space (`s.trim().is_empty()`).
pub fn is_blank(s: &str) -> (r: bool)
    ensures
        r == all_white_space(s@),
{
    let cs = chars_of(s);
    let mut i: usize = 0;
    while i < cs.len()
        invariant
            cs@ == s@,
            i <= cs.len(),
            forall|j: int| 0 <= j < i ==> is_white_space(#[trigger] cs@[j]),
        decreases cs.len() - i,
    {
        if !white_space(cs[i]) {
            return false;
        }
        i += 1;
    }
    true
}

/// `str::trim`: `s` without leading and trailing white space.
pub fn trim_str(s: &str) -> (r: String)
    ensures
        r@ == trim(s@),
{
    let cs = chars_of(s);
    let n = cs.len();
    let mut a: usize = 0;
    while a < n && white_space(cs[a])
        invariant
            cs@ == s@,
            n == cs@.len(),
            a <= n,
            forall|j: int| 0 <= j < a ==> is_white_space(#[trigger] cs@[j]),
        decreases n - a,
    {
        a += 1;
    }
    let mut b: usize = n;
    while b > a && white_space(cs[b - 1])
        invariant
            cs@ == s@,
            n == cs@.len(),
            a <= b <= n,
            forall|j: int| b <= j < n ==> is_white_space(#[trigger] cs@[j]),
        decreases b - a,
    {
        b -= 1;
    }
    proof {
        lemma_trim_start_at(s@, a as int);
        let t = s@.subrange(a as int, n as int);
        assert forall|j: int| b - a <= j < t.len() implies is_white_space(#[trigger] t[j]) by {
            assert(t[j] == cs@[a + j]);
        }
        if b > a {
            assert(t[b - a - 1] == cs@[b - 1]);
        }
        lemma_trim_end_at(t, b - a);
        assert(t.subrange(0, b - a) =~= s@.subrange(a as int, b as int));
    }
    substring(s, a, b)
}

/// `s.parse::<usize>()`, with the error as `None`.
pub fn parse_usize(s: &str) -> (r: Option<usize>)
    ensures
        r == usize_from_decimal(s@),
{
    let cs = chars_of(s);
    let n = cs.len();
    let start: usize = if n > 0 && cs[0] == '+' {
        1
    } else {
        0
    };
    let ghost d = unsigned_digits(s@);
    assert(d =~= cs@.subrange(start as int, n as int));
    if start == n {
        return None;
    }
    let mut acc: usize = 0;
    let mut i: usize = start;
    while i < n
        invariant
            cs@ == s@,
            n == cs@.len(),
            start <= i <= n,
            d == cs@.subrange(start as int, n as int),
            d == unsigned_digits(s@),
            forall|j: int| 0 <= j < i - start ==> is_decimal_digit(#[trigger] d[j]),
            acc == decimal_value(d.take(i - start)),
        decreases n - i,
    {
        let c = cs[i];
        if !('0' <= c && c <= '9') {
            assert(d[i - start] == c);
            return None;
        }
        assert(d[i - start] == c);
        let digit = (c as u32 - '0' as u32) as usize;
        assert(d.take(i - start + 1).drop_last() =~= d.take(i - start));
        match acc.checked_mul(10) {
            Some(m) => match m.checked_add(digit) {
                Some(v) => {
                    acc = v;
                },
                None => {
                    proof {
                        lemma_all_digits_or_none(s@, i - start + 1);
                    }
                    return None;
                },
            },
            None => {
                proof {
                    lemma_all_digits_or_none(s@, i - start + 1);
                }
                return None;
            },
        }
        i += 1;
    }
    assert(d.take(n - start) =~= d);
    Some(acc)
}

/// When a digit prefix of the literal already exceeds `usize::MAX`, the
/// literal does not parse.
proof fn lemma_all_digits_or_none(s: Seq<char>, k: int)
    requires
        0 < k <= unsigned_digits(s).len(),
        forall|j: int| 0 <= j < k ==> is_decimal_digit(#[trigger] unsigned_digits(s)[j]),
        decimal_value(unsigned_digits(s).take(k)) > usize::MAX,
    ensures
        usize_from_decimal(s) is None,
{
    let d = unsigned_digits(s);
    if all_decimal_digits(d) {
        lemma_decimal_prefix_le(d, k);
    }
}

/// The digit character for `d < 10`.
fn digit_char_exec(d: usize) -> (c: char)
    requires
        d < 10,
    ensures
        c == digit_char(d as int),
{
    if d == 0 {
        '0'
    } else if d == 1 {
        '1'
    } else if d == 2 {
        '2'
    } else if d == 3 {
        '3'
    } else if d == 4 {
        '4'
    } else if d == 5 {
        '5'
    } else if d == 6 {
        '6'
    } else if d == 7 {
        '7'
    } else if d == 8 {
        '8'
    } else {
        '9'
    }
}

/// Appends the decimal digits of `n` to `out`.
pub fn push_decimal(out: &mut String, n: usize)
    ensures
        final(out)@ == old(out)@ + decimal_chars(n as nat),
    decreases n,
{
    if n >= 10 {
        push_decimal(out, n / 10);
    }
    push_char(out, digit_char_exec(n % 10));
    proof {
        if n >= 10 {
            assert(old(out)@ + decimal_chars(n as nat) =~= old(out)@ + decimal_chars(
                (n / 10) as nat,
            ) + seq![digit_char((n % 10) as int)]);
        } else {
            assert(old(out)@ + decimal_chars(n as nat) =~= old(out)@.push(digit_char(n as int)));
        }
    }
}

/// `n.to_string()`: the decimal digits of `n`.
pub fn decimal_string(n: usize) -> (r: String)
    ensures
        r@ == decimal_chars(n as nat),
{
    let mut out = String::new();
    push_decimal(&mut out, n);
    assert(out@ =~= decimal_chars(n as nat));
    out
}

} // verus!

verus! {

/// Splitting is never empty.
proof fn lemma_split_all_nonempty(s: Seq<char>, sep: Seq<char>)
    ensures
        split_all(s, sep).len() >= 1,
    decreases s.len(),
{
    if sep.len() > 0 {
        if let Some(i) = first_occurrence(s, sep) {
            if 0 <= i && i + sep.len() <= s.len() {
                lemma_split_all_nonempty(s.subrange(i + sep.len(), s.len() as int), sep);
            }
        }
    }
}

/// Joining the pieces of a split with the separator gives back the text.
pub proof fn law_join_split(s: Seq<char>, sep: Seq<char>)
    requires
        sep.len() > 0,
    ensures
        join(split_all(s, sep), sep) == s,
    decreases s.len(),
{
    match first_occurrence(s, sep) {
        Some(i) => {
            assert(is_first_occurrence(s, sep, i));
            let rest = s.subrange(i + sep.len(), s.len() as int);
            law_join_split(rest, sep);
            lemma_split_all_nonempty(rest, sep);
            let pieces = split_all(s, sep);
            assert(pieces == seq![s.subrange(0, i)] + split_all(rest, sep));
            assert(pieces.drop_first() =~= split_all(rest, sep));
            assert(s.subrange(i, i + sep.len()) == sep);
            assert(s.subrange(0, i) + sep + rest =~= s);
        },
        None => {},
    }
}

/// The value of the decimal digits of `n` is `n`.
pub proof fn lemma_decimal_chars_value(n: nat)
    ensures
        decimal_chars(n).len() > 0,
        all_decimal_digits(decimal_chars(n)),
        decimal_value(decimal_chars(n)) == n,
    decreases n,
{
    let r = (n % 10) as int;
    assert(digit_value(digit_char(r)) == r);
    assert(is_decimal_digit(digit_char(r)));
    if n >= 10 {
        lemma_decimal_chars_value(n / 10);
        let d = decimal_chars(n);
        assert(d.drop_last() =~= decimal_chars(n / 10));
        assert(d.last() == digit_char(r));
        assert(decimal_value(d) == decimal_value(decimal_chars(n / 10)) * 10 + r);
        assert((n / 10) * 10 + r == n) by (nonlinear_arith)
            requires
                r == n % 10,
        ;
        assert(decimal_value(decimal_chars(n / 10)) == n / 10);
    } else {
        let d = decimal_chars(n);
        assert(d.drop_last() =~= Seq::<char>::empty());
        assert(decimal_value(d.drop_last()) == 0);
        assert(decimal_value(d) == r);
        assert(r == n);
    }
}

/// Writing a `usize` in decimal and parsing it back gives the same number.
pub proof fn law_decimal_round_trip(n: usize)
    ensures
        usize_from_decimal(decimal_chars(n as nat)) == Some(n),
{
    lemma_decimal_chars_value(n as nat);
    let d = decimal_chars(n as nat);
    assert(is_decimal_digit(d[0]));
    assert(unsigned_digits(d) == d);
}

} // verus!

verus! {

/// Splitting at `", "` the names joined with `", "` gives back the names,
/// when there is at least one and none holds `", "`.
pub proof fn law_split_join(pieces: Seq<Seq<char>>)
    requires
        pieces.len() >= 1,
        forall|k: int, j: int| 0 <= k < pieces.len() ==> !#[trigger] occurs_at(pieces[k], ", "@, j),
    ensures
        split_all(join(pieces, ", "@), ", "@) == pieces,
    decreases pieces.len(),
{
    let sep = ", "@;
    reveal_strlit(", ");
    let first = pieces[0];
    if pieces.len() == 1 {
        assert(join(pieces, sep) == first);
        assert forall|j: int| !#[trigger] occurs_at(first, sep, j) by {
            assert(!occurs_at(pieces[0], sep, j));
        }
        lemma_no_occurrence(first, sep);
    } else {
        let rest = pieces.drop_first();
        let tail = join(rest, sep);
        let s = join(pieces, sep);
        assert(s == first + sep + tail);
        let i = first.len() as int;
        assert(s.subrange(i, i + 2) =~= sep);
        assert forall|j: int| 0 <= j < i implies !#[trigger] occurs_at(s, sep, j) by {
            if occurs_at(s, sep, j) {
                if j + 2 <= i {
                    assert(first.subrange(j, j + 2) =~= s.subrange(j, j + 2));
                    assert(occurs_at(pieces[0], sep, j));
                } else {
                    assert(s.subrange(j, j + 2)[1] == s[j + 1]);
                    assert(s[j + 1] == sep[0]);
                }
            }
        }
        assert(is_first_occurrence(s, sep, i));
        lemma_split_all_step(s, sep, i);
        assert(s.subrange(0, i) =~= first);
        assert(s.subrange(i + 2, s.len() as int) =~= tail);
        assert forall|k: int, j: int| 0 <= k < rest.len() implies !#[trigger] occurs_at(
            rest[k],
            sep,
            j,
        ) by {
            assert(rest[k] == pieces[k + 1]);
            assert(!occurs_at(pieces[k + 1], sep, j));
        }
        law_split_join(rest);
        assert(seq![first] + rest =~= pieces);
    }
}

} // verus!
