//! Small operations on strings, specified over their sequences of characters.

use vstd::prelude::*;
use vstd::string::*;

verus! {

/// The index of the first occurrence of `c` in `s`, or the length of `s`
/// where `c` does not occur.
pub open spec fn position(s: Seq<char>, c: char) -> int
    decreases s.len(),
{
    if s.len() == 0 {
        0
    } else if s[0] == c {
        0
    } else {
        1 + position(s.drop_first(), c)
    }
}

/// `position` is within bounds, nothing before it is `c`, and where it is
/// inside the sequence it holds `c`.
pub proof fn lemma_position(s: Seq<char>, c: char)
    ensures
        0 <= position(s, c) <= s.len(),
        forall|j: int| 0 <= j < position(s, c) ==> s[j] != c,
        position(s, c) < s.len() ==> s[position(s, c)] == c,
        position(s, c) == s.len() <==> !s.contains(c),
    decreases s.len(),
{
    if s.len() == 0 {
    } else if s[0] == c {
    } else {
        let t = s.drop_first();
        lemma_position(t, c);
        assert forall|j: int| 0 <= j < position(s, c) implies s[j] != c by {
            if j > 0 {
                assert(s[j] == t[j - 1]);
            }
        }
        if position(s, c) < s.len() {
            assert(s[position(s, c)] == t[position(t, c)]);
        }
        if s.contains(c) {
            let k = choose|k: int| 0 <= k < s.len() && s[k] == c;
            assert(t[k - 1] == c);
            assert(t.contains(c));
        }
        if t.contains(c) {
            let k = choose|k: int| 0 <= k < t.len() && t[k] == c;
            assert(s[k + 1] == c);
        }
    }
}

/// An index that holds `c` and has no `c` before it is the `position`.
pub proof fn lemma_position_is(s: Seq<char>, c: char, i: int)
    requires
        0 <= i <= s.len(),
        forall|j: int| 0 <= j < i ==> s[j] != c,
        i < s.len() ==> s[i] == c,
    ensures
        position(s, c) == i,
{
    lemma_position(s, c);
    let p = position(s, c);
    if p < i {
        assert(s[p] == c);
    } else if i < p {
        assert(s[i] == c);
    }
}

/// In a sequence made of `a`, then `c`, then `b`, where `a` holds no `c`,
/// the first `c` stands right after `a`: `a` is what stands before it and
/// `b` what stands after it.
pub proof fn lemma_position_joined(a: Seq<char>, c: char, b: Seq<char>)
    requires
        !a.contains(c),
    ensures
        (a + seq![c] + b).contains(c),
        position(a + seq![c] + b, c) == a.len(),
        (a + seq![c] + b).subrange(0, a.len() as int) == a,
        (a + seq![c] + b).subrange(a.len() as int + 1, (a + seq![c] + b).len() as int) == b,
{
    let s = a + seq![c] + b;
    assert(s[a.len() as int] == c);
    assert forall|j: int| 0 <= j < a.len() implies s[j] != c by {
        assert(s[j] == a[j]);
        if a[j] == c {
            assert(a.contains(c));
        }
    }
    lemma_position_is(s, c, a.len() as int);
    assert(s.subrange(0, a.len() as int) =~= a);
    assert(s.subrange(a.len() as int + 1, s.len() as int) =~= b);
}

/// Whether `s` begins with `prefix`.
pub fn starts_with(s: &str, prefix: &str) -> (r: bool)
    ensures
        r == prefix@.is_prefix_of(s@),
{
    let n = s.unicode_len();
    let m = prefix.unicode_len();
    if m > n {
        return false;
    }
    let mut i: usize = 0;
    while i < m
        invariant
            i <= m <= n,
            n == s@.len(),
            m == prefix@.len(),
            forall|j: int| 0 <= j < i ==> s@[j] == prefix@[j],
        decreases m - i,
    {
        if s.get_char(i) != prefix.get_char(i) {
            assert(s@.subrange(0, m as int)[i as int] == s@[i as int]);
            return false;
        }
        i += 1;
    }
    assert(s@.subrange(0, m as int) =~= prefix@);
    true
}

/// Whether `a` and `b` hold the same characters.
pub fn same_text(a: &str, b: &str) -> (r: bool)
    ensures
        r == (a@ == b@),
{
    if a.unicode_len() != b.unicode_len() {
        return false;
    }
    let r = starts_with(a, b);
    proof {
        if r {
            assert(a@.subrange(0, b@.len() as int) =~= a@);
        }
    }
    r
}

/// Splits `s` at the first occurrence of `sep`: what stands before it and
/// what stands after it. `None` where `sep` does not occur.
pub fn split_once<'a>(s: &'a str, sep: char) -> (r: Option<(&'a str, &'a str)>)
    ensures
        !s@.contains(sep) ==> r is None,
        s@.contains(sep) ==> (r matches Some(parts) && parts.0@ == s@.subrange(
            0,
            position(s@, sep),
        ) && parts.1@ == s@.subrange(position(s@, sep) + 1, s@.len() as int)),
{
    let n = s.unicode_len();
    let mut i: usize = 0;
    while i < n
        invariant
            i <= n,
            n == s@.len(),
            forall|j: int| 0 <= j < i ==> s@[j] != sep,
        decreases n - i,
    {
        if s.get_char(i) == sep {
            proof {
                lemma_position_is(s@, sep, i as int);
            }
            let head = s.substring_char(0, i);
            let tail = s.substring_char(i + 1, n);
            return Some((head, tail));
        }
        i += 1;
    }
    None
}

/// How often `c` occurs in `s`.
pub open spec fn occurrences(s: Seq<char>, c: char) -> nat
    decreases s.len(),
{
    if s.len() == 0 {
        0
    } else if s.last() == c {
        occurrences(s.drop_last(), c) + 1
    } else {
        occurrences(s.drop_last(), c)
    }
}

/// The occurrences in a concatenation are those of its two parts.
pub proof fn lemma_occurrences_concat(a: Seq<char>, b: Seq<char>, c: char)
    ensures
        occurrences(a + b, c) == occurrences(a, c) + occurrences(b, c),
    decreases b.len(),
{
    if b.len() == 0 {
        assert(a + b =~= a);
    } else {
        assert((a + b).drop_last() =~= a + b.drop_last());
        assert((a + b).last() == b.last());
        lemma_occurrences_concat(a, b.drop_last(), c);
    }
}

/// A character occurs zero times exactly where the sequence does not
/// contain it.
pub proof fn lemma_occurrences_none(s: Seq<char>, c: char)
    ensures
        occurrences(s, c) == 0 <==> !s.contains(c),
    decreases s.len(),
{
    if s.len() > 0 {
        let t = s.drop_last();
        lemma_occurrences_none(t, c);
        if s.last() == c {
            assert(s[s.len() - 1] == c);
        } else {
            if s.contains(c) {
                let k = choose|k: int| 0 <= k < s.len() && s[k] == c;
                assert(t[k] == c);
            }
            if t.contains(c) {
                let k = choose|k: int| 0 <= k < t.len() && t[k] == c;
                assert(s[k] == c);
            }
        }
    }
}

/// Where `c` occurs in `s`, it occurs once at its first position and
/// otherwise as often as after that position.
pub proof fn lemma_occurrences_after_first(s: Seq<char>, c: char)
    requires
        s.contains(c),
    ensures
        occurrences(s, c) == 1 + occurrences(
            s.subrange(position(s, c) + 1, s.len() as int),
            c,
        ),
{
    lemma_position(s, c);
    let p = position(s, c);
    let head = s.subrange(0, p);
    let mid = s.subrange(p, p + 1);
    let tail = s.subrange(p + 1, s.len() as int);
    assert(s =~= head + mid + tail);
    lemma_occurrences_concat(head + mid, tail, c);
    lemma_occurrences_concat(head, mid, c);
    lemma_occurrences_none(head, c);
    assert(!head.contains(c)) by {
        if head.contains(c) {
            let k = choose|k: int| 0 <= k < head.len() && head[k] == c;
            assert(s[k] == c);
        }
    }
    assert(mid.drop_last() =~= Seq::<char>::empty());
    assert(mid.last() == c);
    assert(occurrences(mid.drop_last(), c) == 0);
    assert(occurrences(mid, c) == 1);
}

/// Splits `s` at `sep` where `sep` occurs in it exactly once: what stands
/// before it and what stands after it. `None` where `sep` occurs not at all
/// or more than once.
pub fn split_single<'a>(s: &'a str, sep: char) -> (r: Option<(&'a str, &'a str)>)
    ensures
        r is Some <==> occurrences(s@, sep) == 1,
        r matches Some(parts) ==> parts.0@ == s@.subrange(0, position(s@, sep)) && parts.1@
            == s@.subrange(position(s@, sep) + 1, s@.len() as int),
{
    proof {
        lemma_occurrences_none(s@, sep);
    }
    match split_once(s, sep) {
        None => None,
        Some((head, tail)) => {
            proof {
                lemma_occurrences_after_first(s@, sep);
                lemma_occurrences_none(tail@, sep);
            }
            match split_once(tail, sep) {
                None => Some((head, tail)),
                Some(_) => None,
            }
        },
    }
}

/// Whether `c` is a decimal digit.
pub open spec fn is_digit(c: char) -> bool {
    '0' <= c <= '9'
}

/// How many digits `s` begins with.
pub open spec fn digits_len(s: Seq<char>) -> nat
    decreases s.len(),
{
    if s.len() > 0 && is_digit(s[0]) {
        1 + digits_len(s.drop_first())
    } else {
        0
    }
}

/// The leading digits are digits, are followed by none, and are within the
/// sequence.
pub proof fn lemma_digits_len(s: Seq<char>)
    ensures
        digits_len(s) <= s.len(),
        forall|j: int| 0 <= j < digits_len(s) ==> is_digit(s[j]),
        digits_len(s) < s.len() ==> !is_digit(s[digits_len(s) as int]),
    decreases s.len(),
{
    if s.len() > 0 && is_digit(s[0]) {
        let t = s.drop_first();
        lemma_digits_len(t);
        assert forall|j: int| 0 <= j < digits_len(s) implies is_digit(s[j]) by {
            if j > 0 {
                assert(s[j] == t[j - 1]);
            }
        }
        if digits_len(s) < s.len() {
            assert(s[digits_len(s) as int] == t[digits_len(t) as int]);
        }
    }
}

/// A prefix of digits that no digit follows is all the leading digits.
pub proof fn lemma_digits_len_is(s: Seq<char>, n: int)
    requires
        0 <= n <= s.len(),
        forall|j: int| 0 <= j < n ==> is_digit(s[j]),
        n < s.len() ==> !is_digit(s[n]),
    ensures
        digits_len(s) == n,
{
    lemma_digits_len(s);
    let d = digits_len(s) as int;
    if d < n {
        assert(is_digit(s[d]));
    } else if n < d {
        assert(is_digit(s[n]));
    }
}

} // verus!
