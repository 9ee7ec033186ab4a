//! Character-level helpers on string views.

use vstd::prelude::*;

verus! {

/// Whether `p` is a prefix of `s`.
pub open spec fn has_prefix(s: Seq<char>, p: Seq<char>) -> bool {
    p.len() <= s.len() && s.subrange(0, p.len() as int) == p
}

/// Whether `p` is a suffix of `s`.
pub open spec fn has_suffix(s: Seq<char>, p: Seq<char>) -> bool {
    p.len() <= s.len() && s.subrange(s.len() - p.len(), s.len() as int) == p
}

/// Compares two strings character by character.
pub fn str_eq(a: &str, b: &str) -> (r: bool)
    ensures
        r == (a@ == b@),
{
    let n = a.unicode_len();
    if n != b.unicode_len() {
        return false;
    }
    let mut i: usize = 0;
    while i < n
        invariant
            n == a@.len(),
            n == b@.len(),
            i <= n,
            forall|j: int| 0 <= j < i ==> a@[j] == b@[j],
        decreases n - i,
    {
        if a.get_char(i) != b.get_char(i) {
            return false;
        }
        i += 1;
    }
    assert(a@ =~= b@);
    true
}

/// Whether `s` starts with `p`.
pub fn starts_with(s: &str, p: &str) -> (r: bool)
    ensures
        r == has_prefix(s@, p@),
{
    let n = s.unicode_len();
    let m = p.unicode_len();
    if m > n {
        return false;
    }
    str_eq(s.substring_char(0, m), p)
}

/// Whether `s` ends with `p`.
pub fn ends_with(s: &str, p: &str) -> (r: bool)
    ensures
        r == has_suffix(s@, p@),
{
    let n = s.unicode_len();
    let m = p.unicode_len();
    if m > n {
        return false;
    }
    str_eq(s.substring_char(n - m, n), p)
}

/// Whether `c` is an ASCII decimal digit.
pub open spec fn is_digit(c: char) -> bool {
    '0' <= c && c <= '9'
}

/// Whether `c` is an ASCII letter.
pub open spec fn is_letter(c: char) -> bool {
    ('a' <= c && c <= 'z') || ('A' <= c && c <= 'Z')
}

/// Whether every character of `s` is an ASCII digit.
pub open spec fn all_digits(s: Seq<char>) -> bool {
    forall|i: int| 0 <= i < s.len() ==> is_digit(#[trigger] s[i])
}

/// The value of a string of decimal digits, read most significant first.
pub open spec fn digits_value(s: Seq<char>) -> nat
    decreases s.len(),
{
    if s.len() == 0 {
        0
    } else {
        digits_value(s.drop_last()) * 10 + ((s.last() as nat) - ('0' as nat)) as nat
    }
}

/// The end of the run of characters, starting at `start`, that are digits
/// (`digit`) or letters (`!digit`).
pub open spec fn class_run(s: Seq<char>, start: int, digit: bool) -> int
    decreases s.len() - start,
{
    if 0 <= start < s.len() && (if digit { is_digit(s[start]) } else { is_letter(s[start]) }) {
        class_run(s, start + 1, digit)
    } else {
        start
    }
}

/// The first index at or after `start` that holds `c`, or the length of `s`.
pub open spec fn next_index(s: Seq<char>, c: char, start: int) -> int
    decreases s.len() - start,
{
    if start >= s.len() {
        s.len() as int
    } else if s[start] == c {
        start
    } else {
        next_index(s, c, start + 1)
    }
}

/// A string of digits is worth at least any of its prefixes.
pub proof fn lemma_digits_prefix(s: Seq<char>, k: int)
    requires
        all_digits(s),
        0 <= k <= s.len(),
    ensures
        digits_value(s.subrange(0, k)) <= digits_value(s),
    decreases s.len(),
{
    if k < s.len() {
        let t = s.drop_last();
        assert(s.subrange(0, k) =~= t.subrange(0, k));
        lemma_digits_prefix(t, k);
    } else {
        assert(s.subrange(0, k) =~= s);
    }
}

/// Reads the digits `s[from..to]` as a number, or `None` where it exceeds `usize`.
pub fn parse_digits(s: &str, from: usize, to: usize) -> (r: Option<usize>)
    requires
        from <= to <= s@.len(),
        all_digits(s@.subrange(from as int, to as int)),
    ensures
        r == (if digits_value(s@.subrange(from as int, to as int)) <= usize::MAX {
            Some(digits_value(s@.subrange(from as int, to as int)) as usize)
        } else {
            None
        }),
{
    let ghost t = s@.subrange(from as int, to as int);
    let mut v: usize = 0;
    let mut i: usize = from;
    assert(t.subrange(0, 0) =~= Seq::<char>::empty());
    while i < to
        invariant
            from <= i <= to <= s@.len(),
            t == s@.subrange(from as int, to as int),
            all_digits(t),
            v as nat == digits_value(t.subrange(0, i - from)),
        decreases to - i,
    {
        let c = s.get_char(i);
        assert(c == t[i - from]);
        let d = (c as u32 - '0' as u32) as usize;
        let ghost u = t.subrange(0, i + 1 - from);
        assert(u.drop_last() =~= t.subrange(0, i - from));
        assert(digits_value(u) == v * 10 + d);
        if v > (usize::MAX - d) / 10 {
            proof {
                lemma_digits_prefix(t, i + 1 - from);
            }
            return None;
        }
        v = v * 10 + d;
        i += 1;
    }
    assert(t.subrange(0, to - from) =~= t);
    Some(v)
}

/// Whether `s` is what `usize::from_str` accepts: an optional `+` and at least one digit.
pub open spec fn is_decimal(s: Seq<char>) -> bool {
    sign_len(s) < s.len() && all_digits(s.subrange(sign_len(s), s.len() as int))
}

/// The length of the optional leading `+`.
pub open spec fn sign_len(s: Seq<char>) -> int {
    if s.len() > 0 && s[0] == '+' {
        1
    } else {
        0
    }
}

/// The number that a decimal string stands for.
pub open spec fn decimal_value(s: Seq<char>) -> nat {
    digits_value(s.subrange(sign_len(s), s.len() as int))
}

/// Reads an unsigned decimal number as `usize::from_str` does.
pub open spec fn parsed_usize(s: Seq<char>) -> Option<usize> {
    if is_decimal(s) && decimal_value(s) <= usize::MAX {
        Some(decimal_value(s) as usize)
    } else {
        None
    }
}

/// Parses an unsigned decimal number; `None` where the text is not one or it
/// does not fit.
pub fn parse_usize(s: &str) -> (r: Option<usize>)
    ensures
        r == parsed_usize(s@),
{
    let n = s.unicode_len();
    let start: usize = if n > 0 && s.get_char(0) == '+' { 1 } else { 0 };
    assert(start == sign_len(s@));
    if start >= n {
        return None;
    }
    let mut i: usize = start;
    while i < n
        invariant
            start <= i <= n,
            n == s@.len(),
            start == sign_len(s@),
            forall|j: int| start <= j < i ==> is_digit(#[trigger] s@[j]),
        decreases n - i,
    {
        let c = s.get_char(i);
        if !('0' <= c && c <= '9') {
            let ghost sub = s@.subrange(start as int, n as int);
            assert(sub[i - start] == c);
            assert(!is_digit(sub[i - start]));
            return None;
        }
        i += 1;
    }
    parse_digits(s, start, n)
}

/// Finds the first `c` at or after `start`, or the length of `s`.
pub fn find_char(s: &str, c: char, start: usize) -> (r: usize)
    requires
        start <= s@.len(),
    ensures
        r as int == next_index(s@, c, start as int),
{
    let n = s.unicode_len();
    let mut i: usize = start;
    while i < n
        invariant
            start <= i <= n,
            n == s@.len(),
            next_index(s@, c, i as int) == next_index(s@, c, start as int),
        decreases n - i,
    {
        if s.get_char(i) == c {
            return i;
        }
        i += 1;
    }
    i
}

/// Finds the end of the run of digits (`digit`) or letters (`!digit`) that
/// starts at `start`.
pub fn find_run_end(s: &str, start: usize, digit: bool) -> (r: usize)
    requires
        start <= s@.len(),
    ensures
        r as int == class_run(s@, start as int, digit),
        start <= r <= s@.len(),
{
    let n = s.unicode_len();
    let mut i: usize = start;
    while i < n
        invariant
            start <= i <= n,
            n == s@.len(),
            class_run(s@, i as int, digit) == class_run(s@, start as int, digit),
        decreases n - i,
    {
        let c = s.get_char(i);
        let in_class = if digit {
            '0' <= c && c <= '9'
        } else {
            ('a' <= c && c <= 'z') || ('A' <= c && c <= 'Z')
        };
        if !in_class {
            return i;
        }
        i += 1;
    }
    i
}

/// A run of digits found by `class_run` holds digits only.
pub proof fn lemma_digit_run(s: Seq<char>, start: int)
    requires
        0 <= start <= s.len(),
    ensures
        start <= class_run(s, start, true) <= s.len(),
        all_digits(s.subrange(start, class_run(s, start, true))),
    decreases s.len() - start,
{
    if start < s.len() && is_digit(s[start]) {
        lemma_digit_run(s, start + 1);
        let e = class_run(s, start, true);
        assert forall|i: int| 0 <= i < e - start implies is_digit(#[trigger] s.subrange(start, e)[i]) by {
            if i > 0 {
                assert(s.subrange(start, e)[i] == s.subrange(start + 1, e)[i - 1]);
            }
        }
    }
}

} // verus!
