//! Character-level helpers on `&str`, each proved against a spec function
//! over the string's view (`Seq<char>`).
use vstd::prelude::*;
use vstd::string::*;

verus! {

/// `t` occurs in `s` starting at position `i`.
pub open spec fn occurs_at(s: Seq<char>, t: Seq<char>, i: int) -> bool {
    0 <= i && i + t.len() <= s.len() && s.subrange(i, i + t.len()) == t
}

/// `t` occurs somewhere in `s`.
pub open spec fn contains_seq(s: Seq<char>, t: Seq<char>) -> bool {
    exists|i: int| #[trigger] occurs_at(s, t, i)
}

/// `s` begins with `t`.
pub open spec fn starts_with_seq(s: Seq<char>, t: Seq<char>) -> bool {
    occurs_at(s, t, 0)
}

/// The `n`-th field (counting from 0) of `s` split at every `sep`, scanning from
/// position `pos` inside a field that began at `start`; `None` when `s` has fewer
/// fields.
pub open spec fn field_from(s: Seq<char>, sep: char, pos: int, start: int, n: nat) -> Option<
    Seq<char>,
>
    decreases s.len() - pos,
{
    if pos >= s.len() {
        if n == 0 {
            Some(s.subrange(start, s.len() as int))
        } else {
            None
        }
    } else if s[pos] == sep {
        if n == 0 {
            Some(s.subrange(start, pos))
        } else {
            field_from(s, sep, pos + 1, pos + 1, (n - 1) as nat)
        }
    } else {
        field_from(s, sep, pos + 1, start, n)
    }
}

/// The `n`-th field of `s` split at every `sep` (what `split(sep).nth(n)` yields).
pub open spec fn field(s: Seq<char>, sep: char, n: nat) -> Option<Seq<char>> {
    field_from(s, sep, 0, 0, n)
}

/// Whether `t` occurs in `s` at char position `i`.
pub fn occurs_at_exec(s: &str, t: &str, i: usize) -> (r: bool)
    ensures
        r == occurs_at(s@, t@, i as int),
{
    let n = s.unicode_len();
    let m = t.unicode_len();
    if i > n || m > n - i {
        return false;
    }
    let mut j: usize = 0;
    while j < m
        invariant
            j <= m,
            m == t@.len(),
            n == s@.len(),
            i + m <= n,
            forall|k: int| 0 <= k < j ==> s@[i + k] == t@[k],
        decreases m - j,
    {
        if s.get_char(i + j) != t.get_char(j) {
            assert(s@.subrange(i as int, i + m)[j as int] != t@[j as int]);
            return false;
        }
        j = j + 1;
    }
    assert(s@.subrange(i as int, i + m) =~= t@);
    true
}

/// Whether `s` begins with `t`.
pub fn starts_with_str(s: &str, t: &str) -> (r: bool)
    ensures
        r == starts_with_seq(s@, t@),
{
    occurs_at_exec(s, t, 0)
}

/// Whether `t` occurs anywhere in `s`.
pub fn contains_str(s: &str, t: &str) -> (r: bool)
    ensures
        r == contains_seq(s@, t@),
{
    let n = s.unicode_len();
    let m = t.unicode_len();
    if m > n {
        assert forall|i: int| !occurs_at(s@, t@, i) by {}
        return false;
    }
    let mut i: usize = 0;
    while i < n - m
        invariant
            n == s@.len(),
            m == t@.len(),
            m <= n,
            i <= n - m,
            forall|k: int| 0 <= k < i ==> !occurs_at(s@, t@, k),
        decreases n - m - i,
    {
        if occurs_at_exec(s, t, i) {
            return true;
        }
        i = i + 1;
    }
    if occurs_at_exec(s, t, i) {
        return true;
    }
    assert forall|k: int| !occurs_at(s@, t@, k) by {
        if 0 <= k && k < i {
        }
    }
    false
}

/// Whether the character `c` occurs in `s`.
pub fn contains_char(s: &str, c: char) -> (r: bool)
    ensures
        r == s@.contains(c),
{
    let n = s.unicode_len();
    let mut i: usize = 0;
    while i < n
        invariant
            n == s@.len(),
            i <= n,
            forall|k: int| 0 <= k < i ==> s@[k] != c,
        decreases n - i,
    {
        if s.get_char(i) == c {
            return true;
        }
        i = i + 1;
    }
    false
}

/// Whether `a` and `b` hold the same characters.
pub fn same_str(a: &str, b: &str) -> (r: bool)
    ensures
        r == (a@ == b@),
{
    if a.unicode_len() != b.unicode_len() {
        return false;
    }
    let r = occurs_at_exec(a, b, 0);
    assert(a@.subrange(0, a@.len() as int) =~= a@);
    r
}

/// The `n`-th field of `s` split at every `sep`, as `split(sep).nth(n)` gives it.
pub fn field_of<'a>(s: &'a str, sep: char, n: usize) -> (r: Option<&'a str>)
    ensures
        r matches Some(f) ==> field(s@, sep, n as nat) == Some(f@),
        r is None ==> field(s@, sep, n as nat) is None,
{
    let len = s.unicode_len();
    let mut pos: usize = 0;
    let mut start: usize = 0;
    let mut left: usize = n;
    while pos < len
        invariant
            len == s@.len(),
            start <= pos <= len,
            left <= n,
            field_from(s@, sep, pos as int, start as int, left as nat) == field(s@, sep, n as nat),
        decreases len - pos,
    {
        if s.get_char(pos) == sep {
            if left == 0 {
                return Some(s.substring_char(start, pos));
            }
            left = left - 1;
            pos = pos + 1;
            start = pos;
        } else {
            pos = pos + 1;
        }
    }
    if left == 0 {
        Some(s.substring_char(start, len))
    } else {
        None
    }
}

} // verus!
