//! Character-level helpers over string slices, each proved against a
//! statement on `Seq<char>`.
use vstd::prelude::*;

verus! {

/// `p` is a prefix of `s`.
pub open spec fn has_prefix(s: Seq<char>, p: Seq<char>) -> bool {
    p.len() <= s.len() && s.subrange(0, p.len() as int) == p
}

/// `p` is a suffix of `s`.
pub open spec fn has_suffix(s: Seq<char>, p: Seq<char>) -> bool {
    p.len() <= s.len() && s.subrange(s.len() - p.len(), s.len() as int) == p
}

/// The first index at or after `from` that holds `c`, or the length of `s`.
pub open spec fn find_from(s: Seq<char>, c: char, from: int) -> int
    decreases s.len() - from,
{
    if from < 0 || from >= s.len() {
        s.len() as int
    } else if s[from] == c {
        from
    } else {
        find_from(s, c, from + 1)
    }
}

/// The second field of `s` split at single spaces: the text after the first
/// space up to the next space or the end. `None` when `s` holds no space.
pub open spec fn second_field(s: Seq<char>) -> Option<Seq<char>> {
    let first = find_from(s, ' ', 0);
    if first >= s.len() {
        None
    } else {
        Some(s.subrange(first + 1, find_from(s, ' ', first + 1)))
    }
}

pub proof fn lemma_find_from_bounds(s: Seq<char>, c: char, from: int)
    requires
        0 <= from <= s.len(),
    ensures
        from <= find_from(s, c, from) <= s.len(),
        find_from(s, c, from) < s.len() ==> s[find_from(s, c, from)] == c,
        forall|k: int| from <= k < find_from(s, c, from) ==> s[k] != c,
    decreases s.len() - from,
{
    if from < s.len() && s[from] != c {
        lemma_find_from_bounds(s, c, from + 1);
    }
}

/// Whether two slices hold the same characters.
pub fn str_eq(a: &str, b: &str) -> (r: bool)
    ensures
        r == (a@ == b@),
{
    let n = a.unicode_len();
    if n != b.unicode_len() {
        return false;
    }
    let mut i: usize = 0;
    while i < n
        invariant
            n == a@.len(),
            n == b@.len(),
            i <= n,
            a@.subrange(0, i as int) == b@.subrange(0, i as int),
        decreases n - i,
    {
        if a.get_char(i) != b.get_char(i) {
            return false;
        }
        assert(a@.subrange(0, i + 1) =~= a@.subrange(0, i as int).push(a@[i as int]));
        assert(b@.subrange(0, i + 1) =~= b@.subrange(0, i as int).push(b@[i as int]));
        i = i + 1;
    }
    assert(a@ =~= a@.subrange(0, n as int));
    assert(b@ =~= b@.subrange(0, n as int));
    true
}

/// Whether `p` is a prefix of `s`.
pub fn starts_with(s: &str, p: &str) -> (r: bool)
    ensures
        r == has_prefix(s@, p@),
{
    let n = s.unicode_len();
    let m = p.unicode_len();
    if m > n {
        return false;
    }
    str_eq(s.substring_char(0, m), p)
}

/// Whether `p` is a suffix of `s`.
pub fn ends_with(s: &str, p: &str) -> (r: bool)
    ensures
        r == has_suffix(s@, p@),
{
    let n = s.unicode_len();
    let m = p.unicode_len();
    if m > n {
        return false;
    }
    str_eq(s.substring_char(n - m, n), p)
}

/// The first index at or after `from` that holds `c`, or the length.
pub fn find_char(s: &str, c: char, from: usize) -> (r: usize)
    requires
        from <= s@.len(),
    ensures
        r == find_from(s@, c, from as int),
{
    let n = s.unicode_len();
    let mut i = from;
    while i < n
        invariant
            n == s@.len(),
            from <= i <= n,
            find_from(s@, c, from as int) == find_from(s@, c, i as int),
        decreases n - i,
    {
        if s.get_char(i) == c {
            return i;
        }
        i = i + 1;
    }
    i
}

/// The second space-separated field of `s`, if `s` holds a space.
pub fn second_word(s: &str) -> (r: Option<String>)
    ensures
        match second_field(s@) {
            None => r is None,
            Some(w) => r is Some && r->0@ == w,
        },
{
    let n = s.unicode_len();
    let first = find_char(s, ' ', 0);
    proof {
        lemma_find_from_bounds(s@, ' ', 0);
    }
    if first >= n {
        return None;
    }
    let end = find_char(s, ' ', first + 1);
    proof {
        lemma_find_from_bounds(s@, ' ', first + 1);
    }
    Some(s.substring_char(first + 1, end).to_owned())
}

} // verus!
