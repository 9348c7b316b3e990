use vstd::prelude::*;
use vstd::string::*;

verus! {

/// `p` occurs in `s` at position `i`.
pub open spec fn occurs_at(s: Seq<char>, i: int, p: Seq<char>) -> bool {
    0 <= i && i + p.len() <= s.len() && s.subrange(i, i + p.len()) == p
}

/// `s` starts with `p`.
pub open spec fn has_prefix(s: Seq<char>, p: Seq<char>) -> bool {
    occurs_at(s, 0, p)
}

/// Whether `p` occurs in `s` at character position `at`.
pub fn occurs_at_pos(s: &str, at: usize, p: &str) -> (r: bool)
    ensures
        r == occurs_at(s@, at as int, p@),
{
    let n = s.unicode_len();
    let m = p.unicode_len();
    if at > n || m > n - at {
        return false;
    }
    let mut k: usize = 0;
    while k < m
        invariant
            n == s@.len(),
            m == p@.len(),
            at + m <= n,
            k <= m,
            forall|j: int| 0 <= j < k ==> s@[at + j] == p@[j],
        decreases m - k,
    {
        if s.get_char(at + k) != p.get_char(k) {
            assert(s@.subrange(at as int, at + m)[k as int] != p@[k as int]);
            return false;
        }
        k = k + 1;
    }
    assert(s@.subrange(at as int, at + m) =~= p@);
    true
}

/// Whether `s` starts with `p`.
pub fn starts_with(s: &str, p: &str) -> (r: bool)
    ensures
        r == has_prefix(s@, p@),
{
    occurs_at_pos(s, 0, p)
}

/// Up to `len` characters of `s` from character position `start`; fewer where
/// `s` ends first, none where it ends before `start`.
pub fn substring(s: &str, start: usize, len: usize) -> (r: String)
    ensures
        r@ == s@.subrange(
            if start <= s@.len() { start as int } else { s@.len() as int },
            if start + len <= s@.len() { start + len } else { s@.len() as int },
        ),
{
    let n = s.unicode_len();
    let from = if start <= n { start } else { n };
    let to = if len <= n - from { from + len } else { n };
    String::from_str(s.substring_char(from, to))
}

} // verus!
