//! Verified helpers for working with `&str` values at the character level:
//! equality, prefix tests, and searches for the separators that the schema's
//! raw type strings use (`"::"` between an enum's owner and its variant,
//! `'_'` between the segments of an enum variant's name).

use vstd::prelude::*;
use vstd::string::StrSliceExecFns;

verus! {

/// Index of the first `"::"` separator at or after `i`, or `s.len()` if there
/// is none.
pub open spec fn find_sep_from(s: Seq<char>, i: int) -> int
    decreases s.len() - i
    when 0 <= i <= s.len()
{
    if i + 1 >= s.len() {
        s.len() as int
    } else if s[i] == ':' && s[i + 1] == ':' {
        i
    } else {
        find_sep_from(s, i + 1)
    }
}

/// Index of the first `"::"` separator, or `s.len()` if there is none.
pub open spec fn find_sep(s: Seq<char>) -> int {
    find_sep_from(s, 0)
}

/// Index of the first `'_'` at or after `i`, or `s.len()` if there is none.
pub open spec fn find_underscore_from(s: Seq<char>, i: int) -> int
    decreases s.len() - i
    when 0 <= i <= s.len()
{
    if i >= s.len() {
        s.len() as int
    } else if s[i] == '_' {
        i
    } else {
        find_underscore_from(s, i + 1)
    }
}

/// Index of the first `'_'`, or `s.len()` if there is none.
pub open spec fn find_underscore(s: Seq<char>) -> int {
    find_underscore_from(s, 0)
}

pub proof fn lemma_find_sep_from_bounds(s: Seq<char>, i: int)
    requires
        0 <= i <= s.len(),
    ensures
        i <= find_sep_from(s, i) <= s.len(),
        find_sep_from(s, i) + 1 < s.len() ==> s[find_sep_from(s, i)] == ':' && s[find_sep_from(
            s,
            i,
        ) + 1] == ':',
    decreases s.len() - i,
{
    if i + 1 >= s.len() {
    } else if s[i] == ':' && s[i + 1] == ':' {
    } else {
        lemma_find_sep_from_bounds(s, i + 1);
    }
}

/// Character-for-character string equality, proved against the views.
pub fn str_eq(a: &str, b: &str) -> (r: bool)
    ensures
        r == (a@ == b@),
{
    let n = a.unicode_len();
    let m = b.unicode_len();
    if n != m {
        return false;
    }
    let mut i: usize = 0;
    while i < n
        invariant
            n == a@.len(),
            n == b@.len(),
            0 <= i <= n,
            forall|j: int| 0 <= j < i ==> a@[j] == b@[j],
        decreases n - i,
    {
        if a.get_char(i) != b.get_char(i) {
            return false;
        }
        i = i + 1;
    }
    proof {
        assert(a@ =~= b@);
    }
    true
}

/// Whether `s` begins with the characters of `p`.
pub fn starts_with_str(s: &str, p: &str) -> (r: bool)
    ensures
        r == (p@.len() <= s@.len() && s@.subrange(0, p@.len() as int) == p@),
{
    let n = s.unicode_len();
    let m = p.unicode_len();
    if m > n {
        return false;
    }
    let mut i: usize = 0;
    while i < m
        invariant
            n == s@.len(),
            m == p@.len(),
            m <= n,
            0 <= i <= m,
            forall|j: int| 0 <= j < i ==> s@[j] == p@[j],
        decreases m - i,
    {
        if s.get_char(i) != p.get_char(i) {
            proof {
                assert(s@.subrange(0, p@.len() as int)[i as int] == s@[i as int]);
            }
            return false;
        }
        i = i + 1;
    }
    proof {
        assert(s@.subrange(0, p@.len() as int) =~= p@);
    }
    true
}

/// Index of the first `"::"` separator, or `None` if there is none.
pub fn find_double_colon(s: &str) -> (r: Option<usize>)
    ensures
        match r {
            Some(i) => i == find_sep(s@) && i + 1 < s@.len(),
            None => find_sep(s@) == s@.len(),
        },
{
    let n = s.unicode_len();
    if n < 2 {
        proof {
            if n == 1 {
                assert(find_sep_from(s@, 0) == find_sep_from(s@, 1));
            }
        }
        return None;
    }
    let mut i: usize = 0;
    while i + 1 < n
        invariant
            n == s@.len(),
            2 <= n,
            0 <= i <= n - 1,
            find_sep(s@) == find_sep_from(s@, i as int),
        decreases n - i,
    {
        if s.get_char(i) == ':' && s.get_char(i + 1) == ':' {
            return Some(i);
        }
        proof {
            assert(find_sep_from(s@, i as int) == find_sep_from(s@, i + 1));
        }
        i = i + 1;
    }
    proof {
        assert(find_sep_from(s@, i as int) == s@.len());
    }
    None
}

/// Index of the first `'_'`, or `None` if there is none.
pub fn find_first_underscore(s: &str) -> (r: Option<usize>)
    ensures
        match r {
            Some(i) => i == find_underscore(s@) && i < s@.len(),
            None => find_underscore(s@) == s@.len(),
        },
{
    let n = s.unicode_len();
    let mut i: usize = 0;
    while i < n
        invariant
            n == s@.len(),
            0 <= i <= n,
            find_underscore(s@) == find_underscore_from(s@, i as int),
        decreases n - i,
    {
        if s.get_char(i) == '_' {
            return Some(i);
        }
        proof {
            assert(find_underscore_from(s@, i as int) == find_underscore_from(s@, i + 1));
        }
        i = i + 1;
    }
    None
}

/// An owned copy of the characters of `s` from `from` (inclusive) to `to`
/// (exclusive).
pub fn substring(s: &str, from: usize, to: usize) -> (r: String)
    requires
        from <= to <= s@.len(),
    ensures
        r@ == s@.subrange(from as int, to as int),
{
    s.substring_char(from, to).to_owned()
}

} // verus!
