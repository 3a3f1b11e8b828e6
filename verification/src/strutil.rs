//! String predicates and helpers used by pattern matching and parsing.
//!
//! Substring search, Unicode white-space classification and lowercasing
//! come from the standard library through trusted wrappers; trimming,
//! equality and character search are verified here on top of them.

use vstd::prelude::*;
use vstd::string::StrSliceExecFns;

verus! {

/// True when `needle` occurs in `hay` as a contiguous run of characters.
pub open spec fn is_substring(needle: Seq<char>, hay: Seq<char>) -> bool {
    exists|i: int|
        0 <= i && i + needle.len() <= hay.len() && (#[trigger] hay.subrange(
            i,
            i + needle.len(),
        )) == needle
}

/// Relies on str::contains: true exactly when the needle occurs as a
/// contiguous, case-sensitive substring of the haystack.
#[verifier::external_body]
pub(crate) fn str_contains(hay: &str, needle: &str) -> (r: bool)
    ensures
        r == is_substring(needle@, hay@),
{
    hay.contains(needle)
}

/// Whether a character counts as white space when trimming; what
/// char::is_whitespace returns for the character.
pub uninterp spec fn is_space_char(c: char) -> bool;

/// Relies on char::is_whitespace: whether a character has the Unicode
/// white-space property depends on the character alone.
#[verifier::external_body]
pub(crate) fn is_space(c: char) -> (r: bool)
    ensures
        r == is_space_char(c),
{
    c.is_whitespace()
}

/// The lowercase form of a character sequence; what str::to_lowercase
/// returns on a string with those characters.
pub uninterp spec fn lower_of(s: Seq<char>) -> Seq<char>;

/// Relies on str::to_lowercase: the lowercase form depends on the
/// characters alone.
#[verifier::external_body]
pub(crate) fn to_lowercase(s: &str) -> (r: String)
    ensures
        r@ == lower_of(s@),
{
    s.to_lowercase()
}

/// Character-for-character string equality.
pub fn str_equal(a: &str, b: &str) -> (r: bool)
    ensures
        r == (a@ == b@),
{
    let na = a.unicode_len();
    let nb = b.unicode_len();
    if na != nb {
        proof {
            if a@ == b@ {
                assert(a@.len() == b@.len());
            }
        }
        return false;
    }
    let mut i: usize = 0;
    while i < na
        invariant
            na == a@.len(),
            nb == b@.len(),
            na == nb,
            i <= na,
            forall|j: int| 0 <= j < i ==> a@[j] == b@[j],
        decreases na - i,
    {
        if a.get_char(i) != b.get_char(i) {
            proof {
                if a@ == b@ {
                    assert(a@[i as int] == b@[i as int]);
                }
            }
            return false;
        }
        i = i + 1;
    }
    proof {
        assert(a@ =~= b@);
    }
    true
}

/// `s` with leading white space removed.
pub open spec fn trim_front(s: Seq<char>) -> Seq<char>
    decreases s.len(),
{
    if s.len() > 0 && is_space_char(s[0]) {
        trim_front(s.drop_first())
    } else {
        s
    }
}

/// `s` with trailing white space removed.
pub open spec fn trim_back(s: Seq<char>) -> Seq<char>
    decreases s.len(),
{
    if s.len() > 0 && is_space_char(s.last()) {
        trim_back(s.drop_last())
    } else {
        s
    }
}

/// `s` with leading and trailing white space removed.
pub open spec fn trimmed(s: Seq<char>) -> Seq<char> {
    trim_back(trim_front(s))
}

/// Removes leading and trailing white space.
pub fn trim_str<'a>(s: &'a str) -> (r: &'a str)
    ensures
        r@ == trimmed(s@),
{
    let n = s.unicode_len();
    proof {
        assert(s@.skip(0) =~= s@);
    }
    let mut start: usize = 0;
    while start < n && is_space(s.get_char(start))
        invariant
            n == s@.len(),
            start <= n,
            trim_front(s@) == trim_front(s@.skip(start as int)),
        decreases n - start,
    {
        proof {
            assert(s@.skip(start as int)[0] == s@[start as int]);
            assert(s@.skip(start as int).drop_first() =~= s@.skip(start + 1));
        }
        start = start + 1;
    }
    let ghost u = s@.skip(start as int);
    proof {
        if start < n {
            // The first remaining character is not white space.
            assert(u[0] == s@[start as int]);
        }
        assert(trim_front(s@) == u);
    }
    let mut end: usize = n;
    while end > start && is_space(s.get_char(end - 1))
        invariant
            n == s@.len(),
            start <= end <= n,
            u == s@.skip(start as int),
            trim_back(u) == trim_back(s@.subrange(start as int, end as int)),
        decreases end,
    {
        proof {
            let part = s@.subrange(start as int, end as int);
            assert(part.last() == s@[end - 1]);
            assert(part.drop_last() =~= s@.subrange(start as int, end - 1));
        }
        end = end - 1;
    }
    proof {
        assert(u =~= s@.subrange(start as int, n as int));
        let part = s@.subrange(start as int, end as int);
        if end > start {
            assert(part.last() == s@[end - 1]);
        }
        assert(trim_back(part) == part);
    }
    s.substring_char(start, end)
}

/// The position of the first occurrence of `c` in `s`, if any.
pub open spec fn find_char(s: Seq<char>, c: char) -> Option<int>
    decreases s.len(),
{
    if s.len() == 0 {
        None
    } else if s[0] == c {
        Some(0int)
    } else {
        match find_char(s.drop_first(), c) {
            Some(i) => Some(i + 1),
            None => None,
        }
    }
}

/// Finds the first occurrence of `c` in `s`.
pub fn find_char_in(s: &str, c: char) -> (r: Option<usize>)
    ensures
        match r {
            Some(i) => i < s@.len() && find_char(s@, c) == Some(i as int),
            None => find_char(s@, c) is None,
        },
{
    let n = s.unicode_len();
    proof {
        assert(s@.skip(0) =~= s@);
    }
    let mut i: usize = 0;
    while i < n
        invariant
            n == s@.len(),
            i <= n,
            find_char(s@, c) == match find_char(s@.skip(i as int), c) {
                Some(k) => Some(k + i),
                None => None::<int>,
            },
        decreases n - i,
    {
        let ghost rest = s@.skip(i as int);
        proof {
            assert(rest[0] == s@[i as int]);
            assert(rest.drop_first() =~= s@.skip(i + 1));
        }
        if s.get_char(i) == c {
            return Some(i);
        }
        i = i + 1;
    }
    proof {
        assert(s@.skip(n as int) =~= Seq::<char>::empty());
    }
    None
}

} // verus!
