//! Locations are path-like keys into the browsed hierarchy, held as strings
//! with `/` as the separator. This module gives the string helpers the rest
//! of the crate needs: finding the last occurrence of a character, string
//! equality over views, and the parent of a location.

use vstd::prelude::*;

verus! {

/// Index of the last occurrence of `c` in `s`, or `None` if `c` does not occur.
pub open spec fn last_index_of(s: Seq<char>, c: char) -> Option<int>
    decreases s.len(),
{
    if s.len() == 0 {
        None
    } else if s[s.len() - 1] == c {
        Some(s.len() - 1)
    } else {
        last_index_of(s.drop_last(), c)
    }
}

/// `last_index_of` finds an occurrence, and nothing occurs after it.
pub proof fn lemma_last_index_of(s: Seq<char>, c: char)
    ensures
        match last_index_of(s, c) {
            Some(i) => 0 <= i < s.len() && s[i] == c && (forall|j: int|
                i < j < s.len() ==> s[j] != c),
            None => forall|j: int| 0 <= j < s.len() ==> s[j] != c,
        },
    decreases s.len(),
{
    if s.len() > 0 && s[s.len() - 1] != c {
        lemma_last_index_of(s.drop_last(), c);
        assert(forall|j: int| 0 <= j < s.len() - 1 ==> s.drop_last()[j] == s[j]);
        match last_index_of(s, c) {
            Some(i) => {
                assert forall|j: int| i < j < s.len() implies s[j] != c by {
                    if j < s.len() - 1 {
                        assert(s.drop_last()[j] != c);
                    }
                }
            },
            None => {
                assert forall|j: int| 0 <= j < s.len() implies s[j] != c by {
                    if j < s.len() - 1 {
                        assert(s.drop_last()[j] != c);
                    }
                }
            },
        }
    }
}

/// Dropping a suffix that does not contain `c` does not move the last occurrence.
proof fn lemma_last_index_of_prefix(s: Seq<char>, c: char, n: int)
    requires
        0 <= n <= s.len(),
        forall|j: int| n <= j < s.len() ==> s[j] != c,
    ensures
        last_index_of(s, c) == last_index_of(s.subrange(0, n), c),
    decreases s.len() - n,
{
    if n < s.len() {
        assert(s.drop_last() =~= s.subrange(0, s.len() - 1));
        lemma_last_index_of_prefix(s, c, n + 1);
        assert(s.subrange(0, n + 1).drop_last() =~= s.subrange(0, n));
        if n + 1 < s.len() {
            assert(s.subrange(0, n + 1) =~= s.subrange(0, s.len() - (s.len() - n - 1)));
        } else {
            assert(s.subrange(0, n + 1) =~= s);
        }
    } else {
        assert(s.subrange(0, n) =~= s);
    }
}

/// Index of the last occurrence of `c` in `s`, scanning from the end.
pub fn find_last(s: &str, c: char) -> (r: Option<usize>)
    ensures
        match r {
            Some(i) => last_index_of(s@, c) == Some(i as int),
            None => last_index_of(s@, c) is None,
        },
{
    let n = s.unicode_len();
    let mut i: usize = n;
    while i > 0
        invariant
            i <= n,
            n == s@.len(),
            forall|j: int| i <= j < s@.len() ==> s@[j] != c,
        decreases i,
    {
        i = i - 1;
        if s.get_char(i) == c {
            proof {
                lemma_last_index_of_prefix(s@, c, i + 1);
                assert(s@.subrange(0, i + 1).last() == s@[i as int]);
            }
            return Some(i);
        }
    }
    proof {
        lemma_last_index_of_prefix(s@, c, 0);
        assert(s@.subrange(0, 0) =~= Seq::<char>::empty());
    }
    None
}

/// Character-wise string equality; `r` holds exactly when the views agree.
pub fn str_eq(a: &str, b: &str) -> (r: bool)
    ensures
        r == (a@ == b@),
{
    let na = a.unicode_len();
    let nb = b.unicode_len();
    if na != nb {
        return false;
    }
    let mut i: usize = 0;
    while i < na
        invariant
            i <= na,
            na == a@.len(),
            na == b@.len(),
            forall|j: int| 0 <= j < i ==> a@[j] == b@[j],
        decreases na - i,
    {
        if a.get_char(i) != b.get_char(i) {
            return false;
        }
        i = i + 1;
    }
    proof {
        assert(a@ =~= b@);
    }
    true
}

/// The parent of a location, if it has one.
///
/// The parent is the prefix of `s` up to (and excluding) the last `/`;
/// a location whose last `/` is its first character has the root `/` as its
/// parent. The root itself, and a location with no `/` at all, have none.
pub open spec fn parent_of_spec(s: Seq<char>) -> Option<Seq<char>> {
    match last_index_of(s, '/') {
        None => None,
        Some(i) => if i == 0 {
            if s.len() == 1 {
                None
            } else {
                Some(s.subrange(0, 1))
            }
        } else {
            Some(s.subrange(0, i))
        },
    }
}

/// A parent is strictly shorter than its child, so never equal to it.
pub proof fn lemma_parent_shorter(s: Seq<char>)
    ensures
        parent_of_spec(s) matches Some(p) ==> p.len() < s.len() && p != s,
{
    lemma_last_index_of(s, '/');
    match parent_of_spec(s) {
        Some(p) => {
            assert(p.len() < s.len());
        },
        None => {},
    }
}

/// The parent location, per `parent_of_spec`.
pub fn parent_of(path: &str) -> (r: Option<String>)
    ensures
        match r {
            Some(p) => parent_of_spec(path@) == Some(p@),
            None => parent_of_spec(path@) is None,
        },
{
    match find_last(path, '/') {
        None => None,
        Some(i) => {
            proof {
                lemma_last_index_of(path@, '/');
            }
            if i == 0 {
                if path.unicode_len() == 1 {
                    None
                } else {
                    Some(String::from_str(path.substring_char(0, 1)))
                }
            } else {
                Some(String::from_str(path.substring_char(0, i)))
            }
        },
    }
}

} // verus!
