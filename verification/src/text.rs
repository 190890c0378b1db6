//! Searching character strings.

use vstd::prelude::*;
use vstd::string::*;

verus! {

/// The least index at which `c` stands in `s`, if it stands there at all.
pub open spec fn first_index_of(s: Seq<char>, c: char) -> Option<int> {
    if s.contains(c) {
        Some(choose|i: int| is_first_index_of(s, c, i))
    } else {
        None
    }
}

/// `i` is the least index at which `c` stands in `s`.
pub open spec fn is_first_index_of(s: Seq<char>, c: char, i: int) -> bool {
    &&& 0 <= i < s.len()
    &&& s[i] == c
    &&& forall|j: int| 0 <= j < i ==> s[j] != c
}

/// The index of the first occurrence of `c` in `s`, counted in characters.
pub fn find_char(s: &str, c: char) -> (found: Option<usize>)
    ensures
        match found {
            Some(i) => is_first_index_of(s@, c, i as int),
            None => !s@.contains(c),
        },
{
    let length = s.unicode_len();
    let mut index: usize = 0;
    let mut found: Option<usize> = None;
    for ch in it: s.chars()
        invariant
            length == s@.len(),
            index == it.index(),
            it.seq() == s@,
            match found {
                Some(i) => is_first_index_of(s@, c, i as int),
                None => forall|j: int| 0 <= j < index ==> s@[j] != c,
            },
    {
        if found.is_none() && ch == c {
            found = Some(index);
        }
        index = index + 1;
    }
    found
}

/// Where `c` occurs in `s`, it has a first index.
pub proof fn lemma_first_index_exists(s: Seq<char>, c: char)
    requires
        s.contains(c),
    ensures
        first_index_of(s, c) matches Some(i) && is_first_index_of(s, c, i),
    decreases s.len(),
{
    let k = choose|k: int| 0 <= k < s.len() && s[k] == c;
    if exists|j: int| 0 <= j < k && s[j] == c {
        let j = choose|j: int| 0 <= j < k && s[j] == c;
        let shorter = s.take(k);
        assert(shorter[j] == c);
        lemma_first_index_exists(shorter, c);
        let i = first_index_of(shorter, c).unwrap();
        assert(s[i] == shorter[i]);
        assert forall|m: int| 0 <= m < i implies s[m] != c by {
            assert(s[m] == shorter[m]);
        }
        assert(is_first_index_of(s, c, i));
    } else {
        assert(is_first_index_of(s, c, k));
    }
}

/// The first index of `c` in `s` is the only one before which `c` does not occur.
pub proof fn lemma_first_index_is_unique(s: Seq<char>, c: char, i: int)
    requires
        is_first_index_of(s, c, i),
    ensures
        first_index_of(s, c) == Some(i),
{
    assert(s.contains(c));
    let other = choose|k: int| is_first_index_of(s, c, k);
    assert(is_first_index_of(s, c, other));
    if other < i {
        assert(s[other] != c);
    } else if i < other {
        assert(s[i] != c);
    }
}

/// Before the first index of `c` in `s`, `c` does not occur.
pub proof fn lemma_take_is_free(s: Seq<char>, c: char, at: int)
    requires
        is_first_index_of(s, c, at),
    ensures
        !s.take(at).contains(c),
{
    if s.take(at).contains(c) {
        let j = choose|j: int| 0 <= j < s.take(at).len() && s.take(at)[j] == c;
        assert(s[j] == c);
    }
}

} // verus!
