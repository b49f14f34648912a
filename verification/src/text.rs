//! Small facts about character and byte sequences shared by the parsers.

use vstd::prelude::*;

verus! {

/// The position of the first `c` in `s`, if any.
pub open spec fn first_index_of(s: Seq<char>, c: char) -> Option<int> {
    if exists|i: int| 0 <= i < s.len() && s[i] == c {
        Some(choose|i: int| 0 <= i < s.len() && s[i] == c && forall|j: int| 0 <= j < i ==> s[j] != c)
    } else {
        None
    }
}

/// The position of the last `c` in `s`, if any.
pub open spec fn last_index_of(s: Seq<char>, c: char) -> Option<int> {
    if exists|i: int| 0 <= i < s.len() && s[i] == c {
        Some(choose|i: int| 0 <= i < s.len() && s[i] == c && forall|j: int| i < j < s.len() ==> s[j] != c)
    } else {
        None
    }
}

/// Whether `needle` occurs in `hay` starting at `i`.
pub open spec fn occurs_at<T>(hay: Seq<T>, needle: Seq<T>, i: int) -> bool {
    0 <= i && i + needle.len() <= hay.len() && hay.subrange(i, i + needle.len()) == needle
}

/// Whether `needle` occurs anywhere in `hay`.
pub open spec fn contains_seq<T>(hay: Seq<T>, needle: Seq<T>) -> bool {
    exists|i: int| occurs_at(hay, needle, i)
}

/// The characters of `s`, read one by one.
pub fn chars_of(s: &str) -> (v: Vec<char>)
    ensures
        v@ == s@,
{
    let n = s.unicode_len();
    let mut v: Vec<char> = Vec::new();
    let mut i: usize = 0;
    while i < n
        invariant
            0 <= i <= n,
            n == s@.len(),
            v@ == s@.subrange(0, i as int),
        decreases n - i,
    {
        v.push(s.get_char(i));
        i = i + 1;
        assert(v@ =~= s@.subrange(0, i as int));
    }
    assert(s@.subrange(0, n as int) =~= s@);
    v
}

/// The position of the first `c` in `v`, if any.
pub fn find_char(v: &Vec<char>, c: char) -> (r: Option<usize>)
    ensures
        match r {
            Some(i) => i < v@.len() && v@[i as int] == c && forall|j: int| 0 <= j < i ==> v@[j] != c,
            None => forall|j: int| 0 <= j < v@.len() ==> v@[j] != c,
        },
        r matches Some(i) ==> first_index_of(v@, c) == Some(i as int),
        r is None ==> first_index_of(v@, c) is None,
{
    let mut i: usize = 0;
    while i < v.len()
        invariant
            0 <= i <= v@.len(),
            forall|j: int| 0 <= j < i ==> v@[j] != c,
        decreases v@.len() - i,
    {
        if v[i] == c {
            proof {
                let k = choose|k: int|
                    0 <= k < v@.len() && v@[k] == c && forall|j: int| 0 <= j < k ==> v@[j] != c;
                assert(k == i as int) by {
                    if k < i {
                    } else if k > i {
                    }
                }
            }
            return Some(i);
        }
        i = i + 1;
    }
    None
}

/// The position of the last `c` in `v`, if any.
pub fn rfind_char(v: &Vec<char>, c: char) -> (r: Option<usize>)
    ensures
        r matches Some(i) ==> i < v@.len() && last_index_of(v@, c) == Some(i as int),
        r is None ==> last_index_of(v@, c) is None,
{
    let mut i: usize = v.len();
    while i > 0
        invariant
            0 <= i <= v@.len(),
            forall|j: int| i <= j < v@.len() ==> v@[j] != c,
        decreases i,
    {
        if v[i - 1] == c {
            proof {
                let w = (i - 1) as int;
                assert(v@[w] == c);
                let k = choose|k: int|
                    0 <= k < v@.len() && v@[k] == c && forall|j: int| k < j < v@.len() ==> v@[j] != c;
                assert(k == w) by {
                    if k < w {
                    } else if k > w {
                    }
                }
            }
            return Some(i - 1);
        }
        i = i - 1;
    }
    None
}

/// A `String` holding the characters `v[from..to]`.
pub fn string_of(v: &Vec<char>, s: &str, from: usize, to: usize) -> (r: String)
    requires
        v@ == s@,
        from <= to <= v@.len(),
    ensures
        r@ == v@.subrange(from as int, to as int),
{
    let sub = s.substring_char(from, to);
    sub.to_owned()
}

proof fn lemma_first_exists(s: Seq<char>, c: char)
    requires
        exists|i: int| 0 <= i < s.len() && s[i] == c,
    ensures
        exists|i: int| 0 <= i < s.len() && s[i] == c && forall|j: int| 0 <= j < i ==> s[j] != c,
    decreases s.len(),
{
    let p = s.drop_last();
    if exists|i: int| 0 <= i < p.len() && p[i] == c {
        lemma_first_exists(p, c);
        let i = choose|i: int| 0 <= i < p.len() && p[i] == c && forall|j: int| 0 <= j < i ==> p[j] != c;
        assert(s[i] == p[i]);
        assert forall|j: int| 0 <= j < i implies s[j] != c by {
            assert(s[j] == p[j]);
        }
    } else {
        let w = s.len() - 1;
        assert(s[w] == c) by {
            let i = choose|i: int| 0 <= i < s.len() && s[i] == c;
            if i < w {
                assert(p[i] == c);
            }
        }
        assert(forall|j: int| 0 <= j < w ==> s[j] != c) by {
            assert forall|j: int| 0 <= j < w implies s[j] != c by {
                assert(p[j] == s[j]);
            }
        }
    }
}

proof fn lemma_last_exists(s: Seq<char>, c: char)
    requires
        exists|i: int| 0 <= i < s.len() && s[i] == c,
    ensures
        exists|i: int| 0 <= i < s.len() && s[i] == c && forall|j: int| i < j < s.len() ==> s[j] != c,
    decreases s.len(),
{
    let p = s.drop_first();
    if exists|i: int| 0 <= i < p.len() && p[i] == c {
        lemma_last_exists(p, c);
        let i = choose|i: int| 0 <= i < p.len() && p[i] == c && forall|j: int| i < j < p.len() ==> p[j] != c;
        assert(s[i + 1] == c);
        assert forall|j: int| i + 1 < j < s.len() implies s[j] != c by {
            assert(p[j - 1] == s[j]);
        }
    } else {
        assert(s[0] == c) by {
            let i = choose|i: int| 0 <= i < s.len() && s[i] == c;
            if i > 0 {
                assert(p[i - 1] == c);
            }
        }
        assert forall|j: int| 0 < j < s.len() implies s[j] != c by {
            assert(p[j - 1] == s[j]);
        }
    }
}

/// What the first position of `c` in `s` is: a position of `c` with no `c`
/// before it, or none when `c` does not occur.
pub proof fn lemma_first_index_of(s: Seq<char>, c: char)
    ensures
        match first_index_of(s, c) {
            Some(i) => 0 <= i < s.len() && s[i] == c && forall|j: int| 0 <= j < i ==> s[j] != c,
            None => forall|j: int| 0 <= j < s.len() ==> s[j] != c,
        },
{
    if exists|i: int| 0 <= i < s.len() && s[i] == c {
        lemma_first_exists(s, c);
    }
}

/// What the last position of `c` in `s` is: a position of `c` with no `c`
/// after it, or none when `c` does not occur.
pub proof fn lemma_last_index_of(s: Seq<char>, c: char)
    ensures
        match last_index_of(s, c) {
            Some(i) => 0 <= i < s.len() && s[i] == c && forall|j: int| i < j < s.len() ==> s[j] != c,
            None => forall|j: int| 0 <= j < s.len() ==> s[j] != c,
        },
{
    if exists|i: int| 0 <= i < s.len() && s[i] == c {
        lemma_last_exists(s, c);
    }
}

} // verus!
