//! Small helpers for working on path strings as sequences of characters.
use vstd::prelude::*;

verus! {

/// `p` is a prefix of `s`.
pub open spec fn starts_with(s: Seq<char>, p: Seq<char>) -> bool {
    p.len() <= s.len() && s.take(p.len() as int) == p
}

/// Index of the first occurrence of `c` in `s`, if any.
pub open spec fn first_index_of(s: Seq<char>, c: char) -> Option<int> {
    if exists|i: int| 0 <= i < s.len() && s[i] == c {
        Some(choose|i: int| 0 <= i < s.len() && s[i] == c && forall|j: int| 0 <= j < i ==> s[j] != c)
    } else {
        None
    }
}

/// What `str::split_once` gives for a single separator character: the text before the
/// first separator and the text after it, or `None` when the separator does not occur.
pub open spec fn split_once_spec(s: Seq<char>, c: char) -> Option<(Seq<char>, Seq<char>)> {
    match first_index_of(s, c) {
        Some(i) => Some((s.take(i), s.skip(i + 1))),
        None => None,
    }
}

/// The characters of `s`, in order.
pub fn chars_of(s: &str) -> (v: Vec<char>)
    ensures
        v@ == s@,
{
    let mut v: Vec<char> = Vec::new();
    for c in it: s.chars()
        invariant
            v@ == it.seq().take(it.index() as int),
    {
        v.push(c);
    }
    proof {
        broadcast use vstd::string::axiom_spec_iter;
    }
    assert(v@ =~= s@);
    v
}

/// Whether `v` spells exactly the text `s`.
pub fn eq_str(v: &Vec<char>, s: &str) -> (r: bool)
    ensures
        r == (v@ == s@),
{
    let w = chars_of(s);
    if v.len() != w.len() {
        return false;
    }
    let mut i: usize = 0;
    while i < v.len()
        invariant
            v@.len() == w@.len(),
            w@ == s@,
            i <= v@.len(),
            forall|j: int| 0 <= j < i ==> v@[j] == w@[j],
        decreases v@.len() - i,
    {
        if v[i] != w[i] {
            return false;
        }
        i = i + 1;
    }
    assert(v@ =~= w@);
    true
}

/// The rest of `v` after the prefix `prefix`, when `v` starts with it.
pub fn strip_prefix(v: &Vec<char>, prefix: &str) -> (r: Option<Vec<char>>)
    ensures
        match r {
            Some(rest) => starts_with(v@, prefix@) && rest@ == v@.skip(prefix@.len() as int),
            None => !starts_with(v@, prefix@),
        },
{
    let p = chars_of(prefix);
    if p.len() > v.len() {
        return None;
    }
    let mut i: usize = 0;
    while i < p.len()
        invariant
            p@ == prefix@,
            p@.len() <= v@.len(),
            i <= p@.len(),
            forall|j: int| 0 <= j < i ==> v@[j] == p@[j],
        decreases p@.len() - i,
    {
        if v[i] != p[i] {
            assert(v@.take(p@.len() as int)[i as int] != p@[i as int]);
            return None;
        }
        i = i + 1;
    }
    assert(v@.take(p@.len() as int) =~= p@);
    let mut rest: Vec<char> = Vec::new();
    let mut k: usize = p.len();
    while k < v.len()
        invariant
            p@.len() <= k <= v@.len(),
            rest@ == v@.subrange(p@.len() as int, k as int),
        decreases v@.len() - k,
    {
        rest.push(v[k]);
        k = k + 1;
        assert(rest@ =~= v@.subrange(p@.len() as int, k as int));
    }
    assert(rest@ =~= v@.skip(p@.len() as int));
    Some(rest)
}

/// Splits `v` at the first occurrence of `c`, as `str::split_once` does.
pub fn split_once(v: &Vec<char>, c: char) -> (r: Option<(Vec<char>, Vec<char>)>)
    ensures
        match r {
            Some((a, b)) => split_once_spec(v@, c) == Some((a@, b@)),
            None => split_once_spec(v@, c) is None,
        },
{
    let mut i: usize = 0;
    while i < v.len()
        invariant
            i <= v@.len(),
            forall|j: int| 0 <= j < i ==> v@[j] != c,
        ensures
            i <= v@.len(),
            forall|j: int| 0 <= j < i ==> v@[j] != c,
            i < v@.len() ==> v@[i as int] == c,
        decreases v@.len() - i,
    {
        if v[i] == c {
            break;
        }
        i = i + 1;
    }
    if i == v.len() {
        assert(!(exists|j: int| 0 <= j < v@.len() && v@[j] == c));
        return None;
    }
    proof {
        let ii = i as int;
        assert(0 <= ii < v@.len() && v@[ii] == c);
        let k = choose|k: int| 0 <= k < v@.len() && v@[k] == c && forall|j: int| 0 <= j < k ==> v@[j] != c;
        assert(k == ii) by {
            if k < ii {
                assert(v@[k] != c);
            } else if k > ii {
                assert(v@[ii] != c);
            }
        }
    }
    let mut a: Vec<char> = Vec::new();
    let mut k: usize = 0;
    while k < i
        invariant
            i < v@.len(),
            k <= i,
            a@ == v@.take(k as int),
        decreases i - k,
    {
        a.push(v[k]);
        k = k + 1;
        assert(a@ =~= v@.take(k as int));
    }
    let mut b: Vec<char> = Vec::new();
    let mut m: usize = i + 1;
    while m < v.len()
        invariant
            i < v@.len(),
            i + 1 <= m <= v@.len(),
            b@ == v@.subrange(i + 1, m as int),
        decreases v@.len() - m,
    {
        b.push(v[m]);
        m = m + 1;
        assert(b@ =~= v@.subrange(i + 1, m as int));
    }
    assert(b@ =~= v@.skip(i + 1));
    Some((a, b))
}

} // verus!
