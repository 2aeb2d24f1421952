//! Character-sequence utilities shared by every decoder.
//!
//! All parsing in this crate works over `Vec<char>`, whose view is the same
//! `Seq<char>` that `&str` and `String` have, so contracts stated over one
//! carry to the other.

use vstd::prelude::*;

verus! {

/// Relies on `str::chars`: the iterator yields exactly the characters of `s`,
/// in order, so collecting it gives a vector with the same view.
#[verifier::external_body]
pub fn chars_of_str(s: &str) -> (r: Vec<char>)
    ensures
        r@ == s@,
{
    s.chars().collect()
}

/// Relies on `String`'s `FromIterator` impl: collecting an iterator of
/// characters builds the string of exactly those characters, in order.
#[verifier::external_body]
pub fn string_from_chars(v: &Vec<char>) -> (r: String)
    ensures
        r@ == v@,
{
    v.iter().collect()
}

/// Element-wise equality of two character vectors.
pub fn chars_eq(a: &Vec<char>, b: &Vec<char>) -> (r: bool)
    ensures
        r == (a@ == b@),
{
    if a.len() != b.len() {
        assert(a@.len() != b@.len());
        assert(a@ != b@);
        return false;
    }
    let n = a.len();
    let mut i: usize = 0;
    while i < n
        invariant
            n == a.len() == b.len(),
            i <= n,
            forall|k: int| 0 <= k < i ==> a@[k] == b@[k],
        decreases n - i,
    {
        if a[i] != b[i] {
            return false;
        }
        i += 1;
    }
    assert(a@ =~= b@);
    true
}

/// Equality of a character vector against a string slice.
pub fn chars_eq_str(a: &Vec<char>, b: &str) -> (r: bool)
    ensures
        r == (a@ == b@),
{
    let bv = chars_of_str(b);
    chars_eq(a, &bv)
}

/// True when the characters of `s` starting at `from` begin with `pre`.
pub open spec fn starts_with_at(s: Seq<char>, pre: Seq<char>, from: int) -> bool {
    &&& from + pre.len() <= s.len()
    &&& s.subrange(from, from + pre.len() as int) == pre
}

/// Whether `pre` occurs in `s` at any position `p` with `from <= p`.
pub open spec fn occurs_from(s: Seq<char>, pre: Seq<char>, from: int) -> bool {
    exists|p: int| from <= p && #[trigger] starts_with_at(s, pre, p)
}

/// The first position at or after `from` where `pre` occurs.
pub open spec fn first_occurrence(s: Seq<char>, pre: Seq<char>, from: int) -> int {
    choose|p: int|
        from <= p && #[trigger] starts_with_at(s, pre, p) && forall|q: int|
            from <= q < p ==> !(#[trigger] starts_with_at(s, pre, q))
}

/// Checks whether `s[from..]` begins with the characters of `pre`.
pub fn check_prefix_at(s: &Vec<char>, pre: &Vec<char>, from: usize) -> (r: bool)
    requires
        from <= s@.len(),
    ensures
        r == starts_with_at(s@, pre@, from as int),
{
    if pre.len() > s.len() - from {
        return false;
    }
    let n = pre.len();
    let mut i: usize = 0;
    while i < n
        invariant
            n == pre.len(),
            from + n <= s.len(),
            i <= n,
            forall|k: int| 0 <= k < i ==> s@[from + k] == pre@[k],
        decreases n - i,
    {
        if s[from + i] != pre[i] {
            assert(s@.subrange(from as int, from + n as int)[i as int] != pre@[i as int]);
            return false;
        }
        i += 1;
    }
    assert(s@.subrange(from as int, from + n as int) =~= pre@);
    true
}

/// Finds the first occurrence of `pre` in `s` at or after `from`.
pub fn find_from(s: &Vec<char>, pre: &Vec<char>, from: usize) -> (r: Option<usize>)
    requires
        from <= s@.len(),
    ensures
        match r {
            Some(p) => {
                &&& from <= p
                &&& starts_with_at(s@, pre@, p as int)
                &&& forall|q: int| from <= q < p ==> !(#[trigger] starts_with_at(s@, pre@, q))
                &&& p == first_occurrence(s@, pre@, from as int)
            },
            None => !occurs_from(s@, pre@, from as int),
        },
{
    if pre.len() == 0 {
        proof {
            assert(s@.subrange(from as int, from as int) =~= pre@);
            let w = first_occurrence(s@, pre@, from as int);
            assert(starts_with_at(s@, pre@, from as int));
            assert(!(w < from) && !(from < w));
        }
        return Some(from);
    }
    if pre.len() > s.len() {
        proof {
            assert forall|q: int| from <= q implies !(#[trigger] starts_with_at(s@, pre@, q)) by {}
        }
        return None;
    }
    let last = s.len() - pre.len();
    let mut p: usize = from;
    while p <= last
        invariant
            from <= p,
            p <= s.len(),
            last == s.len() - pre.len(),
            pre.len() >= 1,
            pre.len() <= s.len(),
            from <= s.len(),
            forall|q: int| from <= q < p ==> !(#[trigger] starts_with_at(s@, pre@, q)),
        decreases last + 1 - p,
    {
        if check_prefix_at(s, pre, p) {
            proof {
                assert(from <= p && starts_with_at(s@, pre@, p as int) && forall|q: int|
                    from <= q < p ==> !(#[trigger] starts_with_at(s@, pre@, q)));
                let w = first_occurrence(s@, pre@, from as int);
                assert(!(w < p) && !(p < w));
            }
            return Some(p);
        }
        p += 1;
    }
    proof {
        assert forall|q: int| from <= q implies !(#[trigger] starts_with_at(s@, pre@, q)) by {
            if q > last {
                assert(q + pre@.len() > s@.len());
            }
        }
    }
    None
}


/// Copies the characters of `s` between `a` and `b`.
pub fn sub_vec(s: &Vec<char>, a: usize, b: usize) -> (r: Vec<char>)
    requires
        a <= b <= s@.len(),
    ensures
        r@ == s@.subrange(a as int, b as int),
{
    let mut r: Vec<char> = Vec::new();
    let mut i: usize = a;
    while i < b
        invariant
            a <= i <= b <= s@.len(),
            r@ == s@.subrange(a as int, i as int),
        decreases b - i,
    {
        r.push(s[i]);
        proof {
            assert(s@.subrange(a as int, i + 1 as int) =~= s@.subrange(a as int, i as int).push(
                s@[i as int],
            ));
        }
        i += 1;
    }
    r
}
} // verus!
