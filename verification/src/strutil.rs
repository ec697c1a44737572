//! Small verified string utilities used by the route dispatcher: equality of
//! character sequences and matching a path against a prefix with exactly one
//! trailing dynamic segment.

use vstd::assert_by_contradiction;
use vstd::prelude::*;

verus! {

/// The tail of `p` after `prefix`, provided `p` starts with `prefix` and the
/// tail holds no further `/`; `None` otherwise. With a prefix such as
/// `"/files/"` this captures a route pattern with exactly one trailing
/// dynamic segment (the tail may be empty).
pub open spec fn tail_after(p: Seq<char>, prefix: Seq<char>) -> Option<Seq<char>> {
    if p.len() >= prefix.len() && p.take(prefix.len() as int) == prefix && (forall|i: int|
        prefix.len() <= i < p.len() ==> (#[trigger] p[i]) != '/') {
        Some(p.skip(prefix.len() as int))
    } else {
        None
    }
}

/// Character-by-character string equality, settled at the view level.
pub fn str_eq(a: &str, b: &str) -> (r: bool)
    ensures
        r == (a@ == b@),
{
    let an = a.unicode_len();
    let bn = b.unicode_len();
    if an != bn {
        return false;
    }
    let mut i: usize = 0;
    while i < an
        invariant
            0 <= i <= an,
            an == a@.len(),
            an == b@.len(),
            forall|j: int| 0 <= j < i ==> a@[j] == b@[j],
        decreases an - i,
    {
        if a.get_char(i) != b.get_char(i) {
            return false;
        }
        i += 1;
    }
    proof {
        assert(a@ =~= b@);
    }
    true
}

/// Matches `path` against `prefix` followed by one dynamic segment, handing
/// the segment out; the decision is exactly `tail_after` on the views.
pub fn match_tail(path: &str, prefix: &str) -> (r: Option<String>)
    ensures
        r.deep_view() == tail_after(path@, prefix@),
{
    let n = path.unicode_len();
    let m = prefix.unicode_len();
    if n < m {
        return None;
    }
    let mut i: usize = 0;
    while i < m
        invariant
            0 <= i <= m,
            m <= n,
            n == path@.len(),
            m == prefix@.len(),
            forall|j: int| 0 <= j < i ==> path@[j] == prefix@[j],
        decreases m - i,
    {
        if path.get_char(i) != prefix.get_char(i) {
            proof {
                assert(path@.take(m as int)[i as int] != prefix@[i as int]);
            }
            return None;
        }
        i += 1;
    }
    proof {
        assert(path@.take(m as int) =~= prefix@);
    }
    let mut k: usize = m;
    while k < n
        invariant
            m <= k <= n,
            n == path@.len(),
            m == prefix@.len(),
            forall|j: int| m <= j < k ==> path@[j] != '/',
        decreases n - k,
    {
        if path.get_char(k) == '/' {
            proof {
                assert_by_contradiction!(tail_after(path@, prefix@) is None, {
                    assert(path@[k as int] != '/');
                });
            }
            return None;
        }
        k += 1;
    }
    let tail = path.substring_char(m, n).to_owned();
    proof {
        assert(tail@ =~= path@.skip(m as int));
    }
    Some(tail)
}

} // verus!
