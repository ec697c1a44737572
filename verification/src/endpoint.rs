//! The endpoint gate: an endpoint is a scheme-less path with an optional
//! query. The path runs to the first `?` or `#` and must begin with `/`; the
//! query is what follows the first `?`; a fragment after the first `#` is
//! discarded. Anything whose path part does not begin with `/` is malformed.

use vstd::prelude::*;

verus! {

/// Index of the first `?` or `#` at or after `i`, or the length when none occurs.
pub open spec fn first_stop(s: Seq<char>, i: int) -> int
    decreases s.len() - i,
{
    if i < 0 || i >= s.len() {
        s.len() as int
    } else if s[i] == '?' || s[i] == '#' {
        i
    } else {
        first_stop(s, i + 1)
    }
}

/// Index of the first `#` at or after `i`, or the length when none occurs.
pub open spec fn first_hash(s: Seq<char>, i: int) -> int
    decreases s.len() - i,
{
    if i < 0 || i >= s.len() {
        s.len() as int
    } else if s[i] == '#' {
        i
    } else {
        first_hash(s, i + 1)
    }
}

/// The path and the optional query an endpoint splits into, or nothing when
/// the endpoint is malformed.
pub open spec fn spec_endpoint_parts(s: Seq<char>) -> Option<(Seq<char>, Option<Seq<char>>)> {
    if s.len() == 0 || s[0] != '/' {
        None
    } else {
        let p = first_stop(s, 0);
        if p == s.len() || s[p] == '#' {
            Some((s.take(p), None))
        } else {
            Some((s.take(p), Some(s.subrange(p + 1, first_hash(s, p + 1)))))
        }
    }
}

/// Splits an endpoint into path and optional query, exactly as
/// `spec_endpoint_parts` states it.
pub fn parse_endpoint(s: &str) -> (r: Option<(String, Option<String>)>)
    ensures
        (r is Some) == (spec_endpoint_parts(s@) is Some),
        r matches Some(parts) ==> spec_endpoint_parts(s@) == Some(
            (parts.0@, parts.1.deep_view()),
        ),
{
    let n = s.unicode_len();
    if n == 0 {
        return None;
    }
    if s.get_char(0) != '/' {
        return None;
    }
    let mut p: usize = 0;
    while p < n && s.get_char(p) != '?' && s.get_char(p) != '#'
        invariant
            0 <= p <= n,
            n == s@.len(),
            first_stop(s@, 0) == first_stop(s@, p as int),
        decreases n - p,
    {
        p += 1;
    }
    proof {
        assert(first_stop(s@, p as int) == p);
    }
    let path = s.substring_char(0, p).to_owned();
    proof {
        assert(path@ =~= s@.take(p as int));
    }
    if p == n {
        return Some((path, None));
    }
    if s.get_char(p) == '#' {
        return Some((path, None));
    }
    let mut q: usize = p + 1;
    while q < n && s.get_char(q) != '#'
        invariant
            p + 1 <= q <= n,
            n == s@.len(),
            first_hash(s@, p as int + 1) == first_hash(s@, q as int),
        decreases n - q,
    {
        q += 1;
    }
    proof {
        assert(first_hash(s@, q as int) == q);
    }
    let query = s.substring_char(p + 1, q).to_owned();
    proof {
        assert(query@ =~= s@.subrange(p as int + 1, q as int));
    }
    Some((path, Some(query)))
}

} // verus!
