//! Context extraction: the optional room identifier and the optional bearer
//! token derived from the envelope's raw header text. Absence and malformed
//! text both mean "absent"; neither is an error here.

use crate::envelope::RpcCall;
use crate::jsonio::{decode_header_map, headers_map_of, pairs_represent};
use crate::numparse::{parse_i64, spec_parse_i64};
use crate::strutil::str_eq;
use vstd::assert_by_contradiction;
use vstd::prelude::*;

verus! {

/// The room a header text addresses: the `Room` entry of the decoded header
/// mapping, read as a signed integer. An empty header text, an undecodable
/// one, a missing entry and a non-numeric entry all mean no room.
pub open spec fn spec_room_id(headers: Seq<char>) -> Option<i64> {
    if headers.len() == 0 {
        None
    } else {
        match headers_map_of(headers) {
            None => None,
            Some(m) => if m.contains_key("Room"@) {
                spec_parse_i64(m["Room"@])
            } else {
                None
            },
        }
    }
}

/// The bearer token a header text carries: the `Authorization` entry of the
/// decoded header mapping, verbatim.
pub open spec fn spec_auth_token(headers: Seq<char>) -> Option<Seq<char>> {
    if headers.len() == 0 {
        None
    } else {
        match headers_map_of(headers) {
            None => None,
            Some(m) => if m.contains_key("Authorization"@) {
                Some(m["Authorization"@])
            } else {
                None
            },
        }
    }
}

/// Looks `key` up among the decoded header pairs; by `pairs_represent` the
/// answer is exactly the mapping's entry at `key`.
fn lookup_pair(
    pairs: &Vec<(String, String)>,
    key: &str,
    Ghost(m): Ghost<Map<Seq<char>, Seq<char>>>,
) -> (r: Option<String>)
    requires
        pairs_represent(pairs@, m),
    ensures
        r matches Some(v) ==> m.contains_key(key@) && v@ == m[key@],
        r is None ==> !m.contains_key(key@),
{
    let n = pairs.len();
    let mut i: usize = 0;
    while i < n
        invariant
            0 <= i <= n,
            n == pairs@.len(),
            pairs_represent(pairs@, m),
            forall|j: int| 0 <= j < i ==> (#[trigger] pairs@[j]).0@ != key@,
        decreases n - i,
    {
        if str_eq(pairs[i].0.as_str(), key) {
            return Some(pairs[i].1.clone());
        }
        i += 1;
    }
    proof {
        assert_by_contradiction!(!m.contains_key(key@), {
            let j = choose|j: int| 0 <= j < pairs@.len() && (#[trigger] pairs@[j]).0@ == key@;
        });
    }
    None
}

/// Derives the optional room identifier from the envelope's raw header text,
/// exactly as `spec_room_id` states it.
pub fn get_room_id(rpc_call: &RpcCall) -> (r: Option<i64>)
    ensures
        r == spec_room_id(rpc_call.headers@),
{
    if rpc_call.headers.as_str().is_empty() {
        return None;
    }
    match decode_header_map(rpc_call.headers.as_str()) {
        None => None,
        Some(pairs) => {
            let ghost m = headers_map_of(rpc_call.headers@)->0;
            match lookup_pair(&pairs, "Room", Ghost(m)) {
                None => None,
                Some(v) => parse_i64(v.as_str()),
            }
        },
    }
}

/// Derives the optional bearer token from the envelope's raw header text,
/// exactly as `spec_auth_token` states it.
pub fn get_auth_token(rpc_call: &RpcCall) -> (r: Option<String>)
    ensures
        r.deep_view() == spec_auth_token(rpc_call.headers@),
{
    if rpc_call.headers.as_str().is_empty() {
        return None;
    }
    match decode_header_map(rpc_call.headers.as_str()) {
        None => None,
        Some(pairs) => {
            let ghost m = headers_map_of(rpc_call.headers@)->0;
            lookup_pair(&pairs, "Authorization", Ghost(m))
        },
    }
}

/// Law: an envelope with an empty header text yields neither a room nor an
/// auth token.
pub proof fn lemma_empty_headers_absent(headers: Seq<char>)
    requires
        headers.len() == 0,
    ensures
        spec_room_id(headers) is None,
        spec_auth_token(headers) is None,
{
}

/// Law: when a nonempty header text decodes to a mapping with a `Room` entry,
/// the room is exactly the decimal reading of that entry; in particular a
/// non-numeric entry yields no room rather than an error.
pub proof fn lemma_room_header_parsed(headers: Seq<char>, m: Map<Seq<char>, Seq<char>>)
    requires
        headers.len() != 0,
        headers_map_of(headers) == Some(m),
        m.contains_key("Room"@),
    ensures
        spec_room_id(headers) == spec_parse_i64(m["Room"@]),
{
}

} // verus!
