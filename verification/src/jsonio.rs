//! Trusted boundary around serde_json. Each decode the routing logic needs is
//! one wrapper whose result is pinned to a named function of the input text,
//! so that every caller's contract is exact over that name; nothing else about
//! serde_json is assumed.

use crate::envelope::QueryOptions;
use vstd::prelude::*;

verus! {

/// The string-to-string mapping a header text decodes to, when serde_json
/// decodes it to one.
pub uninterp spec fn headers_map_of(s: Seq<char>) -> Option<Map<Seq<char>, Seq<char>>>;

/// Whether a pair sequence holds exactly the entries of a mapping, in some
/// order.
pub open spec fn pairs_represent(v: Seq<(String, String)>, m: Map<Seq<char>, Seq<char>>) -> bool {
    &&& forall|i: int|
        0 <= i < v.len() ==> m.contains_key((#[trigger] v[i]).0@) && m[v[i].0@] == v[i].1@
    &&& forall|k: Seq<char>|
        #[trigger] m.contains_key(k) ==> exists|i: int| 0 <= i < v.len() && (#[trigger] v[i]).0@ == k
}

/// Relies on serde_json::from_str decoding to std's map of strings to
/// strings: whether the header text decodes, and to which entries, depends on
/// the text alone. The entries come out as pairs in no promised order.
#[verifier::external_body]
pub(crate) fn decode_header_map(s: &str) -> (r: Option<Vec<(String, String)>>)
    ensures
        (r is Some) == (headers_map_of(s@) is Some),
        r matches Some(v) ==> headers_map_of(s@) matches Some(m) && pairs_represent(v@, m),
{
    let m: std::collections::HashMap<String, String> = match serde_json::from_str(s) {
        Ok(m) => m,
        Err(_) => return None,
    };
    Some(m.into_iter().collect())
}

/// The `limit` and `from_server_id` fields an option text decodes to: present
/// fields must be integers of the matching sign, absent or null fields are
/// simply absent, and any other shape decodes to nothing.
pub uninterp spec fn query_options_raw_of(s: Seq<char>) -> Option<(Option<u64>, Option<i64>)>;

/// Relies on serde_json::from_str (to a generic serde_json::Value) together
/// with Value::is_object, Value::get, Value::as_u64 and Value::as_i64: the
/// decoded fields depend on the option text alone.
#[verifier::external_body]
pub(crate) fn decode_query_raw(s: &str) -> (r: Option<(Option<u64>, Option<i64>)>)
    ensures
        r == query_options_raw_of(s@),
{
    let v: serde_json::Value = match serde_json::from_str(s) { Ok(v) => v, Err(_) => return None };
    if !v.is_object() { return None; }
    let limit = match v.get("limit") {
        None | Some(serde_json::Value::Null) => None,
        Some(x) => match x.as_u64() { Some(u) => Some(u), None => return None },
    };
    let from_server_id = match v.get("from_server_id") {
        None | Some(serde_json::Value::Null) => None,
        Some(x) => match x.as_i64() { Some(u) => Some(u), None => return None },
    };
    Some((limit, from_server_id))
}

/// The string held under `key` in an object text, when the text decodes to an
/// object holding a string there.
pub uninterp spec fn string_field_of(s: Seq<char>, key: Seq<char>) -> Option<Seq<char>>;

/// Relies on serde_json::from_str (to a generic serde_json::Value) together
/// with Value::get: the field depends on the object text and the key alone.
#[verifier::external_body]
pub(crate) fn decode_string_field(s: &str, key: &str) -> (r: Option<String>)
    ensures
        (r is Some) == (string_field_of(s@, key@) is Some),
        r matches Some(v) ==> string_field_of(s@, key@) == Some(v@),
{
    let val: serde_json::Value = match serde_json::from_str(s) {
        Ok(v) => v,
        Err(_) => return None,
    };
    match val.get(key) {
        Some(serde_json::Value::String(x)) => Some(x.clone()),
        _ => None,
    }
}

/// Whether a text is well-formed JSON at all.
pub uninterp spec fn json_parses(s: Seq<char>) -> bool;

/// Relies on serde_json::from_str to a generic serde_json::Value: whether a
/// text parses as JSON depends on the text alone.
#[verifier::external_body]
pub(crate) fn is_valid_json(s: &str) -> (r: bool)
    ensures
        r == json_parses(s@),
{
    serde_json::from_str::<serde_json::Value>(s).is_ok()
}

/// The query options an option text denotes: the raw decoded fields, with the
/// message limit additionally required to fit in sixteen bits.
pub open spec fn spec_query_options_of(s: Seq<char>) -> Option<QueryOptions> {
    match query_options_raw_of(s) {
        None => None,
        Some(raw) => match raw.0 {
            None => Some(QueryOptions { limit: None, from_server_id: raw.1 }),
            Some(u) => if u <= u16::MAX as u64 {
                Some(QueryOptions { limit: Some(u as u16), from_server_id: raw.1 })
            } else {
                None
            },
        },
    }
}

/// Decodes the query options attached to a read endpoint, exactly as
/// `spec_query_options_of` states it.
pub fn parse_query_options(s: &str) -> (r: Option<QueryOptions>)
    ensures
        r == spec_query_options_of(s@),
{
    match decode_query_raw(s) {
        None => None,
        Some((limit_raw, from_server_id)) => match limit_raw {
            None => Some(QueryOptions { limit: None, from_server_id }),
            Some(u) => if u <= 65535 {
                Some(QueryOptions { limit: Some(u as u16), from_server_id })
            } else {
                None
            },
        },
    }
}

} // verus!
