//! The wire-shaped request envelope and the query-option shape decoded for
//! the read endpoints.

use vstd::prelude::*;

verus! {

/// The transport-agnostic request wrapper. `headers` is itself a serialized
/// string-to-string mapping; absent keys mean the attribute is unset.
#[derive(Debug)]
pub struct RpcCall {
    pub endpoint: String,
    pub body: String,
    pub method: String,
    pub headers: String,
}

/// Options attached as a query string to the message-listing endpoints.
#[derive(Clone, Copy, Debug, PartialEq, Eq)]
pub struct QueryOptions {
    pub limit: Option<u16>,
    pub from_server_id: Option<i64>,
}

} // verus!
