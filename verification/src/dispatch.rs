//! The route dispatcher: validates the endpoint, switches on the method and
//! matches the path against the fixed route table, producing exactly one
//! fully parsed domain operation or the single error kind of this layer.

use crate::context::{get_auth_token, spec_auth_token, spec_room_id};
use crate::context::get_room_id;
use crate::endpoint::{parse_endpoint, spec_endpoint_parts};
use crate::envelope::{QueryOptions, RpcCall};
use crate::jsonio::{
    decode_string_field, is_valid_json, json_parses, parse_query_options, spec_query_options_of,
    string_field_of,
};
use crate::numparse::{parse_i64, spec_parse_i64};
use crate::strutil::{match_tail, str_eq, tail_after};
use vstd::prelude::*;

verus! {

/// The single error kind this layer produces: the envelope is not a valid
/// call. Collaborator errors are not reinterpreted here.
#[derive(Clone, Copy, Debug, PartialEq, Eq)]
pub enum RpcError {
    InvalidRpcCall,
}

/// One domain operation with its fully parsed arguments.
#[derive(Debug, PartialEq, Eq)]
pub enum Operation {
    GetFile { id: String },
    GetMessages { options: QueryOptions },
    GetDeletedMessages { options: QueryOptions },
    GetModerators,
    GetBlockList,
    GetMemberCount,
    GetAuthTokenChallenge { public_key: String },
    InsertMessage { message: String },
    Ban { public_key: String },
    ClaimAuthToken { public_key: String },
    StoreFile { file: String },
    DeleteMessage { server_id: i64 },
    Unban { public_key: String },
    DeleteAuthToken,
}

/// `Operation` at the specification level: every text argument as a
/// character sequence.
pub enum OpView {
    GetFile { id: Seq<char> },
    GetMessages { options: QueryOptions },
    GetDeletedMessages { options: QueryOptions },
    GetModerators,
    GetBlockList,
    GetMemberCount,
    GetAuthTokenChallenge { public_key: Seq<char> },
    InsertMessage { message: Seq<char> },
    Ban { public_key: Seq<char> },
    ClaimAuthToken { public_key: Seq<char> },
    StoreFile { file: Seq<char> },
    DeleteMessage { server_id: i64 },
    Unban { public_key: Seq<char> },
    DeleteAuthToken,
}

impl View for Operation {
    type V = OpView;

    open spec fn view(&self) -> OpView {
        match self {
            Operation::GetFile { id } => OpView::GetFile { id: id@ },
            Operation::GetMessages { options } => OpView::GetMessages { options: *options },
            Operation::GetDeletedMessages { options } => OpView::GetDeletedMessages {
                options: *options,
            },
            Operation::GetModerators => OpView::GetModerators,
            Operation::GetBlockList => OpView::GetBlockList,
            Operation::GetMemberCount => OpView::GetMemberCount,
            Operation::GetAuthTokenChallenge { public_key } => OpView::GetAuthTokenChallenge {
                public_key: public_key@,
            },
            Operation::InsertMessage { message } => OpView::InsertMessage { message: message@ },
            Operation::Ban { public_key } => OpView::Ban { public_key: public_key@ },
            Operation::ClaimAuthToken { public_key } => OpView::ClaimAuthToken {
                public_key: public_key@,
            },
            Operation::StoreFile { file } => OpView::StoreFile { file: file@ },
            Operation::DeleteMessage { server_id } => OpView::DeleteMessage {
                server_id: *server_id,
            },
            Operation::Unban { public_key } => OpView::Unban { public_key: public_key@ },
            Operation::DeleteAuthToken => OpView::DeleteAuthToken,
        }
    }
}

/// A routed call: the selected operation, plus the bearer token that the
/// write operations receive.
#[derive(Debug, PartialEq, Eq)]
pub struct RoutedCall {
    pub operation: Operation,
    pub auth_token: Option<String>,
}

/// `RoutedCall` at the specification level.
pub struct RoutedCallView {
    pub operation: OpView,
    pub auth_token: Option<Seq<char>>,
}

impl View for RoutedCall {
    type V = RoutedCallView;

    open spec fn view(&self) -> RoutedCallView {
        RoutedCallView {
            operation: self.operation@,
            auth_token: self.auth_token.deep_view(),
        }
    }
}

/// The GET route table, first match wins.
pub open spec fn spec_route_get(path: Seq<char>, query: Option<Seq<char>>) -> Result<
    OpView,
    RpcError,
> {
    match tail_after(path, "/files/"@) {
        Some(id) => Ok(OpView::GetFile { id }),
        None => if path == "/messages"@ {
            match query {
                None => Err(RpcError::InvalidRpcCall),
                Some(q) => match spec_query_options_of(q) {
                    None => Err(RpcError::InvalidRpcCall),
                    Some(options) => Ok(OpView::GetMessages { options }),
                },
            }
        } else if path == "/deleted_messages"@ {
            match query {
                None => Err(RpcError::InvalidRpcCall),
                Some(q) => match spec_query_options_of(q) {
                    None => Err(RpcError::InvalidRpcCall),
                    Some(options) => Ok(OpView::GetDeletedMessages { options }),
                },
            }
        } else if path == "/moderators"@ {
            Ok(OpView::GetModerators)
        } else if path == "/block_list"@ {
            Ok(OpView::GetBlockList)
        } else if path == "/member_count"@ {
            Ok(OpView::GetMemberCount)
        } else if path == "/auth_token_challenge"@ {
            match query {
                None => Err(RpcError::InvalidRpcCall),
                Some(q) => match string_field_of(q, "public_key"@) {
                    None => Err(RpcError::InvalidRpcCall),
                    Some(public_key) => Ok(OpView::GetAuthTokenChallenge { public_key }),
                },
            }
        } else {
            Err(RpcError::InvalidRpcCall)
        },
    }
}

/// The POST route table; every body is strictly decoded per route.
pub open spec fn spec_route_post(path: Seq<char>, body: Seq<char>) -> Result<OpView, RpcError> {
    if path == "/messages"@ {
        if json_parses(body) {
            Ok(OpView::InsertMessage { message: body })
        } else {
            Err(RpcError::InvalidRpcCall)
        }
    } else if path == "/block_list"@ {
        match string_field_of(body, "public_key"@) {
            None => Err(RpcError::InvalidRpcCall),
            Some(public_key) => Ok(OpView::Ban { public_key }),
        }
    } else if path == "/claim_auth_token"@ {
        match string_field_of(body, "public_key"@) {
            None => Err(RpcError::InvalidRpcCall),
            Some(public_key) => Ok(OpView::ClaimAuthToken { public_key }),
        }
    } else if path == "/files"@ {
        match string_field_of(body, "file"@) {
            None => Err(RpcError::InvalidRpcCall),
            Some(file) => Ok(OpView::StoreFile { file }),
        }
    } else {
        Err(RpcError::InvalidRpcCall)
    }
}

/// The DELETE route table.
pub open spec fn spec_route_delete(path: Seq<char>) -> Result<OpView, RpcError> {
    match tail_after(path, "/messages/"@) {
        Some(t) => match spec_parse_i64(t) {
            None => Err(RpcError::InvalidRpcCall),
            Some(server_id) => Ok(OpView::DeleteMessage { server_id }),
        },
        None => match tail_after(path, "/block_list/"@) {
            Some(public_key) => Ok(OpView::Unban { public_key }),
            None => if path == "/auth_token"@ {
                Ok(OpView::DeleteAuthToken)
            } else {
                Err(RpcError::InvalidRpcCall)
            },
        },
    }
}

/// The whole routing decision for one envelope: endpoint gate, then method
/// gate, then the method's route table; the write methods also receive the
/// extracted bearer token.
pub open spec fn spec_route(call: RpcCall) -> Result<RoutedCallView, RpcError> {
    match spec_endpoint_parts(call.endpoint@) {
        None => Err(RpcError::InvalidRpcCall),
        Some(parts) => if call.method@ == "GET"@ {
            match spec_route_get(parts.0, parts.1) {
                Ok(operation) => Ok(RoutedCallView { operation, auth_token: None }),
                Err(e) => Err(e),
            }
        } else if call.method@ == "POST"@ {
            match spec_route_post(parts.0, call.body@) {
                Ok(operation) => Ok(
                    RoutedCallView { operation, auth_token: spec_auth_token(call.headers@) },
                ),
                Err(e) => Err(e),
            }
        } else if call.method@ == "DELETE"@ {
            match spec_route_delete(parts.0) {
                Ok(operation) => Ok(
                    RoutedCallView { operation, auth_token: spec_auth_token(call.headers@) },
                ),
                Err(e) => Err(e),
            }
        } else {
            Err(RpcError::InvalidRpcCall)
        },
    }
}

/// Routes a GET path and its optional query, exactly per `spec_route_get`.
pub fn route_get(path: &str, query: Option<&str>) -> (r: Result<Operation, RpcError>)
    ensures
        r matches Ok(op) ==> spec_route_get(path@, query.deep_view()) == Ok::<
            OpView,
            RpcError,
        >(op@),
        r matches Err(e) ==> spec_route_get(path@, query.deep_view()) == Err::<
            OpView,
            RpcError,
        >(e),
{
    match match_tail(path, "/files/") {
        Some(id) => Ok(Operation::GetFile { id }),
        None => if str_eq(path, "/messages") {
            match query {
                None => Err(RpcError::InvalidRpcCall),
                Some(q) => match parse_query_options(q) {
                    None => Err(RpcError::InvalidRpcCall),
                    Some(options) => Ok(Operation::GetMessages { options }),
                },
            }
        } else if str_eq(path, "/deleted_messages") {
            match query {
                None => Err(RpcError::InvalidRpcCall),
                Some(q) => match parse_query_options(q) {
                    None => Err(RpcError::InvalidRpcCall),
                    Some(options) => Ok(Operation::GetDeletedMessages { options }),
                },
            }
        } else if str_eq(path, "/moderators") {
            Ok(Operation::GetModerators)
        } else if str_eq(path, "/block_list") {
            Ok(Operation::GetBlockList)
        } else if str_eq(path, "/member_count") {
            Ok(Operation::GetMemberCount)
        } else if str_eq(path, "/auth_token_challenge") {
            match query {
                None => Err(RpcError::InvalidRpcCall),
                Some(q) => match decode_string_field(q, "public_key") {
                    None => Err(RpcError::InvalidRpcCall),
                    Some(public_key) => Ok(Operation::GetAuthTokenChallenge { public_key }),
                },
            }
        } else {
            Err(RpcError::InvalidRpcCall)
        },
    }
}

/// Routes a POST path with its raw body, exactly per `spec_route_post`.
pub fn route_post(path: &str, body: &str) -> (r: Result<Operation, RpcError>)
    ensures
        r matches Ok(op) ==> spec_route_post(path@, body@) == Ok::<OpView, RpcError>(op@),
        r matches Err(e) ==> spec_route_post(path@, body@) == Err::<OpView, RpcError>(e),
{
    if str_eq(path, "/messages") {
        if is_valid_json(body) {
            Ok(Operation::InsertMessage { message: body.to_owned() })
        } else {
            Err(RpcError::InvalidRpcCall)
        }
    } else if str_eq(path, "/block_list") {
        match decode_string_field(body, "public_key") {
            None => Err(RpcError::InvalidRpcCall),
            Some(public_key) => Ok(Operation::Ban { public_key }),
        }
    } else if str_eq(path, "/claim_auth_token") {
        match decode_string_field(body, "public_key") {
            None => Err(RpcError::InvalidRpcCall),
            Some(public_key) => Ok(Operation::ClaimAuthToken { public_key }),
        }
    } else if str_eq(path, "/files") {
        match decode_string_field(body, "file") {
            None => Err(RpcError::InvalidRpcCall),
            Some(file) => Ok(Operation::StoreFile { file }),
        }
    } else {
        Err(RpcError::InvalidRpcCall)
    }
}

/// Routes a DELETE path, exactly per `spec_route_delete`.
pub fn route_delete(path: &str) -> (r: Result<Operation, RpcError>)
    ensures
        r matches Ok(op) ==> spec_route_delete(path@) == Ok::<OpView, RpcError>(op@),
        r matches Err(e) ==> spec_route_delete(path@) == Err::<OpView, RpcError>(e),
{
    match match_tail(path, "/messages/") {
        Some(t) => match parse_i64(t.as_str()) {
            None => Err(RpcError::InvalidRpcCall),
            Some(server_id) => Ok(Operation::DeleteMessage { server_id }),
        },
        None => match match_tail(path, "/block_list/") {
            Some(public_key) => Ok(Operation::Unban { public_key }),
            None => if str_eq(path, "/auth_token") {
                Ok(Operation::DeleteAuthToken)
            } else {
                Err(RpcError::InvalidRpcCall)
            },
        },
    }
}

/// The room gate, the dispatcher's first gate: an envelope without a room is
/// not a valid call; the room's pool is then resolved by the caller's
/// external resolver before any path or method is examined.
pub fn room_gate(call: &RpcCall) -> (r: Result<i64, RpcError>)
    ensures
        r == (match spec_room_id(call.headers@) {
            Some(id) => Ok::<i64, RpcError>(id),
            None => Err::<i64, RpcError>(RpcError::InvalidRpcCall),
        }),
{
    match get_room_id(call) {
        Some(id) => Ok(id),
        None => Err(RpcError::InvalidRpcCall),
    }
}

/// Translates one envelope into its routed call, exactly per `spec_route`:
/// endpoint gate, method gate, then the method's route table.
pub fn route_rpc_call(call: &RpcCall) -> (r: Result<RoutedCall, RpcError>)
    ensures
        r matches Ok(rc) ==> spec_route(*call) == Ok::<RoutedCallView, RpcError>(rc@),
        r matches Err(e) ==> spec_route(*call) == Err::<RoutedCallView, RpcError>(e),
{
    match parse_endpoint(call.endpoint.as_str()) {
        None => Err(RpcError::InvalidRpcCall),
        Some((path, query)) => if str_eq(call.method.as_str(), "GET") {
            let q = match &query {
                Some(qs) => Some(qs.as_str()),
                None => None,
            };
            match route_get(path.as_str(), q) {
                Ok(operation) => Ok(RoutedCall { operation, auth_token: None }),
                Err(e) => Err(e),
            }
        } else if str_eq(call.method.as_str(), "POST") {
            let auth_token = get_auth_token(call);
            match route_post(path.as_str(), call.body.as_str()) {
                Ok(operation) => Ok(RoutedCall { operation, auth_token }),
                Err(e) => Err(e),
            }
        } else if str_eq(call.method.as_str(), "DELETE") {
            let auth_token = get_auth_token(call);
            match route_delete(path.as_str()) {
                Ok(operation) => Ok(RoutedCall { operation, auth_token }),
                Err(e) => Err(e),
            }
        } else {
            Err(RpcError::InvalidRpcCall)
        },
    }
}

/// Law: a method outside GET, POST and DELETE is rejected as an invalid call
/// whatever the endpoint, the body and the headers hold.
pub proof fn lemma_unknown_method_rejected(call: RpcCall)
    requires
        call.method@ != "GET"@,
        call.method@ != "POST"@,
        call.method@ != "DELETE"@,
    ensures
        spec_route(call) == Err::<RoutedCallView, RpcError>(RpcError::InvalidRpcCall),
{
}

/// Law: routing is a pure function of the envelope's text, so re-dispatching
/// an identical envelope yields the identical routing decision and room; only
/// a collaborator's side effects may differ between the two dispatches.
pub proof fn lemma_route_idempotent(first: RpcCall, second: RpcCall)
    requires
        first.endpoint@ == second.endpoint@,
        first.body@ == second.body@,
        first.method@ == second.method@,
        first.headers@ == second.headers@,
    ensures
        spec_route(first) == spec_route(second),
        spec_room_id(first.headers@) == spec_room_id(second.headers@),
{
}

} // verus!
