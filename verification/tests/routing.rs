use rpc_router::dispatch::{room_gate, route_rpc_call, Operation, RoutedCall, RpcError};
use rpc_router::envelope::{QueryOptions, RpcCall};

fn envelope(method: &str, endpoint: &str, body: &str, headers: &str) -> RpcCall {
    RpcCall {
        endpoint: String::from(endpoint),
        body: String::from(body),
        method: String::from(method),
        headers: String::from(headers),
    }
}

const ROOM_HEADERS: &str = "{\"Room\":\"1\"}";
const AUTH_HEADERS: &str = "{\"Room\":\"1\",\"Authorization\":\"tok\"}";

#[test]
fn unknown_method_is_rejected_regardless_of_path() {
    let call = envelope("PUT", "/messages", "", ROOM_HEADERS);
    assert_eq!(route_rpc_call(&call), Err(RpcError::InvalidRpcCall));
    let call = envelope("get", "/moderators", "x", "");
    assert_eq!(route_rpc_call(&call), Err(RpcError::InvalidRpcCall));
}

#[test]
fn room_gate_accepts_a_numbered_room() {
    let call = envelope("GET", "/moderators", "", "{\"Room\":\"5\"}");
    assert_eq!(room_gate(&call), Ok(5));
}

#[test]
fn room_gate_rejects_a_missing_room() {
    let call = envelope("GET", "/moderators", "", "");
    assert_eq!(room_gate(&call), Err(RpcError::InvalidRpcCall));
}

#[test]
fn get_file_with_over_long_tail_is_rejected() {
    let call = envelope("GET", "/files/x/y", "", ROOM_HEADERS);
    assert_eq!(route_rpc_call(&call), Err(RpcError::InvalidRpcCall));
}

#[test]
fn get_files_without_tail_is_rejected() {
    let call = envelope("GET", "/files", "", ROOM_HEADERS);
    assert_eq!(route_rpc_call(&call), Err(RpcError::InvalidRpcCall));
}

#[test]
fn get_file_by_id_is_routed() {
    let call = envelope("GET", "/files/abc123", "", ROOM_HEADERS);
    assert_eq!(
        route_rpc_call(&call),
        Ok(RoutedCall {
            operation: Operation::GetFile { id: String::from("abc123") },
            auth_token: None,
        })
    );
}

#[test]
fn get_messages_without_query_is_rejected() {
    let call = envelope("GET", "/messages", "", ROOM_HEADERS);
    assert_eq!(route_rpc_call(&call), Err(RpcError::InvalidRpcCall));
}

#[test]
fn get_messages_with_limit_is_routed() {
    let call = envelope("GET", "/messages?{\"limit\":10}", "", ROOM_HEADERS);
    assert_eq!(
        route_rpc_call(&call),
        Ok(RoutedCall {
            operation: Operation::GetMessages {
                options: QueryOptions { limit: Some(10), from_server_id: None },
            },
            auth_token: None,
        })
    );
}

#[test]
fn get_messages_with_undecodable_query_is_rejected() {
    let call = envelope("GET", "/messages?limit=10", "", ROOM_HEADERS);
    assert_eq!(route_rpc_call(&call), Err(RpcError::InvalidRpcCall));
}

#[test]
fn get_messages_with_oversized_limit_is_rejected() {
    let call = envelope("GET", "/messages?{\"limit\":70000}", "", ROOM_HEADERS);
    assert_eq!(route_rpc_call(&call), Err(RpcError::InvalidRpcCall));
}

#[test]
fn get_deleted_messages_with_both_options_is_routed() {
    let call = envelope(
        "GET",
        "/deleted_messages?{\"limit\":256,\"from_server_id\":-3}",
        "",
        ROOM_HEADERS,
    );
    assert_eq!(
        route_rpc_call(&call),
        Ok(RoutedCall {
            operation: Operation::GetDeletedMessages {
                options: QueryOptions { limit: Some(256), from_server_id: Some(-3) },
            },
            auth_token: None,
        })
    );
}

#[test]
fn plain_get_routes_are_matched_exactly() {
    for (endpoint, operation) in [
        ("/moderators", Operation::GetModerators),
        ("/block_list", Operation::GetBlockList),
        ("/member_count", Operation::GetMemberCount),
    ] {
        let call = envelope("GET", endpoint, "", ROOM_HEADERS);
        assert_eq!(
            route_rpc_call(&call),
            Ok(RoutedCall { operation, auth_token: None })
        );
    }
}

#[test]
fn auth_token_challenge_needs_a_public_key_query() {
    let call = envelope("GET", "/auth_token_challenge", "", ROOM_HEADERS);
    assert_eq!(route_rpc_call(&call), Err(RpcError::InvalidRpcCall));
    let call = envelope(
        "GET",
        "/auth_token_challenge?{\"public_key\":\"pk\"}",
        "",
        ROOM_HEADERS,
    );
    assert_eq!(
        route_rpc_call(&call),
        Ok(RoutedCall {
            operation: Operation::GetAuthTokenChallenge { public_key: String::from("pk") },
            auth_token: None,
        })
    );
}

#[test]
fn unknown_get_endpoint_is_rejected() {
    let call = envelope("GET", "/filesystem/abc", "", ROOM_HEADERS);
    assert_eq!(route_rpc_call(&call), Err(RpcError::InvalidRpcCall));
}

#[test]
fn endpoint_not_starting_with_slash_is_rejected() {
    let call = envelope("GET", "moderators", "", ROOM_HEADERS);
    assert_eq!(route_rpc_call(&call), Err(RpcError::InvalidRpcCall));
}

#[test]
fn post_message_with_valid_json_body_is_routed_with_token() {
    let call = envelope("POST", "/messages", "{\"text\":\"hi\"}", AUTH_HEADERS);
    assert_eq!(
        route_rpc_call(&call),
        Ok(RoutedCall {
            operation: Operation::InsertMessage { message: String::from("{\"text\":\"hi\"}") },
            auth_token: Some(String::from("tok")),
        })
    );
}

#[test]
fn post_message_with_invalid_json_body_is_rejected() {
    let call = envelope("POST", "/messages", "not json", AUTH_HEADERS);
    assert_eq!(route_rpc_call(&call), Err(RpcError::InvalidRpcCall));
}

#[test]
fn post_ban_carries_public_key_and_token() {
    let call = envelope("POST", "/block_list", "{\"public_key\":\"pk1\"}", AUTH_HEADERS);
    assert_eq!(
        route_rpc_call(&call),
        Ok(RoutedCall {
            operation: Operation::Ban { public_key: String::from("pk1") },
            auth_token: Some(String::from("tok")),
        })
    );
}

#[test]
fn post_ban_without_public_key_is_rejected() {
    let call = envelope("POST", "/block_list", "{\"public\":\"pk1\"}", AUTH_HEADERS);
    assert_eq!(route_rpc_call(&call), Err(RpcError::InvalidRpcCall));
}

#[test]
fn post_claim_auth_token_is_routed() {
    let call = envelope("POST", "/claim_auth_token", "{\"public_key\":\"pk2\"}", AUTH_HEADERS);
    assert_eq!(
        route_rpc_call(&call),
        Ok(RoutedCall {
            operation: Operation::ClaimAuthToken { public_key: String::from("pk2") },
            auth_token: Some(String::from("tok")),
        })
    );
}

#[test]
fn post_file_is_routed() {
    let call = envelope("POST", "/files", "{\"file\":\"Zm9v\"}", ROOM_HEADERS);
    assert_eq!(
        route_rpc_call(&call),
        Ok(RoutedCall {
            operation: Operation::StoreFile { file: String::from("Zm9v") },
            auth_token: None,
        })
    );
}

#[test]
fn delete_message_by_server_id_is_routed() {
    let call = envelope("DELETE", "/messages/42", "", AUTH_HEADERS);
    assert_eq!(
        route_rpc_call(&call),
        Ok(RoutedCall {
            operation: Operation::DeleteMessage { server_id: 42 },
            auth_token: Some(String::from("tok")),
        })
    );
}

#[test]
fn delete_message_with_non_integer_id_is_rejected() {
    let call = envelope("DELETE", "/messages/abc", "", AUTH_HEADERS);
    assert_eq!(route_rpc_call(&call), Err(RpcError::InvalidRpcCall));
}

#[test]
fn delete_message_with_over_long_tail_is_rejected() {
    let call = envelope("DELETE", "/messages/4/2", "", AUTH_HEADERS);
    assert_eq!(route_rpc_call(&call), Err(RpcError::InvalidRpcCall));
}

#[test]
fn delete_unban_is_routed() {
    let call = envelope("DELETE", "/block_list/pk1", "", AUTH_HEADERS);
    assert_eq!(
        route_rpc_call(&call),
        Ok(RoutedCall {
            operation: Operation::Unban { public_key: String::from("pk1") },
            auth_token: Some(String::from("tok")),
        })
    );
}

#[test]
fn delete_auth_token_is_an_exact_match() {
    let call = envelope("DELETE", "/auth_token", "", AUTH_HEADERS);
    assert_eq!(
        route_rpc_call(&call),
        Ok(RoutedCall {
            operation: Operation::DeleteAuthToken,
            auth_token: Some(String::from("tok")),
        })
    );
    let call = envelope("DELETE", "/auth_token/x", "", AUTH_HEADERS);
    assert_eq!(route_rpc_call(&call), Err(RpcError::InvalidRpcCall));
}

#[test]
fn dispatching_twice_yields_the_same_decision() {
    let call = envelope("POST", "/block_list", "{\"public_key\":\"pk1\"}", AUTH_HEADERS);
    let first = route_rpc_call(&call);
    let second = route_rpc_call(&call);
    assert_eq!(first, second);
    assert_eq!(room_gate(&call), room_gate(&call));
}
