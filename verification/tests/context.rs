use rpc_router::context::{get_auth_token, get_room_id};
use rpc_router::envelope::RpcCall;

fn call_with_headers(headers: &str) -> RpcCall {
    RpcCall {
        endpoint: String::from("/messages"),
        body: String::new(),
        method: String::from("GET"),
        headers: String::from(headers),
    }
}

#[test]
fn empty_headers_yield_no_context() {
    let call = call_with_headers("");
    assert_eq!(get_room_id(&call), None);
    assert_eq!(get_auth_token(&call), None);
}

#[test]
fn room_header_parses_integer() {
    let call = call_with_headers("{\"Room\":\"5\"}");
    assert_eq!(get_room_id(&call), Some(5));
}

#[test]
fn room_header_parses_negative_integer() {
    let call = call_with_headers("{\"Room\":\"-12\"}");
    assert_eq!(get_room_id(&call), Some(-12));
}

#[test]
fn non_integer_room_is_absent_not_an_error() {
    let call = call_with_headers("{\"Room\":\"abc\"}");
    assert_eq!(get_room_id(&call), None);
}

#[test]
fn undecodable_headers_yield_no_context() {
    let call = call_with_headers("not json");
    assert_eq!(get_room_id(&call), None);
    assert_eq!(get_auth_token(&call), None);
}

#[test]
fn auth_token_is_returned_verbatim() {
    let call = call_with_headers("{\"Authorization\":\"tok\",\"Room\":\"3\"}");
    assert_eq!(get_auth_token(&call), Some(String::from("tok")));
    assert_eq!(get_room_id(&call), Some(3));
}

#[test]
fn missing_room_key_is_absent() {
    let call = call_with_headers("{\"Authorization\":\"tok\"}");
    assert_eq!(get_room_id(&call), None);
}

#[test]
fn non_string_header_value_fails_the_whole_map() {
    let call = call_with_headers("{\"Room\":\"5\",\"Count\":7}");
    assert_eq!(get_room_id(&call), None);
    assert_eq!(get_auth_token(&call), None);
}
