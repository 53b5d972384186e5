use clutch_hub_api::codec::{
    build_request, decode_response, encode_request, extract_id_from_response, interpret_response,
};
use clutch_hub_api::error::{CallError, ErrorKind};
use clutch_hub_api::types::{JSONRPCError, JSONRPCRequest, JSONRPCResponse};
use serde_json::Value;

fn json(text: &str) -> Value {
    serde_json::from_str(text).unwrap()
}

#[test]
fn request_carries_version_method_params_and_id() {
    let req = build_request("id-1".to_string(), "get_next_nonce", json(r#"{"address":"addr1"}"#));
    assert_eq!(
        req,
        JSONRPCRequest {
            jsonrpc: "2.0".to_string(),
            method: "get_next_nonce".to_string(),
            params: json(r#"{"address":"addr1"}"#),
            id: "id-1".to_string(),
        }
    );
}

#[test]
fn request_frame_is_exact() {
    let req = build_request("id-1".to_string(), "get_next_nonce", json(r#"{"address":"addr1"}"#));
    assert_eq!(
        encode_request(&req),
        Ok(r#"{"jsonrpc":"2.0","method":"get_next_nonce","params":{"address":"addr1"},"id":"id-1"}"#
            .to_string())
    );
}

#[test]
fn raw_transaction_string_goes_out_as_bare_string() {
    let req = build_request(
        "7".to_string(),
        "send_raw_transaction",
        Value::String("deadbeef".to_string()),
    );
    assert_eq!(req.params, Value::String("deadbeef".to_string()));
    let frame = encode_request(&req).unwrap();
    assert_eq!(
        frame,
        r#"{"jsonrpc":"2.0","method":"send_raw_transaction","params":"deadbeef","id":"7"}"#
    );
    assert!(frame.contains(r#""params":"deadbeef""#));
    assert!(!frame.contains(r#""params":{"#));
}

#[test]
fn raw_transaction_of_another_shape_goes_out_as_empty_string() {
    let req = build_request("7".to_string(), "send_raw_transaction", json(r#"{"tx":"deadbeef"}"#));
    assert_eq!(req.params, Value::String(String::new()));
    assert_eq!(
        encode_request(&req).unwrap(),
        r#"{"jsonrpc":"2.0","method":"send_raw_transaction","params":"","id":"7"}"#
    );
    let req = build_request("7".to_string(), "send_raw_transaction", json("12"));
    assert_eq!(req.params, Value::String(String::new()));
}

#[test]
fn other_methods_keep_string_params() {
    let req = build_request("7".to_string(), "echo", Value::String("deadbeef".to_string()));
    assert_eq!(req.params, Value::String("deadbeef".to_string()));
    let req = build_request("7".to_string(), "echo", json("[1,2]"));
    assert_eq!(req.params, json("[1,2]"));
}

#[test]
fn request_frame_escapes_strings() {
    let req = build_request("a\"b".to_string(), "m\\n", Value::String("line\nbreak".to_string()));
    assert_eq!(
        encode_request(&req).unwrap(),
        r#"{"jsonrpc":"2.0","method":"m\\n","params":"line\nbreak","id":"a\"b"}"#
    );
}

#[test]
fn request_frame_parses_back_to_the_request() {
    let params = json(r#"{"from":"pk","nonce":3,"data":{"arguments":{"fare":10}}}"#);
    let req = build_request("abc".to_string(), "send_transaction", params.clone());
    let frame = encode_request(&req).unwrap();
    let back = json(&frame);
    assert_eq!(back.get("jsonrpc"), Some(&Value::String("2.0".to_string())));
    assert_eq!(back.get("method"), Some(&Value::String("send_transaction".to_string())));
    assert_eq!(back.get("params"), Some(&params));
    assert_eq!(back.get("id"), Some(&Value::String("abc".to_string())));
}

#[test]
fn response_with_result_decodes() {
    let resp = decode_response(r#"{"jsonrpc":"2.0","result":{"nonce":7},"id":"abc"}"#).unwrap();
    assert_eq!(
        resp,
        JSONRPCResponse {
            jsonrpc: "2.0".to_string(),
            result: Some(json(r#"{"nonce":7}"#)),
            error: None,
            id: "abc".to_string(),
        }
    );
}

#[test]
fn response_with_error_decodes() {
    let resp = decode_response(
        r#"{"jsonrpc":"2.0","error":{"code":-32601,"message":"Method not found","data":[1]},"id":"abc"}"#,
    )
    .unwrap();
    assert_eq!(
        resp,
        JSONRPCResponse {
            jsonrpc: "2.0".to_string(),
            result: None,
            error: Some(JSONRPCError {
                code: -32601,
                message: "Method not found".to_string(),
                data: Some(json("[1]")),
            }),
            id: "abc".to_string(),
        }
    );
}

#[test]
fn response_ignores_whitespace_newlines_and_unknown_members() {
    let resp = decode_response(
        "{\n  \"jsonrpc\": \"2.0\",\n  \"extra\": true,\n  \"result\": 1,\n  \"id\": \"x\"\n}\n",
    )
    .unwrap();
    assert_eq!(resp.result, Some(json("1")));
    assert_eq!(resp.error, None);
    assert_eq!(resp.id, "x");
}

#[test]
fn null_members_count_as_absent() {
    let resp =
        decode_response(r#"{"jsonrpc":"2.0","result":null,"error":null,"id":"x"}"#).unwrap();
    assert_eq!(resp.result, None);
    assert_eq!(resp.error, None);
    let resp = decode_response(
        r#"{"jsonrpc":"2.0","error":{"code":1,"message":"m","data":null},"id":"x"}"#,
    )
    .unwrap();
    assert_eq!(resp.error, Some(JSONRPCError { code: 1, message: "m".to_string(), data: None }));
}

#[test]
fn response_without_its_strings_is_malformed() {
    assert_eq!(
        decode_response(r#"{"result":1,"id":"x"}"#),
        Err(CallError::Malformed("missing or invalid field `jsonrpc`".to_string()))
    );
    assert_eq!(
        decode_response(r#"{"jsonrpc":2,"result":1,"id":"x"}"#),
        Err(CallError::Malformed("missing or invalid field `jsonrpc`".to_string()))
    );
    assert_eq!(
        decode_response(r#"{"jsonrpc":"2.0","result":1}"#),
        Err(CallError::Malformed("missing or invalid field `id`".to_string()))
    );
    assert_eq!(
        decode_response(r#"{"jsonrpc":"2.0","result":1,"id":5}"#),
        Err(CallError::Malformed("missing or invalid field `id`".to_string()))
    );
    assert_eq!(
        decode_response(r#""just a string""#),
        Err(CallError::Malformed("missing or invalid field `jsonrpc`".to_string()))
    );
}

#[test]
fn response_with_a_bad_error_member_is_malformed() {
    let bad = [
        r#"{"jsonrpc":"2.0","error":"oops","id":"x"}"#,
        r#"{"jsonrpc":"2.0","error":{"message":"m"},"id":"x"}"#,
        r#"{"jsonrpc":"2.0","error":{"code":1},"id":"x"}"#,
        r#"{"jsonrpc":"2.0","error":{"code":1.5,"message":"m"},"id":"x"}"#,
        r#"{"jsonrpc":"2.0","error":{"code":2147483648,"message":"m"},"id":"x"}"#,
        r#"{"jsonrpc":"2.0","error":{"code":-2147483649,"message":"m"},"id":"x"}"#,
        r#"{"jsonrpc":"2.0","error":{"code":1,"message":7},"id":"x"}"#,
    ];
    for text in bad {
        assert_eq!(
            decode_response(text),
            Err(CallError::Malformed("invalid field `error`".to_string())),
            "{}",
            text
        );
    }
}

#[test]
fn error_code_takes_the_whole_32_bit_range() {
    let resp = decode_response(
        r#"{"jsonrpc":"2.0","error":{"code":2147483647,"message":"m"},"id":"x"}"#,
    )
    .unwrap();
    assert_eq!(resp.error.unwrap().code, i32::MAX);
    let resp = decode_response(
        r#"{"jsonrpc":"2.0","error":{"code":-2147483648,"message":"m"},"id":"x"}"#,
    )
    .unwrap();
    assert_eq!(resp.error.unwrap().code, i32::MIN);
}

#[test]
fn text_that_is_no_json_is_malformed_with_the_parser_message() {
    let expected = serde_json::from_str::<Value>("{not json").unwrap_err().to_string();
    assert_eq!(decode_response("{not json"), Err(CallError::Malformed(expected)));
    let expected = serde_json::from_str::<Value>("").unwrap_err().to_string();
    assert_eq!(decode_response(""), Err(CallError::Malformed(expected)));
    let expected = serde_json::from_str::<Value>("{} trailing").unwrap_err().to_string();
    assert_eq!(decode_response("{} trailing"), Err(CallError::Malformed(expected)));
}

#[test]
fn id_is_salvaged_from_any_object_with_a_string_id() {
    assert_eq!(extract_id_from_response(r#"{"id":"abc"}"#), Some("abc".to_string()));
    assert_eq!(
        extract_id_from_response(r#"{"jsonrpc":2,"result":[],"id":"abc"}"#),
        Some("abc".to_string())
    );
    assert_eq!(extract_id_from_response(r#"{"id":5}"#), None);
    assert_eq!(extract_id_from_response(r#"{"result":1}"#), None);
    assert_eq!(extract_id_from_response(r#"["id","abc"]"#), None);
    assert_eq!(extract_id_from_response(r#"{"id":"abc""#), None);
    assert_eq!(extract_id_from_response(""), None);
}

#[test]
fn payload_with_result_is_the_result() {
    assert_eq!(
        interpret_response("abc", r#"{"jsonrpc":"2.0","result":{"nonce":7},"id":"abc"}"#),
        Ok(json(r#"{"nonce":7}"#))
    );
}

#[test]
fn empty_payload_means_connection_lost() {
    let err = interpret_response("abc", "").unwrap_err();
    assert_eq!(err, CallError::ConnectionLost);
    assert_eq!(err.kind(), ErrorKind::Abandonment);
    assert_eq!(err.message(), "Connection lost before receiving response");
}

#[test]
fn payload_for_another_id_is_a_mismatch() {
    let err =
        interpret_response("abc", r#"{"jsonrpc":"2.0","result":1,"id":"abd"}"#).unwrap_err();
    assert_eq!(err, CallError::MismatchedId);
    assert_eq!(err.kind(), ErrorKind::ProtocolViolation);
    assert_eq!(err.message(), "Mismatched response ID");
}

#[test]
fn remote_error_surfaces_its_message() {
    let err = interpret_response(
        "abc",
        r#"{"jsonrpc":"2.0","error":{"code":-1,"message":"insufficient funds"},"id":"abc"}"#,
    )
    .unwrap_err();
    assert_eq!(err, CallError::Remote("insufficient funds".to_string()));
    assert_eq!(err.kind(), ErrorKind::Remote);
    assert_eq!(err.message(), "insufficient funds");
}

#[test]
fn remote_error_wins_over_result() {
    assert_eq!(
        interpret_response(
            "abc",
            r#"{"jsonrpc":"2.0","result":1,"error":{"code":-1,"message":"bad"},"id":"abc"}"#,
        ),
        Err(CallError::Remote("bad".to_string()))
    );
}

#[test]
fn payload_with_neither_result_nor_error_is_a_violation() {
    let err = interpret_response("abc", r#"{"jsonrpc":"2.0","id":"abc"}"#).unwrap_err();
    assert_eq!(err, CallError::NoResultOrError);
    assert_eq!(err.kind(), ErrorKind::ProtocolViolation);
    assert_eq!(err.message(), "No result or error in response");
}

#[test]
fn payload_that_does_not_decode_is_a_violation() {
    let err = interpret_response("abc", r#"{"id":"abc"}"#).unwrap_err();
    assert_eq!(err, CallError::Malformed("missing or invalid field `jsonrpc`".to_string()));
    assert_eq!(err.kind(), ErrorKind::ProtocolViolation);
    assert_eq!(err.message(), "missing or invalid field `jsonrpc`");
}

#[test]
fn error_kinds_and_messages() {
    let cases = [
        (CallError::NotConnected, ErrorKind::Transport, "WebSocket connection not established"),
        (CallError::Encode("e".to_string()), ErrorKind::Transport, "e"),
        (
            CallError::SendFailed("broken pipe".to_string()),
            ErrorKind::Transport,
            "Failed to send request: broken pipe",
        ),
        (CallError::TimedOut, ErrorKind::Timeout, "Request timed out"),
        (
            CallError::ConnectionLost,
            ErrorKind::Abandonment,
            "Connection lost before receiving response",
        ),
        (CallError::NoResponse, ErrorKind::ProtocolViolation, "Failed to receive response"),
        (CallError::Malformed("m".to_string()), ErrorKind::ProtocolViolation, "m"),
        (CallError::MismatchedId, ErrorKind::ProtocolViolation, "Mismatched response ID"),
        (
            CallError::NoResultOrError,
            ErrorKind::ProtocolViolation,
            "No result or error in response",
        ),
        (CallError::Remote("r".to_string()), ErrorKind::Remote, "r"),
    ];
    for (error, kind, message) in cases {
        assert_eq!(error.kind(), kind);
        assert_eq!(error.message(), message);
    }
}
