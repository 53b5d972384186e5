//! The wire codec: from a call to the text of its request frame, and from the
//! text of a response frame back to an envelope and to the call's outcome.
//!
//! JSON syntax is `serde_json`'s business; the shape of the two envelopes is
//! decided here.

use crate::error::{CallError, CallErrorView};
use crate::json::{
    as_i64, as_str, error_text, is_null, json_error_text, json_i64, json_is_null, json_member,
    json_parse, json_str, json_string, json_text, member, parse, serialize, string_value,
};
use crate::text::str_eq;
use crate::types::{
    ErrorView, JSONRPCError, JSONRPCRequest, JSONRPCResponse, RequestView, ResponseView,
};
use vstd::prelude::*;
use vstd::string::StringExecFns;

verus! {

/// The one method whose parameters go over the wire as a bare JSON string.
pub open spec fn is_raw_transaction(method: Seq<char>) -> bool {
    method == "send_raw_transaction"@
}

/// The parameters that a request carries for a method: for a raw transaction
/// a JSON string, which is the caller's own value where that is a string and
/// the empty string where it is not; for every other method the caller's
/// value.
pub open spec fn effective_params(method: Seq<char>, params: serde_json::Value) -> serde_json::Value {
    if is_raw_transaction(method) && json_str(params) is None {
        json_string(Seq::<char>::empty())
    } else {
        params
    }
}

/// The request envelope of a call.
pub open spec fn request_for(id: Seq<char>, method: Seq<char>, params: serde_json::Value) -> RequestView {
    RequestView { jsonrpc: "2.0"@, method, params: effective_params(method, params), id }
}

/// The text of a request frame, given the JSON text of each member.
pub open spec fn frame_text(
    jsonrpc: Seq<char>,
    method: Seq<char>,
    params: Seq<char>,
    id: Seq<char>,
) -> Seq<char> {
    "{\"jsonrpc\":"@ + jsonrpc + ",\"method\":"@ + method + ",\"params\":"@ + params + ",\"id\":"@
        + id + "}"@
}

/// The text of the frame that carries a request, or the error of the first
/// member that cannot be serialised.
pub open spec fn request_text(req: RequestView) -> Result<Seq<char>, serde_json::Error> {
    match json_text(json_string(req.jsonrpc)) {
        Err(e) => Err(e),
        Ok(jsonrpc) => match json_text(json_string(req.method)) {
            Err(e) => Err(e),
            Ok(method) => match json_text(req.params) {
                Err(e) => Err(e),
                Ok(params) => match json_text(json_string(req.id)) {
                    Err(e) => Err(e),
                    Ok(id) => Ok(frame_text(jsonrpc, method, params, id)),
                },
            },
        },
    }
}

/// The member under a key that is present and not `null`.
pub open spec fn optional_member(v: serde_json::Value, key: Seq<char>) -> Option<serde_json::Value> {
    match json_member(v, key) {
        Some(x) => if json_is_null(x) {
            None
        } else {
            Some(x)
        },
        None => None,
    }
}

/// The content of the member under a key that is present and a JSON string.
pub open spec fn string_member(v: serde_json::Value, key: Seq<char>) -> Option<Seq<char>> {
    match json_member(v, key) {
        Some(x) => json_str(x),
        None => None,
    }
}

/// The error that a JSON value describes: it needs an integer `code` that
/// fits 32 bits and a string `message`; `data` is optional.
pub open spec fn error_of(v: serde_json::Value) -> Option<ErrorView> {
    match json_member(v, "code"@) {
        None => None,
        Some(c) => match json_i64(c) {
            None => None,
            Some(n) => if i32::MIN <= n <= i32::MAX {
                match string_member(v, "message"@) {
                    None => None,
                    Some(message) => Some(
                        ErrorView { code: n as i32, message, data: optional_member(v, "data"@) },
                    ),
                }
            } else {
                None
            },
        },
    }
}

/// The error member of an envelope: `Some(None)` where it is absent or
/// `null`, `None` where it is present and does not describe an error.
pub open spec fn error_part(v: serde_json::Value) -> Option<Option<ErrorView>> {
    match optional_member(v, "error"@) {
        None => Some(None),
        Some(x) => match error_of(x) {
            Some(e) => Some(Some(e)),
            None => None,
        },
    }
}

/// The response envelope that a JSON value describes, or the reason why it
/// describes none. `jsonrpc` and `id` must be strings; `result` and `error`
/// are optional; members under other keys are ignored.
pub open spec fn envelope_of(v: serde_json::Value) -> Result<ResponseView, Seq<char>> {
    match string_member(v, "jsonrpc"@) {
        None => Err("missing or invalid field `jsonrpc`"@),
        Some(jsonrpc) => match error_part(v) {
            None => Err("invalid field `error`"@),
            Some(error) => match string_member(v, "id"@) {
                None => Err("missing or invalid field `id`"@),
                Some(id) => Ok(
                    ResponseView { jsonrpc, result: optional_member(v, "result"@), error, id },
                ),
            },
        },
    }
}

/// The response envelope that a frame's text decodes to, or the message of
/// the failure.
pub open spec fn decode_spec(text: Seq<char>) -> Result<ResponseView, Seq<char>> {
    match json_parse(text) {
        Err(e) => Err(json_error_text(e)),
        Ok(v) => envelope_of(v),
    }
}

/// The id that can be recovered from a frame which need not be a response
/// envelope: the string under `id` of any JSON object.
pub open spec fn salvaged_id(text: Seq<char>) -> Option<Seq<char>> {
    match json_parse(text) {
        Err(_) => None,
        Ok(v) => string_member(v, "id"@),
    }
}

/// How a call ends whose completion slot received a payload. The empty
/// payload is the sign that the connection was lost. Any other payload must
/// decode to an envelope with the call's own id; its error, if it has one,
/// is the outcome, else its result, and it is a violation to have neither.
pub open spec fn response_outcome(id: Seq<char>, payload: Seq<char>) -> Result<
    serde_json::Value,
    CallErrorView,
> {
    if payload.len() == 0 {
        Err(CallErrorView::ConnectionLost)
    } else {
        match decode_spec(payload) {
            Err(m) => Err(CallErrorView::Malformed(m)),
            Ok(resp) => if resp.id != id {
                Err(CallErrorView::MismatchedId)
            } else {
                match resp.error {
                    Some(e) => Err(CallErrorView::Remote(e.message)),
                    None => match resp.result {
                        Some(v) => Ok(v),
                        None => Err(CallErrorView::NoResultOrError),
                    },
                }
            },
        }
    }
}

/// The outcome of a call with its error taken by its view.
pub open spec fn outcome_view(r: Result<serde_json::Value, CallError>) -> Result<
    serde_json::Value,
    CallErrorView,
> {
    match r {
        Ok(v) => Ok(v),
        Err(e) => Err(e@),
    }
}

/// Builds the request envelope of a call.
pub fn build_request(id: String, method: &str, params: serde_json::Value) -> (r: JSONRPCRequest)
    ensures
        r@ == request_for(id@, method@, params),
{
    let carried = if str_eq(method, "send_raw_transaction") {
        let is_string = as_str(&params).is_some();
        if is_string {
            params
        } else {
            proof {
                reveal_strlit("");
                assert(""@ =~= Seq::<char>::empty());
            }
            string_value("")
        }
    } else {
        params
    };
    JSONRPCRequest { jsonrpc: "2.0".to_owned(), method: method.to_owned(), params: carried, id }
}

/// The JSON text of a string.
fn quoted(s: &str) -> (r: Result<String, serde_json::Error>)
    ensures
        match r {
            Ok(t) => json_text(json_string(s@)) == Ok::<Seq<char>, serde_json::Error>(t@),
            Err(e) => json_text(json_string(s@)) == Err::<Seq<char>, serde_json::Error>(e),
        },
{
    let v = string_value(s);
    serialize(&v)
}

/// Serialises a request envelope to the text of its frame.
pub fn encode_request(req: &JSONRPCRequest) -> (r: Result<String, CallError>)
    ensures
        match r {
            Ok(frame) => request_text(req@) == Ok::<Seq<char>, serde_json::Error>(frame@),
            Err(err) => request_text(req@) matches Err(e) && err@ == CallErrorView::Encode(
                json_error_text(e),
            ),
        },
{
    let jsonrpc = match quoted(req.jsonrpc.as_str()) {
        Ok(t) => t,
        Err(e) => {
            return Err(CallError::Encode(error_text(&e)));
        },
    };
    let method = match quoted(req.method.as_str()) {
        Ok(t) => t,
        Err(e) => {
            return Err(CallError::Encode(error_text(&e)));
        },
    };
    let params = match serialize(&req.params) {
        Ok(t) => t,
        Err(e) => {
            return Err(CallError::Encode(error_text(&e)));
        },
    };
    let id = match quoted(req.id.as_str()) {
        Ok(t) => t,
        Err(e) => {
            return Err(CallError::Encode(error_text(&e)));
        },
    };
    let frame = "{\"jsonrpc\":".to_owned();
    let frame = frame.concat(jsonrpc.as_str());
    let frame = frame.concat(",\"method\":");
    let frame = frame.concat(method.as_str());
    let frame = frame.concat(",\"params\":");
    let frame = frame.concat(params.as_str());
    let frame = frame.concat(",\"id\":");
    let frame = frame.concat(id.as_str());
    let frame = frame.concat("}");
    Ok(frame)
}

/// Reads the member under a key that is present and not `null`.
fn read_optional_member(v: &serde_json::Value, key: &str) -> (r: Option<serde_json::Value>)
    ensures
        r == optional_member(*v, key@),
{
    match member(v, key) {
        Some(x) => if is_null(&x) {
            None
        } else {
            Some(x)
        },
        None => None,
    }
}

/// Reads the member under a key that is present and a JSON string.
fn read_string_member(v: &serde_json::Value, key: &str) -> (r: Option<String>)
    ensures
        match r {
            Some(s) => string_member(*v, key@) == Some(s@),
            None => string_member(*v, key@) is None,
        },
{
    match member(v, key) {
        Some(x) => match as_str(&x) {
            Some(s) => Some(s.to_owned()),
            None => None,
        },
        None => None,
    }
}

/// Reads the error that a JSON value describes.
fn read_error(v: &serde_json::Value) -> (r: Option<JSONRPCError>)
    ensures
        match r {
            Some(e) => error_of(*v) == Some(e@),
            None => error_of(*v) is None,
        },
{
    let code = match member(v, "code") {
        Some(c) => match as_i64(&c) {
            Some(n) => n,
            None => {
                return None;
            },
        },
        None => {
            return None;
        },
    };
    if code < -2147483648 || code > 2147483647 {
        return None;
    }
    let message = match read_string_member(v, "message") {
        Some(m) => m,
        None => {
            return None;
        },
    };
    let data = read_optional_member(v, "data");
    Some(JSONRPCError { code: code as i32, message, data })
}

/// Decodes the text of a frame as a response envelope.
pub fn decode_response(text: &str) -> (r: Result<JSONRPCResponse, CallError>)
    ensures
        match r {
            Ok(resp) => decode_spec(text@) == Ok::<ResponseView, Seq<char>>(resp@),
            Err(err) => decode_spec(text@) matches Err(m) && err@ == CallErrorView::Malformed(m),
        },
{
    let v = match parse(text) {
        Ok(v) => v,
        Err(e) => {
            return Err(CallError::Malformed(error_text(&e)));
        },
    };
    let jsonrpc = match read_string_member(&v, "jsonrpc") {
        Some(s) => s,
        None => {
            return Err(CallError::Malformed("missing or invalid field `jsonrpc`".to_owned()));
        },
    };
    let error = match read_optional_member(&v, "error") {
        None => None,
        Some(x) => match read_error(&x) {
            Some(e) => Some(e),
            None => {
                return Err(CallError::Malformed("invalid field `error`".to_owned()));
            },
        },
    };
    let id = match read_string_member(&v, "id") {
        Some(s) => s,
        None => {
            return Err(CallError::Malformed("missing or invalid field `id`".to_owned()));
        },
    };
    let result = read_optional_member(&v, "result");
    Ok(JSONRPCResponse { jsonrpc, result, error, id })
}

/// Recovers the id from a frame that need not be a response envelope: the
/// string under `id`, where the frame is a JSON object that has one.
pub fn extract_id_from_response(response: &str) -> (r: Option<String>)
    ensures
        match r {
            Some(id) => salvaged_id(response@) == Some(id@),
            None => salvaged_id(response@) is None,
        },
{
    match parse(response) {
        Ok(v) => read_string_member(&v, "id"),
        Err(_) => None,
    }
}

/// Decides how a call ends whose completion slot received a payload.
pub fn interpret_response(id: &str, payload: &str) -> (r: Result<serde_json::Value, CallError>)
    ensures
        outcome_view(r) == response_outcome(id@, payload@),
{
    if payload.is_empty() {
        return Err(CallError::ConnectionLost);
    }
    let response = match decode_response(payload) {
        Ok(resp) => resp,
        Err(e) => {
            return Err(e);
        },
    };
    if !str_eq(response.id.as_str(), id) {
        return Err(CallError::MismatchedId);
    }
    match response.error {
        Some(e) => Err(CallError::Remote(e.message)),
        None => match response.result {
            Some(v) => Ok(v),
            None => Err(CallError::NoResultOrError),
        },
    }
}

} // verus!
