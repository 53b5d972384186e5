//! The envelopes that go over the wire.

use vstd::prelude::*;

verus! {

/// The protocol version that every request carries.
pub const JSONRPC_VERSION: &'static str = "2.0";

/// A request envelope.
#[derive(Clone, Debug, PartialEq)]
pub struct JSONRPCRequest {
    pub jsonrpc: String,
    pub method: String,
    pub params: serde_json::Value,
    pub id: String,
}

/// A response envelope.
#[derive(Clone, Debug, PartialEq)]
pub struct JSONRPCResponse {
    pub jsonrpc: String,
    pub result: Option<serde_json::Value>,
    pub error: Option<JSONRPCError>,
    pub id: String,
}

/// The error member of a response envelope.
#[derive(Clone, Debug, PartialEq)]
pub struct JSONRPCError {
    pub code: i32,
    pub message: String,
    pub data: Option<serde_json::Value>,
}

/// A request envelope with its strings as character sequences.
pub struct RequestView {
    pub jsonrpc: Seq<char>,
    pub method: Seq<char>,
    pub params: serde_json::Value,
    pub id: Seq<char>,
}

/// An error member with its message as a character sequence.
pub struct ErrorView {
    pub code: i32,
    pub message: Seq<char>,
    pub data: Option<serde_json::Value>,
}

/// A response envelope with its strings as character sequences.
pub struct ResponseView {
    pub jsonrpc: Seq<char>,
    pub result: Option<serde_json::Value>,
    pub error: Option<ErrorView>,
    pub id: Seq<char>,
}

impl View for JSONRPCRequest {
    type V = RequestView;

    open spec fn view(&self) -> RequestView {
        RequestView {
            jsonrpc: self.jsonrpc@,
            method: self.method@,
            params: self.params,
            id: self.id@,
        }
    }
}

impl View for JSONRPCError {
    type V = ErrorView;

    open spec fn view(&self) -> ErrorView {
        ErrorView { code: self.code, message: self.message@, data: self.data }
    }
}

impl View for JSONRPCResponse {
    type V = ResponseView;

    open spec fn view(&self) -> ResponseView {
        ResponseView {
            jsonrpc: self.jsonrpc@,
            result: self.result,
            error: match self.error {
                Some(e) => Some(e@),
                None => None,
            },
            id: self.id@,
        }
    }
}

} // verus!
