//! The structured outcome of one RPC invocation.
//!
//! A response with status code 0 denotes success; any other code is a
//! structured failure, rendered by the caller exactly like a
//! successful-but-failing RPC rather than raised as an exception.

use vstd::prelude::*;

verus! {

/// One response message: its JSON rendering and when it arrived.  A unary
/// exchange yields zero or one of these.
#[derive(Clone, Debug)]
pub struct GrpcMessage {
    pub message_json: String,
    pub received_at: i64,
}

/// The final status of an exchange: code 0 is success, anything else is a
/// structured failure.
#[derive(Clone, Debug)]
pub struct GrpcStatus {
    pub code: i32,
    pub message: String,
}

/// The outcome of one invocation: the response messages, the status, the
/// response metadata and trailers, and timing.
#[derive(Clone, Debug)]
pub struct GrpcResponse {
    pub id: u128,
    pub request_id: u128,
    pub messages: Vec<GrpcMessage>,
    pub status: GrpcStatus,
    pub metadata: Vec<(String, String)>,
    pub trailers: Vec<(String, String)>,
    pub duration_ms: u64,
    pub timestamp: i64,
}

impl GrpcResponse {
    /// An empty successful response for this request, with no messages yet.
    pub fn new(request_id: u128) -> (r: Self)
        ensures
            r.request_id == request_id,
            r.messages@.len() == 0,
            r.status.code == 0,
            r.status.message@ == "OK"@,
            r.metadata@.len() == 0,
            r.trailers@.len() == 0,
            r.duration_ms == 0,
    {
        GrpcResponse {
            id: crate::ids::fresh_id(),
            request_id,
            messages: Vec::new(),
            status: GrpcStatus { code: 0, message: "OK".to_owned() },
            metadata: Vec::new(),
            trailers: Vec::new(),
            duration_ms: 0,
            timestamp: crate::ids::now_unix_millis(),
        }
    }

    /// Whether the exchange succeeded: exactly when the status code is 0.
    pub fn is_ok(&self) -> (r: bool)
        ensures
            r == (self.status.code == 0),
    {
        self.status.code == 0
    }
}

} // verus!
