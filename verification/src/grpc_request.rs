//! The caller-supplied request value for one RPC invocation.
//!
//! Metadata is kept as an ordered sequence of key/value pairs, so duplicate
//! header keys are preserved in order rather than silently dropped; the
//! transport driver attaches each pair whose key and value are valid header
//! syntax.

use vstd::prelude::*;

verus! {

/// The four RPC shapes.  Only unary is executed; the other three are
/// represented so the validator can compare a request's declared shape with
/// what a schema derives.
#[derive(Clone, Copy, Debug, PartialEq, Eq, Structural)]
pub enum RpcType {
    Unary,
    ServerStreaming,
    ClientStreaming,
    BidirectionalStreaming,
}

/// The canonical text of a declared RPC shape, matching the catalog's
/// derived shape strings.
pub open spec fn rpc_type_text(t: RpcType) -> Seq<char> {
    match t {
        RpcType::Unary => "unary"@,
        RpcType::ServerStreaming => "server_streaming"@,
        RpcType::ClientStreaming => "client_streaming"@,
        RpcType::BidirectionalStreaming => "bidirectional_streaming"@,
    }
}

impl RpcType {
    /// The canonical text of this shape.
    pub fn as_str(&self) -> (r: &'static str)
        ensures
            r@ == rpc_type_text(*self),
    {
        match self {
            RpcType::Unary => "unary",
            RpcType::ServerStreaming => "server_streaming",
            RpcType::ClientStreaming => "client_streaming",
            RpcType::BidirectionalStreaming => "bidirectional_streaming",
        }
    }
}

/// Where a request's descriptor bytes come from: a compiled descriptor file
/// (cached alongside its path), or server reflection (represented but not
/// implemented).
#[derive(Clone, Debug)]
pub enum ProtoSource {
    File { proto_path: String, file_descriptor_set: Vec<u8> },
    Reflection { cached_descriptor: Option<Vec<u8>>, last_fetched: i64 },
}

/// One RPC request as authored by the caller: where to call, what to call,
/// the JSON payload, and transport options.
#[derive(Clone, Debug)]
pub struct GrpcRequest {
    pub id: u128,
    pub name: String,
    pub server_url: String,
    pub service_name: String,
    pub method_name: String,
    pub rpc_type: RpcType,
    pub proto_source: ProtoSource,
    pub message_json: String,
    pub metadata: Vec<(String, String)>,
    pub use_tls: bool,
    pub timeout_seconds: Option<u64>,
    pub collection_id: Option<u128>,
    pub created_at: i64,
    pub updated_at: i64,
    pub tags: Vec<String>,
    pub description: Option<String>,
}

impl GrpcRequest {
    /// A fresh unary request with an empty JSON object payload, no
    /// metadata, TLS off, and a 30-second timeout.
    pub fn new(name: String, server_url: String) -> (r: Self)
        ensures
            r.name@ == name@,
            r.server_url@ == server_url@,
            r.service_name@.len() == 0,
            r.method_name@.len() == 0,
            r.rpc_type == RpcType::Unary,
            r.proto_source matches ProtoSource::Reflection { cached_descriptor, .. }
                && cached_descriptor is None,
            r.message_json@ == "{}"@,
            r.metadata@.len() == 0,
            r.use_tls == false,
            r.timeout_seconds == Some(30u64),
            r.collection_id is None,
            r.created_at == r.updated_at,
            r.tags@.len() == 0,
            r.description is None,
    {
        let now = crate::ids::now_unix_millis();
        GrpcRequest {
            id: crate::ids::fresh_id(),
            name,
            server_url,
            service_name: String::new(),
            method_name: String::new(),
            rpc_type: RpcType::Unary,
            proto_source: ProtoSource::Reflection { cached_descriptor: None, last_fetched: now },
            message_json: "{}".to_owned(),
            metadata: Vec::new(),
            use_tls: false,
            timeout_seconds: Some(30),
            collection_id: None,
            created_at: now,
            updated_at: now,
            tags: Vec::new(),
            description: None,
        }
    }
}

} // verus!
