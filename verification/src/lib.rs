//! Descriptor-driven dynamic RPC invocation engine.
//!
//! Given a compiled protobuf schema description (a serialized file descriptor
//! set) and a human-authored JSON payload, this library resolves a target
//! method, translates JSON into wire-correct binary protobuf bytes, prepares a
//! single unary exchange over an HTTP/2-based RPC transport, and translates
//! the binary response back into JSON.  The concrete message types are unknown
//! until a schema is loaded at runtime, so all conversions are driven by
//! descriptors rather than generated code.
//!
//! The transport itself (sockets, TLS, HTTP/2 framing) is performed by an
//! unverified driver around this crate; everything this crate can decide
//! locally — schema extraction, validation, request preparation, response
//! classification — is verified.

pub mod client;
pub mod descriptors;
pub mod dynamic_invoker;
pub mod editing;
pub mod errors;
pub mod grpc_request;
pub mod grpc_response;
pub mod ids;
pub mod collection;
pub mod postman;
pub mod proto_loader;
pub mod proto_schema;
pub mod reflection;
pub mod request;
pub mod strutil;
pub mod wire;
