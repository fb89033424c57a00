//! The engine's failure taxonomy.
//!
//! Every failure is returned as a structured value, never raised; local
//! validation failures carry the valid alternatives so a caller can present
//! a corrective suggestion.

use vstd::prelude::*;

verus! {

/// A failure of one invocation or one schema load.  Nothing here is fatal to
/// the process; each value describes exactly one failed step.
#[derive(Debug, Clone)]
pub enum EngineError {
    /// The bytes are not a valid encoding of a serialized file descriptor
    /// set.
    InvalidDescriptor { detail: String },
    /// The descriptor set decoded but defines no services, so nothing can be
    /// called through it.
    NoServicesDefined,
    /// The descriptor file does not exist at the given path.
    FileNotFound { path: String },
    /// No service with this fully qualified name; `available_services` lists
    /// what the schema defines.
    ServiceNotFound { service: String, available_services: Vec<String> },
    /// The service exists but has no method with this name;
    /// `available_methods` lists what the service defines.
    MethodNotFound { service: String, method: String, available_methods: Vec<String> },
    /// The request declared an RPC shape other than what the schema derives
    /// for the method.
    RpcShapeMismatch { expected: String, actual: String },
    /// The JSON payload does not parse against the method's input
    /// descriptor.
    JsonParseError { detail: String },
    /// The method resolved to a streaming shape, which the engine does not
    /// execute; only unary exchanges are supported.
    StreamingNotSupported { shape: String },
    /// The requested message type is not defined in the descriptor pool.
    MessageTypeNotFound { message_type: String },
    /// The transport channel did not become ready.
    ClientNotReady { detail: String },
    /// The transport reported a failure; the remote status is carried
    /// verbatim.
    RpcTransportError { code: i32, message: String },
    /// The response bytes do not decode against the method's output
    /// descriptor.
    ResponseDecodeError { detail: String },
    /// The request's server address is blank.
    EmptyServerUrl,
    /// The request's service name is blank.
    EmptyServiceName,
    /// The request's method name is blank.
    EmptyMethodName,
    /// Schema discovery over server reflection is not implemented.
    ReflectionNotSupported,
}

/// The deterministic, user-facing text of each failure; local validation
/// failures enumerate the valid alternatives.
pub open spec fn error_text(e: EngineError) -> Seq<char> {
    match e {
        EngineError::InvalidDescriptor { detail } => "Failed to parse descriptor: "@ + detail@,
        EngineError::NoServicesDefined => (
        "No services found in proto file. Make sure your .proto file defines at least one service."@
        ),
        EngineError::FileNotFound { path } => "File not found: "@ + path@,
        EngineError::ServiceNotFound { service, available_services } => "Service '"@ + service@
            + "' not found in proto schema. Available services: "@ + crate::strutil::spec_join(
            available_services@.map_values(|s: String| s@),
            ", "@,
        ),
        EngineError::MethodNotFound { service, method, available_methods } => "Method '"@ + method@
            + "' not found in service '"@ + service@ + "'. Available methods: "@
            + crate::strutil::spec_join(available_methods@.map_values(|s: String| s@), ", "@),
        EngineError::RpcShapeMismatch { expected, actual } => "RPC type mismatch: request declares '"@
            + actual@ + "', but proto defines '"@ + expected@ + "'"@,
        EngineError::JsonParseError { detail } => "Failed to parse JSON into protobuf message: "@
            + detail@,
        EngineError::StreamingNotSupported { shape } => "RPC shape '"@ + shape@
            + "' is not supported yet; only unary calls are executed"@,
        EngineError::MessageTypeNotFound { message_type } => "Message type '"@ + message_type@
            + "' not found in proto schema"@,
        EngineError::ClientNotReady { detail } => "Client not ready: "@ + detail@,
        EngineError::RpcTransportError { code, message } => "gRPC call failed: "@ + message@,
        EngineError::ResponseDecodeError { detail } => "Failed to decode response message: "@
            + detail@,
        EngineError::EmptyServerUrl => "Server URL cannot be empty"@,
        EngineError::EmptyServiceName => "Service name cannot be empty (e.g., 'greet.Greeter')"@,
        EngineError::EmptyMethodName => "Method name cannot be empty (e.g., 'SayHello')"@,
        EngineError::ReflectionNotSupported => (
        "Server reflection is not implemented yet; load a descriptor file instead"@
        ),
    }
}

impl EngineError {
    /// Renders the failure as its user-facing text.
    pub fn message(&self) -> (r: String)
        ensures
            r@ == error_text(*self),
    {
        let mut out = String::new();
        match self {
            EngineError::InvalidDescriptor { detail } => {
                out.append("Failed to parse descriptor: ");
                out.append(detail.as_str());
            },
            EngineError::NoServicesDefined => {
                out.append(
                    "No services found in proto file. Make sure your .proto file defines at least one service.",
                );
            },
            EngineError::FileNotFound { path } => {
                out.append("File not found: ");
                out.append(path.as_str());
            },
            EngineError::ServiceNotFound { service, available_services } => {
                out.append("Service '");
                out.append(service.as_str());
                out.append("' not found in proto schema. Available services: ");
                let joined = crate::strutil::join_with(available_services, ", ");
                out.append(joined.as_str());
            },
            EngineError::MethodNotFound { service, method, available_methods } => {
                out.append("Method '");
                out.append(method.as_str());
                out.append("' not found in service '");
                out.append(service.as_str());
                out.append("'. Available methods: ");
                let joined = crate::strutil::join_with(available_methods, ", ");
                out.append(joined.as_str());
            },
            EngineError::RpcShapeMismatch { expected, actual } => {
                out.append("RPC type mismatch: request declares '");
                out.append(actual.as_str());
                out.append("', but proto defines '");
                out.append(expected.as_str());
                out.append("'");
            },
            EngineError::JsonParseError { detail } => {
                out.append("Failed to parse JSON into protobuf message: ");
                out.append(detail.as_str());
            },
            EngineError::StreamingNotSupported { shape } => {
                out.append("RPC shape '");
                out.append(shape.as_str());
                out.append("' is not supported yet; only unary calls are executed");
            },
            EngineError::MessageTypeNotFound { message_type } => {
                out.append("Message type '");
                out.append(message_type.as_str());
                out.append("' not found in proto schema");
            },
            EngineError::ClientNotReady { detail } => {
                out.append("Client not ready: ");
                out.append(detail.as_str());
            },
            EngineError::RpcTransportError { code: _, message } => {
                out.append("gRPC call failed: ");
                out.append(message.as_str());
            },
            EngineError::ResponseDecodeError { detail } => {
                out.append("Failed to decode response message: ");
                out.append(detail.as_str());
            },
            EngineError::EmptyServerUrl => {
                out.append("Server URL cannot be empty");
            },
            EngineError::EmptyServiceName => {
                out.append("Service name cannot be empty (e.g., 'greet.Greeter')");
            },
            EngineError::EmptyMethodName => {
                out.append("Method name cannot be empty (e.g., 'SayHello')");
            },
            EngineError::ReflectionNotSupported => {
                out.append(
                    "Server reflection is not implemented yet; load a descriptor file instead",
                );
            },
        }
        proof {
            assert(out@ =~= error_text(*self));
        }
        out
    }
}

} // verus!
