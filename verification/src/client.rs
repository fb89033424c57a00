//! The orchestrator's decision layer.
//!
//! Everything `execute_unary` decides locally is here, verified: field
//! checks, validation of a request against a loaded schema (before any
//! network attempt), preparation of the unary exchange, and the
//! classification of every outcome into a `GrpcResponse`.  The unverified
//! transport driver owns only the channel and the exchange itself, and
//! builds its result exclusively through these functions.

use vstd::prelude::*;
use crate::descriptors::pool_catalog_of;
use crate::descriptors::pool_decodes;
use crate::dynamic_invoker::PreparedCall;
use crate::dynamic_invoker::prepare_post;
use crate::dynamic_invoker::prepare_unary_call;
use crate::errors::EngineError;
use crate::grpc_request::GrpcRequest;
use crate::grpc_request::rpc_type_text;
use crate::grpc_response::GrpcMessage;
use crate::grpc_response::GrpcResponse;
use crate::grpc_response::GrpcStatus;
use crate::proto_loader::ProtoLoader;
use crate::proto_schema::ProtoSchema;
use crate::proto_schema::ServiceInfo;
use crate::proto_schema::has_method;
use crate::proto_schema::has_service;
use crate::proto_schema::lemma_service_first_match_unique;
use crate::proto_schema::method_first_match;
use crate::proto_schema::service_first_match;
use crate::strutil::blank_of;
use crate::strutil::str_is_blank;

verus! {

/// The synthetic informational text returned when no schema is loaded and
/// only reachability could be proven.
pub open spec fn connectivity_text(url: Seq<char>, service: Seq<char>, method: Seq<char>) -> Seq<
    char,
> {
    "{\n  \"status\": \"Connection Successful\",\n  \"message\": \"Successfully connected to gRPC server at "@
        + url + "\",\n  \"service\": \""@ + service + "\",\n  \"method\": \""@ + method
        + "\",\n  \"note\": \"Load a proto file (Press 'l' in gRPC mode) to enable validation and get message templates.\",\n  \"tip\": \"Generate proto descriptor: protoc --descriptor_set_out=service.pb --include_imports service.proto\"\n}"@
}

/// The status message of a response for a server that could not be reached.
pub open spec fn connect_failure_text(detail: Seq<char>) -> Seq<char> {
    "Failed to connect to gRPC server: "@ + detail
}

/// The status message of a response for an exchange that failed after the
/// channel was established.
pub open spec fn rpc_failure_text(detail: Seq<char>) -> Seq<char> {
    "RPC execution failed: "@ + detail
}

/// The URL the transport dials: the server address under `https` when TLS
/// is requested, under `http` otherwise.
pub fn channel_url(server_url: &str, use_tls: bool) -> (r: String)
    ensures
        use_tls ==> r@ == "https://"@ + server_url@,
        !use_tls ==> r@ == "http://"@ + server_url@,
{
    let mut url = String::new();
    if use_tls {
        url.append("https://");
    } else {
        url.append("http://");
    }
    url.append(server_url);
    proof {
        if use_tls {
            assert(url@ =~= "https://"@ + server_url@);
        } else {
            assert(url@ =~= "http://"@ + server_url@);
        }
    }
    url
}

/// The connect-phase timeout derived from the request's overall timeout:
/// the same bound, capped at 10 seconds.
pub fn connect_timeout_seconds(timeout_seconds: u64) -> (r: u64)
    ensures
        r == (if timeout_seconds < 10 {
            timeout_seconds as int
        } else {
            10int
        }),
{
    if timeout_seconds < 10 {
        timeout_seconds
    } else {
        10
    }
}

/// Issues unary calls: validates requests against a schema, prepares the
/// exchange, and classifies every outcome into a response.
pub struct GrpcClient {
    pub proto_loader: ProtoLoader,
}

impl GrpcClient {
    pub fn new() -> Self {
        GrpcClient { proto_loader: ProtoLoader::new() }
    }

    /// Rejects a request whose server address, service name or method name
    /// is blank, in that order of precedence.
    pub fn check_request_fields(&self, request: &GrpcRequest) -> (r: Result<(), EngineError>)
        ensures
            (r matches Err(e) && e is EmptyServerUrl) <==> blank_of(request.server_url@),
            (r matches Err(e) && e is EmptyServiceName) <==> (!blank_of(request.server_url@)
                && blank_of(request.service_name@)),
            (r matches Err(e) && e is EmptyMethodName) <==> (!blank_of(request.server_url@)
                && !blank_of(request.service_name@) && blank_of(request.method_name@)),
            r is Ok <==> (!blank_of(request.server_url@) && !blank_of(request.service_name@)
                && !blank_of(request.method_name@)),
    {
        if str_is_blank(request.server_url.as_str()) {
            Err(EngineError::EmptyServerUrl)
        } else if str_is_blank(request.service_name.as_str()) {
            Err(EngineError::EmptyServiceName)
        } else if str_is_blank(request.method_name.as_str()) {
            Err(EngineError::EmptyMethodName)
        } else {
            Ok(())
        }
    }

    /// Validates a request against a loaded schema before any network
    /// attempt: the service must exist (by exact fully qualified name), the
    /// method must exist within it, and the request's declared RPC shape
    /// must equal the shape the schema derives — mismatches are reported,
    /// never coerced.  Failures list the valid alternatives.
    pub fn validate_against_schema(&self, request: &GrpcRequest, schema: &ProtoSchema) -> (r:
        Result<(), EngineError>)
        ensures
            ({
                let services = schema.services@.map_values(|si: ServiceInfo| si@);
                let sname = request.service_name@;
                let mname = request.method_name@;
                let declared = rpc_type_text(request.rpc_type);
                &&& !has_service(services, sname) ==> (r matches Err(e) && e matches
                    EngineError::ServiceNotFound { service, available_services } && service@
                    == sname && available_services@.map_values(|s: String| s@)
                    == services.map_values(|si: crate::proto_schema::ServiceInfoModel| si.name))
                &&& forall|i: int|
                    service_first_match(services, sname, i) ==> ({
                        &&& !has_method(services[i].methods, mname) ==> (r matches Err(e)
                            && e matches EngineError::MethodNotFound {
                            service,
                            method,
                            available_methods,
                        } && service@ == sname && method@ == mname
                            && available_methods@.map_values(|s: String| s@)
                            == services[i].methods.map_values(
                            |m: crate::proto_schema::MethodInfoModel| m.name,
                        ))
                        &&& forall|j: int|
                            method_first_match(services[i].methods, mname, j) ==> ({
                                &&& services[i].methods[j].rpc_type == declared ==> r is Ok
                                &&& services[i].methods[j].rpc_type != declared ==> (r matches
                                    Err(e) && e matches EngineError::RpcShapeMismatch {
                                    expected,
                                    actual,
                                } && expected@ == services[i].methods[j].rpc_type && actual@
                                    == declared)
                            })
                    })
            }),
    {
        let ghost services = schema.services@.map_values(|si: ServiceInfo| si@);
        let declared = request.rpc_type.as_str();
        let mut i: usize = 0;
        while i < schema.services.len()
            invariant
                services == schema.services@.map_values(|si: ServiceInfo| si@),
                i <= services.len(),
                declared@ == rpc_type_text(request.rpc_type),
                forall|k: int| 0 <= k < i ==> #[trigger] services[k].name != request.service_name@,
            decreases services.len() - i,
        {
            if crate::strutil::str_eq(
                schema.services[i].name.as_str(),
                request.service_name.as_str(),
            ) {
                proof {
                    assert(service_first_match(services, request.service_name@, i as int));
                }
                let methods = &schema.services[i].methods;
                let mut j: usize = 0;
                while j < methods.len()
                    invariant
                        0 <= i < services.len(),
                        services == schema.services@.map_values(|si: ServiceInfo| si@),
                        service_first_match(services, request.service_name@, i as int),
                        declared@ == rpc_type_text(request.rpc_type),
                        methods@ == schema.services@[i as int].methods@,
                        j <= methods@.len(),
                        forall|k: int|
                            0 <= k < j ==> #[trigger] methods@[k]@.name != request.method_name@,
                    decreases methods@.len() - j,
                {
                    if crate::strutil::str_eq(
                        methods[j].name.as_str(),
                        request.method_name.as_str(),
                    ) {
                        proof {
                            assert(services[i as int].methods[j as int] == methods@[j as int]@);
                            assert(method_first_match(
                                services[i as int].methods,
                                request.method_name@,
                                j as int,
                            ));
                            assert forall|i2: int|
                                service_first_match(services, request.service_name@, i2) implies i2
                                == i as int by {
                                lemma_service_first_match_unique(
                                    services,
                                    request.service_name@,
                                    i2,
                                    i as int,
                                );
                            }
                            assert forall|j2: int|
                                method_first_match(
                                    services[i as int].methods,
                                    request.method_name@,
                                    j2,
                                ) implies j2 == j as int by {
                                crate::proto_schema::lemma_method_first_match_unique(
                                    services[i as int].methods,
                                    request.method_name@,
                                    j2,
                                    j as int,
                                );
                            }
                        }
                        if crate::strutil::str_eq(methods[j].rpc_type.as_str(), declared) {
                            return Ok(());
                        } else {
                            return Err(
                                EngineError::RpcShapeMismatch {
                                    expected: methods[j].rpc_type.clone(),
                                    actual: declared.to_owned(),
                                },
                            );
                        }
                    }
                    j = j + 1;
                }
                // Method not found: list what the service defines.
                let mut available: Vec<String> = Vec::new();
                let mut k: usize = 0;
                while k < methods.len()
                    invariant
                        0 <= i < services.len(),
                        services == schema.services@.map_values(|si: ServiceInfo| si@),
                        service_first_match(services, request.service_name@, i as int),
                        forall|k2: int|
                            0 <= k2 < methods@.len() ==> #[trigger] methods@[k2]@.name
                                != request.method_name@,
                        methods@ == schema.services@[i as int].methods@,
                        k <= methods@.len(),
                        available@.len() == k,
                        forall|k2: int|
                            0 <= k2 < k ==> #[trigger] available@[k2]@ == methods@[k2]@.name,
                    decreases methods@.len() - k,
                {
                    available.push(methods[k].name.clone());
                    k = k + 1;
                }
                proof {
                    assert forall|k2: int|
                        0 <= k2 < services[i as int].methods.len() implies services[
                        i as int
                    ].methods[k2].name != request.method_name@ by {
                        assert(services[i as int].methods[k2] == methods@[k2]@);
                    }
                    assert(!has_method(services[i as int].methods, request.method_name@));
                    let lhs = available@.map_values(|s: String| s@);
                    let rhs = services[i as int].methods.map_values(
                        |m: crate::proto_schema::MethodInfoModel| m.name,
                    );
                    assert forall|k2: int| 0 <= k2 < lhs.len() implies lhs[k2] == rhs[k2] by {
                        assert(lhs[k2] == available@[k2]@);
                        assert(services[i as int].methods[k2] == methods@[k2]@);
                    }
                    assert(lhs =~= rhs);
                    assert forall|i2: int|
                        service_first_match(services, request.service_name@, i2) implies i2
                        == i as int by {
                        lemma_service_first_match_unique(
                            services,
                            request.service_name@,
                            i2,
                            i as int,
                        );
                    }
                }
                return Err(
                    EngineError::MethodNotFound {
                        service: request.service_name.clone(),
                        method: request.method_name.clone(),
                        available_methods: available,
                    },
                );
            }
            i = i + 1;
        }
        proof {
            assert(!has_service(services, request.service_name@));
        }
        let available = self.proto_loader.list_services(schema);
        Err(
            EngineError::ServiceNotFound {
                service: request.service_name.clone(),
                available_services: available,
            },
        )
    }

    /// Decodes the request's schema bytes and prepares the unary exchange:
    /// the whole local half of an invocation, with no network work.
    pub fn prepare_from_schema(&self, request: &GrpcRequest, schema: &ProtoSchema) -> (r: Result<
        PreparedCall,
        EngineError,
    >)
        ensures
            !pool_decodes(schema.file_descriptor_set@) ==> (r matches Err(e) && e matches
                EngineError::InvalidDescriptor { .. }),
            (r matches Err(e) && e matches EngineError::InvalidDescriptor { .. }) ==> !pool_decodes(
                schema.file_descriptor_set@,
            ),
            pool_decodes(schema.file_descriptor_set@) ==> prepare_post(
                pool_catalog_of(schema.file_descriptor_set@),
                request.service_name@,
                request.method_name@,
                request.message_json@,
                request.metadata@,
                r,
            ),
    {
        let pool = match self.proto_loader.parse_descriptor(
            schema.file_descriptor_set.as_slice(),
        ) {
            Ok(p) => p,
            Err(e) => { return Err(e) },
        };
        let r = prepare_unary_call(
            &pool,
            request.service_name.as_str(),
            request.method_name.as_str(),
            request.message_json.as_str(),
            &request.metadata,
        );
        proof {
            let cat = pool_catalog_of(schema.file_descriptor_set@);
            let sname = request.service_name@;
            let mname = request.method_name@;
            if crate::dynamic_invoker::pool_has_service(cat, sname) {
                crate::dynamic_invoker::lemma_has_service_gives_first_match(cat, sname);
                let i = choose|i: int|
                    crate::dynamic_invoker::pool_service_first_match(cat, sname, i);
                if crate::dynamic_invoker::record_has_method(cat[i].1, mname) {
                    crate::dynamic_invoker::lemma_has_method_gives_first_match(cat[i].1, mname);
                }
            }
        }
        r
    }

    /// The synthetic, clearly-labeled informational message returned when
    /// no schema is loaded: reachability was proven, nothing was invoked.
    pub fn create_connectivity_response(&self, request: &GrpcRequest) -> (m: GrpcMessage)
        ensures
            m.message_json@ == connectivity_text(
                request.server_url@,
                request.service_name@,
                request.method_name@,
            ),
    {
        let mut text = String::new();
        text.append(
            "{\n  \"status\": \"Connection Successful\",\n  \"message\": \"Successfully connected to gRPC server at ",
        );
        text.append(request.server_url.as_str());
        text.append("\",\n  \"service\": \"");
        text.append(request.service_name.as_str());
        text.append("\",\n  \"method\": \"");
        text.append(request.method_name.as_str());
        text.append(
            "\",\n  \"note\": \"Load a proto file (Press 'l' in gRPC mode) to enable validation and get message templates.\",\n  \"tip\": \"Generate proto descriptor: protoc --descriptor_set_out=service.pb --include_imports service.proto\"\n}",
        );
        proof {
            assert(text@ =~= connectivity_text(
                request.server_url@,
                request.service_name@,
                request.method_name@,
            ));
        }
        GrpcMessage { message_json: text, received_at: crate::ids::now_unix_millis() }
    }

    /// The response for a server that could not be reached: status 14
    /// (unavailable), no messages, and the connection failure detail in the
    /// status message.
    pub fn connect_failure_response(&self, request_id: u128, detail: &str, duration_ms: u64) -> (r:
        GrpcResponse)
        ensures
            r.request_id == request_id,
            r.messages@.len() == 0,
            r.status.code == 14,
            r.status.message@ == connect_failure_text(detail@),
            r.metadata@.len() == 0,
            r.trailers@.len() == 0,
            r.duration_ms == duration_ms,
    {
        let mut message = String::new();
        message.append("Failed to connect to gRPC server: ");
        message.append(detail);
        proof {
            assert(message@ =~= connect_failure_text(detail@));
        }
        GrpcResponse {
            id: crate::ids::fresh_id(),
            request_id,
            messages: Vec::new(),
            status: GrpcStatus { code: 14, message },
            metadata: Vec::new(),
            trailers: Vec::new(),
            duration_ms,
            timestamp: crate::ids::now_unix_millis(),
        }
    }

    /// The response for an exchange that failed after the channel was
    /// established: status 13 (internal), no messages, and the failure
    /// detail in the status message.
    pub fn rpc_failure_response(&self, request_id: u128, detail: &str, duration_ms: u64) -> (r:
        GrpcResponse)
        ensures
            r.request_id == request_id,
            r.messages@.len() == 0,
            r.status.code == 13,
            r.status.message@ == rpc_failure_text(detail@),
            r.metadata@.len() == 0,
            r.trailers@.len() == 0,
            r.duration_ms == duration_ms,
    {
        let mut message = String::new();
        message.append("RPC execution failed: ");
        message.append(detail);
        proof {
            assert(message@ =~= rpc_failure_text(detail@));
        }
        GrpcResponse {
            id: crate::ids::fresh_id(),
            request_id,
            messages: Vec::new(),
            status: GrpcStatus { code: 13, message },
            metadata: Vec::new(),
            trailers: Vec::new(),
            duration_ms,
            timestamp: crate::ids::now_unix_millis(),
        }
    }

    /// The response for a successful exchange: status 0 and exactly one
    /// message holding the decoded response JSON.
    pub fn success_response(&self, request_id: u128, response_json: String, duration_ms: u64) -> (r:
        GrpcResponse)
        ensures
            r.request_id == request_id,
            r.messages@.len() == 1,
            r.messages@[0].message_json@ == response_json@,
            r.status.code == 0,
            r.status.message@ == "RPC call successful"@,
            r.metadata@.len() == 0,
            r.trailers@.len() == 0,
            r.duration_ms == duration_ms,
    {
        let mut messages: Vec<GrpcMessage> = Vec::new();
        messages.push(
            GrpcMessage {
                message_json: response_json,
                received_at: crate::ids::now_unix_millis(),
            },
        );
        GrpcResponse {
            id: crate::ids::fresh_id(),
            request_id,
            messages,
            status: GrpcStatus { code: 0, message: "RPC call successful".to_owned() },
            metadata: Vec::new(),
            trailers: Vec::new(),
            duration_ms,
            timestamp: crate::ids::now_unix_millis(),
        }
    }

    /// The response for a reachability-only check when no schema is loaded:
    /// status 0 with the synthetic informational message.
    pub fn connectivity_response(&self, request: &GrpcRequest, duration_ms: u64) -> (r:
        GrpcResponse)
        ensures
            r.request_id == request.id,
            r.messages@.len() == 1,
            r.messages@[0].message_json@ == connectivity_text(
                request.server_url@,
                request.service_name@,
                request.method_name@,
            ),
            r.status.code == 0,
            r.status.message@ == "Connection OK - Load proto file for full RPC support"@,
            r.metadata@.len() == 0,
            r.trailers@.len() == 0,
            r.duration_ms == duration_ms,
    {
        let message = self.create_connectivity_response(request);
        let mut messages: Vec<GrpcMessage> = Vec::new();
        messages.push(message);
        GrpcResponse {
            id: crate::ids::fresh_id(),
            request_id: request.id,
            messages,
            status: GrpcStatus {
                code: 0,
                message: "Connection OK - Load proto file for full RPC support".to_owned(),
            },
            metadata: Vec::new(),
            trailers: Vec::new(),
            duration_ms,
            timestamp: crate::ids::now_unix_millis(),
        }
    }
}

impl Default for GrpcClient {
    fn default() -> Self {
        GrpcClient { proto_loader: ProtoLoader {  } }
    }
}

} // verus!
