use dynrpc::client::GrpcClient;
use dynrpc::errors::EngineError;
use dynrpc::grpc_request::GrpcRequest;
use dynrpc::grpc_request::RpcType;
use dynrpc::grpc_response::GrpcResponse;
use dynrpc::reflection::ReflectionClient;
use dynrpc::request::HttpMethod;
use dynrpc::request::HttpRequest;

#[test]
fn http_method_text_round() {
    assert_eq!(HttpMethod::GET.as_str(), "GET");
    assert_eq!(HttpMethod::OPTIONS.as_str(), "OPTIONS");
    let all = HttpMethod::all();
    assert_eq!(all.len(), 7);
    assert_eq!(all[0], HttpMethod::GET);
    assert_eq!(all[6], HttpMethod::OPTIONS);
}

#[test]
fn rpc_type_text() {
    assert_eq!(RpcType::Unary.as_str(), "unary");
    assert_eq!(RpcType::ServerStreaming.as_str(), "server_streaming");
    assert_eq!(RpcType::ClientStreaming.as_str(), "client_streaming");
    assert_eq!(RpcType::BidirectionalStreaming.as_str(), "bidirectional_streaming");
}

#[test]
fn new_grpc_request_defaults() {
    let r = GrpcRequest::new("call".to_string(), "localhost:50051".to_string());
    assert_eq!(r.name, "call");
    assert_eq!(r.server_url, "localhost:50051");
    assert_eq!(r.message_json, "{}");
    assert!(!r.use_tls);
    assert_eq!(r.timeout_seconds, Some(30));
    assert!(r.metadata.is_empty());
}

#[test]
fn new_grpc_response_is_ok() {
    let r = GrpcResponse::new(5);
    assert_eq!(r.request_id, 5);
    assert_eq!(r.status.code, 0);
    assert!(r.is_ok());
}

#[test]
fn failing_status_is_not_ok() {
    let client = GrpcClient::new();
    let r = client.rpc_failure_response(1, "boom", 3);
    assert_eq!(r.status.code, 13);
    assert!(!r.is_ok());
    assert_eq!(r.status.message, "RPC execution failed: boom");
    assert!(r.messages.is_empty());
    assert_eq!(r.duration_ms, 3);
}

#[test]
fn empty_fields_are_rejected_in_order() {
    let client = GrpcClient::new();
    let mut r = GrpcRequest::new("call".to_string(), "  ".to_string());
    assert!(matches!(
        client.check_request_fields(&r),
        Err(EngineError::EmptyServerUrl)
    ));
    r.server_url = "localhost:50051".to_string();
    assert!(matches!(
        client.check_request_fields(&r),
        Err(EngineError::EmptyServiceName)
    ));
    r.service_name = "greet.Greeter".to_string();
    assert!(matches!(
        client.check_request_fields(&r),
        Err(EngineError::EmptyMethodName)
    ));
    r.method_name = "SayHello".to_string();
    assert!(client.check_request_fields(&r).is_ok());
}

#[test]
fn connectivity_response_names_the_target() {
    let client = GrpcClient::new();
    let mut req = GrpcRequest::new("call".to_string(), "localhost:4242".to_string());
    req.service_name = "a.B".to_string();
    req.method_name = "C".to_string();
    let resp = client.connectivity_response(&req, 8);
    assert_eq!(resp.status.code, 0);
    assert_eq!(resp.status.message, "Connection OK - Load proto file for full RPC support");
    assert_eq!(resp.messages.len(), 1);
    let text = &resp.messages[0].message_json;
    assert!(text.contains("Successfully connected to gRPC server at localhost:4242"));
    assert!(text.contains("\"service\": \"a.B\""));
    assert!(text.contains("\"method\": \"C\""));
}

#[test]
fn error_messages_enumerate_alternatives() {
    let e = EngineError::ServiceNotFound {
        service: "a.Missing".to_string(),
        available_services: vec!["a.One".to_string(), "a.Two".to_string()],
    };
    assert_eq!(
        e.message(),
        "Service 'a.Missing' not found in proto schema. Available services: a.One, a.Two"
    );
    let e = EngineError::MethodNotFound {
        service: "a.One".to_string(),
        method: "Nope".to_string(),
        available_methods: vec!["Yes".to_string()],
    };
    assert_eq!(
        e.message(),
        "Method 'Nope' not found in service 'a.One'. Available methods: Yes"
    );
    let e = EngineError::RpcShapeMismatch {
        expected: "unary".to_string(),
        actual: "server_streaming".to_string(),
    };
    assert_eq!(
        e.message(),
        "RPC type mismatch: request declares 'server_streaming', but proto defines 'unary'"
    );
}

#[test]
fn reflection_fetch_reports_unsupported() {
    let client = ReflectionClient::new();
    let r = client.fetch_schema("localhost:50051");
    assert!(matches!(r, Err(EngineError::ReflectionNotSupported)));
}

#[test]
fn http_request_builders() {
    let r = HttpRequest::new(
        "r".to_string(),
        HttpMethod::POST,
        "https://api.example.com/things".to_string(),
    )
        .with_header("x-a".to_string(), "1".to_string())
        .with_query_param("q".to_string(), "2".to_string())
        .with_body("{}".to_string());
    assert_eq!(r.method, HttpMethod::POST);
    assert_eq!(r.headers, vec![("x-a".to_string(), "1".to_string())]);
    assert_eq!(r.query_params, vec![("q".to_string(), "2".to_string())]);
    assert_eq!(r.body.as_deref(), Some("{}"));
    assert!(r.follow_redirects);
    assert!(r.verify_ssl);
}

#[test]
fn channel_url_follows_the_tls_flag() {
    assert_eq!(dynrpc::client::channel_url("localhost:50051", false), "http://localhost:50051");
    assert_eq!(dynrpc::client::channel_url("localhost:50051", true), "https://localhost:50051");
    assert_eq!(dynrpc::client::connect_timeout_seconds(3), 3);
    assert_eq!(dynrpc::client::connect_timeout_seconds(30), 10);
}

#[test]
fn full_url_appends_query_parameters() {
    let base = HttpRequest::new(
        "r".to_string(),
        HttpMethod::GET,
        "https://api.example.com/things".to_string(),
    );
    assert_eq!(base.full_url(), "https://api.example.com/things");
    let with_params = base
        .with_query_param("page".to_string(), "2".to_string())
        .with_query_param("sort".to_string(), "name".to_string());
    assert_eq!(with_params.full_url(), "https://api.example.com/things?page=2&sort=name");
}
