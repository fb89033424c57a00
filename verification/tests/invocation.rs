use prost::Message;
use prost_reflect::DescriptorPool;
use prost_reflect::DynamicMessage;
use prost_reflect::Value;
use prost_types::DescriptorProto;
use prost_types::FieldDescriptorProto;
use prost_types::FileDescriptorProto;
use prost_types::FileDescriptorSet;
use prost_types::MethodDescriptorProto;
use prost_types::ServiceDescriptorProto;
use prost_types::field_descriptor_proto;
use prost_types::field_descriptor_proto::Type;

use dynrpc::client::GrpcClient;
use dynrpc::dynamic_invoker::DynamicInvoker;
use dynrpc::dynamic_invoker::decode_unary_response;
use dynrpc::dynamic_invoker::filter_metadata;
use dynrpc::dynamic_invoker::prepare_unary_call;
use dynrpc::dynamic_invoker::resolve_method;
use dynrpc::errors::EngineError;
use dynrpc::grpc_request::GrpcRequest;
use dynrpc::proto_loader::ProtoLoader;
use dynrpc::proto_schema::ProtoSchema;
use dynrpc::proto_schema::ProtoSourceType;

fn field(name: &str, number: i32, kind: Type) -> FieldDescriptorProto {
    let mut f = FieldDescriptorProto::default();
    f.name = Some(name.to_string());
    f.number = Some(number);
    f.set_type(kind);
    f.set_label(field_descriptor_proto::Label::Optional);
    f
}

/// `greet.Greeter.SayHello(HelloRequest{name}) -> HelloReply{message}`,
/// plus a server-streaming `Watch` method.
fn greet_descriptor_bytes() -> Vec<u8> {
    let mut hello_request = DescriptorProto::default();
    hello_request.name = Some("HelloRequest".to_string());
    hello_request.field = vec![field("name", 1, Type::String)];

    let mut hello_reply = DescriptorProto::default();
    hello_reply.name = Some("HelloReply".to_string());
    hello_reply.field = vec![field("message", 1, Type::String)];

    let mut say_hello = MethodDescriptorProto::default();
    say_hello.name = Some("SayHello".to_string());
    say_hello.input_type = Some(".greet.HelloRequest".to_string());
    say_hello.output_type = Some(".greet.HelloReply".to_string());

    let mut watch = MethodDescriptorProto::default();
    watch.name = Some("Watch".to_string());
    watch.input_type = Some(".greet.HelloRequest".to_string());
    watch.output_type = Some(".greet.HelloReply".to_string());
    watch.server_streaming = Some(true);

    let mut service = ServiceDescriptorProto::default();
    service.name = Some("Greeter".to_string());
    service.method = vec![say_hello, watch];

    let mut file = FileDescriptorProto::default();
    file.name = Some("greet.proto".to_string());
    file.package = Some("greet".to_string());
    file.syntax = Some("proto3".to_string());
    file.message_type = vec![hello_request, hello_reply];
    file.service = vec![service];

    FileDescriptorSet { file: vec![file] }.encode_to_vec()
}

/// Appends a base-128 varint.
fn put_varint(mut v: u64, out: &mut Vec<u8>) {
    loop {
        let b = (v & 0x7f) as u8;
        v >>= 7;
        if v == 0 {
            out.push(b);
            break;
        }
        out.push(b | 0x80);
    }
}

/// Appends a length-delimited field.
fn put_bytes(tag: u64, payload: &[u8], out: &mut Vec<u8>) {
    put_varint((tag << 3) | 2, out);
    put_varint(payload.len() as u64, out);
    out.extend_from_slice(payload);
}

/// Appends a string field.
fn put_str(tag: u64, s: &str, out: &mut Vec<u8>) {
    put_bytes(tag, s.as_bytes(), out);
}

/// Appends a varint field.
fn put_int(tag: u64, v: u64, out: &mut Vec<u8>) {
    put_varint(tag << 3, out);
    put_varint(v, out);
}

/// A serialized field descriptor: name, number, label, type, and (for enum
/// and message fields) the referenced type.
fn raw_field(name: &str, number: u64, label: u64, ftype: u64, reference: Option<&str>) -> Vec<u8> {
    let mut out = Vec::new();
    put_str(1, name, &mut out);
    put_int(3, number, &mut out);
    put_int(4, label, &mut out);
    put_int(5, ftype, &mut out);
    if let Some(r) = reference {
        put_str(6, r, &mut out);
    }
    out
}

/// `kinds.Echo.Do(Everything) -> Everything`, where `Everything` has one
/// field of every scalar kind plus an enum, a nested message and a
/// repeated field.  Serialized by hand, straight into the descriptor wire
/// format.
fn kinds_descriptor_bytes() -> Vec<u8> {
    // Field type numbers from the descriptor wire format.
    let t_int64: u64 = 3;
    let t_uint64: u64 = 4;
    let t_int32: u64 = 5;
    let t_bool: u64 = 8;
    let t_string: u64 = 9;
    let t_message: u64 = 11;
    let t_bytes: u64 = 12;
    let t_uint32: u64 = 13;
    let t_enum: u64 = 14;
    let optional: u64 = 1;
    let repeated: u64 = 3;

    let mut everything = Vec::new();
    put_str(1, "Everything", &mut everything);
    put_bytes(2, &raw_field("a", 1, optional, t_int32, None), &mut everything);
    put_bytes(2, &raw_field("b", 2, optional, t_int64, None), &mut everything);
    put_bytes(2, &raw_field("c", 3, optional, t_uint32, None), &mut everything);
    put_bytes(2, &raw_field("d", 4, optional, t_uint64, None), &mut everything);
    put_bytes(2, &raw_field("e", 5, optional, t_bool, None), &mut everything);
    put_bytes(2, &raw_field("f", 6, optional, t_string, None), &mut everything);
    put_bytes(2, &raw_field("g", 7, optional, t_bytes, None), &mut everything);
    put_bytes(2, &raw_field("h", 8, optional, t_enum, Some(".kinds.Color")), &mut everything);
    put_bytes(2, &raw_field("i", 9, optional, t_message, Some(".kinds.Inner")), &mut everything);
    put_bytes(2, &raw_field("j", 10, repeated, t_int32, None), &mut everything);

    let mut inner = Vec::new();
    put_str(1, "Inner", &mut inner);
    put_bytes(2, &raw_field("val", 1, optional, t_int32, None), &mut inner);

    let mut red = Vec::new();
    put_str(1, "RED", &mut red);
    put_int(2, 0, &mut red);
    let mut green = Vec::new();
    put_str(1, "GREEN", &mut green);
    put_int(2, 1, &mut green);
    let mut color = Vec::new();
    put_str(1, "Color", &mut color);
    put_bytes(2, &red, &mut color);
    put_bytes(2, &green, &mut color);

    let mut method = Vec::new();
    put_str(1, "Do", &mut method);
    put_str(2, ".kinds.Everything", &mut method);
    put_str(3, ".kinds.Everything", &mut method);
    let mut service = Vec::new();
    put_str(1, "Echo", &mut service);
    put_bytes(2, &method, &mut service);

    let mut file = Vec::new();
    put_str(1, "kinds.proto", &mut file);
    put_str(2, "kinds", &mut file);
    put_bytes(4, &everything, &mut file);
    put_bytes(4, &inner, &mut file);
    put_bytes(5, &color, &mut file);
    put_bytes(6, &service, &mut file);
    put_str(12, "proto3", &mut file);

    let mut set = Vec::new();
    put_bytes(1, &file, &mut set);
    set
}

fn greet_schema() -> ProtoSchema {
    ProtoLoader::new()
        .load_from_bytes("greet".to_string(), greet_descriptor_bytes(), ProtoSourceType::LocalFile)
        .unwrap()
}

fn greet_request(json: &str) -> GrpcRequest {
    let mut r = GrpcRequest::new("call".to_string(), "localhost:50051".to_string());
    r.service_name = "greet.Greeter".to_string();
    r.method_name = "SayHello".to_string();
    r.message_json = json.to_string();
    r
}

#[test]
fn prepare_builds_path_and_encodes_the_payload() {
    let client = GrpcClient::new();
    let schema = greet_schema();
    let request = greet_request("{\"name\": \"Ada\"}");
    let prepared = client.prepare_from_schema(&request, &schema).unwrap();
    assert_eq!(prepared.path, "/greet.Greeter/SayHello");

    // The bytes are the wire-correct encoding of HelloRequest{name: "Ada"}.
    let pool = DescriptorPool::decode(greet_descriptor_bytes().as_slice()).unwrap();
    let desc = pool.get_message_by_name("greet.HelloRequest").unwrap();
    let msg = DynamicMessage::decode(desc, prepared.request_bytes.as_slice()).unwrap();
    match msg.get_field_by_name("name").as_deref() {
        Some(Value::String(s)) => assert_eq!(s, "Ada"),
        other => panic!("unexpected field value: {:?}", other),
    }
}

#[test]
fn blank_json_becomes_the_zero_valued_message() {
    let client = GrpcClient::new();
    let schema = greet_schema();
    let request = greet_request("   ");
    let prepared = client.prepare_from_schema(&request, &schema).unwrap();
    // The zero-valued message encodes to no bytes at all.
    assert!(prepared.request_bytes.is_empty());
}

#[test]
fn mismatched_json_is_a_parse_error() {
    let client = GrpcClient::new();
    let schema = greet_schema();
    let request = greet_request("{\"nope\": 1}");
    let r = client.prepare_from_schema(&request, &schema);
    assert!(matches!(r, Err(EngineError::JsonParseError { .. })));
}

#[test]
fn unknown_service_and_method_are_reported_with_alternatives() {
    let pool = DescriptorPool::decode(greet_descriptor_bytes().as_slice()).unwrap();
    match resolve_method(&pool, "greet.Nothing", "SayHello") {
        Err(EngineError::ServiceNotFound { service, available_services }) => {
            assert_eq!(service, "greet.Nothing");
            assert_eq!(available_services, vec!["greet.Greeter".to_string()]);
        },
        other => panic!("expected ServiceNotFound, got {:?}", other),
    }
    match resolve_method(&pool, "greet.Greeter", "Wave") {
        Err(EngineError::MethodNotFound { method, available_methods, .. }) => {
            assert_eq!(method, "Wave");
            assert_eq!(available_methods, vec!["SayHello".to_string(), "Watch".to_string()]);
        },
        other => panic!("expected MethodNotFound, got {:?}", other),
    }
}

#[test]
fn short_names_are_not_fuzzy_matched() {
    // Lookup is by exact fully qualified name: the bare service name is
    // rejected, with the full names listed as the alternatives.
    let pool = DescriptorPool::decode(greet_descriptor_bytes().as_slice()).unwrap();
    match resolve_method(&pool, "Greeter", "SayHello") {
        Err(EngineError::ServiceNotFound { service, available_services }) => {
            assert_eq!(service, "Greeter");
            assert_eq!(available_services, vec!["greet.Greeter".to_string()]);
        },
        other => panic!("expected ServiceNotFound, got {:?}", other),
    }
}

#[test]
fn streaming_methods_are_rejected_not_guessed() {
    let pool = DescriptorPool::decode(greet_descriptor_bytes().as_slice()).unwrap();
    let metadata: Vec<(String, String)> = Vec::new();
    let r = prepare_unary_call(&pool, "greet.Greeter", "Watch", "{}", &metadata);
    match r {
        Err(EngineError::StreamingNotSupported { shape }) => {
            assert_eq!(shape, "server_streaming");
        },
        Err(other) => panic!("expected StreamingNotSupported, got {:?}", other),
        Ok(_) => panic!("expected StreamingNotSupported, got a prepared call"),
    }
}

#[test]
fn invalid_metadata_pairs_are_skipped_not_failed() {
    let metadata = vec![
        ("x-ok".to_string(), "yes".to_string()),
        ("Bad Header!".to_string(), "v".to_string()),
        ("x-also-ok".to_string(), "fine".to_string()),
        ("x-bad-value".to_string(), "a\nb".to_string()),
    ];
    let kept = filter_metadata(&metadata);
    assert_eq!(
        kept,
        vec![
            ("x-ok".to_string(), "yes".to_string()),
            ("x-also-ok".to_string(), "fine".to_string()),
        ]
    );
}

#[test]
fn end_to_end_echo_exchange() {
    // Schema defines greet.Greeter.SayHello; invoking with {"name":"Ada"}
    // against a server that echoes {"message":"Hello Ada"} yields status 0
    // and a single message with exactly that JSON.
    let client = GrpcClient::new();
    let schema = greet_schema();
    let request = greet_request("{\"name\": \"Ada\"}");
    let prepared = client.prepare_from_schema(&request, &schema).unwrap();

    // The "server": decode the request bytes, build the reply, encode it.
    let pool = DescriptorPool::decode(greet_descriptor_bytes().as_slice()).unwrap();
    let req_desc = pool.get_message_by_name("greet.HelloRequest").unwrap();
    let inbound = DynamicMessage::decode(req_desc, prepared.request_bytes.as_slice()).unwrap();
    let caller = match inbound.get_field_by_name("name").as_deref() {
        Some(Value::String(s)) => s.clone(),
        other => panic!("unexpected field value: {:?}", other),
    };
    let reply_desc = pool.get_message_by_name("greet.HelloReply").unwrap();
    let mut reply = DynamicMessage::new(reply_desc);
    reply.set_field_by_name("message", Value::String(format!("Hello {}", caller)));
    let reply_bytes = reply.encode_to_vec();

    // Back on the client: decode against the prepared output descriptor.
    let json = decode_unary_response(&prepared.output_desc, &reply_bytes).unwrap();
    let got: serde_json::Value = serde_json::from_str(&json).unwrap();
    let expected: serde_json::Value = serde_json::from_str("{\"message\":\"Hello Ada\"}").unwrap();
    assert_eq!(got, expected);

    let response = client.success_response(request.id, json, 5);
    assert_eq!(response.status.code, 0);
    assert_eq!(response.messages.len(), 1);
    let round: serde_json::Value =
        serde_json::from_str(&response.messages[0].message_json).unwrap();
    assert_eq!(round, expected);
}

#[test]
fn scalar_kinds_round_trip_through_the_codec() {
    let pool = DescriptorPool::decode(kinds_descriptor_bytes().as_slice()).unwrap();
    let metadata: Vec<(String, String)> = Vec::new();
    let json = "{\"a\": -5, \"b\": \"-6000000000\", \"c\": 7, \"d\": \"18000000000000000000\", \"e\": true, \"f\": \"hi\", \"g\": \"aGk=\", \"h\": \"GREEN\", \"i\": {\"val\": 3}, \"j\": [1, 2, 3]}";
    let prepared = prepare_unary_call(&pool, "kinds.Echo", "Do", json, &metadata).unwrap();
    // Echo the request bytes straight back and decode them as the output.
    let back = decode_unary_response(&prepared.output_desc, &prepared.request_bytes).unwrap();
    let got: serde_json::Value = serde_json::from_str(&back).unwrap();
    let expected: serde_json::Value = serde_json::from_str(json).unwrap();
    assert_eq!(got, expected);
}

#[test]
fn template_covers_every_field_kind() {
    let loader = ProtoLoader::new();
    let pool = loader.parse_descriptor(&kinds_descriptor_bytes()).unwrap();
    let t = loader.generate_message_template(&pool, "kinds.Everything").unwrap();
    let expected = [
        "{",
        "  \"a\": 0,",
        "  \"b\": 0,",
        "  \"c\": 0,",
        "  \"d\": 0,",
        "  \"e\": false,",
        "  \"f\": \"\",",
        "  \"g\": \"\",",
        "  \"h\": 0,",
        "  \"i\": {},",
        "  \"j\": 0",
        "}",
    ]
        .join("\n");
    assert_eq!(t, expected);
}

#[test]
fn garbage_response_bytes_are_a_decode_error() {
    let client = GrpcClient::new();
    let schema = greet_schema();
    let request = greet_request("{}");
    let prepared = client.prepare_from_schema(&request, &schema).unwrap();
    let r = decode_unary_response(&prepared.output_desc, &[0xffu8, 0xff, 0xff]);
    assert!(matches!(r, Err(EngineError::ResponseDecodeError { .. })));
}

#[test]
fn invoker_resolves_against_its_own_pool() {
    let rt = tokio::runtime::Builder::new_multi_thread().enable_all().build().unwrap();
    let channel = rt.block_on(async {
        tonic::transport::Endpoint::from_static("http://127.0.0.1:59999").connect_lazy()
    });
    let pool = DescriptorPool::decode(greet_descriptor_bytes().as_slice()).unwrap();
    let invoker = DynamicInvoker::new(channel, pool);
    assert!(invoker.get_method_descriptor("greet.Greeter", "SayHello").is_ok());
    let metadata: Vec<(String, String)> = Vec::new();
    let prepared = invoker
        .prepare_unary("greet.Greeter", "SayHello", "{\"name\": \"Bo\"}", &metadata)
        .unwrap();
    assert_eq!(prepared.path, "/greet.Greeter/SayHello");
    drop(rt);
}

#[test]
fn unreachable_server_yields_an_unavailable_response() {
    // Valid schema and method, but nothing listens at the address: the
    // outcome is a returned response with a non-zero status carrying the
    // connection failure detail, not a raised error.
    let rt = tokio::runtime::Builder::new_multi_thread().enable_all().build().unwrap();
    let connect = rt.block_on(async {
        tonic::transport::Endpoint::from_static("http://127.0.0.1:59998")
            .connect_timeout(std::time::Duration::from_secs(2))
            .connect()
            .await
    });
    let err = match connect {
        Err(e) => format!("{}", e),
        Ok(_) => panic!("nothing should be listening"),
    };
    let client = GrpcClient::new();
    let request = greet_request("{\"name\": \"Ada\"}");
    let response = client.connect_failure_response(request.id, &err, 9);
    assert_eq!(response.status.code, 14);
    assert!(response.status.message.starts_with("Failed to connect to gRPC server: "));
    assert!(response.status.message.contains(&err));
    assert!(response.messages.is_empty());
    assert!(!response.is_ok());
}
