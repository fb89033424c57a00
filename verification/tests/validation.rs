use prost::Message;
use prost_types::DescriptorProto;
use prost_types::FieldDescriptorProto;
use prost_types::FileDescriptorProto;
use prost_types::FileDescriptorSet;
use prost_types::MethodDescriptorProto;
use prost_types::ServiceDescriptorProto;
use prost_types::field_descriptor_proto;

use dynrpc::client::GrpcClient;
use dynrpc::errors::EngineError;
use dynrpc::grpc_request::GrpcRequest;
use dynrpc::grpc_request::RpcType;
use dynrpc::proto_loader::ProtoLoader;
use dynrpc::proto_schema::ProtoSchema;
use dynrpc::proto_schema::ProtoSourceType;

/// A schema defining exactly `A.Foo` with the unary method `Bar`.
fn schema_a_foo() -> ProtoSchema {
    let mut field = FieldDescriptorProto::default();
    field.name = Some("x".to_string());
    field.number = Some(1);
    field.set_type(field_descriptor_proto::Type::String);
    field.set_label(field_descriptor_proto::Label::Optional);

    let mut msg = DescriptorProto::default();
    msg.name = Some("Payload".to_string());
    msg.field = vec![field];

    let mut method = MethodDescriptorProto::default();
    method.name = Some("Bar".to_string());
    method.input_type = Some(".A.Payload".to_string());
    method.output_type = Some(".A.Payload".to_string());

    let mut service = ServiceDescriptorProto::default();
    service.name = Some("Foo".to_string());
    service.method = vec![method];

    let mut file = FileDescriptorProto::default();
    file.name = Some("a.proto".to_string());
    file.package = Some("A".to_string());
    file.syntax = Some("proto3".to_string());
    file.message_type = vec![msg];
    file.service = vec![service];

    let bytes = FileDescriptorSet { file: vec![file] }.encode_to_vec();
    ProtoLoader::new().load_from_bytes("a".to_string(), bytes, ProtoSourceType::LocalFile).unwrap()
}

fn request_for(service: &str, method: &str, shape: RpcType) -> GrpcRequest {
    let mut r = GrpcRequest::new("call".to_string(), "localhost:50051".to_string());
    r.service_name = service.to_string();
    r.method_name = method.to_string();
    r.rpc_type = shape;
    r
}

#[test]
fn unknown_method_lists_the_available_ones() {
    let schema = schema_a_foo();
    let client = GrpcClient::new();
    let request = request_for("A.Foo", "Baz", RpcType::Unary);
    match client.validate_against_schema(&request, &schema) {
        Err(EngineError::MethodNotFound { service, method, available_methods }) => {
            assert_eq!(service, "A.Foo");
            assert_eq!(method, "Baz");
            assert_eq!(available_methods, vec!["Bar".to_string()]);
        },
        other => panic!("expected MethodNotFound, got {:?}", other),
    }
}

#[test]
fn unknown_service_lists_the_available_ones() {
    let schema = schema_a_foo();
    let client = GrpcClient::new();
    let request = request_for("A.Qux", "Bar", RpcType::Unary);
    match client.validate_against_schema(&request, &schema) {
        Err(EngineError::ServiceNotFound { service, available_services }) => {
            assert_eq!(service, "A.Qux");
            assert_eq!(available_services, vec!["A.Foo".to_string()]);
        },
        other => panic!("expected ServiceNotFound, got {:?}", other),
    }
}

#[test]
fn matching_shape_validates() {
    let schema = schema_a_foo();
    let client = GrpcClient::new();
    let request = request_for("A.Foo", "Bar", RpcType::Unary);
    assert!(client.validate_against_schema(&request, &schema).is_ok());
}

#[test]
fn declared_streaming_against_unary_is_a_shape_mismatch() {
    let schema = schema_a_foo();
    let client = GrpcClient::new();
    let request = request_for("A.Foo", "Bar", RpcType::ServerStreaming);
    match client.validate_against_schema(&request, &schema) {
        Err(EngineError::RpcShapeMismatch { expected, actual }) => {
            assert_eq!(expected, "unary");
            assert_eq!(actual, "server_streaming");
        },
        other => panic!("expected RpcShapeMismatch, got {:?}", other),
    }
}
