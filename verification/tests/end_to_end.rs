//! One full unary exchange through the transport's client and server
//! machinery, with no generated code on either side: the engine prepares
//! the call, the raw pass-through codec carries the bytes, and a
//! reflection-based echo service answers.  The two stacks are composed in
//! process, so the exchange exercises the real gRPC framing on both legs.

use std::convert::Infallible;

use prost::Message;
use prost::bytes::Buf;
use prost::bytes::BufMut;
use prost_reflect::DescriptorPool;
use prost_reflect::DynamicMessage;
use prost_reflect::Value;
use prost_types::DescriptorProto;
use prost_types::FieldDescriptorProto;
use prost_types::FileDescriptorProto;
use prost_types::FileDescriptorSet;
use prost_types::MethodDescriptorProto;
use prost_types::ServiceDescriptorProto;
use prost_types::field_descriptor_proto;
use prost_types::field_descriptor_proto::Type;
use tonic::Status;
use tonic::codec::Codec;
use tonic::codec::DecodeBuf;
use tonic::codec::Decoder;
use tonic::codec::EncodeBuf;
use tonic::codec::Encoder;
use tonic::codegen::BoxFuture;
use tonic::codegen::Context;
use tonic::codegen::Poll;
use tonic::codegen::Service;
use tonic::codegen::http;

use dynrpc::client::GrpcClient;
use dynrpc::dynamic_invoker::decode_unary_response;
use dynrpc::grpc_request::GrpcRequest;
use dynrpc::proto_loader::ProtoLoader;
use dynrpc::proto_schema::ProtoSchema;
use dynrpc::proto_schema::ProtoSourceType;
use dynrpc::wire;

fn string_field(name: &str, number: i32) -> FieldDescriptorProto {
    let mut f = FieldDescriptorProto::default();
    f.name = Some(name.to_string());
    f.number = Some(number);
    f.set_type(Type::String);
    f.set_label(field_descriptor_proto::Label::Optional);
    f
}

fn greet_descriptor_bytes() -> Vec<u8> {
    let mut hello_request = DescriptorProto::default();
    hello_request.name = Some("HelloRequest".to_string());
    hello_request.field = vec![string_field("name", 1)];

    let mut hello_reply = DescriptorProto::default();
    hello_reply.name = Some("HelloReply".to_string());
    hello_reply.field = vec![string_field("message", 1)];

    let mut say_hello = MethodDescriptorProto::default();
    say_hello.name = Some("SayHello".to_string());
    say_hello.input_type = Some(".greet.HelloRequest".to_string());
    say_hello.output_type = Some(".greet.HelloReply".to_string());

    let mut service = ServiceDescriptorProto::default();
    service.name = Some("Greeter".to_string());
    service.method = vec![say_hello];

    let mut file = FileDescriptorProto::default();
    file.name = Some("greet.proto".to_string());
    file.package = Some("greet".to_string());
    file.syntax = Some("proto3".to_string());
    file.message_type = vec![hello_request, hello_reply];
    file.service = vec![service];

    FileDescriptorSet { file: vec![file] }.encode_to_vec()
}

/// The raw pass-through codec, plugged into the transport on both sides
/// through the library's verified framing.
#[derive(Debug, Clone, Default)]
struct RawCodec;

impl Codec for RawCodec {
    type Encode = Vec<u8>;
    type Decode = Vec<u8>;
    type Encoder = RawEncoder;
    type Decoder = RawDecoder;

    fn encoder(&mut self) -> Self::Encoder {
        RawEncoder
    }

    fn decoder(&mut self) -> Self::Decoder {
        RawDecoder
    }
}

#[derive(Debug, Clone, Default)]
struct RawEncoder;

impl Encoder for RawEncoder {
    type Item = Vec<u8>;
    type Error = Status;

    fn encode(&mut self, item: Self::Item, dst: &mut EncodeBuf<'_>) -> Result<(), Self::Error> {
        let frame = wire::encode_frame(&item);
        dst.put_slice(&frame);
        Ok(())
    }
}

#[derive(Debug, Clone, Default)]
struct RawDecoder;

impl Decoder for RawDecoder {
    type Item = Vec<u8>;
    type Error = Status;

    fn decode(&mut self, src: &mut DecodeBuf<'_>) -> Result<Option<Self::Item>, Self::Error> {
        let chunk_len = src.chunk().len();
        match wire::decode_frame(src.chunk()) {
            Some(buf) => {
                src.advance(chunk_len);
                Ok(Some(buf))
            },
            None => Ok(None),
        }
    }
}

/// The unary handler: decodes HelloRequest bytes by reflection and answers
/// with HelloReply{message: "Hello <name>"}.
struct SayHelloEcho;

impl tonic::server::UnaryService<Vec<u8>> for SayHelloEcho {
    type Response = Vec<u8>;
    type Future = BoxFuture<tonic::Response<Vec<u8>>, Status>;

    fn call(&mut self, request: tonic::Request<Vec<u8>>) -> Self::Future {
        Box::pin(async move {
            let bytes = request.into_inner();
            let pool = DescriptorPool::decode(greet_descriptor_bytes().as_slice())
                .map_err(|e| Status::internal(e.to_string()))?;
            let req_desc = pool.get_message_by_name("greet.HelloRequest").unwrap();
            let inbound = DynamicMessage::decode(req_desc, bytes.as_slice())
                .map_err(|e| Status::invalid_argument(e.to_string()))?;
            let name = match inbound.get_field_by_name("name").as_deref() {
                Some(Value::String(s)) => s.clone(),
                _ => String::new(),
            };
            let reply_desc = pool.get_message_by_name("greet.HelloReply").unwrap();
            let mut reply = DynamicMessage::new(reply_desc);
            reply.set_field_by_name("message", Value::String(format!("Hello {}", name)));
            Ok(tonic::Response::new(reply.encode_to_vec()))
        })
    }
}

/// The service router for `greet.Greeter`, written out by hand.
#[derive(Clone)]
struct GreeterEcho;

impl tonic::server::NamedService for GreeterEcho {
    const NAME: &'static str = "greet.Greeter";
}

impl Service<http::Request<tonic::body::BoxBody>> for GreeterEcho {
    type Response = http::Response<tonic::body::BoxBody>;
    type Error = Infallible;
    type Future = BoxFuture<Self::Response, Self::Error>;

    fn poll_ready(&mut self, _cx: &mut Context<'_>) -> Poll<Result<(), Self::Error>> {
        Poll::Ready(Ok(()))
    }

    fn call(&mut self, req: http::Request<tonic::body::BoxBody>) -> Self::Future {
        Box::pin(async move {
            match req.uri().path() {
                "/greet.Greeter/SayHello" => {
                    let mut grpc = tonic::server::Grpc::new(RawCodec);
                    Ok(grpc.unary(SayHelloEcho, req).await)
                },
                _ => {
                    let response = http::Response::builder()
                        .status(200)
                        .header("grpc-status", "12")
                        .header("content-type", "application/grpc")
                        .body(tonic::body::empty_body())
                        .unwrap();
                    Ok(response)
                },
            }
        })
    }
}

fn greet_schema() -> ProtoSchema {
    ProtoLoader::new()
        .load_from_bytes("greet".to_string(), greet_descriptor_bytes(), ProtoSourceType::LocalFile)
        .unwrap()
}

#[test]
fn live_unary_exchange_end_to_end() {
    let rt = tokio::runtime::Builder::new_multi_thread().enable_all().build().unwrap();
    rt.block_on(async {
        // The client side, through the engine.
        let client = GrpcClient::new();
        let schema = greet_schema();
        let mut request = GrpcRequest::new("call".to_string(), "in-process".to_string());
        request.service_name = "greet.Greeter".to_string();
        request.method_name = "SayHello".to_string();
        request.message_json = "{\"name\": \"Ada\"}".to_string();
        request.metadata.push(("x-trace".to_string(), "abc".to_string()));

        assert!(client.check_request_fields(&request).is_ok());
        assert!(client.validate_against_schema(&request, &schema).is_ok());
        let prepared = client.prepare_from_schema(&request, &schema).unwrap();

        // Drive the transport's client machinery straight into the service
        // router: full gRPC framing on both legs, no socket in between.
        let mut grpc = tonic::client::Grpc::new(GreeterEcho);
        let mut outbound = tonic::Request::new(prepared.request_bytes.clone());
        for (key, value) in &prepared.headers {
            let name = key.parse::<tonic::metadata::AsciiMetadataKey>().unwrap();
            let val = value.parse::<tonic::metadata::AsciiMetadataValue>().unwrap();
            outbound.metadata_mut().insert(name, val);
        }
        grpc.ready().await.unwrap();
        let path = prepared.path.clone().try_into().unwrap();
        let response: tonic::Response<Vec<u8>> =
            grpc.unary(outbound, path, RawCodec).await.unwrap();
        let response_bytes = response.into_inner();

        let json = decode_unary_response(&prepared.output_desc, &response_bytes).unwrap();
        let got: serde_json::Value = serde_json::from_str(&json).unwrap();
        let expected: serde_json::Value =
            serde_json::from_str("{\"message\":\"Hello Ada\"}").unwrap();
        assert_eq!(got, expected);

        let final_response = client.success_response(request.id, json, 3);
        assert_eq!(final_response.status.code, 0);
        assert!(final_response.is_ok());
        assert_eq!(final_response.messages.len(), 1);
    });
}
