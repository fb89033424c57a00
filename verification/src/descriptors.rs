//! Trusted surface over the protobuf reflection library.
//!
//! The descriptor pool and the descriptor handles it hands out are opaque to
//! the verifier.  Their observable contents are modelled by uninterpreted
//! spec functions — a record per service, a record per method, a name and a
//! field list per message — and each reflection call the engine makes is
//! wrapped in a small trusted function whose contract speaks over those
//! records.  Everything downstream (catalog extraction, validation, method
//! resolution, request preparation) is verified against these contracts.

use vstd::prelude::*;
use prost_reflect::DescriptorPool;
use prost_reflect::ServiceDescriptor;
use prost_reflect::MethodDescriptor;
use prost_reflect::MessageDescriptor;
use prost_reflect::DescriptorError;
use prost_reflect::DynamicMessage;
use prost_reflect::Kind;
use prost::Message;
use serde::de::DeserializeSeed;

verus! {

#[verifier::external_type_specification]
#[verifier::external_body]
pub struct ExDescriptorPool(DescriptorPool);

#[verifier::external_type_specification]
#[verifier::external_body]
pub struct ExServiceDescriptor(ServiceDescriptor);

#[verifier::external_type_specification]
#[verifier::external_body]
pub struct ExMethodDescriptor(MethodDescriptor);

#[verifier::external_type_specification]
#[verifier::external_body]
pub struct ExMessageDescriptor(MessageDescriptor);

#[verifier::external_type_specification]
#[verifier::external_body]
pub struct ExDescriptorError(DescriptorError);

/// What a method descriptor shows: name, client-streaming flag,
/// server-streaming flag, input type full name, output type full name.
pub type MethodRecord = (Seq<char>, bool, bool, Seq<char>, Seq<char>);

/// What a service descriptor shows: its fully qualified name and its
/// methods in declaration order.
pub type ServiceRecord = (Seq<char>, Seq<MethodRecord>);

/// Whether `DescriptorPool::decode` accepts these bytes as a serialized file
/// descriptor set.  Decoding is a function of the bytes alone.
pub uninterp spec fn pool_decodes(bytes: Seq<u8>) -> bool;

/// The services a decoded pool holds, in the pool's iteration order.
pub uninterp spec fn pool_services(p: DescriptorPool) -> Seq<ServiceRecord>;

/// The services of the pool decoded from these bytes.  Decoding is
/// deterministic, so the catalog is a function of the bytes; this is only
/// constrained for bytes that decode successfully.
pub uninterp spec fn pool_catalog_of(bytes: Seq<u8>) -> Seq<ServiceRecord>;

/// The record of a single service descriptor handle.
pub uninterp spec fn service_record(s: ServiceDescriptor) -> ServiceRecord;

/// The record of a single method descriptor handle.
pub uninterp spec fn method_record(m: MethodDescriptor) -> MethodRecord;

/// The fully qualified name of the message type a descriptor describes.
pub uninterp spec fn message_name(d: MessageDescriptor) -> Seq<char>;

/// The field names of a message type, in ascending field-number order
/// (the order the reflection library iterates fields in).
pub uninterp spec fn message_fields(d: MessageDescriptor) -> Seq<Seq<char>>;

/// The declared types of a message type's fields, in the same order as
/// `message_fields`.
pub uninterp spec fn message_field_kinds(d: MessageDescriptor) -> Seq<FieldKind>;

/// Whether the pool defines a message type under this fully qualified name.
pub uninterp spec fn pool_has_message(p: DescriptorPool, name: Seq<char>) -> bool;

/// The field names of the message type the pool defines under this name;
/// only constrained for names the pool has.
pub uninterp spec fn pool_message_fields(p: DescriptorPool, name: Seq<char>) -> Seq<Seq<char>>;

/// The field types of the message type the pool defines under this name, in
/// the same order; only constrained for names the pool has.
pub uninterp spec fn pool_message_kinds(p: DescriptorPool, name: Seq<char>) -> Seq<FieldKind>;

/// Whether this JSON text parses into a message of this type.  Acceptance
/// depends on the descriptor and the text alone.
pub uninterp spec fn json_parses(d: MessageDescriptor, json: Seq<char>) -> bool;

/// That `bytes` is a wire encoding of the message parsed from this JSON
/// text.  A relation, not a function: a message with protobuf map fields
/// holds them in hash order, so two encodings of the same parse may lay the
/// map entries out differently.
pub uninterp spec fn json_msg_rel(d: MessageDescriptor, json: Seq<char>, bytes: Seq<u8>) -> bool;

/// The wire encoding of the zero-valued message of this type (every field
/// left at its default).
pub uninterp spec fn empty_msg_bytes(d: MessageDescriptor) -> Seq<u8>;

/// Whether these wire bytes decode against this descriptor into a message
/// that can be rendered as JSON.  Acceptance depends on the descriptor and
/// the bytes alone.
pub uninterp spec fn wire_renders(d: MessageDescriptor, bytes: Seq<u8>) -> bool;

/// That `json` is a JSON rendering of the message decoded from these wire
/// bytes.  A relation, not a function: protobuf map fields render in hash
/// order, so two renderings of the same message may order keys differently.
pub uninterp spec fn rendered_json_rel(
    d: MessageDescriptor,
    bytes: Seq<u8>,
    json: Seq<char>,
) -> bool;

/// Relies on `prost_reflect::DescriptorPool::decode`: builds a descriptor
/// pool from a serialized file descriptor set, failing exactly when the
/// bytes are not a valid encoding of one.
#[verifier::external_body]
pub(crate) fn decode_pool(bytes: &[u8]) -> (r: Result<DescriptorPool, DescriptorError>)
    ensures
        r is Ok <==> pool_decodes(bytes@),
        r matches Ok(p) ==> pool_services(p) == pool_catalog_of(bytes@),
{
    DescriptorPool::decode(bytes)
}

/// Relies on `DescriptorError`'s `Display` implementation to describe why a
/// descriptor set was rejected.
#[verifier::external_body]
pub(crate) fn descriptor_error_message(e: &DescriptorError) -> String {
    e.to_string()
}

/// Relies on `DescriptorPool::services` (an exact-size iterator): the number
/// of services defined in the pool's files.
#[verifier::external_body]
pub(crate) fn pool_service_count(p: &DescriptorPool) -> (n: usize)
    ensures
        n == pool_services(*p).len(),
{
    p.services().len()
}

/// Relies on `DescriptorPool::services`: the service at this position of the
/// pool's iteration order.
#[verifier::external_body]
pub(crate) fn pool_service_at(p: &DescriptorPool, i: usize) -> (s: ServiceDescriptor)
    requires
        i < pool_services(*p).len(),
    ensures
        service_record(s) == pool_services(*p)[i as int],
{
    p.services().nth(i).unwrap()
}

/// Relies on `ServiceDescriptor::full_name`, e.g. `my.package.Service`.
#[verifier::external_body]
pub(crate) fn service_full_name(s: &ServiceDescriptor) -> (r: String)
    ensures
        r@ == service_record(*s).0,
{
    s.full_name().to_string()
}

/// Relies on `ServiceDescriptor::methods` (an exact-size iterator): how many
/// methods the service defines.
#[verifier::external_body]
pub(crate) fn service_method_count(s: &ServiceDescriptor) -> (n: usize)
    ensures
        n == service_record(*s).1.len(),
{
    s.methods().len()
}

/// Relies on `ServiceDescriptor::methods`: the method at this position of
/// the service's declaration order.
#[verifier::external_body]
pub(crate) fn service_method_at(s: &ServiceDescriptor, j: usize) -> (m: MethodDescriptor)
    requires
        j < service_record(*s).1.len(),
    ensures
        method_record(m) == service_record(*s).1[j as int],
{
    s.methods().nth(j).unwrap()
}

/// Relies on `MethodDescriptor::name`.
#[verifier::external_body]
pub(crate) fn method_name(m: &MethodDescriptor) -> (r: String)
    ensures
        r@ == method_record(*m).0,
{
    m.name().to_string()
}

/// Relies on `MethodDescriptor::is_client_streaming`.
#[verifier::external_body]
pub(crate) fn method_is_client_streaming(m: &MethodDescriptor) -> (r: bool)
    ensures
        r == method_record(*m).1,
{
    m.is_client_streaming()
}

/// Relies on `MethodDescriptor::is_server_streaming`.
#[verifier::external_body]
pub(crate) fn method_is_server_streaming(m: &MethodDescriptor) -> (r: bool)
    ensures
        r == method_record(*m).2,
{
    m.is_server_streaming()
}

/// Relies on `MethodDescriptor::input`: the descriptor of the method's input
/// type, whose full name the method record carries.
#[verifier::external_body]
pub(crate) fn method_input(m: &MethodDescriptor) -> (d: MessageDescriptor)
    ensures
        message_name(d) == method_record(*m).3,
{
    m.input()
}

/// Relies on `MethodDescriptor::output`: the descriptor of the method's
/// output type, whose full name the method record carries.
#[verifier::external_body]
pub(crate) fn method_output(m: &MethodDescriptor) -> (d: MessageDescriptor)
    ensures
        message_name(d) == method_record(*m).4,
{
    m.output()
}

/// Relies on `MessageDescriptor::full_name`, e.g. `my.package.Message`.
#[verifier::external_body]
pub(crate) fn message_full_name(d: &MessageDescriptor) -> (r: String)
    ensures
        r@ == message_name(*d),
{
    d.full_name().to_string()
}

/// Relies on `DescriptorPool::get_message_by_name`: looks a message type up
/// by its fully qualified name.  The library strips one leading dot before
/// its lookup, so this wrapper only accepts names without one; the found
/// descriptor carries the looked-up name and the pool's field list for it.
#[verifier::external_body]
pub(crate) fn pool_message_by_name(p: &DescriptorPool, name: &str) -> (r: Option<
    MessageDescriptor,
>)
    requires
        name@.len() == 0 || name@[0] != '.',
    ensures
        r is Some <==> pool_has_message(*p, name@),
        r matches Some(d) ==> message_name(d) == name@,
        r matches Some(d) ==> message_fields(d) == pool_message_fields(*p, name@),
        r matches Some(d) ==> message_field_kinds(d) == pool_message_kinds(*p, name@),
{
    p.get_message_by_name(name)
}

/// Relies on `MessageDescriptor::fields` (an exact-size iterator): how many
/// fields the message type has.
#[verifier::external_body]
pub(crate) fn message_field_count(d: &MessageDescriptor) -> (n: usize)
    ensures
        n == message_fields(*d).len(),
        n == message_field_kinds(*d).len(),
{
    d.fields().len()
}

/// Relies on `MessageDescriptor::fields` and `FieldDescriptor::name`: the
/// name of the field at this position of field-number order.
#[verifier::external_body]
pub(crate) fn message_field_name(d: &MessageDescriptor, i: usize) -> (r: String)
    requires
        i < message_fields(*d).len(),
    ensures
        r@ == message_fields(*d)[i as int],
{
    d.fields().nth(i).unwrap().name().to_string()
}

/// The declared type of a protobuf message field, as far as the template
/// generator needs to tell them apart.
#[derive(Clone, Copy, PartialEq, Eq, Structural, Debug)]
pub enum FieldKind {
    Double,
    Float,
    Int32,
    Int64,
    Uint32,
    Uint64,
    Sint32,
    Sint64,
    Fixed32,
    Fixed64,
    Sfixed32,
    Sfixed64,
    Bool,
    Str,
    Bytes,
    Message,
    Enum,
}

/// Relies on `MessageDescriptor::fields` and `FieldDescriptor::kind`: the
/// declared type of the field at this position, one variant for one
/// variant.
#[verifier::external_body]
pub(crate) fn message_field_kind(d: &MessageDescriptor, i: usize) -> (k: FieldKind)
    requires
        i < message_fields(*d).len(),
    ensures
        k == message_field_kinds(*d)[i as int],
{
    match d.fields().nth(i).unwrap().kind() {
        Kind::Double => FieldKind::Double, Kind::Float => FieldKind::Float,
        Kind::Int32 => FieldKind::Int32, Kind::Int64 => FieldKind::Int64,
        Kind::Uint32 => FieldKind::Uint32, Kind::Uint64 => FieldKind::Uint64,
        Kind::Sint32 => FieldKind::Sint32, Kind::Sint64 => FieldKind::Sint64,
        Kind::Fixed32 => FieldKind::Fixed32, Kind::Fixed64 => FieldKind::Fixed64,
        Kind::Sfixed32 => FieldKind::Sfixed32, Kind::Sfixed64 => FieldKind::Sfixed64,
        Kind::Bool => FieldKind::Bool, Kind::String => FieldKind::Str,
        Kind::Bytes => FieldKind::Bytes, Kind::Message(_) => FieldKind::Message,
        Kind::Enum(_) => FieldKind::Enum,
    }
}

/// Relies on `MessageDescriptor`'s `serde::de::DeserializeSeed`
/// implementation and `prost::Message::encode_to_vec`: parses JSON text into
/// a dynamic message of this type and encodes it to wire bytes.  Whether
/// the text parses depends on the descriptor and the text alone; the bytes
/// are one encoding of the parsed message (map fields may lay out either
/// way).
#[verifier::external_body]
pub(crate) fn encode_json_message(d: &MessageDescriptor, json: &str) -> (r: Result<
    Vec<u8>,
    String,
>)
    ensures
        r is Ok <==> json_parses(*d, json@),
        r matches Ok(b) ==> json_msg_rel(*d, json@, b@),
{
    let mut deserializer = serde_json::Deserializer::from_str(json);
    match d.clone().deserialize(&mut deserializer) {
        Ok(msg) => {
            let m: DynamicMessage = msg;
            Ok(m.encode_to_vec())
        },
        Err(e) => Err(e.to_string()),
    }
}

/// Relies on `prost_reflect::DynamicMessage::new` and
/// `prost::Message::encode_to_vec`: the wire encoding of the zero-valued
/// message of this type.
#[verifier::external_body]
pub(crate) fn encode_empty_message(d: &MessageDescriptor) -> (r: Vec<u8>)
    ensures
        r@ == empty_msg_bytes(*d),
{
    DynamicMessage::new(d.clone()).encode_to_vec()
}

/// Relies on `prost_reflect::DynamicMessage::decode` and
/// `serde_json::to_string_pretty` (via `DynamicMessage`'s `Serialize`
/// implementation): decodes wire bytes against this descriptor and renders
/// the result as JSON text.  Whether the bytes decode and render depends on
/// the descriptor and the bytes alone; the text is one rendering of the
/// decoded message (map fields may order keys either way).  Rendering can
/// fail even for bytes that decode — some well-known types reject values
/// the wire accepts — so only joint acceptance is stated.
#[verifier::external_body]
pub(crate) fn decode_message_json(d: &MessageDescriptor, bytes: &[u8]) -> (r: Result<
    String,
    String,
>)
    ensures
        r is Ok <==> wire_renders(*d, bytes@),
        r matches Ok(s) ==> rendered_json_rel(*d, bytes@, s@),
{
    match DynamicMessage::decode(d.clone(), bytes) {
        Ok(msg) => match serde_json::to_string_pretty(&msg) {
            Ok(s) => Ok(s),
            Err(e) => Err(e.to_string()),
        },
        Err(e) => Err(e.to_string()),
    }
}

} // verus!
