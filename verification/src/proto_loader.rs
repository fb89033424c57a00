//! Loading and cataloging of serialized file descriptor sets.
//!
//! A descriptor set is decoded once into a pool; every service defined in
//! the pool is walked and projected into `ServiceInfo`/`MethodInfo` records,
//! deriving each method's RPC shape from its two streaming flags.  A set
//! that defines no services is a distinct, reported error.  Reloading a
//! schema whose source path is already cataloged replaces the catalog entry
//! in place, preserving its identity.

use vstd::prelude::*;
use prost_reflect::DescriptorPool;
use prost_reflect::ServiceDescriptor;
use crate::descriptors::FieldKind;
use crate::descriptors::MethodRecord;
use crate::descriptors::message_field_count;
use crate::descriptors::message_field_kind;
use crate::descriptors::message_field_kinds;
use crate::descriptors::message_field_name;
use crate::descriptors::message_fields;
use crate::descriptors::pool_message_fields;
use crate::descriptors::pool_message_kinds;
use crate::descriptors::pool_has_message;
use crate::descriptors::pool_message_by_name;
use crate::descriptors::ServiceRecord;
use crate::descriptors::decode_pool;
use crate::descriptors::descriptor_error_message;
use crate::descriptors::method_input;
use crate::descriptors::method_is_client_streaming;
use crate::descriptors::method_is_server_streaming;
use crate::descriptors::method_name;
use crate::descriptors::method_output;
use crate::descriptors::message_full_name;
use crate::descriptors::pool_catalog_of;
use crate::descriptors::pool_decodes;
use crate::descriptors::pool_service_at;
use crate::descriptors::pool_service_count;
use crate::descriptors::pool_services;
use crate::descriptors::service_full_name;
use crate::descriptors::service_method_at;
use crate::descriptors::service_method_count;
use crate::descriptors::service_record;
use crate::errors::EngineError;
use crate::proto_schema::MethodInfo;
use crate::proto_schema::MethodInfoModel;
use crate::proto_schema::ProtoSchema;
use crate::proto_schema::has_method;
use crate::proto_schema::has_service;
use crate::proto_schema::method_first_match;
use crate::proto_schema::service_first_match;
use crate::proto_schema::ProtoSourceType;
use crate::proto_schema::ServiceInfo;
use crate::proto_schema::ServiceInfoModel;
use crate::proto_schema::method_info_of_record;
use crate::proto_schema::service_info_of_record;
use crate::proto_schema::services_of_catalog;

verus! {

/// The zero-value JSON literal of a protobuf field type: numbers are 0,
/// floating-point numbers 0.0, booleans false, strings and bytes empty,
/// nested messages an empty object, enums their 0 value.
pub open spec fn zero_literal(k: FieldKind) -> Seq<char> {
    match k {
        FieldKind::Double | FieldKind::Float => "0.0"@,
        FieldKind::Bool => "false"@,
        FieldKind::Str | FieldKind::Bytes => "\"\""@,
        FieldKind::Message => "{}"@,
        _ => "0"@,
    }
}

/// The zero-value JSON literal of a field type, as text.
pub fn zero_literal_str(k: FieldKind) -> (r: &'static str)
    ensures
        r@ == zero_literal(k),
{
    match k {
        FieldKind::Double | FieldKind::Float => "0.0",
        FieldKind::Bool => "false",
        FieldKind::Str | FieldKind::Bytes => "\"\"",
        FieldKind::Message => "{}",
        _ => "0",
    }
}

/// A type name with one leading dot removed: the standard fully qualified
/// form `.my.pkg.Type` names the same type as `my.pkg.Type`, and the
/// pool's lookup strips the dot the same way.
pub open spec fn canonical_type_name(s: Seq<char>) -> Seq<char> {
    if s.len() > 0 && s[0] == '.' {
        s.subrange(1, s.len() as int)
    } else {
        s
    }
}

/// One line of a generated template: the quoted field name and its zero
/// literal, indented.
pub open spec fn template_line(name: Seq<char>, literal: Seq<char>) -> Seq<char> {
    "  \""@ + name + "\": "@ + literal
}

/// A generated template: the field lines joined by commas inside a JSON
/// object.
pub open spec fn template_text(entries: Seq<(Seq<char>, Seq<char>)>) -> Seq<char> {
    "{\n"@ + crate::strutil::spec_join(
        entries.map_values(|e: (Seq<char>, Seq<char>)| template_line(e.0, e.1)),
        ",\n"@,
    ) + "\n}"@
}

/// Loads serialized file descriptor sets and projects them into schema
/// catalog entries.
pub struct ProtoLoader {}

impl ProtoLoader {
    pub fn new() -> Self {
        ProtoLoader {  }
    }

    /// Decodes descriptor bytes into a pool, failing exactly when the bytes
    /// are not a valid serialized file descriptor set.
    pub fn parse_descriptor(&self, bytes: &[u8]) -> (r: Result<DescriptorPool, EngineError>)
        ensures
            r is Ok <==> pool_decodes(bytes@),
            r matches Ok(p) ==> pool_services(p) == pool_catalog_of(bytes@),
            r matches Err(e) ==> e matches EngineError::InvalidDescriptor { .. },
    {
        match decode_pool(bytes) {
            Ok(pool) => Ok(pool),
            Err(e) => Err(
                EngineError::InvalidDescriptor { detail: descriptor_error_message(&e) },
            ),
        }
    }

    /// Projects one service descriptor into a `ServiceInfo`, walking its
    /// methods in declaration order and deriving each RPC shape from the
    /// streaming flags.
    pub fn extract_service_info(&self, service: &ServiceDescriptor) -> (r: ServiceInfo)
        ensures
            r@ == service_info_of_record(service_record(*service)),
    {
        let ghost rec = service_record(*service);
        let n = service_method_count(service);
        let mut methods: Vec<MethodInfo> = Vec::new();
        let mut j: usize = 0;
        while j < n
            invariant
                rec == service_record(*service),
                n == rec.1.len(),
                j <= n,
                methods@.len() == j,
                forall|k: int|
                    0 <= k < j ==> #[trigger] methods@[k]@ == method_info_of_record(rec.1[k]),
            decreases n - j,
        {
            let m = service_method_at(service, j);
            let client_streaming = method_is_client_streaming(&m);
            let server_streaming = method_is_server_streaming(&m);
            let rpc_type: &str = if client_streaming && server_streaming {
                "bidirectional_streaming"
            } else if client_streaming {
                "client_streaming"
            } else if server_streaming {
                "server_streaming"
            } else {
                "unary"
            };
            let input_desc = method_input(&m);
            let output_desc = method_output(&m);
            let info = MethodInfo {
                name: method_name(&m),
                rpc_type: rpc_type.to_owned(),
                input_type: message_full_name(&input_desc),
                output_type: message_full_name(&output_desc),
            };
            proof {
                assert(info@ == method_info_of_record(rec.1[j as int]));
            }
            methods.push(info);
            j = j + 1;
        }
        proof {
            let lhs = methods@.map_values(|mi: MethodInfo| mi@);
            let rhs = rec.1.map_values(|mr: MethodRecord| method_info_of_record(mr));
            assert forall|k: int| 0 <= k < lhs.len() implies lhs[k] == rhs[k] by {
                assert(lhs[k] == methods@[k]@);
                assert(rhs[k] == method_info_of_record(rec.1[k]));
            }
            assert(lhs =~= rhs);
        }
        ServiceInfo { name: service_full_name(service), methods }
    }

    /// Walks every service in the pool, in pool order.  A pool that defines
    /// no services is reported as `NoServicesDefined`.
    pub fn extract_services(&self, pool: &DescriptorPool) -> (r: Result<
        Vec<ServiceInfo>,
        EngineError,
    >)
        ensures
            r is Ok <==> pool_services(*pool).len() > 0,
            r matches Ok(v) ==> v@.map_values(|s: ServiceInfo| s@) == services_of_catalog(
                pool_services(*pool),
            ),
            r matches Err(e) ==> e is NoServicesDefined,
    {
        let ghost cat = pool_services(*pool);
        let n = pool_service_count(pool);
        let mut services: Vec<ServiceInfo> = Vec::new();
        let mut i: usize = 0;
        while i < n
            invariant
                cat == pool_services(*pool),
                n == cat.len(),
                i <= n,
                services@.len() == i,
                forall|k: int|
                    0 <= k < i ==> #[trigger] services@[k]@ == service_info_of_record(cat[k]),
            decreases n - i,
        {
            let service = pool_service_at(pool, i);
            let info = self.extract_service_info(&service);
            services.push(info);
            i = i + 1;
        }
        if services.is_empty() {
            return Err(EngineError::NoServicesDefined);
        }
        proof {
            let lhs = services@.map_values(|s: ServiceInfo| s@);
            let rhs = services_of_catalog(cat);
            assert forall|k: int| 0 <= k < lhs.len() implies lhs[k] == rhs[k] by {
                assert(lhs[k] == services@[k]@);
                assert(rhs[k] == service_info_of_record(cat[k]));
            }
            assert(lhs =~= rhs);
        }
        Ok(services)
    }

    /// Builds a schema from raw descriptor bytes: decodes the pool, extracts
    /// the service catalog, and records the bytes and their origin.
    pub fn load_from_bytes(&self, name: String, bytes: Vec<u8>, source_type: ProtoSourceType) -> (r:
        Result<ProtoSchema, EngineError>)
        ensures
            r is Ok <==> pool_decodes(bytes@) && services_of_catalog(
                pool_catalog_of(bytes@),
            ).len() > 0,
            r matches Ok(s) ==> ({
                &&& s.name@ == name@
                &&& s.file_descriptor_set@ == bytes@
                &&& s.source_type == source_type
                &&& s.source_path is None
                &&& s.collection_id is None
                &&& s.services@.map_values(|si: ServiceInfo| si@) == services_of_catalog(
                    pool_catalog_of(bytes@),
                )
            }),
            r matches Err(e) ==> ({
                &&& (e matches EngineError::InvalidDescriptor { .. }) <==> !pool_decodes(bytes@)
                &&& e is NoServicesDefined <==> pool_decodes(bytes@) && services_of_catalog(
                    pool_catalog_of(bytes@),
                ).len() == 0
            }),
    {
        let pool = match self.parse_descriptor(bytes.as_slice()) {
            Ok(p) => p,
            Err(e) => { return Err(e) },
        };
        let services = match self.extract_services(&pool) {
            Ok(s) => s,
            Err(e) => { return Err(e) },
        };
        let mut schema = ProtoSchema::new(name, bytes, source_type);
        schema.services = services;
        Ok(schema)
    }

    /// Builds a schema from the contents of a descriptor file: as
    /// `load_from_bytes`, with the origin recorded as a local file at the
    /// given path.
    pub fn load_descriptor_bytes(&self, name: String, source_path: String, bytes: Vec<u8>) -> (r:
        Result<ProtoSchema, EngineError>)
        ensures
            r is Ok <==> pool_decodes(bytes@) && services_of_catalog(
                pool_catalog_of(bytes@),
            ).len() > 0,
            r matches Ok(s) ==> ({
                &&& s.name@ == name@
                &&& s.file_descriptor_set@ == bytes@
                &&& s.source_type == ProtoSourceType::LocalFile
                &&& s.source_path matches Some(p) && p@ == source_path@
                &&& s.collection_id is None
                &&& s.services@.map_values(|si: ServiceInfo| si@) == services_of_catalog(
                    pool_catalog_of(bytes@),
                )
            }),
            r matches Err(e) ==> ({
                &&& (e matches EngineError::InvalidDescriptor { .. }) <==> !pool_decodes(bytes@)
                &&& e is NoServicesDefined <==> pool_decodes(bytes@) && services_of_catalog(
                    pool_catalog_of(bytes@),
                ).len() == 0
            }),
    {
        match self.load_from_bytes(name, bytes, ProtoSourceType::LocalFile) {
            Ok(mut schema) => {
                schema.source_path = Some(source_path);
                Ok(schema)
            },
            Err(e) => Err(e),
        }
    }

    /// The fully qualified names of all services in the schema, in catalog
    /// order.
    pub fn list_services(&self, schema: &ProtoSchema) -> (r: Vec<String>)
        ensures
            r@.map_values(|s: String| s@) == schema.services@.map_values(
                |si: ServiceInfo| si@.name,
            ),
    {
        let mut names: Vec<String> = Vec::new();
        let mut i: usize = 0;
        while i < schema.services.len()
            invariant
                i <= schema.services@.len(),
                names@.len() == i,
                forall|k: int|
                    0 <= k < i ==> #[trigger] names@[k]@ == schema.services@[k]@.name,
            decreases schema.services@.len() - i,
        {
            names.push(schema.services[i].name.clone());
            i = i + 1;
        }
        proof {
            let lhs = names@.map_values(|s: String| s@);
            let rhs = schema.services@.map_values(|si: ServiceInfo| si@.name);
            assert forall|k: int| 0 <= k < lhs.len() implies lhs[k] == rhs[k] by {
                assert(lhs[k] == names@[k]@);
                assert(rhs[k] == schema.services@[k]@.name);
            }
            assert(lhs =~= rhs);
        }
        names
    }
    /// Generates a JSON skeleton for a message type: one line per field in
    /// field-number order, each set to its type's zero value, to
    /// jump-start manual editing.  One leading dot is accepted and
    /// stripped, matching the pool's own lookup; the type must otherwise be
    /// named by its fully qualified name.
    pub fn generate_message_template(&self, pool: &DescriptorPool, message_type: &str) -> (r:
        Result<String, EngineError>)
        ensures
            ({
                let cname = canonical_type_name(message_type@);
                &&& (cname.len() > 0 && cname[0] == '.') ==> r is Err
                &&& !(cname.len() > 0 && cname[0] == '.') ==> (r is Ok <==> pool_has_message(
                    *pool,
                    cname,
                ))
                &&& r matches Err(e) ==> (e matches EngineError::MessageTypeNotFound {
                    message_type: mt,
                } && mt@ == message_type@)
                &&& r matches Ok(t) ==> t@ == template_text(
                    Seq::new(
                        pool_message_fields(*pool, cname).len(),
                        |fi: int| (
                            pool_message_fields(*pool, cname)[fi],
                            zero_literal(pool_message_kinds(*pool, cname)[fi]),
                        ),
                    ),
                )
            }),
    {
        let full_len = message_type.unicode_len();
        let lookup_name: &str = if full_len > 0 && message_type.get_char(0) == '.' {
            message_type.substring_char(1, full_len)
        } else {
            message_type
        };
        proof {
            assert(lookup_name@ =~= canonical_type_name(message_type@));
        }
        let stripped_len = lookup_name.unicode_len();
        if stripped_len > 0 && lookup_name.get_char(0) == '.' {
            return Err(
                EngineError::MessageTypeNotFound { message_type: message_type.to_owned() },
            );
        }
        let message = match pool_message_by_name(pool, lookup_name) {
            Some(d) => d,
            None => {
                return Err(
                    EngineError::MessageTypeNotFound { message_type: message_type.to_owned() },
                );
            },
        };
        let ghost cname = canonical_type_name(message_type@);
        let n = message_field_count(&message);
        let mut lines: Vec<String> = Vec::new();
        let mut i: usize = 0;
        while i < n
            invariant
                n == message_fields(message).len(),
                n == message_field_kinds(message).len(),
                i <= n,
                lines@.len() == i,
                forall|k: int|
                    0 <= k < i ==> #[trigger] lines@[k]@ == template_line(
                        message_fields(message)[k],
                        zero_literal(message_field_kinds(message)[k]),
                    ),
            decreases n - i,
        {
            let field_name = message_field_name(&message, i);
            let kind = message_field_kind(&message, i);
            let mut line = String::new();
            line.append("  \"");
            line.append(field_name.as_str());
            line.append("\": ");
            line.append(zero_literal_str(kind));
            proof {
                assert(line@ =~= template_line(
                    message_fields(message)[i as int],
                    zero_literal(message_field_kinds(message)[i as int]),
                ));
            }
            lines.push(line);
            i = i + 1;
        }
        let body = crate::strutil::join_with(&lines, ",\n");
        let mut out = String::new();
        out.append("{\n");
        out.append(body.as_str());
        out.append("\n}");
        proof {
            let entries = Seq::new(
                pool_message_fields(*pool, cname).len(),
                |fi: int| (
                    pool_message_fields(*pool, cname)[fi],
                    zero_literal(pool_message_kinds(*pool, cname)[fi]),
                ),
            );
            assert(message_fields(message) == pool_message_fields(*pool, cname));
            assert(message_field_kinds(message) == pool_message_kinds(*pool, cname));
            let lhs = lines@.map_values(|s: String| s@);
            let rhs = entries.map_values(|e: (Seq<char>, Seq<char>)| template_line(e.0, e.1));
            assert forall|k: int| 0 <= k < lhs.len() implies lhs[k] == rhs[k] by {
                assert(lhs[k] == lines@[k]@);
                assert(entries[k] == (
                    pool_message_fields(*pool, cname)[k],
                    zero_literal(pool_message_kinds(*pool, cname)[k]),
                ));
            }
            assert(lhs =~= rhs);
            assert(out@ =~= template_text(entries));
        }
        Ok(out)
    }

    /// The method names of the named service, or an empty list when the
    /// schema has no service under that name.  Lookup takes the first
    /// service with the name, in catalog order.
    pub fn list_methods(&self, schema: &ProtoSchema, service_name: &str) -> (r: Vec<String>)
        ensures
            ({
                let services = schema.services@.map_values(|si: ServiceInfo| si@);
                &&& !has_service(services, service_name@) ==> r@.len() == 0
                &&& forall|i: int|
                    service_first_match(services, service_name@, i) ==> r@.map_values(
                        |s: String| s@,
                    ) == services[i].methods.map_values(|m: MethodInfoModel| m.name)
            }),
    {
        let ghost services = schema.services@.map_values(|si: ServiceInfo| si@);
        let mut i: usize = 0;
        while i < schema.services.len()
            invariant
                services == schema.services@.map_values(|si: ServiceInfo| si@),
                i <= services.len(),
                forall|k: int| 0 <= k < i ==> #[trigger] services[k].name != service_name@,
            decreases services.len() - i,
        {
            if crate::strutil::str_eq(schema.services[i].name.as_str(), service_name) {
                let methods = &schema.services[i].methods;
                let mut names: Vec<String> = Vec::new();
                let mut j: usize = 0;
                while j < methods.len()
                    invariant
                        0 <= i < services.len(),
                        services == schema.services@.map_values(|si: ServiceInfo| si@),
                        methods@ == schema.services@[i as int].methods@,
                        j <= methods@.len(),
                        names@.len() == j,
                        forall|k: int|
                            0 <= k < j ==> #[trigger] names@[k]@ == methods@[k]@.name,
                    decreases methods@.len() - j,
                {
                    names.push(methods[j].name.clone());
                    j = j + 1;
                }
                proof {
                    assert(service_first_match(services, service_name@, i as int));
                    let lhs = names@.map_values(|s: String| s@);
                    let rhs = services[i as int].methods.map_values(
                        |m: MethodInfoModel| m.name,
                    );
                    assert forall|k: int| 0 <= k < lhs.len() implies lhs[k] == rhs[k] by {
                        assert(lhs[k] == names@[k]@);
                        assert(services[i as int].methods[k] == methods@[k]@);
                    }
                    assert(lhs =~= rhs);
                }
                return names;
            }
            i = i + 1;
        }
        proof {
            assert(!has_service(services, service_name@));
        }
        Vec::new()
    }

    /// Looks a method up by exact service and method name: the first service
    /// with the name, then the first method with the name within it.
    pub fn get_method_info<'a>(
        &self,
        schema: &'a ProtoSchema,
        service_name: &str,
        method_name: &str,
    ) -> (r: Option<&'a MethodInfo>)
        ensures
            ({
                let services = schema.services@.map_values(|si: ServiceInfo| si@);
                &&& !has_service(services, service_name@) ==> r is None
                &&& forall|i: int|
                    service_first_match(services, service_name@, i) ==> ((r is None <==> !has_method(
                        services[i].methods,
                        method_name@,
                    )) && (r matches Some(m) ==> exists|j: int|
                        method_first_match(services[i].methods, method_name@, j) && m@
                            == services[i].methods[j]))
            }),
    {
        let ghost services = schema.services@.map_values(|si: ServiceInfo| si@);
        let mut i: usize = 0;
        while i < schema.services.len()
            invariant
                services == schema.services@.map_values(|si: ServiceInfo| si@),
                i <= services.len(),
                forall|k: int| 0 <= k < i ==> #[trigger] services[k].name != service_name@,
            decreases services.len() - i,
        {
            if crate::strutil::str_eq(schema.services[i].name.as_str(), service_name) {
                proof {
                    assert(service_first_match(services, service_name@, i as int));
                }
                let methods = &schema.services[i].methods;
                let mut j: usize = 0;
                while j < methods.len()
                    invariant
                        0 <= i < services.len(),
                        services == schema.services@.map_values(|si: ServiceInfo| si@),
                        service_first_match(services, service_name@, i as int),
                        methods@ == schema.services@[i as int].methods@,
                        j <= methods@.len(),
                        forall|k: int|
                            0 <= k < j ==> #[trigger] methods@[k]@.name != method_name@,
                    decreases methods@.len() - j,
                {
                    if crate::strutil::str_eq(methods[j].name.as_str(), method_name) {
                        proof {
                            assert(services[i as int].methods[j as int] == methods@[j as int]@);
                            assert(method_first_match(
                                services[i as int].methods,
                                method_name@,
                                j as int,
                            ));
                            assert forall|i2: int|
                                service_first_match(services, service_name@, i2) implies i2
                                == i as int by {
                                crate::proto_schema::lemma_service_first_match_unique(
                                    services,
                                    service_name@,
                                    i2,
                                    i as int,
                                );
                            }
                        }
                        return Some(&schema.services[i].methods[j]);
                    }
                    j = j + 1;
                }
                proof {
                    assert forall|k: int|
                        0 <= k < services[i as int].methods.len() implies services[
                        i as int
                    ].methods[k].name != method_name@ by {
                        assert(services[i as int].methods[k] == methods@[k]@);
                    }
                    assert(!has_method(services[i as int].methods, method_name@));
                    assert forall|i2: int|
                        service_first_match(services, service_name@, i2) implies i2
                        == i as int by {
                        crate::proto_schema::lemma_service_first_match_unique(
                            services,
                            service_name@,
                            i2,
                            i as int,
                        );
                    }
                }
                return None;
            }
            i = i + 1;
        }
        proof {
            assert(!has_service(services, service_name@));
        }
        None
    }
}

/// The view of an optional source path: reload matching compares paths, and
/// two absent paths match each other.
pub open spec fn opt_path_view(o: Option<String>) -> Option<Seq<char>> {
    match o {
        Some(s) => Some(s@),
        None => None,
    }
}

/// True when position `i` holds the first cataloged schema whose source
/// path equals `path`.
pub open spec fn schema_path_first_match(
    schemas: Seq<ProtoSchema>,
    path: Option<Seq<char>>,
    i: int,
) -> bool {
    &&& 0 <= i < schemas.len()
    &&& opt_path_view(schemas[i].source_path) == path
    &&& forall|k: int| 0 <= k < i ==> opt_path_view(schemas[k].source_path) != path
}

/// The same schema under another identity.
pub open spec fn schema_with_id(s: ProtoSchema, id: u128) -> ProtoSchema {
    ProtoSchema { id, ..s }
}

/// At most one position holds the first cataloged schema with a given
/// source path.
pub proof fn lemma_schema_path_first_match_unique(
    schemas: Seq<ProtoSchema>,
    path: Option<Seq<char>>,
    i1: int,
    i2: int,
)
    requires
        schema_path_first_match(schemas, path, i1),
        schema_path_first_match(schemas, path, i2),
    ensures
        i1 == i2,
{
    if i1 < i2 {
        assert(opt_path_view(schemas[i1].source_path) == path);
    }
    if i2 < i1 {
        assert(opt_path_view(schemas[i2].source_path) == path);
    }
}

/// Files a loaded schema into the catalog.  Loading a path that matches an
/// already-cataloged schema's source path updates that entry in place,
/// preserving its identity, so references to the schema by id stay valid
/// after a reload; otherwise the schema is appended.  Returns the entry's
/// position and whether an existing entry was updated.
pub fn upsert_schema(schemas: &mut Vec<ProtoSchema>, schema: ProtoSchema) -> (r: (usize, bool))
    ensures
        ({
            let path = opt_path_view(schema.source_path);
            &&& (forall|k: int|
                0 <= k < old(schemas)@.len() ==> opt_path_view(
                    #[trigger] old(schemas)@[k].source_path,
                ) != path) ==> (final(schemas)@ == old(schemas)@.push(schema) && r.0 == old(
                schemas,
            )@.len() as int && r.1 == false)
            &&& forall|i: int|
                schema_path_first_match(old(schemas)@, path, i) ==> ({
                    &&& final(schemas)@.len() == old(schemas)@.len()
                    &&& final(schemas)@[i] == schema_with_id(schema, old(schemas)@[i].id)
                    &&& forall|k: int|
                        0 <= k < old(schemas)@.len() && k != i ==> final(schemas)@[k] == old(
                            schemas,
                        )@[k]
                    &&& r.0 as int == i
                    &&& r.1 == true
                })
        }),
{
    let ghost orig = schemas@;
    let ghost path = opt_path_view(schema.source_path);
    let n = schemas.len();
    let mut i: usize = 0;
    while i < n
        invariant
            schemas@ == orig,
            old(schemas)@ == orig,
            n == orig.len(),
            i <= n,
            path == opt_path_view(schema.source_path),
            forall|k: int| 0 <= k < i ==> opt_path_view(#[trigger] orig[k].source_path) != path,
        decreases n - i,
    {
        let matches_here: bool = match (&schemas[i].source_path, &schema.source_path) {
            (Option::None, Option::None) => true,
            (Option::Some(a), Option::Some(b)) => crate::strutil::str_eq(a.as_str(), b.as_str()),
            _ => false,
        };
        if matches_here {
            proof {
                assert(schema_path_first_match(orig, path, i as int));
            }
            let old_id = schemas[i].id;
            let mut updated = schema;
            updated.id = old_id;
            schemas.remove(i);
            schemas.insert(i, updated);
            proof {
                assert(schemas@ =~= orig.update(
                    i as int,
                    schema_with_id(schema, orig[i as int].id),
                ));
                assert forall|i2: int|
                    schema_path_first_match(orig, path, i2) implies i2 == i as int by {
                    lemma_schema_path_first_match_unique(orig, path, i2, i as int);
                }
                assert(opt_path_view(old(schemas)@[i as int].source_path) == path);
            }
            return (i, true);
        }
        i = i + 1;
    }
    schemas.push(schema);
    (n, false)
}

impl Default for ProtoLoader {
    fn default() -> Self {
        ProtoLoader {  }
    }
}

} // verus!
