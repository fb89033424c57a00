//! The schema catalog: the queryable, storage-friendly projection of a
//! descriptor pool.
//!
//! `ServiceInfo` and `MethodInfo` are extracted once when a descriptor set
//! is loaded, so validation and listing never re-walk the pool.  The spec
//! functions here say exactly what that projection is in terms of the pool's
//! service records, including the rule that derives an RPC shape from the
//! two streaming flags — the single source of truth the validator checks
//! against.

use vstd::prelude::*;
use crate::descriptors::MethodRecord;
use crate::descriptors::ServiceRecord;

verus! {

/// Where a schema's descriptor bytes came from.
#[derive(Clone, Copy, Debug, PartialEq, Eq, Structural)]
pub enum ProtoSourceType {
    LocalFile,
    Reflection,
    Url,
}

/// One method of a service: its name, its RPC shape, and the fully
/// qualified names of its input and output types.
#[derive(Clone, Debug)]
pub struct MethodInfo {
    pub name: String,
    pub rpc_type: String,
    pub input_type: String,
    pub output_type: String,
}

/// The mathematical content of a `MethodInfo`.
pub struct MethodInfoModel {
    pub name: Seq<char>,
    pub rpc_type: Seq<char>,
    pub input_type: Seq<char>,
    pub output_type: Seq<char>,
}

impl View for MethodInfo {
    type V = MethodInfoModel;

    open spec fn view(&self) -> MethodInfoModel {
        MethodInfoModel {
            name: self.name@,
            rpc_type: self.rpc_type@,
            input_type: self.input_type@,
            output_type: self.output_type@,
        }
    }
}

/// One service of a schema: its fully qualified name and its methods in
/// declaration order.
#[derive(Clone, Debug)]
pub struct ServiceInfo {
    pub name: String,
    pub methods: Vec<MethodInfo>,
}

/// The mathematical content of a `ServiceInfo`.
pub struct ServiceInfoModel {
    pub name: Seq<char>,
    pub methods: Seq<MethodInfoModel>,
}

impl View for ServiceInfo {
    type V = ServiceInfoModel;

    open spec fn view(&self) -> ServiceInfoModel {
        ServiceInfoModel {
            name: self.name@,
            methods: self.methods@.map_values(|m: MethodInfo| m@),
        }
    }
}

/// The RPC shape derived from a method's two streaming flags: both set is
/// bidirectional, client alone is client-streaming, server alone is
/// server-streaming, neither is unary.
pub open spec fn rpc_type_of_flags(client_streaming: bool, server_streaming: bool) -> Seq<char> {
    if client_streaming && server_streaming {
        "bidirectional_streaming"@
    } else if client_streaming {
        "client_streaming"@
    } else if server_streaming {
        "server_streaming"@
    } else {
        "unary"@
    }
}

/// The `MethodInfo` a method record projects to.
pub open spec fn method_info_of_record(r: MethodRecord) -> MethodInfoModel {
    MethodInfoModel {
        name: r.0,
        rpc_type: rpc_type_of_flags(r.1, r.2),
        input_type: r.3,
        output_type: r.4,
    }
}

/// The `ServiceInfo` a service record projects to: the full name and the
/// projection of each method, in order.
pub open spec fn service_info_of_record(r: ServiceRecord) -> ServiceInfoModel {
    ServiceInfoModel { name: r.0, methods: r.1.map_values(|m: MethodRecord| method_info_of_record(m)) }
}

/// The whole catalog a pool's services project to, in the pool's order.
pub open spec fn services_of_catalog(cat: Seq<ServiceRecord>) -> Seq<ServiceInfoModel> {
    cat.map_values(|r: ServiceRecord| service_info_of_record(r))
}

/// Whether some service in the catalog carries this fully qualified name.
pub open spec fn has_service(services: Seq<ServiceInfoModel>, name: Seq<char>) -> bool {
    exists|i: int| 0 <= i < services.len() && services[i].name == name
}

/// True when position `i` holds the first service with this name; lookups
/// take the first match, in catalog order.
pub open spec fn service_first_match(
    services: Seq<ServiceInfoModel>,
    name: Seq<char>,
    i: int,
) -> bool {
    &&& 0 <= i < services.len()
    &&& services[i].name == name
    &&& forall|k: int| 0 <= k < i ==> services[k].name != name
}

/// Whether some method of the service carries this name.
pub open spec fn has_method(methods: Seq<MethodInfoModel>, name: Seq<char>) -> bool {
    exists|j: int| 0 <= j < methods.len() && methods[j].name == name
}

/// True when position `j` holds the first method with this name.
pub open spec fn method_first_match(
    methods: Seq<MethodInfoModel>,
    name: Seq<char>,
    j: int,
) -> bool {
    &&& 0 <= j < methods.len()
    &&& methods[j].name == name
    &&& forall|k: int| 0 <= k < j ==> methods[k].name != name
}

/// At most one position holds the first service with a given name.
pub proof fn lemma_service_first_match_unique(
    services: Seq<ServiceInfoModel>,
    name: Seq<char>,
    i1: int,
    i2: int,
)
    requires
        service_first_match(services, name, i1),
        service_first_match(services, name, i2),
    ensures
        i1 == i2,
{
    if i1 < i2 {
        assert(services[i1].name == name);
    }
    if i2 < i1 {
        assert(services[i2].name == name);
    }
}

/// At most one position holds the first method with a given name.
pub proof fn lemma_method_first_match_unique(
    methods: Seq<MethodInfoModel>,
    name: Seq<char>,
    j1: int,
    j2: int,
)
    requires
        method_first_match(methods, name, j1),
        method_first_match(methods, name, j2),
    ensures
        j1 == j2,
{
    if j1 < j2 {
        assert(methods[j1].name == name);
    }
    if j2 < j1 {
        assert(methods[j2].name == name);
    }
}

/// A cached schema: the raw descriptor bytes plus the extracted service
/// catalog.  Immutable once created, except for in-place replacement when
/// the same source path is reloaded.
#[derive(Clone, Debug)]
pub struct ProtoSchema {
    pub id: u128,
    pub name: String,
    pub collection_id: Option<u128>,
    pub file_descriptor_set: Vec<u8>,
    pub source_type: ProtoSourceType,
    pub source_path: Option<String>,
    pub services: Vec<ServiceInfo>,
    pub created_at: i64,
    pub updated_at: i64,
}

impl ProtoSchema {
    /// A fresh schema holding the given descriptor bytes, with no services
    /// extracted yet, no source path, and a fresh identifier.
    pub fn new(name: String, file_descriptor_set: Vec<u8>, source_type: ProtoSourceType) -> (r:
        Self)
        ensures
            r.name@ == name@,
            r.collection_id is None,
            r.file_descriptor_set@ == file_descriptor_set@,
            r.source_type == source_type,
            r.source_path is None,
            r.services@.len() == 0,
            r.created_at == r.updated_at,
    {
        let now = crate::ids::now_unix_millis();
        ProtoSchema {
            id: crate::ids::fresh_id(),
            name,
            collection_id: None,
            file_descriptor_set,
            source_type,
            source_path: None,
            services: Vec::new(),
            created_at: now,
            updated_at: now,
        }
    }
}

} // verus!
