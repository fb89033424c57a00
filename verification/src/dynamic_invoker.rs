//! Dynamic invocation of RPC methods without compile-time generated code.
//!
//! Resolution, payload encoding, path construction and metadata filtering
//! are all decided here, verified; the unverified transport driver performs
//! the single unary exchange with the prepared values and hands the raw
//! response bytes back to `decode_unary_response`.

use vstd::prelude::*;
use prost_reflect::DescriptorPool;
use prost_reflect::MessageDescriptor;
use prost_reflect::MethodDescriptor;
use tonic::transport::Channel;
use crate::descriptors::MethodRecord;
use crate::descriptors::ServiceRecord;
use crate::descriptors::empty_msg_bytes;
use crate::descriptors::encode_empty_message;
use crate::descriptors::encode_json_message;
use crate::descriptors::decode_message_json;
use crate::descriptors::json_msg_rel;
use crate::descriptors::json_parses;
use crate::descriptors::rendered_json_rel;
use crate::descriptors::wire_renders;
use crate::descriptors::message_name;
use crate::descriptors::method_input;
use crate::descriptors::method_is_client_streaming;
use crate::descriptors::method_is_server_streaming;
use crate::descriptors::method_name;
use crate::descriptors::method_output;
use crate::descriptors::method_record;
use crate::descriptors::pool_service_at;
use crate::descriptors::pool_service_count;
use crate::descriptors::pool_services;
use crate::descriptors::service_full_name;
use crate::descriptors::service_method_at;
use crate::descriptors::service_method_count;
use crate::descriptors::service_record;
use crate::errors::EngineError;
use crate::proto_schema::rpc_type_of_flags;
use crate::strutil::str_is_blank;
use crate::strutil::blank_of;

verus! {

#[verifier::external_type_specification]
#[verifier::external_body]
pub struct ExChannel(Channel);

/// Whether this text is valid ASCII metadata-key syntax for the transport.
/// Parsing is a function of the text alone.
pub uninterp spec fn metadata_key_ok(s: Seq<char>) -> bool;

/// Whether this text is valid ASCII metadata-value syntax for the
/// transport.  Parsing is a function of the text alone.
pub uninterp spec fn metadata_value_ok(s: Seq<char>) -> bool;

/// Relies on `str::parse` with `tonic::metadata::AsciiMetadataKey`: whether
/// the transport accepts this text as a header name.
#[verifier::external_body]
pub(crate) fn is_valid_metadata_key(s: &str) -> (r: bool)
    ensures
        r == metadata_key_ok(s@),
{
    s.parse::<tonic::metadata::AsciiMetadataKey>().is_ok()
}

/// Relies on `str::parse` with `tonic::metadata::AsciiMetadataValue`:
/// whether the transport accepts this text as a header value.
#[verifier::external_body]
pub(crate) fn is_valid_metadata_value(s: &str) -> (r: bool)
    ensures
        r == metadata_value_ok(s@),
{
    s.parse::<tonic::metadata::AsciiMetadataValue>().is_ok()
}

/// Whether a service record carries exactly this fully qualified name;
/// lookup is exact, with no fuzzy matching.
pub open spec fn service_named(rec: ServiceRecord, name: Seq<char>) -> bool {
    rec.0 == name
}

/// Whether some service in the pool carries this fully qualified name.
pub open spec fn pool_has_service(cat: Seq<ServiceRecord>, name: Seq<char>) -> bool {
    exists|i: int| 0 <= i < cat.len() && service_named(cat[i], name)
}

/// True when position `i` holds the first service with this name.
pub open spec fn pool_service_first_match(
    cat: Seq<ServiceRecord>,
    name: Seq<char>,
    i: int,
) -> bool {
    &&& 0 <= i < cat.len()
    &&& service_named(cat[i], name)
    &&& forall|k: int| 0 <= k < i ==> !service_named(cat[k], name)
}

/// Whether some method of the service record carries this name.
pub open spec fn record_has_method(methods: Seq<MethodRecord>, name: Seq<char>) -> bool {
    exists|j: int| 0 <= j < methods.len() && methods[j].0 == name
}

/// True when position `j` holds the first method record with this name.
pub open spec fn record_method_first_match(
    methods: Seq<MethodRecord>,
    name: Seq<char>,
    j: int,
) -> bool {
    &&& 0 <= j < methods.len()
    &&& methods[j].0 == name
    &&& forall|k: int| 0 <= k < j ==> methods[k].0 != name
}

/// Below any position carrying the name there is a first one.
proof fn lemma_first_service_match_below(cat: Seq<ServiceRecord>, name: Seq<char>, w: int)
    requires
        0 <= w < cat.len(),
        service_named(cat[w], name),
    ensures
        exists|i: int| pool_service_first_match(cat, name, i),
    decreases w,
{
    if forall|k: int| 0 <= k < w ==> !service_named(#[trigger] cat[k], name) {
        assert(pool_service_first_match(cat, name, w));
    } else {
        let k = choose|k: int| 0 <= k < w && service_named(#[trigger] cat[k], name);
        lemma_first_service_match_below(cat, name, k);
    }
}

/// A pool that has a service with the name has a first one.
pub proof fn lemma_has_service_gives_first_match(cat: Seq<ServiceRecord>, name: Seq<char>)
    requires
        pool_has_service(cat, name),
    ensures
        exists|i: int| pool_service_first_match(cat, name, i),
{
    let w = choose|w: int| 0 <= w < cat.len() && service_named(#[trigger] cat[w], name);
    lemma_first_service_match_below(cat, name, w);
}

/// Below any position carrying the name there is a first one.
proof fn lemma_first_method_match_below(methods: Seq<MethodRecord>, name: Seq<char>, w: int)
    requires
        0 <= w < methods.len(),
        methods[w].0 == name,
    ensures
        exists|j: int| record_method_first_match(methods, name, j),
    decreases w,
{
    if forall|k: int| 0 <= k < w ==> (#[trigger] methods[k].0) != name {
        assert(record_method_first_match(methods, name, w));
    } else {
        let k = choose|k: int| 0 <= k < w && (#[trigger] methods[k].0) == name;
        lemma_first_method_match_below(methods, name, k);
    }
}

/// A service record that has a method with the name has a first one.
pub proof fn lemma_has_method_gives_first_match(methods: Seq<MethodRecord>, name: Seq<char>)
    requires
        record_has_method(methods, name),
    ensures
        exists|j: int| record_method_first_match(methods, name, j),
{
    let w = choose|w: int| 0 <= w < methods.len() && (#[trigger] methods[w].0) == name;
    lemma_first_method_match_below(methods, name, w);
}

/// At most one position holds the first service with a given name.
pub proof fn lemma_pool_service_first_match_unique(
    cat: Seq<ServiceRecord>,
    name: Seq<char>,
    i1: int,
    i2: int,
)
    requires
        pool_service_first_match(cat, name, i1),
        pool_service_first_match(cat, name, i2),
    ensures
        i1 == i2,
{
    if i1 < i2 {
        assert(service_named(cat[i1], name));
    }
    if i2 < i1 {
        assert(service_named(cat[i2], name));
    }
}

/// The transport path of a method: `/<service_name>/<method_name>`.
pub open spec fn rpc_path_text(service: Seq<char>, method: Seq<char>) -> Seq<char> {
    "/"@ + service + "/"@ + method
}

/// The view of one metadata pair.
pub open spec fn pair_view(p: (String, String)) -> (Seq<char>, Seq<char>) {
    (p.0@, p.1@)
}

/// The metadata pairs the transport will accept, in order: those whose key
/// and value are both valid header syntax.  Invalid pairs are skipped, not
/// failed on.
pub open spec fn valid_headers(s: Seq<(Seq<char>, Seq<char>)>) -> Seq<(Seq<char>, Seq<char>)>
    decreases s.len(),
{
    if s.len() == 0 {
        Seq::empty()
    } else {
        let rest = valid_headers(s.drop_last());
        if metadata_key_ok(s.last().0) && metadata_value_ok(s.last().1) {
            rest.push(s.last())
        } else {
            rest
        }
    }
}

/// What method resolution returns for every outcome: an unknown service
/// yields `ServiceNotFound` listing every service's full name; a known
/// service without the method yields `MethodNotFound` listing its methods;
/// otherwise the first matching method's descriptor.
pub open spec fn resolution_post(
    cat: Seq<ServiceRecord>,
    service_name: Seq<char>,
    method_name: Seq<char>,
    r: Result<MethodDescriptor, EngineError>,
) -> bool {
    &&& !pool_has_service(cat, service_name) ==> (r matches Err(e) && e matches
        EngineError::ServiceNotFound { service, available_services } && service@ == service_name
        && available_services@.map_values(|s: String| s@) == cat.map_values(
        |sr: ServiceRecord| sr.0,
    ))
    &&& forall|i: int|
        pool_service_first_match(cat, service_name, i) ==> ({
            &&& !record_has_method(cat[i].1, method_name) ==> (r matches Err(e) && e matches
                EngineError::MethodNotFound { service, method, available_methods } && service@
                == service_name && method@ == method_name && available_methods@.map_values(
                |s: String| s@,
            ) == cat[i].1.map_values(|mr: MethodRecord| mr.0))
            &&& record_has_method(cat[i].1, method_name) ==> (r matches Ok(m) && exists|j: int|
                record_method_first_match(cat[i].1, method_name, j) && method_record(m)
                    == cat[i].1[j])
        })
}

/// What request preparation returns for every outcome: resolution failures
/// as in `resolution_post`; a resolved streaming method is rejected as not
/// supported; for a unary method, blank JSON always succeeds with the
/// zero-valued message's encoding, non-blank JSON succeeds exactly when it
/// parses against the input descriptor, and a successful preparation
/// carries the method's path, the encoded bytes, and the metadata pairs the
/// transport will accept.
pub open spec fn prepare_post(
    cat: Seq<ServiceRecord>,
    service_name: Seq<char>,
    method_name: Seq<char>,
    message_json: Seq<char>,
    metadata: Seq<(String, String)>,
    r: Result<PreparedCall, EngineError>,
) -> bool {
    &&& !pool_has_service(cat, service_name) ==> (r matches Err(e) && e matches
        EngineError::ServiceNotFound { service, available_services } && service@ == service_name
        && available_services@.map_values(|s: String| s@) == cat.map_values(
        |sr: ServiceRecord| sr.0,
    ))
    &&& forall|i: int|
        pool_service_first_match(cat, service_name, i) ==> ({
            &&& !record_has_method(cat[i].1, method_name) ==> (r matches Err(e) && e matches
                EngineError::MethodNotFound { service, method, available_methods } && service@
                == service_name && method@ == method_name && available_methods@.map_values(
                |s: String| s@,
            ) == cat[i].1.map_values(|mr: MethodRecord| mr.0))
            &&& forall|j: int|
                record_method_first_match(cat[i].1, method_name, j) ==> ({
                    let rec = cat[i].1[j];
                    &&& (rec.1 || rec.2) ==> (r matches Err(e) && e matches
                        EngineError::StreamingNotSupported { shape } && shape@ == rpc_type_of_flags(
                        rec.1,
                        rec.2,
                    ))
                    &&& (!rec.1 && !rec.2) ==> ({
                        &&& r matches Err(e) ==> (e matches EngineError::JsonParseError { .. }
                            && !blank_of(message_json) && exists|din: MessageDescriptor|
                            message_name(din) == rec.3 && !json_parses(din, message_json))
                        &&& blank_of(message_json) ==> r is Ok
                        &&& r matches Ok(p) ==> ({
                            &&& message_name(p.input_desc) == rec.3
                            &&& message_name(p.output_desc) == rec.4
                            &&& p.path@ == rpc_path_text(service_name, method_name)
                            &&& blank_of(message_json) ==> p.request_bytes@ == empty_msg_bytes(
                                p.input_desc,
                            )
                            &&& !blank_of(message_json) ==> json_parses(
                                p.input_desc,
                                message_json,
                            ) && json_msg_rel(p.input_desc, message_json, p.request_bytes@)
                            &&& p.headers@.map_values(|pr: (String, String)| pair_view(pr))
                                == valid_headers(
                                metadata.map_values(|pr: (String, String)| pair_view(pr)),
                            )
                        })
                    })
                })
        })
}

/// Everything the transport driver needs to perform one unary exchange:
/// the request path, the already-encoded request bytes, the metadata pairs
/// to attach, and the two message descriptors of the method.
pub struct PreparedCall {
    pub path: String,
    pub request_bytes: Vec<u8>,
    pub headers: Vec<(String, String)>,
    pub input_desc: MessageDescriptor,
    pub output_desc: MessageDescriptor,
}

/// Invokes methods dynamically over a channel, resolving them against a
/// descriptor pool at call time.
pub struct DynamicInvoker {
    pub channel: Channel,
    pub descriptor: DescriptorPool,
}

impl DynamicInvoker {
    /// An invoker over this channel and pool.
    pub fn new(channel: Channel, descriptor: DescriptorPool) -> (r: Self)
        ensures
            r.descriptor == descriptor,
    {
        DynamicInvoker { channel, descriptor }
    }

    /// Resolves a method by service and method name against this invoker's
    /// pool.
    pub fn get_method_descriptor(&self, service_name: &str, method_name: &str) -> (r: Result<
        MethodDescriptor,
        EngineError,
    >)
        ensures
            resolution_post(pool_services(self.descriptor), service_name@, method_name@, r),
    {
        resolve_method(&self.descriptor, service_name, method_name)
    }

    /// Prepares one unary exchange against this invoker's pool; see
    /// `prepare_unary_call`.
    pub fn prepare_unary(
        &self,
        service_name: &str,
        method_name: &str,
        message_json: &str,
        metadata: &Vec<(String, String)>,
    ) -> (r: Result<PreparedCall, EngineError>)
        ensures
            prepare_post(
                pool_services(self.descriptor),
                service_name@,
                method_name@,
                message_json@,
                metadata@,
                r,
            ),
    {
        prepare_unary_call(&self.descriptor, service_name, method_name, message_json, metadata)
    }
}

/// Resolves a method by exact fully qualified service name and exact
/// method name, taking the first match in pool order; there is no fuzzy
/// matching.  On failure the error lists the available services (by full
/// name) or the available methods of the matched service.
pub fn resolve_method(descriptor: &DescriptorPool, service_name: &str, method_name: &str) -> (r:
    Result<MethodDescriptor, EngineError>)
    ensures
        resolution_post(pool_services(*descriptor), service_name@, method_name@, r),
    {
        let ghost cat = pool_services(*descriptor);
        let n = pool_service_count(descriptor);
        let mut i: usize = 0;
        while i < n
            invariant
                cat == pool_services(*descriptor),
                n == cat.len(),
                i <= n,
                forall|k: int| 0 <= k < i ==> !service_named(#[trigger] cat[k], service_name@),
            decreases n - i,
        {
            let service = pool_service_at(descriptor, i);
            let full = service_full_name(&service);
            if crate::strutil::str_eq(full.as_str(), service_name) {
                proof {
                    assert(pool_service_first_match(cat, service_name@, i as int));
                }
                let m = service_method_count(&service);
                let mut j: usize = 0;
                while j < m
                    invariant
                        cat == pool_services(*descriptor),
                        0 <= i < cat.len(),
                        service_record(service) == cat[i as int],
                        pool_service_first_match(cat, service_name@, i as int),
                        m == cat[i as int].1.len(),
                        j <= m,
                        forall|k: int| 0 <= k < j ==> #[trigger] cat[i as int].1[k].0 != method_name@,
                    decreases m - j,
                {
                    let method = service_method_at(&service, j);
                    let mname = crate::descriptors::method_name(&method);
                    if crate::strutil::str_eq(mname.as_str(), method_name) {
                        proof {
                            assert(record_method_first_match(
                                cat[i as int].1,
                                method_name@,
                                j as int,
                            ));
                            assert forall|i2: int|
                                pool_service_first_match(cat, service_name@, i2) implies i2
                                == i as int by {
                                lemma_pool_service_first_match_unique(
                                    cat,
                                    service_name@,
                                    i2,
                                    i as int,
                                );
                            }
                        }
                        return Ok(method);
                    }
                    j = j + 1;
                }
                // Service found but method not found: list what it defines.
                let mut available: Vec<String> = Vec::new();
                let mut k: usize = 0;
                while k < m
                    invariant
                        cat == pool_services(*descriptor),
                        0 <= i < cat.len(),
                        service_record(service) == cat[i as int],
                        pool_service_first_match(cat, service_name@, i as int),
                        forall|k2: int|
                            0 <= k2 < cat[i as int].1.len() ==> #[trigger] cat[i as int].1[k2].0
                                != method_name@,
                        m == cat[i as int].1.len(),
                        k <= m,
                        available@.len() == k,
                        forall|k2: int|
                            0 <= k2 < k ==> #[trigger] available@[k2]@ == cat[i as int].1[k2].0,
                    decreases m - k,
                {
                    let method = service_method_at(&service, k);
                    available.push(crate::descriptors::method_name(&method));
                    k = k + 1;
                }
                proof {
                    let lhs = available@.map_values(|s: String| s@);
                    let rhs = cat[i as int].1.map_values(|mr: MethodRecord| mr.0);
                    assert forall|k2: int| 0 <= k2 < lhs.len() implies lhs[k2] == rhs[k2] by {
                        assert(lhs[k2] == available@[k2]@);
                    }
                    assert(lhs =~= rhs);
                    assert forall|i2: int|
                        pool_service_first_match(cat, service_name@, i2) implies i2 == i as int by {
                        lemma_pool_service_first_match_unique(cat, service_name@, i2, i as int);
                    }
                }
                return Err(
                    EngineError::MethodNotFound {
                        service: service_name.to_owned(),
                        method: method_name.to_owned(),
                        available_methods: available,
                    },
                );
            }
            i = i + 1;
        }
        // Service not found: list every service's full name.
        proof {
            assert(!pool_has_service(cat, service_name@));
        }
        let mut available: Vec<String> = Vec::new();
        let mut k: usize = 0;
        while k < n
            invariant
                cat == pool_services(*descriptor),
                n == cat.len(),
                k <= n,
                available@.len() == k,
                forall|k2: int| 0 <= k2 < k ==> #[trigger] available@[k2]@ == cat[k2].0,
            decreases n - k,
        {
            let service = pool_service_at(descriptor, k);
            available.push(service_full_name(&service));
            k = k + 1;
        }
        proof {
            let lhs = available@.map_values(|s: String| s@);
            let rhs = cat.map_values(|sr: ServiceRecord| sr.0);
            assert forall|k2: int| 0 <= k2 < lhs.len() implies lhs[k2] == rhs[k2] by {
                assert(lhs[k2] == available@[k2]@);
            }
            assert(lhs =~= rhs);
        }
        Err(
            EngineError::ServiceNotFound {
                service: service_name.to_owned(),
                available_services: available,
            },
        )
    }

/// Prepares one unary exchange: resolves the method, rejects streaming
/// shapes, encodes the JSON payload against the input descriptor (blank
/// JSON becomes the zero-valued message, not an error), builds the
/// request path, and keeps the metadata pairs the transport will accept.
/// No network work happens here.
pub fn prepare_unary_call(
    descriptor: &DescriptorPool,
    service_name: &str,
    method_name: &str,
    message_json: &str,
    metadata: &Vec<(String, String)>,
) -> (r: Result<PreparedCall, EngineError>)
    ensures
        prepare_post(
            pool_services(*descriptor),
            service_name@,
            method_name@,
            message_json@,
            metadata@,
            r,
        ),
    {
        let method = match resolve_method(descriptor, service_name, method_name) {
            Ok(m) => m,
            Err(e) => { return Err(e) },
        };
        let client_streaming = method_is_client_streaming(&method);
        let server_streaming = method_is_server_streaming(&method);
        if client_streaming || server_streaming {
            let shape: &str = if client_streaming && server_streaming {
                "bidirectional_streaming"
            } else if client_streaming {
                "client_streaming"
            } else {
                "server_streaming"
            };
            return Err(EngineError::StreamingNotSupported { shape: shape.to_owned() });
        }
        let input_desc = method_input(&method);
        let output_desc = method_output(&method);
        let request_bytes: Vec<u8> = if str_is_blank(message_json) {
            encode_empty_message(&input_desc)
        } else {
            match encode_json_message(&input_desc, message_json) {
                Ok(b) => b,
                Err(detail) => { return Err(EngineError::JsonParseError { detail }) },
            }
        };
        let mut path = String::new();
        path.append("/");
        path.append(service_name);
        path.append("/");
        path.append(method_name);
        proof {
            assert(path@ =~= rpc_path_text(service_name@, method_name@));
        }
        let headers = filter_metadata(metadata);
        Ok(PreparedCall { path, request_bytes, headers, input_desc, output_desc })
    }

/// Keeps the metadata pairs whose key and value are valid header syntax,
/// in order; invalid pairs are skipped, not failed on.
pub fn filter_metadata(metadata: &Vec<(String, String)>) -> (r: Vec<(String, String)>)
    ensures
        r@.map_values(|pr: (String, String)| pair_view(pr)) == valid_headers(
            metadata@.map_values(|pr: (String, String)| pair_view(pr)),
        ),
{
    let ghost mv = metadata@.map_values(|pr: (String, String)| pair_view(pr));
    let mut out: Vec<(String, String)> = Vec::new();
    let mut i: usize = 0;
    while i < metadata.len()
        invariant
            mv == metadata@.map_values(|pr: (String, String)| pair_view(pr)),
            i <= metadata@.len(),
            out@.map_values(|pr: (String, String)| pair_view(pr)) == valid_headers(
                mv.subrange(0, i as int),
            ),
        decreases metadata@.len() - i,
    {
        let key_ok = is_valid_metadata_key(metadata[i].0.as_str());
        let value_ok = is_valid_metadata_value(metadata[i].1.as_str());
        proof {
            let pre1 = mv.subrange(0, i as int + 1);
            assert(pre1.drop_last() =~= mv.subrange(0, i as int));
            assert(pre1.last() == mv[i as int]);
            assert(mv[i as int] == pair_view(metadata@[i as int]));
        }
        if key_ok && value_ok {
            out.push((metadata[i].0.clone(), metadata[i].1.clone()));
            proof {
                assert(out@.map_values(|pr: (String, String)| pair_view(pr)) =~= valid_headers(
                    mv.subrange(0, i as int + 1),
                ));
            }
        } else {
            proof {
                assert(out@.map_values(|pr: (String, String)| pair_view(pr)) =~= valid_headers(
                    mv.subrange(0, i as int + 1),
                ));
            }
        }
        i = i + 1;
    }
    proof {
        assert(mv.subrange(0, metadata@.len() as int) =~= mv);
    }
    out
}

/// Decodes the raw response bytes of one exchange against the method's
/// output descriptor and renders them as JSON.
pub fn decode_unary_response(output_desc: &MessageDescriptor, bytes: &[u8]) -> (r: Result<
    String,
    EngineError,
>)
    ensures
        r is Ok <==> wire_renders(*output_desc, bytes@),
        r matches Ok(s) ==> rendered_json_rel(*output_desc, bytes@, s@),
        r matches Err(e) ==> e matches EngineError::ResponseDecodeError { .. },
{
    match decode_message_json(output_desc, bytes) {
        Ok(s) => Ok(s),
        Err(detail) => Err(EngineError::ResponseDecodeError { detail }),
    }
}

} // verus!
