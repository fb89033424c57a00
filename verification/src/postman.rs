//! Import of Postman collection documents (v2.1 schema).
//!
//! The structures mirror the document layout; the conversion functions turn
//! them into this library's collection and request values.  Reading and
//! JSON-parsing the document happens outside the library; the conversion
//! logic here is verified.

use vstd::prelude::*;
use crate::collection::Collection;
use crate::request::ApiKeyLocation;
use crate::request::AuthType;
use crate::request::HttpMethod;
use crate::request::HttpRequest;
use crate::strutil::str_eq;
use crate::strutil::to_uppercase;
use crate::strutil::upper_of;
use crate::strutil::spec_join;

verus! {

/// The collection document: its info block, its items, an optional
/// collection-level auth, and its variables.
pub struct PostmanCollection {
    pub info: PostmanInfo,
    pub item: Vec<PostmanItem>,
    pub auth: Option<PostmanAuth>,
    pub variable: Vec<PostmanVariable>,
}

/// The document's name and identification block.
#[derive(Clone, Debug)]
pub struct PostmanInfo {
    pub name: String,
    pub description: Option<String>,
    pub postman_id: Option<String>,
    pub schema: Option<String>,
}

/// One entry of a collection: a request, or a folder of further entries.
pub enum PostmanItem {
    Request(PostmanRequestItem),
    Folder(PostmanFolder),
}

/// A named request entry.  Saved example responses and scripts are not
/// imported.
pub struct PostmanRequestItem {
    pub name: String,
    pub request: PostmanRequest,
}

/// A named folder of entries.
pub struct PostmanFolder {
    pub name: String,
    pub item: Vec<PostmanItem>,
    pub description: Option<String>,
}

/// A request: either the full form or a bare URL string.
#[derive(Clone, Debug)]
pub enum PostmanRequest {
    Full {
        method: String,
        header: Vec<PostmanHeader>,
        body: Option<PostmanBody>,
        url: PostmanUrl,
        auth: Option<PostmanAuth>,
        description: Option<String>,
    },
    Simple(String),
}

/// A URL: either the structured form or a bare string.
#[derive(Clone, Debug)]
pub enum PostmanUrl {
    Object {
        raw: String,
        protocol: Option<String>,
        host: Vec<String>,
        path: Vec<String>,
        query: Vec<PostmanQueryParam>,
    },
    Text(String),
}

/// One header line of a request.
#[derive(Clone, Debug)]
pub struct PostmanHeader {
    pub key: String,
    pub value: String,
    pub disabled: bool,
}

/// One query parameter of a structured URL.
#[derive(Clone, Debug)]
pub struct PostmanQueryParam {
    pub key: String,
    pub value: String,
    pub disabled: bool,
}

/// A request body: a mode selector and the payloads the modes use.
#[derive(Clone, Debug)]
pub struct PostmanBody {
    pub mode: Option<String>,
    pub raw: Option<String>,
    pub urlencoded: Option<Vec<PostmanKeyValue>>,
    pub formdata: Option<Vec<PostmanKeyValue>>,
}

/// One key/value entry of an urlencoded or form-data body.
#[derive(Clone, Debug)]
pub struct PostmanKeyValue {
    pub key: String,
    pub value: String,
    pub disabled: bool,
}

/// An authentication block: its type and the parameter lists the types
/// use.
#[derive(Clone, Debug)]
pub struct PostmanAuth {
    pub auth_type: String,
    pub bearer: Option<Vec<PostmanAuthParam>>,
    pub basic: Option<Vec<PostmanAuthParam>>,
    pub apikey: Option<Vec<PostmanAuthParam>>,
}

/// One parameter of an authentication block.
#[derive(Clone, Debug)]
pub struct PostmanAuthParam {
    pub key: String,
    pub value: String,
    pub param_type: Option<String>,
}

/// One collection variable.
#[derive(Clone, Debug)]
pub struct PostmanVariable {
    pub key: String,
    pub value: String,
    pub var_type: Option<String>,
}

/// A failure while converting a document into requests.
#[derive(Clone, Debug)]
pub enum ImportError {
    /// The request's method is not one the model supports.
    UnsupportedHttpMethod { method: String },
    /// A bearer auth block without a `token` parameter.
    BearerAuthMissingToken,
    /// A basic auth block without its parameter list.
    BasicAuthMissingCredentials,
    /// An API key auth block without its parameter list.
    ApiKeyAuthMissingParameters,
}

/// The HTTP method a (already uppercased) name denotes, if any.
pub open spec fn method_of_name(s: Seq<char>) -> Option<HttpMethod> {
    if s == "GET"@ {
        Some(HttpMethod::GET)
    } else if s == "POST"@ {
        Some(HttpMethod::POST)
    } else if s == "PUT"@ {
        Some(HttpMethod::PUT)
    } else if s == "PATCH"@ {
        Some(HttpMethod::PATCH)
    } else if s == "DELETE"@ {
        Some(HttpMethod::DELETE)
    } else if s == "HEAD"@ {
        Some(HttpMethod::HEAD)
    } else if s == "OPTIONS"@ {
        Some(HttpMethod::OPTIONS)
    } else {
        None
    }
}

/// Parses a method name, case-insensitively, into the model's method.
pub fn parse_http_method(method: &str) -> (r: Result<HttpMethod, ImportError>)
    ensures
        r matches Ok(m) ==> method_of_name(upper_of(method@)) == Some(m),
        r is Err <==> method_of_name(upper_of(method@)) is None,
        r matches Err(e) ==> (e matches ImportError::UnsupportedHttpMethod { method: m } && m@
            == method@),
{
    let upper = to_uppercase(method);
    let u = upper.as_str();
    if str_eq(u, "GET") {
        Ok(HttpMethod::GET)
    } else if str_eq(u, "POST") {
        Ok(HttpMethod::POST)
    } else if str_eq(u, "PUT") {
        Ok(HttpMethod::PUT)
    } else if str_eq(u, "PATCH") {
        Ok(HttpMethod::PATCH)
    } else if str_eq(u, "DELETE") {
        Ok(HttpMethod::DELETE)
    } else if str_eq(u, "HEAD") {
        Ok(HttpMethod::HEAD)
    } else if str_eq(u, "OPTIONS") {
        Ok(HttpMethod::OPTIONS)
    } else {
        Err(ImportError::UnsupportedHttpMethod { method: method.to_owned() })
    }
}

/// The URL with its query string removed: everything before the first `?`,
/// or the whole text when there is none.  Query parameters are carried
/// separately.
pub open spec fn cleaned_from(s: Seq<char>, i: int) -> Seq<char>
    decreases s.len() - i,
    when 0 <= i
{
    if i >= s.len() {
        s
    } else if s[i] == '?' {
        s.subrange(0, i)
    } else {
        cleaned_from(s, i + 1)
    }
}

/// The URL with its query string removed.
pub open spec fn cleaned_url(s: Seq<char>) -> Seq<char> {
    cleaned_from(s, 0)
}

/// Removes the query string from a raw URL.
pub fn clean_url(url: &str) -> (r: String)
    ensures
        r@ == cleaned_url(url@),
{
    let n = url.unicode_len();
    let mut i: usize = 0;
    while i < n
        invariant
            n == url@.len(),
            i <= n,
            cleaned_from(url@, 0) == cleaned_from(url@, i as int),
        decreases n - i,
    {
        if url.get_char(i) == '?' {
            return url.substring_char(0, i).to_owned();
        }
        i = i + 1;
    }
    url.to_owned()
}

/// The raw text of a URL in either form.
pub open spec fn raw_of_url(u: PostmanUrl) -> Seq<char> {
    match u {
        PostmanUrl::Object { raw, .. } => raw@,
        PostmanUrl::Text(s) => s@,
    }
}

/// The request URL a document URL yields: its raw text with the query
/// string removed.
pub fn extract_url(postman_url: &PostmanUrl) -> (r: Result<String, ImportError>)
    ensures
        r matches Ok(u) && u@ == cleaned_url(raw_of_url(*postman_url)),
{
    match postman_url {
        PostmanUrl::Text(s) => Ok(clean_url(s.as_str())),
        PostmanUrl::Object { raw, .. } => Ok(clean_url(raw.as_str())),
    }
}

/// The view of one enabled-or-disabled key/value entry.
pub open spec fn kv_view(kv: PostmanKeyValue) -> (Seq<char>, Seq<char>, bool) {
    (kv.key@, kv.value@, kv.disabled)
}

/// The view of one header line.
pub open spec fn header_view(h: PostmanHeader) -> (Seq<char>, Seq<char>, bool) {
    (h.key@, h.value@, h.disabled)
}

/// The view of one query parameter.
pub open spec fn query_view(q: PostmanQueryParam) -> (Seq<char>, Seq<char>, bool) {
    (q.key@, q.value@, q.disabled)
}

/// The enabled entries, in order, as key/value pairs.
pub open spec fn enabled_pairs(s: Seq<(Seq<char>, Seq<char>, bool)>) -> Seq<(Seq<char>, Seq<char>)>
    decreases s.len(),
{
    if s.len() == 0 {
        Seq::empty()
    } else {
        let rest = enabled_pairs(s.drop_last());
        if !s.last().2 {
            rest.push((s.last().0, s.last().1))
        } else {
            rest
        }
    }
}

/// The `key=value` texts of the enabled entries, in order.
pub open spec fn enabled_kv_texts(s: Seq<(Seq<char>, Seq<char>, bool)>) -> Seq<Seq<char>>
    decreases s.len(),
{
    if s.len() == 0 {
        Seq::empty()
    } else {
        let rest = enabled_kv_texts(s.drop_last());
        if !s.last().2 {
            rest.push(s.last().0 + "="@ + s.last().1)
        } else {
            rest
        }
    }
}

/// The view of an optional text.
pub open spec fn opt_text_view(o: Option<String>) -> Option<Seq<char>> {
    match o {
        Some(s) => Some(s@),
        None => None,
    }
}

/// The body text a document body yields: raw text in raw (or unknown)
/// mode, the enabled entries joined `key=value&key=value` in urlencoded and
/// form-data modes, nothing when the mode's payload is absent.
pub open spec fn body_text(b: PostmanBody) -> Option<Seq<char>> {
    if b.mode matches Some(m) && m@ == "urlencoded"@ {
        match b.urlencoded {
            Some(params) => Some(
                spec_join(
                    enabled_kv_texts(params@.map_values(|kv: PostmanKeyValue| kv_view(kv))),
                    "&"@,
                ),
            ),
            None => None,
        }
    } else if b.mode matches Some(m) && m@ == "formdata"@ {
        match b.formdata {
            Some(params) => Some(
                spec_join(
                    enabled_kv_texts(params@.map_values(|kv: PostmanKeyValue| kv_view(kv))),
                    "&"@,
                ),
            ),
            None => None,
        }
    } else {
        opt_text_view(b.raw)
    }
}

/// Joins the enabled entries of a key/value list as `key=value&key=value`.
fn encode_kv_params(params: &Vec<PostmanKeyValue>) -> (r: String)
    ensures
        r@ == spec_join(
            enabled_kv_texts(params@.map_values(|kv: PostmanKeyValue| kv_view(kv))),
            "&"@,
        ),
{
    let ghost pv = params@.map_values(|kv: PostmanKeyValue| kv_view(kv));
    let mut texts: Vec<String> = Vec::new();
    let mut i: usize = 0;
    while i < params.len()
        invariant
            pv == params@.map_values(|kv: PostmanKeyValue| kv_view(kv)),
            i <= params@.len(),
            texts@.map_values(|s: String| s@) == enabled_kv_texts(pv.subrange(0, i as int)),
        decreases params@.len() - i,
    {
        proof {
            let pre1 = pv.subrange(0, i as int + 1);
            assert(pre1.drop_last() =~= pv.subrange(0, i as int));
            assert(pre1.last() == pv[i as int]);
            assert(pv[i as int] == kv_view(params@[i as int]));
        }
        if !params[i].disabled {
            let mut text = String::new();
            text.append(params[i].key.as_str());
            text.append("=");
            text.append(params[i].value.as_str());
            proof {
                assert(text@ =~= pv[i as int].0 + "="@ + pv[i as int].1);
            }
            texts.push(text);
            proof {
                assert(texts@.map_values(|s: String| s@) =~= enabled_kv_texts(
                    pv.subrange(0, i as int + 1),
                ));
            }
        } else {
            proof {
                assert(texts@.map_values(|s: String| s@) =~= enabled_kv_texts(
                    pv.subrange(0, i as int + 1),
                ));
            }
        }
        i = i + 1;
    }
    proof {
        assert(pv.subrange(0, params@.len() as int) =~= pv);
    }
    crate::strutil::join_with(&texts, "&")
}

/// The request body a document body yields; see `body_text`.
pub fn extract_body(body: &PostmanBody) -> (r: Option<String>)
    ensures
        opt_text_view(r) == body_text(*body),
{
    let is_urlencoded: bool = match &body.mode {
        Some(m) => str_eq(m.as_str(), "urlencoded"),
        None => false,
    };
    let is_formdata: bool = match &body.mode {
        Some(m) => str_eq(m.as_str(), "formdata"),
        None => false,
    };
    if is_urlencoded {
        match &body.urlencoded {
            Some(params) => Some(encode_kv_params(params)),
            None => None,
        }
    } else if is_formdata {
        match &body.formdata {
            Some(params) => Some(encode_kv_params(params)),
            None => None,
        }
    } else {
        match &body.raw {
            Some(s) => Some(s.clone()),
            None => None,
        }
    }
}

/// The view of one auth parameter.
pub open spec fn param_view(p: PostmanAuthParam) -> (Seq<char>, Seq<char>) {
    (p.key@, p.value@)
}

/// Whether some parameter carries this key.
pub open spec fn has_param(params: Seq<(Seq<char>, Seq<char>)>, key: Seq<char>) -> bool {
    exists|i: int| 0 <= i < params.len() && params[i].0 == key
}

/// True when position `i` holds the first parameter with this key.
pub open spec fn param_first_at(
    params: Seq<(Seq<char>, Seq<char>)>,
    key: Seq<char>,
    i: int,
) -> bool {
    &&& 0 <= i < params.len()
    &&& params[i].0 == key
    &&& forall|k: int| 0 <= k < i ==> params[k].0 != key
}

/// At most one position holds the first parameter with a key.
pub proof fn lemma_param_first_at_unique(
    params: Seq<(Seq<char>, Seq<char>)>,
    key: Seq<char>,
    i1: int,
    i2: int,
)
    requires
        param_first_at(params, key, i1),
        param_first_at(params, key, i2),
    ensures
        i1 == i2,
{
    if i1 < i2 {
        assert(params[i1].0 == key);
    }
    if i2 < i1 {
        assert(params[i2].0 == key);
    }
}

/// That `value` is the first value under this key, or empty when the key
/// is absent.
pub open spec fn is_param_or_empty(
    params: Seq<(Seq<char>, Seq<char>)>,
    key: Seq<char>,
    value: Seq<char>,
) -> bool {
    &&& !has_param(params, key) ==> value == Seq::<char>::empty()
    &&& forall|i: int| param_first_at(params, key, i) ==> value == params[i].1
}

/// Whether an auth block can be converted: bearer needs a `token`
/// parameter, basic and API key need their parameter lists, and any other
/// type (including none at all) converts to no authentication.
pub open spec fn auth_ok(a: PostmanAuth) -> bool {
    if a.auth_type@ == "bearer"@ {
        a.bearer matches Some(ps) && has_param(
            ps@.map_values(|p: PostmanAuthParam| param_view(p)),
            "token"@,
        )
    } else if a.auth_type@ == "basic"@ {
        a.basic is Some
    } else if a.auth_type@ == "apikey"@ {
        a.apikey is Some
    } else {
        true
    }
}

/// How a converted auth block relates to the document's block: bearer
/// takes the first `token` value; basic takes the first `username` and
/// `password` values, empty when absent; API key takes the first `key`,
/// `value` and `in` values, carried in the header unless `in` is `query`;
/// `noauth`, an empty type and unknown types convert to no authentication.
pub open spec fn auth_matches(a: PostmanAuth, out: AuthType) -> bool {
    if a.auth_type@ == "bearer"@ {
        match a.bearer {
            Some(ps) => {
                let pv = ps@.map_values(|p: PostmanAuthParam| param_view(p));
                forall|i: int|
                    param_first_at(pv, "token"@, i) ==> (out matches AuthType::Bearer { token }
                        && token@ == pv[i].1)
            },
            None => false,
        }
    } else if a.auth_type@ == "basic"@ {
        match a.basic {
            Some(ps) => {
                let pv = ps@.map_values(|p: PostmanAuthParam| param_view(p));
                out matches AuthType::Basic { username, password } && is_param_or_empty(
                    pv,
                    "username"@,
                    username@,
                ) && is_param_or_empty(pv, "password"@, password@)
            },
            None => false,
        }
    } else if a.auth_type@ == "apikey"@ {
        match a.apikey {
            Some(ps) => {
                let pv = ps@.map_values(|p: PostmanAuthParam| param_view(p));
                out matches AuthType::ApiKey { key, value, location } && is_param_or_empty(
                    pv,
                    "key"@,
                    key@,
                ) && is_param_or_empty(pv, "value"@, value@) && ({
                    &&& !has_param(pv, "in"@) ==> location == ApiKeyLocation::Header
                    &&& forall|i: int|
                        param_first_at(pv, "in"@, i) ==> location == (if pv[i].1 == "query"@ {
                            ApiKeyLocation::QueryParam
                        } else {
                            ApiKeyLocation::Header
                        })
                })
            },
            None => false,
        }
    } else {
        out is NoAuth
    }
}

/// The first value under this key, or empty when the key is absent.
fn find_param_or_empty(params: &Vec<PostmanAuthParam>, key: &str) -> (r: String)
    ensures
        is_param_or_empty(
            params@.map_values(|p: PostmanAuthParam| param_view(p)),
            key@,
            r@,
        ),
{
    let ghost pv = params@.map_values(|p: PostmanAuthParam| param_view(p));
    let mut i: usize = 0;
    while i < params.len()
        invariant
            pv == params@.map_values(|p: PostmanAuthParam| param_view(p)),
            i <= params@.len(),
            forall|k: int| 0 <= k < i ==> (#[trigger] pv[k]).0 != key@,
        decreases params@.len() - i,
    {
        if str_eq(params[i].key.as_str(), key) {
            proof {
                assert(param_first_at(pv, key@, i as int));
                assert forall|i2: int| param_first_at(pv, key@, i2) implies i2 == i as int by {
                    lemma_param_first_at_unique(pv, key@, i2, i as int);
                }
            }
            return params[i].value.clone();
        }
        i = i + 1;
    }
    proof {
        assert(!has_param(pv, key@));
    }
    String::new()
}

/// The three recognized auth type names are pairwise distinct.
pub proof fn lemma_auth_types_distinct()
    ensures
        "bearer"@ != "basic"@,
        "bearer"@ != "apikey"@,
        "basic"@ != "apikey"@,
{
    reveal_strlit("bearer");
    reveal_strlit("basic");
    reveal_strlit("apikey");
    assert("bearer"@.len() == 6);
    assert("basic"@.len() == 5);
    assert("apikey"@.len() == 6);
    assert("bearer"@[0] == 'b');
    assert("apikey"@[0] == 'a');
}

/// Converts an auth block; see `auth_matches` for what each type yields.
pub fn convert_auth(auth: &PostmanAuth) -> (r: Result<AuthType, ImportError>)
    ensures
        r is Ok <==> auth_ok(*auth),
        r matches Ok(t) ==> auth_matches(*auth, t),
        r matches Err(e) ==> ({
            &&& auth.auth_type@ == "bearer"@ ==> e is BearerAuthMissingToken
            &&& auth.auth_type@ == "basic"@ ==> e is BasicAuthMissingCredentials
            &&& auth.auth_type@ == "apikey"@ ==> e is ApiKeyAuthMissingParameters
        }),
{
    proof {
        lemma_auth_types_distinct();
    }
    let at = auth.auth_type.as_str();
    if str_eq(at, "bearer") {
        match &auth.bearer {
            Some(params) => {
                let ghost pv = params@.map_values(|p: PostmanAuthParam| param_view(p));
                let mut i: usize = 0;
                while i < params.len()
                    invariant
                        auth.auth_type@ == "bearer"@,
                        auth.bearer == Some(*params),
                        pv == params@.map_values(|p: PostmanAuthParam| param_view(p)),
                        i <= params@.len(),
                        forall|k: int| 0 <= k < i ==> (#[trigger] pv[k]).0 != "token"@,
                    decreases params@.len() - i,
                {
                    if str_eq(params[i].key.as_str(), "token") {
                        proof {
                            assert(param_first_at(pv, "token"@, i as int));
                            assert forall|i2: int|
                                param_first_at(pv, "token"@, i2) implies i2 == i as int by {
                                lemma_param_first_at_unique(pv, "token"@, i2, i as int);
                            }
                        }
                        return Ok(AuthType::Bearer { token: params[i].value.clone() });
                    }
                    i = i + 1;
                }
                proof {
                    lemma_auth_types_distinct();
                    assert(!has_param(pv, "token"@));
                }
                Err(ImportError::BearerAuthMissingToken)
            },
            None => Err(ImportError::BearerAuthMissingToken),
        }
    } else if str_eq(at, "basic") {
        match &auth.basic {
            Some(params) => {
                let username = find_param_or_empty(params, "username");
                let password = find_param_or_empty(params, "password");
                Ok(AuthType::Basic { username, password })
            },
            None => Err(ImportError::BasicAuthMissingCredentials),
        }
    } else if str_eq(at, "apikey") {
        match &auth.apikey {
            Some(params) => {
                let key = find_param_or_empty(params, "key");
                let value = find_param_or_empty(params, "value");
                let ghost pv = params@.map_values(|p: PostmanAuthParam| param_view(p));
                let mut location = ApiKeyLocation::Header;
                let mut i: usize = 0;
                let mut found = false;
                while i < params.len()
                    invariant
                        pv == params@.map_values(|p: PostmanAuthParam| param_view(p)),
                        i <= params@.len(),
                        !found ==> forall|k: int| 0 <= k < i ==> (#[trigger] pv[k]).0 != "in"@,
                        !found ==> location == ApiKeyLocation::Header,
                        found ==> exists|k: int|
                            param_first_at(pv, "in"@, k) && location == (if pv[k].1 == "query"@ {
                                ApiKeyLocation::QueryParam
                            } else {
                                ApiKeyLocation::Header
                            }),
                    decreases params@.len() - i,
                {
                    if !found && str_eq(params[i].key.as_str(), "in") {
                        proof {
                            assert(param_first_at(pv, "in"@, i as int));
                        }
                        if str_eq(params[i].value.as_str(), "query") {
                            location = ApiKeyLocation::QueryParam;
                        } else {
                            location = ApiKeyLocation::Header;
                        }
                        found = true;
                    }
                    i = i + 1;
                }
                proof {
                    lemma_auth_types_distinct();
                    if !found {
                        assert(!has_param(pv, "in"@));
                    }
                    assert forall|i2: int|
                        param_first_at(pv, "in"@, i2) implies location == (if pv[i2].1
                        == "query"@ {
                        ApiKeyLocation::QueryParam
                    } else {
                        ApiKeyLocation::Header
                    }) by {
                        if found {
                            let k = choose|k: int|
                                param_first_at(pv, "in"@, k) && location == (if pv[k].1
                                    == "query"@ {
                                    ApiKeyLocation::QueryParam
                                } else {
                                    ApiKeyLocation::Header
                                });
                            lemma_param_first_at_unique(pv, "in"@, i2, k);
                        }
                    }
                }
                Ok(AuthType::ApiKey { key, value, location })
            },
            None => Err(ImportError::ApiKeyAuthMissingParameters),
        }
    } else {
        // `noauth`, an empty type and unknown types convert to no
        // authentication.
        Ok(AuthType::NoAuth)
    }
}

/// The view of one key/value pair.
pub open spec fn kv_pair_view(p: (String, String)) -> (Seq<char>, Seq<char>) {
    (p.0@, p.1@)
}

/// Whether a document request can be converted: a bare URL always can; the
/// full form needs a supported method and a convertible auth block (the
/// request's own, else the collection's, else none).
#[verifier::opaque]
pub open spec fn convertible(preq: PostmanRequest, cauth: Option<PostmanAuth>) -> bool {
    match preq {
        PostmanRequest::Simple(_) => true,
        PostmanRequest::Full { method, auth, .. } => {
            &&& method_of_name(upper_of(method@)) is Some
            &&& (match auth {
                Some(a) => auth_ok(a),
                None => match cauth {
                    Some(a) => auth_ok(a),
                    None => true,
                },
            })
        },
    }
}

/// How a converted request relates to the document request it came from.
/// A bare URL becomes a GET with no headers, parameters, body or auth; the
/// full form takes the parsed method, the cleaned URL, the enabled headers
/// and query parameters in order, the extracted body, and the converted
/// auth — the request's own block taking precedence over the
/// collection's.
#[verifier::opaque]
pub open spec fn converted_matches(
    name: Seq<char>,
    preq: PostmanRequest,
    cauth: Option<PostmanAuth>,
    out: HttpRequest,
) -> bool {
    match preq {
        PostmanRequest::Simple(url) => {
            &&& out.name@ == name
            &&& out.method == HttpMethod::GET
            &&& out.url@ == url@
            &&& out.headers@.len() == 0
            &&& out.query_params@.len() == 0
            &&& out.body is None
            &&& out.auth is NoAuth
            &&& out.description is None
        },
        PostmanRequest::Full { method, header, body, url, auth, description } => {
            &&& out.name@ == name
            &&& method_of_name(upper_of(method@)) == Some(out.method)
            &&& out.url@ == cleaned_url(raw_of_url(url))
            &&& out.headers@.map_values(|p: (String, String)| kv_pair_view(p)) == enabled_pairs(
                header@.map_values(|h: PostmanHeader| header_view(h)),
            )
            &&& out.query_params@.map_values(|p: (String, String)| kv_pair_view(p)) == (match url {
                PostmanUrl::Object { query, .. } => enabled_pairs(
                    query@.map_values(|q: PostmanQueryParam| query_view(q)),
                ),
                PostmanUrl::Text(_) => Seq::<(Seq<char>, Seq<char>)>::empty(),
            })
            &&& (match body {
                Some(b) => opt_text_view(out.body) == body_text(b),
                None => out.body is None,
            })
            &&& (match auth {
                Some(a) => auth_matches(a, out.auth),
                None => match cauth {
                    Some(a) => auth_matches(a, out.auth),
                    None => out.auth is NoAuth,
                },
            })
            &&& opt_text_view(out.description) == opt_text_view(description)
        },
    }
}

/// Keeps the enabled entries of a header list, in order, as key/value
/// pairs.
fn collect_enabled_headers(header: &Vec<PostmanHeader>) -> (r: Vec<(String, String)>)
    ensures
        r@.map_values(|p: (String, String)| kv_pair_view(p)) == enabled_pairs(
            header@.map_values(|h: PostmanHeader| header_view(h)),
        ),
{
    let ghost hv = header@.map_values(|h: PostmanHeader| header_view(h));
    let mut out: Vec<(String, String)> = Vec::new();
    let mut i: usize = 0;
    while i < header.len()
        invariant
            hv == header@.map_values(|h: PostmanHeader| header_view(h)),
            i <= header@.len(),
            out@.map_values(|p: (String, String)| kv_pair_view(p)) == enabled_pairs(
                hv.subrange(0, i as int),
            ),
        decreases header@.len() - i,
    {
        proof {
            let pre1 = hv.subrange(0, i as int + 1);
            assert(pre1.drop_last() =~= hv.subrange(0, i as int));
            assert(pre1.last() == hv[i as int]);
            assert(hv[i as int] == header_view(header@[i as int]));
        }
        if !header[i].disabled {
            out.push((header[i].key.clone(), header[i].value.clone()));
            proof {
                assert(out@.map_values(|p: (String, String)| kv_pair_view(p)) =~= enabled_pairs(
                    hv.subrange(0, i as int + 1),
                ));
            }
        } else {
            proof {
                assert(out@.map_values(|p: (String, String)| kv_pair_view(p)) =~= enabled_pairs(
                    hv.subrange(0, i as int + 1),
                ));
            }
        }
        i = i + 1;
    }
    proof {
        assert(hv.subrange(0, header@.len() as int) =~= hv);
    }
    out
}

/// Keeps the enabled query parameters, in order, as key/value pairs.
fn collect_enabled_query(query: &Vec<PostmanQueryParam>) -> (r: Vec<(String, String)>)
    ensures
        r@.map_values(|p: (String, String)| kv_pair_view(p)) == enabled_pairs(
            query@.map_values(|q: PostmanQueryParam| query_view(q)),
        ),
{
    let ghost qv = query@.map_values(|q: PostmanQueryParam| query_view(q));
    let mut out: Vec<(String, String)> = Vec::new();
    let mut i: usize = 0;
    while i < query.len()
        invariant
            qv == query@.map_values(|q: PostmanQueryParam| query_view(q)),
            i <= query@.len(),
            out@.map_values(|p: (String, String)| kv_pair_view(p)) == enabled_pairs(
                qv.subrange(0, i as int),
            ),
        decreases query@.len() - i,
    {
        proof {
            let pre1 = qv.subrange(0, i as int + 1);
            assert(pre1.drop_last() =~= qv.subrange(0, i as int));
            assert(pre1.last() == qv[i as int]);
            assert(qv[i as int] == query_view(query@[i as int]));
        }
        if !query[i].disabled {
            out.push((query[i].key.clone(), query[i].value.clone()));
            proof {
                assert(out@.map_values(|p: (String, String)| kv_pair_view(p)) =~= enabled_pairs(
                    qv.subrange(0, i as int + 1),
                ));
            }
        } else {
            proof {
                assert(out@.map_values(|p: (String, String)| kv_pair_view(p)) =~= enabled_pairs(
                    qv.subrange(0, i as int + 1),
                ));
            }
        }
        i = i + 1;
    }
    proof {
        assert(qv.subrange(0, query@.len() as int) =~= qv);
    }
    out
}

/// Converts one document request into a request of the model; see
/// `converted_matches`.  The request's own auth block takes precedence
/// over the collection's.
pub fn convert_postman_request(
    name: String,
    postman_req: &PostmanRequest,
    collection_auth: &Option<PostmanAuth>,
) -> (r: Result<HttpRequest, ImportError>)
    ensures
        r is Ok <==> convertible(*postman_req, *collection_auth),
        r matches Ok(out) ==> converted_matches(name@, *postman_req, *collection_auth, out),
        r matches Err(e) ==> (match *postman_req {
            PostmanRequest::Full { method, .. } => {
                method_of_name(upper_of(method@)) is None ==> (e matches
                    ImportError::UnsupportedHttpMethod { method: m } && m@ == method@)
            },
            PostmanRequest::Simple(_) => false,
        }),
{
    proof {
        reveal(convertible);
        reveal(converted_matches);
    }
    match postman_req {
        PostmanRequest::Simple(url) => {
            Ok(HttpRequest::new(name, HttpMethod::GET, url.clone()))
        },
        PostmanRequest::Full { method, header, body, url, auth, description } => {
            let http_method = match parse_http_method(method.as_str()) {
                Ok(m) => m,
                Err(e) => { return Err(e) },
            };
            let url_string = match extract_url(url) {
                Ok(u) => u,
                Err(e) => { return Err(e) },
            };
            let mut request = HttpRequest::new(name, http_method, url_string);
            match description {
                Some(d) => { request.description = Some(d.clone()) },
                None => {},
            }
            request.headers = collect_enabled_headers(header);
            match url {
                PostmanUrl::Object { query, .. } => {
                    request.query_params = collect_enabled_query(query);
                },
                PostmanUrl::Text(_) => {
                    proof {
                        assert(request.query_params@.map_values(
                            |p: (String, String)| kv_pair_view(p),
                        ) =~= Seq::<(Seq<char>, Seq<char>)>::empty());
                    }
                },
            }
            match body {
                Some(b) => { request.body = extract_body(b) },
                None => {},
            }
            match auth {
                Some(a) => {
                    request.auth = match convert_auth(a) {
                        Ok(t) => t,
                        Err(e) => { return Err(e) },
                    };
                },
                None => {
                    match collection_auth {
                        Some(a) => {
                            request.auth = match convert_auth(a) {
                                Ok(t) => t,
                                Err(e) => { return Err(e) },
                            };
                        },
                        None => {},
                    }
                },
            }
            Ok(request)
        },
    }
}

/// The name an entry gets: the folder path joined onto it with `/`.
pub open spec fn prefixed_name(prefix: Option<Seq<char>>, n: Seq<char>) -> Seq<char> {
    match prefix {
        Some(p) => p + "/"@ + n,
        None => n,
    }
}

/// The named requests a list of entries yields from position `i` on, depth
/// first: folders are flattened, their names joined into the names of the
/// requests they contain.
pub open spec fn flattened_from(
    items: Seq<PostmanItem>,
    prefix: Option<Seq<char>>,
    i: int,
) -> Seq<(Seq<char>, PostmanRequest)>
    decreases items, items.len() - i,
    when 0 <= i
{
    if i >= items.len() {
        Seq::empty()
    } else {
        (match items[i] {
            PostmanItem::Request(ri) => seq![(prefixed_name(prefix, ri.name@), ri.request)],
            PostmanItem::Folder(f) => flattened_from(
                f.item@,
                Some(prefixed_name(prefix, f.name@)),
                0,
            ),
        }) + flattened_from(items, prefix, i + 1)
    }
}

/// The view of an optional borrowed prefix.
pub open spec fn opt_prefix_view(o: Option<&str>) -> Option<Seq<char>> {
    match o {
        Some(s) => Some(s@),
        None => None,
    }
}

/// Converts every entry, flattening folders, and appends the results in
/// order.  Succeeds exactly when every contained request converts; on
/// failure the entries already converted stay appended and the rest are
/// not attempted.
#[verifier::rlimit(100)]
pub fn process_items(
    items: &Vec<PostmanItem>,
    requests: &mut Vec<HttpRequest>,
    collection_auth: &Option<PostmanAuth>,
    folder_prefix: Option<&str>,
) -> (r: Result<(), ImportError>)
    ensures
        ({
            let flat = flattened_from(items@, opt_prefix_view(folder_prefix), 0);
            &&& final(requests)@.len() >= old(requests)@.len()
            &&& forall|k: int|
                0 <= k < old(requests)@.len() ==> final(requests)@[k] == old(requests)@[k]
            &&& r is Ok ==> final(requests)@.len() == old(requests)@.len() + flat.len()
            &&& r is Ok ==> forall|k: int|
                0 <= k < flat.len() ==> converted_matches(
                    (#[trigger] flat[k]).0,
                    flat[k].1,
                    *collection_auth,
                    final(requests)@[old(requests)@.len() + k],
                )
            &&& r is Ok <==> (forall|k: int|
                0 <= k < flat.len() ==> convertible((#[trigger] flat[k]).1, *collection_auth))
        }),
    decreases items@,
{
    let ghost pfx = opt_prefix_view(folder_prefix);
    let ghost flat0 = flattened_from(items@, pfx, 0);
    let ghost base = requests@.len();
    let ghost mut done: int = 0;
    let mut i: usize = 0;
    while i < items.len()
        invariant
            pfx == opt_prefix_view(folder_prefix),
            flat0 == flattened_from(items@, pfx, 0),
            base == old(requests)@.len(),
            i <= items@.len(),
            0 <= done <= flat0.len(),
            requests@.len() == base + done,
            forall|k: int| 0 <= k < base ==> requests@[k] == old(requests)@[k],
            flat0 =~= flat0.subrange(0, done) + flattened_from(items@, pfx, i as int),
            forall|k: int|
                0 <= k < done ==> converted_matches(
                    (#[trigger] flat0[k]).0,
                    flat0[k].1,
                    *collection_auth,
                    requests@[base + k],
                ),
            forall|k: int|
                0 <= k < done ==> convertible((#[trigger] flat0[k]).1, *collection_auth),
        decreases items@.len() - i,
    {
        match &items[i] {
            PostmanItem::Request(ri) => {
                proof {
                    assert(items@[i as int] == PostmanItem::Request(*ri));
                }
                let item_name: String = match folder_prefix {
                    Some(p) => {
                        let mut n = String::new();
                        n.append(p);
                        n.append("/");
                        n.append(ri.name.as_str());
                        n
                    },
                    None => ri.name.clone(),
                };
                proof {
                    assert(item_name@ =~= prefixed_name(pfx, ri.name@));
                    let fi = flattened_from(items@, pfx, i as int);
                    assert(fi == seq![(prefixed_name(pfx, ri.name@), ri.request)]
                        + flattened_from(items@, pfx, i as int + 1));
                    assert(fi.len() >= 1);
                    assert(flat0[done] == fi[0]);
                    assert(fi[0] == (prefixed_name(pfx, ri.name@), ri.request));
                }
                let converted = match convert_postman_request(
                    item_name,
                    &ri.request,
                    collection_auth,
                ) {
                    Ok(c) => c,
                    Err(e) => {
                        proof {
                            assert(!convertible(flat0[done].1, *collection_auth));
                        }
                        return Err(e);
                    },
                };
                requests.push(converted);
                proof {
                    let fi = flattened_from(items@, pfx, i as int);
                    assert(flat0.subrange(0, done + 1) =~= flat0.subrange(0, done).push(
                        flat0[done],
                    ));
                    assert(flat0 =~= flat0.subrange(0, done + 1) + flattened_from(
                        items@,
                        pfx,
                        i as int + 1,
                    ));
                    done = done + 1;
                }
            },
            PostmanItem::Folder(folder) => {
                proof {
                    assert(items@[i as int] == PostmanItem::Folder(*folder));
                }
                let new_prefix: String = match folder_prefix {
                    Some(p) => {
                        let mut n = String::new();
                        n.append(p);
                        n.append("/");
                        n.append(folder.name.as_str());
                        n
                    },
                    None => folder.name.clone(),
                };
                proof {
                    assert(new_prefix@ =~= prefixed_name(pfx, folder.name@));
                }
                let ghost child = flattened_from(folder.item@, Some(new_prefix@), 0);
                let ghost pre_len = requests@.len();
                let res = process_items(
                    &folder.item,
                    requests,
                    collection_auth,
                    Some(new_prefix.as_str()),
                );
                proof {
                    let fi = flattened_from(items@, pfx, i as int);
                    assert(fi == child + flattened_from(items@, pfx, i as int + 1));
                    assert(flat0 =~= flat0.subrange(0, done) + child + flattened_from(
                        items@,
                        pfx,
                        i as int + 1,
                    ));
                    assert forall|k: int| 0 <= k < child.len() implies flat0[done + k]
                        == child[k] by {
                        assert(flat0[done + k] == (flat0.subrange(0, done) + child
                            + flattened_from(items@, pfx, i as int + 1))[done + k]);
                    }
                }
                match res {
                    Ok(u) => {
                        proof {
                            assert(flat0.subrange(0, done + child.len() as int) =~= flat0.subrange(
                                0,
                                done,
                            ) + child);
                            assert(flat0 =~= flat0.subrange(0, done + child.len() as int)
                                + flattened_from(items@, pfx, i as int + 1));
                            done = done + child.len() as int;
                        }
                    },
                    Err(e) => {
                        proof {
                            assert(!(forall|k: int|
                                0 <= k < child.len() ==> convertible(
                                    (#[trigger] child[k]).1,
                                    *collection_auth,
                                )));
                            let kw = choose|k: int|
                                0 <= k < child.len() && !convertible(
                                    (#[trigger] child[k]).1,
                                    *collection_auth,
                                );
                            assert(flat0[done + kw] == child[kw]);
                            assert(!convertible(flat0[done + kw].1, *collection_auth));
                        }
                        return Err(e);
                    },
                }
            },
        }
        i = i + 1;
    }
    proof {
        assert(flattened_from(items@, pfx, items@.len() as int) == Seq::<(
            Seq<char>,
            PostmanRequest,
        )>::empty());
        assert(flat0 =~= flat0.subrange(0, done));
        assert(done == flat0.len());
    }
    Ok(())
}

/// The same request filed under a collection.
pub open spec fn with_collection(r: HttpRequest, cid: u128) -> HttpRequest {
    HttpRequest { collection_id: Some(cid), ..r }
}

/// Filing a converted request under a collection changes nothing the
/// conversion relation speaks of.
proof fn lemma_converted_matches_with_collection(
    name: Seq<char>,
    preq: PostmanRequest,
    cauth: Option<PostmanAuth>,
    out: HttpRequest,
    cid: u128,
)
    requires
        converted_matches(name, preq, cauth, out),
    ensures
        converted_matches(name, preq, cauth, with_collection(out, cid)),
{
    reveal(converted_matches);
}

/// Converts a whole document: one collection named after its info block,
/// and every contained request, flattened depth first, filed under the
/// collection.  Succeeds exactly when every request converts.
pub fn convert_postman_collection(postman: PostmanCollection) -> (r: Result<
    (Collection, Vec<HttpRequest>),
    ImportError,
>)
    ensures
        ({
            let flat = flattened_from(postman.item@, None, 0);
            &&& r is Ok <==> (forall|k: int|
                0 <= k < flat.len() ==> convertible((#[trigger] flat[k]).1, postman.auth))
            &&& r matches Ok((c, reqs)) ==> ({
                &&& c.name@ == postman.info.name@
                &&& opt_text_view(c.description) == opt_text_view(postman.info.description)
                &&& reqs@.len() == flat.len()
                &&& forall|k: int|
                    0 <= k < flat.len() ==> converted_matches(
                        (#[trigger] flat[k]).0,
                        flat[k].1,
                        postman.auth,
                        reqs@[k],
                    )
                &&& forall|k: int|
                    0 <= k < reqs@.len() ==> (#[trigger] reqs@[k]).collection_id == Some(c.id)
            })
        }),
{
    let ghost flat = flattened_from(postman.item@, None, 0);
    let mut collection = Collection::new(postman.info.name.clone());
    match &postman.info.description {
        Some(d) => { collection.description = Some(d.clone()) },
        None => {},
    }
    let mut requests: Vec<HttpRequest> = Vec::new();
    match process_items(&postman.item, &mut requests, &postman.auth, None) {
        Ok(u) => {},
        Err(e) => { return Err(e) },
    }
    let cid = collection.id;
    let mut i: usize = 0;
    while i < requests.len()
        invariant
            i <= requests@.len(),
            requests@.len() == flat.len(),
            flat == flattened_from(postman.item@, None, 0),
            forall|k: int|
                0 <= k < flat.len() ==> converted_matches(
                    (#[trigger] flat[k]).0,
                    flat[k].1,
                    postman.auth,
                    requests@[k],
                ),
            forall|k: int|
                0 <= k < i ==> (#[trigger] requests@[k]).collection_id == Some(cid),
        decreases requests@.len() - i,
    {
        let mut updated = requests.remove(i);
        let ghost before = updated;
        updated.collection_id = Some(cid);
        proof {
            assert(updated == with_collection(before, cid));
            lemma_converted_matches_with_collection(
                flat[i as int].0,
                flat[i as int].1,
                postman.auth,
                before,
                cid,
            );
        }
        requests.insert(i, updated);
        i = i + 1;
    }
    Ok((collection, requests))
}

} // verus!
