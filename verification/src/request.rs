//! The HTTP request model: methods, authentication, and the request value
//! that collection imports produce.
//!
//! Headers and query parameters are kept as ordered key/value pair lists,
//! preserving the order in which an import encounters them.

use vstd::prelude::*;

verus! {

/// The HTTP methods the model supports.
#[derive(Clone, Copy, Debug, PartialEq, Eq, Structural)]
pub enum HttpMethod {
    GET,
    POST,
    PUT,
    PATCH,
    DELETE,
    HEAD,
    OPTIONS,
}

/// The canonical text of an HTTP method.
pub open spec fn http_method_text(m: HttpMethod) -> Seq<char> {
    match m {
        HttpMethod::GET => "GET"@,
        HttpMethod::POST => "POST"@,
        HttpMethod::PUT => "PUT"@,
        HttpMethod::PATCH => "PATCH"@,
        HttpMethod::DELETE => "DELETE"@,
        HttpMethod::HEAD => "HEAD"@,
        HttpMethod::OPTIONS => "OPTIONS"@,
    }
}

impl HttpMethod {
    /// The canonical text of this method.
    pub fn as_str(&self) -> (r: &'static str)
        ensures
            r@ == http_method_text(*self),
    {
        match self {
            HttpMethod::GET => "GET",
            HttpMethod::POST => "POST",
            HttpMethod::PUT => "PUT",
            HttpMethod::PATCH => "PATCH",
            HttpMethod::DELETE => "DELETE",
            HttpMethod::HEAD => "HEAD",
            HttpMethod::OPTIONS => "OPTIONS",
        }
    }

    /// Every method, in canonical order.
    pub fn all() -> (r: Vec<HttpMethod>)
        ensures
            r@ =~= seq![
                HttpMethod::GET,
                HttpMethod::POST,
                HttpMethod::PUT,
                HttpMethod::PATCH,
                HttpMethod::DELETE,
                HttpMethod::HEAD,
                HttpMethod::OPTIONS,
            ],
    {
        let mut all: Vec<HttpMethod> = Vec::new();
        all.push(HttpMethod::GET);
        all.push(HttpMethod::POST);
        all.push(HttpMethod::PUT);
        all.push(HttpMethod::PATCH);
        all.push(HttpMethod::DELETE);
        all.push(HttpMethod::HEAD);
        all.push(HttpMethod::OPTIONS);
        all
    }
}

/// How a request authenticates.
#[derive(Clone, Debug)]
pub enum AuthType {
    NoAuth,
    Bearer { token: String },
    Basic { username: String, password: String },
    ApiKey { key: String, value: String, location: ApiKeyLocation },
}

/// Where an API key is carried.
#[derive(Clone, Copy, Debug, PartialEq, Eq, Structural)]
pub enum ApiKeyLocation {
    Header,
    QueryParam,
}

/// The `key=value` text of one query parameter.
pub open spec fn query_param_text(p: (String, String)) -> Seq<char> {
    p.0@ + "="@ + p.1@
}

/// One HTTP request: method, URL, headers, query parameters, body and
/// authentication, plus organizational fields.
#[derive(Clone, Debug)]
pub struct HttpRequest {
    pub id: u128,
    pub name: String,
    pub method: HttpMethod,
    pub url: String,
    pub headers: Vec<(String, String)>,
    pub query_params: Vec<(String, String)>,
    pub body: Option<String>,
    pub auth: AuthType,
    pub timeout_seconds: Option<u64>,
    pub follow_redirects: bool,
    pub verify_ssl: bool,
    pub collection_id: Option<u128>,
    pub created_at: i64,
    pub updated_at: i64,
    pub tags: Vec<String>,
    pub description: Option<String>,
}

impl HttpRequest {
    /// A fresh request with no headers, parameters, body or auth, a
    /// 30-second timeout, redirects followed and TLS verification on.
    pub fn new(name: String, method: HttpMethod, url: String) -> (r: Self)
        ensures
            r.name@ == name@,
            r.method == method,
            r.url@ == url@,
            r.headers@.len() == 0,
            r.query_params@.len() == 0,
            r.body is None,
            r.auth is NoAuth,
            r.timeout_seconds == Some(30u64),
            r.follow_redirects == true,
            r.verify_ssl == true,
            r.collection_id is None,
            r.created_at == r.updated_at,
            r.tags@.len() == 0,
            r.description is None,
    {
        let now = crate::ids::now_unix_millis();
        HttpRequest {
            id: crate::ids::fresh_id(),
            name,
            method,
            url,
            headers: Vec::new(),
            query_params: Vec::new(),
            body: None,
            auth: AuthType::NoAuth,
            timeout_seconds: Some(30),
            follow_redirects: true,
            verify_ssl: true,
            collection_id: None,
            created_at: now,
            updated_at: now,
            tags: Vec::new(),
            description: None,
        }
    }

    /// The URL with the query parameters appended as
    /// `?key=value&key=value`, or the URL alone when there are none.
    pub fn full_url(&self) -> (r: String)
        ensures
            self.query_params@.len() == 0 ==> r@ == self.url@,
            self.query_params@.len() > 0 ==> r@ == self.url@ + "?"@ + crate::strutil::spec_join(
                self.query_params@.map_values(|p: (String, String)| query_param_text(p)),
                "&"@,
            ),
    {
        if self.query_params.is_empty() {
            return self.url.clone();
        }
        let mut texts: Vec<String> = Vec::new();
        let mut i: usize = 0;
        while i < self.query_params.len()
            invariant
                i <= self.query_params@.len(),
                texts@.len() == i,
                forall|k: int|
                    0 <= k < i ==> #[trigger] texts@[k]@ == query_param_text(
                        self.query_params@[k],
                    ),
            decreases self.query_params@.len() - i,
        {
            let mut text = String::new();
            text.append(self.query_params[i].0.as_str());
            text.append("=");
            text.append(self.query_params[i].1.as_str());
            proof {
                assert(text@ =~= query_param_text(self.query_params@[i as int]));
            }
            texts.push(text);
            i = i + 1;
        }
        proof {
            let lhs = texts@.map_values(|s: String| s@);
            let rhs = self.query_params@.map_values(|p: (String, String)| query_param_text(p));
            assert forall|k: int| 0 <= k < lhs.len() implies lhs[k] == rhs[k] by {
                assert(lhs[k] == texts@[k]@);
            }
            assert(lhs =~= rhs);
        }
        let joined = crate::strutil::join_with(&texts, "&");
        let mut out = self.url.clone();
        out.append("?");
        out.append(joined.as_str());
        out
    }

    /// The request with this header appended.
    pub fn with_header(self, key: String, value: String) -> (r: Self)
        ensures
            r.headers@ == self.headers@.push((key, value)),
            r.query_params@ == self.query_params@,
            r.url@ == self.url@,
            r.method == self.method,
            r.body == self.body,
    {
        let mut r = self;
        r.headers.push((key, value));
        r
    }

    /// The request with this query parameter appended.
    pub fn with_query_param(self, key: String, value: String) -> (r: Self)
        ensures
            r.query_params@ == self.query_params@.push((key, value)),
            r.headers@ == self.headers@,
            r.url@ == self.url@,
            r.method == self.method,
            r.body == self.body,
    {
        let mut r = self;
        r.query_params.push((key, value));
        r
    }

    /// The request with this body.
    pub fn with_body(self, body: String) -> (r: Self)
        ensures
            r.body matches Some(b) && b@ == body@,
            r.headers@ == self.headers@,
            r.query_params@ == self.query_params@,
            r.url@ == self.url@,
            r.method == self.method,
    {
        let mut r = self;
        r.body = Some(body);
        r
    }
}

impl Default for HttpRequest {
    fn default() -> Self {
        HttpRequest::new("New Request".to_owned(), HttpMethod::GET, "https://api.example.com".to_owned())
    }
}

} // verus!
