//! CORS configuration: the origins and the HTTP methods a server accepts
//! from other sites.
use vstd::prelude::*;

verus! {

/// An HTTP request method, as a CORS policy lists it.
#[derive(Debug, Clone, Copy, PartialEq, Eq, Structural)]
pub enum HttpMethod {
    Get,
    Post,
    Put,
    Delete,
    Patch,
    Options,
    Head,
}

impl HttpMethod {
    /// The method's name as it stands in a request line.
    pub fn as_str(&self) -> (r: &'static str)
        ensures
            r@ == method_name(*self),
    {
        match self {
            HttpMethod::Get => "GET",
            HttpMethod::Post => "POST",
            HttpMethod::Put => "PUT",
            HttpMethod::Delete => "DELETE",
            HttpMethod::Patch => "PATCH",
            HttpMethod::Options => "OPTIONS",
            HttpMethod::Head => "HEAD",
        }
    }
}

/// The name of a method as it stands in a request line.
pub open spec fn method_name(m: HttpMethod) -> Seq<char> {
    match m {
        HttpMethod::Get => "GET"@,
        HttpMethod::Post => "POST"@,
        HttpMethod::Put => "PUT"@,
        HttpMethod::Delete => "DELETE"@,
        HttpMethod::Patch => "PATCH"@,
        HttpMethod::Options => "OPTIONS"@,
        HttpMethod::Head => "HEAD"@,
    }
}

/// The methods a default policy accepts, in order.
pub open spec fn default_methods() -> Seq<HttpMethod> {
    seq![HttpMethod::Get, HttpMethod::Post, HttpMethod::Put, HttpMethod::Delete, HttpMethod::Patch, HttpMethod::Options]
}

/// CORS configuration
#[derive(Debug, Clone)]
pub struct CorsConfig {
    pub allowed_origins: Vec<String>,
    pub allowed_methods: Vec<HttpMethod>,
}

impl Default for CorsConfig {
    /// No origin, and the methods GET, POST, PUT, DELETE, PATCH and OPTIONS.
    fn default() -> (r: Self)
        ensures
            r.allowed_origins@.len() == 0,
            r.allowed_methods@ == default_methods(),
    {
        let mut methods: Vec<HttpMethod> = Vec::new();
        methods.push(HttpMethod::Get);
        methods.push(HttpMethod::Post);
        methods.push(HttpMethod::Put);
        methods.push(HttpMethod::Delete);
        methods.push(HttpMethod::Patch);
        methods.push(HttpMethod::Options);
        CorsConfig { allowed_origins: Vec::new(), allowed_methods: methods }
    }
}

impl CorsConfig {
    /// The default policy.
    pub fn new() -> (r: Self)
        ensures
            r.allowed_origins@.len() == 0,
            r.allowed_methods@ == default_methods(),
    {
        CorsConfig::default()
    }
}

} // verus!
