//! Prepared API requests for the API Playground.
use vstd::prelude::*;

verus! {

/// A prepared API request ready to be sent.
#[derive(Debug, Clone)]
pub struct ApiRequest {
    pub method: String,
    pub url: String,
    pub headers: Vec<(String, String)>,
    pub body: Option<String>,
}

impl ApiRequest {
    /// Create a new API request with no headers and no body.
    pub fn new(method: String, url: String) -> (r: Self)
        ensures
            r.method == method,
            r.url == url,
            r.headers@.len() == 0,
            r.body is None,
    {
        ApiRequest { method, url, headers: Vec::new(), body: None }
    }

    /// Add a header (after those already present).
    pub fn with_header(self, name: String, value: String) -> (r: Self)
        ensures
            r.method == self.method,
            r.url == self.url,
            r.body == self.body,
            r.headers@ == self.headers@.push((name, value)),
    {
        let mut s = self;
        s.headers.push((name, value));
        s
    }

    /// Set the request body.
    pub fn with_body(self, body: String) -> (r: Self)
        ensures
            r.method == self.method,
            r.url == self.url,
            r.headers@ == self.headers@,
            r.body == Some(body),
    {
        let mut s = self;
        s.body = Some(body);
        s
    }
}

} // verus!
