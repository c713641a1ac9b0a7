//! Authentication configuration for API requests.
use vstd::prelude::*;

use crate::sri::{base64_encode, base64_of};
use crate::text::chars_of;

verus! {

broadcast use vstd::string::group_string_axioms;

/// Authentication method supported by the API Playground.
#[derive(Debug, Clone, PartialEq, Eq)]
pub enum AuthType {
    /// No authentication
    NoAuth,
    /// API Key authentication with custom header name
    ApiKey { key: String, header_name: String },
    /// Bearer token authentication
    Bearer { token: String },
    /// Basic authentication with username and password
    BasicAuth { username: String, password: String },
}

impl Default for AuthType {
    fn default() -> (r: Self)
        ensures
            r is NoAuth,
    {
        AuthType::NoAuth
    }
}

/// The header name an API key is sent in unless another is configured.
pub fn default_api_key_header() -> (r: String)
    ensures
        r@ == "X-API-Key"@,
{
    String::from_str("X-API-Key")
}

/// The human-readable name of an auth type.
pub open spec fn auth_name(a: AuthType) -> Seq<char> {
    match a {
        AuthType::NoAuth => "None"@,
        AuthType::ApiKey { .. } => "API Key"@,
        AuthType::Bearer { .. } => "Bearer Token"@,
        AuthType::BasicAuth { .. } => "Basic Auth"@,
    }
}

/// The bytes of a string whose characters are all at most U+00FF (Latin-1), one byte
/// per character, as the browser's `btoa` reads a string.
pub open spec fn latin1_bytes(s: Seq<char>) -> Seq<u8> {
    s.map_values(|c: char| (c as u32) as u8)
}

pub open spec fn is_latin1(s: Seq<char>) -> bool {
    forall|i: int| 0 <= i < s.len() ==> (s[i] as u32) <= 0xff
}

/// The `user:password` credentials of Basic authentication.
pub open spec fn basic_credentials(username: Seq<char>, password: Seq<char>) -> Seq<char> {
    username + ":"@ + password
}

/// The header, if any, that an auth type adds to a request: none for `NoAuth` and for an
/// empty key, token or user name.
pub open spec fn auth_headers(a: AuthType) -> Seq<(Seq<char>, Seq<char>)> {
    match a {
        AuthType::NoAuth => Seq::empty(),
        AuthType::ApiKey { key, header_name } => if key@.len() > 0 {
            seq![(header_name@, key@)]
        } else {
            Seq::empty()
        },
        AuthType::Bearer { token } => if token@.len() > 0 {
            seq![("Authorization"@, "Bearer "@ + token@)]
        } else {
            Seq::empty()
        },
        AuthType::BasicAuth { username, password } => if username@.len() > 0 {
            seq![
                ("Authorization"@, "Basic "@ + base64_of(
                    latin1_bytes(basic_credentials(username@, password@)),
                )),
            ]
        } else {
            Seq::empty()
        },
    }
}

/// The name and value of each header.
pub open spec fn header_views(h: Seq<(String, String)>) -> Seq<(Seq<char>, Seq<char>)> {
    h.map_values(|p: (String, String)| (p.0@, p.1@))
}

/// Whether the Basic-auth credentials can be encoded (`btoa` rejects characters beyond
/// U+00FF).
pub open spec fn auth_encodable(a: AuthType) -> bool {
    match a {
        AuthType::BasicAuth { username, password } => username@.len() > 0 ==> is_latin1(
            basic_credentials(username@, password@),
        ) && basic_credentials(username@, password@).len() <= usize::MAX / 4 * 3,
        _ => true,
    }
}

fn latin1_of(s: &str) -> (r: Vec<u8>)
    requires
        is_latin1(s@),
    ensures
        r@ == latin1_bytes(s@),
{
    let chars = chars_of(s);
    let mut r: Vec<u8> = Vec::new();
    let mut i: usize = 0;
    while i < chars.len()
        invariant
            chars@ == s@,
            is_latin1(s@),
            i <= chars@.len(),
            r@ =~= latin1_bytes(chars@.take(i as int)),
        decreases chars@.len() - i,
    {
        let c = chars[i];
        assert((c as u32) <= 0xff);
        r.push((c as u32) as u8);
        i = i + 1;
    }
    assert(chars@.take(i as int) =~= chars@);
    r
}

impl AuthType {
    /// Get the human-readable name of this auth type.
    pub fn name(&self) -> (r: &'static str)
        ensures
            r@ == auth_name(*self),
    {
        match self {
            AuthType::NoAuth => "None",
            AuthType::ApiKey { .. } => "API Key",
            AuthType::Bearer { .. } => "Bearer Token",
            AuthType::BasicAuth { .. } => "Basic Auth",
        }
    }

    /// Apply this authentication to request headers: appends the header it needs, if
    /// any; Basic credentials `user:password` are base64-encoded byte per character.
    pub fn apply_to_headers(&self, headers: &mut Vec<(String, String)>)
        requires
            auth_encodable(*self),
        ensures
            header_views(final(headers)@) == header_views(old(headers)@) + auth_headers(*self),
    {
        let ghost before = headers@;
        match self {
            AuthType::NoAuth => {
            },
            AuthType::ApiKey { key, header_name } => {
                if key.as_str().is_empty() == false {
                    headers.push((header_name.clone(), key.clone()));
                }
            },
            AuthType::Bearer { token } => {
                if token.as_str().is_empty() == false {
                    let mut value = String::from_str("Bearer ");
                    value.append(token.as_str());
                    headers.push((String::from_str("Authorization"), value));
                }
            },
            AuthType::BasicAuth { username, password } => {
                if username.as_str().is_empty() == false {
                    let mut credentials = username.clone();
                    credentials.append(":");
                    credentials.append(password.as_str());
                    let bytes = latin1_of(credentials.as_str());
                    let encoded = base64_encode(bytes.as_slice());
                    let mut value = String::from_str("Basic ");
                    value.append(encoded.as_str());
                    headers.push((String::from_str("Authorization"), value));
                }
            },
        }
        assert(header_views(headers@) =~= header_views(before) + auth_headers(*self));
    }
}

} // verus!
