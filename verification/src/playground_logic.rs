//! The decisions of the API Playground: the URL of a request, the request that the
//! "Send" button prepares, the snippet shown with the response, the auth type chosen
//! in the form, and the parameter values typed in.
use vstd::prelude::*;

use crate::auth::{auth_encodable, auth_headers, header_views, AuthType};
use crate::codegen::CodegenRequest;
use crate::playground::ParameterDef;
use crate::request::ApiRequest;
use crate::text::{chars_match_at, chars_of, push_char, str_eq, string_from_chars};

verus! {

broadcast use vstd::string::group_string_axioms;

// ---------------------------------------------------------------------------
// URLs
// ---------------------------------------------------------------------------

/// `s` with the occurrences of `pat` replaced by `rep`, scanning from the left and
/// without overlaps (`str::replace`, for a pattern that is not empty).
pub open spec fn replace_all(s: Seq<char>, pat: Seq<char>, rep: Seq<char>) -> Seq<char>
    decreases s.len(),
{
    if s.len() == 0 {
        Seq::<char>::empty()
    } else if pat.len() > 0 && pat.len() <= s.len() && s.take(pat.len() as int) == pat {
        rep + replace_all(s.skip(pat.len() as int), pat, rep)
    } else {
        seq![s[0]] + replace_all(s.drop_first(), pat, rep)
    }
}

/// The placeholder of a path parameter: `{name}`.
pub open spec fn placeholder(name: Seq<char>) -> Seq<char> {
    seq!['{'] + name + seq!['}']
}

/// The URL of a request: base URL and path, with each parameter's placeholder replaced
/// by its value, one parameter after the other.
pub open spec fn request_url(base_url: Seq<char>, path: Seq<char>, params: Seq<(String, String)>) -> Seq<char>
    decreases params.len(),
{
    if params.len() == 0 {
        base_url + path
    } else {
        replace_all(
            request_url(base_url, path, params.drop_last()),
            placeholder(params.last().0@),
            params.last().1@,
        )
    }
}

/// `s` with `pat` replaced by `rep`.
fn replace_chars(s: &Vec<char>, pat: &Vec<char>, rep: &str) -> (r: Vec<char>)
    requires
        pat@.len() > 0,
    ensures
        r@ == replace_all(s@, pat@, rep@),
{
    let rep_chars = chars_of(rep);
    let mut out: Vec<char> = Vec::new();
    let mut i: usize = 0;
    assert(s@.skip(0) =~= s@);
    while i < s.len()
        invariant
            i <= s@.len(),
            pat@.len() > 0,
            rep_chars@ == rep@,
            out@ + replace_all(s@.skip(i as int), pat@, rep@) == replace_all(s@, pat@, rep@),
        decreases s@.len() - i,
    {
        let ghost rest = s@.skip(i as int);
        if chars_match_at(s, i, pat) {
            assert(rest.take(pat@.len() as int) =~= s@.subrange(i as int, i + pat@.len()));
            assert(rest.skip(pat@.len() as int) =~= s@.skip(i + pat@.len()));
            let ghost before = out@;
            let mut k: usize = 0;
            while k < rep_chars.len()
                invariant
                    k <= rep_chars@.len(),
                    out@ == before + rep_chars@.take(k as int),
                decreases rep_chars@.len() - k,
            {
                out.push(rep_chars[k]);
                k = k + 1;
                assert(rep_chars@.take(k as int) =~= rep_chars@.take(k - 1).push(rep_chars@[k - 1]));
            }
            assert(rep_chars@.take(k as int) =~= rep_chars@);
            assert(before + (rep@ + replace_all(s@.skip(i + pat@.len()), pat@, rep@)) =~= out@
                + replace_all(s@.skip(i + pat@.len()), pat@, rep@));
            i = i + pat.len();
        } else {
            proof {
                if pat@.len() <= rest.len() && rest.take(pat@.len() as int) == pat@ {
                    assert(s@.subrange(i as int, i + pat@.len()) =~= rest.take(pat@.len() as int));
                }
                assert(rest.drop_first() =~= s@.skip(i + 1));
                assert(rest[0] == s@[i as int]);
            }
            let ghost before = out@;
            out.push(s[i]);
            assert(before + (seq![s@[i as int]] + replace_all(s@.skip(i + 1), pat@, rep@)) =~= out@
                + replace_all(s@.skip(i + 1), pat@, rep@));
            i = i + 1;
        }
    }
    assert(s@.skip(i as int) =~= Seq::<char>::empty());
    assert(out@ + Seq::<char>::empty() =~= out@);
    out
}

/// Build the full URL from base URL, path, and parameter values.
pub fn build_url(base_url: &str, path: &str, params: &[(String, String)]) -> (r: String)
    ensures
        r@ == request_url(base_url@, path@, params@),
{
    let mut url = chars_of(base_url);
    let path_chars = chars_of(path);
    let mut j: usize = 0;
    let ghost start = url@;
    while j < path_chars.len()
        invariant
            j <= path_chars@.len(),
            url@ == start + path_chars@.take(j as int),
        decreases path_chars@.len() - j,
    {
        url.push(path_chars[j]);
        j = j + 1;
        assert(path_chars@.take(j as int) =~= path_chars@.take(j - 1).push(path_chars@[j - 1]));
    }
    assert(path_chars@.take(j as int) =~= path_chars@);
    let mut i: usize = 0;
    while i < params.len()
        invariant
            i <= params@.len(),
            url@ == request_url(base_url@, path@, params@.take(i as int)),
        decreases params@.len() - i,
    {
        let mut pat = chars_of("{");
        let name = chars_of(params[i].0.as_str());
        let mut k: usize = 0;
        let ghost open = pat@;
        while k < name.len()
            invariant
                k <= name@.len(),
                pat@ == open + name@.take(k as int),
            decreases name@.len() - k,
        {
            pat.push(name[k]);
            k = k + 1;
            assert(name@.take(k as int) =~= name@.take(k - 1).push(name@[k - 1]));
        }
        pat.push('}');
        proof {
            reveal_strlit("{");
            assert(name@.take(k as int) =~= name@);
            assert(pat@ =~= placeholder(params@[i as int].0@));
        }
        url = replace_chars(&url, &pat, params[i].1.as_str());
        i = i + 1;
        assert(params@.take(i as int).drop_last() =~= params@.take(i - 1));
    }
    assert(params@.take(i as int) =~= params@);
    string_from_chars(&url)
}

// ---------------------------------------------------------------------------
// Requests
// ---------------------------------------------------------------------------

/// Whether one of the headers is named `name`.
pub open spec fn has_header(h: Seq<(Seq<char>, Seq<char>)>, name: Seq<char>) -> bool {
    exists|i: int| 0 <= i < h.len() && #[trigger] h[i].0 == name
}

/// The headers of a sent request: `Accept: application/json`, those of the auth, and
/// `Content-Type: application/json` when there is a body and the auth set none.
pub open spec fn request_headers(auth: AuthType, body: Seq<char>) -> Seq<(Seq<char>, Seq<char>)> {
    let ah = auth_headers(auth);
    seq![("Accept"@, "application/json"@)] + ah + (if body.len() > 0 && !has_header(
        ah,
        "Content-Type"@,
    ) {
        seq![("Content-Type"@, "application/json"@)]
    } else {
        Seq::empty()
    })
}

fn has_header_exec(headers: &Vec<(String, String)>, name: &str) -> (r: bool)
    ensures
        r == has_header(header_views(headers@), name@),
{
    let mut i: usize = 0;
    while i < headers.len()
        invariant
            i <= headers@.len(),
            forall|j: int| 0 <= j < i ==> header_views(headers@)[j].0 != name@,
        decreases headers@.len() - i,
    {
        if str_eq(headers[i].0.as_str(), name) {
            assert(header_views(headers@)[i as int].0 == name@);
            return true;
        }
        i = i + 1;
    }
    false
}

/// The headers that the auth adds, on their own.
fn auth_header_list(auth: &AuthType) -> (r: Vec<(String, String)>)
    requires
        auth_encodable(*auth),
    ensures
        header_views(r@) == auth_headers(*auth),
{
    let mut headers: Vec<(String, String)> = Vec::new();
    auth.apply_to_headers(&mut headers);
    assert(header_views(Seq::<(String, String)>::empty()) =~= Seq::<(Seq<char>, Seq<char>)>::empty());
    assert(Seq::<(Seq<char>, Seq<char>)>::empty() + auth_headers(*auth) =~= auth_headers(*auth));
    headers
}

/// The request that "Send" prepares: the URL with the parameter values, the headers
/// of `request_headers`, and the body when it is not empty.
pub fn prepare_request(
    method: String,
    base_url: &str,
    path: &str,
    params: &[(String, String)],
    auth: &AuthType,
    body: String,
) -> (r: ApiRequest)
    requires
        auth_encodable(*auth),
    ensures
        r.method == method,
        r.url@ == request_url(base_url@, path@, params@),
        header_views(r.headers@) == request_headers(*auth, body@),
        r.body == (if body@.len() > 0 {
            Some(body)
        } else {
            None
        }),
{
    let url = build_url(base_url, path, params);
    let mut headers = auth_header_list(auth);
    let ghost ah = header_views(headers@);
    let has_body = body.as_str().unicode_len() > 0;
    if has_body && !has_header_exec(&headers, "Content-Type") {
        headers.push((String::from_str("Content-Type"), String::from_str("application/json")));
    }
    let mut request = ApiRequest::new(method, url).with_header(
        String::from_str("Accept"),
        String::from_str("application/json"),
    );
    let ghost base = header_views(request.headers@);
    let mut i: usize = 0;
    while i < headers.len()
        invariant
            i <= headers@.len(),
            request.method == method,
            request.url@ == request_url(base_url@, path@, params@),
            request.body is None,
            header_views(request.headers@) == base + header_views(headers@).take(i as int),
        decreases headers@.len() - i,
    {
        let (name, value) = (headers[i].0.clone(), headers[i].1.clone());
        let ghost before = header_views(request.headers@);
        request = request.with_header(name, value);
        assert(header_views(request.headers@) =~= before.push(header_views(headers@)[i as int]));
        i = i + 1;
        assert(header_views(headers@).take(i as int) =~= header_views(headers@).take(i - 1).push(
            header_views(headers@)[i - 1],
        ));
    }
    assert(header_views(headers@).take(i as int) =~= header_views(headers@));
    proof {
        assert(base =~= seq![("Accept"@, "application/json"@)]);
        if has_body && !has_header(ah, "Content-Type"@) {
            assert(header_views(headers@) =~= ah + seq![("Content-Type"@, "application/json"@)]);
        } else {
            assert(header_views(headers@) =~= ah + Seq::<(Seq<char>, Seq<char>)>::empty());
        }
    }
    if has_body {
        request.with_body(body)
    } else {
        request
    }
}

/// The snippet request shown with a response: the URL with the parameter values, the
/// headers of the auth, and the body when it is not empty.
pub fn snippet_request(
    method: String,
    base_url: &str,
    path: &str,
    params: &[(String, String)],
    auth: &AuthType,
    body: String,
) -> (r: CodegenRequest)
    requires
        auth_encodable(*auth),
    ensures
        r.method == method,
        r.url@ == request_url(base_url@, path@, params@),
        header_views(r.headers@) == auth_headers(*auth),
        r.body == (if body@.len() > 0 {
            Some(body)
        } else {
            None
        }),
{
    let url = build_url(base_url, path, params);
    let headers = auth_header_list(auth);
    let body = if body.as_str().unicode_len() > 0 {
        Some(body)
    } else {
        None
    };
    CodegenRequest { method, url, headers, body }
}

// ---------------------------------------------------------------------------
// Form state
// ---------------------------------------------------------------------------

/// The auth type that the select box's value stands for: `apikey`, `bearer` and
/// `basic` give the matching type with empty credentials (and the default API key
/// header); anything else gives no authentication.
pub fn auth_from_choice(value: &str) -> (r: AuthType)
    ensures
        value@ == "apikey"@ ==> (r matches AuthType::ApiKey { key, header_name } && key@.len() == 0
            && header_name@ == "X-API-Key"@),
        value@ == "bearer"@ ==> (r matches AuthType::Bearer { token } && token@.len() == 0),
        value@ == "basic"@ ==> (r matches AuthType::BasicAuth { username, password }
            && username@.len() == 0 && password@.len() == 0),
        value@ != "apikey"@ && value@ != "bearer"@ && value@ != "basic"@ ==> r is NoAuth,
{
    proof {
        reveal_strlit("apikey");
        reveal_strlit("bearer");
        reveal_strlit("basic");
        assert("apikey"@[0] != "bearer"@[0]);
        assert("apikey"@.len() != "basic"@.len() && "bearer"@.len() != "basic"@.len());
    }
    if str_eq(value, "apikey") {
        AuthType::ApiKey { key: String::new(), header_name: String::from_str("X-API-Key") }
    } else if str_eq(value, "bearer") {
        AuthType::Bearer { token: String::new() }
    } else if str_eq(value, "basic") {
        AuthType::BasicAuth { username: String::new(), password: String::new() }
    } else {
        AuthType::NoAuth
    }
}

/// The values typed for the parameters: one empty value per parameter, by name.
pub fn initial_param_values(params: &[ParameterDef]) -> (r: Vec<(String, String)>)
    ensures
        r@.len() == params@.len(),
        forall|i: int|
            0 <= i < params@.len() ==> (#[trigger] r@[i]).0@ == params@[i].name@ && r@[i].1@.len() == 0,
{
    let mut r: Vec<(String, String)> = Vec::new();
    let mut i: usize = 0;
    while i < params.len()
        invariant
            i <= params@.len(),
            r@.len() == i,
            forall|j: int| 0 <= j < i ==> (#[trigger] r@[j]).0@ == params@[j].name@ && r@[j].1@.len() == 0,
        decreases params@.len() - i,
    {
        r.push((params[i].name.clone(), String::new()));
        i = i + 1;
    }
    r
}

/// The index of the first value for the parameter `name`, if any.
pub open spec fn first_named(values: Seq<(String, String)>, name: Seq<char>) -> Option<int> {
    if exists|i: int| 0 <= i < values.len() && values[i].0@ == name {
        Some(choose|i: int| 0 <= i < values.len() && values[i].0@ == name && forall|j: int| 0 <= j < i ==> values[j].0@ != name)
    } else {
        None
    }
}

/// Records the value typed for the parameter `name`: the first entry with that name
/// takes the value; nothing changes when there is none.
pub fn set_param_value(values: &mut Vec<(String, String)>, name: &str, value: String)
    ensures
        match first_named(old(values)@, name@) {
            Some(i) => final(values)@ == old(values)@.update(i, (old(values)@[i].0, value)),
            None => final(values)@ == old(values)@,
        },
{
    let mut i: usize = 0;
    while i < values.len()
        invariant
            i <= values@.len(),
            values@ == old(values)@,
            forall|j: int| 0 <= j < i ==> values@[j].0@ != name@,
        decreases values@.len() - i,
    {
        if str_eq(values[i].0.as_str(), name) {
            proof {
                let w = i as int;
                assert(0 <= w < values@.len() && values@[w].0@ == name@ && forall|j: int|
                    0 <= j < w ==> values@[j].0@ != name@);
                let c = choose|c: int|
                    0 <= c < values@.len() && values@[c].0@ == name@ && forall|j: int|
                        0 <= j < c ==> values@[j].0@ != name@;
                if c < w {
                } else if c > w {
                    assert(values@[w].0@ != name@);
                }
            }
            let ghost before = values@;
            let (n, _old_value) = values.remove(i);
            values.insert(i, (n, value));
            assert(values@ =~= before.update(i as int, (before[i as int].0, value)));
            return;
        }
        i = i + 1;
    }
}

} // verus!
