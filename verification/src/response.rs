//! How the API Playground shows a response: the class of its status and its body.
use vstd::prelude::*;

use crate::git_meta::opt_string_view;

verus! {

broadcast use vstd::string::group_string_axioms;

/// The CSS class for a status code: by its hundreds for 2xx to 4xx, else `5xx`.
pub open spec fn status_class_of(status: u16) -> Seq<char> {
    if 200 <= status <= 299 {
        "api-status-2xx"@
    } else if 300 <= status <= 399 {
        "api-status-3xx"@
    } else if 400 <= status <= 499 {
        "api-status-4xx"@
    } else {
        "api-status-5xx"@
    }
}

/// Get the CSS class for a status code.
pub fn get_status_class(status: u16) -> (r: &'static str)
    ensures
        r@ == status_class_of(status),
{
    if 200 <= status && status <= 299 {
        "api-status-2xx"
    } else if 300 <= status && status <= 399 {
        "api-status-3xx"
    } else if 400 <= status && status <= 499 {
        "api-status-4xx"
    } else {
        "api-status-5xx"
    }
}

/// What `pretty_json` gives for a text: the text parsed as JSON and printed back with
/// indentation, or nothing when it is not JSON.
pub uninterp spec fn pretty_json_of(text: Seq<char>) -> Option<Seq<char>>;

/// Parses a text as a `serde_json::Value` and prints it with
/// `serde_json::to_string_pretty`. The result is named `pretty_json_of`; nothing more
/// is stated of it.
#[verifier::external_body]
fn pretty_json(text: &str) -> (r: Option<String>)
    ensures
        opt_string_view(r) == pretty_json_of(text@),
{
    serde_json::from_str::<serde_json::Value>(text).ok().and_then(|v| serde_json::to_string_pretty(&v).ok())
}

/// The body as shown: pretty-printed when it is JSON, else as it is.
pub open spec fn shown_body(body: Seq<char>) -> Seq<char> {
    match pretty_json_of(body) {
        Some(p) => p,
        None => body,
    }
}

/// Format the response body for display (pretty-print JSON if applicable).
pub fn format_response_body(body: &str) -> (r: String)
    ensures
        r@ == shown_body(body@),
{
    match pretty_json(body) {
        Some(pretty) => pretty,
        None => String::from_str(body),
    }
}

} // verus!
