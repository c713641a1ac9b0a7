//! Types of the API Playground component.
use vstd::prelude::*;

verus! {

broadcast use vstd::string::group_string_axioms;

/// Props for the API Playground component.
#[derive(Debug, Clone)]
pub struct ApiPlaygroundProps {
    pub method: String,
    pub path: String,
    pub parameters: Vec<ParameterDef>,
    pub request_body_schema: Option<String>,
    pub base_url: Option<String>,
}

/// Definition of an API parameter from the spec.
#[derive(Debug, Clone)]
pub struct ParameterDef {
    pub name: String,
    /// Where the parameter goes ("in": path, query, header or cookie).
    pub location: String,
    /// The parameter's type ("type"), "string" unless given.
    pub param_type: String,
    pub required: bool,
}

/// The parameter type assumed when none is given.
pub fn default_type() -> (r: String)
    ensures
        r@ == "string"@,
{
    String::from_str("string")
}

/// The interactive API Playground island.
pub struct ApiPlayground;

impl ApiPlayground {
    /// The identifier used in the `data-island-type` attribute.
    pub fn island_type() -> (r: &'static str)
        ensures
            r@ == "api-playground"@,
    {
        "api-playground"
    }
}

/// Error type for island mount failures.
#[derive(Debug, Clone)]
pub struct IslandError {
    pub message: String,
}

} // verus!
