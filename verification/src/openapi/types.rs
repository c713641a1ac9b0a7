//! The endpoint data that the OpenAPI pages are rendered from.
use vstd::prelude::*;

verus! {

/// A parsed API endpoint with all its metadata.
#[derive(Debug, Clone)]
pub struct ApiEndpoint {
    pub path: String,
    pub method: String,
    pub operation_id: Option<String>,
    pub summary: Option<String>,
    pub description: Option<String>,
    pub tags: Vec<String>,
    pub parameters: Vec<ApiParameter>,
    pub request_body: Option<ApiRequestBody>,
    pub responses: Vec<ApiResponse>,
    pub deprecated: bool,
}

/// A parameter of an endpoint (in the path, the query, a header or a cookie).
#[derive(Debug, Clone)]
pub struct ApiParameter {
    pub name: String,
    pub location: String,
    pub required: bool,
    pub description: Option<String>,
    pub schema_type: String,
}

/// The request body of an endpoint.
#[derive(Debug, Clone)]
pub struct ApiRequestBody {
    pub required: bool,
    pub description: Option<String>,
    pub content_type: String,
    pub fields: Vec<SchemaField>,
    pub schema_type: String,
}

/// One documented response of an endpoint.
#[derive(Debug, Clone)]
pub struct ApiResponse {
    pub status: String,
    pub description: String,
    pub content_type: Option<String>,
    pub fields: Vec<SchemaField>,
    pub schema_type: Option<String>,
}

/// A single field extracted from a JSON schema's `properties`.
#[derive(Debug)]
pub struct SchemaField {
    pub name: String,
    pub field_type: String,
    pub required: bool,
    pub description: Option<String>,
    pub children: Vec<SchemaField>,
}

/// Clones of the fields, in order.
fn clone_fields(fields: &Vec<SchemaField>) -> (r: Vec<SchemaField>)
    ensures
        r@.len() == fields@.len(),
    decreases fields@, 1nat,
{
    let mut r: Vec<SchemaField> = Vec::new();
    let mut i: usize = 0;
    while i < fields.len()
        invariant
            i <= fields@.len(),
            r@.len() == i,
        decreases fields@.len() - i,
    {
        r.push(fields[i].clone());
        i = i + 1;
    }
    r
}

impl Clone for SchemaField {
    /// A copy of the field and, recursively, of its children.
    fn clone(&self) -> (r: Self)
        ensures
            r.name == self.name,
            r.field_type == self.field_type,
            r.required == self.required,
            r.description == self.description,
            r.children@.len() == self.children@.len(),
        decreases self, 0nat,
    {
        let description = match &self.description {
            Some(d) => Some(d.clone()),
            None => None,
        };
        SchemaField {
            name: self.name.clone(),
            field_type: self.field_type.clone(),
            required: self.required,
            description,
            children: clone_fields(&self.children),
        }
    }
}

} // verus!
