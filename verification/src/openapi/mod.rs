//! OpenAPI reference pages: endpoint types, navigation and HTML rendering.
pub mod types;
pub mod nav;
pub mod html;
pub mod pages;
pub mod extract;

pub use nav::{ApiBuildContext, endpoint_slug, endpoint_slug_with_prefix, generate_api_nav_groups, group_endpoints_by_tag};
pub use types::{ApiEndpoint, ApiParameter, ApiRequestBody, ApiResponse, SchemaField};
