//! Oxidoc: a documentation site generator. This crate holds its rendering and site
//! logic: HTML escaping and anchors, page templates (header, sidebar, footer, meta bar,
//! table of contents, 404 page), themes and their CSS variables, search providers,
//! versioning, the OpenAPI reference pages, the site-wide files (sitemap, robots.txt,
//! redirects), and the API Playground's request building and code snippets.
use vstd::prelude::*;

pub mod text;
pub mod layout;
pub mod utils;
pub mod suggest;
pub mod keyboard;
pub mod error;
pub mod config;
pub mod search_provider;
pub mod versioning;
pub mod theme;
pub mod toc;
pub mod template_assets;
pub mod template_parts;
pub mod template;
pub mod template_404;
pub mod document;
pub mod attributes;
pub mod renderer;
pub mod landing;
pub mod page_extract;
pub mod search_index;
pub mod term_stats;
pub mod outputs;
pub mod git_meta;
pub mod openapi;
pub mod sri;
pub mod auth;
pub mod codegen;
pub mod request;
pub mod styles;
pub mod playground;
pub mod playground_logic;
pub mod response;

verus! {

} // verus!
