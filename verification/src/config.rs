//! The parts of the site configuration (`oxidoc.toml`) and of the crawled navigation
//! that the renderers read.
use vstd::prelude::*;

use crate::search_provider::SearchConfig;
use crate::versioning::VersioningConfig;

verus! {

broadcast use vstd::string::group_string_axioms;

/// The `[project]` section.
#[derive(Debug, Clone)]
pub struct ProjectConfig {
    pub name: String,
    pub description: Option<String>,
    pub base_url: Option<String>,
    pub logo: Option<String>,
    /// Base URL of the sources, for "Edit this page" links.
    pub edit_url: Option<String>,
    /// Label of the "Edit this page" link.
    pub edit_label: String,
    /// Path of the site's icon.
    pub favicon: Option<String>,
}

/// The `[routing]` section.
#[derive(Debug, Clone)]
pub struct RoutingConfig {
    /// The links of the header navigation.
    pub header_links: Vec<HeaderLink>,
}

/// The `[analytics]` section.
#[derive(Debug, Clone)]
pub struct AnalyticsConfig {
    /// A custom analytics script (e.g. GTM, Plausible), inserted as written.
    pub script: Option<String>,
    /// A Google Analytics measurement id.
    pub google_analytics: Option<String>,
}

/// A link in the footer or in the header.
#[derive(Debug, Clone)]
pub struct LinkConfig {
    pub label: String,
    pub href: String,
}

/// A link in the header navigation.
#[derive(Debug, Clone)]
pub struct HeaderLink {
    pub label: String,
    pub href: String,
}

/// The `[footer]` section.
#[derive(Debug, Clone)]
pub struct FooterConfig {
    pub copyright_owner: Option<String>,
    pub copyright_owner_url: Option<String>,
    pub links: Vec<LinkConfig>,
}

/// The `[attribution]` section.
#[derive(Debug, Clone)]
pub struct AttributionConfig {
    /// Whether the footer says "Built with Oxidoc".
    pub oxidoc: bool,
}

/// A configured redirect.
#[derive(Debug, Clone)]
pub struct RedirectEntry {
    pub from: String,
    pub to: String,
}

/// The site configuration.
#[derive(Debug, Clone)]
pub struct OxidocConfig {
    pub project: ProjectConfig,
    pub analytics: AnalyticsConfig,
    pub footer: FooterConfig,
    pub attribution: AttributionConfig,
    pub search: SearchConfig,
    pub versioning: VersioningConfig,
    pub redirects: Vec<RedirectEntry>,
    pub routing: RoutingConfig,
}

impl OxidocConfig {
    /// The configuration of a project with the given name and every other setting at
    /// its default: no description, base URL, logo, icon or edit link ("Edit this page"
    /// as the edit label), no analytics, an empty footer, the Oxidoc attribution on, the
    /// built-in search without semantic search, no versions, no redirects and no header
    /// links.
    pub fn new(name: &str) -> (r: Self)
        ensures
            r.project.name@ == name@,
            r.project.description is None,
            r.project.base_url is None,
            r.project.logo is None,
            r.project.edit_url is None,
            r.project.edit_label@ == "Edit this page"@,
            r.analytics.script is None,
            r.analytics.google_analytics is None,
            r.footer.copyright_owner is None,
            r.footer.copyright_owner_url is None,
            r.footer.links@.len() == 0,
            r.attribution.oxidoc,
            r.search.provider@ == "oxidoc"@,
            r.versioning.versions@.len() == 0,
            r.redirects@.len() == 0,
            r.project.favicon is None,
            r.routing.header_links@.len() == 0,
            !r.search.semantic,
    {
        OxidocConfig {
            project: ProjectConfig {
                name: String::from_str(name),
                description: None,
                base_url: None,
                logo: None,
                edit_url: None,
                edit_label: String::from_str("Edit this page"),
                favicon: None,
            },
            analytics: AnalyticsConfig { script: None, google_analytics: None },
            footer: FooterConfig { copyright_owner: None, copyright_owner_url: None, links: Vec::new() },
            attribution: AttributionConfig { oxidoc: true },
            search: SearchConfig::default(),
            versioning: VersioningConfig::default(),
            redirects: Vec::new(),
            routing: RoutingConfig { header_links: Vec::new() },
        }
    }
}

/// A documentation page found by the crawler.
#[derive(Debug, Clone)]
pub struct PageEntry {
    pub title: String,
    pub short_title: String,
    pub slug: String,
    pub file_path: String,
    pub group: Option<String>,
}

/// A titled group of pages in the navigation.
#[derive(Debug, Clone)]
pub struct NavGroup {
    pub title: String,
    pub pages: Vec<PageEntry>,
}

} // verus!
