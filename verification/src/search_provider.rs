//! Search provider selection and the tags each provider adds to a page.
use vstd::prelude::*;

use crate::error::OxidocError;
use crate::text::{push_char, push_decimal, str_eq, decimal};
use crate::utils::{escape_seq, push_escaped};

verus! {

broadcast use vstd::string::group_string_axioms;

/// The `[search]` section of the site configuration.
#[derive(Debug, Clone)]
pub struct SearchConfig {
    /// "oxidoc" (built in), "algolia", "typesense", "meilisearch" or "custom".
    pub provider: String,
    pub model_path: Option<String>,
    pub app_id: Option<String>,
    pub api_key: Option<String>,
    pub index_name: Option<String>,
    pub host: Option<String>,
    pub port: Option<u16>,
    pub protocol: Option<String>,
    pub collection_name: Option<String>,
    pub stylesheet: Option<String>,
    pub script: Option<String>,
    pub init_script: Option<String>,
    /// Whether the built-in search also runs semantic (vector) search.
    pub semantic: bool,
}

impl Default for SearchConfig {
    fn default() -> (r: Self)
        ensures
            r.provider@ == "oxidoc"@,
            r.model_path is None,
            r.app_id is None,
            r.api_key is None,
            r.index_name is None,
            r.host is None,
            r.port is None,
            r.protocol is None,
            r.collection_name is None,
            r.stylesheet is None,
            r.script is None,
            r.init_script is None,
            !r.semantic,
    {
        SearchConfig {
            provider: String::from_str("oxidoc"),
            model_path: None,
            app_id: None,
            api_key: None,
            index_name: None,
            host: None,
            port: None,
            protocol: None,
            collection_name: None,
            stylesheet: None,
            script: None,
            init_script: None,
            semantic: false,
        }
    }
}

/// Resolved search provider configuration.
#[derive(Debug, Clone)]
pub enum SearchProvider {
    /// Built-in Wasm search (lexical + semantic)
    Oxidoc { model_path: Option<String> },
    /// Algolia DocSearch
    Algolia { app_id: String, api_key: String, index_name: String },
    /// Typesense InstantSearch
    Typesense {
        api_key: String,
        host: String,
        port: u16,
        protocol: String,
        collection_name: String,
    },
    /// Meilisearch
    Meilisearch { host: String, api_key: String, index_name: String },
    /// Custom provider with raw script injection
    Custom { stylesheet: Option<String>, script: Option<String>, init_script: Option<String> },
}

/// Whether `e` reports that `provider` lacks `field`.
pub open spec fn reports_missing(e: OxidocError, provider: Seq<char>, field: Seq<char>) -> bool {
    match e {
        OxidocError::SearchProviderConfig { provider: p, field: f } => p@ == provider && f@ == field,
        _ => false,
    }
}

/// The field that the provider named in `c` needs first and lacks, if any, in the order
/// in which the provider's fields are checked.
pub open spec fn first_missing_field(c: SearchConfig) -> Option<Seq<char>> {
    if c.provider@ == "algolia"@ {
        if c.app_id is None {
            Some("app_id"@)
        } else if c.api_key is None {
            Some("api_key"@)
        } else if c.index_name is None {
            Some("index_name"@)
        } else {
            None
        }
    } else if c.provider@ == "typesense"@ {
        if c.api_key is None {
            Some("api_key"@)
        } else if c.host is None {
            Some("host"@)
        } else if c.port is None {
            Some("port"@)
        } else if c.protocol is None {
            Some("protocol"@)
        } else if c.collection_name is None {
            Some("collection_name"@)
        } else {
            None
        }
    } else if c.provider@ == "meilisearch"@ {
        if c.host is None {
            Some("host"@)
        } else if c.api_key is None {
            Some("api_key"@)
        } else if c.index_name is None {
            Some("index_name"@)
        } else {
            None
        }
    } else {
        None
    }
}

/// The provider that a configuration with all required fields resolves to. An unknown
/// provider name is taken as a custom provider with nothing configured.
pub open spec fn provider_of(c: SearchConfig) -> SearchProvider {
    if c.provider@ == "oxidoc"@ {
        SearchProvider::Oxidoc { model_path: c.model_path }
    } else if c.provider@ == "algolia"@ {
        SearchProvider::Algolia {
            app_id: c.app_id->0,
            api_key: c.api_key->0,
            index_name: c.index_name->0,
        }
    } else if c.provider@ == "typesense"@ {
        SearchProvider::Typesense {
            api_key: c.api_key->0,
            host: c.host->0,
            port: c.port->0,
            protocol: c.protocol->0,
            collection_name: c.collection_name->0,
        }
    } else if c.provider@ == "meilisearch"@ {
        SearchProvider::Meilisearch {
            host: c.host->0,
            api_key: c.api_key->0,
            index_name: c.index_name->0,
        }
    } else if c.provider@ == "custom"@ {
        SearchProvider::Custom {
            stylesheet: c.stylesheet,
            script: c.script,
            init_script: c.init_script,
        }
    } else {
        SearchProvider::Custom { stylesheet: None, script: None, init_script: None }
    }
}

fn copy_opt(o: &Option<String>) -> (r: Option<String>)
    ensures
        r == *o,
{
    match o {
        Some(s) => Some(s.clone()),
        None => None,
    }
}

fn missing_field(provider: &str, field: &str) -> (e: OxidocError)
    ensures
        reports_missing(e, provider@, field@),
{
    OxidocError::SearchProviderConfig {
        provider: String::from_str(provider),
        field: String::from_str(field),
    }
}

impl SearchProvider {
    /// Build a SearchProvider from configuration, validating all required fields:
    /// Algolia needs `app_id`, `api_key`, `index_name`; Typesense needs `api_key`,
    /// `host`, `port`, `protocol`, `collection_name`; Meilisearch needs `host`,
    /// `api_key`, `index_name`. The first missing field is reported.
    pub fn from_config(config: &SearchConfig) -> (r: Result<Self, OxidocError>)
        ensures
            match first_missing_field(*config) {
                Some(field) => r matches Err(e) && reports_missing(e, config.provider@, field),
                None => r == Ok::<SearchProvider, OxidocError>(provider_of(*config)),
            },
    {
        proof {
            reveal_strlit("oxidoc");
            reveal_strlit("algolia");
            reveal_strlit("typesense");
            reveal_strlit("meilisearch");
            reveal_strlit("custom");
            assert("oxidoc"@.len() == 6 && "custom"@.len() == 6 && "algolia"@.len() == 7);
            assert("typesense"@.len() == 9 && "meilisearch"@.len() == 11);
            assert("oxidoc"@[0] != "custom"@[0]);
        }
        let p = config.provider.as_str();
        if str_eq(p, "oxidoc") {
            Ok(SearchProvider::Oxidoc { model_path: copy_opt(&config.model_path) })
        } else if str_eq(p, "algolia") {
            let app_id = match &config.app_id {
                Some(v) => v.clone(),
                None => return Err(missing_field("algolia", "app_id")),
            };
            let api_key = match &config.api_key {
                Some(v) => v.clone(),
                None => return Err(missing_field("algolia", "api_key")),
            };
            let index_name = match &config.index_name {
                Some(v) => v.clone(),
                None => return Err(missing_field("algolia", "index_name")),
            };
            Ok(SearchProvider::Algolia { app_id, api_key, index_name })
        } else if str_eq(p, "typesense") {
            let api_key = match &config.api_key {
                Some(v) => v.clone(),
                None => return Err(missing_field("typesense", "api_key")),
            };
            let host = match &config.host {
                Some(v) => v.clone(),
                None => return Err(missing_field("typesense", "host")),
            };
            let port = match config.port {
                Some(v) => v,
                None => return Err(missing_field("typesense", "port")),
            };
            let protocol = match &config.protocol {
                Some(v) => v.clone(),
                None => return Err(missing_field("typesense", "protocol")),
            };
            let collection_name = match &config.collection_name {
                Some(v) => v.clone(),
                None => return Err(missing_field("typesense", "collection_name")),
            };
            Ok(SearchProvider::Typesense { api_key, host, port, protocol, collection_name })
        } else if str_eq(p, "meilisearch") {
            let host = match &config.host {
                Some(v) => v.clone(),
                None => return Err(missing_field("meilisearch", "host")),
            };
            let api_key = match &config.api_key {
                Some(v) => v.clone(),
                None => return Err(missing_field("meilisearch", "api_key")),
            };
            let index_name = match &config.index_name {
                Some(v) => v.clone(),
                None => return Err(missing_field("meilisearch", "index_name")),
            };
            Ok(SearchProvider::Meilisearch { host, api_key, index_name })
        } else if str_eq(p, "custom") {
            Ok(
                SearchProvider::Custom {
                    stylesheet: copy_opt(&config.stylesheet),
                    script: copy_opt(&config.script),
                    init_script: copy_opt(&config.init_script),
                },
            )
        } else {
            Ok(SearchProvider::Custom { stylesheet: None, script: None, init_script: None })
        }
    }

    /// Returns true only for the built-in Oxidoc provider.
    pub fn is_builtin(&self) -> (r: bool)
        ensures
            r == (self is Oxidoc),
    {
        match self {
            SearchProvider::Oxidoc { .. } => true,
            _ => false,
        }
    }
}

pub const ALGOLIA_CSS: &'static str = "    <link rel=\"stylesheet\" href=\"https://cdn.jsdelivr.net/npm/@docsearch/css@3\">";

pub const TYPESENSE_CSS: &'static str = "    <link rel=\"stylesheet\" href=\"https://cdn.jsdelivr.net/npm/typesense-docsearch-css@0.4\">";

pub const MEILISEARCH_CSS: &'static str = "    <link rel=\"stylesheet\" href=\"https://cdn.jsdelivr.net/npm/@meilisearch/docs-searchbar.js@latest/dist/docs-searchbar.min.css\">";

pub const LINK_OPEN: &'static str = "    <link rel=\"stylesheet\" href=\"";

pub const TAG_CLOSE: &'static str = "\">";

pub const ALGOLIA_JS_1: &'static str = "    <script src=\"https://cdn.jsdelivr.net/npm/@docsearch/js@3\"></script>\n    <script>\ndocsearch({\n  appId: '";

pub const ALGOLIA_JS_2: &'static str = "',\n  apiKey: '";

pub const ALGOLIA_JS_3: &'static str = "',\n  indexName: '";

pub const ALGOLIA_JS_4: &'static str = "',\n  container: '[data-oxidoc-search]'\n});\n    </script>";

pub const TYPESENSE_JS_1: &'static str = "    <script src=\"https://cdn.jsdelivr.net/npm/typesense-docsearch.js@3/dist/cdn/typesense-docsearch.min.js\"></script>\n    <script>\ntypesenseDocsearch({\n  typesenseCollectionName: '";

pub const TYPESENSE_JS_2: &'static str = "',\n  typesenseServerConfig: {\n    apiKey: '";

pub const TYPESENSE_JS_3: &'static str = "',\n    nodes: [{\n      host: '";

pub const TYPESENSE_JS_4: &'static str = "',\n      port: ";

pub const TYPESENSE_JS_5: &'static str = ",\n      protocol: '";

pub const TYPESENSE_JS_6: &'static str = "'\n    }]\n  },\n  container: '[data-oxidoc-search]'\n});\n    </script>";

pub const MEILI_JS_1: &'static str = "    <script src=\"https://cdn.jsdelivr.net/npm/@meilisearch/docs-searchbar.js@latest\"></script>\n    <script>\ndocsSearchBar({\n  hostUrl: '";

pub const MEILI_JS_2: &'static str = "',\n  apiKey: '";

pub const MEILI_JS_3: &'static str = "',\n  indexUid: '";

pub const MEILI_JS_4: &'static str = "',\n  inputSelector: '[data-oxidoc-search]'\n});\n    </script>";

pub const SCRIPT_SRC_OPEN: &'static str = "    <script src=\"";

pub const SCRIPT_SRC_CLOSE: &'static str = "\"></script>";

pub const SCRIPT_OPEN: &'static str = "    <script>";

pub const SCRIPT_CLOSE: &'static str = "</script>";

pub const SEARCH_CONTAINER: &'static str = "<div data-oxidoc-search></div>";

/// The `<head>` tags a provider needs.
pub open spec fn head_tags_of(p: SearchProvider) -> Seq<char> {
    match p {
        SearchProvider::Oxidoc { .. } => Seq::<char>::empty(),
        SearchProvider::Algolia { .. } => ALGOLIA_CSS@,
        SearchProvider::Typesense { .. } => TYPESENSE_CSS@,
        SearchProvider::Meilisearch { .. } => MEILISEARCH_CSS@,
        SearchProvider::Custom { stylesheet, .. } => match stylesheet {
            Some(css) => LINK_OPEN@ + escape_seq(css@, false) + TAG_CLOSE@,
            None => Seq::<char>::empty(),
        },
    }
}

/// The scripts a provider adds at the end of `<body>`.
pub open spec fn scripts_of(p: SearchProvider) -> Seq<char> {
    match p {
        SearchProvider::Oxidoc { .. } => Seq::<char>::empty(),
        SearchProvider::Algolia { app_id, api_key, index_name } => ALGOLIA_JS_1@ + escape_seq(
            app_id@,
            false,
        ) + ALGOLIA_JS_2@ + escape_seq(api_key@, false) + ALGOLIA_JS_3@ + escape_seq(
            index_name@,
            false,
        ) + ALGOLIA_JS_4@,
        SearchProvider::Typesense { api_key, host, port, protocol, collection_name } =>
            TYPESENSE_JS_1@ + escape_seq(collection_name@, false) + TYPESENSE_JS_2@ + escape_seq(
            api_key@,
            false,
        ) + TYPESENSE_JS_3@ + escape_seq(host@, false) + TYPESENSE_JS_4@ + decimal(port as nat)
            + TYPESENSE_JS_5@ + escape_seq(protocol@, false) + TYPESENSE_JS_6@,
        SearchProvider::Meilisearch { host, api_key, index_name } => MEILI_JS_1@ + escape_seq(
            host@,
            false,
        ) + MEILI_JS_2@ + escape_seq(api_key@, false) + MEILI_JS_3@ + escape_seq(
            index_name@,
            false,
        ) + MEILI_JS_4@,
        SearchProvider::Custom { script, init_script, .. } => (match script {
            Some(url) => SCRIPT_SRC_OPEN@ + escape_seq(url@, false) + SCRIPT_SRC_CLOSE@ + seq!['\n'],
            None => Seq::<char>::empty(),
        }) + (match init_script {
            Some(init) => SCRIPT_OPEN@ + init@ + SCRIPT_CLOSE@,
            None => Seq::<char>::empty(),
        }),
    }
}

impl SearchProvider {
    /// Render CSS `<link>` tags for `<head>`.
    pub fn render_head_tags(&self) -> (r: String)
        ensures
            r@ == head_tags_of(*self),
    {
        match self {
            SearchProvider::Oxidoc { .. } => String::new(),
            SearchProvider::Algolia { .. } => String::from_str(ALGOLIA_CSS),
            SearchProvider::Typesense { .. } => String::from_str(TYPESENSE_CSS),
            SearchProvider::Meilisearch { .. } => String::from_str(MEILISEARCH_CSS),
            SearchProvider::Custom { stylesheet: Some(css_url), .. } => {
                let mut r = String::from_str(LINK_OPEN);
                push_escaped(css_url.as_str(), &mut r);
                r.append(TAG_CLOSE);
                r
            },
            SearchProvider::Custom { .. } => String::new(),
        }
    }

    /// Render `<script>` tags for the end of `<body>`. Configuration values are
    /// HTML-escaped; a custom provider's init script is inserted as written.
    pub fn render_scripts(&self) -> (r: String)
        ensures
            r@ == scripts_of(*self),
    {
        match self {
            SearchProvider::Oxidoc { .. } => String::new(),
            SearchProvider::Algolia { app_id, api_key, index_name } => {
                let mut r = String::from_str(ALGOLIA_JS_1);
                push_escaped(app_id.as_str(), &mut r);
                r.append(ALGOLIA_JS_2);
                push_escaped(api_key.as_str(), &mut r);
                r.append(ALGOLIA_JS_3);
                push_escaped(index_name.as_str(), &mut r);
                r.append(ALGOLIA_JS_4);
                r
            },
            SearchProvider::Typesense { api_key, host, port, protocol, collection_name } => {
                let mut r = String::from_str(TYPESENSE_JS_1);
                push_escaped(collection_name.as_str(), &mut r);
                r.append(TYPESENSE_JS_2);
                push_escaped(api_key.as_str(), &mut r);
                r.append(TYPESENSE_JS_3);
                push_escaped(host.as_str(), &mut r);
                r.append(TYPESENSE_JS_4);
                push_decimal(&mut r, *port as u128);
                r.append(TYPESENSE_JS_5);
                push_escaped(protocol.as_str(), &mut r);
                r.append(TYPESENSE_JS_6);
                r
            },
            SearchProvider::Meilisearch { host, api_key, index_name } => {
                let mut r = String::from_str(MEILI_JS_1);
                push_escaped(host.as_str(), &mut r);
                r.append(MEILI_JS_2);
                push_escaped(api_key.as_str(), &mut r);
                r.append(MEILI_JS_3);
                push_escaped(index_name.as_str(), &mut r);
                r.append(MEILI_JS_4);
                r
            },
            SearchProvider::Custom { script, init_script, .. } => {
                let mut r = String::new();
                if let Some(script_url) = script {
                    r.append(SCRIPT_SRC_OPEN);
                    push_escaped(script_url.as_str(), &mut r);
                    r.append(SCRIPT_SRC_CLOSE);
                    push_char(&mut r, '\n');
                }
                if let Some(init) = init_script {
                    r.append(SCRIPT_OPEN);
                    r.append(init.as_str());
                    r.append(SCRIPT_CLOSE);
                }
                r
            },
        }
    }

    /// Render placeholder HTML for external providers.
    pub fn search_container_html(&self) -> (r: String)
        ensures
            self is Oxidoc ==> r@ == Seq::<char>::empty(),
            !(self is Oxidoc) ==> r@ == SEARCH_CONTAINER@,
    {
        match self {
            SearchProvider::Oxidoc { .. } => String::new(),
            _ => String::from_str(SEARCH_CONTAINER),
        }
    }
}

} // verus!
