use oxidoc::config::OxidocConfig;
use oxidoc::openapi::pages::{build_api_pages_for_year, EndpointCode};
use oxidoc::openapi::ApiBuildContext;
use oxidoc::search_provider::SearchProvider;
use oxidoc::template::page::PageChrome;
use oxidoc::template_assets::AssetConfig;
use oxidoc::openapi::html::{
    generate_curl, generate_js, plain_code_block, render_api_index, render_endpoint_page,
    render_parameters, render_request_body, render_responses_docs, render_schema_field_table,
    snippet_sources,
};
use oxidoc::openapi::{
    endpoint_slug, endpoint_slug_with_prefix, generate_api_nav_groups, group_endpoints_by_tag,
    ApiEndpoint, ApiParameter, ApiRequestBody, ApiResponse, SchemaField,
};

fn endpoint(method: &str, path: &str, tags: &[&str], summary: Option<&str>) -> ApiEndpoint {
    ApiEndpoint {
        path: path.into(),
        method: method.into(),
        operation_id: None,
        summary: summary.map(|s| s.to_string()),
        description: None,
        tags: tags.iter().map(|t| t.to_string()).collect(),
        parameters: vec![],
        request_body: None,
        responses: vec![],
        deprecated: false,
    }
}

#[test]
fn endpoint_slug_generation() {
    let ep = ApiEndpoint {
        path: "/pets/{petId}".into(),
        method: "GET".into(),
        operation_id: None,
        summary: None,
        description: None,
        tags: vec![],
        parameters: vec![],
        request_body: None,
        responses: vec![],
        deprecated: false,
    };
    assert_eq!(endpoint_slug(&ep), "api/get-pets-petId");
}

#[test]
fn endpoint_slug_with_custom_prefix() {
    let ep = endpoint("POST", "//users/{id}/items", &[], None);
    assert_eq!(endpoint_slug_with_prefix(&ep, "ref"), "ref/post-users-id-items");
}

#[test]
fn group_by_tag_sorts_tags_and_keeps_order() {
    let eps = vec![
        endpoint("GET", "/b", &["pets"], None),
        endpoint("GET", "/a", &[], None),
        endpoint("POST", "/c", &["pets", "x"], None),
        endpoint("GET", "/d", &["owners"], None),
    ];
    let groups = group_endpoints_by_tag(&eps);
    let tags: Vec<&str> = groups.iter().map(|(t, _)| t.as_str()).collect();
    assert_eq!(tags, vec!["Untagged", "owners", "pets"]);
    let pets: Vec<&str> = groups[2].1.iter().map(|e| e.path.as_str()).collect();
    assert_eq!(pets, vec!["/b", "/c"]);
}

#[test]
fn nav_groups_single_tag_use_group_title() {
    let eps = vec![
        endpoint("GET", "/pets", &["pets"], Some("List all pets")),
        endpoint("POST", "/pets", &["pets"], None),
    ];
    let nav = generate_api_nav_groups(&eps, "API Reference", "api");
    assert_eq!(nav.len(), 1);
    assert_eq!(nav[0].title, "API Reference");
    assert_eq!(nav[0].pages.len(), 2);
    assert_eq!(nav[0].pages[0].title, "List all pets");
    assert_eq!(nav[0].pages[1].title, "POST /pets");
    assert_eq!(nav[0].pages[1].slug, "api/post-pets");
    assert_eq!(nav[0].pages[1].group, Some("pets".to_string()));
}

#[test]
fn nav_groups_many_tags_use_tag_titles() {
    let eps = vec![
        endpoint("GET", "/pets", &["pets"], None),
        endpoint("GET", "/users", &["users"], None),
    ];
    let nav = generate_api_nav_groups(&eps, "API Reference", "api");
    assert_eq!(nav.len(), 2);
    assert_eq!(nav[0].title, "pets");
    assert_eq!(nav[1].title, "users");
}

#[test]
fn api_index_lists_endpoints_by_tag() {
    let eps = vec![endpoint("GET", "/pets/{id}", &["pets"], Some("Get <pet>"))];
    let html = render_api_index(&eps, "Pet Store");
    assert_eq!(
        html,
        r#"<h1>Pet Store</h1><h2>pets</h2><table class="oxidoc-api-params"><thead><tr><th>Method</th><th>Path</th><th>Description</th></tr></thead><tbody><tr><td><span class="oxidoc-api-method oxidoc-api-method-get">GET</span></td><td><a href="/api/get-pets-id">/pets/{id}</a></td><td>Get &lt;pet&gt;</td></tr></tbody></table>"#
    );
}

#[test]
fn parameters_grouped_by_location() {
    let params = vec![
        ApiParameter {
            name: "limit".into(),
            location: "query".into(),
            required: false,
            description: Some("How many".into()),
            schema_type: "integer".into(),
        },
        ApiParameter {
            name: "id".into(),
            location: "path".into(),
            required: true,
            description: None,
            schema_type: "string".into(),
        },
    ];
    let mut html = String::new();
    render_parameters(&params, &mut html);
    let path_at = html.find("Path Parameters").unwrap();
    let query_at = html.find("Query Parameters").unwrap();
    assert!(path_at < query_at);
    assert!(html.contains(r#"<tr><td><code>id</code> <span class="oxidoc-api-required">required</span></td><td>string</td><td></td></tr>"#));
    assert!(!html.contains("Header Parameters"));
}

#[test]
fn nested_fields_are_indented() {
    let fields = vec![SchemaField {
        name: "owner".into(),
        field_type: "object".into(),
        required: true,
        description: None,
        children: vec![SchemaField {
            name: "address".into(),
            field_type: "object".into(),
            required: false,
            description: Some("Where".into()),
            children: vec![SchemaField {
                name: "city".into(),
                field_type: "string".into(),
                required: false,
                description: None,
                children: vec![],
            }],
        }],
    }];
    let mut html = String::new();
    render_schema_field_table(&fields, &mut html);
    assert!(html.contains(r#"<tr><td><code>owner</code>"#));
    assert!(html.contains(r#"<tr><td style="padding-left:2rem"><code>address</code>"#));
    assert!(html.contains(r#"<tr><td style="padding-left:3.25rem"><code>city</code>"#));
}

#[test]
fn request_body_and_responses() {
    let body = Some(ApiRequestBody {
        required: true,
        description: Some("A pet".into()),
        content_type: "application/json".into(),
        fields: vec![],
        schema_type: "object".into(),
    });
    let mut html = String::new();
    render_request_body(&body, &mut html);
    assert_eq!(
        html,
        r#"<div class="oxidoc-api-body-header"><h2 id="request-body">Body</h2><span class="oxidoc-api-required">required</span><span class="oxidoc-api-content-type">application/json</span></div><p>A pet</p>"#
    );

    let responses = vec![
        ApiResponse {
            status: "200".into(),
            description: "OK".into(),
            content_type: Some("application/json".into()),
            fields: vec![],
            schema_type: Some("array".into()),
        },
        ApiResponse {
            status: "404".into(),
            description: String::new(),
            content_type: None,
            fields: vec![],
            schema_type: None,
        },
    ];
    let mut out = String::new();
    render_responses_docs(&responses, &mut out);
    assert!(out.contains(r#"<button class="oxidoc-api-tab active" data-tab="resp-200" role="tab" aria-selected="true"><span class="oxidoc-api-status oxidoc-api-status-2xx">200</span></button>"#));
    assert!(out.contains(r#"aria-selected="false"><span class="oxidoc-api-status oxidoc-api-status-4xx">404</span>"#));
    assert!(out.contains(r#"<div class="oxidoc-api-response-meta"><code class="oxidoc-api-schema-type">array</code> <span class="oxidoc-api-content-type">application/json</span></div>"#));
    assert!(out.contains(r#"<div class="oxidoc-api-tab-panel" data-panel="resp-404"></div>"#));
}

#[test]
fn snippets_and_endpoint_page() {
    assert_eq!(generate_curl("GET", "https://x.test/p"), "curl -X GET 'https://x.test/p'");
    assert!(generate_js("GET", "https://x.test/p").starts_with("const response = await fetch('https://x.test/p', {\n  method: 'GET',"));
    let ep = endpoint("GET", "/pets", &["pets"], Some("List all pets"));
    let (curl, js) = snippet_sources(&ep, None);
    assert_eq!(curl, "curl -X GET 'https://api.example.com/pets'");
    assert!(js.contains("https://api.example.com/pets"));
    let curl_block = plain_code_block(&curl, "bash");
    assert_eq!(
        curl_block,
        r#"<pre><code class="language-bash">curl -X GET 'https://api.example.com/pets'</code></pre>"#
    );
    let js_block = plain_code_block(&js, "javascript");
    let html = render_endpoint_page(&ep, &curl_block, &js_block, r#"{"method":"GET"}"#);
    assert!(html.contains("GET"));
    assert!(html.contains("/pets"));
    assert!(html.contains("List all pets"));
    assert!(html.contains("api-playground"));
    assert!(html.contains("oxidoc-api-page"));
    assert!(html.contains("oxidoc-api-docs"));
    assert!(html.contains("oxidoc-api-panel"));
    assert!(html.contains("oxidoc-api-snippets"));
    assert!(html.contains(r#"data-props='{"method":"GET"}'"#));
}

fn sample_endpoints() -> Vec<ApiEndpoint> {
    let mut list = endpoint("GET", "/pets", &["pets"], Some("List all pets"));
    list.operation_id = Some("listPets".into());
    let mut create = endpoint("POST", "/pets", &["pets"], Some("Create a pet"));
    create.operation_id = Some("createPets".into());
    let mut show = endpoint("GET", "/pets/{petId}", &["pets"], Some("Info for a specific pet"));
    show.operation_id = Some("showPetById".into());
    vec![list, create, show]
}

#[test]
fn group_by_tag() {
    let endpoints = sample_endpoints();
    let groups = group_endpoints_by_tag(&endpoints);
    assert_eq!(groups.len(), 1);
    assert!(groups.iter().any(|(tag, _)| tag == "pets"));
    assert_eq!(groups.iter().find(|(tag, _)| tag == "pets").unwrap().1.len(), 3);
}

#[test]
fn nav_groups_from_endpoints() {
    let endpoints = sample_endpoints();
    let nav = generate_api_nav_groups(&endpoints, "API Reference", "api");
    assert_eq!(nav.len(), 1);
    assert_eq!(nav[0].title, "API Reference");
    assert_eq!(nav[0].pages.len(), 3);
}

fn rendered_endpoint(ep: &ApiEndpoint, base_url: Option<&str>) -> String {
    let (curl, js) = snippet_sources(ep, base_url);
    oxidoc::openapi::html::render_endpoint_html(
        ep,
        base_url,
        &oxidoc::utils::html_escape(&curl),
        &oxidoc::utils::html_escape(&js),
    )
}

fn list_pets_with_limit() -> ApiEndpoint {
    let mut ep = sample_endpoints().remove(0);
    ep.parameters = vec![ApiParameter {
        name: "limit".into(),
        location: "query".into(),
        required: false,
        description: Some("How many items to return".into()),
        schema_type: "integer".into(),
    }];
    ep
}

#[test]
fn render_endpoint_contains_sections() {
    let get_pets = list_pets_with_limit();
    let html = rendered_endpoint(&get_pets, None);
    assert!(html.contains("GET"));
    assert!(html.contains("/pets"));
    assert!(html.contains("List all pets"));
    assert!(html.contains("Parameters"));
    assert!(html.contains("limit"));
    assert!(html.contains("api-playground"));
    assert!(html.contains("oxidoc-api-page"));
    assert!(html.contains("oxidoc-api-docs"));
    assert!(html.contains("oxidoc-api-panel"));
}

#[test]
fn render_endpoint_has_code_snippets() {
    let get_pets = list_pets_with_limit();
    let html = rendered_endpoint(&get_pets, Some("https://api.example.com"));
    assert!(html.contains("curl"));
    assert!(html.contains("https://api.example.com/pets"));
    assert!(html.contains("oxidoc-api-snippets"));
}

#[test]
fn playground_props_are_sorted_json() {
    let mut ep = list_pets_with_limit();
    ep.path = "/pets/\"q\"".into();
    assert_eq!(
        oxidoc::openapi::html::playground_props(&ep, Some("https://api.example.com")),
        r#"{"base_url":"https://api.example.com","method":"GET","parameters":[{"in":"query","name":"limit","required":false,"type":"integer"}],"path":"/pets/\"q\""}"#
    );
    let bare = endpoint("DELETE", "/x", &[], None);
    assert_eq!(
        oxidoc::openapi::html::playground_props(&bare, None),
        r#"{"method":"DELETE","parameters":[],"path":"/x"}"#
    );
}

#[test]
fn playground_props_escape_control_characters() {
    let ep = endpoint("GET", "/a\tb\u{1}\\", &[], None);
    assert_eq!(
        oxidoc::openapi::html::playground_props(&ep, None),
        r#"{"method":"GET","parameters":[],"path":"/a\tb\u0001\\"}"#
    );
}

#[test]
fn build_api_pages_index_then_endpoints() {
    let config = OxidocConfig::new("Pets");
    let assets = AssetConfig::default();
    let provider = SearchProvider::Oxidoc { model_path: None };
    let ctx = ApiBuildContext { config: &config, assets: &assets, search_provider: &provider };
    let chrome = PageChrome {
        menu_toggle_html: String::new(),
        header_actions_html: String::new(),
        search_dialog_html: String::new(),
        scripts_html: String::new(),
        mermaid_script: String::new(),
    };
    let endpoints = sample_endpoints();
    let groups = generate_api_nav_groups(&endpoints, "API Reference", "api");
    let code: Vec<EndpointCode> = endpoints
        .iter()
        .map(|_| EndpointCode { curl_html: "CURL".into(), js_html: "JS".into() })
        .collect();
    let crumbs: Vec<String> = endpoints.iter().map(|_| String::new()).collect();
    let pages = build_api_pages_for_year(
        &endpoints, "Pet Store", None, &groups, "api", &ctx, "en", "", &chrome, &code, &crumbs,
        "2026",
    );
    assert_eq!(pages.len(), 4);
    assert_eq!(pages[0].0, "api");
    assert!(pages[0].1.contains("<title>Pet Store - Pets</title>"));
    assert_eq!(pages[1].0, "api/get-pets");
    assert!(pages[1].1.contains("<title>List all pets - Pets</title>"));
    assert!(pages[1].1.contains(r#"<pre><code class="language-bash">CURL</code></pre>"#));
    assert_eq!(pages[3].0, "api/get-pets-petId");
    assert!(pages[3].1.contains(r#"aria-current="page""#));
}
