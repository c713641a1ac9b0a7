//! HTML of the API reference: the index page and the parts of an endpoint page.
use vstd::prelude::*;

use super::nav::{endpoint_slug, group_endpoints_by_tag, slug_with_prefix, tag_groups};
use super::types::{ApiEndpoint, ApiParameter, ApiRequestBody, ApiResponse, SchemaField};
use super::nav::{endpoint_title, endpoint_title_exec};
use crate::layout::{contains_text, holds_at, laid_out, lemma_holds_within, lemma_laid_out, pieces_len};
use crate::text::{
    chars_of, concat_map, decimal, lemma_concat_map_step, lemma_filter_push, push_decimal, str_eq,
};
use crate::template::page::{json_string, json_string_of, opt_chars};
use crate::utils::{escape_seq, lowercase_of, push_escaped, str_to_lowercase};

verus! {

broadcast use vstd::string::group_string_axioms;

/// The HTML-escaped form of `s`.
pub open spec fn esc(s: Seq<char>) -> Seq<char> {
    escape_seq(s, false)
}

// ---------------------------------------------------------------------------
// Index page
// ---------------------------------------------------------------------------

pub const INDEX_TABLE_OPEN: &'static str = "<table class=\"oxidoc-api-params\"><thead><tr><th>Method</th><th>Path</th><th>Description</th></tr></thead><tbody>";

pub const TABLE_CLOSE: &'static str = "</tbody></table>";

pub const METHOD_SPAN_OPEN: &'static str = "<span class=\"oxidoc-api-method oxidoc-api-method-";

pub const INDEX_ROW_LINK: &'static str = "</span></td><td><a href=\"/";

/// The row of one endpoint in the index: method badge, linked path and summary.
pub open spec fn index_row(ep: ApiEndpoint) -> Seq<char> {
    "<tr><td>"@ + METHOD_SPAN_OPEN@ + esc(lowercase_of(ep.method@)) + "\">"@ + esc(ep.method@)
        + INDEX_ROW_LINK@ + esc(slug_with_prefix(ep, "api"@)) + "\">"@ + esc(ep.path@)
        + "</a></td><td>"@ + esc(
        match ep.summary {
            Some(s) => s@,
            None => Seq::<char>::empty(),
        },
    ) + "</td></tr>"@
}

/// The section of one tag in the index: a heading and a table of its endpoints.
pub open spec fn index_group(g: (Seq<char>, Seq<ApiEndpoint>)) -> Seq<char> {
    "<h2>"@ + esc(g.0) + "</h2>"@ + INDEX_TABLE_OPEN@ + concat_map(g.1, |ep: ApiEndpoint| index_row(ep))
        + TABLE_CLOSE@
}

/// The API index page: the title, then one section per tag in the order of `tag_groups`.
pub open spec fn api_index_html(eps: Seq<ApiEndpoint>, title: Seq<char>) -> Seq<char> {
    "<h1>"@ + esc(title) + "</h1>"@ + concat_map(
        tag_groups(eps),
        |g: (Seq<char>, Seq<ApiEndpoint>)| index_group(g),
    )
}

/// Law: the section of one tag on the API index is exactly its heading and a table
/// holding one row per endpoint of the tag, the row of `g.1[k]` in the k-th place,
/// and nothing else: no endpoint of the tag is left out, none is repeated.
pub proof fn law_index_group_one_row_per_endpoint(g: (Seq<char>, Seq<ApiEndpoint>))
    ensures
        laid_out(
            index_group(g),
            "<h2>"@ + esc(g.0) + "</h2>"@ + INDEX_TABLE_OPEN@,
            g.1,
            |ep: ApiEndpoint| index_row(ep),
            TABLE_CLOSE@,
        ),
{
    lemma_laid_out("<h2>"@ + esc(g.0) + "</h2>"@ + INDEX_TABLE_OPEN@, g.1, |ep: ApiEndpoint| index_row(ep), TABLE_CLOSE@);
}

/// Law: the API index is exactly its title and then one section per tag group of the
/// endpoints, in the order of the groups, and nothing else.
pub proof fn law_api_index_one_section_per_tag(eps: Seq<ApiEndpoint>, title: Seq<char>)
    ensures
        laid_out(
            api_index_html(eps, title),
            "<h1>"@ + esc(title) + "</h1>"@,
            tag_groups(eps),
            |g: (Seq<char>, Seq<ApiEndpoint>)| index_group(g),
            Seq::<char>::empty(),
        ),
{
    let head = "<h1>"@ + esc(title) + "</h1>"@;
    let f = |g: (Seq<char>, Seq<ApiEndpoint>)| index_group(g);
    lemma_laid_out(head, tag_groups(eps), f, Seq::<char>::empty());
    assert(head + crate::text::concat_map(tag_groups(eps), f) + Seq::<char>::empty() =~= api_index_html(eps, title));
}

/// Law: every endpoint has its row, with its method, its link and its summary, on the
/// API index: in the section of its tag.
pub proof fn law_api_index_lists_every_endpoint(eps: Seq<ApiEndpoint>, title: Seq<char>, j: int)
    requires
        0 <= j < eps.len(),
    ensures
        contains_text(api_index_html(eps, title), index_row(eps[j])),
{
    let gs = tag_groups(eps);
    super::nav::lemma_tag_groups_grouped(eps);
    let t = super::nav::tag_of(eps[j]);
    assert(super::nav::tag_listed(gs, t));
    let k = choose|k: int| 0 <= k < gs.len() && #[trigger] gs[k].0 == t;
    let members = gs[k].1;
    assert(members == eps.filter(super::nav::has_tag(t)));
    eps.lemma_filter_contains(super::nav::has_tag(t), j);
    let m = choose|m: int| 0 <= m < members.len() && members[m] == eps[j];
    let fg = |g: (Seq<char>, Seq<ApiEndpoint>)| index_group(g);
    let fr = |ep: ApiEndpoint| index_row(ep);
    law_api_index_one_section_per_tag(eps, title);
    law_index_group_one_row_per_endpoint(gs[k]);
    let head = "<h1>"@ + esc(title) + "</h1>"@;
    let at = (head.len() + pieces_len(gs.take(k), fg)) as int;
    assert(holds_at(api_index_html(eps, title), at, index_group(gs[k])));
    let ghead = "<h2>"@ + esc(gs[k].0) + "</h2>"@ + INDEX_TABLE_OPEN@;
    let i = (ghead.len() + pieces_len(members.take(m), fr)) as int;
    assert(holds_at(index_group(gs[k]), i, index_row(members[m])));
    lemma_holds_within(api_index_html(eps, title), at, index_group(gs[k]), i, index_row(eps[j]));
}

/// The link of an endpoint on the API index: its page under `/api`, labelled with its
/// path.
pub open spec fn index_link(ep: ApiEndpoint) -> Seq<char> {
    INDEX_ROW_LINK@ + esc(slug_with_prefix(ep, "api"@)) + "\">"@ + esc(ep.path@)
}

/// Law: the row of an endpoint on the API index links the endpoint's page.
pub proof fn law_index_row_links_endpoint(ep: ApiEndpoint)
    ensures
        contains_text(index_row(ep), index_link(ep)),
{
    let pre = "<tr><td>"@ + METHOD_SPAN_OPEN@ + esc(lowercase_of(ep.method@)) + "\">"@ + esc(ep.method@);
    let post = "</a></td><td>"@ + esc(
        match ep.summary {
            Some(s) => s@,
            None => Seq::<char>::empty(),
        },
    ) + "</td></tr>"@;
    let l = index_link(ep);
    assert(index_row(ep) =~= pre + l + post);
    assert(index_row(ep).subrange(pre.len() as int, (pre.len() + l.len()) as int) =~= l);
    assert(holds_at(index_row(ep), pre.len() as int, l));
}

/// Law: every endpoint's page is linked from the API index.
pub proof fn law_api_index_links_every_endpoint(eps: Seq<ApiEndpoint>, title: Seq<char>, j: int)
    requires
        0 <= j < eps.len(),
    ensures
        contains_text(api_index_html(eps, title), index_link(eps[j])),
{
    law_api_index_lists_every_endpoint(eps, title, j);
    law_index_row_links_endpoint(eps[j]);
    let r = api_index_html(eps, title);
    let at = choose|at: int| holds_at(r, at, index_row(eps[j]));
    let i = choose|i: int| holds_at(index_row(eps[j]), i, index_link(eps[j]));
    lemma_holds_within(r, at, index_row(eps[j]), i, index_link(eps[j]));
}

fn push_index_row(html: &mut String, ep: &ApiEndpoint)
    ensures
        final(html)@ == old(html)@ + index_row(*ep),
{
    html.append("<tr><td>");
    html.append(METHOD_SPAN_OPEN);
    let method = str_to_lowercase(ep.method.as_str());
    push_escaped(method.as_str(), html);
    html.append("\">");
    push_escaped(ep.method.as_str(), html);
    html.append(INDEX_ROW_LINK);
    let slug = endpoint_slug(ep);
    push_escaped(slug.as_str(), html);
    html.append("\">");
    push_escaped(ep.path.as_str(), html);
    html.append("</a></td><td>");
    if let Some(s) = &ep.summary {
        push_escaped(s.as_str(), html);
    }
    html.append("</td></tr>");
}

fn push_index_group(html: &mut String, tag: &String, eps: &Vec<&ApiEndpoint>)
    ensures
        final(html)@ == old(html)@ + index_group((tag@, super::nav::deref_all(eps@))),
{
    let ghost members = super::nav::deref_all(eps@);
    let ghost fr = |ep: ApiEndpoint| index_row(ep);
    html.append("<h2>");
    push_escaped(tag.as_str(), html);
    html.append("</h2>");
    html.append(INDEX_TABLE_OPEN);
    let ghost row_start = html@;
    let mut m: usize = 0;
    while m < eps.len()
        invariant
            m <= eps@.len(),
            members == super::nav::deref_all(eps@),
            fr == (|ep: ApiEndpoint| index_row(ep)),
            html@ == row_start + concat_map(members.take(m as int), fr),
        decreases eps@.len() - m,
    {
        push_index_row(html, eps[m]);
        proof {
            lemma_concat_map_step(members, fr, m as int);
        }
        m = m + 1;
    }
    assert(members.take(m as int) =~= members);
    html.append(TABLE_CLOSE);
}

/// Render the API index page listing all endpoints grouped by tag.
pub fn render_api_index(endpoints: &[ApiEndpoint], spec_title: &str) -> (r: String)
    ensures
        r@ == api_index_html(endpoints@, spec_title@),
{
    let mut html = String::from_str("<h1>");
    push_escaped(spec_title, &mut html);
    html.append("</h1>");
    let by_tag = group_endpoints_by_tag(endpoints);
    let ghost gs = super::nav::group_views(by_tag@);
    let ghost fg = |g: (Seq<char>, Seq<ApiEndpoint>)| index_group(g);
    let ghost start = html@;
    let mut k: usize = 0;
    while k < by_tag.len()
        invariant
            k <= by_tag@.len(),
            gs == super::nav::group_views(by_tag@),
            gs == tag_groups(endpoints@),
            fg == (|g: (Seq<char>, Seq<ApiEndpoint>)| index_group(g)),
            html@ == start + concat_map(gs.take(k as int), fg),
        decreases by_tag@.len() - k,
    {
        push_index_group(&mut html, &by_tag[k].0, &by_tag[k].1);
        proof {
            lemma_concat_map_step(gs, fg, k as int);
        }
        k = k + 1;
    }
    assert(gs.take(k as int) =~= gs);
    html
}

// ---------------------------------------------------------------------------
// Field tables
// ---------------------------------------------------------------------------

pub const FIELD_TABLE_OPEN: &'static str = "<table class=\"oxidoc-api-field-table\"><thead><tr><th>Name</th><th>Type</th><th>Description</th></tr></thead><tbody>";

pub const REQUIRED_BADGE: &'static str = " <span class=\"oxidoc-api-required\">required</span>";

pub const OPTIONAL_BADGE: &'static str = " <span class=\"oxidoc-api-optional\">?</span>";

/// The badge after a name: "required" or "?".
pub open spec fn badge(required: bool) -> Seq<char> {
    if required {
        REQUIRED_BADGE@
    } else {
        OPTIONAL_BADGE@
    }
}

/// An optional description, escaped; nothing when absent.
pub open spec fn description_html(d: Option<String>) -> Seq<char> {
    match d {
        Some(s) => esc(s@),
        None => Seq::<char>::empty(),
    }
}

/// The decimal notation of `q / 4` for a whole number of quarters: the whole part,
/// then `.25`, `.5` or `.75` when there is a fraction.
pub open spec fn quarters_decimal(q: nat) -> Seq<char> {
    decimal(q / 4) + (if q % 4 == 1 {
        ".25"@
    } else if q % 4 == 2 {
        ".5"@
    } else if q % 4 == 3 {
        ".75"@
    } else {
        Seq::<char>::empty()
    })
}

/// The depth of the children of a field at depth `d` (it stays at `usize::MAX`).
pub open spec fn next_depth(d: nat) -> nat {
    if d < usize::MAX {
        d + 1
    } else {
        d
    }
}

/// The indentation of a nested row: none at depth 0, else a left padding of
/// `0.75 + 1.25 * depth` rem.
pub open spec fn row_indent(depth: nat) -> Seq<char> {
    if depth == 0 {
        Seq::<char>::empty()
    } else {
        " style=\"padding-left:"@ + quarters_decimal(3 + 5 * depth) + "rem\""@
    }
}

/// The table row of one field.
pub open spec fn field_row(f: SchemaField, depth: nat) -> Seq<char> {
    "<tr><td"@ + row_indent(depth) + "><code>"@ + esc(f.name@) + "</code>"@ + badge(f.required)
        + "</td><td>"@ + esc(f.field_type@) + "</td><td>"@ + description_html(f.description)
        + "</td></tr>"@
}

/// The rows of the fields, each followed by the rows of its children one level deeper.
pub open spec fn field_rows(fields: Seq<SchemaField>, depth: nat) -> Seq<char>
    decreases fields,
{
    if fields.len() == 0 {
        Seq::<char>::empty()
    } else {
        let f = fields.last();
        proof {
            assert(decreases_to!(fields => fields[fields.len() - 1]));
        }
        field_rows(fields.drop_last(), depth) + field_row(f, depth) + field_rows(
            f.children@,
            next_depth(depth),
        )
    }
}

/// The table of the fields: nothing when there are none.
pub open spec fn field_table(fields: Seq<SchemaField>) -> Seq<char> {
    if fields.len() == 0 {
        Seq::<char>::empty()
    } else {
        FIELD_TABLE_OPEN@ + field_rows(fields, 0) + TABLE_CLOSE@
    }
}

/// Appends `row_indent(depth)`.
fn push_row_indent(html: &mut String, depth: usize)
    ensures
        final(html)@ == old(html)@ + row_indent(depth as nat),
{
    if depth > 0 {
        html.append(" style=\"padding-left:");
        let d = depth as u128;
        let whole = d + (d + 3) / 4;
        let rest = (d + 3) % 4;
        assert((3 + 5 * d) / 4 == whole && (3 + 5 * d) % 4 == rest);
        push_decimal(html, whole);
        if rest == 1 {
            html.append(".25");
        } else if rest == 2 {
            html.append(".5");
        } else if rest == 3 {
            html.append(".75");
        }
        html.append("rem\"");
    }
}

fn push_field_row(html: &mut String, f: &SchemaField, depth: usize)
    ensures
        final(html)@ == old(html)@ + field_row(*f, depth as nat),
{
    html.append("<tr><td");
    push_row_indent(html, depth);
    html.append("><code>");
    push_escaped(f.name.as_str(), html);
    html.append("</code>");
    if f.required {
        html.append(REQUIRED_BADGE);
    } else {
        html.append(OPTIONAL_BADGE);
    }
    html.append("</td><td>");
    push_escaped(f.field_type.as_str(), html);
    html.append("</td><td>");
    if let Some(d) = &f.description {
        push_escaped(d.as_str(), html);
    }
    html.append("</td></tr>");
}

fn render_field_rows(fields: &Vec<SchemaField>, depth: usize, html: &mut String)
    ensures
        final(html)@ == old(html)@ + field_rows(fields@, depth as nat),
    decreases fields@,
{
    let ghost start = html@;
    let mut i: usize = 0;
    while i < fields.len()
        invariant
            i <= fields@.len(),
            html@ == start + field_rows(fields@.take(i as int), depth as nat),
        decreases fields@.len() - i,
    {
        let f = &fields[i];
        push_field_row(html, f, depth);
        let next: usize = if depth < usize::MAX {
            depth + 1
        } else {
            depth
        };
        proof {
            assert(decreases_to!(fields@ => fields@[i as int]));
        }
        render_field_rows(&f.children, next, html);
        i = i + 1;
        proof {
            let t = fields@.take(i as int);
            assert(t.drop_last() =~= fields@.take(i - 1));
            assert(t.last() == *f);
        }
    }
    assert(fields@.take(i as int) =~= fields@);
}

/// Render schema fields as a full-width table with nested field support.
pub fn render_schema_field_table(fields: &Vec<SchemaField>, html: &mut String)
    ensures
        final(html)@ == old(html)@ + field_table(fields@),
{
    if fields.len() == 0 {
        return;
    }
    html.append(FIELD_TABLE_OPEN);
    render_field_rows(fields, 0, html);
    html.append(TABLE_CLOSE);
}

// ---------------------------------------------------------------------------
// Parameters
// ---------------------------------------------------------------------------

/// The table row of one parameter.
pub open spec fn param_row(p: ApiParameter) -> Seq<char> {
    "<tr><td><code>"@ + esc(p.name@) + "</code>"@ + badge(p.required) + "</td><td>"@ + esc(
        p.schema_type@,
    ) + "</td><td>"@ + description_html(p.description) + "</td></tr>"@
}

/// Whether a parameter is in the location `loc`.
pub open spec fn at_location(loc: Seq<char>) -> spec_fn(ApiParameter) -> bool {
    |p: ApiParameter| p.location@ == loc
}

/// The section of the parameters in one location: nothing when there are none, else a
/// heading and their table in their order.
pub open spec fn param_section(ps: Seq<ApiParameter>, loc: Seq<char>, title: Seq<char>) -> Seq<char> {
    let f = ps.filter(at_location(loc));
    if f.len() == 0 {
        Seq::<char>::empty()
    } else {
        "<h2>"@ + title + "</h2>"@ + FIELD_TABLE_OPEN@ + concat_map(f, |p: ApiParameter| param_row(p))
            + TABLE_CLOSE@
    }
}

/// The parameter sections: path, query, header and cookie parameters, in this order.
pub open spec fn parameters_html(ps: Seq<ApiParameter>) -> Seq<char> {
    if ps.len() == 0 {
        Seq::<char>::empty()
    } else {
        param_section(ps, "path"@, "Path Parameters"@) + param_section(ps, "query"@, "Query Parameters"@)
            + param_section(ps, "header"@, "Header Parameters"@) + param_section(
            ps,
            "cookie"@,
            "Cookie Parameters"@,
        )
    }
}

fn push_param_row(html: &mut String, p: &ApiParameter)
    ensures
        final(html)@ == old(html)@ + param_row(*p),
{
    html.append("<tr><td><code>");
    push_escaped(p.name.as_str(), html);
    html.append("</code>");
    if p.required {
        html.append(REQUIRED_BADGE);
    } else {
        html.append(OPTIONAL_BADGE);
    }
    html.append("</td><td>");
    push_escaped(p.schema_type.as_str(), html);
    html.append("</td><td>");
    if let Some(d) = &p.description {
        push_escaped(d.as_str(), html);
    }
    html.append("</td></tr>");
}

fn push_param_section(html: &mut String, parameters: &[ApiParameter], location: &str, title: &str)
    ensures
        final(html)@ == old(html)@ + param_section(parameters@, location@, title@),
{
    let ghost pred = at_location(location@);
    let ghost fr = |p: ApiParameter| param_row(p);
    let mut rows = String::new();
    let mut found = false;
    let mut i: usize = 0;
    while i < parameters.len()
        invariant
            i <= parameters@.len(),
            pred == at_location(location@),
            fr == (|p: ApiParameter| param_row(p)),
            rows@ == concat_map(parameters@.take(i as int).filter(pred), fr),
            found == (parameters@.take(i as int).filter(pred).len() > 0),
        decreases parameters@.len() - i,
    {
        let p = &parameters[i];
        proof {
            assert(parameters@.take(i + 1) =~= parameters@.take(i as int).push(*p));
            lemma_filter_push(parameters@.take(i as int), *p, pred);
        }
        if str_eq(p.location.as_str(), location) {
            push_param_row(&mut rows, p);
            found = true;
            proof {
                let f = parameters@.take(i as int).filter(pred);
                assert(f.push(*p).drop_last() =~= f);
            }
        }
        i = i + 1;
    }
    assert(parameters@.take(i as int) =~= parameters@);
    if found {
        html.append("<h2>");
        html.append(title);
        html.append("</h2>");
        html.append(FIELD_TABLE_OPEN);
        html.append(rows.as_str());
        html.append(TABLE_CLOSE);
    }
}

/// Render the parameters of an endpoint, grouped by location.
pub fn render_parameters(parameters: &[ApiParameter], html: &mut String)
    ensures
        final(html)@ == old(html)@ + parameters_html(parameters@),
{
    if parameters.len() == 0 {
        return;
    }
    push_param_section(html, parameters, "path", "Path Parameters");
    push_param_section(html, parameters, "query", "Query Parameters");
    push_param_section(html, parameters, "header", "Header Parameters");
    push_param_section(html, parameters, "cookie", "Cookie Parameters");
}

// ---------------------------------------------------------------------------
// Request body
// ---------------------------------------------------------------------------

pub const BODY_HEADER_OPEN: &'static str = "<div class=\"oxidoc-api-body-header\"><h2 id=\"request-body\">Body</h2>";

pub const REQUIRED_SPAN: &'static str = "<span class=\"oxidoc-api-required\">required</span>";

pub const CONTENT_TYPE_OPEN: &'static str = "<span class=\"oxidoc-api-content-type\">";

/// The request body section: nothing without a body; else its header (with the
/// "required" mark and the content type), its description and its field table.
pub open spec fn request_body_html(body: Option<ApiRequestBody>) -> Seq<char> {
    match body {
        None => Seq::<char>::empty(),
        Some(b) => BODY_HEADER_OPEN@ + (if b.required {
            REQUIRED_SPAN@
        } else {
            Seq::<char>::empty()
        }) + CONTENT_TYPE_OPEN@ + esc(b.content_type@) + "</span>"@ + "</div>"@ + (match b.description {
            Some(d) => "<p>"@ + esc(d@) + "</p>"@,
            None => Seq::<char>::empty(),
        }) + field_table(b.fields@),
    }
}

/// Render the request body of an endpoint.
pub fn render_request_body(body: &Option<ApiRequestBody>, html: &mut String)
    ensures
        final(html)@ == old(html)@ + request_body_html(*body),
{
    let b = match body {
        Some(b) => b,
        None => {
            return;
        },
    };
    html.append(BODY_HEADER_OPEN);
    if b.required {
        html.append(REQUIRED_SPAN);
    }
    html.append(CONTENT_TYPE_OPEN);
    push_escaped(b.content_type.as_str(), html);
    html.append("</span>");
    html.append("</div>");
    if let Some(d) = &b.description {
        html.append("<p>");
        push_escaped(d.as_str(), html);
        html.append("</p>");
    }
    render_schema_field_table(&b.fields, html);
}

// ---------------------------------------------------------------------------
// Responses
// ---------------------------------------------------------------------------

/// The class that colours a status code by its first digit.
pub open spec fn status_class(status: Seq<char>) -> Seq<char> {
    if status.len() == 0 {
        Seq::<char>::empty()
    } else if status[0] == '2' {
        "oxidoc-api-status-2xx"@
    } else if status[0] == '3' {
        "oxidoc-api-status-3xx"@
    } else if status[0] == '4' {
        "oxidoc-api-status-4xx"@
    } else if status[0] == '5' {
        "oxidoc-api-status-5xx"@
    } else {
        Seq::<char>::empty()
    }
}

pub const TAB_OPEN: &'static str = "<button class=\"oxidoc-api-tab";

pub const TAB_DATA: &'static str = "\" data-tab=\"resp-";

pub const TAB_ROLE: &'static str = "\" role=\"tab\" aria-selected=\"";

pub const TAB_STATUS: &'static str = "\"><span class=\"oxidoc-api-status ";

pub const TAB_CLOSE: &'static str = "</span></button>";

/// The tab of one response; the first one is active and selected.
pub open spec fn response_tab(r: ApiResponse, first: bool) -> Seq<char> {
    TAB_OPEN@ + (if first {
        " active"@
    } else {
        Seq::<char>::empty()
    }) + TAB_DATA@ + esc(r.status@) + TAB_ROLE@ + (if first {
        "true"@
    } else {
        "false"@
    }) + TAB_STATUS@ + status_class(r.status@) + "\">"@ + esc(r.status@) + TAB_CLOSE@
}

pub open spec fn response_tabs(rs: Seq<ApiResponse>) -> Seq<char>
    decreases rs.len(),
{
    if rs.len() == 0 {
        Seq::<char>::empty()
    } else {
        response_tabs(rs.drop_last()) + response_tab(rs.last(), rs.len() == 1)
    }
}

pub const PANEL_OPEN: &'static str = "<div class=\"oxidoc-api-tab-panel";

pub const PANEL_DATA: &'static str = "\" data-panel=\"resp-";

pub const RESPONSE_DESC_OPEN: &'static str = "<p class=\"oxidoc-api-response-desc\">";

pub const RESPONSE_META_OPEN: &'static str = "<div class=\"oxidoc-api-response-meta\">";

pub const SCHEMA_TYPE_OPEN: &'static str = "<code class=\"oxidoc-api-schema-type\">";

/// The schema type and the content type of a response, joined by a space; nothing
/// when it has neither.
pub open spec fn response_meta(r: ApiResponse) -> Seq<char> {
    let st = match r.schema_type {
        Some(t) => SCHEMA_TYPE_OPEN@ + esc(t@) + "</code>"@,
        None => Seq::<char>::empty(),
    };
    let ct = match r.content_type {
        Some(c) => CONTENT_TYPE_OPEN@ + esc(c@) + "</span>"@,
        None => Seq::<char>::empty(),
    };
    if r.schema_type is None && r.content_type is None {
        Seq::<char>::empty()
    } else if r.schema_type is Some && r.content_type is Some {
        RESPONSE_META_OPEN@ + st + " "@ + ct + "</div>"@
    } else {
        RESPONSE_META_OPEN@ + st + ct + "</div>"@
    }
}

/// The opening of a response's panel; the first one is active.
pub open spec fn panel_head(r: ApiResponse, first: bool) -> Seq<char> {
    PANEL_OPEN@ + (if first {
        " active"@
    } else {
        Seq::<char>::empty()
    }) + PANEL_DATA@ + esc(r.status@) + "\">"@
}

/// The description paragraph of a response, when its description is not empty.
pub open spec fn response_desc(r: ApiResponse) -> Seq<char> {
    if r.description@.len() > 0 {
        RESPONSE_DESC_OPEN@ + esc(r.description@) + "</p>"@
    } else {
        Seq::<char>::empty()
    }
}

/// The panel of one response.
pub open spec fn response_panel(r: ApiResponse, first: bool) -> Seq<char> {
    panel_head(r, first) + response_desc(r) + response_meta(r) + field_table(r.fields@) + "</div>"@
}

pub open spec fn response_panels(rs: Seq<ApiResponse>) -> Seq<char>
    decreases rs.len(),
{
    if rs.len() == 0 {
        Seq::<char>::empty()
    } else {
        response_panels(rs.drop_last()) + response_panel(rs.last(), rs.len() == 1)
    }
}

pub const RESPONSES_OPEN: &'static str = "<h2 id=\"responses\">Responses</h2><div class=\"oxidoc-api-responses\"><div class=\"oxidoc-api-tabs\" role=\"tablist\">";

/// The responses section: nothing without responses; else a tab per response, then a
/// panel per response.
pub open spec fn responses_html(rs: Seq<ApiResponse>) -> Seq<char> {
    if rs.len() == 0 {
        Seq::<char>::empty()
    } else {
        RESPONSES_OPEN@ + response_tabs(rs) + "</div>"@ + response_panels(rs) + "</div>"@
    }
}

fn push_status_class(html: &mut String, status: &str)
    ensures
        final(html)@ == old(html)@ + status_class(status@),
{
    let chars = chars_of(status);
    if chars.len() > 0 {
        let c = chars[0];
        if c == '2' {
            html.append("oxidoc-api-status-2xx");
        } else if c == '3' {
            html.append("oxidoc-api-status-3xx");
        } else if c == '4' {
            html.append("oxidoc-api-status-4xx");
        } else if c == '5' {
            html.append("oxidoc-api-status-5xx");
        }
    }
}

fn push_response_tab(html: &mut String, r: &ApiResponse, first: bool)
    ensures
        final(html)@ == old(html)@ + response_tab(*r, first),
{
    html.append(TAB_OPEN);
    if first {
        html.append(" active");
    }
    html.append(TAB_DATA);
    push_escaped(r.status.as_str(), html);
    html.append(TAB_ROLE);
    if first {
        html.append("true");
    } else {
        html.append("false");
    }
    html.append(TAB_STATUS);
    push_status_class(html, r.status.as_str());
    html.append("\">");
    push_escaped(r.status.as_str(), html);
    html.append(TAB_CLOSE);
}

fn push_response_meta(html: &mut String, r: &ApiResponse)
    ensures
        final(html)@ == old(html)@ + response_meta(*r),
{
    if r.schema_type.is_none() && r.content_type.is_none() {
        return;
    }
    html.append(RESPONSE_META_OPEN);
    if let Some(t) = &r.schema_type {
        html.append(SCHEMA_TYPE_OPEN);
        push_escaped(t.as_str(), html);
        html.append("</code>");
        if r.content_type.is_some() {
            html.append(" ");
        }
    }
    if let Some(c) = &r.content_type {
        html.append(CONTENT_TYPE_OPEN);
        push_escaped(c.as_str(), html);
        html.append("</span>");
    }
    html.append("</div>");
}

fn push_panel_head(html: &mut String, r: &ApiResponse, first: bool)
    ensures
        final(html)@ == old(html)@ + panel_head(*r, first),
{
    html.append(PANEL_OPEN);
    if first {
        html.append(" active");
    }
    html.append(PANEL_DATA);
    push_escaped(r.status.as_str(), html);
    html.append("\">");
}

fn push_response_desc(html: &mut String, r: &ApiResponse)
    ensures
        final(html)@ == old(html)@ + response_desc(*r),
{
    if r.description.as_str().unicode_len() > 0 {
        html.append(RESPONSE_DESC_OPEN);
        push_escaped(r.description.as_str(), html);
        html.append("</p>");
    }
}

fn push_response_panel(html: &mut String, r: &ApiResponse, first: bool)
    ensures
        final(html)@ == old(html)@ + response_panel(*r, first),
{
    push_panel_head(html, r, first);
    push_response_desc(html, r);
    push_response_meta(html, r);
    render_schema_field_table(&r.fields, html);
    html.append("</div>");
}

/// Render responses as tabbed panels with schema field tables.
pub fn render_responses_docs(responses: &[ApiResponse], html: &mut String)
    ensures
        final(html)@ == old(html)@ + responses_html(responses@),
{
    if responses.len() == 0 {
        return;
    }
    html.append(RESPONSES_OPEN);
    let ghost start = html@;
    let mut i: usize = 0;
    while i < responses.len()
        invariant
            i <= responses@.len(),
            html@ == start + response_tabs(responses@.take(i as int)),
        decreases responses@.len() - i,
    {
        push_response_tab(html, &responses[i], i == 0);
        i = i + 1;
        assert(responses@.take(i as int).drop_last() =~= responses@.take(i - 1));
    }
    assert(responses@.take(i as int) =~= responses@);
    html.append("</div>");
    let ghost start2 = html@;
    let mut j: usize = 0;
    while j < responses.len()
        invariant
            j <= responses@.len(),
            html@ == start2 + response_panels(responses@.take(j as int)),
        decreases responses@.len() - j,
    {
        push_response_panel(html, &responses[j], j == 0);
        j = j + 1;
        assert(responses@.take(j as int).drop_last() =~= responses@.take(j - 1));
    }
    assert(responses@.take(j as int) =~= responses@);
    html.append("</div>");
}

// ---------------------------------------------------------------------------
// Code snippets
// ---------------------------------------------------------------------------

pub const DEFAULT_API_BASE: &'static str = "https://api.example.com";

/// The URL that the snippets call: the base URL (or a placeholder) followed by the path.
pub open spec fn snippet_url(base_url: Option<&str>, path: Seq<char>) -> Seq<char> {
    (match base_url {
        Some(b) => b@,
        None => DEFAULT_API_BASE@,
    }) + path
}

/// A cURL command for the request.
pub open spec fn curl_snippet(method: Seq<char>, url: Seq<char>) -> Seq<char> {
    "curl -X "@ + method + " '"@ + url + "'"@
}

pub const JS_FETCH: &'static str = "const response = await fetch('";

pub const JS_METHOD: &'static str = "', {\n  method: '";

pub const JS_REST: &'static str = "',\n  headers: { 'Accept': 'application/json' }\n});\nconst data = await response.json();";

/// A JavaScript `fetch` call for the request.
pub open spec fn js_snippet(method: Seq<char>, url: Seq<char>) -> Seq<char> {
    JS_FETCH@ + url + JS_METHOD@ + method + JS_REST@
}

/// The cURL command for a request.
pub fn generate_curl(method: &str, url: &str) -> (r: String)
    ensures
        r@ == curl_snippet(method@, url@),
{
    let mut s = String::from_str("curl -X ");
    s.append(method);
    s.append(" '");
    s.append(url);
    s.append("'");
    s
}

/// The JavaScript `fetch` call for a request.
pub fn generate_js(method: &str, url: &str) -> (r: String)
    ensures
        r@ == js_snippet(method@, url@),
{
    let mut s = String::from_str(JS_FETCH);
    s.append(url);
    s.append(JS_METHOD);
    s.append(method);
    s.append(JS_REST);
    s
}

/// The code of the cURL and JavaScript snippets of an endpoint.
pub fn snippet_sources(ep: &ApiEndpoint, base_url: Option<&str>) -> (r: (String, String))
    ensures
        r.0@ == curl_snippet(ep.method@, snippet_url(base_url, ep.path@)),
        r.1@ == js_snippet(ep.method@, snippet_url(base_url, ep.path@)),
{
    let mut url = match base_url {
        Some(b) => String::from_str(b),
        None => String::from_str(DEFAULT_API_BASE),
    };
    url.append(ep.path.as_str());
    (generate_curl(ep.method.as_str(), url.as_str()), generate_js(ep.method.as_str(), url.as_str()))
}

/// A code block in the given language around already formatted code.
pub open spec fn code_block(lang: Seq<char>, code_html: Seq<char>) -> Seq<char> {
    "<pre><code class=\"language-"@ + lang + "\">"@ + code_html + "</code></pre>"@
}

/// A code block around `code_html` (code that is already highlighted or escaped).
pub fn wrap_code_block(code_html: &str, lang: &str) -> (r: String)
    ensures
        r@ == code_block(lang@, code_html@),
{
    let mut s = String::from_str("<pre><code class=\"language-");
    s.append(lang);
    s.append("\">");
    s.append(code_html);
    s.append("</code></pre>");
    s
}

/// A code block holding `code` as plain, escaped text (for languages that no
/// highlighter supports).
pub fn plain_code_block(code: &str, lang: &str) -> (r: String)
    ensures
        r@ == code_block(lang@, esc(code@)),
{
    let mut s = String::from_str("<pre><code class=\"language-");
    s.append(lang);
    s.append("\">");
    push_escaped(code, &mut s);
    s.append("</code></pre>");
    s
}

pub const SNIPPETS_OPEN: &'static str = "<div class=\"oxidoc-api-snippets\"><div class=\"oxidoc-api-tabs\" role=\"tablist\"><button class=\"oxidoc-api-tab active\" data-tab=\"curl\" role=\"tab\" aria-selected=\"true\">cURL</button><button class=\"oxidoc-api-tab\" data-tab=\"js\" role=\"tab\" aria-selected=\"false\">JavaScript</button><button class=\"oxidoc-api-copy-btn\" title=\"Copy code\">Copy</button></div>";

pub const CURL_PANEL_OPEN: &'static str = "<div class=\"oxidoc-api-tab-panel active\" data-panel=\"curl\">";

pub const JS_PANEL_OPEN: &'static str = "<div class=\"oxidoc-api-tab-panel\" data-panel=\"js\">";

/// The tabbed snippets: a cURL tab and a JavaScript tab around the given code blocks.
pub open spec fn snippets_html(curl_block: Seq<char>, js_block: Seq<char>) -> Seq<char> {
    SNIPPETS_OPEN@ + CURL_PANEL_OPEN@ + curl_block + "</div>"@ + JS_PANEL_OPEN@ + js_block + "</div>"@
        + "</div>"@
}

/// Appends the tabbed code snippets, given their code blocks.
pub fn render_code_snippets(curl_block: &str, js_block: &str, html: &mut String)
    ensures
        final(html)@ == old(html)@ + snippets_html(curl_block@, js_block@),
{
    html.append(SNIPPETS_OPEN);
    html.append(CURL_PANEL_OPEN);
    html.append(curl_block);
    html.append("</div>");
    html.append(JS_PANEL_OPEN);
    html.append(js_block);
    html.append("</div>");
    html.append("</div>");
}

// ---------------------------------------------------------------------------
// Endpoint page
// ---------------------------------------------------------------------------

pub const METHOD_LINE_OPEN: &'static str = "<div class=\"oxidoc-api-method-line\"><span class=\"oxidoc-api-method oxidoc-api-method-";

pub const DEPRECATED_CALLOUT: &'static str = "<div class=\"oxidoc-callout oxidoc-callout-warning\"><strong>Deprecated</strong>: This endpoint is deprecated and may be removed in a future version.</div>";

pub const DESCRIPTION_OPEN: &'static str = "<div class=\"oxidoc-api-description\">";

pub const ISLAND_OPEN: &'static str = "<oxidoc-island data-island-type=\"api-playground\" data-props='";

pub const ISLAND_CLOSE: &'static str = "'></oxidoc-island>";

/// The heading part of the documentation column: title, method line, deprecation
/// notice and description.
pub open spec fn endpoint_heading(ep: ApiEndpoint) -> Seq<char> {
    "<h1>"@ + esc(endpoint_title(ep)) + "</h1>"@ + METHOD_LINE_OPEN@ + esc(lowercase_of(ep.method@))
        + "\">"@ + esc(ep.method@) + "</span> <code>"@ + esc(ep.path@) + "</code></div>"@ + (
    if ep.deprecated {
        DEPRECATED_CALLOUT@
    } else {
        Seq::<char>::empty()
    }) + (match ep.description {
        Some(d) => DESCRIPTION_OPEN@ + esc(d@) + "</div>"@,
        None => Seq::<char>::empty(),
    })
}

/// An endpoint page in two columns: the documentation (heading, parameters, request
/// body, responses), then the code snippets and the playground island with its
/// properties as given.
pub open spec fn endpoint_page(
    ep: ApiEndpoint,
    curl_block: Seq<char>,
    js_block: Seq<char>,
    props_json: Seq<char>,
) -> Seq<char> {
    "<div class=\"oxidoc-api-page\"><div class=\"oxidoc-api-docs\">"@ + endpoint_heading(ep)
        + parameters_html(ep.parameters@) + request_body_html(ep.request_body) + responses_html(
        ep.responses@,
    ) + "</div><div class=\"oxidoc-api-panel\"><div class=\"oxidoc-api-panel-inner\">"@
        + snippets_html(curl_block, js_block) + ISLAND_OPEN@ + props_json + ISLAND_CLOSE@
        + "</div></div></div>"@
}

#[verifier::spinoff_prover]
fn push_endpoint_heading(html: &mut String, ep: &ApiEndpoint)
    ensures
        final(html)@ == old(html)@ + endpoint_heading(*ep),
{
    html.append("<h1>");
    let title = endpoint_title_exec(ep);
    push_escaped(title.as_str(), html);
    html.append("</h1>");
    html.append(METHOD_LINE_OPEN);
    let method = str_to_lowercase(ep.method.as_str());
    push_escaped(method.as_str(), html);
    html.append("\">");
    push_escaped(ep.method.as_str(), html);
    html.append("</span> <code>");
    push_escaped(ep.path.as_str(), html);
    html.append("</code></div>");
    if ep.deprecated {
        html.append(DEPRECATED_CALLOUT);
    }
    if let Some(d) = &ep.description {
        html.append(DESCRIPTION_OPEN);
        push_escaped(d.as_str(), html);
        html.append("</div>");
    }
}

/// Render an API endpoint as a two-column layout, given the code blocks of its
/// snippets and the JSON properties of its playground.
pub fn render_endpoint_page(ep: &ApiEndpoint, curl_block: &str, js_block: &str, props_json: &str) -> (r: String)
    ensures
        r@ == endpoint_page(*ep, curl_block@, js_block@, props_json@),
{
    let mut html = String::from_str("<div class=\"oxidoc-api-page\"><div class=\"oxidoc-api-docs\">");
    push_endpoint_heading(&mut html, ep);
    render_parameters(ep.parameters.as_slice(), &mut html);
    render_request_body(&ep.request_body, &mut html);
    render_responses_docs(ep.responses.as_slice(), &mut html);
    html.append("</div><div class=\"oxidoc-api-panel\"><div class=\"oxidoc-api-panel-inner\">");
    render_code_snippets(curl_block, js_block, &mut html);
    html.append(ISLAND_OPEN);
    html.append(props_json);
    html.append(ISLAND_CLOSE);
    html.append("</div></div></div>");
    html
}

// ---------------------------------------------------------------------------
// Playground properties
// ---------------------------------------------------------------------------

/// The JSON object of a parameter for the playground: location, name, whether it is
/// required and type, keys in increasing order as `serde_json` writes an object.
pub open spec fn param_props(p: ApiParameter) -> Seq<char> {
    "{\"in\":"@ + json_string_of(p.location@) + ",\"name\":"@ + json_string_of(p.name@)
        + ",\"required\":"@ + (if p.required {
        "true"@
    } else {
        "false"@
    }) + ",\"type\":"@ + json_string_of(p.schema_type@) + "}"@
}

/// The JSON objects of the parameters, separated by commas.
pub open spec fn params_props(ps: Seq<ApiParameter>) -> Seq<char>
    decreases ps.len(),
{
    if ps.len() == 0 {
        Seq::<char>::empty()
    } else if ps.len() == 1 {
        param_props(ps[0])
    } else {
        params_props(ps.drop_last()) + ","@ + param_props(ps.last())
    }
}

/// The JSON properties of the API playground: the base URL when one is given, the
/// method, the parameters and the path, keys in increasing order as `serde_json`
/// writes an object.
pub open spec fn playground_props_of(ep: ApiEndpoint, base_url: Option<Seq<char>>) -> Seq<char> {
    "{"@ + (match base_url {
        Some(u) => "\"base_url\":"@ + json_string_of(u) + ","@,
        None => Seq::<char>::empty(),
    }) + "\"method\":"@ + json_string_of(ep.method@) + ",\"parameters\":["@ + params_props(
        ep.parameters@,
    ) + "],\"path\":"@ + json_string_of(ep.path@) + "}"@
}

fn push_param_props(html: &mut String, p: &ApiParameter)
    ensures
        final(html)@ == old(html)@ + param_props(*p),
{
    html.append("{\"in\":");
    html.append(json_string(p.location.as_str()).as_str());
    html.append(",\"name\":");
    html.append(json_string(p.name.as_str()).as_str());
    html.append(",\"required\":");
    html.append(if p.required { "true" } else { "false" });
    html.append(",\"type\":");
    html.append(json_string(p.schema_type.as_str()).as_str());
    html.append("}");
}

/// The JSON properties of the API playground island for an endpoint.
pub fn playground_props(ep: &ApiEndpoint, base_url: Option<&str>) -> (r: String)
    ensures
        r@ == playground_props_of(*ep, opt_chars(base_url)),
{
    let mut json = String::from_str("{");
    if let Some(u) = base_url {
        json.append("\"base_url\":");
        json.append(json_string(u).as_str());
        json.append(",");
    }
    json.append("\"method\":");
    json.append(json_string(ep.method.as_str()).as_str());
    json.append(",\"parameters\":[");
    let ghost start = json@;
    let mut i: usize = 0;
    while i < ep.parameters.len()
        invariant
            i <= ep.parameters@.len(),
            json@ == start + params_props(ep.parameters@.take(i as int)),
        decreases ep.parameters@.len() - i,
    {
        if i > 0 {
            json.append(",");
        }
        push_param_props(&mut json, &ep.parameters[i]);
        i = i + 1;
        proof {
            let t = ep.parameters@.take(i as int);
            assert(t.drop_last() =~= ep.parameters@.take(i - 1));
            if i == 1 {
                assert(params_props(ep.parameters@.take(0)) =~= Seq::<char>::empty());
            }
        }
    }
    assert(ep.parameters@.take(i as int) =~= ep.parameters@);
    json.append("],\"path\":");
    json.append(json_string(ep.path.as_str()).as_str());
    json.append("}");
    json
}

/// Render an API endpoint as a two-column layout: its documentation, the code
/// snippets and the playground. `curl_code_html` and `js_code_html` are the cURL and
/// JavaScript snippets of `snippet_sources`, highlighted (or escaped) as HTML.
pub fn render_endpoint_html(ep: &ApiEndpoint, base_url: Option<&str>, curl_code_html: &str, js_code_html: &str) -> (r: String)
    ensures
        r@ == endpoint_page(
            *ep,
            code_block("bash"@, curl_code_html@),
            code_block("javascript"@, js_code_html@),
            playground_props_of(*ep, opt_chars(base_url)),
        ),
{
    let curl_block = wrap_code_block(curl_code_html, "bash");
    let js_block = wrap_code_block(js_code_html, "javascript");
    let props = playground_props(ep, base_url);
    render_endpoint_page(ep, curl_block.as_str(), js_block.as_str(), props.as_str())
}

} // verus!
