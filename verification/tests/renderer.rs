use oxidoc::attributes::AttrValue;
use oxidoc::renderer::{
    accordion_props, code_block_props, code_block_source, debug_wrap, render_component,
    render_document,
    render_static_badge, render_static_head, render_static_step, render_static_steps,
    render_static_tag, render_static_themed_image, render_static_tooltip, ComponentNode,
    RenderNode,
};

fn render(nodes: &Vec<RenderNode>) -> String {
    render_document(nodes, &[], false)
}

fn component(name: &str, attrs: Vec<(&str, AttrValue)>, children: Vec<RenderNode>) -> RenderNode {
    RenderNode::Component(ComponentNode {
        name: name.into(),
        attributes: attrs.into_iter().map(|(k, v)| (k.to_string(), v)).collect(),
        children,
        raw_content: String::new(),
        highlighted: None,
    })
}

fn s(v: &str) -> AttrValue {
    AttrValue::Str(v.into())
}

fn text(s: &str) -> RenderNode {
    RenderNode::Text { value: s.into() }
}

fn paragraph(children: Vec<RenderNode>) -> RenderNode {
    RenderNode::Paragraph { children }
}

#[test]
fn render_empty_document() {
    assert_eq!(render(&vec![]), "");
}

#[test]
fn render_paragraph_with_text() {
    let html = render(&vec![paragraph(vec![text("Hello, world!")])]);
    assert_eq!(html, "<p>Hello, world!</p>");
}

#[test]
fn render_heading_with_anchor() {
    let html = render(&vec![RenderNode::Heading {
        depth: Some(1),
        id: None,
        children: vec![text("Getting Started")],
    }]);
    assert!(html.contains(r#"<h1 id="getting-started">"#));
    assert!(html.contains("Getting Started"));
}

#[test]
fn render_code_block() {
    let html = render(&vec![RenderNode::CodeBlock {
        lang: Some("rust".into()),
        value: "fn main() {}".into(),
        highlighted: Some(r#"<span class="tok-keyword">fn</span> main() {}"#.into()),
    }]);
    assert!(html.contains(r#"class="language-rust"#));
    assert!(html.contains("tok-keyword"));
    assert!(html.contains("main"));
}

#[test]
fn render_emphasis_and_strong() {
    let html = render(&vec![paragraph(vec![
        RenderNode::Emphasis { children: vec![text("italic")] },
        text(" and "),
        RenderNode::Strong { children: vec![text("bold")] },
    ])]);
    assert!(html.contains("<em>italic</em>"));
    assert!(html.contains("<strong>bold</strong>"));
}

#[test]
fn render_link() {
    let html = render(&vec![paragraph(vec![RenderNode::Link {
        url: "https://example.com".into(),
        title: None,
        children: vec![text("click here")],
    }])]);
    assert!(html.contains(r#"<a href="https://example.com">"#));
    assert!(html.contains("click here</a>"));
}

#[test]
fn code_block_language_is_escaped() {
    let html = render(&vec![RenderNode::CodeBlock {
        lang: Some("rust\" onclick=\"alert(1)".into()),
        value: "code".into(),
        highlighted: None,
    }]);
    assert!(!html.contains("onclick=\"alert"));
    assert!(html.contains("&quot;"));
}

#[test]
fn xss_in_text_is_escaped() {
    let html = render(&vec![paragraph(vec![text("<script>alert('xss')</script>")])]);
    assert!(!html.contains("<script>"));
}

#[test]
fn render_every_kind_of_node() {
    let nodes = vec![
        RenderNode::Heading {
            depth: Some(9),
            id: Some("custom".into()),
            children: vec![RenderNode::CodeInline { value: "a<b".into() }],
        },
        RenderNode::List {
            ordered: Some(true),
            children: vec![
                RenderNode::ListItem { checked: Some(true), children: vec![text("done")] },
                RenderNode::ListItem { checked: Some(false), children: vec![text("todo")] },
                RenderNode::ListItem { checked: None, children: vec![text("plain")] },
            ],
        },
        RenderNode::Blockquote {
            children: vec![RenderNode::Strikethrough { children: vec![text("old")] }],
        },
        RenderNode::Image {
            url: "/a.png".into(),
            alt: None,
            title: Some("A \"pic\"".into()),
        },
        RenderNode::Table {
            children: vec![RenderNode::TableRow {
                children: vec![RenderNode::TableCell { children: vec![text("1")] }],
            }],
        },
        RenderNode::ThematicBreak,
        RenderNode::Html { children: vec![text("x")] },
        RenderNode::MathInline { value: "x<1".into() },
        RenderNode::MathDisplay { value: "y".into() },
        RenderNode::FootnoteDefinition { label: "n1".into(), children: vec![text("note")] },
        RenderNode::FootnoteReference { label: "n1".into() },
        RenderNode::Component(ComponentNode {
            name: "MyWidget".into(),
            attributes: vec![],
            children: vec![],
            raw_content: String::new(),
            highlighted: None,
        }),
        RenderNode::Variable { path: "site.name".into() },
        RenderNode::Error { message: "bad".into(), line: 12 },
        RenderNode::CodeBlock { lang: None, value: "<x>".into(), highlighted: Some("ignored".into()) },
    ];
    let html = render(&nodes);
    let expected: String = [
        r#"<h6 id="custom"><code>a&lt;b</code></h6>"#,
        r#"<ol><li class="task-list-item"><input type="checkbox" disabled checked> done</li>"#,
        r#"<li class="task-list-item"><input type="checkbox" disabled > todo</li><li>plain</li></ol>"#,
        r#"<blockquote><del>old</del></blockquote>"#,
        r#"<img src="/a.png" alt="" title="A &quot;pic&quot;" loading="lazy">"#,
        r#"<table><tr><td>1</td></tr></table><hr>x"#,
        r#"<span class="math math-inline">x&lt;1</span><div class="math math-display">y</div>"#,
        r#"<div class="footnote" id="fn-n1">note</div>"#,
        r##"<sup><a href="#fn-n1" class="footnote-ref">n1</a></sup>"##,
        r#"<oxidoc-island data-island-type="mywidget" data-props="{}"></oxidoc-island>"#,
        r#"<span data-var="site.name">{}</span>"#,
        r#"<div class="oxidoc-error" data-line="12">bad</div>"#,
        r#"<pre><code>&lt;x&gt;</code><button class="oxidoc-copy-code""#,
    ]
    .concat();
    assert!(html.starts_with(&expected));
    assert!(html.ends_with(">Copy</button></pre>"));
}

#[test]
fn heading_anchor_taken_from_nested_text() {
    let html = render(&vec![RenderNode::Heading {
        depth: None,
        id: None,
        children: vec![
            text("Use "),
            RenderNode::CodeInline { value: "Vec<T>".into() },
            RenderNode::Emphasis { children: vec![text(" Now")] },
        ],
    }]);
    assert_eq!(html, r#"<h1 id="use-vec-t-now">Use <code>Vec&lt;T&gt;</code><em> Now</em></h1>"#);
}

#[test]
fn code_block_source_trims_and_reads_comments() {
    let raw = "\n\nlet a = 1;\n// highlight-next-line\nlet b = 2;\n\n";
    let (code, lines) = code_block_source(raw, &vec![]);
    assert_eq!(code, "let a = 1;\nlet b = 2;");
    assert_eq!(lines, vec![2]);
    let (code, lines) = code_block_source("", &vec![text("\nx\n")]);
    assert_eq!(code, "x");
    assert!(lines.is_empty());
}

#[test]
fn code_block_props_json() {
    let json = code_block_props("rust", "main.rs", true, Some("1"), "a<b\nc", &vec![2], None);
    assert_eq!(
        json,
        r#"{"code":"a<b\nc","code_html":"<span class=\"oxidoc-line highlighted\">a&lt;b</span><span class=\"oxidoc-line highlighted\">c</span>","filename":"main.rs","highlight_lines":[1,2],"language":"rust","line_numbers":true}"#
    );
    let json = code_block_props("rust", "", false, None, "x", &vec![], Some("<b>x</b>"));
    assert!(json.contains(r#""code_html":"<span class=\"oxidoc-line\"><b>x</b></span>""#));
    assert!(json.contains(r#""highlight_lines":[]"#));
    let json = code_block_props("", "", false, None, "<x>", &vec![], Some("ignored"));
    assert!(json.contains("&lt;x&gt;"));
}

#[test]
fn accordion_props_json() {
    assert_eq!(
        accordion_props("T", "<p>c</p>", true, false),
        r#"{"items":[{"content":"<p>c</p>","open":true,"title":"T"}],"multiple":false}"#
    );
}

#[test]
fn render_static_component_no_island() {
    let html = render(&vec![component("Callout", vec![("kind", s("warning"))], vec![text("Watch out!")])]);
    assert!(html.contains("oxidoc-callout-warning"));
    assert!(html.contains("Watch out!"));
    assert!(!html.contains("oxidoc-island"));
}

#[test]
fn render_hydration_component_as_island() {
    let tabs = component("Tabs", vec![], vec![component("Tab", vec![("title", s("A"))], vec![text("aaa")])]);
    let html = render(&vec![tabs]);
    assert!(html.contains("oxidoc-island"));
    assert!(html.contains(r#"data-island-type="tabs""#));
    assert!(html.contains("oxidoc-tabs"));
}

#[test]
fn render_unknown_component_as_island() {
    let html = render(&vec![component("MyWidget", vec![("foo", s("bar"))], vec![text("content")])]);
    assert!(html.contains(r#"data-island-type="mywidget""#));
    assert!(html.contains("data-props="));
}

#[test]
fn render_debug_shows_hydration_check() {
    let tabs = component("Tabs", vec![], vec![component("Tab", vec![("title", s("X"))], vec![text("x")])]);
    let html = render_document(&vec![tabs], &[], true);
    assert!(html.contains("oxidoc-debug-island"));
    assert!(html.contains("awaiting hydration"));
}

#[test]
fn render_debug_no_wrapper_for_static() {
    let html = render_document(&vec![component("Callout", vec![("kind", s("info"))], vec![text("test")])], &[], true);
    assert!(!html.contains("oxidoc-debug-island"));
    assert!(html.contains("oxidoc-callout-info"));
}

#[test]
fn render_component_as_web_component() {
    let custom = vec![("PromoBanner".to_string(), "assets/js/promo.js".to_string())];
    let html = render_document(&vec![component("PromoBanner", vec![("variant", s("dark"))], vec![])], &custom, false);
    assert!(html.contains("<PromoBanner"));
    assert!(html.contains(r#"src="assets/js/promo.js""#));
    assert!(!html.contains("oxidoc-island"));
}

#[test]
fn web_component_writes_every_attribute_as_text() {
    let custom = vec![("x-chart".to_string(), "/c.js".to_string())];
    let node = component(
        "x-chart",
        vec![
            ("a", AttrValue::Null),
            ("b", AttrValue::Bool(true)),
            ("c", AttrValue::Number("1.5".into())),
            ("d", AttrValue::Json("[1,2]".into())),
            ("e", AttrValue::Variable("site.x".into())),
            ("f", s("<q>")),
        ],
        vec![],
    );
    assert_eq!(
        render_document(&vec![node], &custom, false),
        r#"<x-chart a="" b="true" c="1.5" d="[1,2]" e="${site.x}" f="&lt;q&gt;"></x-chart><script src="/c.js" type="module" async></script>"#
    );
}

#[test]
fn tabs_island_props_and_fallback() {
    let tabs = component(
        "Tabs",
        vec![("storageKey", s("lang"))],
        vec![
            component("Tab", vec![("title", s("Rust"))], vec![text("r")]),
            text(" "),
            component("Tab", vec![], vec![text("<j>")]),
        ],
    );
    let html = render(&vec![tabs]);
    let props = r#"{"contents":["r","&lt;j&gt;"],"labels":["Rust","Tab"],"storage_key":"lang"}"#;
    let escaped = props.replace('&', "&amp;").replace('"', "&quot;").replace('<', "&lt;").replace('>', "&gt;");
    let expected = [
        r#"<oxidoc-island data-island-type="tabs" data-props=""#,
        &escaped,
        r#""><div class="oxidoc-tabs"><div class="oxidoc-tabs-nav" role="tablist">"#,
        r#"<button role="tab" class="active">Rust</button><button role="tab">Tab</button></div>"#,
        r#"<div class="oxidoc-tab-panel" role="tabpanel">r</div>"#,
        r#"<div class="oxidoc-tab-panel" role="tabpanel" hidden>&lt;j&gt;</div></div></oxidoc-island>"#,
    ]
    .concat();
    assert_eq!(html, expected);
}

#[test]
fn card_callout_and_grid() {
    let grid = component(
        "CardGrid",
        vec![],
        vec![
            component("Card", vec![("title", s("A")), ("href", s("/a"))], vec![text("x")]),
            component("Card", vec![], vec![]),
        ],
    );
    assert_eq!(
        render(&vec![grid]),
        concat_parts(&[
            r#"<div class="oxidoc-card-grid">"#,
            r#"<a href="/a" class="oxidoc-card"><h3 class="oxidoc-card-title">A</h3><div class="oxidoc-card-body">x</div></a>"#,
            r#"<div class="oxidoc-card"><h3 class="oxidoc-card-title"></h3><div class="oxidoc-card-body"></div></div>"#,
            "</div>",
        ])
    );
    let callout = component("Callout", vec![("title", s("Note & more"))], vec![text("t")]);
    assert_eq!(
        render(&vec![callout]),
        r#"<div class="oxidoc-callout oxidoc-callout-info" role="note"><p class="oxidoc-callout-title"><strong>Note &amp; more</strong></p><div class="oxidoc-callout-content">t</div></div>"#
    );
}

fn concat_parts(parts: &[&str]) -> String {
    parts.concat()
}

#[test]
fn accordion_and_tab_islands() {
    let acc = component("Accordion", vec![("title", s("Q")), ("open", AttrValue::Bool(true))], vec![text("A")]);
    let html = render(&vec![acc]);
    assert!(html.contains(r#"data-island-type="accordion" data-props="{&quot;items&quot;:[{&quot;content&quot;:&quot;A&quot;,&quot;open&quot;:true,&quot;title&quot;:&quot;Q&quot;}],&quot;multiple&quot;:false}""#));
    assert!(html.contains(r#"<details class="oxidoc-accordion"><summary>Q</summary><div class="oxidoc-accordion-content"><div>A</div></div></details></oxidoc-island>"#));
    let tab = component("Tab", vec![("title", s("T")), ("b", AttrValue::Number("2".into())), ("a", s("x")), ("b", AttrValue::Null)], vec![text("y")]);
    assert_eq!(
        render(&vec![tab]),
        r#"<oxidoc-island data-island-type="tab" data-props="{&quot;a&quot;:&quot;x&quot;,&quot;b&quot;:null,&quot;title&quot;:&quot;T&quot;}"><strong>T</strong>y</oxidoc-island>"#
    );
}

#[test]
fn code_block_component_island() {
    let cb = RenderNode::Component(ComponentNode {
        name: "CodeBlock".into(),
        attributes: vec![("language".into(), s("rust")), ("filename".into(), s("main.rs"))],
        children: vec![],
        raw_content: "\nlet x = 1;\n".into(),
        highlighted: None,
    });
    let html = render(&vec![cb]);
    assert!(html.contains(r#"data-island-type="codeblock""#));
    assert!(html.contains(r#"<div class="oxidoc-codeblock"><div class="oxidoc-codeblock-header"><span>main.rs</span><span>rust</span></div>"#));
    assert!(html.contains(r#"<pre><code class="language-rust"><span class="oxidoc-line">let x = 1;</span></code>"#));
    assert!(html.contains("&quot;filename&quot;:&quot;main.rs&quot;"));
}

#[test]
fn render_component_alone() {
    let c = ComponentNode {
        name: "Widget".into(),
        attributes: vec![],
        children: vec![],
        raw_content: String::new(),
        highlighted: None,
    };
    let mut out = String::from("x");
    render_component(&c, &[], false, &mut out);
    assert_eq!(out, r#"x<oxidoc-island data-island-type="widget" data-props="{}"></oxidoc-island>"#);
}

fn node(name: &str, attrs: Vec<(&str, AttrValue)>, children: Vec<RenderNode>) -> ComponentNode {
    match component(name, attrs, children) {
        RenderNode::Component(c) => c,
        _ => unreachable!(),
    }
}

#[test]
fn themed_image_sources_and_sizes() {
    let mut out = String::new();
    let c = node(
        "ThemedImage",
        vec![("light", s("/l.png")), ("alt", s("A & B")), ("width", s("120"))],
        vec![],
    );
    render_static_themed_image(&c, &mut out);
    assert_eq!(
        out,
        concat_parts(&[
            r#"<picture class="oxidoc-themed-image"><source media="(prefers-color-scheme: dark)" srcset="/l.png">"#,
            r#"<img src="/l.png" alt="A &amp; B" width="120" loading="lazy"></picture>"#,
        ])
    );
    let mut out = String::new();
    let c = node("ThemedImage", vec![("light", s("/l.png")), ("dark", s("/d.png"))], vec![]);
    render_static_themed_image(&c, &mut out);
    assert!(out.contains(r#"srcset="/d.png""#));
    assert!(out.contains(r#"<img src="/l.png" alt="" loading="lazy">"#));
}

#[test]
fn badge_text_variant_and_outline() {
    let mut out = String::new();
    let mut ids = Vec::new();
    let c = node(
        "Badge",
        vec![("variant", s("success")), ("text", s("<new>")), ("outline", AttrValue::Bool(true))],
        vec![text("ignored")],
    );
    render_static_badge(&c, &[], false, &mut ids, &mut out);
    assert_eq!(
        out,
        r#"<span class="oxidoc-badge oxidoc-badge-success oxidoc-badge-outline">&lt;new&gt;</span>"#
    );
    let mut out = String::new();
    let c = node("Badge", vec![("kind", s("warn"))], vec![text("beta")]);
    render_static_badge(&c, &[], false, &mut ids, &mut out);
    assert_eq!(out, r#"<span class="oxidoc-badge oxidoc-badge-warn">beta</span>"#);
    assert!(ids.is_empty());
}

#[test]
fn tag_defaults_to_info() {
    let mut out = String::new();
    let mut ids = Vec::new();
    let c = node("Tag", vec![], vec![text("v2")]);
    render_static_tag(&c, &[], false, &mut ids, &mut out);
    assert_eq!(out, r#"<span class="oxidoc-tag oxidoc-tag-info">v2</span>"#);
}

#[test]
fn tooltip_text_or_tip() {
    let mut out = String::new();
    let mut ids = Vec::new();
    let c = node("Tooltip", vec![("tip", s("a \"hint\""))], vec![text("word")]);
    render_static_tooltip(&c, &[], false, &mut ids, &mut out);
    assert_eq!(
        out,
        concat_parts(&[
            r#"<span class="oxidoc-tooltip" tabindex="0"><span class="oxidoc-tooltip-content">word</span>"#,
            r#"<span class="oxidoc-tooltip-text" role="tooltip">a &quot;hint&quot;</span></span>"#,
        ])
    );
}

#[test]
fn single_step_title_in_bold() {
    let mut out = String::new();
    let mut ids = Vec::new();
    let c = node("Step", vec![("title", s("Install"))], vec![text("run it")]);
    render_static_step(&c, &[], false, &mut ids, &mut out);
    assert_eq!(out, "<strong>Install</strong>run it");
}

#[test]
fn steps_are_numbered_and_other_children_skipped() {
    let mut out = String::new();
    let mut ids = Vec::new();
    let c = node(
        "Steps",
        vec![],
        vec![
            component("Step", vec![("title", s("One"))], vec![text("a")]),
            text("between"),
            component("Step", vec![], vec![text("b")]),
        ],
    );
    render_static_steps(&c, &[], false, &mut ids, &mut out);
    assert_eq!(
        out,
        concat_parts(&[
            r#"<div class="oxidoc-steps">"#,
            r#"<div class="oxidoc-step"><div class="oxidoc-step-indicator"><span class="oxidoc-step-number">1</span></div>"#,
            r#"<div class="oxidoc-step-content"><h3 class="oxidoc-step-title">One</h3><div class="oxidoc-step-body">a</div></div></div>"#,
            r#"<div class="oxidoc-step"><div class="oxidoc-step-indicator"><span class="oxidoc-step-number">2</span></div>"#,
            r#"<div class="oxidoc-step-content"><div class="oxidoc-step-body">b</div></div></div>"#,
            "</div>",
        ])
    );
}

#[test]
fn head_block_collects_raw_texts() {
    let mut out = String::new();
    let c = node(
        "Head",
        vec![],
        vec![
            RenderNode::Html { children: vec![text("<meta name=\"x\">"), paragraph(vec![])] },
            text("<link rel=\"y\">"),
            paragraph(vec![text("dropped")]),
        ],
    );
    render_static_head(&c, &mut out);
    assert_eq!(
        out,
        "<!--oxidoc-head-start--><meta name=\"x\"><link rel=\"y\"><!--oxidoc-head-end-->"
    );
}

#[test]
fn debug_wrap_outlines_only_when_debugging() {
    let mut out = String::new();
    debug_wrap("Tabs", "<b>x</b>", false, "oxidoc-dbg-1", &mut out);
    assert_eq!(out, "<b>x</b>");
    let mut out = String::new();
    debug_wrap("Tabs", "<b>x</b>", true, "oxidoc-dbg-7", &mut out);
    assert!(out.starts_with(r#"<div id="oxidoc-dbg-7" class="oxidoc-debug-island" data-component="Tabs" data-render="hydration""#));
    assert!(out.contains("Tabs (awaiting hydration)</span><b>x</b><script>"));
    assert!(out.contains(r#"document.getElementById("oxidoc-dbg-7")"#));
    assert!(out.ends_with("</script></div>"));
}
