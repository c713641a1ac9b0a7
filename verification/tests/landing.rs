use oxidoc::attributes::AttrValue;
use oxidoc::landing::{
    render_static_banner, render_static_cta, render_static_embed, render_static_feature,
    render_static_feature_grid, render_static_hero, render_static_hero_action,
    render_static_section, render_static_testimonial, render_static_testimonial_grid,
};
use oxidoc::renderer::{ComponentNode, RenderNode};

fn node(name: &str, attrs: Vec<(&str, AttrValue)>, children: Vec<RenderNode>) -> ComponentNode {
    ComponentNode {
        name: name.into(),
        attributes: attrs.into_iter().map(|(k, v)| (k.to_string(), v)).collect(),
        children,
        raw_content: String::new(),
        highlighted: None,
    }
}

fn s(v: &str) -> AttrValue {
    AttrValue::Str(v.into())
}

fn text(v: &str) -> RenderNode {
    RenderNode::Text { value: v.into() }
}

type Render = fn(&ComponentNode, &[(String, String)], bool, &mut Vec<u128>, &mut String);

fn joined(parts: &[&str]) -> String {
    parts.concat()
}

fn render(f: Render, c: &ComponentNode) -> String {
    let mut out = String::new();
    let mut ids = Vec::new();
    f(c, &[], false, &mut ids, &mut out);
    assert!(ids.is_empty());
    out
}

#[test]
fn hero_groups_tagline_actions_and_extras() {
    let c = node(
        "Hero",
        vec![("title", s("Oxidoc")), ("image", s("/hero.png"))],
        vec![
            text("Fast docs"),
            RenderNode::Component(node("HeroAction", vec![("href", s("/start")), ("label", s("Start"))], vec![])),
            RenderNode::Component(node("Badge", vec![("text", s("new"))], vec![])),
        ],
    );
    assert_eq!(
        render(render_static_hero, &c),
        joined(&[
            r#"<section class="oxidoc-hero"><div class="oxidoc-hero-body"><h1 class="oxidoc-hero-title">Oxidoc</h1>"#,
            r#"<div class="oxidoc-hero-tagline">Fast docs</div>"#,
            r#"<div class="oxidoc-hero-actions"><oxidoc-island data-island-type="heroaction" "#,
            r#"data-props="{&quot;href&quot;:&quot;/start&quot;,&quot;label&quot;:&quot;Start&quot;}"></oxidoc-island></div>"#,
            r#"<oxidoc-island data-island-type="badge" data-props="{&quot;text&quot;:&quot;new&quot;}"></oxidoc-island>"#,
            r#"</div><div class="oxidoc-hero-image"><img src="/hero.png" alt="" loading="lazy"></div></section>"#,
        ])
    );
}

#[test]
fn hero_tagline_attribute_wins() {
    let c = node("Hero", vec![("tagline", s("A & B"))], vec![text("ignored")]);
    assert_eq!(
        render(render_static_hero, &c),
        r#"<section class="oxidoc-hero"><div class="oxidoc-hero-body"><p class="oxidoc-hero-tagline">A &amp; B</p></div></section>"#
    );
}

#[test]
fn hero_action_children_and_variant() {
    let c = node("HeroAction", vec![("variant", s("secondary"))], vec![text("Read")]);
    assert_eq!(
        render(render_static_hero_action, &c),
        r##"<a href="#" class="oxidoc-hero-action oxidoc-hero-action-secondary">Read</a>"##
    );
}

#[test]
fn feature_grid_and_feature() {
    let c = node("FeatureGrid", vec![("class", s("wide"))], vec![text("x")]);
    assert_eq!(render(render_static_feature_grid, &c), r#"<div class="oxidoc-feature-grid wide">x</div>"#);
    let f = node("Feature", vec![("icon", s("⚡")), ("title", s("Fast"))], vec![text("Quick builds")]);
    assert_eq!(
        render(render_static_feature, &f),
        joined(&[
            r#"<div class="oxidoc-feature"><div class="oxidoc-feature-icon">⚡</div>"#,
            r#"<h3 class="oxidoc-feature-title">Fast</h3><div class="oxidoc-feature-desc">Quick builds</div></div>"#,
        ])
    );
}

#[test]
fn section_attributes() {
    let c = node(
        "Section",
        vec![("bg", s("muted")), ("class", s("hero")), ("id", s("top")), ("padding", s("4rem 0"))],
        vec![text("inner")],
    );
    assert_eq!(
        render(render_static_section, &c),
        joined(&[
            r#"<section class="oxidoc-section oxidoc-section-muted hero" id="top" style="padding:4rem 0">"#,
            r#"<div class="oxidoc-section-inner">inner</div></section>"#,
        ])
    );
    let bare = node("Section", vec![], vec![]);
    assert_eq!(
        render(render_static_section, &bare),
        r#"<section class="oxidoc-section"><div class="oxidoc-section-inner"></div></section>"#
    );
}

#[test]
fn testimonial_with_author_and_avatar() {
    let c = node(
        "Testimonial",
        vec![("author", s("Ada")), ("role", s("Engineer")), ("avatar", s("/ada.png"))],
        vec![text("Great")],
    );
    assert_eq!(
        render(render_static_testimonial, &c),
        joined(&[
            r#"<div class="oxidoc-testimonial"><div class="oxidoc-testimonial-quote">"#,
            r#"<span class="oxidoc-testimonial-open" aria-hidden="true">&ldquo;</span>Great"#,
            r#"<span class="oxidoc-testimonial-close" aria-hidden="true">&rdquo;</span></div>"#,
            r#"<div class="oxidoc-testimonial-author"><img src="/ada.png" alt="Ada" class="oxidoc-testimonial-avatar" loading="lazy">"#,
            r#"<div class="oxidoc-testimonial-info"><div class="oxidoc-testimonial-name">Ada</div>"#,
            r#"<div class="oxidoc-testimonial-role">Engineer</div></div></div></div>"#,
        ])
    );
    let grid = node("TestimonialGrid", vec![], vec![text("q")]);
    assert_eq!(render(render_static_testimonial_grid, &grid), r#"<div class="oxidoc-testimonial-grid">q</div>"#);
}

#[test]
fn embed_default_aspect_ratio() {
    let c = node("Embed", vec![("src", s("https://x.test/v")), ("title", s("Demo"))], vec![]);
    let mut out = String::new();
    render_static_embed(&c, &mut out);
    assert_eq!(
        out,
        joined(&[
            r#"<div class="oxidoc-embed" style="aspect-ratio:16/9">"#,
            r#"<iframe src="https://x.test/v" title="Demo" loading="lazy" allowfullscreen></iframe></div>"#,
        ])
    );
}

#[test]
fn cta_actions_only_with_children() {
    let c = node("Cta", vec![("title", s("Try it")), ("description", s("Now"))], vec![]);
    assert_eq!(
        render(render_static_cta, &c),
        r#"<div class="oxidoc-cta"><h2 class="oxidoc-cta-title">Try it</h2><p class="oxidoc-cta-description">Now</p></div>"#
    );
    let with = node("Cta", vec![], vec![text("go")]);
    assert_eq!(
        render(render_static_cta, &with),
        r#"<div class="oxidoc-cta"><div class="oxidoc-cta-actions">go</div></div>"#
    );
}

#[test]
fn banner_persisted_for_the_session() {
    let c = node("Banner", vec![("id", s("v2")), ("persist", s("session"))], vec![text("News")]);
    assert_eq!(
        render(render_static_banner, &c),
        joined(&[
            r#"<div class="oxidoc-banner" id="v2" role="banner"><div class="oxidoc-banner-content">News</div>"#,
            r#"<button class="oxidoc-banner-close" aria-label="Dismiss" onclick="this.parentElement.remove();"#,
            r#"try{sessionStorage.setItem('oxidoc-banner-v2-dismissed','1')}catch(e){}">×</button></div>"#,
            r#"<script>(function(){try{if(sessionStorage.getItem('oxidoc-banner-v2-dismissed')==='1')"#,
            r#"{var b=document.getElementById('v2');if(b)b.remove()}}catch(e){}})();</script>"#,
        ])
    );
}

#[test]
fn banner_not_dismissible() {
    let c = node("Banner", vec![("dismissible", s("false"))], vec![]);
    assert_eq!(
        render(render_static_banner, &c),
        r#"<div class="oxidoc-banner" id="oxidoc-banner" role="banner"><div class="oxidoc-banner-content"></div></div>"#
    );
    let b = node("Banner", vec![("dismissible", AttrValue::Bool(false))], vec![]);
    assert!(!render(render_static_banner, &b).contains("button"));
}
