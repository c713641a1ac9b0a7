use oxidoc::theme::{default_theme, render_css_variables, resolve_theme};

#[test]
fn apply_primary_override() {
    let theme = resolve_theme(Some("#ff0000"), None, None, None);
    assert_eq!(theme.colors_light.primary, "#ff0000");
    assert_eq!(theme.colors_dark.primary, "#ff0000");
}

#[test]
fn apply_accent_override() {
    let theme = resolve_theme(None, Some("#00ff00"), None, None);
    assert_eq!(theme.colors_light.accent, "#00ff00");
    assert_eq!(theme.colors_dark.accent, "#00ff00");
}

#[test]
fn apply_font_override() {
    let theme = resolve_theme(None, None, Some("Georgia"), None);
    assert_eq!(theme.fonts.sans, "Georgia");
}

#[test]
fn apply_code_font_override() {
    let theme = resolve_theme(None, None, None, Some("Courier New"));
    assert_eq!(theme.fonts.mono, "Courier New");
}

#[test]
fn default_theme_has_expected_colors() {
    let theme = default_theme();
    assert_eq!(theme.colors_light.primary, "#2563eb");
    assert_eq!(theme.colors_dark.primary, "#3b82f6");
}

#[test]
fn render_css_variables_system_mode() {
    let theme = default_theme();
    let css = render_css_variables(&theme, "system");
    assert!(css.contains("--oxidoc-primary: #2563eb"));
    assert!(css.contains("--oxidoc-accent: #f59e0b"));
    assert!(css.contains("--oxidoc-success: #10b981"));
    assert!(css.contains("--oxidoc-overlay: rgba(0, 0, 0, 0.4)"));
    assert!(css.contains("prefers-color-scheme: dark"));
    assert!(css.contains("data-theme=\"dark\""));
    assert!(css.contains("data-theme=\"light\""));
    assert!(css.contains("--oxidoc-primary-light:"));
    assert!(css.contains("--oxidoc-shadow-sm:"));
    assert!(css.contains("--oxidoc-z-header:"));
    assert!(css.contains("--oxidoc-transition-fast:"));
}

#[test]
fn render_css_variables_dark_mode() {
    let theme = default_theme();
    let css = render_css_variables(&theme, "dark");
    assert!(css.contains("--oxidoc-primary: #3b82f6"));
    assert!(css.contains("--oxidoc-success: #34d399"));
    assert!(css.contains("color-scheme: dark"));
    assert!(!css.contains("prefers-color-scheme"));
}

#[test]
fn render_css_variables_light_mode() {
    let theme = default_theme();
    let css = render_css_variables(&theme, "light");
    assert!(css.contains("--oxidoc-primary: #2563eb"));
    assert!(css.contains("--oxidoc-success: #10b981"));
    assert!(css.contains("color-scheme: light"));
    assert!(!css.contains("prefers-color-scheme"));
}

#[test]
fn resolve_theme_without_overrides_is_default() {
    let theme = resolve_theme(None, None, None, None);
    let default = default_theme();
    assert_eq!(theme.colors_light.primary, default.colors_light.primary);
    assert_eq!(theme.colors_dark.accent, default.colors_dark.accent);
    assert_eq!(theme.fonts.sans, default.fonts.sans);
    assert_eq!(theme.fonts.mono, default.fonts.mono);
}

#[test]
fn dark_mode_css_is_exact_header() {
    let theme = default_theme();
    let css = render_css_variables(&theme, "dark");
    assert!(css.starts_with(
        "/* Oxidoc Theme Variables — generated */\nhtml { color-scheme: dark; }\n:root {\n    --oxidoc-primary: #3b82f6;\n"
    ));
    assert!(css.ends_with("\n}\n"));
}
