//! Site theme: palettes, fonts, radii and spacing, and the CSS variables they become.
use vstd::prelude::*;

use crate::layout::{contains_text, holds_at};
use crate::text::str_eq;

verus! {

broadcast use vstd::string::group_string_axioms;

/// A fully resolved theme with light and dark palettes.
#[derive(Debug, Clone)]
pub struct ResolvedTheme {
    pub colors_light: ColorPalette,
    pub colors_dark: ColorPalette,
    pub fonts: FontConfig,
    pub radius: RadiusConfig,
    pub spacing: SpacingConfig,
}

/// Color palette for a single mode (light or dark).
#[derive(Debug, Clone)]
pub struct ColorPalette {
    pub bg: String,
    pub bg_secondary: String,
    pub text: String,
    pub text_secondary: String,
    pub border: String,
    pub code_bg: String,
    pub primary: String,
    pub accent: String,
}

/// Font configuration.
#[derive(Debug, Clone)]
pub struct FontConfig {
    pub sans: String,
    pub mono: String,
}

/// Border radius configuration.
#[derive(Debug, Clone)]
pub struct RadiusConfig {
    pub small: String,
    pub medium: String,
    pub large: String,
}

/// Spacing configuration.
#[derive(Debug, Clone)]
pub struct SpacingConfig {
    pub content_max: String,
    pub sidebar_width: String,
    pub toc_width: String,
    pub header_height: String,
}

pub const FONT_SANS: &'static str = "-apple-system, BlinkMacSystemFont, \"Segoe UI\", Roboto, \"Helvetica Neue\", Arial, sans-serif";

pub const FONT_MONO: &'static str = "\"SF Mono\", \"Fira Code\", \"Fira Mono\", \"Roboto Mono\", Menlo, Consolas, monospace";

/// The default Oxidoc theme, value by value.
pub open spec fn is_default_theme(t: ResolvedTheme) -> bool {
    &&& t.colors_light.bg@ == "#ffffff"@
    &&& t.colors_light.bg_secondary@ == "#f8fafc"@
    &&& t.colors_light.text@ == "#1e293b"@
    &&& t.colors_light.text_secondary@ == "#64748b"@
    &&& t.colors_light.border@ == "#e2e8f0"@
    &&& t.colors_light.code_bg@ == "#f1f5f9"@
    &&& t.colors_light.primary@ == "#2563eb"@
    &&& t.colors_light.accent@ == "#f59e0b"@
    &&& t.colors_dark.bg@ == "#0f172a"@
    &&& t.colors_dark.bg_secondary@ == "#1e293b"@
    &&& t.colors_dark.text@ == "#e2e8f0"@
    &&& t.colors_dark.text_secondary@ == "#94a3b8"@
    &&& t.colors_dark.border@ == "#334155"@
    &&& t.colors_dark.code_bg@ == "#1e293b"@
    &&& t.colors_dark.primary@ == "#3b82f6"@
    &&& t.colors_dark.accent@ == "#fbbf24"@
    &&& t.fonts.sans@ == FONT_SANS@
    &&& t.fonts.mono@ == FONT_MONO@
    &&& t.radius.small@ == "0.25rem"@
    &&& t.radius.medium@ == "0.375rem"@
    &&& t.radius.large@ == "0.5rem"@
    &&& t.spacing.content_max@ == "48rem"@
    &&& t.spacing.sidebar_width@ == "16rem"@
    &&& t.spacing.toc_width@ == "14rem"@
    &&& t.spacing.header_height@ == "3.5rem"@
}

/// Get the default Oxidoc theme.
pub fn default_theme() -> (t: ResolvedTheme)
    ensures
        is_default_theme(t),
{
    ResolvedTheme {
        colors_light: ColorPalette {
            bg: String::from_str("#ffffff"),
            bg_secondary: String::from_str("#f8fafc"),
            text: String::from_str("#1e293b"),
            text_secondary: String::from_str("#64748b"),
            border: String::from_str("#e2e8f0"),
            code_bg: String::from_str("#f1f5f9"),
            primary: String::from_str("#2563eb"),
            accent: String::from_str("#f59e0b"),
        },
        colors_dark: ColorPalette {
            bg: String::from_str("#0f172a"),
            bg_secondary: String::from_str("#1e293b"),
            text: String::from_str("#e2e8f0"),
            text_secondary: String::from_str("#94a3b8"),
            border: String::from_str("#334155"),
            code_bg: String::from_str("#1e293b"),
            primary: String::from_str("#3b82f6"),
            accent: String::from_str("#fbbf24"),
        },
        fonts: FontConfig { sans: String::from_str(FONT_SANS), mono: String::from_str(FONT_MONO) },
        radius: RadiusConfig {
            small: String::from_str("0.25rem"),
            medium: String::from_str("0.375rem"),
            large: String::from_str("0.5rem"),
        },
        spacing: SpacingConfig {
            content_max: String::from_str("48rem"),
            sidebar_width: String::from_str("16rem"),
            toc_width: String::from_str("14rem"),
            header_height: String::from_str("3.5rem"),
        },
    }
}

/// Whether `t` is the default theme with the given overrides applied: the primary and
/// accent colors in both palettes, the sans font and the code font.
pub open spec fn is_resolved_theme(
    t: ResolvedTheme,
    primary: Option<Seq<char>>,
    accent: Option<Seq<char>>,
    font: Option<Seq<char>>,
    code_font: Option<Seq<char>>,
) -> bool {
    &&& t.colors_light.bg@ == "#ffffff"@
    &&& t.colors_light.bg_secondary@ == "#f8fafc"@
    &&& t.colors_light.text@ == "#1e293b"@
    &&& t.colors_light.text_secondary@ == "#64748b"@
    &&& t.colors_light.border@ == "#e2e8f0"@
    &&& t.colors_light.code_bg@ == "#f1f5f9"@
    &&& t.colors_light.primary@ == (match primary { Some(p) => p, None => "#2563eb"@ })
    &&& t.colors_light.accent@ == (match accent { Some(a) => a, None => "#f59e0b"@ })
    &&& t.colors_dark.bg@ == "#0f172a"@
    &&& t.colors_dark.bg_secondary@ == "#1e293b"@
    &&& t.colors_dark.text@ == "#e2e8f0"@
    &&& t.colors_dark.text_secondary@ == "#94a3b8"@
    &&& t.colors_dark.border@ == "#334155"@
    &&& t.colors_dark.code_bg@ == "#1e293b"@
    &&& t.colors_dark.primary@ == (match primary { Some(p) => p, None => "#3b82f6"@ })
    &&& t.colors_dark.accent@ == (match accent { Some(a) => a, None => "#fbbf24"@ })
    &&& t.fonts.sans@ == (match font { Some(f) => f, None => FONT_SANS@ })
    &&& t.fonts.mono@ == (match code_font { Some(f) => f, None => FONT_MONO@ })
    &&& t.radius.small@ == "0.25rem"@
    &&& t.radius.medium@ == "0.375rem"@
    &&& t.radius.large@ == "0.5rem"@
    &&& t.spacing.content_max@ == "48rem"@
    &&& t.spacing.sidebar_width@ == "16rem"@
    &&& t.spacing.toc_width@ == "14rem"@
    &&& t.spacing.header_height@ == "3.5rem"@
}

pub open spec fn opt_view(o: Option<&str>) -> Option<Seq<char>> {
    match o {
        Some(s) => Some(s@),
        None => None,
    }
}

/// Resolving a theme without overrides gives the default theme.
pub proof fn lemma_resolve_without_overrides(t: ResolvedTheme)
    requires
        is_resolved_theme(t, None, None, None, None),
    ensures
        is_default_theme(t),
{
}

/// Resolve a theme from convenience config overrides.
/// Starts from the default theme and applies any overrides.
pub fn resolve_theme(
    primary_override: Option<&str>,
    accent_override: Option<&str>,
    font_override: Option<&str>,
    code_font_override: Option<&str>,
) -> (t: ResolvedTheme)
    ensures
        is_resolved_theme(
            t,
            opt_view(primary_override),
            opt_view(accent_override),
            opt_view(font_override),
            opt_view(code_font_override),
        ),
{
    let mut theme = default_theme();
    if let Some(primary) = primary_override {
        theme.colors_light.primary = String::from_str(primary);
        theme.colors_dark.primary = String::from_str(primary);
    }
    if let Some(accent) = accent_override {
        theme.colors_light.accent = String::from_str(accent);
        theme.colors_dark.accent = String::from_str(accent);
    }
    if let Some(font) = font_override {
        theme.fonts.sans = String::from_str(font);
    }
    if let Some(code_font) = code_font_override {
        theme.fonts.mono = String::from_str(code_font);
    }
    theme
}

pub const SEMANTIC_VARS_LIGHT: &'static str = "    --oxidoc-success: #10b981;\n    --oxidoc-success-text: #059669;\n    --oxidoc-warning: #f59e0b;\n    --oxidoc-warning-text: #b45309;\n    --oxidoc-error: #ef4444;\n    --oxidoc-error-text: #dc2626;\n    --oxidoc-info: #3b82f6;\n    --oxidoc-info-text: #2563eb;\n    --oxidoc-new: #8b5cf6;\n    --oxidoc-new-text: #7c3aed;\n    --oxidoc-deprecated: #6b7280;\n    --oxidoc-deprecated-text: #4b5563;\n    --oxidoc-text-muted: #6b7280;\n    --oxidoc-bg-subtle: #f3f4f6;\n    --oxidoc-on-primary: #fff;\n    --oxidoc-shadow: rgba(0, 0, 0, 0.1);\n    --oxidoc-overlay: rgba(0, 0, 0, 0.4);\n    --oxidoc-primary-light: color-mix(in srgb, var(--oxidoc-primary) 70%, #fff);\n    --oxidoc-primary-dark: color-mix(in srgb, var(--oxidoc-primary) 70%, #000);\n    --oxidoc-primary-lighter: color-mix(in srgb, var(--oxidoc-primary) 40%, #fff);\n    --oxidoc-primary-darker: color-mix(in srgb, var(--oxidoc-primary) 40%, #000);\n    --oxidoc-shadow-sm: 0 1px 2px rgba(0, 0, 0, 0.05);\n    --oxidoc-shadow-md: 0 4px 12px rgba(0, 0, 0, 0.1);\n    --oxidoc-shadow-lg: 0 12px 36px rgba(0, 0, 0, 0.15);\n    --oxidoc-z-header: 100;\n    --oxidoc-z-sidebar: 90;\n    --oxidoc-z-overlay: 1000;\n    --oxidoc-z-tooltip: 10;\n    --oxidoc-z-back-to-top: 50;\n    --oxidoc-z-skip-nav: 200;\n    --oxidoc-transition-fast: 0.15s ease;\n    --oxidoc-transition-normal: 0.25s ease;\n    --oxidoc-transition-slow: 0.4s ease;\n    --oxidoc-transition-spring: 0.5s cubic-bezier(0.19, 1, 0.22, 1);";

pub const SEMANTIC_VARS_DARK: &'static str = "    --oxidoc-success: #34d399;\n    --oxidoc-success-text: #6ee7b7;\n    --oxidoc-warning: #fbbf24;\n    --oxidoc-warning-text: #fcd34d;\n    --oxidoc-error: #f87171;\n    --oxidoc-error-text: #fca5a5;\n    --oxidoc-info: #60a5fa;\n    --oxidoc-info-text: #93c5fd;\n    --oxidoc-new: #a78bfa;\n    --oxidoc-new-text: #c4b5fd;\n    --oxidoc-deprecated: #9ca3af;\n    --oxidoc-deprecated-text: #d1d5db;\n    --oxidoc-text-muted: #9ca3af;\n    --oxidoc-bg-subtle: #1e293b;\n    --oxidoc-on-primary: #fff;\n    --oxidoc-shadow: rgba(0, 0, 0, 0.3);\n    --oxidoc-overlay: rgba(0, 0, 0, 0.6);\n    --oxidoc-primary-light: color-mix(in srgb, var(--oxidoc-primary) 70%, #1e293b);\n    --oxidoc-primary-dark: color-mix(in srgb, var(--oxidoc-primary) 70%, #000);\n    --oxidoc-primary-lighter: color-mix(in srgb, var(--oxidoc-primary) 40%, #1e293b);\n    --oxidoc-primary-darker: color-mix(in srgb, var(--oxidoc-primary) 40%, #000);\n    --oxidoc-shadow-sm: 0 1px 2px rgba(0, 0, 0, 0.15);\n    --oxidoc-shadow-md: 0 4px 12px rgba(0, 0, 0, 0.25);\n    --oxidoc-shadow-lg: 0 12px 36px rgba(0, 0, 0, 0.4);\n    --oxidoc-z-header: 100;\n    --oxidoc-z-sidebar: 90;\n    --oxidoc-z-overlay: 1000;\n    --oxidoc-z-tooltip: 10;\n    --oxidoc-z-back-to-top: 50;\n    --oxidoc-z-skip-nav: 200;\n    --oxidoc-transition-fast: 0.15s ease;\n    --oxidoc-transition-normal: 0.25s ease;\n    --oxidoc-transition-slow: 0.4s ease;\n    --oxidoc-transition-spring: 0.5s cubic-bezier(0.19, 1, 0.22, 1);";

pub const CSS_DARK_1: &'static str = "/* Oxidoc Theme Variables — generated */\nhtml { color-scheme: dark; }\n:root {\n    --oxidoc-primary: ";

pub const CSS_DARK_2: &'static str = ";\n    --oxidoc-accent: ";

pub const CSS_DARK_3: &'static str = ";\n    --oxidoc-bg: ";

pub const CSS_DARK_4: &'static str = ";\n    --oxidoc-bg-secondary: ";

pub const CSS_DARK_5: &'static str = ";\n    --oxidoc-text: ";

pub const CSS_DARK_6: &'static str = ";\n    --oxidoc-text-secondary: ";

pub const CSS_DARK_7: &'static str = ";\n    --oxidoc-border: ";

pub const CSS_DARK_8: &'static str = ";\n    --oxidoc-code-bg: ";

pub const CSS_DARK_9: &'static str = ";\n    --oxidoc-font-sans: ";

pub const CSS_DARK_10: &'static str = ";\n    --oxidoc-font-mono: ";

pub const CSS_DARK_11: &'static str = ";\n    --oxidoc-radius-sm: ";

pub const CSS_DARK_12: &'static str = ";\n    --oxidoc-radius-md: ";

pub const CSS_DARK_13: &'static str = ";\n    --oxidoc-radius-lg: ";

pub const CSS_DARK_14: &'static str = ";\n    --oxidoc-content-max: ";

pub const CSS_DARK_15: &'static str = ";\n    --oxidoc-sidebar-width: ";

pub const CSS_DARK_16: &'static str = ";\n    --oxidoc-toc-width: ";

pub const CSS_DARK_17: &'static str = ";\n    --oxidoc-header-height: ";

pub const CSS_DARK_18: &'static str = ";\n";

pub const CSS_DARK_19: &'static str = "\n}\n";

pub const CSS_LIGHT_1: &'static str = "/* Oxidoc Theme Variables — generated */\nhtml { color-scheme: light; }\n:root {\n    --oxidoc-primary: ";

pub const CSS_LIGHT_2: &'static str = ";\n    --oxidoc-accent: ";

pub const CSS_LIGHT_3: &'static str = ";\n    --oxidoc-bg: ";

pub const CSS_LIGHT_4: &'static str = ";\n    --oxidoc-bg-secondary: ";

pub const CSS_LIGHT_5: &'static str = ";\n    --oxidoc-text: ";

pub const CSS_LIGHT_6: &'static str = ";\n    --oxidoc-text-secondary: ";

pub const CSS_LIGHT_7: &'static str = ";\n    --oxidoc-border: ";

pub const CSS_LIGHT_8: &'static str = ";\n    --oxidoc-code-bg: ";

pub const CSS_LIGHT_9: &'static str = ";\n    --oxidoc-font-sans: ";

pub const CSS_LIGHT_10: &'static str = ";\n    --oxidoc-font-mono: ";

pub const CSS_LIGHT_11: &'static str = ";\n    --oxidoc-radius-sm: ";

pub const CSS_LIGHT_12: &'static str = ";\n    --oxidoc-radius-md: ";

pub const CSS_LIGHT_13: &'static str = ";\n    --oxidoc-radius-lg: ";

pub const CSS_LIGHT_14: &'static str = ";\n    --oxidoc-content-max: ";

pub const CSS_LIGHT_15: &'static str = ";\n    --oxidoc-sidebar-width: ";

pub const CSS_LIGHT_16: &'static str = ";\n    --oxidoc-toc-width: ";

pub const CSS_LIGHT_17: &'static str = ";\n    --oxidoc-header-height: ";

pub const CSS_LIGHT_18: &'static str = ";\n";

pub const CSS_LIGHT_19: &'static str = "\n}\n";

pub const CSS_SYSTEM_1: &'static str = "/* Oxidoc Theme Variables — generated */\n:root {\n    --oxidoc-primary: ";

pub const CSS_SYSTEM_2: &'static str = ";\n    --oxidoc-accent: ";

pub const CSS_SYSTEM_3: &'static str = ";\n    --oxidoc-bg: ";

pub const CSS_SYSTEM_4: &'static str = ";\n    --oxidoc-bg-secondary: ";

pub const CSS_SYSTEM_5: &'static str = ";\n    --oxidoc-text: ";

pub const CSS_SYSTEM_6: &'static str = ";\n    --oxidoc-text-secondary: ";

pub const CSS_SYSTEM_7: &'static str = ";\n    --oxidoc-border: ";

pub const CSS_SYSTEM_8: &'static str = ";\n    --oxidoc-code-bg: ";

pub const CSS_SYSTEM_9: &'static str = ";\n    --oxidoc-font-sans: ";

pub const CSS_SYSTEM_10: &'static str = ";\n    --oxidoc-font-mono: ";

pub const CSS_SYSTEM_11: &'static str = ";\n    --oxidoc-radius-sm: ";

pub const CSS_SYSTEM_12: &'static str = ";\n    --oxidoc-radius-md: ";

pub const CSS_SYSTEM_13: &'static str = ";\n    --oxidoc-radius-lg: ";

pub const CSS_SYSTEM_14: &'static str = ";\n    --oxidoc-content-max: ";

pub const CSS_SYSTEM_15: &'static str = ";\n    --oxidoc-sidebar-width: ";

pub const CSS_SYSTEM_16: &'static str = ";\n    --oxidoc-toc-width: ";

pub const CSS_SYSTEM_17: &'static str = ";\n    --oxidoc-header-height: ";

pub const CSS_SYSTEM_18: &'static str = ";\n";

pub const CSS_SYSTEM_19: &'static str = "\n}\n\n@media (prefers-color-scheme: dark) {\n    :root {\n        --oxidoc-primary: ";

pub const CSS_SYSTEM_20: &'static str = ";\n        --oxidoc-accent: ";

pub const CSS_SYSTEM_21: &'static str = ";\n        --oxidoc-bg: ";

pub const CSS_SYSTEM_22: &'static str = ";\n        --oxidoc-bg-secondary: ";

pub const CSS_SYSTEM_23: &'static str = ";\n        --oxidoc-text: ";

pub const CSS_SYSTEM_24: &'static str = ";\n        --oxidoc-text-secondary: ";

pub const CSS_SYSTEM_25: &'static str = ";\n        --oxidoc-border: ";

pub const CSS_SYSTEM_26: &'static str = ";\n        --oxidoc-code-bg: ";

pub const CSS_SYSTEM_27: &'static str = ";\n";

pub const CSS_SYSTEM_28: &'static str = "\n    }\n}\n\nhtml[data-theme=\"dark\"] {\n    --oxidoc-primary: ";

pub const CSS_SYSTEM_29: &'static str = ";\n    --oxidoc-accent: ";

pub const CSS_SYSTEM_30: &'static str = ";\n    --oxidoc-bg: ";

pub const CSS_SYSTEM_31: &'static str = ";\n    --oxidoc-bg-secondary: ";

pub const CSS_SYSTEM_32: &'static str = ";\n    --oxidoc-text: ";

pub const CSS_SYSTEM_33: &'static str = ";\n    --oxidoc-text-secondary: ";

pub const CSS_SYSTEM_34: &'static str = ";\n    --oxidoc-border: ";

pub const CSS_SYSTEM_35: &'static str = ";\n    --oxidoc-code-bg: ";

pub const CSS_SYSTEM_36: &'static str = ";\n";

pub const CSS_SYSTEM_37: &'static str = "\n}\n\nhtml[data-theme=\"light\"] {\n    --oxidoc-primary: ";

pub const CSS_SYSTEM_38: &'static str = ";\n    --oxidoc-accent: ";

pub const CSS_SYSTEM_39: &'static str = ";\n    --oxidoc-bg: ";

pub const CSS_SYSTEM_40: &'static str = ";\n    --oxidoc-bg-secondary: ";

pub const CSS_SYSTEM_41: &'static str = ";\n    --oxidoc-text: ";

pub const CSS_SYSTEM_42: &'static str = ";\n    --oxidoc-text-secondary: ";

pub const CSS_SYSTEM_43: &'static str = ";\n    --oxidoc-border: ";

pub const CSS_SYSTEM_44: &'static str = ";\n    --oxidoc-code-bg: ";

pub const CSS_SYSTEM_45: &'static str = ";\n";

pub const CSS_SYSTEM_46: &'static str = "\n}\n";

/// The theme stylesheet for `dark` mode.
pub open spec fn css_dark(theme: ResolvedTheme) -> Seq<char> {
    CSS_DARK_1@ + theme.colors_dark.primary@ + CSS_DARK_2@ + theme.colors_dark.accent@ + CSS_DARK_3@ + theme.colors_dark.bg@ + CSS_DARK_4@ + theme.colors_dark.bg_secondary@ + CSS_DARK_5@ + theme.colors_dark.text@ + CSS_DARK_6@ + theme.colors_dark.text_secondary@ + CSS_DARK_7@ + theme.colors_dark.border@ + CSS_DARK_8@ + theme.colors_dark.code_bg@ + CSS_DARK_9@ + theme.fonts.sans@ + CSS_DARK_10@ + theme.fonts.mono@ + CSS_DARK_11@ + theme.radius.small@ + CSS_DARK_12@ + theme.radius.medium@ + CSS_DARK_13@ + theme.radius.large@ + CSS_DARK_14@ + theme.spacing.content_max@ + CSS_DARK_15@ + theme.spacing.sidebar_width@ + CSS_DARK_16@ + theme.spacing.toc_width@ + CSS_DARK_17@ + theme.spacing.header_height@ + CSS_DARK_18@ + SEMANTIC_VARS_DARK@ + CSS_DARK_19@
}

fn render_css_dark(theme: &ResolvedTheme) -> (out: String)
    ensures
        out@ == css_dark(*theme),
{
    let mut out = String::from_str(CSS_DARK_1);
    out.append(theme.colors_dark.primary.as_str());
    out.append(CSS_DARK_2);
    out.append(theme.colors_dark.accent.as_str());
    out.append(CSS_DARK_3);
    out.append(theme.colors_dark.bg.as_str());
    out.append(CSS_DARK_4);
    out.append(theme.colors_dark.bg_secondary.as_str());
    out.append(CSS_DARK_5);
    out.append(theme.colors_dark.text.as_str());
    out.append(CSS_DARK_6);
    out.append(theme.colors_dark.text_secondary.as_str());
    out.append(CSS_DARK_7);
    out.append(theme.colors_dark.border.as_str());
    out.append(CSS_DARK_8);
    out.append(theme.colors_dark.code_bg.as_str());
    out.append(CSS_DARK_9);
    out.append(theme.fonts.sans.as_str());
    out.append(CSS_DARK_10);
    out.append(theme.fonts.mono.as_str());
    out.append(CSS_DARK_11);
    out.append(theme.radius.small.as_str());
    out.append(CSS_DARK_12);
    out.append(theme.radius.medium.as_str());
    out.append(CSS_DARK_13);
    out.append(theme.radius.large.as_str());
    out.append(CSS_DARK_14);
    out.append(theme.spacing.content_max.as_str());
    out.append(CSS_DARK_15);
    out.append(theme.spacing.sidebar_width.as_str());
    out.append(CSS_DARK_16);
    out.append(theme.spacing.toc_width.as_str());
    out.append(CSS_DARK_17);
    out.append(theme.spacing.header_height.as_str());
    out.append(CSS_DARK_18);
    out.append(SEMANTIC_VARS_DARK);
    out.append(CSS_DARK_19);
    out
}

/// The theme stylesheet for `light` mode.
pub open spec fn css_light(theme: ResolvedTheme) -> Seq<char> {
    CSS_LIGHT_1@ + theme.colors_light.primary@ + CSS_LIGHT_2@ + theme.colors_light.accent@ + CSS_LIGHT_3@ + theme.colors_light.bg@ + CSS_LIGHT_4@ + theme.colors_light.bg_secondary@ + CSS_LIGHT_5@ + theme.colors_light.text@ + CSS_LIGHT_6@ + theme.colors_light.text_secondary@ + CSS_LIGHT_7@ + theme.colors_light.border@ + CSS_LIGHT_8@ + theme.colors_light.code_bg@ + CSS_LIGHT_9@ + theme.fonts.sans@ + CSS_LIGHT_10@ + theme.fonts.mono@ + CSS_LIGHT_11@ + theme.radius.small@ + CSS_LIGHT_12@ + theme.radius.medium@ + CSS_LIGHT_13@ + theme.radius.large@ + CSS_LIGHT_14@ + theme.spacing.content_max@ + CSS_LIGHT_15@ + theme.spacing.sidebar_width@ + CSS_LIGHT_16@ + theme.spacing.toc_width@ + CSS_LIGHT_17@ + theme.spacing.header_height@ + CSS_LIGHT_18@ + SEMANTIC_VARS_LIGHT@ + CSS_LIGHT_19@
}

fn render_css_light(theme: &ResolvedTheme) -> (out: String)
    ensures
        out@ == css_light(*theme),
{
    let mut out = String::from_str(CSS_LIGHT_1);
    out.append(theme.colors_light.primary.as_str());
    out.append(CSS_LIGHT_2);
    out.append(theme.colors_light.accent.as_str());
    out.append(CSS_LIGHT_3);
    out.append(theme.colors_light.bg.as_str());
    out.append(CSS_LIGHT_4);
    out.append(theme.colors_light.bg_secondary.as_str());
    out.append(CSS_LIGHT_5);
    out.append(theme.colors_light.text.as_str());
    out.append(CSS_LIGHT_6);
    out.append(theme.colors_light.text_secondary.as_str());
    out.append(CSS_LIGHT_7);
    out.append(theme.colors_light.border.as_str());
    out.append(CSS_LIGHT_8);
    out.append(theme.colors_light.code_bg.as_str());
    out.append(CSS_LIGHT_9);
    out.append(theme.fonts.sans.as_str());
    out.append(CSS_LIGHT_10);
    out.append(theme.fonts.mono.as_str());
    out.append(CSS_LIGHT_11);
    out.append(theme.radius.small.as_str());
    out.append(CSS_LIGHT_12);
    out.append(theme.radius.medium.as_str());
    out.append(CSS_LIGHT_13);
    out.append(theme.radius.large.as_str());
    out.append(CSS_LIGHT_14);
    out.append(theme.spacing.content_max.as_str());
    out.append(CSS_LIGHT_15);
    out.append(theme.spacing.sidebar_width.as_str());
    out.append(CSS_LIGHT_16);
    out.append(theme.spacing.toc_width.as_str());
    out.append(CSS_LIGHT_17);
    out.append(theme.spacing.header_height.as_str());
    out.append(CSS_LIGHT_18);
    out.append(SEMANTIC_VARS_LIGHT);
    out.append(CSS_LIGHT_19);
    out
}

/// The theme stylesheet for `system` mode.
pub open spec fn css_system(theme: ResolvedTheme) -> Seq<char> {
    CSS_SYSTEM_1@ + theme.colors_light.primary@ + CSS_SYSTEM_2@ + theme.colors_light.accent@ + CSS_SYSTEM_3@ + theme.colors_light.bg@ + CSS_SYSTEM_4@ + theme.colors_light.bg_secondary@ + CSS_SYSTEM_5@ + theme.colors_light.text@ + CSS_SYSTEM_6@ + theme.colors_light.text_secondary@ + CSS_SYSTEM_7@ + theme.colors_light.border@ + CSS_SYSTEM_8@ + theme.colors_light.code_bg@ + CSS_SYSTEM_9@ + theme.fonts.sans@ + CSS_SYSTEM_10@ + theme.fonts.mono@ + CSS_SYSTEM_11@ + theme.radius.small@ + CSS_SYSTEM_12@ + theme.radius.medium@ + CSS_SYSTEM_13@ + theme.radius.large@ + CSS_SYSTEM_14@ + theme.spacing.content_max@ + CSS_SYSTEM_15@ + theme.spacing.sidebar_width@ + CSS_SYSTEM_16@ + theme.spacing.toc_width@ + CSS_SYSTEM_17@ + theme.spacing.header_height@ + CSS_SYSTEM_18@ + SEMANTIC_VARS_LIGHT@ + CSS_SYSTEM_19@ + theme.colors_dark.primary@ + CSS_SYSTEM_20@ + theme.colors_dark.accent@ + CSS_SYSTEM_21@ + theme.colors_dark.bg@ + CSS_SYSTEM_22@ + theme.colors_dark.bg_secondary@ + CSS_SYSTEM_23@ + theme.colors_dark.text@ + CSS_SYSTEM_24@ + theme.colors_dark.text_secondary@ + CSS_SYSTEM_25@ + theme.colors_dark.border@ + CSS_SYSTEM_26@ + theme.colors_dark.code_bg@ + CSS_SYSTEM_27@ + SEMANTIC_VARS_DARK@ + CSS_SYSTEM_28@ + theme.colors_dark.primary@ + CSS_SYSTEM_29@ + theme.colors_dark.accent@ + CSS_SYSTEM_30@ + theme.colors_dark.bg@ + CSS_SYSTEM_31@ + theme.colors_dark.bg_secondary@ + CSS_SYSTEM_32@ + theme.colors_dark.text@ + CSS_SYSTEM_33@ + theme.colors_dark.text_secondary@ + CSS_SYSTEM_34@ + theme.colors_dark.border@ + CSS_SYSTEM_35@ + theme.colors_dark.code_bg@ + CSS_SYSTEM_36@ + SEMANTIC_VARS_DARK@ + CSS_SYSTEM_37@ + theme.colors_light.primary@ + CSS_SYSTEM_38@ + theme.colors_light.accent@ + CSS_SYSTEM_39@ + theme.colors_light.bg@ + CSS_SYSTEM_40@ + theme.colors_light.bg_secondary@ + CSS_SYSTEM_41@ + theme.colors_light.text@ + CSS_SYSTEM_42@ + theme.colors_light.text_secondary@ + CSS_SYSTEM_43@ + theme.colors_light.border@ + CSS_SYSTEM_44@ + theme.colors_light.code_bg@ + CSS_SYSTEM_45@ + SEMANTIC_VARS_LIGHT@ + CSS_SYSTEM_46@
}

fn render_css_system(theme: &ResolvedTheme) -> (out: String)
    ensures
        out@ == css_system(*theme),
{
    let mut out = String::from_str(CSS_SYSTEM_1);
    out.append(theme.colors_light.primary.as_str());
    out.append(CSS_SYSTEM_2);
    out.append(theme.colors_light.accent.as_str());
    out.append(CSS_SYSTEM_3);
    out.append(theme.colors_light.bg.as_str());
    out.append(CSS_SYSTEM_4);
    out.append(theme.colors_light.bg_secondary.as_str());
    out.append(CSS_SYSTEM_5);
    out.append(theme.colors_light.text.as_str());
    out.append(CSS_SYSTEM_6);
    out.append(theme.colors_light.text_secondary.as_str());
    out.append(CSS_SYSTEM_7);
    out.append(theme.colors_light.border.as_str());
    out.append(CSS_SYSTEM_8);
    out.append(theme.colors_light.code_bg.as_str());
    out.append(CSS_SYSTEM_9);
    out.append(theme.fonts.sans.as_str());
    out.append(CSS_SYSTEM_10);
    out.append(theme.fonts.mono.as_str());
    out.append(CSS_SYSTEM_11);
    out.append(theme.radius.small.as_str());
    out.append(CSS_SYSTEM_12);
    out.append(theme.radius.medium.as_str());
    out.append(CSS_SYSTEM_13);
    out.append(theme.radius.large.as_str());
    out.append(CSS_SYSTEM_14);
    out.append(theme.spacing.content_max.as_str());
    out.append(CSS_SYSTEM_15);
    out.append(theme.spacing.sidebar_width.as_str());
    out.append(CSS_SYSTEM_16);
    out.append(theme.spacing.toc_width.as_str());
    out.append(CSS_SYSTEM_17);
    out.append(theme.spacing.header_height.as_str());
    out.append(CSS_SYSTEM_18);
    out.append(SEMANTIC_VARS_LIGHT);
    out.append(CSS_SYSTEM_19);
    out.append(theme.colors_dark.primary.as_str());
    out.append(CSS_SYSTEM_20);
    out.append(theme.colors_dark.accent.as_str());
    out.append(CSS_SYSTEM_21);
    out.append(theme.colors_dark.bg.as_str());
    out.append(CSS_SYSTEM_22);
    out.append(theme.colors_dark.bg_secondary.as_str());
    out.append(CSS_SYSTEM_23);
    out.append(theme.colors_dark.text.as_str());
    out.append(CSS_SYSTEM_24);
    out.append(theme.colors_dark.text_secondary.as_str());
    out.append(CSS_SYSTEM_25);
    out.append(theme.colors_dark.border.as_str());
    out.append(CSS_SYSTEM_26);
    out.append(theme.colors_dark.code_bg.as_str());
    out.append(CSS_SYSTEM_27);
    out.append(SEMANTIC_VARS_DARK);
    out.append(CSS_SYSTEM_28);
    out.append(theme.colors_dark.primary.as_str());
    out.append(CSS_SYSTEM_29);
    out.append(theme.colors_dark.accent.as_str());
    out.append(CSS_SYSTEM_30);
    out.append(theme.colors_dark.bg.as_str());
    out.append(CSS_SYSTEM_31);
    out.append(theme.colors_dark.bg_secondary.as_str());
    out.append(CSS_SYSTEM_32);
    out.append(theme.colors_dark.text.as_str());
    out.append(CSS_SYSTEM_33);
    out.append(theme.colors_dark.text_secondary.as_str());
    out.append(CSS_SYSTEM_34);
    out.append(theme.colors_dark.border.as_str());
    out.append(CSS_SYSTEM_35);
    out.append(theme.colors_dark.code_bg.as_str());
    out.append(CSS_SYSTEM_36);
    out.append(SEMANTIC_VARS_DARK);
    out.append(CSS_SYSTEM_37);
    out.append(theme.colors_light.primary.as_str());
    out.append(CSS_SYSTEM_38);
    out.append(theme.colors_light.accent.as_str());
    out.append(CSS_SYSTEM_39);
    out.append(theme.colors_light.bg.as_str());
    out.append(CSS_SYSTEM_40);
    out.append(theme.colors_light.bg_secondary.as_str());
    out.append(CSS_SYSTEM_41);
    out.append(theme.colors_light.text.as_str());
    out.append(CSS_SYSTEM_42);
    out.append(theme.colors_light.text_secondary.as_str());
    out.append(CSS_SYSTEM_43);
    out.append(theme.colors_light.border.as_str());
    out.append(CSS_SYSTEM_44);
    out.append(theme.colors_light.code_bg.as_str());
    out.append(CSS_SYSTEM_45);
    out.append(SEMANTIC_VARS_LIGHT);
    out.append(CSS_SYSTEM_46);
    out
}

/// The theme stylesheet for a color-scheme setting: `"dark"` and `"light"` force one
/// palette; anything else follows the system preference, with a manual toggle.
pub open spec fn css_variables(theme: ResolvedTheme, dark_mode: Seq<char>) -> Seq<char> {
    if dark_mode == "dark"@ {
        css_dark(theme)
    } else if dark_mode == "light"@ {
        css_light(theme)
    } else {
        css_system(theme)
    }
}

/// The default `:root` block of the system scheme: the palette's colors.
pub open spec fn system_root_block(c: ColorPalette) -> Seq<char> {
    CSS_SYSTEM_1@ + c.primary@ + CSS_SYSTEM_2@ + c.accent@ + CSS_SYSTEM_3@ + c.bg@ + CSS_SYSTEM_4@ + c.bg_secondary@ + CSS_SYSTEM_5@ + c.text@ + CSS_SYSTEM_6@ + c.text_secondary@ + CSS_SYSTEM_7@ + c.border@ + CSS_SYSTEM_8@ + c.code_bg@ + CSS_SYSTEM_9@
}

/// The `:root` block inside `@media (prefers-color-scheme: dark)`: the palette's colors.
pub open spec fn system_media_block(c: ColorPalette) -> Seq<char> {
    CSS_SYSTEM_19@ + c.primary@ + CSS_SYSTEM_20@ + c.accent@ + CSS_SYSTEM_21@ + c.bg@ + CSS_SYSTEM_22@ + c.bg_secondary@ + CSS_SYSTEM_23@ + c.text@ + CSS_SYSTEM_24@ + c.text_secondary@ + CSS_SYSTEM_25@ + c.border@ + CSS_SYSTEM_26@ + c.code_bg@ + CSS_SYSTEM_27@
}

/// The `html[data-theme="dark"]` block: the palette's colors.
pub open spec fn system_dark_block(c: ColorPalette) -> Seq<char> {
    CSS_SYSTEM_28@ + c.primary@ + CSS_SYSTEM_29@ + c.accent@ + CSS_SYSTEM_30@ + c.bg@ + CSS_SYSTEM_31@ + c.bg_secondary@ + CSS_SYSTEM_32@ + c.text@ + CSS_SYSTEM_33@ + c.text_secondary@ + CSS_SYSTEM_34@ + c.border@ + CSS_SYSTEM_35@ + c.code_bg@ + CSS_SYSTEM_36@
}

/// The `html[data-theme="light"]` block: the palette's colors.
pub open spec fn system_light_block(c: ColorPalette) -> Seq<char> {
    CSS_SYSTEM_37@ + c.primary@ + CSS_SYSTEM_38@ + c.accent@ + CSS_SYSTEM_39@ + c.bg@ + CSS_SYSTEM_40@ + c.bg_secondary@ + CSS_SYSTEM_41@ + c.text@ + CSS_SYSTEM_42@ + c.text_secondary@ + CSS_SYSTEM_43@ + c.border@ + CSS_SYSTEM_44@ + c.code_bg@ + CSS_SYSTEM_45@
}

#[verifier::spinoff_prover]
proof fn lemma_system_root_block(theme: ResolvedTheme)
    ensures
        contains_text(css_system(theme), system_root_block(theme.colors_light)),
{
    let blk = system_root_block(theme.colors_light);
    let r = blk;
    assert(r.subrange(0, blk.len() as int) =~= blk);
    lemma_holds_at_start_extend(r, blk, theme.fonts.sans@);
    let r = r + theme.fonts.sans@;
    lemma_holds_at_start_extend(r, blk, CSS_SYSTEM_10@);
    let r = r + CSS_SYSTEM_10@;
    lemma_holds_at_start_extend(r, blk, theme.fonts.mono@);
    let r = r + theme.fonts.mono@;
    lemma_holds_at_start_extend(r, blk, CSS_SYSTEM_11@);
    let r = r + CSS_SYSTEM_11@;
    lemma_holds_at_start_extend(r, blk, theme.radius.small@);
    let r = r + theme.radius.small@;
    lemma_holds_at_start_extend(r, blk, CSS_SYSTEM_12@);
    let r = r + CSS_SYSTEM_12@;
    lemma_holds_at_start_extend(r, blk, theme.radius.medium@);
    let r = r + theme.radius.medium@;
    lemma_holds_at_start_extend(r, blk, CSS_SYSTEM_13@);
    let r = r + CSS_SYSTEM_13@;
    lemma_holds_at_start_extend(r, blk, theme.radius.large@);
    let r = r + theme.radius.large@;
    lemma_holds_at_start_extend(r, blk, CSS_SYSTEM_14@);
    let r = r + CSS_SYSTEM_14@;
    lemma_holds_at_start_extend(r, blk, theme.spacing.content_max@);
    let r = r + theme.spacing.content_max@;
    lemma_holds_at_start_extend(r, blk, CSS_SYSTEM_15@);
    let r = r + CSS_SYSTEM_15@;
    lemma_holds_at_start_extend(r, blk, theme.spacing.sidebar_width@);
    let r = r + theme.spacing.sidebar_width@;
    lemma_holds_at_start_extend(r, blk, CSS_SYSTEM_16@);
    let r = r + CSS_SYSTEM_16@;
    lemma_holds_at_start_extend(r, blk, theme.spacing.toc_width@);
    let r = r + theme.spacing.toc_width@;
    lemma_holds_at_start_extend(r, blk, CSS_SYSTEM_17@);
    let r = r + CSS_SYSTEM_17@;
    lemma_holds_at_start_extend(r, blk, theme.spacing.header_height@);
    let r = r + theme.spacing.header_height@;
    lemma_holds_at_start_extend(r, blk, CSS_SYSTEM_18@);
    let r = r + CSS_SYSTEM_18@;
    lemma_holds_at_start_extend(r, blk, SEMANTIC_VARS_LIGHT@);
    let r = r + SEMANTIC_VARS_LIGHT@;
    lemma_holds_at_start_extend(r, blk, CSS_SYSTEM_19@);
    let r = r + CSS_SYSTEM_19@;
    lemma_holds_at_start_extend(r, blk, theme.colors_dark.primary@);
    let r = r + theme.colors_dark.primary@;
    lemma_holds_at_start_extend(r, blk, CSS_SYSTEM_20@);
    let r = r + CSS_SYSTEM_20@;
    lemma_holds_at_start_extend(r, blk, theme.colors_dark.accent@);
    let r = r + theme.colors_dark.accent@;
    lemma_holds_at_start_extend(r, blk, CSS_SYSTEM_21@);
    let r = r + CSS_SYSTEM_21@;
    lemma_holds_at_start_extend(r, blk, theme.colors_dark.bg@);
    let r = r + theme.colors_dark.bg@;
    lemma_holds_at_start_extend(r, blk, CSS_SYSTEM_22@);
    let r = r + CSS_SYSTEM_22@;
    lemma_holds_at_start_extend(r, blk, theme.colors_dark.bg_secondary@);
    let r = r + theme.colors_dark.bg_secondary@;
    lemma_holds_at_start_extend(r, blk, CSS_SYSTEM_23@);
    let r = r + CSS_SYSTEM_23@;
    lemma_holds_at_start_extend(r, blk, theme.colors_dark.text@);
    let r = r + theme.colors_dark.text@;
    lemma_holds_at_start_extend(r, blk, CSS_SYSTEM_24@);
    let r = r + CSS_SYSTEM_24@;
    lemma_holds_at_start_extend(r, blk, theme.colors_dark.text_secondary@);
    let r = r + theme.colors_dark.text_secondary@;
    lemma_holds_at_start_extend(r, blk, CSS_SYSTEM_25@);
    let r = r + CSS_SYSTEM_25@;
    lemma_holds_at_start_extend(r, blk, theme.colors_dark.border@);
    let r = r + theme.colors_dark.border@;
    lemma_holds_at_start_extend(r, blk, CSS_SYSTEM_26@);
    let r = r + CSS_SYSTEM_26@;
    lemma_holds_at_start_extend(r, blk, theme.colors_dark.code_bg@);
    let r = r + theme.colors_dark.code_bg@;
    lemma_holds_at_start_extend(r, blk, CSS_SYSTEM_27@);
    let r = r + CSS_SYSTEM_27@;
    lemma_holds_at_start_extend(r, blk, SEMANTIC_VARS_DARK@);
    let r = r + SEMANTIC_VARS_DARK@;
    lemma_holds_at_start_extend(r, blk, CSS_SYSTEM_28@);
    let r = r + CSS_SYSTEM_28@;
    lemma_holds_at_start_extend(r, blk, theme.colors_dark.primary@);
    let r = r + theme.colors_dark.primary@;
    lemma_holds_at_start_extend(r, blk, CSS_SYSTEM_29@);
    let r = r + CSS_SYSTEM_29@;
    lemma_holds_at_start_extend(r, blk, theme.colors_dark.accent@);
    let r = r + theme.colors_dark.accent@;
    lemma_holds_at_start_extend(r, blk, CSS_SYSTEM_30@);
    let r = r + CSS_SYSTEM_30@;
    lemma_holds_at_start_extend(r, blk, theme.colors_dark.bg@);
    let r = r + theme.colors_dark.bg@;
    lemma_holds_at_start_extend(r, blk, CSS_SYSTEM_31@);
    let r = r + CSS_SYSTEM_31@;
    lemma_holds_at_start_extend(r, blk, theme.colors_dark.bg_secondary@);
    let r = r + theme.colors_dark.bg_secondary@;
    lemma_holds_at_start_extend(r, blk, CSS_SYSTEM_32@);
    let r = r + CSS_SYSTEM_32@;
    lemma_holds_at_start_extend(r, blk, theme.colors_dark.text@);
    let r = r + theme.colors_dark.text@;
    lemma_holds_at_start_extend(r, blk, CSS_SYSTEM_33@);
    let r = r + CSS_SYSTEM_33@;
    lemma_holds_at_start_extend(r, blk, theme.colors_dark.text_secondary@);
    let r = r + theme.colors_dark.text_secondary@;
    lemma_holds_at_start_extend(r, blk, CSS_SYSTEM_34@);
    let r = r + CSS_SYSTEM_34@;
    lemma_holds_at_start_extend(r, blk, theme.colors_dark.border@);
    let r = r + theme.colors_dark.border@;
    lemma_holds_at_start_extend(r, blk, CSS_SYSTEM_35@);
    let r = r + CSS_SYSTEM_35@;
    lemma_holds_at_start_extend(r, blk, theme.colors_dark.code_bg@);
    let r = r + theme.colors_dark.code_bg@;
    lemma_holds_at_start_extend(r, blk, CSS_SYSTEM_36@);
    let r = r + CSS_SYSTEM_36@;
    lemma_holds_at_start_extend(r, blk, SEMANTIC_VARS_DARK@);
    let r = r + SEMANTIC_VARS_DARK@;
    lemma_holds_at_start_extend(r, blk, CSS_SYSTEM_37@);
    let r = r + CSS_SYSTEM_37@;
    lemma_holds_at_start_extend(r, blk, theme.colors_light.primary@);
    let r = r + theme.colors_light.primary@;
    lemma_holds_at_start_extend(r, blk, CSS_SYSTEM_38@);
    let r = r + CSS_SYSTEM_38@;
    lemma_holds_at_start_extend(r, blk, theme.colors_light.accent@);
    let r = r + theme.colors_light.accent@;
    lemma_holds_at_start_extend(r, blk, CSS_SYSTEM_39@);
    let r = r + CSS_SYSTEM_39@;
    lemma_holds_at_start_extend(r, blk, theme.colors_light.bg@);
    let r = r + theme.colors_light.bg@;
    lemma_holds_at_start_extend(r, blk, CSS_SYSTEM_40@);
    let r = r + CSS_SYSTEM_40@;
    lemma_holds_at_start_extend(r, blk, theme.colors_light.bg_secondary@);
    let r = r + theme.colors_light.bg_secondary@;
    lemma_holds_at_start_extend(r, blk, CSS_SYSTEM_41@);
    let r = r + CSS_SYSTEM_41@;
    lemma_holds_at_start_extend(r, blk, theme.colors_light.text@);
    let r = r + theme.colors_light.text@;
    lemma_holds_at_start_extend(r, blk, CSS_SYSTEM_42@);
    let r = r + CSS_SYSTEM_42@;
    lemma_holds_at_start_extend(r, blk, theme.colors_light.text_secondary@);
    let r = r + theme.colors_light.text_secondary@;
    lemma_holds_at_start_extend(r, blk, CSS_SYSTEM_43@);
    let r = r + CSS_SYSTEM_43@;
    lemma_holds_at_start_extend(r, blk, theme.colors_light.border@);
    let r = r + theme.colors_light.border@;
    lemma_holds_at_start_extend(r, blk, CSS_SYSTEM_44@);
    let r = r + CSS_SYSTEM_44@;
    lemma_holds_at_start_extend(r, blk, theme.colors_light.code_bg@);
    let r = r + theme.colors_light.code_bg@;
    lemma_holds_at_start_extend(r, blk, CSS_SYSTEM_45@);
    let r = r + CSS_SYSTEM_45@;
    lemma_holds_at_start_extend(r, blk, SEMANTIC_VARS_LIGHT@);
    let r = r + SEMANTIC_VARS_LIGHT@;
    lemma_holds_at_start_extend(r, blk, CSS_SYSTEM_46@);
    let r = r + CSS_SYSTEM_46@;
    assert(r == css_system(theme));
    assert(holds_at(css_system(theme), 0, blk));
}

/// A text that begins with `piece` still does after more is appended.
proof fn lemma_holds_at_start_extend(r: Seq<char>, piece: Seq<char>, extra: Seq<char>)
    requires
        holds_at(r, 0, piece),
    ensures
        holds_at(r + extra, 0, piece),
{
    assert((r + extra).subrange(0, piece.len() as int) =~= r.subrange(0, piece.len() as int));
}

#[verifier::spinoff_prover]
#[verifier::rlimit(100)]
proof fn lemma_system_media_block(theme: ResolvedTheme)
    ensures
    contains_text(css_system(theme), system_media_block(theme.colors_dark)),
{
    let pre = CSS_SYSTEM_1@ + theme.colors_light.primary@ + CSS_SYSTEM_2@ + theme.colors_light.accent@ + CSS_SYSTEM_3@ + theme.colors_light.bg@ + CSS_SYSTEM_4@ + theme.colors_light.bg_secondary@ + CSS_SYSTEM_5@ + theme.colors_light.text@ + CSS_SYSTEM_6@ + theme.colors_light.text_secondary@ + CSS_SYSTEM_7@ + theme.colors_light.border@ + CSS_SYSTEM_8@ + theme.colors_light.code_bg@ + CSS_SYSTEM_9@ + theme.fonts.sans@ + CSS_SYSTEM_10@ + theme.fonts.mono@ + CSS_SYSTEM_11@ + theme.radius.small@ + CSS_SYSTEM_12@ + theme.radius.medium@ + CSS_SYSTEM_13@ + theme.radius.large@ + CSS_SYSTEM_14@ + theme.spacing.content_max@ + CSS_SYSTEM_15@ + theme.spacing.sidebar_width@ + CSS_SYSTEM_16@ + theme.spacing.toc_width@ + CSS_SYSTEM_17@ + theme.spacing.header_height@ + CSS_SYSTEM_18@ + SEMANTIC_VARS_LIGHT@;
    let blk = system_media_block(theme.colors_dark);
    let post = SEMANTIC_VARS_DARK@ + CSS_SYSTEM_28@ + theme.colors_dark.primary@ + CSS_SYSTEM_29@ + theme.colors_dark.accent@ + CSS_SYSTEM_30@ + theme.colors_dark.bg@ + CSS_SYSTEM_31@ + theme.colors_dark.bg_secondary@ + CSS_SYSTEM_32@ + theme.colors_dark.text@ + CSS_SYSTEM_33@ + theme.colors_dark.text_secondary@ + CSS_SYSTEM_34@ + theme.colors_dark.border@ + CSS_SYSTEM_35@ + theme.colors_dark.code_bg@ + CSS_SYSTEM_36@ + SEMANTIC_VARS_DARK@ + CSS_SYSTEM_37@ + theme.colors_light.primary@ + CSS_SYSTEM_38@ + theme.colors_light.accent@ + CSS_SYSTEM_39@ + theme.colors_light.bg@ + CSS_SYSTEM_40@ + theme.colors_light.bg_secondary@ + CSS_SYSTEM_41@ + theme.colors_light.text@ + CSS_SYSTEM_42@ + theme.colors_light.text_secondary@ + CSS_SYSTEM_43@ + theme.colors_light.border@ + CSS_SYSTEM_44@ + theme.colors_light.code_bg@ + CSS_SYSTEM_45@ + SEMANTIC_VARS_LIGHT@ + CSS_SYSTEM_46@;
    assert(css_system(theme) =~= pre + blk + post);
    assert(css_system(theme).subrange(pre.len() as int, (pre.len() + blk.len()) as int) =~= blk);
    assert(holds_at(css_system(theme), pre.len() as int, blk));
}

#[verifier::spinoff_prover]
#[verifier::rlimit(100)]
proof fn lemma_system_dark_block(theme: ResolvedTheme)
    ensures
    contains_text(css_system(theme), system_dark_block(theme.colors_dark)),
{
    let pre = CSS_SYSTEM_1@ + theme.colors_light.primary@ + CSS_SYSTEM_2@ + theme.colors_light.accent@ + CSS_SYSTEM_3@ + theme.colors_light.bg@ + CSS_SYSTEM_4@ + theme.colors_light.bg_secondary@ + CSS_SYSTEM_5@ + theme.colors_light.text@ + CSS_SYSTEM_6@ + theme.colors_light.text_secondary@ + CSS_SYSTEM_7@ + theme.colors_light.border@ + CSS_SYSTEM_8@ + theme.colors_light.code_bg@ + CSS_SYSTEM_9@ + theme.fonts.sans@ + CSS_SYSTEM_10@ + theme.fonts.mono@ + CSS_SYSTEM_11@ + theme.radius.small@ + CSS_SYSTEM_12@ + theme.radius.medium@ + CSS_SYSTEM_13@ + theme.radius.large@ + CSS_SYSTEM_14@ + theme.spacing.content_max@ + CSS_SYSTEM_15@ + theme.spacing.sidebar_width@ + CSS_SYSTEM_16@ + theme.spacing.toc_width@ + CSS_SYSTEM_17@ + theme.spacing.header_height@ + CSS_SYSTEM_18@ + SEMANTIC_VARS_LIGHT@ + CSS_SYSTEM_19@ + theme.colors_dark.primary@ + CSS_SYSTEM_20@ + theme.colors_dark.accent@ + CSS_SYSTEM_21@ + theme.colors_dark.bg@ + CSS_SYSTEM_22@ + theme.colors_dark.bg_secondary@ + CSS_SYSTEM_23@ + theme.colors_dark.text@ + CSS_SYSTEM_24@ + theme.colors_dark.text_secondary@ + CSS_SYSTEM_25@ + theme.colors_dark.border@ + CSS_SYSTEM_26@ + theme.colors_dark.code_bg@ + CSS_SYSTEM_27@ + SEMANTIC_VARS_DARK@;
    let blk = system_dark_block(theme.colors_dark);
    let post = SEMANTIC_VARS_DARK@ + CSS_SYSTEM_37@ + theme.colors_light.primary@ + CSS_SYSTEM_38@ + theme.colors_light.accent@ + CSS_SYSTEM_39@ + theme.colors_light.bg@ + CSS_SYSTEM_40@ + theme.colors_light.bg_secondary@ + CSS_SYSTEM_41@ + theme.colors_light.text@ + CSS_SYSTEM_42@ + theme.colors_light.text_secondary@ + CSS_SYSTEM_43@ + theme.colors_light.border@ + CSS_SYSTEM_44@ + theme.colors_light.code_bg@ + CSS_SYSTEM_45@ + SEMANTIC_VARS_LIGHT@ + CSS_SYSTEM_46@;
    assert(css_system(theme) =~= pre + blk + post);
    assert(css_system(theme).subrange(pre.len() as int, (pre.len() + blk.len()) as int) =~= blk);
    assert(holds_at(css_system(theme), pre.len() as int, blk));
}

#[verifier::spinoff_prover]
#[verifier::rlimit(100)]
proof fn lemma_system_light_block(theme: ResolvedTheme)
    ensures
    contains_text(css_system(theme), system_light_block(theme.colors_light)),
{
    let pre = CSS_SYSTEM_1@ + theme.colors_light.primary@ + CSS_SYSTEM_2@ + theme.colors_light.accent@ + CSS_SYSTEM_3@ + theme.colors_light.bg@ + CSS_SYSTEM_4@ + theme.colors_light.bg_secondary@ + CSS_SYSTEM_5@ + theme.colors_light.text@ + CSS_SYSTEM_6@ + theme.colors_light.text_secondary@ + CSS_SYSTEM_7@ + theme.colors_light.border@ + CSS_SYSTEM_8@ + theme.colors_light.code_bg@ + CSS_SYSTEM_9@ + theme.fonts.sans@ + CSS_SYSTEM_10@ + theme.fonts.mono@ + CSS_SYSTEM_11@ + theme.radius.small@ + CSS_SYSTEM_12@ + theme.radius.medium@ + CSS_SYSTEM_13@ + theme.radius.large@ + CSS_SYSTEM_14@ + theme.spacing.content_max@ + CSS_SYSTEM_15@ + theme.spacing.sidebar_width@ + CSS_SYSTEM_16@ + theme.spacing.toc_width@ + CSS_SYSTEM_17@ + theme.spacing.header_height@ + CSS_SYSTEM_18@ + SEMANTIC_VARS_LIGHT@ + CSS_SYSTEM_19@ + theme.colors_dark.primary@ + CSS_SYSTEM_20@ + theme.colors_dark.accent@ + CSS_SYSTEM_21@ + theme.colors_dark.bg@ + CSS_SYSTEM_22@ + theme.colors_dark.bg_secondary@ + CSS_SYSTEM_23@ + theme.colors_dark.text@ + CSS_SYSTEM_24@ + theme.colors_dark.text_secondary@ + CSS_SYSTEM_25@ + theme.colors_dark.border@ + CSS_SYSTEM_26@ + theme.colors_dark.code_bg@ + CSS_SYSTEM_27@ + SEMANTIC_VARS_DARK@ + CSS_SYSTEM_28@ + theme.colors_dark.primary@ + CSS_SYSTEM_29@ + theme.colors_dark.accent@ + CSS_SYSTEM_30@ + theme.colors_dark.bg@ + CSS_SYSTEM_31@ + theme.colors_dark.bg_secondary@ + CSS_SYSTEM_32@ + theme.colors_dark.text@ + CSS_SYSTEM_33@ + theme.colors_dark.text_secondary@ + CSS_SYSTEM_34@ + theme.colors_dark.border@ + CSS_SYSTEM_35@ + theme.colors_dark.code_bg@ + CSS_SYSTEM_36@ + SEMANTIC_VARS_DARK@;
    let blk = system_light_block(theme.colors_light);
    let post = SEMANTIC_VARS_LIGHT@ + CSS_SYSTEM_46@;
    assert(css_system(theme) =~= pre + blk + post);
    assert(css_system(theme).subrange(pre.len() as int, (pre.len() + blk.len()) as int) =~= blk);
    assert(holds_at(css_system(theme), pre.len() as int, blk));
}

/// Law: in the system color scheme, the default `:root` block and the
/// `html[data-theme="light"]` block set the light palette, while the block for
/// `prefers-color-scheme: dark` and the `html[data-theme="dark"]` block set the dark
/// palette: every color of each block comes from the palette of its scheme.
pub proof fn law_system_css_palettes(theme: ResolvedTheme)
    ensures
        contains_text(css_variables(theme, "system"@), system_root_block(theme.colors_light)),
        contains_text(css_variables(theme, "system"@), system_media_block(theme.colors_dark)),
        contains_text(css_variables(theme, "system"@), system_dark_block(theme.colors_dark)),
        contains_text(css_variables(theme, "system"@), system_light_block(theme.colors_light)),
{
    reveal_strlit("system");
    reveal_strlit("dark");
    reveal_strlit("light");
    assert("system"@.len() == 6 && "dark"@.len() == 4 && "light"@.len() == 5);
    assert(css_variables(theme, "system"@) == css_system(theme));
    lemma_system_root_block(theme);
    lemma_system_media_block(theme);
    lemma_system_dark_block(theme);
    lemma_system_light_block(theme);
}

/// The `:root` block of the dark scheme: the palette's colors.
pub open spec fn dark_root_block(c: ColorPalette) -> Seq<char> {
    CSS_DARK_1@ + c.primary@ + CSS_DARK_2@ + c.accent@ + CSS_DARK_3@ + c.bg@ + CSS_DARK_4@ + c.bg_secondary@ + CSS_DARK_5@ + c.text@ + CSS_DARK_6@ + c.text_secondary@ + CSS_DARK_7@ + c.border@ + CSS_DARK_8@ + c.code_bg@ + CSS_DARK_9@
}

/// The `:root` block of the light scheme: the palette's colors.
pub open spec fn light_root_block(c: ColorPalette) -> Seq<char> {
    CSS_LIGHT_1@ + c.primary@ + CSS_LIGHT_2@ + c.accent@ + CSS_LIGHT_3@ + c.bg@ + CSS_LIGHT_4@ + c.bg_secondary@ + CSS_LIGHT_5@ + c.text@ + CSS_LIGHT_6@ + c.text_secondary@ + CSS_LIGHT_7@ + c.border@ + CSS_LIGHT_8@ + c.code_bg@ + CSS_LIGHT_9@
}

#[verifier::spinoff_prover]
proof fn lemma_dark_root_block(theme: ResolvedTheme)
    ensures
        holds_at(css_dark(theme), 0, dark_root_block(theme.colors_dark)),
{
    let blk = dark_root_block(theme.colors_dark);
    let r = blk;
    assert(r.subrange(0, blk.len() as int) =~= blk);
    lemma_holds_at_start_extend(r, blk, theme.fonts.sans@);
    let r = r + theme.fonts.sans@;
    lemma_holds_at_start_extend(r, blk, CSS_DARK_10@);
    let r = r + CSS_DARK_10@;
    lemma_holds_at_start_extend(r, blk, theme.fonts.mono@);
    let r = r + theme.fonts.mono@;
    lemma_holds_at_start_extend(r, blk, CSS_DARK_11@);
    let r = r + CSS_DARK_11@;
    lemma_holds_at_start_extend(r, blk, theme.radius.small@);
    let r = r + theme.radius.small@;
    lemma_holds_at_start_extend(r, blk, CSS_DARK_12@);
    let r = r + CSS_DARK_12@;
    lemma_holds_at_start_extend(r, blk, theme.radius.medium@);
    let r = r + theme.radius.medium@;
    lemma_holds_at_start_extend(r, blk, CSS_DARK_13@);
    let r = r + CSS_DARK_13@;
    lemma_holds_at_start_extend(r, blk, theme.radius.large@);
    let r = r + theme.radius.large@;
    lemma_holds_at_start_extend(r, blk, CSS_DARK_14@);
    let r = r + CSS_DARK_14@;
    lemma_holds_at_start_extend(r, blk, theme.spacing.content_max@);
    let r = r + theme.spacing.content_max@;
    lemma_holds_at_start_extend(r, blk, CSS_DARK_15@);
    let r = r + CSS_DARK_15@;
    lemma_holds_at_start_extend(r, blk, theme.spacing.sidebar_width@);
    let r = r + theme.spacing.sidebar_width@;
    lemma_holds_at_start_extend(r, blk, CSS_DARK_16@);
    let r = r + CSS_DARK_16@;
    lemma_holds_at_start_extend(r, blk, theme.spacing.toc_width@);
    let r = r + theme.spacing.toc_width@;
    lemma_holds_at_start_extend(r, blk, CSS_DARK_17@);
    let r = r + CSS_DARK_17@;
    lemma_holds_at_start_extend(r, blk, theme.spacing.header_height@);
    let r = r + theme.spacing.header_height@;
    lemma_holds_at_start_extend(r, blk, CSS_DARK_18@);
    let r = r + CSS_DARK_18@;
    lemma_holds_at_start_extend(r, blk, SEMANTIC_VARS_DARK@);
    let r = r + SEMANTIC_VARS_DARK@;
    lemma_holds_at_start_extend(r, blk, CSS_DARK_19@);
    let r = r + CSS_DARK_19@;
    assert(r == css_dark(theme));
}

#[verifier::spinoff_prover]
proof fn lemma_light_root_block(theme: ResolvedTheme)
    ensures
        holds_at(css_light(theme), 0, light_root_block(theme.colors_light)),
{
    let blk = light_root_block(theme.colors_light);
    let r = blk;
    assert(r.subrange(0, blk.len() as int) =~= blk);
    lemma_holds_at_start_extend(r, blk, theme.fonts.sans@);
    let r = r + theme.fonts.sans@;
    lemma_holds_at_start_extend(r, blk, CSS_LIGHT_10@);
    let r = r + CSS_LIGHT_10@;
    lemma_holds_at_start_extend(r, blk, theme.fonts.mono@);
    let r = r + theme.fonts.mono@;
    lemma_holds_at_start_extend(r, blk, CSS_LIGHT_11@);
    let r = r + CSS_LIGHT_11@;
    lemma_holds_at_start_extend(r, blk, theme.radius.small@);
    let r = r + theme.radius.small@;
    lemma_holds_at_start_extend(r, blk, CSS_LIGHT_12@);
    let r = r + CSS_LIGHT_12@;
    lemma_holds_at_start_extend(r, blk, theme.radius.medium@);
    let r = r + theme.radius.medium@;
    lemma_holds_at_start_extend(r, blk, CSS_LIGHT_13@);
    let r = r + CSS_LIGHT_13@;
    lemma_holds_at_start_extend(r, blk, theme.radius.large@);
    let r = r + theme.radius.large@;
    lemma_holds_at_start_extend(r, blk, CSS_LIGHT_14@);
    let r = r + CSS_LIGHT_14@;
    lemma_holds_at_start_extend(r, blk, theme.spacing.content_max@);
    let r = r + theme.spacing.content_max@;
    lemma_holds_at_start_extend(r, blk, CSS_LIGHT_15@);
    let r = r + CSS_LIGHT_15@;
    lemma_holds_at_start_extend(r, blk, theme.spacing.sidebar_width@);
    let r = r + theme.spacing.sidebar_width@;
    lemma_holds_at_start_extend(r, blk, CSS_LIGHT_16@);
    let r = r + CSS_LIGHT_16@;
    lemma_holds_at_start_extend(r, blk, theme.spacing.toc_width@);
    let r = r + theme.spacing.toc_width@;
    lemma_holds_at_start_extend(r, blk, CSS_LIGHT_17@);
    let r = r + CSS_LIGHT_17@;
    lemma_holds_at_start_extend(r, blk, theme.spacing.header_height@);
    let r = r + theme.spacing.header_height@;
    lemma_holds_at_start_extend(r, blk, CSS_LIGHT_18@);
    let r = r + CSS_LIGHT_18@;
    lemma_holds_at_start_extend(r, blk, SEMANTIC_VARS_LIGHT@);
    let r = r + SEMANTIC_VARS_LIGHT@;
    lemma_holds_at_start_extend(r, blk, CSS_LIGHT_19@);
    let r = r + CSS_LIGHT_19@;
    assert(r == css_light(theme));
}

/// Law: in the dark color scheme the CSS opens with the `:root` block of the dark
/// palette, and in the light scheme with that of the light palette.
pub proof fn law_single_scheme_css_palettes(theme: ResolvedTheme)
    ensures
        holds_at(css_variables(theme, "dark"@), 0, dark_root_block(theme.colors_dark)),
        holds_at(css_variables(theme, "light"@), 0, light_root_block(theme.colors_light)),
{
    reveal_strlit("dark");
    reveal_strlit("light");
    assert("dark"@.len() == 4 && "light"@.len() == 5);
    lemma_dark_root_block(theme);
    lemma_light_root_block(theme);
}

/// Generate CSS variables for theme.
pub fn render_css_variables(theme: &ResolvedTheme, dark_mode: &str) -> (r: String)
    ensures
        r@ == css_variables(*theme, dark_mode@),
{
    if str_eq(dark_mode, "dark") {
        render_css_dark(theme)
    } else if str_eq(dark_mode, "light") {
        render_css_light(theme)
    } else {
        render_css_system(theme)
    }
}

} // verus!
