//! Scoped CSS for the API Playground, isolated in its Shadow DOM.
use vstd::prelude::*;

verus! {

broadcast use vstd::string::group_string_axioms;

/// Layout, theme, and structural CSS for the API Playground.
pub const LAYOUT_CSS: &'static str = "\n:host {\n  --oxidoc-api-primary: #3b82f6;\n  --oxidoc-api-success: #10b981;\n  --oxidoc-api-warning: #f59e0b;\n  --oxidoc-api-error: #ef4444;\n  --oxidoc-api-info: #06b6d4;\n  --oxidoc-api-patch: #a855f7;\n  --oxidoc-api-delete: #ef4444;\n  --oxidoc-api-bg: #ffffff;\n  --oxidoc-api-text: #1f2937;\n  --oxidoc-api-border: #e5e7eb;\n  --oxidoc-api-shadow: rgba(0, 0, 0, 0.1);\n}\n\n@media (prefers-color-scheme: dark) {\n  :host {\n    --oxidoc-api-bg: #1f2937;\n    --oxidoc-api-text: #f3f4f6;\n    --oxidoc-api-border: #4b5563;\n    --oxidoc-api-shadow: rgba(0, 0, 0, 0.3);\n  }\n}\n\n.api-playground {\n  font-family: -apple-system, BlinkMacSystemFont, \"Segoe UI\", Roboto, \"Helvetica Neue\", Arial, sans-serif;\n  color: var(--oxidoc-api-text);\n  background: var(--oxidoc-api-bg);\n  border: 1px solid var(--oxidoc-api-border);\n  border-radius: 8px;\n  padding: 24px;\n  margin: 16px 0;\n  box-shadow: 0 1px 3px var(--oxidoc-api-shadow);\n}\n\n.api-header {\n  display: flex;\n  align-items: center;\n  gap: 12px;\n  margin-bottom: 24px;\n  padding-bottom: 16px;\n  border-bottom: 1px solid var(--oxidoc-api-border);\n}\n\n.api-method {\n  display: inline-block;\n  padding: 4px 12px;\n  border-radius: 4px;\n  font-weight: 600;\n  font-size: 12px;\n  text-transform: uppercase;\n  letter-spacing: 0.5px;\n  color: white;\n}\n\n.api-method-get { background-color: var(--oxidoc-api-primary); }\n.api-method-post { background-color: var(--oxidoc-api-success); }\n.api-method-put { background-color: var(--oxidoc-api-warning); }\n.api-method-patch { background-color: var(--oxidoc-api-patch); }\n.api-method-delete { background-color: var(--oxidoc-api-error); }\n.api-method-options { background-color: var(--oxidoc-api-info); }\n\n.api-path {\n  font-family: \"Monaco\", \"Courier New\", monospace;\n  font-size: 14px;\n  font-weight: 500;\n  word-break: break-all;\n}\n\n.api-section {\n  margin-bottom: 24px;\n}\n\n.api-section-title {\n  font-size: 16px;\n  font-weight: 600;\n  margin-bottom: 12px;\n  display: flex;\n  align-items: center;\n  gap: 8px;\n  cursor: pointer;\n  user-select: none;\n}\n\n.api-section-title:hover { opacity: 0.8; }\n\n.api-section-toggle {\n  display: inline-flex;\n  align-items: center;\n  justify-content: center;\n  width: 20px;\n  height: 20px;\n  transition: transform 0.2s ease;\n}\n\n.api-section-toggle.collapsed { transform: rotate(-90deg); }\n\n.api-param-group { display: grid; gap: 12px; }\n\n.api-param-field {\n  display: flex;\n  flex-direction: column;\n  gap: 6px;\n}\n\n.api-param-label {\n  display: flex;\n  align-items: center;\n  gap: 4px;\n  font-size: 14px;\n  font-weight: 500;\n}\n\n.api-param-required {\n  color: var(--oxidoc-api-error);\n  font-weight: 600;\n}\n\n.api-param-type {\n  font-size: 12px;\n  color: var(--oxidoc-api-text);\n  opacity: 0.7;\n  font-family: \"Monaco\", \"Courier New\", monospace;\n}\n\n.api-response-section {\n  border: 1px solid var(--oxidoc-api-border);\n  border-radius: 4px;\n  overflow: hidden;\n}\n\n.api-response-header {\n  padding: 12px;\n  background-color: rgba(0, 0, 0, 0.02);\n  border-bottom: 1px solid var(--oxidoc-api-border);\n  display: flex;\n  align-items: center;\n  justify-content: space-between;\n}\n\n.api-status {\n  font-size: 16px;\n  font-weight: 600;\n  display: flex;\n  align-items: center;\n  gap: 8px;\n}\n\n.api-status-2xx { color: var(--oxidoc-api-success); }\n.api-status-3xx { color: var(--oxidoc-api-info); }\n.api-status-4xx { color: var(--oxidoc-api-warning); }\n.api-status-5xx { color: var(--oxidoc-api-error); }\n\n.api-duration {\n  font-size: 12px;\n  opacity: 0.7;\n}\n\n.api-response-body {\n  padding: 12px;\n  background-color: var(--oxidoc-api-bg);\n  max-height: 400px;\n  overflow-y: auto;\n  font-family: \"Monaco\", \"Courier New\", monospace;\n  font-size: 12px;\n  white-space: pre-wrap;\n  word-wrap: break-word;\n}\n\n.api-error-message {\n  padding: 12px;\n  background-color: rgba(239, 68, 68, 0.1);\n  color: var(--oxidoc-api-error);\n  border: 1px solid var(--oxidoc-api-error);\n  border-radius: 4px;\n  font-size: 14px;\n}\n\n.api-empty-state {\n  padding: 24px;\n  text-align: center;\n  color: var(--oxidoc-api-text);\n  opacity: 0.6;\n}\n";

/// Controls CSS for the API Playground.
pub const CONTROLS_CSS: &'static str = "\n.api-input {\n  padding: 8px 12px;\n  font-size: 14px;\n  border: 1px solid var(--oxidoc-api-border);\n  border-radius: 4px;\n  background-color: var(--oxidoc-api-bg);\n  color: var(--oxidoc-api-text);\n  font-family: \"Monaco\", \"Courier New\", monospace;\n  transition: border-color 0.2s ease, box-shadow 0.2s ease;\n}\n\n.api-input:focus {\n  outline: none;\n  border-color: var(--oxidoc-api-primary);\n  box-shadow: 0 0 0 3px rgba(59, 130, 246, 0.1);\n}\n\n.api-textarea {\n  padding: 12px;\n  font-size: 13px;\n  border: 1px solid var(--oxidoc-api-border);\n  border-radius: 4px;\n  background-color: var(--oxidoc-api-bg);\n  color: var(--oxidoc-api-text);\n  font-family: \"Monaco\", \"Courier New\", monospace;\n  min-height: 150px;\n  resize: vertical;\n  transition: border-color 0.2s ease, box-shadow 0.2s ease;\n}\n\n.api-textarea:focus {\n  outline: none;\n  border-color: var(--oxidoc-api-primary);\n  box-shadow: 0 0 0 3px rgba(59, 130, 246, 0.1);\n}\n\n.api-select {\n  padding: 8px 12px;\n  font-size: 14px;\n  border: 1px solid var(--oxidoc-api-border);\n  border-radius: 4px;\n  background-color: var(--oxidoc-api-bg);\n  color: var(--oxidoc-api-text);\n  cursor: pointer;\n  transition: border-color 0.2s ease, box-shadow 0.2s ease;\n}\n\n.api-select:focus {\n  outline: none;\n  border-color: var(--oxidoc-api-primary);\n  box-shadow: 0 0 0 3px rgba(59, 130, 246, 0.1);\n}\n\n.api-button {\n  padding: 10px 20px;\n  font-size: 14px;\n  font-weight: 600;\n  border: none;\n  border-radius: 4px;\n  cursor: pointer;\n  transition: background-color 0.2s ease, opacity 0.2s ease;\n  display: inline-flex;\n  align-items: center;\n  gap: 8px;\n}\n\n.api-button-primary {\n  background-color: var(--oxidoc-api-primary);\n  color: white;\n}\n\n.api-button-primary:hover:not(:disabled) { opacity: 0.9; }\n.api-button-primary:disabled { opacity: 0.5; cursor: not-allowed; }\n\n.api-button-secondary {\n  background-color: transparent;\n  color: var(--oxidoc-api-primary);\n  border: 1px solid var(--oxidoc-api-primary);\n}\n\n.api-button-secondary:hover:not(:disabled) {\n  background-color: rgba(59, 130, 246, 0.1);\n}\n\n.api-button-secondary:disabled { opacity: 0.5; cursor: not-allowed; }\n\n.api-loading-spinner {\n  display: inline-block;\n  width: 16px;\n  height: 16px;\n  border: 2px solid rgba(59, 130, 246, 0.2);\n  border-top-color: var(--oxidoc-api-primary);\n  border-radius: 50%;\n  animation: spin 0.6s linear infinite;\n}\n\n@keyframes spin {\n  to { transform: rotate(360deg); }\n}\n\n.api-code-snippet {\n  border: 1px solid var(--oxidoc-api-border);\n  border-radius: 4px;\n  overflow: hidden;\n}\n\n.api-code-tabs {\n  display: flex;\n  border-bottom: 1px solid var(--oxidoc-api-border);\n  background-color: rgba(0, 0, 0, 0.02);\n}\n\n.api-code-tab {\n  padding: 12px;\n  font-size: 13px;\n  font-weight: 500;\n  background: transparent;\n  border: none;\n  color: var(--oxidoc-api-text);\n  cursor: pointer;\n  opacity: 0.7;\n  transition: opacity 0.2s ease, background-color 0.2s ease;\n}\n\n.api-code-tab:hover {\n  opacity: 1;\n  background-color: rgba(59, 130, 246, 0.1);\n}\n\n.api-code-tab.active {\n  opacity: 1;\n  color: var(--oxidoc-api-primary);\n  border-bottom: 2px solid var(--oxidoc-api-primary);\n}\n\n.api-code-block {\n  position: relative;\n  background-color: var(--oxidoc-api-bg);\n  padding: 12px;\n}\n\n.api-code-content {\n  font-family: \"Monaco\", \"Courier New\", monospace;\n  font-size: 12px;\n  white-space: pre-wrap;\n  word-wrap: break-word;\n  margin: 0;\n  max-height: 300px;\n  overflow-y: auto;\n}\n\n.api-copy-button {\n  position: absolute;\n  top: 8px;\n  right: 8px;\n  padding: 6px 12px;\n  font-size: 12px;\n  background-color: var(--oxidoc-api-primary);\n  color: white;\n  border: none;\n  border-radius: 4px;\n  cursor: pointer;\n  opacity: 0.8;\n  transition: opacity 0.2s ease;\n}\n\n.api-copy-button:hover { opacity: 1; }\n.api-copy-button.copied { background-color: var(--oxidoc-api-success); }\n\n.api-auth-inputs { display: grid; gap: 12px; }\n\n@media (max-width: 640px) {\n  .api-playground { padding: 16px; }\n\n  .api-header {\n    flex-direction: column;\n    align-items: flex-start;\n  }\n\n  .api-response-header {\n    flex-direction: column;\n    align-items: flex-start;\n    gap: 8px;\n  }\n\n  .api-code-tabs { flex-wrap: wrap; }\n\n  .api-code-tab {\n    flex: 1 1 auto;\n    text-align: center;\n  }\n}\n";

/// Returns the complete CSS for the API Playground Shadow DOM: the layout rules, a line
/// break, then the control rules.
pub fn get_styles() -> (r: String)
    ensures
        r@ == LAYOUT_CSS@ + "\n"@ + CONTROLS_CSS@,
{
    let mut r = String::from_str(LAYOUT_CSS);
    r.append("\n");
    r.append(CONTROLS_CSS);
    r
}

} // verus!
