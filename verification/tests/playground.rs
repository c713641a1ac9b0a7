use oxidoc::playground::{default_type, ApiPlayground, ParameterDef};
use oxidoc::styles::get_styles;

#[test]
fn mod_test_parameter_def_default_type() {
    let param = ParameterDef {
        name: "test".into(),
        location: "query".into(),
        param_type: default_type(),
        required: false,
    };
    assert_eq!(param.param_type, "string");
}

#[test]
fn types_test_parameter_def_default_type() {
    let param = ParameterDef {
        name: "test".into(),
        location: "query".into(),
        param_type: default_type(),
        required: false,
    };
    assert_eq!(param.param_type, "string");
}

#[test]
fn playground_island_type() {
    assert_eq!(ApiPlayground::island_type(), "api-playground");
}

#[test]
fn styles_include_layout_and_controls() {
    let css = get_styles();
    assert!(!css.is_empty());
    assert!(css.contains(".api-playground") || css.contains("api-playground"));
}
