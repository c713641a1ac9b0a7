use oxidoc::keyboard::{classify_key, KeyAction};

#[test]
fn classify_activate_keys() {
    assert_eq!(classify_key("Enter"), KeyAction::Activate);
    assert_eq!(classify_key(" "), KeyAction::Activate);
}

#[test]
fn classify_dismiss_key() {
    assert_eq!(classify_key("Escape"), KeyAction::Dismiss);
}

#[test]
fn classify_next_keys() {
    assert_eq!(classify_key("ArrowDown"), KeyAction::Next);
    assert_eq!(classify_key("ArrowRight"), KeyAction::Next);
}

#[test]
fn classify_previous_keys() {
    assert_eq!(classify_key("ArrowUp"), KeyAction::Previous);
    assert_eq!(classify_key("ArrowLeft"), KeyAction::Previous);
}

#[test]
fn classify_first_key() {
    assert_eq!(classify_key("Home"), KeyAction::First);
}

#[test]
fn classify_last_key() {
    assert_eq!(classify_key("End"), KeyAction::Last);
}

#[test]
fn classify_unknown_keys() {
    assert_eq!(classify_key("Unknown"), KeyAction::Unmapped);
    assert_eq!(classify_key("a"), KeyAction::Unmapped);
    assert_eq!(classify_key("1"), KeyAction::Unmapped);
    assert_eq!(classify_key("Meta"), KeyAction::Unmapped);
    assert_eq!(classify_key(""), KeyAction::Unmapped);
}

#[test]
fn key_action_derives() {
    let action = KeyAction::Activate;
    let cloned = action;
    assert_eq!(action, cloned);
    assert_eq!(format!("{:?}", action), "Activate");
}

#[test]
fn classify_key_case_sensitive() {
    assert_eq!(classify_key("enter"), KeyAction::Unmapped);
    assert_eq!(classify_key("ENTER"), KeyAction::Unmapped);
    assert_eq!(classify_key("escape"), KeyAction::Unmapped);
    assert_eq!(classify_key("ESCAPE"), KeyAction::Unmapped);
}
