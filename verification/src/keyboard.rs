//! Keyboard navigation utilities for interactive components.
//!
//! Maps keyboard events to standard actions for dropdowns, tabs, menus and other
//! interactive components.
use vstd::prelude::*;

use crate::text::str_eq;

verus! {

/// Standard keyboard actions for interactive components.
#[derive(Debug, Clone, Copy, PartialEq, Eq, Structural)]
pub enum KeyAction {
    /// Activate/submit: Enter or Space
    Activate,
    /// Dismiss/close: Escape
    Dismiss,
    /// Navigate to next item: ArrowDown or ArrowRight
    Next,
    /// Navigate to previous item: ArrowUp or ArrowLeft
    Previous,
    /// Jump to first item: Home
    First,
    /// Jump to last item: End
    Last,
    /// No action mapped to this key
    Unmapped,
}

/// The action for a `KeyboardEvent.key` value (compared case-sensitively).
pub open spec fn key_action(key: Seq<char>) -> KeyAction {
    if key == "Enter"@ || key == " "@ {
        KeyAction::Activate
    } else if key == "Escape"@ {
        KeyAction::Dismiss
    } else if key == "ArrowDown"@ || key == "ArrowRight"@ {
        KeyAction::Next
    } else if key == "ArrowUp"@ || key == "ArrowLeft"@ {
        KeyAction::Previous
    } else if key == "Home"@ {
        KeyAction::First
    } else if key == "End"@ {
        KeyAction::Last
    } else {
        KeyAction::Unmapped
    }
}

/// Classify a keyboard key into a standard action.
///
/// * `"Enter"` or `" "` (space) → `Activate`
/// * `"Escape"` → `Dismiss`
/// * `"ArrowDown"` or `"ArrowRight"` → `Next`
/// * `"ArrowUp"` or `"ArrowLeft"` → `Previous`
/// * `"Home"` → `First`
/// * `"End"` → `Last`
/// * All other keys → `None`
pub fn classify_key(key: &str) -> (r: KeyAction)
    ensures
        r == key_action(key@),
{
    if str_eq(key, "Enter") || str_eq(key, " ") {
        KeyAction::Activate
    } else if str_eq(key, "Escape") {
        KeyAction::Dismiss
    } else if str_eq(key, "ArrowDown") || str_eq(key, "ArrowRight") {
        KeyAction::Next
    } else if str_eq(key, "ArrowUp") || str_eq(key, "ArrowLeft") {
        KeyAction::Previous
    } else if str_eq(key, "Home") {
        KeyAction::First
    } else if str_eq(key, "End") {
        KeyAction::Last
    } else {
        KeyAction::Unmapped
    }
}

} // verus!
