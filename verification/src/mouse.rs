//! The natives of `flash.ui.Mouse`, which shows and hides the cursor.
use vstd::prelude::*;
use crate::desktop::UiState;
use crate::value::{AvmError, Value};

verus! {

/// The instance initializer: `Mouse` cannot be constructed.
pub fn instance_init() -> (r: Result<Value, AvmError>)
    ensures
        r matches Err(e) && e.message@ == "The Mouse class cannot be constructed."@,
{
    Err(AvmError::new("The Mouse class cannot be constructed."))
}

/// The class initializer, which does nothing.
pub fn class_init() -> (v: Value)
    ensures
        v == Value::Undefined,
{
    Value::Undefined
}

/// `Mouse.hide`: the cursor is hidden, nothing else of the UI changes.
pub fn hide_mouse(ui: &mut UiState) -> (v: Value)
    ensures
        v == Value::Undefined,
        *final(ui) == (UiState { cursor_visible: false, ..*old(ui) }),
{
    ui.set_mouse_visible(false);
    Value::Undefined
}

/// `Mouse.show`: the cursor is shown, nothing else of the UI changes.
pub fn show_mouse(ui: &mut UiState) -> (v: Value)
    ensures
        v == Value::Undefined,
        *final(ui) == (UiState { cursor_visible: true, ..*old(ui) }),
{
    ui.set_mouse_visible(true);
    Value::Undefined
}

} // verus!
