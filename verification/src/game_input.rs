//! The natives of `flash.ui.GameInput` and `flash.ui.GameInputDevice`, and
//! the data of the objects that stand for gamepads.
//!
//! Flash lets anyone construct a `GameInputDevice`; such an object is not a
//! gamepad, so its natives give fixed answers.
use vstd::prelude::*;
use crate::value::{spec_value_from_usize, str_units, units_of, AvmError, ObjectId, Value};

verus! {

/// The handle of a gamepad, as the UI backend knows it.
#[derive(Clone, Copy, Debug, PartialEq, Eq, Structural)]
pub struct GamepadHandle(pub usize);

/// The data of a script object that stands for a gamepad. Many objects can
/// stand for one handle.
#[derive(Clone, Copy, Debug, PartialEq, Eq, Structural)]
pub struct GamepadObjectData {
    handle: GamepadHandle,
}

impl GamepadObjectData {
    pub closed spec fn spec_handle(&self) -> GamepadHandle {
        self.handle
    }

    /// The data of an object standing for the gamepad `handle`.
    pub fn from_handle(handle: GamepadHandle) -> (d: GamepadObjectData)
        ensures
            d.spec_handle() == handle,
    {
        GamepadObjectData { handle }
    }

    pub fn handle(&self) -> (h: GamepadHandle)
        ensures
            h == self.spec_handle(),
    {
        self.handle
    }
}

/// Implements `GameInput`'s `init`, called from the constructor: the new
/// object is registered to hear of gamepads.
pub fn init(gamepad_listeners: &mut Vec<ObjectId>, this: Option<ObjectId>) -> (r: Result<
    Value,
    AvmError,
>)
    ensures
        r == Ok::<Value, AvmError>(Value::Undefined),
        final(gamepad_listeners)@ == (match this {
            Some(o) => old(gamepad_listeners)@.push(o),
            None => old(gamepad_listeners)@,
        }),
{
    if let Some(o) = this {
        gamepad_listeners.push(o);
    }
    Ok(Value::Undefined)
}

/// Implements `isSupported`'s getter: whether the UI backend supports
/// gamepads.
pub fn get_is_supported(ui_supports_gamepads: bool) -> (r: Result<Value, AvmError>)
    ensures
        r == Ok::<Value, AvmError>(Value::Bool(ui_supports_gamepads)),
{
    Ok(Value::Bool(ui_supports_gamepads))
}

/// Implements `enabled`'s getter (a fixed answer).
pub fn get_enabled() -> (r: Result<Value, AvmError>)
    ensures
        r == Ok::<Value, AvmError>(Value::Bool(false)),
{
    Ok(Value::Bool(false))
}

/// Implements `enabled`'s setter (a fixed answer).
pub fn set_enabled() -> (r: Result<Value, AvmError>)
    ensures
        r == Ok::<Value, AvmError>(Value::Undefined),
{
    Ok(Value::Undefined)
}

/// Implements `sampleInterval`'s getter (a fixed answer).
pub fn get_sample_interval() -> (r: Result<Value, AvmError>)
    ensures
        r == Ok::<Value, AvmError>(Value::Integer(0)),
{
    Ok(Value::Integer(0))
}

/// Implements `sampleInterval`'s setter (a fixed answer).
pub fn set_sample_interval() -> (r: Result<Value, AvmError>)
    ensures
        r == Ok::<Value, AvmError>(Value::Undefined),
{
    Ok(Value::Undefined)
}

/// Implements `id`'s getter: the gamepad's handle, or `Null` when the
/// object is not a gamepad.
pub fn get_id(this: Option<&GamepadObjectData>) -> (r: Result<Value, AvmError>)
    ensures
        r == (match this {
            Some(g) => Ok::<Value, AvmError>(spec_value_from_usize(g.spec_handle().0)),
            None => Ok(Value::Null),
        }),
{
    match this {
        Some(g) => Ok(Value::from_usize(g.handle().0)),
        None => Ok(Value::Null),
    }
}

/// Implements `name`'s getter: the name that the UI backend gives the
/// gamepad (`ui_name`, looked up by its handle), or `Null` when the object
/// is not a gamepad or the backend knows no name.
pub fn get_name(this: Option<&GamepadObjectData>, ui_name: Option<&str>) -> (r: Result<
    Value,
    AvmError,
>)
    ensures
        this is Some && ui_name is Some ==> (r matches Ok(Value::String(s)) && s@ == units_of(
            ui_name->0@,
        )),
        this is None || ui_name is None ==> r == Ok::<Value, AvmError>(Value::Null),
{
    if let Some(_g) = this {
        if let Some(name) = ui_name {
            return Ok(Value::String(str_units(name)));
        }
    }
    Ok(Value::Null)
}

/// Implements `numControls`'s getter (a fixed answer).
pub fn get_num_controls() -> (r: Result<Value, AvmError>)
    ensures
        r == Ok::<Value, AvmError>(Value::Integer(0)),
{
    Ok(Value::Integer(0))
}

/// Implements `getCachedSamples` (a fixed answer).
pub fn get_cached_samples() -> (r: Result<Value, AvmError>)
    ensures
        r == Ok::<Value, AvmError>(Value::Integer(0)),
{
    Ok(Value::Integer(0))
}

/// Implements `startCachingSamples` (a fixed answer).
pub fn start_caching_samples() -> (r: Result<Value, AvmError>)
    ensures
        r == Ok::<Value, AvmError>(Value::Undefined),
{
    Ok(Value::Undefined)
}

/// Implements `stopCachingSamples` (a fixed answer).
pub fn stop_caching_samples() -> (r: Result<Value, AvmError>)
    ensures
        r == Ok::<Value, AvmError>(Value::Undefined),
{
    Ok(Value::Undefined)
}

} // verus!
