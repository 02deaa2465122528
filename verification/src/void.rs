//! The builtin `void` class: a class with an instance side only, whose
//! initialisers do nothing.
use vstd::prelude::*;
use crate::value::{str_units, units_of, AvmError, ObjectId, Value};

verus! {

/// The native methods that a builtin class definition can name.
#[derive(Clone, Copy, Debug, PartialEq, Eq, Structural)]
pub enum NativeMethod {
    VoidInit,
}

/// A builtin class definition as the player registers it: its name in the
/// public namespace of the running player version, its superclass, its two
/// initialisers and how far its set-up has gone.
pub struct ClassDefinition {
    pub name: Vec<u16>,
    pub in_public_namespace: bool,
    pub has_super_class: bool,
    pub instance_init: NativeMethod,
    pub class_init: NativeMethod,
    pub traits_loaded: bool,
    pub vtable_initialized: bool,
}

/// The initialiser of `void`, on either side: it ignores its receiver and
/// arguments and answers `undefined`.
pub fn void_init(_this: ObjectId, _args: &[Value]) -> (r: Result<Value, AvmError>)
    ensures
        r == Ok::<Value, AvmError>(Value::Undefined),
{
    Ok(Value::Undefined)
}

/// The definition of `void`: public, without superclass, with `void_init`
/// on both sides, its traits loaded and its vtable set up. A class with no
/// superclass and no traits has nothing that could make the vtable fail.
pub fn create_class() -> (c: ClassDefinition)
    ensures
        c.name@ == units_of("void"@),
        c.in_public_namespace,
        !c.has_super_class,
        c.instance_init == NativeMethod::VoidInit,
        c.class_init == NativeMethod::VoidInit,
        c.traits_loaded,
        c.vtable_initialized,
{
    ClassDefinition {
        name: str_units("void"),
        in_public_namespace: true,
        has_super_class: false,
        instance_init: NativeMethod::VoidInit,
        class_init: NativeMethod::VoidInit,
        traits_loaded: true,
        vtable_initialized: true,
    }
}

} // verus!
