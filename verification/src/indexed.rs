//! The numbered properties of AVM2 vectors and byte arrays: a property
//! whose public name parses as an index reads and probes the elements, and
//! a vector enumerates its indices as `0 .. length`.
use vstd::prelude::*;
use crate::parse::{parse_u32, parse_usize, spec_parse_u32, spec_parse_usize};
use crate::value::{copy_value, same_value, Value};

verus! {

/// The enumeration step after `last_index` in a vector of `length`
/// elements: enumerants are numbered from 1, one per element.
pub open spec fn spec_next_enumerant(last_index: u32, length: usize) -> Option<u32> {
    if last_index < length as u32 {
        Some(if last_index == u32::MAX {
            u32::MAX
        } else {
            (last_index + 1) as u32
        })
    } else {
        None
    }
}

/// Implements `Vector`'s enumeration step.
pub fn get_next_enumerant(last_index: u32, length: usize) -> (r: Option<u32>)
    ensures
        r == spec_next_enumerant(last_index, length),
{
    #[verifier::truncate]
    let len: u32 = length as u32;
    if last_index < len {
        Some(last_index.saturating_add(1))
    } else {
        None
    }
}

/// Implements `Vector`'s enumerant names: the element index of enumerant
/// `index`, `Undefined` for enumerant 0, and the empty string past the end.
pub fn get_enumerant_name(index: u32, length: usize) -> (v: Value)
    ensures
        length as u32 >= index && index >= 1 ==> v == Value::Unsigned((index - 1) as u32),
        length as u32 >= index && index == 0 ==> v == Value::Undefined,
        (length as u32) < index ==> (v matches Value::String(s) && s@.len() == 0),
{
    #[verifier::truncate]
    let len: u32 = length as u32;
    if len >= index {
        match index.checked_sub(1) {
            Some(i) => Value::Unsigned(i),
            None => Value::Undefined,
        }
    } else {
        Value::String(Vec::new())
    }
}

/// Implements `Vector`'s `propertyIsEnumerable`: a name that parses as a
/// `u32` index up to the length (one past the last element included).
pub fn property_is_enumerable(name: &str, length: usize) -> (r: bool)
    ensures
        r == (match spec_parse_u32(name@) {
            Some(i) => length as u32 >= i,
            None => false,
        }),
{
    #[verifier::truncate]
    let len: u32 = length as u32;
    match parse_u32(name) {
        Ok(i) => len >= i,
        Err(_) => false,
    }
}

/// The index that a property name denotes, when it names a numbered
/// property: a name in the public namespace whose local part parses as a
/// `usize`.
pub open spec fn spec_numbered_index(in_public_namespace: bool, local_name: Option<&str>) -> Option<
    usize,
> {
    match local_name {
        Some(n) => if in_public_namespace {
            spec_parse_usize(n@)
        } else {
            None
        },
        None => None,
    }
}

/// The index that a property name denotes, when it names a numbered
/// property.
pub fn numbered_index(in_public_namespace: bool, local_name: Option<&str>) -> (r: Option<usize>)
    ensures
        r == spec_numbered_index(in_public_namespace, local_name),
{
    if !in_public_namespace {
        return None;
    }
    match local_name {
        None => None,
        Some(n) => match parse_usize(n) {
            Ok(i) => Some(i),
            Err(_) => None,
        },
    }
}

/// Reading a property of a vector: a numbered property reads the element
/// there, `undefined` past the end; `None` for any other name, which the
/// object's own properties answer.
pub fn vector_get_property(
    elements: &Vec<Value>,
    in_public_namespace: bool,
    local_name: Option<&str>,
) -> (r: Option<Value>)
    ensures
        spec_numbered_index(in_public_namespace, local_name) is None ==> r is None,
        spec_numbered_index(in_public_namespace, local_name) matches Some(i) ==> (r matches Some(v)
            && if i < elements@.len() {
            same_value(v, elements@[i as int])
        } else {
            v == Value::Undefined
        }),
{
    match numbered_index(in_public_namespace, local_name) {
        None => None,
        Some(i) => if i < elements.len() {
            Some(copy_value(&elements[i]))
        } else {
            Some(Value::Undefined)
        },
    }
}

/// Whether a vector of `length` elements has a property as its own: a
/// numbered property when an element exists there; `None` for any other
/// name, which the object's own properties answer.
pub fn vector_has_own_property(length: usize, in_public_namespace: bool, local_name: Option<&str>) -> (r:
    Option<bool>)
    ensures
        r == (match spec_numbered_index(in_public_namespace, local_name) {
            Some(i) => Some(i < length),
            None => None,
        }),
{
    match numbered_index(in_public_namespace, local_name) {
        Some(i) => Some(vector_has_own_index(i, length)),
        None => None,
    }
}

/// Deleting a property of a vector: a numbered property is accepted and
/// its element kept; `None` for any other name, which the object's own
/// properties answer.
pub fn vector_delete_property(in_public_namespace: bool, local_name: Option<&str>) -> (r: Option<
    bool,
>)
    ensures
        r == (match spec_numbered_index(in_public_namespace, local_name) {
            Some(i) => Some(true),
            None => None,
        }),
{
    match numbered_index(in_public_namespace, local_name) {
        Some(i) => Some(vector_delete_index(i)),
        None => None,
    }
}

/// Reading a property of a byte array: a numbered property reads the byte
/// there as a `uint`, `undefined` past the end; `None` for any other name.
pub fn bytearray_get_property(bytes: &Vec<u8>, in_public_namespace: bool, local_name: Option<&str>) -> (r:
    Option<Value>)
    ensures
        r == (match spec_numbered_index(in_public_namespace, local_name) {
            Some(i) => Some(
                if i < bytes@.len() {
                    Value::Unsigned(bytes@[i as int] as u32)
                } else {
                    Value::Undefined
                },
            ),
            None => None,
        }),
{
    match numbered_index(in_public_namespace, local_name) {
        Some(i) => Some(bytearray_get_index(bytes, i)),
        None => None,
    }
}

/// Whether a byte array has a property as its own: a numbered property
/// when a byte exists there; `None` for any other name.
pub fn bytearray_has_own_property(bytes: &Vec<u8>, in_public_namespace: bool, local_name: Option<&str>) -> (r:
    Option<bool>)
    ensures
        r == (match spec_numbered_index(in_public_namespace, local_name) {
            Some(i) => Some(i < bytes@.len()),
            None => None,
        }),
{
    match numbered_index(in_public_namespace, local_name) {
        Some(i) => Some(bytearray_has_own_index(bytes, i)),
        None => None,
    }
}

/// Whether a vector of `length` elements has its own numbered property
/// `index`: an element exists there.
pub fn vector_has_own_index(index: usize, length: usize) -> (r: bool)
    ensures
        r == (index < length),
{
    index < length
}

/// Deleting a numbered property of a vector is accepted and keeps the
/// element.
pub fn vector_delete_index(_index: usize) -> (r: bool)
    ensures
        r,
{
    true
}

/// Implements reading a numbered property of a byte array: the byte there
/// as a `uint`, or `Undefined` past the end.
pub fn bytearray_get_index(bytes: &Vec<u8>, index: usize) -> (v: Value)
    ensures
        index < bytes@.len() ==> v == Value::Unsigned(bytes@[index as int] as u32),
        index >= bytes@.len() ==> v == Value::Undefined,
{
    if index < bytes.len() {
        Value::Unsigned(bytes[index] as u32)
    } else {
        Value::Undefined
    }
}

/// Whether a byte array has its own numbered property `index`: a byte
/// exists there.
pub fn bytearray_has_own_index(bytes: &Vec<u8>, index: usize) -> (r: bool)
    ensures
        r == (index < bytes@.len()),
{
    index < bytes.len()
}

/// Enumerating a vector from 0 visits every element once, in order: the
/// step after `i` is `i + 1` while elements remain, and the step after the
/// last one ends the enumeration.
pub proof fn law_vector_enumeration(length: usize, i: u32)
    requires
        length <= u32::MAX,
        i < length,
    ensures
        spec_next_enumerant(i, length) == Some((i + 1) as u32),
        spec_next_enumerant(length as u32, length) is None,
{
}

} // verus!
