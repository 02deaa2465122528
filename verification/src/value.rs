//! The script values that native AVM2 methods take and give back.
use vstd::prelude::*;

verus! {

/// The identity of a script object owned by the virtual machine.
#[derive(Clone, Copy, Debug, PartialEq, Eq, Structural)]
pub struct ObjectId(pub u64);

/// A script value as the native methods of this library produce it.
#[derive(Clone, Debug, PartialEq, Eq)]
pub enum Value {
    Undefined,
    Null,
    Bool(bool),
    Integer(i32),
    Unsigned(u32),
    /// A Number holding a non-negative whole value.
    Number(u64),
    /// A string, as UTF-16 code units.
    String(Vec<u16>),
    Object(ObjectId),
}

/// An error raised by a native method: the message that the script sees.
#[derive(Clone, Debug, PartialEq, Eq)]
pub struct AvmError {
    pub message: String,
}

/// The value that a `usize` count or handle converts to: an int where it fits.
pub open spec fn spec_value_from_usize(n: usize) -> Value {
    if n <= i32::MAX {
        Value::Integer(n as i32)
    } else {
        Value::Number(n as u64)
    }
}

impl Value {
    pub fn from_usize(n: usize) -> (v: Value)
        ensures
            v == spec_value_from_usize(n),
    {
        if n <= 0x7fff_ffffusize {
            Value::Integer(n as i32)
        } else {
            Value::Number(n as u64)
        }
    }
}

/// The UTF-16 encoding of one character: one unit in the Basic Multilingual
/// Plane, a surrogate pair above it.
pub open spec fn char_units(c: char) -> Seq<u16> {
    if (c as u32) < 0x10000 {
        seq![c as u16]
    } else {
        seq![
            (0xD800 + ((c as u32 - 0x10000) / 0x400)) as u16,
            (0xDC00 + ((c as u32 - 0x10000) % 0x400)) as u16,
        ]
    }
}

/// The UTF-16 encoding of a string of characters.
pub open spec fn units_of(s: Seq<char>) -> Seq<u16>
    decreases s.len(),
{
    if s.len() == 0 {
        Seq::empty()
    } else {
        units_of(s.drop_last()) + char_units(s.last())
    }
}

/// The UTF-16 encoding of `s`, as script strings hold it.
pub fn str_units(s: &str) -> (r: Vec<u16>)
    ensures
        r@ == units_of(s@),
{
    let n = s.unicode_len();
    let mut r: Vec<u16> = Vec::new();
    let mut i: usize = 0;
    while i < n
        invariant
            n == s@.len(),
            i <= n,
            r@ == units_of(s@.subrange(0, i as int)),
        decreases n - i,
    {
        let c = s.get_char(i);
        let code: u32 = c as u32;
        if code < 0x10000 {
            let u: u16 = code as u16;
            r.push(u);
        } else {
            assert(code <= 0x10ffff);
            let hi: u16 = (0xD800 + (code - 0x10000) / 0x400) as u16;
            let lo: u16 = (0xDC00 + (code - 0x10000) % 0x400) as u16;
            r.push(hi);
            r.push(lo);
        }
        i = i + 1;
        assert(s@.subrange(0, i as int).drop_last() == s@.subrange(0, i - 1));
        assert(r@ =~= units_of(s@.subrange(0, i as int)));
    }
    assert(s@.subrange(0, n as int) == s@);
    r
}

/// Two values are the same script value: strings by their code units,
/// everything else by equality.
pub open spec fn same_value(a: Value, b: Value) -> bool {
    match (a, b) {
        (Value::String(x), Value::String(y)) => x@ == y@,
        _ => a == b,
    }
}

/// A copy of `v`.
pub fn copy_value(v: &Value) -> (r: Value)
    ensures
        same_value(r, *v),
{
    match v {
        Value::Undefined => Value::Undefined,
        Value::Null => Value::Null,
        Value::Bool(b) => Value::Bool(*b),
        Value::Integer(i) => Value::Integer(*i),
        Value::Unsigned(u) => Value::Unsigned(*u),
        Value::Number(n) => Value::Number(*n),
        Value::String(s) => {
            let c = s.clone();
            assert(c@ =~= s@);
            Value::String(c)
        },
        Value::Object(o) => Value::Object(*o),
    }
}

impl AvmError {
    /// An error carrying `message`.
    pub fn new(message: &str) -> (e: AvmError)
        ensures
            e.message@ == message@,
    {
        AvmError { message: String::from_str(message) }
    }
}

} // verus!
