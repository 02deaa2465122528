//! `flash.crypto.generateRandomBytes`: between 1 and 1024 bytes from the
//! operating system's random number generator.
use vstd::prelude::*;
use crate::value::AvmError;
use rand::RngCore;

verus! {

/// The fewest bytes that can be asked for.
pub const MIN_RANDOM_BYTES: u32 = 1;
/// The most bytes that can be asked for.
pub const MAX_RANDOM_BYTES: u32 = 1024;

/// Calls `rand::rngs::OsRng`'s `try_fill_bytes` on the whole of `dest`.
/// The contract claims only that the length of `dest` is kept, which holds
/// of any slice; the bytes written, and whether the call fails, are left
/// free. A failure gives the error's text.
#[verifier::external_body]
fn os_fill_bytes(dest: &mut Vec<u8>) -> (r: Result<(), String>)
    ensures
        final(dest)@.len() == old(dest)@.len(),
{
    match rand::rngs::OsRng.try_fill_bytes(dest.as_mut_slice()) {
        Ok(()) => Ok(()),
        Err(e) => Err(e.to_string()),
    }
}

/// `length` zero bytes.
fn zeroed(length: usize) -> (v: Vec<u8>)
    ensures
        v@.len() == length,
{
    let mut v: Vec<u8> = Vec::new();
    let mut i: usize = 0;
    while i < length
        invariant
            i <= length,
            v@.len() == i,
        decreases length - i,
    {
        v.push(0);
        i = i + 1;
    }
    v
}

/// The message of error #2004, raised for a length out of range.
pub open spec fn invalid_length_message() -> Seq<char> {
    "Error: Error #2004: One of the parameters is invalid"@
}

/// The start of the message raised when the random number generator
/// fails; the generator's own text follows it.
pub const GENERATOR_FAILED: &'static str = "Error: random number generator failed: ";

/// Implements `generateRandomBytes`, given the argument converted to
/// `uint`: error #2004 exactly for a length outside 1 to 1024; otherwise
/// `length` bytes from the operating system's random number generator, or
/// an error that starts with [`GENERATOR_FAILED`] when the generator fails.
pub fn generate_random_bytes(length: u32) -> (r: Result<Vec<u8>, AvmError>)
    ensures
        !(MIN_RANDOM_BYTES <= length <= MAX_RANDOM_BYTES) <==> (r matches Err(e) && e.message@
            == invalid_length_message()),
        r matches Ok(bytes) ==> bytes@.len() == length,
        MIN_RANDOM_BYTES <= length <= MAX_RANDOM_BYTES ==> (r matches Err(e) ==> e.message@.len()
            >= GENERATOR_FAILED@.len() && e.message@.subrange(0, GENERATOR_FAILED@.len() as int)
            == GENERATOR_FAILED@),
{
    if !(MIN_RANDOM_BYTES <= length && length <= MAX_RANDOM_BYTES) {
        return Err(AvmError::new("Error: Error #2004: One of the parameters is invalid"));
    }
    let mut bytes = zeroed(length as usize);
    let filled = os_fill_bytes(&mut bytes);
    let r = fill_outcome(bytes, filled);
    proof {
        reveal_strlit("Error: Error #2004: One of the parameters is invalid");
        reveal_strlit("Error: random number generator failed: ");
        if r is Err {
            let m = r->Err_0.message@;
            let p = GENERATOR_FAILED@;
            assert(m[7] == p[7]);
            assert(invalid_length_message()[7] != p[7]);
            assert(m.subrange(0, p.len() as int) =~= p);
        }
    }
    r
}

/// What `generateRandomBytes` answers once the generator has run on
/// `bytes`: the bytes when it succeeded, else an error with the
/// generator's text after [`GENERATOR_FAILED`].
pub fn fill_outcome(bytes: Vec<u8>, filled: Result<(), String>) -> (r: Result<Vec<u8>, AvmError>)
    ensures
        filled is Ok ==> (r matches Ok(b) && b@ == bytes@),
        filled matches Err(m) ==> (r matches Err(e) && e.message@ == GENERATOR_FAILED@ + m@),
{
    match filled {
        Ok(()) => Ok(bytes),
        Err(m) => {
            let mut message = String::from_str(GENERATOR_FAILED);
            message.append(m.as_str());
            Err(AvmError { message })
        },
    }
}

} // verus!
