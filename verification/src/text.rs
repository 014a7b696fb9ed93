//! Byte and string marshaling at the C boundary: C forms of names,
//! embedded-null validation, and decoding of host-supplied strings.

use vstd::prelude::*;
use vstd::string::{StrSliceExecFns, StringSliceAdditionalSpecFns};
use vstd::utf8::{decode_utf8, valid_utf8};
use crate::errors::Error;

verus! {

/// The C form of a name: its UTF-8 bytes followed by one terminating null.
pub open spec fn spec_c_bytes(s: &str) -> Seq<u8> {
    s.spec_bytes().push(0)
}

/// Whether a byte sequence can travel as the contents of a C string: no
/// embedded null byte.
pub open spec fn spec_has_no_null(bytes: Seq<u8>) -> bool {
    forall|i: int| 0 <= i < bytes.len() ==> bytes[i] != 0
}

/// Byte-for-byte equality of two slices.
pub fn bytes_eq(a: &[u8], b: &[u8]) -> (r: bool)
    ensures
        r == (a@ == b@),
{
    if a.len() != b.len() {
        return false;
    }
    let mut i: usize = 0;
    while i < a.len()
        invariant
            i <= a.len(),
            a@.len() == b@.len(),
            forall|j: int| 0 <= j < i ==> a@[j] == b@[j],
        decreases a.len() - i,
    {
        if a[i] != b[i] {
            return false;
        }
        i = i + 1;
    }
    proof {
        assert(a@ =~= b@);
    }
    true
}

/// The C form of a name, as a byte vector ready for the boundary.
pub fn c_bytes_of(name: &str) -> (r: Vec<u8>)
    ensures
        r@ == spec_c_bytes(name),
{
    let mut v = name.as_bytes_vec();
    v.push(0);
    v
}

/// Whether `bytes` is exactly the C form of `name`.
pub fn matches_c_name(name: &str, bytes: &[u8]) -> (r: bool)
    ensures
        r == (bytes@ == spec_c_bytes(name)),
{
    let v = c_bytes_of(name);
    bytes_eq(bytes, v.as_slice())
}

/// Whether `bytes` holds exactly the UTF-8 bytes of `name`, without a
/// terminator.
pub fn matches_name(name: &str, bytes: &[u8]) -> (r: bool)
    ensures
        r == (bytes@ == name.spec_bytes()),
{
    bytes_eq(bytes, name.as_bytes())
}

/// Turns a native string into the C form it crosses the boundary in: its
/// bytes plus the terminating null. A string with an embedded null has no C
/// form and is rejected before any suite call is made.
pub fn to_c_string_bytes(s: &str) -> (r: Result<Vec<u8>, Error>)
    ensures
        match r {
            Ok(v) => spec_has_no_null(s.spec_bytes()) && v@ == spec_c_bytes(s),
            Err(e) => e == Error::StringConversion && !spec_has_no_null(s.spec_bytes()),
        },
{
    let b = s.as_bytes();
    let mut i: usize = 0;
    while i < b.len()
        invariant
            i <= b.len(),
            b@ == s.spec_bytes(),
            forall|j: int| 0 <= j < i ==> b@[j] != 0,
        decreases b.len() - i,
    {
        if b[i] == 0 {
            return Err(Error::StringConversion);
        }
        i = i + 1;
    }
    Ok(c_bytes_of(s))
}

/// Relies on std's `String::from_utf8`: it succeeds exactly on valid UTF-8
/// input and yields the string those bytes encode.
#[verifier::external_body]
fn string_from_utf8_vec(bytes: Vec<u8>) -> (r: Option<String>)
    ensures
        r is Some <==> valid_utf8(bytes@),
        r matches Some(s) ==> s@ == decode_utf8(bytes@),
{
    match String::from_utf8(bytes) {
        Ok(s) => Some(s),
        Err(_) => None,
    }
}

/// What a string handed back by the host converts to. `None` stands for a
/// null pointer, which is the host's legitimate "no value yet" and yields the
/// empty string rather than an error; `Some` carries the bytes up to the
/// terminator, which must be valid UTF-8.
pub fn string_from_host(bytes: Option<Vec<u8>>) -> (r: Result<String, Error>)
    ensures
        bytes is None ==> (r matches Ok(s) && s@ == Seq::<char>::empty()),
        bytes matches Some(b) ==> (valid_utf8(b@) ==> (r matches Ok(s) && s@ == decode_utf8(
            b@,
        ))),
        bytes matches Some(b) ==> (!valid_utf8(b@) ==> r == Err::<String, Error>(
            Error::StringConversion,
        )),
{
    match bytes {
        None => Ok(String::new()),
        Some(b) => match string_from_utf8_vec(b) {
            Some(s) => Ok(s),
            None => Err(Error::StringConversion),
        },
    }
}

} // verus!
