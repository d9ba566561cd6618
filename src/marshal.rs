//! Text crossing the native boundary: outgoing strings become null-terminated
//! byte strings, incoming byte strings become owned text.
use vstd::prelude::*;
use vstd::string::StringSliceAdditionalSpecFns;
use vstd::utf8::{decode_utf8, valid_utf8};

use crate::error::WhisperError;

verus! {

/// True when some byte of `b` is a null byte.
pub open spec fn contains_nul(b: Seq<u8>) -> bool {
    exists|i: int| 0 <= i < b.len() && b[i] == 0
}

/// The bytes that a lookup found, as a sequence.
pub open spec fn view_found(found: Option<&[u8]>) -> Option<Seq<u8>> {
    match found {
        None => None,
        Some(b) => Some(b@),
    }
}

/// What a lookup that yields the bytes `found` (or nothing) turns into as text.
pub open spec fn text_outcome(found: Option<Seq<u8>>) -> Result<Seq<char>, WhisperError> {
    match found {
        None => Err(WhisperError::LookupFailed),
        Some(b) => if valid_utf8(b) {
            Ok(decode_utf8(b))
        } else {
            Err(WhisperError::EncodingError)
        },
    }
}

/// Finds the first null byte of `bytes`, if there is one.
pub fn find_nul(bytes: &[u8]) -> (r: Option<usize>)
    ensures
        r is None <==> !contains_nul(bytes@),
        r matches Some(i) ==> i < bytes@.len() && bytes@[i as int] == 0 && forall|j: int|
            0 <= j < i ==> bytes@[j] != 0,
{
    let mut i: usize = 0;
    while i < bytes.len()
        invariant
            i <= bytes@.len(),
            forall|j: int| 0 <= j < i ==> bytes@[j] != 0,
        decreases bytes@.len() - i,
    {
        if bytes[i] == 0 {
            return Some(i);
        }
        i = i + 1;
    }
    None
}

/// An owned copy of `bytes`.
pub fn copy_bytes(bytes: &[u8]) -> (r: Vec<u8>)
    ensures
        r@ == bytes@,
{
    let mut out: Vec<u8> = Vec::with_capacity(bytes.len());
    let mut i: usize = 0;
    while i < bytes.len()
        invariant
            i <= bytes@.len(),
            out@ == bytes@.subrange(0, i as int),
        decreases bytes@.len() - i,
    {
        out.push(bytes[i]);
        i = i + 1;
    }
    proof {
        assert(bytes@.subrange(0, bytes@.len() as int) =~= bytes@);
    }
    out
}

/// The bytes of `text` followed by a single terminating null byte, as the
/// engine expects every string handed to it. A text that already holds a
/// null byte would be cut short on the other side, so it is refused.
pub fn nul_terminated(text: &str) -> (r: Result<Vec<u8>, WhisperError>)
    ensures
        r is Err <==> contains_nul(text.spec_bytes()),
        r matches Err(e) ==> e == WhisperError::InvalidArgument,
        r matches Ok(v) ==> v@ == text.spec_bytes().push(0u8),
{
    let bytes = text.as_bytes();
    if find_nul(bytes).is_some() {
        return Err(WhisperError::InvalidArgument);
    }
    let mut out = copy_bytes(bytes);
    out.push(0u8);
    Ok(out)
}

/// Relies on `std::str::from_utf8`: it accepts exactly the well-formed UTF-8
/// byte sequences, and the string it returns holds the characters they encode.
#[verifier::external_body]
fn str_from_utf8<'a>(bytes: &'a [u8]) -> (r: Option<&'a str>)
    ensures
        r is Some <==> valid_utf8(bytes@),
        r matches Some(s) ==> s@ == decode_utf8(bytes@),
{
    std::str::from_utf8(bytes).ok()
}

/// Reads bytes handed back by the engine as text, without copying them.
pub fn text_from_bytes<'a>(bytes: &'a [u8]) -> (r: Result<&'a str, WhisperError>)
    ensures
        r is Err <==> !valid_utf8(bytes@),
        r matches Err(e) ==> e == WhisperError::EncodingError,
        r matches Ok(s) ==> s@ == decode_utf8(bytes@),
{
    match str_from_utf8(bytes) {
        Some(s) => Ok(s),
        None => Err(WhisperError::EncodingError),
    }
}

/// The text that a string query of the engine points at, given the bytes
/// there, or nothing where it returned a null pointer.
pub fn found_text<'a>(found: Option<&'a [u8]>) -> (r: Result<&'a str, WhisperError>)
    ensures
        r matches Ok(s) ==> text_outcome(view_found(found)) == Ok::<Seq<char>, WhisperError>(s@),
        r matches Err(e) ==> text_outcome(view_found(found)) == Err::<Seq<char>, WhisperError>(e),
{
    match found {
        None => Err(WhisperError::LookupFailed),
        Some(b) => text_from_bytes(b),
    }
}

/// Like `found_text`, but copied out into a string of the caller's own, for
/// engine strings whose lifetime is not promised across calls.
pub fn owned_text(found: Option<&[u8]>) -> (r: Result<String, WhisperError>)
    ensures
        r matches Ok(s) ==> text_outcome(view_found(found)) == Ok::<Seq<char>, WhisperError>(s@),
        r matches Err(e) ==> text_outcome(view_found(found)) == Err::<Seq<char>, WhisperError>(e),
{
    match found_text(found) {
        Ok(s) => Ok(s.to_owned()),
        Err(e) => Err(e),
    }
}

/// The bytes that a string query of the engine points at, or `LookupFailed`
/// where it returned a null pointer.
pub fn found_bytes<'a>(found: Option<&'a [u8]>) -> (r: Result<&'a [u8], WhisperError>)
    ensures
        found is None <==> r is Err,
        r matches Err(e) ==> e == WhisperError::LookupFailed,
        r matches Ok(v) ==> found == Some(v),
{
    match found {
        None => Err(WhisperError::LookupFailed),
        Some(b) => Ok(b),
    }
}

/// The reading of a C boolean that the engine returns as an `int`.
pub fn flag_from_native(v: i32) -> (r: bool)
    ensures
        r == (v != 0),
{
    v != 0
}

} // verus!
