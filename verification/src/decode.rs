//! Decoding the finished accumulation buffer as text.
//!
//! The buffer is handed to UTF-8 decoding exactly once, when the parse
//! decision has declared the request complete. Decoding either yields the
//! text of the whole buffer or fails, and a failure abandons the connection.
//! The decoding itself is done by the standard library; its result is named
//! by the uninterpreted function [`utf8_decode`], and everything the session
//! does with the result is verified against that name.

use vstd::prelude::*;

verus! {

/// The text that a byte sequence decodes to under UTF-8, or `None` where the
/// bytes are not valid UTF-8. The decoding is a function of the bytes alone.
pub uninterp spec fn utf8_decode(bytes: Seq<u8>) -> Option<Seq<char>>;

/// Relies on `String::from_utf8`: it returns `Ok` exactly when the bytes are
/// valid UTF-8, the returned string is the decoding of exactly those bytes,
/// and an empty buffer is valid and decodes to the empty string. The error
/// case carries the standard library's error message.
#[verifier::external_body]
pub(crate) fn utf8_to_string(bytes: Vec<u8>) -> (decoded: Result<String, String>)
    ensures
        decoded is Ok <==> utf8_decode(bytes@) is Some,
        decoded matches Ok(text) ==> text@ == utf8_decode(bytes@).unwrap(),
        decoded is Err ==> bytes@.len() != 0,
        decoded matches Ok(text) ==> (bytes@.len() == 0 ==> text@ == Seq::<char>::empty()),
{
    String::from_utf8(bytes).map_err(|e| e.to_string())
}

} // verus!
