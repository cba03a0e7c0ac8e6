//! Decoding of received bytes as text.

use vstd::prelude::*;
use vstd::string::*;
use vstd::utf8::*;

verus! {

/// Trusted: makes the type `core::str::Utf8Error` known to the verifier, as an
/// opaque value.
#[verifier::external_type_specification]
#[verifier::external_body]
pub struct ExUtf8Error(core::str::Utf8Error);

/// Trusted: `core::str::from_utf8` succeeds exactly on well-formed UTF-8, and
/// the string slice it returns is a view of the very bytes it was given.
pub assume_specification[ core::str::from_utf8 ](v: &[u8]) -> (text: Result<
    &str,
    core::str::Utf8Error,
>)
    ensures
        text is Ok <==> valid_utf8(v@),
        text matches Ok(s) ==> s.spec_bytes() == v@,
;

/// Reads bytes as UTF-8 text. Returns `None` when they are not well-formed
/// UTF-8, and otherwise the text they encode.
pub fn decode(bytes: &[u8]) -> (text: Option<&str>)
    ensures
        text is Some <==> valid_utf8(bytes@),
        text matches Some(s) ==> s@ == decode_utf8(bytes@),
{
    match core::str::from_utf8(bytes) {
        Ok(s) => {
            proof {
                encode_utf8_decode_utf8(s@);
            }
            Some(s)
        },
        Err(_) => None,
    }
}

} // verus!
