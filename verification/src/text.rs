//! Validation of source buffers: nothing else looks at bytes that have not
//! been admitted as text here.

use crate::status::{TOTO_ERR_NULL, TOTO_ERR_UTF8, TOTO_NO_ERR};
use vstd::prelude::*;
use vstd::string::*;
use vstd::utf8::*;

verus! {

/// The error `core::str::from_utf8` reports; the bridge only needs to know that
/// there was one.
#[verifier::external_type_specification]
#[verifier::external_body]
pub struct ExUtf8Error(core::str::Utf8Error);

/// `core::str::from_utf8` accepts a byte slice exactly when it is well-formed
/// UTF-8, and the text it hands back is a view of those same bytes.
pub assume_specification<'a>[ core::str::from_utf8 ](v: &'a [u8]) -> (r: Result<
    &'a str,
    core::str::Utf8Error,
>)
    ensures
        r is Ok <==> valid_utf8(v@),
        r matches Ok(s) ==> s.spec_bytes() == v@,
;

/// The status of a source buffer: `TOTO_ERR_NULL` when it is absent,
/// `TOTO_ERR_UTF8` when its bytes are not UTF-8, `TOTO_NO_ERR` when it is
/// admitted as text.
pub open spec fn text_status(text: Option<Seq<u8>>) -> i32 {
    match text {
        None => TOTO_ERR_NULL,
        Some(bytes) => if valid_utf8(bytes) {
            TOTO_NO_ERR
        } else {
            TOTO_ERR_UTF8
        },
    }
}

/// The bytes of an optional buffer, as a sequence.
pub open spec fn bytes_of(text: Option<&[u8]>) -> Option<Seq<u8>> {
    match text {
        None => None,
        Some(bytes) => Some(bytes@),
    }
}

/// Admits a source buffer as text. An absent buffer is refused with
/// `TOTO_ERR_NULL`, one that is not UTF-8 with `TOTO_ERR_UTF8`; any other
/// buffer comes back as the text it encodes, borrowed from the same bytes.
pub fn convert_str<'a>(text: Option<&'a [u8]>) -> (r: Result<&'a str, i32>)
    ensures
        r is Ok <==> text_status(bytes_of(text)) == TOTO_NO_ERR,
        r matches Err(status) ==> status == text_status(bytes_of(text)),
        r matches Ok(s) ==> s.spec_bytes() == text.unwrap()@ && s@ == decode_utf8(text.unwrap()@),
{
    match text {
        None => Err(TOTO_ERR_NULL),
        Some(bytes) => match core::str::from_utf8(bytes) {
            Ok(s) => {
                proof {
                    encode_utf8_decode_utf8(s@);
                }
                Ok(s)
            },
            Err(_) => Err(TOTO_ERR_UTF8),
        },
    }
}

} // verus!
