//! Tokenize errors as objects the host holds: explained against the source
//! text they came from, and released when the host is done with them.

use crate::status::{TOTO_ERR_NULL, TOTO_NO_ERR};
use crate::text::{bytes_of, convert_str, text_status};
use vstd::prelude::*;
use vstd::string::*;

verus! {

/// The status of a request to explain an error: both the error and the source
/// buffer must be there, and the buffer must be admitted as text.
pub open spec fn explain_status(error_present: bool, source: Option<Seq<u8>>) -> i32 {
    if error_present {
        text_status(source)
    } else {
        TOTO_ERR_NULL
    }
}

/// Decides whether `error` is rendered against `source`. With either argument
/// absent the status is `TOTO_ERR_NULL`, with a buffer that is not UTF-8 it is
/// `TOTO_ERR_UTF8`, and nothing is rendered. Otherwise the status is
/// `TOTO_NO_ERR` and the pair to render comes back: the same error, still the
/// host's, and the text of the buffer.
pub fn toto_error_explain<'e, 's, E>(error: Option<&'e E>, source: Option<&'s [u8]>) -> (r: (
    i32,
    Option<(&'e E, &'s str)>,
))
    ensures
        r.0 == explain_status(error is Some, bytes_of(source)),
        r.1 is Some <==> r.0 == TOTO_NO_ERR,
        r.1 matches Some((shown, text)) ==> error == Some(shown) && text.spec_bytes()
            == source.unwrap()@,
{
    match error {
        None => (TOTO_ERR_NULL, None),
        Some(shown) => match convert_str(source) {
            Ok(text) => (TOTO_NO_ERR, Some((shown, text))),
            Err(status) => (status, None),
        },
    }
}

/// Releases an error object. An absent one is reported with `TOTO_ERR_NULL`; a
/// present one is dropped here, and the call reports `TOTO_NO_ERR`.
pub fn toto_error_destroy<E>(error: Option<Box<E>>) -> (status: i32)
    ensures
        error is None ==> status == TOTO_ERR_NULL,
        error is Some ==> status == TOTO_NO_ERR,
{
    match error {
        None => TOTO_ERR_NULL,
        Some(_) => TOTO_NO_ERR,
    }
}

} // verus!
