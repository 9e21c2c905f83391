//! The diagnostic facility: what the engine may be asked about a text and its
//! offsets, and how the outcome behind the fault barrier becomes a status.

use crate::status::{TOTO_ERR_INVALID_OFFSET, TOTO_NO_ERR};
use crate::text::{bytes_of, convert_str, text_status};
use vstd::prelude::*;
use vstd::string::*;

verus! {

/// The status of a position lookup that is settled before the engine is asked,
/// or `TOTO_NO_ERR` when the engine is to be asked.
pub open spec fn lookup_status(text: Option<Seq<u8>>, byte_offset: usize) -> i32 {
    if text_status(text) != TOTO_NO_ERR {
        text_status(text)
    } else if byte_offset > text.unwrap().len() {
        TOTO_ERR_INVALID_OFFSET
    } else {
        TOTO_NO_ERR
    }
}

/// Prepares the lookup of the column and row of `byte_offset` in `text`. A
/// buffer that is not admitted as text is refused with its status, and an
/// offset past the end of the text with `TOTO_ERR_INVALID_OFFSET`. Otherwise
/// the engine is to be asked, with the text of the buffer and the offset as
/// given.
pub fn toto_debug_get_position<'a>(text: Option<&'a [u8]>, byte_offset: usize) -> (r: Result<
    (&'a str, usize),
    i32,
>)
    ensures
        r is Ok <==> lookup_status(bytes_of(text), byte_offset) == TOTO_NO_ERR,
        r matches Err(status) ==> status == lookup_status(bytes_of(text), byte_offset),
        r matches Ok((source, offset)) ==> source.spec_bytes() == text.unwrap()@ && offset
            == byte_offset,
{
    match convert_str(text) {
        Ok(source) => {
            proof {
                vstd::slice::axiom_spec_len(text.unwrap());
            }
            if byte_offset > source.len() {
                Err(TOTO_ERR_INVALID_OFFSET)
            } else {
                Ok((source, byte_offset))
            }
        },
        Err(status) => Err(status),
    }
}

/// Prepares the rendering of a pointer at the unterminated construct that
/// begins at `start`. A buffer that is not admitted as text is refused with
/// its status; otherwise the engine is to be asked, with the text of the
/// buffer and the offset as given.
pub fn toto_debug_show_unclosed<'a>(text: Option<&'a [u8]>, start: usize) -> (r: Result<
    (&'a str, usize),
    i32,
>)
    ensures
        r is Ok <==> text_status(bytes_of(text)) == TOTO_NO_ERR,
        r matches Err(status) ==> status == text_status(bytes_of(text)),
        r matches Ok((source, offset)) ==> source.spec_bytes() == text.unwrap()@ && offset
            == start,
{
    match convert_str(text) {
        Ok(source) => Ok((source, start)),
        Err(status) => Err(status),
    }
}

/// Prepares the rendering of a pointer at the invalid character at `pos`. A
/// buffer that is not admitted as text is refused with its status; otherwise
/// the engine is to be asked, with the text of the buffer and the offset as
/// given.
pub fn toto_debug_show_invalid_character<'a>(text: Option<&'a [u8]>, pos: usize) -> (r: Result<
    (&'a str, usize),
    i32,
>)
    ensures
        r is Ok <==> text_status(bytes_of(text)) == TOTO_NO_ERR,
        r matches Err(status) ==> status == text_status(bytes_of(text)),
        r matches Ok((source, offset)) ==> source.spec_bytes() == text.unwrap()@ && offset == pos,
{
    match convert_str(text) {
        Ok(source) => Ok((source, pos)),
        Err(status) => Err(status),
    }
}

/// Prepares the rendering of the span from `start` up to `pos` as invalid. A
/// buffer that is not admitted as text is refused with its status; otherwise
/// the engine is to be asked, with the text of the buffer and both offsets as
/// given.
pub fn toto_debug_show_invalid_part<'a>(text: Option<&'a [u8]>, start: usize, pos: usize) -> (r:
    Result<(&'a str, usize, usize), i32>)
    ensures
        r is Ok <==> text_status(bytes_of(text)) == TOTO_NO_ERR,
        r matches Err(status) ==> status == text_status(bytes_of(text)),
        r matches Ok((source, from, to)) ==> source.spec_bytes() == text.unwrap()@ && from
            == start && to == pos,
{
    match convert_str(text) {
        Ok(source) => Ok((source, start, pos)),
        Err(status) => Err(status),
    }
}

/// Settles a diagnostic once the engine has been asked behind the fault
/// barrier. `outcome` is what the engine produced, or `None` when the barrier
/// caught a fault: then the status is `TOTO_ERR_INVALID_OFFSET` and nothing
/// goes to the host. Otherwise the status is `TOTO_NO_ERR` and the engine's
/// answer goes to the host as it is.
pub fn fault_barrier<T>(outcome: Option<T>) -> (r: (i32, Option<T>))
    ensures
        outcome is Some ==> r.0 == TOTO_NO_ERR,
        outcome is None ==> r.0 == TOTO_ERR_INVALID_OFFSET,
        r.1 == outcome,
{
    match outcome {
        Some(answer) => (TOTO_NO_ERR, Some(answer)),
        None => (TOTO_ERR_INVALID_OFFSET, None),
    }
}

} // verus!
