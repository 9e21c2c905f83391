//! The tokenizer handle and the pull protocol: one call, one token.

use crate::status::{TOTO_ERR, TOTO_ERR_NULL, TOTO_FINISHED, TOTO_NO_ERR};
use crate::text::{bytes_of, convert_str, text_status};
use crate::token::{
    get_token_text, get_token_type, is_text_tag, tag_tells_text, Token, TOTO_TOKEN_FALSE,
    TOTO_TOKEN_WHITESPACE,
};
use vstd::prelude::*;
use vstd::string::*;

verus! {

/// What the engine answered when the cursor was asked for its next token.
#[derive(Debug, PartialEq, Eq)]
pub enum Pulled<'a, E> {
    /// The sequence is exhausted.
    Finished,
    /// The text cannot be tokenized here; the engine describes why.
    Fault(E),
    /// A token, and the byte offset in the source buffer at which it starts.
    Token(usize, Token<'a>),
}

/// What one pull hands back to the host: the status and the out-slots it
/// writes. A slot that is `None` is left as the host had it.
#[derive(Debug, PartialEq, Eq)]
pub struct Advance<'a, E> {
    pub status: i32,
    pub token_type: Option<i32>,
    pub has_text: Option<i32>,
    pub text: Option<&'a str>,
    pub len: Option<usize>,
    pub start: Option<usize>,
    pub has_error: Option<i32>,
    pub error: Option<Box<E>>,
}

impl<'a, E> Advance<'a, E> {
    /// A reply that carries `status` and writes no slot.
    pub open spec fn bare(status: i32) -> Self {
        Advance {
            status,
            token_type: None,
            has_text: None,
            text: None,
            len: None,
            start: None,
            has_error: None,
            error: None,
        }
    }

    /// The reply to a pull. `pulled` is `None` when the host passed no handle,
    /// so that the cursor was never asked.
    pub open spec fn of(pulled: Option<Pulled<'a, E>>) -> Self {
        match pulled {
            None => Self::bare(TOTO_ERR_NULL),
            Some(Pulled::Finished) => Self::bare(TOTO_FINISHED),
            Some(Pulled::Fault(fault)) => Advance {
                has_error: Some(1),
                error: Some(Box::new(fault)),
                ..Self::bare(TOTO_ERR)
            },
            Some(Pulled::Token(start, token)) => Advance {
                token_type: Some(token.tag()),
                has_text: Some(if token.text() is Some { 1i32 } else { 0i32 }),
                text: token.text(),
                len: match token.text() {
                    Some(text) => Some(text.len()),
                    None => None,
                },
                start: Some(start),
                has_error: Some(0),
                ..Self::bare(TOTO_NO_ERR)
            },
        }
    }
}

/// One pull signals exactly one outcome, and the status tells which: no
/// handle, end of the sequence, a tokenize error, or a token. An error object
/// goes to the host only with `TOTO_ERR`, the token slots are written only with
/// `TOTO_NO_ERR`, and a text slice and its length come exactly when the
/// has-text flag is 1, which is exactly when the tag is text-bearing.
pub proof fn pull_signals_one_outcome<E>(pulled: Option<Pulled<E>>)
    ensures
        ({
            let reply = Advance::of(pulled);
            &&& reply.status == TOTO_ERR_NULL <==> pulled is None
            &&& reply.status == TOTO_FINISHED <==> pulled is Some && pulled.unwrap() is Finished
            &&& reply.status == TOTO_ERR <==> pulled is Some && pulled.unwrap() is Fault
            &&& reply.status == TOTO_NO_ERR <==> pulled is Some && pulled.unwrap() is Token
            &&& reply.error is Some <==> reply.status == TOTO_ERR
            &&& reply.has_error == Some(1i32) <==> reply.status == TOTO_ERR
            &&& reply.has_error == Some(0i32) <==> reply.status == TOTO_NO_ERR
            &&& reply.token_type is Some <==> reply.status == TOTO_NO_ERR
            &&& reply.start is Some <==> reply.status == TOTO_NO_ERR
            &&& reply.has_text is Some <==> reply.status == TOTO_NO_ERR
            &&& reply.text is Some <==> reply.has_text == Some(1i32)
            &&& reply.len is Some <==> reply.has_text == Some(1i32)
            &&& reply.token_type matches Some(tag) ==> TOTO_TOKEN_WHITESPACE <= tag
                <= TOTO_TOKEN_FALSE && (is_text_tag(tag) <==> reply.text is Some)
            &&& reply.text matches Some(text) ==> reply.len == Some(text.len())
        }),
{
    if let Some(Pulled::Token(_, token)) = pulled {
        tag_tells_text(token);
    }
}

/// Validates `source` for a new tokenizer. The status is `TOTO_ERR_NULL` for an
/// absent buffer, `TOTO_ERR_UTF8` for bytes that are not UTF-8 and
/// `TOTO_NO_ERR` otherwise; only then does the text come back, for the cursor
/// to borrow for as long as it lives.
pub fn toto_tokenizer_new<'a>(source: Option<&'a [u8]>) -> (r: (i32, Option<&'a str>))
    ensures
        r.0 == text_status(bytes_of(source)),
        r.1 is Some <==> r.0 == TOTO_NO_ERR,
        r.1 matches Some(text) ==> text.spec_bytes() == source.unwrap()@,
{
    match convert_str(source) {
        Ok(text) => (TOTO_NO_ERR, Some(text)),
        Err(status) => (status, None),
    }
}

/// Turns the engine's answer to one pull into the host's reply. Exactly one of
/// four things is signalled: no handle (`TOTO_ERR_NULL`), end of the sequence
/// (`TOTO_FINISHED`), a tokenize error boxed for the host (`TOTO_ERR`), or a
/// token (`TOTO_NO_ERR`) with its tag, its start offset and, for a text-bearing
/// kind, the slice it borrows and that slice's length in bytes.
pub fn toto_tokenizer_next<'a, E>(pulled: Option<Pulled<'a, E>>) -> (reply: Advance<'a, E>)
    ensures
        reply == Advance::of(pulled),
{
    let silent = Advance {
        status: TOTO_ERR_NULL,
        token_type: None,
        has_text: None,
        text: None,
        len: None,
        start: None,
        has_error: None,
        error: None,
    };
    match pulled {
        None => silent,
        Some(Pulled::Finished) => Advance { status: TOTO_FINISHED, ..silent },
        Some(Pulled::Fault(fault)) => Advance {
            status: TOTO_ERR,
            has_error: Some(1),
            error: Some(Box::new(fault)),
            ..silent
        },
        Some(Pulled::Token(token_start, token)) => {
            let token_type = get_token_type(token);
            match get_token_text(token) {
                Some(token_text) => Advance {
                    status: TOTO_NO_ERR,
                    token_type: Some(token_type),
                    has_text: Some(1),
                    text: Some(token_text),
                    len: Some(token_text.len()),
                    start: Some(token_start),
                    has_error: Some(0),
                    ..silent
                },
                None => Advance {
                    status: TOTO_NO_ERR,
                    token_type: Some(token_type),
                    has_text: Some(0),
                    start: Some(token_start),
                    has_error: Some(0),
                    ..silent
                },
            }
        },
    }
}

/// Releases a tokenizer handle. An absent handle is reported with
/// `TOTO_ERR_NULL`; a present one is dropped here, and the call reports
/// `TOTO_NO_ERR`.
pub fn toto_tokenizer_destroy<T>(tokenizer: Option<Box<T>>) -> (status: i32)
    ensures
        tokenizer is None ==> status == TOTO_ERR_NULL,
        tokenizer is Some ==> status == TOTO_NO_ERR,
{
    match tokenizer {
        None => TOTO_ERR_NULL,
        Some(_) => TOTO_NO_ERR,
    }
}

} // verus!
