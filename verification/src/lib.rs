//! The safe core of a C-callable bridge over a TOML tokenizer.
//!
//! A foreign host drives the tokenizer one token at a time and asks for
//! diagnostics when tokenizing fails. Everything the bridge decides is here:
//! which status a call reports, which token tag and text go back to the host,
//! and what the tokenizing engine may be asked. Raw pointers, the engine itself
//! and the fault barrier around its diagnostics live with the caller of this
//! crate, which hands in plain values and engine replies.

pub mod debug;
pub mod error;
pub mod status;
pub mod text;
pub mod token;
pub mod tokenizer;

pub use crate::debug::{
    fault_barrier, toto_debug_get_position, toto_debug_show_invalid_character,
    toto_debug_show_invalid_part, toto_debug_show_unclosed,
};
pub use crate::error::{toto_error_destroy, toto_error_explain};
pub use crate::status::{
    TOTO_ERR, TOTO_ERR_INVALID_OFFSET, TOTO_ERR_NULL, TOTO_ERR_UTF8, TOTO_FINISHED, TOTO_NO_ERR,
};
pub use crate::text::convert_str;
pub use crate::token::{
    get_token_text, get_token_type, Token, TOTO_TOKEN_COMMA, TOTO_TOKEN_COMMENT,
    TOTO_TOKEN_CURLY_CLOSE, TOTO_TOKEN_CURLY_OPEN, TOTO_TOKEN_DATETIME, TOTO_TOKEN_DOT,
    TOTO_TOKEN_DOUBLE_BRACKET_CLOSE, TOTO_TOKEN_DOUBLE_BRACKET_OPEN, TOTO_TOKEN_EQUALS,
    TOTO_TOKEN_FALSE, TOTO_TOKEN_FLOAT, TOTO_TOKEN_INT, TOTO_TOKEN_KEY, TOTO_TOKEN_LITERAL,
    TOTO_TOKEN_MULTILINE_LITERAL, TOTO_TOKEN_MULTILINE_STRING, TOTO_TOKEN_NEWLINE,
    TOTO_TOKEN_SINGLE_BRACKET_CLOSE, TOTO_TOKEN_SINGLE_BRACKET_OPEN, TOTO_TOKEN_STRING,
    TOTO_TOKEN_TRUE, TOTO_TOKEN_WHITESPACE,
};
pub use crate::tokenizer::{
    toto_tokenizer_destroy, toto_tokenizer_new, toto_tokenizer_next, Advance, Pulled,
};
