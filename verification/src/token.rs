//! Tokens as the bridge sees them: a stable numeric tag and, for the kinds that
//! carry text, a slice borrowed from the source buffer.

use vstd::prelude::*;

verus! {

pub const TOTO_TOKEN_WHITESPACE: i32 = 1;

pub const TOTO_TOKEN_SINGLE_BRACKET_OPEN: i32 = 2;

pub const TOTO_TOKEN_DOUBLE_BRACKET_OPEN: i32 = 3;

pub const TOTO_TOKEN_SINGLE_BRACKET_CLOSE: i32 = 4;

pub const TOTO_TOKEN_DOUBLE_BRACKET_CLOSE: i32 = 5;

pub const TOTO_TOKEN_CURLY_OPEN: i32 = 6;

pub const TOTO_TOKEN_CURLY_CLOSE: i32 = 7;

pub const TOTO_TOKEN_COMMENT: i32 = 8;

pub const TOTO_TOKEN_EQUALS: i32 = 9;

pub const TOTO_TOKEN_COMMA: i32 = 10;

pub const TOTO_TOKEN_DOT: i32 = 11;

pub const TOTO_TOKEN_NEWLINE: i32 = 12;

pub const TOTO_TOKEN_KEY: i32 = 13;

pub const TOTO_TOKEN_STRING: i32 = 14;

pub const TOTO_TOKEN_MULTILINE_STRING: i32 = 15;

pub const TOTO_TOKEN_LITERAL: i32 = 16;

pub const TOTO_TOKEN_MULTILINE_LITERAL: i32 = 17;

pub const TOTO_TOKEN_DATETIME: i32 = 18;

pub const TOTO_TOKEN_INT: i32 = 19;

pub const TOTO_TOKEN_FLOAT: i32 = 20;

pub const TOTO_TOKEN_TRUE: i32 = 21;

pub const TOTO_TOKEN_FALSE: i32 = 22;

/// One lexical unit of the source text. Text-bearing kinds borrow their slice
/// from the source buffer, so a token cannot outlive it.
#[derive(Clone, Copy, Debug, PartialEq, Eq)]
pub enum Token<'a> {
    Whitespace(&'a str),
    SingleBracketOpen,
    DoubleBracketOpen,
    SingleBracketClose,
    DoubleBracketClose,
    CurlyOpen,
    CurlyClose,
    Comment(&'a str),
    Equals,
    Comma,
    Dot,
    Newline(&'a str),
    Key(&'a str),
    String { text: &'a str, literal: bool, multiline: bool },
    DateTime(&'a str),
    Int(&'a str),
    Float(&'a str),
    Bool(bool),
}

impl<'a> Token<'a> {
    /// The tag the host sees for this token.
    pub open spec fn tag(self) -> i32 {
        match self {
            Token::Whitespace(_) => TOTO_TOKEN_WHITESPACE,
            Token::SingleBracketOpen => TOTO_TOKEN_SINGLE_BRACKET_OPEN,
            Token::DoubleBracketOpen => TOTO_TOKEN_DOUBLE_BRACKET_OPEN,
            Token::SingleBracketClose => TOTO_TOKEN_SINGLE_BRACKET_CLOSE,
            Token::DoubleBracketClose => TOTO_TOKEN_DOUBLE_BRACKET_CLOSE,
            Token::CurlyOpen => TOTO_TOKEN_CURLY_OPEN,
            Token::CurlyClose => TOTO_TOKEN_CURLY_CLOSE,
            Token::Comment(_) => TOTO_TOKEN_COMMENT,
            Token::Equals => TOTO_TOKEN_EQUALS,
            Token::Comma => TOTO_TOKEN_COMMA,
            Token::Dot => TOTO_TOKEN_DOT,
            Token::Newline(_) => TOTO_TOKEN_NEWLINE,
            Token::Key(_) => TOTO_TOKEN_KEY,
            Token::String { text: _, literal, multiline } => if literal {
                if multiline {
                    TOTO_TOKEN_MULTILINE_LITERAL
                } else {
                    TOTO_TOKEN_LITERAL
                }
            } else {
                if multiline {
                    TOTO_TOKEN_MULTILINE_STRING
                } else {
                    TOTO_TOKEN_STRING
                }
            },
            Token::DateTime(_) => TOTO_TOKEN_DATETIME,
            Token::Int(_) => TOTO_TOKEN_INT,
            Token::Float(_) => TOTO_TOKEN_FLOAT,
            Token::Bool(value) => if value {
                TOTO_TOKEN_TRUE
            } else {
                TOTO_TOKEN_FALSE
            },
        }
    }

    /// The borrowed text of a text-bearing token, `None` for the others.
    pub open spec fn text(self) -> Option<&'a str> {
        match self {
            Token::Whitespace(text) => Some(text),
            Token::Comment(text) => Some(text),
            Token::Newline(text) => Some(text),
            Token::Key(text) => Some(text),
            Token::String { text, literal: _, multiline: _ } => Some(text),
            Token::DateTime(text) => Some(text),
            Token::Int(text) => Some(text),
            Token::Float(text) => Some(text),
            _ => None,
        }
    }
}

/// Whether `tag` is the tag of a token kind that carries text.
pub open spec fn is_text_tag(tag: i32) -> bool {
    tag == TOTO_TOKEN_WHITESPACE || tag == TOTO_TOKEN_COMMENT || (TOTO_TOKEN_NEWLINE <= tag
        <= TOTO_TOKEN_FLOAT)
}

/// Every tag lies in the table, and a token carries text exactly when its tag
/// is one of the text-bearing tags: the host can tell from the tag alone whether
/// a text slice came with it.
pub proof fn tag_tells_text(token: Token)
    ensures
        TOTO_TOKEN_WHITESPACE <= token.tag() <= TOTO_TOKEN_FALSE,
        token.text() is Some <==> is_text_tag(token.tag()),
{
}

/// The tag and the text together say which token the engine produced: two
/// tokens that agree on both are the same token.
pub proof fn tag_and_text_identify(a: Token, b: Token)
    requires
        a.tag() == b.tag(),
        a.text() == b.text(),
    ensures
        a == b,
{
}

/// The numeric tag of `token`.
pub fn get_token_type(token: Token) -> (tag: i32)
    ensures
        tag == token.tag(),
        TOTO_TOKEN_WHITESPACE <= tag <= TOTO_TOKEN_FALSE,
{
    match token {
        Token::Whitespace(_) => TOTO_TOKEN_WHITESPACE,
        Token::SingleBracketOpen => TOTO_TOKEN_SINGLE_BRACKET_OPEN,
        Token::DoubleBracketOpen => TOTO_TOKEN_DOUBLE_BRACKET_OPEN,
        Token::SingleBracketClose => TOTO_TOKEN_SINGLE_BRACKET_CLOSE,
        Token::DoubleBracketClose => TOTO_TOKEN_DOUBLE_BRACKET_CLOSE,
        Token::CurlyOpen => TOTO_TOKEN_CURLY_OPEN,
        Token::CurlyClose => TOTO_TOKEN_CURLY_CLOSE,
        Token::Comment(_) => TOTO_TOKEN_COMMENT,
        Token::Equals => TOTO_TOKEN_EQUALS,
        Token::Comma => TOTO_TOKEN_COMMA,
        Token::Dot => TOTO_TOKEN_DOT,
        Token::Newline(_) => TOTO_TOKEN_NEWLINE,
        Token::Key(_) => TOTO_TOKEN_KEY,
        Token::String { text: _, literal: false, multiline: false } => TOTO_TOKEN_STRING,
        Token::String { text: _, literal: false, multiline: true } => TOTO_TOKEN_MULTILINE_STRING,
        Token::String { text: _, literal: true, multiline: false } => TOTO_TOKEN_LITERAL,
        Token::String { text: _, literal: true, multiline: true } => TOTO_TOKEN_MULTILINE_LITERAL,
        Token::DateTime(_) => TOTO_TOKEN_DATETIME,
        Token::Int(_) => TOTO_TOKEN_INT,
        Token::Float(_) => TOTO_TOKEN_FLOAT,
        Token::Bool(true) => TOTO_TOKEN_TRUE,
        Token::Bool(false) => TOTO_TOKEN_FALSE,
    }
}

/// The text `token` borrows from the source buffer, if its kind carries any.
pub fn get_token_text<'a>(token: Token<'a>) -> (text: Option<&'a str>)
    ensures
        text == token.text(),
        text is Some <==> is_text_tag(token.tag()),
{
    match token {
        Token::Whitespace(text) => Some(text),
        Token::Comment(text) => Some(text),
        Token::Newline(text) => Some(text),
        Token::Key(text) => Some(text),
        Token::String { text, literal: _, multiline: _ } => Some(text),
        Token::DateTime(text) => Some(text),
        Token::Int(text) => Some(text),
        Token::Float(text) => Some(text),
        _ => None,
    }
}

} // verus!
