use toto::{
    toto_tokenizer_next, Advance, Pulled, Token, TOTO_ERR, TOTO_ERR_NULL, TOTO_FINISHED,
    TOTO_NO_ERR,
};

#[derive(Debug, PartialEq, Eq)]
struct Unclosed {
    start: usize,
}

fn nothing_written<'a>(status: i32) -> Advance<'a, Unclosed> {
    Advance {
        status,
        token_type: None,
        has_text: None,
        text: None,
        len: None,
        start: None,
        has_error: None,
        error: None,
    }
}

#[test]
fn a_pull_without_a_handle_reports_null_and_writes_nothing() {
    let reply = toto_tokenizer_next::<Unclosed>(None);
    assert_eq!(reply.status, TOTO_ERR_NULL);
    assert_eq!(reply, nothing_written(-2));
}

#[test]
fn the_end_of_the_sequence_writes_nothing() {
    let reply = toto_tokenizer_next::<Unclosed>(Some(Pulled::Finished));
    assert_eq!(reply.status, TOTO_FINISHED);
    assert_eq!(reply, nothing_written(1));
}

#[test]
fn a_tokenize_error_is_boxed_for_the_host() {
    let reply = toto_tokenizer_next(Some(Pulled::Fault(Unclosed { start: 4 })));
    assert_eq!(reply.status, TOTO_ERR);
    assert_eq!(reply.has_error, Some(1));
    assert_eq!(reply.error, Some(Box::new(Unclosed { start: 4 })));
    assert_eq!(reply.token_type, None);
    assert_eq!(reply.has_text, None);
    assert_eq!(reply.text, None);
    assert_eq!(reply.len, None);
    assert_eq!(reply.start, None);
}

#[test]
fn a_token_without_text_has_tag_and_offset_only() {
    let reply = toto_tokenizer_next::<Unclosed>(Some(Pulled::Token(7, Token::DoubleBracketOpen)));
    assert_eq!(
        reply,
        Advance {
            status: TOTO_NO_ERR,
            token_type: Some(3),
            has_text: Some(0),
            text: None,
            len: None,
            start: Some(7),
            has_error: Some(0),
            error: None,
        }
    );
}

#[test]
fn a_token_with_text_hands_out_its_slice_and_length() {
    let source = "name = 1";
    let reply = toto_tokenizer_next::<Unclosed>(Some(Pulled::Token(0, Token::Key(&source[0..4]))));
    assert_eq!(
        reply,
        Advance {
            status: TOTO_NO_ERR,
            token_type: Some(13),
            has_text: Some(1),
            text: Some("name"),
            len: Some(4),
            start: Some(0),
            has_error: Some(0),
            error: None,
        }
    );
    assert_eq!(reply.text.unwrap().as_ptr(), source.as_ptr());
}

#[test]
fn the_length_counts_bytes() {
    let reply = toto_tokenizer_next::<Unclosed>(Some(Pulled::Token(
        4,
        Token::String { text: "\"\u{20ac}\u{e9}\"", literal: false, multiline: false },
    )));
    assert_eq!(reply.token_type, Some(14));
    assert_eq!(reply.text, Some("\"\u{20ac}\u{e9}\""));
    assert_eq!(reply.len, Some(7));
    assert_eq!(reply.start, Some(4));
}

#[test]
fn an_empty_text_is_still_text() {
    let reply = toto_tokenizer_next::<Unclosed>(Some(Pulled::Token(3, Token::Whitespace(""))));
    assert_eq!(reply.has_text, Some(1));
    assert_eq!(reply.text, Some(""));
    assert_eq!(reply.len, Some(0));
}

#[test]
fn a_key_value_line_is_pulled_token_by_token() {
    let source = "a = 1\n";
    let pulls = vec![
        Pulled::Token(0, Token::Key(&source[0..1])),
        Pulled::Token(1, Token::Whitespace(&source[1..2])),
        Pulled::Token(2, Token::Equals),
        Pulled::Token(3, Token::Whitespace(&source[3..4])),
        Pulled::Token(4, Token::Int(&source[4..5])),
        Pulled::Token(5, Token::Newline(&source[5..6])),
        Pulled::Finished,
    ];
    let expected: Vec<(i32, Option<i32>, Option<&str>, Option<usize>)> = vec![
        (0, Some(13), Some("a"), Some(0)),
        (0, Some(1), Some(" "), Some(1)),
        (0, Some(9), None, Some(2)),
        (0, Some(1), Some(" "), Some(3)),
        (0, Some(19), Some("1"), Some(4)),
        (0, Some(12), Some("\n"), Some(5)),
        (1, None, None, None),
    ];
    let mut seen = Vec::new();
    let mut rebuilt = String::new();
    let mut next_start = 0;
    for pulled in pulls {
        let reply = toto_tokenizer_next::<Unclosed>(Some(pulled));
        if reply.status == TOTO_NO_ERR {
            let start = reply.start.unwrap();
            assert!(start >= next_start);
            rebuilt.push_str(&source[next_start..start]);
            next_start = start;
            if let Some(text) = reply.text {
                assert_eq!(reply.has_text, Some(1));
                assert_eq!(reply.len, Some(text.len()));
                assert_eq!(text.as_ptr(), source[start..].as_ptr());
                rebuilt.push_str(text);
                next_start = start + text.len();
            } else {
                assert_eq!(reply.has_text, Some(0));
            }
            assert_eq!(reply.has_error, Some(0));
        }
        assert_eq!(reply.error, None);
        seen.push((reply.status, reply.token_type, reply.text, reply.start));
    }
    rebuilt.push_str(&source[next_start..]);
    assert_eq!(seen, expected);
    assert_eq!(rebuilt, source);
}

#[test]
fn an_unterminated_string_ends_in_an_error() {
    let source = "a = \"unterminated";
    let pulls = vec![
        Pulled::Token(0, Token::Key(&source[0..1])),
        Pulled::Token(1, Token::Whitespace(&source[1..2])),
        Pulled::Token(2, Token::Equals),
        Pulled::Token(3, Token::Whitespace(&source[3..4])),
        Pulled::Fault(Unclosed { start: 4 }),
    ];
    let mut statuses = Vec::new();
    let mut error = None;
    for pulled in pulls {
        let reply = toto_tokenizer_next(Some(pulled));
        statuses.push(reply.status);
        if reply.status == TOTO_ERR {
            assert_eq!(reply.has_error, Some(1));
            error = reply.error;
        } else {
            assert_eq!(reply.has_error, Some(0));
            assert_eq!(reply.error, None);
        }
    }
    assert_eq!(statuses, vec![0, 0, 0, 0, 2]);
    assert_eq!(error, Some(Box::new(Unclosed { start: 4 })));
}

#[test]
fn each_pull_signals_exactly_one_outcome() {
    let pulls: Vec<Option<Pulled<Unclosed>>> = vec![
        None,
        Some(Pulled::Finished),
        Some(Pulled::Fault(Unclosed { start: 0 })),
        Some(Pulled::Token(0, Token::Comma)),
        Some(Pulled::Token(0, Token::Float("1.0"))),
    ];
    let expected = vec![TOTO_ERR_NULL, TOTO_FINISHED, TOTO_ERR, TOTO_NO_ERR, TOTO_NO_ERR];
    for (pulled, status) in pulls.into_iter().zip(expected) {
        let reply = toto_tokenizer_next(pulled);
        assert_eq!(reply.status, status);
        assert_eq!(reply.error.is_some(), status == TOTO_ERR);
        assert_eq!(reply.has_error == Some(1), status == TOTO_ERR);
        assert_eq!(reply.has_error == Some(0), status == TOTO_NO_ERR);
        assert_eq!(reply.token_type.is_some(), status == TOTO_NO_ERR);
        assert_eq!(reply.start.is_some(), status == TOTO_NO_ERR);
        assert_eq!(reply.has_text.is_some(), status == TOTO_NO_ERR);
        assert_eq!(reply.text.is_some(), reply.has_text == Some(1));
        assert_eq!(reply.len.is_some(), reply.has_text == Some(1));
    }
}
