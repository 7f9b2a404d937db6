use ry_frontend::interner::Interner;
use ry_frontend::lexer::{tokenize, Lexer};
use ry_frontend::span::Span;
use ry_frontend::token::{Keyword, Punctuator, RawLexError, RawToken, Token};

fn kinds(source: &str) -> Vec<RawToken> {
    let mut interner = Interner::new();
    tokenize(1, source, &mut interner).into_iter().map(|t| t.raw).collect()
}

#[test]
fn empty_source_is_one_end_of_file() {
    let mut interner = Interner::default();
    let mut lexer = Lexer::new(1, "");
    assert_eq!(
        lexer.next_token(&mut interner),
        Token { raw: RawToken::EndOfFile, span: Span { start: 0, end: 1, file_id: 1 } }
    );
    assert_eq!(
        lexer.next_token(&mut interner),
        Token { raw: RawToken::EndOfFile, span: Span { start: 0, end: 1, file_id: 1 } }
    );
}

#[test]
fn unexpected_character_is_an_error_token() {
    let mut interner = Interner::default();
    let mut lexer = Lexer::new(1, "١");
    assert_eq!(lexer.next_token(&mut interner).raw, RawToken::Error(RawLexError::UnexpectedChar));
}

#[test]
fn punctuators_take_the_longest_match() {
    assert_eq!(
        kinds("+= + ** * %= .. . =>"),
        vec![
            RawToken::Punctuator(Punctuator::PlusEq),
            RawToken::Punctuator(Punctuator::Plus),
            RawToken::Punctuator(Punctuator::StarStar),
            RawToken::Punctuator(Punctuator::Star),
            RawToken::Punctuator(Punctuator::PercentEq),
            RawToken::Punctuator(Punctuator::DotDot),
            RawToken::Punctuator(Punctuator::Dot),
            RawToken::Punctuator(Punctuator::Arrow),
            RawToken::EndOfFile,
        ]
    );
}

#[test]
fn keywords_and_identifiers() {
    let mut interner = Interner::new();
    let tokens = tokenize(1, "fun main pub main", &mut interner);
    assert_eq!(tokens[0].raw, RawToken::Keyword(Keyword::Fun));
    assert_eq!(tokens[1].raw, RawToken::Identifier(0));
    assert_eq!(tokens[2].raw, RawToken::Keyword(Keyword::Pub));
    assert_eq!(tokens[3].raw, RawToken::Identifier(0));
    assert_eq!(interner.resolve(0), Some("main"));
    assert_eq!(tokens[1].span, Span { start: 4, end: 8, file_id: 1 });
}

#[test]
fn empty_hex_body_expects_a_digit_after_the_brace() {
    let mut interner = Interner::new();
    let mut lexer = Lexer::new(1, "\"\\x{}\"");
    assert_eq!(
        lexer.next_token(&mut interner),
        Token {
            raw: RawToken::Error(RawLexError::ExpectedDigitInByteEscapeSequence),
            span: Span { start: 4, end: 5, file_id: 1 },
        }
    );
}

#[test]
fn unterminated_string_is_one_error_token_up_to_the_end() {
    let mut interner = Interner::new();
    let tokens = tokenize(1, "\"abc", &mut interner);
    assert_eq!(
        tokens,
        vec![
            Token {
                raw: RawToken::Error(RawLexError::UnterminatedStringLiteral),
                span: Span { start: 0, end: 4, file_id: 1 },
            },
            Token { raw: RawToken::EndOfFile, span: Span { start: 4, end: 5, file_id: 1 } },
        ]
    );
}

#[test]
fn numbers() {
    let mut interner = Interner::new();
    let tokens = tokenize(
        1,
        "42 3.25 1e9 .5 2i 18446744073709551615 18446744073709551616",
        &mut interner,
    );
    assert_eq!(tokens[0].raw, RawToken::IntegerLiteral(42));
    assert!(matches!(tokens[1].raw, RawToken::FloatLiteral(_)));
    assert!(matches!(tokens[2].raw, RawToken::FloatLiteral(_)));
    assert!(matches!(tokens[3].raw, RawToken::FloatLiteral(_)));
    assert!(matches!(tokens[4].raw, RawToken::ImaginaryLiteral(_)));
    assert_eq!(tokens[5].raw, RawToken::IntegerLiteral(u64::MAX));
    assert_eq!(tokens[6].raw, RawToken::Error(RawLexError::NumberParseError));
    if let RawToken::FloatLiteral(symbol) = tokens[1].raw {
        assert_eq!(interner.resolve(symbol), Some("3.25"));
        let value: f64 = interner.resolve(symbol).unwrap().parse().unwrap();
        assert_eq!(value, 3.25);
    }
}

fn first_error(source: &str) -> (RawLexError, usize, usize) {
    let mut interner = Interner::new();
    let mut lexer = Lexer::new(1, source);
    loop {
        let token = lexer.next_token(&mut interner);
        match token.raw {
            RawToken::Error(error) => return (error, token.span.start, token.span.end),
            RawToken::EndOfFile => panic!("no error in {:?}", source),
            _ => {},
        }
    }
}

#[test]
fn every_lexical_error() {
    assert_eq!(first_error("$"), (RawLexError::UnexpectedChar, 0, 1));
    assert_eq!(first_error("\"ab\ncd\""), (RawLexError::UnterminatedStringLiteral, 0, 3));
    assert_eq!(first_error("'a"), (RawLexError::UnterminatedCharLiteral, 0, 2));
    assert_eq!(first_error("`abc"), (RawLexError::UnterminatedWrappedIdentifier, 0, 4));
    assert_eq!(first_error("''"), (RawLexError::EmptyCharLiteral, 0, 2));
    assert_eq!(first_error("'ab'"), (RawLexError::MoreThanOneCharInCharLiteral, 0, 4));
    assert_eq!(first_error("``"), (RawLexError::EmptyWrappedIdentifier, 0, 1));
    assert_eq!(first_error("\"\\"), (RawLexError::EmptyEscapeSequence, 2, 3));
    assert_eq!(first_error("\"\\q\""), (RawLexError::UnknownEscapeSequence, 2, 3));
    assert_eq!(
        first_error("\"\\u0041\""),
        (RawLexError::ExpectedOpenBracketInUnicodeEscapeSequence, 3, 4),
    );
    assert_eq!(
        first_error("\"\\u{00g1}\""),
        (RawLexError::ExpectedDigitInUnicodeEscapeSequence, 6, 7),
    );
    assert_eq!(
        first_error("\"\\u{0041\""),
        (RawLexError::ExpectedCloseBracketInUnicodeEscapeSequence, 8, 9),
    );
    assert_eq!(first_error("\"\\u{D800}\""), (RawLexError::InvalidUnicodeEscapeSequence, 8, 9));
    assert_eq!(
        first_error("\"\\U{00110000}\""),
        (RawLexError::InvalidUnicodeEscapeSequence, 12, 13),
    );
    assert_eq!(
        first_error("\"\\x41\""),
        (RawLexError::ExpectedOpenBracketInByteEscapeSequence, 3, 4),
    );
    assert_eq!(first_error("\"\\x{4}\""), (RawLexError::ExpectedDigitInByteEscapeSequence, 5, 6));
    assert_eq!(
        first_error("\"\\x{41\""),
        (RawLexError::ExpectedCloseBracketInByteEscapeSequence, 6, 7),
    );
    assert_eq!(first_error("99999999999999999999"), (RawLexError::NumberParseError, 0, 20));
}

#[test]
fn escapes_are_decoded() {
    let mut interner = Interner::new();
    let tokens = tokenize(
        1,
        "\"a\\n\\t\\\\\\\"\\x{41}\\u{03bb}\\U{0001F600}\" '\\''",
        &mut interner,
    );
    match tokens[0].raw {
        RawToken::StringLiteral(symbol) => {
            assert_eq!(interner.resolve(symbol), Some("a\n\t\\\"A\u{3bb}\u{1F600}"));
        },
        other => panic!("expected a string, got {:?}", other),
    }
    assert_eq!(tokens[1].raw, RawToken::CharLiteral('\''));
    assert_eq!(tokens[1].span, Span { start: 38, end: 42, file_id: 1 });
}

#[test]
fn identifiers_of_other_scripts() {
    let mut interner = Interner::new();
    let tokens = tokenize(1, "λx _y `for` `٣a` △", &mut interner);
    assert_eq!(tokens.len(), 6);
    let names: Vec<Option<&str>> = tokens[..4]
        .iter()
        .map(|token| match token.raw {
            RawToken::Identifier(symbol) => interner.resolve(symbol),
            _ => None,
        })
        .collect();
    assert_eq!(names, vec![Some("λx"), Some("_y"), Some("for"), Some("٣a")]);
    assert_eq!(tokens[0].span, Span { start: 0, end: 3, file_id: 1 });
    assert_eq!(tokens[4].raw, RawToken::Error(RawLexError::UnexpectedChar));
}

#[test]
fn comments_and_documentation() {
    let mut interner = Interner::new();
    let mut lexer = Lexer::new(1, "//! module\n/// item\n// plain\nx");
    let module = lexer.next_token(&mut interner);
    let item = lexer.next_token(&mut interner);
    let plain = lexer.next_token(&mut interner);
    match (module.raw, item.raw) {
        (RawToken::GlobalDocComment(a), RawToken::LocalDocComment(b)) => {
            assert_eq!(interner.resolve(a), Some(" module"));
            assert_eq!(interner.resolve(b), Some(" item"));
        },
        other => panic!("expected documentation, got {:?}", other),
    }
    assert_eq!(module.span, Span { start: 0, end: 10, file_id: 1 });
    assert_eq!(plain.raw, RawToken::Comment);
    assert_eq!(plain.span, Span { start: 20, end: 28, file_id: 1 });
    let mut again = Lexer::new(1, "// plain\n// more\nx");
    assert!(matches!(again.next_no_comments(&mut interner).raw, RawToken::Identifier(_)));
    assert_eq!(again.next_no_comments(&mut interner).raw, RawToken::EndOfFile);
}

#[test]
fn whitespace_of_every_kind_is_skipped() {
    assert_eq!(
        kinds("\t\n\u{000B}\u{000C}\r \u{0085}\u{200E}\u{200F}\u{2028}\u{2029};"),
        vec![RawToken::Punctuator(Punctuator::Semicolon), RawToken::EndOfFile]
    );
    assert!(ry_frontend::chars::is_whitespace('\u{2029}'));
    assert!(!ry_frontend::chars::is_whitespace('a'));
}

#[test]
fn end_of_file_is_one_byte_past_the_last_byte() {
    let mut interner = Interner::new();
    let tokens = tokenize(1, "ab  ", &mut interner);
    assert_eq!(tokens.last().unwrap().raw, RawToken::EndOfFile);
    assert_eq!(tokens.last().unwrap().span, Span { start: 4, end: 5, file_id: 1 });
    assert!(ry_frontend::lexer::fits("ab"));
    assert_eq!(ry_frontend::lexer::try_tokenize(1, "ab", &mut interner).map(|t| t.len()), Some(2));
}
