use ry_frontend::diagnostics::{Expected, Node, ParseDiagnostic, ScopeDiagnostic};
use ry_frontend::hint::{likely, unlikely};
use ry_frontend::interner::Interner;
use ry_frontend::operator::{
    Precedence, RawBinaryOperator, RawPostfixOperator, RawPrefixOperator,
};
use ry_frontend::span::Span;
use ry_frontend::token::{Keyword, Punctuator, RawLexError, RawToken, Token};

#[test]
fn interning_twice_gives_the_same_symbol() {
    let mut interner = Interner::default();
    let a = interner.get_or_intern("a");
    let b = interner.get_or_intern("b");
    assert_ne!(a, b);
    assert_eq!(interner.get_or_intern("a"), a);
    assert_eq!(interner.get_or_intern("b"), b);
    assert_eq!(interner.len(), 2);
    assert_eq!(interner.resolve(a), Some("a"));
    assert_eq!(interner.resolve(b), Some("b"));
    assert_eq!(interner.resolve(2), None);
    assert_eq!(interner.get("a"), Some(a));
    assert_eq!(interner.get("c"), None);
}

#[test]
fn hints_return_their_argument() {
    assert!(likely(true));
    assert!(!likely(false));
    assert!(unlikely(true));
    assert!(!unlikely(false));
}

#[test]
fn operators_and_tokens() {
    assert_eq!(
        RawBinaryOperator::from(RawToken::Punctuator(Punctuator::PlusEq)),
        RawBinaryOperator::PlusEq
    );
    assert_eq!(RawBinaryOperator::from_token(RawToken::Punctuator(Punctuator::Comma)), None);
    assert_eq!(RawBinaryOperator::from_token(RawToken::Keyword(Keyword::As)), None);
    assert_eq!(RawToken::from(RawBinaryOperator::AndAnd), RawToken::Punctuator(Punctuator::AndAnd));
    assert_eq!(RawBinaryOperator::Percent.as_str(), "%");
    assert_eq!(
        RawPrefixOperator::from(RawToken::Punctuator(Punctuator::Not)),
        RawPrefixOperator::Not,
    );
    assert_eq!(RawToken::from(RawPrefixOperator::Bang), RawToken::Punctuator(Punctuator::Bang));
    assert_eq!(RawPrefixOperator::MinusMinus.as_str(), "--");
    assert_eq!(
        RawPostfixOperator::from(RawToken::Punctuator(Punctuator::QuestionMark)),
        RawPostfixOperator::QuestionMark
    );
    assert_eq!(
        RawToken::from(RawPostfixOperator::PlusPlus),
        RawToken::Punctuator(Punctuator::PlusPlus)
    );
    assert_eq!(RawPostfixOperator::QuestionMark.as_str(), "?");
}

#[test]
fn precedence_levels() {
    assert_eq!(RawToken::Punctuator(Punctuator::Plus).to_precedence(), Precedence::Sum);
    assert_eq!(RawToken::Punctuator(Punctuator::Star).to_precedence(), Precedence::Product);
    assert_eq!(RawToken::Punctuator(Punctuator::StarStar).to_precedence(), Precedence::Power);
    assert_eq!(RawToken::Punctuator(Punctuator::Eq).to_precedence(), Precedence::Assign);
    assert_eq!(RawToken::Keyword(Keyword::As).to_precedence(), Precedence::Cast);
    assert_eq!(RawToken::EndOfFile.to_precedence(), Precedence::Lowest);
    assert_eq!(RawToken::Punctuator(Punctuator::Comma).to_precedence(), Precedence::Lowest);
    assert_eq!(Precedence::Lowest.level(), 0);
    assert_eq!(Precedence::Sum.level(), 9);
    assert_eq!(Precedence::FieldAccess.level(), 16);
    assert!(Precedence::Product.level() > Precedence::Sum.level());
}

#[test]
fn token_texts() {
    assert_eq!(Punctuator::RightShift.as_str(), ">>");
    assert_eq!(Keyword::Where.as_str(), "where");
    assert_eq!(RawLexError::EmptyCharLiteral.as_str(), "empty character literal");
    assert_eq!(
        RawToken::from_error(RawLexError::UnexpectedChar),
        RawToken::Error(RawLexError::UnexpectedChar),
    );
    assert!(RawToken::Punctuator(Punctuator::Dot).is_punctuator(Punctuator::Dot));
    assert!(!RawToken::Punctuator(Punctuator::Dot).is_punctuator(Punctuator::DotDot));
    assert!(RawToken::Keyword(Keyword::Fun).is_keyword(Keyword::Fun));
}

#[test]
fn diagnostics_as_messages() {
    let span = Span { start: 4, end: 5, file_id: 1 };
    let diagnostic = ParseDiagnostic {
        got: Token { raw: RawToken::Punctuator(Punctuator::Semicolon), span },
        expected: Expected::ClosingOrComma(Punctuator::CloseParent),
        node: Node::CallArguments,
    }
    .build();
    assert_eq!(diagnostic.code, "E001");
    assert_eq!(diagnostic.message, "expected `)` or `,`, got `;` in call arguments");
    assert_eq!(diagnostic.span, span);
    let lexical = ParseDiagnostic {
        got: Token { raw: RawToken::Error(RawLexError::UnterminatedStringLiteral), span },
        expected: Expected::Expression,
        node: Node::Expression,
    }
    .build();
    assert_eq!(lexical.code, "E000");
    assert_eq!(
        lexical.message,
        "expected expression, got unterminated string literal in expression",
    );
    let keyword = ParseDiagnostic {
        got: Token { raw: RawToken::EndOfFile, span },
        expected: Expected::Keyword(Keyword::As),
        node: Node::TypeWithQualifiedPath,
    }
    .build();
    assert_eq!(keyword.message, "expected `as`, got end of file in type with qualified path");
    let scope = ScopeDiagnostic::NotFound { symbol: "x".to_owned(), span }.build();
    assert_eq!(scope.code, "E004");
    assert_eq!(scope.message, "`x` is not found in this scope");
    assert_eq!(scope.span, span);
}
