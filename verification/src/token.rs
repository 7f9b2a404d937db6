//! Tokens: the units that the scanner hands to the parser.

use crate::chars::matches_text;
use crate::interner::Symbol;
use crate::span::Span;
use vstd::prelude::*;

verus! {

/// A punctuation mark or an operator.
#[derive(Debug, Clone, Copy, PartialEq, Eq, Hash, Structural)]
pub enum Punctuator {
    /// `:`
    Colon,
    /// `@`
    At,
    /// `++`
    PlusPlus,
    /// `+=`
    PlusEq,
    /// `+`
    Plus,
    /// `--`
    MinusMinus,
    /// `-=`
    MinusEq,
    /// `-`
    Minus,
    /// `**`
    StarStar,
    /// `*=`
    StarEq,
    /// `*`
    Star,
    /// `#`
    HashTag,
    /// `/=`
    SlashEq,
    /// `/`
    Slash,
    /// `!=`
    NotEq,
    /// `!`
    Bang,
    /// `>>`
    RightShift,
    /// `>=`
    GreaterEq,
    /// `>`
    Greater,
    /// `<<`
    LeftShift,
    /// `<=`
    LessEq,
    /// `<`
    Less,
    /// `==`
    EqEq,
    /// `=>`
    Arrow,
    /// `=`
    Eq,
    /// `|=`
    OrEq,
    /// `||`
    OrOr,
    /// `|`
    Or,
    /// `?`
    QuestionMark,
    /// `&&`
    AndAnd,
    /// `&=`
    AndEq,
    /// `&`
    And,
    /// `^=`
    XorEq,
    /// `^`
    Xor,
    /// `~`
    Not,
    /// `(`
    OpenParent,
    /// `)`
    CloseParent,
    /// `[`
    OpenBracket,
    /// `]`
    CloseBracket,
    /// `{`
    OpenBrace,
    /// `}`
    CloseBrace,
    /// `,`
    Comma,
    /// `;`
    Semicolon,
    /// `%=`
    PercentEq,
    /// `%`
    Percent,
    /// `..`
    DotDot,
    /// `.`
    Dot,
}

impl Punctuator {
    /// The characters that spell the punctuator.
    pub open spec fn text(self) -> Seq<char> {
        match self {
            Punctuator::Colon => ":"@,
            Punctuator::At => "@"@,
            Punctuator::PlusPlus => "++"@,
            Punctuator::PlusEq => "+="@,
            Punctuator::Plus => "+"@,
            Punctuator::MinusMinus => "--"@,
            Punctuator::MinusEq => "-="@,
            Punctuator::Minus => "-"@,
            Punctuator::StarStar => "**"@,
            Punctuator::StarEq => "*="@,
            Punctuator::Star => "*"@,
            Punctuator::HashTag => "#"@,
            Punctuator::SlashEq => "/="@,
            Punctuator::Slash => "/"@,
            Punctuator::NotEq => "!="@,
            Punctuator::Bang => "!"@,
            Punctuator::RightShift => ">>"@,
            Punctuator::GreaterEq => ">="@,
            Punctuator::Greater => ">"@,
            Punctuator::LeftShift => "<<"@,
            Punctuator::LessEq => "<="@,
            Punctuator::Less => "<"@,
            Punctuator::EqEq => "=="@,
            Punctuator::Arrow => "=>"@,
            Punctuator::Eq => "="@,
            Punctuator::OrEq => "|="@,
            Punctuator::OrOr => "||"@,
            Punctuator::Or => "|"@,
            Punctuator::QuestionMark => "?"@,
            Punctuator::AndAnd => "&&"@,
            Punctuator::AndEq => "&="@,
            Punctuator::And => "&"@,
            Punctuator::XorEq => "^="@,
            Punctuator::Xor => "^"@,
            Punctuator::Not => "~"@,
            Punctuator::OpenParent => "("@,
            Punctuator::CloseParent => ")"@,
            Punctuator::OpenBracket => "["@,
            Punctuator::CloseBracket => "]"@,
            Punctuator::OpenBrace => "{"@,
            Punctuator::CloseBrace => "}"@,
            Punctuator::Comma => ","@,
            Punctuator::Semicolon => ";"@,
            Punctuator::PercentEq => "%="@,
            Punctuator::Percent => "%"@,
            Punctuator::DotDot => ".."@,
            Punctuator::Dot => "."@,
        }
    }

    /// The characters that spell the punctuator.
    pub fn as_str(self) -> (r: &'static str)
        ensures
            r@ == self.text(),
    {
        match self {
            Punctuator::Colon => ":",
            Punctuator::At => "@",
            Punctuator::PlusPlus => "++",
            Punctuator::PlusEq => "+=",
            Punctuator::Plus => "+",
            Punctuator::MinusMinus => "--",
            Punctuator::MinusEq => "-=",
            Punctuator::Minus => "-",
            Punctuator::StarStar => "**",
            Punctuator::StarEq => "*=",
            Punctuator::Star => "*",
            Punctuator::HashTag => "#",
            Punctuator::SlashEq => "/=",
            Punctuator::Slash => "/",
            Punctuator::NotEq => "!=",
            Punctuator::Bang => "!",
            Punctuator::RightShift => ">>",
            Punctuator::GreaterEq => ">=",
            Punctuator::Greater => ">",
            Punctuator::LeftShift => "<<",
            Punctuator::LessEq => "<=",
            Punctuator::Less => "<",
            Punctuator::EqEq => "==",
            Punctuator::Arrow => "=>",
            Punctuator::Eq => "=",
            Punctuator::OrEq => "|=",
            Punctuator::OrOr => "||",
            Punctuator::Or => "|",
            Punctuator::QuestionMark => "?",
            Punctuator::AndAnd => "&&",
            Punctuator::AndEq => "&=",
            Punctuator::And => "&",
            Punctuator::XorEq => "^=",
            Punctuator::Xor => "^",
            Punctuator::Not => "~",
            Punctuator::OpenParent => "(",
            Punctuator::CloseParent => ")",
            Punctuator::OpenBracket => "[",
            Punctuator::CloseBracket => "]",
            Punctuator::OpenBrace => "{",
            Punctuator::CloseBrace => "}",
            Punctuator::Comma => ",",
            Punctuator::Semicolon => ";",
            Punctuator::PercentEq => "%=",
            Punctuator::Percent => "%",
            Punctuator::DotDot => "..",
            Punctuator::Dot => ".",
        }
    }
}

/// A reserved word.
#[derive(Debug, Clone, Copy, PartialEq, Eq, Hash, Structural)]
pub enum Keyword {
    /// `as`
    As,
    /// `break`
    Break,
    /// `continue`
    Continue,
    /// `defer`
    Defer,
    /// `dyn`
    Dyn,
    /// `else`
    Else,
    /// `enum`
    Enum,
    /// `false`
    False,
    /// `for`
    For,
    /// `fun`
    Fun,
    /// `if`
    If,
    /// `impl`
    Impl,
    /// `import`
    Import,
    /// `let`
    Let,
    /// `match`
    Match,
    /// `pub`
    Pub,
    /// `return`
    Return,
    /// `struct`
    Struct,
    /// `trait`
    Trait,
    /// `true`
    True,
    /// `type`
    Type,
    /// `use`
    Use,
    /// `where`
    Where,
    /// `while`
    While,
}

/// The reserved word that `text` spells, if it spells one.
pub open spec fn keyword_of(text: Seq<char>) -> Option<Keyword> {
    if text == "as"@ {
        Some(Keyword::As)
    } else if text == "break"@ {
        Some(Keyword::Break)
    } else if text == "continue"@ {
        Some(Keyword::Continue)
    } else if text == "defer"@ {
        Some(Keyword::Defer)
    } else if text == "dyn"@ {
        Some(Keyword::Dyn)
    } else if text == "else"@ {
        Some(Keyword::Else)
    } else if text == "enum"@ {
        Some(Keyword::Enum)
    } else if text == "false"@ {
        Some(Keyword::False)
    } else if text == "for"@ {
        Some(Keyword::For)
    } else if text == "fun"@ {
        Some(Keyword::Fun)
    } else if text == "if"@ {
        Some(Keyword::If)
    } else if text == "impl"@ {
        Some(Keyword::Impl)
    } else if text == "import"@ {
        Some(Keyword::Import)
    } else if text == "let"@ {
        Some(Keyword::Let)
    } else if text == "match"@ {
        Some(Keyword::Match)
    } else if text == "pub"@ {
        Some(Keyword::Pub)
    } else if text == "return"@ {
        Some(Keyword::Return)
    } else if text == "struct"@ {
        Some(Keyword::Struct)
    } else if text == "trait"@ {
        Some(Keyword::Trait)
    } else if text == "true"@ {
        Some(Keyword::True)
    } else if text == "type"@ {
        Some(Keyword::Type)
    } else if text == "use"@ {
        Some(Keyword::Use)
    } else if text == "where"@ {
        Some(Keyword::Where)
    } else if text == "while"@ {
        Some(Keyword::While)
    } else {
        None
    }
}

impl Keyword {
    /// The characters that spell the reserved word.
    pub open spec fn text(self) -> Seq<char> {
        match self {
            Keyword::As => "as"@,
            Keyword::Break => "break"@,
            Keyword::Continue => "continue"@,
            Keyword::Defer => "defer"@,
            Keyword::Dyn => "dyn"@,
            Keyword::Else => "else"@,
            Keyword::Enum => "enum"@,
            Keyword::False => "false"@,
            Keyword::For => "for"@,
            Keyword::Fun => "fun"@,
            Keyword::If => "if"@,
            Keyword::Impl => "impl"@,
            Keyword::Import => "import"@,
            Keyword::Let => "let"@,
            Keyword::Match => "match"@,
            Keyword::Pub => "pub"@,
            Keyword::Return => "return"@,
            Keyword::Struct => "struct"@,
            Keyword::Trait => "trait"@,
            Keyword::True => "true"@,
            Keyword::Type => "type"@,
            Keyword::Use => "use"@,
            Keyword::Where => "where"@,
            Keyword::While => "while"@,
        }
    }

    /// The characters that spell the reserved word.
    pub fn as_str(self) -> (r: &'static str)
        ensures
            r@ == self.text(),
    {
        match self {
            Keyword::As => "as",
            Keyword::Break => "break",
            Keyword::Continue => "continue",
            Keyword::Defer => "defer",
            Keyword::Dyn => "dyn",
            Keyword::Else => "else",
            Keyword::Enum => "enum",
            Keyword::False => "false",
            Keyword::For => "for",
            Keyword::Fun => "fun",
            Keyword::If => "if",
            Keyword::Impl => "impl",
            Keyword::Import => "import",
            Keyword::Let => "let",
            Keyword::Match => "match",
            Keyword::Pub => "pub",
            Keyword::Return => "return",
            Keyword::Struct => "struct",
            Keyword::Trait => "trait",
            Keyword::True => "true",
            Keyword::Type => "type",
            Keyword::Use => "use",
            Keyword::Where => "where",
            Keyword::While => "while",
        }
    }

    /// The reserved word that the characters of `chars` from `start` up to
    /// `end` spell, if they spell one.
    pub fn lookup(chars: &Vec<char>, start: usize, end: usize) -> (r: Option<Keyword>)
        requires
            start <= end <= chars.len(),
        ensures
            r == keyword_of(chars@.subrange(start as int, end as int)),
    {
        if matches_text(chars, start, end, "as") {
            Some(Keyword::As)
        } else if matches_text(chars, start, end, "break") {
            Some(Keyword::Break)
        } else if matches_text(chars, start, end, "continue") {
            Some(Keyword::Continue)
        } else if matches_text(chars, start, end, "defer") {
            Some(Keyword::Defer)
        } else if matches_text(chars, start, end, "dyn") {
            Some(Keyword::Dyn)
        } else if matches_text(chars, start, end, "else") {
            Some(Keyword::Else)
        } else if matches_text(chars, start, end, "enum") {
            Some(Keyword::Enum)
        } else if matches_text(chars, start, end, "false") {
            Some(Keyword::False)
        } else if matches_text(chars, start, end, "for") {
            Some(Keyword::For)
        } else if matches_text(chars, start, end, "fun") {
            Some(Keyword::Fun)
        } else if matches_text(chars, start, end, "if") {
            Some(Keyword::If)
        } else if matches_text(chars, start, end, "impl") {
            Some(Keyword::Impl)
        } else if matches_text(chars, start, end, "import") {
            Some(Keyword::Import)
        } else if matches_text(chars, start, end, "let") {
            Some(Keyword::Let)
        } else if matches_text(chars, start, end, "match") {
            Some(Keyword::Match)
        } else if matches_text(chars, start, end, "pub") {
            Some(Keyword::Pub)
        } else if matches_text(chars, start, end, "return") {
            Some(Keyword::Return)
        } else if matches_text(chars, start, end, "struct") {
            Some(Keyword::Struct)
        } else if matches_text(chars, start, end, "trait") {
            Some(Keyword::Trait)
        } else if matches_text(chars, start, end, "true") {
            Some(Keyword::True)
        } else if matches_text(chars, start, end, "type") {
            Some(Keyword::Type)
        } else if matches_text(chars, start, end, "use") {
            Some(Keyword::Use)
        } else if matches_text(chars, start, end, "where") {
            Some(Keyword::Where)
        } else if matches_text(chars, start, end, "while") {
            Some(Keyword::While)
        } else {
            None
        }
    }
}

/// What is wrong with a piece of text that is no token.
#[derive(Debug, Clone, Copy, PartialEq, Eq, Hash, Structural)]
pub enum RawLexError {
    /// Unexpected character.
    UnexpectedChar,
    /// Unterminated string literal.
    UnterminatedStringLiteral,
    /// Unterminated character literal.
    UnterminatedCharLiteral,
    /// Unterminated wrapped identifier.
    UnterminatedWrappedIdentifier,
    /// Empty character literal.
    EmptyCharLiteral,
    /// More than one character in character literal.
    MoreThanOneCharInCharLiteral,
    /// Empty wrapped identifier.
    EmptyWrappedIdentifier,
    /// Empty escape sequence.
    EmptyEscapeSequence,
    /// Unknown escape sequence.
    UnknownEscapeSequence,
    /// Expected `{` in unicode escape sequence.
    ExpectedOpenBracketInUnicodeEscapeSequence,
    /// Expected digit in unicode escape sequence.
    ExpectedDigitInUnicodeEscapeSequence,
    /// Expected `}` in unicode escape sequence.
    ExpectedCloseBracketInUnicodeEscapeSequence,
    /// Invalid unicode escape sequence.
    InvalidUnicodeEscapeSequence,
    /// Expected `{` in byte escape sequence.
    ExpectedOpenBracketInByteEscapeSequence,
    /// Expected digit in byte escape sequence.
    ExpectedDigitInByteEscapeSequence,
    /// Expected `}` in byte escape sequence.
    ExpectedCloseBracketInByteEscapeSequence,
    /// Number does not fit in 64 bits.
    NumberParseError,
}

impl RawLexError {
    /// A sentence that names the error.
    pub open spec fn text(self) -> Seq<char> {
        match self {
            RawLexError::UnexpectedChar => "unexpected character"@,
            RawLexError::UnterminatedStringLiteral => "unterminated string literal"@,
            RawLexError::UnterminatedCharLiteral => "unterminated character literal"@,
            RawLexError::UnterminatedWrappedIdentifier => "unterminated wrapped identifier"@,
            RawLexError::EmptyCharLiteral => "empty character literal"@,
            RawLexError::MoreThanOneCharInCharLiteral =>
                "more than one character in character literal"@,
            RawLexError::EmptyWrappedIdentifier => "empty wrapped identifier"@,
            RawLexError::EmptyEscapeSequence => "empty escape sequence"@,
            RawLexError::UnknownEscapeSequence => "unknown escape sequence"@,
            RawLexError::ExpectedOpenBracketInUnicodeEscapeSequence =>
                "expected `{` in unicode escape sequence"@,
            RawLexError::ExpectedDigitInUnicodeEscapeSequence =>
                "expected digit in unicode escape sequence"@,
            RawLexError::ExpectedCloseBracketInUnicodeEscapeSequence =>
                "expected `}` in unicode escape sequence"@,
            RawLexError::InvalidUnicodeEscapeSequence => "invalid unicode escape sequence"@,
            RawLexError::ExpectedOpenBracketInByteEscapeSequence =>
                "expected `{` in byte escape sequence"@,
            RawLexError::ExpectedDigitInByteEscapeSequence =>
                "expected digit in byte escape sequence"@,
            RawLexError::ExpectedCloseBracketInByteEscapeSequence =>
                "expected `}` in byte escape sequence"@,
            RawLexError::NumberParseError => "number does not fit in 64 bits"@,
        }
    }

    /// A sentence that names the error.
    pub fn as_str(self) -> (r: &'static str)
        ensures
            r@ == self.text(),
    {
        match self {
            RawLexError::UnexpectedChar => "unexpected character",
            RawLexError::UnterminatedStringLiteral => "unterminated string literal",
            RawLexError::UnterminatedCharLiteral => "unterminated character literal",
            RawLexError::UnterminatedWrappedIdentifier => "unterminated wrapped identifier",
            RawLexError::EmptyCharLiteral => "empty character literal",
            RawLexError::MoreThanOneCharInCharLiteral =>
                "more than one character in character literal",
            RawLexError::EmptyWrappedIdentifier => "empty wrapped identifier",
            RawLexError::EmptyEscapeSequence => "empty escape sequence",
            RawLexError::UnknownEscapeSequence => "unknown escape sequence",
            RawLexError::ExpectedOpenBracketInUnicodeEscapeSequence =>
                "expected `{` in unicode escape sequence",
            RawLexError::ExpectedDigitInUnicodeEscapeSequence =>
                "expected digit in unicode escape sequence",
            RawLexError::ExpectedCloseBracketInUnicodeEscapeSequence =>
                "expected `}` in unicode escape sequence",
            RawLexError::InvalidUnicodeEscapeSequence => "invalid unicode escape sequence",
            RawLexError::ExpectedOpenBracketInByteEscapeSequence =>
                "expected `{` in byte escape sequence",
            RawLexError::ExpectedDigitInByteEscapeSequence =>
                "expected digit in byte escape sequence",
            RawLexError::ExpectedCloseBracketInByteEscapeSequence =>
                "expected `}` in byte escape sequence",
            RawLexError::NumberParseError => "number does not fit in 64 bits",
        }
    }
}

/// A lexical error and the place where it was found.
#[derive(Debug, Clone, Copy, PartialEq, Eq, Hash, Structural)]
pub struct LexError {
    /// What is wrong.
    pub raw: RawLexError,
    /// Where it is wrong.
    pub span: Span,
}

/// A token without its place.
///
/// A token that stands for a text (an identifier, a string, a number with a
/// fraction, a documentation comment) carries the symbol under which the
/// scanner interned that text.
#[derive(Debug, Clone, Copy, PartialEq, Eq, Hash, Structural)]
pub enum RawToken {
    /// A punctuation mark or an operator.
    Punctuator(Punctuator),
    /// A reserved word.
    Keyword(Keyword),
    /// A name; the symbol is that of its characters.
    Identifier(Symbol),
    /// A string literal; the symbol is that of its decoded characters.
    StringLiteral(Symbol),
    /// A character literal with its decoded character.
    CharLiteral(char),
    /// An integer literal with its value.
    IntegerLiteral(u64),
    /// A literal with a fraction or an exponent; the symbol is that of its digits as written.
    FloatLiteral(Symbol),
    /// A literal with the suffix `i`; the symbol is that of its digits as written, without the
    /// suffix.
    ImaginaryLiteral(Symbol),
    /// A comment that documents the module; the symbol is that of its text.
    GlobalDocComment(Symbol),
    /// A comment that documents the item after it; the symbol is that of its text.
    LocalDocComment(Symbol),
    /// A comment.
    Comment,
    /// Text that is no token.
    Error(RawLexError),
    /// The end of the source.
    EndOfFile,
}

impl RawToken {
    /// The token that stands for a lexical error.
    pub open spec fn spec_from_error(error: RawLexError) -> RawToken {
        RawToken::Error(error)
    }

    /// The token that stands for a lexical error.
    #[verifier::when_used_as_spec(spec_from_error)]
    pub fn from_error(error: RawLexError) -> (r: RawToken)
        ensures
            r == RawToken::Error(error),
    {
        RawToken::Error(error)
    }

    /// Whether the token is the given punctuator.
    pub open spec fn spec_is_punctuator(self, p: Punctuator) -> bool {
        self == RawToken::Punctuator(p)
    }

    /// Whether the token is the given punctuator.
    #[verifier::when_used_as_spec(spec_is_punctuator)]
    pub fn is_punctuator(self, p: Punctuator) -> (r: bool)
        ensures
            r == (self == RawToken::Punctuator(p)),
    {
        self == RawToken::Punctuator(p)
    }

    /// Whether the token is the given reserved word.
    pub open spec fn spec_is_keyword(self, k: Keyword) -> bool {
        self == RawToken::Keyword(k)
    }

    /// Whether the token is the given reserved word.
    #[verifier::when_used_as_spec(spec_is_keyword)]
    pub fn is_keyword(self, k: Keyword) -> (r: bool)
        ensures
            r == (self == RawToken::Keyword(k)),
    {
        self == RawToken::Keyword(k)
    }
}

/// A token and its place in the source.
#[derive(Debug, Clone, Copy, PartialEq, Eq, Hash, Structural)]
pub struct Token {
    /// What the token is.
    pub raw: RawToken,
    /// Where the token stands.
    pub span: Span,
}

} // verus!
