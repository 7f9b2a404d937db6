//! What the parser reports when the tokens do not fit the grammar.

use crate::span::Span;
use crate::token::{Keyword, Punctuator, RawToken, Token};
use vstd::prelude::*;

verus! {

/// What the parser would have accepted where it found something else.
#[derive(Debug, Clone, Copy, PartialEq, Eq, Hash, Structural)]
pub enum Expected {
    /// A name.
    Identifier,
    /// The given punctuator.
    Punctuator(Punctuator),
    /// The given reserved word.
    Keyword(Keyword),
    /// The given punctuator, which closes a list, or `,`.
    ClosingOrComma(Punctuator),
    /// `{` or `;`, which end a where clause, or `,`.
    BodyOrComma,
    /// `:` or `=`.
    ColonOrEq,
    /// `{` or `;`.
    BodyOrSemicolon,
    /// `;` or `}`.
    SemicolonOrCloseBrace,
    /// The first token of an item.
    Item,
    /// The first token of an item of a trait or of an implementation.
    TraitItem,
    /// The first token of a type.
    Type,
    /// The first token of a pattern.
    Pattern,
    /// The first token of an expression.
    Expression,
}

/// The part of the grammar that the parser was reading.
#[derive(Debug, Clone, Copy, PartialEq, Eq, Hash, Structural)]
pub enum Node {
    Item,
    Import,
    Path,
    Enum,
    EnumItem,
    Struct,
    StructField,
    TupleField,
    Trait,
    TraitItem,
    Impl,
    TypeAlias,
    Function,
    FunctionParameter,
    GenericParameters,
    GenericArguments,
    WhereClause,
    Type,
    TypeWithQualifiedPath,
    ParenthesizedOrTupleType,
    Pattern,
    StructPattern,
    TupleLikePattern,
    TuplePattern,
    ListPattern,
    Expression,
    ParenthesizedOrTupleExpression,
    ListExpression,
    CallArguments,
    StructExpression,
    FieldAccess,
    MatchExpression,
    Lambda,
    StatementsBlock,
    Statement,
    LetStatement,
}

/// A token that does not fit the grammar: what was found, what would have
/// been accepted, and what the parser was reading.
#[derive(Debug, Clone, Copy, PartialEq, Eq, Hash, Structural)]
pub struct ParseDiagnostic {
    /// The token that was found.
    pub got: Token,
    /// What would have been accepted in its place.
    pub expected: Expected,
    /// What the parser was reading.
    pub node: Node,
}

impl Node {
    /// The words that name the part of the grammar.
    pub open spec fn text(self) -> Seq<char> {
        match self {
            Node::Item => "item"@,
            Node::Import => "import"@,
            Node::Path => "path"@,
            Node::Enum => "enum"@,
            Node::EnumItem => "enum item"@,
            Node::Struct => "struct"@,
            Node::StructField => "struct field"@,
            Node::TupleField => "tuple field"@,
            Node::Trait => "trait"@,
            Node::TraitItem => "trait item"@,
            Node::Impl => "type implementation"@,
            Node::TypeAlias => "type alias"@,
            Node::Function => "function"@,
            Node::FunctionParameter => "function parameter"@,
            Node::GenericParameters => "generic parameters"@,
            Node::GenericArguments => "generic arguments"@,
            Node::WhereClause => "where clause"@,
            Node::Type => "type"@,
            Node::TypeWithQualifiedPath => "type with qualified path"@,
            Node::ParenthesizedOrTupleType => "parenthesized or tuple type"@,
            Node::Pattern => "pattern"@,
            Node::StructPattern => "struct pattern"@,
            Node::TupleLikePattern => "tuple-like pattern"@,
            Node::TuplePattern => "tuple pattern"@,
            Node::ListPattern => "list pattern"@,
            Node::Expression => "expression"@,
            Node::ParenthesizedOrTupleExpression => "parenthesized or tuple expression"@,
            Node::ListExpression => "list expression"@,
            Node::CallArguments => "call arguments"@,
            Node::StructExpression => "struct expression"@,
            Node::FieldAccess => "field access"@,
            Node::MatchExpression => "match expression"@,
            Node::Lambda => "lambda"@,
            Node::StatementsBlock => "statements block"@,
            Node::Statement => "statement"@,
            Node::LetStatement => "let statement"@,
        }
    }

    /// The words that name the part of the grammar.
    pub fn as_str(self) -> (r: &'static str)
        ensures
            r@ == self.text(),
    {
        match self {
            Node::Item => "item",
            Node::Import => "import",
            Node::Path => "path",
            Node::Enum => "enum",
            Node::EnumItem => "enum item",
            Node::Struct => "struct",
            Node::StructField => "struct field",
            Node::TupleField => "tuple field",
            Node::Trait => "trait",
            Node::TraitItem => "trait item",
            Node::Impl => "type implementation",
            Node::TypeAlias => "type alias",
            Node::Function => "function",
            Node::FunctionParameter => "function parameter",
            Node::GenericParameters => "generic parameters",
            Node::GenericArguments => "generic arguments",
            Node::WhereClause => "where clause",
            Node::Type => "type",
            Node::TypeWithQualifiedPath => "type with qualified path",
            Node::ParenthesizedOrTupleType => "parenthesized or tuple type",
            Node::Pattern => "pattern",
            Node::StructPattern => "struct pattern",
            Node::TupleLikePattern => "tuple-like pattern",
            Node::TuplePattern => "tuple pattern",
            Node::ListPattern => "list pattern",
            Node::Expression => "expression",
            Node::ParenthesizedOrTupleExpression => "parenthesized or tuple expression",
            Node::ListExpression => "list expression",
            Node::CallArguments => "call arguments",
            Node::StructExpression => "struct expression",
            Node::FieldAccess => "field access",
            Node::MatchExpression => "match expression",
            Node::Lambda => "lambda",
            Node::StatementsBlock => "statements block",
            Node::Statement => "statement",
            Node::LetStatement => "let statement",
        }
    }
}

/// A quoted piece of source: the characters between two backticks.
pub open spec fn quoted(text: Seq<char>) -> Seq<char> {
    "`"@ + text + "`"@
}

/// A quoted piece of source: the characters between two backticks.
pub fn quote(text: &str) -> (r: String)
    ensures
        r@ == quoted(text@),
{
    let mut r = String::from_str("`");
    r.append(text);
    r.append("`");
    r
}

impl Expected {
    /// The words that name what would have been accepted.
    pub open spec fn text(self) -> Seq<char> {
        match self {
            Expected::Punctuator(p) => quoted(p.text()),
            Expected::Keyword(k) => quoted(k.text()),
            Expected::ClosingOrComma(p) => quoted(p.text()) + " or `,`"@,
            Expected::Identifier => "identifier"@,
            Expected::BodyOrComma => "`{`, `;` or `,`"@,
            Expected::ColonOrEq => "`:` or `=`"@,
            Expected::BodyOrSemicolon => "`{` or `;`"@,
            Expected::SemicolonOrCloseBrace => "`;` or `}`"@,
            Expected::Item => "item"@,
            Expected::TraitItem => "function or type alias"@,
            Expected::Type => "type"@,
            Expected::Pattern => "pattern"@,
            Expected::Expression => "expression"@,
        }
    }

    /// The words that name what would have been accepted.
    pub fn describe(self) -> (r: String)
        ensures
            r@ == self.text(),
    {
        match self {
            Expected::Punctuator(p) => quote(p.as_str()),
            Expected::Keyword(k) => quote(k.as_str()),
            Expected::ClosingOrComma(p) => {
                let mut r = quote(p.as_str());
                r.append(" or `,`");
                r
            },
            Expected::Identifier => String::from_str("identifier"),
            Expected::BodyOrComma => String::from_str("`{`, `;` or `,`"),
            Expected::ColonOrEq => String::from_str("`:` or `=`"),
            Expected::BodyOrSemicolon => String::from_str("`{` or `;`"),
            Expected::SemicolonOrCloseBrace => String::from_str("`;` or `}`"),
            Expected::Item => String::from_str("item"),
            Expected::TraitItem => String::from_str("function or type alias"),
            Expected::Type => String::from_str("type"),
            Expected::Pattern => String::from_str("pattern"),
            Expected::Expression => String::from_str("expression"),
        }
    }
}

/// The words that name a token in a message.
pub open spec fn token_text(raw: RawToken) -> Seq<char> {
    match raw {
        RawToken::Punctuator(p) => quoted(p.text()),
        RawToken::Keyword(k) => quoted(k.text()),
        RawToken::Error(e) => e.text(),
        RawToken::Identifier(_) => "identifier"@,
        RawToken::StringLiteral(_) => "string literal"@,
        RawToken::CharLiteral(_) => "character literal"@,
        RawToken::IntegerLiteral(_) => "integer literal"@,
        RawToken::FloatLiteral(_) => "float literal"@,
        RawToken::ImaginaryLiteral(_) => "imaginary literal"@,
        RawToken::GlobalDocComment(_) => "documentation comment"@,
        RawToken::LocalDocComment(_) => "documentation comment"@,
        RawToken::Comment => "comment"@,
        RawToken::EndOfFile => "end of file"@,
    }
}

/// The words that name a token in a message.
pub fn describe_token(raw: RawToken) -> (r: String)
    ensures
        r@ == token_text(raw),
{
    match raw {
        RawToken::Punctuator(p) => quote(p.as_str()),
        RawToken::Keyword(k) => quote(k.as_str()),
        RawToken::Error(e) => String::from_str(e.as_str()),
        RawToken::Identifier(_) => String::from_str("identifier"),
        RawToken::StringLiteral(_) => String::from_str("string literal"),
        RawToken::CharLiteral(_) => String::from_str("character literal"),
        RawToken::IntegerLiteral(_) => String::from_str("integer literal"),
        RawToken::FloatLiteral(_) => String::from_str("float literal"),
        RawToken::ImaginaryLiteral(_) => String::from_str("imaginary literal"),
        RawToken::GlobalDocComment(_) => String::from_str("documentation comment"),
        RawToken::LocalDocComment(_) => String::from_str("documentation comment"),
        RawToken::Comment => String::from_str("comment"),
        RawToken::EndOfFile => String::from_str("end of file"),
    }
}

/// A diagnostic as it is shown: a code that names its kind, a message,
/// and the span that it is about.
#[derive(Debug, PartialEq, Eq)]
pub struct Diagnostic {
    /// The code of the kind of diagnostic.
    pub code: String,
    /// The message.
    pub message: String,
    /// The span that the diagnostic is about.
    pub span: Span,
}

impl ParseDiagnostic {
    /// The code of the diagnostic: `E000` where the token is text that is
    /// no token, and `E001` for any other token that does not fit.
    pub open spec fn code(self) -> Seq<char> {
        if self.got.raw is Error {
            "E000"@
        } else {
            "E001"@
        }
    }

    /// The message of the diagnostic.
    pub open spec fn message(self) -> Seq<char> {
        "expected "@ + self.expected.text() + ", got "@ + token_text(self.got.raw) + " in "@
            + self.node.text()
    }

    /// The diagnostic as it is shown: its span is that of the token that
    /// was found.
    pub fn build(&self) -> (r: Diagnostic)
        ensures
            r.code@ == self.code(),
            r.message@ == self.message(),
            r.span == self.got.span,
    {
        let code = match self.got.raw {
            RawToken::Error(_) => String::from_str("E000"),
            _ => String::from_str("E001"),
        };
        let mut message = String::from_str("expected ");
        message.append(self.expected.describe().as_str());
        message.append(", got ");
        message.append(describe_token(self.got.raw).as_str());
        message.append(" in ");
        message.append(self.node.as_str());
        Diagnostic { code, message, span: self.got.span }
    }
}

/// What the analysis of scopes reports.
#[derive(Debug, Clone)]
pub enum ScopeDiagnostic {
    /// A name was used that no scope holds.
    NotFound {
        /// The name.
        symbol: String,
        /// Where the name was used.
        span: Span,
    },
}

impl ScopeDiagnostic {
    /// The message of the diagnostic.
    pub open spec fn message(self) -> Seq<char> {
        match self {
            ScopeDiagnostic::NotFound { symbol, span } => quoted(symbol@)
                + " is not found in this scope"@,
        }
    }

    /// The span that the diagnostic is about.
    pub open spec fn span(self) -> Span {
        match self {
            ScopeDiagnostic::NotFound { symbol, span } => span,
        }
    }

    /// The diagnostic as it is shown, with the code `E004`.
    pub fn build(&self) -> (r: Diagnostic)
        ensures
            r.code@ == "E004"@,
            r.message@ == self.message(),
            r.span == self.span(),
    {
        match self {
            ScopeDiagnostic::NotFound { symbol, span } => {
                let mut message = quote(symbol.as_str());
                message.append(" is not found in this scope");
                Diagnostic { code: String::from_str("E004"), message, span: *span }
            },
        }
    }
}

} // verus!
