//! What the scanner recognizes, stated over the characters of the source.
//!
//! A position is an index into the sequence of characters. A span is given
//! in bytes: the byte offset of a position is the number of bytes that the
//! UTF-8 encoding of the characters before it takes.

use crate::chars::{
    alphanumeric, byte_offset, decimal_digit, hex_digit, hex_value, id_continue, id_start,
    scalar_value, whitespace,
};
use crate::interner::{names_with, symbol_of};
use crate::span::Span;
use crate::token::{keyword_of, Keyword, Punctuator, RawLexError, RawToken, Token};
use vstd::prelude::*;

verus! {

/// A token as the characters give it, before its text is interned.
pub enum Lexeme {
    /// A punctuation mark or an operator.
    Punctuator(Punctuator),
    /// A reserved word.
    Keyword(Keyword),
    /// A name, with its characters.
    Identifier(Seq<char>),
    /// A string literal, with its decoded characters.
    StringLiteral(Seq<char>),
    /// A character literal, with its decoded character.
    CharLiteral(char),
    /// An integer literal, with its value.
    IntegerLiteral(u64),
    /// A literal with a fraction or an exponent, with its characters.
    FloatLiteral(Seq<char>),
    /// A literal with the suffix `i`, with its characters before the suffix.
    ImaginaryLiteral(Seq<char>),
    /// A comment on the module, with its text.
    GlobalDocComment(Seq<char>),
    /// A comment on the next item, with its text.
    LocalDocComment(Seq<char>),
    /// A comment.
    Comment,
    /// Text that is no token.
    Error(RawLexError),
    /// The end of the source.
    EndOfFile,
}

/// One step of scanning: what was recognized, its span in bytes, and the
/// position at which scanning goes on.
pub struct Scan {
    /// What was recognized.
    pub lexeme: Lexeme,
    /// Byte offset at which the span starts.
    pub start: int,
    /// Byte offset at which the span ends.
    pub end: int,
    /// The position after the step.
    pub next: int,
}

/// What decoding an escape sequence gives.
pub enum EscapeScan {
    /// The character that the sequence stands for.
    Char { value: char, next: int },
    /// The sequence is malformed at position `at`.
    Error { kind: RawLexError, at: int, next: int },
}

/// The text that interning a lexeme adds to the table, if it adds one.
pub open spec fn lexeme_text(lexeme: Lexeme) -> Option<Seq<char>> {
    match lexeme {
        Lexeme::Identifier(t) => Some(t),
        Lexeme::StringLiteral(t) => Some(t),
        Lexeme::FloatLiteral(t) => Some(t),
        Lexeme::ImaginaryLiteral(t) => Some(t),
        Lexeme::GlobalDocComment(t) => Some(t),
        Lexeme::LocalDocComment(t) => Some(t),
        _ => None,
    }
}

/// The token that stands for a lexeme when the table of texts holds `names`.
pub open spec fn token_of(lexeme: Lexeme, names: Seq<Seq<char>>) -> RawToken {
    match lexeme {
        Lexeme::Punctuator(p) => RawToken::Punctuator(p),
        Lexeme::Keyword(k) => RawToken::Keyword(k),
        Lexeme::Identifier(t) => RawToken::Identifier(symbol_of(names, t) as usize),
        Lexeme::StringLiteral(t) => RawToken::StringLiteral(symbol_of(names, t) as usize),
        Lexeme::CharLiteral(c) => RawToken::CharLiteral(c),
        Lexeme::IntegerLiteral(v) => RawToken::IntegerLiteral(v),
        Lexeme::FloatLiteral(t) => RawToken::FloatLiteral(symbol_of(names, t) as usize),
        Lexeme::ImaginaryLiteral(t) => RawToken::ImaginaryLiteral(symbol_of(names, t) as usize),
        Lexeme::GlobalDocComment(t) => RawToken::GlobalDocComment(symbol_of(names, t) as usize),
        Lexeme::LocalDocComment(t) => RawToken::LocalDocComment(symbol_of(names, t) as usize),
        Lexeme::Comment => RawToken::Comment,
        Lexeme::Error(e) => RawToken::Error(e),
        Lexeme::EndOfFile => RawToken::EndOfFile,
    }
}

/// The table of texts after a lexeme was turned into a token.
pub open spec fn names_after(lexeme: Lexeme, names: Seq<Seq<char>>) -> Seq<Seq<char>> {
    match lexeme_text(lexeme) {
        Some(t) => names_with(names, t),
        None => names,
    }
}

/// The character at position `i`; U+0000 beyond the end of the source.
pub open spec fn char_at(s: Seq<char>, i: int) -> char {
    if 0 <= i < s.len() {
        s[i]
    } else {
        '\0'
    }
}

/// The position after `i`; `i` itself at the end of the source.
pub open spec fn after(s: Seq<char>, i: int) -> int {
    if i < s.len() {
        i + 1
    } else {
        i
    }
}

/// The error token for one character at position `at`.
pub open spec fn error_at(s: Seq<char>, kind: RawLexError, at: int, next: int) -> Scan {
    Scan {
        lexeme: Lexeme::Error(kind),
        start: byte_offset(s, at),
        end: byte_offset(s, at) + 1,
        next,
    }
}

/// The first position at or after `i` that holds no whitespace.
pub open spec fn skip_whitespace(s: Seq<char>, i: int) -> int
    decreases s.len() - i,
{
    if 0 <= i < s.len() && whitespace(s[i]) {
        skip_whitespace(s, i + 1)
    } else {
        i
    }
}

/// The first position at or after `i` that holds a line feed or U+0000, or
/// the end of the source.
pub open spec fn line_end(s: Seq<char>, i: int) -> int
    decreases s.len() - i,
{
    if 0 <= i < s.len() && s[i] != '\n' && s[i] != '\0' {
        line_end(s, i + 1)
    } else {
        i
    }
}

/// The first position at or after `i` that cannot continue an identifier.
pub open spec fn name_end(s: Seq<char>, i: int) -> int
    decreases s.len() - i,
{
    if 0 <= i < s.len() && s[i] != '\0' && id_continue(s[i]) {
        name_end(s, i + 1)
    } else {
        i
    }
}

/// The first position at or after `i` that holds neither a letter or digit
/// of any script nor `_`.
pub open spec fn wrapped_end(s: Seq<char>, i: int) -> int
    decreases s.len() - i,
{
    if 0 <= i < s.len() && s[i] != '\0' && (alphanumeric(s[i]) || s[i] == '_') {
        wrapped_end(s, i + 1)
    } else {
        i
    }
}

/// The first position at or after `i` that holds no decimal digit.
pub open spec fn digits_end(s: Seq<char>, i: int) -> int
    decreases s.len() - i,
{
    if 0 <= i < s.len() && decimal_digit(s[i]) {
        digits_end(s, i + 1)
    } else {
        i
    }
}

/// The number that the decimal digits of `s` from `from` up to `to` spell.
pub open spec fn decimal_value(s: Seq<char>, from: int, to: int) -> int
    decreases to - from,
{
    if to <= from {
        0
    } else {
        decimal_value(s, from, to - 1) * 10 + (char_at(s, to - 1) as int - '0' as int)
    }
}

/// How many of the `n` characters from position `i` on are hexadecimal
/// digits, counted up to the first that is none.
pub open spec fn hex_prefix(s: Seq<char>, i: int, n: int) -> int
    decreases n,
{
    if n <= 0 || !hex_digit(char_at(s, i)) {
        0
    } else {
        1 + hex_prefix(s, i + 1, n - 1)
    }
}

/// The number that the `n` hexadecimal digits from position `i` on spell.
pub open spec fn hex_number(s: Seq<char>, i: int, n: int) -> int
    decreases n,
{
    if n <= 0 {
        0
    } else {
        hex_number(s, i, n - 1) * 16 + hex_value(char_at(s, i + n - 1))
    }
}

/// The punctuator that begins with the character `c` when `n` follows it,
/// with the number of characters it takes: the longest that matches.
pub open spec fn punctuator_at(c: char, n: char) -> Option<(Punctuator, int)> {
    if c == ':' {
        Some((Punctuator::Colon, 1int))
    } else if c == '@' {
        Some((Punctuator::At, 1int))
    } else if c == '+' {
        if n == '+' {
            Some((Punctuator::PlusPlus, 2int))
        } else if n == '=' {
            Some((Punctuator::PlusEq, 2int))
        } else {
            Some((Punctuator::Plus, 1int))
        }
    } else if c == '-' {
        if n == '-' {
            Some((Punctuator::MinusMinus, 2int))
        } else if n == '=' {
            Some((Punctuator::MinusEq, 2int))
        } else {
            Some((Punctuator::Minus, 1int))
        }
    } else if c == '*' {
        if n == '*' {
            Some((Punctuator::StarStar, 2int))
        } else if n == '=' {
            Some((Punctuator::StarEq, 2int))
        } else {
            Some((Punctuator::Star, 1int))
        }
    } else if c == '#' {
        Some((Punctuator::HashTag, 1int))
    } else if c == '/' {
        if n == '=' {
            Some((Punctuator::SlashEq, 2int))
        } else {
            Some((Punctuator::Slash, 1int))
        }
    } else if c == '!' {
        if n == '=' {
            Some((Punctuator::NotEq, 2int))
        } else {
            Some((Punctuator::Bang, 1int))
        }
    } else if c == '>' {
        if n == '>' {
            Some((Punctuator::RightShift, 2int))
        } else if n == '=' {
            Some((Punctuator::GreaterEq, 2int))
        } else {
            Some((Punctuator::Greater, 1int))
        }
    } else if c == '<' {
        if n == '<' {
            Some((Punctuator::LeftShift, 2int))
        } else if n == '=' {
            Some((Punctuator::LessEq, 2int))
        } else {
            Some((Punctuator::Less, 1int))
        }
    } else if c == '=' {
        if n == '=' {
            Some((Punctuator::EqEq, 2int))
        } else if n == '>' {
            Some((Punctuator::Arrow, 2int))
        } else {
            Some((Punctuator::Eq, 1int))
        }
    } else if c == '|' {
        if n == '=' {
            Some((Punctuator::OrEq, 2int))
        } else if n == '|' {
            Some((Punctuator::OrOr, 2int))
        } else {
            Some((Punctuator::Or, 1int))
        }
    } else if c == '?' {
        Some((Punctuator::QuestionMark, 1int))
    } else if c == '&' {
        if n == '&' {
            Some((Punctuator::AndAnd, 2int))
        } else if n == '=' {
            Some((Punctuator::AndEq, 2int))
        } else {
            Some((Punctuator::And, 1int))
        }
    } else if c == '^' {
        if n == '=' {
            Some((Punctuator::XorEq, 2int))
        } else {
            Some((Punctuator::Xor, 1int))
        }
    } else if c == '~' {
        Some((Punctuator::Not, 1int))
    } else if c == '(' {
        Some((Punctuator::OpenParent, 1int))
    } else if c == ')' {
        Some((Punctuator::CloseParent, 1int))
    } else if c == '[' {
        Some((Punctuator::OpenBracket, 1int))
    } else if c == ']' {
        Some((Punctuator::CloseBracket, 1int))
    } else if c == '{' {
        Some((Punctuator::OpenBrace, 1int))
    } else if c == '}' {
        Some((Punctuator::CloseBrace, 1int))
    } else if c == ',' {
        Some((Punctuator::Comma, 1int))
    } else if c == ';' {
        Some((Punctuator::Semicolon, 1int))
    } else if c == '%' {
        if n == '=' {
            Some((Punctuator::PercentEq, 2int))
        } else {
            Some((Punctuator::Percent, 1int))
        }
    } else if c == '.' {
        if n == '.' {
            Some((Punctuator::DotDot, 2int))
        } else {
            None
        }
    } else {
        None
    }
}

/// The escape sequence `\x{..}`, `\u{....}` or `\U{........}` whose letter
/// stands at position `letter`: an opening brace, `n` hexadecimal digits and
/// a closing brace follow, and the digits spell the code of a character.
pub open spec fn code_escape(s: Seq<char>, letter: int, n: int) -> EscapeScan {
    let unicode = n != 2;
    let brace = letter + 1;
    let first = letter + 2;
    let found = hex_prefix(s, first, n);
    let close = first + n;
    let code = hex_number(s, first, n);
    if char_at(s, brace) != '{' {
        EscapeScan::Error {
            kind: if unicode {
                RawLexError::ExpectedOpenBracketInUnicodeEscapeSequence
            } else {
                RawLexError::ExpectedOpenBracketInByteEscapeSequence
            },
            at: brace,
            next: brace,
        }
    } else if found < n {
        EscapeScan::Error {
            kind: if unicode {
                RawLexError::ExpectedDigitInUnicodeEscapeSequence
            } else {
                RawLexError::ExpectedDigitInByteEscapeSequence
            },
            at: first + found,
            next: first + found,
        }
    } else if char_at(s, close) != '}' {
        EscapeScan::Error {
            kind: if unicode {
                RawLexError::ExpectedCloseBracketInUnicodeEscapeSequence
            } else {
                RawLexError::ExpectedCloseBracketInByteEscapeSequence
            },
            at: close,
            next: close,
        }
    } else if !scalar_value(code) {
        EscapeScan::Error {
            kind: RawLexError::InvalidUnicodeEscapeSequence,
            at: close,
            next: close + 1,
        }
    } else {
        EscapeScan::Char { value: code as char, next: close + 1 }
    }
}

/// The escape sequence whose backslash stands at position `i`.
pub open spec fn escape(s: Seq<char>, i: int) -> EscapeScan {
    let letter = i + 1;
    let c = char_at(s, letter);
    if c == 'b' {
        EscapeScan::Char { value: '\u{0008}', next: letter + 1 }
    } else if c == 'f' {
        EscapeScan::Char { value: '\u{000C}', next: letter + 1 }
    } else if c == 'n' {
        EscapeScan::Char { value: '\n', next: letter + 1 }
    } else if c == 'r' {
        EscapeScan::Char { value: '\r', next: letter + 1 }
    } else if c == 't' {
        EscapeScan::Char { value: '\t', next: letter + 1 }
    } else if c == '\'' {
        EscapeScan::Char { value: '\'', next: letter + 1 }
    } else if c == '"' {
        EscapeScan::Char { value: '"', next: letter + 1 }
    } else if c == '\\' {
        EscapeScan::Char { value: '\\', next: letter + 1 }
    } else if c == '\0' {
        EscapeScan::Error {
            kind: RawLexError::EmptyEscapeSequence,
            at: letter,
            next: after(s, letter),
        }
    } else if c == 'u' {
        code_escape(s, letter, 4)
    } else if c == 'U' {
        code_escape(s, letter, 8)
    } else if c == 'x' {
        code_escape(s, letter, 2)
    } else {
        EscapeScan::Error { kind: RawLexError::UnknownEscapeSequence, at: letter, next: letter + 1 }
    }
}

/// The rest of a string literal whose opening quote stands at position
/// `open`: `i` is the position reached and `text` what was decoded so far.
///
/// The literal ends at the closing quote. A line feed or the end of the
/// source before it makes the literal unterminated; a malformed escape
/// sequence ends the scan with the error of that sequence.
pub open spec fn string_rest(s: Seq<char>, open: int, i: int, text: Seq<char>) -> Scan
    decreases s.len() - i,
{
    let c = char_at(s, i);
    if c == '\0' || c == '\n' || i < 0 {
        Scan {
            lexeme: Lexeme::Error(RawLexError::UnterminatedStringLiteral),
            start: byte_offset(s, open),
            end: byte_offset(s, i),
            next: i,
        }
    } else if c == '"' {
        Scan {
            lexeme: Lexeme::StringLiteral(text),
            start: byte_offset(s, open),
            end: byte_offset(s, i + 1),
            next: i + 1,
        }
    } else if c == '\\' {
        match escape(s, i) {
            EscapeScan::Char { value, next } => string_rest(s, open, next, text.push(value)),
            EscapeScan::Error { kind, at, next } => error_at(s, kind, at, next),
        }
    } else {
        string_rest(s, open, i + 1, text.push(c))
    }
}

/// The rest of a character literal whose opening quote stands at position
/// `open`: `i` is the position reached, `count` the number of characters
/// decoded so far and `last` the last of them.
///
/// The literal ends at the closing quote and must hold one character. A line
/// feed or the end of the source before the quote makes it unterminated; a
/// malformed escape sequence ends the scan with the error of that sequence.
pub open spec fn char_rest(s: Seq<char>, open: int, i: int, count: int, last: char) -> Scan
    decreases s.len() - i,
{
    let c = char_at(s, i);
    if c == '\'' {
        Scan {
            lexeme: if count == 1 {
                Lexeme::CharLiteral(last)
            } else if count <= 0 {
                Lexeme::Error(RawLexError::EmptyCharLiteral)
            } else {
                Lexeme::Error(RawLexError::MoreThanOneCharInCharLiteral)
            },
            start: byte_offset(s, open),
            end: byte_offset(s, i + 1),
            next: i + 1,
        }
    } else if c == '\0' || c == '\n' || i < 0 {
        Scan {
            lexeme: Lexeme::Error(RawLexError::UnterminatedCharLiteral),
            start: byte_offset(s, open),
            end: byte_offset(s, i),
            next: i,
        }
    } else if c == '\\' {
        match escape(s, i) {
            EscapeScan::Char { value, next } => char_rest(s, open, next, count + 1, value),
            EscapeScan::Error { kind, at, next } => error_at(s, kind, at, next),
        }
    } else {
        char_rest(s, open, i + 1, count + 1, c)
    }
}

/// The string literal whose opening quote stands at position `i`.
pub open spec fn scan_string(s: Seq<char>, i: int) -> Scan {
    string_rest(s, i, i + 1, Seq::empty())
}

/// The character literal whose opening quote stands at position `i`.
pub open spec fn scan_char(s: Seq<char>, i: int) -> Scan {
    char_rest(s, i, i + 1, 0, '\0')
}

/// The identifier between backticks whose first backtick stands at position
/// `i`: letters and digits of any script and `_`, at least one, then a
/// backtick.
pub open spec fn scan_wrapped(s: Seq<char>, i: int) -> Scan {
    let e = wrapped_end(s, i + 1);
    if char_at(s, e) != '`' {
        Scan {
            lexeme: Lexeme::Error(RawLexError::UnterminatedWrappedIdentifier),
            start: byte_offset(s, i),
            end: byte_offset(s, e),
            next: e,
        }
    } else if e == i + 1 {
        Scan {
            lexeme: Lexeme::Error(RawLexError::EmptyWrappedIdentifier),
            start: byte_offset(s, i),
            end: byte_offset(s, e),
            next: e,
        }
    } else {
        Scan {
            lexeme: Lexeme::Identifier(s.subrange(i + 1, e)),
            start: byte_offset(s, i),
            end: byte_offset(s, e + 1),
            next: e + 1,
        }
    }
}

/// The comment whose first slash stands at position `i`. It runs to the end
/// of the line. `//!` begins a comment on the module and `///` one on the
/// next item; the text of either is what follows those three characters.
pub open spec fn scan_comment(s: Seq<char>, i: int) -> Scan {
    let third = char_at(s, i + 2);
    if third == '!' || third == '/' {
        let e = line_end(s, i + 3);
        Scan {
            lexeme: if third == '!' {
                Lexeme::GlobalDocComment(s.subrange(i + 3, e))
            } else {
                Lexeme::LocalDocComment(s.subrange(i + 3, e))
            },
            start: byte_offset(s, i),
            end: byte_offset(s, e),
            next: e,
        }
    } else {
        let e = line_end(s, i + 2);
        Scan { lexeme: Lexeme::Comment, start: byte_offset(s, i), end: byte_offset(s, e), next: e }
    }
}

/// The identifier or reserved word that begins at position `i`.
pub open spec fn scan_name(s: Seq<char>, i: int) -> Scan {
    let e = name_end(s, i + 1);
    let text = s.subrange(i, e);
    Scan {
        lexeme: match keyword_of(text) {
            Some(k) => Lexeme::Keyword(k),
            None => Lexeme::Identifier(text),
        },
        start: byte_offset(s, i),
        end: byte_offset(s, e),
        next: e,
    }
}

/// The position after the fraction of a number whose whole part ends at
/// position `i`: a point that a digit follows, and the digits after it.
pub open spec fn fraction_end(s: Seq<char>, i: int) -> int {
    if char_at(s, i) == '.' && decimal_digit(char_at(s, i + 1)) {
        digits_end(s, i + 1)
    } else {
        i
    }
}

/// The position after the exponent of a number whose digits end at position
/// `i`: `e` or `E`, a sign if there is one, and at least one digit.
pub open spec fn exponent_end(s: Seq<char>, i: int) -> int {
    let c = char_at(s, i);
    let sign = char_at(s, i + 1);
    if c != 'e' && c != 'E' {
        i
    } else if decimal_digit(sign) {
        digits_end(s, i + 1)
    } else if (sign == '+' || sign == '-') && decimal_digit(char_at(s, i + 2)) {
        digits_end(s, i + 2)
    } else {
        i
    }
}

/// The number that begins at position `i` with a digit, or with a point
/// that a digit follows.
///
/// A number is decimal digits, then a fraction and an exponent where they
/// are there. With the suffix `i` it is imaginary; else with a fraction or
/// an exponent it is a float; else it is an integer, which must fit in 64
/// bits.
pub open spec fn scan_number(s: Seq<char>, i: int) -> Scan {
    let whole = digits_end(s, i);
    let mantissa = fraction_end(s, whole);
    let e = exponent_end(s, mantissa);
    let value = decimal_value(s, i, whole);
    if char_at(s, e) == 'i' {
        Scan {
            lexeme: Lexeme::ImaginaryLiteral(s.subrange(i, e)),
            start: byte_offset(s, i),
            end: byte_offset(s, e + 1),
            next: e + 1,
        }
    } else {
        Scan {
            lexeme: if e > whole {
                Lexeme::FloatLiteral(s.subrange(i, e))
            } else if value <= u64::MAX {
                Lexeme::IntegerLiteral(value as u64)
            } else {
                Lexeme::Error(RawLexError::NumberParseError)
            },
            start: byte_offset(s, i),
            end: byte_offset(s, e),
            next: e,
        }
    }
}

/// The token that begins at position `i`, where `i` holds no whitespace.
pub open spec fn scan_at(s: Seq<char>, i: int) -> Scan {
    let c = char_at(s, i);
    let n = char_at(s, i + 1);
    if c == '\0' {
        Scan {
            lexeme: Lexeme::EndOfFile,
            start: byte_offset(s, i),
            end: byte_offset(s, i) + 1,
            next: i,
        }
    } else if c == '"' {
        scan_string(s, i)
    } else if c == '\'' {
        scan_char(s, i)
    } else if c == '`' {
        scan_wrapped(s, i)
    } else if c == '/' && n == '/' {
        scan_comment(s, i)
    } else {
        match punctuator_at(c, n) {
            Some((p, width)) => Scan {
                lexeme: Lexeme::Punctuator(p),
                start: byte_offset(s, i),
                end: byte_offset(s, i) + width,
                next: i + width,
            },
            None => if decimal_digit(c) || (c == '.' && decimal_digit(n)) {
                scan_number(s, i)
            } else if id_start(c) {
                scan_name(s, i)
            } else if c == '.' {
                Scan {
                    lexeme: Lexeme::Punctuator(Punctuator::Dot),
                    start: byte_offset(s, i),
                    end: byte_offset(s, i) + 1,
                    next: i + 1,
                }
            } else {
                error_at(s, RawLexError::UnexpectedChar, i, i + 1)
            },
        }
    }
}

/// The next token at or after position `i`: whitespace is skipped first.
pub open spec fn scan(s: Seq<char>, i: int) -> Scan {
    scan_at(s, skip_whitespace(s, i))
}

/// The next token at or after position `i` that is no plain comment.
pub open spec fn scan_no_comments(s: Seq<char>, i: int) -> Scan
    decreases s.len() - i,
{
    let sc = scan(s, i);
    if sc.lexeme is Comment && i < sc.next <= s.len() {
        scan_no_comments(s, sc.next)
    } else {
        sc
    }
}

/// The outcome of scanning a whole source.
pub struct Lexed {
    /// The tokens, the last of which is the end of the file.
    pub tokens: Seq<Token>,
    /// The table of texts after the last token.
    pub names: Seq<Seq<char>>,
    /// The position at which scanning stopped.
    pub stop: int,
}

/// The token that scanning gives for the step `sc` in file `file_id` when
/// the table of texts holds `names`.
pub open spec fn token_at(sc: Scan, file_id: usize, names: Seq<Seq<char>>) -> Token {
    Token {
        raw: token_of(sc.lexeme, names),
        span: Span { start: sc.start as usize, end: sc.end as usize, file_id },
    }
}

/// The tokens of the source from position `i` on, plain comments left out,
/// after the tokens `before`; the last token is the end of the file.
pub open spec fn tokens_from(
    s: Seq<char>,
    file_id: usize,
    i: int,
    names: Seq<Seq<char>>,
    before: Seq<Token>,
) -> Lexed
    decreases s.len() - i,
{
    let sc = scan_no_comments(s, i);
    let tokens = before.push(token_at(sc, file_id, names));
    let names = names_after(sc.lexeme, names);
    if !(sc.lexeme is EndOfFile) && i < sc.next <= s.len() {
        tokens_from(s, file_id, sc.next, names, tokens)
    } else {
        Lexed { tokens, names, stop: sc.next }
    }
}

/// The tokens of a source, plain comments left out, when the table of texts
/// holds `names` before.
pub open spec fn tokens_of(s: Seq<char>, file_id: usize, names: Seq<Seq<char>>) -> Lexed {
    tokens_from(s, file_id, 0, names, Seq::empty())
}

} // verus!
