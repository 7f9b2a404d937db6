//! The scanner: turns the characters of a source into tokens.

use crate::chars::{
    byte_offset, char_from_u32, char_is_alphanumeric, chars_of, decimal, decimal_digit,
    hex_digit_value, hexadecimal, is_id_continue, is_id_start, is_whitespace, len_utf8,
    lemma_byte_offset_grows, string_of, utf8_len,
};
use crate::hint::unlikely;
use crate::interner::Interner;
use crate::scan::{
    after, char_at, char_rest, code_escape, decimal_value, digits_end, escape, hex_number,
    hex_prefix, line_end, name_end, names_after, punctuator_at, scan, scan_at, scan_char,
    scan_comment, scan_name, scan_no_comments, scan_number, scan_string, scan_wrapped,
    skip_whitespace, string_rest, token_of, tokens_from, tokens_of, wrapped_end, EscapeScan, Scan,
};
use crate::span::Span;
use crate::token::{Keyword, LexError, Punctuator, RawLexError, RawToken, Token};
use vstd::prelude::*;

verus! {

/// Sixteen to the power `k`, for `k` up to eight.
pub open spec fn pow16(k: int) -> int {
    if k <= 0 {
        1
    } else if k == 1 {
        0x10
    } else if k == 2 {
        0x100
    } else if k == 3 {
        0x1000
    } else if k == 4 {
        0x1_0000
    } else if k == 5 {
        0x10_0000
    } else if k == 6 {
        0x100_0000
    } else if k == 7 {
        0x1000_0000
    } else {
        0x1_0000_0000
    }
}

/// The punctuator that begins with `c` when `n` follows it, and whether it
/// takes both characters.
fn punctuator(c: char, n: char) -> (r: Option<(Punctuator, bool)>)
    ensures
        match r {
            Some((p, two)) => punctuator_at(c, n) == Some((p, if two { 2int } else { 1int }))
                && (two ==> n != '\0') && c != '\0',
            None => punctuator_at(c, n) is None,
        },
{
    if c == ':' {
        Some((Punctuator::Colon, false))
    } else if c == '@' {
        Some((Punctuator::At, false))
    } else if c == '+' {
        if n == '+' {
            Some((Punctuator::PlusPlus, true))
        } else if n == '=' {
            Some((Punctuator::PlusEq, true))
        } else {
            Some((Punctuator::Plus, false))
        }
    } else if c == '-' {
        if n == '-' {
            Some((Punctuator::MinusMinus, true))
        } else if n == '=' {
            Some((Punctuator::MinusEq, true))
        } else {
            Some((Punctuator::Minus, false))
        }
    } else if c == '*' {
        if n == '*' {
            Some((Punctuator::StarStar, true))
        } else if n == '=' {
            Some((Punctuator::StarEq, true))
        } else {
            Some((Punctuator::Star, false))
        }
    } else if c == '#' {
        Some((Punctuator::HashTag, false))
    } else if c == '/' {
        if n == '=' {
            Some((Punctuator::SlashEq, true))
        } else {
            Some((Punctuator::Slash, false))
        }
    } else if c == '!' {
        if n == '=' {
            Some((Punctuator::NotEq, true))
        } else {
            Some((Punctuator::Bang, false))
        }
    } else if c == '>' {
        if n == '>' {
            Some((Punctuator::RightShift, true))
        } else if n == '=' {
            Some((Punctuator::GreaterEq, true))
        } else {
            Some((Punctuator::Greater, false))
        }
    } else if c == '<' {
        if n == '<' {
            Some((Punctuator::LeftShift, true))
        } else if n == '=' {
            Some((Punctuator::LessEq, true))
        } else {
            Some((Punctuator::Less, false))
        }
    } else if c == '=' {
        if n == '=' {
            Some((Punctuator::EqEq, true))
        } else if n == '>' {
            Some((Punctuator::Arrow, true))
        } else {
            Some((Punctuator::Eq, false))
        }
    } else if c == '|' {
        if n == '=' {
            Some((Punctuator::OrEq, true))
        } else if n == '|' {
            Some((Punctuator::OrOr, true))
        } else {
            Some((Punctuator::Or, false))
        }
    } else if c == '?' {
        Some((Punctuator::QuestionMark, false))
    } else if c == '&' {
        if n == '&' {
            Some((Punctuator::AndAnd, true))
        } else if n == '=' {
            Some((Punctuator::AndEq, true))
        } else {
            Some((Punctuator::And, false))
        }
    } else if c == '^' {
        if n == '=' {
            Some((Punctuator::XorEq, true))
        } else {
            Some((Punctuator::Xor, false))
        }
    } else if c == '~' {
        Some((Punctuator::Not, false))
    } else if c == '(' {
        Some((Punctuator::OpenParent, false))
    } else if c == ')' {
        Some((Punctuator::CloseParent, false))
    } else if c == '[' {
        Some((Punctuator::OpenBracket, false))
    } else if c == ']' {
        Some((Punctuator::CloseBracket, false))
    } else if c == '{' {
        Some((Punctuator::OpenBrace, false))
    } else if c == '}' {
        Some((Punctuator::CloseBrace, false))
    } else if c == ',' {
        Some((Punctuator::Comma, false))
    } else if c == ';' {
        Some((Punctuator::Semicolon, false))
    } else if c == '%' {
        if n == '=' {
            Some((Punctuator::PercentEq, true))
        } else {
            Some((Punctuator::Percent, false))
        }
    } else if c == '.' {
        if n == '.' {
            Some((Punctuator::DotDot, true))
        } else {
            None
        }
    } else {
        None
    }
}

/// A scanner over the characters of one source.
///
/// Each call of [`Lexer::next_token`] skips whitespace and returns the token
/// that follows. At the end of the source, and at a character U+0000, every
/// call returns the token for the end of the file.
pub struct Lexer {
    /// The characters of the source.
    source: Vec<char>,
    /// The file that spans refer to.
    file_id: usize,
    /// The position of the current character.
    index: usize,
    /// The byte offset of the current character.
    location: usize,
}

impl Lexer {
    /// The characters of the source.
    pub closed spec fn source(&self) -> Seq<char> {
        self.source@
    }

    /// The position of the current character.
    pub closed spec fn position(&self) -> int {
        self.index as int
    }

    /// The file that spans refer to.
    pub closed spec fn file(&self) -> usize {
        self.file_id
    }

    /// The position is within the source, the byte offset is that of the
    /// position, and every byte offset of the source fits a machine word.
    pub closed spec fn wf(&self) -> bool {
        &&& self.index <= self.source@.len()
        &&& self.location == byte_offset(self.source@, self.index as int)
        &&& utf8_len(self.source@) < usize::MAX
    }

    /// The scanner went from `pre` to `self` by the step `sc`, which gave
    /// the token `token` and took the table of texts from `names` to `after`.
    pub open spec fn follows(
        &self,
        pre: Lexer,
        sc: Scan,
        token: Token,
        names: Seq<Seq<char>>,
        after: Seq<Seq<char>>,
    ) -> bool {
        &&& self.wf()
        &&& self.source() == pre.source()
        &&& self.file() == pre.file()
        &&& self.position() == sc.next
        &&& pre.position() <= sc.next <= self.source().len()
        &&& token.raw == token_of(sc.lexeme, names)
        &&& token.span.start == sc.start
        &&& token.span.end == sc.end
        &&& token.span.file_id == pre.file()
        &&& after == names_after(sc.lexeme, names)
    }

    /// A scanner at the start of `source`, if the UTF-8 encoding of the
    /// source is shorter than the largest machine word.
    pub fn try_new(file_id: usize, source: &str) -> (r: Option<Lexer>)
        ensures
            match r {
                Some(lexer) => utf8_len(source@) < usize::MAX && lexer.wf() && lexer.source()
                    == source@ && lexer.position() == 0 && lexer.file() == file_id,
                None => utf8_len(source@) >= usize::MAX,
            },
    {
        let chars = chars_of(source);
        let mut total: usize = 0;
        let mut i: usize = 0;
        while i < chars.len()
            invariant
                i <= chars.len(),
                chars@ == source@,
                total == byte_offset(chars@, i as int),
            decreases chars.len() - i,
        {
            let width = len_utf8(chars[i]);
            proof {
                lemma_byte_offset_grows(chars@, i + 1, chars@.len() as int);
            }
            assert(byte_offset(chars@, i + 1) == total + width);
            if width > usize::MAX - total {
                return None;
            }
            total = total + width;
            i += 1;
        }
        if total == usize::MAX {
            return None;
        }
        Some(Lexer { source: chars, file_id, index: 0, location: 0 })
    }

    /// A scanner at the start of `source`.
    pub fn new(file_id: usize, source: &str) -> (r: Lexer)
        requires
            utf8_len(source@) < usize::MAX,
        ensures
            r.wf(),
            r.source() == source@,
            r.position() == 0,
            r.file() == file_id,
    {
        Lexer { source: chars_of(source), file_id, index: 0, location: 0 }
    }

    /// The current character; U+0000 at the end of the source.
    fn current(&self) -> (c: char)
        requires
            self.wf(),
        ensures
            c == char_at(self.source@, self.index as int),
    {
        if self.index < self.source.len() {
            self.source[self.index]
        } else {
            '\0'
        }
    }

    /// The character `k` positions after the current one; U+0000 beyond the
    /// end of the source.
    fn peek(&self, k: usize) -> (c: char)
        requires
            self.wf(),
        ensures
            c == char_at(self.source@, self.index + k),
    {
        if k < self.source.len() - self.index {
            self.source[self.index + k]
        } else {
            '\0'
        }
    }

    /// Returns `true` if the current character is U+0000.
    fn eof(&self) -> (r: bool)
        requires
            self.wf(),
        ensures
            r == (char_at(self.source@, self.index as int) == '\0'),
    {
        self.current() == '\0'
    }

    /// Moves to the next character. At the end of the source nothing moves.
    fn advance(&mut self)
        requires
            old(self).wf(),
        ensures
            final(self).wf(),
            final(self).source == old(self).source,
            final(self).file_id == old(self).file_id,
            final(self).index == after(old(self).source@, old(self).index as int),
    {
        if self.index < self.source.len() {
            proof {
                lemma_byte_offset_grows(self.source@, self.index + 1, self.source@.len() as int);
            }
            self.location = self.location + len_utf8(self.source[self.index]);
            self.index = self.index + 1;
        }
    }

    /// Moves over the next two characters.
    fn advance_twice(&mut self)
        requires
            old(self).wf(),
        ensures
            final(self).wf(),
            final(self).source == old(self).source,
            final(self).file_id == old(self).file_id,
            final(self).index == after(
                old(self).source@,
                after(old(self).source@, old(self).index as int),
            ),
    {
        self.advance();
        self.advance();
    }

    /// The span of one byte at the current character.
    fn current_char_span(&self) -> (r: Span)
        requires
            self.wf(),
        ensures
            r.start == self.location,
            r.end == self.location + 1,
            r.file_id == self.file_id,
    {
        proof {
            lemma_byte_offset_grows(self.source@, self.index as int, self.source@.len() as int);
        }
        Span { start: self.location, end: self.location + 1, file_id: self.file_id }
    }

    /// The span from `start_location` to the current character.
    fn span_from(&self, start_location: usize) -> (r: Span)
        ensures
            r.start == start_location,
            r.end == self.location,
            r.file_id == self.file_id,
    {
        Span { start: start_location, end: self.location, file_id: self.file_id }
    }

    /// Returns the token `raw` at the current character and moves over it.
    fn advance_with(&mut self, raw: RawToken) -> (token: Token)
        requires
            old(self).wf(),
        ensures
            final(self).wf(),
            final(self).source == old(self).source,
            final(self).file_id == old(self).file_id,
            final(self).index == after(old(self).source@, old(self).index as int),
            token.raw == raw,
            token.span.start == byte_offset(old(self).source@, old(self).index as int),
            token.span.end == byte_offset(old(self).source@, old(self).index as int) + 1,
            token.span.file_id == old(self).file_id,
    {
        let token = Token { raw, span: self.current_char_span() };
        self.advance();
        token
    }

    /// Returns the token `raw` at the current two characters, each one byte
    /// wide, and moves over them.
    fn advance_twice_with(&mut self, raw: RawToken) -> (token: Token)
        requires
            old(self).wf(),
            old(self).index + 2 <= old(self).source@.len(),
        ensures
            final(self).wf(),
            final(self).source == old(self).source,
            final(self).file_id == old(self).file_id,
            final(self).index == old(self).index + 2,
            token.raw == raw,
            token.span.start == byte_offset(old(self).source@, old(self).index as int),
            token.span.end == byte_offset(old(self).source@, old(self).index as int) + 2,
            token.span.file_id == old(self).file_id,
    {
        proof {
            lemma_byte_offset_grows(self.source@, self.index as int, self.index + 2);
            lemma_byte_offset_grows(self.source@, self.index + 2, self.source@.len() as int);
        }
        let token = Token {
            raw,
            span: Span { start: self.location, end: self.location + 2, file_id: self.file_id },
        };
        self.advance_twice();
        token
    }

    /// Skips whitespace characters.
    fn eat_whitespaces(&mut self)
        requires
            old(self).wf(),
        ensures
            final(self).wf(),
            final(self).source == old(self).source,
            final(self).file_id == old(self).file_id,
            final(self).index == skip_whitespace(old(self).source@, old(self).index as int),
            final(self).index >= old(self).index,
    {
        while is_whitespace(self.current())
            invariant
                self.wf(),
                self.source == old(self).source,
                self.file_id == old(self).file_id,
                self.index >= old(self).index,
                skip_whitespace(old(self).source@, old(self).index as int) == skip_whitespace(
                    self.source@,
                    self.index as int,
                ),
            decreases self.source@.len() - self.index,
        {
            self.advance();
        }
    }

    /// Moves to the end of the line.
    fn eat_line(&mut self)
        requires
            old(self).wf(),
        ensures
            final(self).wf(),
            final(self).source == old(self).source,
            final(self).file_id == old(self).file_id,
            final(self).index == line_end(old(self).source@, old(self).index as int),
            final(self).index >= old(self).index,
    {
        let mut c = self.current();
        while c != '\n' && c != '\0'
            invariant
                self.wf(),
                self.source == old(self).source,
                self.file_id == old(self).file_id,
                self.index >= old(self).index,
                c == char_at(self.source@, self.index as int),
                line_end(old(self).source@, old(self).index as int) == line_end(
                    self.source@,
                    self.index as int,
                ),
            decreases self.source@.len() - self.index,
        {
            self.advance();
            c = self.current();
        }
    }

    /// Moves over decimal digits.
    fn eat_digits(&mut self)
        requires
            old(self).wf(),
        ensures
            final(self).wf(),
            final(self).source == old(self).source,
            final(self).file_id == old(self).file_id,
            final(self).index == digits_end(old(self).source@, old(self).index as int),
            final(self).index >= old(self).index,
    {
        while decimal(self.current())
            invariant
                self.wf(),
                self.source == old(self).source,
                self.file_id == old(self).file_id,
                self.index >= old(self).index,
                digits_end(old(self).source@, old(self).index as int) == digits_end(
                    self.source@,
                    self.index as int,
                ),
            decreases self.source@.len() - self.index,
        {
            self.advance();
        }
    }

    /// Decodes the braces and digits of an escape sequence whose letter is
    /// the current character.
    fn eat_code_escape(&mut self, n: usize) -> (r: Result<char, LexError>)
        requires
            old(self).wf(),
            old(self).index < old(self).source@.len(),
            n == 2 || n == 4 || n == 8,
        ensures
            final(self).wf(),
            final(self).source == old(self).source,
            final(self).file_id == old(self).file_id,
            final(self).index > old(self).index,
            match code_escape(old(self).source@, old(self).index as int, n as int) {
                EscapeScan::Char { value, next } => final(self).index == next && r == Ok::<
                    char,
                    LexError,
                >(value),
                EscapeScan::Error { kind, at, next } => r is Err && r->Err_0.raw == kind
                    && r->Err_0.span.start == byte_offset(old(self).source@, at)
                    && r->Err_0.span.end == byte_offset(old(self).source@, at) + 1
                    && r->Err_0.span.file_id == old(self).file_id && final(self).index == next,
            },
    {
        let unicode = n != 2;
        self.advance();
        if self.current() != '{' {
            return Err(
                LexError {
                    raw: if unicode {
                        RawLexError::ExpectedOpenBracketInUnicodeEscapeSequence
                    } else {
                        RawLexError::ExpectedOpenBracketInByteEscapeSequence
                    },
                    span: self.current_char_span(),
                },
            );
        }
        self.advance();
        let ghost first = self.index as int;
        let mut code: u32 = 0;
        let mut k: usize = 0;
        while k < n
            invariant
                self.wf(),
                self.source == old(self).source,
                self.file_id == old(self).file_id,
                first == old(self).index + 2,
                char_at(self.source@, first - 1) == '{',
                unicode == (n != 2),
                n == 2 || n == 4 || n == 8,
                k <= n <= 8,
                self.index == first + k,
                hex_prefix(self.source@, first, n as int) == k + hex_prefix(
                    self.source@,
                    first + k,
                    n - k,
                ),
                code == hex_number(self.source@, first, k as int),
                code < pow16(k as int),
            decreases n - k,
        {
            let c = self.current();
            if !hexadecimal(c) {
                return Err(
                    LexError {
                        raw: if unicode {
                            RawLexError::ExpectedDigitInUnicodeEscapeSequence
                        } else {
                            RawLexError::ExpectedDigitInByteEscapeSequence
                        },
                        span: self.current_char_span(),
                    },
                );
            }
            code = code * 16 + hex_digit_value(c);
            self.advance();
            k += 1;
        }
        if self.current() != '}' {
            return Err(
                LexError {
                    raw: if unicode {
                        RawLexError::ExpectedCloseBracketInUnicodeEscapeSequence
                    } else {
                        RawLexError::ExpectedCloseBracketInByteEscapeSequence
                    },
                    span: self.current_char_span(),
                },
            );
        }
        match char_from_u32(code) {
            Some(value) => {
                self.advance();
                Ok(value)
            },
            None => {
                let span = self.current_char_span();
                self.advance();
                Err(LexError { raw: RawLexError::InvalidUnicodeEscapeSequence, span })
            },
        }
    }

    /// Decodes an escape sequence whose backslash is the current character.
    fn eat_escape(&mut self) -> (r: Result<char, LexError>)
        requires
            old(self).wf(),
            char_at(old(self).source@, old(self).index as int) == '\\',
        ensures
            final(self).wf(),
            final(self).source == old(self).source,
            final(self).file_id == old(self).file_id,
            final(self).index > old(self).index,
            match escape(old(self).source@, old(self).index as int) {
                EscapeScan::Char { value, next } => final(self).index == next && r == Ok::<
                    char,
                    LexError,
                >(value),
                EscapeScan::Error { kind, at, next } => r is Err && r->Err_0.raw == kind
                    && r->Err_0.span.start == byte_offset(old(self).source@, at)
                    && r->Err_0.span.end == byte_offset(old(self).source@, at) + 1
                    && r->Err_0.span.file_id == old(self).file_id && final(self).index == next,
            },
    {
        self.advance();
        let c = self.current();
        if c == 'b' {
            self.advance();
            Ok('\u{0008}')
        } else if c == 'f' {
            self.advance();
            Ok('\u{000C}')
        } else if c == 'n' {
            self.advance();
            Ok('\n')
        } else if c == 'r' {
            self.advance();
            Ok('\r')
        } else if c == 't' {
            self.advance();
            Ok('\t')
        } else if c == '\'' {
            self.advance();
            Ok('\'')
        } else if c == '"' {
            self.advance();
            Ok('"')
        } else if c == '\\' {
            self.advance();
            Ok('\\')
        } else if c == '\0' {
            let span = self.current_char_span();
            self.advance();
            Err(LexError { raw: RawLexError::EmptyEscapeSequence, span })
        } else if c == 'u' {
            self.eat_code_escape(4)
        } else if c == 'U' {
            self.eat_code_escape(8)
        } else if c == 'x' {
            self.eat_code_escape(2)
        } else {
            let span = self.current_char_span();
            self.advance();
            Err(LexError { raw: RawLexError::UnknownEscapeSequence, span })
        }
    }

    /// Scans a character literal whose opening quote is the current character.
    fn eat_char(&mut self) -> (token: Token)
        requires
            old(self).wf(),
            char_at(old(self).source@, old(self).index as int) == '\'',
        ensures
            final(self).follows(
                *old(self),
                scan_char(old(self).source(), old(self).position()),
                token,
                Seq::empty(),
                Seq::empty(),
            ),
            final(self).position() > old(self).position(),
    {
        let ghost open = self.index as int;
        let start_location = self.location;
        self.advance();
        let mut size: usize = 0;
        let mut scanned: char = '\0';
        loop
            invariant
                self.wf(),
                self.source == old(self).source,
                self.file_id == old(self).file_id,
                open == old(self).index,
                start_location == byte_offset(self.source@, open),
                self.index > open,
                size <= self.index - open,
                scan_char(self.source@, open) == char_rest(
                    self.source@,
                    open,
                    self.index as int,
                    size as int,
                    scanned,
                ),
            decreases self.source@.len() - self.index,
        {
            let c = self.current();
            if c == '\'' {
                self.advance();
                let span = self.span_from(start_location);
                if size == 1 {
                    return Token { raw: RawToken::CharLiteral(scanned), span };
                } else if size == 0 {
                    return Token { raw: RawToken::Error(RawLexError::EmptyCharLiteral), span };
                } else {
                    return Token {
                        raw: RawToken::Error(RawLexError::MoreThanOneCharInCharLiteral),
                        span,
                    };
                }
            }
            if c == '\n' || c == '\0' {
                return Token {
                    raw: RawToken::Error(RawLexError::UnterminatedCharLiteral),
                    span: self.span_from(start_location),
                };
            }
            if c == '\\' {
                match self.eat_escape() {
                    Ok(value) => {
                        scanned = value;
                    },
                    Err(e) => {
                        return Token { raw: RawToken::Error(e.raw), span: e.span };
                    },
                }
            } else {
                scanned = c;
                self.advance();
            }
            size = size + 1;
        }
    }

    /// Scans a string literal whose opening quote is the current character.
    fn eat_string(&mut self, interner: &mut Interner) -> (token: Token)
        requires
            old(self).wf(),
            char_at(old(self).source@, old(self).index as int) == '"',
        ensures
            final(self).follows(
                *old(self),
                scan_string(old(self).source(), old(self).position()),
                token,
                old(interner)@,
                final(interner)@,
            ),
            final(self).position() > old(self).position(),
            old(interner).wf() ==> final(interner).wf(),
    {
        let ghost open = self.index as int;
        let start_location = self.location;
        self.advance();
        let mut text = String::new();
        loop
            invariant
                self.wf(),
                self.source == old(self).source,
                self.file_id == old(self).file_id,
                *interner == *old(interner),
                open == old(self).index,
                start_location == byte_offset(self.source@, open),
                self.index > open,
                scan_string(self.source@, open) == string_rest(
                    self.source@,
                    open,
                    self.index as int,
                    text@,
                ),
            decreases self.source@.len() - self.index,
        {
            let c = self.current();
            if c == '\0' || c == '\n' {
                return Token {
                    raw: RawToken::Error(RawLexError::UnterminatedStringLiteral),
                    span: self.span_from(start_location),
                };
            }
            if c == '"' {
                self.advance();
                let symbol = interner.get_or_intern(text.as_str());
                return Token {
                    raw: RawToken::StringLiteral(symbol),
                    span: self.span_from(start_location),
                };
            }
            if c == '\\' {
                match self.eat_escape() {
                    Ok(value) => {
                        text.push(value);
                    },
                    Err(e) => {
                        return Token { raw: RawToken::Error(e.raw), span: e.span };
                    },
                }
            } else {
                text.push(c);
                self.advance();
            }
        }
    }

    /// Scans an identifier between backticks; the first backtick is the
    /// current character.
    fn eat_wrapped_id(&mut self, interner: &mut Interner) -> (token: Token)
        requires
            old(self).wf(),
            char_at(old(self).source@, old(self).index as int) == '`',
        ensures
            final(self).follows(
                *old(self),
                scan_wrapped(old(self).source(), old(self).position()),
                token,
                old(interner)@,
                final(interner)@,
            ),
            final(self).position() > old(self).position(),
            old(interner).wf() ==> final(interner).wf(),
    {
        let open = self.index;
        let start_location = self.location;
        self.advance();
        let mut c = self.current();
        while c != '\0' && (char_is_alphanumeric(c) || c == '_')
            invariant
                self.wf(),
                self.source == old(self).source,
                self.file_id == old(self).file_id,
                self.index > open,
                c == char_at(self.source@, self.index as int),
                wrapped_end(self.source@, open + 1) == wrapped_end(
                    self.source@,
                    self.index as int,
                ),
            decreases self.source@.len() - self.index,
        {
            self.advance();
            c = self.current();
        }
        if c != '`' {
            return Token {
                raw: RawToken::Error(RawLexError::UnterminatedWrappedIdentifier),
                span: self.span_from(start_location),
            };
        }
        if self.index == open + 1 {
            return Token {
                raw: RawToken::Error(RawLexError::EmptyWrappedIdentifier),
                span: self.span_from(start_location),
            };
        }
        let name = string_of(&self.source, open + 1, self.index);
        self.advance();
        let symbol = interner.get_or_intern(name.as_str());
        Token { raw: RawToken::Identifier(symbol), span: self.span_from(start_location) }
    }

    /// Scans a comment; the first of its two slashes is the current character.
    fn eat_comment(&mut self, interner: &mut Interner) -> (token: Token)
        requires
            old(self).wf(),
            char_at(old(self).source@, old(self).index as int) == '/',
            char_at(old(self).source@, old(self).index + 1) == '/',
        ensures
            final(self).follows(
                *old(self),
                scan_comment(old(self).source(), old(self).position()),
                token,
                old(interner)@,
                final(interner)@,
            ),
            final(self).position() > old(self).position(),
            old(interner).wf() ==> final(interner).wf(),
    {
        let third = self.peek(2);
        if third == '!' || third == '/' {
            return self.eat_doc_comment(third == '!', interner);
        }
        let start_location = self.location;
        self.advance_twice();
        self.eat_line();
        Token { raw: RawToken::Comment, span: self.span_from(start_location) }
    }

    /// Scans a documentation comment; the first of its three characters is
    /// the current one. With `global` it documents the module, else the item
    /// after it.
    fn eat_doc_comment(&mut self, global: bool, interner: &mut Interner) -> (token: Token)
        requires
            old(self).wf(),
            char_at(old(self).source@, old(self).index as int) == '/',
            char_at(old(self).source@, old(self).index + 1) == '/',
            char_at(old(self).source@, old(self).index + 2) == (if global {
                '!'
            } else {
                '/'
            }),
        ensures
            final(self).follows(
                *old(self),
                scan_comment(old(self).source(), old(self).position()),
                token,
                old(interner)@,
                final(interner)@,
            ),
            final(self).position() > old(self).position(),
            old(interner).wf() ==> final(interner).wf(),
    {
        let start_location = self.location;
        self.advance_twice();
        self.advance();
        let from = self.index;
        self.eat_line();
        let text = string_of(&self.source, from, self.index);
        let symbol = interner.get_or_intern(text.as_str());
        Token {
            raw: if global {
                RawToken::GlobalDocComment(symbol)
            } else {
                RawToken::LocalDocComment(symbol)
            },
            span: self.span_from(start_location),
        }
    }

    /// Scans an identifier or a reserved word that begins at the current
    /// character.
    fn eat_name(&mut self, interner: &mut Interner) -> (token: Token)
        requires
            old(self).wf(),
            char_at(old(self).source@, old(self).index as int) != '\0',
        ensures
            final(self).follows(
                *old(self),
                scan_name(old(self).source(), old(self).position()),
                token,
                old(interner)@,
                final(interner)@,
            ),
            final(self).position() > old(self).position(),
            old(interner).wf() ==> final(interner).wf(),
    {
        let from = self.index;
        let start_location = self.location;
        self.advance();
        let mut c = self.current();
        while c != '\0' && is_id_continue(c)
            invariant
                self.wf(),
                self.source == old(self).source,
                self.file_id == old(self).file_id,
                self.index > from,
                c == char_at(self.source@, self.index as int),
                name_end(self.source@, from + 1) == name_end(self.source@, self.index as int),
            decreases self.source@.len() - self.index,
        {
            self.advance();
            c = self.current();
        }
        match Keyword::lookup(&self.source, from, self.index) {
            Some(reserved) => Token {
                raw: RawToken::Keyword(reserved),
                span: self.span_from(start_location),
            },
            None => {
                let name = string_of(&self.source, from, self.index);
                let symbol = interner.get_or_intern(name.as_str());
                Token { raw: RawToken::Identifier(symbol), span: self.span_from(start_location) }
            },
        }
    }

    /// Scans a number that begins at the current character.
    fn eat_number(&mut self, interner: &mut Interner) -> (token: Token)
        requires
            old(self).wf(),
            decimal_digit(char_at(old(self).source@, old(self).index as int)) || (char_at(
                old(self).source@,
                old(self).index as int,
            ) == '.' && decimal_digit(char_at(old(self).source@, old(self).index + 1))),
        ensures
            final(self).follows(
                *old(self),
                scan_number(old(self).source(), old(self).position()),
                token,
                old(interner)@,
                final(interner)@,
            ),
            final(self).position() > old(self).position(),
            old(interner).wf() ==> final(interner).wf(),
    {
        let from = self.index;
        let start_location = self.location;
        let mut value: u64 = 0;
        let mut fits = true;
        let mut c = self.current();
        while decimal(c)
            invariant
                self.wf(),
                self.source == old(self).source,
                self.file_id == old(self).file_id,
                self.index >= from,
                from == old(self).index,
                c == char_at(self.source@, self.index as int),
                digits_end(self.source@, from as int) == digits_end(
                    self.source@,
                    self.index as int,
                ),
                0 <= decimal_value(self.source@, from as int, self.index as int),
                fits ==> value == decimal_value(self.source@, from as int, self.index as int),
                !fits ==> decimal_value(self.source@, from as int, self.index as int) > u64::MAX,
            decreases self.source@.len() - self.index,
        {
            let digit: u64 = (c as u32 - 0x30) as u64;
            if fits {
                match value.checked_mul(10) {
                    Some(tens) => match tens.checked_add(digit) {
                        Some(sum) => {
                            value = sum;
                        },
                        None => {
                            fits = false;
                        },
                    },
                    None => {
                        fits = false;
                    },
                }
            }
            self.advance();
            c = self.current();
        }
        let whole = self.index;
        if c == '.' && decimal(self.peek(1)) {
            self.advance();
            self.eat_digits();
        }
        let mark = self.current();
        if mark == 'e' || mark == 'E' {
            let sign = self.peek(1);
            if decimal(sign) {
                self.advance();
                self.eat_digits();
            } else if (sign == '+' || sign == '-') && decimal(self.peek(2)) {
                self.advance_twice();
                self.eat_digits();
            }
        }
        let end = self.index;
        if self.current() == 'i' {
            let text = string_of(&self.source, from, end);
            self.advance();
            let symbol = interner.get_or_intern(text.as_str());
            Token { raw: RawToken::ImaginaryLiteral(symbol), span: self.span_from(start_location) }
        } else if end > whole {
            let text = string_of(&self.source, from, end);
            let symbol = interner.get_or_intern(text.as_str());
            Token { raw: RawToken::FloatLiteral(symbol), span: self.span_from(start_location) }
        } else if fits {
            Token { raw: RawToken::IntegerLiteral(value), span: self.span_from(start_location) }
        } else {
            Token {
                raw: RawToken::Error(RawLexError::NumberParseError),
                span: self.span_from(start_location),
            }
        }
    }

    /// Works as [`Lexer::next_token`], but skips plain comments.
    pub fn next_no_comments(&mut self, interner: &mut Interner) -> (token: Token)
        requires
            old(self).wf(),
        ensures
            final(self).follows(
                *old(self),
                scan_no_comments(old(self).source(), old(self).position()),
                token,
                old(interner)@,
                final(interner)@,
            ),
            token.raw != RawToken::Comment,
            token.raw != RawToken::EndOfFile ==> final(self).position() > old(self).position(),
            old(interner).wf() ==> final(interner).wf(),
    {
        loop
            invariant
                self.wf(),
                self.source@ == old(self).source@,
                self.file_id == old(self).file_id,
                self.index >= old(self).index,
                interner@ == old(interner)@,
                old(interner).wf() ==> interner.wf(),
                scan_no_comments(old(self).source@, old(self).index as int) == scan_no_comments(
                    self.source@,
                    self.index as int,
                ),
            decreases self.source@.len() - self.index,
        {
            let token = self.next_token(interner);
            if token.raw != RawToken::Comment {
                return token;
            }
        }
    }

    /// Skips whitespace, scans the token that follows and returns it.
    ///
    /// Text that is no token is returned as an error token, and scanning
    /// goes on after it. At the end of the source every call returns the
    /// token for the end of the file, one byte wide.
    pub fn next_token(&mut self, interner: &mut Interner) -> (token: Token)
        requires
            old(self).wf(),
        ensures
            final(self).follows(
                *old(self),
                scan(old(self).source(), old(self).position()),
                token,
                old(interner)@,
                final(interner)@,
            ),
            token.raw != RawToken::EndOfFile ==> final(self).position() > old(self).position(),
            old(interner).wf() ==> final(interner).wf(),
    {
        self.eat_whitespaces();
        let c = self.current();
        let n = self.peek(1);
        if unlikely(c == '\0') {
            return Token { raw: RawToken::EndOfFile, span: self.current_char_span() };
        }
        if c == '"' {
            return self.eat_string(interner);
        }
        if c == '\'' {
            return self.eat_char();
        }
        if c == '`' {
            return self.eat_wrapped_id(interner);
        }
        if c == '/' && n == '/' {
            return self.eat_comment(interner);
        }
        match punctuator(c, n) {
            Some((p, two)) => {
                if two {
                    self.advance_twice_with(RawToken::Punctuator(p))
                } else {
                    self.advance_with(RawToken::Punctuator(p))
                }
            },
            None => {
                if decimal(c) || (c == '.' && decimal(n)) {
                    self.eat_number(interner)
                } else if is_id_start(c) {
                    self.eat_name(interner)
                } else if c == '.' {
                    self.advance_with(RawToken::Punctuator(Punctuator::Dot))
                } else {
                    self.advance_with(RawToken::Error(RawLexError::UnexpectedChar))
                }
            },
        }
    }
}

/// Whether the tokens `tokens` are those of the source `s`: the last of
/// them, and no other, is the end of the file, one byte wide, where scanning
/// stopped at the end of the source or at a character U+0000.
pub open spec fn ends_with_end_of_file(
    tokens: Seq<Token>,
    s: Seq<char>,
    file_id: usize,
    stop: int,
) -> bool {
    &&& tokens.len() >= 1
    &&& tokens[tokens.len() - 1].raw == RawToken::EndOfFile
    &&& forall|k: int| 0 <= k < tokens.len() - 1 ==> (
        #[trigger] tokens[k]
    ).raw != RawToken::EndOfFile
    &&& 0 <= stop <= s.len()
    &&& char_at(s, stop) == '\0'
    &&& tokens[tokens.len() - 1].span.start == byte_offset(s, stop)
    &&& tokens[tokens.len() - 1].span.end == tokens[tokens.len() - 1].span.start + 1
    &&& tokens[tokens.len() - 1].span.file_id == file_id
}

/// Scans the whole of `source` and returns its tokens, plain comments left
/// out. Scanning ends: the last token, and no other, is the end of the
/// file. It is one byte wide and begins where scanning stopped, which is
/// the end of the source or a character U+0000.
pub fn tokenize(file_id: usize, source: &str, interner: &mut Interner) -> (tokens: Vec<Token>)
    requires
        utf8_len(source@) < usize::MAX,
    ensures
        tokens@ == tokens_of(source@, file_id, old(interner)@).tokens,
        final(interner)@ == tokens_of(source@, file_id, old(interner)@).names,
        old(interner).wf() ==> final(interner).wf(),
        ends_with_end_of_file(
            tokens@,
            source@,
            file_id,
            tokens_of(source@, file_id, old(interner)@).stop,
        ),
{
    let mut lexer = Lexer::new(file_id, source);
    let mut tokens: Vec<Token> = Vec::new();
    loop
        invariant
            lexer.wf(),
            lexer.source() == source@,
            lexer.file() == file_id,
            old(interner).wf() ==> interner.wf(),
            forall|k: int| 0 <= k < tokens.len() ==> (
                #[trigger] tokens[k]
            ).raw != RawToken::EndOfFile,
            tokens_of(source@, file_id, old(interner)@) == tokens_from(
                source@,
                file_id,
                lexer.position(),
                interner@,
                tokens@,
            ),
        decreases source@.len() - lexer.position(),
    {
        let ghost before = lexer.position();
        let token = lexer.next_no_comments(interner);
        tokens.push(token);
        if token.raw == RawToken::EndOfFile {
            proof {
                lemma_end_of_file(source@, before);
            }
            return tokens;
        }
    }
}

/// Whether the UTF-8 encoding of `source` is shorter than the largest
/// machine word, so that every byte offset in it can be a span's end.
pub fn fits(source: &str) -> (r: bool)
    ensures
        r == (utf8_len(source@) < usize::MAX),
{
    Lexer::try_new(0, source).is_some()
}

/// Scans the whole of `source` as [`tokenize`] does, if the source is short
/// enough for its byte offsets; else returns nothing and leaves `interner`
/// as it is.
pub fn try_tokenize(file_id: usize, source: &str, interner: &mut Interner) -> (r: Option<
    Vec<Token>,
>)
    ensures
        match r {
            Some(tokens) => utf8_len(source@) < usize::MAX && tokens@ == tokens_of(
                source@,
                file_id,
                old(interner)@,
            ).tokens && final(interner)@ == tokens_of(source@, file_id, old(interner)@).names
                && ends_with_end_of_file(
                tokens@,
                source@,
                file_id,
                tokens_of(source@, file_id, old(interner)@).stop,
            ),
            None => utf8_len(source@) >= usize::MAX && *final(interner) == *old(interner),
        },
        old(interner).wf() ==> final(interner).wf(),
{
    if fits(source) {
        Some(tokenize(file_id, source, interner))
    } else {
        None
    }
}

/// Where scanning meets the end of the file, it stands at a character
/// U+0000 or at the end of the source, and the token is one byte wide.
pub proof fn lemma_end_of_file(s: Seq<char>, i: int)
    requires
        0 <= i <= s.len(),
        scan_no_comments(s, i).lexeme is EndOfFile,
    ensures
        char_at(s, scan_no_comments(s, i).next) == '\0',
        scan_no_comments(s, i).start == byte_offset(s, scan_no_comments(s, i).next),
        scan_no_comments(s, i).end == scan_no_comments(s, i).start + 1,
    decreases s.len() - i,
{
    let sc = scan(s, i);
    if sc.lexeme is Comment && i < sc.next <= s.len() {
        lemma_end_of_file(s, sc.next);
    } else {
        lemma_scan_kinds(s, skip_whitespace(s, i));
    }
}

/// The end of the file is met only at a character U+0000 or at the end of
/// the source.
pub proof fn lemma_scan_kinds(s: Seq<char>, i: int)
    ensures
        scan_at(s, i).lexeme is EndOfFile ==> char_at(s, i) == '\0' && scan_at(s, i).next == i
            && scan_at(s, i).start == byte_offset(s, i) && scan_at(s, i).end == byte_offset(s, i)
            + 1,
{
    lemma_string_rest_kind(s, i, i + 1, Seq::empty());
    lemma_char_rest_kind(s, i, i + 1, 0, '\0');
}

/// A string literal never scans as the end of the file.
pub proof fn lemma_string_rest_kind(s: Seq<char>, open: int, i: int, text: Seq<char>)
    ensures
        !(string_rest(s, open, i, text).lexeme is EndOfFile),
    decreases s.len() - i,
{
    let c = char_at(s, i);
    if c == '\0' || c == '\n' || i < 0 {
    } else if c == '"' {
    } else if c == '\\' {
        match escape(s, i) {
            EscapeScan::Char { value, next } => {
                lemma_string_rest_kind(s, open, next, text.push(value));
            },
            EscapeScan::Error { .. } => {},
        }
    } else {
        lemma_string_rest_kind(s, open, i + 1, text.push(c));
    }
}

/// A character literal never scans as the end of the file.
pub proof fn lemma_char_rest_kind(s: Seq<char>, open: int, i: int, count: int, last: char)
    ensures
        !(char_rest(s, open, i, count, last).lexeme is EndOfFile),
    decreases s.len() - i,
{
    let c = char_at(s, i);
    if c == '\'' {
    } else if c == '\0' || c == '\n' || i < 0 {
    } else if c == '\\' {
        match escape(s, i) {
            EscapeScan::Char { value, next } => {
                lemma_char_rest_kind(s, open, next, count + 1, value);
            },
            EscapeScan::Error { .. } => {},
        }
    } else {
        lemma_char_rest_kind(s, open, i + 1, count + 1, c);
    }
}

} // verus!
