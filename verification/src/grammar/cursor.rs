//! Positions in the sequence of tokens and the outcome of reading at one.

use crate::ast::IdentifierAst;
use crate::diagnostics::{Expected, Node, ParseDiagnostic};
use crate::model::PathModel;
use crate::span::Span;
use crate::token::{Punctuator, RawToken, Token};
use vstd::prelude::*;

verus! {

/// What the parser reads: the tokens of one source and the texts that the
/// symbols in them stand for.
pub struct Input {
    /// The tokens, in order.
    pub tokens: Seq<Token>,
    /// The text of each symbol.
    pub names: Seq<Seq<char>>,
}

/// Where the parser stands: the index of the next token and the diagnostics
/// reported so far.
pub struct Cursor {
    /// The index of the next token.
    pub pos: int,
    /// The diagnostics reported so far, oldest first.
    pub diagnostics: Seq<ParseDiagnostic>,
}

/// The outcome of reading one part of the grammar from a cursor: the value
/// read, or nothing where the tokens do not fit; the number of tokens that
/// were consumed; and the diagnostics reported up to the end of the reading.
pub struct Parsed<T> {
    /// The value that was read, if the tokens fit.
    pub value: Option<T>,
    /// The number of tokens consumed; never negative.
    pub consumed: int,
    /// All diagnostics reported so far, oldest first.
    pub diagnostics: Seq<ParseDiagnostic>,
}

impl Input {
    /// The next token at `c`. Beyond the last token stands the end of the
    /// file, at the span of a synthesized node.
    pub open spec fn peek(self, c: Cursor) -> Token {
        if 0 <= c.pos < self.tokens.len() {
            self.tokens[c.pos]
        } else {
            Token { raw: RawToken::EndOfFile, span: Span::spec_dummy() }
        }
    }

    /// The number of tokens from `c` to the end of the sequence.
    pub open spec fn remaining(self, c: Cursor) -> int {
        if c.pos <= self.tokens.len() {
            self.tokens.len() - c.pos
        } else {
            0
        }
    }

    /// The token `k` places after the next one at `c`.
    pub open spec fn peek_at(self, c: Cursor, k: int) -> Token {
        self.peek(Cursor { pos: c.pos + k, diagnostics: c.diagnostics })
    }

    /// The token consumed last before `c`. Before the first token stands
    /// the end of the file, at the span of a synthesized node.
    pub open spec fn previous(self, c: Cursor) -> Token {
        if 1 <= c.pos <= self.tokens.len() {
            self.tokens[c.pos - 1]
        } else {
            Token { raw: RawToken::EndOfFile, span: Span::spec_dummy() }
        }
    }

    /// The span from the start of `start` to the end of the token consumed
    /// last before `c`.
    pub open spec fn span_from(self, start: Span, c: Cursor) -> Span {
        Span { start: start.start, end: self.previous(c).span.end, file_id: start.file_id }
    }

    /// Whether the next token at `c` is the punctuator `p`.
    pub open spec fn at(self, c: Cursor, p: Punctuator) -> bool {
        self.peek(c).raw == RawToken::Punctuator(p)
    }

    /// The text of a symbol; the empty text for a symbol that stands for none.
    pub open spec fn text(self, symbol: usize) -> Seq<char> {
        if symbol < self.names.len() {
            self.names[symbol as int]
        } else {
            Seq::empty()
        }
    }

    /// The number of tokens from `c` up to the first that is `closer` or
    /// `other`, if one of them comes before the end of the file.
    pub open spec fn distance_to(self, c: Cursor, closer: RawToken, other: RawToken) -> Option<int>
        decreases self.remaining(c),
    {
        let raw = self.peek(c).raw;
        if raw == RawToken::EndOfFile || c.pos < 0 || c.pos >= self.tokens.len() {
            None
        } else if raw == closer || raw == other {
            Some(0)
        } else {
            match self.distance_to(c.skip(1), closer, other) {
                Some(d) => Some(d + 1),
                None => None,
            }
        }
    }
}

impl Cursor {
    /// The cursor after the next token was consumed. The end of the file is
    /// never consumed.
    pub open spec fn bump(self, inp: Input) -> Cursor {
        if inp.peek(self).raw != RawToken::EndOfFile {
            Cursor { pos: self.pos + 1, diagnostics: self.diagnostics }
        } else {
            self
        }
    }

    /// The cursor `n` tokens further, for `n` that is not negative.
    pub open spec fn skip(self, n: int) -> Cursor {
        Cursor { pos: if n > 0 { self.pos + n } else { self.pos }, diagnostics: self.diagnostics }
    }

    /// The cursor after `d` was reported.
    pub open spec fn report(self, d: ParseDiagnostic) -> Cursor {
        Cursor { pos: self.pos, diagnostics: self.diagnostics.push(d) }
    }

    /// The cursor after the next token was reported as unexpected.
    pub open spec fn unexpected(self, inp: Input, expected: Expected, node: Node) -> Cursor {
        self.report(ParseDiagnostic { got: inp.peek(self), expected, node })
    }

    /// The cursor at the end of a reading that began here.
    pub open spec fn after<T>(self, p: Parsed<T>) -> Cursor {
        Cursor { pos: self.skip(p.consumed).pos, diagnostics: p.diagnostics }
    }

    /// The outcome of a reading that began here, ended at `end` and gave `value`.
    pub open spec fn done<T>(self, end: Cursor, value: T) -> Parsed<T> {
        Parsed { value: Some(value), consumed: end.pos - self.pos, diagnostics: end.diagnostics }
    }

    /// The outcome of a reading that began here and failed at `end`.
    pub open spec fn fail<T>(self, end: Cursor) -> Parsed<T> {
        Parsed { value: None, consumed: end.pos - self.pos, diagnostics: end.diagnostics }
    }

    /// The outcome of a reading that began here, went on to `mid` and ended
    /// as the reading `p` from there did.
    pub open spec fn onward<T>(self, mid: Cursor, p: Parsed<T>) -> Parsed<T> {
        Parsed {
            value: p.value,
            consumed: mid.after(p).pos - self.pos,
            diagnostics: p.diagnostics,
        }
    }
}

impl<T> Parsed<T> {
    /// Whether the tokens fit.
    pub open spec fn ok(self) -> bool {
        self.value is Some
    }
}

/// The elements of a list and whether a comma stands after the last of them.
pub struct Elements<T> {
    /// The elements, in order.
    pub items: Seq<T>,
    /// Whether a comma follows the last element.
    pub trailing_comma: bool,
}

/// How a list goes on after one of its elements.
#[derive(Debug, Clone, Copy, PartialEq, Eq, Structural)]
pub enum ListStep {
    /// With another element.
    Next,
    /// It ends, after a comma or not.
    End { trailing_comma: bool },
    /// It cannot be read to its end.
    Abandon,
}

/// What the token is called in a diagnostic where `closer`, `other` or a
/// comma would have been accepted.
pub open spec fn expected_in_list(closer: RawToken, other: RawToken) -> Expected {
    match closer {
        RawToken::Punctuator(p) => if other == closer {
            Expected::ClosingOrComma(p)
        } else {
            Expected::BodyOrComma
        },
        _ => Expected::BodyOrComma,
    }
}

/// How a list whose closing token is `closer` or `other` goes on after an
/// element that ended at `c`.
///
/// After a comma it goes on with the next element, unless the closing token
/// follows the comma. At the closing token it ends. At any other token it
/// ends too if a closing token stands before the end of the file, and
/// cannot be read to its end if none does.
pub open spec fn list_step(inp: Input, c: Cursor, closer: RawToken, other: RawToken) -> ListStep {
    let raw = inp.peek(c).raw;
    let after_comma = inp.peek_at(c, 1).raw;
    if raw == RawToken::Punctuator(Punctuator::Comma) {
        if after_comma == closer || after_comma == other {
            ListStep::End { trailing_comma: true }
        } else {
            ListStep::Next
        }
    } else if raw == closer || raw == other {
        ListStep::End { trailing_comma: false }
    } else if inp.distance_to(c, closer, other) is Some {
        ListStep::End { trailing_comma: false }
    } else {
        ListStep::Abandon
    }
}

/// Where the cursor stands after the step of a list from `c`: after the
/// comma where there is one; at the closing token where the list ends; and
/// at `c` when the list is abandoned. A token that is neither a comma nor a
/// closing token is reported.
pub open spec fn list_step_end(
    inp: Input,
    c: Cursor,
    closer: RawToken,
    other: RawToken,
    node: Node,
) -> Cursor {
    let raw = inp.peek(c).raw;
    if raw == RawToken::Punctuator(Punctuator::Comma) {
        c.bump(inp)
    } else if raw == closer || raw == other {
        c
    } else {
        let reported = c.unexpected(inp, expected_in_list(closer, other), node);
        match inp.distance_to(c, closer, other) {
            Some(distance) => reported.skip(distance),
            None => reported,
        }
    }
}

/// Reading the punctuator `p`: it is consumed where it is the next token,
/// else the next token is reported as unexpected.
pub open spec fn punctuator_at(inp: Input, c: Cursor, p: Punctuator, node: Node) -> Parsed<()> {
    if inp.at(c, p) {
        c.done(c.bump(inp), ())
    } else {
        c.fail(c.unexpected(inp, Expected::Punctuator(p), node))
    }
}

/// Reading a name: an identifier is consumed where it is the next token,
/// else the next token is reported as unexpected.
pub open spec fn identifier_at(inp: Input, c: Cursor, node: Node) -> Parsed<IdentifierAst> {
    match inp.peek(c).raw {
        RawToken::Identifier(symbol) => c.done(
            c.bump(inp),
            IdentifierAst { span: inp.peek(c).span, symbol },
        ),
        _ => c.fail(c.unexpected(inp, Expected::Identifier, node)),
    }
}

/// The rest of a path after the identifiers `before`, the last of which
/// ends at `c`: as long as `.` and an identifier follow, they belong to it.
pub open spec fn path_rest(inp: Input, c: Cursor, before: Seq<IdentifierAst>) -> Parsed<
    Seq<IdentifierAst>,
>
    decreases inp.remaining(c),
{
    if inp.at(c, Punctuator::Dot) && 0 <= c.pos < inp.tokens.len() {
        let c1 = c.bump(inp);
        let name = identifier_at(inp, c1, Node::Path);
        let c2 = c1.after(name);
        match name.value {
            Some(identifier) => c.onward(c2, path_rest(inp, c2, before.push(identifier))),
            None => c.fail(c2),
        }
    } else {
        c.done(c, before)
    }
}

/// Reading a path: identifiers separated by `.`, at least one.
pub open spec fn path_at(inp: Input, c: Cursor, node: Node) -> Parsed<PathModel> {
    let first = identifier_at(inp, c, node);
    let c1 = c.after(first);
    match first.value {
        Some(identifier) => {
            let rest = path_rest(inp, c1, seq![identifier]);
            let c2 = c1.after(rest);
            match rest.value {
                Some(identifiers) => c.done(
                    c2,
                    PathModel { span: inp.span_from(identifier.span, c2), identifiers },
                ),
                None => c.fail(c2),
            }
        },
        None => c.fail(c1),
    }
}

} // verus!
