//! The state of the parser: the tokens, a position in them and the
//! diagnostics reported so far.

use crate::ast::{IdentifierAst, Path};
use crate::diagnostics::{Expected, Node, ParseDiagnostic};
use crate::grammar::cursor::{
    identifier_at, list_step, list_step_end, path_at, path_rest, punctuator_at, Cursor, Input,
    ListStep, Parsed,
};
use crate::interner::Interner;
use crate::grammar::outcome::read_path;
use crate::model::lemma_path_model;
use crate::span::Span;
use crate::token::{Punctuator, RawToken, Token};
use vstd::prelude::*;

verus! {

/// The state of the parser over the tokens of one source.
///
/// The parser looks one token ahead: [`ParseState::next_token`] is the token
/// that will be consumed next and [`ParseState::current_token`] the one
/// consumed last. The end of the file is never consumed.
pub struct ParseState<'a> {
    /// The tokens of the source.
    tokens: &'a Vec<Token>,
    /// The texts of the symbols in the tokens.
    interner: &'a Interner,
    /// The index of the next token.
    pos: usize,
    /// The diagnostics reported so far.
    diagnostics: Vec<ParseDiagnostic>,
}

impl<'a> View for ParseState<'a> {
    type V = Cursor;

    closed spec fn view(&self) -> Cursor {
        Cursor { pos: self.pos as int, diagnostics: self.diagnostics@ }
    }
}

impl<'a> ParseState<'a> {
    /// What the parser reads.
    pub closed spec fn input(&self) -> Input {
        Input { tokens: self.tokens@, names: self.interner@ }
    }

    /// The position is not beyond the tokens.
    pub open spec fn wf(&self) -> bool {
        0 <= self@.pos <= self.input().tokens.len()
    }

    /// The state came from `pre` by the reading `p`: the input is the same,
    /// and the position and the diagnostics are those at the end of `p`.
    pub open spec fn follows<T>(&self, pre: ParseState<'a>, p: Parsed<T>) -> bool {
        &&& self.wf()
        &&& self.input() == pre.input()
        &&& self@ == pre@.after(p)
    }

    /// The state came from `pre` and stands at `c`.
    pub open spec fn stands_at(&self, pre: ParseState<'a>, c: Cursor) -> bool {
        &&& self.wf()
        &&& self.input() == pre.input()
        &&& self@ == c
    }

    /// A state at the first of `tokens`, with no diagnostics.
    pub fn new(tokens: &'a Vec<Token>, interner: &'a Interner) -> (r: ParseState<'a>)
        ensures
            r.wf(),
            r.input() == (Input { tokens: tokens@, names: interner@ }),
            r@ == (Cursor { pos: 0, diagnostics: Seq::empty() }),
    {
        ParseState { tokens, interner, pos: 0, diagnostics: Vec::new() }
    }

    /// The index of the next token.
    pub fn position(&self) -> (r: usize)
        ensures
            r == self@.pos,
    {
        self.pos
    }

    /// The diagnostics reported so far, oldest first.
    pub fn diagnostics(&self) -> (r: &Vec<ParseDiagnostic>)
        ensures
            r@ == self@.diagnostics,
    {
        &self.diagnostics
    }

    /// Ends the parsing and returns the diagnostics, oldest first.
    pub fn into_diagnostics(self) -> (r: Vec<ParseDiagnostic>)
        ensures
            r@ == self@.diagnostics,
    {
        self.diagnostics
    }

    /// The token `k` places after the next one.
    pub fn peek_at(&self, k: usize) -> (r: Token)
        requires
            self.wf(),
        ensures
            r == self.input().peek_at(self@, k as int),
    {
        if k < self.tokens.len() - self.pos {
            self.tokens[self.pos + k]
        } else {
            Token { raw: RawToken::EndOfFile, span: Span::dummy() }
        }
    }

    /// The token that will be consumed next.
    pub fn next_token(&self) -> (r: Token)
        requires
            self.wf(),
        ensures
            r == self.input().peek(self@),
    {
        self.peek_at(0)
    }

    /// The token that was consumed last.
    pub fn current_token(&self) -> (r: Token)
        requires
            self.wf(),
        ensures
            r == self.input().previous(self@),
    {
        if self.pos >= 1 {
            self.tokens[self.pos - 1]
        } else {
            Token { raw: RawToken::EndOfFile, span: Span::dummy() }
        }
    }

    /// The text of a symbol; the empty text for a symbol that stands for none.
    pub fn resolve(&self, symbol: usize) -> (r: String)
        ensures
            r@ == self.input().text(symbol),
    {
        match self.interner.resolve(symbol) {
            Some(text) => text.to_owned(),
            None => String::new(),
        }
    }

    /// Whether the next token is the punctuator `p`.
    pub fn at(&self, p: Punctuator) -> (r: bool)
        requires
            self.wf(),
        ensures
            r == self.input().at(self@, p),
    {
        self.next_token().raw == RawToken::Punctuator(p)
    }

    /// Consumes the next token, unless it is the end of the file.
    pub fn advance(&mut self)
        requires
            old(self).wf(),
        ensures
            final(self).stands_at(*old(self), old(self)@.bump(old(self).input())),
    {
        let count = self.tokens.len();
        if self.next_token().raw != RawToken::EndOfFile {
            assert(self.pos < count);
            self.pos = self.pos + 1;
        }
    }

    /// Reports `d`.
    pub fn report(&mut self, d: ParseDiagnostic)
        requires
            old(self).wf(),
        ensures
            final(self).stands_at(*old(self), old(self)@.report(d)),
    {
        self.diagnostics.push(d);
    }

    /// Reports the next token as unexpected.
    pub fn unexpected(&mut self, expected: Expected, node: Node)
        requires
            old(self).wf(),
        ensures
            final(self).stands_at(
                *old(self),
                old(self)@.unexpected(old(self).input(), expected, node),
            ),
    {
        let got = self.next_token();
        self.report(ParseDiagnostic { got, expected, node });
    }

    /// The span from the start of `start` to the end of the token that was
    /// consumed last.
    pub fn span_from(&self, start: Span) -> (r: Span)
        requires
            self.wf(),
        ensures
            r == self.input().span_from(start, self@),
    {
        Span { start: start.start, end: self.current_token().span.end, file_id: start.file_id }
    }

    /// Consumes the punctuator `p`, or reports the next token where it is
    /// another.
    pub fn consume(&mut self, p: Punctuator, node: Node) -> (r: Option<()>)
        requires
            old(self).wf(),
        ensures
            final(self).follows(*old(self), punctuator_at(old(self).input(), old(self)@, p, node)),
            r == punctuator_at(old(self).input(), old(self)@, p, node).value,
    {
        if self.at(p) {
            self.advance();
            Some(())
        } else {
            self.unexpected(Expected::Punctuator(p), node);
            None
        }
    }

    /// Consumes an identifier, or reports the next token where it is none.
    pub fn consume_identifier(&mut self, node: Node) -> (r: Option<IdentifierAst>)
        requires
            old(self).wf(),
        ensures
            final(self).follows(*old(self), identifier_at(old(self).input(), old(self)@, node)),
            r == identifier_at(old(self).input(), old(self)@, node).value,
    {
        let token = self.next_token();
        match token.raw {
            RawToken::Identifier(symbol) => {
                self.advance();
                Some(IdentifierAst { span: token.span, symbol })
            },
            _ => {
                self.unexpected(Expected::Identifier, node);
                None
            },
        }
    }

    /// The number of tokens up to the first that is `closer` or `other`, if
    /// one of them comes before the end of the file.
    fn distance_to(&self, closer: RawToken, other: RawToken) -> (r: Option<usize>)
        requires
            self.wf(),
        ensures
            match r {
                Some(d) => self.input().distance_to(self@, closer, other) == Some(d as int)
                    && self@.pos + d < self.input().tokens.len(),
                None => self.input().distance_to(self@, closer, other) is None,
            },
    {
        let mut d: usize = 0;
        let ghost inp = self.input();
        let ghost here = self@;
        while d < self.tokens.len() - self.pos
            invariant
                self.wf(),
                inp == self.input(),
                here == self@,
                d <= self.tokens@.len() - self.pos,
                match inp.distance_to(here.skip(d as int), closer, other) {
                    Some(k) => inp.distance_to(here, closer, other) == Some(k + d),
                    None => inp.distance_to(here, closer, other) is None,
                },
            decreases self.tokens@.len() - self.pos - d,
        {
            let raw = self.tokens[self.pos + d].raw;
            if raw == RawToken::EndOfFile {
                return None;
            }
            if raw == closer || raw == other {
                return Some(d);
            }
            assert(here.skip(d as int).skip(1) == here.skip(d + 1));
            d = d + 1;
        }
        None
    }

    /// Takes the step of a list after one of its elements: consumes the
    /// comma where there is one; where another token stands in place of the
    /// closing token, reports it and skips to the next closing token if
    /// there is one.
    pub fn list_step(&mut self, closer: RawToken, other: RawToken, node: Node) -> (r: ListStep)
        requires
            old(self).wf(),
        ensures
            r == list_step(old(self).input(), old(self)@, closer, other),
            final(self).stands_at(
                *old(self),
                list_step_end(old(self).input(), old(self)@, closer, other, node),
            ),
            final(self)@.pos >= old(self)@.pos,
            r == ListStep::Next ==> final(self)@.pos > old(self)@.pos,
    {
        let raw = self.next_token().raw;
        if raw == RawToken::Punctuator(Punctuator::Comma) {
            let after_comma = self.peek_at(1).raw;
            self.advance();
            if after_comma == closer || after_comma == other {
                ListStep::End { trailing_comma: true }
            } else {
                ListStep::Next
            }
        } else if raw == closer || raw == other {
            ListStep::End { trailing_comma: false }
        } else {
            let expected = match closer {
                RawToken::Punctuator(p) => if other == closer {
                    Expected::ClosingOrComma(p)
                } else {
                    Expected::BodyOrComma
                },
                _ => Expected::BodyOrComma,
            };
            match self.distance_to(closer, other) {
                Some(distance) => {
                    self.unexpected(expected, node);
                    let count = self.tokens.len();
                    assert(self.pos + distance < count);
                    self.pos = self.pos + distance;
                    ListStep::End { trailing_comma: false }
                },
                None => {
                    self.unexpected(expected, node);
                    ListStep::Abandon
                },
            }
        }
    }
}

/// Reads a path: identifiers separated by `.`, at least one.
#[verifier::loop_isolation(false)]
pub fn parse_path<'a>(state: &mut ParseState<'a>, node: Node) -> (r: Option<Path>)
    requires
        old(state).wf(),
    ensures
        final(state).follows(*old(state), path_at(old(state).input(), old(state)@, node)),
        read_path(r) == path_at(old(state).input(), old(state)@, node).value,
        final(state)@.pos >= old(state)@.pos,
        r is Some ==> final(state)@.pos > old(state)@.pos,
{
    let ghost inp = state.input();
    let ghost c = state@;
    let first = state.consume_identifier(node)?;
    let ghost c1 = state@;
    let mut identifiers: Vec<IdentifierAst> = Vec::new();
    identifiers.push(first);
    while state.at(Punctuator::Dot)
        invariant
            state.stands_at(*old(state), state@),
            state@.pos >= c1.pos,
            c1.onward(state@, path_rest(inp, state@, identifiers@)) == path_rest(
                inp,
                c1,
                seq![first],
            ),
        decreases inp.tokens.len() - state@.pos,
    {
        let ghost here = state@;
        state.advance();
        match state.consume_identifier(Node::Path) {
            Some(identifier) => {
                identifiers.push(identifier);
            },
            None => {
                return None;
            },
        }
    }
    let span = state.span_from(first.span);
    let path = Path { span, identifiers };
    proof {
        lemma_path_model(path);
    }
    Some(path)
}

} // verus!
