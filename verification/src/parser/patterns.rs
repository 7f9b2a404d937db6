//! Reading literals and patterns.

use crate::ast::{Literal, Pattern, StructFieldPattern};
use crate::diagnostics::{Expected, Node};
use crate::grammar::cursor::ListStep;
use crate::grammar::outcome::{
    read_literal, read_pattern, read_pattern_list, read_struct_field_pattern,
    read_struct_field_pattern_list,
};
use crate::grammar::patterns::{
    is_literal, lemma_list_pattern_at, lemma_literal_at, lemma_named_pattern_at, lemma_pattern_at,
    lemma_pattern_list_at, lemma_pattern_list_rest, lemma_primary_pattern_at,
    lemma_struct_field_pattern_at, lemma_struct_field_pattern_list_at,
    lemma_struct_field_pattern_list_rest, lemma_tuple_pattern_at, list_pattern_at, literal_at,
    named_pattern_at, pattern_at, pattern_list_at, pattern_list_rest, primary_pattern_at,
    struct_field_pattern_at, struct_field_pattern_list_at, struct_field_pattern_list_rest,
    tuple_pattern_at,
};
use crate::model::{
    lemma_literal_model, lemma_path_model, lemma_pattern_model, lemma_patterns_model_at,
    lemma_patterns_model_empty, lemma_patterns_model_len, lemma_patterns_model_push,
    lemma_struct_field_pattern_model, lemma_struct_field_patterns_model_empty,
    lemma_struct_field_patterns_model_push, patterns_model, struct_field_patterns_model,
};
use crate::parser::state::{parse_path, ParseState};
use crate::token::{Keyword, Punctuator, RawToken};
use vstd::prelude::*;

verus! {

/// Whether a token is a literal.
pub fn is_literal_token(raw: RawToken) -> (r: bool)
    ensures
        r == is_literal(raw),
{
    match raw {
        RawToken::IntegerLiteral(_)
        | RawToken::FloatLiteral(_)
        | RawToken::StringLiteral(_)
        | RawToken::CharLiteral(_)
        | RawToken::Keyword(Keyword::True)
        | RawToken::Keyword(Keyword::False) => true,
        _ => false,
    }
}

/// Reads a literal. A token that is no literal is not consumed.
pub fn parse_literal<'a>(state: &mut ParseState<'a>) -> (r: Option<Literal>)
    requires
        old(state).wf(),
    ensures
        final(state).follows(*old(state), literal_at(old(state).input(), old(state)@)),
        read_literal(r) == literal_at(old(state).input(), old(state)@).value,
{
    proof {
        lemma_literal_at(state.input(), state@);
    }
    let token = state.next_token();
    let span = token.span;
    let literal = match token.raw {
        RawToken::IntegerLiteral(value) => Literal::Integer { value, span },
        RawToken::FloatLiteral(symbol) => Literal::Float { value: state.resolve(symbol), span },
        RawToken::StringLiteral(symbol) => Literal::String { value: state.resolve(symbol), span },
        RawToken::CharLiteral(value) => Literal::Character { value, span },
        RawToken::Keyword(Keyword::True) => Literal::Boolean { value: true, span },
        RawToken::Keyword(Keyword::False) => Literal::Boolean { value: false, span },
        _ => {
            return None;
        },
    };
    proof {
        lemma_literal_model(literal);
    }
    state.advance();
    Some(literal)
}

/// Reads the patterns of a list that follow those in `before`, up to
/// the closing token `closer`, which is not consumed. Returns them all and
/// whether a comma stands after the last.
#[verifier::loop_isolation(false)]
pub fn parse_pattern_list_rest<'a>(
    state: &mut ParseState<'a>,
    closer: Punctuator,
    node: Node,
    before: Vec<Pattern>,
) -> (r: Option<(Vec<Pattern>, bool)>)
    requires
        old(state).wf(),
    ensures
        final(state).follows(
            *old(state),
            pattern_list_rest(
                old(state).input(),
                old(state)@,
                closer,
                node,
                patterns_model(before@),
            ),
        ),
        read_pattern_list(r) == pattern_list_rest(
            old(state).input(),
            old(state)@,
            closer,
            node,
            patterns_model(before@),
        ).value,
    decreases (old(state).input().tokens.len() - old(state)@.pos) * 64 + 26,
{
    let ghost inp = state.input();
    let ghost c = state@;
    proof {
        lemma_pattern_list_rest(inp, c, closer, node, patterns_model(before@));
    }
    let mut items = before;
    let end = RawToken::Punctuator(closer);
    loop
        invariant
            state.stands_at(*old(state), state@),
            state@.pos >= c.pos,
            c.onward(
                state@,
                pattern_list_rest(inp, state@, closer, node, patterns_model(items@)),
            ) == pattern_list_rest(inp, c, closer, node, patterns_model(before@)),
        decreases inp.tokens.len() - state@.pos,
    {
        proof {
            lemma_pattern_list_rest(inp, state@, closer, node, patterns_model(items@));
        }
        let ghost prior = items@;
        let element = parse_pattern(state)?;
        items.push(element);
        proof {
            lemma_patterns_model_push(prior, element);
        }
        match state.list_step(end, end, node) {
            ListStep::Next => {},
            ListStep::End { trailing_comma } => {
                return Some((items, trailing_comma));
            },
            ListStep::Abandon => {
                return None;
            },
        }
    }
}

/// Reads a list of patterns up to the closing token `closer`, which is
/// not consumed. Returns them and whether a comma stands after the last.
pub fn parse_pattern_list<'a>(
    state: &mut ParseState<'a>,
    closer: Punctuator,
    node: Node,
) -> (r: Option<(Vec<Pattern>, bool)>)
    requires
        old(state).wf(),
    ensures
        final(state).follows(
            *old(state),
            pattern_list_at(old(state).input(), old(state)@, closer, node),
        ),
        read_pattern_list(r) == pattern_list_at(
            old(state).input(),
            old(state)@,
            closer,
            node,
        ).value,
    decreases (old(state).input().tokens.len() - old(state)@.pos) * 64 + 27,
{
    proof {
        lemma_pattern_list_at(state.input(), state@, closer, node);
        lemma_patterns_model_empty();
    }
    let items: Vec<Pattern> = Vec::new();
    if state.at(closer) {
        return Some((items, false));
    }
    parse_pattern_list_rest(state, closer, node, items)
}

/// Reads one entry of a struct pattern.
pub fn parse_struct_field_pattern<'a>(state: &mut ParseState<'a>) -> (r: Option<StructFieldPattern>)
    requires
        old(state).wf(),
    ensures
        final(state).follows(*old(state), struct_field_pattern_at(old(state).input(), old(state)@)),
        read_struct_field_pattern(r) == struct_field_pattern_at(
            old(state).input(),
            old(state)@,
        ).value,
    decreases (old(state).input().tokens.len() - old(state)@.pos) * 64 + 25,
{
    proof {
        lemma_struct_field_pattern_at(state.input(), state@);
    }
    if state.at(Punctuator::DotDot) {
        let span = state.next_token().span;
        state.advance();
        let rest = StructFieldPattern::Rest { span };
        proof {
            lemma_struct_field_pattern_model(rest);
        }
        return Some(rest);
    }
    let field_name = state.consume_identifier(Node::StructPattern)?;
    let field = if state.at(Punctuator::Colon) {
        state.advance();
        let value = parse_pattern(state)?;
        StructFieldPattern::NotRest {
            span: state.span_from(field_name.span),
            field_name,
            value_pattern: Some(value),
        }
    } else {
        StructFieldPattern::NotRest { span: field_name.span, field_name, value_pattern: None }
    };
    proof {
        lemma_struct_field_pattern_model(field);
    }
    Some(field)
}

/// Reads the entries of a struct pattern of a list that follow those in `before`, up to
/// the closing token `closer`, which is not consumed. Returns them all and
/// whether a comma stands after the last.
#[verifier::loop_isolation(false)]
pub fn parse_struct_field_pattern_list_rest<'a>(
    state: &mut ParseState<'a>,
    closer: Punctuator,
    node: Node,
    before: Vec<StructFieldPattern>,
) -> (r: Option<(Vec<StructFieldPattern>, bool)>)
    requires
        old(state).wf(),
    ensures
        final(state).follows(
            *old(state),
            struct_field_pattern_list_rest(
                old(state).input(),
                old(state)@,
                closer,
                node,
                struct_field_patterns_model(before@),
            ),
        ),
        read_struct_field_pattern_list(r) == struct_field_pattern_list_rest(
            old(state).input(),
            old(state)@,
            closer,
            node,
            struct_field_patterns_model(before@),
        ).value,
    decreases (old(state).input().tokens.len() - old(state)@.pos) * 64 + 26,
{
    let ghost inp = state.input();
    let ghost c = state@;
    proof {
        lemma_struct_field_pattern_list_rest(
            inp,
            c,
            closer,
            node,
            struct_field_patterns_model(before@),
        );
    }
    let mut items = before;
    let end = RawToken::Punctuator(closer);
    loop
        invariant
            state.stands_at(*old(state), state@),
            state@.pos >= c.pos,
            c.onward(
                state@,
                struct_field_pattern_list_rest(
                    inp,
                    state@,
                    closer,
                    node,
                    struct_field_patterns_model(items@),
                ),
            ) == struct_field_pattern_list_rest(
                inp,
                c,
                closer,
                node,
                struct_field_patterns_model(before@),
            ),
        decreases inp.tokens.len() - state@.pos,
    {
        proof {
            lemma_struct_field_pattern_list_rest(
                inp,
                state@,
                closer,
                node,
                struct_field_patterns_model(items@),
            );
        }
        let ghost prior = items@;
        let element = parse_struct_field_pattern(state)?;
        items.push(element);
        proof {
            lemma_struct_field_patterns_model_push(prior, element);
        }
        match state.list_step(end, end, node) {
            ListStep::Next => {},
            ListStep::End { trailing_comma } => {
                return Some((items, trailing_comma));
            },
            ListStep::Abandon => {
                return None;
            },
        }
    }
}

/// Reads a list of entries of a struct pattern up to the closing token `closer`, which is
/// not consumed. Returns them and whether a comma stands after the last.
pub fn parse_struct_field_pattern_list<'a>(
    state: &mut ParseState<'a>,
    closer: Punctuator,
    node: Node,
) -> (r: Option<(Vec<StructFieldPattern>, bool)>)
    requires
        old(state).wf(),
    ensures
        final(state).follows(
            *old(state),
            struct_field_pattern_list_at(old(state).input(), old(state)@, closer, node),
        ),
        read_struct_field_pattern_list(r) == struct_field_pattern_list_at(
            old(state).input(),
            old(state)@,
            closer,
            node,
        ).value,
    decreases (old(state).input().tokens.len() - old(state)@.pos) * 64 + 27,
{
    proof {
        lemma_struct_field_pattern_list_at(state.input(), state@, closer, node);
        lemma_struct_field_patterns_model_empty();
    }
    let items: Vec<StructFieldPattern> = Vec::new();
    if state.at(closer) {
        return Some((items, false));
    }
    parse_struct_field_pattern_list_rest(state, closer, node, items)
}

/// Reads a pattern that begins with a name. The next token must be an
/// identifier.
pub fn parse_named_pattern<'a>(state: &mut ParseState<'a>) -> (r: Option<Pattern>)
    requires
        old(state).wf(),
    ensures
        final(state).follows(*old(state), named_pattern_at(old(state).input(), old(state)@)),
        read_pattern(r) == named_pattern_at(old(state).input(), old(state)@).value,
    decreases (old(state).input().tokens.len() - old(state)@.pos) * 64 + 22,
{
    proof {
        lemma_named_pattern_at(state.input(), state@);
    }
    let path = parse_path(state, Node::Pattern)?;
    proof {
        lemma_path_model(path);
    }
    let pattern = if state.at(Punctuator::OpenBrace) {
        state.advance();
        let (fields, _) = parse_struct_field_pattern_list(
            state,
            Punctuator::CloseBrace,
            Node::StructPattern,
        )?;
        state.advance();
        Pattern::Struct { span: state.span_from(path.span), path, fields }
    } else if state.at(Punctuator::OpenParent) {
        state.advance();
        let (inner_patterns, _) = parse_pattern_list(
            state,
            Punctuator::CloseParent,
            Node::TupleLikePattern,
        )?;
        state.advance();
        Pattern::TupleLike { span: state.span_from(path.span), path, inner_patterns }
    } else if path.identifiers.len() != 1 {
        Pattern::Path { span: path.span, path }
    } else if state.at(Punctuator::At) {
        state.advance();
        let pattern = parse_pattern(state)?;
        Pattern::Identifier {
            span: state.span_from(path.span),
            identifier: path.identifiers[0],
            pattern: Some(Box::new(pattern)),
        }
    } else {
        Pattern::Identifier { span: path.span, identifier: path.identifiers[0], pattern: None }
    };
    proof {
        lemma_pattern_model(pattern);
    }
    Some(pattern)
}

/// Reads a list pattern. The next token must be `[`.
pub fn parse_list_pattern<'a>(state: &mut ParseState<'a>) -> (r: Option<Pattern>)
    requires
        old(state).wf(),
    ensures
        final(state).follows(*old(state), list_pattern_at(old(state).input(), old(state)@)),
        read_pattern(r) == list_pattern_at(old(state).input(), old(state)@).value,
    decreases (old(state).input().tokens.len() - old(state)@.pos) * 64 + 22,
{
    proof {
        lemma_list_pattern_at(state.input(), state@);
    }
    if !state.at(Punctuator::OpenBracket) {
        return None;
    }
    let start = state.next_token().span;
    state.advance();
    let (inner_patterns, _) = parse_pattern_list(
        state,
        Punctuator::CloseBracket,
        Node::ListPattern,
    )?;
    state.advance();
    let pattern = Pattern::List { span: state.span_from(start), inner_patterns };
    proof {
        lemma_pattern_model(pattern);
    }
    Some(pattern)
}

/// Reads a pattern in parentheses or a tuple pattern. The next token must
/// be `(`.
pub fn parse_tuple_pattern<'a>(state: &mut ParseState<'a>) -> (r: Option<Pattern>)
    requires
        old(state).wf(),
    ensures
        final(state).follows(*old(state), tuple_pattern_at(old(state).input(), old(state)@)),
        read_pattern(r) == tuple_pattern_at(old(state).input(), old(state)@).value,
    decreases (old(state).input().tokens.len() - old(state)@.pos) * 64 + 22,
{
    proof {
        lemma_tuple_pattern_at(state.input(), state@);
    }
    if !state.at(Punctuator::OpenParent) {
        return None;
    }
    let start = state.next_token().span;
    state.advance();
    let (mut elements, trailing_comma) = parse_pattern_list(
        state,
        Punctuator::CloseParent,
        Node::TuplePattern,
    )?;
    state.advance();
    let span = state.span_from(start);
    proof {
        lemma_patterns_model_len(elements@);
    }
    if elements.len() == 1 && !trailing_comma {
        proof {
            lemma_patterns_model_at(elements@, 0);
        }
        match elements.pop() {
            Some(inner) => {
                let pattern = Pattern::Grouped { span, inner: Box::new(inner) };
                proof {
                    lemma_pattern_model(pattern);
                }
                Some(pattern)
            },
            None => None,
        }
    } else {
        let pattern = Pattern::Tuple { span, elements };
        proof {
            lemma_pattern_model(pattern);
        }
        Some(pattern)
    }
}

/// Reads a pattern without `|`.
pub fn parse_primary_pattern<'a>(state: &mut ParseState<'a>) -> (r: Option<Pattern>)
    requires
        old(state).wf(),
    ensures
        final(state).follows(*old(state), primary_pattern_at(old(state).input(), old(state)@)),
        read_pattern(r) == primary_pattern_at(old(state).input(), old(state)@).value,
    decreases (old(state).input().tokens.len() - old(state)@.pos) * 64 + 23,
{
    proof {
        lemma_primary_pattern_at(state.input(), state@);
    }
    let token = state.next_token();
    if is_literal_token(token.raw) {
        let literal = parse_literal(state)?;
        let pattern = Pattern::Literal(literal);
        proof {
            lemma_pattern_model(pattern);
        }
        return Some(pattern);
    }
    match token.raw {
        RawToken::Identifier(_) => parse_named_pattern(state),
        RawToken::Punctuator(Punctuator::OpenBracket) => parse_list_pattern(state),
        RawToken::Punctuator(Punctuator::OpenParent) => parse_tuple_pattern(state),
        RawToken::Punctuator(Punctuator::DotDot) => {
            state.advance();
            let pattern = Pattern::Rest { span: token.span };
            proof {
                lemma_pattern_model(pattern);
            }
            Some(pattern)
        },
        _ => {
            state.unexpected(Expected::Pattern, Node::Pattern);
            None
        },
    }
}

/// Reads a pattern.
pub fn parse_pattern<'a>(state: &mut ParseState<'a>) -> (r: Option<Pattern>)
    requires
        old(state).wf(),
    ensures
        final(state).follows(*old(state), pattern_at(old(state).input(), old(state)@)),
        read_pattern(r) == pattern_at(old(state).input(), old(state)@).value,
    decreases (old(state).input().tokens.len() - old(state)@.pos) * 64 + 24,
{
    proof {
        lemma_pattern_at(state.input(), state@);
    }
    let left = parse_primary_pattern(state)?;
    if !state.at(Punctuator::Or) {
        return Some(left);
    }
    state.advance();
    let right = parse_pattern(state)?;
    let start = left.span();
    let pattern = Pattern::Or {
        span: state.span_from(start),
        left: Box::new(left),
        right: Box::new(right),
    };
    proof {
        lemma_pattern_model(pattern);
    }
    Some(pattern)
}

} // verus!
