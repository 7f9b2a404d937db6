//! Reading expressions and statements.

use crate::ast::{
    Expression, IdentifierAst, LambdaFunctionParameter, MatchExpressionItem, Pattern, Statement,
    StructExpressionItem, Type,
};
use crate::diagnostics::{Expected, Node};
use crate::grammar::cursor::ListStep;
use crate::grammar::expressions::{
    binary_at, block_at, block_expression_at, block_rest, call_at, condition_block_at, continues,
    expression_at, expression_list_at, expression_list_rest, expression_statement_at, if_at,
    if_rest, infix_rest, infix_step_at, is_postfix_operator, is_prefix_operator, jump_statement_at,
    keyword_statement_at, lambda_at, lambda_body_at, lambda_function_parameter_at,
    lambda_function_parameter_list_at, lambda_function_parameter_list_rest, lemma_binary_at,
    lemma_block_at, lemma_block_expression_at, lemma_block_rest, lemma_call_at,
    lemma_condition_block_at, lemma_expression_at, lemma_expression_list_at,
    lemma_expression_list_rest, lemma_expression_statement_at, lemma_if_at, lemma_if_rest,
    lemma_infix_rest, lemma_infix_step_at, lemma_jump_statement_at, lemma_keyword_statement_at,
    lemma_lambda_at, lemma_lambda_body_at, lemma_lambda_function_parameter_at,
    lemma_lambda_function_parameter_list_at, lemma_lambda_function_parameter_list_rest,
    lemma_let_statement_at, lemma_let_value_at, lemma_list_expression_at, lemma_match_at,
    lemma_match_block_at, lemma_match_expression_item_at, lemma_match_expression_item_list_at,
    lemma_match_expression_item_list_rest, lemma_parenthesized_expression_at, lemma_prefix_at,
    lemma_prefix_operation_at, lemma_statement_at, lemma_statement_end, lemma_struct_expression_at,
    lemma_struct_expression_item_at, lemma_struct_expression_item_list_at,
    lemma_struct_expression_item_list_rest, lemma_suffix_at, lemma_while_at, let_statement_at,
    let_value_at, list_expression_at, match_at, match_block_at, match_expression_item_at,
    match_expression_item_list_at, match_expression_item_list_rest, parenthesized_expression_at,
    prefix_at, prefix_operation_at, recover_statement, statement_at, statement_end,
    struct_expression_at, struct_expression_item_at, struct_expression_item_list_at,
    struct_expression_item_list_rest, suffix_at, while_at,
};
use crate::grammar::outcome::{
    read_condition_block, read_expression, read_expression_list, read_lambda_function_parameter,
    read_lambda_function_parameter_list, read_match_expression_item,
    read_match_expression_item_list, read_statement, read_statements, read_struct_expression_item,
    read_struct_expression_item_list, read_type,
};
use crate::model::{
    expression_model, expressions_model, if_blocks_model, lambda_function_parameters_model,
    lemma_expression_model, lemma_expressions_model_at, lemma_expressions_model_empty,
    lemma_expressions_model_len, lemma_expressions_model_push, lemma_if_blocks_model_empty,
    lemma_if_blocks_model_push, lemma_lambda_function_parameter_model,
    lemma_lambda_function_parameters_model_empty, lemma_lambda_function_parameters_model_push,
    lemma_match_expression_item_model, lemma_match_expression_items_model_empty,
    lemma_match_expression_items_model_push, lemma_statement_model, lemma_statements_model_empty,
    lemma_statements_model_push, lemma_struct_expression_item_model,
    lemma_struct_expression_items_model_empty, lemma_struct_expression_items_model_push,
    match_expression_items_model, pattern_model, statements_model, struct_expression_items_model,
};
use crate::operator::{
    infix_operator, lemma_infix_is_binary, BinaryOperator, PostfixOperator, Precedence,
    PrefixOperator, RawBinaryOperator, RawPostfixOperator, RawPrefixOperator,
};
use crate::parser::patterns::{is_literal_token, parse_literal, parse_pattern};
use crate::parser::state::ParseState;
use crate::parser::types::{parse_generic_arguments, parse_type};
use crate::span::Span;
use crate::token::{Keyword, Punctuator, RawToken};
use vstd::prelude::*;

verus! {

/// Whether a token is an operator that stands before its operand.
pub fn is_prefix_operator_token(raw: RawToken) -> (r: bool)
    ensures
        r == is_prefix_operator(raw),
{
    RawPrefixOperator::from_token(raw).is_some()
}

/// Whether a token is an operator that stands after its operand.
pub fn is_postfix_operator_token(raw: RawToken) -> (r: bool)
    ensures
        r == is_postfix_operator(raw),
{
    RawPostfixOperator::from_token(raw).is_some()
}

/// Whether a token is an operator that stands between two operands.
pub fn is_infix_operator_token(raw: RawToken) -> (r: bool)
    ensures
        r == infix_operator(raw),
{
    let level = raw.to_precedence().level();
    Precedence::Assign.level() <= level && level <= Precedence::Power.level()
}

/// Whether the expression goes on at the next token when only what binds
/// more tightly than `min` may follow.
pub fn expression_continues<'a>(state: &ParseState<'a>, min: u8, allow_struct: bool) -> (r: bool)
    requires
        state.wf(),
    ensures
        r == continues(state.input(), state@, min as int, allow_struct),
{
    let raw = state.next_token().raw;
    raw != RawToken::EndOfFile && min < raw.to_precedence().level() && (allow_struct || raw
        != RawToken::Punctuator(Punctuator::OpenBrace))
}

/// Skips the tokens of a statement that could not be read: all up to and
/// with the next `;`, or up to the next `}` or the end of the file if that
/// comes before.
#[verifier::loop_isolation(false)]
pub fn skip_statement<'a>(state: &mut ParseState<'a>)
    requires
        old(state).wf(),
    ensures
        final(state).stands_at(
            *old(state),
            old(state)@.skip(statement_end(old(state).input(), old(state)@) - old(state)@.pos),
        ),
        final(state)@.pos >= old(state)@.pos,
{
    let ghost inp = state.input();
    let ghost c = state@;
    loop
        invariant
            state.stands_at(*old(state), state@),
            state@.pos >= c.pos,
            state@.diagnostics == c.diagnostics,
            statement_end(inp, state@) == statement_end(inp, c),
        decreases inp.tokens.len() - state@.pos,
    {
        proof {
            lemma_statement_end(inp, state@);
        }
        let raw = state.next_token().raw;
        if raw == RawToken::EndOfFile || raw == RawToken::Punctuator(Punctuator::CloseBrace) {
            return ;
        }
        state.advance();
        if raw == RawToken::Punctuator(Punctuator::Semicolon) {
            return ;
        }
    }
}

/// Goes on after a statement that began at position `start` could not be
/// read: skips at least one token, and then all up to the end of the
/// statement.
pub fn recover_from_statement<'a>(state: &mut ParseState<'a>, start: usize)
    requires
        old(state).wf(),
    ensures
        final(state).stands_at(
            *old(state),
            recover_statement(old(state).input(), start as int, old(state)@),
        ),
        final(state)@.pos >= old(state)@.pos,
{
    if state.position() <= start {
        state.advance();
    }
    skip_statement(state);
}


/// Reads the expressions of a list that follow those in `before`, up to
/// the closing token `closer`, which is not consumed. Returns them all and
/// whether a comma stands after the last.
#[verifier::loop_isolation(false)]
pub fn parse_expression_list_rest<'a>(
    state: &mut ParseState<'a>,
    closer: Punctuator,
    node: Node,
    before: Vec<Expression>,
) -> (r: Option<(Vec<Expression>, bool)>)
    requires
        old(state).wf(),
    ensures
        final(state).follows(
            *old(state),
            expression_list_rest(
                old(state).input(),
                old(state)@,
                closer,
                node,
                expressions_model(before@),
            ),
        ),
        read_expression_list(r) == expression_list_rest(
            old(state).input(),
            old(state)@,
            closer,
            node,
            expressions_model(before@),
        ).value,
    decreases (old(state).input().tokens.len() - old(state)@.pos) * 64 + 32,
{
    let ghost inp = state.input();
    let ghost c = state@;
    proof {
        lemma_expression_list_rest(inp, c, closer, node, expressions_model(before@));
    }
    let mut items = before;
    let end = RawToken::Punctuator(closer);
    loop
        invariant
            state.stands_at(*old(state), state@),
            state@.pos >= c.pos,
            c.onward(
                state@,
                expression_list_rest(inp, state@, closer, node, expressions_model(items@)),
            ) == expression_list_rest(inp, c, closer, node, expressions_model(before@)),
        decreases inp.tokens.len() - state@.pos,
    {
        proof {
            lemma_expression_list_rest(inp, state@, closer, node, expressions_model(items@));
        }
        let ghost prior = items@;
        let element = parse_expression(state, 0, true)?;
        items.push(element);
        proof {
            lemma_expressions_model_push(prior, element);
        }
        match state.list_step(end, end, node) {
            ListStep::Next => {},
            ListStep::End { trailing_comma } => {
                return Some((items, trailing_comma));
            },
            ListStep::Abandon => {
                return None;
            },
        }
    }
}

/// Reads a list of expressions up to the closing token `closer`, which is
/// not consumed. Returns them and whether a comma stands after the last.
pub fn parse_expression_list<'a>(
    state: &mut ParseState<'a>,
    closer: Punctuator,
    node: Node,
) -> (r: Option<(Vec<Expression>, bool)>)
    requires
        old(state).wf(),
    ensures
        final(state).follows(
            *old(state),
            expression_list_at(old(state).input(), old(state)@, closer, node),
        ),
        read_expression_list(r) == expression_list_at(
            old(state).input(),
            old(state)@,
            closer,
            node,
        ).value,
    decreases (old(state).input().tokens.len() - old(state)@.pos) * 64 + 33,
{
    proof {
        lemma_expression_list_at(state.input(), state@, closer, node);
        lemma_expressions_model_empty();
    }
    let items: Vec<Expression> = Vec::new();
    if state.at(closer) {
        return Some((items, false));
    }
    parse_expression_list_rest(state, closer, node, items)
}

/// Reads one field of a struct expression.
pub fn parse_struct_expression_item<'a>(
    state: &mut ParseState<'a>
) -> (r: Option<StructExpressionItem>)
    requires
        old(state).wf(),
    ensures
        final(state).follows(
            *old(state),
            struct_expression_item_at(old(state).input(), old(state)@),
        ),
        read_struct_expression_item(r) == struct_expression_item_at(
            old(state).input(),
            old(state)@,
        ).value,
    decreases (old(state).input().tokens.len() - old(state)@.pos) * 64 + 31,
{
    proof {
        lemma_struct_expression_item_at(state.input(), state@);
    }
    let name = state.consume_identifier(Node::StructExpression)?;
    let value = if state.at(Punctuator::Colon) {
        state.advance();
        Some(parse_expression(state, 0, true)?)
    } else {
        None
    };
    let item = StructExpressionItem { name, value };
    proof {
        lemma_struct_expression_item_model(item);
    }
    Some(item)
}

/// Reads the fields of a struct expression of a list that follow those in `before`, up to
/// the closing token `closer`, which is not consumed. Returns them all and
/// whether a comma stands after the last.
#[verifier::loop_isolation(false)]
pub fn parse_struct_expression_item_list_rest<'a>(
    state: &mut ParseState<'a>,
    closer: Punctuator,
    node: Node,
    before: Vec<StructExpressionItem>,
) -> (r: Option<(Vec<StructExpressionItem>, bool)>)
    requires
        old(state).wf(),
    ensures
        final(state).follows(
            *old(state),
            struct_expression_item_list_rest(
                old(state).input(),
                old(state)@,
                closer,
                node,
                struct_expression_items_model(before@),
            ),
        ),
        read_struct_expression_item_list(r) == struct_expression_item_list_rest(
            old(state).input(),
            old(state)@,
            closer,
            node,
            struct_expression_items_model(before@),
        ).value,
    decreases (old(state).input().tokens.len() - old(state)@.pos) * 64 + 32,
{
    let ghost inp = state.input();
    let ghost c = state@;
    proof {
        lemma_struct_expression_item_list_rest(
            inp,
            c,
            closer,
            node,
            struct_expression_items_model(before@),
        );
    }
    let mut items = before;
    let end = RawToken::Punctuator(closer);
    loop
        invariant
            state.stands_at(*old(state), state@),
            state@.pos >= c.pos,
            c.onward(
                state@,
                struct_expression_item_list_rest(
                    inp,
                    state@,
                    closer,
                    node,
                    struct_expression_items_model(items@),
                ),
            ) == struct_expression_item_list_rest(
                inp,
                c,
                closer,
                node,
                struct_expression_items_model(before@),
            ),
        decreases inp.tokens.len() - state@.pos,
    {
        proof {
            lemma_struct_expression_item_list_rest(
                inp,
                state@,
                closer,
                node,
                struct_expression_items_model(items@),
            );
        }
        let ghost prior = items@;
        let element = parse_struct_expression_item(state)?;
        items.push(element);
        proof {
            lemma_struct_expression_items_model_push(prior, element);
        }
        match state.list_step(end, end, node) {
            ListStep::Next => {},
            ListStep::End { trailing_comma } => {
                return Some((items, trailing_comma));
            },
            ListStep::Abandon => {
                return None;
            },
        }
    }
}

/// Reads a list of fields of a struct expression up to the closing token `closer`, which is
/// not consumed. Returns them and whether a comma stands after the last.
pub fn parse_struct_expression_item_list<'a>(
    state: &mut ParseState<'a>,
    closer: Punctuator,
    node: Node,
) -> (r: Option<(Vec<StructExpressionItem>, bool)>)
    requires
        old(state).wf(),
    ensures
        final(state).follows(
            *old(state),
            struct_expression_item_list_at(old(state).input(), old(state)@, closer, node),
        ),
        read_struct_expression_item_list(r) == struct_expression_item_list_at(
            old(state).input(),
            old(state)@,
            closer,
            node,
        ).value,
    decreases (old(state).input().tokens.len() - old(state)@.pos) * 64 + 33,
{
    proof {
        lemma_struct_expression_item_list_at(state.input(), state@, closer, node);
        lemma_struct_expression_items_model_empty();
    }
    let items: Vec<StructExpressionItem> = Vec::new();
    if state.at(closer) {
        return Some((items, false));
    }
    parse_struct_expression_item_list_rest(state, closer, node, items)
}

/// Reads one arm of a `match`.
pub fn parse_match_expression_item<'a>(
    state: &mut ParseState<'a>
) -> (r: Option<MatchExpressionItem>)
    requires
        old(state).wf(),
    ensures
        final(state).follows(
            *old(state),
            match_expression_item_at(old(state).input(), old(state)@),
        ),
        read_match_expression_item(r) == match_expression_item_at(
            old(state).input(),
            old(state)@,
        ).value,
    decreases (old(state).input().tokens.len() - old(state)@.pos) * 64 + 31,
{
    proof {
        lemma_match_expression_item_at(state.input(), state@);
    }
    let left = parse_pattern(state)?;
    state.consume(Punctuator::Arrow, Node::MatchExpression)?;
    let right = parse_expression(state, 0, true)?;
    let item = MatchExpressionItem { left, right };
    proof {
        lemma_match_expression_item_model(item);
    }
    Some(item)
}

/// Reads the arms of a `match` of a list that follow those in `before`, up to
/// the closing token `closer`, which is not consumed. Returns them all and
/// whether a comma stands after the last.
#[verifier::loop_isolation(false)]
pub fn parse_match_expression_item_list_rest<'a>(
    state: &mut ParseState<'a>,
    closer: Punctuator,
    node: Node,
    before: Vec<MatchExpressionItem>,
) -> (r: Option<(Vec<MatchExpressionItem>, bool)>)
    requires
        old(state).wf(),
    ensures
        final(state).follows(
            *old(state),
            match_expression_item_list_rest(
                old(state).input(),
                old(state)@,
                closer,
                node,
                match_expression_items_model(before@),
            ),
        ),
        read_match_expression_item_list(r) == match_expression_item_list_rest(
            old(state).input(),
            old(state)@,
            closer,
            node,
            match_expression_items_model(before@),
        ).value,
    decreases (old(state).input().tokens.len() - old(state)@.pos) * 64 + 32,
{
    let ghost inp = state.input();
    let ghost c = state@;
    proof {
        lemma_match_expression_item_list_rest(
            inp,
            c,
            closer,
            node,
            match_expression_items_model(before@),
        );
    }
    let mut items = before;
    let end = RawToken::Punctuator(closer);
    loop
        invariant
            state.stands_at(*old(state), state@),
            state@.pos >= c.pos,
            c.onward(
                state@,
                match_expression_item_list_rest(
                    inp,
                    state@,
                    closer,
                    node,
                    match_expression_items_model(items@),
                ),
            ) == match_expression_item_list_rest(
                inp,
                c,
                closer,
                node,
                match_expression_items_model(before@),
            ),
        decreases inp.tokens.len() - state@.pos,
    {
        proof {
            lemma_match_expression_item_list_rest(
                inp,
                state@,
                closer,
                node,
                match_expression_items_model(items@),
            );
        }
        let ghost prior = items@;
        let element = parse_match_expression_item(state)?;
        items.push(element);
        proof {
            lemma_match_expression_items_model_push(prior, element);
        }
        match state.list_step(end, end, node) {
            ListStep::Next => {},
            ListStep::End { trailing_comma } => {
                return Some((items, trailing_comma));
            },
            ListStep::Abandon => {
                return None;
            },
        }
    }
}

/// Reads a list of arms of a `match` up to the closing token `closer`, which is
/// not consumed. Returns them and whether a comma stands after the last.
pub fn parse_match_expression_item_list<'a>(
    state: &mut ParseState<'a>,
    closer: Punctuator,
    node: Node,
) -> (r: Option<(Vec<MatchExpressionItem>, bool)>)
    requires
        old(state).wf(),
    ensures
        final(state).follows(
            *old(state),
            match_expression_item_list_at(old(state).input(), old(state)@, closer, node),
        ),
        read_match_expression_item_list(r) == match_expression_item_list_at(
            old(state).input(),
            old(state)@,
            closer,
            node,
        ).value,
    decreases (old(state).input().tokens.len() - old(state)@.pos) * 64 + 33,
{
    proof {
        lemma_match_expression_item_list_at(state.input(), state@, closer, node);
        lemma_match_expression_items_model_empty();
    }
    let items: Vec<MatchExpressionItem> = Vec::new();
    if state.at(closer) {
        return Some((items, false));
    }
    parse_match_expression_item_list_rest(state, closer, node, items)
}

/// Reads one parameter of a lambda.
pub fn parse_lambda_function_parameter<'a>(
    state: &mut ParseState<'a>
) -> (r: Option<LambdaFunctionParameter>)
    requires
        old(state).wf(),
    ensures
        final(state).follows(
            *old(state),
            lambda_function_parameter_at(old(state).input(), old(state)@),
        ),
        read_lambda_function_parameter(r) == lambda_function_parameter_at(
            old(state).input(),
            old(state)@,
        ).value,
{
    proof {
        lemma_lambda_function_parameter_at(state.input(), state@);
    }
    let name = state.consume_identifier(Node::Lambda)?;
    let ty = if state.at(Punctuator::Colon) {
        state.advance();
        Some(parse_type(state)?)
    } else {
        None
    };
    let parameter = LambdaFunctionParameter { name, ty };
    proof {
        lemma_lambda_function_parameter_model(parameter);
    }
    Some(parameter)
}

/// Reads the parameters of a lambda of a list that follow those in `before`, up to
/// the closing token `closer`, which is not consumed. Returns them all and
/// whether a comma stands after the last.
#[verifier::loop_isolation(false)]
pub fn parse_lambda_function_parameter_list_rest<'a>(
    state: &mut ParseState<'a>,
    closer: Punctuator,
    node: Node,
    before: Vec<LambdaFunctionParameter>,
) -> (r: Option<(Vec<LambdaFunctionParameter>, bool)>)
    requires
        old(state).wf(),
    ensures
        final(state).follows(
            *old(state),
            lambda_function_parameter_list_rest(
                old(state).input(),
                old(state)@,
                closer,
                node,
                lambda_function_parameters_model(before@),
            ),
        ),
        read_lambda_function_parameter_list(r) == lambda_function_parameter_list_rest(
            old(state).input(),
            old(state)@,
            closer,
            node,
            lambda_function_parameters_model(before@),
        ).value,
{
    let ghost inp = state.input();
    let ghost c = state@;
    proof {
        lemma_lambda_function_parameter_list_rest(
            inp,
            c,
            closer,
            node,
            lambda_function_parameters_model(before@),
        );
    }
    let mut items = before;
    let end = RawToken::Punctuator(closer);
    loop
        invariant
            state.stands_at(*old(state), state@),
            state@.pos >= c.pos,
            c.onward(
                state@,
                lambda_function_parameter_list_rest(
                    inp,
                    state@,
                    closer,
                    node,
                    lambda_function_parameters_model(items@),
                ),
            ) == lambda_function_parameter_list_rest(
                inp,
                c,
                closer,
                node,
                lambda_function_parameters_model(before@),
            ),
        decreases inp.tokens.len() - state@.pos,
    {
        proof {
            lemma_lambda_function_parameter_list_rest(
                inp,
                state@,
                closer,
                node,
                lambda_function_parameters_model(items@),
            );
        }
        let ghost prior = items@;
        let element = parse_lambda_function_parameter(state)?;
        items.push(element);
        proof {
            lemma_lambda_function_parameters_model_push(prior, element);
        }
        match state.list_step(end, end, node) {
            ListStep::Next => {},
            ListStep::End { trailing_comma } => {
                return Some((items, trailing_comma));
            },
            ListStep::Abandon => {
                return None;
            },
        }
    }
}

/// Reads a list of parameters of a lambda up to the closing token `closer`, which is
/// not consumed. Returns them and whether a comma stands after the last.
pub fn parse_lambda_function_parameter_list<'a>(
    state: &mut ParseState<'a>,
    closer: Punctuator,
    node: Node,
) -> (r: Option<(Vec<LambdaFunctionParameter>, bool)>)
    requires
        old(state).wf(),
    ensures
        final(state).follows(
            *old(state),
            lambda_function_parameter_list_at(old(state).input(), old(state)@, closer, node),
        ),
        read_lambda_function_parameter_list(r) == lambda_function_parameter_list_at(
            old(state).input(),
            old(state)@,
            closer,
            node,
        ).value,
{
    proof {
        lemma_lambda_function_parameter_list_at(state.input(), state@, closer, node);
        lemma_lambda_function_parameters_model_empty();
    }
    let items: Vec<LambdaFunctionParameter> = Vec::new();
    if state.at(closer) {
        return Some((items, false));
    }
    parse_lambda_function_parameter_list_rest(state, closer, node, items)
}

/// Reads the statements of a block that follow those in `before`, up to
/// the closing brace, which is not consumed. A statement that cannot be
/// read is left out, and reading goes on after its end.
#[verifier::loop_isolation(false)]
pub fn parse_block_rest<'a>(state: &mut ParseState<'a>, before: Vec<Statement>) -> (r: Option<
    Vec<Statement>,
>)
    requires
        old(state).wf(),
    ensures
        final(state).follows(
            *old(state),
            block_rest(old(state).input(), old(state)@, statements_model(before@)),
        ),
        read_statements(r) == block_rest(
            old(state).input(),
            old(state)@,
            statements_model(before@),
        ).value,
    decreases (old(state).input().tokens.len() - old(state)@.pos) * 64 + 41,
{
    let ghost inp = state.input();
    let ghost c = state@;
    proof {
        lemma_block_rest(inp, c, statements_model(before@));
    }
    let mut items = before;
    loop
        invariant
            state.stands_at(*old(state), state@),
            state@.pos >= c.pos,
            c.onward(state@, block_rest(inp, state@, statements_model(items@))) == block_rest(
                inp,
                c,
                statements_model(before@),
            ),
        decreases inp.tokens.len() - state@.pos,
    {
        proof {
            lemma_block_rest(inp, state@, statements_model(items@));
        }
        let raw = state.next_token().raw;
        if raw == RawToken::Punctuator(Punctuator::CloseBrace) {
            return Some(items);
        }
        if raw == RawToken::EndOfFile {
            state.unexpected(
                Expected::Punctuator(Punctuator::CloseBrace),
                Node::StatementsBlock,
            );
            return None;
        }
        let start = state.position();
        let ghost prior = items@;
        match parse_statement(state) {
            Some(statement) => {
                if state.position() > start {
                    items.push(statement);
                    proof {
                        lemma_statements_model_push(prior, statement);
                    }
                } else {
                    recover_from_statement(state, start);
                }
            },
            None => {
                recover_from_statement(state, start);
            },
        }
    }
}


/// Reads a block: `{`, statements and `}`.
pub fn parse_block<'a>(state: &mut ParseState<'a>) -> (r: Option<Vec<Statement>>)
    requires
        old(state).wf(),
    ensures
        final(state).follows(*old(state), block_at(old(state).input(), old(state)@)),
        read_statements(r) == block_at(old(state).input(), old(state)@).value,
    decreases (old(state).input().tokens.len() - old(state)@.pos) * 64 + 10,
{
    proof {
        lemma_block_at(state.input(), state@);
    }
    if !state.at(Punctuator::OpenBrace) {
        state.unexpected(Expected::Punctuator(Punctuator::OpenBrace), Node::StatementsBlock);
        return None;
    }
    state.advance();
    proof {
        lemma_statements_model_empty();
    }
    let statements = parse_block_rest(state, Vec::new())?;
    state.advance();
    Some(statements)
}

/// Reads a statement that begins with `defer` or `return`. The next token
/// must be one of them.
pub fn parse_keyword_statement<'a>(state: &mut ParseState<'a>) -> (r: Option<Statement>)
    requires
        old(state).wf(),
    ensures
        final(state).follows(*old(state), keyword_statement_at(old(state).input(), old(state)@)),
        read_statement(r) == keyword_statement_at(old(state).input(), old(state)@).value,
    decreases (old(state).input().tokens.len() - old(state)@.pos) * 64 + 35,
{
    proof {
        lemma_keyword_statement_at(state.input(), state@);
    }
    let raw = state.next_token().raw;
    let defer = raw == RawToken::Keyword(Keyword::Defer);
    if !defer && raw != RawToken::Keyword(Keyword::Return) {
        return None;
    }
    state.advance();
    let expression = parse_expression(state, 0, true)?;
    state.consume(Punctuator::Semicolon, Node::Statement)?;
    let statement = if defer {
        Statement::Defer { call: expression }
    } else {
        Statement::Return { expression }
    };
    proof {
        lemma_statement_model(statement);
    }
    Some(statement)
}

/// Reads `break;` or `continue;`. The next token must be one of the two
/// keywords.
pub fn parse_jump_statement<'a>(state: &mut ParseState<'a>) -> (r: Option<Statement>)
    requires
        old(state).wf(),
    ensures
        final(state).follows(*old(state), jump_statement_at(old(state).input(), old(state)@)),
        read_statement(r) == jump_statement_at(old(state).input(), old(state)@).value,
{
    proof {
        lemma_jump_statement_at(state.input(), state@);
    }
    let token = state.next_token();
    let is_break = token.raw == RawToken::Keyword(Keyword::Break);
    if !is_break && token.raw != RawToken::Keyword(Keyword::Continue) {
        return None;
    }
    state.advance();
    state.consume(Punctuator::Semicolon, Node::Statement)?;
    let statement = if is_break {
        Statement::Break { span: token.span }
    } else {
        Statement::Continue { span: token.span }
    };
    proof {
        lemma_statement_model(statement);
    }
    Some(statement)
}

/// Reads the value of a `let` and what follows it: `=`, an expression and
/// `;`. The pattern and the type of the `let` are given.
pub fn parse_let_value<'a>(state: &mut ParseState<'a>, pattern: Pattern, ty: Option<Type>) -> (r:
    Option<Statement>)
    requires
        old(state).wf(),
    ensures
        final(state).follows(
            *old(state),
            let_value_at(
                old(state).input(),
                old(state)@,
                pattern_model(pattern),
                read_type(ty),
            ),
        ),
        read_statement(r) == let_value_at(
            old(state).input(),
            old(state)@,
            pattern_model(pattern),
            read_type(ty),
        ).value,
    decreases (old(state).input().tokens.len() - old(state)@.pos) * 64 + 31,
{
    proof {
        lemma_let_value_at(state.input(), state@, pattern_model(pattern), read_type(ty));
    }
    state.consume(Punctuator::Eq, Node::LetStatement)?;
    let value = parse_expression(state, 0, true)?;
    state.consume(Punctuator::Semicolon, Node::LetStatement)?;
    let statement = Statement::Let { pattern, value, ty };
    proof {
        lemma_statement_model(statement);
    }
    Some(statement)
}


/// Reads a `let`. The next token must be the keyword.
pub fn parse_let_statement<'a>(state: &mut ParseState<'a>) -> (r: Option<Statement>)
    requires
        old(state).wf(),
    ensures
        final(state).follows(*old(state), let_statement_at(old(state).input(), old(state)@)),
        read_statement(r) == let_statement_at(old(state).input(), old(state)@).value,
    decreases (old(state).input().tokens.len() - old(state)@.pos) * 64 + 35,
{
    proof {
        lemma_let_statement_at(state.input(), state@);
    }
    if state.next_token().raw != RawToken::Keyword(Keyword::Let) {
        return None;
    }
    state.advance();
    let pattern = parse_pattern(state)?;
    let ty = if state.at(Punctuator::Colon) {
        state.advance();
        Some(parse_type(state)?)
    } else {
        None
    };
    parse_let_value(state, pattern, ty)
}

/// Reads a statement that is an expression.
pub fn parse_expression_statement<'a>(state: &mut ParseState<'a>) -> (r: Option<Statement>)
    requires
        old(state).wf(),
    ensures
        final(state).follows(*old(state), expression_statement_at(old(state).input(), old(state)@)),
        read_statement(r) == expression_statement_at(old(state).input(), old(state)@).value,
    decreases (old(state).input().tokens.len() - old(state)@.pos) * 64 + 31,
{
    proof {
        lemma_expression_statement_at(state.input(), state@);
    }
    let expression = parse_expression(state, 0, true)?;
    let has_semicolon = if state.at(Punctuator::Semicolon) {
        state.advance();
        true
    } else if state.at(Punctuator::CloseBrace) || expression.with_block() {
        false
    } else {
        state.unexpected(Expected::SemicolonOrCloseBrace, Node::Statement);
        return None;
    };
    let statement = Statement::Expression { expression, has_semicolon };
    proof {
        lemma_statement_model(statement);
    }
    Some(statement)
}

/// Reads a statement.
pub fn parse_statement<'a>(state: &mut ParseState<'a>) -> (r: Option<Statement>)
    requires
        old(state).wf(),
    ensures
        final(state).follows(*old(state), statement_at(old(state).input(), old(state)@)),
        read_statement(r) == statement_at(old(state).input(), old(state)@).value,
    decreases (old(state).input().tokens.len() - old(state)@.pos) * 64 + 40,
{
    proof {
        lemma_statement_at(state.input(), state@);
    }
    match state.next_token().raw {
        RawToken::Keyword(Keyword::Defer) | RawToken::Keyword(Keyword::Return) => {
            parse_keyword_statement(state)
        },
        RawToken::Keyword(Keyword::Break) | RawToken::Keyword(Keyword::Continue) => {
            parse_jump_statement(state)
        },
        RawToken::Keyword(Keyword::Let) => parse_let_statement(state),
        _ => parse_expression_statement(state),
    }
}

/// Reads a condition and its block.
pub fn parse_condition_block<'a>(
    state: &mut ParseState<'a>
) -> (r: Option<(Expression, Vec<Statement>)>)
    requires
        old(state).wf(),
    ensures
        final(state).follows(*old(state), condition_block_at(old(state).input(), old(state)@)),
        read_condition_block(r) == condition_block_at(old(state).input(), old(state)@).value,
    decreases (old(state).input().tokens.len() - old(state)@.pos) * 64 + 31,
{
    proof {
        lemma_condition_block_at(state.input(), state@);
    }
    let condition = parse_expression(state, 0, false)?;
    let block = parse_block(state)?;
    Some((condition, block))
}

/// Reads the rest of an `if` that began at `start`, after the conditions
/// and blocks in `before`.
#[verifier::loop_isolation(false)]
pub fn parse_if_rest<'a>(
    state: &mut ParseState<'a>,
    start: Span,
    before: Vec<(Expression, Vec<Statement>)>,
) -> (r: Option<Expression>)
    requires
        old(state).wf(),
    ensures
        final(state).follows(
            *old(state),
            if_rest(old(state).input(), old(state)@, start, if_blocks_model(before@)),
        ),
        read_expression(r) == if_rest(
            old(state).input(),
            old(state)@,
            start,
            if_blocks_model(before@),
        ).value,
    decreases (old(state).input().tokens.len() - old(state)@.pos) * 64 + 35,
{
    let ghost inp = state.input();
    let ghost c = state@;
    proof {
        lemma_if_rest(inp, c, start, if_blocks_model(before@));
    }
    let mut if_blocks = before;
    loop
        invariant
            state.stands_at(*old(state), state@),
            state@.pos >= c.pos,
            c.onward(state@, if_rest(inp, state@, start, if_blocks_model(if_blocks@))) == if_rest(
                inp,
                c,
                start,
                if_blocks_model(before@),
            ),
        decreases inp.tokens.len() - state@.pos,
    {
        proof {
            lemma_if_rest(inp, state@, start, if_blocks_model(if_blocks@));
        }
        if state.next_token().raw != RawToken::Keyword(Keyword::Else) {
            let expression = Expression::If {
                span: state.span_from(start),
                if_blocks,
                otherwise: None,
            };
            proof {
                lemma_expression_model(expression);
            }
            return Some(expression);
        }
        state.advance();
        if state.next_token().raw == RawToken::Keyword(Keyword::If) {
            state.advance();
            let ghost prior = if_blocks@;
            let pair = parse_condition_block(state)?;
            if_blocks.push(pair);
            proof {
                lemma_if_blocks_model_push(prior, pair);
            }
        } else {
            let block = parse_block(state)?;
            let expression = Expression::If {
                span: state.span_from(start),
                if_blocks,
                otherwise: Some(block),
            };
            proof {
                lemma_expression_model(expression);
            }
            return Some(expression);
        }
    }
}


/// Reads an `if`. The next token must be the keyword.
pub fn parse_if<'a>(state: &mut ParseState<'a>) -> (r: Option<Expression>)
    requires
        old(state).wf(),
    ensures
        final(state).follows(*old(state), if_at(old(state).input(), old(state)@)),
        read_expression(r) == if_at(old(state).input(), old(state)@).value,
    decreases (old(state).input().tokens.len() - old(state)@.pos) * 64 + 12,
{
    proof {
        lemma_if_at(state.input(), state@);
    }
    let token = state.next_token();
    if token.raw != RawToken::Keyword(Keyword::If) {
        return None;
    }
    state.advance();
    let pair = parse_condition_block(state)?;
    let mut if_blocks: Vec<(Expression, Vec<Statement>)> = Vec::new();
    proof {
        lemma_if_blocks_model_empty();
        lemma_if_blocks_model_push(Seq::empty(), pair);
    }
    if_blocks.push(pair);
    parse_if_rest(state, token.span, if_blocks)
}

/// Reads a `while`. The next token must be the keyword.
pub fn parse_while<'a>(state: &mut ParseState<'a>) -> (r: Option<Expression>)
    requires
        old(state).wf(),
    ensures
        final(state).follows(*old(state), while_at(old(state).input(), old(state)@)),
        read_expression(r) == while_at(old(state).input(), old(state)@).value,
    decreases (old(state).input().tokens.len() - old(state)@.pos) * 64 + 12,
{
    proof {
        lemma_while_at(state.input(), state@);
    }
    let token = state.next_token();
    if token.raw != RawToken::Keyword(Keyword::While) {
        return None;
    }
    state.advance();
    let (condition, body) = parse_condition_block(state)?;
    let expression = Expression::While {
        span: state.span_from(token.span),
        condition: Box::new(condition),
        body,
    };
    proof {
        lemma_expression_model(expression);
    }
    Some(expression)
}

/// Reads the arms of a `match` that began at `start` with `expression`.
pub fn parse_match_block<'a>(state: &mut ParseState<'a>, start: Span, expression: Expression) -> (r:
    Option<Expression>)
    requires
        old(state).wf(),
    ensures
        final(state).follows(
            *old(state),
            match_block_at(old(state).input(), old(state)@, start, expression_model(expression)),
        ),
        read_expression(r) == match_block_at(
            old(state).input(),
            old(state)@,
            start,
            expression_model(expression),
        ).value,
    decreases (old(state).input().tokens.len() - old(state)@.pos) * 64 + 34,
{
    proof {
        lemma_match_block_at(state.input(), state@, start, expression_model(expression));
    }
    state.consume(Punctuator::OpenBrace, Node::MatchExpression)?;
    let (block, _) = parse_match_expression_item_list(
        state,
        Punctuator::CloseBrace,
        Node::MatchExpression,
    )?;
    state.advance();
    let result = Expression::Match {
        span: state.span_from(start),
        expression: Box::new(expression),
        block,
    };
    proof {
        lemma_expression_model(result);
    }
    Some(result)
}


/// Reads a `match`. The next token must be the keyword.
pub fn parse_match<'a>(state: &mut ParseState<'a>) -> (r: Option<Expression>)
    requires
        old(state).wf(),
    ensures
        final(state).follows(*old(state), match_at(old(state).input(), old(state)@)),
        read_expression(r) == match_at(old(state).input(), old(state)@).value,
    decreases (old(state).input().tokens.len() - old(state)@.pos) * 64 + 12,
{
    proof {
        lemma_match_at(state.input(), state@);
    }
    let token = state.next_token();
    if token.raw != RawToken::Keyword(Keyword::Match) {
        return None;
    }
    state.advance();
    let expression = parse_expression(state, 0, false)?;
    parse_match_block(state, token.span, expression)
}

/// Reads the body of a lambda that began at `start` with `parameters`.
pub fn parse_lambda_body<'a>(
    state: &mut ParseState<'a>,
    start: Span,
    parameters: Vec<LambdaFunctionParameter>,
) -> (r: Option<Expression>)
    requires
        old(state).wf(),
    ensures
        final(state).follows(
            *old(state),
            lambda_body_at(
                old(state).input(),
                old(state)@,
                start,
                lambda_function_parameters_model(parameters@),
            ),
        ),
        read_expression(r) == lambda_body_at(
            old(state).input(),
            old(state)@,
            start,
            lambda_function_parameters_model(parameters@),
        ).value,
    decreases (old(state).input().tokens.len() - old(state)@.pos) * 64 + 11,
{
    proof {
        lemma_lambda_body_at(
            state.input(),
            state@,
            start,
            lambda_function_parameters_model(parameters@),
        );
    }
    let return_type = if state.at(Punctuator::Colon) {
        state.advance();
        Some(parse_type(state)?)
    } else {
        None
    };
    let block = parse_block(state)?;
    let expression = Expression::Lambda {
        span: state.span_from(start),
        parameters,
        return_type,
        block,
    };
    proof {
        lemma_expression_model(expression);
    }
    Some(expression)
}


/// Reads a lambda. The next token must be `|`.
pub fn parse_lambda<'a>(state: &mut ParseState<'a>) -> (r: Option<Expression>)
    requires
        old(state).wf(),
    ensures
        final(state).follows(*old(state), lambda_at(old(state).input(), old(state)@)),
        read_expression(r) == lambda_at(old(state).input(), old(state)@).value,
    decreases (old(state).input().tokens.len() - old(state)@.pos) * 64 + 12,
{
    proof {
        lemma_lambda_at(state.input(), state@);
    }
    let token = state.next_token();
    if token.raw != RawToken::Punctuator(Punctuator::Or) {
        return None;
    }
    state.advance();
    let (parameters, _) = parse_lambda_function_parameter_list(
        state,
        Punctuator::Or,
        Node::Lambda,
    )?;
    state.advance();
    parse_lambda_body(state, token.span, parameters)
}

/// Reads an operator and the operand after it. The next token must be an
/// operator that stands before its operand.
pub fn parse_prefix_operation<'a>(
    state: &mut ParseState<'a>,
    allow_struct: bool,
) -> (r: Option<Expression>)
    requires
        old(state).wf(),
    ensures
        final(state).follows(
            *old(state),
            prefix_operation_at(old(state).input(), old(state)@, allow_struct),
        ),
        read_expression(r) == prefix_operation_at(
            old(state).input(),
            old(state)@,
            allow_struct,
        ).value,
    decreases (old(state).input().tokens.len() - old(state)@.pos) * 64 + 12,
{
    proof {
        lemma_prefix_operation_at(state.input(), state@, allow_struct);
    }
    let token = state.next_token();
    let raw = match RawPrefixOperator::from_token(token.raw) {
        Some(raw) => raw,
        None => {
            return None;
        },
    };
    state.advance();
    let inner = parse_expression(state, Precedence::Prefix.level(), allow_struct)?;
    let expression = Expression::Prefix {
        span: state.span_from(token.span),
        inner: Box::new(inner),
        operator: PrefixOperator { span: token.span, raw },
    };
    proof {
        lemma_expression_model(expression);
    }
    Some(expression)
}

/// Reads an expression in parentheses or a tuple. The next token must be
/// `(`.
pub fn parse_parenthesized_expression<'a>(state: &mut ParseState<'a>) -> (r: Option<Expression>)
    requires
        old(state).wf(),
    ensures
        final(state).follows(
            *old(state),
            parenthesized_expression_at(old(state).input(), old(state)@),
        ),
        read_expression(r) == parenthesized_expression_at(old(state).input(), old(state)@).value,
    decreases (old(state).input().tokens.len() - old(state)@.pos) * 64 + 12,
{
    proof {
        lemma_parenthesized_expression_at(state.input(), state@);
    }
    let token = state.next_token();
    if token.raw != RawToken::Punctuator(Punctuator::OpenParent) {
        return None;
    }
    state.advance();
    let (mut elements, trailing_comma) = parse_expression_list(
        state,
        Punctuator::CloseParent,
        Node::ParenthesizedOrTupleExpression,
    )?;
    state.advance();
    let span = state.span_from(token.span);
    proof {
        lemma_expressions_model_len(elements@);
    }
    if elements.len() == 1 && !trailing_comma {
        proof {
            lemma_expressions_model_at(elements@, 0);
        }
        match elements.pop() {
            Some(inner) => {
                let expression = Expression::Parenthesized { span, inner: Box::new(inner) };
                proof {
                    lemma_expression_model(expression);
                }
                Some(expression)
            },
            None => None,
        }
    } else {
        let expression = Expression::Tuple { span, elements };
        proof {
            lemma_expression_model(expression);
        }
        Some(expression)
    }
}

/// Reads a list. The next token must be `[`.
pub fn parse_list_expression<'a>(state: &mut ParseState<'a>) -> (r: Option<Expression>)
    requires
        old(state).wf(),
    ensures
        final(state).follows(*old(state), list_expression_at(old(state).input(), old(state)@)),
        read_expression(r) == list_expression_at(old(state).input(), old(state)@).value,
    decreases (old(state).input().tokens.len() - old(state)@.pos) * 64 + 12,
{
    proof {
        lemma_list_expression_at(state.input(), state@);
    }
    let token = state.next_token();
    if token.raw != RawToken::Punctuator(Punctuator::OpenBracket) {
        return None;
    }
    state.advance();
    let (elements, _) = parse_expression_list(
        state,
        Punctuator::CloseBracket,
        Node::ListExpression,
    )?;
    state.advance();
    let expression = Expression::List { span: state.span_from(token.span), elements };
    proof {
        lemma_expression_model(expression);
    }
    Some(expression)
}

/// Reads a block that stands as an expression.
pub fn parse_block_expression<'a>(state: &mut ParseState<'a>) -> (r: Option<Expression>)
    requires
        old(state).wf(),
    ensures
        final(state).follows(*old(state), block_expression_at(old(state).input(), old(state)@)),
        read_expression(r) == block_expression_at(old(state).input(), old(state)@).value,
    decreases (old(state).input().tokens.len() - old(state)@.pos) * 64 + 11,
{
    proof {
        lemma_block_expression_at(state.input(), state@);
    }
    let start = state.next_token().span;
    let block = parse_block(state)?;
    let expression = Expression::StatementsBlock { span: state.span_from(start), block };
    proof {
        lemma_expression_model(expression);
    }
    Some(expression)
}

/// Reads an expression that no operator begins and that stands first in a
/// longer one.
pub fn parse_prefix<'a>(state: &mut ParseState<'a>, allow_struct: bool) -> (r: Option<Expression>)
    requires
        old(state).wf(),
    ensures
        final(state).follows(*old(state), prefix_at(old(state).input(), old(state)@, allow_struct)),
        read_expression(r) == prefix_at(old(state).input(), old(state)@, allow_struct).value,
    decreases (old(state).input().tokens.len() - old(state)@.pos) * 64 + 20,
{
    proof {
        lemma_prefix_at(state.input(), state@, allow_struct);
    }
    let token = state.next_token();
    if is_literal_token(token.raw) {
        let literal = parse_literal(state)?;
        let expression = Expression::Literal(literal);
        proof {
            lemma_expression_model(expression);
        }
        return Some(expression);
    }
    if is_prefix_operator_token(token.raw) {
        return parse_prefix_operation(state, allow_struct);
    }
    match token.raw {
        RawToken::Identifier(symbol) => {
            state.advance();
            let expression = Expression::Identifier(IdentifierAst { span: token.span, symbol });
            proof {
                lemma_expression_model(expression);
            }
            Some(expression)
        },
        RawToken::Punctuator(Punctuator::OpenParent) => parse_parenthesized_expression(state),
        RawToken::Punctuator(Punctuator::OpenBracket) => parse_list_expression(state),
        RawToken::Punctuator(Punctuator::OpenBrace) => parse_block_expression(state),
        RawToken::Punctuator(Punctuator::Or) => parse_lambda(state),
        RawToken::Keyword(Keyword::If) => parse_if(state),
        RawToken::Keyword(Keyword::While) => parse_while(state),
        RawToken::Keyword(Keyword::Match) => parse_match(state),
        _ => {
            state.unexpected(Expected::Expression, Node::Expression);
            None
        },
    }
}

/// Reads the operator between two operands and the operand after it; `left`
/// is the operand before it.
pub fn parse_binary<'a>(
    state: &mut ParseState<'a>,
    left: Expression,
    allow_struct: bool,
) -> (r: Option<Expression>)
    requires
        old(state).wf(),
    ensures
        final(state).follows(
            *old(state),
            binary_at(old(state).input(), old(state)@, expression_model(left), allow_struct),
        ),
        read_expression(r) == binary_at(
            old(state).input(),
            old(state)@,
            expression_model(left), allow_struct,
        ).value,
    decreases (old(state).input().tokens.len() - old(state)@.pos) * 64 + 12,
{
    proof {
        lemma_binary_at(state.input(), state@, expression_model(left), allow_struct);
    }
    let token = state.next_token();
    if !is_infix_operator_token(token.raw) {
        return None;
    }
    proof {
        lemma_infix_is_binary(token.raw);
    }
    let raw = match RawBinaryOperator::from_token(token.raw) {
        Some(raw) => raw,
        None => {
            return None;
        },
    };
    state.advance();
    let right = parse_expression(state, token.raw.to_precedence().level(), allow_struct)?;
    let start = left.span();
    let expression = Expression::Binary {
        span: state.span_from(start),
        left: Box::new(left),
        operator: BinaryOperator { span: token.span, raw },
        right: Box::new(right),
    };
    proof {
        lemma_expression_model(expression);
    }
    Some(expression)
}


/// Reads the arguments of a call; `left` is what is called.
pub fn parse_call<'a>(state: &mut ParseState<'a>, left: Expression) -> (r: Option<Expression>)
    requires
        old(state).wf(),
    ensures
        final(state).follows(
            *old(state),
            call_at(old(state).input(), old(state)@, expression_model(left)),
        ),
        read_expression(r) == call_at(
            old(state).input(),
            old(state)@,
            expression_model(left),
        ).value,
    decreases (old(state).input().tokens.len() - old(state)@.pos) * 64 + 12,
{
    proof {
        lemma_call_at(state.input(), state@, expression_model(left));
    }
    if !state.at(Punctuator::OpenParent) {
        return None;
    }
    state.advance();
    let (arguments, _) = parse_expression_list(
        state,
        Punctuator::CloseParent,
        Node::CallArguments,
    )?;
    state.advance();
    let start = left.span();
    let expression = Expression::Call {
        span: state.span_from(start),
        left: Box::new(left),
        arguments,
    };
    proof {
        lemma_expression_model(expression);
    }
    Some(expression)
}


/// Reads the fields of a struct expression; `left` names the struct.
pub fn parse_struct_expression<'a>(
    state: &mut ParseState<'a>,
    left: Expression,
) -> (r: Option<Expression>)
    requires
        old(state).wf(),
    ensures
        final(state).follows(
            *old(state),
            struct_expression_at(old(state).input(), old(state)@, expression_model(left)),
        ),
        read_expression(r) == struct_expression_at(
            old(state).input(),
            old(state)@,
            expression_model(left),
        ).value,
    decreases (old(state).input().tokens.len() - old(state)@.pos) * 64 + 12,
{
    proof {
        lemma_struct_expression_at(state.input(), state@, expression_model(left));
    }
    if !state.at(Punctuator::OpenBrace) {
        return None;
    }
    state.advance();
    let (fields, _) = parse_struct_expression_item_list(
        state,
        Punctuator::CloseBrace,
        Node::StructExpression,
    )?;
    state.advance();
    let start = left.span();
    let expression = Expression::Struct {
        span: state.span_from(start),
        left: Box::new(left),
        fields,
    };
    proof {
        lemma_expression_model(expression);
    }
    Some(expression)
}


/// Reads what follows an operand without a further expression; `left` is
/// the operand.
pub fn parse_suffix<'a>(state: &mut ParseState<'a>, left: Expression) -> (r: Option<Expression>)
    requires
        old(state).wf(),
    ensures
        final(state).follows(
            *old(state),
            suffix_at(old(state).input(), old(state)@, expression_model(left)),
        ),
        read_expression(r) == suffix_at(
            old(state).input(),
            old(state)@,
            expression_model(left),
        ).value,
{
    proof {
        lemma_suffix_at(state.input(), state@, expression_model(left));
    }
    let token = state.next_token();
    let start = left.span();
    let expression = if token.raw == RawToken::Punctuator(Punctuator::Dot) {
        state.advance();
        let right = state.consume_identifier(Node::FieldAccess)?;
        Expression::FieldAccess { span: state.span_from(start), left: Box::new(left), right }
    } else if token.raw == RawToken::Punctuator(Punctuator::OpenBracket) {
        let generic_arguments = parse_generic_arguments(state)?;
        Expression::GenericArguments {
            span: state.span_from(start),
            left: Box::new(left),
            generic_arguments,
        }
    } else if is_postfix_operator_token(token.raw) {
        let raw = match RawPostfixOperator::from_token(token.raw) {
            Some(raw) => raw,
            None => {
                return None;
            },
        };
        state.advance();
        Expression::Postfix {
            span: state.span_from(start),
            inner: Box::new(left),
            operator: PostfixOperator { span: token.span, raw },
        }
    } else if token.raw == RawToken::Keyword(Keyword::As) {
        state.advance();
        let right = parse_type(state)?;
        Expression::As { span: state.span_from(start), left: Box::new(left), right }
    } else {
        return None;
    };
    proof {
        lemma_expression_model(expression);
    }
    Some(expression)
}


/// Reads one step of an expression after the operand `left`.
pub fn parse_infix_step<'a>(
    state: &mut ParseState<'a>,
    left: Expression,
    allow_struct: bool,
) -> (r: Option<Expression>)
    requires
        old(state).wf(),
    ensures
        final(state).follows(
            *old(state),
            infix_step_at(old(state).input(), old(state)@, expression_model(left), allow_struct),
        ),
        read_expression(r) == infix_step_at(
            old(state).input(),
            old(state)@,
            expression_model(left), allow_struct,
        ).value,
    decreases (old(state).input().tokens.len() - old(state)@.pos) * 64 + 20,
{
    proof {
        lemma_infix_step_at(state.input(), state@, expression_model(left), allow_struct);
    }
    let raw = state.next_token().raw;
    if is_infix_operator_token(raw) {
        parse_binary(state, left, allow_struct)
    } else if raw == RawToken::Punctuator(Punctuator::OpenParent) {
        parse_call(state, left)
    } else if raw == RawToken::Punctuator(Punctuator::OpenBrace) {
        parse_struct_expression(state, left)
    } else {
        parse_suffix(state, left)
    }
}


/// Reads the rest of an expression after the operand `left`: as long as the
/// next token continues the expression, one step is taken.
#[verifier::loop_isolation(false)]
pub fn parse_infix_rest<'a>(
    state: &mut ParseState<'a>,
    left: Expression,
    min: u8,
    allow_struct: bool,
) -> (r: Option<Expression>)
    requires
        old(state).wf(),
    ensures
        final(state).follows(
            *old(state),
            infix_rest(
                old(state).input(),
                old(state)@,
                expression_model(left),
                min as int,
                allow_struct,
            ),
        ),
        read_expression(r) == infix_rest(
            old(state).input(),
            old(state)@,
            expression_model(left),
            min as int,
            allow_struct,
        ).value,
    decreases (old(state).input().tokens.len() - old(state)@.pos) * 64 + 21,
{
    let ghost inp = state.input();
    let ghost c = state@;
    let ghost first = expression_model(left);
    proof {
        lemma_infix_rest(inp, c, first, min as int, allow_struct);
    }
    let mut operand = left;
    loop
        invariant
            state.stands_at(*old(state), state@),
            state@.pos >= c.pos,
            c.onward(
                state@,
                infix_rest(inp, state@, expression_model(operand), min as int, allow_struct),
            ) == infix_rest(inp, c, first, min as int, allow_struct),
        decreases inp.tokens.len() - state@.pos,
    {
        proof {
            lemma_infix_rest(inp, state@, expression_model(operand), min as int, allow_struct);
        }
        if !expression_continues(state, min, allow_struct) {
            return Some(operand);
        }
        let start = state.position();
        operand = parse_infix_step(state, operand, allow_struct)?;
        if state.position() <= start {
            return Some(operand);
        }
    }
}


/// Reads an expression in which only operators that bind more tightly than
/// `min` stand outside parentheses. Where `allow_struct` is false, no
/// struct expression stands outside parentheses either.
pub fn parse_expression<'a>(state: &mut ParseState<'a>, min: u8, allow_struct: bool) -> (r: Option<
    Expression,
>)
    requires
        old(state).wf(),
    ensures
        final(state).follows(
            *old(state),
            expression_at(old(state).input(), old(state)@, min as int, allow_struct),
        ),
        read_expression(r) == expression_at(
            old(state).input(),
            old(state)@,
            min as int,
            allow_struct,
        ).value,
    decreases (old(state).input().tokens.len() - old(state)@.pos) * 64 + 30,
{
    proof {
        lemma_expression_at(state.input(), state@, min as int, allow_struct);
    }
    let first = parse_prefix(state, allow_struct)?;
    parse_infix_rest(state, first, min, allow_struct)
}

} // verus!
