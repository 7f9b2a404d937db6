//! Expressions and statements.

use crate::diagnostics::{Expected, Node};
use crate::grammar::cursor::{
    identifier_at, list_step, list_step_end, punctuator_at, Cursor, Elements, Input, ListStep,
    Parsed,
};
use crate::grammar::patterns::{is_literal, literal_at, pattern_at};
use crate::grammar::types::{generic_arguments_at, type_at};
use crate::model::{
    ExpressionModel, LambdaFunctionParameterModel, MatchExpressionItemModel, StatementModel,
    StructExpressionItemModel,
};
use crate::operator::{
    binary_operator_of, infix_operator, postfix_operator_of, precedence_of, prefix_operator_of,
    BinaryOperator, PostfixOperator, Precedence, PrefixOperator,
};
use crate::token::{Keyword, Punctuator, RawToken};
use vstd::prelude::*;

verus! {

/// Whether a token is an operator that stands before its operand.
pub open spec fn is_prefix_operator(raw: RawToken) -> bool {
    raw is Punctuator && prefix_operator_of(raw->Punctuator_0) is Some
}

/// Whether a token is an operator that stands after its operand.
pub open spec fn is_postfix_operator(raw: RawToken) -> bool {
    raw is Punctuator && postfix_operator_of(raw->Punctuator_0) is Some
}

/// The position after the statement that could not be read from `c` on:
/// after the first `;`, or at the first `}` or the end of the file if that
/// comes before.
pub open spec fn statement_end_def(inp: Input, c: Cursor) -> int
    decreases inp.remaining(c), 0int,
{
    let raw = inp.peek(c).raw;
    if raw == RawToken::EndOfFile || c.pos < 0 || c.pos >= inp.tokens.len() {
        c.pos
    } else if raw == RawToken::Punctuator(Punctuator::Semicolon) {
        c.pos + 1
    } else if raw == RawToken::Punctuator(Punctuator::CloseBrace) {
        c.pos
    } else {
        statement_end(inp, c.skip(1))
    }
}

/// What [`statement_end_def`] defines, kept folded until [`lemma_statement_end`] unfolds it.
#[verifier::opaque]
pub open spec fn statement_end(inp: Input, c: Cursor) -> int
    decreases inp.remaining(c), 1int,
{
    statement_end_def(inp, c)
}

/// [`statement_end`] is what [`statement_end_def`] defines.
pub proof fn lemma_statement_end(inp: Input, c: Cursor)
    ensures
        statement_end(inp, c) == statement_end_def(inp, c),
{
    reveal_with_fuel(statement_end, 1);
}

/// Where reading goes on after a statement could not be read: `start` is
/// the position where the statement began and `c` where reading it stopped. At least
/// one token is skipped, and then all up to the end of the statement.
pub open spec fn recover_statement(inp: Input, start: int, c: Cursor) -> Cursor {
    let base = if c.pos > start {
        c
    } else {
        c.bump(inp)
    };
    base.skip(statement_end(inp, base) - base.pos)
}

/// The rest of a list of expressions after those in `before`; `c` stands at
/// the first token of the next one. After each comes a comma or the closing
/// token `closer`, and a comma may stand before the closing token, which is
/// not consumed. Any other token is reported; the list then ends at the next
/// closing token, and fails where there is none before the end of the file.
pub open spec fn expression_list_rest_def(
    inp: Input,
    c: Cursor,
    closer: Punctuator,
    node: Node,
    before: Seq<ExpressionModel>,
) -> Parsed<Elements<ExpressionModel>>
    decreases inp.remaining(c), 32int, 0int,
{
    let end = RawToken::Punctuator(closer);
    let element = expression_at(inp, c, 0, true);
    let c1 = c.after(element);
    match element.value {
        None => c.fail(c1),
        Some(element) => {
            let items = before.push(element);
            let c2 = list_step_end(inp, c1, end, end, node);
            match list_step(inp, c1, end, end) {
                ListStep::Next => c.onward(
                    c2,
                    expression_list_rest(inp, c2, closer, node, items),
                ),
                ListStep::End { trailing_comma } => c.done(c2, Elements { items, trailing_comma }),
                ListStep::Abandon => c.fail(c2),
            }
        },
    }
}

/// What [`expression_list_rest_def`] defines, kept folded until [`lemma_expression_list_rest`]
/// unfolds it.
#[verifier::opaque]
pub open spec fn expression_list_rest(
    inp: Input,
    c: Cursor,
    closer: Punctuator,
    node: Node,
    before: Seq<ExpressionModel>,
) -> Parsed<Elements<ExpressionModel>>
    decreases inp.remaining(c), 32int, 1int,
{
    expression_list_rest_def(inp, c, closer, node, before)
}

/// [`expression_list_rest`] is what [`expression_list_rest_def`] defines.
pub proof fn lemma_expression_list_rest(
    inp: Input,
    c: Cursor,
    closer: Punctuator,
    node: Node,
    before: Seq<ExpressionModel>,
)
    ensures
        expression_list_rest(
            inp,
            c,
            closer,
            node,
            before,
        ) == expression_list_rest_def(inp, c, closer, node, before),
{
    reveal_with_fuel(expression_list_rest, 1);
}

/// A list of expressions up to the closing token `closer`, which is not
/// consumed.
pub open spec fn expression_list_at_def(
    inp: Input,
    c: Cursor,
    closer: Punctuator,
    node: Node,
) -> Parsed<Elements<ExpressionModel>>
    decreases inp.remaining(c), 33int, 0int,
{
    if inp.at(c, closer) {
        c.done(c, Elements { items: Seq::empty(), trailing_comma: false })
    } else {
        expression_list_rest(inp, c, closer, node, Seq::empty())
    }
}

/// What [`expression_list_at_def`] defines, kept folded until [`lemma_expression_list_at`] unfolds
/// it.
#[verifier::opaque]
pub open spec fn expression_list_at(
    inp: Input,
    c: Cursor,
    closer: Punctuator,
    node: Node,
) -> Parsed<Elements<ExpressionModel>>
    decreases inp.remaining(c), 33int, 1int,
{
    expression_list_at_def(inp, c, closer, node)
}

/// [`expression_list_at`] is what [`expression_list_at_def`] defines.
pub proof fn lemma_expression_list_at(inp: Input, c: Cursor, closer: Punctuator, node: Node)
    ensures
        expression_list_at(inp, c, closer, node) == expression_list_at_def(inp, c, closer, node),
{
    reveal_with_fuel(expression_list_at, 1);
}

/// One field of a struct expression: a name, and `:` and a value where
/// they follow.
pub open spec fn struct_expression_item_at_def(inp: Input, c: Cursor) -> Parsed<
    StructExpressionItemModel,
>
    decreases inp.remaining(c), 31int, 0int,
{
    let name = identifier_at(inp, c, Node::StructExpression);
    let c1 = c.after(name);
    match name.value {
        None => c.fail(c1),
        Some(name) => if inp.at(c1, Punctuator::Colon) {
            let c2 = c1.bump(inp);
            let value = expression_at(inp, c2, 0, true);
            let c3 = c2.after(value);
            match value.value {
                None => c.fail(c3),
                Some(value) => c.done(c3, StructExpressionItemModel { name, value: Some(value) }),
            }
        } else {
            c.done(c1, StructExpressionItemModel { name, value: None })
        },
    }
}

/// What [`struct_expression_item_at_def`] defines, kept folded until
/// [`lemma_struct_expression_item_at`] unfolds it.
#[verifier::opaque]
pub open spec fn struct_expression_item_at(inp: Input, c: Cursor) -> Parsed<
    StructExpressionItemModel,
>
    decreases inp.remaining(c), 31int, 1int,
{
    struct_expression_item_at_def(inp, c)
}

/// [`struct_expression_item_at`] is what [`struct_expression_item_at_def`] defines.
pub proof fn lemma_struct_expression_item_at(inp: Input, c: Cursor)
    ensures
        struct_expression_item_at(inp, c) == struct_expression_item_at_def(inp, c),
{
    reveal_with_fuel(struct_expression_item_at, 1);
}

/// The rest of a list of fields of a struct expression after those in `before`; `c` stands at
/// the first token of the next one. After each comes a comma or the closing
/// token `closer`, and a comma may stand before the closing token, which is
/// not consumed. Any other token is reported; the list then ends at the next
/// closing token, and fails where there is none before the end of the file.
pub open spec fn struct_expression_item_list_rest_def(
    inp: Input,
    c: Cursor,
    closer: Punctuator,
    node: Node,
    before: Seq<StructExpressionItemModel>,
) -> Parsed<Elements<StructExpressionItemModel>>
    decreases inp.remaining(c), 32int, 0int,
{
    let end = RawToken::Punctuator(closer);
    let element = struct_expression_item_at(inp, c);
    let c1 = c.after(element);
    match element.value {
        None => c.fail(c1),
        Some(element) => {
            let items = before.push(element);
            let c2 = list_step_end(inp, c1, end, end, node);
            match list_step(inp, c1, end, end) {
                ListStep::Next => c.onward(
                    c2,
                    struct_expression_item_list_rest(inp, c2, closer, node, items),
                ),
                ListStep::End { trailing_comma } => c.done(c2, Elements { items, trailing_comma }),
                ListStep::Abandon => c.fail(c2),
            }
        },
    }
}

/// What [`struct_expression_item_list_rest_def`] defines, kept folded until
/// [`lemma_struct_expression_item_list_rest`] unfolds it.
#[verifier::opaque]
pub open spec fn struct_expression_item_list_rest(
    inp: Input,
    c: Cursor,
    closer: Punctuator,
    node: Node,
    before: Seq<StructExpressionItemModel>,
) -> Parsed<Elements<StructExpressionItemModel>>
    decreases inp.remaining(c), 32int, 1int,
{
    struct_expression_item_list_rest_def(inp, c, closer, node, before)
}

/// [`struct_expression_item_list_rest`] is what [`struct_expression_item_list_rest_def`] defines.
pub proof fn lemma_struct_expression_item_list_rest(
    inp: Input,
    c: Cursor,
    closer: Punctuator,
    node: Node,
    before: Seq<StructExpressionItemModel>,
)
    ensures
        struct_expression_item_list_rest(
            inp,
            c,
            closer,
            node,
            before,
        ) == struct_expression_item_list_rest_def(inp, c, closer, node, before),
{
    reveal_with_fuel(struct_expression_item_list_rest, 1);
}

/// A list of fields of a struct expression up to the closing token `closer`, which is not
/// consumed.
pub open spec fn struct_expression_item_list_at_def(
    inp: Input,
    c: Cursor,
    closer: Punctuator,
    node: Node,
) -> Parsed<Elements<StructExpressionItemModel>>
    decreases inp.remaining(c), 33int, 0int,
{
    if inp.at(c, closer) {
        c.done(c, Elements { items: Seq::empty(), trailing_comma: false })
    } else {
        struct_expression_item_list_rest(inp, c, closer, node, Seq::empty())
    }
}

/// What [`struct_expression_item_list_at_def`] defines, kept folded until
/// [`lemma_struct_expression_item_list_at`] unfolds it.
#[verifier::opaque]
pub open spec fn struct_expression_item_list_at(
    inp: Input,
    c: Cursor,
    closer: Punctuator,
    node: Node,
) -> Parsed<Elements<StructExpressionItemModel>>
    decreases inp.remaining(c), 33int, 1int,
{
    struct_expression_item_list_at_def(inp, c, closer, node)
}

/// [`struct_expression_item_list_at`] is what [`struct_expression_item_list_at_def`] defines.
pub proof fn lemma_struct_expression_item_list_at(
    inp: Input,
    c: Cursor,
    closer: Punctuator,
    node: Node,
)
    ensures
        struct_expression_item_list_at(
            inp,
            c,
            closer,
            node,
        ) == struct_expression_item_list_at_def(inp, c, closer, node),
{
    reveal_with_fuel(struct_expression_item_list_at, 1);
}

/// One arm of a `match`: a pattern, `=>` and an expression.
pub open spec fn match_expression_item_at_def(
    inp: Input,
    c: Cursor,
) -> Parsed<MatchExpressionItemModel>
    decreases inp.remaining(c), 31int, 0int,
{
    let left = pattern_at(inp, c);
    let c1 = c.after(left);
    let arrow = punctuator_at(inp, c1, Punctuator::Arrow, Node::MatchExpression);
    let c2 = c1.after(arrow);
    match left.value {
        None => c.fail(c1),
        Some(left) => if !arrow.ok() {
            c.fail(c2)
        } else {
            let right = expression_at(inp, c2, 0, true);
            let c3 = c2.after(right);
            match right.value {
                None => c.fail(c3),
                Some(right) => c.done(c3, MatchExpressionItemModel { left, right }),
            }
        },
    }
}

/// What [`match_expression_item_at_def`] defines, kept folded until
/// [`lemma_match_expression_item_at`] unfolds it.
#[verifier::opaque]
pub open spec fn match_expression_item_at(inp: Input, c: Cursor) -> Parsed<MatchExpressionItemModel>
    decreases inp.remaining(c), 31int, 1int,
{
    match_expression_item_at_def(inp, c)
}

/// [`match_expression_item_at`] is what [`match_expression_item_at_def`] defines.
pub proof fn lemma_match_expression_item_at(inp: Input, c: Cursor)
    ensures
        match_expression_item_at(inp, c) == match_expression_item_at_def(inp, c),
{
    reveal_with_fuel(match_expression_item_at, 1);
}

/// The rest of a list of arms of a `match` after those in `before`; `c` stands at
/// the first token of the next one. After each comes a comma or the closing
/// token `closer`, and a comma may stand before the closing token, which is
/// not consumed. Any other token is reported; the list then ends at the next
/// closing token, and fails where there is none before the end of the file.
pub open spec fn match_expression_item_list_rest_def(
    inp: Input,
    c: Cursor,
    closer: Punctuator,
    node: Node,
    before: Seq<MatchExpressionItemModel>,
) -> Parsed<Elements<MatchExpressionItemModel>>
    decreases inp.remaining(c), 32int, 0int,
{
    let end = RawToken::Punctuator(closer);
    let element = match_expression_item_at(inp, c);
    let c1 = c.after(element);
    match element.value {
        None => c.fail(c1),
        Some(element) => {
            let items = before.push(element);
            let c2 = list_step_end(inp, c1, end, end, node);
            match list_step(inp, c1, end, end) {
                ListStep::Next => c.onward(
                    c2,
                    match_expression_item_list_rest(inp, c2, closer, node, items),
                ),
                ListStep::End { trailing_comma } => c.done(c2, Elements { items, trailing_comma }),
                ListStep::Abandon => c.fail(c2),
            }
        },
    }
}

/// What [`match_expression_item_list_rest_def`] defines, kept folded until
/// [`lemma_match_expression_item_list_rest`] unfolds it.
#[verifier::opaque]
pub open spec fn match_expression_item_list_rest(
    inp: Input,
    c: Cursor,
    closer: Punctuator,
    node: Node,
    before: Seq<MatchExpressionItemModel>,
) -> Parsed<Elements<MatchExpressionItemModel>>
    decreases inp.remaining(c), 32int, 1int,
{
    match_expression_item_list_rest_def(inp, c, closer, node, before)
}

/// [`match_expression_item_list_rest`] is what [`match_expression_item_list_rest_def`] defines.
pub proof fn lemma_match_expression_item_list_rest(
    inp: Input,
    c: Cursor,
    closer: Punctuator,
    node: Node,
    before: Seq<MatchExpressionItemModel>,
)
    ensures
        match_expression_item_list_rest(
            inp,
            c,
            closer,
            node,
            before,
        ) == match_expression_item_list_rest_def(inp, c, closer, node, before),
{
    reveal_with_fuel(match_expression_item_list_rest, 1);
}

/// A list of arms of a `match` up to the closing token `closer`, which is not
/// consumed.
pub open spec fn match_expression_item_list_at_def(
    inp: Input,
    c: Cursor,
    closer: Punctuator,
    node: Node,
) -> Parsed<Elements<MatchExpressionItemModel>>
    decreases inp.remaining(c), 33int, 0int,
{
    if inp.at(c, closer) {
        c.done(c, Elements { items: Seq::empty(), trailing_comma: false })
    } else {
        match_expression_item_list_rest(inp, c, closer, node, Seq::empty())
    }
}

/// What [`match_expression_item_list_at_def`] defines, kept folded until
/// [`lemma_match_expression_item_list_at`] unfolds it.
#[verifier::opaque]
pub open spec fn match_expression_item_list_at(
    inp: Input,
    c: Cursor,
    closer: Punctuator,
    node: Node,
) -> Parsed<Elements<MatchExpressionItemModel>>
    decreases inp.remaining(c), 33int, 1int,
{
    match_expression_item_list_at_def(inp, c, closer, node)
}

/// [`match_expression_item_list_at`] is what [`match_expression_item_list_at_def`] defines.
pub proof fn lemma_match_expression_item_list_at(
    inp: Input,
    c: Cursor,
    closer: Punctuator,
    node: Node,
)
    ensures
        match_expression_item_list_at(
            inp,
            c,
            closer,
            node,
        ) == match_expression_item_list_at_def(inp, c, closer, node),
{
    reveal_with_fuel(match_expression_item_list_at, 1);
}

/// One parameter of a lambda: a name, and `:` and a type where they follow.
pub open spec fn lambda_function_parameter_at_def(inp: Input, c: Cursor) -> Parsed<
    LambdaFunctionParameterModel,
>
{
    let name = identifier_at(inp, c, Node::Lambda);
    let c1 = c.after(name);
    match name.value {
        None => c.fail(c1),
        Some(name) => if inp.at(c1, Punctuator::Colon) {
            let c2 = c1.bump(inp);
            let ty = type_at(inp, c2);
            let c3 = c2.after(ty);
            match ty.value {
                None => c.fail(c3),
                Some(ty) => c.done(c3, LambdaFunctionParameterModel { name, ty: Some(ty) }),
            }
        } else {
            c.done(c1, LambdaFunctionParameterModel { name, ty: None })
        },
    }
}

/// What [`lambda_function_parameter_at_def`] defines, kept folded until
/// [`lemma_lambda_function_parameter_at`] unfolds it.
#[verifier::opaque]
pub open spec fn lambda_function_parameter_at(inp: Input, c: Cursor) -> Parsed<
    LambdaFunctionParameterModel,
>
{
    lambda_function_parameter_at_def(inp, c)
}

/// [`lambda_function_parameter_at`] is what [`lambda_function_parameter_at_def`] defines.
pub proof fn lemma_lambda_function_parameter_at(inp: Input, c: Cursor)
    ensures
        lambda_function_parameter_at(inp, c) == lambda_function_parameter_at_def(inp, c),
{
    reveal(lambda_function_parameter_at);
}

/// The rest of a list of parameters of a lambda after those in `before`; `c` stands at
/// the first token of the next one. After each comes a comma or the closing
/// token `closer`, and a comma may stand before the closing token, which is
/// not consumed. Any other token is reported; the list then ends at the next
/// closing token, and fails where there is none before the end of the file.
pub open spec fn lambda_function_parameter_list_rest_def(
    inp: Input,
    c: Cursor,
    closer: Punctuator,
    node: Node,
    before: Seq<LambdaFunctionParameterModel>,
) -> Parsed<Elements<LambdaFunctionParameterModel>>
    decreases inp.remaining(c), 32int, 0int,
{
    let end = RawToken::Punctuator(closer);
    let element = lambda_function_parameter_at(inp, c);
    let c1 = c.after(element);
    match element.value {
        None => c.fail(c1),
        Some(element) => {
            let items = before.push(element);
            let c2 = list_step_end(inp, c1, end, end, node);
            match list_step(inp, c1, end, end) {
                ListStep::Next => c.onward(
                    c2,
                    lambda_function_parameter_list_rest(inp, c2, closer, node, items),
                ),
                ListStep::End { trailing_comma } => c.done(c2, Elements { items, trailing_comma }),
                ListStep::Abandon => c.fail(c2),
            }
        },
    }
}

/// What [`lambda_function_parameter_list_rest_def`] defines, kept folded until
/// [`lemma_lambda_function_parameter_list_rest`] unfolds it.
#[verifier::opaque]
pub open spec fn lambda_function_parameter_list_rest(
    inp: Input,
    c: Cursor,
    closer: Punctuator,
    node: Node,
    before: Seq<LambdaFunctionParameterModel>,
) -> Parsed<Elements<LambdaFunctionParameterModel>>
    decreases inp.remaining(c), 32int, 1int,
{
    lambda_function_parameter_list_rest_def(inp, c, closer, node, before)
}

/// [`lambda_function_parameter_list_rest`] is what [`lambda_function_parameter_list_rest_def`]
/// defines.
pub proof fn lemma_lambda_function_parameter_list_rest(
    inp: Input,
    c: Cursor,
    closer: Punctuator,
    node: Node,
    before: Seq<LambdaFunctionParameterModel>,
)
    ensures
        lambda_function_parameter_list_rest(
            inp,
            c,
            closer,
            node,
            before,
        ) == lambda_function_parameter_list_rest_def(inp, c, closer, node, before),
{
    reveal_with_fuel(lambda_function_parameter_list_rest, 1);
}

/// A list of parameters of a lambda up to the closing token `closer`, which is not
/// consumed.
pub open spec fn lambda_function_parameter_list_at_def(
    inp: Input,
    c: Cursor,
    closer: Punctuator,
    node: Node,
) -> Parsed<Elements<LambdaFunctionParameterModel>>
    decreases inp.remaining(c), 33int, 0int,
{
    if inp.at(c, closer) {
        c.done(c, Elements { items: Seq::empty(), trailing_comma: false })
    } else {
        lambda_function_parameter_list_rest(inp, c, closer, node, Seq::empty())
    }
}

/// What [`lambda_function_parameter_list_at_def`] defines, kept folded until
/// [`lemma_lambda_function_parameter_list_at`] unfolds it.
#[verifier::opaque]
pub open spec fn lambda_function_parameter_list_at(
    inp: Input,
    c: Cursor,
    closer: Punctuator,
    node: Node,
) -> Parsed<Elements<LambdaFunctionParameterModel>>
    decreases inp.remaining(c), 33int, 1int,
{
    lambda_function_parameter_list_at_def(inp, c, closer, node)
}

/// [`lambda_function_parameter_list_at`] is what [`lambda_function_parameter_list_at_def`] defines.
pub proof fn lemma_lambda_function_parameter_list_at(
    inp: Input,
    c: Cursor,
    closer: Punctuator,
    node: Node,
)
    ensures
        lambda_function_parameter_list_at(
            inp,
            c,
            closer,
            node,
        ) == lambda_function_parameter_list_at_def(inp, c, closer, node),
{
    reveal_with_fuel(lambda_function_parameter_list_at, 1);
}

/// The statements of a block after those in `before`, up to the closing
/// brace, which is not consumed; the end of the file before it is reported.
///
/// A statement that cannot be read is left out: reading goes on after its
/// end, which is after the next `;` or before the next `}`.
pub open spec fn block_rest_def(inp: Input, c: Cursor, before: Seq<StatementModel>) -> Parsed<
    Seq<StatementModel>,
>
    decreases inp.remaining(c), 41int, 0int,
{
    let raw = inp.peek(c).raw;
    if raw == RawToken::Punctuator(Punctuator::CloseBrace) {
        c.done(c, before)
    } else if raw == RawToken::EndOfFile {
        c.fail(
            c.unexpected(inp, Expected::Punctuator(Punctuator::CloseBrace), Node::StatementsBlock)
        )
    } else {
        let statement = statement_at(inp, c);
        let c1 = c.after(statement);
        if statement.ok() && c1.pos > c.pos {
            c.onward(c1, block_rest(inp, c1, before.push(statement.value->0)))
        } else {
            let c2 = recover_statement(inp, c.pos, c1);
            c.onward(c2, block_rest(inp, c2, before))
        }
    }
}

/// What [`block_rest_def`] defines, kept folded until [`lemma_block_rest`] unfolds it.
#[verifier::opaque]
pub open spec fn block_rest(inp: Input, c: Cursor, before: Seq<StatementModel>) -> Parsed<
    Seq<StatementModel>,
>
    decreases inp.remaining(c), 41int, 1int,
{
    block_rest_def(inp, c, before)
}

/// [`block_rest`] is what [`block_rest_def`] defines.
pub proof fn lemma_block_rest(inp: Input, c: Cursor, before: Seq<StatementModel>)
    ensures
        block_rest(inp, c, before) == block_rest_def(inp, c, before),
{
    reveal_with_fuel(block_rest, 1);
}

/// A block: `{`, statements and `}`.
pub open spec fn block_at_def(inp: Input, c: Cursor) -> Parsed<Seq<StatementModel>>
    decreases inp.remaining(c), 10int, 0int,
{
    if !inp.at(c, Punctuator::OpenBrace) {
        c.fail(
            c.unexpected(inp, Expected::Punctuator(Punctuator::OpenBrace), Node::StatementsBlock)
        )
    } else {
        let c1 = c.bump(inp);
        let statements = block_rest(inp, c1, Seq::empty());
        let c2 = c1.after(statements);
        match statements.value {
            None => c.fail(c2),
            Some(statements) => c.done(c2.bump(inp), statements),
        }
    }
}

/// What [`block_at_def`] defines, kept folded until [`lemma_block_at`] unfolds it.
#[verifier::opaque]
pub open spec fn block_at(inp: Input, c: Cursor) -> Parsed<Seq<StatementModel>>
    decreases inp.remaining(c), 10int, 1int,
{
    block_at_def(inp, c)
}

/// [`block_at`] is what [`block_at_def`] defines.
pub proof fn lemma_block_at(inp: Input, c: Cursor)
    ensures
        block_at(inp, c) == block_at_def(inp, c),
{
    reveal_with_fuel(block_at, 1);
}

/// A statement that begins with `defer` or `return`: the keyword, an
/// expression and `;`.
pub open spec fn keyword_statement_at_def(inp: Input, c: Cursor) -> Parsed<StatementModel>
    decreases inp.remaining(c), 35int, 0int,
{
    let raw = inp.peek(c).raw;
    if raw != RawToken::Keyword(Keyword::Defer) && raw != RawToken::Keyword(Keyword::Return) {
        c.fail(c)
    } else {
        let c1 = c.bump(inp);
        let expression = expression_at(inp, c1, 0, true);
        let c2 = c1.after(expression);
        let end = punctuator_at(inp, c2, Punctuator::Semicolon, Node::Statement);
        let c3 = c2.after(end);
        match expression.value {
            None => c.fail(c2),
            Some(expression) => if !end.ok() {
                c.fail(c3)
            } else if raw == RawToken::Keyword(Keyword::Defer) {
                c.done(c3, StatementModel::Defer { call: expression })
            } else {
                c.done(c3, StatementModel::Return { expression })
            },
        }
    }
}

/// What [`keyword_statement_at_def`] defines, kept folded until [`lemma_keyword_statement_at`]
/// unfolds it.
#[verifier::opaque]
pub open spec fn keyword_statement_at(inp: Input, c: Cursor) -> Parsed<StatementModel>
    decreases inp.remaining(c), 35int, 1int,
{
    keyword_statement_at_def(inp, c)
}

/// [`keyword_statement_at`] is what [`keyword_statement_at_def`] defines.
pub proof fn lemma_keyword_statement_at(inp: Input, c: Cursor)
    ensures
        keyword_statement_at(inp, c) == keyword_statement_at_def(inp, c),
{
    reveal_with_fuel(keyword_statement_at, 1);
}

/// `break;` or `continue;`.
pub open spec fn jump_statement_at_def(inp: Input, c: Cursor) -> Parsed<StatementModel>
{
    let raw = inp.peek(c).raw;
    let span = inp.peek(c).span;
    let c1 = c.bump(inp);
    let end = punctuator_at(inp, c1, Punctuator::Semicolon, Node::Statement);
    let c2 = c1.after(end);
    if raw != RawToken::Keyword(Keyword::Break) && raw != RawToken::Keyword(Keyword::Continue) {
        c.fail(c)
    } else if !end.ok() {
        c.fail(c2)
    } else if raw == RawToken::Keyword(Keyword::Break) {
        c.done(c2, StatementModel::Break { span })
    } else {
        c.done(c2, StatementModel::Continue { span })
    }
}

/// What [`jump_statement_at_def`] defines, kept folded until [`lemma_jump_statement_at`] unfolds
/// it.
#[verifier::opaque]
pub open spec fn jump_statement_at(inp: Input, c: Cursor) -> Parsed<StatementModel>
{
    jump_statement_at_def(inp, c)
}

/// [`jump_statement_at`] is what [`jump_statement_at_def`] defines.
pub proof fn lemma_jump_statement_at(inp: Input, c: Cursor)
    ensures
        jump_statement_at(inp, c) == jump_statement_at_def(inp, c),
{
    reveal(jump_statement_at);
}

/// The value of a `let` and what follows it: `=`, an expression and `;`.
/// The pattern and the type of the `let` are given.
pub open spec fn let_value_at_def(
    inp: Input,
    c: Cursor,
    pattern: crate::model::PatternModel,
    ty: Option<crate::model::TypeModel>,
) -> Parsed<StatementModel>
    decreases inp.remaining(c), 31int, 0int,
{
    let eq = punctuator_at(inp, c, Punctuator::Eq, Node::LetStatement);
    let c1 = c.after(eq);
    let value = expression_at(inp, c1, 0, true);
    let c2 = c1.after(value);
    let end = punctuator_at(inp, c2, Punctuator::Semicolon, Node::LetStatement);
    let c3 = c2.after(end);
    if !eq.ok() {
        c.fail(c1)
    } else {
        match value.value {
            None => c.fail(c2),
            Some(value) => if !end.ok() {
                c.fail(c3)
            } else {
                c.done(c3, StatementModel::Let { pattern, value, ty })
            },
        }
    }
}

/// What [`let_value_at_def`] defines, kept folded until [`lemma_let_value_at`] unfolds it.
#[verifier::opaque]
pub open spec fn let_value_at(
    inp: Input,
    c: Cursor,
    pattern: crate::model::PatternModel,
    ty: Option<crate::model::TypeModel>,
) -> Parsed<StatementModel>
    decreases inp.remaining(c), 31int, 1int,
{
    let_value_at_def(inp, c, pattern, ty)
}

/// [`let_value_at`] is what [`let_value_at_def`] defines.
pub proof fn lemma_let_value_at(
    inp: Input,
    c: Cursor,
    pattern: crate::model::PatternModel,
    ty: Option<crate::model::TypeModel>,
)
    ensures
        let_value_at(inp, c, pattern, ty) == let_value_at_def(inp, c, pattern, ty),
{
    reveal_with_fuel(let_value_at, 1);
}

/// A `let`: the keyword, a pattern, `:` and a type where they follow, `=`,
/// an expression and `;`.
pub open spec fn let_statement_at_def(inp: Input, c: Cursor) -> Parsed<StatementModel>
    decreases inp.remaining(c), 35int, 0int,
{
    if inp.peek(c).raw != RawToken::Keyword(Keyword::Let) {
        c.fail(c)
    } else {
        let c1 = c.bump(inp);
        let pattern = pattern_at(inp, c1);
        let c2 = c1.after(pattern);
        match pattern.value {
            None => c.fail(c2),
            Some(pattern) => if inp.at(c2, Punctuator::Colon) {
                let c3 = c2.bump(inp);
                let ty = type_at(inp, c3);
                let c4 = c3.after(ty);
                match ty.value {
                    None => c.fail(c4),
                    Some(ty) => c.onward(c4, let_value_at(inp, c4, pattern, Some(ty))),
                }
            } else {
                c.onward(c2, let_value_at(inp, c2, pattern, None))
            },
        }
    }
}

/// What [`let_statement_at_def`] defines, kept folded until [`lemma_let_statement_at`] unfolds it.
#[verifier::opaque]
pub open spec fn let_statement_at(inp: Input, c: Cursor) -> Parsed<StatementModel>
    decreases inp.remaining(c), 35int, 1int,
{
    let_statement_at_def(inp, c)
}

/// [`let_statement_at`] is what [`let_statement_at_def`] defines.
pub proof fn lemma_let_statement_at(inp: Input, c: Cursor)
    ensures
        let_statement_at(inp, c) == let_statement_at_def(inp, c),
{
    reveal_with_fuel(let_statement_at, 1);
}

/// A statement that is an expression. After the expression comes `;`,
/// which may be left out before `}` and after an expression that ends with
/// a block of its own. Any other token is reported.
pub open spec fn expression_statement_at_def(inp: Input, c: Cursor) -> Parsed<StatementModel>
    decreases inp.remaining(c), 31int, 0int,
{
    let expression = expression_at(inp, c, 0, true);
    let c1 = c.after(expression);
    match expression.value {
        None => c.fail(c1),
        Some(expression) => if inp.at(c1, Punctuator::Semicolon) {
            c.done(c1.bump(inp), StatementModel::Expression { expression, has_semicolon: true })
        } else if inp.at(c1, Punctuator::CloseBrace) || expression.with_block() {
            c.done(c1, StatementModel::Expression { expression, has_semicolon: false })
        } else {
            c.fail(c1.unexpected(inp, Expected::SemicolonOrCloseBrace, Node::Statement))
        },
    }
}

/// What [`expression_statement_at_def`] defines, kept folded until
/// [`lemma_expression_statement_at`] unfolds it.
#[verifier::opaque]
pub open spec fn expression_statement_at(inp: Input, c: Cursor) -> Parsed<StatementModel>
    decreases inp.remaining(c), 31int, 1int,
{
    expression_statement_at_def(inp, c)
}

/// [`expression_statement_at`] is what [`expression_statement_at_def`] defines.
pub proof fn lemma_expression_statement_at(inp: Input, c: Cursor)
    ensures
        expression_statement_at(inp, c) == expression_statement_at_def(inp, c),
{
    reveal_with_fuel(expression_statement_at, 1);
}

/// A statement. The first token decides: `defer`, `return`, `break`,
/// `continue` and `let` begin the statements of their names, and any other
/// token a statement that is an expression.
pub open spec fn statement_at_def(inp: Input, c: Cursor) -> Parsed<StatementModel>
    decreases inp.remaining(c), 40int, 0int,
{
    let raw = inp.peek(c).raw;
    if raw == RawToken::Keyword(Keyword::Defer) || raw == RawToken::Keyword(Keyword::Return) {
        keyword_statement_at(inp, c)
    } else if raw == RawToken::Keyword(Keyword::Break) || raw == RawToken::Keyword(
        Keyword::Continue,
    ) {
        jump_statement_at(inp, c)
    } else if raw == RawToken::Keyword(Keyword::Let) {
        let_statement_at(inp, c)
    } else {
        expression_statement_at(inp, c)
    }
}

/// What [`statement_at_def`] defines, kept folded until [`lemma_statement_at`] unfolds it.
#[verifier::opaque]
pub open spec fn statement_at(inp: Input, c: Cursor) -> Parsed<StatementModel>
    decreases inp.remaining(c), 40int, 1int,
{
    statement_at_def(inp, c)
}

/// [`statement_at`] is what [`statement_at_def`] defines.
pub proof fn lemma_statement_at(inp: Input, c: Cursor)
    ensures
        statement_at(inp, c) == statement_at_def(inp, c),
{
    reveal_with_fuel(statement_at, 1);
}

/// A condition and its block: an expression in which no struct expression
/// stands unless in parentheses, and a block.
pub open spec fn condition_block_at_def(inp: Input, c: Cursor) -> Parsed<
    (ExpressionModel, Seq<StatementModel>),
>
    decreases inp.remaining(c), 31int, 0int,
{
    let condition = expression_at(inp, c, 0, false);
    let c1 = c.after(condition);
    match condition.value {
        None => c.fail(c1),
        Some(condition) => {
            let block = block_at(inp, c1);
            let c2 = c1.after(block);
            match block.value {
                None => c.fail(c2),
                Some(block) => c.done(c2, (condition, block)),
            }
        },
    }
}

/// What [`condition_block_at_def`] defines, kept folded until [`lemma_condition_block_at`] unfolds
/// it.
#[verifier::opaque]
pub open spec fn condition_block_at(inp: Input, c: Cursor) -> Parsed<
    (ExpressionModel, Seq<StatementModel>),
>
    decreases inp.remaining(c), 31int, 1int,
{
    condition_block_at_def(inp, c)
}

/// [`condition_block_at`] is what [`condition_block_at_def`] defines.
pub proof fn lemma_condition_block_at(inp: Input, c: Cursor)
    ensures
        condition_block_at(inp, c) == condition_block_at_def(inp, c),
{
    reveal_with_fuel(condition_block_at, 1);
}

/// The rest of an `if` that began at `start`, after the conditions and
/// blocks in `before`: as long as `else if` follows, a condition and a
/// block follow it; after an `else` alone the last block follows.
pub open spec fn if_rest_def(
    inp: Input,
    c: Cursor,
    start: crate::span::Span,
    before: Seq<(ExpressionModel, Seq<StatementModel>)>,
) -> Parsed<ExpressionModel>
    decreases inp.remaining(c), 35int, 0int,
{
    if inp.peek(c).raw != RawToken::Keyword(Keyword::Else) {
        c.done(
            c,
            ExpressionModel::If {
                span: inp.span_from(start, c),
                if_blocks: before,
                otherwise: None,
            },
        )
    } else {
        let c1 = c.bump(inp);
        if inp.peek(c1).raw == RawToken::Keyword(Keyword::If) {
            let c2 = c1.bump(inp);
            let pair = condition_block_at(inp, c2);
            let c3 = c2.after(pair);
            match pair.value {
                None => c.fail(c3),
                Some(pair) => c.onward(c3, if_rest(inp, c3, start, before.push(pair))),
            }
        } else {
            let block = block_at(inp, c1);
            let c2 = c1.after(block);
            match block.value {
                None => c.fail(c2),
                Some(block) => c.done(
                    c2,
                    ExpressionModel::If {
                        span: inp.span_from(start, c2),
                        if_blocks: before,
                        otherwise: Some(block),
                    },
                ),
            }
        }
    }
}

/// What [`if_rest_def`] defines, kept folded until [`lemma_if_rest`] unfolds it.
#[verifier::opaque]
pub open spec fn if_rest(
    inp: Input,
    c: Cursor,
    start: crate::span::Span,
    before: Seq<(ExpressionModel, Seq<StatementModel>)>,
) -> Parsed<ExpressionModel>
    decreases inp.remaining(c), 35int, 1int,
{
    if_rest_def(inp, c, start, before)
}

/// [`if_rest`] is what [`if_rest_def`] defines.
pub proof fn lemma_if_rest(
    inp: Input,
    c: Cursor,
    start: crate::span::Span,
    before: Seq<(ExpressionModel, Seq<StatementModel>)>,
)
    ensures
        if_rest(inp, c, start, before) == if_rest_def(inp, c, start, before),
{
    reveal_with_fuel(if_rest, 1);
}

/// An `if`; `c` stands at the keyword.
pub open spec fn if_at_def(inp: Input, c: Cursor) -> Parsed<ExpressionModel>
    decreases inp.remaining(c), 12int, 0int,
{
    if inp.peek(c).raw != RawToken::Keyword(Keyword::If) {
        c.fail(c)
    } else {
        let c1 = c.bump(inp);
        let pair = condition_block_at(inp, c1);
        let c2 = c1.after(pair);
        match pair.value {
            None => c.fail(c2),
            Some(pair) => c.onward(c2, if_rest(inp, c2, inp.peek(c).span, seq![pair])),
        }
    }
}

/// What [`if_at_def`] defines, kept folded until [`lemma_if_at`] unfolds it.
#[verifier::opaque]
pub open spec fn if_at(inp: Input, c: Cursor) -> Parsed<ExpressionModel>
    decreases inp.remaining(c), 12int, 1int,
{
    if_at_def(inp, c)
}

/// [`if_at`] is what [`if_at_def`] defines.
pub proof fn lemma_if_at(inp: Input, c: Cursor)
    ensures
        if_at(inp, c) == if_at_def(inp, c),
{
    reveal_with_fuel(if_at, 1);
}

/// A `while`; `c` stands at the keyword.
pub open spec fn while_at_def(inp: Input, c: Cursor) -> Parsed<ExpressionModel>
    decreases inp.remaining(c), 12int, 0int,
{
    if inp.peek(c).raw != RawToken::Keyword(Keyword::While) {
        c.fail(c)
    } else {
        let c1 = c.bump(inp);
        let pair = condition_block_at(inp, c1);
        let c2 = c1.after(pair);
        match pair.value {
            None => c.fail(c2),
            Some(pair) => c.done(
                c2,
                ExpressionModel::While {
                    span: inp.span_from(inp.peek(c).span, c2),
                    condition: Box::new(pair.0),
                    body: pair.1,
                },
            ),
        }
    }
}

/// What [`while_at_def`] defines, kept folded until [`lemma_while_at`] unfolds it.
#[verifier::opaque]
pub open spec fn while_at(inp: Input, c: Cursor) -> Parsed<ExpressionModel>
    decreases inp.remaining(c), 12int, 1int,
{
    while_at_def(inp, c)
}

/// [`while_at`] is what [`while_at_def`] defines.
pub proof fn lemma_while_at(inp: Input, c: Cursor)
    ensures
        while_at(inp, c) == while_at_def(inp, c),
{
    reveal_with_fuel(while_at, 1);
}

/// The arms of a `match` that began at `start` with `expression`: `{`, the
/// arms separated by commas, and `}`.
pub open spec fn match_block_at_def(
    inp: Input,
    c: Cursor,
    start: crate::span::Span,
    expression: ExpressionModel,
) -> Parsed<ExpressionModel>
    decreases inp.remaining(c), 34int, 0int,
{
    let open = punctuator_at(inp, c, Punctuator::OpenBrace, Node::MatchExpression);
    let c1 = c.after(open);
    let arms = match_expression_item_list_at(
        inp,
        c1,
        Punctuator::CloseBrace,
        Node::MatchExpression,
    );
    let c2 = c1.after(arms);
    let c3 = c2.bump(inp);
    if !open.ok() {
        c.fail(c1)
    } else {
        match arms.value {
            None => c.fail(c2),
            Some(arms) => c.done(
                c3,
                ExpressionModel::Match {
                    span: inp.span_from(start, c3),
                    expression: Box::new(expression),
                    block: arms.items,
                },
            ),
        }
    }
}

/// What [`match_block_at_def`] defines, kept folded until [`lemma_match_block_at`] unfolds it.
#[verifier::opaque]
pub open spec fn match_block_at(
    inp: Input,
    c: Cursor,
    start: crate::span::Span,
    expression: ExpressionModel,
) -> Parsed<ExpressionModel>
    decreases inp.remaining(c), 34int, 1int,
{
    match_block_at_def(inp, c, start, expression)
}

/// [`match_block_at`] is what [`match_block_at_def`] defines.
pub proof fn lemma_match_block_at(
    inp: Input,
    c: Cursor,
    start: crate::span::Span,
    expression: ExpressionModel,
)
    ensures
        match_block_at(inp, c, start, expression) == match_block_at_def(inp, c, start, expression),
{
    reveal_with_fuel(match_block_at, 1);
}

/// A `match`; `c` stands at the keyword.
pub open spec fn match_at_def(inp: Input, c: Cursor) -> Parsed<ExpressionModel>
    decreases inp.remaining(c), 12int, 0int,
{
    if inp.peek(c).raw != RawToken::Keyword(Keyword::Match) {
        c.fail(c)
    } else {
        let c1 = c.bump(inp);
        let expression = expression_at(inp, c1, 0, false);
        let c2 = c1.after(expression);
        match expression.value {
            None => c.fail(c2),
            Some(expression) => c.onward(c2, match_block_at(inp, c2, inp.peek(c).span, expression)),
        }
    }
}

/// What [`match_at_def`] defines, kept folded until [`lemma_match_at`] unfolds it.
#[verifier::opaque]
pub open spec fn match_at(inp: Input, c: Cursor) -> Parsed<ExpressionModel>
    decreases inp.remaining(c), 12int, 1int,
{
    match_at_def(inp, c)
}

/// [`match_at`] is what [`match_at_def`] defines.
pub proof fn lemma_match_at(inp: Input, c: Cursor)
    ensures
        match_at(inp, c) == match_at_def(inp, c),
{
    reveal_with_fuel(match_at, 1);
}

/// The body of a lambda that began at `start` with `parameters`: `:` and
/// a return type where they follow, and a block.
pub open spec fn lambda_body_at_def(
    inp: Input,
    c: Cursor,
    start: crate::span::Span,
    parameters: Seq<LambdaFunctionParameterModel>,
) -> Parsed<ExpressionModel>
    decreases inp.remaining(c), 11int, 0int,
{
    let has_type = inp.at(c, Punctuator::Colon);
    let ty = type_at(inp, c.bump(inp));
    let c1 = if has_type {
        c.bump(inp).after(ty)
    } else {
        c
    };
    if has_type && !ty.ok() {
        c.fail(c1)
    } else {
        let block = block_at(inp, c1);
        let c2 = c1.after(block);
        match block.value {
            None => c.fail(c2),
            Some(block) => c.done(
                c2,
                ExpressionModel::Lambda {
                    span: inp.span_from(start, c2),
                    parameters,
                    return_type: if has_type {
                        ty.value
                    } else {
                        None
                    },
                    block,
                },
            ),
        }
    }
}

/// What [`lambda_body_at_def`] defines, kept folded until [`lemma_lambda_body_at`] unfolds it.
#[verifier::opaque]
pub open spec fn lambda_body_at(
    inp: Input,
    c: Cursor,
    start: crate::span::Span,
    parameters: Seq<LambdaFunctionParameterModel>,
) -> Parsed<ExpressionModel>
    decreases inp.remaining(c), 11int, 1int,
{
    lambda_body_at_def(inp, c, start, parameters)
}

/// [`lambda_body_at`] is what [`lambda_body_at_def`] defines.
pub proof fn lemma_lambda_body_at(
    inp: Input,
    c: Cursor,
    start: crate::span::Span,
    parameters: Seq<LambdaFunctionParameterModel>,
)
    ensures
        lambda_body_at(inp, c, start, parameters) == lambda_body_at_def(inp, c, start, parameters),
{
    reveal_with_fuel(lambda_body_at, 1);
}

/// A lambda; `c` stands at the first `|`. Parameters separated by commas
/// stand between two `|`.
pub open spec fn lambda_at_def(inp: Input, c: Cursor) -> Parsed<ExpressionModel>
    decreases inp.remaining(c), 12int, 0int,
{
    if !inp.at(c, Punctuator::Or) {
        c.fail(c)
    } else {
        let c1 = c.bump(inp);
        let parameters = lambda_function_parameter_list_at(
            inp,
            c1,
            Punctuator::Or,
            Node::Lambda,
        );
        let c2 = c1.after(parameters);
        let c3 = c2.bump(inp);
        match parameters.value {
            None => c.fail(c2),
            Some(parameters) => if c3.pos > c.pos {
                c.onward(c3, lambda_body_at(inp, c3, inp.peek(c).span, parameters.items))
            } else {
                c.fail(c3)
            },
        }
    }
}

/// What [`lambda_at_def`] defines, kept folded until [`lemma_lambda_at`] unfolds it.
#[verifier::opaque]
pub open spec fn lambda_at(inp: Input, c: Cursor) -> Parsed<ExpressionModel>
    decreases inp.remaining(c), 12int, 1int,
{
    lambda_at_def(inp, c)
}

/// [`lambda_at`] is what [`lambda_at_def`] defines.
pub proof fn lemma_lambda_at(inp: Input, c: Cursor)
    ensures
        lambda_at(inp, c) == lambda_at_def(inp, c),
{
    reveal_with_fuel(lambda_at, 1);
}

/// An operator before its operand; `c` stands at the operator. The operand
/// is an expression that binds at least as tightly as a prefix operator.
pub open spec fn prefix_operation_at_def(inp: Input, c: Cursor, allow_struct: bool) -> Parsed<
    ExpressionModel,
>
    decreases inp.remaining(c), 12int, 0int,
{
    let token = inp.peek(c);
    if !is_prefix_operator(token.raw) {
        c.fail(c)
    } else {
        let c1 = c.bump(inp);
        let inner = expression_at(inp, c1, Precedence::Prefix.spec_level() as int, allow_struct);
        let c2 = c1.after(inner);
        match inner.value {
            None => c.fail(c2),
            Some(inner) => c.done(
                c2,
                ExpressionModel::Prefix {
                    span: inp.span_from(token.span, c2),
                    inner: Box::new(inner),
                    operator: PrefixOperator {
                        span: token.span,
                        raw: prefix_operator_of(token.raw->Punctuator_0)->0,
                    },
                },
            ),
        }
    }
}

/// What [`prefix_operation_at_def`] defines, kept folded until [`lemma_prefix_operation_at`]
/// unfolds it.
#[verifier::opaque]
pub open spec fn prefix_operation_at(inp: Input, c: Cursor, allow_struct: bool) -> Parsed<
    ExpressionModel,
>
    decreases inp.remaining(c), 12int, 1int,
{
    prefix_operation_at_def(inp, c, allow_struct)
}

/// [`prefix_operation_at`] is what [`prefix_operation_at_def`] defines.
pub proof fn lemma_prefix_operation_at(inp: Input, c: Cursor, allow_struct: bool)
    ensures
        prefix_operation_at(inp, c, allow_struct) == prefix_operation_at_def(inp, c, allow_struct),
{
    reveal_with_fuel(prefix_operation_at, 1);
}

/// An expression in parentheses or a tuple; `c` stands at `(`. One
/// expression without a comma after it is an expression in parentheses,
/// and anything else a tuple.
pub open spec fn parenthesized_expression_at_def(inp: Input, c: Cursor) -> Parsed<ExpressionModel>
    decreases inp.remaining(c), 12int, 0int,
{
    if !inp.at(c, Punctuator::OpenParent) {
        c.fail(c)
    } else {
        let c1 = c.bump(inp);
        let elements = expression_list_at(
            inp,
            c1,
            Punctuator::CloseParent,
            Node::ParenthesizedOrTupleExpression,
        );
        let c2 = c1.after(elements);
        let c3 = c2.bump(inp);
        let span = inp.span_from(inp.peek(c).span, c3);
        match elements.value {
            None => c.fail(c2),
            Some(elements) => if elements.items.len() == 1 && !elements.trailing_comma {
                c.done(
                    c3,
                    ExpressionModel::Parenthesized { span, inner: Box::new(elements.items[0]) },
                )
            } else {
                c.done(c3, ExpressionModel::Tuple { span, elements: elements.items })
            },
        }
    }
}

/// What [`parenthesized_expression_at_def`] defines, kept folded until
/// [`lemma_parenthesized_expression_at`] unfolds it.
#[verifier::opaque]
pub open spec fn parenthesized_expression_at(inp: Input, c: Cursor) -> Parsed<ExpressionModel>
    decreases inp.remaining(c), 12int, 1int,
{
    parenthesized_expression_at_def(inp, c)
}

/// [`parenthesized_expression_at`] is what [`parenthesized_expression_at_def`] defines.
pub proof fn lemma_parenthesized_expression_at(inp: Input, c: Cursor)
    ensures
        parenthesized_expression_at(inp, c) == parenthesized_expression_at_def(inp, c),
{
    reveal_with_fuel(parenthesized_expression_at, 1);
}

/// A list; `c` stands at `[`.
pub open spec fn list_expression_at_def(inp: Input, c: Cursor) -> Parsed<ExpressionModel>
    decreases inp.remaining(c), 12int, 0int,
{
    if !inp.at(c, Punctuator::OpenBracket) {
        c.fail(c)
    } else {
        let c1 = c.bump(inp);
        let elements = expression_list_at(inp, c1, Punctuator::CloseBracket, Node::ListExpression);
        let c2 = c1.after(elements);
        let c3 = c2.bump(inp);
        match elements.value {
            None => c.fail(c2),
            Some(elements) => c.done(
                c3,
                ExpressionModel::List {
                    span: inp.span_from(inp.peek(c).span, c3),
                    elements: elements.items,
                },
            ),
        }
    }
}

/// What [`list_expression_at_def`] defines, kept folded until [`lemma_list_expression_at`] unfolds
/// it.
#[verifier::opaque]
pub open spec fn list_expression_at(inp: Input, c: Cursor) -> Parsed<ExpressionModel>
    decreases inp.remaining(c), 12int, 1int,
{
    list_expression_at_def(inp, c)
}

/// [`list_expression_at`] is what [`list_expression_at_def`] defines.
pub proof fn lemma_list_expression_at(inp: Input, c: Cursor)
    ensures
        list_expression_at(inp, c) == list_expression_at_def(inp, c),
{
    reveal_with_fuel(list_expression_at, 1);
}

/// A block that stands as an expression; `c` stands at `{`.
pub open spec fn block_expression_at_def(inp: Input, c: Cursor) -> Parsed<ExpressionModel>
    decreases inp.remaining(c), 11int, 0int,
{
    let block = block_at(inp, c);
    let c1 = c.after(block);
    match block.value {
        None => c.fail(c1),
        Some(block) => c.done(
            c1,
            ExpressionModel::StatementsBlock { span: inp.span_from(inp.peek(c).span, c1), block },
        ),
    }
}

/// What [`block_expression_at_def`] defines, kept folded until [`lemma_block_expression_at`]
/// unfolds it.
#[verifier::opaque]
pub open spec fn block_expression_at(inp: Input, c: Cursor) -> Parsed<ExpressionModel>
    decreases inp.remaining(c), 11int, 1int,
{
    block_expression_at_def(inp, c)
}

/// [`block_expression_at`] is what [`block_expression_at_def`] defines.
pub proof fn lemma_block_expression_at(inp: Input, c: Cursor)
    ensures
        block_expression_at(inp, c) == block_expression_at_def(inp, c),
{
    reveal_with_fuel(block_expression_at, 1);
}

/// An expression that no operator begins and that stands first in a longer
/// one. The first token decides: a literal, an identifier, an operator that
/// stands before its operand, `(`, `[`, `{`, `if`, `while`, `match` or `|`.
/// Any other token is reported, and nothing is consumed.
pub open spec fn prefix_at_def(inp: Input, c: Cursor, allow_struct: bool) -> Parsed<ExpressionModel>
    decreases inp.remaining(c), 20int, 0int,
{
    let token = inp.peek(c);
    if is_literal(token.raw) {
        let literal = literal_at(inp, c);
        let c1 = c.after(literal);
        match literal.value {
            None => c.fail(c1),
            Some(literal) => c.done(c1, ExpressionModel::Literal(literal)),
        }
    } else if is_prefix_operator(token.raw) {
        prefix_operation_at(inp, c, allow_struct)
    } else {
        match token.raw {
            RawToken::Identifier(symbol) => c.done(
                c.bump(inp),
                ExpressionModel::Identifier(
                    crate::ast::IdentifierAst { span: token.span, symbol },
                ),
            ),
            RawToken::Punctuator(Punctuator::OpenParent) => parenthesized_expression_at(inp, c),
            RawToken::Punctuator(Punctuator::OpenBracket) => list_expression_at(inp, c),
            RawToken::Punctuator(Punctuator::OpenBrace) => block_expression_at(inp, c),
            RawToken::Punctuator(Punctuator::Or) => lambda_at(inp, c),
            RawToken::Keyword(Keyword::If) => if_at(inp, c),
            RawToken::Keyword(Keyword::While) => while_at(inp, c),
            RawToken::Keyword(Keyword::Match) => match_at(inp, c),
            _ => c.fail(c.unexpected(inp, Expected::Expression, Node::Expression)),
        }
    }
}

/// What [`prefix_at_def`] defines, kept folded until [`lemma_prefix_at`] unfolds it.
#[verifier::opaque]
pub open spec fn prefix_at(inp: Input, c: Cursor, allow_struct: bool) -> Parsed<ExpressionModel>
    decreases inp.remaining(c), 20int, 1int,
{
    prefix_at_def(inp, c, allow_struct)
}

/// [`prefix_at`] is what [`prefix_at_def`] defines.
pub proof fn lemma_prefix_at(inp: Input, c: Cursor, allow_struct: bool)
    ensures
        prefix_at(inp, c, allow_struct) == prefix_at_def(inp, c, allow_struct),
{
    reveal_with_fuel(prefix_at, 1);
}

/// Two operands and the operator between them; `c` stands at the operator
/// and `left` is the operand before it. The operand after it is an
/// expression that binds more tightly than the operator.
pub open spec fn binary_at_def(
    inp: Input,
    c: Cursor,
    left: ExpressionModel,
    allow_struct: bool,
) -> Parsed<
    ExpressionModel,
>
    decreases inp.remaining(c), 12int, 0int,
{
    let token = inp.peek(c);
    if !infix_operator(token.raw) {
        c.fail(c)
    } else {
        let c1 = c.bump(inp);
        let right = expression_at(
            inp,
            c1,
            precedence_of(token.raw).spec_level() as int,
            allow_struct,
        );
        let c2 = c1.after(right);
        match right.value {
            None => c.fail(c2),
            Some(right) => c.done(
                c2,
                ExpressionModel::Binary {
                    span: inp.span_from(left.span(), c2),
                    left: Box::new(left),
                    operator: BinaryOperator {
                        span: token.span,
                        raw: binary_operator_of(token.raw->Punctuator_0)->0,
                    },
                    right: Box::new(right),
                },
            ),
        }
    }
}

/// What [`binary_at_def`] defines, kept folded until [`lemma_binary_at`] unfolds it.
#[verifier::opaque]
pub open spec fn binary_at(
    inp: Input,
    c: Cursor,
    left: ExpressionModel,
    allow_struct: bool,
) -> Parsed<
    ExpressionModel,
>
    decreases inp.remaining(c), 12int, 1int,
{
    binary_at_def(inp, c, left, allow_struct)
}

/// [`binary_at`] is what [`binary_at_def`] defines.
pub proof fn lemma_binary_at(inp: Input, c: Cursor, left: ExpressionModel, allow_struct: bool)
    ensures
        binary_at(inp, c, left, allow_struct) == binary_at_def(inp, c, left, allow_struct),
{
    reveal_with_fuel(binary_at, 1);
}

/// A call; `c` stands at `(` and `left` is what is called.
pub open spec fn call_at_def(
    inp: Input,
    c: Cursor,
    left: ExpressionModel,
) -> Parsed<ExpressionModel>
    decreases inp.remaining(c), 12int, 0int,
{
    if !inp.at(c, Punctuator::OpenParent) {
        c.fail(c)
    } else {
        let c1 = c.bump(inp);
        let arguments = expression_list_at(inp, c1, Punctuator::CloseParent, Node::CallArguments);
        let c2 = c1.after(arguments);
        let c3 = c2.bump(inp);
        match arguments.value {
            None => c.fail(c2),
            Some(arguments) => c.done(
                c3,
                ExpressionModel::Call {
                    span: inp.span_from(left.span(), c3),
                    left: Box::new(left),
                    arguments: arguments.items,
                },
            ),
        }
    }
}

/// What [`call_at_def`] defines, kept folded until [`lemma_call_at`] unfolds it.
#[verifier::opaque]
pub open spec fn call_at(inp: Input, c: Cursor, left: ExpressionModel) -> Parsed<ExpressionModel>
    decreases inp.remaining(c), 12int, 1int,
{
    call_at_def(inp, c, left)
}

/// [`call_at`] is what [`call_at_def`] defines.
pub proof fn lemma_call_at(inp: Input, c: Cursor, left: ExpressionModel)
    ensures
        call_at(inp, c, left) == call_at_def(inp, c, left),
{
    reveal_with_fuel(call_at, 1);
}

/// A struct expression; `c` stands at `{` and `left` names the struct.
pub open spec fn struct_expression_at_def(inp: Input, c: Cursor, left: ExpressionModel) -> Parsed<
    ExpressionModel,
>
    decreases inp.remaining(c), 12int, 0int,
{
    if !inp.at(c, Punctuator::OpenBrace) {
        c.fail(c)
    } else {
        let c1 = c.bump(inp);
        let fields = struct_expression_item_list_at(
            inp,
            c1,
            Punctuator::CloseBrace,
            Node::StructExpression,
        );
        let c2 = c1.after(fields);
        let c3 = c2.bump(inp);
        match fields.value {
            None => c.fail(c2),
            Some(fields) => c.done(
                c3,
                ExpressionModel::Struct {
                    span: inp.span_from(left.span(), c3),
                    left: Box::new(left),
                    fields: fields.items,
                },
            ),
        }
    }
}

/// What [`struct_expression_at_def`] defines, kept folded until [`lemma_struct_expression_at`]
/// unfolds it.
#[verifier::opaque]
pub open spec fn struct_expression_at(inp: Input, c: Cursor, left: ExpressionModel) -> Parsed<
    ExpressionModel,
>
    decreases inp.remaining(c), 12int, 1int,
{
    struct_expression_at_def(inp, c, left)
}

/// [`struct_expression_at`] is what [`struct_expression_at_def`] defines.
pub proof fn lemma_struct_expression_at(inp: Input, c: Cursor, left: ExpressionModel)
    ensures
        struct_expression_at(inp, c, left) == struct_expression_at_def(inp, c, left),
{
    reveal_with_fuel(struct_expression_at, 1);
}

/// What follows an operand without a further expression: `.` and the name
/// of a field, generic arguments in brackets, an operator that stands
/// after its operand, or `as` and a type. `c` stands at the first token of
/// these and `left` is the operand.
pub open spec fn suffix_at_def(
    inp: Input,
    c: Cursor,
    left: ExpressionModel,
) -> Parsed<ExpressionModel>
{
    let token = inp.peek(c);
    let c1 = c.bump(inp);
    if token.raw == RawToken::Punctuator(Punctuator::Dot) {
        let name = identifier_at(inp, c1, Node::FieldAccess);
        let c2 = c1.after(name);
        match name.value {
            None => c.fail(c2),
            Some(right) => c.done(
                c2,
                ExpressionModel::FieldAccess {
                    span: inp.span_from(left.span(), c2),
                    left: Box::new(left),
                    right,
                },
            ),
        }
    } else if token.raw == RawToken::Punctuator(Punctuator::OpenBracket) {
        let arguments = generic_arguments_at(inp, c);
        let c2 = c.after(arguments);
        match arguments.value {
            None => c.fail(c2),
            Some(generic_arguments) => c.done(
                c2,
                ExpressionModel::GenericArguments {
                    span: inp.span_from(left.span(), c2),
                    left: Box::new(left),
                    generic_arguments,
                },
            ),
        }
    } else if is_postfix_operator(token.raw) {
        c.done(
            c1,
            ExpressionModel::Postfix {
                span: inp.span_from(left.span(), c1),
                inner: Box::new(left),
                operator: PostfixOperator {
                    span: token.span,
                    raw: postfix_operator_of(token.raw->Punctuator_0)->0,
                },
            },
        )
    } else if token.raw == RawToken::Keyword(Keyword::As) {
        let ty = type_at(inp, c1);
        let c2 = c1.after(ty);
        match ty.value {
            None => c.fail(c2),
            Some(right) => c.done(
                c2,
                ExpressionModel::As {
                    span: inp.span_from(left.span(), c2),
                    left: Box::new(left),
                    right,
                },
            ),
        }
    } else {
        c.fail(c)
    }
}

/// What [`suffix_at_def`] defines, kept folded until [`lemma_suffix_at`] unfolds it.
#[verifier::opaque]
pub open spec fn suffix_at(inp: Input, c: Cursor, left: ExpressionModel) -> Parsed<ExpressionModel>
{
    suffix_at_def(inp, c, left)
}

/// [`suffix_at`] is what [`suffix_at_def`] defines.
pub proof fn lemma_suffix_at(inp: Input, c: Cursor, left: ExpressionModel)
    ensures
        suffix_at(inp, c, left) == suffix_at_def(inp, c, left),
{
    reveal(suffix_at);
}

/// One step of an expression after the operand `left`; `c` stands at a
/// token that continues an expression. An operator between two operands
/// takes the expression after it; `(` begins a call and `{` a struct
/// expression; any other token is a suffix of the operand.
pub open spec fn infix_step_at_def(
    inp: Input,
    c: Cursor,
    left: ExpressionModel,
    allow_struct: bool,
) -> Parsed<
    ExpressionModel,
>
    decreases inp.remaining(c), 20int, 0int,
{
    let raw = inp.peek(c).raw;
    if infix_operator(raw) {
        binary_at(inp, c, left, allow_struct)
    } else if raw == RawToken::Punctuator(Punctuator::OpenParent) {
        call_at(inp, c, left)
    } else if raw == RawToken::Punctuator(Punctuator::OpenBrace) {
        struct_expression_at(inp, c, left)
    } else {
        suffix_at(inp, c, left)
    }
}

/// What [`infix_step_at_def`] defines, kept folded until [`lemma_infix_step_at`] unfolds it.
#[verifier::opaque]
pub open spec fn infix_step_at(
    inp: Input,
    c: Cursor,
    left: ExpressionModel,
    allow_struct: bool,
) -> Parsed<
    ExpressionModel,
>
    decreases inp.remaining(c), 20int, 1int,
{
    infix_step_at_def(inp, c, left, allow_struct)
}

/// [`infix_step_at`] is what [`infix_step_at_def`] defines.
pub proof fn lemma_infix_step_at(inp: Input, c: Cursor, left: ExpressionModel, allow_struct: bool)
    ensures
        infix_step_at(inp, c, left, allow_struct) == infix_step_at_def(inp, c, left, allow_struct),
{
    reveal_with_fuel(infix_step_at, 1);
}

/// Whether the expression goes on at the next token when only what binds
/// more tightly than `min` may follow: the token must bind more tightly
/// than `min`, and `{` goes on only where a struct expression may stand.
pub open spec fn continues(inp: Input, c: Cursor, min: int, allow_struct: bool) -> bool {
    let raw = inp.peek(c).raw;
    raw != RawToken::EndOfFile && min < precedence_of(raw).spec_level() && (allow_struct || raw
        != RawToken::Punctuator(Punctuator::OpenBrace))
}

/// The rest of an expression after the operand `left`: as long as the next
/// token continues the expression, one step is taken, and its result is
/// the operand of the next step.
pub open spec fn infix_rest_def(
    inp: Input,
    c: Cursor,
    left: ExpressionModel,
    min: int,
    allow_struct: bool,
) -> Parsed<ExpressionModel>
    decreases inp.remaining(c), 21int, 0int,
{
    if !continues(inp, c, min, allow_struct) {
        c.done(c, left)
    } else {
        let step = infix_step_at(inp, c, left, allow_struct);
        let c1 = c.after(step);
        match step.value {
            None => c.fail(c1),
            Some(operand) => if c1.pos > c.pos {
                c.onward(c1, infix_rest(inp, c1, operand, min, allow_struct))
            } else {
                c.done(c1, operand)
            },
        }
    }
}

/// What [`infix_rest_def`] defines, kept folded until [`lemma_infix_rest`] unfolds it.
#[verifier::opaque]
pub open spec fn infix_rest(
    inp: Input,
    c: Cursor,
    left: ExpressionModel,
    min: int,
    allow_struct: bool,
) -> Parsed<ExpressionModel>
    decreases inp.remaining(c), 21int, 1int,
{
    infix_rest_def(inp, c, left, min, allow_struct)
}

/// [`infix_rest`] is what [`infix_rest_def`] defines.
pub proof fn lemma_infix_rest(
    inp: Input,
    c: Cursor,
    left: ExpressionModel,
    min: int,
    allow_struct: bool,
)
    ensures
        infix_rest(
            inp,
            c,
            left,
            min,
            allow_struct,
        ) == infix_rest_def(inp, c, left, min, allow_struct),
{
    reveal_with_fuel(infix_rest, 1);
}

/// An expression in which only operators that bind more tightly than `min`
/// stand outside parentheses. Where `allow_struct` is false, no struct
/// expression stands outside parentheses either.
pub open spec fn expression_at_def(inp: Input, c: Cursor, min: int, allow_struct: bool) -> Parsed<
    ExpressionModel,
>
    decreases inp.remaining(c), 30int, 0int,
{
    let first = prefix_at(inp, c, allow_struct);
    let c1 = c.after(first);
    match first.value {
        None => c.fail(c1),
        Some(first) => c.onward(c1, infix_rest(inp, c1, first, min, allow_struct)),
    }
}

/// What [`expression_at_def`] defines, kept folded until [`lemma_expression_at`] unfolds it.
#[verifier::opaque]
pub open spec fn expression_at(inp: Input, c: Cursor, min: int, allow_struct: bool) -> Parsed<
    ExpressionModel,
>
    decreases inp.remaining(c), 30int, 1int,
{
    expression_at_def(inp, c, min, allow_struct)
}

/// [`expression_at`] is what [`expression_at_def`] defines.
pub proof fn lemma_expression_at(inp: Input, c: Cursor, min: int, allow_struct: bool)
    ensures
        expression_at(inp, c, min, allow_struct) == expression_at_def(inp, c, min, allow_struct),
{
    reveal_with_fuel(expression_at, 1);
}

} // verus!
