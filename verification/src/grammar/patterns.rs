//! Literals and patterns.

use crate::diagnostics::{Expected, Node};
use crate::grammar::cursor::{
    identifier_at, list_step, list_step_end, path_at, Cursor, Elements, Input, ListStep, Parsed,
};
use crate::model::{LiteralModel, PatternModel, StructFieldPatternModel};
use crate::token::{Keyword, Punctuator, RawToken};
use vstd::prelude::*;

verus! {

/// Whether a token is a literal: a number with or without a fraction, a
/// string, a character, `true` or `false`.
pub open spec fn is_literal(raw: RawToken) -> bool {
    raw is IntegerLiteral
        || raw is FloatLiteral
        || raw is StringLiteral
        || raw is CharLiteral
        || raw == RawToken::Keyword(Keyword::True)
        || raw == RawToken::Keyword(Keyword::False)
}

/// A literal: one token, whose span is the span of the literal. A token
/// that is no literal is not consumed.
pub open spec fn literal_at_def(inp: Input, c: Cursor) -> Parsed<LiteralModel>
{
    let span = inp.peek(c).span;
    let c1 = c.bump(inp);
    match inp.peek(c).raw {
        RawToken::IntegerLiteral(value) => c.done(c1, LiteralModel::Integer { value, span }),
        RawToken::FloatLiteral(symbol) => c.done(
            c1,
            LiteralModel::Float { value: inp.text(symbol), span },
        ),
        RawToken::StringLiteral(symbol) => c.done(
            c1,
            LiteralModel::String { value: inp.text(symbol), span },
        ),
        RawToken::CharLiteral(value) => c.done(c1, LiteralModel::Character { value, span }),
        RawToken::Keyword(Keyword::True) => c.done(
            c1,
            LiteralModel::Boolean { value: true, span },
        ),
        RawToken::Keyword(Keyword::False) => c.done(
            c1,
            LiteralModel::Boolean { value: false, span },
        ),
        _ => c.fail(c),
    }
}

/// What [`literal_at_def`] defines, kept folded until [`lemma_literal_at`] unfolds it.
#[verifier::opaque]
pub open spec fn literal_at(inp: Input, c: Cursor) -> Parsed<LiteralModel>
{
    literal_at_def(inp, c)
}

/// [`literal_at`] is what [`literal_at_def`] defines.
pub proof fn lemma_literal_at(inp: Input, c: Cursor)
    ensures
        literal_at(inp, c) == literal_at_def(inp, c),
{
    reveal(literal_at);
}

/// The rest of a list of patterns after those in `before`; `c` stands at
/// the first token of the next one. After each comes a comma or the closing
/// token `closer`, and a comma may stand before the closing token, which is
/// not consumed. Any other token is reported; the list then ends at the next
/// closing token, and fails where there is none before the end of the file.
pub open spec fn pattern_list_rest_def(
    inp: Input,
    c: Cursor,
    closer: Punctuator,
    node: Node,
    before: Seq<PatternModel>,
) -> Parsed<Elements<PatternModel>>
    decreases inp.remaining(c), 26int, 0int,
{
    let end = RawToken::Punctuator(closer);
    let element = pattern_at(inp, c);
    let c1 = c.after(element);
    match element.value {
        None => c.fail(c1),
        Some(element) => {
            let items = before.push(element);
            let c2 = list_step_end(inp, c1, end, end, node);
            match list_step(inp, c1, end, end) {
                ListStep::Next => c.onward(
                    c2,
                    pattern_list_rest(inp, c2, closer, node, items),
                ),
                ListStep::End { trailing_comma } => c.done(c2, Elements { items, trailing_comma }),
                ListStep::Abandon => c.fail(c2),
            }
        },
    }
}

/// What [`pattern_list_rest_def`] defines, kept folded until [`lemma_pattern_list_rest`] unfolds
/// it.
#[verifier::opaque]
pub open spec fn pattern_list_rest(
    inp: Input,
    c: Cursor,
    closer: Punctuator,
    node: Node,
    before: Seq<PatternModel>,
) -> Parsed<Elements<PatternModel>>
    decreases inp.remaining(c), 26int, 1int,
{
    pattern_list_rest_def(inp, c, closer, node, before)
}

/// [`pattern_list_rest`] is what [`pattern_list_rest_def`] defines.
pub proof fn lemma_pattern_list_rest(
    inp: Input,
    c: Cursor,
    closer: Punctuator,
    node: Node,
    before: Seq<PatternModel>,
)
    ensures
        pattern_list_rest(
            inp,
            c,
            closer,
            node,
            before,
        ) == pattern_list_rest_def(inp, c, closer, node, before),
{
    reveal_with_fuel(pattern_list_rest, 1);
}

/// A list of patterns up to the closing token `closer`, which is not
/// consumed.
pub open spec fn pattern_list_at_def(
    inp: Input,
    c: Cursor,
    closer: Punctuator,
    node: Node,
) -> Parsed<Elements<PatternModel>>
    decreases inp.remaining(c), 27int, 0int,
{
    if inp.at(c, closer) {
        c.done(c, Elements { items: Seq::empty(), trailing_comma: false })
    } else {
        pattern_list_rest(inp, c, closer, node, Seq::empty())
    }
}

/// What [`pattern_list_at_def`] defines, kept folded until [`lemma_pattern_list_at`] unfolds it.
#[verifier::opaque]
pub open spec fn pattern_list_at(
    inp: Input,
    c: Cursor,
    closer: Punctuator,
    node: Node,
) -> Parsed<Elements<PatternModel>>
    decreases inp.remaining(c), 27int, 1int,
{
    pattern_list_at_def(inp, c, closer, node)
}

/// [`pattern_list_at`] is what [`pattern_list_at_def`] defines.
pub proof fn lemma_pattern_list_at(inp: Input, c: Cursor, closer: Punctuator, node: Node)
    ensures
        pattern_list_at(inp, c, closer, node) == pattern_list_at_def(inp, c, closer, node),
{
    reveal_with_fuel(pattern_list_at, 1);
}

/// One entry of a struct pattern: `..`, or the name of a field with `:` and
/// a pattern for its value where they follow.
pub open spec fn struct_field_pattern_at_def(
    inp: Input,
    c: Cursor,
) -> Parsed<StructFieldPatternModel>
    decreases inp.remaining(c), 25int, 0int,
{
    if inp.at(c, Punctuator::DotDot) {
        c.done(c.bump(inp), StructFieldPatternModel::Rest { span: inp.peek(c).span })
    } else {
        let name = identifier_at(inp, c, Node::StructPattern);
        let c1 = c.after(name);
        match name.value {
            None => c.fail(c1),
            Some(field_name) => if inp.at(c1, Punctuator::Colon) {
                let c2 = c1.bump(inp);
                let value = pattern_at(inp, c2);
                let c3 = c2.after(value);
                match value.value {
                    None => c.fail(c3),
                    Some(value) => c.done(
                        c3,
                        StructFieldPatternModel::NotRest {
                            span: inp.span_from(field_name.span, c3),
                            field_name,
                            value_pattern: Some(value),
                        },
                    ),
                }
            } else {
                c.done(
                    c1,
                    StructFieldPatternModel::NotRest {
                        span: field_name.span,
                        field_name,
                        value_pattern: None,
                    },
                )
            },
        }
    }
}

/// What [`struct_field_pattern_at_def`] defines, kept folded until
/// [`lemma_struct_field_pattern_at`] unfolds it.
#[verifier::opaque]
pub open spec fn struct_field_pattern_at(inp: Input, c: Cursor) -> Parsed<StructFieldPatternModel>
    decreases inp.remaining(c), 25int, 1int,
{
    struct_field_pattern_at_def(inp, c)
}

/// [`struct_field_pattern_at`] is what [`struct_field_pattern_at_def`] defines.
pub proof fn lemma_struct_field_pattern_at(inp: Input, c: Cursor)
    ensures
        struct_field_pattern_at(inp, c) == struct_field_pattern_at_def(inp, c),
{
    reveal_with_fuel(struct_field_pattern_at, 1);
}

/// The rest of a list of entries of a struct pattern after those in `before`; `c` stands at
/// the first token of the next one. After each comes a comma or the closing
/// token `closer`, and a comma may stand before the closing token, which is
/// not consumed. Any other token is reported; the list then ends at the next
/// closing token, and fails where there is none before the end of the file.
pub open spec fn struct_field_pattern_list_rest_def(
    inp: Input,
    c: Cursor,
    closer: Punctuator,
    node: Node,
    before: Seq<StructFieldPatternModel>,
) -> Parsed<Elements<StructFieldPatternModel>>
    decreases inp.remaining(c), 26int, 0int,
{
    let end = RawToken::Punctuator(closer);
    let element = struct_field_pattern_at(inp, c);
    let c1 = c.after(element);
    match element.value {
        None => c.fail(c1),
        Some(element) => {
            let items = before.push(element);
            let c2 = list_step_end(inp, c1, end, end, node);
            match list_step(inp, c1, end, end) {
                ListStep::Next => c.onward(
                    c2,
                    struct_field_pattern_list_rest(inp, c2, closer, node, items),
                ),
                ListStep::End { trailing_comma } => c.done(c2, Elements { items, trailing_comma }),
                ListStep::Abandon => c.fail(c2),
            }
        },
    }
}

/// What [`struct_field_pattern_list_rest_def`] defines, kept folded until
/// [`lemma_struct_field_pattern_list_rest`] unfolds it.
#[verifier::opaque]
pub open spec fn struct_field_pattern_list_rest(
    inp: Input,
    c: Cursor,
    closer: Punctuator,
    node: Node,
    before: Seq<StructFieldPatternModel>,
) -> Parsed<Elements<StructFieldPatternModel>>
    decreases inp.remaining(c), 26int, 1int,
{
    struct_field_pattern_list_rest_def(inp, c, closer, node, before)
}

/// [`struct_field_pattern_list_rest`] is what [`struct_field_pattern_list_rest_def`] defines.
pub proof fn lemma_struct_field_pattern_list_rest(
    inp: Input,
    c: Cursor,
    closer: Punctuator,
    node: Node,
    before: Seq<StructFieldPatternModel>,
)
    ensures
        struct_field_pattern_list_rest(
            inp,
            c,
            closer,
            node,
            before,
        ) == struct_field_pattern_list_rest_def(inp, c, closer, node, before),
{
    reveal_with_fuel(struct_field_pattern_list_rest, 1);
}

/// A list of entries of a struct pattern up to the closing token `closer`, which is not
/// consumed.
pub open spec fn struct_field_pattern_list_at_def(
    inp: Input,
    c: Cursor,
    closer: Punctuator,
    node: Node,
) -> Parsed<Elements<StructFieldPatternModel>>
    decreases inp.remaining(c), 27int, 0int,
{
    if inp.at(c, closer) {
        c.done(c, Elements { items: Seq::empty(), trailing_comma: false })
    } else {
        struct_field_pattern_list_rest(inp, c, closer, node, Seq::empty())
    }
}

/// What [`struct_field_pattern_list_at_def`] defines, kept folded until
/// [`lemma_struct_field_pattern_list_at`] unfolds it.
#[verifier::opaque]
pub open spec fn struct_field_pattern_list_at(
    inp: Input,
    c: Cursor,
    closer: Punctuator,
    node: Node,
) -> Parsed<Elements<StructFieldPatternModel>>
    decreases inp.remaining(c), 27int, 1int,
{
    struct_field_pattern_list_at_def(inp, c, closer, node)
}

/// [`struct_field_pattern_list_at`] is what [`struct_field_pattern_list_at_def`] defines.
pub proof fn lemma_struct_field_pattern_list_at(
    inp: Input,
    c: Cursor,
    closer: Punctuator,
    node: Node,
)
    ensures
        struct_field_pattern_list_at(
            inp,
            c,
            closer,
            node,
        ) == struct_field_pattern_list_at_def(inp, c, closer, node),
{
    reveal_with_fuel(struct_field_pattern_list_at, 1);
}

/// A pattern that begins with a name; `c` stands at the identifier.
///
/// After the path, `{` begins a struct pattern and `(` a tuple-like
/// pattern. Else a path of one identifier is a name that is bound, with the
/// pattern after `@` where it follows, and a longer path is a path pattern.
pub open spec fn named_pattern_at_def(inp: Input, c: Cursor) -> Parsed<PatternModel>
    decreases inp.remaining(c), 22int, 0int,
{
    let path = path_at(inp, c, Node::Pattern);
    let c1 = c.after(path);
    match path.value {
        None => c.fail(c1),
        Some(path) => if inp.at(c1, Punctuator::OpenBrace) {
            let c2 = c1.bump(inp);
            let fields = struct_field_pattern_list_at(
                inp,
                c2,
                Punctuator::CloseBrace,
                Node::StructPattern,
            );
            let c3 = c2.after(fields).bump(inp);
            match fields.value {
                None => c.fail(c2.after(fields)),
                Some(fields) => c.done(
                    c3,
                    PatternModel::Struct {
                        span: inp.span_from(path.span, c3),
                        path,
                        fields: fields.items,
                    },
                ),
            }
        } else if inp.at(c1, Punctuator::OpenParent) {
            let c2 = c1.bump(inp);
            let inner = pattern_list_at(inp, c2, Punctuator::CloseParent, Node::TupleLikePattern);
            let c3 = c2.after(inner).bump(inp);
            match inner.value {
                None => c.fail(c2.after(inner)),
                Some(inner) => c.done(
                    c3,
                    PatternModel::TupleLike {
                        span: inp.span_from(path.span, c3),
                        path,
                        inner_patterns: inner.items,
                    },
                ),
            }
        } else if path.identifiers.len() != 1 {
            c.done(c1, PatternModel::Path { span: path.span, path })
        } else if inp.at(c1, Punctuator::At) {
            let c2 = c1.bump(inp);
            let pattern = pattern_at(inp, c2);
            let c3 = c2.after(pattern);
            match pattern.value {
                None => c.fail(c3),
                Some(pattern) => c.done(
                    c3,
                    PatternModel::Identifier {
                        span: inp.span_from(path.span, c3),
                        identifier: path.identifiers[0],
                        pattern: Some(Box::new(pattern)),
                    },
                ),
            }
        } else {
            c.done(
                c1,
                PatternModel::Identifier {
                    span: path.span,
                    identifier: path.identifiers[0],
                    pattern: None,
                },
            )
        },
    }
}

/// What [`named_pattern_at_def`] defines, kept folded until [`lemma_named_pattern_at`] unfolds it.
#[verifier::opaque]
pub open spec fn named_pattern_at(inp: Input, c: Cursor) -> Parsed<PatternModel>
    decreases inp.remaining(c), 22int, 1int,
{
    named_pattern_at_def(inp, c)
}

/// [`named_pattern_at`] is what [`named_pattern_at_def`] defines.
pub proof fn lemma_named_pattern_at(inp: Input, c: Cursor)
    ensures
        named_pattern_at(inp, c) == named_pattern_at_def(inp, c),
{
    reveal_with_fuel(named_pattern_at, 1);
}

/// A list pattern; `c` stands at `[`.
pub open spec fn list_pattern_at_def(inp: Input, c: Cursor) -> Parsed<PatternModel>
    decreases inp.remaining(c), 22int, 0int,
{
    if !inp.at(c, Punctuator::OpenBracket) {
        c.fail(c)
    } else {
        let c1 = c.bump(inp);
        let inner = pattern_list_at(inp, c1, Punctuator::CloseBracket, Node::ListPattern);
        let c2 = c1.after(inner).bump(inp);
        match inner.value {
            None => c.fail(c1.after(inner)),
            Some(inner) => c.done(
                c2,
                PatternModel::List {
                    span: inp.span_from(inp.peek(c).span, c2),
                    inner_patterns: inner.items,
                },
            ),
        }
    }
}

/// What [`list_pattern_at_def`] defines, kept folded until [`lemma_list_pattern_at`] unfolds it.
#[verifier::opaque]
pub open spec fn list_pattern_at(inp: Input, c: Cursor) -> Parsed<PatternModel>
    decreases inp.remaining(c), 22int, 1int,
{
    list_pattern_at_def(inp, c)
}

/// [`list_pattern_at`] is what [`list_pattern_at_def`] defines.
pub proof fn lemma_list_pattern_at(inp: Input, c: Cursor)
    ensures
        list_pattern_at(inp, c) == list_pattern_at_def(inp, c),
{
    reveal_with_fuel(list_pattern_at, 1);
}

/// A pattern in parentheses or a tuple pattern; `c` stands at `(`. One
/// pattern without a comma after it is a pattern in parentheses, and
/// anything else a tuple pattern.
pub open spec fn tuple_pattern_at_def(inp: Input, c: Cursor) -> Parsed<PatternModel>
    decreases inp.remaining(c), 22int, 0int,
{
    if !inp.at(c, Punctuator::OpenParent) {
        c.fail(c)
    } else {
        let c1 = c.bump(inp);
        let inner = pattern_list_at(inp, c1, Punctuator::CloseParent, Node::TuplePattern);
        let c2 = c1.after(inner).bump(inp);
        let span = inp.span_from(inp.peek(c).span, c2);
        match inner.value {
            None => c.fail(c1.after(inner)),
            Some(inner) => if inner.items.len() == 1 && !inner.trailing_comma {
                c.done(c2, PatternModel::Grouped { span, inner: Box::new(inner.items[0]) })
            } else {
                c.done(c2, PatternModel::Tuple { span, elements: inner.items })
            },
        }
    }
}

/// What [`tuple_pattern_at_def`] defines, kept folded until [`lemma_tuple_pattern_at`] unfolds it.
#[verifier::opaque]
pub open spec fn tuple_pattern_at(inp: Input, c: Cursor) -> Parsed<PatternModel>
    decreases inp.remaining(c), 22int, 1int,
{
    tuple_pattern_at_def(inp, c)
}

/// [`tuple_pattern_at`] is what [`tuple_pattern_at_def`] defines.
pub proof fn lemma_tuple_pattern_at(inp: Input, c: Cursor)
    ensures
        tuple_pattern_at(inp, c) == tuple_pattern_at_def(inp, c),
{
    reveal_with_fuel(tuple_pattern_at, 1);
}

/// A pattern without `|`. The first token decides: a literal, an
/// identifier, `[`, `(` or `..`. Any other token is reported, and nothing
/// is consumed.
pub open spec fn primary_pattern_at_def(inp: Input, c: Cursor) -> Parsed<PatternModel>
    decreases inp.remaining(c), 23int, 0int,
{
    let raw = inp.peek(c).raw;
    if is_literal(raw) {
        let literal = literal_at(inp, c);
        let c1 = c.after(literal);
        match literal.value {
            None => c.fail(c1),
            Some(literal) => c.done(c1, PatternModel::Literal(literal)),
        }
    } else if raw is Identifier {
        named_pattern_at(inp, c)
    } else if raw == RawToken::Punctuator(Punctuator::OpenBracket) {
        list_pattern_at(inp, c)
    } else if raw == RawToken::Punctuator(Punctuator::OpenParent) {
        tuple_pattern_at(inp, c)
    } else if raw == RawToken::Punctuator(Punctuator::DotDot) {
        c.done(c.bump(inp), PatternModel::Rest { span: inp.peek(c).span })
    } else {
        c.fail(c.unexpected(inp, Expected::Pattern, Node::Pattern))
    }
}

/// What [`primary_pattern_at_def`] defines, kept folded until [`lemma_primary_pattern_at`] unfolds
/// it.
#[verifier::opaque]
pub open spec fn primary_pattern_at(inp: Input, c: Cursor) -> Parsed<PatternModel>
    decreases inp.remaining(c), 23int, 1int,
{
    primary_pattern_at_def(inp, c)
}

/// [`primary_pattern_at`] is what [`primary_pattern_at_def`] defines.
pub proof fn lemma_primary_pattern_at(inp: Input, c: Cursor)
    ensures
        primary_pattern_at(inp, c) == primary_pattern_at_def(inp, c),
{
    reveal_with_fuel(primary_pattern_at, 1);
}

/// A pattern: a pattern without `|`, and after `|` another pattern where
/// it follows.
pub open spec fn pattern_at_def(inp: Input, c: Cursor) -> Parsed<PatternModel>
    decreases inp.remaining(c), 24int, 0int,
{
    let left = primary_pattern_at(inp, c);
    let c1 = c.after(left);
    match left.value {
        None => c.fail(c1),
        Some(left) => if inp.at(c1, Punctuator::Or) {
            let c2 = c1.bump(inp);
            let right = pattern_at(inp, c2);
            let c3 = c2.after(right);
            match right.value {
                None => c.fail(c3),
                Some(right) => c.done(
                    c3,
                    PatternModel::Or {
                        span: inp.span_from(left.span(), c3),
                        left: Box::new(left),
                        right: Box::new(right),
                    },
                ),
            }
        } else {
            c.done(c1, left)
        },
    }
}

/// What [`pattern_at_def`] defines, kept folded until [`lemma_pattern_at`] unfolds it.
#[verifier::opaque]
pub open spec fn pattern_at(inp: Input, c: Cursor) -> Parsed<PatternModel>
    decreases inp.remaining(c), 24int, 1int,
{
    pattern_at_def(inp, c)
}

/// [`pattern_at`] is what [`pattern_at_def`] defines.
pub proof fn lemma_pattern_at(inp: Input, c: Cursor)
    ensures
        pattern_at(inp, c) == pattern_at_def(inp, c),
{
    reveal_with_fuel(pattern_at, 1);
}

} // verus!
