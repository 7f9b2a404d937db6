//! Types, generic parameters and arguments, and where clauses.

use crate::diagnostics::{Expected, Node};
use crate::grammar::cursor::{
    identifier_at, list_step, list_step_end, path_at, punctuator_at, Cursor, Elements, Input,
    ListStep, Parsed,
};
use crate::model::{
    GenericArgumentModel, GenericParameterModel, TypeModel, TypePathModel, TypePathSegmentModel,
    WhereClauseItemModel,
};
use crate::token::{Keyword, Punctuator, RawToken};
use vstd::prelude::*;

verus! {

/// The rest of a list of types after those in `before`; `c` stands at
/// the first token of the next one. After each comes a comma or the closing
/// token `closer`, and a comma may stand before the closing token, which is
/// not consumed. Any other token is reported; the list then ends at the next
/// closing token, and fails where there is none before the end of the file.
pub open spec fn type_list_rest_def(
    inp: Input,
    c: Cursor,
    closer: Punctuator,
    node: Node,
    before: Seq<TypeModel>,
) -> Parsed<Elements<TypeModel>>
    decreases inp.remaining(c), 16int, 0int,
{
    let end = RawToken::Punctuator(closer);
    let element = type_at(inp, c);
    let c1 = c.after(element);
    match element.value {
        None => c.fail(c1),
        Some(element) => {
            let items = before.push(element);
            let c2 = list_step_end(inp, c1, end, end, node);
            match list_step(inp, c1, end, end) {
                ListStep::Next => c.onward(
                    c2,
                    type_list_rest(inp, c2, closer, node, items),
                ),
                ListStep::End { trailing_comma } => c.done(c2, Elements { items, trailing_comma }),
                ListStep::Abandon => c.fail(c2),
            }
        },
    }
}

/// What [`type_list_rest_def`] defines, kept folded until [`lemma_type_list_rest`] unfolds it.
#[verifier::opaque]
pub open spec fn type_list_rest(
    inp: Input,
    c: Cursor,
    closer: Punctuator,
    node: Node,
    before: Seq<TypeModel>,
) -> Parsed<Elements<TypeModel>>
    decreases inp.remaining(c), 16int, 1int,
{
    type_list_rest_def(inp, c, closer, node, before)
}

/// [`type_list_rest`] is what [`type_list_rest_def`] defines.
pub proof fn lemma_type_list_rest(
    inp: Input,
    c: Cursor,
    closer: Punctuator,
    node: Node,
    before: Seq<TypeModel>,
)
    ensures
        type_list_rest(
            inp,
            c,
            closer,
            node,
            before,
        ) == type_list_rest_def(inp, c, closer, node, before),
{
    reveal_with_fuel(type_list_rest, 1);
}

/// A list of types up to the closing token `closer`, which is not
/// consumed.
pub open spec fn type_list_at_def(inp: Input, c: Cursor, closer: Punctuator, node: Node) -> Parsed<
    Elements<TypeModel>,
>
    decreases inp.remaining(c), 17int, 0int,
{
    if inp.at(c, closer) {
        c.done(c, Elements { items: Seq::empty(), trailing_comma: false })
    } else {
        type_list_rest(inp, c, closer, node, Seq::empty())
    }
}

/// What [`type_list_at_def`] defines, kept folded until [`lemma_type_list_at`] unfolds it.
#[verifier::opaque]
pub open spec fn type_list_at(inp: Input, c: Cursor, closer: Punctuator, node: Node) -> Parsed<
    Elements<TypeModel>,
>
    decreases inp.remaining(c), 17int, 1int,
{
    type_list_at_def(inp, c, closer, node)
}

/// [`type_list_at`] is what [`type_list_at_def`] defines.
pub proof fn lemma_type_list_at(inp: Input, c: Cursor, closer: Punctuator, node: Node)
    ensures
        type_list_at(inp, c, closer, node) == type_list_at_def(inp, c, closer, node),
{
    reveal_with_fuel(type_list_at, 1);
}

/// A type in parentheses, a tuple type or a function type; `c` stands at
/// the opening parenthesis.
///
/// With `:` and a type after the closing parenthesis it is a function type
/// with that return type. Else one type without a comma after it is a type
/// in parentheses, and anything else a tuple type.
pub open spec fn parenthesized_type_at_def(inp: Input, c: Cursor) -> Parsed<TypeModel>
    decreases inp.remaining(c), 13int, 0int,
{
    if !inp.at(c, Punctuator::OpenParent) {
        c.fail(c)
    } else {
        let start = inp.peek(c).span;
        let c1 = c.bump(inp);
        let list = type_list_at(
            inp,
            c1,
            Punctuator::CloseParent,
            Node::ParenthesizedOrTupleType,
        );
        let c2 = c1.after(list);
        let c3 = c2.bump(inp);
        match list.value {
            None => c.fail(c2),
            Some(elements) => if inp.at(c3, Punctuator::Colon) {
                let c4 = c3.bump(inp);
                let result = type_at(inp, c4);
                let c5 = c4.after(result);
                match result.value {
                    None => c.fail(c5),
                    Some(return_type) => c.done(
                        c5,
                        TypeModel::Function {
                            span: inp.span_from(start, c5),
                            parameter_types: elements.items,
                            return_type: Box::new(return_type),
                        },
                    ),
                }
            } else if elements.items.len() == 1 && !elements.trailing_comma {
                c.done(
                    c3,
                    TypeModel::Parenthesized {
                        span: inp.span_from(start, c3),
                        inner: Box::new(elements.items[0]),
                    },
                )
            } else {
                c.done(
                    c3,
                    TypeModel::Tuple {
                        span: inp.span_from(start, c3),
                        element_types: elements.items,
                    },
                )
            },
        }
    }
}

/// What [`parenthesized_type_at_def`] defines, kept folded until [`lemma_parenthesized_type_at`]
/// unfolds it.
#[verifier::opaque]
pub open spec fn parenthesized_type_at(inp: Input, c: Cursor) -> Parsed<TypeModel>
    decreases inp.remaining(c), 13int, 1int,
{
    parenthesized_type_at_def(inp, c)
}

/// [`parenthesized_type_at`] is what [`parenthesized_type_at_def`] defines.
pub proof fn lemma_parenthesized_type_at(inp: Input, c: Cursor)
    ensures
        parenthesized_type_at(inp, c) == parenthesized_type_at_def(inp, c),
{
    reveal_with_fuel(parenthesized_type_at, 1);
}

/// A trait object type: `dyn` and bounds; `c` stands at `dyn`.
pub open spec fn trait_object_type_at_def(inp: Input, c: Cursor) -> Parsed<TypeModel>
    decreases inp.remaining(c), 13int, 0int,
{
    if inp.peek(c).raw != RawToken::Keyword(Keyword::Dyn) {
        c.fail(c)
    } else {
        let start = inp.peek(c).span;
        let c1 = c.bump(inp);
        let bounds = type_bounds_at(inp, c1);
        let c2 = c1.after(bounds);
        match bounds.value {
            None => c.fail(c2),
            Some(bounds) => c.done(
                c2,
                TypeModel::TraitObject { span: inp.span_from(start, c2), bounds },
            ),
        }
    }
}

/// What [`trait_object_type_at_def`] defines, kept folded until [`lemma_trait_object_type_at`]
/// unfolds it.
#[verifier::opaque]
pub open spec fn trait_object_type_at(inp: Input, c: Cursor) -> Parsed<TypeModel>
    decreases inp.remaining(c), 13int, 1int,
{
    trait_object_type_at_def(inp, c)
}

/// [`trait_object_type_at`] is what [`trait_object_type_at_def`] defines.
pub proof fn lemma_trait_object_type_at(inp: Input, c: Cursor)
    ensures
        trait_object_type_at(inp, c) == trait_object_type_at_def(inp, c),
{
    reveal_with_fuel(trait_object_type_at, 1);
}

/// The rest of the segments after a qualified path, after the segments
/// `before`: as long as `.` follows, a segment follows it.
pub open spec fn segments_rest_def(
    inp: Input,
    c: Cursor,
    before: Seq<TypePathSegmentModel>,
) -> Parsed<
    Seq<TypePathSegmentModel>,
>
    decreases inp.remaining(c), 9int, 0int,
{
    if inp.at(c, Punctuator::Dot) && 0 <= c.pos < inp.tokens.len() {
        let c1 = c.bump(inp);
        let segment = type_path_segment_at(inp, c1);
        let c2 = c1.after(segment);
        match segment.value {
            None => c.fail(c2),
            Some(segment) => c.onward(c2, segments_rest(inp, c2, before.push(segment))),
        }
    } else {
        c.done(c, before)
    }
}

/// What [`segments_rest_def`] defines, kept folded until [`lemma_segments_rest`] unfolds it.
#[verifier::opaque]
pub open spec fn segments_rest(inp: Input, c: Cursor, before: Seq<TypePathSegmentModel>) -> Parsed<
    Seq<TypePathSegmentModel>,
>
    decreases inp.remaining(c), 9int, 1int,
{
    segments_rest_def(inp, c, before)
}

/// [`segments_rest`] is what [`segments_rest_def`] defines.
pub proof fn lemma_segments_rest(inp: Input, c: Cursor, before: Seq<TypePathSegmentModel>)
    ensures
        segments_rest(inp, c, before) == segments_rest_def(inp, c, before),
{
    reveal_with_fuel(segments_rest, 1);
}

/// A type with a qualified path: `[`, a type, `as`, a type path, `]`, `.`
/// and segments separated by `.`; `c` stands at `[`.
pub open spec fn type_with_qualified_path_at_def(inp: Input, c: Cursor) -> Parsed<TypeModel>
    decreases inp.remaining(c), 13int, 0int,
{
    if !inp.at(c, Punctuator::OpenBracket) {
        c.fail(c)
    } else {
        let node = Node::TypeWithQualifiedPath;
        let start = inp.peek(c).span;
        let c1 = c.bump(inp);
        let left = type_at(inp, c1);
        let c2 = c1.after(left);
        let c3 = if inp.peek(c2).raw == RawToken::Keyword(Keyword::As) {
            c2.bump(inp)
        } else {
            c2.unexpected(inp, Expected::Keyword(Keyword::As), node)
        };
        let right = type_path_at(inp, c3);
        let c4 = c3.after(right);
        let close = punctuator_at(inp, c4, Punctuator::CloseBracket, node);
        let c5 = c4.after(close);
        let dot = punctuator_at(inp, c5, Punctuator::Dot, node);
        let c6 = c5.after(dot);
        let first = type_path_segment_at(inp, c6);
        let c7 = c6.after(first);
        if !left.ok() {
            c.fail(c2)
        } else if inp.peek(c2).raw != RawToken::Keyword(Keyword::As) {
            c.fail(c3)
        } else if !right.ok() {
            c.fail(c4)
        } else if !close.ok() {
            c.fail(c5)
        } else if !dot.ok() {
            c.fail(c6)
        } else if !first.ok() {
            c.fail(c7)
        } else {
            let rest = segments_rest(inp, c7, seq![first.value->0]);
            let c8 = c7.after(rest);
            match rest.value {
                None => c.fail(c8),
                Some(segments) => c.done(
                    c8,
                    TypeModel::WithQualifiedPath {
                        span: inp.span_from(start, c8),
                        left: Box::new(left.value->0),
                        right: right.value->0,
                        segments,
                    },
                ),
            }
        }
    }
}

/// What [`type_with_qualified_path_at_def`] defines, kept folded until
/// [`lemma_type_with_qualified_path_at`] unfolds it.
#[verifier::opaque]
pub open spec fn type_with_qualified_path_at(inp: Input, c: Cursor) -> Parsed<TypeModel>
    decreases inp.remaining(c), 13int, 1int,
{
    type_with_qualified_path_at_def(inp, c)
}

/// [`type_with_qualified_path_at`] is what [`type_with_qualified_path_at_def`] defines.
pub proof fn lemma_type_with_qualified_path_at(inp: Input, c: Cursor)
    ensures
        type_with_qualified_path_at(inp, c) == type_with_qualified_path_at_def(inp, c),
{
    reveal_with_fuel(type_with_qualified_path_at, 1);
}

/// A type. The first token decides: `(` begins a type in parentheses, a
/// tuple type or a function type, an identifier a type path, `dyn` a trait
/// object type and `[` a type with a qualified path. Any other token is
/// reported, and nothing is consumed.
pub open spec fn type_at_def(inp: Input, c: Cursor) -> Parsed<TypeModel>
    decreases inp.remaining(c), 14int, 0int,
{
    match inp.peek(c).raw {
        RawToken::Punctuator(Punctuator::OpenParent) => parenthesized_type_at(inp, c),
        RawToken::Identifier(_) => {
            let path = type_path_at(inp, c);
            let c1 = c.after(path);
            match path.value {
                Some(path) => c.done(c1, TypeModel::Path(path)),
                None => c.fail(c1),
            }
        },
        RawToken::Keyword(Keyword::Dyn) => trait_object_type_at(inp, c),
        RawToken::Punctuator(Punctuator::OpenBracket) => type_with_qualified_path_at(inp, c),
        _ => c.fail(c.unexpected(inp, Expected::Type, Node::Type)),
    }
}

/// What [`type_at_def`] defines, kept folded until [`lemma_type_at`] unfolds it.
#[verifier::opaque]
pub open spec fn type_at(inp: Input, c: Cursor) -> Parsed<TypeModel>
    decreases inp.remaining(c), 14int, 1int,
{
    type_at_def(inp, c)
}

/// [`type_at`] is what [`type_at_def`] defines.
pub proof fn lemma_type_at(inp: Input, c: Cursor)
    ensures
        type_at(inp, c) == type_at_def(inp, c),
{
    reveal_with_fuel(type_at, 1);
}

/// The rest of a list of bounds after the bounds `before`: as long as `+`
/// follows, a type path follows it.
pub open spec fn type_bounds_rest_def(inp: Input, c: Cursor, before: Seq<TypePathModel>) -> Parsed<
    Seq<TypePathModel>,
>
    decreases inp.remaining(c), 11int, 0int,
{
    if inp.at(c, Punctuator::Plus) && 0 <= c.pos < inp.tokens.len() {
        let c1 = c.bump(inp);
        let bound = type_path_at(inp, c1);
        let c2 = c1.after(bound);
        match bound.value {
            None => c.fail(c2),
            Some(bound) => c.onward(c2, type_bounds_rest(inp, c2, before.push(bound))),
        }
    } else {
        c.done(c, before)
    }
}

/// What [`type_bounds_rest_def`] defines, kept folded until [`lemma_type_bounds_rest`] unfolds it.
#[verifier::opaque]
pub open spec fn type_bounds_rest(inp: Input, c: Cursor, before: Seq<TypePathModel>) -> Parsed<
    Seq<TypePathModel>,
>
    decreases inp.remaining(c), 11int, 1int,
{
    type_bounds_rest_def(inp, c, before)
}

/// [`type_bounds_rest`] is what [`type_bounds_rest_def`] defines.
pub proof fn lemma_type_bounds_rest(inp: Input, c: Cursor, before: Seq<TypePathModel>)
    ensures
        type_bounds_rest(inp, c, before) == type_bounds_rest_def(inp, c, before),
{
    reveal_with_fuel(type_bounds_rest, 1);
}

/// Bounds: type paths separated by `+`, at least one.
pub open spec fn type_bounds_at_def(inp: Input, c: Cursor) -> Parsed<Seq<TypePathModel>>
    decreases inp.remaining(c), 12int, 0int,
{
    let first = type_path_at(inp, c);
    let c1 = c.after(first);
    match first.value {
        None => c.fail(c1),
        Some(bound) => c.onward(c1, type_bounds_rest(inp, c1, seq![bound])),
    }
}

/// What [`type_bounds_at_def`] defines, kept folded until [`lemma_type_bounds_at`] unfolds it.
#[verifier::opaque]
pub open spec fn type_bounds_at(inp: Input, c: Cursor) -> Parsed<Seq<TypePathModel>>
    decreases inp.remaining(c), 12int, 1int,
{
    type_bounds_at_def(inp, c)
}

/// [`type_bounds_at`] is what [`type_bounds_at_def`] defines.
pub proof fn lemma_type_bounds_at(inp: Input, c: Cursor)
    ensures
        type_bounds_at(inp, c) == type_bounds_at_def(inp, c),
{
    reveal_with_fuel(type_bounds_at, 1);
}

/// A type path: segments separated by `.`, at least one.
pub open spec fn type_path_at_def(inp: Input, c: Cursor) -> Parsed<TypePathModel>
    decreases inp.remaining(c), 10int, 0int,
{
    let start = inp.peek(c).span;
    let first = type_path_segment_at(inp, c);
    let c1 = c.after(first);
    match first.value {
        None => c.fail(c1),
        Some(segment) => {
            let rest = segments_rest(inp, c1, seq![segment]);
            let c2 = c1.after(rest);
            match rest.value {
                None => c.fail(c2),
                Some(segments) => c.done(
                    c2,
                    TypePathModel { span: inp.span_from(start, c2), segments },
                ),
            }
        },
    }
}

/// What [`type_path_at_def`] defines, kept folded until [`lemma_type_path_at`] unfolds it.
#[verifier::opaque]
pub open spec fn type_path_at(inp: Input, c: Cursor) -> Parsed<TypePathModel>
    decreases inp.remaining(c), 10int, 1int,
{
    type_path_at_def(inp, c)
}

/// [`type_path_at`] is what [`type_path_at_def`] defines.
pub proof fn lemma_type_path_at(inp: Input, c: Cursor)
    ensures
        type_path_at(inp, c) == type_path_at_def(inp, c),
{
    reveal_with_fuel(type_path_at, 1);
}

/// A segment of a type path: a path, and generic arguments where `[`
/// follows it.
pub open spec fn type_path_segment_at_def(inp: Input, c: Cursor) -> Parsed<TypePathSegmentModel>
    decreases inp.remaining(c), 8int, 0int,
{
    let path = path_at(inp, c, Node::Type);
    let c1 = c.after(path);
    match path.value {
        None => c.fail(c1),
        Some(path) => {
            let arguments = optional_generic_arguments_at(inp, c1);
            let c2 = c1.after(arguments);
            match arguments.value {
                None => c.fail(c2),
                Some(generic_arguments) => c.done(
                    c2,
                    TypePathSegmentModel {
                        span: inp.span_from(path.span, c2),
                        path,
                        generic_arguments,
                    },
                ),
            }
        },
    }
}

/// What [`type_path_segment_at_def`] defines, kept folded until [`lemma_type_path_segment_at`]
/// unfolds it.
#[verifier::opaque]
pub open spec fn type_path_segment_at(inp: Input, c: Cursor) -> Parsed<TypePathSegmentModel>
    decreases inp.remaining(c), 8int, 1int,
{
    type_path_segment_at_def(inp, c)
}

/// [`type_path_segment_at`] is what [`type_path_segment_at_def`] defines.
pub proof fn lemma_type_path_segment_at(inp: Input, c: Cursor)
    ensures
        type_path_segment_at(inp, c) == type_path_segment_at_def(inp, c),
{
    reveal_with_fuel(type_path_segment_at, 1);
}

/// Generic arguments where `[` is the next token, and nothing where it is not.
pub open spec fn optional_generic_arguments_at_def(inp: Input, c: Cursor) -> Parsed<
    Option<Seq<GenericArgumentModel>>,
>
    decreases inp.remaining(c), 7int, 0int,
{
    if !inp.at(c, Punctuator::OpenBracket) {
        c.done(c, None)
    } else {
        let arguments = generic_arguments_at(inp, c);
        let c1 = c.after(arguments);
        match arguments.value {
            None => c.fail(c1),
            Some(arguments) => c.done(c1, Some(arguments)),
        }
    }
}

/// What [`optional_generic_arguments_at_def`] defines, kept folded until
/// [`lemma_optional_generic_arguments_at`] unfolds it.
#[verifier::opaque]
pub open spec fn optional_generic_arguments_at(inp: Input, c: Cursor) -> Parsed<
    Option<Seq<GenericArgumentModel>>,
>
    decreases inp.remaining(c), 7int, 1int,
{
    optional_generic_arguments_at_def(inp, c)
}

/// [`optional_generic_arguments_at`] is what [`optional_generic_arguments_at_def`] defines.
pub proof fn lemma_optional_generic_arguments_at(inp: Input, c: Cursor)
    ensures
        optional_generic_arguments_at(inp, c) == optional_generic_arguments_at_def(inp, c),
{
    reveal_with_fuel(optional_generic_arguments_at, 1);
}

/// Generic arguments in brackets; `c` stands at `[`.
pub open spec fn generic_arguments_at_def(
    inp: Input,
    c: Cursor,
) -> Parsed<Seq<GenericArgumentModel>>
    decreases inp.remaining(c), 6int, 0int,
{
    if !inp.at(c, Punctuator::OpenBracket) {
        c.fail(c)
    } else {
        let c1 = c.bump(inp);
        let list = generic_argument_list_at(
            inp,
            c1,
            Punctuator::CloseBracket,
            Node::GenericArguments,
        );
        let c2 = c1.after(list);
        match list.value {
            None => c.fail(c2),
            Some(arguments) => c.done(c2.bump(inp), arguments.items),
        }
    }
}

/// What [`generic_arguments_at_def`] defines, kept folded until [`lemma_generic_arguments_at`]
/// unfolds it.
#[verifier::opaque]
pub open spec fn generic_arguments_at(inp: Input, c: Cursor) -> Parsed<Seq<GenericArgumentModel>>
    decreases inp.remaining(c), 6int, 1int,
{
    generic_arguments_at_def(inp, c)
}

/// [`generic_arguments_at`] is what [`generic_arguments_at_def`] defines.
pub proof fn lemma_generic_arguments_at(inp: Input, c: Cursor)
    ensures
        generic_arguments_at(inp, c) == generic_arguments_at_def(inp, c),
{
    reveal_with_fuel(generic_arguments_at, 1);
}

/// Whether a type is a single name: a type path of one segment whose path
/// is one identifier and which has no generic arguments.
pub open spec fn single_name(ty: TypeModel) -> bool {
    &&& ty is Path
    &&& ty->Path_0.segments.len() == 1
    &&& ty->Path_0.segments[0].generic_arguments is None
    &&& ty->Path_0.segments[0].path.identifiers.len() == 1
}

/// One generic argument: a type; or, where a type is followed by `=`, the
/// binding of an associated type, in which the type before `=` must be a
/// single name.
pub open spec fn generic_argument_at_def(inp: Input, c: Cursor) -> Parsed<GenericArgumentModel>
    decreases inp.remaining(c), 15int, 0int,
{
    let ty = type_at(inp, c);
    let c1 = c.after(ty);
    match ty.value {
        None => c.fail(c1),
        Some(ty) => if !inp.at(c1, Punctuator::Eq) {
            c.done(c1, GenericArgumentModel::Type(ty))
        } else if !single_name(ty) {
            c.fail(c1)
        } else {
            let c2 = c1.bump(inp);
            let value = type_at(inp, c2);
            let c3 = c2.after(value);
            match value.value {
                None => c.fail(c3),
                Some(value) => c.done(
                    c3,
                    GenericArgumentModel::AssociatedType {
                        name: ty->Path_0.segments[0].path.identifiers[0],
                        value,
                    },
                ),
            }
        },
    }
}

/// What [`generic_argument_at_def`] defines, kept folded until [`lemma_generic_argument_at`]
/// unfolds it.
#[verifier::opaque]
pub open spec fn generic_argument_at(inp: Input, c: Cursor) -> Parsed<GenericArgumentModel>
    decreases inp.remaining(c), 15int, 1int,
{
    generic_argument_at_def(inp, c)
}

/// [`generic_argument_at`] is what [`generic_argument_at_def`] defines.
pub proof fn lemma_generic_argument_at(inp: Input, c: Cursor)
    ensures
        generic_argument_at(inp, c) == generic_argument_at_def(inp, c),
{
    reveal_with_fuel(generic_argument_at, 1);
}

/// The rest of a list of generic arguments after those in `before`; `c` stands at
/// the first token of the next one. After each comes a comma or the closing
/// token `closer`, and a comma may stand before the closing token, which is
/// not consumed. Any other token is reported; the list then ends at the next
/// closing token, and fails where there is none before the end of the file.
pub open spec fn generic_argument_list_rest_def(
    inp: Input,
    c: Cursor,
    closer: Punctuator,
    node: Node,
    before: Seq<GenericArgumentModel>,
) -> Parsed<Elements<GenericArgumentModel>>
    decreases inp.remaining(c), 16int, 0int,
{
    let end = RawToken::Punctuator(closer);
    let element = generic_argument_at(inp, c);
    let c1 = c.after(element);
    match element.value {
        None => c.fail(c1),
        Some(element) => {
            let items = before.push(element);
            let c2 = list_step_end(inp, c1, end, end, node);
            match list_step(inp, c1, end, end) {
                ListStep::Next => c.onward(
                    c2,
                    generic_argument_list_rest(inp, c2, closer, node, items),
                ),
                ListStep::End { trailing_comma } => c.done(c2, Elements { items, trailing_comma }),
                ListStep::Abandon => c.fail(c2),
            }
        },
    }
}

/// What [`generic_argument_list_rest_def`] defines, kept folded until
/// [`lemma_generic_argument_list_rest`] unfolds it.
#[verifier::opaque]
pub open spec fn generic_argument_list_rest(
    inp: Input,
    c: Cursor,
    closer: Punctuator,
    node: Node,
    before: Seq<GenericArgumentModel>,
) -> Parsed<Elements<GenericArgumentModel>>
    decreases inp.remaining(c), 16int, 1int,
{
    generic_argument_list_rest_def(inp, c, closer, node, before)
}

/// [`generic_argument_list_rest`] is what [`generic_argument_list_rest_def`] defines.
pub proof fn lemma_generic_argument_list_rest(
    inp: Input,
    c: Cursor,
    closer: Punctuator,
    node: Node,
    before: Seq<GenericArgumentModel>,
)
    ensures
        generic_argument_list_rest(
            inp,
            c,
            closer,
            node,
            before,
        ) == generic_argument_list_rest_def(inp, c, closer, node, before),
{
    reveal_with_fuel(generic_argument_list_rest, 1);
}

/// A list of generic arguments up to the closing token `closer`, which is not
/// consumed.
pub open spec fn generic_argument_list_at_def(
    inp: Input,
    c: Cursor,
    closer: Punctuator,
    node: Node,
) -> Parsed<
    Elements<GenericArgumentModel>,
>
    decreases inp.remaining(c), 17int, 0int,
{
    if inp.at(c, closer) {
        c.done(c, Elements { items: Seq::empty(), trailing_comma: false })
    } else {
        generic_argument_list_rest(inp, c, closer, node, Seq::empty())
    }
}

/// What [`generic_argument_list_at_def`] defines, kept folded until
/// [`lemma_generic_argument_list_at`] unfolds it.
#[verifier::opaque]
pub open spec fn generic_argument_list_at(
    inp: Input,
    c: Cursor,
    closer: Punctuator,
    node: Node,
) -> Parsed<
    Elements<GenericArgumentModel>,
>
    decreases inp.remaining(c), 17int, 1int,
{
    generic_argument_list_at_def(inp, c, closer, node)
}

/// [`generic_argument_list_at`] is what [`generic_argument_list_at_def`] defines.
pub proof fn lemma_generic_argument_list_at(inp: Input, c: Cursor, closer: Punctuator, node: Node)
    ensures
        generic_argument_list_at(
            inp,
            c,
            closer,
            node,
        ) == generic_argument_list_at_def(inp, c, closer, node),
{
    reveal_with_fuel(generic_argument_list_at, 1);
}

/// One generic parameter: a name, bounds after `:` where it follows, and a
/// default after `=` where it follows.
pub open spec fn generic_parameter_at_def(inp: Input, c: Cursor) -> Parsed<GenericParameterModel>
{
    let name = identifier_at(inp, c, Node::GenericParameters);
    let c1 = c.after(name);
    let has_bounds = inp.at(c1, Punctuator::Colon);
    let bounds = type_bounds_at(inp, c1.bump(inp));
    let c2 = if has_bounds {
        c1.bump(inp).after(bounds)
    } else {
        c1
    };
    let has_default = inp.at(c2, Punctuator::Eq);
    let default_value = type_at(inp, c2.bump(inp));
    let c3 = if has_default {
        c2.bump(inp).after(default_value)
    } else {
        c2
    };
    if !name.ok() {
        c.fail(c1)
    } else if has_bounds && !bounds.ok() {
        c.fail(c2)
    } else if has_default && !default_value.ok() {
        c.fail(c3)
    } else {
        c.done(
            c3,
            GenericParameterModel {
                name: name.value->0,
                bounds: if has_bounds {
                    bounds.value
                } else {
                    None
                },
                default_value: if has_default {
                    default_value.value
                } else {
                    None
                },
            },
        )
    }
}

/// What [`generic_parameter_at_def`] defines, kept folded until [`lemma_generic_parameter_at`]
/// unfolds it.
#[verifier::opaque]
pub open spec fn generic_parameter_at(inp: Input, c: Cursor) -> Parsed<GenericParameterModel>
{
    generic_parameter_at_def(inp, c)
}

/// [`generic_parameter_at`] is what [`generic_parameter_at_def`] defines.
pub proof fn lemma_generic_parameter_at(inp: Input, c: Cursor)
    ensures
        generic_parameter_at(inp, c) == generic_parameter_at_def(inp, c),
{
    reveal(generic_parameter_at);
}

/// The rest of a list of generic parameters after those in `before`; `c` stands at
/// the first token of the next one. After each comes a comma or the closing
/// token `closer`, and a comma may stand before the closing token, which is
/// not consumed. Any other token is reported; the list then ends at the next
/// closing token, and fails where there is none before the end of the file.
pub open spec fn generic_parameter_list_rest_def(
    inp: Input,
    c: Cursor,
    closer: Punctuator,
    node: Node,
    before: Seq<GenericParameterModel>,
) -> Parsed<Elements<GenericParameterModel>>
    decreases inp.remaining(c), 18int, 0int,
{
    let end = RawToken::Punctuator(closer);
    let element = generic_parameter_at(inp, c);
    let c1 = c.after(element);
    match element.value {
        None => c.fail(c1),
        Some(element) => {
            let items = before.push(element);
            let c2 = list_step_end(inp, c1, end, end, node);
            match list_step(inp, c1, end, end) {
                ListStep::Next => c.onward(
                    c2,
                    generic_parameter_list_rest(inp, c2, closer, node, items),
                ),
                ListStep::End { trailing_comma } => c.done(c2, Elements { items, trailing_comma }),
                ListStep::Abandon => c.fail(c2),
            }
        },
    }
}

/// What [`generic_parameter_list_rest_def`] defines, kept folded until
/// [`lemma_generic_parameter_list_rest`] unfolds it.
#[verifier::opaque]
pub open spec fn generic_parameter_list_rest(
    inp: Input,
    c: Cursor,
    closer: Punctuator,
    node: Node,
    before: Seq<GenericParameterModel>,
) -> Parsed<Elements<GenericParameterModel>>
    decreases inp.remaining(c), 18int, 1int,
{
    generic_parameter_list_rest_def(inp, c, closer, node, before)
}

/// [`generic_parameter_list_rest`] is what [`generic_parameter_list_rest_def`] defines.
pub proof fn lemma_generic_parameter_list_rest(
    inp: Input,
    c: Cursor,
    closer: Punctuator,
    node: Node,
    before: Seq<GenericParameterModel>,
)
    ensures
        generic_parameter_list_rest(
            inp,
            c,
            closer,
            node,
            before,
        ) == generic_parameter_list_rest_def(inp, c, closer, node, before),
{
    reveal_with_fuel(generic_parameter_list_rest, 1);
}

/// A list of generic parameters up to the closing token `closer`, which is not
/// consumed.
pub open spec fn generic_parameter_list_at_def(
    inp: Input,
    c: Cursor,
    closer: Punctuator,
    node: Node,
) -> Parsed<
    Elements<GenericParameterModel>,
>
    decreases inp.remaining(c), 19int, 0int,
{
    if inp.at(c, closer) {
        c.done(c, Elements { items: Seq::empty(), trailing_comma: false })
    } else {
        generic_parameter_list_rest(inp, c, closer, node, Seq::empty())
    }
}

/// What [`generic_parameter_list_at_def`] defines, kept folded until
/// [`lemma_generic_parameter_list_at`] unfolds it.
#[verifier::opaque]
pub open spec fn generic_parameter_list_at(
    inp: Input,
    c: Cursor,
    closer: Punctuator,
    node: Node,
) -> Parsed<
    Elements<GenericParameterModel>,
>
    decreases inp.remaining(c), 19int, 1int,
{
    generic_parameter_list_at_def(inp, c, closer, node)
}

/// [`generic_parameter_list_at`] is what [`generic_parameter_list_at_def`] defines.
pub proof fn lemma_generic_parameter_list_at(inp: Input, c: Cursor, closer: Punctuator, node: Node)
    ensures
        generic_parameter_list_at(
            inp,
            c,
            closer,
            node,
        ) == generic_parameter_list_at_def(inp, c, closer, node),
{
    reveal_with_fuel(generic_parameter_list_at, 1);
}

/// Generic parameters in brackets where `[` is the next token, and nothing
/// where it is not.
pub open spec fn optional_generic_parameters_at_def(inp: Input, c: Cursor) -> Parsed<
    Option<Seq<GenericParameterModel>>,
>
{
    if !inp.at(c, Punctuator::OpenBracket) {
        c.done(c, None)
    } else {
        let c1 = c.bump(inp);
        let list = generic_parameter_list_at(
            inp,
            c1,
            Punctuator::CloseBracket,
            Node::GenericParameters,
        );
        let c2 = c1.after(list);
        match list.value {
            None => c.fail(c2),
            Some(parameters) => c.done(c2.bump(inp), Some(parameters.items)),
        }
    }
}

/// What [`optional_generic_parameters_at_def`] defines, kept folded until
/// [`lemma_optional_generic_parameters_at`] unfolds it.
#[verifier::opaque]
pub open spec fn optional_generic_parameters_at(inp: Input, c: Cursor) -> Parsed<
    Option<Seq<GenericParameterModel>>,
>
{
    optional_generic_parameters_at_def(inp, c)
}

/// [`optional_generic_parameters_at`] is what [`optional_generic_parameters_at_def`] defines.
pub proof fn lemma_optional_generic_parameters_at(inp: Input, c: Cursor)
    ensures
        optional_generic_parameters_at(inp, c) == optional_generic_parameters_at_def(inp, c),
{
    reveal(optional_generic_parameters_at);
}

/// One entry of a where clause: a type, then `:` and bounds, or `=` and a
/// type. Any other token after the first type is reported.
pub open spec fn where_clause_item_at_def(inp: Input, c: Cursor) -> Parsed<WhereClauseItemModel>
{
    let left = type_at(inp, c);
    let c1 = c.after(left);
    match left.value {
        None => c.fail(c1),
        Some(left) => if inp.at(c1, Punctuator::Colon) {
            let c2 = c1.bump(inp);
            let bounds = type_bounds_at(inp, c2);
            let c3 = c2.after(bounds);
            match bounds.value {
                None => c.fail(c3),
                Some(bounds) => c.done(c3, WhereClauseItemModel::Satisfies { ty: left, bounds }),
            }
        } else if inp.at(c1, Punctuator::Eq) {
            let c2 = c1.bump(inp);
            let right = type_at(inp, c2);
            let c3 = c2.after(right);
            match right.value {
                None => c.fail(c3),
                Some(right) => c.done(c3, WhereClauseItemModel::Eq { left, right }),
            }
        } else {
            c.fail(c1.unexpected(inp, Expected::ColonOrEq, Node::WhereClause))
        },
    }
}

/// What [`where_clause_item_at_def`] defines, kept folded until [`lemma_where_clause_item_at`]
/// unfolds it.
#[verifier::opaque]
pub open spec fn where_clause_item_at(inp: Input, c: Cursor) -> Parsed<WhereClauseItemModel>
{
    where_clause_item_at_def(inp, c)
}

/// [`where_clause_item_at`] is what [`where_clause_item_at_def`] defines.
pub proof fn lemma_where_clause_item_at(inp: Input, c: Cursor)
    ensures
        where_clause_item_at(inp, c) == where_clause_item_at_def(inp, c),
{
    reveal(where_clause_item_at);
}

/// The rest of a where clause after the entries `before`; `c` stands at the
/// first token of the next entry. The clause goes on and ends as a list
/// does, with `{` and `;` as its closing tokens.
pub open spec fn where_clause_rest_def(
    inp: Input,
    c: Cursor,
    before: Seq<WhereClauseItemModel>,
) -> Parsed<
    Seq<WhereClauseItemModel>,
>
    decreases inp.remaining(c), 0int,
{
    let brace = RawToken::Punctuator(Punctuator::OpenBrace);
    let semicolon = RawToken::Punctuator(Punctuator::Semicolon);
    let element = where_clause_item_at(inp, c);
    let c1 = c.after(element);
    match element.value {
        None => c.fail(c1),
        Some(element) => {
            let items = before.push(element);
            let c2 = list_step_end(inp, c1, brace, semicolon, Node::WhereClause);
            match list_step(inp, c1, brace, semicolon) {
                ListStep::Next => c.onward(c2, where_clause_rest(inp, c2, items)),
                ListStep::End { .. } => c.done(c2, items),
                ListStep::Abandon => c.fail(c2),
            }
        },
    }
}

/// What [`where_clause_rest_def`] defines, kept folded until [`lemma_where_clause_rest`] unfolds
/// it.
#[verifier::opaque]
pub open spec fn where_clause_rest(
    inp: Input,
    c: Cursor,
    before: Seq<WhereClauseItemModel>,
) -> Parsed<
    Seq<WhereClauseItemModel>,
>
    decreases inp.remaining(c), 1int,
{
    where_clause_rest_def(inp, c, before)
}

/// [`where_clause_rest`] is what [`where_clause_rest_def`] defines.
pub proof fn lemma_where_clause_rest(inp: Input, c: Cursor, before: Seq<WhereClauseItemModel>)
    ensures
        where_clause_rest(inp, c, before) == where_clause_rest_def(inp, c, before),
{
    reveal_with_fuel(where_clause_rest, 1);
}

/// A where clause where `where` is the next token, and nothing where it is
/// not. The clause ends before `{` or `;`, which is not consumed.
pub open spec fn optional_where_clause_at_def(inp: Input, c: Cursor) -> Parsed<
    Option<Seq<WhereClauseItemModel>>,
>
{
    if inp.peek(c).raw != RawToken::Keyword(Keyword::Where) {
        c.done(c, None)
    } else {
        let c1 = c.bump(inp);
        if inp.at(c1, Punctuator::OpenBrace) || inp.at(c1, Punctuator::Semicolon) {
            c.done(c1, Some(Seq::empty()))
        } else {
            let list = where_clause_rest(inp, c1, Seq::empty());
            let c2 = c1.after(list);
            match list.value {
                None => c.fail(c2),
                Some(items) => c.done(c2, Some(items)),
            }
        }
    }
}

/// What [`optional_where_clause_at_def`] defines, kept folded until
/// [`lemma_optional_where_clause_at`] unfolds it.
#[verifier::opaque]
pub open spec fn optional_where_clause_at(inp: Input, c: Cursor) -> Parsed<
    Option<Seq<WhereClauseItemModel>>,
>
{
    optional_where_clause_at_def(inp, c)
}

/// [`optional_where_clause_at`] is what [`optional_where_clause_at_def`] defines.
pub proof fn lemma_optional_where_clause_at(inp: Input, c: Cursor)
    ensures
        optional_where_clause_at(inp, c) == optional_where_clause_at_def(inp, c),
{
    reveal(optional_where_clause_at);
}

} // verus!
