//! Reading types, generic arguments and bounds.

use crate::ast::{
    GenericArgument, GenericParameter, Type, TypePath, TypePathSegment, WhereClauseItem,
};
use crate::diagnostics::{Expected, Node};
use crate::grammar::cursor::ListStep;
use crate::grammar::outcome::{
    read_generic_argument, read_generic_argument_list, read_generic_arguments,
    read_generic_parameter, read_generic_parameter_list, read_optional_generic_arguments,
    read_optional_generic_parameters, read_optional_where_clause_items, read_type, read_type_list,
    read_type_path, read_type_path_segment, read_type_path_segments, read_type_paths,
    read_where_clause_item, read_where_clause_items,
};
use crate::grammar::types::{
    generic_argument_at, generic_argument_list_at, generic_argument_list_rest,
    generic_arguments_at, generic_parameter_at, generic_parameter_list_at,
    generic_parameter_list_rest, optional_generic_arguments_at, optional_generic_parameters_at,
    optional_where_clause_at, parenthesized_type_at, segments_rest, trait_object_type_at, type_at,
    type_bounds_at, type_bounds_rest, type_list_at, type_list_rest, type_path_at,
    type_path_segment_at, type_with_qualified_path_at, where_clause_item_at, where_clause_rest,
};
use crate::grammar::types::{
    lemma_generic_argument_at, lemma_generic_argument_list_at, lemma_generic_argument_list_rest,
    lemma_generic_arguments_at, lemma_generic_parameter_at, lemma_generic_parameter_list_at,
    lemma_generic_parameter_list_rest, lemma_optional_generic_arguments_at,
    lemma_optional_generic_parameters_at, lemma_optional_where_clause_at,
    lemma_parenthesized_type_at, lemma_segments_rest, lemma_trait_object_type_at, lemma_type_at,
    lemma_type_bounds_at, lemma_type_bounds_rest, lemma_type_list_at, lemma_type_list_rest,
    lemma_type_path_at, lemma_type_path_segment_at, lemma_type_with_qualified_path_at,
    lemma_where_clause_item_at, lemma_where_clause_rest,
};
use crate::model::{
    generic_arguments_model, generic_parameters_model, lemma_generic_argument_model,
    lemma_generic_arguments_model_empty, lemma_generic_arguments_model_push,
    lemma_generic_parameter_model, lemma_generic_parameters_model_empty,
    lemma_generic_parameters_model_push, lemma_path_model, lemma_type_model, lemma_type_path_model,
    lemma_type_path_segment_model, lemma_type_path_segments_model_at,
    lemma_type_path_segments_model_empty, lemma_type_path_segments_model_len,
    lemma_type_path_segments_model_push, lemma_type_paths_model_empty, lemma_type_paths_model_push,
    lemma_types_model_at, lemma_types_model_empty, lemma_types_model_len, lemma_types_model_push,
    lemma_where_clause_item_model, lemma_where_clause_items_model_empty,
    lemma_where_clause_items_model_push, type_path_segments_model, type_paths_model, types_model,
    where_clause_items_model,
};
use crate::parser::state::{parse_path, ParseState};
use crate::token::{Keyword, Punctuator, RawToken};
use vstd::prelude::*;

verus! {

/// Reads the types of a list that follow those in `before`, up to
/// the closing token `closer`, which is not consumed. Returns them all and
/// whether a comma stands after the last.
#[verifier::loop_isolation(false)]
pub fn parse_type_list_rest<'a>(
    state: &mut ParseState<'a>,
    closer: Punctuator,
    node: Node,
    before: Vec<Type>,
) -> (r: Option<(Vec<Type>, bool)>)
    requires
        old(state).wf(),
    ensures
        final(state).follows(
            *old(state),
            type_list_rest(old(state).input(), old(state)@, closer, node, types_model(before@)),
        ),
        read_type_list(r) == type_list_rest(
            old(state).input(),
            old(state)@,
            closer,
            node,
            types_model(before@),
        ).value,
    decreases (old(state).input().tokens.len() - old(state)@.pos) * 32 + 16,
{
    proof {
        lemma_type_list_rest(state.input(), state@, closer, node, types_model(before@));
    }
    let ghost inp = state.input();
    let ghost c = state@;
    let mut items = before;
    let end = RawToken::Punctuator(closer);
    loop
        invariant
            state.stands_at(*old(state), state@),
            state@.pos >= c.pos,
            c.onward(
                state@,
                type_list_rest(inp, state@, closer, node, types_model(items@)),
            ) == type_list_rest(inp, c, closer, node, types_model(before@)),
        decreases inp.tokens.len() - state@.pos,
    {
        proof {
            lemma_type_list_rest(inp, state@, closer, node, types_model(items@));
        }
        let ghost prior = items@;
        let element = parse_type(state)?;
        items.push(element);
        proof {
            lemma_types_model_push(prior, element);
        }
        match state.list_step(end, end, node) {
            ListStep::Next => {},
            ListStep::End { trailing_comma } => {
                return Some((items, trailing_comma));
            },
            ListStep::Abandon => {
                return None;
            },
        }
    }
}

/// Reads a list of types up to the closing token `closer`, which is
/// not consumed. Returns them and whether a comma stands after the last.
pub fn parse_type_list<'a>(
    state: &mut ParseState<'a>,
    closer: Punctuator,
    node: Node,
) -> (r: Option<(Vec<Type>, bool)>)
    requires
        old(state).wf(),
    ensures
        final(state).follows(
            *old(state),
            type_list_at(old(state).input(), old(state)@, closer, node),
        ),
        read_type_list(r) == type_list_at(old(state).input(), old(state)@, closer, node).value,
    decreases (old(state).input().tokens.len() - old(state)@.pos) * 32 + 17,
{
    proof {
        lemma_type_list_at(state.input(), state@, closer, node);
    }
    let items: Vec<Type> = Vec::new();
    proof {
        lemma_types_model_empty();
    }
    if state.at(closer) {
        return Some((items, false));
    }
    parse_type_list_rest(state, closer, node, items)
}

/// Reads a type in parentheses, a tuple type or a function type. The next
/// token must be `(`.
pub fn parse_parenthesized_tuple_or_function_type<'a>(state: &mut ParseState<'a>) -> (r: Option<
    Type,
>)
    requires
        old(state).wf(),
        old(state).input().at(old(state)@, Punctuator::OpenParent),
    ensures
        final(state).follows(*old(state), parenthesized_type_at(old(state).input(), old(state)@)),
        read_type(r) == parenthesized_type_at(old(state).input(), old(state)@).value,
    decreases (old(state).input().tokens.len() - old(state)@.pos) * 32 + 13,
{
    proof {
        lemma_parenthesized_type_at(state.input(), state@);
    }
    let start = state.next_token().span;
    state.advance();
    let (mut element_types, trailing_comma) = parse_type_list(
        state,
        Punctuator::CloseParent,
        Node::ParenthesizedOrTupleType,
    )?;
    state.advance();
    if state.at(Punctuator::Colon) {
        state.advance();
        let return_type = parse_type(state)?;
        let function = Type::Function {
            span: state.span_from(start),
            parameter_types: element_types,
            return_type: Box::new(return_type),
        };
        proof {
            lemma_type_model(function);
        }
        return Some(function);
    }
    let span = state.span_from(start);
    if element_types.len() == 1 && !trailing_comma {
        proof {
            lemma_types_model_len(element_types@);
            lemma_types_model_at(element_types@, 0);
        }
        match element_types.pop() {
            Some(inner) => {
                let parenthesized = Type::Parenthesized { span, inner: Box::new(inner) };
                proof {
                    lemma_type_model(parenthesized);
                }
                Some(parenthesized)
            },
            None => None,
        }
    } else {
        proof {
            lemma_types_model_len(element_types@);
        }
        let tuple = Type::Tuple { span, element_types };
        proof {
            lemma_type_model(tuple);
        }
        Some(tuple)
    }
}

/// Reads a trait object type. The next token must be `dyn`.
pub fn parse_trait_object_type<'a>(state: &mut ParseState<'a>) -> (r: Option<Type>)
    requires
        old(state).wf(),
        old(state).input().peek(old(state)@).raw == RawToken::Keyword(Keyword::Dyn),
    ensures
        final(state).follows(*old(state), trait_object_type_at(old(state).input(), old(state)@)),
        read_type(r) == trait_object_type_at(old(state).input(), old(state)@).value,
    decreases (old(state).input().tokens.len() - old(state)@.pos) * 32 + 13,
{
    proof {
        lemma_trait_object_type_at(state.input(), state@);
    }
    let start = state.next_token().span;
    state.advance();
    let bounds = parse_type_bounds(state)?;
    let object = Type::TraitObject { span: state.span_from(start), bounds };
    proof {
        lemma_type_model(object);
    }
    Some(object)
}

/// Reads the segments that follow the segments `before`: as long as `.`
/// follows, a segment follows it.
#[verifier::loop_isolation(false)]
pub fn parse_segments_rest<'a>(state: &mut ParseState<'a>, before: Vec<TypePathSegment>) -> (r:
    Option<Vec<TypePathSegment>>)
    requires
        old(state).wf(),
    ensures
        final(state).follows(
            *old(state),
            segments_rest(old(state).input(), old(state)@, type_path_segments_model(before@)),
        ),
        read_type_path_segments(r) == segments_rest(
            old(state).input(),
            old(state)@,
            type_path_segments_model(before@),
        ).value,
    decreases (old(state).input().tokens.len() - old(state)@.pos) * 32 + 9,
{
    proof {
        lemma_segments_rest(state.input(), state@, type_path_segments_model(before@));
    }
    let ghost inp = state.input();
    let ghost c = state@;
    let mut segments = before;
    while state.at(Punctuator::Dot)
        invariant
            state.stands_at(*old(state), state@),
            state@.pos >= c.pos,
            c.onward(
                state@,
                segments_rest(inp, state@, type_path_segments_model(segments@)),
            ) == segments_rest(inp, c, type_path_segments_model(before@)),
        decreases inp.tokens.len() - state@.pos,
    {
        proof {
            lemma_segments_rest(inp, state@, type_path_segments_model(segments@));
        }
        let ghost prior = segments@;
        state.advance();
        let segment = parse_type_path_segment(state)?;
        segments.push(segment);
        proof {
            lemma_type_path_segments_model_push(prior, segment);
        }
    }
    proof {
        lemma_segments_rest(inp, state@, type_path_segments_model(segments@));
    }
    Some(segments)
}

/// Reads a type with a qualified path. The next token must be `[`.
pub fn parse_type_with_qualified_path<'a>(state: &mut ParseState<'a>) -> (r: Option<Type>)
    requires
        old(state).wf(),
        old(state).input().at(old(state)@, Punctuator::OpenBracket),
    ensures
        final(state).follows(
            *old(state),
            type_with_qualified_path_at(old(state).input(), old(state)@),
        ),
        read_type(r) == type_with_qualified_path_at(old(state).input(), old(state)@).value,
    decreases (old(state).input().tokens.len() - old(state)@.pos) * 32 + 13,
{
    proof {
        lemma_type_with_qualified_path_at(state.input(), state@);
    }
    let node = Node::TypeWithQualifiedPath;
    let start = state.next_token().span;
    state.advance();
    let left = parse_type(state)?;
    if state.next_token().raw == RawToken::Keyword(Keyword::As) {
        state.advance();
    } else {
        state.unexpected(Expected::Keyword(Keyword::As), node);
        return None;
    }
    let right = parse_type_path(state)?;
    state.consume(Punctuator::CloseBracket, node)?;
    state.consume(Punctuator::Dot, node)?;
    let first = parse_type_path_segment(state)?;
    let mut before: Vec<TypePathSegment> = Vec::new();
    before.push(first);
    proof {
        lemma_type_path_segments_model_empty();
        lemma_type_path_segments_model_push(Seq::empty(), first);
    }
    let segments = parse_segments_rest(state, before)?;
    let qualified = Type::WithQualifiedPath {
        span: state.span_from(start),
        left: Box::new(left),
        right,
        segments,
    };
    proof {
        lemma_type_model(qualified);
    }
    Some(qualified)
}

/// Reads a type.
pub fn parse_type<'a>(state: &mut ParseState<'a>) -> (r: Option<Type>)
    requires
        old(state).wf(),
    ensures
        final(state).follows(*old(state), type_at(old(state).input(), old(state)@)),
        read_type(r) == type_at(old(state).input(), old(state)@).value,
    decreases (old(state).input().tokens.len() - old(state)@.pos) * 32 + 14,
{
    proof {
        lemma_type_at(state.input(), state@);
    }
    match state.next_token().raw {
        RawToken::Punctuator(Punctuator::OpenParent) => parse_parenthesized_tuple_or_function_type(
            state,
        ),
        RawToken::Identifier(_) => {
            let path = parse_type_path(state)?;
            let ty = Type::Path(path);
            proof {
                lemma_type_model(ty);
            }
            Some(ty)
        },
        RawToken::Keyword(Keyword::Dyn) => parse_trait_object_type(state),
        RawToken::Punctuator(Punctuator::OpenBracket) => parse_type_with_qualified_path(state),
        _ => {
            state.unexpected(Expected::Type, Node::Type);
            None
        },
    }
}

/// Reads the bounds that follow the bounds `before`: as long as `+`
/// follows, a type path follows it.
#[verifier::loop_isolation(false)]
pub fn parse_type_bounds_rest<'a>(state: &mut ParseState<'a>, before: Vec<TypePath>) -> (r: Option<
    Vec<TypePath>,
>)
    requires
        old(state).wf(),
    ensures
        final(state).follows(
            *old(state),
            type_bounds_rest(old(state).input(), old(state)@, type_paths_model(before@)),
        ),
        read_type_paths(r) == type_bounds_rest(
            old(state).input(),
            old(state)@,
            type_paths_model(before@),
        ).value,
    decreases (old(state).input().tokens.len() - old(state)@.pos) * 32 + 11,
{
    proof {
        lemma_type_bounds_rest(state.input(), state@, type_paths_model(before@));
    }
    let ghost inp = state.input();
    let ghost c = state@;
    let mut bounds = before;
    while state.at(Punctuator::Plus)
        invariant
            state.stands_at(*old(state), state@),
            state@.pos >= c.pos,
            c.onward(
                state@,
                type_bounds_rest(inp, state@, type_paths_model(bounds@)),
            ) == type_bounds_rest(inp, c, type_paths_model(before@)),
        decreases inp.tokens.len() - state@.pos,
    {
        proof {
            lemma_type_bounds_rest(inp, state@, type_paths_model(bounds@));
        }
        let ghost prior = bounds@;
        state.advance();
        let bound = parse_type_path(state)?;
        bounds.push(bound);
        proof {
            lemma_type_paths_model_push(prior, bound);
        }
    }
    proof {
        lemma_type_bounds_rest(inp, state@, type_paths_model(bounds@));
    }
    Some(bounds)
}

/// Reads bounds: type paths separated by `+`, at least one.
pub fn parse_type_bounds<'a>(state: &mut ParseState<'a>) -> (r: Option<Vec<TypePath>>)
    requires
        old(state).wf(),
    ensures
        final(state).follows(*old(state), type_bounds_at(old(state).input(), old(state)@)),
        read_type_paths(r) == type_bounds_at(old(state).input(), old(state)@).value,
    decreases (old(state).input().tokens.len() - old(state)@.pos) * 32 + 12,
{
    proof {
        lemma_type_bounds_at(state.input(), state@);
    }
    let first = parse_type_path(state)?;
    let mut before: Vec<TypePath> = Vec::new();
    before.push(first);
    proof {
        lemma_type_paths_model_empty();
        lemma_type_paths_model_push(Seq::empty(), first);
    }
    parse_type_bounds_rest(state, before)
}

/// Reads a type path: segments separated by `.`, at least one.
pub fn parse_type_path<'a>(state: &mut ParseState<'a>) -> (r: Option<TypePath>)
    requires
        old(state).wf(),
    ensures
        final(state).follows(*old(state), type_path_at(old(state).input(), old(state)@)),
        read_type_path(r) == type_path_at(old(state).input(), old(state)@).value,
    decreases (old(state).input().tokens.len() - old(state)@.pos) * 32 + 10,
{
    proof {
        lemma_type_path_at(state.input(), state@);
    }
    let start = state.next_token().span;
    let first = parse_type_path_segment(state)?;
    let mut before: Vec<TypePathSegment> = Vec::new();
    before.push(first);
    proof {
        lemma_type_path_segments_model_empty();
        lemma_type_path_segments_model_push(Seq::empty(), first);
    }
    let segments = parse_segments_rest(state, before)?;
    let path = TypePath { span: state.span_from(start), segments };
    proof {
        lemma_type_path_model(path);
    }
    Some(path)
}

/// Reads a segment of a type path: a path, and generic arguments where `[`
/// follows it.
pub fn parse_type_path_segment<'a>(state: &mut ParseState<'a>) -> (r: Option<TypePathSegment>)
    requires
        old(state).wf(),
    ensures
        final(state).follows(*old(state), type_path_segment_at(old(state).input(), old(state)@)),
        read_type_path_segment(r) == type_path_segment_at(old(state).input(), old(state)@).value,
    decreases (old(state).input().tokens.len() - old(state)@.pos) * 32 + 8,
{
    proof {
        lemma_type_path_segment_at(state.input(), state@);
    }
    let path = parse_path(state, Node::Type)?;
    let generic_arguments = optionally_parse_generic_arguments(state)?;
    proof {
        lemma_path_model(path);
    }
    let segment = TypePathSegment { span: state.span_from(path.span), path, generic_arguments };
    proof {
        lemma_type_path_segment_model(segment);
    }
    Some(segment)
}

/// Reads generic arguments where `[` is the next token, and nothing where
/// it is not.
pub fn optionally_parse_generic_arguments<'a>(state: &mut ParseState<'a>) -> (r: Option<
    Option<Vec<GenericArgument>>,
>)
    requires
        old(state).wf(),
    ensures
        final(state).follows(
            *old(state),
            optional_generic_arguments_at(old(state).input(), old(state)@),
        ),
        read_optional_generic_arguments(r) == optional_generic_arguments_at(
            old(state).input(),
            old(state)@,
        ).value,
    decreases (old(state).input().tokens.len() - old(state)@.pos) * 32 + 7,
{
    proof {
        lemma_optional_generic_arguments_at(state.input(), state@);
    }
    if !state.at(Punctuator::OpenBracket) {
        return Some(None);
    }
    let arguments = parse_generic_arguments(state)?;
    Some(Some(arguments))
}

/// Reads the generic arguments of a list that follow those in `before`, up to
/// the closing token `closer`, which is not consumed. Returns them all and
/// whether a comma stands after the last.
#[verifier::loop_isolation(false)]
pub fn parse_generic_argument_list_rest<'a>(
    state: &mut ParseState<'a>,
    closer: Punctuator,
    node: Node,
    before: Vec<GenericArgument>,
) -> (r: Option<(Vec<GenericArgument>, bool)>)
    requires
        old(state).wf(),
    ensures
        final(state).follows(
            *old(state),
            generic_argument_list_rest(
                old(state).input(),
                old(state)@,
                closer,
                node,
                generic_arguments_model(before@),
            ),
        ),
        read_generic_argument_list(r) == generic_argument_list_rest(
            old(state).input(),
            old(state)@,
            closer,
            node,
            generic_arguments_model(before@),
        ).value,
    decreases (old(state).input().tokens.len() - old(state)@.pos) * 32 + 16,
{
    proof {
        lemma_generic_argument_list_rest(
            state.input(),
            state@,
            closer,
            node,
            generic_arguments_model(before@),
        );
    }
    let ghost inp = state.input();
    let ghost c = state@;
    let mut items = before;
    let end = RawToken::Punctuator(closer);
    loop
        invariant
            state.stands_at(*old(state), state@),
            state@.pos >= c.pos,
            c.onward(
                state@,
                generic_argument_list_rest(
                    inp,
                    state@,
                    closer,
                    node,
                    generic_arguments_model(items@),
                ),
            ) == generic_argument_list_rest(inp, c, closer, node, generic_arguments_model(before@)),
        decreases inp.tokens.len() - state@.pos,
    {
        proof {
            lemma_generic_argument_list_rest(
                inp,
                state@,
                closer,
                node,
                generic_arguments_model(items@),
            );
        }
        let ghost prior = items@;
        let element = parse_generic_argument(state)?;
        items.push(element);
        proof {
            lemma_generic_arguments_model_push(prior, element);
        }
        match state.list_step(end, end, node) {
            ListStep::Next => {},
            ListStep::End { trailing_comma } => {
                return Some((items, trailing_comma));
            },
            ListStep::Abandon => {
                return None;
            },
        }
    }
}

/// Reads a list of generic arguments up to the closing token `closer`, which is
/// not consumed. Returns them and whether a comma stands after the last.
pub fn parse_generic_argument_list<'a>(
    state: &mut ParseState<'a>,
    closer: Punctuator,
    node: Node,
) -> (r: Option<(Vec<GenericArgument>, bool)>)
    requires
        old(state).wf(),
    ensures
        final(state).follows(
            *old(state),
            generic_argument_list_at(old(state).input(), old(state)@, closer, node),
        ),
        read_generic_argument_list(r) == generic_argument_list_at(
            old(state).input(),
            old(state)@,
            closer,
            node,
        ).value,
    decreases (old(state).input().tokens.len() - old(state)@.pos) * 32 + 17,
{
    proof {
        lemma_generic_argument_list_at(state.input(), state@, closer, node);
    }
    let items: Vec<GenericArgument> = Vec::new();
    proof {
        lemma_generic_arguments_model_empty();
    }
    if state.at(closer) {
        return Some((items, false));
    }
    parse_generic_argument_list_rest(state, closer, node, items)
}

/// Reads generic arguments in brackets. The next token must be `[`.
pub fn parse_generic_arguments<'a>(state: &mut ParseState<'a>) -> (r: Option<Vec<GenericArgument>>)
    requires
        old(state).wf(),
        old(state).input().at(old(state)@, Punctuator::OpenBracket),
    ensures
        final(state).follows(*old(state), generic_arguments_at(old(state).input(), old(state)@)),
        read_generic_arguments(r) == generic_arguments_at(old(state).input(), old(state)@).value,
    decreases (old(state).input().tokens.len() - old(state)@.pos) * 32 + 6,
{
    proof {
        lemma_generic_arguments_at(state.input(), state@);
    }
    state.advance();
    let (arguments, _) = parse_generic_argument_list(
        state,
        Punctuator::CloseBracket,
        Node::GenericArguments,
    )?;
    state.advance();
    Some(arguments)
}

/// Reads one generic argument: a type, or the binding of an associated
/// type where `=` follows a single name.
pub fn parse_generic_argument<'a>(state: &mut ParseState<'a>) -> (r: Option<GenericArgument>)
    requires
        old(state).wf(),
    ensures
        final(state).follows(*old(state), generic_argument_at(old(state).input(), old(state)@)),
        read_generic_argument(r) == generic_argument_at(old(state).input(), old(state)@).value,
    decreases (old(state).input().tokens.len() - old(state)@.pos) * 32 + 15,
{
    proof {
        lemma_generic_argument_at(state.input(), state@);
    }
    let ty = parse_type(state)?;
    if !state.at(Punctuator::Eq) {
        let argument = GenericArgument::Type(ty);
        proof {
            lemma_generic_argument_model(argument);
        }
        return Some(argument);
    }
    proof {
        lemma_type_model(ty);
    }
    let name = match &ty {
        Type::Path(path) => {
            proof {
                lemma_type_path_model(*path);
                lemma_type_path_segments_model_len(path.segments@);
                if path.segments@.len() == 1 {
                    lemma_type_path_segments_model_at(path.segments@, 0);
                    lemma_type_path_segment_model(path.segments@[0]);
                    lemma_path_model(path.segments@[0].path);
                }
            }
            if path.segments.len() == 1 && path.segments[0].generic_arguments.is_none()
                && path.segments[0].path.identifiers.len() == 1 {
                Some(path.segments[0].path.identifiers[0])
            } else {
                None
            }
        },
        _ => None,
    };
    match name {
        None => None,
        Some(name) => {
            state.advance();
            let value = parse_type(state)?;
            let argument = GenericArgument::AssociatedType { name, value };
            proof {
                lemma_generic_argument_model(argument);
            }
            Some(argument)
        },
    }
}

/// Reads one generic parameter: a name, bounds after `:` and a default
/// after `=`.
pub fn parse_generic_parameter<'a>(state: &mut ParseState<'a>) -> (r: Option<GenericParameter>)
    requires
        old(state).wf(),
    ensures
        final(state).follows(*old(state), generic_parameter_at(old(state).input(), old(state)@)),
        read_generic_parameter(r) == generic_parameter_at(old(state).input(), old(state)@).value,
{
    proof {
        lemma_generic_parameter_at(state.input(), state@);
    }
    let name = state.consume_identifier(Node::GenericParameters)?;
    let bounds = if state.at(Punctuator::Colon) {
        state.advance();
        Some(parse_type_bounds(state)?)
    } else {
        None
    };
    let default_value = if state.at(Punctuator::Eq) {
        state.advance();
        Some(parse_type(state)?)
    } else {
        None
    };
    let parameter = GenericParameter { name, bounds, default_value };
    proof {
        lemma_generic_parameter_model(parameter);
    }
    Some(parameter)
}

/// Reads the generic parameters of a list that follow those in `before`, up to
/// the closing token `closer`, which is not consumed. Returns them all and
/// whether a comma stands after the last.
#[verifier::loop_isolation(false)]
pub fn parse_generic_parameter_list_rest<'a>(
    state: &mut ParseState<'a>,
    closer: Punctuator,
    node: Node,
    before: Vec<GenericParameter>,
) -> (r: Option<(Vec<GenericParameter>, bool)>)
    requires
        old(state).wf(),
    ensures
        final(state).follows(
            *old(state),
            generic_parameter_list_rest(
                old(state).input(),
                old(state)@,
                closer,
                node,
                generic_parameters_model(before@),
            ),
        ),
        read_generic_parameter_list(r) == generic_parameter_list_rest(
            old(state).input(),
            old(state)@,
            closer,
            node,
            generic_parameters_model(before@),
        ).value,
{
    proof {
        lemma_generic_parameter_list_rest(
            state.input(),
            state@,
            closer,
            node,
            generic_parameters_model(before@),
        );
    }
    let ghost inp = state.input();
    let ghost c = state@;
    let mut items = before;
    let end = RawToken::Punctuator(closer);
    loop
        invariant
            state.stands_at(*old(state), state@),
            state@.pos >= c.pos,
            c.onward(
                state@,
                generic_parameter_list_rest(
                    inp,
                    state@,
                    closer,
                    node,
                    generic_parameters_model(items@),
                ),
            ) == generic_parameter_list_rest(
                inp,
                c,
                closer,
                node,
                generic_parameters_model(before@),
            ),
        decreases inp.tokens.len() - state@.pos,
    {
        proof {
            lemma_generic_parameter_list_rest(
                inp,
                state@,
                closer,
                node,
                generic_parameters_model(items@),
            );
        }
        let ghost prior = items@;
        let element = parse_generic_parameter(state)?;
        items.push(element);
        proof {
            lemma_generic_parameters_model_push(prior, element);
        }
        match state.list_step(end, end, node) {
            ListStep::Next => {},
            ListStep::End { trailing_comma } => {
                return Some((items, trailing_comma));
            },
            ListStep::Abandon => {
                return None;
            },
        }
    }
}

/// Reads a list of generic parameters up to the closing token `closer`, which is
/// not consumed. Returns them and whether a comma stands after the last.
pub fn parse_generic_parameter_list<'a>(
    state: &mut ParseState<'a>,
    closer: Punctuator,
    node: Node,
) -> (r: Option<(Vec<GenericParameter>, bool)>)
    requires
        old(state).wf(),
    ensures
        final(state).follows(
            *old(state),
            generic_parameter_list_at(old(state).input(), old(state)@, closer, node),
        ),
        read_generic_parameter_list(r) == generic_parameter_list_at(
            old(state).input(),
            old(state)@,
            closer,
            node,
        ).value,
{
    proof {
        lemma_generic_parameter_list_at(state.input(), state@, closer, node);
    }
    let items: Vec<GenericParameter> = Vec::new();
    proof {
        lemma_generic_parameters_model_empty();
    }
    if state.at(closer) {
        return Some((items, false));
    }
    parse_generic_parameter_list_rest(state, closer, node, items)
}

/// Reads generic parameters in brackets where `[` is the next token, and
/// nothing where it is not.
pub fn optionally_parse_generic_parameters<'a>(state: &mut ParseState<'a>) -> (r: Option<
    Option<Vec<GenericParameter>>,
>)
    requires
        old(state).wf(),
    ensures
        final(state).follows(
            *old(state),
            optional_generic_parameters_at(old(state).input(), old(state)@),
        ),
        read_optional_generic_parameters(r) == optional_generic_parameters_at(
            old(state).input(),
            old(state)@,
        ).value,
{
    proof {
        lemma_optional_generic_parameters_at(state.input(), state@);
    }
    if !state.at(Punctuator::OpenBracket) {
        return Some(None);
    }
    state.advance();
    let (parameters, _) = parse_generic_parameter_list(
        state,
        Punctuator::CloseBracket,
        Node::GenericParameters,
    )?;
    state.advance();
    Some(Some(parameters))
}

/// Reads one entry of a where clause.
pub fn parse_where_clause_item<'a>(state: &mut ParseState<'a>) -> (r: Option<WhereClauseItem>)
    requires
        old(state).wf(),
    ensures
        final(state).follows(*old(state), where_clause_item_at(old(state).input(), old(state)@)),
        read_where_clause_item(r) == where_clause_item_at(old(state).input(), old(state)@).value,
{
    proof {
        lemma_where_clause_item_at(state.input(), state@);
    }
    let left = parse_type(state)?;
    if state.at(Punctuator::Colon) {
        state.advance();
        let bounds = parse_type_bounds(state)?;
        let item = WhereClauseItem::Satisfies { ty: left, bounds };
        proof {
            lemma_where_clause_item_model(item);
        }
        Some(item)
    } else if state.at(Punctuator::Eq) {
        state.advance();
        let right = parse_type(state)?;
        let item = WhereClauseItem::Eq { left, right };
        proof {
            lemma_where_clause_item_model(item);
        }
        Some(item)
    } else {
        state.unexpected(Expected::ColonOrEq, Node::WhereClause);
        None
    }
}

/// Reads the entries of a where clause that follow those in `before`, up
/// to `{` or `;`, which is not consumed.
#[verifier::loop_isolation(false)]
pub fn parse_where_clause_rest<'a>(state: &mut ParseState<'a>, before: Vec<WhereClauseItem>) -> (r:
    Option<Vec<WhereClauseItem>>)
    requires
        old(state).wf(),
    ensures
        final(state).follows(
            *old(state),
            where_clause_rest(old(state).input(), old(state)@, where_clause_items_model(before@)),
        ),
        read_where_clause_items(r) == where_clause_rest(
            old(state).input(),
            old(state)@,
            where_clause_items_model(before@),
        ).value,
{
    proof {
        lemma_where_clause_rest(state.input(), state@, where_clause_items_model(before@));
    }
    let ghost inp = state.input();
    let ghost c = state@;
    let mut items = before;
    let brace = RawToken::Punctuator(Punctuator::OpenBrace);
    let semicolon = RawToken::Punctuator(Punctuator::Semicolon);
    loop
        invariant
            state.stands_at(*old(state), state@),
            state@.pos >= c.pos,
            c.onward(
                state@,
                where_clause_rest(inp, state@, where_clause_items_model(items@)),
            ) == where_clause_rest(inp, c, where_clause_items_model(before@)),
        decreases inp.tokens.len() - state@.pos,
    {
        proof {
            lemma_where_clause_rest(inp, state@, where_clause_items_model(items@));
        }
        let ghost prior = items@;
        let element = parse_where_clause_item(state)?;
        items.push(element);
        proof {
            lemma_where_clause_items_model_push(prior, element);
        }
        match state.list_step(brace, semicolon, Node::WhereClause) {
            ListStep::Next => {},
            ListStep::End { .. } => {
                return Some(items);
            },
            ListStep::Abandon => {
                return None;
            },
        }
    }
}

/// Reads a where clause where `where` is the next token, and nothing where
/// it is not.
pub fn optionally_parse_where_clause<'a>(state: &mut ParseState<'a>) -> (r: Option<
    Option<Vec<WhereClauseItem>>,
>)
    requires
        old(state).wf(),
    ensures
        final(state).follows(
            *old(state),
            optional_where_clause_at(old(state).input(), old(state)@),
        ),
        read_optional_where_clause_items(r) == optional_where_clause_at(
            old(state).input(),
            old(state)@,
        ).value,
{
    proof {
        lemma_optional_where_clause_at(state.input(), state@);
    }
    if state.next_token().raw != RawToken::Keyword(Keyword::Where) {
        return Some(None);
    }
    state.advance();
    let items: Vec<WhereClauseItem> = Vec::new();
    proof {
        lemma_where_clause_items_model_empty();
    }
    if state.at(Punctuator::OpenBrace) || state.at(Punctuator::Semicolon) {
        return Some(Some(items));
    }
    let items = parse_where_clause_rest(state, items)?;
    Some(Some(items))
}

} // verus!
