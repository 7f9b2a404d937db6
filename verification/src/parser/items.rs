//! Reading items and modules.

use crate::ast::{
    EnumItem, Function, FunctionParameter, GenericParameter, IdentifierAst, Impl, ImportPath, Item,
    JustFunctionParameter, Module, SelfParameter, StructField, TraitItem, TupleField, Type,
    TypeAlias, Visibility, WhereClauseItem,
};
use crate::diagnostics::{Expected, Node, ParseDiagnostic};
use crate::grammar::cursor::{Input, ListStep};
use crate::grammar::items::{
    docstring_at, docstring_rest, enum_at, enum_item_at, enum_item_list_at, enum_item_list_rest,
    fields_struct_at, function_at, function_parameter_at, function_parameter_list_at,
    function_parameter_list_rest, function_tail_at, heading_at, impl_at, implemented_at, import_at,
    item_at, item_body_at, items_rest, lemma_docstring_rest, lemma_enum_at, lemma_enum_item_at,
    lemma_enum_item_list_at, lemma_enum_item_list_rest, lemma_fields_struct_at, lemma_function_at,
    lemma_function_parameter_at, lemma_function_parameter_list_at,
    lemma_function_parameter_list_rest, lemma_function_tail_at, lemma_heading_at, lemma_impl_at,
    lemma_implemented_at, lemma_import_at, lemma_item_at, lemma_item_body_at, lemma_items_rest,
    lemma_module_at, lemma_optional_type_at, lemma_struct_at, lemma_struct_field_at,
    lemma_struct_field_list_at, lemma_struct_field_list_rest, lemma_trait_at, lemma_trait_body_at,
    lemma_trait_item_at, lemma_trait_items_rest, lemma_tuple_field_at, lemma_tuple_field_list_at,
    lemma_tuple_field_list_rest, lemma_tuple_struct_at, lemma_type_alias_at, lemma_visibility_at,
    module_at, optional_type_at, parse_result, struct_at, struct_field_at, struct_field_list_at,
    struct_field_list_rest, trait_at, trait_body_at, trait_item_at, trait_items_rest,
    tuple_field_at, tuple_field_list_at, tuple_field_list_rest, tuple_struct_at, type_alias_at,
    visibility_at,
};
use crate::grammar::outcome::{
    read_enum_item, read_enum_item_list, read_function, read_function_parameter,
    read_function_parameter_list, read_generic_parameters, read_heading, read_impl,
    read_implemented, read_item, optional_text, read_optional_type, read_struct_field,
    read_struct_field_list, read_trait_item, read_trait_items, read_tuple_field,
    read_tuple_field_list, read_type_alias,
};
use crate::interner::Interner;
use crate::model::{
    enum_items_model, function_parameters_model, items_model, lemma_enum_item_model,
    lemma_enum_items_model_empty, lemma_enum_items_model_push, lemma_function_model,
    lemma_function_parameter_model, lemma_function_parameters_model_empty,
    lemma_function_parameters_model_push, lemma_impl_model, lemma_import_path_model,
    lemma_item_model, lemma_items_model_empty, lemma_items_model_push,
    lemma_just_function_parameter_model, lemma_module_model, lemma_self_parameter_model,
    lemma_struct_field_model, lemma_struct_fields_model_empty, lemma_struct_fields_model_push,
    lemma_trait_item_model, lemma_trait_items_model_empty, lemma_trait_items_model_push,
    lemma_tuple_field_model, lemma_tuple_fields_model_empty, lemma_tuple_fields_model_push,
    lemma_type_alias_model, module_model, struct_fields_model, trait_items_model,
    tuple_fields_model,
};
use crate::parser::expressions::parse_block;
use crate::parser::state::{parse_path, ParseState};
use crate::parser::types::{
    optionally_parse_generic_parameters, optionally_parse_where_clause, parse_type,
    parse_type_bounds,
};
use crate::token::{Keyword, Punctuator, RawToken, Token};
use vstd::prelude::*;

verus! {

/// Reads the comments that document the module, with `global`, or an item,
/// and returns their texts as one, each followed by a line feed.
#[verifier::loop_isolation(false)]
pub fn parse_docstring<'a>(state: &mut ParseState<'a>, global: bool) -> (r: Option<String>)
    requires
        old(state).wf(),
    ensures
        final(state).follows(*old(state), docstring_at(old(state).input(), old(state)@, global)),
        Some(optional_text(r)) == docstring_at(old(state).input(), old(state)@, global).value,
{
    let ghost inp = state.input();
    let ghost c = state@;
    proof {
        lemma_docstring_rest(inp, c, global, Seq::empty(), false);
    }
    let mut text = String::new();
    let mut any = false;
    loop
        invariant
            state.stands_at(*old(state), state@),
            state@.pos >= c.pos,
            c.onward(state@, docstring_rest(inp, state@, global, text@, any)) == docstring_rest(
                inp,
                c,
                global,
                Seq::empty(),
                false,
            ),
        decreases inp.tokens.len() - state@.pos,
    {
        proof {
            lemma_docstring_rest(inp, state@, global, text@, any);
        }
        let found = match state.next_token().raw {
            RawToken::GlobalDocComment(symbol) => if global {
                Some(symbol)
            } else {
                None
            },
            RawToken::LocalDocComment(symbol) => if global {
                None
            } else {
                Some(symbol)
            },
            _ => None,
        };
        let symbol = match found {
            Some(symbol) => symbol,
            None => {
                return if any {
                    Some(text)
                } else {
                    None
                };
            },
        };
        let part = state.resolve(symbol);
        let ghost before = text@;
        text.append(part.as_str());
        text.push('\n');
        assert(text@ =~= before + part@ + seq!['\n']);
        any = true;
        state.advance();
    }
}

/// Reads the visibility of an item: `pub` where it is the next token.
pub fn parse_visibility<'a>(state: &mut ParseState<'a>) -> (r: Visibility)
    requires
        old(state).wf(),
    ensures
        final(state).follows(*old(state), visibility_at(old(state).input(), old(state)@)),
        Some(r) == visibility_at(old(state).input(), old(state)@).value,
{
    proof {
        lemma_visibility_at(state.input(), state@);
    }
    let token = state.next_token();
    if token.raw == RawToken::Keyword(Keyword::Pub) {
        state.advance();
        Visibility::public(token.span)
    } else {
        Visibility::private()
    }
}

/// Reads a type after `:` where `:` is the next token, and nothing where it
/// is not.
pub fn optionally_parse_type<'a>(state: &mut ParseState<'a>) -> (r: Option<Option<Type>>)
    requires
        old(state).wf(),
    ensures
        final(state).follows(*old(state), optional_type_at(old(state).input(), old(state)@)),
        read_optional_type(r) == optional_type_at(old(state).input(), old(state)@).value,
{
    proof {
        lemma_optional_type_at(state.input(), state@);
    }
    if !state.at(Punctuator::Colon) {
        return Some(None);
    }
    state.advance();
    let ty = parse_type(state)?;
    Some(Some(ty))
}

/// Reads one parameter of a function.
pub fn parse_function_parameter<'a>(state: &mut ParseState<'a>) -> (r: Option<FunctionParameter>)
    requires
        old(state).wf(),
    ensures
        final(state).follows(*old(state), function_parameter_at(old(state).input(), old(state)@)),
        read_function_parameter(r) == function_parameter_at(old(state).input(), old(state)@).value,
{
    proof {
        lemma_function_parameter_at(state.input(), state@);
    }
    let token = state.next_token();
    let is_self = match token.raw {
        RawToken::Identifier(symbol) => state.resolve(symbol) == String::from_str("self"),
        _ => false,
    };
    let parameter = if is_self {
        state.advance();
        let ty = optionally_parse_type(state)?;
        let this = SelfParameter { self_span: token.span, ty };
        proof {
            lemma_self_parameter_model(this);
        }
        FunctionParameter::Self_(this)
    } else {
        let name = state.consume_identifier(Node::FunctionParameter)?;
        state.consume(Punctuator::Colon, Node::FunctionParameter)?;
        let ty = parse_type(state)?;
        let just = JustFunctionParameter { name, ty };
        proof {
            lemma_just_function_parameter_model(just);
        }
        FunctionParameter::Just(just)
    };
    proof {
        lemma_function_parameter_model(parameter);
    }
    Some(parameter)
}

/// Reads the parameters of a function of a list that follow those in `before`, up to
/// the closing token `closer`, which is not consumed. Returns them all and
/// whether a comma stands after the last.
#[verifier::loop_isolation(false)]
pub fn parse_function_parameter_list_rest<'a>(
    state: &mut ParseState<'a>,
    closer: Punctuator,
    node: Node,
    before: Vec<FunctionParameter>,
) -> (r: Option<(Vec<FunctionParameter>, bool)>)
    requires
        old(state).wf(),
    ensures
        final(state).follows(
            *old(state),
            function_parameter_list_rest(
                old(state).input(),
                old(state)@,
                closer,
                node,
                function_parameters_model(before@),
            ),
        ),
        read_function_parameter_list(r) == function_parameter_list_rest(
            old(state).input(),
            old(state)@,
            closer,
            node,
            function_parameters_model(before@),
        ).value,
{
    let ghost inp = state.input();
    let ghost c = state@;
    proof {
        lemma_function_parameter_list_rest(
            inp,
            c,
            closer,
            node,
            function_parameters_model(before@),
        );
    }
    let mut items = before;
    let end = RawToken::Punctuator(closer);
    loop
        invariant
            state.stands_at(*old(state), state@),
            state@.pos >= c.pos,
            c.onward(
                state@,
                function_parameter_list_rest(
                    inp,
                    state@,
                    closer,
                    node,
                    function_parameters_model(items@),
                ),
            ) == function_parameter_list_rest(
                inp,
                c,
                closer,
                node,
                function_parameters_model(before@),
            ),
        decreases inp.tokens.len() - state@.pos,
    {
        proof {
            lemma_function_parameter_list_rest(
                inp,
                state@,
                closer,
                node,
                function_parameters_model(items@),
            );
        }
        let ghost prior = items@;
        let element = parse_function_parameter(state)?;
        items.push(element);
        proof {
            lemma_function_parameters_model_push(prior, element);
        }
        match state.list_step(end, end, node) {
            ListStep::Next => {},
            ListStep::End { trailing_comma } => {
                return Some((items, trailing_comma));
            },
            ListStep::Abandon => {
                return None;
            },
        }
    }
}

/// Reads a list of parameters of a function up to the closing token `closer`, which is
/// not consumed. Returns them and whether a comma stands after the last.
pub fn parse_function_parameter_list<'a>(
    state: &mut ParseState<'a>,
    closer: Punctuator,
    node: Node,
) -> (r: Option<(Vec<FunctionParameter>, bool)>)
    requires
        old(state).wf(),
    ensures
        final(state).follows(
            *old(state),
            function_parameter_list_at(old(state).input(), old(state)@, closer, node),
        ),
        read_function_parameter_list(r) == function_parameter_list_at(
            old(state).input(),
            old(state)@,
            closer,
            node,
        ).value,
{
    proof {
        lemma_function_parameter_list_at(state.input(), state@, closer, node);
        lemma_function_parameters_model_empty();
    }
    let items: Vec<FunctionParameter> = Vec::new();
    if state.at(closer) {
        return Some((items, false));
    }
    parse_function_parameter_list_rest(state, closer, node, items)
}
/// Reads what follows the parameters of a function: a return type, a where
/// clause, and `;` or the body. What was read before is given.
pub fn parse_function_tail<'a>(
    state: &mut ParseState<'a>,
    visibility: Visibility,
    docstring: Option<String>,
    name: IdentifierAst,
    generic_parameters: Option<Vec<GenericParameter>>,
    parameters: Vec<FunctionParameter>,
) -> (r: Option<Function>)
    requires
        old(state).wf(),
    ensures
        final(state).follows(
            *old(state),
            function_tail_at(
                old(state).input(),
                old(state)@,
                visibility,
                optional_text(docstring),
                name,
                read_generic_parameters(generic_parameters),
                function_parameters_model(parameters@),
            ),
        ),
        read_function(r) == function_tail_at(
            old(state).input(),
            old(state)@,
            visibility,
            optional_text(docstring),
            name,
            read_generic_parameters(generic_parameters),
            function_parameters_model(parameters@),
        ).value,
{
    proof {
        lemma_function_tail_at(
            state.input(),
            state@,
            visibility,
            optional_text(docstring),
            name,
            read_generic_parameters(generic_parameters),
            function_parameters_model(parameters@),
        );
    }
    let return_type = optionally_parse_type(state)?;
    let where_clause = optionally_parse_where_clause(state)?;
    let body = if state.at(Punctuator::Semicolon) {
        state.advance();
        None
    } else {
        Some(parse_block(state)?)
    };
    let function = Function {
        visibility,
        name,
        generic_parameters,
        parameters,
        return_type,
        where_clause,
        body,
        docstring,
    };
    proof {
        lemma_function_model(function);
    }
    Some(function)
}

/// Reads a function. The next token must be `fun`.
pub fn parse_function<'a>(
    state: &mut ParseState<'a>,
    visibility: Visibility,
    docstring: Option<String>,
) -> (r: Option<Function>)
    requires
        old(state).wf(),
    ensures
        final(state).follows(
            *old(state),
            function_at(old(state).input(), old(state)@, visibility, optional_text(docstring)),
        ),
        read_function(r) == function_at(
            old(state).input(),
            old(state)@,
            visibility,
            optional_text(docstring),
        ).value,
{
    proof {
        lemma_function_at(state.input(), state@, visibility, optional_text(docstring));
    }
    if state.next_token().raw != RawToken::Keyword(Keyword::Fun) {
        return None;
    }
    state.advance();
    let name = state.consume_identifier(Node::Function)?;
    let generic_parameters = optionally_parse_generic_parameters(state)?;
    state.consume(Punctuator::OpenParent, Node::Function)?;
    let (parameters, _) = parse_function_parameter_list(
        state,
        Punctuator::CloseParent,
        Node::Function,
    )?;
    state.advance();
    parse_function_tail(state, visibility, docstring, name, generic_parameters, parameters)
}

/// Reads a type alias. The next token must be `type`.
pub fn parse_type_alias<'a>(
    state: &mut ParseState<'a>,
    visibility: Visibility,
    docstring: Option<String>,
) -> (r: Option<TypeAlias>)
    requires
        old(state).wf(),
    ensures
        final(state).follows(
            *old(state),
            type_alias_at(old(state).input(), old(state)@, visibility, optional_text(docstring)),
        ),
        read_type_alias(r) == type_alias_at(
            old(state).input(),
            old(state)@,
            visibility,
            optional_text(docstring),
        ).value,
{
    proof {
        lemma_type_alias_at(state.input(), state@, visibility, optional_text(docstring));
    }
    if state.next_token().raw != RawToken::Keyword(Keyword::Type) {
        return None;
    }
    state.advance();
    let name = state.consume_identifier(Node::TypeAlias)?;
    let generic_parameters = optionally_parse_generic_parameters(state)?;
    let bounds = if state.at(Punctuator::Colon) {
        state.advance();
        Some(parse_type_bounds(state)?)
    } else {
        None
    };
    let value = if state.at(Punctuator::Eq) {
        state.advance();
        Some(parse_type(state)?)
    } else {
        None
    };
    state.consume(Punctuator::Semicolon, Node::TypeAlias)?;
    let alias = TypeAlias { visibility, name, generic_parameters, bounds, value, docstring };
    proof {
        lemma_type_alias_model(alias);
    }
    Some(alias)
}

/// Reads an import. The next token must be `import` or `use`.
pub fn parse_import<'a>(state: &mut ParseState<'a>, visibility: Visibility) -> (r: Option<Item>)
    requires
        old(state).wf(),
    ensures
        final(state).follows(*old(state), import_at(old(state).input(), old(state)@, visibility)),
        read_item(r) == import_at(old(state).input(), old(state)@, visibility).value,
{
    proof {
        lemma_import_at(state.input(), state@, visibility);
    }
    let raw = state.next_token().raw;
    if raw != RawToken::Keyword(Keyword::Import) && raw != RawToken::Keyword(Keyword::Use) {
        return None;
    }
    state.advance();
    let left = parse_path(state, Node::Import)?;
    let alias = if state.next_token().raw == RawToken::Keyword(Keyword::As) {
        state.advance();
        Some(state.consume_identifier(Node::Import)?)
    } else {
        None
    };
    state.consume(Punctuator::Semicolon, Node::Import)?;
    let path = ImportPath { left, alias };
    proof {
        lemma_import_path_model(path);
    }
    let item = Item::Import { visibility, path };
    proof {
        lemma_item_model(item);
    }
    Some(item)
}

/// Reads one field without a name: a visibility and a type.
pub fn parse_tuple_field<'a>(state: &mut ParseState<'a>) -> (r: Option<TupleField>)
    requires
        old(state).wf(),
    ensures
        final(state).follows(*old(state), tuple_field_at(old(state).input(), old(state)@)),
        read_tuple_field(r) == tuple_field_at(old(state).input(), old(state)@).value,
{
    proof {
        lemma_tuple_field_at(state.input(), state@);
    }
    let visibility = parse_visibility(state);
    let ty = parse_type(state)?;
    let field = TupleField { visibility, ty };
    proof {
        lemma_tuple_field_model(field);
    }
    Some(field)
}

/// Reads the fields without names of a list that follow those in `before`, up to
/// the closing token `closer`, which is not consumed. Returns them all and
/// whether a comma stands after the last.
#[verifier::loop_isolation(false)]
pub fn parse_tuple_field_list_rest<'a>(
    state: &mut ParseState<'a>,
    closer: Punctuator,
    node: Node,
    before: Vec<TupleField>,
) -> (r: Option<(Vec<TupleField>, bool)>)
    requires
        old(state).wf(),
    ensures
        final(state).follows(
            *old(state),
            tuple_field_list_rest(
                old(state).input(),
                old(state)@,
                closer,
                node,
                tuple_fields_model(before@),
            ),
        ),
        read_tuple_field_list(r) == tuple_field_list_rest(
            old(state).input(),
            old(state)@,
            closer,
            node,
            tuple_fields_model(before@),
        ).value,
{
    let ghost inp = state.input();
    let ghost c = state@;
    proof {
        lemma_tuple_field_list_rest(inp, c, closer, node, tuple_fields_model(before@));
    }
    let mut items = before;
    let end = RawToken::Punctuator(closer);
    loop
        invariant
            state.stands_at(*old(state), state@),
            state@.pos >= c.pos,
            c.onward(
                state@,
                tuple_field_list_rest(inp, state@, closer, node, tuple_fields_model(items@)),
            ) == tuple_field_list_rest(inp, c, closer, node, tuple_fields_model(before@)),
        decreases inp.tokens.len() - state@.pos,
    {
        proof {
            lemma_tuple_field_list_rest(inp, state@, closer, node, tuple_fields_model(items@));
        }
        let ghost prior = items@;
        let element = parse_tuple_field(state)?;
        items.push(element);
        proof {
            lemma_tuple_fields_model_push(prior, element);
        }
        match state.list_step(end, end, node) {
            ListStep::Next => {},
            ListStep::End { trailing_comma } => {
                return Some((items, trailing_comma));
            },
            ListStep::Abandon => {
                return None;
            },
        }
    }
}

/// Reads a list of fields without names up to the closing token `closer`, which is
/// not consumed. Returns them and whether a comma stands after the last.
pub fn parse_tuple_field_list<'a>(
    state: &mut ParseState<'a>,
    closer: Punctuator,
    node: Node,
) -> (r: Option<(Vec<TupleField>, bool)>)
    requires
        old(state).wf(),
    ensures
        final(state).follows(
            *old(state),
            tuple_field_list_at(old(state).input(), old(state)@, closer, node),
        ),
        read_tuple_field_list(r) == tuple_field_list_at(
            old(state).input(),
            old(state)@,
            closer,
            node,
        ).value,
{
    proof {
        lemma_tuple_field_list_at(state.input(), state@, closer, node);
        lemma_tuple_fields_model_empty();
    }
    let items: Vec<TupleField> = Vec::new();
    if state.at(closer) {
        return Some((items, false));
    }
    parse_tuple_field_list_rest(state, closer, node, items)
}
/// Reads one field with a name: the comments that document it, a
/// visibility, a name, `:` and a type.
pub fn parse_struct_field<'a>(state: &mut ParseState<'a>) -> (r: Option<StructField>)
    requires
        old(state).wf(),
    ensures
        final(state).follows(*old(state), struct_field_at(old(state).input(), old(state)@)),
        read_struct_field(r) == struct_field_at(old(state).input(), old(state)@).value,
{
    proof {
        lemma_struct_field_at(state.input(), state@);
    }
    let docstring = parse_docstring(state, false);
    let visibility = parse_visibility(state);
    let name = state.consume_identifier(Node::StructField)?;
    state.consume(Punctuator::Colon, Node::StructField)?;
    let ty = parse_type(state)?;
    let field = StructField { visibility, name, ty, docstring };
    proof {
        lemma_struct_field_model(field);
    }
    Some(field)
}

/// Reads the fields with names of a list that follow those in `before`, up to
/// the closing token `closer`, which is not consumed. Returns them all and
/// whether a comma stands after the last.
#[verifier::loop_isolation(false)]
pub fn parse_struct_field_list_rest<'a>(
    state: &mut ParseState<'a>,
    closer: Punctuator,
    node: Node,
    before: Vec<StructField>,
) -> (r: Option<(Vec<StructField>, bool)>)
    requires
        old(state).wf(),
    ensures
        final(state).follows(
            *old(state),
            struct_field_list_rest(
                old(state).input(),
                old(state)@,
                closer,
                node,
                struct_fields_model(before@),
            ),
        ),
        read_struct_field_list(r) == struct_field_list_rest(
            old(state).input(),
            old(state)@,
            closer,
            node,
            struct_fields_model(before@),
        ).value,
{
    let ghost inp = state.input();
    let ghost c = state@;
    proof {
        lemma_struct_field_list_rest(inp, c, closer, node, struct_fields_model(before@));
    }
    let mut items = before;
    let end = RawToken::Punctuator(closer);
    loop
        invariant
            state.stands_at(*old(state), state@),
            state@.pos >= c.pos,
            c.onward(
                state@,
                struct_field_list_rest(inp, state@, closer, node, struct_fields_model(items@)),
            ) == struct_field_list_rest(inp, c, closer, node, struct_fields_model(before@)),
        decreases inp.tokens.len() - state@.pos,
    {
        proof {
            lemma_struct_field_list_rest(inp, state@, closer, node, struct_fields_model(items@));
        }
        let ghost prior = items@;
        let element = parse_struct_field(state)?;
        items.push(element);
        proof {
            lemma_struct_fields_model_push(prior, element);
        }
        match state.list_step(end, end, node) {
            ListStep::Next => {},
            ListStep::End { trailing_comma } => {
                return Some((items, trailing_comma));
            },
            ListStep::Abandon => {
                return None;
            },
        }
    }
}

/// Reads a list of fields with names up to the closing token `closer`, which is
/// not consumed. Returns them and whether a comma stands after the last.
pub fn parse_struct_field_list<'a>(
    state: &mut ParseState<'a>,
    closer: Punctuator,
    node: Node,
) -> (r: Option<(Vec<StructField>, bool)>)
    requires
        old(state).wf(),
    ensures
        final(state).follows(
            *old(state),
            struct_field_list_at(old(state).input(), old(state)@, closer, node),
        ),
        read_struct_field_list(r) == struct_field_list_at(
            old(state).input(),
            old(state)@,
            closer,
            node,
        ).value,
{
    proof {
        lemma_struct_field_list_at(state.input(), state@, closer, node);
        lemma_struct_fields_model_empty();
    }
    let items: Vec<StructField> = Vec::new();
    if state.at(closer) {
        return Some((items, false));
    }
    parse_struct_field_list_rest(state, closer, node, items)
}
/// Reads one item of an enum.
pub fn parse_enum_item<'a>(state: &mut ParseState<'a>) -> (r: Option<EnumItem>)
    requires
        old(state).wf(),
    ensures
        final(state).follows(*old(state), enum_item_at(old(state).input(), old(state)@)),
        read_enum_item(r) == enum_item_at(old(state).input(), old(state)@).value,
{
    proof {
        lemma_enum_item_at(state.input(), state@);
    }
    let docstring = parse_docstring(state, false);
    let name = state.consume_identifier(Node::EnumItem)?;
    let item = if state.at(Punctuator::OpenBrace) {
        state.advance();
        let (fields, _) = parse_struct_field_list(state, Punctuator::CloseBrace, Node::EnumItem)?;
        state.advance();
        EnumItem::Struct { name, fields, docstring }
    } else if state.at(Punctuator::OpenParent) {
        state.advance();
        let (fields, _) = parse_tuple_field_list(state, Punctuator::CloseParent, Node::EnumItem)?;
        state.advance();
        EnumItem::Tuple { name, fields, docstring }
    } else {
        EnumItem::Just { name, docstring }
    };
    proof {
        lemma_enum_item_model(item);
    }
    Some(item)
}

/// Reads the items of an enum of a list that follow those in `before`, up to
/// the closing token `closer`, which is not consumed. Returns them all and
/// whether a comma stands after the last.
#[verifier::loop_isolation(false)]
pub fn parse_enum_item_list_rest<'a>(
    state: &mut ParseState<'a>,
    closer: Punctuator,
    node: Node,
    before: Vec<EnumItem>,
) -> (r: Option<(Vec<EnumItem>, bool)>)
    requires
        old(state).wf(),
    ensures
        final(state).follows(
            *old(state),
            enum_item_list_rest(
                old(state).input(),
                old(state)@,
                closer,
                node,
                enum_items_model(before@),
            ),
        ),
        read_enum_item_list(r) == enum_item_list_rest(
            old(state).input(),
            old(state)@,
            closer,
            node,
            enum_items_model(before@),
        ).value,
{
    let ghost inp = state.input();
    let ghost c = state@;
    proof {
        lemma_enum_item_list_rest(inp, c, closer, node, enum_items_model(before@));
    }
    let mut items = before;
    let end = RawToken::Punctuator(closer);
    loop
        invariant
            state.stands_at(*old(state), state@),
            state@.pos >= c.pos,
            c.onward(
                state@,
                enum_item_list_rest(inp, state@, closer, node, enum_items_model(items@)),
            ) == enum_item_list_rest(inp, c, closer, node, enum_items_model(before@)),
        decreases inp.tokens.len() - state@.pos,
    {
        proof {
            lemma_enum_item_list_rest(inp, state@, closer, node, enum_items_model(items@));
        }
        let ghost prior = items@;
        let element = parse_enum_item(state)?;
        items.push(element);
        proof {
            lemma_enum_items_model_push(prior, element);
        }
        match state.list_step(end, end, node) {
            ListStep::Next => {},
            ListStep::End { trailing_comma } => {
                return Some((items, trailing_comma));
            },
            ListStep::Abandon => {
                return None;
            },
        }
    }
}

/// Reads a list of items of an enum up to the closing token `closer`, which is
/// not consumed. Returns them and whether a comma stands after the last.
pub fn parse_enum_item_list<'a>(
    state: &mut ParseState<'a>,
    closer: Punctuator,
    node: Node,
) -> (r: Option<(Vec<EnumItem>, bool)>)
    requires
        old(state).wf(),
    ensures
        final(state).follows(
            *old(state),
            enum_item_list_at(old(state).input(), old(state)@, closer, node),
        ),
        read_enum_item_list(r) == enum_item_list_at(
            old(state).input(),
            old(state)@,
            closer,
            node,
        ).value,
{
    proof {
        lemma_enum_item_list_at(state.input(), state@, closer, node);
        lemma_enum_items_model_empty();
    }
    let items: Vec<EnumItem> = Vec::new();
    if state.at(closer) {
        return Some((items, false));
    }
    parse_enum_item_list_rest(state, closer, node, items)
}
/// Reads the heading of an item whose keyword is the next token: the name,
/// generic parameters, and a where clause if `with_where` is set.
pub fn parse_heading<'a>(
    state: &mut ParseState<'a>,
    node: Node,
    with_where: bool,
) -> (r: Option<(IdentifierAst, Option<Vec<GenericParameter>>, Option<Vec<WhereClauseItem>>)>)
    requires
        old(state).wf(),
    ensures
        final(state).follows(
            *old(state),
            heading_at(old(state).input(), old(state)@, node, with_where),
        ),
        read_heading(r) == heading_at(old(state).input(), old(state)@, node, with_where).value,
{
    proof {
        lemma_heading_at(state.input(), state@, node, with_where);
    }
    state.advance();
    let name = state.consume_identifier(node)?;
    let generic_parameters = optionally_parse_generic_parameters(state)?;
    let where_clause = if with_where {
        optionally_parse_where_clause(state)?
    } else {
        None
    };
    Some((name, generic_parameters, where_clause))
}

/// Reads an enum. The next token must be `enum`.
pub fn parse_enum<'a>(
    state: &mut ParseState<'a>,
    visibility: Visibility,
    docstring: Option<String>,
) -> (r: Option<Item>)
    requires
        old(state).wf(),
    ensures
        final(state).follows(
            *old(state),
            enum_at(old(state).input(), old(state)@, visibility, optional_text(docstring)),
        ),
        read_item(r) == enum_at(
            old(state).input(),
            old(state)@,
            visibility,
            optional_text(docstring),
        ).value,
{
    proof {
        lemma_enum_at(state.input(), state@, visibility, optional_text(docstring));
    }
    if state.next_token().raw != RawToken::Keyword(Keyword::Enum) {
        return None;
    }
    let (name, generic_parameters, where_clause) = parse_heading(state, Node::Enum, true)?;
    state.consume(Punctuator::OpenBrace, Node::Enum)?;
    let (items, _) = parse_enum_item_list(state, Punctuator::CloseBrace, Node::Enum)?;
    state.advance();
    let item = Item::Enum { visibility, name, generic_parameters, where_clause, items, docstring };
    proof {
        lemma_item_model(item);
    }
    Some(item)
}

/// Reads the rest of a tuple-like struct after its heading. The next token
/// must be `(`.
pub fn parse_tuple_struct<'a>(
    state: &mut ParseState<'a>,
    visibility: Visibility,
    docstring: Option<String>,
    heading: (IdentifierAst, Option<Vec<GenericParameter>>, Option<Vec<WhereClauseItem>>),
) -> (r: Option<Item>)
    requires
        old(state).wf(),
    ensures
        final(state).follows(
            *old(state),
            tuple_struct_at(
                old(state).input(),
                old(state)@,
                visibility,
                optional_text(docstring),
                read_heading(Some(heading))->0,
            ),
        ),
        read_item(r) == tuple_struct_at(
            old(state).input(),
            old(state)@,
            visibility,
            optional_text(docstring),
            read_heading(Some(heading))->0,
        ).value,
{
    proof {
        lemma_tuple_struct_at(
            state.input(),
            state@,
            visibility,
            optional_text(docstring),
            read_heading(Some(heading))->0,
        );
    }
    state.advance();
    let (fields, _) = parse_tuple_field_list(state, Punctuator::CloseParent, Node::Struct)?;
    state.advance();
    let where_clause = optionally_parse_where_clause(state)?;
    state.consume(Punctuator::Semicolon, Node::Struct)?;
    let item = Item::TupleLikeStruct {
        visibility,
        name: heading.0,
        generic_parameters: heading.1,
        where_clause,
        fields,
        docstring,
    };
    proof {
        lemma_item_model(item);
    }
    Some(item)
}

/// Reads the rest of a struct with named fields after its name and generic
/// parameters.
pub fn parse_fields_struct<'a>(
    state: &mut ParseState<'a>,
    visibility: Visibility,
    docstring: Option<String>,
    heading: (IdentifierAst, Option<Vec<GenericParameter>>, Option<Vec<WhereClauseItem>>),
) -> (r: Option<Item>)
    requires
        old(state).wf(),
    ensures
        final(state).follows(
            *old(state),
            fields_struct_at(
                old(state).input(),
                old(state)@,
                visibility,
                optional_text(docstring),
                read_heading(Some(heading))->0,
            ),
        ),
        read_item(r) == fields_struct_at(
            old(state).input(),
            old(state)@,
            visibility,
            optional_text(docstring),
            read_heading(Some(heading))->0,
        ).value,
{
    proof {
        lemma_fields_struct_at(
            state.input(),
            state@,
            visibility,
            optional_text(docstring),
            read_heading(Some(heading))->0,
        );
    }
    let where_clause = optionally_parse_where_clause(state)?;
    state.consume(Punctuator::OpenBrace, Node::Struct)?;
    let (fields, _) = parse_struct_field_list(state, Punctuator::CloseBrace, Node::Struct)?;
    state.advance();
    let item = Item::Struct {
        visibility,
        name: heading.0,
        generic_parameters: heading.1,
        where_clause,
        fields,
        docstring,
    };
    proof {
        lemma_item_model(item);
    }
    Some(item)
}

/// Reads a struct. The next token must be `struct`.
pub fn parse_struct<'a>(
    state: &mut ParseState<'a>,
    visibility: Visibility,
    docstring: Option<String>,
) -> (r: Option<Item>)
    requires
        old(state).wf(),
    ensures
        final(state).follows(
            *old(state),
            struct_at(old(state).input(), old(state)@, visibility, optional_text(docstring)),
        ),
        read_item(r) == struct_at(
            old(state).input(),
            old(state)@,
            visibility,
            optional_text(docstring),
        ).value,
{
    proof {
        lemma_struct_at(state.input(), state@, visibility, optional_text(docstring));
    }
    if state.next_token().raw != RawToken::Keyword(Keyword::Struct) {
        return None;
    }
    let heading = parse_heading(state, Node::Struct, false)?;
    if state.at(Punctuator::OpenParent) {
        parse_tuple_struct(state, visibility, docstring, heading)
    } else {
        parse_fields_struct(state, visibility, docstring, heading)
    }
}

/// Reads one item of a trait or of an implementation.
pub fn parse_trait_item<'a>(state: &mut ParseState<'a>) -> (r: Option<TraitItem>)
    requires
        old(state).wf(),
    ensures
        final(state).follows(*old(state), trait_item_at(old(state).input(), old(state)@)),
        read_trait_item(r) == trait_item_at(old(state).input(), old(state)@).value,
{
    proof {
        lemma_trait_item_at(state.input(), state@);
    }
    let docstring = parse_docstring(state, false);
    let visibility = parse_visibility(state);
    let raw = state.next_token().raw;
    let item = if raw == RawToken::Keyword(Keyword::Fun) {
        TraitItem::AssociatedFunction(parse_function(state, visibility, docstring)?)
    } else if raw == RawToken::Keyword(Keyword::Type) {
        TraitItem::TypeAlias(parse_type_alias(state, visibility, docstring)?)
    } else {
        state.unexpected(Expected::TraitItem, Node::TraitItem);
        return None;
    };
    proof {
        lemma_trait_item_model(item);
    }
    Some(item)
}

/// Reads the items of a trait or of an implementation that follow those in
/// `before`, up to the closing brace, which is not consumed.
#[verifier::loop_isolation(false)]
pub fn parse_trait_items_rest<'a>(state: &mut ParseState<'a>, before: Vec<TraitItem>) -> (r: Option<
    Vec<TraitItem>,
>)
    requires
        old(state).wf(),
    ensures
        final(state).follows(
            *old(state),
            trait_items_rest(old(state).input(), old(state)@, trait_items_model(before@)),
        ),
        read_trait_items(r) == trait_items_rest(
            old(state).input(),
            old(state)@,
            trait_items_model(before@),
        ).value,
{
    let ghost inp = state.input();
    let ghost c = state@;
    proof {
        lemma_trait_items_rest(inp, c, trait_items_model(before@));
    }
    let mut items = before;
    loop
        invariant
            state.stands_at(*old(state), state@),
            state@.pos >= c.pos,
            c.onward(
                state@,
                trait_items_rest(inp, state@, trait_items_model(items@)),
            ) == trait_items_rest(inp, c, trait_items_model(before@)),
        decreases inp.tokens.len() - state@.pos,
    {
        proof {
            lemma_trait_items_rest(inp, state@, trait_items_model(items@));
        }
        if state.at(Punctuator::CloseBrace) {
            return Some(items);
        }
        let start = state.position();
        let ghost prior = items@;
        let item = parse_trait_item(state)?;
        if state.position() <= start {
            return None;
        }
        items.push(item);
        proof {
            lemma_trait_items_model_push(prior, item);
        }
    }
}

/// Reads the body of a trait or of an implementation: `{`, items and `}`.
pub fn parse_trait_body<'a>(state: &mut ParseState<'a>, node: Node) -> (r: Option<Vec<TraitItem>>)
    requires
        old(state).wf(),
    ensures
        final(state).follows(*old(state), trait_body_at(old(state).input(), old(state)@, node)),
        read_trait_items(r) == trait_body_at(old(state).input(), old(state)@, node).value,
{
    proof {
        lemma_trait_body_at(state.input(), state@, node);
    }
    state.consume(Punctuator::OpenBrace, node)?;
    proof {
        lemma_trait_items_model_empty();
    }
    let items = parse_trait_items_rest(state, Vec::new())?;
    state.advance();
    Some(items)
}

/// Reads a trait. The next token must be `trait`.
pub fn parse_trait<'a>(
    state: &mut ParseState<'a>,
    visibility: Visibility,
    docstring: Option<String>,
) -> (r: Option<Item>)
    requires
        old(state).wf(),
    ensures
        final(state).follows(
            *old(state),
            trait_at(old(state).input(), old(state)@, visibility, optional_text(docstring)),
        ),
        read_item(r) == trait_at(
            old(state).input(),
            old(state)@,
            visibility,
            optional_text(docstring),
        ).value,
{
    proof {
        lemma_trait_at(state.input(), state@, visibility, optional_text(docstring));
    }
    if state.next_token().raw != RawToken::Keyword(Keyword::Trait) {
        return None;
    }
    let (name, generic_parameters, where_clause) = parse_heading(state, Node::Trait, true)?;
    let items = parse_trait_body(state, Node::Trait)?;
    let item = Item::Trait { visibility, name, generic_parameters, where_clause, items, docstring };
    proof {
        lemma_item_model(item);
    }
    Some(item)
}

/// Reads what an implementation is of: a type, or a trait, `for` and a
/// type. Returns the type and the trait.
pub fn parse_implemented<'a>(state: &mut ParseState<'a>) -> (r: Option<(Type, Option<Type>)>)
    requires
        old(state).wf(),
    ensures
        final(state).follows(*old(state), implemented_at(old(state).input(), old(state)@)),
        read_implemented(r) == implemented_at(old(state).input(), old(state)@).value,
{
    proof {
        lemma_implemented_at(state.input(), state@);
    }
    let first = parse_type(state)?;
    if state.next_token().raw == RawToken::Keyword(Keyword::For) {
        state.advance();
        let second = parse_type(state)?;
        Some((second, Some(first)))
    } else {
        Some((first, None))
    }
}

/// Reads an implementation. The next token must be `impl`.
pub fn parse_impl<'a>(state: &mut ParseState<'a>, docstring: Option<String>) -> (r: Option<Impl>)
    requires
        old(state).wf(),
    ensures
        final(state).follows(
            *old(state),
            impl_at(old(state).input(), old(state)@, optional_text(docstring)),
        ),
        read_impl(r) == impl_at(old(state).input(), old(state)@, optional_text(docstring)).value,
{
    proof {
        lemma_impl_at(state.input(), state@, optional_text(docstring));
    }
    if state.next_token().raw != RawToken::Keyword(Keyword::Impl) {
        return None;
    }
    state.advance();
    let generic_parameters = optionally_parse_generic_parameters(state)?;
    let (ty, implemented_trait) = parse_implemented(state)?;
    let where_clause = optionally_parse_where_clause(state)?;
    let items = parse_trait_body(state, Node::Impl)?;
    let implementation = Impl {
        generic_parameters,
        ty,
        implemented_trait,
        where_clause,
        items,
        docstring,
    };
    proof {
        lemma_impl_model(implementation);
    }
    Some(implementation)
}

/// Reads the item that the next token begins. A token that begins no item
/// is reported and skipped.
pub fn parse_item_body<'a>(
    state: &mut ParseState<'a>,
    visibility: Visibility,
    docstring: Option<String>,
) -> (r: Option<Item>)
    requires
        old(state).wf(),
    ensures
        final(state).follows(
            *old(state),
            item_body_at(old(state).input(), old(state)@, visibility, optional_text(docstring)),
        ),
        read_item(r) == item_body_at(
            old(state).input(),
            old(state)@,
            visibility,
            optional_text(docstring),
        ).value,
{
    proof {
        lemma_item_body_at(state.input(), state@, visibility, optional_text(docstring));
    }
    let item = match state.next_token().raw {
        RawToken::Keyword(Keyword::Enum) => {
            return parse_enum(state, visibility, docstring);
        },
        RawToken::Keyword(Keyword::Import) | RawToken::Keyword(Keyword::Use) => {
            return parse_import(state, visibility);
        },
        RawToken::Keyword(Keyword::Struct) => {
            return parse_struct(state, visibility, docstring);
        },
        RawToken::Keyword(Keyword::Trait) => {
            return parse_trait(state, visibility, docstring);
        },
        RawToken::Keyword(Keyword::Fun) => Item::Function(
            parse_function(state, visibility, docstring)?,
        ),
        RawToken::Keyword(Keyword::Impl) => Item::Impl(parse_impl(state, docstring)?),
        RawToken::Keyword(Keyword::Type) => Item::TypeAlias(
            parse_type_alias(state, visibility, docstring)?,
        ),
        _ => {
            state.unexpected(Expected::Item, Node::Item);
            state.advance();
            return None;
        },
    };
    proof {
        lemma_item_model(item);
    }
    Some(item)
}

/// Reads an item: the comments that document it, `pub` where it follows,
/// and what the keyword after them begins.
pub fn parse_item<'a>(state: &mut ParseState<'a>) -> (r: Option<Item>)
    requires
        old(state).wf(),
    ensures
        final(state).follows(*old(state), item_at(old(state).input(), old(state)@)),
        read_item(r) == item_at(old(state).input(), old(state)@).value,
{
    proof {
        lemma_item_at(state.input(), state@);
    }
    let docstring = parse_docstring(state, false);
    let visibility = parse_visibility(state);
    parse_item_body(state, visibility, docstring)
}

/// Reads the items of a module that follow those in `before`, up to the
/// end of the file. An item that cannot be read is left out.
#[verifier::loop_isolation(false)]
pub fn parse_items_rest<'a>(state: &mut ParseState<'a>, before: Vec<Item>) -> (r: Vec<Item>)
    requires
        old(state).wf(),
    ensures
        final(state).follows(
            *old(state),
            items_rest(old(state).input(), old(state)@, items_model(before@)),
        ),
        Some(items_model(r@)) == items_rest(
            old(state).input(),
            old(state)@,
            items_model(before@),
        ).value,
{
    let ghost inp = state.input();
    let ghost c = state@;
    proof {
        lemma_items_rest(inp, c, items_model(before@));
    }
    let mut items = before;
    loop
        invariant
            state.stands_at(*old(state), state@),
            state@.pos >= c.pos,
            c.onward(state@, items_rest(inp, state@, items_model(items@))) == items_rest(
                inp,
                c,
                items_model(before@),
            ),
        decreases inp.tokens.len() - state@.pos,
    {
        proof {
            lemma_items_rest(inp, state@, items_model(items@));
        }
        if state.next_token().raw == RawToken::EndOfFile {
            return items;
        }
        let start = state.position();
        let ghost prior = items@;
        match parse_item(state) {
            Some(item) => {
                items.push(item);
                proof {
                    lemma_items_model_push(prior, item);
                }
            },
            None => {},
        }
        if state.position() <= start {
            return items;
        }
    }
}

/// Reads a module: the comments that document it, and its items up to the
/// end of the file.
pub fn parse_module_items<'a>(state: &mut ParseState<'a>) -> (r: Module)
    requires
        old(state).wf(),
    ensures
        final(state).follows(*old(state), module_at(old(state).input(), old(state)@)),
        Some(module_model(r)) == module_at(old(state).input(), old(state)@).value,
{
    proof {
        lemma_module_at(state.input(), state@);
        lemma_items_model_empty();
    }
    let docstring = parse_docstring(state, true);
    let items = parse_items_rest(state, Vec::new());
    let module = Module { items, docstring };
    proof {
        lemma_module_model(module);
    }
    module
}

/// Parses the tokens of a source, whose symbols `interner` gave out.
/// Returns the module, which holds what could be read, and the diagnostics
/// in the order in which they were reported.
pub fn parse_tokens(tokens: &Vec<Token>, interner: &Interner) -> (r: (Module, Vec<ParseDiagnostic>))
    ensures
        Some(module_model(r.0)) == parse_result(
            Input { tokens: tokens@, names: interner@ },
        ).value,
        r.1@ == parse_result(Input { tokens: tokens@, names: interner@ }).diagnostics,
{
    let mut state = ParseState::new(tokens, interner);
    let module = parse_module_items(&mut state);
    (module, state.into_diagnostics())
}

} // verus!
