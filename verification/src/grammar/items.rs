//! Items and modules.

use crate::ast::Visibility;
use crate::diagnostics::{Expected, Node};
use crate::grammar::cursor::{
    identifier_at, list_step, list_step_end, path_at, punctuator_at, Cursor, Elements, Input,
    ListStep, Parsed,
};
use crate::grammar::expressions::block_at;
use crate::grammar::types::{
    optional_generic_parameters_at, optional_where_clause_at, type_at, type_bounds_at,
};
use crate::model::{
    EnumItemModel, FunctionModel, FunctionParameterModel, GenericParameterModel, ImplModel,
    ImportPathModel, ItemModel, JustFunctionParameterModel, ModuleModel, SelfParameterModel,
    StructFieldModel, TraitItemModel, TupleFieldModel, TypeAliasModel, TypeModel,
    WhereClauseItemModel,
};
use crate::token::{Keyword, Punctuator, RawToken};
use vstd::prelude::*;

verus! {

/// The text of a comment that documents: after the comments read so far,
/// whose texts are in `text`, each further comment of the kind adds its
/// text and a line feed. With `global` the comments on the module are
/// meant, else those on an item. `any` tells whether a comment was read.
pub open spec fn docstring_rest_def(
    inp: Input,
    c: Cursor,
    global: bool,
    text: Seq<char>,
    any: bool,
) -> Parsed<
    Option<Seq<char>>,
>
    decreases inp.remaining(c), 0int,
{
    let raw = inp.peek(c).raw;
    let found = if global {
        raw is GlobalDocComment
    } else {
        raw is LocalDocComment
    };
    if found && 0 <= c.pos < inp.tokens.len() {
        let symbol = if global {
            raw->GlobalDocComment_0
        } else {
            raw->LocalDocComment_0
        };
        let c1 = c.bump(inp);
        c.onward(c1, docstring_rest(inp, c1, global, text + inp.text(symbol) + seq!['\n'], true))
    } else {
        c.done(
            c,
            if any {
                Some(text)
            } else {
                None
            },
        )
    }
}

/// What [`docstring_rest_def`] defines, kept folded until [`lemma_docstring_rest`] unfolds it.
#[verifier::opaque]
pub open spec fn docstring_rest(
    inp: Input,
    c: Cursor,
    global: bool,
    text: Seq<char>,
    any: bool,
) -> Parsed<
    Option<Seq<char>>,
>
    decreases inp.remaining(c), 1int,
{
    docstring_rest_def(inp, c, global, text, any)
}

/// [`docstring_rest`] is what [`docstring_rest_def`] defines.
pub proof fn lemma_docstring_rest(inp: Input, c: Cursor, global: bool, text: Seq<char>, any: bool)
    ensures
        docstring_rest(inp, c, global, text, any) == docstring_rest_def(inp, c, global, text, any),
{
    reveal_with_fuel(docstring_rest, 1);
}

/// The comments that document the module or an item, as one text.
pub open spec fn docstring_at(inp: Input, c: Cursor, global: bool) -> Parsed<Option<Seq<char>>> {
    docstring_rest(inp, c, global, Seq::empty(), false)
}

/// The visibility of an item: `pub` where it is the next token.
pub open spec fn visibility_at_def(inp: Input, c: Cursor) -> Parsed<Visibility>
{
    if inp.peek(c).raw == RawToken::Keyword(Keyword::Pub) {
        c.done(c.bump(inp), Visibility::spec_public(inp.peek(c).span))
    } else {
        c.done(c, Visibility::spec_private())
    }
}

/// What [`visibility_at_def`] defines, kept folded until [`lemma_visibility_at`] unfolds it.
#[verifier::opaque]
pub open spec fn visibility_at(inp: Input, c: Cursor) -> Parsed<Visibility>
{
    visibility_at_def(inp, c)
}

/// [`visibility_at`] is what [`visibility_at_def`] defines.
pub proof fn lemma_visibility_at(inp: Input, c: Cursor)
    ensures
        visibility_at(inp, c) == visibility_at_def(inp, c),
{
    reveal(visibility_at);
}

/// A type after `:` where `:` is the next token, and nothing where it is not.
pub open spec fn optional_type_at_def(inp: Input, c: Cursor) -> Parsed<Option<TypeModel>>
{
    if !inp.at(c, Punctuator::Colon) {
        c.done(c, None)
    } else {
        let c1 = c.bump(inp);
        let ty = type_at(inp, c1);
        let c2 = c1.after(ty);
        match ty.value {
            None => c.fail(c2),
            Some(ty) => c.done(c2, Some(ty)),
        }
    }
}

/// What [`optional_type_at_def`] defines, kept folded until [`lemma_optional_type_at`] unfolds it.
#[verifier::opaque]
pub open spec fn optional_type_at(inp: Input, c: Cursor) -> Parsed<Option<TypeModel>>
{
    optional_type_at_def(inp, c)
}

/// [`optional_type_at`] is what [`optional_type_at_def`] defines.
pub proof fn lemma_optional_type_at(inp: Input, c: Cursor)
    ensures
        optional_type_at(inp, c) == optional_type_at_def(inp, c),
{
    reveal(optional_type_at);
}

/// Whether the next token is the name `self`.
pub open spec fn at_self(inp: Input, c: Cursor) -> bool {
    inp.peek(c).raw is Identifier && inp.text(inp.peek(c).raw->Identifier_0) == "self"@
}

/// One parameter of a function: the name `self` with a type where one is
/// given, or another name, `:` and a type.
pub open spec fn function_parameter_at_def(inp: Input, c: Cursor) -> Parsed<FunctionParameterModel>
{
    if at_self(inp, c) {
        let c1 = c.bump(inp);
        let ty = optional_type_at(inp, c1);
        let c2 = c1.after(ty);
        match ty.value {
            None => c.fail(c2),
            Some(ty) => c.done(
                c2,
                FunctionParameterModel::Self_(
                    SelfParameterModel { self_span: inp.peek(c).span, ty },
                ),
            ),
        }
    } else {
        let name = identifier_at(inp, c, Node::FunctionParameter);
        let c1 = c.after(name);
        let colon = punctuator_at(inp, c1, Punctuator::Colon, Node::FunctionParameter);
        let c2 = c1.after(colon);
        let ty = type_at(inp, c2);
        let c3 = c2.after(ty);
        if !name.ok() {
            c.fail(c1)
        } else if !colon.ok() {
            c.fail(c2)
        } else if !ty.ok() {
            c.fail(c3)
        } else {
            c.done(
                c3,
                FunctionParameterModel::Just(
                    JustFunctionParameterModel { name: name.value->0, ty: ty.value->0 },
                ),
            )
        }
    }
}

/// What [`function_parameter_at_def`] defines, kept folded until [`lemma_function_parameter_at`]
/// unfolds it.
#[verifier::opaque]
pub open spec fn function_parameter_at(inp: Input, c: Cursor) -> Parsed<FunctionParameterModel>
{
    function_parameter_at_def(inp, c)
}

/// [`function_parameter_at`] is what [`function_parameter_at_def`] defines.
pub proof fn lemma_function_parameter_at(inp: Input, c: Cursor)
    ensures
        function_parameter_at(inp, c) == function_parameter_at_def(inp, c),
{
    reveal(function_parameter_at);
}

/// The rest of a list of parameters of a function after those in `before`; `c` stands at
/// the first token of the next one. After each comes a comma or the closing
/// token `closer`, and a comma may stand before the closing token, which is
/// not consumed. Any other token is reported; the list then ends at the next
/// closing token, and fails where there is none before the end of the file.
pub open spec fn function_parameter_list_rest_def(
    inp: Input,
    c: Cursor,
    closer: Punctuator,
    node: Node,
    before: Seq<FunctionParameterModel>,
) -> Parsed<Elements<FunctionParameterModel>>
    decreases inp.remaining(c), 10int, 0int,
{
    let end = RawToken::Punctuator(closer);
    let element = function_parameter_at(inp, c);
    let c1 = c.after(element);
    match element.value {
        None => c.fail(c1),
        Some(element) => {
            let items = before.push(element);
            let c2 = list_step_end(inp, c1, end, end, node);
            match list_step(inp, c1, end, end) {
                ListStep::Next => c.onward(
                    c2,
                    function_parameter_list_rest(inp, c2, closer, node, items),
                ),
                ListStep::End { trailing_comma } => c.done(c2, Elements { items, trailing_comma }),
                ListStep::Abandon => c.fail(c2),
            }
        },
    }
}

/// What [`function_parameter_list_rest_def`] defines, kept folded until
/// [`lemma_function_parameter_list_rest`] unfolds it.
#[verifier::opaque]
pub open spec fn function_parameter_list_rest(
    inp: Input,
    c: Cursor,
    closer: Punctuator,
    node: Node,
    before: Seq<FunctionParameterModel>,
) -> Parsed<Elements<FunctionParameterModel>>
    decreases inp.remaining(c), 10int, 1int,
{
    function_parameter_list_rest_def(inp, c, closer, node, before)
}

/// [`function_parameter_list_rest`] is what [`function_parameter_list_rest_def`] defines.
pub proof fn lemma_function_parameter_list_rest(
    inp: Input,
    c: Cursor,
    closer: Punctuator,
    node: Node,
    before: Seq<FunctionParameterModel>,
)
    ensures
        function_parameter_list_rest(
            inp,
            c,
            closer,
            node,
            before,
        ) == function_parameter_list_rest_def(inp, c, closer, node, before),
{
    reveal_with_fuel(function_parameter_list_rest, 1);
}

/// A list of parameters of a function up to the closing token `closer`, which is not
/// consumed.
pub open spec fn function_parameter_list_at_def(
    inp: Input,
    c: Cursor,
    closer: Punctuator,
    node: Node,
) -> Parsed<Elements<FunctionParameterModel>>
    decreases inp.remaining(c), 11int, 0int,
{
    if inp.at(c, closer) {
        c.done(c, Elements { items: Seq::empty(), trailing_comma: false })
    } else {
        function_parameter_list_rest(inp, c, closer, node, Seq::empty())
    }
}

/// What [`function_parameter_list_at_def`] defines, kept folded until
/// [`lemma_function_parameter_list_at`] unfolds it.
#[verifier::opaque]
pub open spec fn function_parameter_list_at(
    inp: Input,
    c: Cursor,
    closer: Punctuator,
    node: Node,
) -> Parsed<Elements<FunctionParameterModel>>
    decreases inp.remaining(c), 11int, 1int,
{
    function_parameter_list_at_def(inp, c, closer, node)
}

/// [`function_parameter_list_at`] is what [`function_parameter_list_at_def`] defines.
pub proof fn lemma_function_parameter_list_at(inp: Input, c: Cursor, closer: Punctuator, node: Node)
    ensures
        function_parameter_list_at(
            inp,
            c,
            closer,
            node,
        ) == function_parameter_list_at_def(inp, c, closer, node),
{
    reveal_with_fuel(function_parameter_list_at, 1);
}

/// What follows the parameters of a function: `:` and a return type where
/// they follow, a where clause where it follows, and then `;` or the body.
/// What was read before is given.
pub open spec fn function_tail_at_def(
    inp: Input,
    c: Cursor,
    visibility: Visibility,
    docstring: Option<Seq<char>>,
    name: crate::ast::IdentifierAst,
    generic_parameters: Option<Seq<GenericParameterModel>>,
    parameters: Seq<FunctionParameterModel>,
) -> Parsed<FunctionModel>
{
    let return_type = optional_type_at(inp, c);
    let c1 = c.after(return_type);
    let where_clause = optional_where_clause_at(inp, c1);
    let c2 = c1.after(where_clause);
    let declared = inp.at(c2, Punctuator::Semicolon);
    let body = block_at(inp, c2);
    let c3 = if declared {
        c2.bump(inp)
    } else {
        c2.after(body)
    };
    if !return_type.ok() {
        c.fail(c1)
    } else if !where_clause.ok() {
        c.fail(c2)
    } else if !declared && !body.ok() {
        c.fail(c3)
    } else {
        c.done(
            c3,
            FunctionModel {
                visibility,
                name,
                generic_parameters,
                parameters,
                return_type: return_type.value->0,
                where_clause: where_clause.value->0,
                body: if declared {
                    None
                } else {
                    body.value
                },
                docstring,
            },
        )
    }
}

/// What [`function_tail_at_def`] defines, kept folded until [`lemma_function_tail_at`] unfolds it.
#[verifier::opaque]
pub open spec fn function_tail_at(
    inp: Input,
    c: Cursor,
    visibility: Visibility,
    docstring: Option<Seq<char>>,
    name: crate::ast::IdentifierAst,
    generic_parameters: Option<Seq<GenericParameterModel>>,
    parameters: Seq<FunctionParameterModel>,
) -> Parsed<FunctionModel>
{
    function_tail_at_def(inp, c, visibility, docstring, name, generic_parameters, parameters)
}

/// [`function_tail_at`] is what [`function_tail_at_def`] defines.
pub proof fn lemma_function_tail_at(
    inp: Input,
    c: Cursor,
    visibility: Visibility,
    docstring: Option<Seq<char>>,
    name: crate::ast::IdentifierAst,
    generic_parameters: Option<Seq<GenericParameterModel>>,
    parameters: Seq<FunctionParameterModel>,
)
    ensures
        function_tail_at(
            inp,
            c,
            visibility,
            docstring,
            name,
            generic_parameters,
            parameters,
        ) == function_tail_at_def(
            inp,
            c,
            visibility,
            docstring,
            name,
            generic_parameters,
            parameters,
        ),
{
    reveal(function_tail_at);
}

/// A function; `c` stands at `fun`. After the keyword come the name,
/// generic parameters where they follow, the parameters in parentheses,
/// and the rest of the function.
pub open spec fn function_at_def(
    inp: Input,
    c: Cursor,
    visibility: Visibility,
    docstring: Option<Seq<char>>,
) -> Parsed<FunctionModel>
{
    let c1 = c.bump(inp);
    let name = identifier_at(inp, c1, Node::Function);
    let c2 = c1.after(name);
    let generics = optional_generic_parameters_at(inp, c2);
    let c3 = c2.after(generics);
    let open = punctuator_at(inp, c3, Punctuator::OpenParent, Node::Function);
    let c4 = c3.after(open);
    let parameters = function_parameter_list_at(
        inp,
        c4,
        Punctuator::CloseParent,
        Node::Function,
    );
    let c5 = c4.after(parameters);
    let c6 = c5.bump(inp);
    if inp.peek(c).raw != RawToken::Keyword(Keyword::Fun) {
        c.fail(c)
    } else if !name.ok() {
        c.fail(c2)
    } else if !generics.ok() {
        c.fail(c3)
    } else if !open.ok() {
        c.fail(c4)
    } else if !parameters.ok() {
        c.fail(c5)
    } else {
        c.onward(
            c6,
            function_tail_at(
                inp,
                c6,
                visibility,
                docstring,
                name.value->0,
                generics.value->0,
                parameters.value->0.items,
            ),
        )
    }
}

/// What [`function_at_def`] defines, kept folded until [`lemma_function_at`] unfolds it.
#[verifier::opaque]
pub open spec fn function_at(
    inp: Input,
    c: Cursor,
    visibility: Visibility,
    docstring: Option<Seq<char>>,
) -> Parsed<FunctionModel>
{
    function_at_def(inp, c, visibility, docstring)
}

/// [`function_at`] is what [`function_at_def`] defines.
pub proof fn lemma_function_at(
    inp: Input,
    c: Cursor,
    visibility: Visibility,
    docstring: Option<Seq<char>>,
)
    ensures
        function_at(
            inp,
            c,
            visibility,
            docstring,
        ) == function_at_def(inp, c, visibility, docstring),
{
    reveal(function_at);
}

/// A type alias; `c` stands at `type`. After the keyword come the name,
/// generic parameters where they follow, bounds after `:` and a value after
/// `=` where they follow, and `;`.
pub open spec fn type_alias_at_def(
    inp: Input,
    c: Cursor,
    visibility: Visibility,
    docstring: Option<Seq<char>>,
) -> Parsed<TypeAliasModel>
{
    let c1 = c.bump(inp);
    let name = identifier_at(inp, c1, Node::TypeAlias);
    let c2 = c1.after(name);
    let generics = optional_generic_parameters_at(inp, c2);
    let c3 = c2.after(generics);
    let has_bounds = inp.at(c3, Punctuator::Colon);
    let bounds = type_bounds_at(inp, c3.bump(inp));
    let c4 = if has_bounds {
        c3.bump(inp).after(bounds)
    } else {
        c3
    };
    let has_value = inp.at(c4, Punctuator::Eq);
    let value = type_at(inp, c4.bump(inp));
    let c5 = if has_value {
        c4.bump(inp).after(value)
    } else {
        c4
    };
    let end = punctuator_at(inp, c5, Punctuator::Semicolon, Node::TypeAlias);
    let c6 = c5.after(end);
    if inp.peek(c).raw != RawToken::Keyword(Keyword::Type) {
        c.fail(c)
    } else if !name.ok() {
        c.fail(c2)
    } else if !generics.ok() {
        c.fail(c3)
    } else if has_bounds && !bounds.ok() {
        c.fail(c4)
    } else if has_value && !value.ok() {
        c.fail(c5)
    } else if !end.ok() {
        c.fail(c6)
    } else {
        c.done(
            c6,
            TypeAliasModel {
                visibility,
                name: name.value->0,
                generic_parameters: generics.value->0,
                bounds: if has_bounds {
                    bounds.value
                } else {
                    None
                },
                value: if has_value {
                    value.value
                } else {
                    None
                },
                docstring,
            },
        )
    }
}

/// What [`type_alias_at_def`] defines, kept folded until [`lemma_type_alias_at`] unfolds it.
#[verifier::opaque]
pub open spec fn type_alias_at(
    inp: Input,
    c: Cursor,
    visibility: Visibility,
    docstring: Option<Seq<char>>,
) -> Parsed<TypeAliasModel>
{
    type_alias_at_def(inp, c, visibility, docstring)
}

/// [`type_alias_at`] is what [`type_alias_at_def`] defines.
pub proof fn lemma_type_alias_at(
    inp: Input,
    c: Cursor,
    visibility: Visibility,
    docstring: Option<Seq<char>>,
)
    ensures
        type_alias_at(
            inp,
            c,
            visibility,
            docstring,
        ) == type_alias_at_def(inp, c, visibility, docstring),
{
    reveal(type_alias_at);
}

/// An import; `c` stands at `import` or `use`. After the keyword come a
/// path, `as` and a name where they follow, and `;`.
pub open spec fn import_at_def(inp: Input, c: Cursor, visibility: Visibility) -> Parsed<ItemModel>
{
    let raw = inp.peek(c).raw;
    let c1 = c.bump(inp);
    let left = path_at(inp, c1, Node::Import);
    let c2 = c1.after(left);
    let renamed = inp.peek(c2).raw == RawToken::Keyword(Keyword::As);
    let alias = identifier_at(inp, c2.bump(inp), Node::Import);
    let c3 = if renamed {
        c2.bump(inp).after(alias)
    } else {
        c2
    };
    let end = punctuator_at(inp, c3, Punctuator::Semicolon, Node::Import);
    let c4 = c3.after(end);
    if raw != RawToken::Keyword(Keyword::Import) && raw != RawToken::Keyword(Keyword::Use) {
        c.fail(c)
    } else if !left.ok() {
        c.fail(c2)
    } else if renamed && !alias.ok() {
        c.fail(c3)
    } else if !end.ok() {
        c.fail(c4)
    } else {
        c.done(
            c4,
            ItemModel::Import {
                visibility,
                path: ImportPathModel {
                    left: left.value->0,
                    alias: if renamed {
                        alias.value
                    } else {
                        None
                    },
                },
            },
        )
    }
}

/// What [`import_at_def`] defines, kept folded until [`lemma_import_at`] unfolds it.
#[verifier::opaque]
pub open spec fn import_at(inp: Input, c: Cursor, visibility: Visibility) -> Parsed<ItemModel>
{
    import_at_def(inp, c, visibility)
}

/// [`import_at`] is what [`import_at_def`] defines.
pub proof fn lemma_import_at(inp: Input, c: Cursor, visibility: Visibility)
    ensures
        import_at(inp, c, visibility) == import_at_def(inp, c, visibility),
{
    reveal(import_at);
}

/// One field of a tuple-like struct or enum item: a visibility and a type.
pub open spec fn tuple_field_at_def(inp: Input, c: Cursor) -> Parsed<TupleFieldModel>
{
    let visibility = visibility_at(inp, c);
    let c1 = c.after(visibility);
    let ty = type_at(inp, c1);
    let c2 = c1.after(ty);
    match ty.value {
        None => c.fail(c2),
        Some(ty) => c.done(c2, TupleFieldModel { visibility: visibility.value->0, ty }),
    }
}

/// What [`tuple_field_at_def`] defines, kept folded until [`lemma_tuple_field_at`] unfolds it.
#[verifier::opaque]
pub open spec fn tuple_field_at(inp: Input, c: Cursor) -> Parsed<TupleFieldModel>
{
    tuple_field_at_def(inp, c)
}

/// [`tuple_field_at`] is what [`tuple_field_at_def`] defines.
pub proof fn lemma_tuple_field_at(inp: Input, c: Cursor)
    ensures
        tuple_field_at(inp, c) == tuple_field_at_def(inp, c),
{
    reveal(tuple_field_at);
}

/// The rest of a list of fields without names after those in `before`; `c` stands at
/// the first token of the next one. After each comes a comma or the closing
/// token `closer`, and a comma may stand before the closing token, which is
/// not consumed. Any other token is reported; the list then ends at the next
/// closing token, and fails where there is none before the end of the file.
pub open spec fn tuple_field_list_rest_def(
    inp: Input,
    c: Cursor,
    closer: Punctuator,
    node: Node,
    before: Seq<TupleFieldModel>,
) -> Parsed<Elements<TupleFieldModel>>
    decreases inp.remaining(c), 10int, 0int,
{
    let end = RawToken::Punctuator(closer);
    let element = tuple_field_at(inp, c);
    let c1 = c.after(element);
    match element.value {
        None => c.fail(c1),
        Some(element) => {
            let items = before.push(element);
            let c2 = list_step_end(inp, c1, end, end, node);
            match list_step(inp, c1, end, end) {
                ListStep::Next => c.onward(
                    c2,
                    tuple_field_list_rest(inp, c2, closer, node, items),
                ),
                ListStep::End { trailing_comma } => c.done(c2, Elements { items, trailing_comma }),
                ListStep::Abandon => c.fail(c2),
            }
        },
    }
}

/// What [`tuple_field_list_rest_def`] defines, kept folded until [`lemma_tuple_field_list_rest`]
/// unfolds it.
#[verifier::opaque]
pub open spec fn tuple_field_list_rest(
    inp: Input,
    c: Cursor,
    closer: Punctuator,
    node: Node,
    before: Seq<TupleFieldModel>,
) -> Parsed<Elements<TupleFieldModel>>
    decreases inp.remaining(c), 10int, 1int,
{
    tuple_field_list_rest_def(inp, c, closer, node, before)
}

/// [`tuple_field_list_rest`] is what [`tuple_field_list_rest_def`] defines.
pub proof fn lemma_tuple_field_list_rest(
    inp: Input,
    c: Cursor,
    closer: Punctuator,
    node: Node,
    before: Seq<TupleFieldModel>,
)
    ensures
        tuple_field_list_rest(
            inp,
            c,
            closer,
            node,
            before,
        ) == tuple_field_list_rest_def(inp, c, closer, node, before),
{
    reveal_with_fuel(tuple_field_list_rest, 1);
}

/// A list of fields without names up to the closing token `closer`, which is not
/// consumed.
pub open spec fn tuple_field_list_at_def(
    inp: Input,
    c: Cursor,
    closer: Punctuator,
    node: Node,
) -> Parsed<Elements<TupleFieldModel>>
    decreases inp.remaining(c), 11int, 0int,
{
    if inp.at(c, closer) {
        c.done(c, Elements { items: Seq::empty(), trailing_comma: false })
    } else {
        tuple_field_list_rest(inp, c, closer, node, Seq::empty())
    }
}

/// What [`tuple_field_list_at_def`] defines, kept folded until [`lemma_tuple_field_list_at`]
/// unfolds it.
#[verifier::opaque]
pub open spec fn tuple_field_list_at(
    inp: Input,
    c: Cursor,
    closer: Punctuator,
    node: Node,
) -> Parsed<Elements<TupleFieldModel>>
    decreases inp.remaining(c), 11int, 1int,
{
    tuple_field_list_at_def(inp, c, closer, node)
}

/// [`tuple_field_list_at`] is what [`tuple_field_list_at_def`] defines.
pub proof fn lemma_tuple_field_list_at(inp: Input, c: Cursor, closer: Punctuator, node: Node)
    ensures
        tuple_field_list_at(inp, c, closer, node) == tuple_field_list_at_def(inp, c, closer, node),
{
    reveal_with_fuel(tuple_field_list_at, 1);
}

/// One field of a struct or of a struct-like enum item: the comments that
/// document it, a visibility, a name, `:` and a type.
pub open spec fn struct_field_at_def(inp: Input, c: Cursor) -> Parsed<StructFieldModel>
{
    let docstring = docstring_at(inp, c, false);
    let c1 = c.after(docstring);
    let visibility = visibility_at(inp, c1);
    let c2 = c1.after(visibility);
    let name = identifier_at(inp, c2, Node::StructField);
    let c3 = c2.after(name);
    let colon = punctuator_at(inp, c3, Punctuator::Colon, Node::StructField);
    let c4 = c3.after(colon);
    let ty = type_at(inp, c4);
    let c5 = c4.after(ty);
    if !name.ok() {
        c.fail(c3)
    } else if !colon.ok() {
        c.fail(c4)
    } else if !ty.ok() {
        c.fail(c5)
    } else {
        c.done(
            c5,
            StructFieldModel {
                visibility: visibility.value->0,
                name: name.value->0,
                ty: ty.value->0,
                docstring: docstring.value->0,
            },
        )
    }
}

/// What [`struct_field_at_def`] defines, kept folded until [`lemma_struct_field_at`] unfolds it.
#[verifier::opaque]
pub open spec fn struct_field_at(inp: Input, c: Cursor) -> Parsed<StructFieldModel>
{
    struct_field_at_def(inp, c)
}

/// [`struct_field_at`] is what [`struct_field_at_def`] defines.
pub proof fn lemma_struct_field_at(inp: Input, c: Cursor)
    ensures
        struct_field_at(inp, c) == struct_field_at_def(inp, c),
{
    reveal(struct_field_at);
}

/// The rest of a list of fields with names after those in `before`; `c` stands at
/// the first token of the next one. After each comes a comma or the closing
/// token `closer`, and a comma may stand before the closing token, which is
/// not consumed. Any other token is reported; the list then ends at the next
/// closing token, and fails where there is none before the end of the file.
pub open spec fn struct_field_list_rest_def(
    inp: Input,
    c: Cursor,
    closer: Punctuator,
    node: Node,
    before: Seq<StructFieldModel>,
) -> Parsed<Elements<StructFieldModel>>
    decreases inp.remaining(c), 10int, 0int,
{
    let end = RawToken::Punctuator(closer);
    let element = struct_field_at(inp, c);
    let c1 = c.after(element);
    match element.value {
        None => c.fail(c1),
        Some(element) => {
            let items = before.push(element);
            let c2 = list_step_end(inp, c1, end, end, node);
            match list_step(inp, c1, end, end) {
                ListStep::Next => c.onward(
                    c2,
                    struct_field_list_rest(inp, c2, closer, node, items),
                ),
                ListStep::End { trailing_comma } => c.done(c2, Elements { items, trailing_comma }),
                ListStep::Abandon => c.fail(c2),
            }
        },
    }
}

/// What [`struct_field_list_rest_def`] defines, kept folded until [`lemma_struct_field_list_rest`]
/// unfolds it.
#[verifier::opaque]
pub open spec fn struct_field_list_rest(
    inp: Input,
    c: Cursor,
    closer: Punctuator,
    node: Node,
    before: Seq<StructFieldModel>,
) -> Parsed<Elements<StructFieldModel>>
    decreases inp.remaining(c), 10int, 1int,
{
    struct_field_list_rest_def(inp, c, closer, node, before)
}

/// [`struct_field_list_rest`] is what [`struct_field_list_rest_def`] defines.
pub proof fn lemma_struct_field_list_rest(
    inp: Input,
    c: Cursor,
    closer: Punctuator,
    node: Node,
    before: Seq<StructFieldModel>,
)
    ensures
        struct_field_list_rest(
            inp,
            c,
            closer,
            node,
            before,
        ) == struct_field_list_rest_def(inp, c, closer, node, before),
{
    reveal_with_fuel(struct_field_list_rest, 1);
}

/// A list of fields with names up to the closing token `closer`, which is not
/// consumed.
pub open spec fn struct_field_list_at_def(
    inp: Input,
    c: Cursor,
    closer: Punctuator,
    node: Node,
) -> Parsed<Elements<StructFieldModel>>
    decreases inp.remaining(c), 11int, 0int,
{
    if inp.at(c, closer) {
        c.done(c, Elements { items: Seq::empty(), trailing_comma: false })
    } else {
        struct_field_list_rest(inp, c, closer, node, Seq::empty())
    }
}

/// What [`struct_field_list_at_def`] defines, kept folded until [`lemma_struct_field_list_at`]
/// unfolds it.
#[verifier::opaque]
pub open spec fn struct_field_list_at(
    inp: Input,
    c: Cursor,
    closer: Punctuator,
    node: Node,
) -> Parsed<Elements<StructFieldModel>>
    decreases inp.remaining(c), 11int, 1int,
{
    struct_field_list_at_def(inp, c, closer, node)
}

/// [`struct_field_list_at`] is what [`struct_field_list_at_def`] defines.
pub proof fn lemma_struct_field_list_at(inp: Input, c: Cursor, closer: Punctuator, node: Node)
    ensures
        struct_field_list_at(
            inp,
            c,
            closer,
            node,
        ) == struct_field_list_at_def(inp, c, closer, node),
{
    reveal_with_fuel(struct_field_list_at, 1);
}

/// One item of an enum: the comments that document it and a name, then
/// fields in braces, types in parentheses, or nothing.
pub open spec fn enum_item_at_def(inp: Input, c: Cursor) -> Parsed<EnumItemModel>
{
    let docstring = docstring_at(inp, c, false);
    let c1 = c.after(docstring);
    let name = identifier_at(inp, c1, Node::EnumItem);
    let c2 = c1.after(name);
    let c3 = c2.bump(inp);
    match name.value {
        None => c.fail(c2),
        Some(name) => if inp.at(c2, Punctuator::OpenBrace) {
            let fields = struct_field_list_at(inp, c3, Punctuator::CloseBrace, Node::EnumItem);
            let c4 = c3.after(fields);
            match fields.value {
                None => c.fail(c4),
                Some(fields) => c.done(
                    c4.bump(inp),
                    EnumItemModel::Struct {
                        name,
                        fields: fields.items,
                        docstring: docstring.value->0,
                    },
                ),
            }
        } else if inp.at(c2, Punctuator::OpenParent) {
            let fields = tuple_field_list_at(inp, c3, Punctuator::CloseParent, Node::EnumItem);
            let c4 = c3.after(fields);
            match fields.value {
                None => c.fail(c4),
                Some(fields) => c.done(
                    c4.bump(inp),
                    EnumItemModel::Tuple {
                        name,
                        fields: fields.items,
                        docstring: docstring.value->0,
                    },
                ),
            }
        } else {
            c.done(c2, EnumItemModel::Just { name, docstring: docstring.value->0 })
        },
    }
}

/// What [`enum_item_at_def`] defines, kept folded until [`lemma_enum_item_at`] unfolds it.
#[verifier::opaque]
pub open spec fn enum_item_at(inp: Input, c: Cursor) -> Parsed<EnumItemModel>
{
    enum_item_at_def(inp, c)
}

/// [`enum_item_at`] is what [`enum_item_at_def`] defines.
pub proof fn lemma_enum_item_at(inp: Input, c: Cursor)
    ensures
        enum_item_at(inp, c) == enum_item_at_def(inp, c),
{
    reveal(enum_item_at);
}

/// The rest of a list of items of an enum after those in `before`; `c` stands at
/// the first token of the next one. After each comes a comma or the closing
/// token `closer`, and a comma may stand before the closing token, which is
/// not consumed. Any other token is reported; the list then ends at the next
/// closing token, and fails where there is none before the end of the file.
pub open spec fn enum_item_list_rest_def(
    inp: Input,
    c: Cursor,
    closer: Punctuator,
    node: Node,
    before: Seq<EnumItemModel>,
) -> Parsed<Elements<EnumItemModel>>
    decreases inp.remaining(c), 10int, 0int,
{
    let end = RawToken::Punctuator(closer);
    let element = enum_item_at(inp, c);
    let c1 = c.after(element);
    match element.value {
        None => c.fail(c1),
        Some(element) => {
            let items = before.push(element);
            let c2 = list_step_end(inp, c1, end, end, node);
            match list_step(inp, c1, end, end) {
                ListStep::Next => c.onward(
                    c2,
                    enum_item_list_rest(inp, c2, closer, node, items),
                ),
                ListStep::End { trailing_comma } => c.done(c2, Elements { items, trailing_comma }),
                ListStep::Abandon => c.fail(c2),
            }
        },
    }
}

/// What [`enum_item_list_rest_def`] defines, kept folded until [`lemma_enum_item_list_rest`]
/// unfolds it.
#[verifier::opaque]
pub open spec fn enum_item_list_rest(
    inp: Input,
    c: Cursor,
    closer: Punctuator,
    node: Node,
    before: Seq<EnumItemModel>,
) -> Parsed<Elements<EnumItemModel>>
    decreases inp.remaining(c), 10int, 1int,
{
    enum_item_list_rest_def(inp, c, closer, node, before)
}

/// [`enum_item_list_rest`] is what [`enum_item_list_rest_def`] defines.
pub proof fn lemma_enum_item_list_rest(
    inp: Input,
    c: Cursor,
    closer: Punctuator,
    node: Node,
    before: Seq<EnumItemModel>,
)
    ensures
        enum_item_list_rest(
            inp,
            c,
            closer,
            node,
            before,
        ) == enum_item_list_rest_def(inp, c, closer, node, before),
{
    reveal_with_fuel(enum_item_list_rest, 1);
}

/// A list of items of an enum up to the closing token `closer`, which is not
/// consumed.
pub open spec fn enum_item_list_at_def(
    inp: Input,
    c: Cursor,
    closer: Punctuator,
    node: Node,
) -> Parsed<Elements<EnumItemModel>>
    decreases inp.remaining(c), 11int, 0int,
{
    if inp.at(c, closer) {
        c.done(c, Elements { items: Seq::empty(), trailing_comma: false })
    } else {
        enum_item_list_rest(inp, c, closer, node, Seq::empty())
    }
}

/// What [`enum_item_list_at_def`] defines, kept folded until [`lemma_enum_item_list_at`] unfolds
/// it.
#[verifier::opaque]
pub open spec fn enum_item_list_at(
    inp: Input,
    c: Cursor,
    closer: Punctuator,
    node: Node,
) -> Parsed<Elements<EnumItemModel>>
    decreases inp.remaining(c), 11int, 1int,
{
    enum_item_list_at_def(inp, c, closer, node)
}

/// [`enum_item_list_at`] is what [`enum_item_list_at_def`] defines.
pub proof fn lemma_enum_item_list_at(inp: Input, c: Cursor, closer: Punctuator, node: Node)
    ensures
        enum_item_list_at(inp, c, closer, node) == enum_item_list_at_def(inp, c, closer, node),
{
    reveal_with_fuel(enum_item_list_at, 1);
}

/// What begins an enum, a struct or a trait after its keyword: the name,
/// generic parameters where they follow, and a where clause where it
/// follows and `with_where` is set.
pub struct Heading {
    /// The name.
    pub name: crate::ast::IdentifierAst,
    /// The generic parameters, if there are any.
    pub generic_parameters: Option<Seq<GenericParameterModel>>,
    /// The where clause, if there is one.
    pub where_clause: Option<Seq<WhereClauseItemModel>>,
}

/// The heading of an item whose keyword stands at `c`.
pub open spec fn heading_at_def(
    inp: Input,
    c: Cursor,
    node: Node,
    with_where: bool,
) -> Parsed<Heading>
{
    let c1 = c.bump(inp);
    let name = identifier_at(inp, c1, node);
    let c2 = c1.after(name);
    let generics = optional_generic_parameters_at(inp, c2);
    let c3 = c2.after(generics);
    let where_clause = optional_where_clause_at(inp, c3);
    let c4 = if with_where {
        c3.after(where_clause)
    } else {
        c3
    };
    if !name.ok() {
        c.fail(c2)
    } else if !generics.ok() {
        c.fail(c3)
    } else if with_where && !where_clause.ok() {
        c.fail(c4)
    } else {
        c.done(
            c4,
            Heading {
                name: name.value->0,
                generic_parameters: generics.value->0,
                where_clause: if with_where {
                    where_clause.value->0
                } else {
                    None
                },
            },
        )
    }
}

/// What [`heading_at_def`] defines, kept folded until [`lemma_heading_at`] unfolds it.
#[verifier::opaque]
pub open spec fn heading_at(inp: Input, c: Cursor, node: Node, with_where: bool) -> Parsed<Heading>
{
    heading_at_def(inp, c, node, with_where)
}

/// [`heading_at`] is what [`heading_at_def`] defines.
pub proof fn lemma_heading_at(inp: Input, c: Cursor, node: Node, with_where: bool)
    ensures
        heading_at(inp, c, node, with_where) == heading_at_def(inp, c, node, with_where),
{
    reveal(heading_at);
}

/// An enum; `c` stands at `enum`. After the heading come the items in
/// braces, separated by commas.
pub open spec fn enum_at_def(
    inp: Input,
    c: Cursor,
    visibility: Visibility,
    docstring: Option<Seq<char>>,
) -> Parsed<ItemModel>
{
    let heading = heading_at(inp, c, Node::Enum, true);
    let c1 = c.after(heading);
    let open = punctuator_at(inp, c1, Punctuator::OpenBrace, Node::Enum);
    let c2 = c1.after(open);
    let items = enum_item_list_at(inp, c2, Punctuator::CloseBrace, Node::Enum);
    let c3 = c2.after(items);
    if inp.peek(c).raw != RawToken::Keyword(Keyword::Enum) {
        c.fail(c)
    } else if !heading.ok() {
        c.fail(c1)
    } else if !open.ok() {
        c.fail(c2)
    } else if !items.ok() {
        c.fail(c3)
    } else {
        c.done(
            c3.bump(inp),
            ItemModel::Enum {
                visibility,
                name: heading.value->0.name,
                generic_parameters: heading.value->0.generic_parameters,
                where_clause: heading.value->0.where_clause,
                items: items.value->0.items,
                docstring,
            },
        )
    }
}

/// What [`enum_at_def`] defines, kept folded until [`lemma_enum_at`] unfolds it.
#[verifier::opaque]
pub open spec fn enum_at(
    inp: Input,
    c: Cursor,
    visibility: Visibility,
    docstring: Option<Seq<char>>,
) -> Parsed<ItemModel>
{
    enum_at_def(inp, c, visibility, docstring)
}

/// [`enum_at`] is what [`enum_at_def`] defines.
pub proof fn lemma_enum_at(
    inp: Input,
    c: Cursor,
    visibility: Visibility,
    docstring: Option<Seq<char>>,
)
    ensures
        enum_at(inp, c, visibility, docstring) == enum_at_def(inp, c, visibility, docstring),
{
    reveal(enum_at);
}

/// The rest of a tuple-like struct after its heading: types in
/// parentheses, a where clause where it follows, and `;`.
pub open spec fn tuple_struct_at_def(
    inp: Input,
    c: Cursor,
    visibility: Visibility,
    docstring: Option<Seq<char>>,
    heading: Heading,
) -> Parsed<ItemModel>
{
    let c1 = c.bump(inp);
    let fields = tuple_field_list_at(inp, c1, Punctuator::CloseParent, Node::Struct);
    let c2 = c1.after(fields);
    let c3 = c2.bump(inp);
    let where_clause = optional_where_clause_at(inp, c3);
    let c4 = c3.after(where_clause);
    let end = punctuator_at(inp, c4, Punctuator::Semicolon, Node::Struct);
    let c5 = c4.after(end);
    if !fields.ok() {
        c.fail(c2)
    } else if !where_clause.ok() {
        c.fail(c4)
    } else if !end.ok() {
        c.fail(c5)
    } else {
        c.done(
            c5,
            ItemModel::TupleLikeStruct {
                visibility,
                name: heading.name,
                generic_parameters: heading.generic_parameters,
                where_clause: where_clause.value->0,
                fields: fields.value->0.items,
                docstring,
            },
        )
    }
}

/// What [`tuple_struct_at_def`] defines, kept folded until [`lemma_tuple_struct_at`] unfolds it.
#[verifier::opaque]
pub open spec fn tuple_struct_at(
    inp: Input,
    c: Cursor,
    visibility: Visibility,
    docstring: Option<Seq<char>>,
    heading: Heading,
) -> Parsed<ItemModel>
{
    tuple_struct_at_def(inp, c, visibility, docstring, heading)
}

/// [`tuple_struct_at`] is what [`tuple_struct_at_def`] defines.
pub proof fn lemma_tuple_struct_at(
    inp: Input,
    c: Cursor,
    visibility: Visibility,
    docstring: Option<Seq<char>>,
    heading: Heading,
)
    ensures
        tuple_struct_at(
            inp,
            c,
            visibility,
            docstring,
            heading,
        ) == tuple_struct_at_def(inp, c, visibility, docstring, heading),
{
    reveal(tuple_struct_at);
}

/// The rest of a struct with named fields after its name and generic
/// parameters: a where clause where it follows, and the fields in braces.
pub open spec fn fields_struct_at_def(
    inp: Input,
    c: Cursor,
    visibility: Visibility,
    docstring: Option<Seq<char>>,
    heading: Heading,
) -> Parsed<ItemModel>
{
    let where_clause = optional_where_clause_at(inp, c);
    let c1 = c.after(where_clause);
    let open = punctuator_at(inp, c1, Punctuator::OpenBrace, Node::Struct);
    let c2 = c1.after(open);
    let fields = struct_field_list_at(inp, c2, Punctuator::CloseBrace, Node::Struct);
    let c3 = c2.after(fields);
    if !where_clause.ok() {
        c.fail(c1)
    } else if !open.ok() {
        c.fail(c2)
    } else if !fields.ok() {
        c.fail(c3)
    } else {
        c.done(
            c3.bump(inp),
            ItemModel::Struct {
                visibility,
                name: heading.name,
                generic_parameters: heading.generic_parameters,
                where_clause: where_clause.value->0,
                fields: fields.value->0.items,
                docstring,
            },
        )
    }
}

/// What [`fields_struct_at_def`] defines, kept folded until [`lemma_fields_struct_at`] unfolds it.
#[verifier::opaque]
pub open spec fn fields_struct_at(
    inp: Input,
    c: Cursor,
    visibility: Visibility,
    docstring: Option<Seq<char>>,
    heading: Heading,
) -> Parsed<ItemModel>
{
    fields_struct_at_def(inp, c, visibility, docstring, heading)
}

/// [`fields_struct_at`] is what [`fields_struct_at_def`] defines.
pub proof fn lemma_fields_struct_at(
    inp: Input,
    c: Cursor,
    visibility: Visibility,
    docstring: Option<Seq<char>>,
    heading: Heading,
)
    ensures
        fields_struct_at(
            inp,
            c,
            visibility,
            docstring,
            heading,
        ) == fields_struct_at_def(inp, c, visibility, docstring, heading),
{
    reveal(fields_struct_at);
}

/// A struct; `c` stands at `struct`. After the name and the generic
/// parameters, `(` begins a tuple-like struct and anything else a struct
/// with named fields.
pub open spec fn struct_at_def(
    inp: Input,
    c: Cursor,
    visibility: Visibility,
    docstring: Option<Seq<char>>,
) -> Parsed<ItemModel>
{
    let heading = heading_at(inp, c, Node::Struct, false);
    let c1 = c.after(heading);
    if inp.peek(c).raw != RawToken::Keyword(Keyword::Struct) {
        c.fail(c)
    } else {
        match heading.value {
            None => c.fail(c1),
            Some(heading) => if inp.at(c1, Punctuator::OpenParent) {
                c.onward(c1, tuple_struct_at(inp, c1, visibility, docstring, heading))
            } else {
                c.onward(c1, fields_struct_at(inp, c1, visibility, docstring, heading))
            },
        }
    }
}

/// What [`struct_at_def`] defines, kept folded until [`lemma_struct_at`] unfolds it.
#[verifier::opaque]
pub open spec fn struct_at(
    inp: Input,
    c: Cursor,
    visibility: Visibility,
    docstring: Option<Seq<char>>,
) -> Parsed<ItemModel>
{
    struct_at_def(inp, c, visibility, docstring)
}

/// [`struct_at`] is what [`struct_at_def`] defines.
pub proof fn lemma_struct_at(
    inp: Input,
    c: Cursor,
    visibility: Visibility,
    docstring: Option<Seq<char>>,
)
    ensures
        struct_at(inp, c, visibility, docstring) == struct_at_def(inp, c, visibility, docstring),
{
    reveal(struct_at);
}

/// One item of a trait or of an implementation: the comments that document
/// it, a visibility, and a function or a type alias. Any other token is
/// reported.
pub open spec fn trait_item_at_def(inp: Input, c: Cursor) -> Parsed<TraitItemModel>
{
    let docstring = docstring_at(inp, c, false);
    let c1 = c.after(docstring);
    let visibility = visibility_at(inp, c1);
    let c2 = c1.after(visibility);
    let raw = inp.peek(c2).raw;
    if raw == RawToken::Keyword(Keyword::Fun) {
        let function = function_at(inp, c2, visibility.value->0, docstring.value->0);
        let c3 = c2.after(function);
        match function.value {
            None => c.fail(c3),
            Some(function) => c.done(c3, TraitItemModel::AssociatedFunction(function)),
        }
    } else if raw == RawToken::Keyword(Keyword::Type) {
        let alias = type_alias_at(inp, c2, visibility.value->0, docstring.value->0);
        let c3 = c2.after(alias);
        match alias.value {
            None => c.fail(c3),
            Some(alias) => c.done(c3, TraitItemModel::TypeAlias(alias)),
        }
    } else {
        c.fail(c2.unexpected(inp, Expected::TraitItem, Node::TraitItem))
    }
}

/// What [`trait_item_at_def`] defines, kept folded until [`lemma_trait_item_at`] unfolds it.
#[verifier::opaque]
pub open spec fn trait_item_at(inp: Input, c: Cursor) -> Parsed<TraitItemModel>
{
    trait_item_at_def(inp, c)
}

/// [`trait_item_at`] is what [`trait_item_at_def`] defines.
pub proof fn lemma_trait_item_at(inp: Input, c: Cursor)
    ensures
        trait_item_at(inp, c) == trait_item_at_def(inp, c),
{
    reveal(trait_item_at);
}

/// The items of a trait or of an implementation after those in `before`,
/// up to the closing brace, which is not consumed. An item that cannot be
/// read ends the reading.
pub open spec fn trait_items_rest_def(inp: Input, c: Cursor, before: Seq<TraitItemModel>) -> Parsed<
    Seq<TraitItemModel>,
>
    decreases inp.remaining(c), 0int,
{
    if inp.at(c, Punctuator::CloseBrace) {
        c.done(c, before)
    } else {
        let item = trait_item_at(inp, c);
        let c1 = c.after(item);
        if item.ok() && c1.pos > c.pos && c.pos < inp.tokens.len() {
            c.onward(c1, trait_items_rest(inp, c1, before.push(item.value->0)))
        } else {
            c.fail(c1)
        }
    }
}

/// What [`trait_items_rest_def`] defines, kept folded until [`lemma_trait_items_rest`] unfolds it.
#[verifier::opaque]
pub open spec fn trait_items_rest(inp: Input, c: Cursor, before: Seq<TraitItemModel>) -> Parsed<
    Seq<TraitItemModel>,
>
    decreases inp.remaining(c), 1int,
{
    trait_items_rest_def(inp, c, before)
}

/// [`trait_items_rest`] is what [`trait_items_rest_def`] defines.
pub proof fn lemma_trait_items_rest(inp: Input, c: Cursor, before: Seq<TraitItemModel>)
    ensures
        trait_items_rest(inp, c, before) == trait_items_rest_def(inp, c, before),
{
    reveal_with_fuel(trait_items_rest, 1);
}

/// The body of a trait or of an implementation: `{`, items and `}`.
pub open spec fn trait_body_at_def(inp: Input, c: Cursor, node: Node) -> Parsed<Seq<TraitItemModel>>
{
    let open = punctuator_at(inp, c, Punctuator::OpenBrace, node);
    let c1 = c.after(open);
    let items = trait_items_rest(inp, c1, Seq::empty());
    let c2 = c1.after(items);
    if !open.ok() {
        c.fail(c1)
    } else {
        match items.value {
            None => c.fail(c2),
            Some(items) => c.done(c2.bump(inp), items),
        }
    }
}

/// What [`trait_body_at_def`] defines, kept folded until [`lemma_trait_body_at`] unfolds it.
#[verifier::opaque]
pub open spec fn trait_body_at(inp: Input, c: Cursor, node: Node) -> Parsed<Seq<TraitItemModel>>
{
    trait_body_at_def(inp, c, node)
}

/// [`trait_body_at`] is what [`trait_body_at_def`] defines.
pub proof fn lemma_trait_body_at(inp: Input, c: Cursor, node: Node)
    ensures
        trait_body_at(inp, c, node) == trait_body_at_def(inp, c, node),
{
    reveal(trait_body_at);
}

/// A trait; `c` stands at `trait`. After the heading comes the body.
pub open spec fn trait_at_def(
    inp: Input,
    c: Cursor,
    visibility: Visibility,
    docstring: Option<Seq<char>>,
) -> Parsed<ItemModel>
{
    let heading = heading_at(inp, c, Node::Trait, true);
    let c1 = c.after(heading);
    let items = trait_body_at(inp, c1, Node::Trait);
    let c2 = c1.after(items);
    if inp.peek(c).raw != RawToken::Keyword(Keyword::Trait) {
        c.fail(c)
    } else if !heading.ok() {
        c.fail(c1)
    } else if !items.ok() {
        c.fail(c2)
    } else {
        c.done(
            c2,
            ItemModel::Trait {
                visibility,
                name: heading.value->0.name,
                generic_parameters: heading.value->0.generic_parameters,
                where_clause: heading.value->0.where_clause,
                items: items.value->0,
                docstring,
            },
        )
    }
}

/// What [`trait_at_def`] defines, kept folded until [`lemma_trait_at`] unfolds it.
#[verifier::opaque]
pub open spec fn trait_at(
    inp: Input,
    c: Cursor,
    visibility: Visibility,
    docstring: Option<Seq<char>>,
) -> Parsed<ItemModel>
{
    trait_at_def(inp, c, visibility, docstring)
}

/// [`trait_at`] is what [`trait_at_def`] defines.
pub proof fn lemma_trait_at(
    inp: Input,
    c: Cursor,
    visibility: Visibility,
    docstring: Option<Seq<char>>,
)
    ensures
        trait_at(inp, c, visibility, docstring) == trait_at_def(inp, c, visibility, docstring),
{
    reveal(trait_at);
}

/// What an implementation is of: a type, or a trait, `for` and a type.
pub struct Implemented {
    /// The type that the implementation is of.
    pub ty: TypeModel,
    /// The trait that is implemented, if one is.
    pub implemented_trait: Option<TypeModel>,
}

/// What an implementation is of, from `c` on.
pub open spec fn implemented_at_def(inp: Input, c: Cursor) -> Parsed<Implemented>
{
    let first = type_at(inp, c);
    let c1 = c.after(first);
    match first.value {
        None => c.fail(c1),
        Some(first) => if inp.peek(c1).raw == RawToken::Keyword(Keyword::For) {
            let c2 = c1.bump(inp);
            let second = type_at(inp, c2);
            let c3 = c2.after(second);
            match second.value {
                None => c.fail(c3),
                Some(second) => c.done(
                    c3,
                    Implemented { ty: second, implemented_trait: Some(first) },
                ),
            }
        } else {
            c.done(c1, Implemented { ty: first, implemented_trait: None })
        },
    }
}

/// What [`implemented_at_def`] defines, kept folded until [`lemma_implemented_at`] unfolds it.
#[verifier::opaque]
pub open spec fn implemented_at(inp: Input, c: Cursor) -> Parsed<Implemented>
{
    implemented_at_def(inp, c)
}

/// [`implemented_at`] is what [`implemented_at_def`] defines.
pub proof fn lemma_implemented_at(inp: Input, c: Cursor)
    ensures
        implemented_at(inp, c) == implemented_at_def(inp, c),
{
    reveal(implemented_at);
}

/// An implementation; `c` stands at `impl`. After the keyword come generic
/// parameters where they follow, what is implemented, a where clause where
/// it follows, and the body.
pub open spec fn impl_at_def(
    inp: Input,
    c: Cursor,
    docstring: Option<Seq<char>>,
) -> Parsed<ImplModel>
{
    let c1 = c.bump(inp);
    let generics = optional_generic_parameters_at(inp, c1);
    let c2 = c1.after(generics);
    let implemented = implemented_at(inp, c2);
    let c3 = c2.after(implemented);
    let where_clause = optional_where_clause_at(inp, c3);
    let c4 = c3.after(where_clause);
    let items = trait_body_at(inp, c4, Node::Impl);
    let c5 = c4.after(items);
    if inp.peek(c).raw != RawToken::Keyword(Keyword::Impl) {
        c.fail(c)
    } else if !generics.ok() {
        c.fail(c2)
    } else if !implemented.ok() {
        c.fail(c3)
    } else if !where_clause.ok() {
        c.fail(c4)
    } else if !items.ok() {
        c.fail(c5)
    } else {
        c.done(
            c5,
            ImplModel {
                generic_parameters: generics.value->0,
                ty: implemented.value->0.ty,
                implemented_trait: implemented.value->0.implemented_trait,
                where_clause: where_clause.value->0,
                items: items.value->0,
                docstring,
            },
        )
    }
}

/// What [`impl_at_def`] defines, kept folded until [`lemma_impl_at`] unfolds it.
#[verifier::opaque]
pub open spec fn impl_at(inp: Input, c: Cursor, docstring: Option<Seq<char>>) -> Parsed<ImplModel>
{
    impl_at_def(inp, c, docstring)
}

/// [`impl_at`] is what [`impl_at_def`] defines.
pub proof fn lemma_impl_at(inp: Input, c: Cursor, docstring: Option<Seq<char>>)
    ensures
        impl_at(inp, c, docstring) == impl_at_def(inp, c, docstring),
{
    reveal(impl_at);
}

/// The item that the keyword at `c` begins. A token that begins no item is
/// reported and skipped.
pub open spec fn item_body_at_def(
    inp: Input,
    c: Cursor,
    visibility: Visibility,
    docstring: Option<Seq<char>>,
) -> Parsed<ItemModel>
{
    let raw = inp.peek(c).raw;
    if raw == RawToken::Keyword(Keyword::Enum) {
        enum_at(inp, c, visibility, docstring)
    } else if raw == RawToken::Keyword(Keyword::Import) || raw == RawToken::Keyword(Keyword::Use) {
        import_at(inp, c, visibility)
    } else if raw == RawToken::Keyword(Keyword::Struct) {
        struct_at(inp, c, visibility, docstring)
    } else if raw == RawToken::Keyword(Keyword::Trait) {
        trait_at(inp, c, visibility, docstring)
    } else if raw == RawToken::Keyword(Keyword::Fun) {
        let function = function_at(inp, c, visibility, docstring);
        let c1 = c.after(function);
        match function.value {
            None => c.fail(c1),
            Some(function) => c.done(c1, ItemModel::Function(function)),
        }
    } else if raw == RawToken::Keyword(Keyword::Impl) {
        let implementation = impl_at(inp, c, docstring);
        let c1 = c.after(implementation);
        match implementation.value {
            None => c.fail(c1),
            Some(implementation) => c.done(c1, ItemModel::Impl(implementation)),
        }
    } else if raw == RawToken::Keyword(Keyword::Type) {
        let alias = type_alias_at(inp, c, visibility, docstring);
        let c1 = c.after(alias);
        match alias.value {
            None => c.fail(c1),
            Some(alias) => c.done(c1, ItemModel::TypeAlias(alias)),
        }
    } else {
        c.fail(c.unexpected(inp, Expected::Item, Node::Item).bump(inp))
    }
}

/// What [`item_body_at_def`] defines, kept folded until [`lemma_item_body_at`] unfolds it.
#[verifier::opaque]
pub open spec fn item_body_at(
    inp: Input,
    c: Cursor,
    visibility: Visibility,
    docstring: Option<Seq<char>>,
) -> Parsed<ItemModel>
{
    item_body_at_def(inp, c, visibility, docstring)
}

/// [`item_body_at`] is what [`item_body_at_def`] defines.
pub proof fn lemma_item_body_at(
    inp: Input,
    c: Cursor,
    visibility: Visibility,
    docstring: Option<Seq<char>>,
)
    ensures
        item_body_at(
            inp,
            c,
            visibility,
            docstring,
        ) == item_body_at_def(inp, c, visibility, docstring),
{
    reveal(item_body_at);
}

/// An item: the comments that document it, `pub` where it follows, and
/// what the keyword after them begins.
pub open spec fn item_at_def(inp: Input, c: Cursor) -> Parsed<ItemModel>
{
    let docstring = docstring_at(inp, c, false);
    let c1 = c.after(docstring);
    let visibility = visibility_at(inp, c1);
    let c2 = c1.after(visibility);
    c.onward(c2, item_body_at(inp, c2, visibility.value->0, docstring.value->0))
}

/// What [`item_at_def`] defines, kept folded until [`lemma_item_at`] unfolds it.
#[verifier::opaque]
pub open spec fn item_at(inp: Input, c: Cursor) -> Parsed<ItemModel>
{
    item_at_def(inp, c)
}

/// [`item_at`] is what [`item_at_def`] defines.
pub proof fn lemma_item_at(inp: Input, c: Cursor)
    ensures
        item_at(inp, c) == item_at_def(inp, c),
{
    reveal(item_at);
}

/// The items of a module after those in `before`, up to the end of the
/// file. An item that cannot be read is left out, and reading goes on
/// where reading it stopped.
pub open spec fn items_rest_def(inp: Input, c: Cursor, before: Seq<ItemModel>) -> Parsed<
    Seq<ItemModel>,
>
    decreases inp.remaining(c), 0int,
{
    if inp.peek(c).raw == RawToken::EndOfFile {
        c.done(c, before)
    } else {
        let item = item_at(inp, c);
        let c1 = c.after(item);
        let items = match item.value {
            Some(item) => before.push(item),
            None => before,
        };
        if c1.pos > c.pos && c.pos < inp.tokens.len() {
            c.onward(c1, items_rest(inp, c1, items))
        } else {
            c.done(c1, items)
        }
    }
}

/// What [`items_rest_def`] defines, kept folded until [`lemma_items_rest`] unfolds it.
#[verifier::opaque]
pub open spec fn items_rest(inp: Input, c: Cursor, before: Seq<ItemModel>) -> Parsed<
    Seq<ItemModel>,
>
    decreases inp.remaining(c), 1int,
{
    items_rest_def(inp, c, before)
}

/// [`items_rest`] is what [`items_rest_def`] defines.
pub proof fn lemma_items_rest(inp: Input, c: Cursor, before: Seq<ItemModel>)
    ensures
        items_rest(inp, c, before) == items_rest_def(inp, c, before),
{
    reveal_with_fuel(items_rest, 1);
}

/// A module: the comments that document it, and its items up to the end of
/// the file.
pub open spec fn module_at_def(inp: Input, c: Cursor) -> Parsed<ModuleModel>
{
    let docstring = docstring_at(inp, c, true);
    let c1 = c.after(docstring);
    let items = items_rest(inp, c1, Seq::empty());
    let c2 = c1.after(items);
    match items.value {
        None => c.fail(c2),
        Some(items) => c.done(c2, ModuleModel { items, docstring: docstring.value->0 }),
    }
}

/// What [`module_at_def`] defines, kept folded until [`lemma_module_at`] unfolds it.
#[verifier::opaque]
pub open spec fn module_at(inp: Input, c: Cursor) -> Parsed<ModuleModel>
{
    module_at_def(inp, c)
}

/// [`module_at`] is what [`module_at_def`] defines.
pub proof fn lemma_module_at(inp: Input, c: Cursor)
    ensures
        module_at(inp, c) == module_at_def(inp, c),
{
    reveal(module_at);
}

/// What parsing the tokens `inp` gives: the module, and the diagnostics in
/// the order in which they were reported.
pub open spec fn parse_result(inp: Input) -> Parsed<ModuleModel> {
    module_at(inp, Cursor { pos: 0, diagnostics: Seq::empty() })
}

} // verus!
