//! The text that shows a syntax tree, for debugging.
//!
//! A node is shown by its name, with `@` and its span where it has one.
//! What it holds follows on lines of their own, one level deeper, each as a
//! key, `: ` and a value. A level is one tabulator.

use crate::ast::{IdentifierAst, Visibility};
use crate::model::{
    LiteralModel, EnumItemModel, ExpressionModel, FunctionModel, FunctionParameterModel,
    GenericArgumentModel, GenericParameterModel, ImplModel, ImportPathModel, ItemModel,
    JustFunctionParameterModel, LambdaFunctionParameterModel, MatchExpressionItemModel,
    ModuleModel, PathModel, PatternModel, SelfParameterModel, StatementModel,
    StructExpressionItemModel, StructFieldModel, StructFieldPatternModel, TraitItemModel,
    TupleFieldModel, TypeAliasModel, TypeModel, TypePathModel, TypePathSegmentModel,
    WhereClauseItemModel,
};
use crate::span::Span;
use crate::token::Punctuator;
use vstd::prelude::*;

verus! {

/// The indentation one level deeper than `indent`; the deepest level is
/// the largest machine word.
pub open spec fn deeper(indent: int) -> int {
    if indent < usize::MAX {
        indent + 1
    } else {
        indent
    }
}

/// `n` tabulators.
pub open spec fn tabs_text_def(n: int) -> Seq<char>
    decreases n, 0int,
{
    if n <= 0 {
        Seq::empty()
    } else {
        tabs_text(n - 1) + "\t"@
    }
}

/// What [`tabs_text_def`] defines, kept folded until [`lemma_tabs_text`] unfolds it.
#[verifier::opaque]
pub open spec fn tabs_text(n: int) -> Seq<char>
    decreases n, 1int,
{
    tabs_text_def(n)
}

/// [`tabs_text`] is what [`tabs_text_def`] defines.
pub proof fn lemma_tabs_text(n: int)
    ensures
        tabs_text(n) == tabs_text_def(n),
{
    reveal_with_fuel(tabs_text, 1);
}

/// A value on a line of its own at the indentation `indent`.
pub open spec fn line_text_def(value: Seq<char>, indent: int) -> Seq<char>
{
    "\n"@ + tabs_text(indent) + value
}

/// What [`line_text_def`] defines, kept folded until [`lemma_line_text`] unfolds it.
#[verifier::opaque]
pub open spec fn line_text(value: Seq<char>, indent: int) -> Seq<char>
{
    line_text_def(value, indent)
}

/// [`line_text`] is what [`line_text_def`] defines.
pub proof fn lemma_line_text(value: Seq<char>, indent: int)
    ensures
        line_text(value, indent) == line_text_def(value, indent),
{
    reveal(line_text);
}

/// A key and its value on a line of their own at the indentation `indent`.
pub open spec fn pair_text_def(key: Seq<char>, value: Seq<char>, indent: int) -> Seq<char>
{
    "\n"@ + tabs_text(indent) + key + ": "@ + value
}

/// What [`pair_text_def`] defines, kept folded until [`lemma_pair_text`] unfolds it.
#[verifier::opaque]
pub open spec fn pair_text(key: Seq<char>, value: Seq<char>, indent: int) -> Seq<char>
{
    pair_text_def(key, value, indent)
}

/// [`pair_text`] is what [`pair_text_def`] defines.
pub proof fn lemma_pair_text(key: Seq<char>, value: Seq<char>, indent: int)
    ensures
        pair_text(key, value, indent) == pair_text_def(key, value, indent),
{
    reveal(pair_text);
}

/// The text of a pair that may be left out.
pub open spec fn optional_pair(pair: Option<Seq<char>>) -> Seq<char> {
    match pair {
        Some(text) => text,
        None => Seq::empty(),
    }
}

/// The decimal digit that stands for `d`, for `d` from 0 to 9.
pub open spec fn digit_text(d: int) -> Seq<char> {
    if d == 0 {
        "0"@
    } else if d == 1 {
        "1"@
    } else if d == 2 {
        "2"@
    } else if d == 3 {
        "3"@
    } else if d == 4 {
        "4"@
    } else if d == 5 {
        "5"@
    } else if d == 6 {
        "6"@
    } else if d == 7 {
        "7"@
    } else if d == 8 {
        "8"@
    } else {
        "9"@
    }
}

/// The decimal digits of `n`, which is not negative, without leading zeros.
pub open spec fn number_text_def(n: int) -> Seq<char>
    decreases n, 0int,
{
    if n < 10 {
        digit_text(n)
    } else {
        number_text(n / 10) + digit_text(n % 10)
    }
}

/// What [`number_text_def`] defines, kept folded until [`lemma_number_text`] unfolds it.
#[verifier::opaque]
pub open spec fn number_text(n: int) -> Seq<char>
    decreases n, 1int,
{
    number_text_def(n)
}

/// [`number_text`] is what [`number_text_def`] defines.
pub proof fn lemma_number_text(n: int)
    ensures
        number_text(n) == number_text_def(n),
{
    reveal_with_fuel(number_text, 1);
}

/// The text of a span: `DUMMY` for the span of a synthesized node,
/// `INVALID` for a span that does not end after its start, and else the
/// start, `..` and the end.
pub open spec fn span_text_def(span: Span) -> Seq<char>
{
    if span == Span::spec_dummy() {
        "DUMMY"@
    } else if span.start >= span.end {
        "INVALID"@
    } else {
        number_text(span.start as int) + ".."@ + number_text(span.end as int)
    }
}

/// What [`span_text_def`] defines, kept folded until [`lemma_span_text`] unfolds it.
#[verifier::opaque]
pub open spec fn span_text(span: Span) -> Seq<char>
{
    span_text_def(span)
}

/// [`span_text`] is what [`span_text_def`] defines.
pub proof fn lemma_span_text(span: Span)
    ensures
        span_text(span) == span_text_def(span),
{
    reveal(span_text);
}

/// The span from the start of `a` to the end of `b`, in no file.
pub open spec fn between(a: Span, b: Span) -> Span {
    Span { start: a.start, end: b.end, file_id: 0 }
}

/// The name of a node, `@` and its span.
pub open spec fn node_text_def(name: Seq<char>, span: Span) -> Seq<char>
{
    name + "@"@ + span_text(span)
}

/// What [`node_text_def`] defines, kept folded until [`lemma_node_text`] unfolds it.
#[verifier::opaque]
pub open spec fn node_text(name: Seq<char>, span: Span) -> Seq<char>
{
    node_text_def(name, span)
}

/// [`node_text`] is what [`node_text_def`] defines.
pub proof fn lemma_node_text(name: Seq<char>, span: Span)
    ensures
        node_text(name, span) == node_text_def(name, span),
{
    reveal(node_text);
}

/// `TRUE` or `FALSE`.
pub open spec fn bool_text(value: bool) -> Seq<char> {
    if value {
        "TRUE"@
    } else {
        "FALSE"@
    }
}

/// The text of a symbol; the empty text for a symbol that stands for none.
pub open spec fn symbol_text(names: Seq<Seq<char>>, symbol: usize) -> Seq<char> {
    if symbol < names.len() {
        names[symbol as int]
    } else {
        Seq::empty()
    }
}

/// The text of a name: its characters between backticks, and its span.
pub open spec fn identifier_text_def(x: IdentifierAst, names: Seq<Seq<char>>) -> Seq<char>
{
    "IDENTIFIER(`"@ + symbol_text(names, x.symbol) + "`)@"@ + span_text(x.span)
}

/// What [`identifier_text_def`] defines, kept folded until [`lemma_identifier_text`] unfolds it.
#[verifier::opaque]
pub open spec fn identifier_text(x: IdentifierAst, names: Seq<Seq<char>>) -> Seq<char>
{
    identifier_text_def(x, names)
}

/// [`identifier_text`] is what [`identifier_text_def`] defines.
pub proof fn lemma_identifier_text(x: IdentifierAst, names: Seq<Seq<char>>)
    ensures
        identifier_text(x, names) == identifier_text_def(x, names),
{
    reveal(identifier_text);
}

/// The text of a visibility.
pub open spec fn visibility_text_def(x: Visibility) -> Seq<char>
{
    match x.0 {
        Some(span) => "PUBLIC@"@ + span_text(span),
        None => "PRIVATE"@,
    }
}

/// What [`visibility_text_def`] defines, kept folded until [`lemma_visibility_text`] unfolds it.
#[verifier::opaque]
pub open spec fn visibility_text(x: Visibility) -> Seq<char>
{
    visibility_text_def(x)
}

/// [`visibility_text`] is what [`visibility_text_def`] defines.
pub proof fn lemma_visibility_text(x: Visibility)
    ensures
        visibility_text(x) == visibility_text_def(x),
{
    reveal(visibility_text);
}

/// The text of an operator: the characters that spell it, and its span.
pub open spec fn operator_text(operator: Punctuator, span: Span) -> Seq<char> {
    operator.text() + "@"@ + span_text(span)
}

/// The text of a literal: its kind, its value in parentheses, and its span.
pub open spec fn literal_text_def(x: LiteralModel) -> Seq<char>
{
    match x {
        LiteralModel::Boolean { value, span } => "BOOLEAN_LITERAL("@ + bool_text(value) + ")@"@
            + span_text(span),
        LiteralModel::Character { value, span } => "CHARACTER_LITERAL(`"@ + seq![value] + "`)@"@
            + span_text(span),
        LiteralModel::String { value, span } => "STRING_LITERAL(`"@ + value + "`)@"@ + span_text(
            span,
        ),
        LiteralModel::Integer { value, span } => "INTEGER_LITERAL("@ + number_text(value as int)
            + ")@"@ + span_text(span),
        LiteralModel::Float { value, span } => "FLOAT_LITERAL("@ + value + ")@"@ + span_text(span),
    }
}

/// What [`literal_text_def`] defines, kept folded until [`lemma_literal_text`] unfolds it.
#[verifier::opaque]
pub open spec fn literal_text(x: LiteralModel) -> Seq<char>
{
    literal_text_def(x)
}

/// [`literal_text`] is what [`literal_text_def`] defines.
pub proof fn lemma_literal_text(x: LiteralModel)
    ensures
        literal_text(x) == literal_text_def(x),
{
    reveal(literal_text);
}

/// The text of a path at the indentation `indent`.
pub open spec fn path_text_def(x: PathModel, names: Seq<Seq<char>>, indent: int) -> Seq<char>
{
    let deep = deeper(indent);
    node_text("PATH"@, x.span)
            + identifiers_text(x.identifiers, names, deep)
}

/// What [`path_text_def`] defines, kept folded until [`lemma_path_text`] unfolds it.
#[verifier::opaque]
pub open spec fn path_text(x: PathModel, names: Seq<Seq<char>>, indent: int) -> Seq<char>
{
    path_text_def(x, names, indent)
}

/// [`path_text`] is what [`path_text_def`] defines.
pub proof fn lemma_path_text(x: PathModel, names: Seq<Seq<char>>, indent: int)
    ensures
        path_text(x, names, indent) == path_text_def(x, names, indent),
{
    reveal(path_text);
}

/// The text of a type path at the indentation `indent`.
pub open spec fn type_path_text_def(
    x: TypePathModel,
    names: Seq<Seq<char>>,
    indent: int,
) -> Seq<char>
    decreases x, 0int,
{
    let deep = deeper(indent);
    node_text("TYPE_PATH"@, x.span)
            + type_path_segments_text(x.segments, names, deep)
}

/// What [`type_path_text_def`] defines, kept folded until [`lemma_type_path_text`] unfolds it.
#[verifier::opaque]
pub open spec fn type_path_text(x: TypePathModel, names: Seq<Seq<char>>, indent: int) -> Seq<char>
    decreases x, 1int,
{
    type_path_text_def(x, names, indent)
}

/// [`type_path_text`] is what [`type_path_text_def`] defines.
pub proof fn lemma_type_path_text(x: TypePathModel, names: Seq<Seq<char>>, indent: int)
    ensures
        type_path_text(x, names, indent) == type_path_text_def(x, names, indent),
{
    reveal_with_fuel(type_path_text, 1);
}

/// The text of a type path segment at the indentation `indent`.
pub open spec fn type_path_segment_text_def(
    x: TypePathSegmentModel,
    names: Seq<Seq<char>>,
    indent: int,
) -> Seq<char>
    decreases x, 0int,
{
    let deep = deeper(indent);
    node_text("TYPE_PATH_SEGMENT"@, x.span)
            + pair_text("PATH"@, path_text(x.path, names, deep), deep)
            + optional_pair(
                match x.generic_arguments {
                    Some(v) => Some(
                        pair_text(
                            "GENERIC_ARGUMENTS"@,
                            generic_arguments_text(v, names, deep),
                            deep,
                        )
                    ),
                    None => None,
                },
            )
}

/// What [`type_path_segment_text_def`] defines, kept folded until [`lemma_type_path_segment_text`]
/// unfolds it.
#[verifier::opaque]
pub open spec fn type_path_segment_text(
    x: TypePathSegmentModel,
    names: Seq<Seq<char>>,
    indent: int,
) -> Seq<char>
    decreases x, 1int,
{
    type_path_segment_text_def(x, names, indent)
}

/// [`type_path_segment_text`] is what [`type_path_segment_text_def`] defines.
pub proof fn lemma_type_path_segment_text(
    x: TypePathSegmentModel,
    names: Seq<Seq<char>>,
    indent: int,
)
    ensures
        type_path_segment_text(x, names, indent) == type_path_segment_text_def(x, names, indent),
{
    reveal_with_fuel(type_path_segment_text, 1);
}

/// The text of a generic argument at the indentation `indent`.
pub open spec fn generic_argument_text_def(
    x: GenericArgumentModel,
    names: Seq<Seq<char>>,
    indent: int,
) -> Seq<char>
    decreases x, 0int,
{
    let deep = deeper(indent);
    match x {
        GenericArgumentModel::Type(a) => node_text("GENERIC_ARGUMENT"@, a.span())
            + pair_text("TYPE"@, type_text(a, names, deep), deep),
        GenericArgumentModel::AssociatedType { name, value } => node_text(
            "NAMED_GENERIC_ARGUMENT"@,
            between(name.span, value.span()),
        )
            + pair_text("NAME"@, identifier_text(name, names), deep)
            + pair_text("VALUE"@, type_text(value, names, deep), deep),
    }
}

/// What [`generic_argument_text_def`] defines, kept folded until [`lemma_generic_argument_text`]
/// unfolds it.
#[verifier::opaque]
pub open spec fn generic_argument_text(
    x: GenericArgumentModel,
    names: Seq<Seq<char>>,
    indent: int,
) -> Seq<char>
    decreases x, 1int,
{
    generic_argument_text_def(x, names, indent)
}

/// [`generic_argument_text`] is what [`generic_argument_text_def`] defines.
pub proof fn lemma_generic_argument_text(
    x: GenericArgumentModel,
    names: Seq<Seq<char>>,
    indent: int,
)
    ensures
        generic_argument_text(x, names, indent) == generic_argument_text_def(x, names, indent),
{
    reveal_with_fuel(generic_argument_text, 1);
}

/// The text of a type at the indentation `indent`.
pub open spec fn type_text_def(x: TypeModel, names: Seq<Seq<char>>, indent: int) -> Seq<char>
    decreases x, 0int,
{
    let deep = deeper(indent);
    match x {
        TypeModel::Path(a) => type_path_text(a, names, indent),
        TypeModel::Tuple { span, element_types } => node_text("TUPLE_TYPE"@, span)
            + pair_text("ELEMENT_TYPES"@, types_text(element_types, names, deep), deep),
        TypeModel::Function {
            span,
            parameter_types,
            return_type,
        } => node_text("FUNCTION_TYPE"@, span)
            + pair_text("PARAMETER_TYPES"@, types_text(parameter_types, names, deep), deep)
            + pair_text("RETURN_TYPE"@, type_text(*return_type, names, deep), deep),
        TypeModel::Parenthesized { span, inner } => node_text("PARENTHESIZED_TYPE"@, span)
            + pair_text("TYPE"@, type_text(*inner, names, deep), deep),
        TypeModel::TraitObject { span, bounds } => node_text("TRAIT_OBJECT_TYPE"@, span)
            + pair_text("BOUNDS"@, type_paths_text(bounds, names, deep), deep),
        TypeModel::WithQualifiedPath { span, left, right, segments } => node_text(
            "TYPE_WITH_QUALIFIED_PATH"@,
            span,
        )
            + pair_text("LEFT"@, type_text(*left, names, deep), deep)
            + pair_text("RIGHT"@, type_path_text(right, names, deep), deep)
            + pair_text("SEGMENTS"@, type_path_segments_text(segments, names, deep), deep),
    }
}

/// What [`type_text_def`] defines, kept folded until [`lemma_type_text`] unfolds it.
#[verifier::opaque]
pub open spec fn type_text(x: TypeModel, names: Seq<Seq<char>>, indent: int) -> Seq<char>
    decreases x, 1int,
{
    type_text_def(x, names, indent)
}

/// [`type_text`] is what [`type_text_def`] defines.
pub proof fn lemma_type_text(x: TypeModel, names: Seq<Seq<char>>, indent: int)
    ensures
        type_text(x, names, indent) == type_text_def(x, names, indent),
{
    reveal_with_fuel(type_text, 1);
}

/// The text of a generic parameter at the indentation `indent`.
pub open spec fn generic_parameter_text_def(
    x: GenericParameterModel,
    names: Seq<Seq<char>>,
    indent: int,
) -> Seq<char>
{
    let deep = deeper(indent);
    "GENERIC_PARAMETER"@
            + pair_text("NAME"@, identifier_text(x.name, names), deep)
            + optional_pair(
                match x.bounds {
                    Some(v) => Some(pair_text("BOUNDS"@, type_paths_text(v, names, deep), deep)),
                    None => None,
                },
            )
            + optional_pair(
                match x.default_value {
                    Some(v) => Some(pair_text("DEFAULT"@, type_text(v, names, deep), deep)),
                    None => None,
                },
            )
}

/// What [`generic_parameter_text_def`] defines, kept folded until [`lemma_generic_parameter_text`]
/// unfolds it.
#[verifier::opaque]
pub open spec fn generic_parameter_text(
    x: GenericParameterModel,
    names: Seq<Seq<char>>,
    indent: int,
) -> Seq<char>
{
    generic_parameter_text_def(x, names, indent)
}

/// [`generic_parameter_text`] is what [`generic_parameter_text_def`] defines.
pub proof fn lemma_generic_parameter_text(
    x: GenericParameterModel,
    names: Seq<Seq<char>>,
    indent: int,
)
    ensures
        generic_parameter_text(x, names, indent) == generic_parameter_text_def(x, names, indent),
{
    reveal(generic_parameter_text);
}

/// The text of a where clause item at the indentation `indent`.
pub open spec fn where_clause_item_text_def(
    x: WhereClauseItemModel,
    names: Seq<Seq<char>>,
    indent: int,
) -> Seq<char>
{
    let deep = deeper(indent);
    match x {
        WhereClauseItemModel::Eq { left, right } => "WHERE_CLAUSE_ITEM_EQ"@
            + pair_text("LEFT"@, type_text(left, names, deep), deep)
            + pair_text("RIGHT"@, type_text(right, names, deep), deep),
        WhereClauseItemModel::Satisfies { ty, bounds } => "WHERE_CLAUSE_ITEM_SATISFIES"@
            + pair_text("TYPE"@, type_text(ty, names, deep), deep)
            + pair_text("BOUNDS"@, type_paths_text(bounds, names, deep), deep),
    }
}

/// What [`where_clause_item_text_def`] defines, kept folded until [`lemma_where_clause_item_text`]
/// unfolds it.
#[verifier::opaque]
pub open spec fn where_clause_item_text(
    x: WhereClauseItemModel,
    names: Seq<Seq<char>>,
    indent: int,
) -> Seq<char>
{
    where_clause_item_text_def(x, names, indent)
}

/// [`where_clause_item_text`] is what [`where_clause_item_text_def`] defines.
pub proof fn lemma_where_clause_item_text(
    x: WhereClauseItemModel,
    names: Seq<Seq<char>>,
    indent: int,
)
    ensures
        where_clause_item_text(x, names, indent) == where_clause_item_text_def(x, names, indent),
{
    reveal(where_clause_item_text);
}

/// The text of a struct field pattern at the indentation `indent`.
pub open spec fn struct_field_pattern_text_def(
    x: StructFieldPatternModel,
    names: Seq<Seq<char>>,
    indent: int,
) -> Seq<char>
    decreases x, 0int,
{
    let deep = deeper(indent);
    match x {
        StructFieldPatternModel::NotRest {
            span,
            field_name,
            value_pattern,
        } => node_text("STRUCT_FIELD_PATTERN"@, span)
            + pair_text("FIELD_NAME"@, identifier_text(field_name, names), deep)
            + optional_pair(
                match value_pattern {
                    Some(v) => Some(
                        pair_text("VALUE_PATTERN"@, pattern_text(v, names, deep), deep)
                    ),
                    None => None,
                },
            ),
        StructFieldPatternModel::Rest { span } => node_text("REST_STRUCT_FIELD_PATTERN"@, span),
    }
}

/// What [`struct_field_pattern_text_def`] defines, kept folded until
/// [`lemma_struct_field_pattern_text`] unfolds it.
#[verifier::opaque]
pub open spec fn struct_field_pattern_text(
    x: StructFieldPatternModel,
    names: Seq<Seq<char>>,
    indent: int,
) -> Seq<char>
    decreases x, 1int,
{
    struct_field_pattern_text_def(x, names, indent)
}

/// [`struct_field_pattern_text`] is what [`struct_field_pattern_text_def`] defines.
pub proof fn lemma_struct_field_pattern_text(
    x: StructFieldPatternModel,
    names: Seq<Seq<char>>,
    indent: int,
)
    ensures
        struct_field_pattern_text(
            x,
            names,
            indent,
        ) == struct_field_pattern_text_def(x, names, indent),
{
    reveal_with_fuel(struct_field_pattern_text, 1);
}

/// The text of a pattern at the indentation `indent`.
pub open spec fn pattern_text_def(x: PatternModel, names: Seq<Seq<char>>, indent: int) -> Seq<char>
    decreases x, 0int,
{
    let deep = deeper(indent);
    match x {
        PatternModel::Literal(a) => literal_text(a),
        PatternModel::Identifier {
            span,
            identifier,
            pattern,
        } => node_text("IDENTIFIER_PATTERN"@, span)
            + pair_text("IDENTIFIER"@, identifier_text(identifier, names), deep)
            + optional_pair(
                match pattern {
                    Some(v) => Some(pair_text("PATTERN"@, pattern_text(*v, names, deep), deep)),
                    None => None,
                },
            ),
        PatternModel::Struct { span, path, fields } => node_text("STRUCT_PATTERN"@, span)
            + pair_text("STRUCT_PATH"@, path_text(path, names, deep), deep)
            + pair_text("FIELDS"@, struct_field_patterns_text(fields, names, deep), deep),
        PatternModel::TupleLike { span, path, inner_patterns } => node_text("TUPLE_PATTERN"@, span)
            + pair_text("PATH"@, path_text(path, names, deep), deep)
            + pair_text("INNER_PATTERNS"@, patterns_text(inner_patterns, names, deep), deep),
        PatternModel::Tuple { span, elements } => node_text("TUPLE_PATTERN"@, span)
            + pair_text("ELEMENTS"@, patterns_text(elements, names, deep), deep),
        PatternModel::Path { span, path } => node_text("PATH_PATTERN"@, span)
            + pair_text("PATH"@, path_text(path, names, deep), deep),
        PatternModel::List { span, inner_patterns } => node_text("LIST_PATTERN"@, span)
            + pair_text("INNER_PATTERNS"@, patterns_text(inner_patterns, names, deep), deep),
        PatternModel::Grouped { span, inner } => node_text("GROUPED_PATTERN"@, span)
            + pair_text("INNER_PATTERN"@, pattern_text(*inner, names, deep), deep),
        PatternModel::Or { span, left, right } => node_text("OR_PATTERN"@, span)
            + pair_text("LEFT"@, pattern_text(*left, names, deep), deep)
            + pair_text("RIGHT"@, pattern_text(*right, names, deep), deep),
        PatternModel::Rest { span } => node_text("REST_PATTERN"@, span),
    }
}

/// What [`pattern_text_def`] defines, kept folded until [`lemma_pattern_text`] unfolds it.
#[verifier::opaque]
pub open spec fn pattern_text(x: PatternModel, names: Seq<Seq<char>>, indent: int) -> Seq<char>
    decreases x, 1int,
{
    pattern_text_def(x, names, indent)
}

/// [`pattern_text`] is what [`pattern_text_def`] defines.
pub proof fn lemma_pattern_text(x: PatternModel, names: Seq<Seq<char>>, indent: int)
    ensures
        pattern_text(x, names, indent) == pattern_text_def(x, names, indent),
{
    reveal_with_fuel(pattern_text, 1);
}

/// The text of an expression at the indentation `indent`.
pub open spec fn expression_text_def(
    x: ExpressionModel,
    names: Seq<Seq<char>>,
    indent: int,
) -> Seq<char>
    decreases x, 0int,
{
    let deep = deeper(indent);
    match x {
        ExpressionModel::List { span, elements } => node_text("LIST_EXPRESSION"@, span)
            + pair_text("ELEMENTS"@, expressions_text(elements, names, deep), deep),
        ExpressionModel::As { span, left, right } => node_text("CAST_EXPRESSION"@, span)
            + pair_text("LEFT"@, expression_text(*left, names, deep), deep)
            + pair_text("RIGHT"@, type_text(right, names, deep), deep),
        ExpressionModel::Binary {
            span,
            left,
            operator,
            right,
        } => node_text("BINARY_EXPRESSION"@, span)
            + pair_text("LEFT"@, expression_text(*left, names, deep), deep)
            + pair_text("OPERATOR"@, operator_text(operator.raw.punctuator(), operator.span), deep)
            + pair_text("RIGHT"@, expression_text(*right, names, deep), deep),
        ExpressionModel::StatementsBlock { span, block } => node_text("BLOCK_EXPRESSION"@, span)
            + pair_text("STATEMENTS_BLOCK"@, statements_text(block, names, deep), deep),
        ExpressionModel::Literal(a) => literal_text(a),
        ExpressionModel::Identifier(a) => identifier_text(a, names),
        ExpressionModel::Parenthesized { span, inner } => node_text(
            "PARENTHESIZED_EXPRESSION"@,
            span,
        )
            + pair_text("INNER"@, expression_text(*inner, names, deep), deep),
        ExpressionModel::If { span, if_blocks, otherwise } => node_text("IF_EXPRESSION"@, span)
            + pair_text("IF_BLOCKS"@, if_blocks_text(if_blocks, names, deep), deep)
            + optional_pair(
                match otherwise {
                    Some(v) => Some(
                        pair_text("ELSE_BLOCK"@, statements_text(v, names, deep), deep)
                    ),
                    None => None,
                },
            ),
        ExpressionModel::FieldAccess { span, left, right } => node_text(
            "FIELD_ACCESS_EXPRESSION"@,
            span,
        )
            + pair_text("LEFT"@, expression_text(*left, names, deep), deep)
            + pair_text("RIGHT"@, identifier_text(right, names), deep),
        ExpressionModel::Prefix { span, inner, operator } => node_text("PREFIX_EXPRESSION"@, span)
            + pair_text("OPERATOR"@, operator_text(operator.raw.punctuator(), operator.span), deep)
            + pair_text("INNER"@, expression_text(*inner, names, deep), deep),
        ExpressionModel::Postfix { span, inner, operator } => node_text("POSTFIX_EXPRESSION"@, span)
            + pair_text("LEFT"@, expression_text(*inner, names, deep), deep)
            + pair_text("OPERATOR"@, operator_text(operator.raw.punctuator(), operator.span), deep),
        ExpressionModel::While { span, condition, body } => node_text("WHILE_EXPRESSION"@, span)
            + pair_text("CONDITION"@, expression_text(*condition, names, deep), deep)
            + pair_text("BODY_STATEMENTS_BLOCK"@, statements_text(body, names, deep), deep),
        ExpressionModel::Call { span, left, arguments } => node_text("CALL_EXPRESSION"@, span)
            + pair_text("LEFT"@, expression_text(*left, names, deep), deep)
            + pair_text("ARGUMENTS"@, expressions_text(arguments, names, deep), deep),
        ExpressionModel::GenericArguments {
            span,
            left,
            generic_arguments,
        } => node_text("GENERIC_ARGUMENTS"@, span)
            + pair_text("LEFT"@, expression_text(*left, names, deep), deep)
            + pair_text(
                "GENERIC_ARGUMENTS"@,
                generic_arguments_text(generic_arguments, names, deep),
                deep,
            ),
        ExpressionModel::Tuple { span, elements } => node_text("TUPLE_EXPRESSION"@, span)
            + pair_text("ELEMENTS"@, expressions_text(elements, names, deep), deep),
        ExpressionModel::Struct { span, left, fields } => node_text("STRUCT_EXPRESSION"@, span)
            + pair_text("LEFT"@, expression_text(*left, names, deep), deep)
            + pair_text("FIELDS"@, struct_expression_items_text(fields, names, deep), deep),
        ExpressionModel::Match { span, expression, block } => node_text("MATCH_EXPRESSION"@, span)
            + pair_text("EXPRESSION"@, expression_text(*expression, names, deep), deep)
            + pair_text("BLOCK"@, match_expression_items_text(block, names, deep), deep),
        ExpressionModel::Lambda {
            span,
            parameters,
            return_type,
            block,
        } => node_text("FUNCTION_EXPRESSION"@, span)
            + pair_text(
                "PARAMETERS"@,
                lambda_function_parameters_text(parameters, names, deep),
                deep,
            )
            + optional_pair(
                match return_type {
                    Some(v) => Some(pair_text("RETURN_TYPE"@, type_text(v, names, deep), deep)),
                    None => None,
                },
            )
            + pair_text("STATEMENTS_BLOCK"@, statements_text(block, names, deep), deep),
    }
}

/// What [`expression_text_def`] defines, kept folded until [`lemma_expression_text`] unfolds it.
#[verifier::opaque]
pub open spec fn expression_text(
    x: ExpressionModel,
    names: Seq<Seq<char>>,
    indent: int,
) -> Seq<char>
    decreases x, 1int,
{
    expression_text_def(x, names, indent)
}

/// [`expression_text`] is what [`expression_text_def`] defines.
pub proof fn lemma_expression_text(x: ExpressionModel, names: Seq<Seq<char>>, indent: int)
    ensures
        expression_text(x, names, indent) == expression_text_def(x, names, indent),
{
    reveal_with_fuel(expression_text, 1);
}

/// The text of an if block at the indentation `indent`.
pub open spec fn if_block_text_def(
    x: (ExpressionModel, Seq<StatementModel>),
    names: Seq<Seq<char>>,
    indent: int,
) -> Seq<char>
    decreases x, 0int,
{
    let deep = deeper(indent);
    "ELSE_IF_NODE"@
            + pair_text("CONDITION"@, expression_text(x.0, names, deep), deep)
            + pair_text("STATEMENTS_BLOCK"@, statements_text(x.1, names, deep), deep)
}

/// What [`if_block_text_def`] defines, kept folded until [`lemma_if_block_text`] unfolds it.
#[verifier::opaque]
pub open spec fn if_block_text(
    x: (ExpressionModel, Seq<StatementModel>),
    names: Seq<Seq<char>>,
    indent: int,
) -> Seq<char>
    decreases x, 1int,
{
    if_block_text_def(x, names, indent)
}

/// [`if_block_text`] is what [`if_block_text_def`] defines.
pub proof fn lemma_if_block_text(
    x: (ExpressionModel, Seq<StatementModel>),
    names: Seq<Seq<char>>,
    indent: int,
)
    ensures
        if_block_text(x, names, indent) == if_block_text_def(x, names, indent),
{
    reveal_with_fuel(if_block_text, 1);
}

/// The text of a lambda function parameter at the indentation `indent`.
pub open spec fn lambda_function_parameter_text_def(
    x: LambdaFunctionParameterModel,
    names: Seq<Seq<char>>,
    indent: int,
) -> Seq<char>
{
    let deep = deeper(indent);
    "FUNCTION_PARAMETER"@
            + pair_text("NAME"@, identifier_text(x.name, names), deep)
            + optional_pair(
                match x.ty {
                    Some(v) => Some(pair_text("TYPE"@, type_text(v, names, deep), deep)),
                    None => None,
                },
            )
}

/// What [`lambda_function_parameter_text_def`] defines, kept folded until
/// [`lemma_lambda_function_parameter_text`] unfolds it.
#[verifier::opaque]
pub open spec fn lambda_function_parameter_text(
    x: LambdaFunctionParameterModel,
    names: Seq<Seq<char>>,
    indent: int,
) -> Seq<char>
{
    lambda_function_parameter_text_def(x, names, indent)
}

/// [`lambda_function_parameter_text`] is what [`lambda_function_parameter_text_def`] defines.
pub proof fn lemma_lambda_function_parameter_text(
    x: LambdaFunctionParameterModel,
    names: Seq<Seq<char>>,
    indent: int,
)
    ensures
        lambda_function_parameter_text(
            x,
            names,
            indent,
        ) == lambda_function_parameter_text_def(x, names, indent),
{
    reveal(lambda_function_parameter_text);
}

/// The text of a match expression item at the indentation `indent`.
pub open spec fn match_expression_item_text_def(
    x: MatchExpressionItemModel,
    names: Seq<Seq<char>>,
    indent: int,
) -> Seq<char>
    decreases x, 0int,
{
    let deep = deeper(indent);
    "MATCH_EXPRESSION_ITEM"@
            + pair_text("PATTERN"@, pattern_text(x.left, names, deep), deep)
            + pair_text("EXPRESSION"@, expression_text(x.right, names, deep), deep)
}

/// What [`match_expression_item_text_def`] defines, kept folded until
/// [`lemma_match_expression_item_text`] unfolds it.
#[verifier::opaque]
pub open spec fn match_expression_item_text(
    x: MatchExpressionItemModel,
    names: Seq<Seq<char>>,
    indent: int,
) -> Seq<char>
    decreases x, 1int,
{
    match_expression_item_text_def(x, names, indent)
}

/// [`match_expression_item_text`] is what [`match_expression_item_text_def`] defines.
pub proof fn lemma_match_expression_item_text(
    x: MatchExpressionItemModel,
    names: Seq<Seq<char>>,
    indent: int,
)
    ensures
        match_expression_item_text(
            x,
            names,
            indent,
        ) == match_expression_item_text_def(x, names, indent),
{
    reveal_with_fuel(match_expression_item_text, 1);
}

/// The text of a struct expression item at the indentation `indent`.
pub open spec fn struct_expression_item_text_def(
    x: StructExpressionItemModel,
    names: Seq<Seq<char>>,
    indent: int,
) -> Seq<char>
    decreases x, 0int,
{
    let deep = deeper(indent);
    "STRUCT_EXPRESSION_ITEM"@
            + pair_text("FIELD_NAME"@, identifier_text(x.name, names), deep)
            + optional_pair(
                match x.value {
                    Some(v) => Some(pair_text("VALUE"@, expression_text(v, names, deep), deep)),
                    None => None,
                },
            )
}

/// What [`struct_expression_item_text_def`] defines, kept folded until
/// [`lemma_struct_expression_item_text`] unfolds it.
#[verifier::opaque]
pub open spec fn struct_expression_item_text(
    x: StructExpressionItemModel,
    names: Seq<Seq<char>>,
    indent: int,
) -> Seq<char>
    decreases x, 1int,
{
    struct_expression_item_text_def(x, names, indent)
}

/// [`struct_expression_item_text`] is what [`struct_expression_item_text_def`] defines.
pub proof fn lemma_struct_expression_item_text(
    x: StructExpressionItemModel,
    names: Seq<Seq<char>>,
    indent: int,
)
    ensures
        struct_expression_item_text(
            x,
            names,
            indent,
        ) == struct_expression_item_text_def(x, names, indent),
{
    reveal_with_fuel(struct_expression_item_text, 1);
}

/// The text of a statement at the indentation `indent`.
pub open spec fn statement_text_def(
    x: StatementModel,
    names: Seq<Seq<char>>,
    indent: int,
) -> Seq<char>
    decreases x, 0int,
{
    let deep = deeper(indent);
    match x {
        StatementModel::Defer { call } => "DEFER_STATEMENT"@
            + pair_text("CALL"@, expression_text(call, names, deep), deep),
        StatementModel::Expression { expression, has_semicolon } => "EXPRESSION_STATEMENT"@
            + pair_text("EXPRESSION"@, expression_text(expression, names, deep), deep)
            + pair_text("HAS_SEMICOLON"@, bool_text(has_semicolon), deep),
        StatementModel::Break { span } => node_text("BREAK_STATEMENT"@, span),
        StatementModel::Continue { span } => node_text("CONTINUE_STATEMENT"@, span),
        StatementModel::Return { expression } => "RETURN_STATEMENT"@
            + pair_text("EXPRESSION"@, expression_text(expression, names, deep), deep),
        StatementModel::Let { pattern, value, ty } => "LET_STATEMENT"@
            + pair_text("PATTERN"@, pattern_text(pattern, names, deep), deep)
            + pair_text("VALUE"@, expression_text(value, names, deep), deep)
            + optional_pair(
                match ty {
                    Some(v) => Some(pair_text("TYPE"@, type_text(v, names, deep), deep)),
                    None => None,
                },
            ),
    }
}

/// What [`statement_text_def`] defines, kept folded until [`lemma_statement_text`] unfolds it.
#[verifier::opaque]
pub open spec fn statement_text(x: StatementModel, names: Seq<Seq<char>>, indent: int) -> Seq<char>
    decreases x, 1int,
{
    statement_text_def(x, names, indent)
}

/// [`statement_text`] is what [`statement_text_def`] defines.
pub proof fn lemma_statement_text(x: StatementModel, names: Seq<Seq<char>>, indent: int)
    ensures
        statement_text(x, names, indent) == statement_text_def(x, names, indent),
{
    reveal_with_fuel(statement_text, 1);
}

/// The text of a tuple field at the indentation `indent`.
pub open spec fn tuple_field_text_def(
    x: TupleFieldModel,
    names: Seq<Seq<char>>,
    indent: int,
) -> Seq<char>
{
    let deep = deeper(indent);
    "TUPLE_FIELD"@
            + pair_text("VISIBILITY"@, visibility_text(x.visibility), deep)
            + pair_text("TYPE"@, type_text(x.ty, names, deep), deep)
}

/// What [`tuple_field_text_def`] defines, kept folded until [`lemma_tuple_field_text`] unfolds it.
#[verifier::opaque]
pub open spec fn tuple_field_text(
    x: TupleFieldModel,
    names: Seq<Seq<char>>,
    indent: int,
) -> Seq<char>
{
    tuple_field_text_def(x, names, indent)
}

/// [`tuple_field_text`] is what [`tuple_field_text_def`] defines.
pub proof fn lemma_tuple_field_text(x: TupleFieldModel, names: Seq<Seq<char>>, indent: int)
    ensures
        tuple_field_text(x, names, indent) == tuple_field_text_def(x, names, indent),
{
    reveal(tuple_field_text);
}

/// The text of a struct field at the indentation `indent`.
pub open spec fn struct_field_text_def(
    x: StructFieldModel,
    names: Seq<Seq<char>>,
    indent: int,
) -> Seq<char>
{
    let deep = deeper(indent);
    "STRUCT_FIELD"@
            + pair_text("VISIBILITY"@, visibility_text(x.visibility), deep)
            + pair_text("NAME"@, identifier_text(x.name, names), deep)
            + pair_text("TYPE"@, type_text(x.ty, names, deep), deep)
}

/// What [`struct_field_text_def`] defines, kept folded until [`lemma_struct_field_text`] unfolds
/// it.
#[verifier::opaque]
pub open spec fn struct_field_text(
    x: StructFieldModel,
    names: Seq<Seq<char>>,
    indent: int,
) -> Seq<char>
{
    struct_field_text_def(x, names, indent)
}

/// [`struct_field_text`] is what [`struct_field_text_def`] defines.
pub proof fn lemma_struct_field_text(x: StructFieldModel, names: Seq<Seq<char>>, indent: int)
    ensures
        struct_field_text(x, names, indent) == struct_field_text_def(x, names, indent),
{
    reveal(struct_field_text);
}

/// The text of an enum item at the indentation `indent`.
pub open spec fn enum_item_text_def(
    x: EnumItemModel,
    names: Seq<Seq<char>>,
    indent: int,
) -> Seq<char>
{
    let deep = deeper(indent);
    match x {
        EnumItemModel::Just { name, docstring } => "EMPTY_ENUM_ITEM"@
            + pair_text("ITEM_NAME"@, identifier_text(name, names), deep),
        EnumItemModel::Tuple { name, fields, docstring } => "TUPLE_ENUM_ITEM"@
            + pair_text("NAME"@, identifier_text(name, names), deep)
            + pair_text("FIELDS"@, tuple_fields_text(fields, names, deep), deep),
        EnumItemModel::Struct { name, fields, docstring } => "STRUCT_ENUM_ITEM"@
            + pair_text("NAME"@, identifier_text(name, names), deep)
            + pair_text("FIELDS"@, struct_fields_text(fields, names, deep), deep),
    }
}

/// What [`enum_item_text_def`] defines, kept folded until [`lemma_enum_item_text`] unfolds it.
#[verifier::opaque]
pub open spec fn enum_item_text(x: EnumItemModel, names: Seq<Seq<char>>, indent: int) -> Seq<char>
{
    enum_item_text_def(x, names, indent)
}

/// [`enum_item_text`] is what [`enum_item_text_def`] defines.
pub proof fn lemma_enum_item_text(x: EnumItemModel, names: Seq<Seq<char>>, indent: int)
    ensures
        enum_item_text(x, names, indent) == enum_item_text_def(x, names, indent),
{
    reveal(enum_item_text);
}

/// The text of a self parameter at the indentation `indent`.
pub open spec fn self_parameter_text_def(
    x: SelfParameterModel,
    names: Seq<Seq<char>>,
    indent: int,
) -> Seq<char>
{
    let deep = deeper(indent);
    "SELF_PARAMETER"@
            + pair_text("SELF_SPAN"@, span_text(x.self_span), deep)
            + optional_pair(
                match x.ty {
                    Some(v) => Some(pair_text("TYPE"@, type_text(v, names, deep), deep)),
                    None => None,
                },
            )
}

/// What [`self_parameter_text_def`] defines, kept folded until [`lemma_self_parameter_text`]
/// unfolds it.
#[verifier::opaque]
pub open spec fn self_parameter_text(
    x: SelfParameterModel,
    names: Seq<Seq<char>>,
    indent: int,
) -> Seq<char>
{
    self_parameter_text_def(x, names, indent)
}

/// [`self_parameter_text`] is what [`self_parameter_text_def`] defines.
pub proof fn lemma_self_parameter_text(x: SelfParameterModel, names: Seq<Seq<char>>, indent: int)
    ensures
        self_parameter_text(x, names, indent) == self_parameter_text_def(x, names, indent),
{
    reveal(self_parameter_text);
}

/// The text of a just function parameter at the indentation `indent`.
pub open spec fn just_function_parameter_text_def(
    x: JustFunctionParameterModel,
    names: Seq<Seq<char>>,
    indent: int,
) -> Seq<char>
{
    let deep = deeper(indent);
    "FUNCTION_PARAMETER"@
            + pair_text("NAME"@, identifier_text(x.name, names), deep)
            + pair_text("TYPE"@, type_text(x.ty, names, deep), deep)
}

/// What [`just_function_parameter_text_def`] defines, kept folded until
/// [`lemma_just_function_parameter_text`] unfolds it.
#[verifier::opaque]
pub open spec fn just_function_parameter_text(
    x: JustFunctionParameterModel,
    names: Seq<Seq<char>>,
    indent: int,
) -> Seq<char>
{
    just_function_parameter_text_def(x, names, indent)
}

/// [`just_function_parameter_text`] is what [`just_function_parameter_text_def`] defines.
pub proof fn lemma_just_function_parameter_text(
    x: JustFunctionParameterModel,
    names: Seq<Seq<char>>,
    indent: int,
)
    ensures
        just_function_parameter_text(
            x,
            names,
            indent,
        ) == just_function_parameter_text_def(x, names, indent),
{
    reveal(just_function_parameter_text);
}

/// The text of a function parameter at the indentation `indent`.
pub open spec fn function_parameter_text_def(
    x: FunctionParameterModel,
    names: Seq<Seq<char>>,
    indent: int,
) -> Seq<char>
{
    let deep = deeper(indent);
    match x {
        FunctionParameterModel::Just(a) => just_function_parameter_text(a, names, indent),
        FunctionParameterModel::Self_(a) => self_parameter_text(a, names, indent),
    }
}

/// What [`function_parameter_text_def`] defines, kept folded until
/// [`lemma_function_parameter_text`] unfolds it.
#[verifier::opaque]
pub open spec fn function_parameter_text(
    x: FunctionParameterModel,
    names: Seq<Seq<char>>,
    indent: int,
) -> Seq<char>
{
    function_parameter_text_def(x, names, indent)
}

/// [`function_parameter_text`] is what [`function_parameter_text_def`] defines.
pub proof fn lemma_function_parameter_text(
    x: FunctionParameterModel,
    names: Seq<Seq<char>>,
    indent: int,
)
    ensures
        function_parameter_text(x, names, indent) == function_parameter_text_def(x, names, indent),
{
    reveal(function_parameter_text);
}

/// The text of a function at the indentation `indent`.
pub open spec fn function_text_def(
    x: FunctionModel,
    names: Seq<Seq<char>>,
    indent: int,
) -> Seq<char>
{
    let deep = deeper(indent);
    "FUNCTION"@
            + pair_text("VISIBILITY"@, visibility_text(x.visibility), deep)
            + pair_text("NAME"@, identifier_text(x.name, names), deep)
            + optional_pair(
                match x.generic_parameters {
                    Some(v) => Some(
                        pair_text(
                            "GENERIC_PARAMETERS"@,
                            generic_parameters_text(v, names, deep),
                            deep,
                        )
                    ),
                    None => None,
                },
            )
            + pair_text("PARAMETERS"@, function_parameters_text(x.parameters, names, deep), deep)
            + optional_pair(
                match x.return_type {
                    Some(v) => Some(pair_text("RETURN_TYPE"@, type_text(v, names, deep), deep)),
                    None => None,
                },
            )
            + optional_pair(
                match x.where_clause {
                    Some(v) => Some(
                        pair_text("WHERE_CLAUSE"@, where_clause_items_text(v, names, deep), deep)
                    ),
                    None => None,
                },
            )
            + optional_pair(
                match x.body {
                    Some(v) => Some(pair_text("BODY"@, statements_text(v, names, deep), deep)),
                    None => None,
                },
            )
}

/// What [`function_text_def`] defines, kept folded until [`lemma_function_text`] unfolds it.
#[verifier::opaque]
pub open spec fn function_text(x: FunctionModel, names: Seq<Seq<char>>, indent: int) -> Seq<char>
{
    function_text_def(x, names, indent)
}

/// [`function_text`] is what [`function_text_def`] defines.
pub proof fn lemma_function_text(x: FunctionModel, names: Seq<Seq<char>>, indent: int)
    ensures
        function_text(x, names, indent) == function_text_def(x, names, indent),
{
    reveal(function_text);
}

/// The text of a type alias at the indentation `indent`.
pub open spec fn type_alias_text_def(
    x: TypeAliasModel,
    names: Seq<Seq<char>>,
    indent: int,
) -> Seq<char>
{
    let deep = deeper(indent);
    "TYPE_ALIAS"@
            + pair_text("NAME"@, identifier_text(x.name, names), deep)
            + optional_pair(
                match x.generic_parameters {
                    Some(v) => Some(
                        pair_text(
                            "GENERIC_PARAMETERS"@,
                            generic_parameters_text(v, names, deep),
                            deep,
                        )
                    ),
                    None => None,
                },
            )
            + optional_pair(
                match x.bounds {
                    Some(v) => Some(pair_text("BOUNDS"@, type_paths_text(v, names, deep), deep)),
                    None => None,
                },
            )
            + optional_pair(
                match x.value {
                    Some(v) => Some(pair_text("VALUE"@, type_text(v, names, deep), deep)),
                    None => None,
                },
            )
}

/// What [`type_alias_text_def`] defines, kept folded until [`lemma_type_alias_text`] unfolds it.
#[verifier::opaque]
pub open spec fn type_alias_text(x: TypeAliasModel, names: Seq<Seq<char>>, indent: int) -> Seq<char>
{
    type_alias_text_def(x, names, indent)
}

/// [`type_alias_text`] is what [`type_alias_text_def`] defines.
pub proof fn lemma_type_alias_text(x: TypeAliasModel, names: Seq<Seq<char>>, indent: int)
    ensures
        type_alias_text(x, names, indent) == type_alias_text_def(x, names, indent),
{
    reveal(type_alias_text);
}

/// The text of a trait item at the indentation `indent`.
pub open spec fn trait_item_text_def(
    x: TraitItemModel,
    names: Seq<Seq<char>>,
    indent: int,
) -> Seq<char>
{
    let deep = deeper(indent);
    match x {
        TraitItemModel::TypeAlias(a) => type_alias_text(a, names, indent),
        TraitItemModel::AssociatedFunction(a) => function_text(a, names, indent),
    }
}

/// What [`trait_item_text_def`] defines, kept folded until [`lemma_trait_item_text`] unfolds it.
#[verifier::opaque]
pub open spec fn trait_item_text(x: TraitItemModel, names: Seq<Seq<char>>, indent: int) -> Seq<char>
{
    trait_item_text_def(x, names, indent)
}

/// [`trait_item_text`] is what [`trait_item_text_def`] defines.
pub proof fn lemma_trait_item_text(x: TraitItemModel, names: Seq<Seq<char>>, indent: int)
    ensures
        trait_item_text(x, names, indent) == trait_item_text_def(x, names, indent),
{
    reveal(trait_item_text);
}

/// The text of an import path at the indentation `indent`.
pub open spec fn import_path_text_def(
    x: ImportPathModel,
    names: Seq<Seq<char>>,
    indent: int,
) -> Seq<char>
{
    let deep = deeper(indent);
    "IMPORT_PATH"@
            + pair_text("PATH"@, path_text(x.left, names, deep), deep)
            + optional_pair(
                match x.alias {
                    Some(v) => Some(pair_text("AS"@, identifier_text(v, names), deep)),
                    None => None,
                },
            )
}

/// What [`import_path_text_def`] defines, kept folded until [`lemma_import_path_text`] unfolds it.
#[verifier::opaque]
pub open spec fn import_path_text(
    x: ImportPathModel,
    names: Seq<Seq<char>>,
    indent: int,
) -> Seq<char>
{
    import_path_text_def(x, names, indent)
}

/// [`import_path_text`] is what [`import_path_text_def`] defines.
pub proof fn lemma_import_path_text(x: ImportPathModel, names: Seq<Seq<char>>, indent: int)
    ensures
        import_path_text(x, names, indent) == import_path_text_def(x, names, indent),
{
    reveal(import_path_text);
}

/// The text of an implementation at the indentation `indent`.
pub open spec fn implementation_text_def(
    x: ImplModel,
    names: Seq<Seq<char>>,
    indent: int,
) -> Seq<char>
{
    let deep = deeper(indent);
    "IMPL"@
            + optional_pair(
                match x.generic_parameters {
                    Some(v) => Some(
                        pair_text(
                            "GENERIC_PARAMETERS"@,
                            generic_parameters_text(v, names, deep),
                            deep,
                        )
                    ),
                    None => None,
                },
            )
            + pair_text("TYPE"@, type_text(x.ty, names, deep), deep)
            + optional_pair(
                match x.implemented_trait {
                    Some(v) => Some(pair_text("TRAIT"@, type_text(v, names, deep), deep)),
                    None => None,
                },
            )
            + optional_pair(
                match x.where_clause {
                    Some(v) => Some(
                        pair_text("WHERE_CLAUSE"@, where_clause_items_text(v, names, deep), deep)
                    ),
                    None => None,
                },
            )
            + pair_text("ITEMS"@, trait_items_text(x.items, names, deep), deep)
}

/// What [`implementation_text_def`] defines, kept folded until [`lemma_implementation_text`]
/// unfolds it.
#[verifier::opaque]
pub open spec fn implementation_text(x: ImplModel, names: Seq<Seq<char>>, indent: int) -> Seq<char>
{
    implementation_text_def(x, names, indent)
}

/// [`implementation_text`] is what [`implementation_text_def`] defines.
pub proof fn lemma_implementation_text(x: ImplModel, names: Seq<Seq<char>>, indent: int)
    ensures
        implementation_text(x, names, indent) == implementation_text_def(x, names, indent),
{
    reveal(implementation_text);
}

/// The text of an item at the indentation `indent`.
pub open spec fn item_text_def(x: ItemModel, names: Seq<Seq<char>>, indent: int) -> Seq<char>
{
    let deep = deeper(indent);
    match x {
        ItemModel::Enum {
            visibility,
            name,
            generic_parameters,
            where_clause,
            items,
            docstring,
        } => "ENUM"@
            + pair_text("VISIBILITY"@, visibility_text(visibility), deep)
            + pair_text("NAME"@, identifier_text(name, names), deep)
            + optional_pair(
                match generic_parameters {
                    Some(v) => Some(
                        pair_text(
                            "GENERIC_PARAMETERS"@,
                            generic_parameters_text(v, names, deep),
                            deep,
                        )
                    ),
                    None => None,
                },
            )
            + optional_pair(
                match where_clause {
                    Some(v) => Some(
                        pair_text("WHERE_CLAUSE"@, where_clause_items_text(v, names, deep), deep)
                    ),
                    None => None,
                },
            )
            + pair_text("ITEMS"@, enum_items_text(items, names, deep), deep),
        ItemModel::Function(a) => function_text(a, names, indent),
        ItemModel::Import { visibility, path } => "USE"@
            + pair_text("VISIBILITY"@, visibility_text(visibility), deep)
            + pair_text("IMPORT_PATH"@, import_path_text(path, names, deep), deep),
        ItemModel::Trait {
            visibility,
            name,
            generic_parameters,
            where_clause,
            items,
            docstring,
        } => "TRAIT"@
            + pair_text("VISIBILITY"@, visibility_text(visibility), deep)
            + pair_text("NAME"@, identifier_text(name, names), deep)
            + optional_pair(
                match generic_parameters {
                    Some(v) => Some(
                        pair_text(
                            "GENERIC_PARAMETERS"@,
                            generic_parameters_text(v, names, deep),
                            deep,
                        )
                    ),
                    None => None,
                },
            )
            + optional_pair(
                match where_clause {
                    Some(v) => Some(
                        pair_text("WHERE_CLAUSE"@, where_clause_items_text(v, names, deep), deep)
                    ),
                    None => None,
                },
            )
            + pair_text("ITEMS"@, trait_items_text(items, names, deep), deep),
        ItemModel::Impl(a) => implementation_text(a, names, indent),
        ItemModel::Struct {
            visibility,
            name,
            generic_parameters,
            where_clause,
            fields,
            docstring,
        } => "STRUCT"@
            + pair_text("VISIBILITY"@, visibility_text(visibility), deep)
            + pair_text("NAME"@, identifier_text(name, names), deep)
            + optional_pair(
                match generic_parameters {
                    Some(v) => Some(
                        pair_text(
                            "GENERIC_PARAMETERS"@,
                            generic_parameters_text(v, names, deep),
                            deep,
                        )
                    ),
                    None => None,
                },
            )
            + optional_pair(
                match where_clause {
                    Some(v) => Some(
                        pair_text("WHERE_CLAUSE"@, where_clause_items_text(v, names, deep), deep)
                    ),
                    None => None,
                },
            )
            + pair_text("FIELDS"@, struct_fields_text(fields, names, deep), deep),
        ItemModel::TupleLikeStruct {
            visibility,
            name,
            generic_parameters,
            where_clause,
            fields,
            docstring,
        } => "TUPLE_LIKE_STRUCT"@
            + pair_text("VISIBILITY"@, visibility_text(visibility), deep)
            + pair_text("NAME"@, identifier_text(name, names), deep)
            + optional_pair(
                match generic_parameters {
                    Some(v) => Some(
                        pair_text(
                            "GENERIC_PARAMETERS"@,
                            generic_parameters_text(v, names, deep),
                            deep,
                        )
                    ),
                    None => None,
                },
            )
            + optional_pair(
                match where_clause {
                    Some(v) => Some(
                        pair_text("WHERE_CLAUSE"@, where_clause_items_text(v, names, deep), deep)
                    ),
                    None => None,
                },
            )
            + pair_text("FIELDS"@, tuple_fields_text(fields, names, deep), deep),
        ItemModel::TypeAlias(a) => type_alias_text(a, names, indent),
    }
}

/// What [`item_text_def`] defines, kept folded until [`lemma_item_text`] unfolds it.
#[verifier::opaque]
pub open spec fn item_text(x: ItemModel, names: Seq<Seq<char>>, indent: int) -> Seq<char>
{
    item_text_def(x, names, indent)
}

/// [`item_text`] is what [`item_text_def`] defines.
pub proof fn lemma_item_text(x: ItemModel, names: Seq<Seq<char>>, indent: int)
    ensures
        item_text(x, names, indent) == item_text_def(x, names, indent),
{
    reveal(item_text);
}

/// The text of a module at the indentation `indent`.
pub open spec fn module_text_def(x: ModuleModel, names: Seq<Seq<char>>, indent: int) -> Seq<char>
{
    let deep = deeper(indent);
    "MODULE"@
            + pair_text("ITEMS"@, items_text(x.items, names, deep), deep)
}

/// What [`module_text_def`] defines, kept folded until [`lemma_module_text`] unfolds it.
#[verifier::opaque]
pub open spec fn module_text(x: ModuleModel, names: Seq<Seq<char>>, indent: int) -> Seq<char>
{
    module_text_def(x, names, indent)
}

/// [`module_text`] is what [`module_text_def`] defines.
pub proof fn lemma_module_text(x: ModuleModel, names: Seq<Seq<char>>, indent: int)
    ensures
        module_text(x, names, indent) == module_text_def(x, names, indent),
{
    reveal(module_text);
}

/// The lines of the entries of `s` from index `from` on, after the text
/// `before`: each entry stands on a line of its own at the indentation
/// `indent`.
pub open spec fn enum_items_lines_def(
    s: Seq<EnumItemModel>,
    names: Seq<Seq<char>>,
    indent: int,
    from: int,
    before: Seq<char>,
) -> Seq<char>
    decreases s.len() - from, 0int,
{
    if 0 <= from < s.len() {
        enum_items_lines(
            s,
            names,
            indent,
            from + 1,
            before + line_text(enum_item_text(s[from], names, indent), indent),
        )
    } else {
        before
    }
}

/// What [`enum_items_lines_def`] defines, kept folded until [`lemma_enum_items_lines`] unfolds it.
#[verifier::opaque]
pub open spec fn enum_items_lines(
    s: Seq<EnumItemModel>,
    names: Seq<Seq<char>>,
    indent: int,
    from: int,
    before: Seq<char>,
) -> Seq<char>
    decreases s.len() - from, 1int,
{
    enum_items_lines_def(s, names, indent, from, before)
}

/// [`enum_items_lines`] is what [`enum_items_lines_def`] defines.
pub proof fn lemma_enum_items_lines(
    s: Seq<EnumItemModel>,
    names: Seq<Seq<char>>,
    indent: int,
    from: int,
    before: Seq<char>,
)
    ensures
        enum_items_lines(
            s,
            names,
            indent,
            from,
            before,
        ) == enum_items_lines_def(s, names, indent, from, before),
{
    reveal_with_fuel(enum_items_lines, 1);
}

/// The text of a list: `EMPTY` where it holds nothing, else its entries,
/// each on a line of its own, one level deeper than `indent`.
pub open spec fn enum_items_text_def(
    s: Seq<EnumItemModel>,
    names: Seq<Seq<char>>,
    indent: int,
) -> Seq<char>
{
    if s.len() == 0 {
        "EMPTY"@
    } else {
        enum_items_lines(s, names, deeper(indent), 0, Seq::empty())
    }
}

/// What [`enum_items_text_def`] defines, kept folded until [`lemma_enum_items_text`] unfolds it.
#[verifier::opaque]
pub open spec fn enum_items_text(
    s: Seq<EnumItemModel>,
    names: Seq<Seq<char>>,
    indent: int,
) -> Seq<char>
{
    enum_items_text_def(s, names, indent)
}

/// [`enum_items_text`] is what [`enum_items_text_def`] defines.
pub proof fn lemma_enum_items_text(s: Seq<EnumItemModel>, names: Seq<Seq<char>>, indent: int)
    ensures
        enum_items_text(s, names, indent) == enum_items_text_def(s, names, indent),
{
    reveal(enum_items_text);
}

/// The lines of the entries of `s` from index `from` on, after the text
/// `before`: each entry stands on a line of its own at the indentation
/// `indent`.
pub open spec fn expressions_lines_def(
    s: Seq<ExpressionModel>,
    names: Seq<Seq<char>>,
    indent: int,
    from: int,
    before: Seq<char>,
) -> Seq<char>
    decreases s, s.len() - from, 0int,
{
    if 0 <= from < s.len() {
        expressions_lines(
            s,
            names,
            indent,
            from + 1,
            before + line_text(expression_text(s[from], names, indent), indent),
        )
    } else {
        before
    }
}

/// What [`expressions_lines_def`] defines, kept folded until [`lemma_expressions_lines`] unfolds
/// it.
#[verifier::opaque]
pub open spec fn expressions_lines(
    s: Seq<ExpressionModel>,
    names: Seq<Seq<char>>,
    indent: int,
    from: int,
    before: Seq<char>,
) -> Seq<char>
    decreases s, s.len() - from, 1int,
{
    expressions_lines_def(s, names, indent, from, before)
}

/// [`expressions_lines`] is what [`expressions_lines_def`] defines.
pub proof fn lemma_expressions_lines(
    s: Seq<ExpressionModel>,
    names: Seq<Seq<char>>,
    indent: int,
    from: int,
    before: Seq<char>,
)
    ensures
        expressions_lines(
            s,
            names,
            indent,
            from,
            before,
        ) == expressions_lines_def(s, names, indent, from, before),
{
    reveal_with_fuel(expressions_lines, 1);
}

/// The text of a list: `EMPTY` where it holds nothing, else its entries,
/// each on a line of its own, one level deeper than `indent`.
pub open spec fn expressions_text_def(
    s: Seq<ExpressionModel>,
    names: Seq<Seq<char>>,
    indent: int,
) -> Seq<char>
    decreases s, s.len() + 1, 0int,
{
    if s.len() == 0 {
        "EMPTY"@
    } else {
        expressions_lines(s, names, deeper(indent), 0, Seq::empty())
    }
}

/// What [`expressions_text_def`] defines, kept folded until [`lemma_expressions_text`] unfolds it.
#[verifier::opaque]
pub open spec fn expressions_text(
    s: Seq<ExpressionModel>,
    names: Seq<Seq<char>>,
    indent: int,
) -> Seq<char>
    decreases s, s.len() + 1, 1int,
{
    expressions_text_def(s, names, indent)
}

/// [`expressions_text`] is what [`expressions_text_def`] defines.
pub proof fn lemma_expressions_text(s: Seq<ExpressionModel>, names: Seq<Seq<char>>, indent: int)
    ensures
        expressions_text(s, names, indent) == expressions_text_def(s, names, indent),
{
    reveal_with_fuel(expressions_text, 1);
}

/// The lines of the entries of `s` from index `from` on, after the text
/// `before`: each entry stands on a line of its own at the indentation
/// `indent`.
pub open spec fn function_parameters_lines_def(
    s: Seq<FunctionParameterModel>,
    names: Seq<Seq<char>>,
    indent: int,
    from: int,
    before: Seq<char>,
) -> Seq<char>
    decreases s.len() - from, 0int,
{
    if 0 <= from < s.len() {
        function_parameters_lines(
            s,
            names,
            indent,
            from + 1,
            before + line_text(function_parameter_text(s[from], names, indent), indent),
        )
    } else {
        before
    }
}

/// What [`function_parameters_lines_def`] defines, kept folded until
/// [`lemma_function_parameters_lines`] unfolds it.
#[verifier::opaque]
pub open spec fn function_parameters_lines(
    s: Seq<FunctionParameterModel>,
    names: Seq<Seq<char>>,
    indent: int,
    from: int,
    before: Seq<char>,
) -> Seq<char>
    decreases s.len() - from, 1int,
{
    function_parameters_lines_def(s, names, indent, from, before)
}

/// [`function_parameters_lines`] is what [`function_parameters_lines_def`] defines.
pub proof fn lemma_function_parameters_lines(
    s: Seq<FunctionParameterModel>,
    names: Seq<Seq<char>>,
    indent: int,
    from: int,
    before: Seq<char>,
)
    ensures
        function_parameters_lines(
            s,
            names,
            indent,
            from,
            before,
        ) == function_parameters_lines_def(s, names, indent, from, before),
{
    reveal_with_fuel(function_parameters_lines, 1);
}

/// The text of a list: `EMPTY` where it holds nothing, else its entries,
/// each on a line of its own, one level deeper than `indent`.
pub open spec fn function_parameters_text_def(
    s: Seq<FunctionParameterModel>,
    names: Seq<Seq<char>>,
    indent: int,
) -> Seq<char>
{
    if s.len() == 0 {
        "EMPTY"@
    } else {
        function_parameters_lines(s, names, deeper(indent), 0, Seq::empty())
    }
}

/// What [`function_parameters_text_def`] defines, kept folded until
/// [`lemma_function_parameters_text`] unfolds it.
#[verifier::opaque]
pub open spec fn function_parameters_text(
    s: Seq<FunctionParameterModel>,
    names: Seq<Seq<char>>,
    indent: int,
) -> Seq<char>
{
    function_parameters_text_def(s, names, indent)
}

/// [`function_parameters_text`] is what [`function_parameters_text_def`] defines.
pub proof fn lemma_function_parameters_text(
    s: Seq<FunctionParameterModel>,
    names: Seq<Seq<char>>,
    indent: int,
)
    ensures
        function_parameters_text(
            s,
            names,
            indent,
        ) == function_parameters_text_def(s, names, indent),
{
    reveal(function_parameters_text);
}

/// The lines of the entries of `s` from index `from` on, after the text
/// `before`: each entry stands on a line of its own at the indentation
/// `indent`.
pub open spec fn generic_arguments_lines_def(
    s: Seq<GenericArgumentModel>,
    names: Seq<Seq<char>>,
    indent: int,
    from: int,
    before: Seq<char>,
) -> Seq<char>
    decreases s, s.len() - from, 0int,
{
    if 0 <= from < s.len() {
        generic_arguments_lines(
            s,
            names,
            indent,
            from + 1,
            before + line_text(generic_argument_text(s[from], names, indent), indent),
        )
    } else {
        before
    }
}

/// What [`generic_arguments_lines_def`] defines, kept folded until
/// [`lemma_generic_arguments_lines`] unfolds it.
#[verifier::opaque]
pub open spec fn generic_arguments_lines(
    s: Seq<GenericArgumentModel>,
    names: Seq<Seq<char>>,
    indent: int,
    from: int,
    before: Seq<char>,
) -> Seq<char>
    decreases s, s.len() - from, 1int,
{
    generic_arguments_lines_def(s, names, indent, from, before)
}

/// [`generic_arguments_lines`] is what [`generic_arguments_lines_def`] defines.
pub proof fn lemma_generic_arguments_lines(
    s: Seq<GenericArgumentModel>,
    names: Seq<Seq<char>>,
    indent: int,
    from: int,
    before: Seq<char>,
)
    ensures
        generic_arguments_lines(
            s,
            names,
            indent,
            from,
            before,
        ) == generic_arguments_lines_def(s, names, indent, from, before),
{
    reveal_with_fuel(generic_arguments_lines, 1);
}

/// The text of a list: `EMPTY` where it holds nothing, else its entries,
/// each on a line of its own, one level deeper than `indent`.
pub open spec fn generic_arguments_text_def(
    s: Seq<GenericArgumentModel>,
    names: Seq<Seq<char>>,
    indent: int,
) -> Seq<char>
    decreases s, s.len() + 1, 0int,
{
    if s.len() == 0 {
        "EMPTY"@
    } else {
        generic_arguments_lines(s, names, deeper(indent), 0, Seq::empty())
    }
}

/// What [`generic_arguments_text_def`] defines, kept folded until [`lemma_generic_arguments_text`]
/// unfolds it.
#[verifier::opaque]
pub open spec fn generic_arguments_text(
    s: Seq<GenericArgumentModel>,
    names: Seq<Seq<char>>,
    indent: int,
) -> Seq<char>
    decreases s, s.len() + 1, 1int,
{
    generic_arguments_text_def(s, names, indent)
}

/// [`generic_arguments_text`] is what [`generic_arguments_text_def`] defines.
pub proof fn lemma_generic_arguments_text(
    s: Seq<GenericArgumentModel>,
    names: Seq<Seq<char>>,
    indent: int,
)
    ensures
        generic_arguments_text(s, names, indent) == generic_arguments_text_def(s, names, indent),
{
    reveal_with_fuel(generic_arguments_text, 1);
}

/// The lines of the entries of `s` from index `from` on, after the text
/// `before`: each entry stands on a line of its own at the indentation
/// `indent`.
pub open spec fn generic_parameters_lines_def(
    s: Seq<GenericParameterModel>,
    names: Seq<Seq<char>>,
    indent: int,
    from: int,
    before: Seq<char>,
) -> Seq<char>
    decreases s.len() - from, 0int,
{
    if 0 <= from < s.len() {
        generic_parameters_lines(
            s,
            names,
            indent,
            from + 1,
            before + line_text(generic_parameter_text(s[from], names, indent), indent),
        )
    } else {
        before
    }
}

/// What [`generic_parameters_lines_def`] defines, kept folded until
/// [`lemma_generic_parameters_lines`] unfolds it.
#[verifier::opaque]
pub open spec fn generic_parameters_lines(
    s: Seq<GenericParameterModel>,
    names: Seq<Seq<char>>,
    indent: int,
    from: int,
    before: Seq<char>,
) -> Seq<char>
    decreases s.len() - from, 1int,
{
    generic_parameters_lines_def(s, names, indent, from, before)
}

/// [`generic_parameters_lines`] is what [`generic_parameters_lines_def`] defines.
pub proof fn lemma_generic_parameters_lines(
    s: Seq<GenericParameterModel>,
    names: Seq<Seq<char>>,
    indent: int,
    from: int,
    before: Seq<char>,
)
    ensures
        generic_parameters_lines(
            s,
            names,
            indent,
            from,
            before,
        ) == generic_parameters_lines_def(s, names, indent, from, before),
{
    reveal_with_fuel(generic_parameters_lines, 1);
}

/// The text of a list: `EMPTY` where it holds nothing, else its entries,
/// each on a line of its own, one level deeper than `indent`.
pub open spec fn generic_parameters_text_def(
    s: Seq<GenericParameterModel>,
    names: Seq<Seq<char>>,
    indent: int,
) -> Seq<char>
{
    if s.len() == 0 {
        "EMPTY"@
    } else {
        generic_parameters_lines(s, names, deeper(indent), 0, Seq::empty())
    }
}

/// What [`generic_parameters_text_def`] defines, kept folded until
/// [`lemma_generic_parameters_text`] unfolds it.
#[verifier::opaque]
pub open spec fn generic_parameters_text(
    s: Seq<GenericParameterModel>,
    names: Seq<Seq<char>>,
    indent: int,
) -> Seq<char>
{
    generic_parameters_text_def(s, names, indent)
}

/// [`generic_parameters_text`] is what [`generic_parameters_text_def`] defines.
pub proof fn lemma_generic_parameters_text(
    s: Seq<GenericParameterModel>,
    names: Seq<Seq<char>>,
    indent: int,
)
    ensures
        generic_parameters_text(s, names, indent) == generic_parameters_text_def(s, names, indent),
{
    reveal(generic_parameters_text);
}

/// The lines of the entries of `s` from index `from` on, after the text
/// `before`: each entry stands on a line of its own at the indentation
/// `indent`.
pub open spec fn identifiers_lines_def(
    s: Seq<IdentifierAst>,
    names: Seq<Seq<char>>,
    indent: int,
    from: int,
    before: Seq<char>,
) -> Seq<char>
    decreases s.len() - from, 0int,
{
    if 0 <= from < s.len() {
        identifiers_lines(
            s,
            names,
            indent,
            from + 1,
            before + line_text(identifier_text(s[from], names), indent),
        )
    } else {
        before
    }
}

/// What [`identifiers_lines_def`] defines, kept folded until [`lemma_identifiers_lines`] unfolds
/// it.
#[verifier::opaque]
pub open spec fn identifiers_lines(
    s: Seq<IdentifierAst>,
    names: Seq<Seq<char>>,
    indent: int,
    from: int,
    before: Seq<char>,
) -> Seq<char>
    decreases s.len() - from, 1int,
{
    identifiers_lines_def(s, names, indent, from, before)
}

/// [`identifiers_lines`] is what [`identifiers_lines_def`] defines.
pub proof fn lemma_identifiers_lines(
    s: Seq<IdentifierAst>,
    names: Seq<Seq<char>>,
    indent: int,
    from: int,
    before: Seq<char>,
)
    ensures
        identifiers_lines(
            s,
            names,
            indent,
            from,
            before,
        ) == identifiers_lines_def(s, names, indent, from, before),
{
    reveal_with_fuel(identifiers_lines, 1);
}

/// The text of a list: `EMPTY` where it holds nothing, else its entries,
/// each on a line of its own, one level deeper than `indent`.
pub open spec fn identifiers_text_def(
    s: Seq<IdentifierAst>,
    names: Seq<Seq<char>>,
    indent: int,
) -> Seq<char>
{
    if s.len() == 0 {
        "EMPTY"@
    } else {
        identifiers_lines(s, names, deeper(indent), 0, Seq::empty())
    }
}

/// What [`identifiers_text_def`] defines, kept folded until [`lemma_identifiers_text`] unfolds it.
#[verifier::opaque]
pub open spec fn identifiers_text(
    s: Seq<IdentifierAst>,
    names: Seq<Seq<char>>,
    indent: int,
) -> Seq<char>
{
    identifiers_text_def(s, names, indent)
}

/// [`identifiers_text`] is what [`identifiers_text_def`] defines.
pub proof fn lemma_identifiers_text(s: Seq<IdentifierAst>, names: Seq<Seq<char>>, indent: int)
    ensures
        identifiers_text(s, names, indent) == identifiers_text_def(s, names, indent),
{
    reveal(identifiers_text);
}

/// The lines of the entries of `s` from index `from` on, after the text
/// `before`: each entry stands on a line of its own at the indentation
/// `indent`.
pub open spec fn if_blocks_lines_def(
    s: Seq<(ExpressionModel, Seq<StatementModel>)>,
    names: Seq<Seq<char>>,
    indent: int,
    from: int,
    before: Seq<char>,
) -> Seq<char>
    decreases s, s.len() - from, 0int,
{
    if 0 <= from < s.len() {
        if_blocks_lines(
            s,
            names,
            indent,
            from + 1,
            before + line_text(if_block_text(s[from], names, indent), indent),
        )
    } else {
        before
    }
}

/// What [`if_blocks_lines_def`] defines, kept folded until [`lemma_if_blocks_lines`] unfolds it.
#[verifier::opaque]
pub open spec fn if_blocks_lines(
    s: Seq<(ExpressionModel, Seq<StatementModel>)>,
    names: Seq<Seq<char>>,
    indent: int,
    from: int,
    before: Seq<char>,
) -> Seq<char>
    decreases s, s.len() - from, 1int,
{
    if_blocks_lines_def(s, names, indent, from, before)
}

/// [`if_blocks_lines`] is what [`if_blocks_lines_def`] defines.
pub proof fn lemma_if_blocks_lines(
    s: Seq<(ExpressionModel, Seq<StatementModel>)>,
    names: Seq<Seq<char>>,
    indent: int,
    from: int,
    before: Seq<char>,
)
    ensures
        if_blocks_lines(
            s,
            names,
            indent,
            from,
            before,
        ) == if_blocks_lines_def(s, names, indent, from, before),
{
    reveal_with_fuel(if_blocks_lines, 1);
}

/// The text of a list: `EMPTY` where it holds nothing, else its entries,
/// each on a line of its own, one level deeper than `indent`.
pub open spec fn if_blocks_text_def(
    s: Seq<(ExpressionModel, Seq<StatementModel>)>,
    names: Seq<Seq<char>>,
    indent: int,
) -> Seq<char>
    decreases s, s.len() + 1, 0int,
{
    if s.len() == 0 {
        "EMPTY"@
    } else {
        if_blocks_lines(s, names, deeper(indent), 0, Seq::empty())
    }
}

/// What [`if_blocks_text_def`] defines, kept folded until [`lemma_if_blocks_text`] unfolds it.
#[verifier::opaque]
pub open spec fn if_blocks_text(
    s: Seq<(ExpressionModel, Seq<StatementModel>)>,
    names: Seq<Seq<char>>,
    indent: int,
) -> Seq<char>
    decreases s, s.len() + 1, 1int,
{
    if_blocks_text_def(s, names, indent)
}

/// [`if_blocks_text`] is what [`if_blocks_text_def`] defines.
pub proof fn lemma_if_blocks_text(
    s: Seq<(ExpressionModel, Seq<StatementModel>)>,
    names: Seq<Seq<char>>,
    indent: int,
)
    ensures
        if_blocks_text(s, names, indent) == if_blocks_text_def(s, names, indent),
{
    reveal_with_fuel(if_blocks_text, 1);
}

/// The lines of the entries of `s` from index `from` on, after the text
/// `before`: each entry stands on a line of its own at the indentation
/// `indent`.
pub open spec fn items_lines_def(
    s: Seq<ItemModel>,
    names: Seq<Seq<char>>,
    indent: int,
    from: int,
    before: Seq<char>,
) -> Seq<char>
    decreases s.len() - from, 0int,
{
    if 0 <= from < s.len() {
        items_lines(
            s,
            names,
            indent,
            from + 1,
            before + line_text(item_text(s[from], names, indent), indent),
        )
    } else {
        before
    }
}

/// What [`items_lines_def`] defines, kept folded until [`lemma_items_lines`] unfolds it.
#[verifier::opaque]
pub open spec fn items_lines(
    s: Seq<ItemModel>,
    names: Seq<Seq<char>>,
    indent: int,
    from: int,
    before: Seq<char>,
) -> Seq<char>
    decreases s.len() - from, 1int,
{
    items_lines_def(s, names, indent, from, before)
}

/// [`items_lines`] is what [`items_lines_def`] defines.
pub proof fn lemma_items_lines(
    s: Seq<ItemModel>,
    names: Seq<Seq<char>>,
    indent: int,
    from: int,
    before: Seq<char>,
)
    ensures
        items_lines(
            s,
            names,
            indent,
            from,
            before,
        ) == items_lines_def(s, names, indent, from, before),
{
    reveal_with_fuel(items_lines, 1);
}

/// The text of a list: `EMPTY` where it holds nothing, else its entries,
/// each on a line of its own, one level deeper than `indent`.
pub open spec fn items_text_def(s: Seq<ItemModel>, names: Seq<Seq<char>>, indent: int) -> Seq<char>
{
    if s.len() == 0 {
        "EMPTY"@
    } else {
        items_lines(s, names, deeper(indent), 0, Seq::empty())
    }
}

/// What [`items_text_def`] defines, kept folded until [`lemma_items_text`] unfolds it.
#[verifier::opaque]
pub open spec fn items_text(s: Seq<ItemModel>, names: Seq<Seq<char>>, indent: int) -> Seq<char>
{
    items_text_def(s, names, indent)
}

/// [`items_text`] is what [`items_text_def`] defines.
pub proof fn lemma_items_text(s: Seq<ItemModel>, names: Seq<Seq<char>>, indent: int)
    ensures
        items_text(s, names, indent) == items_text_def(s, names, indent),
{
    reveal(items_text);
}

/// The lines of the entries of `s` from index `from` on, after the text
/// `before`: each entry stands on a line of its own at the indentation
/// `indent`.
pub open spec fn lambda_function_parameters_lines_def(
    s: Seq<LambdaFunctionParameterModel>,
    names: Seq<Seq<char>>,
    indent: int,
    from: int,
    before: Seq<char>,
) -> Seq<char>
    decreases s.len() - from, 0int,
{
    if 0 <= from < s.len() {
        lambda_function_parameters_lines(
            s,
            names,
            indent,
            from + 1,
            before + line_text(lambda_function_parameter_text(s[from], names, indent), indent),
        )
    } else {
        before
    }
}

/// What [`lambda_function_parameters_lines_def`] defines, kept folded until
/// [`lemma_lambda_function_parameters_lines`] unfolds it.
#[verifier::opaque]
pub open spec fn lambda_function_parameters_lines(
    s: Seq<LambdaFunctionParameterModel>,
    names: Seq<Seq<char>>,
    indent: int,
    from: int,
    before: Seq<char>,
) -> Seq<char>
    decreases s.len() - from, 1int,
{
    lambda_function_parameters_lines_def(s, names, indent, from, before)
}

/// [`lambda_function_parameters_lines`] is what [`lambda_function_parameters_lines_def`] defines.
pub proof fn lemma_lambda_function_parameters_lines(
    s: Seq<LambdaFunctionParameterModel>,
    names: Seq<Seq<char>>,
    indent: int,
    from: int,
    before: Seq<char>,
)
    ensures
        lambda_function_parameters_lines(
            s,
            names,
            indent,
            from,
            before,
        ) == lambda_function_parameters_lines_def(s, names, indent, from, before),
{
    reveal_with_fuel(lambda_function_parameters_lines, 1);
}

/// The text of a list: `EMPTY` where it holds nothing, else its entries,
/// each on a line of its own, one level deeper than `indent`.
pub open spec fn lambda_function_parameters_text_def(
    s: Seq<LambdaFunctionParameterModel>,
    names: Seq<Seq<char>>,
    indent: int,
) -> Seq<char>
{
    if s.len() == 0 {
        "EMPTY"@
    } else {
        lambda_function_parameters_lines(s, names, deeper(indent), 0, Seq::empty())
    }
}

/// What [`lambda_function_parameters_text_def`] defines, kept folded until
/// [`lemma_lambda_function_parameters_text`] unfolds it.
#[verifier::opaque]
pub open spec fn lambda_function_parameters_text(
    s: Seq<LambdaFunctionParameterModel>,
    names: Seq<Seq<char>>,
    indent: int,
) -> Seq<char>
{
    lambda_function_parameters_text_def(s, names, indent)
}

/// [`lambda_function_parameters_text`] is what [`lambda_function_parameters_text_def`] defines.
pub proof fn lemma_lambda_function_parameters_text(
    s: Seq<LambdaFunctionParameterModel>,
    names: Seq<Seq<char>>,
    indent: int,
)
    ensures
        lambda_function_parameters_text(
            s,
            names,
            indent,
        ) == lambda_function_parameters_text_def(s, names, indent),
{
    reveal(lambda_function_parameters_text);
}

/// The lines of the entries of `s` from index `from` on, after the text
/// `before`: each entry stands on a line of its own at the indentation
/// `indent`.
pub open spec fn match_expression_items_lines_def(
    s: Seq<MatchExpressionItemModel>,
    names: Seq<Seq<char>>,
    indent: int,
    from: int,
    before: Seq<char>,
) -> Seq<char>
    decreases s, s.len() - from, 0int,
{
    if 0 <= from < s.len() {
        match_expression_items_lines(
            s,
            names,
            indent,
            from + 1,
            before + line_text(match_expression_item_text(s[from], names, indent), indent),
        )
    } else {
        before
    }
}

/// What [`match_expression_items_lines_def`] defines, kept folded until
/// [`lemma_match_expression_items_lines`] unfolds it.
#[verifier::opaque]
pub open spec fn match_expression_items_lines(
    s: Seq<MatchExpressionItemModel>,
    names: Seq<Seq<char>>,
    indent: int,
    from: int,
    before: Seq<char>,
) -> Seq<char>
    decreases s, s.len() - from, 1int,
{
    match_expression_items_lines_def(s, names, indent, from, before)
}

/// [`match_expression_items_lines`] is what [`match_expression_items_lines_def`] defines.
pub proof fn lemma_match_expression_items_lines(
    s: Seq<MatchExpressionItemModel>,
    names: Seq<Seq<char>>,
    indent: int,
    from: int,
    before: Seq<char>,
)
    ensures
        match_expression_items_lines(
            s,
            names,
            indent,
            from,
            before,
        ) == match_expression_items_lines_def(s, names, indent, from, before),
{
    reveal_with_fuel(match_expression_items_lines, 1);
}

/// The text of a list: `EMPTY` where it holds nothing, else its entries,
/// each on a line of its own, one level deeper than `indent`.
pub open spec fn match_expression_items_text_def(
    s: Seq<MatchExpressionItemModel>,
    names: Seq<Seq<char>>,
    indent: int,
) -> Seq<char>
    decreases s, s.len() + 1, 0int,
{
    if s.len() == 0 {
        "EMPTY"@
    } else {
        match_expression_items_lines(s, names, deeper(indent), 0, Seq::empty())
    }
}

/// What [`match_expression_items_text_def`] defines, kept folded until
/// [`lemma_match_expression_items_text`] unfolds it.
#[verifier::opaque]
pub open spec fn match_expression_items_text(
    s: Seq<MatchExpressionItemModel>,
    names: Seq<Seq<char>>,
    indent: int,
) -> Seq<char>
    decreases s, s.len() + 1, 1int,
{
    match_expression_items_text_def(s, names, indent)
}

/// [`match_expression_items_text`] is what [`match_expression_items_text_def`] defines.
pub proof fn lemma_match_expression_items_text(
    s: Seq<MatchExpressionItemModel>,
    names: Seq<Seq<char>>,
    indent: int,
)
    ensures
        match_expression_items_text(
            s,
            names,
            indent,
        ) == match_expression_items_text_def(s, names, indent),
{
    reveal_with_fuel(match_expression_items_text, 1);
}

/// The lines of the entries of `s` from index `from` on, after the text
/// `before`: each entry stands on a line of its own at the indentation
/// `indent`.
pub open spec fn patterns_lines_def(
    s: Seq<PatternModel>,
    names: Seq<Seq<char>>,
    indent: int,
    from: int,
    before: Seq<char>,
) -> Seq<char>
    decreases s, s.len() - from, 0int,
{
    if 0 <= from < s.len() {
        patterns_lines(
            s,
            names,
            indent,
            from + 1,
            before + line_text(pattern_text(s[from], names, indent), indent),
        )
    } else {
        before
    }
}

/// What [`patterns_lines_def`] defines, kept folded until [`lemma_patterns_lines`] unfolds it.
#[verifier::opaque]
pub open spec fn patterns_lines(
    s: Seq<PatternModel>,
    names: Seq<Seq<char>>,
    indent: int,
    from: int,
    before: Seq<char>,
) -> Seq<char>
    decreases s, s.len() - from, 1int,
{
    patterns_lines_def(s, names, indent, from, before)
}

/// [`patterns_lines`] is what [`patterns_lines_def`] defines.
pub proof fn lemma_patterns_lines(
    s: Seq<PatternModel>,
    names: Seq<Seq<char>>,
    indent: int,
    from: int,
    before: Seq<char>,
)
    ensures
        patterns_lines(
            s,
            names,
            indent,
            from,
            before,
        ) == patterns_lines_def(s, names, indent, from, before),
{
    reveal_with_fuel(patterns_lines, 1);
}

/// The text of a list: `EMPTY` where it holds nothing, else its entries,
/// each on a line of its own, one level deeper than `indent`.
pub open spec fn patterns_text_def(
    s: Seq<PatternModel>,
    names: Seq<Seq<char>>,
    indent: int,
) -> Seq<char>
    decreases s, s.len() + 1, 0int,
{
    if s.len() == 0 {
        "EMPTY"@
    } else {
        patterns_lines(s, names, deeper(indent), 0, Seq::empty())
    }
}

/// What [`patterns_text_def`] defines, kept folded until [`lemma_patterns_text`] unfolds it.
#[verifier::opaque]
pub open spec fn patterns_text(
    s: Seq<PatternModel>,
    names: Seq<Seq<char>>,
    indent: int,
) -> Seq<char>
    decreases s, s.len() + 1, 1int,
{
    patterns_text_def(s, names, indent)
}

/// [`patterns_text`] is what [`patterns_text_def`] defines.
pub proof fn lemma_patterns_text(s: Seq<PatternModel>, names: Seq<Seq<char>>, indent: int)
    ensures
        patterns_text(s, names, indent) == patterns_text_def(s, names, indent),
{
    reveal_with_fuel(patterns_text, 1);
}

/// The lines of the entries of `s` from index `from` on, after the text
/// `before`: each entry stands on a line of its own at the indentation
/// `indent`.
pub open spec fn statements_lines_def(
    s: Seq<StatementModel>,
    names: Seq<Seq<char>>,
    indent: int,
    from: int,
    before: Seq<char>,
) -> Seq<char>
    decreases s, s.len() - from, 0int,
{
    if 0 <= from < s.len() {
        statements_lines(
            s,
            names,
            indent,
            from + 1,
            before + line_text(statement_text(s[from], names, indent), indent),
        )
    } else {
        before
    }
}

/// What [`statements_lines_def`] defines, kept folded until [`lemma_statements_lines`] unfolds it.
#[verifier::opaque]
pub open spec fn statements_lines(
    s: Seq<StatementModel>,
    names: Seq<Seq<char>>,
    indent: int,
    from: int,
    before: Seq<char>,
) -> Seq<char>
    decreases s, s.len() - from, 1int,
{
    statements_lines_def(s, names, indent, from, before)
}

/// [`statements_lines`] is what [`statements_lines_def`] defines.
pub proof fn lemma_statements_lines(
    s: Seq<StatementModel>,
    names: Seq<Seq<char>>,
    indent: int,
    from: int,
    before: Seq<char>,
)
    ensures
        statements_lines(
            s,
            names,
            indent,
            from,
            before,
        ) == statements_lines_def(s, names, indent, from, before),
{
    reveal_with_fuel(statements_lines, 1);
}

/// The text of a list: `EMPTY` where it holds nothing, else its entries,
/// each on a line of its own, one level deeper than `indent`.
pub open spec fn statements_text_def(
    s: Seq<StatementModel>,
    names: Seq<Seq<char>>,
    indent: int,
) -> Seq<char>
    decreases s, s.len() + 1, 0int,
{
    if s.len() == 0 {
        "EMPTY"@
    } else {
        statements_lines(s, names, deeper(indent), 0, Seq::empty())
    }
}

/// What [`statements_text_def`] defines, kept folded until [`lemma_statements_text`] unfolds it.
#[verifier::opaque]
pub open spec fn statements_text(
    s: Seq<StatementModel>,
    names: Seq<Seq<char>>,
    indent: int,
) -> Seq<char>
    decreases s, s.len() + 1, 1int,
{
    statements_text_def(s, names, indent)
}

/// [`statements_text`] is what [`statements_text_def`] defines.
pub proof fn lemma_statements_text(s: Seq<StatementModel>, names: Seq<Seq<char>>, indent: int)
    ensures
        statements_text(s, names, indent) == statements_text_def(s, names, indent),
{
    reveal_with_fuel(statements_text, 1);
}

/// The lines of the entries of `s` from index `from` on, after the text
/// `before`: each entry stands on a line of its own at the indentation
/// `indent`.
pub open spec fn struct_expression_items_lines_def(
    s: Seq<StructExpressionItemModel>,
    names: Seq<Seq<char>>,
    indent: int,
    from: int,
    before: Seq<char>,
) -> Seq<char>
    decreases s, s.len() - from, 0int,
{
    if 0 <= from < s.len() {
        struct_expression_items_lines(
            s,
            names,
            indent,
            from + 1,
            before + line_text(struct_expression_item_text(s[from], names, indent), indent),
        )
    } else {
        before
    }
}

/// What [`struct_expression_items_lines_def`] defines, kept folded until
/// [`lemma_struct_expression_items_lines`] unfolds it.
#[verifier::opaque]
pub open spec fn struct_expression_items_lines(
    s: Seq<StructExpressionItemModel>,
    names: Seq<Seq<char>>,
    indent: int,
    from: int,
    before: Seq<char>,
) -> Seq<char>
    decreases s, s.len() - from, 1int,
{
    struct_expression_items_lines_def(s, names, indent, from, before)
}

/// [`struct_expression_items_lines`] is what [`struct_expression_items_lines_def`] defines.
pub proof fn lemma_struct_expression_items_lines(
    s: Seq<StructExpressionItemModel>,
    names: Seq<Seq<char>>,
    indent: int,
    from: int,
    before: Seq<char>,
)
    ensures
        struct_expression_items_lines(
            s,
            names,
            indent,
            from,
            before,
        ) == struct_expression_items_lines_def(s, names, indent, from, before),
{
    reveal_with_fuel(struct_expression_items_lines, 1);
}

/// The text of a list: `EMPTY` where it holds nothing, else its entries,
/// each on a line of its own, one level deeper than `indent`.
pub open spec fn struct_expression_items_text_def(
    s: Seq<StructExpressionItemModel>,
    names: Seq<Seq<char>>,
    indent: int,
) -> Seq<char>
    decreases s, s.len() + 1, 0int,
{
    if s.len() == 0 {
        "EMPTY"@
    } else {
        struct_expression_items_lines(s, names, deeper(indent), 0, Seq::empty())
    }
}

/// What [`struct_expression_items_text_def`] defines, kept folded until
/// [`lemma_struct_expression_items_text`] unfolds it.
#[verifier::opaque]
pub open spec fn struct_expression_items_text(
    s: Seq<StructExpressionItemModel>,
    names: Seq<Seq<char>>,
    indent: int,
) -> Seq<char>
    decreases s, s.len() + 1, 1int,
{
    struct_expression_items_text_def(s, names, indent)
}

/// [`struct_expression_items_text`] is what [`struct_expression_items_text_def`] defines.
pub proof fn lemma_struct_expression_items_text(
    s: Seq<StructExpressionItemModel>,
    names: Seq<Seq<char>>,
    indent: int,
)
    ensures
        struct_expression_items_text(
            s,
            names,
            indent,
        ) == struct_expression_items_text_def(s, names, indent),
{
    reveal_with_fuel(struct_expression_items_text, 1);
}

/// The lines of the entries of `s` from index `from` on, after the text
/// `before`: each entry stands on a line of its own at the indentation
/// `indent`.
pub open spec fn struct_fields_lines_def(
    s: Seq<StructFieldModel>,
    names: Seq<Seq<char>>,
    indent: int,
    from: int,
    before: Seq<char>,
) -> Seq<char>
    decreases s.len() - from, 0int,
{
    if 0 <= from < s.len() {
        struct_fields_lines(
            s,
            names,
            indent,
            from + 1,
            before + line_text(struct_field_text(s[from], names, indent), indent),
        )
    } else {
        before
    }
}

/// What [`struct_fields_lines_def`] defines, kept folded until [`lemma_struct_fields_lines`]
/// unfolds it.
#[verifier::opaque]
pub open spec fn struct_fields_lines(
    s: Seq<StructFieldModel>,
    names: Seq<Seq<char>>,
    indent: int,
    from: int,
    before: Seq<char>,
) -> Seq<char>
    decreases s.len() - from, 1int,
{
    struct_fields_lines_def(s, names, indent, from, before)
}

/// [`struct_fields_lines`] is what [`struct_fields_lines_def`] defines.
pub proof fn lemma_struct_fields_lines(
    s: Seq<StructFieldModel>,
    names: Seq<Seq<char>>,
    indent: int,
    from: int,
    before: Seq<char>,
)
    ensures
        struct_fields_lines(
            s,
            names,
            indent,
            from,
            before,
        ) == struct_fields_lines_def(s, names, indent, from, before),
{
    reveal_with_fuel(struct_fields_lines, 1);
}

/// The text of a list: `EMPTY` where it holds nothing, else its entries,
/// each on a line of its own, one level deeper than `indent`.
pub open spec fn struct_fields_text_def(
    s: Seq<StructFieldModel>,
    names: Seq<Seq<char>>,
    indent: int,
) -> Seq<char>
{
    if s.len() == 0 {
        "EMPTY"@
    } else {
        struct_fields_lines(s, names, deeper(indent), 0, Seq::empty())
    }
}

/// What [`struct_fields_text_def`] defines, kept folded until [`lemma_struct_fields_text`] unfolds
/// it.
#[verifier::opaque]
pub open spec fn struct_fields_text(
    s: Seq<StructFieldModel>,
    names: Seq<Seq<char>>,
    indent: int,
) -> Seq<char>
{
    struct_fields_text_def(s, names, indent)
}

/// [`struct_fields_text`] is what [`struct_fields_text_def`] defines.
pub proof fn lemma_struct_fields_text(s: Seq<StructFieldModel>, names: Seq<Seq<char>>, indent: int)
    ensures
        struct_fields_text(s, names, indent) == struct_fields_text_def(s, names, indent),
{
    reveal(struct_fields_text);
}

/// The lines of the entries of `s` from index `from` on, after the text
/// `before`: each entry stands on a line of its own at the indentation
/// `indent`.
pub open spec fn struct_field_patterns_lines_def(
    s: Seq<StructFieldPatternModel>,
    names: Seq<Seq<char>>,
    indent: int,
    from: int,
    before: Seq<char>,
) -> Seq<char>
    decreases s, s.len() - from, 0int,
{
    if 0 <= from < s.len() {
        struct_field_patterns_lines(
            s,
            names,
            indent,
            from + 1,
            before + line_text(struct_field_pattern_text(s[from], names, indent), indent),
        )
    } else {
        before
    }
}

/// What [`struct_field_patterns_lines_def`] defines, kept folded until
/// [`lemma_struct_field_patterns_lines`] unfolds it.
#[verifier::opaque]
pub open spec fn struct_field_patterns_lines(
    s: Seq<StructFieldPatternModel>,
    names: Seq<Seq<char>>,
    indent: int,
    from: int,
    before: Seq<char>,
) -> Seq<char>
    decreases s, s.len() - from, 1int,
{
    struct_field_patterns_lines_def(s, names, indent, from, before)
}

/// [`struct_field_patterns_lines`] is what [`struct_field_patterns_lines_def`] defines.
pub proof fn lemma_struct_field_patterns_lines(
    s: Seq<StructFieldPatternModel>,
    names: Seq<Seq<char>>,
    indent: int,
    from: int,
    before: Seq<char>,
)
    ensures
        struct_field_patterns_lines(
            s,
            names,
            indent,
            from,
            before,
        ) == struct_field_patterns_lines_def(s, names, indent, from, before),
{
    reveal_with_fuel(struct_field_patterns_lines, 1);
}

/// The text of a list: `EMPTY` where it holds nothing, else its entries,
/// each on a line of its own, one level deeper than `indent`.
pub open spec fn struct_field_patterns_text_def(
    s: Seq<StructFieldPatternModel>,
    names: Seq<Seq<char>>,
    indent: int,
) -> Seq<char>
    decreases s, s.len() + 1, 0int,
{
    if s.len() == 0 {
        "EMPTY"@
    } else {
        struct_field_patterns_lines(s, names, deeper(indent), 0, Seq::empty())
    }
}

/// What [`struct_field_patterns_text_def`] defines, kept folded until
/// [`lemma_struct_field_patterns_text`] unfolds it.
#[verifier::opaque]
pub open spec fn struct_field_patterns_text(
    s: Seq<StructFieldPatternModel>,
    names: Seq<Seq<char>>,
    indent: int,
) -> Seq<char>
    decreases s, s.len() + 1, 1int,
{
    struct_field_patterns_text_def(s, names, indent)
}

/// [`struct_field_patterns_text`] is what [`struct_field_patterns_text_def`] defines.
pub proof fn lemma_struct_field_patterns_text(
    s: Seq<StructFieldPatternModel>,
    names: Seq<Seq<char>>,
    indent: int,
)
    ensures
        struct_field_patterns_text(
            s,
            names,
            indent,
        ) == struct_field_patterns_text_def(s, names, indent),
{
    reveal_with_fuel(struct_field_patterns_text, 1);
}

/// The lines of the entries of `s` from index `from` on, after the text
/// `before`: each entry stands on a line of its own at the indentation
/// `indent`.
pub open spec fn trait_items_lines_def(
    s: Seq<TraitItemModel>,
    names: Seq<Seq<char>>,
    indent: int,
    from: int,
    before: Seq<char>,
) -> Seq<char>
    decreases s.len() - from, 0int,
{
    if 0 <= from < s.len() {
        trait_items_lines(
            s,
            names,
            indent,
            from + 1,
            before + line_text(trait_item_text(s[from], names, indent), indent),
        )
    } else {
        before
    }
}

/// What [`trait_items_lines_def`] defines, kept folded until [`lemma_trait_items_lines`] unfolds
/// it.
#[verifier::opaque]
pub open spec fn trait_items_lines(
    s: Seq<TraitItemModel>,
    names: Seq<Seq<char>>,
    indent: int,
    from: int,
    before: Seq<char>,
) -> Seq<char>
    decreases s.len() - from, 1int,
{
    trait_items_lines_def(s, names, indent, from, before)
}

/// [`trait_items_lines`] is what [`trait_items_lines_def`] defines.
pub proof fn lemma_trait_items_lines(
    s: Seq<TraitItemModel>,
    names: Seq<Seq<char>>,
    indent: int,
    from: int,
    before: Seq<char>,
)
    ensures
        trait_items_lines(
            s,
            names,
            indent,
            from,
            before,
        ) == trait_items_lines_def(s, names, indent, from, before),
{
    reveal_with_fuel(trait_items_lines, 1);
}

/// The text of a list: `EMPTY` where it holds nothing, else its entries,
/// each on a line of its own, one level deeper than `indent`.
pub open spec fn trait_items_text_def(
    s: Seq<TraitItemModel>,
    names: Seq<Seq<char>>,
    indent: int,
) -> Seq<char>
{
    if s.len() == 0 {
        "EMPTY"@
    } else {
        trait_items_lines(s, names, deeper(indent), 0, Seq::empty())
    }
}

/// What [`trait_items_text_def`] defines, kept folded until [`lemma_trait_items_text`] unfolds it.
#[verifier::opaque]
pub open spec fn trait_items_text(
    s: Seq<TraitItemModel>,
    names: Seq<Seq<char>>,
    indent: int,
) -> Seq<char>
{
    trait_items_text_def(s, names, indent)
}

/// [`trait_items_text`] is what [`trait_items_text_def`] defines.
pub proof fn lemma_trait_items_text(s: Seq<TraitItemModel>, names: Seq<Seq<char>>, indent: int)
    ensures
        trait_items_text(s, names, indent) == trait_items_text_def(s, names, indent),
{
    reveal(trait_items_text);
}

/// The lines of the entries of `s` from index `from` on, after the text
/// `before`: each entry stands on a line of its own at the indentation
/// `indent`.
pub open spec fn tuple_fields_lines_def(
    s: Seq<TupleFieldModel>,
    names: Seq<Seq<char>>,
    indent: int,
    from: int,
    before: Seq<char>,
) -> Seq<char>
    decreases s.len() - from, 0int,
{
    if 0 <= from < s.len() {
        tuple_fields_lines(
            s,
            names,
            indent,
            from + 1,
            before + line_text(tuple_field_text(s[from], names, indent), indent),
        )
    } else {
        before
    }
}

/// What [`tuple_fields_lines_def`] defines, kept folded until [`lemma_tuple_fields_lines`] unfolds
/// it.
#[verifier::opaque]
pub open spec fn tuple_fields_lines(
    s: Seq<TupleFieldModel>,
    names: Seq<Seq<char>>,
    indent: int,
    from: int,
    before: Seq<char>,
) -> Seq<char>
    decreases s.len() - from, 1int,
{
    tuple_fields_lines_def(s, names, indent, from, before)
}

/// [`tuple_fields_lines`] is what [`tuple_fields_lines_def`] defines.
pub proof fn lemma_tuple_fields_lines(
    s: Seq<TupleFieldModel>,
    names: Seq<Seq<char>>,
    indent: int,
    from: int,
    before: Seq<char>,
)
    ensures
        tuple_fields_lines(
            s,
            names,
            indent,
            from,
            before,
        ) == tuple_fields_lines_def(s, names, indent, from, before),
{
    reveal_with_fuel(tuple_fields_lines, 1);
}

/// The text of a list: `EMPTY` where it holds nothing, else its entries,
/// each on a line of its own, one level deeper than `indent`.
pub open spec fn tuple_fields_text_def(
    s: Seq<TupleFieldModel>,
    names: Seq<Seq<char>>,
    indent: int,
) -> Seq<char>
{
    if s.len() == 0 {
        "EMPTY"@
    } else {
        tuple_fields_lines(s, names, deeper(indent), 0, Seq::empty())
    }
}

/// What [`tuple_fields_text_def`] defines, kept folded until [`lemma_tuple_fields_text`] unfolds
/// it.
#[verifier::opaque]
pub open spec fn tuple_fields_text(
    s: Seq<TupleFieldModel>,
    names: Seq<Seq<char>>,
    indent: int,
) -> Seq<char>
{
    tuple_fields_text_def(s, names, indent)
}

/// [`tuple_fields_text`] is what [`tuple_fields_text_def`] defines.
pub proof fn lemma_tuple_fields_text(s: Seq<TupleFieldModel>, names: Seq<Seq<char>>, indent: int)
    ensures
        tuple_fields_text(s, names, indent) == tuple_fields_text_def(s, names, indent),
{
    reveal(tuple_fields_text);
}

/// The lines of the entries of `s` from index `from` on, after the text
/// `before`: each entry stands on a line of its own at the indentation
/// `indent`.
pub open spec fn types_lines_def(
    s: Seq<TypeModel>,
    names: Seq<Seq<char>>,
    indent: int,
    from: int,
    before: Seq<char>,
) -> Seq<char>
    decreases s, s.len() - from, 0int,
{
    if 0 <= from < s.len() {
        types_lines(
            s,
            names,
            indent,
            from + 1,
            before + line_text(type_text(s[from], names, indent), indent),
        )
    } else {
        before
    }
}

/// What [`types_lines_def`] defines, kept folded until [`lemma_types_lines`] unfolds it.
#[verifier::opaque]
pub open spec fn types_lines(
    s: Seq<TypeModel>,
    names: Seq<Seq<char>>,
    indent: int,
    from: int,
    before: Seq<char>,
) -> Seq<char>
    decreases s, s.len() - from, 1int,
{
    types_lines_def(s, names, indent, from, before)
}

/// [`types_lines`] is what [`types_lines_def`] defines.
pub proof fn lemma_types_lines(
    s: Seq<TypeModel>,
    names: Seq<Seq<char>>,
    indent: int,
    from: int,
    before: Seq<char>,
)
    ensures
        types_lines(
            s,
            names,
            indent,
            from,
            before,
        ) == types_lines_def(s, names, indent, from, before),
{
    reveal_with_fuel(types_lines, 1);
}

/// The text of a list: `EMPTY` where it holds nothing, else its entries,
/// each on a line of its own, one level deeper than `indent`.
pub open spec fn types_text_def(s: Seq<TypeModel>, names: Seq<Seq<char>>, indent: int) -> Seq<char>
    decreases s, s.len() + 1, 0int,
{
    if s.len() == 0 {
        "EMPTY"@
    } else {
        types_lines(s, names, deeper(indent), 0, Seq::empty())
    }
}

/// What [`types_text_def`] defines, kept folded until [`lemma_types_text`] unfolds it.
#[verifier::opaque]
pub open spec fn types_text(s: Seq<TypeModel>, names: Seq<Seq<char>>, indent: int) -> Seq<char>
    decreases s, s.len() + 1, 1int,
{
    types_text_def(s, names, indent)
}

/// [`types_text`] is what [`types_text_def`] defines.
pub proof fn lemma_types_text(s: Seq<TypeModel>, names: Seq<Seq<char>>, indent: int)
    ensures
        types_text(s, names, indent) == types_text_def(s, names, indent),
{
    reveal_with_fuel(types_text, 1);
}

/// The lines of the entries of `s` from index `from` on, after the text
/// `before`: each entry stands on a line of its own at the indentation
/// `indent`.
pub open spec fn type_paths_lines_def(
    s: Seq<TypePathModel>,
    names: Seq<Seq<char>>,
    indent: int,
    from: int,
    before: Seq<char>,
) -> Seq<char>
    decreases s, s.len() - from, 0int,
{
    if 0 <= from < s.len() {
        type_paths_lines(
            s,
            names,
            indent,
            from + 1,
            before + line_text(type_path_text(s[from], names, indent), indent),
        )
    } else {
        before
    }
}

/// What [`type_paths_lines_def`] defines, kept folded until [`lemma_type_paths_lines`] unfolds it.
#[verifier::opaque]
pub open spec fn type_paths_lines(
    s: Seq<TypePathModel>,
    names: Seq<Seq<char>>,
    indent: int,
    from: int,
    before: Seq<char>,
) -> Seq<char>
    decreases s, s.len() - from, 1int,
{
    type_paths_lines_def(s, names, indent, from, before)
}

/// [`type_paths_lines`] is what [`type_paths_lines_def`] defines.
pub proof fn lemma_type_paths_lines(
    s: Seq<TypePathModel>,
    names: Seq<Seq<char>>,
    indent: int,
    from: int,
    before: Seq<char>,
)
    ensures
        type_paths_lines(
            s,
            names,
            indent,
            from,
            before,
        ) == type_paths_lines_def(s, names, indent, from, before),
{
    reveal_with_fuel(type_paths_lines, 1);
}

/// The text of a list: `EMPTY` where it holds nothing, else its entries,
/// each on a line of its own, one level deeper than `indent`.
pub open spec fn type_paths_text_def(
    s: Seq<TypePathModel>,
    names: Seq<Seq<char>>,
    indent: int,
) -> Seq<char>
    decreases s, s.len() + 1, 0int,
{
    if s.len() == 0 {
        "EMPTY"@
    } else {
        type_paths_lines(s, names, deeper(indent), 0, Seq::empty())
    }
}

/// What [`type_paths_text_def`] defines, kept folded until [`lemma_type_paths_text`] unfolds it.
#[verifier::opaque]
pub open spec fn type_paths_text(
    s: Seq<TypePathModel>,
    names: Seq<Seq<char>>,
    indent: int,
) -> Seq<char>
    decreases s, s.len() + 1, 1int,
{
    type_paths_text_def(s, names, indent)
}

/// [`type_paths_text`] is what [`type_paths_text_def`] defines.
pub proof fn lemma_type_paths_text(s: Seq<TypePathModel>, names: Seq<Seq<char>>, indent: int)
    ensures
        type_paths_text(s, names, indent) == type_paths_text_def(s, names, indent),
{
    reveal_with_fuel(type_paths_text, 1);
}

/// The lines of the entries of `s` from index `from` on, after the text
/// `before`: each entry stands on a line of its own at the indentation
/// `indent`.
pub open spec fn type_path_segments_lines_def(
    s: Seq<TypePathSegmentModel>,
    names: Seq<Seq<char>>,
    indent: int,
    from: int,
    before: Seq<char>,
) -> Seq<char>
    decreases s, s.len() - from, 0int,
{
    if 0 <= from < s.len() {
        type_path_segments_lines(
            s,
            names,
            indent,
            from + 1,
            before + line_text(type_path_segment_text(s[from], names, indent), indent),
        )
    } else {
        before
    }
}

/// What [`type_path_segments_lines_def`] defines, kept folded until
/// [`lemma_type_path_segments_lines`] unfolds it.
#[verifier::opaque]
pub open spec fn type_path_segments_lines(
    s: Seq<TypePathSegmentModel>,
    names: Seq<Seq<char>>,
    indent: int,
    from: int,
    before: Seq<char>,
) -> Seq<char>
    decreases s, s.len() - from, 1int,
{
    type_path_segments_lines_def(s, names, indent, from, before)
}

/// [`type_path_segments_lines`] is what [`type_path_segments_lines_def`] defines.
pub proof fn lemma_type_path_segments_lines(
    s: Seq<TypePathSegmentModel>,
    names: Seq<Seq<char>>,
    indent: int,
    from: int,
    before: Seq<char>,
)
    ensures
        type_path_segments_lines(
            s,
            names,
            indent,
            from,
            before,
        ) == type_path_segments_lines_def(s, names, indent, from, before),
{
    reveal_with_fuel(type_path_segments_lines, 1);
}

/// The text of a list: `EMPTY` where it holds nothing, else its entries,
/// each on a line of its own, one level deeper than `indent`.
pub open spec fn type_path_segments_text_def(
    s: Seq<TypePathSegmentModel>,
    names: Seq<Seq<char>>,
    indent: int,
) -> Seq<char>
    decreases s, s.len() + 1, 0int,
{
    if s.len() == 0 {
        "EMPTY"@
    } else {
        type_path_segments_lines(s, names, deeper(indent), 0, Seq::empty())
    }
}

/// What [`type_path_segments_text_def`] defines, kept folded until
/// [`lemma_type_path_segments_text`] unfolds it.
#[verifier::opaque]
pub open spec fn type_path_segments_text(
    s: Seq<TypePathSegmentModel>,
    names: Seq<Seq<char>>,
    indent: int,
) -> Seq<char>
    decreases s, s.len() + 1, 1int,
{
    type_path_segments_text_def(s, names, indent)
}

/// [`type_path_segments_text`] is what [`type_path_segments_text_def`] defines.
pub proof fn lemma_type_path_segments_text(
    s: Seq<TypePathSegmentModel>,
    names: Seq<Seq<char>>,
    indent: int,
)
    ensures
        type_path_segments_text(s, names, indent) == type_path_segments_text_def(s, names, indent),
{
    reveal_with_fuel(type_path_segments_text, 1);
}

/// The lines of the entries of `s` from index `from` on, after the text
/// `before`: each entry stands on a line of its own at the indentation
/// `indent`.
pub open spec fn where_clause_items_lines_def(
    s: Seq<WhereClauseItemModel>,
    names: Seq<Seq<char>>,
    indent: int,
    from: int,
    before: Seq<char>,
) -> Seq<char>
    decreases s.len() - from, 0int,
{
    if 0 <= from < s.len() {
        where_clause_items_lines(
            s,
            names,
            indent,
            from + 1,
            before + line_text(where_clause_item_text(s[from], names, indent), indent),
        )
    } else {
        before
    }
}

/// What [`where_clause_items_lines_def`] defines, kept folded until
/// [`lemma_where_clause_items_lines`] unfolds it.
#[verifier::opaque]
pub open spec fn where_clause_items_lines(
    s: Seq<WhereClauseItemModel>,
    names: Seq<Seq<char>>,
    indent: int,
    from: int,
    before: Seq<char>,
) -> Seq<char>
    decreases s.len() - from, 1int,
{
    where_clause_items_lines_def(s, names, indent, from, before)
}

/// [`where_clause_items_lines`] is what [`where_clause_items_lines_def`] defines.
pub proof fn lemma_where_clause_items_lines(
    s: Seq<WhereClauseItemModel>,
    names: Seq<Seq<char>>,
    indent: int,
    from: int,
    before: Seq<char>,
)
    ensures
        where_clause_items_lines(
            s,
            names,
            indent,
            from,
            before,
        ) == where_clause_items_lines_def(s, names, indent, from, before),
{
    reveal_with_fuel(where_clause_items_lines, 1);
}

/// The text of a list: `EMPTY` where it holds nothing, else its entries,
/// each on a line of its own, one level deeper than `indent`.
pub open spec fn where_clause_items_text_def(
    s: Seq<WhereClauseItemModel>,
    names: Seq<Seq<char>>,
    indent: int,
) -> Seq<char>
{
    if s.len() == 0 {
        "EMPTY"@
    } else {
        where_clause_items_lines(s, names, deeper(indent), 0, Seq::empty())
    }
}

/// What [`where_clause_items_text_def`] defines, kept folded until
/// [`lemma_where_clause_items_text`] unfolds it.
#[verifier::opaque]
pub open spec fn where_clause_items_text(
    s: Seq<WhereClauseItemModel>,
    names: Seq<Seq<char>>,
    indent: int,
) -> Seq<char>
{
    where_clause_items_text_def(s, names, indent)
}

/// [`where_clause_items_text`] is what [`where_clause_items_text_def`] defines.
pub proof fn lemma_where_clause_items_text(
    s: Seq<WhereClauseItemModel>,
    names: Seq<Seq<char>>,
    indent: int,
)
    ensures
        where_clause_items_text(s, names, indent) == where_clause_items_text_def(s, names, indent),
{
    reveal(where_clause_items_text);
}

} // verus!
