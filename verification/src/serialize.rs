//! Showing a syntax tree as text, for debugging.

use crate::ast::{
    EnumItem, Expression, Function, FunctionParameter, GenericArgument, GenericParameter,
    IdentifierAst, Impl, ImportPath, Item, JustFunctionParameter, LambdaFunctionParameter, Literal,
    MatchExpressionItem, Module, Path, Pattern, SelfParameter, Statement, StructExpressionItem,
    StructField, StructFieldPattern, TraitItem, TupleField, Type, TypeAlias, TypePath,
    TypePathSegment, Visibility, WhereClauseItem,
};
use crate::interner::Interner;
use crate::model::{
    enum_item_model, enum_items_model, expression_model, expressions_model, function_model,
    function_parameter_model, function_parameters_model, generic_argument_model,
    generic_arguments_model, generic_parameter_model, generic_parameters_model, if_blocks_model,
    impl_model, import_path_model, item_model, items_model, just_function_parameter_model,
    lambda_function_parameter_model, lambda_function_parameters_model, lemma_enum_item_model,
    lemma_enum_items_model_at, lemma_enum_items_model_len, lemma_expression_model,
    lemma_expressions_model_at, lemma_expressions_model_len, lemma_function_model,
    lemma_function_parameter_model, lemma_function_parameters_model_at,
    lemma_function_parameters_model_len, lemma_generic_argument_model,
    lemma_generic_arguments_model_at, lemma_generic_arguments_model_len,
    lemma_generic_parameter_model, lemma_generic_parameters_model_at,
    lemma_generic_parameters_model_len, lemma_if_blocks_model_at, lemma_if_blocks_model_len,
    lemma_impl_model, lemma_import_path_model, lemma_item_model, lemma_items_model_at,
    lemma_items_model_len, lemma_just_function_parameter_model,
    lemma_lambda_function_parameter_model, lemma_lambda_function_parameters_model_at,
    lemma_lambda_function_parameters_model_len, lemma_literal_model,
    lemma_match_expression_item_model, lemma_match_expression_items_model_at,
    lemma_match_expression_items_model_len, lemma_module_model, lemma_path_model,
    lemma_pattern_model, lemma_patterns_model_at, lemma_patterns_model_len,
    lemma_self_parameter_model, lemma_statement_model, lemma_statements_model_at,
    lemma_statements_model_len, lemma_struct_expression_item_model,
    lemma_struct_expression_items_model_at, lemma_struct_expression_items_model_len,
    lemma_struct_field_model, lemma_struct_field_pattern_model,
    lemma_struct_field_patterns_model_at, lemma_struct_field_patterns_model_len,
    lemma_struct_fields_model_at, lemma_struct_fields_model_len, lemma_trait_item_model,
    lemma_trait_items_model_at, lemma_trait_items_model_len, lemma_tuple_field_model,
    lemma_tuple_fields_model_at, lemma_tuple_fields_model_len, lemma_type_alias_model,
    lemma_type_model, lemma_type_path_model, lemma_type_path_segment_model,
    lemma_type_path_segments_model_at, lemma_type_path_segments_model_len,
    lemma_type_paths_model_at, lemma_type_paths_model_len, lemma_types_model_at,
    lemma_types_model_len, lemma_where_clause_item_model, lemma_where_clause_items_model_at,
    lemma_where_clause_items_model_len, literal_model, match_expression_item_model,
    match_expression_items_model, module_model, path_model, pattern_model, patterns_model,
    self_parameter_model, statement_model, statements_model, struct_expression_item_model,
    struct_expression_items_model, struct_field_model, struct_field_pattern_model,
    struct_field_patterns_model, struct_fields_model, trait_item_model, trait_items_model,
    tuple_field_model, tuple_fields_model, type_alias_model, type_model, type_path_model,
    type_path_segment_model, type_path_segments_model, type_paths_model, types_model,
    where_clause_item_model, where_clause_items_model,
};
use crate::rendering::{
    between, bool_text, deeper, digit_text, identifier_text, lemma_identifier_text,
    lemma_line_text, lemma_literal_text, lemma_node_text, lemma_number_text, lemma_pair_text,
    lemma_span_text, lemma_tabs_text, lemma_visibility_text, line_text, literal_text, node_text,
    number_text, pair_text, span_text, tabs_text, visibility_text, enum_item_text,
    enum_items_lines, enum_items_text, expression_text, expressions_lines, expressions_text,
    function_parameter_text, function_parameters_lines, function_parameters_text, function_text,
    generic_argument_text, generic_arguments_lines, generic_arguments_text, generic_parameter_text,
    generic_parameters_lines, generic_parameters_text, identifiers_lines, identifiers_text,
    if_block_text, if_blocks_lines, if_blocks_text, implementation_text, import_path_text,
    item_text, items_lines, items_text, just_function_parameter_text,
    lambda_function_parameter_text, lambda_function_parameters_lines,
    lambda_function_parameters_text, lemma_enum_item_text, lemma_enum_items_lines,
    lemma_enum_items_text, lemma_expression_text, lemma_expressions_lines, lemma_expressions_text,
    lemma_function_parameter_text, lemma_function_parameters_lines, lemma_function_parameters_text,
    lemma_function_text, lemma_generic_argument_text, lemma_generic_arguments_lines,
    lemma_generic_arguments_text, lemma_generic_parameter_text, lemma_generic_parameters_lines,
    lemma_generic_parameters_text, lemma_identifiers_lines, lemma_identifiers_text,
    lemma_if_block_text, lemma_if_blocks_lines, lemma_if_blocks_text, lemma_implementation_text,
    lemma_import_path_text, lemma_item_text, lemma_items_lines, lemma_items_text,
    lemma_just_function_parameter_text, lemma_lambda_function_parameter_text,
    lemma_lambda_function_parameters_lines, lemma_lambda_function_parameters_text,
    lemma_match_expression_item_text, lemma_match_expression_items_lines,
    lemma_match_expression_items_text, lemma_module_text, lemma_path_text, lemma_pattern_text,
    lemma_patterns_lines, lemma_patterns_text, lemma_self_parameter_text, lemma_statement_text,
    lemma_statements_lines, lemma_statements_text, lemma_struct_expression_item_text,
    lemma_struct_expression_items_lines, lemma_struct_expression_items_text,
    lemma_struct_field_pattern_text, lemma_struct_field_patterns_lines,
    lemma_struct_field_patterns_text, lemma_struct_field_text, lemma_struct_fields_lines,
    lemma_struct_fields_text, lemma_trait_item_text, lemma_trait_items_lines,
    lemma_trait_items_text, lemma_tuple_field_text, lemma_tuple_fields_lines,
    lemma_tuple_fields_text, lemma_type_alias_text, lemma_type_path_segment_text,
    lemma_type_path_segments_lines, lemma_type_path_segments_text, lemma_type_path_text,
    lemma_type_paths_lines, lemma_type_paths_text, lemma_type_text, lemma_types_lines,
    lemma_types_text, lemma_where_clause_item_text, lemma_where_clause_items_lines,
    lemma_where_clause_items_text, match_expression_item_text, match_expression_items_lines,
    match_expression_items_text, module_text, path_text, pattern_text, patterns_lines,
    patterns_text, self_parameter_text, statement_text, statements_lines, statements_text,
    struct_expression_item_text, struct_expression_items_lines, struct_expression_items_text,
    struct_field_pattern_text, struct_field_patterns_lines, struct_field_patterns_text,
    struct_field_text, struct_fields_lines, struct_fields_text, trait_item_text, trait_items_lines,
    trait_items_text, tuple_field_text, tuple_fields_lines, tuple_fields_text, type_alias_text,
    type_path_segment_text, type_path_segments_lines, type_path_segments_text, type_path_text,
    type_paths_lines, type_paths_text, type_text, types_lines, types_text, where_clause_item_text,
    where_clause_items_lines, where_clause_items_text,
};
use crate::span::Span;
use vstd::prelude::*;

verus! {

/// The indentation one level deeper than `indent`.
pub fn deeper_level(indent: usize) -> (r: usize)
    ensures
        r == deeper(indent as int),
{
    if indent < usize::MAX {
        indent + 1
    } else {
        indent
    }
}

/// `n` tabulators.
pub fn tabs_string(n: usize) -> (r: String)
    ensures
        r@ == tabs_text(n as int),
{
    let mut r = String::new();
    let mut i: usize = 0;
    proof {
        lemma_tabs_text(0);
    }
    while i < n
        invariant
            i <= n,
            r@ == tabs_text(i as int),
        decreases n - i,
    {
        proof {
            lemma_tabs_text(i + 1);
        }
        r.append("\t");
        i = i + 1;
    }
    r
}

/// A value on a line of its own at the indentation `indent`.
pub fn line_string(value: &str, indent: usize) -> (r: String)
    ensures
        r@ == line_text(value@, indent as int),
{
    proof {
        lemma_line_text(value@, indent as int);
    }
    let mut r = String::from_str("\n");
    r.append(tabs_string(indent).as_str());
    r.append(value);
    r
}

/// A key and its value on a line of their own at the indentation `indent`.
pub fn pair_string(key: &str, value: &str, indent: usize) -> (r: String)
    ensures
        r@ == pair_text(key@, value@, indent as int),
{
    proof {
        lemma_pair_text(key@, value@, indent as int);
    }
    let mut r = String::from_str("\n");
    r.append(tabs_string(indent).as_str());
    r.append(key);
    r.append(": ");
    r.append(value);
    r
}

/// The decimal digit that stands for `d`.
pub fn digit_str(d: u64) -> (r: &'static str)
    requires
        d < 10,
    ensures
        r@ == digit_text(d as int),
{
    if d == 0 {
        "0"
    } else if d == 1 {
        "1"
    } else if d == 2 {
        "2"
    } else if d == 3 {
        "3"
    } else if d == 4 {
        "4"
    } else if d == 5 {
        "5"
    } else if d == 6 {
        "6"
    } else if d == 7 {
        "7"
    } else if d == 8 {
        "8"
    } else {
        "9"
    }
}

/// The decimal digits of `n`, without leading zeros.
pub fn number_string(n: u64) -> (r: String)
    ensures
        r@ == number_text(n as int),
    decreases n,
{
    proof {
        lemma_number_text(n as int);
    }
    if n < 10 {
        String::from_str(digit_str(n))
    } else {
        let mut r = number_string(n / 10);
        r.append(digit_str(n % 10));
        r
    }
}

/// The text of a span.
pub fn span_string(span: Span) -> (r: String)
    ensures
        r@ == span_text(span),
{
    proof {
        lemma_span_text(span);
    }
    if span.is_dummy() {
        String::from_str("DUMMY")
    } else if span.start >= span.end {
        String::from_str("INVALID")
    } else {
        let mut r = number_string(span.start as u64);
        r.append("..");
        r.append(number_string(span.end as u64).as_str());
        r
    }
}

/// The span from the start of `a` to the end of `b`, in no file.
pub fn span_between(a: Span, b: Span) -> (r: Span)
    ensures
        r == between(a, b),
{
    Span { start: a.start, end: b.end, file_id: 0 }
}

/// The name of a node, `@` and its span.
pub fn node_string(name: &str, span: Span) -> (r: String)
    ensures
        r@ == node_text(name@, span),
{
    proof {
        lemma_node_text(name@, span);
    }
    let mut r = String::from_str(name);
    r.append("@");
    r.append(span_string(span).as_str());
    r
}

/// `TRUE` or `FALSE`.
pub fn bool_string(value: bool) -> (r: String)
    ensures
        r@ == bool_text(value),
{
    if value {
        String::from_str("TRUE")
    } else {
        String::from_str("FALSE")
    }
}

/// The text of a name: its characters between backticks, and its span.
pub fn serialize_identifier(x: IdentifierAst, interner: &Interner) -> (r: String)
    ensures
        r@ == identifier_text(x, interner@),
{
    proof {
        lemma_identifier_text(x, interner@);
    }
    let mut r = String::from_str("IDENTIFIER(`");
    match interner.resolve(x.symbol) {
        Some(name) => {
            r.append(name);
        },
        None => {
            r.append(String::new().as_str());
        },
    }
    r.append("`)@");
    r.append(span_string(x.span).as_str());
    r
}

/// The text of a visibility.
pub fn visibility_string(x: Visibility) -> (r: String)
    ensures
        r@ == visibility_text(x),
{
    proof {
        lemma_visibility_text(x);
    }
    match x.span_of_pub() {
        Some(span) => {
            let mut r = String::from_str("PUBLIC@");
            r.append(span_string(span).as_str());
            r
        },
        None => String::from_str("PRIVATE"),
    }
}

/// The text of an operator that `text` spells.
pub fn operator_string(text: &str, span: Span) -> (r: String)
    ensures
        r@ == text@ + "@"@ + span_text(span),
{
    let mut r = String::from_str(text);
    r.append("@");
    r.append(span_string(span).as_str());
    r
}

/// The text of a literal.
pub fn serialize_literal(x: &Literal) -> (r: String)
    ensures
        r@ == literal_text(literal_model(*x)),
{
    proof {
        lemma_literal_model(*x);
        lemma_literal_text(literal_model(*x));
    }
    match x {
        Literal::Boolean { value, span } => {
            let mut r = String::from_str("BOOLEAN_LITERAL(");
            r.append(bool_string(*value).as_str());
            r.append(")@");
            r.append(span_string(*span).as_str());
            r
        },
        Literal::Character { value, span } => {
            let mut r = String::from_str("CHARACTER_LITERAL(`");
            let mut shown = String::new();
            shown.push(*value);
            r.append(shown.as_str());
            r.append("`)@");
            r.append(span_string(*span).as_str());
            r
        },
        Literal::String { value, span } => {
            let mut r = String::from_str("STRING_LITERAL(`");
            r.append(value.as_str());
            r.append("`)@");
            r.append(span_string(*span).as_str());
            r
        },
        Literal::Integer { value, span } => {
            let mut r = String::from_str("INTEGER_LITERAL(");
            r.append(number_string(*value).as_str());
            r.append(")@");
            r.append(span_string(*span).as_str());
            r
        },
        Literal::Float { value, span } => {
            let mut r = String::from_str("FLOAT_LITERAL(");
            r.append(value.as_str());
            r.append(")@");
            r.append(span_string(*span).as_str());
            r
        },
    }
}

/// Writes a path as a text at the indentation `indent`.
pub fn serialize_path(x: &Path, interner: &Interner, indent: usize) -> (r: String)
    ensures
        r@ == path_text(path_model(*x), interner@, indent as int),
{
    proof {
        lemma_path_model(*x);
        lemma_path_text(path_model(*x), interner@, indent as int);
    }
    let deep = deeper_level(indent);
    let mut r = node_string("PATH", x.span);
    r.append(serialize_identifiers(&x.identifiers, interner, deep).as_str());
    r
}

/// Writes a type path as a text at the indentation `indent`.
pub fn serialize_type_path(x: &TypePath, interner: &Interner, indent: usize) -> (r: String)
    ensures
        r@ == type_path_text(type_path_model(*x), interner@, indent as int),
    decreases x,
{
    proof {
        lemma_type_path_model(*x);
        lemma_type_path_text(type_path_model(*x), interner@, indent as int);
    }
    let deep = deeper_level(indent);
    let mut r = node_string("TYPE_PATH", x.span);
    r.append(serialize_type_path_segments(&x.segments, interner, deep).as_str());
    r
}

/// Writes a type path segment as a text at the indentation `indent`.
pub fn serialize_type_path_segment(
    x: &TypePathSegment,
    interner: &Interner,
    indent: usize,
) -> (r: String)
    ensures
        r@ == type_path_segment_text(type_path_segment_model(*x), interner@, indent as int),
    decreases x,
{
    proof {
        lemma_type_path_segment_model(*x);
        lemma_type_path_segment_text(type_path_segment_model(*x), interner@, indent as int);
    }
    let deep = deeper_level(indent);
    let mut r = node_string("TYPE_PATH_SEGMENT", x.span);
    r.append(pair_string("PATH", serialize_path(&x.path, interner, deep).as_str(), deep).as_str());
    let piece = match &x.generic_arguments {
        Some(v) => pair_string(
            "GENERIC_ARGUMENTS",
            serialize_generic_arguments(v, interner, deep).as_str(),
            deep,
        ),
        None => String::new(),
    };
    r.append(piece.as_str());
    r
}

/// Writes a generic argument as a text at the indentation `indent`.
pub fn serialize_generic_argument(
    x: &GenericArgument,
    interner: &Interner,
    indent: usize,
) -> (r: String)
    ensures
        r@ == generic_argument_text(generic_argument_model(*x), interner@, indent as int),
    decreases x,
{
    proof {
        lemma_generic_argument_model(*x);
        lemma_generic_argument_text(generic_argument_model(*x), interner@, indent as int);
    }
    let deep = deeper_level(indent);
    match x {
        GenericArgument::Type(a) => {
                let mut r = node_string("GENERIC_ARGUMENT", a.span());
            r.append(
                pair_string("TYPE", serialize_type(a, interner, deep).as_str(), deep).as_str()
            );
                r
        },
        GenericArgument::AssociatedType { name, value } => {
                let mut r = node_string(
                    "NAMED_GENERIC_ARGUMENT",
                    span_between(name.span, value.span()),
                );
            r.append(
                pair_string("NAME", serialize_identifier(*name, interner).as_str(), deep).as_str()
            );
            r.append(
                pair_string("VALUE", serialize_type(value, interner, deep).as_str(), deep).as_str()
            );
                r
        },
    }
}

/// Writes a type as a text at the indentation `indent`.
pub fn serialize_type(x: &Type, interner: &Interner, indent: usize) -> (r: String)
    ensures
        r@ == type_text(type_model(*x), interner@, indent as int),
    decreases x,
{
    proof {
        lemma_type_model(*x);
        lemma_type_text(type_model(*x), interner@, indent as int);
    }
    let deep = deeper_level(indent);
    match x {
        Type::Path(a) => serialize_type_path(a, interner, indent),
        Type::Tuple { span, element_types } => {
                let mut r = node_string("TUPLE_TYPE", *span);
            r.append(
                pair_string(
                    "ELEMENT_TYPES",
                    serialize_types(element_types, interner, deep).as_str(),
                    deep,
                ).as_str()
            );
                r
        },
        Type::Function { span, parameter_types, return_type } => {
                let mut r = node_string("FUNCTION_TYPE", *span);
            r.append(
                pair_string(
                    "PARAMETER_TYPES",
                    serialize_types(parameter_types, interner, deep).as_str(),
                    deep,
                ).as_str()
            );
            r.append(
                pair_string(
                    "RETURN_TYPE",
                    serialize_type(return_type, interner, deep).as_str(),
                    deep,
                ).as_str()
            );
                r
        },
        Type::Parenthesized { span, inner } => {
                let mut r = node_string("PARENTHESIZED_TYPE", *span);
            r.append(
                pair_string("TYPE", serialize_type(inner, interner, deep).as_str(), deep).as_str()
            );
                r
        },
        Type::TraitObject { span, bounds } => {
                let mut r = node_string("TRAIT_OBJECT_TYPE", *span);
            r.append(
                pair_string(
                    "BOUNDS",
                    serialize_type_paths(bounds, interner, deep).as_str(),
                    deep,
                ).as_str()
            );
                r
        },
        Type::WithQualifiedPath { span, left, right, segments } => {
                let mut r = node_string("TYPE_WITH_QUALIFIED_PATH", *span);
            r.append(
                pair_string("LEFT", serialize_type(left, interner, deep).as_str(), deep).as_str()
            );
            r.append(
                pair_string(
                    "RIGHT",
                    serialize_type_path(right, interner, deep).as_str(),
                    deep,
                ).as_str()
            );
            r.append(
                pair_string(
                    "SEGMENTS",
                    serialize_type_path_segments(segments, interner, deep).as_str(),
                    deep,
                ).as_str()
            );
                r
        },
    }
}

/// Writes a generic parameter as a text at the indentation `indent`.
pub fn serialize_generic_parameter(
    x: &GenericParameter,
    interner: &Interner,
    indent: usize,
) -> (r: String)
    ensures
        r@ == generic_parameter_text(generic_parameter_model(*x), interner@, indent as int),
{
    proof {
        lemma_generic_parameter_model(*x);
        lemma_generic_parameter_text(generic_parameter_model(*x), interner@, indent as int);
    }
    let deep = deeper_level(indent);
    let mut r = String::from_str("GENERIC_PARAMETER");
    r.append(pair_string("NAME", serialize_identifier(x.name, interner).as_str(), deep).as_str());
    let piece = match &x.bounds {
        Some(v) => pair_string("BOUNDS", serialize_type_paths(v, interner, deep).as_str(), deep),
        None => String::new(),
    };
    r.append(piece.as_str());
    let piece = match &x.default_value {
        Some(v) => pair_string("DEFAULT", serialize_type(v, interner, deep).as_str(), deep),
        None => String::new(),
    };
    r.append(piece.as_str());
    r
}

/// Writes a where clause item as a text at the indentation `indent`.
pub fn serialize_where_clause_item(
    x: &WhereClauseItem,
    interner: &Interner,
    indent: usize,
) -> (r: String)
    ensures
        r@ == where_clause_item_text(where_clause_item_model(*x), interner@, indent as int),
{
    proof {
        lemma_where_clause_item_model(*x);
        lemma_where_clause_item_text(where_clause_item_model(*x), interner@, indent as int);
    }
    let deep = deeper_level(indent);
    match x {
        WhereClauseItem::Eq { left, right } => {
                let mut r = String::from_str("WHERE_CLAUSE_ITEM_EQ");
            r.append(
                pair_string("LEFT", serialize_type(left, interner, deep).as_str(), deep).as_str()
            );
            r.append(
                pair_string("RIGHT", serialize_type(right, interner, deep).as_str(), deep).as_str()
            );
                r
        },
        WhereClauseItem::Satisfies { ty, bounds } => {
                let mut r = String::from_str("WHERE_CLAUSE_ITEM_SATISFIES");
            r.append(
                pair_string("TYPE", serialize_type(ty, interner, deep).as_str(), deep).as_str()
            );
            r.append(
                pair_string(
                    "BOUNDS",
                    serialize_type_paths(bounds, interner, deep).as_str(),
                    deep,
                ).as_str()
            );
                r
        },
    }
}

/// Writes a struct field pattern as a text at the indentation `indent`.
pub fn serialize_struct_field_pattern(
    x: &StructFieldPattern,
    interner: &Interner,
    indent: usize,
) -> (r: String)
    ensures
        r@ == struct_field_pattern_text(struct_field_pattern_model(*x), interner@, indent as int),
    decreases x,
{
    proof {
        lemma_struct_field_pattern_model(*x);
        lemma_struct_field_pattern_text(struct_field_pattern_model(*x), interner@, indent as int);
    }
    let deep = deeper_level(indent);
    match x {
        StructFieldPattern::NotRest { span, field_name, value_pattern } => {
                let mut r = node_string("STRUCT_FIELD_PATTERN", *span);
            r.append(
                pair_string(
                    "FIELD_NAME",
                    serialize_identifier(*field_name, interner).as_str(),
                    deep,
                ).as_str()
            );
            let piece = match value_pattern {
                Some(v) => pair_string(
                    "VALUE_PATTERN",
                    serialize_pattern(v, interner, deep).as_str(),
                    deep,
                ),
                None => String::new(),
            };
            r.append(piece.as_str());
                r
        },
        StructFieldPattern::Rest { span } => {
                let mut r = node_string("REST_STRUCT_FIELD_PATTERN", *span);
                r
        },
    }
}

/// Writes a pattern as a text at the indentation `indent`.
pub fn serialize_pattern(x: &Pattern, interner: &Interner, indent: usize) -> (r: String)
    ensures
        r@ == pattern_text(pattern_model(*x), interner@, indent as int),
    decreases x,
{
    proof {
        lemma_pattern_model(*x);
        lemma_pattern_text(pattern_model(*x), interner@, indent as int);
    }
    let deep = deeper_level(indent);
    match x {
        Pattern::Literal(a) => serialize_literal(a),
        Pattern::Identifier { span, identifier, pattern } => {
                let mut r = node_string("IDENTIFIER_PATTERN", *span);
            r.append(
                pair_string(
                    "IDENTIFIER",
                    serialize_identifier(*identifier, interner).as_str(),
                    deep,
                ).as_str()
            );
            let piece = match pattern {
                Some(v) => pair_string(
                    "PATTERN",
                    serialize_pattern(v, interner, deep).as_str(),
                    deep,
                ),
                None => String::new(),
            };
            r.append(piece.as_str());
                r
        },
        Pattern::Struct { span, path, fields } => {
                let mut r = node_string("STRUCT_PATTERN", *span);
            r.append(
                pair_string(
                    "STRUCT_PATH",
                    serialize_path(path, interner, deep).as_str(),
                    deep,
                ).as_str()
            );
            r.append(
                pair_string(
                    "FIELDS",
                    serialize_struct_field_patterns(fields, interner, deep).as_str(),
                    deep,
                ).as_str()
            );
                r
        },
        Pattern::TupleLike { span, path, inner_patterns } => {
                let mut r = node_string("TUPLE_PATTERN", *span);
            r.append(
                pair_string("PATH", serialize_path(path, interner, deep).as_str(), deep).as_str()
            );
            r.append(
                pair_string(
                    "INNER_PATTERNS",
                    serialize_patterns(inner_patterns, interner, deep).as_str(),
                    deep,
                ).as_str()
            );
                r
        },
        Pattern::Tuple { span, elements } => {
                let mut r = node_string("TUPLE_PATTERN", *span);
            r.append(
                pair_string(
                    "ELEMENTS",
                    serialize_patterns(elements, interner, deep).as_str(),
                    deep,
                ).as_str()
            );
                r
        },
        Pattern::Path { span, path } => {
                let mut r = node_string("PATH_PATTERN", *span);
            r.append(
                pair_string("PATH", serialize_path(path, interner, deep).as_str(), deep).as_str()
            );
                r
        },
        Pattern::List { span, inner_patterns } => {
                let mut r = node_string("LIST_PATTERN", *span);
            r.append(
                pair_string(
                    "INNER_PATTERNS",
                    serialize_patterns(inner_patterns, interner, deep).as_str(),
                    deep,
                ).as_str()
            );
                r
        },
        Pattern::Grouped { span, inner } => {
                let mut r = node_string("GROUPED_PATTERN", *span);
            r.append(
                pair_string(
                    "INNER_PATTERN",
                    serialize_pattern(inner, interner, deep).as_str(),
                    deep,
                ).as_str()
            );
                r
        },
        Pattern::Or { span, left, right } => {
                let mut r = node_string("OR_PATTERN", *span);
            r.append(
                pair_string("LEFT", serialize_pattern(left, interner, deep).as_str(), deep).as_str()
            );
            r.append(
                pair_string(
                    "RIGHT",
                    serialize_pattern(right, interner, deep).as_str(),
                    deep,
                ).as_str()
            );
                r
        },
        Pattern::Rest { span } => {
                let mut r = node_string("REST_PATTERN", *span);
                r
        },
    }
}

/// Writes an expression as a text at the indentation `indent`.
pub fn serialize_expression(x: &Expression, interner: &Interner, indent: usize) -> (r: String)
    ensures
        r@ == expression_text(expression_model(*x), interner@, indent as int),
    decreases x,
{
    proof {
        lemma_expression_model(*x);
        lemma_expression_text(expression_model(*x), interner@, indent as int);
    }
    let deep = deeper_level(indent);
    match x {
        Expression::List { span, elements } => {
                let mut r = node_string("LIST_EXPRESSION", *span);
            r.append(
                pair_string(
                    "ELEMENTS",
                    serialize_expressions(elements, interner, deep).as_str(),
                    deep,
                ).as_str()
            );
                r
        },
        Expression::As { span, left, right } => {
                let mut r = node_string("CAST_EXPRESSION", *span);
            r.append(
                pair_string(
                    "LEFT",
                    serialize_expression(left, interner, deep).as_str(),
                    deep,
                ).as_str()
            );
            r.append(
                pair_string("RIGHT", serialize_type(right, interner, deep).as_str(), deep).as_str()
            );
                r
        },
        Expression::Binary { span, left, operator, right } => {
                let mut r = node_string("BINARY_EXPRESSION", *span);
            r.append(
                pair_string(
                    "LEFT",
                    serialize_expression(left, interner, deep).as_str(),
                    deep,
                ).as_str()
            );
            r.append(
                pair_string(
                    "OPERATOR",
                    operator_string(operator.raw.as_str(), operator.span).as_str(),
                    deep,
                ).as_str()
            );
            r.append(
                pair_string(
                    "RIGHT",
                    serialize_expression(right, interner, deep).as_str(),
                    deep,
                ).as_str()
            );
                r
        },
        Expression::StatementsBlock { span, block } => {
                let mut r = node_string("BLOCK_EXPRESSION", *span);
            r.append(
                pair_string(
                    "STATEMENTS_BLOCK",
                    serialize_statements(block, interner, deep).as_str(),
                    deep,
                ).as_str()
            );
                r
        },
        Expression::Literal(a) => serialize_literal(a),
        Expression::Identifier(a) => serialize_identifier(*a, interner),
        Expression::Parenthesized { span, inner } => {
                let mut r = node_string("PARENTHESIZED_EXPRESSION", *span);
            r.append(
                pair_string(
                    "INNER",
                    serialize_expression(inner, interner, deep).as_str(),
                    deep,
                ).as_str()
            );
                r
        },
        Expression::If { span, if_blocks, otherwise } => {
                let mut r = node_string("IF_EXPRESSION", *span);
            r.append(
                pair_string(
                    "IF_BLOCKS",
                    serialize_if_blocks(if_blocks, interner, deep).as_str(),
                    deep,
                ).as_str()
            );
            let piece = match otherwise {
                Some(v) => pair_string(
                    "ELSE_BLOCK",
                    serialize_statements(v, interner, deep).as_str(),
                    deep,
                ),
                None => String::new(),
            };
            r.append(piece.as_str());
                r
        },
        Expression::FieldAccess { span, left, right } => {
                let mut r = node_string("FIELD_ACCESS_EXPRESSION", *span);
            r.append(
                pair_string(
                    "LEFT",
                    serialize_expression(left, interner, deep).as_str(),
                    deep,
                ).as_str()
            );
            r.append(
                pair_string("RIGHT", serialize_identifier(*right, interner).as_str(), deep).as_str()
            );
                r
        },
        Expression::Prefix { span, inner, operator } => {
                let mut r = node_string("PREFIX_EXPRESSION", *span);
            r.append(
                pair_string(
                    "OPERATOR",
                    operator_string(operator.raw.as_str(), operator.span).as_str(),
                    deep,
                ).as_str()
            );
            r.append(
                pair_string(
                    "INNER",
                    serialize_expression(inner, interner, deep).as_str(),
                    deep,
                ).as_str()
            );
                r
        },
        Expression::Postfix { span, inner, operator } => {
                let mut r = node_string("POSTFIX_EXPRESSION", *span);
            r.append(
                pair_string(
                    "LEFT",
                    serialize_expression(inner, interner, deep).as_str(),
                    deep,
                ).as_str()
            );
            r.append(
                pair_string(
                    "OPERATOR",
                    operator_string(operator.raw.as_str(), operator.span).as_str(),
                    deep,
                ).as_str()
            );
                r
        },
        Expression::While { span, condition, body } => {
                let mut r = node_string("WHILE_EXPRESSION", *span);
            r.append(
                pair_string(
                    "CONDITION",
                    serialize_expression(condition, interner, deep).as_str(),
                    deep,
                ).as_str()
            );
            r.append(
                pair_string(
                    "BODY_STATEMENTS_BLOCK",
                    serialize_statements(body, interner, deep).as_str(),
                    deep,
                ).as_str()
            );
                r
        },
        Expression::Call { span, left, arguments } => {
                let mut r = node_string("CALL_EXPRESSION", *span);
            r.append(
                pair_string(
                    "LEFT",
                    serialize_expression(left, interner, deep).as_str(),
                    deep,
                ).as_str()
            );
            r.append(
                pair_string(
                    "ARGUMENTS",
                    serialize_expressions(arguments, interner, deep).as_str(),
                    deep,
                ).as_str()
            );
                r
        },
        Expression::GenericArguments { span, left, generic_arguments } => {
                let mut r = node_string("GENERIC_ARGUMENTS", *span);
            r.append(
                pair_string(
                    "LEFT",
                    serialize_expression(left, interner, deep).as_str(),
                    deep,
                ).as_str()
            );
            r.append(
                pair_string(
                    "GENERIC_ARGUMENTS",
                    serialize_generic_arguments(generic_arguments, interner, deep).as_str(),
                    deep,
                ).as_str()
            );
                r
        },
        Expression::Tuple { span, elements } => {
                let mut r = node_string("TUPLE_EXPRESSION", *span);
            r.append(
                pair_string(
                    "ELEMENTS",
                    serialize_expressions(elements, interner, deep).as_str(),
                    deep,
                ).as_str()
            );
                r
        },
        Expression::Struct { span, left, fields } => {
                let mut r = node_string("STRUCT_EXPRESSION", *span);
            r.append(
                pair_string(
                    "LEFT",
                    serialize_expression(left, interner, deep).as_str(),
                    deep,
                ).as_str()
            );
            r.append(
                pair_string(
                    "FIELDS",
                    serialize_struct_expression_items(fields, interner, deep).as_str(),
                    deep,
                ).as_str()
            );
                r
        },
        Expression::Match { span, expression, block } => {
                let mut r = node_string("MATCH_EXPRESSION", *span);
            r.append(
                pair_string(
                    "EXPRESSION",
                    serialize_expression(expression, interner, deep).as_str(),
                    deep,
                ).as_str()
            );
            r.append(
                pair_string(
                    "BLOCK",
                    serialize_match_expression_items(block, interner, deep).as_str(),
                    deep,
                ).as_str()
            );
                r
        },
        Expression::Lambda { span, parameters, return_type, block } => {
                let mut r = node_string("FUNCTION_EXPRESSION", *span);
            r.append(
                pair_string(
                    "PARAMETERS",
                    serialize_lambda_function_parameters(parameters, interner, deep).as_str(),
                    deep,
                ).as_str()
            );
            let piece = match return_type {
                Some(v) => pair_string(
                    "RETURN_TYPE",
                    serialize_type(v, interner, deep).as_str(),
                    deep,
                ),
                None => String::new(),
            };
            r.append(piece.as_str());
            r.append(
                pair_string(
                    "STATEMENTS_BLOCK",
                    serialize_statements(block, interner, deep).as_str(),
                    deep,
                ).as_str()
            );
                r
        },
    }
}

/// Writes an if block as a text at the indentation `indent`.
pub fn serialize_if_block(
    x: &(Expression, Vec<Statement>),
    interner: &Interner,
    indent: usize,
) -> (r: String)
    ensures
        r@ == if_block_text(
            (expression_model(x.0), statements_model(x.1@)),
            interner@,
            indent as int,
        ),
    decreases x,
{
    proof {
        
        lemma_if_block_text(
            (expression_model(x.0), statements_model(x.1@)),
            interner@,
            indent as int,
        );
    }
    let deep = deeper_level(indent);
    let mut r = String::from_str("ELSE_IF_NODE");
    r.append(
        pair_string("CONDITION", serialize_expression(&x.0, interner, deep).as_str(), deep).as_str()
    );
    r.append(
        pair_string(
            "STATEMENTS_BLOCK",
            serialize_statements(&x.1, interner, deep).as_str(),
            deep,
        ).as_str()
    );
    r
}

/// Writes a lambda function parameter as a text at the indentation `indent`.
pub fn serialize_lambda_function_parameter(
    x: &LambdaFunctionParameter,
    interner: &Interner,
    indent: usize,
) -> (r: String)
    ensures
        r@ == lambda_function_parameter_text(
            lambda_function_parameter_model(*x),
            interner@,
            indent as int,
        ),
{
    proof {
        lemma_lambda_function_parameter_model(*x);
        lemma_lambda_function_parameter_text(
            lambda_function_parameter_model(*x),
            interner@,
            indent as int,
        );
    }
    let deep = deeper_level(indent);
    let mut r = String::from_str("FUNCTION_PARAMETER");
    r.append(pair_string("NAME", serialize_identifier(x.name, interner).as_str(), deep).as_str());
    let piece = match &x.ty {
        Some(v) => pair_string("TYPE", serialize_type(v, interner, deep).as_str(), deep),
        None => String::new(),
    };
    r.append(piece.as_str());
    r
}

/// Writes a match expression item as a text at the indentation `indent`.
pub fn serialize_match_expression_item(
    x: &MatchExpressionItem,
    interner: &Interner,
    indent: usize,
) -> (r: String)
    ensures
        r@ == match_expression_item_text(match_expression_item_model(*x), interner@, indent as int),
    decreases x,
{
    proof {
        lemma_match_expression_item_model(*x);
        lemma_match_expression_item_text(match_expression_item_model(*x), interner@, indent as int);
    }
    let deep = deeper_level(indent);
    let mut r = String::from_str("MATCH_EXPRESSION_ITEM");
    r.append(
        pair_string("PATTERN", serialize_pattern(&x.left, interner, deep).as_str(), deep).as_str()
    );
    r.append(
        pair_string(
            "EXPRESSION",
            serialize_expression(&x.right, interner, deep).as_str(),
            deep,
        ).as_str()
    );
    r
}

/// Writes a struct expression item as a text at the indentation `indent`.
pub fn serialize_struct_expression_item(
    x: &StructExpressionItem,
    interner: &Interner,
    indent: usize,
) -> (r: String)
    ensures
        r@ == struct_expression_item_text(
            struct_expression_item_model(*x),
            interner@,
            indent as int,
        ),
    decreases x,
{
    proof {
        lemma_struct_expression_item_model(*x);
        lemma_struct_expression_item_text(
            struct_expression_item_model(*x),
            interner@,
            indent as int,
        );
    }
    let deep = deeper_level(indent);
    let mut r = String::from_str("STRUCT_EXPRESSION_ITEM");
    r.append(
        pair_string("FIELD_NAME", serialize_identifier(x.name, interner).as_str(), deep).as_str()
    );
    let piece = match &x.value {
        Some(v) => pair_string("VALUE", serialize_expression(v, interner, deep).as_str(), deep),
        None => String::new(),
    };
    r.append(piece.as_str());
    r
}

/// Writes a statement as a text at the indentation `indent`.
pub fn serialize_statement(x: &Statement, interner: &Interner, indent: usize) -> (r: String)
    ensures
        r@ == statement_text(statement_model(*x), interner@, indent as int),
    decreases x,
{
    proof {
        lemma_statement_model(*x);
        lemma_statement_text(statement_model(*x), interner@, indent as int);
    }
    let deep = deeper_level(indent);
    match x {
        Statement::Defer { call } => {
                let mut r = String::from_str("DEFER_STATEMENT");
            r.append(
                pair_string(
                    "CALL",
                    serialize_expression(call, interner, deep).as_str(),
                    deep,
                ).as_str()
            );
                r
        },
        Statement::Expression { expression, has_semicolon } => {
                let mut r = String::from_str("EXPRESSION_STATEMENT");
            r.append(
                pair_string(
                    "EXPRESSION",
                    serialize_expression(expression, interner, deep).as_str(),
                    deep,
                ).as_str()
            );
            r.append(
                pair_string("HAS_SEMICOLON", bool_string(*has_semicolon).as_str(), deep).as_str()
            );
                r
        },
        Statement::Break { span } => {
                let mut r = node_string("BREAK_STATEMENT", *span);
                r
        },
        Statement::Continue { span } => {
                let mut r = node_string("CONTINUE_STATEMENT", *span);
                r
        },
        Statement::Return { expression } => {
                let mut r = String::from_str("RETURN_STATEMENT");
            r.append(
                pair_string(
                    "EXPRESSION",
                    serialize_expression(expression, interner, deep).as_str(),
                    deep,
                ).as_str()
            );
                r
        },
        Statement::Let { pattern, value, ty } => {
                let mut r = String::from_str("LET_STATEMENT");
            r.append(
                pair_string(
                    "PATTERN",
                    serialize_pattern(pattern, interner, deep).as_str(),
                    deep,
                ).as_str()
            );
            r.append(
                pair_string(
                    "VALUE",
                    serialize_expression(value, interner, deep).as_str(),
                    deep,
                ).as_str()
            );
            let piece = match ty {
                Some(v) => pair_string("TYPE", serialize_type(v, interner, deep).as_str(), deep),
                None => String::new(),
            };
            r.append(piece.as_str());
                r
        },
    }
}

/// Writes a tuple field as a text at the indentation `indent`.
pub fn serialize_tuple_field(x: &TupleField, interner: &Interner, indent: usize) -> (r: String)
    ensures
        r@ == tuple_field_text(tuple_field_model(*x), interner@, indent as int),
{
    proof {
        lemma_tuple_field_model(*x);
        lemma_tuple_field_text(tuple_field_model(*x), interner@, indent as int);
    }
    let deep = deeper_level(indent);
    let mut r = String::from_str("TUPLE_FIELD");
    r.append(pair_string("VISIBILITY", visibility_string(x.visibility).as_str(), deep).as_str());
    r.append(pair_string("TYPE", serialize_type(&x.ty, interner, deep).as_str(), deep).as_str());
    r
}

/// Writes a struct field as a text at the indentation `indent`.
pub fn serialize_struct_field(x: &StructField, interner: &Interner, indent: usize) -> (r: String)
    ensures
        r@ == struct_field_text(struct_field_model(*x), interner@, indent as int),
{
    proof {
        lemma_struct_field_model(*x);
        lemma_struct_field_text(struct_field_model(*x), interner@, indent as int);
    }
    let deep = deeper_level(indent);
    let mut r = String::from_str("STRUCT_FIELD");
    r.append(pair_string("VISIBILITY", visibility_string(x.visibility).as_str(), deep).as_str());
    r.append(pair_string("NAME", serialize_identifier(x.name, interner).as_str(), deep).as_str());
    r.append(pair_string("TYPE", serialize_type(&x.ty, interner, deep).as_str(), deep).as_str());
    r
}

/// Writes an enum item as a text at the indentation `indent`.
pub fn serialize_enum_item(x: &EnumItem, interner: &Interner, indent: usize) -> (r: String)
    ensures
        r@ == enum_item_text(enum_item_model(*x), interner@, indent as int),
{
    proof {
        lemma_enum_item_model(*x);
        lemma_enum_item_text(enum_item_model(*x), interner@, indent as int);
    }
    let deep = deeper_level(indent);
    match x {
        EnumItem::Just { name, .. } => {
                let mut r = String::from_str("EMPTY_ENUM_ITEM");
            r.append(
                pair_string(
                    "ITEM_NAME",
                    serialize_identifier(*name, interner).as_str(),
                    deep,
                ).as_str()
            );
                r
        },
        EnumItem::Tuple { name, fields, .. } => {
                let mut r = String::from_str("TUPLE_ENUM_ITEM");
            r.append(
                pair_string("NAME", serialize_identifier(*name, interner).as_str(), deep).as_str()
            );
            r.append(
                pair_string(
                    "FIELDS",
                    serialize_tuple_fields(fields, interner, deep).as_str(),
                    deep,
                ).as_str()
            );
                r
        },
        EnumItem::Struct { name, fields, .. } => {
                let mut r = String::from_str("STRUCT_ENUM_ITEM");
            r.append(
                pair_string("NAME", serialize_identifier(*name, interner).as_str(), deep).as_str()
            );
            r.append(
                pair_string(
                    "FIELDS",
                    serialize_struct_fields(fields, interner, deep).as_str(),
                    deep,
                ).as_str()
            );
                r
        },
    }
}

/// Writes a self parameter as a text at the indentation `indent`.
pub fn serialize_self_parameter(
    x: &SelfParameter,
    interner: &Interner,
    indent: usize,
) -> (r: String)
    ensures
        r@ == self_parameter_text(self_parameter_model(*x), interner@, indent as int),
{
    proof {
        lemma_self_parameter_model(*x);
        lemma_self_parameter_text(self_parameter_model(*x), interner@, indent as int);
    }
    let deep = deeper_level(indent);
    let mut r = String::from_str("SELF_PARAMETER");
    r.append(pair_string("SELF_SPAN", span_string(x.self_span).as_str(), deep).as_str());
    let piece = match &x.ty {
        Some(v) => pair_string("TYPE", serialize_type(v, interner, deep).as_str(), deep),
        None => String::new(),
    };
    r.append(piece.as_str());
    r
}

/// Writes a just function parameter as a text at the indentation `indent`.
pub fn serialize_just_function_parameter(
    x: &JustFunctionParameter,
    interner: &Interner,
    indent: usize,
) -> (r: String)
    ensures
        r@ == just_function_parameter_text(
            just_function_parameter_model(*x),
            interner@,
            indent as int,
        ),
{
    proof {
        lemma_just_function_parameter_model(*x);
        lemma_just_function_parameter_text(
            just_function_parameter_model(*x),
            interner@,
            indent as int,
        );
    }
    let deep = deeper_level(indent);
    let mut r = String::from_str("FUNCTION_PARAMETER");
    r.append(pair_string("NAME", serialize_identifier(x.name, interner).as_str(), deep).as_str());
    r.append(pair_string("TYPE", serialize_type(&x.ty, interner, deep).as_str(), deep).as_str());
    r
}

/// Writes a function parameter as a text at the indentation `indent`.
pub fn serialize_function_parameter(
    x: &FunctionParameter,
    interner: &Interner,
    indent: usize,
) -> (r: String)
    ensures
        r@ == function_parameter_text(function_parameter_model(*x), interner@, indent as int),
{
    proof {
        lemma_function_parameter_model(*x);
        lemma_function_parameter_text(function_parameter_model(*x), interner@, indent as int);
    }
    let deep = deeper_level(indent);
    match x {
        FunctionParameter::Just(a) => serialize_just_function_parameter(a, interner, indent),
        FunctionParameter::Self_(a) => serialize_self_parameter(a, interner, indent),
    }
}

/// Writes a function as a text at the indentation `indent`.
pub fn serialize_function(x: &Function, interner: &Interner, indent: usize) -> (r: String)
    ensures
        r@ == function_text(function_model(*x), interner@, indent as int),
{
    proof {
        lemma_function_model(*x);
        lemma_function_text(function_model(*x), interner@, indent as int);
    }
    let deep = deeper_level(indent);
    let mut r = String::from_str("FUNCTION");
    r.append(pair_string("VISIBILITY", visibility_string(x.visibility).as_str(), deep).as_str());
    r.append(pair_string("NAME", serialize_identifier(x.name, interner).as_str(), deep).as_str());
    let piece = match &x.generic_parameters {
        Some(v) => pair_string(
            "GENERIC_PARAMETERS",
            serialize_generic_parameters(v, interner, deep).as_str(),
            deep,
        ),
        None => String::new(),
    };
    r.append(piece.as_str());
    r.append(
        pair_string(
            "PARAMETERS",
            serialize_function_parameters(&x.parameters, interner, deep).as_str(),
            deep,
        ).as_str()
    );
    let piece = match &x.return_type {
        Some(v) => pair_string("RETURN_TYPE", serialize_type(v, interner, deep).as_str(), deep),
        None => String::new(),
    };
    r.append(piece.as_str());
    let piece = match &x.where_clause {
        Some(v) => pair_string(
            "WHERE_CLAUSE",
            serialize_where_clause_items(v, interner, deep).as_str(),
            deep,
        ),
        None => String::new(),
    };
    r.append(piece.as_str());
    let piece = match &x.body {
        Some(v) => pair_string("BODY", serialize_statements(v, interner, deep).as_str(), deep),
        None => String::new(),
    };
    r.append(piece.as_str());
    r
}

/// Writes a type alias as a text at the indentation `indent`.
pub fn serialize_type_alias(x: &TypeAlias, interner: &Interner, indent: usize) -> (r: String)
    ensures
        r@ == type_alias_text(type_alias_model(*x), interner@, indent as int),
{
    proof {
        lemma_type_alias_model(*x);
        lemma_type_alias_text(type_alias_model(*x), interner@, indent as int);
    }
    let deep = deeper_level(indent);
    let mut r = String::from_str("TYPE_ALIAS");
    r.append(pair_string("NAME", serialize_identifier(x.name, interner).as_str(), deep).as_str());
    let piece = match &x.generic_parameters {
        Some(v) => pair_string(
            "GENERIC_PARAMETERS",
            serialize_generic_parameters(v, interner, deep).as_str(),
            deep,
        ),
        None => String::new(),
    };
    r.append(piece.as_str());
    let piece = match &x.bounds {
        Some(v) => pair_string("BOUNDS", serialize_type_paths(v, interner, deep).as_str(), deep),
        None => String::new(),
    };
    r.append(piece.as_str());
    let piece = match &x.value {
        Some(v) => pair_string("VALUE", serialize_type(v, interner, deep).as_str(), deep),
        None => String::new(),
    };
    r.append(piece.as_str());
    r
}

/// Writes a trait item as a text at the indentation `indent`.
pub fn serialize_trait_item(x: &TraitItem, interner: &Interner, indent: usize) -> (r: String)
    ensures
        r@ == trait_item_text(trait_item_model(*x), interner@, indent as int),
{
    proof {
        lemma_trait_item_model(*x);
        lemma_trait_item_text(trait_item_model(*x), interner@, indent as int);
    }
    let deep = deeper_level(indent);
    match x {
        TraitItem::TypeAlias(a) => serialize_type_alias(a, interner, indent),
        TraitItem::AssociatedFunction(a) => serialize_function(a, interner, indent),
    }
}

/// Writes an import path as a text at the indentation `indent`.
pub fn serialize_import_path(x: &ImportPath, interner: &Interner, indent: usize) -> (r: String)
    ensures
        r@ == import_path_text(import_path_model(*x), interner@, indent as int),
{
    proof {
        lemma_import_path_model(*x);
        lemma_import_path_text(import_path_model(*x), interner@, indent as int);
    }
    let deep = deeper_level(indent);
    let mut r = String::from_str("IMPORT_PATH");
    r.append(pair_string("PATH", serialize_path(&x.left, interner, deep).as_str(), deep).as_str());
    let piece = match &x.alias {
        Some(v) => pair_string("AS", serialize_identifier(*v, interner).as_str(), deep),
        None => String::new(),
    };
    r.append(piece.as_str());
    r
}

/// Writes an implementation as a text at the indentation `indent`.
pub fn serialize_implementation(x: &Impl, interner: &Interner, indent: usize) -> (r: String)
    ensures
        r@ == implementation_text(impl_model(*x), interner@, indent as int),
{
    proof {
        lemma_impl_model(*x);
        lemma_implementation_text(impl_model(*x), interner@, indent as int);
    }
    let deep = deeper_level(indent);
    let mut r = String::from_str("IMPL");
    let piece = match &x.generic_parameters {
        Some(v) => pair_string(
            "GENERIC_PARAMETERS",
            serialize_generic_parameters(v, interner, deep).as_str(),
            deep,
        ),
        None => String::new(),
    };
    r.append(piece.as_str());
    r.append(pair_string("TYPE", serialize_type(&x.ty, interner, deep).as_str(), deep).as_str());
    let piece = match &x.implemented_trait {
        Some(v) => pair_string("TRAIT", serialize_type(v, interner, deep).as_str(), deep),
        None => String::new(),
    };
    r.append(piece.as_str());
    let piece = match &x.where_clause {
        Some(v) => pair_string(
            "WHERE_CLAUSE",
            serialize_where_clause_items(v, interner, deep).as_str(),
            deep,
        ),
        None => String::new(),
    };
    r.append(piece.as_str());
    r.append(
        pair_string(
            "ITEMS",
            serialize_trait_items(&x.items, interner, deep).as_str(),
            deep,
        ).as_str()
    );
    r
}

/// Writes an item as a text at the indentation `indent`.
pub fn serialize_item(x: &Item, interner: &Interner, indent: usize) -> (r: String)
    ensures
        r@ == item_text(item_model(*x), interner@, indent as int),
{
    proof {
        lemma_item_model(*x);
        lemma_item_text(item_model(*x), interner@, indent as int);
    }
    let deep = deeper_level(indent);
    match x {
        Item::Enum { visibility, name, generic_parameters, where_clause, items, .. } => {
                let mut r = String::from_str("ENUM");
            r.append(
                pair_string("VISIBILITY", visibility_string(*visibility).as_str(), deep).as_str()
            );
            r.append(
                pair_string("NAME", serialize_identifier(*name, interner).as_str(), deep).as_str()
            );
            let piece = match generic_parameters {
                Some(v) => pair_string(
                    "GENERIC_PARAMETERS",
                    serialize_generic_parameters(v, interner, deep).as_str(),
                    deep,
                ),
                None => String::new(),
            };
            r.append(piece.as_str());
            let piece = match where_clause {
                Some(v) => pair_string(
                    "WHERE_CLAUSE",
                    serialize_where_clause_items(v, interner, deep).as_str(),
                    deep,
                ),
                None => String::new(),
            };
            r.append(piece.as_str());
            r.append(
                pair_string(
                    "ITEMS",
                    serialize_enum_items(items, interner, deep).as_str(),
                    deep,
                ).as_str()
            );
                r
        },
        Item::Function(a) => serialize_function(a, interner, indent),
        Item::Import { visibility, path } => {
                let mut r = String::from_str("USE");
            r.append(
                pair_string("VISIBILITY", visibility_string(*visibility).as_str(), deep).as_str()
            );
            r.append(
                pair_string(
                    "IMPORT_PATH",
                    serialize_import_path(path, interner, deep).as_str(),
                    deep,
                ).as_str()
            );
                r
        },
        Item::Trait { visibility, name, generic_parameters, where_clause, items, .. } => {
                let mut r = String::from_str("TRAIT");
            r.append(
                pair_string("VISIBILITY", visibility_string(*visibility).as_str(), deep).as_str()
            );
            r.append(
                pair_string("NAME", serialize_identifier(*name, interner).as_str(), deep).as_str()
            );
            let piece = match generic_parameters {
                Some(v) => pair_string(
                    "GENERIC_PARAMETERS",
                    serialize_generic_parameters(v, interner, deep).as_str(),
                    deep,
                ),
                None => String::new(),
            };
            r.append(piece.as_str());
            let piece = match where_clause {
                Some(v) => pair_string(
                    "WHERE_CLAUSE",
                    serialize_where_clause_items(v, interner, deep).as_str(),
                    deep,
                ),
                None => String::new(),
            };
            r.append(piece.as_str());
            r.append(
                pair_string(
                    "ITEMS",
                    serialize_trait_items(items, interner, deep).as_str(),
                    deep,
                ).as_str()
            );
                r
        },
        Item::Impl(a) => serialize_implementation(a, interner, indent),
        Item::Struct { visibility, name, generic_parameters, where_clause, fields, .. } => {
                let mut r = String::from_str("STRUCT");
            r.append(
                pair_string("VISIBILITY", visibility_string(*visibility).as_str(), deep).as_str()
            );
            r.append(
                pair_string("NAME", serialize_identifier(*name, interner).as_str(), deep).as_str()
            );
            let piece = match generic_parameters {
                Some(v) => pair_string(
                    "GENERIC_PARAMETERS",
                    serialize_generic_parameters(v, interner, deep).as_str(),
                    deep,
                ),
                None => String::new(),
            };
            r.append(piece.as_str());
            let piece = match where_clause {
                Some(v) => pair_string(
                    "WHERE_CLAUSE",
                    serialize_where_clause_items(v, interner, deep).as_str(),
                    deep,
                ),
                None => String::new(),
            };
            r.append(piece.as_str());
            r.append(
                pair_string(
                    "FIELDS",
                    serialize_struct_fields(fields, interner, deep).as_str(),
                    deep,
                ).as_str()
            );
                r
        },
        Item::TupleLikeStruct {
            visibility,
            name,
            generic_parameters,
            where_clause,
            fields,
            ..
        } => {
                let mut r = String::from_str("TUPLE_LIKE_STRUCT");
            r.append(
                pair_string("VISIBILITY", visibility_string(*visibility).as_str(), deep).as_str()
            );
            r.append(
                pair_string("NAME", serialize_identifier(*name, interner).as_str(), deep).as_str()
            );
            let piece = match generic_parameters {
                Some(v) => pair_string(
                    "GENERIC_PARAMETERS",
                    serialize_generic_parameters(v, interner, deep).as_str(),
                    deep,
                ),
                None => String::new(),
            };
            r.append(piece.as_str());
            let piece = match where_clause {
                Some(v) => pair_string(
                    "WHERE_CLAUSE",
                    serialize_where_clause_items(v, interner, deep).as_str(),
                    deep,
                ),
                None => String::new(),
            };
            r.append(piece.as_str());
            r.append(
                pair_string(
                    "FIELDS",
                    serialize_tuple_fields(fields, interner, deep).as_str(),
                    deep,
                ).as_str()
            );
                r
        },
        Item::TypeAlias(a) => serialize_type_alias(a, interner, indent),
    }
}

/// Writes a module as a text at the indentation `indent`.
pub fn serialize_module(x: &Module, interner: &Interner, indent: usize) -> (r: String)
    ensures
        r@ == module_text(module_model(*x), interner@, indent as int),
{
    proof {
        lemma_module_model(*x);
        lemma_module_text(module_model(*x), interner@, indent as int);
    }
    let deep = deeper_level(indent);
    let mut r = String::from_str("MODULE");
    r.append(
        pair_string("ITEMS", serialize_items(&x.items, interner, deep).as_str(), deep).as_str()
    );
    r
}

/// Writes a list as a text: `EMPTY` where it holds nothing, else its
/// entries, each on a line of its own, one level deeper than `indent`.
#[verifier::loop_isolation(false)]
pub fn serialize_enum_items(s: &Vec<EnumItem>, interner: &Interner, indent: usize) -> (r: String)
    ensures
        r@ == enum_items_text(enum_items_model(s@), interner@, indent as int),
{
    proof {
        lemma_enum_items_model_len(s@);
        lemma_enum_items_text(enum_items_model(s@), interner@, indent as int);
    }
    if s.len() == 0 {
        return String::from_str("EMPTY");
    }
    let inner = deeper_level(indent);
    let mut r = String::new();
    let mut i: usize = 0;
    while i < s.len()
        invariant
            i <= s.len(),
            enum_items_lines(
                enum_items_model(s@),
                interner@,
                inner as int,
                i as int,
                r@,
            ) == enum_items_lines(
                enum_items_model(s@),
                interner@,
                inner as int,
                0,
                Seq::empty(),
            ),
        decreases s.len() - i,
    {
        proof {
            lemma_enum_items_model_at(s@, i as int);
            lemma_enum_items_lines(enum_items_model(s@), interner@, inner as int, i as int, r@);
        }
        r.append(line_string(serialize_enum_item(&s[i], interner, inner).as_str(), inner).as_str());
        i = i + 1;
    }
    proof {
        lemma_enum_items_lines(enum_items_model(s@), interner@, inner as int, i as int, r@);
    }
    r
}

/// Writes a list as a text: `EMPTY` where it holds nothing, else its
/// entries, each on a line of its own, one level deeper than `indent`.
#[verifier::loop_isolation(false)]
pub fn serialize_expressions(s: &Vec<Expression>, interner: &Interner, indent: usize) -> (r: String)
    ensures
        r@ == expressions_text(expressions_model(s@), interner@, indent as int),
    decreases s,
{
    proof {
        lemma_expressions_model_len(s@);
        lemma_expressions_text(expressions_model(s@), interner@, indent as int);
    }
    if s.len() == 0 {
        return String::from_str("EMPTY");
    }
    let inner = deeper_level(indent);
    let mut r = String::new();
    let mut i: usize = 0;
    while i < s.len()
        invariant
            i <= s.len(),
            expressions_lines(
                expressions_model(s@),
                interner@,
                inner as int,
                i as int,
                r@,
            ) == expressions_lines(
                expressions_model(s@),
                interner@,
                inner as int,
                0,
                Seq::empty(),
            ),
        decreases s.len() - i,
    {
        proof {
            lemma_expressions_model_at(s@, i as int);
            lemma_expressions_lines(expressions_model(s@), interner@, inner as int, i as int, r@);
        }
        r.append(
            line_string(serialize_expression(&s[i], interner, inner).as_str(), inner).as_str()
        );
        i = i + 1;
    }
    proof {
        lemma_expressions_lines(expressions_model(s@), interner@, inner as int, i as int, r@);
    }
    r
}

/// Writes a list as a text: `EMPTY` where it holds nothing, else its
/// entries, each on a line of its own, one level deeper than `indent`.
#[verifier::loop_isolation(false)]
pub fn serialize_function_parameters(
    s: &Vec<FunctionParameter>,
    interner: &Interner,
    indent: usize,
) -> (r: String)
    ensures
        r@ == function_parameters_text(function_parameters_model(s@), interner@, indent as int),
{
    proof {
        lemma_function_parameters_model_len(s@);
        lemma_function_parameters_text(function_parameters_model(s@), interner@, indent as int);
    }
    if s.len() == 0 {
        return String::from_str("EMPTY");
    }
    let inner = deeper_level(indent);
    let mut r = String::new();
    let mut i: usize = 0;
    while i < s.len()
        invariant
            i <= s.len(),
            function_parameters_lines(
                function_parameters_model(s@),
                interner@,
                inner as int,
                i as int,
                r@,
            ) == function_parameters_lines(
                function_parameters_model(s@),
                interner@,
                inner as int,
                0,
                Seq::empty(),
            ),
        decreases s.len() - i,
    {
        proof {
            lemma_function_parameters_model_at(s@, i as int);
            lemma_function_parameters_lines(
                function_parameters_model(s@),
                interner@,
                inner as int,
                i as int,
                r@,
            );
        }
        r.append(
            line_string(
                serialize_function_parameter(&s[i], interner, inner).as_str(),
                inner,
            ).as_str()
        );
        i = i + 1;
    }
    proof {
        lemma_function_parameters_lines(
            function_parameters_model(s@),
            interner@,
            inner as int,
            i as int,
            r@,
        );
    }
    r
}

/// Writes a list as a text: `EMPTY` where it holds nothing, else its
/// entries, each on a line of its own, one level deeper than `indent`.
#[verifier::loop_isolation(false)]
pub fn serialize_generic_arguments(
    s: &Vec<GenericArgument>,
    interner: &Interner,
    indent: usize,
) -> (r: String)
    ensures
        r@ == generic_arguments_text(generic_arguments_model(s@), interner@, indent as int),
    decreases s,
{
    proof {
        lemma_generic_arguments_model_len(s@);
        lemma_generic_arguments_text(generic_arguments_model(s@), interner@, indent as int);
    }
    if s.len() == 0 {
        return String::from_str("EMPTY");
    }
    let inner = deeper_level(indent);
    let mut r = String::new();
    let mut i: usize = 0;
    while i < s.len()
        invariant
            i <= s.len(),
            generic_arguments_lines(
                generic_arguments_model(s@),
                interner@,
                inner as int,
                i as int,
                r@,
            ) == generic_arguments_lines(
                generic_arguments_model(s@),
                interner@,
                inner as int,
                0,
                Seq::empty(),
            ),
        decreases s.len() - i,
    {
        proof {
            lemma_generic_arguments_model_at(s@, i as int);
            lemma_generic_arguments_lines(
                generic_arguments_model(s@),
                interner@,
                inner as int,
                i as int,
                r@,
            );
        }
        r.append(
            line_string(serialize_generic_argument(&s[i], interner, inner).as_str(), inner).as_str()
        );
        i = i + 1;
    }
    proof {
        lemma_generic_arguments_lines(
            generic_arguments_model(s@),
            interner@,
            inner as int,
            i as int,
            r@,
        );
    }
    r
}

/// Writes a list as a text: `EMPTY` where it holds nothing, else its
/// entries, each on a line of its own, one level deeper than `indent`.
#[verifier::loop_isolation(false)]
pub fn serialize_generic_parameters(
    s: &Vec<GenericParameter>,
    interner: &Interner,
    indent: usize,
) -> (r: String)
    ensures
        r@ == generic_parameters_text(generic_parameters_model(s@), interner@, indent as int),
{
    proof {
        lemma_generic_parameters_model_len(s@);
        lemma_generic_parameters_text(generic_parameters_model(s@), interner@, indent as int);
    }
    if s.len() == 0 {
        return String::from_str("EMPTY");
    }
    let inner = deeper_level(indent);
    let mut r = String::new();
    let mut i: usize = 0;
    while i < s.len()
        invariant
            i <= s.len(),
            generic_parameters_lines(
                generic_parameters_model(s@),
                interner@,
                inner as int,
                i as int,
                r@,
            ) == generic_parameters_lines(
                generic_parameters_model(s@),
                interner@,
                inner as int,
                0,
                Seq::empty(),
            ),
        decreases s.len() - i,
    {
        proof {
            lemma_generic_parameters_model_at(s@, i as int);
            lemma_generic_parameters_lines(
                generic_parameters_model(s@),
                interner@,
                inner as int,
                i as int,
                r@,
            );
        }
        r.append(
            line_string(
                serialize_generic_parameter(&s[i], interner, inner).as_str(),
                inner,
            ).as_str()
        );
        i = i + 1;
    }
    proof {
        lemma_generic_parameters_lines(
            generic_parameters_model(s@),
            interner@,
            inner as int,
            i as int,
            r@,
        );
    }
    r
}

/// Writes a list as a text: `EMPTY` where it holds nothing, else its
/// entries, each on a line of its own, one level deeper than `indent`.
#[verifier::loop_isolation(false)]
pub fn serialize_identifiers(
    s: &Vec<IdentifierAst>,
    interner: &Interner,
    indent: usize,
) -> (r: String)
    ensures
        r@ == identifiers_text(s@, interner@, indent as int),
{
    proof {
        
        lemma_identifiers_text(s@, interner@, indent as int);
    }
    if s.len() == 0 {
        return String::from_str("EMPTY");
    }
    let inner = deeper_level(indent);
    let mut r = String::new();
    let mut i: usize = 0;
    while i < s.len()
        invariant
            i <= s.len(),
            identifiers_lines(s@, interner@, inner as int, i as int, r@) == identifiers_lines(
                s@,
                interner@,
                inner as int,
                0,
                Seq::empty(),
            ),
        decreases s.len() - i,
    {
        proof {
            
            lemma_identifiers_lines(s@, interner@, inner as int, i as int, r@);
        }
        r.append(line_string(serialize_identifier(s[i], interner).as_str(), inner).as_str());
        i = i + 1;
    }
    proof {
        lemma_identifiers_lines(s@, interner@, inner as int, i as int, r@);
    }
    r
}

/// Writes a list as a text: `EMPTY` where it holds nothing, else its
/// entries, each on a line of its own, one level deeper than `indent`.
#[verifier::loop_isolation(false)]
pub fn serialize_if_blocks(
    s: &Vec<(Expression, Vec<Statement>)>,
    interner: &Interner,
    indent: usize,
) -> (r: String)
    ensures
        r@ == if_blocks_text(if_blocks_model(s@), interner@, indent as int),
    decreases s,
{
    proof {
        lemma_if_blocks_model_len(s@);
        lemma_if_blocks_text(if_blocks_model(s@), interner@, indent as int);
    }
    if s.len() == 0 {
        return String::from_str("EMPTY");
    }
    let inner = deeper_level(indent);
    let mut r = String::new();
    let mut i: usize = 0;
    while i < s.len()
        invariant
            i <= s.len(),
            if_blocks_lines(
                if_blocks_model(s@),
                interner@,
                inner as int,
                i as int,
                r@,
            ) == if_blocks_lines(
                if_blocks_model(s@),
                interner@,
                inner as int,
                0,
                Seq::empty(),
            ),
        decreases s.len() - i,
    {
        proof {
            lemma_if_blocks_model_at(s@, i as int);
            lemma_if_blocks_lines(if_blocks_model(s@), interner@, inner as int, i as int, r@);
        }
        r.append(line_string(serialize_if_block(&s[i], interner, inner).as_str(), inner).as_str());
        i = i + 1;
    }
    proof {
        lemma_if_blocks_lines(if_blocks_model(s@), interner@, inner as int, i as int, r@);
    }
    r
}

/// Writes a list as a text: `EMPTY` where it holds nothing, else its
/// entries, each on a line of its own, one level deeper than `indent`.
#[verifier::loop_isolation(false)]
pub fn serialize_items(s: &Vec<Item>, interner: &Interner, indent: usize) -> (r: String)
    ensures
        r@ == items_text(items_model(s@), interner@, indent as int),
{
    proof {
        lemma_items_model_len(s@);
        lemma_items_text(items_model(s@), interner@, indent as int);
    }
    if s.len() == 0 {
        return String::from_str("EMPTY");
    }
    let inner = deeper_level(indent);
    let mut r = String::new();
    let mut i: usize = 0;
    while i < s.len()
        invariant
            i <= s.len(),
            items_lines(items_model(s@), interner@, inner as int, i as int, r@) == items_lines(
                items_model(s@),
                interner@,
                inner as int,
                0,
                Seq::empty(),
            ),
        decreases s.len() - i,
    {
        proof {
            lemma_items_model_at(s@, i as int);
            lemma_items_lines(items_model(s@), interner@, inner as int, i as int, r@);
        }
        r.append(line_string(serialize_item(&s[i], interner, inner).as_str(), inner).as_str());
        i = i + 1;
    }
    proof {
        lemma_items_lines(items_model(s@), interner@, inner as int, i as int, r@);
    }
    r
}

/// Writes a list as a text: `EMPTY` where it holds nothing, else its
/// entries, each on a line of its own, one level deeper than `indent`.
#[verifier::loop_isolation(false)]
pub fn serialize_lambda_function_parameters(
    s: &Vec<LambdaFunctionParameter>,
    interner: &Interner,
    indent: usize,
) -> (r: String)
    ensures
        r@ == lambda_function_parameters_text(
            lambda_function_parameters_model(s@),
            interner@,
            indent as int,
        ),
{
    proof {
        lemma_lambda_function_parameters_model_len(s@);
        lemma_lambda_function_parameters_text(
            lambda_function_parameters_model(s@),
            interner@,
            indent as int,
        );
    }
    if s.len() == 0 {
        return String::from_str("EMPTY");
    }
    let inner = deeper_level(indent);
    let mut r = String::new();
    let mut i: usize = 0;
    while i < s.len()
        invariant
            i <= s.len(),
            lambda_function_parameters_lines(
                lambda_function_parameters_model(s@),
                interner@,
                inner as int,
                i as int,
                r@,
            ) == lambda_function_parameters_lines(
                lambda_function_parameters_model(s@),
                interner@,
                inner as int,
                0,
                Seq::empty(),
            ),
        decreases s.len() - i,
    {
        proof {
            lemma_lambda_function_parameters_model_at(s@, i as int);
            lemma_lambda_function_parameters_lines(
                lambda_function_parameters_model(s@),
                interner@,
                inner as int,
                i as int,
                r@,
            );
        }
        r.append(
            line_string(
                serialize_lambda_function_parameter(&s[i], interner, inner).as_str(),
                inner,
            ).as_str()
        );
        i = i + 1;
    }
    proof {
        lemma_lambda_function_parameters_lines(
            lambda_function_parameters_model(s@),
            interner@,
            inner as int,
            i as int,
            r@,
        );
    }
    r
}

/// Writes a list as a text: `EMPTY` where it holds nothing, else its
/// entries, each on a line of its own, one level deeper than `indent`.
#[verifier::loop_isolation(false)]
pub fn serialize_match_expression_items(
    s: &Vec<MatchExpressionItem>,
    interner: &Interner,
    indent: usize,
) -> (r: String)
    ensures
        r@ == match_expression_items_text(
            match_expression_items_model(s@),
            interner@,
            indent as int,
        ),
    decreases s,
{
    proof {
        lemma_match_expression_items_model_len(s@);
        lemma_match_expression_items_text(
            match_expression_items_model(s@),
            interner@,
            indent as int,
        );
    }
    if s.len() == 0 {
        return String::from_str("EMPTY");
    }
    let inner = deeper_level(indent);
    let mut r = String::new();
    let mut i: usize = 0;
    while i < s.len()
        invariant
            i <= s.len(),
            match_expression_items_lines(
                match_expression_items_model(s@),
                interner@,
                inner as int,
                i as int,
                r@,
            ) == match_expression_items_lines(
                match_expression_items_model(s@),
                interner@,
                inner as int,
                0,
                Seq::empty(),
            ),
        decreases s.len() - i,
    {
        proof {
            lemma_match_expression_items_model_at(s@, i as int);
            lemma_match_expression_items_lines(
                match_expression_items_model(s@),
                interner@,
                inner as int,
                i as int,
                r@,
            );
        }
        r.append(
            line_string(
                serialize_match_expression_item(&s[i], interner, inner).as_str(),
                inner,
            ).as_str()
        );
        i = i + 1;
    }
    proof {
        lemma_match_expression_items_lines(
            match_expression_items_model(s@),
            interner@,
            inner as int,
            i as int,
            r@,
        );
    }
    r
}

/// Writes a list as a text: `EMPTY` where it holds nothing, else its
/// entries, each on a line of its own, one level deeper than `indent`.
#[verifier::loop_isolation(false)]
pub fn serialize_patterns(s: &Vec<Pattern>, interner: &Interner, indent: usize) -> (r: String)
    ensures
        r@ == patterns_text(patterns_model(s@), interner@, indent as int),
    decreases s,
{
    proof {
        lemma_patterns_model_len(s@);
        lemma_patterns_text(patterns_model(s@), interner@, indent as int);
    }
    if s.len() == 0 {
        return String::from_str("EMPTY");
    }
    let inner = deeper_level(indent);
    let mut r = String::new();
    let mut i: usize = 0;
    while i < s.len()
        invariant
            i <= s.len(),
            patterns_lines(
                patterns_model(s@),
                interner@,
                inner as int,
                i as int,
                r@,
            ) == patterns_lines(
                patterns_model(s@),
                interner@,
                inner as int,
                0,
                Seq::empty(),
            ),
        decreases s.len() - i,
    {
        proof {
            lemma_patterns_model_at(s@, i as int);
            lemma_patterns_lines(patterns_model(s@), interner@, inner as int, i as int, r@);
        }
        r.append(line_string(serialize_pattern(&s[i], interner, inner).as_str(), inner).as_str());
        i = i + 1;
    }
    proof {
        lemma_patterns_lines(patterns_model(s@), interner@, inner as int, i as int, r@);
    }
    r
}

/// Writes a list as a text: `EMPTY` where it holds nothing, else its
/// entries, each on a line of its own, one level deeper than `indent`.
#[verifier::loop_isolation(false)]
pub fn serialize_statements(s: &Vec<Statement>, interner: &Interner, indent: usize) -> (r: String)
    ensures
        r@ == statements_text(statements_model(s@), interner@, indent as int),
    decreases s,
{
    proof {
        lemma_statements_model_len(s@);
        lemma_statements_text(statements_model(s@), interner@, indent as int);
    }
    if s.len() == 0 {
        return String::from_str("EMPTY");
    }
    let inner = deeper_level(indent);
    let mut r = String::new();
    let mut i: usize = 0;
    while i < s.len()
        invariant
            i <= s.len(),
            statements_lines(
                statements_model(s@),
                interner@,
                inner as int,
                i as int,
                r@,
            ) == statements_lines(
                statements_model(s@),
                interner@,
                inner as int,
                0,
                Seq::empty(),
            ),
        decreases s.len() - i,
    {
        proof {
            lemma_statements_model_at(s@, i as int);
            lemma_statements_lines(statements_model(s@), interner@, inner as int, i as int, r@);
        }
        r.append(line_string(serialize_statement(&s[i], interner, inner).as_str(), inner).as_str());
        i = i + 1;
    }
    proof {
        lemma_statements_lines(statements_model(s@), interner@, inner as int, i as int, r@);
    }
    r
}

/// Writes a list as a text: `EMPTY` where it holds nothing, else its
/// entries, each on a line of its own, one level deeper than `indent`.
#[verifier::loop_isolation(false)]
pub fn serialize_struct_expression_items(
    s: &Vec<StructExpressionItem>,
    interner: &Interner,
    indent: usize,
) -> (r: String)
    ensures
        r@ == struct_expression_items_text(
            struct_expression_items_model(s@),
            interner@,
            indent as int,
        ),
    decreases s,
{
    proof {
        lemma_struct_expression_items_model_len(s@);
        lemma_struct_expression_items_text(
            struct_expression_items_model(s@),
            interner@,
            indent as int,
        );
    }
    if s.len() == 0 {
        return String::from_str("EMPTY");
    }
    let inner = deeper_level(indent);
    let mut r = String::new();
    let mut i: usize = 0;
    while i < s.len()
        invariant
            i <= s.len(),
            struct_expression_items_lines(
                struct_expression_items_model(s@),
                interner@,
                inner as int,
                i as int,
                r@,
            ) == struct_expression_items_lines(
                struct_expression_items_model(s@),
                interner@,
                inner as int,
                0,
                Seq::empty(),
            ),
        decreases s.len() - i,
    {
        proof {
            lemma_struct_expression_items_model_at(s@, i as int);
            lemma_struct_expression_items_lines(
                struct_expression_items_model(s@),
                interner@,
                inner as int,
                i as int,
                r@,
            );
        }
        r.append(
            line_string(
                serialize_struct_expression_item(&s[i], interner, inner).as_str(),
                inner,
            ).as_str()
        );
        i = i + 1;
    }
    proof {
        lemma_struct_expression_items_lines(
            struct_expression_items_model(s@),
            interner@,
            inner as int,
            i as int,
            r@,
        );
    }
    r
}

/// Writes a list as a text: `EMPTY` where it holds nothing, else its
/// entries, each on a line of its own, one level deeper than `indent`.
#[verifier::loop_isolation(false)]
pub fn serialize_struct_fields(
    s: &Vec<StructField>,
    interner: &Interner,
    indent: usize,
) -> (r: String)
    ensures
        r@ == struct_fields_text(struct_fields_model(s@), interner@, indent as int),
{
    proof {
        lemma_struct_fields_model_len(s@);
        lemma_struct_fields_text(struct_fields_model(s@), interner@, indent as int);
    }
    if s.len() == 0 {
        return String::from_str("EMPTY");
    }
    let inner = deeper_level(indent);
    let mut r = String::new();
    let mut i: usize = 0;
    while i < s.len()
        invariant
            i <= s.len(),
            struct_fields_lines(
                struct_fields_model(s@),
                interner@,
                inner as int,
                i as int,
                r@,
            ) == struct_fields_lines(
                struct_fields_model(s@),
                interner@,
                inner as int,
                0,
                Seq::empty(),
            ),
        decreases s.len() - i,
    {
        proof {
            lemma_struct_fields_model_at(s@, i as int);
            lemma_struct_fields_lines(
                struct_fields_model(s@),
                interner@,
                inner as int,
                i as int,
                r@,
            );
        }
        r.append(
            line_string(serialize_struct_field(&s[i], interner, inner).as_str(), inner).as_str()
        );
        i = i + 1;
    }
    proof {
        lemma_struct_fields_lines(struct_fields_model(s@), interner@, inner as int, i as int, r@);
    }
    r
}

/// Writes a list as a text: `EMPTY` where it holds nothing, else its
/// entries, each on a line of its own, one level deeper than `indent`.
#[verifier::loop_isolation(false)]
pub fn serialize_struct_field_patterns(
    s: &Vec<StructFieldPattern>,
    interner: &Interner,
    indent: usize,
) -> (r: String)
    ensures
        r@ == struct_field_patterns_text(struct_field_patterns_model(s@), interner@, indent as int),
    decreases s,
{
    proof {
        lemma_struct_field_patterns_model_len(s@);
        lemma_struct_field_patterns_text(struct_field_patterns_model(s@), interner@, indent as int);
    }
    if s.len() == 0 {
        return String::from_str("EMPTY");
    }
    let inner = deeper_level(indent);
    let mut r = String::new();
    let mut i: usize = 0;
    while i < s.len()
        invariant
            i <= s.len(),
            struct_field_patterns_lines(
                struct_field_patterns_model(s@),
                interner@,
                inner as int,
                i as int,
                r@,
            ) == struct_field_patterns_lines(
                struct_field_patterns_model(s@),
                interner@,
                inner as int,
                0,
                Seq::empty(),
            ),
        decreases s.len() - i,
    {
        proof {
            lemma_struct_field_patterns_model_at(s@, i as int);
            lemma_struct_field_patterns_lines(
                struct_field_patterns_model(s@),
                interner@,
                inner as int,
                i as int,
                r@,
            );
        }
        r.append(
            line_string(
                serialize_struct_field_pattern(&s[i], interner, inner).as_str(),
                inner,
            ).as_str()
        );
        i = i + 1;
    }
    proof {
        lemma_struct_field_patterns_lines(
            struct_field_patterns_model(s@),
            interner@,
            inner as int,
            i as int,
            r@,
        );
    }
    r
}

/// Writes a list as a text: `EMPTY` where it holds nothing, else its
/// entries, each on a line of its own, one level deeper than `indent`.
#[verifier::loop_isolation(false)]
pub fn serialize_trait_items(s: &Vec<TraitItem>, interner: &Interner, indent: usize) -> (r: String)
    ensures
        r@ == trait_items_text(trait_items_model(s@), interner@, indent as int),
{
    proof {
        lemma_trait_items_model_len(s@);
        lemma_trait_items_text(trait_items_model(s@), interner@, indent as int);
    }
    if s.len() == 0 {
        return String::from_str("EMPTY");
    }
    let inner = deeper_level(indent);
    let mut r = String::new();
    let mut i: usize = 0;
    while i < s.len()
        invariant
            i <= s.len(),
            trait_items_lines(
                trait_items_model(s@),
                interner@,
                inner as int,
                i as int,
                r@,
            ) == trait_items_lines(
                trait_items_model(s@),
                interner@,
                inner as int,
                0,
                Seq::empty(),
            ),
        decreases s.len() - i,
    {
        proof {
            lemma_trait_items_model_at(s@, i as int);
            lemma_trait_items_lines(trait_items_model(s@), interner@, inner as int, i as int, r@);
        }
        r.append(
            line_string(serialize_trait_item(&s[i], interner, inner).as_str(), inner).as_str()
        );
        i = i + 1;
    }
    proof {
        lemma_trait_items_lines(trait_items_model(s@), interner@, inner as int, i as int, r@);
    }
    r
}

/// Writes a list as a text: `EMPTY` where it holds nothing, else its
/// entries, each on a line of its own, one level deeper than `indent`.
#[verifier::loop_isolation(false)]
pub fn serialize_tuple_fields(
    s: &Vec<TupleField>,
    interner: &Interner,
    indent: usize,
) -> (r: String)
    ensures
        r@ == tuple_fields_text(tuple_fields_model(s@), interner@, indent as int),
{
    proof {
        lemma_tuple_fields_model_len(s@);
        lemma_tuple_fields_text(tuple_fields_model(s@), interner@, indent as int);
    }
    if s.len() == 0 {
        return String::from_str("EMPTY");
    }
    let inner = deeper_level(indent);
    let mut r = String::new();
    let mut i: usize = 0;
    while i < s.len()
        invariant
            i <= s.len(),
            tuple_fields_lines(
                tuple_fields_model(s@),
                interner@,
                inner as int,
                i as int,
                r@,
            ) == tuple_fields_lines(
                tuple_fields_model(s@),
                interner@,
                inner as int,
                0,
                Seq::empty(),
            ),
        decreases s.len() - i,
    {
        proof {
            lemma_tuple_fields_model_at(s@, i as int);
            lemma_tuple_fields_lines(tuple_fields_model(s@), interner@, inner as int, i as int, r@);
        }
        r.append(
            line_string(serialize_tuple_field(&s[i], interner, inner).as_str(), inner).as_str()
        );
        i = i + 1;
    }
    proof {
        lemma_tuple_fields_lines(tuple_fields_model(s@), interner@, inner as int, i as int, r@);
    }
    r
}

/// Writes a list as a text: `EMPTY` where it holds nothing, else its
/// entries, each on a line of its own, one level deeper than `indent`.
#[verifier::loop_isolation(false)]
pub fn serialize_types(s: &Vec<Type>, interner: &Interner, indent: usize) -> (r: String)
    ensures
        r@ == types_text(types_model(s@), interner@, indent as int),
    decreases s,
{
    proof {
        lemma_types_model_len(s@);
        lemma_types_text(types_model(s@), interner@, indent as int);
    }
    if s.len() == 0 {
        return String::from_str("EMPTY");
    }
    let inner = deeper_level(indent);
    let mut r = String::new();
    let mut i: usize = 0;
    while i < s.len()
        invariant
            i <= s.len(),
            types_lines(types_model(s@), interner@, inner as int, i as int, r@) == types_lines(
                types_model(s@),
                interner@,
                inner as int,
                0,
                Seq::empty(),
            ),
        decreases s.len() - i,
    {
        proof {
            lemma_types_model_at(s@, i as int);
            lemma_types_lines(types_model(s@), interner@, inner as int, i as int, r@);
        }
        r.append(line_string(serialize_type(&s[i], interner, inner).as_str(), inner).as_str());
        i = i + 1;
    }
    proof {
        lemma_types_lines(types_model(s@), interner@, inner as int, i as int, r@);
    }
    r
}

/// Writes a list as a text: `EMPTY` where it holds nothing, else its
/// entries, each on a line of its own, one level deeper than `indent`.
#[verifier::loop_isolation(false)]
pub fn serialize_type_paths(s: &Vec<TypePath>, interner: &Interner, indent: usize) -> (r: String)
    ensures
        r@ == type_paths_text(type_paths_model(s@), interner@, indent as int),
    decreases s,
{
    proof {
        lemma_type_paths_model_len(s@);
        lemma_type_paths_text(type_paths_model(s@), interner@, indent as int);
    }
    if s.len() == 0 {
        return String::from_str("EMPTY");
    }
    let inner = deeper_level(indent);
    let mut r = String::new();
    let mut i: usize = 0;
    while i < s.len()
        invariant
            i <= s.len(),
            type_paths_lines(
                type_paths_model(s@),
                interner@,
                inner as int,
                i as int,
                r@,
            ) == type_paths_lines(
                type_paths_model(s@),
                interner@,
                inner as int,
                0,
                Seq::empty(),
            ),
        decreases s.len() - i,
    {
        proof {
            lemma_type_paths_model_at(s@, i as int);
            lemma_type_paths_lines(type_paths_model(s@), interner@, inner as int, i as int, r@);
        }
        r.append(line_string(serialize_type_path(&s[i], interner, inner).as_str(), inner).as_str());
        i = i + 1;
    }
    proof {
        lemma_type_paths_lines(type_paths_model(s@), interner@, inner as int, i as int, r@);
    }
    r
}

/// Writes a list as a text: `EMPTY` where it holds nothing, else its
/// entries, each on a line of its own, one level deeper than `indent`.
#[verifier::loop_isolation(false)]
pub fn serialize_type_path_segments(
    s: &Vec<TypePathSegment>,
    interner: &Interner,
    indent: usize,
) -> (r: String)
    ensures
        r@ == type_path_segments_text(type_path_segments_model(s@), interner@, indent as int),
    decreases s,
{
    proof {
        lemma_type_path_segments_model_len(s@);
        lemma_type_path_segments_text(type_path_segments_model(s@), interner@, indent as int);
    }
    if s.len() == 0 {
        return String::from_str("EMPTY");
    }
    let inner = deeper_level(indent);
    let mut r = String::new();
    let mut i: usize = 0;
    while i < s.len()
        invariant
            i <= s.len(),
            type_path_segments_lines(
                type_path_segments_model(s@),
                interner@,
                inner as int,
                i as int,
                r@,
            ) == type_path_segments_lines(
                type_path_segments_model(s@),
                interner@,
                inner as int,
                0,
                Seq::empty(),
            ),
        decreases s.len() - i,
    {
        proof {
            lemma_type_path_segments_model_at(s@, i as int);
            lemma_type_path_segments_lines(
                type_path_segments_model(s@),
                interner@,
                inner as int,
                i as int,
                r@,
            );
        }
        r.append(
            line_string(
                serialize_type_path_segment(&s[i], interner, inner).as_str(),
                inner,
            ).as_str()
        );
        i = i + 1;
    }
    proof {
        lemma_type_path_segments_lines(
            type_path_segments_model(s@),
            interner@,
            inner as int,
            i as int,
            r@,
        );
    }
    r
}

/// Writes a list as a text: `EMPTY` where it holds nothing, else its
/// entries, each on a line of its own, one level deeper than `indent`.
#[verifier::loop_isolation(false)]
pub fn serialize_where_clause_items(
    s: &Vec<WhereClauseItem>,
    interner: &Interner,
    indent: usize,
) -> (r: String)
    ensures
        r@ == where_clause_items_text(where_clause_items_model(s@), interner@, indent as int),
{
    proof {
        lemma_where_clause_items_model_len(s@);
        lemma_where_clause_items_text(where_clause_items_model(s@), interner@, indent as int);
    }
    if s.len() == 0 {
        return String::from_str("EMPTY");
    }
    let inner = deeper_level(indent);
    let mut r = String::new();
    let mut i: usize = 0;
    while i < s.len()
        invariant
            i <= s.len(),
            where_clause_items_lines(
                where_clause_items_model(s@),
                interner@,
                inner as int,
                i as int,
                r@,
            ) == where_clause_items_lines(
                where_clause_items_model(s@),
                interner@,
                inner as int,
                0,
                Seq::empty(),
            ),
        decreases s.len() - i,
    {
        proof {
            lemma_where_clause_items_model_at(s@, i as int);
            lemma_where_clause_items_lines(
                where_clause_items_model(s@),
                interner@,
                inner as int,
                i as int,
                r@,
            );
        }
        r.append(
            line_string(
                serialize_where_clause_item(&s[i], interner, inner).as_str(),
                inner,
            ).as_str()
        );
        i = i + 1;
    }
    proof {
        lemma_where_clause_items_lines(
            where_clause_items_model(s@),
            interner@,
            inner as int,
            i as int,
            r@,
        );
    }
    r
}

/// Writes a syntax tree as text: holds the table of texts, the indentation
/// and the text written so far.
pub struct Serializer<'a> {
    /// The table in which the symbols of the tree are looked up.
    interner: &'a Interner,
    /// The indentation, in levels.
    identation: usize,
    /// The text written so far.
    output: String,
}

impl<'a> Serializer<'a> {
    /// The texts of the symbols.
    pub closed spec fn names(&self) -> Seq<Seq<char>> {
        self.interner@
    }

    /// The indentation, in levels.
    pub closed spec fn level(&self) -> int {
        self.identation as int
    }

    /// The text written so far.
    pub closed spec fn text(&self) -> Seq<char> {
        self.output@
    }

    /// Whether the serializer came from `pre` by writing `written`.
    pub open spec fn wrote(&self, pre: Serializer<'a>, written: Seq<char>) -> bool {
        &&& self.names() == pre.names()
        &&& self.level() == pre.level()
        &&& self.text() == pre.text() + written
    }

    /// A serializer that has written nothing, at no indentation.
    #[inline]
    #[must_use]
    pub fn new(interner: &'a Interner) -> (r: Serializer<'a>)
        ensures
            r.names() == interner@,
            r.level() == 0,
            r.text() == Seq::<char>::empty(),
    {
        Serializer { interner, identation: 0, output: String::new() }
    }

    /// The table in which the symbols of the tree are looked up.
    #[inline]
    #[must_use]
    pub fn interner(&self) -> (r: &'a Interner)
        ensures
            r@ == self.names(),
    {
        self.interner
    }

    /// The indentation, in levels.
    #[inline]
    #[must_use]
    pub fn identation(&self) -> (r: usize)
        ensures
            r == self.level(),
    {
        self.identation
    }

    /// Goes one level deeper; the deepest level is the largest machine word.
    #[inline]
    pub fn increment_indentation(&mut self)
        ensures
            final(self).names() == old(self).names(),
            final(self).text() == old(self).text(),
            final(self).level() == deeper(old(self).level()),
    {
        self.identation = deeper_level(self.identation);
    }

    /// Goes one level up; at no indentation nothing changes.
    #[inline]
    pub fn decrement_indentation(&mut self)
        ensures
            final(self).names() == old(self).names(),
            final(self).text() == old(self).text(),
            final(self).level() == (if old(self).level() > 0 {
                old(self).level() - 1
            } else {
                0
            }),
    {
        if self.identation > 0 {
            self.identation = self.identation - 1;
        }
    }

    /// Writes `text`.
    pub fn write(&mut self, text: &str)
        ensures
            final(self).wrote(*old(self), text@),
    {
        self.output.append(text);
    }

    /// Writes a line feed.
    #[inline]
    pub fn write_newline(&mut self)
        ensures
            final(self).wrote(*old(self), "\n"@),
    {
        self.output.append("\n");
    }

    /// Writes one tabulator for each level of the indentation.
    pub fn write_identation(&mut self)
        ensures
            final(self).wrote(*old(self), tabs_text(old(self).level())),
    {
        let tabs = tabs_string(self.identation);
        self.output.append(tabs.as_str());
    }

    /// Writes a module at the indentation of the serializer.
    pub fn serialize_module(&mut self, module: &Module)
        ensures
            final(self).wrote(
                *old(self),
                module_text(module_model(*module), old(self).names(), old(self).level()),
            ),
    {
        let text = serialize_module(module, self.interner, self.identation);
        self.output.append(text.as_str());
    }

    /// The text written so far.
    #[inline]
    #[must_use]
    pub fn output(&self) -> (r: &str)
        ensures
            r@ == self.text(),
    {
        self.output.as_str()
    }

    /// Ends the writing and returns the text.
    #[inline]
    #[must_use]
    pub fn take_output(self) -> (r: String)
        ensures
            r@ == self.text(),
    {
        self.output
    }
}

/// Writes a module as text. The text depends on the module and on the
/// texts of its symbols alone: the same module with the same table gives
/// the same text.
#[must_use]
pub fn serialize_ast(module: &Module, interner: &Interner) -> (r: String)
    ensures
        r@ == module_text(module_model(*module), interner@, 0),
{
    let mut serializer = Serializer::new(interner);
    serializer.serialize_module(module);
    assert(Seq::<char>::empty() + module_text(module_model(*module), interner@, 0)
        =~= module_text(module_model(*module), interner@, 0));
    serializer.take_output()
}

} // verus!
