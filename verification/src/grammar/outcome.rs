//! The models of what the parser returns.

use crate::ast::{
    EnumItem, Expression, Function, FunctionParameter, GenericArgument, GenericParameter,
    IdentifierAst, Impl, Item, LambdaFunctionParameter, Literal, MatchExpressionItem, Path,
    Pattern, Statement, StructExpressionItem, StructField, StructFieldPattern, TraitItem,
    TupleField, Type, TypeAlias, TypePath, TypePathSegment, WhereClauseItem,
};
use crate::grammar::cursor::Elements;
use crate::grammar::items::{Heading, Implemented};
use crate::model::{
    enum_item_model, enum_items_model, expression_model, expressions_model, function_model,
    function_parameter_model, function_parameters_model, generic_argument_model,
    generic_arguments_model, generic_parameter_model, generic_parameters_model, impl_model,
    item_model, lambda_function_parameter_model, lambda_function_parameters_model, literal_model,
    match_expression_item_model, match_expression_items_model, path_model, pattern_model,
    patterns_model, statement_model, statements_model, struct_expression_item_model,
    struct_expression_items_model, struct_field_model, struct_field_pattern_model,
    struct_field_patterns_model, struct_fields_model, trait_item_model, trait_items_model,
    tuple_field_model, tuple_fields_model, type_alias_model, type_model, type_path_model,
    type_path_segment_model, type_path_segments_model, type_paths_model, types_model,
    where_clause_item_model, where_clause_items_model, EnumItemModel, ExpressionModel,
    FunctionModel, FunctionParameterModel, GenericArgumentModel, GenericParameterModel, ImplModel,
    ItemModel, LambdaFunctionParameterModel, LiteralModel, MatchExpressionItemModel, PathModel,
    PatternModel, StatementModel, StructExpressionItemModel, StructFieldModel,
    StructFieldPatternModel, TraitItemModel, TupleFieldModel, TypeAliasModel, TypeModel,
    TypePathModel, TypePathSegmentModel, WhereClauseItemModel,
};
use vstd::prelude::*;

verus! {

/// The model of what reading gave: nothing, or the model of the value.
pub open spec fn read_type(r: Option<Type>) -> Option<TypeModel> {
    match r {
        Some(x) => Some(type_model(x)),
        None => None,
    }
}

/// The model of what reading gave: nothing, or the model of the value.
pub open spec fn read_type_path(r: Option<TypePath>) -> Option<TypePathModel> {
    match r {
        Some(x) => Some(type_path_model(x)),
        None => None,
    }
}

/// The model of what reading gave: nothing, or the model of the value.
pub open spec fn read_type_path_segment(
    r: Option<TypePathSegment>
) -> Option<TypePathSegmentModel> {
    match r {
        Some(x) => Some(type_path_segment_model(x)),
        None => None,
    }
}

/// The model of what reading gave: nothing, or the model of the value.
pub open spec fn read_generic_argument(r: Option<GenericArgument>) -> Option<GenericArgumentModel> {
    match r {
        Some(x) => Some(generic_argument_model(x)),
        None => None,
    }
}

/// The model of what reading gave: nothing, or the model of the value.
pub open spec fn read_generic_parameter(
    r: Option<GenericParameter>
) -> Option<GenericParameterModel> {
    match r {
        Some(x) => Some(generic_parameter_model(x)),
        None => None,
    }
}

/// The model of what reading gave: nothing, or the model of the value.
pub open spec fn read_where_clause_item(
    r: Option<WhereClauseItem>
) -> Option<WhereClauseItemModel> {
    match r {
        Some(x) => Some(where_clause_item_model(x)),
        None => None,
    }
}

/// The model of what reading gave: nothing, or the model of the value.
pub open spec fn read_path(r: Option<Path>) -> Option<PathModel> {
    match r {
        Some(x) => Some(path_model(x)),
        None => None,
    }
}

/// The model of what reading gave: nothing, or the model of the value.
pub open spec fn read_literal(r: Option<Literal>) -> Option<LiteralModel> {
    match r {
        Some(x) => Some(literal_model(x)),
        None => None,
    }
}

/// The model of what reading gave: nothing, or the model of the value.
pub open spec fn read_pattern(r: Option<Pattern>) -> Option<PatternModel> {
    match r {
        Some(x) => Some(pattern_model(x)),
        None => None,
    }
}

/// The model of what reading gave: nothing, or the model of the value.
pub open spec fn read_struct_field_pattern(
    r: Option<StructFieldPattern>
) -> Option<StructFieldPatternModel> {
    match r {
        Some(x) => Some(struct_field_pattern_model(x)),
        None => None,
    }
}

/// The model of what reading gave: nothing, or the model of the value.
pub open spec fn read_expression(r: Option<Expression>) -> Option<ExpressionModel> {
    match r {
        Some(x) => Some(expression_model(x)),
        None => None,
    }
}

/// The model of what reading gave: nothing, or the model of the value.
pub open spec fn read_statement(r: Option<Statement>) -> Option<StatementModel> {
    match r {
        Some(x) => Some(statement_model(x)),
        None => None,
    }
}

/// The model of what reading gave: nothing, or the model of the value.
pub open spec fn read_match_expression_item(
    r: Option<MatchExpressionItem>
) -> Option<MatchExpressionItemModel> {
    match r {
        Some(x) => Some(match_expression_item_model(x)),
        None => None,
    }
}

/// The model of what reading gave: nothing, or the model of the value.
pub open spec fn read_struct_expression_item(
    r: Option<StructExpressionItem>
) -> Option<StructExpressionItemModel> {
    match r {
        Some(x) => Some(struct_expression_item_model(x)),
        None => None,
    }
}

/// The model of what reading gave: nothing, or the model of the value.
pub open spec fn read_lambda_function_parameter(
    r: Option<LambdaFunctionParameter>
) -> Option<LambdaFunctionParameterModel> {
    match r {
        Some(x) => Some(lambda_function_parameter_model(x)),
        None => None,
    }
}

/// The model of what reading gave: nothing, or the model of the value.
pub open spec fn read_function(r: Option<Function>) -> Option<FunctionModel> {
    match r {
        Some(x) => Some(function_model(x)),
        None => None,
    }
}

/// The model of what reading gave: nothing, or the model of the value.
pub open spec fn read_function_parameter(
    r: Option<FunctionParameter>
) -> Option<FunctionParameterModel> {
    match r {
        Some(x) => Some(function_parameter_model(x)),
        None => None,
    }
}

/// The model of what reading gave: nothing, or the model of the value.
pub open spec fn read_struct_field(r: Option<StructField>) -> Option<StructFieldModel> {
    match r {
        Some(x) => Some(struct_field_model(x)),
        None => None,
    }
}

/// The model of what reading gave: nothing, or the model of the value.
pub open spec fn read_tuple_field(r: Option<TupleField>) -> Option<TupleFieldModel> {
    match r {
        Some(x) => Some(tuple_field_model(x)),
        None => None,
    }
}

/// The model of what reading gave: nothing, or the model of the value.
pub open spec fn read_enum_item(r: Option<EnumItem>) -> Option<EnumItemModel> {
    match r {
        Some(x) => Some(enum_item_model(x)),
        None => None,
    }
}

/// The model of what reading gave: nothing, or the model of the value.
pub open spec fn read_trait_item(r: Option<TraitItem>) -> Option<TraitItemModel> {
    match r {
        Some(x) => Some(trait_item_model(x)),
        None => None,
    }
}

/// The model of what reading gave: nothing, or the model of the value.
pub open spec fn read_type_alias(r: Option<TypeAlias>) -> Option<TypeAliasModel> {
    match r {
        Some(x) => Some(type_alias_model(x)),
        None => None,
    }
}

/// The model of what reading gave: nothing, or the model of the value.
pub open spec fn read_item(r: Option<Item>) -> Option<ItemModel> {
    match r {
        Some(x) => Some(item_model(x)),
        None => None,
    }
}

/// The model of what reading gave: nothing, or the model of the value.
pub open spec fn read_type_paths(r: Option<Vec<TypePath>>) -> Option<Seq<TypePathModel>> {
    match r {
        Some(x) => Some(type_paths_model(x@)),
        None => None,
    }
}

/// The model of what reading gave: nothing, or the model of the value.
pub open spec fn read_type_path_segments(
    r: Option<Vec<TypePathSegment>>
) -> Option<Seq<TypePathSegmentModel>> {
    match r {
        Some(x) => Some(type_path_segments_model(x@)),
        None => None,
    }
}

/// The model of what reading gave: nothing, or the model of the value.
pub open spec fn read_generic_arguments(
    r: Option<Vec<GenericArgument>>
) -> Option<Seq<GenericArgumentModel>> {
    match r {
        Some(x) => Some(generic_arguments_model(x@)),
        None => None,
    }
}

/// The model of what reading gave: nothing, or the model of the value.
pub open spec fn read_where_clause_items(
    r: Option<Vec<WhereClauseItem>>
) -> Option<Seq<WhereClauseItemModel>> {
    match r {
        Some(x) => Some(where_clause_items_model(x@)),
        None => None,
    }
}

/// The model of what reading gave: nothing, or the model of the value.
pub open spec fn read_statements(r: Option<Vec<Statement>>) -> Option<Seq<StatementModel>> {
    match r {
        Some(x) => Some(statements_model(x@)),
        None => None,
    }
}

/// The model of what reading gave: nothing, or the model of the value.
pub open spec fn read_trait_items(r: Option<Vec<TraitItem>>) -> Option<Seq<TraitItemModel>> {
    match r {
        Some(x) => Some(trait_items_model(x@)),
        None => None,
    }
}

/// The model of what reading gave: nothing, or the model of the value.
pub open spec fn read_type_list(r: Option<(Vec<Type>, bool)>) -> Option<Elements<TypeModel>> {
    match r {
        Some(x) => Some(Elements { items: types_model(x.0@), trailing_comma: x.1 }),
        None => None,
    }
}

/// The model of what reading gave: nothing, or the model of the value.
pub open spec fn read_generic_argument_list(
    r: Option<(Vec<GenericArgument>, bool)>
) -> Option<Elements<GenericArgumentModel>> {
    match r {
        Some(x) => Some(Elements { items: generic_arguments_model(x.0@), trailing_comma: x.1 }),
        None => None,
    }
}

/// The model of what reading gave: nothing, or the model of the value.
pub open spec fn read_generic_parameter_list(
    r: Option<(Vec<GenericParameter>, bool)>
) -> Option<Elements<GenericParameterModel>> {
    match r {
        Some(x) => Some(Elements { items: generic_parameters_model(x.0@), trailing_comma: x.1 }),
        None => None,
    }
}

/// The model of what reading gave: nothing, or the model of the value.
pub open spec fn read_pattern_list(
    r: Option<(Vec<Pattern>, bool)>
) -> Option<Elements<PatternModel>> {
    match r {
        Some(x) => Some(Elements { items: patterns_model(x.0@), trailing_comma: x.1 }),
        None => None,
    }
}

/// The model of what reading gave: nothing, or the model of the value.
pub open spec fn read_struct_field_pattern_list(
    r: Option<(Vec<StructFieldPattern>, bool)>
) -> Option<Elements<StructFieldPatternModel>> {
    match r {
        Some(x) => Some(Elements { items: struct_field_patterns_model(x.0@), trailing_comma: x.1 }),
        None => None,
    }
}

/// The model of what reading gave: nothing, or the model of the value.
pub open spec fn read_expression_list(
    r: Option<(Vec<Expression>, bool)>
) -> Option<Elements<ExpressionModel>> {
    match r {
        Some(x) => Some(Elements { items: expressions_model(x.0@), trailing_comma: x.1 }),
        None => None,
    }
}

/// The model of what reading gave: nothing, or the model of the value.
pub open spec fn read_match_expression_item_list(
    r: Option<(Vec<MatchExpressionItem>, bool)>
) -> Option<Elements<MatchExpressionItemModel>> {
    match r {
        Some(x) => Some(
            Elements { items: match_expression_items_model(x.0@), trailing_comma: x.1 }
        ),
        None => None,
    }
}

/// The model of what reading gave: nothing, or the model of the value.
pub open spec fn read_struct_expression_item_list(
    r: Option<(Vec<StructExpressionItem>, bool)>
) -> Option<Elements<StructExpressionItemModel>> {
    match r {
        Some(x) => Some(
            Elements { items: struct_expression_items_model(x.0@), trailing_comma: x.1 }
        ),
        None => None,
    }
}

/// The model of what reading gave: nothing, or the model of the value.
pub open spec fn read_lambda_function_parameter_list(
    r: Option<(Vec<LambdaFunctionParameter>, bool)>
) -> Option<Elements<LambdaFunctionParameterModel>> {
    match r {
        Some(x) => Some(
            Elements { items: lambda_function_parameters_model(x.0@), trailing_comma: x.1 }
        ),
        None => None,
    }
}

/// The model of what reading gave: nothing, or the model of the value.
pub open spec fn read_function_parameter_list(
    r: Option<(Vec<FunctionParameter>, bool)>
) -> Option<Elements<FunctionParameterModel>> {
    match r {
        Some(x) => Some(Elements { items: function_parameters_model(x.0@), trailing_comma: x.1 }),
        None => None,
    }
}

/// The model of what reading gave: nothing, or the model of the value.
pub open spec fn read_struct_field_list(
    r: Option<(Vec<StructField>, bool)>
) -> Option<Elements<StructFieldModel>> {
    match r {
        Some(x) => Some(Elements { items: struct_fields_model(x.0@), trailing_comma: x.1 }),
        None => None,
    }
}

/// The model of what reading gave: nothing, or the model of the value.
pub open spec fn read_tuple_field_list(
    r: Option<(Vec<TupleField>, bool)>
) -> Option<Elements<TupleFieldModel>> {
    match r {
        Some(x) => Some(Elements { items: tuple_fields_model(x.0@), trailing_comma: x.1 }),
        None => None,
    }
}

/// The model of what reading gave: nothing, or the model of the value.
pub open spec fn read_enum_item_list(
    r: Option<(Vec<EnumItem>, bool)>
) -> Option<Elements<EnumItemModel>> {
    match r {
        Some(x) => Some(Elements { items: enum_items_model(x.0@), trailing_comma: x.1 }),
        None => None,
    }
}

/// The model of what reading gave: nothing, or the model of the value.
pub open spec fn read_optional_generic_arguments(
    r: Option<Option<Vec<GenericArgument>>>
) -> Option<Option<Seq<GenericArgumentModel>>> {
    match r {
        Some(x) => Some(read_generic_arguments(x)),
        None => None,
    }
}

/// The model of what reading gave: nothing, or the model of the value.
pub open spec fn read_generic_parameters(
    r: Option<Vec<GenericParameter>>
) -> Option<Seq<GenericParameterModel>> {
    match r {
        Some(x) => Some(generic_parameters_model(x@)),
        None => None,
    }
}

/// The model of what reading gave: nothing, or the model of the value.
pub open spec fn read_optional_generic_parameters(
    r: Option<Option<Vec<GenericParameter>>>
) -> Option<Option<Seq<GenericParameterModel>>> {
    match r {
        Some(x) => Some(read_generic_parameters(x)),
        None => None,
    }
}

/// The model of what reading gave: nothing, or the model of the value.
pub open spec fn read_optional_where_clause_items(
    r: Option<Option<Vec<WhereClauseItem>>>
) -> Option<Option<Seq<WhereClauseItemModel>>> {
    match r {
        Some(x) => Some(read_where_clause_items(x)),
        None => None,
    }
}

/// The model of what reading gave: nothing, or the model of the value.
pub open spec fn read_optional_type(r: Option<Option<Type>>) -> Option<Option<TypeModel>> {
    match r {
        Some(x) => Some(read_type(x)),
        None => None,
    }
}

/// The characters of a text that may be there.
pub open spec fn optional_text(x: Option<String>) -> Option<Seq<char>> {
    match x {
        Some(text) => Some(text@),
        None => None,
    }
}

/// The model of what reading gave: nothing, or the model of the value.
pub open spec fn read_condition_block(
    r: Option<(Expression, Vec<Statement>)>
) -> Option<(ExpressionModel, Seq<StatementModel>)> {
    match r {
        Some(x) => Some((expression_model(x.0), statements_model(x.1@))),
        None => None,
    }
}

/// The model of what reading gave: nothing, or the model of the value.
pub open spec fn read_heading(
    r: Option<(IdentifierAst, Option<Vec<GenericParameter>>, Option<Vec<WhereClauseItem>>)>
) -> Option<Heading> {
    match r {
        Some(x) => Some(Heading {
            name: x.0,
            generic_parameters: read_generic_parameters(x.1),
            where_clause: read_where_clause_items(x.2),
        }),
        None => None,
    }
}

/// The model of what reading gave: nothing, or the model of the value.
pub open spec fn read_implemented(r: Option<(Type, Option<Type>)>) -> Option<Implemented> {
    match r {
        Some(x) => Some(Implemented { ty: type_model(x.0), implemented_trait: read_type(x.1) }),
        None => None,
    }
}

/// The model of what reading gave: nothing, or the model of the value.
pub open spec fn read_impl(r: Option<Impl>) -> Option<ImplModel> {
    match r {
        Some(x) => Some(impl_model(x)),
        None => None,
    }
}

} // verus!
