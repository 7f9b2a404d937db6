//! The syntax tree as a mathematical value: sequences stand for vectors
//! and sequences of characters for texts. The parser's contracts speak of
//! these values.

use crate::ast::{
    EnumItem, Expression, Function, FunctionParameter, GenericArgument, GenericParameter,
    IdentifierAst, Impl, ImportPath, Item, JustFunctionParameter, LambdaFunctionParameter, Literal,
    MatchExpressionItem, Module, Path, Pattern, SelfParameter, Statement, StructExpressionItem,
    StructField, StructFieldPattern, TraitItem, TupleField, Type, TypeAlias, TypePath,
    TypePathSegment, Visibility, WhereClauseItem,
};
use crate::operator::{BinaryOperator, PostfixOperator, PrefixOperator};
use crate::span::Span;
use vstd::prelude::*;

verus! {

/// What a [`Literal`] holds.
#[allow(inconsistent_fields)]
pub enum LiteralModel {
    Boolean { value: bool, span: Span },
    Character { value: char, span: Span },
    String { value: Seq<char>, span: Span },
    Integer { value: u64, span: Span },
    Float { value: Seq<char>, span: Span },
}

/// What a [`Path`] holds.
pub struct PathModel {
    pub span: Span,
    pub identifiers: Seq<IdentifierAst>,
}

/// What a [`ImportPath`] holds.
pub struct ImportPathModel {
    pub left: PathModel,
    pub alias: Option<IdentifierAst>,
}

/// What a [`TypePath`] holds.
pub struct TypePathModel {
    pub span: Span,
    pub segments: Seq<TypePathSegmentModel>,
}

/// What a [`TypePathSegment`] holds.
pub struct TypePathSegmentModel {
    pub span: Span,
    pub path: PathModel,
    pub generic_arguments: Option<Seq<GenericArgumentModel>>,
}

/// What a [`GenericArgument`] holds.
#[allow(inconsistent_fields)]
pub enum GenericArgumentModel {
    Type(TypeModel),
    AssociatedType { name: IdentifierAst, value: TypeModel },
}

/// What a [`Type`] holds.
#[allow(inconsistent_fields)]
pub enum TypeModel {
    Path(TypePathModel),
    Tuple { span: Span, element_types: Seq<TypeModel> },
    Function { span: Span, parameter_types: Seq<TypeModel>, return_type: Box<TypeModel> },
    Parenthesized { span: Span, inner: Box<TypeModel> },
    TraitObject { span: Span, bounds: Seq<TypePathModel> },
    WithQualifiedPath {
        span: Span,
        left: Box<TypeModel>,
        right: TypePathModel,
        segments: Seq<TypePathSegmentModel>,
    },
}

/// What a [`GenericParameter`] holds.
pub struct GenericParameterModel {
    pub name: IdentifierAst,
    pub bounds: Option<Seq<TypePathModel>>,
    pub default_value: Option<TypeModel>,
}

/// What a [`WhereClauseItem`] holds.
#[allow(inconsistent_fields)]
pub enum WhereClauseItemModel {
    Eq { left: TypeModel, right: TypeModel },
    Satisfies { ty: TypeModel, bounds: Seq<TypePathModel> },
}

/// What a [`TypeAlias`] holds.
pub struct TypeAliasModel {
    pub visibility: Visibility,
    pub name: IdentifierAst,
    pub generic_parameters: Option<Seq<GenericParameterModel>>,
    pub bounds: Option<Seq<TypePathModel>>,
    pub value: Option<TypeModel>,
    pub docstring: Option<Seq<char>>,
}

/// What a [`Pattern`] holds.
#[allow(inconsistent_fields)]
pub enum PatternModel {
    Literal(LiteralModel),
    Identifier { span: Span, identifier: IdentifierAst, pattern: Option<Box<PatternModel>> },
    Struct { span: Span, path: PathModel, fields: Seq<StructFieldPatternModel> },
    TupleLike { span: Span, path: PathModel, inner_patterns: Seq<PatternModel> },
    Tuple { span: Span, elements: Seq<PatternModel> },
    Path { span: Span, path: PathModel },
    List { span: Span, inner_patterns: Seq<PatternModel> },
    Grouped { span: Span, inner: Box<PatternModel> },
    Or { span: Span, left: Box<PatternModel>, right: Box<PatternModel> },
    Rest { span: Span },
}

/// What a [`StructFieldPattern`] holds.
#[allow(inconsistent_fields)]
pub enum StructFieldPatternModel {
    NotRest { span: Span, field_name: IdentifierAst, value_pattern: Option<PatternModel> },
    Rest { span: Span },
}

/// What a [`Expression`] holds.
#[allow(inconsistent_fields)]
pub enum ExpressionModel {
    List { span: Span, elements: Seq<ExpressionModel> },
    As { span: Span, left: Box<ExpressionModel>, right: TypeModel },
    Binary {
        span: Span,
        left: Box<ExpressionModel>,
        operator: BinaryOperator,
        right: Box<ExpressionModel>,
    },
    StatementsBlock { span: Span, block: Seq<StatementModel> },
    Literal(LiteralModel),
    Identifier(IdentifierAst),
    Parenthesized { span: Span, inner: Box<ExpressionModel> },
    If {
        span: Span,
        if_blocks: Seq<(ExpressionModel, Seq<StatementModel>)>,
        otherwise: Option<Seq<StatementModel>>,
    },
    FieldAccess { span: Span, left: Box<ExpressionModel>, right: IdentifierAst },
    Prefix { span: Span, inner: Box<ExpressionModel>, operator: PrefixOperator },
    Postfix { span: Span, inner: Box<ExpressionModel>, operator: PostfixOperator },
    While { span: Span, condition: Box<ExpressionModel>, body: Seq<StatementModel> },
    Call { span: Span, left: Box<ExpressionModel>, arguments: Seq<ExpressionModel> },
    GenericArguments {
        span: Span,
        left: Box<ExpressionModel>,
        generic_arguments: Seq<GenericArgumentModel>,
    },
    Tuple { span: Span, elements: Seq<ExpressionModel> },
    Struct { span: Span, left: Box<ExpressionModel>, fields: Seq<StructExpressionItemModel> },
    Match { span: Span, expression: Box<ExpressionModel>, block: Seq<MatchExpressionItemModel> },
    Lambda {
        span: Span,
        parameters: Seq<LambdaFunctionParameterModel>,
        return_type: Option<TypeModel>,
        block: Seq<StatementModel>,
    },
}

/// What a [`LambdaFunctionParameter`] holds.
pub struct LambdaFunctionParameterModel {
    pub name: IdentifierAst,
    pub ty: Option<TypeModel>,
}

/// What a [`MatchExpressionItem`] holds.
pub struct MatchExpressionItemModel {
    pub left: PatternModel,
    pub right: ExpressionModel,
}

/// What a [`StructExpressionItem`] holds.
pub struct StructExpressionItemModel {
    pub name: IdentifierAst,
    pub value: Option<ExpressionModel>,
}

/// What a [`Statement`] holds.
#[allow(inconsistent_fields)]
pub enum StatementModel {
    Defer { call: ExpressionModel },
    Expression { expression: ExpressionModel, has_semicolon: bool },
    Break { span: Span },
    Continue { span: Span },
    Return { expression: ExpressionModel },
    Let { pattern: PatternModel, value: ExpressionModel, ty: Option<TypeModel> },
}

/// What a [`TupleField`] holds.
pub struct TupleFieldModel {
    pub visibility: Visibility,
    pub ty: TypeModel,
}

/// What a [`StructField`] holds.
pub struct StructFieldModel {
    pub visibility: Visibility,
    pub name: IdentifierAst,
    pub ty: TypeModel,
    pub docstring: Option<Seq<char>>,
}

/// What a [`EnumItem`] holds.
#[allow(inconsistent_fields)]
pub enum EnumItemModel {
    Just { name: IdentifierAst, docstring: Option<Seq<char>> },
    Tuple { name: IdentifierAst, fields: Seq<TupleFieldModel>, docstring: Option<Seq<char>> },
    Struct { name: IdentifierAst, fields: Seq<StructFieldModel>, docstring: Option<Seq<char>> },
}

/// What a [`SelfParameter`] holds.
pub struct SelfParameterModel {
    pub self_span: Span,
    pub ty: Option<TypeModel>,
}

/// What a [`JustFunctionParameter`] holds.
pub struct JustFunctionParameterModel {
    pub name: IdentifierAst,
    pub ty: TypeModel,
}

/// What a [`FunctionParameter`] holds.
#[allow(inconsistent_fields)]
pub enum FunctionParameterModel {
    Just(JustFunctionParameterModel),
    Self_(SelfParameterModel),
}

/// What a [`Function`] holds.
pub struct FunctionModel {
    pub visibility: Visibility,
    pub name: IdentifierAst,
    pub generic_parameters: Option<Seq<GenericParameterModel>>,
    pub parameters: Seq<FunctionParameterModel>,
    pub return_type: Option<TypeModel>,
    pub where_clause: Option<Seq<WhereClauseItemModel>>,
    pub body: Option<Seq<StatementModel>>,
    pub docstring: Option<Seq<char>>,
}

/// What a [`TraitItem`] holds.
#[allow(inconsistent_fields)]
pub enum TraitItemModel {
    TypeAlias(TypeAliasModel),
    AssociatedFunction(FunctionModel),
}

/// What a [`Impl`] holds.
pub struct ImplModel {
    pub generic_parameters: Option<Seq<GenericParameterModel>>,
    pub ty: TypeModel,
    pub implemented_trait: Option<TypeModel>,
    pub where_clause: Option<Seq<WhereClauseItemModel>>,
    pub items: Seq<TraitItemModel>,
    pub docstring: Option<Seq<char>>,
}

/// What a [`Item`] holds.
#[allow(inconsistent_fields)]
pub enum ItemModel {
    Enum {
        visibility: Visibility,
        name: IdentifierAst,
        generic_parameters: Option<Seq<GenericParameterModel>>,
        where_clause: Option<Seq<WhereClauseItemModel>>,
        items: Seq<EnumItemModel>,
        docstring: Option<Seq<char>>,
    },
    Function(FunctionModel),
    Import { visibility: Visibility, path: ImportPathModel },
    Trait {
        visibility: Visibility,
        name: IdentifierAst,
        generic_parameters: Option<Seq<GenericParameterModel>>,
        where_clause: Option<Seq<WhereClauseItemModel>>,
        items: Seq<TraitItemModel>,
        docstring: Option<Seq<char>>,
    },
    Impl(ImplModel),
    Struct {
        visibility: Visibility,
        name: IdentifierAst,
        generic_parameters: Option<Seq<GenericParameterModel>>,
        where_clause: Option<Seq<WhereClauseItemModel>>,
        fields: Seq<StructFieldModel>,
        docstring: Option<Seq<char>>,
    },
    TupleLikeStruct {
        visibility: Visibility,
        name: IdentifierAst,
        generic_parameters: Option<Seq<GenericParameterModel>>,
        where_clause: Option<Seq<WhereClauseItemModel>>,
        fields: Seq<TupleFieldModel>,
        docstring: Option<Seq<char>>,
    },
    TypeAlias(TypeAliasModel),
}

/// What a [`Module`] holds.
pub struct ModuleModel {
    pub items: Seq<ItemModel>,
    pub docstring: Option<Seq<char>>,
}

impl LiteralModel {
    /// The span of the literal.
    pub open spec fn span(self) -> Span {
        match self {
            LiteralModel::Boolean { value, span } => span,
            LiteralModel::Character { value, span } => span,
            LiteralModel::String { value, span } => span,
            LiteralModel::Integer { value, span } => span,
            LiteralModel::Float { value, span } => span,
        }
    }
}

impl PatternModel {
    /// The span of the pattern.
    pub open spec fn span(self) -> Span {
        match self {
            PatternModel::Literal(literal) => literal.span(),
            PatternModel::Identifier { span, .. } => span,
            PatternModel::Struct { span, .. } => span,
            PatternModel::TupleLike { span, .. } => span,
            PatternModel::Tuple { span, .. } => span,
            PatternModel::Path { span, .. } => span,
            PatternModel::List { span, .. } => span,
            PatternModel::Grouped { span, .. } => span,
            PatternModel::Or { span, .. } => span,
            PatternModel::Rest { span } => span,
        }
    }
}

impl TypeModel {
    /// The span of the type.
    pub open spec fn span(self) -> Span {
        match self {
            TypeModel::Path(path) => path.span,
            TypeModel::Tuple { span, .. } => span,
            TypeModel::Function { span, .. } => span,
            TypeModel::Parenthesized { span, .. } => span,
            TypeModel::TraitObject { span, .. } => span,
            TypeModel::WithQualifiedPath { span, .. } => span,
        }
    }
}

impl ExpressionModel {
    /// The span of the expression.
    pub open spec fn span(self) -> Span {
        match self {
            ExpressionModel::Literal(literal) => literal.span(),
            ExpressionModel::Identifier(identifier) => identifier.span,
            ExpressionModel::List { span, .. } => span,
            ExpressionModel::As { span, .. } => span,
            ExpressionModel::Binary { span, .. } => span,
            ExpressionModel::StatementsBlock { span, .. } => span,
            ExpressionModel::Parenthesized { span, .. } => span,
            ExpressionModel::If { span, .. } => span,
            ExpressionModel::FieldAccess { span, .. } => span,
            ExpressionModel::Prefix { span, .. } => span,
            ExpressionModel::Postfix { span, .. } => span,
            ExpressionModel::While { span, .. } => span,
            ExpressionModel::Call { span, .. } => span,
            ExpressionModel::GenericArguments { span, .. } => span,
            ExpressionModel::Tuple { span, .. } => span,
            ExpressionModel::Struct { span, .. } => span,
            ExpressionModel::Match { span, .. } => span,
            ExpressionModel::Lambda { span, .. } => span,
        }
    }

    /// Whether the expression ends with a block of its own.
    pub open spec fn with_block(self) -> bool {
        self is If || self is While
    }
}

/// The model of `x`.
pub open spec fn literal_model_def(x: Literal) -> LiteralModel
{
    match x {
        Literal::Boolean { value, span } => LiteralModel::Boolean { value, span },
        Literal::Character { value, span } => LiteralModel::Character { value, span },
        Literal::String { value, span } => LiteralModel::String { value: value@, span },
        Literal::Integer { value, span } => LiteralModel::Integer { value, span },
        Literal::Float { value, span } => LiteralModel::Float { value: value@, span },
    }
}

/// What [`literal_model_def`] defines, kept folded until [`lemma_literal_model`] unfolds it.
#[verifier::opaque]
pub open spec fn literal_model(x: Literal) -> LiteralModel
{
    literal_model_def(x)
}

/// [`literal_model`] is what [`literal_model_def`] defines.
pub proof fn lemma_literal_model(x: Literal)
    ensures
        literal_model(x) == literal_model_def(x),
{
    reveal(literal_model);
}

/// The model of `x`.
pub open spec fn path_model_def(x: Path) -> PathModel
{
    PathModel {
        span: x.span,
        identifiers: x.identifiers@,
    }
}

/// What [`path_model_def`] defines, kept folded until [`lemma_path_model`] unfolds it.
#[verifier::opaque]
pub open spec fn path_model(x: Path) -> PathModel
{
    path_model_def(x)
}

/// [`path_model`] is what [`path_model_def`] defines.
pub proof fn lemma_path_model(x: Path)
    ensures
        path_model(x) == path_model_def(x),
{
    reveal(path_model);
}

/// The model of `x`.
pub open spec fn import_path_model_def(x: ImportPath) -> ImportPathModel
{
    ImportPathModel {
        left: path_model(x.left),
        alias: x.alias,
    }
}

/// What [`import_path_model_def`] defines, kept folded until [`lemma_import_path_model`] unfolds
/// it.
#[verifier::opaque]
pub open spec fn import_path_model(x: ImportPath) -> ImportPathModel
{
    import_path_model_def(x)
}

/// [`import_path_model`] is what [`import_path_model_def`] defines.
pub proof fn lemma_import_path_model(x: ImportPath)
    ensures
        import_path_model(x) == import_path_model_def(x),
{
    reveal(import_path_model);
}

/// The model of `x`.
pub open spec fn type_path_model_def(x: TypePath) -> TypePathModel
    decreases x, 0int,
{
    TypePathModel {
        span: x.span,
        segments: type_path_segments_model(x.segments@),
    }
}

/// What [`type_path_model_def`] defines, kept folded until [`lemma_type_path_model`] unfolds it.
#[verifier::opaque]
pub open spec fn type_path_model(x: TypePath) -> TypePathModel
    decreases x, 1int,
{
    type_path_model_def(x)
}

/// [`type_path_model`] is what [`type_path_model_def`] defines.
pub proof fn lemma_type_path_model(x: TypePath)
    ensures
        type_path_model(x) == type_path_model_def(x),
{
    reveal_with_fuel(type_path_model, 1);
}

/// The model of `x`.
pub open spec fn type_path_segment_model_def(x: TypePathSegment) -> TypePathSegmentModel
    decreases x, 0int,
{
    TypePathSegmentModel {
        span: x.span,
        path: path_model(x.path),
        generic_arguments: match x.generic_arguments {
            Some(x) => Some(generic_arguments_model(x@)),
            None => None,
        },
    }
}

/// What [`type_path_segment_model_def`] defines, kept folded until
/// [`lemma_type_path_segment_model`] unfolds it.
#[verifier::opaque]
pub open spec fn type_path_segment_model(x: TypePathSegment) -> TypePathSegmentModel
    decreases x, 1int,
{
    type_path_segment_model_def(x)
}

/// [`type_path_segment_model`] is what [`type_path_segment_model_def`] defines.
pub proof fn lemma_type_path_segment_model(x: TypePathSegment)
    ensures
        type_path_segment_model(x) == type_path_segment_model_def(x),
{
    reveal_with_fuel(type_path_segment_model, 1);
}

/// The model of `x`.
pub open spec fn generic_argument_model_def(x: GenericArgument) -> GenericArgumentModel
    decreases x, 0int,
{
    match x {
        GenericArgument::Type(a) => GenericArgumentModel::Type(type_model(a)),
        GenericArgument::AssociatedType { name, value } => GenericArgumentModel::AssociatedType {
            name,
            value: type_model(value),
        },
    }
}

/// What [`generic_argument_model_def`] defines, kept folded until [`lemma_generic_argument_model`]
/// unfolds it.
#[verifier::opaque]
pub open spec fn generic_argument_model(x: GenericArgument) -> GenericArgumentModel
    decreases x, 1int,
{
    generic_argument_model_def(x)
}

/// [`generic_argument_model`] is what [`generic_argument_model_def`] defines.
pub proof fn lemma_generic_argument_model(x: GenericArgument)
    ensures
        generic_argument_model(x) == generic_argument_model_def(x),
{
    reveal_with_fuel(generic_argument_model, 1);
}

/// The model of `x`.
pub open spec fn type_model_def(x: Type) -> TypeModel
    decreases x, 0int,
{
    match x {
        Type::Path(a) => TypeModel::Path(type_path_model(a)),
        Type::Tuple { span, element_types } => TypeModel::Tuple {
            span,
            element_types: types_model(element_types@),
        },
        Type::Function { span, parameter_types, return_type } => TypeModel::Function {
            span,
            parameter_types: types_model(parameter_types@),
            return_type: Box::new(type_model(*return_type)),
        },
        Type::Parenthesized { span, inner } => TypeModel::Parenthesized {
            span,
            inner: Box::new(type_model(*inner)),
        },
        Type::TraitObject { span, bounds } => TypeModel::TraitObject {
            span,
            bounds: type_paths_model(bounds@),
        },
        Type::WithQualifiedPath { span, left, right, segments } => TypeModel::WithQualifiedPath {
            span,
            left: Box::new(type_model(*left)),
            right: type_path_model(right),
            segments: type_path_segments_model(segments@),
        },
    }
}

/// What [`type_model_def`] defines, kept folded until [`lemma_type_model`] unfolds it.
#[verifier::opaque]
pub open spec fn type_model(x: Type) -> TypeModel
    decreases x, 1int,
{
    type_model_def(x)
}

/// [`type_model`] is what [`type_model_def`] defines.
pub proof fn lemma_type_model(x: Type)
    ensures
        type_model(x) == type_model_def(x),
{
    reveal_with_fuel(type_model, 1);
}

/// The model of `x`.
pub open spec fn generic_parameter_model_def(x: GenericParameter) -> GenericParameterModel
{
    GenericParameterModel {
        name: x.name,
        bounds: match x.bounds {
            Some(x) => Some(type_paths_model(x@)),
            None => None,
        },
        default_value: match x.default_value {
            Some(x) => Some(type_model(x)),
            None => None,
        },
    }
}

/// What [`generic_parameter_model_def`] defines, kept folded until
/// [`lemma_generic_parameter_model`] unfolds it.
#[verifier::opaque]
pub open spec fn generic_parameter_model(x: GenericParameter) -> GenericParameterModel
{
    generic_parameter_model_def(x)
}

/// [`generic_parameter_model`] is what [`generic_parameter_model_def`] defines.
pub proof fn lemma_generic_parameter_model(x: GenericParameter)
    ensures
        generic_parameter_model(x) == generic_parameter_model_def(x),
{
    reveal(generic_parameter_model);
}

/// The model of `x`.
pub open spec fn where_clause_item_model_def(x: WhereClauseItem) -> WhereClauseItemModel
{
    match x {
        WhereClauseItem::Eq { left, right } => WhereClauseItemModel::Eq {
            left: type_model(left),
            right: type_model(right),
        },
        WhereClauseItem::Satisfies { ty, bounds } => WhereClauseItemModel::Satisfies {
            ty: type_model(ty),
            bounds: type_paths_model(bounds@),
        },
    }
}

/// What [`where_clause_item_model_def`] defines, kept folded until
/// [`lemma_where_clause_item_model`] unfolds it.
#[verifier::opaque]
pub open spec fn where_clause_item_model(x: WhereClauseItem) -> WhereClauseItemModel
{
    where_clause_item_model_def(x)
}

/// [`where_clause_item_model`] is what [`where_clause_item_model_def`] defines.
pub proof fn lemma_where_clause_item_model(x: WhereClauseItem)
    ensures
        where_clause_item_model(x) == where_clause_item_model_def(x),
{
    reveal(where_clause_item_model);
}

/// The model of `x`.
pub open spec fn type_alias_model_def(x: TypeAlias) -> TypeAliasModel
{
    TypeAliasModel {
        visibility: x.visibility,
        name: x.name,
        generic_parameters: match x.generic_parameters {
            Some(x) => Some(generic_parameters_model(x@)),
            None => None,
        },
        bounds: match x.bounds {
            Some(x) => Some(type_paths_model(x@)),
            None => None,
        },
        value: match x.value {
            Some(x) => Some(type_model(x)),
            None => None,
        },
        docstring: match x.docstring {
            Some(x) => Some(x@),
            None => None,
        },
    }
}

/// What [`type_alias_model_def`] defines, kept folded until [`lemma_type_alias_model`] unfolds it.
#[verifier::opaque]
pub open spec fn type_alias_model(x: TypeAlias) -> TypeAliasModel
{
    type_alias_model_def(x)
}

/// [`type_alias_model`] is what [`type_alias_model_def`] defines.
pub proof fn lemma_type_alias_model(x: TypeAlias)
    ensures
        type_alias_model(x) == type_alias_model_def(x),
{
    reveal(type_alias_model);
}

/// The model of `x`.
pub open spec fn pattern_model_def(x: Pattern) -> PatternModel
    decreases x, 0int,
{
    match x {
        Pattern::Literal(a) => PatternModel::Literal(literal_model(a)),
        Pattern::Identifier { span, identifier, pattern } => PatternModel::Identifier {
            span,
            identifier,
            pattern: match pattern {
                Some(x) => Some(Box::new(pattern_model(*x))),
                None => None,
            },
        },
        Pattern::Struct { span, path, fields } => PatternModel::Struct {
            span,
            path: path_model(path),
            fields: struct_field_patterns_model(fields@),
        },
        Pattern::TupleLike { span, path, inner_patterns } => PatternModel::TupleLike {
            span,
            path: path_model(path),
            inner_patterns: patterns_model(inner_patterns@),
        },
        Pattern::Tuple { span, elements } => PatternModel::Tuple {
            span,
            elements: patterns_model(elements@),
        },
        Pattern::Path { span, path } => PatternModel::Path { span, path: path_model(path) },
        Pattern::List { span, inner_patterns } => PatternModel::List {
            span,
            inner_patterns: patterns_model(inner_patterns@),
        },
        Pattern::Grouped { span, inner } => PatternModel::Grouped {
            span,
            inner: Box::new(pattern_model(*inner)),
        },
        Pattern::Or { span, left, right } => PatternModel::Or {
            span,
            left: Box::new(pattern_model(*left)),
            right: Box::new(pattern_model(*right)),
        },
        Pattern::Rest { span } => PatternModel::Rest { span },
    }
}

/// What [`pattern_model_def`] defines, kept folded until [`lemma_pattern_model`] unfolds it.
#[verifier::opaque]
pub open spec fn pattern_model(x: Pattern) -> PatternModel
    decreases x, 1int,
{
    pattern_model_def(x)
}

/// [`pattern_model`] is what [`pattern_model_def`] defines.
pub proof fn lemma_pattern_model(x: Pattern)
    ensures
        pattern_model(x) == pattern_model_def(x),
{
    reveal_with_fuel(pattern_model, 1);
}

/// The model of `x`.
pub open spec fn struct_field_pattern_model_def(x: StructFieldPattern) -> StructFieldPatternModel
    decreases x, 0int,
{
    match x {
        StructFieldPattern::NotRest {
            span,
            field_name,
            value_pattern,
        } => StructFieldPatternModel::NotRest {
            span,
            field_name,
            value_pattern: match value_pattern {
                Some(x) => Some(pattern_model(x)),
                None => None,
            },
        },
        StructFieldPattern::Rest { span } => StructFieldPatternModel::Rest { span },
    }
}

/// What [`struct_field_pattern_model_def`] defines, kept folded until
/// [`lemma_struct_field_pattern_model`] unfolds it.
#[verifier::opaque]
pub open spec fn struct_field_pattern_model(x: StructFieldPattern) -> StructFieldPatternModel
    decreases x, 1int,
{
    struct_field_pattern_model_def(x)
}

/// [`struct_field_pattern_model`] is what [`struct_field_pattern_model_def`] defines.
pub proof fn lemma_struct_field_pattern_model(x: StructFieldPattern)
    ensures
        struct_field_pattern_model(x) == struct_field_pattern_model_def(x),
{
    reveal_with_fuel(struct_field_pattern_model, 1);
}

/// The model of `x`.
pub open spec fn expression_model_def(x: Expression) -> ExpressionModel
    decreases x, 0int,
{
    match x {
        Expression::List { span, elements } => ExpressionModel::List {
            span,
            elements: expressions_model(elements@),
        },
        Expression::As { span, left, right } => ExpressionModel::As {
            span,
            left: Box::new(expression_model(*left)),
            right: type_model(right),
        },
        Expression::Binary { span, left, operator, right } => ExpressionModel::Binary {
            span,
            left: Box::new(expression_model(*left)),
            operator,
            right: Box::new(expression_model(*right)),
        },
        Expression::StatementsBlock { span, block } => ExpressionModel::StatementsBlock {
            span,
            block: statements_model(block@),
        },
        Expression::Literal(a) => ExpressionModel::Literal(literal_model(a)),
        Expression::Identifier(a) => ExpressionModel::Identifier(a),
        Expression::Parenthesized { span, inner } => ExpressionModel::Parenthesized {
            span,
            inner: Box::new(expression_model(*inner)),
        },
        Expression::If { span, if_blocks, otherwise } => ExpressionModel::If {
            span,
            if_blocks: if_blocks_model(if_blocks@),
            otherwise: match otherwise {
                Some(x) => Some(statements_model(x@)),
                None => None,
            },
        },
        Expression::FieldAccess { span, left, right } => ExpressionModel::FieldAccess {
            span,
            left: Box::new(expression_model(*left)),
            right,
        },
        Expression::Prefix { span, inner, operator } => ExpressionModel::Prefix {
            span,
            inner: Box::new(expression_model(*inner)),
            operator,
        },
        Expression::Postfix { span, inner, operator } => ExpressionModel::Postfix {
            span,
            inner: Box::new(expression_model(*inner)),
            operator,
        },
        Expression::While { span, condition, body } => ExpressionModel::While {
            span,
            condition: Box::new(expression_model(*condition)),
            body: statements_model(body@),
        },
        Expression::Call { span, left, arguments } => ExpressionModel::Call {
            span,
            left: Box::new(expression_model(*left)),
            arguments: expressions_model(arguments@),
        },
        Expression::GenericArguments {
            span,
            left,
            generic_arguments,
        } => ExpressionModel::GenericArguments {
            span,
            left: Box::new(expression_model(*left)),
            generic_arguments: generic_arguments_model(generic_arguments@),
        },
        Expression::Tuple { span, elements } => ExpressionModel::Tuple {
            span,
            elements: expressions_model(elements@),
        },
        Expression::Struct { span, left, fields } => ExpressionModel::Struct {
            span,
            left: Box::new(expression_model(*left)),
            fields: struct_expression_items_model(fields@),
        },
        Expression::Match { span, expression, block } => ExpressionModel::Match {
            span,
            expression: Box::new(expression_model(*expression)),
            block: match_expression_items_model(block@),
        },
        Expression::Lambda { span, parameters, return_type, block } => ExpressionModel::Lambda {
            span,
            parameters: lambda_function_parameters_model(parameters@),
            return_type: match return_type {
                Some(x) => Some(type_model(x)),
                None => None,
            },
            block: statements_model(block@),
        },
    }
}

/// What [`expression_model_def`] defines, kept folded until [`lemma_expression_model`] unfolds it.
#[verifier::opaque]
pub open spec fn expression_model(x: Expression) -> ExpressionModel
    decreases x, 1int,
{
    expression_model_def(x)
}

/// [`expression_model`] is what [`expression_model_def`] defines.
pub proof fn lemma_expression_model(x: Expression)
    ensures
        expression_model(x) == expression_model_def(x),
{
    reveal_with_fuel(expression_model, 1);
}

/// The model of `x`.
pub open spec fn lambda_function_parameter_model_def(
    x: LambdaFunctionParameter
) -> LambdaFunctionParameterModel
{
    LambdaFunctionParameterModel {
        name: x.name,
        ty: match x.ty {
            Some(x) => Some(type_model(x)),
            None => None,
        },
    }
}

/// What [`lambda_function_parameter_model_def`] defines, kept folded until
/// [`lemma_lambda_function_parameter_model`] unfolds it.
#[verifier::opaque]
pub open spec fn lambda_function_parameter_model(
    x: LambdaFunctionParameter
) -> LambdaFunctionParameterModel
{
    lambda_function_parameter_model_def(x)
}

/// [`lambda_function_parameter_model`] is what [`lambda_function_parameter_model_def`] defines.
pub proof fn lemma_lambda_function_parameter_model(x: LambdaFunctionParameter)
    ensures
        lambda_function_parameter_model(x) == lambda_function_parameter_model_def(x),
{
    reveal(lambda_function_parameter_model);
}

/// The model of `x`.
pub open spec fn match_expression_item_model_def(x: MatchExpressionItem) -> MatchExpressionItemModel
    decreases x, 0int,
{
    MatchExpressionItemModel {
        left: pattern_model(x.left),
        right: expression_model(x.right),
    }
}

/// What [`match_expression_item_model_def`] defines, kept folded until
/// [`lemma_match_expression_item_model`] unfolds it.
#[verifier::opaque]
pub open spec fn match_expression_item_model(x: MatchExpressionItem) -> MatchExpressionItemModel
    decreases x, 1int,
{
    match_expression_item_model_def(x)
}

/// [`match_expression_item_model`] is what [`match_expression_item_model_def`] defines.
pub proof fn lemma_match_expression_item_model(x: MatchExpressionItem)
    ensures
        match_expression_item_model(x) == match_expression_item_model_def(x),
{
    reveal_with_fuel(match_expression_item_model, 1);
}

/// The model of `x`.
pub open spec fn struct_expression_item_model_def(
    x: StructExpressionItem
) -> StructExpressionItemModel
    decreases x, 0int,
{
    StructExpressionItemModel {
        name: x.name,
        value: match x.value {
            Some(x) => Some(expression_model(x)),
            None => None,
        },
    }
}

/// What [`struct_expression_item_model_def`] defines, kept folded until
/// [`lemma_struct_expression_item_model`] unfolds it.
#[verifier::opaque]
pub open spec fn struct_expression_item_model(x: StructExpressionItem) -> StructExpressionItemModel
    decreases x, 1int,
{
    struct_expression_item_model_def(x)
}

/// [`struct_expression_item_model`] is what [`struct_expression_item_model_def`] defines.
pub proof fn lemma_struct_expression_item_model(x: StructExpressionItem)
    ensures
        struct_expression_item_model(x) == struct_expression_item_model_def(x),
{
    reveal_with_fuel(struct_expression_item_model, 1);
}

/// The model of `x`.
pub open spec fn statement_model_def(x: Statement) -> StatementModel
    decreases x, 0int,
{
    match x {
        Statement::Defer { call } => StatementModel::Defer { call: expression_model(call) },
        Statement::Expression { expression, has_semicolon } => StatementModel::Expression {
            expression: expression_model(expression),
            has_semicolon,
        },
        Statement::Break { span } => StatementModel::Break { span },
        Statement::Continue { span } => StatementModel::Continue { span },
        Statement::Return { expression } => StatementModel::Return {
            expression: expression_model(expression),
        },
        Statement::Let { pattern, value, ty } => StatementModel::Let {
            pattern: pattern_model(pattern),
            value: expression_model(value),
            ty: match ty {
                Some(x) => Some(type_model(x)),
                None => None,
            },
        },
    }
}

/// What [`statement_model_def`] defines, kept folded until [`lemma_statement_model`] unfolds it.
#[verifier::opaque]
pub open spec fn statement_model(x: Statement) -> StatementModel
    decreases x, 1int,
{
    statement_model_def(x)
}

/// [`statement_model`] is what [`statement_model_def`] defines.
pub proof fn lemma_statement_model(x: Statement)
    ensures
        statement_model(x) == statement_model_def(x),
{
    reveal_with_fuel(statement_model, 1);
}

/// The model of `x`.
pub open spec fn tuple_field_model_def(x: TupleField) -> TupleFieldModel
{
    TupleFieldModel {
        visibility: x.visibility,
        ty: type_model(x.ty),
    }
}

/// What [`tuple_field_model_def`] defines, kept folded until [`lemma_tuple_field_model`] unfolds
/// it.
#[verifier::opaque]
pub open spec fn tuple_field_model(x: TupleField) -> TupleFieldModel
{
    tuple_field_model_def(x)
}

/// [`tuple_field_model`] is what [`tuple_field_model_def`] defines.
pub proof fn lemma_tuple_field_model(x: TupleField)
    ensures
        tuple_field_model(x) == tuple_field_model_def(x),
{
    reveal(tuple_field_model);
}

/// The model of `x`.
pub open spec fn struct_field_model_def(x: StructField) -> StructFieldModel
{
    StructFieldModel {
        visibility: x.visibility,
        name: x.name,
        ty: type_model(x.ty),
        docstring: match x.docstring {
            Some(x) => Some(x@),
            None => None,
        },
    }
}

/// What [`struct_field_model_def`] defines, kept folded until [`lemma_struct_field_model`] unfolds
/// it.
#[verifier::opaque]
pub open spec fn struct_field_model(x: StructField) -> StructFieldModel
{
    struct_field_model_def(x)
}

/// [`struct_field_model`] is what [`struct_field_model_def`] defines.
pub proof fn lemma_struct_field_model(x: StructField)
    ensures
        struct_field_model(x) == struct_field_model_def(x),
{
    reveal(struct_field_model);
}

/// The model of `x`.
pub open spec fn enum_item_model_def(x: EnumItem) -> EnumItemModel
{
    match x {
        EnumItem::Just { name, docstring } => EnumItemModel::Just {
            name,
            docstring: match docstring {
                Some(x) => Some(x@),
                None => None,
            },
        },
        EnumItem::Tuple { name, fields, docstring } => EnumItemModel::Tuple {
            name,
            fields: tuple_fields_model(fields@),
            docstring: match docstring {
                Some(x) => Some(x@),
                None => None,
            },
        },
        EnumItem::Struct { name, fields, docstring } => EnumItemModel::Struct {
            name,
            fields: struct_fields_model(fields@),
            docstring: match docstring {
                Some(x) => Some(x@),
                None => None,
            },
        },
    }
}

/// What [`enum_item_model_def`] defines, kept folded until [`lemma_enum_item_model`] unfolds it.
#[verifier::opaque]
pub open spec fn enum_item_model(x: EnumItem) -> EnumItemModel
{
    enum_item_model_def(x)
}

/// [`enum_item_model`] is what [`enum_item_model_def`] defines.
pub proof fn lemma_enum_item_model(x: EnumItem)
    ensures
        enum_item_model(x) == enum_item_model_def(x),
{
    reveal(enum_item_model);
}

/// The model of `x`.
pub open spec fn self_parameter_model_def(x: SelfParameter) -> SelfParameterModel
{
    SelfParameterModel {
        self_span: x.self_span,
        ty: match x.ty {
            Some(x) => Some(type_model(x)),
            None => None,
        },
    }
}

/// What [`self_parameter_model_def`] defines, kept folded until [`lemma_self_parameter_model`]
/// unfolds it.
#[verifier::opaque]
pub open spec fn self_parameter_model(x: SelfParameter) -> SelfParameterModel
{
    self_parameter_model_def(x)
}

/// [`self_parameter_model`] is what [`self_parameter_model_def`] defines.
pub proof fn lemma_self_parameter_model(x: SelfParameter)
    ensures
        self_parameter_model(x) == self_parameter_model_def(x),
{
    reveal(self_parameter_model);
}

/// The model of `x`.
pub open spec fn just_function_parameter_model_def(
    x: JustFunctionParameter
) -> JustFunctionParameterModel
{
    JustFunctionParameterModel {
        name: x.name,
        ty: type_model(x.ty),
    }
}

/// What [`just_function_parameter_model_def`] defines, kept folded until
/// [`lemma_just_function_parameter_model`] unfolds it.
#[verifier::opaque]
pub open spec fn just_function_parameter_model(
    x: JustFunctionParameter
) -> JustFunctionParameterModel
{
    just_function_parameter_model_def(x)
}

/// [`just_function_parameter_model`] is what [`just_function_parameter_model_def`] defines.
pub proof fn lemma_just_function_parameter_model(x: JustFunctionParameter)
    ensures
        just_function_parameter_model(x) == just_function_parameter_model_def(x),
{
    reveal(just_function_parameter_model);
}

/// The model of `x`.
pub open spec fn function_parameter_model_def(x: FunctionParameter) -> FunctionParameterModel
{
    match x {
        FunctionParameter::Just(a) => FunctionParameterModel::Just(
            just_function_parameter_model(a)
        ),
        FunctionParameter::Self_(a) => FunctionParameterModel::Self_(self_parameter_model(a)),
    }
}

/// What [`function_parameter_model_def`] defines, kept folded until
/// [`lemma_function_parameter_model`] unfolds it.
#[verifier::opaque]
pub open spec fn function_parameter_model(x: FunctionParameter) -> FunctionParameterModel
{
    function_parameter_model_def(x)
}

/// [`function_parameter_model`] is what [`function_parameter_model_def`] defines.
pub proof fn lemma_function_parameter_model(x: FunctionParameter)
    ensures
        function_parameter_model(x) == function_parameter_model_def(x),
{
    reveal(function_parameter_model);
}

/// The model of `x`.
pub open spec fn function_model_def(x: Function) -> FunctionModel
{
    FunctionModel {
        visibility: x.visibility,
        name: x.name,
        generic_parameters: match x.generic_parameters {
            Some(x) => Some(generic_parameters_model(x@)),
            None => None,
        },
        parameters: function_parameters_model(x.parameters@),
        return_type: match x.return_type {
            Some(x) => Some(type_model(x)),
            None => None,
        },
        where_clause: match x.where_clause {
            Some(x) => Some(where_clause_items_model(x@)),
            None => None,
        },
        body: match x.body {
            Some(x) => Some(statements_model(x@)),
            None => None,
        },
        docstring: match x.docstring {
            Some(x) => Some(x@),
            None => None,
        },
    }
}

/// What [`function_model_def`] defines, kept folded until [`lemma_function_model`] unfolds it.
#[verifier::opaque]
pub open spec fn function_model(x: Function) -> FunctionModel
{
    function_model_def(x)
}

/// [`function_model`] is what [`function_model_def`] defines.
pub proof fn lemma_function_model(x: Function)
    ensures
        function_model(x) == function_model_def(x),
{
    reveal(function_model);
}

/// The model of `x`.
pub open spec fn trait_item_model_def(x: TraitItem) -> TraitItemModel
{
    match x {
        TraitItem::TypeAlias(a) => TraitItemModel::TypeAlias(type_alias_model(a)),
        TraitItem::AssociatedFunction(a) => TraitItemModel::AssociatedFunction(function_model(a)),
    }
}

/// What [`trait_item_model_def`] defines, kept folded until [`lemma_trait_item_model`] unfolds it.
#[verifier::opaque]
pub open spec fn trait_item_model(x: TraitItem) -> TraitItemModel
{
    trait_item_model_def(x)
}

/// [`trait_item_model`] is what [`trait_item_model_def`] defines.
pub proof fn lemma_trait_item_model(x: TraitItem)
    ensures
        trait_item_model(x) == trait_item_model_def(x),
{
    reveal(trait_item_model);
}

/// The model of `x`.
pub open spec fn impl_model_def(x: Impl) -> ImplModel
{
    ImplModel {
        generic_parameters: match x.generic_parameters {
            Some(x) => Some(generic_parameters_model(x@)),
            None => None,
        },
        ty: type_model(x.ty),
        implemented_trait: match x.implemented_trait {
            Some(x) => Some(type_model(x)),
            None => None,
        },
        where_clause: match x.where_clause {
            Some(x) => Some(where_clause_items_model(x@)),
            None => None,
        },
        items: trait_items_model(x.items@),
        docstring: match x.docstring {
            Some(x) => Some(x@),
            None => None,
        },
    }
}

/// What [`impl_model_def`] defines, kept folded until [`lemma_impl_model`] unfolds it.
#[verifier::opaque]
pub open spec fn impl_model(x: Impl) -> ImplModel
{
    impl_model_def(x)
}

/// [`impl_model`] is what [`impl_model_def`] defines.
pub proof fn lemma_impl_model(x: Impl)
    ensures
        impl_model(x) == impl_model_def(x),
{
    reveal(impl_model);
}

/// The model of `x`.
pub open spec fn item_model_def(x: Item) -> ItemModel
{
    match x {
        Item::Enum {
            visibility,
            name,
            generic_parameters,
            where_clause,
            items,
            docstring,
        } => ItemModel::Enum {
            visibility,
            name,
            generic_parameters: match generic_parameters {
                Some(x) => Some(generic_parameters_model(x@)),
                None => None,
            },
            where_clause: match where_clause {
                Some(x) => Some(where_clause_items_model(x@)),
                None => None,
            },
            items: enum_items_model(items@),
            docstring: match docstring {
                Some(x) => Some(x@),
                None => None,
            },
        },
        Item::Function(a) => ItemModel::Function(function_model(a)),
        Item::Import { visibility, path } => ItemModel::Import {
            visibility,
            path: import_path_model(path),
        },
        Item::Trait {
            visibility,
            name,
            generic_parameters,
            where_clause,
            items,
            docstring,
        } => ItemModel::Trait {
            visibility,
            name,
            generic_parameters: match generic_parameters {
                Some(x) => Some(generic_parameters_model(x@)),
                None => None,
            },
            where_clause: match where_clause {
                Some(x) => Some(where_clause_items_model(x@)),
                None => None,
            },
            items: trait_items_model(items@),
            docstring: match docstring {
                Some(x) => Some(x@),
                None => None,
            },
        },
        Item::Impl(a) => ItemModel::Impl(impl_model(a)),
        Item::Struct {
            visibility,
            name,
            generic_parameters,
            where_clause,
            fields,
            docstring,
        } => ItemModel::Struct {
            visibility,
            name,
            generic_parameters: match generic_parameters {
                Some(x) => Some(generic_parameters_model(x@)),
                None => None,
            },
            where_clause: match where_clause {
                Some(x) => Some(where_clause_items_model(x@)),
                None => None,
            },
            fields: struct_fields_model(fields@),
            docstring: match docstring {
                Some(x) => Some(x@),
                None => None,
            },
        },
        Item::TupleLikeStruct {
            visibility,
            name,
            generic_parameters,
            where_clause,
            fields,
            docstring,
        } => ItemModel::TupleLikeStruct {
            visibility,
            name,
            generic_parameters: match generic_parameters {
                Some(x) => Some(generic_parameters_model(x@)),
                None => None,
            },
            where_clause: match where_clause {
                Some(x) => Some(where_clause_items_model(x@)),
                None => None,
            },
            fields: tuple_fields_model(fields@),
            docstring: match docstring {
                Some(x) => Some(x@),
                None => None,
            },
        },
        Item::TypeAlias(a) => ItemModel::TypeAlias(type_alias_model(a)),
    }
}

/// What [`item_model_def`] defines, kept folded until [`lemma_item_model`] unfolds it.
#[verifier::opaque]
pub open spec fn item_model(x: Item) -> ItemModel
{
    item_model_def(x)
}

/// [`item_model`] is what [`item_model_def`] defines.
pub proof fn lemma_item_model(x: Item)
    ensures
        item_model(x) == item_model_def(x),
{
    reveal(item_model);
}

/// The model of `x`.
pub open spec fn module_model_def(x: Module) -> ModuleModel
{
    ModuleModel {
        items: items_model(x.items@),
        docstring: match x.docstring {
            Some(x) => Some(x@),
            None => None,
        },
    }
}

/// What [`module_model_def`] defines, kept folded until [`lemma_module_model`] unfolds it.
#[verifier::opaque]
pub open spec fn module_model(x: Module) -> ModuleModel
{
    module_model_def(x)
}

/// [`module_model`] is what [`module_model_def`] defines.
pub proof fn lemma_module_model(x: Module)
    ensures
        module_model(x) == module_model_def(x),
{
    reveal(module_model);
}

/// The models of the entries of `s`, in order.
#[verifier::opaque]
pub open spec fn enum_items_model(s: Seq<EnumItem>) -> Seq<EnumItemModel>
{
    Seq::new(s.len(), |i: int| if 0 <= i < s.len() {
        enum_item_model(s[i])
    } else {
        arbitrary()
    })
}

/// The models of the entries of `s`, in order.
#[verifier::opaque]
pub open spec fn expressions_model(s: Seq<Expression>) -> Seq<ExpressionModel>
    decreases s,
{
    Seq::new(s.len(), |i: int| if 0 <= i < s.len() {
        expression_model(s[i])
    } else {
        arbitrary()
    })
}

/// The models of the entries of `s`, in order.
#[verifier::opaque]
pub open spec fn function_parameters_model(s: Seq<FunctionParameter>) -> Seq<FunctionParameterModel>
{
    Seq::new(s.len(), |i: int| if 0 <= i < s.len() {
        function_parameter_model(s[i])
    } else {
        arbitrary()
    })
}

/// The models of the entries of `s`, in order.
#[verifier::opaque]
pub open spec fn generic_arguments_model(s: Seq<GenericArgument>) -> Seq<GenericArgumentModel>
    decreases s,
{
    Seq::new(s.len(), |i: int| if 0 <= i < s.len() {
        generic_argument_model(s[i])
    } else {
        arbitrary()
    })
}

/// The models of the entries of `s`, in order.
#[verifier::opaque]
pub open spec fn generic_parameters_model(s: Seq<GenericParameter>) -> Seq<GenericParameterModel>
{
    Seq::new(s.len(), |i: int| if 0 <= i < s.len() {
        generic_parameter_model(s[i])
    } else {
        arbitrary()
    })
}

/// The models of the entries of `s`, in order.
#[verifier::opaque]
pub open spec fn if_blocks_model(
    s: Seq<(Expression, Vec<Statement>)>
) -> Seq<(ExpressionModel, Seq<StatementModel>)>
    decreases s,
{
    Seq::new(s.len(), |i: int| if 0 <= i < s.len() {
        (expression_model(s[i].0), statements_model(s[i].1@))
    } else {
        arbitrary()
    })
}

/// The models of the entries of `s`, in order.
#[verifier::opaque]
pub open spec fn items_model(s: Seq<Item>) -> Seq<ItemModel>
{
    Seq::new(s.len(), |i: int| if 0 <= i < s.len() {
        item_model(s[i])
    } else {
        arbitrary()
    })
}

/// The models of the entries of `s`, in order.
#[verifier::opaque]
pub open spec fn lambda_function_parameters_model(
    s: Seq<LambdaFunctionParameter>
) -> Seq<LambdaFunctionParameterModel>
{
    Seq::new(s.len(), |i: int| if 0 <= i < s.len() {
        lambda_function_parameter_model(s[i])
    } else {
        arbitrary()
    })
}

/// The models of the entries of `s`, in order.
#[verifier::opaque]
pub open spec fn match_expression_items_model(
    s: Seq<MatchExpressionItem>
) -> Seq<MatchExpressionItemModel>
    decreases s,
{
    Seq::new(s.len(), |i: int| if 0 <= i < s.len() {
        match_expression_item_model(s[i])
    } else {
        arbitrary()
    })
}

/// The models of the entries of `s`, in order.
#[verifier::opaque]
pub open spec fn patterns_model(s: Seq<Pattern>) -> Seq<PatternModel>
    decreases s,
{
    Seq::new(s.len(), |i: int| if 0 <= i < s.len() {
        pattern_model(s[i])
    } else {
        arbitrary()
    })
}

/// The models of the entries of `s`, in order.
#[verifier::opaque]
pub open spec fn statements_model(s: Seq<Statement>) -> Seq<StatementModel>
    decreases s,
{
    Seq::new(s.len(), |i: int| if 0 <= i < s.len() {
        statement_model(s[i])
    } else {
        arbitrary()
    })
}

/// The models of the entries of `s`, in order.
#[verifier::opaque]
pub open spec fn struct_expression_items_model(
    s: Seq<StructExpressionItem>
) -> Seq<StructExpressionItemModel>
    decreases s,
{
    Seq::new(s.len(), |i: int| if 0 <= i < s.len() {
        struct_expression_item_model(s[i])
    } else {
        arbitrary()
    })
}

/// The models of the entries of `s`, in order.
#[verifier::opaque]
pub open spec fn struct_field_patterns_model(
    s: Seq<StructFieldPattern>
) -> Seq<StructFieldPatternModel>
    decreases s,
{
    Seq::new(s.len(), |i: int| if 0 <= i < s.len() {
        struct_field_pattern_model(s[i])
    } else {
        arbitrary()
    })
}

/// The models of the entries of `s`, in order.
#[verifier::opaque]
pub open spec fn struct_fields_model(s: Seq<StructField>) -> Seq<StructFieldModel>
{
    Seq::new(s.len(), |i: int| if 0 <= i < s.len() {
        struct_field_model(s[i])
    } else {
        arbitrary()
    })
}

/// The models of the entries of `s`, in order.
#[verifier::opaque]
pub open spec fn trait_items_model(s: Seq<TraitItem>) -> Seq<TraitItemModel>
{
    Seq::new(s.len(), |i: int| if 0 <= i < s.len() {
        trait_item_model(s[i])
    } else {
        arbitrary()
    })
}

/// The models of the entries of `s`, in order.
#[verifier::opaque]
pub open spec fn tuple_fields_model(s: Seq<TupleField>) -> Seq<TupleFieldModel>
{
    Seq::new(s.len(), |i: int| if 0 <= i < s.len() {
        tuple_field_model(s[i])
    } else {
        arbitrary()
    })
}

/// The models of the entries of `s`, in order.
#[verifier::opaque]
pub open spec fn type_path_segments_model(s: Seq<TypePathSegment>) -> Seq<TypePathSegmentModel>
    decreases s,
{
    Seq::new(s.len(), |i: int| if 0 <= i < s.len() {
        type_path_segment_model(s[i])
    } else {
        arbitrary()
    })
}

/// The models of the entries of `s`, in order.
#[verifier::opaque]
pub open spec fn type_paths_model(s: Seq<TypePath>) -> Seq<TypePathModel>
    decreases s,
{
    Seq::new(s.len(), |i: int| if 0 <= i < s.len() {
        type_path_model(s[i])
    } else {
        arbitrary()
    })
}

/// The models of the entries of `s`, in order.
#[verifier::opaque]
pub open spec fn types_model(s: Seq<Type>) -> Seq<TypeModel>
    decreases s,
{
    Seq::new(s.len(), |i: int| if 0 <= i < s.len() {
        type_model(s[i])
    } else {
        arbitrary()
    })
}

/// The models of the entries of `s`, in order.
#[verifier::opaque]
pub open spec fn where_clause_items_model(s: Seq<WhereClauseItem>) -> Seq<WhereClauseItemModel>
{
    Seq::new(s.len(), |i: int| if 0 <= i < s.len() {
        where_clause_item_model(s[i])
    } else {
        arbitrary()
    })
}

/// The models of no entries.
pub proof fn lemma_enum_items_model_empty()
    ensures
        enum_items_model(Seq::empty()) == Seq::<EnumItemModel>::empty(),
{
    reveal(enum_items_model);
    assert(enum_items_model(Seq::empty()) =~= Seq::<EnumItemModel>::empty());
}

/// The models of the entries of `s` and one more.
pub proof fn lemma_enum_items_model_push(s: Seq<EnumItem>, x: EnumItem)
    ensures
        enum_items_model(s.push(x)) == enum_items_model(s).push(enum_item_model(x)),
{
    reveal(enum_item_model);
    reveal(enum_items_model);
    assert(enum_items_model(s.push(x)) =~= enum_items_model(s).push(enum_item_model(x)));
}

/// There are as many models as entries.
pub proof fn lemma_enum_items_model_len(s: Seq<EnumItem>)
    ensures
        enum_items_model(s).len() == s.len(),
{
    reveal(enum_items_model);
}

/// The model at index `i` is that of the entry at index `i`.
pub proof fn lemma_enum_items_model_at(s: Seq<EnumItem>, i: int)
    requires
        0 <= i < s.len(),
    ensures
        enum_items_model(s).len() == s.len(),
        enum_items_model(s)[i] == enum_item_model(s[i]),
{
    reveal(enum_item_model);
    reveal(enum_items_model);
}

/// The models of no entries.
pub proof fn lemma_expressions_model_empty()
    ensures
        expressions_model(Seq::empty()) == Seq::<ExpressionModel>::empty(),
{
    reveal_with_fuel(expressions_model, 1);
    assert(expressions_model(Seq::empty()) =~= Seq::<ExpressionModel>::empty());
}

/// The models of the entries of `s` and one more.
pub proof fn lemma_expressions_model_push(s: Seq<Expression>, x: Expression)
    ensures
        expressions_model(s.push(x)) == expressions_model(s).push(expression_model(x)),
{
    reveal_with_fuel(expression_model, 1);
    reveal_with_fuel(expressions_model, 1);
    assert(expressions_model(s.push(x)) =~= expressions_model(s).push(expression_model(x)));
}

/// There are as many models as entries.
pub proof fn lemma_expressions_model_len(s: Seq<Expression>)
    ensures
        expressions_model(s).len() == s.len(),
{
    reveal_with_fuel(expressions_model, 1);
}

/// The model at index `i` is that of the entry at index `i`.
pub proof fn lemma_expressions_model_at(s: Seq<Expression>, i: int)
    requires
        0 <= i < s.len(),
    ensures
        expressions_model(s).len() == s.len(),
        expressions_model(s)[i] == expression_model(s[i]),
{
    reveal_with_fuel(expression_model, 1);
    reveal_with_fuel(expressions_model, 1);
}

/// The models of no entries.
pub proof fn lemma_function_parameters_model_empty()
    ensures
        function_parameters_model(Seq::empty()) == Seq::<FunctionParameterModel>::empty(),
{
    reveal(function_parameters_model);
    assert(function_parameters_model(Seq::empty()) =~= Seq::<FunctionParameterModel>::empty());
}

/// The models of the entries of `s` and one more.
pub proof fn lemma_function_parameters_model_push(s: Seq<FunctionParameter>, x: FunctionParameter)
    ensures
        function_parameters_model(s.push(x)) == function_parameters_model(s).push(
            function_parameter_model(x)
        ),
{
    reveal(function_parameter_model);
    reveal(function_parameters_model);
    assert(
        function_parameters_model(s.push(x)) =~= function_parameters_model(s).push(
            function_parameter_model(x)
        )
    );
}

/// There are as many models as entries.
pub proof fn lemma_function_parameters_model_len(s: Seq<FunctionParameter>)
    ensures
        function_parameters_model(s).len() == s.len(),
{
    reveal(function_parameters_model);
}

/// The model at index `i` is that of the entry at index `i`.
pub proof fn lemma_function_parameters_model_at(s: Seq<FunctionParameter>, i: int)
    requires
        0 <= i < s.len(),
    ensures
        function_parameters_model(s).len() == s.len(),
        function_parameters_model(s)[i] == function_parameter_model(s[i]),
{
    reveal(function_parameter_model);
    reveal(function_parameters_model);
}

/// The models of no entries.
pub proof fn lemma_generic_arguments_model_empty()
    ensures
        generic_arguments_model(Seq::empty()) == Seq::<GenericArgumentModel>::empty(),
{
    reveal_with_fuel(generic_arguments_model, 1);
    assert(generic_arguments_model(Seq::empty()) =~= Seq::<GenericArgumentModel>::empty());
}

/// The models of the entries of `s` and one more.
pub proof fn lemma_generic_arguments_model_push(s: Seq<GenericArgument>, x: GenericArgument)
    ensures
        generic_arguments_model(s.push(x)) == generic_arguments_model(s).push(
            generic_argument_model(x)
        ),
{
    reveal_with_fuel(generic_argument_model, 1);
    reveal_with_fuel(generic_arguments_model, 1);
    assert(
        generic_arguments_model(s.push(x)) =~= generic_arguments_model(s).push(
            generic_argument_model(x)
        )
    );
}

/// There are as many models as entries.
pub proof fn lemma_generic_arguments_model_len(s: Seq<GenericArgument>)
    ensures
        generic_arguments_model(s).len() == s.len(),
{
    reveal_with_fuel(generic_arguments_model, 1);
}

/// The model at index `i` is that of the entry at index `i`.
pub proof fn lemma_generic_arguments_model_at(s: Seq<GenericArgument>, i: int)
    requires
        0 <= i < s.len(),
    ensures
        generic_arguments_model(s).len() == s.len(),
        generic_arguments_model(s)[i] == generic_argument_model(s[i]),
{
    reveal_with_fuel(generic_argument_model, 1);
    reveal_with_fuel(generic_arguments_model, 1);
}

/// The models of no entries.
pub proof fn lemma_generic_parameters_model_empty()
    ensures
        generic_parameters_model(Seq::empty()) == Seq::<GenericParameterModel>::empty(),
{
    reveal(generic_parameters_model);
    assert(generic_parameters_model(Seq::empty()) =~= Seq::<GenericParameterModel>::empty());
}

/// The models of the entries of `s` and one more.
pub proof fn lemma_generic_parameters_model_push(s: Seq<GenericParameter>, x: GenericParameter)
    ensures
        generic_parameters_model(s.push(x)) == generic_parameters_model(s).push(
            generic_parameter_model(x)
        ),
{
    reveal(generic_parameter_model);
    reveal(generic_parameters_model);
    assert(
        generic_parameters_model(s.push(x)) =~= generic_parameters_model(s).push(
            generic_parameter_model(x)
        )
    );
}

/// There are as many models as entries.
pub proof fn lemma_generic_parameters_model_len(s: Seq<GenericParameter>)
    ensures
        generic_parameters_model(s).len() == s.len(),
{
    reveal(generic_parameters_model);
}

/// The model at index `i` is that of the entry at index `i`.
pub proof fn lemma_generic_parameters_model_at(s: Seq<GenericParameter>, i: int)
    requires
        0 <= i < s.len(),
    ensures
        generic_parameters_model(s).len() == s.len(),
        generic_parameters_model(s)[i] == generic_parameter_model(s[i]),
{
    reveal(generic_parameter_model);
    reveal(generic_parameters_model);
}

/// The models of no entries.
pub proof fn lemma_if_blocks_model_empty()
    ensures
        if_blocks_model(Seq::empty()) == Seq::<(ExpressionModel, Seq<StatementModel>)>::empty(),
{
    reveal(if_blocks_model);
    assert(
        if_blocks_model(Seq::empty()) =~= Seq::<(ExpressionModel, Seq<StatementModel>)>::empty()
    );
}

/// The models of the entries of `s` and one more.
pub proof fn lemma_if_blocks_model_push(
    s: Seq<(Expression, Vec<Statement>)>,
    x: (Expression, Vec<Statement>),
)
    ensures
        if_blocks_model(s.push(x)) == if_blocks_model(s).push(
            (expression_model(x.0), statements_model(x.1@))
        ),
{
    reveal_with_fuel(expression_model, 1);
    reveal(if_blocks_model);
    reveal_with_fuel(statements_model, 1);
    assert(
        if_blocks_model(s.push(x)) =~= if_blocks_model(s).push(
            (expression_model(x.0), statements_model(x.1@))
        )
    );
}

/// There are as many models as entries.
pub proof fn lemma_if_blocks_model_len(s: Seq<(Expression, Vec<Statement>)>)
    ensures
        if_blocks_model(s).len() == s.len(),
{
    reveal(if_blocks_model);
}

/// The model at index `i` is that of the entry at index `i`.
pub proof fn lemma_if_blocks_model_at(s: Seq<(Expression, Vec<Statement>)>, i: int)
    requires
        0 <= i < s.len(),
    ensures
        if_blocks_model(s).len() == s.len(),
        if_blocks_model(s)[i] == (expression_model(s[i].0), statements_model(s[i].1@)),
{
    reveal_with_fuel(expression_model, 1);
    reveal(if_blocks_model);
    reveal_with_fuel(statements_model, 1);
}

/// The models of no entries.
pub proof fn lemma_items_model_empty()
    ensures
        items_model(Seq::empty()) == Seq::<ItemModel>::empty(),
{
    reveal(items_model);
    assert(items_model(Seq::empty()) =~= Seq::<ItemModel>::empty());
}

/// The models of the entries of `s` and one more.
pub proof fn lemma_items_model_push(s: Seq<Item>, x: Item)
    ensures
        items_model(s.push(x)) == items_model(s).push(item_model(x)),
{
    reveal(item_model);
    reveal(items_model);
    assert(items_model(s.push(x)) =~= items_model(s).push(item_model(x)));
}

/// There are as many models as entries.
pub proof fn lemma_items_model_len(s: Seq<Item>)
    ensures
        items_model(s).len() == s.len(),
{
    reveal(items_model);
}

/// The model at index `i` is that of the entry at index `i`.
pub proof fn lemma_items_model_at(s: Seq<Item>, i: int)
    requires
        0 <= i < s.len(),
    ensures
        items_model(s).len() == s.len(),
        items_model(s)[i] == item_model(s[i]),
{
    reveal(item_model);
    reveal(items_model);
}

/// The models of no entries.
pub proof fn lemma_lambda_function_parameters_model_empty()
    ensures
        lambda_function_parameters_model(
            Seq::empty()
        ) == Seq::<LambdaFunctionParameterModel>::empty(),
{
    reveal(lambda_function_parameters_model);
    assert(
        lambda_function_parameters_model(
            Seq::empty()
        ) =~= Seq::<LambdaFunctionParameterModel>::empty()
    );
}

/// The models of the entries of `s` and one more.
pub proof fn lemma_lambda_function_parameters_model_push(
    s: Seq<LambdaFunctionParameter>,
    x: LambdaFunctionParameter,
)
    ensures
        lambda_function_parameters_model(s.push(x)) == lambda_function_parameters_model(s).push(
            lambda_function_parameter_model(x)
        ),
{
    reveal(lambda_function_parameter_model);
    reveal(lambda_function_parameters_model);
    assert(
        lambda_function_parameters_model(s.push(x)) =~= lambda_function_parameters_model(s).push(
            lambda_function_parameter_model(x)
        )
    );
}

/// There are as many models as entries.
pub proof fn lemma_lambda_function_parameters_model_len(s: Seq<LambdaFunctionParameter>)
    ensures
        lambda_function_parameters_model(s).len() == s.len(),
{
    reveal(lambda_function_parameters_model);
}

/// The model at index `i` is that of the entry at index `i`.
pub proof fn lemma_lambda_function_parameters_model_at(s: Seq<LambdaFunctionParameter>, i: int)
    requires
        0 <= i < s.len(),
    ensures
        lambda_function_parameters_model(s).len() == s.len(),
        lambda_function_parameters_model(s)[i] == lambda_function_parameter_model(s[i]),
{
    reveal(lambda_function_parameter_model);
    reveal(lambda_function_parameters_model);
}

/// The models of no entries.
pub proof fn lemma_match_expression_items_model_empty()
    ensures
        match_expression_items_model(Seq::empty()) == Seq::<MatchExpressionItemModel>::empty(),
{
    reveal_with_fuel(match_expression_items_model, 1);
    assert(match_expression_items_model(Seq::empty()) =~= Seq::<MatchExpressionItemModel>::empty());
}

/// The models of the entries of `s` and one more.
pub proof fn lemma_match_expression_items_model_push(
    s: Seq<MatchExpressionItem>,
    x: MatchExpressionItem,
)
    ensures
        match_expression_items_model(s.push(x)) == match_expression_items_model(s).push(
            match_expression_item_model(x)
        ),
{
    reveal_with_fuel(match_expression_item_model, 1);
    reveal_with_fuel(match_expression_items_model, 1);
    assert(
        match_expression_items_model(s.push(x)) =~= match_expression_items_model(s).push(
            match_expression_item_model(x)
        )
    );
}

/// There are as many models as entries.
pub proof fn lemma_match_expression_items_model_len(s: Seq<MatchExpressionItem>)
    ensures
        match_expression_items_model(s).len() == s.len(),
{
    reveal_with_fuel(match_expression_items_model, 1);
}

/// The model at index `i` is that of the entry at index `i`.
pub proof fn lemma_match_expression_items_model_at(s: Seq<MatchExpressionItem>, i: int)
    requires
        0 <= i < s.len(),
    ensures
        match_expression_items_model(s).len() == s.len(),
        match_expression_items_model(s)[i] == match_expression_item_model(s[i]),
{
    reveal_with_fuel(match_expression_item_model, 1);
    reveal_with_fuel(match_expression_items_model, 1);
}

/// The models of no entries.
pub proof fn lemma_patterns_model_empty()
    ensures
        patterns_model(Seq::empty()) == Seq::<PatternModel>::empty(),
{
    reveal_with_fuel(patterns_model, 1);
    assert(patterns_model(Seq::empty()) =~= Seq::<PatternModel>::empty());
}

/// The models of the entries of `s` and one more.
pub proof fn lemma_patterns_model_push(s: Seq<Pattern>, x: Pattern)
    ensures
        patterns_model(s.push(x)) == patterns_model(s).push(pattern_model(x)),
{
    reveal_with_fuel(pattern_model, 1);
    reveal_with_fuel(patterns_model, 1);
    assert(patterns_model(s.push(x)) =~= patterns_model(s).push(pattern_model(x)));
}

/// There are as many models as entries.
pub proof fn lemma_patterns_model_len(s: Seq<Pattern>)
    ensures
        patterns_model(s).len() == s.len(),
{
    reveal_with_fuel(patterns_model, 1);
}

/// The model at index `i` is that of the entry at index `i`.
pub proof fn lemma_patterns_model_at(s: Seq<Pattern>, i: int)
    requires
        0 <= i < s.len(),
    ensures
        patterns_model(s).len() == s.len(),
        patterns_model(s)[i] == pattern_model(s[i]),
{
    reveal_with_fuel(pattern_model, 1);
    reveal_with_fuel(patterns_model, 1);
}

/// The models of no entries.
pub proof fn lemma_statements_model_empty()
    ensures
        statements_model(Seq::empty()) == Seq::<StatementModel>::empty(),
{
    reveal_with_fuel(statements_model, 1);
    assert(statements_model(Seq::empty()) =~= Seq::<StatementModel>::empty());
}

/// The models of the entries of `s` and one more.
pub proof fn lemma_statements_model_push(s: Seq<Statement>, x: Statement)
    ensures
        statements_model(s.push(x)) == statements_model(s).push(statement_model(x)),
{
    reveal_with_fuel(statement_model, 1);
    reveal_with_fuel(statements_model, 1);
    assert(statements_model(s.push(x)) =~= statements_model(s).push(statement_model(x)));
}

/// There are as many models as entries.
pub proof fn lemma_statements_model_len(s: Seq<Statement>)
    ensures
        statements_model(s).len() == s.len(),
{
    reveal_with_fuel(statements_model, 1);
}

/// The model at index `i` is that of the entry at index `i`.
pub proof fn lemma_statements_model_at(s: Seq<Statement>, i: int)
    requires
        0 <= i < s.len(),
    ensures
        statements_model(s).len() == s.len(),
        statements_model(s)[i] == statement_model(s[i]),
{
    reveal_with_fuel(statement_model, 1);
    reveal_with_fuel(statements_model, 1);
}

/// The models of no entries.
pub proof fn lemma_struct_expression_items_model_empty()
    ensures
        struct_expression_items_model(Seq::empty()) == Seq::<StructExpressionItemModel>::empty(),
{
    reveal_with_fuel(struct_expression_items_model, 1);
    assert(
        struct_expression_items_model(Seq::empty()) =~= Seq::<StructExpressionItemModel>::empty()
    );
}

/// The models of the entries of `s` and one more.
pub proof fn lemma_struct_expression_items_model_push(
    s: Seq<StructExpressionItem>,
    x: StructExpressionItem,
)
    ensures
        struct_expression_items_model(s.push(x)) == struct_expression_items_model(s).push(
            struct_expression_item_model(x)
        ),
{
    reveal_with_fuel(struct_expression_item_model, 1);
    reveal_with_fuel(struct_expression_items_model, 1);
    assert(
        struct_expression_items_model(s.push(x)) =~= struct_expression_items_model(s).push(
            struct_expression_item_model(x)
        )
    );
}

/// There are as many models as entries.
pub proof fn lemma_struct_expression_items_model_len(s: Seq<StructExpressionItem>)
    ensures
        struct_expression_items_model(s).len() == s.len(),
{
    reveal_with_fuel(struct_expression_items_model, 1);
}

/// The model at index `i` is that of the entry at index `i`.
pub proof fn lemma_struct_expression_items_model_at(s: Seq<StructExpressionItem>, i: int)
    requires
        0 <= i < s.len(),
    ensures
        struct_expression_items_model(s).len() == s.len(),
        struct_expression_items_model(s)[i] == struct_expression_item_model(s[i]),
{
    reveal_with_fuel(struct_expression_item_model, 1);
    reveal_with_fuel(struct_expression_items_model, 1);
}

/// The models of no entries.
pub proof fn lemma_struct_field_patterns_model_empty()
    ensures
        struct_field_patterns_model(Seq::empty()) == Seq::<StructFieldPatternModel>::empty(),
{
    reveal_with_fuel(struct_field_patterns_model, 1);
    assert(struct_field_patterns_model(Seq::empty()) =~= Seq::<StructFieldPatternModel>::empty());
}

/// The models of the entries of `s` and one more.
pub proof fn lemma_struct_field_patterns_model_push(
    s: Seq<StructFieldPattern>,
    x: StructFieldPattern,
)
    ensures
        struct_field_patterns_model(s.push(x)) == struct_field_patterns_model(s).push(
            struct_field_pattern_model(x)
        ),
{
    reveal_with_fuel(struct_field_pattern_model, 1);
    reveal_with_fuel(struct_field_patterns_model, 1);
    assert(
        struct_field_patterns_model(s.push(x)) =~= struct_field_patterns_model(s).push(
            struct_field_pattern_model(x)
        )
    );
}

/// There are as many models as entries.
pub proof fn lemma_struct_field_patterns_model_len(s: Seq<StructFieldPattern>)
    ensures
        struct_field_patterns_model(s).len() == s.len(),
{
    reveal_with_fuel(struct_field_patterns_model, 1);
}

/// The model at index `i` is that of the entry at index `i`.
pub proof fn lemma_struct_field_patterns_model_at(s: Seq<StructFieldPattern>, i: int)
    requires
        0 <= i < s.len(),
    ensures
        struct_field_patterns_model(s).len() == s.len(),
        struct_field_patterns_model(s)[i] == struct_field_pattern_model(s[i]),
{
    reveal_with_fuel(struct_field_pattern_model, 1);
    reveal_with_fuel(struct_field_patterns_model, 1);
}

/// The models of no entries.
pub proof fn lemma_struct_fields_model_empty()
    ensures
        struct_fields_model(Seq::empty()) == Seq::<StructFieldModel>::empty(),
{
    reveal(struct_fields_model);
    assert(struct_fields_model(Seq::empty()) =~= Seq::<StructFieldModel>::empty());
}

/// The models of the entries of `s` and one more.
pub proof fn lemma_struct_fields_model_push(s: Seq<StructField>, x: StructField)
    ensures
        struct_fields_model(s.push(x)) == struct_fields_model(s).push(struct_field_model(x)),
{
    reveal(struct_field_model);
    reveal(struct_fields_model);
    assert(struct_fields_model(s.push(x)) =~= struct_fields_model(s).push(struct_field_model(x)));
}

/// There are as many models as entries.
pub proof fn lemma_struct_fields_model_len(s: Seq<StructField>)
    ensures
        struct_fields_model(s).len() == s.len(),
{
    reveal(struct_fields_model);
}

/// The model at index `i` is that of the entry at index `i`.
pub proof fn lemma_struct_fields_model_at(s: Seq<StructField>, i: int)
    requires
        0 <= i < s.len(),
    ensures
        struct_fields_model(s).len() == s.len(),
        struct_fields_model(s)[i] == struct_field_model(s[i]),
{
    reveal(struct_field_model);
    reveal(struct_fields_model);
}

/// The models of no entries.
pub proof fn lemma_trait_items_model_empty()
    ensures
        trait_items_model(Seq::empty()) == Seq::<TraitItemModel>::empty(),
{
    reveal(trait_items_model);
    assert(trait_items_model(Seq::empty()) =~= Seq::<TraitItemModel>::empty());
}

/// The models of the entries of `s` and one more.
pub proof fn lemma_trait_items_model_push(s: Seq<TraitItem>, x: TraitItem)
    ensures
        trait_items_model(s.push(x)) == trait_items_model(s).push(trait_item_model(x)),
{
    reveal(trait_item_model);
    reveal(trait_items_model);
    assert(trait_items_model(s.push(x)) =~= trait_items_model(s).push(trait_item_model(x)));
}

/// There are as many models as entries.
pub proof fn lemma_trait_items_model_len(s: Seq<TraitItem>)
    ensures
        trait_items_model(s).len() == s.len(),
{
    reveal(trait_items_model);
}

/// The model at index `i` is that of the entry at index `i`.
pub proof fn lemma_trait_items_model_at(s: Seq<TraitItem>, i: int)
    requires
        0 <= i < s.len(),
    ensures
        trait_items_model(s).len() == s.len(),
        trait_items_model(s)[i] == trait_item_model(s[i]),
{
    reveal(trait_item_model);
    reveal(trait_items_model);
}

/// The models of no entries.
pub proof fn lemma_tuple_fields_model_empty()
    ensures
        tuple_fields_model(Seq::empty()) == Seq::<TupleFieldModel>::empty(),
{
    reveal(tuple_fields_model);
    assert(tuple_fields_model(Seq::empty()) =~= Seq::<TupleFieldModel>::empty());
}

/// The models of the entries of `s` and one more.
pub proof fn lemma_tuple_fields_model_push(s: Seq<TupleField>, x: TupleField)
    ensures
        tuple_fields_model(s.push(x)) == tuple_fields_model(s).push(tuple_field_model(x)),
{
    reveal(tuple_field_model);
    reveal(tuple_fields_model);
    assert(tuple_fields_model(s.push(x)) =~= tuple_fields_model(s).push(tuple_field_model(x)));
}

/// There are as many models as entries.
pub proof fn lemma_tuple_fields_model_len(s: Seq<TupleField>)
    ensures
        tuple_fields_model(s).len() == s.len(),
{
    reveal(tuple_fields_model);
}

/// The model at index `i` is that of the entry at index `i`.
pub proof fn lemma_tuple_fields_model_at(s: Seq<TupleField>, i: int)
    requires
        0 <= i < s.len(),
    ensures
        tuple_fields_model(s).len() == s.len(),
        tuple_fields_model(s)[i] == tuple_field_model(s[i]),
{
    reveal(tuple_field_model);
    reveal(tuple_fields_model);
}

/// The models of no entries.
pub proof fn lemma_type_path_segments_model_empty()
    ensures
        type_path_segments_model(Seq::empty()) == Seq::<TypePathSegmentModel>::empty(),
{
    reveal_with_fuel(type_path_segments_model, 1);
    assert(type_path_segments_model(Seq::empty()) =~= Seq::<TypePathSegmentModel>::empty());
}

/// The models of the entries of `s` and one more.
pub proof fn lemma_type_path_segments_model_push(s: Seq<TypePathSegment>, x: TypePathSegment)
    ensures
        type_path_segments_model(s.push(x)) == type_path_segments_model(s).push(
            type_path_segment_model(x)
        ),
{
    reveal_with_fuel(type_path_segment_model, 1);
    reveal_with_fuel(type_path_segments_model, 1);
    assert(
        type_path_segments_model(s.push(x)) =~= type_path_segments_model(s).push(
            type_path_segment_model(x)
        )
    );
}

/// There are as many models as entries.
pub proof fn lemma_type_path_segments_model_len(s: Seq<TypePathSegment>)
    ensures
        type_path_segments_model(s).len() == s.len(),
{
    reveal_with_fuel(type_path_segments_model, 1);
}

/// The model at index `i` is that of the entry at index `i`.
pub proof fn lemma_type_path_segments_model_at(s: Seq<TypePathSegment>, i: int)
    requires
        0 <= i < s.len(),
    ensures
        type_path_segments_model(s).len() == s.len(),
        type_path_segments_model(s)[i] == type_path_segment_model(s[i]),
{
    reveal_with_fuel(type_path_segment_model, 1);
    reveal_with_fuel(type_path_segments_model, 1);
}

/// The models of no entries.
pub proof fn lemma_type_paths_model_empty()
    ensures
        type_paths_model(Seq::empty()) == Seq::<TypePathModel>::empty(),
{
    reveal_with_fuel(type_paths_model, 1);
    assert(type_paths_model(Seq::empty()) =~= Seq::<TypePathModel>::empty());
}

/// The models of the entries of `s` and one more.
pub proof fn lemma_type_paths_model_push(s: Seq<TypePath>, x: TypePath)
    ensures
        type_paths_model(s.push(x)) == type_paths_model(s).push(type_path_model(x)),
{
    reveal_with_fuel(type_path_model, 1);
    reveal_with_fuel(type_paths_model, 1);
    assert(type_paths_model(s.push(x)) =~= type_paths_model(s).push(type_path_model(x)));
}

/// There are as many models as entries.
pub proof fn lemma_type_paths_model_len(s: Seq<TypePath>)
    ensures
        type_paths_model(s).len() == s.len(),
{
    reveal_with_fuel(type_paths_model, 1);
}

/// The model at index `i` is that of the entry at index `i`.
pub proof fn lemma_type_paths_model_at(s: Seq<TypePath>, i: int)
    requires
        0 <= i < s.len(),
    ensures
        type_paths_model(s).len() == s.len(),
        type_paths_model(s)[i] == type_path_model(s[i]),
{
    reveal_with_fuel(type_path_model, 1);
    reveal_with_fuel(type_paths_model, 1);
}

/// The models of no entries.
pub proof fn lemma_types_model_empty()
    ensures
        types_model(Seq::empty()) == Seq::<TypeModel>::empty(),
{
    reveal_with_fuel(types_model, 1);
    assert(types_model(Seq::empty()) =~= Seq::<TypeModel>::empty());
}

/// The models of the entries of `s` and one more.
pub proof fn lemma_types_model_push(s: Seq<Type>, x: Type)
    ensures
        types_model(s.push(x)) == types_model(s).push(type_model(x)),
{
    reveal_with_fuel(type_model, 1);
    reveal_with_fuel(types_model, 1);
    assert(types_model(s.push(x)) =~= types_model(s).push(type_model(x)));
}

/// There are as many models as entries.
pub proof fn lemma_types_model_len(s: Seq<Type>)
    ensures
        types_model(s).len() == s.len(),
{
    reveal_with_fuel(types_model, 1);
}

/// The model at index `i` is that of the entry at index `i`.
pub proof fn lemma_types_model_at(s: Seq<Type>, i: int)
    requires
        0 <= i < s.len(),
    ensures
        types_model(s).len() == s.len(),
        types_model(s)[i] == type_model(s[i]),
{
    reveal_with_fuel(type_model, 1);
    reveal_with_fuel(types_model, 1);
}

/// The models of no entries.
pub proof fn lemma_where_clause_items_model_empty()
    ensures
        where_clause_items_model(Seq::empty()) == Seq::<WhereClauseItemModel>::empty(),
{
    reveal(where_clause_items_model);
    assert(where_clause_items_model(Seq::empty()) =~= Seq::<WhereClauseItemModel>::empty());
}

/// The models of the entries of `s` and one more.
pub proof fn lemma_where_clause_items_model_push(s: Seq<WhereClauseItem>, x: WhereClauseItem)
    ensures
        where_clause_items_model(s.push(x)) == where_clause_items_model(s).push(
            where_clause_item_model(x)
        ),
{
    reveal(where_clause_item_model);
    reveal(where_clause_items_model);
    assert(
        where_clause_items_model(s.push(x)) =~= where_clause_items_model(s).push(
            where_clause_item_model(x)
        )
    );
}

/// There are as many models as entries.
pub proof fn lemma_where_clause_items_model_len(s: Seq<WhereClauseItem>)
    ensures
        where_clause_items_model(s).len() == s.len(),
{
    reveal(where_clause_items_model);
}

/// The model at index `i` is that of the entry at index `i`.
pub proof fn lemma_where_clause_items_model_at(s: Seq<WhereClauseItem>, i: int)
    requires
        0 <= i < s.len(),
    ensures
        where_clause_items_model(s).len() == s.len(),
        where_clause_items_model(s)[i] == where_clause_item_model(s[i]),
{
    reveal(where_clause_item_model);
    reveal(where_clause_items_model);
}

} // verus!
