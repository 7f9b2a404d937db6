//! The syntax tree.
//!
//! Every node owns its children, and no node is shared. A node holds the
//! span of the source it was read from.

use crate::interner::Symbol;
use crate::model::{
    expression_model, lemma_expression_model, lemma_literal_model, lemma_pattern_model,
    lemma_type_model, lemma_type_path_model, literal_model, pattern_model, type_model,
};
use crate::operator::{BinaryOperator, PostfixOperator, PrefixOperator};
use crate::span::Span;
use vstd::prelude::*;

verus! {

/// A name and its place.
#[derive(Debug, PartialEq, Eq, Clone, Copy, Hash, Structural)]
pub struct IdentifierAst {
    pub span: Span,
    pub symbol: Symbol,
}

/// Whether an item is visible outside its module: the span of `pub` where
/// it is, nothing where it is not.
#[derive(Debug, PartialEq, Eq, Clone, Copy, Hash, Structural)]
pub struct Visibility(pub Option<Span>);

impl Visibility {
    /// The visibility of an item without `pub`.
    pub open spec fn spec_private() -> Visibility {
        Visibility(None)
    }

    /// The visibility of an item with `pub` at `span`.
    pub open spec fn spec_public(span: Span) -> Visibility {
        Visibility(Some(span))
    }

    /// The span of `pub`, if the item has one.
    pub open spec fn spec_span_of_pub(&self) -> Option<Span> {
        self.0
    }

    /// The visibility of an item without `pub`.
    #[inline]
    #[must_use]
    #[verifier::when_used_as_spec(spec_private)]
    pub fn private() -> (r: Visibility)
        ensures
            r == Visibility::spec_private(),
    {
        Visibility(None)
    }

    /// The visibility of an item with `pub` at `span`.
    #[inline]
    #[must_use]
    #[verifier::when_used_as_spec(spec_public)]
    pub fn public(span: Span) -> (r: Visibility)
        ensures
            r == Visibility::spec_public(span),
    {
        Visibility(Some(span))
    }

    /// The span of `pub`, if the item has one.
    #[inline]
    #[must_use]
    #[verifier::when_used_as_spec(spec_span_of_pub)]
    pub fn span_of_pub(&self) -> (r: Option<Span>)
        ensures
            r == self.spec_span_of_pub(),
    {
        self.0
    }
}

impl Default for Visibility {
    fn default() -> (r: Visibility)
        ensures
            r == Visibility::spec_private(),
    {
        Visibility::private()
    }
}

/// The kind of an item of a module.
#[derive(Debug, PartialEq, Eq, Clone, Copy, Hash, Structural)]
pub enum ItemKind {
    Enum,
    Function,
    Import,
    Trait,
    Impl,
    Struct,
    TypeAlias,
}

impl ItemKind {
    /// The words that name the kind.
    pub open spec fn text(self) -> Seq<char> {
        match self {
            ItemKind::Enum => "enum"@,
            ItemKind::Function => "function"@,
            ItemKind::Import => "import"@,
            ItemKind::Trait => "trait"@,
            ItemKind::Impl => "type implementation"@,
            ItemKind::Struct => "struct"@,
            ItemKind::TypeAlias => "type alias"@,
        }
    }

    /// The words that name the kind.
    pub fn as_ref(&self) -> (r: &'static str)
        ensures
            r@ == self.text(),
    {
        match self {
            ItemKind::Enum => "enum",
            ItemKind::Function => "function",
            ItemKind::Import => "import",
            ItemKind::Trait => "trait",
            ItemKind::Impl => "type implementation",
            ItemKind::Struct => "struct",
            ItemKind::TypeAlias => "type alias",
        }
    }

    /// The words that name the kind, as a text of its own.
    pub fn to_string(&self) -> (r: String)
        ensures
            r@ == self.text(),
    {
        String::from_str(self.as_ref())
    }
}

/// A literal.
#[derive(Debug, PartialEq)]
#[allow(inconsistent_fields)]
pub enum Literal {
    /// `true` or `false`.
    Boolean { value: bool, span: Span },
    /// A character between single quotes, decoded.
    Character { value: char, span: Span },
    /// A text between double quotes, decoded.
    String { value: String, span: Span },
    /// A whole number.
    Integer { value: u64, span: Span },
    /// A number with a fraction or an exponent; `value` holds its digits as written.
    Float { value: String, span: Span },
}

/// Identifiers separated by `.`, at least one.
#[derive(Debug, PartialEq)]
pub struct Path {
    pub span: Span,
    pub identifiers: Vec<IdentifierAst>,
}

/// The path of an import, with the name it is imported under where one is given.
#[derive(Debug, PartialEq)]
pub struct ImportPath {
    pub left: Path,
    pub alias: Option<IdentifierAst>,
}

/// Segments separated by `.`, at least one, that name a type.
#[derive(Debug, PartialEq)]
pub struct TypePath {
    pub span: Span,
    pub segments: Vec<TypePathSegment>,
}

/// A path with the generic arguments given to it, if any.
#[derive(Debug, PartialEq)]
pub struct TypePathSegment {
    pub span: Span,
    pub path: Path,
    pub generic_arguments: Option<Vec<GenericArgument>>,
}

/// One entry of a list of generic arguments.
#[derive(Debug, PartialEq)]
#[allow(inconsistent_fields)]
pub enum GenericArgument {
    /// A type.
    Type(Type),
    /// A binding `Name = Type` of an associated type.
    AssociatedType { name: IdentifierAst, value: Type },
}

/// A type as it is written.
#[derive(Debug, PartialEq)]
#[allow(inconsistent_fields)]
pub enum Type {
    /// A type path, as `List[uint32]`.
    Path(TypePath),
    /// A tuple type, as `(String, uint32)`.
    Tuple { span: Span, element_types: Vec<Type> },
    /// A function type, as `(uint32): Unit`.
    Function { span: Span, parameter_types: Vec<Type>, return_type: Box<Type> },
    /// A type in parentheses.
    Parenthesized { span: Span, inner: Box<Type> },
    /// A trait object type, as `dyn Iterator + Debug`.
    TraitObject { span: Span, bounds: Vec<TypePath> },
    /// A type with a qualified path, as `[T as IntoIterator].Item`.
    WithQualifiedPath {
        span: Span,
        left: Box<Type>,
        right: TypePath,
        segments: Vec<TypePathSegment>,
    },
}

/// A generic parameter with its bounds and its default, where given.
#[derive(Debug, PartialEq)]
pub struct GenericParameter {
    pub name: IdentifierAst,
    pub bounds: Option<Vec<TypePath>>,
    pub default_value: Option<Type>,
}

/// One entry of a where clause.
#[derive(Debug, PartialEq)]
#[allow(inconsistent_fields)]
pub enum WhereClauseItem {
    /// `Type = Type`.
    Eq { left: Type, right: Type },
    /// `Type: Bounds`.
    Satisfies { ty: Type, bounds: Vec<TypePath> },
}

/// A type alias, as `type StringRes[E] = Result[String, E];`.
#[derive(Debug, PartialEq)]
pub struct TypeAlias {
    pub visibility: Visibility,
    pub name: IdentifierAst,
    pub generic_parameters: Option<Vec<GenericParameter>>,
    pub bounds: Option<Vec<TypePath>>,
    pub value: Option<Type>,
    pub docstring: Option<String>,
}

/// A pattern of a `match` arm or of a `let`.
#[derive(Debug, PartialEq)]
#[allow(inconsistent_fields)]
pub enum Pattern {
    /// A literal.
    Literal(Literal),
    /// A name that is bound, with the pattern after `@` where one is given.
    Identifier { span: Span, identifier: IdentifierAst, pattern: Option<Box<Pattern>> },
    /// A struct pattern, as `Person { name, .. }`.
    Struct { span: Span, path: Path, fields: Vec<StructFieldPattern> },
    /// A tuple-like pattern, as `Some(x)`.
    TupleLike { span: Span, path: Path, inner_patterns: Vec<Pattern> },
    /// A tuple pattern, as `(a, b)`.
    Tuple { span: Span, elements: Vec<Pattern> },
    /// A path of two or more identifiers.
    Path { span: Span, path: Path },
    /// A list pattern, as `[a, .., b]`.
    List { span: Span, inner_patterns: Vec<Pattern> },
    /// A pattern in parentheses.
    Grouped { span: Span, inner: Box<Pattern> },
    /// Two patterns separated by `|`.
    Or { span: Span, left: Box<Pattern>, right: Box<Pattern> },
    /// `..`.
    Rest { span: Span },
}

/// One entry of a struct pattern.
#[derive(Debug, PartialEq)]
#[allow(inconsistent_fields)]
pub enum StructFieldPattern {
    /// A field with the pattern for its value, where one is given.
    NotRest { span: Span, field_name: IdentifierAst, value_pattern: Option<Pattern> },
    /// `..`.
    Rest { span: Span },
}

/// An expression.
#[derive(Debug, PartialEq)]
#[allow(inconsistent_fields)]
pub enum Expression {
    /// A list, as `[1, 2, 3]`.
    List { span: Span, elements: Vec<Expression> },
    /// A cast, as `3 as float32`.
    As { span: Span, left: Box<Expression>, right: Type },
    /// Two operands and the operator between them.
    Binary { span: Span, left: Box<Expression>, operator: BinaryOperator, right: Box<Expression> },
    /// A block of statements in braces.
    StatementsBlock { span: Span, block: Vec<Statement> },
    /// A literal.
    Literal(Literal),
    /// A name.
    Identifier(IdentifierAst),
    /// An expression in parentheses.
    Parenthesized { span: Span, inner: Box<Expression> },
    /// Conditions with their blocks, and the block after the last `else` where there is one.
    If {
        span: Span,
        if_blocks: Vec<(Expression, Vec<Statement>)>,
        otherwise: Option<Vec<Statement>>,
    },
    /// A field of a value, as `x.y`.
    FieldAccess { span: Span, left: Box<Expression>, right: IdentifierAst },
    /// An operator and the operand after it.
    Prefix { span: Span, inner: Box<Expression>, operator: PrefixOperator },
    /// An operand and the operator after it.
    Postfix { span: Span, inner: Box<Expression>, operator: PostfixOperator },
    /// A loop with a condition; its value is the unit.
    While { span: Span, condition: Box<Expression>, body: Vec<Statement> },
    /// A call with its arguments.
    Call { span: Span, left: Box<Expression>, arguments: Vec<Expression> },
    /// Generic arguments given to an expression, as `into[uint32]`.
    GenericArguments { span: Span, left: Box<Expression>, generic_arguments: Vec<GenericArgument> },
    /// A tuple, as `(a, 3)` or `(a,)`.
    Tuple { span: Span, elements: Vec<Expression> },
    /// A struct with values for its fields.
    Struct { span: Span, left: Box<Expression>, fields: Vec<StructExpressionItem> },
    /// A `match` with its arms.
    Match { span: Span, expression: Box<Expression>, block: Vec<MatchExpressionItem> },
    /// A function without a name, as `|x| { x + 1 }`.
    Lambda {
        span: Span,
        parameters: Vec<LambdaFunctionParameter>,
        return_type: Option<Type>,
        block: Vec<Statement>,
    },
}

/// A parameter of a lambda, with its type where one is given.
#[derive(Debug, PartialEq)]
pub struct LambdaFunctionParameter {
    pub name: IdentifierAst,
    pub ty: Option<Type>,
}

/// An arm of a `match`: a pattern, `=>` and an expression.
#[derive(Debug, PartialEq)]
pub struct MatchExpressionItem {
    pub left: Pattern,
    pub right: Expression,
}

/// A field of a struct expression, with its value where one is given.
#[derive(Debug, PartialEq)]
pub struct StructExpressionItem {
    pub name: IdentifierAst,
    pub value: Option<Expression>,
}

/// A statement.
#[derive(Debug, PartialEq)]
#[allow(inconsistent_fields)]
pub enum Statement {
    /// `defer` and a call.
    Defer { call: Expression },
    /// An expression, with or without `;` after it.
    Expression { expression: Expression, has_semicolon: bool },
    /// `break;`
    Break { span: Span },
    /// `continue;`
    Continue { span: Span },
    /// `return` and an expression.
    Return { expression: Expression },
    /// `let` with a pattern, a value and a type where one is given.
    Let { pattern: Pattern, value: Expression, ty: Option<Type> },
}

/// A field of a tuple-like struct or enum item.
#[derive(Debug, PartialEq)]
pub struct TupleField {
    pub visibility: Visibility,
    pub ty: Type,
}

/// A field of a struct or of a struct-like enum item.
#[derive(Debug, PartialEq)]
pub struct StructField {
    pub visibility: Visibility,
    pub name: IdentifierAst,
    pub ty: Type,
    pub docstring: Option<String>,
}

/// An item of an enum.
#[derive(Debug, PartialEq)]
#[allow(inconsistent_fields)]
pub enum EnumItem {
    /// A name alone.
    Just { name: IdentifierAst, docstring: Option<String> },
    /// A name with types in parentheses.
    Tuple { name: IdentifierAst, fields: Vec<TupleField>, docstring: Option<String> },
    /// A name with fields in braces.
    Struct { name: IdentifierAst, fields: Vec<StructField>, docstring: Option<String> },
}

/// The parameter `self`, with its type where one is given.
#[derive(Debug, PartialEq)]
pub struct SelfParameter {
    pub self_span: Span,
    pub ty: Option<Type>,
}

/// A parameter with a name and a type.
#[derive(Debug, PartialEq)]
pub struct JustFunctionParameter {
    pub name: IdentifierAst,
    pub ty: Type,
}

/// A parameter of a function.
#[derive(Debug, PartialEq)]
#[allow(inconsistent_fields)]
pub enum FunctionParameter {
    /// A parameter with a name and a type.
    Just(JustFunctionParameter),
    /// The parameter `self`.
    Self_(SelfParameter),
}

/// A function, with its body where it has one.
#[derive(Debug, PartialEq)]
pub struct Function {
    pub visibility: Visibility,
    pub name: IdentifierAst,
    pub generic_parameters: Option<Vec<GenericParameter>>,
    pub parameters: Vec<FunctionParameter>,
    pub return_type: Option<Type>,
    pub where_clause: Option<Vec<WhereClauseItem>>,
    pub body: Option<Vec<Statement>>,
    pub docstring: Option<String>,
}

/// An item of a trait or of an implementation.
#[derive(Debug, PartialEq)]
#[allow(inconsistent_fields)]
pub enum TraitItem {
    /// A type alias.
    TypeAlias(TypeAlias),
    /// A function.
    AssociatedFunction(Function),
}

/// An implementation of a type, or of a trait for a type.
#[derive(Debug, PartialEq)]
pub struct Impl {
    pub generic_parameters: Option<Vec<GenericParameter>>,
    pub ty: Type,
    pub implemented_trait: Option<Type>,
    pub where_clause: Option<Vec<WhereClauseItem>>,
    pub items: Vec<TraitItem>,
    pub docstring: Option<String>,
}

/// An item of a module.
#[derive(Debug, PartialEq)]
#[allow(inconsistent_fields)]
pub enum Item {
    /// An enum.
    Enum {
        visibility: Visibility,
        name: IdentifierAst,
        generic_parameters: Option<Vec<GenericParameter>>,
        where_clause: Option<Vec<WhereClauseItem>>,
        items: Vec<EnumItem>,
        docstring: Option<String>,
    },
    /// A function.
    Function(Function),
    /// An import.
    Import { visibility: Visibility, path: ImportPath },
    /// A trait.
    Trait {
        visibility: Visibility,
        name: IdentifierAst,
        generic_parameters: Option<Vec<GenericParameter>>,
        where_clause: Option<Vec<WhereClauseItem>>,
        items: Vec<TraitItem>,
        docstring: Option<String>,
    },
    /// An implementation.
    Impl(Impl),
    /// A struct with named fields.
    Struct {
        visibility: Visibility,
        name: IdentifierAst,
        generic_parameters: Option<Vec<GenericParameter>>,
        where_clause: Option<Vec<WhereClauseItem>>,
        fields: Vec<StructField>,
        docstring: Option<String>,
    },
    /// A struct whose fields have no names.
    TupleLikeStruct {
        visibility: Visibility,
        name: IdentifierAst,
        generic_parameters: Option<Vec<GenericParameter>>,
        where_clause: Option<Vec<WhereClauseItem>>,
        fields: Vec<TupleField>,
        docstring: Option<String>,
    },
    /// A type alias.
    TypeAlias(TypeAlias),
}

/// A source file: its items in order, and the comment that documents it.
#[derive(Debug, PartialEq)]
pub struct Module {
    pub items: Vec<Item>,
    pub docstring: Option<String>,
}

/// Bounds on a type: trait paths separated by `+`.
pub type TypeBounds = Vec<TypePath>;

/// The entries of a where clause.
pub type WhereClause = Vec<WhereClauseItem>;

/// The statements of a block.
pub type StatementsBlock = Vec<Statement>;

impl Literal {
    /// The span of the literal.
    #[inline]
    #[must_use]
    pub fn span(&self) -> (r: Span)
        ensures
            r == literal_model(*self).span(),
    {
        proof {
            lemma_literal_model(*self);
        }
        match self {
            Literal::Boolean { span, .. }
            | Literal::Character { span, .. }
            | Literal::String { span, .. }
            | Literal::Integer { span, .. }
            | Literal::Float { span, .. } => *span,
        }
    }
}

impl Pattern {
    /// The span of the pattern.
    #[inline]
    #[must_use]
    pub fn span(&self) -> (r: Span)
        ensures
            r == pattern_model(*self).span(),
    {
        proof {
            lemma_pattern_model(*self);
        }
        match self {
            Pattern::Literal(literal) => literal.span(),
            Pattern::Grouped { span, .. }
            | Pattern::Identifier { span, .. }
            | Pattern::List { span, .. }
            | Pattern::Or { span, .. }
            | Pattern::Rest { span }
            | Pattern::Struct { span, .. }
            | Pattern::Tuple { span, .. }
            | Pattern::TupleLike { span, .. }
            | Pattern::Path { span, .. } => *span,
        }
    }
}

impl Type {
    /// The span of the type.
    #[inline]
    #[must_use]
    pub fn span(&self) -> (r: Span)
        ensures
            r == type_model(*self).span(),
    {
        proof {
            lemma_type_model(*self);
        }
        match self {
            Type::Path(path) => {
                proof {
                    lemma_type_path_model(*path);
                }
                path.span
            },
            Type::Function { span, .. }
            | Type::Parenthesized { span, .. }
            | Type::TraitObject { span, .. }
            | Type::Tuple { span, .. }
            | Type::WithQualifiedPath { span, .. } => *span,
        }
    }
}

impl Expression {
    /// The span of the expression.
    #[inline]
    #[must_use]
    pub fn span(&self) -> (r: Span)
        ensures
            r == expression_model(*self).span(),
    {
        proof {
            lemma_expression_model(*self);
        }
        match self {
            Expression::Literal(literal) => literal.span(),
            Expression::Identifier(identifier) => identifier.span,
            Expression::List { span, .. }
            | Expression::As { span, .. }
            | Expression::Binary { span, .. }
            | Expression::StatementsBlock { span, .. }
            | Expression::Parenthesized { span, .. }
            | Expression::If { span, .. }
            | Expression::FieldAccess { span, .. }
            | Expression::Prefix { span, .. }
            | Expression::Postfix { span, .. }
            | Expression::While { span, .. }
            | Expression::Call { span, .. }
            | Expression::GenericArguments { span, .. }
            | Expression::Tuple { span, .. }
            | Expression::Struct { span, .. }
            | Expression::Match { span, .. }
            | Expression::Lambda { span, .. } => *span,
        }
    }

    /// Returns `true` if the expression ends with a block of its own: an
    /// `if` or a `while`. Such an expression needs no `;` after it.
    #[inline]
    #[must_use]
    pub fn with_block(&self) -> (r: bool)
        ensures
            r == expression_model(*self).with_block(),
    {
        proof {
            lemma_expression_model(*self);
        }
        match self {
            Expression::If { .. } | Expression::While { .. } => true,
            _ => false,
        }
    }
}

} // verus!
