use ry_frontend::ast::{
    Expression, GenericArgument, Item, Literal, Module, Pattern, Statement, Type,
};
use ry_frontend::diagnostics::{Expected, Node, ParseDiagnostic};
use ry_frontend::interner::Interner;
use ry_frontend::operator::RawBinaryOperator;
use ry_frontend::parser::parse_module;
use ry_frontend::span::Span;

fn parse(source: &str) -> (Module, Vec<ParseDiagnostic>, Interner) {
    let mut interner = Interner::new();
    let (module, diagnostics) = parse_module(1, source, &mut interner);
    (module, diagnostics, interner)
}

fn body_of(module: &Module) -> &Vec<Statement> {
    match &module.items[0] {
        Item::Function(function) => function.body.as_ref().unwrap(),
        other => panic!("expected a function, got {:?}", other),
    }
}

fn first_expression(source: &str) -> Expression {
    let (module, diagnostics, _) = parse(&format!("fun f() {{ {} }}", source));
    assert_eq!(diagnostics, vec![]);
    let mut module = module;
    match module.items.remove(0) {
        Item::Function(function) => match function.body.unwrap().remove(0) {
            Statement::Expression { expression, .. } => expression,
            other => panic!("expected an expression, got {:?}", other),
        },
        other => panic!("expected a function, got {:?}", other),
    }
}

fn alias_type(source: &str) -> Type {
    let (module, diagnostics, _) = parse(&format!("type A = {};", source));
    assert_eq!(diagnostics, vec![]);
    let mut module = module;
    match module.items.remove(0) {
        Item::TypeAlias(alias) => alias.value.unwrap(),
        other => panic!("expected a type alias, got {:?}", other),
    }
}

fn integer(expression: &Expression) -> u64 {
    match expression {
        Expression::Literal(Literal::Integer { value, .. }) => *value,
        other => panic!("expected an integer, got {:?}", other),
    }
}

#[test]
fn empty_module() {
    let (module, diagnostics, _) = parse("");
    assert_eq!(module, Module { items: vec![], docstring: None });
    assert_eq!(diagnostics, vec![]);
}

#[test]
fn product_binds_tighter_than_sum() {
    match first_expression("1 + 2 * 3") {
        Expression::Binary { left, operator, right, span } => {
            assert_eq!(operator.raw, RawBinaryOperator::Plus);
            assert_eq!(integer(&left), 1);
            assert_eq!(span, Span { start: 10, end: 19, file_id: 1 });
            match *right {
                Expression::Binary { left, operator, right, .. } => {
                    assert_eq!(operator.raw, RawBinaryOperator::Star);
                    assert_eq!(integer(&left), 2);
                    assert_eq!(integer(&right), 3);
                },
                other => panic!("expected a product, got {:?}", other),
            }
        },
        other => panic!("expected a sum, got {:?}", other),
    }
}

#[test]
fn sum_after_product_groups_the_product_first() {
    match first_expression("1 * 2 + 3") {
        Expression::Binary { left, operator, right, .. } => {
            assert_eq!(operator.raw, RawBinaryOperator::Plus);
            assert_eq!(integer(&right), 3);
            match *left {
                Expression::Binary { left, operator, right, .. } => {
                    assert_eq!(operator.raw, RawBinaryOperator::Star);
                    assert_eq!(integer(&left), 1);
                    assert_eq!(integer(&right), 2);
                },
                other => panic!("expected a product, got {:?}", other),
            }
        },
        other => panic!("expected a sum, got {:?}", other),
    }
}

#[test]
fn equal_precedence_groups_to_the_left() {
    match first_expression("1 - 2 + 3") {
        Expression::Binary { left, operator, right, .. } => {
            assert_eq!(operator.raw, RawBinaryOperator::Plus);
            assert_eq!(integer(&right), 3);
            assert!(matches!(*left, Expression::Binary { .. }));
        },
        other => panic!("expected a sum, got {:?}", other),
    }
}

#[test]
fn list_accepts_a_trailing_comma() {
    let with = first_expression("[1, 2, 3,]");
    let without = first_expression("[1, 2, 3]");
    match (with, without) {
        (Expression::List { elements: a, .. }, Expression::List { elements: b, .. }) => {
            assert_eq!(a.len(), 3);
            assert_eq!(a, b);
        },
        other => panic!("expected two lists, got {:?}", other),
    }
}

#[test]
fn literal_span_gives_back_its_text() {
    let source = "fun f() { 1234; \"a\\nb\"; 'c'; 1.5; true }";
    let (module, diagnostics, _) = parse(source);
    assert_eq!(diagnostics, vec![]);
    let texts: Vec<&str> = body_of(&module)
        .iter()
        .map(|statement| match statement {
            Statement::Expression { expression: Expression::Literal(literal), .. } => {
                let span = literal.span();
                &source[span.start..span.end]
            },
            other => panic!("expected a literal, got {:?}", other),
        })
        .collect();
    assert_eq!(texts, vec!["1234", "\"a\\nb\"", "'c'", "1.5", "true"]);
    match &body_of(&module)[1] {
        Statement::Expression {
            expression: Expression::Literal(Literal::String { value, .. }),
            ..
        } => {
            assert_eq!(value, "a\nb");
        },
        other => panic!("expected a string, got {:?}", other),
    }
    match &body_of(&module)[3] {
        Statement::Expression {
            expression: Expression::Literal(Literal::Float { value, .. }),
            ..
        } => {
            let number: f64 = value.parse().unwrap();
            assert_eq!(number, 1.5);
        },
        other => panic!("expected a float, got {:?}", other),
    }
}

#[test]
fn parenthesized_tuple_and_function_types() {
    assert!(matches!(alias_type("(B)"), Type::Parenthesized { .. }));
    match alias_type("(B,)") {
        Type::Tuple { element_types, .. } => assert_eq!(element_types.len(), 1),
        other => panic!("expected a tuple, got {:?}", other),
    }
    match alias_type("(B, C)") {
        Type::Tuple { element_types, .. } => assert_eq!(element_types.len(), 2),
        other => panic!("expected a tuple, got {:?}", other),
    }
    match alias_type("()") {
        Type::Tuple { element_types, .. } => assert_eq!(element_types.len(), 0),
        other => panic!("expected a tuple, got {:?}", other),
    }
    match alias_type("(B): C") {
        Type::Function { parameter_types, return_type, .. } => {
            assert_eq!(parameter_types.len(), 1);
            assert!(matches!(*return_type, Type::Path(_)));
        },
        other => panic!("expected a function type, got {:?}", other),
    }
}

#[test]
fn generic_argument_with_eq_is_an_associated_type() {
    match alias_type("Iterator[Item = uint32].Item") {
        Type::Path(path) => {
            assert_eq!(path.segments.len(), 2);
            let arguments = path.segments[0].generic_arguments.as_ref().unwrap();
            assert!(matches!(arguments[0], GenericArgument::AssociatedType { .. }));
        },
        other => panic!("expected a type path, got {:?}", other),
    }
    match alias_type("List[uint32]") {
        Type::Path(path) => {
            let arguments = path.segments[0].generic_arguments.as_ref().unwrap();
            assert!(matches!(arguments[0], GenericArgument::Type(_)));
        },
        other => panic!("expected a type path, got {:?}", other),
    }
}

#[test]
fn qualified_path_and_trait_object_types() {
    assert!(
        matches!(alias_type("[List[uint32] as IntoIterator].Item"), Type::WithQualifiedPath { .. })
    );
    match alias_type("dyn Iterator + Debug") {
        Type::TraitObject { bounds, .. } => assert_eq!(bounds.len(), 2),
        other => panic!("expected a trait object, got {:?}", other),
    }
}

#[test]
fn unknown_token_at_item_level_is_reported_and_skipped() {
    let (module, diagnostics, _) = parse("+ fun f() {}");
    assert_eq!(module.items.len(), 1);
    assert_eq!(diagnostics.len(), 1);
    assert_eq!(diagnostics[0].expected, Expected::Item);
    assert_eq!(diagnostics[0].node, Node::Item);
    assert_eq!(diagnostics[0].got.span, Span { start: 0, end: 1, file_id: 1 });
}

#[test]
fn items_of_every_kind() {
    let source = "//! The module.
/// An enum.
pub enum Option[T] { None, Some(T), Both { pub left: T, right: T } }
import std.io as myio;
use std.fs;
struct Person[T] where T: Debug { name: String, pub age: uint32 }
struct Wrapper(pub String);
trait Into[T] { fun into(self): T; type Output; }
impl[T] ToString for T where T: Into[String] { pub fun to_string(self): String { self.into() } }
type Result[E] = Outcome[String, E];
fun main() { let x: uint32 = 1; defer close(x); while x < 2 { break; } return x; }
";
    let (module, diagnostics, _) = parse(source);
    assert_eq!(diagnostics, vec![]);
    assert_eq!(module.docstring.as_deref(), Some(" The module.\n"));
    assert_eq!(module.items.len(), 9);
    assert!(matches!(module.items[0], Item::Enum { .. }));
    assert!(matches!(module.items[1], Item::Import { .. }));
    assert!(matches!(module.items[2], Item::Import { .. }));
    assert!(matches!(module.items[3], Item::Struct { .. }));
    assert!(matches!(module.items[4], Item::TupleLikeStruct { .. }));
    assert!(matches!(module.items[5], Item::Trait { .. }));
    assert!(matches!(module.items[6], Item::Impl(_)));
    assert!(matches!(module.items[7], Item::TypeAlias(_)));
    assert!(matches!(module.items[8], Item::Function(_)));
    match &module.items[0] {
        Item::Enum { docstring, items, .. } => {
            assert_eq!(docstring.as_deref(), Some(" An enum.\n"));
            assert_eq!(items.len(), 3);
        },
        _ => unreachable!(),
    }
    match &module.items[8] {
        Item::Function(function) => assert_eq!(function.body.as_ref().unwrap().len(), 4),
        _ => unreachable!(),
    }
}

#[test]
fn expressions_of_many_kinds() {
    assert!(matches!(first_expression("f(1, 2)"), Expression::Call { .. }));
    assert!(matches!(first_expression("a.b"), Expression::FieldAccess { .. }));
    assert!(matches!(first_expression("into[uint32]"), Expression::GenericArguments { .. }));
    assert!(matches!(first_expression("x as float32"), Expression::As { .. }));
    assert!(matches!(first_expression("x?"), Expression::Postfix { .. }));
    assert!(matches!(first_expression("!x"), Expression::Prefix { .. }));
    assert!(matches!(first_expression("(x)"), Expression::Parenthesized { .. }));
    assert!(matches!(first_expression("(x,)"), Expression::Tuple { .. }));
    assert!(matches!(first_expression("(x, y)"), Expression::Tuple { .. }));
    assert!(matches!(first_expression("Person { name: 1, age }"), Expression::Struct { .. }));
    assert!(matches!(first_expression("|x, y: T|: T { x }"), Expression::Lambda { .. }));
    assert!(matches!(first_expression("{ 1 }"), Expression::StatementsBlock { .. }));
    assert!(matches!(
        first_expression(
            "match x { Some(a) => a, None => 1, [.., b @ (3 | 4)] => b, P { y, .. } => y }"
        ),
        Expression::Match { .. }
    ));
    match first_expression("if a { 1 } else if b { 2 } else { 3 }") {
        Expression::If { if_blocks, otherwise, .. } => {
            assert_eq!(if_blocks.len(), 2);
            assert!(otherwise.is_some());
        },
        other => panic!("expected an if, got {:?}", other),
    }
    match first_expression("-a ** 2") {
        Expression::Binary { left, .. } => assert!(matches!(*left, Expression::Prefix { .. })),
        other => panic!("expected a power, got {:?}", other),
    }
}

#[test]
fn patterns_in_let() {
    let (module, diagnostics, _) = parse("fun f() { let (a, b) = c; let x @ 1 = y; let a.b = c; }");
    assert_eq!(diagnostics, vec![]);
    let body = body_of(&module);
    assert!(matches!(body[0], Statement::Let { pattern: Pattern::Tuple { .. }, .. }));
    assert!(matches!(body[1], Statement::Let { pattern: Pattern::Identifier { .. }, .. }));
    assert!(matches!(body[2], Statement::Let { pattern: Pattern::Path { .. }, .. }));
}

#[test]
fn statement_that_cannot_be_read_is_left_out() {
    let (module, diagnostics, _) = parse("fun f() { let = 1; x; }");
    assert_eq!(diagnostics.len(), 1);
    assert_eq!(diagnostics[0].expected, Expected::Pattern);
    assert_eq!(body_of(&module).len(), 1);
}

#[test]
fn mismatched_closer_ends_the_list_at_the_next_closer() {
    let (module, diagnostics, _) = parse("fun f() { [1 2]; x }");
    assert_eq!(diagnostics.len(), 1);
    assert_eq!(diagnostics[0].node, Node::ListExpression);
    let body = body_of(&module);
    assert_eq!(body.len(), 2);
    match &body[0] {
        Statement::Expression { expression: Expression::List { elements, .. }, .. } => {
            assert_eq!(elements.len(), 1)
        },
        other => panic!("expected a list, got {:?}", other),
    }
}

#[test]
fn end_of_file_in_a_construct_still_gives_a_module() {
    let (module, diagnostics, _) = parse("fun a() {} struct");
    assert_eq!(module.items.len(), 1);
    assert_eq!(diagnostics.len(), 1);
    assert_eq!(diagnostics[0].expected, Expected::Identifier);
}
