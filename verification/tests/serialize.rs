use ry_frontend::ast::{IdentifierAst, ItemKind, Literal, Visibility};
use ry_frontend::interner::Interner;
use ry_frontend::parser::parse_module;
use ry_frontend::serialize::{
    number_string, serialize_ast, serialize_identifier, serialize_literal, span_string,
    visibility_string, Serializer,
};
use ry_frontend::span::Span;

fn text_of(source: &str) -> String {
    let mut interner = Interner::new();
    let (module, diagnostics) = parse_module(1, source, &mut interner);
    assert_eq!(diagnostics, vec![]);
    serialize_ast(&module, &interner)
}

#[test]
fn empty_function_as_text() {
    assert_eq!(
        text_of("fun f() {}"),
        "MODULE\n\tITEMS: \n\t\tFUNCTION\n\t\t\tVISIBILITY: PRIVATE\n\t\t\tNAME: IDENTIFIER(`f`)@4..5\n\t\t\tPARAMETERS: EMPTY\n\t\t\tBODY: EMPTY"
    );
}

#[test]
fn empty_module_as_text() {
    assert_eq!(text_of(""), "MODULE\n\tITEMS: EMPTY");
}

#[test]
fn binary_expression_as_text() {
    let text = text_of("fun f() { 1 + 2 * 3 }");
    let expected = "BINARY_EXPRESSION@10..19\n\t\t\t\t\t\tLEFT: INTEGER_LITERAL(1)@10..11\n\t\t\t\t\t\tOPERATOR: +@12..13\n\t\t\t\t\t\tRIGHT: BINARY_EXPRESSION@14..19\n\t\t\t\t\t\t\tLEFT: INTEGER_LITERAL(2)@14..15\n\t\t\t\t\t\t\tOPERATOR: *@16..17\n\t\t\t\t\t\t\tRIGHT: INTEGER_LITERAL(3)@18..19";
    assert!(text.contains(expected), "{}", text);
    assert!(text.ends_with("HAS_SEMICOLON: FALSE"));
}

#[test]
fn serializing_twice_gives_the_same_text() {
    let source = "/// Doc.\npub struct P[T] where T: A + B { pub x: T, y: (T, T) }\nimpl[T] S for P[T] { fun f(self, a: [T as S].Item): dyn S { match a { P { x, .. } => x, _y @ (1 | 2) => 'c' } } }";
    let mut interner = Interner::new();
    let (module, diagnostics) = parse_module(1, source, &mut interner);
    assert_eq!(diagnostics, vec![]);
    let first = serialize_ast(&module, &interner);
    let second = serialize_ast(&module, &interner);
    assert_eq!(first, second);
    assert!(first.contains("TYPE_WITH_QUALIFIED_PATH@"));
    assert!(first.contains("TRAIT_OBJECT_TYPE@"));
    assert!(first.contains("SELF_PARAMETER"));
    assert!(first.contains("CHARACTER_LITERAL(`c`)@"));
    assert!(first.contains("REST_STRUCT_FIELD_PATTERN@"));
    assert!(first.contains("OR_PATTERN@"));
    assert!(first.contains("WHERE_CLAUSE_ITEM_SATISFIES"));
    assert!(first.contains("VISIBILITY: PUBLIC@9..12"));
}

#[test]
fn span_sentinels() {
    assert_eq!(span_string(Span::dummy()), "DUMMY");
    assert_eq!(span_string(Span { start: 0, end: 0, file_id: 0 }), "DUMMY");
    assert_eq!(span_string(Span { start: 5, end: 5, file_id: 1 }), "INVALID");
    assert_eq!(span_string(Span { start: 7, end: 3, file_id: 1 }), "INVALID");
    assert_eq!(span_string(Span { start: 0, end: 12, file_id: 1 }), "0..12");
    assert!(Span::dummy().is_dummy());
    assert!(!Span::dummy().is_valid());
    assert!(Span::new(1, 2, 3).is_valid());
}

#[test]
fn numbers_as_text() {
    assert_eq!(number_string(0), "0");
    assert_eq!(number_string(9), "9");
    assert_eq!(number_string(10), "10");
    assert_eq!(number_string(1234567890), "1234567890");
    assert_eq!(number_string(u64::MAX), "18446744073709551615");
}

#[test]
fn literals_as_text() {
    let span = Span { start: 1, end: 2, file_id: 1 };
    assert_eq!(
        serialize_literal(&Literal::Boolean { value: true, span }),
        "BOOLEAN_LITERAL(TRUE)@1..2",
    );
    assert_eq!(
        serialize_literal(&Literal::Boolean { value: false, span }),
        "BOOLEAN_LITERAL(FALSE)@1..2",
    );
    assert_eq!(
        serialize_literal(&Literal::Integer { value: 42, span }),
        "INTEGER_LITERAL(42)@1..2",
    );
    assert_eq!(
        serialize_literal(&Literal::String { value: "hi".to_owned(), span }),
        "STRING_LITERAL(`hi`)@1..2"
    );
    assert_eq!(
        serialize_literal(&Literal::Float { value: "1.5".to_owned(), span }),
        "FLOAT_LITERAL(1.5)@1..2"
    );
}

#[test]
fn identifier_and_visibility_as_text() {
    let mut interner = Interner::new();
    let symbol = interner.get_or_intern("name");
    let span = Span { start: 3, end: 7, file_id: 1 };
    assert_eq!(
        serialize_identifier(IdentifierAst { span, symbol }, &interner),
        "IDENTIFIER(`name`)@3..7",
    );
    assert_eq!(
        serialize_identifier(IdentifierAst { span, symbol: 99 }, &interner),
        "IDENTIFIER(``)@3..7",
    );
    assert_eq!(visibility_string(Visibility::private()), "PRIVATE");
    assert_eq!(visibility_string(Visibility::public(span)), "PUBLIC@3..7");
    assert_eq!(Visibility::default(), Visibility::private());
    assert_eq!(Visibility::public(span).span_of_pub(), Some(span));
}

#[test]
fn serializer_writes_at_its_indentation() {
    let interner = Interner::new();
    let mut serializer = Serializer::new(&interner);
    assert_eq!(serializer.identation(), 0);
    serializer.write("A");
    serializer.increment_indentation();
    serializer.increment_indentation();
    serializer.write_newline();
    serializer.write_identation();
    serializer.write("B");
    serializer.decrement_indentation();
    assert_eq!(serializer.identation(), 1);
    assert_eq!(serializer.output(), "A\n\t\tB");
    serializer.decrement_indentation();
    serializer.decrement_indentation();
    assert_eq!(serializer.identation(), 0);
    assert_eq!(serializer.interner().len(), 0);
    assert_eq!(serializer.take_output(), "A\n\t\tB");
}

#[test]
fn item_kinds_have_names() {
    assert_eq!(ItemKind::Impl.to_string(), "type implementation");
    assert_eq!(ItemKind::TypeAlias.as_ref(), "type alias");
    assert_eq!(ItemKind::Enum.as_ref(), "enum");
}
