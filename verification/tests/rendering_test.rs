use std::sync::Arc;
use tsc_rs::ast::TypeNode;
use tsc_rs::number::NumberValue;
use tsc_rs::type_checker::TypeChecker;
use tsc_rs::types::Type;

fn number(value: f64) -> NumberValue {
    NumberValue::new(value.to_bits(), value.to_string())
}

#[test]
fn keyword_types_render_as_their_keyword() {
    assert_eq!(Type::Any.to_string(), "any");
    assert_eq!(Type::Number.to_string(), "number");
    assert_eq!(Type::String.to_string(), "string");
    assert_eq!(Type::Boolean.to_string(), "boolean");
    assert_eq!(Type::Null.to_string(), "null");
    assert_eq!(Type::Undefined.to_string(), "undefined");
    assert_eq!(Type::Never.to_string(), "never");
    assert_eq!(Type::BigInt.to_string(), "bigint");
    assert_eq!(Type::Symbol.to_string(), "symbol");
    assert_eq!(Type::Object.to_string(), "object");
    assert_eq!(Type::Unknown.to_string(), "unknown");
    assert_eq!(Type::Void.to_string(), "void");
}

#[test]
fn keyword_nodes_render_back_to_their_keyword() {
    let checker = TypeChecker::new();
    let nodes = vec![
        (TypeNode::AnyKeyword, "any"),
        (TypeNode::NumberKeyword, "number"),
        (TypeNode::StringKeyword, "string"),
        (TypeNode::BooleanKeyword, "boolean"),
        (TypeNode::NullKeyword, "null"),
        (TypeNode::UndefinedKeyword, "undefined"),
        (TypeNode::NeverKeyword, "never"),
        (TypeNode::BigIntKeyword, "bigint"),
        (TypeNode::SymbolKeyword, "symbol"),
        (TypeNode::ObjectKeyword, "object"),
        (TypeNode::UnknownKeyword, "unknown"),
        (TypeNode::VoidKeyword, "void"),
    ];
    for (node, keyword) in &nodes {
        assert_eq!(checker.check_type(node).to_string(), *keyword);
    }
}

#[test]
fn literal_types_render_as_the_literal() {
    assert_eq!(Type::StringLiteral("hello".to_string()).to_string(), "\"hello\"");
    assert_eq!(Type::StringLiteral(String::new()).to_string(), "\"\"");
    assert_eq!(Type::StringLiteral("a\"b".to_string()).to_string(), "\"a\"b\"");
    assert_eq!(Type::NumberLiteral(number(42.0)).to_string(), "42");
    assert_eq!(Type::NumberLiteral(number(-1.5)).to_string(), "-1.5");
    assert_eq!(Type::NumberLiteral(number(f64::NAN)).to_string(), "NaN");
    assert_eq!(Type::BooleanLiteral(true).to_string(), "true");
    assert_eq!(Type::BooleanLiteral(false).to_string(), "false");
}

#[test]
fn a_numeric_literal_renders_as_the_text_it_was_made_with() {
    let written = Type::NumberLiteral(NumberValue::new(1e3f64.to_bits(), "1e3".to_string()));
    assert_eq!(written.to_string(), "1e3");
}

#[test]
fn unions_render_with_bars() {
    assert_eq!(Type::Union(vec![Type::Number, Type::String]).to_string(), "number | string");
    assert_eq!(
        Type::Union(vec![Type::Null, Type::BooleanLiteral(true), Type::StringLiteral("a".to_string())])
            .to_string(),
        "null | true | \"a\""
    );
    assert_eq!(Type::Union(vec![Type::Never]).to_string(), "never");
    assert_eq!(Type::Union(vec![]).to_string(), "");
}

#[test]
fn arrays_render_with_brackets_behind() {
    assert_eq!(Type::Array(Arc::new(Type::Number)).to_string(), "number[]");
    assert_eq!(Type::Array(Arc::new(Type::Array(Arc::new(Type::String)))).to_string(), "string[][]");
    // No parentheses are put around a union element.
    assert_eq!(
        Type::Array(Arc::new(Type::Union(vec![Type::Number, Type::String]))).to_string(),
        "number | string[]"
    );
}

#[test]
fn tuples_render_in_square_brackets() {
    assert_eq!(Type::Tuple(vec![Type::Number, Type::String]).to_string(), "[number, string]");
    assert_eq!(Type::Tuple(vec![Type::Boolean]).to_string(), "[boolean]");
    assert_eq!(Type::Tuple(vec![]).to_string(), "[]");
    assert_eq!(
        Type::Tuple(vec![Type::Tuple(vec![Type::Any, Type::Any]), Type::Array(Arc::new(Type::Void))])
            .to_string(),
        "[[any, any], void[]]"
    );
}

#[test]
fn functions_render_as_arrows() {
    let two = Type::Function {
        params: vec![Type::Number, Type::String],
        return_type: Arc::new(Type::Boolean),
    };
    assert_eq!(two.to_string(), "(number, string) => boolean");
    let none = Type::Function { params: vec![], return_type: Arc::new(Type::Void) };
    assert_eq!(none.to_string(), "() => void");
    let higher = Type::Function { params: vec![none], return_type: Arc::new(two) };
    assert_eq!(higher.to_string(), "(() => void) => (number, string) => boolean");
}
