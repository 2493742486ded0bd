use std::sync::Arc;
use tsc_rs::number::NumberValue;
use tsc_rs::types::{check_type_compatibility, infer_type_from_literal, Type};
use tsc_rs::text::trim_quotes;

fn number(value: f64) -> NumberValue {
    NumberValue::new(value.to_bits(), value.to_string())
}

fn read_number(value: &str) -> Option<NumberValue> {
    trim_quotes(value).parse::<f64>().ok().map(number)
}

fn infer(value: &str) -> Type {
    infer_type_from_literal(value, read_number(value))
}

#[test]
fn test_type_inference() {
    assert_eq!(infer("null"), Type::Null);
    assert_eq!(infer("42"), Type::NumberLiteral(number(42.0)));
    assert_eq!(infer("true"), Type::BooleanLiteral(true));
    assert_eq!(infer("false"), Type::BooleanLiteral(false));
    assert_eq!(infer("hello"), Type::StringLiteral("hello".to_string()));
}

#[test]
fn test_type_compatibility() {
    // Test basic type compatibility
    assert!(check_type_compatibility(&Type::Any, &Type::Number));
    assert!(check_type_compatibility(&Type::Number, &Type::Number));
    assert!(!check_type_compatibility(&Type::String, &Type::Number));

    // Test array type compatibility
    let number_array = Type::Array(Arc::new(Type::Number));
    let string_array = Type::Array(Arc::new(Type::String));
    let any_array = Type::Array(Arc::new(Type::Any));

    assert!(check_type_compatibility(&any_array, &number_array));
    assert!(check_type_compatibility(&number_array, &number_array));
    assert!(!check_type_compatibility(&string_array, &number_array));

    // Test function type compatibility
    let func1 = Type::Function {
        params: vec![Type::Number],
        return_type: Arc::new(Type::Boolean),
    };
    let func2 = Type::Function {
        params: vec![Type::Number],
        return_type: Arc::new(Type::Boolean),
    };
    let func3 = Type::Function {
        params: vec![Type::String],
        return_type: Arc::new(Type::Boolean),
    };

    assert!(check_type_compatibility(&func1, &func2));
    assert!(!check_type_compatibility(&func1, &func3));
}

#[test]
fn test_literal_types() {
    // Test string literal types
    let hello_type = Type::StringLiteral("hello".to_string());
    let world_type = Type::StringLiteral("world".to_string());
    let string_type = Type::String;

    assert!(check_type_compatibility(&string_type, &hello_type));
    assert!(!check_type_compatibility(&hello_type, &world_type));
    assert!(check_type_compatibility(&hello_type, &hello_type));

    // Test number literal types
    let num_42 = Type::NumberLiteral(number(42.0));
    let num_43 = Type::NumberLiteral(number(43.0));
    let number_type = Type::Number;

    assert!(check_type_compatibility(&number_type, &num_42));
    assert!(!check_type_compatibility(&num_42, &num_43));
    assert!(check_type_compatibility(&num_42, &num_42));

    // Test boolean literal types
    let true_type = Type::BooleanLiteral(true);
    let false_type = Type::BooleanLiteral(false);
    let boolean_type = Type::Boolean;

    assert!(check_type_compatibility(&boolean_type, &true_type));
    assert!(!check_type_compatibility(&true_type, &false_type));
    assert!(check_type_compatibility(&true_type, &true_type));

    // Test literal type display
    assert_eq!(hello_type.to_string(), "\"hello\"");
    assert_eq!(num_42.to_string(), "42");
    assert_eq!(true_type.to_string(), "true");
}
