use std::sync::Arc;
use tsc_rs::number::NumberValue;
use tsc_rs::types::{check_type_compatibility, Type};

fn number(value: f64) -> NumberValue {
    NumberValue::new(value.to_bits(), value.to_string())
}

fn keywords() -> Vec<Type> {
    vec![
        Type::Any,
        Type::Number,
        Type::String,
        Type::Boolean,
        Type::Null,
        Type::Undefined,
        Type::Never,
        Type::BigInt,
        Type::Symbol,
        Type::Object,
        Type::Unknown,
        Type::Void,
    ]
}

fn function(params: Vec<Type>, return_type: Type) -> Type {
    Type::Function { params, return_type: Arc::new(return_type) }
}

fn array(element: Type) -> Type {
    Type::Array(Arc::new(element))
}

#[test]
fn keyword_types_match_themselves_and_any_matches_all() {
    let expected = keywords();
    let actual = keywords();
    for (i, e) in expected.iter().enumerate() {
        for (j, a) in actual.iter().enumerate() {
            assert_eq!(check_type_compatibility(e, a), i == j || i == 0, "{:?} <- {:?}", e, a);
        }
    }
}

#[test]
fn any_accepts_literals_and_composites() {
    let actuals = vec![
        Type::StringLiteral("hello".to_string()),
        Type::NumberLiteral(number(42.0)),
        Type::NumberLiteral(number(f64::NAN)),
        Type::BooleanLiteral(false),
        Type::Union(vec![Type::Number, Type::String]),
        Type::Union(vec![]),
        array(Type::Never),
        Type::Tuple(vec![Type::Number, Type::Void]),
        function(vec![Type::Number], Type::Boolean),
    ];
    for actual in &actuals {
        assert!(check_type_compatibility(&Type::Any, actual), "any <- {:?}", actual);
    }
}

#[test]
fn any_is_no_wildcard_as_the_actual_type() {
    for expected in keywords().iter().skip(1) {
        assert!(!check_type_compatibility(expected, &Type::Any), "{:?} <- any", expected);
    }
    assert!(!check_type_compatibility(&array(Type::Number), &Type::Any));
    assert!(!check_type_compatibility(&Type::BooleanLiteral(true), &Type::Any));
    assert!(check_type_compatibility(&Type::Union(vec![Type::Number, Type::Any]), &Type::Any));
}

#[test]
fn literals_widen_to_their_keyword_and_not_back() {
    let forty_two = Type::NumberLiteral(number(42.0));
    assert!(check_type_compatibility(&Type::Number, &forty_two));
    assert!(!check_type_compatibility(&forty_two, &Type::Number));

    let hello = Type::StringLiteral("hello".to_string());
    assert!(check_type_compatibility(&Type::String, &hello));
    assert!(!check_type_compatibility(&hello, &Type::String));

    let yes = Type::BooleanLiteral(true);
    assert!(check_type_compatibility(&Type::Boolean, &yes));
    assert!(!check_type_compatibility(&yes, &Type::Boolean));

    // A literal widens to its own keyword only.
    assert!(!check_type_compatibility(&Type::String, &forty_two));
    assert!(!check_type_compatibility(&Type::Number, &hello));
    assert!(!check_type_compatibility(&Type::Number, &yes));
}

#[test]
fn literals_match_by_value() {
    let forty_two = Type::NumberLiteral(number(42.0));
    assert!(check_type_compatibility(&forty_two, &Type::NumberLiteral(number(42.0))));
    assert!(!check_type_compatibility(&forty_two, &Type::NumberLiteral(number(43.0))));

    let hello = Type::StringLiteral("hello".to_string());
    assert!(check_type_compatibility(&hello, &Type::StringLiteral("hello".to_string())));
    assert!(!check_type_compatibility(&hello, &Type::StringLiteral("hellO".to_string())));
    assert!(!check_type_compatibility(&hello, &Type::StringLiteral(String::new())));

    assert!(check_type_compatibility(&Type::BooleanLiteral(false), &Type::BooleanLiteral(false)));
    assert!(!check_type_compatibility(&Type::BooleanLiteral(false), &Type::BooleanLiteral(true)));

    // Literals of different kinds never match.
    assert!(!check_type_compatibility(&forty_two, &Type::StringLiteral("42".to_string())));
    assert!(!check_type_compatibility(&Type::StringLiteral("true".to_string()), &Type::BooleanLiteral(true)));
}

#[test]
fn numeric_literals_match_as_numbers() {
    // The written form plays no part.
    let plain = Type::NumberLiteral(NumberValue::new(1000.0f64.to_bits(), "1000".to_string()));
    let exponent = Type::NumberLiteral(NumberValue::new(1e3f64.to_bits(), "1e3".to_string()));
    assert!(check_type_compatibility(&plain, &exponent));

    // The two zeros are one number.
    let zero = Type::NumberLiteral(number(0.0));
    let minus_zero = Type::NumberLiteral(number(-0.0));
    assert!(check_type_compatibility(&zero, &minus_zero));
    assert!(check_type_compatibility(&minus_zero, &zero));

    // A NaN equals nothing, itself included, but still widens to `number`.
    let nan = Type::NumberLiteral(number(f64::NAN));
    assert!(!check_type_compatibility(&nan, &nan));
    assert!(!check_type_compatibility(&nan, &Type::NumberLiteral(number(f64::NAN))));
    assert!(check_type_compatibility(&Type::Number, &nan));

    // Infinities are ordinary values.
    let infinity = Type::NumberLiteral(number(f64::INFINITY));
    assert!(check_type_compatibility(&infinity, &infinity));
    assert!(!check_type_compatibility(&infinity, &Type::NumberLiteral(number(f64::NEG_INFINITY))));
}

#[test]
fn unions_accept_what_a_member_accepts() {
    let number_or_string = Type::Union(vec![Type::Number, Type::String]);
    assert!(check_type_compatibility(&number_or_string, &Type::Number));
    assert!(check_type_compatibility(&number_or_string, &Type::String));
    assert!(check_type_compatibility(&number_or_string, &Type::StringLiteral("a".to_string())));
    assert!(!check_type_compatibility(&number_or_string, &Type::Boolean));

    // A union with no member accepts nothing.
    assert!(!check_type_compatibility(&Type::Union(vec![]), &Type::Number));

    // A union on the actual side is not taken apart.
    assert!(!check_type_compatibility(&number_or_string, &Type::Union(vec![Type::Number, Type::String])));
    assert!(!check_type_compatibility(&Type::Number, &Type::Union(vec![Type::Number])));

    // Unless a member accepts the union as a whole.
    let nested = Type::Union(vec![Type::Boolean, Type::Any]);
    assert!(check_type_compatibility(&nested, &Type::Union(vec![Type::Number])));
}

#[test]
fn arrays_follow_their_elements() {
    assert!(check_type_compatibility(&array(Type::Number), &array(Type::Number)));
    assert!(!check_type_compatibility(&array(Type::Number), &array(Type::String)));
    assert!(check_type_compatibility(&array(Type::Number), &array(Type::NumberLiteral(number(1.0)))));
    assert!(!check_type_compatibility(&array(Type::NumberLiteral(number(1.0))), &array(Type::Number)));
    assert!(check_type_compatibility(&array(array(Type::Any)), &array(array(Type::Void))));
    assert!(!check_type_compatibility(&array(Type::Number), &Type::Number));
    assert!(!check_type_compatibility(&array(Type::Number), &Type::Tuple(vec![Type::Number])));
}

#[test]
fn tuples_match_place_by_place() {
    let pair = Type::Tuple(vec![Type::Number, Type::String]);
    assert!(check_type_compatibility(&pair, &Type::Tuple(vec![Type::Number, Type::String])));
    assert!(check_type_compatibility(
        &pair,
        &Type::Tuple(vec![Type::NumberLiteral(number(1.0)), Type::StringLiteral("a".to_string())])
    ));
    assert!(!check_type_compatibility(&pair, &Type::Tuple(vec![Type::String, Type::Number])));
    assert!(check_type_compatibility(&Type::Tuple(vec![]), &Type::Tuple(vec![])));
}

#[test]
fn tuples_of_different_length_never_match() {
    let pair = Type::Tuple(vec![Type::Any, Type::Any]);
    assert!(!check_type_compatibility(&pair, &Type::Tuple(vec![Type::Number])));
    assert!(!check_type_compatibility(&pair, &Type::Tuple(vec![Type::Number, Type::Number, Type::Number])));
    assert!(!check_type_compatibility(&pair, &Type::Tuple(vec![])));
    assert!(!check_type_compatibility(&Type::Tuple(vec![]), &Type::Tuple(vec![Type::Any])));
}

#[test]
fn functions_match_by_parameters_and_return() {
    let expected = function(vec![Type::Number, Type::String], Type::Boolean);
    assert!(check_type_compatibility(&expected, &function(vec![Type::Number, Type::String], Type::Boolean)));

    // Equal parameter count.
    assert!(!check_type_compatibility(&expected, &function(vec![Type::Number], Type::Boolean)));
    assert!(!check_type_compatibility(
        &expected,
        &function(vec![Type::Number, Type::String, Type::Any], Type::Boolean)
    ));

    // Parameters go the same way as results.
    let takes_literal = function(vec![Type::NumberLiteral(number(1.0)), Type::String], Type::Boolean);
    assert!(check_type_compatibility(&expected, &takes_literal));
    assert!(!check_type_compatibility(&takes_literal, &expected));

    // The return type.
    let returns_literal = function(vec![Type::Number, Type::String], Type::BooleanLiteral(true));
    assert!(check_type_compatibility(&expected, &returns_literal));
    assert!(!check_type_compatibility(&returns_literal, &expected));
    assert!(!check_type_compatibility(&expected, &function(vec![Type::Number, Type::String], Type::Void)));

    assert!(check_type_compatibility(&function(vec![], Type::Any), &function(vec![], Type::Never)));
    assert!(!check_type_compatibility(&expected, &Type::Object));
}
