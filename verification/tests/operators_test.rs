use tsc_rs::ast::BinaryOperator;
use tsc_rs::messages::{write_not_assignable_message, write_operation_message};
use tsc_rs::operators::{classify_operator, type_operation, OperatorKind};
use tsc_rs::types::Type;

const ARITHMETIC: [BinaryOperator; 5] = [
    BinaryOperator::Subtraction,
    BinaryOperator::Multiplication,
    BinaryOperator::Division,
    BinaryOperator::Remainder,
    BinaryOperator::Exponential,
];

const COMPARISON: [BinaryOperator; 10] = [
    BinaryOperator::LessThan,
    BinaryOperator::LessEqualThan,
    BinaryOperator::GreaterThan,
    BinaryOperator::GreaterEqualThan,
    BinaryOperator::Equality,
    BinaryOperator::Inequality,
    BinaryOperator::StrictEquality,
    BinaryOperator::StrictInequality,
    BinaryOperator::In,
    BinaryOperator::Instanceof,
];

const BITWISE: [BinaryOperator; 6] = [
    BinaryOperator::BitwiseAnd,
    BinaryOperator::BitwiseOR,
    BinaryOperator::BitwiseXOR,
    BinaryOperator::ShiftLeft,
    BinaryOperator::ShiftRight,
    BinaryOperator::ShiftRightZeroFill,
];

fn operands() -> Vec<Type> {
    vec![
        Type::Any,
        Type::Number,
        Type::String,
        Type::Boolean,
        Type::BigInt,
        Type::Null,
        Type::StringLiteral("a".to_string()),
        Type::Union(vec![Type::BigInt]),
    ]
}

fn is_bigint(operand: &Type) -> bool {
    matches!(operand, Type::BigInt)
}

fn is_number(operand: &Type) -> bool {
    matches!(operand, Type::Number)
}

fn is_string(operand: &Type) -> bool {
    matches!(operand, Type::String)
}

#[test]
fn every_operator_belongs_to_one_group() {
    assert_eq!(classify_operator(BinaryOperator::Addition), OperatorKind::Addition);
    for operator in ARITHMETIC {
        assert_eq!(classify_operator(operator), OperatorKind::Arithmetic);
    }
    for operator in COMPARISON {
        assert_eq!(classify_operator(operator), OperatorKind::Comparison);
    }
    for operator in BITWISE {
        assert_eq!(classify_operator(operator), OperatorKind::Bitwise);
    }
    assert_eq!(1 + ARITHMETIC.len() + COMPARISON.len() + BITWISE.len(), 22);
}

#[test]
fn comparisons_are_boolean_and_take_anything() {
    for operator in COMPARISON {
        for left in &operands() {
            for right in &operands() {
                let operation = type_operation(operator, left, right);
                assert_eq!(operation.result, Type::Boolean);
                assert!(!operation.rejected);
            }
        }
    }
}

#[test]
fn addition_concatenates_or_adds() {
    for left in &operands() {
        for right in &operands() {
            let operation = type_operation(BinaryOperator::Addition, left, right);
            if is_string(left) || is_string(right) {
                assert_eq!(operation.result, Type::String);
                assert!(!operation.rejected);
            } else if is_bigint(left) && is_bigint(right) {
                assert_eq!(operation.result, Type::BigInt);
                assert!(!operation.rejected);
            } else {
                assert_eq!(operation.result, Type::Number);
                assert_eq!(operation.rejected, is_bigint(left) != is_bigint(right));
            }
        }
    }
}

#[test]
fn arithmetic_falls_back_to_any() {
    for operator in ARITHMETIC {
        for left in &operands() {
            for right in &operands() {
                let operation = type_operation(operator, left, right);
                if is_bigint(left) && is_bigint(right) {
                    assert_eq!(operation.result, Type::BigInt);
                    assert!(!operation.rejected);
                } else if is_number(left) && is_number(right) {
                    assert_eq!(operation.result, Type::Number);
                    assert!(!operation.rejected);
                } else if is_bigint(left) || is_bigint(right) {
                    assert_eq!(operation.result, Type::Number);
                    assert!(operation.rejected);
                } else {
                    assert_eq!(operation.result, Type::Any);
                    assert!(!operation.rejected);
                }
            }
        }
    }
}

#[test]
fn bitwise_operations_fall_back_to_number() {
    for operator in BITWISE {
        for left in &operands() {
            for right in &operands() {
                let operation = type_operation(operator, left, right);
                if is_bigint(left) && is_bigint(right) {
                    assert_eq!(operation.result, Type::BigInt);
                    assert!(!operation.rejected);
                } else {
                    assert_eq!(operation.result, Type::Number);
                    assert_eq!(operation.rejected, is_bigint(left) != is_bigint(right));
                }
            }
        }
    }
}

#[test]
fn a_string_operand_does_not_excuse_a_subtraction() {
    let operation = type_operation(BinaryOperator::Subtraction, &Type::String, &Type::BigInt);
    assert_eq!(operation.result, Type::Number);
    assert!(operation.rejected);
    let operation = type_operation(BinaryOperator::ShiftLeft, &Type::BigInt, &Type::String);
    assert_eq!(operation.result, Type::Number);
    assert!(operation.rejected);
}

#[test]
fn messages_name_the_types_as_written() {
    assert_eq!(
        write_operation_message(&Type::BigInt, &Type::Number),
        "The binary operation between 'bigint' and 'number' is not allowed"
    );
    assert_eq!(
        write_operation_message(&Type::Union(vec![Type::Null, Type::Void]), &Type::BigInt),
        "The binary operation between 'null | void' and 'bigint' is not allowed"
    );
    assert_eq!(
        write_not_assignable_message(&Type::String, &Type::Number),
        "Type 'string' is not assignable to type 'number'"
    );
    assert_eq!(
        write_not_assignable_message(
            &Type::StringLiteral("a".to_string()),
            &Type::Tuple(vec![Type::Any, Type::Never])
        ),
        "Type '\"a\"' is not assignable to type '[any, never]'"
    );
}
