//! The typing rules of binary operators.

use crate::ast::BinaryOperator;
use crate::types::{Type, TypeView};
use vstd::prelude::*;

verus! {

/// The four groups of binary operators that share a typing rule.
#[derive(Debug, Clone, Copy, PartialEq, Eq, Structural)]
pub enum OperatorKind {
    /// `+`, which also concatenates strings.
    Addition,
    /// `-`, `*`, `/`, `%` and `**`.
    Arithmetic,
    /// The relational and equality operators, `in` and `instanceof`.
    Comparison,
    /// The bitwise operators and the shifts.
    Bitwise,
}

/// The group an operator belongs to.
pub open spec fn operator_kind(operator: BinaryOperator) -> OperatorKind {
    match operator {
        BinaryOperator::Addition => OperatorKind::Addition,
        BinaryOperator::Subtraction
        | BinaryOperator::Multiplication
        | BinaryOperator::Division
        | BinaryOperator::Remainder
        | BinaryOperator::Exponential => OperatorKind::Arithmetic,
        BinaryOperator::LessThan
        | BinaryOperator::LessEqualThan
        | BinaryOperator::GreaterThan
        | BinaryOperator::GreaterEqualThan
        | BinaryOperator::Equality
        | BinaryOperator::Inequality
        | BinaryOperator::StrictEquality
        | BinaryOperator::StrictInequality
        | BinaryOperator::In
        | BinaryOperator::Instanceof => OperatorKind::Comparison,
        BinaryOperator::BitwiseAnd
        | BinaryOperator::BitwiseOR
        | BinaryOperator::BitwiseXOR
        | BinaryOperator::ShiftLeft
        | BinaryOperator::ShiftRight
        | BinaryOperator::ShiftRightZeroFill => OperatorKind::Bitwise,
    }
}

/// Exactly one of the two operands is `bigint`.
pub open spec fn one_bigint(left: TypeView, right: TypeView) -> bool {
    (left is BigInt) != (right is BigInt)
}

/// The operation mixes `bigint` with another type and is reported. An
/// addition with a `string` operand is a concatenation and never reported;
/// a comparison takes any operands.
pub open spec fn operation_rejected(
    operator: BinaryOperator,
    left: TypeView,
    right: TypeView,
) -> bool {
    match operator_kind(operator) {
        OperatorKind::Addition => !(left is String) && !(right is String) && one_bigint(
            left,
            right,
        ),
        OperatorKind::Arithmetic | OperatorKind::Bitwise => one_bigint(left, right),
        OperatorKind::Comparison => false,
    }
}

/// The type of a binary operation on operands of the given types.
///
/// A comparison is `boolean`. An addition with a `string` operand is
/// `string`. Otherwise two `bigint` operands give `bigint`, two `number`
/// operands give `number`, and `bigint` mixed with anything else gives
/// `number`. What is left gives `any` for the arithmetic operators and
/// `number` for addition and the bitwise operators.
pub open spec fn operation_type(
    operator: BinaryOperator,
    left: TypeView,
    right: TypeView,
) -> TypeView {
    let kind = operator_kind(operator);
    if kind == OperatorKind::Comparison {
        TypeView::Boolean
    } else if kind == OperatorKind::Addition && (left is String || right is String) {
        TypeView::String
    } else if left is BigInt && right is BigInt {
        TypeView::BigInt
    } else if left is Number && right is Number {
        TypeView::Number
    } else if one_bigint(left, right) {
        TypeView::Number
    } else if kind == OperatorKind::Arithmetic {
        TypeView::Any
    } else {
        TypeView::Number
    }
}

/// The group an operator belongs to.
pub fn classify_operator(operator: BinaryOperator) -> (kind: OperatorKind)
    ensures
        kind == operator_kind(operator),
{
    match operator {
        BinaryOperator::Addition => OperatorKind::Addition,
        BinaryOperator::Subtraction
        | BinaryOperator::Multiplication
        | BinaryOperator::Division
        | BinaryOperator::Remainder
        | BinaryOperator::Exponential => OperatorKind::Arithmetic,
        BinaryOperator::LessThan
        | BinaryOperator::LessEqualThan
        | BinaryOperator::GreaterThan
        | BinaryOperator::GreaterEqualThan
        | BinaryOperator::Equality
        | BinaryOperator::Inequality
        | BinaryOperator::StrictEquality
        | BinaryOperator::StrictInequality
        | BinaryOperator::In
        | BinaryOperator::Instanceof => OperatorKind::Comparison,
        BinaryOperator::BitwiseAnd
        | BinaryOperator::BitwiseOR
        | BinaryOperator::BitwiseXOR
        | BinaryOperator::ShiftLeft
        | BinaryOperator::ShiftRight
        | BinaryOperator::ShiftRightZeroFill => OperatorKind::Bitwise,
    }
}

/// What a binary operation yields: its type, and whether it is reported.
#[derive(Debug)]
pub struct Operation {
    pub result: Type,
    pub rejected: bool,
}

/// Types a binary operation from the types of its operands.
pub fn type_operation(operator: BinaryOperator, left: &Type, right: &Type) -> (operation: Operation)
    ensures
        operation.result@ == operation_type(operator, left@, right@),
        operation.rejected == operation_rejected(operator, left@, right@),
{
    let kind = classify_operator(operator);
    let left_bigint = matches!(left, Type::BigInt);
    let right_bigint = matches!(right, Type::BigInt);
    let mixed = left_bigint != right_bigint;
    match kind {
        OperatorKind::Comparison => Operation { result: Type::Boolean, rejected: false },
        OperatorKind::Addition => {
            if matches!(left, Type::String) || matches!(right, Type::String) {
                Operation { result: Type::String, rejected: false }
            } else if left_bigint && right_bigint {
                Operation { result: Type::BigInt, rejected: false }
            } else {
                Operation { result: Type::Number, rejected: mixed }
            }
        },
        OperatorKind::Arithmetic => {
            if left_bigint && right_bigint {
                Operation { result: Type::BigInt, rejected: false }
            } else if matches!(left, Type::Number) && matches!(right, Type::Number) {
                Operation { result: Type::Number, rejected: false }
            } else if mixed {
                Operation { result: Type::Number, rejected: true }
            } else {
                Operation { result: Type::Any, rejected: false }
            }
        },
        OperatorKind::Bitwise => {
            if left_bigint && right_bigint {
                Operation { result: Type::BigInt, rejected: false }
            } else {
                Operation { result: Type::Number, rejected: mixed }
            }
        },
    }
}

} // verus!
