//! The two diagnostics a checker can record, as texts.

use crate::render::rendered;
use crate::types::{Type, TypeView};
use vstd::prelude::*;

verus! {

/// The message about a value of type `actual` where `expected` is asked
/// for.
pub open spec fn not_assignable_message(actual: TypeView, expected: TypeView) -> Seq<char> {
    "Type '"@ + rendered(actual) + "' is not assignable to type '"@ + rendered(expected) + "'"@
}

/// The message about an operation that mixes `bigint` with another type.
pub open spec fn operation_message(left: TypeView, right: TypeView) -> Seq<char> {
    "The binary operation between '"@ + rendered(left) + "' and '"@ + rendered(right)
        + "' is not allowed"@
}

/// Writes the message about a value of type `actual` where `expected` is
/// asked for.
pub fn write_not_assignable_message(actual: &Type, expected: &Type) -> (message: String)
    ensures
        message@ == not_assignable_message(actual@, expected@),
{
    let mut message = "Type '".to_string();
    let actual_text = actual.to_string();
    message.append(actual_text.as_str());
    message.append("' is not assignable to type '");
    let expected_text = expected.to_string();
    message.append(expected_text.as_str());
    message.append("'");
    message
}

/// Writes the message about an operation that mixes `bigint` with another
/// type.
pub fn write_operation_message(left: &Type, right: &Type) -> (message: String)
    ensures
        message@ == operation_message(left@, right@),
{
    let mut message = "The binary operation between '".to_string();
    let left_text = left.to_string();
    message.append(left_text.as_str());
    message.append("' and '");
    let right_text = right.to_string();
    message.append(right_text.as_str());
    message.append("' is not allowed");
    message
}

} // verus!
