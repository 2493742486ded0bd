//! When two types are equal.

use crate::number::same_number;
use crate::types::{views, Type, TypeView};
use vstd::prelude::*;
use vstd::std_specs::cmp::PartialEqSpecImpl;

verus! {

/// Two sequences of types are equal place by place.
pub open spec fn pairwise_same(left: Seq<TypeView>, right: Seq<TypeView>) -> bool
    decreases left, 0int,
{
    &&& left.len() == right.len()
    &&& forall|i: int|
        #![trigger left[i]]
        #![trigger right[i]]
        0 <= i < left.len() ==> same_type(left[i], right[i])
}

/// Equality of types: the same shape with equal parts. Numeric literals
/// are compared as numbers, so a NaN literal type equals no type at all.
pub open spec fn same_type(left: TypeView, right: TypeView) -> bool
    decreases left, 1int,
{
    match left {
        TypeView::NumberLiteral(value) => {
            &&& right matches TypeView::NumberLiteral(other)
            &&& same_number(value.bits, other.bits)
        },
        TypeView::Union(members) => {
            &&& right matches TypeView::Union(others)
            &&& pairwise_same(members, others)
        },
        TypeView::Array(element) => {
            &&& right matches TypeView::Array(other)
            &&& same_type(*element, *other)
        },
        TypeView::Tuple(elements) => {
            &&& right matches TypeView::Tuple(others)
            &&& pairwise_same(elements, others)
        },
        TypeView::Function { params, return_type } => {
            &&& right matches TypeView::Function { params: other_params, return_type: other_return }
            &&& pairwise_same(params, other_params)
            &&& same_type(*return_type, *other_return)
        },
        _ => left == right,
    }
}

/// Whether the two lists hold equal types place by place.
fn each_same(left: &Vec<Type>, right: &Vec<Type>) -> (same: bool)
    ensures
        same == pairwise_same(views(left@), views(right@)),
    decreases left, 0int,
{
    if left.len() != right.len() {
        return false;
    }
    let mut i: usize = 0;
    while i < left.len()
        invariant
            left.len() == right.len(),
            0 <= i <= left.len(),
            forall|j: int|
                #![trigger views(left@)[j]]
                #![trigger views(right@)[j]]
                0 <= j < i ==> same_type(views(left@)[j], views(right@)[j]),
        decreases left.len() - i,
    {
        if !left[i].same(&right[i]) {
            assert(!same_type(views(left@)[i as int], views(right@)[i as int]));
            return false;
        }
        i += 1;
    }
    true
}

impl Type {
    /// Whether the two types are equal.
    pub fn same(&self, other: &Type) -> (same: bool)
        ensures
            same == same_type(self@, other@),
        decreases self, 1int,
    {
        match self {
            Type::Any => matches!(other, Type::Any),
            Type::Number => matches!(other, Type::Number),
            Type::String => matches!(other, Type::String),
            Type::Boolean => matches!(other, Type::Boolean),
            Type::Null => matches!(other, Type::Null),
            Type::Undefined => matches!(other, Type::Undefined),
            Type::Never => matches!(other, Type::Never),
            Type::BigInt => matches!(other, Type::BigInt),
            Type::Symbol => matches!(other, Type::Symbol),
            Type::Object => matches!(other, Type::Object),
            Type::Unknown => matches!(other, Type::Unknown),
            Type::Void => matches!(other, Type::Void),
            Type::StringLiteral(value) => match other {
                Type::StringLiteral(other_value) => *value == *other_value,
                _ => false,
            },
            Type::NumberLiteral(value) => match other {
                Type::NumberLiteral(other_value) => value.same_value(other_value),
                _ => false,
            },
            Type::BooleanLiteral(value) => match other {
                Type::BooleanLiteral(other_value) => *value == *other_value,
                _ => false,
            },
            Type::Union(members) => match other {
                Type::Union(others) => each_same(members, others),
                _ => false,
            },
            Type::Array(element) => match other {
                Type::Array(other_element) => (**element).same(&**other_element),
                _ => false,
            },
            Type::Tuple(elements) => match other {
                Type::Tuple(others) => each_same(elements, others),
                _ => false,
            },
            Type::Function { params, return_type } => match other {
                Type::Function { params: other_params, return_type: other_return } => {
                    each_same(params, other_params) && (**return_type).same(&**other_return)
                },
                _ => false,
            },
        }
    }
}

impl PartialEq for Type {
    fn eq(&self, other: &Type) -> (same: bool) {
        self.same(other)
    }
}

impl PartialEqSpecImpl for Type {
    open spec fn obeys_eq_spec() -> bool {
        true
    }

    open spec fn eq_spec(&self, other: &Type) -> bool {
        same_type(self@, other@)
    }
}

} // verus!
