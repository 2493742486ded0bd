//! The type model: what a type is, and when a value of one type may stand
//! where another is expected.

use crate::number::{same_number, NumberValue, NumberView};
use crate::text::{same_text, trim_quotes, unquoted};
use std::sync::Arc;
use vstd::prelude::*;

verus! {

/// A type of the checked language.
#[derive(Debug)]
pub enum Type {
    Any,
    Number,
    String,
    Boolean,
    Null,
    Undefined,
    Never,
    BigInt,
    Symbol,
    Object,
    Unknown,
    Void,
    /// The type of one string value.
    StringLiteral(String),
    /// The type of one numeric value.
    NumberLiteral(NumberValue),
    /// The type of `true` or of `false`.
    BooleanLiteral(bool),
    /// Any one of the members.
    Union(Vec<Type>),
    /// Arrays of the element type.
    Array(Arc<Type>),
    /// A fixed sequence of element types.
    Tuple(Vec<Type>),
    /// Functions from the parameter types to the return type.
    Function { params: Vec<Type>, return_type: Arc<Type> },
}

/// Mathematical model of a [`Type`]: the same tree over sequences.
pub enum TypeView {
    Any,
    Number,
    String,
    Boolean,
    Null,
    Undefined,
    Never,
    BigInt,
    Symbol,
    Object,
    Unknown,
    Void,
    StringLiteral(Seq<char>),
    NumberLiteral(NumberView),
    BooleanLiteral(bool),
    Union(Seq<TypeView>),
    Array(Box<TypeView>),
    Tuple(Seq<TypeView>),
    Function { params: Seq<TypeView>, return_type: Box<TypeView> },
}

/// The model of a type: the same tree, with each string and each list
/// replaced by its sequence.
pub open spec fn model(t: Type) -> TypeView
    decreases t,
{
    match t {
        Type::Any => TypeView::Any,
        Type::Number => TypeView::Number,
        Type::String => TypeView::String,
        Type::Boolean => TypeView::Boolean,
        Type::Null => TypeView::Null,
        Type::Undefined => TypeView::Undefined,
        Type::Never => TypeView::Never,
        Type::BigInt => TypeView::BigInt,
        Type::Symbol => TypeView::Symbol,
        Type::Object => TypeView::Object,
        Type::Unknown => TypeView::Unknown,
        Type::Void => TypeView::Void,
        Type::StringLiteral(value) => TypeView::StringLiteral(value@),
        Type::NumberLiteral(value) => TypeView::NumberLiteral(value@),
        Type::BooleanLiteral(value) => TypeView::BooleanLiteral(value),
        Type::Union(members) => TypeView::Union(views(members@)),
        Type::Array(element) => TypeView::Array(Box::new(model(*element))),
        Type::Tuple(elements) => TypeView::Tuple(views(elements@)),
        Type::Function { params, return_type } => TypeView::Function {
            params: views(params@),
            return_type: Box::new(model(*return_type)),
        },
    }
}

/// The models of a sequence of types, in order.
pub open spec fn views(types: Seq<Type>) -> Seq<TypeView>
    decreases types,
{
    Seq::new(
        types.len(),
        |i: int|
            if 0 <= i < types.len() {
                model(types[i])
            } else {
                TypeView::Any
            },
    )
}

impl View for Type {
    type V = TypeView;

    open spec fn view(&self) -> TypeView {
        model(*self)
    }
}

impl TypeView {
    /// One of the twelve keyword types.
    pub open spec fn is_primitive(self) -> bool {
        match self {
            TypeView::Any
            | TypeView::Number
            | TypeView::String
            | TypeView::Boolean
            | TypeView::Null
            | TypeView::Undefined
            | TypeView::Never
            | TypeView::BigInt
            | TypeView::Symbol
            | TypeView::Object
            | TypeView::Unknown
            | TypeView::Void => true,
            _ => false,
        }
    }
}

/// Every expected type is matched by the actual type at the same place.
pub open spec fn pairwise_compatible(expected: Seq<TypeView>, actual: Seq<TypeView>) -> bool
    decreases expected, 0int,
{
    &&& expected.len() == actual.len()
    &&& forall|i: int|
        #![trigger expected[i]]
        #![trigger actual[i]]
        0 <= i < expected.len() ==> compatible(expected[i], actual[i])
}

/// One of the members accepts the actual type.
pub open spec fn some_compatible(members: Seq<TypeView>, actual: TypeView) -> bool
    decreases members, 0int,
{
    exists|i: int| 0 <= i < members.len() && compatible(#[trigger] members[i], actual)
}

/// Assignability: a value of type `actual` may stand where `expected` is
/// asked for.
///
/// `any` accepts everything. A keyword type accepts itself, and `number`,
/// `string` and `boolean` also accept their literal types. A literal type
/// accepts the literal type of an equal value. A union accepts what one of
/// its members accepts. Arrays, tuples and functions accept their own kind
/// when the parts are accepted place by place, parameters in the same
/// direction as results.
pub open spec fn compatible(expected: TypeView, actual: TypeView) -> bool
    decreases expected, 1int,
{
    match expected {
        TypeView::Any => true,
        TypeView::Number => actual is Number || actual is NumberLiteral,
        TypeView::String => actual is String || actual is StringLiteral,
        TypeView::Boolean => actual is Boolean || actual is BooleanLiteral,
        TypeView::Null => actual is Null,
        TypeView::Undefined => actual is Undefined,
        TypeView::Never => actual is Never,
        TypeView::BigInt => actual is BigInt,
        TypeView::Symbol => actual is Symbol,
        TypeView::Object => actual is Object,
        TypeView::Unknown => actual is Unknown,
        TypeView::Void => actual is Void,
        TypeView::StringLiteral(value) => actual == TypeView::StringLiteral(value),
        TypeView::NumberLiteral(value) => {
            &&& actual matches TypeView::NumberLiteral(other)
            &&& same_number(value.bits, other.bits)
        },
        TypeView::BooleanLiteral(value) => actual == TypeView::BooleanLiteral(value),
        TypeView::Union(members) => some_compatible(members, actual),
        TypeView::Array(element) => {
            &&& actual matches TypeView::Array(other)
            &&& compatible(*element, *other)
        },
        TypeView::Tuple(elements) => {
            &&& actual matches TypeView::Tuple(others)
            &&& pairwise_compatible(elements, others)
        },
        TypeView::Function { params, return_type } => {
            &&& actual matches TypeView::Function { params: other_params, return_type: other_return }
            &&& pairwise_compatible(params, other_params)
            &&& compatible(*return_type, *other_return)
        },
    }
}

/// Copies of the types, in order.
fn clone_each(types: &Vec<Type>) -> (copies: Vec<Type>)
    ensures
        views(copies@) == views(types@),
    decreases types, 0int,
{
    let mut copies: Vec<Type> = Vec::new();
    let mut i: usize = 0;
    while i < types.len()
        invariant
            0 <= i <= types.len(),
            copies.len() == i,
            forall|j: int| 0 <= j < i ==> (#[trigger] copies@[j])@ == types@[j]@,
        decreases types.len() - i,
    {
        copies.push(types[i].clone());
        i += 1;
    }
    assert(views(copies@) =~= views(types@));
    copies
}

impl Clone for Type {
    /// A copy with the same model. Element and return types are not
    /// copied: the copy shares them with the value it was made from.
    fn clone(&self) -> (copy: Self)
        ensures
            copy@ == self@,
        decreases self, 1int,
    {
        match self {
            Type::Any => Type::Any,
            Type::Number => Type::Number,
            Type::String => Type::String,
            Type::Boolean => Type::Boolean,
            Type::Null => Type::Null,
            Type::Undefined => Type::Undefined,
            Type::Never => Type::Never,
            Type::BigInt => Type::BigInt,
            Type::Symbol => Type::Symbol,
            Type::Object => Type::Object,
            Type::Unknown => Type::Unknown,
            Type::Void => Type::Void,
            Type::StringLiteral(value) => Type::StringLiteral(value.clone()),
            Type::NumberLiteral(value) => Type::NumberLiteral(value.clone()),
            Type::BooleanLiteral(value) => Type::BooleanLiteral(*value),
            Type::Union(members) => Type::Union(clone_each(members)),
            Type::Array(element) => Type::Array(element.clone()),
            Type::Tuple(elements) => Type::Tuple(clone_each(elements)),
            Type::Function { params, return_type } => Type::Function {
                params: clone_each(params),
                return_type: return_type.clone(),
            },
        }
    }
}

/// Source positions come from `oxc_span`: its `Span` is carried along and
/// never looked into here.
#[verifier::external_type_specification]
#[verifier::external_body]
pub struct ExSpan(oxc_span::Span);

/// A message about a type, with the place in the source it is about where
/// that is known.
#[derive(Debug)]
pub struct TypeError {
    pub message: String,
    pub span: Option<oxc_span::Span>,
}

impl TypeError {
    /// An error without a position.
    pub fn new(message: String) -> (error: Self)
        ensures
            error.message == message,
            error.span is None,
    {
        TypeError { message, span: None }
    }

    /// An error at the given position.
    pub fn with_span(message: String, span: oxc_span::Span) -> (error: Self)
        ensures
            error.message == message,
            error.span == Some(span),
    {
        TypeError { message, span: Some(span) }
    }
}

/// The model of a number that may be absent.
pub open spec fn number_view(number: Option<NumberValue>) -> Option<NumberView> {
    match number {
        Some(value) => Some(value@),
        None => None,
    }
}

/// The type of a literal given by its text, quotes removed, and by the
/// number that the text reads as, where it reads as one: `null` is the
/// null type whatever else it may be; a number is the literal type of
/// that number; `true` and `false` are the boolean literal types; any
/// other text is the literal type of that string.
pub open spec fn literal_type(text: Seq<char>, number: Option<NumberView>) -> TypeView {
    if text == "null"@ {
        TypeView::Null
    } else {
        match number {
            Some(value) => TypeView::NumberLiteral(value),
            None => if text == "true"@ {
                TypeView::BooleanLiteral(true)
            } else if text == "false"@ {
                TypeView::BooleanLiteral(false)
            } else {
                TypeView::StringLiteral(text)
            },
        }
    }
}

/// Infers the type of a literal from its source text.
///
/// Quotes around the text are removed first, as [`trim_quotes`] does.
/// Reading a number takes floating-point arithmetic, which is the
/// caller's to do: `number` is what the text without its quotes reads as,
/// or `None` where it is no number.
pub fn infer_type_from_literal(value: &str, number: Option<NumberValue>) -> (inferred: Type)
    ensures
        inferred@ == literal_type(unquoted(value@), number_view(number)),
{
    let text = trim_quotes(value);
    if same_text(text, "null") {
        Type::Null
    } else if let Some(n) = number {
        Type::NumberLiteral(n)
    } else if same_text(text, "true") {
        Type::BooleanLiteral(true)
    } else if same_text(text, "false") {
        Type::BooleanLiteral(false)
    } else {
        Type::StringLiteral(text.to_string())
    }
}

/// Whether every expected type accepts the actual type at the same place;
/// two lists of different lengths never match.
fn check_each_compatible(expected: &Vec<Type>, actual: &Vec<Type>) -> (ok: bool)
    ensures
        ok == pairwise_compatible(views(expected@), views(actual@)),
    decreases expected, 0int,
{
    if expected.len() != actual.len() {
        return false;
    }
    let mut i: usize = 0;
    while i < expected.len()
        invariant
            expected.len() == actual.len(),
            0 <= i <= expected.len(),
            forall|j: int|
                #![trigger views(expected@)[j]]
                #![trigger views(actual@)[j]]
                0 <= j < i ==> compatible(views(expected@)[j], views(actual@)[j]),
        decreases expected.len() - i,
    {
        if !check_type_compatibility(&expected[i], &actual[i]) {
            assert(!compatible(views(expected@)[i as int], views(actual@)[i as int]));
            return false;
        }
        i += 1;
    }
    true
}

/// Whether one of the members accepts the actual type.
fn check_any_compatible(members: &Vec<Type>, actual: &Type) -> (ok: bool)
    ensures
        ok == some_compatible(views(members@), actual@),
    decreases members, 0int,
{
    let mut i: usize = 0;
    while i < members.len()
        invariant
            0 <= i <= members.len(),
            forall|j: int| 0 <= j < i ==> !compatible(#[trigger] views(members@)[j], actual@),
        decreases members.len() - i,
    {
        if check_type_compatibility(&members[i], actual) {
            assert(compatible(views(members@)[i as int], actual@));
            return true;
        }
        i += 1;
    }
    false
}

/// Whether a value of type `actual` may stand where `expected` is asked
/// for.
pub fn check_type_compatibility(expected: &Type, actual: &Type) -> (ok: bool)
    ensures
        ok == compatible(expected@, actual@),
    decreases expected, 1int,
{
    match expected {
        Type::Any => true,
        Type::Number => matches!(actual, Type::Number | Type::NumberLiteral(_)),
        Type::String => matches!(actual, Type::String | Type::StringLiteral(_)),
        Type::Boolean => matches!(actual, Type::Boolean | Type::BooleanLiteral(_)),
        Type::Null => matches!(actual, Type::Null),
        Type::Undefined => matches!(actual, Type::Undefined),
        Type::Never => matches!(actual, Type::Never),
        Type::BigInt => matches!(actual, Type::BigInt),
        Type::Symbol => matches!(actual, Type::Symbol),
        Type::Object => matches!(actual, Type::Object),
        Type::Unknown => matches!(actual, Type::Unknown),
        Type::Void => matches!(actual, Type::Void),
        Type::StringLiteral(value) => match actual {
            Type::StringLiteral(other) => *value == *other,
            _ => false,
        },
        Type::NumberLiteral(value) => match actual {
            Type::NumberLiteral(other) => value.same_value(other),
            _ => false,
        },
        Type::BooleanLiteral(value) => match actual {
            Type::BooleanLiteral(other) => *value == *other,
            _ => false,
        },
        Type::Union(members) => check_any_compatible(members, actual),
        Type::Array(element) => match actual {
            Type::Array(other) => check_type_compatibility(&**element, &**other),
            _ => false,
        },
        Type::Tuple(elements) => match actual {
            Type::Tuple(others) => check_each_compatible(elements, others),
            _ => false,
        },
        Type::Function { params, return_type } => match actual {
            Type::Function { params: other_params, return_type: other_return } => {
                check_each_compatible(params, other_params) && check_type_compatibility(
                    &**return_type,
                    &**other_return,
                )
            },
            _ => false,
        },
    }
}

} // verus!
