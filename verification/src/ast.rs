//! The program tree that the checker walks.
//!
//! The tree holds what checking reads and nothing more: literals carry no
//! value, and every construct that checking passes over is an `Other`.

use vstd::prelude::*;

verus! {

/// A type as written in the source.
#[derive(Debug)]
pub enum TypeNode {
    AnyKeyword,
    NumberKeyword,
    StringKeyword,
    BooleanKeyword,
    NullKeyword,
    UndefinedKeyword,
    NeverKeyword,
    BigIntKeyword,
    SymbolKeyword,
    ObjectKeyword,
    UnknownKeyword,
    VoidKeyword,
    /// `T[]`, with the element type.
    Array(Box<TypeNode>),
    /// `[A, B]`.
    Tuple(Vec<TupleElement>),
    /// `A | B`.
    Union(Vec<TypeNode>),
    /// `(a: A) => R`.
    Function { params: Vec<Parameter>, return_type: Box<TypeNode> },
    /// Every other form of type.
    Other,
}

impl TypeNode {
    /// The keyword that a keyword node is written as in the source;
    /// `None` for every other node.
    pub open spec fn keyword(self) -> Option<Seq<char>> {
        match self {
            TypeNode::AnyKeyword => Some("any"@),
            TypeNode::NumberKeyword => Some("number"@),
            TypeNode::StringKeyword => Some("string"@),
            TypeNode::BooleanKeyword => Some("boolean"@),
            TypeNode::NullKeyword => Some("null"@),
            TypeNode::UndefinedKeyword => Some("undefined"@),
            TypeNode::NeverKeyword => Some("never"@),
            TypeNode::BigIntKeyword => Some("bigint"@),
            TypeNode::SymbolKeyword => Some("symbol"@),
            TypeNode::ObjectKeyword => Some("object"@),
            TypeNode::UnknownKeyword => Some("unknown"@),
            TypeNode::VoidKeyword => Some("void"@),
            _ => None,
        }
    }
}

/// One place of a tuple type.
#[derive(Debug)]
pub enum TupleElement {
    /// A plain type.
    Type(TypeNode),
    /// An optional or rest element.
    Other,
}

/// A formal parameter of a function or of a function type.
#[derive(Debug)]
pub struct Parameter {
    /// The parameter's name where it is a plain identifier.
    pub name: Option<String>,
    /// The type it is annotated with.
    pub annotation: Option<TypeNode>,
}

/// The operator of a binary expression.
#[derive(Debug, Clone, Copy, PartialEq, Eq, Structural)]
pub enum BinaryOperator {
    Equality,
    Inequality,
    StrictEquality,
    StrictInequality,
    LessThan,
    LessEqualThan,
    GreaterThan,
    GreaterEqualThan,
    ShiftLeft,
    ShiftRight,
    ShiftRightZeroFill,
    Addition,
    Subtraction,
    Multiplication,
    Division,
    Remainder,
    BitwiseOR,
    BitwiseXOR,
    BitwiseAnd,
    In,
    Instanceof,
    Exponential,
}

/// An expression.
#[derive(Debug)]
pub enum Expression {
    NumericLiteral,
    BigIntLiteral,
    StringLiteral,
    BooleanLiteral,
    NullLiteral,
    /// A name in value position.
    Identifier(String),
    /// `[a, b]`.
    Array(Vec<ArrayElement>),
    /// `left operator right`.
    Binary { operator: BinaryOperator, left: Box<Expression>, right: Box<Expression> },
    /// Every other form of expression.
    Other,
}

/// One place of an array expression.
#[derive(Debug)]
pub enum ArrayElement {
    /// An expression.
    Expression(Expression),
    /// A hole or a spread.
    Other,
}

/// One declarator of a variable declaration: `name: annotation = init`.
#[derive(Debug)]
pub struct VariableDeclarator {
    /// The declared name where the target is a plain identifier.
    pub name: Option<String>,
    pub annotation: Option<TypeNode>,
    pub init: Option<Expression>,
}

/// A function declaration.
#[derive(Debug)]
pub struct FunctionDeclaration {
    pub name: Option<String>,
    pub params: Vec<Parameter>,
    pub return_type: Option<TypeNode>,
    /// The statements of the body; `None` for a declaration without one.
    pub body: Option<Vec<Statement>>,
}

/// A statement.
#[derive(Debug)]
pub enum Statement {
    VariableDeclaration(Vec<VariableDeclarator>),
    FunctionDeclaration(FunctionDeclaration),
    /// `return argument;`
    Return(Option<Expression>),
    /// Every other form of statement.
    Other,
}

/// A whole program: its top-level statements in order.
#[derive(Debug)]
pub struct Program {
    pub body: Vec<Statement>,
}

} // verus!
