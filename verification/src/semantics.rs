//! What checking means: the type of a type node and of an expression, and
//! the state of a checker after each statement, as functions of the tree.

use crate::ast::{
    ArrayElement, Expression, FunctionDeclaration, Parameter, Statement, TupleElement, TypeNode,
    VariableDeclarator,
};
use crate::messages::{not_assignable_message, operation_message};
use crate::operators::{operation_rejected, operation_type};
use crate::types::{compatible, TypeView};
use vstd::prelude::*;

verus! {

/// The types of the tuple's places: a plain type is itself, every other
/// element is `any`.
pub open spec fn tuple_types(elements: Seq<TupleElement>) -> Seq<TypeView>
    decreases elements, 0int,
{
    Seq::new(
        elements.len(),
        |i: int|
            if 0 <= i < elements.len() {
                match elements[i] {
                    TupleElement::Type(node) => type_of_node(node),
                    TupleElement::Other => TypeView::Any,
                }
            } else {
                TypeView::Any
            },
    )
}

/// The types of the nodes, in order.
pub open spec fn node_types(nodes: Seq<TypeNode>) -> Seq<TypeView>
    decreases nodes, 0int,
{
    Seq::new(
        nodes.len(),
        |i: int|
            if 0 <= i < nodes.len() {
                type_of_node(nodes[i])
            } else {
                TypeView::Any
            },
    )
}

/// The types of those parameters that are annotated, in order; a
/// parameter without an annotation is left out.
pub open spec fn annotated_types(params: Seq<Parameter>) -> Seq<TypeView>
    decreases params, 0int,
{
    if params.len() == 0 {
        Seq::empty()
    } else {
        let before = annotated_types(params.drop_last());
        match params.last().annotation {
            Some(node) => before.push(type_of_node(node)),
            None => before,
        }
    }
}

/// The type that a type node stands for. A form that is not modelled
/// stands for `any`.
pub open spec fn type_of_node(node: TypeNode) -> TypeView
    decreases node, 1int,
{
    match node {
        TypeNode::AnyKeyword => TypeView::Any,
        TypeNode::NumberKeyword => TypeView::Number,
        TypeNode::StringKeyword => TypeView::String,
        TypeNode::BooleanKeyword => TypeView::Boolean,
        TypeNode::NullKeyword => TypeView::Null,
        TypeNode::UndefinedKeyword => TypeView::Undefined,
        TypeNode::NeverKeyword => TypeView::Never,
        TypeNode::BigIntKeyword => TypeView::BigInt,
        TypeNode::SymbolKeyword => TypeView::Symbol,
        TypeNode::ObjectKeyword => TypeView::Object,
        TypeNode::UnknownKeyword => TypeView::Unknown,
        TypeNode::VoidKeyword => TypeView::Void,
        TypeNode::Array(element) => TypeView::Array(Box::new(type_of_node(*element))),
        TypeNode::Tuple(elements) => TypeView::Tuple(tuple_types(elements@)),
        TypeNode::Union(members) => TypeView::Union(node_types(members@)),
        TypeNode::Function { params, return_type } => TypeView::Function {
            params: annotated_types(params@),
            return_type: Box::new(type_of_node(*return_type)),
        },
        TypeNode::Other => TypeView::Any,
    }
}

/// The type that a name spelled like a type keyword stands for in an
/// expression. `undefined` and `object` are ordinary names.
pub open spec fn keyword_type(name: Seq<char>) -> Option<TypeView> {
    if name == "number"@ {
        Some(TypeView::Number)
    } else if name == "string"@ {
        Some(TypeView::String)
    } else if name == "boolean"@ {
        Some(TypeView::Boolean)
    } else if name == "bigint"@ {
        Some(TypeView::BigInt)
    } else if name == "symbol"@ {
        Some(TypeView::Symbol)
    } else if name == "null"@ {
        Some(TypeView::Null)
    } else if name == "never"@ {
        Some(TypeView::Never)
    } else if name == "void"@ {
        Some(TypeView::Void)
    } else if name == "unknown"@ {
        Some(TypeView::Unknown)
    } else if name == "any"@ {
        Some(TypeView::Any)
    } else {
        None
    }
}

/// The type of an expression under a symbol table.
///
/// A literal has its keyword type. A name spelled like a type keyword is
/// that type whatever the table holds; another name has the type bound to
/// it, or `any` where none is. An array has the element type of its first
/// element where that is an expression, else `any`. A binary operation
/// follows [`operation_type`]. Everything else is `any`.
pub open spec fn eval_type(symbols: Map<Seq<char>, TypeView>, expr: Expression) -> TypeView
    decreases expr,
{
    match expr {
        Expression::NumericLiteral => TypeView::Number,
        Expression::BigIntLiteral => TypeView::BigInt,
        Expression::StringLiteral => TypeView::String,
        Expression::BooleanLiteral => TypeView::Boolean,
        Expression::NullLiteral => TypeView::Null,
        Expression::Identifier(name) => match keyword_type(name@) {
            Some(keyword) => keyword,
            None => if symbols.contains_key(name@) {
                symbols[name@]
            } else {
                TypeView::Any
            },
        },
        Expression::Array(elements) => if elements.len() > 0 {
            match elements[0] {
                ArrayElement::Expression(first) => TypeView::Array(
                    Box::new(eval_type(symbols, first)),
                ),
                ArrayElement::Other => TypeView::Array(Box::new(TypeView::Any)),
            }
        } else {
            TypeView::Array(Box::new(TypeView::Any))
        },
        Expression::Binary { operator, left, right } => operation_type(
            operator,
            eval_type(symbols, *left),
            eval_type(symbols, *right),
        ),
        Expression::Other => TypeView::Any,
    }
}

/// The diagnostics that evaluating an expression records, in the order
/// they are found: those of the left operand, those of the right operand,
/// then the one about the operation itself.
pub open spec fn eval_diagnostics(symbols: Map<Seq<char>, TypeView>, expr: Expression) -> Seq<
    Seq<char>,
>
    decreases expr,
{
    match expr {
        Expression::Array(elements) => if elements.len() > 0 {
            match elements[0] {
                ArrayElement::Expression(first) => eval_diagnostics(symbols, first),
                ArrayElement::Other => Seq::empty(),
            }
        } else {
            Seq::empty()
        },
        Expression::Binary { operator, left, right } => {
            let left_type = eval_type(symbols, *left);
            let right_type = eval_type(symbols, *right);
            let operands = eval_diagnostics(symbols, *left) + eval_diagnostics(symbols, *right);
            if operation_rejected(operator, left_type, right_type) {
                operands.push(operation_message(left_type, right_type))
            } else {
                operands
            }
        },
        _ => Seq::empty(),
    }
}

/// The diagnostics after a value of type `actual` was held against
/// `expected`: one more where it is not assignable.
pub open spec fn with_assignment(
    diagnostics: Seq<Seq<char>>,
    expected: TypeView,
    actual: TypeView,
) -> Seq<Seq<char>> {
    if compatible(expected, actual) {
        diagnostics
    } else {
        diagnostics.push(not_assignable_message(actual, expected))
    }
}

/// What a checker holds at one point of its walk.
pub struct CheckerState {
    /// The type bound to each known name.
    pub symbols: Map<Seq<char>, TypeView>,
    /// The diagnostics recorded so far, oldest first.
    pub diagnostics: Seq<Seq<char>>,
}

impl CheckerState {
    /// This state holds all that `earlier` held: the diagnostics of
    /// `earlier` stand unchanged in front of its own, and every name known
    /// to `earlier` is known to it.
    pub open spec fn extends(self, earlier: CheckerState) -> bool {
        &&& earlier.diagnostics.is_prefix_of(self.diagnostics)
        &&& earlier.symbols.dom().subset_of(self.symbols.dom())
    }
}

/// The state after one declarator.
///
/// A target that is no plain name is passed over. With an annotation the
/// name is bound to the annotated type, and an initializer is then
/// evaluated and held against it. Without one the name is bound to the
/// type of the initializer, or to `any` where there is none, and nothing
/// is held against anything.
pub open spec fn after_declarator(state: CheckerState, declarator: VariableDeclarator) -> CheckerState {
    match declarator.name {
        None => state,
        Some(name) => match declarator.annotation {
            Some(annotation) => {
                let declared = type_of_node(annotation);
                let symbols = state.symbols.insert(name@, declared);
                match declarator.init {
                    Some(init) => CheckerState {
                        symbols,
                        diagnostics: with_assignment(
                            state.diagnostics + eval_diagnostics(symbols, init),
                            declared,
                            eval_type(symbols, init),
                        ),
                    },
                    None => CheckerState { symbols, diagnostics: state.diagnostics },
                }
            },
            None => match declarator.init {
                Some(init) => CheckerState {
                    symbols: state.symbols.insert(name@, eval_type(state.symbols, init)),
                    diagnostics: state.diagnostics + eval_diagnostics(state.symbols, init),
                },
                None => CheckerState {
                    symbols: state.symbols.insert(name@, TypeView::Any),
                    diagnostics: state.diagnostics,
                },
            },
        },
    }
}

/// The state after the declarators of one declaration, first to last.
pub open spec fn after_declarators(
    state: CheckerState,
    declarators: Seq<VariableDeclarator>,
) -> CheckerState
    decreases declarators.len(),
{
    if declarators.len() == 0 {
        state
    } else {
        after_declarator(after_declarators(state, declarators.drop_last()), declarators.last())
    }
}

/// The type of a parameter: its annotation, or `any`.
pub open spec fn parameter_type(parameter: Parameter) -> TypeView {
    match parameter.annotation {
        Some(annotation) => type_of_node(annotation),
        None => TypeView::Any,
    }
}

/// The types of the parameters, in order.
pub open spec fn parameter_types(parameters: Seq<Parameter>) -> Seq<TypeView> {
    Seq::new(parameters.len(), |i: int| parameter_type(parameters[i]))
}

/// The table after each parameter that is a plain name was bound to its
/// type, first to last.
pub open spec fn with_parameters(
    symbols: Map<Seq<char>, TypeView>,
    parameters: Seq<Parameter>,
) -> Map<Seq<char>, TypeView>
    decreases parameters.len(),
{
    if parameters.len() == 0 {
        symbols
    } else {
        let before = with_parameters(symbols, parameters.drop_last());
        match parameters.last().name {
            Some(name) => before.insert(name@, parameter_type(parameters.last())),
            None => before,
        }
    }
}

/// The return type a function declares: its annotation, or `any`.
pub open spec fn declared_return(function: FunctionDeclaration) -> TypeView {
    match function.return_type {
        Some(annotation) => type_of_node(annotation),
        None => TypeView::Any,
    }
}

/// The type that a function's own name is bound to.
pub open spec fn function_type(function: FunctionDeclaration) -> TypeView {
    TypeView::Function {
        params: parameter_types(function.params@),
        return_type: Box::new(declared_return(function)),
    }
}

/// The state after a `return` in a function that declares `expected`:
/// the argument, where there is one, is evaluated and held against it.
pub open spec fn after_return(
    state: CheckerState,
    expected: TypeView,
    argument: Option<Expression>,
) -> CheckerState {
    match argument {
        Some(value) => CheckerState {
            symbols: state.symbols,
            diagnostics: with_assignment(
                state.diagnostics + eval_diagnostics(state.symbols, value),
                expected,
                eval_type(state.symbols, value),
            ),
        },
        None => state,
    }
}

/// The state after a function declaration.
///
/// A function without a name is passed over. Otherwise the parameters
/// are bound in the one flat table, then the function's own name, and
/// the statements of the body are checked against the declared return
/// type.
pub open spec fn after_function(state: CheckerState, function: FunctionDeclaration) -> CheckerState
    decreases function, 0int,
{
    match function.name {
        None => state,
        Some(name) => {
            let entered = CheckerState {
                symbols: with_parameters(state.symbols, function.params@).insert(
                    name@,
                    function_type(function),
                ),
                diagnostics: state.diagnostics,
            };
            match function.body {
                Some(body) => after_body(entered, declared_return(function), body@),
                None => entered,
            }
        },
    }
}

/// The state after the statements of a function body, first to last.
pub open spec fn after_body(
    state: CheckerState,
    expected: TypeView,
    statements: Seq<Statement>,
) -> CheckerState
    decreases statements, 0int,
{
    if statements.len() == 0 {
        state
    } else {
        after_body_statement(
            after_body(state, expected, statements.drop_last()),
            expected,
            statements.last(),
        )
    }
}

/// The state after one statement of a function body: a `return` is held
/// against the declared return type, every other statement is checked as
/// it would be anywhere.
pub open spec fn after_body_statement(
    state: CheckerState,
    expected: TypeView,
    statement: Statement,
) -> CheckerState
    decreases statement, 1int,
{
    match statement {
        Statement::Return(argument) => after_return(state, expected, argument),
        _ => after_statement(state, statement),
    }
}

/// The state after one statement. Only variable and function declarations
/// change anything; a `return` outside a function body is passed over like
/// any other statement.
pub open spec fn after_statement(state: CheckerState, statement: Statement) -> CheckerState
    decreases statement, 0int,
{
    match statement {
        Statement::VariableDeclaration(declarators) => after_declarators(state, declarators@),
        Statement::FunctionDeclaration(function) => after_function(state, function),
        _ => state,
    }
}

/// The state after a sequence of statements, first to last.
pub open spec fn after_statements(state: CheckerState, statements: Seq<Statement>) -> CheckerState
    decreases statements.len(),
{
    if statements.len() == 0 {
        state
    } else {
        after_statement(after_statements(state, statements.drop_last()), statements.last())
    }
}

} // verus!
