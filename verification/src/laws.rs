//! What holds whatever the types and the program: of assignability, of
//! rendering, of the operator rules, and of what a checker holds.

use crate::ast::{
    BinaryOperator, Expression, FunctionDeclaration, Parameter, Statement, TypeNode,
    VariableDeclarator,
};
use crate::number::{is_nan_bits, same_number, NumberView};
use crate::semantics::{
    after_body, after_body_statement, after_declarator, after_declarators, after_function,
    after_statement, after_statements, declared_return, eval_diagnostics, eval_type,
    function_type, keyword_type, type_of_node, with_parameters, CheckerState,
};
use crate::operators::{operation_rejected, operation_type, operator_kind, OperatorKind};
use crate::render::rendered;
use crate::types::{compatible, pairwise_compatible, some_compatible, TypeView};
use vstd::prelude::*;

verus! {

/// Between two keyword types assignability holds exactly when the two are
/// the same type or the expected one is `any`.
pub proof fn lemma_keyword_types_match_themselves(expected: TypeView, actual: TypeView)
    requires
        expected.is_primitive(),
        actual.is_primitive(),
    ensures
        compatible(expected, actual) <==> (expected is Any || expected == actual),
{
}

/// `any` as the expected type accepts every type, literal and composite
/// types included.
pub proof fn lemma_any_accepts_everything(actual: TypeView)
    ensures
        compatible(TypeView::Any, actual),
{
}

/// `any` as the actual type is accepted by `any` and by a union that has
/// a member accepting it, and by nothing else: it is no wildcard on that
/// side.
pub proof fn lemma_any_is_no_wildcard_as_actual(expected: TypeView)
    requires
        !(expected is Any),
        !(expected is Union),
    ensures
        !compatible(expected, TypeView::Any),
{
}

/// A literal type widens to its keyword type and never the other way
/// round.
pub proof fn lemma_literals_widen_one_way(literal: TypeView)
    ensures
        literal is NumberLiteral ==> compatible(TypeView::Number, literal) && !compatible(
            literal,
            TypeView::Number,
        ),
        literal is StringLiteral ==> compatible(TypeView::String, literal) && !compatible(
            literal,
            TypeView::String,
        ),
        literal is BooleanLiteral ==> compatible(TypeView::Boolean, literal) && !compatible(
            literal,
            TypeView::Boolean,
        ),
{
}

/// Two string literal types match exactly when the strings are equal.
pub proof fn lemma_string_literals_match_by_value(expected: Seq<char>, actual: Seq<char>)
    ensures
        compatible(TypeView::StringLiteral(expected), TypeView::StringLiteral(actual)) <==> expected
            == actual,
{
}

/// Two numeric literal types match exactly when the numbers are equal;
/// how the numbers are written plays no part.
pub proof fn lemma_number_literals_match_by_value(expected: NumberView, actual: NumberView)
    ensures
        compatible(TypeView::NumberLiteral(expected), TypeView::NumberLiteral(actual))
            <==> same_number(expected.bits, actual.bits),
{
}

/// A numeric literal type accepts itself exactly when its number is not a
/// NaN.
pub proof fn lemma_number_literal_accepts_itself_unless_nan(value: NumberView)
    ensures
        compatible(TypeView::NumberLiteral(value), TypeView::NumberLiteral(value)) <==> !is_nan_bits(
            value.bits,
        ),
{
}

/// Two boolean literal types match exactly when the values are equal.
pub proof fn lemma_boolean_literals_match_by_value(expected: bool, actual: bool)
    ensures
        compatible(TypeView::BooleanLiteral(expected), TypeView::BooleanLiteral(actual))
            <==> expected == actual,
{
}

/// A union accepts exactly what one of its members accepts.
pub proof fn lemma_union_accepts_what_a_member_accepts(members: Seq<TypeView>, actual: TypeView)
    ensures
        compatible(TypeView::Union(members), actual) <==> exists|i: int|
            0 <= i < members.len() && compatible(#[trigger] members[i], actual),
{
    assert(compatible(TypeView::Union(members), actual) == some_compatible(members, actual));
}

/// Array types match exactly when their element types do.
pub proof fn lemma_arrays_match_by_element(expected: TypeView, actual: TypeView)
    ensures
        compatible(TypeView::Array(Box::new(expected)), TypeView::Array(Box::new(actual)))
            <==> compatible(expected, actual),
{
}

/// Tuple types of different lengths never match.
pub proof fn lemma_tuples_of_different_length_never_match(
    expected: Seq<TypeView>,
    actual: Seq<TypeView>,
)
    requires
        expected.len() != actual.len(),
    ensures
        !compatible(TypeView::Tuple(expected), TypeView::Tuple(actual)),
{
    assert(!pairwise_compatible(expected, actual));
}

/// Tuple types match exactly when they are equally long and match place
/// by place.
pub proof fn lemma_tuples_match_place_by_place(expected: Seq<TypeView>, actual: Seq<TypeView>)
    ensures
        compatible(TypeView::Tuple(expected), TypeView::Tuple(actual)) <==> {
            &&& expected.len() == actual.len()
            &&& forall|i: int|
                #![trigger expected[i]]
                #![trigger actual[i]]
                0 <= i < expected.len() ==> compatible(expected[i], actual[i])
        },
{
    assert(compatible(TypeView::Tuple(expected), TypeView::Tuple(actual)) == pairwise_compatible(
        expected,
        actual,
    ));
}

/// Function types match exactly when they take equally many parameters,
/// each expected parameter type accepts the actual one at its place, and
/// the expected return type accepts the actual one.
pub proof fn lemma_functions_match_by_parameters_and_return(
    expected_params: Seq<TypeView>,
    expected_return: TypeView,
    actual_params: Seq<TypeView>,
    actual_return: TypeView,
)
    ensures
        compatible(
            TypeView::Function {
                params: expected_params,
                return_type: Box::new(expected_return),
            },
            TypeView::Function { params: actual_params, return_type: Box::new(actual_return) },
        ) <==> {
            &&& expected_params.len() == actual_params.len()
            &&& forall|i: int|
                #![trigger expected_params[i]]
                #![trigger actual_params[i]]
                0 <= i < expected_params.len() ==> compatible(
                    expected_params[i],
                    actual_params[i],
                )
            &&& compatible(expected_return, actual_return)
        },
{
    assert(pairwise_compatible(expected_params, actual_params) <==> {
        &&& expected_params.len() == actual_params.len()
        &&& forall|i: int|
            #![trigger expected_params[i]]
            #![trigger actual_params[i]]
            0 <= i < expected_params.len() ==> compatible(expected_params[i], actual_params[i])
    });
}

/// A keyword type node stands for the type that is written out as the
/// same keyword.
pub proof fn lemma_keyword_nodes_render_as_their_keyword(node: TypeNode)
    requires
        node.keyword() is Some,
    ensures
        rendered(type_of_node(node)) == node.keyword().unwrap(),
{
}

/// A comparison is `boolean` and is never reported, whatever its operands.
pub proof fn lemma_comparisons_are_boolean(
    operator: BinaryOperator,
    left: TypeView,
    right: TypeView,
)
    requires
        operator_kind(operator) == OperatorKind::Comparison,
    ensures
        operation_type(operator, left, right) == TypeView::Boolean,
        !operation_rejected(operator, left, right),
{
}

/// An addition with a `string` operand is a concatenation: it is `string`
/// and is never reported.
pub proof fn lemma_adding_to_a_string_gives_a_string(left: TypeView, right: TypeView)
    requires
        left is String || right is String,
    ensures
        operation_type(BinaryOperator::Addition, left, right) == TypeView::String,
        !operation_rejected(BinaryOperator::Addition, left, right),
{
}

/// An operation that is reported mixes `bigint` with another type, and is
/// typed `number` all the same.
pub proof fn lemma_reported_operations_are_number(
    operator: BinaryOperator,
    left: TypeView,
    right: TypeView,
)
    requires
        operation_rejected(operator, left, right),
    ensures
        (left is BigInt) != (right is BigInt),
        operation_type(operator, left, right) == TypeView::Number,
{
}

/// A name spelled like a type keyword evaluates to that type under every
/// symbol table, and records nothing.
pub proof fn lemma_keyword_names_pass_by_the_table(
    first: Map<Seq<char>, TypeView>,
    second: Map<Seq<char>, TypeView>,
    name: String,
)
    requires
        keyword_type(name@) is Some,
    ensures
        eval_type(first, Expression::Identifier(name)) == eval_type(
            second,
            Expression::Identifier(name),
        ),
        eval_type(first, Expression::Identifier(name)) == keyword_type(name@).unwrap(),
        eval_diagnostics(first, Expression::Identifier(name)) == Seq::<Seq<char>>::empty(),
{
}

/// Every state extends itself.
pub proof fn lemma_extends_reflexive(state: CheckerState)
    ensures
        state.extends(state),
{
    assert(state.diagnostics =~= state.diagnostics.subrange(0, state.diagnostics.len() as int));
}

/// Extending is transitive.
pub proof fn lemma_extends_transitive(first: CheckerState, second: CheckerState, third: CheckerState)
    requires
        second.extends(first),
        third.extends(second),
    ensures
        third.extends(first),
{
    assert(first.diagnostics =~= third.diagnostics.subrange(0, first.diagnostics.len() as int));
}

/// Binding parameters keeps every name that was known.
pub proof fn lemma_parameters_keep_names(
    symbols: Map<Seq<char>, TypeView>,
    parameters: Seq<Parameter>,
)
    ensures
        symbols.dom().subset_of(with_parameters(symbols, parameters).dom()),
    decreases parameters.len(),
{
    if parameters.len() > 0 {
        lemma_parameters_keep_names(symbols, parameters.drop_last());
    }
}

/// A declarator only adds to what the checker holds.
pub proof fn lemma_declarator_extends(state: CheckerState, declarator: VariableDeclarator)
    ensures
        after_declarator(state, declarator).extends(state),
{
    let after = after_declarator(state, declarator);
    assert(state.diagnostics =~= after.diagnostics.subrange(0, state.diagnostics.len() as int));
}

/// The declarators of a declaration only add to what the checker holds.
pub proof fn lemma_declarators_extend(state: CheckerState, declarators: Seq<VariableDeclarator>)
    ensures
        after_declarators(state, declarators).extends(state),
    decreases declarators.len(),
{
    if declarators.len() == 0 {
        lemma_extends_reflexive(state);
    } else {
        let before = after_declarators(state, declarators.drop_last());
        lemma_declarators_extend(state, declarators.drop_last());
        lemma_declarator_extends(before, declarators.last());
        lemma_extends_transitive(state, before, after_declarator(before, declarators.last()));
    }
}

/// A function declaration only adds to what the checker holds.
pub proof fn lemma_function_extends(state: CheckerState, function: FunctionDeclaration)
    ensures
        after_function(state, function).extends(state),
    decreases function, 0int,
{
    lemma_extends_reflexive(state);
    match function.name {
        None => {},
        Some(name) => {
            lemma_parameters_keep_names(state.symbols, function.params@);
            match function.body {
                Some(body) => {
                    let entered = CheckerState {
                        symbols: with_parameters(state.symbols, function.params@).insert(
                            name@,
                            function_type(function),
                        ),
                        diagnostics: state.diagnostics,
                    };
                    let expected = declared_return(function);
                    lemma_body_extends(entered, expected, body@);
                    lemma_extends_transitive(state, entered, after_body(entered, expected, body@));
                },
                None => {},
            }
        },
    }
}

/// The statements of a function body only add to what the checker holds.
pub proof fn lemma_body_extends(
    state: CheckerState,
    expected: TypeView,
    statements: Seq<Statement>,
)
    ensures
        after_body(state, expected, statements).extends(state),
    decreases statements, 0int,
{
    if statements.len() == 0 {
        lemma_extends_reflexive(state);
    } else {
        let before = after_body(state, expected, statements.drop_last());
        lemma_body_extends(state, expected, statements.drop_last());
        lemma_body_statement_extends(before, expected, statements.last());
        lemma_extends_transitive(
            state,
            before,
            after_body_statement(before, expected, statements.last()),
        );
    }
}

/// One statement of a function body only adds to what the checker holds.
pub proof fn lemma_body_statement_extends(
    state: CheckerState,
    expected: TypeView,
    statement: Statement,
)
    ensures
        after_body_statement(state, expected, statement).extends(state),
    decreases statement, 1int,
{
    match statement {
        Statement::Return(argument) => {
            let after = after_body_statement(state, expected, statement);
            assert(state.diagnostics =~= after.diagnostics.subrange(
                0,
                state.diagnostics.len() as int,
            ));
        },
        _ => lemma_statement_extends(state, statement),
    }
}

/// A statement only adds to what the checker holds.
pub proof fn lemma_statement_extends(state: CheckerState, statement: Statement)
    ensures
        after_statement(state, statement).extends(state),
    decreases statement, 0int,
{
    match statement {
        Statement::VariableDeclaration(declarators) => lemma_declarators_extend(
            state,
            declarators@,
        ),
        Statement::FunctionDeclaration(function) => lemma_function_extends(state, function),
        _ => {
            lemma_extends_reflexive(state);
        },
    }
}

/// Checking never takes anything back: after any sequence of statements
/// the diagnostics recorded before stand unchanged in front of the new
/// ones, and every name that was known is still known.
pub proof fn lemma_statements_extend(state: CheckerState, statements: Seq<Statement>)
    ensures
        after_statements(state, statements).extends(state),
    decreases statements.len(),
{
    if statements.len() == 0 {
        lemma_extends_reflexive(state);
    } else {
        let before = after_statements(state, statements.drop_last());
        lemma_statements_extend(state, statements.drop_last());
        lemma_statement_extends(before, statements.last());
        lemma_extends_transitive(state, before, after_statement(before, statements.last()));
    }
}

} // verus!
