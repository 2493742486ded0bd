//! The checker: a symbol table and a list of diagnostics, filled by
//! walking a program.

use crate::ast::{
    ArrayElement, Expression, FunctionDeclaration, Parameter, Program, Statement, TupleElement,
    TypeNode, VariableDeclarator,
};
use crate::laws::{lemma_statement_extends, lemma_statements_extend};
use crate::messages::{write_not_assignable_message, write_operation_message};
use crate::operators::type_operation;
use crate::semantics::{
    after_body, after_body_statement, after_declarator, after_declarators, after_function,
    after_statement, after_statements, annotated_types, eval_diagnostics, eval_type,
    keyword_type, node_types, parameter_type, parameter_types, tuple_types, type_of_node,
    with_assignment, with_parameters, CheckerState,
};
use crate::text::same_text;
use crate::types::{check_type_compatibility, views, Type, TypeView};
use std::sync::Arc;
use vstd::hash_map::StringHashMap;
use vstd::prelude::*;

verus! {

/// The texts of a sequence of strings.
pub open spec fn texts(strings: Seq<String>) -> Seq<Seq<char>> {
    Seq::new(strings.len(), |i: int| strings[i]@)
}

/// The keyword type that a name is spelled like, if it is spelled like
/// one.
fn keyword(name: &str) -> (found: Option<Type>)
    ensures
        match found {
            Some(keyword) => keyword_type(name@) == Some(keyword@),
            None => keyword_type(name@) is None,
        },
{
    if same_text(name, "number") {
        Some(Type::Number)
    } else if same_text(name, "string") {
        Some(Type::String)
    } else if same_text(name, "boolean") {
        Some(Type::Boolean)
    } else if same_text(name, "bigint") {
        Some(Type::BigInt)
    } else if same_text(name, "symbol") {
        Some(Type::Symbol)
    } else if same_text(name, "null") {
        Some(Type::Null)
    } else if same_text(name, "never") {
        Some(Type::Never)
    } else if same_text(name, "void") {
        Some(Type::Void)
    } else if same_text(name, "unknown") {
        Some(Type::Unknown)
    } else if same_text(name, "any") {
        Some(Type::Any)
    } else {
        None
    }
}

/// A type checker: a flat table from names to types and the list of
/// diagnostics found so far. Both grow from call to call; nothing resets
/// them.
pub struct TypeChecker {
    errors: Vec<String>,
    symbol_table: StringHashMap<Type>,
}

impl TypeChecker {
    /// The diagnostics recorded so far, oldest first.
    pub closed spec fn diagnostics(&self) -> Seq<Seq<char>> {
        texts(self.errors@)
    }

    /// The symbol table: the type bound to each known name.
    pub closed spec fn symbols(&self) -> Map<Seq<char>, TypeView> {
        Map::new(
            |name: Seq<char>| self.symbol_table@.contains_key(name),
            |name: Seq<char>| self.symbol_table@[name]@,
        )
    }

    /// What the checker holds: its table and its diagnostics.
    pub open spec fn state(&self) -> CheckerState {
        CheckerState { symbols: self.symbols(), diagnostics: self.diagnostics() }
    }

    /// A checker that knows no name and has found nothing.
    pub fn new() -> (checker: Self)
        ensures
            checker.diagnostics() == Seq::<Seq<char>>::empty(),
            checker.symbols() == Map::<Seq<char>, TypeView>::empty(),
    {
        let checker = TypeChecker { errors: Vec::new(), symbol_table: StringHashMap::new() };
        assert(checker.diagnostics() =~= Seq::<Seq<char>>::empty());
        assert(checker.symbols() =~= Map::<Seq<char>, TypeView>::empty());
        checker
    }

    /// Checks the top-level statements of a program, first to last. What
    /// the checker held before stays: names are added or rebound, and
    /// diagnostics are added behind those already there.
    pub fn check_program(&mut self, program: &Program)
        ensures
            final(self).state() == after_statements(old(self).state(), program.body@),
            final(self).state().extends(old(self).state()),
    {
        proof {
            lemma_statements_extend(old(self).state(), program.body@);
        }
        let mut i: usize = 0;
        while i < program.body.len()
            invariant
                0 <= i <= program.body.len(),
                self.state() == after_statements(old(self).state(), program.body@.take(i as int)),
            decreases program.body.len() - i,
        {
            assert(program.body@.take(i + 1).drop_last() =~= program.body@.take(i as int));
            self.check_statement(&program.body[i]);
            i += 1;
        }
        assert(program.body@.take(program.body.len() as int) =~= program.body@);
    }


    /// Checks one statement.
    pub fn check_statement(&mut self, statement: &Statement)
        ensures
            final(self).state() == after_statement(old(self).state(), *statement),
            final(self).state().extends(old(self).state()),
        decreases statement, 0int,
    {
        proof {
            lemma_statement_extends(old(self).state(), *statement);
        }
        match statement {
            Statement::VariableDeclaration(declarators) => self.check_declarators(declarators),
            Statement::FunctionDeclaration(function) => self.check_function(function),
            _ => {},
        }
    }

    /// Puts a diagnostic behind those already recorded.
    fn record(&mut self, message: String)
        ensures
            final(self).symbols() == old(self).symbols(),
            final(self).diagnostics() == old(self).diagnostics().push(message@),
    {
        self.errors.push(message);
        assert(self.diagnostics() =~= old(self).diagnostics().push(message@));
    }

    /// Binds the name to the type, over whatever it was bound to.
    fn bind(&mut self, name: &String, bound: Type)
        ensures
            final(self).symbols() == old(self).symbols().insert(name@, bound@),
            final(self).diagnostics() == old(self).diagnostics(),
    {
        self.symbol_table.insert(name.clone(), bound);
        assert(self.symbols() =~= old(self).symbols().insert(name@, bound@));
    }

    /// Holds a value of type `actual` against `expected` and records the
    /// diagnostic where it is not assignable.
    fn check_assignment(&mut self, expected: &Type, actual: &Type)
        ensures
            final(self).symbols() == old(self).symbols(),
            final(self).diagnostics() == with_assignment(
                old(self).diagnostics(),
                expected@,
                actual@,
            ),
    {
        if !check_type_compatibility(expected, actual) {
            self.record(write_not_assignable_message(actual, expected));
        }
    }

    /// Checks one declarator of a variable declaration.
    fn check_declarator(&mut self, declarator: &VariableDeclarator)
        ensures
            final(self).state() == after_declarator(old(self).state(), *declarator),
    {
        if let Some(name) = &declarator.name {
            match &declarator.annotation {
                Some(annotation) => {
                    let declared = self.check_type(annotation);
                    self.bind(name, declared.clone());
                    if let Some(init) = &declarator.init {
                        let actual = self.check_expression(init);
                        self.check_assignment(&declared, &actual);
                    }
                },
                None => {
                    let inferred = match &declarator.init {
                        Some(init) => self.check_expression(init),
                        None => Type::Any,
                    };
                    assert(self.diagnostics() + Seq::<Seq<char>>::empty() =~= self.diagnostics());
                    self.bind(name, inferred);
                },
            }
        }
    }

    /// Checks the declarators of one declaration, first to last.
    fn check_declarators(&mut self, declarators: &Vec<VariableDeclarator>)
        ensures
            final(self).state() == after_declarators(old(self).state(), declarators@),
    {
        let mut i: usize = 0;
        while i < declarators.len()
            invariant
                0 <= i <= declarators.len(),
                self.state() == after_declarators(old(self).state(), declarators@.take(i as int)),
            decreases declarators.len() - i,
        {
            assert(declarators@.take(i + 1).drop_last() =~= declarators@.take(i as int));
            self.check_declarator(&declarators[i]);
            i += 1;
        }
        assert(declarators@.take(declarators.len() as int) =~= declarators@);
    }

    /// Binds each parameter that is a plain name to its type and gives
    /// the types of all of them.
    fn check_parameters(&mut self, parameters: &Vec<Parameter>) -> (types: Vec<Type>)
        ensures
            views(types@) == parameter_types(parameters@),
            final(self).symbols() == with_parameters(old(self).symbols(), parameters@),
            final(self).diagnostics() == old(self).diagnostics(),
    {
        let mut types: Vec<Type> = Vec::new();
        let mut i: usize = 0;
        while i < parameters.len()
            invariant
                0 <= i <= parameters.len(),
                types.len() == i,
                forall|j: int|
                    0 <= j < i ==> (#[trigger] types@[j])@ == parameter_type(parameters@[j]),
                self.symbols() == with_parameters(old(self).symbols(), parameters@.take(i as int)),
                self.diagnostics() == old(self).diagnostics(),
            decreases parameters.len() - i,
        {
            assert(parameters@.take(i + 1).drop_last() =~= parameters@.take(i as int));
            let parameter = &parameters[i];
            let parameter_type = match &parameter.annotation {
                Some(annotation) => self.check_type(annotation),
                None => Type::Any,
            };
            if let Some(name) = &parameter.name {
                self.bind(name, parameter_type.clone());
            }
            types.push(parameter_type);
            i += 1;
        }
        assert(parameters@.take(parameters.len() as int) =~= parameters@);
        assert(views(types@) =~= parameter_types(parameters@));
        types
    }

    /// Checks a function declaration.
    fn check_function(&mut self, function: &FunctionDeclaration)
        ensures
            final(self).state() == after_function(old(self).state(), *function),
        decreases function, 0int,
    {
        if let Some(name) = &function.name {
            let parameter_types = self.check_parameters(&function.params);
            let return_type = match &function.return_type {
                Some(annotation) => self.check_type(annotation),
                None => Type::Any,
            };
            let own_type = Type::Function {
                params: parameter_types,
                return_type: Arc::new(return_type.clone()),
            };
            self.bind(name, own_type);
            if let Some(body) = &function.body {
                self.check_body(&return_type, body);
            }
        }
    }

    /// Checks the statements of a function body, first to last.
    fn check_body(&mut self, expected: &Type, statements: &Vec<Statement>)
        ensures
            final(self).state() == after_body(old(self).state(), expected@, statements@),
        decreases statements, 0int,
    {
        let mut i: usize = 0;
        while i < statements.len()
            invariant
                0 <= i <= statements.len(),
                self.state() == after_body(
                    old(self).state(),
                    expected@,
                    statements@.take(i as int),
                ),
            decreases statements.len() - i,
        {
            assert(statements@.take(i + 1).drop_last() =~= statements@.take(i as int));
            self.check_body_statement(expected, &statements[i]);
            i += 1;
        }
        assert(statements@.take(statements.len() as int) =~= statements@);
    }

    /// Checks one statement of a function body.
    fn check_body_statement(&mut self, expected: &Type, statement: &Statement)
        ensures
            final(self).state() == after_body_statement(old(self).state(), expected@, *statement),
        decreases statement, 1int,
    {
        match statement {
            Statement::Return(argument) => {
                if let Some(value) = argument {
                    let actual = self.check_expression(value);
                    self.check_assignment(expected, &actual);
                }
            },
            _ => self.check_statement(statement),
        }
    }

    /// The type that a type node stands for.
    pub fn check_type(&self, ts_type: &TypeNode) -> (checked: Type)
        ensures
            checked@ == type_of_node(*ts_type),
        decreases ts_type, 1int,
    {
        match ts_type {
            TypeNode::AnyKeyword => Type::Any,
            TypeNode::NumberKeyword => Type::Number,
            TypeNode::StringKeyword => Type::String,
            TypeNode::BooleanKeyword => Type::Boolean,
            TypeNode::NullKeyword => Type::Null,
            TypeNode::UndefinedKeyword => Type::Undefined,
            TypeNode::NeverKeyword => Type::Never,
            TypeNode::BigIntKeyword => Type::BigInt,
            TypeNode::SymbolKeyword => Type::Symbol,
            TypeNode::ObjectKeyword => Type::Object,
            TypeNode::UnknownKeyword => Type::Unknown,
            TypeNode::VoidKeyword => Type::Void,
            TypeNode::Array(element) => Type::Array(Arc::new(self.check_type(&**element))),
            TypeNode::Tuple(elements) => Type::Tuple(self.check_tuple_types(elements)),
            TypeNode::Union(members) => Type::Union(self.check_node_types(members)),
            TypeNode::Function { params, return_type } => Type::Function {
                params: self.check_annotated_types(params),
                return_type: Arc::new(self.check_type(&**return_type)),
            },
            TypeNode::Other => Type::Any,
        }
    }

    /// The types of the places of a tuple type.
    fn check_tuple_types(&self, elements: &Vec<TupleElement>) -> (types: Vec<Type>)
        ensures
            views(types@) == tuple_types(elements@),
        decreases elements, 0int,
    {
        let mut types: Vec<Type> = Vec::new();
        let mut i: usize = 0;
        while i < elements.len()
            invariant
                0 <= i <= elements.len(),
                types.len() == i,
                forall|j: int| 0 <= j < i ==> (#[trigger] types@[j])@ == tuple_types(elements@)[j],
            decreases elements.len() - i,
        {
            let element_type = match &elements[i] {
                TupleElement::Type(node) => self.check_type(node),
                TupleElement::Other => Type::Any,
            };
            types.push(element_type);
            i += 1;
        }
        assert(views(types@) =~= tuple_types(elements@));
        types
    }

    /// The types of the members of a union type.
    fn check_node_types(&self, nodes: &Vec<TypeNode>) -> (types: Vec<Type>)
        ensures
            views(types@) == node_types(nodes@),
        decreases nodes, 0int,
    {
        let mut types: Vec<Type> = Vec::new();
        let mut i: usize = 0;
        while i < nodes.len()
            invariant
                0 <= i <= nodes.len(),
                types.len() == i,
                forall|j: int| 0 <= j < i ==> (#[trigger] types@[j])@ == node_types(nodes@)[j],
            decreases nodes.len() - i,
        {
            types.push(self.check_type(&nodes[i]));
            i += 1;
        }
        assert(views(types@) =~= node_types(nodes@));
        types
    }

    /// The types of the annotated parameters of a function type.
    fn check_annotated_types(&self, params: &Vec<Parameter>) -> (types: Vec<Type>)
        ensures
            views(types@) == annotated_types(params@),
        decreases params, 0int,
    {
        let mut types: Vec<Type> = Vec::new();
        let mut i: usize = 0;
        while i < params.len()
            invariant
                0 <= i <= params.len(),
                views(types@) == annotated_types(params@.take(i as int)),
            decreases params.len() - i,
        {
            let ghost before = types@;
            assert(params@.take(i + 1).drop_last() =~= params@.take(i as int));
            if let Some(node) = &params[i].annotation {
                types.push(self.check_type(node));
                assert(views(types@) =~= views(before).push(type_of_node(*node)));
            }
            i += 1;
        }
        assert(params@.take(params.len() as int) =~= params@);
        types
    }

    /// The type of an expression under the symbol table as it stands.
    /// Diagnostics found on the way are recorded; the table is left as it
    /// is.
    pub fn check_expression(&mut self, expr: &Expression) -> (evaluated: Type)
        ensures
            evaluated@ == eval_type(old(self).symbols(), *expr),
            final(self).symbols() == old(self).symbols(),
            final(self).diagnostics() == old(self).diagnostics() + eval_diagnostics(
                old(self).symbols(),
                *expr,
            ),
        decreases expr,
    {
        let ghost before = self.diagnostics();
        assert(before + Seq::<Seq<char>>::empty() =~= before);
        match expr {
            Expression::NumericLiteral => Type::Number,
            Expression::BigIntLiteral => Type::BigInt,
            Expression::StringLiteral => Type::String,
            Expression::BooleanLiteral => Type::Boolean,
            Expression::NullLiteral => Type::Null,
            Expression::Identifier(name) => match keyword(name.as_str()) {
                Some(found) => found,
                None => self.lookup(name.as_str()),
            },
            Expression::Array(elements) => {
                let element = if elements.len() > 0 {
                    match &elements[0] {
                        ArrayElement::Expression(first) => self.check_expression(first),
                        ArrayElement::Other => Type::Any,
                    }
                } else {
                    Type::Any
                };
                Type::Array(Arc::new(element))
            },
            Expression::Binary { operator, left, right } => {
                let left_type = self.check_expression(&**left);
                let right_type = self.check_expression(&**right);
                let operation = type_operation(*operator, &left_type, &right_type);
                if operation.rejected {
                    self.record(write_operation_message(&left_type, &right_type));
                }
                assert(self.diagnostics() =~= before + eval_diagnostics(old(self).symbols(), *expr));
                operation.result
            },
            Expression::Other => Type::Any,
        }
    }

    /// The type bound to a name, or `any` where none is.
    fn lookup(&self, name: &str) -> (found: Type)
        ensures
            found@ == if self.symbols().contains_key(name@) {
                self.symbols()[name@]
            } else {
                TypeView::Any
            },
    {
        match self.symbol_table.get(name) {
            Some(bound) => bound.clone(),
            None => Type::Any,
        }
    }

    /// The diagnostics recorded so far, oldest first.
    pub fn get_errors(&self) -> (errors: &[String])
        ensures
            texts(errors@) == self.diagnostics(),
    {
        self.errors.as_slice()
    }
}

} // verus!
