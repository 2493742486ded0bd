//! A structural type checker for a TypeScript-like language.
//!
//! The checker walks a parsed program ([`ast`]), binds each declared name
//! to a type ([`types`]) in one flat symbol table, types expressions, and
//! records a diagnostic wherever a value is not assignable to the type
//! declared for it or an operation mixes `bigint` with another type
//! ([`type_checker`]). Nothing stops the walk: what is not understood is
//! typed `any`.
//!
//! What each step means is laid down over mathematical models in
//! [`semantics`], and every executable function is proved to compute
//! exactly that. [`laws`] holds what follows for all types and programs.

pub mod ast;
pub mod equality;
pub mod laws;
pub mod messages;
pub mod number;
pub mod operators;
pub mod render;
pub mod semantics;
pub mod text;
pub mod type_checker;
pub mod types;
