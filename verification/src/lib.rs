//! The Sample Manipulation Language, SML for short, is a first-order, total,
//! typed programming language for generating and transforming samples.
//!
//! This crate holds the types that represent SML expressions and, in
//! [`check`], the type checker that assigns a [`Schema`] to an expression.

use std::rc::Rc;
use vstd::prelude::*;

pub mod check;
pub mod rules;

verus! {

/// A type in SML. Called a _schema_ because _type_ is a Rust keyword.
///
/// Schemas are compared by equality only: there is no subtyping and no
/// coercion between them.
#[derive(Clone, Copy, Debug, PartialEq, Eq, Structural)]
pub enum Schema {
    /// Booleans.
    Bool,
    /// 32-bit floating-point numbers.
    Float,
    /// Filters.
    Filter,
}

/// An arithmetic operation.
#[derive(Clone, Copy, Debug, PartialEq, Eq, PartialOrd, Ord, Structural)]
pub enum Arithmetic {
    Add,
    Subtract,
    Multiply,
    Divide,
}

/// A trigonometric operation.
#[derive(Clone, Copy, Debug, PartialEq, Eq, PartialOrd, Ord, Structural)]
pub enum Trigonometric {
    Sine,
    Cosine,
}

/// An expression in SML.
///
/// Subexpressions are shared, read-only references; nothing in this crate
/// mutates an expression once it is built.
#[derive(Debug)]
pub enum Expression {
    /// The sample number.
    SampleNumber,
    /// The sample rate.
    SampleRate,
    /// A reference to a variable.
    Variable(Rc<str>),
    /// A local variable binding: the name, the bound value, and the body in
    /// which the name is visible.
    Let(Rc<str>, Rc<Expression>, Rc<Expression>),
    /// An if expression: the condition, and the two branches.
    If(Rc<Expression>, Rc<Expression>, Rc<Expression>),
    /// A 32-bit floating-point literal, held as its IEEE 754 bit pattern.
    /// The value of a literal has no bearing on its schema.
    Float(u32),
    /// An arithmetic operation.
    Arithmetic(Arithmetic, Rc<Expression>, Rc<Expression>),
    /// A trigonometric operation.
    Trigonometric(Trigonometric, Rc<Expression>),
}

impl Clone for Expression {
    /// A copy of the node, which shares its names and subexpressions with
    /// it.
    fn clone(&self) -> (copy: Self)
        ensures
            copy == *self,
    {
        match self {
            Expression::SampleNumber => Expression::SampleNumber,
            Expression::SampleRate => Expression::SampleRate,
            Expression::Variable(name) => Expression::Variable(name.clone()),
            Expression::Let(name, value, body) => Expression::Let(
                name.clone(),
                value.clone(),
                body.clone(),
            ),
            Expression::If(condition, then_branch, otherwise) => Expression::If(
                condition.clone(),
                then_branch.clone(),
                otherwise.clone(),
            ),
            Expression::Float(bits) => Expression::Float(*bits),
            Expression::Arithmetic(op, a, b) => Expression::Arithmetic(*op, a.clone(), b.clone()),
            Expression::Trigonometric(f, a) => Expression::Trigonometric(*f, a.clone()),
        }
    }
}

} // verus!
