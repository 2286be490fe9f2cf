//! SML type checking.
//!
//! [`check`] walks an expression and assigns it a [`Schema`], or reports the
//! first type error it meets. What it returns is stated by [`type_of`], the
//! typing rules of the language over the names in scope; the names in scope
//! are the view of an [`Environment`].

use crate::{Expression, Schema};
use std::rc::Rc;
use vstd::hash_map::StringHashMap;
use vstd::prelude::*;

verus! {

/// What a scope makes visible: each name in scope, with its schema.
pub type Bindings = Map<Seq<char>, Schema>;

/// The schema that the bindings give a name, if they give it one.
pub open spec fn lookup(bindings: Bindings, name: Seq<char>) -> Option<Schema> {
    if bindings.contains_key(name) {
        Some(bindings[name])
    } else {
        None
    }
}

/// The type checking environment stores the type of each variable that is in
/// scope.
///
/// An environment is one scope frame together with a borrowed link to the
/// frame that encloses it. A frame without a parent is a root scope.
pub struct Environment<'e> {
    pub parent: Option<&'e Environment<'e>>,
    pub variables: StringHashMap<Schema>,
}

impl<'e> View for Environment<'e> {
    type V = Bindings;

    /// The bindings visible from this frame: its own, laid over those
    /// visible from its parent.
    open spec fn view(&self) -> Bindings
        decreases self,
    {
        match self.parent {
            Some(parent) => parent.view().union_prefer_right(self.variables@),
            None => self.variables@,
        }
    }
}

impl<'e> Environment<'e> {
    /// The search that a lookup makes: this frame first, then each ancestor
    /// in turn; the first frame that defines the name decides.
    pub open spec fn resolve(&self, name: Seq<char>) -> Option<Schema>
        decreases self,
    {
        if self.variables@.contains_key(name) {
            Some(self.variables@[name])
        } else {
            match self.parent {
                Some(parent) => parent.resolve(name),
                None => None,
            }
        }
    }

    /// The view of an environment answers every name as the search through
    /// its frames does, innermost frame first.
    pub proof fn view_resolves(&self, name: Seq<char>)
        ensures
            lookup(self@, name) == self.resolve(name),
        decreases self,
    {
        match self.parent {
            Some(parent) => {
                parent.view_resolves(name);
            },
            None => {},
        }
    }

    /// Create a root environment, in which no variable is defined.
    pub fn new() -> (root: Self)
        ensures
            root.parent is None,
            root.variables@ == Bindings::empty(),
            root@ == Bindings::empty(),
    {
        Environment { parent: None, variables: StringHashMap::new() }
    }

    /// Create a child environment.
    pub fn derive(&'e self) -> (child: Self)
        ensures
            child.parent == Some(self),
            child.variables@ == Bindings::empty(),
            child@ == self@,
    {
        let child = Environment { parent: Some(self), variables: StringHashMap::new() };
        assert(self@.union_prefer_right(Bindings::empty()) =~= self@);
        child
    }

    /// Define a new variable.
    ///
    /// The definition is made in this frame only. It replaces what this
    /// frame said of the name before, and hides what the ancestors say of
    /// it.
    pub fn define(&mut self, name: Rc<str>, schema: Schema)
        ensures
            final(self).parent == old(self).parent,
            final(self).variables@ == old(self).variables@.insert((*name)@, schema),
            final(self)@ == old(self)@.insert((*name)@, schema),
    {
        let key: &str = &*name;
        self.variables.insert(key.to_owned(), schema);
        proof {
            match self.parent {
                Some(parent) => {
                    assert(parent@.union_prefer_right(
                        old(self).variables@.insert((*name)@, schema),
                    ) =~= parent@.union_prefer_right(old(self).variables@).insert(
                        (*name)@,
                        schema,
                    ));
                },
                None => {},
            }
        }
    }

    /// Look up the type of a variable by name.
    pub fn schema_of(&self, name: &str) -> (found: Option<Schema>)
        ensures
            found == self.resolve(name@),
            found == lookup(self@, name@),
        decreases self,
    {
        if let Some(schema) = self.variables.get(name) {
            Some(*schema)
        } else if let Some(parent) = self.parent {
            parent.schema_of(name)
        } else {
            None
        }
    }
}

/// Type errors.
#[derive(Debug)]
pub enum Error {
    /// A variable was referenced under a name that no enclosing scope
    /// defines. Carries the unresolved name.
    UnknownVariable(Rc<str>),
    /// A typing constraint failed: a condition that is not a `Bool`,
    /// branches of different schemas, or an operand that is not a `Float`.
    TypeMismatch,
}

/// A type error as a plain value: the name as the characters it holds.
pub enum Fault {
    UnknownVariable(Seq<char>),
    TypeMismatch,
}

impl View for Error {
    type V = Fault;

    open spec fn view(&self) -> Fault {
        match self {
            Error::UnknownVariable(name) => Fault::UnknownVariable((**name)@),
            Error::TypeMismatch => Fault::TypeMismatch,
        }
    }
}

impl Clone for Error {
    /// A copy of the error, which shares the name with it.
    fn clone(&self) -> (copy: Self)
        ensures
            copy == *self,
    {
        match self {
            Error::UnknownVariable(name) => Error::UnknownVariable(name.clone()),
            Error::TypeMismatch => Error::TypeMismatch,
        }
    }
}

/// The plain value of what `check` returns.
pub open spec fn outcome(result: Result<Schema, Error>) -> Result<Schema, Fault> {
    match result {
        Ok(schema) => Ok(schema),
        Err(error) => Err(error@),
    }
}

/// The typing rules of SML: the schema of `e` where the names in scope are
/// those of `scope`, or the first type error met.
///
/// The subexpressions of a node are typed from left to right, each before
/// any constraint of the node itself is looked at, and the first error ends
/// the walk. The constraints of a node are then tried in order.
pub open spec fn type_of(scope: Bindings, e: &Expression) -> Result<Schema, Fault>
    decreases e,
{
    match e {
        Expression::SampleNumber => Ok(Schema::Float),
        Expression::SampleRate => Ok(Schema::Float),
        Expression::Float(_) => Ok(Schema::Float),
        Expression::Variable(name) => match lookup(scope, (**name)@) {
            Some(schema) => Ok(schema),
            None => Err(Fault::UnknownVariable((**name)@)),
        },
        Expression::Let(name, value, body) => match type_of(scope, &**value) {
            Ok(schema) => type_of(scope.insert((**name)@, schema), &**body),
            Err(fault) => Err(fault),
        },
        Expression::If(condition, then_branch, otherwise) => match type_of(scope, &**condition) {
            Err(fault) => Err(fault),
            Ok(condition_schema) => match type_of(scope, &**then_branch) {
                Err(fault) => Err(fault),
                Ok(then_schema) => match type_of(scope, &**otherwise) {
                    Err(fault) => Err(fault),
                    Ok(otherwise_schema) => if condition_schema == Schema::Bool && then_schema
                        == otherwise_schema {
                        Ok(then_schema)
                    } else {
                        Err(Fault::TypeMismatch)
                    },
                },
            },
        },
        Expression::Arithmetic(_, a, b) => match type_of(scope, &**a) {
            Err(fault) => Err(fault),
            Ok(a_schema) => match type_of(scope, &**b) {
                Err(fault) => Err(fault),
                Ok(b_schema) => if a_schema == Schema::Float && b_schema == Schema::Float {
                    Ok(Schema::Float)
                } else {
                    Err(Fault::TypeMismatch)
                },
            },
        },
        Expression::Trigonometric(_, a) => match type_of(scope, &**a) {
            Err(fault) => Err(fault),
            Ok(a_schema) => if a_schema == Schema::Float {
                Ok(Schema::Float)
            } else {
                Err(Fault::TypeMismatch)
            },
        },
    }
}

/// Type check an expression, returning its type.
///
/// The environment is read and never changed: each `let` is typed in a
/// child frame of its own, which is gone when the `let` has been typed.
pub fn check<'g>(g: &'g Environment, e: &Expression) -> (result: Result<Schema, Error>)
    ensures
        outcome(result) == type_of(g@, e),
    decreases e,
{
    match e {
        Expression::SampleNumber => Ok(Schema::Float),
        Expression::SampleRate => Ok(Schema::Float),
        Expression::Variable(name) => g.schema_of(name).ok_or(
            Error::UnknownVariable(name.clone()),
        ),
        Expression::Let(name, value, body) => {
            let schema = check(g, value)?;
            let mut inner_g = g.derive();
            inner_g.define(name.clone(), schema);
            check(&inner_g, body)
        },
        Expression::If(condition, then_branch, otherwise) => {
            let condition_schema = check(g, condition)?;
            let then_schema = check(g, then_branch)?;
            let otherwise_schema = check(g, otherwise)?;
            require_schema(condition_schema, Schema::Bool)?;
            require_schema(then_schema, otherwise_schema)?;
            Ok(then_schema)
        },
        Expression::Float(_) => Ok(Schema::Float),
        Expression::Arithmetic(_, a, b) => {
            let a_schema = check(g, a)?;
            let b_schema = check(g, b)?;
            require_schema(a_schema, Schema::Float)?;
            require_schema(b_schema, Schema::Float)?;
            Ok(Schema::Float)
        },
        Expression::Trigonometric(_, a) => {
            let a_schema = check(g, a)?;
            require_schema(a_schema, Schema::Float)?;
            Ok(Schema::Float)
        },
    }
}

/// Demand that two schemas be equal.
fn require_schema(a: Schema, b: Schema) -> (result: Result<(), Error>)
    ensures
        result is Ok <==> a == b,
        result matches Err(error) ==> error@ == Fault::TypeMismatch,
{
    if a == b {
        Ok(())
    } else {
        Err(Error::TypeMismatch)
    }
}

} // verus!
