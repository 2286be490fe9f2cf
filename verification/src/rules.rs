//! What follows from the typing rules, for every scope and expression.
//!
//! Each statement here is proved from the definitions of
//! [`type_of`](crate::check::type_of) and of the view of an
//! [`Environment`](crate::check::Environment), which are what the contracts
//! of the executable functions speak of.

use crate::check::{lookup, type_of, Bindings, Environment, Fault};
use crate::{Arithmetic, Expression, Schema, Trigonometric};
use std::rc::Rc;
use vstd::prelude::*;

verus! {

/// A node without subexpressions that is not a variable reference.
pub open spec fn is_constant(e: &Expression) -> bool {
    e is SampleNumber || e is SampleRate || e is Float
}

/// The sample number, the sample rate and every literal are `Float`, in
/// every scope.
pub proof fn constants_are_float(scope: Bindings, e: &Expression)
    requires
        is_constant(e),
    ensures
        type_of(scope, e) == Ok::<Schema, Fault>(Schema::Float),
{
}

/// A reference to a name that no frame of the environment defines is an
/// unknown variable, and the error carries that name.
pub proof fn undefined_name_is_unknown(env: Environment, name: Rc<str>)
    requires
        env.resolve((*name)@) is None,
    ensures
        type_of(env@, &Expression::Variable(name)) == Err::<Schema, Fault>(
            Fault::UnknownVariable((*name)@),
        ),
{
    env.view_resolves((*name)@);
}

/// A reference to a name that the environment defines, in its own frame or
/// in an ancestor's, has the schema of the innermost frame that defines it.
pub proof fn defined_name_has_its_schema(env: Environment, name: Rc<str>, schema: Schema)
    requires
        env.resolve((*name)@) == Some(schema),
    ensures
        type_of(env@, &Expression::Variable(name)) == Ok::<Schema, Fault>(schema),
{
    env.view_resolves((*name)@);
}

/// A definition in a frame hides what the ancestors say of that name, and
/// of that name only: every other name is answered as the frame without
/// the definition answers it.
pub proof fn definition_shadows_one_name(
    before: Environment,
    after: Environment,
    name: Seq<char>,
    schema: Schema,
    other: Seq<char>,
)
    requires
        after.parent == before.parent,
        after.variables@ == before.variables@.insert(name, schema),
        other != name,
    ensures
        after.resolve(name) == Some(schema),
        after.resolve(other) == before.resolve(other),
{
}

/// A child scope in which nothing is defined yet sees exactly what its
/// parent sees.
pub proof fn child_sees_parent(parent: &Environment, child: Environment, name: Seq<char>)
    requires
        child.parent == Some(parent),
        child.variables@ == Bindings::empty(),
    ensures
        child.resolve(name) == parent.resolve(name),
{
}

/// The scope in which the body of a `let` is typed is what a child frame
/// of the enclosing environment sees once it holds that one binding: the
/// chain of frames mirrors the nesting of the `let`s.
pub proof fn let_scope_is_child_frame(
    enclosing: &Environment,
    child: Environment,
    name: Seq<char>,
    schema: Schema,
)
    requires
        child.parent == Some(enclosing),
        child.variables@ == Bindings::empty().insert(name, schema),
    ensures
        child@ == enclosing@.insert(name, schema),
{
    assert(child@ =~= enclosing@.insert(name, schema));
}

/// Inside the body of a `let`, the bound name has the schema of the bound
/// value, whatever the enclosing scope says of that name; every other name
/// is typed as outside the `let`.
pub proof fn let_binds_in_body(
    scope: Bindings,
    name: Rc<str>,
    value: Rc<Expression>,
    schema: Schema,
    other: Rc<str>,
)
    requires
        type_of(scope, &*value) == Ok::<Schema, Fault>(schema),
    ensures
        type_of(
            scope,
            &Expression::Let(name, value, Rc::new(Expression::Variable(name))),
        ) == Ok::<Schema, Fault>(schema),
        (*other)@ != (*name)@ ==> type_of(
            scope,
            &Expression::Let(name, value, Rc::new(Expression::Variable(other))),
        ) == type_of(scope, &Expression::Variable(other)),
{
    reveal_with_fuel(type_of, 2);
}

/// A `let` whose bound value fails to type fails with that error, whatever
/// its body is.
pub proof fn let_reports_value_error(
    scope: Bindings,
    name: Rc<str>,
    value: Rc<Expression>,
    body: Rc<Expression>,
    fault: Fault,
)
    requires
        type_of(scope, &*value) == Err::<Schema, Fault>(fault),
    ensures
        type_of(scope, &Expression::Let(name, value, body)) == Err::<Schema, Fault>(fault),
{
}

/// A binding made by a `let` does not reach a sibling. Beside a `let` that
/// binds any name at all, the same name included, a name of the enclosing
/// scope keeps the schema that the enclosing scope gives it: the `if` has
/// that schema where the `let` has it too, and is a mismatch where not.
pub proof fn let_does_not_leak(
    scope: Bindings,
    condition: Rc<Expression>,
    bound: Rc<str>,
    value: Rc<Expression>,
    body: Rc<Expression>,
    name: Rc<str>,
    kept: Schema,
    inner: Schema,
)
    requires
        lookup(scope, (*name)@) == Some(kept),
        type_of(scope, &*condition) == Ok::<Schema, Fault>(Schema::Bool),
        type_of(scope, &Expression::Let(bound, value, body)) == Ok::<Schema, Fault>(inner),
    ensures
        type_of(
            scope,
            &Expression::If(
                condition,
                Rc::new(Expression::Let(bound, value, body)),
                Rc::new(Expression::Variable(name)),
            ),
        ) == (if inner == kept {
            Ok::<Schema, Fault>(kept)
        } else {
            Err::<Schema, Fault>(Fault::TypeMismatch)
        }),
{
    reveal_with_fuel(type_of, 2);
}

/// The first error met in the order condition, first branch, second branch
/// is the error of an `if`, before any constraint of the `if` itself.
pub proof fn if_reports_first_error(
    scope: Bindings,
    condition: Rc<Expression>,
    then_branch: Rc<Expression>,
    otherwise: Rc<Expression>,
    fault: Fault,
)
    requires
        ({
            let c = type_of(scope, &*condition);
            let t = type_of(scope, &*then_branch);
            let o = type_of(scope, &*otherwise);
            ||| c == Err::<Schema, Fault>(fault)
            ||| c is Ok && t == Err::<Schema, Fault>(fault)
            ||| c is Ok && t is Ok && o == Err::<Schema, Fault>(fault)
        }),
    ensures
        type_of(scope, &Expression::If(condition, then_branch, otherwise)) == Err::<Schema, Fault>(
            fault,
        ),
{
}

/// Where its three subexpressions type, an `if` has the schema of its
/// branches exactly when the condition is a `Bool` and the branches agree,
/// and is a type mismatch otherwise.
pub proof fn if_constraints(
    scope: Bindings,
    condition: Rc<Expression>,
    then_branch: Rc<Expression>,
    otherwise: Rc<Expression>,
    c: Schema,
    t: Schema,
    o: Schema,
)
    requires
        type_of(scope, &*condition) == Ok::<Schema, Fault>(c),
        type_of(scope, &*then_branch) == Ok::<Schema, Fault>(t),
        type_of(scope, &*otherwise) == Ok::<Schema, Fault>(o),
    ensures
        type_of(scope, &Expression::If(condition, then_branch, otherwise)) == (if c == Schema::Bool
            && t == o {
            Ok::<Schema, Fault>(t)
        } else {
            Err::<Schema, Fault>(Fault::TypeMismatch)
        }),
{
}

/// The error of the first operand that fails to type is the error of an
/// arithmetic node, before its operands are held to be `Float`.
pub proof fn arithmetic_reports_first_error(
    scope: Bindings,
    op: Arithmetic,
    a: Rc<Expression>,
    b: Rc<Expression>,
    fault: Fault,
)
    requires
        ({
            let x = type_of(scope, &*a);
            let y = type_of(scope, &*b);
            ||| x == Err::<Schema, Fault>(fault)
            ||| x is Ok && y == Err::<Schema, Fault>(fault)
        }),
    ensures
        type_of(scope, &Expression::Arithmetic(op, a, b)) == Err::<Schema, Fault>(fault),
{
}

/// Where both operands type, an arithmetic node is a `Float` exactly when
/// both are `Float`, and is a type mismatch otherwise.
pub proof fn arithmetic_constraints(
    scope: Bindings,
    op: Arithmetic,
    a: Rc<Expression>,
    b: Rc<Expression>,
    x: Schema,
    y: Schema,
)
    requires
        type_of(scope, &*a) == Ok::<Schema, Fault>(x),
        type_of(scope, &*b) == Ok::<Schema, Fault>(y),
    ensures
        type_of(scope, &Expression::Arithmetic(op, a, b)) == (if x == Schema::Float && y
            == Schema::Float {
            Ok::<Schema, Fault>(Schema::Float)
        } else {
            Err::<Schema, Fault>(Fault::TypeMismatch)
        }),
{
}

/// A trigonometric node is a `Float` exactly when its operand is one, is a
/// type mismatch where the operand has another schema, and fails with the
/// operand's error where the operand fails.
pub proof fn trigonometric_constraints(scope: Bindings, f: Trigonometric, a: Rc<Expression>)
    ensures
        type_of(scope, &Expression::Trigonometric(f, a)) == (match type_of(scope, &*a) {
            Ok(Schema::Float) => Ok::<Schema, Fault>(Schema::Float),
            Ok(_) => Err::<Schema, Fault>(Fault::TypeMismatch),
            Err(fault) => Err::<Schema, Fault>(fault),
        }),
{
}

/// The operator of an arithmetic or trigonometric node has no bearing on
/// its typing.
pub proof fn operator_is_immaterial(
    scope: Bindings,
    op: Arithmetic,
    other_op: Arithmetic,
    f: Trigonometric,
    other_f: Trigonometric,
    a: Rc<Expression>,
    b: Rc<Expression>,
)
    ensures
        type_of(scope, &Expression::Arithmetic(op, a, b)) == type_of(
            scope,
            &Expression::Arithmetic(other_op, a, b),
        ),
        type_of(scope, &Expression::Trigonometric(f, a)) == type_of(
            scope,
            &Expression::Trigonometric(other_f, a),
        ),
{
}

/// A scope in which every name is a `Float`.
pub open spec fn all_float(scope: Bindings) -> bool {
    forall|name: Seq<char>| scope.contains_key(name) ==> #[trigger] scope[name] == Schema::Float
}

/// No node makes a `Bool` or a `Filter`: such a schema can only come from
/// the scope. Where every name in scope is a `Float`, an expression that
/// types is a `Float`.
pub proof fn only_the_scope_gives_other_schemas(scope: Bindings, e: &Expression)
    requires
        all_float(scope),
    ensures
        type_of(scope, e) matches Ok(schema) ==> schema == Schema::Float,
    decreases e,
{
    match e {
        Expression::Let(name, value, body) => {
            only_the_scope_gives_other_schemas(scope, &**value);
            let ghost typed = type_of(scope, &**value);
            if typed is Ok {
                let ghost inner = scope.insert((**name)@, typed->Ok_0);
                assert(all_float(inner));
                only_the_scope_gives_other_schemas(inner, &**body);
            }
        },
        Expression::If(condition, then_branch, otherwise) => {
            only_the_scope_gives_other_schemas(scope, &**then_branch);
        },
        _ => {},
    }
}

/// Whether `e` refers to `name` at a place where no `let` of `e` binds it.
pub open spec fn occurs_free(e: &Expression, name: Seq<char>) -> bool
    decreases e,
{
    match e {
        Expression::SampleNumber => false,
        Expression::SampleRate => false,
        Expression::Float(_) => false,
        Expression::Variable(referred) => (**referred)@ == name,
        Expression::Let(bound, value, body) => {
            ||| occurs_free(&**value, name)
            ||| (**bound)@ != name && occurs_free(&**body, name)
        },
        Expression::If(condition, then_branch, otherwise) => {
            ||| occurs_free(&**condition, name)
            ||| occurs_free(&**then_branch, name)
            ||| occurs_free(&**otherwise, name)
        },
        Expression::Arithmetic(_, a, b) => occurs_free(&**a, name) || occurs_free(&**b, name),
        Expression::Trigonometric(_, a) => occurs_free(&**a, name),
    }
}

/// The name that an unknown-variable error carries is referred to in the
/// expression outside every `let` that binds it, and the scope does not
/// define it.
pub proof fn unknown_name_is_free_and_undefined(scope: Bindings, e: &Expression, name: Seq<char>)
    requires
        type_of(scope, e) == Err::<Schema, Fault>(Fault::UnknownVariable(name)),
    ensures
        occurs_free(e, name),
        !scope.contains_key(name),
    decreases e,
{
    match e {
        Expression::Let(bound, value, body) => {
            let ghost typed = type_of(scope, &**value);
            if typed is Ok {
                let ghost inner = scope.insert((**bound)@, typed->Ok_0);
                unknown_name_is_free_and_undefined(inner, &**body, name);
            } else {
                unknown_name_is_free_and_undefined(scope, &**value, name);
            }
        },
        Expression::If(condition, then_branch, otherwise) => {
            if type_of(scope, &**condition) is Err {
                unknown_name_is_free_and_undefined(scope, &**condition, name);
            } else if type_of(scope, &**then_branch) is Err {
                unknown_name_is_free_and_undefined(scope, &**then_branch, name);
            } else {
                unknown_name_is_free_and_undefined(scope, &**otherwise, name);
            }
        },
        Expression::Arithmetic(_, a, b) => {
            if type_of(scope, &**a) is Err {
                unknown_name_is_free_and_undefined(scope, &**a, name);
            } else {
                unknown_name_is_free_and_undefined(scope, &**b, name);
            }
        },
        Expression::Trigonometric(_, a) => {
            unknown_name_is_free_and_undefined(scope, &**a, name);
        },
        _ => {},
    }
}

/// An expression whose free names are all defined by the scope either
/// types or is a type mismatch: it has no unknown variable.
pub proof fn closed_expression_knows_its_variables(scope: Bindings, e: &Expression)
    requires
        forall|name: Seq<char>| occurs_free(e, name) ==> scope.contains_key(name),
    ensures
        type_of(scope, e) matches Err(fault) ==> fault == Fault::TypeMismatch,
{
    if let Err(Fault::UnknownVariable(name)) = type_of(scope, e) {
        unknown_name_is_free_and_undefined(scope, e, name);
    }
}

} // verus!
