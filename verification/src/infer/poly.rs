//! Expressions whose type depends on where they stand.
use crate::body::{Catch, Expr, ExprKind, LambdaBody, Stmt, StmtKind, SwitchArm};
use crate::list::{lemma_plus_has, List};
use crate::ty::Ty;
use vstd::prelude::*;

verus! {

/// Whether the expression is a lambda or a method reference, or one in
/// parentheses, or a choice between two.
pub open spec fn poly(e: Expr) -> bool
    decreases e,
{
    match e.kind {
        ExprKind::Lambda { params: _, body: _ } => true,
        ExprKind::MethodRef { qualifier: _, named: _, name: _ } => true,
        ExprKind::Paren(inner) => poly(*inner),
        ExprKind::Conditional { cond: _, then_arm, else_arm } => poly(*then_arm) && poly(
            *else_arm,
        ),
        _ => false,
    }
}

pub fn expr_is_poly(e: &Expr) -> (r: bool)
    ensures
        r == poly(*e),
    decreases e,
{
    match &e.kind {
        ExprKind::Lambda { params: _, body: _ } => true,
        ExprKind::MethodRef { qualifier: _, named: _, name: _ } => true,
        ExprKind::Paren(inner) => expr_is_poly(inner),
        ExprKind::Conditional { cond: _, then_arm, else_arm } => expr_is_poly(then_arm)
            && expr_is_poly(else_arm),
        _ => false,
    }
}

/// Whether the expression is poly, counting invocations and creations with
/// inferred type arguments.
pub open spec fn poly_ext(e: Expr) -> bool
    decreases e,
{
    match e.kind {
        ExprKind::Lambda { params: _, body: _ } => true,
        ExprKind::MethodRef { qualifier: _, named: _, name: _ } => true,
        ExprKind::MethodCall { receiver: _, name: _, type_args: _, args: _ } => true,
        ExprKind::New { ty: _, args: _, diamond, anonymous: _, receiver: _ } => diamond,
        ExprKind::Paren(inner) => poly_ext(*inner),
        ExprKind::Conditional { cond: _, then_arm, else_arm } => poly_ext(*then_arm) && poly_ext(
            *else_arm,
        ),
        _ => false,
    }
}

pub fn expr_is_poly_ext(e: &Expr) -> (r: bool)
    ensures
        r == poly_ext(*e),
    decreases e,
{
    match &e.kind {
        ExprKind::Lambda { params: _, body: _ } => true,
        ExprKind::MethodRef { qualifier: _, named: _, name: _ } => true,
        ExprKind::MethodCall { receiver: _, name: _, type_args: _, args: _ } => true,
        ExprKind::New { ty: _, args: _, diamond, anonymous: _, receiver: _ } => *diamond,
        ExprKind::Paren(inner) => expr_is_poly_ext(inner),
        ExprKind::Conditional { cond: _, then_arm, else_arm } => expr_is_poly_ext(then_arm)
            && expr_is_poly_ext(else_arm),
        _ => false,
    }
}

/// Whether the expression is an invocation, in parentheses or not.
pub open spec fn call(e: Expr) -> bool
    decreases e,
{
    match e.kind {
        ExprKind::MethodCall { receiver: _, name: _, type_args: _, args: _ } => true,
        ExprKind::Paren(inner) => call(*inner),
        _ => false,
    }
}

pub fn expr_is_call(e: &Expr) -> (r: bool)
    ensures
        r == call(*e),
    decreases e,
{
    match &e.kind {
        ExprKind::MethodCall { receiver: _, name: _, type_args: _, args: _ } => true,
        ExprKind::Paren(inner) => expr_is_call(inner),
        _ => false,
    }
}

/// How the parameters of a function type map to those of a referenced method:
/// one by one, or the first as the receiver.
#[derive(Clone, Copy, Debug, PartialEq, Eq, Structural)]
pub enum MethodRefKind {
    Static,
    Unbound,
    Bound,
}

/// An argument as far as it has a type of its own: `None` where the invoked
/// method decides its type.
pub type ArgType = Option<Ty>;

/// The number of leaves of a poly argument: the lambdas, method references,
/// invocations and creations that its value may come from. An argument without
/// a leaf has a type of its own.
pub open spec fn leaves(e: Expr) -> nat
    decreases e,
{
    match e.kind {
        ExprKind::Lambda { params: _, body: _ } => 1,
        ExprKind::MethodRef { qualifier: _, named: _, name: _ } => 1,
        ExprKind::MethodCall { receiver: _, name: _, type_args: _, args: _ } => 1,
        ExprKind::New { ty: _, args: _, diamond, anonymous: _, receiver: _ } => if diamond {
            1
        } else {
            0
        },
        ExprKind::Paren(inner) => leaves(*inner),
        ExprKind::Conditional { cond: _, then_arm, else_arm } => if poly_ext(*then_arm)
            && poly_ext(*else_arm) {
            leaves(*then_arm) + leaves(*else_arm)
        } else {
            0
        },
        _ => 0,
    }
}

/// The leaves of a poly argument, in order.
pub open spec fn parts(e: Expr) -> List<Expr>
    decreases e,
{
    match e.kind {
        ExprKind::Lambda { params: _, body: _ } => List::Cons(Box::new(e), Box::new(List::Nil)),
        ExprKind::MethodRef { qualifier: _, named: _, name: _ } => List::Cons(
            Box::new(e),
            Box::new(List::Nil),
        ),
        ExprKind::MethodCall { receiver: _, name: _, type_args: _, args: _ } => List::Cons(
            Box::new(e),
            Box::new(List::Nil),
        ),
        ExprKind::New { ty: _, args: _, diamond, anonymous: _, receiver: _ } => if diamond {
            List::Cons(Box::new(e), Box::new(List::Nil))
        } else {
            List::Nil
        },
        ExprKind::Paren(inner) => parts(*inner),
        ExprKind::Conditional { cond: _, then_arm, else_arm } => if poly_ext(*then_arm)
            && poly_ext(*else_arm) {
            parts(*then_arm).plus(parts(*else_arm))
        } else {
            List::Nil
        },
        _ => List::Nil,
    }
}

/// The expressions, each by its number.
pub open spec fn numbers(l: List<Expr>) -> List<u32>
    decreases l,
{
    match l {
        List::Nil => List::Nil,
        List::Cons(h, t) => List::Cons(Box::new(h.id), Box::new(numbers(*t))),
    }
}

/// Whether the expression is a lambda, a method reference, an invocation or a
/// creation with inferred type arguments.
pub open spec fn is_leaf(e: Expr) -> bool {
    match e.kind {
        ExprKind::Lambda { params: _, body: _ } => true,
        ExprKind::MethodRef { qualifier: _, named: _, name: _ } => true,
        ExprKind::MethodCall { receiver: _, name: _, type_args: _, args: _ } => true,
        ExprKind::New { ty: _, args: _, diamond, anonymous: _, receiver: _ } => diamond,
        _ => false,
    }
}

proof fn lemma_numbers_plus(a: List<Expr>, b: List<Expr>)
    ensures
        numbers(a.plus(b)) == numbers(a).plus(numbers(b)),
        a.plus(b).count() == a.count() + b.count(),
        numbers(a).count() == a.count(),
    decreases a,
{
    if let List::Cons(_, t) = a {
        lemma_numbers_plus(*t, b);
    }
}

/// An argument has leaves exactly when it is poly, among them those that are
/// so wherever they stand. Each is a lambda, a method reference, an invocation
/// or a creation with inferred type arguments.
pub proof fn law_leaves_of_poly(e: Expr)
    ensures
        leaves(e) > 0 <==> poly_ext(e),
        poly(e) ==> poly_ext(e),
        parts(e).count() == leaves(e),
        forall|leaf: Expr| #[trigger] parts(e).has(leaf) ==> is_leaf(leaf),
    decreases e,
{
    reveal_with_fuel(List::has, 2);
    reveal_with_fuel(List::count, 2);
    match e.kind {
        ExprKind::Paren(inner) => law_leaves_of_poly(*inner),
        ExprKind::Conditional { cond: _, then_arm, else_arm } => {
            law_leaves_of_poly(*then_arm);
            law_leaves_of_poly(*else_arm);
            lemma_numbers_plus(parts(*then_arm), parts(*else_arm));
            assert forall|leaf: Expr| #[trigger] parts(e).has(leaf) implies is_leaf(leaf) by {
                lemma_plus_has(parts(*then_arm), parts(*else_arm), leaf);
            }
        },
        _ => {},
    }
}

/// The leaves of a poly argument, in order.
pub fn poly_leaves(e: &Expr) -> (r: List<u32>)
    ensures
        r == numbers(parts(*e)),
    decreases e,
{
    proof {
        reveal_with_fuel(numbers, 2);
    }
    match &e.kind {
        ExprKind::Lambda { params: _, body: _ } => List::cons(e.id, List::Nil),
        ExprKind::MethodRef { qualifier: _, named: _, name: _ } => List::cons(e.id, List::Nil),
        ExprKind::MethodCall { receiver: _, name: _, type_args: _, args: _ } => {
            List::cons(e.id, List::Nil)
        },
        ExprKind::New { ty: _, args: _, diamond, anonymous: _, receiver: _ } => if *diamond {
            List::cons(e.id, List::Nil)
        } else {
            List::Nil
        },
        ExprKind::Paren(inner) => poly_leaves(inner),
        ExprKind::Conditional { cond: _, then_arm, else_arm } => {
            if expr_is_poly_ext(then_arm) && expr_is_poly_ext(else_arm) {
                proof {
                    lemma_numbers_plus(parts(**then_arm), parts(**else_arm));
                }
                poly_leaves(then_arm).append(poly_leaves(else_arm))
            } else {
                List::Nil
            }
        },
        _ => List::Nil,
    }
}

/// Whether an argument has one leaf.
pub fn has_one_leaf(e: &Expr) -> (r: bool)
    ensures
        r == (leaves(*e) == 1),
{
    proof {
        law_leaves_of_poly(*e);
        lemma_numbers_plus(parts(*e), List::Nil);
        reveal_with_fuel(List::count, 3);
    }
    match poly_leaves(e) {
        List::Cons(_, rest) => rest.is_empty(),
        List::Nil => false,
    }
}

/// Whether a statement holds a `return` or `yield` with a value.
pub open spec fn returns_value(s: Stmt) -> bool
    decreases s,
{
    match s.kind {
        StmtKind::Return(value) => value is Some,
        StmtKind::Yield(_) => true,
        StmtKind::Empty => false,
        StmtKind::Decl { local: _, initializer: _ } => false,
        StmtKind::Expr(_) => false,
        StmtKind::Break(_) => false,
        StmtKind::Continue(_) => false,
        StmtKind::Throw(_) => false,
        StmtKind::Assert { cond: _, msg: _ } => false,
        StmtKind::LocalClass => false,
        StmtKind::Missing => false,
        StmtKind::Block(l) => some_returns_value(*l),
        StmtKind::DeclGroup(l) => some_returns_value(*l),
        StmtKind::Labeled { label: _, stmt } => returns_value(*stmt),
        StmtKind::While { cond: _, body } => returns_value(*body),
        StmtKind::DoWhile { body, cond: _ } => returns_value(*body),
        StmtKind::For { init: _, cond: _, step: _, body } => returns_value(*body),
        StmtKind::ForEach { var: _, iterable: _, body } => returns_value(*body),
        StmtKind::Synchronized { expr: _, body } => returns_value(*body),
        StmtKind::If { cond: _, then_arm, else_arm } => returns_value(*then_arm) || match else_arm {
            Some(e) => returns_value(*e),
            None => false,
        },
        StmtKind::Switch { scrutinee: _, arms } => some_arm_returns(*arms),
        StmtKind::Try { resources: _, body, catches, finally_block } => returns_value(*body)
            || some_catch_returns(*catches) || match finally_block {
            Some(f) => returns_value(*f),
            None => false,
        },
    }
}

pub open spec fn some_returns_value(l: List<Stmt>) -> bool
    decreases l,
{
    match l {
        List::Nil => false,
        List::Cons(h, t) => returns_value(*h) || some_returns_value(*t),
    }
}

pub open spec fn some_arm_returns(l: List<SwitchArm>) -> bool
    decreases l,
{
    match l {
        List::Nil => false,
        List::Cons(h, t) => some_returns_value(h.body) || some_arm_returns(*t),
    }
}

pub open spec fn some_catch_returns(l: List<Catch>) -> bool
    decreases l,
{
    match l {
        List::Nil => false,
        List::Cons(h, t) => returns_value(h.body) || some_catch_returns(*t),
    }
}

/// Whether a lambda can have a value: one with a block needs a `return` with a
/// value in it.
pub open spec fn body_has_value(body: LambdaBody) -> bool {
    match body {
        LambdaBody::Expr(_) => true,
        LambdaBody::Block(s) => returns_value(*s),
    }
}

/// Whether a lambda can have a value.
pub fn lambda_block_has_value(body: &LambdaBody) -> (r: bool)
    ensures
        r == body_has_value(*body),
{
    match body {
        LambdaBody::Expr(_) => true,
        LambdaBody::Block(s) => stmt_has_valued_return(s),
    }
}

/// Whether a statement holds a `return` or `yield` with a value.
pub fn stmt_has_valued_return(s: &Stmt) -> (r: bool)
    ensures
        r == returns_value(*s),
    decreases s,
{
    match &s.kind {
        StmtKind::Return(value) => value.is_some(),
        StmtKind::Yield(_) => true,
        StmtKind::Empty => false,
        StmtKind::Decl { local: _, initializer: _ } => false,
        StmtKind::Expr(_) => false,
        StmtKind::Break(_) => false,
        StmtKind::Continue(_) => false,
        StmtKind::Throw(_) => false,
        StmtKind::Assert { cond: _, msg: _ } => false,
        StmtKind::LocalClass => false,
        StmtKind::Missing => false,
        StmtKind::Block(l) => some_has_valued_return(l),
        StmtKind::DeclGroup(l) => some_has_valued_return(l),
        StmtKind::Labeled { label: _, stmt } => stmt_has_valued_return(stmt),
        StmtKind::While { cond: _, body } => stmt_has_valued_return(body),
        StmtKind::DoWhile { body, cond: _ } => stmt_has_valued_return(body),
        StmtKind::For { init: _, cond: _, step: _, body } => stmt_has_valued_return(body),
        StmtKind::ForEach { var: _, iterable: _, body } => stmt_has_valued_return(body),
        StmtKind::Synchronized { expr: _, body } => stmt_has_valued_return(body),
        StmtKind::If { cond: _, then_arm, else_arm } => stmt_has_valued_return(then_arm)
            || match else_arm {
            Some(e) => stmt_has_valued_return(e),
            None => false,
        },
        StmtKind::Switch { scrutinee: _, arms } => arm_has_valued_return(arms),
        StmtKind::Try { resources: _, body, catches, finally_block } => stmt_has_valued_return(
            body,
        ) || catch_has_valued_return(catches) || match finally_block {
            Some(f) => stmt_has_valued_return(f),
            None => false,
        },
    }
}

fn some_has_valued_return(l: &List<Stmt>) -> (r: bool)
    ensures
        r == some_returns_value(*l),
    decreases l,
{
    match l {
        List::Nil => false,
        List::Cons(h, t) => stmt_has_valued_return(h) || some_has_valued_return(t),
    }
}

fn arm_has_valued_return(l: &List<SwitchArm>) -> (r: bool)
    ensures
        r == some_arm_returns(*l),
    decreases l,
{
    match l {
        List::Nil => false,
        List::Cons(h, t) => some_has_valued_return(&h.body) || arm_has_valued_return(t),
    }
}

fn catch_has_valued_return(l: &List<Catch>) -> (r: bool)
    ensures
        r == some_catch_returns(*l),
    decreases l,
{
    match l {
        List::Nil => false,
        List::Cons(h, t) => stmt_has_valued_return(&h.body) || catch_has_valued_return(t),
    }
}

} // verus!
