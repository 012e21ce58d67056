//! Where a local variable has a value: what each form of statement and
//! expression does to the variables that have one on every path.
use crate::body::{AssignOp, BinaryOp, Catch, Const, Expr, ExprKind, LambdaBody, LambdaParam, Local, Resource, Stmt, StmtKind, SwitchArm};
use crate::db::TyDatabase;
use crate::infer::catch::{caught_so_far, clause_types, dead_types, some_type_var};
use crate::infer::ctx::{bool_flow, Binding, InferCtx, Site};
use crate::infer::diag::TypeError;
use crate::infer::field::with_break;
use crate::infer::flow::{
    join_all, join_live, law_join_live_members, law_join_members, law_set_and_unset, none_live,
    on_every_live, BreakFrame, Flow,
};
use crate::infer::lambda::param_type;
use crate::infer::local::{flow_bindings, found_local, found_param, put_inner};
use crate::infer::poly::poly_ext;
use crate::infer::switch::arm_default;
use crate::list::{assoc_get, assoc_put, List};
use crate::names::Name;
use crate::ty::Ty;
use crate::walk::DiagLocation;
use vstd::prelude::*;

verus! {

/// Whether the variable has a value at the point.
pub open spec fn definite(s: InferCtx, x: u32) -> bool {
    s.flow.definite.has(x)
}

/// Whether the variable has a value where the condition that was looked at last
/// is true.
pub open spec fn definite_when_true(s: InferCtx, x: u32) -> bool {
    match s.bool_outcomes {
        Some(o) => o.0.definite.has(x),
        None => s.flow.definite.has(x),
    }
}

/// Whether the variable has a value where the condition that was looked at last
/// is false.
pub open spec fn definite_when_false(s: InferCtx, x: u32) -> bool {
    match s.bool_outcomes {
        Some(o) => o.1.definite.has(x),
        None => s.flow.definite.has(x),
    }
}

/// Whether the variable is one of the bound ones.
pub open spec fn binds(l: List<Binding>, x: u32) -> bool
    decreases l,
{
    match l {
        List::Nil => false,
        List::Cons(h, t) => h.id == x || binds(*t, x),
    }
}

/// Whether the variable has a value in each of the flows.
pub open spec fn in_each(l: List<Flow>, x: u32) -> bool
    decreases l,
{
    match l {
        List::Nil => true,
        List::Cons(h, t) => h.definite.has(x) && in_each(*t, x),
    }
}

/// The flows of the breaks that leave the innermost statement around a point.
pub open spec fn breaks_at(s: InferCtx) -> List<Flow> {
    match s.loop_breaks {
        List::Nil => List::Nil,
        List::Cons(h, _) => h.flows,
    }
}

/// Behind a `for` over elements exactly the variables have a value that had one
/// behind what it goes over, whatever its body assigns, and its end is reached:
/// there may be no elements.
pub proof fn law_behind_a_for_each<D: TyDatabase>(
    s: InferCtx,
    db: &D,
    site: Site,
    stmt: Stmt,
    var: Local,
    iterable: Expr,
    body: Box<Stmt>,
    x: u32,
)
    requires
        stmt.kind == (StmtKind::ForEach { var, iterable, body }),
        x != var.id,
    ensures
        definite(s.stmt(db, site, stmt), x) == definite(s.expr(db, site, iterable).0, x),
        !s.stmt(db, site, stmt).exited,
{
    let (s1, ty) = s.expr(db, site, iterable);
    let (s2, element) = s1.element(db, site, iterable.id, ty);
    let s3 = s2.entered().declared(db, site, var, element);
    let s4 = s3.loop_body(db, site, s3.flow, *body).0;
    let end = (InferCtx { flow: s3.flow, ..s4 }).left();
    assert(s.stmt(db, site, stmt) == s.each_loop(db, site, stmt)) by {
        reveal_with_fuel(InferCtx::stmt, 2);
        reveal_with_fuel(InferCtx::stmt_kind, 2);
        assert(s.stmt(db, site, stmt) == s.stmt_kind(db, site, stmt));
    }
    assert(s.each_loop(db, site, stmt) == end);
    assert(end.flow == s3.flow && !end.exited) by {
        reveal(InferCtx::left);
    }
    assert(s3.flow == s1.flow.set(var.id)) by {
        reveal(InferCtx::told);
        reveal(InferCtx::element);
        reveal(InferCtx::entered);
        reveal(InferCtx::declared);
        reveal(InferCtx::bound);
    }
    law_set_and_unset(s1.flow, var.id, x);
}

proof fn lemma_join_all(l: List<Flow>, x: u32)
    ensures
        match join_all(l) {
            Some(f) => l is Cons && f.definite.has(x) == in_each(l, x),
            None => l is Nil,
        },
    decreases l,
{
    reveal_with_fuel(in_each, 2);
    if let List::Cons(h, t) = l {
        lemma_join_all(*t, x);
        if let Some(earlier) = join_all(*t) {
            law_join_members(earlier, *h, x, Name::Object);
        }
    }
}

/// Behind a `while` whose condition is not constantly true exactly the variables
/// have a value that have one where the condition is false, whatever its body
/// assigns. Where the condition is constantly true, only the breaks that leave
/// the loop lead behind it, and a variable has a value there that has one at
/// each of them. The end is reached.
pub proof fn law_behind_a_while<D: TyDatabase>(
    s: InferCtx,
    db: &D,
    site: Site,
    stmt: Stmt,
    cond: Expr,
    body: Box<Stmt>,
    x: u32,
)
    requires
        stmt.kind == (StmtKind::While { cond, body }),
    ensures
        ({
            let c = s.condition(db, site, cond);
            let end = s.stmt(db, site, stmt);
            let start = InferCtx {
                flow: c.outcomes().0,
                in_loop: true,
                bool_outcomes: None,
                pending_loop_label: None,
                loop_breaks: List::Cons(
                    Box::new(BreakFrame { label: c.pending_loop_label, flows: List::Nil }),
                    Box::new(c.loop_breaks),
                ),
                ..c
            };
            let breaks = breaks_at(start.stmt(db, site, *body));
            &&& !end.exited
            &&& db.constant(cond, c.const_locals) != Some(Const::Bool(true)) ==> definite(end, x)
                == definite_when_false(c, x)
            &&& db.constant(cond, c.const_locals) == Some(Const::Bool(true)) ==> definite(end, x)
                == if breaks is Nil {
                definite(s, x)
            } else {
                in_each(breaks, x)
            }
        }),
{
    reveal(InferCtx::taken);
    reveal(InferCtx::looping);
    reveal(InferCtx::unframed);
    reveal_with_fuel(InferCtx::stmt, 2);
    reveal_with_fuel(InferCtx::stmt_kind, 2);
    reveal_with_fuel(InferCtx::loop_body, 2);
    assert(s.stmt(db, site, stmt) == s.stmt_kind(db, site, stmt));
    assert(s.stmt_kind(db, site, stmt) == s.while_loop(db, site, stmt));
    let c = s.condition(db, site, cond);
    let endless = c.known_bool(db, cond) == Some(true);
    let s2 = c.taken();
    let flow = if endless {
        c.outcomes().0
    } else {
        s2.flow
    };
    let inner = (InferCtx { flow, ..s2.looping() }).stmt(db, site, *body);
    let (s3, breaks) = s2.loop_body(db, site, flow, *body);
    assert(breaks == inner.break_flow());
    lemma_join_all(breaks_at(inner), x);
}

/// Behind a `do` whose condition is not constantly true exactly the variables
/// have a value that have one behind its condition, which comes behind its body
/// where that completes. The end is reached.
pub proof fn law_behind_a_do<D: TyDatabase>(
    s: InferCtx,
    db: &D,
    site: Site,
    stmt: Stmt,
    cond: Expr,
    body: Box<Stmt>,
    x: u32,
)
    requires
        stmt.kind == (StmtKind::DoWhile { body, cond }),
        db.constant(cond, s.const_locals) != Some(Const::Bool(true)),
    ensures
        ({
            let inner = (InferCtx {
                in_loop: true,
                pending_loop_label: None,
                loop_breaks: List::Cons(
                    Box::new(BreakFrame { label: s.pending_loop_label, flows: List::Nil }),
                    Box::new(s.loop_breaks),
                ),
                ..s
            }).stmt(db, site, *body);
            let end = s.stmt(db, site, stmt);
            &&& !end.exited
            &&& !inner.exited ==> definite(end, x) == definite(inner.condition(db, site, cond), x)
            &&& inner.exited ==> definite(end, x) == definite(
                (InferCtx { flow: s.flow, ..inner }).condition(db, site, cond),
                x,
            )
        }),
{
    reveal(InferCtx::looping);
    reveal(InferCtx::unframed);
    reveal_with_fuel(InferCtx::stmt, 2);
    reveal_with_fuel(InferCtx::stmt_kind, 2);
    assert(s.stmt(db, site, stmt) == s.stmt_kind(db, site, stmt));
    assert(s.stmt_kind(db, site, stmt) == s.do_loop(db, site, stmt));
}

/// Behind a `for` with a condition that is not constantly true exactly the
/// variables have a value that have one where the condition is false, whatever
/// its steps and its body assign. The end is reached.
pub proof fn law_behind_a_for<D: TyDatabase>(
    s: InferCtx,
    db: &D,
    site: Site,
    stmt: Stmt,
    init: Box<List<Stmt>>,
    cond: Expr,
    step: List<Expr>,
    body: Box<Stmt>,
    x: u32,
)
    requires
        stmt.kind == (StmtKind::For { init, cond: Some(cond), step, body }),
    ensures
        ({
            let begun = s.entered().stmts(db, site, *init);
            let c = begun.condition(db, site, cond);
            let end = s.stmt(db, site, stmt);
            &&& !end.exited
            &&& db.constant(cond, begun.const_locals) != Some(Const::Bool(true)) ==> definite(end, x)
                == definite_when_false(c, x)
        }),
{
    reveal(InferCtx::left);
    reveal_with_fuel(InferCtx::stmt, 2);
    reveal_with_fuel(InferCtx::stmt_kind, 2);
    reveal_with_fuel(InferCtx::loop_body, 2);
    assert(s.stmt(db, site, stmt) == s.stmt_kind(db, site, stmt));
    assert(s.stmt_kind(db, site, stmt) == s.for_loop(db, site, stmt));
    let s1 = s.entered().stmts(db, site, *init);
    let s2 = s1.condition(db, site, cond);
    let s3 = s2.taken().each(db, site, step);
    let s4 = s3.loop_body(db, site, s2.outcomes().0, *body).0;
    assert(!s4.exited);
}

proof fn lemma_scoped_all(s: InferCtx, l: List<Binding>, x: u32)
    ensures
        definite(s.scoped_all(l), x) == (definite(s, x) || binds(l, x)),
        s.scoped_all(l).exited == s.exited,
    decreases l,
{
    reveal_with_fuel(InferCtx::scoped_all, 2);
    if let List::Cons(h, t) = l {
        law_set_and_unset(s.flow, h.id, x);
        lemma_scoped_all(s.scoped(*h), *t, x);
    }
}

/// Behind an `if` with two arms a variable has a value exactly where it has one
/// at the end of each arm that goes on and that a constant condition does not
/// rule out. Each arm starts where the condition has its outcome. The end is not
/// reached exactly where there is no such arm.
pub proof fn law_behind_an_if_with_two_arms<D: TyDatabase>(
    s: InferCtx,
    db: &D,
    site: Site,
    stmt: Stmt,
    cond: Expr,
    then_arm: Box<Stmt>,
    else_arm: Box<Stmt>,
    x: u32,
)
    requires
        stmt.kind == (StmtKind::If { cond, then_arm, else_arm: Some(else_arm) }),
    ensures
        ({
            let c = s.condition(db, site, cond);
            let known = db.constant(cond, c.const_locals);
            let (bt, bf) = flow_bindings(cond);
            let a = (InferCtx {
                flow: c.outcomes().0,
                ..c.taken().entered()
            }).scoped_all(bt).stmt(db, site, *then_arm);
            let b = (InferCtx {
                flow: c.outcomes().1,
                exited: s.exited,
                ..a.left().entered()
            }).scoped_all(bf).stmt(db, site, *else_arm);
            let end = s.stmt(db, site, stmt);
            let no_then = a.exited || known == Some(Const::Bool(false));
            let no_else = b.exited || known == Some(Const::Bool(true));
            &&& end.exited == (no_then && no_else)
            &&& !end.exited ==> definite(end, x) == ((no_then || definite(a, x)) && (no_else
                || definite(b, x)))
        }),
{
    let c = s.condition(db, site, cond);
    let (t, f) = c.outcomes();
    let (bt, bf) = flow_bindings(cond);
    let a = (InferCtx { flow: t, ..c.taken().entered() }).scoped_all(bt).stmt(db, site, *then_arm);
    let s2 = c.taken().branch(db, site, t, bt, *then_arm);
    let back = s2.resumed(s.flow, s.exited);
    let b0 = InferCtx { flow: f, exited: s.exited, ..a.left().entered() };
    let b = b0.scoped_all(bf).stmt(db, site, *else_arm);
    let s4 = back.branch(db, site, f, bf, *else_arm);
    let known = c.known_bool(db, cond);
    let no_then = s2.exited || known == Some(false);
    let no_else = s4.exited || known == Some(true);
    let end = s4.arms_merged((s2.flow, no_then), (s4.flow, no_else), s.flow);
    assert(s2 == a.left());
    assert(s4 == b.left()) by {
        assert(b0 == (InferCtx { flow: f, ..back.entered() })) by {
            reveal(InferCtx::entered);
            reveal(InferCtx::resumed);
        }
    }
    assert(s.stmt(db, site, stmt) == end) by {
        reveal_with_fuel(InferCtx::stmt, 2);
        reveal_with_fuel(InferCtx::stmt_kind, 2);
        assert(s.stmt(db, site, stmt) == s.stmt_kind(db, site, stmt));
        assert(s.stmt_kind(db, site, stmt) == s.choice(db, site, stmt));
        assert(back.other_arm(db, site, stmt, f, no_then) == (s4, s4.flow, s4.exited));
    }
    reveal(InferCtx::left);
    reveal(InferCtx::arms_merged);
    law_join_members(a.flow, b.flow, x, Name::Object);
}

/// Behind an `if` with one arm and a condition that is not constant a variable
/// that the condition does not bind has a value exactly where it has one where
/// the condition is false and, if the arm goes on, at its end. The end is
/// reached where the `if` is.
pub proof fn law_behind_an_if_with_one_arm<D: TyDatabase>(
    s: InferCtx,
    db: &D,
    site: Site,
    stmt: Stmt,
    cond: Expr,
    then_arm: Box<Stmt>,
    x: u32,
)
    requires
        stmt.kind == (StmtKind::If { cond, then_arm, else_arm: None }),
        !(db.constant(cond, s.condition(db, site, cond).const_locals) matches Some(Const::Bool(_))),
        !s.exited,
        !binds(flow_bindings(cond).1, x),
    ensures
        ({
            let c = s.condition(db, site, cond);
            let a = (InferCtx {
                flow: c.outcomes().0,
                ..c.taken().entered()
            }).scoped_all(flow_bindings(cond).0).stmt(db, site, *then_arm);
            let end = s.stmt(db, site, stmt);
            &&& !end.exited
            &&& definite(end, x) == (definite_when_false(c, x) && (a.exited || definite(a, x)))
        }),
{
    reveal(InferCtx::entered);
    reveal(InferCtx::left);
    reveal(InferCtx::resumed);
    reveal(InferCtx::arms_merged);
    reveal_with_fuel(InferCtx::stmt, 2);
    reveal_with_fuel(InferCtx::stmt_kind, 2);
    reveal_with_fuel(InferCtx::branch, 2);
    reveal_with_fuel(InferCtx::other_arm, 2);
    assert(s.stmt(db, site, stmt) == s.stmt_kind(db, site, stmt));
    assert(s.stmt_kind(db, site, stmt) == s.choice(db, site, stmt));
    let c = s.condition(db, site, cond);
    let (t, f) = c.outcomes();
    let (bt, bf) = flow_bindings(cond);
    let a = (InferCtx { flow: t, ..c.taken().entered() }).scoped_all(bt).stmt(db, site, *then_arm);
    let s2 = c.taken().branch(db, site, t, bt, *then_arm);
    assert(s2 == a.left());
    assert(c.known_bool(db, cond) is None);
    let back = s2.resumed(s.flow, s.exited);
    lemma_scoped_all((InferCtx { flow: f, ..back }), bf, x);
    let (s3, else_flow, else_exited) = back.other_arm(db, site, stmt, f, s2.exited);
    assert(else_flow.definite.has(x) == f.definite.has(x));
    assert(!else_exited);
    law_join_members(a.flow, else_flow, x, Name::Object);
}

/// Nothing behind a `return`, a `throw`, a `break` or a `continue` is reached.
pub proof fn law_jumps_leave<D: TyDatabase>(s: InferCtx, db: &D, site: Site, stmt: Stmt)
    requires
        stmt.kind is Return || stmt.kind is Throw || stmt.kind is Break || stmt.kind is Continue,
    ensures
        s.stmt(db, site, stmt).exited,
{
    reveal(InferCtx::told);
    reveal(InferCtx::broke);
    reveal(InferCtx::continued);
    reveal(InferCtx::returned_value);
    reveal(InferCtx::threw);
    reveal_with_fuel(InferCtx::stmt, 2);
    reveal_with_fuel(InferCtx::stmt_kind, 2);
    assert(s.stmt(db, site, stmt) == s.stmt_kind(db, site, stmt));
}

/// A `break` without a label leads behind the innermost statement that it can
/// leave, with the variables that have a value at the `break`. It reports
/// nothing exactly inside a loop or a `switch`.
pub proof fn law_break_leads_behind<D: TyDatabase>(
    s: InferCtx,
    db: &D,
    site: Site,
    stmt: Stmt,
    x: u32,
)
    requires
        stmt.kind == StmtKind::Break(None),
        s.loop_breaks is Cons,
        !s.probing,
    ensures
        in_each(breaks_at(s.stmt(db, site, stmt)), x) == (in_each(breaks_at(s), x) && definite(
            s,
            x,
        )),
        breaks_at(s.stmt(db, site, stmt)) is Cons,
        (s.stmt(db, site, stmt).diagnostics == s.diagnostics) == (s.in_loop || s.in_switch),
{
    reveal(InferCtx::told);
    reveal(InferCtx::broke);
    reveal_with_fuel(InferCtx::stmt, 2);
    reveal_with_fuel(InferCtx::stmt_kind, 2);
    reveal_with_fuel(in_each, 2);
    reveal_with_fuel(with_break, 2);
    assert(s.stmt(db, site, stmt) == s.stmt_kind(db, site, stmt));
}

/// Behind an expression statement the flow is that behind the expression.
pub proof fn law_behind_an_expression<D: TyDatabase>(
    s: InferCtx,
    db: &D,
    site: Site,
    stmt: Stmt,
    e: Expr,
)
    requires
        stmt.kind == StmtKind::Expr(e),
    ensures
        s.stmt(db, site, stmt).flow == s.expr(db, site, e).0.flow,
        s.stmt(db, site, stmt).exited == s.expr(db, site, e).0.exited,
{
    reveal_with_fuel(InferCtx::stmt, 2);
    assert(s.stmt(db, site, stmt) == s.stmt_kind(db, site, stmt));
}

/// A local variable that is declared without an initializer has no value behind
/// its declaration, and every other one has a value where it had one.
pub proof fn law_declared_without_a_value<D: TyDatabase>(
    s: InferCtx,
    db: &D,
    site: Site,
    stmt: Stmt,
    local: Local,
    x: u32,
)
    requires
        stmt.kind == (StmtKind::Decl { local, initializer: None }),
        local.ty is Some,
    ensures
        definite(s.stmt(db, site, stmt), x) == (definite(s, x) && x != local.id),
{
    reveal(InferCtx::told);
    reveal(InferCtx::declared);
    reveal(InferCtx::bound);
    reveal(InferCtx::blank);
    reveal_with_fuel(InferCtx::stmt, 2);
    reveal_with_fuel(InferCtx::stmt_kind, 2);
    assert(s.stmt(db, site, stmt) == s.stmt_kind(db, site, stmt));
    assert(s.stmt_kind(db, site, stmt) == s.declaration(db, site, stmt));
    let written = local.ty->0;
    let s1 = s.declared(db, site, local, Ty::Error);
    let s2 = s1.raw_checked(db, local);
    let s3 = s2.bounds_checked(db, site, DiagLocation::Local(local.id), written);
    reveal(InferCtx::raw_checked);
    reveal(InferCtx::bounds_checked);
    law_set_and_unset(s.flow, local.id, x);
    law_set_and_unset(s3.flow, local.id, x);
}

/// The right operand of `&&` is looked at where the left one is true. The whole
/// is true where both are, and false where either is: a variable has a value
/// where it is false exactly if it has one where each operand is.
pub proof fn law_outcomes_of_and<D: TyDatabase>(
    s: InferCtx,
    db: &D,
    site: Site,
    e: Expr,
    lhs: Box<Expr>,
    rhs: Box<Expr>,
    x: u32,
)
    requires
        e.kind == (ExprKind::Binary { op: BinaryOp::And, lhs, rhs }),
    ensures
        ({
            let a = s.condition(db, site, *lhs);
            let b = (InferCtx {
                flow: a.outcomes().0,
                ..a.taken().entered()
            }).scoped_all(flow_bindings(*lhs).0).condition(db, site, *rhs);
            let end = s.expr(db, site, e).0;
            &&& definite_when_true(end, x) == definite_when_true(b, x)
            &&& definite_when_false(end, x) == (definite_when_false(a, x) && definite_when_false(
                b,
                x,
            ))
            &&& definite(end, x) == (definite_when_true(end, x) && definite_when_false(end, x))
        }),
{
    lemma_outcomes(s, db, site, e, true, lhs, rhs, x);
}

/// The right operand of `||` is looked at where the left one is false. The whole
/// is false where both are, and true where either is: a variable has a value
/// where it is true exactly if it has one where each operand is.
pub proof fn law_outcomes_of_or<D: TyDatabase>(
    s: InferCtx,
    db: &D,
    site: Site,
    e: Expr,
    lhs: Box<Expr>,
    rhs: Box<Expr>,
    x: u32,
)
    requires
        e.kind == (ExprKind::Binary { op: BinaryOp::Or, lhs, rhs }),
    ensures
        ({
            let a = s.condition(db, site, *lhs);
            let b = (InferCtx {
                flow: a.outcomes().1,
                ..a.taken().entered()
            }).scoped_all(flow_bindings(*lhs).1).condition(db, site, *rhs);
            let end = s.expr(db, site, e).0;
            &&& definite_when_false(end, x) == definite_when_false(b, x)
            &&& definite_when_true(end, x) == (definite_when_true(a, x) && definite_when_true(b, x))
            &&& definite(end, x) == (definite_when_true(end, x) && definite_when_false(end, x))
        }),
{
    lemma_outcomes(s, db, site, e, false, lhs, rhs, x);
}

proof fn lemma_outcomes<D: TyDatabase>(
    s: InferCtx,
    db: &D,
    site: Site,
    e: Expr,
    both: bool,
    lhs: Box<Expr>,
    rhs: Box<Expr>,
    x: u32,
)
    requires
        e.kind == (ExprKind::Binary {
            op: if both {
                BinaryOp::And
            } else {
                BinaryOp::Or
            },
            lhs,
            rhs,
        }),
    ensures
        ({
            let a = s.condition(db, site, *lhs);
            let (flow, bound) = if both {
                (a.outcomes().0, flow_bindings(*lhs).0)
            } else {
                (a.outcomes().1, flow_bindings(*lhs).1)
            };
            let b = (InferCtx { flow, ..a.taken().entered() }).scoped_all(bound).condition(
                db,
                site,
                *rhs,
            );
            let end = s.expr(db, site, e).0;
            &&& definite_when_true(end, x) == (definite_when_true(b, x) && (both
                || definite_when_true(a, x)))
            &&& definite_when_false(end, x) == (definite_when_false(b, x) && (!both
                || definite_when_false(a, x)))
            &&& definite(end, x) == (definite_when_true(end, x) && definite_when_false(end, x))
        }),
{
    let a = s.condition(db, site, *lhs);
    let (lt, lf) = a.outcomes();
    let (flow, bound) = if both {
        (lt, flow_bindings(*lhs).0)
    } else {
        (lf, flow_bindings(*lhs).1)
    };
    let b = (InferCtx { flow, ..a.taken().entered() }).scoped_all(bound).condition(db, site, *rhs);
    let s1 = a.taken().branch_condition(db, site, flow, bound, *rhs);
    assert(s1 == b.left());
    reveal(InferCtx::left);
    reveal(InferCtx::taken);
    let (rt, rf) = s1.outcomes();
    let (t, f) = if both {
        (rt, lf.join(rf))
    } else {
        (lt.join(rt), rf)
    };
    let out = InferCtx { flow: t.join(f), bool_outcomes: Some((t, f)), ..s1.taken() };
    assert(s.logical(db, site, e) == out);
    assert(s.expr(db, site, e).0 == out.typed(e.id, s.expr_kind(db, site, e).1)) by {
        reveal_with_fuel(InferCtx::expr, 2);
        reveal_with_fuel(InferCtx::expr_kind, 2);
        assert(bool_flow(e));
        assert(s.expr_kind(db, site, e) == s.operation(db, site, e));
        assert(s.operation(db, site, e).0 == s.logical(db, site, e));
    }
    law_join_members(t, f, x, Name::Object);
    law_join_members(lf, rf, x, Name::Object);
    law_join_members(lt, rt, x, Name::Object);
}

/// Behind a choice by `?` a variable has a value exactly where it has one behind
/// each arm. Each arm starts where the condition has its outcome.
pub proof fn law_behind_a_conditional<D: TyDatabase>(
    s: InferCtx,
    db: &D,
    site: Site,
    e: Expr,
    cond: Box<Expr>,
    then_arm: Box<Expr>,
    else_arm: Box<Expr>,
    x: u32,
)
    requires
        e.kind == (ExprKind::Conditional { cond, then_arm, else_arm }),
    ensures
        ({
            let c = s.condition(db, site, *cond);
            let (bt, bf) = flow_bindings(*cond);
            let a = (InferCtx { flow: c.outcomes().0, ..c.taken().entered() }).scoped_all(bt).expr(
                db,
                site,
                *then_arm,
            ).0;
            let b = (InferCtx { flow: c.outcomes().1, ..a.left().entered() }).scoped_all(bf).expr(
                db,
                site,
                *else_arm,
            ).0;
            definite(s.expr(db, site, e).0, x) == (definite(a, x) && definite(b, x))
        }),
{
    let c = s.condition(db, site, *cond);
    let (t, f) = c.outcomes();
    let (bt, bf) = flow_bindings(*cond);
    let (a, at) = (InferCtx { flow: t, ..c.taken().entered() }).scoped_all(bt).expr(
        db,
        site,
        *then_arm,
    );
    let (b, bty) = (InferCtx { flow: f, ..a.left().entered() }).scoped_all(bf).expr(
        db,
        site,
        *else_arm,
    );
    let (s1, t1) = c.taken().branch_expr(db, site, t, bt, *then_arm);
    assert((s1, t1) == (a.left(), at));
    let (s2, t2) = s1.branch_expr(db, site, f, bf, *else_arm);
    assert((s2, t2) == (b.left(), bty));
    reveal(InferCtx::left);
    let joined = s1.flow.join(s2.flow);
    let out = InferCtx { flow: joined, bool_outcomes: Some((joined, joined)), ..s2 };
    let depends = poly_ext(*then_arm) || poly_ext(*else_arm);
    assert(s.conditional(db, site, e) == out.arms_joined(db, e.id, depends, t1, t2));
    assert(out.arms_joined(db, e.id, depends, t1, t2).0.flow == joined) by {
        reveal(InferCtx::arms_joined);
        reveal(InferCtx::choice_made);
        reveal(InferCtx::told);
    }
    assert(s.expr(db, site, e).0.flow == joined) by {
        reveal_with_fuel(InferCtx::expr, 2);
        reveal_with_fuel(InferCtx::expr_kind, 2);
        assert(s.expr_kind(db, site, e) == s.conditional(db, site, e));
    }
    law_join_members(s1.flow, s2.flow, x, Name::Object);
}

/// A name that means a local variable and is read, where the point can be
/// reached: without a value the variable is reported and has no type, with one
/// it has its type and there is no report.
pub proof fn law_read_without_a_value<D: TyDatabase>(
    s: InferCtx,
    db: &D,
    site: Site,
    e: Expr,
    name: Name,
    b: Binding,
)
    requires
        e.kind == ExprKind::Var(name),
        found_param(s.lambda_params, name) is None,
        found_local(s.scopes, name) == Some(b),
        !s.exited,
        !s.writing,
        !s.mutating,
        !s.probing,
    ensures
        !definite(s, b.id) ==> s.expr(db, site, e).0.diagnostics == List::Cons(
            Box::new(TypeError::NotDefinitelyAssigned { expr: e.id, name }),
            Box::new(s.diagnostics),
        ) && s.expr(db, site, e).1 is Error,
        definite(s, b.id) ==> s.expr(db, site, e).0.diagnostics == s.diagnostics && s.expr(
            db,
            site,
            e,
        ).1 == match assoc_get(s.locals, b.id) {
            Some(t) => t,
            None => Ty::Error,
        },
        s.expr(db, site, e).0.flow == s.flow,
{
    reveal(InferCtx::told);
    reveal(InferCtx::var_type);
    reveal(InferCtx::local_use);
    reveal_with_fuel(InferCtx::expr, 2);
    assert(s.expr_kind(db, site, e) == s.var_type(db, site, e.id, name));
}

/// Behind a plain assignment to a local variable the variable has a value, and
/// every other one has a value exactly where it has one behind the value that
/// is assigned. The variable itself needs no value to be assigned: there is no
/// report before that value.
pub proof fn law_assigned_has_a_value<D: TyDatabase>(
    s: InferCtx,
    db: &D,
    site: Site,
    e: Expr,
    lhs: Box<Expr>,
    rhs: Box<Expr>,
    name: Name,
    b: Binding,
    x: u32,
)
    requires
        e.kind == (ExprKind::Assign { op: AssignOp::Assign, lhs, rhs }),
        lhs.kind == ExprKind::Var(name),
        found_param(s.lambda_params, name) is None,
        found_local(s.scopes, name) == Some(b),
        !b.is_final,
    ensures
        ({
            let at = match assoc_get(s.locals, b.id) {
                Some(t) => t,
                None => Ty::Error,
            };
            let before = InferCtx {
                mutating: false,
                writing: false,
                target: Some(at),
                types: assoc_put(s.types, lhs.id, at),
                bool_outcomes: Some((s.flow, s.flow)),
                ..s
            };
            let value = before.expr(db, site, *rhs).0;
            found_local(value.scopes, name) == Some(b) ==> definite(s.expr(db, site, e).0, x) == (x
                == b.id || definite(value, x))
        }),
{
    reveal(InferCtx::told);
    reveal(InferCtx::var_type);
    reveal(InferCtx::local_use);
    let written = InferCtx { mutating: true, writing: true, ..s };
    let (s0, lt) = written.expr(db, site, *lhs);
    assert(written.expr_kind(db, site, *lhs) == written.var_type(db, site, lhs.id, name));
    assert(written.expr_kind(db, site, *lhs).0 == written);
    let at = match assoc_get(s.locals, b.id) {
        Some(t) => t,
        None => Ty::Error,
    };
    assert(lt == at);
    reveal(InferCtx::targeted);
    assert(!bool_flow(*lhs));
    let s1 = InferCtx { mutating: false, writing: false, ..s0 };
    let before = InferCtx {
        mutating: false,
        writing: false,
        target: Some(at),
        types: assoc_put(s.types, lhs.id, at),
        bool_outcomes: Some((s.flow, s.flow)),
        ..s
    };
    assert(s1.targeted(Some(lt)) == before);
    let (value, rt) = before.expr(db, site, *rhs);
    let (s2, rt2) = s1.expr_to(db, site, *rhs, Some(lt));
    assert(s2 == value.targeted(s1.target) && rt2 == rt);
    let s3 = s2.assigned(*lhs);
    let s4 = s3.field_written(db, site, *lhs);
    let s5 = s4.value_checked(db, *rhs, rt, lt);
    let s6 = s5.unchecked_checked(db, rhs.id, rt, lt);
    assert(s.assignment(db, site, e) == (s6, lt));
    assert(s.expr(db, site, e).0.flow == s6.flow) by {
        reveal_with_fuel(InferCtx::expr, 2);
        reveal_with_fuel(InferCtx::expr_kind, 2);
        assert(s.expr_kind(db, site, e) == s.assignment(db, site, e));
    }
    if found_local(value.scopes, name) == Some(b) {
        reveal(InferCtx::assigned);
        reveal(InferCtx::field_written);
        reveal(InferCtx::after_chain_field);
        reveal(InferCtx::value_checked);
        reveal(InferCtx::unchecked_checked);
        assert(s6.flow.definite == s3.flow.definite);
        law_set_and_unset(value.flow, b.id, x);
    }
}

/// Behind a `try` with neither clauses nor a `finally` block exactly the
/// variables have a value that have one at the end of its block, if that is
/// reached.
pub proof fn law_behind_a_block_with_resources<D: TyDatabase>(
    s: InferCtx,
    db: &D,
    site: Site,
    stmt: Stmt,
    resources: List<Resource>,
    body: Box<Stmt>,
    x: u32,
)
    requires
        stmt.kind == (StmtKind::Try {
            resources,
            body,
            catches: Box::new(List::Nil),
            finally_block: None,
        }),
    ensures
        ({
            let block = s.entered().resources(db, site, resources).0.stmt(db, site, *body);
            let end = s.stmt(db, site, stmt);
            &&& end.exited == block.exited
            &&& !block.exited ==> definite(end, x) == definite(block, x)
        }),
{
    reveal(InferCtx::left);
    reveal(InferCtx::resumed);
    reveal(InferCtx::with_thrown);
    let block = s.entered().resources(db, site, resources).0.stmt(db, site, *body);
    let (s1, tried) = s.tried_block(db, site, stmt);
    assert(s1.flow == block.flow && s1.exited == block.exited);
    let none = List::<(Flow, bool)>::Nil;
    let paths = List::Cons(Box::new((s1.flow, s1.exited)), Box::new(none));
    assert(s1.clauses(db, site, List::Nil, tried, List::Nil, paths) == (s1, paths));
    assert(join_live(none) is None);
    assert(none_live(none));
    assert(s.stmt(db, site, stmt) == s.attempt(db, site, stmt)) by {
        reveal_with_fuel(InferCtx::stmt, 2);
        reveal_with_fuel(InferCtx::stmt_kind, 2);
        assert(s.stmt(db, site, stmt) == s.stmt_kind(db, site, stmt));
    }
}

proof fn lemma_told_all(s: InferCtx, l: List<TypeError>)
    ensures
        s.told_all(l).flow == s.flow,
        s.told_all(l).exited == s.exited,
    decreases l,
{
    reveal(InferCtx::told);
    if let List::Cons(h, t) = l {
        lemma_told_all(s.told(*h), *t);
    }
}

proof fn lemma_caught<D: TyDatabase>(
    s: InferCtx,
    db: &D,
    local: u32,
    tys: List<Ty>,
    earlier: List<Ty>,
    tried: List<Ty>,
    before: Set<u32>,
)
    ensures
        s.caught(db, local, tys, earlier, tried, before).flow == s.flow,
        s.caught(db, local, tys, earlier, tried, before).exited == s.exited,
{
    reveal(InferCtx::told);
    reveal(InferCtx::caught);
    let s1 = if some_type_var(tys) {
        s.told(TypeError::CannotCatchTypeVariable { local })
    } else {
        s
    };
    lemma_told_all(s1, dead_types(db, local, tys, tried));
}

/// A clause of a `try` is entered without what its block assigns: behind a
/// `try` with one clause that does nothing a variable has a value exactly where
/// it had one before the block and has one at its end, if that is reached.
pub proof fn law_clauses_start_before_the_block<D: TyDatabase>(
    s: InferCtx,
    db: &D,
    site: Site,
    stmt: Stmt,
    resources: List<Resource>,
    body: Box<Stmt>,
    clause: Catch,
    x: u32,
)
    requires
        stmt.kind == (StmtKind::Try {
            resources,
            body,
            catches: Box::new(List::Cons(Box::new(clause), Box::new(List::Nil))),
            finally_block: None,
        }),
        clause.body.kind is Empty,
        x != clause.param.id,
        !s.entered().resources(db, site, resources).0.exited,
    ensures
        ({
            let before = s.entered().resources(db, site, resources).0;
            let block = before.stmt(db, site, *body);
            let end = s.stmt(db, site, stmt);
            &&& !end.exited
            &&& definite(end, x) == (definite(before, x) && (block.exited || definite(block, x)))
        }),
{
    let before = s.entered().resources(db, site, resources).0;
    let block = before.stmt(db, site, *body);
    let none = List::<Catch>::Nil;
    let l = List::Cons(Box::new(clause), Box::new(none));
    let (s1, tried) = s.tried_block(db, site, stmt);
    assert(s1.flow == block.flow && s1.exited == block.exited && tried.flow == before.flow
        && tried.exited == before.exited) by {
        reveal(InferCtx::with_thrown);
    }
    let start = List::Cons(
        Box::new((s1.flow, s1.exited)),
        Box::new(List::<(Flow, bool)>::Nil),
    );
    let tys = clause_types(db, site, clause);
    let c0 = s1.entered().resumed(tried.flow, tried.exited);
    let c1 = c0.caught(db, clause.param.id, tys, List::Nil, tried.thrown, tried.before);
    lemma_caught(c0, db, clause.param.id, tys, List::Nil, tried.thrown, tried.before);
    let c2 = c1.declared(db, site, clause.param, Ty::Error);
    let c3 = c2.stmt(db, site, clause.body);
    assert(c3 == c2) by {
        reveal_with_fuel(InferCtx::stmt, 2);
        reveal_with_fuel(InferCtx::stmt_kind, 2);
        assert(c2.stmt(db, site, clause.body) == c2.stmt_kind(db, site, clause.body));
    }
    assert(c2.flow == before.flow.set(clause.param.id) && c2.exited == before.exited) by {
        reveal(InferCtx::declared);
        reveal(InferCtx::bound);
        reveal(InferCtx::told);
        reveal(InferCtx::entered);
        reveal(InferCtx::resumed);
    }
    law_set_and_unset(before.flow, clause.param.id, x);
    let paths = List::Cons(Box::new((c3.flow, c3.exited)), Box::new(start));
    let s2 = c3.left().resumed(tried.flow, tried.exited);
    let so_far = caught_so_far(db, List::Nil, tys);
    assert(s2.clauses(db, site, none, tried, so_far, paths) == (s2, paths));
    assert(s1.clauses(db, site, l, tried, List::Nil, start) == (s2, paths));
    law_join_live_members(paths, x);
    assert(on_every_live(paths, x) == (c3.flow.definite.has(x) && (block.exited || definite(
        block,
        x,
    )))) by {
        reveal_with_fuel(on_every_live, 3);
    }
    assert(s.stmt(db, site, stmt) == s.attempt(db, site, stmt)) by {
        reveal_with_fuel(InferCtx::stmt, 2);
        reveal_with_fuel(InferCtx::stmt_kind, 2);
        assert(s.stmt(db, site, stmt) == s.stmt_kind(db, site, stmt));
    }
    reveal(InferCtx::left);
    reveal(InferCtx::resumed);
    reveal_with_fuel(none_live, 3);
}

/// A `finally` block comes behind the rest of its `try`, whether that completes
/// or not: what is known behind the whole is what is known behind the block when
/// it starts where the `try` without it ends. The end is reached where both
/// ends are.
pub proof fn law_finally_comes_last<D: TyDatabase>(
    s: InferCtx,
    db: &D,
    site: Site,
    with: Stmt,
    without: Stmt,
    resources: List<Resource>,
    body: Box<Stmt>,
    catches: Box<List<Catch>>,
    block: Box<Stmt>,
    x: u32,
)
    requires
        with.kind == (StmtKind::Try { resources, body, catches, finally_block: Some(block) }),
        without.kind == (StmtKind::Try { resources, body, catches, finally_block: None }),
    ensures
        ({
            let before = s.stmt(db, site, without);
            let behind = (InferCtx { exited: false, ..before }).stmt(db, site, *block);
            let end = s.stmt(db, site, with);
            &&& definite(end, x) == definite(behind, x)
            &&& end.exited == (before.exited || behind.exited)
        }),
{
    let (s1, tried) = s.tried_block(db, site, without);
    assert(s.tried_block(db, site, with) == (s1, tried));
    let before = s.attempt(db, site, without);
    assert(s.attempt(db, site, with) == before.finally(db, site, *block));
    assert(s.stmt(db, site, without) == before && s.stmt(db, site, with) == s.attempt(
        db,
        site,
        with,
    )) by {
        reveal_with_fuel(InferCtx::stmt, 2);
        reveal_with_fuel(InferCtx::stmt_kind, 2);
        assert(s.stmt(db, site, with) == s.stmt_kind(db, site, with));
        assert(s.stmt(db, site, without) == s.stmt_kind(db, site, without));
    }
}

/// Behind a labeled statement that is no loop a variable has a value exactly
/// where it has one at each `break` that leaves the statement and, if that is
/// reached, at its end.
pub proof fn law_behind_a_labeled_statement<D: TyDatabase>(
    s: InferCtx,
    db: &D,
    site: Site,
    stmt: Stmt,
    label: Name,
    inner: Box<Stmt>,
    x: u32,
)
    requires
        stmt.kind == (StmtKind::Labeled { label, stmt: inner }),
        !(inner.kind is While || inner.kind is DoWhile || inner.kind is For
            || inner.kind is ForEach),
    ensures
        ({
            let i = (InferCtx {
                labels: List::Cons(Box::new((label, false)), Box::new(s.labels)),
                loop_breaks: List::Cons(
                    Box::new(BreakFrame { label: Some(label), flows: List::Nil }),
                    Box::new(s.loop_breaks),
                ),
                ..s
            }).stmt(db, site, *inner);
            let end = s.stmt(db, site, stmt);
            &&& !end.exited
            &&& !i.exited ==> definite(end, x) == (definite(i, x) && in_each(breaks_at(i), x))
            &&& i.exited && breaks_at(i) is Cons ==> definite(end, x) == in_each(breaks_at(i), x)
        }),
{
    let s0 = s.under_label(label, false).framed(Some(label));
    assert(s0 == (InferCtx {
        labels: List::Cons(Box::new((label, false)), Box::new(s.labels)),
        loop_breaks: List::Cons(
            Box::new(BreakFrame { label: Some(label), flows: List::Nil }),
            Box::new(s.loop_breaks),
        ),
        ..s
    })) by {
        reveal(InferCtx::under_label);
        reveal(InferCtx::framed);
    }
    let i = s0.stmt(db, site, *inner);
    reveal(InferCtx::unframed);
    reveal(InferCtx::resumed);
    reveal(InferCtx::behind_label);
    lemma_join_all(breaks_at(i), x);
    if let Some(f) = i.break_flow() {
        law_join_members(i.flow, f, x, Name::Object);
    }
    assert(s.stmt(db, site, stmt) == s.labeled(db, site, stmt)) by {
        reveal_with_fuel(InferCtx::stmt, 2);
        reveal_with_fuel(InferCtx::stmt_kind, 2);
        assert(s.stmt(db, site, stmt) == s.stmt_kind(db, site, stmt));
    }
}

/// Whether one of the arms has neither labels nor statements.
pub open spec fn some_empty_arm(l: List<SwitchArm>) -> bool
    decreases l,
{
    match l {
        List::Nil => false,
        List::Cons(h, t) => (h.labels is Nil && h.body is Nil) || some_empty_arm(*t),
    }
}

proof fn lemma_arms<D: TyDatabase>(
    s: InferCtx,
    db: &D,
    site: Site,
    l: List<SwitchArm>,
    selector: Ty,
    flow: Flow,
    exited: bool,
    paths: List<(Flow, bool)>,
)
    ensures
        paths.has((flow, exited)) || some_empty_arm(l) ==> s.arms(
            db,
            site,
            l,
            selector,
            flow,
            exited,
            paths,
        ).1.has((flow, exited)),
    decreases l,
{
    if let List::Cons(h, t) = l {
        let a0 = s.entered().resumed(flow, exited);
        let a = a0.labels_of(db, site, h.labels, selector).stmts(db, site, h.body);
        let more = List::Cons(Box::new((a.flow, a.exited)), Box::new(paths));
        if h.labels is Nil && h.body is Nil {
            reveal(InferCtx::resumed);
            assert(a0.labels_of(db, site, h.labels, selector) == a0);
            assert(a0.stmts(db, site, h.body) == a0);
            assert(more.has((flow, exited)));
        }
        lemma_arms(
            a.left().resumed(flow, exited),
            db,
            site,
            *t,
            selector,
            flow,
            exited,
            more,
        );
    }
}

proof fn lemma_every_live(paths: List<(Flow, bool)>, flow: Flow, x: u32)
    requires
        paths.has((flow, false)),
        on_every_live(paths, x),
    ensures
        flow.definite.has(x),
        !none_live(paths),
    decreases paths,
{
    if let List::Cons(h, t) = paths {
        if *h != (flow, false) {
            lemma_every_live(*t, flow, x);
        }
    }
}

/// Each arm of a `switch` starts where its selector ends, without what the arms
/// before it assign: with an arm that does nothing, only the variables have a
/// value behind the `switch` that have one behind the selector. Its end is
/// reached.
pub proof fn law_arms_start_at_the_selector<D: TyDatabase>(
    s: InferCtx,
    db: &D,
    site: Site,
    stmt: Stmt,
    scrutinee: Expr,
    arms: Box<List<SwitchArm>>,
    x: u32,
)
    requires
        stmt.kind == (StmtKind::Switch { scrutinee, arms }),
        some_empty_arm(*arms),
        !s.selector(db, site, scrutinee).0.exited,
    ensures
        definite(s.stmt(db, site, stmt), x) ==> definite(
            s.selector(db, site, scrutinee).0,
            x,
        ),
        !s.stmt(db, site, stmt).exited,
{
    let (s1, selector) = s.selector(db, site, scrutinee);
    let start = s1.inside_switch();
    let (s2, paths) = start.arms(
        db,
        site,
        *arms,
        selector,
        s1.flow,
        s1.exited,
        List::Nil,
    );
    lemma_arms(start, db, site, *arms, selector, s1.flow, s1.exited, List::Nil);
    law_join_live_members(paths, x);
    if on_every_live(paths, x) {
        lemma_every_live(paths, s1.flow, x);
    }
    lemma_live(paths, s1.flow);
    if let Some(f) = join_live(paths) {
        if let Some(g) = s2.break_flow() {
            law_join_members(f, g, x, Name::Object);
        }
    }
    assert(s.stmt(db, site, stmt) == s2.behind_switch(
        paths,
        arm_default(*arms),
        s1.flow,
        s1.in_switch,
    )) by {
        reveal_with_fuel(InferCtx::stmt, 2);
        reveal_with_fuel(InferCtx::stmt_kind, 2);
        assert(s.stmt(db, site, stmt) == s.stmt_kind(db, site, stmt));
        assert(s.stmt_kind(db, site, stmt) == s.switch(db, site, stmt));
    }
    reveal(InferCtx::behind_switch);
    reveal(InferCtx::left);
    reveal(InferCtx::unframed);
}

proof fn lemma_live(paths: List<(Flow, bool)>, flow: Flow)
    requires
        paths.has((flow, false)),
    ensures
        !none_live(paths),
    decreases paths,
{
    if let List::Cons(h, t) = paths {
        if *h != (flow, false) {
            lemma_live(*t, flow);
        }
    }
}

proof fn lemma_with_params<D: TyDatabase>(
    s: InferCtx,
    db: &D,
    site: Site,
    lambda: u32,
    params: List<LambdaParam>,
    formals: List<Ty>,
    tentative: bool,
)
    ensures
        s.with_params(db, site, lambda, params, formals, tentative).flow == s.flow,
        s.with_params(db, site, lambda, params, formals, tentative).exited == s.exited,
    decreases params,
{
    reveal(InferCtx::told);
    reveal(InferCtx::param_checked);
    if let (List::Cons(p, pt), List::Cons(f, ft)) = (params, formals) {
        let s1 = s.param_checked(lambda, p.name, p.range);
        let s2 = InferCtx {
            lambda_params: put_inner(
                s1.lambda_params,
                p.name,
                param_type(db, site, *p, *f, tentative),
            ),
            ..s1
        };
        lemma_with_params(s2, db, site, lambda, *pt, *ft, tentative);
    }
}

/// A lambda runs later, if at all: behind it exactly the variables have a value
/// that had one before it, whatever its body assigns, and the point is reached
/// where the lambda is.
pub proof fn law_behind_a_lambda<D: TyDatabase>(
    s: InferCtx,
    db: &D,
    site: Site,
    e: Expr,
    x: u32,
)
    requires
        e.kind is Lambda,
    ensures
        definite(s.expr(db, site, e).0, x) == definite(s, x),
        s.expr(db, site, e).0.exited == s.exited,
        s.expr(db, site, e).0.enclosing_ret == s.enclosing_ret,
        s.expr(db, site, e).0.enclosing_throws == s.enclosing_throws,
{
    reveal(InferCtx::told);
    reveal(InferCtx::inside);
    reveal(InferCtx::outside);
    let out = s.lambda_expr(db, site, e);
    if let ExprKind::Lambda { params, body: _ } = e.kind {
        if let Some(target) = s.target {
            if let Some(sam) = db.sam(target) {
                let s0 = InferCtx {
                    lambda_params: List::Cons(Box::new(List::Nil), Box::new(s.lambda_params)),
                    ..s
                };
                lemma_with_params(s0, db, site, e.id, params, sam.params, false);
            }
        }
    }
    assert(out.0.flow == s.flow && out.0.exited == s.exited);
    assert(s.expr(db, site, e).0.flow == out.0.flow && s.expr(db, site, e).0.exited
        == out.0.exited && s.expr(db, site, e).0.enclosing_ret == out.0.enclosing_ret && s.expr(
        db,
        site,
        e,
    ).0.enclosing_throws == out.0.enclosing_throws) by {
        reveal_with_fuel(InferCtx::expr, 2);
        reveal_with_fuel(InferCtx::expr_kind, 2);
        assert(s.expr_kind(db, site, e) == out);
    }
}

/// A lambda has the type it should have exactly where that is a functional
/// interface whose method has as many parameters. Where it is another type, that
/// is reported.
pub proof fn law_type_of_a_lambda<D: TyDatabase>(
    s: InferCtx,
    db: &D,
    site: Site,
    e: Expr,
    params: List<LambdaParam>,
    body: LambdaBody,
    target: Ty,
)
    requires
        e.kind == (ExprKind::Lambda { params, body }),
        s.target == Some(target),
        !(target is Error),
        !s.probing,
    ensures
        s.expr(db, site, e).1 == match db.sam(target) {
            Some(sam) => if sam.params.count() == params.count() {
                target
            } else {
                Ty::Error
            },
            None => Ty::Error,
        },
        db.sam(target) is None ==> s.expr(db, site, e).0.diagnostics == List::Cons(
            Box::new(TypeError::NotAFunctionalInterface { expr: e.id, target }),
            Box::new(s.diagnostics),
        ),
{
    reveal(InferCtx::told);
    let out = s.lambda_expr(db, site, e);
    assert(s.expr(db, site, e).1 == out.1 && s.expr(db, site, e).0.diagnostics
        == out.0.diagnostics) by {
        reveal_with_fuel(InferCtx::expr, 2);
        reveal_with_fuel(InferCtx::expr_kind, 2);
        assert(s.expr_kind(db, site, e) == out);
    }
}

/// A final local variable that has had its value from the start is reported
/// where it is assigned, and one without a value that may be assigned once is
/// not.
pub proof fn law_final_locals_stay<D: TyDatabase>(
    s: InferCtx,
    db: &D,
    site: Site,
    e: Expr,
    name: Name,
    b: Binding,
)
    requires
        e.kind == ExprKind::Var(name),
        found_param(s.lambda_params, name) is None,
        found_local(s.scopes, name) == Some(b),
        s.writing,
        s.mutating,
        !s.probing,
    ensures
        b.is_final && !s.blank_finals.has(b.id) ==> s.expr(db, site, e).0.diagnostics == List::Cons(
            Box::new(TypeError::CannotAssignToFinalVariable { expr: e.id, name }),
            Box::new(s.diagnostics),
        ),
        !b.is_final || s.blank_finals.has(b.id) ==> s.expr(db, site, e).0.diagnostics
            == s.diagnostics,
{
    reveal(InferCtx::told);
    reveal(InferCtx::var_type);
    reveal(InferCtx::local_use);
    reveal_with_fuel(InferCtx::expr, 2);
    assert(s.expr_kind(db, site, e) == s.var_type(db, site, e.id, name));
}

/// A final local variable without an initializer may be assigned once.
pub proof fn law_blank_final_locals<D: TyDatabase>(
    s: InferCtx,
    db: &D,
    site: Site,
    stmt: Stmt,
    local: Local,
)
    requires
        stmt.kind == (StmtKind::Decl { local, initializer: None }),
        local.ty is Some,
        !s.blank_finals.has(local.id),
    ensures
        s.stmt(db, site, stmt).blank_finals.has(local.id) == local.is_final,
{
    reveal(InferCtx::told);
    reveal(InferCtx::declared);
    reveal(InferCtx::bound);
    reveal(InferCtx::blank);
    reveal(InferCtx::raw_checked);
    reveal(InferCtx::bounds_checked);
    assert(s.stmt(db, site, stmt) == s.declaration(db, site, stmt)) by {
        reveal_with_fuel(InferCtx::stmt, 2);
        reveal_with_fuel(InferCtx::stmt_kind, 2);
        assert(s.stmt(db, site, stmt) == s.stmt_kind(db, site, stmt));
    }
}

} // verus!
