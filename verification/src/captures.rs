//! What the scan for effectively final variables finds: every reference to a
//! variable from inside a lambda, and every assignment to one that has a value,
//! at any depth of a body.
use crate::body::{
    AssignOp, Body, Catch, Expr, ExprKind, LambdaBody, LambdaParam, Local, Resource, Stmt,
    StmtKind, SwitchArm, SwitchLabel, UnaryOp,
};
use crate::effectively_final::{
    count_or, extends, from_outside, grown, holds_id, joined_at, joined_counts, law_offending_captures,
    lemma_grown, offending, resolved, scan_start, scanned, some_frame_holds, Capture, Frame,
    ScanState, LAMBDA_PARAMETER,
};
use crate::list::{assoc_get, assoc_put, lemma_assoc, List};
use crate::names::Name;
use vstd::prelude::*;

verus! {

/// A part of a body: an expression, or what declares a variable.
pub enum Part {
    Expr(Expr),
    Local(Local),
    Param(LambdaParam),
}

/// Whether a part of the expression, at any depth, has a property. The second
/// argument of the property tells whether the part is inside a lambda; `inside`
/// tells it of the expression. The guards and patterns of a `switch` are no
/// parts.
pub open spec fn in_expr(e: Expr, inside: bool, p: spec_fn(Part, bool) -> bool) -> bool
    decreases e,
{
    p(Part::Expr(e), inside) || match e.kind {
        ExprKind::Literal(_) => false,
        ExprKind::Null => false,
        ExprKind::This { qualifier: _ } => false,
        ExprKind::Super { qualifier: _ } => false,
        ExprKind::ClassLit(_) => false,
        ExprKind::Var(_) => false,
        ExprKind::NamePath(_) => false,
        ExprKind::Missing => false,
        ExprKind::FieldAccess { target, name: _ } => match target {
            Some(t) => in_expr(*t, inside, p),
            None => false,
        },
        ExprKind::ArrayAccess { array, index } => in_expr(*array, inside, p) || in_expr(
            *index,
            inside,
            p,
        ),
        ExprKind::MethodCall { receiver, name: _, type_args: _, args } => in_exprs(
            *args,
            inside,
            p,
        ) || match receiver {
            Some(r) => in_expr(*r, inside, p),
            None => false,
        },
        ExprKind::CtorCall { args, target: _ } => in_exprs(*args, inside, p),
        ExprKind::New { ty: _, args, diamond: _, anonymous: _, receiver } => in_exprs(
            *args,
            inside,
            p,
        ) || match receiver {
            Some(r) => in_expr(*r, inside, p),
            None => false,
        },
        ExprKind::NewArray { ty: _, dims, initializer } => in_exprs(*dims, inside, p)
            || match initializer {
            Some(l) => in_exprs(*l, inside, p),
            None => false,
        },
        ExprKind::ArrayInit(l) => in_exprs(*l, inside, p),
        ExprKind::Template { args } => in_exprs(*args, inside, p),
        ExprKind::Unary { op: _, expr } => in_expr(*expr, inside, p),
        ExprKind::Postfix { expr } => in_expr(*expr, inside, p),
        ExprKind::Cast { ty: _, expr } => in_expr(*expr, inside, p),
        ExprKind::InstanceOf { expr, pattern: _, ty: _ } => in_expr(*expr, inside, p),
        ExprKind::Paren(inner) => in_expr(*inner, inside, p),
        ExprKind::Binary { op: _, lhs, rhs } => in_expr(*lhs, inside, p) || in_expr(
            *rhs,
            inside,
            p,
        ),
        ExprKind::Assign { op: _, lhs, rhs } => in_expr(*lhs, inside, p) || in_expr(
            *rhs,
            inside,
            p,
        ),
        ExprKind::Conditional { cond, then_arm, else_arm } => in_expr(*cond, inside, p) || in_expr(
            *then_arm,
            inside,
            p,
        ) || in_expr(*else_arm, inside, p),
        ExprKind::Lambda { params, body } => in_params(params, p) || match body {
            LambdaBody::Expr(b) => in_expr(*b, true, p),
            LambdaBody::Block(b) => in_stmt(*b, true, p),
        },
        ExprKind::MethodRef { qualifier, named: _, name: _ } => match qualifier {
            Some(q) => in_expr(*q, inside, p),
            None => false,
        },
        ExprKind::Switch { scrutinee, arms } => in_expr(*scrutinee, inside, p) || in_arms(
            *arms,
            inside,
            p,
        ),
    }
}

/// Whether a parameter of a lambda has a property.
pub open spec fn in_params(l: List<LambdaParam>, p: spec_fn(Part, bool) -> bool) -> bool
    decreases l,
{
    match l {
        List::Nil => false,
        List::Cons(h, t) => p(Part::Param(*h), true) || in_params(*t, p),
    }
}

pub open spec fn in_exprs(l: List<Expr>, inside: bool, p: spec_fn(Part, bool) -> bool) -> bool
    decreases l,
{
    match l {
        List::Nil => false,
        List::Cons(h, t) => in_expr(*h, inside, p) || in_exprs(*t, inside, p),
    }
}

pub open spec fn in_labels(l: List<SwitchLabel>, inside: bool, p: spec_fn(Part, bool) -> bool) -> bool
    decreases l,
{
    match l {
        List::Nil => false,
        List::Cons(h, t) => (match *h {
            SwitchLabel::Expr(e) => in_expr(e, inside, p),
            _ => false,
        }) || in_labels(*t, inside, p),
    }
}

pub open spec fn in_arms(l: List<SwitchArm>, inside: bool, p: spec_fn(Part, bool) -> bool) -> bool
    decreases l,
{
    match l {
        List::Nil => false,
        List::Cons(h, t) => in_labels(h.labels, inside, p) || in_stmts(h.body, inside, p)
            || in_arms(*t, inside, p),
    }
}

pub open spec fn in_resources(
    l: List<Resource>,
    inside: bool,
    p: spec_fn(Part, bool) -> bool,
) -> bool
    decreases l,
{
    match l {
        List::Nil => false,
        List::Cons(h, t) => p(Part::Local(h.local), inside) || (match h.initializer {
            Some(e) => in_expr(e, inside, p),
            None => false,
        }) || in_resources(*t, inside, p),
    }
}

pub open spec fn in_catches(l: List<Catch>, inside: bool, p: spec_fn(Part, bool) -> bool) -> bool
    decreases l,
{
    match l {
        List::Nil => false,
        List::Cons(h, t) => p(Part::Local(h.param), inside) || in_stmt(h.body, inside, p)
            || in_catches(*t, inside, p),
    }
}

/// Whether a part of the statement, at any depth, has a property.
pub open spec fn in_stmt(s: Stmt, inside: bool, p: spec_fn(Part, bool) -> bool) -> bool
    decreases s,
{
    match s.kind {
        StmtKind::Empty => false,
        StmtKind::Missing => false,
        StmtKind::LocalClass => false,
        StmtKind::Break(_) => false,
        StmtKind::Continue(_) => false,
        StmtKind::Block(l) => in_stmts(*l, inside, p),
        StmtKind::DeclGroup(l) => in_stmts(*l, inside, p),
        StmtKind::Decl { local, initializer } => p(Part::Local(local), inside)
            || match initializer {
            Some(e) => in_expr(e, inside, p),
            None => false,
        },
        StmtKind::Expr(e) => in_expr(e, inside, p),
        StmtKind::Labeled { label: _, stmt } => in_stmt(*stmt, inside, p),
        StmtKind::If { cond, then_arm, else_arm } => in_expr(cond, inside, p) || in_stmt(
            *then_arm,
            inside,
            p,
        ) || match else_arm {
            Some(e) => in_stmt(*e, inside, p),
            None => false,
        },
        StmtKind::While { cond, body } => in_expr(cond, inside, p) || in_stmt(*body, inside, p),
        StmtKind::DoWhile { body, cond } => in_expr(cond, inside, p) || in_stmt(*body, inside, p),
        StmtKind::For { init, cond, step, body } => in_stmts(*init, inside, p) || (match cond {
            Some(c) => in_expr(c, inside, p),
            None => false,
        }) || in_exprs(step, inside, p) || in_stmt(*body, inside, p),
        StmtKind::ForEach { var, iterable, body } => p(Part::Local(var), inside) || in_expr(
            iterable,
            inside,
            p,
        ) || in_stmt(*body, inside, p),
        StmtKind::Switch { scrutinee, arms } => in_expr(scrutinee, inside, p) || in_arms(
            *arms,
            inside,
            p,
        ),
        StmtKind::Return(value) => match value {
            Some(e) => in_expr(e, inside, p),
            None => false,
        },
        StmtKind::Yield(e) => in_expr(e, inside, p),
        StmtKind::Throw(e) => in_expr(e, inside, p),
        StmtKind::Synchronized { expr, body } => in_expr(expr, inside, p) || in_stmt(
            *body,
            inside,
            p,
        ),
        StmtKind::Try { resources, body, catches, finally_block } => in_resources(
            resources,
            inside,
            p,
        ) || in_stmt(*body, inside, p) || in_catches(*catches, inside, p) || match finally_block {
            Some(f) => in_stmt(*f, inside, p),
            None => false,
        },
        StmtKind::Assert { cond, msg } => in_expr(cond, inside, p) || match msg {
            Some(m) => in_expr(m, inside, p),
            None => false,
        },
    }
}

pub open spec fn in_stmts(l: List<Stmt>, inside: bool, p: spec_fn(Part, bool) -> bool) -> bool
    decreases l,
{
    match l {
        List::Nil => false,
        List::Cons(h, t) => in_stmt(*h, inside, p) || in_stmts(*t, inside, p),
    }
}

/// A variable, the name it goes by, and an expression.
pub struct Sought {
    pub name: Name,
    pub id: u32,
    pub expr: u32,
}

/// The declaration of a variable with the name or the identity.
pub open spec fn declaring(q: Sought) -> spec_fn(Part, bool) -> bool {
    |p: Part, inside: bool|
        match p {
            Part::Expr(_) => false,
            Part::Local(l) => l.name == q.name || l.id == q.id,
            Part::Param(l) => l.name == q.name,
        }
}

/// The expression, as a reference to the name inside a lambda.
pub open spec fn captured_by(q: Sought) -> spec_fn(Part, bool) -> bool {
    |p: Part, inside: bool|
        match p {
            Part::Expr(e) => inside && e.id == q.expr && match e.kind {
                ExprKind::Var(n) => n == q.name,
                ExprKind::NamePath(l) => l == List::Cons(
                    Box::new(q.name),
                    Box::new(List::<Name>::Nil),
                ),
                _ => false,
            },
            _ => false,
        }
}

/// An assignment to the name.
pub open spec fn assigning(q: Sought) -> spec_fn(Part, bool) -> bool {
    |p: Part, inside: bool|
        match p {
            Part::Expr(e) => match e.kind {
                ExprKind::Assign { op: _, lhs, rhs: _ } => lhs.kind == ExprKind::Var(q.name),
                _ => false,
            },
            _ => false,
        }
}

/// An increment or decrement of the name, or an assignment that combines with
/// its value.
pub open spec fn updating(q: Sought) -> spec_fn(Part, bool) -> bool {
    |p: Part, inside: bool|
        match p {
            Part::Expr(e) => match e.kind {
                ExprKind::Assign { op, lhs, rhs: _ } => op is Compound && lhs.kind
                    == ExprKind::Var(q.name),
                ExprKind::Unary { op, expr } => (op is Inc || op is Dec) && expr.kind
                    == ExprKind::Var(q.name),
                ExprKind::Postfix { expr } => expr.kind == ExprKind::Var(q.name),
                _ => false,
            },
            _ => false,
        }
}

/// What is found of a variable: assignments, updates, and the capture.
pub struct Hits {
    pub assigned: bool,
    pub updated: bool,
    pub captured: bool,
}

pub open spec fn either(a: Hits, b: Hits) -> Hits {
    Hits {
        assigned: a.assigned || b.assigned,
        updated: a.updated || b.updated,
        captured: a.captured || b.captured,
    }
}

pub open spec fn no_hits() -> Hits {
    Hits { assigned: false, updated: false, captured: false }
}

pub open spec fn expr_hits(e: Expr, inside: bool, q: Sought) -> Hits {
    Hits {
        assigned: in_expr(e, inside, assigning(q)),
        updated: in_expr(e, inside, updating(q)),
        captured: in_expr(e, inside, captured_by(q)),
    }
}

pub open spec fn stmt_hits(s: Stmt, inside: bool, q: Sought) -> Hits {
    Hits {
        assigned: in_stmt(s, inside, assigning(q)),
        updated: in_stmt(s, inside, updating(q)),
        captured: in_stmt(s, inside, captured_by(q)),
    }
}

pub open spec fn exprs_hits(l: List<Expr>, inside: bool, q: Sought) -> Hits {
    Hits {
        assigned: in_exprs(l, inside, assigning(q)),
        updated: in_exprs(l, inside, updating(q)),
        captured: in_exprs(l, inside, captured_by(q)),
    }
}

pub open spec fn stmts_hits(l: List<Stmt>, inside: bool, q: Sought) -> Hits {
    Hits {
        assigned: in_stmts(l, inside, assigning(q)),
        updated: in_stmts(l, inside, updating(q)),
        captured: in_stmts(l, inside, captured_by(q)),
    }
}

/// Whether no name but this one stands for the variable.
pub open spec fn sole_name(l: List<(Name, u32)>, q: Sought) -> bool
    decreases l,
{
    match l {
        List::Nil => true,
        List::Cons(h, t) => (h.1 == q.id ==> h.0 == q.name) && sole_name(*t, q),
    }
}

pub open spec fn sole_names(frames: List<Frame>, q: Sought) -> bool
    decreases frames,
{
    match frames {
        List::Nil => true,
        List::Cons(f, rest) => sole_name(f.names, q) && sole_names(*rest, q),
    }
}

/// Whether the name stands for the variable, and no other name does, seen from
/// inside a lambda or not.
#[verifier::opaque]
pub open spec fn in_view(s: ScanState, q: Sought, inside: bool) -> bool {
    &&& s.frames is Cons
    &&& resolved(s.frames, q.name) == Some(q.id)
    &&& sole_names(s.frames, q)
    &&& from_outside(s.frames, q.id) == inside
    &&& q.id != LAMBDA_PARAMETER
    &&& count_or(s.counts, q.id, 0) > 1 ==> s.mutated.contains(q.id)
}

/// Whether the variable has a value: from its declaration on, or by an
/// assignment.
pub open spec fn has_value(s: ScanState, id: u32) -> bool {
    s.initialized.contains(id) || count_or(s.counts, id, 0) > 0
}

/// The expression as a capture of the variable.
pub open spec fn capture_of(q: Sought) -> Capture {
    Capture { local: q.id, name: q.name, expr: q.expr }
}

/// Whether a scan from one state to another has found what there is to find of
/// the variable, and no more: every assignment to it where it has a value and
/// every update have it known as assigned again, which nothing else does, and a
/// reference inside a lambda is a capture, and nothing else is.
#[verifier::opaque]
pub open spec fn finds(a: ScanState, b: ScanState, q: Sought, inside: bool, hits: Hits) -> bool {
    &&& grown(a, b)
    &&& in_view(b, q, inside)
    &&& b.frames->Cons_1 == a.frames->Cons_1
    &&& has_value(a, q.id) ==> has_value(b, q.id)
    &&& hits.assigned ==> has_value(b, q.id) || b.mutated.contains(q.id)
    &&& hits.assigned && has_value(a, q.id) ==> b.mutated.contains(q.id)
    &&& hits.updated ==> b.mutated.contains(q.id)
    &&& hits.captured || a.captures.has(capture_of(q)) <==> b.captures.has(capture_of(q))
    &&& b.mutated.contains(q.id) ==> a.mutated.contains(q.id) || hits.assigned || hits.updated
    &&& b.initialized.contains(q.id) == a.initialized.contains(q.id)
    &&& !hits.assigned ==> count_or(b.counts, q.id, 0) == count_or(a.counts, q.id, 0)
}

proof fn lemma_extends_has(b: List<Capture>, a: List<Capture>, c: Capture)
    requires
        extends(b, a),
        a.has(c),
    ensures
        b.has(c),
    decreases b,
{
    if b != a {
        if let List::Cons(_, t) = b {
            lemma_extends_has(*t, a, c);
        }
    }
}

/// The same hits, told in another way.
proof fn lemma_same(a: ScanState, b: ScanState, q: Sought, inside: bool, hits: Hits, same: Hits)
    requires
        finds(a, b, q, inside, hits),
        same.assigned == hits.assigned,
        same.updated == hits.updated,
        same.captured == hits.captured,
    ensures
        finds(a, b, q, inside, same),
{
}

proof fn lemma_then(
    a: ScanState,
    b: ScanState,
    c: ScanState,
    q: Sought,
    inside: bool,
    first: Hits,
    second: Hits,
)
    requires
        finds(a, b, q, inside, first),
        finds(b, c, q, inside, second),
    ensures
        in_view(c, q, inside),
        finds(a, c, q, inside, either(first, second)),
{
    reveal(finds);
    reveal(in_view);
    lemma_grown(a, b, c);
    if b.captures.has(capture_of(q)) {
        lemma_extends_has(c.captures, b.captures, capture_of(q));
    }
}

proof fn lemma_at_rest(a: ScanState, q: Sought, inside: bool)
    requires
        in_view(a, q, inside),
    ensures
        finds(a, a, q, inside, no_hits()),
{
    reveal(finds);
    reveal(in_view);
}

proof fn lemma_resolved_held(frames: List<Frame>, q: Sought)
    requires
        resolved(frames, q.name) == Some(q.id),
    ensures
        some_frame_holds(frames, q.id),
    decreases frames,
{
    if let List::Cons(f, rest) = frames {
        if assoc_get(f.names, q.name) is Some {
            lemma_held(f.names, q);
        } else {
            lemma_resolved_held(*rest, q);
        }
    }
}

proof fn lemma_held(l: List<(Name, u32)>, q: Sought)
    requires
        assoc_get(l, q.name) == Some(q.id),
    ensures
        holds_id(l, q.id),
    decreases l,
{
    if let List::Cons(h, t) = l {
        if h.0 != q.name {
            lemma_held(*t, q);
        }
    }
}

proof fn lemma_put(l: List<(Name, u32)>, q: Sought, name: Name, id: u32)
    requires
        sole_name(l, q),
        name != q.name,
        id != q.id,
    ensures
        sole_name(assoc_put(l, name, id), q),
        holds_id(assoc_put(l, name, id), q.id) == holds_id(l, q.id),
        assoc_get(assoc_put(l, name, id), q.name) == assoc_get(l, q.name),
    decreases l,
{
    reveal_with_fuel(sole_name, 2);
    reveal_with_fuel(holds_id, 2);
    lemma_assoc(l, name, id, q.name);
    if let List::Cons(h, t) = l {
        if h.0 != name {
            lemma_put(*t, q, name, id);
        }
    }
}

proof fn lemma_bind(a: ScanState, q: Sought, inside: bool, name: Name, id: u32)
    requires
        in_view(a, q, inside),
        name != q.name,
        id != q.id,
    ensures
        in_view(a.bind(name, id), q, inside),
        finds(a, a.bind(name, id), q, inside, no_hits()),
{
    reveal(finds);
    reveal(in_view);
    if let List::Cons(f, _) = a.frames {
        lemma_put(f.names, q, name, id);
    }
}

proof fn lemma_declare(a: ScanState, q: Sought, inside: bool, local: Local)
    requires
        in_view(a, q, inside),
        local.name != q.name,
        local.id != q.id,
    ensures
        in_view(a.declare_set(local), q, inside),
        finds(a, a.declare_set(local), q, inside, no_hits()),
{
    reveal(finds);
    reveal(in_view);
    lemma_bind(a, q, inside, local.name, local.id);
}

proof fn lemma_params(a: ScanState, q: Sought, inside: bool, l: List<LambdaParam>)
    requires
        in_view(a, q, inside),
        !in_params(l, declaring(q)),
    ensures
        in_view(a.bind_params(l), q, inside),
        finds(a, a.bind_params(l), q, inside, no_hits()),
    decreases l,
{
    reveal(finds);
    reveal(in_view);
    if let List::Cons(h, t) = l {
        assert(!declaring(q)(Part::Param(*h), true));
        lemma_bind(a, q, inside, h.name, LAMBDA_PARAMETER);
        let b = a.bind(h.name, LAMBDA_PARAMETER);
        lemma_params(b, q, inside, *t);
        lemma_then(a, b, a.bind_params(l), q, inside, no_hits(), no_hits());
    }
}

/// A scope around a scan.
proof fn lemma_scope(a: ScanState, b: ScanState, q: Sought, inside: bool, hits: Hits)
    requires
        in_view(a, q, inside),
        in_view(a.enter(false), q, inside) ==> finds(a.enter(false), b, q, inside, hits),
    ensures
        in_view(b.leave(), q, inside),
        in_view(a.enter(false), q, inside),
        finds(a, b.leave(), q, inside, hits),
{
    reveal(finds);
    reveal(in_view);
    lemma_enter(a, q, inside);
    assert(b.leave().frames == a.frames);
}

proof fn lemma_enter(a: ScanState, q: Sought, inside: bool)
    requires
        in_view(a, q, inside),
    ensures
        in_view(a.enter(false), q, inside),
        in_view(a.enter(true), q, true),
{
    reveal(finds);
    reveal(in_view);
    reveal_with_fuel(resolved, 2);
    reveal_with_fuel(sole_names, 2);
    reveal_with_fuel(from_outside, 2);
    lemma_resolved_held(a.frames, q);
    assert(assoc_get(List::<(Name, u32)>::Nil, q.name) is None);
}


proof fn lemma_referred(a: ScanState, q: Sought, inside: bool, name: Name, expr: u32)
    requires
        in_view(a, q, inside),
    ensures
        in_view(a.referred(name, expr), q, inside),
        finds(
            a,
            a.referred(name, expr),
            q,
            inside,
            Hits {
                assigned: false,
                updated: false,
                captured: inside && name == q.name && expr == q.expr,
            },
        ),
{
    reveal(finds);
    reveal(in_view);
    reveal_with_fuel(extends, 2);
}

proof fn lemma_written(a: ScanState, q: Sought, inside: bool, e: Expr)
    requires
        in_view(a, q, inside),
    ensures
        in_view(a.written(e), q, inside),
        finds(
            a,
            a.written(e),
            q,
            inside,
            Hits {
                assigned: e.kind == ExprKind::Var(q.name),
                updated: e.kind == ExprKind::Var(q.name),
                captured: false,
            },
        ),
        finds(
            a,
            a.written(e),
            q,
            inside,
            Hits { assigned: false, updated: e.kind == ExprKind::Var(q.name), captured: false },
        ),
{
    reveal(finds);
    reveal(in_view);
    if let ExprKind::Var(name) = e.kind {
        if resolved(a.frames, name) == Some(q.id) {
            lemma_sole(a.frames, q, name);
        }
    }
}

/// A name that stands for the variable is its name.
proof fn lemma_sole(frames: List<Frame>, q: Sought, name: Name)
    requires
        sole_names(frames, q),
        resolved(frames, name) == Some(q.id),
    ensures
        name == q.name,
    decreases frames,
{
    if let List::Cons(f, rest) = frames {
        if assoc_get(f.names, name) is Some {
            lemma_sole_of(f.names, q, name);
        } else {
            lemma_sole(*rest, q, name);
        }
    }
}

proof fn lemma_sole_of(l: List<(Name, u32)>, q: Sought, name: Name)
    requires
        sole_name(l, q),
        assoc_get(l, name) == Some(q.id),
    ensures
        name == q.name,
    decreases l,
{
    if let List::Cons(h, t) = l {
        if h.0 != name {
            lemma_sole_of(*t, q, name);
        }
    }
}

proof fn lemma_assigned(a: ScanState, q: Sought, inside: bool, e: Expr)
    requires
        in_view(a, q, inside),
    ensures
        in_view(a.assigned(e), q, inside),
        finds(
            a,
            a.assigned(e),
            q,
            inside,
            Hits { assigned: e.kind == ExprKind::Var(q.name), updated: false, captured: false },
        ),
{
    reveal(finds);
    reveal(in_view);
    if let ExprKind::Var(name) = e.kind {
        if resolved(a.frames, name) == Some(q.id) {
            lemma_sole(a.frames, q, name);
        }
    }
}

proof fn lemma_other_arm(a: ScanState, b: ScanState, q: Sought, inside: bool, hits: Hits)
    requires
        finds(a, b, q, inside, hits),
    ensures
        in_view((ScanState { counts: a.counts, ..b }), q, inside),
{
    reveal(finds);
    reveal(in_view);
}

/// Behind the two arms of an `if`.
proof fn lemma_arms_joined(
    a: ScanState,
    b: ScanState,
    c: ScanState,
    q: Sought,
    inside: bool,
    first: Hits,
    second: Hits,
)
    requires
        finds(a, b, q, inside, first),
        finds((ScanState { counts: a.counts, ..b }), c, q, inside, second),
    ensures
        in_view(c.join(a.counts, b.counts, c.counts), q, inside),
        finds(a, c.join(a.counts, b.counts, c.counts), q, inside, either(first, second)),
{
    reveal(finds);
    reveal(in_view);
    let other = ScanState { counts: a.counts, ..b };
    let d = c.join(a.counts, b.counts, c.counts);
    lemma_grown(a, b, other);
    lemma_grown(a, other, c);
    lemma_grown(a, c, d);
    if b.captures.has(capture_of(q)) {
        lemma_extends_has(c.captures, b.captures, capture_of(q));
    }
    let counts = joined_counts(a.counts, b.counts, c.counts);
    assert(d.counts == counts);
    let n = joined_at(a.counts, b.counts, c.counts, q.id);
    assert(count_or(counts, q.id, 0) == n);
}

/// A lambda around a scan.
proof fn lemma_lambda(a: ScanState, b: ScanState, q: Sought, inside: bool, hits: Hits)
    requires
        in_view(a, q, inside),
        finds(a.enter(true), b, q, true, hits),
    ensures
        in_view(b.leave(), q, inside),
        finds(a, b.leave(), q, inside, hits),
{
    reveal(finds);
    reveal(in_view);
    assert(b.leave().frames == a.frames);
}

/// A parameter is no expression.
proof fn lemma_params_hit_nothing(l: List<LambdaParam>, q: Sought)
    ensures
        !in_params(l, assigning(q)),
        !in_params(l, updating(q)),
        !in_params(l, captured_by(q)),
    decreases l,
{
    if let List::Cons(h, t) = l {
        lemma_params_hit_nothing(*t, q);
    }
}

pub open spec fn labels_hits(l: List<SwitchLabel>, inside: bool, q: Sought) -> Hits {
    Hits {
        assigned: in_labels(l, inside, assigning(q)),
        updated: in_labels(l, inside, updating(q)),
        captured: in_labels(l, inside, captured_by(q)),
    }
}

pub open spec fn arms_hits(l: List<SwitchArm>, inside: bool, q: Sought) -> Hits {
    Hits {
        assigned: in_arms(l, inside, assigning(q)),
        updated: in_arms(l, inside, updating(q)),
        captured: in_arms(l, inside, captured_by(q)),
    }
}

pub open spec fn resources_hits(l: List<Resource>, inside: bool, q: Sought) -> Hits {
    Hits {
        assigned: in_resources(l, inside, assigning(q)),
        updated: in_resources(l, inside, updating(q)),
        captured: in_resources(l, inside, captured_by(q)),
    }
}

pub open spec fn catches_hits(l: List<Catch>, inside: bool, q: Sought) -> Hits {
    Hits {
        assigned: in_catches(l, inside, assigning(q)),
        updated: in_catches(l, inside, updating(q)),
        captured: in_catches(l, inside, captured_by(q)),
    }
}

/// A scan of an expression finds what the expression holds of a variable that
/// is in view and that nothing in the expression hides.
#[verifier::rlimit(60)]
pub proof fn law_scan_of_expression_finds(s: ScanState, e: Expr, q: Sought, inside: bool)
    requires
        in_view(s, q, inside),
        !in_expr(e, inside, declaring(q)),
    ensures
        in_view(s.after_expr(e), q, inside),
        finds(s, s.after_expr(e), q, inside, expr_hits(e, inside, q)),
    decreases e,
{
    lemma_at_rest(s, q, inside);
    match e.kind {
        ExprKind::Var(name) => {
            lemma_referred(s, q, inside, name, e.id);
            let h1 = Hits {
                assigned: false,
                updated: false,
                captured: inside && name == q.name && e.id == q.expr,
            };
            lemma_same(s, s.after_expr(e), q, inside, h1, expr_hits(e, inside, q));
        },
        ExprKind::NamePath(path) => {
            match path {
                List::Cons(first, rest) => {
                    if *rest == List::<Name>::Nil {
                        lemma_referred(s, q, inside, *first, e.id);
                        let h1 = Hits {
                            assigned: false,
                            updated: false,
                            captured: inside && *first == q.name && e.id == q.expr,
                        };
                        lemma_same(s, s.after_expr(e), q, inside, h1, expr_hits(e, inside, q));
                    } else {
                        lemma_same(s, s, q, inside, no_hits(), expr_hits(e, inside, q));
                    }
                },
                List::Nil => {
                    lemma_same(s, s, q, inside, no_hits(), expr_hits(e, inside, q));
                },
            }
        },
        ExprKind::Template { args } => {
            let s1 = s.after_exprs(*args);
            lemma_exprs_found(s, *args, q, inside);
            let h1 = exprs_hits(*args, inside, q);
            lemma_same(s, s1, q, inside, h1, expr_hits(e, inside, q));
        },
        ExprKind::FieldAccess { target, name: _ } => {
            if let Some(t) = target {
                let s1 = s.after_expr(*t);
                law_scan_of_expression_finds(s, *t, q, inside);
                let h1 = expr_hits(*t, inside, q);
                lemma_same(s, s1, q, inside, h1, expr_hits(e, inside, q));
            } else {
                lemma_same(s, s, q, inside, no_hits(), expr_hits(e, inside, q));
            }
        },
        ExprKind::ArrayAccess { array, index } => {
            let s1 = s.after_expr(*array);
            law_scan_of_expression_finds(s, *array, q, inside);
            let h1 = expr_hits(*array, inside, q);
            let s2 = s1.after_expr(*index);
            law_scan_of_expression_finds(s1, *index, q, inside);
            let h2 = either(h1, expr_hits(*index, inside, q));
            lemma_then(s, s1, s2, q, inside, h1, expr_hits(*index, inside, q));
            lemma_same(s, s2, q, inside, h2, expr_hits(e, inside, q));
        },
        ExprKind::MethodCall { receiver, name: _, type_args: _, args } => {
            if let Some(r) = receiver {
                let s1 = s.after_expr(*r);
                law_scan_of_expression_finds(s, *r, q, inside);
                let h1 = expr_hits(*r, inside, q);
                let s2 = s1.after_exprs(*args);
                lemma_exprs_found(s1, *args, q, inside);
                let h2 = either(h1, exprs_hits(*args, inside, q));
                lemma_then(s, s1, s2, q, inside, h1, exprs_hits(*args, inside, q));
                lemma_same(s, s2, q, inside, h2, expr_hits(e, inside, q));
            } else {
                let s1 = s.after_exprs(*args);
                lemma_exprs_found(s, *args, q, inside);
                let h1 = exprs_hits(*args, inside, q);
                lemma_same(s, s1, q, inside, h1, expr_hits(e, inside, q));
            }
        },
        ExprKind::New { ty: _, args, diamond: _, anonymous: _, receiver } => {
            if let Some(r) = receiver {
                let s1 = s.after_expr(*r);
                law_scan_of_expression_finds(s, *r, q, inside);
                let h1 = expr_hits(*r, inside, q);
                let s2 = s1.after_exprs(*args);
                lemma_exprs_found(s1, *args, q, inside);
                let h2 = either(h1, exprs_hits(*args, inside, q));
                lemma_then(s, s1, s2, q, inside, h1, exprs_hits(*args, inside, q));
                lemma_same(s, s2, q, inside, h2, expr_hits(e, inside, q));
            } else {
                let s1 = s.after_exprs(*args);
                lemma_exprs_found(s, *args, q, inside);
                let h1 = exprs_hits(*args, inside, q);
                lemma_same(s, s1, q, inside, h1, expr_hits(e, inside, q));
            }
        },
        ExprKind::CtorCall { args, target: _ } => {
            let s1 = s.after_exprs(*args);
            lemma_exprs_found(s, *args, q, inside);
            let h1 = exprs_hits(*args, inside, q);
            lemma_same(s, s1, q, inside, h1, expr_hits(e, inside, q));
        },
        ExprKind::NewArray { ty: _, dims, initializer } => {
            if let Some(l) = initializer {
                let s1 = s.after_exprs(*dims);
                lemma_exprs_found(s, *dims, q, inside);
                let h1 = exprs_hits(*dims, inside, q);
                let s2 = s1.after_exprs(*l);
                lemma_exprs_found(s1, *l, q, inside);
                let h2 = either(h1, exprs_hits(*l, inside, q));
                lemma_then(s, s1, s2, q, inside, h1, exprs_hits(*l, inside, q));
                lemma_same(s, s2, q, inside, h2, expr_hits(e, inside, q));
            } else {
                let s1 = s.after_exprs(*dims);
                lemma_exprs_found(s, *dims, q, inside);
                let h1 = exprs_hits(*dims, inside, q);
                lemma_same(s, s1, q, inside, h1, expr_hits(e, inside, q));
            }
        },
        ExprKind::ArrayInit(l) => {
            let s1 = s.after_exprs(*l);
            lemma_exprs_found(s, *l, q, inside);
            let h1 = exprs_hits(*l, inside, q);
            lemma_same(s, s1, q, inside, h1, expr_hits(e, inside, q));
        },
        ExprKind::Unary { op, expr } => {
            if op == UnaryOp::Inc || op == UnaryOp::Dec {
                let named = expr.kind == ExprKind::Var(q.name);
                let target = Hits { assigned: false, updated: named, captured: false };
                let s1 = s.written(*expr);
                lemma_written(s, q, inside, *expr);
                let h1 = target;
                let s2 = s1.after_expr(*expr);
                law_scan_of_expression_finds(s1, *expr, q, inside);
                let h2 = either(h1, expr_hits(*expr, inside, q));
                lemma_then(s, s1, s2, q, inside, h1, expr_hits(*expr, inside, q));
                lemma_same(s, s2, q, inside, h2, expr_hits(e, inside, q));
            } else {
                let s1 = s.after_expr(*expr);
                law_scan_of_expression_finds(s, *expr, q, inside);
                let h1 = expr_hits(*expr, inside, q);
                lemma_same(s, s1, q, inside, h1, expr_hits(e, inside, q));
            }
        },
        ExprKind::Postfix { expr } => {
            let named = expr.kind == ExprKind::Var(q.name);
            let target = Hits { assigned: false, updated: named, captured: false };
            let s1 = s.written(*expr);
            lemma_written(s, q, inside, *expr);
            let h1 = target;
            let s2 = s1.after_expr(*expr);
            law_scan_of_expression_finds(s1, *expr, q, inside);
            let h2 = either(h1, expr_hits(*expr, inside, q));
            lemma_then(s, s1, s2, q, inside, h1, expr_hits(*expr, inside, q));
            lemma_same(s, s2, q, inside, h2, expr_hits(e, inside, q));
        },
        ExprKind::Binary { op: _, lhs, rhs } => {
            let s1 = s.after_expr(*lhs);
            law_scan_of_expression_finds(s, *lhs, q, inside);
            let h1 = expr_hits(*lhs, inside, q);
            let s2 = s1.after_expr(*rhs);
            law_scan_of_expression_finds(s1, *rhs, q, inside);
            let h2 = either(h1, expr_hits(*rhs, inside, q));
            lemma_then(s, s1, s2, q, inside, h1, expr_hits(*rhs, inside, q));
            lemma_same(s, s2, q, inside, h2, expr_hits(e, inside, q));
        },
        ExprKind::Assign { op, lhs, rhs } => {
            match op {
                AssignOp::Assign => {
                    let named = lhs.kind == ExprKind::Var(q.name);
                    let target = Hits { assigned: named, updated: false, captured: false };
                    let s1 = s.assigned(*lhs);
                    lemma_assigned(s, q, inside, *lhs);
                    let h1 = target;
                    let s2 = s1.after_expr(*lhs);
                    law_scan_of_expression_finds(s1, *lhs, q, inside);
                    let h2 = either(h1, expr_hits(*lhs, inside, q));
                    lemma_then(s, s1, s2, q, inside, h1, expr_hits(*lhs, inside, q));
                    let s3 = s2.after_expr(*rhs);
                    law_scan_of_expression_finds(s2, *rhs, q, inside);
                    let h3 = either(h2, expr_hits(*rhs, inside, q));
                    lemma_then(s, s2, s3, q, inside, h2, expr_hits(*rhs, inside, q));
                    lemma_same(s, s3, q, inside, h3, expr_hits(e, inside, q));
                },
                AssignOp::Compound => {
                    let named = lhs.kind == ExprKind::Var(q.name);
                    let target = Hits { assigned: named, updated: named, captured: false };
                    let s1 = s.written(*lhs);
                    lemma_written(s, q, inside, *lhs);
                    let h1 = target;
                    let s2 = s1.after_expr(*lhs);
                    law_scan_of_expression_finds(s1, *lhs, q, inside);
                    let h2 = either(h1, expr_hits(*lhs, inside, q));
                    lemma_then(s, s1, s2, q, inside, h1, expr_hits(*lhs, inside, q));
                    let s3 = s2.after_expr(*rhs);
                    law_scan_of_expression_finds(s2, *rhs, q, inside);
                    let h3 = either(h2, expr_hits(*rhs, inside, q));
                    lemma_then(s, s2, s3, q, inside, h2, expr_hits(*rhs, inside, q));
                    lemma_same(s, s3, q, inside, h3, expr_hits(e, inside, q));
                },
            }
        },
        ExprKind::Cast { ty: _, expr } => {
            let s1 = s.after_expr(*expr);
            law_scan_of_expression_finds(s, *expr, q, inside);
            let h1 = expr_hits(*expr, inside, q);
            lemma_same(s, s1, q, inside, h1, expr_hits(e, inside, q));
        },
        ExprKind::InstanceOf { expr, pattern: _, ty: _ } => {
            let s1 = s.after_expr(*expr);
            law_scan_of_expression_finds(s, *expr, q, inside);
            let h1 = expr_hits(*expr, inside, q);
            lemma_same(s, s1, q, inside, h1, expr_hits(e, inside, q));
        },
        ExprKind::Conditional { cond, then_arm, else_arm } => {
            let s1 = s.after_expr(*cond);
            law_scan_of_expression_finds(s, *cond, q, inside);
            let h1 = expr_hits(*cond, inside, q);
            let s2 = s1.after_expr(*then_arm);
            law_scan_of_expression_finds(s1, *then_arm, q, inside);
            let h2 = either(h1, expr_hits(*then_arm, inside, q));
            lemma_then(s, s1, s2, q, inside, h1, expr_hits(*then_arm, inside, q));
            let s3 = s2.after_expr(*else_arm);
            law_scan_of_expression_finds(s2, *else_arm, q, inside);
            let h3 = either(h2, expr_hits(*else_arm, inside, q));
            lemma_then(s, s2, s3, q, inside, h2, expr_hits(*else_arm, inside, q));
            lemma_same(s, s3, q, inside, h3, expr_hits(e, inside, q));
        },
        ExprKind::Lambda { params, body } => {
            let s0 = s.enter(true);
            lemma_enter(s, q, inside);
            lemma_params_hit_nothing(params, q);
            match body {
                LambdaBody::Expr(b) => {
                    let s1 = s0.bind_params(params);
                    lemma_params(s0, q, true, params);
                    let h1 = no_hits();
                    let s2 = s1.after_expr(*b);
                    law_scan_of_expression_finds(s1, *b, q, true);
                    let h2 = either(h1, expr_hits(*b, true, q));
                    lemma_then(s0, s1, s2, q, true, h1, expr_hits(*b, true, q));
                    lemma_lambda(s, s2, q, inside, h2);
                    lemma_same(s, s2.leave(), q, inside, h2, expr_hits(e, inside, q));
                },
                LambdaBody::Block(b) => {
                    let s1 = s0.bind_params(params);
                    lemma_params(s0, q, true, params);
                    let h1 = no_hits();
                    let s2 = s1.after_stmt(*b);
                    law_scan_of_statement_finds(s1, *b, q, true);
                    let h2 = either(h1, stmt_hits(*b, true, q));
                    lemma_then(s0, s1, s2, q, true, h1, stmt_hits(*b, true, q));
                    lemma_lambda(s, s2, q, inside, h2);
                    lemma_same(s, s2.leave(), q, inside, h2, expr_hits(e, inside, q));
                },
            }
        },
        ExprKind::MethodRef { qualifier, named: _, name: _ } => {
            if let Some(t) = qualifier {
                let s1 = s.after_expr(*t);
                law_scan_of_expression_finds(s, *t, q, inside);
                let h1 = expr_hits(*t, inside, q);
                lemma_same(s, s1, q, inside, h1, expr_hits(e, inside, q));
            } else {
                lemma_same(s, s, q, inside, no_hits(), expr_hits(e, inside, q));
            }
        },
        ExprKind::Switch { scrutinee, arms } => {
            let s1 = s.after_expr(*scrutinee);
            law_scan_of_expression_finds(s, *scrutinee, q, inside);
            let h1 = expr_hits(*scrutinee, inside, q);
            let s2 = s1.after_arms(*arms);
            lemma_arms_found(s1, *arms, q, inside);
            let h2 = either(h1, arms_hits(*arms, inside, q));
            lemma_then(s, s1, s2, q, inside, h1, arms_hits(*arms, inside, q));
            lemma_same(s, s2, q, inside, h2, expr_hits(e, inside, q));
        },
        ExprKind::Paren(inner) => {
            let s1 = s.after_expr(*inner);
            law_scan_of_expression_finds(s, *inner, q, inside);
            let h1 = expr_hits(*inner, inside, q);
            lemma_same(s, s1, q, inside, h1, expr_hits(e, inside, q));
        },
        _ => {
            lemma_same(s, s, q, inside, no_hits(), expr_hits(e, inside, q));
        },
    }
}

proof fn lemma_exprs_found(s: ScanState, l: List<Expr>, q: Sought, inside: bool)
    requires
        in_view(s, q, inside),
        !in_exprs(l, inside, declaring(q)),
    ensures
        in_view(s.after_exprs(l), q, inside),
        finds(s, s.after_exprs(l), q, inside, exprs_hits(l, inside, q)),
    decreases l,
{
    lemma_at_rest(s, q, inside);
    if let List::Cons(h, t) = l {
        let s1 = s.after_expr(*h);
        law_scan_of_expression_finds(s, *h, q, inside);
        let h1 = expr_hits(*h, inside, q);
        let s2 = s1.after_exprs(*t);
        lemma_exprs_found(s1, *t, q, inside);
        let h2 = either(h1, exprs_hits(*t, inside, q));
        lemma_then(s, s1, s2, q, inside, h1, exprs_hits(*t, inside, q));
        lemma_same(s, s2, q, inside, h2, exprs_hits(l, inside, q));
    } else {
        lemma_same(s, s, q, inside, no_hits(), exprs_hits(l, inside, q));
    }
}

proof fn lemma_stmts_found(s: ScanState, l: List<Stmt>, q: Sought, inside: bool)
    requires
        in_view(s, q, inside),
        !in_stmts(l, inside, declaring(q)),
    ensures
        in_view(s.after_stmts(l), q, inside),
        finds(s, s.after_stmts(l), q, inside, stmts_hits(l, inside, q)),
    decreases l,
{
    lemma_at_rest(s, q, inside);
    if let List::Cons(h, t) = l {
        let s1 = s.after_stmt(*h);
        law_scan_of_statement_finds(s, *h, q, inside);
        let h1 = stmt_hits(*h, inside, q);
        let s2 = s1.after_stmts(*t);
        lemma_stmts_found(s1, *t, q, inside);
        let h2 = either(h1, stmts_hits(*t, inside, q));
        lemma_then(s, s1, s2, q, inside, h1, stmts_hits(*t, inside, q));
        lemma_same(s, s2, q, inside, h2, stmts_hits(l, inside, q));
    } else {
        lemma_same(s, s, q, inside, no_hits(), stmts_hits(l, inside, q));
    }
}

proof fn lemma_arms_found(s: ScanState, l: List<SwitchArm>, q: Sought, inside: bool)
    requires
        in_view(s, q, inside),
        !in_arms(l, inside, declaring(q)),
    ensures
        in_view(s.after_arms(l), q, inside),
        finds(s, s.after_arms(l), q, inside, arms_hits(l, inside, q)),
    decreases l,
{
    lemma_at_rest(s, q, inside);
    if let List::Cons(h, t) = l {
        let s1 = s.after_labels(h.labels);
        lemma_labels_found(s, h.labels, q, inside);
        let h1 = labels_hits(h.labels, inside, q);
        let s2 = s1.after_stmts(h.body);
        lemma_stmts_found(s1, h.body, q, inside);
        let h2 = either(h1, stmts_hits(h.body, inside, q));
        lemma_then(s, s1, s2, q, inside, h1, stmts_hits(h.body, inside, q));
        let s3 = s2.after_arms(*t);
        lemma_arms_found(s2, *t, q, inside);
        let h3 = either(h2, arms_hits(*t, inside, q));
        lemma_then(s, s2, s3, q, inside, h2, arms_hits(*t, inside, q));
        lemma_same(s, s3, q, inside, h3, arms_hits(l, inside, q));
    } else {
        lemma_same(s, s, q, inside, no_hits(), arms_hits(l, inside, q));
    }
}

proof fn lemma_labels_found(s: ScanState, l: List<SwitchLabel>, q: Sought, inside: bool)
    requires
        in_view(s, q, inside),
        !in_labels(l, inside, declaring(q)),
    ensures
        in_view(s.after_labels(l), q, inside),
        finds(s, s.after_labels(l), q, inside, labels_hits(l, inside, q)),
    decreases l,
{
    lemma_at_rest(s, q, inside);
    if let List::Cons(h, t) = l {
        if let SwitchLabel::Expr(e) = *h {
            let s1 = s.after_expr(e);
            law_scan_of_expression_finds(s, e, q, inside);
            let h1 = expr_hits(e, inside, q);
            let s2 = s1.after_labels(*t);
            lemma_labels_found(s1, *t, q, inside);
            let h2 = either(h1, labels_hits(*t, inside, q));
            lemma_then(s, s1, s2, q, inside, h1, labels_hits(*t, inside, q));
            lemma_same(s, s2, q, inside, h2, labels_hits(l, inside, q));
        } else {
            let s1 = s.after_labels(*t);
            lemma_labels_found(s, *t, q, inside);
            let h1 = labels_hits(*t, inside, q);
            lemma_same(s, s1, q, inside, h1, labels_hits(l, inside, q));
        }
    } else {
        lemma_same(s, s, q, inside, no_hits(), labels_hits(l, inside, q));
    }
}

proof fn lemma_resources_found(s: ScanState, l: List<Resource>, q: Sought, inside: bool)
    requires
        in_view(s, q, inside),
        !in_resources(l, inside, declaring(q)),
    ensures
        in_view(s.after_resources(l), q, inside),
        finds(s, s.after_resources(l), q, inside, resources_hits(l, inside, q)),
    decreases l,
{
    lemma_at_rest(s, q, inside);
    if let List::Cons(h, t) = l {
        assert(!declaring(q)(Part::Local(h.local), inside));
        if let Some(e) = h.initializer {
            let s1 = s.declare_set(h.local);
            lemma_declare(s, q, inside, h.local);
            let h1 = no_hits();
            let s2 = s1.after_expr(e);
            law_scan_of_expression_finds(s1, e, q, inside);
            let h2 = either(h1, expr_hits(e, inside, q));
            lemma_then(s, s1, s2, q, inside, h1, expr_hits(e, inside, q));
            let s3 = s2.after_resources(*t);
            lemma_resources_found(s2, *t, q, inside);
            let h3 = either(h2, resources_hits(*t, inside, q));
            lemma_then(s, s2, s3, q, inside, h2, resources_hits(*t, inside, q));
            lemma_same(s, s3, q, inside, h3, resources_hits(l, inside, q));
        } else {
            let s1 = s.declare_set(h.local);
            lemma_declare(s, q, inside, h.local);
            let h1 = no_hits();
            let s2 = s1.after_resources(*t);
            lemma_resources_found(s1, *t, q, inside);
            let h2 = either(h1, resources_hits(*t, inside, q));
            lemma_then(s, s1, s2, q, inside, h1, resources_hits(*t, inside, q));
            lemma_same(s, s2, q, inside, h2, resources_hits(l, inside, q));
        }
    } else {
        lemma_same(s, s, q, inside, no_hits(), resources_hits(l, inside, q));
    }
}

proof fn lemma_catches_found(s: ScanState, l: List<Catch>, q: Sought, inside: bool)
    requires
        in_view(s, q, inside),
        !in_catches(l, inside, declaring(q)),
    ensures
        in_view(s.after_catches(l), q, inside),
        finds(s, s.after_catches(l), q, inside, catches_hits(l, inside, q)),
    decreases l,
{
    lemma_at_rest(s, q, inside);
    if let List::Cons(h, t) = l {
        assert(!declaring(q)(Part::Local(h.param), inside));
        let s0 = s.enter(false);
        lemma_enter(s, q, inside);
        let s1 = s0.declare_set(h.param);
        lemma_declare(s0, q, inside, h.param);
        let h1 = no_hits();
        let s2 = s1.after_stmt(h.body);
        law_scan_of_statement_finds(s1, h.body, q, inside);
        let h2 = either(h1, stmt_hits(h.body, inside, q));
        lemma_then(s0, s1, s2, q, inside, h1, stmt_hits(h.body, inside, q));
        lemma_scope(s, s2, q, inside, h2);
        let out = s2.leave();
        lemma_catches_found(out, *t, q, inside);
        let last = catches_hits(*t, inside, q);
        lemma_then(s, out, s.after_catches(l), q, inside, h2, last);
        lemma_same(
            s,
            s.after_catches(l),
            q,
            inside,
            either(h2, last),
            catches_hits(l, inside, q),
        );
    } else {
        lemma_same(s, s, q, inside, no_hits(), catches_hits(l, inside, q));
    }
}

/// A scan of a statement finds what the statement holds of a variable that is
/// in view and that nothing in the statement hides: an assignment to a variable
/// that has a value and an update, at any depth, have it known as assigned
/// again, and a reference inside a lambda is a capture.
#[verifier::rlimit(60)]
pub proof fn law_scan_of_statement_finds(s: ScanState, stmt: Stmt, q: Sought, inside: bool)
    requires
        in_view(s, q, inside),
        !in_stmt(stmt, inside, declaring(q)),
    ensures
        in_view(s.after_stmt(stmt), q, inside),
        finds(s, s.after_stmt(stmt), q, inside, stmt_hits(stmt, inside, q)),
    decreases stmt,
{
    lemma_at_rest(s, q, inside);
    match stmt.kind {
        StmtKind::Block(l) => {
            let s0 = s.enter(false);
            lemma_enter(s, q, inside);
            let s1 = s0.after_stmts(*l);
            lemma_stmts_found(s0, *l, q, inside);
            let h1 = stmts_hits(*l, inside, q);
            lemma_scope(s, s1, q, inside, h1);
            lemma_same(s, s1.leave(), q, inside, h1, stmt_hits(stmt, inside, q));
        },
        StmtKind::DeclGroup(l) => {
            let s1 = s.after_stmts(*l);
            lemma_stmts_found(s, *l, q, inside);
            let h1 = stmts_hits(*l, inside, q);
            lemma_same(s, s1, q, inside, h1, stmt_hits(stmt, inside, q));
        },
        StmtKind::Decl { local, initializer } => {
            assert(!declaring(q)(Part::Local(local), inside));
            if let Some(e) = initializer {
                let s1 = s.declare_set(local);
                lemma_declare(s, q, inside, local);
                let h1 = no_hits();
                let s2 = s1.after_expr(e);
                law_scan_of_expression_finds(s1, e, q, inside);
                let h2 = either(h1, expr_hits(e, inside, q));
                lemma_then(s, s1, s2, q, inside, h1, expr_hits(e, inside, q));
                lemma_same(s, s2, q, inside, h2, stmt_hits(stmt, inside, q));
            } else {
                lemma_bind(s, q, inside, local.name, local.id);
                lemma_same(s, s.after_stmt(stmt), q, inside, no_hits(), stmt_hits(stmt, inside, q));
            }
        },
        StmtKind::Expr(e) => {
            let s1 = s.after_expr(e);
            law_scan_of_expression_finds(s, e, q, inside);
            let h1 = expr_hits(e, inside, q);
            lemma_same(s, s1, q, inside, h1, stmt_hits(stmt, inside, q));
        },
        StmtKind::Yield(e) => {
            let s1 = s.after_expr(e);
            law_scan_of_expression_finds(s, e, q, inside);
            let h1 = expr_hits(e, inside, q);
            lemma_same(s, s1, q, inside, h1, stmt_hits(stmt, inside, q));
        },
        StmtKind::Throw(e) => {
            let s1 = s.after_expr(e);
            law_scan_of_expression_finds(s, e, q, inside);
            let h1 = expr_hits(e, inside, q);
            lemma_same(s, s1, q, inside, h1, stmt_hits(stmt, inside, q));
        },
        StmtKind::Labeled { label: _, stmt: inner } => {
            let s1 = s.after_stmt(*inner);
            law_scan_of_statement_finds(s, *inner, q, inside);
            let h1 = stmt_hits(*inner, inside, q);
            lemma_same(s, s1, q, inside, h1, stmt_hits(stmt, inside, q));
        },
        StmtKind::If { cond, then_arm, else_arm } => {
            let s1 = s.after_expr(cond);
            law_scan_of_expression_finds(s, cond, q, inside);
            let h1 = expr_hits(cond, inside, q);
            let then_state = s1.after_stmt(*then_arm);
            law_scan_of_statement_finds(s1, *then_arm, q, inside);
            let first = stmt_hits(*then_arm, inside, q);
            let other = ScanState { counts: s1.counts, ..then_state };
            lemma_other_arm(s1, then_state, q, inside, first);
            lemma_at_rest(other, q, inside);
            let (else_state, second) = match else_arm {
                Some(e) => (other.after_stmt(*e), stmt_hits(*e, inside, q)),
                None => (other, no_hits()),
            };
            if let Some(e) = else_arm {
                law_scan_of_statement_finds(other, *e, q, inside);
            }
            lemma_arms_joined(s1, then_state, else_state, q, inside, first, second);
            let end = s.after_stmt(stmt);
            lemma_then(s, s1, end, q, inside, h1, either(first, second));
            let all = either(h1, either(first, second));
            lemma_same(s, end, q, inside, all, stmt_hits(stmt, inside, q));
        },
        StmtKind::While { cond, body } => {
            let s1 = s.after_expr(cond);
            law_scan_of_expression_finds(s, cond, q, inside);
            let h1 = expr_hits(cond, inside, q);
            let s2 = s1.after_stmt(*body);
            law_scan_of_statement_finds(s1, *body, q, inside);
            let h2 = either(h1, stmt_hits(*body, inside, q));
            lemma_then(s, s1, s2, q, inside, h1, stmt_hits(*body, inside, q));
            lemma_same(s, s2, q, inside, h2, stmt_hits(stmt, inside, q));
        },
        StmtKind::DoWhile { body, cond } => {
            let s1 = s.after_expr(cond);
            law_scan_of_expression_finds(s, cond, q, inside);
            let h1 = expr_hits(cond, inside, q);
            let s2 = s1.after_stmt(*body);
            law_scan_of_statement_finds(s1, *body, q, inside);
            let h2 = either(h1, stmt_hits(*body, inside, q));
            lemma_then(s, s1, s2, q, inside, h1, stmt_hits(*body, inside, q));
            lemma_same(s, s2, q, inside, h2, stmt_hits(stmt, inside, q));
        },
        StmtKind::For { init, cond, step, body } => {
            let s0 = s.enter(false);
            lemma_enter(s, q, inside);
            if let Some(c) = cond {
                let s1 = s0.after_stmts(*init);
                lemma_stmts_found(s0, *init, q, inside);
                let h1 = stmts_hits(*init, inside, q);
                let s2 = s1.after_expr(c);
                law_scan_of_expression_finds(s1, c, q, inside);
                let h2 = either(h1, expr_hits(c, inside, q));
                lemma_then(s0, s1, s2, q, inside, h1, expr_hits(c, inside, q));
                let s3 = s2.after_exprs(step);
                lemma_exprs_found(s2, step, q, inside);
                let h3 = either(h2, exprs_hits(step, inside, q));
                lemma_then(s0, s2, s3, q, inside, h2, exprs_hits(step, inside, q));
                let s4 = s3.after_stmt(*body);
                law_scan_of_statement_finds(s3, *body, q, inside);
                let h4 = either(h3, stmt_hits(*body, inside, q));
                lemma_then(s0, s3, s4, q, inside, h3, stmt_hits(*body, inside, q));
                lemma_scope(s, s4, q, inside, h4);
                lemma_same(s, s4.leave(), q, inside, h4, stmt_hits(stmt, inside, q));
            } else {
                let s1 = s0.after_stmts(*init);
                lemma_stmts_found(s0, *init, q, inside);
                let h1 = stmts_hits(*init, inside, q);
                let s2 = s1.after_exprs(step);
                lemma_exprs_found(s1, step, q, inside);
                let h2 = either(h1, exprs_hits(step, inside, q));
                lemma_then(s0, s1, s2, q, inside, h1, exprs_hits(step, inside, q));
                let s3 = s2.after_stmt(*body);
                law_scan_of_statement_finds(s2, *body, q, inside);
                let h3 = either(h2, stmt_hits(*body, inside, q));
                lemma_then(s0, s2, s3, q, inside, h2, stmt_hits(*body, inside, q));
                lemma_scope(s, s3, q, inside, h3);
                lemma_same(s, s3.leave(), q, inside, h3, stmt_hits(stmt, inside, q));
            }
        },
        StmtKind::ForEach { var, iterable, body } => {
            assert(!declaring(q)(Part::Local(var), inside));
            let s0 = s.enter(false);
            lemma_enter(s, q, inside);
            let s1 = s0.declare_set(var);
            lemma_declare(s0, q, inside, var);
            let h1 = no_hits();
            let s2 = s1.after_expr(iterable);
            law_scan_of_expression_finds(s1, iterable, q, inside);
            let h2 = either(h1, expr_hits(iterable, inside, q));
            lemma_then(s0, s1, s2, q, inside, h1, expr_hits(iterable, inside, q));
            let s3 = s2.after_stmt(*body);
            law_scan_of_statement_finds(s2, *body, q, inside);
            let h3 = either(h2, stmt_hits(*body, inside, q));
            lemma_then(s0, s2, s3, q, inside, h2, stmt_hits(*body, inside, q));
            lemma_scope(s, s3, q, inside, h3);
            lemma_same(s, s3.leave(), q, inside, h3, stmt_hits(stmt, inside, q));
        },
        StmtKind::Switch { scrutinee, arms } => {
            let s1 = s.after_expr(scrutinee);
            law_scan_of_expression_finds(s, scrutinee, q, inside);
            let h1 = expr_hits(scrutinee, inside, q);
            let s2 = s1.after_arms(*arms);
            lemma_arms_found(s1, *arms, q, inside);
            let h2 = either(h1, arms_hits(*arms, inside, q));
            lemma_then(s, s1, s2, q, inside, h1, arms_hits(*arms, inside, q));
            lemma_same(s, s2, q, inside, h2, stmt_hits(stmt, inside, q));
        },
        StmtKind::Return(value) => {
            if let Some(e) = value {
                let s1 = s.after_expr(e);
                law_scan_of_expression_finds(s, e, q, inside);
                let h1 = expr_hits(e, inside, q);
                lemma_same(s, s1, q, inside, h1, stmt_hits(stmt, inside, q));
            } else {
                lemma_same(s, s, q, inside, no_hits(), stmt_hits(stmt, inside, q));
            }
        },
        StmtKind::Synchronized { expr, body } => {
            let s1 = s.after_expr(expr);
            law_scan_of_expression_finds(s, expr, q, inside);
            let h1 = expr_hits(expr, inside, q);
            let s2 = s1.after_stmt(*body);
            law_scan_of_statement_finds(s1, *body, q, inside);
            let h2 = either(h1, stmt_hits(*body, inside, q));
            lemma_then(s, s1, s2, q, inside, h1, stmt_hits(*body, inside, q));
            lemma_same(s, s2, q, inside, h2, stmt_hits(stmt, inside, q));
        },
        StmtKind::Try { resources, body, catches, finally_block } => {
            if let Some(f) = finally_block {
                let s1 = s.after_resources(resources);
                lemma_resources_found(s, resources, q, inside);
                let h1 = resources_hits(resources, inside, q);
                let s2 = s1.after_stmt(*body);
                law_scan_of_statement_finds(s1, *body, q, inside);
                let h2 = either(h1, stmt_hits(*body, inside, q));
                lemma_then(s, s1, s2, q, inside, h1, stmt_hits(*body, inside, q));
                let s3 = s2.after_catches(*catches);
                lemma_catches_found(s2, *catches, q, inside);
                let h3 = either(h2, catches_hits(*catches, inside, q));
                lemma_then(s, s2, s3, q, inside, h2, catches_hits(*catches, inside, q));
                let s4 = s3.after_stmt(*f);
                law_scan_of_statement_finds(s3, *f, q, inside);
                let h4 = either(h3, stmt_hits(*f, inside, q));
                lemma_then(s, s3, s4, q, inside, h3, stmt_hits(*f, inside, q));
                lemma_same(s, s4, q, inside, h4, stmt_hits(stmt, inside, q));
            } else {
                let s1 = s.after_resources(resources);
                lemma_resources_found(s, resources, q, inside);
                let h1 = resources_hits(resources, inside, q);
                let s2 = s1.after_stmt(*body);
                law_scan_of_statement_finds(s1, *body, q, inside);
                let h2 = either(h1, stmt_hits(*body, inside, q));
                lemma_then(s, s1, s2, q, inside, h1, stmt_hits(*body, inside, q));
                let s3 = s2.after_catches(*catches);
                lemma_catches_found(s2, *catches, q, inside);
                let h3 = either(h2, catches_hits(*catches, inside, q));
                lemma_then(s, s2, s3, q, inside, h2, catches_hits(*catches, inside, q));
                lemma_same(s, s3, q, inside, h3, stmt_hits(stmt, inside, q));
            }
        },
        StmtKind::Assert { cond, msg } => {
            if let Some(m) = msg {
                let s1 = s.after_expr(cond);
                law_scan_of_expression_finds(s, cond, q, inside);
                let h1 = expr_hits(cond, inside, q);
                let s2 = s1.after_expr(m);
                law_scan_of_expression_finds(s1, m, q, inside);
                let h2 = either(h1, expr_hits(m, inside, q));
                lemma_then(s, s1, s2, q, inside, h1, expr_hits(m, inside, q));
                lemma_same(s, s2, q, inside, h2, stmt_hits(stmt, inside, q));
            } else {
                let s1 = s.after_expr(cond);
                law_scan_of_expression_finds(s, cond, q, inside);
                let h1 = expr_hits(cond, inside, q);
                lemma_same(s, s1, q, inside, h1, stmt_hits(stmt, inside, q));
            }
        },
        _ => {
            lemma_same(s, s, q, inside, no_hits(), stmt_hits(stmt, inside, q));
        },
    }
}

/// A local variable that is declared under a name of its own is in view behind
/// its declaration. It has a value there exactly where it has an initializer.
pub proof fn law_declaration_brings_into_view(s: ScanState, decl: Stmt, local: Local, expr: u32)
    requires
        s.frames is Cons,
        decl.kind matches StmtKind::Decl { local: l, initializer } && l == local && match initializer {
            Some(e) => !in_expr(
                e,
                false,
                declaring(Sought { name: local.name, id: local.id, expr }),
            ),
            None => true,
        },
        local.id != LAMBDA_PARAMETER,
        !some_frame_holds(s.frames, local.id),
        !has_value(s, local.id),
    ensures
        in_view(
            s.after_stmt(decl),
            Sought { name: local.name, id: local.id, expr },
            false,
        ),
        (decl.kind matches StmtKind::Decl { local: _, initializer } && initializer is Some)
            ==> has_value(s.after_stmt(decl), local.id),
        (decl.kind matches StmtKind::Decl { local: _, initializer } && initializer is None)
            ==> !has_value(s.after_stmt(decl), local.id),
{
    let q = Sought { name: local.name, id: local.id, expr };
    lemma_brought_into_view(s, local, q);
    if let StmtKind::Decl { local: _, initializer } = decl.kind {
        if let Some(e) = initializer {
            law_scan_of_expression_finds(s.declare_set(local), e, q, false);
            assert(has_value(s.after_stmt(decl), local.id)) by {
                reveal(finds);
            }
        }
    }
}

proof fn lemma_brought_into_view(s: ScanState, local: Local, q: Sought)
    requires
        s.frames is Cons,
        q.id == local.id,
        q.name == local.name,
        q.id != LAMBDA_PARAMETER,
        !some_frame_holds(s.frames, local.id),
        count_or(s.counts, local.id, 0) <= 1,
    ensures
        in_view(s.bind(local.name, local.id), q, false),
        in_view(s.declare_set(local), q, false),
{
    reveal(in_view);
    lemma_not_held(s.frames, q);
    if let List::Cons(f, _) = s.frames {
        lemma_put_self(f.names, q);
    }
}

proof fn lemma_not_held(frames: List<Frame>, q: Sought)
    requires
        !some_frame_holds(frames, q.id),
    ensures
        sole_names(frames, q),
    decreases frames,
{
    if let List::Cons(f, rest) = frames {
        lemma_not_held_of(f.names, q);
        lemma_not_held(*rest, q);
    }
}

proof fn lemma_not_held_of(l: List<(Name, u32)>, q: Sought)
    requires
        !holds_id(l, q.id),
    ensures
        sole_name(l, q),
    decreases l,
{
    if let List::Cons(_, t) = l {
        lemma_not_held_of(*t, q);
    }
}

proof fn lemma_put_self(l: List<(Name, u32)>, q: Sought)
    requires
        !holds_id(l, q.id),
    ensures
        sole_name(assoc_put(l, q.name, q.id), q),
        holds_id(assoc_put(l, q.name, q.id), q.id),
        assoc_get(assoc_put(l, q.name, q.id), q.name) == Some(q.id),
    decreases l,
{
    reveal_with_fuel(sole_name, 2);
    reveal_with_fuel(holds_id, 2);
    lemma_assoc(l, q.name, q.id, q.name);
    if let List::Cons(h, t) = l {
        lemma_not_held_of(*t, q);
        if h.0 != q.name {
            lemma_put_self(*t, q);
        }
    }
}

/// Whether one of the variables has the name and the identity, and no other one
/// has either.
pub open spec fn one_of(l: List<Local>, q: Sought) -> bool
    decreases l,
{
    match l {
        List::Nil => false,
        List::Cons(h, t) => if h.name == q.name && h.id == q.id {
            none_of(*t, q)
        } else {
            h.name != q.name && h.id != q.id && one_of(*t, q)
        },
    }
}

pub open spec fn none_of(l: List<Local>, q: Sought) -> bool
    decreases l,
{
    match l {
        List::Nil => true,
        List::Cons(h, t) => h.name != q.name && h.id != q.id && none_of(*t, q),
    }
}

proof fn lemma_no_param(s: ScanState, l: List<Local>, q: Sought)
    requires
        in_view(s, q, false),
        none_of(l, q),
    ensures
        in_view(s.declare_params(l), q, false),
        finds(s, s.declare_params(l), q, false, no_hits()),
    decreases l,
{
    lemma_at_rest(s, q, false);
    if let List::Cons(h, t) = l {
        lemma_declare(s, q, false, *h);
        let s1 = s.declare_set(*h);
        lemma_no_param(s1, *t, q);
        lemma_then(s, s1, s.declare_params(l), q, false, no_hits(), no_hits());
    }
}

proof fn lemma_param(s: ScanState, l: List<Local>, q: Sought)
    requires
        s.frames is Cons,
        one_of(l, q),
        q.id != LAMBDA_PARAMETER,
        !some_frame_holds(s.frames, q.id),
        count_or(s.counts, q.id, 0) == 0,
        s.captures == List::<Capture>::Nil,
        !s.mutated.contains(q.id),
    ensures
        in_view(s.declare_params(l), q, false),
        has_value(s.declare_params(l), q.id),
        !s.declare_params(l).mutated.contains(q.id),
        !s.declare_params(l).captures.has(capture_of(q)),
    decreases l,
{
    if let List::Cons(h, t) = l {
        let s1 = s.declare_set(*h);
        if h.name == q.name && h.id == q.id {
            lemma_brought_into_view(s, *h, q);
            lemma_no_param(s1, *t, q);
            reveal(finds);
        } else {
            if let List::Cons(f, _) = s.frames {
                lemma_not_put(f.names, h.name, h.id, q.id);
            }
            lemma_param(s1, *t, q);
        }
    }
}

proof fn lemma_not_put(l: List<(Name, u32)>, name: Name, id: u32, other: u32)
    requires
        !holds_id(l, other),
        id != other,
    ensures
        !holds_id(assoc_put(l, name, id), other),
    decreases l,
{
    reveal_with_fuel(holds_id, 2);
    if let List::Cons(h, t) = l {
        if h.0 != name {
            lemma_not_put(*t, name, id, other);
        }
    }
}

proof fn lemma_reversed_has(l: List<Capture>, acc: List<Capture>, c: Capture)
    ensures
        l.rev_onto(acc).has(c) == (l.has(c) || acc.has(c)),
    decreases l,
{
    if let List::Cons(h, t) = l {
        lemma_reversed_has(*t, List::Cons(h, Box::new(acc)), c);
    }
}

/// A parameter of a body that nothing in it hides is assigned again exactly
/// where an assignment or an update of it stands at any depth of the body, in a
/// lambda or not. It is captured exactly by the references to it at any depth
/// of a lambda. Both together, and nothing less, have the reference reported.
pub proof fn law_parameters_that_are_not_final(body: Body, q: Sought)
    requires
        one_of(body.params, q),
        q.id != LAMBDA_PARAMETER,
        !in_stmts(body.stmts, false, declaring(q)),
    ensures
        scanned(body).mutated.contains(q.id) == (in_stmts(body.stmts, false, assigning(q))
            || in_stmts(body.stmts, false, updating(q))),
        scanned(body).captures.has(capture_of(q)) == in_stmts(body.stmts, false, captured_by(q)),
        offending(scanned(body).captures.rev_onto(List::Nil), scanned(body).mutated).has(
            capture_of(q),
        ) == (in_stmts(body.stmts, false, captured_by(q)) && (in_stmts(
            body.stmts,
            false,
            assigning(q),
        ) || in_stmts(body.stmts, false, updating(q)))),
{
    let s = scan_start();
    reveal_with_fuel(some_frame_holds, 2);
    lemma_param(s, body.params, q);
    let s1 = s.declare_params(body.params);
    lemma_stmts_found(s1, body.stmts, q, false);
    reveal(finds);
    let last = scanned(body);
    lemma_reversed_has(last.captures, List::Nil, capture_of(q));
    law_offending_captures(last.captures.rev_onto(List::Nil), last.mutated, capture_of(q));
}

/// A local variable that nothing in the statements behind its declaration hides
/// is captured exactly by the references to it at any depth of a lambda among
/// them. With an initializer it is assigned again exactly where an assignment
/// or an update of it stands among them, at any depth. Without one, an update
/// has it assigned again, and nothing but assignments and updates does.
pub proof fn law_locals_that_are_not_final(
    s: ScanState,
    local: Local,
    initializer: Option<Expr>,
    decl: Stmt,
    rest: List<Stmt>,
    expr: u32,
)
    requires
        s.frames is Cons,
        decl.kind == (StmtKind::Decl { local, initializer }),
        local.id != LAMBDA_PARAMETER,
        !some_frame_holds(s.frames, local.id),
        !has_value(s, local.id),
        !s.mutated.contains(local.id),
        !s.captures.has(Capture { local: local.id, name: local.name, expr }),
        match initializer {
            Some(e) => !in_expr(
                e,
                false,
                declaring(Sought { name: local.name, id: local.id, expr }),
            ) && !in_expr(e, false, assigning(Sought { name: local.name, id: local.id, expr }))
                && !in_expr(e, false, updating(Sought { name: local.name, id: local.id, expr }))
                && !in_expr(e, false, captured_by(Sought { name: local.name, id: local.id, expr })),
            None => true,
        },
        !in_stmts(rest, false, declaring(Sought { name: local.name, id: local.id, expr })),
    ensures
        ({
            let q = Sought { name: local.name, id: local.id, expr };
            let end = s.after_stmt(decl).after_stmts(rest);
            let assigned = in_stmts(rest, false, assigning(q));
            let updated = in_stmts(rest, false, updating(q));
            &&& end.captures.has(capture_of(q)) == in_stmts(rest, false, captured_by(q))
            &&& initializer is Some ==> end.mutated.contains(q.id) == (assigned || updated)
            &&& updated ==> end.mutated.contains(q.id)
            &&& end.mutated.contains(q.id) ==> assigned || updated
        }),
{
    let q = Sought { name: local.name, id: local.id, expr };
    law_declaration_brings_into_view(s, decl, local, expr);
    let s1 = s.after_stmt(decl);
    if let Some(e) = initializer {
        lemma_brought_into_view(s, local, q);
        law_scan_of_expression_finds(s.declare_set(local), e, q, false);
    }
    lemma_stmts_found(s1, rest, q, false);
    reveal(finds);
}

/// A variable that is in view and is assigned by two statements, one behind the
/// other, is assigned again, at whatever depth the assignments stand.
pub proof fn law_assigned_twice(s: ScanState, a: Stmt, b: Stmt, q: Sought, inside: bool)
    requires
        in_view(s, q, inside),
        !in_stmt(a, inside, declaring(q)),
        !in_stmt(b, inside, declaring(q)),
        in_stmt(a, inside, assigning(q)),
        in_stmt(b, inside, assigning(q)),
    ensures
        s.after_stmt(a).after_stmt(b).mutated.contains(q.id),
{
    law_scan_of_statement_finds(s, a, q, inside);
    law_scan_of_statement_finds(s.after_stmt(a), b, q, inside);
    reveal(finds);
}

/// The arms of an `if` are alternatives: where a variable without a value is
/// assigned on at most one path of each arm, joining the arms does not have it
/// assigned again, and it has a value behind the `if` exactly where one of the
/// arms gives it one.
pub proof fn law_arms_are_alternatives(
    s: ScanState,
    saved: Map<u32, u32>,
    then_counts: Map<u32, u32>,
    else_counts: Map<u32, u32>,
    id: u32,
)
    requires
        count_or(saved, id, 0) == 0,
        !s.initialized.contains(id),
    ensures
        s.join(saved, then_counts, else_counts).mutated.contains(id) == s.mutated.contains(id),
        has_value(s.join(saved, then_counts, else_counts), id) == (count_or(then_counts, id, 0) > 0
            || count_or(else_counts, id, 0) > 0),
{
}

} // verus!
