//! The written types of a body, each with the node it belongs to.
use crate::body::{
    Body, Catch, Expr, ExprKind, LambdaBody, LambdaParam, Local, Pattern, PatternKind, Resource,
    Stmt, StmtKind, SwitchArm, SwitchLabel,
};
use crate::items::{RefName, TypeRef, TypeShape};
use crate::list::{Data, List};
use vstd::prelude::*;

verus! {

/// The node a report about a body belongs to.
#[derive(Clone, Copy, Debug, PartialEq, Eq, Structural)]
pub enum DiagLocation {
    Local(u32),
    Expr(u32),
    Pattern(u32),
}

impl Data for DiagLocation {
    fn copy(&self) -> (r: Self) {
        *self
    }

    fn same(&self, other: &Self) -> (r: bool) {
        *self == *other
    }
}

/// Written types with the nodes they belong to.
pub type Refs = List<(DiagLocation, TypeRef)>;

/// An annotation as a reference to its type.
pub open spec fn annotation_type(a: RefName) -> TypeRef {
    TypeRef {
        shape: TypeShape::Named { name: a.name, args: Box::new(List::Nil) },
        refs: List::Cons(Box::new(a), Box::new(List::Nil)),
    }
}

/// An annotation as a reference to its type: one name, at the place of the
/// annotation.
pub fn annotation_reference(a: &RefName) -> (r: TypeRef)
    ensures
        r == annotation_type(*a),
{
    TypeRef {
        shape: TypeShape::Named { name: a.name, args: Box::new(List::Nil) },
        refs: List::cons(*a, List::Nil),
    }
}

/// One written type.
pub open spec fn one(at: DiagLocation, ty: TypeRef) -> Refs {
    List::Cons(Box::new((at, ty)), Box::new(List::Nil))
}

/// A written type, where there is one.
pub open spec fn optional(at: DiagLocation, ty: Option<TypeRef>) -> Refs {
    match ty {
        Some(ty) => one(at, ty),
        None => List::Nil,
    }
}

/// The annotations as references to their types.
pub open spec fn annotation_refs(at: DiagLocation, l: List<RefName>) -> Refs
    decreases l,
{
    match l {
        List::Nil => List::Nil,
        List::Cons(h, t) => List::Cons(
            Box::new((at, annotation_type(*h))),
            Box::new(annotation_refs(at, *t)),
        ),
    }
}

/// Several written types at one node.
pub open spec fn several(at: DiagLocation, l: List<TypeRef>) -> Refs
    decreases l,
{
    match l {
        List::Nil => List::Nil,
        List::Cons(h, t) => List::Cons(Box::new((at, *h)), Box::new(several(at, *t))),
    }
}

/// The written types of a variable declaration.
pub open spec fn local_refs(local: Local) -> Refs {
    let at = DiagLocation::Local(local.id);
    optional(at, local.ty).plus(annotation_refs(at, local.annotations))
}

/// The written types of a pattern.
pub open spec fn pattern_refs(p: Pattern) -> Refs
    decreases p,
{
    let at = DiagLocation::Pattern(p.id);
    match p.kind {
        PatternKind::Type { ty, binding } => one(at, ty).plus(
            match binding {
                Some(local) => annotation_refs(at, local.annotations),
                None => List::Nil,
            },
        ),
        PatternKind::Record { ty, components } => one(at, ty).plus(patterns_refs(*components)),
        PatternKind::MatchAll => List::Nil,
    }
}

/// The written types of the patterns.
pub open spec fn patterns_refs(l: List<Pattern>) -> Refs
    decreases l,
{
    match l {
        List::Nil => List::Nil,
        List::Cons(h, t) => pattern_refs(*h).plus(patterns_refs(*t)),
    }
}

/// The written types of the parameters of a lambda.
pub open spec fn lambda_param_refs(at: DiagLocation, l: List<LambdaParam>) -> Refs
    decreases l,
{
    match l {
        List::Nil => List::Nil,
        List::Cons(h, t) => optional(at, h.ty).plus(annotation_refs(at, h.annotations)).plus(
            lambda_param_refs(at, *t),
        ),
    }
}

/// The written types of an expression and the expressions inside it, in the
/// order in which they are looked at. The type of a class that is created
/// inside an instance is a member of the type of that instance, and is no
/// reference of its own.
pub open spec fn expr_refs(e: Expr) -> Refs
    decreases e,
{
    let at = DiagLocation::Expr(e.id);
    match e.kind {
        ExprKind::New { ty, args, diamond: _, anonymous: _, receiver } => match receiver {
            None => one(at, ty).plus(exprs_refs(*args)),
            Some(r) => exprs_refs(*args).plus(expr_refs(*r)),
        },
        ExprKind::NewArray { ty, dims, initializer } => one(at, ty).plus(exprs_refs(*dims)).plus(
            match initializer {
                Some(l) => exprs_refs(*l),
                None => List::Nil,
            },
        ),
        ExprKind::Cast { ty, expr } => one(at, ty).plus(expr_refs(*expr)),
        ExprKind::InstanceOf { expr, pattern, ty } => optional(at, ty).plus(
            expr_refs(*expr),
        ).plus(
            match pattern {
                Some(p) => pattern_refs(*p),
                None => List::Nil,
            },
        ),
        ExprKind::ClassLit(ty) => one(at, ty),
        ExprKind::MethodCall { receiver, name: _, type_args, args } => several(at, type_args).plus(
            match receiver {
                Some(r) => expr_refs(*r),
                None => List::Nil,
            },
        ).plus(exprs_refs(*args)),
        ExprKind::MethodRef { qualifier, named, name: _ } => optional(at, named).plus(
            match qualifier {
                Some(q) => expr_refs(*q),
                None => List::Nil,
            },
        ),
        ExprKind::Lambda { params, body } => lambda_param_refs(at, params).plus(
            match body {
                LambdaBody::Expr(b) => expr_refs(*b),
                LambdaBody::Block(s) => stmt_refs(*s),
            },
        ),
        ExprKind::This { qualifier } => optional(at, qualifier),
        ExprKind::Super { qualifier } => optional(at, qualifier),
        ExprKind::FieldAccess { target, name: _ } => match target {
            Some(t) => expr_refs(*t),
            None => List::Nil,
        },
        ExprKind::ArrayAccess { array, index } => expr_refs(*array).plus(expr_refs(*index)),
        ExprKind::Unary { op: _, expr } => expr_refs(*expr),
        ExprKind::Postfix { expr } => expr_refs(*expr),
        ExprKind::Binary { op: _, lhs, rhs } => expr_refs(*lhs).plus(expr_refs(*rhs)),
        ExprKind::Assign { op: _, lhs, rhs } => expr_refs(*lhs).plus(expr_refs(*rhs)),
        ExprKind::Conditional { cond, then_arm, else_arm } => expr_refs(*cond).plus(
            expr_refs(*then_arm),
        ).plus(expr_refs(*else_arm)),
        ExprKind::Paren(inner) => expr_refs(*inner),
        ExprKind::Switch { scrutinee, arms } => expr_refs(*scrutinee).plus(arms_refs(*arms)),
        ExprKind::CtorCall { args, target: _ } => exprs_refs(*args),
        ExprKind::ArrayInit(l) => exprs_refs(*l),
        ExprKind::Template { args } => exprs_refs(*args),
        ExprKind::Literal(_) => List::Nil,
        ExprKind::Null => List::Nil,
        ExprKind::Var(_) => List::Nil,
        ExprKind::NamePath(_) => List::Nil,
        ExprKind::Missing => List::Nil,
    }
}

/// The written types of the expressions.
pub open spec fn exprs_refs(l: List<Expr>) -> Refs
    decreases l,
{
    match l {
        List::Nil => List::Nil,
        List::Cons(h, t) => expr_refs(*h).plus(exprs_refs(*t)),
    }
}

/// The written types of the labels.
pub open spec fn labels_refs(l: List<SwitchLabel>) -> Refs
    decreases l,
{
    match l {
        List::Nil => List::Nil,
        List::Cons(h, t) => (match *h {
            SwitchLabel::Expr(e) => expr_refs(e),
            SwitchLabel::Guard(e) => expr_refs(e),
            SwitchLabel::Pattern(p) => pattern_refs(p),
        }).plus(labels_refs(*t)),
    }
}

/// The written types of the arms of a switch.
pub open spec fn arms_refs(l: List<SwitchArm>) -> Refs
    decreases l,
{
    match l {
        List::Nil => List::Nil,
        List::Cons(h, t) => labels_refs(h.labels).plus(stmts_refs(h.body)).plus(arms_refs(*t)),
    }
}

/// The written types of the resources of a `try` statement.
pub open spec fn resources_refs(l: List<Resource>) -> Refs
    decreases l,
{
    match l {
        List::Nil => List::Nil,
        List::Cons(h, t) => local_refs(h.local).plus(
            match h.initializer {
                Some(e) => expr_refs(e),
                None => List::Nil,
            },
        ).plus(resources_refs(*t)),
    }
}

/// The written types of the `catch` clauses.
pub open spec fn catches_refs(l: List<Catch>) -> Refs
    decreases l,
{
    match l {
        List::Nil => List::Nil,
        List::Cons(h, t) => local_refs(h.param).plus(stmt_refs(h.body)).plus(catches_refs(*t)),
    }
}

/// The written types of a statement and everything inside it.
pub open spec fn stmt_refs(s: Stmt) -> Refs
    decreases s,
{
    match s.kind {
        StmtKind::Empty => List::Nil,
        StmtKind::Missing => List::Nil,
        StmtKind::LocalClass => List::Nil,
        StmtKind::Block(l) => stmts_refs(*l),
        StmtKind::DeclGroup(l) => stmts_refs(*l),
        StmtKind::Decl { local, initializer } => local_refs(local).plus(
            match initializer {
                Some(e) => expr_refs(e),
                None => List::Nil,
            },
        ),
        StmtKind::Expr(e) => expr_refs(e),
        StmtKind::Labeled { label: _, stmt } => stmt_refs(*stmt),
        StmtKind::If { cond, then_arm, else_arm } => expr_refs(cond).plus(
            stmt_refs(*then_arm),
        ).plus(
            match else_arm {
                Some(els) => stmt_refs(*els),
                None => List::Nil,
            },
        ),
        StmtKind::While { cond, body } => expr_refs(cond).plus(stmt_refs(*body)),
        StmtKind::DoWhile { body, cond } => stmt_refs(*body).plus(expr_refs(cond)),
        StmtKind::For { init, cond, step, body } => stmts_refs(*init).plus(
            match cond {
                Some(c) => expr_refs(c),
                None => List::Nil,
            },
        ).plus(exprs_refs(step)).plus(stmt_refs(*body)),
        StmtKind::ForEach { var, iterable, body } => local_refs(var).plus(
            expr_refs(iterable),
        ).plus(stmt_refs(*body)),
        StmtKind::Switch { scrutinee, arms } => expr_refs(scrutinee).plus(arms_refs(*arms)),
        StmtKind::Return(value) => match value {
            Some(e) => expr_refs(e),
            None => List::Nil,
        },
        StmtKind::Yield(e) => expr_refs(e),
        StmtKind::Throw(e) => expr_refs(e),
        StmtKind::Break(_) => List::Nil,
        StmtKind::Continue(_) => List::Nil,
        StmtKind::Synchronized { expr, body } => expr_refs(expr).plus(stmt_refs(*body)),
        StmtKind::Try { resources, body, catches, finally_block } => resources_refs(
            resources,
        ).plus(stmt_refs(*body)).plus(catches_refs(*catches)).plus(
            match finally_block {
                Some(f) => stmt_refs(*f),
                None => List::Nil,
            },
        ),
        StmtKind::Assert { cond, msg } => expr_refs(cond).plus(
            match msg {
                Some(m) => expr_refs(m),
                None => List::Nil,
            },
        ),
    }
}

/// The written types of the statements.
pub open spec fn stmts_refs(l: List<Stmt>) -> Refs
    decreases l,
{
    match l {
        List::Nil => List::Nil,
        List::Cons(h, t) => stmt_refs(*h).plus(stmts_refs(*t)),
    }
}

fn single(at: DiagLocation, ty: &TypeRef) -> (r: Refs)
    ensures
        r == one(at, *ty),
{
    List::cons((at, ty.copy()), List::Nil)
}

fn record_optional(at: DiagLocation, ty: &Option<TypeRef>) -> (r: Refs)
    ensures
        r == optional(at, *ty),
{
    match ty {
        Some(ty) => single(at, ty),
        None => List::Nil,
    }
}

fn record_annotations(at: DiagLocation, l: &List<RefName>) -> (r: Refs)
    ensures
        r == annotation_refs(at, *l),
    decreases l,
{
    match l {
        List::Nil => List::Nil,
        List::Cons(h, t) => List::cons((at, annotation_reference(h)), record_annotations(at, t)),
    }
}

fn record_several(at: DiagLocation, l: &List<TypeRef>) -> (r: Refs)
    ensures
        r == several(at, *l),
    decreases l,
{
    match l {
        List::Nil => List::Nil,
        List::Cons(h, t) => List::cons((at, h.copy()), record_several(at, t)),
    }
}

/// The written types of a variable declaration.
pub fn record_local(local: &Local) -> (r: Refs)
    ensures
        r == local_refs(*local),
{
    let at = DiagLocation::Local(local.id);
    record_optional(at, &local.ty).append(record_annotations(at, &local.annotations))
}

/// The written types of a pattern.
pub fn record_pattern(p: &Pattern) -> (r: Refs)
    ensures
        r == pattern_refs(*p),
    decreases p,
{
    let at = DiagLocation::Pattern(p.id);
    match &p.kind {
        PatternKind::Type { ty, binding } => {
            let rest = match binding {
                Some(local) => record_annotations(at, &local.annotations),
                None => List::Nil,
            };
            single(at, ty).append(rest)
        },
        PatternKind::Record { ty, components } => single(at, ty).append(
            record_patterns(components),
        ),
        PatternKind::MatchAll => List::Nil,
    }
}

fn record_patterns(l: &List<Pattern>) -> (r: Refs)
    ensures
        r == patterns_refs(*l),
    decreases l,
{
    match l {
        List::Nil => List::Nil,
        List::Cons(h, t) => record_pattern(h).append(record_patterns(t)),
    }
}

fn record_lambda_params(at: DiagLocation, l: &List<LambdaParam>) -> (r: Refs)
    ensures
        r == lambda_param_refs(at, *l),
    decreases l,
{
    match l {
        List::Nil => List::Nil,
        List::Cons(h, t) => record_optional(at, &h.ty).append(
            record_annotations(at, &h.annotations),
        ).append(record_lambda_params(at, t)),
    }
}

/// The written types of an expression and the expressions inside it.
pub fn walk_expr(e: &Expr) -> (r: Refs)
    ensures
        r == expr_refs(*e),
    decreases e,
{
    let at = DiagLocation::Expr(e.id);
    match &e.kind {
        ExprKind::New { ty, args, diamond: _, anonymous: _, receiver } => match receiver {
            None => single(at, ty).append(walk_exprs(args)),
            Some(r) => walk_exprs(args).append(walk_expr(r)),
        },
        ExprKind::NewArray { ty, dims, initializer } => {
            let rest = match initializer {
                Some(l) => walk_exprs(l),
                None => List::Nil,
            };
            single(at, ty).append(walk_exprs(dims)).append(rest)
        },
        ExprKind::Cast { ty, expr } => single(at, ty).append(walk_expr(expr)),
        ExprKind::InstanceOf { expr, pattern, ty } => {
            let rest = match pattern {
                Some(p) => record_pattern(p),
                None => List::Nil,
            };
            record_optional(at, ty).append(walk_expr(expr)).append(rest)
        },
        ExprKind::ClassLit(ty) => single(at, ty),
        ExprKind::MethodCall { receiver, name: _, type_args, args } => {
            let from = match receiver {
                Some(r) => walk_expr(r),
                None => List::Nil,
            };
            record_several(at, type_args).append(from).append(walk_exprs(args))
        },
        ExprKind::MethodRef { qualifier, named, name: _ } => {
            let rest = match qualifier {
                Some(q) => walk_expr(q),
                None => List::Nil,
            };
            record_optional(at, named).append(rest)
        },
        ExprKind::Lambda { params, body } => {
            let rest = match body {
                LambdaBody::Expr(b) => walk_expr(b),
                LambdaBody::Block(s) => walk_stmt(s),
            };
            record_lambda_params(at, params).append(rest)
        },
        ExprKind::This { qualifier } => record_optional(at, qualifier),
        ExprKind::Super { qualifier } => record_optional(at, qualifier),
        ExprKind::FieldAccess { target, name: _ } => match target {
            Some(t) => walk_expr(t),
            None => List::Nil,
        },
        ExprKind::ArrayAccess { array, index } => walk_expr(array).append(walk_expr(index)),
        ExprKind::Unary { op: _, expr } => walk_expr(expr),
        ExprKind::Postfix { expr } => walk_expr(expr),
        ExprKind::Binary { op: _, lhs, rhs } => walk_expr(lhs).append(walk_expr(rhs)),
        ExprKind::Assign { op: _, lhs, rhs } => walk_expr(lhs).append(walk_expr(rhs)),
        ExprKind::Conditional { cond, then_arm, else_arm } => walk_expr(cond).append(
            walk_expr(then_arm),
        ).append(walk_expr(else_arm)),
        ExprKind::Paren(inner) => walk_expr(inner),
        ExprKind::Switch { scrutinee, arms } => walk_expr(scrutinee).append(walk_arms(arms)),
        ExprKind::CtorCall { args, target: _ } => walk_exprs(args),
        ExprKind::ArrayInit(l) => walk_exprs(l),
        ExprKind::Template { args } => walk_exprs(args),
        ExprKind::Literal(_) => List::Nil,
        ExprKind::Null => List::Nil,
        ExprKind::Var(_) => List::Nil,
        ExprKind::NamePath(_) => List::Nil,
        ExprKind::Missing => List::Nil,
    }
}

fn walk_exprs(l: &List<Expr>) -> (r: Refs)
    ensures
        r == exprs_refs(*l),
    decreases l,
{
    match l {
        List::Nil => List::Nil,
        List::Cons(h, t) => walk_expr(h).append(walk_exprs(t)),
    }
}

fn walk_labels(l: &List<SwitchLabel>) -> (r: Refs)
    ensures
        r == labels_refs(*l),
    decreases l,
{
    match l {
        List::Nil => List::Nil,
        List::Cons(h, t) => {
            let here = match &**h {
                SwitchLabel::Expr(e) => walk_expr(e),
                SwitchLabel::Guard(e) => walk_expr(e),
                SwitchLabel::Pattern(p) => record_pattern(p),
            };
            here.append(walk_labels(t))
        },
    }
}

fn walk_arms(l: &List<SwitchArm>) -> (r: Refs)
    ensures
        r == arms_refs(*l),
    decreases l,
{
    match l {
        List::Nil => List::Nil,
        List::Cons(h, t) => walk_labels(&h.labels).append(walk_stmts(&h.body)).append(
            walk_arms(t),
        ),
    }
}

fn walk_resources(l: &List<Resource>) -> (r: Refs)
    ensures
        r == resources_refs(*l),
    decreases l,
{
    match l {
        List::Nil => List::Nil,
        List::Cons(h, t) => {
            let init = match &h.initializer {
                Some(e) => walk_expr(e),
                None => List::Nil,
            };
            record_local(&h.local).append(init).append(walk_resources(t))
        },
    }
}

fn walk_catches(l: &List<Catch>) -> (r: Refs)
    ensures
        r == catches_refs(*l),
    decreases l,
{
    match l {
        List::Nil => List::Nil,
        List::Cons(h, t) => record_local(&h.param).append(walk_stmt(&h.body)).append(
            walk_catches(t),
        ),
    }
}

/// The written types of a statement and everything inside it.
pub fn walk_stmt(s: &Stmt) -> (r: Refs)
    ensures
        r == stmt_refs(*s),
    decreases s,
{
    match &s.kind {
        StmtKind::Empty => List::Nil,
        StmtKind::Missing => List::Nil,
        StmtKind::LocalClass => List::Nil,
        StmtKind::Block(l) => walk_stmts(l),
        StmtKind::DeclGroup(l) => walk_stmts(l),
        StmtKind::Decl { local, initializer } => {
            let rest = match initializer {
                Some(e) => walk_expr(e),
                None => List::Nil,
            };
            record_local(local).append(rest)
        },
        StmtKind::Expr(e) => walk_expr(e),
        StmtKind::Labeled { label: _, stmt } => walk_stmt(stmt),
        StmtKind::If { cond, then_arm, else_arm } => {
            let rest = match else_arm {
                Some(els) => walk_stmt(els),
                None => List::Nil,
            };
            walk_expr(cond).append(walk_stmt(then_arm)).append(rest)
        },
        StmtKind::While { cond, body } => walk_expr(cond).append(walk_stmt(body)),
        StmtKind::DoWhile { body, cond } => walk_stmt(body).append(walk_expr(cond)),
        StmtKind::For { init, cond, step, body } => {
            let test = match cond {
                Some(c) => walk_expr(c),
                None => List::Nil,
            };
            walk_stmts(init).append(test).append(walk_exprs(step)).append(walk_stmt(body))
        },
        StmtKind::ForEach { var, iterable, body } => record_local(var).append(
            walk_expr(iterable),
        ).append(walk_stmt(body)),
        StmtKind::Switch { scrutinee, arms } => walk_expr(scrutinee).append(walk_arms(arms)),
        StmtKind::Return(value) => match value {
            Some(e) => walk_expr(e),
            None => List::Nil,
        },
        StmtKind::Yield(e) => walk_expr(e),
        StmtKind::Throw(e) => walk_expr(e),
        StmtKind::Break(_) => List::Nil,
        StmtKind::Continue(_) => List::Nil,
        StmtKind::Synchronized { expr, body } => walk_expr(expr).append(walk_stmt(body)),
        StmtKind::Try { resources, body, catches, finally_block } => {
            let rest = match finally_block {
                Some(f) => walk_stmt(f),
                None => List::Nil,
            };
            walk_resources(resources).append(walk_stmt(body)).append(
                walk_catches(catches),
            ).append(rest)
        },
        StmtKind::Assert { cond, msg } => {
            let rest = match msg {
                Some(m) => walk_expr(m),
                None => List::Nil,
            };
            walk_expr(cond).append(rest)
        },
    }
}

fn walk_stmts(l: &List<Stmt>) -> (r: Refs)
    ensures
        r == stmts_refs(*l),
    decreases l,
{
    match l {
        List::Nil => List::Nil,
        List::Cons(h, t) => walk_stmt(h).append(walk_stmts(t)),
    }
}

/// The written types of a body. Its parameters belong to the signature and
/// are not among them.
pub fn body_type_refs(body: &Body) -> (r: Refs)
    ensures
        r == stmts_refs(body.stmts),
{
    walk_stmts(&body.stmts)
}

/// The written types of expressions that belong to no body: a field
/// initializer, or the arguments of an enum constant.
pub fn expr_forest_type_refs(exprs: &List<Expr>) -> (r: Refs)
    ensures
        r == exprs_refs(*exprs),
{
    walk_exprs(exprs)
}

/// The written types of statements in sequence are those of the one followed
/// by those of the other.
pub proof fn law_refs_of_sequence(a: List<Stmt>, b: List<Stmt>)
    ensures
        stmts_refs(a.plus(b)) == stmts_refs(a).plus(stmts_refs(b)),
    decreases a,
{
    match a {
        List::Nil => {},
        List::Cons(h, t) => {
            law_refs_of_sequence(*t, b);
            crate::list::lemma_plus_assoc(stmt_refs(*h), stmts_refs(*t), stmts_refs(b));
        },
    }
}

} // verus!
