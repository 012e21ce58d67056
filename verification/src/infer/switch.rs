//! Switches, constants, raw and reifiable types, and checked exceptions.
use crate::body::{Const, Expr, ExprKind, Local, Stmt, StmtKind, SwitchArm, SwitchLabel};
use crate::db::TyDatabase;
use crate::ids::{insert_into, new_set};
use crate::infer::ctx::{is_string, string_type, take, InferCtx, Site};
use crate::infer::diag::TypeError;
use crate::infer::local::{find_local, found_local};
use crate::infer::operator::{fits, fits_primitive};
use crate::items::{RefName, TextRange, TypeRef, TypeShape};
use crate::list::{assoc_get, get_assoc, Data, List};
use crate::names::Name;
use crate::ty::{class_of, PrimitiveType, Ty, WildcardBound};
use crate::walk::DiagLocation;
use rustc_hash::FxHashSet;
use vstd::prelude::*;

verus! {

/// Whether a switch can select by a value of the type: a small integral type or
/// a reference.
pub open spec fn selectable(t: Ty) -> bool {
    match t {
        Ty::Primitive(p) => p == PrimitiveType::Byte || p == PrimitiveType::Short || p
            == PrimitiveType::Char || p == PrimitiveType::Int,
        Ty::Reference { name: _, args: _, local: _ } => true,
        Ty::TypeVar { scope: _, bounds: _, lower: _ } => true,
        Ty::Array(_) => true,
        _ => false,
    }
}

/// Whether a switch can select by a value of the type.
pub fn switchable(t: &Ty) -> (r: bool)
    ensures
        r == selectable(*t),
{
    match t {
        Ty::Primitive(p) => *p == PrimitiveType::Byte || *p == PrimitiveType::Short || *p
            == PrimitiveType::Char || *p == PrimitiveType::Int,
        Ty::Reference { name: _, args: _, local: _ } => true,
        Ty::TypeVar { scope: _, bounds: _, lower: _ } => true,
        Ty::Array(_) => true,
        _ => false,
    }
}

/// Whether one of the labels is a simple name.
pub open spec fn label_names(l: List<SwitchLabel>, name: Name) -> bool
    decreases l,
{
    match l {
        List::Nil => false,
        List::Cons(h, t) => (match *h {
            SwitchLabel::Expr(e) => e.kind == ExprKind::Var(name),
            _ => false,
        }) || label_names(*t, name),
    }
}

/// Whether one of the labels is `default`.
pub open spec fn label_default(l: List<SwitchLabel>) -> bool
    decreases l,
{
    match l {
        List::Nil => false,
        List::Cons(h, t) => (match *h {
            SwitchLabel::Expr(e) => e.kind is Missing,
            _ => false,
        }) || label_default(*t),
    }
}

pub open spec fn arm_names(l: List<SwitchArm>, name: Name) -> bool
    decreases l,
{
    match l {
        List::Nil => false,
        List::Cons(h, t) => label_names(h.labels, name) || arm_names(*t, name),
    }
}

/// Whether one of the arms is the default.
pub open spec fn arm_default(l: List<SwitchArm>) -> bool
    decreases l,
{
    match l {
        List::Nil => false,
        List::Cons(h, t) => label_default(h.labels) || arm_default(*t),
    }
}

/// Whether every name is a label of an arm.
pub open spec fn all_named(l: List<Name>, arms: List<SwitchArm>) -> bool
    decreases l,
{
    match l {
        List::Nil => true,
        List::Cons(h, t) => arm_names(arms, *h) && all_named(*t, arms),
    }
}

fn has_label_name(l: &List<SwitchLabel>, name: Name) -> (r: bool)
    ensures
        r == label_names(*l, name),
    decreases l,
{
    match l {
        List::Nil => false,
        List::Cons(h, t) => {
            let here = match &**h {
                SwitchLabel::Expr(e) => match &e.kind {
                    ExprKind::Var(n) => *n == name,
                    _ => false,
                },
                _ => false,
            };
            here || has_label_name(t, name)
        },
    }
}

fn has_default_label(l: &List<SwitchLabel>) -> (r: bool)
    ensures
        r == label_default(*l),
    decreases l,
{
    match l {
        List::Nil => false,
        List::Cons(h, t) => {
            let here = match &**h {
                SwitchLabel::Expr(e) => is_missing(e),
                _ => false,
            };
            here || has_default_label(t)
        },
    }
}

fn has_arm_name(l: &List<SwitchArm>, name: Name) -> (r: bool)
    ensures
        r == arm_names(*l, name),
    decreases l,
{
    match l {
        List::Nil => false,
        List::Cons(h, t) => has_label_name(&h.labels, name) || has_arm_name(t, name),
    }
}

/// Whether one of the arms is the default.
pub fn has_default(l: &List<SwitchArm>) -> (r: bool)
    ensures
        r == arm_default(*l),
    decreases l,
{
    match l {
        List::Nil => false,
        List::Cons(h, t) => has_default_label(&h.labels) || has_default(t),
    }
}

fn are_all_named(l: &List<Name>, arms: &List<SwitchArm>) -> (r: bool)
    ensures
        r == all_named(*l, *arms),
    decreases l,
{
    match l {
        List::Nil => true,
        List::Cons(h, t) => has_arm_name(arms, **h) && are_all_named(t, arms),
    }
}

/// Whether the arms cover every value of the selector: one is the default, or
/// it is of an enum and every constant is a label. Other types are not looked
/// at.
pub open spec fn exhaustive<D: TyDatabase>(db: &D, selector: Ty, arms: List<SwitchArm>) -> bool {
    arm_default(arms) || match db.constants(selector) {
        Some(constants) => all_named(constants, arms),
        None => true,
    }
}

/// Whether the arms cover every value of the selector.
pub fn switch_is_exhaustive<D: TyDatabase>(db: &D, selector: &Ty, arms: &List<SwitchArm>) -> (r:
    bool)
    ensures
        r == exhaustive(db, *selector, *arms),
{
    has_default(arms) || match db.enum_constants(selector) {
        Some(constants) => are_all_named(&constants, arms),
        None => true,
    }
}

/// Whether the expression is left out.
pub fn is_missing(e: &Expr) -> (r: bool)
    ensures
        r == (e.kind is Missing),
{
    match &e.kind {
        ExprKind::Missing => true,
        _ => false,
    }
}

/// Whether a type is a generic class without its type arguments.
pub open spec fn raw_type<D: TyDatabase>(db: &D, t: Ty) -> bool {
    crate::raw_type::raw_reference(db, t)
}

/// Whether a type is a generic class without its type arguments.
pub fn is_raw_type<D: TyDatabase>(db: &D, t: &Ty) -> (r: bool)
    ensures
        r == raw_type(db, *t),
{
    crate::raw_type::is_raw_reference(db, t)
}

/// Whether every argument is an unbounded wildcard.
pub open spec fn all_unbounded(l: List<Ty>) -> bool
    decreases l,
{
    match l {
        List::Nil => true,
        List::Cons(h, t) => *h == Ty::Wildcard(WildcardBound::Unbounded) && all_unbounded(*t),
    }
}

fn are_all_unbounded(l: &List<Ty>) -> (r: bool)
    ensures
        r == all_unbounded(*l),
    decreases l,
{
    match l {
        List::Nil => true,
        List::Cons(h, t) => {
            let here = match &**h {
                Ty::Wildcard(WildcardBound::Unbounded) => true,
                _ => false,
            };
            here && are_all_unbounded(t)
        },
    }
}

/// Whether a type is fully known when the program runs.
pub open spec fn reifiable(t: Ty) -> bool
    decreases t,
{
    match t {
        Ty::Primitive(_) => true,
        Ty::Reference { name: _, args, local: _ } => all_unbounded(*args),
        Ty::Array(inner) => reifiable(*inner),
        _ => false,
    }
}

/// Whether a type is fully known when the program runs.
pub fn is_reifiable(t: &Ty) -> (r: bool)
    ensures
        r == reifiable(*t),
    decreases t,
{
    match t {
        Ty::Primitive(_) => true,
        Ty::Reference { name: _, args, local: _ } => are_all_unbounded(args),
        Ty::Array(inner) => is_reifiable(inner),
        _ => false,
    }
}

/// Whether an exception type is checked: throwable, and neither a runtime
/// exception nor an error.
pub open spec fn checked<D: TyDatabase>(db: &D, t: Ty) -> bool {
    db.assignable(t, class_of(Name::Throwable)) && !db.assignable(
        t,
        class_of(Name::RuntimeException),
    ) && !db.assignable(t, class_of(Name::Error))
}

/// Whether an exception type is checked.
pub fn is_checked<D: TyDatabase>(db: &D, t: &Ty) -> (r: bool)
    ensures
        r == checked(db, *t),
{
    db.is_assignable(t, &Ty::class(Name::Throwable)) && !db.is_assignable(
        t,
        &Ty::class(Name::RuntimeException),
    ) && !db.is_assignable(t, &Ty::class(Name::Error))
}

/// Whether the type is assignable to one of the others.
pub open spec fn assignable_to_any<D: TyDatabase>(db: &D, t: Ty, l: List<Ty>) -> bool
    decreases l,
{
    match l {
        List::Nil => false,
        List::Cons(h, rest) => db.assignable(t, *h) || assignable_to_any(db, t, *rest),
    }
}

pub fn is_assignable_to_any<D: TyDatabase>(db: &D, t: &Ty, l: &List<Ty>) -> (r: bool)
    ensures
        r == assignable_to_any(db, *t, *l),
    decreases l,
{
    match l {
        List::Nil => false,
        List::Cons(h, rest) => db.is_assignable(t, h) || is_assignable_to_any(db, t, rest),
    }
}

/// The values that a switch expression may have: of each arm the expressions
/// and yielded values, those in its blocks among them.
pub open spec fn results_narrow<D: TyDatabase>(
    db: &D,
    env: List<(Name, Const)>,
    l: List<Stmt>,
    p: PrimitiveType,
) -> bool
    decreases l,
{
    match l {
        List::Nil => true,
        List::Cons(h, t) => stmt_narrows(db, env, *h, p) && results_narrow(db, env, *t, p),
    }
}

/// Whether the values that a statement gives a switch are constants of a type.
pub open spec fn stmt_narrows<D: TyDatabase>(
    db: &D,
    env: List<(Name, Const)>,
    s: Stmt,
    p: PrimitiveType,
) -> bool
    decreases s,
{
    match s.kind {
        StmtKind::Expr(e) => constant_fits(db, env, e, p),
        StmtKind::Yield(e) => constant_fits(db, env, e, p),
        StmtKind::Block(l) => results_narrow(db, env, *l, p),
        _ => true,
    }
}

/// Whether a statement gives a switch a value.
pub open spec fn gives_result(s: Stmt) -> bool
    decreases s,
{
    match s.kind {
        StmtKind::Expr(_) => true,
        StmtKind::Yield(_) => true,
        StmtKind::Block(l) => some_gives_result(*l),
        _ => false,
    }
}

pub open spec fn some_gives_result(l: List<Stmt>) -> bool
    decreases l,
{
    match l {
        List::Nil => false,
        List::Cons(h, t) => gives_result(*h) || some_gives_result(*t),
    }
}

/// The integer that a constant expression has as its value.
pub open spec fn constant_int<D: TyDatabase>(db: &D, env: List<(Name, Const)>, e: Expr) -> Option<
    i64,
> {
    match db.constant(e, env) {
        Some(Const::Int(v)) => Some(v),
        _ => None,
    }
}

/// Whether an expression is a constant that is a value of a type.
pub open spec fn constant_fits<D: TyDatabase>(
    db: &D,
    env: List<(Name, Const)>,
    e: Expr,
    p: PrimitiveType,
) -> bool {
    match constant_int(db, env, e) {
        Some(v) => fits(v, p),
        None => false,
    }
}

/// The integer that a constant expression has as its value.
pub fn const_int_value<D: TyDatabase>(db: &D, env: &List<(Name, Const)>, e: &Expr) -> (r: Option<
    i64,
>)
    ensures
        r == constant_int(db, *env, *e),
{
    match db.const_value(e, env) {
        Some(Const::Int(v)) => Some(v),
        _ => None,
    }
}

fn does_constant_fit<D: TyDatabase>(
    db: &D,
    env: &List<(Name, Const)>,
    e: &Expr,
    p: PrimitiveType,
) -> (r: bool)
    ensures
        r == constant_fits(db, *env, *e, p),
{
    match const_int_value(db, env, e) {
        Some(v) => fits_primitive(v, p),
        None => false,
    }
}

fn do_results_narrow<D: TyDatabase>(
    db: &D,
    env: &List<(Name, Const)>,
    l: &List<Stmt>,
    p: PrimitiveType,
) -> (r: bool)
    ensures
        r == results_narrow(db, *env, *l, p),
    decreases l,
{
    match l {
        List::Nil => true,
        List::Cons(h, t) => does_stmt_narrow(db, env, h, p) && do_results_narrow(db, env, t, p),
    }
}

fn does_stmt_narrow<D: TyDatabase>(
    db: &D,
    env: &List<(Name, Const)>,
    s: &Stmt,
    p: PrimitiveType,
) -> (r: bool)
    ensures
        r == stmt_narrows(db, *env, *s, p),
    decreases s,
{
    match &s.kind {
        StmtKind::Expr(e) => does_constant_fit(db, env, e, p),
        StmtKind::Yield(e) => does_constant_fit(db, env, e, p),
        StmtKind::Block(l) => do_results_narrow(db, env, l, p),
        _ => true,
    }
}

fn does_give_result(s: &Stmt) -> (r: bool)
    ensures
        r == gives_result(*s),
    decreases s,
{
    match &s.kind {
        StmtKind::Expr(_) => true,
        StmtKind::Yield(_) => true,
        StmtKind::Block(l) => does_some_give_result(l),
        _ => false,
    }
}

fn does_some_give_result(l: &List<Stmt>) -> (r: bool)
    ensures
        r == some_gives_result(*l),
    decreases l,
{
    match l {
        List::Nil => false,
        List::Cons(h, t) => does_give_result(h) || does_some_give_result(t),
    }
}

/// Whether every value that the arms give is a constant of a type.
pub open spec fn arms_narrow<D: TyDatabase>(
    db: &D,
    env: List<(Name, Const)>,
    l: List<SwitchArm>,
    p: PrimitiveType,
) -> bool
    decreases l,
{
    match l {
        List::Nil => true,
        List::Cons(h, t) => results_narrow(db, env, h.body, p) && arms_narrow(db, env, *t, p),
    }
}

pub open spec fn some_arm_gives(l: List<SwitchArm>) -> bool
    decreases l,
{
    match l {
        List::Nil => false,
        List::Cons(h, t) => some_gives_result(h.body) || some_arm_gives(*t),
    }
}

fn do_arms_narrow<D: TyDatabase>(
    db: &D,
    env: &List<(Name, Const)>,
    l: &List<SwitchArm>,
    p: PrimitiveType,
) -> (r: bool)
    ensures
        r == arms_narrow(db, *env, *l, p),
    decreases l,
{
    match l {
        List::Nil => true,
        List::Cons(h, t) => do_results_narrow(db, env, &h.body, p) && do_arms_narrow(db, env, t, p),
    }
}

fn does_some_arm_give(l: &List<SwitchArm>) -> (r: bool)
    ensures
        r == some_arm_gives(*l),
    decreases l,
{
    match l {
        List::Nil => false,
        List::Cons(h, t) => does_some_give_result(&h.body) || does_some_arm_give(t),
    }
}

/// Whether the arms give constants of a type, and at least one.
pub fn switch_results_narrowable<D: TyDatabase>(
    db: &D,
    env: &List<(Name, Const)>,
    arms: &List<SwitchArm>,
    p: PrimitiveType,
) -> (r: bool)
    ensures
        r == (some_arm_gives(*arms) && arms_narrow(db, *env, *arms, p)),
{
    does_some_arm_give(arms) && do_arms_narrow(db, env, arms, p)
}

/// Whether an `int` expression converts to a smaller type because its value is
/// a constant of that type. The values of a switch expression count one by one.
pub open spec fn narrowable<D: TyDatabase>(
    db: &D,
    env: List<(Name, Const)>,
    e: Expr,
    src: Ty,
    dst: Ty,
) -> bool {
    match dst {
        Ty::Primitive(p) => src == Ty::Primitive(PrimitiveType::Int) && (p == PrimitiveType::Byte
            || p == PrimitiveType::Short || p == PrimitiveType::Char) && match e.kind {
            ExprKind::Switch { scrutinee: _, arms } => some_arm_gives(*arms) && arms_narrow(
                db,
                env,
                *arms,
                p,
            ),
            _ => constant_fits(db, env, e, p),
        },
        _ => false,
    }
}

/// Whether an `int` expression converts to a smaller type because its value is
/// a constant of that type.
pub fn constant_narrowable<D: TyDatabase>(
    db: &D,
    env: &List<(Name, Const)>,
    e: &Expr,
    src: &Ty,
    dst: &Ty,
) -> (r: bool)
    ensures
        r == narrowable(db, *env, *e, *src, *dst),
{
    let from_int = match src {
        Ty::Primitive(p) => *p == PrimitiveType::Int,
        _ => false,
    };
    match dst {
        Ty::Primitive(p) => from_int && (*p == PrimitiveType::Byte || *p == PrimitiveType::Short || *p
            == PrimitiveType::Char) && match &e.kind {
            ExprKind::Switch { scrutinee: _, arms } => switch_results_narrowable(
                db,
                env,
                arms,
                *p,
            ),
            _ => does_constant_fit(db, env, e, *p),
        },
        _ => false,
    }
}

/// Whether a label is built from literals and operators, or names a local
/// variable.
pub open spec fn closed_label(s: InferCtx, e: Expr) -> bool {
    match e.kind {
        ExprKind::Literal(_) => true,
        ExprKind::Paren(_) => true,
        ExprKind::Unary { op: _, expr: _ } => true,
        ExprKind::Binary { op: _, lhs: _, rhs: _ } => true,
        ExprKind::Conditional { cond: _, then_arm: _, else_arm: _ } => true,
        ExprKind::Var(name) => found_local(s.scopes, name) is Some,
        _ => false,
    }
}

/// The place of the first name of a written type.
pub open spec fn first_place(l: List<RefName>) -> Option<TextRange> {
    match l {
        List::Nil => None,
        List::Cons(h, _) => h.range,
    }
}

/// Whether a type has type arguments.
pub open spec fn parameterized(t: Ty) -> bool {
    t matches Ty::Reference { name: _, args, local: _ } && !(*args is Nil)
}

pub fn is_parameterized(t: &Ty) -> (r: bool)
    ensures
        r == parameterized(*t),
{
    match t {
        Ty::Reference { name: _, args, local: _ } => !args.is_empty(),
        _ => false,
    }
}

impl InferCtx {
    /// A report on a type argument that violates its bound.
    #[verifier::opaque]
    pub open spec fn bounds_checked<D: TyDatabase>(
        self,
        db: &D,
        site: Site,
        location: DiagLocation,
        ty: TypeRef,
    ) -> InferCtx {
        match ty.shape {
            TypeShape::Named { name: _, args } => if *args is Nil {
                self
            } else {
                match db.resolved_type(site.file, site.item, ty.shape) {
                    Ty::Reference { name, args, local: _ } => match db.out_of_bounds(name, *args) {
                        Some((param, (arg, bound))) => self.told(
                            TypeError::TypeArgumentOutOfBounds {
                                location,
                                name: param,
                                arg,
                                bound,
                                range: first_place(ty.refs),
                            },
                        ),
                        None => self,
                    },
                    _ => self,
                }
            },
            _ => self,
        }
    }

    /// A report on a type argument that violates its bound.
    pub fn check_type_argument_bounds<D: TyDatabase>(
        &mut self,
        db: &D,
        site: &Site,
        location: DiagLocation,
        ty: &TypeRef,
    )
        ensures
            *final(self) == old(self).bounds_checked(db, *site, location, *ty),
            final(self).frame() == old(self).frame(),
            final(self).exited == old(self).exited,
    {
        proof {
            reveal(InferCtx::bounds_checked);
        }
        match &ty.shape {
            TypeShape::Named { name: _, args } => {
                if args.is_empty() {
                    return;
                }
            },
            _ => {
                return;
            },
        }
        if let Ty::Reference { name, args, local: _ } = db.resolve_type_ref(
            site.file,
            site.item,
            &ty.shape,
        ) {
            if let Some((param, (arg, bound))) = db.type_argument_bound_violation(name, &args) {
                let range = match &ty.refs {
                    List::Nil => None,
                    List::Cons(h, _) => h.range,
                };
                self.report(
                    TypeError::TypeArgumentOutOfBounds { location, name: param, arg, bound, range },
                );
            }
        }
    }

    /// The reports on the type of an `instanceof`.
    #[verifier::opaque]
    pub open spec fn target_checked<D: TyDatabase>(
        self,
        db: &D,
        site: Site,
        expr: u32,
        ty: TypeRef,
    ) -> InferCtx {
        let s = self.bounds_checked(db, site, DiagLocation::Expr(expr), ty);
        let t = db.resolved_type(site.file, site.item, ty.shape);
        if !(t is Error) && !reifiable(t) {
            s.told(TypeError::IllegalGenericInstanceOf { expr, ty: t })
        } else {
            s
        }
    }

    /// The reports on the type of an `instanceof`: it must be reifiable.
    pub fn check_instanceof_target<D: TyDatabase>(
        &mut self,
        db: &D,
        site: &Site,
        expr: u32,
        ty: &TypeRef,
    )
        ensures
            *final(self) == old(self).target_checked(db, *site, expr, *ty),
            final(self).frame() == old(self).frame(),
            final(self).exited == old(self).exited,
    {
        proof {
            reveal(InferCtx::target_checked);
        }
        self.check_type_argument_bounds(db, site, DiagLocation::Expr(expr), ty);
        let t = db.resolve_type_ref(site.file, site.item, &ty.shape);
        if !t.is_error() && !is_reifiable(&t) {
            self.report(TypeError::IllegalGenericInstanceOf { expr, ty: t });
        }
    }

    /// A report on a variable of a raw type.
    #[verifier::opaque]
    pub open spec fn raw_checked<D: TyDatabase>(self, db: &D, local: Local) -> InferCtx {
        match assoc_get(self.locals, local.id) {
            Some(ty) => if raw_type(db, ty) {
                self.told(TypeError::RawTypeUse { local: local.id, ty })
            } else {
                self
            },
            None => self,
        }
    }

    /// A report on a variable of a raw type.
    pub fn warn_raw_declared_type<D: TyDatabase>(&mut self, db: &D, local: &Local)
        ensures
            *final(self) == old(self).raw_checked(db, *local),
            final(self).frame() == old(self).frame(),
            final(self).exited == old(self).exited,
    {
        proof {
            reveal(InferCtx::raw_checked);
        }
        if let Some(ty) = get_assoc(&self.locals, &local.id) {
            if is_raw_type(db, &ty) {
                self.report(TypeError::RawTypeUse { local: local.id, ty });
            }
        }
    }

    /// A report where a raw type converts to a parameterized one that it is no
    /// subtype of.
    #[verifier::opaque]
    pub open spec fn unchecked_checked<D: TyDatabase>(
        self,
        db: &D,
        expr: u32,
        src: Ty,
        dst: Ty,
    ) -> InferCtx {
        if !(src is Error) && !(dst is Error) && raw_type(db, src) && parameterized(dst)
            && !db.subtype(src, dst) {
            self.told(TypeError::UncheckedConversion { expr, from: src, to: dst })
        } else {
            self
        }
    }

    /// A report where a raw type converts to a parameterized one.
    pub fn warn_unchecked<D: TyDatabase>(&mut self, db: &D, expr: u32, src: &Ty, dst: &Ty)
        ensures
            *final(self) == old(self).unchecked_checked(db, expr, *src, *dst),
            final(self).frame() == old(self).frame(),
            final(self).exited == old(self).exited,
    {
        proof {
            reveal(InferCtx::unchecked_checked);
        }
        if src.is_error() || dst.is_error() || !is_raw_type(db, src) {
            return;
        }
        if is_parameterized(dst) && !db.is_subtype(src, dst) {
            self.report(
                TypeError::UncheckedConversion { expr, from: src.copy(), to: dst.copy() },
            );
        }
    }

    /// The reports on a case label: one that repeats, and one that is no
    /// constant.
    #[verifier::opaque]
    pub open spec fn case_checked<D: TyDatabase>(self, db: &D, e: Expr, selector: Ty) -> InferCtx {
        if e.kind is Missing || selector is Error || db.constants(selector) is Some {
            self
        } else {
            let required = selectable(selector) || string_type(selector);
            match db.constant(e, self.const_locals) {
                Some(value) => if required {
                    match self.case_values {
                        List::Nil => self,
                        List::Cons(h, t) => {
                            let s = InferCtx {
                                case_values: List::Cons(
                                    Box::new(List::Cons(Box::new(value), h)),
                                    t,
                                ),
                                ..self
                            };
                            if h.has(value) {
                                s.told(TypeError::DuplicateCaseLabel { expr: e.id, value })
                            } else {
                                s
                            }
                        },
                    }
                } else {
                    self
                },
                None => if required && closed_label(self, e) {
                    self.told(TypeError::NonConstantCaseLabel { expr: e.id })
                } else {
                    self
                },
            }
        }
    }

    fn is_closed_label(&self, e: &Expr) -> (r: bool)
        ensures
            r == closed_label(*self, *e),
    {
        match &e.kind {
            ExprKind::Literal(_) => true,
            ExprKind::Paren(_) => true,
            ExprKind::Unary { op: _, expr: _ } => true,
            ExprKind::Binary { op: _, lhs: _, rhs: _ } => true,
            ExprKind::Conditional { cond: _, then_arm: _, else_arm: _ } => true,
            ExprKind::Var(name) => find_local(&self.scopes, *name).is_some(),
            _ => false,
        }
    }

    /// The reports on a case label.
    pub fn check_case_label<D: TyDatabase>(&mut self, db: &D, e: &Expr, selector: &Ty)
        ensures
            *final(self) == old(self).case_checked(db, *e, *selector),
            final(self).frame() == old(self).frame(),
            final(self).exited == old(self).exited,
    {
        proof {
            reveal(InferCtx::frame);
            reveal(InferCtx::case_checked);
        }
        if is_missing(e) || selector.is_error() || db.enum_constants(selector).is_some() {
            return;
        }
        let required = switchable(selector) || is_string(selector);
        match db.const_value(e, &self.const_locals) {
            Some(value) => {
                if required {
                    let stack = take(&mut self.case_values);
                    match stack {
                        List::Nil => {},
                        List::Cons(h, t) => {
                            let repeated = h.contains(&value);
                            self.case_values = List::Cons(
                                Box::new(List::Cons(Box::new(value), h)),
                                t,
                            );
                            if repeated {
                                self.report(TypeError::DuplicateCaseLabel { expr: e.id, value });
                            }
                        },
                    }
                }
            },
            None => {
                if required && self.is_closed_label(e) {
                    self.report(TypeError::NonConstantCaseLabel { expr: e.id });
                }
            },
        }
    }

    /// The reports on the exceptions that a body does not declare: one for each
    /// expression that throws.
    pub open spec fn liability<D: TyDatabase>(
        self,
        db: &D,
        pending: List<(Ty, u32)>,
        reported: Set<u32>,
    ) -> InferCtx
        decreases pending,
    {
        match pending {
            List::Nil => self,
            List::Cons(h, t) => if checked(db, h.0) && !assignable_to_any(
                db,
                h.0,
                self.enclosing_throws,
            ) && !reported.contains(h.1) {
                self.told(TypeError::UnreportedException { expr: h.1, thrown: h.0 }).liability(
                    db,
                    *t,
                    reported.insert(h.1),
                )
            } else {
                self.liability(db, *t, reported)
            },
        }
    }

    fn check_liability<D: TyDatabase>(
        &mut self,
        db: &D,
        pending: &List<(Ty, u32)>,
        reported: &mut FxHashSet<u32>,
    )
        ensures
            *final(self) == old(self).liability(db, *pending, old(reported)@),
            final(self).frame() == old(self).frame(),
            final(self).exited == old(self).exited,
        decreases pending,
    {
        match pending {
            List::Nil => {},
            List::Cons(h, t) => {
                if is_checked(db, &h.0) && !is_assignable_to_any(db, &h.0, &self.enclosing_throws)
                    && insert_into(reported, h.1) {
                    self.report(
                        TypeError::UnreportedException { expr: h.1, thrown: h.0.copy() },
                    );
                } else {
                    assert(reported@ =~= old(reported)@);
                }
                self.check_liability(db, t, reported);
            },
        }
    }

    /// The reports on the exceptions that a body does not declare. Afterwards
    /// none is pending.
    pub fn check_thrown_liability<D: TyDatabase>(&mut self, db: &D)
        ensures
            *final(self) == (InferCtx { thrown: List::Nil, ..*old(self) }).liability(
                db,
                old(self).thrown,
                Set::empty(),
            ),
            final(self).frame() == old(self).frame(),
            final(self).exited == old(self).exited,
    {
        proof {
            reveal(InferCtx::frame);
        }
        let pending = take(&mut self.thrown);
        let mut reported = new_set();
        self.check_liability(db, &pending, &mut reported);
    }
}

/// A switch with a default covers every value.
pub proof fn law_default_is_exhaustive<D: TyDatabase>(db: &D, selector: Ty, arms: List<SwitchArm>)
    requires
        arm_default(arms),
    ensures
        exhaustive(db, selector, arms),
{
}

/// A reifiable type stays one as the component of an array, and only then.
pub proof fn law_reifiable_arrays(t: Ty)
    ensures
        reifiable(Ty::Array(Box::new(t))) == reifiable(t),
{
}

/// Whether an arm has the name as a label.
pub open spec fn names_constant(arm: SwitchArm, name: Name) -> bool {
    exists|e: Expr|
        #[trigger] arm.labels.has(SwitchLabel::Expr(e)) && e.kind == ExprKind::Var(name)
}

/// Whether an arm is taken where no other is.
pub open spec fn takes_the_rest(arm: SwitchArm) -> bool {
    exists|e: Expr| #[trigger] arm.labels.has(SwitchLabel::Expr(e)) && e.kind is Missing
}

/// A `switch` over an enum without a default covers it exactly where each of its
/// constants is the label of an arm.
pub proof fn law_every_constant_is_covered<D: TyDatabase>(
    db: &D,
    selector: Ty,
    arms: List<SwitchArm>,
    constants: List<Name>,
)
    requires
        db.constants(selector) == Some(constants),
        forall|a: SwitchArm| #[trigger] arms.has(a) ==> !takes_the_rest(a),
    ensures
        exhaustive(db, selector, arms) <==> forall|n: Name| #[trigger]
            constants.has(n) ==> exists|a: SwitchArm| #[trigger]
                arms.has(a) && names_constant(a, n),
{
    lemma_no_default(arms);
    lemma_all_named(constants, arms);
    assert forall|n: Name| #[trigger] constants.has(n) implies arm_names(arms, n) == (exists|
        a: SwitchArm,
    | #[trigger]
        arms.has(a) && names_constant(a, n)) by {
        lemma_arm_names(arms, n);
    }
}

proof fn lemma_label_names(l: List<SwitchLabel>, name: Name)
    ensures
        label_names(l, name) <==> exists|e: Expr|
            #[trigger] l.has(SwitchLabel::Expr(e)) && e.kind == ExprKind::Var(name),
        label_default(l) <==> exists|e: Expr| #[trigger]
            l.has(SwitchLabel::Expr(e)) && e.kind is Missing,
    decreases l,
{
    if let List::Cons(h, t) = l {
        lemma_label_names(*t, name);
        assert(forall|x: SwitchLabel| #[trigger] t.has(x) ==> l.has(x));
        if let SwitchLabel::Expr(e) = *h {
            assert(l.has(SwitchLabel::Expr(e)));
        }
        if exists|e: Expr|
            #[trigger] l.has(SwitchLabel::Expr(e)) && e.kind == ExprKind::Var(name) {
            let e = choose|e: Expr|
                #[trigger] l.has(SwitchLabel::Expr(e)) && e.kind == ExprKind::Var(name);
            if *h != SwitchLabel::Expr(e) {
                assert(t.has(SwitchLabel::Expr(e)));
            }
        }
        if exists|e: Expr| #[trigger] l.has(SwitchLabel::Expr(e)) && e.kind is Missing {
            let e = choose|e: Expr| #[trigger]
                l.has(SwitchLabel::Expr(e)) && e.kind is Missing;
            if *h != SwitchLabel::Expr(e) {
                assert(t.has(SwitchLabel::Expr(e)));
            }
        }
    }
}

proof fn lemma_arm_names(l: List<SwitchArm>, name: Name)
    ensures
        arm_names(l, name) <==> exists|a: SwitchArm| #[trigger] l.has(a) && names_constant(a, name),
    decreases l,
{
    if let List::Cons(h, t) = l {
        lemma_label_names(h.labels, name);
        lemma_arm_names(*t, name);
        assert(l.has(*h));
        assert(forall|x: SwitchArm| #[trigger] t.has(x) ==> l.has(x));
        if exists|a: SwitchArm| #[trigger] l.has(a) && names_constant(a, name) {
            let a = choose|a: SwitchArm| #[trigger] l.has(a) && names_constant(a, name);
            if *h != a {
                assert(t.has(a));
            }
        }
    }
}

proof fn lemma_no_default(l: List<SwitchArm>)
    requires
        forall|a: SwitchArm| #[trigger] l.has(a) ==> !takes_the_rest(a),
    ensures
        !arm_default(l),
    decreases l,
{
    if let List::Cons(h, t) = l {
        assert(l.has(*h));
        lemma_label_names(h.labels, Name::Object);
        assert(forall|x: SwitchArm| #[trigger] t.has(x) ==> l.has(x));
        lemma_no_default(*t);
    }
}

proof fn lemma_all_named(l: List<Name>, arms: List<SwitchArm>)
    ensures
        all_named(l, arms) <==> forall|n: Name| #[trigger] l.has(n) ==> arm_names(arms, n),
    decreases l,
{
    if let List::Cons(h, t) = l {
        lemma_all_named(*t, arms);
        assert(l.has(*h));
        assert(forall|x: Name| #[trigger] t.has(x) ==> l.has(x));
        if all_named(l, arms) {
            assert forall|n: Name| #[trigger] l.has(n) implies arm_names(arms, n) by {
                if n != *h {
                    assert(t.has(n));
                }
            }
        }
    }
}

/// A constant of type `int` converts to `byte`, `short` and `char` exactly where
/// they have its value, and to no other type in this way. What is no constant
/// does not.
pub proof fn law_constants_are_narrowed<D: TyDatabase>(
    db: &D,
    env: List<(Name, Const)>,
    e: Expr,
    dst: Ty,
)
    requires
        !(e.kind is Switch),
    ensures
        ({
            let whole = Ty::Primitive(PrimitiveType::Int);
            let r = narrowable(db, env, e, whole, dst);
            &&& r ==> dst is Primitive
            &&& match db.constant(e, env) {
                Some(Const::Int(v)) => r == match dst {
                    Ty::Primitive(PrimitiveType::Byte) => -0x80 <= v < 0x80,
                    Ty::Primitive(PrimitiveType::Short) => -0x8000 <= v < 0x8000,
                    Ty::Primitive(PrimitiveType::Char) => 0 <= v < 0x10000,
                    _ => false,
                },
                _ => !r,
            }
        }),
        forall|src: Ty|
            src != Ty::Primitive(PrimitiveType::Int) ==> !#[trigger] narrowable(
                db,
                env,
                e,
                src,
                dst,
            ),
{
}

} // verus!
