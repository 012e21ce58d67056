//! Which expressions and statements are reported, and which types they have: the
//! laws of operators, assignments, names and labels.
use crate::body::{BinaryOp, Expr, ExprKind, Local, Stmt, StmtKind, UnaryOp};
use crate::db::TyDatabase;
use crate::infer::conversion::{is_or_holds, number};
use crate::infer::ctx::{Binding, InferCtx, Site};
use crate::infer::diag::TypeError;
use crate::infer::local::{found_local, found_param};
use crate::infer::operator::{binary_promoted, cast_allowed, comparable_types, unary_promoted};
use crate::infer::switch::narrowable;
use crate::list::{assoc_get, List};
use crate::names::Name;
use crate::ty::{class_of, PrimitiveType, Ty};
use vstd::prelude::*;

verus! {

/// Whether the second state has the reports of the first and one more.
pub open spec fn one_more(before: InferCtx, after: InferCtx, d: TypeError) -> bool {
    after.diagnostics == List::Cons(Box::new(d), Box::new(before.diagnostics))
}

/// Whether the second state has the reports of the first and another one.
pub open spec fn reported(before: InferCtx, after: InferCtx) -> bool {
    after.diagnostics matches List::Cons(_, earlier) && *earlier == before.diagnostics
}

/// Whether the operator computes with numbers only.
pub open spec fn arithmetic(op: BinaryOp) -> bool {
    op is Mul || op is Div || op is Rem || op is Sub
}

/// Whether the operator compares.
pub open spec fn comparing(op: BinaryOp) -> bool {
    op is Lt || op is Gt || op is Le || op is Ge || op is Eq || op is Ne
}

/// `+` with a string joins strings, whatever the other operand is. On numbers
/// it, like the other arithmetic operators, has the type that both are promoted
/// to; on anything else an operand is reported and there is no type.
pub proof fn law_arithmetic<D: TyDatabase>(
    s: InferCtx,
    db: &D,
    op: BinaryOp,
    a: (u32, Ty),
    b: (u32, Ty),
)
    requires
        op is Add || arithmetic(op),
        !(a.1 is Error),
        !(b.1 is Error),
        !s.probing,
    ensures
        ({
            let (end, ty) = s.binary_type(db, op, a, b);
            let text = class_of(Name::String);
            let promoted = binary_promoted(a.1, b.1);
            &&& op is Add && (a.1 == text || b.1 == text) ==> ty == text && end == s
            &&& a.1 is Primitive && b.1 is Primitive && !(promoted is Error) ==> ty == promoted
                && end == s
            &&& a.1 is Primitive && b.1 is Primitive && promoted is Error ==> ty is Error
                && reported(s, end)
            &&& !(op is Add) && (a.1 == text || b.1 == text) ==> ty is Error && reported(s, end)
            &&& end.flow == s.flow && end.exited == s.exited
        }),
{
    reveal(InferCtx::told);
    reveal(InferCtx::binary_type);
    reveal(InferCtx::numeric_result);
    reveal(InferCtx::bad_operand);
}

/// A comparison is `boolean` in any case, and is reported exactly where its
/// operands do not compare.
pub proof fn law_comparisons<D: TyDatabase>(
    s: InferCtx,
    db: &D,
    op: BinaryOp,
    a: (u32, Ty),
    b: (u32, Ty),
)
    requires
        comparing(op),
        !(a.1 is Error),
        !(b.1 is Error),
        !s.probing,
    ensures
        s.binary_type(db, op, a, b).1 == Ty::Primitive(PrimitiveType::Boolean),
        comparable_types(db, a.1, b.1) ==> s.binary_type(db, op, a, b).0 == s,
        !comparable_types(db, a.1, b.1) ==> reported(s, s.binary_type(db, op, a, b).0),
{
    reveal(InferCtx::told);
    reveal(InferCtx::binary_type);
}

/// `&`, `^` and `|` on two booleans, objects or not, are `boolean`, on two
/// numbers have the type that both are promoted to, and on a boolean and a
/// number have none, which is reported.
pub proof fn law_bitwise<D: TyDatabase>(
    s: InferCtx,
    db: &D,
    op: BinaryOp,
    a: (u32, Ty),
    b: (u32, Ty),
    p: PrimitiveType,
    q: PrimitiveType,
)
    requires
        op is BitAnd || op is BitXor || op is BitOr,
        is_or_holds(a.1, p),
        is_or_holds(b.1, q),
        !(p is Void),
        !(q is Void),
        !s.probing,
    ensures
        ({
            let (end, ty) = s.binary_type(db, op, a, b);
            &&& !number(p) && !number(q) ==> ty == Ty::Primitive(PrimitiveType::Boolean) && end == s
            &&& number(p) && number(q) ==> ty == binary_promoted(a.1, b.1) && end == s
            &&& number(p) != number(q) ==> ty is Error && reported(s, end)
        }),
{
    reveal(InferCtx::told);
    reveal(InferCtx::binary_type);
    reveal(InferCtx::bit_result);
    reveal(InferCtx::numeric_result);
    reveal(InferCtx::bad_operand);
}

/// A shift of a number by a number has the type that the left one alone is
/// promoted to, whatever the right one is. On a boolean it has none.
pub proof fn law_shifts<D: TyDatabase>(
    s: InferCtx,
    db: &D,
    op: BinaryOp,
    a: (u32, Ty),
    b: (u32, Ty),
    p: PrimitiveType,
    q: PrimitiveType,
)
    requires
        op is Shl || op is Shr || op is UShr,
        is_or_holds(a.1, p),
        is_or_holds(b.1, q),
        !(p is Void),
        !(q is Void),
        !s.probing,
    ensures
        ({
            let (end, ty) = s.binary_type(db, op, a, b);
            &&& number(p) && number(q) ==> ty == unary_promoted(a.1) && end == s
            &&& !number(p) || !number(q) ==> ty is Error && reported(s, end)
        }),
{
    reveal(InferCtx::told);
    reveal(InferCtx::binary_type);
    reveal(InferCtx::shift_result);
    reveal(InferCtx::bad_operand);
}

/// `!` takes booleans, objects or not, and gives a `boolean`; the other
/// operators on one operand take numbers and promote them, but `++` and `--`
/// keep their type.
pub proof fn law_operators_on_one_operand(
    s: InferCtx,
    op: UnaryOp,
    operand: u32,
    t: Ty,
    p: PrimitiveType,
)
    requires
        is_or_holds(t, p),
        !(p is Void),
        !s.probing,
    ensures
        ({
            let (end, ty) = s.unary_type(op, operand, t);
            &&& op is Not && !number(p) ==> ty == Ty::Primitive(PrimitiveType::Boolean)
                && end.diagnostics == s.diagnostics
            &&& op is Not && number(p) ==> ty is Error && one_more(
                s,
                end,
                TypeError::NonBooleanCondition { expr: operand, found: t },
            )
            &&& op is Plus || op is Minus || op is BitNot ==> number(p) ==> ty == unary_promoted(t)
                && end.diagnostics == s.diagnostics
            &&& op is Inc || op is Dec ==> ty == t && end == s
        }),
{
    reveal(InferCtx::told);
    reveal(InferCtx::unary_type);
}

/// A condition is reported exactly where it is known not to be a boolean, an
/// object or not.
pub proof fn law_conditions_are_boolean(s: InferCtx, expr: u32, t: Ty)
    requires
        !s.probing,
    ensures
        ({
            let end = s.condition_checked(expr, t);
            &&& t is Error || is_or_holds(t, PrimitiveType::Boolean) ==> end == s
            &&& t is Primitive && t != Ty::Primitive(PrimitiveType::Boolean) ==> one_more(
                s,
                end,
                TypeError::NonBooleanCondition { expr, found: t },
            )
            &&& t is Array || t is Null ==> one_more(
                s,
                end,
                TypeError::NonBooleanCondition { expr, found: t },
            )
            &&& end.flow == s.flow
        }),
{
    reveal(InferCtx::told);
    reveal(InferCtx::condition_checked);
}

/// A value is reported exactly where both types are known and it neither can be
/// assigned nor is a constant that can be narrowed.
pub proof fn law_values_fit<D: TyDatabase>(
    s: InferCtx,
    db: &D,
    e: Expr,
    found: Ty,
    expected: Ty,
)
    requires
        !s.probing,
    ensures
        ({
            let end = s.value_checked(db, e, found, expected);
            let bad = !(found is Error) && !(expected is Error) && !db.assignable(found, expected)
                && !narrowable(db, s.const_locals, e, found, expected);
            &&& bad ==> one_more(
                s,
                end,
                TypeError::IncompatibleTypes { expr: e.id, found, expected },
            )
            &&& !bad ==> end == s
        }),
{
    reveal(InferCtx::told);
    reveal(InferCtx::value_checked);
}

/// A cast is reported exactly where both types are known, the target has no type
/// variables and the cast is not allowed.
pub proof fn law_casts_are_checked<D: TyDatabase>(
    s: InferCtx,
    db: &D,
    expr: u32,
    found: Ty,
    target: Ty,
)
    requires
        !s.probing,
    ensures
        ({
            let end = s.cast_checked(db, expr, found, target);
            let bad = !(found is Error) && !(target is Error) && !target.has_type_var()
                && !cast_allowed(db, found, target);
            &&& bad ==> one_more(s, end, TypeError::BadCast { expr, found, target })
            &&& !bad ==> end == s
        }),
{
    reveal(InferCtx::told);
    reveal(InferCtx::cast_checked);
}

/// A simple name means the parameter of a lambda around before a local variable,
/// and a local variable before any field.
pub proof fn law_inner_names_come_first<D: TyDatabase>(
    s: InferCtx,
    db: &D,
    site: Site,
    expr: u32,
    name: Name,
    t: Ty,
    b: Binding,
)
    ensures
        found_param(s.lambda_params, name) == Some(t) ==> s.var_type(db, site, expr, name) == (s, t),
        found_param(s.lambda_params, name) is None && found_local(s.scopes, name) == Some(b)
            && s.flow.definite.has(b.id) && !s.mutating && assoc_get(s.locals, b.id) == Some(t)
            ==> s.var_type(db, site, expr, name) == (s, t),
{
    reveal(InferCtx::var_type);
    reveal(InferCtx::local_use);
}

/// A variable is reported exactly where its name means a local variable or the
/// parameter of a lambda around already. It means the new variable from there
/// on.
pub proof fn law_names_are_taken_once(s: InferCtx, local: Local, ty: Ty)
    requires
        !s.probing,
        s.scopes is Cons,
    ensures
        ({
            let end = s.bound(local, ty);
            let taken = found_local(s.scopes, local.name) is Some || found_param(
                s.lambda_params,
                local.name,
            ) is Some;
            &&& taken ==> one_more(
                s,
                end,
                TypeError::VariableAlreadyDefined { local: local.id, name: local.name },
            )
            &&& !taken ==> end.diagnostics == s.diagnostics
            &&& end.flow.definite.has(local.id)
        }),
{
    reveal(InferCtx::told);
    reveal(InferCtx::bound);
}

/// A `break` or `continue` with a label is reported exactly where no statement
/// around has the label, and a `continue` also where that is no loop; without a
/// label a `continue` is reported exactly outside a loop.
pub proof fn law_labels_are_found<D: TyDatabase>(
    s: InferCtx,
    db: &D,
    site: Site,
    stmt: Stmt,
    label: Name,
)
    requires
        !s.probing,
    ensures
        ({
            let end = s.stmt(db, site, stmt);
            let known = assoc_get(s.labels, label);
            let missing = TypeError::UndefinedLabel { stmt: stmt.id, label };
            &&& stmt.kind == StmtKind::Break(Some(label)) ==> (if known is None {
                one_more(s, end, missing)
            } else {
                end.diagnostics == s.diagnostics
            })
            &&& stmt.kind == StmtKind::Continue(Some(label)) ==> (match known {
                None => one_more(s, end, missing),
                Some(looped) => if looped {
                    end.diagnostics == s.diagnostics
                } else {
                    one_more(s, end, TypeError::NotALoopLabel { stmt: stmt.id, label })
                },
            })
            &&& stmt.kind == StmtKind::Continue(None) ==> (if s.in_loop {
                end.diagnostics == s.diagnostics
            } else {
                one_more(s, end, TypeError::ContinueOutsideLoop { stmt: stmt.id })
            })
        }),
{
    reveal(InferCtx::told);
    reveal(InferCtx::broke);
    reveal(InferCtx::continued);
    reveal_with_fuel(InferCtx::stmt, 2);
    reveal_with_fuel(InferCtx::stmt_kind, 2);
    assert(s.stmt(db, site, stmt) == s.stmt_kind(db, site, stmt));
}

/// The first statement of a block that cannot be reached is reported, before all
/// else is looked at as if it could be, and the end of the block is not reached
/// then. Behind it no further statement is reported for that.
pub proof fn law_unreachable_statements<D: TyDatabase>(
    s: InferCtx,
    db: &D,
    site: Site,
    h: Box<Stmt>,
    t: Box<List<Stmt>>,
)
    requires
        s.exited,
        !s.probing,
    ensures
        ({
            let l = List::Cons(h, t);
            let told = InferCtx {
                diagnostics: List::Cons(
                    Box::new(TypeError::UnreachableStatement { stmt: h.id }),
                    Box::new(s.diagnostics),
                ),
                exited: false,
                ..s
            };
            s.block(db, site, l, false) == told.block(db, site, l, true)
        }),
{
    reveal(InferCtx::told);
    let l = List::Cons(h, t);
    let told = InferCtx {
        diagnostics: List::Cons(
            Box::new(TypeError::UnreachableStatement { stmt: h.id }),
            Box::new(s.diagnostics),
        ),
        exited: false,
        ..s
    };
    assert(told.block(db, site, l, true) == told.stmt(db, site, *h).block(db, site, *t, true));
}

/// A statement that is reached is looked at where the one before it ends, and a
/// block without statements changes nothing.
pub proof fn law_statements_follow_one_another<D: TyDatabase>(
    s: InferCtx,
    db: &D,
    site: Site,
    h: Box<Stmt>,
    t: Box<List<Stmt>>,
)
    requires
        !s.exited,
    ensures
        s.block(db, site, List::Cons(h, t), false) == s.stmt(db, site, *h).block(
            db,
            site,
            *t,
            false,
        ),
        s.block(db, site, List::Nil, false) == s,
{
}

/// An expression in parentheses is the expression itself: it has its type, its
/// reports and its flow.
pub proof fn law_parentheses<D: TyDatabase>(
    s: InferCtx,
    db: &D,
    site: Site,
    e: Expr,
    inner: Box<Expr>,
)
    requires
        e.kind == ExprKind::Paren(inner),
    ensures
        s.expr(db, site, e).1 == s.expr(db, site, *inner).1,
        s.expr(db, site, e).0.flow == s.expr(db, site, *inner).0.flow,
        s.expr(db, site, e).0.diagnostics == s.expr(db, site, *inner).0.diagnostics,
{
    reveal_with_fuel(InferCtx::expr, 3);
    assert(s.expr_kind(db, site, e) == s.expr(db, site, *inner));
}

} // verus!
