//! The laws of exception checking: which exceptions have to be caught or
//! declared, what a clause catches, and what is reported.
use crate::body::{Expr, Stmt, StmtKind};
use crate::db::TyDatabase;
use crate::infer::catch::{
    all_caught, checked_ones, dead_types, never_thrown, some_assignable, some_type_var,
    subtype_of_any, uncaught,
};
use crate::infer::ctx::{InferCtx, Site};
use crate::infer::diag::TypeError;
use crate::infer::functional::{law_lambda_leaves_no_liability, undeclared};
use crate::infer::switch::{assignable_to_any, checked};
use crate::list::{lemma_with_has, List};
use crate::names::Name;
use crate::ty::{class_of, Ty};
use vstd::prelude::*;

verus! {

/// Whether an exception has to be caught or declared: it is throwable, and
/// neither a `RuntimeException` nor an `Error`.
pub open spec fn liable<D: TyDatabase>(db: &D, t: Ty) -> bool {
    &&& db.assignable(t, class_of(Name::Throwable))
    &&& !db.assignable(t, class_of(Name::RuntimeException))
    &&& !db.assignable(t, class_of(Name::Error))
}

/// Whether one of the types takes the exception.
pub open spec fn taken_by<D: TyDatabase>(db: &D, t: Ty, l: List<Ty>) -> bool {
    exists|c: Ty| #[trigger] l.has(c) && db.assignable(t, c)
}

proof fn lemma_taken<D: TyDatabase>(db: &D, t: Ty, l: List<Ty>)
    ensures
        assignable_to_any(db, t, l) == taken_by(db, t, l),
    decreases l,
{
    if let List::Cons(h, rest) = l {
        lemma_taken(db, t, *rest);
        assert(l.has(*h));
        if taken_by(db, t, *rest) {
            let c = choose|c: Ty| #[trigger] rest.has(c) && db.assignable(t, c);
            assert(l.has(c));
        }
        if taken_by(db, t, l) {
            let c = choose|c: Ty| #[trigger] l.has(c) && db.assignable(t, c);
            if c != *h {
                assert(rest.has(c));
            }
        }
    }
}

proof fn lemma_takes_one<D: TyDatabase>(db: &D, l: List<Ty>, c: Ty)
    ensures
        some_assignable(db, l, c) == exists|t: Ty| #[trigger] l.has(t) && db.assignable(t, c),
    decreases l,
{
    if let List::Cons(h, rest) = l {
        lemma_takes_one(db, *rest, c);
        assert(l.has(*h));
        if exists|t: Ty| #[trigger] rest.has(t) && db.assignable(t, c) {
            let t = choose|t: Ty| #[trigger] rest.has(t) && db.assignable(t, c);
            assert(l.has(t));
        }
        if exists|t: Ty| #[trigger] l.has(t) && db.assignable(t, c) {
            let t = choose|t: Ty| #[trigger] l.has(t) && db.assignable(t, c);
            if t != *h {
                assert(rest.has(t));
            }
        }
    }
}

/// An invocation adds the exceptions of the method that have to be caught or
/// declared to what is thrown, and changes nothing else. A `RuntimeException`
/// or an `Error` is never added.
pub proof fn law_invocation_throws<D: TyDatabase>(
    s: InferCtx,
    db: &D,
    l: List<Ty>,
    expr: u32,
    x: (Ty, u32),
)
    ensures
        s.throwing(db, l, expr).thrown.has(x) == (s.thrown.has(x) || (x.1 == expr && l.has(x.0)
            && liable(db, x.0))),
        s.throwing(db, l, expr) == (InferCtx { thrown: s.throwing(db, l, expr).thrown, ..s }),
        (forall|t: Ty| #[trigger] l.has(t) ==> !liable(db, t)) ==> s.throwing(db, l, expr) == s,
    decreases l,
{
    if let List::Cons(h, t) = l {
        assert(l.has(*h));
        assert forall|y: Ty| #[trigger] t.has(y) implies l.has(y) by {}
        let next = if liable(db, *h) {
            InferCtx { thrown: s.thrown.with((*h, expr)), ..s }
        } else {
            s
        };
        lemma_with_has(s.thrown, (*h, expr), x);
        law_invocation_throws(next, db, *t, expr, x);
    }
}

/// A `throw` ends the path. The exception is added to what is thrown where it
/// has to be caught or declared, and only there; what is no exception is
/// reported.
pub proof fn law_throw_statement<D: TyDatabase>(s: InferCtx, db: &D, site: Site, stmt: Stmt, e: Expr)
    requires
        stmt.kind == StmtKind::Throw(e),
        !(e.kind is Var),
    ensures
        ({
            let (s1, ty) = s.expr(db, site, e);
            let after = s.stmt(db, site, stmt);
            &&& after.exited
            &&& after.flow == s1.flow
            &&& liable(db, ty) && !(ty is Error) ==> after.thrown == s1.thrown.with((ty, e.id))
            &&& !liable(db, ty) ==> after.thrown == s1.thrown
            &&& ty is Error || db.assignable(ty, class_of(Name::Throwable)) ==> after.diagnostics
                == s1.diagnostics
            &&& !(ty is Error) && !db.assignable(ty, class_of(Name::Throwable)) && !s1.probing
                ==> after.diagnostics == List::Cons(
                Box::new(
                    TypeError::IncompatibleTypes {
                        expr: e.id,
                        found: ty,
                        expected: class_of(Name::Throwable),
                    },
                ),
                Box::new(s1.diagnostics),
            )
        }),
{
    reveal_with_fuel(InferCtx::stmt, 3);
    reveal(InferCtx::threw);
    reveal(InferCtx::told);
    let (s1, ty) = s.expr(db, site, e);
    assert(s.stmt(db, site, stmt) == s.stmt_kind(db, site, stmt));
    assert(s.stmt_kind(db, site, stmt) == s1.threw(db, e, ty));
}

/// A clause takes away what converts to one of its types, unless clauses before
/// it catch all of them, and leaves everything else that is thrown.
pub proof fn law_clause_catches<D: TyDatabase>(
    s: InferCtx,
    db: &D,
    local: u32,
    tys: List<Ty>,
    earlier: List<Ty>,
    tried: List<Ty>,
    before: Set<u32>,
    x: (Ty, u32),
)
    requires
        exists|c: Ty| #[trigger] tys.has(c) && forall|o: Ty| #[trigger]
            earlier.has(o) ==> !db.subtype(c, o),
    ensures
        s.caught(db, local, tys, earlier, tried, before).thrown.has(x) == (s.thrown.has(x)
            && !taken_by(db, x.0, tys)),
{
    reveal(InferCtx::caught);
    let c = choose|c: Ty| #[trigger] tys.has(c) && forall|o: Ty| #[trigger]
        earlier.has(o) ==> !db.subtype(c, o);
    lemma_not_caught(db, tys, earlier, c);
    let s0 = if some_type_var(tys) {
        s.told(TypeError::CannotCatchTypeVariable { local })
    } else {
        s
    };
    reveal(InferCtx::told);
    let s1 = s0.told_all(dead_types(db, local, tys, tried));
    lemma_told_keeps(s0, dead_types(db, local, tys, tried));
    assert(s1.thrown == s.thrown);
    lemma_uncaught(db, s.thrown, tys, x);
}

proof fn lemma_told_keeps(s: InferCtx, l: List<TypeError>)
    ensures
        s.told_all(l) == (InferCtx { diagnostics: s.told_all(l).diagnostics, ..s }),
    decreases l,
{
    reveal(InferCtx::told);
    if let List::Cons(h, t) = l {
        lemma_told_keeps(s.told(*h), *t);
    }
}

proof fn lemma_not_caught<D: TyDatabase>(db: &D, tys: List<Ty>, earlier: List<Ty>, c: Ty)
    requires
        tys.has(c),
        forall|o: Ty| #[trigger] earlier.has(o) ==> !db.subtype(c, o),
    ensures
        !all_caught(db, tys, earlier),
    decreases tys,
{
    if let List::Cons(h, t) = tys {
        if *h == c {
            lemma_no_super(db, c, earlier);
        } else {
            lemma_not_caught(db, *t, earlier, c);
        }
    }
}

proof fn lemma_no_super<D: TyDatabase>(db: &D, c: Ty, l: List<Ty>)
    requires
        forall|o: Ty| #[trigger] l.has(o) ==> !db.subtype(c, o),
    ensures
        !subtype_of_any(db, c, l),
    decreases l,
{
    if let List::Cons(h, t) = l {
        assert(l.has(*h));
        assert forall|o: Ty| #[trigger] t.has(o) implies !db.subtype(c, o) by {
            assert(l.has(o));
        }
        lemma_no_super(db, c, *t);
    }
}

proof fn lemma_uncaught<D: TyDatabase>(db: &D, l: List<(Ty, u32)>, tys: List<Ty>, x: (Ty, u32))
    ensures
        uncaught(db, l, tys).has(x) == (l.has(x) && !taken_by(db, x.0, tys)),
    decreases l,
{
    if let List::Cons(h, t) = l {
        lemma_uncaught(db, *t, tys, x);
        lemma_taken(db, h.0, tys);
    }
}

proof fn lemma_dead_types<D: TyDatabase>(
    db: &D,
    local: u32,
    tys: List<Ty>,
    thrown: List<Ty>,
    c: Ty,
)
    ensures
        dead_types(db, local, tys, thrown).has(TypeError::CatchNeverThrown { local, caught: c })
            == (tys.has(c) && liable(db, c) && !db.assignable(class_of(Name::Exception), c)
            && forall|t: Ty| #[trigger]
            thrown.has(t) ==> !db.assignable(t, c) && !db.assignable(c, t)),
    decreases tys,
{
    if let List::Cons(h, t) = tys {
        lemma_dead_types(db, local, *t, thrown, c);
        lemma_taken(db, *h, thrown);
        lemma_takes_one(db, thrown, *h);
        assert(never_thrown(db, *h, thrown) == (liable(db, *h) && !db.assignable(
            class_of(Name::Exception),
            *h,
        ) && forall|t: Ty| #[trigger]
            thrown.has(t) ==> !db.assignable(t, *h) && !db.assignable(*h, t)));
    }
}

/// Whether an exception that is pending has to be reported: it has to be
/// declared, and is not.
pub open spec fn unreported<D: TyDatabase>(
    db: &D,
    throws: List<Ty>,
    pending: List<(Ty, u32)>,
    t: Ty,
    expr: u32,
) -> bool {
    pending.has((t, expr)) && liable(db, t) && !taken_by(db, t, throws)
}

proof fn lemma_liability<D: TyDatabase>(
    s: InferCtx,
    db: &D,
    pending: List<(Ty, u32)>,
    reported: Set<u32>,
    t: Ty,
    expr: u32,
)
    requires
        !s.probing,
    ensures
        ({
            let out = s.liability(db, pending, reported).diagnostics;
            let d = TypeError::UnreportedException { expr, thrown: t };
            &&& s.diagnostics.has(d) ==> out.has(d)
            &&& out.has(d) ==> s.diagnostics.has(d) || unreported(
                db,
                s.enclosing_throws,
                pending,
                t,
                expr,
            )
            &&& unreported(db, s.enclosing_throws, pending, t, expr) ==> reported.contains(expr)
                || exists|u: Ty|
                #![trigger unreported(db, s.enclosing_throws, pending, u, expr)]
                unreported(db, s.enclosing_throws, pending, u, expr) && out.has(
                    TypeError::UnreportedException { expr, thrown: u },
                )
        }),
    decreases pending,
{
    let throws = s.enclosing_throws;
    let d = TypeError::UnreportedException { expr, thrown: t };
    if let List::Cons(h, rest) = pending {
        lemma_taken(db, h.0, throws);
        let now = checked(db, h.0) && !assignable_to_any(db, h.0, throws) && !reported.contains(
            h.1,
        );
        let (next, more) = if now {
            (
                s.told(TypeError::UnreportedException { expr: h.1, thrown: h.0 }),
                reported.insert(h.1),
            )
        } else {
            (s, reported)
        };
        reveal(InferCtx::told);
        let out = s.liability(db, pending, reported).diagnostics;
        lemma_liability(next, db, *rest, more, t, expr);
        if now && h.1 == expr {
            let e = TypeError::UnreportedException { expr, thrown: h.0 };
            lemma_liability(next, db, *rest, more, h.0, expr);
            assert(next.diagnostics.has(e));
            assert(out.has(e));
            assert(pending.has((h.0, expr)));
            assert(unreported(db, throws, pending, h.0, expr));
        }
        if unreported(db, throws, pending, t, expr) && !reported.contains(expr) && !(now && h.1
            == expr) {
            assert(*h != (t, expr));
            assert(rest.has((t, expr)));
            assert(unreported(db, throws, *rest, t, expr));
            let u = choose|u: Ty|
                #![trigger unreported(db, throws, *rest, u, expr)]
                unreported(db, throws, *rest, u, expr) && out.has(
                    TypeError::UnreportedException { expr, thrown: u },
                );
            assert(unreported(db, throws, pending, u, expr));
        }
    }
}

/// At the end of a body an exception is reported for every expression that
/// throws one that has to be declared and is not, and for no other.
pub proof fn law_undeclared_exceptions_are_reported<D: TyDatabase>(
    s: InferCtx,
    db: &D,
    t: Ty,
    expr: u32,
)
    requires
        !s.probing,
        !s.diagnostics.has(TypeError::UnreportedException { expr, thrown: t }),
    ensures
        ({
            let start = InferCtx { thrown: List::Nil, ..s };
            let out = start.liability(db, s.thrown, Set::empty()).diagnostics;
            &&& out.has(TypeError::UnreportedException { expr, thrown: t }) ==> unreported(
                db,
                s.enclosing_throws,
                s.thrown,
                t,
                expr,
            )
            &&& unreported(db, s.enclosing_throws, s.thrown, t, expr) ==> exists|u: Ty|
                #![trigger unreported(db, s.enclosing_throws, s.thrown, u, expr)]
                unreported(db, s.enclosing_throws, s.thrown, u, expr) && out.has(
                    TypeError::UnreportedException { expr, thrown: u },
                )
        }),
{
    let start = InferCtx { thrown: List::Nil, ..s };
    lemma_liability(start, db, s.thrown, Set::empty(), t, expr);
}

proof fn lemma_undeclared<D: TyDatabase>(
    db: &D,
    l: List<(Ty, u32)>,
    before: Set<u32>,
    throws: List<Ty>,
    t: Ty,
    expr: u32,
)
    ensures
        undeclared(db, l, before, throws).has(TypeError::UnreportedException { expr, thrown: t })
            == (l.has((t, expr)) && !before.contains(expr) && !taken_by(db, t, throws)),
    decreases l,
{
    if let List::Cons(h, rest) = l {
        lemma_undeclared(db, *rest, before, throws, t, expr);
        lemma_taken(db, h.0, throws);
    }
}

/// Closing a resource throws those exceptions of its `close` method that have to
/// be caught or declared.
pub proof fn law_closing_throws<D: TyDatabase>(db: &D, l: List<Ty>, expr: u32, x: (Ty, u32))
    ensures
        checked_ones(db, l, expr).has(x) == (x.1 == expr && l.has(x.0) && liable(db, x.0)),
    decreases l,
{
    if let List::Cons(_, t) = l {
        law_closing_throws(db, *t, expr, x);
    }
}

/// More reports are those that were there and the new ones.
pub proof fn lemma_told_has(s: InferCtx, l: List<TypeError>, d: TypeError)
    requires
        !s.probing,
    ensures
        s.told_all(l).diagnostics.has(d) == (s.diagnostics.has(d) || l.has(d)),
    decreases l,
{
    reveal(InferCtx::told);
    if let List::Cons(h, t) = l {
        lemma_told_has(s.told(*h), *t, d);
    }
}

/// A type of a clause is reported as never thrown exactly where it has to be
/// caught or declared, does not catch every exception, and neither takes nor is
/// taken by what the block throws.
pub proof fn law_useless_clauses<D: TyDatabase>(
    s: InferCtx,
    db: &D,
    local: u32,
    tys: List<Ty>,
    earlier: List<Ty>,
    tried: List<Ty>,
    before: Set<u32>,
    c: Ty,
)
    requires
        !s.probing,
        exists|o: Ty| #[trigger] tys.has(o) && forall|p: Ty| #[trigger]
            earlier.has(p) ==> !db.subtype(o, p),
    ensures
        s.caught(db, local, tys, earlier, tried, before).diagnostics.has(
            TypeError::CatchNeverThrown { local, caught: c },
        ) == (s.diagnostics.has(TypeError::CatchNeverThrown { local, caught: c }) || (tys.has(c)
            && liable(db, c) && !db.assignable(class_of(Name::Exception), c) && forall|t: Ty|
            #[trigger] tried.has(t) ==> !db.assignable(t, c) && !db.assignable(c, t))),
{
    reveal(InferCtx::caught);
    reveal(InferCtx::told);
    let o = choose|o: Ty| #[trigger] tys.has(o) && forall|p: Ty| #[trigger]
        earlier.has(p) ==> !db.subtype(o, p);
    lemma_not_caught(db, tys, earlier, o);
    let s0 = if some_type_var(tys) {
        s.told(TypeError::CannotCatchTypeVariable { local })
    } else {
        s
    };
    let d = TypeError::CatchNeverThrown { local, caught: c };
    lemma_told_has(s0, dead_types(db, local, tys, tried), d);
    lemma_dead_types(db, local, tys, tried, c);
}

/// A clause all of whose types are caught before it is reported, and catches
/// nothing.
pub proof fn law_clause_already_caught<D: TyDatabase>(
    s: InferCtx,
    db: &D,
    local: u32,
    tys: List<Ty>,
    earlier: List<Ty>,
    tried: List<Ty>,
    before: Set<u32>,
)
    requires
        !s.probing,
        !(tys is Nil),
        forall|c: Ty| #[trigger] tys.has(c) ==> exists|o: Ty| #[trigger]
            earlier.has(o) && db.subtype(c, o),
    ensures
        s.caught(db, local, tys, earlier, tried, before).diagnostics.has(
            TypeError::AlreadyCaught { local, caught: tys },
        ),
        s.caught(db, local, tys, earlier, tried, before).thrown == s.thrown,
{
    reveal(InferCtx::caught);
    reveal(InferCtx::told);
    lemma_caught(db, tys, earlier);
}

proof fn lemma_caught<D: TyDatabase>(db: &D, tys: List<Ty>, earlier: List<Ty>)
    requires
        forall|c: Ty| #[trigger] tys.has(c) ==> exists|o: Ty| #[trigger]
            earlier.has(o) && db.subtype(c, o),
    ensures
        all_caught(db, tys, earlier),
    decreases tys,
{
    if let List::Cons(h, t) = tys {
        assert(tys.has(*h));
        let o = choose|o: Ty| #[trigger] earlier.has(o) && db.subtype(*h, o);
        lemma_some_super(db, *h, earlier, o);
        assert forall|c: Ty| #[trigger] t.has(c) implies exists|o: Ty| #[trigger]
            earlier.has(o) && db.subtype(c, o) by {
            assert(tys.has(c));
        }
        lemma_caught(db, *t, earlier);
    }
}

proof fn lemma_some_super<D: TyDatabase>(db: &D, c: Ty, l: List<Ty>, o: Ty)
    requires
        l.has(o),
        db.subtype(c, o),
    ensures
        subtype_of_any(db, c, l),
    decreases l,
{
    if let List::Cons(h, t) = l {
        if *h != o {
            lemma_some_super(db, c, *t, o);
        }
    }
}

/// The exceptions of the body of a lambda are reported where the function type
/// does not declare them, never those of what threw before; and only the latter
/// stay pending.
pub proof fn law_lambda_exceptions<D: TyDatabase>(
    s: InferCtx,
    db: &D,
    throws: List<Ty>,
    before: Set<u32>,
    t: Ty,
    expr: u32,
)
    requires
        !s.probing,
    ensures
        ({
            let after = s.settled(db, throws, before);
            let d = TypeError::UnreportedException { expr, thrown: t };
            &&& after.diagnostics.has(d) == (s.diagnostics.has(d) || (s.thrown.has((t, expr))
                && !before.contains(expr) && !taken_by(db, t, throws)))
            &&& after.thrown.has((t, expr)) == (s.thrown.has((t, expr)) && before.contains(expr))
        }),
{
    reveal(InferCtx::settled);
    let l = undeclared(db, s.thrown, before, throws);
    lemma_told_has(s, l, TypeError::UnreportedException { expr, thrown: t });
    lemma_undeclared(db, s.thrown, before, throws, t, expr);
    law_lambda_leaves_no_liability(s.thrown, before, (t, expr));
}

} // verus!
