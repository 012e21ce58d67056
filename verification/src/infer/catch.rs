//! Labels and jumps, and what a `try` statement catches.
use crate::body::{Catch, Expr, ExprKind, Local, Resource, Stmt, StmtKind};
use crate::db::TyDatabase;
use crate::ids::is_in;
use crate::infer::ctx::{drop_first, tail, take, Frame, InferCtx, Site};
use crate::infer::diag::TypeError;
use crate::infer::flow::{join_all, joined, BreakFrame, Flow};
use crate::infer::local::{find_local, found_local};
use crate::infer::switch::{assignable_to_any, checked, is_assignable_to_any, is_checked};
use crate::items::TypeRef;
use crate::list::{assoc_get, assoc_put, get_assoc, put_assoc, Data, List};
use crate::member::MethodData;
use crate::names::Name;
use crate::ty::{class_of, Ty};
use rustc_hash::FxHashSet;
use vstd::prelude::*;

verus! {

/// Whether a statement is a loop.
pub open spec fn loops(s: Stmt) -> bool {
    s.kind is While || s.kind is DoWhile || s.kind is For || s.kind is ForEach
}

pub fn is_loop(s: &Stmt) -> (r: bool)
    ensures
        r == loops(*s),
{
    match &s.kind {
        StmtKind::While { cond: _, body: _ } => true,
        StmtKind::DoWhile { body: _, cond: _ } => true,
        StmtKind::For { init: _, cond: _, step: _, body: _ } => true,
        StmtKind::ForEach { var: _, iterable: _, body: _ } => true,
        _ => false,
    }
}

/// The flows that leave the innermost statement by `break`.
pub open spec fn innermost_flows(l: List<BreakFrame>) -> List<Flow> {
    match l {
        List::Nil => List::Nil,
        List::Cons(h, _) => h.flows,
    }
}

/// The join of the flows that leave the innermost statement by `break`.
fn join_innermost(l: &List<BreakFrame>) -> (r: Option<Flow>)
    ensures
        r == join_all(innermost_flows(*l)),
{
    match l {
        List::Nil => {
            proof {
                assert(join_all(List::Nil) is None);
            }
            None
        },
        List::Cons(h, _) => joined(&h.flows),
    }
}

/// The flow after an `if`: that of the arms that go on, or the one before where
/// neither does.
pub open spec fn merged(a: Flow, a_left: bool, b: Flow, b_left: bool, before: Flow) -> Flow {
    if !a_left && !b_left {
        a.join(b)
    } else if !a_left {
        a
    } else if !b_left {
        b
    } else {
        before
    }
}

pub fn merge_arms(a: Flow, a_left: bool, b: Flow, b_left: bool, before: Flow) -> (r: Flow)
    ensures
        r == merged(a, a_left, b, b_left, before),
{
    if !a_left && !b_left {
        a.join_definite(&b)
    } else if !a_left {
        a
    } else if !b_left {
        b
    } else {
        before
    }
}

/// The flow of the paths and of the breaks together.
pub open spec fn with_breaks(live: Option<Flow>, breaks: Option<Flow>) -> Option<Flow> {
    match (live, breaks) {
        (Some(a), Some(b)) => Some(a.join(b)),
        (Some(a), None) => Some(a),
        (None, b) => b,
    }
}

pub fn join_breaks(live: Option<Flow>, breaks: Option<Flow>) -> (r: Option<Flow>)
    ensures
        r == with_breaks(live, breaks),
{
    match (live, breaks) {
        (Some(a), Some(b)) => Some(a.join_definite(&b)),
        (Some(a), None) => Some(a),
        (None, b) => b,
    }
}

/// The exceptions, each thrown by the expression.
pub open spec fn thrown_by(l: List<Ty>, expr: u32) -> List<(Ty, u32)>
    decreases l,
{
    match l {
        List::Nil => List::Nil,
        List::Cons(h, t) => List::Cons(Box::new((*h, expr)), Box::new(thrown_by(*t, expr))),
    }
}

fn each_thrown_by(l: &List<Ty>, expr: u32) -> (r: List<(Ty, u32)>)
    ensures
        r == thrown_by(*l, expr),
    decreases l,
{
    match l {
        List::Nil => List::Nil,
        List::Cons(h, t) => List::cons((h.copy(), expr), each_thrown_by(t, expr)),
    }
}

/// What a `throw` of a catch parameter throws, where that is known more
/// precisely than by its type.
pub open spec fn rethrown(s: InferCtx, e: Expr) -> Option<List<Ty>> {
    match e.kind {
        ExprKind::Var(name) => match found_local(s.scopes, name) {
            Some(b) => assoc_get(s.rethrow_sets, b.id),
            None => None,
        },
        _ => None,
    }
}

/// The checked ones among the exceptions, each thrown by the expression.
pub open spec fn checked_ones<D: TyDatabase>(db: &D, l: List<Ty>, expr: u32) -> List<(Ty, u32)>
    decreases l,
{
    match l {
        List::Nil => List::Nil,
        List::Cons(h, t) => if checked(db, *h) {
            List::Cons(Box::new((*h, expr)), Box::new(checked_ones(db, *t, expr)))
        } else {
            checked_ones(db, *t, expr)
        },
    }
}

fn find_checked<D: TyDatabase>(db: &D, l: &List<Ty>, expr: u32) -> (r: List<(Ty, u32)>)
    ensures
        r == checked_ones(db, *l, expr),
    decreases l,
{
    match l {
        List::Nil => List::Nil,
        List::Cons(h, t) => if is_checked(db, h) {
            List::cons((h.copy(), expr), find_checked(db, t, expr))
        } else {
            find_checked(db, t, expr)
        },
    }
}

/// The exceptions of the first method without parameters.
pub open spec fn close_throws(l: List<MethodData>) -> List<Ty>
    decreases l,
{
    match l {
        List::Nil => List::Nil,
        List::Cons(h, t) => if h.params is Nil {
            h.throws
        } else {
            close_throws(*t)
        },
    }
}

fn find_close_throws(l: &List<MethodData>) -> (r: List<Ty>)
    ensures
        r == close_throws(*l),
    decreases l,
{
    match l {
        List::Nil => List::Nil,
        List::Cons(h, t) => if h.params.is_empty() {
            h.throws.copy()
        } else {
            find_close_throws(t)
        },
    }
}

/// The checked exceptions of closing the resources, each thrown by the
/// initializer of the resource at the same position.
pub open spec fn closing<D: TyDatabase>(
    db: &D,
    site: Site,
    tys: List<Ty>,
    resources: List<Resource>,
) -> List<(Ty, u32)>
    decreases tys,
{
    match (tys, resources) {
        (List::Cons(t, tt), List::Cons(r, rt)) => {
            let here = match r.initializer {
                Some(e) => checked_ones(
                    db,
                    close_throws(db.members(*t, Name::Close, site.access)),
                    e.id,
                ),
                None => List::Nil,
            };
            here.plus(closing(db, site, *tt, *rt))
        },
        _ => List::Nil,
    }
}

pub fn find_closing<D: TyDatabase>(
    db: &D,
    site: &Site,
    tys: &List<Ty>,
    resources: &List<Resource>,
) -> (r: List<(Ty, u32)>)
    ensures
        r == closing(db, *site, *tys, *resources),
    decreases tys,
{
    match (tys, resources) {
        (List::Cons(t, tt), List::Cons(r, rt)) => {
            let here = match &r.initializer {
                Some(e) => {
                    let members = db.member_set(t, Name::Close, &site.access);
                    find_checked(db, &find_close_throws(&members), e.id)
                },
                None => List::Nil,
            };
            here.append(find_closing(db, site, tt, rt))
        },
        _ => List::Nil,
    }
}

/// The exceptions that no earlier expression throws.
pub open spec fn thrown_later(l: List<(Ty, u32)>, before: Set<u32>) -> List<Ty>
    decreases l,
{
    match l {
        List::Nil => List::Nil,
        List::Cons(h, t) => if before.contains(h.1) {
            thrown_later(*t, before)
        } else {
            List::Cons(Box::new(h.0), Box::new(thrown_later(*t, before)))
        },
    }
}

pub fn find_thrown_later(l: &List<(Ty, u32)>, before: &FxHashSet<u32>) -> (r: List<Ty>)
    ensures
        r == thrown_later(*l, before@),
    decreases l,
{
    match l {
        List::Nil => List::Nil,
        List::Cons(h, t) => if is_in(before, h.1) {
            find_thrown_later(t, before)
        } else {
            List::cons(h.0.copy(), find_thrown_later(t, before))
        },
    }
}

/// The written types of a clause.
pub open spec fn written_types(c: Catch) -> List<TypeRef> {
    if c.param_types is Nil {
        match c.param.ty {
            Some(t) => List::Cons(Box::new(t), Box::new(List::Nil)),
            None => List::Nil,
        }
    } else {
        c.param_types
    }
}

/// The types that written types mean, without those that mean none.
pub open spec fn meaningful<D: TyDatabase>(db: &D, site: Site, l: List<TypeRef>) -> List<Ty>
    decreases l,
{
    match l {
        List::Nil => List::Nil,
        List::Cons(h, t) => {
            let ty = db.resolved_type(site.file, site.item, h.shape);
            if ty is Error {
                meaningful(db, site, *t)
            } else {
                List::Cons(Box::new(ty), Box::new(meaningful(db, site, *t)))
            }
        },
    }
}

fn find_meaningful<D: TyDatabase>(db: &D, site: &Site, l: &List<TypeRef>) -> (r: List<Ty>)
    ensures
        r == meaningful(db, *site, *l),
    decreases l,
{
    match l {
        List::Nil => List::Nil,
        List::Cons(h, t) => {
            let ty = db.resolve_type_ref(site.file, site.item, &h.shape);
            if ty.is_error() {
                find_meaningful(db, site, t)
            } else {
                List::cons(ty, find_meaningful(db, site, t))
            }
        },
    }
}

/// The types that a clause catches.
pub open spec fn clause_types<D: TyDatabase>(db: &D, site: Site, c: Catch) -> List<Ty> {
    meaningful(db, site, written_types(c))
}

pub fn find_clause_types<D: TyDatabase>(db: &D, site: &Site, c: &Catch) -> (r: List<Ty>)
    ensures
        r == clause_types(db, *site, *c),
{
    if c.param_types.is_empty() {
        let written = match &c.param.ty {
            Some(t) => List::cons(t.copy(), List::Nil),
            None => List::Nil,
        };
        find_meaningful(db, site, &written)
    } else {
        find_meaningful(db, site, &c.param_types)
    }
}

/// Whether one of the types is a type variable.
pub open spec fn some_type_var(l: List<Ty>) -> bool
    decreases l,
{
    match l {
        List::Nil => false,
        List::Cons(h, t) => *h is TypeVar || some_type_var(*t),
    }
}

fn is_some_type_var(l: &List<Ty>) -> (r: bool)
    ensures
        r == some_type_var(*l),
    decreases l,
{
    match l {
        List::Nil => false,
        List::Cons(h, t) => match &**h {
            Ty::TypeVar { scope: _, bounds: _, lower: _ } => true,
            _ => is_some_type_var(t),
        },
    }
}

/// Whether the type is a subtype of one of the types.
pub open spec fn subtype_of_any<D: TyDatabase>(db: &D, t: Ty, l: List<Ty>) -> bool
    decreases l,
{
    match l {
        List::Nil => false,
        List::Cons(h, rest) => db.subtype(t, *h) || subtype_of_any(db, t, *rest),
    }
}

fn is_subtype_of_any<D: TyDatabase>(db: &D, t: &Ty, l: &List<Ty>) -> (r: bool)
    ensures
        r == subtype_of_any(db, *t, *l),
    decreases l,
{
    match l {
        List::Nil => false,
        List::Cons(h, rest) => db.is_subtype(t, h) || is_subtype_of_any(db, t, rest),
    }
}

/// Whether each of the types is caught by the clauses before.
pub open spec fn all_caught<D: TyDatabase>(db: &D, tys: List<Ty>, earlier: List<Ty>) -> bool
    decreases tys,
{
    match tys {
        List::Nil => true,
        List::Cons(h, t) => subtype_of_any(db, *h, earlier) && all_caught(db, *t, earlier),
    }
}

fn are_all_caught<D: TyDatabase>(db: &D, tys: &List<Ty>, earlier: &List<Ty>) -> (r: bool)
    ensures
        r == all_caught(db, *tys, *earlier),
    decreases tys,
{
    match tys {
        List::Nil => true,
        List::Cons(h, t) => is_subtype_of_any(db, h, earlier) && are_all_caught(db, t, earlier),
    }
}

/// Whether one of the types converts to the type.
pub open spec fn some_assignable<D: TyDatabase>(db: &D, l: List<Ty>, t: Ty) -> bool
    decreases l,
{
    match l {
        List::Nil => false,
        List::Cons(h, rest) => db.assignable(*h, t) || some_assignable(db, *rest, t),
    }
}

fn is_some_assignable<D: TyDatabase>(db: &D, l: &List<Ty>, t: &Ty) -> (r: bool)
    ensures
        r == some_assignable(db, *l, *t),
    decreases l,
{
    match l {
        List::Nil => false,
        List::Cons(h, rest) => db.is_assignable(h, t) || is_some_assignable(db, rest, t),
    }
}

/// Whether a caught exception cannot be thrown: it is checked, it does not catch
/// every exception, and it is related to none that is thrown.
pub open spec fn never_thrown<D: TyDatabase>(db: &D, t: Ty, thrown: List<Ty>) -> bool {
    checked(db, t) && !db.assignable(class_of(Name::Exception), t) && !some_assignable(
        db,
        thrown,
        t,
    ) && !assignable_to_any(db, t, thrown)
}

/// The reports on the types of a clause that cannot be thrown.
pub open spec fn dead_types<D: TyDatabase>(
    db: &D,
    local: u32,
    tys: List<Ty>,
    thrown: List<Ty>,
) -> List<TypeError>
    decreases tys,
{
    match tys {
        List::Nil => List::Nil,
        List::Cons(h, t) => if never_thrown(db, *h, thrown) {
            List::Cons(
                Box::new(TypeError::CatchNeverThrown { local, caught: *h }),
                Box::new(dead_types(db, local, *t, thrown)),
            )
        } else {
            dead_types(db, local, *t, thrown)
        },
    }
}

fn find_dead_types<D: TyDatabase>(db: &D, local: u32, tys: &List<Ty>, thrown: &List<Ty>) -> (r: List<
    TypeError,
>)
    ensures
        r == dead_types(db, local, *tys, *thrown),
    decreases tys,
{
    match tys {
        List::Nil => List::Nil,
        List::Cons(h, t) => {
            let rest = find_dead_types(db, local, t, thrown);
            if is_checked(db, h) && !db.is_assignable(&Ty::class(Name::Exception), h)
                && !is_some_assignable(db, thrown, h) && !is_assignable_to_any(db, h, thrown) {
                List::cons(TypeError::CatchNeverThrown { local, caught: h.copy() }, rest)
            } else {
                rest
            }
        },
    }
}

/// The exceptions that are not caught.
pub open spec fn uncaught<D: TyDatabase>(db: &D, l: List<(Ty, u32)>, tys: List<Ty>) -> List<(Ty, u32)>
    decreases l,
{
    match l {
        List::Nil => List::Nil,
        List::Cons(h, t) => if assignable_to_any(db, h.0, tys) {
            uncaught(db, *t, tys)
        } else {
            List::Cons(h, Box::new(uncaught(db, *t, tys)))
        },
    }
}

fn keep_uncaught<D: TyDatabase>(db: &D, l: List<(Ty, u32)>, tys: &List<Ty>) -> (r: List<(Ty, u32)>)
    ensures
        r == uncaught(db, l, *tys),
    decreases l,
{
    match l {
        List::Nil => List::Nil,
        List::Cons(h, t) => {
            let caught = is_assignable_to_any(db, &h.0, tys);
            let rest = keep_uncaught(db, *t, tys);
            if caught {
                rest
            } else {
                List::Cons(h, Box::new(rest))
            }
        },
    }
}

/// The exceptions of a `try` block that a clause catches.
pub open spec fn caught_ones<D: TyDatabase>(
    db: &D,
    l: List<(Ty, u32)>,
    before: Set<u32>,
    tys: List<Ty>,
) -> List<Ty>
    decreases l,
{
    match l {
        List::Nil => List::Nil,
        List::Cons(h, t) => if !before.contains(h.1) && assignable_to_any(db, h.0, tys) {
            List::Cons(Box::new(h.0), Box::new(caught_ones(db, *t, before, tys)))
        } else {
            caught_ones(db, *t, before, tys)
        },
    }
}

fn find_caught<D: TyDatabase>(
    db: &D,
    l: &List<(Ty, u32)>,
    before: &FxHashSet<u32>,
    tys: &List<Ty>,
) -> (r: List<Ty>)
    ensures
        r == caught_ones(db, *l, before@, *tys),
    decreases l,
{
    match l {
        List::Nil => List::Nil,
        List::Cons(h, t) => {
            let rest = find_caught(db, t, before, tys);
            if !is_in(before, h.1) && is_assignable_to_any(db, &h.0, tys) {
                List::cons(h.0.copy(), rest)
            } else {
                rest
            }
        },
    }
}

/// The types that this clause and those before it catch.
pub open spec fn caught_so_far<D: TyDatabase>(db: &D, earlier: List<Ty>, tys: List<Ty>) -> List<Ty> {
    if all_caught(db, tys, earlier) {
        earlier
    } else {
        earlier.plus(tys)
    }
}

pub fn extend_caught<D: TyDatabase>(db: &D, earlier: List<Ty>, tys: List<Ty>) -> (r: List<Ty>)
    ensures
        r == caught_so_far(db, earlier, tys),
{
    if are_all_caught(db, &tys, &earlier) {
        earlier
    } else {
        earlier.append(tys)
    }
}

impl InferCtx {
    /// Inside a loop, which a `break` leaves.
    #[verifier::opaque]
    pub open spec fn looping(self) -> InferCtx {
        InferCtx {
            in_loop: true,
            loop_breaks: List::Cons(
                Box::new(BreakFrame { label: self.pending_loop_label, flows: List::Nil }),
                Box::new(self.loop_breaks),
            ),
            pending_loop_label: None,
            ..self
        }
    }

    /// Enters a loop, and returns whether there was one around.
    pub fn enter_loop(&mut self) -> (r: bool)
        ensures
            r == old(self).in_loop,
            *final(self) == old(self).looping(),
            final(self).frame() == (Frame {
                in_loop: true,
                breaks: List::Cons(
                    Box::new(old(self).pending_loop_label),
                    Box::new(old(self).frame().breaks),
                ),
                ..old(self).frame()
            }),
    {
        proof {
            reveal(InferCtx::frame);
            reveal(InferCtx::looping);
        }
        let was = self.in_loop;
        self.in_loop = true;
        let frames = take(&mut self.loop_breaks);
        self.loop_breaks = List::cons(
            BreakFrame { label: self.pending_loop_label, flows: List::Nil },
            frames,
        );
        self.pending_loop_label = None;
        was
    }

    /// The flow that leaves the innermost statement by `break`.
    pub open spec fn break_flow(self) -> Option<Flow> {
        join_all(innermost_flows(self.loop_breaks))
    }

    /// The frame of the innermost statement is gone.
    #[verifier::opaque]
    pub open spec fn unframed(self) -> InferCtx {
        InferCtx { loop_breaks: tail(self.loop_breaks), ..self }
    }

    /// Drops the frame of the innermost statement, and returns the flow that
    /// leaves it by `break`.
    pub fn leave_frame(&mut self) -> (r: Option<Flow>)
        ensures
            r == old(self).break_flow(),
            *final(self) == old(self).unframed(),
            final(self).frame() == (Frame {
                breaks: tail(old(self).frame().breaks),
                ..old(self).frame()
            }),
    {
        proof {
            reveal(InferCtx::frame);
            reveal(InferCtx::unframed);
        }
        let out = join_innermost(&self.loop_breaks);
        let frames = take(&mut self.loop_breaks);
        self.loop_breaks = drop_first(frames);
        out
    }

    /// Leaves a loop, and returns the flow that leaves it by `break`. `was` says
    /// whether there is one around.
    pub fn leave_loop(&mut self, was: bool) -> (r: Option<Flow>)
        ensures
            r == old(self).break_flow(),
            *final(self) == (InferCtx { in_loop: was, exited: false, ..old(self).unframed() }),
            final(self).frame() == (Frame {
                in_loop: was,
                breaks: tail(old(self).frame().breaks),
                ..old(self).frame()
            }),
    {
        proof {
            reveal(InferCtx::frame);
        }
        let breaks = self.leave_frame();
        self.in_loop = was;
        self.exited = false;
        breaks
    }

    /// A statement that a `break` with the label leaves.
    #[verifier::opaque]
    pub open spec fn framed(self, label: Option<Name>) -> InferCtx {
        InferCtx {
            loop_breaks: List::Cons(
                Box::new(BreakFrame { label, flows: List::Nil }),
                Box::new(self.loop_breaks),
            ),
            ..self
        }
    }

    pub fn enter_frame(&mut self, label: Option<Name>)
        ensures
            *final(self) == old(self).framed(label),
            final(self).frame() == (Frame {
                breaks: List::Cons(Box::new(label), Box::new(old(self).frame().breaks)),
                ..old(self).frame()
            }),
    {
        proof {
            reveal(InferCtx::frame);
            reveal(InferCtx::framed);
        }
        let frames = take(&mut self.loop_breaks);
        self.loop_breaks = List::cons(BreakFrame { label, flows: List::Nil }, frames);
    }

    /// A `break`.
    #[verifier::opaque]
    pub open spec fn broke(self, stmt: u32, label: Option<Name>) -> InferCtx {
        let s = InferCtx { exited: true, ..self };
        let s1 = match label {
            Some(name) => if assoc_get(s.labels, name) is Some {
                s
            } else {
                s.told(TypeError::UndefinedLabel { stmt, label: name })
            },
            None => if s.in_loop || s.in_switch {
                s
            } else {
                s.told(TypeError::BreakOutsideSwitchOrLoop { stmt })
            },
        };
        s1.broken(label)
    }

    /// A `break` leaves the statement that has its label, or the innermost loop
    /// or switch.
    pub fn break_out(&mut self, stmt: u32, label: Option<Name>)
        ensures
            *final(self) == old(self).broke(stmt, label),
            final(self).frame() == old(self).frame(),
    {
        proof {
            reveal(InferCtx::frame);
            reveal(InferCtx::broke);
        }
        self.exited = true;
        match label {
            Some(name) => {
                if get_assoc(&self.labels, &name).is_none() {
                    self.report(TypeError::UndefinedLabel { stmt, label: name });
                }
            },
            None => {
                if !self.in_loop && !self.in_switch {
                    self.report(TypeError::BreakOutsideSwitchOrLoop { stmt });
                }
            },
        }
        self.record_break_flow(&label);
    }

    /// A `continue`.
    #[verifier::opaque]
    pub open spec fn continued(self, stmt: u32, label: Option<Name>) -> InferCtx {
        let s = InferCtx { exited: true, ..self };
        match label {
            Some(name) => match assoc_get(s.labels, name) {
                Some(looped) => if looped {
                    s
                } else {
                    s.told(TypeError::NotALoopLabel { stmt, label: name })
                },
                None => s.told(TypeError::UndefinedLabel { stmt, label: name }),
            },
            None => if s.in_loop {
                s
            } else {
                s.told(TypeError::ContinueOutsideLoop { stmt })
            },
        }
    }

    /// A `continue` goes on with the loop that has its label, or the innermost
    /// one.
    pub fn continue_with(&mut self, stmt: u32, label: Option<Name>)
        ensures
            *final(self) == old(self).continued(stmt, label),
            final(self).frame() == old(self).frame(),
    {
        proof {
            reveal(InferCtx::frame);
            reveal(InferCtx::continued);
        }
        self.exited = true;
        match label {
            Some(name) => match get_assoc(&self.labels, &name) {
                Some(looped) => {
                    if !looped {
                        self.report(TypeError::NotALoopLabel { stmt, label: name });
                    }
                },
                None => {
                    self.report(TypeError::UndefinedLabel { stmt, label: name });
                },
            },
            None => {
                if !self.in_loop {
                    self.report(TypeError::ContinueOutsideLoop { stmt });
                }
            },
        }
    }

    /// A `throw` of a value of a type.
    #[verifier::opaque]
    pub open spec fn threw<D: TyDatabase>(self, db: &D, e: Expr, ty: Ty) -> InferCtx {
        let s = if !(ty is Error) && !db.assignable(ty, class_of(Name::Throwable)) {
            self.typed(e.id, Ty::Error).told(
                TypeError::IncompatibleTypes {
                    expr: e.id,
                    found: ty,
                    expected: class_of(Name::Throwable),
                },
            )
        } else {
            match rethrown(self, e) {
                Some(l) => InferCtx { thrown: self.thrown.plus(thrown_by(l, e.id)), ..self },
                None => if checked(db, ty) {
                    InferCtx { thrown: self.thrown.with((ty, e.id)), ..self }
                } else {
                    self
                },
            }
        };
        InferCtx { exited: true, ..s }
    }

    fn find_rethrown(&self, e: &Expr) -> (r: Option<List<Ty>>)
        ensures
            r == rethrown(*self, *e),
    {
        match &e.kind {
            ExprKind::Var(name) => match find_local(&self.scopes, *name) {
                Some(b) => get_assoc(&self.rethrow_sets, &b.id),
                None => None,
            },
            _ => None,
        }
    }

    /// A `throw` of a value of a type, which must be throwable.
    pub fn throw_value<D: TyDatabase>(&mut self, db: &D, e: &Expr, ty: Ty)
        ensures
            *final(self) == old(self).threw(db, *e, ty),
            final(self).frame() == old(self).frame(),
    {
        proof {
            reveal(InferCtx::frame);
            reveal(InferCtx::threw);
        }
        let throwable = Ty::class(Name::Throwable);
        if !ty.is_error() && !db.is_assignable(&ty, &throwable) {
            self.record_type(e.id, Ty::Error);
            self.report(
                TypeError::IncompatibleTypes { expr: e.id, found: ty, expected: throwable },
            );
        } else {
            match self.find_rethrown(e) {
                Some(l) => {
                    let thrown = take(&mut self.thrown);
                    self.thrown = thrown.append(each_thrown_by(&l, e.id));
                },
                None => {
                    if is_checked(db, &ty) {
                        let thrown = take(&mut self.thrown);
                        self.thrown = thrown.push((ty, e.id));
                    }
                },
            }
        }
        self.exited = true;
    }

    /// The value of a `return`.
    #[verifier::opaque]
    pub open spec fn returned_value<D: TyDatabase>(self, db: &D, e: Expr, ty: Ty) -> InferCtx {
        let s = InferCtx {
            lambda_returns: match self.lambda_returns {
                List::Nil => List::Nil,
                List::Cons(h, t) => List::Cons(Box::new(h.with(ty)), t),
            },
            ..self
        };
        let s1 = match s.enclosing_ret {
            None => if ty is Error {
                s
            } else {
                s.told(
                    TypeError::IncompatibleTypes {
                        expr: e.id,
                        found: ty,
                        expected: Ty::Primitive(crate::ty::PrimitiveType::Void),
                    },
                )
            },
            Some(ret) => s.value_checked(db, e, ty, ret),
        };
        InferCtx { exited: true, ..s1 }
    }

    /// The value of a `return`, which must be assignable to the result of the
    /// method.
    pub fn return_value<D: TyDatabase>(&mut self, db: &D, e: &Expr, ty: Ty)
        ensures
            *final(self) == old(self).returned_value(db, *e, ty),
            final(self).frame() == old(self).frame(),
    {
        proof {
            reveal(InferCtx::frame);
            reveal(InferCtx::returned_value);
        }
        let frames = take(&mut self.lambda_returns);
        self.lambda_returns = match frames {
            List::Nil => List::Nil,
            List::Cons(h, t) => List::Cons(Box::new((*h).push(ty.copy())), t),
        };
        match self.enclosing_ret.copy() {
            None => {
                if !ty.is_error() {
                    self.report(
                        TypeError::IncompatibleTypes {
                            expr: e.id,
                            found: ty,
                            expected: Ty::Primitive(crate::ty::PrimitiveType::Void),
                        },
                    );
                }
            },
            Some(ret) => {
                self.check_value(db, e, &ty, &ret);
            },
        }
        self.exited = true;
    }

    /// A final variable with a constant value is a constant.
    #[verifier::opaque]
    pub open spec fn with_constant<D: TyDatabase>(self, db: &D, local: Local, e: Expr) -> InferCtx {
        match db.constant(e, self.const_locals) {
            Some(c) => if local.is_final {
                InferCtx { const_locals: assoc_put(self.const_locals, local.name, c), ..self }
            } else {
                self
            },
            None => self,
        }
    }

    pub fn record_constant<D: TyDatabase>(&mut self, db: &D, local: &Local, e: &Expr)
        ensures
            *final(self) == old(self).with_constant(db, *local, *e),
            final(self).frame() == old(self).frame(),
    {
        proof {
            reveal(InferCtx::frame);
            reveal(InferCtx::with_constant);
        }
        if local.is_final {
            if let Some(c) = db.const_value(e, &self.const_locals) {
                self.const_locals = put_assoc(&self.const_locals, &local.name, c);
            }
        }
    }

    /// A report where a resource cannot be closed. A class that is not known
    /// has a report of its own.
    #[verifier::opaque]
    pub open spec fn closeable_checked<D: TyDatabase>(
        self,
        db: &D,
        local: u32,
        expr: u32,
    ) -> InferCtx {
        match assoc_get(self.locals, local) {
            None => self,
            Some(t) => {
                let known = match t {
                    Ty::Error => false,
                    Ty::Reference { name, args: _, local: _ } => db.class_info(name) is Some,
                    _ => true,
                };
                if known && !db.assignable(t, class_of(Name::AutoCloseable)) {
                    self.told(
                        TypeError::IncompatibleTypes {
                            expr,
                            found: t,
                            expected: class_of(Name::AutoCloseable),
                        },
                    )
                } else {
                    self
                }
            },
        }
    }

    pub fn check_closeable<D: TyDatabase>(&mut self, db: &D, local: u32, expr: u32)
        ensures
            *final(self) == old(self).closeable_checked(db, local, expr),
            final(self).frame() == old(self).frame(),
    {
        proof {
            reveal(InferCtx::closeable_checked);
        }
        if let Some(t) = get_assoc(&self.locals, &local) {
            let known = match &t {
                Ty::Error => false,
                Ty::Reference { name, args: _, local: _ } => db.resolve_class(*name).is_some(),
                _ => true,
            };
            let closeable = Ty::class(Name::AutoCloseable);
            if known && !db.is_assignable(&t, &closeable) {
                self.report(TypeError::IncompatibleTypes { expr, found: t, expected: closeable });
            }
        }
    }

    /// The reports on what a clause catches, the exceptions that are left, and
    /// what a `throw` of its parameter throws.
    #[verifier::opaque]
    pub open spec fn caught<D: TyDatabase>(
        self,
        db: &D,
        local: u32,
        tys: List<Ty>,
        earlier: List<Ty>,
        tried: List<Ty>,
        before: Set<u32>,
    ) -> InferCtx {
        if tys is Nil {
            self
        } else {
            let s = if some_type_var(tys) {
                self.told(TypeError::CannotCatchTypeVariable { local })
            } else {
                self
            };
            let s1 = if all_caught(db, tys, earlier) {
                s.told(TypeError::AlreadyCaught { local, caught: tys })
            } else {
                let s1 = s.told_all(dead_types(db, local, tys, tried));
                InferCtx { thrown: uncaught(db, s1.thrown, tys), ..s1 }
            };
            let precise = caught_ones(db, self.thrown, before, tys);
            if precise is Nil {
                s1
            } else {
                InferCtx { rethrow_sets: assoc_put(s1.rethrow_sets, local, precise), ..s1 }
            }
        }
    }

    /// What a clause catches.
    pub fn catch<D: TyDatabase>(
        &mut self,
        db: &D,
        local: u32,
        tys: &List<Ty>,
        earlier: &List<Ty>,
        tried: &List<Ty>,
        before: &FxHashSet<u32>,
    )
        ensures
            *final(self) == old(self).caught(db, local, *tys, *earlier, *tried, before@),
            final(self).frame() == old(self).frame(),
    {
        proof {
            reveal(InferCtx::frame);
            reveal(InferCtx::caught);
        }
        if tys.is_empty() {
            return;
        }
        let precise = find_caught(db, &self.thrown, before, tys);
        if is_some_type_var(tys) {
            self.report(TypeError::CannotCatchTypeVariable { local });
        }
        if are_all_caught(db, tys, earlier) {
            self.report(TypeError::AlreadyCaught { local, caught: tys.copy() });
        } else {
            self.report_all(find_dead_types(db, local, tys, tried));
            let thrown = take(&mut self.thrown);
            self.thrown = keep_uncaught(db, thrown, tys);
        }
        if !precise.is_empty() {
            self.rethrow_sets = put_assoc(&self.rethrow_sets, &local, precise);
        }
    }
}

/// What a clause catches is no longer to be declared: of the exceptions that
/// convert to one of its types none is left, and the others all are.
pub proof fn law_catch_discharges<D: TyDatabase>(
    db: &D,
    l: List<(Ty, u32)>,
    tys: List<Ty>,
    x: (Ty, u32),
)
    ensures
        uncaught(db, l, tys).has(x) == (l.has(x) && !assignable_to_any(db, x.0, tys)),
    decreases l,
{
    if let List::Cons(_, t) = l {
        law_catch_discharges(db, *t, tys, x);
    }
}

/// A `throw` of a catch parameter throws only what its clause catches of what
/// the `try` block throws.
pub proof fn law_rethrow_is_precise<D: TyDatabase>(
    db: &D,
    l: List<(Ty, u32)>,
    before: Set<u32>,
    tys: List<Ty>,
    x: Ty,
)
    ensures
        caught_ones(db, l, before, tys).has(x) ==> assignable_to_any(db, x, tys) && thrown_later(
            l,
            before,
        ).has(x),
    decreases l,
{
    if let List::Cons(_, t) = l {
        law_rethrow_is_precise(db, *t, before, tys, x);
    }
}

} // verus!
