//! Statements, and what is known after them.
use crate::body::{Catch, Expr, ExprKind, Local, Resource, Stmt, StmtKind, SwitchArm};
use crate::db::TyDatabase;
use crate::infer::catch::{
    caught_so_far, clause_types, closing, extend_caught, find_clause_types, find_closing,
    find_thrown_later, is_loop, join_breaks, loops, merge_arms, merged, thrown_later, with_breaks,
};
use crate::infer::ctx::{
    drop_first, tail, take, under, Binding, Frame, InferCtx, Site,
};
use crate::infer::diag::TypeError;
use crate::infer::expr::{top, top_of};
use crate::infer::flow::{
    add_elem, is_none_live, join_live, joined_live, none_live, with_elem, Flow,
};
use crate::infer::functional::{find_throwers, throwers};
use crate::infer::local::{condition_bindings, flow_bindings};
use crate::infer::operator::{element_of, iterable_element};
use crate::infer::switch::{arm_default, has_default};
use crate::list::{assoc_get, get_assoc, Data, List};
use crate::member::MethodData;
use crate::names::Name;
use crate::ty::Ty;
use crate::walk::DiagLocation;
use rustc_hash::FxHashSet;
use vstd::prelude::*;

verus! {

/// Where the clauses of a `try` statement start: the flow before its block,
/// whether that was reached, the expressions that threw before it, and what the
/// block throws.
pub ghost struct TriedBlock {
    pub flow: Flow,
    pub exited: bool,
    pub before: Set<u32>,
    pub thrown: List<Ty>,
}

/// Where the clauses of a `try` statement start.
pub struct Tried {
    pub flow: Flow,
    pub exited: bool,
    pub before: FxHashSet<u32>,
    pub thrown: List<Ty>,
}

impl Tried {
    /// What it stands for.
    pub open spec fn block(self) -> TriedBlock {
        TriedBlock {
            flow: self.flow,
            exited: self.exited,
            before: self.before@,
            thrown: self.thrown,
        }
    }
}

/// The flow, or another where there is none.
pub open spec fn flow_or(f: Option<Flow>, other: Flow) -> Flow {
    match f {
        Some(f) => f,
        None => other,
    }
}

fn use_flow_or(f: Option<Flow>, other: Flow) -> (r: Flow)
    ensures
        r == flow_or(f, other),
{
    match f {
        Some(f) => f,
        None => other,
    }
}

/// Whether a value is known and is this one.
fn is_known(known: Option<bool>, value: bool) -> (r: bool)
    ensures
        r == (known == Some(value)),
{
    match known {
        Some(b) => b == value,
        None => false,
    }
}

/// Whether an expression is an array initializer.
fn is_array_init(e: &Expr) -> (r: bool)
    ensures
        r == (e.kind is ArrayInit),
{
    match &e.kind {
        ExprKind::ArrayInit(_) => true,
        _ => false,
    }
}

impl InferCtx {
    /// The state after a statement.
    pub open spec fn stmt<D: TyDatabase>(self, db: &D, site: Site, s: Stmt) -> InferCtx
        decreases s, 21nat, List::<MethodData>::Nil,
    {
        self.stmt_kind(db, site, s)
    }

    /// The state after a statement by its form.
    pub open spec fn stmt_kind<D: TyDatabase>(self, db: &D, site: Site, s: Stmt) -> InferCtx
        decreases s, 20nat, List::<MethodData>::Nil,
    {
        match s.kind {
            StmtKind::Empty => self,
            StmtKind::Block(l) => self.entered().block(db, site, *l, false).left(),
            StmtKind::DeclGroup(l) => self.stmts(db, site, *l),
            StmtKind::Decl { local: _, initializer: _ } => self.declaration(db, site, s),
            StmtKind::Expr(e) => self.expr(db, site, e).0,
            StmtKind::Labeled { label: _, stmt: _ } => self.labeled(db, site, s),
            StmtKind::If { cond: _, then_arm: _, else_arm: _ } => self.choice(db, site, s),
            StmtKind::While { cond: _, body: _ } => self.while_loop(db, site, s),
            StmtKind::DoWhile { body: _, cond: _ } => self.do_loop(db, site, s),
            StmtKind::For { init: _, cond: _, step: _, body: _ } => self.for_loop(db, site, s),
            StmtKind::ForEach { var: _, iterable: _, body: _ } => self.each_loop(db, site, s),
            StmtKind::Switch { scrutinee: _, arms: _ } => self.switch(db, site, s),
            StmtKind::Return(e) => match e {
                Some(e) => {
                    let (s1, ty) = self.expr_to(db, site, e, self.enclosing_ret);
                    s1.returned_value(db, e, ty)
                },
                None => InferCtx { exited: true, ..self },
            },
            StmtKind::Yield(e) => self.expr_to(db, site, e, top(self.switch_targets)).0,
            StmtKind::Throw(e) => {
                let (s1, ty) = self.expr(db, site, e);
                s1.threw(db, e, ty)
            },
            StmtKind::Break(label) => self.broke(s.id, label),
            StmtKind::Continue(label) => self.continued(s.id, label),
            StmtKind::Synchronized { expr, body } => self.expr(db, site, expr).0.stmt(
                db,
                site,
                *body,
            ),
            StmtKind::Try { resources: _, body: _, catches: _, finally_block: _ } => self.attempt(
                db,
                site,
                s,
            ),
            StmtKind::Assert { cond, msg } => {
                let s1 = self.condition(db, site, cond);
                match msg {
                    Some(m) => s1.expr(db, site, m).0,
                    None => s1,
                }
            },
            StmtKind::LocalClass => self,
            StmtKind::Missing => self,
        }
    }

    /// The statements of a block. The first one that cannot be reached is
    /// reported, and then the end of the block cannot be reached either.
    pub open spec fn block<D: TyDatabase>(
        self,
        db: &D,
        site: Site,
        l: List<Stmt>,
        reported: bool,
    ) -> InferCtx
        decreases l, 0nat, List::<MethodData>::Nil,
    {
        match l {
            List::Nil => InferCtx { exited: self.exited || reported, ..self },
            List::Cons(h, t) => if self.exited && !reported {
                let s = self.told(TypeError::UnreachableStatement { stmt: h.id });
                (InferCtx { exited: false, ..s }).stmt(db, site, *h).block(db, site, *t, true)
            } else {
                self.stmt(db, site, *h).block(db, site, *t, reported)
            },
        }
    }

    /// The statements one after the other.
    pub open spec fn stmts<D: TyDatabase>(self, db: &D, site: Site, l: List<Stmt>) -> InferCtx
        decreases l, 0nat, List::<MethodData>::Nil,
    {
        match l {
            List::Nil => self,
            List::Cons(h, t) => self.stmt(db, site, *h).stmts(db, site, *t),
        }
    }

    /// The declaration of a variable.
    pub open spec fn declaration<D: TyDatabase>(self, db: &D, site: Site, s: Stmt) -> InferCtx
        decreases s, 19nat, List::<MethodData>::Nil,
    {
        match s.kind {
            StmtKind::Decl { local, initializer } => match local.ty {
                None => match initializer {
                    None => self.told(TypeError::VarWithoutInitializer { local: local.id }).bound(
                        local,
                        Ty::Error,
                    ),
                    Some(e) => if e.kind is ArrayInit {
                        self.told(TypeError::VarArrayInitializer { local: local.id }).bound(
                            local,
                            Ty::Error,
                        )
                    } else {
                        let (s1, ty) = self.expr(db, site, e);
                        s1.bound(local, ty)
                    },
                },
                Some(written) => {
                    let s1 = self.declared(db, site, local, Ty::Error).raw_checked(
                        db,
                        local,
                    ).bounds_checked(db, site, DiagLocation::Local(local.id), written);
                    match initializer {
                        None => s1.blank(local),
                        Some(e) => {
                            let target = assoc_get(s1.locals, local.id);
                            let (s2, ty) = s1.expr_to(db, site, e, target);
                            let s3 = s2.with_constant(db, local, e);
                            match target {
                                None => s3,
                                Some(t) => if ty is Error || t is Error || e.kind is ArrayInit {
                                    s3
                                } else {
                                    s3.value_checked(db, e, ty, t).unchecked_checked(
                                        db,
                                        e.id,
                                        ty,
                                        t,
                                    )
                                },
                            }
                        },
                    }
                },
            },
            _ => self,
        }
    }

    /// A variable without a value. A final one can be assigned once.
    #[verifier::opaque]
    pub open spec fn blank(self, local: Local) -> InferCtx {
        InferCtx {
            flow: self.flow.unset(local.id),
            blank_finals: if local.is_final {
                with_elem(self.blank_finals, local.id)
            } else {
                self.blank_finals
            },
            ..self
        }
    }

    fn leave_blank(&mut self, local: &Local)
        ensures
            *final(self) == old(self).blank(*local),
            final(self).frame() == old(self).frame(),
    {
        proof {
            reveal(InferCtx::blank);
            reveal(InferCtx::frame);
        }
        self.flow = self.flow.remove(local.id);
        if local.is_final {
            self.blank_finals = add_elem(&self.blank_finals, local.id);
        }
    }

    /// A labeled statement. A `break` with the label goes on behind it.
    pub open spec fn labeled<D: TyDatabase>(self, db: &D, site: Site, s: Stmt) -> InferCtx
        decreases s, 19nat, List::<MethodData>::Nil,
    {
        match s.kind {
            StmtKind::Labeled { label, stmt } => {
                let s1 = self.under_label(label, loops(*stmt));
                if loops(*stmt) {
                    s1.stmt(db, site, *stmt).behind_label(self.pending_loop_label)
                } else {
                    let s2 = s1.framed(Some(label)).stmt(db, site, *stmt);
                    let s3 = s2.unframed();
                    let flow = match s2.break_flow() {
                        Some(b) => if s3.exited {
                            b
                        } else {
                            s3.flow.join(b)
                        },
                        None => s3.flow,
                    };
                    s3.resumed(flow, false).behind_label(s3.pending_loop_label)
                }
            },
            _ => self,
        }
    }

    /// With a label in scope, which is that of the next loop if it is one of a
    /// loop.
    #[verifier::opaque]
    pub open spec fn under_label(self, label: Name, looped: bool) -> InferCtx {
        InferCtx {
            labels: List::Cons(Box::new((label, looped)), Box::new(self.labels)),
            pending_loop_label: if looped {
                Some(label)
            } else {
                self.pending_loop_label
            },
            ..self
        }
    }

    fn enter_label(&mut self, label: Name, looped: bool)
        ensures
            *final(self) == old(self).under_label(label, looped),
            final(self).frame() == (Frame {
                labels: List::Cons(Box::new((label, looped)), Box::new(old(self).labels)),
                ..old(self).frame()
            }),
    {
        proof {
            reveal(InferCtx::under_label);
            reveal(InferCtx::frame);
        }
        let labels = take(&mut self.labels);
        self.labels = List::cons((label, looped), labels);
        if looped {
            self.pending_loop_label = Some(label);
        }
    }

    /// Behind a labeled statement.
    #[verifier::opaque]
    pub open spec fn behind_label(self, pending: Option<Name>) -> InferCtx {
        InferCtx { labels: tail(self.labels), pending_loop_label: pending, ..self }
    }

    fn leave_label(&mut self, pending: Option<Name>)
        ensures
            *final(self) == old(self).behind_label(pending),
            final(self).frame() == (Frame { labels: tail(old(self).labels), ..old(self).frame() }),
    {
        proof {
            reveal(InferCtx::behind_label);
            reveal(InferCtx::frame);
        }
        let labels = take(&mut self.labels);
        self.labels = drop_first(labels);
        self.pending_loop_label = pending;
    }

    /// An `if`. Each arm starts where the condition has its outcome. Where the
    /// first arm does not go on, what is bound by the other outcome stays in
    /// scope.
    pub open spec fn choice<D: TyDatabase>(self, db: &D, site: Site, s: Stmt) -> InferCtx
        decreases s, 19nat, List::<MethodData>::Nil,
    {
        match s.kind {
            StmtKind::If { cond, then_arm, else_arm: _ } => {
                let s1 = self.condition(db, site, cond);
                let (t, f) = s1.outcomes();
                let known = s1.known_bool(db, cond);
                let s2 = s1.taken().branch(
                    db,
                    site,
                    t,
                    flow_bindings(cond).0,
                    *then_arm,
                );
                let then_exited = s2.exited || known == Some(false);
                let (s3, else_flow, else_exited) = s2.resumed(self.flow, self.exited).other_arm(
                    db,
                    site,
                    s,
                    f,
                    then_exited,
                );
                s3.arms_merged(
                    (s2.flow, then_exited),
                    (else_flow, else_exited || known == Some(true)),
                    self.flow,
                )
            },
            _ => self,
        }
    }

    /// The other arm of an `if`, from where its condition is false, with the flow
    /// at its end and whether that is not reached.
    pub open spec fn other_arm<D: TyDatabase>(
        self,
        db: &D,
        site: Site,
        s: Stmt,
        flow: Flow,
        then_exited: bool,
    ) -> (InferCtx, Flow, bool)
        decreases s, 18nat, List::<MethodData>::Nil,
    {
        match s.kind {
            StmtKind::If { cond, then_arm: _, else_arm } => match else_arm {
                Some(a) => {
                    let s1 = self.branch(db, site, flow, flow_bindings(cond).1, *a);
                    (s1, s1.flow, s1.exited)
                },
                None => if then_exited && !self.exited {
                    let s1 = (InferCtx { flow, ..self }).scoped_all(flow_bindings(cond).1);
                    (s1, s1.flow, self.exited)
                } else {
                    (self, flow, self.exited)
                },
            },
            _ => (self, flow, self.exited),
        }
    }

    /// Back at a flow.
    #[verifier::opaque]
    pub open spec fn resumed(self, flow: Flow, exited: bool) -> InferCtx {
        InferCtx { flow, exited, ..self }
    }

    fn resume(&mut self, flow: Flow, exited: bool)
        ensures
            *final(self) == old(self).resumed(flow, exited),
            final(self).frame() == old(self).frame(),
    {
        proof {
            reveal(InferCtx::frame);
            reveal(InferCtx::resumed);
        }
        self.flow = flow;
        self.exited = exited;
    }

    /// Behind two arms, each with the flow at its end and whether that is not
    /// reached.
    #[verifier::opaque]
    pub open spec fn arms_merged(self, a: (Flow, bool), b: (Flow, bool), before: Flow) -> InferCtx {
        InferCtx { flow: merged(a.0, a.1, b.0, b.1, before), exited: a.1 && b.1, ..self }
    }

    fn merge_into(&mut self, a: (Flow, bool), b: (Flow, bool), before: Flow)
        ensures
            *final(self) == old(self).arms_merged(a, b, before),
            final(self).frame() == old(self).frame(),
    {
        proof {
            reveal(InferCtx::frame);
            reveal(InferCtx::arms_merged);
        }
        self.flow = merge_arms(a.0, a.1, b.0, b.1, before);
        self.exited = a.1 && b.1;
    }

    /// A statement in a scope of its own, with a flow and the variables that are
    /// bound there.
    pub open spec fn branch<D: TyDatabase>(
        self,
        db: &D,
        site: Site,
        flow: Flow,
        bound: List<Binding>,
        s: Stmt,
    ) -> InferCtx
        decreases s, 22nat, List::<MethodData>::Nil,
    {
        (InferCtx { flow, ..self.entered() }).scoped_all(bound).stmt(db, site, s).left()
    }

    /// The body of a loop, with the flow at its start. The flow that leaves it by
    /// `break` is the second result.
    pub open spec fn loop_body<D: TyDatabase>(self, db: &D, site: Site, flow: Flow, s: Stmt) -> (
        InferCtx,
        Option<Flow>,
    )
        decreases s, 22nat, List::<MethodData>::Nil,
    {
        let s1 = (InferCtx { flow, ..self.looping() }).stmt(db, site, s);
        (
            InferCtx { in_loop: self.in_loop, exited: false, ..s1.unframed() },
            s1.break_flow(),
        )
    }

    /// A `while`. Where its condition is constantly true only a `break` leaves
    /// it.
    pub open spec fn while_loop<D: TyDatabase>(self, db: &D, site: Site, s: Stmt) -> InferCtx
        decreases s, 19nat, List::<MethodData>::Nil,
    {
        match s.kind {
            StmtKind::While { cond, body } => {
                let s1 = self.condition(db, site, cond);
                let endless = s1.known_bool(db, cond) == Some(true);
                let (t, f) = s1.outcomes();
                let s2 = s1.taken();
                let (s3, breaks) = s2.loop_body(
                    db,
                    site,
                    if endless {
                        t
                    } else {
                        s2.flow
                    },
                    *body,
                );
                InferCtx {
                    flow: if endless {
                        flow_or(breaks, self.flow)
                    } else {
                        f
                    },
                    ..s3
                }
            },
            _ => self,
        }
    }

    /// A `do`.
    pub open spec fn do_loop<D: TyDatabase>(self, db: &D, site: Site, s: Stmt) -> InferCtx
        decreases s, 19nat, List::<MethodData>::Nil,
    {
        match s.kind {
            StmtKind::DoWhile { body, cond } => {
                let endless = self.known_bool(db, cond) == Some(true);
                let s1 = self.looping().stmt(db, site, *body);
                let s2 = if !endless && s1.exited {
                    InferCtx { flow: self.flow, ..s1 }
                } else {
                    s1
                };
                let s3 = s2.condition(db, site, cond);
                let s4 = s3.unframed();
                InferCtx {
                    in_loop: self.in_loop,
                    flow: if endless {
                        flow_or(s3.break_flow(), self.flow)
                    } else {
                        s4.flow
                    },
                    exited: false,
                    ..s4
                }
            },
            _ => self,
        }
    }

    /// A `for`. Without a condition only a `break` leaves it.
    pub open spec fn for_loop<D: TyDatabase>(self, db: &D, site: Site, s: Stmt) -> InferCtx
        decreases s, 19nat, List::<MethodData>::Nil,
    {
        match s.kind {
            StmtKind::For { init, cond, step, body } => {
                let s1 = self.entered().stmts(db, site, *init);
                let endless = match cond {
                    Some(c) => s1.known_bool(db, c) == Some(true),
                    None => true,
                };
                let s2 = match cond {
                    Some(c) => s1.condition(db, site, c),
                    None => s1,
                };
                let (t, f) = s2.outcomes();
                let s3 = s2.taken().each(db, site, step);
                let (s4, breaks) = s3.loop_body(db, site, t, *body);
                (InferCtx {
                    flow: if endless {
                        flow_or(breaks, s3.flow)
                    } else {
                        f
                    },
                    ..s4
                }).left()
            },
            _ => self,
        }
    }

    /// A `for` over the elements of an array or an iterable.
    pub open spec fn each_loop<D: TyDatabase>(self, db: &D, site: Site, s: Stmt) -> InferCtx
        decreases s, 19nat, List::<MethodData>::Nil,
    {
        match s.kind {
            StmtKind::ForEach { var, iterable, body } => {
                let (s1, ty) = self.expr(db, site, iterable);
                let (s2, element) = s1.element(db, site, iterable.id, ty);
                let s3 = s2.entered().declared(db, site, var, element);
                let s4 = s3.loop_body(db, site, s3.flow, *body).0;
                (InferCtx { flow: s3.flow, ..s4 }).left()
            },
            _ => self,
        }
    }

    /// The type of the elements of what a `for` goes over.
    #[verifier::opaque]
    pub open spec fn element<D: TyDatabase>(self, db: &D, site: Site, expr: u32, ty: Ty) -> (
        InferCtx,
        Ty,
    ) {
        match ty.component() {
            Some(t) => (self, t),
            None => match element_of(db, site, self.next_var, ty) {
                Some(t) => (self, t),
                None => (
                    if ty is Error {
                        self
                    } else {
                        self.told(TypeError::NonIterableForEach { expr, found: ty })
                    },
                    Ty::Error,
                ),
            },
        }
    }

    fn loop_element<D: TyDatabase>(&mut self, db: &D, site: &Site, expr: u32, ty: Ty) -> (r: Ty)
        ensures
            (*final(self), r) == old(self).element(db, *site, expr, ty),
            final(self).frame() == old(self).frame(),
    {
        proof {
            reveal(InferCtx::element);
        }
        match ty.element() {
            Some(t) => t,
            None => match iterable_element(db, site, self.next_var, &ty) {
                Some(t) => t,
                None => {
                    if !ty.is_error() {
                        self.report(TypeError::NonIterableForEach { expr, found: ty });
                    }
                    Ty::Error
                },
            },
        }
    }

    /// A `switch` that has no value. Each arm starts where the switch does. It
    /// goes on behind it unless it has a default and no arm does.
    pub open spec fn switch<D: TyDatabase>(self, db: &D, site: Site, s: Stmt) -> InferCtx
        decreases s, 19nat, List::<MethodData>::Nil,
    {
        match s.kind {
            StmtKind::Switch { scrutinee, arms } => {
                let (s1, selector) = self.selector(db, site, scrutinee);
                let (s2, paths) = s1.inside_switch().arms(
                    db,
                    site,
                    *arms,
                    selector,
                    s1.flow,
                    s1.exited,
                    List::Nil,
                );
                s2.behind_switch(paths, arm_default(*arms), s1.flow, s1.in_switch)
            },
            _ => self,
        }
    }

    /// Inside a switch that has no value.
    #[verifier::opaque]
    pub open spec fn inside_switch(self) -> InferCtx {
        let s = self.entered();
        (InferCtx {
            case_values: List::Cons(Box::new(List::Nil), Box::new(s.case_values)),
            in_switch: true,
            ..s
        }).framed(None)
    }

    fn enter_switch(&mut self)
        ensures
            *final(self) == old(self).inside_switch(),
            final(self).frame() == (Frame {
                scopes: Some(old(self).scopes),
                case_values: Some(old(self).case_values),
                in_switch: true,
                breaks: List::Cons(Box::new(None), Box::new(old(self).frame().breaks)),
                ..old(self).frame()
            }),
    {
        proof {
            reveal(InferCtx::frame);
            reveal(InferCtx::entered);
            reveal(InferCtx::framed);
            reveal(InferCtx::inside_switch);
        }
        self.push_scope();
        let cases = take(&mut self.case_values);
        self.case_values = List::cons(List::Nil, cases);
        self.in_switch = true;
        self.enter_frame(None);
    }

    /// Behind a switch that has no value: the flow of the arms and the breaks
    /// that go on.
    #[verifier::opaque]
    pub open spec fn behind_switch(
        self,
        paths: List<(Flow, bool)>,
        complete: bool,
        before: Flow,
        in_switch: bool,
    ) -> InferCtx {
        let live = with_breaks(join_live(paths), self.break_flow());
        let s = (InferCtx {
            flow: flow_or(live, before),
            exited: complete && live is None && none_live(paths),
            ..self.unframed()
        }).left();
        InferCtx { case_values: tail(s.case_values), in_switch, ..s }
    }

    fn leave_switch(
        &mut self,
        paths: &List<(Flow, bool)>,
        complete: bool,
        before: Flow,
        in_switch: bool,
    )
        ensures
            *final(self) == old(self).behind_switch(*paths, complete, before, in_switch),
            final(self).frame() == (Frame {
                scopes: under(tail(old(self).scopes)),
                case_values: under(tail(old(self).case_values)),
                in_switch,
                breaks: tail(old(self).frame().breaks),
                ..old(self).frame()
            }),
    {
        proof {
            reveal(InferCtx::frame);
            reveal(InferCtx::unframed);
            reveal(InferCtx::left);
            reveal(InferCtx::behind_switch);
        }
        let breaks = self.leave_frame();
        let live = join_breaks(joined_live(paths), breaks);
        self.exited = complete && live.is_none() && is_none_live(paths);
        self.flow = use_flow_or(live, before);
        self.pop_scope();
        let cases = take(&mut self.case_values);
        self.case_values = drop_first(cases);
        self.in_switch = in_switch;
    }

    /// The arms of a switch that has no value.
    pub open spec fn arms<D: TyDatabase>(
        self,
        db: &D,
        site: Site,
        l: List<SwitchArm>,
        selector: Ty,
        flow: Flow,
        exited: bool,
        paths: List<(Flow, bool)>,
    ) -> (InferCtx, List<(Flow, bool)>)
        decreases l, 0nat, List::<MethodData>::Nil,
    {
        match l {
            List::Nil => (self, paths),
            List::Cons(h, t) => {
                let s = self.entered().resumed(flow, exited).labels_of(
                    db,
                    site,
                    h.labels,
                    selector,
                ).stmts(db, site, h.body);
                s.left().resumed(flow, exited).arms(
                    db,
                    site,
                    *t,
                    selector,
                    flow,
                    exited,
                    List::Cons(Box::new((s.flow, s.exited)), Box::new(paths)),
                )
            },
        }
    }

    /// A `try`. It goes on behind it where its block or a clause does, and its
    /// `finally` block is entered in any case.
    pub open spec fn attempt<D: TyDatabase>(self, db: &D, site: Site, s: Stmt) -> InferCtx
        decreases s, 19nat, List::<MethodData>::Nil,
    {
        match s.kind {
            StmtKind::Try { resources: _, body: _, catches, finally_block } => {
                let (s1, tried) = self.tried_block(db, site, s);
                let (s2, paths) = s1.clauses(
                    db,
                    site,
                    *catches,
                    tried,
                    List::Nil,
                    List::Cons(Box::new((s1.flow, s1.exited)), Box::new(List::Nil)),
                );
                let s3 = s2.left().resumed(
                    flow_or(join_live(paths), tried.flow),
                    none_live(paths),
                );
                match finally_block {
                    None => s3,
                    Some(f) => s3.finally(db, site, *f),
                }
            },
            _ => self,
        }
    }

    /// The resources and the block of a `try`.
    pub open spec fn tried_block<D: TyDatabase>(self, db: &D, site: Site, s: Stmt) -> (
        InferCtx,
        TriedBlock,
    )
        decreases s, 18nat, List::<MethodData>::Nil,
    {
        let before = throwers(self.thrown);
        match s.kind {
            StmtKind::Try { resources, body, catches: _, finally_block: _ } => {
                let (s1, tys) = self.entered().resources(db, site, resources);
                let s2 = s1.stmt(db, site, *body);
                let thrown = s2.thrown.plus(closing(db, site, tys, resources));
                (
                    s2.with_thrown(thrown),
                    TriedBlock {
                        flow: s1.flow,
                        exited: s1.exited,
                        before,
                        thrown: thrown_later(thrown, before),
                    },
                )
            },
            _ => (
                self,
                TriedBlock { flow: self.flow, exited: self.exited, before, thrown: List::Nil },
            ),
        }
    }

    /// Other exceptions thrown.
    #[verifier::opaque]
    pub open spec fn with_thrown(self, thrown: List<(Ty, u32)>) -> InferCtx {
        InferCtx { thrown, ..self }
    }

    fn set_thrown(&mut self, thrown: List<(Ty, u32)>)
        ensures
            *final(self) == old(self).with_thrown(thrown),
            final(self).frame() == old(self).frame(),
    {
        proof {
            reveal(InferCtx::with_thrown);
            reveal(InferCtx::frame);
        }
        self.thrown = thrown;
    }

    /// The `finally` block of a `try`.
    pub open spec fn finally<D: TyDatabase>(self, db: &D, site: Site, s: Stmt) -> InferCtx
        decreases s, 22nat, List::<MethodData>::Nil,
    {
        let s1 = (InferCtx { exited: false, ..self }).stmt(db, site, s);
        InferCtx { exited: s1.exited || self.exited, ..s1 }
    }

    /// The resources of a `try`, and the types of those that have one.
    pub open spec fn resources<D: TyDatabase>(self, db: &D, site: Site, l: List<Resource>) -> (
        InferCtx,
        List<Ty>,
    )
        decreases l, 0nat, List::<MethodData>::Nil,
    {
        match l {
            List::Nil => (self, List::Nil),
            List::Cons(h, t) => {
                let (s, ty) = self.resource(db, site, *h);
                let (s1, rest) = s.resources(db, site, *t);
                (
                    s1,
                    match ty {
                        Some(ty) => List::Cons(Box::new(ty), Box::new(rest)),
                        None => rest,
                    },
                )
            },
        }
    }

    /// A resource of a `try`: a variable that is closed at the end.
    pub open spec fn resource<D: TyDatabase>(self, db: &D, site: Site, r: Resource) -> (
        InferCtx,
        Option<Ty>,
    )
        decreases r, 22nat, List::<MethodData>::Nil,
    {
        match (r.local.ty, r.initializer) {
            (None, None) => (self.declared(db, site, r.local, Ty::Error), None),
            (None, Some(e)) => {
                let (s, ty) = self.expr(db, site, e);
                (s.bound(r.local, ty).closeable_checked(db, r.local.id, e.id), Some(ty))
            },
            (Some(_), None) => {
                let s = self.declared(db, site, r.local, Ty::Error);
                (s, assoc_get(s.locals, r.local.id))
            },
            (Some(_), Some(e)) => {
                let s = self.declared(db, site, r.local, Ty::Error);
                let s1 = s.expr_to(db, site, e, assoc_get(s.locals, r.local.id)).0;
                (
                    s1.closeable_checked(db, r.local.id, e.id),
                    assoc_get(s1.locals, r.local.id),
                )
            },
        }
    }

    /// The clauses of a `try`. Each starts where its block does.
    pub open spec fn clauses<D: TyDatabase>(
        self,
        db: &D,
        site: Site,
        l: List<Catch>,
        tried: TriedBlock,
        earlier: List<Ty>,
        paths: List<(Flow, bool)>,
    ) -> (InferCtx, List<(Flow, bool)>)
        decreases l, 0nat, List::<MethodData>::Nil,
    {
        match l {
            List::Nil => (self, paths),
            List::Cons(h, t) => {
                let tys = clause_types(db, site, *h);
                let s = self.entered().resumed(tried.flow, tried.exited).caught(
                    db,
                    h.param.id,
                    tys,
                    earlier,
                    tried.thrown,
                    tried.before,
                );
                let s1 = s.declared(db, site, h.param, Ty::Error).stmt(db, site, h.body);
                s1.left().resumed(tried.flow, tried.exited).clauses(
                    db,
                    site,
                    *t,
                    tried,
                    caught_so_far(db, earlier, tys),
                    List::Cons(Box::new((s1.flow, s1.exited)), Box::new(paths)),
                )
            },
        }
    }

    /// The state after a statement.
    pub fn infer_stmt<D: TyDatabase>(&mut self, db: &D, site: &Site, s: &Stmt)
        ensures
            *final(self) == old(self).stmt(db, *site, *s),
            final(self).frame() == old(self).frame(),
        decreases s, 21nat, List::<MethodData>::Nil,
    {
        self.infer_stmt_data(db, site, s);
    }

    fn infer_stmt_data<D: TyDatabase>(&mut self, db: &D, site: &Site, s: &Stmt)
        ensures
            *final(self) == old(self).stmt_kind(db, *site, *s),
            final(self).frame() == old(self).frame(),
        decreases s, 20nat, List::<MethodData>::Nil,
    {
        match &s.kind {
            StmtKind::Empty => {},
            StmtKind::Block(l) => {
                proof {
                    self.lemma_frame();
                }
                self.push_scope();
                self.infer_block_statements(db, site, l, false);
                proof {
                    self.lemma_frame();
                }
                self.pop_scope();
            },
            StmtKind::DeclGroup(l) => self.infer_stmts(db, site, l),
            StmtKind::Decl { local: _, initializer: _ } => self.infer_decl(db, site, s),
            StmtKind::Expr(e) => {
                let _ = self.infer_expr(db, site, e);
            },
            StmtKind::Labeled { label: _, stmt: _ } => self.infer_labeled(db, site, s),
            StmtKind::If { cond: _, then_arm: _, else_arm: _ } => self.infer_if(db, site, s),
            StmtKind::While { cond: _, body: _ } => self.infer_while(db, site, s),
            StmtKind::DoWhile { body: _, cond: _ } => self.infer_do_while(db, site, s),
            StmtKind::For { init: _, cond: _, step: _, body: _ } => self.infer_for(db, site, s),
            StmtKind::ForEach { var: _, iterable: _, body: _ } => self.infer_for_each(db, site, s),
            StmtKind::Switch { scrutinee: _, arms: _ } => self.infer_switch(db, site, s),
            StmtKind::Return(e) => match e {
                Some(e) => {
                    let target = self.enclosing_ret.copy();
                    let ty = self.infer_against(db, site, e, target);
                    self.return_value(db, e, ty);
                },
                None => self.set_exited(true),
            },
            StmtKind::Yield(e) => {
                let target = top_of(&self.switch_targets);
                let _ = self.infer_against(db, site, e, target);
            },
            StmtKind::Throw(e) => {
                let ty = self.infer_expr(db, site, e);
                self.throw_value(db, e, ty);
            },
            StmtKind::Break(label) => self.break_out(s.id, *label),
            StmtKind::Continue(label) => self.continue_with(s.id, *label),
            StmtKind::Synchronized { expr, body } => {
                let _ = self.infer_expr(db, site, expr);
                self.infer_stmt(db, site, body);
            },
            StmtKind::Try { resources: _, body: _, catches: _, finally_block: _ } => {
                self.infer_try(db, site, s);
            },
            StmtKind::Assert { cond, msg } => {
                self.check_condition(db, site, cond);
                if let Some(m) = msg {
                    let _ = self.infer_expr(db, site, m);
                }
            },
            StmtKind::LocalClass => {},
            StmtKind::Missing => {},
        }
    }

    /// The statements of a block. `reported` says whether one that cannot be
    /// reached has been reported.
    pub fn infer_block_statements<D: TyDatabase>(
        &mut self,
        db: &D,
        site: &Site,
        l: &List<Stmt>,
        reported: bool,
    )
        ensures
            *final(self) == old(self).block(db, *site, *l, reported),
            final(self).frame() == old(self).frame(),
        decreases l, 0nat, List::<MethodData>::Nil,
    {
        match l {
            List::Nil => self.set_exited(self.exited || reported),
            List::Cons(h, t) => {
                if self.exited && !reported {
                    self.report(TypeError::UnreachableStatement { stmt: h.id });
                    self.set_exited(false);
                    self.infer_stmt(db, site, h);
                    self.infer_block_statements(db, site, t, true);
                } else {
                    self.infer_stmt(db, site, h);
                    self.infer_block_statements(db, site, t, reported);
                }
            },
        }
    }

    fn infer_stmts<D: TyDatabase>(&mut self, db: &D, site: &Site, l: &List<Stmt>)
        ensures
            *final(self) == old(self).stmts(db, *site, *l),
            final(self).frame() == old(self).frame(),
        decreases l, 0nat, List::<MethodData>::Nil,
    {
        match l {
            List::Nil => {},
            List::Cons(h, t) => {
                self.infer_stmt(db, site, h);
                self.infer_stmts(db, site, t);
            },
        }
    }

    fn infer_decl<D: TyDatabase>(&mut self, db: &D, site: &Site, s: &Stmt)
        ensures
            *final(self) == old(self).declaration(db, *site, *s),
            final(self).frame() == old(self).frame(),
        decreases s, 19nat, List::<MethodData>::Nil,
    {
        if let StmtKind::Decl { local, initializer } = &s.kind {
            match &local.ty {
                None => match initializer {
                    None => {
                        self.report(TypeError::VarWithoutInitializer { local: local.id });
                        self.bind_local(local, Ty::Error);
                    },
                    Some(e) => {
                        if is_array_init(e) {
                            self.report(TypeError::VarArrayInitializer { local: local.id });
                            self.bind_local(local, Ty::Error);
                        } else {
                            let ty = self.infer_expr(db, site, e);
                            self.bind_local(local, ty);
                        }
                    },
                },
                Some(written) => {
                    self.declare_local(db, site, local);
                    self.warn_raw_declared_type(db, local);
                    self.check_type_argument_bounds(
                        db,
                        site,
                        DiagLocation::Local(local.id),
                        written,
                    );
                    match initializer {
                        None => {
                            self.leave_blank(local);
                        },
                        Some(e) => {
                            let target = get_assoc(&self.locals, &local.id);
                            let ty = self.infer_against(db, site, e, target.copy());
                            self.record_constant(db, local, e);
                            if let Some(t) = target {
                                if !ty.is_error() && !t.is_error() && !is_array_init(e) {
                                    self.check_value(db, e, &ty, &t);
                                    self.warn_unchecked(db, e.id, &ty, &t);
                                }
                            }
                        },
                    }
                },
            }
        }
    }

    fn infer_labeled<D: TyDatabase>(&mut self, db: &D, site: &Site, s: &Stmt)
        ensures
            *final(self) == old(self).labeled(db, *site, *s),
            final(self).frame() == old(self).frame(),
        decreases s, 19nat, List::<MethodData>::Nil,
    {
        if let StmtKind::Labeled { label, stmt } = &s.kind {
            let looped = is_loop(stmt);
            let mut pending = self.pending_loop_label;
            proof {
                self.lemma_frame();
            }
            self.enter_label(*label, looped);
            if looped {
                self.infer_stmt(db, site, stmt);
            } else {
                self.enter_frame(Some(*label));
                self.infer_stmt(db, site, stmt);
                let breaks = self.leave_frame();
                pending = self.pending_loop_label;
                let flow = match breaks {
                    Some(b) => if self.exited {
                        b
                    } else {
                        self.flow.join_definite(&b)
                    },
                    None => self.flow.copy(),
                };
                self.resume(flow, false);
            }
            proof {
                self.lemma_frame();
            }
            self.leave_label(pending);
        }
    }

    fn infer_if<D: TyDatabase>(&mut self, db: &D, site: &Site, s: &Stmt)
        ensures
            *final(self) == old(self).choice(db, *site, *s),
            final(self).frame() == old(self).frame(),
        decreases s, 19nat, List::<MethodData>::Nil,
    {
        if let StmtKind::If { cond, then_arm, else_arm: _ } = &s.kind {
            let before = self.flow.copy();
            let before_exited = self.exited;
            self.check_condition(db, site, cond);
            let known = self.const_bool(db, cond);
            let (t, f) = self.take_bool_outcomes();
            let (bt, _) = condition_bindings(cond);
            self.infer_branch(db, site, t, &bt, then_arm);
            let then_flow = self.flow.copy();
            let then_exited = self.exited || is_known(known, false);
            self.resume(before.copy(), before_exited);
            let (else_flow, else_exited) = self.infer_other_arm(db, site, s, f, then_exited);
            let else_left = else_exited || is_known(known, true);
            self.merge_into((then_flow, then_exited), (else_flow, else_left), before);
        }
    }

    fn infer_other_arm<D: TyDatabase>(
        &mut self,
        db: &D,
        site: &Site,
        s: &Stmt,
        flow: Flow,
        then_exited: bool,
    ) -> (r: (Flow, bool))
        ensures
            (*final(self), r.0, r.1) == old(self).other_arm(db, *site, *s, flow, then_exited),
            final(self).frame() == old(self).frame(),
        decreases s, 18nat, List::<MethodData>::Nil,
    {
        let exited = self.exited;
        match &s.kind {
            StmtKind::If { cond, then_arm: _, else_arm } => {
                let (_, bf) = condition_bindings(cond);
                match else_arm {
                    Some(a) => {
                        self.infer_branch(db, site, flow, &bf, a);
                        (self.flow.copy(), self.exited)
                    },
                    None => {
                        if then_exited && !exited {
                            self.set_flow(flow);
                            self.scope_bindings(&bf);
                            (self.flow.copy(), exited)
                        } else {
                            (flow, exited)
                        }
                    },
                }
            },
            _ => (flow, exited),
        }
    }

    fn infer_branch<D: TyDatabase>(
        &mut self,
        db: &D,
        site: &Site,
        flow: Flow,
        bound: &List<Binding>,
        s: &Stmt,
    )
        ensures
            *final(self) == old(self).branch(db, *site, flow, *bound, *s),
            final(self).frame() == old(self).frame(),
        decreases s, 22nat, List::<MethodData>::Nil,
    {
        proof {
            self.lemma_frame();
        }
        self.push_scope();
        self.set_flow(flow);
        self.scope_bindings(bound);
        self.infer_stmt(db, site, s);
        proof {
            self.lemma_frame();
        }
        self.pop_scope();
    }

    fn infer_loop_body<D: TyDatabase>(&mut self, db: &D, site: &Site, flow: Flow, s: &Stmt) -> (r:
        Option<Flow>)
        ensures
            (*final(self), r) == old(self).loop_body(db, *site, flow, *s),
            final(self).frame() == old(self).frame(),
        decreases s, 22nat, List::<MethodData>::Nil,
    {
        proof {
            self.lemma_frame();
        }
        let was = self.enter_loop();
        self.set_flow(flow);
        self.infer_stmt(db, site, s);
        self.leave_loop(was)
    }

    fn infer_while<D: TyDatabase>(&mut self, db: &D, site: &Site, s: &Stmt)
        ensures
            *final(self) == old(self).while_loop(db, *site, *s),
            final(self).frame() == old(self).frame(),
        decreases s, 19nat, List::<MethodData>::Nil,
    {
        if let StmtKind::While { cond, body } = &s.kind {
            let before = self.flow.copy();
            self.check_condition(db, site, cond);
            let endless = is_known(self.const_bool(db, cond), true);
            let (t, f) = self.take_bool_outcomes();
            let start = if endless {
                t
            } else {
                self.flow.copy()
            };
            let breaks = self.infer_loop_body(db, site, start, body);
            let after = if endless {
                use_flow_or(breaks, before)
            } else {
                f
            };
            self.set_flow(after);
        }
    }

    fn infer_do_while<D: TyDatabase>(&mut self, db: &D, site: &Site, s: &Stmt)
        ensures
            *final(self) == old(self).do_loop(db, *site, *s),
            final(self).frame() == old(self).frame(),
        decreases s, 19nat, List::<MethodData>::Nil,
    {
        if let StmtKind::DoWhile { body, cond } = &s.kind {
            let before = self.flow.copy();
            let endless = is_known(self.const_bool(db, cond), true);
            proof {
                self.lemma_frame();
            }
            let was = self.enter_loop();
            self.infer_stmt(db, site, body);
            if !endless && self.exited {
                self.set_flow(before.copy());
            }
            self.check_condition(db, site, cond);
            let breaks = self.leave_loop(was);
            if endless {
                self.set_flow(use_flow_or(breaks, before));
            }
        }
    }

    fn infer_for<D: TyDatabase>(&mut self, db: &D, site: &Site, s: &Stmt)
        ensures
            *final(self) == old(self).for_loop(db, *site, *s),
            final(self).frame() == old(self).frame(),
        decreases s, 19nat, List::<MethodData>::Nil,
    {
        if let StmtKind::For { init, cond, step, body } = &s.kind {
            proof {
                self.lemma_frame();
            }
            self.push_scope();
            self.infer_stmts(db, site, init);
            let mut endless = true;
            if let Some(c) = cond {
                endless = is_known(self.const_bool(db, c), true);
                self.check_condition(db, site, c);
            }
            let (t, f) = self.take_bool_outcomes();
            self.infer_each(db, site, step);
            let before = self.flow.copy();
            let breaks = self.infer_loop_body(db, site, t, body);
            let after = if endless {
                use_flow_or(breaks, before)
            } else {
                f
            };
            self.set_flow(after);
            proof {
                self.lemma_frame();
            }
            self.pop_scope();
        }
    }

    fn infer_for_each<D: TyDatabase>(&mut self, db: &D, site: &Site, s: &Stmt)
        ensures
            *final(self) == old(self).each_loop(db, *site, *s),
            final(self).frame() == old(self).frame(),
        decreases s, 19nat, List::<MethodData>::Nil,
    {
        if let StmtKind::ForEach { var, iterable, body } = &s.kind {
            let ty = self.infer_expr(db, site, iterable);
            let element = self.loop_element(db, site, iterable.id, ty);
            proof {
                self.lemma_frame();
            }
            self.push_scope();
            self.declare_local_ty(db, site, var, element);
            let before = self.flow.copy();
            let _ = self.infer_loop_body(db, site, before.copy(), body);
            self.set_flow(before);
            proof {
                self.lemma_frame();
            }
            self.pop_scope();
        }
    }

    fn infer_switch<D: TyDatabase>(&mut self, db: &D, site: &Site, s: &Stmt)
        ensures
            *final(self) == old(self).switch(db, *site, *s),
            final(self).frame() == old(self).frame(),
        decreases s, 19nat, List::<MethodData>::Nil,
    {
        if let StmtKind::Switch { scrutinee, arms } = &s.kind {
            let selector = self.infer_switch_selector(db, site, scrutinee);
            let was = self.in_switch;
            let before = self.flow.copy();
            let before_exited = self.exited;
            proof {
                self.lemma_frame();
            }
            self.enter_switch();
            let paths = self.infer_arms(
                db,
                site,
                arms,
                &selector,
                &before,
                before_exited,
                List::Nil,
            );
            proof {
                self.lemma_frame();
            }
            self.leave_switch(&paths, has_default(arms), before, was);
        }
    }

    fn infer_arms<D: TyDatabase>(
        &mut self,
        db: &D,
        site: &Site,
        l: &List<SwitchArm>,
        selector: &Ty,
        flow: &Flow,
        exited: bool,
        paths: List<(Flow, bool)>,
    ) -> (r: List<(Flow, bool)>)
        ensures
            (*final(self), r) == old(self).arms(db, *site, *l, *selector, *flow, exited, paths),
            final(self).frame() == old(self).frame(),
        decreases l, 0nat, List::<MethodData>::Nil,
    {
        match l {
            List::Nil => paths,
            List::Cons(h, t) => {
                proof {
                    self.lemma_frame();
                }
                self.push_scope();
                self.resume(flow.copy(), exited);
                self.infer_labels(db, site, &h.labels, selector);
                self.infer_stmts(db, site, &h.body);
                let paths = List::cons((self.flow.copy(), self.exited), paths);
                proof {
                    self.lemma_frame();
                }
                self.pop_scope();
                self.resume(flow.copy(), exited);
                self.infer_arms(db, site, t, selector, flow, exited, paths)
            },
        }
    }

    fn infer_try<D: TyDatabase>(&mut self, db: &D, site: &Site, s: &Stmt)
        ensures
            *final(self) == old(self).attempt(db, *site, *s),
            final(self).frame() == old(self).frame(),
        decreases s, 19nat, List::<MethodData>::Nil,
    {
        if let StmtKind::Try { resources: _, body: _, catches, finally_block } = &s.kind {
            proof {
                self.lemma_frame();
            }
            let tried = self.infer_tried_block(db, site, s);
            let first = List::cons((self.flow.copy(), self.exited), List::Nil);
            let paths = self.infer_clauses(db, site, catches, &tried, List::Nil, first);
            proof {
                self.lemma_frame();
            }
            self.pop_scope();
            self.resume(use_flow_or(joined_live(&paths), tried.flow), is_none_live(&paths));
            if let Some(f) = finally_block {
                self.infer_finally(db, site, f);
            }
        }
    }

    fn infer_tried_block<D: TyDatabase>(&mut self, db: &D, site: &Site, s: &Stmt) -> (r: Tried)
        ensures
            (*final(self), r.block()) == old(self).tried_block(db, *site, *s),
            s.kind is Try ==> final(self).frame() == (Frame {
                scopes: Some(old(self).scopes),
                ..old(self).frame()
            }),
        decreases s, 18nat, List::<MethodData>::Nil,
    {
        let before = find_throwers(&self.thrown);
        match &s.kind {
            StmtKind::Try { resources, body, catches: _, finally_block: _ } => {
                self.push_scope();
                let tys = self.infer_resources(db, site, resources);
                let flow = self.flow.copy();
                let exited = self.exited;
                self.infer_stmt(db, site, body);
                let thrown = self.thrown.copy().append(find_closing(db, site, &tys, resources));
                let later = find_thrown_later(&thrown, &before);
                self.set_thrown(thrown);
                Tried { flow, exited, before, thrown: later }
            },
            _ => Tried { flow: self.flow.copy(), exited: self.exited, before, thrown: List::Nil },
        }
    }

    fn infer_finally<D: TyDatabase>(&mut self, db: &D, site: &Site, s: &Stmt)
        ensures
            *final(self) == old(self).finally(db, *site, *s),
            final(self).frame() == old(self).frame(),
        decreases s, 22nat, List::<MethodData>::Nil,
    {
        let all_left = self.exited;
        self.set_exited(false);
        self.infer_stmt(db, site, s);
        self.set_exited(self.exited || all_left);
    }

    fn infer_resources<D: TyDatabase>(&mut self, db: &D, site: &Site, l: &List<Resource>) -> (r: List<
        Ty,
    >)
        ensures
            (*final(self), r) == old(self).resources(db, *site, *l),
            final(self).frame() == old(self).frame(),
        decreases l, 0nat, List::<MethodData>::Nil,
    {
        match l {
            List::Nil => List::Nil,
            List::Cons(h, t) => {
                let ty = self.infer_resource(db, site, h);
                let rest = self.infer_resources(db, site, t);
                match ty {
                    Some(ty) => List::cons(ty, rest),
                    None => rest,
                }
            },
        }
    }

    fn infer_resource<D: TyDatabase>(&mut self, db: &D, site: &Site, r: &Resource) -> (out: Option<Ty>)
        ensures
            (*final(self), out) == old(self).resource(db, *site, *r),
            final(self).frame() == old(self).frame(),
        decreases r, 22nat, List::<MethodData>::Nil,
    {
        match (&r.local.ty, &r.initializer) {
            (None, None) => {
                self.declare_local(db, site, &r.local);
                None
            },
            (None, Some(e)) => {
                let ty = self.infer_expr(db, site, e);
                self.bind_local(&r.local, ty.copy());
                self.check_closeable(db, r.local.id, e.id);
                Some(ty)
            },
            (Some(_), None) => {
                self.declare_local(db, site, &r.local);
                get_assoc(&self.locals, &r.local.id)
            },
            (Some(_), Some(e)) => {
                self.declare_local(db, site, &r.local);
                let target = get_assoc(&self.locals, &r.local.id);
                let _ = self.infer_against(db, site, e, target);
                let ty = get_assoc(&self.locals, &r.local.id);
                self.check_closeable(db, r.local.id, e.id);
                ty
            },
        }
    }

    fn infer_clauses<D: TyDatabase>(
        &mut self,
        db: &D,
        site: &Site,
        l: &List<Catch>,
        tried: &Tried,
        earlier: List<Ty>,
        paths: List<(Flow, bool)>,
    ) -> (r: List<(Flow, bool)>)
        ensures
            (*final(self), r) == old(self).clauses(db, *site, *l, tried.block(), earlier, paths),
            final(self).frame() == old(self).frame(),
        decreases l, 0nat, List::<MethodData>::Nil,
    {
        match l {
            List::Nil => paths,
            List::Cons(h, t) => {
                proof {
                    self.lemma_frame();
                }
                self.push_scope();
                self.resume(tried.flow.copy(), tried.exited);
                let tys = find_clause_types(db, site, h);
                self.catch(db, h.param.id, &tys, &earlier, &tried.thrown, &tried.before);
                self.declare_local(db, site, &h.param);
                self.infer_stmt(db, site, &h.body);
                let paths = List::cons((self.flow.copy(), self.exited), paths);
                proof {
                    self.lemma_frame();
                }
                self.pop_scope();
                self.resume(tried.flow.copy(), tried.exited);
                let earlier = extend_caught(db, earlier, tys);
                self.infer_clauses(db, site, t, tried, earlier, paths)
            },
        }
    }
}

/// The end of a block behind a statement that was reported as unreachable is
/// not reached, so that no report follows from it.
pub proof fn law_unreachable_end<D: TyDatabase>(s: InferCtx, db: &D, site: Site, l: List<Stmt>)
    ensures
        s.block(db, site, l, true).exited,
    decreases l,
{
    if let List::Cons(h, t) = l {
        law_unreachable_end(s.stmt(db, site, *h), db, site, *t);
    }
}

/// Behind a statement that cannot complete, the end of a block is not reached,
/// whatever statements follow.
pub proof fn law_nothing_behind_an_exit<D: TyDatabase>(
    s: InferCtx,
    db: &D,
    site: Site,
    l: List<Stmt>,
)
    requires
        s.exited,
    ensures
        s.block(db, site, l, false).exited,
{
    if let List::Cons(h, t) = l {
        let told = s.told(TypeError::UnreachableStatement { stmt: h.id });
        law_unreachable_end((InferCtx { exited: false, ..told }).stmt(db, site, *h), db, site, *t);
    }
}

/// A `finally` block does not make a `try` complete that did not without it.
pub proof fn law_finally_keeps_exits<D: TyDatabase>(s: InferCtx, db: &D, site: Site, block: Stmt)
    requires
        s.exited,
    ensures
        s.finally(db, site, block).exited,
{
}

} // verus!
