//! The types of expressions, from the inside out.
use crate::body::{AssignOp, BinaryOp, Expr, ExprKind, Stmt, StmtKind, SwitchArm, SwitchLabel, UnaryOp};
use crate::db::TyDatabase;
use crate::infer::ctx::{
    bool_flow, drop_first, is_bool_flow_expr, tail, take, under, Binding, Frame, InferCtx, Site,
};
use crate::infer::diag::{EarlyReference, TypeError};
use crate::infer::field::{bare_this, is_bare_this};
use crate::infer::flow::{join_live, joined_live, Flow};
use crate::infer::local::{
    bindings, condition_bindings, flow_bindings, pattern_bindings_of, pattern_ref, pattern_type_ref,
};
use crate::infer::lookup::{dotted_type, dotted_type_name};
use crate::infer::poly::{expr_is_poly, expr_is_poly_ext, poly, poly_ext};
use crate::infer::simple::{
    choice_of, choose_type_of, class_literal, class_literal_ty, literal_ty, literal_type,
};
use crate::infer::switch::{exhaustive, switch_is_exhaustive};
use crate::list::{assoc_get, get_assoc, lemma_assoc, Data, List};
use crate::member::MethodData;
use crate::names::Name;
use crate::ty::{class_of, PrimitiveType, Ty};
use crate::walk::DiagLocation;
use vstd::prelude::*;

verus! {

/// The value of a stack's first element, where it has one.
pub open spec fn top<T>(l: List<Option<T>>) -> Option<T> {
    match l {
        List::Nil => None,
        List::Cons(h, _) => *h,
    }
}

pub fn top_of<T: Data>(l: &List<Option<T>>) -> (r: Option<T>)
    ensures
        r == top(*l),
{
    match l {
        List::Nil => None,
        List::Cons(h, _) => h.copy(),
    }
}

impl InferCtx {
    /// The state after an expression, and its type.
    pub open spec fn expr<D: TyDatabase>(self, db: &D, site: Site, e: Expr) -> (InferCtx, Ty)
        decreases e, 20nat, List::<MethodData>::Nil,
    {
        let (s, ty) = self.expr_kind(db, site, e);
        let s1 = s.typed(e.id, ty);
        if bool_flow(e) {
            (s1, ty)
        } else {
            (InferCtx { bool_outcomes: Some((s1.flow, s1.flow)), ..s1 }, ty)
        }
    }

    /// The type of an expression by its form.
    pub open spec fn expr_kind<D: TyDatabase>(self, db: &D, site: Site, e: Expr) -> (InferCtx, Ty)
        decreases e, 19nat, List::<MethodData>::Nil,
    {
        match e.kind {
            ExprKind::Literal(l) => (self, literal_type(l)),
            ExprKind::Null => (self, Ty::Null),
            ExprKind::This { qualifier } => self.this_type(db, site, e.id, qualifier),
            ExprKind::Super { qualifier: _ } => (
                self.super_checked(site, e.id).early_checked(e.id, EarlyReference::Super),
                Ty::Error,
            ),
            ExprKind::ClassLit(t) => (
                self,
                class_literal(db.resolved_type(site.file, site.item, t.shape)),
            ),
            ExprKind::Var(name) => self.var_type(db, site, e.id, name),
            ExprKind::NamePath(path) => self.path_type(db, site, e.id, path),
            ExprKind::FieldAccess { target: _, name: _ } => self.field_expr(db, site, e),
            ExprKind::ArrayAccess { array: _, index: _ } => self.element_expr(db, site, e),
            ExprKind::MethodCall { receiver: _, name: _, type_args: _, args: _ } => self.call_expr(
                db,
                site,
                e,
            ),
            ExprKind::CtorCall { args: _, target: _ } => self.ctor_expr(db, site, e),
            ExprKind::New { ty: _, args: _, diamond: _, anonymous: _, receiver: _ } => self.new_object(
                db,
                site,
                e,
            ),
            ExprKind::NewArray { ty: _, dims: _, initializer: _ } => self.array_expr(db, site, e),
            ExprKind::ArrayInit(l) => {
                let (s, tys) = self.each_type(db, site, *l);
                (s, Ty::Array(Box::new(choice_of(db, tys))))
            },
            ExprKind::Unary { op: _, expr: _ } => self.prefix_expr(db, site, e),
            ExprKind::Postfix { expr: _ } => self.postfix_expr(db, site, e),
            ExprKind::Binary { op: _, lhs: _, rhs: _ } => self.operation(db, site, e),
            ExprKind::Assign { op: _, lhs: _, rhs: _ } => self.assignment(db, site, e),
            ExprKind::Cast { ty: _, expr: _ } => self.cast_expr(db, site, e),
            ExprKind::InstanceOf { expr: _, pattern: _, ty: _ } => (
                self.instance_test(db, site, e),
                Ty::Primitive(PrimitiveType::Boolean),
            ),
            ExprKind::Conditional { cond: _, then_arm: _, else_arm: _ } => self.conditional(
                db,
                site,
                e,
            ),
            ExprKind::Lambda { params: _, body: _ } => self.lambda_expr(db, site, e),
            ExprKind::MethodRef { qualifier: _, named: _, name: _ } => self.reference_expr(
                db,
                site,
                e,
            ),
            ExprKind::Switch { scrutinee: _, arms: _ } => self.switch_value(db, site, e),
            ExprKind::Paren(inner) => self.expr(db, site, *inner),
            ExprKind::Template { args } => (self.each(db, site, *args), class_of(Name::String)),
            ExprKind::Missing => (self, Ty::Error),
        }
    }

    /// The access to an element of an array.
    pub open spec fn element_expr<D: TyDatabase>(self, db: &D, site: Site, e: Expr) -> (
        InferCtx,
        Ty,
    )
        decreases e, 18nat, List::<MethodData>::Nil,
    {
        match e.kind {
            ExprKind::ArrayAccess { array, index } => {
                let s = self.read(db, site, *index).0;
                let (s1, ty) = s.read(db, site, *array);
                (
                    s1,
                    match ty.component() {
                        Some(t) => t,
                        None => Ty::Error,
                    },
                )
            },
            _ => (self, Ty::Error),
        }
    }

    /// The creation of an array.
    pub open spec fn array_expr<D: TyDatabase>(self, db: &D, site: Site, e: Expr) -> (InferCtx, Ty)
        decreases e, 18nat, List::<MethodData>::Nil,
    {
        match e.kind {
            ExprKind::NewArray { ty, dims, initializer } => {
                let s = self.targeted(None).each(db, site, *dims);
                let s1 = match initializer {
                    Some(l) => s.each(db, site, *l),
                    None => s,
                };
                s1.targeted(self.target).array_created(
                    e.id,
                    db.resolved_type(site.file, site.item, ty.shape),
                    *dims,
                )
            },
            _ => (self, Ty::Error),
        }
    }

    /// An operator before its operand.
    pub open spec fn prefix_expr<D: TyDatabase>(self, db: &D, site: Site, e: Expr) -> (InferCtx, Ty)
        decreases e, 18nat, List::<MethodData>::Nil,
    {
        match e.kind {
            ExprKind::Unary { op, expr } => {
                let (s, inner) = (InferCtx {
                    mutating: op == UnaryOp::Inc || op == UnaryOp::Dec,
                    ..self
                }).expr_to(db, site, *expr, None);
                (InferCtx { mutating: false, ..s }).unary_type(op, expr.id, inner)
            },
            _ => (self, Ty::Error),
        }
    }

    /// An operator behind its operand.
    pub open spec fn postfix_expr<D: TyDatabase>(self, db: &D, site: Site, e: Expr) -> (
        InferCtx,
        Ty,
    )
        decreases e, 18nat, List::<MethodData>::Nil,
    {
        match e.kind {
            ExprKind::Postfix { expr } => {
                let (s, ty) = (InferCtx { mutating: true, ..self }).expr(db, site, *expr);
                (InferCtx { mutating: false, ..s }, ty)
            },
            _ => (self, Ty::Error),
        }
    }

    /// An operator between two operands. Both are evaluated, except by `&&` and
    /// `||`.
    pub open spec fn operation<D: TyDatabase>(self, db: &D, site: Site, e: Expr) -> (InferCtx, Ty)
        decreases e, 18nat, List::<MethodData>::Nil,
    {
        match e.kind {
            ExprKind::Binary { op, lhs, rhs } => if op == BinaryOp::And || op == BinaryOp::Or {
                (self.logical(db, site, e), Ty::Primitive(PrimitiveType::Boolean))
            } else {
                let (s, lt) = self.targeted(None).expr(db, site, *lhs);
                let (s1, rt) = s.expr(db, site, *rhs);
                s1.targeted(self.target).binary_type(db, op, (lhs.id, lt), (rhs.id, rt))
            },
            _ => (self, Ty::Error),
        }
    }

    /// An expression that should have a type.
    pub open spec fn expr_to<D: TyDatabase>(
        self,
        db: &D,
        site: Site,
        e: Expr,
        target: Option<Ty>,
    ) -> (InferCtx, Ty)
        decreases e, 21nat, List::<MethodData>::Nil,
    {
        let (s, ty) = self.targeted(target).expr(db, site, e);
        (s.targeted(self.target), ty)
    }

    /// An expression that is read, wherever it stands.
    pub open spec fn read<D: TyDatabase>(self, db: &D, site: Site, e: Expr) -> (InferCtx, Ty)
        decreases e, 21nat, List::<MethodData>::Nil,
    {
        let (s, ty) = (InferCtx { mutating: false, writing: false, ..self }).expr(db, site, e);
        (InferCtx { mutating: self.mutating, writing: self.writing, ..s }, ty)
    }

    /// An expression that is a condition.
    pub open spec fn condition<D: TyDatabase>(self, db: &D, site: Site, e: Expr) -> InferCtx
        decreases e, 22nat, List::<MethodData>::Nil,
    {
        let (s, ty) = self.expr_to(db, site, e, None);
        s.condition_checked(e.id, ty)
    }

    /// The value that a switch selects by.
    pub open spec fn selector<D: TyDatabase>(self, db: &D, site: Site, e: Expr) -> (InferCtx, Ty)
        decreases e, 22nat, List::<MethodData>::Nil,
    {
        let (s, ty) = self.expr_to(db, site, e, None);
        (s.selector_checked(e.id, ty), ty)
    }

    /// A label of a switch: a constant of the enum that is selected by, or an
    /// expression.
    pub open spec fn label<D: TyDatabase>(
        self,
        db: &D,
        site: Site,
        e: Expr,
        selector: Ty,
    ) -> InferCtx
        decreases e, 22nat, List::<MethodData>::Nil,
    {
        if names_constant(db, e, selector) {
            self.typed(e.id, selector)
        } else {
            let (s, ty) = self.expr_to(db, site, e, None);
            s.label_checked(db, e, ty, selector)
        }
    }

    /// The labels of an arm.
    pub open spec fn labels_of<D: TyDatabase>(
        self,
        db: &D,
        site: Site,
        l: List<SwitchLabel>,
        selector: Ty,
    ) -> InferCtx
        decreases l, 0nat, List::<MethodData>::Nil,
    {
        match l {
            List::Nil => self,
            List::Cons(h, t) => {
                let s = match *h {
                    SwitchLabel::Expr(e) => self.label(db, site, e, selector),
                    SwitchLabel::Pattern(p) => self.after_pattern(db, site, p).scoped_all(
                        bindings(p),
                    ),
                    SwitchLabel::Guard(e) => self.condition(db, site, e),
                };
                s.labels_of(db, site, *t, selector)
            },
        }
    }

    /// The expressions one after the other.
    pub open spec fn each<D: TyDatabase>(self, db: &D, site: Site, l: List<Expr>) -> InferCtx
        decreases l, 0nat, List::<MethodData>::Nil,
    {
        match l {
            List::Nil => self,
            List::Cons(h, t) => self.expr(db, site, *h).0.each(db, site, *t),
        }
    }

    /// The expressions one after the other, with their types.
    pub open spec fn each_type<D: TyDatabase>(self, db: &D, site: Site, l: List<Expr>) -> (
        InferCtx,
        List<Ty>,
    )
        decreases l, 0nat, List::<MethodData>::Nil,
    {
        match l {
            List::Nil => (self, List::Nil),
            List::Cons(h, t) => {
                let (s, ty) = self.expr(db, site, *h);
                let (s1, rest) = s.each_type(db, site, *t);
                (s1, List::Cons(Box::new(ty), Box::new(rest)))
            },
        }
    }

    /// The access to a field.
    pub open spec fn field_expr<D: TyDatabase>(self, db: &D, site: Site, e: Expr) -> (InferCtx, Ty)
        decreases e, 18nat, List::<MethodData>::Nil,
    {
        match e.kind {
            ExprKind::FieldAccess { target, name } => match target {
                None => self.var_type(db, site, e.id, name),
                Some(t) => if t.kind is Super {
                    self.super_field(db, site, t.id, e.id, name)
                } else {
                    match dotted_type(db, site, self.scopes, *t) {
                        Some(class) => self.field_of(
                            db,
                            site,
                            e.id,
                            class,
                            true,
                            bare_this(*t),
                            name,
                        ),
                        None => {
                            let (s, receiver) = self.read(db, site, *t);
                            s.field_of(db, site, e.id, receiver, false, bare_this(*t), name)
                        },
                    }
                },
            },
            _ => (self, Ty::Error),
        }
    }

    /// `&&` or `||`: the right operand is evaluated where the left one leaves
    /// the outcome open, with the variables that are bound there.
    pub open spec fn logical<D: TyDatabase>(self, db: &D, site: Site, e: Expr) -> InferCtx
        decreases e, 17nat, List::<MethodData>::Nil,
    {
        match e.kind {
            ExprKind::Binary { op, lhs, rhs } => {
                let both = op == BinaryOp::And;
                let s = self.condition(db, site, *lhs);
                let (lt, lf) = s.outcomes();
                let (bt, bf) = flow_bindings(*lhs);
                let s1 = s.taken().branch_condition(
                    db,
                    site,
                    if both {
                        lt
                    } else {
                        lf
                    },
                    if both {
                        bt
                    } else {
                        bf
                    },
                    *rhs,
                );
                let (rt, rf) = s1.outcomes();
                let (t, f) = if both {
                    (rt, lf.join(rf))
                } else {
                    (lt.join(rt), rf)
                };
                InferCtx { flow: t.join(f), bool_outcomes: Some((t, f)), ..s1.taken() }
            },
            _ => self,
        }
    }

    /// A condition in a scope of its own, with a flow and the variables that are
    /// bound there.
    pub open spec fn branch_condition<D: TyDatabase>(
        self,
        db: &D,
        site: Site,
        flow: Flow,
        bound: List<Binding>,
        e: Expr,
    ) -> InferCtx
        decreases e, 23nat, List::<MethodData>::Nil,
    {
        (InferCtx { flow, ..self.entered() }).scoped_all(bound).condition(db, site, e).left()
    }

    /// An expression in a scope of its own, with a flow and the variables that
    /// are bound there.
    pub open spec fn branch_expr<D: TyDatabase>(
        self,
        db: &D,
        site: Site,
        flow: Flow,
        bound: List<Binding>,
        e: Expr,
    ) -> (InferCtx, Ty)
        decreases e, 23nat, List::<MethodData>::Nil,
    {
        let (s, ty) = (InferCtx { flow, ..self.entered() }).scoped_all(bound).expr(db, site, e);
        (s.left(), ty)
    }

    /// An assignment.
    pub open spec fn assignment<D: TyDatabase>(self, db: &D, site: Site, e: Expr) -> (InferCtx, Ty)
        decreases e, 18nat, List::<MethodData>::Nil,
    {
        match e.kind {
            ExprKind::Assign { op, lhs, rhs } => {
                let plain = op == AssignOp::Assign;
                let (s, lt) = (InferCtx {
                    mutating: true,
                    writing: plain || self.writing,
                    ..self
                }).expr(db, site, *lhs);
                let s1 = InferCtx { mutating: false, writing: !plain && s.writing, ..s };
                let (s2, rt) = s1.expr_to(db, site, *rhs, Some(lt));
                if plain {
                    (
                        s2.assigned(*lhs).field_written(db, site, *lhs).value_checked(
                            db,
                            *rhs,
                            rt,
                            lt,
                        ).unchecked_checked(db, rhs.id, rt, lt),
                        lt,
                    )
                } else {
                    (s2, lt)
                }
            },
            _ => (self, Ty::Error),
        }
    }

    /// A cast.
    pub open spec fn cast_expr<D: TyDatabase>(self, db: &D, site: Site, e: Expr) -> (InferCtx, Ty)
        decreases e, 18nat, List::<MethodData>::Nil,
    {
        match e.kind {
            ExprKind::Cast { ty, expr } => {
                let s = self.bounds_checked(db, site, DiagLocation::Expr(expr.id), ty);
                let t = db.resolved_type(site.file, site.item, ty.shape);
                if poly(*expr) {
                    (s.expr_to(db, site, *expr, Some(t)).0, t)
                } else {
                    let (s1, found) = s.expr_to(db, site, *expr, None);
                    (s1.cast_checked(db, expr.id, found, t), t)
                }
            },
            _ => (self, Ty::Error),
        }
    }

    /// An `instanceof`.
    pub open spec fn instance_test<D: TyDatabase>(self, db: &D, site: Site, e: Expr) -> InferCtx
        decreases e, 18nat, List::<MethodData>::Nil,
    {
        match e.kind {
            ExprKind::InstanceOf { expr, pattern, ty } => {
                let s = self.expr(db, site, *expr).0;
                let s1 = match ty {
                    Some(t) => s.target_checked(db, site, expr.id, t),
                    None => s,
                };
                match pattern {
                    Some(p) => {
                        let s2 = s1.after_pattern(db, site, *p);
                        match pattern_ref(*p) {
                            Some(t) => s2.target_checked(db, site, expr.id, t),
                            None => s2,
                        }
                    },
                    None => s1,
                }
            },
            _ => self,
        }
    }

    /// A choice. Each arm starts where the condition has its outcome, and what
    /// both know is known after it.
    pub open spec fn conditional<D: TyDatabase>(self, db: &D, site: Site, e: Expr) -> (InferCtx, Ty)
        decreases e, 18nat, List::<MethodData>::Nil,
    {
        match e.kind {
            ExprKind::Conditional { cond, then_arm, else_arm } => {
                let s = self.condition(db, site, *cond);
                let (t, f) = s.outcomes();
                let (bt, bf) = flow_bindings(*cond);
                let (s1, a) = s.taken().branch_expr(
                    db,
                    site,
                    t,
                    bt,
                    *then_arm,
                );
                let (s2, b) = s1.branch_expr(db, site, f, bf, *else_arm);
                let joined = s1.flow.join(s2.flow);
                (InferCtx {
                    flow: joined,
                    bool_outcomes: Some((joined, joined)),
                    ..s2
                }).arms_joined(
                    db,
                    e.id,
                    poly_ext(*then_arm) || poly_ext(*else_arm),
                    a,
                    b,
                )
            },
            _ => (self, Ty::Error),
        }
    }

    /// The type of a choice: what is expected, where an arm depends on that, and
    /// otherwise what its arms have in common.
    #[verifier::opaque]
    pub open spec fn arms_joined<D: TyDatabase>(
        self,
        db: &D,
        expr: u32,
        depends: bool,
        a: Ty,
        b: Ty,
    ) -> (InferCtx, Ty) {
        match self.target {
            Some(target) => if depends {
                (
                    self,
                    if a is Error || b is Error {
                        Ty::Error
                    } else {
                        target
                    },
                )
            } else {
                self.choice_made(db, expr, a, b)
            },
            None => self.choice_made(db, expr, a, b),
        }
    }

    fn join_arms<D: TyDatabase>(&mut self, db: &D, expr: u32, depends: bool, a: Ty, b: Ty) -> (r: Ty)
        ensures
            (*final(self), r) == old(self).arms_joined(db, expr, depends, a, b),
            final(self).frame() == old(self).frame(),
            final(self).exited == old(self).exited,
    {
        proof {
            reveal(InferCtx::arms_joined);
        }
        if depends {
            if let Some(target) = &self.target {
                return if a.is_error() || b.is_error() {
                    Ty::Error
                } else {
                    target.copy()
                };
            }
        }
        self.make_choice(db, expr, a, b)
    }

    /// A switch that has a value.
    pub open spec fn switch_value<D: TyDatabase>(self, db: &D, site: Site, e: Expr) -> (
        InferCtx,
        Ty,
    )
        decreases e, 18nat, List::<MethodData>::Nil,
    {
        match e.kind {
            ExprKind::Switch { scrutinee, arms } => {
                let (s, selector) = self.selector(db, site, *scrutinee);
                let (s1, results, paths) = s.in_value_switch().value_arms(
                    db,
                    site,
                    *arms,
                    selector,
                    s.flow,
                    s.exited,
                    List::Nil,
                    List::Nil,
                );
                let s2 = s1.after_value_switch(paths);
                let s3 = if exhaustive(db, selector, *arms) {
                    s2
                } else {
                    s2.told(TypeError::NotExhaustive { expr: e.id })
                };
                (s3, choice_of(db, results))
            },
            _ => (self, Ty::Error),
        }
    }

    /// Inside a switch that has a value.
    #[verifier::opaque]
    pub open spec fn in_value_switch(self) -> InferCtx {
        InferCtx {
            switch_targets: List::Cons(Box::new(self.target), Box::new(self.switch_targets)),
            case_values: List::Cons(Box::new(List::Nil), Box::new(self.case_values)),
            ..self
        }
    }

    fn enter_value_switch(&mut self)
        ensures
            *final(self) == old(self).in_value_switch(),
            final(self).frame() == (Frame {
                switch_targets: List::Cons(
                    Box::new(old(self).target),
                    Box::new(old(self).switch_targets),
                ),
                case_values: Some(old(self).case_values),
                ..old(self).frame()
            }),
            final(self).exited == old(self).exited,
    {
        proof {
            reveal(InferCtx::frame);
            reveal(InferCtx::in_value_switch);
        }
        let targets = take(&mut self.switch_targets);
        self.switch_targets = List::cons(self.target.copy(), targets);
        let cases = take(&mut self.case_values);
        self.case_values = List::cons(List::Nil, cases);
    }

    /// After a switch that has a value: what its arms know is known.
    #[verifier::opaque]
    pub open spec fn after_value_switch(self, paths: List<(Flow, bool)>) -> InferCtx {
        InferCtx {
            flow: match join_live(paths) {
                Some(j) => self.flow.with_known(j),
                None => self.flow,
            },
            case_values: tail(self.case_values),
            switch_targets: tail(self.switch_targets),
            ..self
        }
    }

    fn leave_value_switch(&mut self, paths: &List<(Flow, bool)>)
        ensures
            *final(self) == old(self).after_value_switch(*paths),
            final(self).frame() == (Frame {
                switch_targets: tail(old(self).switch_targets),
                case_values: under(tail(old(self).case_values)),
                ..old(self).frame()
            }),
            final(self).exited == old(self).exited,
    {
        proof {
            reveal(InferCtx::frame);
            reveal(InferCtx::after_value_switch);
        }
        if let Some(j) = joined_live(paths) {
            self.flow = self.flow.extend(&j);
        }
        let cases = take(&mut self.case_values);
        self.case_values = drop_first(cases);
        let targets = take(&mut self.switch_targets);
        self.switch_targets = drop_first(targets);
    }

    /// The arms of a switch that has a value. Each starts where the switch
    /// does.
    pub open spec fn value_arms<D: TyDatabase>(
        self,
        db: &D,
        site: Site,
        l: List<SwitchArm>,
        selector: Ty,
        flow: Flow,
        exited: bool,
        results: List<Ty>,
        paths: List<(Flow, bool)>,
    ) -> (InferCtx, List<Ty>, List<(Flow, bool)>)
        decreases l, 0nat, List::<MethodData>::Nil,
    {
        match l {
            List::Nil => (self, results, paths),
            List::Cons(h, t) => {
                let s = (InferCtx { exited, flow, ..self.entered() }).labels_of(
                    db,
                    site,
                    h.labels,
                    selector,
                );
                let (s1, more) = s.value_stmts(db, site, h.body, results);
                (InferCtx { exited, flow, ..s1.left() }).value_arms(
                    db,
                    site,
                    *t,
                    selector,
                    flow,
                    exited,
                    more,
                    List::Cons(Box::new((s1.flow, s1.exited)), Box::new(paths)),
                )
            },
        }
    }

    /// The statements of an arm that has a value, with the values so far.
    pub open spec fn value_stmts<D: TyDatabase>(
        self,
        db: &D,
        site: Site,
        l: List<Stmt>,
        results: List<Ty>,
    ) -> (InferCtx, List<Ty>)
        decreases l, 0nat, List::<MethodData>::Nil,
    {
        match l {
            List::Nil => (self, results),
            List::Cons(h, t) => {
                let (s, more) = self.value_stmt(db, site, *h, results);
                s.value_stmts(db, site, *t, more)
            },
        }
    }

    /// A statement of an arm that has a value: an expression or a `yield` is
    /// one, and so is the `yield` that ends a block.
    pub open spec fn value_stmt<D: TyDatabase>(
        self,
        db: &D,
        site: Site,
        st: Stmt,
        results: List<Ty>,
    ) -> (InferCtx, List<Ty>)
        decreases st, 22nat, List::<MethodData>::Nil,
    {
        match st.kind {
            StmtKind::Expr(e) => {
                let (s, ty) = self.expr(db, site, e);
                (s, results.with(ty))
            },
            StmtKind::Yield(e) => {
                let (s, ty) = self.expr_to(db, site, e, top(self.switch_targets));
                (s, results.with(ty))
            },
            StmtKind::Block(l) => {
                let s = self.stmt(db, site, st);
                match last_yield(*l) {
                    Some(id) => match assoc_get(s.types, id) {
                        Some(ty) => (s, results.with(ty)),
                        None => (s, results),
                    },
                    None => (s, results),
                }
            },
            _ => (self.stmt(db, site, st), results),
        }
    }

    /// The type of an expression.
    pub fn infer_expr<D: TyDatabase>(&mut self, db: &D, site: &Site, e: &Expr) -> (r: Ty)
        ensures
            (*final(self), r) == old(self).expr(db, *site, *e),
            final(self).frame() == old(self).frame(),
            final(self).exited == old(self).exited,
            assoc_get(final(self).types, e.id) == Some(r),
        decreases e, 20nat, List::<MethodData>::Nil,
    {
        proof {
            reveal(InferCtx::frame);
        }
        let ty = self.infer_kind(db, site, e);
        proof {
            lemma_assoc(self.types, e.id, ty, e.id);
        }
        self.record_type(e.id, ty.copy());
        if !is_bool_flow_expr(e) {
            self.bool_outcomes = Some((self.flow.copy(), self.flow.copy()));
        }
        ty
    }

    fn infer_kind<D: TyDatabase>(&mut self, db: &D, site: &Site, e: &Expr) -> (r: Ty)
        ensures
            (*final(self), r) == old(self).expr_kind(db, *site, *e),
            final(self).frame() == old(self).frame(),
            final(self).exited == old(self).exited,
        decreases e, 19nat, List::<MethodData>::Nil,
    {
        match &e.kind {
            ExprKind::Literal(l) => literal_ty(l),
            ExprKind::Null => Ty::Null,
            ExprKind::This { qualifier } => self.this_expr(db, site, e.id, qualifier),
            ExprKind::Super { qualifier: _ } => {
                self.check_super(site, e.id);
                self.check_early(e.id, EarlyReference::Super);
                Ty::Error
            },
            ExprKind::ClassLit(t) => {
                let inner = db.resolve_type_ref(site.file, site.item, &t.shape);
                class_literal_ty(&inner)
            },
            ExprKind::Var(name) => self.var(db, site, e.id, *name),
            ExprKind::NamePath(path) => self.name_path(db, site, e.id, path),
            ExprKind::FieldAccess { target: _, name: _ } => self.field_access(db, site, e),
            ExprKind::ArrayAccess { array: _, index: _ } => self.array_access(db, site, e),
            ExprKind::MethodCall { receiver: _, name: _, type_args: _, args: _ } => self.method_call(
                db,
                site,
                e,
            ),
            ExprKind::CtorCall { args: _, target: _ } => self.ctor_call(db, site, e),
            ExprKind::New { ty: _, args: _, diamond: _, anonymous: _, receiver: _ } => self.new_expr(
                db,
                site,
                e,
            ),
            ExprKind::NewArray { ty: _, dims: _, initializer: _ } => self.new_array(db, site, e),
            ExprKind::ArrayInit(l) => {
                let tys = self.infer_each_type(db, site, l);
                Ty::array(choose_type_of(db, &tys))
            },
            ExprKind::Unary { op: _, expr: _ } => self.unary(db, site, e),
            ExprKind::Postfix { expr: _ } => self.postfix(db, site, e),
            ExprKind::Binary { op: _, lhs: _, rhs: _ } => self.binary(db, site, e),
            ExprKind::Assign { op: _, lhs: _, rhs: _ } => self.assign(db, site, e),
            ExprKind::Cast { ty: _, expr: _ } => self.cast(db, site, e),
            ExprKind::InstanceOf { expr: _, pattern: _, ty: _ } => {
                self.instance_of(db, site, e);
                Ty::Primitive(PrimitiveType::Boolean)
            },
            ExprKind::Conditional { cond: _, then_arm: _, else_arm: _ } => self.conditional_expr(
                db,
                site,
                e,
            ),
            ExprKind::Lambda { params: _, body: _ } => self.lambda_type(db, site, e),
            ExprKind::MethodRef { qualifier: _, named: _, name: _ } => self.method_ref_type(
                db,
                site,
                e,
            ),
            ExprKind::Switch { scrutinee: _, arms: _ } => self.switch_expr(db, site, e),
            ExprKind::Paren(inner) => self.infer_expr(db, site, inner),
            ExprKind::Template { args } => {
                self.infer_each(db, site, args);
                Ty::class(Name::String)
            },
            ExprKind::Missing => Ty::Error,
        }
    }

    fn array_access<D: TyDatabase>(&mut self, db: &D, site: &Site, e: &Expr) -> (r: Ty)
        ensures
            (*final(self), r) == old(self).element_expr(db, *site, *e),
            final(self).frame() == old(self).frame(),
            final(self).exited == old(self).exited,
        decreases e, 18nat, List::<MethodData>::Nil,
    {
        match &e.kind {
            ExprKind::ArrayAccess { array, index } => {
                let _ = self.infer_read_expr(db, site, index);
                let ty = self.infer_read_expr(db, site, array);
                match ty.element() {
                    Some(t) => t,
                    None => Ty::Error,
                }
            },
            _ => Ty::Error,
        }
    }

    fn new_array<D: TyDatabase>(&mut self, db: &D, site: &Site, e: &Expr) -> (r: Ty)
        ensures
            (*final(self), r) == old(self).array_expr(db, *site, *e),
            final(self).frame() == old(self).frame(),
            final(self).exited == old(self).exited,
        decreases e, 18nat, List::<MethodData>::Nil,
    {
        proof {
            reveal(InferCtx::frame);
            reveal(InferCtx::targeted);
        }
        match &e.kind {
            ExprKind::NewArray { ty, dims, initializer } => {
                let saved = self.set_target(None);
                self.infer_each(db, site, dims);
                if let Some(l) = initializer {
                    self.infer_each(db, site, l);
                }
                let _ = self.set_target(saved);
                let inner = db.resolve_type_ref(site.file, site.item, &ty.shape);
                self.create_array(e.id, inner, dims)
            },
            _ => Ty::Error,
        }
    }

    /// The type of an expression with an operator before its operand.
    pub fn unary<D: TyDatabase>(&mut self, db: &D, site: &Site, e: &Expr) -> (r: Ty)
        ensures
            (*final(self), r) == old(self).prefix_expr(db, *site, *e),
            final(self).frame() == old(self).frame(),
            final(self).exited == old(self).exited,
        decreases e, 18nat, List::<MethodData>::Nil,
    {
        proof {
            reveal(InferCtx::frame);
        }
        match &e.kind {
            ExprKind::Unary { op, expr } => {
                self.mutating = *op == UnaryOp::Inc || *op == UnaryOp::Dec;
                let inner = self.infer_against(db, site, expr, None);
                self.mutating = false;
                self.unary_result(*op, expr.id, inner)
            },
            _ => Ty::Error,
        }
    }

    fn postfix<D: TyDatabase>(&mut self, db: &D, site: &Site, e: &Expr) -> (r: Ty)
        ensures
            (*final(self), r) == old(self).postfix_expr(db, *site, *e),
            final(self).frame() == old(self).frame(),
            final(self).exited == old(self).exited,
        decreases e, 18nat, List::<MethodData>::Nil,
    {
        proof {
            reveal(InferCtx::frame);
        }
        match &e.kind {
            ExprKind::Postfix { expr } => {
                self.mutating = true;
                let ty = self.infer_expr(db, site, expr);
                self.mutating = false;
                ty
            },
            _ => Ty::Error,
        }
    }

    /// The type of an expression with an operator between two operands.
    pub fn binary<D: TyDatabase>(&mut self, db: &D, site: &Site, e: &Expr) -> (r: Ty)
        ensures
            (*final(self), r) == old(self).operation(db, *site, *e),
            final(self).frame() == old(self).frame(),
            final(self).exited == old(self).exited,
        decreases e, 18nat, List::<MethodData>::Nil,
    {
        proof {
            reveal(InferCtx::frame);
            reveal(InferCtx::targeted);
        }
        match &e.kind {
            ExprKind::Binary { op, lhs, rhs } => {
                if *op == BinaryOp::And || *op == BinaryOp::Or {
                    self.logical_expr(db, site, e);
                    return Ty::Primitive(PrimitiveType::Boolean);
                }
                let saved = self.set_target(None);
                let lt = self.infer_expr(db, site, lhs);
                let rt = self.infer_expr(db, site, rhs);
                let _ = self.set_target(saved);
                self.binary_result(db, *op, (lhs.id, lt), (rhs.id, rt))
            },
            _ => Ty::Error,
        }
    }

    /// The type of an expression that should have a type.
    pub fn infer_against<D: TyDatabase>(
        &mut self,
        db: &D,
        site: &Site,
        e: &Expr,
        target: Option<Ty>,
    ) -> (r: Ty)
        ensures
            (*final(self), r) == old(self).expr_to(db, *site, *e, target),
            final(self).frame() == old(self).frame(),
            final(self).exited == old(self).exited,
        decreases e, 21nat, List::<MethodData>::Nil,
    {
        proof {
            reveal(InferCtx::frame);
            reveal(InferCtx::targeted);
        }
        let saved = self.set_target(target);
        let ty = self.infer_expr(db, site, e);
        let _ = self.set_target(saved);
        ty
    }

    /// The type of an expression that is read, wherever it stands.
    pub fn infer_read_expr<D: TyDatabase>(&mut self, db: &D, site: &Site, e: &Expr) -> (r: Ty)
        ensures
            (*final(self), r) == old(self).read(db, *site, *e),
            final(self).frame() == old(self).frame(),
            final(self).exited == old(self).exited,
        decreases e, 21nat, List::<MethodData>::Nil,
    {
        proof {
            reveal(InferCtx::frame);
        }
        let mutating = self.mutating;
        let writing = self.writing;
        self.mutating = false;
        self.writing = false;
        let ty = self.infer_expr(db, site, e);
        self.mutating = mutating;
        self.writing = writing;
        ty
    }

    /// An expression that is a condition must be a boolean.
    pub fn check_condition<D: TyDatabase>(&mut self, db: &D, site: &Site, e: &Expr)
        ensures
            *final(self) == old(self).condition(db, *site, *e),
            final(self).frame() == old(self).frame(),
            final(self).exited == old(self).exited,
        decreases e, 22nat, List::<MethodData>::Nil,
    {
        let ty = self.infer_against(db, site, e, None);
        self.check_boolean(e.id, ty);
    }

    /// The type of the value that a switch selects by.
    pub fn infer_switch_selector<D: TyDatabase>(&mut self, db: &D, site: &Site, e: &Expr) -> (r: Ty)
        ensures
            (*final(self), r) == old(self).selector(db, *site, *e),
            final(self).frame() == old(self).frame(),
            final(self).exited == old(self).exited,
        decreases e, 22nat, List::<MethodData>::Nil,
    {
        let ty = self.infer_against(db, site, e, None);
        self.check_selector(e.id, &ty);
        ty
    }

    /// A label of a switch.
    pub fn infer_switch_label<D: TyDatabase>(
        &mut self,
        db: &D,
        site: &Site,
        e: &Expr,
        selector: &Ty,
    )
        ensures
            *final(self) == old(self).label(db, *site, *e, *selector),
            final(self).frame() == old(self).frame(),
            final(self).exited == old(self).exited,
        decreases e, 22nat, List::<MethodData>::Nil,
    {
        if does_name_constant(db, e, selector) {
            self.record_type(e.id, selector.copy());
            return;
        }
        let ty = self.infer_against(db, site, e, None);
        self.check_label(db, e, &ty, selector);
    }

    /// The labels of an arm.
    pub fn infer_labels<D: TyDatabase>(
        &mut self,
        db: &D,
        site: &Site,
        l: &List<SwitchLabel>,
        selector: &Ty,
    )
        ensures
            *final(self) == old(self).labels_of(db, *site, *l, *selector),
            final(self).frame() == old(self).frame(),
            final(self).exited == old(self).exited,
        decreases l, 0nat, List::<MethodData>::Nil,
    {
        match l {
            List::Nil => {},
            List::Cons(h, t) => {
                match &**h {
                    SwitchLabel::Expr(e) => self.infer_switch_label(db, site, e, selector),
                    SwitchLabel::Pattern(p) => {
                        self.pattern_type(db, site, p);
                        self.scope_bindings(&pattern_bindings_of(p));
                    },
                    SwitchLabel::Guard(e) => self.check_condition(db, site, e),
                }
                self.infer_labels(db, site, t, selector);
            },
        }
    }

    /// The expressions one after the other.
    pub fn infer_each<D: TyDatabase>(&mut self, db: &D, site: &Site, l: &List<Expr>)
        ensures
            *final(self) == old(self).each(db, *site, *l),
            final(self).frame() == old(self).frame(),
            final(self).exited == old(self).exited,
        decreases l, 0nat, List::<MethodData>::Nil,
    {
        match l {
            List::Nil => {},
            List::Cons(h, t) => {
                let _ = self.infer_expr(db, site, h);
                self.infer_each(db, site, t);
            },
        }
    }

    fn infer_each_type<D: TyDatabase>(&mut self, db: &D, site: &Site, l: &List<Expr>) -> (r: List<
        Ty,
    >)
        ensures
            (*final(self), r) == old(self).each_type(db, *site, *l),
            final(self).frame() == old(self).frame(),
            final(self).exited == old(self).exited,
        decreases l, 0nat, List::<MethodData>::Nil,
    {
        match l {
            List::Nil => List::Nil,
            List::Cons(h, t) => {
                let ty = self.infer_expr(db, site, h);
                let rest = self.infer_each_type(db, site, t);
                List::cons(ty, rest)
            },
        }
    }

    /// The access to a field.
    pub fn field_access<D: TyDatabase>(&mut self, db: &D, site: &Site, e: &Expr) -> (r: Ty)
        ensures
            (*final(self), r) == old(self).field_expr(db, *site, *e),
            final(self).frame() == old(self).frame(),
            final(self).exited == old(self).exited,
        decreases e, 18nat, List::<MethodData>::Nil,
    {
        match &e.kind {
            ExprKind::FieldAccess { target, name } => match target {
                None => self.var(db, site, e.id, *name),
                Some(t) => {
                    if let ExprKind::Super { qualifier: _ } = &t.kind {
                        return self.super_field_access(db, site, t.id, e.id, *name);
                    }
                    match dotted_type_name(db, site, &self.scopes, t) {
                        Some(class) => self.field_of_receiver(
                            db,
                            site,
                            e.id,
                            class,
                            true,
                            is_bare_this(t),
                            *name,
                        ),
                        None => {
                            let receiver = self.infer_read_expr(db, site, t);
                            self.field_of_receiver(
                                db,
                                site,
                                e.id,
                                receiver,
                                false,
                                is_bare_this(t),
                                *name,
                            )
                        },
                    }
                },
            },
            _ => Ty::Error,
        }
    }

    fn logical_expr<D: TyDatabase>(&mut self, db: &D, site: &Site, e: &Expr)
        ensures
            *final(self) == old(self).logical(db, *site, *e),
            final(self).frame() == old(self).frame(),
            final(self).exited == old(self).exited,
        decreases e, 17nat, List::<MethodData>::Nil,
    {
        proof {
            reveal(InferCtx::frame);
        }
        if let ExprKind::Binary { op, lhs, rhs } = &e.kind {
            let both = *op == BinaryOp::And;
            self.check_condition(db, site, lhs);
            let (lt, lf) = self.take_bool_outcomes();
            let (bt, bf) = condition_bindings(lhs);
            if both {
                self.check_branch_condition(db, site, lt.copy(), &bt, rhs);
            } else {
                self.check_branch_condition(db, site, lf.copy(), &bf, rhs);
            }
            let (rt, rf) = self.take_bool_outcomes();
            let (t, f) = if both {
                (rt, lf.join_definite(&rf))
            } else {
                (lt.join_definite(&rt), rf)
            };
            self.flow = t.join_definite(&f);
            self.bool_outcomes = Some((t, f));
        }
    }

    fn check_branch_condition<D: TyDatabase>(
        &mut self,
        db: &D,
        site: &Site,
        flow: Flow,
        bound: &List<Binding>,
        e: &Expr,
    )
        ensures
            *final(self) == old(self).branch_condition(db, *site, flow, *bound, *e),
            final(self).frame() == old(self).frame(),
            final(self).exited == old(self).exited,
        decreases e, 23nat, List::<MethodData>::Nil,
    {
        proof {
            reveal(InferCtx::frame);
            reveal(InferCtx::entered);
            reveal(InferCtx::left);
        }
        self.push_scope();
        self.flow = flow;
        self.scope_bindings(bound);
        self.check_condition(db, site, e);
        self.pop_scope();
    }

    fn infer_branch_expr<D: TyDatabase>(
        &mut self,
        db: &D,
        site: &Site,
        flow: Flow,
        bound: &List<Binding>,
        e: &Expr,
    ) -> (r: Ty)
        ensures
            (*final(self), r) == old(self).branch_expr(db, *site, flow, *bound, *e),
            final(self).frame() == old(self).frame(),
            final(self).exited == old(self).exited,
        decreases e, 23nat, List::<MethodData>::Nil,
    {
        proof {
            reveal(InferCtx::frame);
            reveal(InferCtx::entered);
            reveal(InferCtx::left);
        }
        self.push_scope();
        self.flow = flow;
        self.scope_bindings(bound);
        let ty = self.infer_expr(db, site, e);
        self.pop_scope();
        ty
    }

    fn assign<D: TyDatabase>(&mut self, db: &D, site: &Site, e: &Expr) -> (r: Ty)
        ensures
            (*final(self), r) == old(self).assignment(db, *site, *e),
            final(self).frame() == old(self).frame(),
            final(self).exited == old(self).exited,
        decreases e, 18nat, List::<MethodData>::Nil,
    {
        proof {
            reveal(InferCtx::frame);
        }
        match &e.kind {
            ExprKind::Assign { op, lhs, rhs } => {
                let plain = *op == AssignOp::Assign;
                self.mutating = true;
                if plain {
                    self.writing = true;
                }
                let lt = self.infer_expr(db, site, lhs);
                if plain {
                    self.writing = false;
                }
                self.mutating = false;
                let rt = self.infer_against(db, site, rhs, Some(lt.copy()));
                if plain {
                    self.assign_to(lhs);
                    self.record_field_write(db, site, lhs);
                    self.check_value(db, rhs, &rt, &lt);
                    self.warn_unchecked(db, rhs.id, &rt, &lt);
                }
                lt
            },
            _ => Ty::Error,
        }
    }

    fn cast<D: TyDatabase>(&mut self, db: &D, site: &Site, e: &Expr) -> (r: Ty)
        ensures
            (*final(self), r) == old(self).cast_expr(db, *site, *e),
            final(self).frame() == old(self).frame(),
            final(self).exited == old(self).exited,
        decreases e, 18nat, List::<MethodData>::Nil,
    {
        match &e.kind {
            ExprKind::Cast { ty, expr } => {
                self.check_type_argument_bounds(db, site, DiagLocation::Expr(expr.id), ty);
                let t = db.resolve_type_ref(site.file, site.item, &ty.shape);
                if expr_is_poly(expr) {
                    let _ = self.infer_against(db, site, expr, Some(t.copy()));
                } else {
                    let found = self.infer_against(db, site, expr, None);
                    self.check_cast(db, expr.id, found, &t);
                }
                t
            },
            _ => Ty::Error,
        }
    }

    fn instance_of<D: TyDatabase>(&mut self, db: &D, site: &Site, e: &Expr)
        ensures
            *final(self) == old(self).instance_test(db, *site, *e),
            final(self).frame() == old(self).frame(),
            final(self).exited == old(self).exited,
        decreases e, 18nat, List::<MethodData>::Nil,
    {
        if let ExprKind::InstanceOf { expr, pattern, ty } = &e.kind {
            let _ = self.infer_expr(db, site, expr);
            if let Some(t) = ty {
                self.check_instanceof_target(db, site, expr.id, t);
            }
            if let Some(p) = pattern {
                self.pattern_type(db, site, p);
                if let Some(t) = pattern_type_ref(p) {
                    self.check_instanceof_target(db, site, expr.id, t);
                }
            }
        }
    }

    fn conditional_expr<D: TyDatabase>(&mut self, db: &D, site: &Site, e: &Expr) -> (r: Ty)
        ensures
            (*final(self), r) == old(self).conditional(db, *site, *e),
            final(self).frame() == old(self).frame(),
            final(self).exited == old(self).exited,
        decreases e, 18nat, List::<MethodData>::Nil,
    {
        proof {
            reveal(InferCtx::frame);
        }
        match &e.kind {
            ExprKind::Conditional { cond, then_arm, else_arm } => {
                self.check_condition(db, site, cond);
                let (bt, bf) = condition_bindings(cond);
                let (t, f) = self.take_bool_outcomes();
                let a = self.infer_branch_expr(db, site, t, &bt, then_arm);
                let then_end = self.flow.copy();
                let b = self.infer_branch_expr(db, site, f, &bf, else_arm);
                let joined = then_end.join_definite(&self.flow);
                self.bool_outcomes = Some((joined.copy(), joined.copy()));
                self.flow = joined;
                let depends = expr_is_poly_ext(then_arm) || expr_is_poly_ext(else_arm);
                self.join_arms(db, e.id, depends, a, b)
            },
            _ => Ty::Error,
        }
    }

    fn switch_expr<D: TyDatabase>(&mut self, db: &D, site: &Site, e: &Expr) -> (r: Ty)
        ensures
            (*final(self), r) == old(self).switch_value(db, *site, *e),
            final(self).frame() == old(self).frame(),
            final(self).exited == old(self).exited,
        decreases e, 18nat, List::<MethodData>::Nil,
    {
        proof {
            reveal(InferCtx::frame);
            reveal(InferCtx::in_value_switch);
            reveal(InferCtx::after_value_switch);
        }
        match &e.kind {
            ExprKind::Switch { scrutinee, arms } => {
                let selector = self.infer_switch_selector(db, site, scrutinee);
                let flow = self.flow.copy();
                let exited = self.exited;
                self.enter_value_switch();
                let (results, paths) = self.infer_value_arms(
                    db,
                    site,
                    arms,
                    &selector,
                    &flow,
                    exited,
                    List::Nil,
                    List::Nil,
                );
                self.leave_value_switch(&paths);
                if !switch_is_exhaustive(db, &selector, arms) {
                    self.report(TypeError::NotExhaustive { expr: e.id });
                }
                choose_type_of(db, &results)
            },
            _ => Ty::Error,
        }
    }

    fn infer_value_arms<D: TyDatabase>(
        &mut self,
        db: &D,
        site: &Site,
        l: &List<SwitchArm>,
        selector: &Ty,
        flow: &Flow,
        exited: bool,
        results: List<Ty>,
        paths: List<(Flow, bool)>,
    ) -> (r: (List<Ty>, List<(Flow, bool)>))
        ensures
            (*final(self), r.0, r.1) == old(self).value_arms(
                db,
                *site,
                *l,
                *selector,
                *flow,
                exited,
                results,
                paths,
            ),
            final(self).frame() == old(self).frame(),
            old(self).exited == exited ==> final(self).exited == exited,
        decreases l, 0nat, List::<MethodData>::Nil,
    {
        proof {
            reveal(InferCtx::frame);
            reveal(InferCtx::entered);
            reveal(InferCtx::left);
        }
        match l {
            List::Nil => (results, paths),
            List::Cons(h, t) => {
                self.push_scope();
                self.exited = exited;
                self.flow = flow.copy();
                self.infer_labels(db, site, &h.labels, selector);
                let more = self.infer_value_stmts(db, site, &h.body, results);
                let paths = List::cons((self.flow.copy(), self.exited), paths);
                self.pop_scope();
                self.flow = flow.copy();
                self.exited = exited;
                self.infer_value_arms(db, site, t, selector, flow, exited, more, paths)
            },
        }
    }

    fn infer_value_stmts<D: TyDatabase>(
        &mut self,
        db: &D,
        site: &Site,
        l: &List<Stmt>,
        results: List<Ty>,
    ) -> (r: List<Ty>)
        ensures
            (*final(self), r) == old(self).value_stmts(db, *site, *l, results),
            final(self).frame() == old(self).frame(),
        decreases l, 0nat, List::<MethodData>::Nil,
    {
        match l {
            List::Nil => results,
            List::Cons(h, t) => {
                let more = self.infer_value_stmt(db, site, h, results);
                self.infer_value_stmts(db, site, t, more)
            },
        }
    }

    fn infer_value_stmt<D: TyDatabase>(
        &mut self,
        db: &D,
        site: &Site,
        st: &Stmt,
        results: List<Ty>,
    ) -> (r: List<Ty>)
        ensures
            (*final(self), r) == old(self).value_stmt(db, *site, *st, results),
            final(self).frame() == old(self).frame(),
        decreases st, 22nat, List::<MethodData>::Nil,
    {
        match &st.kind {
            StmtKind::Expr(e) => {
                let ty = self.infer_expr(db, site, e);
                results.push(ty)
            },
            StmtKind::Yield(e) => {
                let target = top_of(&self.switch_targets);
                let ty = self.infer_against(db, site, e, target);
                results.push(ty)
            },
            StmtKind::Block(l) => {
                self.infer_stmt(db, site, st);
                match find_last_yield(l) {
                    Some(id) => match get_assoc(&self.types, &id) {
                        Some(ty) => results.push(ty),
                        None => results,
                    },
                    None => results,
                }
            },
            _ => {
                self.infer_stmt(db, site, st);
                results
            },
        }
    }
}

/// Whether a label is the name of a constant of the enum that is selected by.
pub open spec fn names_constant<D: TyDatabase>(db: &D, e: Expr, selector: Ty) -> bool {
    match e.kind {
        ExprKind::Var(name) => match db.constants(selector) {
            Some(l) => l.has(name),
            None => false,
        },
        _ => false,
    }
}

fn does_name_constant<D: TyDatabase>(db: &D, e: &Expr, selector: &Ty) -> (r: bool)
    ensures
        r == names_constant(db, *e, *selector),
{
    match &e.kind {
        ExprKind::Var(name) => match db.enum_constants(selector) {
            Some(l) => l.contains(name),
            None => false,
        },
        _ => false,
    }
}

/// The expression of the `yield` that ends a block.
pub open spec fn last_yield(l: List<Stmt>) -> Option<u32>
    decreases l,
{
    match l {
        List::Nil => None,
        List::Cons(h, t) => if *t is Nil {
            match h.kind {
                StmtKind::Yield(e) => Some(e.id),
                _ => None,
            }
        } else {
            last_yield(*t)
        },
    }
}

fn find_last_yield(l: &List<Stmt>) -> (r: Option<u32>)
    ensures
        r == last_yield(*l),
    decreases l,
{
    match l {
        List::Nil => None,
        List::Cons(h, t) => if t.is_empty() {
            match &h.kind {
                StmtKind::Yield(e) => Some(e.id),
                _ => None,
            }
        } else {
            find_last_yield(t)
        },
    }
}

/// A type test and a conditional operator are `boolean`, whatever their
/// operands are.
pub proof fn law_tests_are_boolean<D: TyDatabase>(s: InferCtx, db: &D, site: Site, e: Expr)
    requires
        match e.kind {
            ExprKind::InstanceOf { expr: _, pattern: _, ty: _ } => true,
            ExprKind::Binary { op, lhs: _, rhs: _ } => op == BinaryOp::And || op == BinaryOp::Or,
            _ => false,
        },
    ensures
        s.expr(db, site, e).1 == Ty::Primitive(PrimitiveType::Boolean),
{
    reveal_with_fuel(InferCtx::expr, 3);
    reveal_with_fuel(InferCtx::expr_kind, 2);
}

} // verus!
