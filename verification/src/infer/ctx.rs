//! The state of an inference, and where the body stands.
use crate::body::{BinaryOp, Const, Expr, ExprKind, UnaryOp};
use crate::db::TyDatabase;
use crate::infer::diag::{ResolvedMember, TypeError};
use crate::infer::flow::{BreakFrame, Flow};
use crate::infer::switch::{checked, is_checked};
use crate::list::{assoc_put, put_assoc, Data, List};
use crate::member::InvocationContext;
use crate::names::Name;
use crate::ty::{unboxed_name, unboxed_primitive, PrimitiveType, Ty};
use vstd::prelude::*;

verus! {

/// The initializer a body is.
#[derive(Clone, Copy, Debug, PartialEq, Eq, Structural)]
pub enum InitCtx {
    Static,
    Instance,
}

/// Where a body stands: its declaration, the classes around it, and what they
/// make of it.
#[derive(Debug, PartialEq, Eq)]
pub struct Site {
    pub file: u32,
    pub item: u32,
    pub access: InvocationContext,
    pub enclosing_class: Option<Ty>,
    /// The classes around the enclosing class, innermost first.
    pub enclosing_chain: List<Ty>,
    pub static_context: bool,
    pub in_constructor: bool,
    pub init_ctx: Option<InitCtx>,
    /// The fields that may not be read yet.
    pub forward_names: List<Name>,
}

/// A local variable in scope.
#[derive(Clone, Copy, Debug, PartialEq, Eq, Structural)]
pub struct Binding {
    pub name: Name,
    pub id: u32,
    pub is_final: bool,
}

impl Data for Binding {
    fn copy(&self) -> (r: Self) {
        *self
    }

    fn same(&self, other: &Self) -> (r: bool) {
        *self == *other
    }
}

impl Data for Const {
    fn copy(&self) -> (r: Self) {
        *self
    }

    fn same(&self, other: &Self) -> (r: bool) {
        *self == *other
    }
}

/// The state of an inference. Stacks have their innermost entry first, and the
/// reports are latest first.
#[derive(Debug, PartialEq, Eq)]
pub struct InferCtx {
    /// The types of the expressions.
    pub types: List<(u32, Ty)>,
    /// The types of the local variables.
    pub locals: List<(u32, Ty)>,
    pub scopes: List<List<(Name, Binding)>>,
    pub flow: Flow,
    /// The flow where the last expression is true, and where it is false.
    pub bool_outcomes: Option<(Flow, Flow)>,
    pub diagnostics: List<TypeError>,
    /// What the invocations mean.
    pub members: List<(u32, ResolvedMember)>,
    /// Whether reports are dropped, because the inference is tentative.
    pub probing: bool,
    /// The type the next expression should have.
    pub target: Option<Ty>,
    /// Whether the next expression is written to.
    pub mutating: bool,
    /// Whether the next expression is written to without being read.
    pub writing: bool,
    /// Whether the end of what was inferred cannot be reached.
    pub exited: bool,
    /// Whether the constructor of the superclass has not run yet.
    pub before_super: bool,
    pub enclosing_ret: Option<Ty>,
    pub enclosing_throws: List<Ty>,
    /// The exceptions thrown, each with the expression that throws it.
    pub thrown: List<(Ty, u32)>,
    /// What a `throw` of a catch parameter throws.
    pub rethrow_sets: List<(u32, List<Ty>)>,
    /// The parameters of the lambdas around.
    pub lambda_params: List<List<(Name, Ty)>>,
    /// The types of the values returned from the lambdas around.
    pub lambda_returns: List<List<Ty>>,
    pub in_loop: bool,
    pub in_switch: bool,
    pub loop_breaks: List<BreakFrame>,
    /// The labels in scope, and whether each is that of a loop.
    pub labels: List<(Name, bool)>,
    pub pending_loop_label: Option<Name>,
    pub switch_targets: List<Option<Ty>>,
    pub case_values: List<List<Const>>,
    /// The values of the constant variables.
    pub const_locals: List<(Name, Const)>,
    /// The final variables without an initializer.
    pub blank_finals: List<u32>,
    /// The next inference variable.
    pub next_var: u64,
}

/// What is under the first element of a stack.
pub open spec fn tail<T>(l: List<T>) -> List<T> {
    match l {
        List::Nil => List::Nil,
        List::Cons(_, t) => *t,
    }
}

/// A stack without its first element.
pub fn drop_first<T>(l: List<T>) -> (r: List<T>)
    ensures
        r == tail(l),
{
    match l {
        List::Nil => List::Nil,
        List::Cons(_, t) => *t,
    }
}

/// Takes a list out of its place and leaves an empty one.
pub fn take<T>(l: &mut List<T>) -> (r: List<T>)
    ensures
        r == *old(l),
        *final(l) == List::<T>::Nil,
{
    let mut out: List<T> = List::Nil;
    core::mem::swap(l, &mut out);
    out
}

/// What is under the first element of a stack, where it has one.
pub open spec fn under<T>(l: List<T>) -> Option<List<T>> {
    match l {
        List::Nil => None,
        List::Cons(_, t) => Some(*t),
    }
}

/// The labels of the statements that a `break` can leave.
pub open spec fn break_labels(l: List<BreakFrame>) -> List<Option<Name>>
    decreases l,
{
    match l {
        List::Nil => List::Nil,
        List::Cons(h, t) => List::Cons(Box::new(h.label), Box::new(break_labels(*t))),
    }
}

/// What the inference of an expression or a statement leaves as it was: what is
/// expected of it, what is around it, and the reports of a tentative inference.
pub struct Frame {
    pub probing: bool,
    /// The reports, where no report may be added.
    pub reports: Option<List<TypeError>>,
    pub target: Option<Ty>,
    /// The scopes around the innermost one.
    pub scopes: Option<List<List<(Name, Binding)>>>,
    pub lambda_params: List<List<(Name, Ty)>>,
    pub lambda_returns: Option<List<List<Ty>>>,
    pub enclosing_ret: Option<Ty>,
    pub enclosing_throws: List<Ty>,
    pub in_loop: bool,
    pub in_switch: bool,
    pub breaks: List<Option<Name>>,
    pub labels: List<(Name, bool)>,
    pub switch_targets: List<Option<Ty>>,
    pub case_values: Option<List<List<Const>>>,
}

/// Whether the type is `boolean`, boxed or not.
pub open spec fn boolean_type(t: Ty) -> bool {
    match t {
        Ty::Primitive(p) => p == PrimitiveType::Boolean,
        Ty::Reference { name, args: _, local: _ } => unboxed_name(name) == Some(
            PrimitiveType::Boolean,
        ),
        _ => false,
    }
}

/// Whether the type is `boolean`, boxed or not.
pub fn is_boolean(t: &Ty) -> (r: bool)
    ensures
        r == boolean_type(*t),
{
    match t {
        Ty::Primitive(p) => *p == PrimitiveType::Boolean,
        Ty::Reference { name, args: _, local: _ } => match unboxed_primitive(*name) {
            Some(p) => p == PrimitiveType::Boolean,
            None => false,
        },
        _ => false,
    }
}

/// Whether the type is a primitive type other than `boolean`, boxed or not.
pub open spec fn numeric_type(t: Ty) -> bool {
    match t {
        Ty::Primitive(p) => p != PrimitiveType::Boolean,
        Ty::Reference { name, args: _, local: _ } => match unboxed_name(name) {
            Some(p) => p != PrimitiveType::Boolean,
            None => false,
        },
        _ => false,
    }
}

/// Whether the type is a primitive type other than `boolean`, boxed or not.
pub fn is_numeric_operand(t: &Ty) -> (r: bool)
    ensures
        r == numeric_type(*t),
{
    match t {
        Ty::Primitive(p) => *p != PrimitiveType::Boolean,
        Ty::Reference { name, args: _, local: _ } => match unboxed_primitive(*name) {
            Some(p) => p != PrimitiveType::Boolean,
            None => false,
        },
        _ => false,
    }
}

/// Whether the type is one of references, the null type among them.
pub open spec fn reference_like(t: Ty) -> bool {
    t is Reference || t is Array || t is TypeVar || t is Intersection || t is Null
}

/// Whether the type is one of references, the null type among them.
pub fn is_reference_like(t: &Ty) -> (r: bool)
    ensures
        r == reference_like(*t),
{
    match t {
        Ty::Reference { name: _, args: _, local: _ } => true,
        Ty::Array(_) => true,
        Ty::TypeVar { scope: _, bounds: _, lower: _ } => true,
        Ty::Intersection(_) => true,
        Ty::Null => true,
        _ => false,
    }
}

/// Whether the type is `String`.
pub open spec fn string_type(t: Ty) -> bool {
    t matches Ty::Reference { name, args: _, local: _ } && name == Name::String
}

/// Whether the type is `String`.
pub fn is_string(t: &Ty) -> (r: bool)
    ensures
        r == string_type(*t),
{
    match t {
        Ty::Reference { name, args: _, local: _ } => *name == Name::String,
        _ => false,
    }
}

/// Whether an expression has outcomes of its own: a choice, a negation, or one
/// that evaluates its right operand only sometimes.
pub open spec fn bool_flow(e: Expr) -> bool
    decreases e,
{
    match e.kind {
        ExprKind::Paren(inner) => bool_flow(*inner),
        ExprKind::Binary { op, lhs: _, rhs: _ } => op == BinaryOp::And || op == BinaryOp::Or,
        ExprKind::Unary { op, expr: _ } => op == UnaryOp::Not,
        ExprKind::Conditional { cond: _, then_arm: _, else_arm: _ } => true,
        _ => false,
    }
}

pub fn is_bool_flow_expr(e: &Expr) -> (r: bool)
    ensures
        r == bool_flow(*e),
    decreases e,
{
    match &e.kind {
        ExprKind::Paren(inner) => is_bool_flow_expr(inner),
        ExprKind::Binary { op, lhs: _, rhs: _ } => *op == BinaryOp::And || *op == BinaryOp::Or,
        ExprKind::Unary { op, expr: _ } => *op == UnaryOp::Not,
        ExprKind::Conditional { cond: _, then_arm: _, else_arm: _ } => true,
        _ => false,
    }
}

impl InferCtx {
    /// What an inference leaves as it was. The flow changes, and with it the
    /// marks of an operand that is written; a statement may also leave the end
    /// unreached, which an expression never does.
    #[verifier::opaque]
    pub open spec fn frame(self) -> Frame {
        Frame {
            probing: self.probing,
            reports: if self.probing {
                Some(self.diagnostics)
            } else {
                None
            },
            target: self.target,
            scopes: under(self.scopes),
            lambda_params: self.lambda_params,
            lambda_returns: under(self.lambda_returns),
            enclosing_ret: self.enclosing_ret,
            enclosing_throws: self.enclosing_throws,
            in_loop: self.in_loop,
            in_switch: self.in_switch,
            breaks: break_labels(self.loop_breaks),
            labels: self.labels,
            switch_targets: self.switch_targets,
            case_values: under(self.case_values),
        }
    }

    /// What an inference leaves as it was, field by field.
    pub proof fn lemma_frame(self)
        ensures
            self.frame().probing == self.probing,
            self.frame().reports == (if self.probing {
                Some(self.diagnostics)
            } else {
                None
            }),
            self.frame().target == self.target,
            self.frame().scopes == under(self.scopes),
            self.frame().lambda_params == self.lambda_params,
            self.frame().lambda_returns == under(self.lambda_returns),
            self.frame().enclosing_ret == self.enclosing_ret,
            self.frame().enclosing_throws == self.enclosing_throws,
            self.frame().in_loop == self.in_loop,
            self.frame().in_switch == self.in_switch,
            self.frame().breaks == break_labels(self.loop_breaks),
            self.frame().labels == self.labels,
            self.frame().switch_targets == self.switch_targets,
            self.frame().case_values == under(self.case_values),
    {
        reveal(InferCtx::frame);
    }

    /// Another flow.
    pub fn set_flow(&mut self, flow: Flow)
        ensures
            *final(self) == (InferCtx { flow, ..*old(self) }),
            final(self).frame() == old(self).frame(),
            final(self).exited == old(self).exited,
    {
        proof {
            reveal(InferCtx::frame);
        }
        self.flow = flow;
    }

    /// Whether the end of what was inferred is reached.
    pub fn set_exited(&mut self, exited: bool)
        ensures
            *final(self) == (InferCtx { exited, ..*old(self) }),
            final(self).frame() == old(self).frame(),
    {
        proof {
            reveal(InferCtx::frame);
        }
        self.exited = exited;
    }

    /// One more report, unless the inference is tentative.
    #[verifier::opaque]
    pub open spec fn told(self, d: TypeError) -> InferCtx {
        if self.probing {
            self
        } else {
            InferCtx {
                diagnostics: List::Cons(Box::new(d), Box::new(self.diagnostics)),
                ..self
            }
        }
    }

    /// More reports, in order.
    pub open spec fn told_all(self, l: List<TypeError>) -> InferCtx
        decreases l,
    {
        match l {
            List::Nil => self,
            List::Cons(h, t) => self.told(*h).told_all(*t),
        }
    }

    /// The type of an expression.
    pub open spec fn typed(self, id: u32, t: Ty) -> InferCtx {
        InferCtx { types: assoc_put(self.types, id, t), ..self }
    }

    /// What an invocation means.
    pub open spec fn means(self, id: u32, m: ResolvedMember) -> InferCtx {
        InferCtx {
            members: List::Cons(Box::new((id, m)), Box::new(self.members)),
            ..self
        }
    }

    /// A new scope.
    #[verifier::opaque]
    pub open spec fn entered(self) -> InferCtx {
        InferCtx { scopes: List::Cons(Box::new(List::Nil), Box::new(self.scopes)), ..self }
    }

    /// Back to the scope around.
    #[verifier::opaque]
    pub open spec fn left(self) -> InferCtx {
        InferCtx { scopes: tail(self.scopes), ..self }
    }

    /// The flow where the last expression is true, and where it is false.
    pub open spec fn outcomes(self) -> (Flow, Flow) {
        match self.bool_outcomes {
            Some(o) => o,
            None => (self.flow, self.flow),
        }
    }

    /// One more report, unless the inference is tentative.
    pub fn report(&mut self, d: TypeError)
        ensures
            *final(self) == old(self).told(d),
            final(self).frame() == old(self).frame(),
            final(self).exited == old(self).exited,
    {
        proof {
            reveal(InferCtx::frame);
            reveal(InferCtx::told);
        }
        if !self.probing {
            let rest = take(&mut self.diagnostics);
            self.diagnostics = List::cons(d, rest);
        }
    }

    /// More reports, in order.
    pub fn report_all(&mut self, l: List<TypeError>)
        ensures
            *final(self) == old(self).told_all(l),
            final(self).frame() == old(self).frame(),
            final(self).exited == old(self).exited,
        decreases l,
    {
        match l {
            List::Nil => {},
            List::Cons(h, t) => {
                self.report(*h);
                self.report_all(*t);
            },
        }
    }

    /// The type of an expression.
    pub fn record_type(&mut self, id: u32, t: Ty)
        ensures
            *final(self) == old(self).typed(id, t),
            final(self).frame() == old(self).frame(),
            final(self).exited == old(self).exited,
    {
        proof {
            reveal(InferCtx::frame);
        }
        self.types = put_assoc(&self.types, &id, t);
    }

    /// What an invocation means.
    pub fn record_member(&mut self, id: u32, m: ResolvedMember)
        ensures
            *final(self) == old(self).means(id, m),
            final(self).frame() == old(self).frame(),
            final(self).exited == old(self).exited,
    {
        proof {
            reveal(InferCtx::frame);
        }
        let rest = take(&mut self.members);
        self.members = List::cons((id, m), rest);
    }

    /// A new scope.
    pub fn push_scope(&mut self)
        ensures
            *final(self) == old(self).entered(),
            final(self).frame() == (Frame { scopes: Some(old(self).scopes), ..old(self).frame() }),
            final(self).exited == old(self).exited,
    {
        proof {
            reveal(InferCtx::frame);
            reveal(InferCtx::entered);
        }
        let rest = take(&mut self.scopes);
        self.scopes = List::cons(List::Nil, rest);
    }

    /// Back to the scope around.
    pub fn pop_scope(&mut self)
        ensures
            *final(self) == old(self).left(),
            final(self).frame() == (Frame {
                scopes: under(tail(old(self).scopes)),
                ..old(self).frame()
            }),
            final(self).exited == old(self).exited,
    {
        proof {
            reveal(InferCtx::frame);
            reveal(InferCtx::left);
        }
        let rest = take(&mut self.scopes);
        self.scopes = drop_first(rest);
    }

    /// The outcomes of the last expression are used.
    #[verifier::opaque]
    pub open spec fn taken(self) -> InferCtx {
        InferCtx { bool_outcomes: None, ..self }
    }

    /// The flow where the last expression is true, and where it is false. They
    /// can be taken once.
    pub fn take_bool_outcomes(&mut self) -> (r: (Flow, Flow))
        ensures
            r == old(self).outcomes(),
            *final(self) == old(self).taken(),
            final(self).frame() == old(self).frame(),
            final(self).exited == old(self).exited,
    {
        proof {
            reveal(InferCtx::frame);
            reveal(InferCtx::taken);
        }
        let mut o: Option<(Flow, Flow)> = None;
        core::mem::swap(&mut o, &mut self.bool_outcomes);
        match o {
            Some(o) => o,
            None => (self.flow.copy(), self.flow.copy()),
        }
    }

    /// The value of a constant boolean expression.
    pub open spec fn known_bool<D: TyDatabase>(self, db: &D, e: Expr) -> Option<bool> {
        match db.constant(e, self.const_locals) {
            Some(Const::Bool(b)) => Some(b),
            _ => None,
        }
    }

    /// The value of a constant boolean expression.
    pub fn const_bool<D: TyDatabase>(&self, db: &D, e: &Expr) -> (r: Option<bool>)
        ensures
            r == self.known_bool(db, *e),
    {
        match db.const_value(e, &self.const_locals) {
            Some(Const::Bool(b)) => Some(b),
            _ => None,
        }
    }

    /// Another type for the next expression.
    #[verifier::opaque]
    pub open spec fn targeted(self, t: Option<Ty>) -> InferCtx {
        InferCtx { target: t, ..self }
    }

    /// Sets the type that the next expression should have, and returns the one
    /// before.
    pub fn set_target(&mut self, t: Option<Ty>) -> (r: Option<Ty>)
        ensures
            r == old(self).target,
            *final(self) == old(self).targeted(t),
            final(self).frame() == (Frame { target: t, ..old(self).frame() }),
            final(self).exited == old(self).exited,
    {
        proof {
            reveal(InferCtx::frame);
            reveal(InferCtx::targeted);
        }
        let mut other = t;
        core::mem::swap(&mut other, &mut self.target);
        other
    }

    /// Tentative or not.
    #[verifier::opaque]
    pub open spec fn probed(self, b: bool) -> InferCtx {
        InferCtx { probing: b, ..self }
    }

    /// Makes the inference tentative or not, and returns what it was.
    pub fn set_probing(&mut self, b: bool) -> (r: bool)
        ensures
            r == old(self).probing,
            *final(self) == old(self).probed(b),
            final(self).diagnostics == old(self).diagnostics,
            final(self).frame() == (Frame {
                probing: b,
                reports: if b {
                    Some(old(self).diagnostics)
                } else {
                    None
                },
                ..old(self).frame()
            }),
            final(self).exited == old(self).exited,
    {
        proof {
            reveal(InferCtx::frame);
            reveal(InferCtx::probed);
        }
        let was = self.probing;
        self.probing = b;
        was
    }

    /// More exceptions thrown by an expression: the checked ones.
    pub open spec fn throwing<D: TyDatabase>(self, db: &D, l: List<Ty>, expr: u32) -> InferCtx
        decreases l,
    {
        match l {
            List::Nil => self,
            List::Cons(h, t) => if checked(db, *h) {
                InferCtx { thrown: self.thrown.with((*h, expr)), ..self }.throwing(db, *t, expr)
            } else {
                self.throwing(db, *t, expr)
            },
        }
    }

    /// More exceptions thrown by an expression: the checked ones.
    pub fn add_thrown<D: TyDatabase>(&mut self, db: &D, l: &List<Ty>, expr: u32)
        ensures
            *final(self) == old(self).throwing(db, *l, expr),
            final(self).frame() == old(self).frame(),
            final(self).exited == old(self).exited,
        decreases l,
    {
        proof {
            reveal(InferCtx::frame);
        }
        match l {
            List::Nil => {},
            List::Cons(h, t) => {
                if is_checked(db, h) {
                    let thrown = take(&mut self.thrown);
                    self.thrown = thrown.push((h.copy(), expr));
                }
                self.add_thrown(db, t, expr);
            },
        }
    }

    /// The reports, first to last.
    pub fn reports(self) -> (r: List<TypeError>)
        ensures
            r == self.diagnostics.rev_onto(List::Nil),
    {
        self.diagnostics.reverse_onto(List::Nil)
    }

    /// The state at the start of a body.
    pub open spec fn start(
        ret: Option<Ty>,
        throws: List<Ty>,
        before_super: bool,
        touched: List<Name>,
    ) -> InferCtx {
        InferCtx {
            types: List::Nil,
            locals: List::Nil,
            scopes: List::Cons(Box::new(List::Nil), Box::new(List::Nil)),
            flow: Flow { definite: List::Nil, touched },
            bool_outcomes: None,
            diagnostics: List::Nil,
            members: List::Nil,
            probing: false,
            target: None,
            mutating: false,
            writing: false,
            exited: false,
            before_super,
            enclosing_ret: ret,
            enclosing_throws: throws,
            thrown: List::Nil,
            rethrow_sets: List::Nil,
            lambda_params: List::Nil,
            lambda_returns: List::Nil,
            in_loop: false,
            in_switch: false,
            loop_breaks: List::Nil,
            labels: List::Nil,
            pending_loop_label: None,
            switch_targets: List::Nil,
            case_values: List::Nil,
            const_locals: List::Nil,
            blank_finals: List::Nil,
            next_var: 0,
        }
    }

    /// The state at the start of a body. `touched` holds the blank final fields
    /// that earlier initializers assign.
    pub fn new(ret: Option<Ty>, throws: List<Ty>, before_super: bool, touched: List<Name>) -> (r:
        InferCtx)
        ensures
            r == InferCtx::start(ret, throws, before_super, touched),
    {
        InferCtx {
            types: List::Nil,
            locals: List::Nil,
            scopes: List::cons(List::Nil, List::Nil),
            flow: Flow { definite: List::Nil, touched },
            bool_outcomes: None,
            diagnostics: List::Nil,
            members: List::Nil,
            probing: false,
            target: None,
            mutating: false,
            writing: false,
            exited: false,
            before_super,
            enclosing_ret: ret,
            enclosing_throws: throws,
            thrown: List::Nil,
            rethrow_sets: List::Nil,
            lambda_params: List::Nil,
            lambda_returns: List::Nil,
            in_loop: false,
            in_switch: false,
            loop_breaks: List::Nil,
            labels: List::Nil,
            pending_loop_label: None,
            switch_targets: List::Nil,
            case_values: List::Nil,
            const_locals: List::Nil,
            blank_finals: List::Nil,
            next_var: 0,
        }
    }
}

/// The boxed form of a primitive type; another type stays as it is.
pub fn box_primitive(t: &Ty) -> (r: Ty)
    ensures
        r == crate::ty::boxed(*t),
{
    t.box_primitive()
}

/// A tentative inference reports nothing.
pub proof fn law_probing_is_silent(s: InferCtx, d: TypeError, l: List<TypeError>)
    requires
        s.probing,
    ensures
        s.told(d) == s,
        s.told_all(l) == s,
    decreases l,
{
    reveal(InferCtx::told);
    if let List::Cons(_, t) = l {
        law_probing_is_silent(s, d, *t);
    }
}

/// Leaving a scope undoes entering it.
pub proof fn law_leave_undoes_enter(s: InferCtx)
    ensures
        s.entered().left() == s,
{
    reveal(InferCtx::entered);
    reveal(InferCtx::left);
}

} // verus!
