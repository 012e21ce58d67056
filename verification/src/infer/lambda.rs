//! Lambdas and method references: their types, and what they contribute to the
//! inference of an invocation.
use crate::body::{Expr, ExprKind, LambdaBody, LambdaParam};
use crate::db::TyDatabase;
use crate::infer::ctx::{drop_first, tail, take, under, Frame, InferCtx, Site};
use crate::infer::diag::TypeError;
use crate::infer::flow::Flow;
use crate::infer::functional::{
    decapture, decaptured, find_throwers, keep_thrown_earlier, pick_method_ref, ref_picked,
    thrown_earlier, throwers,
};
use crate::infer::local::{insert_inner, put_inner};
use crate::infer::lookup::{
    dotted_type, dotted_type_name, in_mode, is_some_static, named_type, some_static, type_name_ty,
};
use crate::infer::poly::MethodRefKind;
use crate::infer::switch::{is_parameterized, parameterized};
use crate::inference::lub::{least_upper_bound, lub};
use crate::list::{Data, List};
use crate::member::{InvocationContext, InvocationMode, MethodData};
use crate::names::Name;
use crate::ty::{class_of, PrimitiveType, Ty, WildcardBound};
use rustc_hash::FxHashSet;
use vstd::prelude::*;

verus! {

/// The type of a parameter of a lambda: the written one, or what the function
/// type gives it. A captured `? super` gives its bound. While the invocation
/// around is still inferred, other wildcards give theirs.
pub open spec fn param_type<D: TyDatabase>(
    db: &D,
    site: Site,
    p: LambdaParam,
    formal: Ty,
    tentative: bool,
) -> Ty {
    match p.ty {
        Some(t) => db.resolved_type(site.file, site.item, t.shape),
        None => match formal {
            Ty::TypeVar { scope: _, bounds: _, lower } => match lower {
                Some(l) => *l,
                None => formal,
            },
            Ty::Wildcard(bound) => if tentative {
                match bound {
                    WildcardBound::Upper(b) => *b,
                    WildcardBound::Lower(b) => *b,
                    WildcardBound::Unbounded => class_of(Name::Object),
                }
            } else {
                formal
            },
            _ => formal,
        },
    }
}

fn lambda_param_type<D: TyDatabase>(
    db: &D,
    site: &Site,
    p: &LambdaParam,
    formal: &Ty,
    tentative: bool,
) -> (r: Ty)
    ensures
        r == param_type(db, *site, *p, *formal, tentative),
{
    match &p.ty {
        Some(t) => db.resolve_type_ref(site.file, site.item, &t.shape),
        None => match formal {
            Ty::TypeVar { scope: _, bounds: _, lower } => match lower {
                Some(l) => l.copy(),
                None => formal.copy(),
            },
            Ty::Wildcard(bound) => if tentative {
                match bound {
                    WildcardBound::Upper(b) => b.copy(),
                    WildcardBound::Lower(b) => b.copy(),
                    WildcardBound::Unbounded => Ty::class(Name::Object),
                }
            } else {
                formal.copy()
            },
            _ => formal.copy(),
        },
    }
}

/// The value of a block from the values it returns: none, the one, or what is
/// common to them.
pub open spec fn returned<D: TyDatabase>(db: &D, l: List<Ty>) -> Option<Ty> {
    match l {
        List::Nil => None,
        List::Cons(h, t) => if *t is Nil {
            Some(*h)
        } else {
            Some(lub(db, l))
        },
    }
}

fn returned_type<D: TyDatabase>(db: &D, l: &List<Ty>) -> (r: Option<Ty>)
    ensures
        r == returned(db, *l),
{
    match l {
        List::Nil => None,
        List::Cons(h, t) => if t.is_empty() {
            Some(h.copy())
        } else {
            Some(least_upper_bound(db, l))
        },
    }
}

/// The first element of a stack of lists.
pub open spec fn first_list(l: List<List<Ty>>) -> List<Ty> {
    match l {
        List::Nil => List::Nil,
        List::Cons(h, _) => *h,
    }
}

fn copy_first(l: &List<List<Ty>>) -> (r: List<Ty>)
    ensures
        r == first_list(*l),
{
    match l {
        List::Nil => List::Nil,
        List::Cons(h, _) => h.copy(),
    }
}

/// The place that a referenced method is looked up from.
pub open spec fn ref_access(site: Site, by_type: bool) -> InvocationContext {
    if by_type {
        in_mode(site.access, InvocationMode::TypeQualified)
    } else {
        site.access
    }
}

/// The methods of a receiver with the name of a reference. A constructor
/// reference names none.
pub open spec fn ref_methods<D: TyDatabase>(
    db: &D,
    site: Site,
    receiver: Ty,
    name: Option<Name>,
    by_type: bool,
) -> List<MethodData> {
    match name {
        Some(n) => db.members(receiver, n, ref_access(site, by_type)),
        None => List::Nil,
    }
}

fn find_ref_methods<D: TyDatabase>(
    db: &D,
    site: &Site,
    receiver: &Ty,
    name: Option<Name>,
    by_type: bool,
) -> (r: List<MethodData>)
    ensures
        r == ref_methods(db, *site, *receiver, name, by_type),
{
    match name {
        Some(n) => if by_type {
            db.member_set(receiver, n, &site.access.with_mode(InvocationMode::TypeQualified))
        } else {
            db.member_set(receiver, n, &site.access)
        },
        None => List::Nil,
    }
}

/// How the parameters of the function type map to those of the methods.
pub open spec fn ref_kind(methods: List<MethodData>, by_type: bool) -> MethodRefKind {
    if !by_type {
        MethodRefKind::Bound
    } else if some_static(methods) {
        MethodRefKind::Static
    } else {
        MethodRefKind::Unbound
    }
}

/// The type that a referenced method is a member of. A method that takes its
/// receiver from the function type is one of that parameter, where it has type
/// arguments.
pub open spec fn ref_receiver(ty: Ty, params: List<Ty>, kind: MethodRefKind) -> Ty {
    match kind {
        MethodRefKind::Unbound => match params {
            List::Nil => ty,
            List::Cons(first, _) => if parameterized(decaptured(*first)) {
                decaptured(*first)
            } else {
                ty
            },
        },
        _ => ty,
    }
}

fn find_ref_receiver(ty: &Ty, params: &List<Ty>, kind: MethodRefKind) -> (r: Ty)
    ensures
        r == ref_receiver(*ty, *params, kind),
{
    match kind {
        MethodRefKind::Unbound => match params {
            List::Nil => ty.copy(),
            List::Cons(first, _) => {
                let d = decapture(first);
                if is_parameterized(&d) {
                    d
                } else {
                    ty.copy()
                }
            },
        },
        _ => ty.copy(),
    }
}

impl InferCtx {
    /// The parameters of a lambda in its frame.
    pub open spec fn with_params<D: TyDatabase>(
        self,
        db: &D,
        site: Site,
        lambda: u32,
        params: List<LambdaParam>,
        formals: List<Ty>,
        tentative: bool,
    ) -> InferCtx
        decreases params,
    {
        match (params, formals) {
            (List::Cons(p, pt), List::Cons(f, ft)) => {
                let s = self.param_checked(lambda, p.name, p.range);
                (InferCtx {
                    lambda_params: put_inner(
                        s.lambda_params,
                        p.name,
                        param_type(db, site, *p, *f, tentative),
                    ),
                    ..s
                }).with_params(db, site, lambda, *pt, *ft, tentative)
            },
            _ => self,
        }
    }

    fn add_lambda_params<D: TyDatabase>(
        &mut self,
        db: &D,
        site: &Site,
        lambda: u32,
        params: &List<LambdaParam>,
        formals: &List<Ty>,
        tentative: bool,
    )
        ensures
            *final(self) == old(self).with_params(
                db,
                *site,
                lambda,
                *params,
                *formals,
                tentative,
            ),
            under(final(self).lambda_params) == under(old(self).lambda_params),
            final(self).frame() == (Frame {
                lambda_params: final(self).lambda_params,
                ..old(self).frame()
            }),
            final(self).exited == old(self).exited,
        decreases params,
    {
        proof {
            reveal(InferCtx::frame);
        }
        match (params, formals) {
            (List::Cons(p, pt), List::Cons(f, ft)) => {
                let ty = lambda_param_type(db, site, p, f, tentative);
                self.check_lambda_param_duplicate(lambda, p.name, p.range);
                let frames = take(&mut self.lambda_params);
                self.lambda_params = insert_inner(frames, p.name, ty);
                self.add_lambda_params(db, site, lambda, pt, ft, tentative);
            },
            _ => {},
        }
    }

    /// Inside a lambda: its parameters are in scope, and a `return` returns from
    /// it.
    #[verifier::opaque]
    pub open spec fn inside<D: TyDatabase>(
        self,
        db: &D,
        site: Site,
        lambda: u32,
        params: List<LambdaParam>,
        sam: MethodData,
        tentative: bool,
    ) -> InferCtx {
        let s = (InferCtx {
            lambda_params: List::Cons(Box::new(List::Nil), Box::new(self.lambda_params)),
            ..self
        }).with_params(db, site, lambda, params, sam.params, tentative);
        InferCtx {
            enclosing_ret: Some(decaptured(sam.ret)),
            enclosing_throws: sam.throws,
            ..s
        }
    }

    /// Enters a lambda, and returns what a `return` and a `throw` mean outside.
    fn enter_lambda<D: TyDatabase>(
        &mut self,
        db: &D,
        site: &Site,
        lambda: u32,
        params: &List<LambdaParam>,
        sam: &MethodData,
        tentative: bool,
    ) -> (r: (Option<Ty>, List<Ty>))
        ensures
            *final(self) == old(self).inside(db, *site, lambda, *params, *sam, tentative),
            r.0 == old(self).enclosing_ret,
            r.1 == old(self).enclosing_throws,
            under(final(self).lambda_params) == Some(old(self).lambda_params),
            final(self).frame() == (Frame {
                lambda_params: final(self).lambda_params,
                enclosing_ret: final(self).enclosing_ret,
                enclosing_throws: final(self).enclosing_throws,
                ..old(self).frame()
            }),
            final(self).exited == old(self).exited,
    {
        proof {
            reveal(InferCtx::frame);
            reveal(InferCtx::inside);
        }
        let ret = self.enclosing_ret.copy();
        let throws = self.enclosing_throws.copy();
        let frames = take(&mut self.lambda_params);
        self.lambda_params = List::cons(List::Nil, frames);
        self.add_lambda_params(db, site, lambda, params, &sam.params, tentative);
        self.enclosing_ret = Some(decapture(&sam.ret));
        self.enclosing_throws = sam.throws.copy();
        (ret, throws)
    }

    /// Outside a lambda again: what it did to the flow does not count.
    #[verifier::opaque]
    pub open spec fn outside(
        self,
        ret: Option<Ty>,
        throws: List<Ty>,
        exited: bool,
        flow: Flow,
    ) -> InferCtx {
        InferCtx {
            enclosing_ret: ret,
            enclosing_throws: throws,
            exited,
            flow,
            lambda_params: tail(self.lambda_params),
            ..self
        }
    }

    /// Leaves a lambda.
    fn leave_lambda(&mut self, ret: Option<Ty>, throws: List<Ty>, exited: bool, flow: Flow)
        ensures
            *final(self) == old(self).outside(ret, throws, exited, flow),
            final(self).frame() == (Frame {
                lambda_params: tail(old(self).lambda_params),
                enclosing_ret: ret,
                enclosing_throws: throws,
                ..old(self).frame()
            }),
            final(self).exited == exited,
    {
        proof {
            reveal(InferCtx::frame);
            reveal(InferCtx::outside);
        }
        self.enclosing_ret = ret;
        self.enclosing_throws = throws;
        self.exited = exited;
        self.flow = flow;
        let frames = take(&mut self.lambda_params);
        self.lambda_params = drop_first(frames);
    }

    /// The type of a lambda: its target, a functional interface. Its body is
    /// typed against the result of the function type.
    pub open spec fn lambda_expr<D: TyDatabase>(self, db: &D, site: Site, e: Expr) -> (InferCtx, Ty)
        decreases e, 18nat, List::<MethodData>::Nil,
    {
        match (e.kind, self.target) {
            (ExprKind::Lambda { params, body: _ }, Some(target)) => match db.sam(target) {
                None => (
                    if target is Error {
                        self
                    } else {
                        self.told(TypeError::NotAFunctionalInterface { expr: e.id, target })
                    },
                    Ty::Error,
                ),
                Some(sam) => if sam.params.count() != params.count() {
                    (self, Ty::Error)
                } else {
                    let s = self.inside(db, site, e.id, params, sam, false);
                    let s1 = s.lambda_body(db, site, e, sam).settled(
                        db,
                        sam.throws,
                        throwers(s.thrown),
                    );
                    (
                        s1.outside(self.enclosing_ret, self.enclosing_throws, s.exited, s.flow),
                        target,
                    )
                },
            },
            _ => (self, Ty::Error),
        }
    }

    /// The body of a lambda against the result of its function type.
    pub open spec fn lambda_body<D: TyDatabase>(
        self,
        db: &D,
        site: Site,
        e: Expr,
        sam: MethodData,
    ) -> InferCtx
        decreases e, 17nat, List::<MethodData>::Nil,
    {
        match e.kind {
            ExprKind::Lambda { params: _, body } => match body {
                LambdaBody::Expr(b) => self.expr_to(
                    db,
                    site,
                    *b,
                    if sam.ret == Ty::Primitive(PrimitiveType::Void) {
                        None
                    } else {
                        Some(decaptured(sam.ret))
                    },
                ).0,
                LambdaBody::Block(b) => self.targeted(None).stmt(db, site, *b).targeted(
                    self.target,
                ),
            },
            _ => self,
        }
    }

    fn infer_lambda_body<D: TyDatabase>(
        &mut self,
        db: &D,
        site: &Site,
        e: &Expr,
        sam: &MethodData,
    )
        ensures
            *final(self) == old(self).lambda_body(db, *site, *e, *sam),
            final(self).frame() == old(self).frame(),
        decreases e, 17nat, List::<MethodData>::Nil,
    {
        if let ExprKind::Lambda { params: _, body } = &e.kind {
            match body {
                LambdaBody::Expr(b) => {
                    let expected = if sam.ret.is_void_like() {
                        None
                    } else {
                        Some(decapture(&sam.ret))
                    };
                    let _ = self.infer_against(db, site, b, expected);
                },
                LambdaBody::Block(b) => {
                    proof {
                        self.lemma_frame();
                    }
                    let saved = self.set_target(None);
                    self.infer_stmt(db, site, b);
                    let _ = self.set_target(saved);
                },
            }
        }
    }

    /// The type of a lambda.
    pub fn lambda_type<D: TyDatabase>(&mut self, db: &D, site: &Site, e: &Expr) -> (r: Ty)
        ensures
            (*final(self), r) == old(self).lambda_expr(db, *site, *e),
            final(self).frame() == old(self).frame(),
            final(self).exited == old(self).exited,
        decreases e, 18nat, List::<MethodData>::Nil,
    {
        let target = match &self.target {
            Some(t) => t.copy(),
            None => {
                return Ty::Error;
            },
        };
        match &e.kind {
            ExprKind::Lambda { params, body: _ } => {
                let sam = match db.single_abstract_method(&target) {
                    Some(m) => m,
                    None => {
                        if !target.is_error() {
                            self.report(
                                TypeError::NotAFunctionalInterface { expr: e.id, target },
                            );
                        }
                        return Ty::Error;
                    },
                };
                if !sam.params.same_len(params) {
                    return Ty::Error;
                }
                proof {
                    self.lemma_frame();
                }
                let (ret, throws) = self.enter_lambda(db, site, e.id, params, &sam, false);
                let exited = self.exited;
                let flow = self.flow.copy();
                let before = find_throwers(&self.thrown);
                self.infer_lambda_body(db, site, e, &sam);
                self.settle_lambda_thrown(db, &sam.throws, &before);
                proof {
                    self.lemma_frame();
                }
                self.leave_lambda(ret, throws, exited, flow);
                target
            },
            _ => Ty::Error,
        }
    }

    /// The value of the body of a lambda against a function type that is not
    /// settled yet. Nothing of the body counts outside.
    pub open spec fn lambda_value<D: TyDatabase>(
        self,
        db: &D,
        site: Site,
        e: Expr,
        sam: MethodData,
    ) -> (InferCtx, Option<Ty>)
        decreases e, 13nat, List::<MethodData>::Nil,
    {
        match e.kind {
            ExprKind::Lambda { params, body: _ } => {
                let s = self.inside(db, site, e.id, params, sam, true);
                let (s1, value) = s.body_value(db, site, e, sam);
                (
                    s1.forgotten(throwers(s.thrown)).outside(
                        self.enclosing_ret,
                        self.enclosing_throws,
                        s.exited,
                        s.flow,
                    ),
                    value,
                )
            },
            _ => (self, None),
        }
    }

    /// The value of the body of a lambda.
    pub open spec fn body_value<D: TyDatabase>(
        self,
        db: &D,
        site: Site,
        e: Expr,
        sam: MethodData,
    ) -> (InferCtx, Option<Ty>)
        decreases e, 12nat, List::<MethodData>::Nil,
    {
        match e.kind {
            ExprKind::Lambda { params: _, body } => match body {
                LambdaBody::Expr(b) => if sam.ret == Ty::Primitive(PrimitiveType::Void) {
                    (self.expr_to(db, site, *b, None).0, None)
                } else {
                    let (s, ty) = self.expr_to(db, site, *b, Some(decaptured(sam.ret)));
                    (s, Some(ty))
                },
                LambdaBody::Block(b) => {
                    let s = self.returning().targeted(Some(decaptured(sam.ret))).stmt(
                        db,
                        site,
                        *b,
                    ).targeted(self.target);
                    (s.done_returning(), returned(db, first_list(s.lambda_returns)))
                },
            },
            _ => (self, None),
        }
    }

    /// The exceptions of all but some expressions are forgotten.
    #[verifier::opaque]
    pub open spec fn forgotten(self, before: Set<u32>) -> InferCtx {
        InferCtx { thrown: thrown_earlier(self.thrown, before), ..self }
    }

    fn forget_thrown(&mut self, before: &FxHashSet<u32>)
        ensures
            *final(self) == old(self).forgotten(before@),
            final(self).frame() == old(self).frame(),
            final(self).exited == old(self).exited,
    {
        proof {
            reveal(InferCtx::frame);
            reveal(InferCtx::forgotten);
        }
        let thrown = take(&mut self.thrown);
        self.thrown = keep_thrown_earlier(thrown, before);
    }

    /// The values of the returns are recorded.
    #[verifier::opaque]
    pub open spec fn returning(self) -> InferCtx {
        InferCtx {
            lambda_returns: List::Cons(Box::new(List::Nil), Box::new(self.lambda_returns)),
            ..self
        }
    }

    fn start_returning(&mut self)
        ensures
            *final(self) == old(self).returning(),
            final(self).frame() == (Frame {
                lambda_returns: Some(old(self).lambda_returns),
                ..old(self).frame()
            }),
            final(self).exited == old(self).exited,
    {
        proof {
            reveal(InferCtx::frame);
            reveal(InferCtx::returning);
        }
        let frames = take(&mut self.lambda_returns);
        self.lambda_returns = List::cons(List::Nil, frames);
    }

    /// The values of the returns are no longer recorded.
    #[verifier::opaque]
    pub open spec fn done_returning(self) -> InferCtx {
        InferCtx { lambda_returns: tail(self.lambda_returns), ..self }
    }

    fn stop_returning(&mut self) -> (r: List<Ty>)
        ensures
            r == first_list(old(self).lambda_returns),
            *final(self) == old(self).done_returning(),
            final(self).frame() == (Frame {
                lambda_returns: under(tail(old(self).lambda_returns)),
                ..old(self).frame()
            }),
            final(self).exited == old(self).exited,
    {
        proof {
            reveal(InferCtx::frame);
            reveal(InferCtx::done_returning);
        }
        let values = copy_first(&self.lambda_returns);
        let frames = take(&mut self.lambda_returns);
        self.lambda_returns = drop_first(frames);
        values
    }

    /// The value of the body of a lambda against a function type that is not
    /// settled yet.
    pub fn infer_lambda_body_result<D: TyDatabase>(
        &mut self,
        db: &D,
        site: &Site,
        e: &Expr,
        sam: &MethodData,
    ) -> (r: Option<Ty>)
        ensures
            (*final(self), r) == old(self).lambda_value(db, *site, *e, *sam),
            final(self).frame() == old(self).frame(),
            final(self).exited == old(self).exited,
        decreases e, 13nat, List::<MethodData>::Nil,
    {
        match &e.kind {
            ExprKind::Lambda { params, body: _ } => {
                proof {
                    self.lemma_frame();
                }
                let (ret, throws) = self.enter_lambda(db, site, e.id, params, sam, true);
                let exited = self.exited;
                let flow = self.flow.copy();
                let before = find_throwers(&self.thrown);
                let value = self.infer_body_value(db, site, e, sam);
                self.forget_thrown(&before);
                proof {
                    self.lemma_frame();
                }
                self.leave_lambda(ret, throws, exited, flow);
                value
            },
            _ => None,
        }
    }

    fn infer_body_value<D: TyDatabase>(
        &mut self,
        db: &D,
        site: &Site,
        e: &Expr,
        sam: &MethodData,
    ) -> (r: Option<Ty>)
        ensures
            (*final(self), r) == old(self).body_value(db, *site, *e, *sam),
            final(self).frame() == old(self).frame(),
        decreases e, 12nat, List::<MethodData>::Nil,
    {
        match &e.kind {
            ExprKind::Lambda { params: _, body } => match body {
                LambdaBody::Expr(b) => {
                    if sam.ret.is_void_like() {
                        let _ = self.infer_against(db, site, b, None);
                        None
                    } else {
                        let ty = self.infer_against(db, site, b, Some(decapture(&sam.ret)));
                        Some(ty)
                    }
                },
                LambdaBody::Block(b) => {
                    proof {
                        self.lemma_frame();
                    }
                    let saved = self.target.copy();
                    self.start_returning();
                    let _ = self.set_target(Some(decapture(&sam.ret)));
                    self.infer_stmt(db, site, b);
                    let _ = self.set_target(saved);
                    proof {
                        self.lemma_frame();
                    }
                    let values = self.stop_returning();
                    returned_type(db, &values)
                },
            },
            _ => None,
        }
    }

    /// The type that a method reference is qualified by, and whether it is named
    /// as a type.
    pub open spec fn ref_target<D: TyDatabase>(self, db: &D, site: Site, e: Expr) -> (
        InferCtx,
        Option<(Ty, bool)>,
    )
        decreases e, 5nat, List::<MethodData>::Nil,
    {
        match e.kind {
            ExprKind::MethodRef { qualifier, named, name: _ } => match named {
                Some(t) => (
                    self,
                    Some((db.resolved_type(site.file, site.item, t.shape), true)),
                ),
                None => match qualifier {
                    None => (self, None),
                    Some(q) => match dotted_type(db, site, self.scopes, *q) {
                        Some(t) => (self, Some((t, true))),
                        None => {
                            let by_name = match q.kind {
                                ExprKind::Var(n) => named_type(db, site, self.scopes, n),
                                _ => None,
                            };
                            match by_name {
                                Some(t) => (self, Some((t, true))),
                                None => {
                                    let (s, t) = self.expr(db, site, *q);
                                    (s, Some((t, false)))
                                },
                            }
                        },
                    },
                },
            },
            _ => (self, None),
        }
    }

    /// The type that a method reference is qualified by, and whether it is named
    /// as a type.
    pub fn method_ref_target<D: TyDatabase>(&mut self, db: &D, site: &Site, e: &Expr) -> (r:
        Option<(Ty, bool)>)
        ensures
            (*final(self), r) == old(self).ref_target(db, *site, *e),
            final(self).frame() == old(self).frame(),
            final(self).exited == old(self).exited,
        decreases e, 5nat, List::<MethodData>::Nil,
    {
        match &e.kind {
            ExprKind::MethodRef { qualifier, named, name: _ } => match named {
                Some(t) => Some((db.resolve_type_ref(site.file, site.item, &t.shape), true)),
                None => match qualifier {
                    None => None,
                    Some(q) => match dotted_type_name(db, site, &self.scopes, q) {
                        Some(t) => Some((t, true)),
                        None => {
                            let by_name = match &q.kind {
                                ExprKind::Var(n) => type_name_ty(db, site, &self.scopes, *n),
                                _ => None,
                            };
                            match by_name {
                                Some(t) => Some((t, true)),
                                None => {
                                    let t = self.infer_expr(db, site, q);
                                    Some((t, false))
                                },
                            }
                        },
                    },
                },
            },
            _ => None,
        }
    }

    /// The methods that a method reference may mean, and how the parameters of
    /// the function type map to theirs.
    pub open spec fn ref_members<D: TyDatabase>(
        self,
        db: &D,
        site: Site,
        e: Expr,
        params: List<Ty>,
    ) -> (InferCtx, Option<(List<MethodData>, MethodRefKind)>)
        decreases e, 6nat, List::<MethodData>::Nil,
    {
        match e.kind {
            ExprKind::MethodRef { qualifier: _, named: _, name } => {
                let (s, target) = self.ref_target(db, site, e);
                match target {
                    None => (s, None),
                    Some((ty, by_type)) => if !(ty is Reference) {
                        (s, None)
                    } else {
                        let kind = ref_kind(ref_methods(db, site, ty, name, by_type), by_type);
                        (
                            s,
                            Some(
                                (
                                    ref_methods(
                                        db,
                                        site,
                                        ref_receiver(ty, params, kind),
                                        name,
                                        by_type,
                                    ),
                                    kind,
                                ),
                            ),
                        )
                    },
                }
            },
            _ => (self, None),
        }
    }

    /// The methods that a method reference may mean.
    pub fn method_ref_members<D: TyDatabase>(
        &mut self,
        db: &D,
        site: &Site,
        e: &Expr,
        params: &List<Ty>,
    ) -> (r: Option<(List<MethodData>, MethodRefKind)>)
        ensures
            (*final(self), r) == old(self).ref_members(db, *site, *e, *params),
            final(self).frame() == old(self).frame(),
            final(self).exited == old(self).exited,
        decreases e, 6nat, List::<MethodData>::Nil,
    {
        match &e.kind {
            ExprKind::MethodRef { qualifier: _, named: _, name } => match self.method_ref_target(
                db,
                site,
                e,
            ) {
                None => None,
                Some((ty, by_type)) => {
                    match &ty {
                        Ty::Reference { name: _, args: _, local: _ } => {},
                        _ => {
                            return None;
                        },
                    }
                    let on_type = find_ref_methods(db, site, &ty, *name, by_type);
                    let kind = if !by_type {
                        MethodRefKind::Bound
                    } else if is_some_static(&on_type) {
                        MethodRefKind::Static
                    } else {
                        MethodRefKind::Unbound
                    };
                    let receiver = find_ref_receiver(&ty, params, kind);
                    Some((find_ref_methods(db, site, &receiver, *name, by_type), kind))
                },
            },
            _ => None,
        }
    }

    /// The method that a method reference means.
    pub open spec fn ref_candidate<D: TyDatabase>(
        self,
        db: &D,
        site: Site,
        e: Expr,
        params: List<Ty>,
    ) -> (InferCtx, Option<MethodData>)
        decreases e, 7nat, List::<MethodData>::Nil,
    {
        let (s, found) = self.ref_members(db, site, e, params);
        match found {
            None => (s, None),
            Some((methods, kind)) => (s, ref_picked(db, s.next_var, methods, params, kind)),
        }
    }

    /// The method that a method reference means.
    pub fn method_ref_candidate<D: TyDatabase>(
        &mut self,
        db: &D,
        site: &Site,
        e: &Expr,
        params: &List<Ty>,
    ) -> (r: Option<MethodData>)
        ensures
            (*final(self), r) == old(self).ref_candidate(db, *site, *e, *params),
            final(self).frame() == old(self).frame(),
            final(self).exited == old(self).exited,
        decreases e, 7nat, List::<MethodData>::Nil,
    {
        match self.method_ref_members(db, site, e, params) {
            None => None,
            Some((methods, kind)) => pick_method_ref(db, self.next_var, &methods, params, kind),
        }
    }

    /// Whether a method reference can have a function type with the parameters:
    /// there is a method that takes them. One that names no method at all can,
    /// and so can a constructor reference.
    pub open spec fn ref_congruent<D: TyDatabase>(
        self,
        db: &D,
        site: Site,
        e: Expr,
        params: List<Ty>,
    ) -> (InferCtx, bool)
        decreases e, 8nat, List::<MethodData>::Nil,
    {
        let (s, target) = self.ref_target(db, site, e);
        match target {
            None => (s, true),
            Some((ty, _)) => if creates_object(e, ty) {
                (s, true)
            } else {
                let (s1, found) = s.ref_members(db, site, e, params);
                match found {
                    None => (s1, true),
                    Some((methods, kind)) => (
                        s1,
                        methods is Nil || ref_picked(
                            db,
                            s1.next_var,
                            methods,
                            params,
                            kind,
                        ) is Some,
                    ),
                }
            },
        }
    }

    /// Whether a method reference can have a function type with the parameters.
    pub fn method_ref_congruent<D: TyDatabase>(
        &mut self,
        db: &D,
        site: &Site,
        e: &Expr,
        params: &List<Ty>,
    ) -> (r: bool)
        ensures
            (*final(self), r) == old(self).ref_congruent(db, *site, *e, *params),
            final(self).frame() == old(self).frame(),
            final(self).exited == old(self).exited,
        decreases e, 8nat, List::<MethodData>::Nil,
    {
        match self.method_ref_target(db, site, e) {
            None => true,
            Some((ty, _)) => {
                if does_create_object(e, &ty) {
                    return true;
                }
                match self.method_ref_members(db, site, e, params) {
                    None => true,
                    Some((methods, kind)) => methods.is_empty() || pick_method_ref(
                        db,
                        self.next_var,
                        &methods,
                        params,
                        kind,
                    ).is_some(),
                }
            },
        }
    }

    /// The type of the value that a method reference gives: the result of its
    /// method, or the type that a constructor reference creates.
    pub open spec fn ref_return<D: TyDatabase>(
        self,
        db: &D,
        site: Site,
        e: Expr,
        params: List<Ty>,
    ) -> (InferCtx, Ty)
        decreases e, 8nat, List::<MethodData>::Nil,
    {
        let (s, target) = self.ref_target(db, site, e);
        match target {
            None => (s, Ty::Error),
            Some((ty, _)) => if creates_object(e, ty) {
                (s, ty)
            } else if !(ty is Reference) {
                (s, Ty::Error)
            } else {
                let (s1, m) = s.ref_candidate(db, site, e, params);
                (
                    s1,
                    match m {
                        Some(m) => m.ret,
                        None => Ty::Error,
                    },
                )
            },
        }
    }

    /// The type of the value that a method reference gives.
    pub fn method_ref_return<D: TyDatabase>(
        &mut self,
        db: &D,
        site: &Site,
        e: &Expr,
        params: &List<Ty>,
    ) -> (r: Ty)
        ensures
            (*final(self), r) == old(self).ref_return(db, *site, *e, *params),
            final(self).frame() == old(self).frame(),
            final(self).exited == old(self).exited,
        decreases e, 8nat, List::<MethodData>::Nil,
    {
        match self.method_ref_target(db, site, e) {
            None => Ty::Error,
            Some((ty, _)) => {
                if does_create_object(e, &ty) {
                    return ty;
                }
                match &ty {
                    Ty::Reference { name: _, args: _, local: _ } => {},
                    _ => {
                        return Ty::Error;
                    },
                }
                match self.method_ref_candidate(db, site, e, params) {
                    Some(m) => m.ret,
                    None => Ty::Error,
                }
            },
        }
    }

    /// The type of a method reference: its target, a functional interface.
    pub open spec fn reference_expr<D: TyDatabase>(self, db: &D, site: Site, e: Expr) -> (
        InferCtx,
        Ty,
    )
        decreases e, 18nat, List::<MethodData>::Nil,
    {
        match self.target {
            None => (self, Ty::Error),
            Some(target) => match db.sam(target) {
                None => (
                    if target is Error {
                        self
                    } else {
                        self.told(TypeError::NotAFunctionalInterface { expr: e.id, target })
                    },
                    Ty::Error,
                ),
                Some(sam) => (self.ref_candidate(db, site, e, sam.params).0, target),
            },
        }
    }

    /// The type of a method reference.
    pub fn method_ref_type<D: TyDatabase>(&mut self, db: &D, site: &Site, e: &Expr) -> (r: Ty)
        ensures
            (*final(self), r) == old(self).reference_expr(db, *site, *e),
            final(self).frame() == old(self).frame(),
            final(self).exited == old(self).exited,
        decreases e, 18nat, List::<MethodData>::Nil,
    {
        let target = match &self.target {
            Some(t) => t.copy(),
            None => {
                return Ty::Error;
            },
        };
        match db.single_abstract_method(&target) {
            None => {
                if !target.is_error() {
                    self.report(TypeError::NotAFunctionalInterface { expr: e.id, target });
                }
                Ty::Error
            },
            Some(sam) => {
                let _ = self.method_ref_candidate(db, site, e, &sam.params);
                target
            },
        }
    }
}

/// Whether a reference is one to a constructor of a class or an array.
pub open spec fn creates_object(e: Expr, ty: Ty) -> bool {
    match e.kind {
        ExprKind::MethodRef { qualifier: _, named: _, name } => name is None && (ty is Reference
            || ty is Array),
        _ => false,
    }
}

fn does_create_object(e: &Expr, ty: &Ty) -> (r: bool)
    ensures
        r == creates_object(*e, *ty),
{
    match &e.kind {
        ExprKind::MethodRef { qualifier: _, named: _, name } => name.is_none() && match ty {
            Ty::Reference { name: _, args: _, local: _ } => true,
            Ty::Array(_) => true,
            _ => false,
        },
        _ => false,
    }
}

} // verus!
