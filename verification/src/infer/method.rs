//! Invocations of methods and explicit constructor calls.
use crate::body::{CtorCallTarget, Expr, ExprKind};
use crate::class_key::{find_unqualified, unqualified_of};
use crate::db::TyDatabase;
use crate::infer::candidate::{explicit_type_args, explicit_types, CallResolution};
use crate::infer::context::{find_method_item, method_item};
use crate::infer::ctx::{InferCtx, Site};
use crate::infer::diag::{EarlyReference, ResolvedMember, TypeError};
use crate::infer::field::{chain_field, levels, pick_field_of_chain_exists};
use crate::infer::local::{find_local, found_local};
use crate::infer::lookup::{
    delegate_name, dotted_type, dotted_type_name, find_delegate_name, importing_class, in_mode,
    qualified_super, qualified_super_ty, qualifier_is_superinterface, receiver_fqn,
    static_import_method_receiver, super_ty, superclass, superinterface,
    unqualified_method_receiver, unqualified_receiver,
};
use crate::infer::overload::{deferred_formals, find_deferred_formals};
use crate::infer::poly::ArgType;
use crate::list::{Data, List};
use crate::member::{InvocationContext, InvocationMode, MethodData};
use crate::names::Name;
use crate::ty::{PrimitiveType, Ty};
use vstd::prelude::*;

verus! {

/// Whether a receiver is a simple name that means a field rather than a class.
pub open spec fn names_field<D: TyDatabase>(db: &D, site: Site, s: InferCtx, e: Expr) -> bool {
    match e.kind {
        ExprKind::Var(name) => found_local(s.scopes, name) is None && !(chain_field(
            db,
            levels(site),
            name,
            site.access,
        ) is Missing),
        _ => false,
    }
}

/// The methods that an invocation may have meant.
pub open spec fn meant(r: CallResolution, members: List<MethodData>) -> List<MethodData> {
    match r {
        CallResolution::Ambiguous(l) => l,
        _ => members,
    }
}

impl InferCtx {
    fn does_name_field<D: TyDatabase>(&self, db: &D, site: &Site, e: &Expr) -> (r: bool)
        ensures
            r == names_field(db, *site, *self, *e),
    {
        match &e.kind {
            ExprKind::Var(name) => find_local(&self.scopes, *name).is_none()
                && pick_field_of_chain_exists(db, site, *name),
            _ => false,
        }
    }

    /// The type whose methods an invocation chooses from, the form of the
    /// invocation, and whether it is by a simple name.
    pub open spec fn receiver<D: TyDatabase>(self, db: &D, site: Site, e: Expr) -> (
        InferCtx,
        (Ty, InvocationMode, bool),
    )
        decreases e, 10nat, List::<MethodData>::Nil,
    {
        match e.kind {
            ExprKind::MethodCall { receiver, name, type_args: _, args: _ } => match receiver {
                None => match importing_class(
                    db,
                    site,
                    db.static_imports(site.file, site.item, name),
                ) {
                    Some(t) => (self, (t, InvocationMode::Static, false)),
                    None => (
                        self,
                        (unqualified_receiver(db, site, name), InvocationMode::MethodName, true),
                    ),
                },
                Some(r) => {
                    let class = if names_field(db, site, self, *r) {
                        None
                    } else {
                        dotted_type(db, site, self.scopes, *r)
                    };
                    match class {
                        Some(t) => (
                            self.told_all(db.type_reports(r.id, t)),
                            (t, InvocationMode::Static, false),
                        ),
                        None => match r.kind {
                            ExprKind::Super { qualifier } => {
                                let s = self.super_checked(site, r.id);
                                match qualifier {
                                    None => (
                                        s,
                                        (superclass(db, site), InvocationMode::Super, false),
                                    ),
                                    Some(q) => {
                                        let raw = db.resolved_type(site.file, site.item, q.shape);
                                        (
                                            if superinterface(db, site, raw) {
                                                s
                                            } else {
                                                s.told(
                                                    TypeError::QualifiedSuperNotEnclosing {
                                                        expr: r.id,
                                                        qualifier: raw,
                                                    },
                                                )
                                            },
                                            (
                                                qualified_super(db, site, raw),
                                                InvocationMode::Interface,
                                                false,
                                            ),
                                        )
                                    },
                                }
                            },
                            _ => {
                                let (s, t) = self.expr_to(db, site, *r, None);
                                (s, (t, InvocationMode::Virtual, false))
                            },
                        },
                    }
                },
            },
            _ => (self, (Ty::Error, InvocationMode::Virtual, false)),
        }
    }

    /// The type whose methods an invocation chooses from, the form of the
    /// invocation, and whether it is by a simple name.
    pub fn receiver_info<D: TyDatabase>(&mut self, db: &D, site: &Site, e: &Expr) -> (r: (
        Ty,
        InvocationMode,
        bool,
    ))
        ensures
            (*final(self), r) == old(self).receiver(db, *site, *e),
            final(self).frame() == old(self).frame(),
            final(self).exited == old(self).exited,
        decreases e, 10nat, List::<MethodData>::Nil,
    {
        match &e.kind {
            ExprKind::MethodCall { receiver, name, type_args: _, args: _ } => match receiver {
                None => match static_import_method_receiver(db, site, *name) {
                    Some(t) => (t, InvocationMode::Static, false),
                    None => (
                        unqualified_method_receiver(db, site, *name),
                        InvocationMode::MethodName,
                        true,
                    ),
                },
                Some(r) => {
                    let class = if self.does_name_field(db, site, r) {
                        None
                    } else {
                        dotted_type_name(db, site, &self.scopes, r)
                    };
                    if let Some(t) = class {
                        self.report_all(db.check_type_name(r.id, &t));
                        return (t, InvocationMode::Static, false);
                    }
                    match &r.kind {
                        ExprKind::Super { qualifier } => {
                            self.check_super(site, r.id);
                            match qualifier {
                                None => (super_ty(db, site), InvocationMode::Super, false),
                                Some(q) => {
                                    let raw = db.resolve_type_ref(site.file, site.item, &q.shape);
                                    if !qualifier_is_superinterface(db, site, &raw) {
                                        self.report(
                                            TypeError::QualifiedSuperNotEnclosing {
                                                expr: r.id,
                                                qualifier: raw,
                                            },
                                        );
                                    }
                                    (
                                        qualified_super_ty(db, site, q),
                                        InvocationMode::Interface,
                                        false,
                                    )
                                },
                            }
                        },
                        _ => {
                            let t = self.infer_against(db, site, r, None);
                            (t, InvocationMode::Virtual, false)
                        },
                    }
                },
            },
            _ => (Ty::Error, InvocationMode::Virtual, false),
        }
    }

    /// What is recorded and reported of the method that was chosen.
    #[verifier::opaque]
    pub open spec fn selected<D: TyDatabase>(
        self,
        db: &D,
        expr: u32,
        name: Name,
        mode: InvocationMode,
        candidate: MethodData,
        m: MethodData,
        types: List<ArgType>,
    ) -> InferCtx {
        let s = self.means(expr, ResolvedMember::Method(candidate)).told_all(
            db.api_reports(expr, m),
        );
        let s1 = if (mode == InvocationMode::Super || mode == InvocationMode::Interface)
            && m.is_abstract {
            s.told(TypeError::AbstractSuperAccess { expr, method: name, owner: m.owner })
        } else {
            s
        };
        s1.told_all(db.unchecked_reports(expr, m, types))
    }

    fn record_selected<D: TyDatabase>(
        &mut self,
        db: &D,
        expr: u32,
        name: Name,
        mode: InvocationMode,
        candidate: MethodData,
        m: &MethodData,
        types: &List<ArgType>,
    )
        ensures
            *final(self) == old(self).selected(db, expr, name, mode, candidate, *m, *types),
            final(self).frame() == old(self).frame(),
            final(self).exited == old(self).exited,
    {
        proof {
            reveal(InferCtx::selected);
        }
        self.record_member(expr, ResolvedMember::Method(candidate));
        self.report_all(db.check_api(expr, m));
        if (mode == InvocationMode::Super || mode == InvocationMode::Interface) && m.is_abstract {
            self.report(TypeError::AbstractSuperAccess { expr, method: name, owner: m.owner });
        }
        self.report_all(db.check_unchecked(expr, m, types));
    }

    /// The reports on an instance method invoked by its simple name where there
    /// is no instance, or none yet, and the exceptions of the method.
    #[verifier::opaque]
    pub open spec fn invoked<D: TyDatabase>(
        self,
        db: &D,
        site: Site,
        expr: u32,
        name: Name,
        by_name: bool,
        m: MethodData,
    ) -> InferCtx {
        let s = if site.static_context && by_name && !m.is_static {
            self.told(TypeError::NonStaticMethodFromStaticContext { expr, name })
        } else {
            self
        };
        let s1 = if by_name && !m.is_static {
            s.early_checked(expr, EarlyReference::Member(name))
        } else {
            s
        };
        s1.throwing(db, m.throws, expr)
    }

    fn check_invoked<D: TyDatabase>(
        &mut self,
        db: &D,
        site: &Site,
        expr: u32,
        name: Name,
        by_name: bool,
        m: &MethodData,
    )
        ensures
            *final(self) == old(self).invoked(db, *site, expr, name, by_name, *m),
            final(self).frame() == old(self).frame(),
            final(self).exited == old(self).exited,
    {
        proof {
            reveal(InferCtx::invoked);
        }
        if site.static_context && by_name && !m.is_static {
            self.report(TypeError::NonStaticMethodFromStaticContext { expr, name });
        }
        if by_name && !m.is_static {
            self.check_early(expr, EarlyReference::Member(name));
        }
        self.add_thrown(db, &m.throws, expr);
    }

    /// What is recorded where no method was chosen: the methods that may have
    /// been meant.
    #[verifier::opaque]
    pub open spec fn unresolved(
        self,
        expr: u32,
        r: CallResolution,
        members: List<MethodData>,
    ) -> InferCtx {
        if meant(r, members) is Nil {
            self
        } else {
            self.means(expr, ResolvedMember::Unresolved(meant(r, members)))
        }
    }

    fn record_unresolved(&mut self, expr: u32, r: CallResolution, members: List<MethodData>)
        ensures
            *final(self) == old(self).unresolved(expr, r, members),
            final(self).frame() == old(self).frame(),
            final(self).exited == old(self).exited,
    {
        proof {
            reveal(InferCtx::unresolved);
        }
        let named = match r {
            CallResolution::Ambiguous(l) => l,
            _ => members,
        };
        if !named.is_empty() {
            self.record_member(expr, ResolvedMember::Unresolved(named));
        }
    }

    /// The reports where no method was chosen. A receiver that is not inferred
    /// yet defers them.
    #[verifier::opaque]
    pub open spec fn call_failed<D: TyDatabase>(
        self,
        db: &D,
        expr: u32,
        name: Name,
        receiver: Ty,
        access: InvocationContext,
        members: List<MethodData>,
        args: List<Expr>,
        types: List<ArgType>,
        r: CallResolution,
    ) -> InferCtx {
        if receiver.has_infer_var() {
            self
        } else {
            let s = if members is Nil {
                if receiver is Error {
                    self
                } else {
                    let s = self.after_illegal_method(db, expr, receiver, name, access);
                    if db.hidden_members(receiver, name, access) is Nil {
                        s.told(TypeError::NoSuchMethod { expr, name })
                    } else {
                        s
                    }
                }
            } else {
                self.after_wrong_arity(db, expr, name, None, members, args, types)
            };
            s.unresolved(expr, r, members)
        }
    }

    fn report_call_failed<D: TyDatabase>(
        &mut self,
        db: &D,
        expr: u32,
        name: Name,
        receiver: &Ty,
        access: &InvocationContext,
        members: List<MethodData>,
        args: &List<Expr>,
        types: &List<ArgType>,
        r: CallResolution,
    )
        ensures
            *final(self) == old(self).call_failed(
                db,
                expr,
                name,
                *receiver,
                *access,
                members,
                *args,
                *types,
                r,
            ),
            final(self).frame() == old(self).frame(),
            final(self).exited == old(self).exited,
    {
        proof {
            reveal(InferCtx::call_failed);
        }
        if receiver.contains_infer_var() {
            return;
        }
        if members.is_empty() {
            if !receiver.is_error() {
                if !self.report_illegal_method_access(db, expr, receiver, name, access) {
                    self.report(TypeError::NoSuchMethod { expr, name });
                }
            }
        } else {
            self.report_wrong_arity(db, expr, name, None, &members, args, types);
        }
        self.record_unresolved(expr, r, members);
    }

    /// An invocation.
    pub open spec fn call_expr<D: TyDatabase>(self, db: &D, site: Site, e: Expr) -> (InferCtx, Ty)
        decreases e, 18nat, List::<MethodData>::Nil,
    {
        match e.kind {
            ExprKind::MethodCall { receiver: _, name, type_args, args } => {
                let explicit = explicit_types(db, site, type_args);
                let (s, (receiver, mode, by_name)) = self.receiver(db, site, e);
                let access = in_mode(site.access, mode);
                let (s1, types) = s.arg_types(db, site, *args, true);
                let members = db.members(receiver, name, access);
                let (s2, r) = s1.resolved_call(
                    db,
                    site,
                    members,
                    *args,
                    types,
                    self.target,
                    explicit,
                );
                match r {
                    CallResolution::Selected { candidate, invocation, varargs } => {
                        let s3 = s2.selected(
                            db,
                            e.id,
                            name,
                            mode,
                            candidate,
                            invocation,
                            types,
                        );
                        let s4 = s3.against_formals(
                            db,
                            site,
                            *args,
                            deferred_formals(invocation.params, varargs),
                        );
                        (
                            s4.invoked(db, site, e.id, name, by_name, invocation),
                            invocation.ret,
                        )
                    },
                    _ => (
                        s2.poly_alone(db, site, *args).call_failed(
                            db,
                            e.id,
                            name,
                            receiver,
                            access,
                            members,
                            *args,
                            types,
                            r,
                        ),
                        Ty::Error,
                    ),
                }
            },
            _ => (self, Ty::Error),
        }
    }

    /// An invocation.
    pub fn method_call<D: TyDatabase>(&mut self, db: &D, site: &Site, e: &Expr) -> (r: Ty)
        ensures
            (*final(self), r) == old(self).call_expr(db, *site, *e),
            final(self).frame() == old(self).frame(),
            final(self).exited == old(self).exited,
        decreases e, 18nat, List::<MethodData>::Nil,
    {
        match &e.kind {
            ExprKind::MethodCall { receiver: _, name, type_args, args } => {
                let target = self.target.copy();
                let explicit = explicit_type_args(db, site, type_args);
                let (receiver, mode, by_name) = self.receiver_info(db, site, e);
                let access = site.access.with_mode(mode);
                let types = self.arg_kinds(db, site, args, true);
                let members = db.member_set(&receiver, *name, &access);
                match self.resolve_call(db, site, &members, args, &types, target, explicit) {
                    CallResolution::Selected { candidate, invocation, varargs } => {
                        self.record_selected(
                            db,
                            e.id,
                            *name,
                            mode,
                            candidate,
                            &invocation,
                            &types,
                        );
                        let formals = find_deferred_formals(&invocation.params, varargs);
                        self.reinfer_deferred(db, site, args, &formals);
                        self.check_invoked(db, site, e.id, *name, by_name, &invocation);
                        invocation.ret
                    },
                    r => {
                        self.reinfer_poly_standalone(db, site, args);
                        self.report_call_failed(
                            db,
                            e.id,
                            *name,
                            &receiver,
                            &access,
                            members,
                            args,
                            &types,
                            r,
                        );
                        Ty::Error
                    },
                }
            },
            _ => Ty::Error,
        }
    }

    /// What a call of another constructor of the class leaves assigned.
    #[verifier::opaque]
    pub open spec fn delegated<D: TyDatabase>(
        self,
        db: &D,
        target: CtorCallTarget,
        m: MethodData,
    ) -> InferCtx {
        let touched = match m.owner_file {
            None => None,
            Some(file) => match method_item(db, file, m) {
                None => None,
                Some(item) => db.touched_by(file, item),
            },
        };
        match touched {
            Some(l) => if target == CtorCallTarget::This {
                InferCtx { flow: self.flow.touch_all(l), ..self }
            } else {
                self
            },
            None => self,
        }
    }

    fn delegate<D: TyDatabase>(&mut self, db: &D, target: CtorCallTarget, m: &MethodData)
        ensures
            *final(self) == old(self).delegated(db, target, *m),
            final(self).frame() == old(self).frame(),
            final(self).exited == old(self).exited,
    {
        proof {
            reveal(InferCtx::frame);
            reveal(InferCtx::delegated);
        }
        if target == CtorCallTarget::This {
            if let Some(file) = m.owner_file {
                if let Some(item) = find_method_item(db, file, m) {
                    if let Some(l) = db.field_touched(file, item) {
                        self.flow = self.flow.touch_fields(&l);
                    }
                }
            }
        }
    }

    /// The reports where no constructor was chosen.
    #[verifier::opaque]
    pub open spec fn ctor_failed<D: TyDatabase>(
        self,
        db: &D,
        expr: u32,
        name: Name,
        owner: Name,
        members: List<MethodData>,
        args: List<Expr>,
        types: List<ArgType>,
        r: CallResolution,
    ) -> InferCtx {
        let s = if members is Nil {
            self.told(TypeError::NoSuchConstructor { expr, name })
        } else {
            self.after_wrong_arity(db, expr, name, Some(owner), members, args, types)
        };
        s.unresolved(expr, r, members)
    }

    fn report_ctor_failed<D: TyDatabase>(
        &mut self,
        db: &D,
        expr: u32,
        name: Name,
        owner: Name,
        members: List<MethodData>,
        args: &List<Expr>,
        types: &List<ArgType>,
        r: CallResolution,
    )
        ensures
            *final(self) == old(self).ctor_failed(
                db,
                expr,
                name,
                owner,
                members,
                *args,
                *types,
                r,
            ),
            final(self).frame() == old(self).frame(),
            final(self).exited == old(self).exited,
    {
        proof {
            reveal(InferCtx::ctor_failed);
        }
        if members.is_empty() {
            self.report(TypeError::NoSuchConstructor { expr, name });
        } else {
            self.report_wrong_arity(db, expr, name, Some(owner), &members, args, types);
        }
        self.record_unresolved(expr, r, members);
    }

    /// An explicit constructor call: of another constructor of the class, or of
    /// one of the superclass. Afterwards the object may be used.
    pub open spec fn ctor_expr<D: TyDatabase>(self, db: &D, site: Site, e: Expr) -> (InferCtx, Ty)
        decreases e, 18nat, List::<MethodData>::Nil,
    {
        match e.kind {
            ExprKind::CtorCall { args, target } => match ctor_class(db, site, target) {
                None => (self.each(db, site, *args), Ty::Error),
                Some((class, name)) => {
                    let mode = ctor_mode(target);
                    let ctor = delegate_name(db, name);
                    let members = db.members(class, ctor, in_mode(site.access, mode));
                    let (s, types) = self.arg_types(db, site, *args, false);
                    let (s1, r) = s.resolved_call(db, site, members, *args, types, None, None);
                    let s2 = match r {
                        CallResolution::Selected { candidate, invocation, varargs } => s1.means(
                            e.id,
                            ResolvedMember::Method(candidate),
                        ).told_all(db.api_reports(e.id, invocation)).against_formals(
                            db,
                            site,
                            *args,
                            deferred_formals(invocation.params, varargs),
                        ).throwing(db, invocation.throws, e.id).delegated(
                            db,
                            target,
                            invocation,
                        ),
                        _ => s1.poly_alone(db, site, *args).ctor_failed(
                            db,
                            e.id,
                            ctor,
                            unqualified_of(db.table(), name),
                            members,
                            *args,
                            types,
                            r,
                        ),
                    };
                    (
                        InferCtx { before_super: false, ..s2 },
                        Ty::Primitive(PrimitiveType::Void),
                    )
                },
            },
            _ => (self, Ty::Error),
        }
    }

    /// An explicit constructor call.
    pub fn ctor_call<D: TyDatabase>(&mut self, db: &D, site: &Site, e: &Expr) -> (r: Ty)
        ensures
            (*final(self), r) == old(self).ctor_expr(db, *site, *e),
            final(self).frame() == old(self).frame(),
            final(self).exited == old(self).exited,
        decreases e, 18nat, List::<MethodData>::Nil,
    {
        proof {
            reveal(InferCtx::frame);
        }
        match &e.kind {
            ExprKind::CtorCall { args, target } => {
                let (class, name) = match find_ctor_class(db, site, *target) {
                    Some(found) => found,
                    None => {
                        self.infer_each(db, site, args);
                        return Ty::Error;
                    },
                };
                let access = match target {
                    CtorCallTarget::This => site.access.with_mode(InvocationMode::Virtual),
                    CtorCallTarget::Super => site.access.with_mode(InvocationMode::Super),
                };
                let ctor = find_delegate_name(db, name);
                let members = db.member_set(&class, ctor, &access);
                let types = self.arg_kinds(db, site, args, false);
                match self.resolve_call(db, site, &members, args, &types, None, None) {
                    CallResolution::Selected { candidate, invocation, varargs } => {
                        self.record_member(e.id, ResolvedMember::Method(candidate));
                        self.report_all(db.check_api(e.id, &invocation));
                        let formals = find_deferred_formals(&invocation.params, varargs);
                        self.reinfer_deferred(db, site, args, &formals);
                        self.add_thrown(db, &invocation.throws, e.id);
                        self.delegate(db, *target, &invocation);
                    },
                    r => {
                        self.reinfer_poly_standalone(db, site, args);
                        self.report_ctor_failed(
                            db,
                            e.id,
                            ctor,
                            find_unqualified(db.names(), name),
                            members,
                            args,
                            &types,
                            r,
                        );
                    },
                }
                self.before_super = false;
                Ty::Primitive(PrimitiveType::Void)
            },
            _ => Ty::Error,
        }
    }
}

/// The class whose constructor is called, and its name.
pub open spec fn ctor_class<D: TyDatabase>(db: &D, site: Site, target: CtorCallTarget) -> Option<
    (Ty, Name),
> {
    let class = match target {
        CtorCallTarget::This => match site.enclosing_class {
            Some(c) => c,
            None => Ty::Error,
        },
        CtorCallTarget::Super => superclass(db, site),
    };
    match class {
        Ty::Reference { name, args: _, local: _ } => Some((class, name)),
        _ => None,
    }
}

fn find_ctor_class<D: TyDatabase>(db: &D, site: &Site, target: CtorCallTarget) -> (r: Option<
    (Ty, Name),
>)
    ensures
        r == ctor_class(db, *site, target),
{
    let class = match target {
        CtorCallTarget::This => match &site.enclosing_class {
            Some(c) => c.copy(),
            None => Ty::Error,
        },
        CtorCallTarget::Super => super_ty(db, site),
    };
    match receiver_fqn(&class) {
        Some(name) => Some((class, name)),
        None => None,
    }
}

/// The form of an explicit constructor call.
pub open spec fn ctor_mode(target: CtorCallTarget) -> InvocationMode {
    match target {
        CtorCallTarget::This => InvocationMode::Virtual,
        CtorCallTarget::Super => InvocationMode::Super,
    }
}

} // verus!
