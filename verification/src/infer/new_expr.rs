//! Creations of objects.
use crate::body::{Expr, ExprKind};
use crate::class_key::{find_simple, simple_of};
use crate::db::TyDatabase;
use crate::infer::candidate::CallResolution;
use crate::infer::creation::{
    diamond_instantiation, find_source, instantiated, is_left_open, is_wildcard_written, left_open,
    not_instantiable, source_of, wildcard_written,
};
use crate::infer::ctx::{InferCtx, Site};
use crate::infer::diag::TypeError;
use crate::infer::lookup::{class_name, constructor_name, ctor_name, receiver_fqn};
use crate::infer::overload::{deferred_formals, find_deferred_formals};
use crate::infer::poly::ArgType;
use crate::items::TypeRef;
use crate::list::{Data, List};
use crate::member::{ClassKey, InvocationContext, MethodData};
use crate::names::Name;
use crate::ty::Ty;
use crate::walk::DiagLocation;
use vstd::prelude::*;

verus! {

/// The written type of a creation: as a member class of the type of the
/// receiver, where it is one.
pub open spec fn created_type<D: TyDatabase>(db: &D, ty: TypeRef, receiver: Option<Ty>) -> TypeRef {
    match receiver {
        None => ty,
        Some(r) => match db.member_type(r, ty.shape) {
            Some(shape) => TypeRef { shape, refs: ty.refs },
            None => ty,
        },
    }
}

fn find_created_type<D: TyDatabase>(db: &D, ty: &TypeRef, receiver: &Option<Ty>) -> (r: TypeRef)
    ensures
        r == created_type(db, *ty, *receiver),
{
    match receiver {
        None => ty.copy(),
        Some(r) => match db.qualify_member_type_of(r, &ty.shape) {
            Some(shape) => TypeRef { shape, refs: ty.refs.copy() },
            None => ty.copy(),
        },
    }
}

/// The place of the constructor invocation of a creation: a class body makes it
/// one of a subclass.
pub open spec fn creation_access(site: Site, anonymous: bool, name: Name) -> InvocationContext {
    if anonymous {
        InvocationContext { subclass_of: Some(ClassKey::Named(name)), ..site.access }
    } else {
        site.access
    }
}

fn find_creation_access(site: &Site, anonymous: bool, name: Name) -> (r: InvocationContext)
    ensures
        r == creation_access(*site, anonymous, name),
{
    InvocationContext {
        enclosing_class: site.access.enclosing_class,
        package: site.access.package,
        subclass_of: if anonymous {
            Some(ClassKey::Named(name))
        } else {
            site.access.subclass_of
        },
        mode: site.access.mode,
    }
}

impl InferCtx {
    /// The reports where no constructor was chosen for a creation. A compiled
    /// class without constructors is not known well enough.
    #[verifier::opaque]
    pub open spec fn creation_failed<D: TyDatabase>(
        self,
        db: &D,
        expr: u32,
        class: Ty,
        ctor: Name,
        members: List<MethodData>,
        args: List<Expr>,
        types: List<ArgType>,
    ) -> InferCtx {
        match class_name(class) {
            None => self,
            Some(name) => if members is Nil {
                if source_of(db, name) is Some {
                    self.told(TypeError::NoSuchConstructor { expr, name: ctor })
                } else {
                    self
                }
            } else {
                self.after_wrong_arity(
                    db,
                    expr,
                    ctor,
                    Some(simple_of(db.table(), name)),
                    members,
                    args,
                    types,
                )
            },
        }
    }

    fn report_creation_failed<D: TyDatabase>(
        &mut self,
        db: &D,
        expr: u32,
        class: &Ty,
        ctor: Name,
        members: &List<MethodData>,
        args: &List<Expr>,
        types: &List<ArgType>,
    )
        ensures
            *final(self) == old(self).creation_failed(
                db,
                expr,
                *class,
                ctor,
                *members,
                *args,
                *types,
            ),
            final(self).frame() == old(self).frame(),
            final(self).exited == old(self).exited,
    {
        proof {
            reveal(InferCtx::creation_failed);
        }
        if let Some(name) = receiver_fqn(class) {
            if members.is_empty() {
                if find_source(db, name).is_some() {
                    self.report(TypeError::NoSuchConstructor { expr, name: ctor });
                }
            } else {
                self.report_wrong_arity(
                    db,
                    expr,
                    ctor,
                    Some(find_simple(db.names(), name)),
                    members,
                    args,
                    types,
                );
            }
        }
    }

    /// The creation of an object.
    pub open spec fn new_object<D: TyDatabase>(self, db: &D, site: Site, e: Expr) -> (InferCtx, Ty)
        decreases e, 18nat, List::<MethodData>::Nil,
    {
        match e.kind {
            ExprKind::New { ty, args: _, diamond: _, anonymous, receiver } => {
                let (s, outer) = match receiver {
                    Some(r) => {
                        let (s, t) = self.expr_to(db, site, *r, None);
                        (s, Some(t))
                    },
                    None => (self, None),
                };
                let written = created_type(db, ty, outer);
                let class = db.resolved_type(site.file, site.item, written.shape);
                if wildcard_written(written.shape) {
                    (
                        s.typed(e.id, Ty::Error).told(
                            TypeError::CannotInstantiateWildcard { expr: e.id, ty: class },
                        ),
                        Ty::Error,
                    )
                } else {
                    let s1 = s.bounds_checked(db, site, DiagLocation::Expr(e.id), written);
                    let s2 = if anonymous {
                        s1
                    } else {
                        s1.creation_checked(db, e.id, class)
                    };
                    match class_name(class) {
                        None => (s2, class),
                        Some(name) => s2.construction(
                            db,
                            site,
                            e,
                            class,
                            ctor_name(db, name),
                            !anonymous && !not_instantiable(db, class),
                        ),
                    }
                }
            },
            _ => (self, Ty::Error),
        }
    }

    /// The creation of an object.
    pub fn new_expr<D: TyDatabase>(&mut self, db: &D, site: &Site, e: &Expr) -> (r: Ty)
        ensures
            (*final(self), r) == old(self).new_object(db, *site, *e),
            final(self).frame() == old(self).frame(),
            final(self).exited == old(self).exited,
        decreases e, 18nat, List::<MethodData>::Nil,
    {
        match &e.kind {
            ExprKind::New { ty, args: _, diamond: _, anonymous, receiver } => {
                let outer = match receiver {
                    Some(r) => {
                        let t = self.infer_against(db, site, r, None);
                        Some(t)
                    },
                    None => None,
                };
                let written = find_created_type(db, ty, &outer);
                let class = db.resolve_type_ref(site.file, site.item, &written.shape);
                if is_wildcard_written(&written.shape) {
                    self.record_type(e.id, Ty::Error);
                    self.report(TypeError::CannotInstantiateWildcard { expr: e.id, ty: class });
                    return Ty::Error;
                }
                self.check_type_argument_bounds(db, site, DiagLocation::Expr(e.id), &written);
                let mut reports = !*anonymous;
                if !*anonymous {
                    reports = !self.check_instantiable(db, e.id, &class);
                }
                match receiver_fqn(&class) {
                    None => class,
                    Some(name) => {
                        let ctor = constructor_name(db, name);
                        self.construct(db, site, e, class, ctor, reports)
                    },
                }
            },
            _ => Ty::Error,
        }
    }

    /// The type arguments and the constructor of a creation. `reports` says
    /// whether a missing constructor is reported: a type that cannot be created
    /// has a report of its own, and so has a class body.
    pub open spec fn construction<D: TyDatabase>(
        self,
        db: &D,
        site: Site,
        e: Expr,
        class: Ty,
        ctor: Name,
        reports: bool,
    ) -> (InferCtx, Ty)
        decreases e, 17nat, List::<MethodData>::Nil,
    {
        match e.kind {
            ExprKind::New { ty: _, args, diamond, anonymous, receiver: _ } => {
                let (s, types) = self.arg_types(db, site, *args, false);
                let (s1, created) = if diamond {
                    let from_target = instantiated(db, site, class, s.target);
                    if left_open(from_target) {
                        s.diamond_from_args(db, site, from_target, ctor, *args, types)
                    } else {
                        (s, from_target)
                    }
                } else {
                    (s, class)
                };
                match class_name(created) {
                    None => (s1, created),
                    Some(name) => {
                        let access = creation_access(site, anonymous, name);
                        let members = db.members(created, ctor, access);
                        let (s2, r) = s1.resolved_call(
                            db,
                            site,
                            members,
                            *args,
                            types,
                            None,
                            None,
                        );
                        match r {
                            CallResolution::Selected { candidate: _, invocation, varargs } => (
                                s2.against_formals(
                                    db,
                                    site,
                                    *args,
                                    deferred_formals(invocation.params, varargs),
                                ).throwing(db, invocation.throws, e.id),
                                created,
                            ),
                            _ => {
                                let s3 = s2.each(db, site, *args);
                                (
                                    if reports {
                                        s3.creation_failed(
                                            db,
                                            e.id,
                                            created,
                                            ctor,
                                            members,
                                            *args,
                                            types,
                                        )
                                    } else {
                                        s3
                                    },
                                    created,
                                )
                            },
                        }
                    },
                }
            },
            _ => (self, Ty::Error),
        }
    }

    fn construct<D: TyDatabase>(
        &mut self,
        db: &D,
        site: &Site,
        e: &Expr,
        class: Ty,
        ctor: Name,
        reports: bool,
    ) -> (r: Ty)
        ensures
            (*final(self), r) == old(self).construction(db, *site, *e, class, ctor, reports),
            final(self).frame() == old(self).frame(),
            final(self).exited == old(self).exited,
        decreases e, 17nat, List::<MethodData>::Nil,
    {
        match &e.kind {
            ExprKind::New { ty: _, args, diamond, anonymous, receiver: _ } => {
                let types = self.arg_kinds(db, site, args, false);
                let created = if *diamond {
                    let from_target = diamond_instantiation(db, site, &class, &self.target);
                    if is_left_open(&from_target) {
                        self.diamond_instantiation_from_ctor_args(
                            db,
                            site,
                            from_target,
                            ctor,
                            args,
                            &types,
                        )
                    } else {
                        from_target
                    }
                } else {
                    class
                };
                let name = match receiver_fqn(&created) {
                    Some(name) => name,
                    None => {
                        return created;
                    },
                };
                let access = find_creation_access(site, *anonymous, name);
                let members = db.member_set(&created, ctor, &access);
                match self.resolve_call(db, site, &members, args, &types, None, None) {
                    CallResolution::Selected { candidate: _, invocation, varargs } => {
                        let formals = find_deferred_formals(&invocation.params, varargs);
                        self.reinfer_deferred(db, site, args, &formals);
                        self.add_thrown(db, &invocation.throws, e.id);
                    },
                    _ => {
                        self.infer_each(db, site, args);
                        if reports {
                            self.report_creation_failed(
                                db,
                                e.id,
                                &created,
                                ctor,
                                &members,
                                args,
                                &types,
                            );
                        }
                    },
                }
                created
            },
            _ => Ty::Error,
        }
    }
}

} // verus!
