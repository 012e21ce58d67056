//! The steps of typing an expression that look at no other expression.
use crate::body::{BinaryOp, Expr, ExprKind, Literal, UnaryOp};
use crate::db::{FieldLookup, TyDatabase};
use crate::infer::creation::{find_source, source_of};
use crate::infer::ctx::{
    boolean_type, is_boolean, is_numeric_operand, is_string, numeric_type, string_type, InferCtx,
    Site,
};
use crate::infer::diag::{EarlyReference, NonStaticThisKind, Operator, TypeError};
use crate::infer::field::{chain_field, levels, pick_field, picked_field};
use crate::infer::local::{find_local, find_param, found_local, found_param};
use crate::infer::lookup::{
    class_name, compiled_enum, first_class, imported_field, in_mode, member_class, receiver_fqn,
    receiver_has_nested_type, receiver_is_library_enum, resolve_type_name_checked,
    static_import_field, super_ty, superclass,
};
use crate::infer::operator::{
    binary_numeric_promotion, binary_promoted, cast_allowed, castable, choice, comparable,
    comparable_types, conditional_type, unary_promoted, unary_promotion,
};
use crate::infer::switch::{constant_narrowable, narrowable, selectable, switchable};
use crate::items::TypeRef;
use crate::list::{assoc_get, get_assoc, Data, List};
use crate::member::InvocationMode;
use crate::names::Name;
use crate::ty::{boxed, class_of, PrimitiveType, Ty};
use vstd::prelude::*;

verus! {

/// The type of a literal.
pub open spec fn literal_type(l: Literal) -> Ty {
    match l {
        Literal::Int(_) => Ty::Primitive(PrimitiveType::Int),
        Literal::Long(_) => Ty::Primitive(PrimitiveType::Long),
        Literal::Char(_) => Ty::Primitive(PrimitiveType::Char),
        Literal::Float => Ty::Primitive(PrimitiveType::Float),
        Literal::Double => Ty::Primitive(PrimitiveType::Double),
        Literal::Boolean(_) => Ty::Primitive(PrimitiveType::Boolean),
        Literal::Str(_) => class_of(Name::String),
    }
}

/// The type of a literal.
pub fn literal_ty(l: &Literal) -> (r: Ty)
    ensures
        r == literal_type(*l),
{
    match l {
        Literal::Int(_) => Ty::Primitive(PrimitiveType::Int),
        Literal::Long(_) => Ty::Primitive(PrimitiveType::Long),
        Literal::Char(_) => Ty::Primitive(PrimitiveType::Char),
        Literal::Float => Ty::Primitive(PrimitiveType::Float),
        Literal::Double => Ty::Primitive(PrimitiveType::Double),
        Literal::Boolean(_) => Ty::Primitive(PrimitiveType::Boolean),
        Literal::Str(_) => Ty::class(Name::String),
    }
}

/// The type of a class literal: `Class` of the type, a primitive one boxed.
pub open spec fn class_literal(t: Ty) -> Ty {
    Ty::Reference {
        name: Name::Class,
        args: Box::new(List::Cons(Box::new(boxed(t)), Box::new(List::Nil))),
        local: None,
    }
}

pub fn class_literal_ty(t: &Ty) -> (r: Ty)
    ensures
        r == class_literal(*t),
{
    Ty::reference(Name::Class, List::cons(t.box_primitive(), List::Nil))
}

/// A name alone.
pub open spec fn one_name(name: Name) -> List<Name> {
    List::Cons(Box::new(name), Box::new(List::Nil))
}

/// The last of the names.
pub open spec fn last_name(l: List<Name>) -> Option<Name>
    decreases l,
{
    match l {
        List::Nil => None,
        List::Cons(h, t) => match last_name(*t) {
            Some(n) => Some(n),
            None => Some(*h),
        },
    }
}

/// The names before the last.
pub open spec fn before_last(l: List<Name>) -> List<Name>
    decreases l,
{
    match l {
        List::Nil => List::Nil,
        List::Cons(h, t) => if *t is Nil {
            List::Nil
        } else {
            List::Cons(h, Box::new(before_last(*t)))
        },
    }
}

fn find_last_name(l: &List<Name>) -> (r: Option<Name>)
    ensures
        r == last_name(*l),
    decreases l,
{
    match l {
        List::Nil => None,
        List::Cons(h, t) => match find_last_name(t) {
            Some(n) => Some(n),
            None => Some(**h),
        },
    }
}

fn find_before_last(l: &List<Name>) -> (r: List<Name>)
    ensures
        r == before_last(*l),
    decreases l,
{
    match l {
        List::Nil => List::Nil,
        List::Cons(h, t) => if t.is_empty() {
            List::Nil
        } else {
            List::cons(**h, find_before_last(t))
        },
    }
}

/// The entries without one.
pub open spec fn without_key(l: List<(u32, List<Ty>)>, id: u32) -> List<(u32, List<Ty>)>
    decreases l,
{
    match l {
        List::Nil => List::Nil,
        List::Cons(h, t) => if h.0 == id {
            without_key(*t, id)
        } else {
            List::Cons(h, Box::new(without_key(*t, id)))
        },
    }
}

pub fn drop_key(l: List<(u32, List<Ty>)>, id: u32) -> (r: List<(u32, List<Ty>)>)
    ensures
        r == without_key(l, id),
    decreases l,
{
    match l {
        List::Nil => List::Nil,
        List::Cons(h, t) => if h.0 == id {
            drop_key(*t, id)
        } else {
            List::Cons(h, Box::new(drop_key(*t, id)))
        },
    }
}

/// The type of a choice among all of the types, the first two first.
pub open spec fn choice_of_all<D: TyDatabase>(db: &D, first: Ty, rest: List<Ty>) -> Ty
    decreases rest,
{
    match rest {
        List::Nil => first,
        List::Cons(h, t) => choice_of_all(db, choice(db, first, *h), *t),
    }
}

/// The type of a choice among the types; none has none.
pub open spec fn choice_of<D: TyDatabase>(db: &D, l: List<Ty>) -> Ty {
    match l {
        List::Nil => Ty::Error,
        List::Cons(h, t) => choice_of_all(db, *h, *t),
    }
}

fn choose_type_of_all<D: TyDatabase>(db: &D, first: Ty, rest: &List<Ty>) -> (r: Ty)
    ensures
        r == choice_of_all(db, first, *rest),
    decreases rest,
{
    match rest {
        List::Nil => first,
        List::Cons(h, t) => choose_type_of_all(db, conditional_type(db, &first, h), t),
    }
}

pub fn choose_type_of<D: TyDatabase>(db: &D, l: &List<Ty>) -> (r: Ty)
    ensures
        r == choice_of(db, *l),
{
    match l {
        List::Nil => Ty::Error,
        List::Cons(h, t) => choose_type_of_all(db, h.copy(), t),
    }
}

/// An array of a type with so many dimensions as there are elements.
pub open spec fn array_of<T>(t: Ty, dims: List<T>) -> Ty
    decreases dims,
{
    match dims {
        List::Nil => t,
        List::Cons(_, rest) => array_of(Ty::Array(Box::new(t)), *rest),
    }
}

pub fn nest_array<T>(t: Ty, dims: &List<T>) -> (r: Ty)
    ensures
        r == array_of(t, *dims),
    decreases dims,
{
    match dims {
        List::Nil => t,
        List::Cons(_, rest) => nest_array(Ty::array(t), rest),
    }
}

/// Whether an array of a type cannot be created: a type variable, or a type
/// with arguments.
pub open spec fn not_creatable(t: Ty) -> bool {
    match t {
        Ty::TypeVar { scope: _, bounds: _, lower: _ } => true,
        Ty::Reference { name: _, args, local: _ } => !(*args is Nil),
        _ => false,
    }
}

fn is_not_creatable(t: &Ty) -> (r: bool)
    ensures
        r == not_creatable(*t),
{
    match t {
        Ty::TypeVar { scope: _, bounds: _, lower: _ } => true,
        Ty::Reference { name: _, args, local: _ } => !args.is_empty(),
        _ => false,
    }
}

/// The operand of the two that a report blames: the first unless it is fine.
pub open spec fn blamed(first_fine: bool, a: (u32, Ty), b: (u32, Ty)) -> ((u32, Ty), Ty) {
    if first_fine {
        (b, a.1)
    } else {
        (a, b.1)
    }
}

impl InferCtx {
    /// The reports on `this`, and its type.
    #[verifier::opaque]
    pub open spec fn this_type<D: TyDatabase>(
        self,
        db: &D,
        site: Site,
        expr: u32,
        qualifier: Option<TypeRef>,
    ) -> (InferCtx, Ty) {
        let s1 = if site.static_context {
            self.told(
                TypeError::NonStaticThisFromStaticContext {
                    expr,
                    keyword: NonStaticThisKind::This,
                },
            )
        } else {
            self
        };
        let s2 = if s1.before_super {
            s1.told(TypeError::CannotReferenceBeforeSuper { expr, name: EarlyReference::This })
        } else {
            s1
        };
        let ty = match qualifier {
            Some(t) => db.resolved_type(site.file, site.item, t.shape),
            None => match site.enclosing_class {
                Some(c) => c,
                None => Ty::Error,
            },
        };
        (s2, ty)
    }

    /// The reports on `this`, and its type.
    pub fn this_expr<D: TyDatabase>(
        &mut self,
        db: &D,
        site: &Site,
        expr: u32,
        qualifier: &Option<TypeRef>,
    ) -> (r: Ty)
        ensures
            (*final(self), r) == old(self).this_type(db, *site, expr, *qualifier),
            final(self).frame() == old(self).frame(),
            final(self).exited == old(self).exited,
    {
        proof {
            reveal(InferCtx::this_type);
        }
        if site.static_context {
            self.report(
                TypeError::NonStaticThisFromStaticContext {
                    expr,
                    keyword: NonStaticThisKind::This,
                },
            );
        }
        if self.before_super {
            self.report(
                TypeError::CannotReferenceBeforeSuper { expr, name: EarlyReference::This },
            );
        }
        match qualifier {
            Some(t) => db.resolve_type_ref(site.file, site.item, &t.shape),
            None => match &site.enclosing_class {
                Some(c) => c.copy(),
                None => Ty::Error,
            },
        }
    }

    /// A report on `super` without an instance.
    #[verifier::opaque]
    pub open spec fn super_checked(self, site: Site, expr: u32) -> InferCtx {
        if site.static_context {
            self.told(
                TypeError::NonStaticThisFromStaticContext {
                    expr,
                    keyword: NonStaticThisKind::Super,
                },
            )
        } else {
            self
        }
    }

    /// A report on `super` without an instance.
    pub fn check_super(&mut self, site: &Site, expr: u32)
        ensures
            *final(self) == old(self).super_checked(*site, expr),
            final(self).frame() == old(self).frame(),
            final(self).exited == old(self).exited,
    {
        proof {
            reveal(InferCtx::super_checked);
        }
        if site.static_context {
            self.report(
                TypeError::NonStaticThisFromStaticContext {
                    expr,
                    keyword: NonStaticThisKind::Super,
                },
            );
        }
    }

    /// A report on a name used before the constructor of the superclass ran.
    #[verifier::opaque]
    pub open spec fn early_checked(self, expr: u32, name: EarlyReference) -> InferCtx {
        if self.before_super {
            self.told(TypeError::CannotReferenceBeforeSuper { expr, name })
        } else {
            self
        }
    }

    /// A report on a name used before the constructor of the superclass ran.
    pub fn check_early(&mut self, expr: u32, name: EarlyReference)
        ensures
            *final(self) == old(self).early_checked(expr, name),
            final(self).frame() == old(self).frame(),
            final(self).exited == old(self).exited,
    {
        proof {
            reveal(InferCtx::early_checked);
        }
        if self.before_super {
            self.report(TypeError::CannotReferenceBeforeSuper { expr, name });
        }
    }

    /// A local variable named in an expression.
    #[verifier::opaque]
    pub open spec fn local_use(self, expr: u32, name: Name) -> (InferCtx, Ty) {
        match found_local(self.scopes, name) {
            None => (self, Ty::Error),
            Some(b) => {
                let s = if self.mutating && b.is_final && !self.blank_finals.has(b.id) {
                    self.told(TypeError::CannotAssignToFinalVariable { expr, name })
                } else {
                    self
                };
                if !s.exited && !s.writing && !s.flow.definite.has(b.id) {
                    (s.told(TypeError::NotDefinitelyAssigned { expr, name }), Ty::Error)
                } else {
                    (
                        s,
                        match assoc_get(s.locals, b.id) {
                            Some(t) => t,
                            None => Ty::Error,
                        },
                    )
                }
            },
        }
    }

    fn use_local(&mut self, expr: u32, name: Name) -> (r: Ty)
        ensures
            (*final(self), r) == old(self).local_use(expr, name),
            final(self).frame() == old(self).frame(),
            final(self).exited == old(self).exited,
    {
        proof {
            reveal(InferCtx::local_use);
        }
        match find_local(&self.scopes, name) {
            None => Ty::Error,
            Some(b) => {
                if self.mutating && b.is_final && !self.blank_finals.contains(&b.id) {
                    self.report(TypeError::CannotAssignToFinalVariable { expr, name });
                }
                if !self.exited && !self.writing && !self.flow.definite.contains(&b.id) {
                    self.report(TypeError::NotDefinitelyAssigned { expr, name });
                    return Ty::Error;
                }
                match get_assoc(&self.locals, &b.id) {
                    Some(t) => t,
                    None => Ty::Error,
                }
            },
        }
    }

    /// A field named in an expression by its simple name.
    #[verifier::opaque]
    pub open spec fn field_use<D: TyDatabase>(
        self,
        db: &D,
        site: Site,
        expr: u32,
        name: Name,
    ) -> (InferCtx, Ty) {
        let s = self.after_chain_field(db, site, name, expr);
        match chain_field(db, levels(site), name, site.access) {
            FieldLookup::Found(field) => if site.forward_names.has(name) {
                (s.told(TypeError::IllegalForwardReference { expr, name }), Ty::Error)
            } else {
                let s1 = if site.static_context && !field.is_static {
                    s.told(TypeError::NonStaticFieldFromStaticContext { expr, name })
                } else {
                    s
                };
                let s2 = if field.is_static {
                    s1
                } else {
                    s1.early_checked(expr, EarlyReference::Member(name))
                };
                (s2.after_final_write(db, site, field, true, expr, name), field.ty)
            },
            FieldLookup::Ambiguous => (s, Ty::Error),
            FieldLookup::Missing => (
                s.told(TypeError::CannotResolveName { expr, name: one_name(name) }),
                Ty::Error,
            ),
        }
    }

    fn use_field<D: TyDatabase>(&mut self, db: &D, site: &Site, expr: u32, name: Name) -> (r: Ty)
        ensures
            (*final(self), r) == old(self).field_use(db, *site, expr, name),
            final(self).frame() == old(self).frame(),
            final(self).exited == old(self).exited,
    {
        proof {
            reveal(InferCtx::field_use);
        }
        match self.pick_field_of_chain(db, site, name, expr) {
            FieldLookup::Found(field) => {
                if site.forward_names.contains(&name) {
                    self.report(TypeError::IllegalForwardReference { expr, name });
                    return Ty::Error;
                }
                if site.static_context && !field.is_static {
                    self.report(TypeError::NonStaticFieldFromStaticContext { expr, name });
                }
                if !field.is_static {
                    self.check_early(expr, EarlyReference::Member(name));
                }
                self.check_final_write(db, site, &field, true, expr, name);
                field.ty
            },
            FieldLookup::Ambiguous => Ty::Error,
            FieldLookup::Missing => {
                self.report(
                    TypeError::CannotResolveName { expr, name: List::cons(name, List::Nil) },
                );
                Ty::Error
            },
        }
    }

    /// What a simple name means: a parameter of a lambda around, a local
    /// variable, a statically imported field, or a field of a class around.
    #[verifier::opaque]
    pub open spec fn var_type<D: TyDatabase>(
        self,
        db: &D,
        site: Site,
        expr: u32,
        name: Name,
    ) -> (InferCtx, Ty) {
        match found_param(self.lambda_params, name) {
            Some(t) => (self, t),
            None => if found_local(self.scopes, name) is Some {
                self.local_use(expr, name)
            } else {
                match imported_field(db, site, db.static_imports(site.file, site.item, name)) {
                    Some(t) => (self, t),
                    None => self.field_use(db, site, expr, name),
                }
            },
        }
    }

    /// What a simple name means.
    pub fn var<D: TyDatabase>(&mut self, db: &D, site: &Site, expr: u32, name: Name) -> (r: Ty)
        ensures
            (*final(self), r) == old(self).var_type(db, *site, expr, name),
            final(self).frame() == old(self).frame(),
            final(self).exited == old(self).exited,
    {
        proof {
            reveal(InferCtx::var_type);
        }
        if let Some(t) = find_param(&self.lambda_params, name) {
            return t;
        }
        if find_local(&self.scopes, name).is_some() {
            return self.use_local(expr, name);
        }
        if let Some(t) = static_import_field(db, site, name) {
            return t;
        }
        self.use_field(db, site, expr, name)
    }

    /// What a simple name means that stands where a path can.
    #[verifier::opaque]
    pub open spec fn simple_path<D: TyDatabase>(
        self,
        db: &D,
        site: Site,
        expr: u32,
        name: Name,
    ) -> (InferCtx, Ty) {
        match imported_field(db, site, db.static_imports(site.file, site.item, name)) {
            Some(t) => (self, t),
            None => {
                let s = self.after_chain_field(db, site, name, expr);
                match chain_field(db, levels(site), name, site.access) {
                    FieldLookup::Found(field) => (
                        if site.static_context && !field.is_static {
                            s.told(TypeError::NonStaticFieldFromStaticContext { expr, name })
                        } else {
                            s
                        },
                        field.ty,
                    ),
                    FieldLookup::Ambiguous => (s, Ty::Error),
                    FieldLookup::Missing => (
                        s.told(TypeError::CannotResolveName { expr, name: one_name(name) }),
                        Ty::Error,
                    ),
                }
            },
        }
    }

    fn simple_name_path<D: TyDatabase>(
        &mut self,
        db: &D,
        site: &Site,
        expr: u32,
        name: Name,
    ) -> (r: Ty)
        ensures
            (*final(self), r) == old(self).simple_path(db, *site, expr, name),
            final(self).frame() == old(self).frame(),
            final(self).exited == old(self).exited,
    {
        proof {
            reveal(InferCtx::simple_path);
        }
        if let Some(t) = static_import_field(db, site, name) {
            return t;
        }
        match self.pick_field_of_chain(db, site, name, expr) {
            FieldLookup::Found(field) => {
                if site.static_context && !field.is_static {
                    self.report(TypeError::NonStaticFieldFromStaticContext { expr, name });
                }
                field.ty
            },
            FieldLookup::Ambiguous => Ty::Error,
            FieldLookup::Missing => {
                self.report(
                    TypeError::CannotResolveName { expr, name: List::cons(name, List::Nil) },
                );
                Ty::Error
            },
        }
    }

    /// What a dotted name means: a field of the class that the names before
    /// the last mean, or what a simple name means.
    #[verifier::opaque]
    pub open spec fn path_type<D: TyDatabase>(
        self,
        db: &D,
        site: Site,
        expr: u32,
        path: List<Name>,
    ) -> (InferCtx, Ty) {
        match last_name(path) {
            None => (self.told(TypeError::CannotResolveName { expr, name: path }), Ty::Error),
            Some(last) => if before_last(path) is Nil {
                self.simple_path(db, site, expr, last)
            } else {
                match first_class(db, db.candidates(site.file, site.item, before_last(path))) {
                    None => (
                        self.told(TypeError::CannotResolveName { expr, name: path }),
                        Ty::Error,
                    ),
                    Some(class) => match picked_field(db, class, last, site.access) {
                        Some(field) => (self, field.ty),
                        None => (
                            self.told(TypeError::NoSuchField { expr, name: last }),
                            Ty::Error,
                        ),
                    },
                }
            },
        }
    }

    /// What a dotted name means.
    pub fn name_path<D: TyDatabase>(
        &mut self,
        db: &D,
        site: &Site,
        expr: u32,
        path: &List<Name>,
    ) -> (r: Ty)
        ensures
            (*final(self), r) == old(self).path_type(db, *site, expr, *path),
            final(self).frame() == old(self).frame(),
            final(self).exited == old(self).exited,
    {
        proof {
            reveal(InferCtx::path_type);
        }
        let last = match find_last_name(path) {
            None => {
                self.report(TypeError::CannotResolveName { expr, name: path.copy() });
                return Ty::Error;
            },
            Some(last) => last,
        };
        let prefix = find_before_last(path);
        if prefix.is_empty() {
            return self.simple_name_path(db, site, expr, last);
        }
        match resolve_type_name_checked(db, site, &prefix) {
            None => {
                self.report(TypeError::CannotResolveName { expr, name: path.copy() });
                Ty::Error
            },
            Some(class) => match pick_field(db, &class, last, &site.access) {
                Some(field) => field.ty,
                None => {
                    self.report(TypeError::NoSuchField { expr, name: last });
                    Ty::Error
                },
            },
        }
    }

    /// A field of the superclass. A static one cannot be accessed so.
    #[verifier::opaque]
    pub open spec fn super_field<D: TyDatabase>(
        self,
        db: &D,
        site: Site,
        keyword: u32,
        expr: u32,
        name: Name,
    ) -> (InferCtx, Ty) {
        let s = self.super_checked(site, keyword).early_checked(expr, EarlyReference::Member(name));
        match picked_field(
            db,
            superclass(db, site),
            name,
            in_mode(site.access, InvocationMode::Super),
        ) {
            Some(field) => if field.is_static {
                (s.told(TypeError::NoSuchField { expr, name }), Ty::Error)
            } else {
                (s, field.ty)
            },
            None => (s.told(TypeError::NoSuchField { expr, name }), Ty::Error),
        }
    }

    /// A field of the superclass.
    pub fn super_field_access<D: TyDatabase>(
        &mut self,
        db: &D,
        site: &Site,
        keyword: u32,
        expr: u32,
        name: Name,
    ) -> (r: Ty)
        ensures
            (*final(self), r) == old(self).super_field(db, *site, keyword, expr, name),
            final(self).frame() == old(self).frame(),
            final(self).exited == old(self).exited,
    {
        proof {
            reveal(InferCtx::super_field);
        }
        self.check_super(site, keyword);
        self.check_early(expr, EarlyReference::Member(name));
        let receiver = super_ty(db, site);
        let access = site.access.with_mode(InvocationMode::Super);
        match pick_field(db, &receiver, name, &access) {
            Some(field) => {
                if field.is_static {
                    self.report(TypeError::NoSuchField { expr, name });
                    return Ty::Error;
                }
                field.ty
            },
            None => {
                self.report(TypeError::NoSuchField { expr, name });
                Ty::Error
            },
        }
    }

    /// A name after a class name that is no field of the class: a member class,
    /// or a mistake where the members of the class are all known.
    #[verifier::opaque]
    pub open spec fn class_member<D: TyDatabase>(
        self,
        db: &D,
        expr: u32,
        receiver: Ty,
        name: Name,
    ) -> (InferCtx, Ty) {
        let complete = compiled_enum(db, receiver) || match class_name(receiver) {
            Some(owner) => source_of(db, owner) is Some,
            None => false,
        };
        if !complete || member_class(db, receiver, name) {
            (self, receiver)
        } else {
            (self.told(TypeError::NoSuchField { expr, name }), Ty::Error)
        }
    }

    fn class_member_access<D: TyDatabase>(
        &mut self,
        db: &D,
        expr: u32,
        receiver: Ty,
        name: Name,
    ) -> (r: Ty)
        ensures
            (*final(self), r) == old(self).class_member(db, expr, receiver, name),
            final(self).frame() == old(self).frame(),
            final(self).exited == old(self).exited,
    {
        proof {
            reveal(InferCtx::class_member);
        }
        let complete = receiver_is_library_enum(db, &receiver) || match receiver_fqn(&receiver) {
            Some(owner) => find_source(db, owner).is_some(),
            None => false,
        };
        if !complete || receiver_has_nested_type(db, &receiver, name) {
            receiver
        } else {
            self.report(TypeError::NoSuchField { expr, name });
            Ty::Error
        }
    }

    /// A field of a receiver whose type is known. `by_class` says that the
    /// receiver is a class name, `bare` that it is `this`.
    #[verifier::opaque]
    pub open spec fn field_of<D: TyDatabase>(
        self,
        db: &D,
        site: Site,
        expr: u32,
        receiver: Ty,
        by_class: bool,
        bare: bool,
        name: Name,
    ) -> (InferCtx, Ty) {
        if receiver is Array && name == Name::Length {
            (self, Ty::Primitive(PrimitiveType::Int))
        } else {
            match picked_field(db, receiver, name, site.access) {
                Some(field) => (
                    self.after_final_write(db, site, field, bare, expr, name),
                    field.ty,
                ),
                None => {
                    let s = self.after_illegal_field(db, site, expr, receiver, name);
                    if db.hidden_field(receiver, name, site.access) is Some {
                        (s, Ty::Error)
                    } else if by_class {
                        s.class_member(db, expr, receiver, name)
                    } else {
                        (s.told(TypeError::NoSuchField { expr, name }), Ty::Error)
                    }
                },
            }
        }
    }

    /// A field of a receiver whose type is known.
    pub fn field_of_receiver<D: TyDatabase>(
        &mut self,
        db: &D,
        site: &Site,
        expr: u32,
        receiver: Ty,
        by_class: bool,
        bare: bool,
        name: Name,
    ) -> (r: Ty)
        ensures
            (*final(self), r) == old(self).field_of(
                db,
                *site,
                expr,
                receiver,
                by_class,
                bare,
                name,
            ),
            final(self).frame() == old(self).frame(),
            final(self).exited == old(self).exited,
    {
        proof {
            reveal(InferCtx::field_of);
        }
        if receiver.is_array() && name == Name::Length {
            return Ty::Primitive(PrimitiveType::Int);
        }
        match pick_field(db, &receiver, name, &site.access) {
            Some(field) => {
                self.check_final_write(db, site, &field, bare, expr, name);
                field.ty
            },
            None => {
                if self.report_illegal_field_access(db, site, expr, &receiver, name) {
                    return Ty::Error;
                }
                if by_class {
                    return self.class_member_access(db, expr, receiver, name);
                }
                self.report(TypeError::NoSuchField { expr, name });
                Ty::Error
            },
        }
    }

    /// The type of a unary operator on an operand.
    #[verifier::opaque]
    pub open spec fn unary_type(self, op: UnaryOp, operand: u32, inner: Ty) -> (InferCtx, Ty) {
        match op {
            UnaryOp::Inc => (self, inner),
            UnaryOp::Dec => (self, inner),
            UnaryOp::Not => if boolean_type(inner) {
                let (t, f) = self.outcomes();
                (
                    InferCtx { bool_outcomes: Some((f, t)), ..self },
                    Ty::Primitive(PrimitiveType::Boolean),
                )
            } else if inner is Error {
                (self, Ty::Error)
            } else {
                (
                    self.typed(operand, Ty::Error).told(
                        TypeError::NonBooleanCondition { expr: operand, found: inner },
                    ),
                    Ty::Error,
                )
            },
            _ => if !(unary_promoted(inner) is Error) {
                (self, unary_promoted(inner))
            } else if inner is Error {
                (self, Ty::Error)
            } else {
                (
                    self.typed(operand, Ty::Error).told(
                        TypeError::IncompatibleOperand {
                            expr: operand,
                            op: Operator::Unary(op),
                            found: inner,
                            other: None,
                        },
                    ),
                    Ty::Error,
                )
            },
        }
    }

    /// The type of a unary operator on an operand.
    pub fn unary_result(&mut self, op: UnaryOp, operand: u32, inner: Ty) -> (r: Ty)
        ensures
            (*final(self), r) == old(self).unary_type(op, operand, inner),
            final(self).frame() == old(self).frame(),
            final(self).exited == old(self).exited,
    {
        proof {
            reveal(InferCtx::frame);
            reveal(InferCtx::taken);
            reveal(InferCtx::unary_type);
        }
        match op {
            UnaryOp::Inc => inner,
            UnaryOp::Dec => inner,
            UnaryOp::Not => {
                if is_boolean(&inner) {
                    let (t, f) = self.take_bool_outcomes();
                    self.bool_outcomes = Some((f, t));
                    Ty::Primitive(PrimitiveType::Boolean)
                } else {
                    if !inner.is_error() {
                        self.record_type(operand, Ty::Error);
                        self.report(TypeError::NonBooleanCondition { expr: operand, found: inner });
                    }
                    Ty::Error
                }
            },
            _ => {
                let promoted = unary_promotion(&inner);
                if promoted.is_error() {
                    if !inner.is_error() {
                        self.record_type(operand, Ty::Error);
                        self.report(
                            TypeError::IncompatibleOperand {
                                expr: operand,
                                op: Operator::Unary(op),
                                found: inner,
                                other: None,
                            },
                        );
                    }
                }
                promoted
            },
        }
    }

    /// The report on operands that an operator does not take. Operands without
    /// a type have their own.
    #[verifier::opaque]
    pub open spec fn bad_operand(
        self,
        op: BinaryOp,
        first_fine: bool,
        a: (u32, Ty),
        b: (u32, Ty),
    ) -> InferCtx {
        if a.1 is Error || b.1 is Error {
            self
        } else {
            let (bad, other) = blamed(first_fine, a, b);
            self.typed(bad.0, Ty::Error).told(
                TypeError::IncompatibleOperand {
                    expr: bad.0,
                    op: Operator::Binary(op),
                    found: bad.1,
                    other: Some(other),
                },
            )
        }
    }

    fn report_operand(&mut self, op: BinaryOp, first_fine: bool, a: (u32, Ty), b: (u32, Ty))
        ensures
            *final(self) == old(self).bad_operand(op, first_fine, a, b),
            final(self).frame() == old(self).frame(),
            final(self).exited == old(self).exited,
    {
        proof {
            reveal(InferCtx::bad_operand);
        }
        if a.1.is_error() || b.1.is_error() {
            return;
        }
        let (bad, other) = if first_fine {
            (b, a.1)
        } else {
            (a, b.1)
        };
        self.record_type(bad.0, Ty::Error);
        self.report(
            TypeError::IncompatibleOperand {
                expr: bad.0,
                op: Operator::Binary(op),
                found: bad.1,
                other: Some(other),
            },
        );
    }

    /// The type of a numeric operator on two operands.
    #[verifier::opaque]
    pub open spec fn numeric_result(self, op: BinaryOp, a: (u32, Ty), b: (u32, Ty)) -> (
        InferCtx,
        Ty,
    ) {
        let promoted = binary_promoted(a.1, b.1);
        if promoted is Error {
            (self.bad_operand(op, numeric_type(a.1), a, b), Ty::Error)
        } else {
            (self, promoted)
        }
    }

    fn numeric_operator(&mut self, op: BinaryOp, a: (u32, Ty), b: (u32, Ty)) -> (r: Ty)
        ensures
            (*final(self), r) == old(self).numeric_result(op, a, b),
            final(self).frame() == old(self).frame(),
            final(self).exited == old(self).exited,
    {
        proof {
            reveal(InferCtx::numeric_result);
        }
        let promoted = binary_numeric_promotion(&a.1, &b.1);
        if promoted.is_error() {
            let fine = is_numeric_operand(&a.1);
            self.report_operand(op, fine, a, b);
        }
        promoted
    }

    /// The type of a binary operator that always evaluates both operands.
    #[verifier::opaque]
    pub open spec fn binary_type<D: TyDatabase>(
        self,
        db: &D,
        op: BinaryOp,
        a: (u32, Ty),
        b: (u32, Ty),
    ) -> (InferCtx, Ty) {
        match op {
            BinaryOp::Add => if string_type(a.1) || string_type(b.1) {
                (self, class_of(Name::String))
            } else {
                self.numeric_result(op, a, b)
            },
            BinaryOp::Mul => self.numeric_result(op, a, b),
            BinaryOp::Div => self.numeric_result(op, a, b),
            BinaryOp::Rem => self.numeric_result(op, a, b),
            BinaryOp::Sub => self.numeric_result(op, a, b),
            BinaryOp::BitAnd => self.bit_result(op, a, b),
            BinaryOp::BitXor => self.bit_result(op, a, b),
            BinaryOp::BitOr => self.bit_result(op, a, b),
            BinaryOp::Shl => self.shift_result(op, a, b),
            BinaryOp::Shr => self.shift_result(op, a, b),
            BinaryOp::UShr => self.shift_result(op, a, b),
            BinaryOp::And => (self, Ty::Primitive(PrimitiveType::Boolean)),
            BinaryOp::Or => (self, Ty::Primitive(PrimitiveType::Boolean)),
            _ => (
                if comparable_types(db, a.1, b.1) || a.1 is Error || b.1 is Error {
                    self
                } else {
                    self.typed(a.0, Ty::Error).told(
                        TypeError::IncomparableTypes {
                            expr: a.0,
                            op: Operator::Binary(op),
                            found: a.1,
                            other: b.1,
                        },
                    )
                },
                Ty::Primitive(PrimitiveType::Boolean),
            ),
        }
    }

    /// The type of `&`, `^` or `|`: of two booleans a boolean, otherwise the
    /// promoted type.
    #[verifier::opaque]
    pub open spec fn bit_result(self, op: BinaryOp, a: (u32, Ty), b: (u32, Ty)) -> (InferCtx, Ty) {
        let a_bool = boolean_type(a.1);
        let b_bool = boolean_type(b.1);
        if a_bool && b_bool {
            (self, Ty::Primitive(PrimitiveType::Boolean))
        } else if a_bool != b_bool {
            (self.bad_operand(op, a_bool, a, b), Ty::Error)
        } else {
            self.numeric_result(op, a, b)
        }
    }

    fn bit_operator(&mut self, op: BinaryOp, a: (u32, Ty), b: (u32, Ty)) -> (r: Ty)
        ensures
            (*final(self), r) == old(self).bit_result(op, a, b),
            final(self).frame() == old(self).frame(),
            final(self).exited == old(self).exited,
    {
        proof {
            reveal(InferCtx::bit_result);
        }
        let a_bool = is_boolean(&a.1);
        let b_bool = is_boolean(&b.1);
        if a_bool && b_bool {
            return Ty::Primitive(PrimitiveType::Boolean);
        }
        if a_bool != b_bool {
            self.report_operand(op, a_bool, a, b);
            return Ty::Error;
        }
        self.numeric_operator(op, a, b)
    }

    /// The type of a shift: the promoted type of the left operand. Both operands
    /// are numbers.
    #[verifier::opaque]
    pub open spec fn shift_result(self, op: BinaryOp, a: (u32, Ty), b: (u32, Ty)) -> (
        InferCtx,
        Ty,
    ) {
        if !numeric_type(a.1) || !numeric_type(b.1) {
            (self.bad_operand(op, numeric_type(a.1), a, b), Ty::Error)
        } else {
            (self, unary_promoted(a.1))
        }
    }

    fn shift_operator(&mut self, op: BinaryOp, a: (u32, Ty), b: (u32, Ty)) -> (r: Ty)
        ensures
            (*final(self), r) == old(self).shift_result(op, a, b),
            final(self).frame() == old(self).frame(),
            final(self).exited == old(self).exited,
    {
        proof {
            reveal(InferCtx::shift_result);
        }
        let fine = is_numeric_operand(&a.1);
        if !fine || !is_numeric_operand(&b.1) {
            self.report_operand(op, fine, a, b);
            return Ty::Error;
        }
        unary_promotion(&a.1)
    }

    /// The type of a binary operator that always evaluates both operands.
    pub fn binary_result<D: TyDatabase>(
        &mut self,
        db: &D,
        op: BinaryOp,
        a: (u32, Ty),
        b: (u32, Ty),
    ) -> (r: Ty)
        ensures
            (*final(self), r) == old(self).binary_type(db, op, a, b),
            final(self).frame() == old(self).frame(),
            final(self).exited == old(self).exited,
    {
        proof {
            reveal(InferCtx::binary_type);
        }
        match op {
            BinaryOp::Add => {
                if is_string(&a.1) || is_string(&b.1) {
                    return Ty::class(Name::String);
                }
                self.numeric_operator(op, a, b)
            },
            BinaryOp::Mul => self.numeric_operator(op, a, b),
            BinaryOp::Div => self.numeric_operator(op, a, b),
            BinaryOp::Rem => self.numeric_operator(op, a, b),
            BinaryOp::Sub => self.numeric_operator(op, a, b),
            BinaryOp::BitAnd => self.bit_operator(op, a, b),
            BinaryOp::BitXor => self.bit_operator(op, a, b),
            BinaryOp::BitOr => self.bit_operator(op, a, b),
            BinaryOp::Shl => self.shift_operator(op, a, b),
            BinaryOp::Shr => self.shift_operator(op, a, b),
            BinaryOp::UShr => self.shift_operator(op, a, b),
            BinaryOp::And => Ty::Primitive(PrimitiveType::Boolean),
            BinaryOp::Or => Ty::Primitive(PrimitiveType::Boolean),
            _ => {
                if !comparable(db, &a.1, &b.1) && !a.1.is_error() && !b.1.is_error() {
                    self.record_type(a.0, Ty::Error);
                    self.report(
                        TypeError::IncomparableTypes {
                            expr: a.0,
                            op: Operator::Binary(op),
                            found: a.1,
                            other: b.1,
                        },
                    );
                }
                Ty::Primitive(PrimitiveType::Boolean)
            },
        }
    }

    /// A report on a condition that is no boolean.
    #[verifier::opaque]
    pub open spec fn condition_checked(self, expr: u32, ty: Ty) -> InferCtx {
        if ty is Error || boolean_type(ty) {
            self
        } else {
            self.typed(expr, Ty::Error).told(TypeError::NonBooleanCondition { expr, found: ty })
        }
    }

    pub fn check_boolean(&mut self, expr: u32, ty: Ty)
        ensures
            *final(self) == old(self).condition_checked(expr, ty),
            final(self).frame() == old(self).frame(),
            final(self).exited == old(self).exited,
    {
        proof {
            reveal(InferCtx::condition_checked);
        }
        if !ty.is_error() && !is_boolean(&ty) {
            self.record_type(expr, Ty::Error);
            self.report(TypeError::NonBooleanCondition { expr, found: ty });
        }
    }

    /// A report on a value of a switch that cannot be selected by.
    #[verifier::opaque]
    pub open spec fn selector_checked(self, expr: u32, ty: Ty) -> InferCtx {
        if ty is Error || selectable(ty) {
            self
        } else {
            self.told(TypeError::SwitchSelectorType { expr, found: ty })
        }
    }

    pub fn check_selector(&mut self, expr: u32, ty: &Ty)
        ensures
            *final(self) == old(self).selector_checked(expr, *ty),
            final(self).frame() == old(self).frame(),
            final(self).exited == old(self).exited,
    {
        proof {
            reveal(InferCtx::selector_checked);
        }
        if !ty.is_error() && !switchable(ty) {
            self.report(TypeError::SwitchSelectorType { expr, found: ty.copy() });
        }
    }

    /// A report on a value that does not convert to the type it is assigned
    /// to. A constant may be narrowed.
    #[verifier::opaque]
    pub open spec fn value_checked<D: TyDatabase>(
        self,
        db: &D,
        e: Expr,
        found: Ty,
        expected: Ty,
    ) -> InferCtx {
        if found is Error || expected is Error || db.assignable(found, expected) || narrowable(
            db,
            self.const_locals,
            e,
            found,
            expected,
        ) {
            self
        } else {
            self.told(TypeError::IncompatibleTypes { expr: e.id, found, expected })
        }
    }

    pub fn check_value<D: TyDatabase>(&mut self, db: &D, e: &Expr, found: &Ty, expected: &Ty)
        ensures
            *final(self) == old(self).value_checked(db, *e, *found, *expected),
            final(self).frame() == old(self).frame(),
            final(self).exited == old(self).exited,
    {
        proof {
            reveal(InferCtx::value_checked);
        }
        if !found.is_error() && !expected.is_error() && !db.is_assignable(found, expected)
            && !constant_narrowable(db, &self.const_locals, e, found, expected) {
            self.report(
                TypeError::IncompatibleTypes {
                    expr: e.id,
                    found: found.copy(),
                    expected: expected.copy(),
                },
            );
        }
    }

    /// The reports on a case label of a known type.
    #[verifier::opaque]
    pub open spec fn label_checked<D: TyDatabase>(
        self,
        db: &D,
        e: Expr,
        ty: Ty,
        selector: Ty,
    ) -> InferCtx {
        let s = if e.kind is Missing {
            self
        } else {
            self.value_checked(db, e, ty, selector)
        };
        s.case_checked(db, e, selector)
    }

    pub fn check_label<D: TyDatabase>(&mut self, db: &D, e: &Expr, ty: &Ty, selector: &Ty)
        ensures
            *final(self) == old(self).label_checked(db, *e, *ty, *selector),
            final(self).frame() == old(self).frame(),
            final(self).exited == old(self).exited,
    {
        proof {
            reveal(InferCtx::label_checked);
        }
        if !crate::infer::switch::is_missing(e) {
            self.check_value(db, e, ty, selector);
        }
        self.check_case_label(db, e, selector);
    }

    /// The report on a cast that is not allowed.
    #[verifier::opaque]
    pub open spec fn cast_checked<D: TyDatabase>(
        self,
        db: &D,
        expr: u32,
        found: Ty,
        target: Ty,
    ) -> InferCtx {
        if found is Error || target is Error || target.has_type_var() || cast_allowed(
            db,
            found,
            target,
        ) {
            self
        } else {
            self.typed(expr, Ty::Error).told(TypeError::BadCast { expr, found, target })
        }
    }

    pub fn check_cast<D: TyDatabase>(&mut self, db: &D, expr: u32, found: Ty, target: &Ty)
        ensures
            *final(self) == old(self).cast_checked(db, expr, found, *target),
            final(self).frame() == old(self).frame(),
            final(self).exited == old(self).exited,
    {
        proof {
            reveal(InferCtx::cast_checked);
        }
        if !found.is_error() && !target.is_error() && !target.contains_type_var() && !castable(
            db,
            &found,
            target,
        ) {
            self.record_type(expr, Ty::Error);
            self.report(TypeError::BadCast { expr, found, target: target.copy() });
        }
    }

    /// The type of a created array. One of a type that is not reifiable is
    /// reported.
    #[verifier::opaque]
    pub open spec fn array_created<T>(self, expr: u32, inner: Ty, dims: List<T>) -> (InferCtx, Ty) {
        (
            if not_creatable(inner) {
                self.typed(expr, Ty::Error).told(
                    TypeError::GenericArrayCreation { expr, ty: inner },
                )
            } else {
                self
            },
            array_of(inner, dims),
        )
    }

    pub fn create_array<T>(&mut self, expr: u32, inner: Ty, dims: &List<T>) -> (r: Ty)
        ensures
            (*final(self), r) == old(self).array_created(expr, inner, *dims),
            final(self).frame() == old(self).frame(),
            final(self).exited == old(self).exited,
    {
        proof {
            reveal(InferCtx::array_created);
        }
        if is_not_creatable(&inner) {
            self.record_type(expr, Ty::Error);
            self.report(TypeError::GenericArrayCreation { expr, ty: inner.copy() });
        }
        nest_array(inner, dims)
    }

    /// The type of a choice between two values of known types. A report where
    /// there is none.
    #[verifier::opaque]
    pub open spec fn choice_made<D: TyDatabase>(self, db: &D, expr: u32, a: Ty, b: Ty) -> (
        InferCtx,
        Ty,
    ) {
        let ty = choice(db, a, b);
        (
            if ty is Error && !(a is Error) && !(b is Error) {
                self.told(
                    TypeError::IncompatibleOperand {
                        expr,
                        op: Operator::Conditional,
                        found: a,
                        other: Some(b),
                    },
                )
            } else {
                self
            },
            ty,
        )
    }

    pub fn make_choice<D: TyDatabase>(&mut self, db: &D, expr: u32, a: Ty, b: Ty) -> (r: Ty)
        ensures
            (*final(self), r) == old(self).choice_made(db, expr, a, b),
            final(self).frame() == old(self).frame(),
            final(self).exited == old(self).exited,
    {
        proof {
            reveal(InferCtx::choice_made);
        }
        let ty = conditional_type(db, &a, &b);
        if ty.is_error() && !a.is_error() && !b.is_error() {
            self.report(
                TypeError::IncompatibleOperand {
                    expr,
                    op: Operator::Conditional,
                    found: a,
                    other: Some(b),
                },
            );
        }
        ty
    }

    /// What is known after a plain assignment to an expression: a local
    /// variable has a value, and throws what it may.
    #[verifier::opaque]
    pub open spec fn assigned(self, e: Expr) -> InferCtx {
        match e.kind {
            ExprKind::Var(name) => match found_local(self.scopes, name) {
                Some(b) => InferCtx {
                    flow: self.flow.set(b.id),
                    rethrow_sets: without_key(self.rethrow_sets, b.id),
                    ..self
                },
                None => self,
            },
            _ => self,
        }
    }

    pub fn assign_to(&mut self, e: &Expr)
        ensures
            *final(self) == old(self).assigned(*e),
            final(self).frame() == old(self).frame(),
            final(self).exited == old(self).exited,
    {
        proof {
            reveal(InferCtx::frame);
            reveal(InferCtx::assigned);
        }
        if let ExprKind::Var(name) = &e.kind {
            if let Some(b) = find_local(&self.scopes, *name) {
                self.flow = self.flow.insert(b.id);
                let sets = crate::infer::ctx::take(&mut self.rethrow_sets);
                self.rethrow_sets = drop_key(sets, b.id);
            }
        }
    }
}

/// Negation swaps where a condition is true and where it is false.
pub proof fn law_negation_swaps_outcomes(s: InferCtx, operand: u32, t: Ty)
    requires
        boolean_type(t),
    ensures
        s.unary_type(UnaryOp::Not, operand, t).0.outcomes() == (s.outcomes().1, s.outcomes().0),
        s.unary_type(UnaryOp::Not, operand, t).1 == Ty::Primitive(PrimitiveType::Boolean),
{
    reveal(InferCtx::taken);
    reveal(InferCtx::unary_type);
}

/// An operand without a type causes no report of its own.
pub proof fn law_errors_do_not_cascade<D: TyDatabase>(
    db: &D,
    s: InferCtx,
    op: BinaryOp,
    a: (u32, Ty),
    b: (u32, Ty),
)
    requires
        a.1 is Error || b.1 is Error,
    ensures
        s.binary_type(db, op, a, b).0 == s,
        s.condition_checked(a.0, Ty::Error) == s,
{
    reveal(InferCtx::binary_type);
    reveal(InferCtx::condition_checked);
    reveal(InferCtx::numeric_result);
    reveal(InferCtx::bit_result);
    reveal(InferCtx::shift_result);
    reveal(InferCtx::bad_operand);
}

} // verus!
