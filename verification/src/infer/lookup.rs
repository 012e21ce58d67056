//! What names mean in a body: types, receivers, and imported members.
use crate::body::{Expr, ExprKind};
use crate::class_key::{
    find_member, find_simple, find_unqualified, member_of, simple_of, unqualified_of,
};
use crate::db::{ClassInfo, TyDatabase};
use crate::infer::ctx::{Binding, InferCtx, Site};
use crate::infer::diag::{BadArg, TypeError, WrongArity};
use crate::infer::field::{class_levels, levels, pick_field, picked_field};
use crate::infer::local::{find_local, found_local, len32, length};
use crate::infer::poly::ArgType;
use crate::items::{TextRange, TypeRef, TypeShape};
use crate::list::{assoc_get, get_assoc, Data, List};
use crate::member::{InvocationContext, InvocationMode, MethodData, MethodTypeParam};
use crate::names::Name;
use crate::text::{behind_dot, simple_text};
use crate::ty::{all_subst, class_of, substitute_all, Subst, Ty, TypeVarScope, WildcardBound};
use vstd::prelude::*;

verus! {

/// The place, invoked in another form.
pub open spec fn in_mode(ctx: InvocationContext, mode: InvocationMode) -> InvocationContext {
    InvocationContext { mode, ..ctx }
}

/// The first of the names that is a class, as a type.
pub open spec fn first_class<D: TyDatabase>(db: &D, l: List<Name>) -> Option<Ty>
    decreases l,
{
    match l {
        List::Nil => None,
        List::Cons(h, t) => if db.class_info(*h) is Some {
            Some(class_of(*h))
        } else {
            first_class(db, *t)
        },
    }
}

fn find_first_class<D: TyDatabase>(db: &D, l: &List<Name>) -> (r: Option<Ty>)
    ensures
        r == first_class(db, *l),
    decreases l,
{
    match l {
        List::Nil => None,
        List::Cons(h, t) => if db.resolve_class(**h).is_some() {
            Some(Ty::class(**h))
        } else {
            find_first_class(db, t)
        },
    }
}

/// The type that a dotted name means, where it means one.
pub fn resolve_type_name_checked<D: TyDatabase>(db: &D, site: &Site, path: &List<Name>) -> (r:
    Option<Ty>)
    ensures
        r == first_class(db, db.candidates(site.file, site.item, *path)),
{
    let candidates = db.candidate_fqns(site.file, site.item, path);
    find_first_class(db, &candidates)
}

/// The type of the first static field among the imported members.
pub open spec fn imported_field<D: TyDatabase>(db: &D, site: Site, l: List<(Name, Name)>) -> Option<
    Ty,
>
    decreases l,
{
    match l {
        List::Nil => None,
        List::Cons(h, t) => match picked_field(
            db,
            class_of(h.0),
            h.1,
            in_mode(site.access, InvocationMode::Static),
        ) {
            Some(field) => if field.is_static {
                Some(field.ty)
            } else {
                imported_field(db, site, *t)
            },
            None => imported_field(db, site, *t),
        },
    }
}

fn find_imported_field<D: TyDatabase>(db: &D, site: &Site, l: &List<(Name, Name)>) -> (r: Option<
    Ty,
>)
    ensures
        r == imported_field(db, *site, *l),
    decreases l,
{
    match l {
        List::Nil => None,
        List::Cons(h, t) => {
            let access = site.access.with_mode(InvocationMode::Static);
            match pick_field(db, &Ty::class(h.0), h.1, &access) {
                Some(field) => if field.is_static {
                    Some(field.ty)
                } else {
                    find_imported_field(db, site, t)
                },
                None => find_imported_field(db, site, t),
            }
        },
    }
}

/// The type of a statically imported field.
pub fn static_import_field<D: TyDatabase>(db: &D, site: &Site, simple: Name) -> (r: Option<Ty>)
    ensures
        r == imported_field(db, *site, db.static_imports(site.file, site.item, simple)),
{
    let owners = db.static_import_owners(site.file, site.item, simple);
    find_imported_field(db, site, &owners)
}

/// Whether one of the methods is static.
pub open spec fn some_static(l: List<MethodData>) -> bool
    decreases l,
{
    match l {
        List::Nil => false,
        List::Cons(h, t) => h.is_static || some_static(*t),
    }
}

pub fn is_some_static(l: &List<MethodData>) -> (r: bool)
    ensures
        r == some_static(*l),
    decreases l,
{
    match l {
        List::Nil => false,
        List::Cons(h, t) => h.is_static || is_some_static(t),
    }
}

/// The first class of the imported members that has the static method.
pub open spec fn importing_class<D: TyDatabase>(
    db: &D,
    site: Site,
    l: List<(Name, Name)>,
) -> Option<Ty>
    decreases l,
{
    match l {
        List::Nil => None,
        List::Cons(h, t) => if some_static(
            db.members(class_of(h.0), h.1, in_mode(site.access, InvocationMode::Static)),
        ) {
            Some(class_of(h.0))
        } else {
            importing_class(db, site, *t)
        },
    }
}

fn find_importing_class<D: TyDatabase>(db: &D, site: &Site, l: &List<(Name, Name)>) -> (r: Option<
    Ty,
>)
    ensures
        r == importing_class(db, *site, *l),
    decreases l,
{
    match l {
        List::Nil => None,
        List::Cons(h, t) => {
            let access = site.access.with_mode(InvocationMode::Static);
            let members = db.member_set(&Ty::class(h.0), h.1, &access);
            if is_some_static(&members) {
                Some(Ty::class(h.0))
            } else {
                find_importing_class(db, site, t)
            }
        },
    }
}

/// The class whose static method a simple name means by a static import.
pub fn static_import_method_receiver<D: TyDatabase>(db: &D, site: &Site, simple: Name) -> (r:
    Option<Ty>)
    ensures
        r == importing_class(db, *site, db.static_imports(site.file, site.item, simple)),
{
    let owners = db.static_import_owners(site.file, site.item, simple);
    find_importing_class(db, site, &owners)
}

/// The first of the classes that has a method of the name.
pub open spec fn first_with_method<D: TyDatabase>(
    db: &D,
    l: List<Ty>,
    name: Name,
    ctx: InvocationContext,
) -> Option<Ty>
    decreases l,
{
    match l {
        List::Nil => None,
        List::Cons(h, t) => if !(db.members(*h, name, ctx) is Nil) {
            Some(*h)
        } else {
            first_with_method(db, *t, name, ctx)
        },
    }
}

fn find_first_with_method<D: TyDatabase>(
    db: &D,
    l: &List<Ty>,
    name: Name,
    ctx: &InvocationContext,
) -> (r: Option<Ty>)
    ensures
        r == first_with_method(db, *l, name, *ctx),
    decreases l,
{
    match l {
        List::Nil => None,
        List::Cons(h, t) => if !db.member_set(h, name, ctx).is_empty() {
            Some(h.copy())
        } else {
            find_first_with_method(db, t, name, ctx)
        },
    }
}

/// The class that an unqualified invocation is looked up in: the innermost one
/// around that has a method of the name, or else the enclosing class.
pub open spec fn unqualified_receiver<D: TyDatabase>(db: &D, site: Site, name: Name) -> Ty {
    match first_with_method(
        db,
        levels(site),
        name,
        in_mode(site.access, InvocationMode::MethodName),
    ) {
        Some(t) => t,
        None => match site.enclosing_class {
            Some(c) => c,
            None => Ty::Error,
        },
    }
}

/// The class that an unqualified invocation is looked up in.
pub fn unqualified_method_receiver<D: TyDatabase>(db: &D, site: &Site, name: Name) -> (r: Ty)
    ensures
        r == unqualified_receiver(db, *site, name),
{
    let probe = site.access.with_mode(InvocationMode::MethodName);
    let l = class_levels(site);
    match find_first_with_method(db, &l, name, &probe) {
        Some(t) => t,
        None => match &site.enclosing_class {
            Some(c) => c.copy(),
            None => Ty::Error,
        },
    }
}

/// The superclass of the enclosing class.
pub open spec fn superclass<D: TyDatabase>(db: &D, site: Site) -> Ty {
    match site.enclosing_class {
        None => Ty::Error,
        Some(c) => match db.parents(c) {
            List::Nil => Ty::Error,
            List::Cons(h, _) => *h,
        },
    }
}

/// The superclass of the enclosing class.
pub fn super_ty<D: TyDatabase>(db: &D, site: &Site) -> (r: Ty)
    ensures
        r == superclass(db, *site),
{
    match &site.enclosing_class {
        None => Ty::Error,
        Some(c) => match db.supertypes(c) {
            List::Nil => Ty::Error,
            List::Cons(h, _) => *h,
        },
    }
}

/// The first reference among the types with a class name.
pub open spec fn named_parent(l: List<Ty>, name: Name) -> Option<Ty>
    decreases l,
{
    match l {
        List::Nil => None,
        List::Cons(h, t) => match *h {
            Ty::Reference { name: n, args: _, local: _ } => if n == name {
                Some(*h)
            } else {
                named_parent(*t, name)
            },
            _ => named_parent(*t, name),
        },
    }
}

/// The references among the types on top of a stack, the last one topmost.
pub open spec fn stacked(l: List<Ty>, stack: List<Ty>) -> List<Ty>
    decreases l,
{
    match l {
        List::Nil => stack,
        List::Cons(h, t) => if *h is Reference {
            stacked(*t, List::Cons(h, Box::new(stack)))
        } else {
            stacked(*t, stack)
        },
    }
}

fn find_named_parent(l: &List<Ty>, name: Name) -> (r: Option<Ty>)
    ensures
        r == named_parent(*l, name),
    decreases l,
{
    match l {
        List::Nil => None,
        List::Cons(h, t) => match &**h {
            Ty::Reference { name: n, args: _, local: _ } => if *n == name {
                Some(h.copy())
            } else {
                find_named_parent(t, name)
            },
            _ => find_named_parent(t, name),
        },
    }
}

pub fn stack_references(l: &List<Ty>, stack: List<Ty>) -> (r: List<Ty>)
    ensures
        r == stacked(*l, stack),
    decreases l,
{
    match l {
        List::Nil => stack,
        List::Cons(h, t) => match &**h {
            Ty::Reference { name: _, args: _, local: _ } => stack_references(
                t,
                List::cons(h.copy(), stack),
            ),
            _ => stack_references(t, stack),
        },
    }
}

/// The supertype of a class name that is reached first from the types of a
/// stack, in at most `fuel` steps.
pub open spec fn reached<D: TyDatabase>(
    db: &D,
    name: Name,
    stack: List<Ty>,
    seen: List<Ty>,
    fuel: nat,
) -> Option<Ty>
    decreases fuel,
{
    if fuel == 0 {
        None
    } else {
        match stack {
            List::Nil => None,
            List::Cons(h, t) => if seen.has(*h) {
                reached(db, name, *t, seen, (fuel - 1) as nat)
            } else {
                match named_parent(db.parents(*h), name) {
                    Some(found) => Some(found),
                    None => reached(
                        db,
                        name,
                        stacked(db.parents(*h), *t),
                        List::Cons(h, Box::new(seen)),
                        (fuel - 1) as nat,
                    ),
                }
            },
        }
    }
}

fn reach<D: TyDatabase>(db: &D, name: Name, start: List<Ty>) -> (r: Option<Ty>)
    ensures
        r == reached(db, name, start, List::Nil, db.limit() as nat),
{
    let mut stack = start;
    let mut seen: List<Ty> = List::Nil;
    let mut fuel: u64 = db.step_limit();
    while fuel > 0
        invariant
            reached(db, name, stack, seen, fuel as nat) == reached(
                db,
                name,
                start,
                List::Nil,
                db.limit() as nat,
            ),
        decreases fuel,
    {
        match stack {
            List::Nil => {
                return None;
            },
            List::Cons(h, t) => {
                if seen.contains(&h) {
                    stack = *t;
                } else {
                    let parents = db.supertypes(&h);
                    match find_named_parent(&parents, name) {
                        Some(found) => {
                            return Some(found);
                        },
                        None => {
                            stack = stack_references(&parents, *t);
                            seen = List::Cons(h, Box::new(seen));
                        },
                    }
                }
            },
        }
        fuel = fuel - 1;
    }
    None
}

/// The supertype of a class name of the innermost class around that has one.
pub open spec fn reached_from<D: TyDatabase>(db: &D, name: Name, l: List<Ty>) -> Option<Ty>
    decreases l,
{
    match l {
        List::Nil => None,
        List::Cons(h, t) => match reached(
            db,
            name,
            List::Cons(h, Box::new(List::Nil)),
            List::Nil,
            db.limit() as nat,
        ) {
            Some(found) => Some(found),
            None => reached_from(db, name, *t),
        },
    }
}

fn reach_from<D: TyDatabase>(db: &D, name: Name, l: &List<Ty>) -> (r: Option<Ty>)
    ensures
        r == reached_from(db, name, *l),
    decreases l,
{
    match l {
        List::Nil => None,
        List::Cons(h, t) => match reach(db, name, List::cons(h.copy(), List::Nil)) {
            Some(found) => Some(found),
            None => reach_from(db, name, t),
        },
    }
}

/// The interface before `super` as the classes around inherit it.
pub open spec fn inherited<D: TyDatabase>(db: &D, site: Site, raw: Ty) -> Option<Ty> {
    match raw.erased() {
        Ty::Reference { name, args: _, local: _ } => reached_from(db, name, levels(site)),
        _ => None,
    }
}

fn find_inherited<D: TyDatabase>(db: &D, site: &Site, raw: &Ty) -> (r: Option<Ty>)
    ensures
        r == inherited(db, *site, *raw),
{
    match raw.erasure() {
        Ty::Reference { name, args: _, local: _ } => {
            let l = class_levels(site);
            reach_from(db, name, &l)
        },
        _ => None,
    }
}

/// The receiver of an invocation by a qualified `super`: the interface as the
/// classes around inherit it, or as it is written.
pub open spec fn qualified_super<D: TyDatabase>(db: &D, site: Site, raw: Ty) -> Ty {
    match inherited(db, site, raw) {
        Some(t) => t,
        None => raw,
    }
}

/// The receiver of an invocation by a qualified `super`.
pub fn qualified_super_ty<D: TyDatabase>(db: &D, site: &Site, qualifier: &TypeRef) -> (r: Ty)
    ensures
        r == qualified_super(
            db,
            *site,
            db.resolved_type(site.file, site.item, qualifier.shape),
        ),
{
    let raw = db.resolve_type_ref(site.file, site.item, &qualifier.shape);
    match find_inherited(db, site, &raw) {
        Some(t) => t,
        None => raw,
    }
}

/// Whether a type is an interface that the classes around inherit. A class
/// cannot be named before `super`.
pub open spec fn superinterface<D: TyDatabase>(db: &D, site: Site, raw: Ty) -> bool {
    match inherited(db, site, raw) {
        Some(t) => db.class_like(t) != Some(true),
        None => false,
    }
}

/// Whether a type is an interface that the classes around inherit.
pub fn qualifier_is_superinterface<D: TyDatabase>(db: &D, site: &Site, raw: &Ty) -> (r: bool)
    ensures
        r == superinterface(db, *site, *raw),
{
    match find_inherited(db, site, raw) {
        Some(t) => match db.is_class_like(&t) {
            Some(class) => !class,
            None => true,
        },
        None => false,
    }
}

/// The type that a written type means, where it is a class that exists.
pub open spec fn existing<D: TyDatabase>(db: &D, t: Ty) -> Option<Ty> {
    match t {
        Ty::Reference { name, args: _, local: _ } => if db.class_info(name) is Some {
            Some(t)
        } else {
            None
        },
        _ => None,
    }
}

fn if_existing<D: TyDatabase>(db: &D, t: Ty) -> (r: Option<Ty>)
    ensures
        r == existing(db, t),
{
    let name = match &t {
        Ty::Reference { name, args: _, local: _ } => *name,
        _ => {
            return None;
        },
    };
    if db.resolve_class(name).is_some() {
        Some(t)
    } else {
        None
    }
}

/// A name as a written type.
pub open spec fn name_shape(name: Name) -> TypeShape {
    TypeShape::Named { name, args: Box::new(List::Nil) }
}

/// The class that a simple name means, where it is no variable.
pub open spec fn named_type<D: TyDatabase>(
    db: &D,
    site: Site,
    scopes: List<List<(Name, Binding)>>,
    name: Name,
) -> Option<Ty> {
    if found_local(scopes, name) is Some {
        None
    } else {
        existing(db, db.resolved_type(site.file, site.item, name_shape(name)))
    }
}

/// The class that a simple name means, where it is no variable.
pub fn type_name_ty<D: TyDatabase>(
    db: &D,
    site: &Site,
    scopes: &List<List<(Name, Binding)>>,
    name: Name,
) -> (r: Option<Ty>)
    ensures
        r == named_type(db, *site, *scopes, name),
{
    if find_local(scopes, name).is_some() {
        return None;
    }
    let shape = TypeShape::Named { name, args: Box::new(List::Nil) };
    if_existing(db, db.resolve_type_ref(site.file, site.item, &shape))
}

/// Whether one of the names is a variable.
pub open spec fn some_local(scopes: List<List<(Name, Binding)>>, l: List<Name>) -> bool
    decreases l,
{
    match l {
        List::Nil => false,
        List::Cons(h, t) => found_local(scopes, *h) is Some || some_local(scopes, *t),
    }
}

fn is_some_local(scopes: &List<List<(Name, Binding)>>, l: &List<Name>) -> (r: bool)
    ensures
        r == some_local(*scopes, *l),
    decreases l,
{
    match l {
        List::Nil => false,
        List::Cons(h, t) => find_local(scopes, **h).is_some() || is_some_local(scopes, t),
    }
}

/// The segments of an expression that is a dotted name without variables.
pub open spec fn name_path(scopes: List<List<(Name, Binding)>>, e: Expr) -> Option<List<Name>>
    decreases e,
{
    match e.kind {
        ExprKind::FieldAccess { target, name } => match target {
            Some(t) => match name_path(scopes, *t) {
                Some(path) => Some(path.with(name)),
                None => None,
            },
            None => None,
        },
        ExprKind::NamePath(path) => if some_local(scopes, path) {
            None
        } else {
            Some(path)
        },
        ExprKind::Var(name) => if found_local(scopes, name) is Some {
            None
        } else {
            Some(List::Cons(Box::new(name), Box::new(List::Nil)))
        },
        _ => None,
    }
}

fn find_name_path(scopes: &List<List<(Name, Binding)>>, e: &Expr) -> (r: Option<List<Name>>)
    ensures
        r == name_path(*scopes, *e),
    decreases e,
{
    match &e.kind {
        ExprKind::FieldAccess { target, name } => match target {
            Some(t) => match find_name_path(scopes, t) {
                Some(path) => Some(path.push(*name)),
                None => None,
            },
            None => None,
        },
        ExprKind::NamePath(path) => if is_some_local(scopes, path) {
            None
        } else {
            Some(path.copy())
        },
        ExprKind::Var(name) => if find_local(scopes, *name).is_some() {
            None
        } else {
            Some(List::cons(*name, List::Nil))
        },
        _ => None,
    }
}

/// A dotted name as a written type.
pub open spec fn path_shape(path: List<Name>) -> TypeShape {
    match path {
        List::Cons(h, t) => if *t is Nil {
            name_shape(*h)
        } else {
            TypeShape::Dotted(Box::new(path))
        },
        List::Nil => TypeShape::Dotted(Box::new(path)),
    }
}

fn shape_of_path(path: List<Name>) -> (r: TypeShape)
    ensures
        r == path_shape(path),
{
    if let List::Cons(h, t) = &path {
        if t.is_empty() {
            return TypeShape::Named { name: **h, args: Box::new(List::Nil) };
        }
    }
    TypeShape::Dotted(Box::new(path))
}

/// The class that an expression names, where it is a dotted name without
/// variables.
pub open spec fn dotted_type<D: TyDatabase>(
    db: &D,
    site: Site,
    scopes: List<List<(Name, Binding)>>,
    e: Expr,
) -> Option<Ty> {
    match name_path(scopes, e) {
        None => None,
        Some(path) => existing(db, db.resolved_type(site.file, site.item, path_shape(path))),
    }
}

/// The class that an expression names, where it is a dotted name without
/// variables.
pub fn dotted_type_name<D: TyDatabase>(
    db: &D,
    site: &Site,
    scopes: &List<List<(Name, Binding)>>,
    e: &Expr,
) -> (r: Option<Ty>)
    ensures
        r == dotted_type(db, *site, *scopes, *e),
{
    match find_name_path(scopes, e) {
        None => None,
        Some(path) => {
            let shape = shape_of_path(path);
            if_existing(db, db.resolve_type_ref(site.file, site.item, &shape))
        },
    }
}

/// The name of the class of a receiver.
pub open spec fn class_name(t: Ty) -> Option<Name> {
    match t {
        Ty::Reference { name, args: _, local: _ } => Some(name),
        _ => None,
    }
}

/// The name of the class of a receiver.
pub fn receiver_fqn(t: &Ty) -> (r: Option<Name>)
    ensures
        r == class_name(*t),
{
    match t {
        Ty::Reference { name, args: _, local: _ } => Some(*name),
        _ => None,
    }
}

/// Whether a class is compiled.
pub open spec fn is_library<D: TyDatabase>(db: &D, name: Name) -> bool {
    db.class_info(name) matches Some(ClassInfo::Library { arity: _ })
}

pub fn is_library_class<D: TyDatabase>(db: &D, name: Name) -> (r: bool)
    ensures
        r == is_library(db, name),
{
    match db.resolve_class(name) {
        Some(ClassInfo::Library { arity: _ }) => true,
        _ => false,
    }
}

/// The name of the constructors of a class: `<init>` of a compiled class, the
/// simple name of another.
pub open spec fn ctor_name<D: TyDatabase>(db: &D, name: Name) -> Name {
    if is_library(db, name) {
        Name::Init
    } else {
        simple_of(db.table(), name)
    }
}

/// The name of the constructors of a class.
pub fn constructor_name<D: TyDatabase>(db: &D, name: Name) -> (r: Name)
    ensures
        r == ctor_name(db, name),
        !is_library(db, name) && db.table().knows(name) ==> db.table().text(r) == simple_text(
            db.table().text(name),
        ),
{
    if is_library_class(db, name) {
        Name::Init
    } else {
        find_simple(db.names(), name)
    }
}

/// The name that an explicit constructor call looks the constructors of a
/// class up by: `<init>` of a compiled class, else what follows the last dot
/// of the name of the class.
pub open spec fn delegate_name<D: TyDatabase>(db: &D, name: Name) -> Name {
    if is_library(db, name) {
        Name::Init
    } else {
        unqualified_of(db.table(), name)
    }
}

/// The name that an explicit constructor call looks the constructors of a
/// class up by.
pub fn find_delegate_name<D: TyDatabase>(db: &D, name: Name) -> (r: Name)
    ensures
        r == delegate_name(db, name),
        !is_library(db, name) && db.table().knows(name) ==> db.table().text(r) == behind_dot(
            db.table().text(name),
        ),
{
    if is_library_class(db, name) {
        Name::Init
    } else {
        find_unqualified(db.names(), name)
    }
}

/// Whether the class of a receiver has a member class of the name: there is a
/// class that goes by the name of the receiver's, a separator and that name.
pub open spec fn member_class<D: TyDatabase>(db: &D, receiver: Ty, name: Name) -> bool {
    match class_name(receiver) {
        Some(owner) => match member_of(db.table(), owner, name, is_library(db, owner)) {
            Some(nested) => db.class_info(nested) is Some,
            None => false,
        },
        None => false,
    }
}

/// Whether the class of a receiver has a member class of the name.
pub fn receiver_has_nested_type<D: TyDatabase>(db: &D, receiver: &Ty, name: Name) -> (r: bool)
    ensures
        r == member_class(db, *receiver, name),
{
    match receiver_fqn(receiver) {
        Some(owner) => match find_member(db.names(), owner, name, is_library_class(db, owner)) {
            Some(nested) => db.resolve_class(nested).is_some(),
            None => false,
        },
        None => false,
    }
}

/// Whether a receiver is a compiled enum.
pub open spec fn compiled_enum<D: TyDatabase>(db: &D, receiver: Ty) -> bool {
    match class_name(receiver) {
        Some(owner) => is_library(db, owner) && db.library_enum(owner),
        None => false,
    }
}

/// Whether a receiver is a compiled enum.
pub fn receiver_is_library_enum<D: TyDatabase>(db: &D, receiver: &Ty) -> (r: bool)
    ensures
        r == compiled_enum(db, *receiver),
{
    match receiver_fqn(receiver) {
        Some(owner) => is_library_class(db, owner) && db.is_library_enum(owner),
        None => false,
    }
}

/// Whether a type holds a type variable of a declaration.
pub open spec fn has_declared_var(t: Ty) -> bool
    decreases t,
{
    match t {
        Ty::TypeVar { scope, bounds: _, lower: _ } => !(scope is Capture),
        Ty::Reference { name: _, args, local: _ } => some_declared_var(*args),
        Ty::Array(inner) => has_declared_var(*inner),
        Ty::Wildcard(bound) => match bound {
            WildcardBound::Unbounded => false,
            WildcardBound::Upper(b) => has_declared_var(*b),
            WildcardBound::Lower(b) => has_declared_var(*b),
        },
        Ty::Intersection(l) => some_declared_var(*l),
        _ => false,
    }
}

pub open spec fn some_declared_var(l: List<Ty>) -> bool
    decreases l,
{
    match l {
        List::Nil => false,
        List::Cons(h, t) => has_declared_var(*h) || some_declared_var(*t),
    }
}

pub fn contains_declared_type_var(t: &Ty) -> (r: bool)
    ensures
        r == has_declared_var(*t),
    decreases t,
{
    match t {
        Ty::TypeVar { scope, bounds: _, lower: _ } => match scope {
            TypeVarScope::Capture(_) => false,
            _ => true,
        },
        Ty::Reference { name: _, args, local: _ } => some_contains_declared(args),
        Ty::Array(inner) => contains_declared_type_var(inner),
        Ty::Wildcard(bound) => match bound {
            WildcardBound::Unbounded => false,
            WildcardBound::Upper(b) => contains_declared_type_var(b),
            WildcardBound::Lower(b) => contains_declared_type_var(b),
        },
        Ty::Intersection(l) => some_contains_declared(l),
        _ => false,
    }
}

fn some_contains_declared(l: &List<Ty>) -> (r: bool)
    ensures
        r == some_declared_var(*l),
    decreases l,
{
    match l {
        List::Nil => false,
        List::Cons(h, t) => contains_declared_type_var(h) || some_contains_declared(t),
    }
}

/// All but the last.
pub open spec fn init(l: List<Ty>) -> List<Ty>
    decreases l,
{
    match l {
        List::Nil => List::Nil,
        List::Cons(h, t) => if *t is Nil {
            List::Nil
        } else {
            List::Cons(h, Box::new(init(*t)))
        },
    }
}

pub fn all_but_last(l: &List<Ty>) -> (r: List<Ty>)
    ensures
        r == init(*l),
    decreases l,
{
    match l {
        List::Nil => List::Nil,
        List::Cons(h, t) => if t.is_empty() {
            List::Nil
        } else {
            List::cons(h.copy(), all_but_last(t))
        },
    }
}

/// A type so many times.
pub open spec fn repeated(t: Ty, n: nat) -> List<Ty>
    decreases n,
{
    if n == 0 {
        List::Nil
    } else {
        List::Cons(Box::new(t), Box::new(repeated(t, (n - 1) as nat)))
    }
}

fn repeat(t: &Ty, n: u32) -> (r: List<Ty>)
    ensures
        r == repeated(*t, n as nat),
    decreases n,
{
    if n == 0 {
        List::Nil
    } else {
        List::cons(t.copy(), repeat(t, n - 1))
    }
}

/// The formal types of a variable arity method for so many arguments: in place
/// of the last, its component as often as there are arguments for it, but the
/// array itself for one.
pub open spec fn packed(formals: List<Ty>, found: u32) -> List<Ty> {
    let fixed = init(formals);
    match crate::select::last_component(formals) {
        None => formals,
        Some(element) => if found < fixed.count() || found == fixed.count() + 1 {
            formals
        } else {
            fixed.plus(repeated(element, (found - fixed.count()) as nat))
        },
    }
}

/// The formal types of a variable arity method for so many arguments.
pub fn pack_varargs(formals: &List<Ty>, found: u32) -> (r: List<Ty>)
    ensures
        r == packed(*formals, found),
{
    let fixed = all_but_last(formals);
    match crate::select::last_element(formals) {
        None => formals.copy(),
        Some(element) => match left_over(&fixed, found) {
            None => formals.copy(),
            Some(1) => formals.copy(),
            Some(n) => fixed.append(repeat(&element, n)),
        },
    }
}

/// How many of `n` are left when each element of the list takes one, where
/// there are enough.
fn left_over<T>(l: &List<T>, n: u32) -> (r: Option<u32>)
    ensures
        r == if n < l.count() {
            None::<u32>
        } else {
            Some((n - l.count()) as u32)
        },
    decreases l,
{
    match l {
        List::Nil => Some(n),
        List::Cons(_, t) => if n == 0 {
            None
        } else {
            left_over(t, n - 1)
        },
    }
}

/// The type parameters of a method as the types that stand for them, with
/// their declared bounds.
pub open spec fn own_vars(l: List<MethodTypeParam>) -> Subst
    decreases l,
{
    match l {
        List::Nil => List::Nil,
        List::Cons(h, t) => List::Cons(
            Box::new(
                (h.scope, Ty::TypeVar { scope: h.scope, bounds: Box::new(h.bounds), lower: None }),
            ),
            Box::new(own_vars(*t)),
        ),
    }
}

fn find_own_vars(l: &List<MethodTypeParam>) -> (r: Subst)
    ensures
        r == own_vars(*l),
    decreases l,
{
    match l {
        List::Nil => List::Nil,
        List::Cons(h, t) => List::cons(
            (
                h.scope,
                Ty::TypeVar { scope: h.scope, bounds: Box::new(h.bounds.copy()), lower: None },
            ),
            find_own_vars(t),
        ),
    }
}

/// The formal types of a method for a report: its own type parameters stand
/// for themselves, with their declared bounds.
pub open spec fn shown_formals(m: MethodData) -> List<Ty> {
    if m.type_params is Nil {
        m.params
    } else {
        all_subst(m.params, own_vars(m.type_params))
    }
}

/// The formal types of a method for a report.
pub fn reported_formals(m: &MethodData) -> (r: List<Ty>)
    ensures
        r == shown_formals(*m),
{
    if m.type_params.is_empty() {
        m.params.copy()
    } else {
        substitute_all(&m.params, &find_own_vars(&m.type_params))
    }
}

/// The formal types of a method as an invocation with so many arguments sees
/// them.
pub open spec fn formals_for(m: MethodData, found: u32) -> List<Ty> {
    if m.varargs {
        packed(shown_formals(m), found)
    } else {
        shown_formals(m)
    }
}

fn packed_formals(m: &MethodData, found: u32) -> (r: List<Ty>)
    ensures
        r == formals_for(*m, found),
{
    let formals = reported_formals(m);
    if m.varargs {
        pack_varargs(&formals, found)
    } else {
        formals
    }
}

/// How far the number of parameters of a method is from that of the arguments.
pub open spec fn distance(m: MethodData, found: u32) -> u32 {
    let n = len32(m.params);
    if n >= found {
        (n - found) as u32
    } else {
        (found - n) as u32
    }
}

fn distance_of(m: &MethodData, found: u32) -> (r: u32)
    ensures
        r == distance(*m, found),
{
    let n: u32 = length(&m.params);
    if n >= found {
        n - found
    } else {
        found - n
    }
}

/// The first of the methods whose number of parameters is closest.
pub open spec fn closest(l: List<MethodData>, found: u32) -> Option<MethodData>
    decreases l,
{
    match l {
        List::Nil => None,
        List::Cons(h, t) => match closest(*t, found) {
            None => Some(*h),
            Some(m) => if distance(*h, found) <= distance(m, found) {
                Some(*h)
            } else {
                Some(m)
            },
        },
    }
}

fn find_closest(l: &List<MethodData>, found: u32) -> (r: Option<MethodData>)
    ensures
        r == closest(*l, found),
    decreases l,
{
    match l {
        List::Nil => None,
        List::Cons(h, t) => match find_closest(t, found) {
            None => Some(h.copy()),
            Some(m) => if distance_of(h, found) <= distance_of(&m, found) {
                Some(h.copy())
            } else {
                Some(m)
            },
        },
    }
}

/// The methods at a distance.
pub open spec fn at_distance(l: List<MethodData>, found: u32, d: u32) -> List<MethodData>
    decreases l,
{
    match l {
        List::Nil => List::Nil,
        List::Cons(h, t) => if distance(*h, found) == d {
            List::Cons(h, Box::new(at_distance(*t, found, d)))
        } else {
            at_distance(*t, found, d)
        },
    }
}

fn keep_at_distance(l: &List<MethodData>, found: u32, d: u32) -> (r: List<MethodData>)
    ensures
        r == at_distance(*l, found, d),
    decreases l,
{
    match l {
        List::Nil => List::Nil,
        List::Cons(h, t) => {
            let rest = keep_at_distance(t, found, d);
            if distance_of(h, found) == d {
                List::cons(h.copy(), rest)
            } else {
                rest
            }
        },
    }
}

/// The element at a position.
pub open spec fn nth(l: List<Ty>, n: nat) -> Option<Ty>
    decreases l,
{
    match l {
        List::Nil => None,
        List::Cons(h, t) => if n == 0 {
            Some(*h)
        } else {
            nth(*t, (n - 1) as nat)
        },
    }
}

fn get_nth(l: &List<Ty>, n: u32) -> (r: Option<Ty>)
    ensures
        r == nth(*l, n as nat),
    decreases l,
{
    match l {
        List::Nil => None,
        List::Cons(h, t) => if n == 0 {
            Some(h.copy())
        } else {
            get_nth(t, n - 1)
        },
    }
}

/// What the closest methods have against an argument.
#[derive(Debug, PartialEq, Eq)]
pub enum Blame {
    /// One of them takes it, or does not decide.
    Excused,
    /// None takes it; the first one requires the type.
    Blamed(Ty),
    /// There is no method.
    Nobody,
}

/// What the methods have against an argument: each of them must refuse it.
pub open spec fn blame<D: TyDatabase>(
    db: &D,
    l: List<MethodData>,
    found: u32,
    index: u32,
    ty: Ty,
) -> Blame
    decreases l,
{
    match l {
        List::Nil => Blame::Nobody,
        List::Cons(h, t) => match nth(formals_for(*h, found), index as nat) {
            None => Blame::Excused,
            Some(formal) => if has_declared_var(formal) || formal.has_infer_var() || db.assignable(
                ty,
                formal,
            ) {
                Blame::Excused
            } else {
                match blame(db, *t, found, index, ty) {
                    Blame::Excused => Blame::Excused,
                    _ => Blame::Blamed(formal),
                }
            },
        },
    }
}

fn find_blame<D: TyDatabase>(
    db: &D,
    l: &List<MethodData>,
    found: u32,
    index: u32,
    ty: &Ty,
) -> (r: Blame)
    ensures
        r == blame(db, *l, found, index, *ty),
    decreases l,
{
    match l {
        List::Nil => Blame::Nobody,
        List::Cons(h, t) => {
            let formals = packed_formals(h, found);
            match get_nth(&formals, index) {
                None => Blame::Excused,
                Some(formal) => {
                    if contains_declared_type_var(&formal) || formal.contains_infer_var()
                        || db.is_assignable(ty, &formal) {
                        Blame::Excused
                    } else {
                        match find_blame(db, t, found, index, ty) {
                            Blame::Excused => Blame::Excused,
                            _ => Blame::Blamed(formal),
                        }
                    }
                },
            }
        },
    }
}

/// The position behind one.
pub open spec fn after_index(n: u32) -> u32 {
    if n < u32::MAX {
        (n + 1) as u32
    } else {
        n
    }
}

pub fn next_index(n: u32) -> (r: u32)
    ensures
        r == after_index(n),
{
    if n < u32::MAX {
        n + 1
    } else {
        n
    }
}

/// The arguments that every one of the methods refuses, each with the number of
/// its expression.
pub open spec fn bad_arguments<D: TyDatabase>(
    db: &D,
    methods: List<MethodData>,
    found: u32,
    args: List<Expr>,
    types: List<ArgType>,
    index: u32,
) -> List<(u32, BadArg)>
    decreases args,
{
    match (args, types) {
        (List::Cons(a, at), List::Cons(ty, tt)) => {
            let rest = bad_arguments(db, methods, found, *at, *tt, after_index(index));
            match *ty {
                Some(ty) => match blame(db, methods, found, index, ty) {
                    Blame::Blamed(expected) => List::Cons(
                        Box::new((a.id, BadArg { index, found: ty, expected })),
                        Box::new(rest),
                    ),
                    _ => rest,
                },
                None => rest,
            }
        },
        _ => List::Nil,
    }
}

fn find_bad_arguments<D: TyDatabase>(
    db: &D,
    methods: &List<MethodData>,
    found: u32,
    args: &List<Expr>,
    types: &List<ArgType>,
    index: u32,
) -> (r: List<(u32, BadArg)>)
    ensures
        r == bad_arguments(db, *methods, found, *args, *types, index),
    decreases args,
{
    match (args, types) {
        (List::Cons(a, at), List::Cons(ty, tt)) => {
            let rest = find_bad_arguments(db, methods, found, at, tt, next_index(index));
            match &**ty {
                Some(ty) => match find_blame(db, methods, found, index, ty) {
                    Blame::Blamed(expected) => List::cons(
                        (a.id, BadArg { index, found: ty.copy(), expected }),
                        rest,
                    ),
                    _ => rest,
                },
                None => rest,
            }
        },
        _ => List::Nil,
    }
}

/// The refused arguments without their expressions.
pub open spec fn only_bad(l: List<(u32, BadArg)>) -> List<BadArg>
    decreases l,
{
    match l {
        List::Nil => List::Nil,
        List::Cons(h, t) => List::Cons(Box::new(h.1), Box::new(only_bad(*t))),
    }
}

fn copy_bad(l: &List<(u32, BadArg)>) -> (r: List<BadArg>)
    ensures
        r == only_bad(*l),
    decreases l,
{
    match l {
        List::Nil => List::Nil,
        List::Cons(h, t) => List::cons(
            BadArg {
                index: h.1.index,
                found: h.1.found.copy(),
                expected: h.1.expected.copy(),
            },
            copy_bad(t),
        ),
    }
}

/// The types of the arguments for a report: that of their own, or the one that
/// was recorded.
pub open spec fn found_types(
    recorded: List<(u32, Ty)>,
    args: List<Expr>,
    types: List<ArgType>,
) -> List<Option<Ty>>
    decreases args,
{
    match (args, types) {
        (List::Cons(a, at), List::Cons(ty, tt)) => List::Cons(
            Box::new(
                match *ty {
                    Some(ty) => Some(ty),
                    None => match assoc_get(recorded, a.id) {
                        Some(t) => if t is Error || t == Ty::Primitive(
                            crate::ty::PrimitiveType::Void,
                        ) {
                            None
                        } else {
                            Some(t)
                        },
                        None => None,
                    },
                },
            ),
            Box::new(found_types(recorded, *at, *tt)),
        ),
        _ => List::Nil,
    }
}

fn find_found_types(recorded: &List<(u32, Ty)>, args: &List<Expr>, types: &List<ArgType>) -> (r:
    List<Option<Ty>>)
    ensures
        r == found_types(*recorded, *args, *types),
    decreases args,
{
    match (args, types) {
        (List::Cons(a, at), List::Cons(ty, tt)) => {
            let here = match &**ty {
                Some(ty) => Some(ty.copy()),
                None => match get_assoc(recorded, &a.id) {
                    Some(t) => if t.is_error() || t.same(
                        &Ty::Primitive(crate::ty::PrimitiveType::Void),
                    ) {
                        None
                    } else {
                        Some(t)
                    },
                    None => None,
                },
            };
            List::cons(here, find_found_types(recorded, at, tt))
        },
        _ => List::Nil,
    }
}

/// The places of the expressions.
pub open spec fn places(l: List<Expr>) -> List<TextRange>
    decreases l,
{
    match l {
        List::Nil => List::Nil,
        List::Cons(h, t) => match h.range {
            Some(r) => List::Cons(Box::new(r), Box::new(places(*t))),
            None => places(*t),
        },
    }
}

fn find_places(l: &List<Expr>) -> (r: List<TextRange>)
    ensures
        r == places(*l),
    decreases l,
{
    match l {
        List::Nil => List::Nil,
        List::Cons(h, t) => {
            let rest = find_places(t);
            match h.range {
                Some(r) => List::cons(r, rest),
                None => rest,
            }
        },
    }
}

/// The numbers from one to before another.
pub open spec fn span(from: u32, to: u32) -> List<u32>
    decreases to - from,
{
    if from < to {
        List::Cons(Box::new(from), Box::new(span((from + 1) as u32, to)))
    } else {
        List::Nil
    }
}

fn find_span(from: u32, to: u32) -> (r: List<u32>)
    ensures
        r == span(from, to),
    decreases to - from,
{
    if from < to {
        List::cons(from, find_span(from + 1, to))
    } else {
        List::Nil
    }
}

/// The reports on the refused arguments.
pub open spec fn bad_reports(l: List<(u32, BadArg)>) -> List<TypeError>
    decreases l,
{
    match l {
        List::Nil => List::Nil,
        List::Cons(h, t) => List::Cons(
            Box::new(
                TypeError::IncompatibleTypes {
                    expr: h.0,
                    found: h.1.found,
                    expected: h.1.expected,
                },
            ),
            Box::new(bad_reports(*t)),
        ),
    }
}

fn to_bad_reports(l: &List<(u32, BadArg)>) -> (r: List<TypeError>)
    ensures
        r == bad_reports(*l),
    decreases l,
{
    match l {
        List::Nil => List::Nil,
        List::Cons(h, t) => List::cons(
            TypeError::IncompatibleTypes {
                expr: h.0,
                found: h.1.found.copy(),
                expected: h.1.expected.copy(),
            },
            to_bad_reports(t),
        ),
    }
}

/// The report on an invocation without an applicable method.
pub open spec fn wrong_arity<D: TyDatabase>(
    db: &D,
    recorded: List<(u32, Ty)>,
    expr: u32,
    name: Name,
    owner: Option<Name>,
    members: List<MethodData>,
    args: List<Expr>,
    types: List<ArgType>,
) -> (WrongArity, List<(u32, BadArg)>) {
    let found = len32(args);
    let best = closest(members, found);
    let near = match best {
        Some(m) => at_distance(members, found, distance(m, found)),
        None => List::Nil,
    };
    let bad = bad_arguments(db, near, found, args, types, 0);
    (
        WrongArity {
            expr,
            name,
            owner,
            found,
            expected: match members {
                List::Cons(m, _) => len32(m.params),
                List::Nil => found,
            },
            varargs: best matches Some(m) && m.varargs,
            required: match best {
                Some(m) => formals_for(m, found),
                None => List::Nil,
            },
            found_tys: found_types(recorded, args, types),
            arg_ranges: places(args),
            bad_args: only_bad(bad),
            surplus: match best {
                Some(m) => if near.count() <= 1 {
                    span(len32(m.params), found)
                } else {
                    List::Nil
                },
                None => List::Nil,
            },
        },
        bad,
    )
}

impl InferCtx {
    /// The reports on an invocation without an applicable method: one on the
    /// whole, and one on each refused argument behind the first.
    #[verifier::opaque]
    pub open spec fn after_wrong_arity<D: TyDatabase>(
        self,
        db: &D,
        expr: u32,
        name: Name,
        owner: Option<Name>,
        members: List<MethodData>,
        args: List<Expr>,
        types: List<ArgType>,
    ) -> InferCtx {
        let (report, bad) = wrong_arity(db, self.types, expr, name, owner, members, args, types);
        self.told(TypeError::WrongArity(report)).told_all(
            match bad {
                List::Nil => List::Nil,
                List::Cons(_, rest) => bad_reports(*rest),
            },
        )
    }

    /// The reports on an invocation without an applicable method.
    pub fn report_wrong_arity<D: TyDatabase>(
        &mut self,
        db: &D,
        expr: u32,
        name: Name,
        owner: Option<Name>,
        members: &List<MethodData>,
        args: &List<Expr>,
        types: &List<ArgType>,
    )
        ensures
            *final(self) == old(self).after_wrong_arity(
                db,
                expr,
                name,
                owner,
                *members,
                *args,
                *types,
            ),
            final(self).frame() == old(self).frame(),
            final(self).exited == old(self).exited,
    {
        proof {
            reveal(InferCtx::after_wrong_arity);
        }
        let found: u32 = length(args);
        let expected: u32 = match members {
            List::Cons(m, _) => length(&m.params),
            List::Nil => found,
        };
        let best = find_closest(members, found);
        let near = match &best {
            Some(m) => keep_at_distance(members, found, distance_of(m, found)),
            None => List::Nil,
        };
        let bad = find_bad_arguments(db, &near, found, args, types, 0);
        let required = match &best {
            Some(m) => packed_formals(m, found),
            None => List::Nil,
        };
        let varargs = match &best {
            Some(m) => m.varargs,
            None => false,
        };
        let alone = match &near {
            List::Nil => true,
            List::Cons(_, t) => t.is_empty(),
        };
        let surplus = match &best {
            Some(m) => if alone {
                find_span(length(&m.params), found)
            } else {
                List::Nil
            },
            None => List::Nil,
        };
        proof {
            reveal_with_fuel(List::count, 2);
        }
        let report = WrongArity {
            expr,
            name,
            owner,
            found,
            expected,
            varargs,
            required,
            found_tys: find_found_types(&self.types, args, types),
            arg_ranges: find_places(args),
            bad_args: copy_bad(&bad),
            surplus,
        };
        let more = match &bad {
            List::Nil => List::Nil,
            List::Cons(_, rest) => to_bad_reports(rest),
        };
        self.report(TypeError::WrongArity(report));
        self.report_all(more);
    }
}

proof fn lemma_repeated_count(t: Ty, n: nat)
    ensures
        repeated(t, n).count() == n,
    decreases n,
{
    if n > 0 {
        lemma_repeated_count(t, (n - 1) as nat);
    }
}

proof fn lemma_plus_count(a: List<Ty>, b: List<Ty>)
    ensures
        a.plus(b).count() == a.count() + b.count(),
    decreases a,
{
    if let List::Cons(_, t) = a {
        lemma_plus_count(*t, b);
    }
}

proof fn lemma_init(l: List<Ty>)
    requires
        !(l is Nil),
    ensures
        l == init(l).with(crate::select::last_ty(l)->0),
        crate::select::last_ty(l) is Some,
        l.count() == init(l).count() + 1,
    decreases l,
{
    reveal_with_fuel(List::count, 2);
    reveal_with_fuel(List::plus, 2);
    if let List::Cons(_, t) = l {
        if !(*t is Nil) {
            lemma_init(*t);
        }
    }
}

/// The formal types for so many arguments are as many as those, where there
/// are enough for the fixed parameters, and begin with the fixed ones; with
/// fewer arguments they are those that are declared.
pub proof fn law_packed_formals(formals: List<Ty>, found: u32)
    requires
        crate::select::last_component(formals) is Some,
    ensures
        found >= init(formals).count() ==> packed(formals, found).count() == found && exists|
            rest: List<Ty>,
        | #[trigger] init(formals).plus(rest) == packed(formals, found),
        found < init(formals).count() ==> packed(formals, found) == formals,
{
    lemma_init(formals);
    let fixed = init(formals);
    let element = crate::select::last_component(formals)->0;
    if found == fixed.count() + 1 {
        let last = List::Cons(
            Box::new(crate::select::last_ty(formals)->0),
            Box::new(List::Nil),
        );
        assert(fixed.plus(last) == packed(formals, found));
    } else if found >= fixed.count() {
        let rest = repeated(element, (found - fixed.count()) as nat);
        lemma_repeated_count(element, (found - fixed.count()) as nat);
        lemma_plus_count(fixed, rest);
        assert(fixed.plus(rest) == packed(formals, found));
    }
}

/// Whether the search of [`reached`] ends before its steps do.
pub open spec fn reach_ends<D: TyDatabase>(
    db: &D,
    name: Name,
    stack: List<Ty>,
    seen: List<Ty>,
    fuel: nat,
) -> bool
    decreases fuel,
{
    if fuel == 0 {
        false
    } else {
        match stack {
            List::Nil => true,
            List::Cons(h, t) => if seen.has(*h) {
                reach_ends(db, name, *t, seen, (fuel - 1) as nat)
            } else {
                named_parent(db.parents(*h), name) is Some || reach_ends(
                    db,
                    name,
                    stacked(db.parents(*h), *t),
                    List::Cons(h, Box::new(seen)),
                    (fuel - 1) as nat,
                )
            },
        }
    }
}

/// A search for a supertype that ends does not depend on the number of steps
/// it is given, and one that finds a type ends.
pub proof fn law_more_steps_reach_the_same<D: TyDatabase>(
    db: &D,
    name: Name,
    stack: List<Ty>,
    seen: List<Ty>,
    fuel: nat,
    more: nat,
)
    requires
        fuel <= more,
    ensures
        reach_ends(db, name, stack, seen, fuel) ==> reached(db, name, stack, seen, more) == reached(
            db,
            name,
            stack,
            seen,
            fuel,
        ),
        reached(db, name, stack, seen, fuel) is Some ==> reach_ends(db, name, stack, seen, fuel),
    decreases fuel,
{
    if fuel > 0 {
        if let List::Cons(h, t) = stack {
            let (f, m) = ((fuel - 1) as nat, (more - 1) as nat);
            if seen.has(*h) {
                law_more_steps_reach_the_same(db, name, *t, seen, f, m);
            } else {
                law_more_steps_reach_the_same(
                    db,
                    name,
                    stacked(db.parents(*h), *t),
                    List::Cons(h, Box::new(seen)),
                    f,
                    m,
                );
            }
        }
    }
}

} // verus!
