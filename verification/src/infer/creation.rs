//! The classes that `new` creates.
use crate::db::{ClassInfo, TyDatabase};
use crate::infer::ctx::{InferCtx, Site};
use crate::infer::diag::TypeError;
use crate::items::{ItemData, TypeParam, TypeShape};
use crate::list::{Data, List};
use crate::member::MethodTypeParam;
use crate::names::Name;
use crate::source_members::{resolve_all, resolved_all};
use crate::ty::{SourceClass, Subst, Ty, TypeVarScope, WildcardBound};
use vstd::prelude::*;

verus! {

/// The source declaration of a class, where it has one.
pub open spec fn source_of<D: TyDatabase>(db: &D, name: Name) -> Option<SourceClass> {
    match db.class_info(name) {
        Some(ClassInfo::Source { class, type_params: _ }) => Some(class),
        Some(ClassInfo::SourceEnum { class }) => Some(class),
        Some(ClassInfo::SourceOther { class }) => Some(class),
        _ => None,
    }
}

pub fn find_source<D: TyDatabase>(db: &D, name: Name) -> (r: Option<SourceClass>)
    ensures
        r == source_of(db, name),
{
    match db.resolve_class(name) {
        Some(ClassInfo::Source { class, type_params: _ }) => Some(class),
        Some(ClassInfo::SourceEnum { class }) => Some(class),
        Some(ClassInfo::SourceOther { class }) => Some(class),
        _ => None,
    }
}

/// The written type parameters of a source class as they are used at a place.
pub open spec fn source_params<D: TyDatabase>(
    db: &D,
    file: u32,
    item: u32,
    class: SourceClass,
    l: List<TypeParam>,
) -> List<MethodTypeParam>
    decreases l,
{
    match l {
        List::Nil => List::Nil,
        List::Cons(h, t) => List::Cons(
            Box::new(
                MethodTypeParam {
                    scope: TypeVarScope::Class {
                        file: class.file,
                        item: class.item,
                        name: h.name,
                    },
                    bounds: resolved_all(db, file, item, h.bounds),
                },
            ),
            Box::new(source_params(db, file, item, class, *t)),
        ),
    }
}

pub fn find_source_params<D: TyDatabase>(
    db: &D,
    file: u32,
    item: u32,
    class: SourceClass,
    l: &List<TypeParam>,
) -> (r: List<MethodTypeParam>)
    ensures
        r == source_params(db, file, item, class, *l),
    decreases l,
{
    match l {
        List::Nil => List::Nil,
        List::Cons(h, t) => List::cons(
            MethodTypeParam {
                scope: TypeVarScope::Class { file: class.file, item: class.item, name: h.name },
                bounds: resolve_all(db, file, item, &h.bounds),
            },
            find_source_params(db, file, item, class, t),
        ),
    }
}

/// The type parameters of a class with their bounds. An unknown class has none,
/// nor has a compiled one without a generic signature.
pub open spec fn class_params<D: TyDatabase>(db: &D, site: Site, name: Name) -> List<
    MethodTypeParam,
> {
    match db.class_info(name) {
        Some(ClassInfo::Library { arity: _ }) => match db.library_params(name) {
            Some(l) => l,
            None => List::Nil,
        },
        _ => match source_of(db, name) {
            None => List::Nil,
            Some(class) => match db.tree_of(class.file).item(class.item) {
                Some(ItemData::Class(d)) => source_params(
                    db,
                    site.file,
                    site.item,
                    class,
                    d.type_params,
                ),
                Some(ItemData::Interface(d)) => source_params(
                    db,
                    site.file,
                    site.item,
                    class,
                    d.type_params,
                ),
                Some(ItemData::Record(d)) => source_params(
                    db,
                    site.file,
                    site.item,
                    class,
                    d.type_params,
                ),
                _ => List::Nil,
            },
        },
    }
}

/// The type parameters of a class with their bounds.
pub fn class_type_param_bounds<D: TyDatabase>(db: &D, site: &Site, name: Name) -> (r: List<
    MethodTypeParam,
>)
    ensures
        r == class_params(db, *site, name),
{
    match db.resolve_class(name) {
        Some(ClassInfo::Library { arity: _ }) => match db.library_type_params(name) {
            Some(l) => l,
            None => List::Nil,
        },
        _ => match find_source(db, name) {
            None => List::Nil,
            Some(class) => {
                let tree = db.file_item_tree(class.file);
                match tree.get(class.item) {
                    Some(ItemData::Class(d)) => find_source_params(
                        db,
                        site.file,
                        site.item,
                        class,
                        &d.type_params,
                    ),
                    Some(ItemData::Interface(d)) => find_source_params(
                        db,
                        site.file,
                        site.item,
                        class,
                        &d.type_params,
                    ),
                    Some(ItemData::Record(d)) => find_source_params(
                        db,
                        site.file,
                        site.item,
                        class,
                        &d.type_params,
                    ),
                    _ => List::Nil,
                }
            },
        },
    }
}

/// The type variables of the parameters, with their bounds.
pub open spec fn vars_of(l: List<MethodTypeParam>) -> List<Ty>
    decreases l,
{
    match l {
        List::Nil => List::Nil,
        List::Cons(h, t) => List::Cons(
            Box::new(
                Ty::TypeVar { scope: h.scope, bounds: Box::new(h.bounds), lower: None },
            ),
            Box::new(vars_of(*t)),
        ),
    }
}

pub fn type_vars(l: &List<MethodTypeParam>) -> (r: List<Ty>)
    ensures
        r == vars_of(*l),
    decreases l,
{
    match l {
        List::Nil => List::Nil,
        List::Cons(h, t) => List::cons(
            Ty::TypeVar { scope: h.scope, bounds: Box::new(h.bounds.copy()), lower: None },
            type_vars(t),
        ),
    }
}

/// The type variables of the parameters, without bounds.
pub open spec fn bare_vars(l: List<MethodTypeParam>) -> List<Ty>
    decreases l,
{
    match l {
        List::Nil => List::Nil,
        List::Cons(h, t) => List::Cons(
            Box::new(
                Ty::TypeVar { scope: h.scope, bounds: Box::new(List::Nil), lower: None },
            ),
            Box::new(bare_vars(*t)),
        ),
    }
}

fn find_bare_vars(l: &List<MethodTypeParam>) -> (r: List<Ty>)
    ensures
        r == bare_vars(*l),
    decreases l,
{
    match l {
        List::Nil => List::Nil,
        List::Cons(h, t) => List::cons(
            Ty::TypeVar { scope: h.scope, bounds: Box::new(List::Nil), lower: None },
            find_bare_vars(t),
        ),
    }
}

/// The type variables of a class, without bounds.
pub fn class_type_var_names<D: TyDatabase>(db: &D, site: &Site, name: Name) -> (r: List<Ty>)
    ensures
        r == bare_vars(class_params(db, *site, name)),
{
    find_bare_vars(&class_type_param_bounds(db, site, name))
}

/// The type that an argument of the target gives a type parameter: the bound
/// of a wildcard, or the argument itself. One that is not inferred yet gives
/// none.
pub open spec fn given_by(t: Ty) -> Option<Ty> {
    match t {
        Ty::Wildcard(WildcardBound::Upper(b)) => if b.has_infer_var() {
            None
        } else {
            Some(*b)
        },
        Ty::Wildcard(WildcardBound::Lower(b)) => if b.has_infer_var() {
            None
        } else {
            Some(*b)
        },
        _ => if t.has_infer_var() {
            None
        } else {
            Some(t)
        },
    }
}

fn find_given(t: &Ty) -> (r: Option<Ty>)
    ensures
        r == given_by(*t),
{
    match t {
        Ty::Wildcard(WildcardBound::Upper(b)) => if b.contains_infer_var() {
            None
        } else {
            Some(b.copy())
        },
        Ty::Wildcard(WildcardBound::Lower(b)) => if b.contains_infer_var() {
            None
        } else {
            Some(b.copy())
        },
        _ => if t.contains_infer_var() {
            None
        } else {
            Some(t.copy())
        },
    }
}

/// What the arguments of the target give the type variables at the same
/// positions.
pub open spec fn witnessed(parent: List<Ty>, target: List<Ty>, acc: Subst) -> Subst
    decreases parent,
{
    match (parent, target) {
        (List::Cons(p, pt), List::Cons(t, tt)) => match *p {
            Ty::TypeVar { scope, bounds: _, lower: _ } => match given_by(*t) {
                Some(g) => witnessed(*pt, *tt, List::Cons(Box::new((scope, g)), Box::new(acc))),
                None => witnessed(*pt, *tt, acc),
            },
            _ => witnessed(*pt, *tt, acc),
        },
        _ => acc,
    }
}

fn witness(parent: &List<Ty>, target: &List<Ty>, acc: Subst) -> (r: Subst)
    ensures
        r == witnessed(*parent, *target, acc),
    decreases parent,
{
    match (parent, target) {
        (List::Cons(p, pt), List::Cons(t, tt)) => match &**p {
            Ty::TypeVar { scope, bounds: _, lower: _ } => match find_given(t) {
                Some(g) => witness(pt, tt, List::cons((*scope, g), acc)),
                None => witness(pt, tt, acc),
            },
            _ => witness(pt, tt, acc),
        },
        _ => acc,
    }
}

/// One step of the search for the target among the supertypes: what it found,
/// or the types that are still to be searched.
#[derive(Debug, PartialEq, Eq)]
pub enum Step {
    Found(Subst),
    Searching(List<Ty>),
}

/// The supertypes searched one by one: the first one of the target's class
/// whose arguments give a type variable something ends the search.
pub open spec fn stepped(parents: List<Ty>, name: Name, args: List<Ty>, stack: List<Ty>) -> Step
    decreases parents,
{
    match parents {
        List::Nil => Step::Searching(stack),
        List::Cons(h, t) => match *h {
            Ty::Reference { name: n, args: a, local: _ } => {
                let binding = witnessed(*a, args, List::Nil);
                if n == name && a.count() == args.count() && !(binding is Nil) {
                    Step::Found(binding)
                } else {
                    stepped(*t, name, args, List::Cons(h, Box::new(stack)))
                }
            },
            _ => stepped(*t, name, args, stack),
        },
    }
}

fn step(parents: &List<Ty>, name: Name, args: &List<Ty>, stack: List<Ty>) -> (r: Step)
    ensures
        r == stepped(*parents, name, *args, stack),
    decreases parents,
{
    match parents {
        List::Nil => Step::Searching(stack),
        List::Cons(h, t) => match &**h {
            Ty::Reference { name: n, args: a, local: _ } => {
                if *n == name && a.same_len(args) {
                    let binding = witness(a, args, List::Nil);
                    if !binding.is_empty() {
                        return Step::Found(binding);
                    }
                }
                step(t, name, args, List::cons(h.copy(), stack))
            },
            _ => step(t, name, args, stack),
        },
    }
}

/// What the target gives the type variables of the types on the stack, found
/// in at most `fuel` steps.
pub open spec fn given_through<D: TyDatabase>(
    db: &D,
    name: Name,
    args: List<Ty>,
    stack: List<Ty>,
    seen: List<Ty>,
    fuel: nat,
) -> Option<Subst>
    decreases fuel,
{
    if fuel == 0 {
        None
    } else {
        match stack {
            List::Nil => None,
            List::Cons(h, t) => if seen.has(*h) {
                given_through(db, name, args, *t, seen, (fuel - 1) as nat)
            } else {
                match stepped(db.parents(*h), name, args, *t) {
                    Step::Found(binding) => Some(binding),
                    Step::Searching(next) => given_through(
                        db,
                        name,
                        args,
                        next,
                        List::Cons(h, Box::new(seen)),
                        (fuel - 1) as nat,
                    ),
                }
            },
        }
    }
}

fn find_given_through<D: TyDatabase>(db: &D, name: Name, args: &List<Ty>, start: List<Ty>) -> (r:
    Option<Subst>)
    ensures
        r == given_through(db, name, *args, start, List::Nil, db.limit() as nat),
{
    let mut stack = start;
    let mut seen: List<Ty> = List::Nil;
    let mut fuel: u64 = db.step_limit();
    while fuel > 0
        invariant
            given_through(db, name, *args, stack, seen, fuel as nat) == given_through(
                db,
                name,
                *args,
                start,
                List::Nil,
                db.limit() as nat,
            ),
        decreases fuel,
    {
        match stack {
            List::Nil => {
                return None;
            },
            List::Cons(h, t) => {
                if seen.contains(&h) {
                    stack = *t;
                } else {
                    let parents = db.supertypes(&h);
                    match step(&parents, name, args, *t) {
                        Step::Found(binding) => {
                            return Some(binding);
                        },
                        Step::Searching(next) => {
                            stack = next;
                            seen = List::Cons(h, Box::new(seen));
                        },
                    }
                }
            },
        }
        fuel = fuel - 1;
    }
    None
}

/// The class that a creation without written type arguments gets from its
/// target: with the arguments of a target of the same class, or with what a
/// target above it gives its type parameters. Otherwise it stays as it is.
pub open spec fn instantiated<D: TyDatabase>(
    db: &D,
    site: Site,
    class: Ty,
    target: Option<Ty>,
) -> Ty {
    match (target, class) {
        (
            Some(Ty::Reference { name: target_name, args: target_args, local: _ }),
            Ty::Reference { name, args: _, local: _ },
        ) => if target_name == name {
            if *target_args is Nil {
                class
            } else {
                Ty::Reference { name, args: target_args, local: None }
            }
        } else {
            let vars = bare_vars(class_params(db, site, name));
            let probe = if vars is Nil {
                class
            } else {
                Ty::Reference { name, args: Box::new(vars), local: None }
            };
            match given_through(
                db,
                target_name,
                *target_args,
                List::Cons(Box::new(probe), Box::new(List::Nil)),
                List::Nil,
                db.limit() as nat,
            ) {
                Some(binding) => probe.subst(binding),
                None => class,
            }
        },
        _ => class,
    }
}

/// The class that a creation without written type arguments gets from its
/// target.
pub fn diamond_instantiation<D: TyDatabase>(
    db: &D,
    site: &Site,
    class: &Ty,
    target: &Option<Ty>,
) -> (r: Ty)
    ensures
        r == instantiated(db, *site, *class, *target),
{
    match (target, class) {
        (
            Some(Ty::Reference { name: target_name, args: target_args, local: _ }),
            Ty::Reference { name, args: _, local: _ },
        ) => {
            if *target_name == *name {
                if target_args.is_empty() {
                    return class.copy();
                }
                return Ty::reference(*name, target_args.copy());
            }
            let vars = class_type_var_names(db, site, *name);
            let probe = if vars.is_empty() {
                class.copy()
            } else {
                Ty::reference(*name, vars)
            };
            match find_given_through(
                db,
                *target_name,
                target_args,
                List::cons(probe.copy(), List::Nil),
            ) {
                Some(binding) => probe.substitute(&binding),
                None => class.copy(),
            }
        },
        _ => class.copy(),
    }
}

/// Whether a type is one that `new` cannot create: a type variable, or a source
/// interface, enum, annotation or abstract class.
pub open spec fn not_instantiable<D: TyDatabase>(db: &D, class: Ty) -> bool {
    match class {
        Ty::TypeVar { scope: _, bounds: _, lower: _ } => true,
        Ty::Reference { name, args: _, local: _ } => match source_of(db, name) {
            None => false,
            Some(source) => match db.tree_of(source.file).item(source.item) {
                Some(ItemData::Interface(_)) => true,
                Some(ItemData::Enum(_)) => true,
                Some(ItemData::Annotation(_)) => true,
                Some(ItemData::Class(d)) => d.modifiers.is_abstract,
                _ => false,
            },
        },
        _ => false,
    }
}

fn is_not_instantiable<D: TyDatabase>(db: &D, class: &Ty) -> (r: bool)
    ensures
        r == not_instantiable(db, *class),
{
    match class {
        Ty::TypeVar { scope: _, bounds: _, lower: _ } => true,
        Ty::Reference { name, args: _, local: _ } => match find_source(db, *name) {
            None => false,
            Some(source) => {
                let tree = db.file_item_tree(source.file);
                match tree.get(source.item) {
                    Some(ItemData::Interface(_)) => true,
                    Some(ItemData::Enum(_)) => true,
                    Some(ItemData::Annotation(_)) => true,
                    Some(ItemData::Class(d)) => d.modifiers.is_abstract,
                    _ => false,
                }
            },
        },
        _ => false,
    }
}

/// Whether one of the written types is a wildcard.
pub open spec fn some_wildcard(l: List<TypeShape>) -> bool
    decreases l,
{
    match l {
        List::Nil => false,
        List::Cons(h, t) => *h is Any || *h is Extends || *h is Super || some_wildcard(*t),
    }
}

fn is_some_wildcard(l: &List<TypeShape>) -> (r: bool)
    ensures
        r == some_wildcard(*l),
    decreases l,
{
    match l {
        List::Nil => false,
        List::Cons(h, t) => match &**h {
            TypeShape::Any => true,
            TypeShape::Extends(_) => true,
            TypeShape::Super(_) => true,
            _ => is_some_wildcard(t),
        },
    }
}

/// Whether a written type has a wildcard as an argument.
pub open spec fn wildcard_written(shape: TypeShape) -> bool {
    match shape {
        TypeShape::Named { name: _, args } => some_wildcard(*args),
        _ => false,
    }
}

pub fn is_wildcard_written(shape: &TypeShape) -> (r: bool)
    ensures
        r == wildcard_written(*shape),
{
    match shape {
        TypeShape::Named { name: _, args } => is_some_wildcard(args),
        _ => false,
    }
}

/// Whether all of the types are wildcards.
pub open spec fn all_wildcards(l: List<Ty>) -> bool
    decreases l,
{
    match l {
        List::Nil => true,
        List::Cons(h, t) => *h is Wildcard && all_wildcards(*t),
    }
}

fn are_all_wildcards(l: &List<Ty>) -> (r: bool)
    ensures
        r == all_wildcards(*l),
    decreases l,
{
    match l {
        List::Nil => true,
        List::Cons(h, t) => h.is_wildcard() && are_all_wildcards(t),
    }
}

/// Whether a target leaves the type arguments of a creation open: there are
/// none, or wildcards alone.
pub open spec fn left_open(t: Ty) -> bool {
    match t {
        Ty::Reference { name: _, args, local: _ } => all_wildcards(*args),
        _ => false,
    }
}

pub fn is_left_open(t: &Ty) -> (r: bool)
    ensures
        r == left_open(*t),
{
    match t {
        Ty::Reference { name: _, args, local: _ } => are_all_wildcards(args),
        _ => false,
    }
}

impl InferCtx {
    /// A report on a type that `new` cannot create.
    #[verifier::opaque]
    pub open spec fn creation_checked<D: TyDatabase>(self, db: &D, expr: u32, class: Ty) -> InferCtx {
        if not_instantiable(db, class) {
            self.typed(expr, Ty::Error).told(
                TypeError::CannotInstantiateTypeVar { expr, ty: class },
            )
        } else {
            self
        }
    }

    /// Reports a type that `new` cannot create, and says whether it is one.
    pub fn check_instantiable<D: TyDatabase>(&mut self, db: &D, expr: u32, class: &Ty) -> (r: bool)
        ensures
            r == not_instantiable(db, *class),
            *final(self) == old(self).creation_checked(db, expr, *class),
            final(self).frame() == old(self).frame(),
            final(self).exited == old(self).exited,
    {
        proof {
            reveal(InferCtx::creation_checked);
        }
        if is_not_instantiable(db, class) {
            self.record_type(expr, Ty::Error);
            self.report(TypeError::CannotInstantiateTypeVar { expr, ty: class.copy() });
            true
        } else {
            false
        }
    }
}

/// A target of the class itself hands over its type arguments.
pub proof fn law_same_class_target<D: TyDatabase>(
    db: &D,
    site: Site,
    name: Name,
    args: List<Ty>,
    own: List<Ty>,
)
    requires
        !(args is Nil),
    ensures
        ({
            let class = Ty::Reference { name, args: Box::new(own), local: None };
            let target = Ty::Reference { name, args: Box::new(args), local: None };
            instantiated(db, site, class, Some(target)) == target
        }),
{
}

/// Whether the search of [`given_through`] ends before its steps do.
pub open spec fn giving_ends<D: TyDatabase>(
    db: &D,
    name: Name,
    args: List<Ty>,
    stack: List<Ty>,
    seen: List<Ty>,
    fuel: nat,
) -> bool
    decreases fuel,
{
    if fuel == 0 {
        false
    } else {
        match stack {
            List::Nil => true,
            List::Cons(h, t) => if seen.has(*h) {
                giving_ends(db, name, args, *t, seen, (fuel - 1) as nat)
            } else {
                match stepped(db.parents(*h), name, args, *t) {
                    Step::Found(_) => true,
                    Step::Searching(next) => giving_ends(
                        db,
                        name,
                        args,
                        next,
                        List::Cons(h, Box::new(seen)),
                        (fuel - 1) as nat,
                    ),
                }
            },
        }
    }
}

/// What the target gives does not depend on the number of steps, where the
/// search ends; and it ends where something is given.
pub proof fn law_more_steps_give_the_same<D: TyDatabase>(
    db: &D,
    name: Name,
    args: List<Ty>,
    stack: List<Ty>,
    seen: List<Ty>,
    fuel: nat,
    more: nat,
)
    requires
        fuel <= more,
    ensures
        giving_ends(db, name, args, stack, seen, fuel) ==> given_through(
            db,
            name,
            args,
            stack,
            seen,
            more,
        ) == given_through(db, name, args, stack, seen, fuel),
        given_through(db, name, args, stack, seen, fuel) is Some ==> giving_ends(
            db,
            name,
            args,
            stack,
            seen,
            fuel,
        ),
    decreases fuel,
{
    if fuel > 0 {
        if let List::Cons(h, t) = stack {
            let (f, m) = ((fuel - 1) as nat, (more - 1) as nat);
            if seen.has(*h) {
                law_more_steps_give_the_same(db, name, args, *t, seen, f, m);
            } else if let Step::Searching(next) = stepped(db.parents(*h), name, args, *t) {
                law_more_steps_give_the_same(
                    db,
                    name,
                    args,
                    next,
                    List::Cons(h, Box::new(seen)),
                    f,
                    m,
                );
            }
        }
    }
}

} // verus!
