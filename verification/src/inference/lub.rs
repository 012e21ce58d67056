//! The least upper bound of a set of types.
use crate::db::{ClassInfo, TyDatabase};
use crate::list::{lemma_with_has, Data, List};
use crate::names::Name;
use crate::ty::{boxed, class_of, law_erasure_is_idempotent, meet, Ty, WildcardBound};
use vstd::prelude::*;

verus! {

/// How deep bounds of type arguments are looked into before the search for a
/// finite bound is given up and `Object` is taken.
pub const LUB_DEPTH: u64 = 65;

/// The set with `x` in it: behind the others where it is new.
pub open spec fn set_add(l: List<Ty>, x: Ty) -> List<Ty> {
    if l.has(x) {
        l
    } else {
        l.with(x)
    }
}

pub fn add_to_set(l: List<Ty>, x: Ty) -> (r: List<Ty>)
    ensures
        r == set_add(l, x),
{
    if l.contains(&x) {
        l
    } else {
        l.push(x)
    }
}

/// The union of two sets.
pub open spec fn set_union(a: List<Ty>, b: List<Ty>) -> List<Ty>
    decreases b,
{
    match b {
        List::Nil => a,
        List::Cons(h, t) => set_union(set_add(a, *h), *t),
    }
}

fn union_sets(a: List<Ty>, b: &List<Ty>) -> (r: List<Ty>)
    ensures
        r == set_union(a, *b),
    decreases b,
{
    match b {
        List::Nil => a,
        List::Cons(h, t) => union_sets(add_to_set(a, h.copy()), t),
    }
}

/// Whether every element of `a` is in `b`.
pub open spec fn subset(a: List<Ty>, b: List<Ty>) -> bool
    decreases a,
{
    match a {
        List::Nil => true,
        List::Cons(h, t) => b.has(*h) && subset(*t, b),
    }
}

fn is_subset(a: &List<Ty>, b: &List<Ty>) -> (r: bool)
    ensures
        r == subset(*a, *b),
    decreases a,
{
    match a {
        List::Nil => true,
        List::Cons(h, t) => b.contains(h) && is_subset(t, b),
    }
}

/// Whether one of the sets has the elements of `key`.
pub open spec fn guards(guard: List<List<Ty>>, key: List<Ty>) -> bool
    decreases guard,
{
    match guard {
        List::Nil => false,
        List::Cons(h, t) => (subset(*h, key) && subset(key, *h)) || guards(*t, key),
    }
}

fn is_guarded(guard: &List<List<Ty>>, key: &List<Ty>) -> (r: bool)
    ensures
        r == guards(*guard, *key),
    decreases guard,
{
    match guard {
        List::Nil => false,
        List::Cons(h, t) => (is_subset(h, key) && is_subset(key, h)) || is_guarded(t, key),
    }
}

/// Whether every type of the list is `x`.
pub open spec fn all_are(l: List<Ty>, x: Ty) -> bool
    decreases l,
{
    match l {
        List::Nil => true,
        List::Cons(h, t) => *h == x && all_are(*t, x),
    }
}

fn are_all(l: &List<Ty>, x: &Ty) -> (r: bool)
    ensures
        r == all_are(*l, *x),
    decreases l,
{
    match l {
        List::Nil => true,
        List::Cons(h, t) => h.same(x) && are_all(t, x),
    }
}

/// The types that are not the null type.
pub open spec fn non_null(l: List<Ty>) -> List<Ty>
    decreases l,
{
    match l {
        List::Nil => List::Nil,
        List::Cons(h, t) => if *h is Null {
            non_null(*t)
        } else {
            List::Cons(h, Box::new(non_null(*t)))
        },
    }
}

fn without_null(l: &List<Ty>) -> (r: List<Ty>)
    ensures
        r == non_null(*l),
    decreases l,
{
    match l {
        List::Nil => List::Nil,
        List::Cons(h, t) => if h.is_null() {
            without_null(t)
        } else {
            List::cons(h.copy(), without_null(t))
        },
    }
}

/// Each type, with primitive types boxed.
pub open spec fn all_boxed(l: List<Ty>) -> List<Ty>
    decreases l,
{
    match l {
        List::Nil => List::Nil,
        List::Cons(h, t) => List::Cons(Box::new(boxed(*h)), Box::new(all_boxed(*t))),
    }
}

pub fn box_all(l: &List<Ty>) -> (r: List<Ty>)
    ensures
        r == all_boxed(*l),
    decreases l,
{
    match l {
        List::Nil => List::Nil,
        List::Cons(h, t) => List::cons(h.box_primitive(), box_all(t)),
    }
}

/// Two types in a list.
pub open spec fn pair(a: Ty, b: Ty) -> List<Ty> {
    List::Cons(Box::new(a), Box::new(List::Cons(Box::new(b), Box::new(List::Nil))))
}

fn make_pair(a: Ty, b: Ty) -> (r: List<Ty>)
    ensures
        r == pair(a, b),
{
    List::cons(a, List::cons(b, List::Nil))
}

/// `seen` with the supertypes of `ty`, itself included, to a depth of `depth`
/// steps. A type variable ranges over its bounds and their supertypes.
pub open spec fn super_set<D: TyDatabase>(db: &D, ty: Ty, seen: List<Ty>, depth: nat) -> List<Ty>
    decreases depth, 0nat, List::<Ty>::Nil,
{
    if seen.has(ty) {
        seen
    } else if depth == 0 {
        seen.with(ty)
    } else {
        match ty {
            Ty::TypeVar { scope: _, bounds, lower: _ } => bound_sets(
                db,
                *bounds,
                seen.with(ty),
                (depth - 1) as nat,
            ),
            _ => super_sets(db, db.parents(ty), seen.with(ty), (depth - 1) as nat),
        }
    }
}

/// [`super_set`] of each type in turn.
pub open spec fn super_sets<D: TyDatabase>(
    db: &D,
    tys: List<Ty>,
    seen: List<Ty>,
    depth: nat,
) -> List<Ty>
    decreases depth, 1nat, tys,
{
    match tys {
        List::Nil => seen,
        List::Cons(h, t) => super_sets(db, *t, super_set(db, *h, seen, depth), depth),
    }
}

/// [`super_set`] of each bound and of its direct supertypes in turn.
pub open spec fn bound_sets<D: TyDatabase>(
    db: &D,
    bounds: List<Ty>,
    seen: List<Ty>,
    depth: nat,
) -> List<Ty>
    decreases depth, 2nat, bounds,
{
    match bounds {
        List::Nil => seen,
        List::Cons(h, t) => bound_sets(
            db,
            *t,
            super_sets(db, db.parents(*h), super_set(db, *h, seen, depth), depth),
            depth,
        ),
    }
}

fn st_impl<D: TyDatabase>(db: &D, ty: &Ty, seen: List<Ty>, depth: u64) -> (r: List<Ty>)
    ensures
        r == super_set(db, *ty, seen, depth as nat),
    decreases depth, 0nat, List::<Ty>::Nil,
{
    if seen.contains(ty) {
        return seen;
    }
    let seen = seen.push(ty.copy());
    if depth == 0 {
        return seen;
    }
    match ty {
        Ty::TypeVar { scope: _, bounds, lower: _ } => st_bounds(db, bounds, seen, depth - 1),
        _ => {
            let parents = db.supertypes(ty);
            st_all(db, &parents, seen, depth - 1)
        },
    }
}

fn st_all<D: TyDatabase>(db: &D, tys: &List<Ty>, seen: List<Ty>, depth: u64) -> (r: List<Ty>)
    ensures
        r == super_sets(db, *tys, seen, depth as nat),
    decreases depth, 1nat, tys,
{
    match tys {
        List::Nil => seen,
        List::Cons(h, t) => {
            let seen = st_impl(db, h, seen, depth);
            st_all(db, t, seen, depth)
        },
    }
}

fn st_bounds<D: TyDatabase>(db: &D, bounds: &List<Ty>, seen: List<Ty>, depth: u64) -> (r: List<Ty>)
    ensures
        r == bound_sets(db, *bounds, seen, depth as nat),
    decreases depth, 2nat, bounds,
{
    match bounds {
        List::Nil => seen,
        List::Cons(h, t) => {
            let seen = st_impl(db, h, seen, depth);
            let parents = db.supertypes(h);
            let seen = st_all(db, &parents, seen, depth);
            st_bounds(db, t, seen, depth)
        },
    }
}

/// The supertype set of a type.
pub open spec fn st_of<D: TyDatabase>(db: &D, ty: Ty) -> List<Ty> {
    super_set(db, ty, List::Nil, db.limit() as nat)
}

/// The supertype set of each type.
pub open spec fn st_each<D: TyDatabase>(db: &D, tys: List<Ty>) -> List<List<Ty>>
    decreases tys,
{
    match tys {
        List::Nil => List::Nil,
        List::Cons(h, t) => List::Cons(Box::new(st_of(db, *h)), Box::new(st_each(db, *t))),
    }
}

fn st_lists<D: TyDatabase>(db: &D, tys: &List<Ty>) -> (r: List<List<Ty>>)
    ensures
        r == st_each(db, *tys),
    decreases tys,
{
    match tys {
        List::Nil => List::Nil,
        List::Cons(h, t) => {
            let limit: u64 = db.step_limit();
            let set = st_impl(db, h, List::Nil, limit);
            List::cons(set, st_lists(db, t))
        },
    }
}

/// The set of the erasures of the elements.
pub open spec fn erased_set(l: List<Ty>, acc: List<Ty>) -> List<Ty>
    decreases l,
{
    match l {
        List::Nil => acc,
        List::Cons(h, t) => erased_set(*t, set_add(acc, h.erased())),
    }
}

fn erase_set(l: &List<Ty>, acc: List<Ty>) -> (r: List<Ty>)
    ensures
        r == erased_set(*l, acc),
    decreases l,
{
    match l {
        List::Nil => acc,
        List::Cons(h, t) => {
            let acc = add_to_set(acc, h.erasure());
            erase_set(t, acc)
        },
    }
}

/// The elements of `ec` that are among the erasures of `set`.
pub open spec fn kept(ec: List<Ty>, set: List<Ty>) -> List<Ty>
    decreases ec,
{
    match ec {
        List::Nil => List::Nil,
        List::Cons(h, t) => if set.has(*h) {
            List::Cons(h, Box::new(kept(*t, set)))
        } else {
            kept(*t, set)
        },
    }
}

fn keep(ec: List<Ty>, set: &List<Ty>) -> (r: List<Ty>)
    ensures
        r == kept(ec, *set),
    decreases ec,
{
    match ec {
        List::Nil => List::Nil,
        List::Cons(h, t) => if set.contains(&*h) {
            List::Cons(h, Box::new(keep(*t, set)))
        } else {
            keep(*t, set)
        },
    }
}

/// `ec` reduced by the erasures of each further set.
pub open spec fn common(ec: List<Ty>, sets: List<List<Ty>>) -> List<Ty>
    decreases sets,
{
    match sets {
        List::Nil => ec,
        List::Cons(h, t) => common(kept(ec, erased_set(*h, List::Nil)), *t),
    }
}

fn retain_common(ec: List<Ty>, sets: &List<List<Ty>>) -> (r: List<Ty>)
    ensures
        r == common(ec, *sets),
    decreases sets,
{
    match sets {
        List::Nil => ec,
        List::Cons(h, t) => {
            let erased = erase_set(h, List::Nil);
            retain_common(keep(ec, &erased), t)
        },
    }
}

/// The erased candidates: the erasures that all the sets share.
pub open spec fn erased_candidates(sets: List<List<Ty>>) -> List<Ty> {
    match sets {
        List::Nil => List::Nil,
        List::Cons(h, t) => common(erased_set(*h, List::Nil), *t),
    }
}

/// Whether no other candidate of the list is a subtype of `c`.
pub open spec fn minimal<D: TyDatabase>(db: &D, c: Ty, others: List<Ty>) -> bool
    decreases others,
{
    match others {
        List::Nil => true,
        List::Cons(h, t) => (*h == c || !db.subtype(*h, c)) && minimal(db, c, *t),
    }
}

fn is_minimal<D: TyDatabase>(db: &D, c: &Ty, others: &List<Ty>) -> (r: bool)
    ensures
        r == minimal(db, *c, *others),
    decreases others,
{
    match others {
        List::Nil => true,
        List::Cons(h, t) => (h.same(c) || !db.is_subtype(h, c)) && is_minimal(db, c, t),
    }
}

/// The candidates that are minimal among `all`.
pub open spec fn minimal_of<D: TyDatabase>(db: &D, ec: List<Ty>, all: List<Ty>) -> List<Ty>
    decreases ec,
{
    match ec {
        List::Nil => List::Nil,
        List::Cons(h, t) => if minimal(db, *h, all) {
            List::Cons(h, Box::new(minimal_of(db, *t, all)))
        } else {
            minimal_of(db, *t, all)
        },
    }
}

fn minimal_candidates<D: TyDatabase>(db: &D, ec: &List<Ty>, all: &List<Ty>) -> (r: List<Ty>)
    ensures
        r == minimal_of(db, *ec, *all),
    decreases ec,
{
    match ec {
        List::Nil => List::Nil,
        List::Cons(h, t) => if is_minimal(db, h, all) {
            List::cons(h.copy(), minimal_candidates(db, t, all))
        } else {
            minimal_candidates(db, t, all)
        },
    }
}

/// The union of the sets.
pub open spec fn union_all(sets: List<List<Ty>>, acc: List<Ty>) -> List<Ty>
    decreases sets,
{
    match sets {
        List::Nil => acc,
        List::Cons(h, t) => union_all(*t, set_union(acc, *h)),
    }
}

fn union_of_sets(sets: &List<List<Ty>>, acc: List<Ty>) -> (r: List<Ty>)
    ensures
        r == union_all(*sets, acc),
    decreases sets,
{
    match sets {
        List::Nil => acc,
        List::Cons(h, t) => {
            let acc = union_sets(acc, h);
            union_of_sets(t, acc)
        },
    }
}

/// Whether the type names a class or interface that declares type parameters.
pub open spec fn generic<D: TyDatabase>(db: &D, t: Ty) -> bool {
    match t {
        Ty::Reference { name, args: _, local: _ } => match db.class_info(name) {
            Some(ClassInfo::Library { arity: Some(n) }) => n > 0,
            Some(ClassInfo::Source { class: _, type_params: n }) => n > 0,
            _ => false,
        },
        _ => false,
    }
}

fn is_generic<D: TyDatabase>(db: &D, t: &Ty) -> (r: bool)
    ensures
        r == generic(db, *t),
{
    match t {
        Ty::Reference { name, args: _, local: _ } => match db.resolve_class(*name) {
            Some(ClassInfo::Library { arity: Some(n) }) => n > 0,
            Some(ClassInfo::Source { class: _, type_params: n }) => n > 0,
            _ => false,
        },
        _ => false,
    }
}

/// The parameterizations of the class `name` among the types.
pub open spec fn parameterizations(all: List<Ty>, name: Name) -> List<Ty>
    decreases all,
{
    match all {
        List::Nil => List::Nil,
        List::Cons(h, t) => match *h {
            Ty::Reference { name: n, args, local: _ } => if n == name && !(*args is Nil) {
                List::Cons(h, Box::new(parameterizations(*t, name)))
            } else {
                parameterizations(*t, name)
            },
            _ => parameterizations(*t, name),
        },
    }
}

fn relevant_of(all: &List<Ty>, name: Name) -> (r: List<Ty>)
    ensures
        r == parameterizations(*all, name),
    decreases all,
{
    match all {
        List::Nil => List::Nil,
        List::Cons(h, t) => match &**h {
            Ty::Reference { name: n, args, local: _ } => if *n == name && !args.is_empty() {
                List::cons(h.copy(), relevant_of(t, name))
            } else {
                relevant_of(t, name)
            },
            _ => relevant_of(t, name),
        },
    }
}

/// The greatest lower bound of two types.
pub open spec fn glb_of<D: TyDatabase>(db: &D, u: Ty, v: Ty) -> Ty {
    if db.subtype(u, v) {
        u
    } else if db.subtype(v, u) {
        v
    } else {
        meet(pair(u, v))
    }
}

fn glb<D: TyDatabase>(db: &D, u: Ty, v: Ty) -> (r: Ty)
    ensures
        r == glb_of(db, u, v),
{
    if db.is_subtype(&u, &v) {
        return u;
    }
    if db.is_subtype(&v, &u) {
        return v;
    }
    Ty::intersection(make_pair(u, v))
}

/// `? extends t`
pub open spec fn extends(t: Ty) -> Ty {
    Ty::Wildcard(WildcardBound::Upper(Box::new(t)))
}

/// `? super t`
pub open spec fn supers(t: Ty) -> Ty {
    Ty::Wildcard(WildcardBound::Lower(Box::new(t)))
}

/// The least upper bound of a set of types that is under computation inside
/// those of `guard`: a set that repeats, or that is nested deeper than `room`
/// admits, has the bound `Object`.
pub open spec fn lub_set<D: TyDatabase>(
    db: &D,
    types: List<Ty>,
    guard: List<List<Ty>>,
    room: nat,
) -> Ty
    decreases room, 0nat, List::<Ty>::Nil,
{
    if guards(guard, types) || room == 0 {
        class_of(Name::Object)
    } else {
        lub_impl(
            db,
            types,
            List::Cons(Box::new(types), Box::new(guard)),
            (room - 1) as nat,
        )
    }
}

/// The computation behind [`lub_set`].
pub open spec fn lub_impl<D: TyDatabase>(
    db: &D,
    types: List<Ty>,
    guard: List<List<Ty>>,
    room: nat,
) -> Ty
    decreases room, 7nat, List::<Ty>::Nil,
{
    let sets = st_each(db, types);
    let ec = erased_candidates(sets);
    if ec is Nil {
        class_of(Name::Object)
    } else {
        meet(best_all(db, minimal_of(db, ec, ec), union_all(sets, List::Nil), guard, room))
    }
}

/// The candidates, each with its type arguments recovered from the
/// parameterizations among `all`.
pub open spec fn best_all<D: TyDatabase>(
    db: &D,
    mec: List<Ty>,
    all: List<Ty>,
    guard: List<List<Ty>>,
    room: nat,
) -> List<Ty>
    decreases room, 6nat, mec,
{
    match mec {
        List::Nil => List::Nil,
        List::Cons(h, t) => List::Cons(
            Box::new(best_of(db, *h, all, guard, room)),
            Box::new(best_all(db, *t, all, guard, room)),
        ),
    }
}

/// One candidate with its type arguments recovered.
pub open spec fn best_of<D: TyDatabase>(
    db: &D,
    c: Ty,
    all: List<Ty>,
    guard: List<List<Ty>>,
    room: nat,
) -> Ty
    decreases room, 5nat, List::<Ty>::Nil,
{
    if !generic(db, c) {
        c
    } else {
        match c {
            Ty::Reference { name, args: _, local: _ } => match parameterizations(all, name) {
                List::Nil => c,
                List::Cons(h, t) => lcp(db, *h, *t, guard, room),
            },
            _ => c,
        }
    }
}

/// The least containing parameterization of `acc` and the others.
pub open spec fn lcp<D: TyDatabase>(
    db: &D,
    acc: Ty,
    others: List<Ty>,
    guard: List<List<Ty>>,
    room: nat,
) -> Ty
    decreases room, 4nat, others,
{
    match others {
        List::Nil => acc,
        List::Cons(h, t) => lcp(db, lcp_of_pair(db, acc, *h, guard, room), *t, guard, room),
    }
}

/// The least containing parameterization of two parameterizations of a class.
pub open spec fn lcp_of_pair<D: TyDatabase>(
    db: &D,
    a: Ty,
    b: Ty,
    guard: List<List<Ty>>,
    room: nat,
) -> Ty
    decreases room, 3nat, List::<Ty>::Nil,
{
    match (a, b) {
        (
            Ty::Reference { name, args: xs, local: _ },
            Ty::Reference { name: _, args: ys, local: _ },
        ) => Ty::Reference {
            name,
            args: Box::new(lcta_all(db, *xs, *ys, guard, room)),
            local: None,
        },
        _ => a,
    }
}

/// The least containing type argument at each position.
pub open spec fn lcta_all<D: TyDatabase>(
    db: &D,
    xs: List<Ty>,
    ys: List<Ty>,
    guard: List<List<Ty>>,
    room: nat,
) -> List<Ty>
    decreases room, 2nat, xs,
{
    match (xs, ys) {
        (List::Cons(x, xt), List::Cons(y, yt)) => List::Cons(
            Box::new(lcta(db, *x, *y, guard, room)),
            Box::new(lcta_all(db, *xt, *yt, guard, room)),
        ),
        _ => List::Nil,
    }
}

/// The least containing type argument of two type arguments.
pub open spec fn lcta<D: TyDatabase>(
    db: &D,
    x: Ty,
    y: Ty,
    guard: List<List<Ty>>,
    room: nat,
) -> Ty
    decreases room, 1nat, List::<Ty>::Nil,
{
    match (x, y) {
        (Ty::Wildcard(WildcardBound::Unbounded), _) => Ty::Wildcard(WildcardBound::Unbounded),
        (_, Ty::Wildcard(WildcardBound::Unbounded)) => Ty::Wildcard(WildcardBound::Unbounded),
        (Ty::Wildcard(WildcardBound::Upper(bx)), Ty::Wildcard(WildcardBound::Upper(by))) => extends(
            lub_set(db, pair(*bx, *by), guard, room),
        ),
        (Ty::Wildcard(WildcardBound::Upper(_)), Ty::Wildcard(WildcardBound::Lower(_))) => {
            Ty::Wildcard(WildcardBound::Unbounded)
        },
        (Ty::Wildcard(WildcardBound::Lower(_)), Ty::Wildcard(WildcardBound::Upper(_))) => {
            Ty::Wildcard(WildcardBound::Unbounded)
        },
        (Ty::Wildcard(WildcardBound::Lower(bx)), Ty::Wildcard(WildcardBound::Lower(by))) => supers(
            glb_of(db, *bx, *by),
        ),
        (Ty::Wildcard(WildcardBound::Upper(bx)), _) => extends(
            lub_set(db, pair(*bx, y), guard, room),
        ),
        (Ty::Wildcard(WildcardBound::Lower(bx)), _) => supers(glb_of(db, *bx, y)),
        (_, Ty::Wildcard(WildcardBound::Upper(by))) => extends(
            lub_set(db, pair(x, *by), guard, room),
        ),
        (_, Ty::Wildcard(WildcardBound::Lower(by))) => supers(glb_of(db, x, *by)),
        _ => if x == y {
            x
        } else {
            extends(lub_set(db, pair(x, y), guard, room))
        },
    }
}

fn set<D: TyDatabase>(db: &D, types: List<Ty>, guard: List<List<Ty>>, room: u64) -> (r: Ty)
    ensures
        r == lub_set(db, types, guard, room as nat),
    decreases room, 0nat, List::<Ty>::Nil,
{
    if is_guarded(&guard, &types) || room == 0 {
        return Ty::class(Name::Object);
    }
    let guard = List::cons(types.copy(), guard);
    set_impl(db, &types, &guard, room - 1)
}

fn set_impl<D: TyDatabase>(db: &D, types: &List<Ty>, guard: &List<List<Ty>>, room: u64) -> (r: Ty)
    ensures
        r == lub_impl(db, *types, *guard, room as nat),
    decreases room, 7nat, List::<Ty>::Nil,
{
    let sets = st_lists(db, types);
    let ec = match &sets {
        List::Nil => List::Nil,
        List::Cons(h, t) => retain_common(erase_set(h, List::Nil), t),
    };
    if ec.is_empty() {
        return Ty::class(Name::Object);
    }
    let mec = minimal_candidates(db, &ec, &ec);
    let all = union_of_sets(&sets, List::Nil);
    Ty::intersection(candidates(db, &mec, &all, guard, room))
}

fn candidates<D: TyDatabase>(
    db: &D,
    mec: &List<Ty>,
    all: &List<Ty>,
    guard: &List<List<Ty>>,
    room: u64,
) -> (r: List<Ty>)
    ensures
        r == best_all(db, *mec, *all, *guard, room as nat),
    decreases room, 6nat, mec,
{
    match mec {
        List::Nil => List::Nil,
        List::Cons(h, t) => {
            let best = candidate(db, h, all, guard, room);
            List::cons(best, candidates(db, t, all, guard, room))
        },
    }
}

fn candidate<D: TyDatabase>(
    db: &D,
    c: &Ty,
    all: &List<Ty>,
    guard: &List<List<Ty>>,
    room: u64,
) -> (r: Ty)
    ensures
        r == best_of(db, *c, *all, *guard, room as nat),
    decreases room, 5nat, List::<Ty>::Nil,
{
    if !is_generic(db, c) {
        return c.copy();
    }
    match c {
        Ty::Reference { name, args: _, local: _ } => match relevant_of(all, *name) {
            List::Nil => c.copy(),
            List::Cons(h, t) => fold_lcp(db, *h, &*t, guard, room),
        },
        _ => c.copy(),
    }
}

fn fold_lcp<D: TyDatabase>(
    db: &D,
    acc: Ty,
    others: &List<Ty>,
    guard: &List<List<Ty>>,
    room: u64,
) -> (r: Ty)
    ensures
        r == lcp(db, acc, *others, *guard, room as nat),
    decreases room, 4nat, others,
{
    match others {
        List::Nil => acc,
        List::Cons(h, t) => {
            let acc = lcp_pair(db, acc, h, guard, room);
            fold_lcp(db, acc, t, guard, room)
        },
    }
}

fn lcp_pair<D: TyDatabase>(db: &D, a: Ty, b: &Ty, guard: &List<List<Ty>>, room: u64) -> (r: Ty)
    ensures
        r == lcp_of_pair(db, a, *b, *guard, room as nat),
    decreases room, 3nat, List::<Ty>::Nil,
{
    match (&a, b) {
        (
            Ty::Reference { name, args: xs, local: _ },
            Ty::Reference { name: _, args: ys, local: _ },
        ) => Ty::reference(*name, lcta_zip(db, xs, ys, guard, room)),
        _ => a.copy(),
    }
}

fn lcta_zip<D: TyDatabase>(
    db: &D,
    xs: &List<Ty>,
    ys: &List<Ty>,
    guard: &List<List<Ty>>,
    room: u64,
) -> (r: List<Ty>)
    ensures
        r == lcta_all(db, *xs, *ys, *guard, room as nat),
    decreases room, 2nat, xs,
{
    match (xs, ys) {
        (List::Cons(x, xt), List::Cons(y, yt)) => {
            let head = lcta_pair(db, x, y, guard, room);
            List::cons(head, lcta_zip(db, xt, yt, guard, room))
        },
        _ => List::Nil,
    }
}

fn lcta_pair<D: TyDatabase>(db: &D, x: &Ty, y: &Ty, guard: &List<List<Ty>>, room: u64) -> (r: Ty)
    ensures
        r == lcta(db, *x, *y, *guard, room as nat),
    decreases room, 1nat, List::<Ty>::Nil,
{
    match (x, y) {
        (Ty::Wildcard(WildcardBound::Unbounded), _) => Ty::Wildcard(WildcardBound::Unbounded),
        (_, Ty::Wildcard(WildcardBound::Unbounded)) => Ty::Wildcard(WildcardBound::Unbounded),
        (Ty::Wildcard(WildcardBound::Upper(bx)), Ty::Wildcard(WildcardBound::Upper(by))) => {
            Ty::upper_wildcard(set(db, make_pair(bx.copy(), by.copy()), guard.copy(), room))
        },
        (Ty::Wildcard(WildcardBound::Upper(_)), Ty::Wildcard(WildcardBound::Lower(_))) => {
            Ty::Wildcard(WildcardBound::Unbounded)
        },
        (Ty::Wildcard(WildcardBound::Lower(_)), Ty::Wildcard(WildcardBound::Upper(_))) => {
            Ty::Wildcard(WildcardBound::Unbounded)
        },
        (Ty::Wildcard(WildcardBound::Lower(bx)), Ty::Wildcard(WildcardBound::Lower(by))) => {
            Ty::lower_wildcard(glb(db, bx.copy(), by.copy()))
        },
        (Ty::Wildcard(WildcardBound::Upper(bx)), _) => {
            Ty::upper_wildcard(set(db, make_pair(bx.copy(), y.copy()), guard.copy(), room))
        },
        (Ty::Wildcard(WildcardBound::Lower(bx)), _) => {
            Ty::lower_wildcard(glb(db, bx.copy(), y.copy()))
        },
        (_, Ty::Wildcard(WildcardBound::Upper(by))) => {
            Ty::upper_wildcard(set(db, make_pair(x.copy(), by.copy()), guard.copy(), room))
        },
        (_, Ty::Wildcard(WildcardBound::Lower(by))) => {
            Ty::lower_wildcard(glb(db, x.copy(), by.copy()))
        },
        _ => if x.same(y) {
            x.copy()
        } else {
            Ty::upper_wildcard(set(db, make_pair(x.copy(), y.copy()), guard.copy(), room))
        },
    }
}

/// The least upper bound of types none of which is the null type.
pub open spec fn lub_proper<D: TyDatabase>(db: &D, types: List<Ty>) -> Ty {
    lub_set(db, all_boxed(types), List::Nil, LUB_DEPTH as nat)
}

/// The least upper bound of a list of types: `Object` for none, the type
/// itself where they are all the same, and the null type counts only where
/// there is nothing else.
pub open spec fn lub<D: TyDatabase>(db: &D, types: List<Ty>) -> Ty {
    match types {
        List::Nil => class_of(Name::Object),
        List::Cons(first, rest) => if all_are(*rest, *first) {
            *first
        } else if types.has(Ty::Null) {
            match non_null(types) {
                List::Nil => *first,
                List::Cons(h, t) => if all_are(*t, *h) {
                    *h
                } else {
                    lub_proper(db, non_null(types))
                },
            }
        } else {
            lub_proper(db, types)
        },
    }
}

/// The least upper bound of a list of types.
pub fn least_upper_bound<D: TyDatabase>(db: &D, types: &List<Ty>) -> (r: Ty)
    ensures
        r == lub(db, *types),
{
    match types {
        List::Nil => Ty::class(Name::Object),
        List::Cons(first, rest) => {
            if are_all(rest, first) {
                return first.copy();
            }
            if types.contains(&Ty::Null) {
                let proper = without_null(types);
                return match &proper {
                    List::Nil => first.copy(),
                    List::Cons(h, t) => if are_all(t, h) {
                        h.copy()
                    } else {
                        set(db, box_all(&proper), List::Nil, LUB_DEPTH)
                    },
                };
            }
            set(db, box_all(types), List::Nil, LUB_DEPTH)
        },
    }
}

/// The least upper bound of one type is the type itself, however often it is
/// given.
pub proof fn law_lub_of_same<D: TyDatabase>(db: &D, t: Ty, rest: List<Ty>)
    requires
        all_are(rest, t),
    ensures
        lub(db, List::Cons(Box::new(t), Box::new(rest))) == t,
{
}

/// The null type does not change the least upper bound of a type it is joined
/// with.
pub proof fn law_lub_with_null<D: TyDatabase>(db: &D, t: Ty)
    ensures
        lub(db, pair(t, Ty::Null)) == t,
        lub(db, pair(Ty::Null, t)) == t,
{
    reveal_with_fuel(non_null, 3);
    reveal_with_fuel(all_are, 3);
    reveal_with_fuel(List::has, 3);
}

/// Whether the supertypes of a type are all met before the depth is used up.
pub open spec fn super_ends<D: TyDatabase>(db: &D, ty: Ty, seen: List<Ty>, depth: nat) -> bool
    decreases depth, 0nat, List::<Ty>::Nil,
{
    seen.has(ty) || (depth > 0 && match ty {
        Ty::TypeVar { scope: _, bounds, lower: _ } => bounds_end(
            db,
            *bounds,
            seen.with(ty),
            (depth - 1) as nat,
        ),
        _ => supers_end(db, db.parents(ty), seen.with(ty), (depth - 1) as nat),
    })
}

/// [`super_ends`] for each type in turn.
pub open spec fn supers_end<D: TyDatabase>(
    db: &D,
    tys: List<Ty>,
    seen: List<Ty>,
    depth: nat,
) -> bool
    decreases depth, 1nat, tys,
{
    match tys {
        List::Nil => true,
        List::Cons(h, t) => super_ends(db, *h, seen, depth) && supers_end(
            db,
            *t,
            super_set(db, *h, seen, depth),
            depth,
        ),
    }
}

/// [`super_ends`] for each bound and its direct supertypes in turn.
pub open spec fn bounds_end<D: TyDatabase>(
    db: &D,
    bounds: List<Ty>,
    seen: List<Ty>,
    depth: nat,
) -> bool
    decreases depth, 2nat, bounds,
{
    match bounds {
        List::Nil => true,
        List::Cons(h, t) => {
            let met = super_set(db, *h, seen, depth);
            &&& super_ends(db, *h, seen, depth)
            &&& supers_end(db, db.parents(*h), met, depth)
            &&& bounds_end(db, *t, super_sets(db, db.parents(*h), met, depth), depth)
        },
    }
}

/// A supertype set that is met to its end does not depend on the depth.
pub proof fn law_deeper_sets_are_the_same<D: TyDatabase>(
    db: &D,
    ty: Ty,
    seen: List<Ty>,
    depth: nat,
    more: nat,
)
    requires
        depth <= more,
        super_ends(db, ty, seen, depth),
    ensures
        super_set(db, ty, seen, more) == super_set(db, ty, seen, depth),
    decreases depth, 0nat, List::<Ty>::Nil,
{
    if !seen.has(ty) {
        let (d, m) = ((depth - 1) as nat, (more - 1) as nat);
        match ty {
            Ty::TypeVar { scope: _, bounds, lower: _ } => {
                lemma_deeper_bounds(db, *bounds, seen.with(ty), d, m);
            },
            _ => {
                lemma_deeper_all(db, db.parents(ty), seen.with(ty), d, m);
            },
        }
    }
}

proof fn lemma_deeper_all<D: TyDatabase>(
    db: &D,
    tys: List<Ty>,
    seen: List<Ty>,
    depth: nat,
    more: nat,
)
    requires
        depth <= more,
        supers_end(db, tys, seen, depth),
    ensures
        super_sets(db, tys, seen, more) == super_sets(db, tys, seen, depth),
    decreases depth, 1nat, tys,
{
    if let List::Cons(h, t) = tys {
        law_deeper_sets_are_the_same(db, *h, seen, depth, more);
        lemma_deeper_all(db, *t, super_set(db, *h, seen, depth), depth, more);
    }
}

proof fn lemma_deeper_bounds<D: TyDatabase>(
    db: &D,
    bounds: List<Ty>,
    seen: List<Ty>,
    depth: nat,
    more: nat,
)
    requires
        depth <= more,
        bounds_end(db, bounds, seen, depth),
    ensures
        bound_sets(db, bounds, seen, more) == bound_sets(db, bounds, seen, depth),
    decreases depth, 2nat, bounds,
{
    if let List::Cons(h, t) = bounds {
        let met = super_set(db, *h, seen, depth);
        law_deeper_sets_are_the_same(db, *h, seen, depth, more);
        lemma_deeper_all(db, db.parents(*h), met, depth, more);
        lemma_deeper_bounds(db, *t, super_sets(db, db.parents(*h), met, depth), depth, more);
    }
}

/// Whether subtyping is an order that direct supertypes, erasures, bounds of
/// type variables and the types of an intersection go by, with `Object` above
/// all.
pub open spec fn class_order<D: TyDatabase>(db: &D) -> bool {
    &&& forall|a: Ty| #[trigger] db.subtype(a, a)
    &&& forall|a: Ty, b: Ty, c: Ty| #[trigger]
        db.subtype(a, b) && #[trigger] db.subtype(b, c) ==> db.subtype(a, c)
    &&& forall|a: Ty, p: Ty| #[trigger] db.parents(a).has(p) ==> db.subtype(a, p)
    &&& forall|a: Ty| db.subtype(a, #[trigger] a.erased())
    &&& forall|a: Ty| #[trigger] db.subtype(a, class_of(Name::Object))
    &&& forall|a: Ty, b: Ty| #[trigger] bounds_of(a).has(b) ==> db.subtype(a, b)
    &&& forall|a: Ty, b: Ty| #[trigger] components(a).has(b) ==> db.subtype(a, b)
}

/// Whether, besides, what is below all types of an intersection is below the
/// intersection, and no class has type parameters.
pub open spec fn plain_order<D: TyDatabase>(db: &D) -> bool {
    &&& class_order(db)
    &&& forall|a: Ty, l: List<Ty>| all_above(db, a, l) ==> #[trigger] db.subtype(a, meet(l))
    &&& forall|t: Ty| !(#[trigger] generic(db, t))
}

/// The types of an intersection, and any other type by itself.
pub open spec fn components(t: Ty) -> List<Ty> {
    match t {
        Ty::Intersection(l) => *l,
        _ => List::Cons(Box::new(t), Box::new(List::Nil)),
    }
}

/// The bounds of a type variable.
pub open spec fn bounds_of(t: Ty) -> List<Ty> {
    match t {
        Ty::TypeVar { scope: _, bounds, lower: _ } => *bounds,
        _ => List::Nil,
    }
}

/// Whether every type of the list is a supertype of `t`.
pub open spec fn all_above<D: TyDatabase>(db: &D, t: Ty, l: List<Ty>) -> bool {
    forall|x: Ty| #[trigger] l.has(x) ==> db.subtype(t, x)
}

proof fn lemma_above_with<D: TyDatabase>(db: &D, t: Ty, l: List<Ty>, x: Ty)
    requires
        all_above(db, t, l),
        db.subtype(t, x),
    ensures
        all_above(db, t, l.with(x)),
        all_above(db, t, set_add(l, x)),
{
    assert forall|y: Ty| #[trigger] l.with(x).has(y) implies db.subtype(t, y) by {
        lemma_with_has(l, x, y);
    }
}

proof fn lemma_above_tail<D: TyDatabase>(db: &D, t: Ty, h: Ty, rest: List<Ty>)
    requires
        all_above(db, t, List::Cons(Box::new(h), Box::new(rest))),
    ensures
        db.subtype(t, h),
        all_above(db, t, rest),
{
    let l = List::Cons(Box::new(h), Box::new(rest));
    assert(l.has(h));
    assert forall|y: Ty| #[trigger] rest.has(y) implies db.subtype(t, y) by {
        assert(l.has(y));
    }
}

proof fn lemma_parents_above<D: TyDatabase>(db: &D, t: Ty, ty: Ty)
    requires
        class_order(db),
        db.subtype(t, ty),
    ensures
        all_above(db, t, db.parents(ty)),
{
    assert forall|y: Ty| #[trigger] db.parents(ty).has(y) implies db.subtype(t, y) by {
        assert(db.subtype(ty, y));
    }
}

proof fn lemma_super_above<D: TyDatabase>(db: &D, t: Ty, ty: Ty, seen: List<Ty>, depth: nat)
    requires
        class_order(db),
        db.subtype(t, ty),
        all_above(db, t, seen),
    ensures
        all_above(db, t, super_set(db, ty, seen, depth)),
    decreases depth, 0nat, List::<Ty>::Nil,
{
    lemma_above_with(db, t, seen, ty);
    if !seen.has(ty) && depth > 0 {
        match ty {
            Ty::TypeVar { scope: _, bounds, lower: _ } => {
                assert forall|y: Ty| #[trigger] bounds.has(y) implies db.subtype(t, y) by {
                    assert(bounds_of(ty).has(y));
                    assert(db.subtype(ty, y));
                }
                lemma_bounds_above(db, t, *bounds, seen.with(ty), (depth - 1) as nat);
            },
            _ => {
                lemma_parents_above(db, t, ty);
                lemma_supers_above(db, t, db.parents(ty), seen.with(ty), (depth - 1) as nat);
            },
        }
    }
}

proof fn lemma_supers_above<D: TyDatabase>(
    db: &D,
    t: Ty,
    tys: List<Ty>,
    seen: List<Ty>,
    depth: nat,
)
    requires
        class_order(db),
        all_above(db, t, tys),
        all_above(db, t, seen),
    ensures
        all_above(db, t, super_sets(db, tys, seen, depth)),
    decreases depth, 1nat, tys,
{
    if let List::Cons(h, rest) = tys {
        lemma_above_tail(db, t, *h, *rest);
        lemma_super_above(db, t, *h, seen, depth);
        lemma_supers_above(db, t, *rest, super_set(db, *h, seen, depth), depth);
    }
}

proof fn lemma_bounds_above<D: TyDatabase>(
    db: &D,
    t: Ty,
    bounds: List<Ty>,
    seen: List<Ty>,
    depth: nat,
)
    requires
        class_order(db),
        all_above(db, t, bounds),
        all_above(db, t, seen),
    ensures
        all_above(db, t, bound_sets(db, bounds, seen, depth)),
    decreases depth, 2nat, bounds,
{
    if let List::Cons(h, rest) = bounds {
        lemma_above_tail(db, t, *h, *rest);
        let met = super_set(db, *h, seen, depth);
        lemma_super_above(db, t, *h, seen, depth);
        lemma_parents_above(db, t, *h);
        lemma_supers_above(db, t, db.parents(*h), met, depth);
        lemma_bounds_above(db, t, *rest, super_sets(db, db.parents(*h), met, depth), depth);
    }
}

proof fn lemma_erased_above<D: TyDatabase>(db: &D, t: Ty, l: List<Ty>, acc: List<Ty>)
    requires
        class_order(db),
        all_above(db, t, l),
        all_above(db, t, acc),
    ensures
        all_above(db, t, erased_set(l, acc)),
    decreases l,
{
    if let List::Cons(h, rest) = l {
        lemma_above_tail(db, t, *h, *rest);
        assert(db.subtype(*h, h.erased()));
        lemma_above_with(db, t, acc, h.erased());
        lemma_erased_above(db, t, *rest, set_add(acc, h.erased()));
    }
}

proof fn lemma_kept_has(ec: List<Ty>, set: List<Ty>, c: Ty)
    ensures
        kept(ec, set).has(c) == (ec.has(c) && set.has(c)),
    decreases ec,
{
    if let List::Cons(_, t) = ec {
        lemma_kept_has(*t, set, c);
    }
}

proof fn lemma_common_above<D: TyDatabase>(db: &D, types: List<Ty>, ec: List<Ty>, t: Ty, c: Ty)
    requires
        class_order(db),
    ensures
        common(ec, st_each(db, types)).has(c) ==> ec.has(c) && (types.has(t) ==> db.subtype(t, c)),
    decreases types,
{
    if let List::Cons(h, rest) = types {
        let erased = erased_set(st_of(db, *h), List::Nil);
        lemma_common_above(db, *rest, kept(ec, erased), t, c);
        lemma_kept_has(ec, erased, c);
        assert(db.subtype(*h, *h));
        lemma_super_above(db, *h, *h, List::Nil, db.limit() as nat);
        lemma_erased_above(db, *h, st_of(db, *h), List::Nil);
    }
}

proof fn lemma_minimal_of<D: TyDatabase>(db: &D, ec: List<Ty>, all: List<Ty>, c: Ty)
    ensures
        minimal_of(db, ec, all).has(c) ==> ec.has(c),
    decreases ec,
{
    if let List::Cons(_, t) = ec {
        lemma_minimal_of(db, *t, all, c);
    }
}

proof fn lemma_best_of_plain<D: TyDatabase>(
    db: &D,
    mec: List<Ty>,
    all: List<Ty>,
    guard: List<List<Ty>>,
    room: nat,
)
    requires
        plain_order(db),
    ensures
        best_all(db, mec, all, guard, room) == mec,
    decreases mec,
{
    if let List::Cons(h, t) = mec {
        assert(!generic(db, *h));
        assert(best_of(db, *h, all, guard, room) == *h);
        lemma_best_of_plain(db, *t, all, guard, room);
    }
}

proof fn lemma_lub_set_above<D: TyDatabase>(
    db: &D,
    types: List<Ty>,
    guard: List<List<Ty>>,
    room: nat,
    t: Ty,
)
    requires
        plain_order(db),
        types.has(t),
    ensures
        db.subtype(t, lub_set(db, types, guard, room)),
{
    assert(db.subtype(t, class_of(Name::Object)));
    if !guards(guard, types) && room > 0 {
        let inner = List::Cons(Box::new(types), Box::new(guard));
        let sets = st_each(db, types);
        let ec = erased_candidates(sets);
        let mec = minimal_of(db, ec, ec);
        lemma_best_of_plain(db, mec, union_all(sets, List::Nil), inner, (room - 1) as nat);
        assert forall|c: Ty| #[trigger] mec.has(c) implies db.subtype(t, c) by {
            lemma_minimal_of(db, ec, ec, c);
            if let List::Cons(h, rest) = types {
                let first = erased_set(st_of(db, *h), List::Nil);
                lemma_common_above(db, *rest, first, t, c);
                assert(db.subtype(*h, *h));
                lemma_super_above(db, *h, *h, List::Nil, db.limit() as nat);
                lemma_erased_above(db, *h, st_of(db, *h), List::Nil);
            }
        }
        assert(all_above(db, t, mec));
        assert(db.subtype(t, meet(mec)));
    }
}

proof fn lemma_all_are_one(l: List<Ty>, x: Ty, t: Ty)
    requires
        all_are(l, x),
        l.has(t),
    ensures
        t == x,
    decreases l,
{
    if let List::Cons(h, rest) = l {
        if *h != t {
            lemma_all_are_one(*rest, x, t);
        }
    }
}

proof fn lemma_boxed_has(l: List<Ty>, t: Ty)
    requires
        l.has(t),
        !(t is Primitive),
    ensures
        all_boxed(l).has(t),
    decreases l,
{
    if let List::Cons(h, rest) = l {
        if *h != t {
            lemma_boxed_has(*rest, t);
        }
    }
}

proof fn lemma_non_null_has(l: List<Ty>, t: Ty)
    requires
        l.has(t),
        !(t is Null),
    ensures
        non_null(l).has(t),
    decreases l,
{
    if let List::Cons(h, rest) = l {
        if *h != t {
            lemma_non_null_has(*rest, t);
        }
    }
}

/// Where no class has type parameters, the least upper bound of references is
/// an upper bound: a supertype of each of them.
pub proof fn law_lub_is_an_upper_bound<D: TyDatabase>(db: &D, types: List<Ty>, t: Ty)
    requires
        plain_order(db),
        types.has(t),
        !(t is Primitive),
        !(t is Null),
    ensures
        db.subtype(t, lub(db, types)),
{
    assert(db.subtype(t, t));
    if let List::Cons(first, rest) = types {
        if all_are(*rest, *first) {
            if *first != t {
                lemma_all_are_one(*rest, *first, t);
            }
        } else if types.has(Ty::Null) {
            lemma_non_null_has(types, t);
            let proper = non_null(types);
            if let List::Cons(h, more) = proper {
                if all_are(*more, *h) {
                    if *h != t {
                        lemma_all_are_one(*more, *h, t);
                    }
                } else {
                    lemma_boxed_has(proper, t);
                    lemma_lub_set_above(db, all_boxed(proper), List::Nil, LUB_DEPTH as nat, t);
                }
            }
        } else {
            lemma_boxed_has(types, t);
            lemma_lub_set_above(db, all_boxed(types), List::Nil, LUB_DEPTH as nat, t);
        }
    }
}

/// The types that a least upper bound is made of: without the null type, and
/// boxed.
pub open spec fn considered(types: List<Ty>) -> List<Ty> {
    all_boxed(non_null(types))
}

/// Whether a class with type parameters goes by its name.
pub open spec fn by_name<D: TyDatabase>(db: &D, t: Ty) -> bool {
    generic(db, t) ==> match t {
        Ty::Reference { name: _, args: _, local } => local is None,
        _ => true,
    }
}

/// Whether the classes with type parameters among the erased supertypes go by
/// their names.
pub open spec fn supers_by_name<D: TyDatabase>(db: &D, types: List<Ty>) -> bool {
    forall|t: Ty, x: Ty|
        types.has(t) && #[trigger] st_of(db, t).has(x) ==> by_name(db, x.erased())
}

/// Whether a type is among the erased supertypes of each of the types.
pub open spec fn common_super<D: TyDatabase>(db: &D, types: List<Ty>, c: Ty) -> bool {
    forall|t: Ty| #[trigger] types.has(t) ==> erased_set(st_of(db, t), List::Nil).has(c)
}

/// Whether no two of the common erased supertypes are below each other.
pub open spec fn ordered_supers<D: TyDatabase>(db: &D, types: List<Ty>) -> bool {
    forall|c: Ty, d: Ty| #[trigger]
        common_super(db, types, c) && #[trigger] common_super(db, types, d) && db.subtype(c, d)
            && db.subtype(d, c) ==> c == d
}

proof fn lemma_no_intersection(t: Ty)
    ensures
        !(t.erased() is Intersection),
    decreases t,
{
    match t {
        Ty::TypeVar { scope: _, bounds, lower: _ } => {
            if let List::Cons(h, _) = *bounds {
                lemma_no_intersection(*h);
            }
        },
        Ty::Wildcard(WildcardBound::Upper(u)) => {
            lemma_no_intersection(*u);
        },
        Ty::Intersection(l) => {
            if let List::Cons(h, _) = *l {
                lemma_no_intersection(*h);
            }
        },
        _ => {},
    }
}

/// Whether every type of the list is an erasure, and goes by its name where it
/// has type parameters.
pub open spec fn all_erasures<D: TyDatabase>(db: &D, l: List<Ty>) -> bool {
    forall|c: Ty| #[trigger]
        l.has(c) ==> c.erased() == c && !(c is Intersection) && by_name(db, c)
}

proof fn lemma_erasures<D: TyDatabase>(db: &D, l: List<Ty>, acc: List<Ty>)
    requires
        all_erasures(db, acc),
        forall|x: Ty| #[trigger] l.has(x) ==> by_name(db, x.erased()),
    ensures
        all_erasures(db, erased_set(l, acc)),
    decreases l,
{
    if let List::Cons(h, t) = l {
        assert(l.has(*h));
        law_erasure_is_idempotent(*h);
        lemma_no_intersection(*h);
        let next = set_add(acc, h.erased());
        assert forall|c: Ty| #[trigger] next.has(c) implies c.erased() == c && !(c is Intersection)
            && by_name(db, c) by {
            lemma_with_has(acc, h.erased(), c);
        }
        assert forall|x: Ty| #[trigger] t.has(x) implies by_name(db, x.erased()) by {
            assert(l.has(x));
        }
        lemma_erasures(db, *t, next);
    }
}

proof fn lemma_common_has<D: TyDatabase>(db: &D, types: List<Ty>, ec: List<Ty>, c: Ty)
    ensures
        common(ec, st_each(db, types)).has(c) <==> ec.has(c) && common_super(db, types, c),
    decreases types,
{
    if let List::Cons(h, rest) = types {
        let erased = erased_set(st_of(db, *h), List::Nil);
        lemma_common_has(db, *rest, kept(ec, erased), c);
        lemma_kept_has(ec, erased, c);
        if common_super(db, types, c) {
            assert(types.has(*h));
            assert forall|t: Ty| #[trigger] rest.has(t) implies erased_set(
                st_of(db, t),
                List::Nil,
            ).has(c) by {
                assert(types.has(t));
            }
        }
        if erased.has(c) && common_super(db, *rest, c) {
            assert forall|t: Ty| #[trigger] types.has(t) implies erased_set(
                st_of(db, t),
                List::Nil,
            ).has(c) by {
                if t != *h {
                    assert(rest.has(t));
                }
            }
        }
    }
}

proof fn lemma_candidates_has<D: TyDatabase>(db: &D, types: List<Ty>, c: Ty)
    requires
        types is Cons,
    ensures
        erased_candidates(st_each(db, types)).has(c) <==> common_super(db, types, c),
{
    if let List::Cons(h, rest) = types {
        let first = erased_set(st_of(db, *h), List::Nil);
        lemma_common_has(db, *rest, first, c);
        if common_super(db, types, c) {
            assert(types.has(*h));
            assert forall|t: Ty| #[trigger] rest.has(t) implies erased_set(
                st_of(db, t),
                List::Nil,
            ).has(c) by {
                assert(types.has(t));
            }
        }
        if first.has(c) && common_super(db, *rest, c) {
            assert forall|t: Ty| #[trigger] types.has(t) implies erased_set(
                st_of(db, t),
                List::Nil,
            ).has(c) by {
                if t != *h {
                    assert(rest.has(t));
                }
            }
        }
    }
}

/// Every common erased supertype is a supertype, an erasure, and goes by its
/// name where it has type parameters.
proof fn lemma_common_super<D: TyDatabase>(db: &D, types: List<Ty>, t: Ty, c: Ty)
    requires
        class_order(db),
        supers_by_name(db, types),
        types.has(t),
        common_super(db, types, c),
    ensures
        db.subtype(t, c),
        c.erased() == c,
        !(c is Intersection),
        by_name(db, c),
{
    let set = st_of(db, t);
    assert(db.subtype(t, t));
    lemma_super_above(db, t, t, List::Nil, db.limit() as nat);
    lemma_erased_above(db, t, set, List::Nil);
    assert forall|x: Ty| #[trigger] set.has(x) implies by_name(db, x.erased()) by {}
    lemma_erasures(db, set, List::Nil);
    assert(erased_set(set, List::Nil).has(c));
}

proof fn lemma_union_has(a: List<Ty>, b: List<Ty>, x: Ty)
    ensures
        set_union(a, b).has(x) ==> a.has(x) || b.has(x),
    decreases b,
{
    if let List::Cons(h, t) = b {
        lemma_union_has(set_add(a, *h), *t, x);
        lemma_with_has(a, *h, x);
    }
}

proof fn lemma_union_by_name<D: TyDatabase>(db: &D, types: List<Ty>, acc: List<Ty>)
    requires
        supers_by_name(db, types),
        forall|x: Ty| #[trigger] acc.has(x) ==> by_name(db, x.erased()),
    ensures
        forall|x: Ty| #[trigger]
            union_all(st_each(db, types), acc).has(x) ==> by_name(db, x.erased()),
    decreases types,
{
    if let List::Cons(h, rest) = types {
        let next = set_union(acc, st_of(db, *h));
        assert(types.has(*h));
        assert forall|x: Ty| #[trigger] next.has(x) implies by_name(db, x.erased()) by {
            lemma_union_has(acc, st_of(db, *h), x);
        }
        assert forall|t: Ty, x: Ty| rest.has(t) && #[trigger] st_of(db, t).has(x) implies by_name(
            db,
            x.erased(),
        ) by {
            assert(types.has(t));
        }
        lemma_union_by_name(db, *rest, next);
    }
}

/// Whether a type is a class of this name without a declaration of its own.
pub open spec fn is_called(t: Ty, name: Name) -> bool {
    match t {
        Ty::Reference { name: n, args: _, local } => n == name && local is None,
        _ => false,
    }
}

proof fn lemma_parameterizations<D: TyDatabase>(db: &D, all: List<Ty>, c: Ty, name: Name)
    requires
        c is Reference,
        c->name == name,
        generic(db, c),
        forall|x: Ty| #[trigger] all.has(x) ==> by_name(db, x.erased()),
    ensures
        forall|x: Ty| #[trigger] parameterizations(all, name).has(x) ==> is_called(x, name),
    decreases all,
{
    if let List::Cons(h, t) = all {
        assert(all.has(*h));
        assert forall|x: Ty| #[trigger] t.has(x) implies by_name(db, x.erased()) by {
            assert(all.has(x));
        }
        lemma_parameterizations(db, *t, c, name);
        assert forall|x: Ty| #[trigger] parameterizations(all, name).has(x) implies is_called(
            x,
            name,
        ) by {
            if !parameterizations(*t, name).has(x) {
                assert(x == *h);
                assert(generic(db, h.erased()));
            }
        }
    }
}

proof fn lemma_lcp_called<D: TyDatabase>(
    db: &D,
    acc: Ty,
    others: List<Ty>,
    guard: List<List<Ty>>,
    room: nat,
    name: Name,
)
    requires
        is_called(acc, name),
        forall|x: Ty| #[trigger] others.has(x) ==> is_called(x, name),
    ensures
        is_called(lcp(db, acc, others, guard, room), name),
    decreases others,
{
    reveal_with_fuel(lcp, 2);
    if let List::Cons(h, t) = others {
        assert(others.has(*h));
        let next = lcp_of_pair(db, acc, *h, guard, room);
        assert(is_called(next, name));
        assert forall|x: Ty| #[trigger] t.has(x) implies is_called(x, name) by {
            assert(others.has(x));
        }
        lemma_lcp_called(db, next, *t, guard, room, name);
        assert(lcp(db, acc, others, guard, room) == lcp(db, next, *t, guard, room));
    }
}

/// A candidate with its type arguments recovered erases to the candidate.
proof fn lemma_best_erases<D: TyDatabase>(
    db: &D,
    c: Ty,
    all: List<Ty>,
    guard: List<List<Ty>>,
    room: nat,
)
    requires
        c.erased() == c,
        !(c is Intersection),
        by_name(db, c),
        forall|x: Ty| #[trigger] all.has(x) ==> by_name(db, x.erased()),
    ensures
        best_of(db, c, all, guard, room).erased() == c,
        !(best_of(db, c, all, guard, room) is Intersection),
{
    let best = best_of(db, c, all, guard, room);
    if generic(db, c) {
        if let Ty::Reference { name, args: _, local: _ } = c {
            let found = parameterizations(all, name);
            if let List::Cons(h, t) = found {
                lemma_parameterizations(db, all, c, name);
                assert(found.has(*h));
                assert forall|x: Ty| #[trigger] t.has(x) implies is_called(x, name) by {
                    assert(found.has(x));
                }
                lemma_lcp_called(db, *h, *t, guard, room, name);
                assert(best == lcp(db, *h, *t, guard, room));
            } else {
                assert(best == c);
            }
        }
    } else {
        assert(best == c);
    }
}

proof fn lemma_best_all<D: TyDatabase>(
    db: &D,
    mec: List<Ty>,
    all: List<Ty>,
    guard: List<List<Ty>>,
    room: nat,
)
    requires
        all_erasures(db, mec),
        forall|x: Ty| #[trigger] all.has(x) ==> by_name(db, x.erased()),
    ensures
        forall|b: Ty| #[trigger]
            best_all(db, mec, all, guard, room).has(b) ==> mec.has(b.erased()) && !(
            b is Intersection),
        forall|c: Ty| #[trigger]
            mec.has(c) ==> best_all(db, mec, all, guard, room).has(
                best_of(db, c, all, guard, room),
            ),
    decreases mec,
{
    if let List::Cons(h, t) = mec {
        assert(mec.has(*h));
        assert forall|c: Ty| #[trigger] t.has(c) implies c.erased() == c && !(c is Intersection)
            && by_name(db, c) by {
            assert(mec.has(c));
        }
        lemma_best_all(db, *t, all, guard, room);
        lemma_best_erases(db, *h, all, guard, room);
        let best = best_of(db, *h, all, guard, room);
        let rest = best_all(db, *t, all, guard, room);
        let bests = best_all(db, mec, all, guard, room);
        assert(bests == List::Cons(Box::new(best), Box::new(rest)));
        assert forall|b: Ty| #[trigger] bests.has(b) implies mec.has(b.erased()) && !(
        b is Intersection) by {
            if b != best {
                assert(rest.has(b));
            }
        }
        assert forall|c: Ty| #[trigger] mec.has(c) implies bests.has(
            best_of(db, c, all, guard, room),
        ) by {
            if c != *h {
                assert(t.has(c));
            }
        }
    }
}

/// How many of the list are below `c`, other than itself.
pub open spec fn below<D: TyDatabase>(db: &D, c: Ty, l: List<Ty>) -> nat
    decreases l,
{
    match l {
        List::Nil => 0,
        List::Cons(h, t) => below(db, c, *t) + (if *h != c && db.subtype(*h, c) {
            1nat
        } else {
            0nat
        }),
    }
}

proof fn lemma_fewer_below<D: TyDatabase>(db: &D, h: Ty, c: Ty, l: List<Ty>)
    requires
        class_order(db),
        db.subtype(h, c),
        !db.subtype(c, h),
    ensures
        below(db, h, l) <= below(db, c, l),
        l.has(h) ==> below(db, h, l) < below(db, c, l),
    decreases l,
{
    assert(db.subtype(c, c));
    if let List::Cons(x, t) = l {
        lemma_fewer_below(db, h, c, *t);
        if db.subtype(*x, h) {
            assert(db.subtype(*x, c));
        }
    }
}

proof fn lemma_not_minimal<D: TyDatabase>(db: &D, c: Ty, l: List<Ty>) -> (h: Ty)
    requires
        !minimal(db, c, l),
    ensures
        l.has(h),
        h != c,
        db.subtype(h, c),
    decreases l,
{
    match l {
        List::Nil => c,
        List::Cons(x, t) => if *x != c && db.subtype(*x, c) {
            *x
        } else {
            lemma_not_minimal(db, c, *t)
        },
    }
}

proof fn lemma_minimal_stays<D: TyDatabase>(db: &D, ec: List<Ty>, all: List<Ty>, c: Ty)
    requires
        ec.has(c),
        minimal(db, c, all),
    ensures
        minimal_of(db, ec, all).has(c),
    decreases ec,
{
    if let List::Cons(h, t) = ec {
        if *h != c {
            lemma_minimal_stays(db, *t, all, c);
        }
    }
}

/// Below every candidate there is a minimal one.
proof fn lemma_minimal_below<D: TyDatabase>(db: &D, ec: List<Ty>, c: Ty) -> (m: Ty)
    requires
        class_order(db),
        ec.has(c),
        forall|a: Ty, b: Ty| #[trigger]
            ec.has(a) && #[trigger] ec.has(b) && db.subtype(a, b) && db.subtype(b, a) ==> a == b,
    ensures
        minimal_of(db, ec, ec).has(m),
        db.subtype(m, c),
    decreases below(db, c, ec),
{
    if minimal(db, c, ec) {
        lemma_minimal_stays(db, ec, ec, c);
        assert(db.subtype(c, c));
        c
    } else {
        let h = lemma_not_minimal(db, c, ec);
        lemma_fewer_below(db, h, c, ec);
        let m = lemma_minimal_below(db, ec, h);
        assert(db.subtype(m, h) && db.subtype(h, c));
        m
    }
}

/// Each type of the set is below the erasure of every component of the bound.
/// Where no two common erased supertypes are below each other, each of these
/// lies above one of the components.
pub proof fn law_bound_of_set<D: TyDatabase>(
    db: &D,
    types: List<Ty>,
    guard: List<List<Ty>>,
    room: nat,
)
    requires
        class_order(db),
        supers_by_name(db, types),
        types is Cons,
        room > 0,
        !guards(guard, types),
    ensures
        forall|t: Ty, m: Ty| #[trigger]
            types.has(t) && #[trigger] components(lub_set(db, types, guard, room)).has(m)
                ==> db.subtype(t, m.erased()),
        ordered_supers(db, types) ==> forall|c: Ty| #[trigger]
            common_super(db, types, c) ==> exists|m: Ty| #[trigger]
                components(lub_set(db, types, guard, room)).has(m) && db.subtype(m, c),
{
    let inner = List::Cons(Box::new(types), Box::new(guard));
    let less = (room - 1) as nat;
    let bound = lub_set(db, types, guard, room);
    let sets = st_each(db, types);
    let ec = erased_candidates(sets);
    let mec = minimal_of(db, ec, ec);
    let all = union_all(sets, List::Nil);
    let best = best_all(db, mec, all, inner, less);
    let first = types->Cons_0;
    assert(types.has(*first));
    assert(bound == lub_impl(db, types, inner, less));
    assert(ec is Nil ==> bound == class_of(Name::Object));
    assert(!(ec is Nil) ==> bound == meet(best));
    assert forall|c: Ty| #[trigger] ec.has(c) implies common_super(db, types, c) by {
        lemma_candidates_has(db, types, c);
    }
    assert forall|c: Ty| #[trigger] mec.has(c) implies common_super(db, types, c) && c.erased() == c
        && !(c is Intersection) && by_name(db, c) by {
        lemma_minimal_of(db, ec, ec, c);
        lemma_common_super(db, types, *first, c);
    }
    lemma_union_by_name(db, types, List::Nil);
    lemma_best_all(db, mec, all, inner, less);
    assert forall|t: Ty, m: Ty| #[trigger]
        types.has(t) && #[trigger] components(bound).has(m) implies db.subtype(t, m.erased()) by {
        reveal_with_fuel(List::has, 2);
        if let List::Cons(b, _) = best {
            assert(best.has(*b));
        }
        if best.has(m) {
            lemma_common_super(db, types, t, m.erased());
        } else {
            assert(m == class_of(Name::Object));
            assert(db.subtype(t, class_of(Name::Object)));
        }
    }
    assert forall|c: Ty| ordered_supers(db, types) && #[trigger] common_super(
        db,
        types,
        c,
    ) implies exists|m: Ty| #[trigger] components(bound).has(m) && db.subtype(m, c) by {
        lemma_candidates_has(db, types, c);
        let least = lemma_minimal_below(db, ec, c);
        let m = best_of(db, least, all, inner, less);
        assert(mec.has(least));
        assert(best.has(m));
        lemma_best_erases(db, least, all, inner, less);
        assert(db.subtype(m, m.erased()));
        assert(components(bound).has(m)) by {
            reveal_with_fuel(List::has, 2);
        }
    }
}

proof fn lemma_without_null(l: List<Ty>)
    requires
        !l.has(Ty::Null),
    ensures
        non_null(l) == l,
    decreases l,
{
    if let List::Cons(h, t) = l {
        lemma_without_null(*t);
    }
}

proof fn lemma_components_below<D: TyDatabase>(db: &D, t: Ty, m: Ty)
    requires
        class_order(db),
        components(t).has(m),
    ensures
        db.subtype(t, m),
        db.subtype(t, m.erased()),
{
    assert(db.subtype(m, m.erased()));
}

/// The least upper bound of references is an upper bound up to erasure: each of
/// them is a subtype of the erasure of every type of the bound.
pub proof fn law_lub_is_above_up_to_erasure<D: TyDatabase>(
    db: &D,
    types: List<Ty>,
    t: Ty,
    m: Ty,
)
    requires
        class_order(db),
        supers_by_name(db, considered(types)),
        types.has(t),
        !(t is Primitive),
        !(t is Null),
        components(lub(db, types)).has(m),
    ensures
        db.subtype(t, m.erased()),
{
    if let List::Cons(first, rest) = types {
        let proper = non_null(types);
        lemma_non_null_has(types, t);
        lemma_boxed_has(proper, t);
        if !types.has(Ty::Null) {
            lemma_without_null(types);
        }
        if all_are(*rest, *first) {
            if *first != t {
                lemma_all_are_one(*rest, *first, t);
            }
            lemma_components_below(db, t, m);
        } else if let List::Cons(h, more) = proper {
            if types.has(Ty::Null) && all_are(*more, *h) {
                if *h != t {
                    lemma_all_are_one(*more, *h, t);
                }
                lemma_components_below(db, t, m);
            } else {
                law_bound_of_set(db, considered(types), List::Nil, LUB_DEPTH as nat);
            }
        }
    }
}

/// The least upper bound is least among the erased classes: it is a subtype of
/// every class that the erased supertypes of all the types have in common.
pub proof fn law_lub_is_least<D: TyDatabase>(db: &D, types: List<Ty>, c: Ty)
    requires
        class_order(db),
        supers_by_name(db, considered(types)),
        ordered_supers(db, considered(types)),
        considered(types) is Cons,
        !(lub(db, types) is Primitive),
        common_super(db, considered(types), c),
    ensures
        db.subtype(lub(db, types), c),
{
    let bound = lub(db, types);
    if let List::Cons(first, rest) = types {
        let proper = non_null(types);
        if !types.has(Ty::Null) {
            lemma_without_null(types);
        }
        if all_are(*rest, *first) {
            if *first is Null {
                lemma_only_null(types);
            }
            lemma_non_null_has(types, *first);
            lemma_boxed_has(proper, *first);
            lemma_common_super(db, considered(types), *first, c);
        } else if let List::Cons(h, more) = proper {
            if types.has(Ty::Null) && all_are(*more, *h) {
                lemma_boxed_has(proper, *h);
                lemma_common_super(db, considered(types), *h, c);
            } else {
                law_bound_of_set(db, considered(types), List::Nil, LUB_DEPTH as nat);
                let m = choose|m: Ty| #[trigger] components(bound).has(m) && db.subtype(m, c);
                assert(db.subtype(bound, m) && db.subtype(m, c));
            }
        }
    }
}

proof fn lemma_only_null(types: List<Ty>)
    requires
        all_are(types, Ty::Null),
    ensures
        non_null(types) is Nil,
    decreases types,
{
    if let List::Cons(_, t) = types {
        lemma_only_null(*t);
    }
}

} // verus!
