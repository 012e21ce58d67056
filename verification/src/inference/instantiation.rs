//! The instantiation of a single inference variable from its bounds.
use crate::db::TyDatabase;
use crate::inference::lub::{all_boxed, box_all, least_upper_bound, lub};
use crate::list::{Data, List};
use crate::names::Name;
use crate::ty::{boxed, class_of, Ty};
use vstd::prelude::*;

verus! {

/// Whether an instantiation lies within an upper bound: two primitive types
/// relate only by identity, other types by assignment conversion.
pub open spec fn compatible<D: TyDatabase>(db: &D, inst: Ty, upper: Ty) -> bool {
    if inst is Primitive && upper is Primitive {
        inst == upper
    } else {
        db.subtype(inst, upper) || db.assignable(inst, upper)
    }
}

/// Whether an instantiation lies within an upper bound.
pub fn bounds_compatible<D: TyDatabase>(db: &D, inst: &Ty, upper: &Ty) -> (r: bool)
    ensures
        r == compatible(db, *inst, *upper),
{
    if inst.is_primitive() && upper.is_primitive() {
        inst.same(upper)
    } else {
        db.is_subtype(inst, upper) || db.is_assignable(inst, upper)
    }
}

/// Whether the instantiation lies within every upper bound.
pub open spec fn within_all<D: TyDatabase>(db: &D, inst: Ty, upper: List<Ty>) -> bool
    decreases upper,
{
    match upper {
        List::Nil => true,
        List::Cons(h, t) => compatible(db, inst, *h) && within_all(db, inst, *t),
    }
}

fn is_within_all<D: TyDatabase>(db: &D, inst: &Ty, upper: &List<Ty>) -> (r: bool)
    ensures
        r == within_all(db, *inst, *upper),
    decreases upper,
{
    match upper {
        List::Nil => true,
        List::Cons(h, t) => {
            let head = bounds_compatible(db, inst, h);
            let tail = is_within_all(db, inst, t);
            head && tail
        },
    }
}

/// Whether an equality bound lies within the upper bounds, as far as both are
/// free of inference variables.
pub open spec fn equality_within<D: TyDatabase>(db: &D, eq: Ty, upper: List<Ty>) -> bool
    decreases upper,
{
    match upper {
        List::Nil => true,
        List::Cons(h, t) => (eq.has_infer_var() || h.has_infer_var() || compatible(db, eq, *h))
            && equality_within(db, eq, *t),
    }
}

fn is_equality_within<D: TyDatabase>(db: &D, eq: &Ty, upper: &List<Ty>) -> (r: bool)
    ensures
        r == equality_within(db, *eq, *upper),
    decreases upper,
{
    match upper {
        List::Nil => true,
        List::Cons(h, t) => {
            let head = eq.contains_infer_var() || h.contains_infer_var() || bounds_compatible(
                db,
                eq,
                h,
            );
            let tail = is_equality_within(db, eq, t);
            head && tail
        },
    }
}

/// Whether one of the bounds is a class, interface or intersection type.
pub open spec fn some_reference(l: List<Ty>) -> bool
    decreases l,
{
    match l {
        List::Nil => false,
        List::Cons(h, t) => *h is Reference || *h is Intersection || some_reference(*t),
    }
}

fn has_reference(l: &List<Ty>) -> (r: bool)
    ensures
        r == some_reference(*l),
    decreases l,
{
    match l {
        List::Nil => false,
        List::Cons(h, t) => {
            let head = match &**h {
                Ty::Reference { name: _, args: _, local: _ } => true,
                Ty::Intersection(_) => true,
                _ => false,
            };
            head || has_reference(t)
        },
    }
}

/// Whether every bound is a supertype of `RuntimeException`.
pub open spec fn all_unchecked<D: TyDatabase>(db: &D, l: List<Ty>) -> bool
    decreases l,
{
    match l {
        List::Nil => true,
        List::Cons(h, t) => db.subtype(class_of(Name::RuntimeException), *h) && all_unchecked(
            db,
            *t,
        ),
    }
}

/// Whether a type is a supertype of `RuntimeException`.
fn is_exception_supertype<D: TyDatabase>(db: &D, ty: &Ty) -> (r: bool)
    ensures
        r == db.subtype(class_of(Name::RuntimeException), *ty),
{
    let runtime = Ty::class(Name::RuntimeException);
    db.is_subtype(&runtime, ty)
}

fn are_all_unchecked<D: TyDatabase>(db: &D, l: &List<Ty>) -> (r: bool)
    ensures
        r == all_unchecked(db, *l),
    decreases l,
{
    match l {
        List::Nil => true,
        List::Cons(h, t) => {
            let head = is_exception_supertype(db, h);
            let tail = are_all_unchecked(db, t);
            head && tail
        },
    }
}

/// Whether another of the bounds, free of inference variables, is a subtype
/// of `u`.
pub open spec fn redundant<D: TyDatabase>(db: &D, u: Ty, all: List<Ty>) -> bool
    decreases all,
{
    match all {
        List::Nil => false,
        List::Cons(v, t) => (*v != u && !v.has_infer_var() && db.subtype(*v, u)) || redundant(
            db,
            u,
            *t,
        ),
    }
}

fn is_redundant<D: TyDatabase>(db: &D, u: &Ty, all: &List<Ty>) -> (r: bool)
    ensures
        r == redundant(db, *u, *all),
    decreases all,
{
    match all {
        List::Nil => false,
        List::Cons(h, t) => {
            let head = !h.same(u) && !h.contains_infer_var() && db.is_subtype(h, u);
            head || is_redundant(db, u, t)
        },
    }
}

/// The bounds that no other bound makes redundant.
pub open spec fn specific<D: TyDatabase>(db: &D, l: List<Ty>, all: List<Ty>) -> List<Ty>
    decreases l,
{
    match l {
        List::Nil => List::Nil,
        List::Cons(h, t) => if redundant(db, *h, all) {
            specific(db, *t, all)
        } else {
            List::Cons(h, Box::new(specific(db, *t, all)))
        },
    }
}

fn specific_bounds<D: TyDatabase>(db: &D, l: &List<Ty>, all: &List<Ty>) -> (r: List<Ty>)
    ensures
        r == specific(db, *l, *all),
    decreases l,
{
    match l {
        List::Nil => List::Nil,
        List::Cons(h, t) => if is_redundant(db, h, all) {
            specific_bounds(db, t, all)
        } else {
            List::cons(h.copy(), specific_bounds(db, t, all))
        },
    }
}

/// The least upper bound of the lower bounds, boxed where a primitive type
/// meets an upper bound that is a reference type.
pub open spec fn from_lower<D: TyDatabase>(db: &D, lower: List<Ty>, upper: List<Ty>) -> Ty {
    let inst = lub(db, lower);
    if inst is Primitive && some_reference(upper) {
        boxed(inst)
    } else {
        inst
    }
}

/// The least upper bound of the upper bounds that are not redundant.
pub open spec fn from_upper<D: TyDatabase>(db: &D, upper: List<Ty>) -> Ty {
    let all = all_boxed(upper);
    match specific(db, all, all) {
        List::Nil => lub(db, all),
        l => lub(db, l),
    }
}

/// The instantiation of a variable: its equality bound; else the least upper
/// bound of its lower bounds; else `RuntimeException` for a thrown variable
/// whose bounds admit it; else the least upper bound of its upper bounds; else
/// `Object`. None where an upper bound does not admit it.
pub open spec fn instantiation<D: TyDatabase>(
    db: &D,
    lower: List<Ty>,
    upper: List<Ty>,
    equality: Option<Ty>,
    throws: bool,
) -> Option<Ty> {
    match equality {
        Some(eq) => if equality_within(db, eq, upper) {
            Some(eq)
        } else {
            None
        },
        None => if !(lower is Nil) {
            let inst = from_lower(db, lower, upper);
            if within_all(db, inst, upper) {
                Some(inst)
            } else {
                None
            }
        } else if throws && all_unchecked(db, upper) {
            Some(class_of(Name::RuntimeException))
        } else if !(upper is Nil) {
            Some(from_upper(db, upper))
        } else {
            Some(class_of(Name::Object))
        },
    }
}

/// The instantiation of one inference variable from its bounds.
pub fn pick_instantiation<D: TyDatabase>(
    db: &D,
    lower: &List<Ty>,
    upper: &List<Ty>,
    equality: Option<Ty>,
    throws: bool,
) -> (r: Option<Ty>)
    ensures
        r == instantiation(db, *lower, *upper, equality, throws),
{
    if let Some(eq) = equality {
        return if is_equality_within(db, &eq, upper) {
            Some(eq)
        } else {
            None
        };
    }
    if !lower.is_empty() {
        let mut inst = least_upper_bound(db, lower);
        if inst.is_primitive() && has_reference(upper) {
            inst = inst.box_primitive();
        }
        return if is_within_all(db, &inst, upper) {
            Some(inst)
        } else {
            None
        };
    }
    if throws && are_all_unchecked(db, upper) {
        return Some(Ty::class(Name::RuntimeException));
    }
    if !upper.is_empty() {
        let all = box_all(upper);
        let bounds = specific_bounds(db, &all, &all);
        return if bounds.is_empty() {
            Some(least_upper_bound(db, &all))
        } else {
            Some(least_upper_bound(db, &bounds))
        };
    }
    Some(Ty::class(Name::Object))
}

/// An instantiation keeps to the bounds: it is the equality bound where there
/// is one, and what the lower bounds give lies within every upper bound. Only
/// those two can fail.
pub proof fn law_instantiation_keeps_bounds<D: TyDatabase>(
    db: &D,
    lower: List<Ty>,
    upper: List<Ty>,
    equality: Option<Ty>,
    throws: bool,
)
    ensures
        match instantiation(db, lower, upper, equality, throws) {
            Some(t) => match equality {
                Some(eq) => t == eq,
                None => lower is Nil || within_all(db, t, upper),
            },
            None => equality is Some || !(lower is Nil),
        },
{
}

} // verus!
