//! Constraint reduction: a constraint becomes bounds of variables, further
//! constraints, or a verdict.
use crate::db::TyDatabase;
use crate::inference::{
    bounds_entry, entry, put, put_bounds, Bounds, Constraint, Inference, InvocationPhase,
};
use crate::list::{Data, List};
use crate::names::Name;
use crate::ty::{boxed, class_of, Ty, WildcardBound};
use vstd::prelude::*;

verus! {

/// Whether a proper type converts to another in the phase.
pub open spec fn converts<D: TyDatabase>(db: &D, phase: InvocationPhase, s: Ty, t: Ty) -> bool {
    match phase {
        InvocationPhase::Strict => db.strict(s, t),
        InvocationPhase::Loose => db.assignable(s, t),
    }
}

fn convertible<D: TyDatabase>(db: &D, phase: InvocationPhase, s: &Ty, t: &Ty) -> (r: bool)
    ensures
        r == converts(db, phase, *s, *t),
{
    match phase {
        InvocationPhase::Strict => db.strict_conversion(s, t),
        InvocationPhase::Loose => db.is_assignable(s, t),
    }
}

/// Whether one of the types is a wildcard.
pub open spec fn some_wildcard(l: List<Ty>) -> bool
    decreases l,
{
    match l {
        List::Nil => false,
        List::Cons(h, t) => *h is Wildcard || some_wildcard(*t),
    }
}

pub fn any_wildcard(l: &List<Ty>) -> (r: bool)
    ensures
        r == some_wildcard(*l),
    decreases l,
{
    match l {
        List::Nil => false,
        List::Cons(h, t) => h.is_wildcard() || any_wildcard(t),
    }
}

/// The constraints between type arguments at the same position. Arguments are
/// invariant, so they have to be equal; where `containment` holds, or the
/// first one is a wildcard, the second has to contain the first.
pub open spec fn arg_constraints(sa: List<Ty>, ta: List<Ty>, containment: bool) -> List<Constraint>
    decreases sa,
{
    match (sa, ta) {
        (List::Cons(s, st), List::Cons(t, tt)) => List::Cons(
            Box::new(
                if containment || *s is Wildcard {
                    Constraint::Sub(*s, *t)
                } else {
                    Constraint::Eq(*s, *t)
                },
            ),
            Box::new(arg_constraints(*st, *tt, containment)),
        ),
        _ => List::Nil,
    }
}

fn relate_args(sa: &List<Ty>, ta: &List<Ty>, containment: bool) -> (r: List<Constraint>)
    ensures
        r == arg_constraints(*sa, *ta, containment),
    decreases sa,
{
    match (sa, ta) {
        (List::Cons(s, st), List::Cons(t, tt)) => {
            let c = if containment || s.is_wildcard() {
                Constraint::Sub(s.copy(), t.copy())
            } else {
                Constraint::Eq(s.copy(), t.copy())
            };
            List::cons(c, relate_args(st, tt, containment))
        },
        _ => List::Nil,
    }
}

/// The constraints between the arguments of two equal types, one of which is a
/// wildcard, up to the first position where a wildcard meets a type that is
/// none; and whether there is no such position.
pub open spec fn eq_args(sa: List<Ty>, ta: List<Ty>) -> (List<Constraint>, bool)
    decreases sa,
{
    match (sa, ta) {
        (List::Cons(s, st), List::Cons(t, tt)) => if *t is Wildcard {
            let (rest, ok) = eq_args(*st, *tt);
            (List::Cons(Box::new(Constraint::Sub(*s, *t)), Box::new(rest)), ok)
        } else if *s is Wildcard {
            (List::Nil, false)
        } else {
            let (rest, ok) = eq_args(*st, *tt);
            (List::Cons(Box::new(Constraint::Eq(*s, *t)), Box::new(rest)), ok)
        },
        _ => (List::Nil, true),
    }
}

fn equate_args(sa: &List<Ty>, ta: &List<Ty>) -> (r: (List<Constraint>, bool))
    ensures
        r == eq_args(*sa, *ta),
    decreases sa,
{
    match (sa, ta) {
        (List::Cons(s, st), List::Cons(t, tt)) => if t.is_wildcard() {
            let (rest, ok) = equate_args(st, tt);
            (List::cons(Constraint::Sub(s.copy(), t.copy()), rest), ok)
        } else if s.is_wildcard() {
            (List::Nil, false)
        } else {
            let (rest, ok) = equate_args(st, tt);
            (List::cons(Constraint::Eq(s.copy(), t.copy()), rest), ok)
        },
        _ => (List::Nil, true),
    }
}

/// The state of the search for the parameterizations of a class among the
/// supertypes of a type.
pub struct Climb {
    /// The types whose supertypes are still to be visited.
    pub stack: List<Ty>,
    /// The supertypes met so far.
    pub visited: List<Ty>,
    /// The parameterizations found so far.
    pub found: List<Ty>,
}

/// The search having met the direct supertypes of one type.
pub open spec fn climb_parents(c: Climb, parents: List<Ty>, target: Name) -> Climb
    decreases parents,
{
    match parents {
        List::Nil => c,
        List::Cons(p, rest) => {
            let next = if c.visited.has(*p) {
                c
            } else {
                let visited = c.visited.with(*p);
                match *p {
                    Ty::Reference { name, args: _, local: _ } => if name == target {
                        Climb { visited, found: c.found.with(*p), ..c }
                    } else {
                        Climb { visited, stack: List::Cons(p, Box::new(c.stack)), ..c }
                    },
                    _ => Climb { visited, ..c },
                }
            };
            climb_parents(next, *rest, target)
        },
    }
}

/// The parameterizations of `target` that the search finds in at most `fuel`
/// steps.
pub open spec fn climb<D: TyDatabase>(db: &D, c: Climb, target: Name, fuel: nat) -> List<Ty>
    decreases fuel,
{
    match c.stack {
        List::Nil => c.found,
        List::Cons(top, rest) => if fuel == 0 {
            c.found
        } else {
            climb(
                db,
                climb_parents(Climb { stack: *rest, ..c }, db.parents(*top), target),
                target,
                (fuel - 1) as nat,
            )
        },
    }
}

/// The search from a type.
pub open spec fn climb_from(s: Ty) -> Climb {
    Climb {
        stack: List::Cons(Box::new(s), Box::new(List::Nil)),
        visited: List::Nil,
        found: List::Nil,
    }
}

/// The parameterizations of the class `target` among the supertypes of `s`.
pub open spec fn super_parameterizations<D: TyDatabase>(db: &D, s: Ty, target: Name) -> List<Ty> {
    climb(db, climb_from(s), target, db.limit() as nat)
}

fn meet_parents(c: Climb, parents: &List<Ty>, target: Name) -> (r: Climb)
    ensures
        r == climb_parents(c, *parents, target),
    decreases parents,
{
    match parents {
        List::Nil => c,
        List::Cons(p, rest) => {
            let next = if c.visited.contains(&**p) {
                c
            } else {
                let visited = c.visited.push(p.copy());
                match &**p {
                    Ty::Reference { name, args: _, local: _ } => if *name == target {
                        Climb { visited, found: c.found.push(p.copy()), stack: c.stack }
                    } else {
                        Climb { visited, stack: List::cons(p.copy(), c.stack), found: c.found }
                    },
                    _ => Climb { visited, stack: c.stack, found: c.found },
                }
            };
            meet_parents(next, rest, target)
        },
    }
}

/// The parameterizations of the class `target` among the supertypes of `s`.
pub fn find_parameterizations<D: TyDatabase>(db: &D, s: &Ty, target: Name) -> (r: List<Ty>)
    ensures
        r == super_parameterizations(db, *s, target),
{
    let mut state = Climb {
        stack: List::cons(s.copy(), List::Nil),
        visited: List::Nil,
        found: List::Nil,
    };
    let mut fuel: u64 = db.step_limit();
    let ghost whole = super_parameterizations(db, *s, target);
    loop
        invariant
            climb(db, state, target, fuel as nat) == whole,
        ensures
            state.found == whole,
        decreases fuel,
    {
        let Climb { stack, visited, found } = state;
        match stack {
            List::Nil => {
                state = Climb { stack: List::Nil, visited, found };
                break;
            },
            List::Cons(top, rest) => {
                if fuel == 0 {
                    state = Climb { stack: List::Nil, visited, found };
                    break;
                }
                let parents = db.supertypes(&*top);
                state = meet_parents(Climb { stack: *rest, visited, found }, &parents, target);
                fuel = fuel - 1;
            },
        }
    }
    state.found
}

/// A constraint for each of the types.
pub open spec fn each_sub(l: List<Ty>, t: Ty) -> List<Constraint>
    decreases l,
{
    match l {
        List::Nil => List::Nil,
        List::Cons(h, rest) => List::Cons(
            Box::new(Constraint::Sub(*h, t)),
            Box::new(each_sub(*rest, t)),
        ),
    }
}

fn sub_each(l: &List<Ty>, t: &Ty) -> (r: List<Constraint>)
    ensures
        r == each_sub(*l, *t),
    decreases l,
{
    match l {
        List::Nil => List::Nil,
        List::Cons(h, rest) => List::cons(
            Constraint::Sub(h.copy(), t.copy()),
            sub_each(rest, t),
        ),
    }
}

/// Whether a class is one of the supertypes that every array type has.
pub open spec fn array_supertype(name: Name) -> bool {
    name == Name::Object || name == Name::Cloneable || name == Name::Serializable
}

pub fn is_array_supertype(name: Name) -> (r: bool)
    ensures
        r == array_supertype(name),
{
    name == Name::Object || name == Name::Cloneable || name == Name::Serializable
}

impl Inference {
    /// The table with the constraints added to those to be reduced.
    pub open spec fn plus_work(self, l: List<Constraint>) -> Inference {
        Inference { worklist: self.worklist.plus(l), ..self }
    }

    /// The containment of a type argument in a wildcard: the reduced table,
    /// and whether the constraint can hold.
    pub open spec fn contain(self, s: Ty, t: Ty) -> (Inference, bool) {
        let object = class_of(Name::Object);
        match t {
            Ty::Wildcard(WildcardBound::Unbounded) => (self, true),
            Ty::Wildcard(WildcardBound::Upper(tb)) => match s {
                Ty::Wildcard(WildcardBound::Unbounded) => (
                    self.plus_constraint(Constraint::Sub(object, *tb)),
                    true,
                ),
                Ty::Wildcard(WildcardBound::Upper(sb)) => (
                    self.plus_constraint(Constraint::Sub(*sb, *tb)),
                    true,
                ),
                Ty::Wildcard(WildcardBound::Lower(_)) => (
                    self.plus_constraint(Constraint::Eq(object, *tb)),
                    true,
                ),
                _ => (self.plus_constraint(Constraint::Sub(s, *tb)), true),
            },
            Ty::Wildcard(WildcardBound::Lower(tb)) => match s {
                Ty::Wildcard(WildcardBound::Lower(sb)) => (
                    self.plus_constraint(Constraint::Sub(*tb, *sb)),
                    true,
                ),
                Ty::Wildcard(_) => (self, false),
                _ => (self.plus_constraint(Constraint::Sub(*tb, s)), true),
            },
            _ => (self, false),
        }
    }

    /// The reduction of a compatibility constraint between class types of the
    /// same class.
    pub open spec fn sub_same_class(
        self,
        phase: InvocationPhase,
        sa: List<Ty>,
        ta: List<Ty>,
    ) -> (Inference, bool) {
        if ta is Nil {
            (self, true)
        } else if sa is Nil {
            (self, phase is Loose)
        } else if sa.count() != ta.count() {
            (self, false)
        } else {
            (self.plus_work(arg_constraints(sa, ta, some_wildcard(ta))), true)
        }
    }

    /// The reduction of a compatibility constraint whose source is no
    /// wildcard.
    pub open spec fn sub_core<D: TyDatabase>(
        self,
        db: &D,
        phase: InvocationPhase,
        s: Ty,
        t: Ty,
    ) -> (Inference, bool) {
        if s.alike(t) {
            (self, true)
        } else if t is InferenceVar {
            (
                self.plus_lower(
                    t->InferenceVar_0,
                    if phase is Loose {
                        boxed(s)
                    } else {
                        s
                    },
                ),
                true,
            )
        } else if s is InferenceVar {
            if t is Wildcard {
                self.contain(s, t)
            } else {
                (self.plus_upper(s->InferenceVar_0, t), true)
            }
        } else if s is Null {
            (self, t is Reference || t is Array || t is TypeVar || t is Intersection)
        } else {
            match (s, t) {
                (Ty::Array(si), Ty::Array(ti)) => if *si is Primitive && *ti is Primitive {
                    (self, *si == *ti)
                } else {
                    (self.plus_constraint(Constraint::Sub(*si, *ti)), true)
                },
                (
                    Ty::Reference { name: sn, args: sa, local: _ },
                    Ty::Reference { name: tn, args: ta, local: _ },
                ) => if sn == tn {
                    self.sub_same_class(phase, *sa, *ta)
                } else if !s.has_infer_var() && !t.has_infer_var() {
                    (self, converts(db, phase, s, t))
                } else {
                    let found = super_parameterizations(db, s, tn);
                    (self.plus_work(each_sub(found, t)), !(found is Nil))
                },
                (_, Ty::Wildcard(_)) => self.contain(s, t),
                _ => if t is Reference && s is Array && array_supertype(t->Reference_name) {
                    (self, true)
                } else if !s.has_infer_var() && !t.has_infer_var() {
                    (self, converts(db, phase, s, t))
                } else {
                    (self, false)
                },
            }
        }
    }

    /// The reduction of a compatibility constraint. A wildcard on the source
    /// side stands for the least type it can be.
    pub open spec fn sub_reduced<D: TyDatabase>(
        self,
        db: &D,
        phase: InvocationPhase,
        s: Ty,
        t: Ty,
    ) -> (Inference, bool)
        decreases s,
    {
        match s {
            Ty::Wildcard(b) => if s.alike(t) {
                (self, true)
            } else {
                match b {
                    WildcardBound::Unbounded => self.sub_core(db, phase, class_of(Name::Object), t),
                    WildcardBound::Upper(m) => self.sub_reduced(db, phase, *m, t),
                    WildcardBound::Lower(m) => self.sub_reduced(db, phase, *m, t),
                }
            },
            _ => self.sub_core(db, phase, s, t),
        }
    }

    /// The reduction of `id = t`: it becomes the equality bound, or is related
    /// to the one that is there.
    pub open spec fn equate(self, id: u64, t: Ty) -> Inference {
        let e = entry(self.bounds, id);
        match e.equality {
            Some(existing) => Inference {
                bounds: put(self.bounds, e),
                ..self.plus_constraint(Constraint::Eq(existing, t))
            },
            None => Inference {
                bounds: put(self.bounds, Bounds { equality: Some(t), ..e }),
                ..self
            },
        }
    }

    /// The reduction of an equality constraint.
    pub open spec fn eq_reduced(self, s: Ty, t: Ty) -> (Inference, bool) {
        let object = class_of(Name::Object);
        if s == t {
            (self, true)
        } else if t is InferenceVar {
            (self.equate(t->InferenceVar_0, s), true)
        } else if s is InferenceVar {
            (self.equate(s->InferenceVar_0, t), true)
        } else {
            match (s, t) {
                (Ty::Array(si), Ty::Array(ti)) => (
                    self.plus_constraint(Constraint::Eq(*si, *ti)),
                    true,
                ),
                (
                    Ty::Reference { name: sn, args: sa, local: _ },
                    Ty::Reference { name: tn, args: ta, local: _ },
                ) => if sn == tn {
                    if *sa is Nil && *ta is Nil {
                        (self, true)
                    } else if *sa is Nil || *ta is Nil || sa.count() != ta.count() {
                        (self, false)
                    } else if some_wildcard(*sa) || some_wildcard(*ta) {
                        let (work, ok) = eq_args(*sa, *ta);
                        (self.plus_work(work), ok)
                    } else {
                        (self.plus_work(arg_constraints(*sa, *ta, false)), true)
                    }
                } else {
                    (self, false)
                },
                (Ty::Wildcard(sb), Ty::Wildcard(tb)) => match (sb, tb) {
                    (WildcardBound::Unbounded, WildcardBound::Upper(tb)) => (
                        self.plus_constraint(Constraint::Eq(object, *tb)),
                        true,
                    ),
                    (WildcardBound::Upper(sb), WildcardBound::Unbounded) => (
                        self.plus_constraint(Constraint::Eq(*sb, object)),
                        true,
                    ),
                    (WildcardBound::Upper(sb), WildcardBound::Upper(tb)) => (
                        self.plus_constraint(Constraint::Eq(*sb, *tb)),
                        true,
                    ),
                    (WildcardBound::Lower(sb), WildcardBound::Lower(tb)) => (
                        self.plus_constraint(Constraint::Eq(*sb, *tb)),
                        true,
                    ),
                    _ => (self, false),
                },
                _ => (self, false),
            }
        }
    }

    /// The reduction of a constraint.
    pub open spec fn reduced<D: TyDatabase>(
        self,
        db: &D,
        phase: InvocationPhase,
        c: Constraint,
    ) -> (Inference, bool) {
        match c {
            Constraint::Sub(s, t) => self.sub_reduced(db, phase, s, t),
            Constraint::Eq(s, t) => self.eq_reduced(s, t),
        }
    }

    /// The table with its constraints reduced one after the other, first in
    /// first out, in at most `fuel` steps: `Some(true)` when none is left,
    /// `Some(false)` when one of them cannot hold, `None` when the steps did
    /// not suffice.
    pub open spec fn drained<D: TyDatabase>(
        self,
        db: &D,
        phase: InvocationPhase,
        fuel: nat,
    ) -> (Inference, Option<bool>)
        decreases fuel,
    {
        match self.worklist {
            List::Nil => (self, Some(true)),
            List::Cons(c, rest) => if fuel == 0 {
                (self, None)
            } else {
                let (next, ok) = Inference { worklist: *rest, ..self }.reduced(db, phase, *c);
                if ok {
                    next.drained(db, phase, (fuel - 1) as nat)
                } else {
                    (next, Some(false))
                }
            },
        }
    }

    fn add_work(&mut self, l: List<Constraint>)
        ensures
            *final(self) == old(self).plus_work(l),
    {
        self.worklist = self.worklist.copy().append(l);
    }

    fn reduce_wildcard(&mut self, s: &Ty, t: &Ty) -> (r: bool)
        ensures
            (*final(self), r) == old(self).contain(*s, *t),
    {
        match t {
            Ty::Wildcard(WildcardBound::Unbounded) => true,
            Ty::Wildcard(WildcardBound::Upper(tb)) => {
                match s {
                    Ty::Wildcard(WildcardBound::Unbounded) => self.add_constraint(
                        Constraint::Sub(Ty::class(Name::Object), tb.copy()),
                    ),
                    Ty::Wildcard(WildcardBound::Upper(sb)) => self.add_constraint(
                        Constraint::Sub(sb.copy(), tb.copy()),
                    ),
                    Ty::Wildcard(WildcardBound::Lower(_)) => self.add_constraint(
                        Constraint::Eq(Ty::class(Name::Object), tb.copy()),
                    ),
                    _ => self.add_constraint(Constraint::Sub(s.copy(), tb.copy())),
                }
                true
            },
            Ty::Wildcard(WildcardBound::Lower(tb)) => match s {
                Ty::Wildcard(WildcardBound::Lower(sb)) => {
                    self.add_constraint(Constraint::Sub(tb.copy(), sb.copy()));
                    true
                },
                Ty::Wildcard(_) => false,
                _ => {
                    self.add_constraint(Constraint::Sub(tb.copy(), s.copy()));
                    true
                },
            },
            _ => false,
        }
    }

    fn reduce_same_class(&mut self, phase: InvocationPhase, sa: &List<Ty>, ta: &List<Ty>) -> (r:
        bool)
        ensures
            (*final(self), r) == old(self).sub_same_class(phase, *sa, *ta),
    {
        if ta.is_empty() {
            return true;
        }
        if sa.is_empty() {
            return phase == InvocationPhase::Loose;
        }
        if !sa.same_len(ta) {
            return false;
        }
        let work = relate_args(sa, ta, any_wildcard(ta));
        self.add_work(work);
        true
    }

    fn reduce_sub_core<D: TyDatabase>(
        &mut self,
        db: &D,
        phase: InvocationPhase,
        s: &Ty,
        t: &Ty,
    ) -> (r: bool)
        ensures
            (*final(self), r) == old(self).sub_core(db, phase, *s, *t),
    {
        if s.same_shape(t) {
            return true;
        }
        if let Some(id) = t.as_infer_var() {
            let bound = match phase {
                InvocationPhase::Loose => s.box_primitive(),
                InvocationPhase::Strict => s.copy(),
            };
            self.add_lower(id, bound);
            return true;
        }
        if let Some(id) = s.as_infer_var() {
            if t.is_wildcard() {
                return self.reduce_wildcard(s, t);
            }
            self.add_upper(id, t.copy());
            return true;
        }
        if s.is_null() {
            return match t {
                Ty::Reference { name: _, args: _, local: _ } => true,
                Ty::Array(_) => true,
                Ty::TypeVar { scope: _, bounds: _, lower: _ } => true,
                Ty::Intersection(_) => true,
                _ => false,
            };
        }
        match (s, t) {
            (Ty::Array(si), Ty::Array(ti)) => {
                if si.is_primitive() && ti.is_primitive() {
                    si.same(ti)
                } else {
                    self.add_constraint(Constraint::Sub(si.copy(), ti.copy()));
                    true
                }
            },
            (
                Ty::Reference { name: sn, args: sa, local: _ },
                Ty::Reference { name: tn, args: ta, local: _ },
            ) => {
                if *sn == *tn {
                    return self.reduce_same_class(phase, sa, ta);
                }
                if !s.contains_infer_var() && !t.contains_infer_var() {
                    return convertible(db, phase, s, t);
                }
                let found = find_parameterizations(db, s, *tn);
                let any = !found.is_empty();
                self.add_work(sub_each(&found, t));
                any
            },
            (_, Ty::Wildcard(_)) => self.reduce_wildcard(s, t),
            _ => {
                if let (Ty::Array(_), Ty::Reference { name, args: _, local: _ }) = (s, t) {
                    if is_array_supertype(*name) {
                        return true;
                    }
                }
                if !s.contains_infer_var() && !t.contains_infer_var() {
                    convertible(db, phase, s, t)
                } else {
                    false
                }
            },
        }
    }

    /// Reduces a compatibility constraint; false when it cannot hold.
    pub fn reduce_sub<D: TyDatabase>(
        &mut self,
        db: &D,
        phase: InvocationPhase,
        s: &Ty,
        t: &Ty,
    ) -> (r: bool)
        ensures
            (*final(self), r) == old(self).sub_reduced(db, phase, *s, *t),
        decreases s,
    {
        match s {
            Ty::Wildcard(b) => {
                if s.same_shape(t) {
                    return true;
                }
                match b {
                    WildcardBound::Unbounded => {
                        let object = Ty::class(Name::Object);
                        self.reduce_sub_core(db, phase, &object, t)
                    },
                    WildcardBound::Upper(m) => self.reduce_sub(db, phase, m, t),
                    WildcardBound::Lower(m) => self.reduce_sub(db, phase, m, t),
                }
            },
            _ => self.reduce_sub_core(db, phase, s, t),
        }
    }

    fn reduce_equality(&mut self, id: u64, t: &Ty)
        ensures
            *final(self) == old(self).equate(id, *t),
    {
        let e = bounds_entry(&self.bounds, id);
        if let Some(existing) = e.equality.copy() {
            self.bounds = put_bounds(&self.bounds, e);
            self.add_constraint(Constraint::Eq(existing, t.copy()));
            return;
        }
        let b = Bounds { id: e.id, upper: e.upper, lower: e.lower, equality: Some(t.copy()) };
        self.bounds = put_bounds(&self.bounds, b);
    }

    /// Reduces an equality constraint; false when it cannot hold.
    pub fn reduce_eq(&mut self, s: &Ty, t: &Ty) -> (r: bool)
        ensures
            (*final(self), r) == old(self).eq_reduced(*s, *t),
    {
        if s.same(t) {
            return true;
        }
        if let Some(id) = t.as_infer_var() {
            self.reduce_equality(id, s);
            return true;
        }
        if let Some(id) = s.as_infer_var() {
            self.reduce_equality(id, t);
            return true;
        }
        match (s, t) {
            (Ty::Array(si), Ty::Array(ti)) => {
                self.add_constraint(Constraint::Eq(si.copy(), ti.copy()));
                true
            },
            (
                Ty::Reference { name: sn, args: sa, local: _ },
                Ty::Reference { name: tn, args: ta, local: _ },
            ) => {
                if *sn != *tn {
                    return false;
                }
                if sa.is_empty() && ta.is_empty() {
                    return true;
                }
                if sa.is_empty() || ta.is_empty() || !sa.same_len(&**ta) {
                    return false;
                }
                if any_wildcard(sa) || any_wildcard(ta) {
                    let (work, ok) = equate_args(sa, ta);
                    self.add_work(work);
                    return ok;
                }
                let work = relate_args(sa, ta, false);
                self.add_work(work);
                true
            },
            (Ty::Wildcard(sb), Ty::Wildcard(tb)) => match (sb, tb) {
                (WildcardBound::Unbounded, WildcardBound::Upper(tb)) => {
                    self.add_constraint(Constraint::Eq(Ty::class(Name::Object), tb.copy()));
                    true
                },
                (WildcardBound::Upper(sb), WildcardBound::Unbounded) => {
                    self.add_constraint(Constraint::Eq(sb.copy(), Ty::class(Name::Object)));
                    true
                },
                (WildcardBound::Upper(sb), WildcardBound::Upper(tb)) => {
                    self.add_constraint(Constraint::Eq(sb.copy(), tb.copy()));
                    true
                },
                (WildcardBound::Lower(sb), WildcardBound::Lower(tb)) => {
                    self.add_constraint(Constraint::Eq(sb.copy(), tb.copy()));
                    true
                },
                _ => false,
            },
            _ => false,
        }
    }

    /// Reduces the pending constraints; false when one of them cannot hold, or
    /// when they do not come to an end within the database's step limit.
    pub fn drain_worklist<D: TyDatabase>(&mut self, db: &D, phase: InvocationPhase) -> (r: bool)
        ensures
            ({
                let out = old(self).drained(db, phase, db.limit() as nat);
                &&& *final(self) == out.0
                &&& r == (out.1 == Some(true))
            }),
    {
        let mut fuel: u64 = db.step_limit();
        let ghost whole = old(self).drained(db, phase, db.limit() as nat);
        loop
            invariant
                self.drained(db, phase, fuel as nat) == whole,
                whole == old(self).drained(db, phase, db.limit() as nat),
            decreases fuel,
        {
            let work = self.worklist.copy();
            match work {
                List::Nil => {
                    return true;
                },
                List::Cons(c, rest) => {
                    if fuel == 0 {
                        return false;
                    }
                    self.worklist = *rest;
                    let ok = match &*c {
                        Constraint::Sub(s, t) => self.reduce_sub(db, phase, s, t),
                        Constraint::Eq(s, t) => self.reduce_eq(s, t),
                    };
                    if !ok {
                        return false;
                    }
                    fuel = fuel - 1;
                },
            }
        }
    }
}

/// Two types that are the same are compatible, and the constraint leaves no
/// trace in the table.
pub proof fn law_sub_reflexive<D: TyDatabase>(
    db: &D,
    table: Inference,
    phase: InvocationPhase,
    t: Ty,
)
    ensures
        table.sub_reduced(db, phase, t, t) == (table, true),
        table.eq_reduced(t, t) == (table, true),
{
    lemma_alike_reflexive(t);
}

/// A type is like itself.
pub proof fn lemma_alike_reflexive(t: Ty)
    ensures
        t.alike(t),
    decreases t,
{
    match t {
        Ty::Reference { name: _, args, local: _ } => lemma_all_alike_reflexive(*args),
        Ty::Array(e) => lemma_alike_reflexive(*e),
        Ty::Wildcard(WildcardBound::Upper(e)) => lemma_alike_reflexive(*e),
        Ty::Wildcard(WildcardBound::Lower(e)) => lemma_alike_reflexive(*e),
        Ty::Intersection(l) => lemma_all_alike_reflexive(*l),
        _ => {},
    }
}

proof fn lemma_all_alike_reflexive(l: List<Ty>)
    ensures
        crate::ty::all_alike(l, l),
    decreases l,
{
    if let List::Cons(h, t) = l {
        lemma_alike_reflexive(*h);
        lemma_all_alike_reflexive(*t);
    }
}

/// A run that settles does not depend on the step limit: any larger limit
/// gives the same table and the same verdict.
pub proof fn law_more_steps_change_nothing<D: TyDatabase>(
    db: &D,
    table: Inference,
    phase: InvocationPhase,
    fuel: nat,
    more: nat,
)
    requires
        fuel <= more,
        table.drained(db, phase, fuel).1 is Some,
    ensures
        table.drained(db, phase, more) == table.drained(db, phase, fuel),
    decreases fuel,
{
    match table.worklist {
        List::Nil => {},
        List::Cons(c, rest) => {
            let (next, ok) = Inference { worklist: *rest, ..table }.reduced(db, phase, *c);
            if ok {
                law_more_steps_change_nothing(
                    db,
                    next,
                    phase,
                    (fuel - 1) as nat,
                    (more - 1) as nat,
                );
            }
        },
    }
}

/// Whether the search of [`climb`] ends before its steps do.
pub open spec fn climb_ends<D: TyDatabase>(db: &D, c: Climb, target: Name, fuel: nat) -> bool
    decreases fuel,
{
    match c.stack {
        List::Nil => true,
        List::Cons(top, rest) => fuel > 0 && climb_ends(
            db,
            climb_parents(Climb { stack: *rest, ..c }, db.parents(*top), target),
            target,
            (fuel - 1) as nat,
        ),
    }
}

/// A search for parameterizations that ends does not depend on the number of
/// steps it is given.
pub proof fn law_more_steps_find_the_same<D: TyDatabase>(
    db: &D,
    c: Climb,
    target: Name,
    fuel: nat,
    more: nat,
)
    requires
        fuel <= more,
        climb_ends(db, c, target, fuel),
    ensures
        climb(db, c, target, more) == climb(db, c, target, fuel),
        climb_ends(db, c, target, more),
    decreases fuel,
{
    if let List::Cons(top, rest) = c.stack {
        law_more_steps_find_the_same(
            db,
            climb_parents(Climb { stack: *rest, ..c }, db.parents(*top), target),
            target,
            (fuel - 1) as nat,
            (more - 1) as nat,
        );
    }
}

} // verus!
