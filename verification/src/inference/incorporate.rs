//! Bound set incorporation: what the bounds of the variables imply of each
//! other.
use crate::db::TyDatabase;
use crate::inference::instantiation::{bounds_compatible, compatible};
use crate::inference::reduce::{
    any_wildcard, climb, climb_from, climb_parents, some_wildcard, super_parameterizations, Climb,
};
use crate::inference::{
    entry, find, find_bounds, put, Bounds, Constraint, Inference, InvocationPhase,
};
use crate::list::{Data, List};
use crate::names::Name;
use crate::ty::{
    all_subst_infer, boxed, class_of, insert_var, substitute_infer_all, var_insert, Ty, VarMap,
    WildcardBound,
};
use vstd::prelude::*;

verus! {

/// The number of bounds in the table.
pub open spec fn bound_count(l: List<Bounds>) -> nat
    decreases l,
{
    match l {
        List::Nil => 0,
        List::Cons(h, t) => h.upper.count() + h.lower.count() + (if h.equality is Some {
            1nat
        } else {
            0nat
        }) + bound_count(*t),
    }
}

/// One entry for each type.
fn tally_tys(l: &List<Ty>, acc: List<bool>) -> (r: List<bool>)
    ensures
        r.count() == l.count() + acc.count(),
    decreases l,
{
    match l {
        List::Nil => acc,
        List::Cons(_, t) => tally_tys(t, List::cons(true, acc)),
    }
}

/// One entry for each bound.
fn tally(l: &List<Bounds>) -> (r: List<bool>)
    ensures
        r.count() == bound_count(*l),
    decreases l,
{
    match l {
        List::Nil => List::Nil,
        List::Cons(h, t) => {
            let rest = tally(t);
            let rest = if h.equality.is_some() {
                List::cons(true, rest)
            } else {
                rest
            };
            let rest = tally_tys(&h.lower, rest);
            tally_tys(&h.upper, rest)
        },
    }
}

/// The equality bounds of the table.
pub open spec fn equalities(l: List<Bounds>) -> VarMap
    decreases l,
{
    match l {
        List::Nil => List::Nil,
        List::Cons(h, t) => match h.equality {
            Some(eq) => List::Cons(Box::new((h.id, eq)), Box::new(equalities(*t))),
            None => equalities(*t),
        },
    }
}

fn collect_equalities(l: &List<Bounds>) -> (r: VarMap)
    ensures
        r == equalities(*l),
    decreases l,
{
    match l {
        List::Nil => List::Nil,
        List::Cons(h, t) => match &h.equality {
            Some(eq) => List::cons((h.id, eq.copy()), collect_equalities(t)),
            None => collect_equalities(t),
        },
    }
}

/// The table without the variable `id`.
pub open spec fn removed(l: List<Bounds>, id: u64) -> List<Bounds>
    decreases l,
{
    match l {
        List::Nil => List::Nil,
        List::Cons(h, t) => if h.id == id {
            *t
        } else {
            List::Cons(h, Box::new(removed(*t, id)))
        },
    }
}

fn remove_bounds(l: List<Bounds>, id: u64) -> (r: List<Bounds>)
    ensures
        r == removed(l, id),
    decreases l,
{
    match l {
        List::Nil => List::Nil,
        List::Cons(h, t) => if h.id == id {
            *t
        } else {
            List::Cons(h, Box::new(remove_bounds(*t, id)))
        },
    }
}

/// The bounds with the variables of `map` replaced.
pub open spec fn bounds_subst(l: List<Bounds>, map: VarMap) -> List<Bounds>
    decreases l,
{
    match l {
        List::Nil => List::Nil,
        List::Cons(h, t) => List::Cons(
            Box::new(
                Bounds {
                    id: h.id,
                    upper: all_subst_infer(h.upper, map),
                    lower: all_subst_infer(h.lower, map),
                    equality: match h.equality {
                        Some(eq) => Some(eq.subst_infer(map)),
                        None => None,
                    },
                },
            ),
            Box::new(bounds_subst(*t, map)),
        ),
    }
}

fn substitute_bounds(l: &List<Bounds>, map: &VarMap) -> (r: List<Bounds>)
    ensures
        r == bounds_subst(*l, *map),
    decreases l,
{
    match l {
        List::Nil => List::Nil,
        List::Cons(h, t) => {
            let b = Bounds {
                id: h.id,
                upper: substitute_infer_all(&h.upper, map),
                lower: substitute_infer_all(&h.lower, map),
                equality: match &h.equality {
                    Some(eq) => Some(eq.substitute_infer(map)),
                    None => None,
                },
            };
            List::cons(b, substitute_bounds(t, map))
        },
    }
}

/// The type an instantiation is compared by: a type with wildcard arguments
/// by its capture.
pub open spec fn compared<D: TyDatabase>(db: &D, eq: Ty) -> Ty {
    match eq {
        Ty::Reference { name: _, args, local: _ } => if some_wildcard(*args) {
            db.captured(eq)
        } else {
            eq
        },
        _ => eq,
    }
}

fn compared_type<D: TyDatabase>(db: &D, eq: &Ty) -> (r: Ty)
    ensures
        r == compared(db, *eq),
{
    match eq {
        Ty::Reference { name: _, args, local: _ } => if any_wildcard(args) {
            db.capture_conversion(eq)
        } else {
            eq.copy()
        },
        _ => eq.copy(),
    }
}

/// The dependencies that an instantiation passes on to upper bounds that
/// mention other variables.
pub open spec fn upper_dependencies<D: TyDatabase>(
    db: &D,
    eq: Ty,
    upper: List<Ty>,
    map: VarMap,
) -> List<Constraint>
    decreases upper,
{
    match upper {
        List::Nil => List::Nil,
        List::Cons(u, t) => if u.subst_infer(map).has_infer_var() {
            List::Cons(
                Box::new(Constraint::Sub(compared(db, eq), u.subst_infer(map))),
                Box::new(upper_dependencies(db, eq, *t, map)),
            )
        } else {
            upper_dependencies(db, eq, *t, map)
        },
    }
}

fn depend_upper<D: TyDatabase>(db: &D, eq: &Ty, upper: &List<Ty>, map: &VarMap) -> (r: List<
    Constraint,
>)
    ensures
        r == upper_dependencies(db, *eq, *upper, *map),
    decreases upper,
{
    match upper {
        List::Nil => List::Nil,
        List::Cons(u, t) => {
            let u = u.substitute_infer(map);
            if u.contains_infer_var() {
                let c = Constraint::Sub(compared_type(db, eq), u);
                List::cons(c, depend_upper(db, eq, t, map))
            } else {
                depend_upper(db, eq, t, map)
            }
        },
    }
}

/// The dependencies that an instantiation passes on to lower bounds that
/// mention other variables.
pub open spec fn lower_dependencies(eq: Ty, lower: List<Ty>, map: VarMap) -> List<Constraint>
    decreases lower,
{
    match lower {
        List::Nil => List::Nil,
        List::Cons(l, t) => if l.subst_infer(map).has_infer_var() {
            List::Cons(
                Box::new(Constraint::Sub(l.subst_infer(map), eq)),
                Box::new(lower_dependencies(eq, *t, map)),
            )
        } else {
            lower_dependencies(eq, *t, map)
        },
    }
}

fn depend_lower(eq: &Ty, lower: &List<Ty>, map: &VarMap) -> (r: List<Constraint>)
    ensures
        r == lower_dependencies(*eq, *lower, *map),
    decreases lower,
{
    match lower {
        List::Nil => List::Nil,
        List::Cons(l, t) => {
            let l = l.substitute_infer(map);
            if l.contains_infer_var() {
                List::cons(Constraint::Sub(l, eq.copy()), depend_lower(eq, t, map))
            } else {
                depend_lower(eq, t, map)
            }
        },
    }
}

/// The constraints between type arguments that have to be equal and are not,
/// wildcards left out.
pub open spec fn implied_args(la: List<Ty>, ua: List<Ty>) -> List<Constraint>
    decreases la,
{
    match (la, ua) {
        (List::Cons(a, at), List::Cons(b, bt)) => if *a != *b && !(*a is Wildcard) && !(
        *b is Wildcard) {
            List::Cons(Box::new(Constraint::Eq(*a, *b)), Box::new(implied_args(*at, *bt)))
        } else {
            implied_args(*at, *bt)
        },
        _ => List::Nil,
    }
}

fn imply_args(la: &List<Ty>, ua: &List<Ty>) -> (r: List<Constraint>)
    ensures
        r == implied_args(*la, *ua),
    decreases la,
{
    match (la, ua) {
        (List::Cons(a, at), List::Cons(b, bt)) => if !a.same(b) && !a.is_wildcard()
            && !b.is_wildcard() {
            List::cons(Constraint::Eq(a.copy(), b.copy()), imply_args(at, bt))
        } else {
            imply_args(at, bt)
        },
        _ => List::Nil,
    }
}

/// What a lower and an upper bound of one variable imply: the component types
/// of arrays, or the arguments of two parameterizations of one class, are
/// equal.
pub open spec fn implied_pair(l: Ty, u: Ty) -> List<Constraint> {
    match (l, u) {
        (Ty::Array(li), Ty::Array(ui)) => if l != u {
            List::Cons(Box::new(Constraint::Eq(*li, *ui)), Box::new(List::Nil))
        } else {
            List::Nil
        },
        (
            Ty::Reference { name: ln, args: la, local: _ },
            Ty::Reference { name: un, args: ua, local: _ },
        ) => if ln == un && !(*la is Nil) && la.count() == ua.count() && l != u {
            implied_args(*la, *ua)
        } else {
            List::Nil
        },
        _ => List::Nil,
    }
}

fn imply_pair(l: &Ty, u: &Ty) -> (r: List<Constraint>)
    ensures
        r == implied_pair(*l, *u),
{
    match (l, u) {
        (Ty::Array(li), Ty::Array(ui)) => if !l.same(u) {
            List::cons(Constraint::Eq(li.copy(), ui.copy()), List::Nil)
        } else {
            List::Nil
        },
        (
            Ty::Reference { name: ln, args: la, local: _ },
            Ty::Reference { name: un, args: ua, local: _ },
        ) => if *ln == *un && !la.is_empty() && la.same_len(&**ua) && !l.same(u) {
            imply_args(la, ua)
        } else {
            List::Nil
        },
        _ => List::Nil,
    }
}

/// What one lower bound implies with each upper bound.
pub open spec fn implied_one(l: Ty, upper: List<Ty>) -> List<Constraint>
    decreases upper,
{
    match upper {
        List::Nil => List::Nil,
        List::Cons(u, t) => implied_pair(l, *u).plus(implied_one(l, *t)),
    }
}

fn imply_one(l: &Ty, upper: &List<Ty>) -> (r: List<Constraint>)
    ensures
        r == implied_one(*l, *upper),
    decreases upper,
{
    match upper {
        List::Nil => List::Nil,
        List::Cons(u, t) => imply_pair(l, u).append(imply_one(l, t)),
    }
}

/// What the lower bounds imply with the upper bounds.
pub open spec fn implied(lower: List<Ty>, upper: List<Ty>) -> List<Constraint>
    decreases lower,
{
    match lower {
        List::Nil => List::Nil,
        List::Cons(l, t) => implied_one(*l, upper).plus(implied(*t, upper)),
    }
}

/// The implied bounds of one variable.
pub fn implied_bounds(lower: &List<Ty>, upper: &List<Ty>) -> (r: List<Constraint>)
    ensures
        r == implied(*lower, *upper),
    decreases lower,
{
    match lower {
        List::Nil => List::Nil,
        List::Cons(l, t) => imply_one(l, upper).append(implied_bounds(t, upper)),
    }
}

/// The implied bounds of every variable.
pub open spec fn implied_all(l: List<Bounds>) -> List<Constraint>
    decreases l,
{
    match l {
        List::Nil => List::Nil,
        List::Cons(h, t) => implied(h.lower, h.upper).plus(implied_all(*t)),
    }
}

fn imply_all(l: &List<Bounds>) -> (r: List<Constraint>)
    ensures
        r == implied_all(*l),
    decreases l,
{
    match l {
        List::Nil => List::Nil,
        List::Cons(h, t) => implied_bounds(&h.lower, &h.upper).append(imply_all(t)),
    }
}

/// Whether a lower and an upper bound, one of which is a variable and the
/// other a proper type, give the variable a bound it does not have yet.
pub open spec fn propagates(table: List<Bounds>, l: Ty, u: Ty) -> bool {
    match (l, u) {
        (Ty::InferenceVar(_), Ty::InferenceVar(_)) => false,
        (_, Ty::InferenceVar(uid)) => !l.has_infer_var() && match find(table, uid) {
            Some(b) => !b.lower.has(l),
            None => true,
        },
        (Ty::InferenceVar(lid), _) => !u.has_infer_var() && match find(table, lid) {
            Some(b) => !b.upper.has(u),
            None => true,
        },
        _ => false,
    }
}

fn does_propagate(table: &List<Bounds>, l: &Ty, u: &Ty) -> (r: bool)
    ensures
        r == propagates(*table, *l, *u),
{
    match (l, u) {
        (Ty::InferenceVar(_), Ty::InferenceVar(_)) => false,
        (_, Ty::InferenceVar(uid)) => !l.contains_infer_var() && match find_bounds(table, *uid) {
            Some(b) => !b.lower.contains(l),
            None => true,
        },
        (Ty::InferenceVar(lid), _) => !u.contains_infer_var() && match find_bounds(table, *lid) {
            Some(b) => !b.upper.contains(u),
            None => true,
        },
        _ => false,
    }
}

/// What comes of comparing bounds: the constraints to be reduced, or a
/// contradiction.
pub enum Checked {
    Pending(List<Constraint>),
    Contradiction,
}

/// The constraints of two comparisons.
pub open spec fn both(a: Checked, b: Checked) -> Checked {
    match (a, b) {
        (Checked::Pending(x), Checked::Pending(y)) => Checked::Pending(x.plus(y)),
        _ => Checked::Contradiction,
    }
}

/// A lower and an upper bound compared.
pub open spec fn checked_pair<D: TyDatabase>(
    db: &D,
    table: List<Bounds>,
    l: Ty,
    u: Ty,
) -> Checked {
    if l.has_infer_var() || u.has_infer_var() {
        if propagates(table, l, u) {
            Checked::Pending(List::Cons(Box::new(Constraint::Sub(l, u)), Box::new(List::Nil)))
        } else {
            Checked::Pending(List::Nil)
        }
    } else if compatible(db, l, u) {
        Checked::Pending(List::Nil)
    } else {
        Checked::Contradiction
    }
}

fn check_pair<D: TyDatabase>(db: &D, table: &List<Bounds>, l: &Ty, u: &Ty) -> (r: Checked)
    ensures
        r == checked_pair(db, *table, *l, *u),
{
    if l.contains_infer_var() || u.contains_infer_var() {
        if does_propagate(table, l, u) {
            Checked::Pending(List::cons(Constraint::Sub(l.copy(), u.copy()), List::Nil))
        } else {
            Checked::Pending(List::Nil)
        }
    } else if bounds_compatible(db, l, u) {
        Checked::Pending(List::Nil)
    } else {
        Checked::Contradiction
    }
}

fn both_checked(a: Checked, b: Checked) -> (r: Checked)
    ensures
        r == both(a, b),
{
    match (a, b) {
        (Checked::Pending(x), Checked::Pending(y)) => Checked::Pending(x.append(y)),
        _ => Checked::Contradiction,
    }
}

/// One lower bound compared with each upper bound.
pub open spec fn checked_one<D: TyDatabase>(
    db: &D,
    table: List<Bounds>,
    l: Ty,
    upper: List<Ty>,
) -> Checked
    decreases upper,
{
    match upper {
        List::Nil => Checked::Pending(List::Nil),
        List::Cons(u, t) => both(
            checked_pair(db, table, l, *u),
            checked_one(db, table, l, *t),
        ),
    }
}

fn check_one<D: TyDatabase>(db: &D, table: &List<Bounds>, l: &Ty, upper: &List<Ty>) -> (r: Checked)
    ensures
        r == checked_one(db, *table, *l, *upper),
    decreases upper,
{
    match upper {
        List::Nil => Checked::Pending(List::Nil),
        List::Cons(u, t) => both_checked(
            check_pair(db, table, l, u),
            check_one(db, table, l, t),
        ),
    }
}

/// The lower bounds compared with the upper bounds.
pub open spec fn checked_var<D: TyDatabase>(
    db: &D,
    table: List<Bounds>,
    lower: List<Ty>,
    upper: List<Ty>,
) -> Checked
    decreases lower,
{
    match lower {
        List::Nil => Checked::Pending(List::Nil),
        List::Cons(l, t) => both(
            checked_one(db, table, *l, upper),
            checked_var(db, table, *t, upper),
        ),
    }
}

fn check_var<D: TyDatabase>(
    db: &D,
    table: &List<Bounds>,
    lower: &List<Ty>,
    upper: &List<Ty>,
) -> (r: Checked)
    ensures
        r == checked_var(db, *table, *lower, *upper),
    decreases lower,
{
    match lower {
        List::Nil => Checked::Pending(List::Nil),
        List::Cons(l, t) => both_checked(
            check_one(db, table, l, upper),
            check_var(db, table, t, upper),
        ),
    }
}

/// The bounds of every variable compared.
pub open spec fn checked_all<D: TyDatabase>(
    db: &D,
    table: List<Bounds>,
    rest: List<Bounds>,
) -> Checked
    decreases rest,
{
    match rest {
        List::Nil => Checked::Pending(List::Nil),
        List::Cons(h, t) => both(
            checked_var(db, table, h.lower, h.upper),
            checked_all(db, table, *t),
        ),
    }
}

fn check_all<D: TyDatabase>(db: &D, table: &List<Bounds>, rest: &List<Bounds>) -> (r: Checked)
    ensures
        r == checked_all(db, *table, *rest),
    decreases rest,
{
    match rest {
        List::Nil => Checked::Pending(List::Nil),
        List::Cons(h, t) => both_checked(
            check_var(db, table, &h.lower, &h.upper),
            check_all(db, table, t),
        ),
    }
}

impl Inference {
    /// The table with one equality `id = eq` substituted away: the variable is
    /// replaced by the type everywhere, and its bounds that mention other
    /// variables become constraints.
    pub open spec fn eliminated<D: TyDatabase>(self, db: &D, id: u64, eq: Ty) -> Inference {
        match find(self.bounds, id) {
            None => self,
            Some(b) => {
                let map = List::Cons(Box::new((id, eq)), Box::new(List::Nil));
                Inference {
                    bounds: removed(bounds_subst(self.bounds, map), id),
                    throws: self.throws,
                    applied: var_insert(self.applied, id, eq),
                    worklist: self.worklist.plus(upper_dependencies(db, eq, b.upper, map)).plus(
                        lower_dependencies(eq, b.lower, map),
                    ),
                }
            },
        }
    }

    /// The table with the equalities substituted away one after the other;
    /// none where a variable is equal to itself.
    pub open spec fn eliminated_all<D: TyDatabase>(self, db: &D, eqs: VarMap) -> Option<Inference>
        decreases eqs,
    {
        match eqs {
            List::Nil => Some(self),
            List::Cons(e, rest) => if find(self.bounds, e.0) is Some && e.1 == Ty::InferenceVar(
                e.0,
            ) {
                None
            } else {
                self.eliminated(db, e.0, e.1).eliminated_all(db, *rest)
            },
        }
    }

    /// One round of incorporation: the table after it, and `Some(true)` when
    /// nothing changed, `Some(false)` when the bounds contradict each other,
    /// `None` when there is more to do.
    pub open spec fn round<D: TyDatabase>(self, db: &D, phase: InvocationPhase) -> (
        Inference,
        Option<bool>,
    ) {
        let eqs = equalities(self.bounds);
        match self.eliminated_all(db, eqs) {
            None => (self, Some(false)),
            Some(a) => {
                let (b, verdict) = a.plus_work(implied_all(a.bounds)).drained(
                    db,
                    phase,
                    db.limit() as nat,
                );
                if verdict != Some(true) {
                    (b, Some(false))
                } else {
                    match checked_all(db, b.bounds, b.bounds) {
                        Checked::Contradiction => (b, Some(false)),
                        Checked::Pending(work) => (
                            b.plus_work(work),
                            if !(eqs is Nil) || bound_count(b.bounds) > bound_count(a.bounds) || !(
                            work is Nil) {
                                None
                            } else {
                                Some(true)
                            },
                        ),
                    }
                }
            },
        }
    }

    /// The table after at most `fuel` rounds of incorporation, and whether the
    /// bounds were found consistent: `None` when the rounds did not suffice.
    pub open spec fn incorporated<D: TyDatabase>(
        self,
        db: &D,
        phase: InvocationPhase,
        fuel: nat,
    ) -> (Inference, Option<bool>)
        decreases fuel,
    {
        if fuel == 0 {
            (self, None)
        } else {
            let (next, verdict) = self.round(db, phase);
            match verdict {
                Some(v) => (next, Some(v)),
                None => next.incorporated(db, phase, (fuel - 1) as nat),
            }
        }
    }

    fn eliminate<D: TyDatabase>(&mut self, db: &D, id: u64, eq: &Ty)
        ensures
            *final(self) == old(self).eliminated(db, id, *eq),
    {
        if let Some(b) = find_bounds(&self.bounds, id) {
            let map = List::cons((id, eq.copy()), List::Nil);
            let up = depend_upper(db, eq, &b.upper, &map);
            let low = depend_lower(eq, &b.lower, &map);
            self.worklist = self.worklist.copy().append(up).append(low);
            self.bounds = remove_bounds(substitute_bounds(&self.bounds, &map), id);
            self.applied = insert_var(self.applied.copy(), id, eq.copy());
        }
    }

    fn eliminate_all<D: TyDatabase>(&mut self, db: &D, eqs: &VarMap) -> (r: bool)
        ensures
            r == (old(self).eliminated_all(db, *eqs) is Some),
            r ==> Some(*final(self)) == old(self).eliminated_all(db, *eqs),
        decreases eqs,
    {
        match eqs {
            List::Nil => true,
            List::Cons(e, rest) => {
                if find_bounds(&self.bounds, e.0).is_some() && e.1.same(&Ty::InferenceVar(e.0)) {
                    return false;
                }
                self.eliminate(db, e.0, &e.1);
                self.eliminate_all(db, rest)
            },
        }
    }

    fn incorporate_round<D: TyDatabase>(&mut self, db: &D, phase: InvocationPhase) -> (r: Option<
        bool,
    >)
        ensures
            (*final(self), r) == old(self).round(db, phase),
    {
        let eqs = collect_equalities(&self.bounds);
        let saved = self.snapshot();
        if !self.eliminate_all(db, &eqs) {
            self.restore(saved);
            return Some(false);
        }
        let before = tally(&self.bounds);
        self.worklist = self.worklist.copy().append(imply_all(&self.bounds));
        if !self.drain_worklist(db, phase) {
            return Some(false);
        }
        let after = tally(&self.bounds);
        match check_all(db, &self.bounds, &self.bounds) {
            Checked::Contradiction => Some(false),
            Checked::Pending(work) => {
                let changed = !eqs.is_empty() || after.longer(&before) || !work.is_empty();
                self.worklist = self.worklist.copy().append(work);
                if changed {
                    None
                } else {
                    Some(true)
                }
            },
        }
    }

    /// Incorporates the bounds; false when they contradict each other, or when
    /// they do not settle within the database's step limit.
    pub fn incorporate<D: TyDatabase>(&mut self, db: &D, phase: InvocationPhase) -> (r: bool)
        ensures
            ({
                let out = old(self).incorporated(db, phase, db.limit() as nat);
                &&& *final(self) == out.0
                &&& r == (out.1 == Some(true))
            }),
    {
        let mut fuel: u64 = db.step_limit();
        let ghost whole = old(self).incorporated(db, phase, db.limit() as nat);
        while fuel > 0
            invariant
                self.incorporated(db, phase, fuel as nat) == whole,
                whole == old(self).incorporated(db, phase, db.limit() as nat),
            decreases fuel,
        {
            let verdict = self.incorporate_round(db, phase);
            if let Some(v) = verdict {
                return v;
            }
            fuel = fuel - 1;
        }
        false
    }
}

proof fn lemma_checked_one<D: TyDatabase>(
    db: &D,
    table: List<Bounds>,
    l: Ty,
    upper: List<Ty>,
    u: Ty,
)
    requires
        checked_one(db, table, l, upper) is Pending,
        upper.has(u),
    ensures
        checked_pair(db, table, l, u) is Pending,
    decreases upper,
{
    if let List::Cons(h, t) = upper {
        if *h != u {
            lemma_checked_one(db, table, l, *t, u);
        }
    }
}

proof fn lemma_checked_var<D: TyDatabase>(
    db: &D,
    table: List<Bounds>,
    lower: List<Ty>,
    upper: List<Ty>,
    l: Ty,
    u: Ty,
)
    requires
        checked_var(db, table, lower, upper) is Pending,
        lower.has(l),
        upper.has(u),
    ensures
        checked_pair(db, table, l, u) is Pending,
    decreases lower,
{
    if let List::Cons(h, t) = lower {
        if *h == l {
            lemma_checked_one(db, table, l, upper, u);
        } else {
            lemma_checked_var(db, table, *t, upper, l, u);
        }
    }
}

proof fn lemma_checked_all<D: TyDatabase>(
    db: &D,
    table: List<Bounds>,
    rest: List<Bounds>,
    b: Bounds,
    l: Ty,
    u: Ty,
)
    requires
        checked_all(db, table, rest) is Pending,
        rest.has(b),
        b.lower.has(l),
        b.upper.has(u),
    ensures
        checked_pair(db, table, l, u) is Pending,
    decreases rest,
{
    if let List::Cons(h, t) = rest {
        if *h == b {
            lemma_checked_var(db, table, b.lower, b.upper, l, u);
        } else {
            lemma_checked_all(db, table, *t, b, l, u);
        }
    }
}

/// Bounds that were found consistent are so: each proper lower bound of a
/// variable lies within each of its proper upper bounds.
pub proof fn law_consistent_bounds_agree<D: TyDatabase>(
    table: Inference,
    db: &D,
    phase: InvocationPhase,
    fuel: nat,
    b: Bounds,
    l: Ty,
    u: Ty,
)
    requires
        table.incorporated(db, phase, fuel).1 == Some(true),
        table.incorporated(db, phase, fuel).0.bounds.has(b),
        b.lower.has(l),
        b.upper.has(u),
        !l.has_infer_var(),
        !u.has_infer_var(),
    ensures
        compatible(db, l, u),
    decreases fuel,
{
    let (next, verdict) = table.round(db, phase);
    match verdict {
        Some(_) => {
            lemma_checked_all(db, next.bounds, next.bounds, b, l, u);
        },
        None => {
            law_consistent_bounds_agree(next, db, phase, (fuel - 1) as nat, b, l, u);
        },
    }
}

/// Whether two databases agree but, possibly, on how a type that mentions an
/// inference variable relates to another one.
pub open spec fn agree_on_proper_types<D: TyDatabase, E: TyDatabase>(d: &D, e: &E) -> bool {
    &&& d.limit() == e.limit()
    &&& forall|t: Ty| #[trigger] d.parents(t) == e.parents(t)
    &&& forall|t: Ty| #[trigger] d.captured(t) == e.captured(t)
    &&& forall|a: Ty, b: Ty|
        !a.has_infer_var() && !b.has_infer_var() ==> #[trigger] d.subtype(a, b) == e.subtype(a, b)
    &&& forall|a: Ty, b: Ty|
        !a.has_infer_var() && !b.has_infer_var() ==> #[trigger] d.assignable(a, b) == e.assignable(
            a,
            b,
        )
    &&& forall|a: Ty, b: Ty|
        !a.has_infer_var() && !b.has_infer_var() ==> #[trigger] d.strict(a, b) == e.strict(a, b)
}

/// Whether two databases answer alike what reduction and incorporation ask.
pub open spec fn agree_on_reduction<D: TyDatabase, E: TyDatabase>(d: &D, e: &E) -> bool {
    &&& forall|s: Ty, n: Name| #[trigger]
        super_parameterizations(d, s, n) == super_parameterizations(e, s, n)
    &&& forall|t: Ty| #[trigger] d.captured(t) == e.captured(t)
    &&& forall|a: Ty, b: Ty|
        !a.has_infer_var() && !b.has_infer_var() ==> #[trigger] d.subtype(a, b) == e.subtype(a, b)
    &&& forall|a: Ty, b: Ty|
        !a.has_infer_var() && !b.has_infer_var() ==> #[trigger] d.assignable(a, b) == e.assignable(
            a,
            b,
        )
    &&& forall|a: Ty, b: Ty|
        !a.has_infer_var() && !b.has_infer_var() ==> #[trigger] d.strict(a, b) == e.strict(a, b)
}

pub proof fn lemma_same_climb<D: TyDatabase, E: TyDatabase>(
    d: &D,
    e: &E,
    c: Climb,
    target: Name,
    fuel: nat,
)
    requires
        forall|t: Ty| #[trigger] d.parents(t) == e.parents(t),
    ensures
        climb(d, c, target, fuel) == climb(e, c, target, fuel),
    decreases fuel,
{
    if let List::Cons(top, rest) = c.stack {
        if fuel > 0 {
            let next = climb_parents(Climb { stack: *rest, ..c }, d.parents(*top), target);
            lemma_same_climb(d, e, next, target, (fuel - 1) as nat);
        }
    }
}

proof fn lemma_same_sub<D: TyDatabase, E: TyDatabase>(
    d: &D,
    e: &E,
    table: Inference,
    phase: InvocationPhase,
    s: Ty,
    t: Ty,
)
    requires
        agree_on_reduction(d, e),
    ensures
        table.sub_core(d, phase, s, t) == table.sub_core(e, phase, s, t),
        table.sub_reduced(d, phase, s, t) == table.sub_reduced(e, phase, s, t),
    decreases s,
{
    match s {
        Ty::Wildcard(WildcardBound::Unbounded) => {
            lemma_same_from_object(d, e, table, phase, t);
        },
        Ty::Wildcard(WildcardBound::Upper(m)) => {
            lemma_same_sub(d, e, table, phase, *m, t);
        },
        Ty::Wildcard(WildcardBound::Lower(m)) => {
            lemma_same_sub(d, e, table, phase, *m, t);
        },
        _ => {},
    }
}

proof fn lemma_same_from_object<D: TyDatabase, E: TyDatabase>(
    d: &D,
    e: &E,
    table: Inference,
    phase: InvocationPhase,
    t: Ty,
)
    requires
        agree_on_reduction(d, e),
    ensures
        table.sub_core(d, phase, class_of(Name::Object), t) == table.sub_core(
            e,
            phase,
            class_of(Name::Object),
            t,
        ),
{
}

pub proof fn lemma_same_drain<D: TyDatabase, E: TyDatabase>(
    d: &D,
    e: &E,
    table: Inference,
    phase: InvocationPhase,
    fuel: nat,
)
    requires
        agree_on_reduction(d, e),
    ensures
        table.drained(d, phase, fuel) == table.drained(e, phase, fuel),
    decreases fuel,
{
    if let List::Cons(c, rest) = table.worklist {
        if fuel > 0 {
            let start = Inference { worklist: *rest, ..table };
            if let Constraint::Sub(s, t) = *c {
                lemma_same_sub(d, e, start, phase, s, t);
            }
            let next = start.reduced(d, phase, *c).0;
            lemma_same_drain(d, e, next, phase, (fuel - 1) as nat);
        }
    }
}

proof fn lemma_same_dependencies<D: TyDatabase, E: TyDatabase>(
    d: &D,
    e: &E,
    eq: Ty,
    upper: List<Ty>,
    map: VarMap,
)
    requires
        agree_on_reduction(d, e),
    ensures
        upper_dependencies(d, eq, upper, map) == upper_dependencies(e, eq, upper, map),
    decreases upper,
{
    if let List::Cons(_, t) = upper {
        lemma_same_dependencies(d, e, eq, *t, map);
    }
}

pub proof fn lemma_same_elimination<D: TyDatabase, E: TyDatabase>(
    d: &D,
    e: &E,
    table: Inference,
    eqs: VarMap,
)
    requires
        agree_on_reduction(d, e),
    ensures
        table.eliminated_all(d, eqs) == table.eliminated_all(e, eqs),
    decreases eqs,
{
    if let List::Cons(h, rest) = eqs {
        if let Some(b) = find(table.bounds, h.0) {
            let map = List::Cons(Box::new((h.0, h.1)), Box::new(List::Nil));
            lemma_same_dependencies(d, e, h.1, b.upper, map);
        }
        lemma_same_elimination(d, e, table.eliminated(d, h.0, h.1), *rest);
    }
}

proof fn lemma_same_one<D: TyDatabase, E: TyDatabase>(
    d: &D,
    e: &E,
    table: List<Bounds>,
    l: Ty,
    upper: List<Ty>,
)
    requires
        agree_on_reduction(d, e),
    ensures
        checked_one(d, table, l, upper) == checked_one(e, table, l, upper),
    decreases upper,
{
    if let List::Cons(_, t) = upper {
        lemma_same_one(d, e, table, l, *t);
    }
}

proof fn lemma_same_var<D: TyDatabase, E: TyDatabase>(
    d: &D,
    e: &E,
    table: List<Bounds>,
    lower: List<Ty>,
    upper: List<Ty>,
)
    requires
        agree_on_reduction(d, e),
    ensures
        checked_var(d, table, lower, upper) == checked_var(e, table, lower, upper),
    decreases lower,
{
    if let List::Cons(l, t) = lower {
        lemma_same_one(d, e, table, *l, upper);
        lemma_same_var(d, e, table, *t, upper);
    }
}

pub proof fn lemma_same_check<D: TyDatabase, E: TyDatabase>(
    d: &D,
    e: &E,
    table: List<Bounds>,
    rest: List<Bounds>,
)
    requires
        agree_on_reduction(d, e),
    ensures
        checked_all(d, table, rest) == checked_all(e, table, rest),
    decreases rest,
{
    if let List::Cons(h, t) = rest {
        lemma_same_var(d, e, table, h.lower, h.upper);
        lemma_same_check(d, e, table, *t);
    }
}

/// Types that mention inference variables are never compared by the database:
/// reduction and incorporation come out the same whatever it says of them.
pub proof fn law_only_proper_types_are_compared<D: TyDatabase, E: TyDatabase>(
    d: &D,
    e: &E,
    table: Inference,
    phase: InvocationPhase,
    fuel: nat,
)
    requires
        agree_on_proper_types(d, e),
    ensures
        table.drained(d, phase, fuel) == table.drained(e, phase, fuel),
        table.incorporated(d, phase, fuel) == table.incorporated(e, phase, fuel),
    decreases fuel,
{
    assert forall|s: Ty, n: Name| #[trigger]
        super_parameterizations(d, s, n) == super_parameterizations(e, s, n) by {
        lemma_same_climb(d, e, climb_from(s), n, d.limit() as nat);
    }
    lemma_same_drain(d, e, table, phase, fuel);
    if fuel > 0 {
        let eqs = equalities(table.bounds);
        lemma_same_elimination(d, e, table, eqs);
        if let Some(a) = table.eliminated_all(d, eqs) {
            let work = a.plus_work(implied_all(a.bounds));
            lemma_same_drain(d, e, work, phase, d.limit() as nat);
            let b = work.drained(d, phase, d.limit() as nat).0;
            lemma_same_check(d, e, b.bounds, b.bounds);
        }
        let next = table.round(d, phase).0;
        law_only_proper_types_are_compared(d, e, next, phase, (fuel - 1) as nat);
    }
}

/// The number of equality bounds in the table.
pub open spec fn equality_count(l: List<Bounds>) -> nat
    decreases l,
{
    match l {
        List::Nil => 0,
        List::Cons(h, t) => (if h.equality is Some {
            1nat
        } else {
            0nat
        }) + equality_count(*t),
    }
}

/// The number of upper and lower bounds in the table.
pub open spec fn range_count(l: List<Bounds>) -> nat
    decreases l,
{
    match l {
        List::Nil => 0,
        List::Cons(h, t) => h.upper.count() + h.lower.count() + range_count(*t),
    }
}

proof fn lemma_counts(l: List<Bounds>)
    ensures
        bound_count(l) == equality_count(l) + range_count(l),
        equality_count(l) == 0 <==> equalities(l) is Nil,
    decreases l,
{
    if let List::Cons(_, t) = l {
        lemma_counts(*t);
    }
}

proof fn lemma_entry_id(l: List<Bounds>, id: u64)
    ensures
        entry(l, id).id == id,
    decreases l,
{
    if let List::Cons(_, t) = l {
        lemma_entry_id(*t, id);
    }
}

proof fn lemma_put_counts(l: List<Bounds>, b: Bounds)
    ensures
        equality_count(put(l, b)) + (if entry(l, b.id).equality is Some {
            1nat
        } else {
            0nat
        }) == equality_count(l) + (if b.equality is Some {
            1nat
        } else {
            0nat
        }),
        range_count(put(l, b)) + entry(l, b.id).upper.count() + entry(l, b.id).lower.count()
            == range_count(l) + b.upper.count() + b.lower.count(),
    decreases l,
{
    reveal_with_fuel(List::count, 2);
    match l {
        List::Nil => {
            reveal_with_fuel(equality_count, 2);
            reveal_with_fuel(range_count, 2);
        },
        List::Cons(h, t) => if h.id != b.id {
            lemma_put_counts(*t, b);
        },
    }
}

proof fn lemma_with_count(l: List<Ty>, x: Ty)
    ensures
        l.with(x).count() == l.count() + 1,
    decreases l,
{
    reveal_with_fuel(List::count, 3);
    reveal_with_fuel(List::plus, 3);
    if let List::Cons(_, t) = l {
        lemma_with_count(*t, x);
    }
}

/// Whether the table has no fewer bounds of either sort.
pub open spec fn no_fewer(b: Inference, a: Inference) -> bool {
    equality_count(a.bounds) <= equality_count(b.bounds) && range_count(a.bounds) <= range_count(
        b.bounds,
    )
}

proof fn lemma_sub_core_adds<D: TyDatabase>(
    db: &D,
    table: Inference,
    phase: InvocationPhase,
    s: Ty,
    t: Ty,
)
    ensures
        no_fewer(table.sub_core(db, phase, s, t).0, table),
{
    if t is InferenceVar {
        let e = entry(table.bounds, t->InferenceVar_0);
        lemma_entry_id(table.bounds, t->InferenceVar_0);
        let lower = if phase is Loose {
            boxed(s)
        } else {
            s
        };
        lemma_with_count(e.lower, lower);
        lemma_put_counts(table.bounds, Bounds { lower: e.lower.with(lower), ..e });
    }
    if s is InferenceVar {
        let e = entry(table.bounds, s->InferenceVar_0);
        lemma_entry_id(table.bounds, s->InferenceVar_0);
        lemma_with_count(e.upper, t);
        lemma_put_counts(table.bounds, Bounds { upper: e.upper.with(t), ..e });
    }
}

proof fn lemma_sub_adds<D: TyDatabase>(
    db: &D,
    table: Inference,
    phase: InvocationPhase,
    s: Ty,
    t: Ty,
)
    ensures
        no_fewer(table.sub_reduced(db, phase, s, t).0, table),
    decreases s,
{
    match s {
        Ty::Wildcard(WildcardBound::Unbounded) => {
            lemma_sub_core_adds(db, table, phase, class_of(Name::Object), t);
        },
        Ty::Wildcard(WildcardBound::Upper(m)) => {
            lemma_sub_adds(db, table, phase, *m, t);
        },
        Ty::Wildcard(WildcardBound::Lower(m)) => {
            lemma_sub_adds(db, table, phase, *m, t);
        },
        _ => {
            lemma_sub_core_adds(db, table, phase, s, t);
        },
    }
}

proof fn lemma_equate_adds(table: Inference, id: u64, t: Ty)
    ensures
        no_fewer(table.equate(id, t), table),
{
    let e = entry(table.bounds, id);
    lemma_entry_id(table.bounds, id);
    lemma_put_counts(table.bounds, e);
    lemma_put_counts(table.bounds, Bounds { equality: Some(t), ..e });
}

proof fn lemma_eq_adds(table: Inference, s: Ty, t: Ty)
    ensures
        no_fewer(table.eq_reduced(s, t).0, table),
{
    if t is InferenceVar {
        lemma_equate_adds(table, t->InferenceVar_0, s);
    }
    if s is InferenceVar {
        lemma_equate_adds(table, s->InferenceVar_0, t);
    }
}

proof fn lemma_drain_adds<D: TyDatabase>(
    db: &D,
    table: Inference,
    phase: InvocationPhase,
    fuel: nat,
)
    ensures
        no_fewer(table.drained(db, phase, fuel).0, table),
        table.drained(db, phase, fuel).1 == Some(true) ==> table.drained(
            db,
            phase,
            fuel,
        ).0.worklist is Nil,
    decreases fuel,
{
    if let List::Cons(c, rest) = table.worklist {
        if fuel > 0 {
            let start = Inference { worklist: *rest, ..table };
            match *c {
                Constraint::Sub(s, t) => lemma_sub_adds(db, start, phase, s, t),
                Constraint::Eq(s, t) => lemma_eq_adds(start, s, t),
            }
            lemma_drain_adds(db, start.reduced(db, phase, *c).0, phase, (fuel - 1) as nat);
        }
    }
}

/// Bounds that were found consistent are settled: no constraint is left to
/// reduce, and no equality to substitute away.
pub proof fn law_consistent_bounds_are_settled<D: TyDatabase>(
    table: Inference,
    db: &D,
    phase: InvocationPhase,
    fuel: nat,
)
    requires
        table.incorporated(db, phase, fuel).1 == Some(true),
    ensures
        table.incorporated(db, phase, fuel).0.worklist is Nil,
        equalities(table.incorporated(db, phase, fuel).0.bounds) is Nil,
    decreases fuel,
{
    let (next, verdict) = table.round(db, phase);
    match verdict {
        Some(_) => {
            let work = table.plus_work(implied_all(table.bounds));
            lemma_drain_adds(db, work, phase, db.limit() as nat);
            let b = work.drained(db, phase, db.limit() as nat).0;
            lemma_counts(table.bounds);
            lemma_counts(b.bounds);
        },
        None => {
            law_consistent_bounds_are_settled(next, db, phase, (fuel - 1) as nat);
        },
    }
}

/// Incorporation that comes to a verdict does not depend on the number of
/// rounds it is given: more of them give the same table and the same verdict.
pub proof fn law_more_rounds_change_nothing<D: TyDatabase>(
    db: &D,
    table: Inference,
    phase: InvocationPhase,
    fuel: nat,
    more: nat,
)
    requires
        fuel <= more,
        table.incorporated(db, phase, fuel).1 is Some,
    ensures
        table.incorporated(db, phase, more) == table.incorporated(db, phase, fuel),
    decreases fuel,
{
    let (next, verdict) = table.round(db, phase);
    if verdict is None {
        law_more_rounds_change_nothing(db, next, phase, (fuel - 1) as nat, (more - 1) as nat);
    }
}

} // verus!
