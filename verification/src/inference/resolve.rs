//! Bound set resolution: every variable gets a type.
use crate::db::TyDatabase;
use crate::inference::instantiation::{
    bounds_compatible, compatible, instantiation, pick_instantiation,
};
use crate::inference::{bounds_entry, entry, Bounds, Constraint, Inference, InvocationPhase};
use crate::list::{Data, List};
use crate::ty::{
    all_erased, all_subst_infer, all_without_infer, any_contains_infer_var, any_infer_var,
    erase_infer_vars_all, erasure_all, insert_var, lemma_var_insert, lookup_var,
    substitute_infer_all, var_insert, var_value, Ty, VarMap,
};
use vstd::prelude::*;

verus! {

/// The variables the map has a type for.
pub open spec fn keys_of(map: VarMap) -> List<u64>
    decreases map,
{
    match map {
        List::Nil => List::Nil,
        List::Cons(e, t) => List::Cons(Box::new(e.0), Box::new(keys_of(*t))),
    }
}

fn map_keys(map: &VarMap) -> (r: List<u64>)
    ensures
        r == keys_of(*map),
    decreases map,
{
    match map {
        List::Nil => List::Nil,
        List::Cons(e, t) => List::cons(e.0, map_keys(t)),
    }
}

/// The map with the values of the keys, one after the other, substituted into
/// by the map; and whether one of them changed.
pub open spec fn settled_once(map: VarMap, keys: List<u64>) -> (VarMap, bool)
    decreases keys,
{
    match keys {
        List::Nil => (map, false),
        List::Cons(k, rest) => match var_value(map, *k) {
            None => settled_once(map, *rest),
            Some(v) => if v.subst_infer(map) == v {
                settled_once(map, *rest)
            } else {
                (settled_once(var_insert(map, *k, v.subst_infer(map)), *rest).0, true)
            },
        },
    }
}

fn settle_once(map: VarMap, keys: &List<u64>) -> (r: (VarMap, bool))
    ensures
        r == settled_once(map, *keys),
    decreases keys,
{
    match keys {
        List::Nil => (map, false),
        List::Cons(k, rest) => match lookup_var(&map, **k) {
            None => settle_once(map, rest),
            Some(v) => {
                let updated = v.substitute_infer(&map);
                if updated.same(&v) {
                    settle_once(map, rest)
                } else {
                    let (out, _) = settle_once(insert_var(map, **k, updated), rest);
                    (out, true)
                }
            },
        },
    }
}

/// The map with the values substituted into until nothing changes, in at most
/// as many rounds as `rounds` has elements.
pub open spec fn settled(map: VarMap, keys: List<u64>, rounds: List<u64>) -> VarMap
    decreases rounds,
{
    match rounds {
        List::Nil => map,
        List::Cons(_, rest) => {
            let (next, changed) = settled_once(map, keys);
            if changed {
                settled(next, keys, *rest)
            } else {
                next
            }
        },
    }
}

fn settle(map: VarMap, keys: &List<u64>, rounds: &List<u64>) -> (r: VarMap)
    ensures
        r == settled(map, *keys, *rounds),
    decreases rounds,
{
    match rounds {
        List::Nil => map,
        List::Cons(_, rest) => {
            let (next, changed) = settle_once(map, keys);
            if changed {
                settle(next, keys, rest)
            } else {
                next
            }
        },
    }
}

/// The types that mention the variable `id`.
pub open spec fn mentioning(l: List<Ty>, id: u64) -> List<Ty>
    decreases l,
{
    match l {
        List::Nil => List::Nil,
        List::Cons(h, t) => if h.has_infer_var_id(id) {
            List::Cons(h, Box::new(mentioning(*t, id)))
        } else {
            mentioning(*t, id)
        },
    }
}

fn those_mentioning(l: &List<Ty>, id: u64) -> (r: List<Ty>)
    ensures
        r == mentioning(*l, id),
    decreases l,
{
    match l {
        List::Nil => List::Nil,
        List::Cons(h, t) => if h.contains_infer_var_id(id) {
            List::cons(h.copy(), those_mentioning(t, id))
        } else {
            those_mentioning(t, id)
        },
    }
}

/// The types that do not mention the variable `id`.
pub open spec fn not_mentioning(l: List<Ty>, id: u64) -> List<Ty>
    decreases l,
{
    match l {
        List::Nil => List::Nil,
        List::Cons(h, t) => if h.has_infer_var_id(id) {
            not_mentioning(*t, id)
        } else {
            List::Cons(h, Box::new(not_mentioning(*t, id)))
        },
    }
}

fn those_not_mentioning(l: &List<Ty>, id: u64) -> (r: List<Ty>)
    ensures
        r == not_mentioning(*l, id),
    decreases l,
{
    match l {
        List::Nil => List::Nil,
        List::Cons(h, t) => if h.contains_infer_var_id(id) {
            those_not_mentioning(t, id)
        } else {
            List::cons(h.copy(), those_not_mentioning(t, id))
        },
    }
}

/// The bounds of a variable as resolution sees them. An upper bound that
/// mentions the variable itself is a dependency and no instantiation.
#[derive(Debug, PartialEq, Eq)]
pub struct Effective {
    pub equality: Option<Ty>,
    pub lower: List<Ty>,
    pub upper: List<Ty>,
    pub dependencies: List<Ty>,
}

impl Effective {
    /// Whether a variable is left in one of the bounds.
    pub open spec fn open_ended(self) -> bool {
        (match self.equality {
            Some(t) => t.has_infer_var(),
            None => false,
        }) || any_infer_var(self.lower) || any_infer_var(self.upper) || any_infer_var(
            self.dependencies,
        )
    }

    fn is_open_ended(&self) -> (r: bool)
        ensures
            r == self.open_ended(),
    {
        (match &self.equality {
            Some(t) => t.contains_infer_var(),
            None => false,
        }) || any_contains_infer_var(&self.lower) || any_contains_infer_var(&self.upper)
            || any_contains_infer_var(&self.dependencies)
    }
}

/// The upper bounds that resolution works with: the proper ones, or the
/// erasures of the dependencies where there are no others.
pub open spec fn fallback(upper: List<Ty>, dependencies: List<Ty>) -> List<Ty> {
    if upper is Nil {
        all_erased(dependencies)
    } else {
        upper
    }
}

/// The upper bounds that resolution works with.
pub fn with_erasure_fallback(upper: &List<Ty>, dependencies: &List<Ty>) -> (r: List<Ty>)
    ensures
        r == fallback(*upper, *dependencies),
{
    if !upper.is_empty() || dependencies.is_empty() {
        return upper.copy();
    }
    erasure_all(dependencies)
}

/// The variables of a table.
pub open spec fn ids_of(l: List<Bounds>) -> List<u64>
    decreases l,
{
    match l {
        List::Nil => List::Nil,
        List::Cons(h, t) => List::Cons(Box::new(h.id), Box::new(ids_of(*t))),
    }
}

fn bound_ids(l: &List<Bounds>) -> (r: List<u64>)
    ensures
        r == ids_of(*l),
    decreases l,
{
    match l {
        List::Nil => List::Nil,
        List::Cons(h, t) => List::cons(h.id, bound_ids(t)),
    }
}

/// `id` at its place in an ascending list.
pub open spec fn placed(l: List<u64>, id: u64) -> List<u64>
    decreases l,
{
    match l {
        List::Nil => List::Cons(Box::new(id), Box::new(List::Nil)),
        List::Cons(h, t) => if id <= *h {
            List::Cons(Box::new(id), Box::new(l))
        } else {
            List::Cons(h, Box::new(placed(*t, id)))
        },
    }
}

fn place(l: List<u64>, id: u64) -> (r: List<u64>)
    ensures
        r == placed(l, id),
    decreases l,
{
    match l {
        List::Nil => List::cons(id, List::Nil),
        List::Cons(h, t) => if id <= *h {
            List::cons(id, List::Cons(h, t))
        } else {
            List::Cons(h, Box::new(place(*t, id)))
        },
    }
}

/// The variables without a type yet, in ascending order.
pub open spec fn unresolved(ids: List<u64>, map: VarMap) -> List<u64>
    decreases ids,
{
    match ids {
        List::Nil => List::Nil,
        List::Cons(h, t) => if var_value(map, *h) is Some {
            unresolved(*t, map)
        } else {
            placed(unresolved(*t, map), *h)
        },
    }
}

fn unresolved_ids(ids: &List<u64>, map: &VarMap) -> (r: List<u64>)
    ensures
        r == unresolved(*ids, *map),
    decreases ids,
{
    match ids {
        List::Nil => List::Nil,
        List::Cons(h, t) => {
            let rest = unresolved_ids(t, map);
            if lookup_var(map, **h).is_some() {
                rest
            } else {
                place(rest, **h)
            }
        },
    }
}

impl Inference {
    /// The bounds of `id` with the resolved variables replaced. With
    /// `estimate`, the others are taken for `Object`.
    pub open spec fn effective(self, id: u64, map: VarMap, estimate: bool) -> Effective {
        let b = entry(self.bounds, id);
        let upper = all_subst_infer(b.upper, map);
        let e = Effective {
            equality: match b.equality {
                Some(t) => Some(t.subst_infer(map)),
                None => None,
            },
            lower: all_subst_infer(b.lower, map),
            upper: not_mentioning(upper, id),
            dependencies: mentioning(upper, id),
        };
        if estimate {
            Effective {
                equality: match e.equality {
                    Some(t) => Some(t.without_infer_vars()),
                    None => None,
                },
                lower: all_without_infer(e.lower),
                upper: all_without_infer(e.upper),
                dependencies: all_without_infer(e.dependencies),
            }
        } else {
            e
        }
    }

    /// The bounds of `id` as resolution sees them.
    pub fn effective_bounds(&self, id: u64, map: &VarMap, estimate: bool) -> (r: Effective)
        ensures
            r == self.effective(id, *map, estimate),
    {
        let b = bounds_entry(&self.bounds, id);
        let all_upper = substitute_infer_all(&b.upper, map);
        let equality = match &b.equality {
            Some(t) => Some(t.substitute_infer(map)),
            None => None,
        };
        let lower = substitute_infer_all(&b.lower, map);
        let upper = those_not_mentioning(&all_upper, id);
        let dependencies = those_mentioning(&all_upper, id);
        if estimate {
            Effective {
                equality: match &equality {
                    Some(t) => Some(t.erase_infer_vars()),
                    None => None,
                },
                lower: erase_infer_vars_all(&lower),
                upper: erase_infer_vars_all(&upper),
                dependencies: erase_infer_vars_all(&dependencies),
            }
        } else {
            Effective { equality, lower, upper, dependencies }
        }
    }

    /// The instantiation of `id` from bounds that are resolved.
    pub open spec fn instance<D: TyDatabase>(self, db: &D, id: u64, e: Effective) -> Option<Ty> {
        instantiation(
            db,
            e.lower,
            fallback(e.upper, e.dependencies),
            e.equality,
            self.throws.has(id),
        )
    }

    fn instantiate_from<D: TyDatabase>(&self, db: &D, id: u64, e: Effective) -> (r: Option<Ty>)
        ensures
            r == self.instance(db, id, e),
    {
        let upper = with_erasure_fallback(&e.upper, &e.dependencies);
        pick_instantiation(db, &e.lower, &upper, e.equality, self.throws.contains(&id))
    }

    /// The map with a type for every variable of `ids` whose bounds are
    /// resolved by then, and whether there was one; none where a variable has
    /// no instantiation.
    pub open spec fn resolved_pass<D: TyDatabase>(self, db: &D, ids: List<u64>, map: VarMap) -> Option<
        (VarMap, bool),
    >
        decreases ids,
    {
        match ids {
            List::Nil => Some((map, false)),
            List::Cons(id, rest) => {
                let e = self.effective(*id, map, false);
                if var_value(map, *id) is Some || e.open_ended() {
                    self.resolved_pass(db, *rest, map)
                } else {
                    match self.instance(db, *id, e) {
                        None => None,
                        Some(inst) => match self.resolved_pass(
                            db,
                            *rest,
                            var_insert(map, *id, inst),
                        ) {
                            None => None,
                            Some((out, _)) => Some((out, true)),
                        },
                    }
                }
            },
        }
    }

    fn resolve_pass<D: TyDatabase>(&self, db: &D, ids: &List<u64>, map: VarMap) -> (r: Option<
        (VarMap, bool),
    >)
        ensures
            r == self.resolved_pass(db, *ids, map),
        decreases ids,
    {
        match ids {
            List::Nil => Some((map, false)),
            List::Cons(id, rest) => {
                let e = self.effective_bounds(**id, &map, false);
                if lookup_var(&map, **id).is_some() || e.is_open_ended() {
                    return self.resolve_pass(db, rest, map);
                }
                match self.instantiate_from(db, **id, e) {
                    None => None,
                    Some(inst) => match self.resolve_pass(db, rest, insert_var(map, **id, inst)) {
                        None => None,
                        Some((out, _)) => Some((out, true)),
                    },
                }
            },
        }
    }

    /// The map with a type for each of the variables, the open references
    /// among their bounds taken for `Object`.
    pub open spec fn estimated<D: TyDatabase>(self, db: &D, ids: List<u64>, map: VarMap) -> Option<
        VarMap,
    >
        decreases ids,
    {
        match ids {
            List::Nil => Some(map),
            List::Cons(id, rest) => match self.instance(db, *id, self.effective(*id, map, true)) {
                None => None,
                Some(inst) => self.estimated(db, *rest, var_insert(map, *id, inst)),
            },
        }
    }

    fn estimate<D: TyDatabase>(&self, db: &D, ids: &List<u64>, map: VarMap) -> (r: Option<VarMap>)
        ensures
            r == self.estimated(db, *ids, map),
        decreases ids,
    {
        match ids {
            List::Nil => Some(map),
            List::Cons(id, rest) => {
                let e = self.effective_bounds(**id, &map, true);
                match self.instantiate_from(db, **id, e) {
                    None => None,
                    Some(inst) => self.estimate(db, rest, insert_var(map, **id, inst)),
                }
            },
        }
    }

    /// The map after as many passes as there are variables without a type,
    /// bounded by the elements of `rounds`: where a pass finds no variable it
    /// can resolve, the rest is estimated.
    pub open spec fn resolved_rounds<D: TyDatabase>(
        self,
        db: &D,
        ids: List<u64>,
        map: VarMap,
        rounds: List<u64>,
    ) -> Option<VarMap>
        decreases rounds,
    {
        match rounds {
            List::Nil => Some(map),
            List::Cons(_, more) => match self.resolved_pass(db, ids, map) {
                None => None,
                Some((next, progress)) => if progress {
                    self.resolved_rounds(db, ids, next, *more)
                } else {
                    match unresolved(ids, next) {
                        List::Nil => Some(next),
                        rest => match self.estimated(db, rest, next) {
                            None => None,
                            Some(all) => self.resolved_rounds(db, ids, all, *more),
                        },
                    }
                },
            },
        }
    }

    fn resolve_rounds<D: TyDatabase>(
        &self,
        db: &D,
        ids: &List<u64>,
        map: VarMap,
        rounds: &List<u64>,
    ) -> (r: Option<VarMap>)
        ensures
            r == self.resolved_rounds(db, *ids, map, *rounds),
        decreases rounds,
    {
        match rounds {
            List::Nil => Some(map),
            List::Cons(_, more) => match self.resolve_pass(db, ids, map) {
                None => None,
                Some((next, progress)) => {
                    if progress {
                        return self.resolve_rounds(db, ids, next, more);
                    }
                    let rest = unresolved_ids(ids, &next);
                    if rest.is_empty() {
                        return Some(next);
                    }
                    match self.estimate(db, &rest, next) {
                        None => None,
                        Some(all) => self.resolve_rounds(db, ids, all, more),
                    }
                },
            },
        }
    }
}

/// Whether the dependency bounds hold of the resolved instantiation, as far as
/// they are free of variables by then.
pub open spec fn dependencies_hold<D: TyDatabase>(
    db: &D,
    inst: Ty,
    deps: List<Ty>,
    map: VarMap,
) -> bool
    decreases deps,
{
    match deps {
        List::Nil => true,
        List::Cons(d, t) => (d.subst_infer(map).has_infer_var() || compatible(
            db,
            inst,
            d.subst_infer(map),
        )) && dependencies_hold(db, inst, *t, map),
    }
}

fn do_dependencies_hold<D: TyDatabase>(db: &D, inst: &Ty, deps: &List<Ty>, map: &VarMap) -> (r:
    bool)
    ensures
        r == dependencies_hold(db, *inst, *deps, *map),
    decreases deps,
{
    match deps {
        List::Nil => true,
        List::Cons(d, t) => {
            let bound = d.substitute_infer(map);
            (bound.contains_infer_var() || bounds_compatible(db, inst, &bound))
                && do_dependencies_hold(db, inst, t, map)
        },
    }
}

/// Whether the dependency bounds of every variable hold.
pub open spec fn all_dependencies_hold<D: TyDatabase>(
    db: &D,
    bounds: List<Bounds>,
    map: VarMap,
) -> bool
    decreases bounds,
{
    match bounds {
        List::Nil => true,
        List::Cons(b, t) => (match var_value(map, b.id) {
            None => true,
            Some(inst) => inst.has_infer_var() || dependencies_hold(
                db,
                inst,
                mentioning(b.upper, b.id),
                map,
            ),
        }) && all_dependencies_hold(db, *t, map),
    }
}

fn do_all_dependencies_hold<D: TyDatabase>(db: &D, bounds: &List<Bounds>, map: &VarMap) -> (r: bool)
    ensures
        r == all_dependencies_hold(db, *bounds, *map),
    decreases bounds,
{
    match bounds {
        List::Nil => true,
        List::Cons(b, t) => (match lookup_var(map, b.id) {
            None => true,
            Some(inst) => inst.contains_infer_var() || do_dependencies_hold(
                db,
                &inst,
                &those_mentioning(&b.upper, b.id),
                map,
            ),
        }) && do_all_dependencies_hold(db, t, map),
    }
}

/// Twice the elements, at least one.
pub open spec fn twice(keys: List<u64>) -> List<u64> {
    match keys {
        List::Nil => List::Cons(Box::new(0u64), Box::new(List::Nil)),
        _ => keys.plus(keys),
    }
}

impl Inference {
    /// The types of all the variables, or none where the bounds admit none.
    pub open spec fn resolution<D: TyDatabase>(self, db: &D) -> Option<VarMap> {
        let seeded = keys_of(self.applied);
        let start = settled(
            self.applied,
            seeded,
            List::Cons(Box::new(0u64), Box::new(seeded)),
        );
        let ids = ids_of(self.bounds);
        let rounds = List::Cons(
            Box::new(0u64),
            Box::new(List::Cons(Box::new(0u64), Box::new(ids))),
        );
        match self.resolved_rounds(db, ids, start, rounds) {
            None => None,
            Some(map) => if all_dependencies_hold(db, self.bounds, map) {
                Some(settled(map, keys_of(map), twice(keys_of(map))))
            } else {
                None
            },
        }
    }

    /// Resolves the bounds to a type for every variable.
    pub fn resolve<D: TyDatabase>(&self, db: &D) -> (r: Option<VarMap>)
        ensures
            r == self.resolution(db),
    {
        let seeded = map_keys(&self.applied);
        let counter = List::cons(0u64, seeded.copy());
        let start = settle(self.applied.copy(), &seeded, &counter);
        let ids = bound_ids(&self.bounds);
        let rounds = List::cons(0u64, List::cons(0u64, ids.copy()));
        match self.resolve_rounds(db, &ids, start, &rounds) {
            None => None,
            Some(map) => {
                if !do_all_dependencies_hold(db, &self.bounds, &map) {
                    return None;
                }
                let keys = map_keys(&map);
                let counter = match &keys {
                    List::Nil => List::cons(0u64, List::Nil),
                    List::Cons(_, _) => keys.copy().append(keys.copy()),
                };
                Some(settle(map, &keys, &counter))
            },
        }
    }

    /// The table with its constraints reduced and its bounds incorporated, and
    /// whether they were found consistent.
    pub open spec fn consistent<D: TyDatabase>(self, db: &D, phase: InvocationPhase) -> (
        Inference,
        bool,
    ) {
        let (a, drained) = self.drained(db, phase, db.limit() as nat);
        if drained != Some(true) {
            (a, false)
        } else {
            let (b, verdict) = a.incorporated(db, phase, db.limit() as nat);
            (b, verdict == Some(true))
        }
    }

    /// The types of the variables after a full solve.
    pub open spec fn solved<D: TyDatabase>(self, db: &D, phase: InvocationPhase) -> (
        Inference,
        Option<VarMap>,
    ) {
        let (a, ok) = self.consistent(db, phase);
        if ok {
            (a, a.resolution(db))
        } else {
            (a, None)
        }
    }

    /// Whether the bounds are consistent with the constraints contributed so
    /// far. No variable is resolved.
    pub fn check_consistent<D: TyDatabase>(&mut self, db: &D, phase: InvocationPhase) -> (r: bool)
        ensures
            (*final(self), r) == old(self).consistent(db, phase),
    {
        if !self.drain_worklist(db, phase) {
            return false;
        }
        self.incorporate(db, phase)
    }

    /// Reduces the pending constraints, incorporates the bounds and resolves
    /// them; `None` when they are contradictory.
    pub fn solve_after<D: TyDatabase>(&mut self, db: &D, phase: InvocationPhase) -> (r: Option<
        VarMap,
    >)
        ensures
            (*final(self), r) == old(self).solved(db, phase),
    {
        if !self.check_consistent(db, phase) {
            return None;
        }
        self.resolve(db)
    }

    /// Adds the constraints and solves.
    pub fn solve<D: TyDatabase>(
        &mut self,
        db: &D,
        phase: InvocationPhase,
        constraints: List<Constraint>,
    ) -> (r: Option<VarMap>)
        ensures
            (*final(self), r) == old(self).plus_work(constraints).solved(db, phase),
    {
        self.worklist = self.worklist.copy().append(constraints);
        self.solve_after(db, phase)
    }
}

/// Whether every variable with a type in `a` has one in `b`.
pub open spec fn covers(b: VarMap, a: VarMap) -> bool {
    forall|x: u64| var_value(a, x) is Some ==> #[trigger] var_value(b, x) is Some
}

proof fn lemma_insert_covers(map: VarMap, id: u64, ty: Ty)
    ensures
        covers(var_insert(map, id, ty), map),
        var_value(var_insert(map, id, ty), id) is Some,
{
    assert forall|x: u64| var_value(map, x) is Some implies #[trigger] var_value(
        var_insert(map, id, ty),
        x,
    ) is Some by {
        lemma_var_insert(map, id, ty, x);
    }
    lemma_var_insert(map, id, ty, id);
}

proof fn lemma_settled_once_covers(map: VarMap, keys: List<u64>)
    ensures
        covers(settled_once(map, keys).0, map),
    decreases keys,
{
    if let List::Cons(k, rest) = keys {
        match var_value(map, *k) {
            None => {
                lemma_settled_once_covers(map, *rest);
            },
            Some(v) => {
                if v.subst_infer(map) == v {
                    lemma_settled_once_covers(map, *rest);
                } else {
                    let next = var_insert(map, *k, v.subst_infer(map));
                    lemma_insert_covers(map, *k, v.subst_infer(map));
                    lemma_settled_once_covers(next, *rest);
                }
            },
        }
    }
}

proof fn lemma_settled_covers(map: VarMap, keys: List<u64>, rounds: List<u64>)
    ensures
        covers(settled(map, keys, rounds), map),
    decreases rounds,
{
    if let List::Cons(_, rest) = rounds {
        lemma_settled_once_covers(map, keys);
        lemma_settled_covers(settled_once(map, keys).0, keys, *rest);
    }
}

proof fn lemma_placed(l: List<u64>, id: u64, x: u64)
    ensures
        placed(l, id).count() == l.count() + 1,
        placed(l, id).has(x) == (x == id || l.has(x)),
    decreases l,
{
    reveal_with_fuel(List::has, 2);
    reveal_with_fuel(List::count, 2);
    if let List::Cons(_, t) = l {
        lemma_placed(*t, id, x);
    }
}

proof fn lemma_unresolved_has(ids: List<u64>, map: VarMap, x: u64)
    ensures
        unresolved(ids, map).has(x) == (ids.has(x) && var_value(map, x) is None),
        unresolved(ids, map).count() <= ids.count(),
    decreases ids,
{
    if let List::Cons(h, t) = ids {
        lemma_unresolved_has(*t, map, x);
        lemma_placed(unresolved(*t, map), *h, x);
    }
}

proof fn lemma_unresolved_shrinks(ids: List<u64>, a: VarMap, b: VarMap)
    requires
        covers(b, a),
    ensures
        unresolved(ids, b).count() <= unresolved(ids, a).count(),
    decreases ids,
{
    if let List::Cons(h, t) = ids {
        lemma_unresolved_shrinks(*t, a, b);
        lemma_placed(unresolved(*t, a), *h, *h);
        lemma_placed(unresolved(*t, b), *h, *h);
        assert(var_value(a, *h) is Some ==> var_value(b, *h) is Some);
    }
}

proof fn lemma_unresolved_drops(ids: List<u64>, a: VarMap, b: VarMap, x: u64)
    requires
        covers(b, a),
        ids.has(x),
        var_value(a, x) is None,
        var_value(b, x) is Some,
    ensures
        unresolved(ids, b).count() < unresolved(ids, a).count(),
    decreases ids,
{
    if let List::Cons(h, t) = ids {
        lemma_placed(unresolved(*t, a), *h, *h);
        lemma_placed(unresolved(*t, b), *h, *h);
        assert(var_value(a, *h) is Some ==> var_value(b, *h) is Some);
        lemma_unresolved_shrinks(*t, a, b);
        if *h != x {
            lemma_unresolved_drops(*t, a, b, x);
        }
    }
}

proof fn lemma_pass<D: TyDatabase>(
    table: Inference,
    db: &D,
    ids: List<u64>,
    map: VarMap,
    out: VarMap,
    progress: bool,
)
    requires
        table.resolved_pass(db, ids, map) == Some((out, progress)),
    ensures
        covers(out, map),
        progress ==> exists|x: u64|
            ids.has(x) && var_value(map, x) is None && #[trigger] var_value(out, x) is Some,
        !progress ==> out == map,
    decreases ids,
{
    if let List::Cons(id, rest) = ids {
        let e = table.effective(*id, map, false);
        if var_value(map, *id) is Some || e.open_ended() {
            lemma_pass(table, db, *rest, map, out, progress);
        } else if let Some(inst) = table.instance(db, *id, e) {
            let next = var_insert(map, *id, inst);
            lemma_insert_covers(map, *id, inst);
            if let Some((last, more)) = table.resolved_pass(db, *rest, next) {
                lemma_pass(table, db, *rest, next, last, more);
            }
            assert(var_value(next, *id) is Some ==> var_value(out, *id) is Some);
            assert(ids.has(*id));
        }
    }
}

proof fn lemma_estimated<D: TyDatabase>(
    table: Inference,
    db: &D,
    ids: List<u64>,
    map: VarMap,
    x: u64,
)
    requires
        table.estimated(db, ids, map) is Some,
    ensures
        covers(table.estimated(db, ids, map)->0, map),
        ids.has(x) ==> var_value(table.estimated(db, ids, map)->0, x) is Some,
    decreases ids,
{
    if let List::Cons(id, rest) = ids {
        let inst = table.instance(db, *id, table.effective(*id, map, true))->0;
        let next = var_insert(map, *id, inst);
        lemma_insert_covers(map, *id, inst);
        lemma_estimated(table, db, *rest, next, x);
        let out = table.estimated(db, *rest, next)->0;
        assert(var_value(next, *id) is Some ==> var_value(out, *id) is Some);
    }
}

proof fn lemma_rounds<D: TyDatabase>(
    table: Inference,
    db: &D,
    ids: List<u64>,
    map: VarMap,
    rounds: List<u64>,
    x: u64,
)
    requires
        table.resolved_rounds(db, ids, map, rounds) is Some,
        ids.has(x),
        rounds.count() > unresolved(ids, map).count() || unresolved(ids, map) is Nil,
    ensures
        var_value(table.resolved_rounds(db, ids, map, rounds)->0, x) is Some,
    decreases rounds,
{
    lemma_unresolved_has(ids, map, x);
    if let List::Cons(_, more) = rounds {
        let (next, progress) = table.resolved_pass(db, ids, map)->0;
        lemma_pass(table, db, ids, map, next, progress);
        lemma_unresolved_has(ids, next, x);
        lemma_unresolved_shrinks(ids, map, next);
        if progress {
            let y = choose|y: u64|
                ids.has(y) && var_value(map, y) is None && #[trigger] var_value(next, y) is Some;
            lemma_unresolved_drops(ids, map, next, y);
            lemma_rounds(table, db, ids, next, *more, x);
        } else {
            let rest = unresolved(ids, next);
            if !(rest is Nil) {
                let all = table.estimated(db, rest, next)->0;
                assert forall|y: u64| ids.has(y) implies #[trigger] var_value(all, y) is Some by {
                    lemma_estimated(table, db, rest, next, y);
                    lemma_unresolved_has(ids, next, y);
                }
                lemma_all_resolved(ids, all);
                lemma_rounds(table, db, ids, all, *more, x);
            }
        }
    }
}

proof fn lemma_rounds_cover<D: TyDatabase>(
    table: Inference,
    db: &D,
    ids: List<u64>,
    map: VarMap,
    rounds: List<u64>,
)
    requires
        table.resolved_rounds(db, ids, map, rounds) is Some,
    ensures
        covers(table.resolved_rounds(db, ids, map, rounds)->0, map),
    decreases rounds,
{
    if let List::Cons(_, more) = rounds {
        let (next, progress) = table.resolved_pass(db, ids, map)->0;
        lemma_pass(table, db, ids, map, next, progress);
        if progress {
            lemma_rounds_cover(table, db, ids, next, *more);
        } else {
            let rest = unresolved(ids, next);
            if !(rest is Nil) {
                let all = table.estimated(db, rest, next)->0;
                lemma_estimated(table, db, rest, next, 0);
                lemma_rounds_cover(table, db, ids, all, *more);
            }
        }
    }
}

proof fn lemma_all_resolved(ids: List<u64>, map: VarMap)
    requires
        forall|y: u64| ids.has(y) ==> #[trigger] var_value(map, y) is Some,
    ensures
        unresolved(ids, map) is Nil,
    decreases ids,
{
    if let List::Cons(h, t) = ids {
        assert(ids.has(*h));
        assert(var_value(map, *h) is Some);
        assert forall|y: u64| t.has(y) implies #[trigger] var_value(map, y) is Some by {
            assert(ids.has(y));
        }
        lemma_all_resolved(*t, map);
    }
}

/// A resolution gives every variable of the table a type, those that were
/// substituted away among them: the passes end before the rounds run out.
pub proof fn law_resolution_is_total<D: TyDatabase>(table: Inference, db: &D, id: u64)
    requires
        table.resolution(db) is Some,
        ids_of(table.bounds).has(id) || var_value(table.applied, id) is Some,
    ensures
        var_value(table.resolution(db)->0, id) is Some,
{
    let seeded = keys_of(table.applied);
    let start = settled(table.applied, seeded, List::Cons(Box::new(0u64), Box::new(seeded)));
    let ids = ids_of(table.bounds);
    let one = List::Cons(Box::new(0u64), Box::new(ids));
    let rounds = List::Cons(Box::new(0u64), Box::new(one));
    lemma_unresolved_has(ids, start, id);
    assert(rounds.count() == one.count() + 1);
    assert(one.count() == ids.count() + 1);
    if ids.has(id) {
        lemma_rounds(table, db, ids, start, rounds, id);
    }
    lemma_settled_covers(table.applied, seeded, List::Cons(Box::new(0u64), Box::new(seeded)));
    lemma_rounds_cover(table, db, ids, start, rounds);
    let map = table.resolved_rounds(db, ids, start, rounds)->0;
    if var_value(table.applied, id) is Some {
        assert(var_value(start, id) is Some);
    }
    lemma_settled_covers(map, keys_of(map), twice(keys_of(map)));
    assert(var_value(map, id) is Some);
}

} // verus!
