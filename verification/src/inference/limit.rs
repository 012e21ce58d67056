//! What a larger step limit changes: nothing, where the limit was large
//! enough.
use crate::db::TyDatabase;
use crate::inference::incorporate::{
    agree_on_reduction, equalities, implied_all, lemma_same_check, lemma_same_climb,
    lemma_same_drain, lemma_same_elimination,
};
use crate::inference::instantiation::{
    all_unchecked, equality_within, instantiation, redundant, specific, within_all,
};
use crate::inference::lub::{
    all_boxed, best_all, best_of, bound_sets, erased_candidates, law_deeper_sets_are_the_same, lcp,
    lcp_of_pair, lcta, lcta_all, lub, lub_impl, lub_set, minimal, minimal_of, pair,
    parameterizations, st_each, st_of, super_ends, super_set, super_sets, union_all,
};
use crate::inference::reduce::{
    climb_ends, climb_from, law_more_steps_change_nothing, law_more_steps_find_the_same,
    super_parameterizations,
};
use crate::inference::resolve::{all_dependencies_hold, dependencies_hold, unresolved};
use crate::inference::{Bounds, Inference, InvocationPhase};
use crate::list::List;
use crate::names::Name;
use crate::ty::{var_insert, var_value, Ty, VarMap, WildcardBound};
use vstd::prelude::*;

verus! {

/// Whether two databases answer alike but have limits of their own.
pub open spec fn same_answers<D: TyDatabase, E: TyDatabase>(d: &D, e: &E) -> bool {
    &&& forall|t: Ty| #[trigger] d.parents(t) == e.parents(t)
    &&& forall|t: Ty| #[trigger] d.captured(t) == e.captured(t)
    &&& forall|a: Ty, b: Ty| #[trigger] d.subtype(a, b) == e.subtype(a, b)
    &&& forall|a: Ty, b: Ty| #[trigger] d.assignable(a, b) == e.assignable(a, b)
    &&& forall|a: Ty, b: Ty| #[trigger] d.strict(a, b) == e.strict(a, b)
    &&& forall|n: Name| #[trigger] d.class_info(n) == e.class_info(n)
}

/// Whether the searches among the supertypes of a type end within the limit.
pub open spec fn searches_end<D: TyDatabase>(db: &D) -> bool {
    &&& forall|s: Ty, n: Name| #[trigger] climb_ends(db, climb_from(s), n, db.limit() as nat)
    &&& forall|t: Ty| #[trigger] super_ends(db, t, List::Nil, db.limit() as nat)
}

/// Whether two databases answer alike, and find the same supertypes.
pub open spec fn same_sets<D: TyDatabase, E: TyDatabase>(d: &D, e: &E) -> bool {
    &&& same_answers(d, e)
    &&& forall|t: Ty| #[trigger] st_of(d, t) == st_of(e, t)
}

proof fn lemma_same_super<D: TyDatabase, E: TyDatabase>(
    d: &D,
    e: &E,
    ty: Ty,
    seen: List<Ty>,
    depth: nat,
)
    requires
        same_answers(d, e),
    ensures
        super_set(d, ty, seen, depth) == super_set(e, ty, seen, depth),
    decreases depth, 0nat, List::<Ty>::Nil,
{
    if !seen.has(ty) && depth > 0 {
        let below = (depth - 1) as nat;
        match ty {
            Ty::TypeVar { scope: _, bounds, lower: _ } => {
                lemma_same_bounds(d, e, *bounds, seen.with(ty), below);
            },
            _ => {
                lemma_same_supers(d, e, d.parents(ty), seen.with(ty), below);
            },
        }
    }
}

proof fn lemma_same_supers<D: TyDatabase, E: TyDatabase>(
    d: &D,
    e: &E,
    tys: List<Ty>,
    seen: List<Ty>,
    depth: nat,
)
    requires
        same_answers(d, e),
    ensures
        super_sets(d, tys, seen, depth) == super_sets(e, tys, seen, depth),
    decreases depth, 1nat, tys,
{
    if let List::Cons(h, t) = tys {
        lemma_same_super(d, e, *h, seen, depth);
        lemma_same_supers(d, e, *t, super_set(d, *h, seen, depth), depth);
    }
}

proof fn lemma_same_bounds<D: TyDatabase, E: TyDatabase>(
    d: &D,
    e: &E,
    bounds: List<Ty>,
    seen: List<Ty>,
    depth: nat,
)
    requires
        same_answers(d, e),
    ensures
        bound_sets(d, bounds, seen, depth) == bound_sets(e, bounds, seen, depth),
    decreases depth, 2nat, bounds,
{
    if let List::Cons(h, t) = bounds {
        let met = super_set(d, *h, seen, depth);
        lemma_same_super(d, e, *h, seen, depth);
        lemma_same_supers(d, e, d.parents(*h), met, depth);
        lemma_same_bounds(d, e, *t, super_sets(d, d.parents(*h), met, depth), depth);
    }
}

proof fn lemma_same_each<D: TyDatabase, E: TyDatabase>(
    d: &D,
    e: &E,
    tys: List<Ty>,
)
    requires
        same_sets(d, e),
    ensures
        st_each(d, tys) == st_each(e, tys),
    decreases tys,
{
    if let List::Cons(h, t) = tys {
        assert(st_of(d, *h) == st_of(e, *h));
        lemma_same_each(d, e, *t);
    }
}

proof fn lemma_same_minimal<D: TyDatabase, E: TyDatabase>(
    d: &D,
    e: &E,
    c: Ty,
    others: List<Ty>,
)
    requires
        same_sets(d, e),
    ensures
        minimal(d, c, others) == minimal(e, c, others),
    decreases others,
{
    if let List::Cons(_, t) = others {
        lemma_same_minimal(d, e, c, *t);
    }
}

proof fn lemma_same_minimal_of<D: TyDatabase, E: TyDatabase>(
    d: &D,
    e: &E,
    ec: List<Ty>,
    all: List<Ty>,
)
    requires
        same_sets(d, e),
    ensures
        minimal_of(d, ec, all) == minimal_of(e, ec, all),
    decreases ec,
{
    if let List::Cons(h, t) = ec {
        lemma_same_minimal(d, e, *h, all);
        lemma_same_minimal_of(d, e, *t, all);
    }
}

proof fn lemma_same_lub_set<D: TyDatabase, E: TyDatabase>(
    d: &D,
    e: &E,
    types: List<Ty>,
    guard: List<List<Ty>>,
    room: nat,
)
    requires
        same_sets(d, e),
    ensures
        lub_set(d, types, guard, room) == lub_set(e, types, guard, room),
    decreases room, 0nat, List::<Ty>::Nil,
{
    if room > 0 {
        let inner = List::Cons(Box::new(types), Box::new(guard));
        lemma_same_lub_impl(d, e, types, inner, (room - 1) as nat);
    }
}

proof fn lemma_same_lub_impl<D: TyDatabase, E: TyDatabase>(
    d: &D,
    e: &E,
    types: List<Ty>,
    guard: List<List<Ty>>,
    room: nat,
)
    requires
        same_sets(d, e),
    ensures
        lub_impl(d, types, guard, room) == lub_impl(e, types, guard, room),
    decreases room, 7nat, List::<Ty>::Nil,
{
    lemma_same_each(d, e, types);
    let sets = st_each(d, types);
    let ec = erased_candidates(sets);
    lemma_same_minimal_of(d, e, ec, ec);
    lemma_same_best_all(d, e, minimal_of(d, ec, ec), union_all(sets, List::Nil), guard, room);
}

proof fn lemma_same_best_all<D: TyDatabase, E: TyDatabase>(
    d: &D,
    e: &E,
    mec: List<Ty>,
    all: List<Ty>,
    guard: List<List<Ty>>,
    room: nat,
)
    requires
        same_sets(d, e),
    ensures
        best_all(d, mec, all, guard, room) == best_all(e, mec, all, guard, room),
    decreases room, 6nat, mec,
{
    if let List::Cons(h, t) = mec {
        lemma_same_best(d, e, *h, all, guard, room);
        lemma_same_best_all(d, e, *t, all, guard, room);
    }
}

proof fn lemma_same_best<D: TyDatabase, E: TyDatabase>(
    d: &D,
    e: &E,
    c: Ty,
    all: List<Ty>,
    guard: List<List<Ty>>,
    room: nat,
)
    requires
        same_sets(d, e),
    ensures
        best_of(d, c, all, guard, room) == best_of(e, c, all, guard, room),
    decreases room, 5nat, List::<Ty>::Nil,
{
    if let Ty::Reference { name, args: _, local: _ } = c {
        if let List::Cons(h, t) = parameterizations(all, name) {
            lemma_same_lcp(d, e, *h, *t, guard, room);
        }
    }
}

proof fn lemma_same_lcp<D: TyDatabase, E: TyDatabase>(
    d: &D,
    e: &E,
    acc: Ty,
    others: List<Ty>,
    guard: List<List<Ty>>,
    room: nat,
)
    requires
        same_sets(d, e),
    ensures
        lcp(d, acc, others, guard, room) == lcp(e, acc, others, guard, room),
    decreases room, 4nat, others,
{
    if let List::Cons(h, t) = others {
        lemma_same_lcp_pair(d, e, acc, *h, guard, room);
        lemma_same_lcp(d, e, lcp_of_pair(d, acc, *h, guard, room), *t, guard, room);
    }
}

proof fn lemma_same_lcp_pair<D: TyDatabase, E: TyDatabase>(
    d: &D,
    e: &E,
    a: Ty,
    b: Ty,
    guard: List<List<Ty>>,
    room: nat,
)
    requires
        same_sets(d, e),
    ensures
        lcp_of_pair(d, a, b, guard, room) == lcp_of_pair(e, a, b, guard, room),
    decreases room, 3nat, List::<Ty>::Nil,
{
    if let Ty::Reference { name: _, args: xs, local: _ } = a {
        if let Ty::Reference { name: _, args: ys, local: _ } = b {
            lemma_same_lcta_all(d, e, *xs, *ys, guard, room);
        }
    }
}

proof fn lemma_same_lcta_all<D: TyDatabase, E: TyDatabase>(
    d: &D,
    e: &E,
    xs: List<Ty>,
    ys: List<Ty>,
    guard: List<List<Ty>>,
    room: nat,
)
    requires
        same_sets(d, e),
    ensures
        lcta_all(d, xs, ys, guard, room) == lcta_all(e, xs, ys, guard, room),
    decreases room, 2nat, xs,
{
    if let List::Cons(x, xt) = xs {
        if let List::Cons(y, yt) = ys {
            lemma_same_lcta(d, e, *x, *y, guard, room);
            lemma_same_lcta_all(d, e, *xt, *yt, guard, room);
        }
    }
}

proof fn lemma_same_lcta<D: TyDatabase, E: TyDatabase>(
    d: &D,
    e: &E,
    x: Ty,
    y: Ty,
    guard: List<List<Ty>>,
    room: nat,
)
    requires
        same_sets(d, e),
    ensures
        lcta(d, x, y, guard, room) == lcta(e, x, y, guard, room),
    decreases room, 1nat, List::<Ty>::Nil,
{
    let bx = match x {
        Ty::Wildcard(WildcardBound::Upper(b)) => *b,
        _ => x,
    };
    let by = match y {
        Ty::Wildcard(WildcardBound::Upper(b)) => *b,
        _ => y,
    };
    lemma_same_lub_set(d, e, pair(bx, by), guard, room);
}

proof fn lemma_same_lub<D: TyDatabase, E: TyDatabase>(d: &D, e: &E, types: List<Ty>)
    requires
        same_sets(d, e),
    ensures
        lub(d, types) == lub(e, types),
{
    let depth = crate::inference::lub::LUB_DEPTH as nat;
    lemma_same_lub_set(d, e, all_boxed(types), List::Nil, depth);
    let proper = crate::inference::lub::non_null(types);
    lemma_same_lub_set(d, e, all_boxed(proper), List::Nil, depth);
}

proof fn lemma_same_within<D: TyDatabase, E: TyDatabase>(
    d: &D,
    e: &E,
    inst: Ty,
    upper: List<Ty>,
)
    requires
        same_sets(d, e),
    ensures
        within_all(d, inst, upper) == within_all(e, inst, upper),
    decreases upper,
{
    if let List::Cons(_, t) = upper {
        lemma_same_within(d, e, inst, *t);
    }
}

proof fn lemma_same_equality<D: TyDatabase, E: TyDatabase>(
    d: &D,
    e: &E,
    inst: Ty,
    upper: List<Ty>,
)
    requires
        same_sets(d, e),
    ensures
        equality_within(d, inst, upper) == equality_within(e, inst, upper),
    decreases upper,
{
    if let List::Cons(_, t) = upper {
        lemma_same_equality(d, e, inst, *t);
    }
}

proof fn lemma_same_unchecked<D: TyDatabase, E: TyDatabase>(
    d: &D,
    e: &E,
    l: List<Ty>,
)
    requires
        same_sets(d, e),
    ensures
        all_unchecked(d, l) == all_unchecked(e, l),
    decreases l,
{
    if let List::Cons(_, t) = l {
        lemma_same_unchecked(d, e, *t);
    }
}

proof fn lemma_same_redundant<D: TyDatabase, E: TyDatabase>(
    d: &D,
    e: &E,
    u: Ty,
    all: List<Ty>,
)
    requires
        same_sets(d, e),
    ensures
        redundant(d, u, all) == redundant(e, u, all),
    decreases all,
{
    if let List::Cons(_, t) = all {
        lemma_same_redundant(d, e, u, *t);
    }
}

proof fn lemma_same_specific<D: TyDatabase, E: TyDatabase>(
    d: &D,
    e: &E,
    l: List<Ty>,
    all: List<Ty>,
)
    requires
        same_sets(d, e),
    ensures
        specific(d, l, all) == specific(e, l, all),
    decreases l,
{
    if let List::Cons(h, t) = l {
        lemma_same_redundant(d, e, *h, all);
        lemma_same_specific(d, e, *t, all);
    }
}

proof fn lemma_same_instantiation<D: TyDatabase, E: TyDatabase>(
    d: &D,
    e: &E,
    lower: List<Ty>,
    upper: List<Ty>,
    equality: Option<Ty>,
    throws: bool,
)
    requires
        same_sets(d, e),
    ensures
        instantiation(d, lower, upper, equality, throws) == instantiation(
            e,
            lower,
            upper,
            equality,
            throws,
        ),
{
    if let Some(eq) = equality {
        lemma_same_equality(d, e, eq, upper);
    }
    lemma_same_lub(d, e, lower);
    lemma_same_within(
        d,
        e,
        crate::inference::instantiation::from_lower(d, lower, upper),
        upper,
    );
    lemma_same_unchecked(d, e, upper);
    let all = all_boxed(upper);
    lemma_same_specific(d, e, all, all);
    lemma_same_lub(d, e, all);
    lemma_same_lub(d, e, specific(d, all, all));
}

proof fn lemma_same_instance<D: TyDatabase, E: TyDatabase>(
    d: &D,
    e: &E,
    table: Inference,
    id: u64,
    b: crate::inference::resolve::Effective,
)
    requires
        same_sets(d, e),
    ensures
        table.instance(d, id, b) == table.instance(e, id, b),
{
    lemma_same_instantiation(
        d,
        e,
        b.lower,
        crate::inference::resolve::fallback(b.upper, b.dependencies),
        b.equality,
        table.throws.has(id),
    );
}

proof fn lemma_same_pass<D: TyDatabase, E: TyDatabase>(
    d: &D,
    e: &E,
    table: Inference,
    ids: List<u64>,
    map: VarMap,
)
    requires
        same_sets(d, e),
    ensures
        table.resolved_pass(d, ids, map) == table.resolved_pass(e, ids, map),
    decreases ids,
{
    if let List::Cons(id, rest) = ids {
        let b = table.effective(*id, map, false);
        lemma_same_instance(d, e, table, *id, b);
        lemma_same_pass(d, e, table, *rest, map);
        if let Some(inst) = table.instance(d, *id, b) {
            lemma_same_pass(d, e, table, *rest, var_insert(map, *id, inst));
        }
    }
}

proof fn lemma_same_estimate<D: TyDatabase, E: TyDatabase>(
    d: &D,
    e: &E,
    table: Inference,
    ids: List<u64>,
    map: VarMap,
)
    requires
        same_sets(d, e),
    ensures
        table.estimated(d, ids, map) == table.estimated(e, ids, map),
    decreases ids,
{
    if let List::Cons(id, rest) = ids {
        let b = table.effective(*id, map, true);
        lemma_same_instance(d, e, table, *id, b);
        if let Some(inst) = table.instance(d, *id, b) {
            lemma_same_estimate(d, e, table, *rest, var_insert(map, *id, inst));
        }
    }
}

proof fn lemma_same_rounds<D: TyDatabase, E: TyDatabase>(
    d: &D,
    e: &E,
    table: Inference,
    ids: List<u64>,
    map: VarMap,
    rounds: List<u64>,
)
    requires
        same_sets(d, e),
    ensures
        table.resolved_rounds(d, ids, map, rounds) == table.resolved_rounds(e, ids, map, rounds),
    decreases rounds,
{
    if let List::Cons(_, more) = rounds {
        lemma_same_pass(d, e, table, ids, map);
        if let Some((next, progress)) = table.resolved_pass(d, ids, map) {
            if progress {
                lemma_same_rounds(d, e, table, ids, next, *more);
            } else {
                let rest = unresolved(ids, next);
                lemma_same_estimate(d, e, table, rest, next);
                if let Some(all) = table.estimated(d, rest, next) {
                    lemma_same_rounds(d, e, table, ids, all, *more);
                }
            }
        }
    }
}

proof fn lemma_same_dependencies<D: TyDatabase, E: TyDatabase>(
    d: &D,
    e: &E,
    inst: Ty,
    deps: List<Ty>,
    map: VarMap,
)
    requires
        same_sets(d, e),
    ensures
        dependencies_hold(d, inst, deps, map) == dependencies_hold(e, inst, deps, map),
    decreases deps,
{
    if let List::Cons(_, t) = deps {
        lemma_same_dependencies(d, e, inst, *t, map);
    }
}

proof fn lemma_same_all_dependencies<D: TyDatabase, E: TyDatabase>(
    d: &D,
    e: &E,
    bounds: List<Bounds>,
    map: VarMap,
)
    requires
        same_sets(d, e),
    ensures
        all_dependencies_hold(d, bounds, map) == all_dependencies_hold(e, bounds, map),
    decreases bounds,
{
    if let List::Cons(b, t) = bounds {
        if let Some(inst) = var_value(map, b.id) {
            let deps = crate::inference::resolve::mentioning(b.upper, b.id);
            lemma_same_dependencies(d, e, inst, deps, map);
        }
        lemma_same_all_dependencies(d, e, *t, map);
    }
}

proof fn lemma_same_resolution<D: TyDatabase, E: TyDatabase>(d: &D, e: &E, table: Inference)
    requires
        same_sets(d, e),
    ensures
        table.resolution(d) == table.resolution(e),
{
    let seeded = crate::inference::resolve::keys_of(table.applied);
    let start = crate::inference::resolve::settled(
        table.applied,
        seeded,
        List::Cons(Box::new(0u64), Box::new(seeded)),
    );
    let ids = crate::inference::resolve::ids_of(table.bounds);
    let rounds = List::Cons(
        Box::new(0u64),
        Box::new(List::Cons(Box::new(0u64), Box::new(ids))),
    );
    lemma_same_rounds(d, e, table, ids, start, rounds);
    if let Some(map) = table.resolved_rounds(d, ids, start, rounds) {
        lemma_same_all_dependencies(d, e, table.bounds, map);
    }
}

proof fn lemma_same_incorporation<D: TyDatabase, E: TyDatabase>(
    d: &D,
    e: &E,
    table: Inference,
    phase: InvocationPhase,
    fuel: nat,
    more: nat,
)
    requires
        agree_on_reduction(d, e),
        d.limit() <= e.limit(),
        fuel <= more,
        table.incorporated(d, phase, fuel).1 == Some(true),
    ensures
        table.incorporated(e, phase, more) == table.incorporated(d, phase, fuel),
    decreases fuel,
{
    let eqs = equalities(table.bounds);
    lemma_same_elimination(d, e, table, eqs);
    if let Some(a) = table.eliminated_all(d, eqs) {
        let work = a.plus_work(implied_all(a.bounds));
        if work.drained(d, phase, d.limit() as nat).1 == Some(true) {
            law_more_steps_change_nothing(d, work, phase, d.limit() as nat, e.limit() as nat);
            lemma_same_drain(d, e, work, phase, e.limit() as nat);
            let b = work.drained(d, phase, d.limit() as nat).0;
            lemma_same_check(d, e, b.bounds, b.bounds);
        }
    }
    let (next, verdict) = table.round(d, phase);
    if verdict is None {
        lemma_same_incorporation(d, e, next, phase, (fuel - 1) as nat, (more - 1) as nat);
    }
}

/// The step limit decides nothing where it suffices: bounds that are found
/// consistent within it are so within every larger one, and are solved alike.
pub proof fn law_larger_limit_changes_nothing<D: TyDatabase, E: TyDatabase>(
    d: &D,
    e: &E,
    table: Inference,
    phase: InvocationPhase,
)
    requires
        same_answers(d, e),
        searches_end(d),
        d.limit() <= e.limit(),
        table.consistent(d, phase).1,
    ensures
        table.consistent(e, phase) == table.consistent(d, phase),
        table.solved(e, phase) == table.solved(d, phase),
{
    let (few, many) = (d.limit() as nat, e.limit() as nat);
    assert forall|s: Ty, n: Name| #[trigger]
        super_parameterizations(d, s, n) == super_parameterizations(e, s, n) by {
        assert(climb_ends(d, climb_from(s), n, few));
        law_more_steps_find_the_same(d, climb_from(s), n, few, many);
        lemma_same_climb(d, e, climb_from(s), n, many);
    }
    assert forall|t: Ty| #[trigger] st_of(d, t) == st_of(e, t) by {
        assert(super_ends(d, t, List::Nil, few));
        law_deeper_sets_are_the_same(d, t, List::Nil, few, many);
        lemma_same_super(d, e, t, List::Nil, many);
    }
    law_more_steps_change_nothing(d, table, phase, few, many);
    lemma_same_drain(d, e, table, phase, many);
    let a = table.drained(d, phase, few).0;
    lemma_same_incorporation(d, e, a, phase, few, many);
    lemma_same_resolution(d, e, table.consistent(d, phase).0);
}

} // verus!
