//! What a single inference variable is inferred to be, told from its bounds: the
//! type it equals, else the least type above its lower bounds, else the most
//! specific of its upper bounds, else `Object`.
use crate::db::TyDatabase;
use crate::inference::incorporate::{
    bounds_subst, checked_all, checked_one, checked_var, equalities, implied, implied_all,
    implied_one, lower_dependencies, removed, upper_dependencies, Checked,
};
use crate::inference::instantiation::{
    all_unchecked, from_upper, instantiation, redundant, specific, within_all,
};
use crate::inference::lub::{all_are, all_boxed, lub};
use crate::inference::proper::{all_plain, lemma_plain, lemma_plus_nil, plain};
use crate::inference::resolve::{
    all_dependencies_hold, dependencies_hold, ids_of, keys_of, mentioning, not_mentioning, settled, settled_once,
    twice, unresolved,
};
use crate::inference::{
    entry, find, lemma_put_find, Bounds, Constraint, Inference, InvocationPhase,
};
use crate::list::List;
use crate::names::Name;
use crate::ty::{
    all_erased, all_subst_infer, any_infer_var, class_of, lemma_all_unchanged, var_insert,
    var_value, Ty, VarMap,
};
use vstd::prelude::*;

verus! {

/// A table with one variable.
pub open spec fn one_variable(
    id: u64,
    lower: List<Ty>,
    upper: List<Ty>,
    equality: Option<Ty>,
) -> Inference {
    Inference {
        bounds: List::Cons(
            Box::new(Bounds { id, upper, lower, equality }),
            Box::new(List::Nil),
        ),
        throws: List::Nil,
        applied: List::Nil,
        worklist: List::Nil,
    }
}

/// A variable with its type.
pub open spec fn inferred(id: u64, t: Ty) -> VarMap {
    List::Cons(Box::new((id, t)), Box::new(List::Nil))
}

/// Whether each of the lower bounds can be used as each of the upper bounds.
pub open spec fn ordered<D: TyDatabase>(db: &D, lower: List<Ty>, upper: List<Ty>) -> bool {
    forall|l: Ty, u: Ty| #[trigger]
        lower.has(l) && #[trigger] upper.has(u) ==> db.subtype(l, u) || db.assignable(l, u)
}

/// Whether a type can be used as each of the upper bounds.
pub open spec fn below_each<D: TyDatabase>(db: &D, t: Ty, upper: List<Ty>) -> bool {
    forall|u: Ty| #[trigger] upper.has(u) ==> db.subtype(t, u) || db.assignable(t, u)
}

proof fn lemma_plain_all(l: List<Ty>, id: u64, map: VarMap)
    requires
        all_plain(l),
    ensures
        !any_infer_var(l),
        not_mentioning(l, id) == l,
        mentioning(l, id) is Nil,
        all_subst_infer(l, map) == l,
        all_boxed(l) == l,
    decreases l,
{
    if let List::Cons(h, t) = l {
        lemma_plain(*h);
        lemma_plain_alone(*h, id, map);
        lemma_plain_all(*t, id, map);
    }
}

proof fn lemma_plain_alone(t: Ty, id: u64, map: VarMap)
    requires
        plain(t),
    ensures
        t.subst_infer(map) == t,
        !t.has_infer_var_id(id),
{
    reveal_with_fuel(Ty::subst_infer, 2);
    reveal_with_fuel(all_subst_infer, 2);
    reveal_with_fuel(Ty::has_infer_var_id, 2);
    assert(all_subst_infer(List::Nil, map) is Nil);
}

proof fn lemma_plain_has(l: List<Ty>, t: Ty)
    requires
        all_plain(l),
        l.has(t),
    ensures
        plain(t),
    decreases l,
{
    if let List::Cons(h, r) = l {
        if *h != t {
            lemma_plain_has(*r, t);
        }
    }
}

proof fn lemma_nothing_implied_by_one(l: Ty, upper: List<Ty>)
    requires
        plain(l),
        all_plain(upper),
    ensures
        implied_one(l, upper) is Nil,
    decreases upper,
{
    if let List::Cons(u, t) = upper {
        lemma_nothing_implied_by_one(l, *t);
        reveal_with_fuel(List::plus, 2);
    }
}

proof fn lemma_nothing_implied(lower: List<Ty>, upper: List<Ty>)
    requires
        all_plain(lower),
        all_plain(upper),
    ensures
        implied(lower, upper) is Nil,
    decreases lower,
{
    if let List::Cons(l, t) = lower {
        lemma_nothing_implied_by_one(*l, upper);
        lemma_nothing_implied(*t, upper);
        reveal_with_fuel(List::plus, 2);
    }
}

proof fn lemma_within<D: TyDatabase>(db: &D, t: Ty, upper: List<Ty>)
    requires
        plain(t),
        all_plain(upper),
    ensures
        within_all(db, t, upper) == below_each(db, t, upper),
    decreases upper,
{
    if let List::Cons(u, rest) = upper {
        lemma_within(db, t, *rest);
        assert(upper.has(*u));
        assert(forall|x: Ty| #[trigger] rest.has(x) ==> upper.has(x));
        if below_each(db, t, *rest) && within_all(db, t, upper) {
            assert forall|x: Ty| #[trigger] upper.has(x) implies db.subtype(t, x) || db.assignable(
                t,
                x,
            ) by {
                if x != *u {
                    assert(rest.has(x));
                }
            }
        }
    }
}

proof fn lemma_compared_one<D: TyDatabase>(db: &D, table: List<Bounds>, l: Ty, upper: List<Ty>)
    requires
        plain(l),
        all_plain(upper),
    ensures
        checked_one(db, table, l, upper) == if within_all(db, l, upper) {
            Checked::Pending(List::Nil)
        } else {
            Checked::Contradiction
        },
    decreases upper,
{
    lemma_plain(l);
    if let List::Cons(u, t) = upper {
        lemma_plain(*u);
        lemma_compared_one(db, table, l, *t);
        lemma_plus_nil(List::<Constraint>::Nil);
    }
}

proof fn lemma_compared<D: TyDatabase>(
    db: &D,
    table: List<Bounds>,
    lower: List<Ty>,
    upper: List<Ty>,
)
    requires
        all_plain(lower),
        all_plain(upper),
    ensures
        checked_var(db, table, lower, upper) == if ordered(db, lower, upper) {
            Checked::Pending(List::Nil)
        } else {
            Checked::Contradiction
        },
    decreases lower,
{
    if let List::Cons(l, t) = lower {
        lemma_compared_one(db, table, *l, upper);
        lemma_within(db, *l, upper);
        lemma_compared(db, table, *t, upper);
        lemma_plus_nil(List::<Constraint>::Nil);
        assert(lower.has(*l));
        assert(forall|x: Ty| #[trigger] t.has(x) ==> lower.has(x));
        if below_each(db, *l, upper) && ordered(db, *t, upper) {
            assert forall|x: Ty, u: Ty| #[trigger] lower.has(x) && #[trigger] upper.has(u) implies
                db.subtype(x, u) || db.assignable(x, u) by {
                if x != *l {
                    assert(t.has(x));
                }
            }
        }
    }
}

/// A table with one variable that has no equality is consistent exactly where
/// its bounds are ordered, and incorporating them changes nothing.
proof fn lemma_incorporated<D: TyDatabase>(
    db: &D,
    phase: InvocationPhase,
    id: u64,
    lower: List<Ty>,
    upper: List<Ty>,
)
    requires
        all_plain(lower),
        all_plain(upper),
        db.limit() > 0,
    ensures
        ({
            let a = one_variable(id, lower, upper, None);
            &&& ordered(db, lower, upper) ==> a.consistent(db, phase) == (a, true)
            &&& !ordered(db, lower, upper) ==> !a.consistent(db, phase).1
        }),
{
    let a = one_variable(id, lower, upper, None);
    let fuel = db.limit() as nat;
    assert(a.drained(db, phase, fuel) == (a, Some(true)));
    reveal_with_fuel(equalities, 2);
    assert(equalities(a.bounds) is Nil);
    assert(a.eliminated_all(db, List::Nil) == Some(a));
    lemma_nothing_implied(lower, upper);
    reveal_with_fuel(implied_all, 2);
    lemma_plus_nil(List::<Constraint>::Nil);
    assert(implied_all(a.bounds) is Nil);
    assert(a.plus_work(List::Nil) == a);
    lemma_compared(db, a.bounds, lower, upper);
    reveal_with_fuel(checked_all, 2);
    if ordered(db, lower, upper) {
        assert(checked_all(db, a.bounds, a.bounds) == Checked::Pending(List::Nil));
        assert(a.round(db, phase) == (a, Some(true)));
    } else {
        assert(checked_all(db, a.bounds, a.bounds) == Checked::Contradiction);
        assert(a.round(db, phase).1 == Some(false));
    }
    assert(a.incorporated(db, phase, fuel).1 == a.round(db, phase).1);
}

proof fn lemma_settled(id: u64, t: Ty)
    requires
        plain(t),
    ensures
        settled(inferred(id, t), keys_of(inferred(id, t)), twice(keys_of(inferred(id, t))))
            == inferred(id, t),
        settled(
            inferred(id, t),
            keys_of(inferred(id, t)),
            List::Cons(Box::new(0u64), Box::new(keys_of(inferred(id, t)))),
        ) == inferred(id, t),
{
    let map = inferred(id, t);
    reveal_with_fuel(keys_of, 2);
    reveal_with_fuel(settled_once, 2);
    let none = List::<u64>::Nil;
    let keys = List::Cons(Box::new(id), Box::new(none));
    assert(keys_of(map) == keys);
    lemma_plain_alone(t, id, map);
    assert(var_value(map, id) == Some(t));
    assert(settled_once(map, none) == (map, false));
    assert(settled_once(map, keys) == (map, false));
    reveal_with_fuel(List::plus, 2);
    assert(twice(keys) is Cons);
}

/// The resolution of a table with one variable without an equality, whose
/// instance is a class.
proof fn lemma_resolution<D: TyDatabase>(
    db: &D,
    id: u64,
    lower: List<Ty>,
    upper: List<Ty>,
    t: Option<Ty>,
)
    requires
        all_plain(lower),
        all_plain(upper),
        instantiation(db, lower, upper, None, false) == t,
        t matches Some(c) ==> plain(c),
    ensures
        one_variable(id, lower, upper, None).resolution(db) == match t {
            Some(c) => Some(inferred(id, c)),
            None => None,
        },
{
    let a = one_variable(id, lower, upper, None);
    let none = List::<(u64, Ty)>::Nil;
    let no_ids = List::<u64>::Nil;
    assert(keys_of(none) is Nil);
    let one = List::Cons(Box::new(0u64), Box::new(no_ids));
    assert(settled_once(none, no_ids) == (none, false));
    assert(settled(none, no_ids, one) == none);
    reveal_with_fuel(ids_of, 2);
    let ids = List::Cons(Box::new(id), Box::new(no_ids));
    assert(ids_of(a.bounds) == ids);
    lemma_all_unchanged(lower);
    lemma_all_unchanged(upper);
    lemma_plain_all(lower, id, none);
    lemma_plain_all(upper, id, none);
    reveal_with_fuel(find, 2);
    let e = a.effective(id, none, false);
    assert(e.lower == lower && e.upper == upper && e.equality is None && e.dependencies is Nil);
    assert(any_infer_var(e.dependencies) == false);
    assert(!e.open_ended());
    assert(all_erased(List::<Ty>::Nil) is Nil);
    assert(a.instance(db, id, e) == t);
    assert(var_value(none, id) is None);
    if let Some(c) = t {
        let map = inferred(id, c);
        assert(var_insert(none, id, c) == map);
        assert(a.resolved_pass(db, no_ids, map) == Some((map, false)));
        assert(a.resolved_pass(db, ids, none) == Some((map, true)));
        assert(var_value(map, id) == Some(c));
        assert(a.resolved_pass(db, ids, map) == Some((map, false)));
        reveal_with_fuel(unresolved, 2);
        assert(unresolved(ids, map) is Nil);
        let r2 = List::Cons(Box::new(0u64), Box::new(ids));
        assert(a.resolved_rounds(db, ids, map, r2) == Some(map));
        let rounds = List::Cons(Box::new(0u64), Box::new(r2));
        assert(a.resolved_rounds(db, ids, none, rounds) == Some(map));
        reveal_with_fuel(all_dependencies_hold, 2);
        assert(mentioning(upper, id) is Nil);
        assert(dependencies_hold(db, c, List::Nil, map));
        assert(all_dependencies_hold(db, a.bounds, map));
        lemma_settled(id, c);
    } else {
        assert(a.resolved_pass(db, ids, none) is None);
    }
}

/// A variable between classes has a type exactly where each lower bound can be
/// used as each upper bound, and what is inferred can too. With lower bounds it
/// is their least upper bound.
pub proof fn law_inferred_from_below<D: TyDatabase>(
    db: &D,
    phase: InvocationPhase,
    id: u64,
    lower: List<Ty>,
    upper: List<Ty>,
)
    requires
        all_plain(lower),
        all_plain(upper),
        !(lower is Nil),
        plain(lub(db, lower)),
        db.limit() > 0,
    ensures
        one_variable(id, lower, upper, None).solved(db, phase).1 == if ordered(db, lower, upper)
            && below_each(db, lub(db, lower), upper) {
            Some(inferred(id, lub(db, lower)))
        } else {
            None
        },
{
    lemma_incorporated(db, phase, id, lower, upper);
    let t = lub(db, lower);
    lemma_within(db, t, upper);
    let out = if below_each(db, t, upper) {
        Some(t)
    } else {
        None
    };
    lemma_resolution(db, id, lower, upper, out);
}

/// A variable with a lower bound of one class only, however often it is given,
/// is inferred to be that class, where the class can be used as each upper
/// bound, and cannot be inferred otherwise.
pub proof fn law_inferred_from_one_class<D: TyDatabase>(
    db: &D,
    phase: InvocationPhase,
    id: u64,
    class: Name,
    upper: List<Ty>,
)
    requires
        all_plain(upper),
        db.limit() > 0,
    ensures
        one_variable(
            id,
            List::Cons(Box::new(class_of(class)), Box::new(List::Nil)),
            upper,
            None,
        ).solved(db, phase).1 == if below_each(db, class_of(class), upper) {
            Some(inferred(id, class_of(class)))
        } else {
            None
        },
{
    let none = List::<Ty>::Nil;
    let t = class_of(class);
    let lower = List::Cons(Box::new(t), Box::new(none));
    reveal_with_fuel(all_plain, 2);
    assert(all_are(none, t));
    assert(lub(db, lower) == t);
    law_inferred_from_below(db, phase, id, lower, upper);
    assert(forall|x: Ty| #[trigger] lower.has(x) ==> x == t) by {
        assert(!none.has(t));
        reveal_with_fuel(List::has, 2);
    }
    assert(ordered(db, lower, upper) == below_each(db, t, upper)) by {
        reveal_with_fuel(List::has, 2);
        assert(lower.has(t));
    }
}

proof fn lemma_all_specific<D: TyDatabase>(db: &D, l: List<Ty>, all: List<Ty>, u: Ty)
    requires
        all_plain(all),
        all.has(u),
        forall|x: Ty| #[trigger] l.has(x) ==> all.has(x),
        forall|x: Ty| #[trigger]
            all.has(x) && x != u ==> db.subtype(u, x) && !db.subtype(x, u),
    ensures
        all_are(specific(db, l, all), u),
        l.has(u) ==> !(specific(db, l, all) is Nil),
    decreases l,
{
    if let List::Cons(h, t) = l {
        assert(l.has(*h));
        assert(forall|x: Ty| #[trigger] t.has(x) ==> l.has(x));
        lemma_all_specific(db, *t, all, u);
        if *h == u {
            lemma_not_redundant(db, all, all, u);
        } else {
            lemma_redundant(db, all, u, *h);
        }
    }
}

proof fn lemma_not_redundant<D: TyDatabase>(db: &D, l: List<Ty>, all: List<Ty>, u: Ty)
    requires
        forall|x: Ty| #[trigger] l.has(x) ==> all.has(x),
        forall|x: Ty| #[trigger]
            all.has(x) && x != u ==> db.subtype(u, x) && !db.subtype(x, u),
    ensures
        !redundant(db, u, l),
    decreases l,
{
    if let List::Cons(h, t) = l {
        assert(l.has(*h));
        assert(forall|x: Ty| #[trigger] t.has(x) ==> l.has(x));
        lemma_not_redundant(db, *t, all, u);
    }
}

proof fn lemma_redundant<D: TyDatabase>(db: &D, l: List<Ty>, u: Ty, x: Ty)
    requires
        all_plain(l),
        l.has(u),
        x != u,
        db.subtype(u, x),
    ensures
        redundant(db, x, l),
    decreases l,
{
    if let List::Cons(h, t) = l {
        lemma_plain(*h);
        if *h != u {
            lemma_redundant(db, *t, u, x);
        }
    }
}

/// A variable without lower bounds is inferred to be the upper bound that is a
/// subtype of all the others, and `Object` where it has no bounds at all.
pub proof fn law_inferred_from_above<D: TyDatabase>(
    db: &D,
    phase: InvocationPhase,
    id: u64,
    upper: List<Ty>,
    u: Ty,
)
    requires
        all_plain(upper),
        db.limit() > 0,
    ensures
        upper is Nil ==> one_variable(id, List::Nil, upper, None).solved(db, phase).1 == Some(
            inferred(id, class_of(Name::Object)),
        ),
        upper.has(u) && (forall|x: Ty| #[trigger]
            upper.has(x) && x != u ==> db.subtype(u, x) && !db.subtype(x, u)) ==> one_variable(
            id,
            List::Nil,
            upper,
            None,
        ).solved(db, phase).1 == Some(inferred(id, u)),
{
    let none = List::<Ty>::Nil;
    assert(all_plain(none));
    assert(forall|x: Ty| !none.has(x));
    lemma_incorporated(db, phase, id, none, upper);
    assert(ordered(db, none, upper));
    if upper is Nil {
        lemma_resolution(db, id, none, upper, Some(class_of(Name::Object)));
    } else if upper.has(u) && (forall|x: Ty| #[trigger]
        upper.has(x) && x != u ==> db.subtype(u, x) && !db.subtype(x, u)) {
        lemma_plain_all(upper, id, List::Nil);
        lemma_plain_has(upper, u);
        lemma_all_specific(db, upper, upper, u);
        let l = specific(db, upper, upper);
        if let List::Cons(h, t) = l {
            assert(lub(db, l) == u);
        }
        assert(from_upper(db, upper) == u);
        lemma_resolution(db, id, none, upper, Some(u));
    }
}

/// A compatibility constraint with a variable bounds it: a class that should be
/// compatible with the variable is a lower bound more, a class that the variable
/// should be compatible with is an upper bound more, and nothing else changes.
pub proof fn law_constraints_bound_variables<D: TyDatabase>(
    db: &D,
    table: Inference,
    phase: InvocationPhase,
    id: u64,
    other: u64,
    class: Name,
)
    requires
        other != id,
    ensures
        ({
            let (t, v) = (class_of(class), Ty::InferenceVar(id));
            let below = table.reduced(db, phase, Constraint::Sub(t, v));
            let above = table.reduced(db, phase, Constraint::Sub(v, t));
            let had = entry(table.bounds, id);
            &&& below.1 && above.1
            &&& find(below.0.bounds, id) == Some(Bounds { lower: had.lower.with(t), ..had })
            &&& find(above.0.bounds, id) == Some(Bounds { upper: had.upper.with(t), ..had })
            &&& find(below.0.bounds, other) == find(table.bounds, other)
            &&& find(above.0.bounds, other) == find(table.bounds, other)
            &&& below.0.worklist == table.worklist && above.0.worklist == table.worklist
        }),
{
    let t = class_of(class);
    let had = entry(table.bounds, id);
    lemma_entry(table.bounds, id);
    lemma_put_find(table.bounds, (Bounds { lower: had.lower.with(t), ..had }), other);
    lemma_put_find(table.bounds, (Bounds { upper: had.upper.with(t), ..had }), other);
}

proof fn lemma_entry(l: List<Bounds>, id: u64)
    ensures
        entry(l, id).id == id,
    decreases l,
{
    if let List::Cons(h, t) = l {
        if h.id != id {
            lemma_entry(*t, id);
        }
    }
}

/// An equality constraint with a variable, on whichever side it stands, makes
/// the class what the variable equals; where it equals another type already, the
/// two types have to be equal.
pub proof fn law_equalities_bound_variables<D: TyDatabase>(
    db: &D,
    table: Inference,
    phase: InvocationPhase,
    id: u64,
    class: Name,
)
    ensures
        ({
            let (t, v) = (class_of(class), Ty::InferenceVar(id));
            let left = table.reduced(db, phase, Constraint::Eq(v, t));
            let right = table.reduced(db, phase, Constraint::Eq(t, v));
            let had = entry(table.bounds, id);
            &&& left == right && left.1
            &&& had.equality is None ==> find(left.0.bounds, id) == Some(
                Bounds { equality: Some(t), ..had },
            ) && left.0.worklist == table.worklist
            &&& had.equality matches Some(was) ==> find(left.0.bounds, id) == Some(had)
                && left.0.worklist == table.worklist.with(Constraint::Eq(was, t))
        }),
{
    let t = class_of(class);
    let had = entry(table.bounds, id);
    lemma_entry(table.bounds, id);
    lemma_put_find(table.bounds, (Bounds { equality: Some(t), ..had }), id);
    lemma_put_find(table.bounds, had, id);
}

proof fn lemma_no_dependencies<D: TyDatabase>(
    db: &D,
    eq: Ty,
    l: List<Ty>,
    map: VarMap,
)
    requires
        all_plain(l),
    ensures
        upper_dependencies(db, eq, l, map) is Nil,
        lower_dependencies(eq, l, map) is Nil,
    decreases l,
{
    if let List::Cons(h, t) = l {
        lemma_plain(*h);
        lemma_plain_alone(*h, 0, map);
        lemma_no_dependencies(db, eq, *t, map);
    }
}

/// A variable that equals a class which its bounds admit is inferred to be that
/// class.
pub proof fn law_inferred_from_equality<D: TyDatabase>(
    db: &D,
    phase: InvocationPhase,
    id: u64,
    lower: List<Ty>,
    upper: List<Ty>,
    class: Name,
)
    requires
        all_plain(lower),
        all_plain(upper),
        below_each(db, class_of(class), upper),
        forall|l: Ty| #[trigger]
            lower.has(l) ==> db.subtype(l, class_of(class)) || db.assignable(l, class_of(class)),
        db.limit() > 1,
    ensures
        one_variable(id, lower, upper, Some(class_of(class))).solved(db, phase).1 == Some(
            inferred(id, class_of(class)),
        ),
{
    let t = class_of(class);
    let a = one_variable(id, lower, upper, Some(t));
    let fuel = db.limit() as nat;
    let map = inferred(id, t);
    let none = List::<Bounds>::Nil;
    let b = Inference { bounds: none, throws: List::Nil, applied: map, worklist: List::Nil };
    assert(a.drained(db, phase, fuel) == (a, Some(true)));
    reveal_with_fuel(equalities, 2);
    assert(equalities(a.bounds) == map);
    reveal_with_fuel(find, 2);
    lemma_no_dependencies(db, t, upper, map);
    lemma_no_dependencies(db, t, lower, map);
    lemma_plus_nil(List::<Constraint>::Nil);
    reveal_with_fuel(bounds_subst, 2);
    reveal_with_fuel(removed, 2);
    assert(var_insert(List::Nil, id, t) == map);
    assert(a.eliminated(db, id, t) == b);
    assert(b.eliminated_all(db, List::Nil) == Some(b));
    assert(a.eliminated_all(db, map) == Some(b));
    assert(implied_all(none) is Nil);
    assert(b.plus_work(List::Nil) == b);
    assert(b.drained(db, phase, fuel) == (b, Some(true)));
    assert(checked_all(db, none, none) == Checked::Pending(List::Nil));
    assert(a.round(db, phase) == (b, None::<bool>));
    assert(equalities(none) is Nil);
    assert(b.round(db, phase) == (b, Some(true)));
    assert(b.incorporated(db, phase, (fuel - 1) as nat) == (b, Some(true)));
    assert(a.incorporated(db, phase, fuel) == (b, Some(true)));
    lemma_settled(id, t);
    let ids = List::<u64>::Nil;
    assert(ids_of(none) is Nil);
    assert(b.resolved_pass(db, ids, map) == Some((map, false)));
    assert(unresolved(ids, map) is Nil);
    let rounds = List::Cons(Box::new(0u64), Box::new(List::Cons(Box::new(0u64), Box::new(ids))));
    assert(b.resolved_rounds(db, ids, map, rounds) == Some(map));
    assert(all_dependencies_hold(db, none, map));
    assert(b.resolution(db) == Some(map));
}

/// A variable that a method throws and that only has bounds above
/// `RuntimeException` is taken for `RuntimeException`; one that it does not
/// throw is not, unless its bounds say so.
pub proof fn law_thrown_variables<D: TyDatabase>(db: &D, upper: List<Ty>)
    requires
        forall|x: Ty| #[trigger] upper.has(x) ==> db.subtype(class_of(Name::RuntimeException), x),
    ensures
        instantiation(db, List::Nil, upper, None, true) == Some(class_of(Name::RuntimeException)),
        instantiation(
            db,
            List::Nil,
            List::Cons(Box::new(class_of(Name::Object)), Box::new(List::Nil)),
            None,
            false,
        ) == Some(class_of(Name::Object)),
{
    lemma_above_runtime(db, upper);
    let none = List::<Ty>::Nil;
    let object = class_of(Name::Object);
    let one = List::Cons(Box::new(object), Box::new(none));
    reveal_with_fuel(all_boxed, 2);
    reveal_with_fuel(specific, 2);
    reveal_with_fuel(redundant, 2);
    assert(all_boxed(one) == one);
    assert(!redundant(db, object, one));
    assert(specific(db, one, one) == one);
    assert(all_are(none, object));
    assert(lub(db, one) == object);
}

proof fn lemma_above_runtime<D: TyDatabase>(db: &D, upper: List<Ty>)
    requires
        forall|x: Ty| #[trigger] upper.has(x) ==> db.subtype(class_of(Name::RuntimeException), x),
    ensures
        all_unchecked(db, upper),
    decreases upper,
{
    if let List::Cons(h, t) = upper {
        assert(upper.has(*h));
        assert(forall|x: Ty| #[trigger] t.has(x) ==> upper.has(x));
        lemma_above_runtime(db, *t);
    }
}

} // verus!
