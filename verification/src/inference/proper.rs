//! What constraints between proper types mean: when a value of one type may be
//! passed where another is wanted, and which type arguments a wildcard holds.
use crate::db::TyDatabase;
use crate::inference::incorporate::{checked_all, equalities, implied_all, Checked};
use crate::inference::reduce::{arg_constraints, some_wildcard};
use crate::inference::resolve::{
    all_dependencies_hold, ids_of, keys_of, settled, settled_once, twice, unresolved,
};
use crate::inference::{Constraint, Inference, InvocationPhase};
use crate::list::List;
use crate::names::Name;
use crate::select::empty_table;
use crate::ty::{all_alike, any_infer_var, class_of, Ty, WildcardBound};
use vstd::prelude::*;

verus! {

/// A class without type arguments that goes by its name.
pub open spec fn plain(t: Ty) -> bool {
    match t {
        Ty::Reference { name: _, args, local } => *args is Nil && local is None,
        _ => false,
    }
}

pub open spec fn all_plain(l: List<Ty>) -> bool
    decreases l,
{
    match l {
        List::Nil => true,
        List::Cons(h, t) => plain(*h) && all_plain(*t),
    }
}

/// A wildcard whose bound, if any, is a class without type arguments.
pub open spec fn plain_wildcard(t: Ty) -> bool {
    match t {
        Ty::Wildcard(WildcardBound::Unbounded) => true,
        Ty::Wildcard(WildcardBound::Upper(b)) => plain(*b),
        Ty::Wildcard(WildcardBound::Lower(b)) => plain(*b),
        _ => false,
    }
}

pub open spec fn all_plain_wildcards(l: List<Ty>) -> bool
    decreases l,
{
    match l {
        List::Nil => true,
        List::Cons(h, t) => plain_wildcard(*h) && all_plain_wildcards(*t),
    }
}

/// A type that a value has: `null`, a primitive type, a class whose type
/// arguments are classes, or an array of such.
pub open spec fn given(t: Ty) -> bool
    decreases t,
{
    match t {
        Ty::Null => true,
        Ty::Primitive(_) => true,
        Ty::Reference { name: _, args, local } => local is None && all_plain(*args),
        Ty::Array(e) => given(*e),
        _ => false,
    }
}

/// A type that a parameter has: a primitive type, a class whose type arguments
/// are classes, or are wildcards, or an array of such.
pub open spec fn wanted(t: Ty) -> bool
    decreases t,
{
    match t {
        Ty::Primitive(_) => true,
        Ty::Reference { name: _, args, local } => local is None && (all_plain(*args)
            || all_plain_wildcards(*args)),
        Ty::Array(e) => wanted(*e),
        _ => false,
    }
}

pub open spec fn all_wanted(l: List<Ty>) -> bool
    decreases l,
{
    match l {
        List::Nil => true,
        List::Cons(h, t) => wanted(*h) && all_wanted(*t),
    }
}

/// Whether the database lets a type be converted to another: by strict
/// conversion in a strict invocation, by assignment conversion in a loose one.
pub open spec fn admitted<D: TyDatabase>(db: &D, phase: InvocationPhase, s: Ty, t: Ty) -> bool {
    match phase {
        InvocationPhase::Strict => db.strict(s, t),
        InvocationPhase::Loose => db.assignable(s, t),
    }
}

/// Whether a type argument holds a class: a class only itself, `?` every class,
/// `? extends B` what converts to `B`, `? super B` what `B` converts to.
pub open spec fn holds<D: TyDatabase>(db: &D, phase: InvocationPhase, arg: Ty, class: Ty) -> bool {
    match arg {
        Ty::Wildcard(WildcardBound::Unbounded) => true,
        Ty::Wildcard(WildcardBound::Upper(b)) => class == *b || admitted(db, phase, class, *b),
        Ty::Wildcard(WildcardBound::Lower(b)) => class == *b || admitted(db, phase, *b, class),
        _ => class == arg,
    }
}

/// Whether each type argument holds the class at its position.
pub open spec fn all_hold<D: TyDatabase>(
    db: &D,
    phase: InvocationPhase,
    args: List<Ty>,
    classes: List<Ty>,
) -> bool
    decreases classes,
{
    match (args, classes) {
        (List::Nil, List::Nil) => true,
        (List::Cons(a, at), List::Cons(c, ct)) => holds(db, phase, *a, *c) && all_hold(
            db,
            phase,
            *at,
            *ct,
        ),
        _ => false,
    }
}

/// Whether a value of a type may be passed where another type is wanted. A
/// parameterization wants type arguments that it holds, and a raw type fits it
/// in a loose invocation only; `null` fits every class and array.
pub open spec fn fits<D: TyDatabase>(db: &D, phase: InvocationPhase, s: Ty, t: Ty) -> bool
    decreases s,
{
    s == t || match (s, t) {
        (Ty::Null, _) => t is Reference || t is Array,
        (Ty::Array(a), Ty::Array(b)) => !(*a is Primitive && *b is Primitive) && fits(
            db,
            phase,
            *a,
            *b,
        ),
        (
            Ty::Reference { name: m, args: have, local: _ },
            Ty::Reference { name: n, args: want, local: _ },
        ) => if m == n {
            *want is Nil || (*have is Nil && phase is Loose) || all_hold(db, phase, *want, *have)
        } else {
            admitted(db, phase, s, t)
        },
        (Ty::Array(_), Ty::Reference { name: n, args: _, local: _ }) => n == Name::Object || n
            == Name::Cloneable || n == Name::Serializable || admitted(db, phase, s, t),
        _ => admitted(db, phase, s, t),
    }
}

/// How much there is to reduce in a type.
pub open spec fn size(t: Ty) -> nat
    decreases t,
{
    match t {
        Ty::Reference { name: _, args, local: _ } => 1 + 2 * args.count(),
        Ty::Array(e) => 1 + size(*e),
        _ => 1,
    }
}

/// A constraint between proper types.
pub open spec fn proper(c: Constraint) -> bool {
    match c {
        Constraint::Sub(s, t) => (given(s) && wanted(t)) || (plain(s) && plain_wildcard(t)),
        Constraint::Eq(s, t) => plain(s) && plain(t),
    }
}

/// Whether a constraint between proper types is met.
pub open spec fn met<D: TyDatabase>(db: &D, phase: InvocationPhase, c: Constraint) -> bool {
    match c {
        Constraint::Sub(s, t) => if t is Wildcard {
            holds(db, phase, t, s)
        } else {
            fits(db, phase, s, t)
        },
        Constraint::Eq(s, t) => s == t,
    }
}

pub open spec fn all_proper(l: List<Constraint>) -> bool
    decreases l,
{
    match l {
        List::Nil => true,
        List::Cons(h, t) => proper(*h) && all_proper(*t),
    }
}

/// Whether the constraints are all met.
pub open spec fn all_met<D: TyDatabase>(
    db: &D,
    phase: InvocationPhase,
    l: List<Constraint>,
) -> bool
    decreases l,
{
    match l {
        List::Nil => true,
        List::Cons(h, t) => met(db, phase, *h) && all_met(db, phase, *t),
    }
}

/// How much there is to reduce in constraints.
pub open spec fn work(l: List<Constraint>) -> nat
    decreases l,
{
    match l {
        List::Nil => 0,
        List::Cons(h, t) => work_of(*h) + work(*t),
    }
}

pub open spec fn work_of(c: Constraint) -> nat {
    match c {
        Constraint::Sub(s, t) => if t is Wildcard {
            2
        } else {
            size(s)
        },
        Constraint::Eq(_, _) => 1,
    }
}

proof fn lemma_joined<D: TyDatabase>(
    db: &D,
    phase: InvocationPhase,
    a: List<Constraint>,
    b: List<Constraint>,
)
    ensures
        all_proper(a.plus(b)) == (all_proper(a) && all_proper(b)),
        all_met(db, phase, a.plus(b)) == (all_met(db, phase, a) && all_met(db, phase, b)),
        work(a.plus(b)) == work(a) + work(b),
    decreases a,
{
    if let List::Cons(_, t) = a {
        lemma_joined(db, phase, *t, b);
    }
}

pub proof fn lemma_plain(t: Ty)
    requires
        plain(t),
    ensures
        t == class_of(t->Reference_name),
        given(t),
        wanted(t),
        !t.has_infer_var(),
        size(t) == 1,
{
    reveal_with_fuel(Ty::has_infer_var, 2);
    reveal_with_fuel(any_infer_var, 2);
    reveal_with_fuel(List::count, 2);
}

proof fn lemma_given_proper(t: Ty)
    requires
        given(t) || wanted(t) || plain_wildcard(t),
    ensures
        !t.has_infer_var(),
    decreases t,
{
    match t {
        Ty::Reference { name: _, args, local: _ } => {
            lemma_args_proper(*args);
        },
        Ty::Array(e) => {
            lemma_given_proper(*e);
        },
        Ty::Wildcard(WildcardBound::Upper(b)) => {
            lemma_plain(*b);
        },
        Ty::Wildcard(WildcardBound::Lower(b)) => {
            lemma_plain(*b);
        },
        _ => {},
    }
}

proof fn lemma_args_proper(l: List<Ty>)
    requires
        all_plain(l) || all_plain_wildcards(l),
    ensures
        !any_infer_var(l),
    decreases l,
{
    if let List::Cons(h, t) = l {
        lemma_args_proper(*t);
        if plain(*h) {
            lemma_plain(*h);
        } else {
            if let Ty::Wildcard(WildcardBound::Upper(b)) = *h {
                lemma_plain(*b);
            }
            if let Ty::Wildcard(WildcardBound::Lower(b)) = *h {
                lemma_plain(*b);
            }
        }
    }
}

/// Types that values have are alike only where they are the same.
proof fn lemma_alike(s: Ty, t: Ty)
    requires
        given(s),
    ensures
        s.alike(t) == (s == t),
    decreases s,
{
    match (s, t) {
        (
            Ty::Reference { name: _, args: a, local: _ },
            Ty::Reference { name: _, args: b, local: _ },
        ) => {
            lemma_args_alike(*a, *b);
        },
        (Ty::Array(a), Ty::Array(b)) => {
            lemma_alike(*a, *b);
        },
        _ => {},
    }
}

proof fn lemma_args_alike(a: List<Ty>, b: List<Ty>)
    requires
        all_plain(a),
    ensures
        all_alike(a, b) == (a == b),
    decreases a,
{
    reveal_with_fuel(all_alike, 2);
    reveal_with_fuel(Ty::alike, 2);
    if let (List::Cons(x, xt), List::Cons(y, yt)) = (a, b) {
        lemma_args_alike(*xt, *yt);
        if let Ty::Reference { name: _, args: p, local: _ } = *x {
            if let Ty::Reference { name: _, args: q, local: _ } = *y {
                assert(x.alike(*y) == (*x == *y));
            }
        }
    }
}

proof fn lemma_no_wildcard(l: List<Ty>)
    ensures
        all_plain(l) ==> !some_wildcard(l),
        all_plain_wildcards(l) && !(l is Nil) ==> some_wildcard(l),
    decreases l,
{
    if let List::Cons(_, t) = l {
        lemma_no_wildcard(*t);
    }
}

/// The constraints between type arguments.
proof fn lemma_arguments<D: TyDatabase>(
    db: &D,
    phase: InvocationPhase,
    have: List<Ty>,
    want: List<Ty>,
    containment: bool,
)
    requires
        all_plain(have),
        if containment {
            all_plain_wildcards(want)
        } else {
            all_plain(want)
        },
        have.count() == want.count(),
    ensures
        all_proper(arg_constraints(have, want, containment)),
        all_met(db, phase, arg_constraints(have, want, containment)) == all_hold(
            db,
            phase,
            want,
            have,
        ),
        work(arg_constraints(have, want, containment)) <= 2 * have.count(),
    decreases have,
{
    reveal_with_fuel(List::count, 2);
    if let (List::Cons(_, ht), List::Cons(_, wt)) = (have, want) {
        lemma_arguments(db, phase, *ht, *wt, containment);
    }
}

proof fn lemma_hold_count<D: TyDatabase>(
    db: &D,
    phase: InvocationPhase,
    want: List<Ty>,
    have: List<Ty>,
)
    requires
        all_hold(db, phase, want, have),
    ensures
        want.count() == have.count(),
    decreases have,
{
    if let (List::Cons(_, wt), List::Cons(_, ht)) = (want, have) {
        lemma_hold_count(db, phase, *wt, *ht);
    }
}

/// The constraints that one constraint between proper types is reduced to.
proof fn lemma_reduced<D: TyDatabase>(
    db: &D,
    table: Inference,
    phase: InvocationPhase,
    c: Constraint,
) -> (more: List<Constraint>)
    requires
        proper(c),
    ensures
        table.reduced(db, phase, c).0 == table.plus_work(more),
        all_proper(more),
        work(more) < work_of(c),
        met(db, phase, c) == (table.reduced(db, phase, c).1 && all_met(db, phase, more)),
{
    reveal_with_fuel(work, 2);
    reveal_with_fuel(all_proper, 2);
    reveal_with_fuel(all_met, 2);
    lemma_plus_nil(table.worklist);
    assert(table.plus_work(List::Nil) == table);
    match c {
        Constraint::Eq(s, t) => List::Nil,
        Constraint::Sub(s, t) => {
            lemma_alike(s, t);
            lemma_given_proper(s);
            lemma_given_proper(t);
            if s == t {
                List::Nil
            } else {
                match (s, t) {
                    (Ty::Array(a), Ty::Array(b)) => if *a is Primitive && *b is Primitive {
                        List::Nil
                    } else {
                        List::Cons(Box::new(Constraint::Sub(*a, *b)), Box::new(List::Nil))
                    },
                    (
                        Ty::Reference { name: m, args: have, local: _ },
                        Ty::Reference { name: n, args: want, local: _ },
                    ) => {
                        if m == n && !(*want is Nil) && !(*have is Nil) {
                            lemma_no_wildcard(*want);
                            if have.count() == want.count() {
                                let containment = some_wildcard(*want);
                                lemma_arguments(db, phase, *have, *want, containment);
                                arg_constraints(*have, *want, containment)
                            } else {
                                if all_hold(db, phase, *want, *have) {
                                    lemma_hold_count(db, phase, *want, *have);
                                }
                                List::Nil
                            }
                        } else {
                            List::Nil
                        }
                    },
                    (_, Ty::Wildcard(WildcardBound::Upper(b))) => {
                        lemma_plain(s);
                        lemma_plain(*b);
                        List::Cons(Box::new(Constraint::Sub(s, *b)), Box::new(List::Nil))
                    },
                    (_, Ty::Wildcard(WildcardBound::Lower(b))) => {
                        lemma_plain(s);
                        lemma_plain(*b);
                        List::Cons(Box::new(Constraint::Sub(*b, s)), Box::new(List::Nil))
                    },
                    _ => List::Nil,
                }
            }
        },
    }
}

pub proof fn lemma_plus_nil<T>(l: List<T>)
    ensures
        l.plus(List::Nil) == l,
    decreases l,
{
    if let List::Cons(_, t) = l {
        lemma_plus_nil(*t);
    }
}

/// Reducing constraints between proper types tells whether they are all met,
/// and leaves the bounds as they are.
pub proof fn law_proper_constraints_are_decided<D: TyDatabase>(
    db: &D,
    table: Inference,
    phase: InvocationPhase,
    fuel: nat,
)
    requires
        all_proper(table.worklist),
        work(table.worklist) <= fuel,
    ensures
        table.drained(db, phase, fuel).1 == Some(all_met(db, phase, table.worklist)),
        all_met(db, phase, table.worklist) ==> table.drained(db, phase, fuel).0 == (Inference {
            worklist: List::Nil,
            ..table
        }),
    decreases fuel,
{
    if let List::Cons(c, rest) = table.worklist {
        let start = Inference { worklist: *rest, ..table };
        let more = lemma_reduced(db, start, phase, *c);
        lemma_joined(db, phase, *rest, more);
        let (next, ok) = start.reduced(db, phase, *c);
        if ok {
            law_proper_constraints_are_decided(db, next, phase, (fuel - 1) as nat);
        }
    }
}

/// A table without variables is consistent, and has a solution, exactly where
/// its constraints between proper types are all met.
pub proof fn law_proper_constraints_have_a_solution<D: TyDatabase>(
    db: &D,
    table: Inference,
    phase: InvocationPhase,
)
    requires
        table.bounds is Nil,
        table.applied is Nil,
        all_proper(table.worklist),
        work(table.worklist) <= db.limit(),
        db.limit() > 0,
    ensures
        table.consistent(db, phase).1 == all_met(db, phase, table.worklist),
        table.solved(db, phase).1 == if all_met(db, phase, table.worklist) {
            Some(List::<(u64, Ty)>::Nil)
        } else {
            None
        },
{
    law_proper_constraints_are_decided(db, table, phase, db.limit() as nat);
    if all_met(db, phase, table.worklist) {
        let a = Inference { worklist: List::Nil, ..table };
        assert(equalities(a.bounds) is Nil);
        assert(a.eliminated_all(db, List::Nil) == Some(a));
        assert(a.plus_work(implied_all(a.bounds)) == a);
        assert(a.drained(db, phase, db.limit() as nat) == (a, Some(true)));
        assert(checked_all(db, a.bounds, a.bounds) == Checked::Pending(List::Nil));
        assert(a.plus_work(List::Nil) == a);
        assert(a.round(db, phase) == (a, Some(true)));
        assert(a.incorporated(db, phase, db.limit() as nat) == (a, Some(true)));
        lemma_nothing_to_resolve(db, a);
    }
}

proof fn lemma_nothing_to_resolve<D: TyDatabase>(db: &D, a: Inference)
    requires
        a.bounds is Nil,
        a.applied is Nil,
    ensures
        a.resolution(db) == Some(List::<(u64, Ty)>::Nil),
{
    let none = List::<(u64, Ty)>::Nil;
    let seeded = keys_of(a.applied);
    assert(seeded is Nil);
    let one = List::Cons(Box::new(0u64), Box::new(seeded));
    assert(settled_once(none, seeded) == (none, false));
    assert(settled(none, seeded, one) == none);
    let ids = ids_of(a.bounds);
    assert(ids is Nil);
    let rounds = List::Cons(Box::new(0u64), Box::new(List::Cons(Box::new(0u64), Box::new(ids))));
    assert(a.resolved_pass(db, ids, none) == Some((none, false)));
    assert(unresolved(ids, none) is Nil);
    assert(a.resolved_rounds(db, ids, none, rounds) == Some(none));
    assert(all_dependencies_hold(db, a.bounds, none));
    assert(keys_of(none) is Nil);
    assert(twice(keys_of(none)) == one);
}

/// A class with type arguments.
pub open spec fn applied_to(name: Name, args: List<Ty>) -> Ty {
    Ty::Reference { name, args: Box::new(args), local: None }
}

/// Whether the types can be passed one to the other: the solution of the
/// constraint between them.
pub open spec fn passes<D: TyDatabase>(db: &D, phase: InvocationPhase, s: Ty, t: Ty) -> bool {
    let c = List::Cons(Box::new(Constraint::Sub(s, t)), Box::new(List::Nil));
    empty_table().plus_work(c).solved(db, phase).1 is Some
}

/// A type can be passed exactly where it fits.
pub proof fn law_passing_is_fitting<D: TyDatabase>(db: &D, phase: InvocationPhase, s: Ty, t: Ty)
    requires
        given(s),
        wanted(t),
        size(s) <= db.limit(),
    ensures
        passes(db, phase, s, t) == fits(db, phase, s, t),
{
    let c = List::Cons(Box::new(Constraint::Sub(s, t)), Box::new(List::Nil));
    reveal_with_fuel(work, 2);
    reveal_with_fuel(all_proper, 2);
    reveal_with_fuel(all_met, 2);
    assert(size(s) > 0);
    assert(empty_table().plus_work(c).worklist == c);
    law_proper_constraints_have_a_solution(db, empty_table().plus_work(c), phase);
}

/// A parameterization by a class is passed where one by a wildcard is wanted
/// exactly where the wildcard holds the class: `?` holds every class, `? extends
/// B` those that convert to `B`, `? super B` those that `B` converts to. A
/// parameterization by another class is never passed.
pub proof fn law_wildcards_hold_types<D: TyDatabase>(
    db: &D,
    phase: InvocationPhase,
    class: Name,
    a: Name,
    b: Name,
)
    requires
        a != b,
        db.limit() >= 3,
    ensures
        ({
            let one = |t: Ty|
                applied_to(class, List::Cons(Box::new(t), Box::new(List::<Ty>::Nil)));
            let (x, y) = (class_of(a), class_of(b));
            let upper = Ty::Wildcard(WildcardBound::Upper(Box::new(y)));
            let lower = Ty::Wildcard(WildcardBound::Lower(Box::new(y)));
            let any = Ty::Wildcard(WildcardBound::Unbounded);
            &&& phase is Strict ==> passes(db, phase, one(x), one(upper)) == db.strict(x, y)
            &&& phase is Loose ==> passes(db, phase, one(x), one(upper)) == db.assignable(x, y)
            &&& phase is Strict ==> passes(db, phase, one(x), one(lower)) == db.strict(y, x)
            &&& phase is Loose ==> passes(db, phase, one(x), one(lower)) == db.assignable(y, x)
            &&& passes(db, phase, one(y), one(upper))
            &&& passes(db, phase, one(y), one(lower))
            &&& passes(db, phase, one(x), one(any))
            &&& !passes(db, phase, one(x), one(y))
        }),
{
    reveal_with_fuel(List::count, 3);
    reveal_with_fuel(all_plain, 3);
    reveal_with_fuel(all_plain_wildcards, 3);
    reveal_with_fuel(all_hold, 3);
    let (x, y) = (class_of(a), class_of(b));
    let upper = Ty::Wildcard(WildcardBound::Upper(Box::new(y)));
    let lower = Ty::Wildcard(WildcardBound::Lower(Box::new(y)));
    let any = Ty::Wildcard(WildcardBound::Unbounded);
    let one = |t: Ty| applied_to(class, List::Cons(Box::new(t), Box::new(List::<Ty>::Nil)));
    law_passing_is_fitting(db, phase, one(x), one(upper));
    law_passing_is_fitting(db, phase, one(x), one(lower));
    law_passing_is_fitting(db, phase, one(y), one(upper));
    law_passing_is_fitting(db, phase, one(y), one(lower));
    law_passing_is_fitting(db, phase, one(x), one(any));
    law_passing_is_fitting(db, phase, one(x), one(y));
}

} // verus!
