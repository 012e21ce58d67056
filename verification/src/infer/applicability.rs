//! Which methods an invocation can mean, told from the types of its arguments
//! alone: the laws of overload resolution for arguments that have types of
//! their own and methods without type parameters.
use crate::body::{Expr, ExprKind};
use crate::db::TyDatabase;
use crate::infer::candidate::{
    built, chosen, concluded, declared_for, law_selection_is_applicable, signature,
    with_argument, CallResolution,
};
use crate::infer::ctx::{InferCtx, Site};
use crate::infer::overload::{maybe_whole, Trial};
use crate::infer::poly::{poly_ext, ArgType};
use crate::inference::proper::{
    all_met, all_proper, all_wanted, fits, given, law_proper_constraints_have_a_solution,
    lemma_plus_nil, size, wanted, work,
};
use crate::inference::{
    registered, registered_method, throwing, Constraint, Inference, InvocationPhase, Registered,
};
use crate::list::{lemma_plus_assoc, List};
use crate::member::MethodData;
use crate::select::{
    accepts, beats_all, distinct, empty_table, functional_specificity, lemma_winners, most_specific, sam_returns,
    signature_among, specific_than, winners, zipped, Candidate,
};
use crate::ty::{all_subst, boxed, law_empty_substitution, lemma_all_unchanged, Ty};
use vstd::prelude::*;

verus! {

/// Whether the arguments have types of their own.
pub open spec fn typed(args: List<Expr>, types: List<ArgType>) -> bool
    decreases args,
{
    match (args, types) {
        (List::Nil, List::Nil) => true,
        (List::Cons(a, at), List::Cons(t, tt)) => !poly_ext(*a) && (match *t {
            Some(ty) => given(ty),
            None => false,
        }) && typed(*at, *tt),
        _ => false,
    }
}

/// How much there is to compare in the types of arguments.
pub open spec fn sizes(types: List<ArgType>) -> nat
    decreases types,
{
    match types {
        List::Nil => 0,
        List::Cons(t, tt) => (match *t {
            Some(ty) => size(ty),
            None => 0,
        }) + sizes(*tt),
    }
}

/// Whether an argument can be passed in a phase: as it is by strict invocation,
/// boxed by loose invocation.
pub open spec fn suits<D: TyDatabase>(
    db: &D,
    phase: InvocationPhase,
    arg: ArgType,
    formal: Ty,
) -> bool {
    match arg {
        None => false,
        Some(t) => match phase {
            InvocationPhase::Strict => fits(db, phase, t, formal),
            InvocationPhase::Loose => fits(db, phase, boxed(t), formal),
        },
    }
}

/// Whether arguments can be passed for parameters, one for each.
pub open spec fn suits_each<D: TyDatabase>(
    db: &D,
    phase: InvocationPhase,
    types: List<ArgType>,
    formals: List<Ty>,
) -> bool
    decreases types,
{
    match (types, formals) {
        (List::Nil, List::Nil) => true,
        (List::Cons(t, tt), List::Cons(f, ft)) => suits(db, phase, *t, *f) && suits_each(
            db,
            phase,
            *tt,
            *ft,
        ),
        _ => false,
    }
}

/// Whether all arguments can be elements of an array.
pub open spec fn suits_all<D: TyDatabase>(db: &D, types: List<ArgType>, element: Ty) -> bool
    decreases types,
{
    match types {
        List::Nil => true,
        List::Cons(t, tt) => suits(db, InvocationPhase::Loose, *t, element) && suits_all(
            db,
            *tt,
            element,
        ),
    }
}

/// Whether arguments can be passed for parameters of which the last takes any
/// number: a single array as it is, others as its elements.
pub open spec fn suits_packed<D: TyDatabase>(
    db: &D,
    types: List<ArgType>,
    formals: List<Ty>,
) -> bool
    decreases formals,
{
    match formals {
        List::Nil => false,
        List::Cons(f, ft) => if *ft is Nil {
            match (types, *f) {
                (List::Cons(t, tt), _) if *tt is Nil && (*t matches Some(ty) && ty is Array) => {
                    suits(db, InvocationPhase::Loose, *t, *f)
                },
                (_, Ty::Array(element)) => suits_all(db, types, *element),
                _ => false,
            }
        } else {
            match types {
                List::Nil => false,
                List::Cons(t, tt) => suits(db, InvocationPhase::Loose, *t, *f) && suits_packed(
                    db,
                    *tt,
                    *ft,
                ),
            }
        },
    }
}

/// A method without type parameters whose parameters have types of their own.
pub open spec fn simple_method(m: MethodData) -> bool {
    m.type_params is Nil && all_wanted(m.params)
}

pub open spec fn simple_methods(members: List<MethodData>) -> bool
    decreases members,
{
    match members {
        List::Nil => true,
        List::Cons(m, t) => simple_method(*m) && simple_methods(*t),
    }
}

/// Whether a method can be invoked with arguments of these types: in a phase,
/// and by variable arity where that is asked.
pub open spec fn invocable<D: TyDatabase>(
    db: &D,
    m: MethodData,
    types: List<ArgType>,
    phase: InvocationPhase,
    varargs: bool,
) -> bool {
    if varargs {
        m.varargs && suits_packed(db, types, m.params)
    } else {
        suits_each(db, phase, types, m.params)
    }
}

pub proof fn lemma_suits<D: TyDatabase>(db: &D, phase: InvocationPhase, t: Ty, formal: Ty) -> (s: Ty)
    requires
        given(t),
    ensures
        given(s),
        size(s) == size(t),
        s == match phase {
            InvocationPhase::Loose => boxed(t),
            InvocationPhase::Strict => t,
        },
        suits(db, phase, Some(t), formal) == fits(db, phase, s, formal),
{
    reveal_with_fuel(List::count, 2);
    match phase {
        InvocationPhase::Loose => boxed(t),
        InvocationPhase::Strict => t,
    }
}

/// One argument is one constraint more.
proof fn lemma_one_more<D: TyDatabase>(
    db: &D,
    phase: InvocationPhase,
    table: Inference,
    t: Ty,
    formal: Ty,
    more: List<Constraint>,
) -> (cs: List<Constraint>)
    requires
        given(t),
        wanted(formal),
        all_proper(more),
    ensures
        with_argument(table, t, formal, phase).plus_work(more) == table.plus_work(cs),
        all_proper(cs),
        all_met(db, phase, cs) == (suits(db, phase, Some(t), formal) && all_met(db, phase, more)),
        work(cs) == size(t) + work(more),
{
    let s = lemma_suits(db, phase, t, formal);
    let c = Constraint::Sub(s, formal);
    let one = List::Cons(Box::new(c), Box::new(List::<Constraint>::Nil));
    let cs = List::Cons(Box::new(c), Box::new(more));
    lemma_plus_assoc(table.worklist, one, more);
    reveal_with_fuel(List::plus, 2);
    assert(one.plus(more) == cs);
    cs
}

proof fn lemma_fixed<D: TyDatabase>(
    s: InferCtx,
    db: &D,
    site: Site,
    table: Inference,
    args: List<Expr>,
    types: List<ArgType>,
    formals: List<Ty>,
    phase: InvocationPhase,
) -> (cs: List<Constraint>)
    requires
        typed(args, types),
        all_wanted(formals),
        args.count() == formals.count(),
    ensures
        s.fixed_args(db, site, table, args, types, formals, phase) == (
            s,
            table.plus_work(cs),
            true,
        ),
        all_proper(cs),
        all_met(db, phase, cs) == suits_each(db, phase, types, formals),
        work(cs) == sizes(types),
    decreases args,
{
    reveal_with_fuel(InferCtx::fixed_args, 2);
    lemma_plus_nil(table.worklist);
    match (args, types, formals) {
        (List::Cons(a, at), List::Cons(ty, tt), List::Cons(f, ft)) => {
            let t = (*ty)->Some_0;
            let next = with_argument(table, t, *f, phase);
            assert(s.argument(db, site, table, *a, *ty, *f, phase) == (s, next, true));
            let more = lemma_fixed(s, db, site, next, *at, *tt, *ft, phase);
            lemma_one_more(db, phase, table, t, *f, more)
        },
        _ => List::Nil,
    }
}

proof fn lemma_every<D: TyDatabase>(
    s: InferCtx,
    db: &D,
    site: Site,
    table: Inference,
    args: List<Expr>,
    types: List<ArgType>,
    element: Ty,
) -> (cs: List<Constraint>)
    requires
        typed(args, types),
        wanted(element),
    ensures
        s.every_arg(db, site, table, args, types, element, InvocationPhase::Loose) == (
            s,
            table.plus_work(cs),
            true,
        ),
        all_proper(cs),
        all_met(db, InvocationPhase::Loose, cs) == suits_all(db, types, element),
        work(cs) == sizes(types),
    decreases args,
{
    let phase = InvocationPhase::Loose;
    reveal_with_fuel(InferCtx::every_arg, 2);
    lemma_plus_nil(table.worklist);
    match (args, types) {
        (List::Cons(a, at), List::Cons(ty, tt)) => {
            let t = (*ty)->Some_0;
            let next = with_argument(table, t, element, phase);
            assert(s.argument(db, site, table, *a, *ty, element, phase) == (s, next, true));
            let more = lemma_every(s, db, site, next, *at, *tt, element);
            lemma_one_more(db, phase, table, t, element, more)
        },
        _ => List::Nil,
    }
}

proof fn lemma_variable<D: TyDatabase>(
    s: InferCtx,
    db: &D,
    site: Site,
    table: Inference,
    args: List<Expr>,
    types: List<ArgType>,
    formals: List<Ty>,
) -> (cs: List<Constraint>)
    requires
        typed(args, types),
        all_wanted(formals),
    ensures
        ({
            let (s1, t1, ok) = s.variable_args(
                db,
                site,
                table,
                args,
                types,
                formals,
                InvocationPhase::Loose,
            );
            &&& s1 == s
            &&& ok ==> t1 == table.plus_work(cs)
            &&& all_proper(cs)
            &&& suits_packed(db, types, formals) == (ok && all_met(db, InvocationPhase::Loose, cs))
            &&& work(cs) <= sizes(types)
        }),
    decreases args,
{
    let phase = InvocationPhase::Loose;
    reveal_with_fuel(InferCtx::variable_args, 3);
    reveal_with_fuel(typed, 2);
    lemma_plus_nil(table.worklist);
    let out = s.variable_args(db, site, table, args, types, formals, phase);
    match formals {
        List::Nil => {
            assert(out == (s, table, false));
            List::Nil
        },
        List::Cons(f, ft) => if *ft is Nil {
            assert(s.variable_args(db, site, table, args, types, formals, phase) == s.rest_args(
                db,
                site,
                table,
                args,
                types,
                *f,
                phase,
            ));
            if maybe_whole(args, types) {
                if let (List::Cons(a, at), List::Cons(ty, tt)) = (args, types) {
                    let t = (*ty)->Some_0;
                    let next = with_argument(table, t, *f, phase);
                    assert(s.argument(db, site, table, *a, *ty, *f, phase) == (s, next, true));
                    lemma_plus_nil(next.worklist);
                    assert(next.plus_work(List::Nil) == next);
                    let cs = lemma_one_more(db, phase, table, t, *f, List::Nil);
                    assert(*tt is Nil);
                    assert(out == (s, next, true));
                    cs
                } else {
                    List::Nil
                }
            } else {
                match *f {
                    Ty::Array(element) => lemma_every(s, db, site, table, args, types, *element),
                    _ => {
                        assert(out == (s, table, false));
                        List::Nil
                    },
                }
            }
        } else {
            match (args, types) {
                (List::Cons(a, at), List::Cons(ty, tt)) => {
                    let t = (*ty)->Some_0;
                    let next = with_argument(table, t, *f, phase);
                    assert(s.argument(db, site, table, *a, *ty, *f, phase) == (s, next, true));
                    let more = lemma_variable(s, db, site, next, *at, *tt, *ft);
                    assert(out == s.variable_args(db, site, next, *at, *tt, *ft, phase));
                    lemma_one_more(db, phase, table, t, *f, more)
                },
                _ => {
                    assert(out == (s, table, false));
                    List::Nil
                },
            }
        },
    }
}

pub proof fn lemma_throwing(table: Inference, l: List<Ty>)
    ensures
        throwing(table, l) == (Inference { throws: throwing(table, l).throws, ..table }),
    decreases l,
{
    if let List::Cons(h, t) = l {
        match *h {
            Ty::InferenceVar(id) => lemma_throwing(table.with_throws(id), *t),
            _ => lemma_throwing(table, *t),
        }
    }
}

/// A method without type parameters has the signature that it is declared with.
proof fn lemma_signature(next: u64, m: MethodData, explicit: Option<List<Ty>>)
    requires
        m.type_params is Nil,
    ensures
        ({
            let sig = signature(empty_table(), next, m, explicit);
            &&& sig.table == (Inference { throws: sig.table.throws, ..empty_table() })
            &&& sig.next == next
            &&& sig.formals == m.params
            &&& sig.ret == m.ret
            &&& sig.throws == m.throws
        }),
{
    reveal(signature);
    lemma_all_unchanged(m.params);
    lemma_all_unchanged(m.throws);
    law_empty_substitution(m.ret);
    lemma_throwing(empty_table(), m.throws);
    let r = Registered { table: empty_table(), next, subst: List::Nil };
    assert(registered(r, m.type_params) == r);
}

proof fn lemma_functional_arg<D: TyDatabase>(
    s: InferCtx,
    db: &D,
    site: Site,
    arg: Expr,
    formal: Ty,
)
    requires
        !poly_ext(arg),
    ensures
        s.functional_arg(db, site, arg, formal) == (s, true),
    decreases arg,
{
    reveal_with_fuel(InferCtx::functional_arg, 2);
    if let ExprKind::Paren(inner) = arg.kind {
        lemma_functional_arg(s, db, site, *inner, formal);
        assert(s.functional_arg(db, site, arg, formal) == s.functional_arg(
            db,
            site,
            *inner,
            formal,
        ));
    }
}

proof fn lemma_functional_args<D: TyDatabase>(
    s: InferCtx,
    db: &D,
    site: Site,
    args: List<Expr>,
    types: List<ArgType>,
    formals: List<Ty>,
)
    requires
        typed(args, types),
    ensures
        s.functional_args(db, site, args, formals) == (s, true),
    decreases args,
{
    reveal_with_fuel(InferCtx::functional_args, 2);
    if let (List::Cons(a, at), List::Cons(f, ft)) = (args, formals) {
        if let List::Cons(_, tt) = types {
            lemma_functional_arg(s, db, site, *a, *f);
            lemma_functional_args(s, db, site, *at, *tt, *ft);
        }
    }
}

proof fn lemma_each_count<D: TyDatabase>(
    db: &D,
    phase: InvocationPhase,
    types: List<ArgType>,
    formals: List<Ty>,
)
    requires
        suits_each(db, phase, types, formals),
    ensures
        types.count() == formals.count(),
    decreases types,
{
    if let (List::Cons(_, tt), List::Cons(_, ft)) = (types, formals) {
        lemma_each_count(db, phase, *tt, *ft);
    }
}

proof fn lemma_packed_count<D: TyDatabase>(db: &D, types: List<ArgType>, formals: List<Ty>)
    requires
        suits_packed(db, types, formals),
    ensures
        !(formals is Nil),
        formals.count() <= types.count() + 1,
    decreases formals,
{
    reveal_with_fuel(List::count, 2);
    if let List::Cons(_, ft) = formals {
        if !(*ft is Nil) {
            if let List::Cons(_, tt) = types {
                lemma_packed_count(db, *tt, *ft);
            }
        }
    }
}

proof fn lemma_typed_count(args: List<Expr>, types: List<ArgType>)
    requires
        typed(args, types),
    ensures
        args.count() == types.count(),
    decreases args,
{
    if let (List::Cons(_, at), List::Cons(_, tt)) = (args, types) {
        lemma_typed_count(*at, *tt);
    }
}

/// What is asked of a candidate of an invocation, as far as arguments with types
/// of their own go.
pub open spec fn plain_trial(trial: Trial) -> bool {
    trial.resolve && (trial.varargs ==> trial.phase is Loose)
}

proof fn lemma_candidate<D: TyDatabase>(
    s: InferCtx,
    db: &D,
    site: Site,
    m: MethodData,
    args: List<Expr>,
    types: List<ArgType>,
    trial: Trial,
)
    requires
        typed(args, types),
        simple_method(m),
        plain_trial(trial),
        sizes(types) <= db.limit(),
        db.limit() > 0,
    ensures
        ({
            let (s1, _, out) = s.candidate(db, site, empty_table(), m, args, types, trial);
            &&& s1 == s
            &&& out == if invocable(db, m, types, trial.phase, trial.varargs) {
                Some(m)
            } else {
                None
            }
        }),
{
    let table = empty_table();
    let sig = signature(table, s.next_var, m, trial.explicit);
    lemma_signature(s.next_var, m, trial.explicit);
    lemma_functional_args(s, db, site, args, types, sig.formals);
    lemma_typed_count(args, types);
    reveal(concluded);
    lemma_all_unchanged(m.params);
    lemma_all_unchanged(m.throws);
    law_empty_substitution(m.ret);
    assert(built(m, m.params, m.ret, m.throws, List::Nil) == m);
    assert(InferCtx { next_var: sig.next, ..s } == s);
    let whole = s.candidate(db, site, table, m, args, types, trial);
    if trial.varargs {
        if suits_packed(db, types, m.params) {
            lemma_packed_count(db, types, m.params);
        }
        let cs = lemma_variable(s, db, site, sig.table, args, types, m.params);
        let t2 = sig.table.plus_work(cs);
        assert(t2.worklist == cs);
        law_proper_constraints_have_a_solution(db, t2, trial.phase);
    } else {
        if suits_each(db, trial.phase, types, m.params) {
            lemma_each_count(db, trial.phase, types, m.params);
        }
        if args.count() == m.params.count() {
            let cs = lemma_fixed(
                s,
                db,
                site,
                sig.table,
                args,
                types,
                m.params,
                trial.phase,
            );
            let t2 = sig.table.plus_work(cs);
            assert(t2.worklist == cs);
            law_proper_constraints_have_a_solution(db, t2, trial.phase);
        }
    }
}

/// The members that can be invoked, each as it is declared.
pub open spec fn invocable_of<D: TyDatabase>(
    db: &D,
    members: List<MethodData>,
    types: List<ArgType>,
    phase: InvocationPhase,
    varargs: bool,
) -> List<Candidate>
    decreases members,
{
    match members {
        List::Nil => List::Nil,
        List::Cons(m, t) => {
            let rest = invocable_of(db, *t, types, phase, varargs);
            if invocable(db, *m, types, phase, varargs) {
                List::Cons(Box::new((*m, *m)), Box::new(rest))
            } else {
                rest
            }
        },
    }
}

proof fn lemma_invocable_of<D: TyDatabase>(
    db: &D,
    members: List<MethodData>,
    types: List<ArgType>,
    phase: InvocationPhase,
    varargs: bool,
    c: Candidate,
)
    ensures
        invocable_of(db, members, types, phase, varargs).has(c) == (c.0 == c.1 && members.has(c.0)
            && invocable(db, c.0, types, phase, varargs)),
    decreases members,
{
    if let List::Cons(_, t) = members {
        lemma_invocable_of(db, *t, types, phase, varargs, c);
    }
}

proof fn lemma_applicable<D: TyDatabase>(
    s: InferCtx,
    db: &D,
    site: Site,
    members: List<MethodData>,
    args: List<Expr>,
    types: List<ArgType>,
    trial: Trial,
)
    requires
        typed(args, types),
        simple_methods(members),
        plain_trial(trial),
        sizes(types) <= db.limit(),
        db.limit() > 0,
    ensures
        s.applicable(db, site, empty_table(), members, args, types, trial) == (
            s,
            invocable_of(db, members, types, trial.phase, trial.varargs),
        ),
    decreases members,
{
    reveal_with_fuel(InferCtx::applicable, 2);
    reveal(InferCtx::probed);
    if let List::Cons(m, rest) = members {
        let (s1, _, out) = s.probed(true).candidate(
            db,
            site,
            empty_table(),
            *m,
            args,
            types,
            trial,
        );
        lemma_candidate(s.probed(true), db, site, *m, args, types, trial);
        let (s2, found) = s.probe(db, site, empty_table(), *m, args, types, trial);
        assert(s2 == s1.probed(s.probing));
        assert(s2 == s);
        lemma_applicable(s, db, site, *rest, args, types, trial);
    }
}

proof fn lemma_phase<D: TyDatabase>(
    s: InferCtx,
    db: &D,
    site: Site,
    members: List<MethodData>,
    args: List<Expr>,
    types: List<ArgType>,
    trial: Trial,
)
    requires
        typed(args, types),
        simple_methods(members),
        plain_trial(trial),
        sizes(types) <= db.limit(),
        db.limit() > 0,
    ensures
        s.in_phase(db, site, members, args, types, trial) == (
            s,
            chosen(
                db,
                s.next_var,
                invocable_of(db, members, types, trial.phase, trial.varargs),
                trial.varargs,
            ),
        ),
{
    lemma_applicable(s, db, site, members, args, types, trial);
}

/// Whether some member can be invoked.
pub open spec fn some_invocable<D: TyDatabase>(
    db: &D,
    members: List<MethodData>,
    types: List<ArgType>,
    phase: InvocationPhase,
    varargs: bool,
) -> bool {
    exists|m: MethodData| #[trigger] members.has(m) && invocable(db, m, types, phase, varargs)
}

/// Whether a member can be invoked, and no other one.
pub open spec fn only_invocable<D: TyDatabase>(
    db: &D,
    members: List<MethodData>,
    types: List<ArgType>,
    phase: InvocationPhase,
    varargs: bool,
    m: MethodData,
) -> bool {
    &&& members.has(m)
    &&& invocable(db, m, types, phase, varargs)
    &&& forall|o: MethodData| #[trigger]
        members.has(o) && invocable(db, o, types, phase, varargs) ==> o == m
}

pub proof fn lemma_some<D: TyDatabase>(
    db: &D,
    members: List<MethodData>,
    types: List<ArgType>,
    phase: InvocationPhase,
    varargs: bool,
)
    ensures
        invocable_of(db, members, types, phase, varargs) is Nil <==> !some_invocable(
            db,
            members,
            types,
            phase,
            varargs,
        ),
{
    let l = invocable_of(db, members, types, phase, varargs);
    if let List::Cons(c, _) = l {
        assert(l.has(*c));
        lemma_invocable_of(db, members, types, phase, varargs, *c);
        assert(members.has(c.0));
    }
    if some_invocable(db, members, types, phase, varargs) {
        let m = choose|m: MethodData| #[trigger]
            members.has(m) && invocable(db, m, types, phase, varargs);
        lemma_invocable_of(db, members, types, phase, varargs, (m, m));
    }
}

proof fn lemma_distinct_one(c: Candidate, l: List<Candidate>)
    requires
        forall|x: Candidate| #[trigger] l.has(x) ==> x == c,
    ensures
        distinct(List::Cons(Box::new(c), Box::new(List::Nil)), l) == List::Cons(
            Box::new(c),
            Box::new(List::<Candidate>::Nil),
        ),
    decreases l,
{
    reveal_with_fuel(signature_among, 2);
    if let List::Cons(h, t) = l {
        assert(l.has(*h));
        assert forall|x: Candidate| #[trigger] t.has(x) implies x == c by {
            assert(l.has(x));
        }
        lemma_distinct_one(c, *t);
    }
}

/// The only candidate that is more specific than every other is chosen.
proof fn lemma_only_winner<D: TyDatabase>(
    db: &D,
    next: u64,
    l: List<Candidate>,
    m: MethodData,
    varargs: bool,
)
    requires
        l.has((m, m)),
        beats_all(db, next, m, l, varargs),
        forall|x: Candidate| #[trigger] l.has(x) ==> x.0 == x.1,
        forall|x: Candidate| #[trigger]
            l.has(x) && beats_all(db, next, x.0, l, varargs) ==> x.0 == m,
    ensures
        most_specific(db, next, l, varargs) == Some(m),
        chosen(db, next, l, varargs) == (CallResolution::Selected {
            candidate: m,
            invocation: m,
            varargs,
        }),
{
    let c = (m, m);
    let wins = winners(db, next, l, l, varargs);
    lemma_winners(db, next, l, l, varargs, c);
    assert forall|x: Candidate| #[trigger] wins.has(x) implies x == c by {
        lemma_winners(db, next, l, l, varargs, x);
        assert(l.has(x));
    }
    if let List::Cons(h, t) = wins {
        assert(wins.has(*h));
        assert forall|x: Candidate| #[trigger] t.has(x) implies x == c by {
            assert(wins.has(x));
        }
        lemma_distinct_one(c, *t);
        let one = List::Cons(Box::new(c), Box::new(List::<Candidate>::Nil));
        reveal_with_fuel(distinct, 2);
        reveal_with_fuel(signature_among, 2);
        assert(List::<Candidate>::Nil.with(c) == one);
        assert(distinct(List::Nil, wins) == one);
    }
    lemma_declared_one(l, m);
}

proof fn lemma_declared_one(l: List<Candidate>, m: MethodData)
    requires
        l.has((m, m)),
        forall|x: Candidate| #[trigger] l.has(x) ==> x.0 == x.1,
    ensures
        declared_for(l, m) == Some(m),
    decreases l,
{
    if let List::Cons(h, t) = l {
        assert(l.has(*h));
        if h.1 != m {
            assert forall|x: Candidate| #[trigger] t.has(x) implies x.0 == x.1 by {
                assert(l.has(x));
            }
            lemma_declared_one(*t, m);
        }
    }
}

proof fn lemma_all_beaten<D: TyDatabase>(
    db: &D,
    next: u64,
    l: List<Candidate>,
    m: MethodData,
    varargs: bool,
)
    requires
        forall|x: Candidate| #[trigger]
            l.has(x) ==> x.0 == m || specific_than(db, next, m, x.0, varargs),
    ensures
        beats_all(db, next, m, l, varargs),
    decreases l,
{
    if let List::Cons(h, t) = l {
        assert(l.has(*h));
        assert forall|x: Candidate| #[trigger] t.has(x) implies x.0 == m || specific_than(
            db,
            next,
            m,
            x.0,
            varargs,
        ) by {
            assert(l.has(x));
        }
        lemma_all_beaten(db, next, *t, m, varargs);
    }
}

proof fn lemma_beaten<D: TyDatabase>(
    db: &D,
    next: u64,
    l: List<Candidate>,
    m: MethodData,
    varargs: bool,
    x: Candidate,
)
    requires
        beats_all(db, next, m, l, varargs),
        l.has(x),
    ensures
        x.0 == m || specific_than(db, next, m, x.0, varargs),
    decreases l,
{
    if let List::Cons(h, t) = l {
        if *h != x {
            lemma_beaten(db, next, *t, m, varargs, x);
        }
    }
}

pub proof fn lemma_only<D: TyDatabase>(
    db: &D,
    next: u64,
    members: List<MethodData>,
    types: List<ArgType>,
    phase: InvocationPhase,
    varargs: bool,
    m: MethodData,
)
    requires
        only_invocable(db, members, types, phase, varargs, m),
    ensures
        most_specific(db, next, invocable_of(db, members, types, phase, varargs), varargs) == Some(
            m,
        ),
        chosen(db, next, invocable_of(db, members, types, phase, varargs), varargs) == (
        CallResolution::Selected { candidate: m, invocation: m, varargs }),
{
    let l = invocable_of(db, members, types, phase, varargs);
    lemma_invocable_of(db, members, types, phase, varargs, (m, m));
    assert forall|x: Candidate| #[trigger] l.has(x) implies x.0 == m && x.1 == m by {
        lemma_invocable_of(db, members, types, phase, varargs, x);
        assert(members.has(x.0));
    }
    lemma_all_beaten(db, next, l, m, varargs);
    lemma_only_winner(db, next, l, m, varargs);
}

/// An invocation means the only member that can be invoked strictly; where there
/// is none, the only one that can be invoked loosely; where there is none
/// either, the only one that can be invoked by variable arity. It means none
/// exactly where no member can be invoked, and what it means can be invoked so.
pub proof fn law_phases_of_a_call<D: TyDatabase>(
    s: InferCtx,
    db: &D,
    site: Site,
    members: List<MethodData>,
    args: List<Expr>,
    types: List<ArgType>,
    target: Option<Ty>,
    explicit: Option<List<Ty>>,
    m: MethodData,
)
    requires
        typed(args, types),
        simple_methods(members),
        sizes(types) <= db.limit(),
        db.limit() > 0,
    ensures
        ({
            let r = s.resolved_call(db, site, members, args, types, target, explicit).1;
            let (strict, loose) = (InvocationPhase::Strict, InvocationPhase::Loose);
            let by_strict = some_invocable(db, members, types, strict, false);
            let by_loose = some_invocable(db, members, types, loose, false);
            let by_arity = some_invocable(db, members, types, loose, true);
            let fixed = CallResolution::Selected { candidate: m, invocation: m, varargs: false };
            let variable = CallResolution::Selected { candidate: m, invocation: m, varargs: true };
            &&& only_invocable(db, members, types, strict, false, m) ==> r == fixed
            &&& !by_strict && only_invocable(db, members, types, loose, false, m) ==> r == fixed
            &&& !by_strict && !by_loose && only_invocable(db, members, types, loose, true, m)
                ==> r == variable
            &&& r is Missing <==> !by_strict && !by_loose && !by_arity
            &&& match r {
                CallResolution::Selected { candidate, invocation, varargs } => {
                    &&& members.has(candidate)
                    &&& invocation == candidate
                    &&& varargs ==> invocable(db, candidate, types, loose, true)
                    &&& !varargs ==> invocable(db, candidate, types, strict, false) || invocable(
                        db,
                        candidate,
                        types,
                        loose,
                        false,
                    )
                },
                _ => true,
            }
        }),
{
    let strict = Trial {
        phase: InvocationPhase::Strict,
        varargs: false,
        target,
        explicit,
        resolve: true,
    };
    let loose = Trial { phase: InvocationPhase::Loose, ..strict };
    let variable = Trial { varargs: true, ..loose };
    lemma_phase(s, db, site, members, args, types, strict);
    lemma_phase(s, db, site, members, args, types, loose);
    lemma_phase(s, db, site, members, args, types, variable);
    lemma_choice(db, s.next_var, members, types, InvocationPhase::Strict, false, m);
    lemma_choice(db, s.next_var, members, types, InvocationPhase::Loose, false, m);
    lemma_choice(db, s.next_var, members, types, InvocationPhase::Loose, true, m);
}

proof fn lemma_choice<D: TyDatabase>(
    db: &D,
    next: u64,
    members: List<MethodData>,
    types: List<ArgType>,
    phase: InvocationPhase,
    varargs: bool,
    m: MethodData,
)
    ensures
        ({
            let r = chosen(
                db,
                next,
                invocable_of(db, members, types, phase, varargs),
                varargs,
            );
            &&& r is Missing <==> !some_invocable(db, members, types, phase, varargs)
            &&& only_invocable(db, members, types, phase, varargs, m) ==> r == (
            CallResolution::Selected { candidate: m, invocation: m, varargs })
            &&& match r {
                CallResolution::Selected { candidate, invocation, varargs: v } => v == varargs
                    && invocation == candidate && members.has(candidate) && invocable(
                    db,
                    candidate,
                    types,
                    phase,
                    varargs,
                ),
                _ => true,
            }
        }),
{
    let l = invocable_of(db, members, types, phase, varargs);
    lemma_some(db, members, types, phase, varargs);
    law_selection_is_applicable(db, next, l, varargs);
    if only_invocable(db, members, types, phase, varargs, m) {
        lemma_only(db, next, members, types, phase, varargs, m);
    }
    if let CallResolution::Selected { candidate, invocation, varargs: _ } = chosen(
        db,
        next,
        l,
        varargs,
    ) {
        lemma_invocable_of(db, members, types, phase, varargs, (candidate, invocation));
    }
}

/// Whether a method can be passed the arguments of another: each parameter of
/// the one fits that of the other.
pub open spec fn each_fits<D: TyDatabase>(db: &D, a: List<Ty>, b: List<Ty>) -> bool
    decreases a,
{
    match (a, b) {
        (List::Nil, List::Nil) => true,
        (List::Cons(x, xt), List::Cons(y, yt)) => fits(db, InvocationPhase::Loose, *x, *y)
            && each_fits(db, *xt, *yt),
        _ => false,
    }
}

/// Parameters whose types values have, none of them a functional interface, and
/// that can be compared within a number of steps.
pub open spec fn comparable_params<D: TyDatabase>(db: &D, l: List<Ty>, limit: nat) -> bool
    decreases l,
{
    match l {
        List::Nil => true,
        List::Cons(h, t) => given(*h) && wanted(*h) && db.sam(*h) is None && size(*h) <= limit
            && comparable_params(db, *t, (limit - size(*h)) as nat),
    }
}

proof fn lemma_zipped<D: TyDatabase>(db: &D, a: List<Ty>, b: List<Ty>, limit: nat, other: nat)
    requires
        comparable_params(db, a, limit),
        comparable_params(db, b, other),
        a.count() == b.count(),
    ensures
        all_proper(zipped(a, b)),
        all_met(db, InvocationPhase::Loose, zipped(a, b)) == each_fits(db, a, b),
        work(zipped(a, b)) <= limit,
    decreases a,
{
    if let (List::Cons(x, xt), List::Cons(y, yt)) = (a, b) {
        lemma_zipped(
            db,
            *xt,
            *yt,
            (limit - size(*x)) as nat,
            (other - size(*y)) as nat,
        );
    }
}

proof fn lemma_each_fits_count<D: TyDatabase>(db: &D, a: List<Ty>, b: List<Ty>)
    requires
        each_fits(db, a, b),
    ensures
        a.count() == b.count(),
    decreases a,
{
    if let (List::Cons(_, xt), List::Cons(_, yt)) = (a, b) {
        lemma_each_fits_count(db, *xt, *yt);
    }
}

/// Of two methods of fixed arity without type parameters the one is more
/// specific whose parameters fit those of the other.
pub proof fn law_more_specific_parameters<D: TyDatabase>(
    db: &D,
    next: u64,
    a: MethodData,
    b: MethodData,
)
    requires
        b.type_params is Nil,
        comparable_params(db, a.params, db.limit() as nat),
        comparable_params(db, b.params, db.limit() as nat),
        db.limit() > 0,
    ensures
        specific_than(db, next, a, b, false) == each_fits(db, a.params, b.params),
{
    let limit = db.limit() as nat;
    let reg = registered_method(empty_table(), next, b);
    let r = Registered { table: empty_table(), next, subst: List::Nil };
    assert(registered(r, b.type_params) == r);
    lemma_all_unchanged(b.params);
    lemma_throwing(empty_table(), all_subst(b.throws, List::Nil));
    assert(reg.formals == b.params);
    if each_fits(db, a.params, b.params) {
        lemma_each_fits_count(db, a.params, b.params);
    }
    if a.params.count() == b.params.count() {
        let cs = zipped(a.params, b.params);
        lemma_zipped(db, a.params, b.params, limit, limit);
        let t = reg.table.plus_work(cs);
        assert(t.worklist == cs);
        law_proper_constraints_have_a_solution(db, t, InvocationPhase::Loose);
        assert(sam_returns(db, a.params, b.params, None) is None);
        assert(functional_specificity(db, a, b) is None);
        assert(accepts(db, next, b, cs) == all_met(db, InvocationPhase::Loose, cs));
    }
}

/// Whether a member can be invoked in a phase, and every other that can be takes
/// what it takes without the reverse.
pub open spec fn best_invocable<D: TyDatabase>(
    db: &D,
    members: List<MethodData>,
    types: List<ArgType>,
    phase: InvocationPhase,
    m: MethodData,
) -> bool {
    &&& members.has(m)
    &&& invocable(db, m, types, phase, false)
    &&& forall|o: MethodData| #[trigger]
        members.has(o) && invocable(db, o, types, phase, false) && o != m ==> each_fits(
            db,
            m.params,
            o.params,
        ) && !each_fits(db, o.params, m.params)
}

proof fn lemma_best<D: TyDatabase>(
    db: &D,
    next: u64,
    members: List<MethodData>,
    types: List<ArgType>,
    phase: InvocationPhase,
    m: MethodData,
)
    requires
        best_invocable(db, members, types, phase, m),
        simple_methods(members),
        forall|o: MethodData| #[trigger]
            members.has(o) ==> comparable_params(db, o.params, db.limit() as nat),
        db.limit() > 0,
    ensures
        chosen(db, next, invocable_of(db, members, types, phase, false), false) == (
        CallResolution::Selected { candidate: m, invocation: m, varargs: false }),
{
    let l = invocable_of(db, members, types, phase, false);
    lemma_invocable_of(db, members, types, phase, false, (m, m));
    lemma_simple(members, m);
    assert forall|x: Candidate| #[trigger] l.has(x) implies x.0 == x.1 && (x.0 == m || (
    specific_than(db, next, m, x.0, false) && !specific_than(db, next, x.0, m, false))) by {
        lemma_invocable_of(db, members, types, phase, false, x);
        assert(members.has(x.0));
        lemma_simple(members, x.0);
        law_more_specific_parameters(db, next, m, x.0);
        law_more_specific_parameters(db, next, x.0, m);
    }
    lemma_all_beaten(db, next, l, m, false);
    assert forall|x: Candidate| #[trigger]
        l.has(x) && beats_all(db, next, x.0, l, false) implies x.0 == m by {
        lemma_beaten(db, next, l, x.0, false, (m, m));
    }
    lemma_only_winner(db, next, l, m, false);
}

proof fn lemma_simple(members: List<MethodData>, m: MethodData)
    requires
        simple_methods(members),
        members.has(m),
    ensures
        simple_method(m),
    decreases members,
{
    if let List::Cons(h, t) = members {
        if *h != m {
            lemma_simple(*t, m);
        }
    }
}

/// Of several members that can be invoked in a phase, and none in an earlier
/// one, an invocation means the one whose parameters fit those of every other,
/// where no other one fits it.
pub proof fn law_most_specific_of_a_call<D: TyDatabase>(
    s: InferCtx,
    db: &D,
    site: Site,
    members: List<MethodData>,
    args: List<Expr>,
    types: List<ArgType>,
    target: Option<Ty>,
    explicit: Option<List<Ty>>,
    m: MethodData,
)
    requires
        typed(args, types),
        simple_methods(members),
        forall|o: MethodData| #[trigger]
            members.has(o) ==> comparable_params(db, o.params, db.limit() as nat),
        sizes(types) <= db.limit(),
        db.limit() > 0,
        best_invocable(db, members, types, InvocationPhase::Strict, m) || (!some_invocable(
            db,
            members,
            types,
            InvocationPhase::Strict,
            false,
        ) && best_invocable(db, members, types, InvocationPhase::Loose, m)),
    ensures
        s.resolved_call(db, site, members, args, types, target, explicit).1 == (
        CallResolution::Selected { candidate: m, invocation: m, varargs: false }),
{
    let strict = Trial {
        phase: InvocationPhase::Strict,
        varargs: false,
        target,
        explicit,
        resolve: true,
    };
    let loose = Trial { phase: InvocationPhase::Loose, ..strict };
    lemma_phase(s, db, site, members, args, types, strict);
    lemma_phase(s, db, site, members, args, types, loose);
    lemma_choice(db, s.next_var, members, types, InvocationPhase::Strict, false, m);
    if best_invocable(db, members, types, InvocationPhase::Strict, m) {
        lemma_best(db, s.next_var, members, types, InvocationPhase::Strict, m);
    } else {
        lemma_best(db, s.next_var, members, types, InvocationPhase::Loose, m);
    }
}

} // verus!
