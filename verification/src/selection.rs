//! Which of the members of a class an invocation means, told from the types of
//! its arguments alone, for arguments that have types of their own and methods
//! without type parameters.
use crate::db::TyDatabase;
use crate::infer::applicability::{
    invocable, invocable_of, lemma_only, lemma_some, lemma_suits, lemma_throwing, only_invocable,
    simple_method, sizes, some_invocable, suits_all, suits_each, suits_packed,
};
use crate::infer::poly::ArgType;
use crate::inference::proper::{
    all_met, all_proper, all_wanted, given, law_proper_constraints_have_a_solution, wanted,
    work,
};
use crate::inference::{registered, registered_method, Constraint, InvocationPhase, Registered};
use crate::list::List;
use crate::member::MethodData;
use crate::select::{
    applicable, arg_types, arities_fit, deduped, element_constraints, empty_table,
    fixed_constraints, invocation_constraints, invoked, last_component, most_specific, picked, varargs_constraints, PolyArg,
};
use crate::ty::{law_empty_substitution, lemma_all_unchanged, Ty};
use vstd::prelude::*;

verus! {

/// Whether every argument has a type of its own.
pub open spec fn concrete(args: List<PolyArg>) -> bool
    decreases args,
{
    match args {
        List::Nil => true,
        List::Cons(a, t) => (match *a {
            PolyArg::Concrete(ty) => given(ty),
            PolyArg::Poly(_, _) => false,
        }) && concrete(*t),
    }
}

/// The types of the arguments.
pub open spec fn types_in(args: List<PolyArg>) -> List<ArgType>
    decreases args,
{
    match args {
        List::Nil => List::Nil,
        List::Cons(a, t) => List::Cons(
            Box::new(
                match *a {
                    PolyArg::Concrete(ty) => Some(ty),
                    PolyArg::Poly(_, _) => None,
                },
            ),
            Box::new(types_in(*t)),
        ),
    }
}

/// Whether no type comes directly behind itself.
pub open spec fn no_repetition(l: List<Ty>) -> bool
    decreases l,
{
    match l {
        List::Nil => true,
        List::Cons(h, t) => no_repetition(*t) && match *t {
            List::Nil => true,
            List::Cons(h2, _) => *h != *h2,
        },
    }
}

/// Whether the methods have no type parameters and declare each exception once.
pub open spec fn simple_members(members: List<MethodData>) -> bool
    decreases members,
{
    match members {
        List::Nil => true,
        List::Cons(m, t) => simple_method(*m) && no_repetition(m.throws) && simple_members(*t),
    }
}

proof fn lemma_nothing_repeated(l: List<Ty>)
    requires
        no_repetition(l),
    ensures
        deduped(l) == l,
    decreases l,
{
    if let List::Cons(_, t) = l {
        lemma_nothing_repeated(*t);
    }
}

proof fn lemma_arities<D: TyDatabase>(
    db: &D,
    args: List<PolyArg>,
    formals: List<Ty>,
    varargs: bool,
    element: Option<Ty>,
)
    requires
        concrete(args),
    ensures
        arities_fit(db, args, formals, varargs, element),
    decreases args,
{
    if let List::Cons(_, t) = args {
        let rest = match formals {
            List::Nil => List::Nil,
            List::Cons(_, ft) => *ft,
        };
        lemma_arities(db, *t, rest, varargs, element);
    }
}

proof fn lemma_fixed<D: TyDatabase>(
    db: &D,
    phase: InvocationPhase,
    args: List<PolyArg>,
    formals: List<Ty>,
)
    requires
        concrete(args),
        all_wanted(formals),
    ensures
        match fixed_constraints(formals, arg_types(args, phase)) {
            Some(cs) => all_proper(cs) && all_met(db, phase, cs) == suits_each(
                db,
                phase,
                types_in(args),
                formals,
            ) && work(cs) == sizes(types_in(args)),
            None => !suits_each(db, phase, types_in(args), formals),
        },
    decreases args,
{
    if let (List::Cons(a, at), List::Cons(f, ft)) = (args, formals) {
        if let PolyArg::Concrete(t) = *a {
            let _ = lemma_suits(db, phase, t, *f);
            lemma_fixed(db, phase, *at, *ft);
        }
    }
}

proof fn lemma_elements<D: TyDatabase>(db: &D, args: List<PolyArg>, element: Ty)
    requires
        concrete(args),
        wanted(element),
    ensures
        ({
            let cs = element_constraints(arg_types(args, InvocationPhase::Loose), element);
            &&& all_proper(cs)
            &&& all_met(db, InvocationPhase::Loose, cs) == suits_all(db, types_in(args), element)
            &&& work(cs) == sizes(types_in(args))
        }),
    decreases args,
{
    if let List::Cons(a, at) = args {
        if let PolyArg::Concrete(t) = *a {
            let _ = lemma_suits(db, InvocationPhase::Loose, t, element);
            lemma_elements(db, *at, element);
        }
    }
}

proof fn lemma_variable<D: TyDatabase>(db: &D, args: List<PolyArg>, formals: List<Ty>)
    requires
        concrete(args),
        all_wanted(formals),
    ensures
        match varargs_constraints(formals, arg_types(args, InvocationPhase::Loose)) {
            Some(cs) => {
                &&& all_proper(cs)
                &&& work(cs) <= sizes(types_in(args))
                &&& takes_any_number(formals) ==> all_met(db, InvocationPhase::Loose, cs)
                    == suits_packed(db, types_in(args), formals)
            },
            None => !suits_packed(db, types_in(args), formals),
        },
    decreases formals,
{
    let phase = InvocationPhase::Loose;
    reveal_with_fuel(all_met, 2);
    reveal_with_fuel(all_proper, 2);
    reveal_with_fuel(work, 2);
    reveal_with_fuel(arg_types, 2);
    reveal_with_fuel(types_in, 2);
    reveal_with_fuel(suits_all, 2);
    if let List::Cons(f, ft) = formals {
        if *ft is Nil {
            if let List::Cons(a, at) = args {
                if let PolyArg::Concrete(t) = *a {
                    let _ = lemma_suits(db, phase, t, *f);
                }
            }
            if let Ty::Array(element) = *f {
                lemma_elements(db, args, *element);
            }
        } else if let List::Cons(a, at) = args {
            if let PolyArg::Concrete(t) = *a {
                let _ = lemma_suits(db, phase, t, *f);
                lemma_variable(db, *at, *ft);
            }
        }
    }
}

/// Whether the last of the types is an array.
pub open spec fn takes_any_number(formals: List<Ty>) -> bool
    decreases formals,
{
    match formals {
        List::Nil => false,
        List::Cons(f, ft) => if *ft is Nil {
            *f is Array
        } else {
            takes_any_number(*ft)
        },
    }
}

/// Whether the methods of variable arity have an array as their last parameter.
pub open spec fn well_declared(members: List<MethodData>) -> bool
    decreases members,
{
    match members {
        List::Nil => true,
        List::Cons(m, t) => (m.varargs ==> takes_any_number(m.params)) && well_declared(*t),
    }
}

proof fn lemma_registered(next: u64, m: MethodData)
    requires
        m.type_params is Nil,
    ensures
        ({
            let reg = registered_method(empty_table(), next, m);
            &&& reg.table.bounds == empty_table().bounds
            &&& reg.table.applied == empty_table().applied
            &&& reg.table.worklist == empty_table().worklist
            &&& reg.formals == m.params
            &&& reg.ret == m.ret
            &&& reg.throws == m.throws
        }),
{
    lemma_all_unchanged(m.params);
    lemma_all_unchanged(m.throws);
    law_empty_substitution(m.ret);
    lemma_throwing(empty_table(), m.throws);
    let r = Registered { table: empty_table(), next, subst: List::Nil };
    assert(registered(r, m.type_params) == r);
}

/// A method without type parameters is invoked as it is declared, exactly where
/// its arguments can be passed for its parameters in the phase.
pub proof fn law_invoked_as_declared<D: TyDatabase>(
    db: &D,
    next: u64,
    m: MethodData,
    args: List<PolyArg>,
    phase: InvocationPhase,
    varargs: bool,
    target: Option<Ty>,
)
    requires
        concrete(args),
        simple_method(m),
        no_repetition(m.throws),
        m.varargs ==> takes_any_number(m.params),
        varargs ==> phase is Loose,
        sizes(types_in(args)) <= db.limit(),
        db.limit() > 0,
    ensures
        invoked(db, next, m, args, phase, varargs, target) == if invocable(
            db,
            m,
            types_in(args),
            phase,
            varargs,
        ) {
            Some(m)
        } else {
            None
        },
{
    let reg = registered_method(empty_table(), next, m);
    lemma_registered(next, m);
    let element = if varargs {
        last_component(reg.formals)
    } else {
        None
    };
    lemma_arities(db, args, reg.formals, varargs, element);
    let types = arg_types(args, phase);
    if varargs {
        lemma_variable(db, args, m.params);
    } else {
        lemma_fixed(db, phase, args, m.params);
    }
    lemma_nothing_repeated(m.throws);
    lemma_all_unchanged(m.params);
    lemma_all_unchanged(m.throws);
    law_empty_substitution(m.ret);
    if let Some(cs) = invocation_constraints(m, reg.formals, reg.ret, types, varargs, target) {
        let t2 = reg.table.plus_work(cs);
        assert(List::<Constraint>::Nil.plus(cs) == cs);
        assert(t2.worklist == cs);
        law_proper_constraints_have_a_solution(db, t2, phase);
    }
}

proof fn lemma_applicable<D: TyDatabase>(
    db: &D,
    next: u64,
    members: List<MethodData>,
    args: List<PolyArg>,
    phase: InvocationPhase,
    varargs: bool,
    target: Option<Ty>,
)
    requires
        concrete(args),
        simple_members(members),
        well_declared(members),
        varargs ==> phase is Loose,
        sizes(types_in(args)) <= db.limit(),
        db.limit() > 0,
    ensures
        applicable(db, next, members, args, phase, varargs, target) == invocable_of(
            db,
            members,
            types_in(args),
            phase,
            varargs,
        ),
    decreases members,
{
    if let List::Cons(m, t) = members {
        law_invoked_as_declared(db, next, *m, args, phase, varargs, target);
        lemma_applicable(db, next, *t, args, phase, varargs, target);
    }
}

/// An invocation means the only member that can be invoked strictly; where there
/// is none, the only one that can be invoked loosely; where there is none
/// either, the only one that can be invoked by variable arity. Where no member
/// can be invoked it means none.
pub proof fn law_phases_of_a_selection<D: TyDatabase>(
    db: &D,
    next: u64,
    members: List<MethodData>,
    args: List<PolyArg>,
    target: Option<Ty>,
    m: MethodData,
)
    requires
        concrete(args),
        simple_members(members),
        well_declared(members),
        sizes(types_in(args)) <= db.limit(),
        db.limit() > 0,
    ensures
        ({
            let r = picked(db, next, members, args, target);
            let types = types_in(args);
            let (strict, loose) = (InvocationPhase::Strict, InvocationPhase::Loose);
            let by_strict = some_invocable(db, members, types, strict, false);
            let by_loose = some_invocable(db, members, types, loose, false);
            let by_arity = some_invocable(db, members, types, loose, true);
            &&& only_invocable(db, members, types, strict, false, m) ==> r == Some(m)
            &&& !by_strict && only_invocable(db, members, types, loose, false, m) ==> r == Some(m)
            &&& !by_strict && !by_loose && only_invocable(db, members, types, loose, true, m)
                ==> r == Some(m)
            &&& !by_strict && !by_loose && !by_arity ==> r is None
        }),
{
    lemma_in_phase(db, next, members, args, InvocationPhase::Strict, false, target, m);
    lemma_in_phase(db, next, members, args, InvocationPhase::Loose, false, target, m);
    lemma_in_phase(db, next, members, args, InvocationPhase::Loose, true, target, m);
}

proof fn lemma_in_phase<D: TyDatabase>(
    db: &D,
    next: u64,
    members: List<MethodData>,
    args: List<PolyArg>,
    phase: InvocationPhase,
    varargs: bool,
    target: Option<Ty>,
    m: MethodData,
)
    requires
        concrete(args),
        simple_members(members),
        well_declared(members),
        varargs ==> phase is Loose,
        sizes(types_in(args)) <= db.limit(),
        db.limit() > 0,
    ensures
        ({
            let l = applicable(db, next, members, args, phase, varargs, target);
            let types = types_in(args);
            &&& l is Nil <==> !some_invocable(db, members, types, phase, varargs)
            &&& only_invocable(db, members, types, phase, varargs, m) ==> !(l is Nil)
                && most_specific(db, next, l, varargs) == Some(m)
        }),
{
    let types = types_in(args);
    lemma_applicable(db, next, members, args, phase, varargs, target);
    lemma_some(db, members, types, phase, varargs);
    if only_invocable(db, members, types, phase, varargs, m) {
        lemma_only(db, next, members, types, phase, varargs, m);
    }
}

} // verus!
