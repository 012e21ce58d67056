use hir_ty::db::ClassInfo;
use hir_ty::facts::Facts;
use hir_ty::inference::instantiation::pick_instantiation;
use hir_ty::inference::lub::least_upper_bound;
use hir_ty::inference::{Constraint, Inference, InvocationPhase, VarSupply};
use hir_ty::list::{Data, List};
use hir_ty::member::{
    Access, ClassKey, InvocationContext, InvocationMode, MethodData, MethodTypeParam,
};
use hir_ty::names::Name;
use hir_ty::select::{
    choose_most_specific, instantiate, more_specific, pick_among, pick_method, PolyArg,
};
use hir_ty::ty::{lookup_var, PrimitiveType, Ty, TypeVarScope};

const ANIMAL: Name = Name::Other(1);
const CAT: Name = Name::Other(2);
const DOG: Name = Name::Other(3);
const LIST: Name = Name::Other(4);
const RUN: Name = Name::Other(5);

fn list<T>(v: Vec<T>) -> List<T> {
    List::from_vec(v)
}

fn class(n: Name) -> Ty {
    Ty::class(n)
}

fn int_ty() -> Ty {
    Ty::Primitive(PrimitiveType::Int)
}

/// Cats and dogs are animals, and everything is an object.
fn zoo() -> Facts {
    let mut facts = Facts::new(1000);
    let mut subtypes = vec![(class(CAT), class(ANIMAL)), (class(DOG), class(ANIMAL))];
    for n in [ANIMAL, CAT, DOG, Name::String, Name::BoxedInteger, Name::RuntimeException] {
        subtypes.push((class(n), class(Name::Object)));
    }
    subtypes.push((class(Name::RuntimeException), class(Name::Exception)));
    facts.subtypes = list(subtypes);
    facts.parents = list(vec![
        (class(CAT), list(vec![class(ANIMAL)])),
        (class(DOG), list(vec![class(ANIMAL)])),
        (class(ANIMAL), list(vec![class(Name::Object)])),
        (class(Name::String), list(vec![class(Name::Object)])),
    ]);
    facts.conversions = list(vec![(int_ty(), class(Name::BoxedInteger)), (int_ty(), class(Name::Object))]);
    facts
}

fn method(params: Vec<Ty>, ret: Ty) -> MethodData {
    MethodData {
        name: RUN,
        owner: ClassKey::Named(ANIMAL),
        owner_file: None,
        decl_item: None,
        params: list(params),
        param_names: None,
        ret,
        throws: List::Nil,
        varargs: false,
        is_static: false,
        is_abstract: false,
        is_final: false,
        access: Access::Public,
        declaring_package: None,
        declaring_top_level: None,
        declaring_interface: false,
        type_params: List::Nil,
        raw_erased: false,
        descriptor: None,
    }
}

fn scope() -> TypeVarScope {
    TypeVarScope::Method { file: 0, item: 0, name: Name::Other(50) }
}

fn type_var() -> Ty {
    Ty::TypeVar { scope: scope(), bounds: Box::new(List::Nil), lower: None }
}

/// `<T> T run(T)`
fn identity() -> MethodData {
    let mut m = method(vec![type_var()], type_var());
    m.type_params = list(vec![MethodTypeParam { scope: scope(), bounds: List::Nil }]);
    m
}

fn args(v: Vec<Ty>) -> List<PolyArg> {
    list(v.into_iter().map(PolyArg::Concrete).collect())
}

fn solve(facts: &Facts, constraints: Vec<Constraint>) -> Option<Ty> {
    let mut table = Inference::new();
    let mut supply = VarSupply { next: 0 };
    table.fresh_var(&mut supply);
    let map = table.solve(facts, InvocationPhase::Loose, list(constraints))?;
    lookup_var(&map, 0)
}

fn variable() -> Ty {
    Ty::InferenceVar(0)
}

#[test]
fn the_upper_bound_of_one_type_is_it() {
    let facts = zoo();
    assert_eq!(least_upper_bound(&facts, &list(vec![class(CAT), class(CAT)])), class(CAT));
    assert_eq!(least_upper_bound(&facts, &List::Nil), class(Name::Object));
}

#[test]
fn null_does_not_count_for_an_upper_bound() {
    let facts = zoo();
    assert_eq!(least_upper_bound(&facts, &list(vec![Ty::Null, class(CAT)])), class(CAT));
    assert_eq!(least_upper_bound(&facts, &list(vec![Ty::Null, Ty::Null])), Ty::Null);
}

#[test]
fn siblings_have_their_parent_as_bound() {
    let facts = zoo();
    assert_eq!(least_upper_bound(&facts, &list(vec![class(CAT), class(DOG)])), class(ANIMAL));
    assert_eq!(
        least_upper_bound(&facts, &list(vec![class(CAT), class(Name::String)])),
        class(Name::Object)
    );
}

#[test]
fn a_lower_bound_is_taken() {
    let facts = zoo();
    assert_eq!(
        solve(&facts, vec![Constraint::Sub(class(CAT), variable())]),
        Some(class(CAT))
    );
}

#[test]
fn lower_bounds_are_joined() {
    let facts = zoo();
    assert_eq!(
        solve(
            &facts,
            vec![
                Constraint::Sub(class(CAT), variable()),
                Constraint::Sub(class(DOG), variable()),
            ]
        ),
        Some(class(ANIMAL))
    );
}

#[test]
fn an_equality_bound_decides() {
    let facts = zoo();
    assert_eq!(
        solve(
            &facts,
            vec![
                Constraint::Eq(variable(), class(ANIMAL)),
                Constraint::Sub(class(CAT), variable()),
            ]
        ),
        Some(class(ANIMAL))
    );
}

#[test]
fn contradictory_bounds_have_no_solution() {
    let facts = zoo();
    assert_eq!(
        solve(
            &facts,
            vec![
                Constraint::Sub(variable(), class(Name::String)),
                Constraint::Sub(class(CAT), variable()),
            ]
        ),
        None
    );
    assert_eq!(
        solve(
            &facts,
            vec![
                Constraint::Eq(variable(), class(CAT)),
                Constraint::Eq(variable(), class(DOG)),
            ]
        ),
        None
    );
}

#[test]
fn every_variable_gets_a_type() {
    let facts = zoo();
    let mut table = Inference::new();
    let mut supply = VarSupply { next: 0 };
    for _ in 0..4 {
        table.fresh_var(&mut supply);
    }
    let constraints = vec![
        Constraint::Sub(Ty::InferenceVar(0), Ty::InferenceVar(1)),
        Constraint::Sub(Ty::InferenceVar(1), Ty::InferenceVar(2)),
        Constraint::Sub(class(CAT), Ty::InferenceVar(0)),
    ];
    let map = table.solve(&facts, InvocationPhase::Loose, list(constraints)).unwrap();
    for id in 0..4 {
        assert!(lookup_var(&map, id).is_some());
    }
    assert_eq!(lookup_var(&map, 0), Some(class(CAT)));
    assert_eq!(lookup_var(&map, 3), Some(class(Name::Object)));
}

#[test]
fn a_snapshot_can_be_restored() {
    let mut table = Inference::new();
    let mut supply = VarSupply { next: 0 };
    table.fresh_var(&mut supply);
    let snapshot = table.snapshot();
    table.add_upper(0, class(CAT));
    assert_ne!(table, snapshot);
    let again = snapshot.snapshot();
    table.restore(snapshot);
    assert_eq!(table, again);
}

#[test]
fn bounds_of_other_variables_stay() {
    let mut table = Inference::new();
    let mut supply = VarSupply { next: 0 };
    table.fresh_var(&mut supply);
    table.fresh_var(&mut supply);
    table.add_upper(0, class(CAT));
    table.add_upper(1, class(DOG));
    let first = table.effective_bounds(0, &List::Nil, false);
    assert_eq!(first.upper, list(vec![class(CAT)]));
    assert_eq!(first.lower, List::Nil);
    assert_eq!(table.effective_bounds(1, &List::Nil, false).upper, list(vec![class(DOG)]));
}

#[test]
fn an_instantiation_keeps_to_its_bounds() {
    let facts = zoo();
    let pick = |lower: Vec<Ty>, upper: Vec<Ty>, eq: Option<Ty>, throws: bool| {
        pick_instantiation(&facts, &list(lower), &list(upper), eq, throws)
    };
    assert_eq!(pick(vec![class(CAT)], vec![class(ANIMAL)], None, false), Some(class(CAT)));
    assert_eq!(pick(vec![class(CAT)], vec![class(DOG)], None, false), None);
    assert_eq!(pick(vec![], vec![class(ANIMAL)], None, false), Some(class(ANIMAL)));
    assert_eq!(pick(vec![], vec![], None, false), Some(class(Name::Object)));
    assert_eq!(pick(vec![class(DOG)], vec![], Some(class(CAT)), false), Some(class(CAT)));
    assert_eq!(pick(vec![], vec![class(DOG)], Some(class(CAT)), false), None);
}

#[test]
fn a_thrown_variable_is_an_unchecked_exception() {
    let facts = zoo();
    assert_eq!(
        pick_instantiation(&facts, &List::Nil, &list(vec![class(Name::Exception)]), None, true),
        Some(class(Name::RuntimeException))
    );
    assert_eq!(
        pick_instantiation(&facts, &List::Nil, &list(vec![class(Name::Exception)]), None, false),
        Some(class(Name::Exception))
    );
}

#[test]
fn a_primitive_is_boxed_for_a_reference_bound() {
    let facts = zoo();
    assert_eq!(
        pick_instantiation(&facts, &list(vec![int_ty()]), &list(vec![class(Name::Object)]), None, false),
        Some(class(Name::BoxedInteger))
    );
}

#[test]
fn a_generic_method_is_instantiated_from_its_arguments() {
    let facts = zoo();
    let m = instantiate(
        &facts,
        0,
        &identity(),
        &args(vec![class(CAT)]),
        InvocationPhase::Strict,
        false,
        &None,
    )
    .unwrap();
    assert_eq!(m.ret, class(CAT));
    assert_eq!(m.params, list(vec![class(CAT)]));
}

#[test]
fn a_wrong_number_of_arguments_is_not_applicable() {
    let facts = zoo();
    assert_eq!(
        instantiate(
            &facts,
            0,
            &identity(),
            &args(vec![]),
            InvocationPhase::Loose,
            false,
            &None,
        ),
        None
    );
}

#[test]
fn a_subtype_parameter_is_more_specific() {
    let facts = zoo();
    let cat = method(vec![class(CAT)], int_ty());
    let animal = method(vec![class(ANIMAL)], int_ty());
    assert!(more_specific(&facts, 0, &cat, &animal, false));
    assert!(!more_specific(&facts, 0, &animal, &cat, false));
}

#[test]
fn the_most_specific_method_is_picked() {
    let facts = zoo();
    let members = list(vec![
        method(vec![class(Name::Object)], class(Name::Object)),
        method(vec![class(ANIMAL)], class(ANIMAL)),
    ]);
    let picked = pick_among(&facts, 0, &members, &args(vec![class(CAT)]), &None);
    assert_eq!(picked, Some(method(vec![class(ANIMAL)], class(ANIMAL))));
    assert_eq!(pick_among(&facts, 0, &members, &args(vec![]), &None), None);
}

#[test]
fn equally_specific_methods_are_ambiguous() {
    let facts = zoo();
    let members = list(vec![
        method(vec![class(CAT), class(ANIMAL)], int_ty()),
        method(vec![class(ANIMAL), class(CAT)], int_ty()),
    ]);
    assert_eq!(
        pick_among(&facts, 0, &members, &args(vec![class(CAT), class(CAT)]), &None),
        None
    );
}

#[test]
fn strict_invocation_comes_first() {
    let facts = zoo();
    let members = list(vec![
        method(vec![class(Name::BoxedInteger)], class(DOG)),
        method(vec![int_ty()], class(CAT)),
    ]);
    let picked = pick_among(&facts, 0, &members, &args(vec![int_ty()]), &None).unwrap();
    assert_eq!(picked.ret, class(CAT));
}

#[test]
fn variable_arity_comes_last() {
    let facts = zoo();
    let mut many = method(vec![Ty::array(class(CAT))], class(DOG));
    many.varargs = true;
    let one = method(vec![class(ANIMAL)], class(CAT));
    let members = list(vec![many.copy(), one]);
    let picked = pick_among(&facts, 0, &members, &args(vec![class(CAT)]), &None).unwrap();
    assert_eq!(picked.ret, class(CAT));
    let three = args(vec![class(CAT), class(CAT), class(CAT)]);
    assert_eq!(pick_among(&facts, 0, &list(vec![many.copy()]), &three, &None).unwrap().ret, class(DOG));
    let other = args(vec![class(DOG)]);
    assert_eq!(pick_among(&facts, 0, &list(vec![many]), &other, &None), None);
}

#[test]
fn the_only_candidate_is_chosen() {
    let facts = zoo();
    let m = method(vec![class(CAT)], int_ty());
    let one = list(vec![(m.copy(), m.copy())]);
    assert_eq!(choose_most_specific(&facts, 0, &one, false), Some(m));
    assert_eq!(choose_most_specific(&facts, 0, &List::Nil, false), None);
}

#[test]
fn a_method_is_looked_up_in_its_receiver() {
    let mut facts = zoo();
    facts.methods = list(vec![(
        (class(ANIMAL), RUN),
        list(vec![method(vec![], class(CAT))]),
    )]);
    let ctx = InvocationContext {
        enclosing_class: None,
        package: None,
        subclass_of: None,
        mode: InvocationMode::Virtual,
    };
    let found = pick_method(&facts, 0, &class(ANIMAL), RUN, &args(vec![]), &ctx, &None);
    assert_eq!(found.unwrap().ret, class(CAT));
    assert_eq!(pick_method(&facts, 0, &class(CAT), RUN, &args(vec![]), &ctx, &None), None);
}

#[test]
fn parameterizations_are_compared_by_their_arguments() {
    let facts = zoo();
    let of = |t: Ty| Ty::reference(LIST, list(vec![t]));
    assert_eq!(
        solve(&facts, vec![Constraint::Eq(of(variable()), of(class(DOG)))]),
        Some(class(DOG))
    );
    assert_eq!(
        solve(
            &facts,
            vec![
                Constraint::Eq(of(variable()), of(class(DOG))),
                Constraint::Eq(of(variable()), of(class(CAT))),
            ]
        ),
        None
    );
}

#[test]
fn open_types_are_not_compared() {
    let open = || Ty::reference(LIST, list(vec![variable()]));
    let constraints = || vec![Constraint::Sub(class(CAT), open())];
    let mut facts = zoo();
    assert_eq!(solve(&facts, constraints()), None);
    facts.subtypes = List::cons((class(CAT), open()), facts.subtypes);
    assert_eq!(solve(&facts, constraints()), None);
    facts.parents = List::cons(
        (class(CAT), list(vec![Ty::reference(LIST, list(vec![class(DOG)]))])),
        facts.parents,
    );
    assert_eq!(solve(&facts, constraints()), Some(class(DOG)));
}

#[test]
fn consistent_bounds_are_settled() {
    let facts = zoo();
    let mut table = Inference::new();
    let mut supply = VarSupply { next: 0 };
    table.fresh_var(&mut supply);
    table.fresh_var(&mut supply);
    table.add_constraint(Constraint::Eq(variable(), class(CAT)));
    table.add_constraint(Constraint::Sub(variable(), Ty::InferenceVar(1)));
    assert!(table.check_consistent(&facts, InvocationPhase::Loose));
    assert_eq!(table.worklist, List::Nil);
    let map = table.resolve(&facts).unwrap();
    assert_eq!(lookup_var(&map, 0), Some(class(CAT)));
    assert_eq!(lookup_var(&map, 1), Some(class(CAT)));
}

#[test]
fn an_upper_bound_is_above_all() {
    let facts = zoo();
    let types = list(vec![class(CAT), class(DOG), class(ANIMAL)]);
    assert_eq!(least_upper_bound(&facts, &types), class(ANIMAL));
    let far = list(vec![class(CAT), class(Name::String)]);
    assert_eq!(least_upper_bound(&facts, &far), class(Name::Object));
}

#[test]
fn an_upper_bound_of_parameterizations_erases_to_their_class() {
    let mut facts = zoo();
    let of = |t: Ty| Ty::reference(LIST, list(vec![t]));
    facts.classes = list(vec![(LIST, ClassInfo::Library { arity: Some(1) })]);
    facts.parents = List::cons((of(class(CAT)), list(vec![class(Name::Object)])), facts.parents);
    facts.parents = List::cons((of(class(DOG)), list(vec![class(Name::Object)])), facts.parents);
    facts.subtypes = List::cons((class(LIST), class(Name::Object)), facts.subtypes);
    let bound = least_upper_bound(&facts, &list(vec![of(class(CAT)), of(class(DOG))]));
    assert_eq!(bound, of(Ty::upper_wildcard(class(ANIMAL))));
    assert_eq!(bound.erasure(), class(LIST));
}

#[test]
fn an_upper_bound_is_below_every_common_class() {
    let mut facts = zoo();
    let pet = Name::Other(20);
    facts.parents = List::cons((class(CAT), list(vec![class(ANIMAL), class(pet)])), facts.parents);
    facts.parents = List::cons((class(DOG), list(vec![class(ANIMAL), class(pet)])), facts.parents);
    facts.subtypes = List::cons((class(pet), class(Name::Object)), facts.subtypes);
    assert_eq!(
        least_upper_bound(&facts, &list(vec![class(CAT), class(DOG)])),
        Ty::intersection(list(vec![class(ANIMAL), class(pet)]))
    );
}
