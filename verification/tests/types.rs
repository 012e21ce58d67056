use hir_ty::list::{Data, List};
use hir_ty::names::Name;
use hir_ty::ty::{
    boxed_type, insert_var, lookup_var, unboxed_primitive, PrimitiveType, Ty, TypeVarScope,
    WildcardBound,
};

fn list<T>(v: Vec<T>) -> List<T> {
    List::from_vec(v)
}

fn scope(n: u32) -> TypeVarScope {
    TypeVarScope::Class { file: 0, item: n, name: Name::Other(n) }
}

fn var(n: u32, bounds: Vec<Ty>) -> Ty {
    Ty::TypeVar { scope: scope(n), bounds: Box::new(list(bounds)), lower: None }
}

fn list_of(t: Ty) -> Ty {
    Ty::reference(Name::Other(90), list(vec![t]))
}

const PRIMITIVES: [PrimitiveType; 8] = [
    PrimitiveType::Boolean,
    PrimitiveType::Byte,
    PrimitiveType::Short,
    PrimitiveType::Char,
    PrimitiveType::Int,
    PrimitiveType::Long,
    PrimitiveType::Float,
    PrimitiveType::Double,
];

#[test]
fn unboxing_undoes_boxing() {
    for p in PRIMITIVES {
        assert_eq!(unboxed_primitive(boxed_type(p)), Some(p));
    }
    assert_eq!(boxed_type(PrimitiveType::Int), Name::BoxedInteger);
    assert_eq!(boxed_type(PrimitiveType::Char), Name::BoxedCharacter);
    assert_eq!(unboxed_primitive(Name::String), None);
    assert_eq!(unboxed_primitive(Name::BoxedVoid), None);
}

#[test]
fn boxing_leaves_references_alone() {
    assert_eq!(
        Ty::Primitive(PrimitiveType::Long).box_primitive(),
        Ty::class(Name::BoxedLong)
    );
    assert_eq!(Ty::class(Name::String).box_primitive(), Ty::class(Name::String));
}

#[test]
fn erasure_drops_arguments_and_variables() {
    assert_eq!(list_of(Ty::class(Name::String)).erasure(), Ty::class(Name::Other(90)));
    assert_eq!(var(1, vec![]).erasure(), Ty::class(Name::Object));
    assert_eq!(
        var(1, vec![list_of(var(2, vec![])), Ty::class(Name::Serializable)]).erasure(),
        Ty::class(Name::Other(90))
    );
    assert_eq!(
        Ty::array(var(1, vec![Ty::class(Name::Throwable)])).erasure(),
        Ty::array(Ty::class(Name::Throwable))
    );
    assert_eq!(
        Ty::upper_wildcard(Ty::class(Name::Exception)).erasure(),
        Ty::class(Name::Exception)
    );
}

#[test]
fn erasing_twice_is_erasing_once() {
    let types = vec![
        list_of(var(3, vec![list_of(Ty::Null)])),
        var(3, vec![list_of(var(4, vec![])), Ty::class(Name::Object)]),
        Ty::array(list_of(Ty::class(Name::String))),
        Ty::upper_wildcard(list_of(Ty::class(Name::String))),
        Ty::Primitive(PrimitiveType::Int),
    ];
    for t in &types {
        assert_eq!(t.erasure().erasure(), t.erasure());
        assert!(!t.erasure().contains_type_var());
    }
}

#[test]
fn a_substitution_replaces_its_variables() {
    let map = list(vec![(scope(1), Ty::class(Name::String))]);
    assert_eq!(list_of(var(1, vec![])).substitute(&map), list_of(Ty::class(Name::String)));
    assert_eq!(var(2, vec![]).substitute(&map), var(2, vec![]));
    assert_eq!(
        Ty::array(Ty::lower_wildcard(var(1, vec![]))).substitute(&map),
        Ty::array(Ty::lower_wildcard(Ty::class(Name::String)))
    );
}

#[test]
fn bounds_are_substituted_on_request() {
    let map = list(vec![(scope(1), Ty::class(Name::String))]);
    let bounded = var(2, vec![list_of(var(1, vec![]))]);
    assert_eq!(bounded.substitute(&map), bounded);
    assert_eq!(
        bounded.substitute_incl_bounds(&map),
        var(2, vec![list_of(Ty::class(Name::String))])
    );
}

#[test]
fn substitution_needs_variables() {
    let map = list(vec![(scope(1), Ty::class(Name::String))]);
    let t = list_of(Ty::array(Ty::Primitive(PrimitiveType::Int)));
    assert!(!t.contains_type_var());
    assert_eq!(t.substitute(&map), t);
    let mentioning = list_of(var(1, vec![]));
    assert_eq!(mentioning.substitute(&List::Nil), mentioning);
}

#[test]
fn inference_variables_are_replaced() {
    let t = list_of(Ty::InferenceVar(7));
    assert!(t.contains_infer_var());
    assert!(t.contains_infer_var_id(7));
    assert!(!t.contains_infer_var_id(8));
    let map = insert_var(List::Nil, 7, Ty::class(Name::String));
    assert_eq!(t.substitute_infer(&map), list_of(Ty::class(Name::String)));
    assert_eq!(t.erase_infer_vars(), list_of(Ty::class(Name::Object)));
    assert!(!t.erase_infer_vars().contains_infer_var());
}

#[test]
fn a_map_holds_the_latest_type() {
    let map = insert_var(insert_var(List::Nil, 1, Ty::Null), 1, Ty::Error);
    assert_eq!(lookup_var(&map, 1), Some(Ty::Error));
    assert_eq!(lookup_var(&map, 2), None);
}

#[test]
fn shapes_ignore_bounds_of_variables() {
    assert!(var(1, vec![]).same_shape(&var(1, vec![Ty::class(Name::String)])));
    assert!(!var(1, vec![]).same_shape(&var(2, vec![])));
    assert!(!list_of(var(1, vec![])).same_shape(&list_of(Ty::Null)));
}

#[test]
fn an_intersection_of_one_is_that_one() {
    assert_eq!(Ty::intersection(list(vec![Ty::class(Name::String)])), Ty::class(Name::String));
    let two = Ty::intersection(list(vec![Ty::class(Name::String), Ty::class(Name::Cloneable)]));
    assert_eq!(
        two,
        Ty::Intersection(Box::new(list(vec![
            Ty::class(Name::String),
            Ty::class(Name::Cloneable)
        ])))
    );
    assert_eq!(two.erasure(), Ty::class(Name::String));
}

#[test]
fn types_are_told_apart() {
    assert!(Ty::Error.is_error());
    assert!(Ty::Null.is_null());
    assert!(Ty::Primitive(PrimitiveType::Void).is_void_like());
    assert!(!Ty::Primitive(PrimitiveType::Int).is_void_like());
    assert!(Ty::array(Ty::Null).is_array());
    assert_eq!(Ty::array(Ty::Null).element(), Some(Ty::Null));
    assert!(Ty::Wildcard(WildcardBound::Unbounded).is_wildcard());
    assert_eq!(Ty::InferenceVar(4).as_infer_var(), Some(4));
    assert_eq!(Ty::Null.as_infer_var(), None);
    assert_eq!(Ty::class(Name::String).copy(), Ty::class(Name::String));
}
