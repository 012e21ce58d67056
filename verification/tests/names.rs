use hir_ty::class_key::{
    enclosing_class_keys, find_member, find_simple, find_unqualified, ClassTable, Resolved,
};
use hir_ty::facts::Facts;
use hir_ty::list::List;
use hir_ty::member::ClassKey;
use hir_ty::names::{Name, Names};
use hir_ty::text::{
    rfind_dot, rsplit_once_dot, simple_name, source_top_level, split_dots, starts_with,
    within_top_level,
};
use hir_ty::ty::{SourceClass, Ty};

fn list<T>(v: Vec<T>) -> List<T> {
    List::from_vec(v)
}

const LOCAL: SourceClass = SourceClass { file: 2, item: 5 };

#[test]
fn a_text_has_one_name() {
    let mut names = Names::new();
    let a = names.intern("p.A");
    let b = names.intern("p.B");
    assert_ne!(a, b);
    assert_eq!(names.intern("p.A"), a);
    assert_eq!(names.as_str(b), "p.B");
    assert_eq!(names.find("p.A"), Some(a));
    assert_eq!(names.find("p.C"), None);
}

#[test]
fn known_classes_have_fixed_names() {
    let mut names = Names::new();
    assert_eq!(names.intern("java.lang.String"), Name::String);
    assert_eq!(names.find("java.lang.Object"), Some(Name::Object));
    assert_eq!(names.as_str(Name::RuntimeException), "java.lang.RuntimeException");
    assert_eq!(names.as_str(Name::BoxedInteger), "java.lang.Integer");
    assert_eq!(names.as_str(Name::Init), "<init>");
}

#[test]
fn simple_names_follow_the_last_separator() {
    assert_eq!(simple_name("java.util.Map$Entry"), "Entry");
    assert_eq!(simple_name("java.util.Map"), "Map");
    assert_eq!(simple_name("Map"), "Map");
}

#[test]
fn texts_are_split_at_dots() {
    assert_eq!(rfind_dot("a.b.c"), Some(3));
    assert_eq!(rfind_dot("abc"), None);
    assert_eq!(rsplit_once_dot("a.b.c"), Some(("a.b", "c")));
    assert_eq!(rsplit_once_dot("abc"), None);
    assert_eq!(split_dots("a.b.c"), vec!["a", "b", "c"]);
    assert_eq!(split_dots(""), vec![""]);
    assert!(starts_with("abc", "ab"));
    assert!(!starts_with("abc", "abcd"));
}

#[test]
fn the_top_level_class_follows_the_package() {
    assert_eq!(source_top_level("p.q", "p.q.Outer.Inner"), "p.q.Outer");
    assert_eq!(source_top_level("", "Outer.Inner"), "Outer");
    assert_eq!(source_top_level("p", "p.Outer"), "p.Outer");
}

#[test]
fn nesting_is_transitive() {
    assert!(within_top_level("p.A", "p.A"));
    assert!(within_top_level("p.A.B", "p.A"));
    assert!(within_top_level("p.A.B.C", "p.A.B"));
    assert!(within_top_level("p.A.B.C", "p.A"));
    assert!(!within_top_level("p.AB", "p.A"));
}

#[test]
fn a_key_names_its_type() {
    let facts = Facts::new(10);
    let named = ClassKey::Named(Name::String);
    assert_eq!(named.as_ty(&facts, List::Nil), Ty::class(Name::String));
    assert_eq!(ClassKey::of_ty(&facts, &Ty::class(Name::String)), Some(named));
    assert_eq!(ClassKey::of_ty(&facts, &Ty::Null), None);
    assert_eq!(named.as_fqn(), Some(Name::String));
    assert_eq!(named.source(), None);
}

#[test]
fn a_class_without_a_canonical_name_goes_by_its_declaration() {
    let mut names = Names::new();
    let simple = names.intern("Local");
    let mut facts = Facts::new(10);
    facts.declared = list(vec![(LOCAL, simple)]);
    let key = ClassKey::of(&facts, 2, 5);
    assert_eq!(key, ClassKey::Local(LOCAL));
    assert_eq!(key.as_ty(&facts, List::Nil), Ty::local_reference(LOCAL, simple, List::Nil));
    assert_eq!(ClassKey::of_ty(&facts, &key.as_ty(&facts, List::Nil)), Some(key));
    assert_eq!(key.simple_name(&facts, &names), "Local");
    assert_eq!(key.as_fqn(), None);
    assert_eq!(key.source(), Some(LOCAL));
}

#[test]
fn a_class_with_a_canonical_name_goes_by_it() {
    let mut names = Names::new();
    let canonical = names.intern("p.Outer.Inner");
    let mut facts = Facts::new(10);
    facts.canonical = list(vec![(LOCAL, canonical)]);
    let key = ClassKey::of(&facts, 2, 5);
    assert_eq!(key, ClassKey::Named(canonical));
    assert_eq!(key.simple_name(&facts, &names), "Inner");
    assert_eq!(key.display_name(&facts, &names), "p.Outer.Inner");
    let package = names.intern("p");
    assert_eq!(key.top_level(&facts, &names, Some(package)), Some("p.Outer".to_string()));
    assert_eq!(ClassKey::of_resolved(&facts, &Resolved::Source(LOCAL)), key);
}

#[test]
fn the_classes_around_a_class_are_known() {
    let mut names = Names::new();
    let package = names.intern("p");
    let outer = names.intern("p.A");
    let middle = names.intern("p.A.B");
    let inner = names.intern("p.A.B.C");
    let facts = Facts::new(10);
    let keys = enclosing_class_keys(&facts, &mut names, Some(package), &ClassKey::Named(inner));
    let expected = [inner, middle, outer].map(ClassKey::Named).to_vec();
    assert_eq!(keys, List::from_vec(expected));
}

#[test]
fn the_classes_around_a_class_need_not_be_entered_before() {
    let mut names = Names::new();
    let package = names.intern("app");
    let inner = names.intern("app.B.Inner2");
    let facts = Facts::new(10);
    let keys = enclosing_class_keys(&facts, &mut names, Some(package), &ClassKey::Named(inner));
    let outer = names.intern("app.B");
    assert_eq!(names.texts.len(), 3);
    let expected = [inner, outer].map(ClassKey::Named).to_vec();
    assert_eq!(keys, List::from_vec(expected));
    assert_eq!(names.as_str(package), "app");
    assert_eq!(names.as_str(inner), "app.B.Inner2");
}

#[test]
fn without_a_package_every_part_of_a_name_is_a_class() {
    let mut names = Names::new();
    let inner = names.intern("A.B.C");
    let facts = Facts::new(10);
    let keys = enclosing_class_keys(&facts, &mut names, None, &ClassKey::Named(inner));
    let expected = [inner, names.intern("A.B"), names.intern("A")].map(ClassKey::Named).to_vec();
    assert_eq!(keys, List::from_vec(expected));
}

#[test]
fn the_classes_around_a_local_class_are_those_of_its_declaration() {
    let mut names = Names::new();
    let outer = names.intern("p.A");
    let mut facts = Facts::new(10);
    facts.enclosing = list(vec![(LOCAL, list(vec![outer]))]);
    facts.declared = list(vec![(LOCAL, outer)]);
    let keys = enclosing_class_keys(&facts, &mut names, None, &ClassKey::Local(LOCAL));
    assert_eq!(keys, list(vec![ClassKey::Local(LOCAL), ClassKey::Named(outer)]));
}

#[test]
fn a_class_is_entered_with_its_shorter_names() {
    let mut table = ClassTable::new();
    let class = table.enter("p.A$B");
    assert_eq!(table.enter("p.A$B"), class);
    let names = table.names();
    let simple = find_simple(names, class);
    let unqualified = find_unqualified(names, class);
    assert_eq!(names.as_str(class), "p.A$B");
    assert_eq!(names.as_str(simple), "B");
    assert_eq!(names.as_str(unqualified), "A$B");
    assert_eq!(find_simple(names, simple), simple);
    assert_eq!(names.as_str(find_simple(names, Name::Object)), "Object");
}

#[test]
fn member_classes_are_found_by_the_name_made_of_two() {
    let mut names = Names::new();
    let owner = names.intern("p.A");
    let simple = names.intern("B");
    assert_eq!(find_member(&names, owner, simple, true), None);
    let binary = names.intern("p.A$B");
    let dotted = names.intern("p.A.B");
    assert_eq!(find_member(&names, owner, simple, true), Some(binary));
    assert_eq!(find_member(&names, owner, simple, false), Some(dotted));
}
