use hir_ty::access::{
    access_context, access_keyword, interface_access_of, is_accessible, member_accessible,
    mode_allows, AccessTarget,
};
use hir_ty::class_key::Resolved;
use hir_ty::db::ClassRecord;
use hir_ty::facts::Facts;
use hir_ty::items::{
    ClassItem, EnumItem, FieldItem, ItemData, ItemTree, LanguageKind, MethodForm, MethodItem,
    Modifiers, Param, RecordItem, TypeParam, TypeRef, TypeShape,
};
use hir_ty::list::List;
use hir_ty::member::{Access, ClassKey, InvocationContext, InvocationMode, MethodData};
use hir_ty::names::{Name, Names};
use hir_ty::plugin::{Java, JvmClassKind};
use hir_ty::source_members::{
    source_abstract_methods, source_class_fields, source_class_methods,
};
use hir_ty::ty::{PrimitiveType, SourceClass, Ty, TypeVarScope};

const CLASS: SourceClass = SourceClass { file: 0, item: 0 };

fn list<T>(v: Vec<T>) -> List<T> {
    List::from_vec(v)
}

fn int_ty() -> Ty {
    Ty::Primitive(PrimitiveType::Int)
}

fn int_ref() -> TypeRef {
    TypeRef { shape: TypeShape::Primitive(PrimitiveType::Int), refs: List::Nil }
}

fn modifiers(visibility: Access) -> Modifiers {
    Modifiers { visibility, is_static: false, is_abstract: false, is_final: false }
}

struct World {
    names: Names,
    facts: Facts,
    simple: Name,
    package: Name,
}

/// A world in which the first item of the first file is the class `p.A`.
fn world() -> World {
    let mut names = Names::new();
    let package = names.intern("p");
    let canonical = names.intern("p.A");
    let simple = names.intern("A");
    let mut facts = Facts::new(1000);
    facts.canonical = list(vec![(CLASS, canonical)]);
    facts.types = list(vec![((0, 1), int_ty()), ((0, 2), int_ty())]);
    World { names, facts, simple, package }
}

fn tree(w: &World, items: Vec<ItemData>) -> ItemTree {
    ItemTree {
        language: LanguageKind::Java,
        items,
        top: list(vec![0]),
        imports: List::Nil,
        package: Some(w.package),
        package_decls: List::Nil,
    }
}

fn class_item(w: &World, visibility: Access, body: Vec<u32>) -> ClassItem {
    ClassItem {
        name: w.simple,
        modifiers: modifiers(visibility),
        annotations: List::Nil,
        type_params: List::Nil,
        super_class: None,
        interfaces: List::Nil,
        body: list(body),
    }
}

fn method_item(name: Name, form: MethodForm, has_body: bool) -> ItemData {
    ItemData::Method(MethodItem {
        name,
        modifiers: modifiers(Access::Package),
        annotations: List::Nil,
        type_params: List::Nil,
        params: List::Nil,
        ret: Some(int_ref()),
        throws: List::Nil,
        has_body,
        form,
        body: List::Nil,
    })
}

fn methods(w: &mut World, t: &ItemTree, name: Name) -> Vec<MethodData> {
    vector(source_class_methods(&w.facts, &mut w.names, t, CLASS, &List::Nil, name))
}

fn vector<T>(l: List<T>) -> Vec<T> {
    let mut out = vec![];
    let mut rest = l;
    while let List::Cons(h, t) = rest {
        out.push(*h);
        rest = *t;
    }
    out
}

#[test]
fn a_class_without_constructors_has_the_default_one() {
    let mut w = world();
    let t = tree(&w, vec![ItemData::Class(class_item(&w, Access::Protected, vec![]))]);
    let simple = w.simple;
    let found = methods(&mut w, &t, simple);
    assert_eq!(found.len(), 1);
    assert_eq!(found[0].name, simple);
    assert_eq!(found[0].params, List::Nil);
    assert_eq!(found[0].access, Access::Protected);
    assert_eq!(found[0].owner_file, Some(0));
    assert_eq!(found[0].decl_item, None);
}

#[test]
fn a_declared_constructor_takes_the_place_of_the_default_one() {
    let mut w = world();
    let simple = w.simple;
    let t = tree(
        &w,
        vec![
            ItemData::Class(class_item(&w, Access::Public, vec![1])),
            method_item(simple, MethodForm::Constructor, true),
        ],
    );
    let found = methods(&mut w, &t, simple);
    assert_eq!(found.len(), 1);
    assert_eq!(found[0].decl_item, Some(1));
    assert_eq!(found[0].access, Access::Package);
}

#[test]
fn a_declared_method_is_a_member() {
    let mut w = world();
    let run = w.names.intern("run");
    let t = tree(
        &w,
        vec![
            ItemData::Class(class_item(&w, Access::Public, vec![1])),
            method_item(run, MethodForm::Method, true),
        ],
    );
    let found = methods(&mut w, &t, run);
    assert_eq!(found.len(), 1);
    assert_eq!(found[0].ret, int_ty());
    assert_eq!(found[0].declaring_package, Some(w.package));
    let other = w.names.intern("other");
    assert!(methods(&mut w, &t, other).is_empty());
}

#[test]
fn an_enum_has_values() {
    let mut w = world();
    let t = tree(
        &w,
        vec![ItemData::Enum(EnumItem {
            name: w.simple,
            modifiers: modifiers(Access::Public),
            annotations: List::Nil,
            interfaces: List::Nil,
            body: List::Nil,
        })],
    );
    let values = methods(&mut w, &t, Name::Values);
    assert_eq!(values.len(), 1);
    assert!(values[0].is_static);
    let me = ClassKey::of(&w.facts, 0, 0).as_ty(&w.facts, List::Nil);
    assert_eq!(values[0].ret, Ty::array(me));
    let value_of = methods(&mut w, &t, Name::ValueOf);
    assert_eq!(value_of[0].params, list(vec![Ty::class(Name::String)]));
}

fn record(w: &World, component: Name, body: Vec<u32>) -> ItemData {
    ItemData::Record(RecordItem {
        name: w.simple,
        modifiers: modifiers(Access::Public),
        annotations: List::Nil,
        type_params: List::Nil,
        components: list(vec![Param {
            name: component,
            ty: int_ref(),
            varargs: false,
            annotations: List::Nil,
        }]),
        interfaces: List::Nil,
        body: list(body),
    })
}

#[test]
fn a_record_has_accessors_and_a_constructor() {
    let mut w = world();
    let age = w.names.intern("age");
    let t = tree(&w, vec![record(&w, age, vec![])]);
    let accessor = methods(&mut w, &t, age);
    assert_eq!(accessor.len(), 1);
    assert_eq!(accessor[0].ret, int_ty());
    assert_eq!(accessor[0].params, List::Nil);
    let simple = w.simple;
    let ctor = methods(&mut w, &t, simple);
    assert_eq!(ctor.len(), 1);
    assert_eq!(ctor[0].params, list(vec![int_ty()]));
    assert_eq!(methods(&mut w, &t, Name::Equals).len(), 1);
    assert_eq!(methods(&mut w, &t, Name::HashCode)[0].ret, int_ty());
    assert_eq!(methods(&mut w, &t, Name::ToStringName)[0].ret, Ty::class(Name::String));
}

#[test]
fn a_declared_accessor_stays() {
    let mut w = world();
    let age = w.names.intern("age");
    let t = tree(
        &w,
        vec![record(&w, age, vec![1]), method_item(age, MethodForm::Method, true)],
    );
    let accessor = methods(&mut w, &t, age);
    assert_eq!(accessor.len(), 1);
    assert_eq!(accessor[0].decl_item, Some(1));
}

#[test]
fn an_interface_method_without_a_body_is_abstract() {
    let mut w = world();
    let run = w.names.intern("run");
    let walk = w.names.intern("walk");
    let t = tree(
        &w,
        vec![
            ItemData::Interface(class_item(&w, Access::Public, vec![1, 2])),
            method_item(run, MethodForm::Method, false),
            method_item(walk, MethodForm::Method, true),
        ],
    );
    let found =
        vector(source_abstract_methods(&w.facts, &mut w.names, &t, CLASS, &List::Nil));
    assert_eq!(found.len(), 1);
    assert_eq!(found[0].name, run);
    assert!(found[0].is_abstract);
    assert_eq!(found[0].access, Access::Public);
    assert!(found[0].declaring_interface);
    let simple = w.simple;
    assert!(methods(&mut w, &t, simple).is_empty());
}

#[test]
fn fields_are_listed_by_name() {
    let mut w = world();
    let age = w.names.intern("age");
    let t = tree(
        &w,
        vec![
            ItemData::Class(class_item(&w, Access::Public, vec![1])),
            ItemData::Field(FieldItem {
                name: age,
                modifiers: modifiers(Access::Private),
                annotations: List::Nil,
                ty: int_ref(),
                has_initializer: false,
                body: List::Nil,
            }),
        ],
    );
    let found = vector(source_class_fields(&w.facts, &mut w.names, &t, CLASS, &List::Nil, age));
    assert_eq!(found.len(), 1);
    assert_eq!(found[0].ty, int_ty());
    assert_eq!(found[0].access, Access::Private);
    let none =
        source_class_fields(&w.facts, &mut w.names, &t, CLASS, &List::Nil, Name::Length);
    assert_eq!(none, List::Nil);
}

#[test]
fn the_language_lists_members_of_source_classes() {
    let mut w = world();
    let t = tree(&w, vec![ItemData::Class(class_item(&w, Access::Public, vec![]))]);
    w.facts.trees = list(vec![(0, t)]);
    let simple = w.simple;
    let resolved = Resolved::Source(CLASS);
    let found = Java.methods(&w.facts, &mut w.names, &resolved, &List::Nil, simple);
    assert_eq!(vector(found).len(), 1);
    assert_eq!(Java.kind(&w.facts, &resolved), Some((JvmClassKind::Class, false)));
    assert_eq!(Java.kind(&w.facts, &Resolved::Source(SourceClass { file: 0, item: 7 })), None);
}

#[test]
fn compiled_classes_are_told_by_their_flags() {
    let mut w = world();
    let name = |n: u32| Name::Other(n);
    let compiled = |flags: u16, is_record: bool| ClassRecord { flags, is_record };
    w.facts.records = list(vec![
        (name(60), compiled(0x0001, false)),
        (name(61), compiled(0x0011, false)),
        (name(62), compiled(0x0600, false)),
        (name(63), compiled(0x2600, false)),
        (name(64), compiled(0x4010, false)),
        (name(65), compiled(0x0001, true)),
    ]);
    let kind = |n: u32| Java.kind(&w.facts, &Resolved::Library { fqn: name(n) });
    assert_eq!(kind(60), Some((JvmClassKind::Class, false)));
    assert_eq!(kind(61), Some((JvmClassKind::Class, true)));
    assert_eq!(kind(62), Some((JvmClassKind::Interface, false)));
    assert_eq!(kind(63), Some((JvmClassKind::Annotation, false)));
    assert_eq!(kind(64), Some((JvmClassKind::Enum, true)));
    assert_eq!(kind(65), Some((JvmClassKind::Class, true)));
    assert_eq!(kind(66), None);
    assert_eq!(
        Java.kind(&w.facts, &Resolved::Facade { fqn: name(60) }),
        Some((JvmClassKind::Facade, true))
    );
}

#[test]
fn members_of_interfaces_are_public() {
    assert_eq!(interface_access_of(true, &modifiers(Access::Package)), Access::Public);
    assert_eq!(interface_access_of(true, &modifiers(Access::Private)), Access::Private);
    assert_eq!(interface_access_of(false, &modifiers(Access::Package)), Access::Package);
    assert_eq!(access_keyword(Access::Private), "private");
    assert_eq!(access_keyword(Access::Protected), "protected");
}

fn method(is_static: bool, in_interface: bool) -> MethodData {
    MethodData {
        name: Name::Next,
        owner: ClassKey::Named(Name::Object),
        owner_file: None,
        decl_item: None,
        params: List::Nil,
        param_names: None,
        ret: int_ty(),
        throws: List::Nil,
        varargs: false,
        is_static,
        is_abstract: false,
        is_final: false,
        access: Access::Public,
        declaring_package: None,
        declaring_top_level: None,
        declaring_interface: in_interface,
        type_params: List::Nil,
        raw_erased: false,
        descriptor: None,
    }
}

fn ctx(mode: InvocationMode) -> InvocationContext {
    InvocationContext { enclosing_class: None, package: None, subclass_of: None, mode }
}

#[test]
fn the_form_of_an_invocation_rules_out_members() {
    assert!(mode_allows(&method(true, false), &ctx(InvocationMode::Static)));
    assert!(!mode_allows(&method(false, false), &ctx(InvocationMode::Static)));
    assert!(!mode_allows(&method(true, false), &ctx(InvocationMode::Super)));
    assert!(mode_allows(&method(true, false), &ctx(InvocationMode::Virtual)));
    assert!(!mode_allows(&method(true, true), &ctx(InvocationMode::Virtual)));
    assert!(mode_allows(&method(false, true), &ctx(InvocationMode::Virtual)));
    assert!(mode_allows(&method(true, true), &ctx(InvocationMode::MethodName)));
}

#[test]
fn access_widens_from_private_to_public() {
    let mut w = world();
    let outer = w.names.intern("p.A");
    let inner = w.names.intern("p.A.B");
    let stranger = w.names.intern("p.C");
    let other_package = w.names.intern("q");
    let other = w.names.intern("q.D");
    let package = w.package;
    let target = |access: Access| AccessTarget {
        access,
        declaring_package: Some(package),
        owner: ClassKey::Named(outer),
        declaring_top_level: Some(outer),
        is_static: false,
    };
    let from = |class: Name, package: Name| InvocationContext {
        enclosing_class: Some(ClassKey::Named(class)),
        package: Some(package),
        subclass_of: None,
        mode: InvocationMode::Virtual,
    };
    let receiver = Ty::class(outer);
    let World { mut names, facts, .. } = w;
    let mut seen = |access: Access, ctx: &InvocationContext| {
        member_accessible(&facts, &mut names, &target(access), &receiver, ctx)
    };
    let inside = from(inner, package);
    for access in [Access::Private, Access::Package, Access::Protected, Access::Public] {
        assert!(seen(access, &inside));
    }
    let beside = from(stranger, package);
    assert!(!seen(Access::Private, &beside));
    assert!(seen(Access::Package, &beside));
    assert!(seen(Access::Protected, &beside));
    let outside = from(other, other_package);
    assert!(!seen(Access::Package, &outside));
    assert!(!seen(Access::Protected, &outside));
    assert!(seen(Access::Public, &outside));
    assert!(is_accessible(&facts, &mut names, &method(false, false), &receiver, &outside));
}

#[test]
fn a_protected_member_is_seen_inside_a_subclass_around_the_access() {
    let mut names = Names::new();
    let declaring = names.intern("p");
    let owner = names.intern("p.A");
    let package = names.intern("q");
    let inner = names.intern("q.Sub.Inner");
    // The next name of the table, which is that of the class around `Inner`.
    let sub = Name::Other(4);
    let mut facts = Facts::new(10);
    facts.subtypes = list(vec![(Ty::class(sub), Ty::class(owner))]);
    let target = AccessTarget {
        access: Access::Protected,
        declaring_package: Some(declaring),
        owner: ClassKey::Named(owner),
        declaring_top_level: Some(owner),
        is_static: false,
    };
    let ctx = InvocationContext {
        enclosing_class: Some(ClassKey::Named(inner)),
        package: Some(package),
        subclass_of: None,
        mode: InvocationMode::Virtual,
    };
    assert!(member_accessible(&facts, &mut names, &target, &Ty::class(sub), &ctx));
    assert_eq!(names.as_str(sub), "q.Sub");
    names.intern("q.Other");
    assert!(member_accessible(&facts, &mut names, &target, &Ty::class(sub), &ctx));
    assert!(!member_accessible(&facts, &mut names, &target, &Ty::class(owner), &ctx));
    let of_super = InvocationContext { mode: InvocationMode::Super, ..ctx };
    assert!(member_accessible(&facts, &mut names, &target, &Ty::class(owner), &of_super));
}

#[test]
fn the_names_of_a_class_are_entered_with_its_members() {
    let mut names = Names::new();
    let package = names.intern("p");
    let canonical = names.intern("p.A.B");
    let mut w = world();
    let item = class_item(&w, Access::Public, vec![]);
    w.facts.canonical = list(vec![(CLASS, canonical)]);
    let t = ItemTree {
        language: LanguageKind::Java,
        items: vec![ItemData::Class(item)],
        top: list(vec![0]),
        imports: List::Nil,
        package: Some(package),
        package_decls: List::Nil,
    };
    let found = vector(source_class_methods(
        &w.facts,
        &mut names,
        &t,
        CLASS,
        &List::Nil,
        Name::Empty,
    ));
    assert_eq!(found.len(), 1);
    assert_eq!(names.as_str(found[0].name), "B");
    let top = found[0].declaring_top_level;
    assert_eq!(top.map(|n| names.as_str(n).to_string()), Some("p.A".to_string()));
}

#[test]
fn the_place_of_an_access_is_its_class() {
    let w = world();
    let t = tree(
        &w,
        vec![
            ItemData::Class(class_item(&w, Access::Public, vec![1])),
            method_item(w.simple, MethodForm::Method, true),
        ],
    );
    let place = access_context(&w.facts, &t, 0, 1);
    assert_eq!(place.enclosing_class, Some(ClassKey::of(&w.facts, 0, 0)));
    assert_eq!(place.package, Some(w.package));
    assert_eq!(place.mode, InvocationMode::Virtual);
}

#[test]
fn a_compact_constructor_is_the_only_one_of_a_raw_record() {
    let mut w = world();
    let value = w.names.intern("value");
    let param = w.names.intern("T");
    let simple = w.simple;
    let t_ref = || TypeRef {
        shape: TypeShape::Named { name: param, args: Box::new(List::Nil) },
        refs: List::Nil,
    };
    let var = Ty::TypeVar {
        scope: TypeVarScope::Class { file: 0, item: 0, name: param },
        bounds: Box::new(List::Nil),
        lower: None,
    };
    w.facts.type_names = list(vec![(param, var)]);
    let item = ItemData::Record(RecordItem {
        name: simple,
        modifiers: modifiers(Access::Public),
        annotations: List::Nil,
        type_params: list(vec![TypeParam {
            name: param,
            bounds: List::Nil,
            annotations: List::Nil,
        }]),
        components: list(vec![Param {
            name: value,
            ty: t_ref(),
            varargs: false,
            annotations: List::Nil,
        }]),
        interfaces: List::Nil,
        body: list(vec![1]),
    });
    let t = tree(&w, vec![item, method_item(simple, MethodForm::CompactConstructor, true)]);
    let found = methods(&mut w, &t, simple);
    assert_eq!(found.len(), 1);
    assert_eq!(found[0].decl_item, Some(1));
    assert_eq!(found[0].params, list(vec![Ty::class(Name::Object)]));
}
