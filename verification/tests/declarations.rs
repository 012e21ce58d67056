use hir_ty::db::ClassInfo;
use hir_ty::facts::Facts;
use hir_ty::items::{
    ClassItem, FieldItem, ImportItem, ItemData, ItemTree, LanguageKind, Modifiers, RefName,
    TextRange, TypeRef, TypeShape,
};
use hir_ty::list::List;
use hir_ty::member::Access;
use hir_ty::name_check::{
    can_resolve, check_spanned, declaration_type_diagnostics, deprecation_hits,
    duplicate_package_diagnostics, import_diagnostics, item_type_refs, package_path_diagnostics,
    DeclDiagnostic, DeprecatedReference, TypeRefDiag,
};
use hir_ty::names::{Name, Names};
use hir_ty::raw_type::is_raw_reference;
use hir_ty::release_api::{class_of_reference, member_of_owner, release_of, ReleaseApi};
use hir_ty::ty::{PrimitiveType, Ty};
use hir_ty::workspace::{Deprecation, NameResolution, Releases, ResolutionScope};

const KNOWN: Name = Name::Other(1);
const UNKNOWN: Name = Name::Other(2);
const SIMPLE: Name = Name::Other(3);
const FIELD: Name = Name::Other(4);
const OWNER: Name = Name::Other(5);

fn list<T>(v: Vec<T>) -> List<T> {
    List::from_vec(v)
}

fn place(start: u32) -> Option<TextRange> {
    Some(TextRange { start, end: start + 5 })
}

/// A loaded workspace with the class `KNOWN`.
fn workspace() -> Facts {
    let mut facts = Facts::new(1000);
    facts.builtins = list(vec![0]);
    facts.classes = list(vec![(KNOWN, ClassInfo::Library { arity: Some(0) })]);
    facts
}

fn written(n: Name, start: u32) -> TypeRef {
    TypeRef {
        shape: TypeShape::Named { name: n, args: Box::new(List::Nil) },
        refs: list(vec![RefName { name: n, range: place(start) }]),
    }
}

fn modifiers() -> Modifiers {
    Modifiers {
        visibility: Access::Public,
        is_static: false,
        is_abstract: false,
        is_final: false,
    }
}

fn tree(items: Vec<ItemData>, imports: Vec<ImportItem>) -> ItemTree {
    let top = if items.is_empty() { List::Nil } else { list(vec![0]) };
    ItemTree {
        language: LanguageKind::Java,
        items,
        top,
        imports: list(imports),
        package: None,
        package_decls: List::Nil,
    }
}

fn class_with_field(ty: TypeRef) -> Vec<ItemData> {
    vec![
        ItemData::Class(ClassItem {
            name: OWNER,
            modifiers: modifiers(),
            annotations: List::Nil,
            type_params: List::Nil,
            super_class: None,
            interfaces: List::Nil,
            body: list(vec![1]),
        }),
        ItemData::Field(FieldItem {
            name: FIELD,
            modifiers: modifiers(),
            annotations: List::Nil,
            ty,
            has_initializer: false,
            body: List::Nil,
        }),
    ]
}

fn import(name: Name, simple: Name, start: u32) -> ImportItem {
    ImportItem {
        name,
        owner: None,
        member: simple,
        simple,
        is_static: false,
        is_asterisk: false,
        range: place(start),
    }
}

#[test]
fn nothing_is_asked_before_loading() {
    let mut facts = workspace();
    assert!(can_resolve(&facts));
    facts.loaded = false;
    assert!(!can_resolve(&facts));
    assert_eq!(check_spanned(&facts, 0, 0, &written(UNKNOWN, 3)), List::Nil);
    let t = tree(class_with_field(written(UNKNOWN, 3)), vec![]);
    assert_eq!(declaration_type_diagnostics(&facts, 0, &t), List::Nil);
}

#[test]
fn an_empty_classpath_answers_nothing() {
    let mut facts = workspace();
    facts.scope = ResolutionScope::Classpath(List::Nil);
    assert!(!can_resolve(&facts));
    facts.scope = ResolutionScope::Classpath(list(vec![4]));
    assert!(can_resolve(&facts));
    facts.scope = ResolutionScope::JdkBuiltins;
    facts.builtins = List::Nil;
    assert!(!can_resolve(&facts));
    facts.scope = ResolutionScope::SourceSet(1);
    assert!(can_resolve(&facts));
}

#[test]
fn a_reference_is_resolved() {
    let mut facts = workspace();
    assert_eq!(check_spanned(&facts, 0, 0, &written(KNOWN, 3)), List::Nil);
    assert_eq!(
        check_spanned(&facts, 0, 0, &written(UNKNOWN, 3)),
        list(vec![TypeRefDiag::CannotResolve { name: UNKNOWN, range: place(3) }])
    );
    facts.meanings = list(vec![(UNKNOWN, NameResolution::Ambiguous)]);
    assert_eq!(
        check_spanned(&facts, 0, 0, &written(UNKNOWN, 3)),
        list(vec![TypeRefDiag::Ambiguous { name: UNKNOWN, range: place(3) }])
    );
    facts.meanings = list(vec![(UNKNOWN, NameResolution::NotAccessible)]);
    assert_eq!(
        check_spanned(&facts, 0, 0, &written(UNKNOWN, 3)),
        list(vec![TypeRefDiag::ModuleNotAccessible { name: UNKNOWN, range: place(3) }])
    );
    facts.meanings = list(vec![(UNKNOWN, NameResolution::TypeVar)]);
    assert_eq!(check_spanned(&facts, 0, 0, &written(UNKNOWN, 3)), List::Nil);
}

#[test]
fn a_class_of_a_later_release_is_reported() {
    let mut facts = workspace();
    facts.scope = ResolutionScope::SourceSet(7);
    facts.releases = list(vec![(7, 8)]);
    facts.libraries = list(vec![(KNOWN, 0)]);
    facts.missing_classes = list(vec![((0, KNOWN), Releases { found: 8, added: 11 })]);
    assert_eq!(release_of(&facts), Some(8));
    assert_eq!(class_of_reference(&facts, KNOWN), Some(Releases { found: 8, added: 11 }));
    assert_eq!(
        check_spanned(&facts, 0, 0, &written(KNOWN, 3)),
        list(vec![TypeRefDiag::NotSupportedInRelease {
            name: KNOWN,
            range: place(3),
            found: 8,
            added: 11,
        }])
    );
    facts.scope = ResolutionScope::JdkBuiltins;
    assert_eq!(release_of(&facts), None);
    assert_eq!(class_of_reference(&facts, KNOWN), None);
}

#[test]
fn only_the_platform_has_releases() {
    let mut facts = workspace();
    facts.scope = ResolutionScope::SourceSet(7);
    facts.releases = list(vec![(7, 8)]);
    facts.libraries = list(vec![(KNOWN, 9)]);
    facts.missing_members = list(vec![((KNOWN, FIELD), Releases { found: 8, added: 9 })]);
    assert_eq!(member_of_owner(&facts, KNOWN, FIELD, None), None);
    facts.libraries = list(vec![(KNOWN, 0)]);
    assert_eq!(
        member_of_owner(&facts, KNOWN, FIELD, None),
        Some(Releases { found: 8, added: 9 })
    );
}

#[test]
fn a_missing_api_is_named() {
    let facts = workspace();
    let mut names = Names::new();
    let owner = names.intern("java.util.List");
    let of = names.intern("of");
    let class = ReleaseApi::Class { name: owner };
    assert_eq!(
        class.render(&names, &facts, 8, 9),
        "class 'java.util.List' is not supported in release 8 (added in release 9)"
    );
    let field = ReleaseApi::Field { owner, name: of };
    assert_eq!(
        field.render(&names, &facts, 8, 21),
        "field 'of' in 'java.util.List' is not supported in release 8 (added in release 21)"
    );
    let method = ReleaseApi::Method { owner, name: of, params: List::Nil };
    assert_eq!(
        method.render(&names, &facts, 8, 9),
        "method 'of()' in 'java.util.List' is not supported in release 8 (added in release 9)"
    );
    let ctor = ReleaseApi::Method { owner, name: Name::Init, params: List::Nil };
    assert_eq!(
        ctor.render(&names, &facts, 8, 9),
        "constructor 'List()' in 'java.util.List' is not supported in release 8 (added in release 9)"
    );
    let member = ReleaseApi::Member { owner, name: of };
    assert_eq!(
        member.render(&names, &facts, 8, 10),
        "member 'of' in 'java.util.List' is not supported in release 8 (added in release 10)"
    );
}

#[test]
fn the_types_of_a_declaration_are_checked() {
    let facts = workspace();
    let t = tree(class_with_field(written(UNKNOWN, 3)), vec![]);
    assert_eq!(item_type_refs(&t.items[1]), list(vec![written(UNKNOWN, 3)]));
    assert_eq!(
        declaration_type_diagnostics(&facts, 0, &t),
        list(vec![DeclDiagnostic::CannotResolveType { name: UNKNOWN, range: place(3) }])
    );
    let fine = tree(class_with_field(written(KNOWN, 3)), vec![]);
    assert_eq!(declaration_type_diagnostics(&facts, 0, &fine), List::Nil);
}

#[test]
fn a_raw_type_is_reported_where_it_is_written() {
    let mut facts = workspace();
    facts.generic = list(vec![KNOWN]);
    assert!(is_raw_reference(&facts, &Ty::class(KNOWN)));
    assert!(!is_raw_reference(&facts, &Ty::reference(KNOWN, list(vec![Ty::Null]))));
    assert!(!is_raw_reference(&facts, &Ty::Primitive(PrimitiveType::Int)));
    let t = tree(class_with_field(written(KNOWN, 3)), vec![]);
    assert_eq!(
        declaration_type_diagnostics(&facts, 0, &t),
        list(vec![DeclDiagnostic::RawTypeUse { ty: Ty::class(KNOWN), range: place(3) }])
    );
}

#[test]
fn a_wrong_number_of_type_arguments_is_reported() {
    let mut facts = workspace();
    facts.arities = list(vec![(written(KNOWN, 3).shape, (Ty::class(KNOWN), 2))]);
    let t = tree(class_with_field(written(KNOWN, 3)), vec![]);
    assert_eq!(
        declaration_type_diagnostics(&facts, 0, &t),
        list(vec![DeclDiagnostic::WrongTypeArgumentCount {
            ty: Ty::class(KNOWN),
            expected: 2,
            range: place(3),
        }])
    );
}

#[test]
fn a_deprecated_class_is_reported() {
    let mut facts = workspace();
    let deprecation = Deprecation { for_removal: true };
    facts.deprecations = list(vec![(KNOWN, list(vec![(deprecation, KNOWN)]))]);
    assert_eq!(
        deprecation_hits(&facts, 0, 0, &written(KNOWN, 3)),
        list(vec![DeprecatedReference { api: KNOWN, deprecation, range: place(3) }])
    );
    let t = tree(class_with_field(written(KNOWN, 3)), vec![]);
    assert_eq!(
        declaration_type_diagnostics(&facts, 0, &t),
        list(vec![DeclDiagnostic::DeprecatedUse { api: KNOWN, deprecation, range: place(3) }])
    );
    facts.deprecated = list(vec![((0, 0), deprecation), ((0, 1), deprecation)]);
    assert_eq!(declaration_type_diagnostics(&facts, 0, &t), List::Nil);
}

#[test]
fn an_import_names_a_class() {
    let facts = workspace();
    let t = tree(vec![], vec![import(KNOWN, SIMPLE, 0), import(UNKNOWN, FIELD, 20)]);
    assert_eq!(
        import_diagnostics(&facts, &t),
        list(vec![DeclDiagnostic::UnresolvedImport { name: UNKNOWN, range: place(20) }])
    );
}

#[test]
fn an_import_on_demand_names_a_package() {
    let mut facts = workspace();
    let demand = || ImportItem { is_asterisk: true, ..import(OWNER, SIMPLE, 4) };
    assert_eq!(
        import_diagnostics(&facts, &tree(vec![], vec![demand()])),
        list(vec![DeclDiagnostic::UnresolvedImportPackage { name: OWNER, range: place(4) }])
    );
    facts.packages = list(vec![OWNER]);
    assert_eq!(import_diagnostics(&facts, &tree(vec![], vec![demand()])), List::Nil);
}

#[test]
fn imports_of_one_simple_name_conflict() {
    let mut facts = workspace();
    facts.classes = list(vec![
        (KNOWN, ClassInfo::Library { arity: Some(0) }),
        (OWNER, ClassInfo::Library { arity: Some(0) }),
    ]);
    let t = tree(vec![], vec![import(KNOWN, SIMPLE, 0), import(OWNER, SIMPLE, 20)]);
    assert_eq!(
        import_diagnostics(&facts, &t),
        list(vec![
            DeclDiagnostic::ConflictingImport { name: KNOWN, range: place(0) },
            DeclDiagnostic::ConflictingImport { name: OWNER, range: place(20) },
        ])
    );
}

#[test]
fn a_repeated_import_is_no_conflict() {
    let facts = workspace();
    let t = tree(vec![], vec![import(KNOWN, SIMPLE, 0), import(KNOWN, SIMPLE, 20)]);
    assert_eq!(import_diagnostics(&facts, &t), List::Nil);
}

#[test]
fn a_file_has_one_package() {
    let mut t = tree(vec![], vec![]);
    t.package = Some(OWNER);
    t.package_decls = list(vec![place(0)]);
    assert_eq!(duplicate_package_diagnostics(&t), List::Nil);
    t.package_decls = list(vec![place(0), place(30)]);
    assert_eq!(
        duplicate_package_diagnostics(&t),
        list(vec![DeclDiagnostic::DuplicatePackage { package: OWNER, range: place(30) }])
    );
}

#[test]
fn a_package_lies_in_its_directory() {
    let mut names = Names::new();
    let mut t = tree(vec![], vec![]);
    t.package = Some(names.intern("p.q"));
    t.package_decls = list(vec![place(0)]);
    let dir = |l: &[&str]| Some(l.iter().map(|s| s.to_string()).collect::<Vec<String>>());
    assert!(package_path_diagnostics(&names, &t, &dir(&["src", "p", "q"]), &None).is_none());
    assert!(package_path_diagnostics(&names, &t, &None, &None).is_none());
    let found = package_path_diagnostics(&names, &t, &dir(&["src", "p"]), &None).unwrap();
    assert_eq!(found.expected, t.package.unwrap());
    assert_eq!(found.dir, "src/p");
    assert_eq!(found.range, place(0));
    let named = package_path_diagnostics(&names, &t, &dir(&["q"]), &Some("q".to_string()));
    assert_eq!(named.unwrap().dir, "q");
}

#[test]
fn the_simple_name_of_an_import_follows_the_last_dollar_sign() {
    let mut names = Names::new();
    let nested = ImportItem::new(&mut names, "a.X$Foo", false, false, place(0));
    let other = ImportItem::new(&mut names, "b.Foo", false, false, place(20));
    assert_eq!(nested.simple, other.simple);
    assert_eq!(names.as_str(nested.simple), "Foo");
    assert_eq!(names.as_str(nested.member), "X$Foo");
    let mut facts = workspace();
    facts.classes = list(vec![
        (nested.name, ClassInfo::Library { arity: Some(0) }),
        (other.name, ClassInfo::Library { arity: Some(0) }),
    ]);
    let (a, b) = (nested.name, other.name);
    assert_eq!(
        import_diagnostics(&facts, &tree(vec![], vec![nested, other])),
        list(vec![
            DeclDiagnostic::ConflictingImport { name: a, range: place(0) },
            DeclDiagnostic::ConflictingImport { name: b, range: place(20) },
        ])
    );
}

#[test]
fn a_file_without_a_library_is_not_checked() {
    let mut facts = workspace();
    facts.scope = ResolutionScope::JdkBuiltins;
    facts.builtins = List::Nil;
    assert!(!can_resolve(&facts));
    let t = tree(class_with_field(written(UNKNOWN, 3)), vec![import(UNKNOWN, FIELD, 20)]);
    assert_eq!(declaration_type_diagnostics(&facts, 0, &t), List::Nil);
}
