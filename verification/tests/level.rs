use hir_ty::facts::Facts;
use hir_ty::items::{ItemTree, LanguageKind, TextRange};
use hir_ty::level_check::{
    level_diagnostics, tree_reports, DeclDiagnostic, JavaFeature, JavaLanguageLevel, LevelReport,
    Violation,
};
use hir_ty::list::List;
use hir_ty::syntax::{Element, Node, SourceFile, SyntaxKind, Token};

const ALL: [JavaFeature; 20] = [
    JavaFeature::Modules,
    JavaFeature::EffectivelyFinalVariablesInTryWithResources,
    JavaFeature::PrivateInterfaceMethods,
    JavaFeature::DiamondWithAnonymousClass,
    JavaFeature::LocalVariableTypeInference,
    JavaFeature::VarSyntaxInImplicitLambdas,
    JavaFeature::SwitchMultipleCaseLabels,
    JavaFeature::SwitchRule,
    JavaFeature::SwitchExpression,
    JavaFeature::TextBlocks,
    JavaFeature::PatternMatchingInInstanceof,
    JavaFeature::ReifiableTypesInInstanceof,
    JavaFeature::Records,
    JavaFeature::SealedClasses,
    JavaFeature::CaseNull,
    JavaFeature::PatternSwitch,
    JavaFeature::UnconditionalPatternsInInstanceof,
    JavaFeature::RecordPatterns,
    JavaFeature::UnnamedVariables,
    JavaFeature::PrimitivePatterns,
];

fn at(source: u8) -> JavaLanguageLevel {
    JavaLanguageLevel { source, preview: false }
}

fn range(start: u32, end: u32) -> TextRange {
    TextRange { start, end }
}

fn list<T>(v: Vec<T>) -> List<T> {
    List::from_vec(v)
}

fn node(kind: SyntaxKind, start: u32, end: u32, children: Vec<Element>) -> Element {
    Element::Node(Node { kind, range: range(start, end), children: list(children) })
}

fn token(kind: SyntaxKind, text: &str, start: u32, end: u32) -> Element {
    Element::Token(Token { kind, text: text.to_string(), range: range(start, end) })
}

fn report(feature: JavaFeature, start: u32, end: u32) -> LevelReport {
    LevelReport { feature, violation: Violation::TooNewSource, range: range(start, end) }
}

#[test]
fn each_construct_has_its_level() {
    let levels: Vec<u8> = ALL.iter().map(|f| f.source_level()).collect();
    assert_eq!(
        levels,
        vec![9, 9, 9, 9, 10, 11, 14, 14, 14, 15, 16, 16, 16, 17, 21, 21, 21, 21, 22, 23]
    );
}

#[test]
fn constructs_have_names() {
    assert_eq!(JavaFeature::Records.display(), "records");
    assert_eq!(JavaFeature::TextBlocks.display(), "text blocks");
    assert_eq!(JavaFeature::DiamondWithAnonymousClass.display(), "'<>' with anonymous inner classes");
    assert_eq!(JavaFeature::RecordPatterns.display(), "deconstruction patterns");
    assert!(JavaFeature::Records.is_plural());
    assert!(!JavaFeature::LocalVariableTypeInference.is_plural());
}

#[test]
fn a_construct_violates_older_levels_only() {
    assert_eq!(JavaFeature::Records.violation(at(15)), Some(Violation::TooNewSource));
    assert_eq!(JavaFeature::Records.violation(at(16)), None);
    assert_eq!(JavaFeature::Records.violation(at(21)), None);
}

#[test]
fn preview_comes_before_the_level() {
    assert_eq!(JavaFeature::PrimitivePatterns.violation(at(11)), Some(Violation::PreviewDisabled));
    assert_eq!(JavaFeature::PrimitivePatterns.violation(at(25)), Some(Violation::PreviewDisabled));
    let preview = JavaLanguageLevel { source: 22, preview: true };
    assert_eq!(JavaFeature::PrimitivePatterns.violation(preview), Some(Violation::TooNewSource));
    let newest = JavaLanguageLevel { source: 23, preview: true };
    assert_eq!(JavaFeature::PrimitivePatterns.violation(newest), None);
}

#[test]
fn newer_levels_allow_what_older_ones_do() {
    for f in ALL {
        for source in 8..25u8 {
            if f.violation(at(source)).is_none() {
                assert_eq!(f.violation(at(source + 1)), None);
            }
        }
    }
}

#[test]
fn a_record_is_reported_before_its_level() {
    let tree = node(SyntaxKind::OtherNode, 0, 40, vec![node(SyntaxKind::RecordDecl, 0, 40, vec![])]);
    assert_eq!(tree_reports(&tree, at(15)), list(vec![report(JavaFeature::Records, 0, 40)]));
    assert_eq!(tree_reports(&tree, at(16)), List::Nil);
}

#[test]
fn what_lies_in_a_report_is_not_reported() {
    let tree = node(
        SyntaxKind::OtherNode,
        0,
        60,
        vec![
            node(
                SyntaxKind::SwitchExpr,
                5,
                40,
                vec![node(SyntaxKind::SwitchRule, 10, 30, vec![])],
            ),
            token(SyntaxKind::TextBlock, "\"\"\"", 45, 50),
        ],
    );
    assert_eq!(
        tree_reports(&tree, at(11)),
        list(vec![
            report(JavaFeature::SwitchExpression, 5, 40),
            report(JavaFeature::TextBlocks, 45, 50),
        ])
    );
}

#[test]
fn an_element_without_text_is_not_reported() {
    let tree = node(SyntaxKind::OtherNode, 0, 4, vec![node(SyntaxKind::RecordDecl, 2, 2, vec![])]);
    assert_eq!(tree_reports(&tree, at(8)), List::Nil);
}

#[test]
fn private_methods_count_in_interfaces_only() {
    let method = |start| {
        node(
            SyntaxKind::MethodDecl,
            start,
            start + 10,
            vec![node(
                SyntaxKind::ModifierList,
                start,
                start + 7,
                vec![token(SyntaxKind::PrivateKw, "private", start, start + 7)],
            )],
        )
    };
    let tree = node(
        SyntaxKind::OtherNode,
        0,
        50,
        vec![
            node(SyntaxKind::InterfaceBody, 0, 20, vec![method(1)]),
            node(SyntaxKind::ClassBody, 20, 40, vec![method(21)]),
        ],
    );
    assert_eq!(
        tree_reports(&tree, at(8)),
        list(vec![report(JavaFeature::PrivateInterfaceMethods, 1, 11)])
    );
}

#[test]
fn a_sealed_class_is_reported_once() {
    let tree = node(
        SyntaxKind::OtherNode,
        0,
        50,
        vec![
            node(
                SyntaxKind::ModifierList,
                0,
                6,
                vec![token(SyntaxKind::Identifier, "sealed", 0, 6)],
            ),
            node(SyntaxKind::PermitsClause, 20, 30, vec![]),
        ],
    );
    assert_eq!(
        tree_reports(&tree, at(16)),
        list(vec![report(JavaFeature::SealedClasses, 0, 6)])
    );
}

#[test]
fn an_enabled_newest_level_reports_nothing() {
    let kinds = [
        SyntaxKind::ModuleDecl,
        SyntaxKind::RecordDecl,
        SyntaxKind::SwitchRule,
        SyntaxKind::SwitchExpr,
        SyntaxKind::YieldStmt,
        SyntaxKind::RecordPattern,
        SyntaxKind::PermitsClause,
        SyntaxKind::Resource,
    ];
    for kind in kinds {
        let tree = node(kind, 0, 10, vec![]);
        let level = JavaLanguageLevel { source: 23, preview: true };
        assert_eq!(tree_reports(&tree, level), List::Nil);
        assert_ne!(tree_reports(&tree, at(8)), List::Nil);
    }
}

fn java_file(language: LanguageKind) -> Facts {
    let mut facts = Facts::new(1000);
    facts.sources = list(vec![(3, SourceFile::Java(node(SyntaxKind::RecordDecl, 2, 9, vec![])))]);
    facts.no_tree = ItemTree {
        language,
        items: vec![],
        top: List::Nil,
        imports: List::Nil,
        package: None,
        package_decls: List::Nil,
    };
    facts
}

#[test]
fn a_file_without_a_level_has_no_reports() {
    let facts = java_file(LanguageKind::Java);
    assert_eq!(level_diagnostics(&facts, &facts, 3), List::Nil);
}

#[test]
fn a_file_is_held_to_its_level() {
    let mut facts = java_file(LanguageKind::Java);
    facts.levels = list(vec![(3, at(11))]);
    assert_eq!(
        level_diagnostics(&facts, &facts, 3),
        list(vec![DeclDiagnostic {
            feature: "records",
            plural: true,
            found: 11,
            required: 16,
            preview_disabled: false,
            range: range(2, 9),
        }])
    );
    facts.levels = list(vec![(3, at(17))]);
    assert_eq!(level_diagnostics(&facts, &facts, 3), List::Nil);
}

#[test]
fn only_java_syntax_is_held_to_a_level() {
    let mut facts = java_file(LanguageKind::Unknown);
    facts.levels = list(vec![(3, at(8)), (4, at(8))]);
    assert_eq!(level_diagnostics(&facts, &facts, 3), List::Nil);
    assert_eq!(level_diagnostics(&facts, &facts, 4), List::Nil);
}

#[test]
fn distinct_constructs_inside_each_other_are_both_reported() {
    let tree = node(
        SyntaxKind::OtherNode,
        0,
        80,
        vec![
            node(
                SyntaxKind::ModifierList,
                0,
                6,
                vec![token(SyntaxKind::Identifier, "sealed", 0, 6)],
            ),
            node(
                SyntaxKind::ClassBody,
                20,
                80,
                vec![node(SyntaxKind::RecordDecl, 30, 60, vec![])],
            ),
        ],
    );
    assert_eq!(
        tree_reports(&tree, at(15)),
        list(vec![
            report(JavaFeature::SealedClasses, 0, 6),
            report(JavaFeature::Records, 30, 60),
        ])
    );
}

#[test]
fn several_labels_of_a_rule_are_one_report() {
    let label = |start: u32| {
        node(
            SyntaxKind::SwitchLabel,
            start,
            start + 9,
            vec![token(SyntaxKind::Comma, ",", start + 6, start + 7)],
        )
    };
    let rule = node(SyntaxKind::SwitchRule, 0, 20, vec![label(0)]);
    assert_eq!(tree_reports(&rule, at(13)), list(vec![report(JavaFeature::SwitchRule, 0, 20)]));
    let group = node(SyntaxKind::OtherNode, 0, 20, vec![label(0)]);
    assert_eq!(
        tree_reports(&group, at(13)),
        list(vec![report(JavaFeature::SwitchMultipleCaseLabels, 0, 9)])
    );
}

fn type_pattern(ty: SyntaxKind, text: &str) -> Element {
    node(
        SyntaxKind::TypePattern,
        13,
        21,
        vec![
            node(SyntaxKind::Type, 13, 19, vec![token(ty, text, 13, 19)]),
            token(SyntaxKind::Identifier, "o", 20, 21),
        ],
    )
}

#[test]
fn a_pattern_for_object_is_unconditional() {
    let test = |text: &str| {
        node(SyntaxKind::InstanceofExpr, 0, 21, vec![type_pattern(SyntaxKind::Identifier, text)])
    };
    assert_eq!(
        tree_reports(&test("Object"), at(20)),
        list(vec![report(JavaFeature::UnconditionalPatternsInInstanceof, 0, 21)])
    );
    assert_eq!(tree_reports(&test("Object"), at(21)), List::Nil);
    assert_eq!(tree_reports(&test("String"), at(20)), List::Nil);
    assert_eq!(
        tree_reports(&test("String"), at(15)),
        list(vec![report(JavaFeature::PatternMatchingInInstanceof, 0, 21)])
    );
}

#[test]
fn a_primitive_component_of_a_record_pattern_is_no_primitive_pattern() {
    let label = |children: Vec<Element>| node(SyntaxKind::SwitchLabel, 0, 30, children);
    let bare = label(vec![type_pattern(SyntaxKind::IntKw, "int")]);
    assert_eq!(
        tree_reports(&bare, at(20)),
        list(vec![report(JavaFeature::PatternSwitch, 0, 30)])
    );
    let preview_off = LevelReport {
        feature: JavaFeature::PrimitivePatterns,
        violation: Violation::PreviewDisabled,
        range: range(13, 21),
    };
    assert_eq!(tree_reports(&bare, at(22)), list(vec![preview_off]));
    let nested = label(vec![node(
        SyntaxKind::RecordPattern,
        5,
        25,
        vec![type_pattern(SyntaxKind::IntKw, "int")],
    )]);
    assert_eq!(tree_reports(&nested, at(22)), List::Nil);
}
