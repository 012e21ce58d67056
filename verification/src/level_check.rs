//! Constructs that are newer than the source level of their file.
use crate::db::TyDatabase;
use crate::items::{LanguageKind, TextRange};
use crate::list::{Data, List};
use crate::names::same_text;
use crate::range_ctx::range_ctx;
use crate::syntax::{
    collect_tokens, contains_kind_in, find_node, has_kind, has_token, Element, Node, SourceFile,
    SyntaxKind, Token, Tokens,
};
use crate::workspace::Workspace;
use vstd::prelude::*;

verus! {

/// The level a file is compiled at, and whether preview features are enabled.
#[derive(Clone, Copy, Debug, PartialEq, Eq, Structural)]
pub struct JavaLanguageLevel {
    pub source: u8,
    pub preview: bool,
}

/// How a construct violates a level.
#[derive(Clone, Copy, Debug, PartialEq, Eq, Structural)]
pub enum Violation {
    /// A preview feature that is not enabled.
    PreviewDisabled,
    /// A construct whose release is newer than the source level.
    TooNewSource,
}

/// The constructs that need a source level of their own.
#[derive(Clone, Copy, Debug, PartialEq, Eq, Structural)]
pub enum JavaFeature {
    Modules,
    EffectivelyFinalVariablesInTryWithResources,
    PrivateInterfaceMethods,
    DiamondWithAnonymousClass,
    LocalVariableTypeInference,
    VarSyntaxInImplicitLambdas,
    SwitchMultipleCaseLabels,
    SwitchRule,
    SwitchExpression,
    TextBlocks,
    PatternMatchingInInstanceof,
    ReifiableTypesInInstanceof,
    Records,
    SealedClasses,
    CaseNull,
    PatternSwitch,
    UnconditionalPatternsInInstanceof,
    RecordPatterns,
    UnnamedVariables,
    PrimitivePatterns,
}

impl JavaFeature {
    /// The name of the construct in a message.
    pub open spec fn shown(self) -> Seq<char> {
        match self {
            JavaFeature::Modules => "modules"@,
            JavaFeature::EffectivelyFinalVariablesInTryWithResources => {
                "variables in try-with-resources"@
            },
            JavaFeature::PrivateInterfaceMethods => "private interface methods"@,
            JavaFeature::DiamondWithAnonymousClass => "'<>' with anonymous inner classes"@,
            JavaFeature::LocalVariableTypeInference => "local variable type inference"@,
            JavaFeature::VarSyntaxInImplicitLambdas => "var syntax in implicit lambdas"@,
            JavaFeature::SwitchMultipleCaseLabels => "multiple case labels"@,
            JavaFeature::SwitchRule => "switch rules"@,
            JavaFeature::SwitchExpression => "switch expressions"@,
            JavaFeature::TextBlocks => "text blocks"@,
            JavaFeature::PatternMatchingInInstanceof => "pattern matching in instanceof"@,
            JavaFeature::ReifiableTypesInInstanceof => "reifiable types in instanceof"@,
            JavaFeature::Records => "records"@,
            JavaFeature::SealedClasses => "sealed classes"@,
            JavaFeature::CaseNull => "null in switch cases"@,
            JavaFeature::PatternSwitch => "patterns in switch statements"@,
            JavaFeature::UnconditionalPatternsInInstanceof => {
                "unconditional patterns in instanceof"@
            },
            JavaFeature::RecordPatterns => "deconstruction patterns"@,
            JavaFeature::UnnamedVariables => "unnamed variables"@,
            JavaFeature::PrimitivePatterns => "primitive patterns"@,
        }
    }

    /// The name of the construct in a message.
    pub fn display(self) -> (r: &'static str)
        ensures
            r@ == self.shown(),
    {
        match self {
            JavaFeature::Modules => "modules",
            JavaFeature::EffectivelyFinalVariablesInTryWithResources => {
                "variables in try-with-resources"
            },
            JavaFeature::PrivateInterfaceMethods => "private interface methods",
            JavaFeature::DiamondWithAnonymousClass => "'<>' with anonymous inner classes",
            JavaFeature::LocalVariableTypeInference => "local variable type inference",
            JavaFeature::VarSyntaxInImplicitLambdas => "var syntax in implicit lambdas",
            JavaFeature::SwitchMultipleCaseLabels => "multiple case labels",
            JavaFeature::SwitchRule => "switch rules",
            JavaFeature::SwitchExpression => "switch expressions",
            JavaFeature::TextBlocks => "text blocks",
            JavaFeature::PatternMatchingInInstanceof => "pattern matching in instanceof",
            JavaFeature::ReifiableTypesInInstanceof => "reifiable types in instanceof",
            JavaFeature::Records => "records",
            JavaFeature::SealedClasses => "sealed classes",
            JavaFeature::CaseNull => "null in switch cases",
            JavaFeature::PatternSwitch => "patterns in switch statements",
            JavaFeature::UnconditionalPatternsInInstanceof => {
                "unconditional patterns in instanceof"
            },
            JavaFeature::RecordPatterns => "deconstruction patterns",
            JavaFeature::UnnamedVariables => "unnamed variables",
            JavaFeature::PrimitivePatterns => "primitive patterns",
        }
    }

    /// Whether a message speaks of the construct in the plural.
    pub open spec fn plural(self) -> bool {
        !(self is DiamondWithAnonymousClass || self is LocalVariableTypeInference
            || self is PatternMatchingInInstanceof || self is CaseNull)
    }

    /// Whether a message speaks of the construct in the plural.
    pub fn is_plural(self) -> (r: bool)
        ensures
            r == self.plural(),
    {
        match self {
            JavaFeature::DiamondWithAnonymousClass => false,
            JavaFeature::LocalVariableTypeInference => false,
            JavaFeature::PatternMatchingInInstanceof => false,
            JavaFeature::CaseNull => false,
            _ => true,
        }
    }

    /// The release at which the construct became standard.
    pub open spec fn since(self) -> u8 {
        match self {
            JavaFeature::Modules => 9,
            JavaFeature::EffectivelyFinalVariablesInTryWithResources => 9,
            JavaFeature::PrivateInterfaceMethods => 9,
            JavaFeature::DiamondWithAnonymousClass => 9,
            JavaFeature::LocalVariableTypeInference => 10,
            JavaFeature::VarSyntaxInImplicitLambdas => 11,
            JavaFeature::SwitchMultipleCaseLabels => 14,
            JavaFeature::SwitchRule => 14,
            JavaFeature::SwitchExpression => 14,
            JavaFeature::TextBlocks => 15,
            JavaFeature::PatternMatchingInInstanceof => 16,
            JavaFeature::ReifiableTypesInInstanceof => 16,
            JavaFeature::Records => 16,
            JavaFeature::SealedClasses => 17,
            JavaFeature::CaseNull => 21,
            JavaFeature::PatternSwitch => 21,
            JavaFeature::UnconditionalPatternsInInstanceof => 21,
            JavaFeature::RecordPatterns => 21,
            JavaFeature::UnnamedVariables => 22,
            JavaFeature::PrimitivePatterns => 23,
        }
    }

    /// The release at which the construct became standard.
    pub fn source_level(self) -> (r: u8)
        ensures
            r == self.since(),
    {
        match self {
            JavaFeature::Modules => 9,
            JavaFeature::EffectivelyFinalVariablesInTryWithResources => 9,
            JavaFeature::PrivateInterfaceMethods => 9,
            JavaFeature::DiamondWithAnonymousClass => 9,
            JavaFeature::LocalVariableTypeInference => 10,
            JavaFeature::VarSyntaxInImplicitLambdas => 11,
            JavaFeature::SwitchMultipleCaseLabels => 14,
            JavaFeature::SwitchRule => 14,
            JavaFeature::SwitchExpression => 14,
            JavaFeature::TextBlocks => 15,
            JavaFeature::PatternMatchingInInstanceof => 16,
            JavaFeature::ReifiableTypesInInstanceof => 16,
            JavaFeature::Records => 16,
            JavaFeature::SealedClasses => 17,
            JavaFeature::CaseNull => 21,
            JavaFeature::PatternSwitch => 21,
            JavaFeature::UnconditionalPatternsInInstanceof => 21,
            JavaFeature::RecordPatterns => 21,
            JavaFeature::UnnamedVariables => 22,
            JavaFeature::PrimitivePatterns => 23,
        }
    }

    /// Whether the construct has to be enabled at every level.
    pub fn is_preview(self) -> (r: bool)
        ensures
            r == (self is PrimitivePatterns),
    {
        match self {
            JavaFeature::PrimitivePatterns => true,
            _ => false,
        }
    }

    /// How the construct violates a level. That it is not enabled comes before
    /// that the level is too old.
    pub open spec fn violates(self, level: JavaLanguageLevel) -> Option<Violation> {
        if self is PrimitivePatterns && !level.preview {
            Some(Violation::PreviewDisabled)
        } else if level.source < self.since() {
            Some(Violation::TooNewSource)
        } else {
            None
        }
    }

    /// How the construct violates a level.
    pub fn violation(self, level: JavaLanguageLevel) -> (r: Option<Violation>)
        ensures
            r == self.violates(level),
    {
        if self.is_preview() && !level.preview {
            return Some(Violation::PreviewDisabled);
        }
        if level.source < self.source_level() {
            return Some(Violation::TooNewSource);
        }
        None
    }
}

/// A construct and how it violates the level.
pub type Finding = Option<(JavaFeature, Violation)>;

/// What the construct has against the level.
pub open spec fn finding(f: JavaFeature, level: JavaLanguageLevel) -> Finding {
    match f.violates(level) {
        Some(v) => Some((f, v)),
        None => None,
    }
}

fn violated(f: JavaFeature, level: JavaLanguageLevel) -> (r: Finding)
    ensures
        r == finding(f, level),
{
    match f.violation(level) {
        Some(v) => Some((f, v)),
        None => None,
    }
}

/// Whether one of the elements is a modifier list with `sealed` in it.
pub open spec fn sealed_among(l: List<Element>) -> bool
    decreases l,
{
    match l {
        List::Nil => false,
        List::Cons(h, t) => (match *h {
            Element::Node(n) => n.kind == SyntaxKind::ModifierList && crate::syntax::any_token(
                n.children,
                SyntaxKind::Identifier,
                "sealed"@,
            ),
            Element::Token(_) => false,
        }) || sealed_among(*t),
    }
}

/// Whether the declaration made of these elements has the modifier `sealed`.
fn declares_sealed(l: &List<Element>) -> (r: bool)
    ensures
        r == sealed_among(*l),
    decreases l,
{
    match l {
        List::Nil => false,
        List::Cons(h, t) => {
            let here = match &**h {
                Element::Node(n) => n.kind == SyntaxKind::ModifierList && has_token(
                    &n.children,
                    SyntaxKind::Identifier,
                    "sealed",
                ),
                Element::Token(_) => false,
            };
            here || declares_sealed(t)
        },
    }
}

/// Whether one of the elements is a modifier list with `private` in it.
pub open spec fn private_among(l: List<Element>) -> bool
    decreases l,
{
    match l {
        List::Nil => false,
        List::Cons(h, t) => (match *h {
            Element::Node(n) => n.kind == SyntaxKind::ModifierList && crate::syntax::any_of_kind(
                n.children,
                SyntaxKind::PrivateKw,
            ),
            Element::Token(_) => false,
        }) || private_among(*t),
    }
}

fn declares_private(l: &List<Element>) -> (r: bool)
    ensures
        r == private_among(*l),
    decreases l,
{
    match l {
        List::Nil => false,
        List::Cons(h, t) => {
            let here = match &**h {
                Element::Node(n) => n.kind == SyntaxKind::ModifierList && has_kind(
                    &n.children,
                    SyntaxKind::PrivateKw,
                ),
                Element::Token(_) => false,
            };
            here || declares_private(t)
        },
    }
}

/// Whether one of the elements is an argument list without an argument.
pub open spec fn diamond_among(l: List<Element>) -> bool
    decreases l,
{
    match l {
        List::Nil => false,
        List::Cons(h, t) => (match *h {
            Element::Node(n) => n.kind == SyntaxKind::TypeArguments && !crate::syntax::any_of_kind(
                n.children,
                SyntaxKind::TypeArgument,
            ),
            Element::Token(_) => false,
        }) || diamond_among(*t),
    }
}

fn has_diamond(l: &List<Element>) -> (r: bool)
    ensures
        r == diamond_among(*l),
    decreases l,
{
    match l {
        List::Nil => false,
        List::Cons(h, t) => {
            let here = match &**h {
                Element::Node(n) => n.kind == SyntaxKind::TypeArguments && !has_kind(
                    &n.children,
                    SyntaxKind::TypeArgument,
                ),
                Element::Token(_) => false,
            };
            here || has_diamond(t)
        },
    }
}

/// Whether the first of the elements, leaving out trivia and modifiers, is the
/// name `var`.
pub open spec fn starts_with_var(l: List<Element>) -> bool
    decreases l,
{
    match l {
        List::Nil => false,
        List::Cons(h, t) => match *h {
            Element::Token(tok) => if tok.kind == SyntaxKind::Trivia {
                starts_with_var(*t)
            } else {
                tok.kind == SyntaxKind::Identifier && tok.text@ == "var"@
            },
            Element::Node(n) => n.kind == SyntaxKind::ModifierList && starts_with_var(*t),
        },
    }
}

fn begins_with_var(l: &List<Element>) -> (r: bool)
    ensures
        r == starts_with_var(*l),
    decreases l,
{
    match l {
        List::Nil => false,
        List::Cons(h, t) => match &**h {
            Element::Token(tok) => if tok.kind == SyntaxKind::Trivia {
                begins_with_var(t)
            } else {
                tok.kind == SyntaxKind::Identifier && same_text(tok.text.as_str(), "var")
            },
            Element::Node(n) => n.kind == SyntaxKind::ModifierList && begins_with_var(t),
        },
    }
}

/// Whether a local variable declaration is one with `var`.
pub open spec fn var_declared(l: List<Element>) -> bool {
    !crate::syntax::any_of_kind(l, SyntaxKind::Type) && starts_with_var(l)
}

fn declares_var(l: &List<Element>) -> (r: bool)
    ensures
        r == var_declared(*l),
{
    !has_kind(l, SyntaxKind::Type) && begins_with_var(l)
}

/// Whether the only token of the elements is the name `word`.
pub open spec fn only_word(l: List<Element>, word: Seq<char>) -> bool {
    match crate::syntax::tokens_of(l, Tokens::Empty) {
        Tokens::One(t) => t.kind == SyntaxKind::Identifier && t.text@ == word,
        _ => false,
    }
}

fn is_only_word(l: &List<Element>, word: &str) -> (r: bool)
    ensures
        r == only_word(*l, word@),
{
    match collect_tokens(l, Tokens::Empty) {
        Tokens::One(t) => t.kind == SyntaxKind::Identifier && same_text(t.text.as_str(), word),
        _ => false,
    }
}

/// Whether a pattern is one for the type `Object`.
pub open spec fn object_pattern(l: List<Element>) -> bool {
    match crate::syntax::first_node(l, SyntaxKind::Type) {
        Some(ty) => only_word(ty.children, "Object"@),
        None => false,
    }
}

fn is_object_type(l: &List<Element>) -> (r: bool)
    ensures
        r == object_pattern(*l),
{
    match find_node(l, SyntaxKind::Type) {
        Some(ty) => is_only_word(&ty.children, "Object"),
        None => false,
    }
}

/// Whether a kind is the keyword of a primitive type.
pub open spec fn primitive_kw(k: SyntaxKind) -> bool {
    k is ByteKw || k is ShortKw || k is CharKw || k is IntKw || k is LongKw || k is FloatKw
        || k is DoubleKw || k is BooleanKw
}

fn is_primitive_kw(k: SyntaxKind) -> (r: bool)
    ensures
        r == primitive_kw(k),
{
    match k {
        SyntaxKind::ByteKw => true,
        SyntaxKind::ShortKw => true,
        SyntaxKind::CharKw => true,
        SyntaxKind::IntKw => true,
        SyntaxKind::LongKw => true,
        SyntaxKind::FloatKw => true,
        SyntaxKind::DoubleKw => true,
        SyntaxKind::BooleanKw => true,
        _ => false,
    }
}

/// Whether a pattern is one for a primitive type.
pub open spec fn primitive_pattern(l: List<Element>) -> bool {
    match crate::syntax::first_node(l, SyntaxKind::Type) {
        Some(ty) => match crate::syntax::tokens_of(ty.children, Tokens::Empty) {
            Tokens::Empty => false,
            Tokens::One(t) => primitive_kw(t.kind),
            Tokens::Many(t) => primitive_kw(t.kind),
        },
        None => false,
    }
}

/// The first token of the type of a pattern.
fn first_type_token<'a>(l: &'a List<Element>) -> (r: Option<&'a Token>)
    ensures
        primitive_pattern(*l) == (match r {
            Some(t) => primitive_kw(t.kind),
            None => false,
        }),
{
    match find_node(l, SyntaxKind::Type) {
        Some(ty) => match collect_tokens(&ty.children, Tokens::Empty) {
            Tokens::Empty => None,
            Tokens::One(t) => Some(t),
            Tokens::Many(t) => Some(t),
        },
        None => None,
    }
}

/// Whether every token of the elements is one that an unbounded wildcard may
/// have.
pub open spec fn only_wildcard(l: List<Element>) -> bool
    decreases l,
{
    match l {
        List::Nil => true,
        List::Cons(h, t) => only_wildcard_in(*h) && only_wildcard(*t),
    }
}

pub open spec fn only_wildcard_in(e: Element) -> bool
    decreases e,
{
    match e {
        Element::Token(t) => t.kind is Trivia || t.kind is Question || t.kind is ExtendsKw
            || t.kind is SuperKw,
        Element::Node(n) => only_wildcard(n.children),
    }
}

fn is_only_wildcard(l: &List<Element>) -> (r: bool)
    ensures
        r == only_wildcard(*l),
    decreases l,
{
    match l {
        List::Nil => true,
        List::Cons(h, t) => is_only_wildcard_in(h) && is_only_wildcard(t),
    }
}

fn is_only_wildcard_in(e: &Element) -> (r: bool)
    ensures
        r == only_wildcard_in(*e),
    decreases e,
{
    match e {
        Element::Token(t) => t.kind == SyntaxKind::Trivia || t.kind == SyntaxKind::Question
            || t.kind == SyntaxKind::ExtendsKw || t.kind == SyntaxKind::SuperKw,
        Element::Node(n) => is_only_wildcard(&n.children),
    }
}

/// Whether one of the arguments is not an unbounded wildcard.
pub open spec fn bounded_argument(l: List<Element>) -> bool
    decreases l,
{
    match l {
        List::Nil => false,
        List::Cons(h, t) => (match *h {
            Element::Node(n) => n.kind == SyntaxKind::TypeArgument && !(
            crate::syntax::any_of_kind(n.children, SyntaxKind::WildcardType) && only_wildcard(
                n.children,
            )),
            Element::Token(_) => false,
        }) || bounded_argument(*t),
    }
}

fn has_bounded_argument(l: &List<Element>) -> (r: bool)
    ensures
        r == bounded_argument(*l),
    decreases l,
{
    match l {
        List::Nil => false,
        List::Cons(h, t) => {
            let here = match &**h {
                Element::Node(n) => n.kind == SyntaxKind::TypeArgument && !(has_kind(
                    &n.children,
                    SyntaxKind::WildcardType,
                ) && is_only_wildcard(&n.children)),
                Element::Token(_) => false,
            };
            here || has_bounded_argument(t)
        },
    }
}

/// Whether a type has, anywhere inside, an argument that is not an unbounded
/// wildcard.
pub open spec fn non_reifiable(l: List<Element>) -> bool
    decreases l,
{
    match l {
        List::Nil => false,
        List::Cons(h, t) => non_reifiable_in(*h) || non_reifiable(*t),
    }
}

pub open spec fn non_reifiable_in(e: Element) -> bool
    decreases e,
{
    match e {
        Element::Token(_) => false,
        Element::Node(n) => (n.kind == SyntaxKind::TypeArguments && bounded_argument(n.children))
            || non_reifiable(n.children),
    }
}

fn is_non_reifiable_type(l: &List<Element>) -> (r: bool)
    ensures
        r == non_reifiable(*l),
    decreases l,
{
    match l {
        List::Nil => false,
        List::Cons(h, t) => is_non_reifiable_in(h) || is_non_reifiable_type(t),
    }
}

fn is_non_reifiable_in(e: &Element) -> (r: bool)
    ensures
        r == non_reifiable_in(*e),
    decreases e,
{
    match e {
        Element::Token(_) => false,
        Element::Node(n) => (n.kind == SyntaxKind::TypeArguments && has_bounded_argument(
            &n.children,
        )) || is_non_reifiable_type(&n.children),
    }
}

/// Whether a kind is the body of a type declaration.
pub open spec fn type_body(k: SyntaxKind) -> bool {
    k is ClassBody || k is InterfaceBody || k is EnumBody || k is RecordBody
        || k is AnnotationTypeBody
}

/// The innermost body of a type declaration among the kinds of the nodes
/// around.
pub open spec fn body_around(around: List<SyntaxKind>) -> Option<SyntaxKind>
    decreases around,
{
    match around {
        List::Nil => None,
        List::Cons(h, t) => if type_body(*h) {
            Some(*h)
        } else {
            body_around(*t)
        },
    }
}

fn nearest_body(around: &List<SyntaxKind>) -> (r: Option<SyntaxKind>)
    ensures
        r == body_around(*around),
    decreases around,
{
    match around {
        List::Nil => None,
        List::Cons(h, t) => match **h {
            SyntaxKind::ClassBody => Some(**h),
            SyntaxKind::InterfaceBody => Some(**h),
            SyntaxKind::EnumBody => Some(**h),
            SyntaxKind::RecordBody => Some(**h),
            SyntaxKind::AnnotationTypeBody => Some(**h),
            _ => nearest_body(t),
        },
    }
}

impl Data for SyntaxKind {
    fn copy(&self) -> (r: Self) {
        *self
    }

    fn same(&self, other: &Self) -> (r: bool) {
        *self == *other
    }
}

/// Whether `_` directly inside a node of this kind is the name of a variable
/// or a pattern.
pub open spec fn underscore_names(parent: SyntaxKind) -> bool {
    parent is VariableDeclarator || parent is LocalVariableDeclaration || parent is FormalParameter
        || parent is SpreadParameter || parent is CatchFormalParameter
        || parent is InferredParameters || parent is EnhancedForStmt || parent is MatchAllPattern
        || parent is TypePattern
}

/// Whether `_` among these nodes, innermost first, is the name of a variable or
/// a pattern.
pub open spec fn underscore_position(around: List<SyntaxKind>) -> bool {
    match around {
        List::Nil => false,
        List::Cons(parent, _) => underscore_names(*parent),
    }
}

fn in_underscore_position(around: &List<SyntaxKind>) -> (r: bool)
    ensures
        r == underscore_position(*around),
{
    match around {
        List::Nil => false,
        List::Cons(parent, _) => match **parent {
            SyntaxKind::VariableDeclarator => true,
            SyntaxKind::LocalVariableDeclaration => true,
            SyntaxKind::FormalParameter => true,
            SyntaxKind::SpreadParameter => true,
            SyntaxKind::CatchFormalParameter => true,
            SyntaxKind::InferredParameters => true,
            SyntaxKind::EnhancedForStmt => true,
            SyntaxKind::MatchAllPattern => true,
            SyntaxKind::TypePattern => true,
            _ => false,
        },
    }
}

/// What an `instanceof` has against the level. A pattern is a pattern match,
/// and one for `Object` matches every reference.
pub open spec fn instanceof_finding(n: Node, level: JavaLanguageLevel) -> Finding {
    let ty = crate::syntax::first_node(n.children, SyntaxKind::TypePattern);
    let record = crate::syntax::any_of_kind(n.children, SyntaxKind::RecordPattern);
    if let Some(pattern) = ty {
        if !pattern_first(n.children, SyntaxKind::RecordPattern) && object_pattern(
            pattern.children,
        ) {
            match finding(JavaFeature::UnconditionalPatternsInInstanceof, level) {
                Some(f) => Some(f),
                None => finding(JavaFeature::PatternMatchingInInstanceof, level),
            }
        } else {
            finding(JavaFeature::PatternMatchingInInstanceof, level)
        }
    } else if record {
        finding(JavaFeature::PatternMatchingInInstanceof, level)
    } else {
        match crate::syntax::first_node(n.children, SyntaxKind::Type) {
            Some(t) => if non_reifiable(t.children) {
                finding(JavaFeature::ReifiableTypesInInstanceof, level)
            } else {
                None
            },
            None => None,
        }
    }
}

/// Whether the first pattern among the elements is of the kind.
pub open spec fn pattern_first(l: List<Element>, kind: SyntaxKind) -> bool
    decreases l,
{
    match l {
        List::Nil => false,
        List::Cons(h, t) => if h.spec_kind() is TypePattern || h.spec_kind() is RecordPattern {
            h.spec_kind() == kind
        } else {
            pattern_first(*t, kind)
        },
    }
}

fn is_pattern_first(l: &List<Element>, kind: SyntaxKind) -> (r: bool)
    ensures
        r == pattern_first(*l, kind),
    decreases l,
{
    match l {
        List::Nil => false,
        List::Cons(h, t) => {
            let k = h.kind();
            if k == SyntaxKind::TypePattern || k == SyntaxKind::RecordPattern {
                k == kind
            } else {
                is_pattern_first(t, kind)
            }
        },
    }
}

fn instanceof_violation(n: &Node, level: JavaLanguageLevel) -> (r: Finding)
    ensures
        r == instanceof_finding(*n, level),
{
    if let Some(pattern) = find_node(&n.children, SyntaxKind::TypePattern) {
        if !is_pattern_first(&n.children, SyntaxKind::RecordPattern) && is_object_type(
            &pattern.children,
        ) {
            match violated(JavaFeature::UnconditionalPatternsInInstanceof, level) {
                Some(f) => Some(f),
                None => violated(JavaFeature::PatternMatchingInInstanceof, level),
            }
        } else {
            violated(JavaFeature::PatternMatchingInInstanceof, level)
        }
    } else if has_kind(&n.children, SyntaxKind::RecordPattern) {
        violated(JavaFeature::PatternMatchingInInstanceof, level)
    } else {
        match find_node(&n.children, SyntaxKind::Type) {
            Some(t) => if is_non_reifiable_type(&t.children) {
                violated(JavaFeature::ReifiableTypesInInstanceof, level)
            } else {
                None
            },
            None => None,
        }
    }
}

/// What a type pattern has against the level. One for a primitive type counts
/// where it is no component of a record pattern.
pub open spec fn type_pattern_finding(
    n: Node,
    around: List<SyntaxKind>,
    level: JavaLanguageLevel,
) -> Finding {
    if !around.has(SyntaxKind::RecordPattern) && primitive_pattern(n.children) {
        finding(JavaFeature::PrimitivePatterns, level)
    } else if around.has(SyntaxKind::SwitchLabel) {
        finding(JavaFeature::PatternSwitch, level)
    } else {
        None
    }
}

fn type_pattern_violation(
    n: &Node,
    around: &List<SyntaxKind>,
    level: JavaLanguageLevel,
) -> (r: Finding)
    ensures
        r == type_pattern_finding(*n, *around, level),
{
    let primitive = match first_type_token(&n.children) {
        Some(t) => is_primitive_kw(t.kind),
        None => false,
    };
    if !around.contains(&SyntaxKind::RecordPattern) && primitive {
        return violated(JavaFeature::PrimitivePatterns, level);
    }
    if around.contains(&SyntaxKind::SwitchLabel) {
        violated(JavaFeature::PatternSwitch, level)
    } else {
        None
    }
}

/// What a `case` label has against the level: a pattern, `null`, or several
/// labels on one case.
pub open spec fn switch_label_finding(n: Node, level: JavaLanguageLevel) -> Finding {
    if crate::syntax::any_of_kind(n.children, SyntaxKind::TypePattern)
        || crate::syntax::any_of_kind(n.children, SyntaxKind::RecordPattern)
        || crate::syntax::any_of_kind(n.children, SyntaxKind::MatchAllPattern) {
        finding(JavaFeature::PatternSwitch, level)
    } else if crate::syntax::any_inside(n.children, SyntaxKind::NullLiteral) {
        finding(JavaFeature::CaseNull, level)
    } else if crate::syntax::any_of_kind(n.children, SyntaxKind::Comma) {
        finding(JavaFeature::SwitchMultipleCaseLabels, level)
    } else {
        None
    }
}

fn switch_label_violation(n: &Node, level: JavaLanguageLevel) -> (r: Finding)
    ensures
        r == switch_label_finding(*n, level),
{
    if has_kind(&n.children, SyntaxKind::TypePattern) || has_kind(
        &n.children,
        SyntaxKind::RecordPattern,
    ) || has_kind(&n.children, SyntaxKind::MatchAllPattern) {
        return violated(JavaFeature::PatternSwitch, level);
    }
    if contains_kind_in(&n.children, SyntaxKind::NullLiteral) {
        return violated(JavaFeature::CaseNull, level);
    }
    if has_kind(&n.children, SyntaxKind::Comma) {
        return violated(JavaFeature::SwitchMultipleCaseLabels, level);
    }
    None
}

/// What a node has against the level. `around` holds the kinds of the nodes
/// around it, innermost first, and `siblings` the children of its parent.
pub open spec fn node_finding(
    n: Node,
    around: List<SyntaxKind>,
    siblings: List<Element>,
    level: JavaLanguageLevel,
) -> Finding {
    match n.kind {
        SyntaxKind::ModuleDecl => finding(JavaFeature::Modules, level),
        SyntaxKind::RecordDecl => finding(JavaFeature::Records, level),
        SyntaxKind::SwitchRule => finding(JavaFeature::SwitchRule, level),
        SyntaxKind::SwitchExpr => finding(JavaFeature::SwitchExpression, level),
        SyntaxKind::YieldStmt => finding(JavaFeature::SwitchExpression, level),
        SyntaxKind::RecordPattern => finding(JavaFeature::RecordPatterns, level),
        SyntaxKind::ModifierList => if crate::syntax::any_token(
            n.children,
            SyntaxKind::Identifier,
            "sealed"@,
        ) {
            finding(JavaFeature::SealedClasses, level)
        } else {
            None
        },
        SyntaxKind::PermitsClause => if !sealed_among(siblings) {
            finding(JavaFeature::SealedClasses, level)
        } else {
            None
        },
        SyntaxKind::Resource => if !crate::syntax::any_of_kind(
            n.children,
            SyntaxKind::LocalVariableDeclaration,
        ) {
            finding(JavaFeature::EffectivelyFinalVariablesInTryWithResources, level)
        } else {
            None
        },
        SyntaxKind::MethodDecl => if private_among(n.children) && body_around(around) == Some(
            SyntaxKind::InterfaceBody,
        ) {
            finding(JavaFeature::PrivateInterfaceMethods, level)
        } else {
            None
        },
        SyntaxKind::NewExpr => if diamond_among(n.children) && crate::syntax::any_of_kind(
            n.children,
            SyntaxKind::ClassBody,
        ) {
            finding(JavaFeature::DiamondWithAnonymousClass, level)
        } else {
            None
        },
        SyntaxKind::LocalVariableDeclaration => if var_declared(n.children) {
            finding(JavaFeature::LocalVariableTypeInference, level)
        } else {
            None
        },
        SyntaxKind::Type => if only_word(n.children, "var"@) {
            if around.has(SyntaxKind::LambdaExpr) {
                finding(JavaFeature::VarSyntaxInImplicitLambdas, level)
            } else {
                finding(JavaFeature::LocalVariableTypeInference, level)
            }
        } else {
            None
        },
        SyntaxKind::SwitchLabel => switch_label_finding(n, level),
        SyntaxKind::TypePattern => type_pattern_finding(n, around, level),
        SyntaxKind::MatchAllPattern => if around.has(SyntaxKind::SwitchLabel) {
            finding(JavaFeature::PatternSwitch, level)
        } else {
            None
        },
        SyntaxKind::InstanceofExpr => instanceof_finding(n, level),
        _ => None,
    }
}

fn node_violation(
    n: &Node,
    around: &List<SyntaxKind>,
    siblings: &List<Element>,
    level: JavaLanguageLevel,
) -> (r: Finding)
    ensures
        r == node_finding(*n, *around, *siblings, level),
{
    match n.kind {
        SyntaxKind::ModuleDecl => violated(JavaFeature::Modules, level),
        SyntaxKind::RecordDecl => violated(JavaFeature::Records, level),
        SyntaxKind::SwitchRule => violated(JavaFeature::SwitchRule, level),
        SyntaxKind::SwitchExpr => violated(JavaFeature::SwitchExpression, level),
        SyntaxKind::YieldStmt => violated(JavaFeature::SwitchExpression, level),
        SyntaxKind::RecordPattern => violated(JavaFeature::RecordPatterns, level),
        SyntaxKind::ModifierList => if has_token(&n.children, SyntaxKind::Identifier, "sealed") {
            violated(JavaFeature::SealedClasses, level)
        } else {
            None
        },
        SyntaxKind::PermitsClause => if !declares_sealed(siblings) {
            violated(JavaFeature::SealedClasses, level)
        } else {
            None
        },
        SyntaxKind::Resource => if !has_kind(&n.children, SyntaxKind::LocalVariableDeclaration) {
            violated(JavaFeature::EffectivelyFinalVariablesInTryWithResources, level)
        } else {
            None
        },
        SyntaxKind::MethodDecl => {
            let in_interface = match nearest_body(around) {
                Some(k) => k == SyntaxKind::InterfaceBody,
                None => false,
            };
            if declares_private(&n.children) && in_interface {
                violated(JavaFeature::PrivateInterfaceMethods, level)
            } else {
                None
            }
        },
        SyntaxKind::NewExpr => if has_diamond(&n.children) && has_kind(
            &n.children,
            SyntaxKind::ClassBody,
        ) {
            violated(JavaFeature::DiamondWithAnonymousClass, level)
        } else {
            None
        },
        SyntaxKind::LocalVariableDeclaration => if declares_var(&n.children) {
            violated(JavaFeature::LocalVariableTypeInference, level)
        } else {
            None
        },
        SyntaxKind::Type => if is_only_word(&n.children, "var") {
            if around.contains(&SyntaxKind::LambdaExpr) {
                violated(JavaFeature::VarSyntaxInImplicitLambdas, level)
            } else {
                violated(JavaFeature::LocalVariableTypeInference, level)
            }
        } else {
            None
        },
        SyntaxKind::SwitchLabel => switch_label_violation(n, level),
        SyntaxKind::TypePattern => type_pattern_violation(n, around, level),
        SyntaxKind::MatchAllPattern => if around.contains(&SyntaxKind::SwitchLabel) {
            violated(JavaFeature::PatternSwitch, level)
        } else {
            None
        },
        SyntaxKind::InstanceofExpr => instanceof_violation(n, level),
        _ => None,
    }
}

/// What an element has against the level.
pub open spec fn element_finding(
    e: Element,
    around: List<SyntaxKind>,
    siblings: List<Element>,
    level: JavaLanguageLevel,
) -> Finding {
    match e {
        Element::Token(t) => match t.kind {
            SyntaxKind::TextBlock => finding(JavaFeature::TextBlocks, level),
            SyntaxKind::Underscore => if underscore_position(around) {
                finding(JavaFeature::UnnamedVariables, level)
            } else {
                None
            },
            _ => None,
        },
        Element::Node(n) => node_finding(n, around, siblings, level),
    }
}

fn violation_of(
    e: &Element,
    around: &List<SyntaxKind>,
    siblings: &List<Element>,
    level: JavaLanguageLevel,
) -> (r: Finding)
    ensures
        r == element_finding(*e, *around, *siblings, level),
{
    match e {
        Element::Token(t) => match t.kind {
            SyntaxKind::TextBlock => violated(JavaFeature::TextBlocks, level),
            SyntaxKind::Underscore => if in_underscore_position(around) {
                violated(JavaFeature::UnnamedVariables, level)
            } else {
                None
            },
            _ => None,
        },
        Element::Node(n) => node_violation(n, around, siblings, level),
    }
}

/// A construct that needs a newer level, at its place.
#[derive(Clone, Copy, Debug, PartialEq, Eq, Structural)]
pub struct LevelReport {
    pub feature: JavaFeature,
    pub violation: Violation,
    pub range: TextRange,
}

/// Whether one of the reports covers the range.
pub open spec fn covered(reports: List<LevelReport>, range: TextRange) -> bool
    decreases reports,
{
    match reports {
        List::Nil => false,
        List::Cons(h, t) => h.range.covers(range) || covered(*t, range),
    }
}

fn is_covered(reports: &List<LevelReport>, range: TextRange) -> (r: bool)
    ensures
        r == covered(*reports, range),
    decreases reports,
{
    match reports {
        List::Nil => false,
        List::Cons(h, t) => h.range.contains_range(range) || is_covered(t, range),
    }
}

/// The reports after one element alone, latest first. An element without text,
/// or inside a reported construct, is not looked at.
pub open spec fn reported_here(
    e: Element,
    around: List<SyntaxKind>,
    siblings: List<Element>,
    level: JavaLanguageLevel,
    out: List<LevelReport>,
) -> List<LevelReport> {
    let range = e.spec_range();
    if range.empty() || covered(out, range) {
        out
    } else {
        match element_finding(e, around, siblings, level) {
            Some((feature, violation)) => List::Cons(
                Box::new(LevelReport { feature, violation, range }),
                Box::new(out),
            ),
            None => out,
        }
    }
}

/// The reports after an element and everything inside it, latest first.
pub open spec fn reported(
    e: Element,
    around: List<SyntaxKind>,
    siblings: List<Element>,
    level: JavaLanguageLevel,
    out: List<LevelReport>,
) -> List<LevelReport>
    decreases e,
{
    let here = reported_here(e, around, siblings, level, out);
    match e {
        Element::Token(_) => here,
        Element::Node(n) => reported_all(
            n.children,
            List::Cons(Box::new(n.kind), Box::new(around)),
            n.children,
            level,
            here,
        ),
    }
}

/// The reports after several elements, latest first.
pub open spec fn reported_all(
    l: List<Element>,
    around: List<SyntaxKind>,
    siblings: List<Element>,
    level: JavaLanguageLevel,
    out: List<LevelReport>,
) -> List<LevelReport>
    decreases l,
{
    match l {
        List::Nil => out,
        List::Cons(h, t) => reported_all(
            *t,
            around,
            siblings,
            level,
            reported(*h, around, siblings, level, out),
        ),
    }
}

fn check_element(
    e: &Element,
    around: &List<SyntaxKind>,
    siblings: &List<Element>,
    level: JavaLanguageLevel,
    out: List<LevelReport>,
) -> (r: List<LevelReport>)
    ensures
        r == reported(*e, *around, *siblings, level, out),
    decreases e,
{
    let range = e.text_range();
    let here = if range.is_empty() || is_covered(&out, range) {
        out
    } else {
        match violation_of(e, around, siblings, level) {
            Some((feature, violation)) => List::cons(
                LevelReport { feature, violation, range },
                out,
            ),
            None => out,
        }
    };
    match e {
        Element::Token(_) => here,
        Element::Node(n) => {
            let inner = List::cons(n.kind, around.copy());
            check_elements(&n.children, &inner, &n.children, level, here)
        },
    }
}

fn check_elements(
    l: &List<Element>,
    around: &List<SyntaxKind>,
    siblings: &List<Element>,
    level: JavaLanguageLevel,
    out: List<LevelReport>,
) -> (r: List<LevelReport>)
    ensures
        r == reported_all(*l, *around, *siblings, level, out),
    decreases l,
{
    match l {
        List::Nil => out,
        List::Cons(h, t) => {
            let out = check_element(h, around, siblings, level, out);
            check_elements(t, around, siblings, level, out)
        },
    }
}

/// The constructs of a file that are newer than its level, in source order. A
/// reported construct hides what is inside it; one that the level allows hides
/// nothing.
pub fn tree_reports(root: &Element, level: JavaLanguageLevel) -> (r: List<LevelReport>)
    ensures
        r == reported(*root, List::Nil, List::Nil, level, List::Nil).rev_onto(List::Nil),
{
    check_element(root, &List::Nil, &List::Nil, level, List::Nil).reverse_onto(List::Nil)
}

/// A report on a construct that needs a newer level, as it is shown.
#[derive(Clone, Copy, Debug, PartialEq, Eq)]
pub struct DeclDiagnostic {
    pub feature: &'static str,
    pub plural: bool,
    pub found: u8,
    pub required: u8,
    pub preview_disabled: bool,
    pub range: TextRange,
}

/// Whether a report is shown as this.
pub open spec fn shown_as(r: LevelReport, level: JavaLanguageLevel, d: DeclDiagnostic) -> bool {
    &&& d.feature@ == r.feature.shown()
    &&& d.plural == r.feature.plural()
    &&& d.found == level.source
    &&& d.required == r.feature.since()
    &&& d.preview_disabled == (r.violation == Violation::PreviewDisabled)
    &&& d.range == r.range
}

/// Whether the reports are shown as these, one by one.
pub open spec fn all_shown_as(
    l: List<LevelReport>,
    level: JavaLanguageLevel,
    out: List<DeclDiagnostic>,
) -> bool
    decreases l,
{
    match (l, out) {
        (List::Nil, List::Nil) => true,
        (List::Cons(r, t), List::Cons(d, rest)) => shown_as(*r, level, *d) && all_shown_as(
            *t,
            level,
            *rest,
        ),
        _ => false,
    }
}

fn show_all(l: &List<LevelReport>, level: JavaLanguageLevel) -> (r: List<DeclDiagnostic>)
    ensures
        all_shown_as(*l, level, r),
    decreases l,
{
    match l {
        List::Nil => List::Nil,
        List::Cons(h, t) => {
            let d = DeclDiagnostic {
                feature: h.feature.display(),
                plural: h.feature.is_plural(),
                found: level.source,
                required: h.feature.source_level(),
                preview_disabled: h.violation == Violation::PreviewDisabled,
                range: h.range,
            };
            List::cons(d, show_all(t, level))
        },
    }
}

/// The reports on a file: none where its level is not known, and otherwise on
/// the constructs of its Java syntax that are newer.
pub open spec fn file_reports<D: TyDatabase, W: Workspace>(db: &D, ws: &W, file: u32) -> List<
    LevelReport,
> {
    match (ws.level_of(file), ws.source_of(file)) {
        (Some(level), SourceFile::Java(root)) => if db.tree_of(file).language
            == LanguageKind::Unknown {
            List::Nil
        } else {
            reported(root, List::Nil, List::Nil, level, List::Nil).rev_onto(List::Nil)
        },
        _ => List::Nil,
    }
}

/// The constructs of a file that are newer than the level it is compiled at.
pub fn level_diagnostics<D: TyDatabase, W: Workspace>(db: &D, ws: &W, file: u32) -> (r: List<
    DeclDiagnostic,
>)
    ensures
        match ws.level_of(file) {
            Some(level) => all_shown_as(file_reports(db, ws, file), level, r),
            None => r is Nil,
        },
{
    let level = match ws.language_level_for_file(file) {
        Some(level) => level,
        None => {
            return List::Nil;
        },
    };
    let tree = db.file_item_tree(file);
    match range_ctx(ws, file, tree.language) {
        Some(SourceFile::Java(root)) => show_all(&tree_reports(root, level), level),
        _ => List::Nil,
    }
}

/// A construct that a level allows is allowed by every newer level, and by the
/// same level with preview features enabled.
pub proof fn law_newer_levels_allow(
    f: JavaFeature,
    old_level: JavaLanguageLevel,
    new_level: JavaLanguageLevel,
)
    requires
        f.violates(old_level) is None,
        new_level.source >= old_level.source,
        old_level.preview ==> new_level.preview,
    ensures
        f.violates(new_level) is None,
{
}

/// No report lies inside an earlier one.
pub open spec fn apart(reports: List<LevelReport>) -> bool
    decreases reports,
{
    match reports {
        List::Nil => true,
        List::Cons(h, t) => !covered(*t, h.range) && apart(*t),
    }
}

/// The reports of a tree are apart: none lies inside an earlier one.
pub proof fn law_reports_apart(
    e: Element,
    around: List<SyntaxKind>,
    siblings: List<Element>,
    level: JavaLanguageLevel,
    out: List<LevelReport>,
)
    requires
        apart(out),
    ensures
        apart(reported(e, around, siblings, level, out)),
    decreases e,
{
    let here = reported_here(e, around, siblings, level, out);
    if let Element::Node(n) = e {
        lemma_all_apart(
            n.children,
            List::Cons(Box::new(n.kind), Box::new(around)),
            n.children,
            level,
            here,
        );
    }
}

proof fn lemma_all_apart(
    l: List<Element>,
    around: List<SyntaxKind>,
    siblings: List<Element>,
    level: JavaLanguageLevel,
    out: List<LevelReport>,
)
    requires
        apart(out),
    ensures
        apart(reported_all(l, around, siblings, level, out)),
    decreases l,
{
    if let List::Cons(h, t) = l {
        law_reports_apart(*h, around, siblings, level, out);
        lemma_all_apart(*t, around, siblings, level, reported(*h, around, siblings, level, out));
    }
}

/// A level that allows every construct reports nothing.
pub proof fn law_newest_level_is_silent(
    e: Element,
    around: List<SyntaxKind>,
    siblings: List<Element>,
    level: JavaLanguageLevel,
    out: List<LevelReport>,
)
    requires
        level.source >= 23,
        level.preview,
    ensures
        reported(e, around, siblings, level, out) == out,
    decreases e,
{
    if let Element::Node(n) = e {
        lemma_newest_all(
            n.children,
            List::Cons(Box::new(n.kind), Box::new(around)),
            n.children,
            level,
            out,
        );
    }
}

proof fn lemma_newest_all(
    l: List<Element>,
    around: List<SyntaxKind>,
    siblings: List<Element>,
    level: JavaLanguageLevel,
    out: List<LevelReport>,
)
    requires
        level.source >= 23,
        level.preview,
    ensures
        reported_all(l, around, siblings, level, out) == out,
    decreases l,
{
    if let List::Cons(h, t) = l {
        law_newest_level_is_silent(*h, around, siblings, level, out);
        lemma_newest_all(*t, around, siblings, level, out);
    }
}

/// Whether each construct of a tree that violates the level lies in a report.
pub open spec fn accounted(
    e: Element,
    around: List<SyntaxKind>,
    siblings: List<Element>,
    level: JavaLanguageLevel,
    out: List<LevelReport>,
) -> bool
    decreases e,
{
    &&& e.spec_range().empty() || element_finding(e, around, siblings, level) is None || covered(
        out,
        e.spec_range(),
    )
    &&& match e {
        Element::Token(_) => true,
        Element::Node(n) => accounted_all(
            n.children,
            List::Cons(Box::new(n.kind), Box::new(around)),
            n.children,
            level,
            out,
        ),
    }
}

/// Whether each construct of the trees that violates the level lies in a
/// report.
pub open spec fn accounted_all(
    l: List<Element>,
    around: List<SyntaxKind>,
    siblings: List<Element>,
    level: JavaLanguageLevel,
    out: List<LevelReport>,
) -> bool
    decreases l,
{
    match l {
        List::Nil => true,
        List::Cons(h, t) => accounted(*h, around, siblings, level, out) && accounted_all(
            *t,
            around,
            siblings,
            level,
            out,
        ),
    }
}

/// Whether what lies in one of the reports `a` lies in one of `b`.
pub open spec fn covers_more(b: List<LevelReport>, a: List<LevelReport>) -> bool {
    forall|r: TextRange| covered(a, r) ==> #[trigger] covered(b, r)
}

proof fn lemma_reported_covers(
    e: Element,
    around: List<SyntaxKind>,
    siblings: List<Element>,
    level: JavaLanguageLevel,
    out: List<LevelReport>,
)
    ensures
        covers_more(reported(e, around, siblings, level, out), out),
    decreases e,
{
    let here = reported_here(e, around, siblings, level, out);
    assert(covers_more(here, out)) by {
        reveal_with_fuel(covered, 2);
    }
    if let Element::Node(n) = e {
        let inner = List::Cons(Box::new(n.kind), Box::new(around));
        lemma_all_cover(n.children, inner, n.children, level, here);
        let after = reported_all(n.children, inner, n.children, level, here);
        assert forall|r: TextRange| covered(out, r) implies #[trigger] covered(after, r) by {
            assert(covered(here, r));
        }
    }
}

proof fn lemma_all_cover(
    l: List<Element>,
    around: List<SyntaxKind>,
    siblings: List<Element>,
    level: JavaLanguageLevel,
    out: List<LevelReport>,
)
    ensures
        covers_more(reported_all(l, around, siblings, level, out), out),
    decreases l,
{
    if let List::Cons(h, t) = l {
        let first = reported(*h, around, siblings, level, out);
        lemma_reported_covers(*h, around, siblings, level, out);
        lemma_all_cover(*t, around, siblings, level, first);
        let after = reported_all(l, around, siblings, level, out);
        assert forall|r: TextRange| covered(out, r) implies #[trigger] covered(after, r) by {
            assert(covered(first, r));
        }
    }
}

proof fn lemma_accounted_grows(
    e: Element,
    around: List<SyntaxKind>,
    siblings: List<Element>,
    level: JavaLanguageLevel,
    a: List<LevelReport>,
    b: List<LevelReport>,
)
    requires
        accounted(e, around, siblings, level, a),
        covers_more(b, a),
    ensures
        accounted(e, around, siblings, level, b),
    decreases e,
{
    assert(covered(a, e.spec_range()) ==> covered(b, e.spec_range()));
    if let Element::Node(n) = e {
        lemma_all_accounted_grow(
            n.children,
            List::Cons(Box::new(n.kind), Box::new(around)),
            n.children,
            level,
            a,
            b,
        );
    }
}

proof fn lemma_all_accounted_grow(
    l: List<Element>,
    around: List<SyntaxKind>,
    siblings: List<Element>,
    level: JavaLanguageLevel,
    a: List<LevelReport>,
    b: List<LevelReport>,
)
    requires
        accounted_all(l, around, siblings, level, a),
        covers_more(b, a),
    ensures
        accounted_all(l, around, siblings, level, b),
    decreases l,
{
    if let List::Cons(h, t) = l {
        lemma_accounted_grows(*h, around, siblings, level, a, b);
        lemma_all_accounted_grow(*t, around, siblings, level, a, b);
    }
}

/// Every construct that is newer than the level is reported, or lies in a
/// construct that is.
pub proof fn law_violations_are_reported(
    e: Element,
    around: List<SyntaxKind>,
    siblings: List<Element>,
    level: JavaLanguageLevel,
    out: List<LevelReport>,
)
    ensures
        accounted(e, around, siblings, level, reported(e, around, siblings, level, out)),
    decreases e,
{
    let here = reported_here(e, around, siblings, level, out);
    let after = reported(e, around, siblings, level, out);
    reveal_with_fuel(covered, 2);
    if let Element::Node(n) = e {
        let inner = List::Cons(Box::new(n.kind), Box::new(around));
        lemma_all_cover(n.children, inner, n.children, level, here);
        assert(covered(here, e.spec_range()) ==> covered(after, e.spec_range()));
        lemma_all_accounted(n.children, inner, n.children, level, here);
    }
}

proof fn lemma_all_accounted(
    l: List<Element>,
    around: List<SyntaxKind>,
    siblings: List<Element>,
    level: JavaLanguageLevel,
    out: List<LevelReport>,
)
    ensures
        accounted_all(l, around, siblings, level, reported_all(l, around, siblings, level, out)),
    decreases l,
{
    if let List::Cons(h, t) = l {
        let first = reported(*h, around, siblings, level, out);
        law_violations_are_reported(*h, around, siblings, level, out);
        lemma_all_cover(*t, around, siblings, level, first);
        lemma_accounted_grows(
            *h,
            around,
            siblings,
            level,
            first,
            reported_all(*t, around, siblings, level, first),
        );
        lemma_all_accounted(*t, around, siblings, level, first);
    }
}

/// Whether a tree is laid out in source order: what a node is made of lies in
/// its range, one behind the other.
pub open spec fn laid_out(e: Element) -> bool
    decreases e,
{
    e.spec_range().start <= e.spec_range().end && match e {
        Element::Token(_) => true,
        Element::Node(n) => all_laid_out(n.children, n.range.start, n.range.end),
    }
}

/// Whether elements lie one behind the other from `start` to `end`.
pub open spec fn all_laid_out(l: List<Element>, start: u32, end: u32) -> bool
    decreases l,
{
    match l {
        List::Nil => true,
        List::Cons(h, t) => start <= h.spec_range().start && h.spec_range().end <= end && laid_out(
            *h,
        ) && all_laid_out(*t, h.spec_range().end, end),
    }
}

/// Whether every report ends at or before a position.
pub open spec fn all_before(l: List<LevelReport>, at: u32) -> bool
    decreases l,
{
    match l {
        List::Nil => true,
        List::Cons(h, t) => h.range.end <= at && all_before(*t, at),
    }
}

/// Whether reports, latest first, have text and lie one before the other.
pub open spec fn falling(l: List<LevelReport>) -> bool
    decreases l,
{
    match l {
        List::Nil => true,
        List::Cons(h, t) => h.range.start < h.range.end && all_before(*t, h.range.start)
            && falling(*t),
    }
}

/// Whether every report begins at or behind a position.
pub open spec fn all_behind(l: List<LevelReport>, at: u32) -> bool
    decreases l,
{
    match l {
        List::Nil => true,
        List::Cons(h, t) => at <= h.range.start && all_behind(*t, at),
    }
}

/// Whether reports have text and lie one behind the other.
pub open spec fn rising(l: List<LevelReport>) -> bool
    decreases l,
{
    match l {
        List::Nil => true,
        List::Cons(h, t) => h.range.start < h.range.end && all_behind(*t, h.range.end) && rising(
            *t,
        ),
    }
}

proof fn lemma_before_later(l: List<LevelReport>, a: u32, b: u32)
    requires
        all_before(l, a),
        a <= b,
    ensures
        all_before(l, b),
    decreases l,
{
    if let List::Cons(_, t) = l {
        lemma_before_later(*t, a, b);
    }
}

proof fn lemma_covered_inside(l: List<LevelReport>, outer: TextRange, inner: TextRange)
    requires
        covered(l, outer),
        outer.covers(inner),
    ensures
        covered(l, inner),
    decreases l,
{
    if let List::Cons(h, t) = l {
        if !h.range.covers(outer) {
            lemma_covered_inside(*t, outer, inner);
        }
    }
}

proof fn lemma_nothing_inside(
    e: Element,
    around: List<SyntaxKind>,
    siblings: List<Element>,
    level: JavaLanguageLevel,
    out: List<LevelReport>,
)
    requires
        laid_out(e),
        e.spec_range().empty() || covered(out, e.spec_range()),
    ensures
        reported(e, around, siblings, level, out) == out,
    decreases e,
{
    if let Element::Node(n) = e {
        lemma_nothing_inside_all(
            n.children,
            List::Cons(Box::new(n.kind), Box::new(around)),
            n.children,
            level,
            out,
            n.range,
            n.range.start,
        );
    }
}

proof fn lemma_nothing_inside_all(
    l: List<Element>,
    around: List<SyntaxKind>,
    siblings: List<Element>,
    level: JavaLanguageLevel,
    out: List<LevelReport>,
    range: TextRange,
    start: u32,
)
    requires
        all_laid_out(l, start, range.end),
        range.start <= start,
        range.empty() || covered(out, range),
    ensures
        reported_all(l, around, siblings, level, out) == out,
    decreases l,
{
    if let List::Cons(h, t) = l {
        if !range.empty() {
            lemma_covered_inside(out, range, h.spec_range());
        }
        assert(laid_out(*h));
        assert(h.spec_range().start <= h.spec_range().end);
        lemma_nothing_inside(*h, around, siblings, level, out);
        lemma_nothing_inside_all(
            *t,
            around,
            siblings,
            level,
            out,
            range,
            h.spec_range().end,
        );
    }
}

proof fn lemma_falling(
    e: Element,
    around: List<SyntaxKind>,
    siblings: List<Element>,
    level: JavaLanguageLevel,
    out: List<LevelReport>,
)
    requires
        laid_out(e),
        falling(out),
        all_before(out, e.spec_range().start),
    ensures
        falling(reported(e, around, siblings, level, out)),
        all_before(reported(e, around, siblings, level, out), e.spec_range().end),
    decreases e,
{
    let range = e.spec_range();
    lemma_before_later(out, range.start, range.end);
    if range.empty() || covered(out, range) {
        lemma_nothing_inside(e, around, siblings, level, out);
    } else {
        let here = reported_here(e, around, siblings, level, out);
        if let Element::Node(n) = e {
            let inner = List::Cons(Box::new(n.kind), Box::new(around));
            if element_finding(e, around, siblings, level) is Some {
                lemma_nothing_inside_all(
                    n.children,
                    inner,
                    n.children,
                    level,
                    here,
                    range,
                    range.start,
                );
            } else {
                lemma_falling_all(
                    n.children,
                    inner,
                    n.children,
                    level,
                    here,
                    range.start,
                    range.end,
                );
            }
        }
    }
}

proof fn lemma_falling_all(
    l: List<Element>,
    around: List<SyntaxKind>,
    siblings: List<Element>,
    level: JavaLanguageLevel,
    out: List<LevelReport>,
    start: u32,
    end: u32,
)
    requires
        all_laid_out(l, start, end),
        start <= end,
        falling(out),
        all_before(out, start),
    ensures
        falling(reported_all(l, around, siblings, level, out)),
        all_before(reported_all(l, around, siblings, level, out), end),
    decreases l,
{
    lemma_before_later(out, start, end);
    if let List::Cons(h, t) = l {
        lemma_before_later(out, start, h.spec_range().start);
        lemma_falling(*h, around, siblings, level, out);
        lemma_falling_all(
            *t,
            around,
            siblings,
            level,
            reported(*h, around, siblings, level, out),
            h.spec_range().end,
            end,
        );
    }
}

proof fn lemma_behind_earlier(l: List<LevelReport>, a: u32, b: u32)
    requires
        all_behind(l, b),
        a <= b,
    ensures
        all_behind(l, a),
    decreases l,
{
    if let List::Cons(_, t) = l {
        lemma_behind_earlier(*t, a, b);
    }
}

proof fn lemma_turned(l: List<LevelReport>, acc: List<LevelReport>, at: u32)
    requires
        falling(l),
        rising(acc),
        all_before(l, at),
        all_behind(acc, at),
    ensures
        rising(l.rev_onto(acc)),
    decreases l,
{
    if let List::Cons(h, t) = l {
        lemma_behind_earlier(acc, h.range.end, at);
        lemma_behind_earlier(acc, h.range.start, at);
        lemma_turned(*t, List::Cons(h, Box::new(acc)), h.range.start);
    }
}

/// The reports on a tree that is laid out in source order come in source order
/// and are disjoint: each has text, and begins where the one before it has
/// ended.
pub proof fn law_reports_in_source_order(root: Element, level: JavaLanguageLevel)
    requires
        laid_out(root),
    ensures
        rising(reported(root, List::Nil, List::Nil, level, List::Nil).rev_onto(List::Nil)),
{
    lemma_falling(root, List::Nil, List::Nil, level, List::Nil);
    lemma_turned(
        reported(root, List::Nil, List::Nil, level, List::Nil),
        List::Nil,
        root.spec_range().end,
    );
}

/// Whether each report says how its construct violates the level.
pub open spec fn all_violate(l: List<LevelReport>, level: JavaLanguageLevel) -> bool
    decreases l,
{
    match l {
        List::Nil => true,
        List::Cons(h, t) => h.feature.violates(level) == Some(h.violation) && all_violate(
            *t,
            level,
        ),
    }
}

/// Only violations are reported: a construct that is a preview feature while
/// those are not enabled, or one that is newer than the level.
pub proof fn law_reports_are_violations(
    e: Element,
    around: List<SyntaxKind>,
    siblings: List<Element>,
    level: JavaLanguageLevel,
    out: List<LevelReport>,
)
    requires
        all_violate(out, level),
    ensures
        all_violate(reported(e, around, siblings, level, out), level),
    decreases e,
{
    let here = reported_here(e, around, siblings, level, out);
    if let Element::Node(n) = e {
        lemma_all_violate(
            n.children,
            List::Cons(Box::new(n.kind), Box::new(around)),
            n.children,
            level,
            here,
        );
    }
}

proof fn lemma_all_violate(
    l: List<Element>,
    around: List<SyntaxKind>,
    siblings: List<Element>,
    level: JavaLanguageLevel,
    out: List<LevelReport>,
)
    requires
        all_violate(out, level),
    ensures
        all_violate(reported_all(l, around, siblings, level, out), level),
    decreases l,
{
    if let List::Cons(h, t) = l {
        law_reports_are_violations(*h, around, siblings, level, out);
        lemma_all_violate(*t, around, siblings, level, reported(*h, around, siblings, level, out));
    }
}

proof fn lemma_turned_violate(
    l: List<LevelReport>,
    acc: List<LevelReport>,
    level: JavaLanguageLevel,
)
    requires
        all_violate(l, level),
        all_violate(acc, level),
    ensures
        all_violate(l.rev_onto(acc), level),
    decreases l,
{
    if let List::Cons(h, t) = l {
        lemma_turned_violate(*t, List::Cons(h, Box::new(acc)), level);
    }
}

/// The reports on a file: none without a level; otherwise each is of a
/// construct that violates the level, and where the syntax tree is laid out in
/// source order they come in that order and are disjoint.
pub proof fn law_file_reports<D: TyDatabase, W: Workspace>(db: &D, ws: &W, file: u32)
    requires
        ws.source_of(file) matches SourceFile::Java(root) ==> laid_out(root),
    ensures
        match ws.level_of(file) {
            Some(level) => rising(file_reports(db, ws, file)) && all_violate(
                file_reports(db, ws, file),
                level,
            ),
            None => file_reports(db, ws, file) is Nil,
        },
{
    if let Some(level) = ws.level_of(file) {
        if let SourceFile::Java(root) = ws.source_of(file) {
            let found = reported(root, List::Nil, List::Nil, level, List::Nil);
            law_reports_in_source_order(root, level);
            law_reports_are_violations(root, List::Nil, List::Nil, level, List::Nil);
            lemma_turned_violate(found, List::Nil, level);
        }
    }
}

} // verus!
