//! References that do not resolve: the types and annotations of declarations,
//! and the imports of a file.
use crate::db::TyDatabase;
use crate::items::{
    import_split, ImportItem, ItemData, ItemTree, LanguageKind, Param, Provide, RefName, TextRange,
    TypeParam, TypeRef,
};
use crate::list::{lemma_plus_has, Data, List};
use crate::names::{law_names_are_unique, same_text, Name, Names};
use crate::raw_type::{is_raw_reference, raw_reference};
use crate::release_api::{
    class_of_reference, class_releases, member_of_owner, member_releases, ReleaseApi,
};
use crate::text::{
    last_dot, lemma_last_dot, lemma_simple_behind_dot, lemma_simple_start, segments, simple_start,
    simple_text, split_dots, texts_of,
};
use crate::ty::{SourceClass, Ty};
use crate::workspace::{Deprecation, NameResolution, ResolutionScope, Workspace};
use vstd::prelude::*;
use vstd::string::StringExecFns;

verus! {

/// A report on a declaration or an import.
#[allow(inconsistent_fields)]
#[derive(Debug, PartialEq, Eq)]
pub enum DeclDiagnostic {
    DuplicatePackage { package: Name, range: Option<TextRange> },
    CannotResolveType { name: Name, range: Option<TextRange> },
    AmbiguousName { name: Name, range: Option<TextRange> },
    ModuleNotAccessible { name: Name, range: Option<TextRange> },
    NotSupportedInRelease { api: ReleaseApi, found: u8, added: u8, range: Option<TextRange> },
    RawTypeUse { ty: Ty, range: Option<TextRange> },
    WrongTypeArgumentCount { ty: Ty, expected: u32, range: Option<TextRange> },
    DeprecatedUse { api: Name, deprecation: Deprecation, range: Option<TextRange> },
    UnresolvedImport { name: Name, range: Option<TextRange> },
    UnresolvedImportPackage { name: Name, range: Option<TextRange> },
    UnresolvedStaticImport { name: Name, range: Option<TextRange> },
    ConflictingImport { name: Name, range: Option<TextRange> },
}

/// Reports in order.
pub type Reports = List<DeclDiagnostic>;

/// One report.
pub open spec fn one(d: DeclDiagnostic) -> Reports {
    List::Cons(Box::new(d), Box::new(List::Nil))
}

/// Whether names can be looked up: the project is loaded, and there is a
/// library to look into.
pub open spec fn answerable<W: Workspace>(ws: &W) -> bool {
    ws.loaded() && match ws.scope() {
        ResolutionScope::SourceSet(_) => true,
        ResolutionScope::Classpath(l) => l != List::<u32>::Nil,
        ResolutionScope::JdkBuiltins => ws.builtins() != List::<u32>::Nil,
    }
}

/// Whether names can be looked up.
pub fn can_resolve<W: Workspace>(ws: &W) -> (r: bool)
    ensures
        r == answerable(ws),
{
    ws.is_loaded() && match ws.resolution_scope() {
        ResolutionScope::SourceSet(_) => true,
        ResolutionScope::Classpath(l) => !l.is_empty(),
        ResolutionScope::JdkBuiltins => !ws.jdk_builtin_libraries().is_empty(),
    }
}

/// What is wrong with a name in a reference.
#[derive(Clone, Copy, Debug, PartialEq, Eq)]
pub enum TypeRefDiag {
    /// The name denotes nothing.
    CannotResolve { name: Name, range: Option<TextRange> },
    /// The name denotes more than one class.
    Ambiguous { name: Name, range: Option<TextRange> },
    /// The name denotes a class that the module does not see.
    ModuleNotAccessible { name: Name, range: Option<TextRange> },
    /// The release has no such class.
    NotSupportedInRelease { name: Name, range: Option<TextRange>, found: u8, added: u8 },
}

/// What is wrong with a name, where something is.
pub open spec fn reference_issue<W: Workspace>(
    ws: &W,
    file: u32,
    item: u32,
    reference: RefName,
) -> Option<TypeRefDiag> {
    let (name, range) = (reference.name, reference.range);
    match ws.name_meaning(file, item, name) {
        NameResolution::TypeVar => None,
        NameResolution::Resolved(class) => match class_releases(ws, class) {
            Some(releases) => Some(
                TypeRefDiag::NotSupportedInRelease {
                    name: class,
                    range,
                    found: releases.found,
                    added: releases.added,
                },
            ),
            None => None,
        },
        NameResolution::Ambiguous => Some(TypeRefDiag::Ambiguous { name, range }),
        NameResolution::NotAccessible => Some(TypeRefDiag::ModuleNotAccessible { name, range }),
        NameResolution::Unresolved => Some(TypeRefDiag::CannotResolve { name, range }),
    }
}

/// What is wrong with a name.
fn check_reference<W: Workspace>(ws: &W, file: u32, item: u32, reference: RefName) -> (r: Option<
    TypeRefDiag,
>)
    ensures
        r == reference_issue(ws, file, item, reference),
{
    let name = reference.name;
    let range = reference.range;
    match ws.resolve_name_checked(file, item, name) {
        NameResolution::TypeVar => None,
        NameResolution::Resolved(class) => match class_of_reference(ws, class) {
            Some(releases) => Some(
                TypeRefDiag::NotSupportedInRelease {
                    name: class,
                    range,
                    found: releases.found,
                    added: releases.added,
                },
            ),
            None => None,
        },
        NameResolution::Ambiguous => Some(TypeRefDiag::Ambiguous { name, range }),
        NameResolution::NotAccessible => Some(TypeRefDiag::ModuleNotAccessible { name, range }),
        NameResolution::Unresolved => Some(TypeRefDiag::CannotResolve { name, range }),
    }
}

/// What is wrong with the names, in order.
pub open spec fn issues<W: Workspace>(ws: &W, file: u32, item: u32, l: List<RefName>) -> List<
    TypeRefDiag,
>
    decreases l,
{
    match l {
        List::Nil => List::Nil,
        List::Cons(h, t) => match reference_issue(ws, file, item, *h) {
            Some(issue) => List::Cons(Box::new(issue), Box::new(issues(ws, file, item, *t))),
            None => issues(ws, file, item, *t),
        },
    }
}

fn check_references<W: Workspace>(ws: &W, file: u32, item: u32, l: &List<RefName>) -> (r: List<
    TypeRefDiag,
>)
    ensures
        r == issues(ws, file, item, *l),
    decreases l,
{
    match l {
        List::Nil => List::Nil,
        List::Cons(h, t) => {
            let rest = check_references(ws, file, item, t);
            match check_reference(ws, file, item, **h) {
                Some(issue) => List::cons(issue, rest),
                None => rest,
            }
        },
    }
}

/// What is wrong with the names of a written type in a body: nothing, as long
/// as names cannot be looked up.
pub fn check_spanned<W: Workspace>(ws: &W, file: u32, item: u32, ty: &TypeRef) -> (r: List<
    TypeRefDiag,
>)
    ensures
        r == (if answerable(ws) {
            issues(ws, file, item, ty.refs)
        } else {
            List::Nil
        }),
{
    if !can_resolve(ws) {
        return List::Nil;
    }
    check_references(ws, file, item, &ty.refs)
}

/// A use of a deprecated class.
#[derive(Clone, Copy, Debug, PartialEq, Eq)]
pub struct DeprecatedReference {
    pub api: Name,
    pub deprecation: Deprecation,
    pub range: Option<TextRange>,
}

/// The deprecated classes as uses at a place.
pub open spec fn uses_at(l: List<(Deprecation, Name)>, range: Option<TextRange>) -> List<
    DeprecatedReference,
>
    decreases l,
{
    match l {
        List::Nil => List::Nil,
        List::Cons(h, t) => List::Cons(
            Box::new(DeprecatedReference { api: h.1, deprecation: h.0, range }),
            Box::new(uses_at(*t, range)),
        ),
    }
}

/// The deprecated classes that the names denote.
pub open spec fn deprecated_uses<W: Workspace>(
    ws: &W,
    file: u32,
    item: u32,
    l: List<RefName>,
) -> List<DeprecatedReference>
    decreases l,
{
    match l {
        List::Nil => List::Nil,
        List::Cons(h, t) => (match ws.name_meaning(file, item, h.name) {
            NameResolution::Resolved(class) => uses_at(ws.deprecations(class), h.range),
            _ => List::Nil,
        }).plus(deprecated_uses(ws, file, item, *t)),
    }
}

fn at_place(l: &List<(Deprecation, Name)>, range: Option<TextRange>) -> (r: List<
    DeprecatedReference,
>)
    ensures
        r == uses_at(*l, range),
    decreases l,
{
    match l {
        List::Nil => List::Nil,
        List::Cons(h, t) => List::cons(
            DeprecatedReference { api: h.1, deprecation: h.0, range },
            at_place(t, range),
        ),
    }
}

fn collect_deprecated<W: Workspace>(ws: &W, file: u32, item: u32, l: &List<RefName>) -> (r: List<
    DeprecatedReference,
>)
    ensures
        r == deprecated_uses(ws, file, item, *l),
    decreases l,
{
    match l {
        List::Nil => List::Nil,
        List::Cons(h, t) => {
            let here = match ws.resolve_name_checked(file, item, h.name) {
                NameResolution::Resolved(class) => at_place(&ws.class_hits(class), h.range),
                _ => List::Nil,
            };
            here.append(collect_deprecated(ws, file, item, t))
        },
    }
}

/// The deprecated classes that the names of a written type denote: for each
/// name the class and the classes around it.
pub fn deprecation_hits<W: Workspace>(ws: &W, file: u32, item: u32, ty: &TypeRef) -> (r: List<
    DeprecatedReference,
>)
    ensures
        r == (if answerable(ws) {
            deprecated_uses(ws, file, item, ty.refs)
        } else {
            List::Nil
        }),
{
    if !can_resolve(ws) {
        return List::Nil;
    }
    collect_deprecated(ws, file, item, &ty.refs)
}

/// The bounds of the type parameters.
pub open spec fn bounds_of(l: List<TypeParam>) -> List<TypeRef>
    decreases l,
{
    match l {
        List::Nil => List::Nil,
        List::Cons(h, t) => h.bounds.plus(bounds_of(*t)),
    }
}

fn collect_params(l: &List<TypeParam>) -> (r: List<TypeRef>)
    ensures
        r == bounds_of(*l),
    decreases l,
{
    match l {
        List::Nil => List::Nil,
        List::Cons(h, t) => h.bounds.copy().append(collect_params(t)),
    }
}

/// The types of the parameters.
pub open spec fn types_of(l: List<Param>) -> List<TypeRef>
    decreases l,
{
    match l {
        List::Nil => List::Nil,
        List::Cons(h, t) => List::Cons(Box::new(h.ty), Box::new(types_of(*t))),
    }
}

fn collect_types(l: &List<Param>) -> (r: List<TypeRef>)
    ensures
        r == types_of(*l),
    decreases l,
{
    match l {
        List::Nil => List::Nil,
        List::Cons(h, t) => List::cons(h.ty.copy(), collect_types(t)),
    }
}

/// The services and implementations of the directives.
pub open spec fn provided(l: List<Provide>) -> List<TypeRef>
    decreases l,
{
    match l {
        List::Nil => List::Nil,
        List::Cons(h, t) => List::Cons(
            Box::new(h.service),
            Box::new(h.implementations.plus(provided(*t))),
        ),
    }
}

fn collect_provided(l: &List<Provide>) -> (r: List<TypeRef>)
    ensures
        r == provided(*l),
    decreases l,
{
    match l {
        List::Nil => List::Nil,
        List::Cons(h, t) => List::cons(
            h.service.copy(),
            h.implementations.copy().append(collect_provided(t)),
        ),
    }
}

/// A type where there is one.
pub open spec fn maybe(t: Option<TypeRef>) -> List<TypeRef> {
    match t {
        Some(t) => List::Cons(Box::new(t), Box::new(List::Nil)),
        None => List::Nil,
    }
}

fn collect_maybe(t: &Option<TypeRef>) -> (r: List<TypeRef>)
    ensures
        r == maybe(*t),
{
    match t {
        Some(t) => List::cons(t.copy(), List::Nil),
        None => List::Nil,
    }
}

/// The written types of a declaration.
pub open spec fn written_types(data: ItemData) -> List<TypeRef> {
    match data {
        ItemData::Class(d) => maybe(d.super_class).plus(d.interfaces).plus(
            bounds_of(d.type_params),
        ),
        ItemData::Interface(d) => maybe(d.super_class).plus(d.interfaces).plus(
            bounds_of(d.type_params),
        ),
        ItemData::Enum(d) => d.interfaces,
        ItemData::Record(d) => d.interfaces.plus(types_of(d.components)).plus(
            bounds_of(d.type_params),
        ),
        ItemData::Annotation(_) => List::Nil,
        ItemData::Module(d) => d.uses.plus(provided(d.provides)),
        ItemData::Method(d) => bounds_of(d.type_params).plus(types_of(d.params)).plus(
            maybe(d.ret),
        ).plus(d.throws),
        ItemData::Field(d) => List::Cons(Box::new(d.ty), Box::new(List::Nil)),
        ItemData::EnumConstant { name: _, body: _ } => List::Nil,
        ItemData::StaticInit { body: _ } => List::Nil,
        ItemData::InstanceInit { body: _ } => List::Nil,
    }
}

/// The written types of a declaration: supertypes, bounds, types of fields,
/// parameters and components, return and exception types, and the types of the
/// directives of a module.
pub fn item_type_refs(data: &ItemData) -> (r: List<TypeRef>)
    ensures
        r == written_types(*data),
{
    match data {
        ItemData::Class(d) => collect_maybe(&d.super_class).append(d.interfaces.copy()).append(
            collect_params(&d.type_params),
        ),
        ItemData::Interface(d) => collect_maybe(&d.super_class).append(
            d.interfaces.copy(),
        ).append(collect_params(&d.type_params)),
        ItemData::Enum(d) => d.interfaces.copy(),
        ItemData::Record(d) => d.interfaces.copy().append(collect_types(&d.components)).append(
            collect_params(&d.type_params),
        ),
        ItemData::Annotation(_) => List::Nil,
        ItemData::Module(d) => d.uses.copy().append(collect_provided(&d.provides)),
        ItemData::Method(d) => collect_params(&d.type_params).append(
            collect_types(&d.params),
        ).append(collect_maybe(&d.ret)).append(d.throws.copy()),
        ItemData::Field(d) => List::cons(d.ty.copy(), List::Nil),
        ItemData::EnumConstant { name: _, body: _ } => List::Nil,
        ItemData::StaticInit { body: _ } => List::Nil,
        ItemData::InstanceInit { body: _ } => List::Nil,
    }
}

/// The annotations of the type parameters.
pub open spec fn param_annotations(l: List<TypeParam>) -> List<RefName>
    decreases l,
{
    match l {
        List::Nil => List::Nil,
        List::Cons(h, t) => h.annotations.plus(param_annotations(*t)),
    }
}

fn collect_param_annotations(l: &List<TypeParam>) -> (r: List<RefName>)
    ensures
        r == param_annotations(*l),
    decreases l,
{
    match l {
        List::Nil => List::Nil,
        List::Cons(h, t) => h.annotations.copy().append(collect_param_annotations(t)),
    }
}

/// The annotations of the parameters.
pub open spec fn formal_annotations(l: List<Param>) -> List<RefName>
    decreases l,
{
    match l {
        List::Nil => List::Nil,
        List::Cons(h, t) => h.annotations.plus(formal_annotations(*t)),
    }
}

fn collect_formal_annotations(l: &List<Param>) -> (r: List<RefName>)
    ensures
        r == formal_annotations(*l),
    decreases l,
{
    match l {
        List::Nil => List::Nil,
        List::Cons(h, t) => h.annotations.copy().append(collect_formal_annotations(t)),
    }
}

/// The annotations of a declaration.
pub open spec fn written_annotations(data: ItemData) -> List<RefName> {
    match data {
        ItemData::Class(d) => d.annotations.plus(param_annotations(d.type_params)),
        ItemData::Interface(d) => d.annotations.plus(param_annotations(d.type_params)),
        ItemData::Enum(d) => d.annotations,
        ItemData::Record(d) => d.annotations.plus(param_annotations(d.type_params)).plus(
            formal_annotations(d.components),
        ),
        ItemData::Annotation(d) => d.annotations,
        ItemData::Module(d) => d.annotations,
        ItemData::Method(d) => d.annotations.plus(param_annotations(d.type_params)).plus(
            formal_annotations(d.params),
        ),
        ItemData::Field(d) => d.annotations,
        ItemData::EnumConstant { name: _, body: _ } => List::Nil,
        ItemData::StaticInit { body: _ } => List::Nil,
        ItemData::InstanceInit { body: _ } => List::Nil,
    }
}

/// The annotations of a declaration: its own, and those of its type
/// parameters, components and parameters.
pub fn item_annotation_refs(data: &ItemData) -> (r: List<RefName>)
    ensures
        r == written_annotations(*data),
{
    match data {
        ItemData::Class(d) => d.annotations.copy().append(
            collect_param_annotations(&d.type_params),
        ),
        ItemData::Interface(d) => d.annotations.copy().append(
            collect_param_annotations(&d.type_params),
        ),
        ItemData::Enum(d) => d.annotations.copy(),
        ItemData::Record(d) => d.annotations.copy().append(
            collect_param_annotations(&d.type_params),
        ).append(collect_formal_annotations(&d.components)),
        ItemData::Annotation(d) => d.annotations.copy(),
        ItemData::Module(d) => d.annotations.copy(),
        ItemData::Method(d) => d.annotations.copy().append(
            collect_param_annotations(&d.type_params),
        ).append(collect_formal_annotations(&d.params)),
        ItemData::Field(d) => d.annotations.copy(),
        ItemData::EnumConstant { name: _, body: _ } => List::Nil,
        ItemData::StaticInit { body: _ } => List::Nil,
        ItemData::InstanceInit { body: _ } => List::Nil,
    }
}

/// The package declarations as reports.
pub open spec fn duplicates(l: List<Option<TextRange>>, package: Name) -> Reports
    decreases l,
{
    match l {
        List::Nil => List::Nil,
        List::Cons(h, t) => List::Cons(
            Box::new(DeclDiagnostic::DuplicatePackage { package, range: *h }),
            Box::new(duplicates(*t, package)),
        ),
    }
}

fn report_duplicates(l: &List<Option<TextRange>>, package: Name) -> (r: Reports)
    ensures
        r == duplicates(*l, package),
    decreases l,
{
    match l {
        List::Nil => List::Nil,
        List::Cons(h, t) => List::cons(
            DeclDiagnostic::DuplicatePackage { package, range: **h },
            report_duplicates(t, package),
        ),
    }
}

/// The name of the package of a file.
pub open spec fn package_name(tree: ItemTree) -> Name {
    match tree.package {
        Some(package) => package,
        None => Name::Empty,
    }
}

/// Every package declaration behind the first, in a file whose language is
/// known.
pub fn duplicate_package_diagnostics(tree: &ItemTree) -> (r: Reports)
    ensures
        r == (match tree.package_decls {
            List::Cons(_, rest) => if tree.language == LanguageKind::Unknown {
                List::Nil
            } else {
                duplicates(*rest, package_name(*tree))
            },
            List::Nil => List::Nil,
        }),
{
    if tree.language == LanguageKind::Unknown {
        return List::Nil;
    }
    let package = match tree.package {
        Some(package) => package,
        None => Name::Empty,
    };
    match &tree.package_decls {
        List::Nil => List::Nil,
        List::Cons(_, rest) => report_duplicates(rest, package),
    }
}

/// The last of the places.
pub open spec fn last_place(l: List<Option<TextRange>>) -> Option<TextRange>
    decreases l,
{
    match l {
        List::Nil => None,
        List::Cons(h, t) => if *t == List::<Option<TextRange>>::Nil {
            *h
        } else {
            last_place(*t)
        },
    }
}

fn find_last_place(l: &List<Option<TextRange>>) -> (r: Option<TextRange>)
    ensures
        r == last_place(*l),
    decreases l,
{
    match l {
        List::Nil => None,
        List::Cons(h, t) => if t.is_empty() {
            **h
        } else {
            find_last_place(t)
        },
    }
}

/// Whether a directory, given by its segments, ends with the segments of a
/// package.
pub open spec fn ends_with(dir: Seq<String>, package: Seq<Seq<char>>) -> bool {
    dir.len() >= package.len() && forall|i: int|
        0 <= i < package.len() ==> #[trigger] package[i] == dir[dir.len() - package.len() + i]@
}

fn dir_matches(dir: &Vec<String>, package: &Vec<String>) -> (r: bool)
    ensures
        r == ends_with(dir@, texts_of(package@)),
{
    let total: usize = dir.len();
    if total < package.len() {
        return false;
    }
    let skip: usize = total - package.len();
    let mut i: usize = 0;
    while i < package.len()
        invariant
            i <= package@.len(),
            total == dir@.len(),
            skip + package@.len() == total,
            forall|k: int|
                0 <= k < i ==> #[trigger] texts_of(package@)[k] == dir@[total - package@.len() + k]@,
        decreases package@.len() - i,
    {
        if !same_text(package[i].as_str(), dir[skip + i].as_str()) {
            assert(texts_of(package@)[i as int] != dir@[total - package@.len() + i]@);
            return false;
        }
        i = i + 1;
    }
    true
}

/// The segments of a directory with slashes between them.
pub open spec fn slashed(dir: Seq<String>, from: int) -> Seq<char>
    decreases dir.len() - from,
{
    if from >= dir.len() {
        ""@
    } else if from == dir.len() - 1 {
        dir[from]@
    } else {
        dir[from]@ + "/"@ + slashed(dir, from + 1)
    }
}

fn join_slashes(dir: &Vec<String>, from: usize) -> (r: String)
    requires
        from <= dir@.len(),
    ensures
        r@ == slashed(dir@, from as int),
    decreases dir@.len() - from,
{
    if from >= dir.len() {
        "".to_owned()
    } else if from == dir.len() - 1 {
        dir[from].as_str().to_owned()
    } else {
        dir[from].as_str().to_owned().concat("/").concat(join_slashes(dir, from + 1).as_str())
    }
}

/// A report on a file whose directory does not end with its package.
#[derive(Debug)]
pub struct UnexpectedPackagePath {
    pub expected: Name,
    /// The directory as a package name, or else with slashes.
    pub dir: String,
    pub range: Option<TextRange>,
}

/// The report on a file whose directory does not end with the segments of its
/// package. A file without a package, or without a path, has none.
pub fn package_path_diagnostics(
    names: &Names,
    tree: &ItemTree,
    dir: &Option<Vec<String>>,
    package_dir: &Option<String>,
) -> (r: Option<UnexpectedPackagePath>)
    requires
        names.knows(package_name(*tree)),
    ensures
        r is Some <==> (tree.package is Some && dir is Some && !ends_with(
            dir->0@,
            segments(names.text(package_name(*tree)), 0),
        )),
        r is Some ==> {
            &&& r->0.expected == package_name(*tree)
            &&& r->0.dir@ == (match *package_dir {
                Some(text) => text@,
                None => slashed(dir->0@, 0),
            })
            &&& r->0.range == (if tree.language == LanguageKind::Unknown {
                None
            } else {
                last_place(tree.package_decls)
            })
        },
{
    let expected = match tree.package {
        Some(package) => package,
        None => {
            return None;
        },
    };
    match dir {
        None => None,
        Some(dir) => {
            let package = split_dots(names.as_str(expected));
            if dir_matches(dir, &package) {
                return None;
            }
            let range = if tree.language == LanguageKind::Unknown {
                None
            } else {
                find_last_place(&tree.package_decls)
            };
            let shown = match package_dir {
                Some(text) => text.as_str().to_owned(),
                None => join_slashes(dir, 0),
            };
            Some(UnexpectedPackagePath { expected, dir: shown, range })
        },
    }
}

/// The last name.
pub open spec fn last_name(l: List<RefName>) -> Option<RefName>
    decreases l,
{
    match l {
        List::Nil => None,
        List::Cons(h, t) => if *t == List::<RefName>::Nil {
            Some(*h)
        } else {
            last_name(*t)
        },
    }
}

fn find_last_name(l: &List<RefName>) -> (r: Option<RefName>)
    ensures
        r == last_name(*l),
    decreases l,
{
    match l {
        List::Nil => None,
        List::Cons(h, t) => if t.is_empty() {
            Some(**h)
        } else {
            find_last_name(t)
        },
    }
}

/// From the start of the first name to the end of the last one, where both
/// have a place and are in order.
pub open spec fn span(l: List<RefName>) -> Option<TextRange> {
    match (l, last_name(l)) {
        (List::Cons(first, _), Some(last)) => match (first.range, last.range) {
            (Some(a), Some(b)) => if a.start <= b.end {
                Some(TextRange { start: a.start, end: b.end })
            } else {
                None
            },
            _ => None,
        },
        _ => None,
    }
}

/// The range of a written type.
fn tyref_range(l: &List<RefName>) -> (r: Option<TextRange>)
    ensures
        r == span(*l),
{
    match l {
        List::Nil => None,
        List::Cons(first, _) => match find_last_name(l) {
            None => None,
            Some(last) => match (first.range, last.range) {
                (Some(a), Some(b)) => if a.start <= b.end {
                    Some(TextRange { start: a.start, end: b.end })
                } else {
                    None
                },
                _ => None,
            },
        },
    }
}

/// The declaration whose references are checked: its place, the deprecation in
/// force for it, and the outermost class around it.
#[derive(Clone, Copy, Debug, PartialEq, Eq)]
pub struct DeclSite {
    pub file: u32,
    pub item: u32,
    pub enclosing: Option<Deprecation>,
    pub outermost: Name,
}

/// The deprecated classes that are no exempt use.
pub open spec fn not_exempt<W: Workspace>(
    ws: &W,
    site: DeclSite,
    l: List<(Deprecation, Name)>,
    range: Option<TextRange>,
) -> Reports
    decreases l,
{
    match l {
        List::Nil => List::Nil,
        List::Cons(h, t) => if ws.exempt(site.enclosing, site.outermost, h.1, h.0) {
            not_exempt(ws, site, *t, range)
        } else {
            List::Cons(
                Box::new(DeclDiagnostic::DeprecatedUse { api: h.1, deprecation: h.0, range }),
                Box::new(not_exempt(ws, site, *t, range)),
            )
        },
    }
}

fn report_not_exempt<W: Workspace>(
    ws: &W,
    site: DeclSite,
    l: &List<(Deprecation, Name)>,
    range: Option<TextRange>,
) -> (r: Reports)
    ensures
        r == not_exempt(ws, site, *l, range),
    decreases l,
{
    match l {
        List::Nil => List::Nil,
        List::Cons(h, t) => {
            let rest = report_not_exempt(ws, site, t, range);
            if ws.is_exempt(site.enclosing, site.outermost, h.1, h.0) {
                rest
            } else {
                List::cons(
                    DeclDiagnostic::DeprecatedUse { api: h.1, deprecation: h.0, range },
                    rest,
                )
            }
        },
    }
}

/// The uses of deprecated classes by the names of a declaration.
pub open spec fn deprecated_reports<W: Workspace>(
    ws: &W,
    site: DeclSite,
    l: List<RefName>,
) -> Reports
    decreases l,
{
    match l {
        List::Nil => List::Nil,
        List::Cons(h, t) => (match ws.name_meaning(site.file, site.item, h.name) {
            NameResolution::Resolved(class) => not_exempt(
                ws,
                site,
                ws.deprecations(class),
                h.range,
            ),
            _ => List::Nil,
        }).plus(deprecated_reports(ws, site, *t)),
    }
}

/// The uses of deprecated classes by the names of a declaration.
fn check_reference_deprecation<W: Workspace>(ws: &W, site: DeclSite, l: &List<RefName>) -> (r:
    Reports)
    ensures
        r == deprecated_reports(ws, site, *l),
    decreases l,
{
    match l {
        List::Nil => List::Nil,
        List::Cons(h, t) => {
            let here = match ws.resolve_name_checked(site.file, site.item, h.name) {
                NameResolution::Resolved(class) => report_not_exempt(
                    ws,
                    site,
                    &ws.class_hits(class),
                    h.range,
                ),
                _ => List::Nil,
            };
            here.append(check_reference_deprecation(ws, site, t))
        },
    }
}

/// The reports on one written type that do not concern whether its names
/// resolve: deprecated classes, a raw type, a wrong number of type arguments.
pub open spec fn type_reports<D: TyDatabase + Workspace>(
    db: &D,
    site: DeclSite,
    ty: TypeRef,
) -> Reports {
    let resolved = db.resolved_type(site.file, site.item, ty.shape);
    let range = span(ty.refs);
    deprecated_reports(db, site, ty.refs).plus(
        if raw_reference(db, resolved) && range is Some {
            one(DeclDiagnostic::RawTypeUse { ty: resolved, range })
        } else {
            List::Nil
        },
    ).plus(
        match db.arity_mismatch(site.file, site.item, ty.shape) {
            Some((bad, expected)) => one(
                DeclDiagnostic::WrongTypeArgumentCount { ty: bad, expected, range },
            ),
            None => List::Nil,
        },
    )
}

fn check_type<D: TyDatabase + Workspace>(db: &D, site: DeclSite, ty: &TypeRef) -> (r: Reports)
    ensures
        r == type_reports(db, site, *ty),
{
    let range = tyref_range(&ty.refs);
    let resolved = db.resolve_type_ref(site.file, site.item, &ty.shape);
    let raw = if is_raw_reference(db, &resolved) && range.is_some() {
        List::cons(DeclDiagnostic::RawTypeUse { ty: resolved, range }, List::Nil)
    } else {
        List::Nil
    };
    let arity = match db.type_argument_arity_mismatch(site.file, site.item, &ty.shape) {
        Some((bad, expected)) => List::cons(
            DeclDiagnostic::WrongTypeArgumentCount { ty: bad, expected, range },
            List::Nil,
        ),
        None => List::Nil,
    };
    check_reference_deprecation(db, site, &ty.refs).append(raw).append(arity)
}

/// The reports on the written types of a declaration.
pub open spec fn types_reports<D: TyDatabase + Workspace>(
    db: &D,
    site: DeclSite,
    l: List<TypeRef>,
) -> Reports
    decreases l,
{
    match l {
        List::Nil => List::Nil,
        List::Cons(h, t) => type_reports(db, site, *h).plus(types_reports(db, site, *t)),
    }
}

fn check_types<D: TyDatabase + Workspace>(db: &D, site: DeclSite, l: &List<TypeRef>) -> (r: Reports)
    ensures
        r == types_reports(db, site, *l),
    decreases l,
{
    match l {
        List::Nil => List::Nil,
        List::Cons(h, t) => check_type(db, site, h).append(check_types(db, site, t)),
    }
}

/// The names of the written types.
pub open spec fn names_of(l: List<TypeRef>) -> List<RefName>
    decreases l,
{
    match l {
        List::Nil => List::Nil,
        List::Cons(h, t) => h.refs.plus(names_of(*t)),
    }
}

fn collect_names(l: &List<TypeRef>) -> (r: List<RefName>)
    ensures
        r == names_of(*l),
    decreases l,
{
    match l {
        List::Nil => List::Nil,
        List::Cons(h, t) => h.refs.copy().append(collect_names(t)),
    }
}

/// What is wrong with a name as a report.
pub open spec fn as_report(issue: TypeRefDiag) -> DeclDiagnostic {
    match issue {
        TypeRefDiag::CannotResolve { name, range } => DeclDiagnostic::CannotResolveType {
            name,
            range,
        },
        TypeRefDiag::Ambiguous { name, range } => DeclDiagnostic::AmbiguousName { name, range },
        TypeRefDiag::ModuleNotAccessible { name, range } => DeclDiagnostic::ModuleNotAccessible {
            name,
            range,
        },
        TypeRefDiag::NotSupportedInRelease { name, range, found, added } => {
            DeclDiagnostic::NotSupportedInRelease {
                api: ReleaseApi::Class { name },
                found,
                added,
                range,
            }
        },
    }
}

pub open spec fn as_reports(l: List<TypeRefDiag>) -> Reports
    decreases l,
{
    match l {
        List::Nil => List::Nil,
        List::Cons(h, t) => List::Cons(Box::new(as_report(*h)), Box::new(as_reports(*t))),
    }
}

fn to_reports(l: &List<TypeRefDiag>) -> (r: Reports)
    ensures
        r == as_reports(*l),
    decreases l,
{
    match l {
        List::Nil => List::Nil,
        List::Cons(h, t) => {
            let here = match **h {
                TypeRefDiag::CannotResolve { name, range } => DeclDiagnostic::CannotResolveType {
                    name,
                    range,
                },
                TypeRefDiag::Ambiguous { name, range } => DeclDiagnostic::AmbiguousName {
                    name,
                    range,
                },
                TypeRefDiag::ModuleNotAccessible { name, range } => {
                    DeclDiagnostic::ModuleNotAccessible { name, range }
                },
                TypeRefDiag::NotSupportedInRelease { name, range, found, added } => {
                    DeclDiagnostic::NotSupportedInRelease {
                        api: ReleaseApi::Class { name },
                        found,
                        added,
                        range,
                    }
                },
            };
            List::cons(here, to_reports(t))
        },
    }
}

/// The reports on one declaration, without those inside it.
pub open spec fn own_reports<D: TyDatabase + Workspace>(
    db: &D,
    site: DeclSite,
    data: ItemData,
) -> Reports {
    let types = written_types(data);
    let annotations = written_annotations(data);
    types_reports(db, site, types).plus(deprecated_reports(db, site, annotations)).plus(
        as_reports(issues(db, site.file, site.item, names_of(types).plus(annotations))),
    )
}

fn check_own<D: TyDatabase + Workspace>(db: &D, site: DeclSite, data: &ItemData) -> (r: Reports)
    ensures
        r == own_reports(db, site, *data),
{
    let types = item_type_refs(data);
    let annotations = item_annotation_refs(data);
    let found = check_types(db, site, &types).append(
        check_reference_deprecation(db, site, &annotations),
    );
    let names = collect_names(&types).append(annotations);
    found.append(to_reports(&check_references(db, site.file, site.item, &names)))
}

/// The reports on a declaration and those inside it.
pub open spec fn item_reports<D: TyDatabase + Workspace>(
    db: &D,
    file: u32,
    tree: ItemTree,
    outermost: Name,
    id: u32,
) -> Reports
    decreases tree.items@.len() - id, 1nat, List::<u32>::Nil,
{
    match tree.item(id) {
        None => List::Nil,
        Some(data) => {
            let site = DeclSite {
                file,
                item: id,
                enclosing: db.deprecated_around(file, id),
                outermost,
            };
            own_reports(db, site, data).plus(
                inner_reports(db, file, tree, outermost, id, data.children()),
            )
        },
    }
}

/// The reports on the declarations of a list that lie behind `parent`.
pub open spec fn inner_reports<D: TyDatabase + Workspace>(
    db: &D,
    file: u32,
    tree: ItemTree,
    outermost: Name,
    parent: u32,
    l: List<u32>,
) -> Reports
    decreases tree.items@.len() - parent, 0nat, l,
{
    match l {
        List::Nil => List::Nil,
        List::Cons(h, t) => (if parent < *h < tree.items@.len() {
            item_reports(db, file, tree, outermost, *h)
        } else {
            List::Nil
        }).plus(inner_reports(db, file, tree, outermost, parent, *t)),
    }
}

fn check_item<D: TyDatabase + Workspace>(
    db: &D,
    file: u32,
    tree: &ItemTree,
    outermost: Name,
    id: u32,
) -> (r: Reports)
    requires
        tree.wf(),
    ensures
        r == item_reports(db, file, *tree, outermost, id),
    decreases tree.items@.len() - id, 1nat, List::<u32>::Nil,
{
    match tree.get(id) {
        None => List::Nil,
        Some(data) => {
            let site = DeclSite {
                file,
                item: id,
                enclosing: db.deprecated_enclosing(file, id),
                outermost,
            };
            let body = data.body();
            check_own(db, site, data).append(check_inner(db, file, tree, outermost, id, &body))
        },
    }
}

fn check_inner<D: TyDatabase + Workspace>(
    db: &D,
    file: u32,
    tree: &ItemTree,
    outermost: Name,
    parent: u32,
    l: &List<u32>,
) -> (r: Reports)
    requires
        tree.wf(),
        parent < tree.items@.len(),
    ensures
        r == inner_reports(db, file, *tree, outermost, parent, *l),
    decreases tree.items@.len() - parent, 0nat, l,
{
    match l {
        List::Nil => List::Nil,
        List::Cons(h, t) => {
            let here = if parent < **h && (**h as usize) < tree.items.len() {
                check_item(db, file, tree, outermost, **h)
            } else {
                List::Nil
            };
            here.append(check_inner(db, file, tree, outermost, parent, t))
        },
    }
}

/// The reports on the top-level declarations. Each is its own outermost class.
pub open spec fn top_reports<D: TyDatabase + Workspace>(
    db: &D,
    file: u32,
    tree: ItemTree,
    l: List<u32>,
) -> Reports
    decreases l,
{
    match l {
        List::Nil => List::Nil,
        List::Cons(h, t) => {
            let outermost = match db.canonical(SourceClass { file, item: *h }) {
                Some(name) => name,
                None => Name::Empty,
            };
            item_reports(db, file, tree, outermost, *h).plus(top_reports(db, file, tree, *t))
        },
    }
}

fn check_top<D: TyDatabase + Workspace>(db: &D, file: u32, tree: &ItemTree, l: &List<u32>) -> (r:
    Reports)
    requires
        tree.wf(),
    ensures
        r == top_reports(db, file, *tree, *l),
    decreases l,
{
    match l {
        List::Nil => List::Nil,
        List::Cons(h, t) => {
            let outermost = match db.canonical_name(SourceClass { file, item: **h }) {
                Some(name) => name,
                None => Name::Empty,
            };
            check_item(db, file, tree, outermost, **h).append(check_top(db, file, tree, t))
        },
    }
}

/// The reports on the declarations and imports of a file.
pub open spec fn declaration_reports<D: TyDatabase + Workspace>(
    db: &D,
    file: u32,
    tree: ItemTree,
) -> Reports {
    if !answerable(db) || tree.language == LanguageKind::Unknown {
        List::Nil
    } else {
        top_reports(db, file, tree, tree.top).plus(import_reports(db, tree))
    }
}

/// The reports on the declarations and imports of a file: none as long as names
/// cannot be looked up, or where its language is not known.
pub fn declaration_type_diagnostics<D: TyDatabase + Workspace>(
    db: &D,
    file: u32,
    tree: &ItemTree,
) -> (r: Reports)
    requires
        tree.wf(),
    ensures
        r == declaration_reports(db, file, *tree),
{
    if !can_resolve(db) {
        return List::Nil;
    }
    if tree.language == LanguageKind::Unknown {
        return List::Nil;
    }
    check_top(db, file, tree, &tree.top).append(import_diagnostics(db, tree))
}

/// The imports that are static, or not, and on demand, or not.
pub open spec fn imports_of(l: List<ImportItem>, is_static: bool, is_asterisk: bool) -> List<
    ImportItem,
>
    decreases l,
{
    match l {
        List::Nil => List::Nil,
        List::Cons(h, t) => if h.is_static == is_static && h.is_asterisk == is_asterisk {
            List::Cons(h, Box::new(imports_of(*t, is_static, is_asterisk)))
        } else {
            imports_of(*t, is_static, is_asterisk)
        },
    }
}

fn select_imports(l: &List<ImportItem>, is_static: bool, is_asterisk: bool) -> (r: List<ImportItem>)
    ensures
        r == imports_of(*l, is_static, is_asterisk),
    decreases l,
{
    match l {
        List::Nil => List::Nil,
        List::Cons(h, t) => {
            let rest = select_imports(t, is_static, is_asterisk);
            if h.is_static == is_static && h.is_asterisk == is_asterisk {
                List::cons(**h, rest)
            } else {
                rest
            }
        },
    }
}

/// The imported classes that do not exist.
pub open spec fn unresolved<D: TyDatabase>(db: &D, l: List<ImportItem>) -> Reports
    decreases l,
{
    match l {
        List::Nil => List::Nil,
        List::Cons(h, t) => if db.class_info(h.name) is None {
            List::Cons(
                Box::new(DeclDiagnostic::UnresolvedImport { name: h.name, range: h.range }),
                Box::new(unresolved(db, *t)),
            )
        } else {
            unresolved(db, *t)
        },
    }
}

fn check_unresolved<D: TyDatabase>(db: &D, l: &List<ImportItem>) -> (r: Reports)
    ensures
        r == unresolved(db, *l),
    decreases l,
{
    match l {
        List::Nil => List::Nil,
        List::Cons(h, t) => {
            let rest = check_unresolved(db, t);
            if db.resolve_class(h.name).is_none() {
                List::cons(
                    DeclDiagnostic::UnresolvedImport { name: h.name, range: h.range },
                    rest,
                )
            } else {
                rest
            }
        },
    }
}

/// The imported classes that the release has not.
pub open spec fn unreleased<W: Workspace>(ws: &W, l: List<ImportItem>) -> Reports
    decreases l,
{
    match l {
        List::Nil => List::Nil,
        List::Cons(h, t) => match class_releases(ws, h.name) {
            Some(releases) => List::Cons(
                Box::new(
                    DeclDiagnostic::NotSupportedInRelease {
                        api: ReleaseApi::Class { name: h.name },
                        found: releases.found,
                        added: releases.added,
                        range: h.range,
                    },
                ),
                Box::new(unreleased(ws, *t)),
            ),
            None => unreleased(ws, *t),
        },
    }
}

fn check_unreleased<W: Workspace>(ws: &W, l: &List<ImportItem>) -> (r: Reports)
    ensures
        r == unreleased(ws, *l),
    decreases l,
{
    match l {
        List::Nil => List::Nil,
        List::Cons(h, t) => {
            let rest = check_unreleased(ws, t);
            match class_of_reference(ws, h.name) {
                Some(releases) => List::cons(
                    DeclDiagnostic::NotSupportedInRelease {
                        api: ReleaseApi::Class { name: h.name },
                        found: releases.found,
                        added: releases.added,
                        range: h.range,
                    },
                    rest,
                ),
                None => rest,
            }
        },
    }
}

/// The imported static members that the release has not.
pub open spec fn unreleased_members<W: Workspace>(ws: &W, l: List<ImportItem>) -> Reports
    decreases l,
{
    match l {
        List::Nil => List::Nil,
        List::Cons(h, t) => (match h.owner {
            Some(owner) => match member_releases(ws, owner, h.member, None) {
                Some(releases) => one(
                    DeclDiagnostic::NotSupportedInRelease {
                        api: ReleaseApi::Member { owner, name: h.member },
                        found: releases.found,
                        added: releases.added,
                        range: h.range,
                    },
                ),
                None => List::Nil,
            },
            None => List::Nil,
        }).plus(unreleased_members(ws, *t)),
    }
}

fn check_unreleased_members<W: Workspace>(ws: &W, l: &List<ImportItem>) -> (r: Reports)
    ensures
        r == unreleased_members(ws, *l),
    decreases l,
{
    match l {
        List::Nil => List::Nil,
        List::Cons(h, t) => {
            let here = match h.owner {
                Some(owner) => match member_of_owner(ws, owner, h.member, None) {
                    Some(releases) => List::cons(
                        DeclDiagnostic::NotSupportedInRelease {
                            api: ReleaseApi::Member { owner, name: h.member },
                            found: releases.found,
                            added: releases.added,
                            range: h.range,
                        },
                        List::Nil,
                    ),
                    None => List::Nil,
                },
                None => List::Nil,
            };
            here.append(check_unreleased_members(ws, t))
        },
    }
}

/// The packages of on-demand imports that do not exist.
pub open spec fn unknown_packages<W: Workspace>(ws: &W, l: List<ImportItem>) -> Reports
    decreases l,
{
    match l {
        List::Nil => List::Nil,
        List::Cons(h, t) => if !ws.package_known(h.name) {
            List::Cons(
                Box::new(
                    DeclDiagnostic::UnresolvedImportPackage { name: h.name, range: h.range },
                ),
                Box::new(unknown_packages(ws, *t)),
            )
        } else {
            unknown_packages(ws, *t)
        },
    }
}

fn check_packages<W: Workspace>(ws: &W, l: &List<ImportItem>) -> (r: Reports)
    ensures
        r == unknown_packages(ws, *l),
    decreases l,
{
    match l {
        List::Nil => List::Nil,
        List::Cons(h, t) => {
            let rest = check_packages(ws, t);
            if !ws.package_exists(h.name) {
                List::cons(
                    DeclDiagnostic::UnresolvedImportPackage { name: h.name, range: h.range },
                    rest,
                )
            } else {
                rest
            }
        },
    }
}

/// The classes of static on-demand imports that do not exist, or whose package
/// does not. A class of the unnamed package is not looked at.
pub open spec fn unknown_owners<D: TyDatabase + Workspace>(db: &D, l: List<ImportItem>) -> Reports
    decreases l,
{
    match l {
        List::Nil => List::Nil,
        List::Cons(h, t) => (match h.owner {
            None => List::Nil,
            Some(package) => if !db.package_known(package) {
                one(DeclDiagnostic::UnresolvedImportPackage { name: package, range: h.range })
            } else if db.class_info(h.name) is None {
                one(DeclDiagnostic::UnresolvedStaticImport { name: h.name, range: h.range })
            } else {
                List::Nil
            },
        }).plus(unknown_owners(db, *t)),
    }
}

fn check_owners<D: TyDatabase + Workspace>(db: &D, l: &List<ImportItem>) -> (r: Reports)
    ensures
        r == unknown_owners(db, *l),
    decreases l,
{
    match l {
        List::Nil => List::Nil,
        List::Cons(h, t) => {
            let here = match h.owner {
                None => List::Nil,
                Some(package) => if !db.package_exists(package) {
                    List::cons(
                        DeclDiagnostic::UnresolvedImportPackage { name: package, range: h.range },
                        List::Nil,
                    )
                } else if db.resolve_class(h.name).is_none() {
                    List::cons(
                        DeclDiagnostic::UnresolvedStaticImport { name: h.name, range: h.range },
                        List::Nil,
                    )
                } else {
                    List::Nil
                },
            };
            here.append(check_owners(db, t))
        },
    }
}

/// An import as one side of a conflict.
pub open spec fn conflicting(i: ImportItem) -> DeclDiagnostic {
    DeclDiagnostic::ConflictingImport { name: i.name, range: i.range }
}

/// The conflicts of one import with those behind it: another class with the
/// same simple name.
pub open spec fn conflicts_with(a: ImportItem, l: List<ImportItem>) -> Reports
    decreases l,
{
    match l {
        List::Nil => List::Nil,
        List::Cons(b, t) => if b.simple == a.simple && b.name != a.name {
            List::Cons(
                Box::new(conflicting(a)),
                Box::new(
                    List::Cons(Box::new(conflicting(*b)), Box::new(conflicts_with(a, *t))),
                ),
            )
        } else {
            conflicts_with(a, *t)
        },
    }
}

/// The conflicts between imports, each as two reports.
pub open spec fn conflicts(l: List<ImportItem>) -> Reports
    decreases l,
{
    match l {
        List::Nil => List::Nil,
        List::Cons(a, t) => conflicts_with(*a, *t).plus(conflicts(*t)),
    }
}

fn check_conflicts_with(a: &ImportItem, l: &List<ImportItem>) -> (r: Reports)
    ensures
        r == conflicts_with(*a, *l),
    decreases l,
{
    match l {
        List::Nil => List::Nil,
        List::Cons(b, t) => {
            let rest = check_conflicts_with(a, t);
            if b.simple == a.simple && b.name != a.name {
                List::cons(
                    DeclDiagnostic::ConflictingImport { name: a.name, range: a.range },
                    List::cons(
                        DeclDiagnostic::ConflictingImport { name: b.name, range: b.range },
                        rest,
                    ),
                )
            } else {
                rest
            }
        },
    }
}

fn check_conflicts(l: &List<ImportItem>) -> (r: Reports)
    ensures
        r == conflicts(*l),
    decreases l,
{
    match l {
        List::Nil => List::Nil,
        List::Cons(a, t) => check_conflicts_with(a, t).append(check_conflicts(t)),
    }
}

/// The simple name of a type that a declaration declares.
pub open spec fn type_declared(data: ItemData) -> Option<Name> {
    match data {
        ItemData::Class(d) => Some(d.name),
        ItemData::Interface(d) => Some(d.name),
        ItemData::Enum(d) => Some(d.name),
        ItemData::Record(d) => Some(d.name),
        ItemData::Annotation(d) => Some(d.name),
        _ => None,
    }
}

fn declared_type_name(data: &ItemData) -> (r: Option<Name>)
    ensures
        r == type_declared(*data),
{
    match data {
        ItemData::Class(d) => Some(d.name),
        ItemData::Interface(d) => Some(d.name),
        ItemData::Enum(d) => Some(d.name),
        ItemData::Record(d) => Some(d.name),
        ItemData::Annotation(d) => Some(d.name),
        _ => None,
    }
}

/// The conflicts of an import with the types that the file declares: one with
/// the same simple name that is not the imported class, which it is where the
/// import names the package of the file and that name in it.
pub open spec fn clashes_with(tree: ItemTree, import: ImportItem, l: List<u32>) -> Reports
    decreases l,
{
    match l {
        List::Nil => List::Nil,
        List::Cons(h, t) => (match tree.item(*h) {
            Some(data) => if type_declared(data) == Some(import.simple) && !(import.owner
                == tree.package && import.member == import.simple) {
                one(conflicting(import))
            } else {
                List::Nil
            },
            None => List::Nil,
        }).plus(clashes_with(tree, import, *t)),
    }
}

/// The conflicts of the imports with the types that the file declares.
pub open spec fn clashes(tree: ItemTree, l: List<ImportItem>) -> Reports
    decreases l,
{
    match l {
        List::Nil => List::Nil,
        List::Cons(h, t) => clashes_with(tree, *h, tree.top).plus(clashes(tree, *t)),
    }
}

fn check_clashes_with(tree: &ItemTree, import: &ImportItem, l: &List<u32>) -> (r: Reports)
    ensures
        r == clashes_with(*tree, *import, *l),
    decreases l,
{
    match l {
        List::Nil => List::Nil,
        List::Cons(h, t) => {
            let here = match tree.get(**h) {
                Some(data) => {
                    let same_name = match declared_type_name(data) {
                        Some(name) => name == import.simple,
                        None => false,
                    };
                    if same_name && !(import.owner.same(&tree.package) && import.member
                        == import.simple) {
                        List::cons(
                            DeclDiagnostic::ConflictingImport {
                                name: import.name,
                                range: import.range,
                            },
                            List::Nil,
                        )
                    } else {
                        List::Nil
                    }
                },
                None => List::Nil,
            };
            here.append(check_clashes_with(tree, import, t))
        },
    }
}

fn check_clashes(tree: &ItemTree, l: &List<ImportItem>) -> (r: Reports)
    ensures
        r == clashes(*tree, *l),
    decreases l,
{
    match l {
        List::Nil => List::Nil,
        List::Cons(h, t) => check_clashes_with(tree, h, &tree.top).append(check_clashes(tree, t)),
    }
}

/// The reports on the imports of a file.
pub open spec fn import_reports<D: TyDatabase + Workspace>(db: &D, tree: ItemTree) -> Reports {
    let single = imports_of(tree.imports, false, false);
    unresolved(db, single).plus(unreleased(db, single)).plus(
        unreleased_members(db, imports_of(tree.imports, true, false)),
    ).plus(unknown_packages(db, imports_of(tree.imports, false, true))).plus(
        unknown_owners(db, imports_of(tree.imports, true, true)),
    ).plus(conflicts(single)).plus(clashes(tree, single))
}

/// The reports on the imports of a file. A single import names a class that
/// exists and that the release has; no two of them, and none and a type of the
/// file, share a simple name for different classes. An on-demand import names
/// a package, a static one the class whose members it imports.
pub fn import_diagnostics<D: TyDatabase + Workspace>(db: &D, tree: &ItemTree) -> (r: Reports)
    ensures
        r == import_reports(db, *tree),
{
    let single = select_imports(&tree.imports, false, false);
    let members = select_imports(&tree.imports, true, false);
    let packages = select_imports(&tree.imports, false, true);
    let owners = select_imports(&tree.imports, true, true);
    check_unresolved(db, &single).append(check_unreleased(db, &single)).append(
        check_unreleased_members(db, &members),
    ).append(check_packages(db, &packages)).append(check_owners(db, &owners)).append(
        check_conflicts(&single),
    ).append(check_clashes(tree, &single))
}

/// Imports of one class, however often, do not conflict.
pub proof fn law_repeated_import_is_no_conflict(a: ImportItem, l: List<ImportItem>)
    requires
        all_named(l, a.name),
    ensures
        conflicts_with(a, l) == List::<DeclDiagnostic>::Nil,
        conflicts(l) == List::<DeclDiagnostic>::Nil,
    decreases l,
{
    if let List::Cons(b, t) = l {
        law_repeated_import_is_no_conflict(a, *t);
        law_repeated_import_is_no_conflict(*b, *t);
    }
}

/// Whether every import is of one name.
pub open spec fn all_named(l: List<ImportItem>, name: Name) -> bool
    decreases l,
{
    match l {
        List::Nil => true,
        List::Cons(h, t) => h.name == name && all_named(*t, name),
    }
}

/// As long as names cannot be looked up, a file has no report: before the
/// project is loaded, and where a file outside every source set has no library
/// to look into.
pub proof fn law_silent_before_loading<D: TyDatabase + Workspace>(db: &D, file: u32, tree: ItemTree)
    requires
        !db.loaded() || db.scope() == ResolutionScope::Classpath(List::Nil) || (db.scope()
            is JdkBuiltins && db.builtins() == List::<u32>::Nil),
    ensures
        !answerable(db),
        declaration_reports(db, file, tree) == List::<DeclDiagnostic>::Nil,
{
}

/// A written name is reported once at most.
pub proof fn law_one_issue_per_name<W: Workspace>(ws: &W, file: u32, item: u32, l: List<RefName>)
    ensures
        issues(ws, file, item, l).count() <= l.count(),
    decreases l,
{
    if let List::Cons(_, t) = l {
        law_one_issue_per_name(ws, file, item, *t);
    }
}

/// Whether two imports are of different classes with one simple name.
pub open spec fn rivals(names: Names, a: ImportItem, b: ImportItem) -> bool {
    a.name != b.name && simple_text(names.text(a.name)) == simple_text(names.text(b.name))
}

/// The name of a type of a package.
pub open spec fn qualified_text(names: Names, package: Option<Name>, simple: Seq<char>) -> Seq<
    char,
> {
    match package {
        Some(p) => names.text(p) + seq!['.'] + simple,
        None => simple,
    }
}

/// Whether a declaration of a file has the simple name of an import of another
/// class.
pub open spec fn hidden_by(names: Names, tree: ItemTree, a: ImportItem, item: u32) -> bool {
    let simple = simple_text(names.text(a.name));
    match tree.item(item) {
        Some(data) => match type_declared(data) {
            Some(n) => names.knows(n) && names.text(n) == simple && names.text(a.name)
                != qualified_text(names, tree.package, simple),
            None => false,
        },
        None => false,
    }
}

proof fn lemma_rivals(names: Names, a: ImportItem, b: ImportItem)
    requires
        names.wf(),
        import_split(names, a),
        import_split(names, b),
    ensures
        rivals(names, a, b) == (a.simple == b.simple && a.name != b.name),
{
    if names.text(a.simple) == names.text(b.simple) {
        law_names_are_unique(names, a.simple, b.simple);
    }
}

proof fn lemma_own_name(names: Names, package: Option<Name>, a: ImportItem)
    requires
        names.wf(),
        import_split(names, a),
        package matches Some(p) ==> names.knows(p),
    ensures
        (a.owner == package && a.member == a.simple) == (names.text(a.name) == qualified_text(
            names,
            package,
            simple_text(names.text(a.name)),
        )),
{
    let text = names.text(a.name);
    let simple = simple_text(text);
    lemma_last_dot(text);
    lemma_simple_start(text);
    lemma_simple_behind_dot(text);
    if a.owner == package && a.member == a.simple {
        match package {
            Some(p) => {
                assert(text =~= names.text(p) + seq!['.'] + simple);
            },
            None => {
                assert(text =~= simple);
            },
        }
    }
    if text == qualified_text(names, package, simple) {
        match package {
            Some(p) => {
                let dot = names.text(p).len() as int;
                assert(text[dot] == '.');
                assert(dot + 1 + simple.len() == text.len());
                assert(last_dot(text) == dot);
                assert(text.subrange(0, dot) =~= names.text(p));
                assert(text.subrange(dot + 1, text.len() as int) =~= simple);
                law_names_are_unique(names, a.owner->Some_0, p);
                law_names_are_unique(names, a.member, a.simple);
            },
            None => {
                assert(simple_start(text) == 0);
                assert(last_dot(text) == -1);
                assert(text.subrange(0, text.len() as int) =~= text);
                law_names_are_unique(names, a.member, a.simple);
            },
        }
    }
}

proof fn lemma_conflicts_with(
    names: Names,
    c: ImportItem,
    l: List<ImportItem>,
    a: ImportItem,
) -> (b: ImportItem)
    requires
        names.wf(),
        import_split(names, c),
        forall|i: ImportItem| l.has(i) ==> import_split(names, i),
    ensures
        conflicts_with(c, l).has(conflicting(a)) ==> l.has(b) && rivals(names, c, b) && (
        conflicting(c) == conflicting(a) || conflicting(b) == conflicting(a)),
    decreases l,
{
    match l {
        List::Nil => c,
        List::Cons(h, t) => {
            assert(l.has(*h));
            assert forall|i: ImportItem| t.has(i) implies import_split(names, i) by {
                assert(l.has(i));
            }
            lemma_rivals(names, c, *h);
            let rest = lemma_conflicts_with(names, c, *t, a);
            reveal_with_fuel(List::has, 3);
            if rivals(names, c, *h) && (conflicting(c) == conflicting(a) || conflicting(*h)
                == conflicting(a)) {
                *h
            } else {
                rest
            }
        },
    }
}

proof fn lemma_conflict_with_rival(names: Names, c: ImportItem, l: List<ImportItem>, b: ImportItem)
    requires
        names.wf(),
        import_split(names, c),
        import_split(names, b),
        l.has(b),
        rivals(names, c, b),
    ensures
        conflicts_with(c, l).has(conflicting(c)),
        conflicts_with(c, l).has(conflicting(b)),
    decreases l,
{
    reveal_with_fuel(List::has, 3);
    lemma_rivals(names, c, b);
    if let List::Cons(h, t) = l {
        if *h != b {
            lemma_conflict_with_rival(names, c, *t, b);
        }
    }
}

proof fn lemma_conflicts_found(names: Names, l: List<ImportItem>, a: ImportItem) -> (b: ImportItem)
    requires
        names.wf(),
        import_split(names, a),
        forall|i: ImportItem| l.has(i) ==> import_split(names, i),
    ensures
        conflicts(l).has(conflicting(a)) ==> l.has(b) && rivals(names, a, b),
    decreases l,
{
    match l {
        List::Nil => a,
        List::Cons(h, t) => {
            assert(l.has(*h));
            assert forall|i: ImportItem| t.has(i) implies import_split(names, i) by {
                assert(l.has(i));
            }
            lemma_plus_has(conflicts_with(*h, *t), conflicts(*t), conflicting(a));
            let here = lemma_conflicts_with(names, *h, *t, a);
            let rest = lemma_conflicts_found(names, *t, a);
            if conflicts_with(*h, *t).has(conflicting(a)) {
                if h.name == a.name {
                    here
                } else {
                    *h
                }
            } else {
                rest
            }
        },
    }
}

proof fn lemma_rival_conflicts(names: Names, l: List<ImportItem>, a: ImportItem, b: ImportItem)
    requires
        names.wf(),
        import_split(names, a),
        import_split(names, b),
        l.has(a),
        l.has(b),
        rivals(names, a, b),
    ensures
        conflicts(l).has(conflicting(a)),
    decreases l,
{
    if let List::Cons(h, t) = l {
        lemma_plus_has(conflicts_with(*h, *t), conflicts(*t), conflicting(a));
        if *h == a {
            lemma_conflict_with_rival(names, a, *t, b);
        } else if *h == b {
            lemma_conflict_with_rival(names, b, *t, a);
        } else {
            lemma_rival_conflicts(names, *t, a, b);
        }
    }
}

proof fn lemma_clashes_with(names: Names, tree: ItemTree, c: ImportItem, l: List<u32>, a: ImportItem)
    requires
        names.wf(),
        import_split(names, c),
        tree.package matches Some(p) ==> names.knows(p),
    ensures
        clashes_with(tree, c, l).has(conflicting(a)) <==> conflicting(c) == conflicting(a) && exists|
            item: u32,
        | #[trigger] l.has(item) && hidden_by(names, tree, c, item),
    decreases l,
{
    if let List::Cons(h, t) = l {
        lemma_clashes_with(names, tree, c, *t, a);
        lemma_own_name(names, tree.package, c);
        if let Some(data) = tree.item(*h) {
            if let Some(n) = type_declared(data) {
                if names.knows(n) && names.text(n) == names.text(c.simple) {
                    law_names_are_unique(names, n, c.simple);
                }
            }
        }
        reveal_with_fuel(List::has, 2);
        let here = if hidden_by(names, tree, c, *h) {
            one(conflicting(c))
        } else {
            List::Nil
        };
        lemma_plus_has(here, clashes_with(tree, c, *t), conflicting(a));
        assert(l.has(*h));
        assert forall|item: u32| #[trigger] t.has(item) implies l.has(item) by {}
        if conflicting(c) == conflicting(a) && exists|item: u32| #[trigger]
            l.has(item) && hidden_by(names, tree, c, item) {
            let item = choose|item: u32| #[trigger]
                l.has(item) && hidden_by(names, tree, c, item);
            assert(item == *h || t.has(item));
        }
    }
}

proof fn lemma_clashes(names: Names, tree: ItemTree, l: List<ImportItem>, a: ImportItem)
    requires
        names.wf(),
        import_split(names, a),
        forall|i: ImportItem| l.has(i) ==> import_split(names, i),
        tree.package matches Some(p) ==> names.knows(p),
    ensures
        clashes(tree, l).has(conflicting(a)) ==> exists|item: u32| #[trigger]
            tree.top.has(item) && hidden_by(names, tree, a, item),
        l.has(a) && (exists|item: u32| #[trigger]
            tree.top.has(item) && hidden_by(names, tree, a, item)) ==> clashes(tree, l).has(
            conflicting(a),
        ),
    decreases l,
{
    if let List::Cons(h, t) = l {
        assert(l.has(*h));
        assert forall|i: ImportItem| t.has(i) implies import_split(names, i) by {
            assert(l.has(i));
        }
        lemma_clashes(names, tree, *t, a);
        lemma_clashes_with(names, tree, *h, tree.top, a);
        lemma_plus_has(clashes_with(tree, *h, tree.top), clashes(tree, *t), conflicting(a));
        if clashes_with(tree, *h, tree.top).has(conflicting(a)) {
            let item = choose|item: u32| #[trigger]
                tree.top.has(item) && hidden_by(names, tree, *h, item);
            assert(hidden_by(names, tree, a, item));
        }
    }
}

proof fn lemma_unresolved_apart<D: TyDatabase>(db: &D, l: List<ImportItem>, a: ImportItem)
    ensures
        !unresolved(db, l).has(conflicting(a)),
    decreases l,
{
    if let List::Cons(_, t) = l {
        lemma_unresolved_apart(db, *t, a);
    }
}

proof fn lemma_unreleased_apart<W: Workspace>(ws: &W, l: List<ImportItem>, a: ImportItem)
    ensures
        !unreleased(ws, l).has(conflicting(a)),
        !unreleased_members(ws, l).has(conflicting(a)),
        !unknown_packages(ws, l).has(conflicting(a)),
    decreases l,
{
    reveal_with_fuel(List::has, 2);
    reveal_with_fuel(List::plus, 2);
    if let List::Cons(_, t) = l {
        lemma_unreleased_apart(ws, *t, a);
    }
}

proof fn lemma_unknown_apart<D: TyDatabase + Workspace>(db: &D, l: List<ImportItem>, a: ImportItem)
    ensures
        !unknown_owners(db, l).has(conflicting(a)),
    decreases l,
{
    reveal_with_fuel(List::has, 2);
    reveal_with_fuel(List::plus, 2);
    if let List::Cons(_, t) = l {
        lemma_unknown_apart(db, *t, a);
    }
}

/// A single import is reported as a conflict exactly where another one is of a
/// different class with the same simple name, or where a type of the file has
/// that simple name and is not the imported class.
pub proof fn law_conflicting_imports<D: TyDatabase + Workspace>(
    db: &D,
    names: Names,
    tree: ItemTree,
    a: ImportItem,
)
    requires
        names.wf(),
        forall|i: ImportItem|
            imports_of(tree.imports, false, false).has(i) ==> import_split(names, i),
        tree.package matches Some(p) ==> names.knows(p),
        imports_of(tree.imports, false, false).has(a),
    ensures
        import_reports(db, tree).has(conflicting(a)) <==> (exists|b: ImportItem| #[trigger]
            imports_of(tree.imports, false, false).has(b) && rivals(names, a, b)) || (exists|
            item: u32,
        | #[trigger] tree.top.has(item) && hidden_by(names, tree, a, item)),
{
    let single = imports_of(tree.imports, false, false);
    let x = conflicting(a);
    let l1 = unresolved(db, single);
    let l2 = unreleased(db, single);
    let l3 = unreleased_members(db, imports_of(tree.imports, true, false));
    let l4 = unknown_packages(db, imports_of(tree.imports, false, true));
    let l5 = unknown_owners(db, imports_of(tree.imports, true, true));
    lemma_plus_has(l1, l2, x);
    lemma_plus_has(l1.plus(l2), l3, x);
    lemma_plus_has(l1.plus(l2).plus(l3), l4, x);
    lemma_plus_has(l1.plus(l2).plus(l3).plus(l4), l5, x);
    lemma_plus_has(l1.plus(l2).plus(l3).plus(l4).plus(l5), conflicts(single), x);
    lemma_plus_has(
        l1.plus(l2).plus(l3).plus(l4).plus(l5).plus(conflicts(single)),
        clashes(tree, single),
        x,
    );
    lemma_unresolved_apart(db, single, a);
    lemma_unreleased_apart(db, single, a);
    lemma_unreleased_apart(db, imports_of(tree.imports, true, false), a);
    lemma_unreleased_apart(db, imports_of(tree.imports, false, true), a);
    lemma_unknown_apart(db, imports_of(tree.imports, true, true), a);
    let b = lemma_conflicts_found(names, single, a);
    assert(conflicts(single).has(x) ==> single.has(b) && rivals(names, a, b));
    assert forall|c: ImportItem| #[trigger] single.has(c) && rivals(names, a, c) implies conflicts(
        single,
    ).has(x) by {
        lemma_rival_conflicts(names, single, a, c);
    }
    lemma_clashes(names, tree, single, a);
}

} // verus!
