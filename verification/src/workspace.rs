//! What the checks of a file ask about the workspace it belongs to.
use crate::items::TypeShape;
use crate::level_check::JavaLanguageLevel;
use crate::list::{Data, List};
use crate::names::Name;
use crate::syntax::SourceFile;
use crate::ty::Ty;
use vstd::prelude::*;

verus! {

/// Where the names of a file are looked up: the source set it belongs to, a
/// set of libraries, or the built-in classes alone.
#[derive(Debug, PartialEq, Eq)]
pub enum ResolutionScope {
    SourceSet(u32),
    Classpath(List<u32>),
    JdkBuiltins,
}

impl Data for ResolutionScope {
    fn copy(&self) -> (r: Self) {
        match self {
            ResolutionScope::SourceSet(s) => ResolutionScope::SourceSet(*s),
            ResolutionScope::Classpath(l) => ResolutionScope::Classpath(l.copy()),
            ResolutionScope::JdkBuiltins => ResolutionScope::JdkBuiltins,
        }
    }

    fn same(&self, other: &Self) -> (r: bool) {
        match (self, other) {
            (ResolutionScope::SourceSet(a), ResolutionScope::SourceSet(b)) => *a == *b,
            (ResolutionScope::Classpath(a), ResolutionScope::Classpath(b)) => a.same(b),
            (ResolutionScope::JdkBuiltins, ResolutionScope::JdkBuiltins) => true,
            _ => false,
        }
    }
}

/// What a name in a type reference denotes.
#[derive(Clone, Copy, Debug, PartialEq, Eq, Structural)]
pub enum NameResolution {
    /// A type variable in scope.
    TypeVar,
    /// A class.
    Resolved(Name),
    /// More than one class of on-demand imports.
    Ambiguous,
    /// A class in a package that the module does not see.
    NotAccessible,
    Unresolved,
}

/// How something is deprecated.
#[derive(Clone, Copy, Debug, PartialEq, Eq, Structural)]
pub struct Deprecation {
    pub for_removal: bool,
}

impl Data for Deprecation {
    fn copy(&self) -> (r: Self) {
        *self
    }

    fn same(&self, other: &Self) -> (r: bool) {
        *self == *other
    }
}

/// The two releases of a report on an API: the one compiled against, and the
/// first one that has the API.
#[derive(Clone, Copy, Debug, PartialEq, Eq, Structural)]
pub struct Releases {
    pub found: u8,
    pub added: u8,
}

/// The workspace seen from one file, as answers to questions. Each question
/// has a mathematical answer, and the method that asks it returns that answer.
pub trait Workspace {
    /// Whether the project is loaded.
    spec fn loaded(&self) -> bool;

    /// Where names are looked up.
    spec fn scope(&self) -> ResolutionScope;

    /// The libraries of the built-in classes.
    spec fn builtins(&self) -> List<u32>;

    /// The release a source set is compiled against.
    spec fn release_of_set(&self, set: u32) -> Option<u8>;

    /// The library a compiled class is from.
    spec fn library_of(&self, name: Name) -> Option<u32>;

    /// The releases to report where a release has no such class.
    spec fn class_missing(&self, library: u32, release: u8, name: Name) -> Option<Releases>;

    /// The releases to report where a release has no such member. Without a
    /// descriptor, any member of the name counts.
    spec fn member_missing(
        &self,
        library: u32,
        release: u8,
        owner: Name,
        member: Name,
        descriptor: Option<Name>,
    ) -> Option<Releases>;

    /// What a name denotes inside a declaration.
    spec fn name_meaning(&self, file: u32, item: u32, name: Name) -> NameResolution;

    /// Whether there is a package of this name.
    spec fn package_known(&self, name: Name) -> bool;

    /// The first type inside a written type with a wrong number of type
    /// arguments, with the right number.
    spec fn arity_mismatch(&self, file: u32, item: u32, shape: TypeShape) -> Option<(Ty, u32)>;

    /// The deprecated ones among a class and the classes around it.
    spec fn deprecations(&self, name: Name) -> List<(Deprecation, Name)>;

    /// Whether a use of a deprecated class is exempt inside a deprecated
    /// declaration or its own outermost class.
    spec fn exempt(
        &self,
        enclosing: Option<Deprecation>,
        outermost: Name,
        api: Name,
        deprecation: Deprecation,
    ) -> bool;

    /// The deprecation in force for a declaration.
    spec fn deprecated_around(&self, file: u32, item: u32) -> Option<Deprecation>;

    /// The source level of a file.
    spec fn level_of(&self, file: u32) -> Option<JavaLanguageLevel>;

    /// The syntax of a file.
    spec fn source_of(&self, file: u32) -> SourceFile;

    /// A type as text.
    spec fn shown(&self, t: Ty) -> Seq<char>;

    fn is_loaded(&self) -> (r: bool)
        ensures
            r == self.loaded(),
    ;

    fn resolution_scope(&self) -> (r: ResolutionScope)
        ensures
            r == self.scope(),
    ;

    fn jdk_builtin_libraries(&self) -> (r: List<u32>)
        ensures
            r == self.builtins(),
    ;

    fn release_for_source_set(&self, set: u32) -> (r: Option<u8>)
        ensures
            r == self.release_of_set(set),
    ;

    fn class_library(&self, name: Name) -> (r: Option<u32>)
        ensures
            r == self.library_of(name),
    ;

    fn class_not_in_release(&self, library: u32, release: u8, name: Name) -> (r: Option<Releases>)
        ensures
            r == self.class_missing(library, release, name),
    ;

    fn member_not_in_release(
        &self,
        library: u32,
        release: u8,
        owner: Name,
        member: Name,
        descriptor: Option<Name>,
    ) -> (r: Option<Releases>)
        ensures
            r == self.member_missing(library, release, owner, member, descriptor),
    ;

    fn resolve_name_checked(&self, file: u32, item: u32, name: Name) -> (r: NameResolution)
        ensures
            r == self.name_meaning(file, item, name),
    ;

    fn package_exists(&self, name: Name) -> (r: bool)
        ensures
            r == self.package_known(name),
    ;

    fn type_argument_arity_mismatch(&self, file: u32, item: u32, shape: &TypeShape) -> (r: Option<
        (Ty, u32),
    >)
        ensures
            r == self.arity_mismatch(file, item, *shape),
    ;

    fn class_hits(&self, name: Name) -> (r: List<(Deprecation, Name)>)
        ensures
            r == self.deprecations(name),
    ;

    fn is_exempt(
        &self,
        enclosing: Option<Deprecation>,
        outermost: Name,
        api: Name,
        deprecation: Deprecation,
    ) -> (r: bool)
        ensures
            r == self.exempt(enclosing, outermost, api, deprecation),
    ;

    fn deprecated_enclosing(&self, file: u32, item: u32) -> (r: Option<Deprecation>)
        ensures
            r == self.deprecated_around(file, item),
    ;

    fn language_level_for_file(&self, file: u32) -> (r: Option<JavaLanguageLevel>)
        ensures
            r == self.level_of(file),
    ;

    fn parse(&self, file: u32) -> (r: &SourceFile)
        ensures
            *r == self.source_of(file),
    ;

    fn display(&self, t: &Ty) -> (r: String)
        ensures
            r@ == self.shown(*t),
    ;
}

} // verus!
