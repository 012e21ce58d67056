//! What the analysis asks about the classes it can see.
use crate::class_key::has_short_names;
use crate::body::{Const, Expr};
use crate::infer::diag::TypeError;
use crate::items::{ItemTree, TypeShape};
use crate::list::{Data, List};
use crate::member::{FieldData, InvocationContext, MethodData, MethodTypeParam};
use crate::names::{Name, Names};
use crate::ty::{SourceClass, Ty};
use vstd::prelude::*;

verus! {

/// What a class name resolves to.
#[derive(Clone, Copy, Debug, PartialEq, Eq)]
pub enum ClassInfo {
    /// A compiled class. The number of its type parameters is known where its
    /// generic signature is.
    Library { arity: Option<u32> },
    /// A source class, interface or record with its type parameters.
    Source { class: SourceClass, type_params: u32 },
    /// A source enum.
    SourceEnum { class: SourceClass },
    /// A source declaration that is none of these.
    SourceOther { class: SourceClass },
    /// The facade of a file of top-level functions.
    Facade,
}

impl Data for ClassInfo {
    fn copy(&self) -> (r: Self) {
        *self
    }

    fn same(&self, other: &Self) -> (r: bool) {
        match (self, other) {
            (ClassInfo::Library { arity: a }, ClassInfo::Library { arity: b }) => a.same(
                b,
            ),
            (
                ClassInfo::Source { class: a, type_params: m },
                ClassInfo::Source { class: b, type_params: n },
            ) => *a == *b && *m == *n,
            (ClassInfo::SourceEnum { class: a }, ClassInfo::SourceEnum { class: b }) => *a == *b,
            (ClassInfo::SourceOther { class: a }, ClassInfo::SourceOther { class: b }) => *a == *b,
            (ClassInfo::Facade, ClassInfo::Facade) => true,
            _ => false,
        }
    }
}

/// What a compiled class says of its kind.
#[derive(Clone, Copy, Debug, PartialEq, Eq, Structural)]
pub struct ClassRecord {
    /// The access flags of the class file.
    pub flags: u16,
    pub is_record: bool,
}

impl Data for ClassRecord {
    fn copy(&self) -> (r: Self) {
        *self
    }

    fn same(&self, other: &Self) -> (r: bool) {
        *self == *other
    }
}

/// What the name of a field denotes.
#[derive(Debug, PartialEq, Eq)]
pub enum FieldLookup {
    Found(FieldData),
    /// Fields of the name from unrelated types.
    Ambiguous,
    Missing,
}

/// The classes visible from one place, as answers to questions about types.
/// Each question has a mathematical answer, and the method that asks it
/// returns that answer.
pub trait TyDatabase {
    /// How many steps a search through the class hierarchy or a bound set may
    /// take before it is given up.
    spec fn limit(&self) -> u64;

    /// Whether the first type is a subtype of the second.
    spec fn subtype(&self, a: Ty, b: Ty) -> bool;

    /// Whether the first type converts to the second in an assignment.
    spec fn assignable(&self, a: Ty, b: Ty) -> bool;

    /// Whether the first type converts to the second in a strict invocation.
    spec fn strict(&self, a: Ty, b: Ty) -> bool;

    /// The direct supertypes.
    spec fn parents(&self, t: Ty) -> List<Ty>;

    /// The capture conversion.
    spec fn captured(&self, t: Ty) -> Ty;

    /// What a canonical class name resolves to.
    spec fn class_info(&self, name: Name) -> Option<ClassInfo>;

    /// The function type of a functional interface type.
    spec fn sam(&self, t: Ty) -> Option<MethodData>;

    /// The methods called `name` that an invocation on `receiver` in this
    /// context may choose from.
    spec fn members(&self, receiver: Ty, name: Name, ctx: InvocationContext) -> List<MethodData>;

    /// The canonical name of a source class, where it has one.
    spec fn canonical(&self, class: SourceClass) -> Option<Name>;

    /// The simple name a source class is declared with.
    spec fn declared_name(&self, class: SourceClass) -> Name;

    /// The canonical names of the classes around a source class, innermost
    /// first.
    spec fn enclosing_types(&self, class: SourceClass) -> List<Name>;

    /// The written bounds of each type parameter of a compiled class.
    spec fn library_bounds(&self, name: Name) -> Option<List<List<TypeShape>>>;

    /// The type a written type means inside the declaration `item` of `file`.
    spec fn resolved_type(&self, file: u32, item: u32, shape: TypeShape) -> Ty;

    /// The declared types of the parameters of a method. The last one of a
    /// variable arity method is the type of an element.
    spec fn declared_params(&self, file: u32, item: u32) -> List<Ty>;

    /// The type of a field, or the return type of a method.
    spec fn declared_type(&self, file: u32, item: u32) -> Ty;

    /// Whether a class has type parameters.
    spec fn generic(&self, name: Name) -> bool;

    /// The table of the names that the classes and members go by. It has their
    /// shorter names too. What is called by a text without a name in it is no
    /// class of the database.
    spec fn table(&self) -> Names;

    /// The field called `name` that an access to `receiver` in this context
    /// means.
    spec fn field(&self, receiver: Ty, name: Name, ctx: InvocationContext) -> FieldLookup;

    /// The field called `name` of `receiver`, whether it is accessible or not.
    spec fn hidden_field(&self, receiver: Ty, name: Name, ctx: InvocationContext) -> Option<
        FieldData,
    >;

    /// The methods called `name` of `receiver`, whether they are accessible or
    /// not.
    spec fn hidden_members(&self, receiver: Ty, name: Name, ctx: InvocationContext) -> List<
        MethodData,
    >;

    /// The classes and the members of theirs that a simple name may denote by
    /// static imports.
    spec fn static_imports(&self, file: u32, item: u32, simple: Name) -> List<(Name, Name)>;

    /// The names of the constants of an enum.
    spec fn constants(&self, t: Ty) -> Option<List<Name>>;

    /// Whether the type is a class rather than an interface, where that is
    /// known.
    spec fn class_like(&self, t: Ty) -> Option<bool>;

    /// The canonical names that a dotted name may stand for, in order.
    spec fn candidates(&self, file: u32, item: u32, path: List<Name>) -> List<Name>;

    /// The type parameter whose bound an argument violates, with the argument
    /// and the bound.
    spec fn out_of_bounds(&self, name: Name, args: List<Ty>) -> Option<(Name, (Ty, Ty))>;

    /// The number of components of a compiled record.
    spec fn library_components(&self, name: Name) -> Option<u32>;

    /// What a compiled class says of its kind. A module has no such record.
    spec fn library_record(&self, name: Name) -> Option<ClassRecord>;

    /// Whether a class is a compiled enum.
    spec fn library_enum(&self, name: Name) -> bool;

    /// A written type as the name of a member class of a type.
    spec fn member_type(&self, receiver: Ty, shape: TypeShape) -> Option<TypeShape>;

    /// The type parameters of a compiled class, where its generic signature is
    /// known.
    spec fn library_params(&self, name: Name) -> Option<List<MethodTypeParam>>;

    /// The declarations of a file.
    spec fn tree_of(&self, file: u32) -> ItemTree;

    /// The blank final fields that the body of a declaration assigns, where its
    /// inference is finished.
    spec fn touched_by(&self, file: u32, item: u32) -> Option<List<Name>>;

    /// The value of a constant expression, given the constant variables.
    spec fn constant(&self, e: Expr, env: List<(Name, Const)>) -> Option<Const>;

    /// Further reports on the API that an invocation uses.
    spec fn api_reports(&self, expr: u32, method: MethodData) -> List<TypeError>;

    /// Further reports on the API that a type name in an expression uses.
    spec fn type_reports(&self, expr: u32, ty: Ty) -> List<TypeError>;

    /// Further reports on unchecked conversions by an invocation with these
    /// arguments.
    spec fn unchecked_reports(
        &self,
        expr: u32,
        method: MethodData,
        args: List<Option<Ty>>,
    ) -> List<TypeError>;

    fn step_limit(&self) -> (r: u64)
        ensures
            r == self.limit(),
    ;

    fn is_subtype(&self, a: &Ty, b: &Ty) -> (r: bool)
        ensures
            r == self.subtype(*a, *b),
    ;

    fn is_assignable(&self, a: &Ty, b: &Ty) -> (r: bool)
        ensures
            r == self.assignable(*a, *b),
    ;

    fn strict_conversion(&self, a: &Ty, b: &Ty) -> (r: bool)
        ensures
            r == self.strict(*a, *b),
    ;

    fn supertypes(&self, t: &Ty) -> (r: List<Ty>)
        ensures
            r == self.parents(*t),
    ;

    fn capture_conversion(&self, t: &Ty) -> (r: Ty)
        ensures
            r == self.captured(*t),
    ;

    fn resolve_class(&self, name: Name) -> (r: Option<ClassInfo>)
        ensures
            r == self.class_info(name),
    ;

    fn single_abstract_method(&self, t: &Ty) -> (r: Option<MethodData>)
        ensures
            r == self.sam(*t),
    ;

    fn member_set(&self, receiver: &Ty, name: Name, ctx: &InvocationContext) -> (r: List<
        MethodData,
    >)
        ensures
            r == self.members(*receiver, name, *ctx),
    ;

    fn canonical_name(&self, class: SourceClass) -> (r: Option<Name>)
        ensures
            r == self.canonical(class),
    ;

    fn source_name(&self, class: SourceClass) -> (r: Name)
        ensures
            r == self.declared_name(class),
    ;

    fn enclosing_type_chain(&self, class: SourceClass) -> (r: List<Name>)
        ensures
            r == self.enclosing_types(class),
    ;

    fn library_type_param_bounds(&self, name: Name) -> (r: Option<List<List<TypeShape>>>)
        ensures
            r == self.library_bounds(name),
    ;

    fn resolve_type_ref(&self, file: u32, item: u32, shape: &TypeShape) -> (r: Ty)
        ensures
            r == self.resolved_type(file, item, *shape),
    ;

    fn method_params(&self, file: u32, item: u32) -> (r: List<Ty>)
        ensures
            r == self.declared_params(file, item),
    ;

    fn item_ty(&self, file: u32, item: u32) -> (r: Ty)
        ensures
            r == self.declared_type(file, item),
    ;

    fn class_is_generic(&self, name: Name) -> (r: bool)
        ensures
            r == self.generic(name),
    ;

    fn names(&self) -> (r: &Names)
        ensures
            *r == self.table(),
            has_short_names(self.table()),
    ;

    fn pick_field_lookup(&self, receiver: &Ty, name: Name, ctx: &InvocationContext) -> (r:
        FieldLookup)
        ensures
            r == self.field(*receiver, name, *ctx),
    ;

    fn pick_field_ignoring_access(
        &self,
        receiver: &Ty,
        name: Name,
        ctx: &InvocationContext,
    ) -> (r: Option<FieldData>)
        ensures
            r == self.hidden_field(*receiver, name, *ctx),
    ;

    fn member_set_ignoring_access(
        &self,
        receiver: &Ty,
        name: Name,
        ctx: &InvocationContext,
    ) -> (r: List<MethodData>)
        ensures
            r == self.hidden_members(*receiver, name, *ctx),
    ;

    fn static_import_owners(&self, file: u32, item: u32, simple: Name) -> (r: List<(Name, Name)>)
        ensures
            r == self.static_imports(file, item, simple),
    ;

    fn enum_constants(&self, t: &Ty) -> (r: Option<List<Name>>)
        ensures
            r == self.constants(*t),
    ;

    fn is_class_like(&self, t: &Ty) -> (r: Option<bool>)
        ensures
            r == self.class_like(*t),
    ;

    fn candidate_fqns(&self, file: u32, item: u32, path: &List<Name>) -> (r: List<Name>)
        ensures
            r == self.candidates(file, item, *path),
    ;

    fn type_argument_bound_violation(&self, name: Name, args: &List<Ty>) -> (r: Option<
        (Name, (Ty, Ty)),
    >)
        ensures
            r == self.out_of_bounds(name, *args),
    ;

    fn library_record_components(&self, name: Name) -> (r: Option<u32>)
        ensures
            r == self.library_components(name),
    ;

    fn class_record(&self, name: Name) -> (r: Option<ClassRecord>)
        ensures
            r == self.library_record(name),
    ;

    fn is_library_enum(&self, name: Name) -> (r: bool)
        ensures
            r == self.library_enum(name),
    ;

    fn qualify_member_type_of(&self, receiver: &Ty, shape: &TypeShape) -> (r: Option<TypeShape>)
        ensures
            r == self.member_type(*receiver, *shape),
    ;

    fn library_type_params(&self, name: Name) -> (r: Option<List<MethodTypeParam>>)
        ensures
            r == self.library_params(name),
    ;

    fn file_item_tree(&self, file: u32) -> (r: &ItemTree)
        ensures
            *r == self.tree_of(file),
    ;

    fn field_touched(&self, file: u32, item: u32) -> (r: Option<List<Name>>)
        ensures
            r == self.touched_by(file, item),
    ;

    fn const_value(&self, e: &Expr, env: &List<(Name, Const)>) -> (r: Option<Const>)
        ensures
            r == self.constant(*e, *env),
    ;

    fn check_api(&self, expr: u32, method: &MethodData) -> (r: List<TypeError>)
        ensures
            r == self.api_reports(expr, *method),
    ;

    fn check_type_name(&self, expr: u32, ty: &Ty) -> (r: List<TypeError>)
        ensures
            r == self.type_reports(expr, *ty),
    ;

    fn check_unchecked(&self, expr: u32, method: &MethodData, args: &List<Option<Ty>>) -> (r: List<
        TypeError,
    >)
        ensures
            r == self.unchecked_reports(expr, *method, *args),
    ;
}

} // verus!
