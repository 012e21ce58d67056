//! Answers about classes and a workspace that are known in advance.
use crate::access::{allowed, mode_allows};
use crate::body::{Const, Expr, ExprKind, Literal};
use crate::class_key::ClassTable;
use crate::db::{ClassInfo, ClassRecord, FieldLookup, TyDatabase};
use crate::infer::diag::TypeError;
use crate::items::{ItemTree, LanguageKind, TypeShape};
use crate::level_check::JavaLanguageLevel;
use crate::list::{assoc_get, get_assoc, Data, List};
use crate::member::{FieldData, InvocationContext, InvocationMode, MethodData, MethodTypeParam};
use crate::names::{Name, Names};
use crate::syntax::SourceFile;
use crate::ty::{SourceClass, Ty, WildcardBound};
use crate::workspace::{Deprecation, NameResolution, Releases, ResolutionScope, Workspace};
use vstd::prelude::*;

verus! {

impl Data for JavaLanguageLevel {
    fn copy(&self) -> (r: Self) {
        *self
    }

    fn same(&self, other: &Self) -> (r: bool) {
        *self == *other
    }
}

impl Data for Releases {
    fn copy(&self) -> (r: Self) {
        *self
    }

    fn same(&self, other: &Self) -> (r: bool) {
        *self == *other
    }
}

impl Data for NameResolution {
    fn copy(&self) -> (r: Self) {
        *self
    }

    fn same(&self, other: &Self) -> (r: bool) {
        *self == *other
    }
}

/// Tables of answers. A class goes by its canonical name wherever it is written,
/// and what no table holds is not so, or not known.
pub struct Facts {
    pub limit: u64,
    pub subtypes: List<(Ty, Ty)>,
    /// Conversions that are allowed in an assignment beside those to a
    /// supertype.
    pub conversions: List<(Ty, Ty)>,
    pub parents: List<(Ty, List<Ty>)>,
    pub captures: List<(Ty, Ty)>,
    pub classes: List<(Name, ClassInfo)>,
    pub functions: List<(Ty, MethodData)>,
    pub methods: List<((Ty, Name), List<MethodData>)>,
    pub fields: List<((Ty, Name), List<FieldData>)>,
    pub canonical: List<(SourceClass, Name)>,
    pub declared: List<(SourceClass, Name)>,
    pub enclosing: List<(SourceClass, List<Name>)>,
    pub library_bounds: List<(Name, List<List<TypeShape>>)>,
    /// The types of names that are no classes.
    pub type_names: List<(Name, Ty)>,
    pub params: List<((u32, u32), List<Ty>)>,
    pub types: List<((u32, u32), Ty)>,
    pub generic: List<Name>,
    pub static_imports: List<(Name, List<(Name, Name)>)>,
    pub constants: List<(Ty, List<Name>)>,
    pub class_like: List<(Ty, bool)>,
    pub candidates: List<(List<Name>, List<Name>)>,
    pub out_of_bounds: List<(Name, (Name, (Ty, Ty)))>,
    pub components: List<(Name, u32)>,
    pub records: List<(Name, ClassRecord)>,
    pub library_enums: List<Name>,
    pub member_types: List<((Ty, TypeShape), TypeShape)>,
    pub library_params: List<(Name, List<MethodTypeParam>)>,
    pub trees: List<(u32, ItemTree)>,
    /// The declarations of a file that is in no table.
    pub no_tree: ItemTree,
    pub touched: List<((u32, u32), List<Name>)>,
    /// The values of the expressions that are neither literals nor names.
    pub values: List<(u32, Const)>,
    pub loaded: bool,
    pub scope: ResolutionScope,
    pub builtins: List<u32>,
    pub releases: List<(u32, u8)>,
    pub libraries: List<(Name, u32)>,
    pub missing_classes: List<((u32, Name), Releases)>,
    pub missing_members: List<((Name, Name), Releases)>,
    pub meanings: List<(Name, NameResolution)>,
    pub packages: List<Name>,
    pub arities: List<(TypeShape, (Ty, u32))>,
    pub deprecations: List<(Name, List<(Deprecation, Name)>)>,
    pub deprecated: List<((u32, u32), Deprecation)>,
    pub levels: List<(u32, JavaLanguageLevel)>,
    pub sources: List<(u32, SourceFile)>,
    /// The syntax of a file that is in no table.
    pub no_source: SourceFile,
    pub names: ClassTable,
}

/// What a list holds for a key, or an empty list.
pub open spec fn listed_for<K, V>(l: List<(K, List<V>)>, k: K) -> List<V> {
    match assoc_get(l, k) {
        Some(v) => v,
        None => List::Nil,
    }
}

fn find_listed_for<K: Data, V: Data>(l: &List<(K, List<V>)>, k: &K) -> (r: List<V>)
    ensures
        r == listed_for(*l, *k),
{
    match get_assoc(l, k) {
        Some(v) => v,
        None => List::Nil,
    }
}

/// The methods that a form of invocation may choose.
pub open spec fn choosable(l: List<MethodData>, mode: InvocationMode) -> List<MethodData>
    decreases l,
{
    match l {
        List::Nil => List::Nil,
        List::Cons(h, t) => if allowed(*h, mode) {
            List::Cons(h, Box::new(choosable(*t, mode)))
        } else {
            choosable(*t, mode)
        },
    }
}

fn keep_choosable(l: List<MethodData>, ctx: &InvocationContext) -> (r: List<MethodData>)
    ensures
        r == choosable(l, ctx.mode),
    decreases l,
{
    match l {
        List::Nil => List::Nil,
        List::Cons(h, t) => {
            let keep = mode_allows(&h, ctx);
            let rest = keep_choosable(*t, ctx);
            if keep {
                List::Cons(h, Box::new(rest))
            } else {
                rest
            }
        },
    }
}

/// What a file has in a table, where it is in it.
pub open spec fn entry_of<T>(l: List<(u32, T)>, file: u32) -> Option<T>
    decreases l,
{
    match l {
        List::Nil => None,
        List::Cons(h, t) => if h.0 == file {
            Some(h.1)
        } else {
            entry_of(*t, file)
        },
    }
}

fn find_entry<'a, T>(l: &'a List<(u32, T)>, file: u32) -> (r: Option<&'a T>)
    ensures
        match r {
            Some(x) => entry_of(*l, file) == Some(*x),
            None => entry_of(*l, file) is None,
        },
    decreases l,
{
    match l {
        List::Nil => None,
        List::Cons(h, t) => if h.0 == file {
            Some(&h.1)
        } else {
            find_entry(t, file)
        },
    }
}

/// The releases of a table entry, where it is about the release.
pub open spec fn about_release(r: Option<Releases>, release: u8) -> Option<Releases> {
    match r {
        Some(x) => if x.found == release {
            Some(x)
        } else {
            None
        },
        None => None,
    }
}

fn if_about_release(r: Option<Releases>, release: u8) -> (out: Option<Releases>)
    ensures
        out == about_release(r, release),
{
    match r {
        Some(x) => if x.found == release {
            Some(x)
        } else {
            None
        },
        None => None,
    }
}

impl Facts {
    /// The type that a written type means.
    pub open spec fn meaning(self, shape: TypeShape) -> Ty
        decreases shape,
    {
        match shape {
            TypeShape::Primitive(p) => Ty::Primitive(p),
            TypeShape::Named { name, args } => match assoc_get(self.type_names, name) {
                Some(t) => t,
                None => if assoc_get(self.classes, name) is Some {
                    Ty::Reference { name, args: Box::new(self.meanings_of(*args)), local: None }
                } else {
                    Ty::Error
                },
            },
            TypeShape::Array(s) => Ty::Array(Box::new(self.meaning(*s))),
            TypeShape::Any => Ty::Wildcard(WildcardBound::Unbounded),
            TypeShape::Extends(s) => Ty::Wildcard(WildcardBound::Upper(Box::new(self.meaning(*s)))),
            TypeShape::Super(s) => Ty::Wildcard(WildcardBound::Lower(Box::new(self.meaning(*s)))),
            TypeShape::Dotted(_) => Ty::Error,
            TypeShape::Missing => Ty::Error,
        }
    }

    pub open spec fn meanings_of(self, l: List<TypeShape>) -> List<Ty>
        decreases l,
    {
        match l {
            List::Nil => List::Nil,
            List::Cons(h, t) => List::Cons(
                Box::new(self.meaning(*h)),
                Box::new(self.meanings_of(*t)),
            ),
        }
    }

    fn find_meaning(&self, shape: &TypeShape) -> (r: Ty)
        ensures
            r == self.meaning(*shape),
        decreases shape,
    {
        match shape {
            TypeShape::Primitive(p) => Ty::Primitive(*p),
            TypeShape::Named { name, args } => match get_assoc(&self.type_names, name) {
                Some(t) => t,
                None => if get_assoc(&self.classes, name).is_some() {
                    Ty::reference(*name, self.find_meanings(args))
                } else {
                    Ty::Error
                },
            },
            TypeShape::Array(s) => Ty::array(self.find_meaning(s)),
            TypeShape::Any => Ty::Wildcard(WildcardBound::Unbounded),
            TypeShape::Extends(s) => Ty::Wildcard(
                WildcardBound::Upper(Box::new(self.find_meaning(s))),
            ),
            TypeShape::Super(s) => Ty::Wildcard(
                WildcardBound::Lower(Box::new(self.find_meaning(s))),
            ),
            TypeShape::Dotted(_) => Ty::Error,
            TypeShape::Missing => Ty::Error,
        }
    }

    fn find_meanings(&self, l: &List<TypeShape>) -> (r: List<Ty>)
        ensures
            r == self.meanings_of(*l),
        decreases l,
    {
        match l {
            List::Nil => List::Nil,
            List::Cons(h, t) => List::cons(self.find_meaning(h), self.find_meanings(t)),
        }
    }

    /// The value of an expression: of a literal, of the name of a constant, or
    /// what the table holds.
    pub open spec fn value_of(self, e: Expr, env: List<(Name, Const)>) -> Option<Const>
        decreases e,
    {
        match e.kind {
            ExprKind::Literal(Literal::Int(i)) => Some(Const::Int(i)),
            ExprKind::Literal(Literal::Boolean(b)) => Some(Const::Bool(b)),
            ExprKind::Literal(Literal::Str(s)) => Some(Const::Str(s)),
            ExprKind::Var(name) => assoc_get(env, name),
            ExprKind::Paren(inner) => self.value_of(*inner, env),
            _ => assoc_get(self.values, e.id),
        }
    }

    fn find_value(&self, e: &Expr, env: &List<(Name, Const)>) -> (r: Option<Const>)
        ensures
            r == self.value_of(*e, *env),
        decreases e,
    {
        match &e.kind {
            ExprKind::Literal(Literal::Int(i)) => Some(Const::Int(*i)),
            ExprKind::Literal(Literal::Boolean(b)) => Some(Const::Bool(*b)),
            ExprKind::Literal(Literal::Str(s)) => Some(Const::Str(*s)),
            ExprKind::Var(name) => get_assoc(env, name),
            ExprKind::Paren(inner) => self.find_value(inner, env),
            _ => get_assoc(&self.values, &e.id),
        }
    }

    /// No answers, with a limit on the steps of a search.
    pub fn new(limit: u64) -> (r: Facts)
        ensures
            r.limit == limit,
            r.subtypes is Nil,
            r.conversions is Nil,
            r.parents is Nil,
            r.captures is Nil,
            r.classes is Nil,
            r.functions is Nil,
            r.methods is Nil,
            r.fields is Nil,
            r.canonical is Nil,
            r.declared is Nil,
            r.enclosing is Nil,
            r.library_bounds is Nil,
            r.type_names is Nil,
            r.params is Nil,
            r.types is Nil,
            r.generic is Nil,
            r.static_imports is Nil,
            r.constants is Nil,
            r.class_like is Nil,
            r.candidates is Nil,
            r.out_of_bounds is Nil,
            r.components is Nil,
            r.records is Nil,
            r.library_enums is Nil,
            r.member_types is Nil,
            r.library_params is Nil,
            r.trees is Nil,
            r.touched is Nil,
            r.values is Nil,
            r.builtins is Nil,
            r.releases is Nil,
            r.libraries is Nil,
            r.missing_classes is Nil,
            r.missing_members is Nil,
            r.meanings is Nil,
            r.packages is Nil,
            r.arities is Nil,
            r.deprecations is Nil,
            r.deprecated is Nil,
            r.levels is Nil,
            r.sources is Nil,
            r.no_tree.items@.len() == 0,
            r.no_tree.language == LanguageKind::Java,
            r.no_tree.top is Nil,
            r.no_tree.imports is Nil,
            r.no_tree.package is None,
            r.no_tree.package_decls is Nil,
            r.loaded,
            r.scope == ResolutionScope::JdkBuiltins,
            r.no_source is Kotlin,
            r.names.table().texts@.len() <= 60,
    {
        Facts {
            limit,
            subtypes: List::Nil,
            conversions: List::Nil,
            parents: List::Nil,
            captures: List::Nil,
            classes: List::Nil,
            functions: List::Nil,
            methods: List::Nil,
            fields: List::Nil,
            canonical: List::Nil,
            declared: List::Nil,
            enclosing: List::Nil,
            library_bounds: List::Nil,
            type_names: List::Nil,
            params: List::Nil,
            types: List::Nil,
            generic: List::Nil,
            static_imports: List::Nil,
            constants: List::Nil,
            class_like: List::Nil,
            candidates: List::Nil,
            out_of_bounds: List::Nil,
            components: List::Nil,
            records: List::Nil,
            library_enums: List::Nil,
            member_types: List::Nil,
            library_params: List::Nil,
            trees: List::Nil,
            no_tree: ItemTree {
                language: LanguageKind::Java,
                items: Vec::new(),
                top: List::Nil,
                imports: List::Nil,
                package: None,
                package_decls: List::Nil,
            },
            touched: List::Nil,
            values: List::Nil,
            loaded: true,
            scope: ResolutionScope::JdkBuiltins,
            builtins: List::Nil,
            releases: List::Nil,
            libraries: List::Nil,
            missing_classes: List::Nil,
            missing_members: List::Nil,
            meanings: List::Nil,
            packages: List::Nil,
            arities: List::Nil,
            deprecations: List::Nil,
            deprecated: List::Nil,
            levels: List::Nil,
            sources: List::Nil,
            no_source: SourceFile::Kotlin,
            names: ClassTable::new(),
        }
    }
}

impl TyDatabase for Facts {
    open spec fn limit(&self) -> u64 {
        self.limit
    }

    open spec fn subtype(&self, a: Ty, b: Ty) -> bool {
        a == b || self.subtypes.has((a, b))
    }

    open spec fn assignable(&self, a: Ty, b: Ty) -> bool {
        a == b || self.subtypes.has((a, b)) || self.conversions.has((a, b))
    }

    open spec fn strict(&self, a: Ty, b: Ty) -> bool {
        a == b || self.subtypes.has((a, b))
    }

    open spec fn parents(&self, t: Ty) -> List<Ty> {
        listed_for(self.parents, t)
    }

    open spec fn captured(&self, t: Ty) -> Ty {
        match assoc_get(self.captures, t) {
            Some(c) => c,
            None => t,
        }
    }

    open spec fn class_info(&self, name: Name) -> Option<ClassInfo> {
        assoc_get(self.classes, name)
    }

    open spec fn sam(&self, t: Ty) -> Option<MethodData> {
        assoc_get(self.functions, t)
    }

    open spec fn members(&self, receiver: Ty, name: Name, ctx: InvocationContext) -> List<
        MethodData,
    > {
        choosable(listed_for(self.methods, (receiver, name)), ctx.mode)
    }

    open spec fn canonical(&self, class: SourceClass) -> Option<Name> {
        assoc_get(self.canonical, class)
    }

    open spec fn declared_name(&self, class: SourceClass) -> Name {
        match assoc_get(self.declared, class) {
            Some(n) => n,
            None => Name::Empty,
        }
    }

    open spec fn enclosing_types(&self, class: SourceClass) -> List<Name> {
        listed_for(self.enclosing, class)
    }

    open spec fn library_bounds(&self, name: Name) -> Option<List<List<TypeShape>>> {
        assoc_get(self.library_bounds, name)
    }

    open spec fn resolved_type(&self, file: u32, item: u32, shape: TypeShape) -> Ty {
        self.meaning(shape)
    }

    open spec fn declared_params(&self, file: u32, item: u32) -> List<Ty> {
        listed_for(self.params, (file, item))
    }

    open spec fn declared_type(&self, file: u32, item: u32) -> Ty {
        match assoc_get(self.types, (file, item)) {
            Some(t) => t,
            None => Ty::Error,
        }
    }

    open spec fn generic(&self, name: Name) -> bool {
        self.generic.has(name)
    }

    open spec fn table(&self) -> Names {
        self.names.table()
    }

    open spec fn field(&self, receiver: Ty, name: Name, ctx: InvocationContext) -> FieldLookup {
        match listed_for(self.fields, (receiver, name)) {
            List::Nil => FieldLookup::Missing,
            List::Cons(f, rest) => if *rest is Nil {
                FieldLookup::Found(*f)
            } else {
                FieldLookup::Ambiguous
            },
        }
    }

    open spec fn hidden_field(&self, receiver: Ty, name: Name, ctx: InvocationContext) -> Option<
        FieldData,
    > {
        match listed_for(self.fields, (receiver, name)) {
            List::Nil => None,
            List::Cons(f, _) => Some(*f),
        }
    }

    open spec fn hidden_members(&self, receiver: Ty, name: Name, ctx: InvocationContext) -> List<
        MethodData,
    > {
        listed_for(self.methods, (receiver, name))
    }

    open spec fn static_imports(&self, file: u32, item: u32, simple: Name) -> List<(Name, Name)> {
        listed_for(self.static_imports, simple)
    }

    open spec fn constants(&self, t: Ty) -> Option<List<Name>> {
        assoc_get(self.constants, t)
    }

    open spec fn class_like(&self, t: Ty) -> Option<bool> {
        assoc_get(self.class_like, t)
    }

    open spec fn candidates(&self, file: u32, item: u32, path: List<Name>) -> List<Name> {
        listed_for(self.candidates, path)
    }

    open spec fn out_of_bounds(&self, name: Name, args: List<Ty>) -> Option<(Name, (Ty, Ty))> {
        assoc_get(self.out_of_bounds, name)
    }

    open spec fn library_components(&self, name: Name) -> Option<u32> {
        assoc_get(self.components, name)
    }

    open spec fn library_record(&self, name: Name) -> Option<ClassRecord> {
        assoc_get(self.records, name)
    }

    open spec fn library_enum(&self, name: Name) -> bool {
        self.library_enums.has(name)
    }

    open spec fn member_type(&self, receiver: Ty, shape: TypeShape) -> Option<TypeShape> {
        assoc_get(self.member_types, (receiver, shape))
    }

    open spec fn library_params(&self, name: Name) -> Option<List<MethodTypeParam>> {
        assoc_get(self.library_params, name)
    }

    open spec fn tree_of(&self, file: u32) -> ItemTree {
        match entry_of(self.trees, file) {
            Some(t) => t,
            None => self.no_tree,
        }
    }

    open spec fn touched_by(&self, file: u32, item: u32) -> Option<List<Name>> {
        assoc_get(self.touched, (file, item))
    }

    open spec fn constant(&self, e: Expr, env: List<(Name, Const)>) -> Option<Const> {
        self.value_of(e, env)
    }

    open spec fn api_reports(&self, expr: u32, method: MethodData) -> List<TypeError> {
        List::Nil
    }

    open spec fn type_reports(&self, expr: u32, ty: Ty) -> List<TypeError> {
        List::Nil
    }

    open spec fn unchecked_reports(
        &self,
        expr: u32,
        method: MethodData,
        args: List<Option<Ty>>,
    ) -> List<TypeError> {
        List::Nil
    }

    fn step_limit(&self) -> (r: u64) {
        self.limit
    }

    fn is_subtype(&self, a: &Ty, b: &Ty) -> (r: bool) {
        a.same(b) || self.subtypes.contains(&(a.copy(), b.copy()))
    }

    fn is_assignable(&self, a: &Ty, b: &Ty) -> (r: bool) {
        let pair = (a.copy(), b.copy());
        a.same(b) || self.subtypes.contains(&pair) || self.conversions.contains(&pair)
    }

    fn strict_conversion(&self, a: &Ty, b: &Ty) -> (r: bool) {
        a.same(b) || self.subtypes.contains(&(a.copy(), b.copy()))
    }

    fn supertypes(&self, t: &Ty) -> (r: List<Ty>) {
        find_listed_for(&self.parents, t)
    }

    fn capture_conversion(&self, t: &Ty) -> (r: Ty) {
        match get_assoc(&self.captures, t) {
            Some(c) => c,
            None => t.copy(),
        }
    }

    fn resolve_class(&self, name: Name) -> (r: Option<ClassInfo>) {
        get_assoc(&self.classes, &name)
    }

    fn single_abstract_method(&self, t: &Ty) -> (r: Option<MethodData>) {
        get_assoc(&self.functions, t)
    }

    fn member_set(&self, receiver: &Ty, name: Name, ctx: &InvocationContext) -> (r: List<
        MethodData,
    >) {
        keep_choosable(find_listed_for(&self.methods, &(receiver.copy(), name)), ctx)
    }

    fn canonical_name(&self, class: SourceClass) -> (r: Option<Name>) {
        get_assoc(&self.canonical, &class)
    }

    fn source_name(&self, class: SourceClass) -> (r: Name) {
        match get_assoc(&self.declared, &class) {
            Some(n) => n,
            None => Name::Empty,
        }
    }

    fn enclosing_type_chain(&self, class: SourceClass) -> (r: List<Name>) {
        find_listed_for(&self.enclosing, &class)
    }

    fn library_type_param_bounds(&self, name: Name) -> (r: Option<List<List<TypeShape>>>) {
        get_assoc(&self.library_bounds, &name)
    }

    fn resolve_type_ref(&self, file: u32, item: u32, shape: &TypeShape) -> (r: Ty) {
        self.find_meaning(shape)
    }

    fn method_params(&self, file: u32, item: u32) -> (r: List<Ty>) {
        find_listed_for(&self.params, &(file, item))
    }

    fn item_ty(&self, file: u32, item: u32) -> (r: Ty) {
        match get_assoc(&self.types, &(file, item)) {
            Some(t) => t,
            None => Ty::Error,
        }
    }

    fn class_is_generic(&self, name: Name) -> (r: bool) {
        self.generic.contains(&name)
    }

    fn names(&self) -> (r: &Names) {
        self.names.names()
    }

    fn pick_field_lookup(&self, receiver: &Ty, name: Name, ctx: &InvocationContext) -> (r:
        FieldLookup) {
        match find_listed_for(&self.fields, &(receiver.copy(), name)) {
            List::Nil => FieldLookup::Missing,
            List::Cons(f, rest) => if rest.is_empty() {
                FieldLookup::Found(*f)
            } else {
                FieldLookup::Ambiguous
            },
        }
    }

    fn pick_field_ignoring_access(
        &self,
        receiver: &Ty,
        name: Name,
        ctx: &InvocationContext,
    ) -> (r: Option<FieldData>) {
        match find_listed_for(&self.fields, &(receiver.copy(), name)) {
            List::Nil => None,
            List::Cons(f, _) => Some(*f),
        }
    }

    fn member_set_ignoring_access(
        &self,
        receiver: &Ty,
        name: Name,
        ctx: &InvocationContext,
    ) -> (r: List<MethodData>) {
        find_listed_for(&self.methods, &(receiver.copy(), name))
    }

    fn static_import_owners(&self, file: u32, item: u32, simple: Name) -> (r: List<(Name, Name)>) {
        find_listed_for(&self.static_imports, &simple)
    }

    fn enum_constants(&self, t: &Ty) -> (r: Option<List<Name>>) {
        get_assoc(&self.constants, t)
    }

    fn is_class_like(&self, t: &Ty) -> (r: Option<bool>) {
        get_assoc(&self.class_like, t)
    }

    fn candidate_fqns(&self, file: u32, item: u32, path: &List<Name>) -> (r: List<Name>) {
        find_listed_for(&self.candidates, path)
    }

    fn type_argument_bound_violation(&self, name: Name, args: &List<Ty>) -> (r: Option<
        (Name, (Ty, Ty)),
    >) {
        get_assoc(&self.out_of_bounds, &name)
    }

    fn library_record_components(&self, name: Name) -> (r: Option<u32>) {
        get_assoc(&self.components, &name)
    }

    fn class_record(&self, name: Name) -> (r: Option<ClassRecord>) {
        get_assoc(&self.records, &name)
    }

    fn is_library_enum(&self, name: Name) -> (r: bool) {
        self.library_enums.contains(&name)
    }

    fn qualify_member_type_of(&self, receiver: &Ty, shape: &TypeShape) -> (r: Option<TypeShape>) {
        get_assoc(&self.member_types, &(receiver.copy(), shape.copy()))
    }

    fn library_type_params(&self, name: Name) -> (r: Option<List<MethodTypeParam>>) {
        get_assoc(&self.library_params, &name)
    }

    fn file_item_tree(&self, file: u32) -> (r: &ItemTree) {
        match find_entry(&self.trees, file) {
            Some(t) => t,
            None => &self.no_tree,
        }
    }

    fn field_touched(&self, file: u32, item: u32) -> (r: Option<List<Name>>) {
        get_assoc(&self.touched, &(file, item))
    }

    fn const_value(&self, e: &Expr, env: &List<(Name, Const)>) -> (r: Option<Const>) {
        self.find_value(e, env)
    }

    fn check_api(&self, expr: u32, method: &MethodData) -> (r: List<TypeError>) {
        List::Nil
    }

    fn check_type_name(&self, expr: u32, ty: &Ty) -> (r: List<TypeError>) {
        List::Nil
    }

    fn check_unchecked(&self, expr: u32, method: &MethodData, args: &List<Option<Ty>>) -> (r: List<
        TypeError,
    >) {
        List::Nil
    }
}

impl Workspace for Facts {
    open spec fn loaded(&self) -> bool {
        self.loaded
    }

    open spec fn scope(&self) -> ResolutionScope {
        self.scope
    }

    open spec fn builtins(&self) -> List<u32> {
        self.builtins
    }

    open spec fn release_of_set(&self, set: u32) -> Option<u8> {
        assoc_get(self.releases, set)
    }

    open spec fn library_of(&self, name: Name) -> Option<u32> {
        assoc_get(self.libraries, name)
    }

    open spec fn class_missing(&self, library: u32, release: u8, name: Name) -> Option<Releases> {
        about_release(assoc_get(self.missing_classes, (library, name)), release)
    }

    open spec fn member_missing(
        &self,
        library: u32,
        release: u8,
        owner: Name,
        member: Name,
        descriptor: Option<Name>,
    ) -> Option<Releases> {
        about_release(assoc_get(self.missing_members, (owner, member)), release)
    }

    open spec fn name_meaning(&self, file: u32, item: u32, name: Name) -> NameResolution {
        match assoc_get(self.meanings, name) {
            Some(m) => m,
            None => if assoc_get(self.classes, name) is Some {
                NameResolution::Resolved(name)
            } else {
                NameResolution::Unresolved
            },
        }
    }

    open spec fn package_known(&self, name: Name) -> bool {
        self.packages.has(name)
    }

    open spec fn arity_mismatch(&self, file: u32, item: u32, shape: TypeShape) -> Option<
        (Ty, u32),
    > {
        assoc_get(self.arities, shape)
    }

    open spec fn deprecations(&self, name: Name) -> List<(Deprecation, Name)> {
        listed_for(self.deprecations, name)
    }

    open spec fn exempt(
        &self,
        enclosing: Option<Deprecation>,
        outermost: Name,
        api: Name,
        deprecation: Deprecation,
    ) -> bool {
        enclosing is Some || outermost == api
    }

    open spec fn deprecated_around(&self, file: u32, item: u32) -> Option<Deprecation> {
        assoc_get(self.deprecated, (file, item))
    }

    open spec fn level_of(&self, file: u32) -> Option<JavaLanguageLevel> {
        assoc_get(self.levels, file)
    }

    open spec fn source_of(&self, file: u32) -> SourceFile {
        match entry_of(self.sources, file) {
            Some(s) => s,
            None => self.no_source,
        }
    }

    open spec fn shown(&self, t: Ty) -> Seq<char> {
        match t {
            Ty::Reference { name, args: _, local: _ } => if self.names.table().knows(name) {
                self.names.table().text(name)
            } else {
                ""@
            },
            _ => ""@,
        }
    }

    fn is_loaded(&self) -> (r: bool) {
        self.loaded
    }

    fn resolution_scope(&self) -> (r: ResolutionScope) {
        self.scope.copy()
    }

    fn jdk_builtin_libraries(&self) -> (r: List<u32>) {
        self.builtins.copy()
    }

    fn release_for_source_set(&self, set: u32) -> (r: Option<u8>) {
        get_assoc(&self.releases, &set)
    }

    fn class_library(&self, name: Name) -> (r: Option<u32>) {
        get_assoc(&self.libraries, &name)
    }

    fn class_not_in_release(&self, library: u32, release: u8, name: Name) -> (r: Option<Releases>) {
        if_about_release(get_assoc(&self.missing_classes, &(library, name)), release)
    }

    fn member_not_in_release(
        &self,
        library: u32,
        release: u8,
        owner: Name,
        member: Name,
        descriptor: Option<Name>,
    ) -> (r: Option<Releases>) {
        if_about_release(get_assoc(&self.missing_members, &(owner, member)), release)
    }

    fn resolve_name_checked(&self, file: u32, item: u32, name: Name) -> (r: NameResolution) {
        match get_assoc(&self.meanings, &name) {
            Some(m) => m,
            None => if get_assoc(&self.classes, &name).is_some() {
                NameResolution::Resolved(name)
            } else {
                NameResolution::Unresolved
            },
        }
    }

    fn package_exists(&self, name: Name) -> (r: bool) {
        self.packages.contains(&name)
    }

    fn type_argument_arity_mismatch(&self, file: u32, item: u32, shape: &TypeShape) -> (r: Option<
        (Ty, u32),
    >) {
        get_assoc(&self.arities, shape)
    }

    fn class_hits(&self, name: Name) -> (r: List<(Deprecation, Name)>) {
        find_listed_for(&self.deprecations, &name)
    }

    fn is_exempt(
        &self,
        enclosing: Option<Deprecation>,
        outermost: Name,
        api: Name,
        deprecation: Deprecation,
    ) -> (r: bool) {
        enclosing.is_some() || outermost == api
    }

    fn deprecated_enclosing(&self, file: u32, item: u32) -> (r: Option<Deprecation>) {
        get_assoc(&self.deprecated, &(file, item))
    }

    fn language_level_for_file(&self, file: u32) -> (r: Option<JavaLanguageLevel>) {
        get_assoc(&self.levels, &file)
    }

    fn parse(&self, file: u32) -> (r: &SourceFile) {
        match find_entry(&self.sources, file) {
            Some(s) => s,
            None => &self.no_source,
        }
    }

    fn display(&self, t: &Ty) -> (r: String) {
        match t {
            Ty::Reference { name, args: _, local: _ } => {
                let names = self.names.names();
                if names.has(*name) {
                    names.as_str(*name).to_owned()
                } else {
                    "".to_owned()
                }
            },
            _ => "".to_owned(),
        }
    }
}

} // verus!
