//! Java types as plain values, and the operations on them that need no class
//! path: predicates, substitution, erasure and boxing.
use crate::list::{Data, List};
use crate::names::Name;
use vstd::prelude::*;

verus! {

/// The primitive types, with `void` among them.
#[derive(Clone, Copy, Debug, PartialEq, Eq, Structural)]
pub enum PrimitiveType {
    Boolean,
    Byte,
    Short,
    Char,
    Int,
    Long,
    Float,
    Double,
    Void,
}

impl Data for PrimitiveType {
    fn copy(&self) -> (r: Self) {
        *self
    }

    fn same(&self, other: &Self) -> (r: bool) {
        *self == *other
    }
}

/// A class-like declaration of a source file.
#[derive(Clone, Copy, Debug, PartialEq, Eq, Structural)]
pub struct SourceClass {
    pub file: u32,
    pub item: u32,
}

impl Data for SourceClass {
    fn copy(&self) -> (r: Self) {
        *self
    }

    fn same(&self, other: &Self) -> (r: bool) {
        *self == *other
    }
}

/// The declaration a type variable belongs to, and its name there. Variables
/// of different declarations are different, whatever they are called.
#[derive(Clone, Copy, Debug, PartialEq, Eq, Structural)]
pub enum TypeVarScope {
    /// A type parameter of a class or interface.
    Class { file: u32, item: u32, name: Name },
    /// A type parameter of a method or constructor.
    Method { file: u32, item: u32, name: Name },
    /// The fresh variable of a capture conversion.
    Capture(u64),
}

impl Data for TypeVarScope {
    fn copy(&self) -> (r: Self) {
        *self
    }

    fn same(&self, other: &Self) -> (r: bool) {
        *self == *other
    }
}

/// The bound of a wildcard type argument.
#[derive(Debug, PartialEq, Eq)]
pub enum WildcardBound {
    /// `?`
    Unbounded,
    /// `? extends T`
    Upper(Box<Ty>),
    /// `? super T`
    Lower(Box<Ty>),
}

/// A type.
#[derive(Debug, PartialEq, Eq)]
pub enum Ty {
    Primitive(PrimitiveType),
    /// A class or interface type. `local` is the declaration of a class
    /// that has no canonical name.
    Reference { name: Name, args: Box<List<Ty>>, local: Option<SourceClass> },
    Array(Box<Ty>),
    TypeVar { scope: TypeVarScope, bounds: Box<List<Ty>>, lower: Option<Box<Ty>> },
    Wildcard(WildcardBound),
    Intersection(Box<List<Ty>>),
    /// An inference variable.
    InferenceVar(u64),
    /// The type of `null`.
    Null,
    /// The type of what could not be typed.
    Error,
}

/// The types inference variables stand for.
pub type VarMap = List<(u64, Ty)>;

/// The types type variables stand for.
pub type Subst = List<(TypeVarScope, Ty)>;

/// What the map holds for `id`: its first entry for it.
pub open spec fn var_value(map: VarMap, id: u64) -> Option<Ty>
    decreases map,
{
    match map {
        List::Nil => None,
        List::Cons(e, t) => if e.0 == id {
            Some(e.1)
        } else {
            var_value(*t, id)
        },
    }
}

/// What the substitution holds for `scope`: its first entry for it.
pub open spec fn subst_value(map: Subst, scope: TypeVarScope) -> Option<Ty>
    decreases map,
{
    match map {
        List::Nil => None,
        List::Cons(e, t) => if e.0 == scope {
            Some(e.1)
        } else {
            subst_value(*t, scope)
        },
    }
}

pub fn lookup_var(map: &VarMap, id: u64) -> (r: Option<Ty>)
    ensures
        r == var_value(*map, id),
    decreases map,
{
    match map {
        List::Nil => None,
        List::Cons(e, t) => if e.0 == id {
            Some(e.1.copy_ty())
        } else {
            lookup_var(t, id)
        },
    }
}

pub fn lookup_subst(map: &Subst, scope: TypeVarScope) -> (r: Option<Ty>)
    ensures
        r == subst_value(*map, scope),
    decreases map,
{
    match map {
        List::Nil => None,
        List::Cons(e, t) => if e.0 == scope {
            Some(e.1.copy_ty())
        } else {
            lookup_subst(t, scope)
        },
    }
}

/// The map with `id` standing for `ty`: the entry is replaced where it is,
/// or added behind the others.
pub open spec fn var_insert(map: VarMap, id: u64, ty: Ty) -> VarMap
    decreases map,
{
    match map {
        List::Nil => List::Cons(Box::new((id, ty)), Box::new(List::Nil)),
        List::Cons(e, t) => if e.0 == id {
            List::Cons(Box::new((id, ty)), t)
        } else {
            List::Cons(e, Box::new(var_insert(*t, id, ty)))
        },
    }
}

pub fn insert_var(map: VarMap, id: u64, ty: Ty) -> (r: VarMap)
    ensures
        r == var_insert(map, id, ty),
    decreases map,
{
    match map {
        List::Nil => List::Cons(Box::new((id, ty)), Box::new(List::Nil)),
        List::Cons(e, t) => if e.0 == id {
            List::Cons(Box::new((id, ty)), t)
        } else {
            List::Cons(e, Box::new(insert_var(*t, id, ty)))
        },
    }
}

/// Reading what was written last gives it back, and nothing else changes.
pub proof fn lemma_var_insert(map: VarMap, id: u64, ty: Ty, other: u64)
    ensures
        var_value(var_insert(map, id, ty), id) == Some(ty),
        other != id ==> var_value(var_insert(map, id, ty), other) == var_value(map, other),
    decreases map,
{
    if let List::Cons(_, t) = map {
        lemma_var_insert(*t, id, ty, other);
    }
}

/// The class that boxes a primitive type.
pub open spec fn boxed_name(p: PrimitiveType) -> Name {
    match p {
        PrimitiveType::Boolean => Name::BoxedBoolean,
        PrimitiveType::Byte => Name::BoxedByte,
        PrimitiveType::Short => Name::BoxedShort,
        PrimitiveType::Char => Name::BoxedCharacter,
        PrimitiveType::Int => Name::BoxedInteger,
        PrimitiveType::Long => Name::BoxedLong,
        PrimitiveType::Float => Name::BoxedFloat,
        PrimitiveType::Double => Name::BoxedDouble,
        PrimitiveType::Void => Name::BoxedVoid,
    }
}

/// The class that boxes a primitive type.
pub fn boxed_type(p: PrimitiveType) -> (r: Name)
    ensures
        r == boxed_name(p),
{
    match p {
        PrimitiveType::Boolean => Name::BoxedBoolean,
        PrimitiveType::Byte => Name::BoxedByte,
        PrimitiveType::Short => Name::BoxedShort,
        PrimitiveType::Char => Name::BoxedCharacter,
        PrimitiveType::Int => Name::BoxedInteger,
        PrimitiveType::Long => Name::BoxedLong,
        PrimitiveType::Float => Name::BoxedFloat,
        PrimitiveType::Double => Name::BoxedDouble,
        PrimitiveType::Void => Name::BoxedVoid,
    }
}

/// The primitive type a class boxes. `java.lang.Void` boxes nothing.
pub open spec fn unboxed_name(n: Name) -> Option<PrimitiveType> {
    match n {
        Name::BoxedBoolean => Some(PrimitiveType::Boolean),
        Name::BoxedByte => Some(PrimitiveType::Byte),
        Name::BoxedShort => Some(PrimitiveType::Short),
        Name::BoxedCharacter => Some(PrimitiveType::Char),
        Name::BoxedInteger => Some(PrimitiveType::Int),
        Name::BoxedLong => Some(PrimitiveType::Long),
        Name::BoxedFloat => Some(PrimitiveType::Float),
        Name::BoxedDouble => Some(PrimitiveType::Double),
        _ => None,
    }
}

/// The primitive type a class boxes.
pub fn unboxed_primitive(n: Name) -> (r: Option<PrimitiveType>)
    ensures
        r == unboxed_name(n),
{
    match n {
        Name::BoxedBoolean => Some(PrimitiveType::Boolean),
        Name::BoxedByte => Some(PrimitiveType::Byte),
        Name::BoxedShort => Some(PrimitiveType::Short),
        Name::BoxedCharacter => Some(PrimitiveType::Char),
        Name::BoxedInteger => Some(PrimitiveType::Int),
        Name::BoxedLong => Some(PrimitiveType::Long),
        Name::BoxedFloat => Some(PrimitiveType::Float),
        Name::BoxedDouble => Some(PrimitiveType::Double),
        _ => None,
    }
}

/// Unboxing undoes boxing, for every primitive type but `void`.
pub proof fn law_unboxing_undoes_boxing(p: PrimitiveType)
    requires
        !(p is Void),
    ensures
        unboxed_name(boxed_name(p)) == Some(p),
{
}

/// The type of a class without type arguments.
pub open spec fn class_of(name: Name) -> Ty {
    Ty::Reference { name, args: Box::new(List::Nil), local: None }
}

/// The type with primitive types replaced by the classes that box them.
pub open spec fn boxed(t: Ty) -> Ty {
    match t {
        Ty::Primitive(p) => class_of(boxed_name(p)),
        _ => t,
    }
}

/// The intersection of a list of types: `Object` for none, the type itself
/// for one.
pub open spec fn meet(l: List<Ty>) -> Ty {
    match l {
        List::Nil => class_of(Name::Object),
        List::Cons(h, t) => if *t is Nil {
            *h
        } else {
            Ty::Intersection(Box::new(l))
        },
    }
}

impl WildcardBound {
    fn copy_bound(&self) -> (r: WildcardBound)
        ensures
            r == *self,
        decreases self,
    {
        match self {
            WildcardBound::Unbounded => WildcardBound::Unbounded,
            WildcardBound::Upper(t) => WildcardBound::Upper(Box::new(t.copy_ty())),
            WildcardBound::Lower(t) => WildcardBound::Lower(Box::new(t.copy_ty())),
        }
    }

    fn same_bound(&self, other: &WildcardBound) -> (r: bool)
        ensures
            r == (*self == *other),
        decreases self,
    {
        match (self, other) {
            (WildcardBound::Unbounded, WildcardBound::Unbounded) => true,
            (WildcardBound::Upper(a), WildcardBound::Upper(b)) => a.same_ty(b),
            (WildcardBound::Lower(a), WildcardBound::Lower(b)) => a.same_ty(b),
            _ => false,
        }
    }
}

fn copy_tys(l: &List<Ty>) -> (r: List<Ty>)
    ensures
        r == *l,
    decreases l,
{
    match l {
        List::Nil => List::Nil,
        List::Cons(h, t) => List::Cons(Box::new(h.copy_ty()), Box::new(copy_tys(t))),
    }
}

fn same_tys(a: &List<Ty>, b: &List<Ty>) -> (r: bool)
    ensures
        r == (*a == *b),
    decreases a,
{
    match (a, b) {
        (List::Nil, List::Nil) => true,
        (List::Cons(h, t), List::Cons(h2, t2)) => h.same_ty(h2) && same_tys(t, t2),
        _ => false,
    }
}

impl Data for Ty {
    fn copy(&self) -> (r: Self) {
        self.copy_ty()
    }

    fn same(&self, other: &Self) -> (r: bool) {
        self.same_ty(other)
    }
}

/// Whether an inference variable occurs in one of the types.
pub open spec fn any_infer_var(l: List<Ty>) -> bool
    decreases l,
{
    match l {
        List::Nil => false,
        List::Cons(h, t) => h.has_infer_var() || any_infer_var(*t),
    }
}

/// Whether the inference variable `id` occurs in one of the types.
pub open spec fn any_infer_var_id(l: List<Ty>, id: u64) -> bool
    decreases l,
{
    match l {
        List::Nil => false,
        List::Cons(h, t) => h.has_infer_var_id(id) || any_infer_var_id(*t, id),
    }
}

/// Whether a type variable occurs in one of the types.
pub open spec fn any_type_var(l: List<Ty>) -> bool
    decreases l,
{
    match l {
        List::Nil => false,
        List::Cons(h, t) => h.has_type_var() || any_type_var(*t),
    }
}

/// Each type with the inference variables of `map` replaced.
pub open spec fn all_subst_infer(l: List<Ty>, map: VarMap) -> List<Ty>
    decreases l,
{
    match l {
        List::Nil => List::Nil,
        List::Cons(h, t) => List::Cons(
            Box::new(h.subst_infer(map)),
            Box::new(all_subst_infer(*t, map)),
        ),
    }
}

/// Each type with the type variables of `map` replaced.
pub open spec fn all_subst(l: List<Ty>, map: Subst) -> List<Ty>
    decreases l,
{
    match l {
        List::Nil => List::Nil,
        List::Cons(h, t) => List::Cons(Box::new(h.subst(map)), Box::new(all_subst(*t, map))),
    }
}

/// Each type with the type variables of `map` replaced, in bounds too.
pub open spec fn all_subst_deep(l: List<Ty>, map: Subst) -> List<Ty>
    decreases l,
{
    match l {
        List::Nil => List::Nil,
        List::Cons(h, t) => List::Cons(
            Box::new(h.subst_deep(map)),
            Box::new(all_subst_deep(*t, map)),
        ),
    }
}

/// Each type with every inference variable replaced by `Object`.
pub open spec fn all_without_infer(l: List<Ty>) -> List<Ty>
    decreases l,
{
    match l {
        List::Nil => List::Nil,
        List::Cons(h, t) => List::Cons(
            Box::new(h.without_infer_vars()),
            Box::new(all_without_infer(*t)),
        ),
    }
}

/// The erasure of each type.
pub open spec fn all_erased(l: List<Ty>) -> List<Ty>
    decreases l,
{
    match l {
        List::Nil => List::Nil,
        List::Cons(h, t) => List::Cons(Box::new(h.erased()), Box::new(all_erased(*t))),
    }
}

/// Whether two lists of types are equal up to the bounds of type variables.
pub open spec fn all_alike(a: List<Ty>, b: List<Ty>) -> bool
    decreases a,
{
    match (a, b) {
        (List::Nil, List::Nil) => true,
        (List::Cons(h, t), List::Cons(h2, t2)) => h.alike(*h2) && all_alike(*t, *t2),
        _ => false,
    }
}

impl Ty {
    /// Whether the type holds an inference variable.
    pub open spec fn has_infer_var(self) -> bool
        decreases self,
    {
        match self {
            Ty::Reference { name: _, args, local: _ } => any_infer_var(*args),
            Ty::Array(e) => e.has_infer_var(),
            Ty::Wildcard(WildcardBound::Upper(t)) => t.has_infer_var(),
            Ty::Wildcard(WildcardBound::Lower(t)) => t.has_infer_var(),
            Ty::Intersection(l) => any_infer_var(*l),
            Ty::InferenceVar(_) => true,
            _ => false,
        }
    }

    /// Whether the type holds the inference variable `id`.
    pub open spec fn has_infer_var_id(self, id: u64) -> bool
        decreases self,
    {
        match self {
            Ty::Reference { name: _, args, local: _ } => any_infer_var_id(*args, id),
            Ty::Array(e) => e.has_infer_var_id(id),
            Ty::Wildcard(WildcardBound::Upper(t)) => t.has_infer_var_id(id),
            Ty::Wildcard(WildcardBound::Lower(t)) => t.has_infer_var_id(id),
            Ty::Intersection(l) => any_infer_var_id(*l, id),
            Ty::InferenceVar(v) => v == id,
            _ => false,
        }
    }

    /// Whether the type holds a type variable.
    pub open spec fn has_type_var(self) -> bool
        decreases self,
    {
        match self {
            Ty::Reference { name: _, args, local: _ } => any_type_var(*args),
            Ty::Array(e) => e.has_type_var(),
            Ty::TypeVar { scope: _, bounds: _, lower: _ } => true,
            Ty::Wildcard(WildcardBound::Upper(t)) => t.has_type_var(),
            Ty::Wildcard(WildcardBound::Lower(t)) => t.has_type_var(),
            Ty::Intersection(l) => any_type_var(*l),
            _ => false,
        }
    }

    /// The type with the inference variables of `map` replaced.
    pub open spec fn subst_infer(self, map: VarMap) -> Ty
        decreases self,
    {
        match self {
            Ty::Reference { name, args, local } => Ty::Reference {
                name,
                args: Box::new(all_subst_infer(*args, map)),
                local,
            },
            Ty::Array(e) => Ty::Array(Box::new(e.subst_infer(map))),
            Ty::Wildcard(WildcardBound::Upper(t)) => Ty::Wildcard(
                WildcardBound::Upper(Box::new(t.subst_infer(map))),
            ),
            Ty::Wildcard(WildcardBound::Lower(t)) => Ty::Wildcard(
                WildcardBound::Lower(Box::new(t.subst_infer(map))),
            ),
            Ty::Intersection(l) => Ty::Intersection(Box::new(all_subst_infer(*l, map))),
            Ty::InferenceVar(v) => match var_value(map, v) {
                Some(t) => t,
                None => self,
            },
            _ => self,
        }
    }

    /// The type with the type variables of `map` replaced. The bounds of a
    /// variable that stays are left as they are.
    pub open spec fn subst(self, map: Subst) -> Ty
        decreases self,
    {
        match self {
            Ty::Reference { name, args, local } => Ty::Reference {
                name,
                args: Box::new(all_subst(*args, map)),
                local,
            },
            Ty::Array(e) => Ty::Array(Box::new(e.subst(map))),
            Ty::Wildcard(WildcardBound::Upper(t)) => Ty::Wildcard(
                WildcardBound::Upper(Box::new(t.subst(map))),
            ),
            Ty::Wildcard(WildcardBound::Lower(t)) => Ty::Wildcard(
                WildcardBound::Lower(Box::new(t.subst(map))),
            ),
            Ty::Intersection(l) => Ty::Intersection(Box::new(all_subst(*l, map))),
            Ty::TypeVar { scope, bounds: _, lower: _ } => match subst_value(map, scope) {
                Some(t) => t,
                None => self,
            },
            _ => self,
        }
    }

    /// The type with the type variables of `map` replaced, also in the bounds
    /// of variables that stay.
    pub open spec fn subst_deep(self, map: Subst) -> Ty
        decreases self,
    {
        match self {
            Ty::Reference { name, args, local } => Ty::Reference {
                name,
                args: Box::new(all_subst_deep(*args, map)),
                local,
            },
            Ty::Array(e) => Ty::Array(Box::new(e.subst_deep(map))),
            Ty::Wildcard(WildcardBound::Upper(t)) => Ty::Wildcard(
                WildcardBound::Upper(Box::new(t.subst_deep(map))),
            ),
            Ty::Wildcard(WildcardBound::Lower(t)) => Ty::Wildcard(
                WildcardBound::Lower(Box::new(t.subst_deep(map))),
            ),
            Ty::Intersection(l) => Ty::Intersection(Box::new(all_subst_deep(*l, map))),
            Ty::TypeVar { scope, bounds, lower } => match subst_value(map, scope) {
                Some(t) => t,
                None => Ty::TypeVar {
                    scope,
                    bounds: Box::new(all_subst_deep(*bounds, map)),
                    lower: match lower {
                        None => None,
                        Some(t) => Some(Box::new(t.subst_deep(map))),
                    },
                },
            },
            _ => self,
        }
    }

    /// The type with every inference variable replaced by `Object`.
    pub open spec fn without_infer_vars(self) -> Ty
        decreases self,
    {
        match self {
            Ty::Reference { name, args, local } => Ty::Reference {
                name,
                args: Box::new(all_without_infer(*args)),
                local,
            },
            Ty::Array(e) => Ty::Array(Box::new(e.without_infer_vars())),
            Ty::Wildcard(WildcardBound::Upper(t)) => Ty::Wildcard(
                WildcardBound::Upper(Box::new(t.without_infer_vars())),
            ),
            Ty::Wildcard(WildcardBound::Lower(t)) => Ty::Wildcard(
                WildcardBound::Lower(Box::new(t.without_infer_vars())),
            ),
            Ty::Intersection(l) => Ty::Intersection(Box::new(all_without_infer(*l))),
            Ty::InferenceVar(_) => class_of(Name::Object),
            _ => self,
        }
    }

    /// The erasure: type arguments dropped, a type variable or an
    /// intersection replaced by the erasure of its first bound, a wildcard by
    /// that of its upper bound.
    pub open spec fn erased(self) -> Ty
        decreases self,
    {
        match self {
            Ty::Reference { name, args: _, local } => Ty::Reference {
                name,
                args: Box::new(List::Nil),
                local,
            },
            Ty::Array(e) => Ty::Array(Box::new(e.erased())),
            Ty::TypeVar { scope: _, bounds, lower: _ } => match *bounds {
                List::Nil => class_of(Name::Object),
                List::Cons(h, _) => h.erased(),
            },
            Ty::Wildcard(WildcardBound::Upper(t)) => t.erased(),
            Ty::Wildcard(_) => class_of(Name::Object),
            Ty::Intersection(l) => match *l {
                List::Nil => class_of(Name::Object),
                List::Cons(h, _) => h.erased(),
            },
            _ => self,
        }
    }

    /// Whether two types are equal when type variables are compared by their
    /// declaration alone, whatever their bounds were resolved to.
    pub open spec fn alike(self, other: Ty) -> bool
        decreases self,
    {
        match (self, other) {
            (
                Ty::Reference { name, args, local },
                Ty::Reference { name: n2, args: a2, local: l2 },
            ) => name == n2 && local == l2 && all_alike(*args, *a2),
            (Ty::Array(a), Ty::Array(b)) => a.alike(*b),
            (
                Ty::TypeVar { scope, bounds: _, lower: _ },
                Ty::TypeVar { scope: s2, bounds: _, lower: _ },
            ) => scope == s2,
            (
                Ty::Wildcard(WildcardBound::Upper(a)),
                Ty::Wildcard(WildcardBound::Upper(b)),
            ) => a.alike(*b),
            (
                Ty::Wildcard(WildcardBound::Lower(a)),
                Ty::Wildcard(WildcardBound::Lower(b)),
            ) => a.alike(*b),
            (Ty::Intersection(a), Ty::Intersection(b)) => all_alike(*a, *b),
            _ => self == other,
        }
    }

    /// The inference variable the type is.
    pub open spec fn infer_id(self) -> Option<u64> {
        match self {
            Ty::InferenceVar(v) => Some(v),
            _ => None,
        }
    }

    /// The component type of an array type.
    pub open spec fn component(self) -> Option<Ty> {
        match self {
            Ty::Array(e) => Some(*e),
            _ => None,
        }
    }

    pub(crate) fn copy_ty(&self) -> (r: Ty)
        ensures
            r == *self,
        decreases self,
    {
        match self {
            Ty::Primitive(p) => Ty::Primitive(*p),
            Ty::Reference { name, args, local } => Ty::Reference {
                name: *name,
                args: Box::new(copy_tys(args)),
                local: *local,
            },
            Ty::Array(e) => Ty::Array(Box::new(e.copy_ty())),
            Ty::TypeVar { scope, bounds, lower } => Ty::TypeVar {
                scope: *scope,
                bounds: Box::new(copy_tys(bounds)),
                lower: match lower {
                    None => None,
                    Some(t) => Some(Box::new(t.copy_ty())),
                },
            },
            Ty::Wildcard(b) => Ty::Wildcard(b.copy_bound()),
            Ty::Intersection(l) => Ty::Intersection(Box::new(copy_tys(l))),
            Ty::InferenceVar(v) => Ty::InferenceVar(*v),
            Ty::Null => Ty::Null,
            Ty::Error => Ty::Error,
        }
    }

    pub(crate) fn same_ty(&self, other: &Ty) -> (r: bool)
        ensures
            r == (*self == *other),
        decreases self,
    {
        match (self, other) {
            (Ty::Primitive(p), Ty::Primitive(q)) => *p == *q,
            (
                Ty::Reference { name, args, local },
                Ty::Reference { name: n2, args: a2, local: l2 },
            ) => *name == *n2 && local.same(l2) && same_tys(args, a2),
            (Ty::Array(a), Ty::Array(b)) => a.same_ty(b),
            (
                Ty::TypeVar { scope, bounds, lower },
                Ty::TypeVar { scope: s2, bounds: b2, lower: l2 },
            ) => *scope == *s2 && same_tys(bounds, b2) && match (lower, l2) {
                (None, None) => true,
                (Some(a), Some(b)) => a.same_ty(b),
                _ => false,
            },
            (Ty::Wildcard(a), Ty::Wildcard(b)) => a.same_bound(b),
            (Ty::Intersection(a), Ty::Intersection(b)) => same_tys(a, b),
            (Ty::InferenceVar(a), Ty::InferenceVar(b)) => *a == *b,
            (Ty::Null, Ty::Null) => true,
            (Ty::Error, Ty::Error) => true,
            _ => false,
        }
    }

    /// A class or interface type with a canonical name.
    pub fn reference(name: Name, args: List<Ty>) -> (r: Ty)
        ensures
            r == (Ty::Reference { name, args: Box::new(args), local: None }),
    {
        Ty::Reference { name, args: Box::new(args), local: None }
    }

    /// The type of a local class.
    pub fn local_reference(class: SourceClass, name: Name, args: List<Ty>) -> (r: Ty)
        ensures
            r == (Ty::Reference { name, args: Box::new(args), local: Some(class) }),
    {
        Ty::Reference { name, args: Box::new(args), local: Some(class) }
    }

    /// The type of a class without type arguments.
    pub fn class(name: Name) -> (r: Ty)
        ensures
            r == class_of(name),
    {
        Ty::Reference { name, args: Box::new(List::Nil), local: None }
    }

    /// An array type.
    pub fn array(component: Ty) -> (r: Ty)
        ensures
            r == Ty::Array(Box::new(component)),
    {
        Ty::Array(Box::new(component))
    }

    /// `? extends t`
    pub fn upper_wildcard(t: Ty) -> (r: Ty)
        ensures
            r == Ty::Wildcard(WildcardBound::Upper(Box::new(t))),
    {
        Ty::Wildcard(WildcardBound::Upper(Box::new(t)))
    }

    /// `? super t`
    pub fn lower_wildcard(t: Ty) -> (r: Ty)
        ensures
            r == Ty::Wildcard(WildcardBound::Lower(Box::new(t))),
    {
        Ty::Wildcard(WildcardBound::Lower(Box::new(t)))
    }

    /// The intersection of a list of types.
    pub fn intersection(l: List<Ty>) -> (r: Ty)
        ensures
            r == meet(l),
    {
        match l {
            List::Nil => Ty::class(Name::Object),
            List::Cons(h, t) => match *t {
                List::Nil => *h,
                List::Cons(h2, t2) => Ty::Intersection(
                    Box::new(List::Cons(h, Box::new(List::Cons(h2, t2)))),
                ),
            },
        }
    }

    /// The type with a primitive type replaced by the class that boxes it.
    pub fn box_primitive(&self) -> (r: Ty)
        ensures
            r == boxed(*self),
    {
        match self {
            Ty::Primitive(p) => Ty::class(boxed_type(*p)),
            _ => self.copy_ty(),
        }
    }

    pub fn is_error(&self) -> (r: bool)
        ensures
            r == (*self is Error),
    {
        match self {
            Ty::Error => true,
            _ => false,
        }
    }

    pub fn is_null(&self) -> (r: bool)
        ensures
            r == (*self is Null),
    {
        match self {
            Ty::Null => true,
            _ => false,
        }
    }

    pub fn is_primitive(&self) -> (r: bool)
        ensures
            r == (*self is Primitive),
    {
        match self {
            Ty::Primitive(_) => true,
            _ => false,
        }
    }

    /// Whether the type is `void`.
    pub fn is_void_like(&self) -> (r: bool)
        ensures
            r == (*self == Ty::Primitive(PrimitiveType::Void)),
    {
        match self {
            Ty::Primitive(PrimitiveType::Void) => true,
            _ => false,
        }
    }

    pub fn is_array(&self) -> (r: bool)
        ensures
            r == (*self is Array),
    {
        match self {
            Ty::Array(_) => true,
            _ => false,
        }
    }

    pub fn is_wildcard(&self) -> (r: bool)
        ensures
            r == (*self is Wildcard),
    {
        match self {
            Ty::Wildcard(_) => true,
            _ => false,
        }
    }

    /// The inference variable the type is.
    pub fn as_infer_var(&self) -> (r: Option<u64>)
        ensures
            r == self.infer_id(),
    {
        match self {
            Ty::InferenceVar(v) => Some(*v),
            _ => None,
        }
    }

    /// The component type of an array type.
    pub fn element(&self) -> (r: Option<Ty>)
        ensures
            r == self.component(),
    {
        match self {
            Ty::Array(e) => Some(e.copy_ty()),
            _ => None,
        }
    }

    /// Whether the type holds an inference variable.
    pub fn contains_infer_var(&self) -> (r: bool)
        ensures
            r == self.has_infer_var(),
        decreases self,
    {
        match self {
            Ty::Reference { name: _, args, local: _ } => any_contains_infer_var(args),
            Ty::Array(e) => e.contains_infer_var(),
            Ty::Wildcard(WildcardBound::Upper(t)) => t.contains_infer_var(),
            Ty::Wildcard(WildcardBound::Lower(t)) => t.contains_infer_var(),
            Ty::Intersection(l) => any_contains_infer_var(l),
            Ty::InferenceVar(_) => true,
            _ => false,
        }
    }

    /// Whether the type holds the inference variable `id`.
    pub fn contains_infer_var_id(&self, id: u64) -> (r: bool)
        ensures
            r == self.has_infer_var_id(id),
        decreases self,
    {
        match self {
            Ty::Reference { name: _, args, local: _ } => any_contains_infer_var_id(args, id),
            Ty::Array(e) => e.contains_infer_var_id(id),
            Ty::Wildcard(WildcardBound::Upper(t)) => t.contains_infer_var_id(id),
            Ty::Wildcard(WildcardBound::Lower(t)) => t.contains_infer_var_id(id),
            Ty::Intersection(l) => any_contains_infer_var_id(l, id),
            Ty::InferenceVar(v) => *v == id,
            _ => false,
        }
    }

    /// Whether the type holds a type variable.
    pub fn contains_type_var(&self) -> (r: bool)
        ensures
            r == self.has_type_var(),
        decreases self,
    {
        match self {
            Ty::Reference { name: _, args, local: _ } => any_contains_type_var(args),
            Ty::Array(e) => e.contains_type_var(),
            Ty::TypeVar { scope: _, bounds: _, lower: _ } => true,
            Ty::Wildcard(WildcardBound::Upper(t)) => t.contains_type_var(),
            Ty::Wildcard(WildcardBound::Lower(t)) => t.contains_type_var(),
            Ty::Intersection(l) => any_contains_type_var(l),
            _ => false,
        }
    }

    /// The type with the inference variables of `map` replaced.
    pub fn substitute_infer(&self, map: &VarMap) -> (r: Ty)
        ensures
            r == self.subst_infer(*map),
        decreases self,
    {
        match self {
            Ty::Reference { name, args, local } => Ty::Reference {
                name: *name,
                args: Box::new(substitute_infer_all(args, map)),
                local: *local,
            },
            Ty::Array(e) => Ty::Array(Box::new(e.substitute_infer(map))),
            Ty::Wildcard(WildcardBound::Upper(t)) => Ty::upper_wildcard(t.substitute_infer(map)),
            Ty::Wildcard(WildcardBound::Lower(t)) => Ty::lower_wildcard(t.substitute_infer(map)),
            Ty::Intersection(l) => Ty::Intersection(Box::new(substitute_infer_all(l, map))),
            Ty::InferenceVar(v) => match lookup_var(map, *v) {
                Some(t) => t,
                None => self.copy_ty(),
            },
            _ => self.copy_ty(),
        }
    }

    /// The type with the type variables of `map` replaced.
    pub fn substitute(&self, map: &Subst) -> (r: Ty)
        ensures
            r == self.subst(*map),
        decreases self,
    {
        match self {
            Ty::Reference { name, args, local } => Ty::Reference {
                name: *name,
                args: Box::new(substitute_all(args, map)),
                local: *local,
            },
            Ty::Array(e) => Ty::Array(Box::new(e.substitute(map))),
            Ty::Wildcard(WildcardBound::Upper(t)) => Ty::upper_wildcard(t.substitute(map)),
            Ty::Wildcard(WildcardBound::Lower(t)) => Ty::lower_wildcard(t.substitute(map)),
            Ty::Intersection(l) => Ty::Intersection(Box::new(substitute_all(l, map))),
            Ty::TypeVar { scope, bounds: _, lower: _ } => match lookup_subst(map, *scope) {
                Some(t) => t,
                None => self.copy_ty(),
            },
            _ => self.copy_ty(),
        }
    }

    /// The type with the type variables of `map` replaced, also in the bounds
    /// of variables that stay.
    pub fn substitute_incl_bounds(&self, map: &Subst) -> (r: Ty)
        ensures
            r == self.subst_deep(*map),
        decreases self,
    {
        match self {
            Ty::Reference { name, args, local } => Ty::Reference {
                name: *name,
                args: Box::new(substitute_incl_bounds_all(args, map)),
                local: *local,
            },
            Ty::Array(e) => Ty::Array(Box::new(e.substitute_incl_bounds(map))),
            Ty::Wildcard(WildcardBound::Upper(t)) => Ty::upper_wildcard(
                t.substitute_incl_bounds(map),
            ),
            Ty::Wildcard(WildcardBound::Lower(t)) => Ty::lower_wildcard(
                t.substitute_incl_bounds(map),
            ),
            Ty::Intersection(l) => Ty::Intersection(Box::new(substitute_incl_bounds_all(l, map))),
            Ty::TypeVar { scope, bounds, lower } => match lookup_subst(map, *scope) {
                Some(t) => t,
                None => Ty::TypeVar {
                    scope: *scope,
                    bounds: Box::new(substitute_incl_bounds_all(bounds, map)),
                    lower: match lower {
                        None => None,
                        Some(t) => Some(Box::new(t.substitute_incl_bounds(map))),
                    },
                },
            },
            _ => self.copy_ty(),
        }
    }

    /// The type with every inference variable replaced by `Object`.
    pub fn erase_infer_vars(&self) -> (r: Ty)
        ensures
            r == self.without_infer_vars(),
        decreases self,
    {
        match self {
            Ty::Reference { name, args, local } => Ty::Reference {
                name: *name,
                args: Box::new(erase_infer_vars_all(args)),
                local: *local,
            },
            Ty::Array(e) => Ty::Array(Box::new(e.erase_infer_vars())),
            Ty::Wildcard(WildcardBound::Upper(t)) => Ty::upper_wildcard(t.erase_infer_vars()),
            Ty::Wildcard(WildcardBound::Lower(t)) => Ty::lower_wildcard(t.erase_infer_vars()),
            Ty::Intersection(l) => Ty::Intersection(Box::new(erase_infer_vars_all(l))),
            Ty::InferenceVar(_) => Ty::class(Name::Object),
            _ => self.copy_ty(),
        }
    }

    /// The erasure of the type.
    pub fn erasure(&self) -> (r: Ty)
        ensures
            r == self.erased(),
        decreases self,
    {
        match self {
            Ty::Reference { name, args: _, local } => Ty::Reference {
                name: *name,
                args: Box::new(List::Nil),
                local: *local,
            },
            Ty::Array(e) => Ty::Array(Box::new(e.erasure())),
            Ty::TypeVar { scope: _, bounds, lower: _ } => match &**bounds {
                List::Nil => Ty::class(Name::Object),
                List::Cons(h, _) => h.erasure(),
            },
            Ty::Wildcard(WildcardBound::Upper(t)) => t.erasure(),
            Ty::Wildcard(_) => Ty::class(Name::Object),
            Ty::Intersection(l) => match &**l {
                List::Nil => Ty::class(Name::Object),
                List::Cons(h, _) => h.erasure(),
            },
            _ => self.copy_ty(),
        }
    }

    /// Whether two types are equal when type variables are compared by their
    /// declaration alone.
    pub fn same_shape(&self, other: &Ty) -> (r: bool)
        ensures
            r == self.alike(*other),
        decreases self,
    {
        match (self, other) {
            (
                Ty::Reference { name, args, local },
                Ty::Reference { name: n2, args: a2, local: l2 },
            ) => *name == *n2 && local.same(l2) && same_shape_all(args, a2),
            (Ty::Array(a), Ty::Array(b)) => a.same_shape(b),
            (
                Ty::TypeVar { scope, bounds: _, lower: _ },
                Ty::TypeVar { scope: s2, bounds: _, lower: _ },
            ) => *scope == *s2,
            (
                Ty::Wildcard(WildcardBound::Upper(a)),
                Ty::Wildcard(WildcardBound::Upper(b)),
            ) => a.same_shape(b),
            (
                Ty::Wildcard(WildcardBound::Lower(a)),
                Ty::Wildcard(WildcardBound::Lower(b)),
            ) => a.same_shape(b),
            (Ty::Intersection(a), Ty::Intersection(b)) => same_shape_all(a, b),
            _ => self.same_ty(other),
        }
    }
}

pub fn any_contains_infer_var(l: &List<Ty>) -> (r: bool)
    ensures
        r == any_infer_var(*l),
    decreases l,
{
    match l {
        List::Nil => false,
        List::Cons(h, t) => h.contains_infer_var() || any_contains_infer_var(t),
    }
}

pub fn any_contains_infer_var_id(l: &List<Ty>, id: u64) -> (r: bool)
    ensures
        r == any_infer_var_id(*l, id),
    decreases l,
{
    match l {
        List::Nil => false,
        List::Cons(h, t) => h.contains_infer_var_id(id) || any_contains_infer_var_id(t, id),
    }
}

pub fn any_contains_type_var(l: &List<Ty>) -> (r: bool)
    ensures
        r == any_type_var(*l),
    decreases l,
{
    match l {
        List::Nil => false,
        List::Cons(h, t) => h.contains_type_var() || any_contains_type_var(t),
    }
}

pub fn substitute_infer_all(l: &List<Ty>, map: &VarMap) -> (r: List<Ty>)
    ensures
        r == all_subst_infer(*l, *map),
    decreases l,
{
    match l {
        List::Nil => List::Nil,
        List::Cons(h, t) => List::cons(h.substitute_infer(map), substitute_infer_all(t, map)),
    }
}

pub fn substitute_all(l: &List<Ty>, map: &Subst) -> (r: List<Ty>)
    ensures
        r == all_subst(*l, *map),
    decreases l,
{
    match l {
        List::Nil => List::Nil,
        List::Cons(h, t) => List::cons(h.substitute(map), substitute_all(t, map)),
    }
}

pub fn substitute_incl_bounds_all(l: &List<Ty>, map: &Subst) -> (r: List<Ty>)
    ensures
        r == all_subst_deep(*l, *map),
    decreases l,
{
    match l {
        List::Nil => List::Nil,
        List::Cons(h, t) => List::cons(
            h.substitute_incl_bounds(map),
            substitute_incl_bounds_all(t, map),
        ),
    }
}

pub fn erase_infer_vars_all(l: &List<Ty>) -> (r: List<Ty>)
    ensures
        r == all_without_infer(*l),
    decreases l,
{
    match l {
        List::Nil => List::Nil,
        List::Cons(h, t) => List::cons(h.erase_infer_vars(), erase_infer_vars_all(t)),
    }
}

pub fn erasure_all(l: &List<Ty>) -> (r: List<Ty>)
    ensures
        r == all_erased(*l),
    decreases l,
{
    match l {
        List::Nil => List::Nil,
        List::Cons(h, t) => List::cons(h.erasure(), erasure_all(t)),
    }
}

pub fn same_shape_all(a: &List<Ty>, b: &List<Ty>) -> (r: bool)
    ensures
        r == all_alike(*a, *b),
    decreases a,
{
    match (a, b) {
        (List::Nil, List::Nil) => true,
        (List::Cons(h, t), List::Cons(h2, t2)) => h.same_shape(h2) && same_shape_all(t, t2),
        _ => false,
    }
}

/// Erasing twice is erasing once, and what is erased mentions no type variable.
pub proof fn law_erasure_is_idempotent(t: Ty)
    ensures
        t.erased().erased() == t.erased(),
        !t.erased().has_type_var(),
    decreases t,
{
    reveal_with_fuel(Ty::erased, 2);
    reveal_with_fuel(Ty::has_type_var, 2);
    reveal_with_fuel(any_type_var, 2);
    match t {
        Ty::Array(e) => {
            law_erasure_is_idempotent(*e);
        },
        Ty::TypeVar { scope: _, bounds, lower: _ } => {
            if let List::Cons(h, _) = *bounds {
                law_erasure_is_idempotent(*h);
            }
        },
        Ty::Wildcard(WildcardBound::Upper(u)) => {
            law_erasure_is_idempotent(*u);
        },
        Ty::Intersection(l) => {
            if let List::Cons(h, _) = *l {
                law_erasure_is_idempotent(*h);
            }
        },
        _ => {},
    }
}

/// A substitution leaves a type without type variables as it is.
pub proof fn law_substitution_needs_variables(t: Ty, map: Subst)
    requires
        !t.has_type_var(),
    ensures
        t.subst(map) == t,
        t.subst_deep(map) == t,
    decreases t,
{
    match t {
        Ty::Reference { name: _, args, local: _ } => {
            lemma_all_without_variables(*args, map);
        },
        Ty::Array(e) => {
            law_substitution_needs_variables(*e, map);
        },
        Ty::Wildcard(WildcardBound::Upper(u)) => {
            law_substitution_needs_variables(*u, map);
        },
        Ty::Wildcard(WildcardBound::Lower(u)) => {
            law_substitution_needs_variables(*u, map);
        },
        Ty::Intersection(l) => {
            lemma_all_without_variables(*l, map);
        },
        _ => {},
    }
}

proof fn lemma_all_without_variables(l: List<Ty>, map: Subst)
    requires
        !any_type_var(l),
    ensures
        all_subst(l, map) == l,
        all_subst_deep(l, map) == l,
    decreases l,
{
    if let List::Cons(h, t) = l {
        law_substitution_needs_variables(*h, map);
        lemma_all_without_variables(*t, map);
    }
}

/// The empty substitution changes no type.
pub proof fn law_empty_substitution(t: Ty)
    ensures
        t.subst(List::Nil) == t,
        t.subst_infer(List::Nil) == t,
    decreases t,
{
    match t {
        Ty::Reference { name: _, args, local: _ } => {
            lemma_all_unchanged(*args);
        },
        Ty::Array(e) => {
            law_empty_substitution(*e);
        },
        Ty::Wildcard(WildcardBound::Upper(u)) => {
            law_empty_substitution(*u);
        },
        Ty::Wildcard(WildcardBound::Lower(u)) => {
            law_empty_substitution(*u);
        },
        Ty::Intersection(l) => {
            lemma_all_unchanged(*l);
        },
        _ => {},
    }
}

pub proof fn lemma_all_unchanged(l: List<Ty>)
    ensures
        all_subst(l, List::Nil) == l,
        all_subst_infer(l, List::Nil) == l,
    decreases l,
{
    if let List::Cons(h, t) = l {
        law_empty_substitution(*h);
        lemma_all_unchanged(*t);
    }
}

/// Where the inference variables are taken for `Object`, none is left.
pub proof fn law_no_inference_variable_left(t: Ty)
    ensures
        !t.without_infer_vars().has_infer_var(),
    decreases t,
{
    reveal_with_fuel(Ty::has_infer_var, 2);
    reveal_with_fuel(any_infer_var, 2);
    match t {
        Ty::Reference { name: _, args, local: _ } => {
            lemma_none_left(*args);
        },
        Ty::Array(e) => {
            law_no_inference_variable_left(*e);
        },
        Ty::Wildcard(WildcardBound::Upper(u)) => {
            law_no_inference_variable_left(*u);
        },
        Ty::Wildcard(WildcardBound::Lower(u)) => {
            law_no_inference_variable_left(*u);
        },
        Ty::Intersection(l) => {
            lemma_none_left(*l);
        },
        _ => {},
    }
}

proof fn lemma_none_left(l: List<Ty>)
    ensures
        !any_infer_var(all_without_infer(l)),
    decreases l,
{
    if let List::Cons(h, t) = l {
        law_no_inference_variable_left(*h);
        lemma_none_left(*t);
    }
}

} // verus!
