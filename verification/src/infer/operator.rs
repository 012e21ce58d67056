//! The types of operators: promotion, the conditional operator, comparison and
//! casts.
use crate::db::TyDatabase;
use crate::inference::lub::{least_upper_bound, lub, pair};
use crate::infer::ctx::{
    boolean_type, is_boolean, is_numeric_operand, is_reference_like, numeric_type, reference_like,
    Site,
};
use crate::list::{Data, List};
use crate::names::Name;
use crate::select::{pick_method, picked};
use crate::ty::{boxed, boxed_name, boxed_type, class_of, unboxed_name, unboxed_primitive};
use crate::ty::{PrimitiveType, Ty};
use vstd::prelude::*;

verus! {

/// The promoted form of a numeric type.
pub open spec fn promoted(p: PrimitiveType) -> PrimitiveType {
    match p {
        PrimitiveType::Byte => PrimitiveType::Int,
        PrimitiveType::Short => PrimitiveType::Int,
        PrimitiveType::Char => PrimitiveType::Int,
        _ => p,
    }
}

/// The promoted form of a numeric type.
pub fn numeric_promotion(p: PrimitiveType) -> (r: PrimitiveType)
    ensures
        r == promoted(p),
{
    match p {
        PrimitiveType::Byte => PrimitiveType::Int,
        PrimitiveType::Short => PrimitiveType::Int,
        PrimitiveType::Char => PrimitiveType::Int,
        _ => p,
    }
}

/// The size of a numeric type among those that widen to one another.
pub open spec fn width(p: PrimitiveType) -> int {
    match p {
        PrimitiveType::Byte => 1,
        PrimitiveType::Short => 2,
        PrimitiveType::Char => 2,
        PrimitiveType::Int => 3,
        PrimitiveType::Long => 4,
        PrimitiveType::Float => 5,
        PrimitiveType::Double => 6,
        PrimitiveType::Boolean => 0,
        PrimitiveType::Void => 0,
    }
}

/// Whether a primitive type widens to another: a numeric type to a larger one,
/// and nothing to `char`.
pub open spec fn widens(from: PrimitiveType, to: PrimitiveType) -> bool {
    0 < width(from) < width(to) && to != PrimitiveType::Char
}

fn width_of(p: PrimitiveType) -> (r: u8)
    ensures
        r == width(p),
{
    match p {
        PrimitiveType::Byte => 1,
        PrimitiveType::Short => 2,
        PrimitiveType::Char => 2,
        PrimitiveType::Int => 3,
        PrimitiveType::Long => 4,
        PrimitiveType::Float => 5,
        PrimitiveType::Double => 6,
        PrimitiveType::Boolean => 0,
        PrimitiveType::Void => 0,
    }
}

/// Whether a primitive type widens to another.
pub fn widening_primitive(from: PrimitiveType, to: PrimitiveType) -> (r: bool)
    ensures
        r == widens(from, to),
{
    let a: u8 = width_of(from);
    let b: u8 = width_of(to);
    0 < a && a < b && to != PrimitiveType::Char
}

/// Whether a value is one of an integral type.
pub open spec fn fits(v: i64, p: PrimitiveType) -> bool {
    match p {
        PrimitiveType::Byte => -128 <= v <= 127,
        PrimitiveType::Short => -32768 <= v <= 32767,
        PrimitiveType::Char => 0 <= v <= 65535,
        PrimitiveType::Int => -2147483648 <= v <= 2147483647,
        PrimitiveType::Long => true,
        _ => false,
    }
}

/// Whether a value is one of an integral type.
pub fn fits_primitive(v: i64, p: PrimitiveType) -> (r: bool)
    ensures
        r == fits(v, p),
{
    match p {
        PrimitiveType::Byte => -128 <= v && v <= 127,
        PrimitiveType::Short => -32768 <= v && v <= 32767,
        PrimitiveType::Char => 0 <= v && v <= 65535,
        PrimitiveType::Int => -2147483648 <= v && v <= 2147483647,
        PrimitiveType::Long => true,
        _ => false,
    }
}

/// A boxed type as the primitive type it boxes; another type stays as it is.
pub open spec fn unboxed(t: Ty) -> Ty {
    match t {
        Ty::Reference { name, args: _, local: _ } => match unboxed_name(name) {
            Some(p) => Ty::Primitive(p),
            None => t,
        },
        _ => t,
    }
}

/// A boxed type as the primitive type it boxes; another type stays as it is.
pub fn unboxed_operand(t: &Ty) -> (r: Ty)
    ensures
        r == unboxed(*t),
{
    match t {
        Ty::Reference { name, args: _, local: _ } => match unboxed_primitive(*name) {
            Some(p) => Ty::Primitive(p),
            None => t.copy(),
        },
        _ => t.copy(),
    }
}

/// The type of a unary operator: of the small integral types `int`, of another
/// primitive type itself. A boxed operand is unboxed first; another reference
/// has none.
pub open spec fn unary_promoted(t: Ty) -> Ty {
    match unboxed(t) {
        Ty::Primitive(p) => Ty::Primitive(promoted(p)),
        _ => Ty::Error,
    }
}

/// The type of a unary operator.
pub fn unary_promotion(t: &Ty) -> (r: Ty)
    ensures
        r == unary_promoted(*t),
{
    match unboxed_operand(t) {
        Ty::Primitive(p) => Ty::Primitive(numeric_promotion(p)),
        _ => Ty::Error,
    }
}

/// The promoted form of a numeric operand, boxed or not.
pub open spec fn operand(t: Ty) -> Option<PrimitiveType> {
    match unboxed(t) {
        Ty::Primitive(p) => if p == PrimitiveType::Boolean || p == PrimitiveType::Void {
            None
        } else {
            Some(promoted(p))
        },
        _ => None,
    }
}

fn numeric_operand(t: &Ty) -> (r: Option<PrimitiveType>)
    ensures
        r == operand(*t),
{
    match unboxed_operand(t) {
        Ty::Primitive(p) => if p == PrimitiveType::Boolean || p == PrimitiveType::Void {
            None
        } else {
            Some(numeric_promotion(p))
        },
        _ => None,
    }
}

/// The type of a binary operator on numbers: the wider of the promoted operand
/// types. An operand that is no number makes it ill-typed.
pub open spec fn binary_promoted(a: Ty, b: Ty) -> Ty {
    match (operand(a), operand(b)) {
        (Some(p), Some(q)) => if width(p) >= width(q) {
            Ty::Primitive(p)
        } else {
            Ty::Primitive(q)
        },
        _ => Ty::Error,
    }
}

/// The type of a binary operator on numbers.
pub fn binary_numeric_promotion(a: &Ty, b: &Ty) -> (r: Ty)
    ensures
        r == binary_promoted(*a, *b),
{
    match (numeric_operand(a), numeric_operand(b)) {
        (Some(p), Some(q)) => if width_of(p) >= width_of(q) {
            Ty::Primitive(p)
        } else {
            Ty::Primitive(q)
        },
        _ => Ty::Error,
    }
}

/// Whether the type is one of references other than the null type.
pub open spec fn proper_reference(t: Ty) -> bool {
    t is Reference || t is Array || t is TypeVar || t is Intersection
}

/// A type that is no wildcard: the capture of a wildcard, or the type itself.
pub open spec fn no_wildcard<D: TyDatabase>(db: &D, t: Ty) -> Ty {
    if t is Wildcard {
        db.captured(t)
    } else {
        t
    }
}

pub fn capture_wildcard<D: TyDatabase>(db: &D, t: Ty) -> (r: Ty)
    ensures
        r == no_wildcard(db, t),
{
    if t.is_wildcard() {
        db.capture_conversion(&t)
    } else {
        t
    }
}

/// The type of a choice between two types. Where one is primitive and the other
/// too, boxed or not, they are promoted, or both `boolean`; the null type gives
/// way to a reference type, and boxes a primitive one; otherwise it is the
/// least upper bound.
pub open spec fn choice<D: TyDatabase>(db: &D, a: Ty, b: Ty) -> Ty {
    let l = unboxed(a);
    let r = unboxed(b);
    if a == b {
        a
    } else if (a is Primitive || b is Primitive) && l is Primitive && r is Primitive {
        if l == Ty::Primitive(PrimitiveType::Boolean) || r == Ty::Primitive(
            PrimitiveType::Boolean,
        ) {
            if l == r {
                l
            } else {
                Ty::Error
            }
        } else {
            binary_promoted(l, r)
        }
    } else if a is Null && proper_reference(b) {
        b
    } else if b is Null && proper_reference(a) {
        a
    } else if a is Null && b is Primitive {
        boxed(b)
    } else if b is Null && a is Primitive {
        boxed(a)
    } else {
        no_wildcard(db, lub(db, pair(a, b)))
    }
}

fn is_proper_reference(t: &Ty) -> (r: bool)
    ensures
        r == proper_reference(*t),
{
    is_reference_like(t) && !t.is_null()
}

/// The type of a choice between two types.
pub fn conditional_type<D: TyDatabase>(db: &D, a: &Ty, b: &Ty) -> (r: Ty)
    ensures
        r == choice(db, *a, *b),
{
    if a.same(b) {
        return a.copy();
    }
    let l = unboxed_operand(a);
    let r = unboxed_operand(b);
    if (a.is_primitive() || b.is_primitive()) && l.is_primitive() && r.is_primitive() {
        let boolean = Ty::Primitive(PrimitiveType::Boolean);
        if l.same(&boolean) || r.same(&boolean) {
            return if l.same(&r) {
                l
            } else {
                Ty::Error
            };
        }
        return binary_numeric_promotion(&l, &r);
    }
    if a.is_null() && is_proper_reference(b) {
        return b.copy();
    }
    if b.is_null() && is_proper_reference(a) {
        return a.copy();
    }
    if a.is_null() && b.is_primitive() {
        return b.box_primitive();
    }
    if b.is_null() && a.is_primitive() {
        return a.box_primitive();
    }
    let types = List::cons(a.copy(), List::cons(b.copy(), List::Nil));
    capture_wildcard(db, least_upper_bound(db, &types))
}

/// Whether a reference type boxes a primitive type.
pub open spec fn unboxes(t: Ty) -> bool {
    t matches Ty::Reference { name, args: _, local: _ } && unboxed_name(name) is Some
}

fn does_unbox(t: &Ty) -> (r: bool)
    ensures
        r == unboxes(*t),
{
    match t {
        Ty::Reference { name, args: _, local: _ } => unboxed_primitive(*name).is_some(),
        _ => false,
    }
}

/// Whether two types can be compared: `null` with references, numbers with
/// numbers, booleans with booleans, references with references; but a boxed
/// type with a reference that boxes nothing only where one is a subtype of the
/// other, and a boxed number never with a boxed boolean.
pub open spec fn comparable_types<D: TyDatabase>(db: &D, a: Ty, b: Ty) -> bool {
    if a is Null {
        reference_like(b)
    } else if b is Null {
        reference_like(a)
    } else if a is Error || b is Error {
        true
    } else if numeric_type(a) && numeric_type(b) {
        true
    } else if boolean_type(a) && boolean_type(b) {
        true
    } else if !reference_like(a) || !reference_like(b) {
        false
    } else if unboxes(a) != unboxes(b) {
        db.subtype(a, b) || db.subtype(b, a)
    } else {
        !unboxes(a)
    }
}

/// Whether two types can be compared.
pub fn comparable<D: TyDatabase>(db: &D, a: &Ty, b: &Ty) -> (r: bool)
    ensures
        r == comparable_types(db, *a, *b),
{
    if a.is_null() {
        return is_reference_like(b);
    }
    if b.is_null() {
        return is_reference_like(a);
    }
    if a.is_error() || b.is_error() {
        return true;
    }
    if is_numeric_operand(a) && is_numeric_operand(b) {
        return true;
    }
    if is_boolean(a) && is_boolean(b) {
        return true;
    }
    if !is_reference_like(a) || !is_reference_like(b) {
        return false;
    }
    if does_unbox(a) != does_unbox(b) {
        return db.is_subtype(a, b) || db.is_subtype(b, a);
    }
    !does_unbox(a)
}

/// Whether a class is one that arrays convert to.
pub open spec fn array_parent(n: Name) -> bool {
    n == Name::Object || n == Name::Cloneable || n == Name::Serializable
}

/// Whether a reference can be cast to another: one is a subtype of the other,
/// or one of them may be an interface.
pub open spec fn reference_cast<D: TyDatabase>(db: &D, from: Ty, to: Ty) -> bool {
    db.subtype(from, to) || db.subtype(to, from) || !(db.class_like(from) == Some(true)
        && db.class_like(to) == Some(true))
}

/// Whether a reference can be cast to another.
pub fn reference_castable<D: TyDatabase>(db: &D, from: &Ty, to: &Ty) -> (r: bool)
    ensures
        r == reference_cast(db, *from, *to),
{
    if db.is_subtype(from, to) || db.is_subtype(to, from) {
        return true;
    }
    let a = match db.is_class_like(from) {
        Some(c) => c,
        None => false,
    };
    let b = match db.is_class_like(to) {
        Some(c) => c,
        None => false,
    };
    !(a && b)
}

/// Whether a value of one type can be cast to another.
pub open spec fn cast_allowed<D: TyDatabase>(db: &D, given: Ty, to: Ty) -> bool {
    let from = no_wildcard(db, given);
    if given == to {
        true
    } else if from is Null && reference_like(to) {
        true
    } else {
        match (from, to) {
            (Ty::Primitive(_), Ty::Primitive(p)) => p != PrimitiveType::Boolean,
            (Ty::Primitive(p), Ty::Reference { name: _, args: _, local: _ }) => class_of(
                boxed_name(p),
            ) == to || db.subtype(class_of(boxed_name(p)), to),
            (Ty::Reference { name, args: _, local: _ }, Ty::Primitive(t)) => match unboxed_name(
                name,
            ) {
                Some(p) => p == t || widens(p, t),
                None => reference_cast(db, from, class_of(boxed_name(t))),
            },
            (Ty::Reference { name, args: _, local: _ }, Ty::Array(_)) => array_parent(name),
            (Ty::Array(_), Ty::Array(_)) => true,
            (Ty::Array(_), Ty::Reference { name, args: _, local: _ }) => array_parent(name),
            (Ty::TypeVar { scope: _, bounds: _, lower: _ }, Ty::Array(_)) => true,
            (
                Ty::TypeVar { scope: _, bounds: _, lower: _ },
                Ty::Reference { name: _, args: _, local: _ },
            ) => true,
            (
                Ty::Reference { name: _, args: _, local: _ },
                Ty::Reference { name: _, args: _, local: _ },
            ) => reference_cast(db, from, to),
            _ => false,
        }
    }
}

fn is_array_parent(n: Name) -> (r: bool)
    ensures
        r == array_parent(n),
{
    n == Name::Object || n == Name::Cloneable || n == Name::Serializable
}

/// Whether a value of one type can be cast to another.
pub fn castable<D: TyDatabase>(db: &D, given: &Ty, to: &Ty) -> (r: bool)
    ensures
        r == cast_allowed(db, *given, *to),
{
    if given.same(to) {
        return true;
    }
    let from = capture_wildcard(db, given.copy());
    if from.is_null() && is_reference_like(to) {
        return true;
    }
    match (&from, to) {
        (Ty::Primitive(_), Ty::Primitive(p)) => *p != PrimitiveType::Boolean,
        (Ty::Primitive(p), Ty::Reference { name: _, args: _, local: _ }) => {
            let b = Ty::class(boxed_type(*p));
            b.same(to) || db.is_subtype(&b, to)
        },
        (Ty::Reference { name, args: _, local: _ }, Ty::Primitive(t)) => match unboxed_primitive(
            *name,
        ) {
            Some(p) => p == *t || widening_primitive(p, *t),
            None => reference_castable(db, &from, &Ty::class(boxed_type(*t))),
        },
        (Ty::Reference { name, args: _, local: _ }, Ty::Array(_)) => is_array_parent(*name),
        (Ty::Array(_), Ty::Array(_)) => true,
        (Ty::Array(_), Ty::Reference { name, args: _, local: _ }) => is_array_parent(*name),
        (Ty::TypeVar { scope: _, bounds: _, lower: _ }, Ty::Array(_)) => true,
        (
            Ty::TypeVar { scope: _, bounds: _, lower: _ },
            Ty::Reference { name: _, args: _, local: _ },
        ) => true,
        (
            Ty::Reference { name: _, args: _, local: _ },
            Ty::Reference { name: _, args: _, local: _ },
        ) => reference_castable(db, &from, to),
        _ => false,
    }
}

/// The type of the elements of an iterable: what `next` of its `iterator`
/// returns.
pub open spec fn element_of<D: TyDatabase>(db: &D, site: Site, next: u64, t: Ty) -> Option<Ty> {
    match picked(db, next, db.members(t, Name::Iterator, site.access), List::Nil, None) {
        None => None,
        Some(iterator) => match picked(
            db,
            next,
            db.members(iterator.ret, Name::Next, site.access),
            List::Nil,
            None,
        ) {
            Some(m) => Some(m.ret),
            None => None,
        },
    }
}

/// The type of the elements of an iterable.
pub fn iterable_element<D: TyDatabase>(db: &D, site: &Site, next: u64, t: &Ty) -> (r: Option<Ty>)
    ensures
        r == element_of(db, *site, next, *t),
{
    match pick_method(db, next, t, Name::Iterator, &List::Nil, &site.access, &None) {
        None => None,
        Some(iterator) => match pick_method(
            db,
            next,
            &iterator.ret,
            Name::Next,
            &List::Nil,
            &site.access,
            &None,
        ) {
            Some(m) => Some(m.ret),
            None => None,
        },
    }
}

/// Promotion does not depend on the order of the operands.
pub proof fn law_promotion_commutes(a: Ty, b: Ty)
    ensures
        binary_promoted(a, b) == binary_promoted(b, a),
{
}

/// The type of an operator on numbers is at least as wide as each operand, and
/// one that the operand is or widens to.
pub proof fn law_promotion_widens(a: Ty, b: Ty, p: PrimitiveType)
    requires
        unboxed(a) == Ty::Primitive(p),
        operand(a) is Some,
        operand(b) is Some,
    ensures
        binary_promoted(a, b) matches Ty::Primitive(q) && (p == q || widens(p, q)),
{
}

/// Comparing does not depend on the order of the operands.
pub proof fn law_comparable_symmetric<D: TyDatabase>(db: &D, a: Ty, b: Ty)
    ensures
        comparable_types(db, a, b) == comparable_types(db, b, a),
{
}

/// Every type can be cast to itself, and a cast between references goes both
/// ways or not at all.
pub proof fn law_casts<D: TyDatabase>(db: &D, a: Ty, b: Ty)
    ensures
        cast_allowed(db, a, a),
        reference_cast(db, a, b) == reference_cast(db, b, a),
{
}

/// A choice between equal types has that type, and a choice between numbers
/// does not depend on their order.
pub proof fn law_choice<D: TyDatabase>(db: &D, a: Ty, b: Ty)
    ensures
        choice(db, a, a) == a,
        (a is Primitive && b is Primitive) ==> choice(db, a, b) == choice(db, b, a),
        (a is Null && b is Primitive) ==> choice(db, a, b) == boxed(b),
{
}

} // verus!
