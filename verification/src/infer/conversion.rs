//! The laws of primitive types: promotion, widening, comparison, casts and
//! choices, told by the types themselves.
use crate::db::TyDatabase;
use crate::infer::operator::{
    binary_promoted, cast_allowed, choice, comparable_types, fits, unary_promoted, widens,
};
use crate::list::List;
use crate::names::Name;
use crate::ty::{PrimitiveType, Ty};
use vstd::prelude::*;

verus! {

/// The class that holds values of a primitive type as objects.
pub open spec fn holder(p: PrimitiveType) -> Ty {
    Ty::Reference {
        name: match p {
            PrimitiveType::Boolean => Name::BoxedBoolean,
            PrimitiveType::Byte => Name::BoxedByte,
            PrimitiveType::Short => Name::BoxedShort,
            PrimitiveType::Char => Name::BoxedCharacter,
            PrimitiveType::Int => Name::BoxedInteger,
            PrimitiveType::Long => Name::BoxedLong,
            PrimitiveType::Float => Name::BoxedFloat,
            PrimitiveType::Double => Name::BoxedDouble,
            PrimitiveType::Void => Name::BoxedVoid,
        },
        args: Box::new(List::Nil),
        local: None,
    }
}

/// Whether values of the type are numbers.
pub open spec fn number(p: PrimitiveType) -> bool {
    !(p is Boolean) && !(p is Void)
}

/// Whether a type is the primitive type or the class of its objects.
pub open spec fn is_or_holds(t: Ty, p: PrimitiveType) -> bool {
    t == Ty::Primitive(p) || t == holder(p)
}

/// An operator on two numbers computes with `double` if one of them is a
/// `double`, else with `float` if one is a `float`, else with `long` if one is a
/// `long`, else with `int`, whether they are objects or not. With an operand
/// that is no number it has no type.
pub proof fn law_operators_on_numbers(a: Ty, b: Ty, p: PrimitiveType, q: PrimitiveType)
    requires
        is_or_holds(a, p),
        is_or_holds(b, q),
        !(p is Void),
        !(q is Void),
    ensures
        binary_promoted(a, b) == if !number(p) || !number(q) {
            Ty::Error
        } else if p is Double || q is Double {
            Ty::Primitive(PrimitiveType::Double)
        } else if p is Float || q is Float {
            Ty::Primitive(PrimitiveType::Float)
        } else if p is Long || q is Long {
            Ty::Primitive(PrimitiveType::Long)
        } else {
            Ty::Primitive(PrimitiveType::Int)
        },
{
}

/// An operator on one number computes with `int` if its operand is smaller, and
/// with the type of the operand otherwise, whether it is an object or not.
pub proof fn law_operators_on_one_number(a: Ty, p: PrimitiveType)
    requires
        is_or_holds(a, p),
        number(p),
    ensures
        unary_promoted(a) == if p is Byte || p is Short || p is Char {
            Ty::Primitive(PrimitiveType::Int)
        } else {
            Ty::Primitive(p)
        },
{
}

/// No number widens to itself, to a smaller one or to `char`; what widens in two
/// steps widens in one; every number but `double` itself widens to `double`,
/// and nothing widens to or from what is no number.
pub proof fn law_widening(p: PrimitiveType, q: PrimitiveType, r: PrimitiveType)
    ensures
        !widens(p, p),
        widens(p, q) ==> !widens(q, p),
        widens(p, q) && widens(q, r) ==> widens(p, r),
        widens(p, PrimitiveType::Double) == (number(p) && !(p is Double)),
        widens(p, PrimitiveType::Float) == (number(p) && !(p is Double) && !(p is Float)),
        widens(p, PrimitiveType::Long) == (p is Byte || p is Short || p is Char || p is Int),
        widens(p, PrimitiveType::Int) == (p is Byte || p is Short || p is Char),
        widens(p, PrimitiveType::Short) == (p is Byte),
        !widens(p, PrimitiveType::Char),
        !widens(p, PrimitiveType::Byte),
        !widens(p, PrimitiveType::Boolean),
        !widens(p, PrimitiveType::Void),
{
}

/// A whole number that is a value of a type is one of every whole type that the
/// type widens to. A signed type has one negative value more than it has
/// positive ones, and `char` as many values as `short`, none negative.
pub proof fn law_values_of_whole_types(v: i64, p: PrimitiveType, q: PrimitiveType)
    requires
        v > i64::MIN,
    ensures
        fits(v, p) && widens(p, q) && !(q is Float) && !(q is Double) ==> fits(v, q),
        v >= 0 && !(p is Char) ==> fits(v, p) == fits((-v - 1) as i64, p),
        fits(v, PrimitiveType::Char) ==> v >= 0,
        v >= 0 && v < i64::MAX - 32768 ==> (fits(v, PrimitiveType::Char) == fits(
            (v - 32768) as i64,
            PrimitiveType::Short,
        )),
        fits(127, PrimitiveType::Byte) && !fits(128, PrimitiveType::Byte),
        fits(32767, PrimitiveType::Short) && !fits(32768, PrimitiveType::Short),
        fits(0x7fff_ffff, PrimitiveType::Int) && !fits(0x8000_0000, PrimitiveType::Int),
{
}

/// Numbers compare with numbers and booleans with booleans, objects or not as
/// long as one of them is none; nothing else primitive compares. `null` compares
/// with no primitive type.
pub proof fn law_comparing_primitives<D: TyDatabase>(
    db: &D,
    a: Ty,
    b: Ty,
    p: PrimitiveType,
    q: PrimitiveType,
)
    requires
        a == Ty::Primitive(p),
        is_or_holds(b, q),
        !(p is Void),
        !(q is Void),
    ensures
        comparable_types(db, a, b) == (number(p) == number(q)),
        comparable_types(db, b, a) == (number(p) == number(q)),
        !comparable_types(db, a, Ty::Null),
        !comparable_types(db, Ty::Null, a),
{
}

/// `null` compares with every class, and two classes that hold no primitive
/// values compare. The object of a primitive value compares with such a class
/// exactly where one is a subtype of the other.
pub proof fn law_comparing_references<D: TyDatabase>(
    db: &D,
    a: Ty,
    b: Ty,
    p: PrimitiveType,
)
    requires
        a is Reference,
        b is Reference,
        forall|k: PrimitiveType| a->Reference_name != #[trigger] holder(k)->Reference_name,
        forall|k: PrimitiveType| b->Reference_name != #[trigger] holder(k)->Reference_name,
        !(p is Void),
    ensures
        comparable_types(db, a, Ty::Null),
        comparable_types(db, Ty::Null, a),
        comparable_types(db, a, b),
        comparable_types(db, holder(p), a) == (db.subtype(holder(p), a) || db.subtype(
            a,
            holder(p),
        )),
        !comparable_types(db, Ty::Primitive(p), a),
{
    assert(a->Reference_name != holder(PrimitiveType::Boolean)->Reference_name);
    assert(a->Reference_name != holder(PrimitiveType::Byte)->Reference_name);
    assert(a->Reference_name != holder(PrimitiveType::Short)->Reference_name);
    assert(a->Reference_name != holder(PrimitiveType::Char)->Reference_name);
    assert(a->Reference_name != holder(PrimitiveType::Int)->Reference_name);
    assert(a->Reference_name != holder(PrimitiveType::Long)->Reference_name);
    assert(a->Reference_name != holder(PrimitiveType::Float)->Reference_name);
    assert(a->Reference_name != holder(PrimitiveType::Double)->Reference_name);
    assert(b->Reference_name != holder(PrimitiveType::Boolean)->Reference_name);
    assert(b->Reference_name != holder(PrimitiveType::Byte)->Reference_name);
    assert(b->Reference_name != holder(PrimitiveType::Short)->Reference_name);
    assert(b->Reference_name != holder(PrimitiveType::Char)->Reference_name);
    assert(b->Reference_name != holder(PrimitiveType::Int)->Reference_name);
    assert(b->Reference_name != holder(PrimitiveType::Long)->Reference_name);
    assert(b->Reference_name != holder(PrimitiveType::Float)->Reference_name);
    assert(b->Reference_name != holder(PrimitiveType::Double)->Reference_name);
}

/// A number can be cast to every type of numbers, and no other type but
/// `boolean` to `boolean`. The object of a value can be cast to its type and to
/// those that widens to, and a value to its class and what is above that.
pub proof fn law_casting_primitives<D: TyDatabase>(
    db: &D,
    p: PrimitiveType,
    q: PrimitiveType,
    class: Ty,
)
    requires
        number(p),
        number(q),
        class is Reference,
    ensures
        cast_allowed(db, Ty::Primitive(p), Ty::Primitive(q)),
        !cast_allowed(db, Ty::Primitive(p), Ty::Primitive(PrimitiveType::Boolean)),
        cast_allowed(db, holder(p), Ty::Primitive(q)) == (p == q || widens(p, q)),
        !cast_allowed(db, holder(p), Ty::Primitive(PrimitiveType::Boolean)),
        cast_allowed(db, Ty::Primitive(p), class) == (class == holder(p) || db.subtype(
            holder(p),
            class,
        )),
        cast_allowed(db, Ty::Null, class),
        !cast_allowed(db, Ty::Null, Ty::Primitive(p)),
{
}

/// Between two classes a cast is refused exactly where neither is a subtype of
/// the other and neither may be an interface. An array can be cast to the
/// classes above all arrays only.
pub proof fn law_casting_classes<D: TyDatabase>(db: &D, a: Ty, b: Ty, e: Box<Ty>)
    requires
        a is Reference,
        b is Reference,
    ensures
        !cast_allowed(db, a, b) <==> a != b && !db.subtype(a, b) && !db.subtype(b, a)
            && db.class_like(a) == Some(true) && db.class_like(b) == Some(true),
        cast_allowed(db, Ty::Array(e), a) == (a->Reference_name == Name::Object
            || a->Reference_name == Name::Cloneable || a->Reference_name == Name::Serializable),
        cast_allowed(db, a, Ty::Array(e)) == (a->Reference_name == Name::Object
            || a->Reference_name == Name::Cloneable || a->Reference_name == Name::Serializable),
{
}

/// A choice between a primitive value and another one, an object or not, is of
/// the type that an operator on them has if both are numbers, and `boolean` if
/// neither is; it has no type if one is. A choice between `null` and a class is
/// of the class.
pub proof fn law_choosing_primitives<D: TyDatabase>(
    db: &D,
    b: Ty,
    p: PrimitiveType,
    q: PrimitiveType,
    class: Ty,
)
    requires
        is_or_holds(b, q),
        !(p is Void),
        !(q is Void),
        class is Reference,
    ensures
        ({
            let a = Ty::Primitive(p);
            let r = choice(db, a, b);
            &&& choice(db, b, a) == r
            &&& p == q ==> r == if b is Primitive || !(p is Byte || p is Short || p is Char) {
                a
            } else {
                Ty::Primitive(PrimitiveType::Int)
            }
            &&& p != q && number(p) && number(q) ==> r == binary_promoted(a, b)
            &&& number(p) != number(q) ==> r is Error
        }),
        choice(db, Ty::Null, class) == class,
        choice(db, class, Ty::Null) == class,
        choice(db, Ty::Null, Ty::Primitive(p)) == holder(p),
        choice(db, Ty::Primitive(p), Ty::Null) == holder(p),
{
}

} // verus!
