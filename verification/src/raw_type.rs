//! Raw types: a generic class that is written without its type arguments.
use crate::db::TyDatabase;
use crate::list::List;
use crate::ty::Ty;
use vstd::prelude::*;

verus! {

/// Whether the type is a raw use of a generic class.
pub open spec fn raw_reference<D: TyDatabase>(db: &D, t: Ty) -> bool {
    match t {
        Ty::Reference { name, args, local: _ } => *args == List::<Ty>::Nil && db.generic(name),
        _ => false,
    }
}

/// Whether the type, as it is written, is a raw use of a generic class: a
/// reference without type arguments to a class with type parameters.
pub fn is_raw_reference<D: TyDatabase>(db: &D, t: &Ty) -> (r: bool)
    ensures
        r == raw_reference(db, *t),
{
    match t {
        Ty::Reference { name, args, local: _ } => args.is_empty() && db.class_is_generic(*name),
        _ => false,
    }
}

} // verus!
