//! Lambdas and method references against a function type.
use crate::db::TyDatabase;
use crate::ids::{insert_into, is_in, new_set};
use crate::infer::ctx::{take, InferCtx};
use crate::infer::diag::TypeError;
use crate::infer::poly::MethodRefKind;
use crate::infer::switch::{assignable_to_any, is_assignable_to_any};
use crate::list::{Data, List};
use crate::member::MethodData;
use crate::select::{choose_most_specific, most_specific, Candidate};
use crate::ty::{Ty, TypeVarScope, WildcardBound};
use rustc_hash::FxHashSet;
use vstd::prelude::*;

verus! {

/// The type with the variables of a capture conversion replaced by the bounds
/// of the wildcards they stand for.
pub open spec fn decaptured(t: Ty) -> Ty
    decreases t,
{
    match t {
        Ty::TypeVar { scope, bounds, lower } => if scope is Capture {
            match lower {
                Some(l) => decaptured(*l),
                None => match *bounds {
                    List::Nil => t,
                    List::Cons(b, _) => decaptured(*b),
                },
            }
        } else {
            t
        },
        Ty::Reference { name, args, local } => Ty::Reference {
            name,
            args: Box::new(all_decaptured(*args)),
            local,
        },
        Ty::Array(e) => Ty::Array(Box::new(decaptured(*e))),
        _ => t,
    }
}

/// The type arguments so, also in the bound of a wildcard.
pub open spec fn all_decaptured(l: List<Ty>) -> List<Ty>
    decreases l,
{
    match l {
        List::Nil => List::Nil,
        List::Cons(h, t) => List::Cons(
            Box::new(
                match *h {
                    Ty::Wildcard(WildcardBound::Upper(b)) => Ty::Wildcard(
                        WildcardBound::Upper(Box::new(decaptured(*b))),
                    ),
                    Ty::Wildcard(WildcardBound::Lower(b)) => Ty::Wildcard(
                        WildcardBound::Lower(Box::new(decaptured(*b))),
                    ),
                    _ => decaptured(*h),
                },
            ),
            Box::new(all_decaptured(*t)),
        ),
    }
}

/// The type with the variables of a capture conversion replaced by the bounds
/// of the wildcards they stand for.
pub fn decapture(t: &Ty) -> (r: Ty)
    ensures
        r == decaptured(*t),
    decreases t,
{
    match t {
        Ty::TypeVar { scope, bounds, lower } => match scope {
            TypeVarScope::Capture(_) => match lower {
                Some(l) => decapture(l),
                None => match &**bounds {
                    List::Nil => t.copy(),
                    List::Cons(b, _) => decapture(b),
                },
            },
            _ => t.copy(),
        },
        Ty::Reference { name, args, local } => Ty::Reference {
            name: *name,
            args: Box::new(decapture_all(args)),
            local: *local,
        },
        Ty::Array(e) => Ty::array(decapture(e)),
        _ => t.copy(),
    }
}

fn decapture_all(l: &List<Ty>) -> (r: List<Ty>)
    ensures
        r == all_decaptured(*l),
    decreases l,
{
    match l {
        List::Nil => List::Nil,
        List::Cons(h, t) => {
            let here = match &**h {
                Ty::Wildcard(WildcardBound::Upper(b)) => Ty::upper_wildcard(decapture(b)),
                Ty::Wildcard(WildcardBound::Lower(b)) => Ty::lower_wildcard(decapture(b)),
                _ => decapture(h),
            };
            List::cons(here, decapture_all(t))
        },
    }
}

/// Whether a type holds a variable of a capture conversion.
pub open spec fn has_capture(t: Ty) -> bool
    decreases t,
{
    match t {
        Ty::TypeVar { scope, bounds: _, lower: _ } => scope is Capture,
        Ty::Reference { name: _, args, local: _ } => some_capture(*args),
        Ty::Array(inner) => has_capture(*inner),
        Ty::Wildcard(bound) => match bound {
            WildcardBound::Unbounded => false,
            WildcardBound::Upper(b) => has_capture(*b),
            WildcardBound::Lower(b) => has_capture(*b),
        },
        Ty::Intersection(l) => some_capture(*l),
        _ => false,
    }
}

pub open spec fn some_capture(l: List<Ty>) -> bool
    decreases l,
{
    match l {
        List::Nil => false,
        List::Cons(h, t) => has_capture(*h) || some_capture(*t),
    }
}

pub fn contains_capture(t: &Ty) -> (r: bool)
    ensures
        r == has_capture(*t),
    decreases t,
{
    match t {
        Ty::TypeVar { scope, bounds: _, lower: _ } => match scope {
            TypeVarScope::Capture(_) => true,
            _ => false,
        },
        Ty::Reference { name: _, args, local: _ } => some_contains_capture(args),
        Ty::Array(inner) => contains_capture(inner),
        Ty::Wildcard(bound) => match bound {
            WildcardBound::Unbounded => false,
            WildcardBound::Upper(b) => contains_capture(b),
            WildcardBound::Lower(b) => contains_capture(b),
        },
        Ty::Intersection(l) => some_contains_capture(l),
        _ => false,
    }
}

fn some_contains_capture(l: &List<Ty>) -> (r: bool)
    ensures
        r == some_capture(*l),
    decreases l,
{
    match l {
        List::Nil => false,
        List::Cons(h, t) => contains_capture(h) || some_contains_capture(t),
    }
}

/// Whether a parameter of a referenced method takes one of the function type.
/// One that is not inferred yet fits.
pub open spec fn ref_param_fits<D: TyDatabase>(db: &D, given: Ty, param: Ty) -> bool {
    let d = decaptured(given);
    d.has_infer_var() || param.has_infer_var() || db.assignable(d, param)
}

/// Whether a parameter of a referenced method takes one of the function type.
pub fn method_ref_param_compatible<D: TyDatabase>(db: &D, given: &Ty, param: &Ty) -> (r: bool)
    ensures
        r == ref_param_fits(db, *given, *param),
{
    let d = decapture(given);
    d.contains_infer_var() || param.contains_infer_var() || db.is_assignable(&d, param)
}

/// Whether a type takes all of the parameters.
pub open spec fn all_fit<D: TyDatabase>(db: &D, given: List<Ty>, param: Ty) -> bool
    decreases given,
{
    match given {
        List::Nil => true,
        List::Cons(h, t) => ref_param_fits(db, *h, param) && all_fit(db, *t, param),
    }
}

fn do_all_fit<D: TyDatabase>(db: &D, given: &List<Ty>, param: &Ty) -> (r: bool)
    ensures
        r == all_fit(db, *given, *param),
    decreases given,
{
    match given {
        List::Nil => true,
        List::Cons(h, t) => method_ref_param_compatible(db, h, param) && do_all_fit(db, t, param),
    }
}

/// Whether the parameters of a method take those of a function type one by one.
pub open spec fn params_fit<D: TyDatabase>(db: &D, given: List<Ty>, params: List<Ty>) -> bool
    decreases params,
{
    match (given, params) {
        (List::Nil, List::Nil) => true,
        (List::Cons(g, gt), List::Cons(p, pt)) => ref_param_fits(db, *g, *p) && params_fit(
            db,
            *gt,
            *pt,
        ),
        _ => false,
    }
}

fn do_params_fit<D: TyDatabase>(db: &D, given: &List<Ty>, params: &List<Ty>) -> (r: bool)
    ensures
        r == params_fit(db, *given, *params),
    decreases params,
{
    match (given, params) {
        (List::Nil, List::Nil) => true,
        (List::Cons(g, gt), List::Cons(p, pt)) => method_ref_param_compatible(db, g, p)
            && do_params_fit(db, gt, pt),
        _ => false,
    }
}

/// Whether the parameters of a variable arity method take those of a function
/// type: the last one takes as many as are left, by its component.
pub open spec fn variable_params_fit<D: TyDatabase>(
    db: &D,
    given: List<Ty>,
    params: List<Ty>,
) -> bool
    decreases params,
{
    match params {
        List::Nil => false,
        List::Cons(p, pt) => if *pt is Nil {
            match p.component() {
                Some(e) => all_fit(db, given, e),
                None => false,
            }
        } else {
            match given {
                List::Nil => false,
                List::Cons(g, gt) => ref_param_fits(db, *g, *p) && variable_params_fit(
                    db,
                    *gt,
                    *pt,
                ),
            }
        },
    }
}

fn do_variable_params_fit<D: TyDatabase>(db: &D, given: &List<Ty>, params: &List<Ty>) -> (r: bool)
    ensures
        r == variable_params_fit(db, *given, *params),
    decreases params,
{
    match params {
        List::Nil => false,
        List::Cons(p, pt) => if pt.is_empty() {
            match p.element() {
                Some(e) => do_all_fit(db, given, &e),
                None => false,
            }
        } else {
            match given {
                List::Nil => false,
                List::Cons(g, gt) => method_ref_param_compatible(db, g, p)
                    && do_variable_params_fit(db, gt, pt),
            }
        },
    }
}

/// The parameters of the function type that a referenced method takes: without
/// the first where that is the receiver.
pub open spec fn passed(params: List<Ty>, kind: MethodRefKind) -> List<Ty> {
    match kind {
        MethodRefKind::Unbound => match params {
            List::Nil => List::Nil,
            List::Cons(_, t) => *t,
        },
        _ => params,
    }
}

/// The methods that take the parameters, each as a candidate.
pub open spec fn fitting<D: TyDatabase>(
    db: &D,
    methods: List<MethodData>,
    given: List<Ty>,
) -> List<Candidate>
    decreases methods,
{
    match methods {
        List::Nil => List::Nil,
        List::Cons(m, t) => {
            let rest = fitting(db, *t, given);
            let fits = if m.varargs {
                variable_params_fit(db, given, m.params)
            } else {
                params_fit(db, given, m.params)
            };
            if fits {
                List::Cons(Box::new((*m, *m)), Box::new(rest))
            } else {
                rest
            }
        },
    }
}

fn find_fitting<D: TyDatabase>(db: &D, methods: &List<MethodData>, given: &List<Ty>) -> (r: List<
    Candidate,
>)
    ensures
        r == fitting(db, *methods, *given),
    decreases methods,
{
    match methods {
        List::Nil => List::Nil,
        List::Cons(m, t) => {
            let rest = find_fitting(db, t, given);
            let fits = if m.varargs {
                do_variable_params_fit(db, given, &m.params)
            } else {
                do_params_fit(db, given, &m.params)
            };
            if fits {
                List::cons((m.copy(), m.copy()), rest)
            } else {
                rest
            }
        },
    }
}

/// The method that a method reference means against the parameters of a
/// function type: the most specific one that takes them, or the first.
pub open spec fn ref_picked<D: TyDatabase>(
    db: &D,
    next: u64,
    methods: List<MethodData>,
    params: List<Ty>,
    kind: MethodRefKind,
) -> Option<MethodData> {
    let fits = fitting(db, methods, passed(params, kind));
    match most_specific(db, next, fits, false) {
        Some(m) => Some(m),
        None => match fits {
            List::Nil => None,
            List::Cons(c, _) => Some(c.0),
        },
    }
}

/// The method that a method reference means against the parameters of a
/// function type.
pub fn pick_method_ref<D: TyDatabase>(
    db: &D,
    next: u64,
    methods: &List<MethodData>,
    params: &List<Ty>,
    kind: MethodRefKind,
) -> (r: Option<MethodData>)
    ensures
        r == ref_picked(db, next, *methods, *params, kind),
{
    let none: List<Ty> = List::Nil;
    let given: &List<Ty> = match kind {
        MethodRefKind::Unbound => match params {
            List::Nil => &none,
            List::Cons(_, t) => t,
        },
        _ => params,
    };
    let fits = find_fitting(db, methods, given);
    match choose_most_specific(db, next, &fits, false) {
        Some(m) => Some(m),
        None => match &fits {
            List::Nil => None,
            List::Cons(c, _) => Some(c.0.copy()),
        },
    }
}

/// The expressions that throw.
pub open spec fn throwers(l: List<(Ty, u32)>) -> Set<u32>
    decreases l,
{
    match l {
        List::Nil => Set::empty(),
        List::Cons(h, t) => throwers(*t).insert(h.1),
    }
}

pub fn find_throwers(l: &List<(Ty, u32)>) -> (r: FxHashSet<u32>)
    ensures
        r@ == throwers(*l),
    decreases l,
{
    match l {
        List::Nil => new_set(),
        List::Cons(h, t) => {
            let mut ids = find_throwers(t);
            insert_into(&mut ids, h.1);
            ids
        },
    }
}

/// The exceptions of expressions that threw before.
pub open spec fn thrown_earlier(l: List<(Ty, u32)>, before: Set<u32>) -> List<(Ty, u32)>
    decreases l,
{
    match l {
        List::Nil => List::Nil,
        List::Cons(h, t) => if before.contains(h.1) {
            List::Cons(h, Box::new(thrown_earlier(*t, before)))
        } else {
            thrown_earlier(*t, before)
        },
    }
}

pub fn keep_thrown_earlier(l: List<(Ty, u32)>, before: &FxHashSet<u32>) -> (r: List<(Ty, u32)>)
    ensures
        r == thrown_earlier(l, before@),
    decreases l,
{
    match l {
        List::Nil => List::Nil,
        List::Cons(h, t) => {
            let rest = keep_thrown_earlier(*t, before);
            if is_in(before, h.1) {
                List::Cons(h, Box::new(rest))
            } else {
                rest
            }
        },
    }
}

/// The reports on the exceptions of a lambda body that the function type does
/// not declare.
pub open spec fn undeclared<D: TyDatabase>(
    db: &D,
    l: List<(Ty, u32)>,
    before: Set<u32>,
    throws: List<Ty>,
) -> List<TypeError>
    decreases l,
{
    match l {
        List::Nil => List::Nil,
        List::Cons(h, t) => {
            let rest = undeclared(db, *t, before, throws);
            if !before.contains(h.1) && !assignable_to_any(db, h.0, throws) {
                List::Cons(
                    Box::new(TypeError::UnreportedException { expr: h.1, thrown: h.0 }),
                    Box::new(rest),
                )
            } else {
                rest
            }
        },
    }
}

fn find_undeclared<D: TyDatabase>(
    db: &D,
    l: &List<(Ty, u32)>,
    before: &FxHashSet<u32>,
    throws: &List<Ty>,
) -> (r: List<TypeError>)
    ensures
        r == undeclared(db, *l, before@, *throws),
    decreases l,
{
    match l {
        List::Nil => List::Nil,
        List::Cons(h, t) => {
            let rest = find_undeclared(db, t, before, throws);
            if !is_in(before, h.1) && !is_assignable_to_any(db, &h.0, throws) {
                List::cons(
                    TypeError::UnreportedException { expr: h.1, thrown: h.0.copy() },
                    rest,
                )
            } else {
                rest
            }
        },
    }
}

impl InferCtx {
    /// The exceptions of a lambda body are settled: those that the function
    /// type does not declare are reported, and none is left.
    #[verifier::opaque]
    pub open spec fn settled<D: TyDatabase>(
        self,
        db: &D,
        throws: List<Ty>,
        before: Set<u32>,
    ) -> InferCtx {
        let s = self.told_all(undeclared(db, self.thrown, before, throws));
        InferCtx { thrown: thrown_earlier(self.thrown, before), ..s }
    }

    /// Settles the exceptions of a lambda body against the function type.
    pub fn settle_lambda_thrown<D: TyDatabase>(
        &mut self,
        db: &D,
        throws: &List<Ty>,
        before: &FxHashSet<u32>,
    )
        ensures
            *final(self) == old(self).settled(db, *throws, before@),
            final(self).frame() == old(self).frame(),
            final(self).exited == old(self).exited,
    {
        proof {
            reveal(InferCtx::frame);
            reveal(InferCtx::settled);
        }
        let reports = find_undeclared(db, &self.thrown, before, throws);
        let thrown = take(&mut self.thrown);
        let kept = keep_thrown_earlier(thrown, before);
        let ghost emptied = *self;
        self.report_all(reports);
        proof {
            lemma_told_all_keeps(*old(self), emptied, reports);
        }
        self.thrown = kept;
    }
}

/// Reports change nothing but the reports.
proof fn lemma_told_all_keeps(a: InferCtx, b: InferCtx, l: List<TypeError>)
    requires
        b == (InferCtx { thrown: List::Nil, ..a }),
    ensures
        b.told_all(l) == (InferCtx { thrown: List::Nil, ..a.told_all(l) }),
    decreases l,
{
    reveal(InferCtx::told);
    if let List::Cons(h, t) = l {
        lemma_told_all_keeps(a.told(*h), b.told(*h), *t);
    }
}

/// After a lambda is settled, every exception left is of an expression that
/// threw before it.
pub proof fn law_lambda_leaves_no_liability(l: List<(Ty, u32)>, before: Set<u32>, x: (Ty, u32))
    ensures
        thrown_earlier(l, before).has(x) == (l.has(x) && before.contains(x.1)),
    decreases l,
{
    if let List::Cons(_, t) = l {
        law_lambda_leaves_no_liability(*t, before, x);
    }
}

/// Only a type with variables of a capture conversion changes.
pub proof fn law_decapture_of_plain(t: Ty)
    requires
        !has_capture(t),
    ensures
        decaptured(t) == t,
    decreases t,
{
    match t {
        Ty::Reference { name: _, args, local: _ } => lemma_decapture_all(*args),
        Ty::Array(e) => law_decapture_of_plain(*e),
        _ => {},
    }
}

proof fn lemma_decapture_all(l: List<Ty>)
    requires
        !some_capture(l),
    ensures
        all_decaptured(l) == l,
    decreases l,
{
    if let List::Cons(h, t) = l {
        match *h {
            Ty::Wildcard(WildcardBound::Upper(b)) => {
                assert(has_capture(*h) == has_capture(*b));
                law_decapture_of_plain(*b);
            },
            Ty::Wildcard(WildcardBound::Lower(b)) => {
                assert(has_capture(*h) == has_capture(*b));
                law_decapture_of_plain(*b);
            },
            _ => law_decapture_of_plain(*h),
        }
        lemma_decapture_all(*t);
    }
}

/// Whether no variable of a capture conversion that is replaced has a wildcard
/// for its bound.
pub open spec fn captures_types(t: Ty) -> bool
    decreases t,
{
    match t {
        Ty::TypeVar { scope, bounds, lower } => !(scope is Capture) || match lower {
            Some(l) => !(*l is Wildcard) && captures_types(*l),
            None => match *bounds {
                List::Nil => true,
                List::Cons(b, _) => !(*b is Wildcard) && captures_types(*b),
            },
        },
        Ty::Reference { name: _, args, local: _ } => all_capture_types(*args),
        Ty::Array(e) => captures_types(*e),
        _ => true,
    }
}

/// Whether that holds of the type arguments, also in the bound of a wildcard.
pub open spec fn all_capture_types(l: List<Ty>) -> bool
    decreases l,
{
    match l {
        List::Nil => true,
        List::Cons(h, t) => (match *h {
            Ty::Wildcard(WildcardBound::Upper(b)) => captures_types(*b),
            Ty::Wildcard(WildcardBound::Lower(b)) => captures_types(*b),
            _ => captures_types(*h),
        }) && all_capture_types(*t),
    }
}

/// A type without variables of a capture conversion stays so: replacing them
/// twice is the same as once, where each stands for a type. One with a lower
/// bound is replaced by that, whatever its upper bounds.
pub proof fn law_decapture_is_idempotent(t: Ty)
    requires
        captures_types(t),
    ensures
        decaptured(decaptured(t)) == decaptured(t),
        decaptured(t) is Wildcard ==> t is Wildcard,
        t matches Ty::TypeVar { scope, bounds: _, lower: Some(l) } ==> decaptured(t) == (
        if scope is Capture {
            decaptured(*l)
        } else {
            t
        }),
    decreases t,
{
    match t {
        Ty::TypeVar { scope, bounds, lower } => if scope is Capture {
            match lower {
                Some(l) => law_decapture_is_idempotent(*l),
                None => if let List::Cons(b, _) = *bounds {
                    law_decapture_is_idempotent(*b);
                },
            }
        },
        Ty::Reference { name: _, args, local: _ } => lemma_decapture_all_twice(*args),
        Ty::Array(e) => law_decapture_is_idempotent(*e),
        _ => {},
    }
}

proof fn lemma_decapture_all_twice(l: List<Ty>)
    requires
        all_capture_types(l),
    ensures
        all_decaptured(all_decaptured(l)) == all_decaptured(l),
    decreases l,
{
    if let List::Cons(h, t) = l {
        match *h {
            Ty::Wildcard(WildcardBound::Upper(b)) => law_decapture_is_idempotent(*b),
            Ty::Wildcard(WildcardBound::Lower(b)) => law_decapture_is_idempotent(*b),
            _ => law_decapture_is_idempotent(*h),
        }
        lemma_decapture_all_twice(*t);
    }
}

} // verus!
