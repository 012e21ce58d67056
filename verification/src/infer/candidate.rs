//! One method as a candidate for an invocation.
use crate::body::{Expr, ExprKind, LambdaParam};
use crate::db::TyDatabase;
use crate::infer::ctx::Site;
use crate::infer::functional::{contains_capture, decapture, decaptured, has_capture};
use crate::inference::{registered_method, Constraint, Inference, InvocationPhase, VarSupply};
use crate::list::{Data, List};
use crate::member::{MethodData, MethodTypeParam};
use crate::select::Candidate;
use crate::source_members::{resolve_all, resolved_all};
use crate::ty::{
    all_subst, all_subst_infer, boxed, substitute_all, substitute_infer_all, Subst, Ty, VarMap,
};
use vstd::prelude::*;

verus! {

/// What an invocation resolves to.
#[derive(Debug, PartialEq, Eq)]
pub enum CallResolution {
    /// The declared method and the one that is invoked, and whether by variable
    /// arity.
    Selected { candidate: MethodData, invocation: MethodData, varargs: bool },
    /// The applicable methods none of which is the most specific one.
    Ambiguous(List<MethodData>),
    /// No method is applicable.
    Missing,
}

/// The type parameters with the types written for them.
pub open spec fn written_for(params: List<MethodTypeParam>, l: List<Ty>) -> Subst
    decreases params,
{
    match (params, l) {
        (List::Cons(p, pt), List::Cons(t, tt)) => List::Cons(
            Box::new((p.scope, *t)),
            Box::new(written_for(*pt, *tt)),
        ),
        _ => List::Nil,
    }
}

fn find_written_for(params: &List<MethodTypeParam>, l: &List<Ty>) -> (r: Subst)
    ensures
        r == written_for(*params, *l),
    decreases params,
{
    match (params, l) {
        (List::Cons(p, pt), List::Cons(t, tt)) => List::cons(
            (p.scope, t.copy()),
            find_written_for(pt, tt),
        ),
        _ => List::Nil,
    }
}

/// The signature of a candidate, with the table and the supply of variables.
pub struct Signature {
    pub table: Inference,
    pub next: u64,
    pub formals: List<Ty>,
    pub ret: Ty,
    pub throws: List<Ty>,
}

/// The signature of a method: with the written type arguments, or with a fresh
/// variable for each type parameter.
#[verifier::opaque]
pub open spec fn signature(
    table: Inference,
    next: u64,
    m: MethodData,
    explicit: Option<List<Ty>>,
) -> Signature {
    match explicit {
        Some(l) => {
            let subst = written_for(m.type_params, l);
            Signature {
                table,
                next,
                formals: all_subst(m.params, subst),
                ret: m.ret.subst(subst),
                throws: all_subst(m.throws, subst),
            }
        },
        None => {
            let r = registered_method(table, next, m);
            Signature {
                table: r.table,
                next: r.next,
                formals: r.formals,
                ret: r.ret,
                throws: r.throws,
            }
        },
    }
}

/// The signature of a method: with the written type arguments, or with a fresh
/// variable for each type parameter.
pub fn candidate_signature(
    table: &mut Inference,
    next: u64,
    m: &MethodData,
    explicit: &Option<List<Ty>>,
) -> (r: (u64, (List<Ty>, Ty, List<Ty>)))
    ensures
        ({
            let s = signature(*old(table), next, *m, *explicit);
            &&& *final(table) == s.table
            &&& r.0 == s.next
            &&& r.1.0 == s.formals
            &&& r.1.1 == s.ret
            &&& r.1.2 == s.throws
        }),
{
    proof {
        reveal(signature);
    }
    match explicit {
        Some(l) => {
            let subst = find_written_for(&m.type_params, l);
            (
                next,
                (
                    substitute_all(&m.params, &subst),
                    m.ret.substitute(&subst),
                    substitute_all(&m.throws, &subst),
                ),
            )
        },
        None => {
            let mut supply = VarSupply { next };
            let s = table.register_method(&mut supply, m);
            (supply.next, s)
        },
    }
}

/// The method with the types that the variables stand for.
pub open spec fn built(
    m: MethodData,
    formals: List<Ty>,
    ret: Ty,
    throws: List<Ty>,
    map: VarMap,
) -> MethodData {
    MethodData {
        params: all_subst_infer(formals, map),
        ret: ret.subst_infer(map),
        throws: all_subst_infer(throws, map),
        ..m
    }
}

fn build(m: &MethodData, formals: &List<Ty>, ret: &Ty, throws: &List<Ty>, map: &VarMap) -> (r:
    MethodData)
    ensures
        r == built(*m, *formals, *ret, *throws, *map),
{
    let mut out = m.copy();
    out.params = substitute_infer_all(formals, map);
    out.ret = ret.substitute_infer(map);
    out.throws = substitute_infer_all(throws, map);
    out
}

/// Whether two types are of one class.
pub open spec fn same_class(a: Ty, b: Ty) -> bool {
    match (a, b) {
        (
            Ty::Reference { name: m, args: _, local: _ },
            Ty::Reference { name: n, args: _, local: _ },
        ) => m == n,
        _ => false,
    }
}

fn is_same_class(a: &Ty, b: &Ty) -> (r: bool)
    ensures
        r == same_class(*a, *b),
{
    match (a, b) {
        (
            Ty::Reference { name: m, args: _, local: _ },
            Ty::Reference { name: n, args: _, local: _ },
        ) => *m == *n,
        _ => false,
    }
}

/// Whether an invocation can have a result of the type where the target is
/// expected. A target that is not inferred yet is not checked, and two
/// parameterizations of one class pass.
pub open spec fn meets_target<D: TyDatabase>(
    db: &D,
    phase: InvocationPhase,
    ret: Ty,
    target: Ty,
) -> bool {
    target.has_infer_var() || has_capture(target) || ret == target || (match phase {
        InvocationPhase::Strict => db.strict(ret, target),
        InvocationPhase::Loose => db.assignable(ret, target),
    }) || same_class(ret, target)
}

fn does_meet_target<D: TyDatabase>(db: &D, phase: InvocationPhase, ret: &Ty, target: &Ty) -> (r:
    bool)
    ensures
        r == meets_target(db, phase, *ret, *target),
{
    target.contains_infer_var() || contains_capture(target) || ret.same(target) || (match phase {
        InvocationPhase::Strict => db.strict_conversion(ret, target),
        InvocationPhase::Loose => db.is_assignable(ret, target),
    }) || is_same_class(ret, target)
}

/// Whether the target constrains a candidate: it does a generic method, and
/// any method that is tried as an argument of another invocation.
pub open spec fn constrained(m: MethodData, target: Option<Ty>, resolve: bool) -> bool {
    target is Some && (!(m.type_params is Nil) || !resolve)
}

/// What becomes of a candidate whose arguments are all constraints of the
/// table. With `resolve` its variables are resolved; otherwise they stay, and
/// the constraints only have to be consistent.
#[verifier::opaque]
pub open spec fn concluded<D: TyDatabase>(
    db: &D,
    table: Inference,
    m: MethodData,
    formals: List<Ty>,
    ret: Ty,
    throws: List<Ty>,
    phase: InvocationPhase,
    target: Option<Ty>,
    resolve: bool,
) -> (Inference, Option<MethodData>) {
    let binding = constrained(m, target, resolve);
    let table = match target {
        Some(t) => if binding {
            table.plus_constraint(Constraint::Sub(ret, t))
        } else {
            table
        },
        None => table,
    };
    if resolve {
        let (out, solution) = table.solved(db, phase);
        match solution {
            None => (out, None),
            Some(map) => {
                let invocation = built(m, formals, ret, throws, map);
                let met = match target {
                    Some(t) => !binding || meets_target(db, phase, invocation.ret, t),
                    None => true,
                };
                (out, if met { Some(invocation) } else { None })
            },
        }
    } else {
        let (out, consistent) = table.consistent(db, phase);
        (out, if consistent { Some(built(m, formals, ret, throws, List::Nil)) } else { None })
    }
}

/// What becomes of a candidate whose arguments are all constraints of the
/// table.
pub fn conclude<D: TyDatabase>(
    db: &D,
    table: &mut Inference,
    m: &MethodData,
    formals: &List<Ty>,
    ret: &Ty,
    throws: &List<Ty>,
    phase: InvocationPhase,
    target: &Option<Ty>,
    resolve: bool,
) -> (r: Option<MethodData>)
    ensures
        (*final(table), r) == concluded(
            db,
            *old(table),
            *m,
            *formals,
            *ret,
            *throws,
            phase,
            *target,
            resolve,
        ),
{
    proof {
        reveal(concluded);
    }
    let binding = target.is_some() && (!m.type_params.is_empty() || !resolve);
    if let Some(t) = target {
        if binding {
            table.add_constraint(Constraint::Sub(ret.copy(), t.copy()));
        }
    }
    if resolve {
        match table.solve_after(db, phase) {
            None => None,
            Some(map) => {
                let invocation = build(m, formals, ret, throws, &map);
                let met = match target {
                    Some(t) => !binding || does_meet_target(db, phase, &invocation.ret, t),
                    None => true,
                };
                if met {
                    Some(invocation)
                } else {
                    None
                }
            },
        }
    } else if table.check_consistent(db, phase) {
        let none: VarMap = List::Nil;
        Some(build(m, formals, ret, throws, &none))
    } else {
        None
    }
}

/// The constraint of an argument with a type of its own. In a loose invocation
/// a primitive value is boxed.
pub open spec fn with_argument(
    table: Inference,
    ty: Ty,
    formal: Ty,
    phase: InvocationPhase,
) -> Inference {
    table.plus_constraint(
        Constraint::Sub(
            match phase {
                InvocationPhase::Loose => boxed(ty),
                InvocationPhase::Strict => ty,
            },
            formal,
        ),
    )
}

pub fn add_argument(table: &mut Inference, ty: &Ty, formal: &Ty, phase: InvocationPhase)
    ensures
        *final(table) == with_argument(*old(table), *ty, *formal, phase),
{
    let given = match phase {
        InvocationPhase::Loose => ty.box_primitive(),
        InvocationPhase::Strict => ty.copy(),
    };
    table.add_constraint(Constraint::Sub(given, formal.copy()));
}

/// The constraint of the value that a method reference gives, where both it
/// and the function type have one.
pub open spec fn with_reference(table: Inference, ret: Ty, sam: MethodData) -> Inference {
    let void = Ty::Primitive(crate::ty::PrimitiveType::Void);
    if ret is Error || ret == void || sam.ret == void {
        table
    } else {
        table.plus_constraint(Constraint::Sub(boxed(ret), decaptured(sam.ret)))
    }
}

pub fn add_reference(table: &mut Inference, ret: &Ty, sam: &MethodData)
    ensures
        *final(table) == with_reference(*old(table), *ret, *sam),
{
    if !ret.is_error() && !ret.is_void_like() && !sam.ret.is_void_like() {
        table.add_constraint(Constraint::Sub(ret.box_primitive(), decapture(&sam.ret)));
    }
}

/// The constraints of the written types of the parameters of a lambda.
pub open spec fn with_params<D: TyDatabase>(
    db: &D,
    site: Site,
    table: Inference,
    params: List<LambdaParam>,
    formals: List<Ty>,
) -> Inference
    decreases params,
{
    match (params, formals) {
        (List::Cons(p, pt), List::Cons(f, ft)) => {
            let next = match p.ty {
                None => table,
                Some(t) => {
                    let declared = db.resolved_type(site.file, site.item, t.shape);
                    if declared is Error {
                        table
                    } else {
                        table.plus_constraint(Constraint::Sub(declared, decaptured(*f)))
                    }
                },
            };
            with_params(db, site, next, *pt, *ft)
        },
        _ => table,
    }
}

fn add_params<D: TyDatabase>(
    db: &D,
    site: &Site,
    table: &mut Inference,
    params: &List<LambdaParam>,
    formals: &List<Ty>,
)
    ensures
        *final(table) == with_params(db, *site, *old(table), *params, *formals),
    decreases params,
{
    match (params, formals) {
        (List::Cons(p, pt), List::Cons(f, ft)) => {
            if let Some(t) = &p.ty {
                let declared = db.resolve_type_ref(site.file, site.item, &t.shape);
                if !declared.is_error() {
                    table.add_constraint(Constraint::Sub(declared, decapture(f)));
                }
            }
            add_params(db, site, table, pt, ft);
        },
        _ => {},
    }
}

/// The constraints of a lambda whose body has a value: the value against the
/// result of the function type, and the written parameter types.
pub open spec fn with_lambda<D: TyDatabase>(
    db: &D,
    site: Site,
    table: Inference,
    body: Ty,
    params: List<LambdaParam>,
    sam: MethodData,
) -> Inference {
    let first = if body is Error {
        table
    } else {
        table.plus_constraint(Constraint::Sub(body, decaptured(sam.ret)))
    };
    if sam.params.count() == params.count() {
        with_params(db, site, first, params, sam.params)
    } else {
        first
    }
}

pub fn add_lambda<D: TyDatabase>(
    db: &D,
    site: &Site,
    table: &mut Inference,
    body: Ty,
    params: &List<LambdaParam>,
    sam: &MethodData,
)
    ensures
        *final(table) == with_lambda(db, *site, *old(table), body, *params, *sam),
{
    if !body.is_error() {
        table.add_constraint(Constraint::Sub(body, decapture(&sam.ret)));
    }
    if sam.params.same_len(params) {
        add_params(db, site, table, params, &sam.params);
    }
}

/// Whether an argument with one leaf is an invocation or a creation.
pub open spec fn creates(e: Expr) -> bool
    decreases e,
{
    match e.kind {
        ExprKind::MethodCall { receiver: _, name: _, type_args: _, args: _ } => true,
        ExprKind::New { ty: _, args: _, diamond, anonymous: _, receiver: _ } => diamond,
        ExprKind::Paren(inner) => creates(*inner),
        _ => false,
    }
}

pub fn does_create(e: &Expr) -> (r: bool)
    ensures
        r == creates(*e),
    decreases e,
{
    match &e.kind {
        ExprKind::MethodCall { receiver: _, name: _, type_args: _, args: _ } => true,
        ExprKind::New { ty: _, args: _, diamond, anonymous: _, receiver: _ } => *diamond,
        ExprKind::Paren(inner) => does_create(inner),
        _ => false,
    }
}

/// The declared methods of the candidates.
pub open spec fn declared_of(l: List<Candidate>) -> List<MethodData>
    decreases l,
{
    match l {
        List::Nil => List::Nil,
        List::Cons(h, t) => List::Cons(Box::new(h.0), Box::new(declared_of(*t))),
    }
}

fn find_declared(l: &List<Candidate>) -> (r: List<MethodData>)
    ensures
        r == declared_of(*l),
    decreases l,
{
    match l {
        List::Nil => List::Nil,
        List::Cons(h, t) => List::cons(h.0.copy(), find_declared(t)),
    }
}

/// The declared method of the first candidate that is invoked so.
pub open spec fn declared_for(l: List<Candidate>, invocation: MethodData) -> Option<MethodData>
    decreases l,
{
    match l {
        List::Nil => None,
        List::Cons(h, t) => if h.1 == invocation {
            Some(h.0)
        } else {
            declared_for(*t, invocation)
        },
    }
}

fn find_declared_for(l: &List<Candidate>, invocation: &MethodData) -> (r: Option<MethodData>)
    ensures
        r == declared_for(*l, *invocation),
    decreases l,
{
    match l {
        List::Nil => None,
        List::Cons(h, t) => if h.1.same(invocation) {
            Some(h.0.copy())
        } else {
            find_declared_for(t, invocation)
        },
    }
}

/// The choice among the applicable candidates.
pub open spec fn chosen<D: TyDatabase>(
    db: &D,
    next: u64,
    applicable: List<Candidate>,
    varargs: bool,
) -> CallResolution {
    if applicable is Nil {
        CallResolution::Missing
    } else {
        match crate::select::most_specific(db, next, applicable, varargs) {
            None => CallResolution::Ambiguous(declared_of(applicable)),
            Some(invocation) => match declared_for(applicable, invocation) {
                Some(candidate) => CallResolution::Selected { candidate, invocation, varargs },
                None => CallResolution::Ambiguous(declared_of(applicable)),
            },
        }
    }
}

/// The choice among the applicable candidates: the most specific one.
pub fn choose_among<D: TyDatabase>(db: &D, next: u64, applicable: &List<Candidate>, varargs: bool) -> (r:
    CallResolution)
    ensures
        r == chosen(db, next, *applicable, varargs),
{
    if applicable.is_empty() {
        return CallResolution::Missing;
    }
    match crate::select::choose_most_specific(db, next, applicable, varargs) {
        None => CallResolution::Ambiguous(find_declared(applicable)),
        Some(invocation) => match find_declared_for(applicable, &invocation) {
            Some(candidate) => CallResolution::Selected { candidate, invocation, varargs },
            None => CallResolution::Ambiguous(find_declared(applicable)),
        },
    }
}

/// The first resolution unless it failed to select and the second does better.
pub open spec fn better(first: CallResolution, second: CallResolution) -> CallResolution {
    match first {
        CallResolution::Missing => second,
        CallResolution::Selected { candidate: _, invocation: _, varargs: _ } => first,
        CallResolution::Ambiguous(_) => if second is Selected {
            second
        } else {
            first
        },
    }
}

pub fn better_of(first: CallResolution, second: CallResolution) -> (r: CallResolution)
    ensures
        r == better(first, second),
{
    match &first {
        CallResolution::Missing => second,
        CallResolution::Selected { candidate: _, invocation: _, varargs: _ } => first,
        CallResolution::Ambiguous(_) => match &second {
            CallResolution::Selected { candidate: _, invocation: _, varargs: _ } => second,
            _ => first,
        },
    }
}

pub fn is_selected(r: &CallResolution) -> (b: bool)
    ensures
        b == (*r is Selected),
{
    match r {
        CallResolution::Selected { candidate: _, invocation: _, varargs: _ } => true,
        _ => false,
    }
}

/// The types that are written as type arguments of an invocation, if any are.
pub open spec fn explicit_types<D: TyDatabase>(
    db: &D,
    site: Site,
    l: List<crate::items::TypeRef>,
) -> Option<List<Ty>> {
    if l is Nil {
        None
    } else {
        Some(resolved_all(db, site.file, site.item, l))
    }
}

pub fn explicit_type_args<D: TyDatabase>(
    db: &D,
    site: &Site,
    l: &List<crate::items::TypeRef>,
) -> (r: Option<List<Ty>>)
    ensures
        r == explicit_types(db, *site, *l),
{
    if l.is_empty() {
        None
    } else {
        Some(resolve_all(db, site.file, site.item, l))
    }
}

proof fn lemma_declared_for(l: List<Candidate>, invocation: MethodData, c: Candidate)
    ensures
        match declared_for(l, invocation) {
            Some(m) => l.has((m, invocation)),
            None => l.has(c) ==> c.1 != invocation,
        },
    decreases l,
{
    if let List::Cons(h, t) = l {
        lemma_declared_for(*t, invocation, c);
        assert(*h == (h.0, h.1));
    }
}

/// A call selects one of the applicable candidates with its own invocation,
/// and does so exactly where one of them is the most specific. Nothing is
/// missing but where none is applicable.
pub proof fn law_selection_is_applicable<D: TyDatabase>(
    db: &D,
    next: u64,
    applicable: List<Candidate>,
    varargs: bool,
)
    ensures
        chosen(db, next, applicable, varargs) is Missing <==> applicable is Nil,
        chosen(db, next, applicable, varargs) is Selected <==> (!(applicable is Nil)
            && crate::select::most_specific(db, next, applicable, varargs) is Some),
        match chosen(db, next, applicable, varargs) {
            CallResolution::Selected { candidate, invocation, varargs: v } => applicable.has(
                (candidate, invocation),
            ) && v == varargs,
            CallResolution::Ambiguous(l) => l == declared_of(applicable),
            CallResolution::Missing => true,
        },
{
    if !(applicable is Nil) {
        if let Some(invocation) = crate::select::most_specific(db, next, applicable, varargs) {
            let c = crate::select::law_most_specific_beats_all(db, next, applicable, varargs);
            lemma_declared_for(applicable, invocation, c);
        }
    }
}

} // verus!
