//! Method selection: which methods an invocation can mean, with which types,
//! and which of them is the most specific.
use crate::db::TyDatabase;
use crate::inference::{
    registered_method, Constraint, Inference, InvocationPhase, VarSupply,
};
use crate::list::{lemma_with_has, Data, List};
use crate::member::{InvocationContext, MethodData};
use crate::names::Name;
use crate::ty::{
    all_subst_infer, boxed, class_of, substitute_infer_all, PrimitiveType, Ty,
};
use vstd::prelude::*;

verus! {

/// An argument of an invocation: one with a type of its own, or a lambda or
/// method reference, whose type the invoked method decides. Of a lambda the
/// number of parameters is known.
#[derive(Debug, PartialEq, Eq)]
pub enum PolyArg {
    Concrete(Ty),
    Poly(u32, Option<u32>),
}

impl Data for PolyArg {
    fn copy(&self) -> (r: Self) {
        match self {
            PolyArg::Concrete(t) => PolyArg::Concrete(t.copy()),
            PolyArg::Poly(e, a) => PolyArg::Poly(*e, *a),
        }
    }

    fn same(&self, other: &Self) -> (r: bool) {
        match (self, other) {
            (PolyArg::Concrete(a), PolyArg::Concrete(b)) => a.same(b),
            (PolyArg::Poly(e, a), PolyArg::Poly(f, b)) => *e == *f && a.same(b),
            _ => false,
        }
    }
}

/// An argument with a type of its own.
impl From<Ty> for PolyArg {
    fn from(ty: Ty) -> (r: PolyArg) {
        PolyArg::Concrete(ty)
    }
}

impl vstd::std_specs::convert::FromSpecImpl<Ty> for PolyArg {
    open spec fn obeys_from_spec() -> bool {
        true
    }

    open spec fn from_spec(ty: Ty) -> PolyArg {
        PolyArg::Concrete(ty)
    }
}

/// Whether a list has exactly `n` elements.
pub fn has_len<T>(l: &List<T>, n: u32) -> (r: bool)
    ensures
        r == (l.count() == n),
    decreases l,
{
    match l {
        List::Nil => n == 0,
        List::Cons(_, t) => n > 0 && has_len(t, n - 1),
    }
}

/// The last element.
pub open spec fn last_ty(l: List<Ty>) -> Option<Ty>
    decreases l,
{
    match l {
        List::Nil => None,
        List::Cons(h, t) => if *t is Nil {
            Some(*h)
        } else {
            last_ty(*t)
        },
    }
}

pub fn last_type(l: &List<Ty>) -> (r: Option<Ty>)
    ensures
        r == last_ty(*l),
    decreases l,
{
    match l {
        List::Nil => None,
        List::Cons(h, t) => if t.is_empty() {
            Some(h.copy())
        } else {
            last_type(t)
        },
    }
}

/// The component type of the last formal type.
pub open spec fn last_component(l: List<Ty>) -> Option<Ty> {
    match last_ty(l) {
        Some(t) => t.component(),
        None => None,
    }
}

pub fn last_element(l: &List<Ty>) -> (r: Option<Ty>)
    ensures
        r == last_component(*l),
{
    match last_type(l) {
        Some(t) => t.element(),
        None => None,
    }
}

/// Whether a lambda with `arity` parameters fits the type: it is no functional
/// interface that is known, or its function type has as many parameters.
pub open spec fn lambda_fits<D: TyDatabase>(db: &D, target: Option<Ty>, arity: u32) -> bool {
    match target {
        None => true,
        Some(t) => match db.sam(t) {
            Some(sam) => sam.params.count() == arity,
            None => true,
        },
    }
}

fn does_lambda_fit<D: TyDatabase>(db: &D, target: Option<Ty>, arity: u32) -> (r: bool)
    ensures
        r == lambda_fits(db, target, arity),
{
    match target {
        None => true,
        Some(t) => match db.single_abstract_method(&t) {
            Some(sam) => has_len(&sam.params, arity),
            None => true,
        },
    }
}

/// Whether every lambda among the arguments fits its formal type. In a
/// variable arity invocation the arguments from the last formal type on are
/// matched with its component type.
pub open spec fn arities_fit<D: TyDatabase>(
    db: &D,
    args: List<PolyArg>,
    formals: List<Ty>,
    varargs: bool,
    element: Option<Ty>,
) -> bool
    decreases args,
{
    match args {
        List::Nil => true,
        List::Cons(a, at) => {
            let (head, rest) = match formals {
                List::Nil => (None::<Ty>, List::Nil),
                List::Cons(f, ft) => (Some(*f), *ft),
            };
            let target = if varargs && rest is Nil {
                element
            } else {
                head
            };
            (match *a {
                PolyArg::Poly(_, Some(arity)) => lambda_fits(db, target, arity),
                _ => true,
            }) && arities_fit(db, *at, rest, varargs, element)
        },
    }
}

fn do_arities_fit<D: TyDatabase>(
    db: &D,
    args: &List<PolyArg>,
    formals: &List<Ty>,
    varargs: bool,
    element: &Option<Ty>,
) -> (r: bool)
    ensures
        r == arities_fit(db, *args, *formals, varargs, *element),
    decreases args,
{
    match args {
        List::Nil => true,
        List::Cons(a, at) => {
            let nil = List::Nil;
            let (head, rest): (Option<Ty>, &List<Ty>) = match formals {
                List::Nil => (None, &nil),
                List::Cons(f, ft) => (Some(f.copy()), &**ft),
            };
            let target = if varargs && rest.is_empty() {
                element.copy()
            } else {
                head
            };
            let fits = match &**a {
                PolyArg::Poly(_, Some(arity)) => does_lambda_fit(db, target, *arity),
                _ => true,
            };
            fits && do_arities_fit(db, at, rest, varargs, element)
        },
    }
}

/// The types the arguments contribute: none for a lambda or method reference,
/// and boxed types in a loose invocation.
pub open spec fn arg_types(args: List<PolyArg>, phase: InvocationPhase) -> List<Option<Ty>>
    decreases args,
{
    match args {
        List::Nil => List::Nil,
        List::Cons(a, t) => List::Cons(
            Box::new(
                match *a {
                    PolyArg::Concrete(ty) => Some(
                        match phase {
                            InvocationPhase::Strict => ty,
                            InvocationPhase::Loose => boxed(ty),
                        },
                    ),
                    PolyArg::Poly(_, _) => None,
                },
            ),
            Box::new(arg_types(*t, phase)),
        ),
    }
}

fn types_of_args(args: &List<PolyArg>, phase: InvocationPhase) -> (r: List<Option<Ty>>)
    ensures
        r == arg_types(*args, phase),
    decreases args,
{
    match args {
        List::Nil => List::Nil,
        List::Cons(a, t) => {
            let head = match &**a {
                PolyArg::Concrete(ty) => Some(
                    match phase {
                        InvocationPhase::Strict => ty.copy(),
                        InvocationPhase::Loose => ty.box_primitive(),
                    },
                ),
                PolyArg::Poly(_, _) => None,
            };
            List::cons(head, types_of_args(t, phase))
        },
    }
}

/// The constraint of one argument in front of the others.
pub open spec fn arg_constraint(arg: Option<Ty>, formal: Ty, rest: List<Constraint>) -> List<
    Constraint,
> {
    match arg {
        Some(a) => List::Cons(Box::new(Constraint::Sub(a, formal)), Box::new(rest)),
        None => rest,
    }
}

fn constrain_arg(arg: &Option<Ty>, formal: &Ty, rest: List<Constraint>) -> (r: List<Constraint>)
    ensures
        r == arg_constraint(*arg, *formal, rest),
{
    match arg {
        Some(a) => List::cons(Constraint::Sub(a.copy(), formal.copy()), rest),
        None => rest,
    }
}

/// The constraints of a fixed arity invocation: one for each argument; none
/// where the numbers differ.
pub open spec fn fixed_constraints(formals: List<Ty>, args: List<Option<Ty>>) -> Option<
    List<Constraint>,
>
    decreases formals,
{
    match (formals, args) {
        (List::Nil, List::Nil) => Some(List::Nil),
        (List::Cons(f, ft), List::Cons(a, at)) => match fixed_constraints(*ft, *at) {
            Some(rest) => Some(arg_constraint(*a, *f, rest)),
            None => None,
        },
        _ => None,
    }
}

fn constrain_fixed(formals: &List<Ty>, args: &List<Option<Ty>>) -> (r: Option<List<Constraint>>)
    ensures
        r == fixed_constraints(*formals, *args),
    decreases formals,
{
    match (formals, args) {
        (List::Nil, List::Nil) => Some(List::Nil),
        (List::Cons(f, ft), List::Cons(a, at)) => match constrain_fixed(ft, at) {
            Some(rest) => Some(constrain_arg(a, f, rest)),
            None => None,
        },
        _ => None,
    }
}

/// A constraint for each argument, all with the same formal type.
pub open spec fn element_constraints(args: List<Option<Ty>>, element: Ty) -> List<Constraint>
    decreases args,
{
    match args {
        List::Nil => List::Nil,
        List::Cons(a, t) => arg_constraint(*a, element, element_constraints(*t, element)),
    }
}

fn constrain_elements(args: &List<Option<Ty>>, element: &Ty) -> (r: List<Constraint>)
    ensures
        r == element_constraints(*args, *element),
    decreases args,
{
    match args {
        List::Nil => List::Nil,
        List::Cons(a, t) => constrain_arg(a, element, constrain_elements(t, element)),
    }
}

/// The constraints of the arguments for the variable arity parameter: a single
/// array is passed as it is, other arguments as elements of the array.
pub open spec fn tail_constraints(last: Ty, args: List<Option<Ty>>) -> Option<List<Constraint>> {
    match args {
        List::Nil => Some(List::Nil),
        List::Cons(a, t) => if *t is Nil && (*a matches Some(ty) && ty is Array) {
            Some(arg_constraint(*a, last, List::Nil))
        } else {
            match last.component() {
                Some(element) => Some(element_constraints(args, element)),
                None => None,
            }
        },
    }
}

fn constrain_tail(last: &Ty, args: &List<Option<Ty>>) -> (r: Option<List<Constraint>>)
    ensures
        r == tail_constraints(*last, *args),
{
    match args {
        List::Nil => Some(List::Nil),
        List::Cons(a, t) => {
            let single_array = t.is_empty() && match &**a {
                Some(ty) => ty.is_array(),
                None => false,
            };
            if single_array {
                Some(constrain_arg(a, last, List::Nil))
            } else {
                match last.element() {
                    Some(element) => Some(constrain_elements(args, &element)),
                    None => None,
                }
            }
        },
    }
}

/// The constraints of a variable arity invocation: none where there are fewer
/// arguments than fixed parameters.
pub open spec fn varargs_constraints(formals: List<Ty>, args: List<Option<Ty>>) -> Option<
    List<Constraint>,
>
    decreases formals,
{
    match formals {
        List::Nil => None,
        List::Cons(f, ft) => if *ft is Nil {
            tail_constraints(*f, args)
        } else {
            match args {
                List::Nil => None,
                List::Cons(a, at) => match varargs_constraints(*ft, *at) {
                    Some(rest) => Some(arg_constraint(*a, *f, rest)),
                    None => None,
                },
            }
        },
    }
}

fn constrain_varargs(formals: &List<Ty>, args: &List<Option<Ty>>) -> (r: Option<List<Constraint>>)
    ensures
        r == varargs_constraints(*formals, *args),
    decreases formals,
{
    match formals {
        List::Nil => None,
        List::Cons(f, ft) => if ft.is_empty() {
            constrain_tail(f, args)
        } else {
            match args {
                List::Nil => None,
                List::Cons(a, at) => match constrain_varargs(ft, at) {
                    Some(rest) => Some(constrain_arg(a, f, rest)),
                    None => None,
                },
            }
        },
    }
}

/// The list with neighbours that are equal taken once.
pub open spec fn deduped(l: List<Ty>) -> List<Ty>
    decreases l,
{
    match l {
        List::Nil => List::Nil,
        List::Cons(h, t) => match deduped(*t) {
            List::Nil => List::Cons(h, Box::new(List::Nil)),
            List::Cons(h2, t2) => if *h == *h2 {
                List::Cons(h2, t2)
            } else {
                List::Cons(h, Box::new(List::Cons(h2, t2)))
            },
        },
    }
}

pub fn dedup(l: &List<Ty>) -> (r: List<Ty>)
    ensures
        r == deduped(*l),
    decreases l,
{
    match l {
        List::Nil => List::Nil,
        List::Cons(h, t) => match dedup(t) {
            List::Nil => List::cons(h.copy(), List::Nil),
            List::Cons(h2, t2) => if h.same(&h2) {
                List::Cons(h2, t2)
            } else {
                List::cons(h.copy(), List::Cons(h2, t2))
            },
        },
    }
}

/// The constraints an invocation puts on the variables of a registered method.
pub open spec fn invocation_constraints(
    m: MethodData,
    formals: List<Ty>,
    ret: Ty,
    args: List<Option<Ty>>,
    varargs: bool,
    target: Option<Ty>,
) -> Option<List<Constraint>> {
    let from_args = if varargs {
        if m.varargs {
            varargs_constraints(formals, args)
        } else {
            None
        }
    } else {
        fixed_constraints(formals, args)
    };
    match from_args {
        None => None,
        Some(c) => match target {
            Some(t) => if m.type_params is Nil {
                Some(c)
            } else {
                Some(c.with(Constraint::Sub(ret, t)))
            },
            None => Some(c),
        },
    }
}

/// The table without variables or constraints.
pub open spec fn empty_table() -> Inference {
    Inference { bounds: List::Nil, throws: List::Nil, applied: List::Nil, worklist: List::Nil }
}

/// The method as it is invoked with these arguments, its type parameters
/// replaced by what they are inferred to; none where it is not applicable.
/// `next` is a variable that occurs in none of the types.
pub open spec fn invoked<D: TyDatabase>(
    db: &D,
    next: u64,
    m: MethodData,
    args: List<PolyArg>,
    phase: InvocationPhase,
    varargs: bool,
    target: Option<Ty>,
) -> Option<MethodData> {
    let reg = registered_method(empty_table(), next, m);
    let element = if varargs {
        last_component(reg.formals)
    } else {
        None
    };
    if !arities_fit(db, args, reg.formals, varargs, element) {
        None
    } else {
        match invocation_constraints(
            m,
            reg.formals,
            reg.ret,
            arg_types(args, phase),
            varargs,
            target,
        ) {
            None => None,
            Some(c) => match reg.table.plus_work(c).solved(db, phase).1 {
                None => None,
                Some(map) => Some(
                    MethodData {
                        params: all_subst_infer(reg.formals, map),
                        ret: reg.ret.subst_infer(map),
                        throws: deduped(all_subst_infer(reg.throws, map)),
                        ..m
                    },
                ),
            },
        }
    }
}

/// Instantiates a method to its invocation type for a call with these
/// arguments; `None` when it is not applicable in the phase.
pub fn instantiate<D: TyDatabase>(
    db: &D,
    next: u64,
    method: &MethodData,
    args: &List<PolyArg>,
    phase: InvocationPhase,
    varargs: bool,
    target: &Option<Ty>,
) -> (r: Option<MethodData>)
    ensures
        r == invoked(db, next, *method, *args, phase, varargs, *target),
{
    let mut inference = Inference::new();
    let mut supply = VarSupply { next };
    let (formals, ret, throws) = inference.register_method(&mut supply, method);
    let element = if varargs {
        last_element(&formals)
    } else {
        None
    };
    if !do_arities_fit(db, args, &formals, varargs, &element) {
        return None;
    }
    let types = types_of_args(args, phase);
    let from_args = if varargs {
        if method.varargs {
            constrain_varargs(&formals, &types)
        } else {
            None
        }
    } else {
        constrain_fixed(&formals, &types)
    };
    let constraints = match from_args {
        None => {
            return None;
        },
        Some(c) => match target {
            Some(t) => if method.type_params.is_empty() {
                c
            } else {
                c.push(Constraint::Sub(ret.copy(), t.copy()))
            },
            None => c,
        },
    };
    match inference.solve(db, phase, constraints) {
        None => None,
        Some(map) => {
            let copy = method.copy();
            Some(
                MethodData {
                    name: copy.name,
                    owner: copy.owner,
                    owner_file: copy.owner_file,
                    decl_item: copy.decl_item,
                    params: substitute_infer_all(&formals, &map),
                    param_names: copy.param_names,
                    ret: ret.substitute_infer(&map),
                    throws: dedup(&substitute_infer_all(&throws, &map)),
                    varargs: copy.varargs,
                    is_static: copy.is_static,
                    is_abstract: copy.is_abstract,
                    is_final: copy.is_final,
                    access: copy.access,
                    declaring_package: copy.declaring_package,
                    declaring_top_level: copy.declaring_top_level,
                    declaring_interface: copy.declaring_interface,
                    type_params: copy.type_params,
                    raw_erased: copy.raw_erased,
                    descriptor: copy.descriptor,
                },
            )
        },
    }
}

/// The parameters of a variable arity method stretched to the length of
/// `counter`: the fixed ones, then the component type again and again.
pub open spec fn stretched(params: List<Ty>, element: Ty, counter: List<Ty>) -> List<Ty>
    decreases counter,
{
    match counter {
        List::Nil => List::Nil,
        List::Cons(_, ct) => match params {
            List::Nil => List::Cons(
                Box::new(element),
                Box::new(stretched(List::Nil, element, *ct)),
            ),
            List::Cons(p, pt) => if *pt is Nil {
                List::Cons(Box::new(element), Box::new(stretched(List::Nil, element, *ct)))
            } else {
                List::Cons(p, Box::new(stretched(*pt, element, *ct)))
            },
        },
    }
}

fn stretch(params: &List<Ty>, element: &Ty, counter: &List<Ty>) -> (r: List<Ty>)
    ensures
        r == stretched(*params, *element, *counter),
    decreases counter,
{
    match counter {
        List::Nil => List::Nil,
        List::Cons(_, ct) => match params {
            List::Nil => List::cons(element.copy(), stretch(&List::Nil, element, ct)),
            List::Cons(p, pt) => if pt.is_empty() {
                List::cons(element.copy(), stretch(&List::Nil, element, ct))
            } else {
                List::cons(p.copy(), stretch(pt, element, ct))
            },
        },
    }
}

/// The component type of the variable arity parameter, or `Object`.
pub open spec fn element_or_object(params: List<Ty>) -> Ty {
    match last_component(params) {
        Some(t) => t,
        None => class_of(Name::Object),
    }
}

fn element_of(params: &List<Ty>) -> (r: Ty)
    ensures
        r == element_or_object(*params),
{
    match last_element(params) {
        Some(t) => t,
        None => Ty::class(Name::Object),
    }
}

/// The longer of two lists.
pub open spec fn longer_of(a: List<Ty>, b: List<Ty>) -> List<Ty> {
    if b.count() > a.count() {
        b
    } else {
        a
    }
}

/// A constraint for each position of two lists.
pub open spec fn zipped(a: List<Ty>, b: List<Ty>) -> List<Constraint>
    decreases a,
{
    match (a, b) {
        (List::Cons(x, xt), List::Cons(y, yt)) => List::Cons(
            Box::new(Constraint::Sub(*x, *y)),
            Box::new(zipped(*xt, *yt)),
        ),
        _ => List::Nil,
    }
}

fn zip_sub(a: &List<Ty>, b: &List<Ty>) -> (r: List<Constraint>)
    ensures
        r == zipped(*a, *b),
    decreases a,
{
    match (a, b) {
        (List::Cons(x, xt), List::Cons(y, yt)) => List::cons(
            Constraint::Sub(x.copy(), y.copy()),
            zip_sub(xt, yt),
        ),
        _ => List::Nil,
    }
}

/// What the functional interfaces among the parameters of two methods say of
/// which is more specific: all of them have function types with the same
/// parameters, and their return types are `s` and `t` throughout.
pub open spec fn sam_returns<D: TyDatabase>(
    db: &D,
    p1: List<Ty>,
    p2: List<Ty>,
    acc: Option<(Ty, Ty)>,
) -> Option<(Ty, Ty)>
    decreases p1,
{
    match (p1, p2) {
        (List::Nil, List::Nil) => acc,
        (List::Cons(s, st), List::Cons(t, tt)) => match (db.sam(*s), db.sam(*t)) {
            (Some(ssam), Some(tsam)) => if ssam.params != tsam.params {
                None
            } else {
                match acc {
                    None => sam_returns(db, *st, *tt, Some((ssam.ret, tsam.ret))),
                    Some((a, b)) => if a != ssam.ret || b != tsam.ret {
                        None
                    } else {
                        sam_returns(db, *st, *tt, acc)
                    },
                }
            },
            _ => None,
        },
        _ => None,
    }
}

fn collect_sam_returns<D: TyDatabase>(
    db: &D,
    p1: &List<Ty>,
    p2: &List<Ty>,
    acc: Option<(Ty, Ty)>,
) -> (r: Option<(Ty, Ty)>)
    ensures
        r == sam_returns(db, *p1, *p2, acc),
    decreases p1,
{
    match (p1, p2) {
        (List::Nil, List::Nil) => acc,
        (List::Cons(s, st), List::Cons(t, tt)) => {
            match (db.single_abstract_method(s), db.single_abstract_method(t)) {
                (Some(ssam), Some(tsam)) => {
                    if !ssam.params.same(&tsam.params) {
                        return None;
                    }
                    match &acc {
                        None => collect_sam_returns(db, st, tt, Some((ssam.ret, tsam.ret))),
                        Some((a, b)) => {
                            if !a.same(&ssam.ret) || !b.same(&tsam.ret) {
                                return None;
                            }
                            collect_sam_returns(db, st, tt, acc)
                        },
                    }
                },
                _ => None,
            }
        },
        _ => None,
    }
}

pub open spec fn is_void(t: Ty) -> bool {
    t == Ty::Primitive(PrimitiveType::Void)
}

/// Whether `m1` is more specific than `m2` by the functional interfaces they
/// take: a value beats `void`, and a subtype beats its supertype. None where
/// that decides nothing.
pub open spec fn functional_specificity<D: TyDatabase>(
    db: &D,
    m1: MethodData,
    m2: MethodData,
) -> Option<bool> {
    match sam_returns(db, m1.params, m2.params, None) {
        None => None,
        Some((s, t)) => if is_void(t) && !is_void(s) {
            Some(true)
        } else if is_void(s) && !is_void(t) {
            Some(false)
        } else if !is_void(s) && !is_void(t) {
            if db.subtype(db.captured(s), t) {
                Some(true)
            } else if db.subtype(db.captured(t), s) {
                Some(false)
            } else {
                None
            }
        } else {
            None
        },
    }
}

/// Whether `m1` is more specific than `m2` by the functional interfaces they
/// take.
pub fn functional_interface_specificity<D: TyDatabase>(
    db: &D,
    m1: &MethodData,
    m2: &MethodData,
) -> (r: Option<bool>)
    ensures
        r == functional_specificity(db, *m1, *m2),
{
    match collect_sam_returns(db, &m1.params, &m2.params, None) {
        None => None,
        Some((s, t)) => {
            if t.is_void_like() && !s.is_void_like() {
                return Some(true);
            }
            if s.is_void_like() && !t.is_void_like() {
                return Some(false);
            }
            if !s.is_void_like() && !t.is_void_like() {
                let s_cap = db.capture_conversion(&s);
                if db.is_subtype(&s_cap, &t) {
                    return Some(true);
                }
                let t_cap = db.capture_conversion(&t);
                if db.is_subtype(&t_cap, &s) {
                    return Some(false);
                }
            }
            None
        },
    }
}

/// Whether `m2` accepts arguments of these types.
pub open spec fn accepts<D: TyDatabase>(
    db: &D,
    next: u64,
    m2: MethodData,
    constraints: List<Constraint>,
) -> bool {
    let reg = registered_method(empty_table(), next, m2);
    reg.table.plus_work(constraints).consistent(db, InvocationPhase::Loose).1
}

/// Whether `m1` is more specific than `m2`: `m2` accepts what `m1` takes. Two
/// variable arity methods of a variable arity invocation are compared at the
/// same length.
pub open spec fn specific_than<D: TyDatabase>(
    db: &D,
    next: u64,
    m1: MethodData,
    m2: MethodData,
    variable_arity: bool,
) -> bool {
    let formals = registered_method(empty_table(), next, m2).formals;
    if variable_arity && m1.varargs && m2.varargs {
        let counter = longer_of(m1.params, m2.params);
        accepts(
            db,
            next,
            m2,
            zipped(
                stretched(m1.params, element_or_object(m1.params), counter),
                stretched(formals, element_or_object(formals), counter),
            ),
        )
    } else if m1.params.count() != m2.params.count() {
        false
    } else {
        match functional_specificity(db, m1, m2) {
            Some(win) => win,
            None => accepts(db, next, m2, zipped(m1.params, formals)),
        }
    }
}

/// Whether `m1` is more specific than `m2`.
pub fn more_specific<D: TyDatabase>(
    db: &D,
    next: u64,
    m1: &MethodData,
    m2: &MethodData,
    variable_arity: bool,
) -> (r: bool)
    ensures
        r == specific_than(db, next, *m1, *m2, variable_arity),
{
    let mut inference = Inference::new();
    let mut supply = VarSupply { next };
    let (formals, _ret, _throws) = inference.register_method(&mut supply, m2);
    let constraints = if variable_arity && m1.varargs && m2.varargs {
        let counter = if m2.params.longer(&m1.params) {
            m2.params.copy()
        } else {
            m1.params.copy()
        };
        let p1 = stretch(&m1.params, &element_of(&m1.params), &counter);
        let p2 = stretch(&formals, &element_of(&formals), &counter);
        zip_sub(&p1, &p2)
    } else {
        if !m1.params.same_len(&m2.params) {
            return false;
        }
        if let Some(win) = functional_interface_specificity(db, m1, m2) {
            return win;
        }
        zip_sub(&m1.params, &formals)
    };
    inference.worklist = inference.worklist.copy().append(constraints);
    inference.check_consistent(db, InvocationPhase::Loose)
}

/// An applicable method as it is declared and as it is invoked.
pub type Candidate = (MethodData, MethodData);

/// Whether a candidate is more specific than every other.
pub open spec fn beats_all<D: TyDatabase>(
    db: &D,
    next: u64,
    m: MethodData,
    others: List<Candidate>,
    variable_arity: bool,
) -> bool
    decreases others,
{
    match others {
        List::Nil => true,
        List::Cons(o, t) => (o.0 == m || specific_than(db, next, m, o.0, variable_arity))
            && beats_all(db, next, m, *t, variable_arity),
    }
}

fn does_beat_all<D: TyDatabase>(
    db: &D,
    next: u64,
    m: &MethodData,
    others: &List<Candidate>,
    variable_arity: bool,
) -> (r: bool)
    ensures
        r == beats_all(db, next, *m, *others, variable_arity),
    decreases others,
{
    match others {
        List::Nil => true,
        List::Cons(o, t) => (o.0.same(m) || more_specific(db, next, m, &o.0, variable_arity))
            && does_beat_all(db, next, m, t, variable_arity),
    }
}

/// The candidates that are more specific than every other.
pub open spec fn winners<D: TyDatabase>(
    db: &D,
    next: u64,
    l: List<Candidate>,
    all: List<Candidate>,
    variable_arity: bool,
) -> List<Candidate>
    decreases l,
{
    match l {
        List::Nil => List::Nil,
        List::Cons(c, t) => {
            let rest = winners(db, next, *t, all, variable_arity);
            if beats_all(db, next, c.0, all, variable_arity) {
                List::Cons(c, Box::new(rest))
            } else {
                rest
            }
        },
    }
}

fn find_winners<D: TyDatabase>(
    db: &D,
    next: u64,
    l: &List<Candidate>,
    all: &List<Candidate>,
    variable_arity: bool,
) -> (r: List<Candidate>)
    ensures
        r == winners(db, next, *l, *all, variable_arity),
    decreases l,
{
    match l {
        List::Nil => List::Nil,
        List::Cons(c, t) => {
            let rest = find_winners(db, next, t, all, variable_arity);
            if does_beat_all(db, next, &c.0, all, variable_arity) {
                List::cons(c.copy(), rest)
            } else {
                rest
            }
        },
    }
}

/// Whether two methods have the same signature, as far as overriding goes.
pub open spec fn same_signature(a: MethodData, b: MethodData) -> bool {
    a.params == b.params && a.ret == b.ret && a.is_static == b.is_static && a.varargs == b.varargs
}

/// Whether one of the candidates has the signature of `m`.
pub open spec fn signature_among(l: List<Candidate>, m: MethodData) -> bool
    decreases l,
{
    match l {
        List::Nil => false,
        List::Cons(c, t) => same_signature(c.0, m) || signature_among(*t, m),
    }
}

fn is_signature_among(l: &List<Candidate>, m: &MethodData) -> (r: bool)
    ensures
        r == signature_among(*l, *m),
    decreases l,
{
    match l {
        List::Nil => false,
        List::Cons(c, t) => (c.0.params.same(&m.params) && c.0.ret.same(&m.ret) && c.0.is_static
            == m.is_static && c.0.varargs == m.varargs) || is_signature_among(t, m),
    }
}

/// `kept` with the first candidate of each further signature.
pub open spec fn distinct(kept: List<Candidate>, l: List<Candidate>) -> List<Candidate>
    decreases l,
{
    match l {
        List::Nil => kept,
        List::Cons(c, t) => if signature_among(kept, c.0) {
            distinct(kept, *t)
        } else {
            distinct(kept.with(*c), *t)
        },
    }
}

fn distinct_signatures(kept: List<Candidate>, l: &List<Candidate>) -> (r: List<Candidate>)
    ensures
        r == distinct(kept, *l),
    decreases l,
{
    match l {
        List::Nil => kept,
        List::Cons(c, t) => if is_signature_among(&kept, &c.0) {
            distinct_signatures(kept, t)
        } else {
            distinct_signatures(kept.push(c.copy()), t)
        },
    }
}

/// Whether the class of `m` is a subtype of the classes of the candidates.
pub open spec fn derived_from_all<D: TyDatabase>(
    db: &D,
    m: MethodData,
    l: List<Candidate>,
) -> bool
    decreases l,
{
    match l {
        List::Nil => true,
        List::Cons(c, t) => db.subtype(m.owner.ty(db, List::Nil), c.0.owner.ty(db, List::Nil))
            && derived_from_all(db, m, *t),
    }
}

fn is_derived_from_all<D: TyDatabase>(db: &D, m: &MethodData, l: &List<Candidate>) -> (r: bool)
    ensures
        r == derived_from_all(db, *m, *l),
    decreases l,
{
    match l {
        List::Nil => true,
        List::Cons(c, t) => {
            let owner = m.owner.as_ty(db, List::Nil);
            let other = c.0.owner.as_ty(db, List::Nil);
            db.is_subtype(&owner, &other) && is_derived_from_all(db, m, t)
        },
    }
}

/// The first candidate of `rest` whose class is derived from the classes of
/// all the others, those of `before` among them.
pub open spec fn most_derived<D: TyDatabase>(
    db: &D,
    before: List<Candidate>,
    rest: List<Candidate>,
) -> Option<MethodData>
    decreases rest,
{
    match rest {
        List::Nil => None,
        List::Cons(c, t) => if derived_from_all(db, c.0, before) && derived_from_all(
            db,
            c.0,
            *t,
        ) {
            Some(c.1)
        } else {
            most_derived(db, before.with(*c), *t)
        },
    }
}

fn find_most_derived<D: TyDatabase>(db: &D, before: List<Candidate>, rest: &List<Candidate>) -> (r:
    Option<MethodData>)
    ensures
        r == most_derived(db, before, *rest),
    decreases rest,
{
    match rest {
        List::Nil => None,
        List::Cons(c, t) => if is_derived_from_all(db, &c.0, &before) && is_derived_from_all(
            db,
            &c.0,
            t,
        ) {
            Some(c.1.copy())
        } else {
            find_most_derived(db, before.push(c.copy()), t)
        },
    }
}

/// The most specific of the candidates: the only winner, or among winners of
/// different signatures the one of the most derived class; none where that is
/// ambiguous.
pub open spec fn most_specific<D: TyDatabase>(
    db: &D,
    next: u64,
    candidates: List<Candidate>,
    variable_arity: bool,
) -> Option<MethodData> {
    let unique = distinct(
        List::Nil,
        winners(db, next, candidates, candidates, variable_arity),
    );
    match unique {
        List::Nil => None,
        List::Cons(c, t) => if *t is Nil {
            Some(c.1)
        } else {
            most_derived(db, List::Nil, unique)
        },
    }
}

/// The most specific of the candidates, as it is invoked.
pub fn choose_most_specific<D: TyDatabase>(
    db: &D,
    next: u64,
    candidates: &List<Candidate>,
    variable_arity: bool,
) -> (r: Option<MethodData>)
    ensures
        r == most_specific(db, next, *candidates, variable_arity),
{
    let wins = find_winners(db, next, candidates, candidates, variable_arity);
    let unique = distinct_signatures(List::Nil, &wins);
    match &unique {
        List::Nil => None,
        List::Cons(c, t) => if t.is_empty() {
            Some(c.1.copy())
        } else {
            find_most_derived(db, List::Nil, &unique)
        },
    }
}

/// The methods that are applicable in a phase.
pub open spec fn applicable<D: TyDatabase>(
    db: &D,
    next: u64,
    members: List<MethodData>,
    args: List<PolyArg>,
    phase: InvocationPhase,
    varargs: bool,
    target: Option<Ty>,
) -> List<Candidate>
    decreases members,
{
    match members {
        List::Nil => List::Nil,
        List::Cons(m, t) => {
            let rest = applicable(db, next, *t, args, phase, varargs, target);
            match invoked(db, next, *m, args, phase, varargs, target) {
                Some(i) => List::Cons(Box::new((*m, i)), Box::new(rest)),
                None => rest,
            }
        },
    }
}

fn applicable_methods<D: TyDatabase>(
    db: &D,
    next: u64,
    members: &List<MethodData>,
    args: &List<PolyArg>,
    phase: InvocationPhase,
    varargs: bool,
    target: &Option<Ty>,
) -> (r: List<Candidate>)
    ensures
        r == applicable(db, next, *members, *args, phase, varargs, *target),
    decreases members,
{
    match members {
        List::Nil => List::Nil,
        List::Cons(m, t) => {
            let rest = applicable_methods(db, next, t, args, phase, varargs, target);
            match instantiate(db, next, m, args, phase, varargs, target) {
                Some(i) => List::cons((m.copy(), i), rest),
                None => rest,
            }
        },
    }
}

/// The method an invocation means among the members: the most specific of
/// those applicable by strict invocation, else by loose invocation, else by
/// variable arity invocation.
pub open spec fn picked<D: TyDatabase>(
    db: &D,
    next: u64,
    members: List<MethodData>,
    args: List<PolyArg>,
    target: Option<Ty>,
) -> Option<MethodData> {
    let strict = applicable(db, next, members, args, InvocationPhase::Strict, false, target);
    let loose = applicable(db, next, members, args, InvocationPhase::Loose, false, target);
    let varargs = applicable(db, next, members, args, InvocationPhase::Loose, true, target);
    if !(strict is Nil) {
        most_specific(db, next, strict, false)
    } else if !(loose is Nil) {
        most_specific(db, next, loose, false)
    } else if !(varargs is Nil) {
        most_specific(db, next, varargs, true)
    } else {
        None
    }
}

/// The method an invocation means among the members.
pub fn pick_among<D: TyDatabase>(
    db: &D,
    next: u64,
    members: &List<MethodData>,
    args: &List<PolyArg>,
    target: &Option<Ty>,
) -> (r: Option<MethodData>)
    ensures
        r == picked(db, next, *members, *args, *target),
{
    let strict = applicable_methods(
        db,
        next,
        members,
        args,
        InvocationPhase::Strict,
        false,
        target,
    );
    if !strict.is_empty() {
        return choose_most_specific(db, next, &strict, false);
    }
    let loose = applicable_methods(
        db,
        next,
        members,
        args,
        InvocationPhase::Loose,
        false,
        target,
    );
    if !loose.is_empty() {
        return choose_most_specific(db, next, &loose, false);
    }
    let varargs = applicable_methods(
        db,
        next,
        members,
        args,
        InvocationPhase::Loose,
        true,
        target,
    );
    if !varargs.is_empty() {
        return choose_most_specific(db, next, &varargs, true);
    }
    None
}

/// Resolves a method call on a receiver: `None` when no method is applicable
/// or the applicable ones are ambiguous. `next` is a variable that occurs in
/// none of the types.
pub fn pick_method<D: TyDatabase>(
    db: &D,
    next: u64,
    receiver: &Ty,
    name: Name,
    args: &List<PolyArg>,
    ctx: &InvocationContext,
    target: &Option<Ty>,
) -> (r: Option<MethodData>)
    ensures
        r == picked(db, next, db.members(*receiver, name, *ctx), *args, *target),
{
    let members = db.member_set(receiver, name, ctx);
    pick_among(db, next, &members, args, target)
}

/// A strict invocation is preferred: where a method is applicable without
/// boxing, what loose and variable arity invocation would find plays no role.
pub proof fn law_strict_first<D: TyDatabase>(
    db: &D,
    next: u64,
    members: List<MethodData>,
    args: List<PolyArg>,
    target: Option<Ty>,
)
    requires
        !(applicable(db, next, members, args, InvocationPhase::Strict, false, target) is Nil),
    ensures
        picked(db, next, members, args, target) == most_specific(
            db,
            next,
            applicable(db, next, members, args, InvocationPhase::Strict, false, target),
            false,
        ),
{
}

/// The only applicable method is the one that is meant.
pub proof fn law_single_candidate<D: TyDatabase>(
    db: &D,
    next: u64,
    c: Candidate,
    variable_arity: bool,
)
    ensures
        most_specific(
            db,
            next,
            List::Cons(Box::new(c), Box::new(List::Nil)),
            variable_arity,
        ) == Some(c.1),
{
    let one = List::Cons(Box::new(c), Box::new(List::<Candidate>::Nil));
    reveal_with_fuel(winners, 2);
    reveal_with_fuel(beats_all, 2);
    reveal_with_fuel(distinct, 2);
    reveal_with_fuel(signature_among, 2);
    assert(winners(db, next, one, one, variable_arity) == one);
    assert(List::<Candidate>::Nil.with(c) == one);
}

pub proof fn lemma_winners<D: TyDatabase>(
    db: &D,
    next: u64,
    l: List<Candidate>,
    all: List<Candidate>,
    variable_arity: bool,
    c: Candidate,
)
    ensures
        winners(db, next, l, all, variable_arity).has(c) == (l.has(c) && beats_all(
            db,
            next,
            c.0,
            all,
            variable_arity,
        )),
    decreases l,
{
    if let List::Cons(_, t) = l {
        lemma_winners(db, next, *t, all, variable_arity, c);
    }
}

proof fn lemma_distinct(kept: List<Candidate>, l: List<Candidate>, c: Candidate)
    ensures
        distinct(kept, l).has(c) ==> kept.has(c) || l.has(c),
    decreases l,
{
    if let List::Cons(h, t) = l {
        lemma_with_has(kept, *h, c);
        if signature_among(kept, h.0) {
            lemma_distinct(kept, *t, c);
        } else {
            lemma_distinct(kept.with(*h), *t, c);
        }
    }
}

proof fn lemma_most_derived<D: TyDatabase>(
    db: &D,
    before: List<Candidate>,
    rest: List<Candidate>,
) -> (c: Candidate)
    requires
        most_derived(db, before, rest) is Some,
    ensures
        rest.has(c),
        most_derived(db, before, rest) == Some(c.1),
    decreases rest,
{
    match rest {
        List::Nil => arbitrary(),
        List::Cons(h, t) => if derived_from_all(db, h.0, before) && derived_from_all(
            db,
            h.0,
            *t,
        ) {
            *h
        } else {
            lemma_most_derived(db, before.with(*h), *t)
        },
    }
}

/// The most specific method is one of the candidates, and no candidate is
/// strictly more specific: it beats them all.
pub proof fn law_most_specific_beats_all<D: TyDatabase>(
    db: &D,
    next: u64,
    candidates: List<Candidate>,
    variable_arity: bool,
) -> (c: Candidate)
    requires
        most_specific(db, next, candidates, variable_arity) is Some,
    ensures
        most_specific(db, next, candidates, variable_arity) == Some(c.1),
        candidates.has(c),
        beats_all(db, next, c.0, candidates, variable_arity),
{
    let wins = winners(db, next, candidates, candidates, variable_arity);
    let unique = distinct(List::Nil, wins);
    let c = match unique {
        List::Cons(h, t) => if *t is Nil {
            *h
        } else {
            lemma_most_derived(db, List::Nil, unique)
        },
        List::Nil => arbitrary(),
    };
    lemma_distinct(List::Nil, wins, c);
    lemma_winners(db, next, candidates, candidates, variable_arity, c);
    c
}

proof fn lemma_applicable<D: TyDatabase>(
    db: &D,
    next: u64,
    members: List<MethodData>,
    args: List<PolyArg>,
    phase: InvocationPhase,
    varargs: bool,
    target: Option<Ty>,
    c: Candidate,
)
    ensures
        applicable(db, next, members, args, phase, varargs, target).has(c) == (members.has(c.0)
            && invoked(db, next, c.0, args, phase, varargs, target) == Some(c.1)),
    decreases members,
{
    if let List::Cons(_, t) = members {
        lemma_applicable(db, next, *t, args, phase, varargs, target, c);
    }
}

/// The method that an invocation means is one of the members, as it is invoked
/// in one of the phases.
pub proof fn law_picked_is_a_member<D: TyDatabase>(
    db: &D,
    next: u64,
    members: List<MethodData>,
    args: List<PolyArg>,
    target: Option<Ty>,
) -> (m: MethodData)
    requires
        picked(db, next, members, args, target) is Some,
    ensures
        members.has(m),
        ({
            let r = picked(db, next, members, args, target);
            ||| invoked(db, next, m, args, InvocationPhase::Strict, false, target) == r
            ||| invoked(db, next, m, args, InvocationPhase::Loose, false, target) == r
            ||| invoked(db, next, m, args, InvocationPhase::Loose, true, target) == r
        }),
{
    let strict = applicable(db, next, members, args, InvocationPhase::Strict, false, target);
    let loose = applicable(db, next, members, args, InvocationPhase::Loose, false, target);
    let varargs = applicable(db, next, members, args, InvocationPhase::Loose, true, target);
    if !(strict is Nil) {
        let c = law_most_specific_beats_all(db, next, strict, false);
        lemma_applicable(db, next, members, args, InvocationPhase::Strict, false, target, c);
        c.0
    } else if !(loose is Nil) {
        let c = law_most_specific_beats_all(db, next, loose, false);
        lemma_applicable(db, next, members, args, InvocationPhase::Loose, false, target, c);
        c.0
    } else {
        let c = law_most_specific_beats_all(db, next, varargs, true);
        lemma_applicable(db, next, members, args, InvocationPhase::Loose, true, target, c);
        c.0
    }
}

} // verus!
