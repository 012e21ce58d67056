//! Which method an invocation means, with its type arguments inferred together
//! with those of the invocations among its arguments.
use crate::body::{Expr, ExprKind};
use crate::db::TyDatabase;
use crate::infer::candidate::{
    add_argument, add_lambda, add_reference, better, better_of, candidate_signature, choose_among,
    chosen, conclude, concluded, creates, does_create, explicit_type_args, explicit_types,
    is_selected, law_selection_is_applicable, signature, with_argument, with_lambda,
    with_reference, CallResolution,
};
use crate::infer::creation::{class_params, class_type_param_bounds, type_vars, vars_of};
use crate::infer::ctx::{InferCtx, Site};
use crate::infer::lookup::{all_but_last, constructor_name, ctor_name, in_mode, init};
use crate::infer::poly::{
    body_has_value, expr_is_poly_ext, has_one_leaf, lambda_block_has_value, leaves, poly_ext,
    ArgType,
};
use crate::inference::{registered, Constraint, Inference, InvocationPhase, Registered, VarSupply};
use crate::list::{Data, List};
use crate::member::{MethodData, MethodTypeParam};
use crate::names::Name;
use crate::select::{choose_most_specific, empty_table, most_specific, Candidate};
use crate::ty::{
    all_subst, lookup_var, substitute_all, var_value, PrimitiveType, Subst, Ty, VarMap,
};
use vstd::prelude::*;

verus! {

/// What is asked of a candidate.
pub struct Trial {
    pub phase: InvocationPhase,
    pub varargs: bool,
    pub target: Option<Ty>,
    pub explicit: Option<List<Ty>>,
    /// Whether the variables are resolved.
    pub resolve: bool,
}

/// Whether a formal type is still a variable.
pub open spec fn bare_var(t: Ty) -> bool {
    t is InferenceVar || t is TypeVar
}

fn is_bare_var(t: &Ty) -> (r: bool)
    ensures
        r == bare_var(*t),
{
    match t {
        Ty::InferenceVar(_) => true,
        Ty::TypeVar { scope: _, bounds: _, lower: _ } => true,
        _ => false,
    }
}

/// Whether the only argument for a variable arity parameter may be the array
/// itself: it has an array type, or an invocation gives its value.
pub open spec fn maybe_whole(args: List<Expr>, types: List<ArgType>) -> bool {
    match (args, types) {
        (List::Cons(a, rest), List::Cons(ty, _)) => *rest is Nil && match *ty {
            Some(t) => t is Array,
            None => leaves(*a) == 1 && creates(*a),
        },
        _ => false,
    }
}

fn is_maybe_whole(args: &List<Expr>, types: &List<ArgType>) -> (r: bool)
    ensures
        r == maybe_whole(*args, *types),
{
    match (args, types) {
        (List::Cons(a, rest), List::Cons(ty, _)) => rest.is_empty() && match &**ty {
            Some(t) => t.is_array(),
            None => has_one_leaf(a) && does_create(a),
        },
        _ => false,
    }
}

/// What the variables of type parameters are resolved to, where all are.
pub open spec fn resolved_params(subst: Subst, map: VarMap) -> Option<Subst>
    decreases subst,
{
    match subst {
        List::Nil => Some(List::Nil),
        List::Cons(h, t) => match h.1.infer_id() {
            None => None,
            Some(id) => match (var_value(map, id), resolved_params(*t, map)) {
                (Some(ty), Some(rest)) => Some(List::Cons(Box::new((h.0, ty)), Box::new(rest))),
                _ => None,
            },
        },
    }
}

fn find_resolved_params(subst: &Subst, map: &VarMap) -> (r: Option<Subst>)
    ensures
        r == resolved_params(*subst, *map),
    decreases subst,
{
    match subst {
        List::Nil => Some(List::Nil),
        List::Cons(h, t) => match h.1.as_infer_var() {
            None => None,
            Some(id) => match (lookup_var(map, id), find_resolved_params(t, map)) {
                (Some(ty), Some(rest)) => Some(List::cons((h.0, ty), rest)),
                _ => None,
            },
        },
    }
}

/// The formal types against which poly arguments are typed once the method is
/// known: not that of variable arity.
pub open spec fn deferred_formals(params: List<Ty>, varargs: bool) -> List<Ty> {
    if varargs {
        init(params)
    } else {
        params
    }
}

pub fn find_deferred_formals(params: &List<Ty>, varargs: bool) -> (r: List<Ty>)
    ensures
        r == deferred_formals(*params, varargs),
{
    if varargs {
        all_but_last(params)
    } else {
        params.copy()
    }
}

impl InferCtx {
    /// The arguments of an invocation, as far as they have types of their own.
    pub open spec fn arg_types<D: TyDatabase>(
        self,
        db: &D,
        site: Site,
        args: List<Expr>,
        capture: bool,
    ) -> (InferCtx, List<ArgType>)
        decreases args, 1nat, List::<MethodData>::Nil,
    {
        match args {
            List::Nil => (self, List::Nil),
            List::Cons(a, rest) => {
                let (s, ty) = if poly_ext(*a) {
                    (self, None)
                } else {
                    let (s, t) = self.expr_to(db, site, *a, None);
                    (s, Some(if capture { db.captured(t) } else { t }))
                };
                let (s1, more) = s.arg_types(db, site, *rest, capture);
                (s1, List::Cons(Box::new(ty), Box::new(more)))
            },
        }
    }

    /// The arguments of an invocation, as far as they have types of their own.
    /// With `capture` those are captured.
    pub fn arg_kinds<D: TyDatabase>(
        &mut self,
        db: &D,
        site: &Site,
        args: &List<Expr>,
        capture: bool,
    ) -> (r: List<ArgType>)
        ensures
            (*final(self), r) == old(self).arg_types(db, *site, *args, capture),
            final(self).frame() == old(self).frame(),
            final(self).exited == old(self).exited,
        decreases args, 1nat, List::<MethodData>::Nil,
    {
        match args {
            List::Nil => List::Nil,
            List::Cons(a, rest) => {
                let ty = if expr_is_poly_ext(a) {
                    None
                } else {
                    let t = self.infer_against(db, site, a, None);
                    if capture {
                        Some(db.capture_conversion(&t))
                    } else {
                        Some(t)
                    }
                };
                let more = self.arg_kinds(db, site, rest, capture);
                List::cons(ty, more)
            },
        }
    }

    /// The method that an invocation means: by strict invocation, or else by
    /// loose invocation, or else by variable arity.
    pub open spec fn resolved_call<D: TyDatabase>(
        self,
        db: &D,
        site: Site,
        members: List<MethodData>,
        args: List<Expr>,
        types: List<ArgType>,
        target: Option<Ty>,
        explicit: Option<List<Ty>>,
    ) -> (InferCtx, CallResolution)
        decreases args, 20nat, List::<MethodData>::Nil,
    {
        let strict = Trial {
            phase: InvocationPhase::Strict,
            varargs: false,
            target,
            explicit,
            resolve: true,
        };
        let loose = Trial { phase: InvocationPhase::Loose, ..strict };
        let variable = Trial { varargs: true, ..loose };
        let (s, a) = self.in_phase(db, site, members, args, types, strict);
        if a is Selected {
            (s, a)
        } else {
            let (s1, b) = s.in_phase(db, site, members, args, types, loose);
            let ab = better(a, b);
            if ab is Selected {
                (s1, ab)
            } else {
                let (s2, c) = s1.in_phase(db, site, members, args, types, variable);
                (s2, better(ab, c))
            }
        }
    }

    /// The method that an invocation means.
    pub fn resolve_call<D: TyDatabase>(
        &mut self,
        db: &D,
        site: &Site,
        members: &List<MethodData>,
        args: &List<Expr>,
        types: &List<ArgType>,
        target: Option<Ty>,
        explicit: Option<List<Ty>>,
    ) -> (r: CallResolution)
        ensures
            (*final(self), r) == old(self).resolved_call(
                db,
                *site,
                *members,
                *args,
                *types,
                target,
                explicit,
            ),
            final(self).frame() == old(self).frame(),
            final(self).exited == old(self).exited,
        decreases args, 20nat, List::<MethodData>::Nil,
    {
        let strict = Trial {
            phase: InvocationPhase::Strict,
            varargs: false,
            target,
            explicit,
            resolve: true,
        };
        let a = self.choose_candidate(db, site, members, args, types, &strict);
        if is_selected(&a) {
            return a;
        }
        let loose = Trial {
            phase: InvocationPhase::Loose,
            varargs: false,
            target: strict.target,
            explicit: strict.explicit,
            resolve: true,
        };
        let b = self.choose_candidate(db, site, members, args, types, &loose);
        let ab = better_of(a, b);
        if is_selected(&ab) {
            return ab;
        }
        let variable = Trial {
            phase: InvocationPhase::Loose,
            varargs: true,
            target: loose.target,
            explicit: loose.explicit,
            resolve: true,
        };
        let c = self.choose_candidate(db, site, members, args, types, &variable);
        better_of(ab, c)
    }

    /// The choice in one phase.
    pub open spec fn in_phase<D: TyDatabase>(
        self,
        db: &D,
        site: Site,
        members: List<MethodData>,
        args: List<Expr>,
        types: List<ArgType>,
        trial: Trial,
    ) -> (InferCtx, CallResolution)
        decreases args, 19nat, List::<MethodData>::Nil,
    {
        let (s, applicable) = self.applicable(
            db,
            site,
            empty_table(),
            members,
            args,
            types,
            trial,
        );
        (s, chosen(db, s.next_var, applicable, trial.varargs))
    }

    /// The choice in one phase: the most specific applicable method.
    pub fn choose_candidate<D: TyDatabase>(
        &mut self,
        db: &D,
        site: &Site,
        members: &List<MethodData>,
        args: &List<Expr>,
        types: &List<ArgType>,
        trial: &Trial,
    ) -> (r: CallResolution)
        ensures
            (*final(self), r) == old(self).in_phase(db, *site, *members, *args, *types, *trial),
            final(self).frame() == old(self).frame(),
            final(self).exited == old(self).exited,
        decreases args, 19nat, List::<MethodData>::Nil,
    {
        let table = Inference::new();
        let applicable = self.find_applicable(db, site, &table, members, args, types, trial);
        choose_among(db, self.next_var, &applicable, trial.varargs)
    }

    /// The applicable methods, each tried tentatively from the same table.
    pub open spec fn applicable<D: TyDatabase>(
        self,
        db: &D,
        site: Site,
        table: Inference,
        members: List<MethodData>,
        args: List<Expr>,
        types: List<ArgType>,
        trial: Trial,
    ) -> (InferCtx, List<Candidate>)
        decreases args, 18nat, members,
    {
        match members {
            List::Nil => (self, List::Nil),
            List::Cons(m, rest) => {
                let (s, out) = self.probe(db, site, table, *m, args, types, trial);
                let (s1, more) = s.applicable(db, site, table, *rest, args, types, trial);
                match out {
                    None => (s1, more),
                    Some(c) => (s1, List::Cons(Box::new(c), Box::new(more))),
                }
            },
        }
    }

    /// A method tried tentatively: as declared and as it would be invoked, where
    /// it is applicable.
    pub open spec fn probe<D: TyDatabase>(
        self,
        db: &D,
        site: Site,
        table: Inference,
        m: MethodData,
        args: List<Expr>,
        types: List<ArgType>,
        trial: Trial,
    ) -> (InferCtx, Option<Candidate>)
        decreases args, 17nat, List::<MethodData>::Nil,
    {
        let (s, _, out) = self.probed(true).candidate(db, site, table, m, args, types, trial);
        (
            s.probed(self.probing),
            match out {
                None => None,
                Some(invocation) => Some(
                    (
                        m,
                        if trial.resolve {
                            invocation
                        } else {
                            m
                        },
                    ),
                ),
            },
        )
    }

    fn find_applicable<D: TyDatabase>(
        &mut self,
        db: &D,
        site: &Site,
        table: &Inference,
        members: &List<MethodData>,
        args: &List<Expr>,
        types: &List<ArgType>,
        trial: &Trial,
    ) -> (r: List<Candidate>)
        ensures
            (*final(self), r) == old(self).applicable(
                db,
                *site,
                *table,
                *members,
                *args,
                *types,
                *trial,
            ),
            final(self).frame() == old(self).frame(),
            final(self).exited == old(self).exited,
        decreases args, 18nat, members,
    {
        match members {
            List::Nil => List::Nil,
            List::Cons(m, rest) => {
                let out = self.probe_candidate(db, site, table, m, args, types, trial);
                let more = self.find_applicable(db, site, table, rest, args, types, trial);
                match out {
                    None => more,
                    Some(c) => List::cons(c, more),
                }
            },
        }
    }

    fn probe_candidate<D: TyDatabase>(
        &mut self,
        db: &D,
        site: &Site,
        table: &Inference,
        m: &MethodData,
        args: &List<Expr>,
        types: &List<ArgType>,
        trial: &Trial,
    ) -> (r: Option<Candidate>)
        ensures
            (*final(self), r) == old(self).probe(db, *site, *table, *m, *args, *types, *trial),
            final(self).frame() == old(self).frame(),
            final(self).exited == old(self).exited,
        decreases args, 17nat, List::<MethodData>::Nil,
    {
        proof {
            reveal(InferCtx::frame);
            reveal(InferCtx::probed);
        }
        let probing = self.set_probing(true);
        let mut tried = table.snapshot();
        let out = self.try_candidate(db, site, &mut tried, m, args, types, trial);
        let _ = self.set_probing(probing);
        match out {
            None => None,
            Some(invocation) => if trial.resolve {
                Some((m.copy(), invocation))
            } else {
                Some((m.copy(), m.copy()))
            },
        }
    }

    /// A method as a candidate: the table with its constraints, and the method
    /// as it would be invoked where it is applicable.
    pub open spec fn candidate<D: TyDatabase>(
        self,
        db: &D,
        site: Site,
        table: Inference,
        m: MethodData,
        args: List<Expr>,
        types: List<ArgType>,
        trial: Trial,
    ) -> (InferCtx, Inference, Option<MethodData>)
        decreases args, 16nat, List::<MethodData>::Nil,
    {
        let sig = signature(table, self.next_var, m, trial.explicit);
        let s = InferCtx { next_var: sig.next, ..self };
        let (s1, congruent) = s.functional_args(db, site, args, sig.formals);
        if !congruent {
            (s1, sig.table, None)
        } else if trial.varargs && (!m.varargs || sig.formals is Nil || sig.formals.count()
            > args.count() + 1) {
            (s1, sig.table, None)
        } else if !trial.varargs && sig.formals.count() != args.count() {
            (s1, sig.table, None)
        } else {
            let (s2, t2, ok) = if trial.varargs {
                s1.variable_args(db, site, sig.table, args, types, sig.formals, trial.phase)
            } else {
                s1.fixed_args(db, site, sig.table, args, types, sig.formals, trial.phase)
            };
            if ok {
                let (t3, out) = concluded(
                    db,
                    t2,
                    m,
                    sig.formals,
                    sig.ret,
                    sig.throws,
                    trial.phase,
                    trial.target,
                    trial.resolve,
                );
                (s2, t3, out)
            } else {
                (s2, t2, None)
            }
        }
    }

    /// Tries a method as a candidate.
    pub fn try_candidate<D: TyDatabase>(
        &mut self,
        db: &D,
        site: &Site,
        table: &mut Inference,
        m: &MethodData,
        args: &List<Expr>,
        types: &List<ArgType>,
        trial: &Trial,
    ) -> (r: Option<MethodData>)
        ensures
            (*final(self), *final(table), r) == old(self).candidate(
                db,
                *site,
                *old(table),
                *m,
                *args,
                *types,
                *trial,
            ),
            final(self).frame() == old(self).frame(),
            final(self).exited == old(self).exited,
        decreases args, 16nat, List::<MethodData>::Nil,
    {
        proof {
            reveal(InferCtx::frame);
        }
        let (next, (formals, ret, throws)) = candidate_signature(
            table,
            self.next_var,
            m,
            &trial.explicit,
        );
        self.next_var = next;
        if !self.check_functional_args(db, site, args, &formals) {
            return None;
        }
        let ok = if trial.varargs {
            if !m.varargs || formals.is_empty() || is_longer_by_two(&formals, args) {
                return None;
            }
            self.add_variable_args(db, site, table, args, types, &formals, trial.phase)
        } else {
            if !formals.same_len(args) {
                return None;
            }
            self.add_fixed_args(db, site, table, args, types, &formals, trial.phase)
        };
        if !ok {
            return None;
        }
        conclude(
            db,
            table,
            m,
            &formals,
            &ret,
            &throws,
            trial.phase,
            &trial.target,
            trial.resolve,
        )
    }

    /// Whether the lambdas and method references among the arguments can have
    /// the formal types at the same positions.
    pub open spec fn functional_args<D: TyDatabase>(
        self,
        db: &D,
        site: Site,
        args: List<Expr>,
        formals: List<Ty>,
    ) -> (InferCtx, bool)
        decreases args, 10nat, List::<MethodData>::Nil,
    {
        match (args, formals) {
            (List::Cons(a, at), List::Cons(f, ft)) => {
                let (s, ok) = self.functional_arg(db, site, *a, *f);
                if ok {
                    s.functional_args(db, site, *at, *ft)
                } else {
                    (s, false)
                }
            },
            _ => (self, true),
        }
    }

    fn check_functional_args<D: TyDatabase>(
        &mut self,
        db: &D,
        site: &Site,
        args: &List<Expr>,
        formals: &List<Ty>,
    ) -> (r: bool)
        ensures
            (*final(self), r) == old(self).functional_args(db, *site, *args, *formals),
            final(self).frame() == old(self).frame(),
            final(self).exited == old(self).exited,
        decreases args, 10nat, List::<MethodData>::Nil,
    {
        match (args, formals) {
            (List::Cons(a, at), List::Cons(f, ft)) => {
                if self.check_functional_arg(db, site, a, f) {
                    self.check_functional_args(db, site, at, ft)
                } else {
                    false
                }
            },
            _ => true,
        }
    }

    /// Whether the lambdas and method references of an argument can have a
    /// formal type. A type that is still a variable may become one.
    pub open spec fn functional_arg<D: TyDatabase>(
        self,
        db: &D,
        site: Site,
        arg: Expr,
        formal: Ty,
    ) -> (InferCtx, bool)
        decreases arg, 14nat, List::<MethodData>::Nil,
    {
        match arg.kind {
            ExprKind::Lambda { params, body } => match db.sam(formal) {
                None => (self, bare_var(formal)),
                Some(sam) => (
                    self,
                    sam.params.count() == params.count() && (sam.ret == Ty::Primitive(
                        PrimitiveType::Void,
                    ) || body_has_value(body)),
                ),
            },
            ExprKind::MethodRef { qualifier: _, named: _, name: _ } => match db.sam(formal) {
                None => (self, bare_var(formal)),
                Some(sam) => self.ref_congruent(db, site, arg, sam.params),
            },
            ExprKind::Paren(inner) => self.functional_arg(db, site, *inner, formal),
            ExprKind::Conditional { cond: _, then_arm, else_arm } => if poly_ext(*then_arm)
                && poly_ext(*else_arm) {
                let (s, ok) = self.functional_arg(db, site, *then_arm, formal);
                if ok {
                    s.functional_arg(db, site, *else_arm, formal)
                } else {
                    (s, false)
                }
            } else {
                (self, true)
            },
            _ => (self, true),
        }
    }

    fn check_functional_arg<D: TyDatabase>(
        &mut self,
        db: &D,
        site: &Site,
        arg: &Expr,
        formal: &Ty,
    ) -> (r: bool)
        ensures
            (*final(self), r) == old(self).functional_arg(db, *site, *arg, *formal),
            final(self).frame() == old(self).frame(),
            final(self).exited == old(self).exited,
        decreases arg, 14nat, List::<MethodData>::Nil,
    {
        match &arg.kind {
            ExprKind::Lambda { params, body } => match db.single_abstract_method(formal) {
                None => is_bare_var(formal),
                Some(sam) => sam.params.same_len(params) && (sam.ret.is_void_like()
                    || lambda_block_has_value(body)),
            },
            ExprKind::MethodRef { qualifier: _, named: _, name: _ } => {
                match db.single_abstract_method(formal) {
                    None => is_bare_var(formal),
                    Some(sam) => self.method_ref_congruent(db, site, arg, &sam.params),
                }
            },
            ExprKind::Paren(inner) => self.check_functional_arg(db, site, inner, formal),
            ExprKind::Conditional { cond: _, then_arm, else_arm } => {
                if expr_is_poly_ext(then_arm) && expr_is_poly_ext(else_arm) {
                    if self.check_functional_arg(db, site, then_arm, formal) {
                        self.check_functional_arg(db, site, else_arm, formal)
                    } else {
                        false
                    }
                } else {
                    true
                }
            },
            _ => true,
        }
    }

    /// The arguments against the formal types one by one.
    pub open spec fn fixed_args<D: TyDatabase>(
        self,
        db: &D,
        site: Site,
        table: Inference,
        args: List<Expr>,
        types: List<ArgType>,
        formals: List<Ty>,
        phase: InvocationPhase,
    ) -> (InferCtx, Inference, bool)
        decreases args, 10nat, List::<MethodData>::Nil,
    {
        match (args, types, formals) {
            (List::Cons(a, at), List::Cons(ty, tt), List::Cons(f, ft)) => {
                let (s, t, ok) = self.argument(db, site, table, *a, *ty, *f, phase);
                if ok {
                    s.fixed_args(db, site, t, *at, *tt, *ft, phase)
                } else {
                    (s, t, false)
                }
            },
            _ => (self, table, true),
        }
    }

    fn add_fixed_args<D: TyDatabase>(
        &mut self,
        db: &D,
        site: &Site,
        table: &mut Inference,
        args: &List<Expr>,
        types: &List<ArgType>,
        formals: &List<Ty>,
        phase: InvocationPhase,
    ) -> (r: bool)
        ensures
            (*final(self), *final(table), r) == old(self).fixed_args(
                db,
                *site,
                *old(table),
                *args,
                *types,
                *formals,
                phase,
            ),
            final(self).frame() == old(self).frame(),
            final(self).exited == old(self).exited,
        decreases args, 10nat, List::<MethodData>::Nil,
    {
        match (args, types, formals) {
            (List::Cons(a, at), List::Cons(ty, tt), List::Cons(f, ft)) => {
                if self.contribute_argument(db, site, table, a, ty, f, phase) {
                    self.add_fixed_args(db, site, table, at, tt, ft, phase)
                } else {
                    false
                }
            },
            _ => true,
        }
    }

    /// The arguments against the formal types, the last of which takes as many
    /// as are left.
    pub open spec fn variable_args<D: TyDatabase>(
        self,
        db: &D,
        site: Site,
        table: Inference,
        args: List<Expr>,
        types: List<ArgType>,
        formals: List<Ty>,
        phase: InvocationPhase,
    ) -> (InferCtx, Inference, bool)
        decreases args, 10nat, List::<MethodData>::Nil,
    {
        match formals {
            List::Nil => (self, table, false),
            List::Cons(f, ft) => if *ft is Nil {
                self.rest_args(db, site, table, args, types, *f, phase)
            } else {
                match (args, types) {
                    (List::Cons(a, at), List::Cons(ty, tt)) => {
                        let (s, t, ok) = self.argument(db, site, table, *a, *ty, *f, phase);
                        if ok {
                            s.variable_args(db, site, t, *at, *tt, *ft, phase)
                        } else {
                            (s, t, false)
                        }
                    },
                    _ => (self, table, false),
                }
            },
        }
    }

    fn add_variable_args<D: TyDatabase>(
        &mut self,
        db: &D,
        site: &Site,
        table: &mut Inference,
        args: &List<Expr>,
        types: &List<ArgType>,
        formals: &List<Ty>,
        phase: InvocationPhase,
    ) -> (r: bool)
        ensures
            (*final(self), *final(table), r) == old(self).variable_args(
                db,
                *site,
                *old(table),
                *args,
                *types,
                *formals,
                phase,
            ),
            final(self).frame() == old(self).frame(),
            final(self).exited == old(self).exited,
        decreases args, 10nat, List::<MethodData>::Nil,
    {
        match formals {
            List::Nil => false,
            List::Cons(f, ft) => {
                if ft.is_empty() {
                    return self.add_rest_args(db, site, table, args, types, f, phase);
                }
                match (args, types) {
                    (List::Cons(a, at), List::Cons(ty, tt)) => {
                        if self.contribute_argument(db, site, table, a, ty, f, phase) {
                            self.add_variable_args(db, site, table, at, tt, ft, phase)
                        } else {
                            false
                        }
                    },
                    _ => false,
                }
            },
        }
    }

    /// The arguments for a variable arity parameter: one that may be the array
    /// is tried as it first, and otherwise each is an element.
    pub open spec fn rest_args<D: TyDatabase>(
        self,
        db: &D,
        site: Site,
        table: Inference,
        args: List<Expr>,
        types: List<ArgType>,
        formal: Ty,
        phase: InvocationPhase,
    ) -> (InferCtx, Inference, bool)
        decreases args, 9nat, List::<MethodData>::Nil,
    {
        let (s, t, ok) = match (args, types) {
            (List::Cons(a, _), List::Cons(ty, _)) => if maybe_whole(args, types) {
                self.argument(db, site, table, *a, *ty, formal, phase)
            } else {
                (self, table, false)
            },
            _ => (self, table, false),
        };
        if ok {
            (s, t, true)
        } else {
            match formal.component() {
                None => (s, t, false),
                Some(element) => s.every_arg(db, site, t, args, types, element, phase),
            }
        }
    }

    fn add_rest_args<D: TyDatabase>(
        &mut self,
        db: &D,
        site: &Site,
        table: &mut Inference,
        args: &List<Expr>,
        types: &List<ArgType>,
        formal: &Ty,
        phase: InvocationPhase,
    ) -> (r: bool)
        ensures
            (*final(self), *final(table), r) == old(self).rest_args(
                db,
                *site,
                *old(table),
                *args,
                *types,
                *formal,
                phase,
            ),
            final(self).frame() == old(self).frame(),
            final(self).exited == old(self).exited,
        decreases args, 9nat, List::<MethodData>::Nil,
    {
        if is_maybe_whole(args, types) {
            if let (List::Cons(a, _), List::Cons(ty, _)) = (args, types) {
                if self.contribute_argument(db, site, table, a, ty, formal, phase) {
                    return true;
                }
            }
        }
        match formal.element() {
            None => false,
            Some(element) => self.add_every_arg(db, site, table, args, types, &element, phase),
        }
    }

    /// Every argument against one type.
    pub open spec fn every_arg<D: TyDatabase>(
        self,
        db: &D,
        site: Site,
        table: Inference,
        args: List<Expr>,
        types: List<ArgType>,
        formal: Ty,
        phase: InvocationPhase,
    ) -> (InferCtx, Inference, bool)
        decreases args, 8nat, List::<MethodData>::Nil,
    {
        match (args, types) {
            (List::Cons(a, at), List::Cons(ty, tt)) => {
                let (s, t, ok) = self.argument(db, site, table, *a, *ty, formal, phase);
                if ok {
                    s.every_arg(db, site, t, *at, *tt, formal, phase)
                } else {
                    (s, t, false)
                }
            },
            _ => (self, table, true),
        }
    }

    fn add_every_arg<D: TyDatabase>(
        &mut self,
        db: &D,
        site: &Site,
        table: &mut Inference,
        args: &List<Expr>,
        types: &List<ArgType>,
        formal: &Ty,
        phase: InvocationPhase,
    ) -> (r: bool)
        ensures
            (*final(self), *final(table), r) == old(self).every_arg(
                db,
                *site,
                *old(table),
                *args,
                *types,
                *formal,
                phase,
            ),
            final(self).frame() == old(self).frame(),
            final(self).exited == old(self).exited,
        decreases args, 8nat, List::<MethodData>::Nil,
    {
        match (args, types) {
            (List::Cons(a, at), List::Cons(ty, tt)) => {
                if self.contribute_argument(db, site, table, a, ty, formal, phase) {
                    self.add_every_arg(db, site, table, at, tt, formal, phase)
                } else {
                    false
                }
            },
            _ => true,
        }
    }

    /// What an argument contributes to the table, and whether it can.
    pub open spec fn argument<D: TyDatabase>(
        self,
        db: &D,
        site: Site,
        table: Inference,
        arg: Expr,
        ty: ArgType,
        formal: Ty,
        phase: InvocationPhase,
    ) -> (InferCtx, Inference, bool)
        decreases arg, 16nat, List::<MethodData>::Nil,
    {
        match ty {
            Some(t) => (self, with_argument(table, t, formal, phase), true),
            None => self.leaf(db, site, table, arg, formal, phase),
        }
    }

    fn contribute_argument<D: TyDatabase>(
        &mut self,
        db: &D,
        site: &Site,
        table: &mut Inference,
        arg: &Expr,
        ty: &ArgType,
        formal: &Ty,
        phase: InvocationPhase,
    ) -> (r: bool)
        ensures
            (*final(self), *final(table), r) == old(self).argument(
                db,
                *site,
                *old(table),
                *arg,
                *ty,
                *formal,
                phase,
            ),
            final(self).frame() == old(self).frame(),
            final(self).exited == old(self).exited,
        decreases arg, 16nat, List::<MethodData>::Nil,
    {
        match ty {
            Some(t) => {
                add_argument(table, t, formal, phase);
                true
            },
            None => self.contribute_leaf(db, site, table, arg, formal, phase),
        }
    }

    /// What the leaves of a poly argument contribute.
    pub open spec fn leaf<D: TyDatabase>(
        self,
        db: &D,
        site: Site,
        table: Inference,
        arg: Expr,
        formal: Ty,
        phase: InvocationPhase,
    ) -> (InferCtx, Inference, bool)
        decreases arg, 15nat, List::<MethodData>::Nil,
    {
        match arg.kind {
            ExprKind::Lambda { params, body: _ } => match db.sam(formal) {
                None => (self, table, true),
                Some(sam) => {
                    let (s, value) = self.lambda_value(db, site, arg, sam);
                    match value {
                        None => (s, table, true),
                        Some(ty) => (s, with_lambda(db, site, table, ty, params, sam), true),
                    }
                },
            },
            ExprKind::MethodRef { qualifier: _, named: _, name: _ } => match db.sam(formal) {
                None => (self, table, true),
                Some(sam) => {
                    let (s, ret) = self.ref_return(db, site, arg, sam.params);
                    (s, with_reference(table, ret, sam), true)
                },
            },
            ExprKind::MethodCall { receiver: _, name: _, type_args: _, args: _ } => self.nested_call(
                db,
                site,
                table,
                arg,
                formal,
                phase,
            ),
            ExprKind::New { ty: _, args: _, diamond: _, anonymous: _, receiver: _ } => {
                let (s, t) = self.nested_new(db, site, table, arg, formal, phase);
                (s, t, true)
            },
            ExprKind::Paren(inner) => self.leaf(db, site, table, *inner, formal, phase),
            ExprKind::Conditional { cond: _, then_arm, else_arm } => {
                let (s, t, ok) = self.leaf(db, site, table, *then_arm, formal, phase);
                if ok {
                    s.leaf(db, site, t, *else_arm, formal, phase)
                } else {
                    (s, t, false)
                }
            },
            _ => (self, table, true),
        }
    }

    /// What the leaves of a poly argument contribute, and whether they can: an
    /// invocation without an applicable method cannot.
    pub fn contribute_leaf<D: TyDatabase>(
        &mut self,
        db: &D,
        site: &Site,
        table: &mut Inference,
        arg: &Expr,
        formal: &Ty,
        phase: InvocationPhase,
    ) -> (r: bool)
        ensures
            (*final(self), *final(table), r) == old(self).leaf(
                db,
                *site,
                *old(table),
                *arg,
                *formal,
                phase,
            ),
            final(self).frame() == old(self).frame(),
            final(self).exited == old(self).exited,
        decreases arg, 15nat, List::<MethodData>::Nil,
    {
        match &arg.kind {
            ExprKind::Lambda { params, body: _ } => match db.single_abstract_method(formal) {
                None => true,
                Some(sam) => {
                    if let Some(ty) = self.infer_lambda_body_result(db, site, arg, &sam) {
                        add_lambda(db, site, table, ty, params, &sam);
                    }
                    true
                },
            },
            ExprKind::MethodRef { qualifier: _, named: _, name: _ } => {
                match db.single_abstract_method(formal) {
                    None => true,
                    Some(sam) => {
                        let ret = self.method_ref_return(db, site, arg, &sam.params);
                        add_reference(table, &ret, &sam);
                        true
                    },
                }
            },
            ExprKind::MethodCall { receiver: _, name: _, type_args: _, args: _ } => {
                self.contribute_invocation(db, site, table, arg, formal, phase)
            },
            ExprKind::New { ty: _, args: _, diamond: _, anonymous: _, receiver: _ } => {
                self.contribute_diamond_new(db, site, table, arg, formal, phase);
                true
            },
            ExprKind::Paren(inner) => self.contribute_leaf(db, site, table, inner, formal, phase),
            ExprKind::Conditional { cond: _, then_arm, else_arm } => {
                if self.contribute_leaf(db, site, table, then_arm, formal, phase) {
                    self.contribute_leaf(db, site, table, else_arm, formal, phase)
                } else {
                    false
                }
            },
            _ => true,
        }
    }

    /// What an invocation contributes as an argument of another: the constraints
    /// of its method, chosen in the same phase, or else by variable arity.
    pub open spec fn nested_call<D: TyDatabase>(
        self,
        db: &D,
        site: Site,
        table: Inference,
        e: Expr,
        formal: Ty,
        phase: InvocationPhase,
    ) -> (InferCtx, Inference, bool)
        decreases e, 14nat, List::<MethodData>::Nil,
    {
        match e.kind {
            ExprKind::MethodCall { receiver: _, name, type_args, args } => {
                let (s, (receiver, mode, _)) = self.receiver(db, site, e);
                let members = db.members(receiver, name, in_mode(site.access, mode));
                let (s1, types) = s.arg_types(db, site, *args, false);
                let fixed = Trial {
                    phase,
                    varargs: false,
                    target: Some(formal),
                    explicit: explicit_types(db, site, type_args),
                    resolve: false,
                };
                let (s2, t2, ok) = s1.nested_choice(db, site, table, members, *args, types, fixed);
                if ok {
                    (s2, t2, true)
                } else {
                    s2.nested_choice(
                        db,
                        site,
                        t2,
                        members,
                        *args,
                        types,
                        Trial { varargs: true, ..fixed },
                    )
                }
            },
            _ => (self, table, true),
        }
    }

    /// What an invocation contributes as an argument of another.
    pub fn contribute_invocation<D: TyDatabase>(
        &mut self,
        db: &D,
        site: &Site,
        table: &mut Inference,
        e: &Expr,
        formal: &Ty,
        phase: InvocationPhase,
    ) -> (r: bool)
        ensures
            (*final(self), *final(table), r) == old(self).nested_call(
                db,
                *site,
                *old(table),
                *e,
                *formal,
                phase,
            ),
            final(self).frame() == old(self).frame(),
            final(self).exited == old(self).exited,
        decreases e, 14nat, List::<MethodData>::Nil,
    {
        match &e.kind {
            ExprKind::MethodCall { receiver: _, name, type_args, args } => {
                let (receiver, mode, _) = self.receiver_info(db, site, e);
                let access = site.access.with_mode(mode);
                let members = db.member_set(&receiver, *name, &access);
                let types = self.arg_kinds(db, site, args, false);
                let fixed = Trial {
                    phase,
                    varargs: false,
                    target: Some(formal.copy()),
                    explicit: explicit_type_args(db, site, type_args),
                    resolve: false,
                };
                if self.choose_nested_candidate(db, site, table, &members, args, &types, &fixed) {
                    return true;
                }
                let variable = Trial {
                    phase,
                    varargs: true,
                    target: fixed.target,
                    explicit: fixed.explicit,
                    resolve: false,
                };
                self.choose_nested_candidate(db, site, table, &members, args, &types, &variable)
            },
            _ => true,
        }
    }

    /// The constraints of the most specific applicable method, where there is
    /// one. Those of the others are dropped.
    pub open spec fn nested_choice<D: TyDatabase>(
        self,
        db: &D,
        site: Site,
        table: Inference,
        members: List<MethodData>,
        args: List<Expr>,
        types: List<ArgType>,
        trial: Trial,
    ) -> (InferCtx, Inference, bool)
        decreases args, 19nat, List::<MethodData>::Nil,
    {
        let (s, applicable) = self.applicable(db, site, table, members, args, types, trial);
        match most_specific(db, s.next_var, applicable, trial.varargs) {
            None => (s, table, false),
            Some(winner) => {
                let (s1, t1, _) = s.probed(true).candidate(
                    db,
                    site,
                    table,
                    winner,
                    args,
                    types,
                    trial,
                );
                (s1.probed(s.probing), t1, true)
            },
        }
    }

    /// The constraints of the most specific applicable method, where there is
    /// one.
    pub fn choose_nested_candidate<D: TyDatabase>(
        &mut self,
        db: &D,
        site: &Site,
        table: &mut Inference,
        members: &List<MethodData>,
        args: &List<Expr>,
        types: &List<ArgType>,
        trial: &Trial,
    ) -> (r: bool)
        ensures
            (*final(self), *final(table), r) == old(self).nested_choice(
                db,
                *site,
                *old(table),
                *members,
                *args,
                *types,
                *trial,
            ),
            final(self).frame() == old(self).frame(),
            final(self).exited == old(self).exited,
        decreases args, 19nat, List::<MethodData>::Nil,
    {
        proof {
            reveal(InferCtx::frame);
            reveal(InferCtx::probed);
        }
        let applicable = self.find_applicable(db, site, table, members, args, types, trial);
        match choose_most_specific(db, self.next_var, &applicable, trial.varargs) {
            None => false,
            Some(winner) => {
                let probing = self.set_probing(true);
                let _ = self.try_candidate(db, site, table, &winner, args, types, trial);
                let _ = self.set_probing(probing);
                true
            },
        }
    }

    /// What a creation without written type arguments contributes as an argument
    /// of an invocation: the created class over fresh variables, which its
    /// constructor constrains.
    pub open spec fn nested_new<D: TyDatabase>(
        self,
        db: &D,
        site: Site,
        table: Inference,
        e: Expr,
        formal: Ty,
        phase: InvocationPhase,
    ) -> (InferCtx, Inference)
        decreases e, 14nat, List::<MethodData>::Nil,
    {
        match e.kind {
            ExprKind::New { ty, args, diamond: _, anonymous: _, receiver: _ } => {
                match db.resolved_type(site.file, site.item, ty.shape) {
                    Ty::Reference { name, args: _, local: _ } => {
                        let params = class_params(db, site, name);
                        if params is Nil {
                            (self, table)
                        } else {
                            let r = registered(
                                Registered { table, next: self.next_var, subst: List::Nil },
                                params,
                            );
                            let created = Ty::Reference {
                                name,
                                args: Box::new(all_subst(vars_of(params), r.subst)),
                                local: None,
                            };
                            let generic = Ty::Reference {
                                name,
                                args: Box::new(vars_of(params)),
                                local: None,
                            };
                            let members = db.members(generic, ctor_name(db, name), site.access);
                            let (s, types) = (InferCtx { next_var: r.next, ..self }).arg_types(
                                db,
                                site,
                                *args,
                                false,
                            );
                            let (s1, t1) = s.nested_ctor(
                                db,
                                site,
                                r.table,
                                members,
                                *args,
                                types,
                                r.subst,
                                phase,
                            );
                            (s1, t1.plus_constraint(Constraint::Sub(created, formal)))
                        }
                    },
                    _ => (self, table),
                }
            },
            _ => (self, table),
        }
    }

    /// What a creation without written type arguments contributes as an argument
    /// of an invocation.
    pub fn contribute_diamond_new<D: TyDatabase>(
        &mut self,
        db: &D,
        site: &Site,
        table: &mut Inference,
        e: &Expr,
        formal: &Ty,
        phase: InvocationPhase,
    )
        ensures
            (*final(self), *final(table)) == old(self).nested_new(
                db,
                *site,
                *old(table),
                *e,
                *formal,
                phase,
            ),
            final(self).frame() == old(self).frame(),
            final(self).exited == old(self).exited,
        decreases e, 14nat, List::<MethodData>::Nil,
    {
        proof {
            reveal(InferCtx::frame);
        }
        if let ExprKind::New { ty, args, diamond: _, anonymous: _, receiver: _ } = &e.kind {
            if let Ty::Reference { name, args: _, local: _ } = db.resolve_type_ref(
                site.file,
                site.item,
                &ty.shape,
            ) {
                let params = class_type_param_bounds(db, site, name);
                if params.is_empty() {
                    return;
                }
                let mut supply = VarSupply { next: self.next_var };
                let subst = table.register_class_type_params(&mut supply, &params);
                self.next_var = supply.next;
                let vars = type_vars(&params);
                let created = Ty::reference(name, substitute_all(&vars, &subst));
                let members = db.member_set(
                    &Ty::reference(name, vars),
                    constructor_name(db, name),
                    &site.access,
                );
                let types = self.arg_kinds(db, site, args, false);
                self.add_nested_ctor(db, site, table, &members, args, &types, &subst, phase);
                table.add_constraint(Constraint::Sub(created, formal.copy()));
            }
        }
    }

    /// The constraints of the first constructor that the arguments are
    /// consistent with.
    pub open spec fn nested_ctor<D: TyDatabase>(
        self,
        db: &D,
        site: Site,
        table: Inference,
        members: List<MethodData>,
        args: List<Expr>,
        types: List<ArgType>,
        subst: Subst,
        phase: InvocationPhase,
    ) -> (InferCtx, Inference)
        decreases args, 18nat, members,
    {
        match members {
            List::Nil => (self, table),
            List::Cons(m, rest) => if m.params.count() != args.count() {
                self.nested_ctor(db, site, table, *rest, args, types, subst, phase)
            } else {
                let (s, t, ok) = self.fixed_args(
                    db,
                    site,
                    table,
                    args,
                    types,
                    all_subst(m.params, subst),
                    phase,
                );
                let (t1, consistent) = t.consistent(db, phase);
                if ok && consistent {
                    (s, t1)
                } else {
                    s.nested_ctor(db, site, table, *rest, args, types, subst, phase)
                }
            },
        }
    }

    fn add_nested_ctor<D: TyDatabase>(
        &mut self,
        db: &D,
        site: &Site,
        table: &mut Inference,
        members: &List<MethodData>,
        args: &List<Expr>,
        types: &List<ArgType>,
        subst: &Subst,
        phase: InvocationPhase,
    )
        ensures
            (*final(self), *final(table)) == old(self).nested_ctor(
                db,
                *site,
                *old(table),
                *members,
                *args,
                *types,
                *subst,
                phase,
            ),
            final(self).frame() == old(self).frame(),
            final(self).exited == old(self).exited,
        decreases args, 18nat, members,
    {
        match members {
            List::Nil => {},
            List::Cons(m, rest) => {
                if m.params.same_len(args) {
                    let base = table.snapshot();
                    let formals = substitute_all(&m.params, subst);
                    if self.add_fixed_args(db, site, table, args, types, &formals, phase) {
                        if table.check_consistent(db, phase) {
                            return;
                        }
                    }
                    table.restore(base);
                }
                self.add_nested_ctor(db, site, table, rest, args, types, subst, phase);
            },
        }
    }

    /// The class that a creation without written type arguments gets from the
    /// arguments of the first constructor that decides them all.
    pub open spec fn from_ctor_args<D: TyDatabase>(
        self,
        db: &D,
        site: Site,
        class: Ty,
        name: Name,
        params: List<MethodTypeParam>,
        members: List<MethodData>,
        args: List<Expr>,
        types: List<ArgType>,
    ) -> (InferCtx, Ty)
        decreases args, 18nat, members,
    {
        match members {
            List::Nil => (self, class),
            List::Cons(m, rest) => if m.params.count() != args.count() {
                self.from_ctor_args(db, site, class, name, params, *rest, args, types)
            } else {
                let r = registered(
                    Registered {
                        table: empty_table(),
                        next: self.next_var,
                        subst: List::Nil,
                    },
                    params,
                );
                let (s, t, ok) = (InferCtx { next_var: r.next, ..self }).fixed_args(
                    db,
                    site,
                    r.table,
                    args,
                    types,
                    all_subst(m.params, r.subst),
                    InvocationPhase::Loose,
                );
                let solution = if ok {
                    t.solved(db, InvocationPhase::Loose).1
                } else {
                    None
                };
                let binding = match solution {
                    Some(map) => resolved_params(r.subst, map),
                    None => None,
                };
                match binding {
                    Some(b) => (
                        s,
                        Ty::Reference {
                            name,
                            args: Box::new(all_subst(vars_of(params), b)),
                            local: None,
                        },
                    ),
                    None => s.from_ctor_args(db, site, class, name, params, *rest, args, types),
                }
            },
        }
    }

    fn instance_from_ctor_args<D: TyDatabase>(
        &mut self,
        db: &D,
        site: &Site,
        class: &Ty,
        name: Name,
        params: &List<MethodTypeParam>,
        members: &List<MethodData>,
        args: &List<Expr>,
        types: &List<ArgType>,
    ) -> (r: Ty)
        ensures
            (*final(self), r) == old(self).from_ctor_args(
                db,
                *site,
                *class,
                name,
                *params,
                *members,
                *args,
                *types,
            ),
            final(self).frame() == old(self).frame(),
            final(self).exited == old(self).exited,
        decreases args, 18nat, members,
    {
        proof {
            reveal(InferCtx::frame);
        }
        match members {
            List::Nil => class.copy(),
            List::Cons(m, rest) => {
                if m.params.same_len(args) {
                    let mut table = Inference::new();
                    let mut supply = VarSupply { next: self.next_var };
                    let subst = table.register_class_type_params(&mut supply, params);
                    self.next_var = supply.next;
                    let formals = substitute_all(&m.params, &subst);
                    if self.add_fixed_args(
                        db,
                        site,
                        &mut table,
                        args,
                        types,
                        &formals,
                        InvocationPhase::Loose,
                    ) {
                        if let Some(map) = table.solve_after(db, InvocationPhase::Loose) {
                            if let Some(b) = find_resolved_params(&subst, &map) {
                                return Ty::reference(name, substitute_all(&type_vars(params), &b));
                            }
                        }
                    }
                }
                self.instance_from_ctor_args(db, site, class, name, params, rest, args, types)
            },
        }
    }

    /// The class that a creation without written type arguments gets from the
    /// arguments of its constructor.
    pub open spec fn diamond_from_args<D: TyDatabase>(
        self,
        db: &D,
        site: Site,
        class: Ty,
        ctor: Name,
        args: List<Expr>,
        types: List<ArgType>,
    ) -> (InferCtx, Ty)
        decreases args, 19nat, List::<MethodData>::Nil,
    {
        match class {
            Ty::Reference { name, args: _, local: _ } => {
                let params = class_params(db, site, name);
                if params is Nil {
                    (self, class)
                } else {
                    let generic = Ty::Reference {
                        name,
                        args: Box::new(vars_of(params)),
                        local: None,
                    };
                    self.from_ctor_args(
                        db,
                        site,
                        class,
                        name,
                        params,
                        db.members(generic, ctor, site.access),
                        args,
                        types,
                    )
                }
            },
            _ => (self, class),
        }
    }

    /// The class that a creation without written type arguments gets from the
    /// arguments of its constructor.
    pub fn diamond_instantiation_from_ctor_args<D: TyDatabase>(
        &mut self,
        db: &D,
        site: &Site,
        class: Ty,
        ctor: Name,
        args: &List<Expr>,
        types: &List<ArgType>,
    ) -> (r: Ty)
        ensures
            (*final(self), r) == old(self).diamond_from_args(
                db,
                *site,
                class,
                ctor,
                *args,
                *types,
            ),
            final(self).frame() == old(self).frame(),
            final(self).exited == old(self).exited,
        decreases args, 19nat, List::<MethodData>::Nil,
    {
        let name = match &class {
            Ty::Reference { name, args: _, local: _ } => *name,
            _ => {
                return class;
            },
        };
        let params = class_type_param_bounds(db, site, name);
        if params.is_empty() {
            return class;
        }
        let generic = Ty::reference(name, type_vars(&params));
        let members = db.member_set(&generic, ctor, &site.access);
        self.instance_from_ctor_args(db, site, &class, name, &params, &members, args, types)
    }

    /// The poly arguments against the formal types of the method that was
    /// chosen.
    pub open spec fn against_formals<D: TyDatabase>(
        self,
        db: &D,
        site: Site,
        args: List<Expr>,
        formals: List<Ty>,
    ) -> InferCtx
        decreases args, 1nat, List::<MethodData>::Nil,
    {
        match (args, formals) {
            (List::Cons(a, at), List::Cons(f, ft)) => {
                let s = if poly_ext(*a) {
                    self.expr_to(db, site, *a, Some(*f)).0
                } else {
                    self
                };
                s.against_formals(db, site, *at, *ft)
            },
            _ => self,
        }
    }

    /// The poly arguments against the formal types of the method that was
    /// chosen.
    pub fn reinfer_deferred<D: TyDatabase>(
        &mut self,
        db: &D,
        site: &Site,
        args: &List<Expr>,
        formals: &List<Ty>,
    )
        ensures
            *final(self) == old(self).against_formals(db, *site, *args, *formals),
            final(self).frame() == old(self).frame(),
            final(self).exited == old(self).exited,
        decreases args, 1nat, List::<MethodData>::Nil,
    {
        match (args, formals) {
            (List::Cons(a, at), List::Cons(f, ft)) => {
                if expr_is_poly_ext(a) {
                    let _ = self.infer_against(db, site, a, Some(f.copy()));
                }
                self.reinfer_deferred(db, site, at, ft);
            },
            _ => {},
        }
    }

    /// The poly arguments without a target.
    pub open spec fn poly_alone<D: TyDatabase>(self, db: &D, site: Site, args: List<Expr>) -> InferCtx
        decreases args, 1nat, List::<MethodData>::Nil,
    {
        match args {
            List::Nil => self,
            List::Cons(a, rest) => {
                let s = if poly_ext(*a) {
                    self.expr_to(db, site, *a, None).0
                } else {
                    self
                };
                s.poly_alone(db, site, *rest)
            },
        }
    }

    /// The poly arguments without a target, where no method was chosen.
    pub fn reinfer_poly_standalone<D: TyDatabase>(&mut self, db: &D, site: &Site, args: &List<Expr>)
        ensures
            *final(self) == old(self).poly_alone(db, *site, *args),
            final(self).frame() == old(self).frame(),
            final(self).exited == old(self).exited,
        decreases args, 1nat, List::<MethodData>::Nil,
    {
        match args {
            List::Nil => {},
            List::Cons(a, rest) => {
                if expr_is_poly_ext(a) {
                    let _ = self.infer_against(db, site, a, None);
                }
                self.reinfer_poly_standalone(db, site, rest);
            },
        }
    }
}

/// Whether there are at least two more formal types than arguments.
fn is_longer_by_two(formals: &List<Ty>, args: &List<Expr>) -> (r: bool)
    ensures
        r == (formals.count() > args.count() + 1),
{
    match formals {
        List::Nil => false,
        List::Cons(_, t) => t.longer(args),
    }
}

proof fn lemma_applicable_are_members<D: TyDatabase>(
    s: InferCtx,
    db: &D,
    site: Site,
    table: Inference,
    members: List<MethodData>,
    args: List<Expr>,
    types: List<ArgType>,
    trial: Trial,
    c: Candidate,
)
    requires
        s.applicable(db, site, table, members, args, types, trial).1.has(c),
    ensures
        members.has(c.0),
    decreases members,
{
    if let List::Cons(m, rest) = members {
        let (s1, out) = s.probe(db, site, table, *m, args, types, trial);
        let more = s1.applicable(db, site, table, *rest, args, types, trial).1;
        if more.has(c) {
            lemma_applicable_are_members(s1, db, site, table, *rest, args, types, trial, c);
        }
    }
}

/// What a phase selects is one of the members.
pub proof fn law_phase_selects_a_member<D: TyDatabase>(
    s: InferCtx,
    db: &D,
    site: Site,
    members: List<MethodData>,
    args: List<Expr>,
    types: List<ArgType>,
    trial: Trial,
)
    ensures
        match s.in_phase(db, site, members, args, types, trial).1 {
            CallResolution::Selected { candidate, invocation: _, varargs } => members.has(candidate)
                && varargs == trial.varargs,
            _ => true,
        },
{
    let (s1, applicable) = s.applicable(
        db,
        site,
        empty_table(),
        members,
        args,
        types,
        trial,
    );
    law_selection_is_applicable(db, s1.next_var, applicable, trial.varargs);
    if let CallResolution::Selected { candidate, invocation, varargs: _ } = chosen(
        db,
        s1.next_var,
        applicable,
        trial.varargs,
    ) {
        lemma_applicable_are_members(
            s,
            db,
            site,
            empty_table(),
            members,
            args,
            types,
            trial,
            (candidate, invocation),
        );
    }
}

/// The method that an invocation means is one of the members that it was looked
/// for among.
pub proof fn law_call_selects_a_member<D: TyDatabase>(
    s: InferCtx,
    db: &D,
    site: Site,
    members: List<MethodData>,
    args: List<Expr>,
    types: List<ArgType>,
    target: Option<Ty>,
    explicit: Option<List<Ty>>,
)
    ensures
        match s.resolved_call(db, site, members, args, types, target, explicit).1 {
            CallResolution::Selected { candidate, invocation: _, varargs: _ } => members.has(
                candidate,
            ),
            _ => true,
        },
{
    let strict = Trial {
        phase: InvocationPhase::Strict,
        varargs: false,
        target,
        explicit,
        resolve: true,
    };
    let loose = Trial { phase: InvocationPhase::Loose, ..strict };
    let variable = Trial { varargs: true, ..loose };
    let s1 = s.in_phase(db, site, members, args, types, strict).0;
    let s2 = s1.in_phase(db, site, members, args, types, loose).0;
    law_phase_selects_a_member(s, db, site, members, args, types, strict);
    law_phase_selects_a_member(s1, db, site, members, args, types, loose);
    law_phase_selects_a_member(s2, db, site, members, args, types, variable);
}

} // verus!
