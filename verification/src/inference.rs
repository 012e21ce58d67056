//! Method invocation type inference: the type parameters of an invoked method
//! become inference variables, the arguments are related to the formal types
//! by constraints, the constraints are reduced to bounds of the variables, and
//! the bounds are resolved to types.
pub mod incorporate;
pub mod instantiation;
pub mod limit;
pub mod lub;
pub mod proper;
pub mod reduce;
pub mod resolve;
pub mod variable;

use crate::list::{lemma_with_has, Data, List};
use crate::member::{MethodData, MethodTypeParam};
use crate::names::Name;
use crate::ty::{all_subst, class_of, substitute_all, Subst, Ty, VarMap};
use vstd::prelude::*;

verus! {

/// Which conversions an invocation admits: strict invocation has no boxing,
/// loose invocation has.
#[derive(Clone, Copy, Debug, PartialEq, Eq, Structural)]
pub enum InvocationPhase {
    Strict,
    Loose,
}

/// A constraint formula: the first type is compatible with the second, or the
/// two are the same type.
#[derive(Debug, PartialEq, Eq)]
pub enum Constraint {
    Sub(Ty, Ty),
    Eq(Ty, Ty),
}

impl Data for Constraint {
    fn copy(&self) -> (r: Self) {
        match self {
            Constraint::Sub(s, t) => Constraint::Sub(s.copy(), t.copy()),
            Constraint::Eq(s, t) => Constraint::Eq(s.copy(), t.copy()),
        }
    }

    fn same(&self, other: &Self) -> (r: bool) {
        match (self, other) {
            (Constraint::Sub(s, t), Constraint::Sub(s2, t2)) => s.same(s2) && t.same(t2),
            (Constraint::Eq(s, t), Constraint::Eq(s2, t2)) => s.same(s2) && t.same(t2),
            _ => false,
        }
    }
}

/// The bounds of one inference variable.
#[derive(Debug, PartialEq, Eq)]
pub struct Bounds {
    pub id: u64,
    pub upper: List<Ty>,
    pub lower: List<Ty>,
    pub equality: Option<Ty>,
}

impl Data for Bounds {
    fn copy(&self) -> (r: Self) {
        Bounds {
            id: self.id,
            upper: self.upper.copy(),
            lower: self.lower.copy(),
            equality: self.equality.copy(),
        }
    }

    fn same(&self, other: &Self) -> (r: bool) {
        self.id == other.id && self.upper.same(&other.upper) && self.lower.same(&other.lower)
            && self.equality.same(&other.equality)
    }
}

/// An inference table.
#[derive(Debug, PartialEq, Eq)]
pub struct Inference {
    /// The variables with their bounds, in the order they were introduced.
    pub bounds: List<Bounds>,
    /// The variables that appear in a `throws` clause.
    pub throws: List<u64>,
    /// The variables that were replaced by the type they are equal to.
    pub applied: VarMap,
    /// The constraints that are not reduced yet.
    pub worklist: List<Constraint>,
}

/// The source of fresh inference variables.
#[derive(Clone, Copy, Debug, PartialEq, Eq)]
pub struct VarSupply {
    pub next: u64,
}

/// The number after `n`; after the last one they start over.
pub open spec fn succ(n: u64) -> u64 {
    if n == u64::MAX {
        0
    } else {
        (n + 1) as u64
    }
}

/// The bounds of the variable `id`.
pub open spec fn find(l: List<Bounds>, id: u64) -> Option<Bounds>
    decreases l,
{
    match l {
        List::Nil => None,
        List::Cons(h, t) => if h.id == id {
            Some(*h)
        } else {
            find(*t, id)
        },
    }
}

/// The bounds of `id`, or none yet.
pub open spec fn entry(l: List<Bounds>, id: u64) -> Bounds {
    match find(l, id) {
        Some(b) => b,
        None => Bounds { id, upper: List::Nil, lower: List::Nil, equality: None },
    }
}

/// The table with the bounds of one variable replaced, or added behind the
/// others.
pub open spec fn put(l: List<Bounds>, b: Bounds) -> List<Bounds>
    decreases l,
{
    match l {
        List::Nil => List::Cons(Box::new(b), Box::new(List::Nil)),
        List::Cons(h, t) => if h.id == b.id {
            List::Cons(Box::new(b), t)
        } else {
            List::Cons(h, Box::new(put(*t, b)))
        },
    }
}

pub fn find_bounds(l: &List<Bounds>, id: u64) -> (r: Option<Bounds>)
    ensures
        r == find(*l, id),
    decreases l,
{
    match l {
        List::Nil => None,
        List::Cons(h, t) => if h.id == id {
            Some(h.copy())
        } else {
            find_bounds(t, id)
        },
    }
}

pub fn bounds_entry(l: &List<Bounds>, id: u64) -> (r: Bounds)
    ensures
        r == entry(*l, id),
{
    match find_bounds(l, id) {
        Some(b) => b,
        None => Bounds { id, upper: List::Nil, lower: List::Nil, equality: None },
    }
}

pub fn put_bounds(l: &List<Bounds>, b: Bounds) -> (r: List<Bounds>)
    ensures
        r == put(*l, b),
    decreases l,
{
    match l {
        List::Nil => List::cons(b, List::Nil),
        List::Cons(h, t) => if h.id == b.id {
            List::cons(b, t.copy())
        } else {
            List::cons(h.copy(), put_bounds(t, b))
        },
    }
}

/// Reading the bounds that were written last gives them back, and those of
/// the other variables stay.
pub proof fn lemma_put_find(l: List<Bounds>, b: Bounds, id: u64)
    ensures
        find(put(l, b), b.id) == Some(b),
        id != b.id ==> find(put(l, b), id) == find(l, id),
    decreases l,
{
    if let List::Cons(_, t) = l {
        lemma_put_find(*t, b, id);
    }
}

impl Inference {
    /// The table with an upper bound more.
    pub open spec fn plus_upper(self, id: u64, t: Ty) -> Inference {
        let e = entry(self.bounds, id);
        Inference { bounds: put(self.bounds, Bounds { upper: e.upper.with(t), ..e }), ..self }
    }

    /// The table with a lower bound more.
    pub open spec fn plus_lower(self, id: u64, t: Ty) -> Inference {
        let e = entry(self.bounds, id);
        Inference { bounds: put(self.bounds, Bounds { lower: e.lower.with(t), ..e }), ..self }
    }

    /// The table with a constraint more to reduce.
    pub open spec fn plus_constraint(self, c: Constraint) -> Inference {
        Inference { worklist: self.worklist.with(c), ..self }
    }

    /// The table with each of the upper bounds added.
    pub open spec fn plus_uppers(self, id: u64, l: List<Ty>) -> Inference
        decreases l,
    {
        match l {
            List::Nil => self,
            List::Cons(h, t) => self.plus_upper(id, *h).plus_uppers(id, *t),
        }
    }

    /// The table with a variable that has no bounds yet.
    pub open spec fn with_var(self, id: u64) -> Inference {
        Inference { bounds: put(self.bounds, entry(self.bounds, id)), ..self }
    }

    /// The table with the variable among those that are thrown.
    pub open spec fn with_throws(self, id: u64) -> Inference {
        if self.throws.has(id) {
            self
        } else {
            Inference { throws: self.throws.with(id), ..self }
        }
    }

    /// The table without variables or constraints.
    pub fn new() -> (r: Inference)
        ensures
            r == (Inference {
                bounds: List::Nil,
                throws: List::Nil,
                applied: List::Nil,
                worklist: List::Nil,
            }),
    {
        Inference {
            bounds: List::Nil,
            throws: List::Nil,
            applied: List::Nil,
            worklist: List::Nil,
        }
    }

    /// A fresh inference variable with no bounds yet.
    pub fn fresh_var(&mut self, supply: &mut VarSupply) -> (r: Ty)
        ensures
            r == Ty::InferenceVar(old(supply).next),
            final(supply).next == succ(old(supply).next),
            *final(self) == old(self).with_var(old(supply).next),
    {
        let id: u64 = supply.next;
        supply.next = if id == u64::MAX {
            0
        } else {
            id + 1
        };
        let e = bounds_entry(&self.bounds, id);
        self.bounds = put_bounds(&self.bounds, e);
        Ty::InferenceVar(id)
    }

    /// Adds the upper bound `id <: bound`.
    pub fn add_upper(&mut self, id: u64, bound: Ty)
        ensures
            *final(self) == old(self).plus_upper(id, bound),
    {
        let e = bounds_entry(&self.bounds, id);
        let b = Bounds {
            id: e.id,
            upper: e.upper.push(bound),
            lower: e.lower,
            equality: e.equality,
        };
        self.bounds = put_bounds(&self.bounds, b);
    }

    /// Adds the lower bound `bound <: id`.
    pub(crate) fn add_lower(&mut self, id: u64, bound: Ty)
        ensures
            *final(self) == old(self).plus_lower(id, bound),
    {
        let e = bounds_entry(&self.bounds, id);
        let b = Bounds {
            id: e.id,
            upper: e.upper,
            lower: e.lower.push(bound),
            equality: e.equality,
        };
        self.bounds = put_bounds(&self.bounds, b);
    }

    fn add_uppers(&mut self, id: u64, bounds: &List<Ty>)
        ensures
            *final(self) == old(self).plus_uppers(id, *bounds),
        decreases bounds,
    {
        match bounds {
            List::Nil => {},
            List::Cons(h, t) => {
                self.add_upper(id, h.copy());
                self.add_uppers(id, t);
            },
        }
    }

    /// Records that the variable appears in a `throws` clause.
    pub fn mark_throws(&mut self, id: u64)
        ensures
            *final(self) == old(self).with_throws(id),
    {
        if !self.throws.contains(&id) {
            self.throws = self.throws.copy().push(id);
        }
    }

    /// Adds a constraint to be reduced later.
    pub fn add_constraint(&mut self, c: Constraint)
        ensures
            *final(self) == old(self).plus_constraint(c),
    {
        self.worklist = self.worklist.copy().push(c);
    }

    /// The state of the table, to come back to.
    pub fn snapshot(&self) -> (r: Inference)
        ensures
            r == *self,
    {
        Inference {
            bounds: self.bounds.copy(),
            throws: self.throws.copy(),
            applied: self.applied.copy(),
            worklist: self.worklist.copy(),
        }
    }

    /// Brings the table back to a snapshot.
    pub fn restore(&mut self, snapshot: Inference)
        ensures
            *final(self) == snapshot,
    {
        *self = snapshot;
    }
}

/// A table with the supply of its fresh variables and the variables that
/// stand for type parameters.
pub struct Registered {
    pub table: Inference,
    pub next: u64,
    pub subst: Subst,
}

/// The upper bounds of a type parameter: its declared bounds, or `Object`.
pub open spec fn declared_bounds(bounds: List<Ty>, subst: Subst) -> List<Ty> {
    match bounds {
        List::Nil => List::Cons(Box::new(class_of(Name::Object)), Box::new(List::Nil)),
        _ => all_subst(bounds, subst),
    }
}

/// The table with one type parameter after the other made a fresh variable.
/// A declared bound may mention the parameter itself and those before it.
pub open spec fn registered(r: Registered, params: List<MethodTypeParam>) -> Registered
    decreases params,
{
    match params {
        List::Nil => r,
        List::Cons(p, rest) => {
            let id = r.next;
            let subst = List::Cons(Box::new((p.scope, Ty::InferenceVar(id))), Box::new(r.subst));
            registered(
                Registered {
                    table: r.table.with_var(id).plus_uppers(id, declared_bounds(p.bounds, subst)),
                    next: succ(r.next),
                    subst,
                },
                *rest,
            )
        },
    }
}

/// The table with the variables among the types marked as thrown.
pub open spec fn throwing(table: Inference, l: List<Ty>) -> Inference
    decreases l,
{
    match l {
        List::Nil => table,
        List::Cons(h, t) => match *h {
            Ty::InferenceVar(id) => throwing(table.with_throws(id), *t),
            _ => throwing(table, *t),
        },
    }
}

impl Inference {
    fn register_params(
        &mut self,
        supply: &mut VarSupply,
        params: &List<MethodTypeParam>,
        subst: Subst,
    ) -> (r: Subst)
        ensures
            ({
                let out = registered(
                    Registered { table: *old(self), next: old(supply).next, subst },
                    *params,
                );
                &&& *final(self) == out.table
                &&& final(supply).next == out.next
                &&& r == out.subst
            }),
        decreases params,
    {
        match params {
            List::Nil => subst,
            List::Cons(p, rest) => {
                let id: u64 = supply.next;
                let var = self.fresh_var(supply);
                let subst = List::cons((p.scope, var), subst);
                let bounds = if p.bounds.is_empty() {
                    List::cons(Ty::class(Name::Object), List::Nil)
                } else {
                    substitute_all(&p.bounds, &subst)
                };
                self.add_uppers(id, &bounds);
                self.register_params(supply, rest, subst)
            },
        }
    }

    /// Makes the type parameters of a class fresh variables with their
    /// declared bounds, and returns the variables that stand for them.
    pub fn register_class_type_params(
        &mut self,
        supply: &mut VarSupply,
        params: &List<MethodTypeParam>,
    ) -> (r: Subst)
        ensures
            ({
                let out = registered(
                    Registered { table: *old(self), next: old(supply).next, subst: List::Nil },
                    *params,
                );
                &&& *final(self) == out.table
                &&& final(supply).next == out.next
                &&& r == out.subst
            }),
    {
        self.register_params(supply, params, List::Nil)
    }

    /// Marks the variables among the thrown types.
    pub(crate) fn mark_all_throws(&mut self, thrown: &List<Ty>)
        ensures
            *final(self) == throwing(*old(self), *thrown),
        decreases thrown,
    {
        match thrown {
            List::Nil => {},
            List::Cons(h, t) => {
                match &**h {
                    Ty::InferenceVar(id) => self.mark_throws(*id),
                    _ => {},
                }
                self.mark_all_throws(t);
            },
        }
    }
}

/// A method whose type parameters are variables of a table: the table, and
/// the signature over the variables.
pub struct RegisteredMethod {
    pub table: Inference,
    pub next: u64,
    pub formals: List<Ty>,
    pub ret: Ty,
    pub throws: List<Ty>,
}

/// The method registered in the table.
pub open spec fn registered_method(table: Inference, next: u64, m: MethodData) -> RegisteredMethod {
    let r = registered(Registered { table, next, subst: List::Nil }, m.type_params);
    let throws = all_subst(m.throws, r.subst);
    RegisteredMethod {
        table: throwing(r.table, throws),
        next: r.next,
        formals: all_subst(m.params, r.subst),
        ret: m.ret.subst(r.subst),
        throws,
    }
}

impl Inference {
    /// Makes the type parameters of a method fresh variables with their
    /// declared bounds, and returns its formal types, its return type and its
    /// thrown types over them.
    pub fn register_method(&mut self, supply: &mut VarSupply, method: &MethodData) -> (r: (
        List<Ty>,
        Ty,
        List<Ty>,
    ))
        ensures
            ({
                let out = registered_method(*old(self), old(supply).next, *method);
                &&& *final(self) == out.table
                &&& final(supply).next == out.next
                &&& r == (out.formals, out.ret, out.throws)
            }),
    {
        let subst = self.register_params(supply, &method.type_params, List::Nil);
        let formals = substitute_all(&method.params, &subst);
        let ret = method.ret.substitute(&subst);
        let throws = substitute_all(&method.throws, &subst);
        self.mark_all_throws(&throws);
        (formals, ret, throws)
    }
}

proof fn lemma_find_id(l: List<Bounds>, id: u64)
    ensures
        entry(l, id).id == id,
    decreases l,
{
    if let List::Cons(_, t) = l {
        lemma_find_id(*t, id);
    }
}

/// A bound that is added joins the bounds of its variable, and those of every
/// other variable stay as they are.
pub proof fn law_bounds_accumulate(table: Inference, id: u64, t: Ty, bound: Ty, other: u64)
    ensures
        entry(table.plus_upper(id, t).bounds, id).upper.has(bound) == (entry(
            table.bounds,
            id,
        ).upper.has(bound) || bound == t),
        entry(table.plus_lower(id, t).bounds, id).lower.has(bound) == (entry(
            table.bounds,
            id,
        ).lower.has(bound) || bound == t),
        other != id ==> entry(table.plus_upper(id, t).bounds, other) == entry(table.bounds, other),
        other != id ==> entry(table.plus_lower(id, t).bounds, other) == entry(table.bounds, other),
{
    let e = entry(table.bounds, id);
    lemma_find_id(table.bounds, id);
    lemma_put_find(table.bounds, Bounds { upper: e.upper.with(t), ..e }, other);
    lemma_put_find(table.bounds, Bounds { lower: e.lower.with(t), ..e }, other);
    lemma_with_has(e.upper, t, bound);
    lemma_with_has(e.lower, t, bound);
}

} // verus!
