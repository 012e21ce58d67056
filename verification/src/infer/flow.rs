//! What is known of the variables at a point of a body.
use crate::list::{Data, List};
use crate::names::Name;
use vstd::prelude::*;

verus! {

/// The local variables that have a value on every path to a point, and the
/// blank final fields that were assigned on some path.
#[derive(Debug, PartialEq, Eq)]
pub struct Flow {
    pub definite: List<u32>,
    pub touched: List<Name>,
}

/// The list with an element, where it is new.
pub open spec fn with_elem<T>(l: List<T>, x: T) -> List<T> {
    if l.has(x) {
        l
    } else {
        List::Cons(Box::new(x), Box::new(l))
    }
}

/// The list with an element, where it is new.
pub fn add_elem<T: Data>(l: &List<T>, x: T) -> (r: List<T>)
    ensures
        r == with_elem(*l, x),
{
    if l.contains(&x) {
        l.copy()
    } else {
        List::cons(x, l.copy())
    }
}

/// The list without an element.
pub open spec fn without_elem<T>(l: List<T>, x: T) -> List<T>
    decreases l,
{
    match l {
        List::Nil => List::Nil,
        List::Cons(h, t) => if *h == x {
            without_elem(*t, x)
        } else {
            List::Cons(h, Box::new(without_elem(*t, x)))
        },
    }
}

pub fn drop_elem<T: Data>(l: &List<T>, x: &T) -> (r: List<T>)
    ensures
        r == without_elem(*l, *x),
    decreases l,
{
    match l {
        List::Nil => List::Nil,
        List::Cons(h, t) => if h.same(x) {
            drop_elem(t, x)
        } else {
            List::cons(h.copy(), drop_elem(t, x))
        },
    }
}

/// The elements of the first list that are in the second.
pub open spec fn common<T>(a: List<T>, b: List<T>) -> List<T>
    decreases a,
{
    match a {
        List::Nil => List::Nil,
        List::Cons(h, t) => if b.has(*h) {
            List::Cons(h, Box::new(common(*t, b)))
        } else {
            common(*t, b)
        },
    }
}

pub fn intersect<T: Data>(a: &List<T>, b: &List<T>) -> (r: List<T>)
    ensures
        r == common(*a, *b),
    decreases a,
{
    match a {
        List::Nil => List::Nil,
        List::Cons(h, t) => if b.contains(h) {
            List::cons(h.copy(), intersect(t, b))
        } else {
            intersect(t, b)
        },
    }
}

/// The first list with the elements of the second.
pub open spec fn union<T>(a: List<T>, b: List<T>) -> List<T>
    decreases b,
{
    match b {
        List::Nil => a,
        List::Cons(h, t) => with_elem(union(a, *t), *h),
    }
}

pub fn unite<T: Data>(a: &List<T>, b: &List<T>) -> (r: List<T>)
    ensures
        r == union(*a, *b),
    decreases b,
{
    match b {
        List::Nil => a.copy(),
        List::Cons(h, t) => {
            let rest = unite(a, t);
            add_elem(&rest, h.copy())
        },
    }
}

proof fn lemma_common<T>(a: List<T>, b: List<T>, x: T)
    ensures
        common(a, b).has(x) == (a.has(x) && b.has(x)),
    decreases a,
{
    if let List::Cons(_, t) = a {
        lemma_common(*t, b, x);
    }
}

proof fn lemma_union<T>(a: List<T>, b: List<T>, x: T)
    ensures
        union(a, b).has(x) == (a.has(x) || b.has(x)),
    decreases b,
{
    if let List::Cons(_, t) = b {
        lemma_union(a, *t, x);
    }
}

proof fn lemma_without<T>(l: List<T>, x: T, y: T)
    ensures
        without_elem(l, x).has(y) == (l.has(y) && y != x),
    decreases l,
{
    if let List::Cons(_, t) = l {
        lemma_without(*t, x, y);
    }
}

impl Data for Flow {
    fn copy(&self) -> (r: Self) {
        Flow { definite: self.definite.copy(), touched: self.touched.copy() }
    }

    fn same(&self, other: &Self) -> (r: bool) {
        self.definite.same(&other.definite) && self.touched.same(&other.touched)
    }
}

impl Flow {
    /// The variable has a value.
    pub open spec fn set(self, local: u32) -> Flow {
        Flow { definite: with_elem(self.definite, local), ..self }
    }

    /// The variable has no value.
    pub open spec fn unset(self, local: u32) -> Flow {
        Flow { definite: without_elem(self.definite, local), ..self }
    }

    /// The field was assigned.
    pub open spec fn touch(self, field: Name) -> Flow {
        Flow { touched: with_elem(self.touched, field), ..self }
    }

    /// The fields were assigned.
    pub open spec fn touch_all(self, fields: List<Name>) -> Flow {
        Flow { touched: union(self.touched, fields), ..self }
    }

    /// Where two paths meet: a variable has a value if it has one on both, and
    /// a field was assigned if it was on either.
    pub open spec fn join(self, other: Flow) -> Flow {
        Flow {
            definite: common(self.definite, other.definite),
            touched: union(self.touched, other.touched),
        }
    }

    /// What is known here and there together.
    pub open spec fn with_known(self, other: Flow) -> Flow {
        Flow {
            definite: union(self.definite, other.definite),
            touched: union(self.touched, other.touched),
        }
    }

    /// What is known here and there together.
    pub fn extend(&self, other: &Flow) -> (r: Flow)
        ensures
            r == self.with_known(*other),
    {
        Flow {
            definite: unite(&self.definite, &other.definite),
            touched: unite(&self.touched, &other.touched),
        }
    }

    /// The variable has a value.
    pub fn insert(&self, local: u32) -> (r: Flow)
        ensures
            r == self.set(local),
    {
        Flow { definite: add_elem(&self.definite, local), touched: self.touched.copy() }
    }

    /// The variable has no value.
    pub fn remove(&self, local: u32) -> (r: Flow)
        ensures
            r == self.unset(local),
    {
        Flow { definite: drop_elem(&self.definite, &local), touched: self.touched.copy() }
    }

    /// The field was assigned.
    pub fn touch_field(&self, field: Name) -> (r: Flow)
        ensures
            r == self.touch(field),
    {
        Flow { definite: self.definite.copy(), touched: add_elem(&self.touched, field) }
    }

    /// The fields were assigned.
    pub fn touch_fields(&self, fields: &List<Name>) -> (r: Flow)
        ensures
            r == self.touch_all(*fields),
    {
        Flow { definite: self.definite.copy(), touched: unite(&self.touched, fields) }
    }

    /// Where two paths meet.
    pub fn join_definite(&self, other: &Flow) -> (r: Flow)
        ensures
            r == self.join(*other),
    {
        Flow {
            definite: intersect(&self.definite, &other.definite),
            touched: unite(&self.touched, &other.touched),
        }
    }
}

/// The join of the flows, latest first, where there are any.
pub open spec fn join_all(flows: List<Flow>) -> Option<Flow>
    decreases flows,
{
    match flows {
        List::Nil => None,
        List::Cons(h, t) => match join_all(*t) {
            None => Some(*h),
            Some(earlier) => Some(earlier.join(*h)),
        },
    }
}

/// The flows that leave a statement by `break`, latest first.
#[derive(Debug, PartialEq, Eq)]
pub struct BreakFrame {
    pub label: Option<Name>,
    pub flows: List<Flow>,
}

impl Data for BreakFrame {
    fn copy(&self) -> (r: Self) {
        BreakFrame { label: self.label, flows: self.flows.copy() }
    }

    fn same(&self, other: &Self) -> (r: bool) {
        self.label.same(&other.label) && self.flows.same(&other.flows)
    }
}

/// The join of the flows, where there are any.
pub fn joined(flows: &List<Flow>) -> (r: Option<Flow>)
    ensures
        r == join_all(*flows),
    decreases flows,
{
    match flows {
        List::Nil => None,
        List::Cons(h, t) => match joined(t) {
            None => Some(h.copy()),
            Some(earlier) => Some(earlier.join_definite(h)),
        },
    }
}

/// The join of the flows of paths that go on, latest first: of each path, the
/// flow at its end and whether it leaves the statement before that.
pub open spec fn join_live(paths: List<(Flow, bool)>) -> Option<Flow>
    decreases paths,
{
    match paths {
        List::Nil => None,
        List::Cons(h, t) => if h.1 {
            join_live(*t)
        } else {
            match join_live(*t) {
                None => Some(h.0),
                Some(earlier) => Some(earlier.join(h.0)),
            }
        },
    }
}

pub fn joined_live(paths: &List<(Flow, bool)>) -> (r: Option<Flow>)
    ensures
        r == join_live(*paths),
    decreases paths,
{
    match paths {
        List::Nil => None,
        List::Cons(h, t) => {
            let rest = joined_live(t);
            if h.1 {
                rest
            } else {
                match rest {
                    None => Some(h.0.copy()),
                    Some(earlier) => Some(earlier.join_definite(&h.0)),
                }
            }
        },
    }
}

/// Whether no path goes on.
pub open spec fn none_live(paths: List<(Flow, bool)>) -> bool
    decreases paths,
{
    match paths {
        List::Nil => true,
        List::Cons(h, t) => h.1 && none_live(*t),
    }
}

pub fn is_none_live(paths: &List<(Flow, bool)>) -> (r: bool)
    ensures
        r == none_live(*paths),
    decreases paths,
{
    match paths {
        List::Nil => true,
        List::Cons(h, t) => h.1 && is_none_live(t),
    }
}

/// After a join a variable has a value exactly when it has one on both paths,
/// and a field was assigned exactly when it was on one of them.
pub proof fn law_join_members(a: Flow, b: Flow, local: u32, field: Name)
    ensures
        a.join(b).definite.has(local) == (a.definite.has(local) && b.definite.has(local)),
        a.join(b).touched.has(field) == (a.touched.has(field) || b.touched.has(field)),
{
    lemma_common(a.definite, b.definite, local);
    lemma_union(a.touched, b.touched, field);
}

/// A variable has a value after it is set, none after it is unset, and the
/// other variables stay as they were.
pub proof fn law_set_and_unset(f: Flow, local: u32, other: u32)
    ensures
        f.set(local).definite.has(local),
        !f.unset(local).definite.has(local),
        other != local ==> f.set(local).definite.has(other) == f.definite.has(other),
        other != local ==> f.unset(local).definite.has(other) == f.definite.has(other),
{
    lemma_without(f.definite, local, local);
    lemma_without(f.definite, local, other);
}

/// What holds on every path that goes on holds where they meet, and nothing
/// else does.
pub proof fn law_join_live_members(paths: List<(Flow, bool)>, local: u32)
    ensures
        match join_live(paths) {
            Some(f) => f.definite.has(local) == on_every_live(paths, local),
            None => none_live(paths),
        },
    decreases paths,
{
    if let List::Cons(h, t) = paths {
        law_join_live_members(*t, local);
        if !h.1 {
            match join_live(*t) {
                None => {
                    lemma_none_live(*t, local);
                },
                Some(earlier) => {
                    lemma_common(earlier.definite, h.0.definite, local);
                },
            }
        }
    }
}

proof fn lemma_none_live(paths: List<(Flow, bool)>, local: u32)
    requires
        none_live(paths),
    ensures
        on_every_live(paths, local),
    decreases paths,
{
    if let List::Cons(_, t) = paths {
        lemma_none_live(*t, local);
    }
}

/// Whether the variable has a value at the end of every path that goes on.
pub open spec fn on_every_live(paths: List<(Flow, bool)>, local: u32) -> bool
    decreases paths,
{
    match paths {
        List::Nil => true,
        List::Cons(h, t) => (h.1 || h.0.definite.has(local)) && on_every_live(*t, local),
    }
}

} // verus!
