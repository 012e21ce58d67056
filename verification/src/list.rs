//! A persistent singly linked list. Two lists are the same value exactly when
//! they hold the same elements in the same order, so contracts can speak of
//! lists with plain equality.
use vstd::prelude::*;

verus! {

/// A value that can be copied and compared exactly.
pub trait Data: Sized {
    /// A copy of the value.
    fn copy(&self) -> (r: Self)
        ensures
            r == *self,
    ;

    /// Whether two values are the same.
    fn same(&self, other: &Self) -> (r: bool)
        ensures
            r == (*self == *other),
    ;
}

impl Data for u64 {
    fn copy(&self) -> (r: Self) {
        *self
    }

    fn same(&self, other: &Self) -> (r: bool) {
        *self == *other
    }
}

impl Data for u32 {
    fn copy(&self) -> (r: Self) {
        *self
    }

    fn same(&self, other: &Self) -> (r: bool) {
        *self == *other
    }
}

impl Data for u8 {
    fn copy(&self) -> (r: Self) {
        *self
    }

    fn same(&self, other: &Self) -> (r: bool) {
        *self == *other
    }
}

impl Data for bool {
    fn copy(&self) -> (r: Self) {
        *self
    }

    fn same(&self, other: &Self) -> (r: bool) {
        *self == *other
    }
}

impl<T: Data> Data for Option<T> {
    fn copy(&self) -> (r: Self) {
        match self {
            None => None,
            Some(x) => Some(x.copy()),
        }
    }

    fn same(&self, other: &Self) -> (r: bool) {
        match (self, other) {
            (None, None) => true,
            (Some(x), Some(y)) => x.same(y),
            _ => false,
        }
    }
}

impl<A: Data, B: Data> Data for (A, B) {
    fn copy(&self) -> (r: Self) {
        (self.0.copy(), self.1.copy())
    }

    fn same(&self, other: &Self) -> (r: bool) {
        self.0.same(&other.0) && self.1.same(&other.1)
    }
}

/// A persistent list.
#[derive(Debug, PartialEq, Eq)]
pub enum List<T> {
    Nil,
    Cons(Box<T>, Box<List<T>>),
}

impl<T> List<T> {
    /// The elements, first to last.
    pub open spec fn seq(self) -> Seq<T>
        decreases self,
    {
        match self {
            List::Nil => Seq::empty(),
            List::Cons(h, t) => seq![*h] + t.seq(),
        }
    }

    /// The number of elements.
    pub open spec fn count(self) -> nat
        decreases self,
    {
        match self {
            List::Nil => 0,
            List::Cons(_, t) => 1 + t.count(),
        }
    }

    /// Whether `x` is one of the elements.
    pub open spec fn has(self, x: T) -> bool
        decreases self,
    {
        match self {
            List::Nil => false,
            List::Cons(h, t) => *h == x || t.has(x),
        }
    }

    /// This list followed by `other`.
    pub open spec fn plus(self, other: List<T>) -> List<T>
        decreases self,
    {
        match self {
            List::Nil => other,
            List::Cons(h, t) => List::Cons(h, Box::new(t.plus(other))),
        }
    }

    /// This list with `x` behind it.
    pub open spec fn with(self, x: T) -> List<T> {
        self.plus(List::Cons(Box::new(x), Box::new(List::Nil)))
    }

    /// The elements in reverse order, in front of `acc`.
    pub open spec fn rev_onto(self, acc: List<T>) -> List<T>
        decreases self,
    {
        match self {
            List::Nil => acc,
            List::Cons(h, t) => t.rev_onto(List::Cons(h, Box::new(acc))),
        }
    }

    /// The list of the elements of `s`.
    pub open spec fn of(s: Seq<T>) -> List<T>
        decreases s.len(),
    {
        if s.len() == 0 {
            List::Nil
        } else {
            List::Cons(Box::new(s[0]), Box::new(List::of(s.drop_first())))
        }
    }

    /// The empty list.
    pub fn new() -> (r: List<T>)
        ensures
            r == List::<T>::Nil,
    {
        List::Nil
    }

    /// The list with `head` in front of `tail`.
    pub fn cons(head: T, tail: List<T>) -> (r: List<T>)
        ensures
            r == List::Cons(Box::new(head), Box::new(tail)),
    {
        List::Cons(Box::new(head), Box::new(tail))
    }

    /// Whether the list has no element.
    pub fn is_empty(&self) -> (r: bool)
        ensures
            r == (*self is Nil),
    {
        match self {
            List::Nil => true,
            List::Cons(_, _) => false,
        }
    }

    /// Whether two lists have the same number of elements.
    pub fn same_len<U>(&self, other: &List<U>) -> (r: bool)
        ensures
            r == (self.count() == other.count()),
        decreases self,
    {
        match (self, other) {
            (List::Nil, List::Nil) => true,
            (List::Cons(_, t), List::Cons(_, u)) => t.same_len(&**u),
            _ => false,
        }
    }

    /// Whether this list has more elements than the other.
    pub fn longer<U>(&self, other: &List<U>) -> (r: bool)
        ensures
            r == (self.count() > other.count()),
        decreases self,
    {
        match (self, other) {
            (List::Nil, _) => false,
            (List::Cons(_, _), List::Nil) => true,
            (List::Cons(_, t), List::Cons(_, u)) => t.longer(&**u),
        }
    }

    /// This list followed by `other`.
    pub fn append(self, other: List<T>) -> (r: List<T>)
        ensures
            r == self.plus(other),
        decreases self,
    {
        match self {
            List::Nil => other,
            List::Cons(h, t) => List::Cons(h, Box::new(t.append(other))),
        }
    }

    /// This list with `x` behind it.
    pub fn push(self, x: T) -> (r: List<T>)
        ensures
            r == self.with(x),
    {
        self.append(List::Cons(Box::new(x), Box::new(List::Nil)))
    }

    /// The elements in reverse order, in front of `acc`.
    pub fn reverse_onto(self, acc: List<T>) -> (r: List<T>)
        ensures
            r == self.rev_onto(acc),
        decreases self,
    {
        match self {
            List::Nil => acc,
            List::Cons(h, t) => t.reverse_onto(List::Cons(h, Box::new(acc))),
        }
    }

    /// The list of the elements of a vector.
    pub fn from_vec(v: Vec<T>) -> (r: List<T>)
        ensures
            r == List::of(v@),
    {
        let mut v = v;
        let ghost all = v@;
        let mut out: List<T> = List::Nil;
        while v.len() > 0
            invariant
                v@ == all.take(v@.len() as int),
                v@.len() <= all.len(),
                out == List::of(all.skip(v@.len() as int)),
            decreases v.len(),
        {
            let ghost n = v@.len() as int;
            if let Some(x) = v.pop() {
                proof {
                    assert(all.skip(n - 1).drop_first() =~= all.skip(n));
                    assert(all.skip(n - 1)[0] == all[n - 1]);
                }
                out = List::Cons(Box::new(x), Box::new(out));
            }
        }
        proof {
            assert(all.skip(0) =~= all);
        }
        out
    }
}

impl<T: Data> List<T> {
    /// Whether `x` is one of the elements.
    pub fn contains(&self, x: &T) -> (r: bool)
        ensures
            r == self.has(*x),
        decreases self,
    {
        match self {
            List::Nil => false,
            List::Cons(h, t) => h.same(x) || t.contains(x),
        }
    }
}

impl<T: Data> Data for List<T> {
    fn copy(&self) -> (r: Self)
        decreases self,
    {
        match self {
            List::Nil => List::Nil,
            List::Cons(h, t) => List::Cons(Box::new(h.copy()), Box::new(t.copy())),
        }
    }

    fn same(&self, other: &Self) -> (r: bool)
        decreases self,
    {
        match (self, other) {
            (List::Nil, List::Nil) => true,
            (List::Cons(h, t), List::Cons(h2, t2)) => h.same(h2) && t.same(t2),
            _ => false,
        }
    }
}

/// The elements of two lists joined are the elements of both, in order.
pub proof fn lemma_plus_seq<T>(a: List<T>, b: List<T>)
    ensures
        a.plus(b).seq() == a.seq() + b.seq(),
    decreases a,
{
    match a {
        List::Nil => {
            assert(a.seq() + b.seq() =~= b.seq());
        },
        List::Cons(h, t) => {
            lemma_plus_seq(*t, b);
            assert(a.plus(b).seq() =~= a.seq() + b.seq());
        },
    }
}

/// Joining lists is associative.
pub proof fn lemma_plus_assoc<T>(a: List<T>, b: List<T>, c: List<T>)
    ensures
        a.plus(b).plus(c) == a.plus(b.plus(c)),
    decreases a,
{
    if let List::Cons(_, t) = a {
        lemma_plus_assoc(*t, b, c);
    }
}

/// Membership in the list is membership in its sequence of elements.
pub proof fn lemma_has_seq<T>(a: List<T>, x: T)
    ensures
        a.has(x) == a.seq().contains(x),
    decreases a,
{
    match a {
        List::Nil => {},
        List::Cons(h, t) => {
            lemma_has_seq(*t, x);
            let s = a.seq();
            if *h == x {
                assert(s[0] == x);
            }
            if t.seq().contains(x) {
                let i = choose|i: int| 0 <= i < t.seq().len() && t.seq()[i] == x;
                assert(s[i + 1] == x);
            }
            if s.contains(x) {
                let i = choose|i: int| 0 <= i < s.len() && s[i] == x;
                if i > 0 {
                    assert(t.seq()[i - 1] == x);
                }
            }
        },
    }
}

/// A list built from a vector holds the vector's elements.
pub proof fn lemma_of_seq<T>(s: Seq<T>)
    ensures
        List::of(s).seq() == s,
    decreases s.len(),
{
    if s.len() > 0 {
        lemma_of_seq(s.drop_first());
        assert(seq![s[0]] + s.drop_first() =~= s);
    }
}

/// The value that stands under a key.
pub open spec fn assoc_get<K, V>(l: List<(K, V)>, k: K) -> Option<V>
    decreases l,
{
    match l {
        List::Nil => None,
        List::Cons(h, t) => if h.0 == k {
            Some(h.1)
        } else {
            assoc_get(*t, k)
        },
    }
}

/// The list with a value under a key, in the place of the old one where there
/// is one.
pub open spec fn assoc_put<K, V>(l: List<(K, V)>, k: K, v: V) -> List<(K, V)>
    decreases l,
{
    match l {
        List::Nil => List::Cons(Box::new((k, v)), Box::new(List::Nil)),
        List::Cons(h, t) => if h.0 == k {
            List::Cons(Box::new((k, v)), t)
        } else {
            List::Cons(h, Box::new(assoc_put(*t, k, v)))
        },
    }
}

/// The value that stands under a key.
pub fn get_assoc<K: Data, V: Data>(l: &List<(K, V)>, k: &K) -> (r: Option<V>)
    ensures
        r == assoc_get(*l, *k),
    decreases l,
{
    match l {
        List::Nil => None,
        List::Cons(h, t) => if h.0.same(k) {
            Some(h.1.copy())
        } else {
            get_assoc(t, k)
        },
    }
}

/// The list with a value under a key.
pub fn put_assoc<K: Data, V: Data>(l: &List<(K, V)>, k: &K, v: V) -> (r: List<(K, V)>)
    ensures
        r == assoc_put(*l, *k, v),
    decreases l,
{
    match l {
        List::Nil => List::cons((k.copy(), v), List::Nil),
        List::Cons(h, t) => if h.0.same(k) {
            List::cons((k.copy(), v), t.copy())
        } else {
            List::cons((h.0.copy(), h.1.copy()), put_assoc(t, k, v))
        },
    }
}

/// What was put under a key is found there, and the other keys keep their
/// values.
pub proof fn lemma_assoc<K, V>(l: List<(K, V)>, k: K, v: V, other: K)
    ensures
        assoc_get(assoc_put(l, k, v), other) == (if other == k {
            Some(v)
        } else {
            assoc_get(l, other)
        }),
    decreases l,
{
    if let List::Cons(_, t) = l {
        lemma_assoc(*t, k, v, other);
    }
}

/// What is in a list followed by another.
pub proof fn lemma_plus_has<T>(a: List<T>, b: List<T>, x: T)
    ensures
        a.plus(b).has(x) == (a.has(x) || b.has(x)),
    decreases a,
{
    if let List::Cons(_, t) = a {
        lemma_plus_has(*t, b, x);
    }
}

/// What is in a list with one element more.
pub proof fn lemma_with_has<T>(a: List<T>, y: T, x: T)
    ensures
        a.with(y).has(x) == (a.has(x) || y == x),
{
    let one = List::Cons(Box::new(y), Box::new(List::<T>::Nil));
    reveal_with_fuel(List::has, 2);
    lemma_plus_has(a, one, x);
}

} // verus!
