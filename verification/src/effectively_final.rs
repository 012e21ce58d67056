//! Which local variables are effectively final: a local that a lambda captures
//! and that is assigned again anywhere in its scope is not.
use crate::body::{
    AssignOp, Body, Catch, Expr, ExprKind, LambdaBody, LambdaParam, Local, Resource, Stmt,
    StmtKind, SwitchArm, SwitchLabel, UnaryOp,
};
use crate::ids::{
    copy_counts, count_at, counted_ids, insert_into, is_in, new_counts, new_set, set_count,
};
use crate::list::{assoc_get, assoc_put, get_assoc, put_assoc, Data, List};
use crate::names::Name;
use rustc_hash::{FxHashMap, FxHashSet};
use vstd::prelude::*;

verus! {

/// The identity that stands for every lambda parameter. No local has it.
pub const LAMBDA_PARAMETER: u32 = 0xffff_fffe;

/// The variables of one scope. `lambda` marks the scope that holds the
/// parameters of a lambda.
#[derive(Debug, PartialEq, Eq)]
pub struct Frame {
    pub names: List<(Name, u32)>,
    pub lambda: bool,
}

/// A reference inside a lambda to a variable from outside it.
#[derive(Clone, Copy, Debug, PartialEq, Eq, Structural)]
pub struct Capture {
    pub local: u32,
    pub name: Name,
    pub expr: u32,
}

/// What a scan knows at some point of a body: the scopes, innermost first; the
/// variables found to be assigned again; the captures, latest first; how often
/// each variable without an initializer has been assigned; the variables that
/// have a value from their declaration on.
pub ghost struct ScanState {
    pub frames: List<Frame>,
    pub mutated: Set<u32>,
    pub captures: List<Capture>,
    pub counts: Map<u32, u32>,
    pub initialized: Set<u32>,
}

/// The variable that a name refers to.
pub open spec fn resolved(frames: List<Frame>, name: Name) -> Option<u32>
    decreases frames,
{
    match frames {
        List::Nil => None,
        List::Cons(f, rest) => match assoc_get(f.names, name) {
            Some(id) => Some(id),
            None => resolved(*rest, name),
        },
    }
}

/// Whether one of the names stands for the variable.
pub open spec fn holds_id(l: List<(Name, u32)>, id: u32) -> bool
    decreases l,
{
    match l {
        List::Nil => false,
        List::Cons(h, t) => h.1 == id || holds_id(*t, id),
    }
}

/// Whether one of the scopes holds the variable.
pub open spec fn some_frame_holds(frames: List<Frame>, id: u32) -> bool
    decreases frames,
{
    match frames {
        List::Nil => false,
        List::Cons(f, rest) => holds_id(f.names, id) || some_frame_holds(*rest, id),
    }
}

/// Whether the variable is from outside the innermost lambda: the innermost
/// scope that holds it lies outside the scope of the parameters of the lambda.
pub open spec fn from_outside(frames: List<Frame>, id: u32) -> bool
    decreases frames,
{
    match frames {
        List::Nil => false,
        List::Cons(f, rest) => if holds_id(f.names, id) {
            false
        } else if f.lambda {
            some_frame_holds(*rest, id)
        } else {
            from_outside(*rest, id)
        },
    }
}

/// The number of assignments of a variable, or another where none is counted.
pub open spec fn count_or(counts: Map<u32, u32>, id: u32, other: u32) -> u32 {
    if counts.contains_key(id) {
        counts[id]
    } else {
        other
    }
}

/// The count after the two arms of an `if`, given the counts before it and
/// after each arm. The arms are alternatives: a variable without a value before
/// the `if` has been assigned at most once on each path.
pub open spec fn joined_count(pre: u32, then_count: u32, else_count: u32) -> u32 {
    if pre == 0 {
        if then_count > 0 || else_count > 0 {
            1
        } else {
            0
        }
    } else if then_count > else_count {
        then_count
    } else {
        else_count
    }
}

/// The count of a variable after the two arms of an `if`.
pub open spec fn joined_at(
    saved: Map<u32, u32>,
    then_counts: Map<u32, u32>,
    else_counts: Map<u32, u32>,
    id: u32,
) -> u32 {
    let pre = count_or(saved, id, 0);
    joined_count(pre, count_or(then_counts, id, pre), count_or(else_counts, id, pre))
}

/// The counts after the two arms of an `if`: of every variable that was counted
/// before it or in one of the arms.
pub open spec fn joined_counts(
    saved: Map<u32, u32>,
    then_counts: Map<u32, u32>,
    else_counts: Map<u32, u32>,
) -> Map<u32, u32> {
    Map::new(
        |id: u32|
            saved.contains_key(id) || then_counts.contains_key(id) || else_counts.contains_key(id),
        |id: u32| joined_at(saved, then_counts, else_counts, id),
    )
}

impl ScanState {
    /// A new scope.
    pub open spec fn enter(self, lambda: bool) -> ScanState {
        ScanState {
            frames: List::Cons(Box::new(Frame { names: List::Nil, lambda }), Box::new(self.frames)),
            ..self
        }
    }

    /// Back to the scope around.
    pub open spec fn leave(self) -> ScanState {
        ScanState {
            frames: match self.frames {
                List::Nil => List::Nil,
                List::Cons(_, rest) => *rest,
            },
            ..self
        }
    }

    /// The name stands for the variable from here on.
    pub open spec fn bind(self, name: Name, id: u32) -> ScanState {
        ScanState {
            frames: match self.frames {
                List::Nil => List::Nil,
                List::Cons(f, rest) => List::Cons(
                    Box::new(Frame { names: assoc_put(f.names, name, id), lambda: f.lambda }),
                    rest,
                ),
            },
            ..self
        }
    }

    /// A variable with a value from its declaration on.
    pub open spec fn declare_set(self, local: Local) -> ScanState {
        let s = self.bind(local.name, local.id);
        ScanState { initialized: s.initialized.insert(local.id), ..s }
    }

    pub open spec fn mutate(self, id: u32) -> ScanState {
        ScanState { mutated: self.mutated.insert(id), ..self }
    }

    /// The expression is written to after it was read.
    pub open spec fn written(self, e: Expr) -> ScanState {
        match e.kind {
            ExprKind::Var(name) => match resolved(self.frames, name) {
                Some(id) => self.mutate(id),
                None => self,
            },
            _ => self,
        }
    }

    /// The expression is assigned. A variable that has a value is assigned
    /// again by any assignment, another one by the second assignment.
    pub open spec fn assigned(self, e: Expr) -> ScanState {
        match e.kind {
            ExprKind::Var(name) => match resolved(self.frames, name) {
                Some(id) => if self.initialized.contains(id) {
                    self.mutate(id)
                } else {
                    let n = count_or(self.counts, id, 0);
                    let more: u32 = if n < u32::MAX {
                        (n + 1) as u32
                    } else {
                        n
                    };
                    let s = ScanState { counts: self.counts.insert(id, more), ..self };
                    if more > 1 {
                        s.mutate(id)
                    } else {
                        s
                    }
                },
                None => self,
            },
            _ => self,
        }
    }

    /// A reference to a name.
    pub open spec fn referred(self, name: Name, expr: u32) -> ScanState {
        match resolved(self.frames, name) {
            Some(id) => if from_outside(self.frames, id) {
                ScanState {
                    captures: List::Cons(
                        Box::new(Capture { local: id, name, expr }),
                        Box::new(self.captures),
                    ),
                    ..self
                }
            } else {
                self
            },
            None => self,
        }
    }

    /// After the two arms of an `if`: a variable that was assigned more than once
    /// on one of the paths is assigned again.
    pub open spec fn join(
        self,
        saved: Map<u32, u32>,
        then_counts: Map<u32, u32>,
        else_counts: Map<u32, u32>,
    ) -> ScanState {
        let counts = joined_counts(saved, then_counts, else_counts);
        ScanState {
            counts,
            mutated: self.mutated.union(
                Set::new(|id: u32| counts.contains_key(id) && counts[id] > 1),
            ),
            ..self
        }
    }

    pub open spec fn bind_params(self, l: List<LambdaParam>) -> ScanState
        decreases l,
    {
        match l {
            List::Nil => self,
            List::Cons(h, t) => self.bind(h.name, LAMBDA_PARAMETER).bind_params(*t),
        }
    }

    pub open spec fn declare_params(self, l: List<Local>) -> ScanState
        decreases l,
    {
        match l {
            List::Nil => self,
            List::Cons(h, t) => self.declare_set(*h).declare_params(*t),
        }
    }

    /// The state behind an expression.
    pub open spec fn after_expr(self, e: Expr) -> ScanState
        decreases e,
    {
        match e.kind {
            ExprKind::Var(name) => self.referred(name, e.id),
            ExprKind::NamePath(path) => match path {
                List::Cons(first, rest) => if *rest == List::<Name>::Nil {
                    self.referred(*first, e.id)
                } else {
                    self
                },
                List::Nil => self,
            },
            ExprKind::Literal(_) => self,
            ExprKind::Null => self,
            ExprKind::This { qualifier: _ } => self,
            ExprKind::Super { qualifier: _ } => self,
            ExprKind::ClassLit(_) => self,
            ExprKind::Missing => self,
            ExprKind::Template { args } => self.after_exprs(*args),
            ExprKind::FieldAccess { target, name: _ } => match target {
                Some(t) => self.after_expr(*t),
                None => self,
            },
            ExprKind::ArrayAccess { array, index } => self.after_expr(*array).after_expr(*index),
            ExprKind::MethodCall { receiver, name: _, type_args: _, args } => (match receiver {
                Some(r) => self.after_expr(*r),
                None => self,
            }).after_exprs(*args),
            ExprKind::New { ty: _, args, diamond: _, anonymous: _, receiver } => (match receiver {
                Some(r) => self.after_expr(*r),
                None => self,
            }).after_exprs(*args),
            ExprKind::CtorCall { args, target: _ } => self.after_exprs(*args),
            ExprKind::NewArray { ty: _, dims, initializer } => {
                let s = self.after_exprs(*dims);
                match initializer {
                    Some(l) => s.after_exprs(*l),
                    None => s,
                }
            },
            ExprKind::ArrayInit(l) => self.after_exprs(*l),
            ExprKind::Unary { op, expr } => (if op == UnaryOp::Inc || op == UnaryOp::Dec {
                self.written(*expr)
            } else {
                self
            }).after_expr(*expr),
            ExprKind::Postfix { expr } => self.written(*expr).after_expr(*expr),
            ExprKind::Binary { op: _, lhs, rhs } => self.after_expr(*lhs).after_expr(*rhs),
            ExprKind::Assign { op, lhs, rhs } => (match op {
                AssignOp::Assign => self.assigned(*lhs),
                AssignOp::Compound => self.written(*lhs),
            }).after_expr(*lhs).after_expr(*rhs),
            ExprKind::Cast { ty: _, expr } => self.after_expr(*expr),
            ExprKind::InstanceOf { expr, pattern: _, ty: _ } => self.after_expr(*expr),
            ExprKind::Conditional { cond, then_arm, else_arm } => self.after_expr(
                *cond,
            ).after_expr(*then_arm).after_expr(*else_arm),
            ExprKind::Lambda { params, body } => {
                let s = self.enter(true).bind_params(params);
                (match body {
                    LambdaBody::Expr(b) => s.after_expr(*b),
                    LambdaBody::Block(b) => s.after_stmt(*b),
                }).leave()
            },
            ExprKind::MethodRef { qualifier, named: _, name: _ } => match qualifier {
                Some(q) => self.after_expr(*q),
                None => self,
            },
            ExprKind::Switch { scrutinee, arms } => self.after_expr(*scrutinee).after_arms(*arms),
            ExprKind::Paren(inner) => self.after_expr(*inner),
        }
    }

    pub open spec fn after_exprs(self, l: List<Expr>) -> ScanState
        decreases l,
    {
        match l {
            List::Nil => self,
            List::Cons(h, t) => self.after_expr(*h).after_exprs(*t),
        }
    }

    pub open spec fn after_labels(self, l: List<SwitchLabel>) -> ScanState
        decreases l,
    {
        match l {
            List::Nil => self,
            List::Cons(h, t) => (match *h {
                SwitchLabel::Expr(e) => self.after_expr(e),
                _ => self,
            }).after_labels(*t),
        }
    }

    pub open spec fn after_arms(self, l: List<SwitchArm>) -> ScanState
        decreases l,
    {
        match l {
            List::Nil => self,
            List::Cons(h, t) => self.after_labels(h.labels).after_stmts(h.body).after_arms(*t),
        }
    }

    pub open spec fn after_resources(self, l: List<Resource>) -> ScanState
        decreases l,
    {
        match l {
            List::Nil => self,
            List::Cons(h, t) => {
                let s = self.declare_set(h.local);
                (match h.initializer {
                    Some(e) => s.after_expr(e),
                    None => s,
                }).after_resources(*t)
            },
        }
    }

    pub open spec fn after_catches(self, l: List<Catch>) -> ScanState
        decreases l,
    {
        match l {
            List::Nil => self,
            List::Cons(h, t) => self.enter(false).declare_set(h.param).after_stmt(
                h.body,
            ).leave().after_catches(*t),
        }
    }

    /// The state behind a statement.
    pub open spec fn after_stmt(self, s: Stmt) -> ScanState
        decreases s,
    {
        match s.kind {
            StmtKind::Empty => self,
            StmtKind::Missing => self,
            StmtKind::LocalClass => self,
            StmtKind::Break(_) => self,
            StmtKind::Continue(_) => self,
            StmtKind::Block(l) => self.enter(false).after_stmts(*l).leave(),
            StmtKind::DeclGroup(l) => self.after_stmts(*l),
            StmtKind::Decl { local, initializer } => match initializer {
                Some(e) => self.declare_set(local).after_expr(e),
                None => self.bind(local.name, local.id),
            },
            StmtKind::Expr(e) => self.after_expr(e),
            StmtKind::Labeled { label: _, stmt } => self.after_stmt(*stmt),
            StmtKind::If { cond, then_arm, else_arm } => {
                let s0 = self.after_expr(cond);
                let s1 = s0.after_stmt(*then_arm);
                let s2 = ScanState { counts: s0.counts, ..s1 };
                let s3 = match else_arm {
                    Some(e) => s2.after_stmt(*e),
                    None => s2,
                };
                s3.join(s0.counts, s1.counts, s3.counts)
            },
            StmtKind::While { cond, body } => self.after_expr(cond).after_stmt(*body),
            StmtKind::DoWhile { body, cond } => self.after_expr(cond).after_stmt(*body),
            StmtKind::For { init, cond, step, body } => {
                let s = self.enter(false).after_stmts(*init);
                (match cond {
                    Some(c) => s.after_expr(c),
                    None => s,
                }).after_exprs(step).after_stmt(*body).leave()
            },
            StmtKind::ForEach { var, iterable, body } => self.enter(false).declare_set(
                var,
            ).after_expr(iterable).after_stmt(*body).leave(),
            StmtKind::Switch { scrutinee, arms } => self.after_expr(scrutinee).after_arms(*arms),
            StmtKind::Return(value) => match value {
                Some(e) => self.after_expr(e),
                None => self,
            },
            StmtKind::Yield(e) => self.after_expr(e),
            StmtKind::Throw(e) => self.after_expr(e),
            StmtKind::Synchronized { expr, body } => self.after_expr(expr).after_stmt(*body),
            StmtKind::Try { resources, body, catches, finally_block } => {
                let s = self.after_resources(resources).after_stmt(*body).after_catches(*catches);
                match finally_block {
                    Some(f) => s.after_stmt(*f),
                    None => s,
                }
            },
            StmtKind::Assert { cond, msg } => {
                let s = self.after_expr(cond);
                match msg {
                    Some(m) => s.after_expr(m),
                    None => s,
                }
            },
        }
    }

    pub open spec fn after_stmts(self, l: List<Stmt>) -> ScanState
        decreases l,
    {
        match l {
            List::Nil => self,
            List::Cons(h, t) => self.after_stmt(*h).after_stmts(*t),
        }
    }
}

/// The state at the start of a body.
pub open spec fn scan_start() -> ScanState {
    ScanState {
        frames: List::Cons(
            Box::new(Frame { names: List::Nil, lambda: false }),
            Box::new(List::Nil),
        ),
        mutated: Set::empty(),
        captures: List::Nil,
        counts: Map::empty(),
        initialized: Set::empty(),
    }
}

/// The state at the end of a body. Its parameters have a value from the start.
pub open spec fn scanned(body: Body) -> ScanState {
    scan_start().declare_params(body.params).after_stmts(body.stmts)
}

/// A scan under way.
struct Scan {
    frames: List<Frame>,
    mutated: FxHashSet<u32>,
    captures: List<Capture>,
    counts: FxHashMap<u32, u32>,
    initialized: FxHashSet<u32>,
}

fn resolve_local(frames: &List<Frame>, name: Name) -> (r: Option<u32>)
    ensures
        r == resolved(*frames, name),
    decreases frames,
{
    match frames {
        List::Nil => None,
        List::Cons(f, rest) => match get_assoc(&f.names, &name) {
            Some(id) => Some(id),
            None => resolve_local(rest, name),
        },
    }
}

fn id_in(l: &List<(Name, u32)>, id: u32) -> (r: bool)
    ensures
        r == holds_id(*l, id),
    decreases l,
{
    match l {
        List::Nil => false,
        List::Cons(h, t) => h.1 == id || id_in(t, id),
    }
}

fn id_in_frames(frames: &List<Frame>, id: u32) -> (r: bool)
    ensures
        r == some_frame_holds(*frames, id),
    decreases frames,
{
    match frames {
        List::Nil => false,
        List::Cons(f, rest) => id_in(&f.names, id) || id_in_frames(rest, id),
    }
}

fn is_from_outside(frames: &List<Frame>, id: u32) -> (r: bool)
    ensures
        r == from_outside(*frames, id),
    decreases frames,
{
    match frames {
        List::Nil => false,
        List::Cons(f, rest) => {
            if id_in(&f.names, id) {
                false
            } else if f.lambda {
                id_in_frames(rest, id)
            } else {
                is_from_outside(rest, id)
            }
        },
    }
}

fn find_count_or(counts: &FxHashMap<u32, u32>, id: u32, other: u32) -> (r: u32)
    ensures
        r == count_or(counts@, id, other),
{
    match count_at(counts, id) {
        Some(n) => n,
        None => other,
    }
}

/// One more of a sequence.
proof fn lemma_taken(s: Seq<u32>, i: int)
    requires
        0 <= i < s.len(),
    ensures
        forall|x: u32| #[trigger]
            s.take(i + 1).contains(x) == (s.take(i).contains(x) || x == s[i]),
{
    let (less, more) = (s.take(i), s.take(i + 1));
    assert forall|x: u32| #[trigger] more.contains(x) == (less.contains(x) || x == s[i]) by {
        if less.contains(x) {
            let k = choose|k: int| 0 <= k < less.len() && less[k] == x;
            assert(more[k] == x);
        }
        if x == s[i] {
            assert(more[i] == x);
        }
        if more.contains(x) && x != s[i] {
            let k = choose|k: int| 0 <= k < more.len() && more[k] == x;
            assert(less[k] == x);
        }
    }
}

impl Scan {
    spec fn state(self) -> ScanState {
        ScanState {
            frames: self.frames,
            mutated: self.mutated@,
            captures: self.captures,
            counts: self.counts@,
            initialized: self.initialized@,
        }
    }

    fn push_scope(&mut self, lambda: bool)
        ensures
            final(self).state() == old(self).state().enter(lambda),
    {
        let mut frames: List<Frame> = List::Nil;
        core::mem::swap(&mut frames, &mut self.frames);
        self.frames = List::cons(Frame { names: List::Nil, lambda }, frames);
    }

    fn pop_scope(&mut self)
        ensures
            final(self).state() == old(self).state().leave(),
    {
        let mut frames: List<Frame> = List::Nil;
        core::mem::swap(&mut frames, &mut self.frames);
        match frames {
            List::Nil => {},
            List::Cons(_, rest) => {
                self.frames = *rest;
            },
        }
    }

    fn declare(&mut self, name: Name, id: u32)
        ensures
            final(self).state() == old(self).state().bind(name, id),
    {
        let mut frames: List<Frame> = List::Nil;
        core::mem::swap(&mut frames, &mut self.frames);
        match frames {
            List::Nil => {},
            List::Cons(f, rest) => {
                let frame = Frame { names: put_assoc(&f.names, &name, id), lambda: f.lambda };
                self.frames = List::Cons(Box::new(frame), rest);
            },
        }
    }

    fn declare_initialized(&mut self, local: &Local)
        ensures
            final(self).state() == old(self).state().declare_set(*local),
    {
        self.declare(local.name, local.id);
        insert_into(&mut self.initialized, local.id);
    }

    /// The expression is written to after it was read.
    fn mark_mutation(&mut self, e: &Expr)
        ensures
            final(self).state() == old(self).state().written(*e),
    {
        if let ExprKind::Var(name) = &e.kind {
            if let Some(id) = resolve_local(&self.frames, *name) {
                insert_into(&mut self.mutated, id);
            }
        }
    }

    /// The expression is assigned: a mutation only where it has a value.
    fn mark_mutation_if_reassigned(&mut self, e: &Expr)
        ensures
            final(self).state() == old(self).state().assigned(*e),
    {
        if let ExprKind::Var(name) = &e.kind {
            if let Some(id) = resolve_local(&self.frames, *name) {
                if is_in(&self.initialized, id) {
                    insert_into(&mut self.mutated, id);
                } else {
                    let n: u32 = find_count_or(&self.counts, id, 0);
                    let more: u32 = if n < u32::MAX {
                        n + 1
                    } else {
                        n
                    };
                    set_count(&mut self.counts, id, more);
                    if more > 1 {
                        insert_into(&mut self.mutated, id);
                    }
                }
            }
        }
    }

    fn refer(&mut self, name: Name, expr: u32)
        ensures
            final(self).state() == old(self).state().referred(name, expr),
    {
        if let Some(id) = resolve_local(&self.frames, name) {
            if is_from_outside(&self.frames, id) {
                let mut captures: List<Capture> = List::Nil;
                core::mem::swap(&mut captures, &mut self.captures);
                self.captures = List::cons(Capture { local: id, name, expr }, captures);
            }
        }
    }

    /// The counts of some variables after the two arms of an `if`.
    fn join_counts_of(
        &mut self,
        ids: &Vec<u32>,
        saved: &FxHashMap<u32, u32>,
        then_counts: &FxHashMap<u32, u32>,
        else_counts: &FxHashMap<u32, u32>,
    )
        ensures
            final(self).frames == old(self).frames,
            final(self).captures == old(self).captures,
            final(self).initialized@ == old(self).initialized@,
            forall|id: u32| #[trigger]
                final(self).counts@.contains_key(id) == (old(self).counts@.contains_key(id)
                    || ids@.contains(id)),
            forall|id: u32| #[trigger]
                final(self).counts@.contains_key(id) ==> final(self).counts@[id] == (
                if ids@.contains(id) {
                    joined_at(saved@, then_counts@, else_counts@, id)
                } else {
                    old(self).counts@[id]
                }),
            forall|id: u32| #[trigger]
                final(self).mutated@.contains(id) == (old(self).mutated@.contains(id) || (
                ids@.contains(id) && joined_at(saved@, then_counts@, else_counts@, id) > 1)),
    {
        let mut i: usize = 0;
        while i < ids.len()
            invariant
                i <= ids@.len(),
                self.frames == old(self).frames,
                self.captures == old(self).captures,
                self.initialized@ == old(self).initialized@,
                forall|id: u32| #[trigger]
                    self.counts@.contains_key(id) == (old(self).counts@.contains_key(id)
                        || ids@.take(i as int).contains(id)),
                forall|id: u32| #[trigger]
                    self.counts@.contains_key(id) ==> self.counts@[id] == (if ids@.take(
                        i as int,
                    ).contains(id) {
                        joined_at(saved@, then_counts@, else_counts@, id)
                    } else {
                        old(self).counts@[id]
                    }),
                forall|id: u32| #[trigger]
                    self.mutated@.contains(id) == (old(self).mutated@.contains(id) || (ids@.take(
                        i as int,
                    ).contains(id) && joined_at(saved@, then_counts@, else_counts@, id) > 1)),
            decreases ids@.len() - i,
        {
            let id: u32 = ids[i];
            let pre: u32 = find_count_or(saved, id, 0);
            let then_count: u32 = find_count_or(then_counts, id, pre);
            let else_count: u32 = find_count_or(else_counts, id, pre);
            let joined: u32 = if pre == 0 {
                if then_count > 0 || else_count > 0 {
                    1
                } else {
                    0
                }
            } else if then_count > else_count {
                then_count
            } else {
                else_count
            };
            proof {
                lemma_taken(ids@, i as int);
            }
            set_count(&mut self.counts, id, joined);
            if joined > 1 {
                insert_into(&mut self.mutated, id);
            }
            i = i + 1;
        }
        assert(ids@.take(i as int) =~= ids@);
    }

    /// The counts after the two arms of an `if`.
    fn join_assignment_counts(
        &mut self,
        saved: &FxHashMap<u32, u32>,
        then_counts: &FxHashMap<u32, u32>,
        else_counts: &FxHashMap<u32, u32>,
    )
        ensures
            final(self).state() == old(self).state().join(saved@, then_counts@, else_counts@),
    {
        self.counts = new_counts();
        self.join_counts_of(&counted_ids(saved), saved, then_counts, else_counts);
        self.join_counts_of(&counted_ids(then_counts), saved, then_counts, else_counts);
        self.join_counts_of(&counted_ids(else_counts), saved, then_counts, else_counts);
        proof {
            let after = old(self).state().join(saved@, then_counts@, else_counts@);
            assert(self.counts@ =~= after.counts);
            assert(self.mutated@ =~= after.mutated);
        }
    }

    fn declare_lambda_params(&mut self, l: &List<LambdaParam>)
        ensures
            final(self).state() == old(self).state().bind_params(*l),
        decreases l,
    {
        match l {
            List::Nil => {},
            List::Cons(h, t) => {
                self.declare(h.name, LAMBDA_PARAMETER);
                self.declare_lambda_params(t);
            },
        }
    }

    fn declare_body_params(&mut self, l: &List<Local>)
        ensures
            final(self).state() == old(self).state().declare_params(*l),
        decreases l,
    {
        match l {
            List::Nil => {},
            List::Cons(h, t) => {
                self.declare_initialized(h);
                self.declare_body_params(t);
            },
        }
    }

    fn walk_expr(&mut self, e: &Expr)
        ensures
            final(self).state() == old(self).state().after_expr(*e),
        decreases e,
    {
        match &e.kind {
            ExprKind::Var(name) => self.refer(*name, e.id),
            ExprKind::NamePath(path) => match path {
                List::Cons(first, rest) => {
                    if rest.is_empty() {
                        self.refer(**first, e.id);
                    }
                },
                List::Nil => {},
            },
            ExprKind::Literal(_) => {},
            ExprKind::Null => {},
            ExprKind::This { qualifier: _ } => {},
            ExprKind::Super { qualifier: _ } => {},
            ExprKind::ClassLit(_) => {},
            ExprKind::Missing => {},
            ExprKind::Template { args } => self.walk_exprs(args),
            ExprKind::FieldAccess { target, name: _ } => {
                if let Some(t) = target {
                    self.walk_expr(t);
                }
            },
            ExprKind::ArrayAccess { array, index } => {
                self.walk_expr(array);
                self.walk_expr(index);
            },
            ExprKind::MethodCall { receiver, name: _, type_args: _, args } => {
                if let Some(r) = receiver {
                    self.walk_expr(r);
                }
                self.walk_exprs(args);
            },
            ExprKind::New { ty: _, args, diamond: _, anonymous: _, receiver } => {
                if let Some(r) = receiver {
                    self.walk_expr(r);
                }
                self.walk_exprs(args);
            },
            ExprKind::CtorCall { args, target: _ } => self.walk_exprs(args),
            ExprKind::NewArray { ty: _, dims, initializer } => {
                self.walk_exprs(dims);
                if let Some(l) = initializer {
                    self.walk_exprs(l);
                }
            },
            ExprKind::ArrayInit(l) => self.walk_exprs(l),
            ExprKind::Unary { op, expr } => {
                if *op == UnaryOp::Inc || *op == UnaryOp::Dec {
                    self.mark_mutation(expr);
                }
                self.walk_expr(expr);
            },
            ExprKind::Postfix { expr } => {
                self.mark_mutation(expr);
                self.walk_expr(expr);
            },
            ExprKind::Binary { op: _, lhs, rhs } => {
                self.walk_expr(lhs);
                self.walk_expr(rhs);
            },
            ExprKind::Assign { op, lhs, rhs } => {
                match op {
                    AssignOp::Assign => self.mark_mutation_if_reassigned(lhs),
                    AssignOp::Compound => self.mark_mutation(lhs),
                }
                self.walk_expr(lhs);
                self.walk_expr(rhs);
            },
            ExprKind::Cast { ty: _, expr } => self.walk_expr(expr),
            ExprKind::InstanceOf { expr, pattern: _, ty: _ } => self.walk_expr(expr),
            ExprKind::Conditional { cond, then_arm, else_arm } => {
                self.walk_expr(cond);
                self.walk_expr(then_arm);
                self.walk_expr(else_arm);
            },
            ExprKind::Lambda { params, body } => {
                self.push_scope(true);
                self.declare_lambda_params(params);
                match body {
                    LambdaBody::Expr(b) => self.walk_expr(b),
                    LambdaBody::Block(b) => self.walk_stmt(b),
                }
                self.pop_scope();
            },
            ExprKind::MethodRef { qualifier, named: _, name: _ } => {
                if let Some(q) = qualifier {
                    self.walk_expr(q);
                }
            },
            ExprKind::Switch { scrutinee, arms } => {
                self.walk_expr(scrutinee);
                self.walk_arms(arms);
            },
            ExprKind::Paren(inner) => self.walk_expr(inner),
        }
    }

    fn walk_exprs(&mut self, l: &List<Expr>)
        ensures
            final(self).state() == old(self).state().after_exprs(*l),
        decreases l,
    {
        match l {
            List::Nil => {},
            List::Cons(h, t) => {
                self.walk_expr(h);
                self.walk_exprs(t);
            },
        }
    }

    fn walk_labels(&mut self, l: &List<SwitchLabel>)
        ensures
            final(self).state() == old(self).state().after_labels(*l),
        decreases l,
    {
        match l {
            List::Nil => {},
            List::Cons(h, t) => {
                if let SwitchLabel::Expr(e) = &**h {
                    self.walk_expr(e);
                }
                self.walk_labels(t);
            },
        }
    }

    fn walk_arms(&mut self, l: &List<SwitchArm>)
        ensures
            final(self).state() == old(self).state().after_arms(*l),
        decreases l,
    {
        match l {
            List::Nil => {},
            List::Cons(h, t) => {
                self.walk_labels(&h.labels);
                self.walk_stmts(&h.body);
                self.walk_arms(t);
            },
        }
    }

    fn walk_resources(&mut self, l: &List<Resource>)
        ensures
            final(self).state() == old(self).state().after_resources(*l),
        decreases l,
    {
        match l {
            List::Nil => {},
            List::Cons(h, t) => {
                self.declare_initialized(&h.local);
                if let Some(e) = &h.initializer {
                    self.walk_expr(e);
                }
                self.walk_resources(t);
            },
        }
    }

    fn walk_catches(&mut self, l: &List<Catch>)
        ensures
            final(self).state() == old(self).state().after_catches(*l),
        decreases l,
    {
        match l {
            List::Nil => {},
            List::Cons(h, t) => {
                self.push_scope(false);
                self.declare_initialized(&h.param);
                self.walk_stmt(&h.body);
                self.pop_scope();
                self.walk_catches(t);
            },
        }
    }

    fn walk_stmt(&mut self, s: &Stmt)
        ensures
            final(self).state() == old(self).state().after_stmt(*s),
        decreases s,
    {
        match &s.kind {
            StmtKind::Empty => {},
            StmtKind::Missing => {},
            StmtKind::LocalClass => {},
            StmtKind::Break(_) => {},
            StmtKind::Continue(_) => {},
            StmtKind::Block(l) => {
                self.push_scope(false);
                self.walk_stmts(l);
                self.pop_scope();
            },
            StmtKind::DeclGroup(l) => self.walk_stmts(l),
            StmtKind::Decl { local, initializer } => match initializer {
                Some(e) => {
                    self.declare_initialized(local);
                    self.walk_expr(e);
                },
                None => self.declare(local.name, local.id),
            },
            StmtKind::Expr(e) => self.walk_expr(e),
            StmtKind::Labeled { label: _, stmt } => self.walk_stmt(stmt),
            StmtKind::If { cond, then_arm, else_arm } => {
                self.walk_expr(cond);
                let saved = copy_counts(&self.counts);
                self.walk_stmt(then_arm);
                let then_counts = copy_counts(&self.counts);
                self.counts = copy_counts(&saved);
                if let Some(e) = else_arm {
                    self.walk_stmt(e);
                }
                let else_counts = copy_counts(&self.counts);
                self.join_assignment_counts(&saved, &then_counts, &else_counts);
            },
            StmtKind::While { cond, body } => {
                self.walk_expr(cond);
                self.walk_stmt(body);
            },
            StmtKind::DoWhile { body, cond } => {
                self.walk_expr(cond);
                self.walk_stmt(body);
            },
            StmtKind::For { init, cond, step, body } => {
                self.push_scope(false);
                self.walk_stmts(init);
                if let Some(c) = cond {
                    self.walk_expr(c);
                }
                self.walk_exprs(step);
                self.walk_stmt(body);
                self.pop_scope();
            },
            StmtKind::ForEach { var, iterable, body } => {
                self.push_scope(false);
                self.declare_initialized(var);
                self.walk_expr(iterable);
                self.walk_stmt(body);
                self.pop_scope();
            },
            StmtKind::Switch { scrutinee, arms } => {
                self.walk_expr(scrutinee);
                self.walk_arms(arms);
            },
            StmtKind::Return(value) => {
                if let Some(e) = value {
                    self.walk_expr(e);
                }
            },
            StmtKind::Yield(e) => self.walk_expr(e),
            StmtKind::Throw(e) => self.walk_expr(e),
            StmtKind::Synchronized { expr, body } => {
                self.walk_expr(expr);
                self.walk_stmt(body);
            },
            StmtKind::Try { resources, body, catches, finally_block } => {
                self.walk_resources(resources);
                self.walk_stmt(body);
                self.walk_catches(catches);
                if let Some(f) = finally_block {
                    self.walk_stmt(f);
                }
            },
            StmtKind::Assert { cond, msg } => {
                self.walk_expr(cond);
                if let Some(m) = msg {
                    self.walk_expr(m);
                }
            },
        }
    }

    fn walk_stmts(&mut self, l: &List<Stmt>)
        ensures
            final(self).state() == old(self).state().after_stmts(*l),
        decreases l,
    {
        match l {
            List::Nil => {},
            List::Cons(h, t) => {
                self.walk_stmt(h);
                self.walk_stmts(t);
            },
        }
    }
}

/// The variables of a body that are assigned again, and the references inside
/// lambdas to variables from outside them, first to last. Both are told apart
/// by the identity of the variable, so that two variables with one name in
/// different scopes do not collide.
pub fn effective_final_scan(body: &Body) -> (r: (FxHashSet<u32>, List<Capture>))
    ensures
        r.0@ == scanned(*body).mutated,
        r.1 == scanned(*body).captures.rev_onto(List::Nil),
{
    let mut scan = Scan {
        frames: List::cons(Frame { names: List::Nil, lambda: false }, List::Nil),
        mutated: new_set(),
        captures: List::Nil,
        counts: new_counts(),
        initialized: new_set(),
    };
    assert(scan.counts@ =~= Map::empty());
    scan.declare_body_params(&body.params);
    scan.walk_stmts(&body.stmts);
    let Scan { frames: _, mutated, captures, counts: _, initialized: _ } = scan;
    (mutated, captures.reverse_onto(List::Nil))
}

/// The captures of a variable that is assigned again.
pub open spec fn offending(captures: List<Capture>, mutated: Set<u32>) -> List<Capture>
    decreases captures,
{
    match captures {
        List::Nil => List::Nil,
        List::Cons(h, t) => if mutated.contains(h.local) {
            List::Cons(h, Box::new(offending(*t, mutated)))
        } else {
            offending(*t, mutated)
        },
    }
}

fn keep_offending(captures: &List<Capture>, mutated: &FxHashSet<u32>) -> (r: List<Capture>)
    ensures
        r == offending(*captures, mutated@),
    decreases captures,
{
    match captures {
        List::Nil => List::Nil,
        List::Cons(h, t) => {
            let rest = keep_offending(t, mutated);
            if is_in(mutated, h.local) {
                List::cons(**h, rest)
            } else {
                rest
            }
        },
    }
}

/// The references inside lambdas to variables that are not effectively final,
/// first to last.
pub fn captured_not_final(body: &Body) -> (r: List<Capture>)
    ensures
        r == offending(scanned(*body).captures.rev_onto(List::Nil), scanned(*body).mutated),
{
    let (mutated, captures) = effective_final_scan(body);
    keep_offending(&captures, &mutated)
}

/// Whether `b` is `a` with captures in front.
pub open spec fn extends(b: List<Capture>, a: List<Capture>) -> bool
    decreases b,
{
    b == a || match b {
        List::Nil => false,
        List::Cons(_, t) => extends(*t, a),
    }
}

proof fn lemma_extends(a: List<Capture>, b: List<Capture>, c: List<Capture>)
    requires
        extends(c, b),
        extends(b, a),
    ensures
        extends(c, a),
    decreases c,
{
    if c != b {
        if let List::Cons(_, t) = c {
            lemma_extends(a, b, *t);
        }
    }
}

/// Whether `later` knows at least what `earlier` knows: a variable that was
/// found to be assigned again, a capture and a first value are never
/// forgotten.
pub open spec fn grown(earlier: ScanState, later: ScanState) -> bool {
    &&& earlier.mutated.subset_of(later.mutated)
    &&& earlier.initialized.subset_of(later.initialized)
    &&& extends(later.captures, earlier.captures)
}

pub proof fn lemma_grown(a: ScanState, b: ScanState, c: ScanState)
    requires
        grown(a, b),
        grown(b, c),
    ensures
        grown(a, c),
{
    lemma_extends(a.captures, b.captures, c.captures);
}

proof fn lemma_bind_grows(s: ScanState, name: Name, id: u32)
    ensures
        grown(s, s.bind(name, id)),
{
}

proof fn lemma_declare_grows(s: ScanState, local: Local)
    ensures
        grown(s, s.declare_set(local)),
{
}

proof fn lemma_write_grows(s: ScanState, e: Expr)
    ensures
        grown(s, s.written(e)),
        grown(s, s.assigned(e)),
{
}

proof fn lemma_refer_grows(s: ScanState, name: Name, expr: u32)
    ensures
        grown(s, s.referred(name, expr)),
{
    reveal_with_fuel(extends, 2);
}

proof fn lemma_join_grows(
    s: ScanState,
    saved: Map<u32, u32>,
    then_counts: Map<u32, u32>,
    else_counts: Map<u32, u32>,
)
    ensures
        grown(s, s.join(saved, then_counts, else_counts)),
{
}

proof fn lemma_params_grow(s: ScanState, l: List<LambdaParam>)
    ensures
        grown(s, s.bind_params(l)),
    decreases l,
{
    if let List::Cons(h, t) = l {
        let one = s.bind(h.name, LAMBDA_PARAMETER);
        lemma_bind_grows(s, h.name, LAMBDA_PARAMETER);
        lemma_params_grow(one, *t);
        lemma_grown(s, one, s.bind_params(l));
    }
}

/// Scanning on never takes back what was found: behind an expression, every
/// variable known to be assigned again, every capture and every first value is
/// still known.
pub proof fn law_scan_of_expression_grows(s: ScanState, e: Expr)
    ensures
        grown(s, s.after_expr(e)),
    decreases e,
{
    match e.kind {
        ExprKind::Var(name) => {
            lemma_refer_grows(s, name, e.id);
        },
        ExprKind::NamePath(path) => {
            if let List::Cons(first, _) = path {
                lemma_refer_grows(s, *first, e.id);
            }
        },
        ExprKind::Template { args } => {
            lemma_exprs_grow(s, *args);
        },
        ExprKind::FieldAccess { target, name: _ } => {
            if let Some(t) = target {
                law_scan_of_expression_grows(s, *t);
            }
        },
        ExprKind::ArrayAccess { array, index } => {
            law_scan_of_expression_grows(s, *array);
            law_scan_of_expression_grows(s.after_expr(*array), *index);
            lemma_grown(s, s.after_expr(*array), s.after_expr(e));
        },
        ExprKind::MethodCall { receiver, name: _, type_args: _, args } => {
            match receiver {
                Some(r) => {
                    law_scan_of_expression_grows(s, *r);
                    lemma_exprs_grow(s.after_expr(*r), *args);
                    lemma_grown(s, s.after_expr(*r), s.after_expr(e));
                },
                None => {
                    lemma_exprs_grow(s, *args);
                },
            }
        },
        ExprKind::New { ty: _, args, diamond: _, anonymous: _, receiver } => {
            match receiver {
                Some(r) => {
                    law_scan_of_expression_grows(s, *r);
                    lemma_exprs_grow(s.after_expr(*r), *args);
                    lemma_grown(s, s.after_expr(*r), s.after_expr(e));
                },
                None => {
                    lemma_exprs_grow(s, *args);
                },
            }
        },
        ExprKind::CtorCall { args, target: _ } => {
            lemma_exprs_grow(s, *args);
        },
        ExprKind::NewArray { ty: _, dims, initializer } => {
            lemma_exprs_grow(s, *dims);
            if let Some(l) = initializer {
                lemma_exprs_grow(s.after_exprs(*dims), *l);
                lemma_grown(s, s.after_exprs(*dims), s.after_expr(e));
            }
        },
        ExprKind::ArrayInit(l) => {
            lemma_exprs_grow(s, *l);
        },
        ExprKind::Unary { op: _, expr } => {
            lemma_write_grows(s, *expr);
            law_scan_of_expression_grows(s, *expr);
            law_scan_of_expression_grows(s.written(*expr), *expr);
            lemma_grown(s, s.written(*expr), s.written(*expr).after_expr(*expr));
        },
        ExprKind::Postfix { expr } => {
            lemma_write_grows(s, *expr);
            law_scan_of_expression_grows(s.written(*expr), *expr);
            lemma_grown(s, s.written(*expr), s.after_expr(e));
        },
        ExprKind::Binary { op: _, lhs, rhs } => {
            law_scan_of_expression_grows(s, *lhs);
            law_scan_of_expression_grows(s.after_expr(*lhs), *rhs);
            lemma_grown(s, s.after_expr(*lhs), s.after_expr(e));
        },
        ExprKind::Assign { op, lhs, rhs } => {
            let s1 = match op {
                AssignOp::Assign => s.assigned(*lhs),
                AssignOp::Compound => s.written(*lhs),
            };
            lemma_write_grows(s, *lhs);
            law_scan_of_expression_grows(s1, *lhs);
            lemma_grown(s, s1, s1.after_expr(*lhs));
            law_scan_of_expression_grows(s1.after_expr(*lhs), *rhs);
            lemma_grown(s, s1.after_expr(*lhs), s.after_expr(e));
        },
        ExprKind::Cast { ty: _, expr } => {
            law_scan_of_expression_grows(s, *expr);
        },
        ExprKind::InstanceOf { expr, pattern: _, ty: _ } => {
            law_scan_of_expression_grows(s, *expr);
        },
        ExprKind::Conditional { cond, then_arm, else_arm } => {
            let s1 = s.after_expr(*cond);
            let s2 = s1.after_expr(*then_arm);
            law_scan_of_expression_grows(s, *cond);
            law_scan_of_expression_grows(s1, *then_arm);
            lemma_grown(s, s1, s2);
            law_scan_of_expression_grows(s2, *else_arm);
            lemma_grown(s, s2, s.after_expr(e));
        },
        ExprKind::Lambda { params, body } => {
            let inner = s.enter(true);
            let s1 = inner.bind_params(params);
            lemma_params_grow(inner, params);
            lemma_grown(s, inner, s1);
            match body {
                LambdaBody::Expr(b) => {
                    law_scan_of_expression_grows(s1, *b);
                    lemma_grown(s, s1, s1.after_expr(*b));
                },
                LambdaBody::Block(b) => {
                    law_scan_of_statement_grows(s1, *b);
                    lemma_grown(s, s1, s1.after_stmt(*b));
                },
            }
        },
        ExprKind::MethodRef { qualifier, named: _, name: _ } => {
            if let Some(q) = qualifier {
                law_scan_of_expression_grows(s, *q);
            }
        },
        ExprKind::Switch { scrutinee, arms } => {
            law_scan_of_expression_grows(s, *scrutinee);
            lemma_arms_grow(s.after_expr(*scrutinee), *arms);
            lemma_grown(s, s.after_expr(*scrutinee), s.after_expr(e));
        },
        ExprKind::Paren(inner) => {
            law_scan_of_expression_grows(s, *inner);
        },
        _ => {},
    }
}

proof fn lemma_exprs_grow(s: ScanState, l: List<Expr>)
    ensures
        grown(s, s.after_exprs(l)),
    decreases l,
{
    if let List::Cons(h, t) = l {
        law_scan_of_expression_grows(s, *h);
        lemma_exprs_grow(s.after_expr(*h), *t);
        lemma_grown(s, s.after_expr(*h), s.after_exprs(l));
    }
}

proof fn lemma_labels_grow(s: ScanState, l: List<SwitchLabel>)
    ensures
        grown(s, s.after_labels(l)),
    decreases l,
{
    if let List::Cons(h, t) = l {
        match *h {
            SwitchLabel::Expr(e) => {
                law_scan_of_expression_grows(s, e);
                lemma_labels_grow(s.after_expr(e), *t);
                lemma_grown(s, s.after_expr(e), s.after_labels(l));
            },
            _ => {
                lemma_labels_grow(s, *t);
            },
        }
    }
}

proof fn lemma_arms_grow(s: ScanState, l: List<SwitchArm>)
    ensures
        grown(s, s.after_arms(l)),
    decreases l,
{
    if let List::Cons(h, t) = l {
        let s1 = s.after_labels(h.labels);
        let s2 = s1.after_stmts(h.body);
        lemma_labels_grow(s, h.labels);
        lemma_stmts_grow(s1, h.body);
        lemma_grown(s, s1, s2);
        lemma_arms_grow(s2, *t);
        lemma_grown(s, s2, s.after_arms(l));
    }
}

proof fn lemma_resources_grow(s: ScanState, l: List<Resource>)
    ensures
        grown(s, s.after_resources(l)),
    decreases l,
{
    if let List::Cons(h, t) = l {
        let s1 = s.declare_set(h.local);
        lemma_declare_grows(s, h.local);
        let s2 = match h.initializer {
            Some(e) => s1.after_expr(e),
            None => s1,
        };
        if let Some(e) = h.initializer {
            law_scan_of_expression_grows(s1, e);
            lemma_grown(s, s1, s2);
        }
        lemma_resources_grow(s2, *t);
        lemma_grown(s, s2, s.after_resources(l));
    }
}

proof fn lemma_catches_grow(s: ScanState, l: List<Catch>)
    ensures
        grown(s, s.after_catches(l)),
    decreases l,
{
    if let List::Cons(h, t) = l {
        let s1 = s.enter(false).declare_set(h.param);
        let s2 = s1.after_stmt(h.body);
        lemma_declare_grows(s.enter(false), h.param);
        lemma_grown(s, s.enter(false), s1);
        law_scan_of_statement_grows(s1, h.body);
        lemma_grown(s, s1, s2);
        lemma_catches_grow(s2.leave(), *t);
        lemma_grown(s, s2.leave(), s.after_catches(l));
    }
}

/// Scanning on never takes back what was found: behind a statement, every
/// variable known to be assigned again, every capture and every first value is
/// still known.
pub proof fn law_scan_of_statement_grows(s: ScanState, stmt: Stmt)
    ensures
        grown(s, s.after_stmt(stmt)),
    decreases stmt,
{
    match stmt.kind {
        StmtKind::Block(l) => {
            lemma_stmts_grow(s.enter(false), *l);
            lemma_grown(s, s.enter(false), s.enter(false).after_stmts(*l));
        },
        StmtKind::DeclGroup(l) => {
            lemma_stmts_grow(s, *l);
        },
        StmtKind::Decl { local, initializer } => {
            match initializer {
                Some(e) => {
                    let s1 = s.declare_set(local);
                    lemma_declare_grows(s, local);
                    law_scan_of_expression_grows(s1, e);
                    lemma_grown(s, s1, s.after_stmt(stmt));
                },
                None => {
                    lemma_bind_grows(s, local.name, local.id);
                },
            }
        },
        StmtKind::Expr(e) => {
            law_scan_of_expression_grows(s, e);
        },
        StmtKind::Labeled { label: _, stmt: inner } => {
            law_scan_of_statement_grows(s, *inner);
        },
        StmtKind::If { cond, then_arm, else_arm } => {
            let s0 = s.after_expr(cond);
            let s1 = s0.after_stmt(*then_arm);
            let s2 = ScanState { counts: s0.counts, ..s1 };
            let s3 = match else_arm {
                Some(e) => s2.after_stmt(*e),
                None => s2,
            };
            law_scan_of_expression_grows(s, cond);
            law_scan_of_statement_grows(s0, *then_arm);
            lemma_grown(s, s0, s1);
            lemma_grown(s, s1, s2);
            if let Some(e) = else_arm {
                law_scan_of_statement_grows(s2, *e);
                lemma_grown(s, s2, s3);
            }
            lemma_join_grows(s3, s0.counts, s1.counts, s3.counts);
            lemma_grown(s, s3, s.after_stmt(stmt));
        },
        StmtKind::While { cond, body } => {
            law_scan_of_expression_grows(s, cond);
            law_scan_of_statement_grows(s.after_expr(cond), *body);
            lemma_grown(s, s.after_expr(cond), s.after_stmt(stmt));
        },
        StmtKind::DoWhile { body, cond } => {
            law_scan_of_expression_grows(s, cond);
            law_scan_of_statement_grows(s.after_expr(cond), *body);
            lemma_grown(s, s.after_expr(cond), s.after_stmt(stmt));
        },
        StmtKind::For { init, cond, step, body } => {
            let s1 = s.enter(false).after_stmts(*init);
            let s2 = match cond {
                Some(c) => s1.after_expr(c),
                None => s1,
            };
            let s3 = s2.after_exprs(step);
            lemma_stmts_grow(s.enter(false), *init);
            lemma_grown(s, s.enter(false), s1);
            if let Some(c) = cond {
                law_scan_of_expression_grows(s1, c);
                lemma_grown(s, s1, s2);
            }
            lemma_exprs_grow(s2, step);
            lemma_grown(s, s2, s3);
            law_scan_of_statement_grows(s3, *body);
            lemma_grown(s, s3, s3.after_stmt(*body));
        },
        StmtKind::ForEach { var, iterable, body } => {
            let s1 = s.enter(false).declare_set(var);
            let s2 = s1.after_expr(iterable);
            lemma_declare_grows(s.enter(false), var);
            lemma_grown(s, s.enter(false), s1);
            law_scan_of_expression_grows(s1, iterable);
            lemma_grown(s, s1, s2);
            law_scan_of_statement_grows(s2, *body);
            lemma_grown(s, s2, s2.after_stmt(*body));
        },
        StmtKind::Switch { scrutinee, arms } => {
            law_scan_of_expression_grows(s, scrutinee);
            lemma_arms_grow(s.after_expr(scrutinee), *arms);
            lemma_grown(s, s.after_expr(scrutinee), s.after_stmt(stmt));
        },
        StmtKind::Return(value) => {
            if let Some(e) = value {
                law_scan_of_expression_grows(s, e);
            }
        },
        StmtKind::Yield(e) => {
            law_scan_of_expression_grows(s, e);
        },
        StmtKind::Throw(e) => {
            law_scan_of_expression_grows(s, e);
        },
        StmtKind::Synchronized { expr, body } => {
            law_scan_of_expression_grows(s, expr);
            law_scan_of_statement_grows(s.after_expr(expr), *body);
            lemma_grown(s, s.after_expr(expr), s.after_stmt(stmt));
        },
        StmtKind::Try { resources, body, catches, finally_block } => {
            let s1 = s.after_resources(resources);
            let s2 = s1.after_stmt(*body);
            let s3 = s2.after_catches(*catches);
            lemma_resources_grow(s, resources);
            law_scan_of_statement_grows(s1, *body);
            lemma_grown(s, s1, s2);
            lemma_catches_grow(s2, *catches);
            lemma_grown(s, s2, s3);
            if let Some(f) = finally_block {
                law_scan_of_statement_grows(s3, *f);
                lemma_grown(s, s3, s3.after_stmt(*f));
            }
        },
        StmtKind::Assert { cond, msg } => {
            law_scan_of_expression_grows(s, cond);
            if let Some(m) = msg {
                law_scan_of_expression_grows(s.after_expr(cond), m);
                lemma_grown(s, s.after_expr(cond), s.after_stmt(stmt));
            }
        },
        _ => {},
    }
}

proof fn lemma_stmts_grow(s: ScanState, l: List<Stmt>)
    ensures
        grown(s, s.after_stmts(l)),
    decreases l,
{
    if let List::Cons(h, t) = l {
        law_scan_of_statement_grows(s, *h);
        lemma_stmts_grow(s.after_stmt(*h), *t);
        lemma_grown(s, s.after_stmt(*h), s.after_stmts(l));
    }
}

/// A capture is reported exactly where its variable is assigned again anywhere
/// in the body, also behind the lambda.
pub proof fn law_offending_captures(captures: List<Capture>, mutated: Set<u32>, c: Capture)
    ensures
        offending(captures, mutated).has(c) == (captures.has(c) && mutated.contains(c.local)),
    decreases captures,
{
    if let List::Cons(_, t) = captures {
        law_offending_captures(*t, mutated, c);
    }
}

} // verus!
