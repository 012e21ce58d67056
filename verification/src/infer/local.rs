//! Local variables and patterns.
use crate::body::{BinaryOp, Expr, ExprKind, Local, Pattern, PatternKind, UnaryOp};
use crate::db::{ClassInfo, TyDatabase};
use crate::infer::ctx::{take, Binding, InferCtx, Site};
use crate::infer::diag::TypeError;
use crate::items::{ItemData, TextRange, TypeRef};
use crate::list::{assoc_get, assoc_put, get_assoc, put_assoc, Data, List};
use crate::names::Name;
use crate::ty::Ty;
use vstd::prelude::*;

verus! {

/// The variable that a name denotes in the scopes, innermost first.
pub open spec fn found_local(scopes: List<List<(Name, Binding)>>, name: Name) -> Option<Binding>
    decreases scopes,
{
    match scopes {
        List::Nil => None,
        List::Cons(h, t) => match assoc_get(*h, name) {
            Some(b) => Some(b),
            None => found_local(*t, name),
        },
    }
}

/// The parameter of a lambda that a name denotes, innermost first.
pub open spec fn found_param(params: List<List<(Name, Ty)>>, name: Name) -> Option<Ty>
    decreases params,
{
    match params {
        List::Nil => None,
        List::Cons(h, t) => match assoc_get(*h, name) {
            Some(ty) => Some(ty),
            None => found_param(*t, name),
        },
    }
}

/// The variable that a name denotes in the scopes.
pub fn find_local(scopes: &List<List<(Name, Binding)>>, name: Name) -> (r: Option<Binding>)
    ensures
        r == found_local(*scopes, name),
    decreases scopes,
{
    match scopes {
        List::Nil => None,
        List::Cons(h, t) => match get_assoc(h, &name) {
            Some(b) => Some(b),
            None => find_local(t, name),
        },
    }
}

/// The parameter of a lambda that a name denotes.
pub fn find_param(params: &List<List<(Name, Ty)>>, name: Name) -> (r: Option<Ty>)
    ensures
        r == found_param(*params, name),
    decreases params,
{
    match params {
        List::Nil => None,
        List::Cons(h, t) => match get_assoc(h, &name) {
            Some(ty) => Some(ty),
            None => find_param(t, name),
        },
    }
}

/// The stack with an entry in its innermost frame.
pub open spec fn put_inner<V>(stack: List<List<(Name, V)>>, name: Name, v: V) -> List<
    List<(Name, V)>,
> {
    match stack {
        List::Nil => List::Nil,
        List::Cons(h, t) => List::Cons(Box::new(assoc_put(*h, name, v)), t),
    }
}

/// The stack with an entry in its innermost frame.
pub fn insert_inner<V: Data>(stack: List<List<(Name, V)>>, name: Name, v: V) -> (r: List<
    List<(Name, V)>,
>)
    ensures
        r == put_inner(stack, name, v),
{
    match stack {
        List::Nil => List::Nil,
        List::Cons(h, t) => List::Cons(Box::new(put_assoc(&h, &name, v)), t),
    }
}

/// The number of elements, as far as it can be written.
pub open spec fn len32<T>(l: List<T>) -> u32 {
    if l.count() <= u32::MAX {
        l.count() as u32
    } else {
        u32::MAX
    }
}

/// The number of elements, as far as it can be written.
pub fn length<T>(l: &List<T>) -> (r: u32)
    ensures
        r == len32(*l),
    decreases l,
{
    match l {
        List::Nil => 0,
        List::Cons(_, t) => {
            let n: u32 = length(t);
            if n < u32::MAX {
                n + 1
            } else {
                n
            }
        },
    }
}

/// The number of components of a record.
pub open spec fn component_count<D: TyDatabase>(db: &D, t: Ty) -> Option<u32> {
    match t {
        Ty::Reference { name, args: _, local: _ } => match db.class_info(name) {
            Some(ClassInfo::Source { class, type_params: _ }) => match db.tree_of(class.file).item(
                class.item,
            ) {
                Some(ItemData::Record(d)) => Some(len32(d.components)),
                _ => None,
            },
            Some(ClassInfo::Library { arity: _ }) => db.library_components(name),
            _ => None,
        },
        _ => None,
    }
}

/// The number of components of a record; `None` where it is not known.
pub fn record_component_count<D: TyDatabase>(db: &D, t: &Ty) -> (r: Option<u32>)
    ensures
        r == component_count(db, *t),
{
    match t {
        Ty::Reference { name, args: _, local: _ } => match db.resolve_class(*name) {
            Some(ClassInfo::Source { class, type_params: _ }) => match db.file_item_tree(
                class.file,
            ).get(class.item) {
                Some(ItemData::Record(d)) => Some(length(&d.components)),
                _ => None,
            },
            Some(ClassInfo::Library { arity: _ }) => db.library_record_components(*name),
            _ => None,
        },
        _ => None,
    }
}

/// The variable of a declaration.
pub open spec fn binding(local: Local) -> Binding {
    Binding { name: local.name, id: local.id, is_final: local.is_final }
}

pub fn binding_of(local: &Local) -> (r: Binding)
    ensures
        r == binding(*local),
{
    Binding { name: local.name, id: local.id, is_final: local.is_final }
}

/// The variables that a pattern binds.
pub open spec fn bindings(p: Pattern) -> List<Binding>
    decreases p,
{
    match p.kind {
        PatternKind::Type { ty: _, binding: local } => match local {
            Some(l) => List::Cons(Box::new(binding(l)), Box::new(List::Nil)),
            None => List::Nil,
        },
        PatternKind::Record { ty: _, components } => all_bindings(*components),
        PatternKind::MatchAll => List::Nil,
    }
}

pub open spec fn all_bindings(l: List<Pattern>) -> List<Binding>
    decreases l,
{
    match l {
        List::Nil => List::Nil,
        List::Cons(h, t) => bindings(*h).plus(all_bindings(*t)),
    }
}

/// The variables that a pattern binds.
pub fn pattern_bindings_of(p: &Pattern) -> (r: List<Binding>)
    ensures
        r == bindings(*p),
    decreases p,
{
    match &p.kind {
        PatternKind::Type { ty: _, binding: local } => match local {
            Some(l) => List::cons(binding_of(l), List::Nil),
            None => List::Nil,
        },
        PatternKind::Record { ty: _, components } => patterns_bindings_of(components),
        PatternKind::MatchAll => List::Nil,
    }
}

fn patterns_bindings_of(l: &List<Pattern>) -> (r: List<Binding>)
    ensures
        r == all_bindings(*l),
    decreases l,
{
    match l {
        List::Nil => List::Nil,
        List::Cons(h, t) => pattern_bindings_of(h).append(patterns_bindings_of(t)),
    }
}

/// The variables that are bound where a condition is true, and where it is
/// false.
pub open spec fn bound_by(e: Expr) -> Option<(List<Binding>, List<Binding>)>
    decreases e,
{
    match e.kind {
        ExprKind::InstanceOf { expr: _, pattern, ty: _ } => match pattern {
            Some(p) => Some((bindings(*p), List::Nil)),
            None => Some((List::Nil, List::Nil)),
        },
        ExprKind::Paren(inner) => bound_by(*inner),
        ExprKind::Unary { op, expr } => if op == UnaryOp::Not {
            match bound_by(*expr) {
                Some((a, b)) => Some((b, a)),
                None => None,
            }
        } else {
            None
        },
        ExprKind::Binary { op, lhs, rhs } => if op == BinaryOp::And || op == BinaryOp::Or {
            let (lt, lf) = match bound_by(*lhs) {
                Some(o) => o,
                None => (List::Nil, List::Nil),
            };
            let (rt, rf) = match bound_by(*rhs) {
                Some(o) => o,
                None => (List::Nil, List::Nil),
            };
            Some((lt.plus(rt), lf.plus(rf)))
        } else {
            None
        },
        _ => None,
    }
}

/// The variables that are bound where a condition is true, and where it is
/// false.
pub fn pattern_flow(e: &Expr) -> (r: Option<(List<Binding>, List<Binding>)>)
    ensures
        r == bound_by(*e),
    decreases e,
{
    match &e.kind {
        ExprKind::InstanceOf { expr: _, pattern, ty: _ } => match pattern {
            Some(p) => Some((pattern_bindings_of(p), List::Nil)),
            None => Some((List::Nil, List::Nil)),
        },
        ExprKind::Paren(inner) => pattern_flow(inner),
        ExprKind::Unary { op, expr } => if *op == UnaryOp::Not {
            match pattern_flow(expr) {
                Some((a, b)) => Some((b, a)),
                None => None,
            }
        } else {
            None
        },
        ExprKind::Binary { op, lhs, rhs } => if *op == BinaryOp::And || *op == BinaryOp::Or {
            let (lt, lf) = match pattern_flow(lhs) {
                Some(o) => o,
                None => (List::Nil, List::Nil),
            };
            let (rt, rf) = match pattern_flow(rhs) {
                Some(o) => o,
                None => (List::Nil, List::Nil),
            };
            Some((lt.append(rt), lf.append(rf)))
        } else {
            None
        },
        _ => None,
    }
}

/// The variables that are bound where a condition is true, and where it is
/// false; none where it binds none.
pub open spec fn flow_bindings(e: Expr) -> (List<Binding>, List<Binding>) {
    match bound_by(e) {
        Some(o) => o,
        None => (List::Nil, List::Nil),
    }
}

pub fn condition_bindings(e: &Expr) -> (r: (List<Binding>, List<Binding>))
    ensures
        r == flow_bindings(*e),
{
    match pattern_flow(e) {
        Some(o) => o,
        None => (List::Nil, List::Nil),
    }
}

/// The variables that the patterns of a condition bind.
pub open spec fn binding_list(e: Expr) -> Option<List<Binding>>
    decreases e,
{
    match e.kind {
        ExprKind::InstanceOf { expr: _, pattern, ty: _ } => match pattern {
            Some(p) => Some(bindings(*p)),
            None => None,
        },
        ExprKind::Paren(inner) => binding_list(*inner),
        ExprKind::Binary { op, lhs, rhs } => if op == BinaryOp::And || op == BinaryOp::Or {
            let l = match binding_list(*lhs) {
                Some(l) => l,
                None => List::Nil,
            };
            let r = match binding_list(*rhs) {
                Some(r) => r,
                None => List::Nil,
            };
            Some(l.plus(r))
        } else {
            None
        },
        _ => None,
    }
}

/// The variables that the patterns of a condition bind.
pub fn pattern_binding_ids(e: &Expr) -> (r: Option<List<Binding>>)
    ensures
        r == binding_list(*e),
    decreases e,
{
    match &e.kind {
        ExprKind::InstanceOf { expr: _, pattern, ty: _ } => match pattern {
            Some(p) => Some(pattern_bindings_of(p)),
            None => None,
        },
        ExprKind::Paren(inner) => pattern_binding_ids(inner),
        ExprKind::Binary { op, lhs, rhs } => if *op == BinaryOp::And || *op == BinaryOp::Or {
            let l = match pattern_binding_ids(lhs) {
                Some(l) => l,
                None => List::Nil,
            };
            let r = match pattern_binding_ids(rhs) {
                Some(r) => r,
                None => List::Nil,
            };
            Some(l.append(r))
        } else {
            None
        },
        _ => None,
    }
}

/// The written type of a pattern.
pub open spec fn pattern_ref(p: Pattern) -> Option<TypeRef> {
    match p.kind {
        PatternKind::Type { ty, binding: _ } => Some(ty),
        PatternKind::Record { ty, components: _ } => Some(ty),
        PatternKind::MatchAll => None,
    }
}

/// The written type of a pattern.
pub fn pattern_type_ref(p: &Pattern) -> (r: Option<&TypeRef>)
    ensures
        match r {
            Some(t) => pattern_ref(*p) == Some(*t),
            None => pattern_ref(*p) is None,
        },
{
    match &p.kind {
        PatternKind::Type { ty, binding: _ } => Some(ty),
        PatternKind::Record { ty, components: _ } => Some(ty),
        PatternKind::MatchAll => None,
    }
}

impl InferCtx {
    /// The variable has a type and a value and is in scope. A name that a
    /// variable or a lambda parameter around has is reported.
    #[verifier::opaque]
    pub open spec fn bound(self, local: Local, ty: Ty) -> InferCtx {
        let duplicate = found_local(self.scopes, local.name) is Some || found_param(
            self.lambda_params,
            local.name,
        ) is Some;
        let s = InferCtx {
            locals: assoc_put(self.locals, local.id, ty),
            flow: self.flow.set(local.id),
            scopes: put_inner(self.scopes, local.name, binding(local)),
            ..self
        };
        if duplicate {
            s.told(TypeError::VariableAlreadyDefined { local: local.id, name: local.name })
        } else {
            s
        }
    }

    /// The variable has a type and a value and is in scope.
    pub fn bind_local(&mut self, local: &Local, ty: Ty)
        ensures
            *final(self) == old(self).bound(*local, ty),
            final(self).frame() == old(self).frame(),
            final(self).exited == old(self).exited,
    {
        proof {
            reveal(InferCtx::frame);
            reveal(InferCtx::bound);
        }
        let duplicate = find_local(&self.scopes, local.name).is_some() || find_param(
            &self.lambda_params,
            local.name,
        ).is_some();
        self.locals = put_assoc(&self.locals, &local.id, ty);
        self.flow = self.flow.insert(local.id);
        let scopes = take(&mut self.scopes);
        self.scopes = insert_inner(scopes, local.name, binding_of(local));
        if duplicate {
            self.report(TypeError::VariableAlreadyDefined { local: local.id, name: local.name });
        }
    }

    /// The written type of a variable, or `other` for one without.
    pub open spec fn local_type<D: TyDatabase>(db: &D, site: Site, local: Local, other: Ty) -> Ty {
        match local.ty {
            Some(t) => db.resolved_type(site.file, site.item, t.shape),
            None => other,
        }
    }

    /// The variable is in scope with its written type, or `fallback`.
    #[verifier::opaque]
    pub open spec fn declared<D: TyDatabase>(
        self,
        db: &D,
        site: Site,
        local: Local,
        fallback: Ty,
    ) -> InferCtx {
        self.bound(local, InferCtx::local_type(db, site, local, fallback))
    }

    /// The variable is in scope with its written type, or `fallback`.
    pub fn declare_local_ty<D: TyDatabase>(
        &mut self,
        db: &D,
        site: &Site,
        local: &Local,
        fallback: Ty,
    )
        ensures
            *final(self) == old(self).declared(db, *site, *local, fallback),
            final(self).frame() == old(self).frame(),
            final(self).exited == old(self).exited,
    {
        proof {
            reveal(InferCtx::declared);
        }
        let ty = match &local.ty {
            Some(t) => db.resolve_type_ref(site.file, site.item, &t.shape),
            None => fallback,
        };
        self.bind_local(local, ty);
    }

    /// The variable is in scope with its written type.
    pub fn declare_local<D: TyDatabase>(&mut self, db: &D, site: &Site, local: &Local)
        ensures
            *final(self) == old(self).declared(db, *site, *local, Ty::Error),
            final(self).frame() == old(self).frame(),
            final(self).exited == old(self).exited,
    {
        proof {
            reveal(InferCtx::declared);
        }
        self.declare_local_ty(db, site, local, Ty::Error);
    }

    /// The parameters are in scope.
    pub open spec fn declared_params<D: TyDatabase>(self, db: &D, site: Site, l: List<Local>) -> InferCtx
        decreases l,
    {
        match l {
            List::Nil => self,
            List::Cons(h, t) => self.declared(db, site, *h, Ty::Error).declared_params(
                db,
                site,
                *t,
            ),
        }
    }

    /// The parameters are in scope, each with a value.
    pub fn declare_params<D: TyDatabase>(&mut self, db: &D, site: &Site, l: &List<Local>)
        ensures
            *final(self) == old(self).declared_params(db, *site, *l),
            final(self).frame() == old(self).frame(),
            final(self).exited == old(self).exited,
        decreases l,
    {
        match l {
            List::Nil => {},
            List::Cons(h, t) => {
                self.declare_local(db, site, h);
                self.declare_params(db, site, t);
            },
        }
    }

    /// A report where a parameter of a lambda has the name of another, or of a
    /// variable around.
    #[verifier::opaque]
    pub open spec fn param_checked(self, lambda: u32, name: Name, range: TextRange) -> InferCtx {
        if found_param(self.lambda_params, name) is Some || found_local(
            self.scopes,
            name,
        ) is Some {
            self.told(TypeError::LambdaParameterAlreadyDefined { lambda, name, range })
        } else {
            self
        }
    }

    /// A report where a parameter of a lambda has the name of another, or of a
    /// variable around.
    pub fn check_lambda_param_duplicate(&mut self, lambda: u32, name: Name, range: TextRange)
        ensures
            *final(self) == old(self).param_checked(lambda, name, range),
            final(self).frame() == old(self).frame(),
            final(self).exited == old(self).exited,
    {
        proof {
            reveal(InferCtx::param_checked);
        }
        if find_param(&self.lambda_params, name).is_some() || find_local(
            &self.scopes,
            name,
        ).is_some() {
            self.report(TypeError::LambdaParameterAlreadyDefined { lambda, name, range });
        }
    }

    /// The variable of a pattern is in scope and has a value.
    pub open spec fn scoped(self, b: Binding) -> InferCtx {
        InferCtx {
            flow: self.flow.set(b.id),
            scopes: put_inner(self.scopes, b.name, b),
            ..self
        }
    }

    #[verifier::opaque]
    pub open spec fn scoped_all(self, l: List<Binding>) -> InferCtx
        decreases l,
    {
        match l {
            List::Nil => self,
            List::Cons(h, t) => self.scoped(*h).scoped_all(*t),
        }
    }

    /// The variable of a pattern is in scope and has a value.
    pub fn scope_binding(&mut self, b: Binding)
        ensures
            *final(self) == old(self).scoped(b),
            final(self).frame() == old(self).frame(),
            final(self).exited == old(self).exited,
    {
        proof {
            reveal(InferCtx::frame);
        }
        self.flow = self.flow.insert(b.id);
        let scopes = take(&mut self.scopes);
        self.scopes = insert_inner(scopes, b.name, b);
    }

    /// The variables of a pattern are in scope and have values.
    pub fn scope_bindings(&mut self, l: &List<Binding>)
        ensures
            *final(self) == old(self).scoped_all(*l),
            final(self).frame() == old(self).frame(),
            final(self).exited == old(self).exited,
        decreases l,
    {
        proof {
            reveal(InferCtx::scoped_all);
        }
        match l {
            List::Nil => {},
            List::Cons(h, t) => {
                self.scope_binding(**h);
                self.scope_bindings(t);
            },
        }
    }

    /// The types of the variables of a pattern, and a report on a record
    /// pattern with a wrong number of components.
    pub open spec fn after_pattern<D: TyDatabase>(self, db: &D, site: Site, p: Pattern) -> InferCtx
        decreases p,
    {
        match p.kind {
            PatternKind::Type { ty, binding: local } => match local {
                Some(l) => InferCtx {
                    locals: assoc_put(
                        self.locals,
                        l.id,
                        db.resolved_type(site.file, site.item, ty.shape),
                    ),
                    ..self
                },
                None => self,
            },
            PatternKind::Record { ty, components } => {
                let t = db.resolved_type(site.file, site.item, ty.shape);
                let s = match component_count(db, t) {
                    Some(expected) => if expected != len32(*components) {
                        self.told(
                            TypeError::IncorrectNumberOfPatternComponents {
                                pattern: p.id,
                                expected,
                                found: len32(*components),
                            },
                        )
                    } else {
                        self
                    },
                    None => self,
                };
                s.after_patterns(db, site, *components)
            },
            PatternKind::MatchAll => self,
        }
    }

    pub open spec fn after_patterns<D: TyDatabase>(
        self,
        db: &D,
        site: Site,
        l: List<Pattern>,
    ) -> InferCtx
        decreases l,
    {
        match l {
            List::Nil => self,
            List::Cons(h, t) => self.after_pattern(db, site, *h).after_patterns(db, site, *t),
        }
    }

    /// The types of the variables of a pattern.
    pub fn pattern_type<D: TyDatabase>(&mut self, db: &D, site: &Site, p: &Pattern)
        ensures
            *final(self) == old(self).after_pattern(db, *site, *p),
            final(self).frame() == old(self).frame(),
            final(self).exited == old(self).exited,
        decreases p,
    {
        proof {
            reveal(InferCtx::frame);
        }
        match &p.kind {
            PatternKind::Type { ty, binding: local } => {
                if let Some(l) = local {
                    let t = db.resolve_type_ref(site.file, site.item, &ty.shape);
                    self.locals = put_assoc(&self.locals, &l.id, t);
                }
            },
            PatternKind::Record { ty, components } => {
                let t = db.resolve_type_ref(site.file, site.item, &ty.shape);
                if let Some(expected) = record_component_count(db, &t) {
                    let found: u32 = length(components);
                    if expected != found {
                        self.report(
                            TypeError::IncorrectNumberOfPatternComponents {
                                pattern: p.id,
                                expected,
                                found,
                            },
                        );
                    }
                }
                self.pattern_types(db, site, components);
            },
            PatternKind::MatchAll => {},
        }
    }

    fn pattern_types<D: TyDatabase>(&mut self, db: &D, site: &Site, l: &List<Pattern>)
        ensures
            *final(self) == old(self).after_patterns(db, *site, *l),
            final(self).frame() == old(self).frame(),
            final(self).exited == old(self).exited,
        decreases l,
    {
        match l {
            List::Nil => {},
            List::Cons(h, t) => {
                self.pattern_type(db, site, h);
                self.pattern_types(db, site, t);
            },
        }
    }
}

/// Once a variable is bound, its name denotes it and it has a value.
pub proof fn law_bound_is_found(s: InferCtx, local: Local, ty: Ty)
    requires
        !(s.scopes is Nil),
    ensures
        found_local(s.bound(local, ty).scopes, local.name) == Some(binding(local)),
        assoc_get(s.bound(local, ty).locals, local.id) == Some(ty),
        s.bound(local, ty).flow.definite.has(local.id),
{
    reveal(InferCtx::bound);
    reveal(InferCtx::told);
    crate::list::lemma_assoc(s.locals, local.id, ty, local.id);
    if let List::Cons(h, _) = s.scopes {
        crate::list::lemma_assoc(*h, local.name, binding(local), local.name);
    }
    crate::infer::flow::law_set_and_unset(s.flow, local.id, local.id);
}

/// Negating a condition twice binds what the condition binds.
pub proof fn law_double_negation(inner: Expr, outer: Expr, e: Expr)
    requires
        inner.kind == (ExprKind::Unary { op: UnaryOp::Not, expr: Box::new(e) }),
        outer.kind == (ExprKind::Unary { op: UnaryOp::Not, expr: Box::new(inner) }),
    ensures
        bound_by(outer) == bound_by(e),
{
    assert(bound_by(inner) == match bound_by(e) {
        Some((a, b)) => Some((b, a)),
        None => None,
    });
}

} // verus!
