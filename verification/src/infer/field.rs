//! Fields: which one a name means, and whether it may be written.
use crate::body::{Expr, ExprKind};
use crate::db::{FieldLookup, TyDatabase};
use crate::infer::ctx::{break_labels, take, InferCtx, InitCtx, Site};
use crate::infer::diag::{IllegalAccessKind, TypeError};
use crate::infer::flow::{BreakFrame, Flow};
use crate::infer::local::{find_local, found_local};
use crate::items::{ItemData, ItemTree, Param};
use crate::list::{Data, List};
use crate::member::{ClassKey, FieldData, InvocationContext};
use crate::names::Name;
use crate::ty::Ty;
use crate::walk::DiagLocation;
use vstd::prelude::*;

verus! {

/// Whether a final field may be written here.
#[derive(Clone, Copy, Debug, PartialEq, Eq, Structural)]
pub enum FinalFieldWrite {
    Legal,
    AlreadyAssigned,
    CannotAssign,
}

/// The frames with a flow in the innermost one, or in the innermost one with
/// the label.
pub open spec fn with_break(frames: List<BreakFrame>, label: Option<Name>, flow: Flow) -> List<
    BreakFrame,
>
    decreases frames,
{
    match frames {
        List::Nil => List::Nil,
        List::Cons(h, t) => if label is None || h.label == label {
            List::Cons(
                Box::new(
                    BreakFrame {
                        label: h.label,
                        flows: List::Cons(Box::new(flow), Box::new(h.flows)),
                    },
                ),
                t,
            )
        } else {
            List::Cons(h, Box::new(with_break(*t, label, flow)))
        },
    }
}

proof fn lemma_break_labels(frames: List<BreakFrame>, label: Option<Name>, flow: Flow)
    ensures
        break_labels(with_break(frames, label, flow)) == break_labels(frames),
    decreases frames,
{
    if let List::Cons(_, t) = frames {
        lemma_break_labels(*t, label, flow);
    }
}

fn add_break(frames: List<BreakFrame>, label: &Option<Name>, flow: Flow) -> (r: List<BreakFrame>)
    ensures
        r == with_break(frames, *label, flow),
    decreases frames,
{
    match frames {
        List::Nil => List::Nil,
        List::Cons(h, t) => {
            if label.is_none() || h.label.same(label) {
                let frame = BreakFrame { label: h.label, flows: List::cons(flow, h.flows.copy()) };
                List::Cons(Box::new(frame), t)
            } else {
                List::Cons(h, Box::new(add_break(*t, label, flow)))
            }
        },
    }
}

/// The classes around a body, innermost first.
pub open spec fn levels(site: Site) -> List<Ty> {
    match site.enclosing_class {
        Some(c) => List::Cons(Box::new(c), Box::new(site.enclosing_chain)),
        None => site.enclosing_chain,
    }
}

/// The classes around a body, innermost first.
pub fn class_levels(site: &Site) -> (r: List<Ty>)
    ensures
        r == levels(*site),
{
    match &site.enclosing_class {
        Some(c) => List::cons(c.copy(), site.enclosing_chain.copy()),
        None => site.enclosing_chain.copy(),
    }
}

/// The field that a simple name means: that of the innermost class that has
/// one.
pub open spec fn chain_field<D: TyDatabase>(
    db: &D,
    l: List<Ty>,
    name: Name,
    ctx: InvocationContext,
) -> FieldLookup
    decreases l,
{
    match l {
        List::Nil => FieldLookup::Missing,
        List::Cons(h, t) => match db.field(*h, name, ctx) {
            FieldLookup::Missing => chain_field(db, *t, name, ctx),
            found => found,
        },
    }
}

fn find_chain_field<D: TyDatabase>(
    db: &D,
    l: &List<Ty>,
    name: Name,
    ctx: &InvocationContext,
) -> (r: FieldLookup)
    ensures
        r == chain_field(db, *l, name, *ctx),
    decreases l,
{
    match l {
        List::Nil => FieldLookup::Missing,
        List::Cons(h, t) => match db.pick_field_lookup(h, name, ctx) {
            FieldLookup::Missing => find_chain_field(db, t, name, ctx),
            found => found,
        },
    }
}

/// The field that an access means, where it means one.
pub open spec fn picked_field<D: TyDatabase>(
    db: &D,
    receiver: Ty,
    name: Name,
    ctx: InvocationContext,
) -> Option<FieldData> {
    match db.field(receiver, name, ctx) {
        FieldLookup::Found(f) => Some(f),
        _ => None,
    }
}

/// The field that an access means, where it means one.
pub fn pick_field<D: TyDatabase>(
    db: &D,
    receiver: &Ty,
    name: Name,
    ctx: &InvocationContext,
) -> (r: Option<FieldData>)
    ensures
        r == picked_field(db, *receiver, name, *ctx),
{
    match db.pick_field_lookup(receiver, name, ctx) {
        FieldLookup::Found(f) => Some(f),
        _ => None,
    }
}

/// The field that an access to a receiver means, where there is a receiver.
pub fn pick_field_of<D: TyDatabase>(db: &D, site: &Site, receiver: &Option<Ty>, name: Name) -> (r:
    Option<FieldData>)
    ensures
        r == (match *receiver {
            Some(t) => picked_field(db, t, name, site.access),
            None => None,
        }),
{
    match receiver {
        Some(t) => pick_field(db, t, name, &site.access),
        None => None,
    }
}

/// Whether a simple name means a field of the classes around, or several.
pub fn pick_field_of_chain_exists<D: TyDatabase>(db: &D, site: &Site, name: Name) -> (r: bool)
    ensures
        r == !(chain_field(db, levels(*site), name, site.access) is Missing),
{
    let l = class_levels(site);
    match find_chain_field(db, &l, name, &site.access) {
        FieldLookup::Missing => false,
        _ => true,
    }
}

/// Whether one of the components has the name.
pub open spec fn has_component(l: List<Param>, name: Name) -> bool
    decreases l,
{
    match l {
        List::Nil => false,
        List::Cons(h, t) => h.name == name || has_component(*t, name),
    }
}

fn is_component(l: &List<Param>, name: Name) -> (r: bool)
    ensures
        r == has_component(*l, name),
    decreases l,
{
    match l {
        List::Nil => false,
        List::Cons(h, t) => h.name == name || is_component(t, name),
    }
}

/// Whether a declaration, or one inside it, is a field of the name without an
/// initializer, or a record with a component of the name.
pub open spec fn blank_in(tree: ItemTree, id: u32, name: Name) -> bool
    decreases tree.items@.len() - id, 1nat, List::<u32>::Nil,
{
    match tree.item(id) {
        None => false,
        Some(data) => match data {
            ItemData::Field(f) => if f.name == name {
                !f.has_initializer
            } else {
                blank_among(tree, id, f.body, name)
            },
            ItemData::Record(d) => has_component(d.components, name) || blank_among(
                tree,
                id,
                d.body,
                name,
            ),
            _ => blank_among(tree, id, data.children(), name),
        },
    }
}

/// Whether one of the declarations behind `parent` holds such a field.
pub open spec fn blank_among(tree: ItemTree, parent: u32, l: List<u32>, name: Name) -> bool
    decreases tree.items@.len() - parent, 0nat, l,
{
    match l {
        List::Nil => false,
        List::Cons(h, t) => (parent < *h < tree.items@.len() && blank_in(tree, *h, name))
            || blank_among(tree, parent, *t, name),
    }
}

/// Whether one of the top-level declarations holds such a field.
pub open spec fn blank_at_top(tree: ItemTree, l: List<u32>, name: Name) -> bool
    decreases l,
{
    match l {
        List::Nil => false,
        List::Cons(h, t) => blank_in(tree, *h, name) || blank_at_top(tree, *t, name),
    }
}

fn is_blank_in(tree: &ItemTree, id: u32, name: Name) -> (r: bool)
    ensures
        r == blank_in(*tree, id, name),
    decreases tree.items@.len() - id, 1nat, List::<u32>::Nil,
{
    match tree.get(id) {
        None => false,
        Some(data) => match data {
            ItemData::Field(f) => if f.name == name {
                !f.has_initializer
            } else {
                is_blank_among(tree, id, &f.body, name)
            },
            ItemData::Record(d) => is_component(&d.components, name) || is_blank_among(
                tree,
                id,
                &d.body,
                name,
            ),
            _ => {
                let body = data.body();
                is_blank_among(tree, id, &body, name)
            },
        },
    }
}

fn is_blank_among(tree: &ItemTree, parent: u32, l: &List<u32>, name: Name) -> (r: bool)
    requires
        parent < tree.items@.len(),
    ensures
        r == blank_among(*tree, parent, *l, name),
    decreases tree.items@.len() - parent, 0nat, l,
{
    match l {
        List::Nil => false,
        List::Cons(h, t) => (parent < **h && (**h as usize) < tree.items.len() && is_blank_in(
            tree,
            **h,
            name,
        )) || is_blank_among(tree, parent, t, name),
    }
}

fn is_blank_at_top(tree: &ItemTree, l: &List<u32>, name: Name) -> (r: bool)
    ensures
        r == blank_at_top(*tree, *l, name),
    decreases l,
{
    match l {
        List::Nil => false,
        List::Cons(h, t) => is_blank_in(tree, **h, name) || is_blank_at_top(tree, t, name),
    }
}

/// Whether a field of a source class is declared without an initializer.
pub open spec fn blank<D: TyDatabase>(db: &D, field: FieldData) -> bool {
    match field.owner_file {
        None => false,
        Some(file) => blank_at_top(db.tree_of(file), db.tree_of(file).top, field.name),
    }
}

/// Whether a field of a source class is declared without an initializer, as the
/// component of a record is.
pub fn field_is_blank<D: TyDatabase>(db: &D, field: &FieldData) -> (r: bool)
    ensures
        r == blank(db, *field),
{
    match field.owner_file {
        None => false,
        Some(file) => {
            let tree = db.file_item_tree(file);
            is_blank_at_top(tree, &tree.top, field.name)
        },
    }
}

/// Whether an expression is `this` without a qualifier.
pub open spec fn bare_this(e: Expr) -> bool {
    match e.kind {
        ExprKind::This { qualifier } => qualifier is None,
        _ => false,
    }
}

/// Whether an expression is `this` without a qualifier.
pub fn is_bare_this(e: &Expr) -> (r: bool)
    ensures
        r == bare_this(*e),
{
    match &e.kind {
        ExprKind::This { qualifier } => qualifier.is_none(),
        _ => false,
    }
}

impl InferCtx {
    /// A `break` leaves with the flow of here.
    pub open spec fn broken(self, label: Option<Name>) -> InferCtx {
        InferCtx { loop_breaks: with_break(self.loop_breaks, label, self.flow), ..self }
    }

    /// A `break` leaves with the flow of here.
    pub fn record_break_flow(&mut self, label: &Option<Name>)
        ensures
            *final(self) == old(self).broken(*label),
            final(self).frame() == old(self).frame(),
            final(self).exited == old(self).exited,
    {
        proof {
            lemma_break_labels(self.loop_breaks, *label, self.flow);
            reveal(InferCtx::frame);
        }
        let frames = take(&mut self.loop_breaks);
        self.loop_breaks = add_break(frames, label, self.flow.copy());
    }

    /// The state after the lookup of a field by its simple name: a report where
    /// the name means several fields.
    #[verifier::opaque]
    pub open spec fn after_chain_field<D: TyDatabase>(
        self,
        db: &D,
        site: Site,
        name: Name,
        expr: u32,
    ) -> InferCtx {
        if chain_field(db, levels(site), name, site.access) is Ambiguous {
            self.told(TypeError::AmbiguousField { location: DiagLocation::Expr(expr), name })
        } else {
            self
        }
    }

    /// The field that a simple name means, with a report where it means
    /// several.
    pub fn pick_field_of_chain<D: TyDatabase>(
        &mut self,
        db: &D,
        site: &Site,
        name: Name,
        expr: u32,
    ) -> (r: FieldLookup)
        ensures
            r == chain_field(db, levels(*site), name, site.access),
            *final(self) == old(self).after_chain_field(db, *site, name, expr),
            final(self).frame() == old(self).frame(),
            final(self).exited == old(self).exited,
    {
        proof {
            reveal(InferCtx::after_chain_field);
        }
        let l = class_levels(site);
        let found = find_chain_field(db, &l, name, &site.access);
        if let FieldLookup::Ambiguous = &found {
            self.report(
                TypeError::AmbiguousField { location: DiagLocation::Expr(expr), name },
            );
        }
        found
    }

    /// The name of the field of the class that an assignment writes, if it can
    /// be one: a simple name that is no variable, or one behind `this`.
    pub open spec fn written_field(self, e: Expr) -> Option<Name> {
        match e.kind {
            ExprKind::Var(name) => if found_local(self.scopes, name) is Some {
                None
            } else {
                Some(name)
            },
            ExprKind::FieldAccess { target, name } => match target {
                Some(t) => if bare_this(*t) {
                    Some(name)
                } else {
                    None
                },
                None => None,
            },
            _ => None,
        }
    }

    /// A blank final field that an assignment writes is assigned.
    #[verifier::opaque]
    pub open spec fn field_written<D: TyDatabase>(self, db: &D, site: Site, e: Expr) -> InferCtx {
        match self.written_field(e) {
            None => self,
            Some(name) => {
                let s = self.after_chain_field(db, site, name, e.id);
                match chain_field(db, levels(site), name, site.access) {
                    FieldLookup::Found(field) => if field.is_final && blank(db, field) {
                        InferCtx { flow: s.flow.touch(name), ..s }
                    } else {
                        s
                    },
                    _ => s,
                }
            },
        }
    }

    /// A blank final field that an assignment writes is assigned.
    pub fn record_field_write<D: TyDatabase>(&mut self, db: &D, site: &Site, e: &Expr)
        ensures
            *final(self) == old(self).field_written(db, *site, *e),
            final(self).frame() == old(self).frame(),
            final(self).exited == old(self).exited,
    {
        proof {
            reveal(InferCtx::frame);
            reveal(InferCtx::field_written);
        }
        let name = match &e.kind {
            ExprKind::Var(name) => {
                if find_local(&self.scopes, *name).is_some() {
                    return;
                }
                *name
            },
            ExprKind::FieldAccess { target, name } => match target {
                None => {
                    return;
                },
                Some(t) => {
                    if !is_bare_this(t) {
                        return;
                    }
                    *name
                },
            },
            _ => {
                return;
            },
        };
        match self.pick_field_of_chain(db, site, name, e.id) {
            FieldLookup::Found(field) => {
                if field.is_final && field_is_blank(db, &field) {
                    self.flow = self.flow.touch_field(name);
                }
            },
            _ => {},
        }
    }

    /// Whether a final field may be written here: only through `this`, outside
    /// lambdas, by the initializer or constructor of its own class, where it is
    /// blank and not assigned yet.
    pub open spec fn write_verdict<D: TyDatabase>(
        self,
        db: &D,
        site: Site,
        field: FieldData,
        through_this: bool,
    ) -> FinalFieldWrite {
        let matching = if field.is_static {
            site.init_ctx == Some(InitCtx::Static)
        } else {
            site.in_constructor || site.init_ctx == Some(InitCtx::Instance)
        };
        let own = match site.enclosing_class {
            Some(t) => ClassKey::key_of_ty(db, t) == Some(field.owner),
            None => false,
        };
        if !through_this || !(self.lambda_params is Nil) || !matching || !own || !blank(
            db,
            field,
        ) {
            FinalFieldWrite::CannotAssign
        } else if self.flow.touched.has(field.name) {
            FinalFieldWrite::AlreadyAssigned
        } else {
            FinalFieldWrite::Legal
        }
    }

    /// Whether a final field may be written here.
    pub fn final_field_write_verdict<D: TyDatabase>(
        &self,
        db: &D,
        site: &Site,
        field: &FieldData,
        through_this: bool,
    ) -> (r: FinalFieldWrite)
        ensures
            r == self.write_verdict(db, *site, *field, through_this),
    {
        if !through_this || !self.lambda_params.is_empty() {
            return FinalFieldWrite::CannotAssign;
        }
        let matching = if field.is_static {
            match site.init_ctx {
                Some(c) => c == InitCtx::Static,
                None => false,
            }
        } else {
            site.in_constructor || match site.init_ctx {
                Some(c) => c == InitCtx::Instance,
                None => false,
            }
        };
        if !matching {
            return FinalFieldWrite::CannotAssign;
        }
        let own = match &site.enclosing_class {
            Some(t) => match ClassKey::of_ty(db, t) {
                Some(key) => key == field.owner,
                None => false,
            },
            None => false,
        };
        if !own {
            return FinalFieldWrite::CannotAssign;
        }
        if !field_is_blank(db, field) {
            return FinalFieldWrite::CannotAssign;
        }
        if self.flow.touched.contains(&field.name) {
            return FinalFieldWrite::AlreadyAssigned;
        }
        FinalFieldWrite::Legal
    }

    /// The report on a write to a final field.
    #[verifier::opaque]
    pub open spec fn after_final_write<D: TyDatabase>(
        self,
        db: &D,
        site: Site,
        field: FieldData,
        through_this: bool,
        expr: u32,
        name: Name,
    ) -> InferCtx {
        if self.mutating && field.is_final {
            match self.write_verdict(db, site, field, through_this) {
                FinalFieldWrite::Legal => self,
                FinalFieldWrite::AlreadyAssigned => self.told(
                    TypeError::VariableAlreadyAssigned { expr, name },
                ),
                FinalFieldWrite::CannotAssign => self.told(
                    TypeError::CannotAssignToFinalVariable { expr, name },
                ),
            }
        } else {
            self
        }
    }

    /// The report on a write to a final field.
    pub fn check_final_write<D: TyDatabase>(
        &mut self,
        db: &D,
        site: &Site,
        field: &FieldData,
        through_this: bool,
        expr: u32,
        name: Name,
    )
        ensures
            *final(self) == old(self).after_final_write(
                db,
                *site,
                *field,
                through_this,
                expr,
                name,
            ),
            final(self).frame() == old(self).frame(),
            final(self).exited == old(self).exited,
    {
        proof {
            reveal(InferCtx::after_final_write);
        }
        if self.mutating && field.is_final {
            match self.final_field_write_verdict(db, site, field, through_this) {
                FinalFieldWrite::Legal => {},
                FinalFieldWrite::AlreadyAssigned => {
                    self.report(TypeError::VariableAlreadyAssigned { expr, name });
                },
                FinalFieldWrite::CannotAssign => {
                    self.report(TypeError::CannotAssignToFinalVariable { expr, name });
                },
            }
        }
    }

    /// The report on a field that exists but is not accessible.
    #[verifier::opaque]
    pub open spec fn after_illegal_field<D: TyDatabase>(
        self,
        db: &D,
        site: Site,
        expr: u32,
        receiver: Ty,
        name: Name,
    ) -> InferCtx {
        match db.hidden_field(receiver, name, site.access) {
            None => self,
            Some(field) => self.told(
                TypeError::IllegalAccess {
                    expr,
                    kind: IllegalAccessKind::Field,
                    name: field.name,
                    owner: field.owner,
                    access: field.access,
                },
            ),
        }
    }

    /// Reports a field that exists but is not accessible, and says whether
    /// there is one.
    pub fn report_illegal_field_access<D: TyDatabase>(
        &mut self,
        db: &D,
        site: &Site,
        expr: u32,
        receiver: &Ty,
        name: Name,
    ) -> (r: bool)
        ensures
            r == (db.hidden_field(*receiver, name, site.access) is Some),
            *final(self) == old(self).after_illegal_field(db, *site, expr, *receiver, name),
            final(self).frame() == old(self).frame(),
            final(self).exited == old(self).exited,
    {
        proof {
            reveal(InferCtx::after_illegal_field);
        }
        match db.pick_field_ignoring_access(receiver, name, &site.access) {
            None => false,
            Some(field) => {
                self.report(
                    TypeError::IllegalAccess {
                        expr,
                        kind: IllegalAccessKind::Field,
                        name: field.name,
                        owner: field.owner,
                        access: field.access,
                    },
                );
                true
            },
        }
    }

    /// The report on a method that exists but is not accessible: the first one.
    #[verifier::opaque]
    pub open spec fn after_illegal_method<D: TyDatabase>(
        self,
        db: &D,
        expr: u32,
        receiver: Ty,
        name: Name,
        ctx: InvocationContext,
    ) -> InferCtx {
        match db.hidden_members(receiver, name, ctx) {
            List::Nil => self,
            List::Cons(m, _) => self.told(
                TypeError::IllegalAccess {
                    expr,
                    kind: IllegalAccessKind::Method,
                    name: m.name,
                    owner: m.owner,
                    access: m.access,
                },
            ),
        }
    }

    /// Reports a method that exists but is not accessible, and says whether
    /// there is one.
    pub fn report_illegal_method_access<D: TyDatabase>(
        &mut self,
        db: &D,
        expr: u32,
        receiver: &Ty,
        name: Name,
        ctx: &InvocationContext,
    ) -> (r: bool)
        ensures
            r == !(db.hidden_members(*receiver, name, *ctx) is Nil),
            *final(self) == old(self).after_illegal_method(db, expr, *receiver, name, *ctx),
            final(self).frame() == old(self).frame(),
            final(self).exited == old(self).exited,
    {
        proof {
            reveal(InferCtx::after_illegal_method);
        }
        match db.member_set_ignoring_access(receiver, name, ctx) {
            List::Nil => false,
            List::Cons(m, _) => {
                self.report(
                    TypeError::IllegalAccess {
                        expr,
                        kind: IllegalAccessKind::Method,
                        name: m.name,
                        owner: m.owner,
                        access: m.access,
                    },
                );
                true
            },
        }
    }
}

/// A blank final field can be assigned once: after an assignment that is legal,
/// another one is reported as the second.
pub proof fn law_assigned_once<D: TyDatabase>(db: &D, site: Site, s: InferCtx, field: FieldData)
    requires
        s.write_verdict(db, site, field, true) == FinalFieldWrite::Legal,
    ensures
        (InferCtx { flow: s.flow.touch(field.name), ..s }).write_verdict(db, site, field, true)
            == FinalFieldWrite::AlreadyAssigned,
{
}

/// A final field is written without a report exactly through `this`, outside a
/// lambda, in its own class, where it has no initializer and was not written
/// before: a static one in a static initializer, another in a constructor or an
/// instance initializer. A field that is not final, or is only read, is never
/// reported.
pub proof fn law_writes_of_final_fields<D: TyDatabase>(
    db: &D,
    site: Site,
    s: InferCtx,
    field: FieldData,
    through_this: bool,
    expr: u32,
    name: Name,
)
    requires
        !s.probing,
    ensures
        ({
            let end = s.after_final_write(db, site, field, through_this, expr, name);
            let place = if field.is_static {
                site.init_ctx == Some(InitCtx::Static)
            } else {
                site.in_constructor || site.init_ctx == Some(InitCtx::Instance)
            };
            let own = site.enclosing_class matches Some(t) && ClassKey::key_of_ty(db, t) == Some(
                field.owner,
            );
            let may = through_this && s.lambda_params is Nil && place && own && blank(db, field);
            let written = s.mutating && field.is_final;
            &&& end.flow == s.flow && end.exited == s.exited
            &&& !written ==> end.diagnostics == s.diagnostics
            &&& written && may && !s.flow.touched.has(field.name) ==> end.diagnostics
                == s.diagnostics
            &&& written && may && s.flow.touched.has(field.name) ==> end.diagnostics == List::Cons(
                Box::new(TypeError::VariableAlreadyAssigned { expr, name }),
                Box::new(s.diagnostics),
            )
            &&& written && !may ==> end.diagnostics == List::Cons(
                Box::new(TypeError::CannotAssignToFinalVariable { expr, name }),
                Box::new(s.diagnostics),
            )
        }),
{
    reveal(InferCtx::told);
    reveal(InferCtx::after_final_write);
}

} // verus!
