//! What the declarations around a body make of it.
use crate::db::TyDatabase;
use crate::infer::creation::{find_source_params, source_params, type_vars, vars_of};
use crate::infer::flow::{union, unite};
use crate::items::{ItemData, ItemTree, MethodForm};
use crate::list::List;
use crate::member::MethodData;
use crate::names::Name;
use crate::ty::{SourceClass, Ty};
use vstd::prelude::*;

verus! {

/// The type declaration that `target` is directly in, searched from `id` on.
pub open spec fn owner_in(tree: ItemTree, id: u32, target: u32) -> Option<u32>
    decreases tree.items@.len() - id, 1nat, List::<u32>::Nil,
{
    match tree.item(id) {
        None => None,
        Some(data) => owner_among(tree, id, data.children(), target),
    }
}

/// The type declaration that `target` is directly in, where that is `parent`
/// or inside one of the declarations behind it.
pub open spec fn owner_among(tree: ItemTree, parent: u32, l: List<u32>, target: u32) -> Option<u32>
    decreases tree.items@.len() - parent, 0nat, l,
{
    match l {
        List::Nil => None,
        List::Cons(h, t) => if *h == target {
            match tree.item(parent) {
                Some(data) => if data.declares_type() {
                    Some(parent)
                } else {
                    None
                },
                None => None,
            }
        } else {
            let inside = if parent < *h < tree.items@.len() {
                owner_in(tree, *h, target)
            } else {
                None
            };
            match inside {
                Some(found) => Some(found),
                None => owner_among(tree, parent, *t, target),
            }
        },
    }
}

pub open spec fn owner_at_top(tree: ItemTree, l: List<u32>, target: u32) -> Option<u32>
    decreases l,
{
    match l {
        List::Nil => None,
        List::Cons(h, t) => match owner_in(tree, *h, target) {
            Some(found) => Some(found),
            None => owner_at_top(tree, *t, target),
        },
    }
}

fn find_owner_in(tree: &ItemTree, id: u32, target: u32) -> (r: Option<u32>)
    ensures
        r == owner_in(*tree, id, target),
    decreases tree.items@.len() - id, 1nat, List::<u32>::Nil,
{
    match tree.get(id) {
        None => None,
        Some(data) => {
            let body = data.body();
            find_owner_among(tree, id, &body, target)
        },
    }
}

fn find_owner_among(tree: &ItemTree, parent: u32, l: &List<u32>, target: u32) -> (r: Option<u32>)
    requires
        parent < tree.items@.len(),
    ensures
        r == owner_among(*tree, parent, *l, target),
    decreases tree.items@.len() - parent, 0nat, l,
{
    match l {
        List::Nil => None,
        List::Cons(h, t) => {
            if **h == target {
                return match tree.get(parent) {
                    Some(data) => if data.is_type() {
                        Some(parent)
                    } else {
                        None
                    },
                    None => None,
                };
            }
            let inside = if parent < **h && (**h as usize) < tree.items.len() {
                find_owner_in(tree, **h, target)
            } else {
                None
            };
            match inside {
                Some(found) => Some(found),
                None => find_owner_among(tree, parent, t, target),
            }
        },
    }
}

fn find_owner_at_top(tree: &ItemTree, l: &List<u32>, target: u32) -> (r: Option<u32>)
    ensures
        r == owner_at_top(*tree, *l, target),
    decreases l,
{
    match l {
        List::Nil => None,
        List::Cons(h, t) => match find_owner_in(tree, **h, target) {
            Some(found) => Some(found),
            None => find_owner_at_top(tree, t, target),
        },
    }
}

/// The names of the fields behind a declaration that are static or not.
pub open spec fn fields_behind(tree: ItemTree, l: List<u32>, field: u32, is_static: bool) -> List<
    Name,
>
    decreases l,
{
    match l {
        List::Nil => List::Nil,
        List::Cons(h, t) => {
            let rest = fields_behind(tree, *t, field, is_static);
            match tree.item(*h) {
                Some(ItemData::Field(f)) => if *h > field && f.modifiers.is_static == is_static {
                    List::Cons(Box::new(f.name), Box::new(rest))
                } else {
                    rest
                },
                _ => rest,
            }
        },
    }
}

fn find_fields_behind(tree: &ItemTree, l: &List<u32>, field: u32, is_static: bool) -> (r: List<
    Name,
>)
    ensures
        r == fields_behind(*tree, *l, field, is_static),
    decreases l,
{
    match l {
        List::Nil => List::Nil,
        List::Cons(h, t) => {
            let rest = find_fields_behind(tree, t, field, is_static);
            match tree.get(**h) {
                Some(ItemData::Field(f)) => if **h > field && f.modifiers.is_static == is_static {
                    List::cons(f.name, rest)
                } else {
                    rest
                },
                _ => rest,
            }
        },
    }
}

/// The fields that the initializer of a field may not read by their simple
/// names: those of its class that are declared later and are static as it is,
/// or are not as it is not.
pub open spec fn later_fields(tree: ItemTree, field: u32, is_static: bool) -> List<Name> {
    match owner_at_top(tree, tree.top, field) {
        None => List::Nil,
        Some(owner) => match tree.item(owner) {
            None => List::Nil,
            Some(data) => fields_behind(tree, data.children(), field, is_static),
        },
    }
}

/// The fields that the initializer of a field may not read by their simple
/// names.
pub fn forward_field_names(tree: &ItemTree, field: u32, is_static: bool) -> (r: List<Name>)
    ensures
        r == later_fields(*tree, field, is_static),
{
    match find_owner_at_top(tree, &tree.top, field) {
        None => List::Nil,
        Some(owner) => match tree.get(owner) {
            None => List::Nil,
            Some(data) => {
                let body = data.body();
                find_fields_behind(tree, &body, field, is_static)
            },
        },
    }
}

/// Whether the body of a declaration has no `this`: that of a static method,
/// field or initializer, or of an enum constant.
pub open spec fn without_this(tree: ItemTree, item: u32) -> bool {
    match tree.item(item) {
        Some(ItemData::Method(m)) => m.modifiers.is_static,
        Some(ItemData::Field(f)) => f.modifiers.is_static,
        Some(ItemData::StaticInit { body: _ }) => true,
        Some(ItemData::EnumConstant { name: _, body: _ }) => true,
        _ => false,
    }
}

/// Whether the body of a declaration has no `this`.
pub fn static_context_of(tree: &ItemTree, item: u32) -> (r: bool)
    ensures
        r == without_this(*tree, item),
{
    match tree.get(item) {
        Some(ItemData::Method(m)) => m.modifiers.is_static,
        Some(ItemData::Field(f)) => f.modifiers.is_static,
        Some(ItemData::StaticInit { body: _ }) => true,
        Some(ItemData::EnumConstant { name: _, body: _ }) => true,
        _ => false,
    }
}

/// The type of the class that a declaration is in: with its own type
/// parameters as arguments.
pub open spec fn self_type<D: TyDatabase>(db: &D, file: u32, tree: ItemTree, item: u32) -> Option<
    Ty,
> {
    match tree.type_around(item) {
        None => None,
        Some(id) => match db.canonical(SourceClass { file, item: id }) {
            None => None,
            Some(name) => {
                let class = SourceClass { file, item: id };
                let args = match tree.item(id) {
                    Some(ItemData::Class(d)) => vars_of(
                        source_params(db, file, item, class, d.type_params),
                    ),
                    Some(ItemData::Interface(d)) => vars_of(
                        source_params(db, file, item, class, d.type_params),
                    ),
                    Some(ItemData::Record(d)) => vars_of(
                        source_params(db, file, item, class, d.type_params),
                    ),
                    _ => List::Nil,
                };
                Some(Ty::Reference { name, args: Box::new(args), local: None })
            },
        },
    }
}

/// The type of the class that a declaration is in.
pub fn enclosing_self_ty<D: TyDatabase>(db: &D, file: u32, tree: &ItemTree, item: u32) -> (r:
    Option<Ty>)
    requires
        tree.wf(),
        tree.items@.len() <= u32::MAX,
    ensures
        r == self_type(db, file, *tree, item),
{
    match tree.enclosing_type(item) {
        None => None,
        Some(id) => {
            let class = SourceClass { file, item: id };
            match db.canonical_name(class) {
                None => None,
                Some(name) => {
                    let args = match tree.get(id) {
                        Some(ItemData::Class(d)) => type_vars(
                            &find_source_params(db, file, item, class, &d.type_params),
                        ),
                        Some(ItemData::Interface(d)) => type_vars(
                            &find_source_params(db, file, item, class, &d.type_params),
                        ),
                        Some(ItemData::Record(d)) => type_vars(
                            &find_source_params(db, file, item, class, &d.type_params),
                        ),
                        _ => List::Nil,
                    };
                    Some(Ty::reference(name, args))
                },
            }
        },
    }
}

/// Which bodies of a class run before another.
#[derive(Clone, Copy, Debug, PartialEq, Eq, Structural)]
pub enum Earlier {
    /// All instance initializers.
    AllInstance,
    /// The static initializers before it.
    Static,
    /// The instance initializers before it.
    Instance,
    Nothing,
}

/// Which bodies run before that of a declaration.
pub open spec fn earlier_than(tree: ItemTree, item: u32) -> Earlier {
    match tree.item(item) {
        Some(ItemData::Field(f)) => if f.modifiers.is_static {
            Earlier::Static
        } else {
            Earlier::Instance
        },
        Some(ItemData::StaticInit { body: _ }) => Earlier::Static,
        Some(ItemData::InstanceInit { body: _ }) => Earlier::Instance,
        Some(ItemData::Method(m)) => if m.form is Method {
            Earlier::Instance
        } else {
            Earlier::AllInstance
        },
        _ => Earlier::Nothing,
    }
}

fn find_earlier_than(tree: &ItemTree, item: u32) -> (r: Earlier)
    ensures
        r == earlier_than(*tree, item),
{
    match tree.get(item) {
        Some(ItemData::Field(f)) => if f.modifiers.is_static {
            Earlier::Static
        } else {
            Earlier::Instance
        },
        Some(ItemData::StaticInit { body: _ }) => Earlier::Static,
        Some(ItemData::InstanceInit { body: _ }) => Earlier::Instance,
        Some(ItemData::Method(m)) => match m.form {
            MethodForm::Method => Earlier::Instance,
            _ => Earlier::AllInstance,
        },
        _ => Earlier::Nothing,
    }
}

/// Whether a declaration of the same class has a body that runs before.
pub open spec fn runs_before(tree: ItemTree, child: u32, item: u32, earlier: Earlier) -> bool {
    match tree.item(child) {
        Some(ItemData::Field(f)) => match earlier {
            Earlier::AllInstance => !f.modifiers.is_static,
            Earlier::Static => f.modifiers.is_static && child < item,
            Earlier::Instance => !f.modifiers.is_static && child < item,
            Earlier::Nothing => false,
        },
        Some(ItemData::StaticInit { body: _ }) => earlier is Static && child < item,
        Some(ItemData::InstanceInit { body: _ }) => match earlier {
            Earlier::AllInstance => true,
            Earlier::Instance => child < item,
            _ => false,
        },
        _ => false,
    }
}

fn does_run_before(tree: &ItemTree, child: u32, item: u32, earlier: Earlier) -> (r: bool)
    ensures
        r == runs_before(*tree, child, item, earlier),
{
    match tree.get(child) {
        Some(ItemData::Field(f)) => match earlier {
            Earlier::AllInstance => !f.modifiers.is_static,
            Earlier::Static => f.modifiers.is_static && child < item,
            Earlier::Instance => !f.modifiers.is_static && child < item,
            Earlier::Nothing => false,
        },
        Some(ItemData::StaticInit { body: _ }) => match earlier {
            Earlier::Static => child < item,
            _ => false,
        },
        Some(ItemData::InstanceInit { body: _ }) => match earlier {
            Earlier::AllInstance => true,
            Earlier::Instance => child < item,
            _ => false,
        },
        _ => false,
    }
}

/// The fields that the bodies assign which run before.
pub open spec fn assigned_before<D: TyDatabase>(
    db: &D,
    file: u32,
    tree: ItemTree,
    l: List<u32>,
    item: u32,
    earlier: Earlier,
) -> List<Name>
    decreases l,
{
    match l {
        List::Nil => List::Nil,
        List::Cons(h, t) => {
            let rest = assigned_before(db, file, tree, *t, item, earlier);
            if runs_before(tree, *h, item, earlier) {
                match db.touched_by(file, *h) {
                    Some(touched) => union(rest, touched),
                    None => rest,
                }
            } else {
                rest
            }
        },
    }
}

fn find_assigned_before<D: TyDatabase>(
    db: &D,
    file: u32,
    tree: &ItemTree,
    l: &List<u32>,
    item: u32,
    earlier: Earlier,
) -> (r: List<Name>)
    ensures
        r == assigned_before(db, file, *tree, *l, item, earlier),
    decreases l,
{
    match l {
        List::Nil => List::Nil,
        List::Cons(h, t) => {
            let rest = find_assigned_before(db, file, tree, t, item, earlier);
            if does_run_before(tree, **h, item, earlier) {
                match db.field_touched(file, **h) {
                    Some(touched) => unite(&rest, &touched),
                    None => rest,
                }
            } else {
                rest
            }
        },
    }
}

/// The blank final fields that are assigned before a body runs.
pub open spec fn initially_touched<D: TyDatabase>(
    db: &D,
    file: u32,
    tree: ItemTree,
    item: u32,
) -> List<Name> {
    match tree.type_around(item) {
        None => List::Nil,
        Some(class) => match tree.item(class) {
            None => List::Nil,
            Some(data) => assigned_before(
                db,
                file,
                tree,
                data.children(),
                item,
                earlier_than(tree, item),
            ),
        },
    }
}

/// The blank final fields that are assigned before a body runs.
pub fn prior_initializer_writes<D: TyDatabase>(
    db: &D,
    file: u32,
    tree: &ItemTree,
    item: u32,
) -> (r: List<Name>)
    requires
        tree.wf(),
        tree.items@.len() <= u32::MAX,
    ensures
        r == initially_touched(db, file, *tree, item),
{
    match tree.enclosing_type(item) {
        None => List::Nil,
        Some(class) => match tree.get(class) {
            None => List::Nil,
            Some(data) => {
                let body = data.body();
                let earlier = find_earlier_than(tree, item);
                find_assigned_before(db, file, tree, &body, item, earlier)
            },
        },
    }
}

/// The first declaration from `id` on of a method with the name and number of
/// parameters of another.
pub open spec fn method_in(tree: ItemTree, id: u32, m: MethodData) -> Option<u32>
    decreases tree.items@.len() - id, 1nat, List::<u32>::Nil,
{
    match tree.item(id) {
        None => None,
        Some(data) => match data {
            ItemData::Method(d) => if d.name == m.name && d.params.count() == m.params.count() {
                Some(id)
            } else {
                method_among(tree, id, d.body, m)
            },
            _ => method_among(tree, id, data.children(), m),
        },
    }
}

pub open spec fn method_among(tree: ItemTree, parent: u32, l: List<u32>, m: MethodData) -> Option<
    u32,
>
    decreases tree.items@.len() - parent, 0nat, l,
{
    match l {
        List::Nil => None,
        List::Cons(h, t) => {
            let inside = if parent < *h < tree.items@.len() {
                method_in(tree, *h, m)
            } else {
                None
            };
            match inside {
                Some(found) => Some(found),
                None => method_among(tree, parent, *t, m),
            }
        },
    }
}

pub open spec fn method_at_top(tree: ItemTree, l: List<u32>, m: MethodData) -> Option<u32>
    decreases l,
{
    match l {
        List::Nil => None,
        List::Cons(h, t) => match method_in(tree, *h, m) {
            Some(found) => Some(found),
            None => method_at_top(tree, *t, m),
        },
    }
}

/// The first declaration from `id` on of a method with the name and number of
/// parameters of another.
pub fn find_method_rec(tree: &ItemTree, id: u32, m: &MethodData) -> (r: Option<u32>)
    ensures
        r == method_in(*tree, id, *m),
    decreases tree.items@.len() - id, 1nat, List::<u32>::Nil,
{
    match tree.get(id) {
        None => None,
        Some(data) => match data {
            ItemData::Method(d) => {
                if d.name == m.name && d.params.same_len(&m.params) {
                    return Some(id);
                }
                find_method_among(tree, id, &d.body, m)
            },
            _ => {
                let body = data.body();
                find_method_among(tree, id, &body, m)
            },
        },
    }
}

fn find_method_among(tree: &ItemTree, parent: u32, l: &List<u32>, m: &MethodData) -> (r: Option<
    u32,
>)
    requires
        parent < tree.items@.len(),
    ensures
        r == method_among(*tree, parent, *l, *m),
    decreases tree.items@.len() - parent, 0nat, l,
{
    match l {
        List::Nil => None,
        List::Cons(h, t) => {
            let inside = if parent < **h && (**h as usize) < tree.items.len() {
                find_method_rec(tree, **h, m)
            } else {
                None
            };
            match inside {
                Some(found) => Some(found),
                None => find_method_among(tree, parent, t, m),
            }
        },
    }
}

fn find_method_at_top(tree: &ItemTree, l: &List<u32>, m: &MethodData) -> (r: Option<u32>)
    ensures
        r == method_at_top(*tree, *l, *m),
    decreases l,
{
    match l {
        List::Nil => None,
        List::Cons(h, t) => match find_method_rec(tree, **h, m) {
            Some(found) => Some(found),
            None => find_method_at_top(tree, t, m),
        },
    }
}

/// The declaration of a method in a file: the first one with its name and
/// number of parameters.
pub open spec fn method_item<D: TyDatabase>(db: &D, file: u32, m: MethodData) -> Option<u32> {
    method_at_top(db.tree_of(file), db.tree_of(file).top, m)
}

/// The declaration of a method in a file.
pub fn find_method_item<D: TyDatabase>(db: &D, file: u32, m: &MethodData) -> (r: Option<u32>)
    ensures
        r == method_item(db, file, *m),
{
    let tree = db.file_item_tree(file);
    find_method_at_top(tree, &tree.top, m)
}

/// What a later field is: a field behind the initializer, static as it is.
pub proof fn law_later_fields_are_behind(
    tree: ItemTree,
    l: List<u32>,
    field: u32,
    is_static: bool,
    name: Name,
)
    requires
        fields_behind(tree, l, field, is_static).has(name),
    ensures
        exists|i: u32| #[trigger]
            l.has(i) && i > field && match tree.item(i) {
                Some(ItemData::Field(f)) => f.name == name && f.modifiers.is_static == is_static,
                _ => false,
            },
    decreases l,
{
    if let List::Cons(h, t) = l {
        let rest = fields_behind(tree, *t, field, is_static);
        let here = *h > field && match tree.item(*h) {
            Some(ItemData::Field(f)) => f.name == name && f.modifiers.is_static == is_static,
            _ => false,
        };
        if here {
            assert(l.has(*h));
        } else {
            law_later_fields_are_behind(tree, *t, field, is_static, name);
            let i = choose|i: u32| #[trigger]
                t.has(i) && i > field && match tree.item(i) {
                    Some(ItemData::Field(f)) => f.name == name && f.modifiers.is_static
                        == is_static,
                    _ => false,
                };
            assert(l.has(i));
        }
    }
}

} // verus!
