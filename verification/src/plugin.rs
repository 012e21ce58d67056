//! Java classes as a virtual machine sees them: their members and their kinds.
use crate::class_key::Resolved;
use crate::db::TyDatabase;
use crate::items::ItemData;
use crate::list::List;
use crate::member::{FieldData, MethodData};
use crate::names::{keeps_names, Name, Names};
use crate::source_members::{
    abstract_ones, class_entered, class_fields, class_methods, setting_named, setting_of,
    source_abstract_methods, source_class_fields, source_class_methods, written_methods,
};
use crate::ty::{SourceClass, Ty};
use vstd::prelude::*;

verus! {

/// What a class is to a virtual machine.
#[derive(Clone, Copy, Debug, PartialEq, Eq, Structural)]
pub enum JvmClassKind {
    Class,
    Interface,
    Annotation,
    Enum,
    /// The class that the top-level functions of a file are in.
    Facade,
}

/// The access flag of a final class.
pub const ACC_FINAL: u16 = 0x0010;

/// The access flag of an interface.
pub const ACC_INTERFACE: u16 = 0x0200;

/// The access flag of an annotation type.
pub const ACC_ANNOTATION: u16 = 0x2000;

/// The access flag of an enum.
pub const ACC_ENUM: u16 = 0x4000;

/// The kind that access flags say. An annotation type is an interface too.
pub open spec fn kind_of_flags(flags: u16) -> JvmClassKind {
    if flags & ACC_INTERFACE != 0 {
        if flags & ACC_ANNOTATION != 0 {
            JvmClassKind::Annotation
        } else {
            JvmClassKind::Interface
        }
    } else if flags & ACC_ENUM != 0 {
        JvmClassKind::Enum
    } else {
        JvmClassKind::Class
    }
}

fn find_kind_of_flags(flags: u16) -> (r: JvmClassKind)
    ensures
        r == kind_of_flags(flags),
{
    if flags & ACC_INTERFACE != 0 {
        if flags & ACC_ANNOTATION != 0 {
            JvmClassKind::Annotation
        } else {
            JvmClassKind::Interface
        }
    } else if flags & ACC_ENUM != 0 {
        JvmClassKind::Enum
    } else {
        JvmClassKind::Class
    }
}

/// The kind of a declaration, and whether nothing extends it. What is no class
/// at all counts as an interface.
pub open spec fn kind_of_item(data: ItemData) -> (JvmClassKind, bool) {
    match data {
        ItemData::Class(d) => (JvmClassKind::Class, d.modifiers.is_final),
        ItemData::Record(_) => (JvmClassKind::Class, true),
        ItemData::Enum(_) => (JvmClassKind::Enum, true),
        ItemData::Annotation(_) => (JvmClassKind::Annotation, false),
        _ => (JvmClassKind::Interface, false),
    }
}

fn find_kind_of_item(data: &ItemData) -> (r: (JvmClassKind, bool))
    ensures
        r == kind_of_item(*data),
{
    match data {
        ItemData::Class(d) => (JvmClassKind::Class, d.modifiers.is_final),
        ItemData::Record(_) => (JvmClassKind::Class, true),
        ItemData::Enum(_) => (JvmClassKind::Enum, true),
        ItemData::Annotation(_) => (JvmClassKind::Annotation, false),
        _ => (JvmClassKind::Interface, false),
    }
}

/// The kind of a class, and whether nothing extends it, where that is known.
pub open spec fn class_kind<D: TyDatabase>(db: &D, class: Resolved) -> Option<(JvmClassKind, bool)> {
    match class {
        Resolved::Facade { fqn: _ } => Some((JvmClassKind::Facade, true)),
        Resolved::Library { fqn } => match db.library_record(fqn) {
            Some(c) => Some((kind_of_flags(c.flags), c.flags & ACC_FINAL != 0 || c.is_record)),
            None => None,
        },
        Resolved::Source(source) => match db.tree_of(source.file).item(source.item) {
            Some(data) => Some(kind_of_item(data)),
            None => None,
        },
    }
}

/// Whether a table has names for what the members of a class go by.
pub open spec fn members_named<D: TyDatabase>(db: &D, names: Names, class: Resolved) -> bool {
    match class {
        Resolved::Source(source) => setting_named(db, names, db.tree_of(source.file), source),
        _ => names.wf(),
    }
}

/// The methods of a source class called `name`.
pub open spec fn methods_of<D: TyDatabase>(
    db: &D,
    names: Names,
    source: SourceClass,
    args: List<Ty>,
    name: Name,
) -> List<MethodData> {
    let tree = db.tree_of(source.file);
    match tree.item(source.item) {
        None => List::Nil,
        Some(data) => class_methods(
            db,
            setting_of(db, names, tree, data, source, args, name),
            tree,
            data,
        ),
    }
}

/// The fields of a source class called `name`.
pub open spec fn fields_of<D: TyDatabase>(
    db: &D,
    names: Names,
    source: SourceClass,
    args: List<Ty>,
    name: Name,
) -> List<FieldData> {
    let tree = db.tree_of(source.file);
    match tree.item(source.item) {
        None => List::Nil,
        Some(data) => class_fields(
            db,
            setting_of(db, names, tree, data, source, args, name),
            tree,
            data,
        ),
    }
}

/// The methods that a source interface declares as abstract.
pub open spec fn abstract_methods_of<D: TyDatabase>(
    db: &D,
    names: Names,
    source: SourceClass,
    args: List<Ty>,
) -> List<MethodData> {
    let tree = db.tree_of(source.file);
    match tree.item(source.item) {
        Some(ItemData::Interface(d)) => abstract_ones(
            written_methods(
                db,
                setting_of(db, names, tree, ItemData::Interface(d), source, args, Name::Empty),
                tree,
                ItemData::Interface(d),
                d.body,
            ),
        ),
        _ => List::Nil,
    }
}

/// The Java language, as the layer of classes asks it for what it declares.
pub struct Java;

impl Java {
    /// The methods of a source class called `name`, seen through the type
    /// arguments `args`. Other classes have none here.
    pub fn methods<D: TyDatabase>(
        &self,
        db: &D,
        names: &mut Names,
        class: &Resolved,
        args: &List<Ty>,
        name: Name,
    ) -> (r: List<MethodData>)
        requires
            members_named(db, *old(names), *class),
        ensures
            final(names).wf(),
            keeps_names(*old(names), *final(names)),
            *class matches Resolved::Source(source) ==> db.tree_of(source.file).item(
                source.item,
            ) is Some ==> class_entered(
                db,
                *final(names),
                db.tree_of(source.file),
                source,
            ),
            r == match *class {
                Resolved::Source(source) => methods_of(db, *final(names), source, *args, name),
                _ => List::<MethodData>::Nil,
            },
    {
        match class {
            Resolved::Source(source) => {
                let tree = db.file_item_tree(source.file);
                source_class_methods(db, names, tree, *source, args, name)
            },
            _ => List::Nil,
        }
    }

    /// The fields of a source class called `name`, seen through the type
    /// arguments `args`. Other classes have none here.
    pub fn fields<D: TyDatabase>(
        &self,
        db: &D,
        names: &mut Names,
        class: &Resolved,
        args: &List<Ty>,
        name: Name,
    ) -> (r: List<FieldData>)
        requires
            members_named(db, *old(names), *class),
        ensures
            final(names).wf(),
            keeps_names(*old(names), *final(names)),
            *class matches Resolved::Source(source) ==> db.tree_of(source.file).item(
                source.item,
            ) is Some ==> class_entered(
                db,
                *final(names),
                db.tree_of(source.file),
                source,
            ),
            r == match *class {
                Resolved::Source(source) => fields_of(db, *final(names), source, *args, name),
                _ => List::<FieldData>::Nil,
            },
    {
        match class {
            Resolved::Source(source) => {
                let tree = db.file_item_tree(source.file);
                source_class_fields(db, names, tree, *source, args, name)
            },
            _ => List::Nil,
        }
    }

    /// The methods that a source interface declares as abstract, seen through
    /// the type arguments `args`. Other classes have none here.
    pub fn abstract_methods<D: TyDatabase>(
        &self,
        db: &D,
        names: &mut Names,
        class: &Resolved,
        args: &List<Ty>,
    ) -> (r: List<MethodData>)
        requires
            members_named(db, *old(names), *class),
        ensures
            final(names).wf(),
            keeps_names(*old(names), *final(names)),
            *class matches Resolved::Source(source) ==> db.tree_of(source.file).item(
                source.item,
            ) matches Some(ItemData::Interface(_)) ==> class_entered(
                db,
                *final(names),
                db.tree_of(source.file),
                source,
            ),
            r == match *class {
                Resolved::Source(source) => abstract_methods_of(db, *final(names), source, *args),
                _ => List::<MethodData>::Nil,
            },
    {
        match class {
            Resolved::Source(source) => {
                let tree = db.file_item_tree(source.file);
                source_abstract_methods(db, names, tree, *source, args)
            },
            _ => List::Nil,
        }
    }

    /// The kind of a class, and whether nothing extends it.
    pub fn kind<D: TyDatabase>(&self, db: &D, class: &Resolved) -> (r: Option<(JvmClassKind, bool)>)
        ensures
            r == class_kind(db, *class),
    {
        match class {
            Resolved::Facade { fqn: _ } => Some((JvmClassKind::Facade, true)),
            Resolved::Library { fqn } => match db.class_record(*fqn) {
                Some(c) => Some(
                    (find_kind_of_flags(c.flags), c.flags & ACC_FINAL != 0 || c.is_record),
                ),
                None => None,
            },
            Resolved::Source(source) => match db.file_item_tree(source.file).get(source.item) {
                Some(data) => Some(find_kind_of_item(data)),
                None => None,
            },
        }
    }
}

/// An annotation type is never taken for a class: whatever else its flags say,
/// the flag of an interface decides.
pub proof fn law_interfaces_are_no_classes(flags: u16)
    requires
        flags & ACC_INTERFACE != 0,
    ensures
        kind_of_flags(flags) is Interface || kind_of_flags(flags) is Annotation,
{
}

} // verus!
