//! The declarations of a source file.
use crate::list::{Data, List};
use crate::member::Access;
use crate::names::{keeps_names, Name, Names};
use crate::text::{last_dot, rsplit_once_dot, simple_name, simple_text};
use crate::ty::PrimitiveType;
use vstd::prelude::*;

verus! {

/// A range of text, from `start` to before `end`.
#[derive(Clone, Copy, Debug, PartialEq, Eq, Structural)]
pub struct TextRange {
    pub start: u32,
    pub end: u32,
}

impl Data for TextRange {
    fn copy(&self) -> (r: Self) {
        *self
    }

    fn same(&self, other: &Self) -> (r: bool) {
        *self == *other
    }
}

/// A type as it is written.
#[derive(Debug, PartialEq, Eq)]
pub enum TypeShape {
    Primitive(PrimitiveType),
    Named { name: Name, args: Box<List<TypeShape>> },
    Array(Box<TypeShape>),
    /// `?`
    Any,
    /// `? extends T`
    Extends(Box<TypeShape>),
    /// `? super T`
    Super(Box<TypeShape>),
    /// A name given by its segments.
    Dotted(Box<List<Name>>),
    /// A type that was left out or could not be read.
    Missing,
}

/// A name inside a written type, with its place where it has one.
#[derive(Clone, Copy, Debug, PartialEq, Eq)]
pub struct RefName {
    pub name: Name,
    pub range: Option<TextRange>,
}

impl Data for RefName {
    fn copy(&self) -> (r: Self) {
        *self
    }

    fn same(&self, other: &Self) -> (r: bool) {
        self.name == other.name && self.range.same(&other.range)
    }
}

/// A written type with the names it mentions, in the order they are written.
#[derive(Debug, PartialEq, Eq)]
pub struct TypeRef {
    pub shape: TypeShape,
    pub refs: List<RefName>,
}

fn copy_shapes(l: &List<TypeShape>) -> (r: List<TypeShape>)
    ensures
        r == *l,
    decreases l,
{
    match l {
        List::Nil => List::Nil,
        List::Cons(h, t) => List::Cons(Box::new(h.copy_shape()), Box::new(copy_shapes(t))),
    }
}

fn same_shapes(a: &List<TypeShape>, b: &List<TypeShape>) -> (r: bool)
    ensures
        r == (*a == *b),
    decreases a,
{
    match (a, b) {
        (List::Nil, List::Nil) => true,
        (List::Cons(h, t), List::Cons(h2, t2)) => h.same_shape(h2) && same_shapes(t, t2),
        _ => false,
    }
}

impl TypeShape {
    fn copy_shape(&self) -> (r: TypeShape)
        ensures
            r == *self,
        decreases self,
    {
        match self {
            TypeShape::Primitive(p) => TypeShape::Primitive(*p),
            TypeShape::Named { name, args } => TypeShape::Named {
                name: *name,
                args: Box::new(copy_shapes(args)),
            },
            TypeShape::Array(e) => TypeShape::Array(Box::new(e.copy_shape())),
            TypeShape::Any => TypeShape::Any,
            TypeShape::Extends(e) => TypeShape::Extends(Box::new(e.copy_shape())),
            TypeShape::Super(e) => TypeShape::Super(Box::new(e.copy_shape())),
            TypeShape::Dotted(l) => TypeShape::Dotted(Box::new(l.copy())),
            TypeShape::Missing => TypeShape::Missing,
        }
    }

    fn same_shape(&self, other: &TypeShape) -> (r: bool)
        ensures
            r == (*self == *other),
        decreases self,
    {
        match (self, other) {
            (TypeShape::Primitive(p), TypeShape::Primitive(q)) => *p == *q,
            (
                TypeShape::Named { name, args },
                TypeShape::Named { name: n2, args: a2 },
            ) => *name == *n2 && same_shapes(args, a2),
            (TypeShape::Array(a), TypeShape::Array(b)) => a.same_shape(b),
            (TypeShape::Any, TypeShape::Any) => true,
            (TypeShape::Extends(a), TypeShape::Extends(b)) => a.same_shape(b),
            (TypeShape::Super(a), TypeShape::Super(b)) => a.same_shape(b),
            (TypeShape::Dotted(a), TypeShape::Dotted(b)) => a.same(&**b),
            (TypeShape::Missing, TypeShape::Missing) => true,
            _ => false,
        }
    }
}

impl Data for TypeShape {
    fn copy(&self) -> (r: Self) {
        self.copy_shape()
    }

    fn same(&self, other: &Self) -> (r: bool) {
        self.same_shape(other)
    }
}

impl Data for TypeRef {
    fn copy(&self) -> (r: Self) {
        TypeRef { shape: self.shape.copy(), refs: self.refs.copy() }
    }

    fn same(&self, other: &Self) -> (r: bool) {
        self.shape.same(&other.shape) && self.refs.same(&other.refs)
    }
}

/// The modifiers of a declaration.
#[derive(Clone, Copy, Debug, PartialEq, Eq, Structural)]
pub struct Modifiers {
    pub visibility: Access,
    pub is_static: bool,
    pub is_abstract: bool,
    pub is_final: bool,
}

/// A type parameter of a declaration.
#[derive(Debug, PartialEq, Eq)]
pub struct TypeParam {
    pub name: Name,
    pub bounds: List<TypeRef>,
    pub annotations: List<RefName>,
}

/// A formal parameter.
#[derive(Debug, PartialEq, Eq)]
pub struct Param {
    pub name: Name,
    pub ty: TypeRef,
    pub varargs: bool,
    pub annotations: List<RefName>,
}

/// What a method item declares.
#[derive(Clone, Copy, Debug, PartialEq, Eq, Structural)]
pub enum MethodForm {
    Method,
    Constructor,
    /// The constructor of a record without a parameter list.
    CompactConstructor,
}

/// A class or an interface.
#[derive(Debug, PartialEq, Eq)]
pub struct ClassItem {
    pub name: Name,
    pub modifiers: Modifiers,
    pub annotations: List<RefName>,
    pub type_params: List<TypeParam>,
    pub super_class: Option<TypeRef>,
    pub interfaces: List<TypeRef>,
    pub body: List<u32>,
}

/// An enum.
#[derive(Debug, PartialEq, Eq)]
pub struct EnumItem {
    pub name: Name,
    pub modifiers: Modifiers,
    pub annotations: List<RefName>,
    pub interfaces: List<TypeRef>,
    pub body: List<u32>,
}

/// A record.
#[derive(Debug, PartialEq, Eq)]
pub struct RecordItem {
    pub name: Name,
    pub modifiers: Modifiers,
    pub annotations: List<RefName>,
    pub type_params: List<TypeParam>,
    pub components: List<Param>,
    pub interfaces: List<TypeRef>,
    pub body: List<u32>,
}

/// An annotation interface.
#[derive(Debug, PartialEq, Eq)]
pub struct AnnotationItem {
    pub name: Name,
    pub annotations: List<RefName>,
    pub body: List<u32>,
}

/// A `provides` directive.
#[derive(Debug, PartialEq, Eq)]
pub struct Provide {
    pub service: TypeRef,
    pub implementations: List<TypeRef>,
}

/// A module declaration.
#[derive(Debug, PartialEq, Eq)]
pub struct ModuleItem {
    pub annotations: List<RefName>,
    pub uses: List<TypeRef>,
    pub provides: List<Provide>,
}

/// A method or constructor.
#[derive(Debug, PartialEq, Eq)]
pub struct MethodItem {
    pub name: Name,
    pub modifiers: Modifiers,
    pub annotations: List<RefName>,
    pub type_params: List<TypeParam>,
    pub params: List<Param>,
    pub ret: Option<TypeRef>,
    pub throws: List<TypeRef>,
    pub has_body: bool,
    pub form: MethodForm,
    pub body: List<u32>,
}

/// A field.
#[derive(Debug, PartialEq, Eq)]
pub struct FieldItem {
    pub name: Name,
    pub modifiers: Modifiers,
    pub annotations: List<RefName>,
    pub ty: TypeRef,
    pub has_initializer: bool,
    pub body: List<u32>,
}

/// A declaration.
#[derive(Debug, PartialEq, Eq)]
pub enum ItemData {
    Class(ClassItem),
    Interface(ClassItem),
    Enum(EnumItem),
    Record(RecordItem),
    Annotation(AnnotationItem),
    Module(ModuleItem),
    Method(MethodItem),
    Field(FieldItem),
    /// A constant of an enum, with the declarations of its class body.
    EnumConstant { name: Name, body: List<u32> },
    StaticInit { body: List<u32> },
    InstanceInit { body: List<u32> },
}

impl ItemData {
    /// The declarations inside.
    pub open spec fn children(self) -> List<u32> {
        match self {
            ItemData::Class(d) => d.body,
            ItemData::Interface(d) => d.body,
            ItemData::Enum(d) => d.body,
            ItemData::Record(d) => d.body,
            ItemData::Annotation(d) => d.body,
            ItemData::Module(_) => List::Nil,
            ItemData::Method(d) => d.body,
            ItemData::Field(d) => d.body,
            ItemData::EnumConstant { name: _, body } => body,
            ItemData::StaticInit { body } => body,
            ItemData::InstanceInit { body } => body,
        }
    }

    /// Whether the declaration declares a type.
    pub open spec fn declares_type(self) -> bool {
        self is Class || self is Interface || self is Enum || self is Record || self is Annotation
    }

    /// The declarations inside.
    pub fn body(&self) -> (r: List<u32>)
        ensures
            r == self.children(),
    {
        match self {
            ItemData::Class(d) => d.body.copy(),
            ItemData::Interface(d) => d.body.copy(),
            ItemData::Enum(d) => d.body.copy(),
            ItemData::Record(d) => d.body.copy(),
            ItemData::Annotation(d) => d.body.copy(),
            ItemData::Module(_) => List::Nil,
            ItemData::Method(d) => d.body.copy(),
            ItemData::Field(d) => d.body.copy(),
            ItemData::EnumConstant { name: _, body } => body.copy(),
            ItemData::StaticInit { body } => body.copy(),
            ItemData::InstanceInit { body } => body.copy(),
        }
    }

    /// Whether the declaration declares a type.
    pub fn is_type(&self) -> (r: bool)
        ensures
            r == self.declares_type(),
    {
        match self {
            ItemData::Class(_) => true,
            ItemData::Interface(_) => true,
            ItemData::Enum(_) => true,
            ItemData::Record(_) => true,
            ItemData::Annotation(_) => true,
            _ => false,
        }
    }
}

/// An import declaration. The name of an on-demand import has no `.*`. The
/// name is the member, behind the owner and a dot where there is an owner; the
/// simple name is what follows the last dot or dollar sign.
#[derive(Clone, Copy, Debug, PartialEq, Eq)]
pub struct ImportItem {
    pub name: Name,
    pub owner: Option<Name>,
    pub member: Name,
    pub simple: Name,
    pub is_static: bool,
    pub is_asterisk: bool,
    pub range: Option<TextRange>,
}

impl Data for ImportItem {
    fn copy(&self) -> (r: Self) {
        *self
    }

    fn same(&self, other: &Self) -> (r: bool) {
        self.name == other.name && self.owner.same(&other.owner) && self.member == other.member
            && self.simple == other.simple && self.is_static == other.is_static && self.is_asterisk == other.is_asterisk
            && self.range.same(&other.range)
    }
}

/// Whether the parts of an import are those of its name.
pub open spec fn import_split(names: Names, import: ImportItem) -> bool {
    let text = names.text(import.name);
    &&& names.knows(import.name)
    &&& names.knows(import.simple)
    &&& names.text(import.simple) == simple_text(text)
    &&& names.knows(import.member)
    &&& names.text(import.member) == text.subrange(last_dot(text) + 1, text.len() as int)
    &&& match import.owner {
        Some(owner) => last_dot(text) >= 0 && names.knows(owner) && names.text(owner)
            == text.subrange(0, last_dot(text)),
        None => last_dot(text) == -1,
    }
}

impl ImportItem {
    /// The import of a name.
    pub fn new(
        names: &mut Names,
        text: &str,
        is_static: bool,
        is_asterisk: bool,
        range: Option<TextRange>,
    ) -> (r: ImportItem)
        requires
            old(names).wf(),
            old(names).texts@.len() < u32::MAX - 3,
        ensures
            final(names).wf(),
            final(names).text(r.name) == text@,
            import_split(*final(names), r),
            r.is_static == is_static,
            r.is_asterisk == is_asterisk,
            r.range == range,
            keeps_names(*old(names), *final(names)),
    {
        let name = names.intern(text);
        let simple = names.intern(simple_name(text));
        match rsplit_once_dot(text) {
            Some((owner, member)) => {
                let owner = names.intern(owner);
                let member = names.intern(member);
                ImportItem {
                    name,
                    owner: Some(owner),
                    member,
                    simple,
                    is_static,
                    is_asterisk,
                    range,
                }
            },
            None => {
                proof {
                    assert(text@.subrange(0, text@.len() as int) =~= text@);
                }
                ImportItem { name, owner: None, member: name, simple, is_static, is_asterisk, range }
            },
        }
    }
}

/// The language of a file.
#[derive(Clone, Copy, Debug, PartialEq, Eq, Structural)]
pub enum LanguageKind {
    Java,
    Kotlin,
    Unknown,
}

/// The declarations of a compilation unit. An item is known by its position
/// in `items`, and lies behind the item it is declared in.
#[derive(Debug, PartialEq, Eq)]
pub struct ItemTree {
    pub language: LanguageKind,
    pub items: Vec<ItemData>,
    /// The declarations that are in no other.
    pub top: List<u32>,
    pub imports: List<ImportItem>,
    pub package: Option<Name>,
    /// The place of the name in each package declaration.
    pub package_decls: List<Option<TextRange>>,
}

/// Whether every number of the list is behind `low` and before `high`.
pub open spec fn between(l: List<u32>, low: int, high: int) -> bool
    decreases l,
{
    match l {
        List::Nil => true,
        List::Cons(h, t) => low < *h < high && between(*t, low, high),
    }
}

impl ItemTree {
    /// Every item is declared behind the item it lies in.
    pub open spec fn wf(self) -> bool {
        &&& between(self.top, -1, self.items@.len() as int)
        &&& forall|i: int|
            0 <= i < self.items@.len() ==> between(
                (#[trigger] self.items@[i]).children(),
                i,
                self.items@.len() as int,
            )
    }

    /// The declaration `id`.
    pub open spec fn item(self, id: u32) -> Option<ItemData> {
        if id < self.items@.len() {
            Some(self.items@[id as int])
        } else {
            None
        }
    }

    /// The declaration `id`.
    pub fn get(&self, id: u32) -> (r: Option<&ItemData>)
        ensures
            match r {
                Some(d) => self.item(id) == Some(*d),
                None => self.item(id) is None,
            },
    {
        let i: usize = id as usize;
        if i < self.items.len() {
            Some(&self.items[i])
        } else {
            None
        }
    }

    /// The first item, from `from` on, that `id` is declared in.
    pub open spec fn parent_from(self, id: u32, from: nat) -> Option<u32>
        decreases self.items@.len() - from,
    {
        if from >= self.items@.len() {
            None
        } else if self.items@[from as int].children().has(id) {
            Some(from as u32)
        } else {
            self.parent_from(id, from + 1)
        }
    }

    /// The item that `id` is declared in.
    pub open spec fn parent(self, id: u32) -> Option<u32> {
        self.parent_from(id, 0)
    }

    /// The innermost type declaration around `id`.
    pub open spec fn type_around(self, id: u32) -> Option<u32>
        decreases id,
    {
        match self.parent(id) {
            None => None,
            Some(p) => if p >= id {
                None
            } else if self.items@[p as int].declares_type() {
                Some(p)
            } else {
                self.type_around(p)
            },
        }
    }

    /// The item that `id` is declared in.
    pub fn parent_of(&self, id: u32) -> (r: Option<u32>)
        requires
            self.wf(),
            self.items@.len() <= u32::MAX,
        ensures
            r == self.parent(id),
            match r {
                Some(p) => p < id && p < self.items@.len(),
                None => true,
            },
    {
        let mut i: usize = 0;
        while i < self.items.len()
            invariant
                i <= self.items@.len(),
                self.items@.len() <= u32::MAX,
                self.wf(),
                self.parent_from(id, i as nat) == self.parent(id),
            decreases self.items@.len() - i,
        {
            let body = self.items[i].body();
            if body.contains(&id) {
                proof {
                    lemma_between(body, i as int, self.items@.len() as int, id);
                }
                return Some(i as u32);
            }
            i = i + 1;
        }
        None
    }

    /// The innermost type declaration around `id`.
    pub fn enclosing_type(&self, id: u32) -> (r: Option<u32>)
        requires
            self.wf(),
            self.items@.len() <= u32::MAX,
        ensures
            r == self.type_around(id),
        decreases id,
    {
        match self.parent_of(id) {
            None => None,
            Some(p) => if self.items[p as usize].is_type() {
                Some(p)
            } else {
                self.enclosing_type(p)
            },
        }
    }
}

/// A number of the list lies in the range that holds of all of them.
pub proof fn lemma_between(l: List<u32>, low: int, high: int, x: u32)
    requires
        between(l, low, high),
        l.has(x),
    ensures
        low < x < high,
    decreases l,
{
    if let List::Cons(h, t) = l {
        if *h != x {
            lemma_between(*t, low, high, x);
        }
    }
}

} // verus!
