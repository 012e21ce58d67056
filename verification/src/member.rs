//! The members of classes, and the context an invocation or access appears in.
use crate::list::{Data, List};
use crate::names::Name;
use crate::ty::{SourceClass, Ty, TypeVarScope};
use vstd::prelude::*;

verus! {

/// The access a declaration has.
#[derive(Clone, Copy, Debug, PartialEq, Eq, Structural)]
pub enum Access {
    Public,
    Protected,
    Package,
    Private,
}

/// The identity of a class: its canonical name, or the declaration of a class
/// that has none.
#[derive(Clone, Copy, Debug, PartialEq, Eq, Structural)]
pub enum ClassKey {
    Named(Name),
    Local(SourceClass),
}

impl Data for ClassKey {
    fn copy(&self) -> (r: Self) {
        *self
    }

    fn same(&self, other: &Self) -> (r: bool) {
        *self == *other
    }
}

/// A type parameter of a method, with its declared bounds.
#[derive(Debug, PartialEq, Eq)]
pub struct MethodTypeParam {
    pub scope: TypeVarScope,
    pub bounds: List<Ty>,
}

impl Data for MethodTypeParam {
    fn copy(&self) -> (r: Self) {
        MethodTypeParam { scope: self.scope, bounds: self.bounds.copy() }
    }

    fn same(&self, other: &Self) -> (r: bool) {
        self.scope == other.scope && self.bounds.same(&other.bounds)
    }
}

/// A method or constructor as a member of a class.
#[derive(Debug, PartialEq, Eq)]
pub struct MethodData {
    pub name: Name,
    pub owner: ClassKey,
    pub owner_file: Option<u32>,
    pub decl_item: Option<u32>,
    pub params: List<Ty>,
    pub param_names: Option<List<Name>>,
    pub ret: Ty,
    pub throws: List<Ty>,
    pub varargs: bool,
    pub is_static: bool,
    pub is_abstract: bool,
    pub is_final: bool,
    pub access: Access,
    pub declaring_package: Option<Name>,
    pub declaring_top_level: Option<Name>,
    pub declaring_interface: bool,
    pub type_params: List<MethodTypeParam>,
    /// Whether the signature was erased because the member was reached
    /// through a raw type.
    pub raw_erased: bool,
    pub descriptor: Option<Name>,
}

impl Data for MethodData {
    fn copy(&self) -> (r: Self) {
        MethodData {
            name: self.name,
            owner: self.owner,
            owner_file: self.owner_file,
            decl_item: self.decl_item,
            params: self.params.copy(),
            param_names: self.param_names.copy(),
            ret: self.ret.copy(),
            throws: self.throws.copy(),
            varargs: self.varargs,
            is_static: self.is_static,
            is_abstract: self.is_abstract,
            is_final: self.is_final,
            access: self.access,
            declaring_package: self.declaring_package,
            declaring_top_level: self.declaring_top_level,
            declaring_interface: self.declaring_interface,
            type_params: self.type_params.copy(),
            raw_erased: self.raw_erased,
            descriptor: self.descriptor,
        }
    }

    fn same(&self, other: &Self) -> (r: bool) {
        self.name == other.name && self.owner == other.owner && self.owner_file.same(
            &other.owner_file,
        ) && self.decl_item.same(&other.decl_item) && self.params.same(&other.params)
            && self.param_names.same(&other.param_names) && self.ret.same(&other.ret)
            && self.throws.same(&other.throws) && self.varargs == other.varargs && self.is_static
            == other.is_static && self.is_abstract == other.is_abstract && self.is_final
            == other.is_final && self.access == other.access && self.declaring_package.same(
            &other.declaring_package,
        ) && self.declaring_top_level.same(&other.declaring_top_level) && self.declaring_interface
            == other.declaring_interface && self.type_params.same(&other.type_params)
            && self.raw_erased == other.raw_erased && self.descriptor.same(&other.descriptor)
    }
}

/// A field as a member of a class.
#[derive(Debug, PartialEq, Eq)]
pub struct FieldData {
    pub name: Name,
    pub owner: ClassKey,
    pub owner_file: Option<u32>,
    pub decl_item: Option<u32>,
    pub ty: Ty,
    pub is_static: bool,
    pub is_final: bool,
    pub access: Access,
    pub declaring_package: Option<Name>,
    pub declaring_top_level: Option<Name>,
    pub descriptor: Option<Name>,
}

impl Data for FieldData {
    fn copy(&self) -> (r: Self) {
        FieldData {
            name: self.name,
            owner: self.owner,
            owner_file: self.owner_file,
            decl_item: self.decl_item,
            ty: self.ty.copy(),
            is_static: self.is_static,
            is_final: self.is_final,
            access: self.access,
            declaring_package: self.declaring_package,
            declaring_top_level: self.declaring_top_level,
            descriptor: self.descriptor,
        }
    }

    fn same(&self, other: &Self) -> (r: bool) {
        self.name == other.name && self.owner == other.owner && self.owner_file.same(
            &other.owner_file,
        ) && self.decl_item.same(&other.decl_item) && self.ty.same(&other.ty) && self.is_static
            == other.is_static && self.is_final == other.is_final && self.access == other.access
            && self.declaring_package.same(&other.declaring_package)
            && self.declaring_top_level.same(&other.declaring_top_level) && self.descriptor.same(
            &other.descriptor,
        )
    }
}

/// The form of an invocation.
#[derive(Clone, Copy, Debug, PartialEq, Eq, Structural)]
pub enum InvocationMode {
    /// `Type.m(..)`
    Static,
    /// `Type::m`
    TypeQualified,
    /// `super.m(..)`
    Super,
    /// An invocation through an interface.
    Interface,
    /// `m(..)`
    MethodName,
    /// `e.m(..)`
    Virtual,
}

/// Where an invocation or access appears.
#[derive(Clone, Copy, Debug, PartialEq, Eq)]
pub struct InvocationContext {
    pub enclosing_class: Option<ClassKey>,
    pub package: Option<Name>,
    /// The class an anonymous body around the access extends.
    pub subclass_of: Option<ClassKey>,
    pub mode: InvocationMode,
}

impl Data for InvocationContext {
    fn copy(&self) -> (r: Self) {
        *self
    }

    fn same(&self, other: &Self) -> (r: bool) {
        self.enclosing_class.same(&other.enclosing_class) && self.package.same(&other.package)
            && self.subclass_of.same(&other.subclass_of) && self.mode == other.mode
    }
}

impl InvocationContext {
    /// The same place, invoked in another form.
    pub fn with_mode(&self, mode: InvocationMode) -> (r: InvocationContext)
        ensures
            r == (InvocationContext { mode, ..*self }),
    {
        InvocationContext {
            enclosing_class: self.enclosing_class,
            package: self.package,
            subclass_of: self.subclass_of,
            mode,
        }
    }
}

} // verus!
