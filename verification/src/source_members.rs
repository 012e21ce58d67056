//! The members a source class declares, written and implicit, as seen through
//! a type with these type arguments.
use crate::access::{interface_access_of, member_access};
use crate::class_key::{key_of, known};
use crate::db::TyDatabase;
use crate::items::{
    ItemData, ItemTree, MethodForm, MethodItem, Param, RecordItem, TypeParam, TypeRef,
};
use crate::list::{lemma_with_has, Data, List};
use crate::member::{Access, ClassKey, FieldData, MethodData, MethodTypeParam};
use crate::names::{keeps_names, lemma_lookup_known, Name, Names};
use crate::select::{dedup, deduped};
use crate::ty::{
    all_erased, any_contains_type_var, any_type_var, all_subst, class_of, erasure_all,
    substitute_all, PrimitiveType, SourceClass, Subst, Ty, TypeVarScope,
};
use vstd::prelude::*;

verus! {

/// The class whose members are listed, and how it is seen.
#[derive(Debug, PartialEq, Eq)]
pub struct Setting {
    pub class: SourceClass,
    pub key: ClassKey,
    pub simple: Name,
    pub package: Name,
    pub top_level: Option<Name>,
    pub is_interface: bool,
    /// What the type parameters of the class stand for.
    pub binding: Subst,
    /// Whether the class is generic and is seen without type arguments.
    pub raw: bool,
    /// The name of the members to be listed; the empty name for all of them.
    pub filter: Name,
}

/// The type parameters a declaration has.
pub open spec fn params_of(data: ItemData) -> List<TypeParam> {
    match data {
        ItemData::Class(d) => d.type_params,
        ItemData::Interface(d) => d.type_params,
        ItemData::Record(d) => d.type_params,
        _ => List::Nil,
    }
}

/// The types the type parameters of a class stand for.
pub open spec fn class_binding(
    class: SourceClass,
    params: List<TypeParam>,
    args: List<Ty>,
) -> Subst
    decreases params,
{
    match (params, args) {
        (List::Cons(p, pt), List::Cons(a, at)) => List::Cons(
            Box::new(
                (
                    TypeVarScope::Class { file: class.file, item: class.item, name: p.name },
                    *a,
                ),
            ),
            Box::new(class_binding(class, *pt, *at)),
        ),
        _ => List::Nil,
    }
}

fn bind_class_params(class: SourceClass, params: &List<TypeParam>, args: &List<Ty>) -> (r: Subst)
    ensures
        r == class_binding(class, *params, *args),
    decreases params,
{
    match (params, args) {
        (List::Cons(p, pt), List::Cons(a, at)) => {
            let scope = TypeVarScope::Class { file: class.file, item: class.item, name: p.name };
            List::cons((scope, a.copy()), bind_class_params(class, pt, at))
        },
        _ => List::Nil,
    }
}

/// Whether a member of this name is to be listed.
pub open spec fn listed(s: Setting, name: Name) -> bool {
    s.filter == Name::Empty || s.filter == name
}

fn is_listed(s: &Setting, name: Name) -> (r: bool)
    ensures
        r == listed(*s, name),
{
    s.filter == Name::Empty || s.filter == name
}

/// The types that written types mean inside `item`.
pub open spec fn resolved_all<D: TyDatabase>(
    db: &D,
    file: u32,
    item: u32,
    l: List<TypeRef>,
) -> List<Ty>
    decreases l,
{
    match l {
        List::Nil => List::Nil,
        List::Cons(h, t) => List::Cons(
            Box::new(db.resolved_type(file, item, h.shape)),
            Box::new(resolved_all(db, file, item, *t)),
        ),
    }
}

pub fn resolve_all<D: TyDatabase>(db: &D, file: u32, item: u32, l: &List<TypeRef>) -> (r: List<Ty>)
    ensures
        r == resolved_all(db, file, item, *l),
    decreases l,
{
    match l {
        List::Nil => List::Nil,
        List::Cons(h, t) => List::cons(
            db.resolve_type_ref(file, item, &h.shape),
            resolve_all(db, file, item, t),
        ),
    }
}

/// The type parameters of a method, their bounds seen through the class.
pub open spec fn method_type_params<D: TyDatabase>(
    db: &D,
    s: Setting,
    item: u32,
    l: List<TypeParam>,
) -> List<MethodTypeParam>
    decreases l,
{
    match l {
        List::Nil => List::Nil,
        List::Cons(p, t) => List::Cons(
            Box::new(
                MethodTypeParam {
                    scope: TypeVarScope::Method { file: s.class.file, item, name: p.name },
                    bounds: all_subst(
                        resolved_all(db, s.class.file, item, p.bounds),
                        s.binding,
                    ),
                },
            ),
            Box::new(method_type_params(db, s, item, *t)),
        ),
    }
}

fn resolve_type_params<D: TyDatabase>(db: &D, s: &Setting, item: u32, l: &List<TypeParam>) -> (r:
    List<MethodTypeParam>)
    ensures
        r == method_type_params(db, *s, item, *l),
    decreases l,
{
    match l {
        List::Nil => List::Nil,
        List::Cons(p, t) => {
            let bounds = substitute_all(
                &resolve_all(db, s.class.file, item, &p.bounds),
                &s.binding,
            );
            let head = MethodTypeParam {
                scope: TypeVarScope::Method { file: s.class.file, item, name: p.name },
                bounds,
            };
            List::cons(head, resolve_type_params(db, s, item, t))
        },
    }
}

/// The type of a record component inside `item`: a variable arity component is
/// an array.
pub open spec fn component_type<D: TyDatabase>(db: &D, s: Setting, item: u32, c: Param) -> Ty {
    let ty = db.resolved_type(s.class.file, item, c.ty.shape);
    (if c.varargs {
        Ty::Array(Box::new(ty))
    } else {
        ty
    }).subst(s.binding)
}

fn resolve_component<D: TyDatabase>(db: &D, s: &Setting, item: u32, c: &Param) -> (r: Ty)
    ensures
        r == component_type(db, *s, item, *c),
{
    let ty = db.resolve_type_ref(s.class.file, item, &c.ty.shape);
    let ty = if c.varargs {
        Ty::array(ty)
    } else {
        ty
    };
    ty.substitute(&s.binding)
}

/// The types of the record components inside `item`.
pub open spec fn component_types<D: TyDatabase>(
    db: &D,
    s: Setting,
    item: u32,
    l: List<Param>,
) -> List<Ty>
    decreases l,
{
    match l {
        List::Nil => List::Nil,
        List::Cons(h, t) => List::Cons(
            Box::new(component_type(db, s, item, *h)),
            Box::new(component_types(db, s, item, *t)),
        ),
    }
}

fn resolve_components<D: TyDatabase>(db: &D, s: &Setting, item: u32, l: &List<Param>) -> (r: List<
    Ty,
>)
    ensures
        r == component_types(db, *s, item, *l),
    decreases l,
{
    match l {
        List::Nil => List::Nil,
        List::Cons(h, t) => List::cons(
            resolve_component(db, s, item, h),
            resolve_components(db, s, item, t),
        ),
    }
}

/// Whether the last parameter has variable arity.
pub open spec fn last_varargs(l: List<Param>) -> bool
    decreases l,
{
    match l {
        List::Nil => false,
        List::Cons(h, t) => if *t is Nil {
            h.varargs
        } else {
            last_varargs(*t)
        },
    }
}

fn is_last_varargs(l: &List<Param>) -> (r: bool)
    ensures
        r == last_varargs(*l),
    decreases l,
{
    match l {
        List::Nil => false,
        List::Cons(h, t) => if t.is_empty() {
            h.varargs
        } else {
            is_last_varargs(t)
        },
    }
}

/// The list with its last type made an array of it.
pub open spec fn last_as_array(l: List<Ty>) -> List<Ty>
    decreases l,
{
    match l {
        List::Nil => List::Nil,
        List::Cons(h, t) => if *t is Nil {
            List::Cons(Box::new(Ty::Array(h)), t)
        } else {
            List::Cons(h, Box::new(last_as_array(*t)))
        },
    }
}

fn make_last_array(l: &List<Ty>) -> (r: List<Ty>)
    ensures
        r == last_as_array(*l),
    decreases l,
{
    match l {
        List::Nil => List::Nil,
        List::Cons(h, t) => if t.is_empty() {
            List::cons(Ty::array(h.copy()), List::Nil)
        } else {
            List::cons(h.copy(), make_last_array(t))
        },
    }
}

/// The names of the parameters.
pub open spec fn param_names(l: List<Param>) -> List<Name>
    decreases l,
{
    match l {
        List::Nil => List::Nil,
        List::Cons(h, t) => List::Cons(Box::new(h.name), Box::new(param_names(*t))),
    }
}

fn names_of_params(l: &List<Param>) -> (r: List<Name>)
    ensures
        r == param_names(*l),
    decreases l,
{
    match l {
        List::Nil => List::Nil,
        List::Cons(h, t) => List::cons(h.name, names_of_params(t)),
    }
}

/// A type as a member of a raw class has it: erased where `erase` holds.
pub open spec fn seen(t: Ty, erase: bool) -> Ty {
    if erase {
        t.erased()
    } else {
        t
    }
}

pub open spec fn seen_all(l: List<Ty>, erase: bool) -> List<Ty> {
    if erase {
        all_erased(l)
    } else {
        l
    }
}

fn see(t: Ty, erase: bool) -> (r: Ty)
    ensures
        r == seen(t, erase),
{
    if erase {
        t.erasure()
    } else {
        t
    }
}

fn see_all(l: List<Ty>, erase: bool) -> (r: List<Ty>)
    ensures
        r == seen_all(l, erase),
{
    if erase {
        erasure_all(&l)
    } else {
        l
    }
}

/// The components of a record; none of another declaration.
pub open spec fn components_of(data: ItemData) -> List<Param> {
    match data {
        ItemData::Record(d) => d.components,
        _ => List::Nil,
    }
}

/// The formal types of a written method. The parameters of a compact
/// constructor are the components of its record.
pub open spec fn written_params<D: TyDatabase>(
    db: &D,
    s: Setting,
    data: ItemData,
    item: u32,
    m: MethodItem,
    erase: bool,
) -> List<Ty> {
    if m.form is CompactConstructor {
        seen_all(component_types(db, s, item, components_of(data)), erase)
    } else {
        let params = seen_all(
            all_subst(db.declared_params(s.class.file, item), s.binding),
            erase,
        );
        if last_varargs(m.params) {
            last_as_array(params)
        } else {
            params
        }
    }
}

/// A written method as a member.
pub open spec fn written_method<D: TyDatabase>(
    db: &D,
    s: Setting,
    data: ItemData,
    item: u32,
    m: MethodItem,
) -> MethodData {
    let erase = s.raw && !m.modifiers.is_static;
    MethodData {
        name: m.name,
        owner: s.key,
        owner_file: Some(s.class.file),
        decl_item: Some(item),
        params: written_params(db, s, data, item, m, erase),
        param_names: Some(param_names(m.params)),
        ret: seen(db.declared_type(s.class.file, item).subst(s.binding), erase),
        throws: deduped(
            seen_all(
                all_subst(resolved_all(db, s.class.file, item, m.throws), s.binding),
                erase,
            ),
        ),
        varargs: if m.form is CompactConstructor {
            last_varargs(components_of(data))
        } else {
            last_varargs(m.params)
        },
        is_static: m.modifiers.is_static,
        is_abstract: if s.is_interface {
            !m.has_body && !m.modifiers.is_static
        } else {
            m.modifiers.is_abstract
        },
        is_final: m.modifiers.is_final,
        access: member_access(s.is_interface, m.modifiers.visibility),
        declaring_package: Some(s.package),
        declaring_top_level: s.top_level,
        declaring_interface: s.is_interface,
        type_params: method_type_params(db, s, item, m.type_params),
        raw_erased: erase && (!(m.type_params is Nil) || any_type_var(
            all_subst(db.declared_params(s.class.file, item), s.binding),
        )),
        descriptor: None,
    }
}

fn build_method<D: TyDatabase>(
    db: &D,
    s: &Setting,
    data: &ItemData,
    item: u32,
    m: &MethodItem,
) -> (r: MethodData)
    ensures
        r == written_method(db, *s, *data, item, *m),
{
    let erase = s.raw && !m.modifiers.is_static;
    let declared = substitute_all(&db.method_params(s.class.file, item), &s.binding);
    let raw_erased = erase && (!m.type_params.is_empty() || any_contains_type_var(&declared));
    let (varargs, params): (bool, List<Ty>) = if m.form == MethodForm::CompactConstructor {
        match data {
            ItemData::Record(d) => (
                is_last_varargs(&d.components),
                see_all(resolve_components(db, s, item, &d.components), erase),
            ),
            _ => (false, see_all(List::Nil, erase)),
        }
    } else {
        let varargs = is_last_varargs(&m.params);
        let params = see_all(declared, erase);
        (
            varargs,
            if varargs {
                make_last_array(&params)
            } else {
                params
            },
        )
    };
    let throws = substitute_all(&resolve_all(db, s.class.file, item, &m.throws), &s.binding);
    MethodData {
        name: m.name,
        owner: s.key,
        owner_file: Some(s.class.file),
        decl_item: Some(item),
        params,
        param_names: Some(names_of_params(&m.params)),
        ret: see(db.item_ty(s.class.file, item).substitute(&s.binding), erase),
        throws: dedup(&see_all(throws, erase)),
        varargs,
        is_static: m.modifiers.is_static,
        is_abstract: if s.is_interface {
            !m.has_body && !m.modifiers.is_static
        } else {
            m.modifiers.is_abstract
        },
        is_final: m.modifiers.is_final,
        access: interface_access_of(s.is_interface, &m.modifiers),
        declaring_package: Some(s.package),
        declaring_top_level: s.top_level,
        declaring_interface: s.is_interface,
        type_params: resolve_type_params(db, s, item, &m.type_params),
        raw_erased,
        descriptor: None,
    }
}

/// The written methods among the items that are to be listed.
pub open spec fn written_methods<D: TyDatabase>(
    db: &D,
    s: Setting,
    tree: ItemTree,
    data: ItemData,
    items: List<u32>,
) -> List<MethodData>
    decreases items,
{
    match items {
        List::Nil => List::Nil,
        List::Cons(i, t) => {
            let rest = written_methods(db, s, tree, data, *t);
            match tree.item(*i) {
                Some(ItemData::Method(m)) => if listed(s, m.name) {
                    List::Cons(Box::new(written_method(db, s, data, *i, m)), Box::new(rest))
                } else {
                    rest
                },
                _ => rest,
            }
        },
    }
}

fn build_methods<D: TyDatabase>(
    db: &D,
    s: &Setting,
    tree: &ItemTree,
    data: &ItemData,
    items: &List<u32>,
) -> (r: List<MethodData>)
    ensures
        r == written_methods(db, *s, *tree, *data, *items),
    decreases items,
{
    match items {
        List::Nil => List::Nil,
        List::Cons(i, t) => {
            let rest = build_methods(db, s, tree, data, t);
            match tree.get(**i) {
                Some(ItemData::Method(m)) => if is_listed(s, m.name) {
                    List::cons(build_method(db, s, data, **i, m), rest)
                } else {
                    rest
                },
                _ => rest,
            }
        },
    }
}

/// Whether one of the items is a constructor.
pub open spec fn declares_ctor(tree: ItemTree, items: List<u32>) -> bool
    decreases items,
{
    match items {
        List::Nil => false,
        List::Cons(i, t) => (tree.item(*i) matches Some(ItemData::Method(m)) && !(
        m.form is Method)) || declares_ctor(tree, *t),
    }
}

fn has_ctor(tree: &ItemTree, items: &List<u32>) -> (r: bool)
    ensures
        r == declares_ctor(*tree, *items),
    decreases items,
{
    match items {
        List::Nil => false,
        List::Cons(i, t) => {
            let here = match tree.get(**i) {
                Some(ItemData::Method(m)) => m.form != MethodForm::Method,
                _ => false,
            };
            here || has_ctor(tree, t)
        },
    }
}

/// A member that is not written.
pub open spec fn implicit_method(
    s: Setting,
    name: Name,
    params: List<Ty>,
    ret: Ty,
    is_static: bool,
    varargs: bool,
    access: Access,
) -> MethodData {
    MethodData {
        name,
        owner: s.key,
        owner_file: Some(s.class.file),
        decl_item: None,
        params,
        param_names: None,
        ret,
        throws: List::Nil,
        varargs,
        is_static,
        is_abstract: false,
        is_final: false,
        access,
        declaring_package: Some(s.package),
        declaring_top_level: s.top_level,
        declaring_interface: false,
        type_params: List::Nil,
        raw_erased: false,
        descriptor: None,
    }
}

fn build_implicit(
    s: &Setting,
    name: Name,
    params: List<Ty>,
    ret: Ty,
    is_static: bool,
    varargs: bool,
    access: Access,
) -> (r: MethodData)
    ensures
        r == implicit_method(*s, name, params, ret, is_static, varargs, access),
{
    MethodData {
        name,
        owner: s.key,
        owner_file: Some(s.class.file),
        decl_item: None,
        params,
        param_names: None,
        ret,
        throws: List::Nil,
        varargs,
        is_static,
        is_abstract: false,
        is_final: false,
        access,
        declaring_package: Some(s.package),
        declaring_top_level: s.top_level,
        declaring_interface: false,
        type_params: List::Nil,
        raw_erased: false,
        descriptor: None,
    }
}

/// The members with the default constructor of a class or enum that declares
/// none. It has the access of the class.
pub open spec fn with_default_ctor<D: TyDatabase>(
    db: &D,
    s: Setting,
    tree: ItemTree,
    data: ItemData,
    out: List<MethodData>,
) -> List<MethodData> {
    if declares_ctor(tree, data.children()) || s.is_interface || !listed(s, s.simple) {
        out
    } else {
        match data {
            ItemData::Class(d) => out.with(
                implicit_method(
                    s,
                    s.simple,
                    List::Nil,
                    s.key.ty(db, List::Nil),
                    false,
                    false,
                    d.modifiers.visibility,
                ),
            ),
            ItemData::Enum(d) => out.with(
                implicit_method(
                    s,
                    s.simple,
                    List::Nil,
                    s.key.ty(db, List::Nil),
                    false,
                    false,
                    d.modifiers.visibility,
                ),
            ),
            _ => out,
        }
    }
}

fn add_default_ctor<D: TyDatabase>(
    db: &D,
    s: &Setting,
    tree: &ItemTree,
    data: &ItemData,
    out: List<MethodData>,
) -> (r: List<MethodData>)
    ensures
        r == with_default_ctor(db, *s, *tree, *data, out),
{
    if has_ctor(tree, &data.body()) || s.is_interface || !is_listed(s, s.simple) {
        return out;
    }
    let access = match data {
        ItemData::Class(d) => d.modifiers.visibility,
        ItemData::Enum(d) => d.modifiers.visibility,
        _ => {
            return out;
        },
    };
    let ret = s.key.as_ty(db, List::Nil);
    out.push(build_implicit(s, s.simple, List::Nil, ret, false, false, access))
}

/// Whether one of the members has this name.
pub open spec fn named_among(out: List<MethodData>, name: Name) -> bool
    decreases out,
{
    match out {
        List::Nil => false,
        List::Cons(m, t) => m.name == name || named_among(*t, name),
    }
}

fn is_named_among(out: &List<MethodData>, name: Name) -> (r: bool)
    ensures
        r == named_among(*out, name),
    decreases out,
{
    match out {
        List::Nil => false,
        List::Cons(m, t) => m.name == name || is_named_among(t, name),
    }
}

/// Whether one of the members has this name and these parameters.
pub open spec fn signed_among(out: List<MethodData>, name: Name, params: List<Ty>) -> bool
    decreases out,
{
    match out {
        List::Nil => false,
        List::Cons(m, t) => (m.name == name && m.params == params) || signed_among(
            *t,
            name,
            params,
        ),
    }
}

fn is_signed_among(out: &List<MethodData>, name: Name, params: &List<Ty>) -> (r: bool)
    ensures
        r == signed_among(*out, name, *params),
    decreases out,
{
    match out {
        List::Nil => false,
        List::Cons(m, t) => (m.name == name && m.params.same(params)) || is_signed_among(
            t,
            name,
            params,
        ),
    }
}

/// The members with `values` and `valueOf` of an enum, where no member of that
/// name is declared.
pub open spec fn with_enum_members<D: TyDatabase>(
    db: &D,
    s: Setting,
    out: List<MethodData>,
) -> List<MethodData> {
    let me = s.key.ty(db, List::Nil);
    let values = if !named_among(out, Name::Values) && listed(s, Name::Values) {
        out.with(
            implicit_method(
                s,
                Name::Values,
                List::Nil,
                Ty::Array(Box::new(me)),
                true,
                false,
                Access::Public,
            ),
        )
    } else {
        out
    };
    if !named_among(out, Name::ValueOf) && listed(s, Name::ValueOf) {
        values.with(
            implicit_method(
                s,
                Name::ValueOf,
                List::Cons(Box::new(class_of(Name::String)), Box::new(List::Nil)),
                me,
                true,
                false,
                Access::Public,
            ),
        )
    } else {
        values
    }
}

fn add_enum_members<D: TyDatabase>(db: &D, s: &Setting, out: List<MethodData>) -> (r: List<
    MethodData,
>)
    ensures
        r == with_enum_members(db, *s, out),
{
    let has_values = is_named_among(&out, Name::Values);
    let has_value_of = is_named_among(&out, Name::ValueOf);
    let mut out = out;
    if !has_values && is_listed(s, Name::Values) {
        let ret = Ty::array(s.key.as_ty(db, List::Nil));
        out =
        out.push(build_implicit(s, Name::Values, List::Nil, ret, true, false, Access::Public));
    }
    if !has_value_of && is_listed(s, Name::ValueOf) {
        let params = List::cons(Ty::class(Name::String), List::Nil);
        let ret = s.key.as_ty(db, List::Nil);
        out =
        out.push(build_implicit(s, Name::ValueOf, params, ret, true, false, Access::Public));
    }
    out
}

/// The members with the accessors of the record components, where no method of
/// that name without parameters is there.
pub open spec fn with_accessors<D: TyDatabase>(
    db: &D,
    s: Setting,
    components: List<Param>,
    out: List<MethodData>,
) -> List<MethodData>
    decreases components,
{
    match components {
        List::Nil => out,
        List::Cons(c, t) => {
            let next = if !listed(s, c.name) || signed_among(out, c.name, List::Nil) {
                out
            } else {
                out.with(
                    implicit_method(
                        s,
                        c.name,
                        List::Nil,
                        seen(component_type(db, s, s.class.item, *c), s.raw),
                        false,
                        false,
                        Access::Public,
                    ),
                )
            };
            with_accessors(db, s, *t, next)
        },
    }
}

fn add_accessors<D: TyDatabase>(
    db: &D,
    s: &Setting,
    components: &List<Param>,
    out: List<MethodData>,
) -> (r: List<MethodData>)
    ensures
        r == with_accessors(db, *s, *components, out),
    decreases components,
{
    match components {
        List::Nil => out,
        List::Cons(c, t) => {
            let next = if !is_listed(s, c.name) || is_signed_among(&out, c.name, &List::Nil) {
                out
            } else {
                let ty = see(resolve_component(db, s, s.class.item, c), s.raw);
                out.push(build_implicit(s, c.name, List::Nil, ty, false, false, Access::Public))
            };
            add_accessors(db, s, t, next)
        },
    }
}

/// The members with one that every record has, where none of that signature is
/// there.
pub open spec fn with_record_member(
    s: Setting,
    name: Name,
    params: List<Ty>,
    ret: Ty,
    out: List<MethodData>,
) -> List<MethodData> {
    if !listed(s, name) || signed_among(out, name, params) {
        out
    } else {
        out.with(implicit_method(s, name, params, ret, false, false, Access::Public))
    }
}

fn add_record_member(s: &Setting, name: Name, params: List<Ty>, ret: Ty, out: List<MethodData>) -> (r:
    List<MethodData>)
    ensures
        r == with_record_member(*s, name, params, ret, out),
{
    if !is_listed(s, name) || is_signed_among(&out, name, &params) {
        out
    } else {
        out.push(build_implicit(s, name, params, ret, false, false, Access::Public))
    }
}

/// The members with the canonical constructor of a record, where none of that
/// signature is there.
pub open spec fn with_canonical_ctor<D: TyDatabase>(
    db: &D,
    s: Setting,
    d: RecordItem,
    out: List<MethodData>,
) -> List<MethodData> {
    let tys = seen_all(component_types(db, s, s.class.item, d.components), s.raw);
    if !listed(s, s.simple) || signed_among(out, s.simple, tys) {
        out
    } else {
        out.with(
            implicit_method(
                s,
                s.simple,
                tys,
                Ty::Error,
                false,
                last_varargs(d.components),
                d.modifiers.visibility,
            ),
        )
    }
}

/// The members of a record that are not written.
pub open spec fn with_record_members<D: TyDatabase>(
    db: &D,
    s: Setting,
    d: RecordItem,
    out: List<MethodData>,
) -> List<MethodData> {
    let object = List::Cons(Box::new(class_of(Name::Object)), Box::new(List::Nil));
    let a = with_accessors(db, s, d.components, out);
    let b = with_record_member(
        s,
        Name::Equals,
        object,
        Ty::Primitive(PrimitiveType::Boolean),
        a,
    );
    let c = with_record_member(
        s,
        Name::HashCode,
        List::Nil,
        Ty::Primitive(PrimitiveType::Int),
        b,
    );
    let e = with_record_member(s, Name::ToStringName, List::Nil, class_of(Name::String), c);
    with_canonical_ctor(db, s, d, e)
}

fn add_record_members<D: TyDatabase>(db: &D, s: &Setting, d: &RecordItem, out: List<MethodData>) -> (r:
    List<MethodData>)
    ensures
        r == with_record_members(db, *s, *d, out),
{
    let out = add_accessors(db, s, &d.components, out);
    let out = add_record_member(
        s,
        Name::Equals,
        List::cons(Ty::class(Name::Object), List::Nil),
        Ty::Primitive(PrimitiveType::Boolean),
        out,
    );
    let out = add_record_member(
        s,
        Name::HashCode,
        List::Nil,
        Ty::Primitive(PrimitiveType::Int),
        out,
    );
    let out = add_record_member(
        s,
        Name::ToStringName,
        List::Nil,
        Ty::class(Name::String),
        out,
    );
    let tys = see_all(resolve_components(db, s, s.class.item, &d.components), s.raw);
    if !is_listed(s, s.simple) || is_signed_among(&out, s.simple, &tys) {
        return out;
    }
    let varargs = is_last_varargs(&d.components);
    out.push(
        build_implicit(
            s,
            s.simple,
            tys,
            Ty::Error,
            false,
            varargs,
            d.modifiers.visibility,
        ),
    )
}

/// The methods and constructors of a class: those it declares, then those it
/// has without declaring them.
pub open spec fn class_methods<D: TyDatabase>(
    db: &D,
    s: Setting,
    tree: ItemTree,
    data: ItemData,
) -> List<MethodData> {
    let out = with_default_ctor(
        db,
        s,
        tree,
        data,
        written_methods(db, s, tree, data, data.children()),
    );
    match data {
        ItemData::Enum(_) => with_enum_members(db, s, out),
        ItemData::Record(d) => with_record_members(db, s, d, out),
        _ => out,
    }
}

fn list_methods<D: TyDatabase>(db: &D, s: &Setting, tree: &ItemTree, data: &ItemData) -> (r: List<
    MethodData,
>)
    ensures
        r == class_methods(db, *s, *tree, *data),
{
    let out = build_methods(db, s, tree, data, &data.body());
    let out = add_default_ctor(db, s, tree, data, out);
    match data {
        ItemData::Enum(_) => add_enum_members(db, s, out),
        ItemData::Record(d) => add_record_members(db, s, d, out),
        _ => out,
    }
}

/// The declared types of the substitution.
pub open spec fn bound_types(l: Subst) -> List<Ty>
    decreases l,
{
    match l {
        List::Nil => List::Nil,
        List::Cons(e, t) => List::Cons(Box::new(e.1), Box::new(bound_types(*t))),
    }
}

fn types_bound(l: &Subst) -> (r: List<Ty>)
    ensures
        r == bound_types(*l),
    decreases l,
{
    match l {
        List::Nil => List::Nil,
        List::Cons(e, t) => List::cons(e.1.copy(), types_bound(t)),
    }
}

/// A field as a member.
pub open spec fn field_member(
    s: Setting,
    name: Name,
    item: Option<u32>,
    ty: Ty,
    is_static: bool,
    is_final: bool,
    access: Access,
) -> FieldData {
    FieldData {
        name,
        owner: s.key,
        owner_file: Some(s.class.file),
        decl_item: item,
        ty,
        is_static,
        is_final,
        access,
        declaring_package: Some(s.package),
        declaring_top_level: s.top_level,
        descriptor: None,
    }
}

fn build_field(
    s: &Setting,
    name: Name,
    item: Option<u32>,
    ty: Ty,
    is_static: bool,
    is_final: bool,
    access: Access,
) -> (r: FieldData)
    ensures
        r == field_member(*s, name, item, ty, is_static, is_final, access),
{
    FieldData {
        name,
        owner: s.key,
        owner_file: Some(s.class.file),
        decl_item: item,
        ty,
        is_static,
        is_final,
        access,
        declaring_package: Some(s.package),
        declaring_top_level: s.top_level,
        descriptor: None,
    }
}

/// The fields and enum constants called `s.filter` among the items. A field of
/// an interface is public, static and final, whatever it states.
pub open spec fn written_fields<D: TyDatabase>(
    db: &D,
    s: Setting,
    tree: ItemTree,
    is_enum: bool,
    items: List<u32>,
) -> List<FieldData>
    decreases items,
{
    match items {
        List::Nil => List::Nil,
        List::Cons(i, t) => {
            let rest = written_fields(db, s, tree, is_enum, *t);
            match tree.item(*i) {
                Some(ItemData::Field(f)) => if f.name == s.filter {
                    let is_static = s.is_interface || f.modifiers.is_static;
                    List::Cons(
                        Box::new(
                            field_member(
                                s,
                                s.filter,
                                Some(*i),
                                seen(
                                    db.declared_type(s.class.file, *i).subst_deep(s.binding),
                                    s.raw && !is_static,
                                ),
                                is_static,
                                s.is_interface || f.modifiers.is_final,
                                member_access(s.is_interface, f.modifiers.visibility),
                            ),
                        ),
                        Box::new(rest),
                    )
                } else {
                    rest
                },
                Some(ItemData::EnumConstant { name, body: _ }) => if is_enum && name
                    == s.filter {
                    List::Cons(
                        Box::new(
                            field_member(
                                s,
                                s.filter,
                                Some(*i),
                                s.key.ty(db, bound_types(s.binding)),
                                true,
                                true,
                                Access::Public,
                            ),
                        ),
                        Box::new(rest),
                    )
                } else {
                    rest
                },
                _ => rest,
            }
        },
    }
}

fn build_fields<D: TyDatabase>(
    db: &D,
    s: &Setting,
    tree: &ItemTree,
    is_enum: bool,
    items: &List<u32>,
) -> (r: List<FieldData>)
    ensures
        r == written_fields(db, *s, *tree, is_enum, *items),
    decreases items,
{
    match items {
        List::Nil => List::Nil,
        List::Cons(i, t) => {
            let rest = build_fields(db, s, tree, is_enum, t);
            match tree.get(**i) {
                Some(ItemData::Field(f)) => if f.name == s.filter {
                    let is_static = s.is_interface || f.modifiers.is_static;
                    let ty = db.item_ty(s.class.file, **i).substitute_incl_bounds(&s.binding);
                    let field = build_field(
                        s,
                        s.filter,
                        Some(**i),
                        see(ty, s.raw && !is_static),
                        is_static,
                        s.is_interface || f.modifiers.is_final,
                        interface_access_of(s.is_interface, &f.modifiers),
                    );
                    List::cons(field, rest)
                } else {
                    rest
                },
                Some(ItemData::EnumConstant { name, body: _ }) => if is_enum && *name
                    == s.filter {
                    let ty = s.key.as_ty(db, types_bound(&s.binding));
                    let field = build_field(
                        s,
                        s.filter,
                        Some(**i),
                        ty,
                        true,
                        true,
                        Access::Public,
                    );
                    List::cons(field, rest)
                } else {
                    rest
                },
                _ => rest,
            }
        },
    }
}

/// The private fields of the record components.
pub open spec fn component_fields<D: TyDatabase>(
    db: &D,
    s: Setting,
    components: List<Param>,
) -> List<FieldData>
    decreases components,
{
    match components {
        List::Nil => List::Nil,
        List::Cons(c, t) => {
            let rest = component_fields(db, s, *t);
            if listed(s, c.name) {
                List::Cons(
                    Box::new(
                        field_member(
                            s,
                            c.name,
                            None,
                            seen(component_type(db, s, s.class.item, *c), s.raw),
                            false,
                            true,
                            Access::Private,
                        ),
                    ),
                    Box::new(rest),
                )
            } else {
                rest
            }
        },
    }
}

fn build_component_fields<D: TyDatabase>(db: &D, s: &Setting, components: &List<Param>) -> (r: List<
    FieldData,
>)
    ensures
        r == component_fields(db, *s, *components),
    decreases components,
{
    match components {
        List::Nil => List::Nil,
        List::Cons(c, t) => {
            let rest = build_component_fields(db, s, t);
            if is_listed(s, c.name) {
                let ty = see(resolve_component(db, s, s.class.item, c), s.raw);
                List::cons(build_field(s, c.name, None, ty, false, true, Access::Private), rest)
            } else {
                rest
            }
        },
    }
}

/// The fields of a class with the name that is to be listed.
pub open spec fn class_fields<D: TyDatabase>(
    db: &D,
    s: Setting,
    tree: ItemTree,
    data: ItemData,
) -> List<FieldData> {
    written_fields(db, s, tree, data is Enum, data.children()).plus(
        component_fields(db, s, components_of(data)),
    )
}

fn list_fields<D: TyDatabase>(db: &D, s: &Setting, tree: &ItemTree, data: &ItemData) -> (r: List<
    FieldData,
>)
    ensures
        r == class_fields(db, *s, *tree, *data),
{
    let is_enum = match data {
        ItemData::Enum(_) => true,
        _ => false,
    };
    let out = build_fields(db, s, tree, is_enum, &data.body());
    let fields = match data {
        ItemData::Record(d) => build_component_fields(db, s, &d.components),
        _ => List::Nil,
    };
    out.append(fields)
}

/// Whether a declaration is an interface, annotation interfaces included.
pub open spec fn interface_like(data: ItemData) -> bool {
    data is Interface || data is Annotation
}

/// Whether a table has the simple name of a class and the name of the top-level
/// class it belongs to.
pub open spec fn class_entered<D: TyDatabase>(
    db: &D,
    names: Names,
    tree: ItemTree,
    class: SourceClass,
) -> bool {
    let key = key_of(db, class);
    &&& names.lookup(key.simple(db, names)) is Some
    &&& match key.outermost(db, names, tree.package) {
        Some(text) => names.lookup(text) is Some,
        None => true,
    }
}

/// How a class is seen through these type arguments, over a table that the
/// names of the class were entered into.
pub open spec fn setting_of<D: TyDatabase>(
    db: &D,
    names: Names,
    tree: ItemTree,
    data: ItemData,
    class: SourceClass,
    args: List<Ty>,
    filter: Name,
) -> Setting {
    let key = key_of(db, class);
    Setting {
        class,
        key,
        simple: names.lookup(key.simple(db, names))->Some_0,
        package: match tree.package {
            Some(p) => p,
            None => Name::Empty,
        },
        top_level: match key.outermost(db, names, tree.package) {
            Some(text) => names.lookup(text),
            None => None,
        },
        is_interface: interface_like(data),
        binding: class_binding(class, params_of(data), args),
        raw: args is Nil && !(params_of(data) is Nil),
        filter,
    }
}

/// Whether a table has names for what the members of a class go by.
pub open spec fn setting_named<D: TyDatabase>(
    db: &D,
    names: Names,
    tree: ItemTree,
    class: SourceClass,
) -> bool {
    &&& names.wf()
    &&& key_of(db, class).named_in(db, names)
    &&& known(names, tree.package)
    &&& names.texts@.len() + 2 <= u32::MAX
}

fn make_setting<D: TyDatabase>(
    db: &D,
    names: &mut Names,
    tree: &ItemTree,
    data: &ItemData,
    class: SourceClass,
    args: &List<Ty>,
    filter: Name,
) -> (r: Setting)
    requires
        setting_named(db, *old(names), *tree, class),
    ensures
        final(names).wf(),
        keeps_names(*old(names), *final(names)),
        class_entered(db, *final(names), *tree, class),
        r == setting_of(db, *final(names), *tree, *data, class, *args, filter),
{
    let key = ClassKey::of(db, class.file, class.item);
    let simple_text = key.simple_name(db, names);
    let top_text = key.top_level(db, names, tree.package);
    let simple = names.intern(simple_text.as_str());
    let ghost mid = *names;
    let top_level = match &top_text {
        Some(text) => Some(names.intern(text.as_str())),
        None => None,
    };
    proof {
        let before = *old(names);
        match key {
            ClassKey::Named(fqn) => {
                assert(before.knows(fqn));
                assert(mid.knows(fqn));
            },
            ClassKey::Local(c) => {
                assert(before.knows(db.declared_name(c)));
                assert(mid.knows(db.declared_name(c)));
                if let Some(n) = crate::class_key::last_of(db.enclosing_types(c)) {
                    assert(before.knows(n));
                    assert(mid.knows(n));
                }
            },
        }
        if let Some(p) = tree.package {
            assert(before.knows(p));
            assert(mid.knows(p));
        }
        assert(mid.knows(simple));
        assert(names.knows(simple));
        lemma_lookup_known(*names, simple);
        if let Some(n) = top_level {
            lemma_lookup_known(*names, n);
        }
        assert(keeps_names(before, *names)) by {
            assert forall|n: Name| #[trigger] before.knows(n) implies names.knows(n)
                && names.text(n) == before.text(n) by {
                assert(mid.knows(n));
            }
        }
    }
    let params = match data {
        ItemData::Class(d) => &d.type_params,
        ItemData::Interface(d) => &d.type_params,
        ItemData::Record(d) => &d.type_params,
        _ => &List::Nil,
    };
    Setting {
        class,
        key,
        simple,
        package: match tree.package {
            Some(p) => p,
            None => Name::Empty,
        },
        top_level,
        is_interface: match data {
            ItemData::Interface(_) => true,
            ItemData::Annotation(_) => true,
            _ => false,
        },
        binding: bind_class_params(class, params, args),
        raw: args.is_empty() && !params.is_empty(),
        filter,
    }
}

/// The methods of a source class seen through the type arguments `args`, those
/// called `name` or, for the empty name, all of them. The names of the class
/// are entered into the table.
pub fn source_class_methods<D: TyDatabase>(
    db: &D,
    names: &mut Names,
    tree: &ItemTree,
    source: SourceClass,
    args: &List<Ty>,
    name: Name,
) -> (r: List<MethodData>)
    requires
        setting_named(db, *old(names), *tree, source),
    ensures
        final(names).wf(),
        keeps_names(*old(names), *final(names)),
        tree.item(source.item) is Some ==> class_entered(db, *final(names), *tree, source),
        r == match tree.item(source.item) {
            None => List::<MethodData>::Nil,
            Some(data) => class_methods(
                db,
                setting_of(db, *final(names), *tree, data, source, *args, name),
                *tree,
                data,
            ),
        },
{
    match tree.get(source.item) {
        None => List::Nil,
        Some(data) => {
            let s = make_setting(db, names, tree, data, source, args, name);
            list_methods(db, &s, tree, data)
        },
    }
}

/// The fields of a source class called `name`, seen through the type arguments
/// `args`. The names of the class are entered into the table.
pub fn source_class_fields<D: TyDatabase>(
    db: &D,
    names: &mut Names,
    tree: &ItemTree,
    source: SourceClass,
    args: &List<Ty>,
    name: Name,
) -> (r: List<FieldData>)
    requires
        setting_named(db, *old(names), *tree, source),
    ensures
        final(names).wf(),
        keeps_names(*old(names), *final(names)),
        tree.item(source.item) is Some ==> class_entered(db, *final(names), *tree, source),
        r == match tree.item(source.item) {
            None => List::<FieldData>::Nil,
            Some(data) => class_fields(
                db,
                setting_of(db, *final(names), *tree, data, source, *args, name),
                *tree,
                data,
            ),
        },
{
    match tree.get(source.item) {
        None => List::Nil,
        Some(data) => {
            let s = make_setting(db, names, tree, data, source, args, name);
            list_fields(db, &s, tree, data)
        },
    }
}

/// The abstract ones of the methods.
pub open spec fn abstract_ones(l: List<MethodData>) -> List<MethodData>
    decreases l,
{
    match l {
        List::Nil => List::Nil,
        List::Cons(m, t) => if m.is_abstract {
            List::Cons(m, Box::new(abstract_ones(*t)))
        } else {
            abstract_ones(*t)
        },
    }
}

fn keep_abstract_ones(l: List<MethodData>) -> (r: List<MethodData>)
    ensures
        r == abstract_ones(l),
    decreases l,
{
    match l {
        List::Nil => List::Nil,
        List::Cons(m, t) => {
            let rest = keep_abstract_ones(*t);
            if m.is_abstract {
                List::Cons(m, Box::new(rest))
            } else {
                rest
            }
        },
    }
}

/// The methods that a source interface declares as abstract, seen through the
/// type arguments `args`. Its other methods have a body or are static, and a
/// class declares none of these. The names of the interface are entered into
/// the table.
pub fn source_abstract_methods<D: TyDatabase>(
    db: &D,
    names: &mut Names,
    tree: &ItemTree,
    source: SourceClass,
    args: &List<Ty>,
) -> (r: List<MethodData>)
    requires
        setting_named(db, *old(names), *tree, source),
    ensures
        final(names).wf(),
        keeps_names(*old(names), *final(names)),
        tree.item(source.item) matches Some(ItemData::Interface(_)) ==> class_entered(
            db,
            *final(names),
            *tree,
            source,
        ),
        r == match tree.item(source.item) {
            Some(ItemData::Interface(d)) => abstract_ones(
                written_methods(
                    db,
                    setting_of(
                        db,
                        *final(names),
                        *tree,
                        ItemData::Interface(d),
                        source,
                        *args,
                        Name::Empty,
                    ),
                    *tree,
                    ItemData::Interface(d),
                    d.body,
                ),
            ),
            _ => List::<MethodData>::Nil,
        },
{
    match tree.get(source.item) {
        Some(data) => match data {
            ItemData::Interface(d) => {
                let s = make_setting(db, names, tree, data, source, args, Name::Empty);
                keep_abstract_ones(build_methods(db, &s, tree, data, &d.body))
            },
            _ => List::Nil,
        },
        None => List::Nil,
    }
}

proof fn lemma_named_with(out: List<MethodData>, m: MethodData, name: Name)
    ensures
        named_among(out.with(m), name) == (named_among(out, name) || m.name == name),
    decreases out,
{
    reveal_with_fuel(named_among, 2);
    if let List::Cons(_, t) = out {
        lemma_named_with(*t, m, name);
    }
}

proof fn lemma_signed_is_named(out: List<MethodData>, name: Name, params: List<Ty>)
    ensures
        signed_among(out, name, params) ==> named_among(out, name),
    decreases out,
{
    if let List::Cons(_, t) = out {
        lemma_signed_is_named(*t, name, params);
    }
}

proof fn lemma_accessors_keep<D: TyDatabase>(
    db: &D,
    s: Setting,
    components: List<Param>,
    out: List<MethodData>,
    m: MethodData,
)
    requires
        out.has(m),
    ensures
        with_accessors(db, s, components, out).has(m),
    decreases components,
{
    if let List::Cons(c, t) = components {
        let accessor = implicit_method(
            s,
            c.name,
            List::Nil,
            seen(component_type(db, s, s.class.item, *c), s.raw),
            false,
            false,
            Access::Public,
        );
        lemma_with_has(out, accessor, m);
        if !listed(s, c.name) || signed_among(out, c.name, List::Nil) {
            lemma_accessors_keep(db, s, *t, out, m);
        } else {
            lemma_accessors_keep(db, s, *t, out.with(accessor), m);
        }
    }
}

proof fn lemma_record_member_keeps(
    s: Setting,
    name: Name,
    params: List<Ty>,
    ret: Ty,
    out: List<MethodData>,
    m: MethodData,
)
    requires
        out.has(m),
    ensures
        with_record_member(s, name, params, ret, out).has(m),
{
    lemma_with_has(
        out,
        implicit_method(s, name, params, ret, false, false, Access::Public),
        m,
    );
}

/// What a class declares is among its members: a member that it has without
/// declaring it never takes the place of a declared one.
pub proof fn law_declared_members_stay<D: TyDatabase>(
    db: &D,
    s: Setting,
    tree: ItemTree,
    data: ItemData,
    m: MethodData,
)
    requires
        written_methods(db, s, tree, data, data.children()).has(m),
    ensures
        class_methods(db, s, tree, data).has(m),
{
    let me = s.key.ty(db, List::Nil);
    let written = written_methods(db, s, tree, data, data.children());
    let out = with_default_ctor(db, s, tree, data, written);
    let ctor = |access: Access|
        implicit_method(s, s.simple, List::Nil, me, false, false, access);
    assert(out.has(m)) by {
        match data {
            ItemData::Class(d) => {
                lemma_with_has(written, ctor(d.modifiers.visibility), m);
            },
            ItemData::Enum(d) => {
                lemma_with_has(written, ctor(d.modifiers.visibility), m);
            },
            _ => {},
        }
    }
    match data {
        ItemData::Enum(_) => {
            let values = implicit_method(
                s,
                Name::Values,
                List::Nil,
                Ty::Array(Box::new(me)),
                true,
                false,
                Access::Public,
            );
            let value_of = implicit_method(
                s,
                Name::ValueOf,
                List::Cons(Box::new(class_of(Name::String)), Box::new(List::Nil)),
                me,
                true,
                false,
                Access::Public,
            );
            lemma_with_has(out, values, m);
            lemma_with_has(out, value_of, m);
            lemma_with_has(out.with(values), value_of, m);
        },
        ItemData::Record(d) => {
            let object = List::Cons(Box::new(class_of(Name::Object)), Box::new(List::Nil));
            let boolean = Ty::Primitive(PrimitiveType::Boolean);
            let int_ty = Ty::Primitive(PrimitiveType::Int);
            let text = class_of(Name::String);
            let a = with_accessors(db, s, d.components, out);
            let b = with_record_member(s, Name::Equals, object, boolean, a);
            let c = with_record_member(s, Name::HashCode, List::Nil, int_ty, b);
            let e = with_record_member(s, Name::ToStringName, List::Nil, text, c);
            lemma_accessors_keep(db, s, d.components, out, m);
            lemma_record_member_keeps(s, Name::Equals, object, boolean, a, m);
            lemma_record_member_keeps(s, Name::HashCode, List::Nil, int_ty, b, m);
            lemma_record_member_keeps(s, Name::ToStringName, List::Nil, text, c, m);
            let canonical = implicit_method(
                s,
                s.simple,
                seen_all(component_types(db, s, s.class.item, d.components), s.raw),
                Ty::Error,
                false,
                last_varargs(d.components),
                d.modifiers.visibility,
            );
            lemma_with_has(e, canonical, m);
        },
        _ => {},
    }
}

proof fn lemma_signed(out: List<MethodData>, m: MethodData)
    requires
        out.has(m),
    ensures
        signed_among(out, m.name, m.params),
    decreases out,
{
    if let List::Cons(h, t) = out {
        if *h != m {
            lemma_signed(*t, m);
        }
    }
}

/// A canonical constructor that is there is the only one: no other is added to
/// it, be the record seen as it is declared or raw.
pub proof fn law_canonical_constructor_once<D: TyDatabase>(
    db: &D,
    s: Setting,
    d: RecordItem,
    out: List<MethodData>,
    m: MethodData,
)
    requires
        out.has(m),
        m.name == s.simple,
        m.params == seen_all(component_types(db, s, s.class.item, d.components), s.raw),
    ensures
        with_canonical_ctor(db, s, d, out) == out,
{
    lemma_signed(out, m);
}

/// A record has a constructor, declared or not; so has a class that declares
/// none.
pub proof fn law_constructors_exist<D: TyDatabase>(
    db: &D,
    s: Setting,
    tree: ItemTree,
    data: ItemData,
)
    requires
        listed(s, s.simple),
        data is Record || (data is Class && !s.is_interface && !declares_ctor(
            tree,
            data.children(),
        )),
    ensures
        named_among(class_methods(db, s, tree, data), s.simple),
{
    let written = written_methods(db, s, tree, data, data.children());
    match data {
        ItemData::Record(d) => {
            let out = with_default_ctor(db, s, tree, data, written);
            let object = List::Cons(Box::new(class_of(Name::Object)), Box::new(List::Nil));
            let a = with_accessors(db, s, d.components, out);
            let b = with_record_member(
                s,
                Name::Equals,
                object,
                Ty::Primitive(PrimitiveType::Boolean),
                a,
            );
            let c = with_record_member(
                s,
                Name::HashCode,
                List::Nil,
                Ty::Primitive(PrimitiveType::Int),
                b,
            );
            let e = with_record_member(
                s,
                Name::ToStringName,
                List::Nil,
                class_of(Name::String),
                c,
            );
            let tys = seen_all(component_types(db, s, s.class.item, d.components), s.raw);
            lemma_signed_is_named(e, s.simple, tys);
            lemma_named_with(
                e,
                implicit_method(
                    s,
                    s.simple,
                    tys,
                    Ty::Error,
                    false,
                    last_varargs(d.components),
                    d.modifiers.visibility,
                ),
                s.simple,
            );
        },
        ItemData::Class(d) => {
            lemma_named_with(
                written,
                implicit_method(
                    s,
                    s.simple,
                    List::Nil,
                    s.key.ty(db, List::Nil),
                    false,
                    false,
                    d.modifiers.visibility,
                ),
                s.simple,
            );
        },
        _ => {},
    }
}

} // verus!
