//! Which members an invocation or access may use.
use crate::class_key::{
    all_found, enclosing_class_keys, enclosing_keys, known, last_of, law_enclosing_keys_stay,
    texts_around,
};
use crate::db::{ClassInfo, TyDatabase};
use crate::items::{ItemTree, Modifiers, TypeShape};
use crate::list::{Data, List};
use crate::member::{Access, ClassKey, InvocationContext, InvocationMode, MethodData};
use crate::names::{keeps_names, Name, Names};
use crate::text::{inside, within_top_level};
use crate::ty::{SourceClass, Ty};
use vstd::prelude::*;

verus! {

/// The access a declaration states.
pub fn access_of(modifiers: &Modifiers) -> (r: Access)
    ensures
        r == modifiers.visibility,
{
    modifiers.visibility
}

/// The access of a member: in an interface, one that states none is public.
pub open spec fn member_access(declaring_interface: bool, stated: Access) -> Access {
    if stated is Package && declaring_interface {
        Access::Public
    } else {
        stated
    }
}

/// The access of a member of a class or interface.
pub fn interface_access_of(declaring_interface: bool, modifiers: &Modifiers) -> (r: Access)
    ensures
        r == member_access(declaring_interface, modifiers.visibility),
{
    match access_of(modifiers) {
        Access::Package => if declaring_interface {
            Access::Public
        } else {
            Access::Package
        },
        other => other,
    }
}

/// The keyword of an access, or a description where it has none.
pub open spec fn access_text(access: Access) -> Seq<char> {
    match access {
        Access::Private => "private"@,
        Access::Protected => "protected"@,
        Access::Package => "package-private"@,
        Access::Public => "public"@,
    }
}

/// The keyword of an access, or a description where it has none.
pub fn access_keyword(access: Access) -> (r: &'static str)
    ensures
        r@ == access_text(access),
{
    match access {
        Access::Private => "private",
        Access::Protected => "protected",
        Access::Package => "package-private",
        Access::Public => "public",
    }
}

/// Whether a method may be chosen in an invocation of this form. A static
/// method of an interface is not reached through an instance, and only the
/// static and the type-qualified forms need no instance.
pub open spec fn allowed(method: MethodData, mode: InvocationMode) -> bool {
    match mode {
        InvocationMode::Static => method.is_static,
        InvocationMode::TypeQualified => true,
        InvocationMode::Super => !method.is_static,
        InvocationMode::Interface => !method.is_static,
        InvocationMode::MethodName => true,
        InvocationMode::Virtual => !(method.is_static && method.declaring_interface),
    }
}

/// Whether a method is allowed by the form of the invocation.
pub fn mode_allows(method: &MethodData, ctx: &InvocationContext) -> (r: bool)
    ensures
        r == allowed(*method, ctx.mode),
{
    match ctx.mode {
        InvocationMode::Static => method.is_static,
        InvocationMode::TypeQualified => true,
        InvocationMode::Super => !method.is_static,
        InvocationMode::Interface => !method.is_static,
        InvocationMode::MethodName => true,
        InvocationMode::Virtual => !(method.is_static && method.declaring_interface),
    }
}

/// The first of the classes that is a subclass of `declaring`.
pub open spec fn first_subclass<D: TyDatabase>(
    db: &D,
    keys: List<ClassKey>,
    declaring: Ty,
) -> Option<ClassKey>
    decreases keys,
{
    match keys {
        List::Nil => None,
        List::Cons(k, t) => if db.subtype(k.ty(db, List::Nil), declaring) {
            Some(*k)
        } else {
            first_subclass(db, *t, declaring)
        },
    }
}

fn find_subclass<D: TyDatabase>(db: &D, keys: &List<ClassKey>, declaring: &Ty) -> (r: Option<
    ClassKey,
>)
    ensures
        r == first_subclass(db, *keys, *declaring),
    decreases keys,
{
    match keys {
        List::Nil => None,
        List::Cons(k, t) => {
            let ty = k.as_ty(db, List::Nil);
            if db.is_subtype(&ty, declaring) {
                Some(**k)
            } else {
                find_subclass(db, t, declaring)
            }
        },
    }
}

/// A member as access control sees it.
#[derive(Clone, Copy, Debug, PartialEq, Eq)]
pub struct AccessTarget {
    pub access: Access,
    pub declaring_package: Option<Name>,
    pub owner: ClassKey,
    pub declaring_top_level: Option<Name>,
    pub is_static: bool,
}

/// Whether the invocation and the declaration are in the same package.
pub open spec fn same_package(ctx: InvocationContext, declaring: Option<Name>) -> bool {
    ctx.package is Some && declaring is Some && ctx.package == declaring
}

/// Whether a private member of the top-level class `declaring` is accessible:
/// the access appears inside that class.
pub open spec fn private_accessible<D: TyDatabase>(
    db: &D,
    names: Names,
    ctx: InvocationContext,
    declaring: Option<Name>,
) -> bool {
    match (ctx.enclosing_class, declaring) {
        (Some(enclosing), Some(declaring)) => match enclosing.outermost(db, names, ctx.package) {
            Some(top) => inside(top, names.text(declaring)),
            None => false,
        },
        _ => false,
    }
}

/// Whether a protected member is accessible: in its package, in an anonymous
/// body that extends a subclass of its class, or inside a subclass through a
/// receiver of that subclass.
pub open spec fn protected_accessible<D: TyDatabase>(
    db: &D,
    names: Names,
    m: AccessTarget,
    receiver: Ty,
    ctx: InvocationContext,
) -> bool {
    let declaring = m.owner.ty(db, List::Nil);
    same_package(ctx, m.declaring_package) || (match ctx.subclass_of {
        Some(k) => db.subtype(k.ty(db, List::Nil), declaring),
        None => false,
    }) || (match ctx.enclosing_class {
        None => false,
        Some(enclosing) => match first_subclass(
            db,
            enclosing_keys(db, names, ctx.package, enclosing),
            declaring,
        ) {
            None => false,
            Some(subclass) => m.is_static || ctx.mode is Super || db.subtype(
                receiver,
                subclass.ty(db, List::Nil),
            ),
        },
    })
}

/// Whether a member is accessible where the access appears.
pub open spec fn accessible<D: TyDatabase>(
    db: &D,
    names: Names,
    m: AccessTarget,
    receiver: Ty,
    ctx: InvocationContext,
) -> bool {
    match m.access {
        Access::Public => true,
        Access::Private => private_accessible(db, names, ctx, m.declaring_top_level),
        Access::Package => same_package(ctx, m.declaring_package),
        Access::Protected => protected_accessible(db, names, m, receiver, ctx),
    }
}

/// The names of the classes around the class an access appears in.
pub open spec fn around_access(names: Names, ctx: InvocationContext) -> Seq<Seq<char>> {
    match ctx.enclosing_class {
        Some(k) => texts_around(names, ctx.package, k),
        None => Seq::empty(),
    }
}

/// Whether the table knows the names that access control compares, and has room
/// for those of the classes around the access.
pub open spec fn access_names_known<D: TyDatabase>(
    db: &D,
    names: Names,
    m: AccessTarget,
    ctx: InvocationContext,
) -> bool {
    &&& known(names, m.declaring_top_level)
    &&& known(names, ctx.package)
    &&& match ctx.enclosing_class {
        Some(k) => k.named_in(db, names),
        None => true,
    }
    &&& names.wf()
    &&& names.texts@.len() + around_access(names, ctx).len() <= u32::MAX
}

fn is_same_package(ctx: &InvocationContext, declaring: Option<Name>) -> (r: bool)
    ensures
        r == same_package(*ctx, declaring),
{
    match (ctx.package, declaring) {
        (Some(a), Some(b)) => a == b,
        _ => false,
    }
}

/// Whether a member is accessible to the class in which the access appears,
/// when accessed through a receiver of type `receiver`. For a protected member
/// the names of the classes around the access are entered into the table.
pub fn member_accessible<D: TyDatabase>(
    db: &D,
    names: &mut Names,
    m: &AccessTarget,
    receiver: &Ty,
    ctx: &InvocationContext,
) -> (r: bool)
    requires
        access_names_known(db, *old(names), *m, *ctx),
    ensures
        final(names).wf(),
        keeps_names(*old(names), *final(names)),
        m.access is Protected ==> all_found(*final(names), around_access(*final(names), *ctx)),
        r == accessible(db, *final(names), *m, *receiver, *ctx),
{
    match m.access {
        Access::Public => true,
        Access::Private => match (&ctx.enclosing_class, m.declaring_top_level) {
            (Some(enclosing), Some(declaring)) => {
                match enclosing.top_level(db, names, ctx.package) {
                    Some(top) => within_top_level(top.as_str(), names.as_str(declaring)),
                    None => false,
                }
            },
            _ => false,
        },
        Access::Package => is_same_package(ctx, m.declaring_package),
        Access::Protected => {
            let keys = match &ctx.enclosing_class {
                None => List::Nil,
                Some(enclosing) => enclosing_class_keys(db, names, ctx.package, enclosing),
            };
            if is_same_package(ctx, m.declaring_package) {
                return true;
            }
            let declaring = m.owner.as_ty(db, List::Nil);
            if let Some(k) = &ctx.subclass_of {
                let subclass_of = k.as_ty(db, List::Nil);
                if db.is_subtype(&subclass_of, &declaring) {
                    return true;
                }
            }
            match find_subclass(db, &keys, &declaring) {
                None => false,
                Some(subclass) => {
                    if m.is_static || ctx.mode == InvocationMode::Super {
                        return true;
                    }
                    let subclass = subclass.as_ty(db, List::Nil);
                    db.is_subtype(receiver, &subclass)
                },
            }
        },
    }
}

/// A method as access control sees it.
pub open spec fn method_target(method: MethodData) -> AccessTarget {
    AccessTarget {
        access: method.access,
        declaring_package: method.declaring_package,
        owner: method.owner,
        declaring_top_level: method.declaring_top_level,
        is_static: method.is_static,
    }
}

/// Whether a method is accessible where the invocation appears, through a
/// receiver of type `receiver`. For a protected method the names of the classes
/// around the invocation are entered into the table.
pub fn is_accessible<D: TyDatabase>(
    db: &D,
    names: &mut Names,
    method: &MethodData,
    receiver: &Ty,
    ctx: &InvocationContext,
) -> (r: bool)
    requires
        access_names_known(db, *old(names), method_target(*method), *ctx),
    ensures
        final(names).wf(),
        keeps_names(*old(names), *final(names)),
        method.access is Protected ==> all_found(
            *final(names),
            around_access(*final(names), *ctx),
        ),
        r == accessible(db, *final(names), method_target(*method), *receiver, *ctx),
{
    let target = AccessTarget {
        access: method.access,
        declaring_package: method.declaring_package,
        owner: method.owner,
        declaring_top_level: method.declaring_top_level,
        is_static: method.is_static,
    };
    member_accessible(db, names, &target, receiver, ctx)
}

/// Whether a class declares type parameters; none where it is not known.
pub open spec fn declares_params(info: Option<ClassInfo>) -> Option<bool> {
    match info {
        Some(ClassInfo::Library { arity }) => match arity {
            Some(n) => Some(n > 0),
            None => None,
        },
        Some(ClassInfo::Facade) => Some(false),
        Some(ClassInfo::Source { class: _, type_params }) => Some(type_params > 0),
        Some(ClassInfo::SourceEnum { class: _ }) => Some(false),
        Some(ClassInfo::SourceOther { class: _ }) => Some(false),
        None => None,
    }
}

/// Whether the class a type names declares type parameters of its own; none
/// where the class is not found, or not enough is known of it.
pub fn class_declares_type_params<D: TyDatabase>(db: &D, ty: &Ty) -> (r: Option<bool>)
    ensures
        r == match *ty {
            Ty::Reference { name, args: _, local: _ } => declares_params(db.class_info(name)),
            _ => None::<bool>,
        },
{
    match ty {
        Ty::Reference { name, args: _, local: _ } => match db.resolve_class(*name) {
            Some(ClassInfo::Library { arity }) => match arity {
                Some(n) => Some(n > 0),
                None => None,
            },
            Some(ClassInfo::Facade) => Some(false),
            Some(ClassInfo::Source { class: _, type_params }) => Some(type_params > 0),
            Some(ClassInfo::SourceEnum { class: _ }) => Some(false),
            Some(ClassInfo::SourceOther { class: _ }) => Some(false),
            None => None,
        },
        _ => None,
    }
}

/// Whether a written type is the class `name`, or has it among its type
/// arguments at any depth.
pub open spec fn mentions(shape: TypeShape, name: Name) -> bool
    decreases shape,
{
    match shape {
        TypeShape::Named { name: n, args } => n == name || some_mentions(*args, name),
        _ => false,
    }
}

/// Whether one of the written types mentions the class.
pub open spec fn some_mentions(l: List<TypeShape>, name: Name) -> bool
    decreases l,
{
    match l {
        List::Nil => false,
        List::Cons(h, t) => mentions(*h, name) || some_mentions(*t, name),
    }
}

fn mention(shape: &TypeShape, name: Name) -> (r: bool)
    ensures
        r == mentions(*shape, name),
    decreases shape,
{
    match shape {
        TypeShape::Named { name: n, args } => *n == name || any_mention(args, name),
        _ => false,
    }
}

fn any_mention(l: &List<TypeShape>, name: Name) -> (r: bool)
    ensures
        r == some_mentions(*l, name),
    decreases l,
{
    match l {
        List::Nil => false,
        List::Cons(h, t) => mention(h, name) || any_mention(t, name),
    }
}

/// The positions, counted from `from`, of the type parameters whose bounds
/// mention the class.
pub open spec fn self_positions(params: List<List<TypeShape>>, name: Name, from: u64) -> List<u64>
    decreases params,
{
    match params {
        List::Nil => List::Nil,
        List::Cons(bounds, t) => {
            let rest = self_positions(*t, name, (from + 1) as u64);
            if some_mentions(*bounds, name) {
                List::Cons(Box::new(from), Box::new(rest))
            } else {
                rest
            }
        },
    }
}

fn find_self_positions(params: &List<List<TypeShape>>, name: Name, from: u64) -> (r: List<u64>)
    requires
        from + params.count() <= u64::MAX,
    ensures
        r == self_positions(*params, name, from),
    decreases params,
{
    match params {
        List::Nil => List::Nil,
        List::Cons(bounds, t) => {
            let rest = find_self_positions(t, name, from + 1);
            if any_mention(bounds, name) {
                List::cons(from, rest)
            } else {
                rest
            }
        },
    }
}

/// The positions of the type parameters of a class whose bounds mention the
/// class itself. Only compiled classes have any; none where the class is not
/// found or its signature is not known.
pub fn self_type_param_indexes<D: TyDatabase>(db: &D, fqn: Name) -> (r: Option<List<u64>>)
    requires
        match db.library_bounds(fqn) {
            Some(params) => params.count() <= u64::MAX,
            None => true,
        },
    ensures
        r == match db.class_info(fqn) {
            None => None::<List<u64>>,
            Some(ClassInfo::Library { arity: _ }) => match db.library_bounds(fqn) {
                Some(params) => Some(self_positions(params, fqn, 0)),
                None => None,
            },
            Some(_) => Some(List::Nil),
        },
{
    match db.resolve_class(fqn) {
        None => None,
        Some(ClassInfo::Library { arity: _ }) => match db.library_type_param_bounds(fqn) {
            Some(params) => Some(find_self_positions(&params, fqn, 0)),
            None => None,
        },
        Some(_) => Some(List::Nil),
    }
}

/// Where an access inside the declaration `item` appears: the innermost class
/// around it, and the package of the file. An invocation through an instance
/// is taken for granted.
pub open spec fn context_of<D: TyDatabase>(
    db: &D,
    tree: ItemTree,
    file: u32,
    item: u32,
) -> InvocationContext {
    InvocationContext {
        enclosing_class: match tree.type_around(item) {
            Some(class) => Some(crate::class_key::key_of(db, SourceClass { file, item: class })),
            None => None,
        },
        package: Some(
            match tree.package {
                Some(p) => p,
                None => Name::Empty,
            },
        ),
        subclass_of: None,
        mode: InvocationMode::Virtual,
    }
}

/// The access-control context of a place inside the declaration `item`.
pub fn access_context<D: TyDatabase>(db: &D, tree: &ItemTree, file: u32, item: u32) -> (r:
    InvocationContext)
    requires
        tree.wf(),
        tree.items@.len() <= u32::MAX,
    ensures
        r == context_of(db, *tree, file, item),
{
    InvocationContext {
        enclosing_class: match tree.enclosing_type(item) {
            Some(class) => Some(ClassKey::of(db, file, class)),
            None => None,
        },
        package: Some(
            match tree.package {
                Some(p) => p,
                None => Name::Empty,
            },
        ),
        subclass_of: None,
        mode: InvocationMode::Virtual,
    }
}

/// In the package and the top-level class of its declaration a member is
/// accessible, whatever access it has.
pub proof fn law_access_in_own_class<D: TyDatabase>(
    db: &D,
    names: Names,
    m: AccessTarget,
    receiver: Ty,
    ctx: InvocationContext,
)
    requires
        same_package(ctx, m.declaring_package),
        private_accessible(db, names, ctx, m.declaring_top_level),
    ensures
        accessible(db, names, m, receiver, ctx),
{
}

/// A member that is accessible with package access stays so when it is made
/// protected or public.
pub proof fn law_wider_access<D: TyDatabase>(
    db: &D,
    names: Names,
    m: AccessTarget,
    receiver: Ty,
    ctx: InvocationContext,
)
    requires
        accessible(db, names, (AccessTarget { access: Access::Package, ..m }), receiver, ctx),
    ensures
        accessible(db, names, (AccessTarget { access: Access::Protected, ..m }), receiver, ctx),
        accessible(db, names, (AccessTarget { access: Access::Public, ..m }), receiver, ctx),
{
}

/// What is accessible stays so when the table grows: once the names of the
/// classes around the access were entered, further names change nothing.
pub proof fn law_access_stays<D: TyDatabase>(
    db: &D,
    before: Names,
    after: Names,
    m: AccessTarget,
    receiver: Ty,
    ctx: InvocationContext,
)
    requires
        after.wf(),
        keeps_names(before, after),
        access_names_known(db, before, m, ctx),
        all_found(before, around_access(before, ctx)),
    ensures
        accessible(db, after, m, receiver, ctx) == accessible(db, before, m, receiver, ctx),
{
    if let Some(top) = m.declaring_top_level {
        assert(before.knows(top));
    }
    if let Some(p) = ctx.package {
        assert(before.knows(p));
    }
    if let Some(k) = ctx.enclosing_class {
        law_enclosing_keys_stay(db, before, after, ctx.package, k);
        match k {
            ClassKey::Named(fqn) => {
                assert(before.knows(fqn));
            },
            ClassKey::Local(class) => {
                if let Some(n) = last_of(db.enclosing_types(class)) {
                    assert(before.knows(n));
                }
            },
        }
    }
}

/// A public member is accessible everywhere. One without stated access is
/// accessible exactly where the package of the access is known and the same.
pub proof fn law_public_and_package_access<D: TyDatabase>(
    db: &D,
    names: Names,
    m: AccessTarget,
    receiver: Ty,
    ctx: InvocationContext,
    package: Name,
)
    requires
        m.declaring_package == Some(package),
    ensures
        m.access is Public ==> accessible(db, names, m, receiver, ctx),
        m.access is Package ==> accessible(db, names, m, receiver, ctx) == (ctx.package == Some(
            package,
        )),
        m.access is Protected && ctx.package == Some(package) ==> accessible(
            db,
            names,
            m,
            receiver,
            ctx,
        ),
{
}

/// A private member is accessible from a local class exactly where the outermost
/// class around it is the top-level class of the member or lies inside it, and
/// nowhere outside a class.
pub proof fn law_private_access<D: TyDatabase>(
    db: &D,
    names: Names,
    m: AccessTarget,
    receiver: Ty,
    ctx: InvocationContext,
    class: SourceClass,
    outermost: Name,
    top: Name,
)
    requires
        m.access is Private,
        m.declaring_top_level == Some(top),
        last_of(db.enclosing_types(class)) == Some(outermost),
    ensures
        ctx.enclosing_class is None ==> !accessible(db, names, m, receiver, ctx),
        ctx.enclosing_class == Some(ClassKey::Local(class)) ==> accessible(
            db,
            names,
            m,
            receiver,
            ctx,
        ) == inside(names.text(outermost), names.text(top)),
{
}

/// Outside its package, and outside a body that extends a subclass, a protected
/// member is accessible in a class that is a subclass of its class: a static one
/// and one that is reached by `super` always, another exactly through a receiver
/// of that class. It is accessible in no class that neither is a subclass nor
/// lies in one.
pub proof fn law_protected_access<D: TyDatabase>(
    db: &D,
    names: Names,
    m: AccessTarget,
    receiver: Ty,
    ctx: InvocationContext,
    class: ClassKey,
)
    requires
        m.access is Protected,
        ctx.package != m.declaring_package,
        ctx.subclass_of is None,
        ctx.enclosing_class == Some(class),
    ensures
        db.subtype(class.ty(db, List::Nil), m.owner.ty(db, List::Nil)) ==> accessible(
            db,
            names,
            m,
            receiver,
            ctx,
        ) == (m.is_static || ctx.mode is Super || db.subtype(receiver, class.ty(db, List::Nil))),
        (forall|k: ClassKey| #[trigger]
            enclosing_keys(db, names, ctx.package, class).has(k) ==> !db.subtype(
                k.ty(db, List::Nil),
                m.owner.ty(db, List::Nil),
            )) ==> !accessible(db, names, m, receiver, ctx),
{
    let keys = enclosing_keys(db, names, ctx.package, class);
    lemma_no_subclass(db, keys, m.owner.ty(db, List::Nil));
}

proof fn lemma_no_subclass<D: TyDatabase>(db: &D, keys: List<ClassKey>, declaring: Ty)
    ensures
        (forall|k: ClassKey| #[trigger]
            keys.has(k) ==> !db.subtype(k.ty(db, List::Nil), declaring)) ==> first_subclass(
            db,
            keys,
            declaring,
        ) is None,
    decreases keys,
{
    if let List::Cons(k, t) = keys {
        assert(keys.has(*k));
        assert(forall|x: ClassKey| #[trigger] t.has(x) ==> keys.has(x));
        lemma_no_subclass(db, *t, declaring);
    }
}

/// A static method is chosen by every form of invocation but those by `super`
/// and of an interface, and through an instance only where a class declares it.
/// Any other method is chosen by every form but the static one.
pub proof fn law_forms_of_invocation(m: MethodData, mode: InvocationMode)
    ensures
        !m.is_static ==> allowed(m, mode) == !(mode is Static),
        m.is_static ==> allowed(m, mode) == (mode is Static || mode is TypeQualified
            || mode is MethodName || (mode is Virtual && !m.declaring_interface)),
{
}

} // verus!
