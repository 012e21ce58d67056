use hir_ty::access::{class_declares_type_params, self_type_param_indexes};
use hir_ty::body::{
    AssignOp, BinaryOp, CtorCallTarget, Expr, ExprKind, LambdaBody, LambdaParam, Literal, Stmt,
    StmtKind, UnaryOp,
};
use hir_ty::db::ClassInfo;
use hir_ty::facts::Facts;
use hir_ty::infer::context::{
    enclosing_self_ty, forward_field_names, prior_initializer_writes, static_context_of,
};
use hir_ty::infer::creation::{diamond_instantiation, is_left_open, is_wildcard_written};
use hir_ty::infer::ctx::{InferCtx, InitCtx, Site};
use hir_ty::infer::diag::{EarlyReference, NonStaticThisKind, Operator, TypeError};
use hir_ty::infer::field::FinalFieldWrite;
use hir_ty::infer::functional::{contains_capture, decapture, pick_method_ref};
use hir_ty::infer::poly::{
    expr_is_call, expr_is_poly, expr_is_poly_ext, poly_leaves, stmt_has_valued_return,
    MethodRefKind,
};
use hir_ty::infer::switch::{is_reifiable, switchable};
use hir_ty::items::{
    ClassItem, FieldItem, ItemData, ItemTree, LanguageKind, MethodForm, MethodItem, Modifiers,
    TextRange, TypeParam, TypeRef, TypeShape,
};
use hir_ty::list::{Data, List};
use hir_ty::member::{Access, ClassKey, FieldData, InvocationContext, InvocationMode, MethodData};
use hir_ty::names::Name;
use hir_ty::ty::{PrimitiveType, SourceClass, Ty, TypeVarScope, WildcardBound};

const OWNER: Name = Name::Other(1);
const A: Name = Name::Other(2);
const B: Name = Name::Other(3);
const C: Name = Name::Other(4);
const RUN: Name = Name::Other(5);
const T: Name = Name::Other(6);
const CLASS: SourceClass = SourceClass { file: 0, item: 0 };

fn list<T>(v: Vec<T>) -> List<T> {
    List::from_vec(v)
}

fn int_ty() -> Ty {
    Ty::Primitive(PrimitiveType::Int)
}

fn int_ref() -> TypeRef {
    TypeRef { shape: TypeShape::Primitive(PrimitiveType::Int), refs: List::Nil }
}

fn modifiers(is_static: bool, is_final: bool) -> Modifiers {
    Modifiers { visibility: Access::Public, is_static, is_abstract: false, is_final }
}

fn field_item(name: Name, is_static: bool, has_initializer: bool) -> ItemData {
    ItemData::Field(FieldItem {
        name,
        modifiers: modifiers(is_static, true),
        annotations: List::Nil,
        ty: int_ref(),
        has_initializer,
        body: List::Nil,
    })
}

fn method_item(is_static: bool, form: MethodForm) -> ItemData {
    ItemData::Method(MethodItem {
        name: RUN,
        modifiers: modifiers(is_static, false),
        annotations: List::Nil,
        type_params: List::Nil,
        params: List::Nil,
        ret: Some(int_ref()),
        throws: List::Nil,
        has_body: true,
        form,
        body: List::Nil,
    })
}

/// A class with the fields `a`, `b` and `c`, of which `b` is static, a static
/// method and a constructor.
fn tree(type_params: Vec<TypeParam>) -> ItemTree {
    ItemTree {
        language: LanguageKind::Java,
        items: vec![
            ItemData::Class(ClassItem {
                name: OWNER,
                modifiers: modifiers(false, false),
                annotations: List::Nil,
                type_params: list(type_params),
                super_class: None,
                interfaces: List::Nil,
                body: list(vec![1, 2, 3, 4, 5]),
            }),
            field_item(A, false, false),
            field_item(B, true, true),
            field_item(C, false, true),
            method_item(true, MethodForm::Method),
            method_item(false, MethodForm::Constructor),
        ],
        top: list(vec![0]),
        imports: List::Nil,
        package: None,
        package_decls: List::Nil,
    }
}

fn world() -> Facts {
    let mut facts = Facts::new(1000);
    facts.canonical = list(vec![(CLASS, OWNER)]);
    facts.classes = list(vec![(OWNER, ClassInfo::Source { class: CLASS, type_params: 0 })]);
    facts.trees = list(vec![(0, tree(vec![]))]);
    facts
}

fn site() -> Site {
    Site {
        file: 0,
        item: 5,
        access: InvocationContext {
            enclosing_class: Some(ClassKey::Named(OWNER)),
            package: None,
            subclass_of: None,
            mode: InvocationMode::Virtual,
        },
        enclosing_class: Some(Ty::class(OWNER)),
        enclosing_chain: List::Nil,
        static_context: false,
        in_constructor: true,
        init_ctx: None,
        forward_names: List::Nil,
    }
}

fn start() -> InferCtx {
    InferCtx::new(None, List::Nil, false, List::Nil)
}

fn e(id: u32, kind: ExprKind) -> Expr {
    Expr { id, range: None, kind }
}

fn num(id: u32) -> Expr {
    e(id, ExprKind::Literal(Literal::Int(1)))
}

#[test]
fn a_field_initializer_may_not_read_later_fields() {
    let t = tree(vec![]);
    assert_eq!(forward_field_names(&t, 1, false), list(vec![C]));
    assert_eq!(forward_field_names(&t, 1, true), list(vec![B]));
    assert_eq!(forward_field_names(&t, 3, false), List::Nil);
    assert_eq!(forward_field_names(&t, 9, false), List::Nil);
}

#[test]
fn static_declarations_have_no_this() {
    let t = tree(vec![]);
    assert!(!static_context_of(&t, 1));
    assert!(static_context_of(&t, 2));
    assert!(static_context_of(&t, 4));
    assert!(!static_context_of(&t, 5));
}

#[test]
fn the_class_around_has_its_parameters_as_arguments() {
    let mut facts = world();
    assert_eq!(enclosing_self_ty(&facts, 0, &tree(vec![]), 4), Some(Ty::class(OWNER)));
    let generic = tree(vec![TypeParam { name: T, bounds: List::Nil, annotations: List::Nil }]);
    let var = Ty::TypeVar {
        scope: TypeVarScope::Class { file: 0, item: 0, name: T },
        bounds: Box::new(List::Nil),
        lower: None,
    };
    assert_eq!(
        enclosing_self_ty(&facts, 0, &generic, 4),
        Some(Ty::reference(OWNER, list(vec![var])))
    );
    facts.canonical = List::Nil;
    assert_eq!(enclosing_self_ty(&facts, 0, &generic, 4), None);
}

#[test]
fn a_constructor_runs_behind_the_instance_initializers() {
    let mut facts = world();
    facts.touched = list(vec![
        ((0, 1), list(vec![A])),
        ((0, 2), list(vec![B])),
        ((0, 3), list(vec![C])),
    ]);
    let t = tree(vec![]);
    let in_ctor = prior_initializer_writes(&facts, 0, &t, 5);
    assert!(in_ctor.contains(&A));
    assert!(in_ctor.contains(&C));
    assert!(!in_ctor.contains(&B));
    let in_field = prior_initializer_writes(&facts, 0, &t, 3);
    assert!(in_field.contains(&A));
    assert!(!in_field.contains(&C));
}

#[test]
fn type_parameters_are_known_where_the_class_is() {
    let mut facts = world();
    assert_eq!(class_declares_type_params(&facts, &Ty::class(OWNER)), Some(false));
    assert_eq!(class_declares_type_params(&facts, &int_ty()), None);
    facts.classes = list(vec![
        (A, ClassInfo::Library { arity: Some(2) }),
        (B, ClassInfo::Library { arity: None }),
        (C, ClassInfo::Facade),
    ]);
    assert_eq!(class_declares_type_params(&facts, &Ty::class(A)), Some(true));
    assert_eq!(class_declares_type_params(&facts, &Ty::class(B)), None);
    assert_eq!(class_declares_type_params(&facts, &Ty::class(C)), Some(false));
    assert_eq!(class_declares_type_params(&facts, &Ty::class(OWNER)), None);
}

#[test]
fn a_parameter_bounded_by_its_class_is_found() {
    let mut facts = Facts::new(10);
    facts.classes = list(vec![(A, ClassInfo::Library { arity: Some(2) })]);
    let own = TypeShape::Named { name: A, args: Box::new(List::Nil) };
    let other = TypeShape::Named { name: B, args: Box::new(List::Nil) };
    facts.library_bounds = list(vec![(A, list(vec![list(vec![other]), list(vec![own])]))]);
    assert_eq!(self_type_param_indexes(&facts, A), Some(list(vec![1])));
    assert_eq!(self_type_param_indexes(&facts, B), None);
    assert_eq!(self_type_param_indexes(&world(), OWNER), Some(List::Nil));
}

fn field(name: Name, is_static: bool) -> FieldData {
    FieldData {
        name,
        owner: ClassKey::Named(OWNER),
        owner_file: Some(0),
        decl_item: Some(1),
        ty: int_ty(),
        is_static,
        is_final: true,
        access: Access::Public,
        declaring_package: None,
        declaring_top_level: None,
        descriptor: None,
    }
}

#[test]
fn a_blank_final_field_is_written_once() {
    let facts = world();
    let mut ctx = start();
    let verdict = |ctx: &InferCtx, at: &Site, f: &FieldData, through_this: bool| {
        ctx.final_field_write_verdict(&facts, at, f, through_this)
    };
    assert_eq!(verdict(&ctx, &site(), &field(A, false), true), FinalFieldWrite::Legal);
    assert_eq!(verdict(&ctx, &site(), &field(A, false), false), FinalFieldWrite::CannotAssign);
    assert_eq!(verdict(&ctx, &site(), &field(C, false), true), FinalFieldWrite::CannotAssign);
    assert_eq!(verdict(&ctx, &site(), &field(B, true), true), FinalFieldWrite::CannotAssign);
    let mut outside = site();
    outside.in_constructor = false;
    assert_eq!(verdict(&ctx, &outside, &field(A, false), true), FinalFieldWrite::CannotAssign);
    outside.init_ctx = Some(InitCtx::Instance);
    assert_eq!(verdict(&ctx, &outside, &field(A, false), true), FinalFieldWrite::Legal);
    ctx.flow = ctx.flow.touch_field(A);
    assert_eq!(verdict(&ctx, &site(), &field(A, false), true), FinalFieldWrite::AlreadyAssigned);
}

#[test]
fn a_second_write_of_a_final_field_is_reported() {
    let mut facts = world();
    facts.fields = list(vec![((Ty::class(OWNER), A), list(vec![field(A, false)]))]);
    let mut ctx = start();
    let assign = |id: u32| {
        e(
            id,
            ExprKind::Assign {
                op: AssignOp::Assign,
                lhs: Box::new(e(id + 1, ExprKind::Var(A))),
                rhs: Box::new(num(id + 2)),
            },
        )
    };
    ctx.infer_expr(&facts, &site(), &assign(10));
    assert_eq!(ctx.diagnostics, List::Nil);
    ctx.infer_expr(&facts, &site(), &assign(20));
    assert_eq!(
        ctx.reports(),
        list(vec![TypeError::VariableAlreadyAssigned { expr: 21, name: A }])
    );
}

#[test]
fn a_later_field_is_not_read_forward() {
    let mut facts = world();
    facts.fields = list(vec![((Ty::class(OWNER), C), list(vec![field(C, false)]))]);
    let mut ctx = start();
    let mut at = site();
    at.forward_names = list(vec![C]);
    assert_eq!(ctx.infer_expr(&facts, &at, &e(1, ExprKind::Var(C))), Ty::Error);
    assert_eq!(
        ctx.reports(),
        list(vec![TypeError::IllegalForwardReference { expr: 1, name: C }])
    );
}

#[test]
fn an_instance_field_needs_an_instance() {
    let mut facts = world();
    facts.fields = list(vec![((Ty::class(OWNER), A), list(vec![field(A, false)]))]);
    let mut ctx = start();
    let mut at = site();
    at.static_context = true;
    ctx.infer_expr(&facts, &at, &e(1, ExprKind::Var(A)));
    assert_eq!(
        ctx.reports(),
        list(vec![TypeError::NonStaticFieldFromStaticContext { expr: 1, name: A }])
    );
}

#[test]
fn nothing_of_the_object_is_used_before_its_superclass() {
    let mut facts = world();
    facts.parents = list(vec![(Ty::class(OWNER), list(vec![Ty::class(Name::Object)]))]);
    facts.classes = list(vec![(Name::Object, ClassInfo::Library { arity: Some(0) })]);
    facts.methods = list(vec![(
        (Ty::class(Name::Object), Name::Init),
        list(vec![method(vec![], int_ty(), false)]),
    )]);
    let mut ctx = InferCtx::new(None, List::Nil, true, List::Nil);
    let this = e(1, ExprKind::This { qualifier: None });
    ctx.infer_expr(&facts, &site(), &this);
    assert_eq!(
        ctx.diagnostics,
        list(vec![TypeError::CannotReferenceBeforeSuper { expr: 1, name: EarlyReference::This }])
    );
    let call = e(
        2,
        ExprKind::CtorCall { args: Box::new(List::Nil), target: CtorCallTarget::Super },
    );
    assert_eq!(
        ctx.infer_expr(&facts, &site(), &call),
        Ty::Primitive(PrimitiveType::Void)
    );
    assert!(!ctx.before_super);
    ctx.infer_expr(&facts, &site(), &e(3, ExprKind::This { qualifier: None }));
    assert_eq!(
        ctx.reports(),
        list(vec![TypeError::CannotReferenceBeforeSuper { expr: 1, name: EarlyReference::This }])
    );
}

#[test]
fn super_needs_an_instance() {
    let facts = world();
    let mut ctx = start();
    let mut at = site();
    at.static_context = true;
    ctx.infer_expr(&facts, &at, &e(1, ExprKind::Super { qualifier: None }));
    assert_eq!(
        ctx.reports(),
        list(vec![TypeError::NonStaticThisFromStaticContext {
            expr: 1,
            keyword: NonStaticThisKind::Super,
        }])
    );
}

#[test]
fn operators_have_symbols() {
    assert_eq!(Operator::Unary(UnaryOp::Not).symbol(), "!");
    assert_eq!(Operator::Unary(UnaryOp::Inc).symbol(), "++");
    assert_eq!(Operator::Binary(BinaryOp::UShr).symbol(), ">>>");
    assert_eq!(Operator::Binary(BinaryOp::And).symbol(), "&&");
    assert_eq!(Operator::Conditional.symbol(), "?:");
}

fn lambda() -> Expr {
    e(
        1,
        ExprKind::Lambda {
            params: list(vec![LambdaParam {
                name: A,
                ty: None,
                range: TextRange { start: 0, end: 1 },
                annotations: List::Nil,
            }]),
            body: LambdaBody::Expr(Box::new(num(2))),
        },
    )
}

fn call() -> Expr {
    e(
        3,
        ExprKind::MethodCall {
            receiver: None,
            name: RUN,
            type_args: List::Nil,
            args: Box::new(List::Nil),
        },
    )
}

fn choice(then_arm: Expr, else_arm: Expr) -> Expr {
    e(
        4,
        ExprKind::Conditional {
            cond: Box::new(e(5, ExprKind::Literal(Literal::Boolean(true)))),
            then_arm: Box::new(then_arm),
            else_arm: Box::new(else_arm),
        },
    )
}

#[test]
fn some_expressions_depend_on_their_place() {
    assert!(expr_is_poly(&lambda()));
    assert!(!expr_is_poly(&call()));
    assert!(expr_is_poly_ext(&call()));
    assert!(!expr_is_poly_ext(&num(1)));
    assert!(expr_is_poly(&e(9, ExprKind::Paren(Box::new(lambda())))));
    assert!(!expr_is_poly(&choice(lambda(), num(2))));
    assert!(expr_is_call(&call()));
    assert!(!expr_is_call(&num(1)));
    assert_eq!(poly_leaves(&num(1)), List::Nil);
    assert_eq!(poly_leaves(&call()), List::cons(call().id, List::Nil));
    assert_eq!(
        poly_leaves(&choice(lambda(), call())),
        List::cons(lambda().id, List::cons(call().id, List::Nil))
    );
    assert_eq!(poly_leaves(&choice(lambda(), num(2))), List::Nil);
}

#[test]
fn a_valued_return_is_found_in_a_block() {
    let ret = |value: Option<Expr>| Stmt { id: 1, kind: StmtKind::Return(value) };
    let block = |l: Vec<Stmt>| Stmt { id: 2, kind: StmtKind::Block(Box::new(list(l))) };
    assert!(stmt_has_valued_return(&block(vec![ret(Some(num(1)))])));
    assert!(!stmt_has_valued_return(&block(vec![ret(None)])));
}

fn capture(upper: Ty) -> Ty {
    Ty::TypeVar {
        scope: TypeVarScope::Capture(7),
        bounds: Box::new(list(vec![upper])),
        lower: None,
    }
}

#[test]
fn captures_give_way_to_their_bounds() {
    assert!(contains_capture(&capture(Ty::class(A))));
    assert!(contains_capture(&Ty::reference(B, list(vec![capture(Ty::class(A))]))));
    assert!(!contains_capture(&Ty::class(A)));
    assert_eq!(decapture(&Ty::class(A)), Ty::class(A));
    assert!(!contains_capture(&decapture(&capture(Ty::class(A)))));
}

fn method(params: Vec<Ty>, ret: Ty, is_static: bool) -> MethodData {
    MethodData {
        name: RUN,
        owner: ClassKey::Named(OWNER),
        owner_file: None,
        decl_item: None,
        params: list(params),
        param_names: None,
        ret,
        throws: List::Nil,
        varargs: false,
        is_static,
        is_abstract: false,
        is_final: false,
        access: Access::Public,
        declaring_package: None,
        declaring_top_level: None,
        declaring_interface: false,
        type_params: List::Nil,
        raw_erased: false,
        descriptor: None,
    }
}

#[test]
fn a_method_reference_takes_the_parameters_of_the_function() {
    let facts = world();
    let none = method(vec![], int_ty(), false);
    let one = method(vec![Ty::class(A)], Ty::class(B), false);
    let methods = list(vec![none.copy(), one.copy()]);
    let params = list(vec![Ty::class(A)]);
    let pick = |kind: MethodRefKind| pick_method_ref(&facts, 0, &methods, &params, kind);
    assert_eq!(pick(MethodRefKind::Static), Some(one.copy()));
    assert_eq!(pick(MethodRefKind::Bound), Some(one));
    assert_eq!(pick(MethodRefKind::Unbound), Some(none));
    assert_eq!(
        pick_method_ref(&facts, 0, &List::Nil, &params, MethodRefKind::Static),
        None
    );
}

#[test]
fn a_method_reference_has_the_type_of_its_target() {
    let mut facts = world();
    facts.classes = list(vec![
        (A, ClassInfo::Library { arity: Some(0) }),
        (B, ClassInfo::Library { arity: Some(0) }),
    ]);
    facts.functions = list(vec![(Ty::class(B), method(vec![Ty::class(A)], int_ty(), false))]);
    facts.methods = list(vec![(
        (Ty::class(A), RUN),
        list(vec![method(vec![], int_ty(), false)]),
    )]);
    let reference = e(
        1,
        ExprKind::MethodRef {
            qualifier: None,
            named: Some(TypeRef {
                shape: TypeShape::Named { name: A, args: Box::new(List::Nil) },
                refs: List::Nil,
            }),
            name: Some(RUN),
        },
    );
    let mut ctx = start();
    assert_eq!(
        ctx.infer_against(&facts, &site(), &reference, Some(Ty::class(B))),
        Ty::class(B)
    );
    assert_eq!(ctx.diagnostics, List::Nil);
    assert_eq!(
        ctx.infer_against(&facts, &site(), &reference, Some(Ty::class(A))),
        Ty::Error
    );
    assert_eq!(
        ctx.reports(),
        list(vec![TypeError::NotAFunctionalInterface { expr: 1, target: Ty::class(A) }])
    );
}

#[test]
fn reifiable_types_can_be_tested() {
    assert!(is_reifiable(&Ty::class(A)));
    assert!(is_reifiable(&int_ty()));
    assert!(is_reifiable(&Ty::array(Ty::class(A))));
    let any = Ty::Wildcard(WildcardBound::Unbounded);
    assert!(is_reifiable(&Ty::reference(A, list(vec![any]))));
    assert!(!is_reifiable(&Ty::reference(A, list(vec![Ty::class(B)]))));
    assert!(!is_reifiable(&Ty::array(Ty::reference(A, list(vec![Ty::class(B)])))));
}

#[test]
fn not_every_type_is_switched_over() {
    assert!(switchable(&int_ty()));
    assert!(switchable(&Ty::Primitive(PrimitiveType::Char)));
    assert!(!switchable(&Ty::Primitive(PrimitiveType::Long)));
    assert!(!switchable(&Ty::Primitive(PrimitiveType::Boolean)));
    assert!(switchable(&Ty::class(Name::String)));
}

#[test]
fn a_diamond_takes_the_arguments_of_its_target() {
    let facts = world();
    let target = Ty::reference(OWNER, list(vec![Ty::class(Name::String)]));
    assert_eq!(
        diamond_instantiation(&facts, &site(), &Ty::class(OWNER), &Some(target.copy())),
        target
    );
    assert!(!is_left_open(&target));
    let wild = TypeShape::Named { name: OWNER, args: Box::new(list(vec![TypeShape::Any])) };
    assert!(is_wildcard_written(&wild));
    assert!(!is_wildcard_written(&int_ref().shape));
}

#[test]
fn captures_are_replaced_once_for_all() {
    let nested = Ty::reference(B, list(vec![capture(capture(Ty::class(A)))]));
    let once = decapture(&nested);
    assert_eq!(once, Ty::reference(B, list(vec![Ty::class(A)])));
    assert_eq!(decapture(&once), once);
    let lower = Ty::TypeVar {
        scope: TypeVarScope::Capture(8),
        bounds: Box::new(list(vec![Ty::class(B)])),
        lower: Some(Box::new(Ty::class(A))),
    };
    assert_eq!(decapture(&lower), Ty::class(A));
}
