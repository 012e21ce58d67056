use hir_ty::body::{
    AssignOp, BinaryOp, Const, Expr, ExprKind, Literal, Local, Pattern, PatternKind, Stmt,
    StmtKind, SwitchArm, SwitchLabel, UnaryOp,
};
use hir_ty::db::ClassInfo;
use hir_ty::facts::Facts;
use hir_ty::infer::ctx::{InferCtx, Site};
use hir_ty::infer::diag::{
    display_const, NonStaticThisKind, Operator, ResolvedMember, TypeError, WrongArity,
};
use hir_ty::infer::lookup::{
    constructor_name, find_delegate_name, pack_varargs, qualifier_is_superinterface,
    receiver_has_nested_type,
};
use hir_ty::infer::operator::{
    binary_numeric_promotion, castable, comparable, conditional_type, fits_primitive,
    numeric_promotion, unary_promotion, widening_primitive,
};
use hir_ty::items::{TypeRef, TypeShape};
use hir_ty::list::{get_assoc, Data, List};
use hir_ty::member::{
    Access, ClassKey, FieldData, InvocationContext, InvocationMode, MethodData, MethodTypeParam,
};
use hir_ty::names::{Name, Names};
use hir_ty::ty::{PrimitiveType, SourceClass, Ty, TypeVarScope};

const ANIMAL: Name = Name::Other(1);
const CAT: Name = Name::Other(2);
const RUN: Name = Name::Other(5);
const X: Name = Name::Other(6);
const Y: Name = Name::Other(7);
const AGE: Name = Name::Other(8);
const BOX: Name = Name::Other(9);

fn list<T>(v: Vec<T>) -> List<T> {
    List::from_vec(v)
}

fn class(n: Name) -> Ty {
    Ty::class(n)
}

fn prim(p: PrimitiveType) -> Ty {
    Ty::Primitive(p)
}

fn int_ty() -> Ty {
    prim(PrimitiveType::Int)
}

fn boolean() -> Ty {
    prim(PrimitiveType::Boolean)
}

fn zoo() -> Facts {
    let mut facts = Facts::new(1000);
    facts.classes = list(vec![
        (ANIMAL, ClassInfo::Library { arity: Some(0) }),
        (CAT, ClassInfo::Library { arity: Some(0) }),
        (BOX, ClassInfo::Library { arity: Some(1) }),
        (Name::Object, ClassInfo::Library { arity: Some(0) }),
        (Name::String, ClassInfo::Library { arity: Some(0) }),
        (Name::BoxedInteger, ClassInfo::Library { arity: Some(0) }),
    ]);
    facts.subtypes = list(vec![
        (class(CAT), class(ANIMAL)),
        (class(CAT), class(Name::Object)),
        (class(ANIMAL), class(Name::Object)),
        (class(Name::String), class(Name::Object)),
    ]);
    facts.parents = list(vec![
        (class(CAT), list(vec![class(ANIMAL)])),
        (class(ANIMAL), list(vec![class(Name::Object)])),
        (class(Name::String), list(vec![class(Name::Object)])),
    ]);
    facts.conversions = list(vec![
        (int_ty(), prim(PrimitiveType::Long)),
        (int_ty(), class(Name::BoxedInteger)),
        (Ty::Null, class(CAT)),
        (Ty::Null, class(Name::String)),
    ]);
    facts.class_like = list(vec![
        (class(Name::String), true),
        (class(Name::BoxedInteger), true),
        (class(CAT), true),
        (class(ANIMAL), true),
    ]);
    facts
}

fn site() -> Site {
    Site {
        file: 0,
        item: 0,
        access: InvocationContext {
            enclosing_class: None,
            package: None,
            subclass_of: None,
            mode: InvocationMode::Virtual,
        },
        enclosing_class: None,
        enclosing_chain: List::Nil,
        static_context: false,
        in_constructor: false,
        init_ctx: None,
        forward_names: List::Nil,
    }
}

fn start() -> InferCtx {
    InferCtx::new(None, List::Nil, false, List::Nil)
}

fn e(id: u32, kind: ExprKind) -> Expr {
    Expr { id, range: None, kind }
}

fn num(id: u32, v: i64) -> Expr {
    e(id, ExprKind::Literal(Literal::Int(v)))
}

fn text(id: u32) -> Expr {
    e(id, ExprKind::Literal(Literal::Str(Name::Empty)))
}

fn yes(id: u32) -> Expr {
    e(id, ExprKind::Literal(Literal::Boolean(true)))
}

fn name(id: u32, n: Name) -> Expr {
    e(id, ExprKind::Var(n))
}

fn bin(id: u32, op: BinaryOp, lhs: Expr, rhs: Expr) -> Expr {
    e(id, ExprKind::Binary { op, lhs: Box::new(lhs), rhs: Box::new(rhs) })
}

fn call(id: u32, receiver: Option<Expr>, n: Name, args: Vec<Expr>) -> Expr {
    e(
        id,
        ExprKind::MethodCall {
            receiver: receiver.map(Box::new),
            name: n,
            type_args: List::Nil,
            args: Box::new(list(args)),
        },
    )
}

fn written(n: Name) -> TypeRef {
    TypeRef { shape: TypeShape::Named { name: n, args: Box::new(List::Nil) }, refs: List::Nil }
}

fn local(id: u32, n: Name, ty: Option<TypeRef>) -> Local {
    Local { id, name: n, ty, is_final: false, annotations: List::Nil }
}

fn method(n: Name, params: Vec<Ty>, ret: Ty) -> MethodData {
    MethodData {
        name: n,
        owner: ClassKey::Named(ANIMAL),
        owner_file: None,
        decl_item: None,
        params: list(params),
        param_names: None,
        ret,
        throws: List::Nil,
        varargs: false,
        is_static: false,
        is_abstract: false,
        is_final: false,
        access: Access::Public,
        declaring_package: None,
        declaring_top_level: None,
        declaring_interface: false,
        type_params: List::Nil,
        raw_erased: false,
        descriptor: None,
    }
}

fn infer(facts: &Facts, ctx: &mut InferCtx, x: &Expr) -> Ty {
    ctx.infer_expr(facts, &site(), x)
}

fn typed(x: Expr) -> (Ty, List<TypeError>) {
    let facts = zoo();
    let mut ctx = start();
    let t = infer(&facts, &mut ctx, &x);
    (t, ctx.reports())
}

#[test]
fn literals_have_their_types() {
    assert_eq!(typed(num(0, 4)), (int_ty(), List::Nil));
    assert_eq!(typed(text(0)), (class(Name::String), List::Nil));
    assert_eq!(typed(yes(0)), (boolean(), List::Nil));
    assert_eq!(typed(e(0, ExprKind::Null)), (Ty::Null, List::Nil));
    assert_eq!(
        typed(e(0, ExprKind::Literal(Literal::Long(1)))),
        (prim(PrimitiveType::Long), List::Nil)
    );
    assert_eq!(
        typed(e(0, ExprKind::Literal(Literal::Char(65)))),
        (prim(PrimitiveType::Char), List::Nil)
    );
    assert_eq!(
        typed(e(0, ExprKind::Literal(Literal::Double))),
        (prim(PrimitiveType::Double), List::Nil)
    );
}

#[test]
fn the_type_of_an_expression_is_recorded() {
    let facts = zoo();
    let mut ctx = start();
    infer(&facts, &mut ctx, &bin(9, BinaryOp::Add, num(1, 4), text(2)));
    assert_eq!(get_assoc(&ctx.types, &9), Some(class(Name::String)));
    assert_eq!(get_assoc(&ctx.types, &1), Some(int_ty()));
    assert_eq!(get_assoc(&ctx.types, &2), Some(class(Name::String)));
}

#[test]
fn numbers_are_promoted() {
    assert_eq!(numeric_promotion(PrimitiveType::Byte), PrimitiveType::Int);
    assert_eq!(numeric_promotion(PrimitiveType::Char), PrimitiveType::Int);
    assert_eq!(numeric_promotion(PrimitiveType::Long), PrimitiveType::Long);
    assert_eq!(unary_promotion(&prim(PrimitiveType::Short)), int_ty());
    assert_eq!(
        binary_numeric_promotion(&int_ty(), &prim(PrimitiveType::Double)),
        prim(PrimitiveType::Double)
    );
    assert_eq!(
        binary_numeric_promotion(&prim(PrimitiveType::Double), &int_ty()),
        prim(PrimitiveType::Double)
    );
    assert_eq!(
        binary_numeric_promotion(&class(Name::BoxedInteger), &prim(PrimitiveType::Long)),
        prim(PrimitiveType::Long)
    );
    assert!(widening_primitive(PrimitiveType::Byte, PrimitiveType::Int));
    assert!(!widening_primitive(PrimitiveType::Int, PrimitiveType::Byte));
    assert!(!widening_primitive(PrimitiveType::Boolean, PrimitiveType::Int));
}

#[test]
fn constants_fit_by_value() {
    assert!(fits_primitive(127, PrimitiveType::Byte));
    assert!(!fits_primitive(128, PrimitiveType::Byte));
    assert!(fits_primitive(-128, PrimitiveType::Byte));
    assert!(fits_primitive(65535, PrimitiveType::Char));
    assert!(!fits_primitive(-1, PrimitiveType::Char));
    assert!(fits_primitive(32767, PrimitiveType::Short));
    assert!(!fits_primitive(32768, PrimitiveType::Short));
}

#[test]
fn arithmetic_needs_numbers() {
    assert_eq!(typed(bin(9, BinaryOp::Mul, num(1, 4), num(2, 5))), (int_ty(), List::Nil));
    let (t, reports) = typed(bin(9, BinaryOp::Sub, num(1, 4), text(2)));
    assert_eq!(t, Ty::Error);
    assert_eq!(
        reports,
        list(vec![TypeError::IncompatibleOperand {
            expr: 2,
            op: Operator::Binary(BinaryOp::Sub),
            found: class(Name::String),
            other: Some(int_ty()),
        }])
    );
}

#[test]
fn adding_a_string_gives_a_string() {
    assert_eq!(
        typed(bin(9, BinaryOp::Add, text(1), e(2, ExprKind::Null))),
        (class(Name::String), List::Nil)
    );
}

#[test]
fn comparisons_are_boolean() {
    assert_eq!(typed(bin(9, BinaryOp::Lt, num(1, 4), num(2, 5))), (boolean(), List::Nil));
    assert_eq!(typed(bin(9, BinaryOp::Eq, text(1), e(2, ExprKind::Null))), (boolean(), List::Nil));
    let (t, reports) = typed(bin(9, BinaryOp::Eq, yes(1), num(2, 5)));
    assert_eq!(t, boolean());
    assert_ne!(reports, List::Nil);
}

#[test]
fn conditional_operators_are_boolean_whatever_they_join() {
    assert_eq!(typed(bin(9, BinaryOp::And, yes(1), yes(2))), (boolean(), List::Nil));
    let (t, reports) = typed(bin(9, BinaryOp::Or, yes(1), num(2, 3)));
    assert_eq!(t, boolean());
    assert_ne!(reports, List::Nil);
}

#[test]
fn errors_do_not_cascade() {
    let broken = bin(3, BinaryOp::Sub, num(1, 4), text(2));
    let (t, reports) = typed(bin(9, BinaryOp::Mul, broken, num(4, 5)));
    assert_eq!(t, Ty::Error);
    match reports {
        List::Cons(_, rest) => assert!(rest.is_empty()),
        List::Nil => panic!("the broken operand is reported"),
    }
}

#[test]
fn comparable_types_are_so_both_ways() {
    let facts = zoo();
    let types = [class(CAT), class(ANIMAL), int_ty(), boolean(), Ty::Null, class(Name::String)];
    for a in &types {
        for b in &types {
            assert_eq!(comparable(&facts, a, b), comparable(&facts, b, a));
        }
    }
    assert!(comparable(&facts, &class(CAT), &class(ANIMAL)));
    assert!(!comparable(&facts, &int_ty(), &boolean()));
}

#[test]
fn casts_go_up_and_down() {
    let facts = zoo();
    assert!(castable(&facts, &class(CAT), &class(ANIMAL)));
    assert!(castable(&facts, &class(ANIMAL), &class(CAT)));
    assert!(castable(&facts, &int_ty(), &prim(PrimitiveType::Byte)));
    assert!(!castable(&facts, &class(Name::String), &int_ty()));
}

#[test]
fn a_bad_cast_is_reported() {
    let x = e(
        3,
        ExprKind::Cast {
            ty: TypeRef { shape: TypeShape::Primitive(PrimitiveType::Int), refs: List::Nil },
            expr: Box::new(text(1)),
        },
    );
    let (t, reports) = typed(x);
    assert_eq!(t, int_ty());
    assert_eq!(
        reports,
        list(vec![TypeError::BadCast { expr: 1, found: class(Name::String), target: int_ty() }])
    );
}

#[test]
fn a_choice_joins_its_arms() {
    let facts = zoo();
    assert_eq!(conditional_type(&facts, &class(CAT), &class(CAT)), class(CAT));
    assert_eq!(conditional_type(&facts, &class(CAT), &Ty::Null), class(CAT));
    assert_eq!(conditional_type(&facts, &int_ty(), &prim(PrimitiveType::Long)), prim(PrimitiveType::Long));
    let x = e(
        9,
        ExprKind::Conditional {
            cond: Box::new(num(1, 2)),
            then_arm: Box::new(num(2, 2)),
            else_arm: Box::new(num(3, 2)),
        },
    );
    assert_eq!(
        typed(x),
        (int_ty(), list(vec![TypeError::NonBooleanCondition { expr: 1, found: int_ty() }]))
    );
}

#[test]
fn a_name_that_denotes_nothing_is_reported() {
    assert_eq!(
        typed(name(1, X)),
        (Ty::Error, list(vec![TypeError::CannotResolveName { expr: 1, name: list(vec![X]) }]))
    );
}

#[test]
fn a_bound_local_is_found() {
    let facts = zoo();
    let mut ctx = start();
    ctx.bind_local(&local(4, X, None), class(CAT));
    assert_eq!(infer(&facts, &mut ctx, &name(1, X)), class(CAT));
    ctx.push_scope();
    ctx.bind_local(&local(5, X, None), class(ANIMAL));
    assert_eq!(infer(&facts, &mut ctx, &name(2, X)), class(ANIMAL));
    ctx.pop_scope();
    assert_eq!(infer(&facts, &mut ctx, &name(3, X)), class(CAT));
    assert_eq!(ctx.reports(), list(vec![TypeError::VariableAlreadyDefined { local: 5, name: X }]));
}

#[test]
fn an_assignment_gives_a_local_its_value() {
    let facts = zoo();
    let mut ctx = start();
    ctx.declare_local(&facts, &site(), &local(4, X, Some(written(CAT))));
    let assign = e(
        9,
        ExprKind::Assign {
            op: AssignOp::Assign,
            lhs: Box::new(name(1, X)),
            rhs: Box::new(e(2, ExprKind::Null)),
        },
    );
    assert_eq!(infer(&facts, &mut ctx, &assign), class(CAT));
    assert_eq!(infer(&facts, &mut ctx, &name(3, X)), class(CAT));
    assert_eq!(ctx.reports(), List::Nil);
}

#[test]
fn an_assignment_needs_a_conversion() {
    let facts = zoo();
    let mut ctx = start();
    ctx.declare_local(&facts, &site(), &local(4, X, Some(written(CAT))));
    let assign = e(
        9,
        ExprKind::Assign {
            op: AssignOp::Assign,
            lhs: Box::new(name(1, X)),
            rhs: Box::new(text(2)),
        },
    );
    infer(&facts, &mut ctx, &assign);
    assert_eq!(
        ctx.reports(),
        list(vec![TypeError::IncompatibleTypes {
            expr: 2,
            found: class(Name::String),
            expected: class(CAT),
        }])
    );
}

#[test]
fn a_name_is_declared_once() {
    let facts = zoo();
    let mut ctx = start();
    ctx.declare_local(&facts, &site(), &local(4, X, Some(written(CAT))));
    ctx.declare_local(&facts, &site(), &local(5, X, Some(written(ANIMAL))));
    assert_eq!(ctx.reports(), list(vec![TypeError::VariableAlreadyDefined { local: 5, name: X }]));
}

#[test]
fn unary_operators_need_their_operands() {
    let not = |x: Expr| e(9, ExprKind::Unary { op: UnaryOp::Not, expr: Box::new(x) });
    assert_eq!(typed(not(yes(1))), (boolean(), List::Nil));
    let (_, reports) = typed(not(num(1, 3)));
    assert_eq!(
        reports,
        list(vec![TypeError::NonBooleanCondition { expr: 1, found: int_ty() }])
    );
    let minus = e(9, ExprKind::Unary { op: UnaryOp::Minus, expr: Box::new(text(1)) });
    assert_eq!(
        typed(minus),
        (
            Ty::Error,
            list(vec![TypeError::IncompatibleOperand {
                expr: 1,
                op: Operator::Unary(UnaryOp::Minus),
                found: class(Name::String),
                other: None,
            }])
        )
    );
}

#[test]
fn an_array_has_elements_and_a_length() {
    let facts = zoo();
    let mut ctx = start();
    ctx.declare_params(&facts, &site(), &list(vec![local(
        4,
        X,
        Some(TypeRef {
            shape: TypeShape::Array(Box::new(TypeShape::Named {
                name: CAT,
                args: Box::new(List::Nil),
            })),
            refs: List::Nil,
        }),
    )]));
    let element = e(
        9,
        ExprKind::ArrayAccess { array: Box::new(name(1, X)), index: Box::new(num(2, 0)) },
    );
    assert_eq!(infer(&facts, &mut ctx, &element), class(CAT));
    let length = e(
        8,
        ExprKind::FieldAccess { target: Some(Box::new(name(5, X))), name: Name::Length },
    );
    assert_eq!(infer(&facts, &mut ctx, &length), int_ty());
    assert_eq!(ctx.reports(), List::Nil);
}

#[test]
fn this_needs_an_instance() {
    let facts = zoo();
    let mut ctx = start();
    let mut at = site();
    at.enclosing_class = Some(class(CAT));
    let this = e(1, ExprKind::This { qualifier: None });
    assert_eq!(ctx.infer_expr(&facts, &at, &this), class(CAT));
    assert_eq!(ctx.diagnostics, List::Nil);
    at.static_context = true;
    ctx.infer_expr(&facts, &at, &this);
    assert_eq!(
        ctx.reports(),
        list(vec![TypeError::NonStaticThisFromStaticContext {
            expr: 1,
            keyword: NonStaticThisKind::This,
        }])
    );
}

fn field(n: Name, ty: Ty) -> FieldData {
    FieldData {
        name: n,
        owner: ClassKey::Named(CAT),
        owner_file: None,
        decl_item: None,
        ty,
        is_static: false,
        is_final: false,
        access: Access::Public,
        declaring_package: None,
        declaring_top_level: None,
        descriptor: None,
    }
}

#[test]
fn a_field_is_found_in_its_receiver() {
    let mut facts = zoo();
    facts.fields = list(vec![((class(CAT), AGE), list(vec![field(AGE, int_ty())]))]);
    let mut ctx = start();
    ctx.declare_params(&facts, &site(), &list(vec![local(4, X, Some(written(CAT)))]));
    let access = |id: u32, n: Name| {
        e(id, ExprKind::FieldAccess { target: Some(Box::new(name(id + 1, X))), name: n })
    };
    assert_eq!(infer(&facts, &mut ctx, &access(10, AGE)), int_ty());
    assert_eq!(ctx.diagnostics, List::Nil);
    assert_eq!(infer(&facts, &mut ctx, &access(20, Y)), Ty::Error);
    assert_eq!(ctx.reports(), list(vec![TypeError::NoSuchField { expr: 20, name: Y }]));
}

#[test]
fn a_call_has_the_type_of_its_method() {
    let mut facts = zoo();
    facts.methods = list(vec![(
        (class(CAT), RUN),
        list(vec![method(RUN, vec![class(ANIMAL)], class(Name::String))]),
    )]);
    let mut ctx = start();
    ctx.declare_params(&facts, &site(), &list(vec![local(4, X, Some(written(CAT)))]));
    let t = infer(&facts, &mut ctx, &call(9, Some(name(1, X)), RUN, vec![name(2, X)]));
    assert_eq!(t, class(Name::String));
    assert_eq!(ctx.diagnostics, List::Nil);
    match &ctx.members {
        List::Cons(first, _) => match &first.1 {
            ResolvedMember::Method(m) => assert_eq!((first.0, &m.ret), (9, &class(Name::String))),
            ResolvedMember::Unresolved(_) => panic!("the call is resolved"),
        },
        List::Nil => panic!("the call is recorded"),
    }
}

#[test]
fn a_missing_method_is_reported() {
    let facts = zoo();
    let mut ctx = start();
    ctx.declare_params(&facts, &site(), &list(vec![local(4, X, Some(written(CAT)))]));
    let t = infer(&facts, &mut ctx, &call(9, Some(name(1, X)), RUN, vec![]));
    assert_eq!(t, Ty::Error);
    assert_eq!(ctx.reports(), list(vec![TypeError::NoSuchMethod { expr: 9, name: RUN }]));
}

#[test]
fn a_wrong_number_of_arguments_is_reported() {
    let mut facts = zoo();
    facts.methods = list(vec![(
        (class(CAT), RUN),
        list(vec![method(RUN, vec![class(ANIMAL)], int_ty())]),
    )]);
    let mut ctx = start();
    ctx.declare_params(&facts, &site(), &list(vec![local(4, X, Some(written(CAT)))]));
    infer(&facts, &mut ctx, &call(9, Some(name(1, X)), RUN, vec![]));
    match ctx.reports() {
        List::Cons(first, rest) => {
            assert!(rest.is_empty());
            match *first {
                TypeError::WrongArity(WrongArity { expr, name, found, expected, .. }) => {
                    assert_eq!((expr, name, found, expected), (9, RUN, 0, 1));
                }
                other => panic!("unexpected report {:?}", other),
            }
        }
        List::Nil => panic!("the call is reported"),
    }
}

fn scope() -> TypeVarScope {
    TypeVarScope::Method { file: 0, item: 0, name: Name::Other(50) }
}

#[test]
fn a_generic_call_is_inferred_from_its_argument() {
    let mut facts = zoo();
    let var = Ty::TypeVar { scope: scope(), bounds: Box::new(List::Nil), lower: None };
    let mut m = method(RUN, vec![var.copy()], Ty::reference(BOX, list(vec![var])));
    m.type_params = list(vec![MethodTypeParam { scope: scope(), bounds: List::Nil }]);
    facts.methods = list(vec![((class(CAT), RUN), list(vec![m]))]);
    let mut ctx = start();
    ctx.declare_params(&facts, &site(), &list(vec![local(4, X, Some(written(CAT)))]));
    let t = infer(&facts, &mut ctx, &call(9, Some(name(1, X)), RUN, vec![text(2)]));
    assert_eq!(t, Ty::reference(BOX, list(vec![class(Name::String)])));
    assert_eq!(ctx.reports(), List::Nil);
}

#[test]
fn the_more_specific_overload_is_called() {
    let mut facts = zoo();
    facts.methods = list(vec![(
        (class(CAT), RUN),
        list(vec![
            method(RUN, vec![class(Name::Object)], int_ty()),
            method(RUN, vec![class(ANIMAL)], boolean()),
        ]),
    )]);
    let mut ctx = start();
    ctx.declare_params(&facts, &site(), &list(vec![local(4, X, Some(written(CAT)))]));
    let specific = infer(&facts, &mut ctx, &call(9, Some(name(1, X)), RUN, vec![name(2, X)]));
    assert_eq!(specific, boolean());
    let general = infer(&facts, &mut ctx, &call(19, Some(name(11, X)), RUN, vec![text(12)]));
    assert_eq!(general, int_ty());
}

#[test]
fn a_creation_has_its_class() {
    let mut facts = zoo();
    facts.methods = list(vec![(
        (class(CAT), Name::Init),
        list(vec![method(Name::Init, vec![], Ty::Primitive(PrimitiveType::Void))]),
    )]);
    let mut ctx = start();
    let new = e(
        9,
        ExprKind::New {
            ty: written(CAT),
            args: Box::new(List::Nil),
            diamond: false,
            anonymous: false,
            receiver: None,
        },
    );
    assert_eq!(infer(&facts, &mut ctx, &new), class(CAT));
    assert_eq!(ctx.reports(), List::Nil);
}

#[test]
fn a_source_class_without_constructors_cannot_be_created() {
    let mut facts = zoo();
    facts.classes = list(vec![(
        CAT,
        ClassInfo::Source { class: SourceClass { file: 0, item: 0 }, type_params: 0 },
    )]);
    let mut ctx = start();
    let new = e(
        9,
        ExprKind::New {
            ty: written(CAT),
            args: Box::new(List::Nil),
            diamond: false,
            anonymous: false,
            receiver: None,
        },
    );
    infer(&facts, &mut ctx, &new);
    assert_eq!(ctx.reports(), list(vec![TypeError::NoSuchConstructor { expr: 9, name: CAT }]));
}

#[test]
fn a_test_binds_its_pattern_where_it_is_true() {
    let facts = zoo();
    let mut ctx = start();
    ctx.declare_params(&facts, &site(), &list(vec![local(4, X, Some(written(ANIMAL)))]));
    let test = e(
        9,
        ExprKind::InstanceOf {
            expr: Box::new(name(1, X)),
            pattern: Some(Box::new(Pattern {
                id: 2,
                kind: PatternKind::Type {
                    ty: written(CAT),
                    binding: Some(local(7, Y, Some(written(CAT)))),
                },
            })),
            ty: None,
        },
    );
    let choice = e(
        12,
        ExprKind::Conditional {
            cond: Box::new(test),
            then_arm: Box::new(name(10, Y)),
            else_arm: Box::new(e(11, ExprKind::Null)),
        },
    );
    assert_eq!(infer(&facts, &mut ctx, &choice), class(CAT));
    assert_eq!(get_assoc(&ctx.types, &9), Some(boolean()));
    assert_eq!(ctx.reports(), List::Nil);
}

fn arm(labels: Vec<SwitchLabel>, value: Expr) -> SwitchArm {
    SwitchArm {
        labels: list(labels),
        body: list(vec![Stmt { id: value.id + 100, kind: StmtKind::Yield(value) }]),
    }
}

fn default_label(id: u32) -> SwitchLabel {
    SwitchLabel::Expr(e(id, ExprKind::Missing))
}

fn switch(arms: Vec<SwitchArm>) -> Expr {
    e(9, ExprKind::Switch { scrutinee: Box::new(num(1, 3)), arms: Box::new(list(arms)) })
}

#[test]
fn a_switch_expression_covers_its_selector() {
    let mut facts = zoo();
    facts.constants = list(vec![(class(CAT), list(vec![Name::Other(70), Name::Other(71)]))]);
    let over = |arms: Vec<SwitchArm>| {
        let mut ctx = start();
        ctx.declare_params(&facts, &site(), &list(vec![local(4, X, Some(written(CAT)))]));
        let x = e(
            9,
            ExprKind::Switch {
                scrutinee: Box::new(name(1, X)),
                arms: Box::new(list(arms)),
            },
        );
        let t = infer(&facts, &mut ctx, &x);
        (t, ctx.reports())
    };
    let constant = |id: u32, n: u32| vec![SwitchLabel::Expr(name(id, Name::Other(n)))];
    assert_eq!(
        over(vec![arm(constant(2, 70), num(3, 7))]),
        (int_ty(), list(vec![TypeError::NotExhaustive { expr: 9 }]))
    );
    assert_eq!(
        over(vec![arm(constant(2, 70), num(3, 7)), arm(constant(5, 71), num(6, 8))]),
        (int_ty(), List::Nil)
    );
    assert_eq!(
        over(vec![arm(constant(2, 70), num(3, 7)), arm(vec![default_label(5)], num(6, 8))]),
        (int_ty(), List::Nil)
    );
    let covered = switch(vec![
        arm(vec![SwitchLabel::Expr(num(2, 1))], num(3, 7)),
        arm(vec![default_label(4)], num(5, 8)),
    ]);
    assert_eq!(typed(covered), (int_ty(), List::Nil));
}

#[test]
fn a_label_occurs_once() {
    let x = switch(vec![
        arm(vec![SwitchLabel::Expr(num(2, 1))], num(3, 7)),
        arm(vec![SwitchLabel::Expr(num(4, 1))], num(5, 7)),
        arm(vec![default_label(6)], num(7, 8)),
    ]);
    let (_, reports) = typed(x);
    assert_eq!(
        reports,
        list(vec![TypeError::DuplicateCaseLabel { expr: 4, value: Const::Int(1) }])
    );
}

#[test]
fn tentative_inference_reports_nothing() {
    let facts = zoo();
    let mut ctx = start();
    ctx.set_probing(true);
    infer(&facts, &mut ctx, &name(1, X));
    infer(&facts, &mut ctx, &bin(9, BinaryOp::Sub, num(2, 4), text(3)));
    assert!(ctx.probing);
    assert_eq!(ctx.reports(), List::Nil);
}

#[test]
fn inference_leaves_its_surroundings_alone() {
    let facts = zoo();
    let mut ctx = start();
    ctx.declare_params(&facts, &site(), &list(vec![local(4, X, Some(written(CAT)))]));
    ctx.set_target(Some(class(ANIMAL)));
    let scopes = ctx.scopes.copy();
    infer(&facts, &mut ctx, &call(9, Some(name(1, X)), RUN, vec![name(2, Y), text(3)]));
    assert_eq!(ctx.target, Some(class(ANIMAL)));
    assert_eq!(ctx.scopes, scopes);
    assert!(ctx.lambda_params.is_empty());
}

#[test]
fn a_boxed_type_is_compared_with_its_supertypes() {
    let number = Name::Other(30);
    let mut facts = zoo();
    facts.subtypes = List::cons((class(Name::BoxedInteger), class(number)), facts.subtypes);
    assert!(comparable(&facts, &class(Name::BoxedInteger), &class(number)));
    assert!(comparable(&facts, &class(number), &class(Name::BoxedInteger)));
    assert!(!comparable(&facts, &class(Name::String), &class(Name::BoxedInteger)));
    assert!(!comparable(&facts, &class(Name::BoxedInteger), &class(Name::BoxedBoolean)));
    assert!(!comparable(&facts, &int_ty(), &class(number)));
    assert!(comparable(&facts, &int_ty(), &class(Name::BoxedInteger)));
}

#[test]
fn a_conditional_operator_keeps_both_outcomes() {
    let facts = zoo();
    let mut s = start();
    let x = bin(3, BinaryOp::And, yes(1), yes(2));
    assert_eq!(s.binary(&facts, &site(), &x), boolean());
    assert!(s.bool_outcomes.is_some());
    assert!(!s.exited);
    let mut t = start();
    assert_eq!(t.infer_expr(&facts, &site(), &x), boolean());
    assert_eq!(s.bool_outcomes, t.bool_outcomes);
    assert_eq!(s.flow, t.flow);
}

#[test]
fn only_an_interface_stands_before_super() {
    let mut facts = zoo();
    facts.class_like = List::cons((class(BOX), false), facts.class_like);
    facts.parents = List::cons((class(CAT), list(vec![class(ANIMAL), class(BOX)])), facts.parents);
    let here = Site { enclosing_class: Some(class(CAT)), ..site() };
    assert!(qualifier_is_superinterface(&facts, &here, &class(BOX)));
    assert!(!qualifier_is_superinterface(&facts, &here, &class(ANIMAL)));
    assert!(!qualifier_is_superinterface(&facts, &here, &class(Name::String)));
}

#[test]
fn constructors_are_found_by_the_name_behind_the_dot() {
    let mut facts = zoo();
    let whole = facts.names.enter("p.Outer$Inner");
    let behind = facts.names.enter("Outer$Inner");
    let simple = facts.names.enter("Inner");
    assert_eq!(find_delegate_name(&facts, whole), behind);
    assert_eq!(constructor_name(&facts, whole), simple);
    assert_eq!(find_delegate_name(&facts, simple), simple);
    assert_eq!(find_delegate_name(&facts, CAT), Name::Init);
}

#[test]
fn member_classes_have_a_name_of_their_own() {
    let mut facts = Facts::new(10);
    let owner = facts.names.enter("p.A");
    let simple = facts.names.enter("B");
    let dotted = facts.names.enter("p.A.B");
    let binary = facts.names.enter("p.A$B");
    assert!(!receiver_has_nested_type(&facts, &class(owner), simple));
    facts.classes = list(vec![(dotted, ClassInfo::Library { arity: None })]);
    assert!(receiver_has_nested_type(&facts, &class(owner), simple));
    facts.classes = List::cons((owner, ClassInfo::Library { arity: None }), facts.classes);
    assert!(!receiver_has_nested_type(&facts, &class(owner), simple));
    facts.classes = List::cons((binary, ClassInfo::Library { arity: None }), facts.classes);
    assert!(receiver_has_nested_type(&facts, &class(owner), simple));
    assert!(!receiver_has_nested_type(&facts, &int_ty(), simple));
}

#[test]
fn constants_are_shown_as_written() {
    let mut names = Names::new();
    let word = names.intern("cat");
    assert_eq!(display_const(&names, Const::Int(0)), "0");
    assert_eq!(display_const(&names, Const::Int(4096)), "4096");
    assert_eq!(display_const(&names, Const::Int(-17)), "-17");
    assert_eq!(display_const(&names, Const::Int(i64::MIN)), "-9223372036854775808");
    assert_eq!(display_const(&names, Const::Bool(true)), "true");
    assert_eq!(display_const(&names, Const::Bool(false)), "false");
    assert_eq!(display_const(&names, Const::Str(word)), "\"cat\"");
}

#[test]
fn variable_arity_formals_are_as_many_as_the_arguments() {
    let formals = list(vec![boolean(), Ty::array(int_ty())]);
    assert_eq!(pack_varargs(&formals, 0), formals);
    assert_eq!(pack_varargs(&formals, 1), list(vec![boolean()]));
    assert_eq!(pack_varargs(&formals, 2), formals);
    assert_eq!(pack_varargs(&formals, 4), list(vec![boolean(), int_ty(), int_ty(), int_ty()]));
}

#[test]
fn no_number_is_cast_to_a_boolean() {
    let facts = zoo();
    assert!(!castable(&facts, &int_ty(), &boolean()));
    assert!(castable(&facts, &boolean(), &boolean()));
    assert!(castable(&facts, &int_ty(), &prim(PrimitiveType::Char)));
}

#[test]
fn a_boolean_is_not_shifted() {
    let facts = zoo();
    let mut s = start();
    let x = bin(3, BinaryOp::Shl, yes(1), num(2, 1));
    assert_eq!(s.infer_expr(&facts, &site(), &x), Ty::Error);
    assert_eq!(
        s.reports(),
        list(vec![TypeError::IncompatibleOperand {
            expr: 1,
            op: Operator::Binary(BinaryOp::Shl),
            found: boolean(),
            other: Some(int_ty()),
        }])
    );
}
