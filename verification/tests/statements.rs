use hir_ty::body::{
    AssignOp, Catch, Expr, ExprKind, LambdaBody, LambdaParam, Literal, Local, Stmt, StmtKind,
};
use hir_ty::db::ClassInfo;
use hir_ty::facts::Facts;
use hir_ty::infer::ctx::{InferCtx, Site};
use hir_ty::infer::diag::TypeError;
use hir_ty::infer::flow::{joined, joined_live, Flow};
use hir_ty::items::{TextRange, TypeRef, TypeShape};
use hir_ty::list::{get_assoc, List};
use hir_ty::member::{Access, ClassKey, InvocationContext, InvocationMode, MethodData};
use hir_ty::names::Name;
use hir_ty::ty::{PrimitiveType, Ty};

const FUNCTION: Name = Name::Other(1);
const CHECKED: Name = Name::Other(2);
const X: Name = Name::Other(6);
const Y: Name = Name::Other(7);
const LABEL: Name = Name::Other(8);
const APPLY: Name = Name::Other(9);

fn list<T>(v: Vec<T>) -> List<T> {
    List::from_vec(v)
}

fn class(n: Name) -> Ty {
    Ty::class(n)
}

fn int_ty() -> Ty {
    Ty::Primitive(PrimitiveType::Int)
}

fn boolean() -> Ty {
    Ty::Primitive(PrimitiveType::Boolean)
}

/// `CHECKED` is a checked exception with a constructor; `FUNCTION` takes a
/// `String` to an `int`.
fn world() -> Facts {
    let mut facts = Facts::new(1000);
    let library = ClassInfo::Library { arity: Some(0) };
    facts.classes = list(vec![
        (FUNCTION, library),
        (CHECKED, library),
        (Name::Object, library),
        (Name::String, library),
        (Name::Exception, library),
        (Name::RuntimeException, library),
        (Name::Throwable, library),
    ]);
    facts.subtypes = list(vec![
        (class(CHECKED), class(Name::Exception)),
        (class(CHECKED), class(Name::Throwable)),
        (class(Name::Exception), class(Name::Throwable)),
        (class(Name::RuntimeException), class(Name::Exception)),
        (class(Name::RuntimeException), class(Name::Throwable)),
        (class(Name::String), class(Name::Object)),
    ]);
    facts.methods = list(vec![
        ((class(CHECKED), Name::Init), list(vec![method(Name::Init, vec![], int_ty())])),
        (
            (class(Name::RuntimeException), Name::Init),
            list(vec![method(Name::Init, vec![], int_ty())]),
        ),
    ]);
    facts.functions =
        list(vec![(class(FUNCTION), method(APPLY, vec![class(Name::String)], int_ty()))]);
    facts
}

fn method(name: Name, params: Vec<Ty>, ret: Ty) -> MethodData {
    MethodData {
        name,
        owner: ClassKey::Named(FUNCTION),
        owner_file: None,
        decl_item: None,
        params: list(params),
        param_names: None,
        ret,
        throws: List::Nil,
        varargs: false,
        is_static: false,
        is_abstract: false,
        is_final: false,
        access: Access::Public,
        declaring_package: None,
        declaring_top_level: None,
        declaring_interface: false,
        type_params: List::Nil,
        raw_erased: false,
        descriptor: None,
    }
}

fn site() -> Site {
    Site {
        file: 0,
        item: 0,
        access: InvocationContext {
            enclosing_class: None,
            package: None,
            subclass_of: None,
            mode: InvocationMode::Virtual,
        },
        enclosing_class: None,
        enclosing_chain: List::Nil,
        static_context: false,
        in_constructor: false,
        init_ctx: None,
        forward_names: List::Nil,
    }
}

fn e(id: u32, kind: ExprKind) -> Expr {
    Expr { id, range: None, kind }
}

fn num(id: u32) -> Expr {
    e(id, ExprKind::Literal(Literal::Int(1)))
}

fn text(id: u32) -> Expr {
    e(id, ExprKind::Literal(Literal::Str(Name::Empty)))
}

fn flag(id: u32, b: bool) -> Expr {
    e(id, ExprKind::Literal(Literal::Boolean(b)))
}

fn name(id: u32, n: Name) -> Expr {
    e(id, ExprKind::Var(n))
}

fn s(id: u32, kind: StmtKind) -> Stmt {
    Stmt { id, kind }
}

fn block(id: u32, l: Vec<Stmt>) -> Stmt {
    s(id, StmtKind::Block(Box::new(list(l))))
}

fn written(n: Name) -> TypeRef {
    TypeRef { shape: TypeShape::Named { name: n, args: Box::new(List::Nil) }, refs: List::Nil }
}

fn int_ref() -> TypeRef {
    TypeRef { shape: TypeShape::Primitive(PrimitiveType::Int), refs: List::Nil }
}

fn local(id: u32, n: Name, ty: Option<TypeRef>) -> Local {
    Local { id, name: n, ty, is_final: false, annotations: List::Nil }
}

fn decl(id: u32, l: Local, initializer: Option<Expr>) -> Stmt {
    s(id, StmtKind::Decl { local: l, initializer })
}

fn assign(id: u32, n: Name, value: Expr) -> Stmt {
    let lhs = name(id + 1000, n);
    s(
        id,
        StmtKind::Expr(e(
            id + 2000,
            ExprKind::Assign { op: AssignOp::Assign, lhs: Box::new(lhs), rhs: Box::new(value) },
        )),
    )
}

fn new(id: u32, n: Name) -> Expr {
    e(
        id,
        ExprKind::New {
            ty: written(n),
            args: Box::new(List::Nil),
            diamond: false,
            anonymous: false,
            receiver: None,
        },
    )
}

fn run_in(mut ctx: InferCtx, l: Vec<Stmt>) -> InferCtx {
    let facts = world();
    ctx.infer_block_statements(&facts, &site(), &list(l), false);
    ctx.check_thrown_liability(&facts);
    ctx
}

fn run(l: Vec<Stmt>) -> InferCtx {
    run_in(InferCtx::new(None, List::Nil, false, List::Nil), l)
}

fn reports(l: Vec<Stmt>) -> List<TypeError> {
    run(l).reports()
}

#[test]
fn a_declaration_takes_its_value() {
    let ctx = run(vec![
        decl(1, local(1, X, Some(int_ref())), Some(num(10))),
        s(2, StmtKind::Expr(name(11, X))),
    ]);
    assert_eq!(get_assoc(&ctx.types, &11), Some(int_ty()));
    assert_eq!(ctx.reports(), List::Nil);
}

#[test]
fn a_declared_variable_needs_a_conversion() {
    assert_eq!(
        reports(vec![decl(1, local(1, X, Some(int_ref())), Some(text(10)))]),
        list(vec![TypeError::IncompatibleTypes {
            expr: 10,
            found: class(Name::String),
            expected: int_ty(),
        }])
    );
}

#[test]
fn var_takes_the_type_of_its_value() {
    let ctx = run(vec![
        decl(1, local(1, X, None), Some(text(10))),
        s(2, StmtKind::Expr(name(11, X))),
    ]);
    assert_eq!(get_assoc(&ctx.types, &11), Some(class(Name::String)));
    assert_eq!(
        reports(vec![decl(1, local(1, X, None), None)]),
        list(vec![TypeError::VarWithoutInitializer { local: 1 }])
    );
    assert_eq!(
        reports(vec![decl(
            1,
            local(1, X, None),
            Some(e(10, ExprKind::ArrayInit(Box::new(List::Nil)))),
        )]),
        list(vec![TypeError::VarArrayInitializer { local: 1 }])
    );
}

#[test]
fn both_arms_give_a_value() {
    let choice = |other: Option<Stmt>| {
        vec![
            decl(1, local(1, X, Some(int_ref())), None),
            s(
                2,
                StmtKind::If {
                    cond: name(20, Y),
                    then_arm: Box::new(assign(3, X, num(30))),
                    else_arm: other.map(Box::new),
                },
            ),
            s(5, StmtKind::Expr(name(11, X))),
        ]
    };
    let facts = world();
    let with_flag = || {
        let mut ctx = InferCtx::new(None, List::Nil, false, List::Nil);
        let ty = TypeRef {
            shape: TypeShape::Primitive(PrimitiveType::Boolean),
            refs: List::Nil,
        };
        ctx.declare_params(&facts, &site(), &list(vec![local(9, Y, Some(ty))]));
        ctx
    };
    let full = run_in(with_flag(), choice(Some(assign(4, X, num(40)))));
    assert_eq!(full.reports(), List::Nil);
    let half = run_in(with_flag(), choice(None));
    assert_eq!(
        half.reports(),
        list(vec![TypeError::NotDefinitelyAssigned { expr: 11, name: X }])
    );
}

#[test]
fn a_condition_is_boolean() {
    assert_eq!(
        reports(vec![s(
            1,
            StmtKind::If {
                cond: num(10),
                then_arm: Box::new(s(2, StmtKind::Empty)),
                else_arm: None,
            },
        )]),
        list(vec![TypeError::NonBooleanCondition { expr: 10, found: int_ty() }])
    );
}

#[test]
fn nothing_follows_a_return() {
    let ctx = run(vec![
        s(1, StmtKind::Return(None)),
        s(2, StmtKind::Empty),
        s(3, StmtKind::Empty),
    ]);
    assert!(ctx.exited);
    assert_eq!(ctx.reports(), list(vec![TypeError::UnreachableStatement { stmt: 2 }]));
}

#[test]
fn an_endless_loop_is_left_by_a_break() {
    let ctx = run(vec![
        decl(1, local(1, X, Some(int_ref())), None),
        s(
            2,
            StmtKind::While {
                cond: flag(20, true),
                body: Box::new(block(
                    3,
                    vec![assign(4, X, num(40)), s(5, StmtKind::Break(None))],
                )),
            },
        ),
        s(6, StmtKind::Expr(name(11, X))),
    ]);
    assert_eq!(ctx.reports(), List::Nil);
}

#[test]
fn a_body_may_not_run() {
    let ctx = run_in(
        {
            let facts = world();
            let mut ctx = InferCtx::new(None, List::Nil, false, List::Nil);
            let ty = TypeRef {
                shape: TypeShape::Primitive(PrimitiveType::Boolean),
                refs: List::Nil,
            };
            ctx.declare_params(&facts, &site(), &list(vec![local(9, Y, Some(ty))]));
            ctx
        },
        vec![
            decl(1, local(1, X, Some(int_ref())), None),
            s(
                2,
                StmtKind::While { cond: name(20, Y), body: Box::new(assign(4, X, num(40))) },
            ),
            s(6, StmtKind::Expr(name(11, X))),
        ],
    );
    assert_eq!(
        ctx.reports(),
        list(vec![TypeError::NotDefinitelyAssigned { expr: 11, name: X }])
    );
}

#[test]
fn jumps_need_their_targets() {
    assert_eq!(
        reports(vec![s(1, StmtKind::Break(None))]),
        list(vec![TypeError::BreakOutsideSwitchOrLoop { stmt: 1 }])
    );
    assert_eq!(
        reports(vec![s(1, StmtKind::Continue(None))]),
        list(vec![TypeError::ContinueOutsideLoop { stmt: 1 }])
    );
    assert_eq!(
        reports(vec![s(1, StmtKind::Break(Some(LABEL)))]),
        list(vec![TypeError::UndefinedLabel { stmt: 1, label: LABEL }])
    );
    assert_eq!(
        reports(vec![s(
            1,
            StmtKind::Labeled {
                label: LABEL,
                stmt: Box::new(block(2, vec![s(3, StmtKind::Continue(Some(LABEL)))])),
            },
        )]),
        list(vec![TypeError::NotALoopLabel { stmt: 3, label: LABEL }])
    );
}

#[test]
fn a_for_each_needs_something_iterable() {
    let each = |iterable: Expr| {
        s(
            1,
            StmtKind::ForEach {
                var: local(1, X, None),
                iterable,
                body: Box::new(s(2, StmtKind::Empty)),
            },
        )
    };
    assert_eq!(
        reports(vec![each(num(10))]),
        list(vec![TypeError::NonIterableForEach { expr: 10, found: int_ty() }])
    );
    let array = e(
        10,
        ExprKind::NewArray {
            ty: int_ref(),
            dims: Box::new(list(vec![num(11)])),
            initializer: None,
        },
    );
    let ctx = run(vec![each(array)]);
    assert_eq!(get_assoc(&ctx.locals, &1), Some(int_ty()));
    assert_eq!(ctx.reports(), List::Nil);
}

#[test]
fn a_checked_exception_is_declared_or_caught() {
    let throw = || s(1, StmtKind::Throw(new(10, CHECKED)));
    let ctx = run(vec![throw()]);
    assert!(ctx.exited);
    match ctx.reports() {
        List::Cons(first, rest) => {
            assert!(rest.is_empty());
            assert!(matches!(
                *first,
                TypeError::UnreportedException { thrown: ref t, .. } if *t == class(CHECKED)
            ));
        }
        List::Nil => panic!("the exception is reported"),
    }
    let declared = InferCtx::new(None, list(vec![class(CHECKED)]), false, List::Nil);
    assert_eq!(run_in(declared, vec![throw()]).reports(), List::Nil);
    assert_eq!(
        reports(vec![s(1, StmtKind::Throw(new(10, Name::RuntimeException)))]),
        List::Nil
    );
}

fn clause(id: u32, n: Name, body: Vec<Stmt>) -> Catch {
    Catch {
        param: local(id, Name::Other(100 + id), Some(written(n))),
        param_types: list(vec![written(n)]),
        body: block(id + 500, body),
    }
}

fn attempt(body: Vec<Stmt>, catches: Vec<Catch>, finally: Option<Stmt>) -> Stmt {
    s(
        1,
        StmtKind::Try {
            resources: List::Nil,
            body: Box::new(block(2, body)),
            catches: Box::new(list(catches)),
            finally_block: finally.map(Box::new),
        },
    )
}

#[test]
fn a_caught_exception_is_no_liability() {
    let throw = s(3, StmtKind::Throw(new(10, CHECKED)));
    assert_eq!(reports(vec![attempt(vec![throw], vec![clause(5, CHECKED, vec![])], None)]), List::Nil);
}

#[test]
fn what_is_never_thrown_is_not_caught() {
    assert_eq!(
        reports(vec![attempt(vec![], vec![clause(5, CHECKED, vec![])], None)]),
        list(vec![TypeError::CatchNeverThrown { local: 5, caught: class(CHECKED) }])
    );
    assert_eq!(
        reports(vec![attempt(vec![], vec![clause(5, Name::Exception, vec![])], None)]),
        List::Nil
    );
}

#[test]
fn an_exception_is_caught_once() {
    let throw = s(3, StmtKind::Throw(new(10, CHECKED)));
    assert_eq!(
        reports(vec![attempt(
            vec![throw],
            vec![clause(5, Name::Exception, vec![]), clause(6, CHECKED, vec![])],
            None,
        )]),
        list(vec![TypeError::AlreadyCaught { local: 6, caught: list(vec![class(CHECKED)]) }])
    );
}

#[test]
fn a_finally_block_does_not_bring_back_the_end() {
    let ctx = run(vec![attempt(
        vec![s(3, StmtKind::Return(None))],
        vec![],
        Some(block(7, vec![s(8, StmtKind::Empty)])),
    )]);
    assert!(ctx.exited);
    let exiting = run(vec![attempt(
        vec![s(3, StmtKind::Empty)],
        vec![],
        Some(block(7, vec![s(8, StmtKind::Return(None))])),
    )]);
    assert!(exiting.exited);
}

#[test]
fn a_returned_value_has_the_type_of_the_method() {
    let ret = |x: Expr| vec![s(1, StmtKind::Return(Some(x)))];
    let ctx = InferCtx::new(Some(int_ty()), List::Nil, false, List::Nil);
    assert_eq!(run_in(ctx, ret(num(10))).reports(), List::Nil);
    let ctx = InferCtx::new(Some(int_ty()), List::Nil, false, List::Nil);
    assert_eq!(
        run_in(ctx, ret(text(10))).reports(),
        list(vec![TypeError::IncompatibleTypes {
            expr: 10,
            found: class(Name::String),
            expected: int_ty(),
        }])
    );
}

fn lambda(id: u32, params: Vec<Name>, body: Expr) -> Expr {
    e(
        id,
        ExprKind::Lambda {
            params: list(
                params
                    .into_iter()
                    .map(|name| LambdaParam {
                        name,
                        ty: None,
                        range: TextRange { start: 0, end: 1 },
                        annotations: List::Nil,
                    })
                    .collect(),
            ),
            body: LambdaBody::Expr(Box::new(body)),
        },
    )
}

fn function_from(value: Expr) -> Vec<Stmt> {
    vec![decl(1, local(1, X, Some(written(FUNCTION))), Some(value))]
}

#[test]
fn a_lambda_takes_the_type_of_its_target() {
    let ctx = run(function_from(lambda(10, vec![Y], num(11))));
    assert_eq!(get_assoc(&ctx.types, &10), Some(class(FUNCTION)));
    assert_eq!(ctx.reports(), List::Nil);
}

#[test]
fn a_lambda_parameter_has_the_type_of_the_function() {
    let ctx = run(function_from(lambda(10, vec![Y], name(11, Y))));
    assert_eq!(get_assoc(&ctx.types, &11), Some(class(Name::String)));
    assert!(ctx.lambda_params.is_empty());
    assert!(ctx.lambda_returns.is_empty());
}

#[test]
fn only_a_functional_interface_is_a_target() {
    let ctx = run(vec![decl(
        1,
        local(1, X, Some(written(Name::String))),
        Some(lambda(10, vec![], num(11))),
    )]);
    assert_eq!(
        ctx.reports(),
        list(vec![TypeError::NotAFunctionalInterface { expr: 10, target: class(Name::String) }])
    );
}

#[test]
fn a_lambda_parameter_is_no_local_again() {
    let ctx = run(vec![
        decl(1, local(1, Y, Some(int_ref())), Some(num(9))),
        decl(2, local(2, X, Some(written(FUNCTION))), Some(lambda(10, vec![Y], num(11)))),
    ]);
    assert_eq!(
        ctx.reports(),
        list(vec![TypeError::LambdaParameterAlreadyDefined {
            lambda: 10,
            name: Y,
            range: TextRange { start: 0, end: 1 },
        }])
    );
}

fn flow(definite: Vec<u32>) -> Flow {
    Flow { definite: list(definite), touched: List::Nil }
}

#[test]
fn a_join_keeps_what_both_paths_know() {
    let both = flow(vec![1, 2, 3]).join_definite(&flow(vec![2, 3, 4]));
    assert!(both.definite.contains(&2));
    assert!(both.definite.contains(&3));
    assert!(!both.definite.contains(&1));
    assert!(!both.definite.contains(&4));
    assert_eq!(joined(&List::Nil), None);
    assert_eq!(joined(&list(vec![flow(vec![5])])), Some(flow(vec![5])));
}

#[test]
fn a_path_that_ended_is_not_joined() {
    let paths = list(vec![(flow(vec![]), true), (flow(vec![7]), false)]);
    assert_eq!(joined_live(&paths), Some(flow(vec![7])));
    assert_eq!(joined_live(&list(vec![(flow(vec![7]), true)])), None);
}

#[test]
fn a_value_is_set_and_unset() {
    let set = flow(vec![]).insert(3);
    assert!(set.definite.contains(&3));
    assert!(!set.remove(3).definite.contains(&3));
    assert_eq!(set.insert(3), set.insert(3).insert(3));
}

#[test]
fn a_boolean_condition_is_accepted() {
    let facts = world();
    let mut ctx = InferCtx::new(None, List::Nil, false, List::Nil);
    ctx.check_condition(&facts, &site(), &flag(1, true));
    assert_eq!(get_assoc(&ctx.types, &1), Some(boolean()));
    assert_eq!(ctx.const_bool(&facts, &flag(1, true)), Some(true));
    assert_eq!(ctx.reports(), List::Nil);
}
