use hir_ty::body::{
    Catch, Expr, ExprKind, LambdaBody, Local, Pattern, PatternKind, Stmt, StmtKind, UnaryOp,
};
use hir_ty::db::ClassInfo;
use hir_ty::facts::Facts;
use hir_ty::infer::candidate::{choose_among, CallResolution};
use hir_ty::infer::ctx::{InferCtx, Site};
use hir_ty::infer::diag::TypeError;
use hir_ty::infer::local::{condition_bindings, pattern_flow};
use hir_ty::inference::{Constraint, Inference, InvocationPhase, VarSupply};
use hir_ty::items::{TypeRef, TypeShape};
use hir_ty::list::{get_assoc, Data, List};
use hir_ty::member::{Access, ClassKey, InvocationContext, InvocationMode, MethodData};
use hir_ty::names::Name;
use hir_ty::ty::{lookup_var, PrimitiveType, Ty};

const CHECKED: Name = Name::Other(1);
const ACTION: Name = Name::Other(2);
const X: Name = Name::Other(3);
const V: Name = Name::Other(4);
const RUN: Name = Name::Other(5);

fn list<T>(v: Vec<T>) -> List<T> {
    List::from_vec(v)
}

fn class(n: Name) -> Ty {
    Ty::class(n)
}

fn void() -> Ty {
    Ty::Primitive(PrimitiveType::Void)
}

fn method(name: Name, params: Vec<Ty>, ret: Ty) -> MethodData {
    MethodData {
        name,
        owner: ClassKey::Named(ACTION),
        owner_file: None,
        decl_item: None,
        params: list(params),
        param_names: None,
        ret,
        throws: List::Nil,
        varargs: false,
        is_static: false,
        is_abstract: false,
        is_final: false,
        access: Access::Public,
        declaring_package: None,
        declaring_top_level: None,
        declaring_interface: false,
        type_params: List::Nil,
        raw_erased: false,
        descriptor: None,
    }
}

/// `ACTION` is a functional interface without parameters or exceptions.
fn world() -> Facts {
    let mut facts = Facts::new(1000);
    let library = ClassInfo::Library { arity: Some(0) };
    facts.classes = list(vec![
        (CHECKED, library),
        (ACTION, library),
        (Name::Object, library),
        (Name::String, library),
        (Name::Exception, library),
        (Name::Throwable, library),
    ]);
    facts.subtypes = list(vec![
        (class(CHECKED), class(Name::Exception)),
        (class(CHECKED), class(Name::Throwable)),
        (class(Name::Exception), class(Name::Throwable)),
        (class(Name::String), class(Name::Object)),
    ]);
    facts.methods =
        list(vec![((class(CHECKED), Name::Init), list(vec![method(Name::Init, vec![], void())]))]);
    facts.functions = list(vec![(class(ACTION), method(RUN, vec![], void()))]);
    facts
}

fn site() -> Site {
    Site {
        file: 0,
        item: 0,
        access: InvocationContext {
            enclosing_class: None,
            package: None,
            subclass_of: None,
            mode: InvocationMode::Virtual,
        },
        enclosing_class: None,
        enclosing_chain: List::Nil,
        static_context: false,
        in_constructor: false,
        init_ctx: None,
        forward_names: List::Nil,
    }
}

fn e(id: u32, kind: ExprKind) -> Expr {
    Expr { id, range: None, kind }
}

fn s(id: u32, kind: StmtKind) -> Stmt {
    Stmt { id, kind }
}

fn block(id: u32, l: Vec<Stmt>) -> Stmt {
    s(id, StmtKind::Block(Box::new(list(l))))
}

fn written(n: Name) -> TypeRef {
    TypeRef { shape: TypeShape::Named { name: n, args: Box::new(List::Nil) }, refs: List::Nil }
}

fn local(id: u32, n: Name, ty: Option<TypeRef>) -> Local {
    Local { id, name: n, ty, is_final: false, annotations: List::Nil }
}

fn throw_checked(id: u32) -> Stmt {
    let new = e(
        id + 100,
        ExprKind::New {
            ty: written(CHECKED),
            args: Box::new(List::Nil),
            diamond: false,
            anonymous: false,
            receiver: None,
        },
    );
    s(id, StmtKind::Throw(new))
}

fn run(l: Vec<Stmt>) -> InferCtx {
    let facts = world();
    let mut ctx = InferCtx::new(None, List::Nil, false, List::Nil);
    ctx.declare_params(&facts, &site(), &list(vec![local(90, X, Some(written(Name::Object)))]));
    ctx.infer_block_statements(&facts, &site(), &list(l), false);
    ctx.check_thrown_liability(&facts);
    ctx
}

#[test]
fn a_rethrown_parameter_throws_what_was_caught() {
    let rethrow = s(7, StmtKind::Throw(e(8, ExprKind::Var(V))));
    let ctx = run(vec![s(
        1,
        StmtKind::Try {
            resources: List::Nil,
            body: Box::new(block(2, vec![throw_checked(3)])),
            catches: Box::new(list(vec![Catch {
                param: local(4, V, Some(written(Name::Exception))),
                param_types: List::Nil,
                body: block(6, vec![rethrow]),
            }])),
            finally_block: None,
        },
    )]);
    assert_eq!(
        ctx.reports(),
        list(vec![TypeError::UnreportedException { expr: 8, thrown: class(CHECKED) }])
    );
}

#[test]
fn the_liability_of_a_lambda_stays_in_it() {
    let lambda = e(
        20,
        ExprKind::Lambda {
            params: List::Nil,
            body: LambdaBody::Block(Box::new(block(21, vec![throw_checked(22)]))),
        },
    );
    let ctx = run(vec![s(
        1,
        StmtKind::Decl {
            local: local(1, V, Some(written(ACTION))),
            initializer: Some(lambda),
        },
    )]);
    assert!(ctx.thrown.is_empty());
    assert!(!ctx.exited);
    assert_eq!(
        ctx.reports(),
        list(vec![TypeError::UnreportedException { expr: 122, thrown: class(CHECKED) }])
    );
}

fn is_text(id: u32, binding: u32) -> Expr {
    e(
        id,
        ExprKind::InstanceOf {
            expr: Box::new(e(id + 1, ExprKind::Var(X))),
            pattern: Some(Box::new(Pattern {
                id: id + 2,
                kind: PatternKind::Type {
                    ty: written(Name::String),
                    binding: Some(local(binding, V, Some(written(Name::String)))),
                },
            })),
            ty: None,
        },
    )
}

fn not(id: u32, x: Expr) -> Expr {
    e(id, ExprKind::Unary { op: UnaryOp::Not, expr: Box::new(x) })
}

#[test]
fn negation_swaps_what_is_bound() {
    let (when_true, when_false) = condition_bindings(&is_text(10, 5));
    assert!(!when_true.is_empty());
    assert!(when_false.is_empty());
    let (negated_true, negated_false) = condition_bindings(&not(9, is_text(10, 5)));
    assert_eq!(negated_true, when_false);
    assert_eq!(negated_false, when_true);
    assert_eq!(
        condition_bindings(&not(8, not(9, is_text(10, 5)))),
        condition_bindings(&is_text(10, 5))
    );
    assert_eq!(pattern_flow(&e(1, ExprKind::Null)), None);
}

#[test]
fn a_binding_stays_behind_a_negated_test() {
    let ctx = run(vec![
        s(
            1,
            StmtKind::If {
                cond: not(9, is_text(10, 5)),
                then_arm: Box::new(s(2, StmtKind::Return(None))),
                else_arm: None,
            },
        ),
        s(3, StmtKind::Expr(e(30, ExprKind::Var(V)))),
    ]);
    assert_eq!(get_assoc(&ctx.types, &30), Some(class(Name::String)));
    assert_eq!(ctx.reports(), List::Nil);
}

#[test]
fn a_selection_is_one_of_the_candidates() {
    let facts = world();
    let m = method(RUN, vec![class(Name::String)], void());
    assert_eq!(choose_among(&facts, 0, &List::Nil, false), CallResolution::Missing);
    assert_eq!(
        choose_among(&facts, 0, &list(vec![(m.copy(), m.copy())]), true),
        CallResolution::Selected { candidate: m.copy(), invocation: m.copy(), varargs: true }
    );
    let other = method(RUN, vec![class(CHECKED)], void());
    let two = list(vec![(m.copy(), m.copy()), (other.copy(), other.copy())]);
    assert_eq!(
        choose_among(&facts, 0, &two, false),
        CallResolution::Ambiguous(list(vec![m, other]))
    );
}

fn solve(limit: u64) -> Option<Ty> {
    let mut facts = world();
    facts.limit = limit;
    let mut table = Inference::new();
    let mut supply = VarSupply { next: 0 };
    table.fresh_var(&mut supply);
    let constraints = list(vec![
        Constraint::Sub(class(CHECKED), Ty::InferenceVar(0)),
        Constraint::Sub(Ty::InferenceVar(0), class(Name::Throwable)),
    ]);
    let map = table.solve(&facts, InvocationPhase::Loose, constraints)?;
    lookup_var(&map, 0)
}

#[test]
fn more_steps_change_no_solution() {
    assert_eq!(solve(0), None);
    assert_eq!(solve(100), Some(class(CHECKED)));
    assert_eq!(solve(100), solve(100000));
}

#[test]
fn a_type_is_a_subtype_of_itself() {
    let facts = world();
    let types = vec![
        class(CHECKED),
        Ty::array(class(Name::String)),
        Ty::reference(ACTION, list(vec![class(CHECKED)])),
        Ty::Primitive(PrimitiveType::Int),
    ];
    for t in &types {
        let mut table = Inference::new();
        assert!(table.reduce_sub(&facts, InvocationPhase::Strict, t, t));
        assert_eq!(table, Inference::new());
    }
}

#[test]
fn consistent_bounds_agree() {
    let facts = world();
    let mut table = Inference::new();
    let mut supply = VarSupply { next: 0 };
    table.fresh_var(&mut supply);
    table.add_constraint(Constraint::Sub(class(CHECKED), Ty::InferenceVar(0)));
    table.add_constraint(Constraint::Sub(Ty::InferenceVar(0), class(Name::Exception)));
    assert!(table.check_consistent(&facts, InvocationPhase::Loose));
    table.add_constraint(Constraint::Sub(class(Name::String), Ty::InferenceVar(0)));
    assert!(!table.check_consistent(&facts, InvocationPhase::Loose));
}
