use hir_ty::body::{
    AssignOp, Body, Expr, ExprKind, LambdaBody, LambdaParam, Literal, Local, Stmt, StmtKind,
    UnaryOp,
};
use hir_ty::effectively_final::{captured_not_final, effective_final_scan, Capture};
use hir_ty::items::{RefName, TextRange, TypeRef, TypeShape};
use hir_ty::list::List;
use hir_ty::names::Name;
use hir_ty::walk::{body_type_refs, walk_expr, DiagLocation};

const X: Name = Name::Other(1);
const Y: Name = Name::Other(2);
const T: Name = Name::Other(3);

fn list<T>(v: Vec<T>) -> List<T> {
    List::from_vec(v)
}

fn e(id: u32, kind: ExprKind) -> Expr {
    Expr { id, range: None, kind }
}

fn num(id: u32) -> Expr {
    e(id, ExprKind::Literal(Literal::Int(1)))
}

fn name(id: u32, n: Name) -> Expr {
    e(id, ExprKind::Var(n))
}

fn s(kind: StmtKind) -> Stmt {
    Stmt { id: 0, kind }
}

fn block(l: Vec<Stmt>) -> Stmt {
    s(StmtKind::Block(Box::new(list(l))))
}

fn local(id: u32, n: Name) -> Local {
    Local { id, name: n, ty: None, is_final: false, annotations: List::Nil }
}

fn decl(id: u32, n: Name, initializer: Option<Expr>) -> Stmt {
    s(StmtKind::Decl { local: local(id, n), initializer })
}

fn assign(n: Name, op: AssignOp) -> Stmt {
    s(StmtKind::Expr(e(
        90,
        ExprKind::Assign { op, lhs: Box::new(name(91, n)), rhs: Box::new(num(92)) },
    )))
}

fn lambda(id: u32, params: Vec<Name>, body: Expr) -> Expr {
    e(
        id,
        ExprKind::Lambda {
            params: list(
                params
                    .into_iter()
                    .map(|name| LambdaParam {
                        name,
                        ty: None,
                        range: TextRange { start: 0, end: 0 },
                        annotations: List::Nil,
                    })
                    .collect(),
            ),
            body: LambdaBody::Expr(Box::new(body)),
        },
    )
}

fn run(body: Expr) -> Stmt {
    s(StmtKind::Expr(body))
}

fn body(params: Vec<Local>, stmts: Vec<Stmt>) -> Body {
    Body { params: list(params), stmts: list(stmts) }
}

fn capture(id: u32, n: Name, expr: u32) -> Capture {
    Capture { local: id, name: n, expr }
}

#[test]
fn a_variable_that_keeps_its_value_is_effectively_final() {
    let b = body(
        vec![],
        vec![decl(1, X, Some(num(5))), run(lambda(10, vec![], name(11, X)))],
    );
    let (mutated, captures) = effective_final_scan(&b);
    assert!(mutated.is_empty());
    assert_eq!(captures, list(vec![capture(1, X, 11)]));
    assert_eq!(captured_not_final(&b), List::Nil);
}

#[test]
fn a_variable_that_is_assigned_again_is_not() {
    let b = body(
        vec![],
        vec![
            decl(1, X, Some(num(5))),
            run(lambda(10, vec![], name(11, X))),
            assign(X, AssignOp::Assign),
        ],
    );
    let (mutated, _) = effective_final_scan(&b);
    assert!(mutated.contains(&1));
    assert_eq!(mutated.len(), 1);
    assert_eq!(captured_not_final(&b), list(vec![capture(1, X, 11)]));
}

#[test]
fn the_first_assignment_gives_a_blank_variable_its_value() {
    let once = body(
        vec![],
        vec![
            decl(1, X, None),
            assign(X, AssignOp::Assign),
            run(lambda(10, vec![], name(11, X))),
        ],
    );
    assert_eq!(captured_not_final(&once), List::Nil);
    let twice = body(
        vec![],
        vec![
            decl(1, X, None),
            assign(X, AssignOp::Assign),
            assign(X, AssignOp::Assign),
            run(lambda(10, vec![], name(11, X))),
        ],
    );
    assert_eq!(captured_not_final(&twice), list(vec![capture(1, X, 11)]));
}

#[test]
fn the_arms_of_an_if_are_alternatives() {
    let arm = || Box::new(block(vec![assign(X, AssignOp::Assign)]));
    let b = body(
        vec![],
        vec![
            decl(1, X, None),
            s(StmtKind::If { cond: num(3), then_arm: arm(), else_arm: Some(arm()) }),
            run(lambda(10, vec![], name(11, X))),
        ],
    );
    assert_eq!(captured_not_final(&b), List::Nil);
    let after = body(
        vec![],
        vec![
            decl(1, X, None),
            assign(X, AssignOp::Assign),
            s(StmtKind::If { cond: num(3), then_arm: arm(), else_arm: None }),
            run(lambda(10, vec![], name(11, X))),
        ],
    );
    assert_eq!(captured_not_final(&after), list(vec![capture(1, X, 11)]));
}

#[test]
fn reading_and_writing_counts_as_assigning_again() {
    let increments = vec![
        e(7, ExprKind::Unary { op: UnaryOp::Inc, expr: Box::new(name(8, X)) }),
        e(7, ExprKind::Postfix { expr: Box::new(name(8, X)) }),
    ];
    for x in increments {
        let b = body(vec![local(1, X)], vec![run(x)]);
        assert!(effective_final_scan(&b).0.contains(&1));
    }
    let b = body(vec![], vec![decl(1, X, None), assign(X, AssignOp::Compound)]);
    assert!(effective_final_scan(&b).0.contains(&1));
    let minus = e(7, ExprKind::Unary { op: UnaryOp::Minus, expr: Box::new(name(8, X)) });
    let read = body(vec![local(1, X)], vec![run(minus)]);
    assert!(effective_final_scan(&read).0.is_empty());
}

#[test]
fn a_parameter_has_a_value_from_the_start() {
    let b = body(vec![local(1, X)], vec![assign(X, AssignOp::Assign)]);
    assert!(effective_final_scan(&b).0.contains(&1));
}

#[test]
fn a_lambda_parameter_is_not_captured() {
    let b = body(
        vec![local(1, X)],
        vec![assign(X, AssignOp::Assign), run(lambda(10, vec![Y], name(11, Y)))],
    );
    assert_eq!(effective_final_scan(&b).1, List::Nil);
}

#[test]
fn names_in_different_blocks_are_different_variables() {
    let b = body(
        vec![],
        vec![
            block(vec![decl(1, X, Some(num(5))), run(lambda(10, vec![], name(11, X)))]),
            block(vec![decl(2, X, Some(num(6))), assign(X, AssignOp::Assign)]),
        ],
    );
    let (mutated, captures) = effective_final_scan(&b);
    assert!(mutated.contains(&2));
    assert!(!mutated.contains(&1));
    assert_eq!(captures, list(vec![capture(1, X, 11)]));
    assert_eq!(captured_not_final(&b), List::Nil);
}

fn written() -> TypeRef {
    TypeRef {
        shape: TypeShape::Named { name: T, args: Box::new(List::Nil) },
        refs: list(vec![RefName { name: T, range: Some(TextRange { start: 3, end: 4 }) }]),
    }
}

#[test]
fn written_types_are_found_in_order() {
    let cast = e(5, ExprKind::Cast { ty: written(), expr: Box::new(num(6)) });
    assert_eq!(walk_expr(&cast), list(vec![(DiagLocation::Expr(5), written())]));
    assert_eq!(walk_expr(&num(6)), List::Nil);
    let typed = Stmt {
        id: 0,
        kind: StmtKind::Decl {
            local: Local {
                id: 8,
                name: X,
                ty: Some(written()),
                is_final: false,
                annotations: List::Nil,
            },
            initializer: Some(e(5, ExprKind::ClassLit(written()))),
        },
    };
    let b = body(vec![], vec![typed, run(e(7, ExprKind::ClassLit(written())))]);
    assert_eq!(
        body_type_refs(&b),
        list(vec![
            (DiagLocation::Local(8), written()),
            (DiagLocation::Expr(5), written()),
            (DiagLocation::Expr(7), written()),
        ])
    );
}
