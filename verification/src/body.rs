//! The bodies of methods and initializers: expressions, statements and
//! patterns. Every node carries a number by which it is referred to.
use crate::items::{RefName, TextRange, TypeRef};
use crate::list::List;
use crate::names::Name;
use vstd::prelude::*;

verus! {

/// A literal.
#[derive(Clone, Copy, Debug, PartialEq, Eq)]
pub enum Literal {
    Int(i64),
    Long(i64),
    Char(u32),
    Float,
    Double,
    Boolean(bool),
    Str(Name),
}

/// The value of a constant expression.
#[derive(Clone, Copy, Debug, PartialEq, Eq, Structural)]
pub enum Const {
    Int(i64),
    Bool(bool),
    Str(Name),
}

#[derive(Clone, Copy, Debug, PartialEq, Eq, Structural)]
pub enum UnaryOp {
    Plus,
    Minus,
    BitNot,
    Not,
    Inc,
    Dec,
}

#[derive(Clone, Copy, Debug, PartialEq, Eq, Structural)]
pub enum BinaryOp {
    Mul,
    Div,
    Rem,
    Add,
    Sub,
    Shl,
    Shr,
    UShr,
    Lt,
    Gt,
    Le,
    Ge,
    Eq,
    Ne,
    BitAnd,
    BitXor,
    BitOr,
    And,
    Or,
}

/// Whether an assignment is plain, or combines with the old value.
#[derive(Clone, Copy, Debug, PartialEq, Eq, Structural)]
pub enum AssignOp {
    Assign,
    Compound,
}

/// Which constructor an explicit constructor call names.
#[derive(Clone, Copy, Debug, PartialEq, Eq, Structural)]
pub enum CtorCallTarget {
    This,
    Super,
}

/// A variable that a body declares. A variable without a written type is
/// declared with `var`.
#[derive(Debug, PartialEq, Eq)]
pub struct Local {
    pub id: u32,
    pub name: Name,
    pub ty: Option<TypeRef>,
    pub is_final: bool,
    pub annotations: List<RefName>,
}

/// A parameter of a lambda.
#[derive(Debug, PartialEq, Eq)]
pub struct LambdaParam {
    pub name: Name,
    pub ty: Option<TypeRef>,
    pub range: TextRange,
    pub annotations: List<RefName>,
}

#[derive(Debug, PartialEq, Eq)]
pub enum LambdaBody {
    Expr(Box<Expr>),
    Block(Box<Stmt>),
}

/// An expression.
#[derive(Debug, PartialEq, Eq)]
pub struct Expr {
    pub id: u32,
    pub range: Option<TextRange>,
    pub kind: ExprKind,
}

#[allow(inconsistent_fields)]
#[derive(Debug, PartialEq, Eq)]
pub enum ExprKind {
    Literal(Literal),
    Null,
    This { qualifier: Option<TypeRef> },
    Super { qualifier: Option<TypeRef> },
    ClassLit(TypeRef),
    /// A simple name.
    Var(Name),
    /// A dotted name by its segments, first to last.
    NamePath(List<Name>),
    FieldAccess { target: Option<Box<Expr>>, name: Name },
    ArrayAccess { array: Box<Expr>, index: Box<Expr> },
    MethodCall {
        receiver: Option<Box<Expr>>,
        name: Name,
        type_args: List<TypeRef>,
        args: Box<List<Expr>>,
    },
    CtorCall { args: Box<List<Expr>>, target: CtorCallTarget },
    New {
        ty: TypeRef,
        args: Box<List<Expr>>,
        diamond: bool,
        /// Whether a class body follows.
        anonymous: bool,
        receiver: Option<Box<Expr>>,
    },
    NewArray { ty: TypeRef, dims: Box<List<Expr>>, initializer: Option<Box<List<Expr>>> },
    ArrayInit(Box<List<Expr>>),
    Unary { op: UnaryOp, expr: Box<Expr> },
    Postfix { expr: Box<Expr> },
    Binary { op: BinaryOp, lhs: Box<Expr>, rhs: Box<Expr> },
    Assign { op: AssignOp, lhs: Box<Expr>, rhs: Box<Expr> },
    Cast { ty: TypeRef, expr: Box<Expr> },
    InstanceOf { expr: Box<Expr>, pattern: Option<Box<Pattern>>, ty: Option<TypeRef> },
    Conditional { cond: Box<Expr>, then_arm: Box<Expr>, else_arm: Box<Expr> },
    Lambda { params: List<LambdaParam>, body: LambdaBody },
    /// A method reference, or without a name a constructor reference.
    MethodRef { qualifier: Option<Box<Expr>>, named: Option<TypeRef>, name: Option<Name> },
    Switch { scrutinee: Box<Expr>, arms: Box<List<SwitchArm>> },
    Paren(Box<Expr>),
    /// A string template.
    Template { args: Box<List<Expr>> },
    Missing,
}

/// A pattern.
#[derive(Debug, PartialEq, Eq)]
pub struct Pattern {
    pub id: u32,
    pub kind: PatternKind,
}

#[derive(Debug, PartialEq, Eq)]
pub enum PatternKind {
    Type { ty: TypeRef, binding: Option<Local> },
    Record { ty: TypeRef, components: Box<List<Pattern>> },
    MatchAll,
}

/// A label of a switch arm. `default` is a label with a missing expression.
#[derive(Debug, PartialEq, Eq)]
pub enum SwitchLabel {
    Expr(Expr),
    Pattern(Pattern),
    Guard(Expr),
}

#[derive(Debug, PartialEq, Eq)]
pub struct SwitchArm {
    pub labels: List<SwitchLabel>,
    pub body: List<Stmt>,
}

/// A resource of a `try` statement.
#[derive(Debug, PartialEq, Eq)]
pub struct Resource {
    pub local: Local,
    pub initializer: Option<Expr>,
}

/// A `catch` clause. `param_types` holds the alternatives of a multi-catch.
#[derive(Debug, PartialEq, Eq)]
pub struct Catch {
    pub param: Local,
    pub param_types: List<TypeRef>,
    pub body: Stmt,
}

/// A statement.
#[derive(Debug, PartialEq, Eq)]
pub struct Stmt {
    pub id: u32,
    pub kind: StmtKind,
}

#[allow(inconsistent_fields)]
#[derive(Debug, PartialEq, Eq)]
pub enum StmtKind {
    Empty,
    Block(Box<List<Stmt>>),
    /// The declarators of one declaration.
    DeclGroup(Box<List<Stmt>>),
    Decl { local: Local, initializer: Option<Expr> },
    Expr(Expr),
    Labeled { label: Name, stmt: Box<Stmt> },
    If { cond: Expr, then_arm: Box<Stmt>, else_arm: Option<Box<Stmt>> },
    While { cond: Expr, body: Box<Stmt> },
    DoWhile { body: Box<Stmt>, cond: Expr },
    For { init: Box<List<Stmt>>, cond: Option<Expr>, step: List<Expr>, body: Box<Stmt> },
    ForEach { var: Local, iterable: Expr, body: Box<Stmt> },
    Switch { scrutinee: Expr, arms: Box<List<SwitchArm>> },
    Return(Option<Expr>),
    Yield(Expr),
    Throw(Expr),
    Break(Option<Name>),
    Continue(Option<Name>),
    Synchronized { expr: Expr, body: Box<Stmt> },
    Try {
        resources: List<Resource>,
        body: Box<Stmt>,
        catches: Box<List<Catch>>,
        finally_block: Option<Box<Stmt>>,
    },
    Assert { cond: Expr, msg: Option<Expr> },
    LocalClass,
    Missing,
}

/// The body of a method or initializer.
#[derive(Debug, PartialEq, Eq)]
pub struct Body {
    pub params: List<Local>,
    pub stmts: List<Stmt>,
}

} // verus!
