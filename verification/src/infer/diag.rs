//! What can be wrong with a body.
use crate::body::{BinaryOp, Const, UnaryOp};
use crate::items::TextRange;
use crate::list::List;
use crate::member::Access;
use crate::member::{ClassKey, MethodData};
use crate::names::{Name, Names};
use crate::release_api::{decimal, decimal_string};
use crate::ty::Ty;
use crate::walk::DiagLocation;
use vstd::prelude::*;
use vstd::string::StringExecFns;

verus! {

/// The operator a report names.
#[derive(Clone, Copy, Debug, PartialEq, Eq, Structural)]
pub enum Operator {
    Unary(UnaryOp),
    Binary(BinaryOp),
    Conditional,
}

/// `this` or `super`.
#[derive(Clone, Copy, Debug, PartialEq, Eq, Structural)]
pub enum NonStaticThisKind {
    This,
    Super,
}

/// What a constructor refers to too early.
#[derive(Clone, Copy, Debug, PartialEq, Eq, Structural)]
pub enum EarlyReference {
    This,
    Super,
    Member(Name),
}

#[derive(Clone, Copy, Debug, PartialEq, Eq, Structural)]
pub enum IllegalAccessKind {
    Field,
    Method,
}

/// An argument that does not fit: its position, its type, and the type that is
/// required.
#[derive(Debug, PartialEq, Eq)]
pub struct BadArg {
    pub index: u32,
    pub found: Ty,
    pub expected: Ty,
}

/// An invocation for which no method is applicable.
#[derive(Debug, PartialEq, Eq)]
pub struct WrongArity {
    pub expr: u32,
    pub name: Name,
    pub owner: Option<Name>,
    pub found: u32,
    pub expected: u32,
    pub varargs: bool,
    pub required: List<Ty>,
    pub found_tys: List<Option<Ty>>,
    pub arg_ranges: List<TextRange>,
    pub bad_args: List<BadArg>,
    pub surplus: List<u32>,
}

/// A report on a body. Expressions, statements, patterns and variables are
/// given by their numbers.
#[allow(inconsistent_fields)]
#[derive(Debug, PartialEq, Eq)]
pub enum TypeError {
    NonBooleanCondition { expr: u32, found: Ty },
    IncompatibleOperand { expr: u32, op: Operator, found: Ty, other: Option<Ty> },
    IncomparableTypes { expr: u32, op: Operator, found: Ty, other: Ty },
    IncompatibleTypes { expr: u32, found: Ty, expected: Ty },
    NonStaticThisFromStaticContext { expr: u32, keyword: NonStaticThisKind },
    CannotReferenceBeforeSuper { expr: u32, name: EarlyReference },
    GenericArrayCreation { expr: u32, ty: Ty },
    BadCast { expr: u32, found: Ty, target: Ty },
    NotExhaustive { expr: u32 },
    NotDefinitelyAssigned { expr: u32, name: Name },
    CannotAssignToFinalVariable { expr: u32, name: Name },
    VariableAlreadyAssigned { expr: u32, name: Name },
    IllegalForwardReference { expr: u32, name: Name },
    NonStaticFieldFromStaticContext { expr: u32, name: Name },
    /// The segments of a name that denotes nothing.
    CannotResolveName { expr: u32, name: List<Name> },
    NoSuchField { expr: u32, name: Name },
    IllegalAccess {
        expr: u32,
        kind: IllegalAccessKind,
        name: Name,
        owner: ClassKey,
        access: Access,
    },
    AmbiguousField { location: DiagLocation, name: Name },
    VariableAlreadyDefined { local: u32, name: Name },
    LambdaParameterAlreadyDefined { lambda: u32, name: Name, range: TextRange },
    IncorrectNumberOfPatternComponents { pattern: u32, expected: u32, found: u32 },
    SwitchSelectorType { expr: u32, found: Ty },
    IllegalGenericInstanceOf { expr: u32, ty: Ty },
    RawTypeUse { local: u32, ty: Ty },
    TypeArgumentOutOfBounds {
        location: DiagLocation,
        name: Name,
        arg: Ty,
        bound: Ty,
        range: Option<TextRange>,
    },
    UncheckedConversion { expr: u32, from: Ty, to: Ty },
    DuplicateCaseLabel { expr: u32, value: Const },
    NonConstantCaseLabel { expr: u32 },
    UnreportedException { expr: u32, thrown: Ty },
    UnreachableStatement { stmt: u32 },
    VarWithoutInitializer { local: u32 },
    VarArrayInitializer { local: u32 },
    NonIterableForEach { expr: u32, found: Ty },
    UndefinedLabel { stmt: u32, label: Name },
    BreakOutsideSwitchOrLoop { stmt: u32 },
    NotALoopLabel { stmt: u32, label: Name },
    ContinueOutsideLoop { stmt: u32 },
    CannotCatchTypeVariable { local: u32 },
    AlreadyCaught { local: u32, caught: List<Ty> },
    CatchNeverThrown { local: u32, caught: Ty },
    NotAFunctionalInterface { expr: u32, target: Ty },
    NoSuchConstructor { expr: u32, name: Name },
    NoSuchMethod { expr: u32, name: Name },
    WrongArity(WrongArity),
    AbstractSuperAccess { expr: u32, method: Name, owner: ClassKey },
    NonStaticMethodFromStaticContext { expr: u32, name: Name },
    QualifiedSuperNotEnclosing { expr: u32, qualifier: Ty },
    CannotInstantiateWildcard { expr: u32, ty: Ty },
    CannotInstantiateTypeVar { expr: u32, ty: Ty },
}

/// What an invocation means: a method, or the methods it may have meant.
#[derive(Debug, PartialEq, Eq)]
pub enum ResolvedMember {
    Method(MethodData),
    Unresolved(List<MethodData>),
}

/// The symbol of a unary operator.
pub open spec fn unary_symbol(op: UnaryOp) -> Seq<char> {
    match op {
        UnaryOp::Plus => "+"@,
        UnaryOp::Minus => "-"@,
        UnaryOp::BitNot => "~"@,
        UnaryOp::Inc => "++"@,
        UnaryOp::Dec => "--"@,
        UnaryOp::Not => "!"@,
    }
}

/// The symbol of a unary operator.
pub fn unary_op_symbol(op: UnaryOp) -> (r: &'static str)
    ensures
        r@ == unary_symbol(op),
{
    match op {
        UnaryOp::Plus => "+",
        UnaryOp::Minus => "-",
        UnaryOp::BitNot => "~",
        UnaryOp::Inc => "++",
        UnaryOp::Dec => "--",
        UnaryOp::Not => "!",
    }
}

/// The symbol of a binary operator.
pub open spec fn binary_symbol(op: BinaryOp) -> Seq<char> {
    match op {
        BinaryOp::Mul => "*"@,
        BinaryOp::Div => "/"@,
        BinaryOp::Rem => "%"@,
        BinaryOp::Add => "+"@,
        BinaryOp::Sub => "-"@,
        BinaryOp::Shl => "<<"@,
        BinaryOp::Shr => ">>"@,
        BinaryOp::UShr => ">>>"@,
        BinaryOp::Lt => "<"@,
        BinaryOp::Gt => ">"@,
        BinaryOp::Le => "<="@,
        BinaryOp::Ge => ">="@,
        BinaryOp::Eq => "=="@,
        BinaryOp::Ne => "!="@,
        BinaryOp::BitAnd => "&"@,
        BinaryOp::BitXor => "^"@,
        BinaryOp::BitOr => "|"@,
        BinaryOp::And => "&&"@,
        BinaryOp::Or => "||"@,
    }
}

/// The symbol of a binary operator.
pub fn binary_op_symbol(op: BinaryOp) -> (r: &'static str)
    ensures
        r@ == binary_symbol(op),
{
    match op {
        BinaryOp::Mul => "*",
        BinaryOp::Div => "/",
        BinaryOp::Rem => "%",
        BinaryOp::Add => "+",
        BinaryOp::Sub => "-",
        BinaryOp::Shl => "<<",
        BinaryOp::Shr => ">>",
        BinaryOp::UShr => ">>>",
        BinaryOp::Lt => "<",
        BinaryOp::Gt => ">",
        BinaryOp::Le => "<=",
        BinaryOp::Ge => ">=",
        BinaryOp::Eq => "==",
        BinaryOp::Ne => "!=",
        BinaryOp::BitAnd => "&",
        BinaryOp::BitXor => "^",
        BinaryOp::BitOr => "|",
        BinaryOp::And => "&&",
        BinaryOp::Or => "||",
    }
}

impl Operator {
    /// The symbol of the operator in a message.
    pub open spec fn text(self) -> Seq<char> {
        match self {
            Operator::Unary(op) => unary_symbol(op),
            Operator::Binary(op) => binary_symbol(op),
            Operator::Conditional => "?:"@,
        }
    }

    /// The symbol of the operator in a message.
    pub fn symbol(self) -> (r: &'static str)
        ensures
            r@ == self.text(),
    {
        match self {
            Operator::Unary(op) => unary_op_symbol(op),
            Operator::Binary(op) => binary_op_symbol(op),
            Operator::Conditional => "?:",
        }
    }
}

/// A constant as a report shows it: a number in decimal notation, a truth
/// value by its keyword, a string in quotes.
pub open spec fn const_text(names: Names, value: Const) -> Seq<char> {
    match value {
        Const::Int(v) => if v < 0 {
            "-"@ + decimal((-v) as nat)
        } else {
            decimal(v as nat)
        },
        Const::Bool(b) => if b {
            "true"@
        } else {
            "false"@
        },
        Const::Str(s) => "\""@ + names.text(s) + "\""@,
    }
}

/// The number without its sign.
fn magnitude(v: i64) -> (r: u64)
    ensures
        r == (if v < 0 {
            -v
        } else {
            v as int
        }),
{
    if v >= 0 {
        v as u64
    } else if v == i64::MIN {
        9223372036854775808
    } else {
        (-v) as u64
    }
}

/// A constant as a report shows it.
pub fn display_const(names: &Names, value: Const) -> (r: String)
    requires
        value matches Const::Str(s) ==> names.knows(s),
    ensures
        r@ == const_text(*names, value),
{
    match value {
        Const::Int(v) => if v < 0 {
            "-".to_owned().concat(decimal_string(magnitude(v)).as_str())
        } else {
            decimal_string(magnitude(v))
        },
        Const::Bool(b) => if b {
            "true".to_owned()
        } else {
            "false".to_owned()
        },
        Const::Str(s) => "\"".to_owned().concat(names.as_str(s)).concat("\""),
    }
}

} // verus!
