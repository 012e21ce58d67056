//! The concrete syntax tree of a source file: nodes, and tokens with their
//! text.
use crate::items::TextRange;
use crate::list::{Data, List};
use crate::names::same_text;
use vstd::prelude::*;

verus! {

/// What a node or token is. The kinds that no rule speaks of share a name.
#[derive(Clone, Copy, Debug, PartialEq, Eq, Structural)]
pub enum SyntaxKind {
    TextBlock,
    Underscore,
    Identifier,
    PrivateKw,
    Comma,
    NullLiteral,
    Question,
    ExtendsKw,
    SuperKw,
    ByteKw,
    ShortKw,
    CharKw,
    IntKw,
    LongKw,
    FloatKw,
    DoubleKw,
    BooleanKw,
    /// White space or a comment.
    Trivia,
    OtherToken,
    ModuleDecl,
    RecordDecl,
    MethodDecl,
    ModifierList,
    PermitsClause,
    ClassBody,
    InterfaceBody,
    EnumBody,
    RecordBody,
    AnnotationTypeBody,
    Resource,
    LocalVariableDeclaration,
    VariableDeclarator,
    FormalParameter,
    SpreadParameter,
    CatchFormalParameter,
    InferredParameters,
    EnhancedForStmt,
    YieldStmt,
    SwitchExpr,
    SwitchRule,
    SwitchLabel,
    NewExpr,
    LambdaExpr,
    InstanceofExpr,
    Type,
    TypeArguments,
    TypeArgument,
    WildcardType,
    TypePattern,
    RecordPattern,
    MatchAllPattern,
    OtherNode,
}

/// A token.
#[derive(Debug)]
pub struct Token {
    pub kind: SyntaxKind,
    pub text: String,
    pub range: TextRange,
}

/// A node with what it is made of, in source order.
#[derive(Debug)]
pub struct Node {
    pub kind: SyntaxKind,
    pub range: TextRange,
    pub children: List<Element>,
}

#[derive(Debug)]
pub enum Element {
    Token(Token),
    Node(Node),
}

/// A parsed file.
#[derive(Debug)]
pub enum SourceFile {
    Java(Element),
    Kotlin,
}

impl Element {
    pub open spec fn spec_kind(self) -> SyntaxKind {
        match self {
            Element::Token(t) => t.kind,
            Element::Node(n) => n.kind,
        }
    }

    pub open spec fn spec_range(self) -> TextRange {
        match self {
            Element::Token(t) => t.range,
            Element::Node(n) => n.range,
        }
    }

    pub fn kind(&self) -> (r: SyntaxKind)
        ensures
            r == self.spec_kind(),
    {
        match self {
            Element::Token(t) => t.kind,
            Element::Node(n) => n.kind,
        }
    }

    pub fn text_range(&self) -> (r: TextRange)
        ensures
            r == self.spec_range(),
    {
        match self {
            Element::Token(t) => t.range,
            Element::Node(n) => n.range,
        }
    }
}

impl TextRange {
    pub open spec fn empty(self) -> bool {
        self.start == self.end
    }

    /// Whether the range covers the other.
    pub open spec fn covers(self, other: TextRange) -> bool {
        self.start <= other.start && other.end <= self.end
    }

    pub fn is_empty(&self) -> (r: bool)
        ensures
            r == self.empty(),
    {
        self.start == self.end
    }

    pub fn contains_range(&self, other: TextRange) -> (r: bool)
        ensures
            r == self.covers(other),
    {
        self.start <= other.start && other.end <= self.end
    }
}

/// Whether one of the elements is of a kind.
pub open spec fn any_of_kind(l: List<Element>, kind: SyntaxKind) -> bool
    decreases l,
{
    match l {
        List::Nil => false,
        List::Cons(h, t) => h.spec_kind() == kind || any_of_kind(*t, kind),
    }
}

pub fn has_kind(l: &List<Element>, kind: SyntaxKind) -> (r: bool)
    ensures
        r == any_of_kind(*l, kind),
    decreases l,
{
    match l {
        List::Nil => false,
        List::Cons(h, t) => h.kind() == kind || has_kind(t, kind),
    }
}

/// Whether one of the elements is a token of a kind with a text.
pub open spec fn any_token(l: List<Element>, kind: SyntaxKind, text: Seq<char>) -> bool
    decreases l,
{
    match l {
        List::Nil => false,
        List::Cons(h, t) => (match *h {
            Element::Token(tok) => tok.kind == kind && tok.text@ == text,
            Element::Node(_) => false,
        }) || any_token(*t, kind, text),
    }
}

pub fn has_token(l: &List<Element>, kind: SyntaxKind, text: &str) -> (r: bool)
    ensures
        r == any_token(*l, kind, text@),
    decreases l,
{
    match l {
        List::Nil => false,
        List::Cons(h, t) => {
            let here = match &**h {
                Element::Token(tok) => tok.kind == kind && same_text(tok.text.as_str(), text),
                Element::Node(_) => false,
            };
            here || has_token(t, kind, text)
        },
    }
}

/// The first node of a kind.
pub open spec fn first_node(l: List<Element>, kind: SyntaxKind) -> Option<Node>
    decreases l,
{
    match l {
        List::Nil => None,
        List::Cons(h, t) => match *h {
            Element::Node(n) => if n.kind == kind {
                Some(n)
            } else {
                first_node(*t, kind)
            },
            Element::Token(_) => first_node(*t, kind),
        },
    }
}

pub fn find_node<'a>(l: &'a List<Element>, kind: SyntaxKind) -> (r: Option<&'a Node>)
    ensures
        match r {
            Some(n) => first_node(*l, kind) == Some(*n),
            None => first_node(*l, kind) is None,
        },
    decreases l,
{
    match l {
        List::Nil => None,
        List::Cons(h, t) => match &**h {
            Element::Node(n) => if n.kind == kind {
                Some(n)
            } else {
                find_node(t, kind)
            },
            Element::Token(_) => find_node(t, kind),
        },
    }
}

/// Whether an element of a kind is among the elements or inside them.
pub open spec fn any_inside(l: List<Element>, kind: SyntaxKind) -> bool
    decreases l,
{
    match l {
        List::Nil => false,
        List::Cons(h, t) => kind_inside(*h, kind) || any_inside(*t, kind),
    }
}

/// Whether an element is of a kind or has one of the kind inside it.
pub open spec fn kind_inside(e: Element, kind: SyntaxKind) -> bool
    decreases e,
{
    e.spec_kind() == kind || match e {
        Element::Token(_) => false,
        Element::Node(n) => any_inside(n.children, kind),
    }
}

pub fn contains_kind(e: &Element, kind: SyntaxKind) -> (r: bool)
    ensures
        r == kind_inside(*e, kind),
    decreases e,
{
    e.kind() == kind || match e {
        Element::Token(_) => false,
        Element::Node(n) => contains_kind_in(&n.children, kind),
    }
}

pub fn contains_kind_in(l: &List<Element>, kind: SyntaxKind) -> (r: bool)
    ensures
        r == any_inside(*l, kind),
    decreases l,
{
    match l {
        List::Nil => false,
        List::Cons(h, t) => contains_kind(h, kind) || contains_kind_in(t, kind),
    }
}

/// What a run over the tokens of a type has met: nothing, one token, or more.
#[derive(Debug)]
pub enum Tokens<'a> {
    Empty,
    One(&'a Token),
    /// The first of several tokens.
    Many(&'a Token),
}

impl<'a> Tokens<'a> {
    pub open spec fn and(self, t: &'a Token) -> Tokens<'a> {
        match self {
            Tokens::Empty => Tokens::One(t),
            Tokens::One(f) => Tokens::Many(f),
            Tokens::Many(f) => Tokens::Many(f),
        }
    }
}

/// The tokens of the elements that are no trivia, behind those met before.
pub open spec fn tokens_of<'a>(l: List<Element>, met: Tokens<'a>) -> Tokens<'a>
    decreases l,
{
    match l {
        List::Nil => met,
        List::Cons(h, t) => tokens_of(*t, tokens_in(*h, met)),
    }
}

/// The tokens of an element that are no trivia, behind those met before.
pub open spec fn tokens_in<'a>(e: Element, met: Tokens<'a>) -> Tokens<'a>
    decreases e,
{
    match e {
        Element::Token(t) => if t.kind == SyntaxKind::Trivia {
            met
        } else {
            met.and(&t)
        },
        Element::Node(n) => tokens_of(n.children, met),
    }
}

pub fn collect_tokens<'a>(l: &'a List<Element>, met: Tokens<'a>) -> (r: Tokens<'a>)
    ensures
        r == tokens_of(*l, met),
    decreases l,
{
    match l {
        List::Nil => met,
        List::Cons(h, t) => {
            let met = collect_tokens_in(h, met);
            collect_tokens(t, met)
        },
    }
}

fn collect_tokens_in<'a>(e: &'a Element, met: Tokens<'a>) -> (r: Tokens<'a>)
    ensures
        r == tokens_in(*e, met),
    decreases e,
{
    match e {
        Element::Token(t) => if t.kind == SyntaxKind::Trivia {
            met
        } else {
            match met {
                Tokens::Empty => Tokens::One(t),
                Tokens::One(f) => Tokens::Many(f),
                Tokens::Many(f) => Tokens::Many(f),
            }
        },
        Element::Node(n) => collect_tokens(&n.children, met),
    }
}

} // verus!
