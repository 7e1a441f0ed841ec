//! The syntax tree of a procedure body, as the analysis reads it.
//!
//! Class paths arrive resolved: whoever builds the tree asks the class
//! hierarchy and records the class that a path names, or that it names none.
//! Parts of the source that the analysis does not look into (the members of
//! a list literal, the arguments of a method call, the variable of a loop
//! header) have no place in the tree.

use vstd::prelude::*;
use crate::lattice::ClassId;

verus! {

/// A prefix or postfix operator.
#[derive(Copy, Clone, Debug, PartialEq, Eq)]
pub enum UnaryOp {
    Neg,
    Not,
    BitNot,
    PreIncr,
    PostIncr,
    PreDecr,
    PostDecr,
}

/// A binary operator.
#[derive(Copy, Clone, Debug, PartialEq, Eq)]
pub enum BinaryOp {
    Add,
    Sub,
    Mul,
    Div,
    Pow,
    Mod,
    Eq,
    NotEq,
    Less,
    Greater,
    LessEq,
    GreaterEq,
    Equiv,
    NotEquiv,
    BitAnd,
    BitXor,
    BitOr,
    LShift,
    RShift,
    And,
    Or,
    In,
    To,
}

/// An assignment operator.
#[derive(Copy, Clone, Debug, PartialEq, Eq)]
pub enum AssignOp {
    Assign,
    AddAssign,
    SubAssign,
    MulAssign,
    DivAssign,
    ModAssign,
    BitAndAssign,
    BitOrAssign,
    BitXorAssign,
    LShiftAssign,
    RShiftAssign,
}

/// How a field or a method is reached from a value.
#[derive(Copy, Clone, Debug, PartialEq, Eq)]
pub enum IndexKind {
    /// `a.b`
    Dot,
    /// `a:b`, which looks the member up at run time.
    Colon,
    /// `a?.b`
    SafeDot,
    /// `a?:b`
    SafeColon,
}

/// A class path in an expression, with the class that the hierarchy found
/// by navigating it from the procedure's own class, if it found one.
#[derive(Copy, Clone, Debug, PartialEq, Eq)]
pub struct Prefab {
    pub target: Option<ClassId>,
}

/// The type that a declaration gives its variable.
#[derive(Copy, Clone, Debug, PartialEq, Eq)]
pub enum DeclaredType {
    /// The declaration names no type.
    Untyped,
    /// The declared type path names this class.
    Class(ClassId),
    /// The declared type path names no class of the hierarchy.
    Unresolved,
}

/// What a `new` is asked to construct.
#[derive(Debug, PartialEq, Eq)]
pub enum NewType {
    /// Nothing is named: the class comes from where the value goes.
    Implicit,
    /// A variable, read at run time, names the class.
    Ident(String),
    /// A class path names it.
    Prefab(Prefab),
}

/// An accessor that follows a term.
#[derive(Debug, PartialEq, Eq)]
pub enum Follow {
    /// `a[..]`
    Index,
    /// A field of the value.
    Field(IndexKind, String),
    /// A method called on the value.
    Call(IndexKind, String),
}

/// The innermost part of an expression.
#[derive(Debug, PartialEq, Eq)]
pub enum Term {
    Null,
    New { type_: NewType },
    /// A list literal.
    List,
    /// A bare class path.
    Prefab(Prefab),
    String(String),
    Resource(String),
    Int(i32),
    /// A single-precision literal, held as its IEEE 754 bit pattern.
    Float(u32),
    /// An expression in parentheses.
    Expr(Box<Expression>),
    /// A string with embedded expressions.
    InterpString,
    /// A call of a procedure by its bare name.
    Call(String, Vec<Expression>),
    Ident(String),
    /// `..()`
    ParentCall,
    /// `.()`
    SelfCall,
    Locate,
    Input,
    Pick,
    /// `call(..)(..)`
    DynamicCall,
}

#[allow(inconsistent_fields)]
#[derive(Debug, PartialEq, Eq)]
pub enum Expression {
    /// A term, the accessors that follow it, and the unary operators around
    /// both, in the order in which they are written.
    Base { unary: Vec<UnaryOp>, term: Term, follow: Vec<Follow> },
    BinaryOp { op: BinaryOp, lhs: Box<Expression>, rhs: Box<Expression> },
    AssignOp { op: AssignOp, lhs: Box<Expression>, rhs: Box<Expression> },
    TernaryOp { cond: Box<Expression>, if_: Box<Expression>, else_: Box<Expression> },
}

/// The declaration of one local variable.
#[derive(Debug, PartialEq, Eq)]
pub struct VarStatement {
    pub var_type: DeclaredType,
    pub name: String,
    pub value: Option<Expression>,
}

/// One of the values that a `switch` case matches.
#[derive(Debug, PartialEq, Eq)]
pub enum Case {
    Exact(Expression),
    Range(Expression, Expression),
}

#[derive(Debug, PartialEq, Eq)]
pub enum Statement {
    Expr(Expression),
    Return(Option<Expression>),
    Throw(Expression),
    While { condition: Expression, block: Vec<Statement> },
    DoWhile { block: Vec<Statement>, condition: Expression },
    If { arms: Vec<(Expression, Vec<Statement>)>, else_arm: Option<Vec<Statement>> },
    ForLoop {
        init: Option<Box<Statement>>,
        test: Option<Expression>,
        inc: Option<Box<Statement>>,
        block: Vec<Statement>,
    },
    ForList { in_list: Option<Expression>, block: Vec<Statement> },
    ForRange { start: Expression, end: Expression, step: Option<Expression>, block: Vec<Statement> },
    Var(VarStatement),
    Vars(Vec<VarStatement>),
    /// A compile-time directive, `set name = value`.
    Setting,
    Spawn { delay: Option<Expression>, block: Vec<Statement> },
    Switch {
        input: Expression,
        cases: Vec<(Vec<Case>, Vec<Statement>)>,
        default: Option<Vec<Statement>>,
    },
    TryCatch { try_block: Vec<Statement>, catch_block: Vec<Statement> },
    Continue,
    Break,
    Label { block: Vec<Statement> },
    Del(Expression),
}

} // verus!
