//! The JavaScript syntax tree that the transform reads and writes.
//!
//! Names and literal texts are plain strings; a node that the transform never
//! looks into is kept as an opaque handle (`Other`), which the caller maps back
//! to the node it was read from.
use vstd::prelude::*;

verus! {

/// The key of an object member.
#[derive(Debug, PartialEq, Eq)]
pub enum PropName {
    Ident(String),
    Str(String),
    Other(u64),
}

/// A binding pattern (a parameter or a declared name).
#[derive(Debug, PartialEq, Eq)]
pub enum Pat {
    Ident(String),
    Other(u64),
}

#[derive(Clone, Copy, Debug, PartialEq, Eq, Structural)]
pub enum VarKind {
    Var,
    Let,
    Const,
}

/// A function's parameters, body and flags.
#[derive(Debug, PartialEq, Eq)]
pub struct Function {
    pub params: Vec<Pat>,
    pub body: Option<Vec<Stmt>>,
    pub is_async: bool,
    pub is_generator: bool,
}

/// The body of an arrow function: a block or a single expression.
#[derive(Debug, PartialEq, Eq)]
pub enum ArrowBody {
    Block(Vec<Stmt>),
    Expr(Box<Expr>),
}

/// A member of an object literal.
#[derive(Debug, PartialEq, Eq)]
pub enum Prop {
    KeyValue { key: PropName, value: Expr },
    Shorthand(String),
    Method { key: PropName, function: Function },
    Spread(Expr),
    Other(u64),
}

#[derive(Debug, PartialEq, Eq)]
pub enum Expr {
    This,
    Ident(String),
    Str(String),
    /// A numeric literal, by its source text.
    Num(String),
    Bool(bool),
    Null,
    /// `obj.prop`
    Member { obj: Box<Expr>, prop: String },
    /// `obj[index]`
    Index { obj: Box<Expr>, index: Box<Expr> },
    Call { callee: Box<Expr>, args: Vec<Expr> },
    New { callee: Box<Expr>, args: Vec<Expr> },
    Array(Vec<Expr>),
    Object(Vec<Prop>),
    Arrow { params: Vec<Pat>, body: Box<ArrowBody>, is_async: bool, is_generator: bool },
    Fn(Function),
    Unary { op: String, arg: Box<Expr> },
    Update { op: String, prefix: bool, arg: Box<Expr> },
    Binary { op: String, left: Box<Expr>, right: Box<Expr> },
    Assign { op: String, left: Box<Expr>, right: Box<Expr> },
    Cond { test: Box<Expr>, cons: Box<Expr>, alt: Box<Expr> },
    Await(Box<Expr>),
    Paren(Box<Expr>),
    /// `...arg`, as an argument or an array element.
    Spread(Box<Expr>),
    /// A template literal: its raw text pieces and the expressions between them.
    Template { quasis: Vec<String>, exprs: Vec<Expr> },
    /// `a, b, c`
    Sequence(Vec<Expr>),
    Other(u64),
}

#[derive(Debug, PartialEq, Eq)]
pub struct VarDeclarator {
    pub name: Pat,
    pub init: Option<Expr>,
}

#[derive(Debug, PartialEq, Eq)]
pub enum Stmt {
    Expr(Expr),
    Return(Option<Expr>),
    Var { kind: VarKind, decls: Vec<VarDeclarator> },
    FnDecl { ident: String, function: Function },
    /// A class declaration: its name and its opaque body.
    ClassDecl { ident: String, class: u64 },
    Block(Vec<Stmt>),
    If { test: Expr, cons: Box<Stmt>, alt: Option<Box<Stmt>> },
    Throw(Expr),
    While { test: Expr, body: Box<Stmt> },
    DoWhile { body: Box<Stmt>, test: Expr },
    /// `for (<init>; <test>; <update>) <body>`, where `init` is a variable
    /// declaration or an expression statement.
    For { init: Option<Box<Stmt>>, test: Option<Expr>, update: Option<Expr>, body: Box<Stmt> },
    /// `for (<kind> <name> of <right>) <body>`
    ForOf { kind: VarKind, name: Pat, right: Expr, body: Box<Stmt> },
    /// `for (<kind> <name> in <right>) <body>`
    ForIn { kind: VarKind, name: Pat, right: Expr, body: Box<Stmt> },
    /// `try { <block> } catch (<param>) { <handler> } finally { <finalizer> }`
    Try {
        block: Vec<Stmt>,
        param: Option<Pat>,
        handler: Option<Vec<Stmt>>,
        finalizer: Option<Vec<Stmt>>,
    },
    Switch { discriminant: Expr, cases: Vec<SwitchCase> },
    Other(u64),
}

/// A `case <test>:` (or `default:` without a test) and its statements.
#[derive(Debug, PartialEq, Eq)]
pub struct SwitchCase {
    pub test: Option<Expr>,
    pub body: Vec<Stmt>,
}

#[derive(Debug, PartialEq, Eq)]
pub enum ModuleItem {
    /// `export default <expr>;`
    ExportDefault(Expr),
    Stmt(Stmt),
    Other(u64),
}

#[derive(Debug, PartialEq, Eq)]
pub struct Module {
    pub body: Vec<ModuleItem>,
}

} // verus!
