//! The module tree that the analysis walks.
//!
//! The engine only looks at a handful of syntactic shapes; every expression
//! or statement outside that catalogue is carried as `Other` and is inert.
//! The host layer lowers the parser's tree into this form before analysis.

use vstd::prelude::*;

verus! {

/// An expression, reduced to the shapes the export catalogue inspects.
pub enum Expr {
    /// A bare identifier.
    Ident(String),
    /// A member access `object.name` with a static, non-computed name.
    Member(Box<Expr>, String),
    /// A computed member access `object[key]`.
    ComputedMember(Box<Expr>, Box<Expr>),
    /// A string literal.
    StrLit(String),
    /// A call `callee(args...)`.
    Call(Box<Expr>, Vec<Expr>),
    /// A function expression: parameter names and body statements.
    FnExpr(Vec<String>, Vec<Stmt>),
    /// A parenthesized expression.
    Paren(Box<Expr>),
    /// An object literal.
    ObjectLit(Vec<Prop>),
    /// An assignment `target = value`.
    Assign(Box<Expr>, Box<Expr>),
    /// A strict equality test `left === right`.
    StrictEq(Box<Expr>, Box<Expr>),
    /// A strict inequality test `left !== right`.
    StrictNeq(Box<Expr>, Box<Expr>),
    /// Any expression outside the catalogue.
    Other,
}

/// One property of an object literal.
pub enum Prop {
    /// A property with a static literal key and a value.
    KeyValue(String, Box<Expr>),
    /// A shorthand property `{ name }`.
    Shorthand(String),
    /// A spread element `...source`.
    Spread(Box<Expr>),
    /// A property with a computed or otherwise non-literal key.
    Opaque,
}

/// One declarator of a variable declaration: `name = init`.
pub struct Declarator {
    pub name: String,
    pub init: Option<Expr>,
}

/// A statement, reduced to the shapes the export catalogue inspects.
pub enum Stmt {
    /// An expression statement.
    Expr(Expr),
    /// A variable declaration with its declarators.
    VarDecl(Vec<Declarator>),
    /// `if (test) consequent` with an optional alternate.
    If(Expr, Box<Stmt>, Option<Box<Stmt>>),
    /// A block `{ ... }`.
    Block(Vec<Stmt>),
    /// A `return` statement.
    Return,
    /// Any statement outside the catalogue.
    Other,
}

/// A parsed module: its top-level statements in source order.
pub struct CjsModule {
    pub body: Vec<Stmt>,
}

} // verus!
