//! The expression tree.

use std::rc::Rc;
use vstd::prelude::*;
use crate::ident::Ident;
use crate::lit::Lit;
use crate::node::Tree;
use crate::ops::{BinOp, UnOp};
use crate::span::Span;

verus! {

/// An expression.
#[derive(Debug, PartialEq)]
pub enum Expr {
    /// A literal.
    Lit(Lit),
    /// An identifier: `left`.
    Ident(Ident),
    /// An array expression: `(1, "hi", 12cm)`.
    Array(ExprArray),
    /// A dictionary expression: `(color: #f79143, pattern: dashed)`.
    Dict(ExprDict),
    /// A template expression: `[*Hi* there!]`.
    Template(ExprTemplate),
    /// A grouped expression: `(1 + 2)`.
    Group(ExprGroup),
    /// A block expression: `{ #let x = 1; x + 2 }`.
    Block(ExprBlock),
    /// A unary operation: `-x`.
    Unary(ExprUnary),
    /// A binary operation: `a + b`.
    Binary(ExprBinary),
    /// An invocation of a function: `foo(...)`, `#[foo ...]`.
    Call(ExprCall),
    /// A let expression: `#let x = 1`.
    Let(ExprLet),
    /// An if expression: `#if x { y } #else { z }`.
    If(ExprIf),
    /// A for expression: `#for x #in y { z }`.
    For(ExprFor),
}

/// An array expression: `(1, "hi", 12cm)`.
#[derive(Debug, PartialEq)]
pub struct ExprArray {
    /// The source code location.
    pub span: Span,
    /// The entries of the array.
    pub items: Vec<Expr>,
}

/// A dictionary expression: `(color: #f79143, pattern: dashed)`.
#[derive(Debug, PartialEq)]
pub struct ExprDict {
    /// The source code location.
    pub span: Span,
    /// The named dictionary entries.
    pub items: Vec<Named>,
}

/// A pair of a name and an expression: `pattern: dashed`.
#[derive(Debug, PartialEq)]
pub struct Named {
    /// The name: `pattern`.
    pub name: Ident,
    /// The right-hand side of the pair: `dashed`.
    pub expr: Expr,
}

/// A template expression: `[*Hi* there!]`.
///
/// The contents are shared, so that cloning a template is cheap; they are
/// never changed once the template exists.
#[derive(Debug, PartialEq)]
pub struct ExprTemplate {
    /// The source code location.
    pub span: Span,
    /// The contents of the template.
    pub tree: Rc<Tree>,
}

/// A grouped expression: `(1 + 2)`.
#[derive(Debug, PartialEq)]
pub struct ExprGroup {
    /// The source code location.
    pub span: Span,
    /// The wrapped expression.
    pub expr: Box<Expr>,
}

/// A block expression: `{ #let x = 1; x + 2 }`.
#[derive(Debug, PartialEq)]
pub struct ExprBlock {
    /// The source code location.
    pub span: Span,
    /// The list of expressions contained in the block.
    pub exprs: Vec<Expr>,
    /// Whether the block should create a scope.
    pub scoping: bool,
}

/// A unary operation: `-x`.
#[derive(Debug, PartialEq)]
pub struct ExprUnary {
    /// The source code location.
    pub span: Span,
    /// The operator: `-`.
    pub op: UnOp,
    /// The expression to operate on: `x`.
    pub expr: Box<Expr>,
}

/// A binary operation: `a + b`.
#[derive(Debug, PartialEq)]
pub struct ExprBinary {
    /// The source code location.
    pub span: Span,
    /// The left-hand side of the operation: `a`.
    pub lhs: Box<Expr>,
    /// The operator: `+`.
    pub op: BinOp,
    /// The right-hand side of the operation: `b`.
    pub rhs: Box<Expr>,
}

/// An invocation of a function: `foo(...)`, `#[foo ...]`.
#[derive(Debug, PartialEq)]
pub struct ExprCall {
    /// The source code location.
    pub span: Span,
    /// The callee of the function.
    pub callee: Box<Expr>,
    /// The arguments to the function.
    pub args: ExprArgs,
}

/// The arguments to a function: `12, draw: false`.
///
/// In case of a bracketed invocation with a body, the body is _not_
/// included in the span for the sake of clearer error messages.
#[derive(Debug, PartialEq)]
pub struct ExprArgs {
    /// The source code location.
    pub span: Span,
    /// The positional and named arguments.
    pub items: Vec<Argument>,
}

/// An argument to a function call: `12` or `draw: false`.
#[derive(Debug, PartialEq)]
pub enum Argument {
    /// A positional argument.
    Pos(Expr),
    /// A named argument.
    Named(Named),
}

/// A let expression: `#let x = 1`.
#[derive(Debug, PartialEq)]
pub struct ExprLet {
    /// The source code location.
    pub span: Span,
    /// The binding to assign to.
    pub binding: Ident,
    /// The expression the binding is initialized with.
    pub init: Option<Box<Expr>>,
}

/// An if expression: `#if x { y } #else { z }`.
#[derive(Debug, PartialEq)]
pub struct ExprIf {
    /// The source code location.
    pub span: Span,
    /// The condition which selects the body to evaluate.
    pub condition: Box<Expr>,
    /// The expression to evaluate if the condition is true.
    pub if_body: Box<Expr>,
    /// The expression to evaluate if the condition is false.
    pub else_body: Option<Box<Expr>>,
}

/// A for expression: `#for x #in y { z }`.
#[derive(Debug, PartialEq)]
pub struct ExprFor {
    /// The source code location.
    pub span: Span,
    /// The pattern to assign to.
    pub pattern: ForPattern,
    /// The expression to iterate over.
    pub iter: Box<Expr>,
    /// The expression to evaluate for each iteration.
    pub body: Box<Expr>,
}

/// A pattern in a for loop.
#[derive(Debug, PartialEq)]
pub enum ForPattern {
    /// A value pattern: `#for v #in array`.
    Value(Ident),
    /// A key-value pattern: `#for k, v #in dict`.
    KeyValue(Ident, Ident),
}

impl Expr {
    /// The span that the expression's own node carries.
    pub open spec fn spec_span(&self) -> Span {
        match self {
            Expr::Lit(v) => v.span,
            Expr::Ident(v) => v.span,
            Expr::Array(v) => v.span,
            Expr::Dict(v) => v.span,
            Expr::Template(v) => v.span,
            Expr::Group(v) => v.span,
            Expr::Block(v) => v.span,
            Expr::Unary(v) => v.span,
            Expr::Binary(v) => v.span,
            Expr::Call(v) => v.span,
            Expr::Let(v) => v.span,
            Expr::If(v) => v.span,
            Expr::For(v) => v.span,
        }
    }

    /// The source code location.
    #[verifier::when_used_as_spec(spec_span)]
    pub fn span(&self) -> (span: Span)
        ensures
            span == self.spec_span(),
    {
        match self {
            Expr::Lit(v) => v.span,
            Expr::Ident(v) => v.span,
            Expr::Array(v) => v.span,
            Expr::Dict(v) => v.span,
            Expr::Template(v) => v.span,
            Expr::Group(v) => v.span,
            Expr::Block(v) => v.span,
            Expr::Unary(v) => v.span,
            Expr::Binary(v) => v.span,
            Expr::Call(v) => v.span,
            Expr::Let(v) => v.span,
            Expr::If(v) => v.span,
            Expr::For(v) => v.span,
        }
    }
}

impl Named {
    /// The join of the name's span and the expression's span.
    pub open spec fn spec_span(&self) -> Span {
        self.name.span.joined(self.expr.span())
    }

    /// The source code location.
    #[verifier::when_used_as_spec(spec_span)]
    pub fn span(&self) -> (span: Span)
        ensures
            span == self.spec_span(),
            span.covers(self.name.span),
            span.covers(self.expr.span()),
    {
        self.name.span.join(self.expr.span())
    }
}

impl Argument {
    /// The span of the expression or of the named pair.
    pub open spec fn spec_span(&self) -> Span {
        match self {
            Argument::Pos(expr) => expr.span(),
            Argument::Named(named) => named.span(),
        }
    }

    /// The source code location.
    #[verifier::when_used_as_spec(spec_span)]
    pub fn span(&self) -> (span: Span)
        ensures
            span == self.spec_span(),
    {
        match self {
            Argument::Pos(expr) => expr.span(),
            Argument::Named(named) => named.span(),
        }
    }
}

impl ForPattern {
    /// The span of the one binding, or the join of the spans of the two.
    pub open spec fn spec_span(&self) -> Span {
        match self {
            ForPattern::Value(v) => v.span,
            ForPattern::KeyValue(k, v) => k.span.joined(v.span),
        }
    }

    /// The source code location.
    #[verifier::when_used_as_spec(spec_span)]
    pub fn span(&self) -> (span: Span)
        ensures
            span == self.spec_span(),
    {
        match self {
            ForPattern::Value(v) => v.span,
            ForPattern::KeyValue(k, v) => k.span.join(v.span),
        }
    }
}

} // verus!
