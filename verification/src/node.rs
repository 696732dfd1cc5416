//! Markup nodes and trees.

use vstd::prelude::*;
use crate::expr::Expr;
use crate::ident::Ident;

verus! {

/// The syntax tree: the nodes of a piece of markup, in source order.
pub type Tree = Vec<Node>;

/// A syntax node, encompassing a single logical entity of parsed source.
#[derive(Debug, PartialEq)]
pub enum Node {
    /// Strong text was enabled / disabled: `*`.
    Strong,
    /// Emphasized text was enabled / disabled: `_`.
    Emph,
    /// Whitespace containing less than two newlines.
    Space,
    /// A forced line break: `\`.
    Linebreak,
    /// A paragraph break: two or more newlines.
    Parbreak,
    /// Plain text.
    Text(String),
    /// A section heading: `= Introduction`.
    Heading(NodeHeading),
    /// A raw block with optional syntax highlighting: `` `...` ``.
    Raw(NodeRaw),
    /// An expression.
    Expr(Expr),
}

/// A section heading: `= Introduction`.
#[derive(Debug, PartialEq)]
pub struct NodeHeading {
    /// The section depth: the number of equals signs minus one.
    pub level: usize,
    /// The contents of the heading.
    pub contents: Tree,
}

/// A raw block with optional syntax highlighting: `` `...` ``.
#[derive(Debug, PartialEq)]
pub struct NodeRaw {
    /// An optional identifier specifying the language to syntax-highlight in.
    pub lang: Option<Ident>,
    /// The lines of raw text.
    pub lines: Vec<String>,
    /// Whether the element is block-level, that is, it has three or more
    /// backticks and its text starts and ends on lines of its own.
    pub block: bool,
}

} // verus!
