//! The expression tree of a markup language's scripting sublanguage, and a
//! printer that writes a tree back out as canonical source text.
//!
//! - [`expr`], [`node`], [`lit`], [`ident`], [`ops`], [`token`] and [`span`]
//!   hold the tree and what it is made of.
//! - [`pretty`] and [`raw`] say what the text of each node is, and write it
//!   into a [`Printer`].
//! - [`wf`], [`laws`], [`readback`] and [`same`] state what holds of the
//!   tree and of its text.
//! - [`cloning`] makes copies of trees.

pub mod chars;
pub mod cloning;
pub mod expr;
pub mod ident;
pub mod laws;
pub mod lit;
pub mod node;
pub mod ops;
pub mod pretty;
pub mod printer;
pub mod raw;
pub mod readback;
pub mod same;
pub mod span;
pub mod token;
pub mod wf;

pub use crate::cloning::clone_tree;
pub use crate::expr::{
    Argument, Expr, ExprArgs, ExprArray, ExprBinary, ExprBlock, ExprCall, ExprDict, ExprFor,
    ExprGroup, ExprIf, ExprLet, ExprTemplate, ExprUnary, ForPattern, Named,
};
pub use crate::ident::Ident;
pub use crate::lit::{AngularUnit, LengthUnit, Lit, LitKind, Numeral, RgbaColor};
pub use crate::node::{Node, NodeHeading, NodeRaw, Tree};
pub use crate::ops::{Associativity, BinOp, UnOp};
pub use crate::pretty::{pretty, pretty_expr, pretty_tree};
pub use crate::printer::Printer;
pub use crate::span::{Pos, Span};
pub use crate::token::Token;
