//! Well-formed trees.
//!
//! A tree is well formed when every identifier in it is an identifier and
//! every numeral in it is a numeral. Printing is defined for every tree;
//! what is stated of the printed text of well-formed trees only is stated
//! in terms of `wf`.

use vstd::prelude::*;
use crate::expr::{
    Argument, Expr, ExprArgs, ExprArray, ExprBinary, ExprBlock, ExprCall, ExprDict, ExprFor,
    ExprGroup, ExprIf, ExprLet, ExprTemplate, ExprUnary, ForPattern, Named,
};
use crate::lit::{Lit, LitKind};
use crate::node::{Node, NodeHeading, NodeRaw};

verus! {

impl LitKind {
    /// Whether the numeral of the literal, if it has one, is a numeral.
    pub open spec fn wf(&self) -> bool {
        match self {
            LitKind::Float(v) => v.wf(),
            LitKind::Length(v, _) => v.wf(),
            LitKind::Angle(v, _) => v.wf(),
            LitKind::Percent(v) => v.wf(),
            _ => true,
        }
    }
}

impl Lit {
    /// Whether the literal is well formed.
    pub open spec fn wf(&self) -> bool {
        self.kind.wf()
    }
}

impl ForPattern {
    /// Whether the bindings are identifiers.
    pub open spec fn wf(&self) -> bool {
        match self {
            ForPattern::Value(v) => v.wf(),
            ForPattern::KeyValue(k, v) => k.wf() && v.wf(),
        }
    }
}

impl NodeRaw {
    /// Whether the language, if there is one, is an identifier.
    pub open spec fn wf(&self) -> bool {
        match self.lang {
            Some(lang) => lang.wf(),
            None => true,
        }
    }
}

/// Whether every expression of a list is well formed.
pub open spec fn exprs_wf(items: Vec<Expr>) -> bool
    decreases items,
{
    forall|i: int| 0 <= i < items.len() ==> (#[trigger] items[i]).wf()
}

/// Whether every named pair of a list is well formed.
pub open spec fn named_wf(items: Vec<Named>) -> bool
    decreases items,
{
    forall|i: int| 0 <= i < items.len() ==> (#[trigger] items[i]).wf()
}

/// Whether every argument of a list is well formed.
pub open spec fn args_wf(items: Vec<Argument>) -> bool
    decreases items,
{
    forall|i: int| 0 <= i < items.len() ==> (#[trigger] items[i]).wf()
}

/// Whether every node of a tree is well formed.
pub open spec fn tree_wf(tree: Vec<Node>) -> bool
    decreases tree,
{
    forall|i: int| 0 <= i < tree.len() ==> (#[trigger] tree[i]).wf()
}

impl Expr {
    /// Whether every identifier and every numeral in the expression is
    /// well formed.
    pub open spec fn wf(&self) -> bool
        decreases self,
    {
        match self {
            Expr::Lit(v) => v.wf(),
            Expr::Ident(v) => v.wf(),
            Expr::Array(v) => v.wf(),
            Expr::Dict(v) => v.wf(),
            Expr::Template(v) => v.wf(),
            Expr::Group(v) => v.wf(),
            Expr::Block(v) => v.wf(),
            Expr::Unary(v) => v.wf(),
            Expr::Binary(v) => v.wf(),
            Expr::Call(v) => v.wf(),
            Expr::Let(v) => v.wf(),
            Expr::If(v) => v.wf(),
            Expr::For(v) => v.wf(),
        }
    }
}

impl ExprArray {
    /// Whether the items are well formed.
    pub open spec fn wf(&self) -> bool
        decreases self,
    {
        exprs_wf(self.items)
    }
}

impl ExprDict {
    /// Whether the pairs are well formed.
    pub open spec fn wf(&self) -> bool
        decreases self,
    {
        named_wf(self.items)
    }
}

impl Named {
    /// Whether the name is an identifier and the expression is well
    /// formed.
    pub open spec fn wf(&self) -> bool
        decreases self,
    {
        self.name.wf() && self.expr.wf()
    }
}

impl ExprTemplate {
    /// Whether the contents are well formed.
    pub open spec fn wf(&self) -> bool
        decreases self,
    {
        tree_wf(*self.tree)
    }
}

impl ExprGroup {
    /// Whether the wrapped expression is well formed.
    pub open spec fn wf(&self) -> bool
        decreases self,
    {
        self.expr.wf()
    }
}

impl ExprBlock {
    /// Whether the expressions are well formed.
    pub open spec fn wf(&self) -> bool
        decreases self,
    {
        exprs_wf(self.exprs)
    }
}

impl ExprUnary {
    /// Whether the operand is well formed.
    pub open spec fn wf(&self) -> bool
        decreases self,
    {
        self.expr.wf()
    }
}

impl ExprBinary {
    /// Whether both operands are well formed.
    pub open spec fn wf(&self) -> bool
        decreases self,
    {
        self.lhs.wf() && self.rhs.wf()
    }
}

impl ExprCall {
    /// Whether the callee and the arguments are well formed.
    pub open spec fn wf(&self) -> bool
        decreases self,
    {
        self.callee.wf() && self.args.wf()
    }
}

impl ExprArgs {
    /// Whether the arguments are well formed.
    pub open spec fn wf(&self) -> bool
        decreases self,
    {
        args_wf(self.items)
    }
}

impl Argument {
    /// Whether the expression or the named pair is well formed.
    pub open spec fn wf(&self) -> bool
        decreases self,
    {
        match self {
            Argument::Pos(expr) => expr.wf(),
            Argument::Named(named) => named.wf(),
        }
    }
}

impl ExprLet {
    /// Whether the binding is an identifier and the initializer, if there
    /// is one, is well formed.
    pub open spec fn wf(&self) -> bool
        decreases self,
    {
        self.binding.wf() && (match self.init {
            Some(init) => init.wf(),
            None => true,
        })
    }
}

impl ExprIf {
    /// Whether the condition and the bodies are well formed.
    pub open spec fn wf(&self) -> bool
        decreases self,
    {
        self.condition.wf() && self.if_body.wf() && (match self.else_body {
            Some(expr) => expr.wf(),
            None => true,
        })
    }
}

impl ExprFor {
    /// Whether the pattern, the iterated expression and the body are well
    /// formed.
    pub open spec fn wf(&self) -> bool
        decreases self,
    {
        self.pattern.wf() && self.iter.wf() && self.body.wf()
    }
}

impl NodeHeading {
    /// Whether the contents are well formed.
    pub open spec fn wf(&self) -> bool
        decreases self,
    {
        tree_wf(self.contents)
    }
}

impl Node {
    /// Whether what the node holds is well formed.
    pub open spec fn wf(&self) -> bool
        decreases self,
    {
        match self {
            Node::Heading(heading) => heading.wf(),
            Node::Raw(raw) => raw.wf(),
            Node::Expr(expr) => expr.wf(),
            _ => true,
        }
    }
}

} // verus!
