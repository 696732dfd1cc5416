//! Copies of trees.
//!
//! A copy of a tree is the same as the tree it was made from. The contents
//! of a template are not copied: the copy shares them.

use std::rc::Rc;
use vstd::prelude::*;
use crate::expr::{
    Argument, Expr, ExprArgs, ExprArray, ExprBinary, ExprBlock, ExprCall, ExprDict, ExprFor,
    ExprGroup, ExprIf, ExprLet, ExprTemplate, ExprUnary, ForPattern, Named,
};
use crate::ident::Ident;
use crate::lit::{Lit, LitKind, Numeral};
use crate::node::{Node, NodeHeading, NodeRaw, Tree};
use crate::same::{lemma_same_tree_refl, same_args, same_exprs, same_named, same_tree};

verus! {

/// `Rc::clone` makes another pointer to the same allocation, so what the
/// new handle holds is what the given handle holds.
#[verifier::external_body]
fn share(tree: &Rc<Tree>) -> (shared: Rc<Tree>)
    ensures
        *shared == **tree,
{
    Rc::clone(tree)
}

impl Clone for Ident {
    fn clone(&self) -> (res: Self)
        ensures
            res == *self,
    {
        Ident { span: self.span, string: self.string.clone() }
    }
}

impl Clone for Lit {
    fn clone(&self) -> (res: Self)
        ensures
            res == *self,
    {
        Lit { span: self.span, kind: self.kind.clone() }
    }
}

impl Clone for ForPattern {
    fn clone(&self) -> (res: Self)
        ensures
            res == *self,
    {
        match self {
            ForPattern::Value(v) => ForPattern::Value(v.clone()),
            ForPattern::KeyValue(k, v) => ForPattern::KeyValue(k.clone(), v.clone()),
        }
    }
}

/// A copy of a list of expressions.
fn clone_exprs(items: &Vec<Expr>) -> (res: Vec<Expr>)
    ensures
        same_exprs(*items, res),
    decreases items,
{
    let mut res: Vec<Expr> = Vec::new();
    let mut i: usize = 0;
    while i < items.len()
        invariant
            i <= items.len(),
            res.len() == i,
            forall|j: int| 0 <= j < i ==> (#[trigger] items[j]).same(res[j]),
        decreases items.len() - i,
    {
        res.push(items[i].clone());
        i += 1;
    }
    res
}

/// A copy of a list of named pairs.
fn clone_named(items: &Vec<Named>) -> (res: Vec<Named>)
    ensures
        same_named(*items, res),
    decreases items,
{
    let mut res: Vec<Named> = Vec::new();
    let mut i: usize = 0;
    while i < items.len()
        invariant
            i <= items.len(),
            res.len() == i,
            forall|j: int| 0 <= j < i ==> (#[trigger] items[j]).same(res[j]),
        decreases items.len() - i,
    {
        res.push(items[i].clone());
        i += 1;
    }
    res
}

/// A copy of a list of arguments.
fn clone_args(items: &Vec<Argument>) -> (res: Vec<Argument>)
    ensures
        same_args(*items, res),
    decreases items,
{
    let mut res: Vec<Argument> = Vec::new();
    let mut i: usize = 0;
    while i < items.len()
        invariant
            i <= items.len(),
            res.len() == i,
            forall|j: int| 0 <= j < i ==> (#[trigger] items[j]).same(res[j]),
        decreases items.len() - i,
    {
        res.push(items[i].clone());
        i += 1;
    }
    res
}

/// A copy of a tree.
pub fn clone_tree(tree: &Tree) -> (res: Tree)
    ensures
        same_tree(*tree, res),
    decreases tree,
{
    let mut res: Vec<Node> = Vec::new();
    let mut i: usize = 0;
    while i < tree.len()
        invariant
            i <= tree.len(),
            res.len() == i,
            forall|j: int| 0 <= j < i ==> (#[trigger] tree[j]).same(res[j]),
        decreases tree.len() - i,
    {
        res.push(tree[i].clone());
        i += 1;
    }
    res
}

/// A copy of a list of lines.
fn clone_lines(lines: &Vec<String>) -> (res: Vec<String>)
    ensures
        res@ == lines@,
{
    let mut res: Vec<String> = Vec::new();
    let mut i: usize = 0;
    while i < lines.len()
        invariant
            i <= lines.len(),
            res@ == lines@.take(i as int),
        decreases lines.len() - i,
    {
        res.push(lines[i].clone());
        i += 1;
    }
    assert(lines@.take(lines.len() as int) == lines@);
    res
}

/// A copy of an expression in a box of its own.
fn clone_boxed(expr: &Box<Expr>) -> (res: Box<Expr>)
    ensures
        expr.same(*res),
    decreases expr, 1nat,
{
    Box::new((**expr).clone())
}

/// A copy of an expression in a box of its own, where there is one.
fn clone_optional(expr: &Option<Box<Expr>>) -> (res: Option<Box<Expr>>)
    ensures
        match (*expr, res) {
            (Some(a), Some(b)) => a.same(*b),
            (None, None) => true,
            _ => false,
        },
    decreases expr,
{
    match expr {
        Some(expr) => Some(clone_boxed(expr)),
        None => None,
    }
}

impl Clone for Expr {
    fn clone(&self) -> (res: Self)
        ensures
            self.same(res),
        decreases self, 0nat,
    {
        match self {
            Expr::Lit(v) => Expr::Lit(v.clone()),
            Expr::Ident(v) => Expr::Ident(v.clone()),
            Expr::Array(v) => Expr::Array(v.clone()),
            Expr::Dict(v) => Expr::Dict(v.clone()),
            Expr::Template(v) => Expr::Template(v.clone()),
            Expr::Group(v) => Expr::Group(v.clone()),
            Expr::Block(v) => Expr::Block(v.clone()),
            Expr::Unary(v) => Expr::Unary(v.clone()),
            Expr::Binary(v) => Expr::Binary(v.clone()),
            Expr::Call(v) => Expr::Call(v.clone()),
            Expr::Let(v) => Expr::Let(v.clone()),
            Expr::If(v) => Expr::If(v.clone()),
            Expr::For(v) => Expr::For(v.clone()),
        }
    }
}

impl Clone for ExprArray {
    fn clone(&self) -> (res: Self)
        ensures
            self.same(res),
        decreases self,
    {
        ExprArray { span: self.span, items: clone_exprs(&self.items) }
    }
}

impl Clone for ExprDict {
    fn clone(&self) -> (res: Self)
        ensures
            self.same(res),
        decreases self,
    {
        ExprDict { span: self.span, items: clone_named(&self.items) }
    }
}

impl Clone for Named {
    fn clone(&self) -> (res: Self)
        ensures
            self.same(res),
        decreases self,
    {
        Named { name: self.name.clone(), expr: self.expr.clone() }
    }
}

impl Clone for ExprTemplate {
    fn clone(&self) -> (res: Self)
        ensures
            self.same(res),
            res == *self,
    {
        let res = ExprTemplate { span: self.span, tree: share(&self.tree) };
        proof {
            lemma_same_tree_refl(res.contents());
        }
        res
    }
}

impl Clone for ExprGroup {
    fn clone(&self) -> (res: Self)
        ensures
            self.same(res),
        decreases self,
    {
        ExprGroup { span: self.span, expr: clone_boxed(&self.expr) }
    }
}

impl Clone for ExprBlock {
    fn clone(&self) -> (res: Self)
        ensures
            self.same(res),
        decreases self,
    {
        ExprBlock { span: self.span, exprs: clone_exprs(&self.exprs), scoping: self.scoping }
    }
}

impl Clone for ExprUnary {
    fn clone(&self) -> (res: Self)
        ensures
            self.same(res),
        decreases self,
    {
        ExprUnary { span: self.span, op: self.op, expr: clone_boxed(&self.expr) }
    }
}

impl Clone for ExprBinary {
    fn clone(&self) -> (res: Self)
        ensures
            self.same(res),
        decreases self,
    {
        ExprBinary {
            span: self.span,
            lhs: clone_boxed(&self.lhs),
            op: self.op,
            rhs: clone_boxed(&self.rhs),
        }
    }
}

impl Clone for ExprCall {
    fn clone(&self) -> (res: Self)
        ensures
            self.same(res),
        decreases self,
    {
        ExprCall { span: self.span, callee: clone_boxed(&self.callee), args: self.args.clone() }
    }
}

impl Clone for ExprArgs {
    fn clone(&self) -> (res: Self)
        ensures
            self.same(res),
        decreases self,
    {
        ExprArgs { span: self.span, items: clone_args(&self.items) }
    }
}

impl Clone for Argument {
    fn clone(&self) -> (res: Self)
        ensures
            self.same(res),
        decreases self,
    {
        match self {
            Argument::Pos(expr) => Argument::Pos(expr.clone()),
            Argument::Named(named) => Argument::Named(named.clone()),
        }
    }
}

impl Clone for ExprLet {
    fn clone(&self) -> (res: Self)
        ensures
            self.same(res),
        decreases self,
    {
        ExprLet {
            span: self.span,
            binding: self.binding.clone(),
            init: clone_optional(&self.init),
        }
    }
}

impl Clone for ExprIf {
    fn clone(&self) -> (res: Self)
        ensures
            self.same(res),
        decreases self,
    {
        ExprIf {
            span: self.span,
            condition: clone_boxed(&self.condition),
            if_body: clone_boxed(&self.if_body),
            else_body: clone_optional(&self.else_body),
        }
    }
}

impl Clone for ExprFor {
    fn clone(&self) -> (res: Self)
        ensures
            self.same(res),
        decreases self,
    {
        ExprFor {
            span: self.span,
            pattern: self.pattern.clone(),
            iter: clone_boxed(&self.iter),
            body: clone_boxed(&self.body),
        }
    }
}

impl Clone for NodeHeading {
    fn clone(&self) -> (res: Self)
        ensures
            self.same(res),
        decreases self,
    {
        NodeHeading { level: self.level, contents: clone_tree(&self.contents) }
    }
}

impl Clone for NodeRaw {
    fn clone(&self) -> (res: Self)
        ensures
            self.same(res),
    {
        let lang = match &self.lang {
            Some(lang) => Some(lang.clone()),
            None => None,
        };
        NodeRaw { lang, lines: clone_lines(&self.lines), block: self.block }
    }
}

impl Clone for Node {
    fn clone(&self) -> (res: Self)
        ensures
            self.same(res),
        decreases self,
    {
        match self {
            Node::Strong => Node::Strong,
            Node::Emph => Node::Emph,
            Node::Space => Node::Space,
            Node::Linebreak => Node::Linebreak,
            Node::Parbreak => Node::Parbreak,
            Node::Text(text) => Node::Text(text.clone()),
            Node::Heading(heading) => Node::Heading(heading.clone()),
            Node::Raw(raw) => Node::Raw(raw.clone()),
            Node::Expr(expr) => Node::Expr(expr.clone()),
        }
    }
}

} // verus!
