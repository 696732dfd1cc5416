//! The canonical text of a tree, and the printer that writes it.
//!
//! Every kind of node has a `text`: the one source text that stands for it.
//! Its `pretty` method appends exactly that text to a [`Printer`]. Spans
//! play no part in either.

use vstd::prelude::*;
use crate::expr::{
    Argument, Expr, ExprArgs, ExprArray, ExprBinary, ExprBlock, ExprCall, ExprDict, ExprFor,
    ExprGroup, ExprIf, ExprLet, ExprTemplate, ExprUnary, ForPattern, Named,
};
use crate::node::{Node, NodeHeading, Tree};
use crate::ops::{BinOp, UnOp};
use crate::printer::{Printer, concat, join, lemma_concat_next, lemma_join_next};

verus! {

/// The texts of the expressions of a list, in order.
pub open spec fn expr_texts(items: Vec<Expr>) -> Seq<Seq<char>>
    decreases items, 0nat,
{
    Seq::new(
        items.len() as nat,
        |i: int|
            if 0 <= i < items.len() {
                items[i].text()
            } else {
                Seq::empty()
            },
    )
}

/// The texts of the named pairs of a list, in order.
pub open spec fn named_texts(items: Vec<Named>) -> Seq<Seq<char>>
    decreases items, 0nat,
{
    Seq::new(
        items.len() as nat,
        |i: int|
            if 0 <= i < items.len() {
                items[i].text()
            } else {
                Seq::empty()
            },
    )
}

/// The texts of the arguments of a list, in order.
pub open spec fn arg_texts(items: Vec<Argument>) -> Seq<Seq<char>>
    decreases items, 0nat,
{
    Seq::new(
        items.len() as nat,
        |i: int|
            if 0 <= i < items.len() {
                items[i].text()
            } else {
                Seq::empty()
            },
    )
}

/// The texts of the nodes of a tree, in order.
pub open spec fn node_texts(tree: Vec<Node>) -> Seq<Seq<char>>
    decreases tree, 0nat,
{
    Seq::new(
        tree.len() as nat,
        |i: int|
            if 0 <= i < tree.len() {
                tree[i].text()
            } else {
                Seq::empty()
            },
    )
}

/// The text of a tree: the texts of its nodes, one after the other.
pub open spec fn tree_text(tree: Vec<Node>) -> Seq<char>
    decreases tree, 1nat,
{
    concat(node_texts(tree))
}

/// The first `n` arguments of a bracketed call as they follow the callee:
/// nothing where there is none, else a space and the arguments joined by
/// `, `.
pub open spec fn args_head_text(items: Vec<Argument>, n: int) -> Seq<char>
    decreases items, 1nat,
{
    if n <= 0 {
        Seq::empty()
    } else {
        seq![' '] + join(arg_texts(items).take(n), ", "@)
    }
}

impl Expr {
    /// The canonical text of the expression.
    pub open spec fn text(&self) -> Seq<char>
        decreases self,
    {
        match self {
            Expr::Lit(v) => v.text(),
            Expr::Ident(v) => v.text(),
            Expr::Array(v) => v.text(),
            Expr::Dict(v) => v.text(),
            Expr::Template(v) => v.text(),
            Expr::Group(v) => v.text(),
            Expr::Block(v) => v.text(),
            Expr::Unary(v) => v.text(),
            Expr::Binary(v) => v.text(),
            Expr::Call(v) => v.text(),
            Expr::Let(v) => v.text(),
            Expr::If(v) => v.text(),
            Expr::For(v) => v.text(),
        }
    }
}

impl ExprArray {
    /// The items joined by `, ` between parentheses. An array of exactly
    /// one item has a comma after that item, which tells it apart from a
    /// group; no other array has a comma after its last item.
    pub open spec fn text(&self) -> Seq<char>
        decreases self,
    {
        seq!['('] + join(expr_texts(self.items), ", "@) + (if self.items.len() == 1 {
            seq![',']
        } else {
            Seq::empty()
        }) + seq![')']
    }
}

impl ExprDict {
    /// The pairs joined by `, ` between parentheses. The empty dictionary
    /// holds a colon, which tells it apart from the empty array.
    pub open spec fn text(&self) -> Seq<char>
        decreases self,
    {
        seq!['('] + (if self.items.len() == 0 {
            seq![':']
        } else {
            join(named_texts(self.items), ", "@)
        }) + seq![')']
    }
}

impl Named {
    /// The name, a colon and a space, and the expression.
    pub open spec fn text(&self) -> Seq<char>
        decreases self,
    {
        self.name.text() + ": "@ + self.expr.text()
    }
}

impl ExprTemplate {
    /// The call of a template that holds one call and nothing else, written
    /// as a bracketed call; the text of the contents between brackets for
    /// any other template.
    pub open spec fn text(&self) -> Seq<char>
        decreases self,
    {
        if self.tree.len() == 1 {
            match self.tree[0] {
                Node::Expr(Expr::Call(call)) => call.bracketed_text(false),
                _ => seq!['['] + tree_text(*self.tree) + seq![']'],
            }
        } else {
            seq!['['] + tree_text(*self.tree) + seq![']']
        }
    }
}

impl ExprGroup {
    /// The wrapped expression between parentheses, which are never left
    /// out.
    pub open spec fn text(&self) -> Seq<char>
        decreases self,
    {
        seq!['('] + self.expr.text() + seq![')']
    }
}

impl ExprBlock {
    /// The space just inside each brace of a block: one where the block
    /// holds more than one expression, none otherwise.
    pub open spec fn padding(&self) -> Seq<char> {
        if self.exprs.len() > 1 {
            seq![' ']
        } else {
            Seq::empty()
        }
    }

    /// The expressions joined by `; ` between braces, with a space just
    /// inside each brace where there is more than one expression.
    pub open spec fn text(&self) -> Seq<char>
        decreases self,
    {
        seq!['{'] + self.padding() + join(expr_texts(self.exprs), "; "@) + self.padding()
            + seq!['}']
    }
}

impl ExprUnary {
    /// The operator and the operand, with a space between them after the
    /// word `not` and none after a sign.
    pub open spec fn text(&self) -> Seq<char>
        decreases self,
    {
        self.op.spelling() + (if self.op == UnOp::Not {
            seq![' ']
        } else {
            Seq::empty()
        }) + self.expr.text()
    }
}

impl ExprBinary {
    /// The left operand, the operator and the right operand, with one
    /// space on either side of the operator. No parentheses are added:
    /// grouping is written only where the tree holds a group.
    pub open spec fn text(&self) -> Seq<char>
        decreases self,
    {
        self.lhs.text() + seq![' '] + self.op.spelling() + seq![' '] + self.rhs.text()
    }
}

impl ExprArgs {
    /// The arguments joined by `, `.
    pub open spec fn text(&self) -> Seq<char>
        decreases self,
    {
        join(arg_texts(self.items), ", "@)
    }
}

impl Argument {
    /// The text of the expression, or of the named pair.
    pub open spec fn text(&self) -> Seq<char>
        decreases self,
    {
        match self {
            Argument::Pos(expr) => expr.text(),
            Argument::Named(named) => named.text(),
        }
    }
}

impl ExprCall {
    /// The call in its parenthesized form: the callee, and the arguments
    /// joined by `, ` between parentheses.
    pub open spec fn text(&self) -> Seq<char>
        decreases self,
    {
        self.callee.text() + seq!['('] + self.args.text() + seq![')']
    }

    /// The call in its bracketed form.
    ///
    /// It opens with `#[`, or with ` | ` where the call goes on a chain,
    /// followed by the callee. What follows depends on the last argument:
    ///
    /// - a positional call: the arguments before it, and that call as the
    ///   next link of the chain, which in the end closes the bracket;
    /// - else a positional template: the arguments before it, the closing
    ///   bracket, and the template as the body of the call;
    /// - anything else, or no argument at all: all the arguments, and the
    ///   closing bracket.
    pub open spec fn bracketed_text(&self, chained: bool) -> Seq<char>
        decreases self,
    {
        let items = self.args.items;
        let n = items.len() as int;
        let head = (if chained {
            " | "@
        } else {
            "#["@
        }) + self.callee.text();
        if n == 0 {
            head + seq![']']
        } else {
            match items[n - 1] {
                Argument::Pos(Expr::Call(call)) => head + args_head_text(items, n - 1)
                    + call.bracketed_text(true),
                Argument::Pos(Expr::Template(template)) => head + args_head_text(items, n - 1)
                    + seq![']'] + template.text(),
                _ => head + args_head_text(items, n) + seq![']'],
            }
        }
    }
}

impl ExprLet {
    /// `#let`, the binding and, where there is an initializer, ` = ` and
    /// the initializer.
    pub open spec fn text(&self) -> Seq<char>
        decreases self,
    {
        "#let "@ + self.binding.text() + (match self.init {
            Some(init) => " = "@ + init.text(),
            None => Seq::empty(),
        })
    }
}

impl ExprIf {
    /// `#if`, the condition and the body and, where there is an else body,
    /// ` #else ` and that body.
    pub open spec fn text(&self) -> Seq<char>
        decreases self,
    {
        "#if "@ + self.condition.text() + seq![' '] + self.if_body.text() + (match self.else_body {
            Some(expr) => " #else "@ + expr.text(),
            None => Seq::empty(),
        })
    }
}

impl ExprFor {
    /// `#for`, the pattern, `#in`, the iterated expression and the body.
    pub open spec fn text(&self) -> Seq<char>
        decreases self,
    {
        "#for "@ + self.pattern.text() + " #in "@ + self.iter.text() + seq![' ']
            + self.body.text()
    }
}

impl ForPattern {
    /// The one binding, or the key and the value separated by `, `.
    pub open spec fn text(&self) -> Seq<char> {
        match self {
            ForPattern::Value(v) => v.text(),
            ForPattern::KeyValue(k, v) => k.text() + ", "@ + v.text(),
        }
    }
}

impl NodeHeading {
    /// One equals sign more than the level, followed by the contents.
    pub open spec fn text(&self) -> Seq<char>
        decreases self,
    {
        Seq::new((self.level + 1) as nat, |i: int| '=') + tree_text(self.contents)
    }
}

impl Node {
    /// The text of the node. A call that stands directly in markup is
    /// written as a bracketed call; any other expression is written as it
    /// is.
    pub open spec fn text(&self) -> Seq<char>
        decreases self,
    {
        match self {
            Node::Strong => seq!['*'],
            Node::Emph => seq!['_'],
            Node::Space => seq![' '],
            Node::Linebreak => seq!['\\'],
            Node::Parbreak => seq!['\n', '\n'],
            Node::Text(text) => text@,
            Node::Heading(heading) => heading.text(),
            Node::Raw(raw) => raw.text(),
            Node::Expr(Expr::Call(call)) => call.bracketed_text(false),
            Node::Expr(expr) => expr.text(),
        }
    }
}

/// Write the expressions of a list, joined by a separator.
pub fn pretty_exprs(items: &Vec<Expr>, sep: &str, p: &mut Printer)
    ensures
        final(p)@ == old(p)@ + join(expr_texts(*items), sep@),
    decreases items, 0nat,
{
    let ghost texts = expr_texts(*items);
    let mut i: usize = 0;
    while i < items.len()
        invariant
            i <= items.len(),
            texts == expr_texts(*items),
            p@ == old(p)@ + join(texts.take(i as int), sep@),
        decreases items.len() - i,
    {
        proof {
            lemma_join_next(texts, sep@, i as int);
        }
        if i > 0 {
            p.push_str(sep);
        }
        items[i].pretty(p);
        i += 1;
    }
    assert(texts.take(items.len() as int) == texts);
}

/// Write the named pairs of a list, joined by `, `.
pub fn pretty_named(items: &Vec<Named>, p: &mut Printer)
    ensures
        final(p)@ == old(p)@ + join(named_texts(*items), ", "@),
    decreases items, 0nat,
{
    let ghost texts = named_texts(*items);
    let mut i: usize = 0;
    while i < items.len()
        invariant
            i <= items.len(),
            texts == named_texts(*items),
            p@ == old(p)@ + join(texts.take(i as int), ", "@),
        decreases items.len() - i,
    {
        proof {
            lemma_join_next(texts, ", "@, i as int);
        }
        if i > 0 {
            p.push_str(", ");
        }
        items[i].pretty(p);
        i += 1;
    }
    assert(texts.take(items.len() as int) == texts);
}

/// Write the first `n` arguments of a list, joined by `, `.
fn pretty_args(items: &Vec<Argument>, n: usize, p: &mut Printer)
    requires
        n <= items.len(),
    ensures
        final(p)@ == old(p)@ + join(arg_texts(*items).take(n as int), ", "@),
    decreases items, 0nat,
{
    let ghost texts = arg_texts(*items);
    let mut i: usize = 0;
    while i < n
        invariant
            i <= n <= items.len(),
            texts == arg_texts(*items),
            p@ == old(p)@ + join(texts.take(n as int).take(i as int), ", "@),
        decreases n - i,
    {
        proof {
            lemma_join_next(texts.take(n as int), ", "@, i as int);
        }
        if i > 0 {
            p.push_str(", ");
        }
        items[i].pretty(p);
        i += 1;
    }
    assert(texts.take(n as int).take(n as int) == texts.take(n as int));
}

/// Write the first `n` arguments of a bracketed call as they follow the
/// callee.
fn pretty_args_head(items: &Vec<Argument>, n: usize, p: &mut Printer)
    requires
        n <= items.len(),
    ensures
        final(p)@ == old(p)@ + args_head_text(*items, n as int),
    decreases items, 1nat,
{
    if n > 0 {
        p.push(' ');
        pretty_args(items, n, p);
    }
}

/// Write the nodes of a tree, one after the other.
pub fn pretty_tree(tree: &Tree, p: &mut Printer)
    ensures
        final(p)@ == old(p)@ + tree_text(*tree),
    decreases tree, 1nat,
{
    let ghost texts = node_texts(*tree);
    let mut i: usize = 0;
    while i < tree.len()
        invariant
            i <= tree.len(),
            texts == node_texts(*tree),
            p@ == old(p)@ + concat(texts.take(i as int)),
        decreases tree.len() - i,
    {
        proof {
            lemma_concat_next(texts, i as int);
        }
        tree[i].pretty(p);
        i += 1;
    }
    assert(texts.take(tree.len() as int) == texts);
}

/// The canonical source text of a tree.
pub fn pretty(tree: &Tree) -> (text: String)
    ensures
        text@ == tree_text(*tree),
{
    let mut p = Printer::new();
    pretty_tree(tree, &mut p);
    p.finish()
}

/// The canonical source text of an expression.
pub fn pretty_expr(expr: &Expr) -> (text: String)
    ensures
        text@ == expr.text(),
{
    let mut p = Printer::new();
    expr.pretty(&mut p);
    p.finish()
}

impl Expr {
    /// Write the expression in its canonical text.
    pub fn pretty(&self, p: &mut Printer)
        ensures
            final(p)@ == old(p)@ + self.text(),
        decreases self,
    {
        match self {
            Expr::Lit(v) => v.pretty(p),
            Expr::Ident(v) => v.pretty(p),
            Expr::Array(v) => v.pretty(p),
            Expr::Dict(v) => v.pretty(p),
            Expr::Template(v) => v.pretty(p),
            Expr::Group(v) => v.pretty(p),
            Expr::Block(v) => v.pretty(p),
            Expr::Unary(v) => v.pretty(p),
            Expr::Binary(v) => v.pretty(p),
            Expr::Call(v) => v.pretty(p),
            Expr::Let(v) => v.pretty(p),
            Expr::If(v) => v.pretty(p),
            Expr::For(v) => v.pretty(p),
        }
    }
}

impl ExprArray {
    /// Write the array in its canonical text.
    pub fn pretty(&self, p: &mut Printer)
        ensures
            final(p)@ == old(p)@ + self.text(),
        decreases self,
    {
        p.push('(');
        pretty_exprs(&self.items, ", ", p);
        if self.items.len() == 1 {
            p.push(',');
        }
        p.push(')');
    }
}

impl ExprDict {
    /// Write the dictionary in its canonical text.
    pub fn pretty(&self, p: &mut Printer)
        ensures
            final(p)@ == old(p)@ + self.text(),
        decreases self,
    {
        p.push('(');
        if self.items.len() == 0 {
            p.push(':');
        } else {
            pretty_named(&self.items, p);
        }
        p.push(')');
    }
}

impl Named {
    /// Write the named pair in its canonical text.
    pub fn pretty(&self, p: &mut Printer)
        ensures
            final(p)@ == old(p)@ + self.text(),
        decreases self,
    {
        self.name.pretty(p);
        p.push_str(": ");
        self.expr.pretty(p);
    }
}

impl ExprTemplate {
    /// Write the template in its canonical text.
    pub fn pretty(&self, p: &mut Printer)
        ensures
            final(p)@ == old(p)@ + self.text(),
        decreases self,
    {
        if self.tree.len() == 1 {
            if let Node::Expr(Expr::Call(call)) = &self.tree[0] {
                call.pretty_bracketed(p, false);
                return ;
            }
        }
        p.push('[');
        pretty_tree(&self.tree, p);
        p.push(']');
    }
}

impl ExprGroup {
    /// Write the group in its canonical text.
    pub fn pretty(&self, p: &mut Printer)
        ensures
            final(p)@ == old(p)@ + self.text(),
        decreases self,
    {
        p.push('(');
        self.expr.pretty(p);
        p.push(')');
    }
}

impl ExprBlock {
    /// Write the block in its canonical text.
    pub fn pretty(&self, p: &mut Printer)
        ensures
            final(p)@ == old(p)@ + self.text(),
        decreases self,
    {
        p.push('{');
        if self.exprs.len() > 1 {
            p.push(' ');
        }
        pretty_exprs(&self.exprs, "; ", p);
        if self.exprs.len() > 1 {
            p.push(' ');
        }
        p.push('}');
    }
}

impl UnOp {
    /// Write the operator as it is spelled.
    pub fn pretty(&self, p: &mut Printer)
        ensures
            final(p)@ == old(p)@ + self.spelling(),
    {
        p.push_str(self.as_str());
    }
}

impl ExprUnary {
    /// Write the unary operation in its canonical text.
    pub fn pretty(&self, p: &mut Printer)
        ensures
            final(p)@ == old(p)@ + self.text(),
        decreases self,
    {
        self.op.pretty(p);
        if self.op == UnOp::Not {
            p.push(' ');
        }
        self.expr.pretty(p);
    }
}

impl BinOp {
    /// Write the operator as it is spelled.
    pub fn pretty(&self, p: &mut Printer)
        ensures
            final(p)@ == old(p)@ + self.spelling(),
    {
        p.push_str(self.as_str());
    }
}

impl ExprBinary {
    /// Write the binary operation in its canonical text.
    pub fn pretty(&self, p: &mut Printer)
        ensures
            final(p)@ == old(p)@ + self.text(),
        decreases self,
    {
        self.lhs.pretty(p);
        p.push(' ');
        self.op.pretty(p);
        p.push(' ');
        self.rhs.pretty(p);
    }
}

impl ExprArgs {
    /// Write the arguments, joined by `, `.
    pub fn pretty(&self, p: &mut Printer)
        ensures
            final(p)@ == old(p)@ + self.text(),
        decreases self,
    {
        pretty_args(&self.items, self.items.len(), p);
        assert(arg_texts(self.items).take(self.items.len() as int) == arg_texts(self.items));
    }
}

impl Argument {
    /// Write the argument in its canonical text.
    pub fn pretty(&self, p: &mut Printer)
        ensures
            final(p)@ == old(p)@ + self.text(),
        decreases self,
    {
        match self {
            Argument::Pos(expr) => expr.pretty(p),
            Argument::Named(named) => named.pretty(p),
        }
    }
}

impl ExprCall {
    /// Write the call in its parenthesized form.
    pub fn pretty(&self, p: &mut Printer)
        ensures
            final(p)@ == old(p)@ + self.text(),
        decreases self,
    {
        self.callee.pretty(p);
        p.push('(');
        self.args.pretty(p);
        p.push(')');
    }

    /// Pretty print a function template, with body or chaining when possible.
    ///
    /// With `chained` set, the call is written as the next link of a chain
    /// that an enclosing call has opened.
    pub fn pretty_bracketed(&self, p: &mut Printer, chained: bool)
        ensures
            final(p)@ == old(p)@ + self.bracketed_text(chained),
        decreases self,
    {
        if chained {
            p.push_str(" | ");
        } else {
            p.push_str("#[");
        }

        // Function name.
        self.callee.pretty(p);

        let items = &self.args.items;
        let n = items.len();
        if n > 0 {
            match &items[n - 1] {
                // This can be written as a chain.
                Argument::Pos(Expr::Call(call)) => {
                    pretty_args_head(items, n - 1, p);
                    call.pretty_bracketed(p, true);
                    return ;
                },
                // This can be written with a body.
                Argument::Pos(Expr::Template(template)) => {
                    pretty_args_head(items, n - 1, p);
                    p.push(']');
                    template.pretty(p);
                    return ;
                },
                _ => {},
            }
        }
        pretty_args_head(items, n, p);
        p.push(']');
    }
}

impl ExprLet {
    /// Write the let expression in its canonical text.
    pub fn pretty(&self, p: &mut Printer)
        ensures
            final(p)@ == old(p)@ + self.text(),
        decreases self,
    {
        p.push_str("#let ");
        self.binding.pretty(p);
        if let Some(init) = &self.init {
            p.push_str(" = ");
            init.pretty(p);
        }
    }
}

impl ExprIf {
    /// Write the if expression in its canonical text.
    pub fn pretty(&self, p: &mut Printer)
        ensures
            final(p)@ == old(p)@ + self.text(),
        decreases self,
    {
        p.push_str("#if ");
        self.condition.pretty(p);
        p.push(' ');
        self.if_body.pretty(p);
        if let Some(expr) = &self.else_body {
            p.push_str(" #else ");
            expr.pretty(p);
        }
    }
}

impl ExprFor {
    /// Write the for expression in its canonical text.
    pub fn pretty(&self, p: &mut Printer)
        ensures
            final(p)@ == old(p)@ + self.text(),
        decreases self,
    {
        p.push_str("#for ");
        self.pattern.pretty(p);
        p.push_str(" #in ");
        self.iter.pretty(p);
        p.push(' ');
        self.body.pretty(p);
    }
}

impl ForPattern {
    /// Write the pattern in its canonical text.
    pub fn pretty(&self, p: &mut Printer)
        ensures
            final(p)@ == old(p)@ + self.text(),
    {
        match self {
            ForPattern::Value(v) => v.pretty(p),
            ForPattern::KeyValue(k, v) => {
                k.pretty(p);
                p.push_str(", ");
                v.pretty(p);
            },
        }
    }
}

impl NodeHeading {
    /// Write the heading in its canonical text.
    pub fn pretty(&self, p: &mut Printer)
        ensures
            final(p)@ == old(p)@ + self.text(),
        decreases self,
    {
        let mut i: usize = 0;
        while i < self.level
            invariant
                i <= self.level,
                p@ == old(p)@ + Seq::new(i as nat, |j: int| '='),
            decreases self.level - i,
        {
            p.push('=');
            i += 1;
        }
        p.push('=');
        pretty_tree(&self.contents, p);
    }
}

impl Node {
    /// Write the node in its canonical text.
    pub fn pretty(&self, p: &mut Printer)
        ensures
            final(p)@ == old(p)@ + self.text(),
        decreases self,
    {
        match self {
            Node::Strong => p.push('*'),
            Node::Emph => p.push('_'),
            Node::Space => p.push(' '),
            Node::Linebreak => p.push('\\'),
            Node::Parbreak => {
                p.push('\n');
                p.push('\n');
            },
            Node::Text(text) => p.push_str(text.as_str()),
            Node::Heading(heading) => heading.pretty(p),
            Node::Raw(raw) => raw.pretty(p),
            Node::Expr(Expr::Call(call)) => call.pretty_bracketed(p, false),
            Node::Expr(expr) => expr.pretty(p),
        }
    }
}

} // verus!
