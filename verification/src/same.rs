//! Trees that are the same.
//!
//! Two trees are the same when they hold the same nodes with the same
//! spans in the same order. A copy of a tree is the same as the tree it
//! was made from, though its lists live elsewhere in memory, and trees that
//! are the same are written alike.

use vstd::prelude::*;
use crate::expr::{
    Argument, Expr, ExprArgs, ExprArray, ExprBinary, ExprBlock, ExprCall, ExprDict, ExprFor,
    ExprGroup, ExprIf, ExprLet, ExprTemplate, ExprUnary, Named,
};
use crate::node::{Node, NodeHeading, NodeRaw};
use crate::pretty::{arg_texts, args_head_text, expr_texts, named_texts, node_texts, tree_text};
use crate::wf::{args_wf, exprs_wf, named_wf, tree_wf};

verus! {

/// Whether two lists of expressions hold the same expressions in the same
/// order.
pub open spec fn same_exprs(a: Vec<Expr>, b: Vec<Expr>) -> bool
    decreases a,
{
    &&& a.len() == b.len()
    &&& forall|i: int| 0 <= i < a.len() ==> (#[trigger] a[i]).same(b[i])
}

/// Whether two lists of named pairs hold the same pairs in the same order.
pub open spec fn same_named(a: Vec<Named>, b: Vec<Named>) -> bool
    decreases a,
{
    &&& a.len() == b.len()
    &&& forall|i: int| 0 <= i < a.len() ==> (#[trigger] a[i]).same(b[i])
}

/// Whether two lists of arguments hold the same arguments in the same
/// order.
pub open spec fn same_args(a: Vec<Argument>, b: Vec<Argument>) -> bool
    decreases a,
{
    &&& a.len() == b.len()
    &&& forall|i: int| 0 <= i < a.len() ==> (#[trigger] a[i]).same(b[i])
}

/// Whether two trees hold the same nodes in the same order.
pub open spec fn same_tree(a: Vec<Node>, b: Vec<Node>) -> bool
    decreases a,
{
    &&& a.len() == b.len()
    &&& forall|i: int| 0 <= i < a.len() ==> (#[trigger] a[i]).same(b[i])
}

impl Expr {
    /// Whether two expressions are of the same kind and hold the same.
    pub open spec fn same(&self, other: Expr) -> bool
        decreases self,
    {
        match (*self, other) {
            (Expr::Lit(a), Expr::Lit(b)) => a == b,
            (Expr::Ident(a), Expr::Ident(b)) => a == b,
            (Expr::Array(a), Expr::Array(b)) => a.same(b),
            (Expr::Dict(a), Expr::Dict(b)) => a.same(b),
            (Expr::Template(a), Expr::Template(b)) => a.same(b),
            (Expr::Group(a), Expr::Group(b)) => a.same(b),
            (Expr::Block(a), Expr::Block(b)) => a.same(b),
            (Expr::Unary(a), Expr::Unary(b)) => a.same(b),
            (Expr::Binary(a), Expr::Binary(b)) => a.same(b),
            (Expr::Call(a), Expr::Call(b)) => a.same(b),
            (Expr::Let(a), Expr::Let(b)) => a.same(b),
            (Expr::If(a), Expr::If(b)) => a.same(b),
            (Expr::For(a), Expr::For(b)) => a.same(b),
            _ => false,
        }
    }
}

impl ExprArray {
    /// Whether two arrays have the same span and hold the same items.
    pub open spec fn same(&self, other: ExprArray) -> bool
        decreases self,
    {
        self.span == other.span && same_exprs(self.items, other.items)
    }
}

impl ExprDict {
    /// Whether two dictionaries have the same span and hold the same
    /// pairs.
    pub open spec fn same(&self, other: ExprDict) -> bool
        decreases self,
    {
        self.span == other.span && same_named(self.items, other.items)
    }
}

impl Named {
    /// Whether two pairs have the same name and hold the same expression.
    pub open spec fn same(&self, other: Named) -> bool
        decreases self,
    {
        self.name == other.name && self.expr.same(other.expr)
    }
}

impl ExprTemplate {
    /// The nodes that the template holds.
    pub open spec fn contents(&self) -> Vec<Node> {
        *self.tree
    }

    /// Whether two templates have the same span and hold the same
    /// contents.
    pub open spec fn same(&self, other: ExprTemplate) -> bool
        decreases self,
    {
        self.span == other.span && same_tree(*self.tree, *other.tree)
    }
}

impl ExprGroup {
    /// Whether two groups have the same span and wrap the same.
    pub open spec fn same(&self, other: ExprGroup) -> bool
        decreases self,
    {
        self.span == other.span && self.expr.same(*other.expr)
    }
}

impl ExprBlock {
    /// Whether two blocks have the same span and scoping and hold the same
    /// expressions.
    pub open spec fn same(&self, other: ExprBlock) -> bool
        decreases self,
    {
        self.span == other.span && self.scoping == other.scoping && same_exprs(
            self.exprs,
            other.exprs,
        )
    }
}

impl ExprUnary {
    /// Whether two unary operations have the same span, operator and
    /// operand.
    pub open spec fn same(&self, other: ExprUnary) -> bool
        decreases self,
    {
        self.span == other.span && self.op == other.op && self.expr.same(*other.expr)
    }
}

impl ExprBinary {
    /// Whether two binary operations have the same span, operator and
    /// operands.
    pub open spec fn same(&self, other: ExprBinary) -> bool
        decreases self,
    {
        self.span == other.span && self.op == other.op && self.lhs.same(*other.lhs)
            && self.rhs.same(*other.rhs)
    }
}

impl ExprCall {
    /// Whether two calls have the same span, callee and arguments.
    pub open spec fn same(&self, other: ExprCall) -> bool
        decreases self,
    {
        self.span == other.span && self.callee.same(*other.callee) && self.args.same(other.args)
    }
}

impl ExprArgs {
    /// Whether two argument lists have the same span and hold the same
    /// arguments.
    pub open spec fn same(&self, other: ExprArgs) -> bool
        decreases self,
    {
        self.span == other.span && same_args(self.items, other.items)
    }
}

impl Argument {
    /// Whether two arguments are of the same kind and hold the same.
    pub open spec fn same(&self, other: Argument) -> bool
        decreases self,
    {
        match (*self, other) {
            (Argument::Pos(a), Argument::Pos(b)) => a.same(b),
            (Argument::Named(a), Argument::Named(b)) => a.same(b),
            _ => false,
        }
    }
}

impl ExprLet {
    /// Whether two let expressions have the same span, binding and
    /// initializer.
    pub open spec fn same(&self, other: ExprLet) -> bool
        decreases self,
    {
        self.span == other.span && self.binding == other.binding && (match (
            self.init,
            other.init,
        ) {
            (Some(a), Some(b)) => a.same(*b),
            (None, None) => true,
            _ => false,
        })
    }
}

impl ExprIf {
    /// Whether two if expressions have the same span, condition and
    /// bodies.
    pub open spec fn same(&self, other: ExprIf) -> bool
        decreases self,
    {
        self.span == other.span && self.condition.same(*other.condition) && self.if_body.same(
            *other.if_body,
        ) && (match (self.else_body, other.else_body) {
            (Some(a), Some(b)) => a.same(*b),
            (None, None) => true,
            _ => false,
        })
    }
}

impl ExprFor {
    /// Whether two for expressions have the same span, pattern, iterated
    /// expression and body.
    pub open spec fn same(&self, other: ExprFor) -> bool
        decreases self,
    {
        self.span == other.span && self.pattern == other.pattern && self.iter.same(*other.iter)
            && self.body.same(*other.body)
    }
}

impl NodeHeading {
    /// Whether two headings have the same level and hold the same
    /// contents.
    pub open spec fn same(&self, other: NodeHeading) -> bool
        decreases self,
    {
        self.level == other.level && same_tree(self.contents, other.contents)
    }
}

impl NodeRaw {
    /// Whether two raw blocks have the same language, lines and kind.
    pub open spec fn same(&self, other: NodeRaw) -> bool {
        self.lang == other.lang && self.lines@ == other.lines@ && self.block == other.block
    }
}

impl Node {
    /// Whether two nodes are of the same kind and hold the same.
    pub open spec fn same(&self, other: Node) -> bool
        decreases self,
    {
        match (*self, other) {
            (Node::Strong, Node::Strong) => true,
            (Node::Emph, Node::Emph) => true,
            (Node::Space, Node::Space) => true,
            (Node::Linebreak, Node::Linebreak) => true,
            (Node::Parbreak, Node::Parbreak) => true,
            (Node::Text(a), Node::Text(b)) => a == b,
            (Node::Heading(a), Node::Heading(b)) => a.same(b),
            (Node::Raw(a), Node::Raw(b)) => a.same(b),
            (Node::Expr(a), Node::Expr(b)) => a.same(b),
            _ => false,
        }
    }
}

/// Lists of the same expressions have the same texts, and are well
/// formed together.
pub proof fn lemma_same_exprs(a: Vec<Expr>, b: Vec<Expr>)
    requires
        same_exprs(a, b),
    ensures
        expr_texts(a) == expr_texts(b),
        exprs_wf(a) == exprs_wf(b),
    decreases a,
{
    assert forall|i: int| 0 <= i < a.len() implies a[i].text() == b[i].text() && a[i].wf()
        == b[i].wf() by {
        assert(a[i].same(b[i]));
        lemma_same_expr(a[i], b[i]);
    }
    assert(expr_texts(a) =~= expr_texts(b));
}

/// Lists of the same named pairs have the same texts, and are well formed
/// together.
pub proof fn lemma_same_named_list(a: Vec<Named>, b: Vec<Named>)
    requires
        same_named(a, b),
    ensures
        named_texts(a) == named_texts(b),
        named_wf(a) == named_wf(b),
    decreases a,
{
    assert forall|i: int| 0 <= i < a.len() implies a[i].text() == b[i].text() && a[i].wf()
        == b[i].wf() by {
        assert(a[i].same(b[i]));
        lemma_same_named(a[i], b[i]);
    }
    assert(named_texts(a) =~= named_texts(b));
}

/// Lists of the same arguments have the same texts, and are well formed
/// together.
pub proof fn lemma_same_args(a: Vec<Argument>, b: Vec<Argument>)
    requires
        same_args(a, b),
    ensures
        arg_texts(a) == arg_texts(b),
        args_wf(a) == args_wf(b),
        forall|n: int| args_head_text(a, n) == args_head_text(b, n),
    decreases a,
{
    assert forall|i: int| 0 <= i < a.len() implies a[i].text() == b[i].text() && a[i].wf()
        == b[i].wf() by {
        assert(a[i].same(b[i]));
        lemma_same_argument(a[i], b[i]);
    }
    assert(arg_texts(a) =~= arg_texts(b));
}

/// Trees of the same nodes are written alike, and are well formed
/// together.
pub proof fn lemma_same_tree(a: Vec<Node>, b: Vec<Node>)
    requires
        same_tree(a, b),
    ensures
        tree_text(a) == tree_text(b),
        tree_wf(a) == tree_wf(b),
    decreases a,
{
    assert forall|i: int| 0 <= i < a.len() implies a[i].text() == b[i].text() && a[i].wf()
        == b[i].wf() by {
        assert(a[i].same(b[i]));
        lemma_same_node(a[i], b[i]);
    }
    assert(node_texts(a) =~= node_texts(b));
}

/// The same named pairs are written alike, have the same span and are well
/// formed together.
pub proof fn lemma_same_named(a: Named, b: Named)
    requires
        a.same(b),
    ensures
        a.text() == b.text(),
        a.wf() == b.wf(),
        a.span() == b.span(),
    decreases a,
{
    lemma_same_expr(a.expr, b.expr);
}

/// The same arguments are written alike, have the same span and are well
/// formed together.
pub proof fn lemma_same_argument(a: Argument, b: Argument)
    requires
        a.same(b),
    ensures
        a.text() == b.text(),
        a.wf() == b.wf(),
        a.span() == b.span(),
    decreases a,
{
    match (a, b) {
        (Argument::Pos(x), Argument::Pos(y)) => {
            lemma_same_expr(x, y);
        },
        (Argument::Named(x), Argument::Named(y)) => {
            lemma_same_named(x, y);
        },
        _ => {},
    }
}

/// The same calls are written alike in either form, and are well formed
/// together.
pub proof fn lemma_same_call(a: ExprCall, b: ExprCall)
    requires
        a.same(b),
    ensures
        a.text() == b.text(),
        forall|chained: bool| a.bracketed_text(chained) == b.bracketed_text(chained),
        a.wf() == b.wf(),
    decreases a,
{
    assert(a.args.same(b.args));
    assert(same_args(a.args.items, b.args.items));
    lemma_same_expr(*a.callee, *b.callee);
    lemma_same_args(a.args.items, b.args.items);
    let n = a.args.items.len() as int;
    assert(args_head_text(a.args.items, n) == args_head_text(b.args.items, n));
    assert(args_head_text(a.args.items, n - 1) == args_head_text(b.args.items, n - 1));
    if n > 0 {
        let x = a.args.items[n - 1];
        let y = b.args.items[n - 1];
        assert(x.same(y));
        match x {
            Argument::Pos(Expr::Call(c)) => {
                let d = y->Pos_0->Call_0;
                assert(x->Pos_0.same(y->Pos_0));
                assert(c.same(d));
                lemma_same_call(c, d);
                assert(c.bracketed_text(true) == d.bracketed_text(true));
            },
            Argument::Pos(Expr::Template(c)) => {
                let d = y->Pos_0->Template_0;
                assert(x->Pos_0.same(y->Pos_0));
                assert(c.same(d));
                lemma_same_template(c, d);
            },
            Argument::Pos(e) => {
                assert(e.same(y->Pos_0));
            },
            Argument::Named(e) => {},
        }
    }
}

/// The same templates are written alike, and are well formed together.
pub proof fn lemma_same_template(a: ExprTemplate, b: ExprTemplate)
    requires
        a.same(b),
    ensures
        a.text() == b.text(),
        a.wf() == b.wf(),
    decreases a,
{
    assert(same_tree(a.contents(), b.contents()));
    lemma_same_tree(a.contents(), b.contents());
    if a.tree.len() == 1 {
        let x = a.contents()[0];
        let y = b.contents()[0];
        assert(x.same(y));
        match x {
            Node::Expr(Expr::Call(c)) => {
                let d = y->Expr_0->Call_0;
                assert(x->Expr_0.same(y->Expr_0));
                assert(c.same(d));
                lemma_same_call(c, d);
                assert(c.bracketed_text(false) == d.bracketed_text(false));
            },
            Node::Expr(e) => {
                assert(e.same(y->Expr_0));
            },
            _ => {},
        }
    }
}

/// The same expressions are written alike, have the same span and are well
/// formed together.
pub proof fn lemma_same_expr(a: Expr, b: Expr)
    requires
        a.same(b),
    ensures
        a.text() == b.text(),
        a.wf() == b.wf(),
        a.span() == b.span(),
    decreases a,
{
    match (a, b) {
        (Expr::Array(x), Expr::Array(y)) => {
            lemma_same_exprs(x.items, y.items);
        },
        (Expr::Dict(x), Expr::Dict(y)) => {
            lemma_same_named_list(x.items, y.items);
        },
        (Expr::Template(x), Expr::Template(y)) => {
            lemma_same_template(x, y);
        },
        (Expr::Group(x), Expr::Group(y)) => {
            lemma_same_expr(*x.expr, *y.expr);
        },
        (Expr::Block(x), Expr::Block(y)) => {
            lemma_same_exprs(x.exprs, y.exprs);
        },
        (Expr::Unary(x), Expr::Unary(y)) => {
            lemma_same_expr(*x.expr, *y.expr);
        },
        (Expr::Binary(x), Expr::Binary(y)) => {
            lemma_same_expr(*x.lhs, *y.lhs);
            lemma_same_expr(*x.rhs, *y.rhs);
        },
        (Expr::Call(x), Expr::Call(y)) => {
            lemma_same_call(x, y);
        },
        (Expr::Let(x), Expr::Let(y)) => {
            match (x.init, y.init) {
                (Some(c), Some(d)) => {
                    lemma_same_expr(*c, *d);
                },
                _ => {},
            }
        },
        (Expr::If(x), Expr::If(y)) => {
            lemma_same_expr(*x.condition, *y.condition);
            lemma_same_expr(*x.if_body, *y.if_body);
            match (x.else_body, y.else_body) {
                (Some(c), Some(d)) => {
                    lemma_same_expr(*c, *d);
                },
                _ => {},
            }
        },
        (Expr::For(x), Expr::For(y)) => {
            lemma_same_expr(*x.iter, *y.iter);
            lemma_same_expr(*x.body, *y.body);
        },
        _ => {},
    }
}

/// The same nodes are written alike, and are well formed together.
pub proof fn lemma_same_node(a: Node, b: Node)
    requires
        a.same(b),
    ensures
        a.text() == b.text(),
        a.wf() == b.wf(),
    decreases a,
{
    match a {
        Node::Heading(x) => {
            let y = b->Heading_0;
            assert(x.same(y));
            lemma_same_tree(x.contents, y.contents);
        },
        Node::Raw(x) => {
            let y = b->Raw_0;
            assert(x.same(y));
            assert(x.line_texts() =~= y.line_texts());
        },
        Node::Expr(Expr::Call(x)) => {
            let y = b->Expr_0->Call_0;
            assert(a->Expr_0.same(b->Expr_0));
            assert(x.same(y));
            lemma_same_call(x, y);
            assert(x.bracketed_text(false) == y.bracketed_text(false));
        },
        Node::Expr(x) => {
            assert(x.same(b->Expr_0));
            lemma_same_expr(x, b->Expr_0);
        },
        _ => {},
    }
}

/// Every list of expressions holds the same expressions as itself.
pub proof fn lemma_same_exprs_refl(a: Vec<Expr>)
    ensures
        same_exprs(a, a),
    decreases a,
{
    assert forall|i: int| 0 <= i < a.len() implies (#[trigger] a[i]).same(a[i]) by {
        lemma_same_expr_refl(a[i]);
    }
}

/// Every list of named pairs holds the same pairs as itself.
pub proof fn lemma_same_named_refl(a: Vec<Named>)
    ensures
        same_named(a, a),
    decreases a,
{
    assert forall|i: int| 0 <= i < a.len() implies (#[trigger] a[i]).same(a[i]) by {
        lemma_same_expr_refl(a[i].expr);
    }
}

/// Every list of arguments holds the same arguments as itself.
pub proof fn lemma_same_args_refl(a: Vec<Argument>)
    ensures
        same_args(a, a),
    decreases a,
{
    assert forall|i: int| 0 <= i < a.len() implies (#[trigger] a[i]).same(a[i]) by {
        match a[i] {
            Argument::Pos(expr) => {
                lemma_same_expr_refl(expr);
            },
            Argument::Named(named) => {
                lemma_same_expr_refl(named.expr);
            },
        }
    }
}

/// Every tree holds the same nodes as itself.
pub proof fn lemma_same_tree_refl(a: Vec<Node>)
    ensures
        same_tree(a, a),
    decreases a,
{
    assert forall|i: int| 0 <= i < a.len() implies (#[trigger] a[i]).same(a[i]) by {
        lemma_same_node_refl(a[i]);
    }
}

/// Every node is the same as itself.
pub proof fn lemma_same_node_refl(a: Node)
    ensures
        a.same(a),
    decreases a,
{
    match a {
        Node::Heading(x) => {
            lemma_same_tree_refl(x.contents);
        },
        Node::Expr(x) => {
            lemma_same_expr_refl(x);
        },
        _ => {},
    }
}

/// Every expression is the same as itself.
pub proof fn lemma_same_expr_refl(a: Expr)
    ensures
        a.same(a),
    decreases a,
{
    match a {
        Expr::Array(x) => {
            lemma_same_exprs_refl(x.items);
            assert(x.same(x));
        },
        Expr::Dict(x) => {
            lemma_same_named_refl(x.items);
            assert(x.same(x));
        },
        Expr::Template(x) => {
            lemma_same_tree_refl(x.contents());
            assert(x.same(x));
        },
        Expr::Group(x) => {
            lemma_same_expr_refl(*x.expr);
            assert(x.same(x));
        },
        Expr::Block(x) => {
            lemma_same_exprs_refl(x.exprs);
            assert(x.same(x));
        },
        Expr::Unary(x) => {
            lemma_same_expr_refl(*x.expr);
            assert(x.same(x));
        },
        Expr::Binary(x) => {
            lemma_same_expr_refl(*x.lhs);
            lemma_same_expr_refl(*x.rhs);
            assert(x.same(x));
        },
        Expr::Call(x) => {
            lemma_same_expr_refl(*x.callee);
            lemma_same_args_refl(x.args.items);
            assert(x.same(x));
        },
        Expr::Let(x) => {
            match x.init {
                Some(init) => {
                    lemma_same_expr_refl(*init);
                },
                None => {},
            }
            assert(x.same(x));
        },
        Expr::If(x) => {
            lemma_same_expr_refl(*x.condition);
            lemma_same_expr_refl(*x.if_body);
            match x.else_body {
                Some(e) => {
                    lemma_same_expr_refl(*e);
                },
                None => {},
            }
            assert(x.same(x));
        },
        Expr::For(x) => {
            lemma_same_expr_refl(*x.iter);
            lemma_same_expr_refl(*x.body);
            assert(x.same(x));
        },
        _ => {},
    }
}

} // verus!
