//! Copies of trees.

use std::rc::Rc;

use markup_syntax::{
    clone_tree, pretty, pretty_expr, Argument, BinOp, Expr, ExprArgs, ExprArray, ExprBinary,
    ExprBlock, ExprCall, ExprDict, ExprFor, ExprGroup, ExprIf, ExprLet, ExprTemplate, ExprUnary,
    ForPattern, Ident, LengthUnit, Lit, LitKind, Named, Node, NodeHeading, NodeRaw, Numeral, Pos,
    RgbaColor, Span, Tree, UnOp,
};

fn sp(start: u32, end: u32) -> Span {
    Span::new(Pos(start), Pos(end))
}

fn ident(name: &str) -> Ident {
    Ident::new(name, sp(1, 2)).unwrap()
}

fn lit(kind: LitKind) -> Expr {
    Expr::Lit(Lit { span: sp(3, 4), kind })
}

fn boxed(kind: LitKind) -> Box<Expr> {
    Box::new(lit(kind))
}

fn template(tree: Tree) -> ExprTemplate {
    ExprTemplate { span: sp(5, 6), tree: Rc::new(tree) }
}

/// One expression of every kind.
fn samples() -> Vec<Expr> {
    let numeral = || Numeral::new("2.5").unwrap();
    vec![
        lit(LitKind::NoneLit),
        lit(LitKind::Bool(true)),
        lit(LitKind::Int(-7)),
        lit(LitKind::Float(numeral())),
        lit(LitKind::Length(numeral(), LengthUnit::Cm)),
        lit(LitKind::Percent(numeral())),
        lit(LitKind::Color(RgbaColor::new(1, 2, 3, 4))),
        lit(LitKind::Str("a \"b\"".to_string())),
        Expr::Ident(ident("x")),
        Expr::Array(ExprArray { span: sp(0, 9), items: vec![lit(LitKind::Int(1))] }),
        Expr::Dict(ExprDict {
            span: sp(0, 9),
            items: vec![Named { name: ident("k"), expr: lit(LitKind::Int(1)) }],
        }),
        Expr::Template(template(vec![
            Node::Strong,
            Node::Text("t".to_string()),
            Node::Space,
            Node::Heading(NodeHeading { level: 1, contents: vec![Node::Emph] }),
            Node::Raw(NodeRaw {
                lang: Some(ident("rs")),
                lines: vec!["a".to_string(), "b`".to_string()],
                block: true,
            }),
        ])),
        Expr::Group(ExprGroup { span: sp(0, 9), expr: boxed(LitKind::Int(1)) }),
        Expr::Block(ExprBlock {
            span: sp(0, 9),
            exprs: vec![lit(LitKind::Int(1)), lit(LitKind::Int(2))],
            scoping: false,
        }),
        Expr::Unary(ExprUnary { span: sp(0, 9), op: UnOp::Not, expr: boxed(LitKind::Bool(false)) }),
        Expr::Binary(ExprBinary {
            span: sp(0, 9),
            lhs: boxed(LitKind::Int(1)),
            op: BinOp::Leq,
            rhs: boxed(LitKind::Int(2)),
        }),
        Expr::Call(ExprCall {
            span: sp(0, 9),
            callee: Box::new(Expr::Ident(ident("f"))),
            args: ExprArgs {
                span: sp(2, 8),
                items: vec![
                    Argument::Named(Named { name: ident("k"), expr: lit(LitKind::Int(1)) }),
                    Argument::Pos(Expr::Template(template(vec![Node::Linebreak]))),
                ],
            },
        }),
        Expr::Let(ExprLet { span: sp(0, 9), binding: ident("x"), init: None }),
        Expr::Let(ExprLet {
            span: sp(0, 9),
            binding: ident("x"),
            init: Some(boxed(LitKind::Int(1))),
        }),
        Expr::If(ExprIf {
            span: sp(0, 9),
            condition: boxed(LitKind::Bool(true)),
            if_body: boxed(LitKind::Int(1)),
            else_body: Some(boxed(LitKind::Int(2))),
        }),
        Expr::For(ExprFor {
            span: sp(0, 9),
            pattern: ForPattern::KeyValue(ident("k"), ident("v")),
            iter: Box::new(Expr::Ident(ident("d"))),
            body: boxed(LitKind::NoneLit),
        }),
    ]
}

#[test]
fn a_copy_equals_what_it_was_made_from() {
    for expr in samples() {
        let copy = expr.clone();
        assert_eq!(copy, expr);
        assert_eq!(copy.span(), expr.span());
        assert_eq!(pretty_expr(&copy), pretty_expr(&expr));
    }
}

#[test]
fn a_copy_of_a_tree_equals_the_tree() {
    let tree: Tree = samples().into_iter().map(Node::Expr).collect();
    let copy = clone_tree(&tree);
    assert_eq!(copy.len(), tree.len());
    assert_eq!(copy, tree);
    assert_eq!(pretty(&copy), pretty(&tree));
    assert_eq!(clone_tree(&Vec::new()), Vec::new());
}

#[test]
fn a_copy_of_a_template_shares_the_contents() {
    let first = template(vec![Node::Text("shared".to_string())]);
    assert_eq!(Rc::strong_count(&first.tree), 1);
    let copy = first.clone();
    assert!(Rc::ptr_eq(&first.tree, &copy.tree));
    assert_eq!(Rc::strong_count(&first.tree), 2);
    assert_eq!(copy, first);
    let nested = Expr::Group(ExprGroup {
        span: sp(0, 1),
        expr: Box::new(Expr::Template(first)),
    });
    let nested_copy = nested.clone();
    assert_eq!(Rc::strong_count(&copy.tree), 3);
    assert_eq!(nested_copy, nested);
}

#[test]
fn copies_of_leaves() {
    let id = ident("name");
    assert_eq!(id.clone(), id);
    let numeral = Numeral::new("1e-7").unwrap();
    assert_eq!(numeral.clone(), numeral);
    assert_eq!(numeral.clone().as_str(), "1e-7");
    let pattern = ForPattern::Value(ident("v"));
    assert_eq!(pattern.clone(), pattern);
    let raw = NodeRaw { lang: None, lines: vec!["x".to_string()], block: false };
    assert_eq!(raw.clone(), raw);
}
