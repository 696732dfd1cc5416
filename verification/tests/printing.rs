//! The rules of the printer, one kind of node at a time.

use std::rc::Rc;

use markup_syntax::{
    pretty, pretty_expr, pretty_tree, Argument, BinOp, Expr, ExprArgs, ExprArray, ExprBinary,
    ExprBlock, ExprCall, ExprDict, ExprFor, ExprGroup, ExprIf, ExprLet, ExprTemplate, ExprUnary,
    ForPattern, Ident, Lit, LitKind, Named, Node, NodeHeading, NodeRaw, Pos, Printer, Span, Tree,
    UnOp,
};

fn span() -> Span {
    Span::new(Pos(0), Pos(0))
}

fn ident(name: &str) -> Ident {
    Ident::new(name, span()).unwrap()
}

fn id(name: &str) -> Expr {
    Expr::Ident(ident(name))
}

fn num(v: i64) -> Expr {
    Expr::Lit(Lit { span: span(), kind: LitKind::Int(v) })
}

fn array(items: Vec<Expr>) -> Expr {
    Expr::Array(ExprArray { span: span(), items })
}

fn dict(items: Vec<Named>) -> Expr {
    Expr::Dict(ExprDict { span: span(), items })
}

fn named(name: &str, expr: Expr) -> Named {
    Named { name: ident(name), expr }
}

fn template(tree: Tree) -> Expr {
    Expr::Template(ExprTemplate { span: span(), tree: Rc::new(tree) })
}

fn group(expr: Expr) -> Expr {
    Expr::Group(ExprGroup { span: span(), expr: Box::new(expr) })
}

fn block(exprs: Vec<Expr>, scoping: bool) -> Expr {
    Expr::Block(ExprBlock { span: span(), exprs, scoping })
}

fn unary(op: UnOp, expr: Expr) -> Expr {
    Expr::Unary(ExprUnary { span: span(), op, expr: Box::new(expr) })
}

fn binary(lhs: Expr, op: BinOp, rhs: Expr) -> Expr {
    Expr::Binary(ExprBinary { span: span(), lhs: Box::new(lhs), op, rhs: Box::new(rhs) })
}

fn call_of(name: &str, items: Vec<Argument>) -> ExprCall {
    ExprCall {
        span: span(),
        callee: Box::new(id(name)),
        args: ExprArgs { span: span(), items },
    }
}

fn call(name: &str, items: Vec<Argument>) -> Expr {
    Expr::Call(call_of(name, items))
}

fn pos(expr: Expr) -> Argument {
    Argument::Pos(expr)
}

fn text(s: &str) -> Node {
    Node::Text(s.to_string())
}

fn hi() -> Expr {
    template(vec![text("Hi")])
}

fn bracketed(call: &ExprCall, chained: bool) -> String {
    let mut p = Printer::new();
    call.pretty_bracketed(&mut p, chained);
    p.finish()
}

#[test]
fn array_of_one_item_has_a_trailing_comma() {
    assert_eq!(pretty_expr(&array(vec![num(1)])), "(1,)");
    assert_eq!(pretty_expr(&array(vec![id("x")])), "(x,)");
    assert_eq!(pretty_expr(&array(vec![array(vec![num(1)])])), "((1,),)");
    assert_eq!(pretty_expr(&array(vec![group(num(1))])), "((1),)");
    assert_eq!(pretty_expr(&array(vec![array(vec![])])), "((),)");
}

#[test]
fn other_arrays_have_no_trailing_comma() {
    assert_eq!(pretty_expr(&array(vec![])), "()");
    assert_eq!(pretty_expr(&array(vec![num(1), num(2)])), "(1, 2)");
    assert_eq!(pretty_expr(&array(vec![num(1), num(2), num(3)])), "(1, 2, 3)");
    assert_eq!(pretty_expr(&array(vec![array(vec![num(1)]), num(2)])), "((1,), 2)");
    assert_eq!(pretty_expr(&array(vec![num(2), array(vec![num(1)])])), "(2, (1,))");
}

#[test]
fn array_of_one_item_differs_from_group() {
    for inner in [num(1), id("x"), group(num(1)), array(vec![])] {
        let as_group = pretty_expr(&group(inner));
        let inner = match &as_group[1..as_group.len() - 1] {
            "1" => num(1),
            "x" => id("x"),
            "(1)" => group(num(1)),
            _ => array(vec![]),
        };
        let as_array = pretty_expr(&array(vec![inner]));
        assert_ne!(as_group, as_array);
        assert_eq!(as_array, format!("{},)", &as_group[..as_group.len() - 1]));
    }
}

#[test]
fn groups_are_never_left_out() {
    assert_eq!(pretty_expr(&group(num(1))), "(1)");
    assert_eq!(pretty_expr(&group(group(id("x")))), "((x))");
    assert_eq!(
        pretty_expr(&binary(group(binary(num(1), BinOp::Add, num(2))), BinOp::Mul, num(3))),
        "(1 + 2) * 3"
    );
}

#[test]
fn empty_dictionary_has_a_colon() {
    assert_eq!(pretty_expr(&dict(vec![])), "(:)");
    assert_ne!(pretty_expr(&dict(vec![])), pretty_expr(&array(vec![])));
    assert_eq!(pretty_expr(&dict(vec![named("a", num(1))])), "(a: 1)");
    assert_eq!(
        pretty_expr(&dict(vec![named("a", num(1)), named("b", dict(vec![]))])),
        "(a: 1, b: (:))"
    );
}

#[test]
fn blocks_are_padded_when_they_hold_several_expressions() {
    assert_eq!(pretty_expr(&block(vec![], true)), "{}");
    assert_eq!(pretty_expr(&block(vec![num(1)], true)), "{1}");
    assert_eq!(pretty_expr(&block(vec![num(1), num(2)], true)), "{ 1; 2 }");
    assert_eq!(pretty_expr(&block(vec![num(1), num(2), num(3)], false)), "{ 1; 2; 3 }");
    assert_eq!(pretty_expr(&block(vec![block(vec![], true)], false)), "{{}}");
}

#[test]
fn unary_operators() {
    assert_eq!(pretty_expr(&unary(UnOp::Pos, id("x"))), "+x");
    assert_eq!(pretty_expr(&unary(UnOp::Neg, id("x"))), "-x");
    assert_eq!(pretty_expr(&unary(UnOp::Not, id("x"))), "not x");
    assert_eq!(pretty_expr(&unary(UnOp::Not, unary(UnOp::Neg, num(1)))), "not -1");
    assert_eq!(pretty_expr(&unary(UnOp::Neg, unary(UnOp::Not, id("a")))), "-not a");
}

#[test]
fn binary_operators() {
    let ops = [
        (BinOp::Add, "a + b"),
        (BinOp::Sub, "a - b"),
        (BinOp::Mul, "a * b"),
        (BinOp::Div, "a / b"),
        (BinOp::And, "a and b"),
        (BinOp::Or, "a or b"),
        (BinOp::Eq, "a == b"),
        (BinOp::Neq, "a != b"),
        (BinOp::Lt, "a < b"),
        (BinOp::Leq, "a <= b"),
        (BinOp::Gt, "a > b"),
        (BinOp::Geq, "a >= b"),
        (BinOp::Assign, "a = b"),
        (BinOp::AddAssign, "a += b"),
        (BinOp::SubAssign, "a -= b"),
        (BinOp::MulAssign, "a *= b"),
        (BinOp::DivAssign, "a /= b"),
    ];
    for (op, expected) in ops {
        assert_eq!(pretty_expr(&binary(id("a"), op, id("b"))), expected);
    }
}

#[test]
fn no_parentheses_are_added() {
    let sum = binary(num(1), BinOp::Add, num(2));
    assert_eq!(pretty_expr(&binary(sum, BinOp::Mul, num(3))), "1 + 2 * 3");
    let sum = binary(num(2), BinOp::Add, num(3));
    assert_eq!(pretty_expr(&binary(num(1), BinOp::Mul, sum)), "1 * 2 + 3");
}

#[test]
fn parenthesized_calls() {
    assert_eq!(pretty_expr(&call("v", vec![])), "v()");
    assert_eq!(pretty_expr(&call("v", vec![pos(num(1)), pos(num(2))])), "v(1, 2)");
    assert_eq!(pretty_expr(&call("v", vec![pos(hi())])), "v([Hi])");
    assert_eq!(pretty_expr(&call("v", vec![pos(call("f", vec![]))])), "v(f())");
    let mut p = Printer::new();
    ExprArgs { span: span(), items: vec![Argument::Named(named("a", num(1))), pos(id("b"))] }
        .pretty(&mut p);
    assert_eq!(p.finish(), "a: 1, b");
}

#[test]
fn bracketed_calls_without_folding() {
    assert_eq!(bracketed(&call_of("v", vec![]), false), "#[v]");
    assert_eq!(bracketed(&call_of("v", vec![pos(num(1))]), false), "#[v 1]");
    assert_eq!(bracketed(&call_of("v", vec![pos(num(1)), pos(num(2))]), false), "#[v 1, 2]");
    assert_eq!(
        bracketed(&call_of("v", vec![Argument::Named(named("a", num(1)))]), false),
        "#[v a: 1]"
    );
    assert_eq!(
        bracketed(&call_of("v", vec![pos(hi()), pos(num(1))]), false),
        "#[v [Hi], 1]"
    );
    assert_eq!(
        bracketed(&call_of("v", vec![pos(call("f", vec![])), pos(num(1))]), false),
        "#[v f(), 1]"
    );
    assert_eq!(
        bracketed(&call_of("v", vec![Argument::Named(named("f", call("g", vec![])))]), false),
        "#[v f: g()]"
    );
    assert_eq!(
        bracketed(&call_of("v", vec![Argument::Named(named("body", hi()))]), false),
        "#[v body: [Hi]]"
    );
}

#[test]
fn bracketed_calls_fold_into_chains() {
    let f = call("f", vec![pos(num(2))]);
    assert_eq!(bracketed(&call_of("v", vec![pos(num(1)), pos(f)]), false), "#[v 1 | f 2]");
    assert_eq!(bracketed(&call_of("v", vec![pos(call("f", vec![]))]), false), "#[v | f]");

    let c = call("c", vec![pos(num(3))]);
    let b = call("b", vec![pos(num(2)), pos(c)]);
    let a = call_of("a", vec![pos(num(1)), pos(b)]);
    assert_eq!(bracketed(&a, false), "#[a 1 | b 2 | c 3]");

    let d = call("d", vec![]);
    let c = call("c", vec![pos(d)]);
    let b = call("b", vec![pos(id("x")), pos(id("y")), pos(c)]);
    let a = call_of("a", vec![pos(b)]);
    assert_eq!(bracketed(&a, false), "#[a | b x, y | c | d]");
}

#[test]
fn bracketed_calls_attach_bodies() {
    assert_eq!(bracketed(&call_of("v", vec![pos(hi())]), false), "#[v][Hi]");
    assert_eq!(bracketed(&call_of("v", vec![pos(num(1)), pos(hi())]), false), "#[v 1][Hi]");
    assert_eq!(
        bracketed(&call_of("v", vec![pos(hi()), pos(hi())]), false),
        "#[v [Hi]][Hi]"
    );
    assert_eq!(bracketed(&call_of("v", vec![pos(template(vec![]))]), false), "#[v][]");
}

#[test]
fn chains_end_in_bodies() {
    let f = call("f", vec![pos(num(2)), pos(hi())]);
    assert_eq!(bracketed(&call_of("v", vec![pos(num(1)), pos(f)]), false), "#[v 1 | f 2][Hi]");
    let inner = template(vec![Node::Expr(call("f", vec![]))]);
    assert_eq!(bracketed(&call_of("v", vec![pos(inner)]), false), "#[v]#[f]");
}

#[test]
fn chained_calls_go_on_with_a_pipe() {
    assert_eq!(bracketed(&call_of("f", vec![pos(num(2))]), true), " | f 2]");
    assert_eq!(bracketed(&call_of("f", vec![]), true), " | f]");
    assert_eq!(bracketed(&call_of("f", vec![pos(hi())]), true), " | f][Hi]");
    assert_eq!(bracketed(&call_of("f", vec![pos(call("g", vec![]))]), true), " | f | g]");
}

#[test]
fn calls_in_markup_are_bracketed_and_calls_in_code_are_not() {
    assert_eq!(pretty(&vec![Node::Expr(call("v", vec![]))]), "#[v]");
    assert_eq!(pretty(&vec![Node::Expr(block(vec![call("v", vec![])], true))]), "{v()}");
    assert_eq!(pretty(&vec![Node::Expr(group(call("v", vec![])))]), "(v())");
    assert_eq!(pretty(&vec![text("a "), Node::Expr(call("v", vec![pos(num(1))]))]), "a #[v 1]");
}

#[test]
fn templates() {
    assert_eq!(pretty_expr(&template(vec![])), "[]");
    assert_eq!(pretty_expr(&hi()), "[Hi]");
    assert_eq!(pretty_expr(&template(vec![Node::Expr(call("v", vec![]))])), "#[v]");
    assert_eq!(
        pretty_expr(&template(vec![Node::Expr(call("v", vec![])), Node::Space])),
        "[#[v] ]"
    );
    assert_eq!(pretty_expr(&template(vec![Node::Expr(id("x"))])), "[x]");
    assert_eq!(
        pretty_expr(&template(vec![Node::Expr(call("v", vec![])), Node::Expr(call("w", vec![]))])),
        "[#[v]#[w]]"
    );
}

#[test]
fn let_if_and_for() {
    let let_expr = |init: Option<Expr>| {
        Expr::Let(ExprLet { span: span(), binding: ident("x"), init: init.map(Box::new) })
    };
    assert_eq!(pretty_expr(&let_expr(None)), "#let x");
    assert_eq!(pretty_expr(&let_expr(Some(num(1)))), "#let x = 1");

    let if_expr = |else_body: Option<Expr>| {
        Expr::If(ExprIf {
            span: span(),
            condition: Box::new(id("c")),
            if_body: Box::new(block(vec![num(1)], true)),
            else_body: else_body.map(Box::new),
        })
    };
    assert_eq!(pretty_expr(&if_expr(None)), "#if c {1}");
    assert_eq!(pretty_expr(&if_expr(Some(block(vec![num(2)], true)))), "#if c {1} #else {2}");
    assert_eq!(pretty_expr(&if_expr(Some(if_expr(None)))), "#if c {1} #else #if c {1}");

    let for_expr = |pattern: ForPattern| {
        Expr::For(ExprFor {
            span: span(),
            pattern,
            iter: Box::new(id("items")),
            body: Box::new(hi()),
        })
    };
    assert_eq!(pretty_expr(&for_expr(ForPattern::Value(ident("v")))), "#for v #in items [Hi]");
    assert_eq!(
        pretty_expr(&for_expr(ForPattern::KeyValue(ident("k"), ident("v")))),
        "#for k, v #in items [Hi]"
    );
}

#[test]
fn spans_do_not_change_the_text() {
    let at = |start: u32, end: u32| {
        Expr::Group(ExprGroup {
            span: Span::new(Pos(start), Pos(end)),
            expr: Box::new(Expr::Lit(Lit {
                span: Span::new(Pos(end), Pos(start)),
                kind: LitKind::Int(5),
            })),
        })
    };
    assert_eq!(pretty_expr(&at(0, 0)), pretty_expr(&at(17, 400)));
}

#[test]
fn printing_appends_to_what_is_there() {
    let mut p = Printer::new();
    p.push_str("> ");
    array(vec![num(1)]).pretty(&mut p);
    p.push(' ');
    pretty_tree(&vec![Node::Strong, text("b"), Node::Strong], &mut p);
    assert_eq!(p.finish(), "> (1,) *b*");
}

#[test]
fn markup_nodes() {
    assert_eq!(pretty(&vec![]), "");
    assert_eq!(
        pretty(&vec![text("a"), Node::Space, Node::Emph, text("b"), Node::Emph, Node::Linebreak]),
        "a _b_\\"
    );
    assert_eq!(pretty(&vec![text("a"), Node::Parbreak, text("b")]), "a\n\nb");
}

#[test]
fn headings() {
    let heading = |level: usize| {
        Node::Heading(NodeHeading { level, contents: vec![Node::Space, text("a")] })
    };
    assert_eq!(pretty(&vec![heading(0)]), "= a");
    assert_eq!(pretty(&vec![heading(1)]), "== a");
    assert_eq!(pretty(&vec![heading(5)]), "====== a");
    assert_eq!(pretty(&vec![Node::Heading(NodeHeading { level: 2, contents: vec![] })]), "===");
}

#[test]
fn raw_blocks() {
    let raw = |lang: Option<&str>, lines: &[&str], block: bool| {
        pretty(&vec![Node::Raw(NodeRaw {
            lang: lang.map(ident),
            lines: lines.iter().map(|line| line.to_string()).collect(),
            block,
        })])
    };
    assert_eq!(raw(None, &["a"], false), "`a`");
    assert_eq!(raw(None, &["a", "b"], false), "`a\nb`");
    assert_eq!(raw(None, &["a", "b"], true), "```\na\nb\n```");
    assert_eq!(raw(Some("rs"), &["a"], true), "```rs\na\n```");
    assert_eq!(raw(None, &["a`b"], false), "``` a`b```");
    assert_eq!(raw(None, &["a``b"], false), "``` a``b```");
    assert_eq!(raw(None, &["a```b"], false), "```` a```b````");
    assert_eq!(raw(None, &["``", "a`````"], false), "`````` ``\na````` ``````");
    assert_eq!(raw(None, &["a` \t"], false), "``` a` \t ```");
    assert_eq!(raw(None, &["a`", "b"], false), "``` a`\nb```");
    assert_eq!(raw(None, &["`a"], true), "```\n`a\n```");
}
