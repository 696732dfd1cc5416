//! What holds of the printed text of every well-formed tree.
//!
//! The text of an expression never ends in a comma. From that follows that
//! the comma which closes an array of one item is the only comma that can
//! stand before a closing parenthesis, so an array of one item and a group
//! are never written alike.

use vstd::prelude::*;
use crate::expr::{Argument, Expr, ExprArray, ExprCall, ExprDict, ExprGroup, ExprTemplate};
use crate::ident::is_ident;
use crate::lit::{LitKind, decimal, is_digit, is_numeral, numeral_split};
use crate::node::Node;
use crate::pretty::{args_head_text, expr_texts};
use crate::printer::join;

verus! {

/// A joined list that ends with a part that is not empty ends as that part
/// ends.
pub proof fn lemma_join_last(parts: Seq<Seq<char>>, sep: Seq<char>)
    requires
        parts.len() > 0,
        parts.last().len() > 0,
    ensures
        join(parts, sep).len() > 0,
        join(parts, sep).last() == parts.last().last(),
{
}

/// The decimal text of a natural number is not empty and ends in a digit.
pub proof fn lemma_decimal_ends_in_digit(n: nat)
    ensures
        decimal(n).len() > 0,
        is_digit(decimal(n).last()),
{
}

/// A numeral is not empty and ends in a digit.
pub proof fn lemma_numeral_ends_in_digit(s: Seq<char>)
    requires
        is_numeral(s),
    ensures
        s.len() > 0,
        is_digit(s.last()),
{
    let (a, b, c) = choose|a: int, b: int, c: int| numeral_split(s, a, b, c);
    assert(is_digit(s[s.len() - 1]));
}

/// An identifier is not empty and does not end in a comma.
pub proof fn lemma_ident_end(s: Seq<char>)
    requires
        is_ident(s),
    ensures
        s.len() > 0,
        s.last() != ',',
{
    if s.len() > 1 {
        assert(crate::ident::is_id_continue(s[s.len() - 1]));
    }
}

/// The text of a well-formed literal is not empty and does not end in a
/// comma.
pub proof fn lemma_lit_end(kind: LitKind)
    requires
        kind.wf(),
    ensures
        kind.text().len() > 0,
        kind.text().last() != ',',
{
    reveal_strlit("none");
    reveal_strlit("true");
    reveal_strlit("false");
    reveal_strlit("pt");
    reveal_strlit("mm");
    reveal_strlit("cm");
    reveal_strlit("in");
    reveal_strlit("deg");
    reveal_strlit("rad");
    match kind {
        LitKind::Int(v) => {
            if v < 0 {
                lemma_decimal_ends_in_digit((-v) as nat);
            } else {
                lemma_decimal_ends_in_digit(v as nat);
            }
        },
        LitKind::Float(v) => {
            lemma_numeral_ends_in_digit(v@);
        },
        _ => {},
    }
}

/// A bracketed call is not empty and ends in a closing bracket, whatever it
/// holds, and so does a template.
pub proof fn lemma_bracketed_end(call: ExprCall, chained: bool)
    ensures
        call.bracketed_text(chained).len() > 0,
        call.bracketed_text(chained).last() == ']',
    decreases call,
{
    let items = call.args.items;
    let n = items.len() as int;
    if n > 0 {
        match items[n - 1] {
            Argument::Pos(Expr::Call(inner)) => {
                lemma_bracketed_end(inner, true);
            },
            Argument::Pos(Expr::Template(template)) => {
                lemma_template_end(template);
            },
            _ => {},
        }
    }
}

/// A template is not empty and ends in a closing bracket, whatever it
/// holds.
pub proof fn lemma_template_end(template: ExprTemplate)
    ensures
        template.text().len() > 0,
        template.text().last() == ']',
    decreases template,
{
    if template.tree.len() == 1 {
        match template.tree[0] {
            Node::Expr(Expr::Call(call)) => {
                lemma_bracketed_end(call, false);
            },
            _ => {},
        }
    }
}

/// The text of a well-formed expression is not empty and does not end in a
/// comma.
pub proof fn lemma_expr_end(expr: Expr)
    requires
        expr.wf(),
    ensures
        expr.text().len() > 0,
        expr.text().last() != ',',
    decreases expr,
{
    match expr {
        Expr::Lit(v) => {
            lemma_lit_end(v.kind);
        },
        Expr::Ident(v) => {
            lemma_ident_end(v.string@);
        },
        Expr::Template(v) => {
            lemma_template_end(v);
        },
        Expr::Unary(v) => {
            lemma_expr_end(*v.expr);
        },
        Expr::Binary(v) => {
            lemma_expr_end(*v.rhs);
        },
        Expr::Let(v) => {
            lemma_ident_end(v.binding.string@);
            match v.init {
                Some(init) => {
                    lemma_expr_end(*init);
                },
                None => {},
            }
        },
        Expr::If(v) => {
            lemma_expr_end(*v.if_body);
            match v.else_body {
                Some(e) => {
                    lemma_expr_end(*e);
                },
                None => {},
            }
        },
        Expr::For(v) => {
            lemma_expr_end(*v.body);
        },
        _ => {},
    }
}

/// The comma of an array marks an array of one item, and nothing else:
/// the text of a well-formed array runs from `(` to `)`, and the character
/// before the `)` is a comma exactly when the array holds one item.
pub proof fn lemma_array_comma(array: ExprArray)
    requires
        array.wf(),
    ensures
        array.text().len() >= 2,
        array.text().first() == '(',
        array.text().last() == ')',
        array.text()[array.text().len() - 2] == ',' <==> array.items.len() == 1,
        array.items.len() == 0 ==> array.text() == seq!['(', ')'],
        array.items.len() == 1 ==> array.text() == seq!['('] + array.items[0].text() + seq![
            ',',
            ')',
        ],
        array.items.len() != 1 ==> array.text() == seq!['('] + join(
            expr_texts(array.items),
            ", "@,
        ) + seq![')'],
{
    let texts = expr_texts(array.items);
    let n = array.items.len() as int;
    if n > 0 {
        assert(array.items[n - 1].wf());
        lemma_expr_end(array.items[n - 1]);
        assert(texts.last() == array.items[n - 1].text());
        lemma_join_last(texts, ", "@);
    }
}

/// An array of one item and a group are never written alike, whatever they
/// hold.
pub proof fn lemma_array_is_no_group(array: ExprArray, group: ExprGroup)
    requires
        array.wf(),
        group.wf(),
        array.items.len() == 1,
    ensures
        array.text() != group.text(),
{
    lemma_array_comma(array);
    lemma_expr_end(*group.expr);
    let g = group.text();
    assert(g[g.len() - 2] == group.expr.text().last());
}

/// The empty dictionary and the empty array are not written alike: the one
/// is `(:)`, the other `()`.
pub proof fn lemma_empty_dict_is_no_array(dict: ExprDict, array: ExprArray)
    requires
        dict.items.len() == 0,
        array.items.len() == 0,
    ensures
        dict.text() == seq!['(', ':', ')'],
        array.text() == seq!['(', ')'],
        dict.text() != array.text(),
{
    assert(dict.text().len() == 3);
    assert(array.text().len() == 2);
}

/// A call is written alike as the head of a bracket and as a link of a
/// chain, but for how it opens: with `#[` in the one place, with ` | ` in
/// the other.
pub proof fn lemma_chain_link(call: ExprCall)
    ensures
        call.bracketed_text(false).len() >= 2,
        call.bracketed_text(true).len() >= 3,
        call.bracketed_text(false).take(2) == "#["@,
        call.bracketed_text(true).take(3) == " | "@,
        call.bracketed_text(false).skip(2) == call.bracketed_text(true).skip(3),
{
    reveal_strlit("#[");
    reveal_strlit(" | ");
    let items = call.args.items;
    let n = items.len() as int;
    let rest = call.bracketed_text(false).skip(2);
    assert(call.bracketed_text(false) == "#["@ + rest);
    assert(call.bracketed_text(true) == " | "@ + rest) by {
        if n > 0 {
            match items[n - 1] {
                Argument::Pos(Expr::Call(inner)) => {},
                Argument::Pos(Expr::Template(template)) => {},
                _ => {},
            }
        }
    }
}

/// A bracketed call whose last argument is a call folds that call into
/// its own bracket: the arguments before it are followed by a pipe and by
/// what the inner call would hold between its own brackets. As the inner
/// call is written by the same rule, a chain of any length folds into one
/// bracket.
pub proof fn lemma_chain_folds(outer: ExprCall, inner: ExprCall, chained: bool)
    requires
        outer.args.items.len() > 0,
        outer.args.items[outer.args.items.len() - 1] == Argument::Pos(Expr::Call(inner)),
    ensures
        outer.bracketed_text(chained) == (if chained {
            " | "@
        } else {
            "#["@
        }) + outer.callee.text() + args_head_text(
            outer.args.items,
            outer.args.items.len() - 1,
        ) + " | "@ + inner.bracketed_text(false).skip(2),
{
    lemma_chain_link(inner);
    let t = inner.bracketed_text(true);
    assert(t == t.take(3) + t.skip(3));
}

/// A bracketed call whose last argument is a template closes its bracket
/// before that argument and is followed by the template as its body.
pub proof fn lemma_body_attaches(outer: ExprCall, body: ExprTemplate, chained: bool)
    requires
        outer.args.items.len() > 0,
        outer.args.items[outer.args.items.len() - 1] == Argument::Pos(Expr::Template(body)),
    ensures
        outer.bracketed_text(chained) == (if chained {
            " | "@
        } else {
            "#["@
        }) + outer.callee.text() + args_head_text(
            outer.args.items,
            outer.args.items.len() - 1,
        ) + seq![']'] + body.text(),
{
}

} // verus!
