//! Unary and binary operators: their tokens, spellings, precedence and
//! associativity.

use vstd::prelude::*;
use crate::token::{Token, lemma_token_spellings};

verus! {

/// A unary operator.
#[derive(Debug, Copy, Clone, PartialEq, Eq, Structural)]
pub enum UnOp {
    /// The plus operator: `+`.
    Pos,
    /// The negation operator: `-`.
    Neg,
    /// The boolean `not`.
    Not,
}

impl UnOp {
    /// The token that stands for this operator in prefix position.
    pub open spec fn token(self) -> Token {
        match self {
            UnOp::Pos => Token::Plus,
            UnOp::Neg => Token::Hyph,
            UnOp::Not => Token::Not,
        }
    }

    /// The operator that a token stands for in prefix position, if any.
    pub open spec fn spec_from_token(token: Token) -> Option<UnOp> {
        match token {
            Token::Plus => Some(UnOp::Pos),
            Token::Hyph => Some(UnOp::Neg),
            Token::Not => Some(UnOp::Not),
            _ => None,
        }
    }

    /// The binding strength of this operator; a higher rank binds tighter.
    pub open spec fn spec_precedence(self) -> usize {
        match self {
            UnOp::Pos | UnOp::Neg => 8,
            UnOp::Not => 4,
        }
    }

    /// The characters this operator is written with.
    pub open spec fn spelling(self) -> Seq<char> {
        match self {
            UnOp::Pos => "+"@,
            UnOp::Neg => "-"@,
            UnOp::Not => "not"@,
        }
    }

    /// Try to convert the token into a unary operation.
    ///
    /// A token that names no unary operator gives `None`; that is a plain
    /// answer for the caller to act on, not a failure.
    #[verifier::when_used_as_spec(spec_from_token)]
    pub fn from_token(token: Token) -> (op: Option<UnOp>)
        ensures
            op == UnOp::spec_from_token(token),
            op matches Some(o) ==> o.token() == token,
            op is None ==> forall|o: UnOp| o.token() != token,
    {
        match token {
            Token::Plus => Some(UnOp::Pos),
            Token::Hyph => Some(UnOp::Neg),
            Token::Not => Some(UnOp::Not),
            _ => None,
        }
    }

    /// The precedence of this operator.
    #[verifier::when_used_as_spec(spec_precedence)]
    pub fn precedence(self) -> (rank: usize)
        ensures
            rank == self.spec_precedence(),
    {
        match self {
            UnOp::Pos | UnOp::Neg => 8,
            UnOp::Not => 4,
        }
    }

    /// The string representation of this operation.
    pub fn as_str(self) -> (s: &'static str)
        ensures
            s@ == self.spelling(),
    {
        match self {
            UnOp::Pos => "+",
            UnOp::Neg => "-",
            UnOp::Not => "not",
        }
    }
}

/// A binary operator.
#[derive(Debug, Copy, Clone, PartialEq, Eq, Structural)]
pub enum BinOp {
    /// The addition operator: `+`.
    Add,
    /// The subtraction operator: `-`.
    Sub,
    /// The multiplication operator: `*`.
    Mul,
    /// The division operator: `/`.
    Div,
    /// The short-circuiting boolean `and`.
    And,
    /// The short-circuiting boolean `or`.
    Or,
    /// The equality operator: `==`.
    Eq,
    /// The inequality operator: `!=`.
    Neq,
    /// The less-than operator: `<`.
    Lt,
    /// The less-than or equal operator: `<=`.
    Leq,
    /// The greater-than operator: `>`.
    Gt,
    /// The greater-than or equal operator: `>=`.
    Geq,
    /// The assignment operator: `=`.
    Assign,
    /// The add-assign operator: `+=`.
    AddAssign,
    /// The subtract-assign operator: `-=`.
    SubAssign,
    /// The multiply-assign operator: `*=`.
    MulAssign,
    /// The divide-assign operator: `/=`.
    DivAssign,
}

/// The associativity of a binary operator.
#[derive(Debug, Copy, Clone, PartialEq, Eq, Structural)]
pub enum Associativity {
    /// Left-associative: `a + b + c` is equivalent to `(a + b) + c`.
    Left,
    /// Right-associative: `a = b = c` is equivalent to `a = (b = c)`.
    Right,
}

impl BinOp {
    /// Whether this operator assigns to its left-hand side.
    pub open spec fn is_assignment(self) -> bool {
        self is Assign || self is AddAssign || self is SubAssign || self is MulAssign
            || self is DivAssign
    }

    /// The token that stands for this operator in infix position.
    pub open spec fn token(self) -> Token {
        match self {
            BinOp::Add => Token::Plus,
            BinOp::Sub => Token::Hyph,
            BinOp::Mul => Token::Star,
            BinOp::Div => Token::Slash,
            BinOp::And => Token::And,
            BinOp::Or => Token::Or,
            BinOp::Eq => Token::EqEq,
            BinOp::Neq => Token::BangEq,
            BinOp::Lt => Token::Lt,
            BinOp::Leq => Token::LtEq,
            BinOp::Gt => Token::Gt,
            BinOp::Geq => Token::GtEq,
            BinOp::Assign => Token::Eq,
            BinOp::AddAssign => Token::PlusEq,
            BinOp::SubAssign => Token::HyphEq,
            BinOp::MulAssign => Token::StarEq,
            BinOp::DivAssign => Token::SlashEq,
        }
    }

    /// The operator that a token stands for in infix position, if any.
    pub open spec fn spec_from_token(token: Token) -> Option<BinOp> {
        match token {
            Token::Plus => Some(BinOp::Add),
            Token::Hyph => Some(BinOp::Sub),
            Token::Star => Some(BinOp::Mul),
            Token::Slash => Some(BinOp::Div),
            Token::And => Some(BinOp::And),
            Token::Or => Some(BinOp::Or),
            Token::EqEq => Some(BinOp::Eq),
            Token::BangEq => Some(BinOp::Neq),
            Token::Lt => Some(BinOp::Lt),
            Token::LtEq => Some(BinOp::Leq),
            Token::Gt => Some(BinOp::Gt),
            Token::GtEq => Some(BinOp::Geq),
            Token::Eq => Some(BinOp::Assign),
            Token::PlusEq => Some(BinOp::AddAssign),
            Token::HyphEq => Some(BinOp::SubAssign),
            Token::StarEq => Some(BinOp::MulAssign),
            Token::SlashEq => Some(BinOp::DivAssign),
            _ => None,
        }
    }

    /// The binding strength of this operator; a higher rank binds tighter.
    pub open spec fn spec_precedence(self) -> usize {
        match self {
            BinOp::Mul | BinOp::Div => 7,
            BinOp::Add | BinOp::Sub => 6,
            BinOp::Eq | BinOp::Neq | BinOp::Lt | BinOp::Leq | BinOp::Gt | BinOp::Geq => 5,
            BinOp::And => 3,
            BinOp::Or => 2,
            BinOp::Assign
            | BinOp::AddAssign
            | BinOp::SubAssign
            | BinOp::MulAssign
            | BinOp::DivAssign => 1,
        }
    }

    /// The side on which a run of operators of this rank groups: the
    /// assignment family groups to the right, every other operator to the
    /// left.
    pub open spec fn spec_associativity(self) -> Associativity {
        if self.is_assignment() {
            Associativity::Right
        } else {
            Associativity::Left
        }
    }

    /// The characters this operator is written with.
    pub open spec fn spelling(self) -> Seq<char> {
        match self {
            BinOp::Add => "+"@,
            BinOp::Sub => "-"@,
            BinOp::Mul => "*"@,
            BinOp::Div => "/"@,
            BinOp::And => "and"@,
            BinOp::Or => "or"@,
            BinOp::Eq => "=="@,
            BinOp::Neq => "!="@,
            BinOp::Lt => "<"@,
            BinOp::Leq => "<="@,
            BinOp::Gt => ">"@,
            BinOp::Geq => ">="@,
            BinOp::Assign => "="@,
            BinOp::AddAssign => "+="@,
            BinOp::SubAssign => "-="@,
            BinOp::MulAssign => "*="@,
            BinOp::DivAssign => "/="@,
        }
    }

    /// Try to convert the token into a binary operation.
    ///
    /// A token that names no binary operator gives `None`; that is a plain
    /// answer for the caller to act on, not a failure.
    #[verifier::when_used_as_spec(spec_from_token)]
    pub fn from_token(token: Token) -> (op: Option<BinOp>)
        ensures
            op == BinOp::spec_from_token(token),
            op matches Some(o) ==> o.token() == token,
            op is None ==> forall|o: BinOp| o.token() != token,
    {
        match token {
            Token::Plus => Some(BinOp::Add),
            Token::Hyph => Some(BinOp::Sub),
            Token::Star => Some(BinOp::Mul),
            Token::Slash => Some(BinOp::Div),
            Token::And => Some(BinOp::And),
            Token::Or => Some(BinOp::Or),
            Token::EqEq => Some(BinOp::Eq),
            Token::BangEq => Some(BinOp::Neq),
            Token::Lt => Some(BinOp::Lt),
            Token::LtEq => Some(BinOp::Leq),
            Token::Gt => Some(BinOp::Gt),
            Token::GtEq => Some(BinOp::Geq),
            Token::Eq => Some(BinOp::Assign),
            Token::PlusEq => Some(BinOp::AddAssign),
            Token::HyphEq => Some(BinOp::SubAssign),
            Token::StarEq => Some(BinOp::MulAssign),
            Token::SlashEq => Some(BinOp::DivAssign),
            _ => None,
        }
    }

    /// The precedence of this operator.
    #[verifier::when_used_as_spec(spec_precedence)]
    pub fn precedence(self) -> (rank: usize)
        ensures
            rank == self.spec_precedence(),
            1 <= rank <= 7,
    {
        match self {
            BinOp::Mul | BinOp::Div => 7,
            BinOp::Add | BinOp::Sub => 6,
            BinOp::Eq | BinOp::Neq | BinOp::Lt | BinOp::Leq | BinOp::Gt | BinOp::Geq => 5,
            BinOp::And => 3,
            BinOp::Or => 2,
            BinOp::Assign
            | BinOp::AddAssign
            | BinOp::SubAssign
            | BinOp::MulAssign
            | BinOp::DivAssign => 1,
        }
    }

    /// The associativity of this operator.
    #[verifier::when_used_as_spec(spec_associativity)]
    pub fn associativity(self) -> (side: Associativity)
        ensures
            side == self.spec_associativity(),
    {
        match self {
            BinOp::Add
            | BinOp::Sub
            | BinOp::Mul
            | BinOp::Div
            | BinOp::And
            | BinOp::Or
            | BinOp::Eq
            | BinOp::Neq
            | BinOp::Lt
            | BinOp::Leq
            | BinOp::Gt
            | BinOp::Geq => Associativity::Left,
            BinOp::Assign
            | BinOp::AddAssign
            | BinOp::SubAssign
            | BinOp::MulAssign
            | BinOp::DivAssign => Associativity::Right,
        }
    }

    /// The string representation of this operation.
    pub fn as_str(self) -> (s: &'static str)
        ensures
            s@ == self.spelling(),
    {
        match self {
            BinOp::Add => "+",
            BinOp::Sub => "-",
            BinOp::Mul => "*",
            BinOp::Div => "/",
            BinOp::And => "and",
            BinOp::Or => "or",
            BinOp::Eq => "==",
            BinOp::Neq => "!=",
            BinOp::Lt => "<",
            BinOp::Leq => "<=",
            BinOp::Gt => ">",
            BinOp::Geq => ">=",
            BinOp::Assign => "=",
            BinOp::AddAssign => "+=",
            BinOp::SubAssign => "-=",
            BinOp::MulAssign => "*=",
            BinOp::DivAssign => "/=",
        }
    }
}

/// Binary operators and their tokens correspond one to one: the token
/// spelled like an operator is classified as that operator, and a token
/// that is classified as an operator is the one spelled like it.
pub proof fn lemma_binop_token_bijection(op: BinOp, token: Token)
    ensures
        op.token().spelling() == op.spelling(),
        BinOp::from_token(op.token()) == Some(op),
        BinOp::from_token(token) == Some(op) <==> token == op.token(),
        token.spelling() == op.spelling() <==> BinOp::from_token(token) == Some(op),
{
    lemma_token_spellings();
    if token.spelling() == op.spelling() {
        crate::token::lemma_token_spelling_injective(token, op.token());
    }
}

/// Unary operators and their tokens correspond one to one: the token
/// spelled like an operator is classified as that operator, and a token
/// that is classified as an operator is the one spelled like it.
pub proof fn lemma_unop_token_bijection(op: UnOp, token: Token)
    ensures
        op.token().spelling() == op.spelling(),
        UnOp::from_token(op.token()) == Some(op),
        UnOp::from_token(token) == Some(op) <==> token == op.token(),
        token.spelling() == op.spelling() <==> UnOp::from_token(token) == Some(op),
{
    lemma_token_spellings();
    if token.spelling() == op.spelling() {
        crate::token::lemma_token_spelling_injective(token, op.token());
    }
}

/// No two binary operators are written alike, and none is written like
/// the empty string.
pub proof fn lemma_binop_spelling_injective(a: BinOp, b: BinOp)
    ensures
        a.spelling().len() > 0,
        a.spelling() == b.spelling() ==> a == b,
{
    lemma_token_spellings();
    lemma_binop_token_bijection(a, b.token());
    lemma_binop_token_bijection(b, b.token());
}

/// Binary operators that share a precedence rank share their
/// associativity: rank 1 is the assignment family and groups to the right,
/// every other rank groups to the left.
pub proof fn lemma_precedence_fixes_associativity(a: BinOp, b: BinOp)
    ensures
        a.precedence() == b.precedence() ==> a.associativity() == b.associativity(),
        a.associativity() == Associativity::Right <==> a.precedence() == 1,
        a.precedence() == 1 <==> a.is_assignment(),
{
}

} // verus!
