//! Operators: tokens, spellings, precedence and associativity.

use markup_syntax::{Associativity, BinOp, Token, UnOp};

const BIN_OPS: [BinOp; 17] = [
    BinOp::Add,
    BinOp::Sub,
    BinOp::Mul,
    BinOp::Div,
    BinOp::And,
    BinOp::Or,
    BinOp::Eq,
    BinOp::Neq,
    BinOp::Lt,
    BinOp::Leq,
    BinOp::Gt,
    BinOp::Geq,
    BinOp::Assign,
    BinOp::AddAssign,
    BinOp::SubAssign,
    BinOp::MulAssign,
    BinOp::DivAssign,
];

const UN_OPS: [UnOp; 3] = [UnOp::Pos, UnOp::Neg, UnOp::Not];

const TOKENS: [Token; 35] = [
    Token::LeftBracket,
    Token::RightBracket,
    Token::LeftBrace,
    Token::RightBrace,
    Token::LeftParen,
    Token::RightParen,
    Token::Star,
    Token::Underscore,
    Token::Backslash,
    Token::Comma,
    Token::Semicolon,
    Token::Colon,
    Token::Pipe,
    Token::Plus,
    Token::Hyph,
    Token::Slash,
    Token::Eq,
    Token::EqEq,
    Token::BangEq,
    Token::Lt,
    Token::LtEq,
    Token::Gt,
    Token::GtEq,
    Token::PlusEq,
    Token::HyphEq,
    Token::StarEq,
    Token::SlashEq,
    Token::Not,
    Token::And,
    Token::Or,
    Token::Let,
    Token::If,
    Token::Else,
    Token::For,
    Token::In,
];

/// The token that is spelled as given.
fn token_for(spelling: &str) -> Token {
    let found: Vec<Token> = TOKENS.iter().copied().filter(|t| t.as_str() == spelling).collect();
    assert_eq!(found.len(), 1, "spelling {:?}", spelling);
    found[0]
}

#[test]
fn binary_operator_tokens_map_back() {
    for op in BIN_OPS {
        assert_eq!(BinOp::from_token(token_for(op.as_str())), Some(op));
    }
}

#[test]
fn unary_operator_tokens_map_back() {
    for op in UN_OPS {
        assert_eq!(UnOp::from_token(token_for(op.as_str())), Some(op));
    }
}

#[test]
fn operator_tokens_are_spelled_like_their_operator() {
    for token in TOKENS {
        if let Some(op) = BinOp::from_token(token) {
            assert_eq!(op.as_str(), token.as_str());
        }
        if let Some(op) = UnOp::from_token(token) {
            assert_eq!(op.as_str(), token.as_str());
        }
    }
}

#[test]
fn tokens_that_are_no_operators() {
    for token in [
        Token::LeftBracket,
        Token::RightParen,
        Token::Comma,
        Token::Colon,
        Token::Pipe,
        Token::Not,
        Token::Let,
        Token::In,
    ] {
        assert_eq!(BinOp::from_token(token), None);
    }
    for token in [Token::Star, Token::Slash, Token::And, Token::EqEq, Token::Eq, Token::For] {
        assert_eq!(UnOp::from_token(token), None);
    }
    let binary = TOKENS.iter().filter(|t| BinOp::from_token(**t).is_some()).count();
    let unary = TOKENS.iter().filter(|t| UnOp::from_token(**t).is_some()).count();
    assert_eq!(binary, 17);
    assert_eq!(unary, 3);
}

#[test]
fn unary_from_token() {
    assert_eq!(UnOp::from_token(Token::Plus), Some(UnOp::Pos));
    assert_eq!(UnOp::from_token(Token::Hyph), Some(UnOp::Neg));
    assert_eq!(UnOp::from_token(Token::Not), Some(UnOp::Not));
}

#[test]
fn binary_spellings() {
    let spellings: Vec<&str> = BIN_OPS.iter().map(|op| op.as_str()).collect();
    assert_eq!(
        spellings,
        vec![
            "+", "-", "*", "/", "and", "or", "==", "!=", "<", "<=", ">", ">=", "=", "+=", "-=",
            "*=", "/="
        ]
    );
}

#[test]
fn unary_spellings() {
    assert_eq!(UnOp::Pos.as_str(), "+");
    assert_eq!(UnOp::Neg.as_str(), "-");
    assert_eq!(UnOp::Not.as_str(), "not");
}

#[test]
fn binary_precedence() {
    let ranks: Vec<usize> = BIN_OPS.iter().map(|op| op.precedence()).collect();
    assert_eq!(ranks, vec![6, 6, 7, 7, 3, 2, 5, 5, 5, 5, 5, 5, 1, 1, 1, 1, 1]);
}

#[test]
fn unary_precedence() {
    assert_eq!(UnOp::Pos.precedence(), 8);
    assert_eq!(UnOp::Neg.precedence(), 8);
    assert_eq!(UnOp::Not.precedence(), 4);
}

#[test]
fn binary_associativity() {
    for op in BIN_OPS {
        let expected = match op {
            BinOp::Assign
            | BinOp::AddAssign
            | BinOp::SubAssign
            | BinOp::MulAssign
            | BinOp::DivAssign => Associativity::Right,
            _ => Associativity::Left,
        };
        assert_eq!(op.associativity(), expected);
    }
}

#[test]
fn equal_precedence_means_equal_associativity() {
    for a in BIN_OPS {
        for b in BIN_OPS {
            if a.precedence() == b.precedence() {
                assert_eq!(a.associativity(), b.associativity());
            }
        }
    }
}

#[test]
fn token_spellings_differ() {
    for (i, a) in TOKENS.iter().enumerate() {
        for (j, b) in TOKENS.iter().enumerate() {
            if i != j {
                assert_ne!(a.as_str(), b.as_str());
            }
        }
    }
    assert_eq!(Token::Backslash.as_str(), "\\");
    assert_eq!(Token::Let.as_str(), "#let");
    assert_eq!(Token::Else.as_str(), "#else");
}
