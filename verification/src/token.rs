//! Tokens with a fixed spelling.

use vstd::prelude::*;

verus! {

/// A token whose spelling is fixed: a bracket, a punctuation mark, an
/// operator or a keyword.
///
/// Tokens whose spelling varies (identifiers, literals, plain text) carry
/// their own data and never name an operator, so they are not listed here.
#[derive(Debug, Copy, Clone, PartialEq, Eq, Structural)]
pub enum Token {
    /// A left bracket: `[`.
    LeftBracket,
    /// A right bracket: `]`.
    RightBracket,
    /// A left brace: `{`.
    LeftBrace,
    /// A right brace: `}`.
    RightBrace,
    /// A left parenthesis: `(`.
    LeftParen,
    /// A right parenthesis: `)`.
    RightParen,
    /// A star: `*`.
    Star,
    /// An underscore: `_`.
    Underscore,
    /// A backslash: `\`.
    Backslash,
    /// A comma: `,`.
    Comma,
    /// A semicolon: `;`.
    Semicolon,
    /// A colon: `:`.
    Colon,
    /// A pipe: `|`.
    Pipe,
    /// A plus: `+`.
    Plus,
    /// A hyphen: `-`.
    Hyph,
    /// A slash: `/`.
    Slash,
    /// A single equals sign: `=`.
    Eq,
    /// Two equals signs: `==`.
    EqEq,
    /// An exclamation mark followed by an equals sign: `!=`.
    BangEq,
    /// A less-than sign: `<`.
    Lt,
    /// A less-than or equal sign: `<=`.
    LtEq,
    /// A greater-than sign: `>`.
    Gt,
    /// A greater-than or equal sign: `>=`.
    GtEq,
    /// A plus followed by an equals sign: `+=`.
    PlusEq,
    /// A hyphen followed by an equals sign: `-=`.
    HyphEq,
    /// A star followed by an equals sign: `*=`.
    StarEq,
    /// A slash followed by an equals sign: `/=`.
    SlashEq,
    /// The `not` operator.
    Not,
    /// The `and` operator.
    And,
    /// The `or` operator.
    Or,
    /// The `#let` keyword.
    Let,
    /// The `#if` keyword.
    If,
    /// The `#else` keyword.
    Else,
    /// The `#for` keyword.
    For,
    /// The `#in` keyword.
    In,
}

impl Token {
    /// The characters that make up this token in source text.
    pub open spec fn spelling(self) -> Seq<char> {
        match self {
            Token::LeftBracket => "["@,
            Token::RightBracket => "]"@,
            Token::LeftBrace => "{"@,
            Token::RightBrace => "}"@,
            Token::LeftParen => "("@,
            Token::RightParen => ")"@,
            Token::Star => "*"@,
            Token::Underscore => "_"@,
            Token::Backslash => "\\"@,
            Token::Comma => ","@,
            Token::Semicolon => ";"@,
            Token::Colon => ":"@,
            Token::Pipe => "|"@,
            Token::Plus => "+"@,
            Token::Hyph => "-"@,
            Token::Slash => "/"@,
            Token::Eq => "="@,
            Token::EqEq => "=="@,
            Token::BangEq => "!="@,
            Token::Lt => "<"@,
            Token::LtEq => "<="@,
            Token::Gt => ">"@,
            Token::GtEq => ">="@,
            Token::PlusEq => "+="@,
            Token::HyphEq => "-="@,
            Token::StarEq => "*="@,
            Token::SlashEq => "/="@,
            Token::Not => "not"@,
            Token::And => "and"@,
            Token::Or => "or"@,
            Token::Let => "#let"@,
            Token::If => "#if"@,
            Token::Else => "#else"@,
            Token::For => "#for"@,
            Token::In => "#in"@,
        }
    }

    /// The spelling of this token in source text.
    pub fn as_str(self) -> (s: &'static str)
        ensures
            s@ == self.spelling(),
    {
        match self {
            Token::LeftBracket => "[",
            Token::RightBracket => "]",
            Token::LeftBrace => "{",
            Token::RightBrace => "}",
            Token::LeftParen => "(",
            Token::RightParen => ")",
            Token::Star => "*",
            Token::Underscore => "_",
            Token::Backslash => "\\",
            Token::Comma => ",",
            Token::Semicolon => ";",
            Token::Colon => ":",
            Token::Pipe => "|",
            Token::Plus => "+",
            Token::Hyph => "-",
            Token::Slash => "/",
            Token::Eq => "=",
            Token::EqEq => "==",
            Token::BangEq => "!=",
            Token::Lt => "<",
            Token::LtEq => "<=",
            Token::Gt => ">",
            Token::GtEq => ">=",
            Token::PlusEq => "+=",
            Token::HyphEq => "-=",
            Token::StarEq => "*=",
            Token::SlashEq => "/=",
            Token::Not => "not",
            Token::And => "and",
            Token::Or => "or",
            Token::Let => "#let",
            Token::If => "#if",
            Token::Else => "#else",
            Token::For => "#for",
            Token::In => "#in",
        }
    }
}

/// Reveals the characters of every token spelling.
pub proof fn lemma_token_spellings()
    ensures
        "["@ == seq!['['],
        "]"@ == seq![']'],
        "{"@ == seq!['{'],
        "}"@ == seq!['}'],
        "("@ == seq!['('],
        ")"@ == seq![')'],
        "*"@ == seq!['*'],
        "_"@ == seq!['_'],
        "\\"@ == seq!['\\'],
        ","@ == seq![','],
        ";"@ == seq![';'],
        ":"@ == seq![':'],
        "|"@ == seq!['|'],
        "+"@ == seq!['+'],
        "-"@ == seq!['-'],
        "/"@ == seq!['/'],
        "="@ == seq!['='],
        "=="@ == seq!['=', '='],
        "!="@ == seq!['!', '='],
        "<"@ == seq!['<'],
        "<="@ == seq!['<', '='],
        ">"@ == seq!['>'],
        ">="@ == seq!['>', '='],
        "+="@ == seq!['+', '='],
        "-="@ == seq!['-', '='],
        "*="@ == seq!['*', '='],
        "/="@ == seq!['/', '='],
        "not"@ == seq!['n', 'o', 't'],
        "and"@ == seq!['a', 'n', 'd'],
        "or"@ == seq!['o', 'r'],
        "#let"@ == seq!['#', 'l', 'e', 't'],
        "#if"@ == seq!['#', 'i', 'f'],
        "#else"@ == seq!['#', 'e', 'l', 's', 'e'],
        "#for"@ == seq!['#', 'f', 'o', 'r'],
        "#in"@ == seq!['#', 'i', 'n'],
{
    reveal_strlit("[");
    reveal_strlit("]");
    reveal_strlit("{");
    reveal_strlit("}");
    reveal_strlit("(");
    reveal_strlit(")");
    reveal_strlit("*");
    reveal_strlit("_");
    reveal_strlit("\\");
    reveal_strlit(",");
    reveal_strlit(";");
    reveal_strlit(":");
    reveal_strlit("|");
    reveal_strlit("+");
    reveal_strlit("-");
    reveal_strlit("/");
    reveal_strlit("=");
    reveal_strlit("==");
    reveal_strlit("!=");
    reveal_strlit("<");
    reveal_strlit("<=");
    reveal_strlit(">");
    reveal_strlit(">=");
    reveal_strlit("+=");
    reveal_strlit("-=");
    reveal_strlit("*=");
    reveal_strlit("/=");
    reveal_strlit("not");
    reveal_strlit("and");
    reveal_strlit("or");
    reveal_strlit("#let");
    reveal_strlit("#if");
    reveal_strlit("#else");
    reveal_strlit("#for");
    reveal_strlit("#in");
}

/// No two tokens share a spelling: a spelling names at most one token.
pub proof fn lemma_token_spelling_injective(a: Token, b: Token)
    requires
        a.spelling() == b.spelling(),
    ensures
        a == b,
{
    lemma_token_spellings();
    let s = a.spelling();
    let t = b.spelling();
    assert(s.len() == t.len());
    assert(s[0] == t[0]);
    if s.len() >= 2 {
        assert(s[1] == t[1]);
    }
    if s.len() >= 3 {
        assert(s[2] == t[2]);
    }
}

} // verus!
