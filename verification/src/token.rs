//! The token model: a token kind, the exact source text it was scanned from,
//! an optional literal payload and the source line it came from.

use vstd::prelude::*;

use crate::value::Value;
use crate::value::ValueV;

verus! {

/// The kind of a token.
#[derive(Clone, Copy, Debug, PartialEq, Eq, Structural)]
pub enum TokenType {
    LeftParen,
    RightParen,
    LeftBrace,
    RightBrace,
    Dot,
    Minus,
    Plus,
    Semicolon,
    Slash,
    Star,
    Question,
    Colon,
    Comma,
    Bang,
    BangEqual,
    Equal,
    EqualEqual,
    Greater,
    GreaterEqual,
    Less,
    LessEqual,
    Identifier,
    String,
    Number,
    And,
    Class,
    Else,
    False,
    Fun,
    For,
    If,
    Nil,
    Or,
    Return,
    Super,
    This,
    True,
    Var,
    While,
    Eof,
}

/// One token: kind, lexeme (the exact source substring it was scanned from),
/// optional literal payload, and source line.  Immutable once produced.
#[derive(Debug)]
pub struct Token {
    pub token_type: TokenType,
    pub lexeme: String,
    pub literal: Option<Value>,
    pub line: u32,
}

/// The mathematical image of a token.
#[verifier::ext_equal]
pub struct TokenV {
    pub token_type: TokenType,
    pub lexeme: Seq<char>,
    pub literal: Option<ValueV>,
    pub line: u32,
}

impl Token {
    pub open spec fn view(&self) -> TokenV {
        TokenV {
            token_type: self.token_type,
            lexeme: self.lexeme@,
            literal: match self.literal {
                Option::Some(v) => Option::Some(v@),
                Option::None => Option::None,
            },
            line: self.line,
        }
    }

    pub fn new(token_type: TokenType, lexeme: String, literal: Option<Value>, line: u32) -> (t:
        Token)
        ensures
            t@ == (TokenV {
                token_type,
                lexeme: lexeme@,
                literal: match literal {
                    Option::Some(v) => Option::Some(v@),
                    Option::None => Option::None,
                },
                line,
            }),
    {
        Token { token_type, lexeme, literal, line }
    }

    /// An owned copy of this token, with the same image.
    pub fn duplicate(&self) -> (t: Token)
        ensures
            t@ == self@,
    {
        Token {
            token_type: self.token_type,
            lexeme: self.lexeme.clone(),
            literal: match &self.literal {
                Option::Some(v) => Option::Some(v.duplicate()),
                Option::None => Option::None,
            },
            line: self.line,
        }
    }
}

} // verus!
