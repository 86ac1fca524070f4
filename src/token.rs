use vstd::prelude::*;
use crate::cursor::SourcePos;
use crate::interner::Symbol;

verus! {

/// Reserved words that structure statements.
#[derive(Debug, Clone, Copy, PartialEq, Eq, Structural)]
pub enum Keyword {
    Let,
    If,
    Then,
    Else,
    End,
    For,
    In,
    Do,
    While,
    Function,
    Return,
    Break,
    Self_,
}

/// Reserved words that denote values.
#[derive(Debug, Clone, Copy, PartialEq, Eq, Structural)]
pub enum Literal {
    Nil,
    True,
    False,
}

/// Operators spelled as words.
#[derive(Debug, Clone, Copy, PartialEq, Eq, Structural)]
pub enum Operator {
    Not,
    And,
    Or,
}

/// What a token is.
#[derive(Debug, Clone, Copy, PartialEq, Eq, Structural)]
pub enum TokenKind {
    Keyword(Keyword),
    Literal(Literal),
    Operator(Operator),
    Identifier(Symbol),
}

/// A classified token and the position where it begins.
#[derive(Debug, Clone, Copy, PartialEq, Eq, Structural)]
pub struct Token {
    pub kind: TokenKind,
    pub pos: SourcePos,
}

} // verus!
