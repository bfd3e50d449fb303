//! Tokens of the filter expression language.

use vstd::prelude::*;

verus! {

/// The kind of a lexed token.
#[derive(Clone, Copy, PartialEq, Eq, Structural, Debug)]
pub enum TokenKind {
    /// A character sequence that belongs to no token class.
    Invalid,
    /// The end of the input.
    EOF,
    /// `(`.
    OpenParen,
    /// `)`.
    CloseParen,
    /// `and` or `&&`.
    And,
    /// `or` or `||`.
    Or,
    /// `==`.
    Eq,
    /// `!=`.
    Neq,
    /// `<`.
    Le,
    /// `<=`.
    Leq,
    /// `>`.
    Ge,
    /// `>=`.
    Geq,
    /// A single-quoted string literal.
    StringLit,
    /// A run of decimal digits.
    Integer,
    /// Digits, a point, and digits.
    Float,
    /// `true` or `false`.
    Boolean,
    /// A column name.
    Identifier,
}

/// A token: its kind and the half-open character span `[start, end)` it
/// occupies in the input.
#[derive(Clone, Copy, PartialEq, Eq, Structural, Debug)]
pub struct Token {
    /// The token class.
    pub kind: TokenKind,
    /// The index of the first character of the token.
    pub start: usize,
    /// The index one past the last character of the token.
    pub end: usize,
}

impl Token {
    /// A token of kind `kind` spanning `[start, end)`.
    pub fn new(kind: TokenKind, start: usize, end: usize) -> (r: Token)
        ensures
            r == (Token { kind, start, end }),
    {
        Token { kind, start, end }
    }

    /// An `Invalid` token spanning `[start, end)`.
    pub fn invalid(start: usize, end: usize) -> (r: Token)
        ensures
            r == (Token { kind: TokenKind::Invalid, start, end }),
    {
        Token { kind: TokenKind::Invalid, start, end }
    }

    /// An `EOF` token spanning `[start, end)`.
    pub fn eof(start: usize, end: usize) -> (r: Token)
        ensures
            r == (Token { kind: TokenKind::EOF, start, end }),
    {
        Token { kind: TokenKind::EOF, start, end }
    }

    /// An `OpenParen` token spanning `[start, end)`.
    pub fn openparen(start: usize, end: usize) -> (r: Token)
        ensures
            r == (Token { kind: TokenKind::OpenParen, start, end }),
    {
        Token { kind: TokenKind::OpenParen, start, end }
    }

    /// A `CloseParen` token spanning `[start, end)`.
    pub fn closeparen(start: usize, end: usize) -> (r: Token)
        ensures
            r == (Token { kind: TokenKind::CloseParen, start, end }),
    {
        Token { kind: TokenKind::CloseParen, start, end }
    }

    /// An `And` token spanning `[start, end)`.
    pub fn and(start: usize, end: usize) -> (r: Token)
        ensures
            r == (Token { kind: TokenKind::And, start, end }),
    {
        Token { kind: TokenKind::And, start, end }
    }

    /// An `Or` token spanning `[start, end)`.
    pub fn or(start: usize, end: usize) -> (r: Token)
        ensures
            r == (Token { kind: TokenKind::Or, start, end }),
    {
        Token { kind: TokenKind::Or, start, end }
    }

    /// An `Eq` token spanning `[start, end)`.
    pub fn eq(start: usize, end: usize) -> (r: Token)
        ensures
            r == (Token { kind: TokenKind::Eq, start, end }),
    {
        Token { kind: TokenKind::Eq, start, end }
    }

    /// A `Neq` token spanning `[start, end)`.
    pub fn neq(start: usize, end: usize) -> (r: Token)
        ensures
            r == (Token { kind: TokenKind::Neq, start, end }),
    {
        Token { kind: TokenKind::Neq, start, end }
    }

    /// A `Le` token spanning `[start, end)`.
    pub fn le(start: usize, end: usize) -> (r: Token)
        ensures
            r == (Token { kind: TokenKind::Le, start, end }),
    {
        Token { kind: TokenKind::Le, start, end }
    }

    /// A `Leq` token spanning `[start, end)`.
    pub fn leq(start: usize, end: usize) -> (r: Token)
        ensures
            r == (Token { kind: TokenKind::Leq, start, end }),
    {
        Token { kind: TokenKind::Leq, start, end }
    }

    /// A `Ge` token spanning `[start, end)`.
    pub fn ge(start: usize, end: usize) -> (r: Token)
        ensures
            r == (Token { kind: TokenKind::Ge, start, end }),
    {
        Token { kind: TokenKind::Ge, start, end }
    }

    /// A `Geq` token spanning `[start, end)`.
    pub fn geq(start: usize, end: usize) -> (r: Token)
        ensures
            r == (Token { kind: TokenKind::Geq, start, end }),
    {
        Token { kind: TokenKind::Geq, start, end }
    }

    /// A `StringLit` token spanning `[start, end)`.
    pub fn string(start: usize, end: usize) -> (r: Token)
        ensures
            r == (Token { kind: TokenKind::StringLit, start, end }),
    {
        Token { kind: TokenKind::StringLit, start, end }
    }

    /// An `Integer` token spanning `[start, end)`.
    pub fn integer(start: usize, end: usize) -> (r: Token)
        ensures
            r == (Token { kind: TokenKind::Integer, start, end }),
    {
        Token { kind: TokenKind::Integer, start, end }
    }

    /// A `Float` token spanning `[start, end)`.
    pub fn float(start: usize, end: usize) -> (r: Token)
        ensures
            r == (Token { kind: TokenKind::Float, start, end }),
    {
        Token { kind: TokenKind::Float, start, end }
    }

    /// A `Boolean` token spanning `[start, end)`.
    pub fn boolean(start: usize, end: usize) -> (r: Token)
        ensures
            r == (Token { kind: TokenKind::Boolean, start, end }),
    {
        Token { kind: TokenKind::Boolean, start, end }
    }
}

} // verus!
