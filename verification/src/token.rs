//! The tokens produced by the lexer.

use vstd::prelude::*;

use crate::ast::Type;

verus! {

/// One lexical token. Keyword tokens are produced when a scanned word
/// matches the corresponding entry of the syntax table; unmatched words
/// become identifiers.
#[derive(Debug, PartialEq)]
pub enum Token {
    /// The configured mutable-declaration keyword.
    MutableDecl,
    /// The configured constant-declaration keyword.
    ConstantDecl,
    /// The configured function-definition keyword.
    FunctionDef,
    /// The configured conditional keyword.
    Conditional,
    /// A backtick that opened an empty template.
    Backtick,
    /// The `${` opening of a template interpolation.
    InterpolationStart,
    /// A run of plain text inside a template literal.
    TemplatePart(String),
    /// The configured list-type keyword.
    SiyahiKeyword,
    /// The configured else keyword.
    Else,
    /// The configured drop keyword.
    Drop,
    /// A configured type keyword, already resolved to its type.
    TypeName(Type),
    /// The configured loop keyword.
    Loop,
    /// The wide-integer type keyword.
    BigInteger,
    /// The narrow-integer type keyword.
    LowInteger,
    /// The default-integer type keyword.
    Integer,
    /// The text type keyword.
    String,
    /// An identifier.
    Identifier(String),
    /// An integer literal.
    Number(i64),
    /// A plain string literal.
    StringLiteral(String),
    /// An operator of one or two characters.
    Operator(String),
    LParen,
    RParen,
    LBrace,
    RBrace,
    Semicolon,
    Colon,
    Comma,
    ListStart,
    ListEnd,
    /// The configured return keyword.
    Return,
    /// The end-of-stream marker.
    EOF,
    /// A word-form conjunction.
    And,
    /// A word-form disjunction.
    Or,
    /// The `&&` operator in token form.
    DoubleAnd,
    /// The `||` operator in token form.
    DoubleOr,
}

impl Clone for Token {
    /// Clones preserve the token exactly.
    fn clone(&self) -> (res: Self)
        ensures
            res == *self,
    {
        match self {
            Token::MutableDecl => Token::MutableDecl,
            Token::ConstantDecl => Token::ConstantDecl,
            Token::FunctionDef => Token::FunctionDef,
            Token::Conditional => Token::Conditional,
            Token::Backtick => Token::Backtick,
            Token::InterpolationStart => Token::InterpolationStart,
            Token::TemplatePart(s) => Token::TemplatePart(s.clone()),
            Token::SiyahiKeyword => Token::SiyahiKeyword,
            Token::Else => Token::Else,
            Token::Drop => Token::Drop,
            Token::TypeName(t) => Token::TypeName(t.clone()),
            Token::Loop => Token::Loop,
            Token::BigInteger => Token::BigInteger,
            Token::LowInteger => Token::LowInteger,
            Token::Integer => Token::Integer,
            Token::String => Token::String,
            Token::Identifier(s) => Token::Identifier(s.clone()),
            Token::Number(n) => Token::Number(*n),
            Token::StringLiteral(s) => Token::StringLiteral(s.clone()),
            Token::Operator(s) => Token::Operator(s.clone()),
            Token::LParen => Token::LParen,
            Token::RParen => Token::RParen,
            Token::LBrace => Token::LBrace,
            Token::RBrace => Token::RBrace,
            Token::Semicolon => Token::Semicolon,
            Token::Colon => Token::Colon,
            Token::Comma => Token::Comma,
            Token::ListStart => Token::ListStart,
            Token::ListEnd => Token::ListEnd,
            Token::Return => Token::Return,
            Token::EOF => Token::EOF,
            Token::And => Token::And,
            Token::Or => Token::Or,
            Token::DoubleAnd => Token::DoubleAnd,
            Token::DoubleOr => Token::DoubleOr,
        }
    }
}

} // verus!
